//! Correlation ids and argument fingerprints for the logs of tool invocations.
use vstd::prelude::*;
use vstd::string::*;
use std::hash::{Hash, Hasher};
use crate::text::{hex_text, hex_text_padded, is_lower_hex_char, lemma_hex_text_shape, push_char, push_hex, hex_padded_16};

verus! {

#[verifier::external_type_specification]
#[verifier::external_body]
pub struct ExSystemTime(std::time::SystemTime);

/// The current time (`SystemTime::now`).
#[verifier::external_body]
fn system_time_now() -> (r: std::time::SystemTime) {
    std::time::SystemTime::now()
}

/// How long after the Unix epoch a time lies (`SystemTime::duration_since(UNIX_EPOCH)`);
/// `None` for a time before it.
#[verifier::external_body]
fn since_unix_epoch(t: &std::time::SystemTime) -> (r: Option<core::time::Duration>) {
    t.duration_since(std::time::UNIX_EPOCH).ok()
}

/// A duration in whole milliseconds (`Duration::as_millis`).
#[verifier::external_body]
fn duration_millis(d: &core::time::Duration) -> (r: u128) {
    d.as_millis()
}

/// The milliseconds since the Unix epoch, truncated to 64 bits, of a clock reading that
/// lies `offset_ms` after the epoch; `0` for a reading before the epoch.
pub open spec fn epoch_millis(offset_ms: Option<u128>) -> u64 {
    match offset_ms {
        Some(ms) => (ms % 0x1_0000_0000_0000_0000) as u64,
        None => 0,
    }
}

/// Turns the offset of a clock reading from the epoch into the milliseconds logged.
pub fn millis_from_offset(offset_ms: Option<u128>) -> (r: u64)
    ensures
        r == epoch_millis(offset_ms),
{
    match offset_ms {
        Some(ms) => {
            let low = ms % 0x1_0000_0000_0000_0000u128;
            low as u64
        },
        None => 0,
    }
}

/// The current Unix time in milliseconds, truncated to 64 bits; `0` if the clock reads
/// before the epoch.
pub fn unix_millis_now() -> (r: u64) {
    let now = system_time_now();
    let offset = match since_unix_epoch(&now) {
        Some(d) => Some(duration_millis(&d)),
        None => None,
    };
    millis_from_offset(offset)
}

/// The sequence number after `n`: counting up, wrapping to `0` after `u64::MAX`.
pub open spec fn next_sequence(n: u64) -> u64 {
    if n == u64::MAX {
        0
    } else {
        (n + 1) as u64
    }
}

/// The sequence number `k` steps after `n`.
pub open spec fn advanced(n: u64, k: nat) -> u64
    decreases k,
{
    if k == 0 {
        n
    } else {
        next_sequence(advanced(n, (k - 1) as nat))
    }
}

/// Hands out the sequence numbers of correlation ids, starting at 1.
pub struct SequenceCounter {
    next: u64,
}

impl SequenceCounter {
    /// The sequence number the counter hands out next.
    pub closed spec fn upcoming(self) -> u64 {
        self.next
    }

    pub fn new() -> (r: SequenceCounter)
        ensures
            r.upcoming() == 1,
    {
        SequenceCounter { next: 1 }
    }

    /// The next sequence number; the counter moves on by one, wrapping on overflow.
    pub fn next(&mut self) -> (r: u64)
        ensures
            r == old(self).upcoming(),
            final(self).upcoming() == next_sequence(old(self).upcoming()),
    {
        let r = self.next;
        self.next = if r == u64::MAX { 0 } else { r + 1 };
        r
    }
}

/// A correlation id: the time in milliseconds and the sequence number, both in
/// lower-case hexadecimal, joined by a dash (`format!("{:x}-{:x}", now_ms, seq)`).
pub open spec fn correlation_id_text(now_ms: u64, seq: u64) -> Seq<char> {
    hex_text(now_ms as nat) + seq!['-'] + hex_text(seq as nat)
}

/// Writes the correlation id of a time and a sequence number.
pub fn format_correlation_id(now_ms: u64, seq: u64) -> (r: String)
    ensures
        r@ == correlation_id_text(now_ms, seq),
{
    let mut out = String::new();
    push_hex(&mut out, now_ms);
    push_char(&mut out, '-');
    push_hex(&mut out, seq);
    assert(out@ =~= correlation_id_text(now_ms, seq));
    out
}

/// A fresh correlation id for a tool invocation: the current time and the counter's next
/// sequence number, which the counter moves past.
pub fn new_correlation_id(counter: &mut SequenceCounter) -> (r: String)
    ensures
        exists|now_ms: u64| r@ == #[trigger] correlation_id_text(now_ms, old(counter).upcoming()),
        final(counter).upcoming() == next_sequence(old(counter).upcoming()),
{
    let now_ms = unix_millis_now();
    let seq = counter.next();
    let r = format_correlation_id(now_ms, seq);
    assert(r@ == correlation_id_text(now_ms, seq));
    r
}

/// The hash `DefaultHasher::new()` gives a byte sequence (hashed as a slice: its length,
/// then its bytes). It is fixed for one build and target; std does not promise it across
/// releases or platforms.
pub uninterp spec fn default_hash(bytes: Seq<u8>) -> u64;

/// Hashes bytes with a fresh `DefaultHasher` (`Hash::hash`, then `Hasher::finish`).
#[verifier::external_body]
fn hash_bytes(bytes: &[u8]) -> (r: u64)
    ensures
        r == default_hash(bytes@),
{
    let mut hasher = std::collections::hash_map::DefaultHasher::new();
    Hash::hash(bytes, &mut hasher);
    Hasher::finish(&hasher)
}

/// The fingerprint logged in place of a tool's arguments.
pub open spec fn args_hash_text(encoded: Option<Seq<u8>>) -> Seq<char> {
    match encoded {
        Some(bytes) => hex_text_padded(default_hash(bytes) as nat, 16),
        None => "unavailable"@,
    }
}

/// The fingerprint of a tool's arguments, given their JSON encoding: the hash of the
/// encoded bytes as sixteen hexadecimal digits, or `unavailable` if they could not be
/// encoded.
pub fn args_hash(encoded: &Result<Vec<u8>, serde_json::Error>) -> (r: String)
    ensures
        r@ == args_hash_text(match encoded { Ok(b) => Some(b@), Err(_) => None }),
{
    match encoded {
        Ok(bytes) => hex_padded_16(hash_bytes(bytes.as_slice())),
        Err(_) => String::from_str("unavailable"),
    }
}

proof fn lemma_no_dash_in_hex(n: nat)
    ensures
        forall|i: int| 0 <= i < hex_text(n).len() ==> #[trigger] hex_text(n)[i] != '-',
{
    lemma_hex_text_shape(n);
    assert forall|i: int| 0 <= i < hex_text(n).len() implies #[trigger] hex_text(n)[i] != '-' by {
        assert(is_lower_hex_char(hex_text(n)[i]));
    }
}

/// Correlation ids of different (time, sequence number) pairs differ: ids of invocations
/// with different sequence numbers never collide.
pub proof fn lemma_correlation_id_injective(ms1: u64, seq1: u64, ms2: u64, seq2: u64)
    ensures
        correlation_id_text(ms1, seq1) == correlation_id_text(ms2, seq2) ==> ms1 == ms2 && seq1 == seq2,
{
    let a = hex_text(ms1 as nat);
    let b = hex_text(seq1 as nat);
    let c = hex_text(ms2 as nat);
    let d = hex_text(seq2 as nat);
    let x = correlation_id_text(ms1, seq1);
    let y = correlation_id_text(ms2, seq2);
    if x == y {
        lemma_no_dash_in_hex(ms1 as nat);
        lemma_no_dash_in_hex(ms2 as nat);
        if a.len() < c.len() {
            assert(x[a.len() as int] == '-');
            assert(y[a.len() as int] == c[a.len() as int]);
        } else if c.len() < a.len() {
            assert(y[c.len() as int] == '-');
            assert(x[c.len() as int] == a[c.len() as int]);
        } else {
            assert(a =~= x.subrange(0, a.len() as int));
            assert(c =~= y.subrange(0, c.len() as int));
            assert(b =~= x.subrange(a.len() as int + 1, x.len() as int));
            assert(d =~= y.subrange(c.len() as int + 1, y.len() as int));
            crate::text::lemma_hex_text_injective(ms1 as nat, ms2 as nat);
            crate::text::lemma_hex_text_injective(seq1 as nat, seq2 as nat);
        }
    }
}

/// Two correlation ids drawn one after the other from a counter differ, whatever the
/// clock read: the counter never hands out the same number twice in a row.
pub proof fn lemma_successive_correlation_ids_differ(ms1: u64, ms2: u64, n: u64)
    ensures
        correlation_id_text(ms1, n) != correlation_id_text(ms2, next_sequence(n)),
{
    lemma_correlation_id_injective(ms1, n, ms2, next_sequence(n));
}

/// Counting up from `n` by `k` steps reaches `n + k` as long as that fits in a `u64`.
pub proof fn lemma_counter_counts_up(n: u64, k: nat)
    requires
        n + k <= u64::MAX,
    ensures
        advanced(n, k) == n + k,
    decreases k,
{
    if k > 0 {
        lemma_counter_counts_up(n, (k - 1) as nat);
    }
}

/// Correlation ids drawn from one counter, the second `k > 0` draws after the first,
/// carry a larger sequence number and so differ, whatever the clock read, as long as
/// the counter has not gone past `u64::MAX`.
pub proof fn lemma_later_correlation_ids_differ(ms1: u64, ms2: u64, n: u64, k: nat)
    requires
        0 < k,
        n + k <= u64::MAX,
    ensures
        advanced(n, k) > n,
        correlation_id_text(ms1, n) != correlation_id_text(ms2, advanced(n, k)),
{
    lemma_counter_counts_up(n, k);
    lemma_correlation_id_injective(ms1, n, ms2, advanced(n, k));
}

/// An argument fingerprint is sixteen lower-case hexadecimal digits, or `unavailable`.
pub proof fn lemma_args_hash_shape(bytes: Seq<u8>)
    ensures
        args_hash_text(Some(bytes)).len() == 16,
        forall|i: int| 0 <= i < 16 ==> is_lower_hex_char(#[trigger] args_hash_text(Some(bytes))[i]),
{
    let n = default_hash(bytes) as nat;
    lemma_hex_text_shape(n);
    let t = args_hash_text(Some(bytes));
    let digits = hex_text(n);
    assert forall|i: int| 0 <= i < 16 implies is_lower_hex_char(#[trigger] t[i]) by {
        if digits.len() < 16 {
            let pad = (16 - digits.len()) as int;
            if i < pad {
                assert(t[i] == '0');
            } else {
                assert(t[i] == digits[i - pad]);
            }
        }
    }
}

} // verus!
