use vstd::prelude::*;
use vstd::string::*;

verus! {

/// Code points with the Unicode `White_Space` property, the set that `str::trim` strips.
pub open spec fn is_white_space(c: char) -> bool {
    let u = c as u32;
    ||| 0x09 <= u && u <= 0x0D
    ||| u == 0x20
    ||| u == 0x85
    ||| u == 0xA0
    ||| u == 0x1680
    ||| 0x2000 <= u && u <= 0x200A
    ||| u == 0x2028
    ||| u == 0x2029
    ||| u == 0x202F
    ||| u == 0x205F
    ||| u == 0x3000
}

/// Text that is empty once leading and trailing white space is trimmed.
pub open spec fn is_blank_text(s: Seq<char>) -> bool {
    forall|i: int| 0 <= i < s.len() ==> is_white_space(#[trigger] s[i])
}

fn char_is_white_space(c: char) -> (r: bool)
    ensures
        r == is_white_space(c),
{
    let u = c as u32;
    (0x09 <= u && u <= 0x0D) || u == 0x20 || u == 0x85 || u == 0xA0 || u == 0x1680 || (0x2000
        <= u && u <= 0x200A) || u == 0x2028 || u == 0x2029 || u == 0x202F || u == 0x205F || u
        == 0x3000
}

/// Whether `s.trim()` is empty: every character of `s` is white space.
pub fn is_blank(s: &str) -> (r: bool)
    ensures
        r == is_blank_text(s@),
{
    broadcast use vstd::string::group_string_axioms;
    for c in it: s.chars()
        invariant
            it.seq() == s@,
            forall|j: int| 0 <= j < it.index() ==> is_white_space(#[trigger] s@[j]),
    {
        if !char_is_white_space(c) {
            return false;
        }
    }
    true
}

/// The lower-case hexadecimal digit for a value below sixteen.
pub open spec fn hex_char(d: nat) -> char {
    if d == 0 { '0' } else if d == 1 { '1' } else if d == 2 { '2' } else if d == 3 { '3' }
    else if d == 4 { '4' } else if d == 5 { '5' } else if d == 6 { '6' } else if d == 7 { '7' }
    else if d == 8 { '8' } else if d == 9 { '9' } else if d == 10 { 'a' } else if d == 11 { 'b' }
    else if d == 12 { 'c' } else if d == 13 { 'd' } else if d == 14 { 'e' } else { 'f' }
}

/// `n` written in lower-case hexadecimal without leading zeros (`format!("{:x}", n)`).
pub open spec fn hex_text(n: nat) -> Seq<char>
    decreases n,
{
    if n < 16 {
        seq![hex_char(n)]
    } else {
        hex_text(n / 16).push(hex_char(n % 16))
    }
}

/// `n` in lower-case hexadecimal, left-padded with zeros to `width` digits
/// (`format!("{:0width$x}", n)`).
pub open spec fn hex_text_padded(n: nat, width: nat) -> Seq<char> {
    let digits = hex_text(n);
    if digits.len() >= width {
        digits
    } else {
        Seq::new((width - digits.len()) as nat, |i: int| '0') + digits
    }
}

/// Whether `c` is one of the sixteen lower-case hexadecimal digits.
pub open spec fn is_lower_hex_char(c: char) -> bool {
    ('0' <= c && c <= '9') || ('a' <= c && c <= 'f')
}

fn hex_digit(d: u64) -> (c: char)
    requires
        d < 16,
    ensures
        c == hex_char(d as nat),
{
    match d {
        0 => '0',
        1 => '1',
        2 => '2',
        3 => '3',
        4 => '4',
        5 => '5',
        6 => '6',
        7 => '7',
        8 => '8',
        9 => '9',
        10 => 'a',
        11 => 'b',
        12 => 'c',
        13 => 'd',
        14 => 'e',
        _ => 'f',
    }
}

/// Appends one character to a string (`String::push`).
#[verifier::external_body]
pub(crate) fn push_char(s: &mut String, c: char)
    ensures
        final(s)@ == old(s)@.push(c),
{
    s.push(c);
}

spec fn pow16(k: nat) -> nat
    decreases k,
{
    if k == 0 { 1 } else { 16 * pow16((k - 1) as nat) }
}

proof fn lemma_hex_text_len_bound(n: nat, k: nat)
    requires
        1 <= k,
        n < pow16(k),
    ensures
        hex_text(n).len() <= k,
    decreases n,
{
    if n >= 16 {
        if k == 1 {
            assert(pow16(1) == 16 * pow16(0));
        } else {
            assert(n / 16 < pow16((k - 1) as nat)) by (nonlinear_arith)
                requires
                    n < 16 * pow16((k - 1) as nat),
            ;
            lemma_hex_text_len_bound(n / 16, (k - 1) as nat);
        }
    }
}

/// Facts about `hex_text`: at least one digit, all lower-case hexadecimal, and at most
/// sixteen digits for a 64-bit value.
pub proof fn lemma_hex_text_shape(n: nat)
    ensures
        1 <= hex_text(n).len(),
        n < 0x1_0000_0000_0000_0000 ==> hex_text(n).len() <= 16,
        forall|i: int| 0 <= i < hex_text(n).len() ==> is_lower_hex_char(#[trigger] hex_text(n)[i]),
    decreases n,
{
    if n >= 16 {
        lemma_hex_text_shape(n / 16);
    }
    if n < 0x1_0000_0000_0000_0000 {
        assert(pow16(16) == 0x1_0000_0000_0000_0000) by {
            reveal_with_fuel(pow16, 17);
        }
        lemma_hex_text_len_bound(n, 16);
    }
}

/// Appends `n` in lower-case hexadecimal, without leading zeros.
pub fn push_hex(out: &mut String, n: u64)
    ensures
        final(out)@ == old(out)@ + hex_text(n as nat),
    decreases n,
{
    if n < 16 {
        push_char(out, hex_digit(n));
    } else {
        push_hex(out, n / 16);
        push_char(out, hex_digit(n % 16));
        assert(hex_text(n as nat) == hex_text((n / 16) as nat).push(hex_char((n % 16) as nat)));
    }
}

/// `n` in lower-case hexadecimal, left-padded with zeros to sixteen digits.
pub fn hex_padded_16(n: u64) -> (r: String)
    ensures
        r@ == hex_text_padded(n as nat, 16),
        r@.len() == 16,
{
    let mut digits = String::new();
    push_hex(&mut digits, n);
    proof {
        lemma_hex_text_shape(n as nat);
    }
    let len = digits.as_str().unicode_len();
    let mut out = String::new();
    let mut k: usize = len;
    while k < 16
        invariant
            len == hex_text(n as nat).len(),
            len <= k <= 16,
            out@ == Seq::new((k - len) as nat, |i: int| '0'),
        decreases 16 - k,
    {
        push_char(&mut out, '0');
        k = k + 1;
        assert(out@ =~= Seq::new((k - len) as nat, |i: int| '0'));
    }
    out.append(digits.as_str());
    proof {
        if len >= 16 {
            assert(out@ =~= hex_text(n as nat));
        } else {
            assert(out@ =~= hex_text_padded(n as nat, 16));
        }
    }
    out
}

/// Whether two texts are equal, character for character.
pub fn text_eq(a: &str, b: &str) -> (r: bool)
    ensures
        r == (a@ == b@),
{
    let n = a.unicode_len();
    if n != b.unicode_len() {
        return false;
    }
    let mut i: usize = 0;
    while i < n
        invariant
            n == a@.len(),
            n == b@.len(),
            i <= n,
            forall|j: int| 0 <= j < i ==> a@[j] == b@[j],
        decreases n - i,
    {
        if a.get_char(i) != b.get_char(i) {
            return false;
        }
        i = i + 1;
    }
    assert(a@ =~= b@);
    true
}

proof fn lemma_hex_char_injective(a: nat, b: nat)
    requires
        a < 16,
        b < 16,
        hex_char(a) == hex_char(b),
    ensures
        a == b,
{
}

/// Different numbers are written differently in hexadecimal.
pub proof fn lemma_hex_text_injective(a: nat, b: nat)
    requires
        hex_text(a) == hex_text(b),
    ensures
        a == b,
    decreases a + b,
{
    if a < 16 && b < 16 {
        assert(hex_text(a) == seq![hex_char(a)]);
        assert(hex_text(b) == seq![hex_char(b)]);
        assert(seq![hex_char(a)][0] == hex_char(a));
        assert(seq![hex_char(b)][0] == hex_char(b));
        lemma_hex_char_injective(a, b);
    } else if a < 16 {
        lemma_hex_text_shape(b / 16);
        assert(hex_text(b).len() >= 2);
    } else if b < 16 {
        lemma_hex_text_shape(a / 16);
        assert(hex_text(a).len() >= 2);
    } else {
        let pa = hex_text(a / 16);
        let pb = hex_text(b / 16);
        assert(hex_text(a).last() == hex_char(a % 16));
        assert(hex_text(b).last() == hex_char(b % 16));
        lemma_hex_char_injective(a % 16, b % 16);
        assert(hex_text(a).drop_last() =~= pa);
        assert(hex_text(b).drop_last() =~= pb);
        lemma_hex_text_injective(a / 16, b / 16);
    }
}

} // verus!
