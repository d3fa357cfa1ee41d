use specs_v::observability::millis_from_offset;
use specs_v::observability::{args_hash, format_correlation_id, new_correlation_id, SequenceCounter};
use std::hash::{Hash, Hasher};

#[test]
fn correlation_id_joins_hex_time_and_sequence() {
    assert_eq!(format_correlation_id(0x18f, 1), "18f-1");
    assert_eq!(format_correlation_id(0, 0), "0-0");
    assert_eq!(format_correlation_id(1_700_000_000_000, 255), format!("{:x}-{:x}", 1_700_000_000_000u64, 255u64));
    assert_eq!(format_correlation_id(u64::MAX, 16), "ffffffffffffffff-10");
}

#[test]
fn sequence_counter_starts_at_one_and_counts_up() {
    let mut c = SequenceCounter::new();
    assert_eq!(c.next(), 1);
    assert_eq!(c.next(), 2);
    assert_eq!(c.next(), 3);
}

#[test]
fn new_correlation_ids_differ_and_carry_the_sequence() {
    let mut c = SequenceCounter::new();
    let a = new_correlation_id(&mut c);
    let b = new_correlation_id(&mut c);
    assert_ne!(a, b);
    assert!(a.ends_with("-1"));
    assert!(b.ends_with("-2"));
    let (ms, seq) = a.split_once('-').unwrap();
    assert!(u64::from_str_radix(ms, 16).unwrap() > 1_600_000_000_000);
    assert_eq!(seq, "1");
}

#[test]
fn args_hash_is_the_default_hash_of_the_encoding() {
    let bytes = serde_json::to_vec(&serde_json::from_str::<serde_json::Value>("{\"project_id\":12}").unwrap()).unwrap();
    let mut h = std::collections::hash_map::DefaultHasher::new();
    bytes.hash(&mut h);
    let expected = format!("{:016x}", h.finish());
    let got = args_hash(&Ok(bytes.clone()));
    assert_eq!(got, expected);
    assert_eq!(got.len(), 16);
    assert!(got.chars().all(|c| c.is_ascii_hexdigit() && !c.is_ascii_uppercase()));
    assert_eq!(args_hash(&Ok(bytes)), got);
}

#[test]
fn args_hash_differs_for_different_arguments() {
    let a = args_hash(&serde_json::to_vec(&serde_json::from_str::<serde_json::Value>("{\"project_id\":1}").unwrap()));
    let b = args_hash(&serde_json::to_vec(&serde_json::from_str::<serde_json::Value>("{\"project_id\":2}").unwrap()));
    assert_ne!(a, b);
}

#[test]
fn args_hash_of_failed_encoding_is_unavailable() {
    let err = serde_json::from_str::<serde_json::Value>("{").unwrap_err();
    assert_eq!(args_hash(&Err(err)), "unavailable");
}

#[test]
fn millis_from_offset_truncates_and_defaults_to_zero() {
    assert_eq!(millis_from_offset(None), 0);
    assert_eq!(millis_from_offset(Some(1_700_000_000_123)), 1_700_000_000_123);
    assert_eq!(millis_from_offset(Some((1u128 << 64) + 5)), 5);
}

#[test]
fn sequence_counter_hands_out_increasing_numbers() {
    let mut c = SequenceCounter::new();
    let mut last = 0;
    for _ in 0..5 {
        let n = c.next();
        assert!(n > last);
        last = n;
    }
    assert_eq!(last, 5);
}
