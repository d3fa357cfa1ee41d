use specs_v::text::{hex_padded_16, is_blank, push_hex, text_eq};

#[test]
fn blank_texts_are_recognised() {
    assert!(is_blank(""));
    assert!(is_blank("   "));
    assert!(is_blank("\t\n\r\u{0b}\u{0c}"));
    assert!(is_blank("\u{00a0}\u{3000}\u{2028}\u{205f}"));
    assert!(!is_blank(" a "));
    assert!(!is_blank("\u{200b}"));
    assert!(!is_blank("x"));
}

#[test]
fn blank_agrees_with_std_trim_for_every_char_up_to_0x3100() {
    for u in 0u32..0x3100 {
        if let Some(c) = char::from_u32(u) {
            let s = c.to_string();
            assert_eq!(is_blank(&s), s.trim().is_empty(), "code point {:x}", u);
        }
    }
}

#[test]
fn hex_padded_16_matches_format() {
    assert_eq!(hex_padded_16(0), "0000000000000000");
    assert_eq!(hex_padded_16(255), "00000000000000ff");
    assert_eq!(hex_padded_16(u64::MAX), "ffffffffffffffff");
    for n in [1u64, 15, 16, 4095, 0x1234_5678_9abc_def0, 1 << 60] {
        assert_eq!(hex_padded_16(n), format!("{:016x}", n));
    }
}

#[test]
fn push_hex_appends_unpadded_hex() {
    let mut s = String::from("x=");
    push_hex(&mut s, 0);
    assert_eq!(s, "x=0");
    let mut t = String::new();
    push_hex(&mut t, 0xdead_beef);
    assert_eq!(t, "deadbeef");
    let mut u = String::new();
    push_hex(&mut u, u64::MAX);
    assert_eq!(u, format!("{:x}", u64::MAX));
}

#[test]
fn text_eq_compares_characters() {
    assert!(text_eq("projects", "projects"));
    assert!(!text_eq("project", "projects"));
    assert!(!text_eq("Projects", "projects"));
    assert!(text_eq("", ""));
}
