use specs_v::tag::SpecTag;

#[test]
fn as_str_gives_canonical_names() {
    assert_eq!(SpecTag::Architecture.as_str(), "architecture");
    assert_eq!(SpecTag::Business.as_str(), "business");
    assert_eq!(SpecTag::Qa.as_str(), "qa");
    assert_eq!(SpecTag::Security.as_str(), "security");
}

#[test]
fn from_str_reads_each_name() {
    assert_eq!(SpecTag::from_str("architecture"), Ok(SpecTag::Architecture));
    assert_eq!(SpecTag::from_str("business"), Ok(SpecTag::Business));
    assert_eq!(SpecTag::from_str("qa"), Ok(SpecTag::Qa));
    assert_eq!(SpecTag::from_str("security"), Ok(SpecTag::Security));
}

#[test]
fn from_str_ignores_ascii_case() {
    assert_eq!(SpecTag::from_str("ArChItEcTuRe"), Ok(SpecTag::Architecture));
    assert_eq!(SpecTag::from_str("BUSINESS"), Ok(SpecTag::Business));
    assert_eq!(SpecTag::from_str("Qa"), Ok(SpecTag::Qa));
    assert_eq!(SpecTag::from_str("sEcUrItY"), Ok(SpecTag::Security));
}

#[test]
fn from_str_refuses_other_text_with_message() {
    assert_eq!(SpecTag::from_str("qaa"), Err("invalid spec tag: qaa".to_string()));
    assert_eq!(SpecTag::from_str(""), Err("invalid spec tag: ".to_string()));
    assert_eq!(SpecTag::from_str(" qa"), Err("invalid spec tag:  qa".to_string()));
    assert_eq!(SpecTag::from_str("design"), Err("invalid spec tag: design".to_string()));
}

#[test]
fn from_str_does_not_fold_non_ascii_letters() {
    // U+0130 and the Kelvin sign lower-case to ASCII letters under Unicode rules, not ASCII.
    assert!(SpecTag::from_str("\u{0130}").is_err());
    assert!(SpecTag::from_str("qA\u{212A}").is_err());
    assert!(SpecTag::from_str("ｑａ").is_err());
}

#[test]
fn every_tag_name_reads_back_as_the_tag() {
    for tag in [SpecTag::Architecture, SpecTag::Business, SpecTag::Qa, SpecTag::Security] {
        assert_eq!(SpecTag::from_str(tag.as_str()), Ok(tag));
        assert_eq!(SpecTag::from_str(&tag.as_str().to_uppercase()), Ok(tag));
    }
}

#[test]
fn tag_parses_through_from_str_trait() {
    let tag: SpecTag = "Security".parse().unwrap();
    assert_eq!(tag, SpecTag::Security);
    assert!("nope".parse::<SpecTag>().is_err());
}
