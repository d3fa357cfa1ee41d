use specs_v::content::{content_from_json_text, content_to_json_text, SpecContentTemplate};

fn sample() -> SpecContentTemplate {
    SpecContentTemplate {
        summary: "Threat model baseline".to_string(),
        goals: vec!["Identify top risks".to_string()],
        requirements: vec!["List mitigations".to_string()],
        acceptance_criteria: vec!["Top 5 threats documented".to_string()],
        notes: Some("Initial draft".to_string()),
    }
}

fn same(a: &SpecContentTemplate, b: &SpecContentTemplate) -> bool {
    a.summary == b.summary
        && a.goals == b.goals
        && a.requirements == b.requirements
        && a.acceptance_criteria == b.acceptance_criteria
        && a.notes == b.notes
}

#[test]
fn content_is_stored_as_compact_json_object_in_field_order() {
    let text = content_to_json_text(&sample()).unwrap();
    assert_eq!(
        text,
        "{\"summary\":\"Threat model baseline\",\"goals\":[\"Identify top risks\"],\"requirements\":[\"List mitigations\"],\"acceptance_criteria\":[\"Top 5 threats documented\"],\"notes\":\"Initial draft\"}"
    );
}

#[test]
fn absent_notes_are_stored_as_null() {
    let mut c = sample();
    c.notes = None;
    c.goals = vec![];
    let text = content_to_json_text(&c).unwrap();
    let v: serde_json::Value = serde_json::from_str(&text).unwrap();
    assert!(v["notes"].is_null());
    assert_eq!(v["goals"], serde_json::Value::Array(vec![]));
}

#[test]
fn stored_content_reads_back_unchanged() {
    let mut c = sample();
    c.summary = "quote \" backslash \\ newline \n tab \t unicode é 漢字 \u{1F600}".to_string();
    c.goals = vec!["".to_string(), "\u{0}".to_string(), "two".to_string()];
    c.notes = None;
    let text = content_to_json_text(&c).unwrap();
    let back = content_from_json_text(&text).unwrap();
    assert!(same(&c, &back));
    let text2 = content_to_json_text(&sample()).unwrap();
    assert!(same(&sample(), &content_from_json_text(&text2).unwrap()));
}

#[test]
fn content_reads_documented_example() {
    let text = r#"{
        "summary": "Service boundaries and data flow",
        "goals": ["Define ownership"],
        "requirements": ["Document API boundaries"],
        "acceptance_criteria": ["Boundary diagram approved"],
        "notes": null
    }"#;
    let c = content_from_json_text(text).unwrap();
    assert_eq!(c.summary, "Service boundaries and data flow");
    assert_eq!(c.goals, vec!["Define ownership".to_string()]);
    assert_eq!(c.requirements, vec!["Document API boundaries".to_string()]);
    assert_eq!(c.acceptance_criteria, vec!["Boundary diagram approved".to_string()]);
    assert_eq!(c.notes, None);
}

#[test]
fn missing_notes_read_as_none_and_extra_keys_are_ignored() {
    let text = r#"{"summary":"s","goals":[],"requirements":["r"],"acceptance_criteria":[],"extra":42}"#;
    let c = content_from_json_text(text).unwrap();
    assert_eq!(c.summary, "s");
    assert_eq!(c.notes, None);
    assert_eq!(c.requirements, vec!["r".to_string()]);
}

#[test]
fn malformed_content_is_refused() {
    assert!(content_from_json_text("not json").is_err());
    assert!(content_from_json_text("[1,2]").is_err());
    assert!(content_from_json_text("\"text\"").is_err());
    assert!(content_from_json_text(r#"{"goals":[],"requirements":[],"acceptance_criteria":[]}"#).is_err());
    assert!(content_from_json_text(r#"{"summary":1,"goals":[],"requirements":[],"acceptance_criteria":[]}"#).is_err());
    assert!(content_from_json_text(r#"{"summary":"s","goals":[1],"requirements":[],"acceptance_criteria":[]}"#).is_err());
    assert!(content_from_json_text(r#"{"summary":"s","goals":[],"requirements":{},"acceptance_criteria":[]}"#).is_err());
    assert!(content_from_json_text(r#"{"summary":"s","goals":[],"requirements":[]}"#).is_err());
    assert!(content_from_json_text(r#"{"summary":"s","goals":[],"requirements":[],"acceptance_criteria":[],"notes":3}"#).is_err());
}

#[test]
fn array_form_with_the_five_fields_in_order_is_read() {
    let c = content_from_json_text("[\"s\",[\"g1\",\"g2\"],[\"r\"],[],\"n\"]").unwrap();
    assert_eq!(c.summary, "s");
    assert_eq!(c.goals, vec!["g1".to_string(), "g2".to_string()]);
    assert_eq!(c.requirements, vec!["r".to_string()]);
    assert!(c.acceptance_criteria.is_empty());
    assert_eq!(c.notes.as_deref(), Some("n"));
}

#[test]
fn array_form_needs_exactly_five_well_typed_elements() {
    assert!(content_from_json_text("[\"s\",[],[],[]]").is_err());
    assert!(content_from_json_text("[\"s\",[],[],[],null,1]").is_err());
    assert!(content_from_json_text("[1,[],[],[],null]").is_err());
    assert!(content_from_json_text("[\"s\",[1],[],[],null]").is_err());
    assert!(content_from_json_text("[\"s\",[],[],[],2]").is_err());
    assert!(content_from_json_text("[\"s\",[],[],[],null]").unwrap().notes.is_none());
}

#[test]
fn a_template_field_given_twice_is_refused() {
    let twice = "{\"summary\":\"a\",\"summary\":\"b\",\"goals\":[],\"requirements\":[],\"acceptance_criteria\":[]}";
    assert!(content_from_json_text(twice).is_err());
    let escaped = "{ \"summary\" : \"a\" , \"summ\\u0061ry\":\"b\",\"goals\":[],\"requirements\":[],\"acceptance_criteria\":[]}";
    assert!(content_from_json_text(escaped).is_err());
    let notes_twice = "{\"summary\":\"a\",\"goals\":[],\"requirements\":[],\"acceptance_criteria\":[],\"notes\":null,\"notes\":\"n\"}";
    assert!(content_from_json_text(notes_twice).is_err());
}

#[test]
fn other_keys_may_repeat() {
    let text = "{\"x\":1,\"summary\":\"a\",\"x\":{\"y\":1,\"y\":2},\"goals\":[\"g\"],\"requirements\":[],\"acceptance_criteria\":[]}";
    let c = content_from_json_text(text).unwrap();
    assert_eq!(c.summary, "a");
    assert_eq!(c.goals, vec!["g".to_string()]);
}

#[test]
fn other_members_are_skipped_unread() {
    let fields = "\"summary\":\"a\",\"goals\":[],\"requirements\":[],\"acceptance_criteria\":[]";
    let huge = format!("{{\"x\":1e400,{}}}", fields);
    assert_eq!(content_from_json_text(&huge).unwrap().summary, "a");
    let surrogate = format!("{{{},\"x\":\"\\ud800\"}}", fields);
    assert_eq!(content_from_json_text(&surrogate).unwrap().summary, "a");
    let deep = format!("{{\"x\":{}{},{}}}", "[".repeat(300), "]".repeat(300), fields);
    assert_eq!(content_from_json_text(&deep).unwrap().summary, "a");
}

#[test]
fn object_text_must_end_after_the_object() {
    let fields = "\"summary\":\"a\",\"goals\":[],\"requirements\":[],\"acceptance_criteria\":[]";
    assert!(content_from_json_text(&format!(" {{ {} }} \n", fields)).is_ok());
    assert!(content_from_json_text(&format!("{{{}}} x", fields)).is_err());
    assert!(content_from_json_text(&format!("{{{},}}", fields)).is_err());
    assert!(content_from_json_text("{}").is_err());
    assert!(content_from_json_text("\"s\"").is_err());
}
