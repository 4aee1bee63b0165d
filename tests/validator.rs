use hello_edge_tts::{validate_ssml, SSMLBuilder, SSMLValidator};

fn wrap(content: &str) -> String {
    SSMLBuilder::new("en-US-AriaNeural").add_text(content).build()
}

#[test]
fn test_ssml_validation_valid() {
    let ssml = SSMLBuilder::new("en-US-AriaNeural")
        .add_text("Hello")
        .build();

    let errors = SSMLValidator::validate(&ssml);
    assert!(errors.is_empty());
}

#[test]
fn test_ssml_validation_invalid() {
    let invalid_ssml = "<invalid>test</invalid>";
    let errors = SSMLValidator::validate(invalid_ssml);
    assert!(!errors.is_empty());
}

#[test]
fn root_checks_each_reported() {
    let errors = SSMLValidator::validate("<invalid>test</invalid>");
    assert_eq!(
        errors,
        vec![
            "SSML must start with <speak> element".to_string(),
            "Missing version=\"1.0\" attribute in <speak> element".to_string(),
            "Missing xmlns attribute in <speak> element".to_string(),
        ]
    );
}

#[test]
fn missing_namespace_is_reported() {
    let errors = SSMLValidator::validate("<speak version=\"1.0\"><voice name=\"v\">x</voice></speak>");
    assert_eq!(errors, vec!["Missing xmlns attribute in <speak> element".to_string()]);
}

#[test]
fn leading_white_space_before_root_is_allowed() {
    let ssml = format!(" \n\t{}", wrap("Hi"));
    assert!(SSMLValidator::validate(&ssml).is_empty());
    let nbsp = format!("\u{a0}{}", wrap("Hi"));
    assert!(SSMLValidator::validate(&nbsp).is_empty());
}

#[test]
fn empty_document() {
    assert_eq!(SSMLValidator::validate("").len(), 3);
}

#[test]
fn prosody_rate_values() {
    let slow = SSMLBuilder::new("v").add_prosody("t", Some("slow"), None, None).build();
    assert!(SSMLValidator::validate(&slow).is_empty());
    let percent = SSMLBuilder::new("v").add_prosody("t", Some("50%"), None, None).build();
    assert!(SSMLValidator::validate(&percent).is_empty());
    let hertz = SSMLBuilder::new("v").add_prosody("t", Some("120Hz"), None, None).build();
    assert!(SSMLValidator::validate(&hertz).is_empty());
    let bogus = SSMLBuilder::new("v").add_prosody("t", Some("bogus"), None, None).build();
    assert_eq!(SSMLValidator::validate(&bogus), vec!["Invalid prosody rate: bogus".to_string()]);
}

#[test]
fn prosody_pitch_and_volume_values() {
    let ok = SSMLBuilder::new("v")
        .add_prosody("t", None, Some("+2st"), Some("-6dB"))
        .add_prosody("u", None, Some("x-high"), Some("silent"))
        .build();
    assert!(SSMLValidator::validate(&ok).is_empty());
    let bad = SSMLBuilder::new("v")
        .add_prosody("t", Some("warp"), Some("shrill"), Some("deafening"))
        .build();
    assert_eq!(
        SSMLValidator::validate(&bad),
        vec![
            "Invalid prosody rate: warp".to_string(),
            "Invalid prosody pitch: shrill".to_string(),
            "Invalid prosody volume: deafening".to_string(),
        ]
    );
}

#[test]
fn emphasis_levels() {
    let ok = SSMLBuilder::new("v").add_emphasis("a", "moderate").build();
    assert!(SSMLValidator::validate(&ok).is_empty());
    let bad = SSMLBuilder::new("v").add_emphasis("a", "loud").add_emphasis("b", "none").build();
    assert_eq!(
        SSMLValidator::validate(&bad),
        vec!["Invalid emphasis level: loud".to_string(), "Invalid emphasis level: none".to_string()]
    );
}

#[test]
fn break_time_and_strength() {
    let ok = wrap("<break time=\"250ms\" strength=\"x-weak\"/>");
    assert!(SSMLValidator::validate(&ok).is_empty());
    let bad = wrap("<break time=\"5min\" strength=\"huge\"/>");
    assert_eq!(
        SSMLValidator::validate(&bad),
        vec![
            "Invalid break time format: 5min".to_string(),
            "Invalid break strength: huge".to_string(),
        ]
    );
    let built = SSMLBuilder::new("v").add_break("3").build();
    assert_eq!(SSMLValidator::validate(&built), vec!["Invalid break time format: 3".to_string()]);
}

#[test]
fn reports_come_in_check_order() {
    let ssml = wrap("<break time=\"x\"/><emphasis level=\"y\">e</emphasis><prosody rate=\"z\">p</prosody>");
    assert_eq!(
        SSMLValidator::validate(&ssml),
        vec![
            "Invalid prosody rate: z".to_string(),
            "Invalid emphasis level: y".to_string(),
            "Invalid break time format: x".to_string(),
        ]
    );
}

#[test]
fn unknown_elements_and_attributes_pass() {
    let ssml = wrap("<audio src=\"a.wav\"/><prosody contour=\"(0%,+20Hz)\">x</prosody>");
    assert!(SSMLValidator::validate(&ssml).is_empty());
}

#[test]
fn attribute_block_spans_to_first_close() {
    // The white space run is the whole block here, so the block is its last character.
    let ssml = wrap("<prosody  >x</prosody>");
    assert!(SSMLValidator::validate(&ssml).is_empty());
    // An empty value does not count; the first non-empty one does.
    let ssml = wrap("<prosody rate=\"\" rate=\"odd\">x</prosody>");
    assert_eq!(SSMLValidator::validate(&ssml), vec!["Invalid prosody rate: odd".to_string()]);
    // Without white space after the name there is no prosody element.
    let ssml = wrap("<prosodyrate=\"odd\">x</prosodyrate>");
    assert!(SSMLValidator::validate(&ssml).is_empty());
}

#[test]
fn break_needs_self_closing_form() {
    let ssml = wrap("<break time=\"bad\">");
    assert!(SSMLValidator::validate(&ssml).is_empty());
}

#[test]
fn strict_validation_joins_violations() {
    let bad = "<x>";
    let r = validate_ssml(bad, true);
    assert_eq!(
        r,
        Err("SSML validation failed: SSML must start with <speak> element; Missing version=\"1.0\" attribute in <speak> element; Missing xmlns attribute in <speak> element".to_string())
    );
    let lenient = validate_ssml(bad, false).unwrap();
    assert_eq!(lenient.len(), 3);
    let good = wrap("fine");
    assert_eq!(validate_ssml(&good, true), Ok(vec![]));
}
