use hello_edge_tts::markup::{create_break_ssml, create_emphasis_ssml, create_ssml};
use hello_edge_tts::{SSMLBuilder, SSMLTemplates, SSMLValidator};

fn doc(lang: &str, voice: &str, content: &str) -> String {
    format!(
        "<speak version=\"1.0\" xmlns=\"http://www.w3.org/2001/10/synthesis\" xml:lang=\"{}\">\n    <voice name=\"{}\">\n        {}\n    </voice>\n</speak>",
        lang, voice, content
    )
}

#[test]
fn test_ssml_builder_basic() {
    let ssml = SSMLBuilder::new("en-US-AriaNeural")
        .add_text("Hello, world!")
        .build();

    assert!(ssml.contains("<speak"));
    assert!(ssml.contains("en-US-AriaNeural"));
    assert!(ssml.contains("Hello, world!"));
}

#[test]
fn test_ssml_builder_prosody() {
    let ssml = SSMLBuilder::new("en-US-AriaNeural")
        .add_prosody("Hello", Some("slow"), Some("high"), Some("loud"))
        .build();

    assert!(ssml.contains("rate=\"slow\""));
    assert!(ssml.contains("pitch=\"high\""));
    assert!(ssml.contains("volume=\"loud\""));
}

#[test]
fn test_ssml_builder_emphasis() {
    let ssml = SSMLBuilder::new("en-US-AriaNeural")
        .add_emphasis("Important!", "strong")
        .build();

    assert!(ssml.contains("<emphasis level=\"strong\">Important!</emphasis>"));
}

#[test]
fn test_ssml_builder_break() {
    let ssml = SSMLBuilder::new("en-US-AriaNeural")
        .add_text("First part")
        .add_break("2s")
        .add_text("Second part")
        .build();

    assert!(ssml.contains("<break time=\"2s\"/>"));
}

#[test]
fn test_templates() {
    let result = SSMLTemplates::create_from_template("slow_speech", "Hello", "en-US-AriaNeural");
    assert!(result.is_ok());
    assert!(result.unwrap().contains("rate=\"slow\""));
}

#[test]
fn test_template_unknown() {
    let result = SSMLTemplates::create_from_template("unknown", "Hello", "en-US-AriaNeural");
    assert!(result.is_err());
}

#[test]
fn builder_renders_whole_document() {
    let ssml = SSMLBuilder::new("en-US-AriaNeural").add_text("Hello").build();
    assert_eq!(ssml, doc("en-US", "en-US-AriaNeural", "Hello"));
}

#[test]
fn builder_keeps_fragments_in_call_order() {
    let ssml = SSMLBuilder::new("fr-FR-DeniseNeural")
        .add_text("a")
        .add_prosody("b", None, Some("low"), None)
        .add_emphasis("c", "reduced")
        .add_break("300ms")
        .add_say_as("2024", "date", Some("y"))
        .add_phoneme("tomato", "ipa", "təˈmeɪtoʊ")
        .add_sub("W3C", "World Wide Web Consortium")
        .build();
    let content = "a<prosody pitch=\"low\">b</prosody><emphasis level=\"reduced\">c</emphasis><break time=\"300ms\"/><say-as interpret-as=\"date\" format=\"y\">2024</say-as><phoneme alphabet=\"ipa\" ph=\"təˈmeɪtoʊ\">tomato</phoneme><sub alias=\"World Wide Web Consortium\">W3C</sub>";
    assert_eq!(ssml, doc("fr-FR", "fr-FR-DeniseNeural", content));
    assert_eq!(ssml.matches("<voice name=\"fr-FR-DeniseNeural\">").count(), 1);
}

#[test]
fn builder_without_fragments() {
    let ssml = SSMLBuilder::new("en-GB-SoniaNeural").build();
    assert_eq!(ssml, doc("en-GB", "en-GB-SoniaNeural", ""));
}

#[test]
fn prosody_writes_only_given_attributes() {
    let none = SSMLBuilder::new("x").add_prosody("t", None, None, None).build();
    assert!(none.contains("<prosody>t</prosody>"));
    let rate_volume = SSMLBuilder::new("x").add_prosody("t", Some("fast"), None, Some("soft")).build();
    assert!(rate_volume.contains("<prosody rate=\"fast\" volume=\"soft\">t</prosody>"));
}

#[test]
fn say_as_without_format() {
    let ssml = SSMLBuilder::new("x").add_say_as("42", "cardinal", None).build();
    assert!(ssml.contains("<say-as interpret-as=\"cardinal\">42</say-as>"));
}

#[test]
fn language_derived_from_voice() {
    assert_eq!(SSMLBuilder::extract_language("en-US-AriaNeural"), "en-US");
    assert_eq!(SSMLBuilder::extract_language("x"), "en-US");
    assert_eq!(SSMLBuilder::extract_language("de-DE"), "de-DE");
    assert_eq!(SSMLBuilder::extract_language("zh-CN-liaoning-XiaobeiNeural"), "zh-CN");
    assert_eq!(SSMLBuilder::extract_language("-"), "-");
    assert!(SSMLBuilder::new("x").build().contains("xml:lang=\"en-US\""));
}

#[test]
fn explicit_language_is_kept() {
    let ssml = SSMLBuilder::with_language("myvoice", "ja-JP").add_text("hi").build();
    assert_eq!(ssml, doc("ja-JP", "myvoice", "hi"));
}

#[test]
fn pause_template_splits_on_first_period() {
    let d = SSMLTemplates::create_from_template("with_pauses", "A. B. C", "en-US-AriaNeural").unwrap();
    assert_eq!(d, doc("en-US", "en-US-AriaNeural", "A<break time=\"1s\"/> B. C"));
}

#[test]
fn pause_template_without_period_keeps_text() {
    let d = SSMLTemplates::create_from_template("with_pauses", "No pause here", "en-US-AriaNeural").unwrap();
    assert_eq!(d, doc("en-US", "en-US-AriaNeural", "No pause here"));
}

#[test]
fn every_template_recipe() {
    let v = "en-US-AriaNeural";
    let cases = [
        ("slow_speech", "<prosody rate=\"slow\">t</prosody>"),
        ("fast_speech", "<prosody rate=\"fast\">t</prosody>"),
        ("whisper", "<prosody rate=\"slow\" volume=\"x-soft\">t</prosody>"),
        ("excited", "<prosody rate=\"fast\" pitch=\"high\" volume=\"loud\">t</prosody>"),
        ("calm", "<prosody rate=\"slow\" pitch=\"low\" volume=\"soft\">t</prosody>"),
        ("emphasis_strong", "<emphasis level=\"strong\">t</emphasis>"),
    ];
    for (name, content) in cases {
        let d = SSMLTemplates::create_from_template(name, "t", v).unwrap();
        assert_eq!(d, doc("en-US", v, content));
        assert!(SSMLValidator::validate(&d).is_empty());
    }
}

#[test]
fn unknown_template_lists_names() {
    let e = SSMLTemplates::create_from_template("robot", "Hello", "x").unwrap_err();
    assert_eq!(
        e,
        "Unknown template 'robot'. Available: slow_speech, fast_speech, whisper, excited, calm, emphasis_strong, with_pauses"
    );
}

#[test]
fn templates_listed_in_order() {
    assert_eq!(
        SSMLTemplates::get_available_templates(),
        vec!["slow_speech", "fast_speech", "whisper", "excited", "calm", "emphasis_strong", "with_pauses"]
    );
}

#[test]
fn convenience_documents() {
    let v = "en-US-AriaNeural";
    assert_eq!(
        create_ssml("t", v, Some("x-slow"), None, None),
        doc("en-US", v, "<prosody rate=\"x-slow\">t</prosody>")
    );
    assert_eq!(
        create_emphasis_ssml("t", v, "moderate"),
        doc("en-US", v, "<emphasis level=\"moderate\">t</emphasis>")
    );
    assert_eq!(
        create_break_ssml(&["one", "two", "three"], v, "500ms"),
        doc("en-US", v, "one<break time=\"500ms\"/>two<break time=\"500ms\"/>three")
    );
    assert_eq!(create_break_ssml(&["solo"], v, "1s"), doc("en-US", v, "solo"));
    assert_eq!(create_break_ssml(&[], v, "1s"), doc("en-US", v, ""));
}
