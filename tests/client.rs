use hello_edge_tts::config::TTSError;
use hello_edge_tts::{TTSClient, TTSConfig, Voice, VoiceListing};

fn voice(name: &str, locale: &str) -> Voice {
    Voice::new(name.to_string(), name.to_string(), locale.to_string(), "Female".to_string())
}

#[test]
fn test_voice_creation() {
    let voice = Voice::new(
        "en-US-AriaNeural".to_string(),
        "Aria".to_string(),
        "en-US".to_string(),
        "Female".to_string(),
    );

    assert_eq!(voice.name, "en-US-AriaNeural");
    assert_eq!(voice.display_name, "Aria");
    assert_eq!(voice.locale, "en-US");
    assert_eq!(voice.gender, "Female");
    assert_eq!(voice.language_code(), "en");
}

#[test]
fn test_voice_matches_language() {
    let voice = Voice::new(
        "en-US-AriaNeural".to_string(),
        "Aria".to_string(),
        "en-US".to_string(),
        "Female".to_string(),
    );

    assert!(voice.matches_language("en"));
    assert!(voice.matches_language("en-US"));
    assert!(!voice.matches_language("fr"));
}

#[test]
fn test_tts_config_default() {
    let config = TTSConfig::default();
    assert_eq!(config.default_voice, "en-US-AriaNeural");
    assert_eq!(config.output_format, "mp3");
    assert_eq!(config.max_retries, 3);
}

#[test]
fn language_matching_is_case_sensitive() {
    let v = voice("en-US-AriaNeural", "en-US");
    assert!(!v.matches_language("EN"));
    assert!(!v.matches_language("en-us"));
    assert!(!v.matches_language("e"));
    let bare = voice("x", "sw");
    assert_eq!(bare.language_code(), "sw");
    assert!(bare.matches_language("sw"));
}

#[test]
fn default_settings() {
    let c = TTSConfig::default();
    assert_eq!(c.output_directory, "./output");
    assert!(c.auto_play);
    assert!(c.cache_voices);
    assert_eq!(c.timeout_ms, 30000);
    assert_eq!(c.rate, "0%");
    assert_eq!(c.pitch, "0%");
    assert_eq!(c.volume, "100%");
    assert!(!c.ssml);
    assert_eq!(c.batch_size, 5);
    assert_eq!(c.max_concurrent, 3);
    assert!(c.validate().is_ok());
}

#[test]
fn invalid_settings_are_named() {
    let mut c = TTSConfig::default();
    c.max_concurrent = 0;
    assert_eq!(c.validate().unwrap_err().message(), "Invalid configuration: max_concurrent must be positive");
    c.batch_size = 0;
    assert_eq!(c.validate().unwrap_err().message(), "Invalid configuration: batch_size must be positive");
    c.default_voice = String::new();
    match c.validate() {
        Err(TTSError::Config(m)) => assert_eq!(m, "default_voice cannot be empty"),
        other => panic!("unexpected {:?}", other),
    }
}

#[test]
fn error_messages() {
    let cases = [
        (TTSError::Network("down".to_string()), "Network error: down"),
        (TTSError::Io("denied".to_string()), "IO error: denied"),
        (TTSError::Json("eof".to_string()), "JSON parsing error: eof"),
        (TTSError::Synthesis("boom".to_string()), "TTS synthesis failed: boom"),
        (TTSError::VoiceNotFound("zz".to_string()), "Voice not found: zz"),
        (TTSError::Config("bad".to_string()), "Invalid configuration: bad"),
    ];
    for (e, text) in cases {
        assert_eq!(e.message(), text);
    }
}

#[test]
fn client_uses_given_or_default_settings() {
    let c = TTSClient::new(None);
    assert_eq!(c.config().default_voice, "en-US-AriaNeural");
    let mut custom = TTSConfig::default();
    custom.default_voice = "de-DE-KatjaNeural".to_string();
    let c = TTSClient::new(Some(custom));
    assert_eq!(c.config().default_voice, "de-DE-KatjaNeural");
}

/// Runs a listing the way a caller does, counting the requests to the service.
fn listing(client: &mut TTSClient, force: bool, service: &[Voice], asked: &mut usize) -> Vec<Voice> {
    match client.list_voices(force) {
        VoiceListing::Cached(v) => v,
        VoiceListing::Fetch => {
            *asked += 1;
            client.finish_list_voices(Ok(service.to_vec())).unwrap()
        }
    }
}

#[test]
fn cache_answers_second_listing() {
    let service = vec![voice("en-US-AriaNeural", "en-US"), voice("fr-FR-DeniseNeural", "fr-FR")];
    let mut client = TTSClient::new(None);
    let mut asked = 0;
    let first = listing(&mut client, false, &service, &mut asked);
    let second = listing(&mut client, false, &service, &mut asked);
    assert_eq!(asked, 1);
    assert_eq!(first.len(), 2);
    assert_eq!(second.len(), 2);
    assert_eq!(second[1].name, "fr-FR-DeniseNeural");
    client.clear_voice_cache();
    listing(&mut client, false, &service, &mut asked);
    assert_eq!(asked, 2);
    listing(&mut client, true, &service, &mut asked);
    assert_eq!(asked, 3);
}

#[test]
fn without_caching_every_listing_asks() {
    let service = vec![voice("en-US-AriaNeural", "en-US")];
    let mut config = TTSConfig::default();
    config.cache_voices = false;
    let mut client = TTSClient::new(Some(config));
    let mut asked = 0;
    listing(&mut client, false, &service, &mut asked);
    listing(&mut client, false, &service, &mut asked);
    assert_eq!(asked, 2);
}

#[test]
fn failed_listing_is_returned_and_not_cached() {
    let mut client = TTSClient::new(None);
    let r = client.finish_list_voices(Err(TTSError::Network("timeout".to_string())));
    match r {
        Err(TTSError::Network(m)) => assert_eq!(m, "timeout"),
        other => panic!("unexpected {:?}", other.map(|v| v.len())),
    }
    assert!(matches!(client.list_voices(false), VoiceListing::Fetch));
}

#[test]
fn voices_filtered_by_language() {
    let all = vec![
        voice("en-US-AriaNeural", "en-US"),
        voice("fr-FR-DeniseNeural", "fr-FR"),
        voice("en-GB-SoniaNeural", "en-GB"),
        voice("fr-CA-SylvieNeural", "fr-CA"),
    ];
    let en = TTSClient::get_voices_by_language(&all, "en");
    let names: Vec<&str> = en.iter().map(|v| v.name.as_str()).collect();
    assert_eq!(names, vec!["en-US-AriaNeural", "en-GB-SoniaNeural"]);
    let fr_ca = TTSClient::get_voices_by_language(&all, "fr-CA");
    assert_eq!(fr_ca.len(), 1);
    assert_eq!(fr_ca[0].name, "fr-CA-SylvieNeural");
    assert!(TTSClient::get_voices_by_language(&all, "EN").is_empty());
    assert!(TTSClient::get_voices_by_language(&[].to_vec(), "en").is_empty());
}

#[test]
fn markup_mode_validates_before_synthesis() {
    let client = TTSClient::new(None);
    assert!(client.prepare_synthesis("<x>", false).is_ok());
    match client.prepare_synthesis("<x>", true) {
        Err(TTSError::Synthesis(m)) => assert!(m.starts_with("SSML validation failed: SSML must start with <speak> element; ")),
        other => panic!("unexpected {:?}", other),
    }
    let good = client.get_ssml_builder("en-US-AriaNeural").add_text("ok").build();
    assert!(client.prepare_synthesis(&good, true).is_ok());
    assert!(client.validate_ssml(&good).is_ok());
}

#[test]
fn client_document_helpers() {
    let client = TTSClient::new(None);
    let v = "en-US-AriaNeural";
    assert!(client
        .create_prosody_ssml("t", v, None, None, Some("loud"))
        .contains("<prosody volume=\"loud\">t</prosody>"));
    assert!(client
        .create_emphasis_ssml("t", v, "strong")
        .contains("<emphasis level=\"strong\">t</emphasis>"));
    assert!(client
        .create_break_ssml(&["a", "b"], v, "1s")
        .contains("a<break time=\"1s\"/>b"));
}

#[test]
fn test_tts_client_creation() {
    let client = TTSClient::new(None);
    assert_eq!(client.config().default_voice, "en-US-AriaNeural");
}
