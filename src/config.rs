use vstd::prelude::*;

verus! {

/// What can go wrong when driving the speech service.
#[derive(Debug)]
pub enum TTSError {
    /// The transport to a service failed; holds its description.
    Network(String),
    /// Reading or writing a file failed; holds its description.
    Io(String),
    /// A response or file did not have the expected shape; holds the parser's description.
    Json(String),
    Synthesis(String),
    VoiceNotFound(String),
    Config(String),
}

/// The human-readable text of an error.
pub open spec fn error_text(e: TTSError) -> Seq<char> {
    match e {
        TTSError::Network(d) => "Network error: "@ + d@,
        TTSError::Io(d) => "IO error: "@ + d@,
        TTSError::Json(d) => "JSON parsing error: "@ + d@,
        TTSError::Synthesis(d) => "TTS synthesis failed: "@ + d@,
        TTSError::VoiceNotFound(d) => "Voice not found: "@ + d@,
        TTSError::Config(d) => "Invalid configuration: "@ + d@,
    }
}

/// `e` is a synthesis failure whose detail is `detail`.
pub open spec fn is_synthesis_failure(e: TTSError, detail: Seq<char>) -> bool {
    e matches TTSError::Synthesis(d) && d@ == detail
}

/// `e` is a configuration failure whose detail is `detail`.
pub open spec fn is_config_failure(e: TTSError, detail: Seq<char>) -> bool {
    e matches TTSError::Config(d) && d@ == detail
}

impl TTSError {
    /// The human-readable text of this error.
    pub fn message(&self) -> (r: String)
        ensures
            r@ == error_text(*self),
    {
        let (mut r, d) = match self {
            TTSError::Network(d) => (String::from_str("Network error: "), d),
            TTSError::Io(d) => (String::from_str("IO error: "), d),
            TTSError::Json(d) => (String::from_str("JSON parsing error: "), d),
            TTSError::Synthesis(d) => (String::from_str("TTS synthesis failed: "), d),
            TTSError::VoiceNotFound(d) => (String::from_str("Voice not found: "), d),
            TTSError::Config(d) => (String::from_str("Invalid configuration: "), d),
        };
        r.append(d.as_str());
        r
    }
}

/// Settings of a client.
#[derive(Debug)]
pub struct TTSConfig {
    pub default_voice: String,
    pub output_format: String,
    pub output_directory: String,
    pub auto_play: bool,
    pub cache_voices: bool,
    pub max_retries: u32,
    /// How long a request to the service may take, in milliseconds.
    pub timeout_ms: u64,
    pub rate: String,
    pub pitch: String,
    pub volume: String,
    pub ssml: bool,
    pub batch_size: usize,
    pub max_concurrent: usize,
}

/// `c` holds the default settings.
pub open spec fn is_default_config(c: TTSConfig) -> bool {
    &&& c.default_voice@ == "en-US-AriaNeural"@
    &&& c.output_format@ == "mp3"@
    &&& c.output_directory@ == "./output"@
    &&& c.auto_play
    &&& c.cache_voices
    &&& c.max_retries == 3
    &&& c.timeout_ms == 30000
    &&& c.rate@ == "0%"@
    &&& c.pitch@ == "0%"@
    &&& c.volume@ == "100%"@
    &&& !c.ssml
    &&& c.batch_size == 5
    &&& c.max_concurrent == 3
}

/// The first problem with the settings `c`, if any.
pub open spec fn config_problem(c: TTSConfig) -> Option<Seq<char>> {
    if c.default_voice@.len() == 0 {
        Some("default_voice cannot be empty"@)
    } else if c.batch_size == 0 {
        Some("batch_size must be positive"@)
    } else if c.max_concurrent == 0 {
        Some("max_concurrent must be positive"@)
    } else {
        None
    }
}

impl Default for TTSConfig {
    fn default() -> (r: Self)
        ensures
            is_default_config(r),
    {
        TTSConfig {
            default_voice: String::from_str("en-US-AriaNeural"),
            output_format: String::from_str("mp3"),
            output_directory: String::from_str("./output"),
            auto_play: true,
            cache_voices: true,
            max_retries: 3,
            timeout_ms: 30000,
            rate: String::from_str("0%"),
            pitch: String::from_str("0%"),
            volume: String::from_str("100%"),
            ssml: false,
            batch_size: 5,
            max_concurrent: 3,
        }
    }
}

impl TTSConfig {
    /// Succeeds when the settings are usable; otherwise names the first problem.
    pub fn validate(&self) -> (r: Result<(), TTSError>)
        ensures
            match r {
                Ok(()) => config_problem(*self) is None,
                Err(e) => config_problem(*self) matches Some(p) && is_config_failure(e, p),
            },
    {
        if self.default_voice.as_str().unicode_len() == 0 {
            return Err(TTSError::Config(String::from_str("default_voice cannot be empty")));
        }
        if self.batch_size == 0 {
            return Err(TTSError::Config(String::from_str("batch_size must be positive")));
        }
        if self.max_concurrent == 0 {
            return Err(TTSError::Config(String::from_str("max_concurrent must be positive")));
        }
        Ok(())
    }
}

} // verus!
