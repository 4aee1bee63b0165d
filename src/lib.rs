pub mod backend;
pub mod client;
pub mod config;
pub mod markup;
pub mod runs;
pub mod text;
pub mod validator;
pub mod voice;

pub use backend::{EdgeTtsAction, EdgeTtsRun, OutputOutcome, ProcessOutcome};
pub use client::{TTSClient, VoiceListing};
pub use config::{TTSConfig, TTSError};
pub use markup::{create_break_ssml, create_emphasis_ssml, create_ssml, SSMLBuilder, SSMLTemplates};
pub use runs::{BatchMode, BatchSave, BatchSynthesis, FallbackSynthesis};
pub use validator::{validate_ssml, SSMLValidator};
pub use voice::Voice;
