//! Voice-recording controller: the verified core of a pipeline that sits
//! between a live audio input and an offline speech-to-text engine.
//!
//! The crate holds the decisions of that pipeline as plain functions on plain
//! values: the recording state machine, the spoken-command vocabulary and its
//! matcher, the bounded command queue, the auto-stop monitor's step function,
//! resampling and voice-activity windows over any sample type, and the
//! clean-up of final transcripts. Device capture, the engine itself and the
//! arithmetic on sample values live with the caller.

pub mod config;
pub mod text;
pub mod command;
pub mod error;
pub mod audio;
pub mod queue;
pub mod transcript;
pub mod monitor;
pub mod service;
pub mod mcp_server;
pub mod whisper;

pub use audio::{AudioCapture, AudioFileHandler, AudioProcessor};
pub use command::{CommandConfig, CommandType};
pub use config::{DebugConfig, VoiceCommandConfig};
pub use error::VoiceError;
pub use service::VoiceToTextService;
