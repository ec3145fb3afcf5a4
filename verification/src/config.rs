//! Fixed parameters of the pipeline and the configuration records.

use vstd::prelude::*;
use std::path::PathBuf;
use crate::command::CommandConfig;

verus! {

/// Rate, in samples per second, at which the input device delivers audio.
pub const DEFAULT_SAMPLE_RATE: u32 = 44100;

/// Rate, in samples per second, that the transcription engine expects.
pub const WHISPER_SAMPLE_RATE: u32 = 16000;

/// Shortest audio, in milliseconds, that is handed to the engine for a final
/// transcription.
pub const MIN_AUDIO_DURATION_MS: u64 = 500;

/// Smallest peak amplitude, in millionths of full scale, that is handed to the
/// engine for a final transcription.
pub const MIN_AUDIO_AMPLITUDE_MICROS: u64 = 1000;

/// Poll interval of the auto-stop monitor, in milliseconds.
pub const CHECK_INTERVAL_MS: u64 = 100;

/// Length, in milliseconds, of the trailing window that voice-activity
/// detection looks at.
pub const RECENT_SAMPLES_DURATION_MS: u64 = 100;

/// Default overall limit of an auto-stopped session, in milliseconds.
pub const DEFAULT_TIMEOUT_MS: u64 = 30000;

/// Default silence limit of an auto-stopped session, in milliseconds.
pub const DEFAULT_SILENCE_TIMEOUT_MS: u64 = 2000;

/// Number of whole samples that `duration_ms` milliseconds hold at
/// `sample_rate` samples per second.
pub open spec fn spec_samples_for_duration_ms(sample_rate: u32, duration_ms: u64) -> int {
    (sample_rate as int * duration_ms as int) / 1000
}

/// Number of whole samples in `duration_ms` milliseconds of audio at
/// `sample_rate`, rounded down.
pub fn samples_for_duration_ms(sample_rate: u32, duration_ms: u64) -> (n: usize)
    requires
        spec_samples_for_duration_ms(sample_rate, duration_ms) <= usize::MAX,
    ensures
        n as int == spec_samples_for_duration_ms(sample_rate, duration_ms),
{
    let wide: u128 = (sample_rate as u128) * (duration_ms as u128) / 1000;
    wide as usize
}

/// `std::path::PathBuf`, carried through as an opaque value.
#[verifier::external_type_specification]
#[verifier::external_body]
pub struct ExPathBuf(std::path::PathBuf);

/// The path that `PathBuf::from` makes of a text.
pub uninterp spec fn path_of(text: Seq<char>) -> PathBuf;

/// `PathBuf::clone` is taken as given: the copy is the same path.
pub assume_specification[ <PathBuf as Clone>::clone ](p: &PathBuf) -> (r: PathBuf)
    ensures
        r == *p,
;

/// `PathBuf::from` on a string slice: the result depends on the text alone.
#[verifier::external_body]
pub(crate) fn path_from_text(text: &str) -> (p: PathBuf)
    ensures
        p == path_of(text@),
{
    PathBuf::from(text)
}

/// The path that `Path::join` makes of a directory and a name.
pub uninterp spec fn joined_path(dir: PathBuf, name: Seq<char>) -> PathBuf;

/// `Path::join` with a string slice: the result depends on the directory and
/// the name alone.
#[verifier::external_body]
pub(crate) fn path_join(dir: &PathBuf, name: &str) -> (p: PathBuf)
    ensures
        p == joined_path(*dir, name@),
{
    dir.join(name)
}

/// Where and whether audio is dumped for troubleshooting.
#[derive(Clone, Debug)]
pub struct DebugConfig {
    pub enabled: bool,
    pub output_dir: PathBuf,
    pub save_raw: bool,
    pub save_processed: bool,
}

impl DebugConfig {
    /// Whether the configuration is the default one: dumps are off, and
    /// both the raw and the processed audio would go to `./debug`.
    pub open spec fn is_builtin(&self) -> bool {
        &&& !self.enabled
        &&& self.output_dir == path_of("./debug"@)
        &&& self.save_raw
        &&& self.save_processed
    }
}

impl Default for DebugConfig {
    /// Dumps are off; when switched on, both the raw and the processed audio
    /// go to `./debug`.
    fn default() -> (config: Self)
        ensures
            config.is_builtin(),
    {
        DebugConfig {
            enabled: false,
            output_dir: path_from_text("./debug"),
            save_raw: true,
            save_processed: true,
        }
    }
}

/// How spoken commands are looked for during a session.
#[derive(Clone, Debug)]
pub struct VoiceCommandConfig {
    /// Whether spoken commands are looked for at all.
    pub enabled: bool,
    /// Length of the trailing chunk that is transcribed on each check, and
    /// the least time between two checks, in milliseconds.
    pub chunk_duration_ms: u64,
    /// Detection sensitivity in percent.
    pub detection_sensitivity_percent: u8,
    /// Whether detected command phrases stay in the final transcript.
    pub include_in_final_transcription: bool,
    /// The vocabulary.
    pub command_config: CommandConfig,
}

impl VoiceCommandConfig {
    /// Whether the configuration is the default one: detection is on, with
    /// half-second chunks, a sensitivity of seventy percent, command phrases
    /// scrubbed from the final transcript, and the built-in vocabulary.
    pub open spec fn is_builtin(&self) -> bool {
        &&& self.enabled
        &&& self.chunk_duration_ms == 500
        &&& self.detection_sensitivity_percent == 70
        &&& !self.include_in_final_transcription
        &&& self.command_config.is_builtin()
    }
}

impl Default for VoiceCommandConfig {
    /// Detection is on, with half-second chunks, a sensitivity of seventy
    /// percent, command phrases scrubbed from the final transcript, and the
    /// built-in vocabulary.
    fn default() -> (config: Self)
        ensures
            config.is_builtin(),
    {
        VoiceCommandConfig {
            enabled: true,
            chunk_duration_ms: 500,
            detection_sensitivity_percent: 70,
            include_in_final_transcription: false,
            command_config: CommandConfig::default(),
        }
    }
}

} // verus!
