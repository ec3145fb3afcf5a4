//! The failures that the pipeline reports.

use vstd::prelude::*;
use vstd::string::*;
use crate::text::{
    decimal_spec, fixed_decimal_spec, from_chars, push_decimal, push_fixed_decimal, push_str,
};

verus! {

/// A failure of the recording pipeline.
///
/// Durations are carried in milliseconds and amplitudes in millionths of full
/// scale, so that every payload is an exact value.
#[derive(Debug, Clone, PartialEq, Eq)]
pub enum VoiceError {
    AudioDeviceNotAvailable,
    NoInputDevice,
    AudioStream(String),
    WhisperModelLoad(String),
    WhisperModelNotLoaded,
    WhisperTranscription(String),
    AudioTooShort { duration_ms: u64 },
    AudioTooQuiet { amplitude_micros: u64 },
    WavFile(String),
    DebugDirectory(String),
    DebugFileSave(String),
    AlreadyRecording,
    NotRecording,
    KeyboardControl(String),
    Platform(String),
    Io(String),
    AudioProcessing(String),
}

/// A result whose failure is a `VoiceError`.
pub type Result<T> = std::result::Result<T, VoiceError>;

/// The numeral `whole.frac`, where `frac` is written with `places` digits.
pub open spec fn point_numeral(whole: nat, frac: nat, places: nat) -> Seq<char> {
    decimal_spec(whole) + seq!['.'] + fixed_decimal_spec(frac, places)
}

impl VoiceError {
    /// The text of the failure.
    pub open spec fn message_spec(self) -> Seq<char> {
        match self {
            VoiceError::AudioDeviceNotAvailable => "Audio device not available"@,
            VoiceError::NoInputDevice => "No input device found"@,
            VoiceError::AudioStream(detail) => "Audio stream error: "@ + detail@,
            VoiceError::WhisperModelLoad(detail) => "Whisper model loading failed: "@ + detail@,
            VoiceError::WhisperModelNotLoaded => "Whisper model not loaded - use new_with_model() to load a model"@,
            VoiceError::WhisperTranscription(detail) => "Whisper transcription failed: "@ + detail@,
            VoiceError::AudioTooShort { duration_ms } => "Audio too short: "@ + point_numeral(
                (duration_ms / 1000) as nat,
                ((duration_ms % 1000) / 10) as nat,
                2,
            ) + "s (need at least 0.5s)"@,
            VoiceError::AudioTooQuiet { amplitude_micros } => "Audio too quiet: max amplitude "@
                + point_numeral(
                (amplitude_micros / 1000000) as nat,
                (amplitude_micros % 1000000) as nat,
                6,
            ),
            VoiceError::WavFile(detail) => "WAV file error: "@ + detail@,
            VoiceError::DebugDirectory(detail) => "Debug directory creation failed: "@ + detail@,
            VoiceError::DebugFileSave(detail) => "Debug file saving failed: "@ + detail@,
            VoiceError::AlreadyRecording => "Recording already in progress"@,
            VoiceError::NotRecording => "Not currently recording"@,
            VoiceError::KeyboardControl(detail) => "Keyboard control initialization failed: "@
                + detail@,
            VoiceError::Platform(detail) => "Platform operation failed: "@ + detail@,
            VoiceError::Io(detail) => "I/O error: "@ + detail@,
            VoiceError::AudioProcessing(detail) => "Audio processing error: "@ + detail@,
        }
    }

    /// The text of the failure, as shown to a caller.
    pub fn message(&self) -> (text: String)
        ensures
            text@ == self.message_spec(),
    {
        let mut out: Vec<char> = Vec::new();
        match self {
            VoiceError::AudioDeviceNotAvailable => {
                push_str(&mut out, "Audio device not available");
            },
            VoiceError::NoInputDevice => {
                push_str(&mut out, "No input device found");
            },
            VoiceError::AudioStream(detail) => {
                push_str(&mut out, "Audio stream error: ");
                push_str(&mut out, detail.as_str());
            },
            VoiceError::WhisperModelLoad(detail) => {
                push_str(&mut out, "Whisper model loading failed: ");
                push_str(&mut out, detail.as_str());
            },
            VoiceError::WhisperModelNotLoaded => {
                push_str(
                    &mut out,
                    "Whisper model not loaded - use new_with_model() to load a model",
                );
            },
            VoiceError::WhisperTranscription(detail) => {
                push_str(&mut out, "Whisper transcription failed: ");
                push_str(&mut out, detail.as_str());
            },
            VoiceError::AudioTooShort { duration_ms } => {
                push_str(&mut out, "Audio too short: ");
                push_decimal(&mut out, *duration_ms / 1000);
                out.push('.');
                push_fixed_decimal(&mut out, (*duration_ms % 1000) / 10, 2);
                push_str(&mut out, "s (need at least 0.5s)");
            },
            VoiceError::AudioTooQuiet { amplitude_micros } => {
                push_str(&mut out, "Audio too quiet: max amplitude ");
                push_decimal(&mut out, *amplitude_micros / 1000000);
                out.push('.');
                push_fixed_decimal(&mut out, *amplitude_micros % 1000000, 6);
            },
            VoiceError::WavFile(detail) => {
                push_str(&mut out, "WAV file error: ");
                push_str(&mut out, detail.as_str());
            },
            VoiceError::DebugDirectory(detail) => {
                push_str(&mut out, "Debug directory creation failed: ");
                push_str(&mut out, detail.as_str());
            },
            VoiceError::DebugFileSave(detail) => {
                push_str(&mut out, "Debug file saving failed: ");
                push_str(&mut out, detail.as_str());
            },
            VoiceError::AlreadyRecording => {
                push_str(&mut out, "Recording already in progress");
            },
            VoiceError::NotRecording => {
                push_str(&mut out, "Not currently recording");
            },
            VoiceError::KeyboardControl(detail) => {
                push_str(&mut out, "Keyboard control initialization failed: ");
                push_str(&mut out, detail.as_str());
            },
            VoiceError::Platform(detail) => {
                push_str(&mut out, "Platform operation failed: ");
                push_str(&mut out, detail.as_str());
            },
            VoiceError::Io(detail) => {
                push_str(&mut out, "I/O error: ");
                push_str(&mut out, detail.as_str());
            },
            VoiceError::AudioProcessing(detail) => {
                push_str(&mut out, "Audio processing error: ");
                push_str(&mut out, detail.as_str());
            },
        }
        assert(out@ =~= self.message_spec());
        from_chars(&out)
    }
}

} // verus!
