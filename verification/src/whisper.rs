//! The transcriber's side of a final transcription: what has to hold before
//! the engine runs.

use vstd::prelude::*;
use vstd::string::*;
use crate::audio::{lemma_resampled_len_near_quotient, spec_resampled_len, AudioProcessor};
use crate::config::{DEFAULT_SAMPLE_RATE, WHISPER_SAMPLE_RATE};
use crate::error::VoiceError;
use crate::transcript::{
    no_audio_message, placeholder_spec, placeholder_transcription, TranscriptionStep,
};

verus! {

/// Number of samples that the engine gets for `sample_count` captured ones.
pub open spec fn prepared_len(sample_count: usize) -> usize {
    spec_resampled_len(
        sample_count as int,
        DEFAULT_SAMPLE_RATE as int,
        WHISPER_SAMPLE_RATE as int,
    ) as usize
}

/// The transcriber: whether an engine is loaded, and the sample bookkeeping
/// that goes with it.
#[derive(Clone, Copy, Debug)]
pub struct WhisperTranscriber {
    model_loaded: bool,
    audio_processor: AudioProcessor,
}

impl WhisperTranscriber {
    /// Whether an engine is loaded.
    pub closed spec fn loaded(&self) -> bool {
        self.model_loaded
    }

    /// The sample bookkeeping of the transcriber.
    pub closed spec fn processor(&self) -> AudioProcessor {
        self.audio_processor
    }

    /// A transcriber without an engine.
    pub fn new(debug_enabled: bool) -> (transcriber: Self)
        ensures
            !transcriber.loaded(),
            transcriber.processor().debug() == debug_enabled,
    {
        Self { model_loaded: false, audio_processor: AudioProcessor::new(debug_enabled) }
    }

    /// Records whether an engine has been loaded.
    pub fn set_model_loaded(&mut self, loaded: bool)
        ensures
            final(self).loaded() == loaded,
            final(self).processor() == old(self).processor(),
    {
        self.model_loaded = loaded;
    }

    pub fn has_model(&self) -> (loaded: bool)
        ensures
            loaded == self.loaded(),
    {
        self.model_loaded
    }

    pub fn get_audio_processor(&self) -> (processor: &AudioProcessor)
        ensures
            *processor == self.processor(),
    {
        &self.audio_processor
    }

    /// What holds of prepared audio before the engine runs: the check of
    /// `validate_audio` on the prepared length at the engine's rate.
    pub open spec fn spec_engine_check(sample_count: usize, peak_micros: u64) -> Result<
        (),
        VoiceError,
    > {
        AudioProcessor::spec_validate_audio(
            prepared_len(sample_count),
            WHISPER_SAMPLE_RATE,
            peak_micros,
        )
    }

    /// What is to be done about the transcription of `sample_count` captured
    /// samples whose prepared form peaks at `peak_micros` millionths of full
    /// scale. Nothing captured gives a notice. Without an engine the call
    /// fails with `WhisperModelNotLoaded`. Otherwise the prepared audio is
    /// checked, and goes to the engine where it passes.
    pub fn transcribe_audio(&self, sample_count: usize, peak_micros: u64) -> (step: Result<
        TranscriptionStep,
        VoiceError,
    >)
        ensures
            sample_count == 0 ==> step is Ok && step->Ok_0 is Done && step->Ok_0->Done_0@
                == no_audio_message(),
            sample_count > 0 && !self.loaded() ==> step == Err::<TranscriptionStep, VoiceError>(
                VoiceError::WhisperModelNotLoaded,
            ),
            sample_count > 0 && self.loaded() ==> (match Self::spec_engine_check(
                sample_count,
                peak_micros,
            ) {
                Ok(_) => step == Ok::<TranscriptionStep, VoiceError>(TranscriptionStep::RunEngine),
                Err(e) => step == Err::<TranscriptionStep, VoiceError>(e),
            }),
    {
        if sample_count == 0 {
            return Ok(TranscriptionStep::Done(String::from_str("No audio data recorded")));
        }
        if !self.model_loaded {
            return Err(VoiceError::WhisperModelNotLoaded);
        }
        self.check_prepared(sample_count, peak_micros)
    }

    /// As `transcribe_audio`, but a missing engine gives a placeholder that
    /// reports the number of samples instead of a failure.
    pub fn transcribe_with_validation(&self, sample_count: usize, peak_micros: u64) -> (step:
        Result<TranscriptionStep, VoiceError>)
        ensures
            sample_count == 0 ==> step is Ok && step->Ok_0 is Done && step->Ok_0->Done_0@
                == no_audio_message(),
            sample_count > 0 && !self.loaded() ==> step is Ok && step->Ok_0 is Done
                && step->Ok_0->Done_0@ == placeholder_spec(sample_count),
            sample_count > 0 && self.loaded() ==> (match Self::spec_engine_check(
                sample_count,
                peak_micros,
            ) {
                Ok(_) => step == Ok::<TranscriptionStep, VoiceError>(TranscriptionStep::RunEngine),
                Err(e) => step == Err::<TranscriptionStep, VoiceError>(e),
            }),
    {
        if sample_count == 0 {
            return Ok(TranscriptionStep::Done(String::from_str("No audio data recorded")));
        }
        if !self.model_loaded {
            return Ok(TranscriptionStep::Done(placeholder_transcription(sample_count)));
        }
        self.check_prepared(sample_count, peak_micros)
    }

    /// The check before an engine run.
    fn check_prepared(&self, sample_count: usize, peak_micros: u64) -> (step: Result<
        TranscriptionStep,
        VoiceError,
    >)
        ensures
            match Self::spec_engine_check(sample_count, peak_micros) {
                Ok(_) => step == Ok::<TranscriptionStep, VoiceError>(TranscriptionStep::RunEngine),
                Err(e) => step == Err::<TranscriptionStep, VoiceError>(e),
            },
    {
        proof {
            lemma_resampled_len_near_quotient(
                sample_count as int,
                DEFAULT_SAMPLE_RATE as int,
                WHISPER_SAMPLE_RATE as int,
            );
            assert((sample_count * 16000) / 44100 + 1 <= usize::MAX) by (nonlinear_arith)
                requires
                    0 <= sample_count <= usize::MAX,
                    usize::MAX >= 0xFFFF_FFFF,
            ;
        }
        let prepared: usize = self.audio_processor.resampled_len(
            sample_count,
            DEFAULT_SAMPLE_RATE,
            WHISPER_SAMPLE_RATE,
        );
        match self.audio_processor.validate_audio(prepared, WHISPER_SAMPLE_RATE, peak_micros) {
            Ok(()) => Ok(TranscriptionStep::RunEngine),
            Err(e) => Err(e),
        }
    }
}

} // verus!
