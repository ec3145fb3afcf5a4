//! The recording session: its state, the transitions between idle and
//! recording, and the steps of the periodic search for spoken commands.

use vstd::prelude::*;
use vstd::string::*;
use crate::audio::{mix_to_mono, mixed_down, AudioCapture};
use crate::command::{lemma_detect_ignores_outer_whitespace, CommandType};
use crate::config::{
    spec_samples_for_duration_ms, DebugConfig, VoiceCommandConfig, DEFAULT_SAMPLE_RATE,
};
use crate::error::VoiceError;
use crate::monitor::elapsed_ms;
use crate::queue::{enqueue, CommandQueue, COMMAND_QUEUE_CAPACITY};
use crate::text::{
    from_chars, lemma_trim_class_idempotent, to_chars, trim, trim_spec, CharClass,
};
use crate::transcript::{
    finalize_transcription, no_audio_message, placeholder_spec, placeholder_transcription,
    remove_voice_commands, spec_finalize, spec_remove_voice_commands, TranscriptionStep,
};

verus! {

/// Least number of buffered samples with which a command check goes ahead:
/// one second at the device rate.
pub const MIN_CHECK_SAMPLES: usize = 44100;

/// Least number of samples, at the engine's rate, of a chunk that is worth
/// transcribing: three tenths of a second.
pub const MIN_CHUNK_SAMPLES: usize = 4800;

/// What the service holds, as the contracts see it: the state of the
/// session and the settings it runs under.
pub struct SessionState<S> {
    /// Whether the session is under way.
    pub recording: bool,
    /// The mono samples captured in the current or the last session.
    pub samples: Seq<S>,
    /// Whether a spoken command was detected in this session.
    pub command_detected: bool,
    /// The chunk transcripts of this session, each followed by one space.
    pub partial_text: Seq<char>,
    /// The detected commands that wait for the caller, oldest first.
    pub queue: Seq<CommandType>,
    /// The command detected last.
    pub last_command: Option<CommandType>,
    /// When spoken commands were last looked for.
    pub last_check_ms: Option<u64>,
    /// Whether a command check has been opened and not yet closed.
    pub check_in_flight: bool,
    /// How spoken commands are looked for.
    pub voice_config: VoiceCommandConfig,
    /// Where and whether audio is dumped.
    pub debug_config: DebugConfig,
    /// Whether a transcription engine is at hand.
    pub engine_available: bool,
}

impl<S> SessionState<S> {
    /// The state of a service that has not recorded yet and has no engine,
    /// under the given configurations.
    pub open spec fn initial(debug_config: DebugConfig, voice_config: VoiceCommandConfig) -> Self {
        SessionState {
            recording: false,
            samples: Seq::empty(),
            command_detected: false,
            partial_text: Seq::empty(),
            queue: Seq::empty(),
            last_command: None,
            last_check_ms: None,
            check_in_flight: false,
            voice_config,
            debug_config,
            engine_available: false,
        }
    }

    /// The state without any trace of detected commands.
    pub open spec fn cleared(self) -> Self {
        SessionState {
            command_detected: false,
            partial_text: Seq::empty(),
            queue: Seq::empty(),
            last_command: None,
            ..self
        }
    }

    /// The state at the start of a session: recording, with no samples and no
    /// trace of detected commands.
    pub open spec fn started(self) -> Self {
        SessionState { recording: true, samples: Seq::empty(), ..self.cleared() }
    }

    /// The state after the session has ended: idle, all else as it was.
    pub open spec fn stopped(self) -> Self {
        SessionState { recording: false, ..self }
    }

    /// The state after the capture callback has delivered `block`: appended
    /// while recording, dropped otherwise.
    pub open spec fn appended(self, block: Seq<S>) -> Self {
        if self.recording {
            SessionState { samples: self.samples + block, ..self }
        } else {
            self
        }
    }

    /// Whether a command check is due at `now_ms`, with `chunk_ms` as the
    /// least time between two checks: no check is open, and the last one, if
    /// there was one, lies at least `chunk_ms` back.
    pub open spec fn check_due(self, now_ms: u64, chunk_ms: u64) -> bool {
        !self.check_in_flight && match self.last_check_ms {
            Some(last) => elapsed_ms(now_ms, last) >= chunk_ms,
            None => true,
        }
    }

    /// The state with the detection of spoken commands switched on or off.
    pub open spec fn with_commands_enabled(self, enabled: bool) -> Self {
        SessionState {
            voice_config: VoiceCommandConfig { enabled, ..self.voice_config },
            ..self
        }
    }

    /// The state with no command check open.
    pub open spec fn check_closed(self) -> Self {
        SessionState { check_in_flight: false, ..self }
    }

    /// The state after the engine has answered a chunk with `text`: the
    /// answer joins the partial text, followed by one space, whatever it
    /// holds. `text` is the engine's output as it came, so it is trimmed of
    /// white space before it joins; a blank answer leaves the one space.
    pub open spec fn heard(self, text: Seq<char>) -> Self {
        SessionState { partial_text: self.partial_text + trim_spec(text) + seq![' '], ..self }
    }

    /// The state after `command` has been detected: it is marked as
    /// detected, remembered as the last command and queued; a stop or a
    /// toggle ends the session at once.
    pub open spec fn noted(self, command: CommandType) -> Self {
        SessionState {
            recording: self.recording && command != CommandType::Stop && command
                != CommandType::Toggle,
            command_detected: true,
            queue: enqueue(self.queue, command),
            last_command: Some(command),
            ..self
        }
    }
}

/// A session always begins empty: whatever came before, the state at the
/// start holds no samples, no detected command, no partial transcript and
/// no waiting command.
pub proof fn lemma_start_clears<S>(before: SessionState<S>)
    ensures
        before.started().recording,
        before.started().samples.len() == 0,
        !before.started().command_detected,
        before.started().partial_text.len() == 0,
        before.started().queue.len() == 0,
        before.started().last_command is None,
{
}

/// Stopping is idempotent on the state, and a stopped session takes no more
/// samples: a block that arrives after the stop is dropped.
pub proof fn lemma_stop_is_final<S>(before: SessionState<S>, block: Seq<S>)
    ensures
        !before.stopped().recording,
        before.stopped().stopped() == before.stopped(),
        before.stopped().appended(block) == before.stopped(),
        before.stopped().samples == before.samples,
{
}

/// While a session is under way its buffer only grows: after any block the
/// samples held before are a prefix of the samples held after.
pub proof fn lemma_buffer_only_grows<S>(before: SessionState<S>, block: Seq<S>)
    ensures
        before.samples.is_prefix_of(before.appended(block).samples),
        before.appended(block).samples.len() >= before.samples.len(),
        before.appended(block).recording == before.recording,
{
}

/// Command checks never overlap and never come too fast: while one is open
/// none is due, and none is due before `chunk_ms` have passed since the
/// last one began.
pub proof fn lemma_checks_are_spaced<S>(state: SessionState<S>, now_ms: u64, chunk_ms: u64)
    ensures
        state.check_in_flight ==> !state.check_due(now_ms, chunk_ms),
        state.last_check_ms matches Some(last) && elapsed_ms(now_ms, last) < chunk_ms
            ==> !state.check_due(now_ms, chunk_ms),
        state.check_closed().last_check_ms is None ==> state.check_closed().check_due(
            now_ms,
            chunk_ms,
        ),
{
}

/// A detected stop or toggle ends the session at once, and every detected
/// command is the newest entry of the queue, which never holds more than
/// its capacity.
pub proof fn lemma_noted_command<S>(before: SessionState<S>, command: CommandType)
    requires
        before.queue.len() <= COMMAND_QUEUE_CAPACITY,
    ensures
        (command == CommandType::Stop || command == CommandType::Toggle) ==> !before.noted(
            command,
        ).recording,
        (command == CommandType::Start || command == CommandType::Status) ==> before.noted(
            command,
        ).recording == before.recording,
        before.noted(command).command_detected,
        before.noted(command).last_command == Some(command),
        before.noted(command).queue.last() == command,
        before.noted(command).queue.len() <= COMMAND_QUEUE_CAPACITY,
        before.noted(command).samples == before.samples,
{
}

/// What `status` reports.
#[derive(Debug, Clone, Copy, PartialEq, Eq, Structural)]
pub struct StatusReport {
    pub recording: bool,
    pub samples: usize,
    pub queue_depth: usize,
}

/// What a transition has done.
pub enum Transition<S> {
    /// A session has begun; the text says so.
    Started(String),
    /// The session has ended; these are all the samples it captured.
    Stopped(Vec<S>),
    /// Nothing has changed; this is the state.
    Status(StatusReport),
}

/// How a session has begun.
#[derive(Debug, Clone, PartialEq, Eq)]
pub enum SessionStart {
    /// The session goes on until it is stopped; the text announces it.
    Announced(String),
    /// The session is to end by itself: the auto-stop monitor is to run with
    /// these limits.
    Monitored { timeout_ms: u64, silence_timeout_ms: u64 },
}

/// The text with which a session announces its start.
pub open spec fn start_message(commands_enabled: bool) -> Seq<char> {
    if commands_enabled {
        "Started listening with voice commands enabled..."@
    } else {
        "Started listening..."@
    }
}

/// The recording service: one owner of the whole session state. The sample
/// type is the caller's.
pub struct VoiceToTextService<S> {
    capture: AudioCapture<S>,
    engine_available: bool,
    debug_config: DebugConfig,
    voice_command_config: VoiceCommandConfig,
    voice_command_detected: bool,
    partial_transcription_buffer: String,
    last_chunk_time: Option<u64>,
    check_in_flight: bool,
    command_queue: CommandQueue,
    last_command: u8,
}

impl<S: Copy> View for VoiceToTextService<S> {
    type V = SessionState<S>;

    closed spec fn view(&self) -> SessionState<S> {
        SessionState {
            recording: self.capture.recording(),
            samples: self.capture.samples(),
            command_detected: self.voice_command_detected,
            partial_text: self.partial_transcription_buffer@,
            queue: self.command_queue@,
            last_command: CommandType::of_code(self.last_command),
            last_check_ms: self.last_chunk_time,
            check_in_flight: self.check_in_flight,
            voice_config: self.voice_command_config,
            debug_config: self.debug_config,
            engine_available: self.engine_available,
        }
    }
}

impl<S: Copy> Default for VoiceToTextService<S> {
    /// An idle service with the default configurations and no engine.
    fn default() -> (service: Self)
        ensures
            service@ == SessionState::<S>::initial(service.debug_settings(), service.voice_config()),
            service.debug_settings().is_builtin(),
            service.voice_config().is_builtin(),
    {
        Self::new()
    }
}

impl<S: Copy> VoiceToTextService<S> {
    /// How spoken commands are looked for.
    pub open spec fn voice_config(&self) -> VoiceCommandConfig {
        self@.voice_config
    }

    /// Where and whether audio is dumped.
    pub open spec fn debug_settings(&self) -> DebugConfig {
        self@.debug_config
    }

    /// Whether a transcription engine is at hand.
    pub open spec fn has_engine(&self) -> bool {
        self@.engine_available
    }

    /// Whether `other` has the settings of `self`: both configurations and
    /// the engine's availability.
    pub open spec fn same_settings(&self, other: &Self) -> bool {
        &&& self.voice_config() == other.voice_config()
        &&& self.debug_settings() == other.debug_settings()
        &&& self.has_engine() == other.has_engine()
    }

    /// An idle service with the given configurations and no engine.
    pub fn new_with_configs(debug_config: DebugConfig, voice_command_config: VoiceCommandConfig) -> (service:
        Self)
        ensures
            service@ == SessionState::<S>::initial(debug_config, voice_command_config),
    {
        let service = VoiceToTextService {
            capture: AudioCapture::new(debug_config.enabled),
            engine_available: false,
            debug_config,
            voice_command_config,
            voice_command_detected: false,
            partial_transcription_buffer: String::new(),
            last_chunk_time: None,
            check_in_flight: false,
            command_queue: CommandQueue::new(),
            last_command: 0,
        };
        service
    }

    /// An idle service with the given debug configuration, the default
    /// command detection and no engine.
    pub fn new_with_debug(debug_config: DebugConfig) -> (service: Self)
        ensures
            service@ == SessionState::<S>::initial(debug_config, service.voice_config()),
            service.voice_config().is_builtin(),
    {
        Self::new_with_configs(debug_config, VoiceCommandConfig::default())
    }

    /// An idle service with the default configurations and no engine.
    pub fn new() -> (service: Self)
        ensures
            service@ == SessionState::<S>::initial(service.debug_settings(), service.voice_config()),
            service.debug_settings().is_builtin(),
            service.voice_config().is_builtin(),
    {
        Self::new_with_debug(DebugConfig::default())
    }

    /// Records whether a transcription engine is at hand.
    pub fn set_engine_available(&mut self, available: bool)
        ensures
            final(self)@ == (SessionState { engine_available: available, ..old(self)@ }),
    {
        self.engine_available = available;
    }

    /// Whether a transcription engine is at hand.
    pub fn has_model(&self) -> (available: bool)
        ensures
            available == self.has_engine(),
    {
        self.engine_available
    }

    pub fn is_recording(&self) -> (recording: bool)
        ensures
            recording == self@.recording,
    {
        self.capture.is_recording()
    }

    pub fn get_audio_sample_count(&self) -> (count: usize)
        ensures
            count == self@.samples.len(),
    {
        self.capture.get_audio_sample_count()
    }

    /// A copy of the samples captured so far.
    pub fn get_current_audio_data(&self) -> (data: Vec<S>)
        ensures
            data@ == self@.samples,
    {
        self.capture.get_current_audio_data()
    }

    /// A copy of the last `count` samples captured, or of all of them where
    /// fewer are held.
    pub fn tail(&self, count: usize) -> (data: Vec<S>)
        ensures
            data@ == (if self@.samples.len() > count {
                self@.samples.subrange(self@.samples.len() - count, self@.samples.len() as int)
            } else {
                self@.samples
            }),
    {
        self.capture.tail(count)
    }

    pub fn set_voice_commands_enabled(&mut self, enabled: bool)
        ensures
            final(self)@ == old(self)@.with_commands_enabled(enabled),
    {
        self.voice_command_config.enabled = enabled;
    }

    pub fn is_voice_commands_enabled(&self) -> (enabled: bool)
        ensures
            enabled == self.voice_config().enabled,
    {
        self.voice_command_config.enabled
    }

    pub fn get_voice_command_config(&self) -> (config: &VoiceCommandConfig)
        ensures
            *config == self.voice_config(),
    {
        &self.voice_command_config
    }

    pub fn get_debug_config(&self) -> (config: &DebugConfig)
        ensures
            *config == self.debug_settings(),
    {
        &self.debug_config
    }

    pub fn set_debug_enabled(&mut self, enabled: bool)
        ensures
            final(self)@ == (SessionState {
                debug_config: DebugConfig { enabled, ..old(self)@.debug_config },
                ..old(self)@
            }),
    {
        self.debug_config.enabled = enabled;
    }

    pub fn voice_command_detected(&self) -> (detected: bool)
        ensures
            detected == self@.command_detected,
    {
        self.voice_command_detected
    }

    /// The chunk transcripts gathered in this session, each followed by one
    /// space.
    pub fn partial_transcription(&self) -> (text: &str)
        ensures
            text@ == self@.partial_text,
    {
        self.partial_transcription_buffer.as_str()
    }

    /// Forgets every trace of detected commands: the flag, the partial
    /// transcript, the queue and the last command.
    pub fn reset_voice_command_detection(&mut self)
        ensures
            final(self)@ == old(self)@.cleared(),
            old(self).same_settings(final(self)),
    {
        self.voice_command_detected = false;
        self.partial_transcription_buffer = String::new();
        self.command_queue.clear();
        self.last_command = 0;
    }

    pub fn get_command_queue_size(&self) -> (size: usize)
        ensures
            size == self@.queue.len(),
            size <= COMMAND_QUEUE_CAPACITY,
    {
        self.command_queue.len()
    }

    /// Takes the oldest waiting command out of the queue, if there is one.
    pub fn pop_next_command(&mut self) -> (command: Option<CommandType>)
        ensures
            old(self).same_settings(final(self)),
            old(self)@.queue.len() == 0 ==> command is None && final(self)@ == old(self)@,
            old(self)@.queue.len() > 0 ==> command == Some(old(self)@.queue.first()) && final(self)@
                == (SessionState { queue: old(self)@.queue.drop_first(), ..old(self)@ }),
    {
        self.command_queue.pop()
    }

    pub fn get_last_command(&self) -> (command: Option<CommandType>)
        ensures
            command == self@.last_command,
    {
        CommandType::from_u8(self.last_command)
    }

    pub fn set_last_command(&mut self, command: CommandType)
        ensures
            final(self)@ == (SessionState { last_command: Some(command), ..old(self)@ }),
            old(self).same_settings(final(self)),
    {
        self.last_command = command.to_u8();
    }

    pub fn clear_last_command(&mut self)
        ensures
            final(self)@ == (SessionState { last_command: None, ..old(self)@ }),
            old(self).same_settings(final(self)),
    {
        self.last_command = 0;
    }

    /// What `status` reports in a given state.
    pub open spec fn spec_status(state: SessionState<S>) -> StatusReport {
        StatusReport {
            recording: state.recording,
            samples: state.samples.len() as usize,
            queue_depth: state.queue.len() as usize,
        }
    }

    /// The state of the session in three numbers. Nothing changes.
    pub fn status(&self) -> (report: StatusReport)
        ensures
            report == Self::spec_status(self@),
    {
        StatusReport {
            recording: self.capture.is_recording(),
            samples: self.capture.get_audio_sample_count(),
            queue_depth: self.command_queue.len(),
        }
    }

    /// Begins a session. While one is under way the call fails with
    /// `AlreadyRecording` and changes nothing. Otherwise the samples of the
    /// last session and every trace of detected commands are dropped, the
    /// service records, and the text announces the start.
    pub fn start_listening(&mut self) -> (started: Result<String, VoiceError>)
        ensures
            old(self).same_settings(final(self)),
            old(self)@.recording ==> started == Err::<String, VoiceError>(
                VoiceError::AlreadyRecording,
            ) && final(self)@ == old(self)@,
            !old(self)@.recording ==> started is Ok && started->Ok_0@ == start_message(
                old(self).voice_config().enabled,
            ) && final(self)@ == old(self)@.started(),
    {
        match self.capture.start_capture() {
            Err(e) => Err(e),
            Ok(()) => {
                self.reset_voice_command_detection();
                if self.voice_command_config.enabled {
                    Ok(String::from_str("Started listening with voice commands enabled..."))
                } else {
                    Ok(String::from_str("Started listening..."))
                }
            },
        }
    }

    /// Begins a session as `start_listening` does, and says how it is to end.
    /// With `auto_stop` set and an engine at hand the auto-stop monitor is to
    /// watch it, with the given limits in milliseconds; otherwise the session
    /// goes on until it is stopped.
    pub fn start_listening_with_options(
        &mut self,
        timeout_ms: u64,
        silence_timeout_ms: u64,
        auto_stop: bool,
    ) -> (started: Result<SessionStart, VoiceError>)
        ensures
            old(self).same_settings(final(self)),
            old(self)@.recording ==> started == Err::<SessionStart, VoiceError>(
                VoiceError::AlreadyRecording,
            ) && final(self)@ == old(self)@,
            !old(self)@.recording ==> final(self)@ == old(self)@.started() && started is Ok,
            !old(self)@.recording && auto_stop && old(self).has_engine() ==> started->Ok_0 == (
            SessionStart::Monitored { timeout_ms, silence_timeout_ms }),
            !old(self)@.recording && !(auto_stop && old(self).has_engine()) ==> started->Ok_0 is Announced
                && started->Ok_0->Announced_0@ == start_message(old(self).voice_config().enabled),
    {
        match self.start_listening() {
            Err(e) => Err(e),
            Ok(message) => {
                if auto_stop && self.engine_available {
                    Ok(SessionStart::Monitored { timeout_ms, silence_timeout_ms })
                } else {
                    Ok(SessionStart::Announced(message))
                }
            },
        }
    }

    /// Takes back a start whose capture could not be opened: the service is
    /// idle again, and all else stays as the start left it. On an idle
    /// service nothing changes.
    pub fn start_failed(&mut self)
        ensures
            final(self)@ == old(self)@.stopped(),
            old(self).same_settings(final(self)),
    {
        self.capture.halt();
    }

    /// Ends the session and hands out everything it captured, for the final
    /// transcription. Where no session is under way the call fails with
    /// `NotRecording` and changes nothing; so a second stop after a first
    /// one fails.
    pub fn stop_listening(&mut self) -> (stopped: Result<Vec<S>, VoiceError>)
        ensures
            old(self).same_settings(final(self)),
            !old(self)@.recording ==> stopped == Err::<Vec<S>, VoiceError>(
                VoiceError::NotRecording,
            ) && final(self)@ == old(self)@,
            old(self)@.recording ==> stopped is Ok && stopped->Ok_0@ == old(self)@.samples
                && final(self)@ == old(self)@.stopped(),
    {
        self.capture.stop_capture()
    }

    /// Carries out `command`, whoever asked for it. A start begins a session,
    /// a stop ends one, a toggle ends the session that is under way or begins
    /// one where none is, and a status request changes nothing.
    pub fn request_transition(&mut self, command: CommandType) -> (done: Result<
        Transition<S>,
        VoiceError,
    >)
        ensures
            old(self).same_settings(final(self)),
            command == CommandType::Status ==> final(self)@ == old(self)@ && done is Ok
                && done->Ok_0 == Transition::<S>::Status(Self::spec_status(old(self)@)),
            Self::begins(command, old(self)@.recording) ==> final(self)@ == old(self)@.started()
                && done is Ok && done->Ok_0 is Started && done->Ok_0->Started_0@ == start_message(
                old(self).voice_config().enabled,
            ),
            Self::ends(command, old(self)@.recording) ==> final(self)@ == old(self)@.stopped()
                && done is Ok && done->Ok_0 is Stopped && done->Ok_0->Stopped_0@ == old(
                self,
            )@.samples,
            command == CommandType::Start && old(self)@.recording ==> final(self)@ == old(self)@
                && done == Err::<Transition<S>, VoiceError>(VoiceError::AlreadyRecording),
            command == CommandType::Stop && !old(self)@.recording ==> final(self)@ == old(self)@
                && done == Err::<Transition<S>, VoiceError>(VoiceError::NotRecording),
    {
        match command {
            CommandType::Status => Ok(Transition::Status(self.status())),
            CommandType::Start => match self.start_listening() {
                Ok(message) => Ok(Transition::Started(message)),
                Err(e) => Err(e),
            },
            CommandType::Stop => match self.stop_listening() {
                Ok(samples) => Ok(Transition::Stopped(samples)),
                Err(e) => Err(e),
            },
            CommandType::Toggle => {
                if self.capture.is_recording() {
                    match self.stop_listening() {
                        Ok(samples) => Ok(Transition::Stopped(samples)),
                        Err(e) => Err(e),
                    }
                } else {
                    match self.start_listening() {
                        Ok(message) => Ok(Transition::Started(message)),
                        Err(e) => Err(e),
                    }
                }
            },
        }
    }

    /// Whether `command` begins a session in a service that is recording or
    /// not: a start or a toggle while idle.
    pub open spec fn begins(command: CommandType, recording: bool) -> bool {
        !recording && (command == CommandType::Start || command == CommandType::Toggle)
    }

    /// Whether `command` ends a session in a service that is recording or
    /// not: a stop or a toggle while recording.
    pub open spec fn ends(command: CommandType, recording: bool) -> bool {
        recording && (command == CommandType::Stop || command == CommandType::Toggle)
    }

    /// Takes a block of mono samples from the capture callback: appended
    /// while the session is under way, dropped otherwise. What was captured
    /// before stays as it is, so the buffer never shrinks during a session.
    pub fn append_samples(&mut self, block: &[S])
        ensures
            final(self)@ == old(self)@.appended(block@),
            old(self)@.samples.is_prefix_of(final(self)@.samples),
            old(self).same_settings(final(self)),
    {
        self.capture.append(block);
    }

    /// Takes a block of interleaved samples with `channels` channels from the
    /// capture callback. While the session is under way the block is mixed
    /// down to mono, `mix` making one sample of each frame, and appended;
    /// otherwise it is dropped.
    pub fn append_block<M: Fn(&[S], u16) -> S>(&mut self, block: &[S], channels: u16, mix: M)
        requires
            channels > 0,
            forall|frame: &[S], count: u16| call_requires(mix, (frame, count)),
        ensures
            old(self).same_settings(final(self)),
            old(self)@.samples.is_prefix_of(final(self)@.samples),
            !old(self)@.recording ==> final(self)@ == old(self)@,
            old(self)@.recording ==> exists|mono: Seq<S>|
                #[trigger] mixed_down(block@, channels, mix, mono) && final(self)@ == old(
                    self,
                )@.appended(mono),
    {
        if self.capture.is_recording() {
            let mono: Vec<S> = mix_to_mono(block, channels, &mix);
            self.capture.append(mono.as_slice());
            assert(mixed_down(block@, channels, mix, mono@));
        }
    }

    /// The chunk that a command check transcribes: the trailing
    /// `chunk_duration_ms` of the samples, or all of them where fewer are
    /// held; none while less than a second of audio is buffered.
    pub open spec fn spec_command_chunk(&self) -> Option<Seq<S>> {
        let want = spec_samples_for_duration_ms(
            DEFAULT_SAMPLE_RATE,
            self.voice_config().chunk_duration_ms,
        );
        let held = self@.samples;
        if held.len() < MIN_CHECK_SAMPLES {
            None
        } else if held.len() > want {
            Some(held.subrange(held.len() - want, held.len() as int))
        } else {
            Some(held)
        }
    }

    /// The chunk of a vector of samples.
    pub open spec fn chunk_view(chunk: Option<Vec<S>>) -> Option<Seq<S>> {
        match chunk {
            Some(samples) => Some(samples@),
            None => None,
        }
    }

    /// A copy of the chunk that a command check transcribes; none while less
    /// than a second of audio is buffered.
    pub fn command_chunk(&self) -> (chunk: Option<Vec<S>>)
        ensures
            Self::chunk_view(chunk) == self.spec_command_chunk(),
    {
        let held: usize = self.capture.get_audio_sample_count();
        if held < MIN_CHECK_SAMPLES {
            return None;
        }
        assert(DEFAULT_SAMPLE_RATE * self.voice_command_config.chunk_duration_ms <= 0xFFFF_FFFF
            * 0xFFFF_FFFF_FFFF_FFFF) by (nonlinear_arith)
            requires
                0 <= self.voice_command_config.chunk_duration_ms <= 0xFFFF_FFFF_FFFF_FFFF,
                DEFAULT_SAMPLE_RATE == 44100,
        ;
        let want: u128 = (DEFAULT_SAMPLE_RATE as u128) * (
        self.voice_command_config.chunk_duration_ms as u128) / 1000;
        if (held as u128) > want {
            Some(self.capture.tail(want as usize))
        } else {
            Some(self.capture.get_current_audio_data())
        }
    }

    /// Whether a command check at `now_ms` goes ahead: detection is on, no
    /// check is open, and the last check, if there was one, lies at least
    /// `chunk_duration_ms` back.
    pub open spec fn spec_check_due(&self, now_ms: u64) -> bool {
        self.voice_config().enabled && self@.check_due(
            now_ms,
            self.voice_config().chunk_duration_ms,
        )
    }

    /// Opens a command check at time `now_ms`. A check that is not due
    /// changes nothing and yields no chunk. A check that is due is noted as
    /// the last one; it yields the chunk to transcribe, or none where no
    /// engine is at hand, less than a second of audio is buffered or the chunk
    /// is empty. A check that yields a chunk stays open until
    /// `finish_command_check` closes it, and no other check goes ahead in
    /// between.
    pub fn begin_command_check(&mut self, now_ms: u64) -> (chunk: Option<Vec<S>>)
        ensures
            old(self).same_settings(final(self)),
            !old(self).spec_check_due(now_ms) ==> chunk is None && final(self)@ == old(self)@,
            old(self).spec_check_due(now_ms) ==> final(self)@ == (SessionState {
                last_check_ms: Some(now_ms),
                check_in_flight: chunk is Some,
                ..old(self)@
            }),
            chunk is Some ==> !final(self).spec_check_due(now_ms),
            old(self).spec_check_due(now_ms) ==> Self::chunk_view(chunk) == (if old(
                self,
            ).has_engine() && old(self).spec_command_chunk() is Some && old(
                self,
            ).spec_command_chunk()->Some_0.len() > 0 {
                old(self).spec_command_chunk()
            } else {
                None
            }),
    {
        if !self.voice_command_config.enabled || self.check_in_flight {
            return None;
        }
        let due: bool = match self.last_chunk_time {
            Some(last) => {
                let since: u64 = if now_ms >= last {
                    now_ms - last
                } else {
                    0
                };
                since >= self.voice_command_config.chunk_duration_ms
            },
            None => true,
        };
        if !due {
            return None;
        }
        self.last_chunk_time = Some(now_ms);
        match self.command_chunk() {
            Some(samples) => {
                if self.engine_available && samples.len() > 0 {
                    self.check_in_flight = true;
                    Some(samples)
                } else {
                    None
                }
            },
            None => None,
        }
    }

    /// Whether a prepared chunk of `prepared_len` samples at the engine's
    /// rate is worth transcribing: it holds at least three tenths of a
    /// second.
    pub fn chunk_is_long_enough(prepared_len: usize) -> (enough: bool)
        ensures
            enough == (prepared_len >= MIN_CHUNK_SAMPLES),
    {
        prepared_len >= MIN_CHUNK_SAMPLES
    }

    /// The command that the transcribed `transcription` carries, by the
    /// service's vocabulary.
    pub fn detect_voice_commands(&self, transcription: &str) -> (command: Option<CommandType>)
        ensures
            command == self.voice_config().command_config.spec_detect(transcription@),
    {
        self.voice_command_config.command_config.detect(transcription)
    }

    /// Notes a detected command: it is marked as detected, remembered as the
    /// last command and queued, the oldest waiting command making room where
    /// the queue is full. A stop or a toggle ends the session at once.
    pub fn note_command(&mut self, command: CommandType)
        ensures
            final(self)@ == old(self)@.noted(command),
            old(self).same_settings(final(self)),
            (command == CommandType::Stop || command == CommandType::Toggle)
                ==> !final(self)@.recording,
    {
        self.voice_command_detected = true;
        self.last_command = command.to_u8();
        self.command_queue.push(command);
        match command {
            CommandType::Stop | CommandType::Toggle => {
                self.capture.halt();
            },
            CommandType::Start | CommandType::Status => {},
        }
    }

    /// The state after a command check has closed with the engine's answer
    /// `transcription`, or with none where the engine failed.
    pub open spec fn spec_after_check(&self, transcription: Option<Seq<char>>) -> SessionState<S> {
        match transcription {
            None => self@.check_closed(),
            Some(text) => {
                let heard = self@.check_closed().heard(text);
                match self.voice_config().command_config.spec_detect(text) {
                    Some(command) => heard.noted(command),
                    None => heard,
                }
            },
        }
    }

    /// The command that a check finds in the engine's answer.
    pub open spec fn spec_check_result(&self, transcription: Option<Seq<char>>) -> Option<
        CommandType,
    > {
        match transcription {
            None => None,
            Some(text) => self.voice_config().command_config.spec_detect(text),
        }
    }

    /// The text of an optional string slice.
    pub open spec fn heard_text(transcription: Option<&str>) -> Option<Seq<char>> {
        match transcription {
            Some(text) => Some(text@),
            None => None,
        }
    }

    /// Closes a command check with the engine's answer for the chunk, or with
    /// `None` where the chunk was dropped or the engine failed, which counts
    /// as no command and leaves the partial transcript alone. Every answer,
    /// trimmed and followed by one space, joins the partial transcript and is
    /// searched for a command; a command that is found is noted, and a stop
    /// or a toggle ends the session before the call returns.
    pub fn finish_command_check(&mut self, transcription: Option<&str>) -> (command: Option<
        CommandType,
    >)
        ensures
            command == old(self).spec_check_result(Self::heard_text(transcription)),
            final(self)@ == old(self).spec_after_check(Self::heard_text(transcription)),
            old(self).same_settings(final(self)),
            (command == Some(CommandType::Stop) || command == Some(CommandType::Toggle))
                ==> !final(self)@.recording,
            command is None ==> final(self)@.recording == old(self)@.recording,
            !final(self)@.check_in_flight,
            transcription matches Some(text) ==> final(self)@.partial_text == old(
                self,
            )@.partial_text + trim_spec(text@) + seq![' '],
            transcription is None ==> final(self)@.partial_text == old(self)@.partial_text,
    {
        self.check_in_flight = false;
        match transcription {
            None => None,
            Some(text) => {
                let heard: Vec<char> = trim(&to_chars(text));
                let spoken: String = from_chars(&heard);
                self.partial_transcription_buffer.append(spoken.as_str());
                self.partial_transcription_buffer.push(' ');
                assert(self.partial_transcription_buffer@ =~= old(self)@.partial_text
                    + trim_spec(text@) + seq![' ']);
                let vocabulary = &self.voice_command_config.command_config;
                let found: Option<CommandType> = vocabulary.match_detect(&heard);
                proof {
                    lemma_trim_class_idempotent(text@, CharClass::Whitespace);
                    lemma_detect_ignores_outer_whitespace(*vocabulary, heard@, text@);
                }
                match found {
                    Some(command) => {
                        self.note_command(command);
                    },
                    None => {},
                }
                found
            },
        }
    }

    /// The final transcript `transcription` without the commands heard in
    /// `partial_buffer`, by the service's vocabulary.
    pub fn remove_voice_commands_from_transcription(
        &self,
        transcription: &str,
        partial_buffer: &str,
    ) -> (text: String)
        ensures
            text@ == spec_remove_voice_commands(
                self.voice_config().command_config,
                transcription@,
                partial_buffer@,
            ),
    {
        remove_voice_commands(
            &self.voice_command_config.command_config,
            transcription,
            partial_buffer,
        )
    }

    /// The text that the session hands back for its final transcript
    /// `transcription`: scrubbed of spoken commands and annotated as the
    /// configuration and the session's own record of detected commands say.
    pub fn finalize(&self, transcription: &str) -> (text: String)
        ensures
            text@ == spec_finalize(
                self.voice_config(),
                transcription@,
                self@.partial_text,
                self@.command_detected,
            ),
    {
        finalize_transcription(
            &self.voice_command_config,
            transcription,
            self.partial_transcription_buffer.as_str(),
            self.voice_command_detected,
        )
    }

    /// What is to be done about the transcription of `sample_count` samples:
    /// nothing captured gives a notice, a missing engine a placeholder that
    /// reports the count, and anything else goes to the engine.
    pub fn transcribe_audio(&self, sample_count: usize) -> (step: TranscriptionStep)
        ensures
            sample_count == 0 ==> step is Done && step->Done_0@ == no_audio_message(),
            sample_count > 0 && !self.has_engine() ==> step is Done && step->Done_0@
                == placeholder_spec(sample_count),
            sample_count > 0 && self.has_engine() ==> step is RunEngine,
    {
        if sample_count == 0 {
            TranscriptionStep::Done(String::from_str("No audio data recorded"))
        } else if self.engine_available {
            TranscriptionStep::RunEngine
        } else {
            TranscriptionStep::Done(placeholder_transcription(sample_count))
        }
    }
}

} // verus!
