//! The tool interface: what a `listen` request does to the service and what
//! is answered.

use vstd::prelude::*;
use vstd::string::*;
use crate::command::{phrases, CommandConfig, CommandType};
use crate::config::{VoiceCommandConfig, DEFAULT_SILENCE_TIMEOUT_MS, DEFAULT_TIMEOUT_MS};
use crate::error::VoiceError;
use crate::service::{start_message, SessionStart, SessionState, VoiceToTextService};
use crate::text::{
    append_chars, decimal_spec, from_chars, join, join_from, push_decimal, push_str, texts,
    to_chars,
};

verus! {

/// A request to transcribe an audio file.
#[derive(Debug, Clone)]
pub struct TranscribeFileRequest {
    /// Path to the audio file to transcribe.
    pub file_path: String,
}

/// A request to the recording control.
#[derive(Debug, Clone)]
pub struct ListenRequest {
    /// The command, by the server's vocabulary; none stands for the empty
    /// command.
    pub command: Option<String>,
    /// Switches the detection of spoken commands on or off.
    pub enable_voice_commands: Option<bool>,
    /// Longest recording, in milliseconds; thirty seconds where none is given.
    pub timeout_ms: Option<u64>,
    /// Silence, in milliseconds, that ends an auto-stopped recording; two
    /// seconds where none is given.
    pub silence_timeout_ms: Option<u64>,
    /// Whether the recording ends by itself. Where none is given, a start
    /// command records until silence and a toggle records until stopped.
    pub auto_stop: Option<bool>,
}

/// What is to be done after a `listen` request has been taken in.
pub enum ListenOutcome<S> {
    /// The answer is ready, and the service neither began nor ended a session.
    Reply(String),
    /// A session has begun that goes on until it is stopped: capture is to
    /// start, and the text is the answer.
    Started(String),
    /// A session has begun that is to end by itself: the auto-stop monitor is
    /// to run with these limits, and the session's transcript is the answer.
    Monitor { timeout_ms: u64, silence_timeout_ms: u64 },
    /// The session has ended: the transcript of these samples is the answer.
    Transcribe(Vec<S>),
}

/// The command text of a request; empty where none is given.
pub open spec fn command_text(request: ListenRequest) -> Seq<char> {
    match request.command {
        Some(text) => text@,
        None => Seq::empty(),
    }
}

/// The answer to a status request.
pub open spec fn status_line_spec(recording: bool, samples: usize, commands_enabled: bool) -> Seq<
    char,
> {
    "Recording: "@ + (if recording {
        "true"@
    } else {
        "false"@
    }) + ", Samples: "@ + decimal_spec(samples as nat) + ", Voice Commands: "@ + (
    if commands_enabled {
        "enabled"@
    } else {
        "disabled"@
    })
}

/// The answer to a status request: whether the service records, how many
/// samples it holds, and whether it listens for spoken commands.
pub fn status_line(recording: bool, samples: usize, commands_enabled: bool) -> (line: String)
    ensures
        line@ == status_line_spec(recording, samples, commands_enabled),
{
    let mut out: Vec<char> = Vec::new();
    push_str(&mut out, "Recording: ");
    if recording {
        push_str(&mut out, "true");
    } else {
        push_str(&mut out, "false");
    }
    push_str(&mut out, ", Samples: ");
    push_decimal(&mut out, samples as u64);
    push_str(&mut out, ", Voice Commands: ");
    if commands_enabled {
        push_str(&mut out, "enabled");
    } else {
        push_str(&mut out, "disabled");
    }
    assert(out@ =~= status_line_spec(recording, samples, commands_enabled));
    from_chars(&out)
}

/// The phrases of one command kind, with a comma and a space between each
/// two.
pub open spec fn listed(list: Seq<String>) -> Seq<char> {
    join_from(phrases(list), ", "@, 0)
}

/// The answer to a command that the vocabulary does not hold: the command,
/// and the phrases that each kind accepts.
pub open spec fn unknown_command_spec(config: CommandConfig, command: Seq<char>) -> Seq<char> {
    "Unknown command: '"@ + command + "'. Available commands:\n- Start: "@ + listed(
        config.start_commands@,
    ) + "\n- Stop: "@ + listed(config.stop_commands@) + "\n- Status: "@ + listed(
        config.status_commands@,
    ) + "\n- Toggle: "@ + listed(config.toggle_commands@)
}

/// Appends the phrases of `list`, with a comma and a space between each two.
fn push_listed(out: &mut Vec<char>, list: &Vec<String>)
    ensures
        final(out)@ == old(out)@ + listed(list@),
{
    let mut words: Vec<Vec<char>> = Vec::new();
    let mut i: usize = 0;
    while i < list.len()
        invariant
            i <= list.len(),
            texts(words@) == phrases(list@.subrange(0, i as int)),
        decreases list.len() - i,
    {
        let ghost before = texts(words@);
        words.push(to_chars(list[i].as_str()));
        assert(texts(words@) =~= before.push(list@[i as int]@));
        assert(phrases(list@.subrange(0, i + 1)) =~= phrases(list@.subrange(0, i as int)).push(
            list@[i as int]@,
        ));
        i += 1;
    }
    assert(list@.subrange(0, list.len() as int) =~= list@);
    let joined: Vec<char> = join(&words, &to_chars(", "));
    append_chars(out, &joined);
}

/// The answer to `command`, which the vocabulary `config` does not hold.
pub fn unknown_command_message(config: &CommandConfig, command: &str) -> (text: String)
    ensures
        text@ == unknown_command_spec(*config, command@),
{
    let mut out: Vec<char> = Vec::new();
    push_str(&mut out, "Unknown command: '");
    push_str(&mut out, command);
    push_str(&mut out, "'. Available commands:\n- Start: ");
    push_listed(&mut out, &config.start_commands);
    push_str(&mut out, "\n- Stop: ");
    push_listed(&mut out, &config.stop_commands);
    push_str(&mut out, "\n- Status: ");
    push_listed(&mut out, &config.status_commands);
    push_str(&mut out, "\n- Toggle: ");
    push_listed(&mut out, &config.toggle_commands);
    assert(out@ =~= unknown_command_spec(*config, command@));
    from_chars(&out)
}

/// The answer that reports a failure.
pub open spec fn error_reply_spec(error: VoiceError) -> Seq<char> {
    "Error: "@ + error.message_spec()
}

/// The answer that reports the failure `error`.
pub fn error_reply(error: &VoiceError) -> (text: String)
    ensures
        text@ == error_reply_spec(*error),
{
    let mut out: Vec<char> = Vec::new();
    push_str(&mut out, "Error: ");
    let message: String = error.message();
    push_str(&mut out, message.as_str());
    from_chars(&out)
}

/// The limits of a session that a request begins.
pub open spec fn limits(request: ListenRequest) -> (u64, u64) {
    (
        match request.timeout_ms {
            Some(ms) => ms,
            None => DEFAULT_TIMEOUT_MS,
        },
        match request.silence_timeout_ms {
            Some(ms) => ms,
            None => DEFAULT_SILENCE_TIMEOUT_MS,
        },
    )
}

/// Whether a session that `command` begins for `request` is to end by
/// itself: the request says so, or leaves it open and the command is a start.
pub open spec fn asks_auto_stop(request: ListenRequest, command: CommandType) -> bool {
    match request.auto_stop {
        Some(auto) => auto,
        None => command == CommandType::Start,
    }
}

/// Whether the service listens for spoken commands once `request` has been
/// taken in.
pub open spec fn enabled_after(request: ListenRequest, before: bool) -> bool {
    match request.enable_voice_commands {
        Some(enabled) => enabled,
        None => before,
    }
}

/// The recording control behind the tool interface: the service and the
/// vocabulary of the `listen` tool.
pub struct VoiceToTextMcpServer<S> {
    service: VoiceToTextService<S>,
    command_config: CommandConfig,
}

impl<S: Copy> VoiceToTextMcpServer<S> {
    /// The service behind the interface.
    pub closed spec fn service_spec(&self) -> VoiceToTextService<S> {
        self.service
    }

    /// The vocabulary of the `listen` tool.
    pub closed spec fn vocabulary(&self) -> CommandConfig {
        self.command_config
    }

    /// A server for `service` with the built-in vocabulary.
    pub fn new(service: VoiceToTextService<S>) -> (server: Self)
        ensures
            server.service_spec() == service,
            server.vocabulary().is_builtin(),
    {
        Self::new_with_config(service, CommandConfig::default())
    }

    /// A server for `service` with the vocabulary `command_config`.
    pub fn new_with_config(service: VoiceToTextService<S>, command_config: CommandConfig) -> (server:
        Self)
        ensures
            server.service_spec() == service,
            server.vocabulary() == command_config,
    {
        VoiceToTextMcpServer { service, command_config }
    }

    /// The service behind the interface.
    pub fn service(&self) -> (service: &VoiceToTextService<S>)
        ensures
            *service == self.service_spec(),
    {
        &self.service
    }

    /// The service behind the interface, for the capture callback and the
    /// periodic checks.
    pub fn service_mut(&mut self) -> (service: &mut VoiceToTextService<S>)
        ensures
            *service == old(self).service_spec(),
            *final(service) == final(self).service_spec(),
            final(self).vocabulary() == old(self).vocabulary(),
    {
        &mut self.service
    }

    /// Takes in a `listen` request. The request's switch for spoken commands
    /// is applied first. Then the command is looked up in the vocabulary: a
    /// start begins a session, a stop ends one, a toggle does the one or the
    /// other, a status request is answered from the state, and anything else
    /// is answered with the list of commands. A start while recording and a
    /// stop while idle are answered with the failure and change nothing.
    pub fn listen(&mut self, request: &ListenRequest) -> (outcome: ListenOutcome<S>)
        ensures
            final(self).vocabulary() == old(self).vocabulary(),
            final(self).service_spec().voice_config() == (VoiceCommandConfig {
                enabled: enabled_after(*request, old(self).service_spec().voice_config().enabled),
                ..old(self).service_spec().voice_config()
            }),
            final(self).service_spec().debug_settings() == old(self).service_spec().debug_settings(),
            final(self).service_spec().has_engine() == old(self).service_spec().has_engine(),
            final(self).service_spec()@ == Self::spec_state_after(
                old(self).vocabulary().spec_match_command(command_text(*request)),
                old(self).service_spec()@.with_commands_enabled(
                    enabled_after(*request, old(self).service_spec().voice_config().enabled),
                ),
            ),
            Self::answers(
                outcome,
                old(self).vocabulary(),
                *request,
                old(self).service_spec()@,
                enabled_after(*request, old(self).service_spec().voice_config().enabled),
                old(self).service_spec().has_engine(),
            ),
    {
        if let Some(enabled) = request.enable_voice_commands {
            self.service.set_voice_commands_enabled(enabled);
        }
        let empty: String = String::new();
        let text: &str = match &request.command {
            Some(text) => text.as_str(),
            None => empty.as_str(),
        };
        let timeout_ms: u64 = match request.timeout_ms {
            Some(ms) => ms,
            None => DEFAULT_TIMEOUT_MS,
        };
        let silence_timeout_ms: u64 = match request.silence_timeout_ms {
            Some(ms) => ms,
            None => DEFAULT_SILENCE_TIMEOUT_MS,
        };
        match self.command_config.match_command(text) {
            None => ListenOutcome::Reply(unknown_command_message(&self.command_config, text)),
            Some(CommandType::Status) => ListenOutcome::Reply(
                status_line(
                    self.service.is_recording(),
                    self.service.get_audio_sample_count(),
                    self.service.is_voice_commands_enabled(),
                ),
            ),
            Some(CommandType::Stop) => self.end_session(),
            Some(CommandType::Start) => {
                let auto: bool = match request.auto_stop {
                    Some(auto) => auto,
                    None => true,
                };
                self.begin_session(timeout_ms, silence_timeout_ms, auto)
            },
            Some(CommandType::Toggle) => {
                if self.service.is_recording() {
                    self.end_session()
                } else {
                    let auto: bool = match request.auto_stop {
                        Some(auto) => auto,
                        None => false,
                    };
                    self.begin_session(timeout_ms, silence_timeout_ms, auto)
                }
            },
        }
    }

    /// Ends the session for a request.
    fn end_session(&mut self) -> (outcome: ListenOutcome<S>)
        ensures
            final(self).vocabulary() == old(self).vocabulary(),
            old(self).service_spec().same_settings(&final(self).service_spec()),
            old(self).service_spec()@.recording ==> final(self).service_spec()@ == old(
                self,
            ).service_spec()@.stopped() && outcome is Transcribe && outcome->Transcribe_0@ == old(
                self,
            ).service_spec()@.samples,
            !old(self).service_spec()@.recording ==> final(self).service_spec()@ == old(
                self,
            ).service_spec()@ && outcome is Reply && outcome->Reply_0@ == error_reply_spec(
                VoiceError::NotRecording,
            ),
    {
        match self.service.stop_listening() {
            Ok(samples) => ListenOutcome::Transcribe(samples),
            Err(e) => ListenOutcome::Reply(error_reply(&e)),
        }
    }

    /// Begins a session for a request.
    fn begin_session(&mut self, timeout_ms: u64, silence_timeout_ms: u64, auto_stop: bool) -> (outcome:
        ListenOutcome<S>)
        ensures
            final(self).vocabulary() == old(self).vocabulary(),
            old(self).service_spec().same_settings(&final(self).service_spec()),
            old(self).service_spec()@.recording ==> final(self).service_spec()@ == old(
                self,
            ).service_spec()@ && outcome is Reply && outcome->Reply_0@ == error_reply_spec(
                VoiceError::AlreadyRecording,
            ),
            !old(self).service_spec()@.recording ==> final(self).service_spec()@ == old(
                self,
            ).service_spec()@.started(),
            !old(self).service_spec()@.recording && auto_stop && old(
                self,
            ).service_spec().has_engine() ==> outcome is Monitor && outcome->Monitor_timeout_ms
                == timeout_ms && outcome->Monitor_silence_timeout_ms == silence_timeout_ms,
            !old(self).service_spec()@.recording && !(auto_stop && old(
                self,
            ).service_spec().has_engine()) ==> outcome is Started && outcome->Started_0@
                == start_message(old(self).service_spec().voice_config().enabled),
    {
        match self.service.start_listening_with_options(timeout_ms, silence_timeout_ms, auto_stop) {
            Ok(SessionStart::Monitored { timeout_ms, silence_timeout_ms }) => ListenOutcome::Monitor {
                timeout_ms,
                silence_timeout_ms,
            },
            Ok(SessionStart::Announced(message)) => ListenOutcome::Started(message),
            Err(e) => ListenOutcome::Reply(error_reply(&e)),
        }
    }

    /// The session state after a request whose command was looked up as
    /// `command`.
    pub open spec fn spec_state_after(command: Option<CommandType>, before: SessionState<S>) -> SessionState<
        S,
    > {
        match command {
            Some(c) => if VoiceToTextService::<S>::begins(c, before.recording) {
                before.started()
            } else if VoiceToTextService::<S>::ends(c, before.recording) {
                before.stopped()
            } else {
                before
            },
            None => before,
        }
    }

    /// Whether `outcome` is the right one for `request` in the state
    /// `before`, with `enabled` saying whether spoken commands are listened
    /// for once the request's switch has been applied, and `engine` whether
    /// a transcription engine is at hand. A session that begins is watched
    /// by the auto-stop monitor where the request asks for it and an engine
    /// is at hand.
    pub open spec fn answers(
        outcome: ListenOutcome<S>,
        vocabulary: CommandConfig,
        request: ListenRequest,
        before: SessionState<S>,
        enabled: bool,
        engine: bool,
    ) -> bool {
        match vocabulary.spec_match_command(command_text(request)) {
            None => outcome matches ListenOutcome::Reply(text) && text@ == unknown_command_spec(
                vocabulary,
                command_text(request),
            ),
            Some(CommandType::Status) => outcome matches ListenOutcome::Reply(text) && text@
                == status_line_spec(before.recording, before.samples.len() as usize, enabled),
            Some(c) => if VoiceToTextService::<S>::begins(c, before.recording) {
                if asks_auto_stop(request, c) && engine {
                    outcome matches ListenOutcome::Monitor { timeout_ms, silence_timeout_ms }
                        && (timeout_ms, silence_timeout_ms) == limits(request)
                } else {
                    outcome matches ListenOutcome::Started(text) && text@ == start_message(enabled)
                }
            } else if VoiceToTextService::<S>::ends(c, before.recording) {
                outcome matches ListenOutcome::Transcribe(samples) && samples@ == before.samples
            } else if c == CommandType::Start {
                outcome matches ListenOutcome::Reply(text) && text@ == error_reply_spec(
                    VoiceError::AlreadyRecording,
                )
            } else {
                outcome matches ListenOutcome::Reply(text) && text@ == error_reply_spec(
                    VoiceError::NotRecording,
                )
            },
        }
    }
}

/// A server for `service` with the built-in vocabulary.
pub fn create_mcp_server<S: Copy>(service: VoiceToTextService<S>) -> (server: VoiceToTextMcpServer<
    S,
>)
    ensures
        server.service_spec() == service,
        server.vocabulary().is_builtin(),
{
    VoiceToTextMcpServer::new(service)
}

} // verus!
