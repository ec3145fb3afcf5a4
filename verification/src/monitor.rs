//! The auto-stop monitor: what to do at each poll of a session that is to
//! end by itself.

use vstd::prelude::*;

verus! {

/// Least number of captured samples with which silence alone ends a session:
/// half a second at the device rate.
pub const MIN_AUTO_STOP_SAMPLES: usize = 22050;

/// What the monitor asks for at a poll.
#[derive(Debug, Clone, Copy, PartialEq, Eq, Structural)]
pub enum AutoStopAction {
    /// End the session now.
    Stop,
    /// The session has ended by other means: leave without a transition.
    Quit,
    /// Sleep one poll interval, then poll again.
    Wait,
}

/// Milliseconds from `since` to `now` on a clock that never runs backwards;
/// zero where `now` lies before `since`.
pub open spec fn elapsed_ms(now: u64, since: u64) -> int {
    if now >= since {
        now - since
    } else {
        0
    }
}

/// The monitor of one session. Times are milliseconds on the caller's clock.
#[derive(Debug, Clone, Copy, PartialEq, Eq)]
pub struct AutoStopMonitor {
    /// When the session began.
    pub start_ms: u64,
    /// When voice activity was last seen; the session's start before any.
    pub last_activity_ms: u64,
    /// Longest time that the session may last.
    pub timeout_ms: u64,
    /// Longest silence that the session sits through.
    pub silence_timeout_ms: u64,
}

impl AutoStopMonitor {
    /// Whether the silence up to `now_ms` ends the session: it has lasted
    /// longer than the silence limit and the buffer holds half a second of
    /// audio, or it has lasted longer than twice the limit.
    pub open spec fn silence_ends(self, now_ms: u64, buffered: usize) -> bool {
        let silent = elapsed_ms(now_ms, self.last_activity_ms);
        silent > self.silence_timeout_ms && (buffered >= MIN_AUTO_STOP_SAMPLES || silent > 2
            * self.silence_timeout_ms)
    }

    /// The action at a poll. The rules apply in this order: past the overall
    /// limit the session stops; a session that is no longer recording is
    /// left alone; voice activity means waiting; silence that has lasted
    /// long enough stops the session; anything else means waiting.
    pub open spec fn spec_action(
        self,
        now_ms: u64,
        recording: bool,
        active: bool,
        buffered: usize,
    ) -> AutoStopAction {
        if elapsed_ms(now_ms, self.start_ms) > self.timeout_ms {
            AutoStopAction::Stop
        } else if !recording {
            AutoStopAction::Quit
        } else if active {
            AutoStopAction::Wait
        } else if self.silence_ends(now_ms, buffered) {
            AutoStopAction::Stop
        } else {
            AutoStopAction::Wait
        }
    }

    /// The monitor after a poll: voice activity in a session that goes on
    /// moves the time of last activity to `now_ms`; nothing else changes.
    pub open spec fn spec_after(
        self,
        now_ms: u64,
        recording: bool,
        active: bool,
    ) -> AutoStopMonitor {
        if elapsed_ms(now_ms, self.start_ms) <= self.timeout_ms && recording && active {
            AutoStopMonitor { last_activity_ms: now_ms, ..self }
        } else {
            self
        }
    }

    /// The monitor of a session that begins at `now_ms`.
    pub fn new(now_ms: u64, timeout_ms: u64, silence_timeout_ms: u64) -> (monitor: Self)
        ensures
            monitor == (AutoStopMonitor {
                start_ms: now_ms,
                last_activity_ms: now_ms,
                timeout_ms,
                silence_timeout_ms,
            }),
    {
        AutoStopMonitor { start_ms: now_ms, last_activity_ms: now_ms, timeout_ms, silence_timeout_ms }
    }

    /// One poll at time `now_ms`: `recording` says whether the session still
    /// goes on, `active` whether the newest audio holds voice activity, and
    /// `buffered` how many samples the session has captured.
    pub fn step(&mut self, now_ms: u64, recording: bool, active: bool, buffered: usize) -> (action:
        AutoStopAction)
        ensures
            action == old(self).spec_action(now_ms, recording, active, buffered),
            *final(self) == old(self).spec_after(now_ms, recording, active),
            elapsed_ms(now_ms, old(self).start_ms) > old(self).timeout_ms ==> action
                == AutoStopAction::Stop,
            action == AutoStopAction::Quit ==> !recording,
            action == AutoStopAction::Stop && elapsed_ms(now_ms, old(self).start_ms) <= old(
                self,
            ).timeout_ms ==> recording && !active && elapsed_ms(now_ms, old(self).last_activity_ms)
                > old(self).silence_timeout_ms,
    {
        let since_start: u64 = if now_ms >= self.start_ms {
            now_ms - self.start_ms
        } else {
            0
        };
        if since_start > self.timeout_ms {
            return AutoStopAction::Stop;
        }
        if !recording {
            return AutoStopAction::Quit;
        }
        if active {
            self.last_activity_ms = now_ms;
            return AutoStopAction::Wait;
        }
        let silent: u64 = if now_ms >= self.last_activity_ms {
            now_ms - self.last_activity_ms
        } else {
            0
        };
        if silent > self.silence_timeout_ms && (buffered >= MIN_AUTO_STOP_SAMPLES || (
        silent as u128) > 2 * (self.silence_timeout_ms as u128)) {
            AutoStopAction::Stop
        } else {
            AutoStopAction::Wait
        }
    }
}

/// Silence ends a session that holds half a second of audio as soon as it
/// has lasted longer than the limit: at the first poll after that, a
/// recording session without voice activity is stopped.
pub proof fn lemma_silence_with_audio_ends(monitor: AutoStopMonitor, now_ms: u64, buffered: usize)
    requires
        elapsed_ms(now_ms, monitor.last_activity_ms) > monitor.silence_timeout_ms,
        buffered >= MIN_AUTO_STOP_SAMPLES,
    ensures
        monitor.spec_action(now_ms, true, false, buffered) == AutoStopAction::Stop,
{
}

/// Voice activity keeps a session going: within the overall limit a
/// recording session with activity waits, and its silence is counted anew
/// from this poll.
pub proof fn lemma_activity_keeps_going(monitor: AutoStopMonitor, now_ms: u64, buffered: usize)
    requires
        elapsed_ms(now_ms, monitor.start_ms) <= monitor.timeout_ms,
    ensures
        monitor.spec_action(now_ms, true, true, buffered) == AutoStopAction::Wait,
        monitor.spec_after(now_ms, true, true).last_activity_ms == now_ms,
        elapsed_ms(now_ms, monitor.spec_after(now_ms, true, true).last_activity_ms) == 0,
{
}

/// However little audio a session holds, silence ends it: once the silence
/// has lasted longer than twice the limit and the overall limit has not
/// passed, a recording session without voice activity is stopped.
pub proof fn lemma_silence_always_ends(monitor: AutoStopMonitor, now_ms: u64, buffered: usize)
    requires
        elapsed_ms(now_ms, monitor.last_activity_ms) > 2 * monitor.silence_timeout_ms,
    ensures
        monitor.spec_action(now_ms, true, false, buffered) == AutoStopAction::Stop,
{
}

/// A session that has ended by other means is never stopped a second time
/// on account of silence: within the overall limit the monitor quits.
pub proof fn lemma_idle_session_is_left_alone(
    monitor: AutoStopMonitor,
    now_ms: u64,
    active: bool,
    buffered: usize,
)
    requires
        elapsed_ms(now_ms, monitor.start_ms) <= monitor.timeout_ms,
    ensures
        monitor.spec_action(now_ms, false, active, buffered) == AutoStopAction::Quit,
        monitor.spec_after(now_ms, false, active) == monitor,
{
}

} // verus!
