//! The capture-session state machine.
//!
//! Exactly one dictation session may be in flight at a time.  The controller
//! owns the session phase and refuses a start request unless the phase is
//! `Inactive`; committing to `Starting` before any slow work begins is what
//! closes the race window between two rapid start requests.

use vstd::prelude::*;

use crate::text::chars_eq;
use crate::text::str_to_chars;

verus! {

/// A capture-progress command from the frontend, by name.
#[derive(Clone, Copy, Debug, PartialEq, Eq, Structural)]
pub enum StateCommand {
    /// Capture really began.
    Recording,
    /// Capture is winding down.
    Stopping,
    /// The session is over.
    Inactive,
}

/// Which command a frontend state tag names; only the three known tags,
/// verbatim, are accepted.
pub open spec fn spec_parse_state_command(s: Seq<char>) -> Option<StateCommand> {
    if s == "recording"@ {
        Some(StateCommand::Recording)
    } else if s == "stopping"@ {
        Some(StateCommand::Stopping)
    } else if s == "inactive"@ {
        Some(StateCommand::Inactive)
    } else {
        None
    }
}

/// Parse a frontend state tag.
pub fn parse_state_command(s: &str) -> (r: Option<StateCommand>)
    ensures
        r == spec_parse_state_command(s@),
{
    let v = str_to_chars(s);
    if chars_eq(&v, &str_to_chars("recording")) {
        Some(StateCommand::Recording)
    } else if chars_eq(&v, &str_to_chars("stopping")) {
        Some(StateCommand::Stopping)
    } else if chars_eq(&v, &str_to_chars("inactive")) {
        Some(StateCommand::Inactive)
    } else {
        None
    }
}

/// Phase of the capture lifecycle.
#[derive(Clone, Copy, Debug, PartialEq, Eq, Structural)]
pub enum SessionState {
    /// No capture in progress.
    Inactive,
    /// A start request was accepted; microphone and transport are coming up.
    Starting,
    /// Audio is being captured.
    Recording,
    /// Capture ended; the transcript is being finalized and refined.
    Stopping,
}

/// Why a session command was refused.
#[derive(Clone, Copy, Debug, PartialEq, Eq, Structural)]
pub enum SessionError {
    /// A start request arrived while a session was already in flight;
    /// carries the phase that was observed.
    AlreadyActive(SessionState),
    /// The focus probe reported that no target can accept text.
    NoFocusTarget,
}

/// What a start request does to the phase: the request succeeds exactly when
/// the phase is `Inactive`, and then commits the phase to `Starting`.
pub open spec fn start_step(s: SessionState) -> (SessionState, bool) {
    if s is Inactive {
        (SessionState::Starting, true)
    } else {
        (s, false)
    }
}

/// The controller that owns the session phase.
///
/// Callers serialize access to it (the embedding program keeps it behind a
/// lock held only for each call, never across slow work).
pub struct SessionController {
    /// Current phase.
    pub state: SessionState,
    /// When recording began, in caller-supplied milliseconds; `None` outside
    /// a recording.
    pub start_time_ms: Option<u64>,
    /// Identifier of the current (or most recent) session; a completion
    /// result for an older identifier is stale and must be discarded.
    pub session_id: u64,
}

impl SessionController {
    /// A fresh controller: inactive, no timestamp.
    pub fn new() -> (r: SessionController)
        ensures
            r.state is Inactive,
            r.start_time_ms is None,
            r.session_id == 0,
    {
        SessionController { state: SessionState::Inactive, start_time_ms: None, session_id: 0 }
    }

    /// True for any phase except `Inactive`; used to suppress duplicate
    /// hotkey-triggered starts.
    pub fn is_active(&self) -> (r: bool)
        ensures
            r == !(self.state is Inactive),
    {
        !matches!(self.state, SessionState::Inactive)
    }

    /// Ask to begin a capture session.
    ///
    /// Succeeds only from `Inactive`, committing the phase to `Starting`
    /// before any asynchronous work runs.  From any other phase it refuses
    /// with `AlreadyActive` and changes nothing.
    pub fn request_start(&mut self) -> (r: Result<(), SessionError>)
        ensures
            final(self).state == start_step(old(self).state).0,
            r is Ok <==> start_step(old(self).state).1,
            old(self).state is Inactive ==> {
                &&& r == Ok::<(), SessionError>(())
                &&& final(self).state is Starting
                &&& final(self).start_time_ms == old(self).start_time_ms
                &&& final(self).session_id == (if old(self).session_id == u64::MAX {
                    0u64
                } else {
                    (old(self).session_id + 1) as u64
                })
            },
            !(old(self).state is Inactive) ==> {
                &&& r == Err::<(), SessionError>(SessionError::AlreadyActive(old(self).state))
                &&& *final(self) == *old(self)
            },
    {
        match self.state {
            SessionState::Inactive => {
                self.state = SessionState::Starting;
                self.session_id = if self.session_id == u64::MAX {
                    0
                } else {
                    self.session_id + 1
                };
                Ok(())
            },
            s => Err(SessionError::AlreadyActive(s)),
        }
    }

    /// Apply the focus probe's answer to a session that is `Starting`.
    ///
    /// If no target accepts text, the session reverts to `Inactive` and the
    /// call reports `NoFocusTarget`; otherwise the phase stays `Starting`
    /// (recording is advanced separately, once capture really begins).
    pub fn resolve_probe(&mut self, can_accept: bool) -> (r: Result<(), SessionError>)
        requires
            old(self).state is Starting,
        ensures
            can_accept ==> r == Ok::<(), SessionError>(()) && *final(self) == *old(self),
            !can_accept ==> {
                &&& r == Err::<(), SessionError>(SessionError::NoFocusTarget)
                &&& final(self).state is Inactive
                &&& final(self).start_time_ms == old(self).start_time_ms
                &&& final(self).session_id == old(self).session_id
            },
    {
        if can_accept {
            Ok(())
        } else {
            self.state = SessionState::Inactive;
            Err(SessionError::NoFocusTarget)
        }
    }

    /// Advisory notice that capture really began.
    ///
    /// From `Starting` it records the timestamp and moves to `Recording`;
    /// from any other phase it changes nothing and reports `false`
    /// (duplicate notices are accepted silently rather than failed).
    pub fn notify_recording(&mut self, now_ms: u64) -> (applied: bool)
        ensures
            applied == old(self).state is Starting,
            old(self).state is Starting ==> {
                &&& final(self).state is Recording
                &&& final(self).start_time_ms == Some(now_ms)
                &&& final(self).session_id == old(self).session_id
            },
            !(old(self).state is Starting) ==> *final(self) == *old(self),
    {
        match self.state {
            SessionState::Starting => {
                self.state = SessionState::Recording;
                self.start_time_ms = Some(now_ms);
                true
            },
            _ => false,
        }
    }

    /// Ask to end capture.
    ///
    /// From `Recording` or `Starting` the phase moves to `Stopping` (the
    /// visual indicator is hidden at once by the caller; refinement follows);
    /// from any other phase nothing changes and the call reports `false`.
    pub fn request_stop(&mut self) -> (applied: bool)
        ensures
            applied == (old(self).state is Recording || old(self).state is Starting),
            applied ==> {
                &&& final(self).state is Stopping
                &&& final(self).start_time_ms == old(self).start_time_ms
                &&& final(self).session_id == old(self).session_id
            },
            !applied ==> *final(self) == *old(self),
    {
        match self.state {
            SessionState::Recording | SessionState::Starting => {
                self.state = SessionState::Stopping;
                true
            },
            _ => false,
        }
    }

    /// Unconditional reset: from any phase the controller returns to
    /// `Inactive` with no timestamp.  This is the recovery hatch when an
    /// earlier transition was missed.
    pub fn notify_complete(&mut self)
        ensures
            final(self).state is Inactive,
            final(self).start_time_ms is None,
            final(self).session_id == old(self).session_id,
    {
        self.state = SessionState::Inactive;
        self.start_time_ms = None;
    }

    /// Apply a frontend state tag: "recording", "stopping" and "inactive"
    /// drive the advisory transitions; an unknown tag is refused and changes
    /// nothing.  `Ok` carries whether the transition applied.
    pub fn set_recording_active(&mut self, new_state: &str, now_ms: u64) -> (r: Result<bool, ()>)
        ensures
            ({
                let cmd = spec_parse_state_command(new_state@);
                match cmd {
                    None => r == Err::<bool, ()>(()) && *final(self) == *old(self),
                    Some(StateCommand::Recording) => {
                        &&& r == Ok::<bool, ()>(old(self).state is Starting)
                        &&& (old(self).state is Starting ==> {
                            &&& final(self).state is Recording
                            &&& final(self).start_time_ms == Some(now_ms)
                            &&& final(self).session_id == old(self).session_id
                        })
                        &&& (!(old(self).state is Starting) ==> *final(self) == *old(self))
                    },
                    Some(StateCommand::Stopping) => {
                        &&& r == Ok::<bool, ()>(
                            old(self).state is Recording || old(self).state is Starting,
                        )
                        &&& ((old(self).state is Recording || old(self).state is Starting) ==> {
                            &&& final(self).state is Stopping
                            &&& final(self).start_time_ms == old(self).start_time_ms
                            &&& final(self).session_id == old(self).session_id
                        })
                        &&& (!(old(self).state is Recording || old(self).state is Starting)
                            ==> *final(self) == *old(self))
                    },
                    Some(StateCommand::Inactive) => {
                        &&& r == Ok::<bool, ()>(true)
                        &&& final(self).state is Inactive
                        &&& final(self).start_time_ms is None
                        &&& final(self).session_id == old(self).session_id
                    },
                }
            }),
    {
        match parse_state_command(new_state) {
            Some(StateCommand::Recording) => Ok(self.notify_recording(now_ms)),
            Some(StateCommand::Stopping) => Ok(self.request_stop()),
            Some(StateCommand::Inactive) => {
                self.notify_complete();
                Ok(true)
            },
            None => Err(()),
        }
    }

    /// Identifier of the session currently in flight; a refinement result
    /// produced for an older identifier must be discarded by the caller.
    pub fn current_session(&self) -> (r: u64)
        ensures
            r == self.session_id,
    {
        self.session_id
    }
}

/// How many of `n` start requests, applied one after another (the lock
/// serializes them), succeed from the phase `s`.
pub open spec fn start_successes(s: SessionState, n: int) -> int
    decreases n,
{
    if n <= 0 {
        0
    } else {
        (if start_step(s).1 {
            1int
        } else {
            0int
        }) + start_successes(start_step(s).0, n - 1)
    }
}

/// However many start requests race, at most one succeeds: the one that
/// wins the check-and-set while the phase is `Inactive`.  Every other
/// request observes a non-idle phase and is refused with `AlreadyActive`.
pub proof fn lemma_at_most_one_start_succeeds(s: SessionState, n: int)
    ensures
        start_successes(s, n) <= 1,
    decreases n,
{
    if n > 0 {
        if start_step(s).1 {
            lemma_no_start_succeeds_while_active(start_step(s).0, n - 1);
        } else {
            lemma_at_most_one_start_succeeds(start_step(s).0, n - 1);
        }
    }
}

/// From any phase but `Inactive`, no number of start requests succeeds, and
/// the phase stands still.
pub proof fn lemma_no_start_succeeds_while_active(s: SessionState, n: int)
    requires
        !(s is Inactive),
    ensures
        start_successes(s, n) == 0,
    decreases n,
{
    if n > 0 {
        lemma_no_start_succeeds_while_active(start_step(s).0, n - 1);
    }
}

/// A start request succeeds only when the phase it observed was `Inactive`,
/// so however many requests race, only the one that wins the check-and-set
/// while the phase is `Inactive` succeeds; every other observes a non-idle
/// phase and is refused.
pub proof fn lemma_start_requires_inactive(s: SessionState)
    ensures
        start_step(s).1 <==> s is Inactive,
        start_step(s).1 ==> !(start_step(s).0 is Inactive),
{
}

} // verus!
