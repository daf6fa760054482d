//! The wait-until-done state machine built on repeated status checks.
//!
//! States: `Submitted -> Polling -> {Done | Failed}`. A status check that
//! reports the job unfinished keeps the machine in `Polling`, with exactly
//! one fixed-duration wait before the next check; a check that reports the
//! job done moves to `Done`, carrying the result of that very response; a
//! transport-level failure of any check moves to `Failed` at once — a
//! transient error is fatal, not retried. Completion is monotonic: a
//! terminal state is never left, and no further check is issued from one.
//! Nothing bounds the number of `Polling -> Polling` transitions: a job
//! that never completes is polled indefinitely.
//!
//! The waits and the HTTP requests themselves happen outside this crate:
//! the driving loop issues one check per `issue_check`/`observe` round and
//! performs one fixed-duration wait exactly when `observe` answers
//! `WaitThenCheck`.

use vstd::prelude::*;

use crate::client::decide_status;
use crate::client::spec_status_decision;
use crate::client::JobStatus;
use crate::client::StatusExchange;
use crate::errors::PollError;
use crate::transcript::TranscriptResult;

verus! {

/// The fixed polling interval, in seconds: the duration of the single wait
/// between two consecutive status checks. Not configurable, no backoff, no
/// jitter.
pub const POLL_INTERVAL_SECS: u64 = 5;

/// The state of one polling run.
#[derive(Debug, Clone, PartialEq, Eq)]
pub enum PollerState {
    /// A handle was obtained; no status check has been issued yet.
    Submitted,
    /// A status check has been issued; the job is not known to be finished.
    Polling,
    /// A check reported the job done; its result payload (possibly absent)
    /// is the authoritative result.
    Done { result: Option<TranscriptResult> },
    /// A check failed; the originating error is surfaced.
    Failed { error: PollError },
}

impl PollerState {
    /// `Done` and `Failed` are the terminal states.
    pub open spec fn is_terminal(&self) -> bool {
        match self {
            PollerState::Done { .. } => true,
            PollerState::Failed { .. } => true,
            _ => false,
        }
    }
}

/// What one status check came back with: a snapshot, or the error of a
/// failed check.
#[derive(Debug, Clone, PartialEq, Eq)]
pub enum PollEvent {
    Status { snapshot: JobStatus },
    Fault { error: PollError },
}

/// An event is terminal when it ends the run: a snapshot reporting the job
/// done, or any failure.
pub open spec fn event_is_terminal(e: PollEvent) -> bool {
    match e {
        PollEvent::Status { snapshot } => snapshot.done,
        PollEvent::Fault { .. } => true,
    }
}

/// What the driving loop must do after observing one event.
#[derive(Debug, Clone, Copy, PartialEq, Eq, Structural)]
pub enum PollAction {
    /// Wait once for the fixed polling interval, then issue the next check.
    WaitThenCheck,
    /// The run reached a terminal state; issue no further check and no wait.
    Stop,
}

/// The event one status round trip feeds the machine: the snapshot it
/// decided, or the error it failed with.
pub open spec fn spec_status_event(exchange: StatusExchange) -> PollEvent {
    match spec_status_decision(exchange) {
        Ok(snapshot) => PollEvent::Status { snapshot },
        Err(error) => PollEvent::Fault { error },
    }
}

/// Turns the observable outcome of one status round trip into the event the
/// machine consumes.
pub fn status_event(exchange: StatusExchange) -> (event: PollEvent)
    ensures
        event == spec_status_event(exchange),
{
    match decide_status(exchange) {
        Ok(snapshot) => PollEvent::Status { snapshot },
        Err(error) => PollEvent::Fault { error },
    }
}

/// The transition relation of the machine, seen from after a check was
/// issued: a terminal state absorbs every event; otherwise the event decides
/// the successor.
pub open spec fn spec_step(s: PollerState, e: PollEvent) -> PollerState {
    if s.is_terminal() {
        s
    } else {
        match e {
            PollEvent::Fault { error } => PollerState::Failed { error },
            PollEvent::Status { snapshot } => {
                if snapshot.done {
                    PollerState::Done { result: snapshot.result }
                } else {
                    PollerState::Polling
                }
            },
        }
    }
}

/// The number of fixed-duration waits one observed event costs: one after a
/// non-terminal snapshot, none after a terminal event.
pub open spec fn spec_waits(e: PollEvent) -> nat {
    if event_is_terminal(e) {
        0
    } else {
        1
    }
}

/// The state after observing a whole sequence of check outcomes, starting
/// from `Submitted`.
pub open spec fn spec_run(events: Seq<PollEvent>) -> PollerState
    decreases events.len(),
{
    if events.len() == 0 {
        PollerState::Submitted
    } else {
        spec_step(spec_run(events.drop_last()), events.last())
    }
}

/// The total number of fixed-duration waits a run over `events` performs.
pub open spec fn spec_wait_count(events: Seq<PollEvent>) -> nat
    decreases events.len(),
{
    if events.len() == 0 {
        0
    } else {
        spec_wait_count(events.drop_last()) + spec_waits(events.last())
    }
}

/// The polling state machine. One instance owns the lifecycle of exactly
/// one remote operation.
#[derive(Debug, Clone, PartialEq, Eq)]
pub struct OperationPoller {
    pub state: PollerState,
}

impl OperationPoller {
    /// A fresh poller for a job whose handle was just obtained.
    pub fn new() -> (p: OperationPoller)
        ensures
            p.state == PollerState::Submitted,
    {
        OperationPoller { state: PollerState::Submitted }
    }

    /// Whether the run has reached `Done` or `Failed`.
    pub fn is_finished(&self) -> (b: bool)
        ensures
            b == self.state.is_terminal(),
    {
        match self.state {
            PollerState::Done { .. } => true,
            PollerState::Failed { .. } => true,
            _ => false,
        }
    }

    /// Records that a status check is being issued. The first check moves
    /// `Submitted` to `Polling`; later checks are issued from `Polling` and
    /// stay there. No check may be issued from a terminal state.
    pub fn issue_check(&mut self)
        requires
            !old(self).state.is_terminal(),
        ensures
            final(self).state == PollerState::Polling,
    {
        self.state = PollerState::Polling;
    }

    /// Observes the outcome of the check just issued and answers what the
    /// driving loop must do next: wait once and check again after an
    /// unfinished snapshot, stop after anything terminal. The successor
    /// state is exactly `spec_step` of the event, and the answer is
    /// `WaitThenCheck` exactly when the event costs one wait.
    pub fn observe(&mut self, event: PollEvent) -> (action: PollAction)
        requires
            old(self).state == PollerState::Polling,
        ensures
            final(self).state == spec_step(PollerState::Polling, event),
            action == PollAction::WaitThenCheck <==> spec_waits(event) == 1,
            action == PollAction::Stop <==> final(self).state.is_terminal(),
    {
        match event {
            PollEvent::Fault { error } => {
                self.state = PollerState::Failed { error };
                PollAction::Stop
            },
            PollEvent::Status { snapshot } => {
                if snapshot.done {
                    self.state = PollerState::Done { result: snapshot.result };
                    PollAction::Stop
                } else {
                    self.state = PollerState::Polling;
                    PollAction::WaitThenCheck
                }
            },
        }
    }

    /// Hands out the outcome of a finished run: the (possibly absent)
    /// result after `Done`, the originating error after `Failed`.
    pub fn into_outcome(self) -> (r: Result<Option<TranscriptResult>, PollError>)
        requires
            self.state.is_terminal(),
        ensures
            (match self.state {
                PollerState::Done { result } => r == Ok::<Option<TranscriptResult>, PollError>(
                    result,
                ),
                PollerState::Failed { error } => r == Err::<Option<TranscriptResult>, PollError>(
                    error,
                ),
                _ => false,
            }),
    {
        match self.state {
            PollerState::Done { result } => Ok(result),
            PollerState::Failed { error } => Err(error),
            PollerState::Submitted => vstd::pervasive::unreached(),
            PollerState::Polling => vstd::pervasive::unreached(),
        }
    }
}

/// A terminal state absorbs every further event: once a run is `Done` or
/// `Failed` it stays so — completion is monotonic.
pub proof fn lemma_terminal_is_absorbing(s: PollerState, e: PollEvent)
    requires
        s.is_terminal(),
    ensures
        spec_step(s, e) == s,
{
}

/// As long as every observed event is non-terminal, the run is not over,
/// and each of those events cost exactly one wait.
proof fn lemma_nonterminal_prefix(events: Seq<PollEvent>)
    requires
        forall|i: int| 0 <= i < events.len() ==> !event_is_terminal(#[trigger] events[i]),
    ensures
        !spec_run(events).is_terminal(),
        spec_wait_count(events) == events.len(),
    decreases events.len(),
{
    if events.len() > 0 {
        lemma_nonterminal_prefix(events.drop_last());
    }
}

/// The poller performs exactly one fixed-duration wait between every pair
/// of consecutive non-terminal status checks, and none after the terminal
/// check: a run of `n` checks whose outcomes are non-terminal until a final
/// terminal one performs exactly `n - 1` waits and ends in a terminal
/// state.
pub proof fn lemma_one_wait_between_checks(events: Seq<PollEvent>)
    requires
        events.len() >= 1,
        forall|i: int| 0 <= i < events.len() - 1 ==> !event_is_terminal(#[trigger] events[i]),
        event_is_terminal(events.last()),
    ensures
        spec_wait_count(events) == events.len() - 1,
        spec_run(events).is_terminal(),
{
    lemma_nonterminal_prefix(events.drop_last());
}

} // verus!
