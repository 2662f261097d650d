//! The per-invocation process supervisor.
//!
//! One supervisor coordinates a single child process: it waits on the
//! child's exit, a progress timer, a line of child output on either
//! stream, and the operator's cancel signal, and decides what happens at
//! each of those events. The decisions live here as a pure transition
//! function; the unverified shell owns the actual child handle, performs
//! each returned action, and feeds the next event back in. The child
//! exiting always ends the loop, and a cancel observed before the exit
//! takes precedence over whatever exit status the child then reports.

use vstd::prelude::*;

verus! {

/// How many animation frames the progress indicator cycles through.
pub const FRAME_COUNT: u64 = 6;

/// How a child process ended: whether the status was a success, and the
/// exit code when there was one.
#[derive(Clone, Copy, Debug)]
pub struct ExitInfo {
    pub success: bool,
    pub code: Option<i32>,
}

/// What one supervised invocation resolved to: the exit status, and
/// whether a cancel had been requested before the child exited.
#[derive(Clone, Copy, Debug)]
pub struct SupervisorOutcome {
    pub exit: ExitInfo,
    pub cancelled: bool,
}

/// What came back from forwarding the advisory interrupt to the child.
#[derive(Clone, Copy, Debug)]
pub enum ForwardOutcome {
    /// The signal was delivered.
    Delivered,
    /// The child was already gone; nothing to deliver to.
    NoSuchProcess,
    /// Delivery failed for another reason, with the system's error number.
    Failed(i32),
}

/// One event from the sources the supervisor waits on simultaneously.
#[derive(Clone, Debug)]
pub enum SupervisorEvent {
    /// The child exited; terminal, whatever else is pending.
    ChildExited(ExitInfo),
    /// The progress timer fired.
    Tick,
    /// A line arrived on the child's stderr.
    StderrLine(String),
    /// A line arrived on the child's stdout.
    StdoutLine(String),
    /// The operator asked to cancel; `child_alive` says whether a child
    /// handle still exists to signal.
    CancelSignal { child_alive: bool },
    /// The result of the interrupt the supervisor asked to forward.
    Forwarded(ForwardOutcome),
}

/// What the shell must do next on behalf of the supervisor.
#[derive(Clone, Debug)]
pub enum SupervisorAction {
    /// Re-render the in-progress status line with this frame.
    Render { cancelling: bool, frame: u64 },
    /// Forward one line of child output, then re-render the status line.
    Annotate { line: String, cancelling: bool, frame: u64 },
    /// Send the advisory interrupt (not a hard kill) to the child.
    Forward,
    /// Nothing to do; keep waiting on all sources.
    Continue,
    /// Clear the status line and resolve with this outcome.
    Finish(SupervisorOutcome),
    /// Clear the status line and abort with this forwarding error.
    Abort { errno: i32 },
}

/// The supervisor's state between events: the animation frame, whether a
/// cancel is pending, and whether the invocation has resolved.
#[derive(Clone, Copy, Debug, PartialEq, Eq, Structural)]
pub struct Supervisor {
    pub frame: u64,
    pub cancel: bool,
    pub done: bool,
}

/// The whole state machine: what each event does to the state, and what
/// the shell is told to do.
pub open spec fn transition(s: Supervisor, e: SupervisorEvent) -> (Supervisor, SupervisorAction) {
    match e {
        SupervisorEvent::ChildExited(x) => (
            (Supervisor { done: true, ..s }),
            SupervisorAction::Finish(SupervisorOutcome { exit: x, cancelled: s.cancel }),
        ),
        SupervisorEvent::Tick => {
            let f = if s.frame < FRAME_COUNT - 1 {
                (s.frame + 1) as u64
            } else {
                0u64
            };
            ((Supervisor { frame: f, ..s }), SupervisorAction::Render { cancelling: s.cancel, frame: f })
        },
        SupervisorEvent::StderrLine(line) => (
            s,
            SupervisorAction::Annotate { line, cancelling: s.cancel, frame: s.frame },
        ),
        SupervisorEvent::StdoutLine(line) => (
            s,
            SupervisorAction::Annotate { line, cancelling: s.cancel, frame: s.frame },
        ),
        SupervisorEvent::CancelSignal { child_alive } => {
            if child_alive {
                ((Supervisor { cancel: true, ..s }), SupervisorAction::Forward)
            } else {
                (s, SupervisorAction::Continue)
            }
        },
        SupervisorEvent::Forwarded(f) => match f {
            ForwardOutcome::Delivered => (s, SupervisorAction::Continue),
            ForwardOutcome::NoSuchProcess => (s, SupervisorAction::Continue),
            ForwardOutcome::Failed(errno) => (
                (Supervisor { done: true, ..s }),
                SupervisorAction::Abort { errno },
            ),
        },
    }
}

impl Supervisor {
    /// A supervisor for a freshly spawned child: first frame, no cancel
    /// pending.
    pub fn new() -> (r: Self)
        ensures
            r == (Supervisor { frame: 0, cancel: false, done: false }),
    {
        Supervisor { frame: 0, cancel: false, done: false }
    }

    /// Feed one observed event in; returns what to do next.
    pub fn step(&mut self, event: SupervisorEvent) -> (a: SupervisorAction)
        requires
            !old(self).done,
        ensures
            (*final(self), a) == transition(*old(self), event),
    {
        match event {
            SupervisorEvent::ChildExited(x) => {
                self.done = true;
                SupervisorAction::Finish(SupervisorOutcome { exit: x, cancelled: self.cancel })
            },
            SupervisorEvent::Tick => {
                let f: u64 = if self.frame < FRAME_COUNT - 1 {
                    self.frame + 1
                } else {
                    0
                };
                self.frame = f;
                SupervisorAction::Render { cancelling: self.cancel, frame: f }
            },
            SupervisorEvent::StderrLine(line) => SupervisorAction::Annotate {
                line,
                cancelling: self.cancel,
                frame: self.frame,
            },
            SupervisorEvent::StdoutLine(line) => SupervisorAction::Annotate {
                line,
                cancelling: self.cancel,
                frame: self.frame,
            },
            SupervisorEvent::CancelSignal { child_alive } => {
                if child_alive {
                    self.cancel = true;
                    SupervisorAction::Forward
                } else {
                    SupervisorAction::Continue
                }
            },
            SupervisorEvent::Forwarded(f) => match f {
                ForwardOutcome::Delivered => SupervisorAction::Continue,
                ForwardOutcome::NoSuchProcess => SupervisorAction::Continue,
                ForwardOutcome::Failed(errno) => {
                    self.done = true;
                    SupervisorAction::Abort { errno }
                },
            },
        }
    }
}

/// Law: a cancel observed before the child's exit always resolves the
/// invocation as cancelled, whatever the exit status says — success and
/// ordinary failure alike.
pub proof fn lemma_cancel_precedence(s: Supervisor, x: ExitInfo)
    ensures
        s.cancel ==> transition(s, SupervisorEvent::ChildExited(x)).1 == SupervisorAction::Finish(
            SupervisorOutcome { exit: x, cancelled: true },
        ),
{
}

/// Law: the child exiting ends the loop unconditionally, and the outcome
/// carries that exit status and exactly the pending cancel flag.
pub proof fn lemma_exit_terminal(s: Supervisor, x: ExitInfo)
    ensures
        transition(s, SupervisorEvent::ChildExited(x)).0.done,
        transition(s, SupervisorEvent::ChildExited(x)).1 == SupervisorAction::Finish(
            SupervisorOutcome { exit: x, cancelled: s.cancel },
        ),
{
}

/// Law: a second cancel while one is pending changes nothing in the
/// state; forwarding the interrupt again is the only effect.
pub proof fn lemma_cancel_idempotent(s: Supervisor)
    ensures
        s.cancel ==> transition(s, SupervisorEvent::CancelSignal { child_alive: true }).0 == s,
        s.cancel ==> transition(s, SupervisorEvent::CancelSignal { child_alive: true }).1
            == SupervisorAction::Forward,
{
}

/// Law: a pending cancel does not stop the loop from servicing its
/// sources: late output lines are still forwarded (now marked as
/// cancelling), and the timer keeps the status line alive, until the
/// child actually exits.
pub proof fn lemma_drains_after_cancel(s: Supervisor, line: String)
    ensures
        s.cancel ==> transition(s, SupervisorEvent::StderrLine(line)).1 == (
        SupervisorAction::Annotate { line, cancelling: true, frame: s.frame }),
        s.cancel ==> transition(s, SupervisorEvent::StderrLine(line)).0 == s,
{
}

/// Law: a cancel when no child handle exists any more is ignored: the
/// state keeps its pending flag and the loop just continues.
pub proof fn lemma_cancel_after_exit_ignored(s: Supervisor)
    ensures
        transition(s, SupervisorEvent::CancelSignal { child_alive: false }).0 == s,
        transition(s, SupervisorEvent::CancelSignal { child_alive: false }).1
            == SupervisorAction::Continue,
{
}

} // verus!
