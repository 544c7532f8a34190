//! Windows: waiting for one child with a one-shot kernel wait registration.
//!
//! A process handle becomes signaled when the process exits. The waiter polls
//! the handle once; if the child still runs, it asks the kernel to fire a
//! callback when the handle is signaled, and suspends the task on a
//! completion channel whose sender travels with the registration. The
//! registration token and the lent sender are the delicate part: whatever
//! way a wait ends, both are back before it ends.

use vstd::prelude::*;
use crate::error::WaitError;
use crate::status::ExitStatus;
use crate::step::{Pipes, Step, Terminate};

verus! {

/// The poll result that says the handle is signaled.
pub const WAIT_OBJECT_0: u32 = 0;

/// The poll result that says the time ran out with the handle not signaled.
pub const WAIT_TIMEOUT: u32 = 258;

/// What a poll of the process handle means.
#[derive(Clone, Copy, Debug, PartialEq, Eq, Structural)]
pub enum Finding {
    /// The handle is signaled: the process has exited.
    Signaled,
    /// The handle is not signaled: the process still runs.
    Running,
    /// The poll itself failed.
    Failed,
}

/// The meaning of a poll result.
pub open spec fn poll_finding(outcome: u32) -> Finding {
    if outcome == WAIT_OBJECT_0 {
        Finding::Signaled
    } else if outcome == WAIT_TIMEOUT {
        Finding::Running
    } else {
        Finding::Failed
    }
}

/// Reads a poll result.
pub fn classify_poll(outcome: u32) -> (finding: Finding)
    ensures
        finding == poll_finding(outcome),
{
    if outcome == WAIT_OBJECT_0 {
        Finding::Signaled
    } else if outcome == WAIT_TIMEOUT {
        Finding::Running
    } else {
        Finding::Failed
    }
}

/// What a waiter may ask of its host.
#[derive(Clone, Copy, Debug, PartialEq, Eq, Structural)]
pub enum Request {
    /// Drop the writing end of the child's standard input; answer with
    /// [`Reply::StdinClosed`].
    CloseStdin,
    /// Ask, with a timeout of zero, whether the process handle is signaled;
    /// answer with [`Reply::Polled`].
    Poll,
    /// Fetch the exit code of the process; answer with [`Reply::ExitCode`].
    ExitCode,
    /// Make a completion channel and register a one-shot kernel wait on the
    /// process handle whose callback sends on it, lending the sender to the
    /// registration; answer with [`Reply::Registered`].
    Register,
    /// Take back the sender that a refused registration never delivered;
    /// answer with [`Reply::Reclaimed`].
    Reclaim,
    /// Suspend the calling task on the receiving end of the completion
    /// channel; answer with [`Reply::Completed`], or with
    /// [`Reply::ChannelClosed`] if the sender is gone and nothing was sent.
    AwaitCompletion,
    /// Unregister the kernel wait, waiting for a callback in flight to
    /// finish, and release the completion channel with it; answer with
    /// [`Reply::Unregistered`].
    Unregister,
}

/// What the host reports back.
#[derive(Clone, Copy, Debug, PartialEq, Eq, Structural)]
pub enum Reply {
    /// Standard input is closed.
    StdinClosed,
    /// The poll returned `outcome`; `os_error` is the host's error code,
    /// which means something only if the poll failed.
    Polled { outcome: u32, os_error: i32 },
    /// The fetch returned `rc`, zero for failure, and wrote `code`;
    /// `os_error` means something only after a failure.
    ExitCode { rc: i32, code: u32, os_error: i32 },
    /// The registration returned `rc`, zero for failure; `os_error` means
    /// something only after a failure.
    Registered { rc: i32, os_error: i32 },
    /// The sender is back in the waiter's hands.
    Reclaimed,
    /// The callback fired and sent the completion.
    Completed,
    /// The completion channel lost its sender before anything was sent.
    ChannelClosed,
    /// The registration and the completion channel are released.
    Unregistered,
}

/// How far a wait has come.
#[derive(Clone, Copy, Debug, PartialEq, Eq, Structural)]
pub enum Phase {
    /// No wait is in flight.
    Idle,
    /// The host was asked to close standard input.
    Closing,
    /// The host was asked to poll the handle; `again` tells the poll after
    /// a registration has fired from the one before registering.
    Polling { again: bool },
    /// The host was asked to fetch the exit code.
    Fetching { again: bool },
    /// The host was asked to register; the sender is lent.
    Registering,
    /// The registration was refused with `os_error`, and the host was asked
    /// to take the sender back.
    Reclaiming { os_error: i32 },
    /// The registration is live and the task is suspended.
    Parked,
    /// The task was resumed, and the host was asked to release the
    /// registration; `closed` tells that the channel ran dry.
    Unregistering { closed: bool },
}

/// Everything a waiter knows about its child.
#[derive(Clone, Copy, Debug, PartialEq, Eq)]
pub struct State {
    /// The process id the host assigned.
    pub pid: u32,
    /// The pipe endpoints still held.
    pub pipes: Pipes,
    /// The exit status, once it was observed.
    pub status: Option<ExitStatus>,
    /// The wait in flight, if any.
    pub phase: Phase,
}

/// One turn of a status check.
pub type TryStep = Step<Request, Option<ExitStatus>>;

/// One turn of a wait.
pub type WaitStep = Step<Request, ExitStatus>;

impl Phase {
    /// Whether a kernel registration is live.
    pub open spec fn registered(self) -> bool {
        self is Parked || self is Unregistering
    }

    /// Whether the sender of the completion channel is out of the waiter's
    /// hands.
    pub open spec fn sender_lent(self) -> bool {
        self is Registering || self is Reclaiming || self is Parked || self is Unregistering
    }

    /// The request that a wait in this phase is waiting to have answered.
    pub open spec fn pending(self) -> Request
        recommends
            self != Phase::Idle,
    {
        match self {
            Phase::Polling { .. } => Request::Poll,
            Phase::Fetching { .. } => Request::ExitCode,
            Phase::Registering => Request::Register,
            Phase::Reclaiming { .. } => Request::Reclaim,
            Phase::Parked => Request::AwaitCompletion,
            Phase::Unregistering { .. } => Request::Unregister,
            _ => Request::CloseStdin,
        }
    }

    /// Whether `reply` is an answer to the request pending in this phase.
    pub open spec fn answered_by(self, reply: Reply) -> bool {
        match self {
            Phase::Idle => false,
            Phase::Closing => reply == Reply::StdinClosed,
            Phase::Polling { .. } => reply is Polled,
            Phase::Fetching { .. } => reply is ExitCode,
            Phase::Registering => reply is Registered,
            Phase::Reclaiming { .. } => reply == Reply::Reclaimed,
            Phase::Parked => reply == Reply::Completed || reply == Reply::ChannelClosed,
            Phase::Unregistering { .. } => reply == Reply::Unregistered,
        }
    }
}

impl State {
    /// A wait in flight has let go of standard input.
    pub open spec fn wf(self) -> bool {
        self.phase != Phase::Idle ==> !self.pipes.stdin
    }

    /// A child fresh from the spawn.
    pub open spec fn spawned(pid: u32, pipes: Pipes) -> State {
        State { pid, pipes, status: None, phase: Phase::Idle }
    }

    /// This state with another phase.
    pub open spec fn at(self, phase: Phase) -> State {
        State { phase, ..self }
    }

    /// This state once the status has been observed.
    pub open spec fn reaped(self, status: ExitStatus) -> State {
        State { status: Some(status), ..self }
    }

    /// This state once the reading ends of standard output and standard
    /// error have been handed over.
    pub open spec fn without_output(self) -> State {
        State { pipes: Pipes { stdout: false, stderr: false, ..self.pipes }, ..self }
    }

    /// The start of a status check: answer from memory if the status is
    /// known, else poll.
    pub open spec fn try_wait(self) -> (State, TryStep) {
        match self.status {
            Some(status) => (self, Step::Done(Ok(Some(status)))),
            None => (self, Step::Ask(Request::Poll)),
        }
    }

    /// A status check goes on with the host's reply. With the status in
    /// memory the reply is not looked at. A signaled handle leads to the
    /// fetch of the exit code. A reply that is neither a poll result nor
    /// an exit code has answered nothing, and the poll is asked for again.
    pub open spec fn try_wait_resume(self, reply: Reply) -> (State, TryStep) {
        match (self.status, reply) {
            (Some(status), _) => (self, Step::Done(Ok(Some(status)))),
            (None, Reply::Polled { outcome, os_error }) => match poll_finding(outcome) {
                Finding::Signaled => (self, Step::Ask(Request::ExitCode)),
                Finding::Running => (self, Step::Done(Ok(None))),
                Finding::Failed => (self, Step::Done(Err(WaitError::Os(os_error)))),
            },
            (None, Reply::ExitCode { rc, code, os_error }) => if rc == 0 {
                (self, Step::Done(Err(WaitError::Os(os_error))))
            } else {
                (
                    self.reaped(ExitStatus::Windows(code)),
                    Step::Done(Ok(Some(ExitStatus::Windows(code)))),
                )
            },
            (None, _) => (self, Step::Ask(Request::Poll)),
        }
    }

    /// A turn at which nothing is lent: answer from memory if the status is
    /// known, else poll.
    pub open spec fn recheck(self, again: bool) -> (State, WaitStep) {
        match self.status {
            Some(status) => (self.at(Phase::Idle), Step::Done(Ok(status))),
            None => (self.at(Phase::Polling { again }), Step::Ask(Request::Poll)),
        }
    }

    /// The end of a wait. Whatever way it ends, a status in memory is what
    /// it returns.
    pub open spec fn end(self, result: Result<ExitStatus, WaitError>) -> (State, WaitStep) {
        match self.status {
            Some(status) => (self.at(Phase::Idle), Step::Done(Ok(status))),
            None => (self.at(Phase::Idle), Step::Done(result)),
        }
    }

    /// The release of a live registration, which the completion channel goes
    /// with.
    pub open spec fn release(self, closed: bool) -> (State, WaitStep) {
        (self.at(Phase::Unregistering { closed }), Step::Ask(Request::Unregister))
    }

    /// A wait in flight, with nothing new from the host. With a status in
    /// memory the wait ends where nothing is lent, and a suspended wait goes
    /// on to release its registration. Otherwise the pending request is
    /// asked for again.
    pub open spec fn rejoin(self) -> (State, WaitStep)
        recommends
            self.phase != Phase::Idle,
    {
        match (self.status, self.phase) {
            (Some(status), Phase::Polling { .. }) => (self.at(Phase::Idle), Step::Done(Ok(status))),
            (Some(status), Phase::Fetching { .. }) => (self.at(Phase::Idle), Step::Done(Ok(status))),
            (Some(_), Phase::Parked) => self.release(false),
            _ => (self, Step::Ask(self.phase.pending())),
        }
    }

    /// The start of a wait. Standard input goes first, whatever is known of
    /// the child. A wait already in flight is joined.
    pub open spec fn wait(self) -> (State, WaitStep) {
        if self.phase != Phase::Idle {
            self.rejoin()
        } else if self.pipes.stdin {
            (
                State { pipes: Pipes { stdin: false, ..self.pipes }, phase: Phase::Closing, ..self },
                Step::Ask(Request::CloseStdin),
            )
        } else {
            self.recheck(false)
        }
    }

    /// What a poll result leads to while a wait is polling. A handle that
    /// is not signaled calls for a registration the first time; after a
    /// registration has fired it is a contradiction, and an error.
    pub open spec fn after_poll(self, again: bool, outcome: u32, os_error: i32) -> (
        State,
        WaitStep,
    ) {
        match (self.status, poll_finding(outcome)) {
            (Some(status), _) => (self.at(Phase::Idle), Step::Done(Ok(status))),
            (None, Finding::Signaled) => (
                self.at(Phase::Fetching { again }),
                Step::Ask(Request::ExitCode),
            ),
            (None, Finding::Running) => if again {
                self.end(Err(WaitError::MissingStatus))
            } else {
                (self.at(Phase::Registering), Step::Ask(Request::Register))
            },
            (None, Finding::Failed) => self.end(Err(WaitError::Os(os_error))),
        }
    }

    /// What a fetched exit code leads to.
    pub open spec fn after_fetch(self, rc: i32, code: u32, os_error: i32) -> (State, WaitStep) {
        match self.status {
            Some(status) => (self.at(Phase::Idle), Step::Done(Ok(status))),
            None => if rc == 0 {
                self.end(Err(WaitError::Os(os_error)))
            } else {
                (
                    self.reaped(ExitStatus::Windows(code)).at(Phase::Idle),
                    Step::Done(Ok(ExitStatus::Windows(code))),
                )
            },
        }
    }

    /// What the answer to a registration leads to. A refused registration
    /// never got the sender to the kernel, so it is taken back. An accepted
    /// one suspends the task, unless the status came to be known meanwhile:
    /// then it is released at once.
    pub open spec fn after_register(self, rc: i32, os_error: i32) -> (State, WaitStep) {
        if rc == 0 {
            (self.at(Phase::Reclaiming { os_error }), Step::Ask(Request::Reclaim))
        } else if self.status is Some {
            self.release(false)
        } else {
            (self.at(Phase::Parked), Step::Ask(Request::AwaitCompletion))
        }
    }

    /// What follows the release of the registration: a channel that ran dry
    /// fails the wait; otherwise the handle, which the registration says is
    /// signaled, is polled once more.
    pub open spec fn after_release(self, closed: bool) -> (State, WaitStep) {
        if closed {
            self.end(Err(WaitError::Notification))
        } else {
            self.recheck(true)
        }
    }

    /// A wait goes on with the host's reply.
    ///
    /// With no wait in flight the reply is dropped and a wait starts. A reply
    /// that does not answer the pending request is dropped too. Otherwise
    /// the phase and the reply decide.
    pub open spec fn wait_resume(self, reply: Reply) -> (State, WaitStep) {
        if self.phase == Phase::Idle {
            self.wait()
        } else if !self.phase.answered_by(reply) {
            self.rejoin()
        } else {
            match (self.phase, reply) {
                (Phase::Polling { again }, Reply::Polled { outcome, os_error }) => self.after_poll(
                    again,
                    outcome,
                    os_error,
                ),
                (Phase::Fetching { .. }, Reply::ExitCode { rc, code, os_error }) => self.after_fetch(
                    rc,
                    code,
                    os_error,
                ),
                (Phase::Registering, Reply::Registered { rc, os_error }) => self.after_register(
                    rc,
                    os_error,
                ),
                (Phase::Reclaiming { os_error }, _) => self.end(Err(WaitError::Os(os_error))),
                (Phase::Parked, _) => self.release(reply == Reply::ChannelClosed),
                (Phase::Unregistering { closed }, _) => self.after_release(closed),
                _ => self.recheck(false),
            }
        }
    }
}

/// A spawned child and the state of the wait for it.
#[derive(Debug)]
pub struct Child {
    state: State,
}

impl View for Child {
    type V = State;

    closed spec fn view(&self) -> State {
        self.state
    }
}

impl Child {
    #[verifier::type_invariant]
    spec fn inv(&self) -> bool {
        self.state.wf()
    }

    /// Takes charge of the process that the host spawned as `pid`, with the
    /// pipe endpoints that the parent holds.
    pub fn new(pid: u32, pipes: Pipes) -> (child: Child)
        ensures
            child@ == State::spawned(pid, pipes),
            child@.wf(),
    {
        Child { state: State { pid, pipes, status: None, phase: Phase::Idle } }
    }

    /// The process id the host assigned.
    pub fn id(&self) -> (pid: u32)
        ensures
            pid == self@.pid,
    {
        self.state.pid
    }

    /// The pipe endpoints still held.
    pub fn pipes(&self) -> (pipes: Pipes)
        ensures
            pipes == self@.pipes,
    {
        self.state.pipes
    }

    /// The exit status, if it has been observed.
    pub fn status(&self) -> (status: Option<ExitStatus>)
        ensures
            status == self@.status,
    {
        self.state.status
    }

    /// Hands over the reading ends of standard output and standard error:
    /// the call says which were held, and none is held after it.
    pub fn take_output(&mut self) -> (held: Pipes)
        ensures
            held == old(self)@.pipes,
            final(self)@ == old(self)@.without_output(),
            final(self)@.wf(),
    {
        proof {
            use_type_invariant(&*self);
        }
        let held = self.state.pipes;
        self.state = State {
            pipes: Pipes { stdout: false, stderr: false, ..self.state.pipes },
            ..self.state
        };
        held
    }

    /// The request to end the child by force. Asking for it changes nothing
    /// here: a wait in flight stays where it is, and learns of the exit the
    /// way it learns of any other.
    pub fn kill(&mut self) -> (request: Terminate)
        ensures
            request.pid == old(self)@.pid,
            final(self)@ == old(self)@,
            final(self)@.wf(),
    {
        proof {
            use_type_invariant(&*self);
        }
        Terminate { pid: self.state.pid }
    }

    fn pending(&self) -> (request: Request)
        ensures
            request == self@.phase.pending(),
    {
        match self.state.phase {
            Phase::Polling { .. } => Request::Poll,
            Phase::Fetching { .. } => Request::ExitCode,
            Phase::Registering => Request::Register,
            Phase::Reclaiming { .. } => Request::Reclaim,
            Phase::Parked => Request::AwaitCompletion,
            Phase::Unregistering { .. } => Request::Unregister,
            _ => Request::CloseStdin,
        }
    }

    fn finish(&mut self, status: ExitStatus) -> (step: WaitStep)
        ensures
            final(self)@ == old(self)@.at(Phase::Idle),
            step == WaitStep::Done(Ok(status)),
    {
        self.state = State { phase: Phase::Idle, ..self.state };
        Step::Done(Ok(status))
    }

    fn end(&mut self, result: Result<ExitStatus, WaitError>) -> (step: WaitStep)
        ensures
            (final(self)@, step) == old(self)@.end(result),
    {
        match self.state.status {
            Some(status) => self.finish(status),
            None => {
                self.state = State { phase: Phase::Idle, ..self.state };
                Step::Done(result)
            },
        }
    }

    fn release(&mut self, closed: bool) -> (step: WaitStep)
        requires
            !old(self)@.pipes.stdin,
        ensures
            (final(self)@, step) == old(self)@.release(closed),
    {
        self.ask(Phase::Unregistering { closed }, Request::Unregister)
    }

    fn ask(&mut self, phase: Phase, request: Request) -> (step: WaitStep)
        requires
            !old(self)@.pipes.stdin,
        ensures
            final(self)@ == old(self)@.at(phase),
            step == WaitStep::Ask(request),
    {
        self.state = State { phase, ..self.state };
        Step::Ask(request)
    }

    fn recheck(&mut self, again: bool) -> (step: WaitStep)
        requires
            !old(self)@.pipes.stdin,
        ensures
            (final(self)@, step) == old(self)@.recheck(again),
    {
        match self.state.status {
            Some(status) => self.finish(status),
            None => self.ask(Phase::Polling { again }, Request::Poll),
        }
    }

    fn rejoin(&mut self) -> (step: WaitStep)
        requires
            old(self)@.phase != Phase::Idle,
            !old(self)@.pipes.stdin,
        ensures
            (final(self)@, step) == old(self)@.rejoin(),
    {
        match (self.state.status, self.state.phase) {
            (Some(status), Phase::Polling { .. }) => self.finish(status),
            (Some(status), Phase::Fetching { .. }) => self.finish(status),
            (Some(_), Phase::Parked) => self.release(false),
            _ => Step::Ask(self.pending()),
        }
    }

    fn after_poll(&mut self, again: bool, outcome: u32, os_error: i32) -> (step: WaitStep)
        requires
            !old(self)@.pipes.stdin,
        ensures
            (final(self)@, step) == old(self)@.after_poll(again, outcome, os_error),
    {
        match (self.state.status, classify_poll(outcome)) {
            (Some(status), _) => self.finish(status),
            (None, Finding::Signaled) => self.ask(Phase::Fetching { again }, Request::ExitCode),
            (None, Finding::Running) => if again {
                self.end(Err(WaitError::MissingStatus))
            } else {
                self.ask(Phase::Registering, Request::Register)
            },
            (None, Finding::Failed) => self.end(Err(WaitError::Os(os_error))),
        }
    }

    fn after_fetch(&mut self, rc: i32, code: u32, os_error: i32) -> (step: WaitStep)
        ensures
            (final(self)@, step) == old(self)@.after_fetch(rc, code, os_error),
    {
        match self.state.status {
            Some(status) => self.finish(status),
            None => if rc == 0 {
                self.end(Err(WaitError::Os(os_error)))
            } else {
                let status = ExitStatus::Windows(code);
                proof {
                    use_type_invariant(&*self);
                }
                self.state = State { status: Some(status), ..self.state };
                self.finish(status)
            },
        }
    }

    fn after_register(&mut self, rc: i32, os_error: i32) -> (step: WaitStep)
        requires
            !old(self)@.pipes.stdin,
        ensures
            (final(self)@, step) == old(self)@.after_register(rc, os_error),
    {
        if rc == 0 {
            self.ask(Phase::Reclaiming { os_error }, Request::Reclaim)
        } else if self.state.status.is_some() {
            self.release(false)
        } else {
            self.ask(Phase::Parked, Request::AwaitCompletion)
        }
    }

    fn after_release(&mut self, closed: bool) -> (step: WaitStep)
        requires
            !old(self)@.pipes.stdin,
        ensures
            (final(self)@, step) == old(self)@.after_release(closed),
    {
        if closed {
            self.end(Err(WaitError::Notification))
        } else {
            self.recheck(true)
        }
    }

    /// Starts a check for the exit status that never suspends the task.
    ///
    /// Once a status was observed it is handed out from memory, with nothing
    /// asked of the host.
    pub fn try_wait(&mut self) -> (step: TryStep)
        ensures
            (final(self)@, step) == old(self)@.try_wait(),
            final(self)@.wf(),
    {
        proof {
            use_type_invariant(&*self);
        }
        match self.state.status {
            Some(status) => Step::Done(Ok(Some(status))),
            None => Step::Ask(Request::Poll),
        }
    }

    /// Goes on with a status check, given the host's reply.
    pub fn try_wait_resume(&mut self, reply: Reply) -> (step: TryStep)
        ensures
            (final(self)@, step) == old(self)@.try_wait_resume(reply),
            final(self)@.wf(),
    {
        proof {
            use_type_invariant(&*self);
        }
        match (self.state.status, reply) {
            (Some(status), _) => Step::Done(Ok(Some(status))),
            (None, Reply::Polled { outcome, os_error }) => match classify_poll(outcome) {
                Finding::Signaled => Step::Ask(Request::ExitCode),
                Finding::Running => Step::Done(Ok(None)),
                Finding::Failed => Step::Done(Err(WaitError::Os(os_error))),
            },
            (None, Reply::ExitCode { rc, code, os_error }) => if rc == 0 {
                Step::Done(Err(WaitError::Os(os_error)))
            } else {
                let status = ExitStatus::Windows(code);
                self.state = State { status: Some(status), ..self.state };
                Step::Done(Ok(Some(status)))
            },
            (None, _) => Step::Ask(Request::Poll),
        }
    }

    /// Starts a wait for the child's exit.
    ///
    /// The first thing asked of the host is to close standard input, so that
    /// a child reading it to the end is not waited for in vain. The task is
    /// never suspended while standard input is held.
    pub fn wait(&mut self) -> (step: WaitStep)
        ensures
            (final(self)@, step) == old(self)@.wait(),
            final(self)@.wf(),
            step == WaitStep::Ask(Request::AwaitCompletion) ==> !final(self)@.pipes.stdin,
            step is Done ==> final(self)@.phase == Phase::Idle,
    {
        proof {
            use_type_invariant(&*self);
        }
        if self.state.phase != Phase::Idle {
            self.rejoin()
        } else if self.state.pipes.stdin {
            self.state = State {
                pipes: Pipes { stdin: false, ..self.state.pipes },
                phase: Phase::Closing,
                ..self.state
            };
            Step::Ask(Request::CloseStdin)
        } else {
            self.recheck(false)
        }
    }

    /// Goes on with a wait, given the host's reply.
    ///
    /// A wait ends only with the registration released and the sender back:
    /// the waiter is idle whenever the step is `Done`.
    pub fn wait_resume(&mut self, reply: Reply) -> (step: WaitStep)
        ensures
            (final(self)@, step) == old(self)@.wait_resume(reply),
            final(self)@.wf(),
            step == WaitStep::Ask(Request::AwaitCompletion) ==> !final(self)@.pipes.stdin,
            step is Done ==> final(self)@.phase == Phase::Idle,
    {
        proof {
            use_type_invariant(&*self);
        }
        match (self.state.phase, reply) {
            (Phase::Idle, _) => self.wait(),
            (Phase::Closing, Reply::StdinClosed) => self.recheck(false),
            (Phase::Polling { again }, Reply::Polled { outcome, os_error }) => self.after_poll(
                again,
                outcome,
                os_error,
            ),
            (Phase::Fetching { .. }, Reply::ExitCode { rc, code, os_error }) => self.after_fetch(
                rc,
                code,
                os_error,
            ),
            (Phase::Registering, Reply::Registered { rc, os_error }) => self.after_register(
                rc,
                os_error,
            ),
            (Phase::Reclaiming { os_error }, Reply::Reclaimed) => self.end(
                Err(WaitError::Os(os_error)),
            ),
            (Phase::Parked, Reply::Completed) => self.release(false),
            (Phase::Parked, Reply::ChannelClosed) => self.release(true),
            (Phase::Unregistering { closed }, Reply::Unregistered) => self.after_release(closed),
            _ => self.rejoin(),
        }
    }
}

/// Every operation keeps a waiter well formed.
pub proof fn law_steps_keep_wf(s: State, reply: Reply)
    requires
        s.wf(),
    ensures
        s.try_wait().0.wf(),
        s.try_wait_resume(reply).0.wf(),
        s.wait().0.wf(),
        s.wait_resume(reply).0.wf(),
{
}

/// While the child runs, a status check ends with "not yet" and leaves the
/// waiter exactly as it was, so that the next check goes the same way.
pub proof fn law_check_before_exit(s: State, os_error: i32)
    requires
        s.status is None,
    ensures
        s.try_wait() == (s, TryStep::Ask(Request::Poll)),
        s.try_wait_resume(Reply::Polled { outcome: WAIT_TIMEOUT, os_error }) == (
            s,
            TryStep::Done(Ok(None)),
        ),
{
}

/// The check that finds the handle signaled fetches the exit code, reports
/// it and commits it to memory.
pub proof fn law_check_at_exit(s: State, rc: i32, code: u32, os_error: i32)
    requires
        s.status is None,
        rc != 0,
    ensures
        s.try_wait_resume(Reply::Polled { outcome: WAIT_OBJECT_0, os_error }) == (
            s,
            TryStep::Ask(Request::ExitCode),
        ),
        s.try_wait_resume(Reply::ExitCode { rc, code, os_error }) == (
            s.reaped(ExitStatus::Windows(code)),
            TryStep::Done(Ok(Some(ExitStatus::Windows(code)))),
        ),
{
}

/// Once a status is in memory it stays there for good: every status check
/// ends at once with that status, no operation changes what is remembered,
/// and a wait never suspends the task, never fails and never ends with
/// another status.
pub proof fn law_status_is_final(s: State, status: ExitStatus, reply: Reply)
    requires
        s.status == Some(status),
    ensures
        s.try_wait() == (s, TryStep::Done(Ok(Some(status)))),
        s.try_wait_resume(reply) == (s, TryStep::Done(Ok(Some(status)))),
        s.wait().0.status == Some(status),
        s.wait_resume(reply).0.status == Some(status),
        s.wait().1 matches Step::Done(result) ==> result == Ok::<ExitStatus, WaitError>(status),
        s.wait_resume(reply).1 matches Step::Done(result) ==> result == Ok::<
            ExitStatus,
            WaitError,
        >(status),
        s.wait().1 != WaitStep::Ask(Request::AwaitCompletion),
        s.wait_resume(reply).1 != WaitStep::Ask(Request::AwaitCompletion),
{
}

/// A wait that has ended with a status can be repeated at will: the next
/// wait ends at once with the same status, asks nothing of the host, and
/// leaves the waiter as it found it.
pub proof fn law_wait_is_idempotent(s: State, reply: Reply, status: ExitStatus)
    requires
        s.wf(),
    ensures
        s.wait().1 == WaitStep::Done(Ok(status)) ==> s.wait().0.wait() == (
            s.wait().0,
            WaitStep::Done(Ok(status)),
        ),
        s.wait_resume(reply).1 == WaitStep::Done(Ok(status)) ==> s.wait_resume(reply).0.wait() == (
            s.wait_resume(reply).0,
            WaitStep::Done(Ok(status)),
        ),
{
}

/// A wait lets go of standard input before anything else, and the task is
/// never suspended while standard input is held.
pub proof fn law_stdin_closes_before_parking(s: State, reply: Reply)
    requires
        s.wf(),
    ensures
        s.phase == Phase::Idle && s.pipes.stdin ==> s.wait().1 == WaitStep::Ask(
            Request::CloseStdin,
        ) && !s.wait().0.pipes.stdin,
        s.wait().1 == WaitStep::Ask(Request::AwaitCompletion) ==> !s.wait().0.pipes.stdin,
        s.wait_resume(reply).1 == WaitStep::Ask(Request::AwaitCompletion) ==> !s.wait_resume(
            reply,
        ).0.pipes.stdin,
{
}

/// Whatever way a wait ends, nothing is left with the kernel: the waiter is
/// idle, holds no registration and has its sender back.
pub proof fn law_exit_releases_everything(s: State, reply: Reply)
    ensures
        s.wait().1 is Done ==> s.wait().0.phase == Phase::Idle,
        s.wait_resume(reply).1 is Done ==> s.wait_resume(reply).0.phase == Phase::Idle,
        !Phase::Idle.registered() && !Phase::Idle.sender_lent(),
{
}

/// The registration and the lent sender leave together, and only when the
/// host says so: a live registration ends on `Unregistered` alone, taking
/// the sender with it, and a sender lent to a refused registration comes
/// back on `Reclaimed` alone.
pub proof fn law_release_is_explicit(s: State, reply: Reply)
    ensures
        s.phase.registered() && !s.wait_resume(reply).0.phase.registered() ==> reply
            == Reply::Unregistered && !s.wait_resume(reply).0.phase.sender_lent(),
        s.phase.sender_lent() && !s.wait_resume(reply).0.phase.sender_lent() ==> reply
            == Reply::Unregistered || reply == Reply::Reclaimed,
        s.phase.registered() ==> s.wait().0.phase.registered(),
        s.phase.sender_lent() ==> s.wait().0.phase.sender_lent(),
{
}

/// A refused registration never delivered the sender, so the sender is
/// reclaimed first, and only then does the wait fail with the host's error.
pub proof fn law_refused_registration_reclaims(s: State, os_error: i32)
    requires
        s.phase == Phase::Registering,
        s.status is None,
    ensures
        s.wait_resume(Reply::Registered { rc: 0, os_error }) == (
            s.at(Phase::Reclaiming { os_error }),
            WaitStep::Ask(Request::Reclaim),
        ),
        s.at(Phase::Reclaiming { os_error }).wait_resume(Reply::Reclaimed) == (
            s.at(Phase::Idle),
            WaitStep::Done(Err(WaitError::Os(os_error))),
        ),
{
}

/// After the registration has fired, it is released before the handle is
/// polled again; a handle that is then not signaled contradicts the
/// registration, and the wait fails instead of waiting once more.
pub proof fn law_completion_is_confirmed(s: State, os_error: i32)
    requires
        s.phase == Phase::Parked,
        s.status is None,
    ensures
        s.wait_resume(Reply::Completed) == (
            s.at(Phase::Unregistering { closed: false }),
            WaitStep::Ask(Request::Unregister),
        ),
        s.at(Phase::Unregistering { closed: false }).wait_resume(Reply::Unregistered) == (
            s.at(Phase::Polling { again: true }),
            WaitStep::Ask(Request::Poll),
        ),
        s.at(Phase::Polling { again: true }).wait_resume(
            Reply::Polled { outcome: WAIT_TIMEOUT, os_error },
        ) == (s.at(Phase::Idle), WaitStep::Done(Err(WaitError::MissingStatus))),
        s.wait_resume(Reply::ChannelClosed) == (
            s.at(Phase::Unregistering { closed: true }),
            WaitStep::Ask(Request::Unregister),
        ),
        s.at(Phase::Unregistering { closed: true }).wait_resume(Reply::Unregistered) == (
            s.at(Phase::Idle),
            WaitStep::Done(Err(WaitError::Notification)),
        ),
{
}

} // verus!
