//! POSIX: waiting for one child with non-blocking reap probes and the
//! process-wide exit signal.
//!
//! The host offers no way to park a task on "this child has exited". What it
//! offers is a probe that reaps a child if it has exited, and a signal that
//! says "some child, somewhere in this process, changed state". The signal
//! is coalesced: one delivery may stand for many exits. So a wake-up never
//! answers the question by itself; it only licenses another probe.

use vstd::prelude::*;
use crate::error::WaitError;
use crate::status::{as_signed, ExitStatus};
use crate::step::{Pipes, Step, Terminate};

verus! {

/// What the host's non-blocking reap probe handed back.
#[derive(Clone, Copy, Debug, PartialEq, Eq, Structural)]
pub struct ProbeReply {
    /// The probe's return value: zero while the child runs, a negative
    /// number on failure, the child's process id once it has been reaped.
    pub ret: i32,
    /// The wait status the probe wrote; it means something only after a reap.
    pub status: i32,
    /// The host's error code; it means something only after a failure.
    pub errno: i32,
    /// Whether that error says the probe was interrupted by a signal.
    pub interrupted: bool,
}

/// What a probe reply means for the child.
#[derive(Clone, Copy, Debug, PartialEq, Eq, Structural)]
pub enum Finding {
    /// The child has not exited yet.
    Running,
    /// The child has exited and was reaped; the host has forgotten its
    /// process id, which must not be probed again.
    Exited(ExitStatus),
    /// A signal interrupted the probe; it says nothing and is to be repeated.
    Interrupted,
    /// The probe failed for good.
    Failed(WaitError),
}

impl ProbeReply {
    /// The meaning of a reply, read off the sign of the return value.
    pub open spec fn finding(self) -> Finding {
        if self.ret == 0 {
            Finding::Running
        } else if self.ret > 0 {
            Finding::Exited(ExitStatus::Posix(self.status))
        } else if self.interrupted {
            Finding::Interrupted
        } else {
            Finding::Failed(WaitError::Os(self.errno))
        }
    }

    /// Reads a reply.
    pub fn classify(&self) -> (finding: Finding)
        ensures
            finding == self.finding(),
    {
        if self.ret == 0 {
            Finding::Running
        } else if self.ret > 0 {
            Finding::Exited(ExitStatus::Posix(self.status))
        } else if self.interrupted {
            Finding::Interrupted
        } else {
            Finding::Failed(WaitError::Os(self.errno))
        }
    }
}

/// What a waiter may ask of its host.
#[derive(Clone, Copy, Debug, PartialEq, Eq, Structural)]
pub enum Request {
    /// Drop the writing end of the child's standard input; answer with
    /// [`Reply::StdinClosed`].
    CloseStdin,
    /// Probe, without blocking, whether the process `pid` has exited, reaping
    /// it if so; answer with [`Reply::Probed`].
    Probe { pid: i32 },
    /// Suspend the calling task until the exit-signal stream delivers its
    /// next event; answer with [`Reply::Woken`], or with
    /// [`Reply::StreamClosed`] if the stream has failed.
    AwaitSignal,
}

/// What the host reports back.
#[derive(Clone, Copy, Debug, PartialEq, Eq, Structural)]
pub enum Reply {
    /// Standard input is closed.
    StdinClosed,
    /// The probe returned.
    Probed(ProbeReply),
    /// The exit signal arrived: some child of this process changed state.
    Woken,
    /// The exit-signal stream cannot deliver events any more.
    StreamClosed,
}

/// How far a wait has come.
#[derive(Clone, Copy, Debug, PartialEq, Eq, Structural)]
pub enum Phase {
    /// No wait is in flight.
    Idle,
    /// The host was asked to close standard input.
    Closing,
    /// The host was asked to probe.
    Probing,
    /// The task is suspended on the exit-signal stream.
    Parked,
}

/// Everything a waiter knows about its child.
#[derive(Clone, Copy, Debug, PartialEq, Eq)]
pub struct State {
    /// The process id the host assigned.
    pub pid: u32,
    /// The pipe endpoints still held.
    pub pipes: Pipes,
    /// The exit status, once a probe has observed it.
    pub status: Option<ExitStatus>,
    /// The wait in flight, if any.
    pub phase: Phase,
}

/// One turn of a status check.
pub type TryStep = Step<Request, Option<ExitStatus>>;

/// One turn of a wait.
pub type WaitStep = Step<Request, ExitStatus>;

/// The process id as the probe takes it: the same 32 bits, read as signed.
pub open spec fn probe_pid(pid: u32) -> int {
    as_signed(pid as int)
}

impl Phase {
    /// The request that a wait in this phase is waiting to have answered.
    pub open spec fn pending(self, pid: u32) -> Request
        recommends
            self != Phase::Idle,
    {
        match self {
            Phase::Parked => Request::AwaitSignal,
            Phase::Probing => Request::Probe { pid: probe_pid(pid) as i32 },
            _ => Request::CloseStdin,
        }
    }

    /// Whether `reply` is an answer to the request pending in this phase.
    pub open spec fn answered_by(self, reply: Reply) -> bool {
        match self {
            Phase::Idle => false,
            Phase::Closing => reply == Reply::StdinClosed,
            Phase::Probing => reply is Probed,
            Phase::Parked => reply == Reply::Woken || reply == Reply::StreamClosed,
        }
    }
}

impl State {
    /// A wait in flight has let go of standard input.
    pub open spec fn wf(self) -> bool {
        self.phase != Phase::Idle ==> !self.pipes.stdin
    }

    /// A child fresh from the spawn.
    pub open spec fn spawned(pid: u32, pipes: Pipes) -> State {
        State { pid, pipes, status: None, phase: Phase::Idle }
    }

    /// This state with another phase.
    pub open spec fn at(self, phase: Phase) -> State {
        State { phase, ..self }
    }

    /// This state once the status has been observed.
    pub open spec fn reaped(self, status: ExitStatus) -> State {
        State { status: Some(status), ..self }
    }

    /// This state once the reading ends of standard output and standard
    /// error have been handed over.
    pub open spec fn without_output(self) -> State {
        State { pipes: Pipes { stdout: false, stderr: false, ..self.pipes }, ..self }
    }

    /// The probe request for this child.
    pub open spec fn probe(self) -> Request {
        Request::Probe { pid: probe_pid(self.pid) as i32 }
    }

    /// The start of a status check: answer from memory if the status is
    /// known, else probe.
    pub open spec fn try_wait(self) -> (State, TryStep) {
        match self.status {
            Some(status) => (self, Step::Done(Ok(Some(status)))),
            None => (self, Step::Ask(self.probe())),
        }
    }

    /// A status check goes on with the host's reply. With the status in
    /// memory the reply is not looked at. A reply that is no probe result
    /// has answered nothing, and the probe is asked for again.
    pub open spec fn try_wait_resume(self, reply: Reply) -> (State, TryStep) {
        match (self.status, reply) {
            (Some(status), _) => (self, Step::Done(Ok(Some(status)))),
            (None, Reply::Probed(probed)) => match probed.finding() {
                Finding::Running => (self, Step::Done(Ok(None))),
                Finding::Exited(status) => (self.reaped(status), Step::Done(Ok(Some(status)))),
                Finding::Interrupted => (self, Step::Ask(self.probe())),
                Finding::Failed(error) => (self, Step::Done(Err(error))),
            },
            (None, _) => (self, Step::Ask(self.probe())),
        }
    }

    /// The turn after standard input is known to be closed, and after every
    /// wake-up: answer from memory if the status is known, else probe.
    pub open spec fn recheck(self) -> (State, WaitStep) {
        match self.status {
            Some(status) => (self.at(Phase::Idle), Step::Done(Ok(status))),
            None => (self.at(Phase::Probing), Step::Ask(self.probe())),
        }
    }

    /// A wait in flight, with nothing new from the host. While standard
    /// input is being closed that request stands. After that a status in
    /// memory ends the wait; without one the pending request is asked for
    /// again.
    pub open spec fn rejoin(self) -> (State, WaitStep)
        recommends
            self.phase != Phase::Idle,
    {
        match (self.phase, self.status) {
            (Phase::Closing, _) => (self, Step::Ask(Request::CloseStdin)),
            (_, Some(status)) => (self.at(Phase::Idle), Step::Done(Ok(status))),
            (_, None) => (self, Step::Ask(self.phase.pending(self.pid))),
        }
    }

    /// The start of a wait. Standard input goes first, whatever is known of
    /// the child. A wait already in flight is joined.
    pub open spec fn wait(self) -> (State, WaitStep) {
        if self.phase != Phase::Idle {
            self.rejoin()
        } else if self.pipes.stdin {
            (
                State { pipes: Pipes { stdin: false, ..self.pipes }, phase: Phase::Closing, ..self },
                Step::Ask(Request::CloseStdin),
            )
        } else {
            self.recheck()
        }
    }

    /// A wait goes on with the host's reply.
    ///
    /// With no wait in flight the reply is dropped and a wait starts. A reply
    /// that does not answer the pending request is dropped too. Otherwise a
    /// status in memory ends the wait, and without one the reply decides.
    pub open spec fn wait_resume(self, reply: Reply) -> (State, WaitStep) {
        if self.phase == Phase::Idle {
            self.wait()
        } else if !self.phase.answered_by(reply) {
            self.rejoin()
        } else {
            match (self.status, reply) {
                (Some(status), _) => (self.at(Phase::Idle), Step::Done(Ok(status))),
                (None, Reply::Probed(probed)) => match probed.finding() {
                    Finding::Running => (self.at(Phase::Parked), Step::Ask(Request::AwaitSignal)),
                    Finding::Exited(status) => (
                        self.reaped(status).at(Phase::Idle),
                        Step::Done(Ok(status)),
                    ),
                    Finding::Interrupted => (self, Step::Ask(self.probe())),
                    Finding::Failed(error) => (self.at(Phase::Idle), Step::Done(Err(error))),
                },
                (None, Reply::StreamClosed) => (
                    self.at(Phase::Idle),
                    Step::Done(Err(WaitError::Notification)),
                ),
                (None, _) => self.recheck(),
            }
        }
    }
}

/// A spawned child and the state of the wait for it.
#[derive(Debug)]
pub struct Child {
    state: State,
}

impl View for Child {
    type V = State;

    closed spec fn view(&self) -> State {
        self.state
    }
}

impl Child {
    #[verifier::type_invariant]
    spec fn inv(&self) -> bool {
        self.state.wf()
    }

    /// Takes charge of the process that the host spawned as `pid`, with the
    /// pipe endpoints that the parent holds.
    pub fn new(pid: u32, pipes: Pipes) -> (child: Child)
        ensures
            child@ == State::spawned(pid, pipes),
            child@.wf(),
    {
        Child { state: State { pid, pipes, status: None, phase: Phase::Idle } }
    }

    /// The process id the host assigned.
    pub fn id(&self) -> (pid: u32)
        ensures
            pid == self@.pid,
    {
        self.state.pid
    }

    /// The pipe endpoints still held.
    pub fn pipes(&self) -> (pipes: Pipes)
        ensures
            pipes == self@.pipes,
    {
        self.state.pipes
    }

    /// The exit status, if it has been observed.
    pub fn status(&self) -> (status: Option<ExitStatus>)
        ensures
            status == self@.status,
    {
        self.state.status
    }

    /// Hands over the reading ends of standard output and standard error:
    /// the call says which were held, and none is held after it.
    pub fn take_output(&mut self) -> (held: Pipes)
        ensures
            held == old(self)@.pipes,
            final(self)@ == old(self)@.without_output(),
            final(self)@.wf(),
    {
        proof {
            use_type_invariant(&*self);
        }
        let held = self.state.pipes;
        self.state = State {
            pipes: Pipes { stdout: false, stderr: false, ..self.state.pipes },
            ..self.state
        };
        held
    }

    /// The request to end the child by force. Asking for it changes nothing
    /// here: a wait in flight stays where it is, and learns of the exit the
    /// way it learns of any other.
    pub fn kill(&mut self) -> (request: Terminate)
        ensures
            request.pid == old(self)@.pid,
            final(self)@ == old(self)@,
            final(self)@.wf(),
    {
        proof {
            use_type_invariant(&*self);
        }
        Terminate { pid: self.state.pid }
    }

    fn probe(&self) -> (request: Request)
        ensures
            request == self@.probe(),
    {
        let pid: u32 = self.state.pid;
        assert(pid as i32 == as_signed(pid as int)) by (bit_vector);
        Request::Probe { pid: pid as i32 }
    }

    fn rejoin(&mut self) -> (step: WaitStep)
        requires
            old(self)@.phase != Phase::Idle,
            !old(self)@.pipes.stdin,
        ensures
            (final(self)@, step) == old(self)@.rejoin(),
    {
        match (self.state.phase, self.state.status) {
            (Phase::Closing, _) => Step::Ask(Request::CloseStdin),
            (_, Some(status)) => {
                self.state = State { phase: Phase::Idle, ..self.state };
                Step::Done(Ok(status))
            },
            (Phase::Parked, None) => Step::Ask(Request::AwaitSignal),
            (_, None) => Step::Ask(self.probe()),
        }
    }

    fn recheck(&mut self) -> (step: WaitStep)
        requires
            !old(self)@.pipes.stdin,
        ensures
            (final(self)@, step) == old(self)@.recheck(),
    {
        match self.state.status {
            Some(status) => {
                self.state = State { phase: Phase::Idle, ..self.state };
                Step::Done(Ok(status))
            },
            None => {
                self.state = State { phase: Phase::Probing, ..self.state };
                Step::Ask(self.probe())
            },
        }
    }

    /// Starts a check for the exit status that never suspends the task.
    ///
    /// Once a status was observed it is handed out from memory, with nothing
    /// asked of the host.
    pub fn try_wait(&mut self) -> (step: TryStep)
        ensures
            (final(self)@, step) == old(self)@.try_wait(),
            final(self)@.wf(),
    {
        proof {
            use_type_invariant(&*self);
        }
        match self.state.status {
            Some(status) => Step::Done(Ok(Some(status))),
            None => Step::Ask(self.probe()),
        }
    }

    /// Goes on with a status check, given the host's reply.
    pub fn try_wait_resume(&mut self, reply: Reply) -> (step: TryStep)
        ensures
            (final(self)@, step) == old(self)@.try_wait_resume(reply),
            final(self)@.wf(),
    {
        proof {
            use_type_invariant(&*self);
        }
        match (self.state.status, reply) {
            (Some(status), _) => Step::Done(Ok(Some(status))),
            (None, Reply::Probed(probed)) => match probed.classify() {
                Finding::Running => Step::Done(Ok(None)),
                Finding::Exited(status) => {
                    self.state = State { status: Some(status), ..self.state };
                    Step::Done(Ok(Some(status)))
                },
                Finding::Interrupted => Step::Ask(self.probe()),
                Finding::Failed(error) => Step::Done(Err(error)),
            },
            (None, _) => Step::Ask(self.probe()),
        }
    }

    /// Starts a wait for the child's exit.
    ///
    /// The first thing asked of the host is to close standard input, so that
    /// a child reading it to the end is not waited for in vain. The task is
    /// never suspended while standard input is held.
    pub fn wait(&mut self) -> (step: WaitStep)
        ensures
            (final(self)@, step) == old(self)@.wait(),
            final(self)@.wf(),
            step == WaitStep::Ask(Request::AwaitSignal) ==> !final(self)@.pipes.stdin,
    {
        proof {
            use_type_invariant(&*self);
        }
        if self.state.phase != Phase::Idle {
            self.rejoin()
        } else if self.state.pipes.stdin {
            self.state = State {
                pipes: Pipes { stdin: false, ..self.state.pipes },
                phase: Phase::Closing,
                ..self.state
            };
            Step::Ask(Request::CloseStdin)
        } else {
            self.recheck()
        }
    }

    /// Goes on with a wait, given the host's reply.
    pub fn wait_resume(&mut self, reply: Reply) -> (step: WaitStep)
        ensures
            (final(self)@, step) == old(self)@.wait_resume(reply),
            final(self)@.wf(),
            step == WaitStep::Ask(Request::AwaitSignal) ==> !final(self)@.pipes.stdin,
    {
        proof {
            use_type_invariant(&*self);
        }
        match (self.state.phase, reply) {
            (Phase::Idle, _) => self.wait(),
            (Phase::Closing, Reply::StdinClosed) => self.recheck(),
            (Phase::Probing, Reply::Probed(probed)) => match self.state.status {
                Some(status) => {
                    self.state = State { phase: Phase::Idle, ..self.state };
                    Step::Done(Ok(status))
                },
                None => match probed.classify() {
                    Finding::Running => {
                        self.state = State { phase: Phase::Parked, ..self.state };
                        Step::Ask(Request::AwaitSignal)
                    },
                    Finding::Exited(status) => {
                        self.state = State {
                            status: Some(status),
                            phase: Phase::Idle,
                            ..self.state
                        };
                        Step::Done(Ok(status))
                    },
                    Finding::Interrupted => Step::Ask(self.probe()),
                    Finding::Failed(error) => {
                        self.state = State { phase: Phase::Idle, ..self.state };
                        Step::Done(Err(error))
                    },
                },
            },
            (Phase::Parked, Reply::Woken) => self.recheck(),
            (Phase::Parked, Reply::StreamClosed) => match self.state.status {
                Some(status) => {
                    self.state = State { phase: Phase::Idle, ..self.state };
                    Step::Done(Ok(status))
                },
                None => {
                    self.state = State { phase: Phase::Idle, ..self.state };
                    Step::Done(Err(WaitError::Notification))
                },
            },
            _ => self.rejoin(),
        }
    }
}

/// Something the host delivers while two tasks wait, each for its own child.
pub enum Delivery {
    /// A reply to the first waiter.
    ToFirst(Reply),
    /// A reply to the second waiter.
    ToSecond(Reply),
    /// The process-wide exit signal. It carries no payload and does not say
    /// whose child exited; every suspended waiter wakes on it.
    ExitSignal,
}

impl State {
    /// The turn that a wait has reached once the host has given `replies`,
    /// one after the other, from the start of the wait.
    pub open spec fn wait_through(self, replies: Seq<Reply>) -> (State, WaitStep)
        decreases replies.len(),
    {
        if replies.len() == 0 {
            self.wait()
        } else {
            self.wait_through(replies.drop_last()).0.wait_resume(replies.last())
        }
    }

    /// What the exit signal does to a waiter: it resumes a suspended one and
    /// passes every other by.
    pub open spec fn on_exit_signal(self) -> State {
        if self.phase == Phase::Parked {
            self.wait_resume(Reply::Woken).0
        } else {
            self
        }
    }

    /// Where the first of two waiters ends up, told from its own replies and
    /// the exit signals alone.
    pub open spec fn first_after(self, deliveries: Seq<Delivery>) -> State
        decreases deliveries.len(),
    {
        if deliveries.len() == 0 {
            self
        } else {
            let before = self.first_after(deliveries.drop_last());
            match deliveries.last() {
                Delivery::ToFirst(reply) => before.wait_resume(reply).0,
                Delivery::ToSecond(_) => before,
                Delivery::ExitSignal => before.on_exit_signal(),
            }
        }
    }

    /// Where the second of two waiters ends up, told from its own replies and
    /// the exit signals alone.
    pub open spec fn second_after(self, deliveries: Seq<Delivery>) -> State
        decreases deliveries.len(),
    {
        if deliveries.len() == 0 {
            self
        } else {
            let before = self.second_after(deliveries.drop_last());
            match deliveries.last() {
                Delivery::ToFirst(_) => before,
                Delivery::ToSecond(reply) => before.wait_resume(reply).0,
                Delivery::ExitSignal => before.on_exit_signal(),
            }
        }
    }
}

/// Where two waiters end up when the host's deliveries reach them in the
/// given order, each reply going to its addressee and each exit signal to both.
pub open spec fn both_after(first: State, second: State, deliveries: Seq<Delivery>) -> (
    State,
    State,
)
    decreases deliveries.len(),
{
    if deliveries.len() == 0 {
        (first, second)
    } else {
        let (a, b) = both_after(first, second, deliveries.drop_last());
        match deliveries.last() {
            Delivery::ToFirst(reply) => (a.wait_resume(reply).0, b),
            Delivery::ToSecond(reply) => (a, b.wait_resume(reply).0),
            Delivery::ExitSignal => (a.on_exit_signal(), b.on_exit_signal()),
        }
    }
}

/// The reply of a probe that found the child running.
pub open spec fn still_running() -> Reply {
    Reply::Probed(ProbeReply { ret: 0, status: 0, errno: 0, interrupted: false })
}

/// What the host replies over `rounds` fruitless rounds: each time a probe
/// that finds the child running, and then a wake-up.
pub open spec fn fruitless(rounds: nat) -> Seq<Reply>
    decreases rounds,
{
    if rounds == 0 {
        Seq::empty()
    } else {
        fruitless((rounds - 1) as nat).push(still_running()).push(Reply::Woken)
    }
}

/// Every operation keeps a waiter well formed.
pub proof fn law_steps_keep_wf(s: State, reply: Reply)
    requires
        s.wf(),
    ensures
        s.try_wait().0.wf(),
        s.try_wait_resume(reply).0.wf(),
        s.wait().0.wf(),
        s.wait_resume(reply).0.wf(),
{
}

/// While the child runs, a status check ends with "not yet" and leaves the
/// waiter exactly as it was, so that the next check goes the same way.
pub proof fn law_check_before_exit(s: State, probed: ProbeReply)
    requires
        s.status is None,
        probed.ret == 0,
    ensures
        s.try_wait() == (s, TryStep::Ask(s.probe())),
        s.try_wait_resume(Reply::Probed(probed)) == (s, TryStep::Done(Ok(None))),
{
}

/// The check whose probe reaps the child reports the decoded status and
/// commits it to memory.
pub proof fn law_check_at_exit(s: State, probed: ProbeReply)
    requires
        s.status is None,
        probed.ret > 0,
    ensures
        s.try_wait_resume(Reply::Probed(probed)) == (
            s.reaped(ExitStatus::Posix(probed.status)),
            TryStep::Done(Ok(Some(ExitStatus::Posix(probed.status)))),
        ),
{
}

/// Once a status is in memory it stays there for good: every status check
/// ends at once with that status, no operation asks the host for a probe or
/// suspends the task, no operation changes what is remembered, and a wait
/// never fails and never ends with another status.
pub proof fn law_status_is_final(s: State, status: ExitStatus, reply: Reply)
    requires
        s.status == Some(status),
    ensures
        s.try_wait() == (s, TryStep::Done(Ok(Some(status)))),
        s.try_wait_resume(reply) == (s, TryStep::Done(Ok(Some(status)))),
        s.wait().0.status == Some(status),
        s.wait_resume(reply).0.status == Some(status),
        !(s.wait().1 matches Step::Ask(Request::Probe { .. })),
        !(s.wait_resume(reply).1 matches Step::Ask(Request::Probe { .. })),
        s.wait().1 != WaitStep::Ask(Request::AwaitSignal),
        s.wait_resume(reply).1 != WaitStep::Ask(Request::AwaitSignal),
        s.wait().1 matches Step::Done(result) ==> result == Ok::<ExitStatus, WaitError>(status),
        s.wait_resume(reply).1 matches Step::Done(result) ==> result == Ok::<
            ExitStatus,
            WaitError,
        >(status),
{
}

/// A wait that has ended with a status can be repeated at will: the next
/// wait ends at once with the same status, asks nothing of the host, and
/// leaves the waiter as it found it.
pub proof fn law_wait_is_idempotent(s: State, reply: Reply, status: ExitStatus)
    requires
        s.wf(),
    ensures
        s.wait().1 == WaitStep::Done(Ok(status)) ==> s.wait().0.wait() == (
            s.wait().0,
            WaitStep::Done(Ok(status)),
        ),
        s.wait_resume(reply).1 == WaitStep::Done(Ok(status)) ==> s.wait_resume(reply).0.wait() == (
            s.wait_resume(reply).0,
            WaitStep::Done(Ok(status)),
        ),
{
}

/// A wait lets go of standard input before anything else, and the task is
/// never suspended while standard input is held.
pub proof fn law_stdin_closes_before_parking(s: State, reply: Reply)
    requires
        s.wf(),
    ensures
        s.phase == Phase::Idle && s.pipes.stdin ==> s.wait().1 == WaitStep::Ask(
            Request::CloseStdin,
        ) && !s.wait().0.pipes.stdin,
        s.wait().1 == WaitStep::Ask(Request::AwaitSignal) ==> !s.wait().0.pipes.stdin,
        s.wait_resume(reply).1 == WaitStep::Ask(Request::AwaitSignal) ==> !s.wait_resume(
            reply,
        ).0.pipes.stdin,
{
}

/// A wake-up only licenses another probe. It never yields a status by
/// itself, and the probe it leads to is for the waiter's own child, whoever's
/// exit raised the signal.
pub proof fn law_wake_licenses_probe(s: State)
    requires
        s.phase == Phase::Parked,
        s.status is None,
    ensures
        s.wait_resume(Reply::Woken) == (s.at(Phase::Probing), WaitStep::Ask(s.probe())),
        s.on_exit_signal() == s.at(Phase::Probing),
{
}

/// Two waits do not touch each other. However the host's deliveries are
/// interleaved, each waiter ends up where its own replies and the exit
/// signals take it: what the other child does, and when, makes no difference.
pub proof fn law_waits_are_independent(first: State, second: State, deliveries: Seq<Delivery>)
    ensures
        both_after(first, second, deliveries) == (
            first.first_after(deliveries),
            second.second_after(deliveries),
        ),
    decreases deliveries.len(),
{
    if deliveries.len() > 0 {
        law_waits_are_independent(first, second, deliveries.drop_last());
    }
}

/// A wake-up that finds the child still running leaves the waiter exactly
/// where it was: suspended, with nothing learnt. However many exit signals
/// other children raise, they add up to nothing.
pub proof fn law_fruitless_wake_changes_nothing(s: State, probed: ProbeReply)
    requires
        s.phase == Phase::Parked,
        s.status is None,
        probed.ret == 0,
    ensures
        s.wait_resume(Reply::Woken).0.wait_resume(Reply::Probed(probed)) == (
            s,
            WaitStep::Ask(Request::AwaitSignal),
        ),
{
}

/// An interrupted probe is repeated on the spot and never surfaces; any
/// other failure of the probe ends the operation with the host's own code.
pub proof fn law_probe_failures(s: State, probed: ProbeReply)
    requires
        s.status is None,
        probed.ret < 0,
    ensures
        probed.interrupted ==> s.try_wait_resume(Reply::Probed(probed)) == (
            s,
            TryStep::Ask(s.probe()),
        ),
        probed.interrupted && s.phase == Phase::Probing ==> s.wait_resume(Reply::Probed(probed))
            == (s, WaitStep::Ask(s.probe())),
        !probed.interrupted ==> s.try_wait_resume(Reply::Probed(probed)) == (
            s,
            TryStep::Done(Err(WaitError::Os(probed.errno))),
        ),
        !probed.interrupted && s.phase == Phase::Probing ==> s.wait_resume(Reply::Probed(probed))
            == (s.at(Phase::Idle), WaitStep::Done(Err(WaitError::Os(probed.errno)))),
{
}

/// A wait returns the status of its own child's exit, however long that
/// takes: after any number of fruitless rounds the probe that reaps the
/// child ends the wait with the decoded status, which is then remembered.
pub proof fn law_wait_ends_with_the_exit(s: State, rounds: nat, pid: i32, raw: i32)
    requires
        s.phase == Phase::Idle,
        s.status is None,
        !s.pipes.stdin,
        pid > 0,
    ensures
        s.wait_through(fruitless(rounds)) == (s.at(Phase::Probing), WaitStep::Ask(s.probe())),
        s.wait_through(
            fruitless(rounds).push(
                Reply::Probed(ProbeReply { ret: pid, status: raw, errno: 0, interrupted: false }),
            ),
        ) == (
            s.reaped(ExitStatus::Posix(raw)).at(Phase::Idle),
            WaitStep::Done(Ok(ExitStatus::Posix(raw))),
        ),
    decreases rounds,
{
    if rounds > 0 {
        law_wait_ends_with_the_exit(s, (rounds - 1) as nat, pid, raw);
        let before = fruitless((rounds - 1) as nat);
        let probed = before.push(still_running());
        assert(probed.drop_last() =~= before);
        assert(fruitless(rounds).drop_last() =~= probed);
        assert(s.wait_through(probed) == (s.at(Phase::Parked), WaitStep::Ask(Request::AwaitSignal)));
    }
    let last = Reply::Probed(ProbeReply { ret: pid, status: raw, errno: 0, interrupted: false });
    let full = fruitless(rounds).push(last);
    assert(full.drop_last() =~= fruitless(rounds));
    assert(full.last() == last);
    assert(s.wait_through(full) == s.wait_through(fruitless(rounds)).0.wait_resume(last));
}

} // verus!
