//! A spawned child, whatever the host: one surface over the two waiters,
//! and the collection of a child's output once it has exited.

use vstd::prelude::*;
use crate::error::WaitError;
use crate::status::ExitStatus;
use crate::step::{Pipes, Step, Terminate};
use crate::unix;
use crate::windows;

verus! {

/// Which of the child's output pipes are to be read to the end. Where both
/// are named they are read at the same time, never one after the other: a
/// child that fills the pipe nobody reads would stall the read of the other.
#[derive(Clone, Copy, Debug, PartialEq, Eq, Structural)]
pub struct Drain {
    /// Read standard output.
    pub stdout: bool,
    /// Read standard error.
    pub stderr: bool,
}

impl Drain {
    /// Whether two reads run side by side.
    pub open spec fn spec_concurrent(self) -> bool {
        self.stdout && self.stderr
    }

    /// Whether two reads run side by side.
    pub fn concurrent(&self) -> (both: bool)
        ensures
            both == self.spec_concurrent(),
    {
        self.stdout && self.stderr
    }
}

/// What a child may ask of its host.
#[derive(Clone, Copy, Debug, PartialEq, Eq, Structural)]
pub enum Request {
    /// A request of the POSIX waiter.
    Posix(unix::Request),
    /// A request of the Windows waiter.
    Windows(windows::Request),
    /// Read the named pipes to the end; answer with [`Reply::Drained`].
    Drain(Drain),
}

/// What the host reports back.
#[derive(Clone, Debug, PartialEq, Eq)]
pub enum Reply {
    /// A reply to the POSIX waiter.
    Posix(unix::Reply),
    /// A reply to the Windows waiter.
    Windows(windows::Reply),
    /// What the pipes held. A pipe that was not to be read is left empty.
    Drained { stdout: Vec<u8>, stderr: Vec<u8> },
}

/// The exit status of a child together with all it wrote.
#[derive(Clone, Debug, PartialEq, Eq)]
pub struct Output {
    /// How the child ended.
    pub status: ExitStatus,
    /// What it wrote to standard output, if that was captured.
    pub stdout: Vec<u8>,
    /// What it wrote to standard error, if that was captured.
    pub stderr: Vec<u8>,
}

/// An [`Output`] as plain values.
pub struct OutputView {
    pub status: ExitStatus,
    pub stdout: Seq<u8>,
    pub stderr: Seq<u8>,
}

impl View for Output {
    type V = OutputView;

    open spec fn view(&self) -> OutputView {
        OutputView { status: self.status, stdout: self.stdout@, stderr: self.stderr@ }
    }
}

/// One turn of a status check.
pub type TryStep = Step<Request, Option<ExitStatus>>;

/// One turn of a wait.
pub type WaitStep = Step<Request, ExitStatus>;

/// One turn of a wait that collects the output.
pub type OutputStep = Step<Request, Output>;

/// How far the collection of a child's output has come.
#[derive(Clone, Copy, Debug, PartialEq, Eq)]
pub enum Collect {
    /// Nothing is being collected.
    Off,
    /// The wait for the exit is in flight.
    Waiting,
    /// The child has exited with `status`, and the host was asked to read
    /// the pipes that `plan` names.
    Draining { status: ExitStatus, plan: Drain },
}

/// The waiter of a child, by host.
pub enum WaiterState {
    Posix(unix::State),
    Windows(windows::State),
}

/// Everything known about a child.
pub struct State {
    /// The platform's waiter.
    pub waiter: WaiterState,
    /// The collection of output in flight, if any.
    pub collect: Collect,
}

/// A POSIX step as a step of the child.
pub open spec fn from_posix<T>(step: Step<unix::Request, T>) -> Step<Request, T> {
    match step {
        Step::Ask(request) => Step::Ask(Request::Posix(request)),
        Step::Done(result) => Step::Done(result),
    }
}

/// A Windows step as a step of the child.
pub open spec fn from_windows<T>(step: Step<windows::Request, T>) -> Step<Request, T> {
    match step {
        Step::Ask(request) => Step::Ask(Request::Windows(request)),
        Step::Done(result) => Step::Done(result),
    }
}

/// A step that carries an output, with the output as plain values.
pub open spec fn output_view(step: OutputStep) -> Step<Request, OutputView> {
    match step {
        Step::Ask(request) => Step::Ask(request),
        Step::Done(Ok(output)) => Step::Done(Ok(output@)),
        Step::Done(Err(error)) => Step::Done(Err(error)),
    }
}

/// What a reply about the pipes amounts to, given what was to be read: a
/// pipe that was not to be read has yielded nothing, whatever the reply says.
pub open spec fn drained(plan: Drain, status: ExitStatus, stdout: Seq<u8>, stderr: Seq<u8>)
    -> OutputView {
    OutputView {
        status,
        stdout: if plan.stdout {
            stdout
        } else {
            Seq::empty()
        },
        stderr: if plan.stderr {
            stderr
        } else {
            Seq::empty()
        },
    }
}

impl WaiterState {
    /// The process id the host assigned.
    pub open spec fn pid(self) -> u32 {
        match self {
            WaiterState::Posix(s) => s.pid,
            WaiterState::Windows(s) => s.pid,
        }
    }

    /// The pipe endpoints still held.
    pub open spec fn pipes(self) -> Pipes {
        match self {
            WaiterState::Posix(s) => s.pipes,
            WaiterState::Windows(s) => s.pipes,
        }
    }

    /// The exit status, once it was observed.
    pub open spec fn status(self) -> Option<ExitStatus> {
        match self {
            WaiterState::Posix(s) => s.status,
            WaiterState::Windows(s) => s.status,
        }
    }

    /// Whether no wait is in flight.
    pub open spec fn idle(self) -> bool {
        match self {
            WaiterState::Posix(s) => s.phase == unix::Phase::Idle,
            WaiterState::Windows(s) => s.phase == windows::Phase::Idle,
        }
    }

    /// Whether the waiter is well formed.
    pub open spec fn wf(self) -> bool {
        match self {
            WaiterState::Posix(s) => s.wf(),
            WaiterState::Windows(s) => s.wf(),
        }
    }

    /// The waiter once the reading ends of the output pipes are handed over.
    pub open spec fn without_output(self) -> WaiterState {
        match self {
            WaiterState::Posix(s) => WaiterState::Posix(s.without_output()),
            WaiterState::Windows(s) => WaiterState::Windows(s.without_output()),
        }
    }

    /// The start of a status check.
    pub open spec fn try_wait(self) -> (WaiterState, TryStep) {
        match self {
            WaiterState::Posix(s) => (
                WaiterState::Posix(s.try_wait().0),
                from_posix(s.try_wait().1),
            ),
            WaiterState::Windows(s) => (
                WaiterState::Windows(s.try_wait().0),
                from_windows(s.try_wait().1),
            ),
        }
    }

    /// A status check goes on. A reply meant for the other host's waiter, or
    /// for the reader of the pipes, has answered nothing.
    pub open spec fn try_wait_resume(self, reply: Reply) -> (WaiterState, TryStep) {
        match (self, reply) {
            (WaiterState::Posix(s), Reply::Posix(r)) => (
                WaiterState::Posix(s.try_wait_resume(r).0),
                from_posix(s.try_wait_resume(r).1),
            ),
            (WaiterState::Windows(s), Reply::Windows(r)) => (
                WaiterState::Windows(s.try_wait_resume(r).0),
                from_windows(s.try_wait_resume(r).1),
            ),
            _ => self.try_wait(),
        }
    }

    /// The start of a wait.
    pub open spec fn wait(self) -> (WaiterState, WaitStep) {
        match self {
            WaiterState::Posix(s) => (WaiterState::Posix(s.wait().0), from_posix(s.wait().1)),
            WaiterState::Windows(s) => (
                WaiterState::Windows(s.wait().0),
                from_windows(s.wait().1),
            ),
        }
    }

    /// A wait goes on. A reply meant for the other host's waiter, or for the
    /// reader of the pipes, has answered nothing.
    pub open spec fn wait_resume(self, reply: Reply) -> (WaiterState, WaitStep) {
        match (self, reply) {
            (WaiterState::Posix(s), Reply::Posix(r)) => (
                WaiterState::Posix(s.wait_resume(r).0),
                from_posix(s.wait_resume(r).1),
            ),
            (WaiterState::Windows(s), Reply::Windows(r)) => (
                WaiterState::Windows(s.wait_resume(r).0),
                from_windows(s.wait_resume(r).1),
            ),
            _ => self.wait(),
        }
    }
}

impl State {
    /// The process id the host assigned.
    pub open spec fn pid(self) -> u32 {
        self.waiter.pid()
    }

    /// The pipe endpoints still held.
    pub open spec fn pipes(self) -> Pipes {
        self.waiter.pipes()
    }

    /// The exit status, once it was observed.
    pub open spec fn status(self) -> Option<ExitStatus> {
        self.waiter.status()
    }

    /// Whether the child is well formed: its waiter is, and pipes are being
    /// read only for a child whose wait is over, whose status is the one
    /// remembered, and whose pipes have all been let go.
    pub open spec fn wf(self) -> bool {
        &&& self.waiter.wf()
        &&& self.collect matches Collect::Draining { status, plan } ==> {
            &&& self.waiter.idle()
            &&& self.status() == Some(status)
            &&& self.pipes() == (Pipes { stdin: false, stdout: false, stderr: false })
            &&& plan.stdout || plan.stderr
        }
    }

    /// A POSIX child fresh from the spawn.
    pub open spec fn posix(pid: u32, pipes: Pipes) -> State {
        State { waiter: WaiterState::Posix(unix::State::spawned(pid, pipes)), collect: Collect::Off }
    }

    /// A Windows child fresh from the spawn.
    pub open spec fn windows(pid: u32, pipes: Pipes) -> State {
        State {
            waiter: WaiterState::Windows(windows::State::spawned(pid, pipes)),
            collect: Collect::Off,
        }
    }

    /// The start of a status check.
    pub open spec fn try_wait(self) -> (State, TryStep) {
        (State { waiter: self.waiter.try_wait().0, ..self }, self.waiter.try_wait().1)
    }

    /// A status check goes on with the host's reply.
    pub open spec fn try_wait_resume(self, reply: Reply) -> (State, TryStep) {
        (
            State { waiter: self.waiter.try_wait_resume(reply).0, ..self },
            self.waiter.try_wait_resume(reply).1,
        )
    }

    /// The start of a wait.
    pub open spec fn wait(self) -> (State, WaitStep) {
        (State { waiter: self.waiter.wait().0, ..self }, self.waiter.wait().1)
    }

    /// A wait goes on with the host's reply.
    pub open spec fn wait_resume(self, reply: Reply) -> (State, WaitStep) {
        (State { waiter: self.waiter.wait_resume(reply).0, ..self }, self.waiter.wait_resume(reply).1)
    }

    /// What a turn of the wait means for the collection of output. While
    /// the wait goes on, so does the collection. A failed wait fails it.
    /// Once the child has exited, the pipes that are held are handed over to
    /// be read; where none is held the output is empty and nothing is asked.
    pub open spec fn after_wait(self, step: WaitStep) -> (State, Step<Request, OutputView>) {
        match step {
            Step::Ask(request) => (State { collect: Collect::Waiting, ..self }, Step::Ask(request)),
            Step::Done(Err(error)) => (
                State { collect: Collect::Off, ..self },
                Step::Done(Err(error)),
            ),
            Step::Done(Ok(status)) => {
                let plan = Drain { stdout: self.pipes().stdout, stderr: self.pipes().stderr };
                if plan.stdout || plan.stderr {
                    (
                        State {
                            waiter: self.waiter.without_output(),
                            collect: Collect::Draining { status, plan },
                        },
                        Step::Ask(Request::Drain(plan)),
                    )
                } else {
                    (
                        State { collect: Collect::Off, ..self },
                        Step::Done(Ok(drained(plan, status, Seq::empty(), Seq::empty()))),
                    )
                }
            },
        }
    }

    /// The start of a wait that collects the output: the wait comes first.
    /// A collection already reading the pipes is joined.
    pub open spec fn wait_with_output(self) -> (State, Step<Request, OutputView>) {
        match self.collect {
            Collect::Draining { plan, .. } => (self, Step::Ask(Request::Drain(plan))),
            _ => self.wait().0.after_wait(self.wait().1),
        }
    }

    /// A wait that collects the output goes on with the host's reply.
    pub open spec fn wait_with_output_resume(self, reply: Reply) -> (
        State,
        Step<Request, OutputView>,
    ) {
        match (self.collect, reply) {
            (Collect::Off, _) => self.wait_with_output(),
            (Collect::Waiting, _) => self.wait_resume(reply).0.after_wait(
                self.wait_resume(reply).1,
            ),
            (Collect::Draining { status, plan }, Reply::Drained { stdout, stderr }) => (
                State { collect: Collect::Off, ..self },
                Step::Done(Ok(drained(plan, status, stdout@, stderr@))),
            ),
            (Collect::Draining { plan, .. }, _) => (self, Step::Ask(Request::Drain(plan))),
        }
    }
}

/// The waiter of a child, by host.
#[derive(Debug)]
pub enum Waiter {
    Posix(unix::Child),
    Windows(windows::Child),
}

impl View for Waiter {
    type V = WaiterState;

    open spec fn view(&self) -> WaiterState {
        match self {
            Waiter::Posix(child) => WaiterState::Posix(child@),
            Waiter::Windows(child) => WaiterState::Windows(child@),
        }
    }
}

fn lift_posix<T>(step: Step<unix::Request, T>) -> (lifted: Step<Request, T>)
    ensures
        lifted == from_posix(step),
{
    match step {
        Step::Ask(request) => Step::Ask(Request::Posix(request)),
        Step::Done(result) => Step::Done(result),
    }
}

fn lift_windows<T>(step: Step<windows::Request, T>) -> (lifted: Step<Request, T>)
    ensures
        lifted == from_windows(step),
{
    match step {
        Step::Ask(request) => Step::Ask(Request::Windows(request)),
        Step::Done(result) => Step::Done(result),
    }
}

impl Waiter {
    fn try_wait(&mut self) -> (step: TryStep)
        ensures
            (final(self)@, step) == old(self)@.try_wait(),
            final(self)@.wf(),
    {
        match self {
            Waiter::Posix(child) => lift_posix(child.try_wait()),
            Waiter::Windows(child) => lift_windows(child.try_wait()),
        }
    }

    fn try_wait_resume(&mut self, reply: Reply) -> (step: TryStep)
        ensures
            (final(self)@, step) == old(self)@.try_wait_resume(reply),
            final(self)@.wf(),
    {
        match (self, reply) {
            (Waiter::Posix(child), Reply::Posix(r)) => lift_posix(child.try_wait_resume(r)),
            (Waiter::Windows(child), Reply::Windows(r)) => lift_windows(child.try_wait_resume(r)),
            (Waiter::Posix(child), _) => lift_posix(child.try_wait()),
            (Waiter::Windows(child), _) => lift_windows(child.try_wait()),
        }
    }

    fn wait(&mut self) -> (step: WaitStep)
        ensures
            (final(self)@, step) == old(self)@.wait(),
            final(self)@.wf(),
    {
        match self {
            Waiter::Posix(child) => lift_posix(child.wait()),
            Waiter::Windows(child) => lift_windows(child.wait()),
        }
    }

    fn wait_resume(&mut self, reply: Reply) -> (step: WaitStep)
        ensures
            (final(self)@, step) == old(self)@.wait_resume(reply),
            final(self)@.wf(),
    {
        match (self, reply) {
            (Waiter::Posix(child), Reply::Posix(r)) => lift_posix(child.wait_resume(r)),
            (Waiter::Windows(child), Reply::Windows(r)) => lift_windows(child.wait_resume(r)),
            (Waiter::Posix(child), _) => lift_posix(child.wait()),
            (Waiter::Windows(child), _) => lift_windows(child.wait()),
        }
    }

    fn take_output(&mut self) -> (held: Pipes)
        ensures
            held == old(self)@.pipes(),
            final(self)@ == old(self)@.without_output(),
            final(self)@.wf(),
    {
        match self {
            Waiter::Posix(child) => child.take_output(),
            Waiter::Windows(child) => child.take_output(),
        }
    }
}

/// A spawned child: its waiter, and the collection of its output.
#[derive(Debug)]
pub struct Child {
    waiter: Waiter,
    collect: Collect,
}

impl View for Child {
    type V = State;

    closed spec fn view(&self) -> State {
        State { waiter: self.waiter@, collect: self.collect }
    }
}

impl Child {
    /// A child on a POSIX host.
    pub fn from_posix(child: unix::Child) -> (made: Child)
        ensures
            made@ == (State { waiter: WaiterState::Posix(child@), collect: Collect::Off }),
    {
        Child { waiter: Waiter::Posix(child), collect: Collect::Off }
    }

    /// A child on a Windows host.
    pub fn from_windows(child: windows::Child) -> (made: Child)
        ensures
            made@ == (State { waiter: WaiterState::Windows(child@), collect: Collect::Off }),
    {
        Child { waiter: Waiter::Windows(child), collect: Collect::Off }
    }

    /// The process id the host assigned.
    pub fn id(&self) -> (pid: u32)
        ensures
            pid == self@.pid(),
    {
        match &self.waiter {
            Waiter::Posix(child) => child.id(),
            Waiter::Windows(child) => child.id(),
        }
    }

    /// The pipe endpoints still held.
    pub fn pipes(&self) -> (pipes: Pipes)
        ensures
            pipes == self@.pipes(),
    {
        match &self.waiter {
            Waiter::Posix(child) => child.pipes(),
            Waiter::Windows(child) => child.pipes(),
        }
    }

    /// The request to end the child by force. Asking for it changes nothing
    /// here: a wait in flight stays where it is, and learns of the exit the
    /// way it learns of any other.
    pub fn kill(&mut self) -> (request: Terminate)
        ensures
            request.pid == old(self)@.pid(),
            final(self)@ == old(self)@,
    {
        match &mut self.waiter {
            Waiter::Posix(child) => child.kill(),
            Waiter::Windows(child) => child.kill(),
        }
    }

    /// Starts a check for the exit status that never suspends the task.
    ///
    /// Once a status was observed it is handed out from memory, with nothing
    /// asked of the host.
    pub fn try_wait(&mut self) -> (step: TryStep)
        ensures
            (final(self)@, step) == old(self)@.try_wait(),
            old(self)@.wf() ==> final(self)@.wf(),
    {
        self.waiter.try_wait()
    }

    /// Goes on with a status check, given the host's reply.
    pub fn try_wait_resume(&mut self, reply: Reply) -> (step: TryStep)
        ensures
            (final(self)@, step) == old(self)@.try_wait_resume(reply),
            old(self)@.wf() ==> final(self)@.wf(),
    {
        self.waiter.try_wait_resume(reply)
    }

    /// Starts a wait for the child's exit. The first thing asked of the
    /// host is to close standard input.
    pub fn wait(&mut self) -> (step: WaitStep)
        ensures
            (final(self)@, step) == old(self)@.wait(),
            old(self)@.wf() ==> final(self)@.wf(),
    {
        self.waiter.wait()
    }

    /// Goes on with a wait, given the host's reply.
    pub fn wait_resume(&mut self, reply: Reply) -> (step: WaitStep)
        ensures
            (final(self)@, step) == old(self)@.wait_resume(reply),
            old(self)@.wf() ==> final(self)@.wf(),
    {
        self.waiter.wait_resume(reply)
    }

    fn after_wait(&mut self, step: WaitStep) -> (next: OutputStep)
        ensures
            (final(self)@, output_view(next)) == old(self)@.after_wait(step),
    {
        match step {
            Step::Ask(request) => {
                self.collect = Collect::Waiting;
                Step::Ask(request)
            },
            Step::Done(Err(error)) => {
                self.collect = Collect::Off;
                Step::Done(Err(error))
            },
            Step::Done(Ok(status)) => {
                let held = self.pipes();
                let plan = Drain { stdout: held.stdout, stderr: held.stderr };
                if plan.stdout || plan.stderr {
                    let _ = self.waiter.take_output();
                    self.collect = Collect::Draining { status, plan };
                    Step::Ask(Request::Drain(plan))
                } else {
                    self.collect = Collect::Off;
                    Step::Done(Ok(Output { status, stdout: Vec::new(), stderr: Vec::new() }))
                }
            },
        }
    }

    /// Starts a wait for the child's exit that goes on to collect what the
    /// child wrote.
    ///
    /// The wait always comes first. Only when the child has exited are the
    /// pipes read, the ones that are held, and both at a time where two are.
    pub fn wait_with_output(&mut self) -> (step: OutputStep)
        ensures
            (final(self)@, output_view(step)) == old(self)@.wait_with_output(),
            old(self)@.wf() ==> final(self)@.wf(),
    {
        match self.collect {
            Collect::Draining { plan, .. } => Step::Ask(Request::Drain(plan)),
            _ => {
                let step = self.waiter.wait();
                self.after_wait(step)
            },
        }
    }

    /// Goes on with a wait that collects the output, given the host's reply.
    pub fn wait_with_output_resume(&mut self, reply: Reply) -> (step: OutputStep)
        ensures
            (final(self)@, output_view(step)) == old(self)@.wait_with_output_resume(reply),
            old(self)@.wf() ==> final(self)@.wf(),
    {
        match self.collect {
            Collect::Off => self.wait_with_output(),
            Collect::Waiting => {
                let step = self.waiter.wait_resume(reply);
                self.after_wait(step)
            },
            Collect::Draining { status, plan } => match reply {
                Reply::Drained { stdout, stderr } => {
                    self.collect = Collect::Off;
                    let stdout = if plan.stdout {
                        stdout
                    } else {
                        Vec::new()
                    };
                    let stderr = if plan.stderr {
                        stderr
                    } else {
                        Vec::new()
                    };
                    Step::Done(Ok(Output { status, stdout, stderr }))
                },
                _ => Step::Ask(Request::Drain(plan)),
            },
        }
    }
}

/// Every operation keeps a child well formed.
pub proof fn law_steps_keep_wf(s: State, reply: Reply)
    requires
        s.wf(),
    ensures
        s.try_wait().0.wf(),
        s.try_wait_resume(reply).0.wf(),
        s.wait().0.wf(),
        s.wait_resume(reply).0.wf(),
        s.wait_with_output().0.wf(),
        s.wait_with_output_resume(reply).0.wf(),
{
}

/// On either host: once a status is in memory, every status check ends at
/// once with that status and asks nothing of the host, no operation changes
/// what is remembered, and a wait never fails and never ends with another
/// status.
pub proof fn law_status_is_final(s: State, status: ExitStatus, reply: Reply)
    requires
        s.status() == Some(status),
    ensures
        s.try_wait() == (s, TryStep::Done(Ok(Some(status)))),
        s.try_wait_resume(reply) == (s, TryStep::Done(Ok(Some(status)))),
        s.wait().0.status() == Some(status),
        s.wait_resume(reply).0.status() == Some(status),
        s.wait().1 matches Step::Done(result) ==> result == Ok::<ExitStatus, WaitError>(status),
        s.wait_resume(reply).1 matches Step::Done(result) ==> result == Ok::<
            ExitStatus,
            WaitError,
        >(status),
{
}

/// On either host: a wait that has ended with a status can be repeated at
/// will. The next wait ends at once with the same status, asks nothing of
/// the host, and leaves the child as it found it.
pub proof fn law_wait_is_idempotent(s: State, reply: Reply, status: ExitStatus)
    requires
        s.wf(),
    ensures
        s.wait().1 == WaitStep::Done(Ok(status)) ==> s.wait().0.wait() == (
            s.wait().0,
            WaitStep::Done(Ok(status)),
        ),
        s.wait_resume(reply).1 == WaitStep::Done(Ok(status)) ==> s.wait_resume(reply).0.wait() == (
            s.wait_resume(reply).0,
            WaitStep::Done(Ok(status)),
        ),
{
}

/// The wait comes before the pipes. The host is asked to read only when the
/// child has exited, only pipes that were held, at least one of them, and
/// they are let go with the request. An output that is handed out carries
/// the status that the wait observed.
pub proof fn law_output_waits_first(s: State, reply: Reply)
    requires
        s.wf(),
        !(s.collect is Draining),
    ensures
        s.wait_with_output().1 matches Step::Ask(Request::Drain(plan)) ==> {
            &&& s.wait_with_output().0.status() is Some
            &&& plan.stdout == s.pipes().stdout
            &&& plan.stderr == s.pipes().stderr
            &&& plan.stdout || plan.stderr
            &&& !s.wait_with_output().0.pipes().stdout
            &&& !s.wait_with_output().0.pipes().stderr
        },
        s.wait_with_output_resume(reply).1 matches Step::Ask(Request::Drain(plan)) ==> {
            &&& s.wait_with_output_resume(reply).0.status() is Some
            &&& plan.stdout == s.pipes().stdout
            &&& plan.stderr == s.pipes().stderr
            &&& plan.stdout || plan.stderr
            &&& !s.wait_with_output_resume(reply).0.pipes().stdout
            &&& !s.wait_with_output_resume(reply).0.pipes().stderr
        },
        s.wait_with_output().1 matches Step::Done(Ok(output)) ==> s.wait_with_output().0.status()
            == Some(output.status),
        s.wait_with_output_resume(reply).1 matches Step::Done(Ok(output))
            ==> s.wait_with_output_resume(reply).0.status() == Some(output.status),
{
}

/// What the host read is what is handed out: the collection ends with the
/// remembered status, the bytes of each pipe that was to be read, and
/// nothing for a pipe that was not.
pub proof fn law_output_is_what_was_read(
    s: State,
    status: ExitStatus,
    plan: Drain,
    stdout: Vec<u8>,
    stderr: Vec<u8>,
)
    requires
        s.collect == (Collect::Draining { status, plan }),
    ensures
        s.wait_with_output_resume(Reply::Drained { stdout, stderr }) == (
            State { collect: Collect::Off, ..s },
            Step::<Request, OutputView>::Done(
                Ok(
                    OutputView {
                        status,
                        stdout: if plan.stdout {
                            stdout@
                        } else {
                            Seq::empty()
                        },
                        stderr: if plan.stderr {
                            stderr@
                        } else {
                            Seq::empty()
                        },
                    },
                ),
            ),
        ),
{
}

} // verus!
