//! What is to be spawned, and what is to become of it.
//!
//! A [`Command`] gathers the program, its arguments, the changes to the
//! environment, the working directory and the three standard streams. It
//! spawns nothing itself: `spawn`, `status` and `output` say how the streams
//! are to be set up and what follows the spawn, and the host does the rest.

use vstd::prelude::*;
use crate::child::Child;
use crate::step::Pipes;
use crate::unix;
use crate::windows;

verus! {

/// How one of the child's standard streams is set up.
#[derive(Clone, Copy, Debug, PartialEq, Eq, Structural)]
pub enum Stdio {
    /// The child shares the parent's stream.
    Inherit,
    /// A pipe joins child and parent, and the parent holds its end.
    Piped,
    /// The stream leads nowhere.
    Null,
}

/// One change to the environment that the child starts with. Changes apply
/// in the order in which they were asked for.
#[derive(Clone, Debug, PartialEq, Eq)]
pub enum EnvDelta {
    /// Set the variable `key` to `value`.
    Assign { key: String, value: String },
    /// Remove the variable `key`.
    Remove { key: String },
    /// Start from an empty environment.
    Clear,
}

/// An [`EnvDelta`] as plain values.
pub enum EnvDeltaView {
    Assign { key: Seq<char>, value: Seq<char> },
    Remove { key: Seq<char> },
    Clear,
}

impl DeepView for EnvDelta {
    type V = EnvDeltaView;

    open spec fn deep_view(&self) -> EnvDeltaView {
        match self {
            EnvDelta::Assign { key, value } => EnvDeltaView::Assign { key: key@, value: value@ },
            EnvDelta::Remove { key } => EnvDeltaView::Remove { key: key@ },
            EnvDelta::Clear => EnvDeltaView::Clear,
        }
    }
}

/// What follows a spawn.
#[derive(Clone, Copy, Debug, PartialEq, Eq, Structural)]
pub enum Follow {
    /// Nothing: the caller gets the child.
    Handle,
    /// A wait for the child's exit.
    Wait,
    /// A wait for the child's exit that collects its output.
    Collect,
}

/// How a child is to be launched: the set-up of its three standard streams,
/// with every stream that was left open decided, and what follows the spawn.
#[derive(Clone, Copy, Debug, PartialEq, Eq, Structural)]
pub struct Launch {
    pub stdin: Stdio,
    pub stdout: Stdio,
    pub stderr: Stdio,
    pub follow: Follow,
}

/// A [`Command`] as plain values.
pub struct CommandView {
    pub program: Seq<char>,
    pub args: Seq<Seq<char>>,
    pub env: Seq<EnvDeltaView>,
    pub dir: Option<Seq<char>>,
    pub stdin: Option<Stdio>,
    pub stdout: Option<Stdio>,
    pub stderr: Option<Stdio>,
}

/// The set-up of a stream: the one asked for, or else the default.
pub open spec fn decided(asked: Option<Stdio>, default: Stdio) -> Stdio {
    match asked {
        Some(stdio) => stdio,
        None => default,
    }
}

impl CommandView {
    /// A command for `program` with nothing else said: no arguments, the
    /// parent's environment and working directory, every stream left open.
    pub open spec fn new(program: Seq<char>) -> CommandView {
        CommandView {
            program,
            args: Seq::empty(),
            env: Seq::empty(),
            dir: None,
            stdin: None,
            stdout: None,
            stderr: None,
        }
    }

    /// This command with one more change to the environment.
    pub open spec fn with_env(self, delta: EnvDeltaView) -> CommandView {
        CommandView { env: self.env.push(delta), ..self }
    }

    /// The launch in which streams left open go to `default`.
    pub open spec fn launch(self, default: Stdio, follow: Follow) -> Launch {
        Launch {
            stdin: decided(self.stdin, default),
            stdout: decided(self.stdout, default),
            stderr: decided(self.stderr, default),
            follow,
        }
    }
}

impl Launch {
    /// The pipe endpoints that the parent holds after the spawn: one for
    /// each stream that is piped.
    pub open spec fn spec_pipes(self) -> Pipes {
        Pipes {
            stdin: self.stdin == Stdio::Piped,
            stdout: self.stdout == Stdio::Piped,
            stderr: self.stderr == Stdio::Piped,
        }
    }

    /// The pipe endpoints that the parent holds after the spawn.
    pub fn pipes(&self) -> (pipes: Pipes)
        ensures
            pipes == self.spec_pipes(),
    {
        Pipes {
            stdin: self.stdin == Stdio::Piped,
            stdout: self.stdout == Stdio::Piped,
            stderr: self.stderr == Stdio::Piped,
        }
    }

    /// Takes charge of the process that a POSIX host spawned as `pid`.
    pub fn adopt_posix(&self, pid: u32) -> (child: Child)
        ensures
            child@ == crate::child::State::posix(pid, self.spec_pipes()),
            child@.wf(),
    {
        Child::from_posix(unix::Child::new(pid, self.pipes()))
    }

    /// Takes charge of the process that a Windows host spawned as `pid`.
    pub fn adopt_windows(&self, pid: u32) -> (child: Child)
        ensures
            child@ == crate::child::State::windows(pid, self.spec_pipes()),
            child@.wf(),
    {
        Child::from_windows(windows::Child::new(pid, self.pipes()))
    }
}

/// A process builder: what to run and how.
#[derive(Clone, Debug)]
pub struct Command {
    program: String,
    args: Vec<String>,
    env: Vec<EnvDelta>,
    dir: Option<String>,
    stdin: Option<Stdio>,
    stdout: Option<Stdio>,
    stderr: Option<Stdio>,
}

impl View for Command {
    type V = CommandView;

    closed spec fn view(&self) -> CommandView {
        CommandView {
            program: self.program@,
            args: self.args.deep_view(),
            env: self.env.deep_view(),
            dir: self.dir.deep_view(),
            stdin: self.stdin,
            stdout: self.stdout,
            stderr: self.stderr,
        }
    }
}

impl Command {
    /// A command that launches `program`, with no arguments, in the parent's
    /// environment and working directory. The standard streams are left
    /// open: `spawn` and `status` inherit them, `output` pipes them.
    pub fn new(program: &str) -> (command: Command)
        ensures
            command@ == CommandView::new(program@),
    {
        let command = Command {
            program: program.to_owned(),
            args: Vec::new(),
            env: Vec::new(),
            dir: None,
            stdin: None,
            stdout: None,
            stderr: None,
        };
        assert(command.args.deep_view() =~= Seq::empty());
        assert(command.env.deep_view() =~= Seq::empty());
        command
    }

    /// Adds one argument to pass to the program.
    pub fn arg(&mut self, arg: &str) -> (ret: &mut Command)
        ensures
            ret@ == (CommandView { args: old(self)@.args.push(arg@), ..old(self)@ }),
            *final(self) == *final(ret),
    {
        self.args.push(arg.to_owned());
        assert(self.args.deep_view() =~= old(self).args.deep_view().push(arg@));
        self
    }

    /// Adds arguments to pass to the program, in their order.
    pub fn args(&mut self, args: &[&str]) -> (ret: &mut Command)
        ensures
            ret@ == (CommandView { args: old(self)@.args + args.deep_view(), ..old(self)@ }),
            *final(self) == *final(ret),
    {
        let mut i: usize = 0;
        while i < args.len()
            invariant
                i <= args.len(),
                self@ == (CommandView {
                    args: old(self)@.args + args.deep_view().take(i as int),
                    ..old(self)@
                }),
            decreases args.len() - i,
        {
            let ghost before = self.args.deep_view();
            self.args.push(args[i].to_owned());
            assert(self.args.deep_view() =~= before.push(args[i as int]@));
            assert(args.deep_view().take(i + 1) =~= args.deep_view().take(i as int).push(
                args[i as int]@,
            ));
            assert(old(self)@.args + args.deep_view().take(i as int).push(args[i as int]@)
                =~= (old(self)@.args + args.deep_view().take(i as int)).push(args[i as int]@));
            i += 1;
        }
        assert(args.deep_view().take(i as int) =~= args.deep_view());
        self
    }

    fn push_env(&mut self, delta: EnvDelta)
        ensures
            final(self)@ == old(self)@.with_env(delta.deep_view()),
    {
        self.env.push(delta);
        assert(self.env.deep_view() =~= old(self).env.deep_view().push(delta.deep_view()));
    }

    /// Sets an environment variable for the child, or changes its value.
    pub fn env(&mut self, key: &str, val: &str) -> (ret: &mut Command)
        ensures
            ret@ == old(self)@.with_env(EnvDeltaView::Assign { key: key@, value: val@ }),
            *final(self) == *final(ret),
    {
        self.push_env(EnvDelta::Assign { key: key.to_owned(), value: val.to_owned() });
        self
    }

    /// Sets environment variables for the child, in their order.
    pub fn envs(&mut self, vars: &[(&str, &str)]) -> (ret: &mut Command)
        ensures
            ret@ == (CommandView {
                env: old(self)@.env + assignments(vars.deep_view()),
                ..old(self)@
            }),
            *final(self) == *final(ret),
    {
        let mut i: usize = 0;
        while i < vars.len()
            invariant
                i <= vars.len(),
                self@ == (CommandView {
                    env: old(self)@.env + assignments(vars.deep_view().take(i as int)),
                    ..old(self)@
                }),
            decreases vars.len() - i,
        {
            let pair = vars[i];
            self.push_env(EnvDelta::Assign { key: pair.0.to_owned(), value: pair.1.to_owned() });
            assert(assignments(vars.deep_view().take(i + 1)) =~= assignments(
                vars.deep_view().take(i as int),
            ).push(EnvDeltaView::Assign { key: pair.0@, value: pair.1@ }));
            assert(old(self)@.env + assignments(vars.deep_view().take(i as int)).push(
                EnvDeltaView::Assign { key: pair.0@, value: pair.1@ },
            ) =~= (old(self)@.env + assignments(vars.deep_view().take(i as int))).push(
                EnvDeltaView::Assign { key: pair.0@, value: pair.1@ },
            ));
            i += 1;
        }
        assert(vars.deep_view().take(i as int) =~= vars.deep_view());
        self
    }

    /// Removes an environment variable from what the child starts with.
    pub fn env_remove(&mut self, key: &str) -> (ret: &mut Command)
        ensures
            ret@ == old(self)@.with_env(EnvDeltaView::Remove { key: key@ }),
            *final(self) == *final(ret),
    {
        self.push_env(EnvDelta::Remove { key: key.to_owned() });
        self
    }

    /// Clears the environment that the child starts with.
    pub fn env_clear(&mut self) -> (ret: &mut Command)
        ensures
            ret@ == old(self)@.with_env(EnvDeltaView::Clear),
            *final(self) == *final(ret),
    {
        self.push_env(EnvDelta::Clear);
        self
    }

    /// Sets the working directory of the child.
    pub fn current_dir(&mut self, dir: &str) -> (ret: &mut Command)
        ensures
            ret@ == (CommandView { dir: Some(dir@), ..old(self)@ }),
            *final(self) == *final(ret),
    {
        self.dir = Some(dir.to_owned());
        self
    }

    /// Sets up the child's standard input.
    pub fn stdin(&mut self, cfg: Stdio) -> (ret: &mut Command)
        ensures
            ret@ == (CommandView { stdin: Some(cfg), ..old(self)@ }),
            *final(self) == *final(ret),
    {
        self.stdin = Some(cfg);
        self
    }

    /// Sets up the child's standard output.
    pub fn stdout(&mut self, cfg: Stdio) -> (ret: &mut Command)
        ensures
            ret@ == (CommandView { stdout: Some(cfg), ..old(self)@ }),
            *final(self) == *final(ret),
    {
        self.stdout = Some(cfg);
        self
    }

    /// Sets up the child's standard error.
    pub fn stderr(&mut self, cfg: Stdio) -> (ret: &mut Command)
        ensures
            ret@ == (CommandView { stderr: Some(cfg), ..old(self)@ }),
            *final(self) == *final(ret),
    {
        self.stderr = Some(cfg);
        self
    }

    fn launch(&self, default: Stdio, follow: Follow) -> (launch: Launch)
        ensures
            launch == self@.launch(default, follow),
    {
        Launch {
            stdin: match self.stdin {
                Some(stdio) => stdio,
                None => default,
            },
            stdout: match self.stdout {
                Some(stdio) => stdio,
                None => default,
            },
            stderr: match self.stderr {
                Some(stdio) => stdio,
                None => default,
            },
            follow,
        }
    }

    /// The launch that hands the child to the caller. Streams left open are
    /// inherited from the parent.
    pub fn spawn(&mut self) -> (launch: Launch)
        ensures
            launch == old(self)@.launch(Stdio::Inherit, Follow::Handle),
            final(self)@ == old(self)@,
    {
        self.launch(Stdio::Inherit, Follow::Handle)
    }

    /// The launch that waits for the child and reports how it ended: a
    /// spawn, and then a wait. Streams left open are inherited from the
    /// parent.
    pub fn status(&mut self) -> (launch: Launch)
        ensures
            launch == old(self)@.launch(Stdio::Inherit, Follow::Wait),
            final(self)@ == old(self)@,
    {
        self.launch(Stdio::Inherit, Follow::Wait)
    }

    /// The launch that waits for the child and collects all it wrote: a
    /// spawn, then a wait, and only then the reading of the pipes. Streams
    /// left open are piped, so that standard output and standard error are
    /// captured, and standard input, which the wait closes first, gives the
    /// child nothing to read.
    pub fn output(&mut self) -> (launch: Launch)
        ensures
            launch == old(self)@.launch(Stdio::Piped, Follow::Collect),
            final(self)@ == old(self)@,
    {
        self.launch(Stdio::Piped, Follow::Collect)
    }

    /// The program to launch.
    pub fn get_program(&self) -> (program: &String)
        ensures
            program@ == self@.program,
    {
        &self.program
    }

    /// The arguments to pass, in their order.
    pub fn get_args(&self) -> (args: &Vec<String>)
        ensures
            args.deep_view() == self@.args,
    {
        &self.args
    }

    /// The changes to the environment, in their order.
    pub fn get_envs(&self) -> (env: &Vec<EnvDelta>)
        ensures
            env.deep_view() == self@.env,
    {
        &self.env
    }

    /// The working directory, if one was set.
    pub fn get_current_dir(&self) -> (dir: &Option<String>)
        ensures
            dir.deep_view() == self@.dir,
    {
        &self.dir
    }
}

/// The changes that set each of `vars`, a key and its value, in their order.
pub open spec fn assignments(vars: Seq<(Seq<char>, Seq<char>)>) -> Seq<EnvDeltaView> {
    vars.map_values(|pair: (Seq<char>, Seq<char>)| EnvDeltaView::Assign { key: pair.0, value: pair.1 })
}

/// A launch pipes exactly the streams that were asked to be piped, or were
/// left open where the default is to pipe. So `spawn` and `status` hold a
/// pipe only where one was asked for, and `output` captures standard output
/// and standard error unless told otherwise.
pub proof fn law_launch_defaults(command: CommandView, follow: Follow)
    ensures
        command.launch(Stdio::Inherit, follow).spec_pipes() == (Pipes {
            stdin: command.stdin == Some(Stdio::Piped),
            stdout: command.stdout == Some(Stdio::Piped),
            stderr: command.stderr == Some(Stdio::Piped),
        }),
        command.launch(Stdio::Piped, follow).spec_pipes() == (Pipes {
            stdin: command.stdin is None || command.stdin == Some(Stdio::Piped),
            stdout: command.stdout is None || command.stdout == Some(Stdio::Piped),
            stderr: command.stderr is None || command.stderr == Some(Stdio::Piped),
        }),
        CommandView::new(command.program).launch(Stdio::Piped, follow).spec_pipes() == (Pipes {
            stdin: true,
            stdout: true,
            stderr: true,
        }),
{
}

} // verus!
