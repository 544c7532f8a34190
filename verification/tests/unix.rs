use may_process::child::{Child, Output, Reply, Request};
use may_process::command::{Command, Follow, Launch};
use may_process::error::WaitError;
use may_process::status::ExitStatus;
use may_process::step::Step;
use may_process::unix;

/// A stand-in for a process on a POSIX host: it runs for a number of probes,
/// then exits with a wait status, having written its output.
struct Process {
    pid: u32,
    probes_left: u32,
    raw: i32,
    stdout: Vec<u8>,
    stderr: Vec<u8>,
    stdin_open: bool,
    reaped: bool,
    parks: u32,
}

fn process(pid: u32, probes_left: u32, raw: i32, stdout: &[u8]) -> Process {
    Process {
        pid,
        probes_left,
        raw,
        stdout: stdout.to_vec(),
        stderr: Vec::new(),
        stdin_open: true,
        reaped: false,
        parks: 0,
    }
}

fn answer(p: &mut Process, request: Request) -> Reply {
    match request {
        Request::Posix(unix::Request::CloseStdin) => {
            p.stdin_open = false;
            Reply::Posix(unix::Reply::StdinClosed)
        }
        Request::Posix(unix::Request::Probe { pid }) => {
            assert_eq!(pid, p.pid as i32);
            assert!(!p.reaped, "a reaped process was probed again");
            let (ret, status) = if p.probes_left == 0 {
                p.reaped = true;
                (pid, p.raw)
            } else {
                p.probes_left -= 1;
                (0, 0)
            };
            Reply::Posix(unix::Reply::Probed(unix::ProbeReply {
                ret,
                status,
                errno: 0,
                interrupted: false,
            }))
        }
        Request::Posix(unix::Request::AwaitSignal) => {
            assert!(!p.stdin_open, "the task was suspended with stdin held");
            p.parks += 1;
            Reply::Posix(unix::Reply::Woken)
        }
        Request::Drain(plan) => {
            assert!(p.reaped, "the pipes were read before the child had exited");
            Reply::Drained {
                stdout: if plan.stdout { p.stdout.clone() } else { Vec::new() },
                stderr: if plan.stderr { p.stderr.clone() } else { Vec::new() },
            }
        }
        Request::Windows(_) => panic!("a POSIX host was asked for a Windows service"),
    }
}

fn wait(child: &mut Child, p: &mut Process) -> Result<ExitStatus, WaitError> {
    let mut step = child.wait();
    loop {
        match step {
            Step::Ask(request) => step = child.wait_resume(answer(p, request)),
            Step::Done(result) => return result,
        }
    }
}

fn wait_with_output(child: &mut Child, p: &mut Process) -> Result<Output, WaitError> {
    let mut step = child.wait_with_output();
    loop {
        match step {
            Step::Ask(request) => step = child.wait_with_output_resume(answer(p, request)),
            Step::Done(result) => return result,
        }
    }
}

fn status(launch: Launch, p: &mut Process) -> Result<ExitStatus, WaitError> {
    assert_eq!(launch.follow, Follow::Wait);
    let mut child = launch.adopt_posix(p.pid);
    p.stdin_open = launch.pipes().stdin;
    wait(&mut child, p)
}

fn output(launch: Launch, p: &mut Process) -> Result<Output, WaitError> {
    assert_eq!(launch.follow, Follow::Collect);
    let mut child = launch.adopt_posix(p.pid);
    p.stdin_open = launch.pipes().stdin;
    wait_with_output(&mut child, p)
}

#[test]
fn unix_simple_test() {
    let launch = Command::new("sh").args(&["-c", "echo hello"]).output();
    let ret = output(launch, &mut process(4321, 0, 0, b"hello\n"))
        .expect("failed to execute process");
    let exit_status = ret.status;
    assert_eq!(exit_status.success(), true);
    assert_eq!(exit_status.code(), Some(0));
    assert_eq!(ret.stdout, b"hello\n".to_vec());
    assert_eq!(ret.stderr, Vec::<u8>::new());
}

#[test]
fn unix_coroutine_output() {
    // the same run from inside a task: the child is still running at the
    // first probe, so the task is suspended once before the exit is seen
    let launch = Command::new("sh").args(&["-c", "echo hello"]).output();
    let mut p = process(4322, 1, 0, b"hello\n");
    let ret = output(launch, &mut p).expect("failed to execute process");
    let exit_status = ret.status;
    assert_eq!(exit_status.success(), true);
    assert_eq!(exit_status.code(), Some(0));
    assert_eq!(p.parks, 1, "something wrong");
}

#[test]
fn unix_simple_wait_test() {
    let ret = status(
        Command::new("sh").args(&["-c", "sleep 3"]).status(),
        &mut process(4323, 3, 0, b""),
    );
    assert_eq!(ret.is_ok(), true);
    let exit_status = ret.unwrap();
    assert_eq!(exit_status.success(), true);
    assert_eq!(exit_status.code(), Some(0));
}

#[test]
fn unix_coroutine_test() {
    // two tasks, two children, one exit signal for both: the turns of the
    // two waits are interleaved, and the second child exits first
    let mut first = Command::new("sh").args(&["-c", "echo hello"]).status().adopt_posix(501);
    let mut second = Command::new("sh").args(&["-c", "echo may"]).status().adopt_posix(502);
    let mut hello = process(501, 2, 0, b"hello\n");
    let mut may = process(502, 1, 0, b"may\n");
    hello.stdin_open = false;
    may.stdin_open = false;

    let mut a = first.wait();
    let mut b = second.wait();
    let mut ret_a = None;
    let mut ret_b = None;
    while ret_a.is_none() || ret_b.is_none() {
        a = match a {
            Step::Ask(request) => first.wait_resume(answer(&mut hello, request)),
            Step::Done(result) => {
                ret_a = Some(result);
                Step::Done(result)
            }
        };
        b = match b {
            Step::Ask(request) => second.wait_resume(answer(&mut may, request)),
            Step::Done(result) => {
                ret_b = Some(result);
                Step::Done(result)
            }
        };
    }
    assert!(may.parks < hello.parks);

    let ret = ret_a.unwrap();
    assert_eq!(ret.is_ok(), true);
    let exit_status = ret.unwrap();
    assert_eq!(exit_status.success(), true);
    assert_eq!(exit_status.code(), Some(0));

    let ret = ret_b.unwrap();
    assert_eq!(ret.is_ok(), true);
    let exit_status = ret.unwrap();
    assert_eq!(exit_status.success(), true);
    assert_eq!(exit_status.code(), Some(0));
}
