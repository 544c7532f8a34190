use may_process::error::WaitError;
use may_process::status::ExitStatus;
use may_process::step::{Pipes, Step, Terminate};
use may_process::unix::{Child, Finding, ProbeReply, Reply, Request};

const NO_PIPES: Pipes = Pipes { stdin: false, stdout: false, stderr: false };
const STDIN: Pipes = Pipes { stdin: true, stdout: false, stderr: false };

fn running() -> Reply {
    Reply::Probed(ProbeReply { ret: 0, status: 0, errno: 0, interrupted: false })
}

fn exited(pid: i32, status: i32) -> Reply {
    Reply::Probed(ProbeReply { ret: pid, status, errno: 0, interrupted: false })
}

fn failed(errno: i32, interrupted: bool) -> Reply {
    Reply::Probed(ProbeReply { ret: -1, status: 0, errno, interrupted })
}

#[test]
fn probe_replies_are_read_by_their_sign() {
    let reply = ProbeReply { ret: 0, status: 77, errno: 4, interrupted: true };
    assert_eq!(reply.classify(), Finding::Running);
    let reply = ProbeReply { ret: 12, status: 0x0200, errno: 0, interrupted: false };
    assert_eq!(reply.classify(), Finding::Exited(ExitStatus::Posix(0x0200)));
    let reply = ProbeReply { ret: -1, status: 0, errno: 4, interrupted: true };
    assert_eq!(reply.classify(), Finding::Interrupted);
    let reply = ProbeReply { ret: -1, status: 0, errno: 10, interrupted: false };
    assert_eq!(reply.classify(), Finding::Failed(WaitError::Os(10)));
}

#[test]
fn try_wait_before_exit_says_not_yet_every_time() {
    let mut child = Child::new(31, NO_PIPES);
    for _ in 0..5 {
        assert_eq!(child.try_wait(), Step::Ask(Request::Probe { pid: 31 }));
        assert_eq!(child.try_wait_resume(running()), Step::Done(Ok(None)));
        assert_eq!(child.status(), None);
    }
}

#[test]
fn try_wait_observes_the_exit_once_and_remembers_it() {
    let mut child = Child::new(31, NO_PIPES);
    assert_eq!(child.try_wait(), Step::Ask(Request::Probe { pid: 31 }));
    assert_eq!(child.try_wait_resume(running()), Step::Done(Ok(None)));
    assert_eq!(child.try_wait(), Step::Ask(Request::Probe { pid: 31 }));
    let status = ExitStatus::Posix(0x0500);
    assert_eq!(child.try_wait_resume(exited(31, 0x0500)), Step::Done(Ok(Some(status))));
    // from now on the answer comes from memory: no probe is asked for, and
    // no reply can change it
    for _ in 0..3 {
        assert_eq!(child.try_wait(), Step::Done(Ok(Some(status))));
        assert_eq!(child.try_wait_resume(exited(31, 0)), Step::Done(Ok(Some(status))));
        assert_eq!(child.try_wait_resume(failed(10, false)), Step::Done(Ok(Some(status))));
        assert_eq!(child.wait(), Step::Done(Ok(status)));
    }
    assert_eq!(child.status(), Some(status));
}

#[test]
fn interrupted_probe_is_repeated_and_never_surfaces() {
    let mut child = Child::new(8, NO_PIPES);
    assert_eq!(child.try_wait(), Step::Ask(Request::Probe { pid: 8 }));
    assert_eq!(child.try_wait_resume(failed(4, true)), Step::Ask(Request::Probe { pid: 8 }));
    assert_eq!(child.try_wait_resume(failed(4, true)), Step::Ask(Request::Probe { pid: 8 }));
    assert_eq!(child.try_wait_resume(running()), Step::Done(Ok(None)));

    assert_eq!(child.wait(), Step::Ask(Request::Probe { pid: 8 }));
    assert_eq!(child.wait_resume(failed(4, true)), Step::Ask(Request::Probe { pid: 8 }));
    assert_eq!(
        child.wait_resume(exited(8, 0)),
        Step::Done(Ok(ExitStatus::Posix(0)))
    );
}

#[test]
fn other_probe_failures_surface_with_the_hosts_code() {
    let mut child = Child::new(8, NO_PIPES);
    assert_eq!(child.try_wait(), Step::Ask(Request::Probe { pid: 8 }));
    assert_eq!(child.try_wait_resume(failed(10, false)), Step::Done(Err(WaitError::Os(10))));
    assert_eq!(child.status(), None);

    assert_eq!(child.wait(), Step::Ask(Request::Probe { pid: 8 }));
    assert_eq!(child.wait_resume(failed(22, false)), Step::Done(Err(WaitError::Os(22))));
    // the failed wait is over: the next one starts afresh
    assert_eq!(child.wait(), Step::Ask(Request::Probe { pid: 8 }));
}

#[test]
fn wait_closes_stdin_first_and_parks_only_after() {
    let mut child = Child::new(70, STDIN);
    assert_eq!(child.wait(), Step::Ask(Request::CloseStdin));
    assert_eq!(child.pipes().stdin, false);
    assert_eq!(child.wait_resume(Reply::StdinClosed), Step::Ask(Request::Probe { pid: 70 }));
    assert_eq!(child.wait_resume(running()), Step::Ask(Request::AwaitSignal));
    assert_eq!(child.wait_resume(Reply::Woken), Step::Ask(Request::Probe { pid: 70 }));
    assert_eq!(child.wait_resume(running()), Step::Ask(Request::AwaitSignal));
    assert_eq!(child.wait_resume(Reply::Woken), Step::Ask(Request::Probe { pid: 70 }));
    assert_eq!(child.wait_resume(exited(70, 0)), Step::Done(Ok(ExitStatus::Posix(0))));
}

#[test]
fn child_that_reads_stdin_to_the_end_is_seen_to_exit() {
    // the child exits only once its stdin has reached the end
    let mut child = Child::new(71, STDIN);
    let mut stdin_open = true;
    let mut parks = 0;
    let mut step = child.wait();
    let status = loop {
        step = match step {
            Step::Ask(Request::CloseStdin) => {
                stdin_open = false;
                child.wait_resume(Reply::StdinClosed)
            }
            Step::Ask(Request::Probe { pid }) => {
                child.wait_resume(if stdin_open { running() } else { exited(pid, 0) })
            }
            Step::Ask(Request::AwaitSignal) => {
                assert!(!stdin_open, "suspended while the child waits for input");
                parks += 1;
                assert!(parks < 10, "the wait hangs");
                child.wait_resume(Reply::Woken)
            }
            Step::Done(result) => break result,
        };
    };
    assert_eq!(status, Ok(ExitStatus::Posix(0)));
    assert_eq!(parks, 0);
}

#[test]
fn wait_is_idempotent() {
    let mut child = Child::new(72, STDIN);
    assert_eq!(child.wait(), Step::Ask(Request::CloseStdin));
    assert_eq!(child.wait_resume(Reply::StdinClosed), Step::Ask(Request::Probe { pid: 72 }));
    let status = ExitStatus::Posix(0x0700);
    assert_eq!(child.wait_resume(exited(72, 0x0700)), Step::Done(Ok(status)));
    // the second wait ends at once: no request, no suspension
    assert_eq!(child.wait(), Step::Done(Ok(status)));
    assert_eq!(child.wait(), Step::Done(Ok(status)));
    assert_eq!(child.wait_resume(Reply::Woken), Step::Done(Ok(status)));
}

#[test]
fn wait_on_a_remembered_status_still_closes_stdin_first() {
    let mut child = Child::new(73, STDIN);
    assert_eq!(child.try_wait(), Step::Ask(Request::Probe { pid: 73 }));
    let status = ExitStatus::Posix(0);
    assert_eq!(child.try_wait_resume(exited(73, 0)), Step::Done(Ok(Some(status))));
    assert_eq!(child.pipes().stdin, true);
    assert_eq!(child.wait(), Step::Ask(Request::CloseStdin));
    assert_eq!(child.wait_resume(Reply::StdinClosed), Step::Done(Ok(status)));
    assert_eq!(child.wait(), Step::Done(Ok(status)));
}

#[test]
fn exit_code_is_reported_exactly() {
    let mut child = Child::new(74, NO_PIPES);
    assert_eq!(child.wait(), Step::Ask(Request::Probe { pid: 74 }));
    match child.wait_resume(exited(74, 42 << 8)) {
        Step::Done(Ok(status)) => {
            assert_eq!(status.success(), false);
            assert_eq!(status.code(), Some(42));
        }
        other => panic!("{:?}", other),
    }
}

#[test]
fn kill_then_wait_ends_with_the_signal() {
    let mut child = Child::new(75, NO_PIPES);
    assert_eq!(child.wait(), Step::Ask(Request::Probe { pid: 75 }));
    assert_eq!(child.wait_resume(running()), Step::Ask(Request::AwaitSignal));
    // the request to kill does not resume the waiter and changes nothing
    assert_eq!(child.kill(), Terminate { pid: 75 });
    assert_eq!(child.wait(), Step::Ask(Request::AwaitSignal));
    assert_eq!(child.wait_resume(Reply::Woken), Step::Ask(Request::Probe { pid: 75 }));
    match child.wait_resume(exited(75, 9)) {
        Step::Done(Ok(status)) => {
            assert_eq!(status.success(), false);
            assert_eq!(status.code(), None);
            assert_eq!(status.signal(), Some(9));
        }
        other => panic!("{:?}", other),
    }
}

#[test]
fn closed_signal_stream_ends_the_wait_with_an_error() {
    let mut child = Child::new(76, NO_PIPES);
    assert_eq!(child.wait(), Step::Ask(Request::Probe { pid: 76 }));
    assert_eq!(child.wait_resume(running()), Step::Ask(Request::AwaitSignal));
    assert_eq!(
        child.wait_resume(Reply::StreamClosed),
        Step::Done(Err(WaitError::Notification))
    );
    assert_eq!(child.status(), None);
}

#[test]
fn replies_that_answer_nothing_are_dropped() {
    let mut child = Child::new(77, STDIN);
    // no wait in flight: the reply is dropped and a wait starts
    assert_eq!(child.wait_resume(Reply::Woken), Step::Ask(Request::CloseStdin));
    assert_eq!(child.wait_resume(Reply::Woken), Step::Ask(Request::CloseStdin));
    assert_eq!(child.wait_resume(exited(77, 0)), Step::Ask(Request::CloseStdin));
    assert_eq!(child.status(), None);
    assert_eq!(child.wait_resume(Reply::StdinClosed), Step::Ask(Request::Probe { pid: 77 }));
    assert_eq!(child.wait_resume(Reply::Woken), Step::Ask(Request::Probe { pid: 77 }));
    assert_eq!(child.wait_resume(Reply::StreamClosed), Step::Ask(Request::Probe { pid: 77 }));
    assert_eq!(child.wait_resume(running()), Step::Ask(Request::AwaitSignal));
    assert_eq!(child.wait_resume(exited(77, 0)), Step::Ask(Request::AwaitSignal));
    assert_eq!(child.wait_resume(Reply::StdinClosed), Step::Ask(Request::AwaitSignal));
    // a second wait joins the one in flight
    assert_eq!(child.wait(), Step::Ask(Request::AwaitSignal));
    // a status check is no part of the wait: its replies are probe results
    assert_eq!(child.try_wait_resume(Reply::Woken), Step::Ask(Request::Probe { pid: 77 }));
}

#[test]
fn status_check_during_a_wait_ends_the_wait_without_another_probe() {
    let mut child = Child::new(78, NO_PIPES);
    assert_eq!(child.wait(), Step::Ask(Request::Probe { pid: 78 }));
    assert_eq!(child.wait_resume(running()), Step::Ask(Request::AwaitSignal));
    // while the task is suspended, a status check reaps the child
    assert_eq!(child.try_wait(), Step::Ask(Request::Probe { pid: 78 }));
    let status = ExitStatus::Posix(0x0100);
    assert_eq!(child.try_wait_resume(exited(78, 0x0100)), Step::Done(Ok(Some(status))));
    // the wake-up finds the status in memory
    assert_eq!(child.wait_resume(Reply::Woken), Step::Done(Ok(status)));
}

#[test]
fn remembered_status_outlives_a_closed_stream() {
    let mut child = Child::new(79, NO_PIPES);
    assert_eq!(child.wait(), Step::Ask(Request::Probe { pid: 79 }));
    assert_eq!(child.wait_resume(running()), Step::Ask(Request::AwaitSignal));
    assert_eq!(child.try_wait(), Step::Ask(Request::Probe { pid: 79 }));
    let status = ExitStatus::Posix(0);
    assert_eq!(child.try_wait_resume(exited(79, 0)), Step::Done(Ok(Some(status))));
    assert_eq!(child.wait_resume(Reply::StreamClosed), Step::Done(Ok(status)));
}

#[test]
fn process_id_is_passed_on_as_the_same_bits() {
    let child = Child::new(123, NO_PIPES);
    assert_eq!(child.id(), 123);
    let mut child = Child::new(u32::MAX, NO_PIPES);
    assert_eq!(child.id(), u32::MAX);
    assert_eq!(child.try_wait(), Step::Ask(Request::Probe { pid: -1 }));
    let mut child = Child::new(0x8000_0000, NO_PIPES);
    assert_eq!(child.try_wait(), Step::Ask(Request::Probe { pid: i32::MIN }));
    let mut child = Child::new(i32::MAX as u32, NO_PIPES);
    assert_eq!(child.try_wait(), Step::Ask(Request::Probe { pid: i32::MAX }));
}

#[test]
fn output_pipes_are_handed_over_once() {
    let mut child = Child::new(5, Pipes { stdin: true, stdout: true, stderr: false });
    assert_eq!(child.take_output(), Pipes { stdin: true, stdout: true, stderr: false });
    assert_eq!(child.pipes(), Pipes { stdin: true, stdout: false, stderr: false });
    assert_eq!(child.take_output(), Pipes { stdin: true, stdout: false, stderr: false });
}

#[test]
fn two_waits_do_not_touch_each_other() {
    // the same replies, with and without another child's wait in between
    let mut alone = Child::new(90, NO_PIPES);
    let mut beside = Child::new(90, NO_PIPES);
    let mut other = Child::new(91, NO_PIPES);

    assert_eq!(alone.wait(), Step::Ask(Request::Probe { pid: 90 }));
    assert_eq!(alone.wait_resume(running()), Step::Ask(Request::AwaitSignal));
    assert_eq!(alone.wait_resume(Reply::Woken), Step::Ask(Request::Probe { pid: 90 }));
    let last_alone = alone.wait_resume(exited(90, 0x0300));

    assert_eq!(other.wait(), Step::Ask(Request::Probe { pid: 91 }));
    assert_eq!(beside.wait(), Step::Ask(Request::Probe { pid: 90 }));
    assert_eq!(other.wait_resume(running()), Step::Ask(Request::AwaitSignal));
    assert_eq!(beside.wait_resume(running()), Step::Ask(Request::AwaitSignal));
    // one exit signal, raised by the other child's exit, wakes both
    assert_eq!(other.wait_resume(Reply::Woken), Step::Ask(Request::Probe { pid: 91 }));
    assert_eq!(beside.wait_resume(Reply::Woken), Step::Ask(Request::Probe { pid: 90 }));
    assert_eq!(other.wait_resume(exited(91, 0)), Step::Done(Ok(ExitStatus::Posix(0))));
    let last_beside = beside.wait_resume(exited(90, 0x0300));

    assert_eq!(last_alone, last_beside);
    assert_eq!(last_alone, Step::Done(Ok(ExitStatus::Posix(0x0300))));
    assert_eq!(alone.status(), beside.status());
}
