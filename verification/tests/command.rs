use may_process::command::{Command, EnvDelta, Follow, Launch, Stdio};
use may_process::step::Pipes;

fn set(key: &str, value: &str) -> EnvDelta {
    EnvDelta::Assign { key: key.to_string(), value: value.to_string() }
}

#[test]
fn new_command_says_nothing_but_the_program() {
    let command = Command::new("ls");
    assert_eq!(command.get_program(), "ls");
    assert!(command.get_args().is_empty());
    assert!(command.get_envs().is_empty());
    assert_eq!(command.get_current_dir(), &None);
}

#[test]
fn arguments_keep_their_order() {
    let mut command = Command::new("ls");
    command.arg("-l").arg("-a").args(&["/bin", "/usr"]).arg("--").args(&[]);
    assert_eq!(
        command.get_args(),
        &vec![
            "-l".to_string(),
            "-a".to_string(),
            "/bin".to_string(),
            "/usr".to_string(),
            "--".to_string()
        ]
    );
    assert_eq!(command.get_program(), "ls");
}

#[test]
fn environment_changes_keep_their_order() {
    let mut command = Command::new("printenv");
    command
        .env("PATH", "/bin")
        .env_remove("TERM")
        .env_clear()
        .envs(&[("TZ", "UTC"), ("LANG", "C")])
        .env("PATH", "/usr/bin");
    assert_eq!(
        command.get_envs(),
        &vec![
            set("PATH", "/bin"),
            EnvDelta::Remove { key: "TERM".to_string() },
            EnvDelta::Clear,
            set("TZ", "UTC"),
            set("LANG", "C"),
            set("PATH", "/usr/bin"),
        ]
    );
    assert!(command.get_args().is_empty());
}

#[test]
fn working_directory_is_the_last_one_set() {
    let mut command = Command::new("ls");
    command.current_dir("/bin").current_dir("/tmp");
    assert_eq!(command.get_current_dir(), &Some("/tmp".to_string()));
}

#[test]
fn spawn_and_status_inherit_what_was_left_open() {
    let mut command = Command::new("sh");
    let inherit = Launch {
        stdin: Stdio::Inherit,
        stdout: Stdio::Inherit,
        stderr: Stdio::Inherit,
        follow: Follow::Handle,
    };
    assert_eq!(command.spawn(), inherit);
    assert_eq!(command.status(), Launch { follow: Follow::Wait, ..inherit });
    assert_eq!(
        command.spawn().pipes(),
        Pipes { stdin: false, stdout: false, stderr: false }
    );
}

#[test]
fn output_pipes_what_was_left_open() {
    let mut command = Command::new("sh");
    assert_eq!(
        command.output(),
        Launch {
            stdin: Stdio::Piped,
            stdout: Stdio::Piped,
            stderr: Stdio::Piped,
            follow: Follow::Collect,
        }
    );
    assert_eq!(
        command.output().pipes(),
        Pipes { stdin: true, stdout: true, stderr: true }
    );
}

#[test]
fn streams_that_were_set_stay_as_set() {
    let mut command = Command::new("sh");
    command.stdin(Stdio::Null).stdout(Stdio::Piped).stderr(Stdio::Inherit);
    assert_eq!(
        command.spawn(),
        Launch {
            stdin: Stdio::Null,
            stdout: Stdio::Piped,
            stderr: Stdio::Inherit,
            follow: Follow::Handle,
        }
    );
    assert_eq!(
        command.output(),
        Launch {
            stdin: Stdio::Null,
            stdout: Stdio::Piped,
            stderr: Stdio::Inherit,
            follow: Follow::Collect,
        }
    );
    assert_eq!(
        command.output().pipes(),
        Pipes { stdin: false, stdout: true, stderr: false }
    );
    // only one stream set: the others go to the default of the launch
    let mut command = Command::new("sh");
    command.stderr(Stdio::Null);
    assert_eq!(command.status().pipes(), Pipes { stdin: false, stdout: false, stderr: false });
    assert_eq!(command.output().pipes(), Pipes { stdin: true, stdout: true, stderr: false });
}

#[test]
fn a_launch_leaves_the_command_as_it_was() {
    let mut command = Command::new("sh");
    command.arg("-c").env("A", "1").current_dir("/");
    let _ = command.spawn();
    let _ = command.output();
    let _ = command.status();
    assert_eq!(command.get_program(), "sh");
    assert_eq!(command.get_args(), &vec!["-c".to_string()]);
    assert_eq!(command.get_envs(), &vec![set("A", "1")]);
    assert_eq!(command.get_current_dir(), &Some("/".to_string()));
    assert_eq!(command.spawn(), command.spawn());
}

#[test]
fn adopted_children_hold_the_pipes_of_the_launch() {
    let mut command = Command::new("sh");
    command.stdout(Stdio::Piped);
    let launch = command.spawn();
    let child = launch.adopt_posix(12);
    assert_eq!(child.id(), 12);
    assert_eq!(child.pipes(), Pipes { stdin: false, stdout: true, stderr: false });
    let child = command.output().adopt_windows(13);
    assert_eq!(child.id(), 13);
    assert_eq!(child.pipes(), Pipes { stdin: true, stdout: true, stderr: true });
}

#[test]
fn the_crate_root_names_the_main_types() {
    let mut command = may_process::Command::new("echo");
    command.arg("hello").arg("world").stdout(may_process::Stdio::Null);
    let mut child: may_process::Child = command.spawn().adopt_posix(7);
    assert_eq!(child.id(), 7);
    let status: may_process::ExitStatus = may_process::ExitStatus::Posix(0);
    assert!(status.success());
    let error: may_process::WaitError = may_process::WaitError::Notification;
    assert_eq!(error.raw_os_error(), None);
    assert_eq!(child.kill().pid, 7);
}
