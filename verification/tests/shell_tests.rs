use lx_shell::errors::{format_message, ShellError};
use lx_shell::shell::{launch_cmd, Action, LoopSignal, Shell};
use lx_shell::tokens::split_line;

#[test]
fn blank_lines_continue_without_dispatch() {
    let shell = Shell::default();
    for line in ["", " ", "   \t  ", "\t", "\r\n"] {
        assert_eq!(
            (LoopSignal::Continue, Action::Nothing),
            shell.process_line(line),
            "line {:?} should be ignored",
            line
        );
    }
}

#[test]
fn exit_returns_exit_regardless_of_arguments() {
    let shell = Shell::default();
    assert_eq!((LoopSignal::Exit, Action::Nothing), shell.process_line("exit"));
    assert_eq!((LoopSignal::Exit, Action::Nothing), shell.process_line("exit now please"));
    assert_eq!((LoopSignal::Exit, Action::Nothing), shell.process_line("  exit  0  "));
}

#[test]
fn cd_without_argument_requests_home_change() {
    let shell = Shell::default();
    assert_eq!(
        (LoopSignal::Continue, Action::ChangeDir { path: None }),
        shell.process_line("cd")
    );
}

#[test]
fn cd_with_argument_requests_that_path() {
    let shell = Shell::default();
    assert_eq!(
        (LoopSignal::Continue, Action::ChangeDir { path: Some("/tmp".to_string()) }),
        shell.process_line("cd /tmp")
    );
}

#[test]
fn cd_concatenates_multiple_arguments() {
    let shell = Shell::default();
    assert_eq!(
        (LoopSignal::Continue, Action::ChangeDir { path: Some("ab".to_string()) }),
        shell.process_line("cd a b")
    );
}

#[test]
fn unknown_command_is_launched_and_loop_continues() {
    let shell = Shell::default();
    let (signal, action) = shell.process_line("definitely-not-a-real-cmd-xyz -l x");
    assert_eq!(LoopSignal::Continue, signal);
    assert_eq!(
        Action::Launch {
            command: "definitely-not-a-real-cmd-xyz".to_string(),
            args: vec!["-l".to_string(), "x".to_string()],
        },
        action
    );
}

#[test]
fn launch_failure_message_names_the_command() {
    let err = ShellError::LaunchFailure { command: "definitely-not-a-real-cmd-xyz".to_string() };
    let message = err.message();
    assert_eq!("lx: command not found: definitely-not-a-real-cmd-xyz", message);
    assert!(message.contains("command not found"));
    assert!(message.contains("definitely-not-a-real-cmd-xyz"));
}

#[test]
fn splitting_collapses_runs_of_whitespace() {
    assert_eq!(vec!["cmd", "a", "b"], split_line("cmd   a   b"));
    assert_eq!(vec!["cmd", "a", "b"], split_line("cmd a b"));
    assert_eq!(vec!["cmd", "a", "b"], split_line("  cmd \t a  b  "));
}

#[test]
fn launch_cmd_splits_command_and_arguments() {
    let (command, args) = launch_cmd("cmd   a   b".to_string());
    assert_eq!("cmd", command);
    assert_eq!(vec!["a", "b"], args);
}

#[test]
fn default_shell_has_lx_prompt_and_no_home_dir() {
    let shell = Shell::default();
    assert_eq!("lx>", shell.prompt);
    assert_eq!(None, shell.home_dir);
}

#[test]
fn messages_have_the_three_part_shape() {
    assert_eq!("lx: cd: oops", format_message("cd", "oops"));
    assert_eq!(
        "lx: cd: Home directory not found",
        ShellError::BuiltinFailure { detail: "Home directory not found".to_string() }.message()
    );
    assert_eq!(
        "lx: I/O error: interrupted",
        ShellError::WaitFailure { detail: "interrupted".to_string() }.message()
    );
    assert_eq!(
        "lx: HOME environment variable not set: unable to set initial cwd",
        ShellError::StartupWarning {
            prefix: "HOME environment variable not set".to_string(),
            detail: "unable to set initial cwd".to_string(),
        }
        .message()
    );
}
