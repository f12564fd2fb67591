use fcheck::model::CommandFamily;
use fcheck::model::CommandResult;
use fcheck::model::CommandSet;
use fcheck::model::CommandSetType;
use fcheck::model::ExecutableCommand;
use fcheck::model::ProcessingKind;
use fcheck::model::ProcessingModule;
use fcheck::model::Shell;
use fcheck::processor::run;
use fcheck::processor::translate_result;
use fcheck::processor::CapturedData;
use fcheck::processor::ExitStatus;
use fcheck::processor::RunProcessError;
use fcheck::processor::run_command;
use fcheck::processor::run_commandfamily;
use fcheck::processor::run_commandset;
use fcheck::processor::run_processingmodule;

fn cmd(text: &str) -> ExecutableCommand {
    ExecutableCommand {
        name: Option::None,
        description: Option::None,
        timeout: None,
        shell: Shell::default(),
        cmd: text.to_string(),
    }
}

fn set_of(kind: CommandSetType, texts: &[&str]) -> CommandSet {
    CommandSet {
        name: None,
        set_type: kind,
        commands: texts.iter().map(|t| cmd(t)).collect(),
        processing_kind: ProcessingKind::Serial,
    }
}

#[test]
fn t_exec_simple() {
    let cmd = ExecutableCommand {
        name: Option::None,
        description: Option::None,
        timeout: None,
        shell: Shell::default(),
        cmd: "echo Hello".to_string(),
    };

    let res = run_command(&cmd);

    match res {
        CommandResult::StandardResult {
            command,
            stdout,
            stderr,
            exit_code,
        } => {
            assert_eq!(command, cmd);
            assert_eq!(stdout, "Hello\n");
            assert_eq!(stderr, "");
            assert_eq!(exit_code, 0);
        }
        _ => panic!("Fail"),
    }
}

#[test]
fn t_exec_multiline() {
    let cmd = ExecutableCommand {
        name: Option::None,
        description: Option::None,
        timeout: None,
        shell: Shell::default(),
        cmd: r#"
            echo Hello;
            echo hello;
        "#
        .to_string(),
    };

    let res = run_command(&cmd);

    match res {
        CommandResult::StandardResult {
            command,
            stdout,
            stderr,
            exit_code,
        } => {
            assert_eq!(command, cmd);
            assert_eq!(stdout, "Hello\nhello\n");
            assert_eq!(stderr, "");
            assert_eq!(exit_code, 0);
        }
        _ => panic!("Fail"),
    }
}

#[test]
fn t_exec_runs_with_bash() {
    let cmd = ExecutableCommand {
        name: Option::None,
        description: Option::None,
        timeout: None,
        shell: Shell::default(),
        cmd: r#"
            for (( i=0; i < 3; i++));
            do
                echo $i
            done;
        "#
        .to_string(),
    };

    let res = run_command(&cmd);
    match res {
        CommandResult::StandardResult {
            command,
            stdout,
            stderr,
            exit_code,
        } => {
            assert_eq!(command, cmd);
            assert_eq!(stdout, "0\n1\n2\n");
            assert_eq!(stderr, "");
            assert_eq!(exit_code, 0);
        }
        _ => panic!("Fail"),
    }
}

#[test]
fn t_execset_simple() {
    let cmds = CommandSet {
        name: None,
        set_type: CommandSetType::Test,
        commands: vec![
            ExecutableCommand {
                name: Option::None,
                description: Option::None,
                timeout: None,
                shell: Shell::default(),
                cmd: "echo Hello".to_string(),
            },
            ExecutableCommand {
                name: Option::None,
                description: Option::None,
                timeout: None,
                shell: Shell::default(),
                cmd: "echo Hello".to_string(),
            },
        ],
        processing_kind: ProcessingKind::Serial,
    };

    let res = run_commandset(true, &run_command, &cmds);

    assert_eq!(res.results.len(), 2);
}

#[test]
fn t_execset_stop_on_failure() {
    let cmds = CommandSet {
        name: None,
        set_type: CommandSetType::Test,
        commands: vec![
            ExecutableCommand {
                name: Option::None,
                description: Option::None,
                timeout: None,
                shell: Shell::default(),
                cmd: "exit 1".to_string(),
            },
            ExecutableCommand {
                name: Option::None,
                description: Option::None,
                timeout: None,
                shell: Shell::default(),
                cmd: "echo Hello".to_string(),
            },
        ],
        processing_kind: ProcessingKind::Serial,
    };

    let res = run_commandset(true, &run_command, &cmds);

    assert_eq!(res.results.len(), 1);
}

#[test]
fn test_sleep_with_timeout_fails() {
    let command = ExecutableCommand {
        name: None,
        description: None,
        timeout: Some(100),
        shell: Shell::default(),
        cmd: "echo hello && sleep 1".to_string(),
    };

    let res = run_command(&command);

    match res {
        CommandResult::Timeout {
            command: c,
            stdout,
            stderr,
        } => {
            assert_eq!(c, command);
            assert_eq!(stdout, "hello\n");
            assert_eq!(stderr, "");
        }
        other => panic!("expected a timeout, got {:?}", other),
    }
    assert!(!run_command(&command).success());
}

#[test]
fn t_exec_exit_code_failure() {
    let res = run_command(&cmd("exit 1"));
    match &res {
        CommandResult::StandardResult { exit_code, .. } => assert_eq!(*exit_code, 1),
        other => panic!("expected a standard result, got {:?}", other),
    }
    assert!(!res.success());
}

#[test]
fn t_exec_exit_code_42() {
    let res = run_command(&cmd("exit 42"));
    match res {
        CommandResult::StandardResult { exit_code, .. } => assert_eq!(exit_code, 42),
        other => panic!("expected a standard result, got {:?}", other),
    }
}

#[test]
fn t_exec_os_error() {
    let command = ExecutableCommand {
        name: None,
        description: None,
        timeout: None,
        shell: Shell("/nonexistent/interpreter".to_string(), Vec::new()),
        cmd: "true".to_string(),
    };
    let res = run_command(&command);
    match res {
        CommandResult::OsError { error, .. } => {
            assert!(error.starts_with("OS error occured: ProcessCreateError: "));
        }
        other => panic!("expected an OS error, got {:?}", other),
    }
}

#[test]
fn t_exec_signaled() {
    let res = run_command(&cmd("kill -9 $$"));
    match res {
        CommandResult::IrregularExitCode { exit_code, .. } => {
            assert_eq!(exit_code, "Signaled(9)");
        }
        other => panic!("expected an irregular exit, got {:?}", other),
    }
}

#[test]
fn t_exec_invalid_utf8_output() {
    let res = run_command(&cmd(r"printf '\xffabc'"));
    match res {
        CommandResult::StandardResult { stdout, .. } => {
            assert_eq!(stdout, "\u{FFFD}abc");
        }
        other => panic!("expected a standard result, got {:?}", other),
    }
}

#[test]
fn t_exec_stderr_captured() {
    let res = run_command(&cmd("echo oops >&2"));
    match res {
        CommandResult::StandardResult { stdout, stderr, exit_code, .. } => {
            assert_eq!(stdout, "");
            assert_eq!(stderr, "oops\n");
            assert_eq!(exit_code, 0);
        }
        other => panic!("expected a standard result, got {:?}", other),
    }
}

#[test]
fn t_exec_round_trip() {
    let command = cmd("echo Hello; echo oops >&2; exit 3");
    let first = run_command(&command);
    let second = run_command(&command);
    assert_eq!(first, second);
}

#[test]
fn t_execset_teardown_runs_all() {
    let cmds = set_of(CommandSetType::Teardown, &["exit 1", "echo Hello", "echo Hello"]);
    let res = run_commandset(false, &run_command, &cmds);
    assert_eq!(res.results.len(), 3);
    assert!(!res.success());
}

#[test]
fn t_family_siblings_independent() {
    let family = CommandFamily {
        sets: vec![
            set_of(CommandSetType::Test, &["exit 1"]),
            set_of(CommandSetType::Test, &["echo Hello"]),
        ],
        processing_kind: ProcessingKind::Serial,
    };
    let res = run_commandfamily(&run_command, &family);
    assert_eq!(res.sets.len(), 2);
    assert!(!res.sets[0].success());
    assert!(res.sets[1].success());
    assert!(!res.success());
}

#[test]
fn t_module_setup_failure_skips_rest() {
    let module = ProcessingModule {
        shell: Shell::default(),
        setup: set_of(CommandSetType::Setup, &["exit 1"]),
        tests: CommandFamily {
            sets: vec![set_of(CommandSetType::Test, &["echo Hello"])],
            processing_kind: ProcessingKind::Serial,
        },
        teardown: set_of(CommandSetType::Teardown, &["echo bye"]),
    };
    let res = run_processingmodule(&run_command, &module);
    assert!(res.tests.is_none());
    assert!(res.teardown.is_none());
    assert!(!res.success());
}

#[test]
fn t_module_runs_all_phases() {
    let module = ProcessingModule {
        shell: Shell::default(),
        setup: set_of(CommandSetType::Setup, &["echo setup"]),
        tests: CommandFamily {
            sets: vec![
                set_of(CommandSetType::Test, &["echo one"]),
                set_of(CommandSetType::Test, &["exit 1"]),
            ],
            processing_kind: ProcessingKind::Serial,
        },
        teardown: set_of(CommandSetType::Teardown, &["exit 1", "echo bye"]),
    };
    let res = run(&module);
    assert!(res.setup.success());
    let tests = res.tests.as_ref().expect("tests should have run");
    assert_eq!(tests.sets.len(), 2);
    assert!(tests.sets[0].success());
    assert!(!tests.sets[1].success());
    let teardown = res.teardown.as_ref().expect("teardown should have run");
    assert_eq!(teardown.results.len(), 2);
    assert!(!res.success());
}

#[test]
fn t_translate_stream_read_failure() {
    let command = cmd("x");
    let cap = CapturedData {
        stdout: Err(RunProcessError::RedirectReadFailed("boom".to_string())),
        stderr: Ok(b"err".to_vec()),
        exit_status: Ok(Some(ExitStatus::Exited(0))),
    };
    match translate_result(&command, Ok(cap)) {
        CommandResult::StandardResult {
            stdout,
            stderr,
            exit_code,
            ..
        } => {
            assert_eq!(stdout, "Fcheck error on stdout. RedirectReadFailed: boom");
            assert_eq!(stderr, "err");
            assert_eq!(exit_code, 0);
        }
        other => panic!("expected a standard result, got {:?}", other),
    }
}

#[test]
fn t_translate_runtime_error() {
    let command = cmd("x");
    let cap = CapturedData {
        stdout: Ok(Vec::new()),
        stderr: Ok(Vec::new()),
        exit_status: Err(RunProcessError::ProcessRuntimeError("bad wait".to_string())),
    };
    match translate_result(&command, Ok(cap)) {
        CommandResult::RuntimeError { error, .. } => {
            assert_eq!(error, "Runtime error occured: ProcessRuntimeError: bad wait");
        }
        other => panic!("expected a runtime error, got {:?}", other),
    }
}

#[test]
fn t_translate_irregular_statuses() {
    let command = cmd("x");
    let cases = [
        (ExitStatus::Signaled(15), "Signaled(15)"),
        (ExitStatus::Other(-1), "Other(-1)"),
        (ExitStatus::Undetermined, "Undetermined"),
    ];
    for (status, expected) in cases {
        let cap = CapturedData {
            stdout: Ok(Vec::new()),
            stderr: Ok(Vec::new()),
            exit_status: Ok(Some(status)),
        };
        match translate_result(&command, Ok(cap)) {
            CommandResult::IrregularExitCode { exit_code, .. } => {
                assert_eq!(exit_code, expected);
            }
            other => panic!("expected an irregular exit, got {:?}", other),
        }
    }
}

#[test]
fn t_translate_os_error() {
    let command = cmd("x");
    let res = translate_result(
        &command,
        Err(RunProcessError::ProcessCreateError("no such file".to_string())),
    );
    match res {
        CommandResult::OsError { error, command: c } => {
            assert_eq!(error, "OS error occured: ProcessCreateError: no such file");
            assert_eq!(c, command);
        }
        other => panic!("expected an OS error, got {:?}", other),
    }
}
