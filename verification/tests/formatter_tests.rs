use fcheck::model::CommandFamily;
use fcheck::model::CommandSetType;
use fcheck::model::ProcessingKind;
use fcheck::model::ProcessingModule;
use fcheck::model::Shell;
use fcheck::model::ExecutableCommand;
use fcheck::output_formatter::CommandOutput;
use fcheck::output_formatter::format_module;
use fcheck::output_formatter::map_command;
use fcheck::output_formatter::result_to_string;
use fcheck::model::CommandResult;
use fcheck::model::CommandSet;
use fcheck::processor::run;

fn cmd(name: Option<&str>, text: &str) -> ExecutableCommand {
    ExecutableCommand {
        name: name.map(|n| n.to_string()),
        description: None,
        timeout: None,
        shell: Shell::default(),
        cmd: text.to_string(),
    }
}

#[test]
fn t_result_to_string() {
    assert_eq!(result_to_string(true), "success");
    assert_eq!(result_to_string(false), "failure");
}

#[test]
fn t_map_command_complete() {
    let res = CommandResult::StandardResult {
        command: cmd(Some("greet"), "echo Hello"),
        stdout: "Hello\n".to_string(),
        stderr: String::new(),
        exit_code: 0,
    };
    let out = map_command(&res);
    match out {
        CommandOutput::Complete {
            name,
            command,
            result,
            stdout,
            stderr,
            exit_code,
        } => {
            assert_eq!(name, Some("greet".to_string()));
            assert_eq!(command, "echo Hello");
            assert_eq!(result, "success");
            assert_eq!(stdout, "Hello\n");
            assert_eq!(stderr, "");
            assert_eq!(exit_code, 0);
        }
        other => panic!("expected a complete entry, got {:?}", other),
    }
}

#[test]
fn t_map_command_failure_verdict() {
    let res = CommandResult::Timeout {
        command: cmd(None, "sleep 5"),
        stdout: String::new(),
        stderr: String::new(),
    };
    let out = map_command(&res);
    match out {
        CommandOutput::Timeout { name, command, result, .. } => {
            assert_eq!(name, None);
            assert_eq!(command, "sleep 5");
            assert_eq!(result, "failure");
        }
        other => panic!("expected a timeout entry, got {:?}", other),
    }
}

#[test]
fn t_format_module_failed_setup() {
    let module = ProcessingModule {
        shell: Shell::default(),
        setup: CommandSet {
            name: Some("Setup".to_string()),
            set_type: CommandSetType::Setup,
            commands: vec![cmd(None, "exit 1")],
            processing_kind: ProcessingKind::Serial,
        },
        tests: CommandFamily {
            sets: Vec::new(),
            processing_kind: ProcessingKind::Serial,
        },
        teardown: CommandSet {
            name: Some("Teardown".to_string()),
            set_type: CommandSetType::Teardown,
            commands: Vec::new(),
            processing_kind: ProcessingKind::Serial,
        },
    };
    let out = format_module(&run(&module));
    assert_eq!(out.result, "failure");
    assert_eq!(out.setup.len(), 1);
    assert!(out.tests.is_none());
    assert!(out.teardown.is_none());
}

#[test]
fn t_format_module_full_run() {
    let module = ProcessingModule {
        shell: Shell::default(),
        setup: CommandSet {
            name: Some("Setup".to_string()),
            set_type: CommandSetType::Setup,
            commands: vec![cmd(None, "echo setup")],
            processing_kind: ProcessingKind::Serial,
        },
        tests: CommandFamily {
            sets: vec![CommandSet {
                name: Some("t1".to_string()),
                set_type: CommandSetType::Test,
                commands: vec![cmd(Some("greet"), "echo Hello")],
                processing_kind: ProcessingKind::Serial,
            }],
            processing_kind: ProcessingKind::Serial,
        },
        teardown: CommandSet {
            name: Some("Teardown".to_string()),
            set_type: CommandSetType::Teardown,
            commands: vec![cmd(None, "echo bye")],
            processing_kind: ProcessingKind::Serial,
        },
    };
    let out = format_module(&run(&module));
    assert_eq!(out.result, "success");
    assert_eq!(out.setup.len(), 1);
    let tests = out.tests.expect("tests present");
    assert_eq!(tests.len(), 1);
    assert_eq!(tests[0].name, Some("t1".to_string()));
    assert_eq!(tests[0].result, "success");
    assert_eq!(tests[0].commands.len(), 1);
    let teardown = out.teardown.expect("teardown present");
    assert_eq!(teardown.len(), 1);
}
