//! The report tree: a flattened rendering of a module result, with a
//! "success"/"failure" verdict at every level, ready to be serialized by the
//! caller.

use vstd::prelude::*;

use crate::model::CommandResult;
use crate::model::CommandResultV;
use crate::model::CommandSetResult;
use crate::model::CommandSetResultV;
use crate::model::ProcessingModuleResult;
use crate::model::ProcessingModuleResultV;

verus! {

/// The report for one whole module run.
#[derive(Debug, PartialEq)]
pub struct ModuleOutput {
    pub result: String,
    pub setup: Vec<CommandOutput>,
    pub tests: Option<Vec<TestOutput>>,
    pub teardown: Option<Vec<CommandOutput>>,
}

/// Mathematical view of a `ModuleOutput`.
#[verifier::ext_equal]
pub struct ModuleOutputV {
    pub result: Seq<char>,
    pub setup: Seq<CommandOutputV>,
    pub tests: Option<Seq<TestOutputV>>,
    pub teardown: Option<Seq<CommandOutputV>>,
}

/// The report for one Test set.
#[derive(Debug, PartialEq)]
pub struct TestOutput {
    pub name: Option<String>,
    pub result: String,
    pub commands: Vec<CommandOutput>,
}

/// Mathematical view of a `TestOutput`.
#[verifier::ext_equal]
pub struct TestOutputV {
    pub name: Option<Seq<char>>,
    pub result: Seq<char>,
    pub commands: Seq<CommandOutputV>,
}

/// The report for one command attempt: the command's name and text, its
/// verdict, and the fields of its result kind.
#[derive(Debug, PartialEq)]
#[allow(inconsistent_fields)]
pub enum CommandOutput {
    OsError { name: Option<String>, command: String, result: String, error: String },
    RuntimeError {
        name: Option<String>,
        command: String,
        result: String,
        stdout: String,
        stderr: String,
        error: String,
    },
    Timeout { name: Option<String>, command: String, result: String, stdout: String, stderr: String },
    IrregularExitCode {
        name: Option<String>,
        command: String,
        result: String,
        stdout: String,
        stderr: String,
        exit_code: String,
    },
    Complete {
        name: Option<String>,
        command: String,
        result: String,
        stdout: String,
        stderr: String,
        exit_code: u32,
    },
}

/// Mathematical view of a `CommandOutput`.
#[verifier::ext_equal]
#[allow(inconsistent_fields)]
pub enum CommandOutputV {
    OsError { name: Option<Seq<char>>, command: Seq<char>, result: Seq<char>, error: Seq<char> },
    RuntimeError {
        name: Option<Seq<char>>,
        command: Seq<char>,
        result: Seq<char>,
        stdout: Seq<char>,
        stderr: Seq<char>,
        error: Seq<char>,
    },
    Timeout {
        name: Option<Seq<char>>,
        command: Seq<char>,
        result: Seq<char>,
        stdout: Seq<char>,
        stderr: Seq<char>,
    },
    IrregularExitCode {
        name: Option<Seq<char>>,
        command: Seq<char>,
        result: Seq<char>,
        stdout: Seq<char>,
        stderr: Seq<char>,
        exit_code: Seq<char>,
    },
    Complete {
        name: Option<Seq<char>>,
        command: Seq<char>,
        result: Seq<char>,
        stdout: Seq<char>,
        stderr: Seq<char>,
        exit_code: u32,
    },
}

impl View for CommandOutput {
    type V = CommandOutputV;

    open spec fn view(&self) -> CommandOutputV {
        match self {
            CommandOutput::OsError { name, command, result, error } => CommandOutputV::OsError {
                name: name.deep_view(),
                command: command@,
                result: result@,
                error: error@,
            },
            CommandOutput::RuntimeError { name, command, result, stdout, stderr, error } => {
                CommandOutputV::RuntimeError {
                    name: name.deep_view(),
                    command: command@,
                    result: result@,
                    stdout: stdout@,
                    stderr: stderr@,
                    error: error@,
                }
            },
            CommandOutput::Timeout { name, command, result, stdout, stderr } => {
                CommandOutputV::Timeout {
                    name: name.deep_view(),
                    command: command@,
                    result: result@,
                    stdout: stdout@,
                    stderr: stderr@,
                }
            },
            CommandOutput::IrregularExitCode { name, command, result, stdout, stderr, exit_code } => {
                CommandOutputV::IrregularExitCode {
                    name: name.deep_view(),
                    command: command@,
                    result: result@,
                    stdout: stdout@,
                    stderr: stderr@,
                    exit_code: exit_code@,
                }
            },
            CommandOutput::Complete { name, command, result, stdout, stderr, exit_code } => {
                CommandOutputV::Complete {
                    name: name.deep_view(),
                    command: command@,
                    result: result@,
                    stdout: stdout@,
                    stderr: stderr@,
                    exit_code: *exit_code,
                }
            },
        }
    }
}

impl DeepView for CommandOutput {
    type V = CommandOutputV;

    open spec fn deep_view(&self) -> CommandOutputV {
        self.view()
    }
}

impl View for TestOutput {
    type V = TestOutputV;

    open spec fn view(&self) -> TestOutputV {
        TestOutputV {
            name: self.name.deep_view(),
            result: self.result@,
            commands: self.commands.deep_view(),
        }
    }
}

impl DeepView for TestOutput {
    type V = TestOutputV;

    open spec fn deep_view(&self) -> TestOutputV {
        self.view()
    }
}

impl View for ModuleOutput {
    type V = ModuleOutputV;

    open spec fn view(&self) -> ModuleOutputV {
        ModuleOutputV {
            result: self.result@,
            setup: self.setup.deep_view(),
            tests: self.tests.deep_view(),
            teardown: self.teardown.deep_view(),
        }
    }
}

impl DeepView for ModuleOutput {
    type V = ModuleOutputV;

    open spec fn deep_view(&self) -> ModuleOutputV {
        self.view()
    }
}

/// The verdict word for a success flag.
pub open spec fn spec_result_string(b: bool) -> Seq<char> {
    if b {
        "success"@
    } else {
        "failure"@
    }
}

/// The report entry for one command result: the same fields, prefixed with
/// the command's name and text and the verdict word.
pub open spec fn spec_map_command(r: CommandResultV) -> CommandOutputV {
    match r {
        CommandResultV::OsError { command, error } => CommandOutputV::OsError {
            name: command.name,
            command: command.cmd,
            result: spec_result_string(r.success()),
            error,
        },
        CommandResultV::RuntimeError { command, stdout, stderr, error } => {
            CommandOutputV::RuntimeError {
                name: command.name,
                command: command.cmd,
                result: spec_result_string(r.success()),
                stdout,
                stderr,
                error,
            }
        },
        CommandResultV::Timeout { command, stdout, stderr } => CommandOutputV::Timeout {
            name: command.name,
            command: command.cmd,
            result: spec_result_string(r.success()),
            stdout,
            stderr,
        },
        CommandResultV::IrregularExitCode { command, stdout, stderr, exit_code } => {
            CommandOutputV::IrregularExitCode {
                name: command.name,
                command: command.cmd,
                result: spec_result_string(r.success()),
                stdout,
                stderr,
                exit_code,
            }
        },
        CommandResultV::StandardResult { command, stdout, stderr, exit_code } => {
            CommandOutputV::Complete {
                name: command.name,
                command: command.cmd,
                result: spec_result_string(r.success()),
                stdout,
                stderr,
                exit_code,
            }
        },
    }
}

/// The report entries for a list of command results, in order.
pub open spec fn spec_map_commands(results: Seq<CommandResultV>) -> Seq<CommandOutputV> {
    results.map_values(|r: CommandResultV| spec_map_command(r))
}

/// The report for one Test set: its name, its verdict, and one entry per
/// command result.
pub open spec fn spec_map_test(s: CommandSetResultV) -> TestOutputV {
    TestOutputV {
        name: s.set.name,
        result: spec_result_string(s.success()),
        commands: spec_map_commands(s.results),
    }
}

/// The report for one module run: the overall verdict, the Setup entries,
/// and the Test and Teardown parts exactly where the run recorded them.
pub open spec fn spec_map_module(m: ProcessingModuleResultV) -> ModuleOutputV {
    ModuleOutputV {
        result: spec_result_string(m.success()),
        setup: spec_map_commands(m.setup.results),
        tests: match m.tests {
            Some(t) => Some(t.sets.map_values(|s: CommandSetResultV| spec_map_test(s))),
            None => None,
        },
        teardown: match m.teardown {
            Some(td) => Some(spec_map_commands(td.results)),
            None => None,
        },
    }
}

/// The verdict word: "success" or "failure".
pub fn result_to_string(b: bool) -> (r: String)
    ensures
        r@ == spec_result_string(b),
{
    if b {
        "success".to_owned()
    } else {
        "failure".to_owned()
    }
}

/// Build the report entry for one command result.
pub fn map_command(res: &CommandResult) -> (out: CommandOutput)
    ensures
        out@ == spec_map_command(res@),
{
    let result = result_to_string(res.success());
    match res {
        CommandResult::OsError { command, error } => CommandOutput::OsError {
            name: command.name.clone(),
            command: command.cmd.clone(),
            result,
            error: error.clone(),
        },
        CommandResult::RuntimeError { command, stdout, stderr, error } => {
            CommandOutput::RuntimeError {
                name: command.name.clone(),
                command: command.cmd.clone(),
                result,
                stdout: stdout.clone(),
                stderr: stderr.clone(),
                error: error.clone(),
            }
        },
        CommandResult::Timeout { command, stdout, stderr } => CommandOutput::Timeout {
            name: command.name.clone(),
            command: command.cmd.clone(),
            result,
            stdout: stdout.clone(),
            stderr: stderr.clone(),
        },
        CommandResult::IrregularExitCode { command, stdout, stderr, exit_code } => {
            CommandOutput::IrregularExitCode {
                name: command.name.clone(),
                command: command.cmd.clone(),
                result,
                stdout: stdout.clone(),
                stderr: stderr.clone(),
                exit_code: exit_code.clone(),
            }
        },
        CommandResult::StandardResult { command, stdout, stderr, exit_code } => {
            CommandOutput::Complete {
                name: command.name.clone(),
                command: command.cmd.clone(),
                result,
                stdout: stdout.clone(),
                stderr: stderr.clone(),
                exit_code: *exit_code,
            }
        },
    }
}

fn map_commands(results: &Vec<CommandResult>) -> (out: Vec<CommandOutput>)
    ensures
        out.deep_view() == spec_map_commands(results.deep_view()),
{
    let mut out: Vec<CommandOutput> = Vec::new();
    let n = results.len();
    let mut i: usize = 0;
    while i < n
        invariant
            0 <= i <= n,
            n == results@.len(),
            out@.len() == i,
            forall|j: int| 0 <= j < i ==> (#[trigger] out@[j])@ == spec_map_command(results@[j]@),
        decreases n - i,
    {
        out.push(map_command(&results[i]));
        i += 1;
    }
    proof {
        assert(out.deep_view() =~= spec_map_commands(results.deep_view()));
    }
    out
}

/// Build the report for one Test set.
pub fn map_test(set: &CommandSetResult) -> (out: TestOutput)
    ensures
        out@ == spec_map_test(set@),
{
    let out = TestOutput {
        name: set.set.name.clone(),
        result: result_to_string(set.success()),
        commands: map_commands(&set.results),
    };
    proof {
        assert(out@ =~= spec_map_test(set@));
    }
    out
}

fn map_tests(sets: &Vec<CommandSetResult>) -> (out: Vec<TestOutput>)
    ensures
        out.deep_view() == sets.deep_view().map_values(|s: CommandSetResultV| spec_map_test(s)),
{
    let mut out: Vec<TestOutput> = Vec::new();
    let n = sets.len();
    let mut i: usize = 0;
    while i < n
        invariant
            0 <= i <= n,
            n == sets@.len(),
            out@.len() == i,
            forall|j: int| 0 <= j < i ==> (#[trigger] out@[j])@ == spec_map_test(sets@[j]@),
        decreases n - i,
    {
        out.push(map_test(&sets[i]));
        i += 1;
    }
    proof {
        assert(out.deep_view() =~= sets.deep_view().map_values(
            |s: CommandSetResultV| spec_map_test(s),
        ));
    }
    out
}

/// Build the report for one module run.
pub fn map_module(module: &ProcessingModuleResult) -> (out: ModuleOutput)
    ensures
        out@ == spec_map_module(module@),
{
    let tests: Option<Vec<TestOutput>> = match &module.tests {
        Some(t) => Some(map_tests(&t.sets)),
        None => None,
    };
    let teardown: Option<Vec<CommandOutput>> = match &module.teardown {
        Some(td) => Some(map_commands(&td.results)),
        None => None,
    };
    let out = ModuleOutput {
        result: result_to_string(module.success()),
        setup: map_commands(&module.setup.results),
        tests,
        teardown,
    };
    proof {
        assert(out@ =~= spec_map_module(module@));
    }
    out
}

/// Build the full report tree for one module run; serializing it is the
/// caller's concern.
pub fn format_module(module: &ProcessingModuleResult) -> (out: ModuleOutput)
    ensures
        out@ == spec_map_module(module@),
{
    map_module(module)
}

} // verus!
