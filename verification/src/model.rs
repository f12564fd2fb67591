//! The data model: the configuration entities a module run consumes and the
//! result taxonomy it produces, together with the mathematical view of each
//! type and the success predicates at every level.

use vstd::prelude::*;

verus! {

// ---------------------------------------------------------------------------
// Configuration entities
// ---------------------------------------------------------------------------

/// The shell binding: an interpreter path and its fixed argument prefix,
/// prepended to every command line before it is handed to the operating
/// system.
#[derive(Debug, PartialEq)]
pub struct Shell(pub String, pub Vec<String>);

/// Mathematical view of a `Shell`.
#[verifier::ext_equal]
pub struct ShellV {
    pub interpreter: Seq<char>,
    pub args: Seq<Seq<char>>,
}

impl View for Shell {
    type V = ShellV;

    open spec fn view(&self) -> ShellV {
        ShellV { interpreter: self.0@, args: self.1.deep_view() }
    }
}

impl DeepView for Shell {
    type V = ShellV;

    open spec fn deep_view(&self) -> ShellV {
        self.view()
    }
}

/// The default shell binding, `/bin/bash -c`.
pub open spec fn default_shell() -> ShellV {
    ShellV { interpreter: "/bin/bash"@, args: seq!["-c"@] }
}

impl Clone for Shell {
    fn clone(&self) -> (r: Shell)
        ensures
            r@ == self@,
    {
        let args = self.1.clone();
        proof {
            assert(args.deep_view() =~= self.1.deep_view());
        }
        Shell(self.0.clone(), args)
    }
}

impl Default for Shell {
    fn default() -> (s: Shell)
        ensures
            s@ == default_shell(),
    {
        let mut args: Vec<String> = Vec::new();
        args.push("-c".to_owned());
        let s = Shell("/bin/bash".to_owned(), args);
        proof {
            assert(s@.args =~= seq!["-c"@]);
            assert(s@ =~= default_shell());
        }
        s
    }
}

/// How the commands of a set (or the sets of a family) are scheduled. The
/// engine is strictly sequential: one stream of work at a time.
#[derive(Debug, PartialEq, Eq, Structural, Clone, Copy)]
pub enum ProcessingKind {
    Serial,
}

/// Which phase a command set belongs to. The stop-on-failure policy is derived
/// from this: Setup and Test stop at the first failure, Teardown runs to the
/// end.
#[derive(Debug, PartialEq, Eq, Structural, Clone, Copy)]
pub enum CommandSetType {
    Setup,
    Test,
    Teardown,
}

/// One shell command, fully resolved: the literal command line, the shell it
/// runs under, and an optional timeout in milliseconds.
#[derive(Debug, PartialEq)]
pub struct ExecutableCommand {
    pub name: Option<String>,
    pub description: Option<String>,
    pub timeout: Option<u64>,
    pub shell: Shell,
    pub cmd: String,
}

/// Mathematical view of an `ExecutableCommand`.
#[verifier::ext_equal]
pub struct ExecutableCommandV {
    pub name: Option<Seq<char>>,
    pub description: Option<Seq<char>>,
    pub timeout: Option<u64>,
    pub shell: ShellV,
    pub cmd: Seq<char>,
}

impl View for ExecutableCommand {
    type V = ExecutableCommandV;

    open spec fn view(&self) -> ExecutableCommandV {
        ExecutableCommandV {
            name: self.name.deep_view(),
            description: self.description.deep_view(),
            timeout: self.timeout,
            shell: self.shell@,
            cmd: self.cmd@,
        }
    }
}

impl DeepView for ExecutableCommand {
    type V = ExecutableCommandV;

    open spec fn deep_view(&self) -> ExecutableCommandV {
        self.view()
    }
}

impl Clone for ExecutableCommand {
    fn clone(&self) -> (r: ExecutableCommand)
        ensures
            r@ == self@,
    {
        ExecutableCommand {
            name: self.name.clone(),
            description: self.description.clone(),
            timeout: self.timeout,
            shell: self.shell.clone(),
            cmd: self.cmd.clone(),
        }
    }
}

/// An ordered group of commands sharing one phase and one failure policy:
/// the Setup phase, one named Test, or the Teardown phase.
#[derive(Debug, PartialEq)]
pub struct CommandSet {
    pub name: Option<String>,
    pub set_type: CommandSetType,
    pub commands: Vec<ExecutableCommand>,
    pub processing_kind: ProcessingKind,
}

/// Mathematical view of a `CommandSet`.
#[verifier::ext_equal]
pub struct CommandSetV {
    pub name: Option<Seq<char>>,
    pub set_type: CommandSetType,
    pub commands: Seq<ExecutableCommandV>,
    pub processing_kind: ProcessingKind,
}

impl View for CommandSet {
    type V = CommandSetV;

    open spec fn view(&self) -> CommandSetV {
        CommandSetV {
            name: self.name.deep_view(),
            set_type: self.set_type,
            commands: self.commands.deep_view(),
            processing_kind: self.processing_kind,
        }
    }
}

impl DeepView for CommandSet {
    type V = CommandSetV;

    open spec fn deep_view(&self) -> CommandSetV {
        self.view()
    }
}

impl Clone for CommandSet {
    fn clone(&self) -> (r: CommandSet)
        ensures
            r@ == self@,
    {
        let commands = self.commands.clone();
        proof {
            assert(commands.deep_view() =~= self.commands.deep_view());
        }
        CommandSet {
            name: self.name.clone(),
            set_type: self.set_type,
            commands,
            processing_kind: self.processing_kind,
        }
    }
}

/// The ordered collection of Test sets belonging to one module.
#[derive(Debug, PartialEq)]
pub struct CommandFamily {
    pub sets: Vec<CommandSet>,
    pub processing_kind: ProcessingKind,
}

/// Mathematical view of a `CommandFamily`.
#[verifier::ext_equal]
pub struct CommandFamilyV {
    pub sets: Seq<CommandSetV>,
    pub processing_kind: ProcessingKind,
}

impl View for CommandFamily {
    type V = CommandFamilyV;

    open spec fn view(&self) -> CommandFamilyV {
        CommandFamilyV { sets: self.sets.deep_view(), processing_kind: self.processing_kind }
    }
}

impl DeepView for CommandFamily {
    type V = CommandFamilyV;

    open spec fn deep_view(&self) -> CommandFamilyV {
        self.view()
    }
}

impl Clone for CommandFamily {
    fn clone(&self) -> (r: CommandFamily)
        ensures
            r@ == self@,
    {
        let sets = self.sets.clone();
        proof {
            assert(sets.deep_view() =~= self.sets.deep_view());
        }
        CommandFamily { sets, processing_kind: self.processing_kind }
    }
}

/// The fully-resolved, executable configuration for one module run: a Setup
/// set, the family of Test sets, and a Teardown set, sharing one shell
/// binding.
#[derive(Debug, PartialEq)]
pub struct ProcessingModule {
    pub shell: Shell,
    pub setup: CommandSet,
    pub tests: CommandFamily,
    pub teardown: CommandSet,
}

/// Mathematical view of a `ProcessingModule`.
#[verifier::ext_equal]
pub struct ProcessingModuleV {
    pub shell: ShellV,
    pub setup: CommandSetV,
    pub tests: CommandFamilyV,
    pub teardown: CommandSetV,
}

impl View for ProcessingModule {
    type V = ProcessingModuleV;

    open spec fn view(&self) -> ProcessingModuleV {
        ProcessingModuleV {
            shell: self.shell@,
            setup: self.setup@,
            tests: self.tests@,
            teardown: self.teardown@,
        }
    }
}

impl DeepView for ProcessingModule {
    type V = ProcessingModuleV;

    open spec fn deep_view(&self) -> ProcessingModuleV {
        self.view()
    }
}

impl Clone for ProcessingModule {
    fn clone(&self) -> (r: ProcessingModule)
        ensures
            r@ == self@,
    {
        ProcessingModule {
            shell: self.shell.clone(),
            setup: self.setup.clone(),
            tests: self.tests.clone(),
            teardown: self.teardown.clone(),
        }
    }
}

// ---------------------------------------------------------------------------
// Result taxonomy
// ---------------------------------------------------------------------------

/// The outcome of one command attempt. Exactly one variant is produced for
/// every attempt; no failure mode escapes as a raised error.
///
/// - `OsError`: the operating system refused to create the process.
/// - `RuntimeError`: the process was created but waiting for it failed.
/// - `Timeout`: the configured timeout elapsed before the process exited; the
///   process was forcibly terminated. Captured partial output is kept.
/// - `IrregularExitCode`: the process ended via a signal or a status the host
///   could not normalize to a plain integer; the status is kept as text.
/// - `StandardResult`: the process exited normally with a numeric code.
#[derive(Debug, PartialEq)]
#[allow(inconsistent_fields)]
pub enum CommandResult {
    OsError { command: ExecutableCommand, error: String },
    RuntimeError { command: ExecutableCommand, stdout: String, stderr: String, error: String },
    Timeout { command: ExecutableCommand, stdout: String, stderr: String },
    IrregularExitCode {
        command: ExecutableCommand,
        stdout: String,
        stderr: String,
        exit_code: String,
    },
    StandardResult { command: ExecutableCommand, stdout: String, stderr: String, exit_code: u32 },
}

/// Mathematical view of a `CommandResult`.
#[verifier::ext_equal]
#[allow(inconsistent_fields)]
pub enum CommandResultV {
    OsError { command: ExecutableCommandV, error: Seq<char> },
    RuntimeError {
        command: ExecutableCommandV,
        stdout: Seq<char>,
        stderr: Seq<char>,
        error: Seq<char>,
    },
    Timeout { command: ExecutableCommandV, stdout: Seq<char>, stderr: Seq<char> },
    IrregularExitCode {
        command: ExecutableCommandV,
        stdout: Seq<char>,
        stderr: Seq<char>,
        exit_code: Seq<char>,
    },
    StandardResult {
        command: ExecutableCommandV,
        stdout: Seq<char>,
        stderr: Seq<char>,
        exit_code: u32,
    },
}

impl View for CommandResult {
    type V = CommandResultV;

    open spec fn view(&self) -> CommandResultV {
        match self {
            CommandResult::OsError { command, error } => CommandResultV::OsError {
                command: command@,
                error: error@,
            },
            CommandResult::RuntimeError { command, stdout, stderr, error } => {
                CommandResultV::RuntimeError {
                    command: command@,
                    stdout: stdout@,
                    stderr: stderr@,
                    error: error@,
                }
            },
            CommandResult::Timeout { command, stdout, stderr } => CommandResultV::Timeout {
                command: command@,
                stdout: stdout@,
                stderr: stderr@,
            },
            CommandResult::IrregularExitCode { command, stdout, stderr, exit_code } => {
                CommandResultV::IrregularExitCode {
                    command: command@,
                    stdout: stdout@,
                    stderr: stderr@,
                    exit_code: exit_code@,
                }
            },
            CommandResult::StandardResult { command, stdout, stderr, exit_code } => {
                CommandResultV::StandardResult {
                    command: command@,
                    stdout: stdout@,
                    stderr: stderr@,
                    exit_code: *exit_code,
                }
            },
        }
    }
}

impl DeepView for CommandResult {
    type V = CommandResultV;

    open spec fn deep_view(&self) -> CommandResultV {
        self.view()
    }
}

impl CommandResultV {
    /// A command attempt counts as a success exactly when the process exited
    /// normally with code zero; every other result kind is a failure.
    pub open spec fn success(self) -> bool {
        match self {
            CommandResultV::StandardResult { exit_code, .. } => exit_code == 0,
            _ => false,
        }
    }

    /// The command that produced this result.
    pub open spec fn command(self) -> ExecutableCommandV {
        match self {
            CommandResultV::OsError { command, .. } => command,
            CommandResultV::RuntimeError { command, .. } => command,
            CommandResultV::Timeout { command, .. } => command,
            CommandResultV::IrregularExitCode { command, .. } => command,
            CommandResultV::StandardResult { command, .. } => command,
        }
    }
}

impl CommandResult {
    /// True exactly for a normal exit with code zero; `false` for every other
    /// result kind, unconditionally.
    pub fn success(&self) -> (b: bool)
        ensures
            b == self@.success(),
    {
        match self {
            CommandResult::StandardResult { exit_code, .. } => *exit_code == 0,
            _ => false,
        }
    }
}

/// The results of one command set run, paired with the set that produced
/// them. `results` is a prefix of the set's commands' results: a strict
/// prefix exactly when a stop-on-failure set stopped early.
#[derive(Debug, PartialEq)]
pub struct CommandSetResult {
    pub set: CommandSet,
    pub results: Vec<CommandResult>,
}

/// Mathematical view of a `CommandSetResult`.
#[verifier::ext_equal]
pub struct CommandSetResultV {
    pub set: CommandSetV,
    pub results: Seq<CommandResultV>,
}

impl View for CommandSetResult {
    type V = CommandSetResultV;

    open spec fn view(&self) -> CommandSetResultV {
        CommandSetResultV { set: self.set@, results: self.results.deep_view() }
    }
}

impl DeepView for CommandSetResult {
    type V = CommandSetResultV;

    open spec fn deep_view(&self) -> CommandSetResultV {
        self.view()
    }
}

impl CommandSetResultV {
    /// A set run succeeds when every contained result succeeds; an empty run
    /// is vacuously successful.
    pub open spec fn success(self) -> bool {
        forall|i: int| 0 <= i < self.results.len() ==> (#[trigger] self.results[i]).success()
    }
}

impl CommandSetResult {
    /// The conjunction of `success` over all contained results; vacuously
    /// true for an empty result list.
    pub fn success(&self) -> (b: bool)
        ensures
            b == self@.success(),
    {
        let n = self.results.len();
        let mut i: usize = 0;
        while i < n
            invariant
                0 <= i <= n,
                n == self.results.len(),
                forall|j: int| 0 <= j < i ==> (#[trigger] self@.results[j]).success(),
            decreases n - i,
        {
            if !self.results[i].success() {
                proof {
                    assert(!(self@.results[i as int]).success());
                }
                return false;
            }
            i += 1;
        }
        true
    }
}

/// The results of one Test family run, paired with the family that produced
/// them. Every set of the family is always run, so `sets` has one entry per
/// Test.
#[derive(Debug, PartialEq)]
pub struct CommandFamilyResult {
    pub family: CommandFamily,
    pub sets: Vec<CommandSetResult>,
}

/// Mathematical view of a `CommandFamilyResult`.
#[verifier::ext_equal]
pub struct CommandFamilyResultV {
    pub family: CommandFamilyV,
    pub sets: Seq<CommandSetResultV>,
}

impl View for CommandFamilyResult {
    type V = CommandFamilyResultV;

    open spec fn view(&self) -> CommandFamilyResultV {
        CommandFamilyResultV { family: self.family@, sets: self.sets.deep_view() }
    }
}

impl DeepView for CommandFamilyResult {
    type V = CommandFamilyResultV;

    open spec fn deep_view(&self) -> CommandFamilyResultV {
        self.view()
    }
}

impl CommandFamilyResultV {
    /// A family run succeeds when every contained set run succeeds.
    pub open spec fn success(self) -> bool {
        forall|i: int| 0 <= i < self.sets.len() ==> (#[trigger] self.sets[i]).success()
    }
}

impl CommandFamilyResult {
    /// The conjunction of `success` over all contained set results.
    pub fn success(&self) -> (b: bool)
        ensures
            b == self@.success(),
    {
        let n = self.sets.len();
        let mut i: usize = 0;
        while i < n
            invariant
                0 <= i <= n,
                n == self.sets.len(),
                forall|j: int| 0 <= j < i ==> (#[trigger] self@.sets[j]).success(),
            decreases n - i,
        {
            if !self.sets[i].success() {
                proof {
                    assert(!(self@.sets[i as int]).success());
                }
                return false;
            }
            i += 1;
        }
        true
    }
}

/// The result of one full module run. `tests` and `teardown` are present
/// exactly when Setup succeeded; a run whose Setup failed skips both.
#[derive(Debug, PartialEq)]
pub struct ProcessingModuleResult {
    pub module: ProcessingModule,
    pub setup: CommandSetResult,
    pub tests: Option<CommandFamilyResult>,
    pub teardown: Option<CommandSetResult>,
}

/// Mathematical view of a `ProcessingModuleResult`.
#[verifier::ext_equal]
pub struct ProcessingModuleResultV {
    pub module: ProcessingModuleV,
    pub setup: CommandSetResultV,
    pub tests: Option<CommandFamilyResultV>,
    pub teardown: Option<CommandSetResultV>,
}

impl View for ProcessingModuleResult {
    type V = ProcessingModuleResultV;

    open spec fn view(&self) -> ProcessingModuleResultV {
        ProcessingModuleResultV {
            module: self.module@,
            setup: self.setup@,
            tests: self.tests.deep_view(),
            teardown: self.teardown.deep_view(),
        }
    }
}

impl DeepView for ProcessingModuleResult {
    type V = ProcessingModuleResultV;

    open spec fn deep_view(&self) -> ProcessingModuleResultV {
        self.view()
    }
}

impl ProcessingModuleResultV {
    /// A module run succeeds when Setup succeeded, the Test family was run
    /// and succeeded, and Teardown was run and succeeded. A run with absent
    /// `tests` or `teardown` is unconditionally unsuccessful.
    pub open spec fn success(self) -> bool {
        &&& self.setup.success()
        &&& self.tests matches Some(t) && t.success()
        &&& self.teardown matches Some(td) && td.success()
    }
}

impl ProcessingModuleResult {
    /// Setup succeeded, and the Test family and Teardown are both present and
    /// succeeded.
    pub fn success(&self) -> (b: bool)
        ensures
            b == self@.success(),
    {
        if !self.setup.success() {
            return false;
        }
        let tests_ok = match &self.tests {
            Some(t) => t.success(),
            None => false,
        };
        if !tests_ok {
            return false;
        }
        match &self.teardown {
            Some(td) => td.success(),
            None => false,
        }
    }
}

} // verus!
