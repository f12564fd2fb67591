//! The configuration surface: the entities a configuration file describes,
//! their exact mapping into the executable `ProcessingModule`, and the
//! extraction of those entities from a TOML document.

use vstd::prelude::*;

use crate::model::CommandFamily;
use crate::model::CommandFamilyV;
use crate::model::CommandSet;
use crate::model::CommandSetType;
use crate::model::CommandSetV;
use crate::model::ExecutableCommand;
use crate::model::ExecutableCommandV;
use crate::model::ProcessingKind;
use crate::model::ProcessingModule;
use crate::model::ProcessingModuleV;
use crate::model::Shell;
use crate::model::ShellV;
use crate::model::default_shell;
use crate::text::str_concat;
use crate::text::str_eq;

verus! {

/// The configuration markups a file can be written in.
#[derive(Debug, PartialEq, Eq, Structural, Clone, Copy)]
pub enum FileType {
    Toml,
    Dhall,
}

/// The shell binding a configuration names for the whole module.
#[derive(Debug, PartialEq)]
pub struct DefaultShell {
    pub path: String,
    pub args: Vec<String>,
}

/// Mathematical view of a `DefaultShell`.
#[verifier::ext_equal]
pub struct DefaultShellV {
    pub path: Seq<char>,
    pub args: Seq<Seq<char>>,
}

impl View for DefaultShell {
    type V = DefaultShellV;

    open spec fn view(&self) -> DefaultShellV {
        DefaultShellV { path: self.path@, args: self.args.deep_view() }
    }
}

impl DeepView for DefaultShell {
    type V = DefaultShellV;

    open spec fn deep_view(&self) -> DefaultShellV {
        self.view()
    }
}

/// One command as a configuration describes it: an optional name,
/// description and timeout, and the command line itself.
#[derive(Debug, PartialEq)]
pub struct Command {
    pub name: Option<String>,
    pub description: Option<String>,
    pub timeout: Option<u64>,
    pub command: String,
}

/// Mathematical view of a `Command`.
#[verifier::ext_equal]
pub struct CommandV {
    pub name: Option<Seq<char>>,
    pub description: Option<Seq<char>>,
    pub timeout: Option<u64>,
    pub command: Seq<char>,
}

impl View for Command {
    type V = CommandV;

    open spec fn view(&self) -> CommandV {
        CommandV {
            name: self.name.deep_view(),
            description: self.description.deep_view(),
            timeout: self.timeout,
            command: self.command@,
        }
    }
}

impl DeepView for Command {
    type V = CommandV;

    open spec fn deep_view(&self) -> CommandV {
        self.view()
    }
}

impl Clone for Command {
    fn clone(&self) -> (r: Command)
        ensures
            r@ == self@,
    {
        Command {
            name: self.name.clone(),
            description: self.description.clone(),
            timeout: self.timeout,
            command: self.command.clone(),
        }
    }
}

/// One named Test as a configuration describes it.
#[derive(Debug, PartialEq)]
pub struct Test {
    pub name: Option<String>,
    pub description: Option<String>,
    pub commands: Vec<Command>,
}

/// Mathematical view of a `Test`.
#[verifier::ext_equal]
pub struct TestV {
    pub name: Option<Seq<char>>,
    pub description: Option<Seq<char>>,
    pub commands: Seq<CommandV>,
}

impl View for Test {
    type V = TestV;

    open spec fn view(&self) -> TestV {
        TestV {
            name: self.name.deep_view(),
            description: self.description.deep_view(),
            commands: self.commands.deep_view(),
        }
    }
}

impl DeepView for Test {
    type V = TestV;

    open spec fn deep_view(&self) -> TestV {
        self.view()
    }
}

/// A whole configuration file, as read: a version, an optional shell
/// binding, optional Setup and Teardown command lists, and the Tests.
#[derive(Debug, PartialEq)]
pub struct TestModule {
    pub version: String,
    pub shell: Option<DefaultShell>,
    pub setup: Option<Vec<Command>>,
    pub tests: Vec<Test>,
    pub teardown: Option<Vec<Command>>,
}

/// Mathematical view of a `TestModule`.
#[verifier::ext_equal]
pub struct TestModuleV {
    pub version: Seq<char>,
    pub shell: Option<DefaultShellV>,
    pub setup: Option<Seq<CommandV>>,
    pub tests: Seq<TestV>,
    pub teardown: Option<Seq<CommandV>>,
}

impl View for TestModule {
    type V = TestModuleV;

    open spec fn view(&self) -> TestModuleV {
        TestModuleV {
            version: self.version@,
            shell: self.shell.deep_view(),
            setup: self.setup.deep_view(),
            tests: self.tests.deep_view(),
            teardown: self.teardown.deep_view(),
        }
    }
}

impl DeepView for TestModule {
    type V = TestModuleV;

    open spec fn deep_view(&self) -> TestModuleV {
        self.view()
    }
}

/// Why a configuration could not be read: a description and, for a syntax
/// error, the zero-based line and column it was found at.
#[derive(Debug, PartialEq)]
pub struct ParseError {
    pub description: String,
    pub line_col: Option<(usize, usize)>,
}

// ---------------------------------------------------------------------------
// Mapping the configuration entities into the executable model
// ---------------------------------------------------------------------------

/// One configured command under a given shell binding, ready to execute.
pub open spec fn spec_command_to_execommand(shell: ShellV, cmd: CommandV) -> ExecutableCommandV {
    ExecutableCommandV {
        name: cmd.name,
        description: cmd.description,
        timeout: cmd.timeout,
        shell,
        cmd: cmd.command,
    }
}

/// A command list as one serial set of the given kind; an absent list gives
/// an empty set.
pub open spec fn spec_commandlist_to_commandset(
    name: Option<Seq<char>>,
    c_type: CommandSetType,
    shell: ShellV,
    cmds: Option<Seq<CommandV>>,
) -> CommandSetV {
    CommandSetV {
        name,
        set_type: c_type,
        commands: match cmds {
            Some(cs) => cs.map_values(|c: CommandV| spec_command_to_execommand(shell, c)),
            None => Seq::empty(),
        },
        processing_kind: ProcessingKind::Serial,
    }
}

/// The configured Tests as one serial family of Test sets.
pub open spec fn spec_testlist_to_commandfamily(shell: ShellV, tests: Seq<TestV>) -> CommandFamilyV {
    CommandFamilyV {
        sets: tests.map_values(
            |t: TestV| spec_commandlist_to_commandset(
                t.name,
                CommandSetType::Test,
                shell,
                Some(t.commands),
            ),
        ),
        processing_kind: ProcessingKind::Serial,
    }
}

/// The shell binding a module runs under: the configured one, or
/// `/bin/bash -c` when the configuration names none.
pub open spec fn spec_module_shell(m: TestModuleV) -> ShellV {
    match m.shell {
        Some(ds) => ShellV { interpreter: ds.path, args: ds.args },
        None => default_shell(),
    }
}

/// A whole configuration as the executable module it describes: its Setup
/// and Teardown lists as sets named "Setup" and "Teardown", and its Tests
/// as the Test family, all under the module's shell binding.
pub open spec fn spec_testmodule_to_processingmodel(m: TestModuleV) -> ProcessingModuleV {
    ProcessingModuleV {
        shell: spec_module_shell(m),
        setup: spec_commandlist_to_commandset(
            Some("Setup"@),
            CommandSetType::Setup,
            spec_module_shell(m),
            m.setup,
        ),
        tests: spec_testlist_to_commandfamily(spec_module_shell(m), m.tests),
        teardown: spec_commandlist_to_commandset(
            Some("Teardown"@),
            CommandSetType::Teardown,
            spec_module_shell(m),
            m.teardown,
        ),
    }
}

/// Resolve one configured command against the shell binding it will run
/// under.
pub fn command_to_execommand(shell: &Shell, cmd: &Command) -> (r: ExecutableCommand)
    ensures
        r@ == spec_command_to_execommand(shell@, cmd@),
{
    ExecutableCommand {
        name: cmd.name.clone(),
        description: cmd.description.clone(),
        timeout: cmd.timeout,
        shell: shell.clone(),
        cmd: cmd.command.clone(),
    }
}

/// Turn one optional command list into a serial set of the given kind and
/// name; an absent list becomes an empty set.
pub fn commandlist_to_commandset(
    name: Option<String>,
    c_type: CommandSetType,
    shell: &Shell,
    opt_commands: Option<Vec<Command>>,
) -> (r: CommandSet)
    ensures
        r@ == spec_commandlist_to_commandset(
            name.deep_view(),
            c_type,
            shell@,
            opt_commands.deep_view(),
        ),
{
    match opt_commands {
        Some(commands) => {
            let mut out: Vec<ExecutableCommand> = Vec::new();
            let n = commands.len();
            let mut i: usize = 0;
            while i < n
                invariant
                    0 <= i <= n,
                    n == commands@.len(),
                    out@.len() == i,
                    forall|j: int|
                        0 <= j < i ==> (#[trigger] out@[j])@ == spec_command_to_execommand(
                            shell@,
                            commands@[j]@,
                        ),
                decreases n - i,
            {
                out.push(command_to_execommand(shell, &commands[i]));
                i += 1;
            }
            let r = CommandSet {
                name,
                set_type: c_type,
                commands: out,
                processing_kind: ProcessingKind::Serial,
            };
            proof {
                assert(r@ =~= spec_commandlist_to_commandset(
                    name.deep_view(),
                    c_type,
                    shell@,
                    opt_commands.deep_view(),
                ));
            }
            r
        },
        None => {
            let r = CommandSet {
                name,
                set_type: c_type,
                commands: Vec::new(),
                processing_kind: ProcessingKind::Serial,
            };
            proof {
                assert(r@ =~= spec_commandlist_to_commandset(
                    name.deep_view(),
                    c_type,
                    shell@,
                    opt_commands.deep_view(),
                ));
            }
            r
        },
    }
}

/// Turn the configured Tests into the module's Test family: one serial
/// stop-on-failure set per Test, in declaration order.
pub fn testlist_to_commandfamily(shell: &Shell, tests: Vec<Test>) -> (r: CommandFamily)
    ensures
        r@ == spec_testlist_to_commandfamily(shell@, tests.deep_view()),
{
    let mut sets: Vec<CommandSet> = Vec::new();
    let n = tests.len();
    let mut i: usize = 0;
    while i < n
        invariant
            0 <= i <= n,
            n == tests@.len(),
            sets@.len() == i,
            forall|j: int|
                0 <= j < i ==> (#[trigger] sets@[j])@ == spec_commandlist_to_commandset(
                    tests@[j]@.name,
                    CommandSetType::Test,
                    shell@,
                    Some(tests@[j]@.commands),
                ),
        decreases n - i,
    {
        let t = &tests[i];
        let name = t.name.clone();
        let commands = t.commands.clone();
        proof {
            assert(commands.deep_view() =~= t.commands.deep_view());
        }
        let cs = commandlist_to_commandset(name, CommandSetType::Test, shell, Some(commands));
        sets.push(cs);
        i += 1;
    }
    let r = CommandFamily { sets, processing_kind: ProcessingKind::Serial };
    proof {
        assert(r@ =~= spec_testlist_to_commandfamily(shell@, tests.deep_view()));
    }
    r
}

/// Resolve a whole configuration into the executable module it describes.
pub fn testmodule_to_processingmodel(module: TestModule) -> (r: ProcessingModule)
    ensures
        r@ == spec_testmodule_to_processingmodel(module@),
{
    let TestModule { version: _, shell, setup, tests, teardown } = module;
    let shell: Shell = match shell {
        Some(ds) => {
            let DefaultShell { path, args } = ds;
            Shell(path, args)
        },
        None => Shell::default(),
    };
    let r = ProcessingModule {
        shell: shell.clone(),
        setup: commandlist_to_commandset(
            Some("Setup".to_owned()),
            CommandSetType::Setup,
            &shell,
            setup,
        ),
        tests: testlist_to_commandfamily(&shell, tests),
        teardown: commandlist_to_commandset(
            Some("Teardown".to_owned()),
            CommandSetType::Teardown,
            &shell,
            teardown,
        ),
    };
    proof {
        assert(r@ =~= spec_testmodule_to_processingmodel(module@));
    }
    r
}

// ---------------------------------------------------------------------------
// Reading a TOML document
// ---------------------------------------------------------------------------

#[verifier::external_type_specification]
#[verifier::external_body]
pub struct ExTomlValue(toml::Value);

/// Relies on toml's parser (str::parse::<toml::Value>): turns a TOML
/// document into its value tree. On a syntax error the parser's message
/// (toml::de::Error::to_string) and position (toml::de::Error::line_col)
/// are carried over.
#[verifier::external_body]
fn toml_parse(s: &str) -> (r: Result<toml::Value, ParseError>)
{
    match s.parse::<toml::Value>() {
        Ok(v) => Ok(v),
        Err(e) => Err(ParseError { description: e.to_string(), line_col: e.line_col() }),
    }
}

/// Relies on toml's Value::get with a string index: looks a key up in a
/// table value; absent keys and non-table values give `None`.
#[verifier::external_body]
fn toml_get<'a>(v: &'a toml::Value, key: &str) -> (r: Option<&'a toml::Value>)
{
    v.get(key)
}

/// Relies on toml's Value::as_str: the string payload, if the value is a
/// string.
#[verifier::external_body]
fn toml_as_str(v: &toml::Value) -> (r: Option<&str>)
{
    v.as_str()
}

/// Relies on toml's Value::as_integer: the integer payload, if the value is
/// an integer.
#[verifier::external_body]
fn toml_as_integer(v: &toml::Value) -> (r: Option<i64>)
{
    v.as_integer()
}

/// Relies on toml's Value::as_array: the element list, if the value is an
/// array.
#[verifier::external_body]
fn toml_as_array(v: &toml::Value) -> (r: Option<&Vec<toml::Value>>)
{
    v.as_array()
}

fn field_error(what: &str, key: &str) -> (r: ParseError)
    ensures
        r.line_col is None,
{
    let open = str_concat(what, key);
    ParseError { description: str_concat(open.as_str(), "`"), line_col: None }
}

/// Read an optional string key of a table.
fn get_string(v: &toml::Value, key: &str) -> (r: Result<Option<String>, ParseError>)
{
    match toml_get(v, key) {
        None => Ok(None),
        Some(x) => match toml_as_str(x) {
            Some(s) => Ok(Some(s.to_owned())),
            None => Err(field_error("invalid type for field `", key)),
        },
    }
}

/// Read a required string key of a table.
fn get_required_string(v: &toml::Value, key: &str) -> (r: Result<String, ParseError>)
{
    match get_string(v, key)? {
        Some(s) => Ok(s),
        None => Err(field_error("missing field `", key)),
    }
}

/// Read an optional non-negative integer key of a table.
fn get_u64(v: &toml::Value, key: &str) -> (r: Result<Option<u64>, ParseError>)
{
    match toml_get(v, key) {
        None => Ok(None),
        Some(x) => match toml_as_integer(x) {
            Some(i) => {
                if i >= 0 {
                    Ok(Some(i as u64))
                } else {
                    Err(field_error("invalid value for field `", key))
                }
            },
            None => Err(field_error("invalid type for field `", key)),
        },
    }
}

/// Read a key that a configuration may spell under two names; exactly one
/// spelling may be present.
fn get_aliased<'a>(v: &'a toml::Value, key: &str, alias: &str) -> (r: Result<
    Option<&'a toml::Value>,
    ParseError,
>)
{
    let first = toml_get(v, key);
    let second = toml_get(v, alias);
    match (first, second) {
        (Some(_), Some(_)) => Err(field_error("duplicate field `", key)),
        (Some(x), None) => Ok(Some(x)),
        (None, Some(x)) => Ok(Some(x)),
        (None, None) => Ok(None),
    }
}

/// Read one command table: its optional name, description and timeout, and
/// its command line, spelled `command` or `cmd`.
fn parse_command(v: &toml::Value) -> (r: Result<Command, ParseError>)
{
    let name = get_string(v, "name")?;
    let description = get_string(v, "description")?;
    let timeout = get_u64(v, "timeout")?;
    let command = match get_aliased(v, "command", "cmd")? {
        Some(x) => match toml_as_str(x) {
            Some(s) => s.to_owned(),
            None => {
                return Err(field_error("invalid type for field `", "command"));
            },
        },
        None => {
            return Err(field_error("missing field `", "command"));
        },
    };
    Ok(Command { name, description, timeout, command })
}

/// Read an array of command tables.
fn parse_command_list(v: &toml::Value, key: &str) -> (r: Result<Vec<Command>, ParseError>)
{
    let arr = match toml_as_array(v) {
        Some(a) => a,
        None => {
            return Err(field_error("invalid type for field `", key));
        },
    };
    let mut out: Vec<Command> = Vec::new();
    let n = arr.len();
    let mut i: usize = 0;
    while i < n
        invariant
            0 <= i <= n,
            n == arr@.len(),
        decreases n - i,
    {
        let c = parse_command(&arr[i])?;
        out.push(c);
        i += 1;
    }
    Ok(out)
}

/// Read one Test table: its optional name and description, and its command
/// list, spelled `commands` or `command`.
fn parse_test(v: &toml::Value) -> (r: Result<Test, ParseError>)
{
    let name = get_string(v, "name")?;
    let description = get_string(v, "description")?;
    let commands = match get_aliased(v, "commands", "command")? {
        Some(x) => parse_command_list(x, "commands")?,
        None => {
            return Err(field_error("missing field `", "commands"));
        },
    };
    Ok(Test { name, description, commands })
}

/// Read the optional shell table: its interpreter path and argument list,
/// both required once the table is present.
fn parse_shell(v: &toml::Value) -> (r: Result<DefaultShell, ParseError>)
{
    let path = get_required_string(v, "path")?;
    let args_val = match toml_get(v, "args") {
        Some(x) => x,
        None => {
            return Err(field_error("missing field `", "args"));
        },
    };
    let arr = match toml_as_array(args_val) {
        Some(a) => a,
        None => {
            return Err(field_error("invalid type for field `", "args"));
        },
    };
    let mut args: Vec<String> = Vec::new();
    let n = arr.len();
    let mut i: usize = 0;
    while i < n
        invariant
            0 <= i <= n,
            n == arr@.len(),
        decreases n - i,
    {
        match toml_as_str(&arr[i]) {
            Some(s) => args.push(s.to_owned()),
            None => {
                return Err(field_error("invalid type for field `", "args"));
            },
        }
        i += 1;
    }
    Ok(DefaultShell { path, args })
}

/// Read a whole TOML configuration into a `TestModule`: `version` and the
/// Tests (spelled `test` or `tests`) are required; the shell binding and
/// the Setup and Teardown lists are optional.
pub fn parse_toml(config: String) -> (r: Result<TestModule, ParseError>)
{
    let root = toml_parse(config.as_str())?;
    let version = get_required_string(&root, "version")?;
    let shell = match toml_get(&root, "shell") {
        Some(x) => Some(parse_shell(x)?),
        None => None,
    };
    let setup = match toml_get(&root, "setup") {
        Some(x) => Some(parse_command_list(x, "setup")?),
        None => None,
    };
    let teardown = match toml_get(&root, "teardown") {
        Some(x) => Some(parse_command_list(x, "teardown")?),
        None => None,
    };
    let tests_val = match get_aliased(&root, "tests", "test")? {
        Some(x) => x,
        None => {
            return Err(field_error("missing field `", "tests"));
        },
    };
    let arr = match toml_as_array(tests_val) {
        Some(a) => a,
        None => {
            return Err(field_error("invalid type for field `", "tests"));
        },
    };
    let mut tests: Vec<Test> = Vec::new();
    let n = arr.len();
    let mut i: usize = 0;
    while i < n
        invariant
            0 <= i <= n,
            n == arr@.len(),
        decreases n - i,
    {
        let t = parse_test(&arr[i])?;
        tests.push(t);
        i += 1;
    }
    Ok(TestModule { version, shell, setup, tests, teardown })
}

/// Which configuration markup a file extension names.
pub open spec fn spec_file_extension_to_filetype(ext: Seq<char>) -> Option<FileType> {
    if ext == "toml"@ {
        Some(FileType::Toml)
    } else if ext == "dhall"@ {
        Some(FileType::Dhall)
    } else {
        None
    }
}

/// Map a file extension to the markup it names; unknown extensions give
/// `None`.
pub fn file_extension_to_filetype(ext: &str) -> (r: Option<FileType>)
    ensures
        r == spec_file_extension_to_filetype(ext@),
{
    if str_eq(ext, "toml") {
        Some(FileType::Toml)
    } else if str_eq(ext, "dhall") {
        Some(FileType::Dhall)
    } else {
        None
    }
}

/// Read a configuration file's contents and resolve them into the
/// executable module they describe. Every successful result is the exact
/// mapping of some configuration; only the TOML markup can be read.
pub fn prepare_file(file_type: FileType, config_file: String) -> (r: Result<
    ProcessingModule,
    ParseError,
>)
    requires
        file_type is Toml,
    ensures
        r matches Ok(m) ==> exists|tm: TestModuleV| m@ == spec_testmodule_to_processingmodel(tm),
{
    let module = match file_type {
        FileType::Toml => match parse_toml(config_file) {
            Ok(m) => m,
            Err(e) => {
                return Err(e);
            },
        },
        FileType::Dhall => {
            // Excluded by the precondition.
            proof {
                assert(false);
            }
            return Err(ParseError { description: String::new(), line_col: None });
        },
    };
    let r = testmodule_to_processingmodel(module);
    Ok(r)
}

} // verus!
