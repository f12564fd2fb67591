//! The execution engine: spawning one child process per command with an
//! optional timeout, draining both output pipes without risking deadlock,
//! classifying every outcome into the closed `CommandResult` taxonomy, and
//! the sequencing of commands into set, family, and module runs.

use vstd::prelude::*;

use crate::model::CommandFamily;
use crate::model::CommandFamilyResult;
use crate::model::CommandResult;
use crate::model::CommandResultV;
use crate::model::CommandSet;
use crate::model::CommandSetResult;
use crate::model::ExecutableCommand;
use crate::model::ExecutableCommandV;
use crate::model::ProcessingModule;
use crate::model::ProcessingModuleResult;
use crate::text::dec_str;
use crate::text::dec_str_signed;
use crate::text::fmt_i32;
use crate::text::fmt_u64;
use crate::text::str_concat;

verus! {

// ---------------------------------------------------------------------------
// The process boundary
// ---------------------------------------------------------------------------

#[verifier::external_type_specification]
#[verifier::external_body]
pub struct ExPopen(subprocess::Popen);

/// The termination status of a child process, as plain data: a normal
/// numeric exit code, the number of the signal that ended it, a
/// platform-specific status, or an indeterminate status.
#[derive(Debug, PartialEq, Eq, Structural, Clone, Copy)]
pub enum ExitStatus {
    Exited(u32),
    Signaled(u8),
    Other(i32),
    Undetermined,
}

/// An internal failure of one step of a command attempt, with the operating
/// system's message. Each variant names the step that failed.
#[derive(Debug)]
pub enum RunProcessError {
    /// The OS refused to create the process.
    ProcessCreateError(String),
    /// Waiting for the created process failed.
    ProcessRuntimeError(String),
    /// Reading the redirected output pipes failed.
    RedirectReadFailed(String),
    /// A concurrent output reader itself failed to run to completion.
    ThreadJoinError(String),
    /// Terminating a timed-out process failed.
    KillProcessError(String),
    /// Reaping a terminated process failed.
    KillWaitError(String),
}

/// What one command attempt captured: the bytes of each output stream (or
/// the failure that interrupted reading it) and the termination status.
/// `exit_status` of `Ok(None)` means the timeout elapsed first.
pub struct CapturedData {
    pub stdout: Result<Vec<u8>, RunProcessError>,
    pub stderr: Result<Vec<u8>, RunProcessError>,
    pub exit_status: Result<Option<ExitStatus>, RunProcessError>,
}

/// How one draining of the two output pipes ended: both streams read to
/// end-of-file, the time limit elapsed first, or reading failed. The
/// captured bytes (partial in the latter two cases) are kept either way.
enum DrainOutcome {
    Complete(Vec<u8>, Vec<u8>),
    TimedOut(Vec<u8>, Vec<u8>),
    ReadFailed(Vec<u8>, Vec<u8>, String),
}

/// Relies on subprocess's Popen::create: starts the program named by the
/// first argument string, with the remaining strings as its arguments,
/// standard input closed and each output stream redirected to a pipe. An
/// error means the operating system refused to create the process (an empty
/// argument vector is likewise refused with an error, never a panic).
#[verifier::external_body]
fn popen_spawn(argv: &Vec<String>) -> (r: Result<subprocess::Popen, String>)
{
    match subprocess::Popen::create(argv.as_slice(), subprocess::PopenConfig {
        stdin: subprocess::Redirection::None,
        stdout: subprocess::Redirection::Pipe,
        stderr: subprocess::Redirection::Pipe,
        ..Default::default()
    }) {
        Ok(p) => Ok(p),
        Err(e) => Err(e.to_string()),
    }
}

/// Relies on subprocess's Popen::communicate_start and Communicator::read,
/// with Communicator::limit_time when a limit is given: reads the child's
/// standard output and standard error concurrently until end-of-file or
/// until the limit elapses, without risking pipe deadlock. A timeout is
/// reported (as an error of kind TimedOut) only when a limit was set; on
/// timeout or read failure the bytes captured so far are returned.
#[verifier::external_body]
fn popen_drain(p: &mut subprocess::Popen, limit_ms: Option<u64>) -> (r: DrainOutcome)
    ensures
        limit_ms is None ==> !(r is TimedOut),
{
    let mut c = p.communicate_start(None);
    if let Some(ms) = limit_ms {
        c = c.limit_time(std::time::Duration::from_millis(ms));
    }
    match c.read() {
        Ok((o, e)) => DrainOutcome::Complete(o.unwrap_or(Vec::new()), e.unwrap_or(Vec::new())),
        Err(err) => {
            let (o, e) = err.capture;
            let (o, e) = (o.unwrap_or(Vec::new()), e.unwrap_or(Vec::new()));
            let timed = limit_ms.is_some() && err.error.kind() == std::io::ErrorKind::TimedOut;
            if timed { DrainOutcome::TimedOut(o, e) } else { DrainOutcome::ReadFailed(o, e, err.error.to_string()) }
        }
    }
}

/// Relies on subprocess's Popen::wait: blocks until the child has exited and
/// returns its termination status; an error means the underlying system call
/// failed unexpectedly.
#[verifier::external_body]
fn popen_wait(p: &mut subprocess::Popen) -> (r: Result<ExitStatus, String>)
{
    match p.wait() {
        Ok(subprocess::ExitStatus::Exited(c)) => Ok(ExitStatus::Exited(c)),
        Ok(subprocess::ExitStatus::Signaled(s)) => Ok(ExitStatus::Signaled(s)),
        Ok(subprocess::ExitStatus::Other(o)) => Ok(ExitStatus::Other(o)),
        Ok(subprocess::ExitStatus::Undetermined) => Ok(ExitStatus::Undetermined),
        Err(e) => Err(e.to_string()),
    }
}

/// Relies on subprocess's Popen::wait_timeout: waits for the child for
/// roughly no longer than the given duration; `Ok(None)` means the time
/// elapsed with the child still running.
#[verifier::external_body]
fn popen_wait_timeout(p: &mut subprocess::Popen, ms: u64) -> (r: Result<Option<ExitStatus>, String>)
{
    match p.wait_timeout(std::time::Duration::from_millis(ms)) {
        Ok(Some(subprocess::ExitStatus::Exited(c))) => Ok(Some(ExitStatus::Exited(c))),
        Ok(Some(subprocess::ExitStatus::Signaled(s))) => Ok(Some(ExitStatus::Signaled(s))),
        Ok(Some(subprocess::ExitStatus::Other(o))) => Ok(Some(ExitStatus::Other(o))),
        Ok(Some(subprocess::ExitStatus::Undetermined)) => Ok(Some(ExitStatus::Undetermined)),
        Ok(None) => Ok(None),
        Err(e) => Err(e.to_string()),
    }
}

/// Relies on subprocess's Popen::kill: sends an uncatchable termination
/// signal to the child. Failure is reported, never raised.
#[verifier::external_body]
fn popen_kill(p: &mut subprocess::Popen) -> (r: Result<(), String>)
{
    match p.kill() {
        Ok(()) => Ok(()),
        Err(e) => Err(e.to_string()),
    }
}

/// What the bytes of one output stream decode to. Names the result of
/// String::from_utf8_lossy, which depends on the bytes alone.
pub uninterp spec fn utf8_lossy(bytes: Seq<u8>) -> Seq<char>;

/// Relies on String::from_utf8_lossy: decodes bytes as UTF-8, replacing
/// invalid sequences with the replacement character. The result is a
/// function of the bytes alone, and no bytes decode to no text.
#[verifier::external_body]
pub fn from_utf8_lossy(vec_byte: Vec<u8>) -> (r: String)
    ensures
        r@ == utf8_lossy(vec_byte@),
        vec_byte@.len() == 0 ==> r@.len() == 0,
{
    String::from_utf8_lossy(&vec_byte).into_owned()
}

// ---------------------------------------------------------------------------
// Running one command
// ---------------------------------------------------------------------------

/// The label that prefixes the message of each internal failure kind.
pub open spec fn error_label(e: RunProcessError) -> Seq<char> {
    match e {
        RunProcessError::ProcessCreateError(_) => "ProcessCreateError: "@,
        RunProcessError::ProcessRuntimeError(_) => "ProcessRuntimeError: "@,
        RunProcessError::RedirectReadFailed(_) => "RedirectReadFailed: "@,
        RunProcessError::ThreadJoinError(_) => "ThreadJoinError: "@,
        RunProcessError::KillProcessError(_) => "KillProcessError: "@,
        RunProcessError::KillWaitError(_) => "KillWaitError: "@,
    }
}

/// The message carried by an internal failure.
pub open spec fn error_message(e: RunProcessError) -> Seq<char> {
    match e {
        RunProcessError::ProcessCreateError(m) => m@,
        RunProcessError::ProcessRuntimeError(m) => m@,
        RunProcessError::RedirectReadFailed(m) => m@,
        RunProcessError::ThreadJoinError(m) => m@,
        RunProcessError::KillProcessError(m) => m@,
        RunProcessError::KillWaitError(m) => m@,
    }
}

/// The rendering of an internal failure: its label followed by the
/// operating system's message.
pub open spec fn error_text(e: RunProcessError) -> Seq<char> {
    error_label(e) + error_message(e)
}

fn translate_error(err: &RunProcessError) -> (r: String)
    ensures
        r@ == error_text(*err),
{
    match err {
        RunProcessError::ProcessCreateError(m) => str_concat("ProcessCreateError: ", m.as_str()),
        RunProcessError::ProcessRuntimeError(m) => str_concat("ProcessRuntimeError: ", m.as_str()),
        RunProcessError::RedirectReadFailed(m) => str_concat("RedirectReadFailed: ", m.as_str()),
        RunProcessError::ThreadJoinError(m) => str_concat("ThreadJoinError: ", m.as_str()),
        RunProcessError::KillProcessError(m) => str_concat("KillProcessError: ", m.as_str()),
        RunProcessError::KillWaitError(m) => str_concat("KillWaitError: ", m.as_str()),
    }
}

/// The text that stands in an output field: the decoded bytes, or, when
/// reading that stream failed, a note naming the stream and the failure.
pub open spec fn stream_text(s: Result<Vec<u8>, RunProcessError>, note: Seq<char>) -> Seq<char> {
    match s {
        Ok(v) => utf8_lossy(v@),
        Err(e) => note + error_text(e),
    }
}

/// The rendering of a termination status that is not a plain numeric exit.
pub open spec fn irregular_text(st: ExitStatus) -> Seq<char>
    recommends
        !(st is Exited),
{
    match st {
        ExitStatus::Exited(_) => Seq::empty(),
        ExitStatus::Signaled(s) => "Signaled("@ + dec_str(s as nat) + ")"@,
        ExitStatus::Other(o) => "Other("@ + dec_str_signed(o as int) + ")"@,
        ExitStatus::Undetermined => "Undetermined"@,
    }
}

/// The classification of one command attempt: a spawn failure is an
/// `OsError`; a wait failure is a `RuntimeError`; an elapsed timeout is a
/// `Timeout`; a normal numeric exit is a `StandardResult`; any other
/// termination status is an `IrregularExitCode`.
pub open spec fn translated_result(
    command: ExecutableCommandV,
    result: Result<CapturedData, RunProcessError>,
) -> CommandResultV {
    match result {
        Ok(cap) => {
            let stdout = stream_text(cap.stdout, "Fcheck error on stdout. "@);
            let stderr = stream_text(cap.stderr, "Fcheck error on stderr. "@);
            match cap.exit_status {
                Ok(Some(ExitStatus::Exited(code))) => CommandResultV::StandardResult {
                    command,
                    stdout,
                    stderr,
                    exit_code: code,
                },
                Ok(Some(st)) => CommandResultV::IrregularExitCode {
                    command,
                    stdout,
                    stderr,
                    exit_code: irregular_text(st),
                },
                Ok(None) => CommandResultV::Timeout { command, stdout, stderr },
                Err(e) => CommandResultV::RuntimeError {
                    command,
                    stdout,
                    stderr,
                    error: "Runtime error occured: "@ + error_text(e),
                },
            }
        },
        Err(e) => CommandResultV::OsError {
            command,
            error: "OS error occured: "@ + error_text(e),
        },
    }
}

/// Classify what one command attempt captured into exactly one result kind.
pub fn translate_result(
    command: &ExecutableCommand,
    result: Result<CapturedData, RunProcessError>,
) -> (r: CommandResult)
    ensures
        r@ == translated_result(command@, result),
{
    match result {
        Ok(cap) => {
            let CapturedData { stdout, stderr, exit_status } = cap;
            let stdout = match stdout {
                Ok(v) => from_utf8_lossy(v),
                Err(e) => str_concat("Fcheck error on stdout. ", translate_error(&e).as_str()),
            };
            let stderr = match stderr {
                Ok(v) => from_utf8_lossy(v),
                Err(e) => str_concat("Fcheck error on stderr. ", translate_error(&e).as_str()),
            };
            match exit_status {
                Ok(Some(ExitStatus::Exited(code))) => CommandResult::StandardResult {
                    command: command.clone(),
                    stdout,
                    stderr,
                    exit_code: code,
                },
                Ok(Some(ExitStatus::Signaled(s))) => {
                    let open = str_concat("Signaled(", fmt_u64(s as u64).as_str());
                    let code = str_concat(open.as_str(), ")");
                    CommandResult::IrregularExitCode {
                        command: command.clone(),
                        stdout,
                        stderr,
                        exit_code: code,
                    }
                },
                Ok(Some(ExitStatus::Other(o))) => {
                    let open = str_concat("Other(", fmt_i32(o).as_str());
                    let code = str_concat(open.as_str(), ")");
                    CommandResult::IrregularExitCode {
                        command: command.clone(),
                        stdout,
                        stderr,
                        exit_code: code,
                    }
                },
                Ok(Some(ExitStatus::Undetermined)) => CommandResult::IrregularExitCode {
                    command: command.clone(),
                    stdout,
                    stderr,
                    exit_code: "Undetermined".to_owned(),
                },
                Ok(None) => CommandResult::Timeout { command: command.clone(), stdout, stderr },
                Err(e) => {
                    let error = str_concat("Runtime error occured: ", translate_error(&e).as_str());
                    CommandResult::RuntimeError {
                        command: command.clone(),
                        stdout,
                        stderr,
                        error,
                    }
                },
            }
        },
        Err(e) => {
            let error = str_concat("OS error occured: ", translate_error(&e).as_str());
            CommandResult::OsError { command: command.clone(), error }
        },
    }
}

/// Start one child process for the given argument vector, drain both of its
/// output pipes concurrently, wait for it (bounded by `timeout` in
/// milliseconds, if given), and on an elapsed timeout terminate and reap it,
/// best-effort. Every step's failure is captured as data; only a spawn
/// failure is an error of the whole attempt, and the timeout can elapse
/// only when one was configured.
pub fn start_process(timeout: Option<u64>, args: &Vec<String>) -> (r: Result<
    CapturedData,
    RunProcessError,
>)
    ensures
        r matches Err(e) ==> e is ProcessCreateError,
        timeout is None ==> !(r matches Ok(cap) && cap.exit_status matches Ok(None)),
{
    let mut p = match popen_spawn(args) {
        Ok(p) => p,
        Err(msg) => {
            return Err(RunProcessError::ProcessCreateError(msg));
        },
    };
    let drained = popen_drain(&mut p, timeout);
    let (out_res, err_res, drain_timed_out): (
        Result<Vec<u8>, RunProcessError>,
        Result<Vec<u8>, RunProcessError>,
        bool,
    ) = match drained {
        DrainOutcome::Complete(o, e) => (Ok(o), Ok(e), false),
        DrainOutcome::TimedOut(o, e) => (Ok(o), Ok(e), true),
        DrainOutcome::ReadFailed(_, _, msg) => {
            let m2 = msg.clone();
            (
                Err(RunProcessError::RedirectReadFailed(msg)),
                Err(RunProcessError::RedirectReadFailed(m2)),
                false,
            )
        },
    };
    let status: Result<Option<ExitStatus>, RunProcessError> = if drain_timed_out {
        // The time limit elapsed while the pipes were still open: the child
        // is still running and the attempt is a timeout.
        Ok(None)
    } else {
        match timeout {
            Some(ms) => match popen_wait_timeout(&mut p, ms) {
                Ok(opt) => Ok(opt),
                Err(m) => Err(RunProcessError::ProcessRuntimeError(m)),
            },
            None => match popen_wait(&mut p) {
                Ok(st) => Ok(Some(st)),
                Err(m) => Err(RunProcessError::ProcessRuntimeError(m)),
            },
        }
    };
    let timed_out = match &status {
        Ok(opt) => opt.is_none(),
        Err(_) => false,
    };
    if timed_out {
        // Termination is best-effort: a child that cannot be killed or
        // reaped must not turn the attempt into anything but a timeout.
        let _ = popen_kill(&mut p);
        let _ = popen_wait(&mut p);
    }
    Ok(CapturedData { stdout: out_res, stderr: err_res, exit_status: status })
}

/// The argument vector handed to the operating system for one command: the
/// shell interpreter, the shell's fixed arguments, then the command text.
fn build_argv(command: &ExecutableCommand) -> (argv: Vec<String>)
    ensures
        argv.deep_view() == seq![command@.shell.interpreter] + command@.shell.args + seq![
            command@.cmd,
        ],
{
    let mut argv: Vec<String> = Vec::new();
    argv.push(command.shell.0.clone());
    let n = command.shell.1.len();
    let mut i: usize = 0;
    while i < n
        invariant
            0 <= i <= n,
            n == command.shell.1.len(),
            argv@.len() == i + 1,
            argv@[0] == command.shell.0,
            forall|j: int| 0 <= j < i ==> argv@[j + 1] == command.shell.1@[j],
        decreases n - i,
    {
        argv.push(command.shell.1[i].clone());
        i += 1;
    }
    argv.push(command.cmd.clone());
    proof {
        assert(argv.deep_view() =~= seq![command@.shell.interpreter] + command@.shell.args + seq![
            command@.cmd,
        ]);
    }
    argv
}

/// Run one command to completion: build the argument vector, execute it at
/// the process boundary, and classify the outcome. Every attempt yields
/// exactly one result, carrying the command that produced it, and a command
/// with no configured timeout never yields a `Timeout`.
pub fn run_command(command: &ExecutableCommand) -> (r: CommandResult)
    ensures
        r@.command() == command@,
        command.timeout is None ==> !(r@ is Timeout),
{
    let timeout = command.timeout;
    let full_command = build_argv(command);
    let res_data = start_process(timeout, &full_command);
    translate_result(command, res_data)
}

// ---------------------------------------------------------------------------
// Sequencing: set, family, and module runs
// ---------------------------------------------------------------------------

/// The command runner accepts every command.
pub open spec fn runs_any_command<F: Fn(&ExecutableCommand) -> CommandResult>(run_cmd: F) -> bool {
    forall|c: &ExecutableCommand| #[trigger] call_requires(run_cmd, (c,))
}

/// What a set run guarantees: the result is paired with the set that was
/// run; each result came from running the command at the same position, in
/// order; a stop-on-failure run keeps only successes before its last result
/// and is shorter than the command list only when its last result is the
/// failure that stopped it; a run without stop-on-failure has one result
/// per command.
pub open spec fn set_run_conforms<F: Fn(&ExecutableCommand) -> CommandResult>(
    run_cmd: F,
    set: CommandSet,
    stop_on_failure: bool,
    r: CommandSetResult,
) -> bool {
    &&& r@.set == set@
    &&& r.results@.len() <= set.commands@.len()
    &&& forall|i: int|
        0 <= i < r.results@.len() ==> call_ensures(
            run_cmd,
            (&set.commands@[i],),
            #[trigger] r.results@[i],
        )
    &&& stop_on_failure ==> forall|i: int|
        0 <= i < r.results@.len() - 1 ==> (#[trigger] r.results@[i])@.success()
    &&& stop_on_failure && r.results@.len() < set.commands@.len() ==> r.results@.len() >= 1 && !r.results@[r.results@.len() - 1]@.success()
    &&& !stop_on_failure ==> r.results@.len() == set.commands@.len()
}

/// Run the commands of one set in declaration order, one at a time. After
/// each command the outcome is inspected: when `stop_on_failure` is set and
/// the command failed, the remaining commands are not run, and the result
/// list is the strict prefix ending in that failure.
pub fn run_commandset<F: Fn(&ExecutableCommand) -> CommandResult>(
    stop_on_failure: bool,
    run_cmd: &F,
    set: &CommandSet,
) -> (r: CommandSetResult)
    requires
        runs_any_command(*run_cmd),
    ensures
        set_run_conforms(*run_cmd, *set, stop_on_failure, r),
{
    let mut results: Vec<CommandResult> = Vec::new();
    let n = set.commands.len();
    let mut i: usize = 0;
    while i < n
        invariant_except_break
            0 <= i <= n,
            n == set.commands@.len(),
            results@.len() == i,
            runs_any_command(*run_cmd),
            forall|j: int|
                0 <= j < i ==> call_ensures(
                    *run_cmd,
                    (&set.commands@[j],),
                    #[trigger] results@[j],
                ),
            stop_on_failure ==> forall|j: int|
                0 <= j < i ==> (#[trigger] results@[j])@.success(),
        ensures
            results@.len() <= n,
            forall|j: int|
                0 <= j < results@.len() ==> call_ensures(
                    *run_cmd,
                    (&set.commands@[j],),
                    #[trigger] results@[j],
                ),
            stop_on_failure ==> forall|j: int|
                0 <= j < results@.len() - 1 ==> (#[trigger] results@[j])@.success(),
            stop_on_failure && results@.len() < n ==> results@.len() >= 1 && !results@[results@.len() - 1]@.success(),
            !stop_on_failure ==> results@.len() == n,
        decreases n - i,
    {
        let res = run_cmd(&set.commands[i]);
        let ok = res.success();
        results.push(res);
        i += 1;
        if !ok && stop_on_failure {
            break;
        }
    }
    CommandSetResult { set: set.clone(), results }
}

/// What a family run guarantees: every Test set of the family is run, in
/// order, each with stop-on-failure within the set, and the outcome of one
/// set never keeps a later set from running.
pub open spec fn family_run_conforms<F: Fn(&ExecutableCommand) -> CommandResult>(
    run_cmd: F,
    family: CommandFamily,
    r: CommandFamilyResult,
) -> bool {
    &&& r@.family == family@
    &&& r.sets@.len() == family.sets@.len()
    &&& forall|i: int|
        0 <= i < r.sets@.len() ==> set_run_conforms(
            run_cmd,
            family.sets@[i],
            true,
            #[trigger] r.sets@[i],
        )
}

/// Run every Test set of the family, in order. Each set stops at its own
/// first failure, but a set's failure never skips a sibling set.
pub fn run_commandfamily<F: Fn(&ExecutableCommand) -> CommandResult>(
    run_cmd: &F,
    family: &CommandFamily,
) -> (r: CommandFamilyResult)
    requires
        runs_any_command(*run_cmd),
    ensures
        family_run_conforms(*run_cmd, *family, r),
{
    let mut results: Vec<CommandSetResult> = Vec::new();
    let n = family.sets.len();
    let mut i: usize = 0;
    while i < n
        invariant
            0 <= i <= n,
            n == family.sets@.len(),
            results@.len() == i,
            runs_any_command(*run_cmd),
            forall|j: int|
                0 <= j < i ==> set_run_conforms(
                    *run_cmd,
                    family.sets@[j],
                    true,
                    #[trigger] results@[j],
                ),
        decreases n - i,
    {
        let res = run_commandset(true, run_cmd, &family.sets[i]);
        results.push(res);
        i += 1;
    }
    CommandFamilyResult { family: family.clone(), sets: results }
}

/// What a module run guarantees: Setup is run with stop-on-failure; when it
/// succeeds, the Test family and then Teardown (without stop-on-failure)
/// are run and recorded; when it fails, neither is run and both are absent.
pub open spec fn module_run_conforms<F: Fn(&ExecutableCommand) -> CommandResult>(
    run_cmd: F,
    module: ProcessingModule,
    r: ProcessingModuleResult,
) -> bool {
    &&& r@.module == module@
    &&& set_run_conforms(run_cmd, module.setup, true, r.setup)
    &&& r@.setup.success() ==> {
        &&& r.tests matches Some(t) && family_run_conforms(run_cmd, module.tests, t)
        &&& r.teardown matches Some(td) && set_run_conforms(run_cmd, module.teardown, false, td)
    }
    &&& !r@.setup.success() ==> r.tests is None && r.teardown is None
}

/// Run one module: Setup first, with stop-on-failure. Only when Setup
/// succeeded are the Test family and then Teardown run; Teardown attempts
/// every one of its commands even after an earlier teardown failure. When
/// Setup failed, `tests` and `teardown` are absent and the module result is
/// unconditionally unsuccessful.
pub fn run_processingmodule<F: Fn(&ExecutableCommand) -> CommandResult>(
    run_cmd: &F,
    module: &ProcessingModule,
) -> (r: ProcessingModuleResult)
    requires
        runs_any_command(*run_cmd),
    ensures
        module_run_conforms(*run_cmd, *module, r),
        !r@.setup.success() ==> r@.tests is None && r@.teardown is None && !r@.success(),
{
    let setup = run_commandset(true, run_cmd, &module.setup);
    if setup.success() {
        let tests = run_commandfamily(run_cmd, &module.tests);
        let teardown = run_commandset(false, run_cmd, &module.teardown);
        ProcessingModuleResult {
            module: module.clone(),
            setup,
            tests: Some(tests),
            teardown: Some(teardown),
        }
    } else {
        ProcessingModuleResult { module: module.clone(), setup, tests: None, teardown: None }
    }
}

/// Run one module with the real command executor.
pub fn run(module: &ProcessingModule) -> (r: ProcessingModuleResult)
    ensures
        module_run_conforms(run_command, *module, r),
        !r@.setup.success() ==> r@.tests is None && r@.teardown is None && !r@.success(),
{
    run_processingmodule(&run_command, module)
}

// ---------------------------------------------------------------------------
// Laws of the sequencing policies
// ---------------------------------------------------------------------------

/// A stop-on-failure set stops at the first failure: in a run of a
/// non-empty command list whose first result is a failure, that failure is
/// the only result.
pub proof fn lemma_stop_on_failure_stops_at_first_failure<
    F: Fn(&ExecutableCommand) -> CommandResult,
>(run_cmd: F, set: CommandSet, r: CommandSetResult)
    requires
        set_run_conforms(run_cmd, set, true, r),
        set.commands@.len() >= 1,
        r.results@.len() >= 1 ==> !r.results@[0]@.success(),
    ensures
        r.results@.len() == 1,
        !r.results@[0]@.success(),
{
    if r.results@.len() == 0 {
        assert(r.results@.len() < set.commands@.len());
    }
    if r.results@.len() >= 2 {
        assert(r.results@[0]@.success());
    }
}

/// A set without stop-on-failure runs every command: however many commands
/// failed, the result list is exactly as long as the command list.
pub proof fn lemma_no_stop_runs_all<F: Fn(&ExecutableCommand) -> CommandResult>(
    run_cmd: F,
    set: CommandSet,
    r: CommandSetResult,
)
    requires
        set_run_conforms(run_cmd, set, false, r),
    ensures
        r.results@.len() == set.commands@.len(),
{
}

/// Sibling Test sets are independent: in a family of two sets whose first
/// run failed and whose second run succeeded, the family result is
/// unsuccessful while the second set's own success stands.
pub proof fn lemma_sibling_sets_independent<F: Fn(&ExecutableCommand) -> CommandResult>(
    run_cmd: F,
    family: CommandFamily,
    r: CommandFamilyResult,
)
    requires
        family_run_conforms(run_cmd, family, r),
        family.sets@.len() == 2,
        !r.sets@[0]@.success(),
        r.sets@[1]@.success(),
    ensures
        !r@.success(),
        r@.sets[1].success(),
{
    assert(r@.sets[0] == r.sets@[0]@);
    assert(r@.sets[1] == r.sets@[1]@);
    assert(!r@.sets[0].success());
}

/// A failed Setup fails the module without running anything further: the
/// result has no `tests` and no `teardown`, and its `success` is false.
pub proof fn lemma_setup_failure_fails_module<F: Fn(&ExecutableCommand) -> CommandResult>(
    run_cmd: F,
    module: ProcessingModule,
    r: ProcessingModuleResult,
)
    requires
        module_run_conforms(run_cmd, module, r),
        !r@.setup.success(),
    ensures
        r@.tests is None,
        r@.teardown is None,
        !r@.success(),
{
}

} // verus!
