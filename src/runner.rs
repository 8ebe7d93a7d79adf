use vstd::prelude::*;
use crate::catalog::{Step, StepSpec};
use crate::error::UpdateError;
use crate::text::{join, join_with, views};

verus! {

/// The command line of a program and its arguments: the program, a space,
/// then the arguments separated by spaces.
pub open spec fn command_line_spec(program: Seq<char>, args: Seq<Seq<char>>) -> Seq<char> {
    program + " "@ + join_with(args, " "@)
}

/// The command line that a step runs.
pub fn command_line(step: &Step) -> (r: String)
    ensures
        r@ == command_line_spec(step@.program, step@.args),
{
    let rest = join(&step.args, " ");
    let mut r = step.program.clone();
    r.append(" ");
    r.append(rest.as_str());
    r
}

/// How a step is to be carried out.
#[derive(Debug)]
pub enum Invocation {
    /// Nothing is spawned: the notice is shown once and the step succeeds
    /// with no output.
    Simulated { notice: String },
    /// The step's program is spawned; `command_line` describes it.
    Spawn { command_line: String },
}

/// The text announced for a step that a dry run only pretends to execute.
pub open spec fn dry_run_notice(step: StepSpec) -> Seq<char> {
    "[DRY RUN] "@ + command_line_spec(step.program, step.args)
}

/// Decides how to carry out a step: in a dry run nothing is spawned.
pub fn invocation(step: &Step, dry_run: bool) -> (r: Invocation)
    ensures
        dry_run ==> (r matches Invocation::Simulated { notice } && notice@ == dry_run_notice(step@)),
        !dry_run ==> (r matches Invocation::Spawn { command_line } && command_line@
            == command_line_spec(step@.program, step@.args)),
{
    let line = command_line(step);
    if dry_run {
        Invocation::Simulated { notice: String::from_str("[DRY RUN] ").concat(line.as_str()) }
    } else {
        Invocation::Spawn { command_line: line }
    }
}

/// What a simulated step reports: success with nothing captured.
pub fn simulated_result() -> (r: Result<Vec<String>, UpdateError>)
    ensures
        r matches Ok(lines) && lines@.len() == 0,
{
    Ok(Vec::new())
}

/// The result of a finished process, from its exit code (`None` when it
/// was ended by a signal) and the lines it printed on standard output.
pub open spec fn exit_result_spec(
    command_line: Seq<char>,
    exit_code: Option<i32>,
    stdout: Seq<Seq<char>>,
    r: Result<Vec<String>, UpdateError>,
) -> bool {
    if exit_code == Some(0i32) {
        r matches Ok(lines) && views(lines@) == stdout
    } else {
        r matches Err(UpdateError::CommandFailed { cmd, code, details }) && cmd@ == command_line
            && code == (match exit_code {
            Some(c) => c,
            None => -1i32,
        }) && details@ == join_with(stdout, "\n"@)
    }
}

/// Turns the exit of a spawned step into its result: success with the
/// captured lines on exit code 0, otherwise a failure that carries the
/// command line, the code (-1 when there is none) and the captured lines
/// joined by newlines.
pub fn exit_result(command_line: String, exit_code: Option<i32>, stdout: Vec<String>) -> (r: Result<
    Vec<String>,
    UpdateError,
>)
    ensures
        exit_result_spec(command_line@, exit_code, views(stdout@), r),
{
    match exit_code {
        Some(0) => Ok(stdout),
        _ => {
            let code = match exit_code {
                Some(c) => c,
                None => -1,
            };
            let details = join(&stdout, "\n");
            Err(UpdateError::CommandFailed { cmd: command_line, code, details })
        },
    }
}

/// The error for a program that could not be started: `CommandNotFound`
/// with the program's name when the system reported it missing, otherwise
/// a generic I/O error with the system's description.
pub fn spawn_failure(program: &str, not_found: bool, description: String) -> (r: UpdateError)
    ensures
        not_found ==> (r matches UpdateError::CommandNotFound(name) && name@ == program@),
        !not_found ==> (r matches UpdateError::Io(m) && m@ == description@),
{
    if not_found {
        UpdateError::CommandNotFound(String::from_str(program))
    } else {
        UpdateError::Io(description)
    }
}

/// What a step's result means for its operation.
#[derive(Debug)]
pub enum StepVerdict {
    /// Go on with the next step.
    Proceed,
    /// The tool reported that there was nothing to do: the operation is
    /// complete without an update.
    NothingToDo,
    /// The operation fails with this error.
    Fail(UpdateError),
}

/// The verdict on a step's result: an ignored step always proceeds; a
/// failure with the step's "nothing to do" code completes the operation;
/// any other failure fails it.
pub open spec fn verdict_spec(step: StepSpec, result: Result<Vec<String>, UpdateError>) -> StepVerdict {
    if step.failure_ignored {
        StepVerdict::Proceed
    } else {
        match result {
            Ok(_) => StepVerdict::Proceed,
            Err(e) => if e matches UpdateError::CommandFailed { code, .. } && step.nothing_to_do
                == Some(code) {
                StepVerdict::NothingToDo
            } else {
                StepVerdict::Fail(e)
            },
        }
    }
}

/// Judges a step's result.
pub fn step_verdict(step: &Step, result: Result<Vec<String>, UpdateError>) -> (r: StepVerdict)
    ensures
        r == verdict_spec(step@, result),
{
    if step.failure_ignored {
        return StepVerdict::Proceed;
    }
    match result {
        Ok(_) => StepVerdict::Proceed,
        Err(e) => {
            let quiet = match (&e, step.nothing_to_do) {
                (UpdateError::CommandFailed { code, .. }, Some(n)) => *code == n,
                _ => false,
            };
            if quiet {
                StepVerdict::NothingToDo
            } else {
                StepVerdict::Fail(e)
            }
        },
    }
}

} // verus!
