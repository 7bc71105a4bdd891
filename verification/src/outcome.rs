use crate::error::{result_view, AdbError, AdbErrorView};
use vstd::prelude::*;

verus! {

/// What `shell` comes to once the command has run: the exit status is not
/// looked at, and only a process that could not be run is a failure.
pub open spec fn shell_outcome_of(status: Result<i32, Seq<char>>) -> Result<(), AdbErrorView> {
    match status {
        Ok(_) => Ok(()),
        Err(m) => Err(AdbErrorView::Execution(m)),
    }
}

/// What `check_call`, `push` and `pull` come to once the command has run.
pub open spec fn call_outcome_of(done: Result<(), Seq<char>>) -> Result<(), AdbErrorView> {
    match done {
        Ok(_) => Ok(()),
        Err(m) => Err(AdbErrorView::Execution(m)),
    }
}

/// What `check_output` comes to once the command has run: the captured text
/// as it is.
pub open spec fn output_outcome_of(output: Result<Seq<char>, Seq<char>>) -> Result<
    Seq<char>,
    AdbErrorView,
> {
    match output {
        Ok(text) => Ok(text),
        Err(m) => Err(AdbErrorView::Execution(m)),
    }
}

/// The result of `shell`, from what the interactive execution yielded.
pub fn shell_outcome(status: Result<i32, String>) -> (r: Result<(), AdbError>)
    ensures
        result_view(r) == shell_outcome_of(result_view(status)),
{
    match status {
        Ok(_) => Ok(()),
        Err(m) => Err(AdbError::Execution(m)),
    }
}

/// The result of `check_call`, `push` or `pull`, from what the call
/// execution yielded.
pub fn call_outcome(done: Result<(), String>) -> (r: Result<(), AdbError>)
    ensures
        result_view(r) == call_outcome_of(result_view(done)),
{
    match done {
        Ok(_) => Ok(()),
        Err(m) => Err(AdbError::Execution(m)),
    }
}

/// The result of `check_output`, from what the captured execution yielded.
pub fn output_outcome(output: Result<String, String>) -> (r: Result<String, AdbError>)
    ensures
        result_view(r) == output_outcome_of(result_view(output)),
{
    match output {
        Ok(text) => Ok(text),
        Err(m) => Err(AdbError::Execution(m)),
    }
}

} // verus!
