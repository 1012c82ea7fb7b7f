//! Classification of git subprocess outcomes, and the fixed argument lists
//! the operations use.
//!
//! The caller spawns `git` itself (one invocation per operation, with the
//! repository path as working directory) and hands back whether the process
//! exited with code zero together with its captured output text; the
//! functions here turn that into the operation's success payload or error,
//! including the one deliberate special case: a failed commit whose stderr
//! reports "nothing to commit" counts as success.

use vstd::prelude::*;
use vstd::string::*;

use crate::text::{contains_str, has_substring};

verus! {

/// Arguments of the status operation: a porcelain-format working-tree
/// status.
pub fn git_status_args() -> (r: Vec<String>)
    ensures
        r@.len() == 2,
        r@[0]@ == "status"@,
        r@[1]@ == "--porcelain"@,
{
    let mut args: Vec<String> = Vec::new();
    args.push(String::from_str("status"));
    args.push(String::from_str("--porcelain"));
    args
}

/// Arguments of the stage-all operation.
pub fn git_add_all_args() -> (r: Vec<String>)
    ensures
        r@.len() == 2,
        r@[0]@ == "add"@,
        r@[1]@ == "."@,
{
    let mut args: Vec<String> = Vec::new();
    args.push(String::from_str("add"));
    args.push(String::from_str("."));
    args
}

/// Arguments of the commit operation, with the caller's message.
pub fn git_commit_args(message: &str) -> (r: Vec<String>)
    ensures
        r@.len() == 3,
        r@[0]@ == "commit"@,
        r@[1]@ == "-m"@,
        r@[2]@ == message@,
{
    let mut args: Vec<String> = Vec::new();
    args.push(String::from_str("commit"));
    args.push(String::from_str("-m"));
    args.push(String::from_str(message));
    args
}

/// Arguments of the push operation.
pub fn git_push_args() -> (r: Vec<String>)
    ensures
        r@.len() == 1,
        r@[0]@ == "push"@,
{
    let mut args: Vec<String> = Vec::new();
    args.push(String::from_str("push"));
    args
}

/// Arguments of the pull operation.
pub fn git_pull_args() -> (r: Vec<String>)
    ensures
        r@.len() == 1,
        r@[0]@ == "pull"@,
{
    let mut args: Vec<String> = Vec::new();
    args.push(String::from_str("pull"));
    args
}

/// The error reported when the git executable cannot be started at all,
/// distinguishing infrastructure failure from a git-level rejection.
pub fn spawn_failure_message(detail: &str) -> (r: String)
    ensures
        r@ == "Failed to run git: "@ + detail@,
{
    let mut s = String::from_str("Failed to run git: ");
    s.append(detail);
    s
}

/// Outcome of `git status --porcelain`: on exit code zero the captured
/// stdout, otherwise the captured stderr as the error.
pub fn git_status_outcome(exit_ok: bool, stdout: String, stderr: String) -> (r: Result<
    String,
    String,
>)
    ensures
        exit_ok ==> (r matches Ok(s) && s@ == stdout@),
        !exit_ok ==> (r matches Err(e) && e@ == stderr@),
{
    if exit_ok {
        Ok(stdout)
    } else {
        Err(stderr)
    }
}

/// Outcome of `git add .`: on exit code zero the fixed confirmation
/// `"Files staged"`, otherwise the captured stderr as the error.
pub fn git_add_all_outcome(exit_ok: bool, stderr: String) -> (r: Result<String, String>)
    ensures
        exit_ok ==> (r matches Ok(s) && s@ == "Files staged"@),
        !exit_ok ==> (r matches Err(e) && e@ == stderr@),
{
    if exit_ok {
        Ok(String::from_str("Files staged"))
    } else {
        Err(stderr)
    }
}

/// Outcome of `git commit -m <message>`: on exit code zero the captured
/// stdout; on failure, stderr as the error — except that a stderr containing
/// "nothing to commit" is remapped to success with the fixed message
/// `"Nothing to commit"`, a no-op rather than a genuine failure.
pub fn git_commit_outcome(exit_ok: bool, stdout: String, stderr: String) -> (r: Result<
    String,
    String,
>)
    ensures
        exit_ok ==> (r matches Ok(s) && s@ == stdout@),
        !exit_ok && has_substring(stderr@, "nothing to commit"@) ==> (r matches Ok(s) && s@
            == "Nothing to commit"@),
        !exit_ok && !has_substring(stderr@, "nothing to commit"@) ==> (r matches Err(e) && e@
            == stderr@),
{
    if exit_ok {
        Ok(stdout)
    } else if contains_str(stderr.as_str(), "nothing to commit") {
        Ok(String::from_str("Nothing to commit"))
    } else {
        Err(stderr)
    }
}

/// Outcome of `git push`: on exit code zero the fixed confirmation
/// `"Pushed successfully"`, otherwise the captured stderr as the error.
pub fn git_push_outcome(exit_ok: bool, stderr: String) -> (r: Result<String, String>)
    ensures
        exit_ok ==> (r matches Ok(s) && s@ == "Pushed successfully"@),
        !exit_ok ==> (r matches Err(e) && e@ == stderr@),
{
    if exit_ok {
        Ok(String::from_str("Pushed successfully"))
    } else {
        Err(stderr)
    }
}

/// Outcome of `git pull`: on exit code zero the captured stdout, otherwise
/// the captured stderr as the error.
pub fn git_pull_outcome(exit_ok: bool, stdout: String, stderr: String) -> (r: Result<
    String,
    String,
>)
    ensures
        exit_ok ==> (r matches Ok(s) && s@ == stdout@),
        !exit_ok ==> (r matches Err(e) && e@ == stderr@),
{
    if exit_ok {
        Ok(stdout)
    } else {
        Err(stderr)
    }
}

} // verus!
