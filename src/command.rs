use vstd::prelude::*;
use vstd::string::*;
use crate::text::{chars_of, contains, contains_str, trim, trimmed};

verus! {

/// A version-control command that could not be started, or that exited with
/// a status its caller does not accept.
#[derive(Debug)]
pub struct ExecutionError {
    /// The command line, for the report.
    pub command: String,
    /// The exit code; `None` when the process could not be started or was
    /// ended by a signal.
    pub exit_code: Option<i32>,
}

impl ExecutionError {
    pub fn new(command: String, exit_code: Option<i32>) -> (r: Self)
        ensures
            r.command@ == command@,
            r.exit_code == exit_code,
    {
        ExecutionError { command, exit_code }
    }
}

/// A command succeeds exactly when it exits with code zero.
pub fn check_exit(command: String, exit_code: Option<i32>) -> (r: Result<(), ExecutionError>)
    ensures
        r is Ok <==> exit_code == Some(0i32),
        r matches Err(e) ==> e.command@ == command@ && e.exit_code == exit_code,
{
    match exit_code {
        Some(0i32) => Ok(()),
        _ => Err(ExecutionError::new(command, exit_code)),
    }
}

/// Reads the exit code of a remote listing run with `--exit-code`: zero means
/// the branch exists, two means it does not, anything else is a failure.
pub fn remote_branch_presence(command: String, exit_code: Option<i32>) -> (r: Result<
    bool,
    ExecutionError,
>)
    ensures
        exit_code == Some(0i32) <==> r == Ok::<bool, ExecutionError>(true),
        exit_code == Some(2i32) <==> r == Ok::<bool, ExecutionError>(false),
        r is Err <==> exit_code != Some(0i32) && exit_code != Some(2i32),
        r matches Err(e) ==> e.command@ == command@ && e.exit_code == exit_code,
{
    match exit_code {
        Some(0i32) => Ok(true),
        Some(2i32) => Ok(false),
        _ => Err(ExecutionError::new(command, exit_code)),
    }
}

/// How a failed merge-base lookup is read.
#[derive(Debug)]
pub enum MergeBaseFailure {
    /// The two histories share no commit (or a ref does not name one).
    UnrelatedHistories,
    /// Any other failure, with the trimmed error text.
    Fatal(String),
}

/// The error text names one of the known "no common history" conditions.
pub open spec fn mentions_unrelated(err: Seq<char>) -> bool {
    ||| contains(err, "no merge base"@)
    ||| contains(err, "unrelated histories"@)
    ||| contains(err, "Not a valid object name"@)
    ||| contains(err, "Not a valid commit name"@)
    ||| contains(err, "not a valid commit"@)
}

/// A failed lookup counts as unrelated histories when its error text names a
/// known condition, or when it printed nothing at all.
pub open spec fn is_unrelated_failure(stderr: Seq<char>, stdout: Seq<char>) -> bool {
    mentions_unrelated(stderr) || (trimmed(stderr).len() == 0 && trimmed(stdout).len() == 0)
}

/// Classifies the output of a failed merge-base lookup.
pub fn classify_merge_base_failure(stderr: &str, stdout: &str) -> (r: MergeBaseFailure)
    ensures
        r is UnrelatedHistories <==> is_unrelated_failure(stderr@, stdout@),
        r matches MergeBaseFailure::Fatal(text) ==> text@ == trimmed(stderr@),
{
    let err = chars_of(stderr);
    let known = contains_str(&err, "no merge base") || contains_str(&err, "unrelated histories")
        || contains_str(&err, "Not a valid object name") || contains_str(
        &err,
        "Not a valid commit name",
    ) || contains_str(&err, "not a valid commit");
    if known {
        return MergeBaseFailure::UnrelatedHistories;
    }
    let err_text = trim(stderr);
    let out_text = trim(stdout);
    let err_empty = chars_of(err_text.as_str()).len() == 0;
    let out_empty = chars_of(out_text.as_str()).len() == 0;
    if err_empty && out_empty {
        MergeBaseFailure::UnrelatedHistories
    } else {
        MergeBaseFailure::Fatal(err_text)
    }
}

/// A merge-base lookup between `left` and `right` that failed for a reason
/// other than unrelated histories.
#[derive(Debug, PartialEq, Eq)]
pub struct MergeBaseError {
    pub left: String,
    pub right: String,
    /// The trimmed error text.
    pub stderr: String,
}

/// The result of a merge-base lookup between `left` and `right`: the trimmed
/// commit id on success, `None` for unrelated histories, and otherwise an
/// error naming both refs with the trimmed error text.
pub fn merge_base_outcome(
    succeeded: bool,
    stdout: &str,
    stderr: &str,
    left: &str,
    right: &str,
) -> (r: Result<Option<String>, MergeBaseError>)
    ensures
        succeeded ==> (r matches Ok(Some(id)) && id@ == trimmed(stdout@)),
        !succeeded ==> (r matches Ok(None) <==> is_unrelated_failure(stderr@, stdout@)),
        !succeeded ==> (r is Ok ==> r matches Ok(None)),
        r matches Err(e) ==> !succeeded && e.left@ == left@ && e.right@ == right@ && e.stderr@
            == trimmed(stderr@),
{
    if succeeded {
        return Ok(Some(trim(stdout)));
    }
    match classify_merge_base_failure(stderr, stdout) {
        MergeBaseFailure::UnrelatedHistories => Ok(None),
        MergeBaseFailure::Fatal(text) => Err(
            MergeBaseError {
                left: String::from_str(left),
                right: String::from_str(right),
                stderr: text,
            },
        ),
    }
}

} // verus!
