//! Where a scan's result goes: the output file of a successful scan, and the
//! one terminal log record of every target.
use vstd::prelude::*;
use vstd::string::*;
use crate::outcome::ScanOutcome;

verus! {

/// The prefix of every output file's name.
pub const OUTPUT_PREFIX: &'static str = "test_ssl-";

/// The output file of `target` inside `dir`: `<dir>/test_ssl-<target>`.
pub open spec fn output_path_of(dir: Seq<char>, target: Seq<char>) -> Seq<char> {
    dir + seq!['/'] + OUTPUT_PREFIX@ + target
}

/// The file to write for one target: its path and the text to put in it.
pub struct WritePlan {
    pub path: String,
    pub contents: String,
}

/// The file that a target's outcome calls for: its path and contents on
/// success, nothing otherwise.
pub open spec fn planned_file(dir: Seq<char>, target: Seq<char>, outcome: ScanOutcome) -> Option<
    (Seq<char>, Seq<char>),
> {
    match outcome {
        ScanOutcome::Success(text) => Some((output_path_of(dir, target), text@)),
        _ => None,
    }
}

pub open spec fn plan_view(p: Option<WritePlan>) -> Option<(Seq<char>, Seq<char>)> {
    match p {
        Some(w) => Some((w.path@, w.contents@)),
        None => None,
    }
}

/// Why a target did not complete.
#[derive(Clone, Copy, Debug, PartialEq, Eq, Structural)]
pub enum FailureKind {
    ProcessFailure,
    TimedOut,
    LaunchError,
    WriteError,
    /// The task itself faulted before it reached an outcome.
    Aborted,
}

/// The terminal log record of one target.
#[derive(Clone, Debug)]
pub enum LogRecord {
    /// The scan succeeded and its output was written.
    Completed(String),
    /// The target, the kind of failure and its detail text.
    Failed(String, FailureKind, String),
}

/// The record owed for `target`, given its outcome and the error of writing its
/// output file, if any.
pub open spec fn record_is(
    r: LogRecord,
    target: Seq<char>,
    outcome: ScanOutcome,
    write_error: Option<Seq<char>>,
) -> bool {
    match outcome {
        ScanOutcome::Success(_) => match write_error {
            None => r matches LogRecord::Completed(t) && t@ == target,
            Some(e) => r matches LogRecord::Failed(t, k, d) && t@ == target && k
                == FailureKind::WriteError && d@ == e,
        },
        ScanOutcome::ProcessFailure(_, err) => r matches LogRecord::Failed(t, k, d) && t@ == target
            && k == FailureKind::ProcessFailure && d@ == err@,
        ScanOutcome::TimedOut => r matches LogRecord::Failed(t, k, d) && t@ == target && k
            == FailureKind::TimedOut && d@.len() == 0,
        ScanOutcome::LaunchError(reason) => r matches LogRecord::Failed(t, k, d) && t@ == target
            && k == FailureKind::LaunchError && d@ == reason@,
    }
}

pub open spec fn opt_view(o: Option<String>) -> Option<Seq<char>> {
    match o {
        Some(s) => Some(s@),
        None => None,
    }
}

/// The path of the output file of `target` inside `dir`.
pub fn output_path(dir: &str, target: &str) -> (r: String)
    ensures
        r@ == output_path_of(dir@, target@),
{
    proof {
        reveal_strlit("/");
    }
    let mut p = String::from_str(dir);
    p.append("/");
    p.append(OUTPUT_PREFIX);
    p.append(target);
    p
}

/// The output file for a target: on success its path and the captured text,
/// which replaces whatever the file held; on any other outcome no file.
pub fn write_plan(dir: &str, target: &str, outcome: &ScanOutcome) -> (r: Option<WritePlan>)
    ensures
        plan_view(r) == planned_file(dir@, target@, *outcome),
{
    match outcome {
        ScanOutcome::Success(text) => Some(
            WritePlan { path: output_path(dir, target), contents: text.clone() },
        ),
        _ => None,
    }
}

/// The terminal log record of a target, from its outcome and, on success,
/// the error of writing its output file, if any.
pub fn report(target: &str, outcome: &ScanOutcome, write_error: Option<String>) -> (r: LogRecord)
    ensures
        record_is(r, target@, *outcome, opt_view(write_error)),
{
    let t = String::from_str(target);
    match outcome {
        ScanOutcome::Success(_) => match write_error {
            None => LogRecord::Completed(t),
            Some(e) => LogRecord::Failed(t, FailureKind::WriteError, e),
        },
        ScanOutcome::ProcessFailure(_, err) => LogRecord::Failed(
            t,
            FailureKind::ProcessFailure,
            err.clone(),
        ),
        ScanOutcome::TimedOut => LogRecord::Failed(t, FailureKind::TimedOut, String::new()),
        ScanOutcome::LaunchError(reason) => LogRecord::Failed(
            t,
            FailureKind::LaunchError,
            reason.clone(),
        ),
    }
}

/// The record of a target whose task faulted before it reached an outcome.
pub fn aborted(target: &str) -> (r: LogRecord)
    ensures
        r matches LogRecord::Failed(t, k, d) && t@ == target@ && k == FailureKind::Aborted
            && d@.len() == 0,
{
    LogRecord::Failed(String::from_str(target), FailureKind::Aborted, String::new())
}

/// Distinct targets get distinct output files in the same directory, so the
/// files written are in one-to-one correspondence with the successful targets.
pub proof fn lemma_paths_distinct(dir: Seq<char>, t1: Seq<char>, t2: Seq<char>)
    requires
        t1 != t2,
    ensures
        output_path_of(dir, t1) != output_path_of(dir, t2),
{
    let k = (dir + seq!['/'] + OUTPUT_PREFIX@).len() as int;
    if output_path_of(dir, t1) == output_path_of(dir, t2) {
        let p = output_path_of(dir, t1);
        assert(t1 =~= p.subrange(k, p.len() as int));
        assert(t2 =~= output_path_of(dir, t2).subrange(k, p.len() as int));
    }
}

/// A file is planned exactly for a successful outcome, and it holds exactly
/// the captured text: scanning a target again with the same result plans the
/// same file with the same contents, replacing rather than extending it.
pub proof fn lemma_rerun_same_file(
    dir: Seq<char>,
    target: Seq<char>,
    first: ScanOutcome,
    second: ScanOutcome,
)
    requires
        first matches ScanOutcome::Success(a),
        second matches ScanOutcome::Success(b),
        first->Success_0@ == second->Success_0@,
    ensures
        planned_file(dir, target, first) == planned_file(dir, target, second),
        planned_file(dir, target, second) == Some((output_path_of(dir, target), second->Success_0@)),
{
}

} // verus!
