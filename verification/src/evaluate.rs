//! Deadline classification of one deliverable.
//!
//! The history of a synced mirror is queried for the most recent commit
//! touching the deliverable's path; that query's outcome, reduced to a
//! plain value, is classified here against the deliverable's deadline.

use vstd::prelude::*;

verus! {

/// The submission status of one deliverable.
#[derive(Clone, Copy, Debug, PartialEq, Eq, Structural)]
pub enum AssignmentStatus {
    NotSubmitted,
    Submitted,
    Late,
}

/// The outcome of querying a mirror's history for the most recent commit
/// that touches a deliverable's path: the commit's timestamp (seconds of
/// the Unix epoch), or the fact that no commit touches the path, or the
/// fact that the query itself failed.
#[derive(Clone, Copy, Debug, PartialEq, Eq, Structural)]
pub enum HistoryLookup {
    Commit(i64),
    NoCommit,
    Failed,
}

/// Classification of a submission timestamp against a deadline, both in
/// seconds of the Unix epoch. Zero is the sentinel for "never submitted"
/// and wins over every deadline; a timestamp strictly greater than the
/// deadline is late; one exactly equal to the deadline is on time.
pub open spec fn spec_classify(timestamp: i64, deadline: i64) -> AssignmentStatus {
    if timestamp == 0 {
        AssignmentStatus::NotSubmitted
    } else if timestamp > deadline {
        AssignmentStatus::Late
    } else {
        AssignmentStatus::Submitted
    }
}

/// What a history-query outcome classifies to: a commit timestamp is
/// classified against the deadline; no commit means not submitted; a
/// failed query degrades to not submitted rather than aborting the cycle.
pub open spec fn spec_evaluate(lookup: HistoryLookup, deadline: i64) -> AssignmentStatus {
    match lookup {
        HistoryLookup::Commit(timestamp) => spec_classify(timestamp, deadline),
        HistoryLookup::NoCommit => AssignmentStatus::NotSubmitted,
        HistoryLookup::Failed => AssignmentStatus::NotSubmitted,
    }
}

/// Classifies a raw submission timestamp against a deadline.
pub fn classify(timestamp: i64, deadline: i64) -> (status: AssignmentStatus)
    ensures
        status == spec_classify(timestamp, deadline),
{
    if timestamp == 0 {
        AssignmentStatus::NotSubmitted
    } else if timestamp > deadline {
        AssignmentStatus::Late
    } else {
        AssignmentStatus::Submitted
    }
}

/// Classifies the outcome of one history query against a deadline.
pub fn evaluate(lookup: &HistoryLookup, deadline: i64) -> (status: AssignmentStatus)
    ensures
        status == spec_evaluate(*lookup, deadline),
{
    match lookup {
        HistoryLookup::Commit(timestamp) => classify(*timestamp, deadline),
        HistoryLookup::NoCommit => AssignmentStatus::NotSubmitted,
        HistoryLookup::Failed => AssignmentStatus::NotSubmitted,
    }
}

/// Evaluation is a function of the query outcome and the deadline alone:
/// for a fixed mirror state (hence a fixed query outcome) it always yields
/// the same status.
pub proof fn lemma_evaluate_deterministic(a: HistoryLookup, b: HistoryLookup, deadline: i64)
    requires
        a == b,
    ensures
        spec_evaluate(a, deadline) == spec_evaluate(b, deadline),
{
}

/// A commit timestamp exactly equal to the deadline is on time, never late.
pub proof fn lemma_on_time_at_deadline(deadline: i64)
    requires
        deadline != 0,
    ensures
        spec_evaluate(HistoryLookup::Commit(deadline), deadline) == AssignmentStatus::Submitted,
{
}

/// Zero commits touching the deliverable's path means not submitted,
/// whatever the deadline; a failed history query degrades the same way.
pub proof fn lemma_untouched_path_not_submitted(deadline: i64)
    ensures
        spec_evaluate(HistoryLookup::NoCommit, deadline) == AssignmentStatus::NotSubmitted,
        spec_evaluate(HistoryLookup::Failed, deadline) == AssignmentStatus::NotSubmitted,
{
}

} // verus!
