use coursetrack::evaluate::{classify, evaluate, AssignmentStatus, HistoryLookup};

const DEADLINE: i64 = 1_700_000_000;

#[test]
fn on_time_before_deadline() {
    assert_eq!(classify(DEADLINE - 1, DEADLINE), AssignmentStatus::Submitted);
}

#[test]
fn on_time_exactly_at_deadline() {
    // A timestamp exactly equal to the deadline counts as on-time.
    assert_eq!(classify(DEADLINE, DEADLINE), AssignmentStatus::Submitted);
}

#[test]
fn late_after_deadline() {
    assert_eq!(classify(DEADLINE + 1, DEADLINE), AssignmentStatus::Late);
}

#[test]
fn zero_timestamp_is_not_submitted_regardless_of_deadline() {
    assert_eq!(classify(0, DEADLINE), AssignmentStatus::NotSubmitted);
    assert_eq!(classify(0, 0), AssignmentStatus::NotSubmitted);
    assert_eq!(classify(0, -5), AssignmentStatus::NotSubmitted);
}

#[test]
fn no_commit_is_not_submitted() {
    assert_eq!(
        evaluate(&HistoryLookup::NoCommit, DEADLINE),
        AssignmentStatus::NotSubmitted
    );
}

#[test]
fn failed_lookup_degrades_to_not_submitted() {
    assert_eq!(
        evaluate(&HistoryLookup::Failed, DEADLINE),
        AssignmentStatus::NotSubmitted
    );
}

#[test]
fn commit_lookup_classifies_against_deadline() {
    assert_eq!(
        evaluate(&HistoryLookup::Commit(DEADLINE - 10), DEADLINE),
        AssignmentStatus::Submitted
    );
    assert_eq!(
        evaluate(&HistoryLookup::Commit(DEADLINE + 10), DEADLINE),
        AssignmentStatus::Late
    );
}

#[test]
fn evaluation_is_deterministic_for_a_fixed_lookup() {
    let lookup = HistoryLookup::Commit(DEADLINE - 3);
    let first = evaluate(&lookup, DEADLINE);
    let second = evaluate(&lookup, DEADLINE);
    assert_eq!(first, second);
}

#[test]
fn rewritten_history_flips_submitted_to_late() {
    // A commit to the deliverable at deadline - 1 is on time; after the
    // history is rewritten to a commit at deadline + 10, the next cycle
    // reports it late.
    let before_rewrite = evaluate(&HistoryLookup::Commit(DEADLINE - 1), DEADLINE);
    assert_eq!(before_rewrite, AssignmentStatus::Submitted);
    let after_rewrite = evaluate(&HistoryLookup::Commit(DEADLINE + 10), DEADLINE);
    assert_eq!(after_rewrite, AssignmentStatus::Late);
}
