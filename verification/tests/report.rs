use coursetrack::evaluate::{AssignmentStatus, HistoryLookup};
use coursetrack::mirror::MirrorState;
use coursetrack::model::{Assignment, Submission};
use coursetrack::report::{build, report, SyncResult};

const DEADLINE: i64 = 1_700_000_000;

fn assignment(name: &str, filepath: &str, deadline: i64) -> Assignment {
    Assignment {
        name: name.to_string(),
        filepath: filepath.to_string(),
        deadline,
        grader: "grader".to_string(),
    }
}

fn submission(id: i64) -> Submission {
    Submission {
        email: format!("participant{id}@example.net"),
        id,
        name: format!("participant {id}"),
        section: "a".to_string(),
        link: format!("https://repos.example.net/{id}"),
    }
}

#[test]
fn unavailable_mirror_builds_no_report() {
    let assignments = vec![assignment("hw1", "hw1.py", DEADLINE)];
    let lookups = vec![HistoryLookup::Commit(DEADLINE - 1)];
    let r = build(MirrorState::Unavailable, 7, &assignments, &lookups);
    assert!(r.is_none());
}

#[test]
fn present_mirror_builds_one_entry_per_deliverable_in_order() {
    let assignments = vec![
        assignment("hw1", "hw1.py", DEADLINE),
        assignment("hw2", "hw2.py", DEADLINE + 100),
        assignment("hw3", "hw3.py", DEADLINE + 200),
    ];
    let lookups = vec![
        HistoryLookup::Commit(DEADLINE - 1),
        HistoryLookup::NoCommit,
        HistoryLookup::Commit(DEADLINE + 500),
    ];
    let r = build(MirrorState::Present, 7, &assignments, &lookups).unwrap();
    assert_eq!(r.id, 7);
    assert_eq!(r.assignments.len(), 3);
    assert_eq!(r.assignments[0].name, "hw1");
    assert_eq!(r.assignments[0].status, AssignmentStatus::Submitted);
    assert_eq!(r.assignments[1].name, "hw2");
    assert_eq!(r.assignments[1].status, AssignmentStatus::NotSubmitted);
    assert_eq!(r.assignments[2].name, "hw3");
    assert_eq!(r.assignments[2].status, AssignmentStatus::Late);
    assert!(r.assignments.iter().all(|e| e.content.is_none()));
}

#[test]
fn snapshot_omits_unavailable_participants_and_keeps_roster_order() {
    let assignments = vec![assignment("hw1", "hw1.py", DEADLINE)];
    let submissions = vec![submission(1), submission(2), submission(3)];
    let synced = vec![
        SyncResult {
            state: MirrorState::Present,
            lookups: vec![HistoryLookup::Commit(DEADLINE)],
        },
        SyncResult {
            state: MirrorState::Unavailable,
            lookups: vec![HistoryLookup::Failed],
        },
        SyncResult {
            state: MirrorState::Present,
            lookups: vec![HistoryLookup::NoCommit],
        },
    ];
    let snapshot = report(&assignments, &submissions, &synced);
    assert_eq!(snapshot.len(), 2);
    assert_eq!(snapshot[0].id, 1);
    assert_eq!(snapshot[1].id, 3);
    assert_eq!(snapshot[0].assignments[0].status, AssignmentStatus::Submitted);
    assert_eq!(snapshot[1].assignments[0].status, AssignmentStatus::NotSubmitted);
}

#[test]
fn snapshot_ids_are_unique_and_belong_to_the_roster() {
    let assignments = vec![
        assignment("hw1", "hw1.py", DEADLINE),
        assignment("hw2", "hw2.py", DEADLINE),
    ];
    let submissions = vec![submission(10), submission(20), submission(30)];
    let synced: Vec<SyncResult> = (0..3)
        .map(|_| SyncResult {
            state: MirrorState::Present,
            lookups: vec![HistoryLookup::NoCommit, HistoryLookup::NoCommit],
        })
        .collect();
    let snapshot = report(&assignments, &submissions, &synced);
    let roster_ids: Vec<i64> = submissions.iter().map(|s| s.id).collect();
    for (i, r) in snapshot.iter().enumerate() {
        assert!(roster_ids.contains(&r.id));
        for other in snapshot.iter().skip(i + 1) {
            assert_ne!(r.id, other.id);
        }
    }
}

#[test]
fn every_report_matches_the_configured_deliverable_sequence() {
    let assignments = vec![
        assignment("hw1", "hw1.py", DEADLINE),
        assignment("hw2", "hw2.py", DEADLINE),
    ];
    let submissions = vec![submission(1), submission(2)];
    let synced: Vec<SyncResult> = (0..2)
        .map(|_| SyncResult {
            state: MirrorState::Present,
            lookups: vec![HistoryLookup::NoCommit, HistoryLookup::Commit(DEADLINE)],
        })
        .collect();
    let snapshot = report(&assignments, &submissions, &synced);
    for r in &snapshot {
        assert_eq!(r.assignments.len(), assignments.len());
        for (entry, a) in r.assignments.iter().zip(assignments.iter()) {
            assert_eq!(entry.name, a.name);
        }
    }
}

#[test]
fn empty_roster_gives_an_empty_snapshot() {
    let assignments = vec![assignment("hw1", "hw1.py", DEADLINE)];
    let snapshot = report(&assignments, &Vec::new(), &Vec::new());
    assert!(snapshot.is_empty());
}
