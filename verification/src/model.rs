//! The immutable configuration data: the deliverable set and the roster.
//!
//! Both are loaded once at startup by the surrounding program and are
//! read-only for the process lifetime. Deadlines are plain instants in
//! seconds of the Unix epoch; the ordered deliverable sequence defines
//! the column order of every report.

use vstd::prelude::*;

verus! {

/// One tracked deliverable: a gradable file submission tied to a deadline.
#[derive(Clone, Debug)]
pub struct Assignment {
    pub name: String,
    pub filepath: String,
    /// Deadline as seconds of the Unix epoch (UTC).
    pub deadline: i64,
    pub grader: String,
}

/// The mathematical value of an [`Assignment`].
pub struct AssignmentView {
    pub name: Seq<char>,
    pub filepath: Seq<char>,
    pub deadline: i64,
    pub grader: Seq<char>,
}

impl View for Assignment {
    type V = AssignmentView;

    open spec fn view(&self) -> AssignmentView {
        AssignmentView {
            name: self.name@,
            filepath: self.filepath@,
            deadline: self.deadline,
            grader: self.grader@,
        }
    }
}

/// One participant of the roster, with the remote repository to mirror.
#[derive(Clone, Debug)]
pub struct Submission {
    pub email: String,
    pub id: i64,
    pub name: String,
    pub section: String,
    pub link: String,
}

/// The mathematical value of a [`Submission`].
pub struct SubmissionView {
    pub email: Seq<char>,
    pub id: i64,
    pub name: Seq<char>,
    pub section: Seq<char>,
    pub link: Seq<char>,
}

impl View for Submission {
    type V = SubmissionView;

    open spec fn view(&self) -> SubmissionView {
        SubmissionView {
            email: self.email@,
            id: self.id,
            name: self.name@,
            section: self.section@,
            link: self.link@,
        }
    }
}

/// The values of a sequence of assignments.
pub open spec fn view_assignments(s: Seq<Assignment>) -> Seq<AssignmentView> {
    s.map_values(|a: Assignment| a@)
}

/// The values of a sequence of submissions.
pub open spec fn view_submissions(s: Seq<Submission>) -> Seq<SubmissionView> {
    s.map_values(|s: Submission| s@)
}

/// The roster invariant: no two participants share an id.
pub open spec fn ids_unique(subs: Seq<SubmissionView>) -> bool {
    forall|i: int, j: int| 0 <= i < j < subs.len() ==> subs[i].id != subs[j].id
}

} // verus!
