//! Report assembly: one participant's report from the per-deliverable
//! evaluations, and the whole snapshot of a cycle from the per-participant
//! sync results.
//!
//! A snapshot is an ordered sequence of participant reports, wholly
//! replaced each cycle. A participant whose mirror was unavailable is
//! simply omitted from the cycle's snapshot; every included report carries
//! exactly one entry per configured deliverable, in configuration order.

use vstd::prelude::*;

use crate::evaluate::{spec_evaluate, evaluate, AssignmentStatus, HistoryLookup};
use crate::mirror::MirrorState;
use crate::model::{
    ids_unique, view_assignments, view_submissions, Assignment, AssignmentView, Submission,
    SubmissionView,
};

verus! {

/// The status of one deliverable for one participant, with optionally the
/// rendered content of the submitted file.
#[derive(Clone, Debug)]
pub struct AssignmentReport {
    pub name: String,
    pub status: AssignmentStatus,
    pub content: Option<String>,
}

/// The mathematical value of an [`AssignmentReport`].
pub struct AssignmentReportView {
    pub name: Seq<char>,
    pub status: AssignmentStatus,
    pub content: Option<Seq<char>>,
}

impl View for AssignmentReport {
    type V = AssignmentReportView;

    open spec fn view(&self) -> AssignmentReportView {
        AssignmentReportView {
            name: self.name@,
            status: self.status,
            content: match self.content {
                Some(s) => Some(s@),
                None => None,
            },
        }
    }
}

/// One participant's full report: one entry per configured deliverable,
/// in configuration order.
#[derive(Clone, Debug)]
pub struct Report {
    pub id: i64,
    pub assignments: Vec<AssignmentReport>,
}

/// The mathematical value of a [`Report`].
pub struct ReportView {
    pub id: i64,
    pub assignments: Seq<AssignmentReportView>,
}

impl View for Report {
    type V = ReportView;

    open spec fn view(&self) -> ReportView {
        ReportView { id: self.id, assignments: view_entries(self.assignments@) }
    }
}

/// The values of a sequence of per-deliverable entries.
pub open spec fn view_entries(s: Seq<AssignmentReport>) -> Seq<AssignmentReportView> {
    s.map_values(|r: AssignmentReport| r@)
}

/// The values of a sequence of participant reports.
pub open spec fn view_reports(s: Seq<Report>) -> Seq<ReportView> {
    s.map_values(|r: Report| r@)
}

/// What one participant's sync attempt handed back: the mirror state it
/// ended in, and, for each configured deliverable in order, the outcome of
/// the history query against the deliverable's path.
#[derive(Clone, Debug)]
pub struct SyncResult {
    pub state: MirrorState,
    pub lookups: Vec<HistoryLookup>,
}

/// The mathematical value of a [`SyncResult`].
pub struct SyncResultView {
    pub state: MirrorState,
    pub lookups: Seq<HistoryLookup>,
}

impl View for SyncResult {
    type V = SyncResultView;

    open spec fn view(&self) -> SyncResultView {
        SyncResultView { state: self.state, lookups: self.lookups@ }
    }
}

/// The values of a sequence of sync results.
pub open spec fn view_synced(s: Seq<SyncResult>) -> Seq<SyncResultView> {
    s.map_values(|r: SyncResult| r@)
}

/// The report entry of one deliverable: the deliverable's name, the status
/// its history query classifies to, and no rendered content.
pub open spec fn spec_entry(a: AssignmentView, lookup: HistoryLookup) -> AssignmentReportView {
    AssignmentReportView {
        name: a.name,
        status: spec_evaluate(lookup, a.deadline),
        content: None,
    }
}

/// The entry sequence of one participant: one entry per configured
/// deliverable, in configuration order.
pub open spec fn spec_entries(
    assignments: Seq<AssignmentView>,
    lookups: Seq<HistoryLookup>,
) -> Seq<AssignmentReportView> {
    Seq::new(assignments.len(), |i: int| spec_entry(assignments[i], lookups[i]))
}

/// The snapshot a cycle publishes: the reports of exactly those
/// participants whose mirror ended the cycle present, in roster order.
pub open spec fn spec_report(
    assignments: Seq<AssignmentView>,
    submissions: Seq<SubmissionView>,
    synced: Seq<SyncResultView>,
) -> Seq<ReportView>
    decreases submissions.len(),
{
    if submissions.len() == 0 {
        Seq::empty()
    } else {
        let rest = spec_report(assignments, submissions.drop_last(), synced.drop_last());
        if synced.last().state is Present {
            rest.push(
                ReportView {
                    id: submissions.last().id,
                    assignments: spec_entries(assignments, synced.last().lookups),
                },
            )
        } else {
            rest
        }
    }
}

/// Composes one participant's report from the mirror state the sync ended
/// in and the per-deliverable history queries. An unavailable mirror
/// yields no report: the participant is omitted from this cycle's
/// snapshot. A present mirror yields one entry per configured deliverable,
/// in configuration order.
pub fn build(
    state: MirrorState,
    id: i64,
    assignments: &Vec<Assignment>,
    lookups: &Vec<HistoryLookup>,
) -> (r: Option<Report>)
    requires
        lookups@.len() == assignments@.len(),
    ensures
        r is Some <==> state is Present,
        r matches Some(rep) ==> rep@ == (ReportView {
            id,
            assignments: spec_entries(view_assignments(assignments@), lookups@),
        }),
{
    match state {
        MirrorState::Unavailable => None,
        MirrorState::Present => {
            let mut entries: Vec<AssignmentReport> = Vec::new();
            let mut j: usize = 0;
            while j < assignments.len()
                invariant
                    j <= assignments.len(),
                    lookups@.len() == assignments@.len(),
                    entries@.len() == j,
                    view_entries(entries@) == spec_entries(
                        view_assignments(assignments@).take(j as int),
                        lookups@.take(j as int),
                    ),
                decreases assignments@.len() - j,
            {
                let a = &assignments[j];
                let status = evaluate(&lookups[j], a.deadline);
                let ghost prev = entries@;
                entries.push(AssignmentReport { name: a.name.clone(), status, content: None });
                proof {
                    let va = view_assignments(assignments@);
                    let lhs = view_entries(entries@);
                    let rhs = spec_entries(va.take(j + 1), lookups@.take(j + 1));
                    assert forall|k: int| 0 <= k < j + 1 implies lhs[k] == rhs[k] by {
                        if k < j {
                            assert(lhs[k] == view_entries(prev)[k]);
                            assert(view_entries(prev)[k] == spec_entries(
                                va.take(j as int),
                                lookups@.take(j as int),
                            )[k]);
                        } else {
                            assert(entries@[k]@ == spec_entry(va[k], lookups@[k]));
                        }
                    }
                    assert(lhs =~= rhs);
                }
                j += 1;
            }
            proof {
                let va = view_assignments(assignments@);
                assert(va.take(va.len() as int) =~= va);
                assert(lookups@.take(lookups@.len() as int) =~= lookups@);
            }
            Some(Report { id, assignments: entries })
        },
    }
}

/// Assembles the snapshot of one full cycle: for each roster entry in
/// order, the report built from its sync result, with unavailable mirrors
/// omitted.
pub fn report(
    assignments: &Vec<Assignment>,
    submissions: &Vec<Submission>,
    synced: &Vec<SyncResult>,
) -> (snapshot: Vec<Report>)
    requires
        synced@.len() == submissions@.len(),
        forall|i: int|
            0 <= i < synced@.len() ==> #[trigger] synced@[i].lookups@.len() == assignments@.len(),
    ensures
        view_reports(snapshot@) == spec_report(
            view_assignments(assignments@),
            view_submissions(submissions@),
            view_synced(synced@),
        ),
{
    let ghost va = view_assignments(assignments@);
    let ghost vs = view_submissions(submissions@);
    let ghost vy = view_synced(synced@);
    let mut out: Vec<Report> = Vec::new();
    let mut i: usize = 0;
    while i < submissions.len()
        invariant
            i <= submissions.len(),
            synced@.len() == submissions@.len(),
            forall|k: int|
                0 <= k < synced@.len() ==> #[trigger] synced@[k].lookups@.len()
                    == assignments@.len(),
            va == view_assignments(assignments@),
            vs == view_submissions(submissions@),
            vy == view_synced(synced@),
            view_reports(out@) == spec_report(va, vs.take(i as int), vy.take(i as int)),
        decreases submissions@.len() - i,
    {
        let s = &synced[i];
        let r = build(s.state, submissions[i].id, assignments, &s.lookups);
        proof {
            assert(vs.take(i + 1 as int).drop_last() =~= vs.take(i as int));
            assert(vy.take(i + 1 as int).drop_last() =~= vy.take(i as int));
            assert(vs.take(i + 1 as int).last() == vs[i as int]);
            assert(vy.take(i + 1 as int).last() == vy[i as int]);
        }
        match r {
            Some(rep) => {
                let ghost prev = out@;
                out.push(rep);
                proof {
                    assert(view_reports(out@) =~= view_reports(prev).push(rep@));
                    assert(view_reports(out@) =~= spec_report(
                        va,
                        vs.take(i + 1 as int),
                        vy.take(i + 1 as int),
                    ));
                }
            },
            None => {
                proof {
                    assert(view_reports(out@) =~= spec_report(
                        va,
                        vs.take(i + 1 as int),
                        vy.take(i + 1 as int),
                    ));
                }
            },
        }
        i += 1;
    }
    proof {
        assert(vs.take(vs.len() as int) =~= vs);
        assert(vy.take(vy.len() as int) =~= vy);
    }
    out
}

/// Whether some roster entry carries this id.
pub open spec fn subs_contain_id(subs: Seq<SubmissionView>, id: i64) -> bool {
    exists|i: int| 0 <= i < subs.len() && #[trigger] subs[i].id == id
}

/// Every report of a snapshot carries one entry per configured
/// deliverable, in configuration order, with the deliverable's name.
pub proof fn lemma_snapshot_shape(
    assignments: Seq<AssignmentView>,
    submissions: Seq<SubmissionView>,
    synced: Seq<SyncResultView>,
)
    requires
        synced.len() == submissions.len(),
    ensures
        ({
            let snap = spec_report(assignments, submissions, synced);
            &&& forall|k: int|
                0 <= k < snap.len() ==> (#[trigger] snap[k].assignments).len()
                    == assignments.len()
            &&& forall|k: int, j: int|
                0 <= k < snap.len() && 0 <= j < assignments.len()
                    ==> (#[trigger] snap[k].assignments[j]).name == assignments[j].name
        }),
    decreases submissions.len(),
{
    if submissions.len() > 0 {
        lemma_snapshot_shape(assignments, submissions.drop_last(), synced.drop_last());
    }
}

/// The submission ids of a snapshot are a subset of the roster's ids, and,
/// when the roster's ids are unique, they carry no duplicate either.
pub proof fn lemma_snapshot_ids(
    assignments: Seq<AssignmentView>,
    submissions: Seq<SubmissionView>,
    synced: Seq<SyncResultView>,
)
    requires
        synced.len() == submissions.len(),
    ensures
        ({
            let snap = spec_report(assignments, submissions, synced);
            &&& forall|k: int|
                0 <= k < snap.len() ==> subs_contain_id(submissions, (#[trigger] snap[k]).id)
            &&& ids_unique(submissions) ==> forall|k1: int, k2: int|
                0 <= k1 < k2 < snap.len() ==> snap[k1].id != snap[k2].id
        }),
    decreases submissions.len(),
{
    let snap = spec_report(assignments, submissions, synced);
    if submissions.len() > 0 {
        let subs1 = submissions.drop_last();
        lemma_snapshot_ids(assignments, subs1, synced.drop_last());
        let rest = spec_report(assignments, subs1, synced.drop_last());
        assert forall|k: int| 0 <= k < snap.len() implies subs_contain_id(
            submissions,
            (#[trigger] snap[k]).id,
        ) by {
            if k < rest.len() {
                assert(subs_contain_id(subs1, rest[k].id));
                let i = choose|i: int| 0 <= i < subs1.len() && #[trigger] subs1[i].id == rest[k].id;
                assert(submissions[i].id == snap[k].id);
            } else {
                assert(snap[k].id == submissions[submissions.len() - 1].id);
            }
        }
        if ids_unique(submissions) {
            assert(ids_unique(subs1));
            assert forall|k1: int, k2: int| 0 <= k1 < k2 < snap.len() implies snap[k1].id
                != snap[k2].id by {
                if k2 < rest.len() {
                } else {
                    assert(subs_contain_id(subs1, rest[k1].id));
                    let i = choose|i: int|
                        0 <= i < subs1.len() && #[trigger] subs1[i].id == rest[k1].id;
                    assert(submissions[i].id != submissions[submissions.len() - 1].id);
                }
            }
        }
    }
}

} // verus!
