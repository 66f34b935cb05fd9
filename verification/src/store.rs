//! The snapshot store: one latest published report set, safe for one
//! writer and many concurrent readers.
//!
//! The snapshot is guarded by a reader–writer lock held only across the
//! copy-in and copy-out of the value, never across the evaluation work of
//! a cycle, so readers are never blocked by an in-progress cycle. Every
//! value the lock admits satisfies the snapshot invariant for the store's
//! configuration, so a concurrent reader observes either the prior
//! snapshot in full or the new one in full — the lock holds whole
//! snapshots only, never a partially-built one.

use vstd::prelude::*;
use vstd::rwlock::RwLock;

use crate::model::{
    ids_unique, view_assignments, view_submissions, Assignment, AssignmentView, Submission,
    SubmissionView,
};
use crate::report::{
    report, lemma_snapshot_ids, lemma_snapshot_shape, subs_contain_id, spec_report, view_entries,
    view_reports, AssignmentReport, Report, ReportView, SyncResult,
};

verus! {

/// The snapshot invariant, stated against a configuration reduced to the
/// roster's id sequence and the deliverable-name sequence: the reports
/// carry no duplicate id, every id belongs to the roster, and every report
/// carries one entry per configured deliverable, in configuration order.
pub open spec fn snapshot_wf(snap: Seq<ReportView>, ids: Seq<i64>, names: Seq<Seq<char>>) -> bool {
    &&& forall|k1: int, k2: int| 0 <= k1 < k2 < snap.len() ==> snap[k1].id != snap[k2].id
    &&& forall|k: int| 0 <= k < snap.len() ==> ids.contains((#[trigger] snap[k]).id)
    &&& forall|k: int|
        0 <= k < snap.len() ==> (#[trigger] snap[k]).assignments.len() == names.len()
    &&& forall|k: int, j: int|
        0 <= k < snap.len() && 0 <= j < names.len() ==> (#[trigger] snap[k].assignments[j]).name
            == names[j]
}

/// An exact copy of one per-deliverable entry.
fn clone_entry(r: &AssignmentReport) -> (c: AssignmentReport)
    ensures
        c@ == r@,
{
    AssignmentReport {
        name: r.name.clone(),
        status: r.status,
        content: match &r.content {
            Some(s) => Some(s.clone()),
            None => None,
        },
    }
}

/// An exact copy of one participant report.
fn clone_report(r: &Report) -> (c: Report)
    ensures
        c@ == r@,
{
    let mut entries: Vec<AssignmentReport> = Vec::new();
    let mut j: usize = 0;
    while j < r.assignments.len()
        invariant
            j <= r.assignments@.len(),
            entries@.len() == j,
            forall|k: int| 0 <= k < j ==> (#[trigger] entries@[k])@ == r.assignments@[k]@,
        decreases r.assignments@.len() - j,
    {
        entries.push(clone_entry(&r.assignments[j]));
        j += 1;
    }
    proof {
        assert(view_entries(entries@) =~= view_entries(r.assignments@));
    }
    Report { id: r.id, assignments: entries }
}

/// An exact copy of a whole snapshot.
fn clone_snapshot(v: &Vec<Report>) -> (c: Vec<Report>)
    ensures
        view_reports(c@) == view_reports(v@),
{
    let mut out: Vec<Report> = Vec::new();
    let mut i: usize = 0;
    while i < v.len()
        invariant
            i <= v@.len(),
            out@.len() == i,
            forall|k: int| 0 <= k < i ==> (#[trigger] out@[k])@ == v@[k]@,
        decreases v@.len() - i,
    {
        out.push(clone_report(&v[i]));
        i += 1;
    }
    proof {
        assert(view_reports(out@) =~= view_reports(v@));
    }
    out
}

/// Holds the single latest published snapshot. Created empty at startup;
/// wholly replaced at the end of every cycle; never merged with the
/// previous value. Readers and the publishing cycle share the store by
/// reference.
pub struct SnapshotStore {
    ids: Ghost<Seq<i64>>,
    names: Ghost<Seq<Seq<char>>>,
    lock: RwLock<Vec<Report>, spec_fn(Vec<Report>) -> bool>,
}

impl SnapshotStore {
    /// The roster ids this store was configured with.
    pub closed spec fn configured_ids(&self) -> Seq<i64> {
        self.ids@
    }

    /// The deliverable names this store was configured with.
    pub closed spec fn configured_names(&self) -> Seq<Seq<char>> {
        self.names@
    }

    #[verifier::type_invariant]
    spec fn wf(&self) -> bool {
        forall|v: Vec<Report>| #[trigger]
            self.lock.inv(v) <==> snapshot_wf(view_reports(v@), self.ids@, self.names@)
    }

    /// A store for the given configuration, holding the empty snapshot.
    pub fn new(assignments: &Vec<Assignment>, submissions: &Vec<Submission>) -> (store:
        SnapshotStore)
        ensures
            store.configured_ids() == view_submissions(submissions@).map_values(
                |s: SubmissionView| s.id,
            ),
            store.configured_names() == view_assignments(assignments@).map_values(
                |a: AssignmentView| a.name,
            ),
    {
        let ghost ids = view_submissions(submissions@).map_values(|s: SubmissionView| s.id);
        let ghost names = view_assignments(assignments@).map_values(|a: AssignmentView| a.name);
        let empty: Vec<Report> = Vec::new();
        proof {
            assert(view_reports(empty@) =~= Seq::<ReportView>::empty());
        }
        let lock = RwLock::new(
            empty,
            Ghost(|v: Vec<Report>| snapshot_wf(view_reports(v@), ids, names)),
        );
        SnapshotStore { ids: Ghost(ids), names: Ghost(names), lock }
    }

    /// Replaces the held snapshot as a single atomic step. The lock is
    /// held only across the swap; no reader ever sees a value other than
    /// a whole published snapshot.
    pub fn publish(&self, snapshot: Vec<Report>)
        requires
            snapshot_wf(view_reports(snapshot@), self.configured_ids(), self.configured_names()),
    {
        proof {
            use_type_invariant(self);
        }
        let (_prior, handle) = self.lock.acquire_write();
        handle.release_write(snapshot);
    }

    /// A fully-formed copy of whichever snapshot was most recently
    /// published — never a partially-built one: whatever was copied out
    /// satisfies the snapshot invariant of this store's configuration.
    pub fn current(&self) -> (snapshot: Vec<Report>)
        ensures
            snapshot_wf(
                view_reports(snapshot@),
                self.configured_ids(),
                self.configured_names(),
            ),
    {
        proof {
            use_type_invariant(self);
        }
        let handle = self.lock.acquire_read();
        let snapshot = clone_snapshot(handle.borrow());
        handle.release_read();
        snapshot
    }

    /// The end of one full cycle: assembles the snapshot from the roster's
    /// sync results and publishes it. The published value satisfies the
    /// snapshot invariant because assembly omits unavailable mirrors,
    /// keeps roster order, and gives every report one entry per configured
    /// deliverable.
    pub fn publish_cycle(
        &self,
        assignments: &Vec<Assignment>,
        submissions: &Vec<Submission>,
        synced: &Vec<SyncResult>,
    )
        requires
            self.configured_ids() == view_submissions(submissions@).map_values(
                |s: SubmissionView| s.id,
            ),
            self.configured_names() == view_assignments(assignments@).map_values(
                |a: AssignmentView| a.name,
            ),
            ids_unique(view_submissions(submissions@)),
            synced@.len() == submissions@.len(),
            forall|i: int|
                0 <= i < synced@.len() ==> #[trigger] synced@[i].lookups@.len()
                    == assignments@.len(),
    {
        let snapshot = report(assignments, submissions, synced);
        proof {
            let va = view_assignments(assignments@);
            let vs = view_submissions(submissions@);
            let vy = crate::report::view_synced(synced@);
            let snap = spec_report(va, vs, vy);
            lemma_snapshot_shape(va, vs, vy);
            lemma_snapshot_ids(va, vs, vy);
            let ids = vs.map_values(|s: SubmissionView| s.id);
            let names = va.map_values(|a: AssignmentView| a.name);
            assert forall|k: int| 0 <= k < snap.len() implies ids.contains(
                (#[trigger] snap[k]).id,
            ) by {
                assert(subs_contain_id(vs, snap[k].id));
                let i = choose|i: int| 0 <= i < vs.len() && #[trigger] vs[i].id == snap[k].id;
                assert(ids[i] == snap[k].id);
            }
            assert forall|k: int, j: int|
                0 <= k < snap.len() && 0 <= j < names.len() implies (#[trigger] snap[
                k].assignments[j]).name == names[j] by {
                assert(snap[k].assignments[j].name == va[j].name);
            }
        }
        self.publish(snapshot);
    }
}

} // verus!
