//! The repository-mirror synchronization state machine.
//!
//! Syncing one mirror is a chain of blocking repository operations — open
//! the local copy, fetch the tracked branch, merge the fetched commit —
//! with a fallback to a fresh clone when any step of the chain fails, and
//! failure of the fallback leaves the mirror unavailable for this cycle
//! only. The operations themselves run outside the library; every decision
//! between them is taken here, as a transition on plain values, so the
//! surrounding loop performs one operation, reports whether it succeeded,
//! and asks for the next phase.

use vstd::prelude::*;
use vstd::seq_lib::group_seq_properties;

verus! {

/// Whether a participant's mirror reflects the remote as of the most
/// recent successful attempt, or could not be brought up to date this
/// cycle.
#[derive(Clone, Copy, Debug, PartialEq, Eq, Structural)]
pub enum MirrorState {
    Present,
    Unavailable,
}

/// Where a sync attempt stands. `Synced` and `Failed` are terminal.
#[derive(Clone, Copy, Debug, PartialEq, Eq, Structural)]
pub enum SyncPhase {
    /// Opening the repository at the local path.
    Opening,
    /// Fetching the tracked branch from the remote.
    Fetching,
    /// Merging the fetched commit into the local branch.
    Merging,
    /// The pull chain failed somewhere; attempting a fresh clone.
    Cloning,
    /// The mirror reflects the remote: it is `Present`.
    Synced,
    /// Clone and fallback clone both failed: the mirror is `Unavailable`.
    Failed,
}

/// The next phase after the current phase's operation succeeded or failed.
/// Any failure along the open–fetch–merge chain falls back to a clone;
/// a failed clone ends the attempt. Terminal phases stay as they are.
pub open spec fn spec_sync_step(phase: SyncPhase, ok: bool) -> SyncPhase {
    match phase {
        SyncPhase::Opening => if ok { SyncPhase::Fetching } else { SyncPhase::Cloning },
        SyncPhase::Fetching => if ok { SyncPhase::Merging } else { SyncPhase::Cloning },
        SyncPhase::Merging => if ok { SyncPhase::Synced } else { SyncPhase::Cloning },
        SyncPhase::Cloning => if ok { SyncPhase::Synced } else { SyncPhase::Failed },
        SyncPhase::Synced => SyncPhase::Synced,
        SyncPhase::Failed => SyncPhase::Failed,
    }
}

/// Takes one step of the sync state machine: `ok` says whether the
/// operation belonging to `phase` succeeded.
pub fn sync_step(phase: SyncPhase, ok: bool) -> (next: SyncPhase)
    ensures
        next == spec_sync_step(phase, ok),
{
    match phase {
        SyncPhase::Opening => if ok { SyncPhase::Fetching } else { SyncPhase::Cloning },
        SyncPhase::Fetching => if ok { SyncPhase::Merging } else { SyncPhase::Cloning },
        SyncPhase::Merging => if ok { SyncPhase::Synced } else { SyncPhase::Cloning },
        SyncPhase::Cloning => if ok { SyncPhase::Synced } else { SyncPhase::Failed },
        SyncPhase::Synced => SyncPhase::Synced,
        SyncPhase::Failed => SyncPhase::Failed,
    }
}

/// The phase reached from `Opening` after a whole sequence of operation
/// outcomes.
pub open spec fn spec_run_sync(events: Seq<bool>) -> SyncPhase
    decreases events.len(),
{
    if events.len() == 0 {
        SyncPhase::Opening
    } else {
        spec_sync_step(spec_run_sync(events.drop_last()), events.last())
    }
}

/// The mirror state a terminal phase stands for.
pub open spec fn spec_mirror_state(phase: SyncPhase) -> Option<MirrorState> {
    match phase {
        SyncPhase::Synced => Some(MirrorState::Present),
        SyncPhase::Failed => Some(MirrorState::Unavailable),
        _ => None,
    }
}

/// Reads the mirror state off a terminal phase.
pub fn mirror_state(phase: SyncPhase) -> (state: Option<MirrorState>)
    ensures
        state == spec_mirror_state(phase),
{
    match phase {
        SyncPhase::Synced => Some(MirrorState::Present),
        SyncPhase::Failed => Some(MirrorState::Unavailable),
        _ => None,
    }
}

/// How many operations of a sync attempt failed.
pub open spec fn failure_count(events: Seq<bool>) -> int {
    events.filter(|ok: bool| !ok).len() as int
}

/// The clone phase is reached only after a failure: some operation of the
/// open–fetch–merge chain failed first.
pub proof fn lemma_cloning_needs_failure(events: Seq<bool>)
    requires
        spec_run_sync(events) == SyncPhase::Cloning,
    ensures
        failure_count(events) >= 1,
    decreases events.len(),
{
    broadcast use group_seq_properties;

    reveal(Seq::filter);
    let prior = spec_run_sync(events.drop_last());
    if prior == SyncPhase::Cloning {
        lemma_cloning_needs_failure(events.drop_last());
    }
}

/// A mirror ends a cycle unavailable only when both the pull chain and
/// the fallback clone failed: at least two operations must have failed.
pub proof fn lemma_unavailable_needs_two_failures(events: Seq<bool>)
    requires
        spec_run_sync(events) == SyncPhase::Failed,
    ensures
        failure_count(events) >= 2,
    decreases events.len(),
{
    broadcast use group_seq_properties;

    reveal(Seq::filter);
    let prior = spec_run_sync(events.drop_last());
    if prior == SyncPhase::Failed {
        lemma_unavailable_needs_two_failures(events.drop_last());
    } else {
        lemma_cloning_needs_failure(events.drop_last());
    }
}

/// What the merge analysis of a fetched commit found.
#[derive(Clone, Copy, Debug, PartialEq, Eq, Structural)]
pub enum MergeAnalysis {
    /// The local branch already contains the fetched commit.
    UpToDate,
    /// The local branch can be advanced to the fetched commit without a
    /// merge commit.
    FastForward,
    /// The histories diverged: a three-way merge is needed.
    Diverged,
}

/// What the mirror must do with a fetched commit.
#[derive(Clone, Copy, Debug, PartialEq, Eq, Structural)]
pub enum MergeAction {
    /// Nothing: the working tree is untouched.
    NoOp,
    /// Move the existing local branch pointer to the fetched commit and
    /// force-checkout the working tree to match it.
    AdvanceBranch,
    /// The local branch does not exist yet: set the reference directly to
    /// the fetched commit and force-checkout.
    CreateBranch,
    /// Three-way-merge the local tree, the remote tree and their common
    /// ancestor.
    ThreeWayMerge,
}

/// The action a merge analysis calls for. An up-to-date branch needs no
/// work at all; a fast-forward advances the branch, creating it first when
/// it does not exist; diverged histories take a three-way merge.
pub open spec fn spec_decide_merge(analysis: MergeAnalysis, branch_found: bool) -> MergeAction {
    match analysis {
        MergeAnalysis::UpToDate => MergeAction::NoOp,
        MergeAnalysis::FastForward => if branch_found {
            MergeAction::AdvanceBranch
        } else {
            MergeAction::CreateBranch
        },
        MergeAnalysis::Diverged => MergeAction::ThreeWayMerge,
    }
}

/// Decides what to do with a fetched commit, given the merge analysis and
/// whether the tracked local branch exists.
pub fn decide_merge(analysis: MergeAnalysis, branch_found: bool) -> (action: MergeAction)
    ensures
        action == spec_decide_merge(analysis, branch_found),
{
    match analysis {
        MergeAnalysis::UpToDate => MergeAction::NoOp,
        MergeAnalysis::FastForward => if branch_found {
            MergeAction::AdvanceBranch
        } else {
            MergeAction::CreateBranch
        },
        MergeAnalysis::Diverged => MergeAction::ThreeWayMerge,
    }
}

/// How a three-way merge ends.
#[derive(Clone, Copy, Debug, PartialEq, Eq, Structural)]
pub enum MergeResolution {
    /// No conflicts: write the merged tree, synthesize a two-parent merge
    /// commit and check out the result.
    CommitMerge,
    /// Conflicts: check out the conflicted index as-is and stop without
    /// committing. The mirror stays present, but its content for the
    /// conflicted paths is unreliable.
    LeaveConflicted,
}

/// Decides how a three-way merge ends, from whether the merged index has
/// conflicts.
pub fn resolve_merge(has_conflicts: bool) -> (r: MergeResolution)
    ensures
        r == if has_conflicts { MergeResolution::LeaveConflicted } else { MergeResolution::CommitMerge },
{
    if has_conflicts {
        MergeResolution::LeaveConflicted
    } else {
        MergeResolution::CommitMerge
    }
}

} // verus!
