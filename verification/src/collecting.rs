//! Collection as a sequence of steps. The library decides every next step
//! from what Git, the file system and inspection reported for the previous
//! one: interrupted removals are reconciled first, then each checkout is
//! rechecked, its removal journaled, removed by Git, and checkpointed.
use vstd::prelude::*;
use vstd::string::*;
use crate::catalog::{evolves, repo, repo_index, same_but_workspaces, ws_index};
use crate::collect::{collect_start, joined, mark_removal_started, mark_removed, require_collectable, set_phase};
use crate::copy::{copy_workspace, same_workspace};
use crate::error::Error;
use crate::git::{lines, lists_worktree, worktree_line};
use crate::journal::bump_revision;
use crate::model::{CollectWorkspace, ManagedWorkspace, WorkspaceCheckout, WorkspaceInspection, WorkspacePhase, WorkspaceSnapshot};
use crate::inspect::{covers, inspect_workspace, inspection_of, retention_reasons, WorkspaceObservation};
use crate::provision::{advanced, put_workspace};

verus! {

/// Where a collection run is.
#[derive(Clone, Copy, Debug, PartialEq, Eq, Structural)]
pub enum CollectStage {
    /// Nothing done yet.
    Begin,
    /// Waiting to hear whether a checkout with a journaled removal still exists.
    Recover,
    /// Waiting for the repository's worktree listing.
    Listing,
    /// Waiting for an interrupted removal to be finished by Git.
    Reconcile,
    /// Waiting for the journal recording a reconciled removal to be written.
    RecoverySave,
    /// Waiting for the first inspection.
    Preview,
    /// Waiting for the journal recording the removing phase to be written.
    PhaseSave,
    /// Waiting for the inspection right before the checkout at hand is removed.
    Recheck,
    /// Waiting for the journal recording the removal's start to be written.
    StartSave,
    /// Waiting for Git to remove the checkout at hand.
    Remove,
    /// Waiting for the descriptor recording the removal to be written.
    Checkpoint,
    /// Waiting for the journal recording the removal to be written.
    RemovedSave,
    /// Waiting for the tombstone descriptor to be written.
    Tombstone,
    /// Done, successfully or not.
    Finished,
}

/// What a collection run knows between steps.
pub struct CollectState {
    pub stage: CollectStage,
    /// The workspace's position in the journal.
    pub workspace: usize,
    /// The checkout at hand.
    pub next: usize,
    /// The latest inspection found the workspace collectable.
    pub clear: bool,
    /// The journal recording that the removal at hand started was written.
    pub started_saved: bool,
}

/// What Git, the file system and inspection reported for the last action.
pub enum CollectEvent {
    /// The run begins.
    Start,
    /// Whether the probed checkout exists.
    Exists(bool),
    /// The repository's `git worktree list --porcelain` output.
    Listing(String),
    /// The journal was written.
    Saved,
    /// The requested change was made.
    Done,
    /// What was observed of the workspace (its checkouts, content and
    /// consumers) at time `now`.
    Observed { now: i64, observation: WorkspaceObservation },
    /// The action failed.
    Failed(Error),
}

/// The next thing to do. The only Git changes asked for are
/// `git worktree remove <path>` (see `worktree_remove_args`): never forced,
/// never deleting a branch, never pruning other registrations.
pub enum CollectAction {
    /// Report whether the checkout exists.
    ProbeCheckout { path: String },
    /// Check that the checkout and the repository are safe paths and list
    /// the repository's worktrees.
    ListWorktrees { repository: String, path: String },
    /// Finish a journaled removal that Git had not completed:
    /// `git worktree remove <path>` in the repository.
    ReconcileRemoval { repository: String, path: String },
    /// Write the journal as it now stands.
    SaveJournal,
    /// Observe the workspace as the journal now records it: each checkout,
    /// the content outside them and the processes using it.
    Observe { workspace: ManagedWorkspace },
    /// `git worktree remove <path>` in the repository.
    RemoveWorktree { repository: String, path: String },
    /// Write the workspace descriptor.
    WriteProjection { workspace: ManagedWorkspace },
    /// The run is over.
    Finished(Result<(), Error>),
}

/// The arguments of the only Git change collection makes.
pub fn worktree_remove_args(path: &str) -> (r: Vec<String>)
    ensures
        r@.len() == 3,
        r@[0]@ == "worktree"@,
        r@[1]@ == "remove"@,
        r@[2]@ == path@,
{
    let mut r: Vec<String> = Vec::new();
    r.push(String::from_str("worktree"));
    r.push(String::from_str("remove"));
    r.push(path.to_owned());
    proof {
        reveal_strlit("worktree");
        reveal_strlit("remove");
    }
    r
}

/// The stages with a checkout at hand.
pub open spec fn at_checkout(g: CollectStage) -> bool {
    g == CollectStage::Recover || g == CollectStage::Listing || g == CollectStage::Reconcile || g
        == CollectStage::RecoverySave || g == CollectStage::Recheck || g == CollectStage::StartSave || g
        == CollectStage::Remove || g == CollectStage::Checkpoint || g == CollectStage::RemovedSave
}

/// The stages that remove checkouts, once the workspace is journaled as
/// removing.
pub open spec fn removing(g: CollectStage) -> bool {
    g == CollectStage::PhaseSave || g == CollectStage::Recheck || g == CollectStage::StartSave || g
        == CollectStage::Remove || g == CollectStage::Checkpoint || g == CollectStage::RemovedSave || g
        == CollectStage::Tombstone
}

/// A checkout whose removal was journaled but is not recorded done.
pub open spec fn pending(k: WorkspaceCheckout) -> bool {
    k.removal_started && !k.removed
}

/// What holds between the steps of a run for request `c` on journal `s`.
pub open spec fn collect_inv(s: WorkspaceSnapshot, st: CollectState, c: CollectWorkspace) -> bool {
    let w = s.workspaces@[st.workspace as int];
    let k = w.checkouts@[st.next as int];
    let g = st.stage;
    &&& g != CollectStage::Begin && g != CollectStage::Finished ==> st.workspace < s.workspaces@.len()
        && w.id@ == c.workspace_id@
    &&& at_checkout(g) ==> st.next < w.checkouts@.len()
    &&& removing(g) ==> w.phase == WorkspacePhase::Removing
    &&& (g == CollectStage::Recover || g == CollectStage::Listing || g == CollectStage::Reconcile) ==> pending(k)
    &&& (g == CollectStage::Recheck || g == CollectStage::StartSave || g == CollectStage::Remove || g
        == CollectStage::Checkpoint || g == CollectStage::RemovedSave) ==> forall|q: int|
        0 <= q < st.next ==> (#[trigger] w.checkouts@[q]).removed
    &&& g == CollectStage::Tombstone ==> forall|q: int| 0 <= q < w.checkouts@.len() ==> (#[trigger] w.checkouts@[q]).removed
    &&& g == CollectStage::Recheck ==> !k.removed
    &&& (g == CollectStage::StartSave || g == CollectStage::Remove) ==> pending(k)
    &&& (g == CollectStage::Checkpoint || g == CollectStage::RemovedSave) ==> k.removed
    &&& (g == CollectStage::StartSave) ==> st.clear && !st.started_saved
    &&& (g == CollectStage::Remove || g == CollectStage::Checkpoint || g == CollectStage::RemovedSave) ==> st.clear
        && st.started_saved
    &&& !(g == CollectStage::StartSave || g == CollectStage::Remove || g == CollectStage::Checkpoint || g
        == CollectStage::RemovedSave || g == CollectStage::Finished) ==> !st.clear && !st.started_saved
}

/// The run stops with `e`, the journal as it was.
pub open spec fn halted(s0: WorkspaceSnapshot, s: WorkspaceSnapshot, st: CollectState, a: CollectAction, e: Error) -> bool {
    a == CollectAction::Finished(Err(e)) && s == s0 && st.stage == CollectStage::Finished
}

/// Looking for interrupted removals in workspace `ws` from checkout `j` on:
/// the first checkout with a pending removal is probed; when there is none,
/// the workspace is observed for the first inspection.
pub open spec fn recovering_from(s: WorkspaceSnapshot, ws: int, j: int, st0: CollectState, st: CollectState, a: CollectAction) -> bool {
    let w = s.workspaces@[ws];
    &&& st == (CollectState { stage: st.stage, next: st.next, workspace: st.workspace, ..st0 })
    &&& st.workspace == ws
    &&& {
        ||| {
            &&& st.stage == CollectStage::Recover
            &&& j <= st.next < w.checkouts@.len()
            &&& pending(w.checkouts@[st.next as int])
            &&& forall|q: int| j <= q < st.next ==> !pending(#[trigger] w.checkouts@[q])
            &&& a == CollectAction::ProbeCheckout { path: w.checkouts@[st.next as int].path }
        }
        ||| {
            &&& st.stage == CollectStage::Preview
            &&& forall|q: int| j <= q < w.checkouts@.len() ==> !pending(#[trigger] w.checkouts@[q])
            &&& a matches CollectAction::Observe { workspace } && same_workspace(workspace, w)
        }
    }
}

/// Removing the checkouts of workspace `ws` from checkout `j` on: the first
/// checkout not yet removed is inspected again; when every one is removed,
/// the tombstone descriptor (removed, one revision later) is written.
pub open spec fn removing_from(s: WorkspaceSnapshot, ws: int, j: int, st0: CollectState, st: CollectState, a: CollectAction) -> bool {
    let w = s.workspaces@[ws];
    let all_removed = forall|q: int| j <= q < w.checkouts@.len() ==> (#[trigger] w.checkouts@[q]).removed;
    ||| {
        &&& st == (CollectState { stage: CollectStage::Recheck, next: st.next, ..st0 })
        &&& j <= st.next < w.checkouts@.len()
        &&& !w.checkouts@[st.next as int].removed
        &&& forall|q: int| j <= q < st.next ==> (#[trigger] w.checkouts@[q]).removed
        &&& a matches CollectAction::Observe { workspace } && same_workspace(workspace, w)
    }
    ||| all_removed && w.revision == u64::MAX && a == CollectAction::Finished(Err(Error::RevisionExhausted))
        && st.stage == CollectStage::Finished
    ||| {
        &&& all_removed
        &&& w.revision < u64::MAX
        &&& st == (CollectState { stage: CollectStage::Tombstone, next: st.next, ..st0 })
        &&& a matches CollectAction::WriteProjection { workspace } && same_workspace(
            workspace,
            ManagedWorkspace { phase: WorkspacePhase::Removed, revision: (w.revision + 1) as u64, ..w },
        )
    }
}

/// The checkout at hand recorded removed; the journal revision advanced
/// first when the journal is written next (`then` is `RecoverySave`), the
/// descriptor written next otherwise.
pub open spec fn removal_recorded(
    s0: WorkspaceSnapshot,
    s: WorkspaceSnapshot,
    st0: CollectState,
    st: CollectState,
    a: CollectAction,
    then: CollectStage,
) -> bool {
    let ws = st0.workspace as int;
    let w = s0.workspaces@[ws];
    let k = w.checkouts@[st0.next as int];
    if then == CollectStage::RecoverySave && s0.revision == u64::MAX {
        halted(s0, s, st, a, Error::RevisionExhausted)
    } else {
        let nw = s.workspaces@[ws];
        &&& s.revision == (if then == CollectStage::RecoverySave { s0.revision + 1 } else { s0.revision as int })
        &&& s.workspaces@ == s0.workspaces@.update(ws, nw)
        &&& crate::collect::with_checkout(w, nw, st0.next as int, WorkspaceCheckout { removed: true, ..k })
        &&& same_but_workspaces(s, WorkspaceSnapshot { revision: s.revision, ..s0 })
        &&& st == (CollectState { stage: then, ..st0 })
        &&& if then == CollectStage::RecoverySave {
            a == CollectAction::SaveJournal
        } else {
            a matches CollectAction::WriteProjection { workspace } && same_workspace(workspace, nw)
        }
    }
}

/// One step of collecting `c`, exactly: what each report leads to at each
/// stage.
pub open spec fn collect_transition(
    s0: WorkspaceSnapshot,
    s: WorkspaceSnapshot,
    st0: CollectState,
    st: CollectState,
    c: CollectWorkspace,
    ev: CollectEvent,
    a: CollectAction,
) -> bool {
    let ws = st0.workspace as int;
    let w = s0.workspaces@[ws];
    let j = st0.next as int;
    let k = w.checkouts@[j];
    let ri = repo_index(s0, k.repository_id@);
    let unexpected = halted(s0, s, st, a, Error::UnexpectedEvent);
    match ev {
        CollectEvent::Failed(e) => halted(s0, s, st, a, e),
        CollectEvent::Start => if st0.stage != CollectStage::Begin {
            unexpected
        } else {
            let i = ws_index(s0, c.workspace_id@);
            if i < 0 {
                halted(s0, s, st, a, Error::UnknownWorkspace)
            } else if s0.workspaces@[i].revision != c.expected_revision {
                halted(s0, s, st, a, Error::WorkspaceRevisionChanged)
            } else {
                s == s0 && recovering_from(s0, i, 0, st0, st, a)
            }
        },
        CollectEvent::Exists(b) => if st0.stage != CollectStage::Recover {
            unexpected
        } else if b {
            s == s0 && recovering_from(s0, ws, j + 1, st0, st, a)
        } else if ri < 0 {
            halted(s0, s, st, a, Error::UnknownRepository)
        } else {
            &&& s == s0
            &&& st == (CollectState { stage: CollectStage::Listing, ..st0 })
            &&& a == CollectAction::ListWorktrees { repository: s0.repositories@[ri].path, path: k.path }
        },
        CollectEvent::Listing(t) => if st0.stage != CollectStage::Listing {
            unexpected
        } else if !lines(t@).contains(worktree_line(k.path@)) {
            removal_recorded(s0, s, st0, st, a, CollectStage::RecoverySave)
        } else if ri < 0 {
            halted(s0, s, st, a, Error::UnknownRepository)
        } else {
            &&& s == s0
            &&& st == (CollectState { stage: CollectStage::Reconcile, ..st0 })
            &&& a == CollectAction::ReconcileRemoval { repository: s0.repositories@[ri].path, path: k.path }
        },
        CollectEvent::Saved => if st0.stage == CollectStage::RecoverySave {
            s == s0 && recovering_from(s0, ws, j + 1, st0, st, a)
        } else if st0.stage == CollectStage::PhaseSave {
            s == s0 && removing_from(s0, ws, 0, st0, st, a)
        } else if st0.stage == CollectStage::StartSave {
            if ri < 0 {
                halted(s0, s, st, a, Error::UnknownRepository)
            } else {
                &&& s == s0
                &&& st == (CollectState { stage: CollectStage::Remove, started_saved: true, ..st0 })
                &&& a == CollectAction::RemoveWorktree { repository: s0.repositories@[ri].path, path: k.path }
            }
        } else if st0.stage == CollectStage::RemovedSave {
            s == s0 && removing_from(
                s0,
                ws,
                j + 1,
                CollectState { clear: false, started_saved: false, ..st0 },
                st,
                a,
            )
        } else {
            unexpected
        },
        CollectEvent::Observed { now, observation } => if st0.stage != CollectStage::Preview && st0.stage
            != CollectStage::Recheck {
            unexpected
        } else if !covers(w, observation) {
            unexpected
        } else if retention_reasons(w, now, observation).len() > 0 {
            &&& s == s0
            &&& st.stage == CollectStage::Finished
            &&& a matches CollectAction::Finished(Err(Error::CollectionBlocked(m)))
            &&& m@ == joined(retention_reasons(w, now, observation), "; "@)
        } else if s0.revision == u64::MAX {
            halted(s0, s, st, a, Error::RevisionExhausted)
        } else {
            &&& a == CollectAction::SaveJournal
            &&& same_but_workspaces(s, WorkspaceSnapshot { revision: (s0.revision + 1) as u64, ..s0 })
            &&& if st0.stage == CollectStage::Preview {
                &&& s.workspaces@ == s0.workspaces@.update(ws, ManagedWorkspace { phase: WorkspacePhase::Removing, ..w })
                &&& st == (CollectState { stage: CollectStage::PhaseSave, ..st0 })
            } else {
                &&& s.workspaces@ == s0.workspaces@.update(ws, s.workspaces@[ws])
                &&& crate::collect::with_checkout(w, s.workspaces@[ws], j, WorkspaceCheckout { removal_started: true, ..k })
                &&& st == (CollectState { stage: CollectStage::StartSave, clear: true, ..st0 })
            }
        },
        CollectEvent::Done => if st0.stage == CollectStage::Reconcile {
            removal_recorded(s0, s, st0, st, a, CollectStage::RecoverySave)
        } else if st0.stage == CollectStage::Remove {
            removal_recorded(s0, s, st0, st, a, CollectStage::Checkpoint)
        } else if st0.stage == CollectStage::Checkpoint {
            if s0.revision == u64::MAX {
                halted(s0, s, st, a, Error::RevisionExhausted)
            } else {
                &&& a == CollectAction::SaveJournal
                &&& s == WorkspaceSnapshot { revision: (s0.revision + 1) as u64, ..s0 }
                &&& st == (CollectState { stage: CollectStage::RemovedSave, ..st0 })
            }
        } else if st0.stage == CollectStage::Tombstone {
            if w.revision == u64::MAX {
                halted(s0, s, st, a, Error::RevisionExhausted)
            } else {
                &&& a == CollectAction::Finished(Ok(()))
                &&& st.stage == CollectStage::Finished
                &&& s.workspaces@ == s0.workspaces@.update(ws, s.workspaces@[ws])
                &&& same_workspace(
                    s.workspaces@[ws],
                    ManagedWorkspace { phase: WorkspacePhase::Removed, revision: (w.revision + 1) as u64, ..w },
                )
                &&& same_but_workspaces(s, s0)
            }
        } else {
            unexpected
        },
    }
}

impl CollectState {
    /// A run that has done nothing yet.
    pub fn new() -> (st: CollectState)
        ensures
            st.stage == CollectStage::Begin,
            !st.clear,
            !st.started_saved,
    {
        CollectState { stage: CollectStage::Begin, workspace: 0, next: 0, clear: false, started_saved: false }
    }
}

fn fail(st: &mut CollectState, e: Error) -> (a: CollectAction)
    ensures
        a == CollectAction::Finished(Err(e)),
        *final(st) == (CollectState { stage: CollectStage::Finished, ..*old(st) }),
{
    st.stage = CollectStage::Finished;
    CollectAction::Finished(Err(e))
}

/// Finds the next checkout, from the one at hand on, whose removal was
/// journaled but not recorded done; once there is none, observes.
fn recover_next(s: &WorkspaceSnapshot, st: &mut CollectState) -> (a: CollectAction)
    requires
        old(st).workspace < s.workspaces@.len(),
    ensures
        recovering_from(*s, old(st).workspace as int, old(st).next as int, *old(st), *final(st), a),
{
    let ws = st.workspace;
    let n = s.workspaces[ws].checkouts.len();
    let mut j = st.next;
    while j < n && !(s.workspaces[ws].checkouts[j].removal_started && !s.workspaces[ws].checkouts[j].removed)
        invariant
            ws < s.workspaces@.len(),
            n == s.workspaces@[ws as int].checkouts@.len(),
            old(st).next <= j,
            forall|q: int| old(st).next <= q < j ==> !pending(#[trigger] s.workspaces@[ws as int].checkouts@[q]),
        decreases n - j,
    {
        j = j + 1;
    }
    if j < n {
        st.next = j;
        st.stage = CollectStage::Recover;
        CollectAction::ProbeCheckout { path: s.workspaces[ws].checkouts[j].path.clone() }
    } else {
        st.stage = CollectStage::Preview;
        CollectAction::Observe { workspace: copy_workspace(&s.workspaces[ws]) }
    }
}

/// Finds the next checkout not yet removed and inspects again before
/// removing it; once every checkout is removed, writes the tombstone.
fn remove_next(s: &WorkspaceSnapshot, st: &mut CollectState) -> (a: CollectAction)
    requires
        old(st).workspace < s.workspaces@.len(),
    ensures
        removing_from(*s, old(st).workspace as int, old(st).next as int, *old(st), *final(st), a),
{
    let ws = st.workspace;
    let n = s.workspaces[ws].checkouts.len();
    let mut j = st.next;
    while j < n && s.workspaces[ws].checkouts[j].removed
        invariant
            ws < s.workspaces@.len(),
            n == s.workspaces@[ws as int].checkouts@.len(),
            old(st).next <= j,
            forall|q: int| old(st).next <= q < j ==> (#[trigger] s.workspaces@[ws as int].checkouts@[q]).removed,
        decreases n - j,
    {
        j = j + 1;
    }
    if j < n {
        st.next = j;
        st.stage = CollectStage::Recheck;
        CollectAction::Observe { workspace: copy_workspace(&s.workspaces[ws]) }
    } else if s.workspaces[ws].revision == u64::MAX {
        fail(st, Error::RevisionExhausted)
    } else {
        st.stage = CollectStage::Tombstone;
        CollectAction::WriteProjection { workspace: advanced(&s.workspaces[ws], WorkspacePhase::Removed) }
    }
}

/// Records that the checkout at hand is removed, advancing the journal
/// revision for the write that follows when that write comes next.
fn record_removed(s: &mut WorkspaceSnapshot, st: &mut CollectState, then: CollectStage) -> (a: CollectAction)
    requires
        old(st).workspace < old(s).workspaces@.len(),
        old(st).next < old(s).workspaces@[old(st).workspace as int].checkouts@.len(),
    ensures
        removal_recorded(*old(s), *final(s), *old(st), *final(st), a, then),
{
    let ws = st.workspace;
    let j = st.next;
    if then == CollectStage::RecoverySave {
        match bump_revision(s) {
            Err(e) => return fail(st, e),
            Ok(()) => {},
        }
    }
    mark_removed(s, ws, j);
    st.stage = then;
    if then == CollectStage::RecoverySave {
        CollectAction::SaveJournal
    } else {
        CollectAction::WriteProjection { workspace: copy_workspace(&s.workspaces[ws]) }
    }
}

/// An inspection finds a workspace collectable only once it is released or
/// being removed.
proof fn lemma_collectable_phase(w: ManagedWorkspace, now: i64, o: WorkspaceObservation, i: WorkspaceInspection)
    requires
        inspection_of(i, w, now, o),
    ensures
        i.collectable ==> retention_reasons(w, now, o).len() == 0,
        retention_reasons(w, now, o).len() == 0 ==> w.phase == WorkspacePhase::Released || w.phase
            == WorkspacePhase::Removing,
{
    let r = retention_reasons(w, now, o);
    let h = crate::inspect::workspace_reasons(w, now);
    assert(r == h + crate::inspect::checkouts_reasons(w, o.checkouts@, w.checkouts@.len()) + crate::inspect::content_reasons(w, o));
    if !(w.phase == WorkspacePhase::Released || w.phase == WorkspacePhase::Removing) {
        assert(h.len() > 0);
    }
}

/// What one step guarantees: the invariant kept, the transition taken, the
/// journal evolved by one step, and a run that ends is finished.
pub open spec fn collect_post(
    s0: WorkspaceSnapshot,
    s: WorkspaceSnapshot,
    st0: CollectState,
    st: CollectState,
    c: CollectWorkspace,
    ev: CollectEvent,
    a: CollectAction,
) -> bool {
    &&& collect_inv(s, st, c)
    &&& collect_transition(s0, s, st0, st, c, ev, a)
    &&& evolves(s0, s)
    &&& (a is Finished ==> st.stage == CollectStage::Finished)
}

/// Decides the next step of collecting `c` from what the last action
/// reported. A checkout whose removal was journaled but is gone from disk is
/// reconciled (its Git registration removed if still listed) and recorded,
/// not treated as missing content. Each inspection is made here, from what
/// was observed. Then, after a collectable inspection, the
/// workspace is journaled as removing; each checkout is inspected again right
/// before its removal, its removal start journaled, removed by Git only once
/// that write is reported, and recorded removed in the descriptor and the
/// journal. The tombstone descriptor and the removed phase come last. A
/// refusal leaves the journal as it was.
pub fn collect_step(s: &mut WorkspaceSnapshot, st: &mut CollectState, c: &CollectWorkspace, ev: CollectEvent) -> (a: CollectAction)
    requires
        collect_inv(*old(s), *old(st), *c),
    ensures
        collect_post(*old(s), *final(s), *old(st), *final(st), *c, ev, a),
{
    match ev {
        CollectEvent::Failed(e) => fail(st, e),
        CollectEvent::Start => {
            if st.stage != CollectStage::Begin {
                return fail(st, Error::UnexpectedEvent);
            }
            match collect_start(s, c) {
                Err(e) => fail(st, e),
                Ok(i) => {
                    st.workspace = i;
                    st.next = 0;
                    recover_next(s, st)
                },
            }
        },
        CollectEvent::Exists(exists) => {
            if st.stage != CollectStage::Recover {
                return fail(st, Error::UnexpectedEvent);
            }
            let ws = st.workspace;
            let j = st.next;
            if exists {
                let n = s.workspaces[ws].checkouts.len();
                assert(j < n);
                st.next = j + 1;
                recover_next(s, st)
            } else {
                match repo(s, s.workspaces[ws].checkouts[j].repository_id.as_str()) {
                    Err(e) => fail(st, e),
                    Ok(k) => {
                        st.stage = CollectStage::Listing;
                        CollectAction::ListWorktrees {
                            repository: s.repositories[k].path.clone(),
                            path: s.workspaces[ws].checkouts[j].path.clone(),
                        }
                    },
                }
            }
        },
        CollectEvent::Listing(listing) => {
            if st.stage != CollectStage::Listing {
                return fail(st, Error::UnexpectedEvent);
            }
            let ws = st.workspace;
            let j = st.next;
            if lists_worktree(listing.as_str(), s.workspaces[ws].checkouts[j].path.as_str()) {
                match repo(s, s.workspaces[ws].checkouts[j].repository_id.as_str()) {
                    Err(e) => fail(st, e),
                    Ok(k) => {
                        st.stage = CollectStage::Reconcile;
                        CollectAction::ReconcileRemoval {
                            repository: s.repositories[k].path.clone(),
                            path: s.workspaces[ws].checkouts[j].path.clone(),
                        }
                    },
                }
            } else {
                record_removed(s, st, CollectStage::RecoverySave)
            }
        },
        CollectEvent::Saved => {
            if st.stage == CollectStage::RecoverySave {
                let n = s.workspaces[st.workspace].checkouts.len();
                assert(st.next < n);
                st.next = st.next + 1;
                recover_next(s, st)
            } else if st.stage == CollectStage::PhaseSave {
                st.next = 0;
                remove_next(s, st)
            } else if st.stage == CollectStage::StartSave {
                let ws = st.workspace;
                let j = st.next;
                match repo(s, s.workspaces[ws].checkouts[j].repository_id.as_str()) {
                    Err(e) => fail(st, e),
                    Ok(k) => {
                        st.started_saved = true;
                        st.stage = CollectStage::Remove;
                        CollectAction::RemoveWorktree {
                            repository: s.repositories[k].path.clone(),
                            path: s.workspaces[ws].checkouts[j].path.clone(),
                        }
                    },
                }
            } else if st.stage == CollectStage::RemovedSave {
                st.clear = false;
                st.started_saved = false;
                let n = s.workspaces[st.workspace].checkouts.len();
                assert(st.next < n);
                st.next = st.next + 1;
                remove_next(s, st)
            } else {
                fail(st, Error::UnexpectedEvent)
            }
        },
        CollectEvent::Observed { now, observation } => {
            if st.stage != CollectStage::Preview && st.stage != CollectStage::Recheck {
                return fail(st, Error::UnexpectedEvent);
            }
            let ws = st.workspace;
            if observation.checkouts.len() != s.workspaces[ws].checkouts.len() {
                return fail(st, Error::UnexpectedEvent);
            }
            let inspection = inspect_workspace(&s.workspaces[ws], now, &observation);
            proof {
                lemma_collectable_phase(s.workspaces@[ws as int], now, observation, inspection);
            }
            match require_collectable(&inspection) {
                Err(e) => fail(st, e),
                Ok(()) => match bump_revision(s) {
                    Err(e) => fail(st, e),
                    Ok(()) => {
                        if st.stage == CollectStage::Preview {
                            set_phase(s, ws, WorkspacePhase::Removing);
                            st.stage = CollectStage::PhaseSave;
                        } else {
                            mark_removal_started(s, ws, st.next);
                            st.clear = true;
                            st.stage = CollectStage::StartSave;
                        }
                        CollectAction::SaveJournal
                    },
                },
            }
        },
        CollectEvent::Done => {
            if st.stage == CollectStage::Reconcile {
                record_removed(s, st, CollectStage::RecoverySave)
            } else if st.stage == CollectStage::Remove {
                record_removed(s, st, CollectStage::Checkpoint)
            } else if st.stage == CollectStage::Checkpoint {
                match bump_revision(s) {
                    Err(e) => fail(st, e),
                    Ok(()) => {
                        st.stage = CollectStage::RemovedSave;
                        CollectAction::SaveJournal
                    },
                }
            } else if st.stage == CollectStage::Tombstone {
                let ws = st.workspace;
                if s.workspaces[ws].revision == u64::MAX {
                    return fail(st, Error::RevisionExhausted);
                }
                let removed = advanced(&s.workspaces[ws], WorkspacePhase::Removed);
                put_workspace(s, ws, removed);
                st.stage = CollectStage::Finished;
                CollectAction::Finished(Ok(()))
            } else {
                fail(st, Error::UnexpectedEvent)
            }
        },
    }
}

} // verus!
