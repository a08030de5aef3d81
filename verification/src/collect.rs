//! Collection: removing the checkouts of a released workspace, one journaled
//! step at a time, and keeping its descriptor as a tombstone.
use vstd::prelude::*;
use vstd::string::*;
use crate::catalog::{ws_index, workspace_position, same_but_workspaces};
use crate::error::Error;
use crate::model::{CollectWorkspace, ManagedWorkspace, WorkspaceCheckout, WorkspaceInspection, WorkspacePhase, WorkspaceSnapshot};
use crate::seqs::views;

verus! {

/// Finds the workspace to collect; the caller must have seen its current
/// revision.
pub fn collect_start(s: &WorkspaceSnapshot, c: &CollectWorkspace) -> (r: Result<usize, Error>)
    ensures
        ({
            let k = ws_index(*s, c.workspace_id@);
            if k < 0 {
                r == Err::<usize, Error>(Error::UnknownWorkspace)
            } else if s.workspaces@[k].revision != c.expected_revision {
                r == Err::<usize, Error>(Error::WorkspaceRevisionChanged)
            } else {
                r matches Ok(i) && i as int == k
            }
        }),
{
    let k = match workspace_position(s, c.workspace_id.as_str()) {
        Ok(k) => k,
        Err(e) => return Err(e),
    };
    if s.workspaces[k].revision != c.expected_revision {
        return Err(Error::WorkspaceRevisionChanged);
    }
    Ok(k)
}

/// A checkout whose removal was journaled, is not yet recorded removed, and
/// is gone from disk: Git removed it before the journal caught up.
pub fn needs_recovery(c: &WorkspaceCheckout, exists: bool) -> (r: bool)
    ensures
        r == (c.removal_started && !c.removed && !exists),
{
    c.removal_started && !c.removed && !exists
}

/// The workspace with checkout `j` replaced.
pub open spec fn with_checkout(w: ManagedWorkspace, nw: ManagedWorkspace, j: int, c: WorkspaceCheckout) -> bool {
    &&& nw == ManagedWorkspace { checkouts: nw.checkouts, ..w }
    &&& nw.checkouts@ == w.checkouts@.update(j, c)
}

/// Records that checkout `j` of workspace `i` is removed.
pub fn mark_removed(s: &mut WorkspaceSnapshot, i: usize, j: usize)
    requires
        i < old(s).workspaces@.len(),
        j < old(s).workspaces@[i as int].checkouts@.len(),
    ensures
        final(s).workspaces@.len() == old(s).workspaces@.len(),
        final(s).workspaces@ == old(s).workspaces@.update(i as int, final(s).workspaces@[i as int]),
        with_checkout(
            old(s).workspaces@[i as int],
            final(s).workspaces@[i as int],
            j as int,
            WorkspaceCheckout { removed: true, ..old(s).workspaces@[i as int].checkouts@[j as int] },
        ),
        same_but_workspaces(*final(s), *old(s)),
{
    s.workspaces[i].checkouts[j].removed = true;
}

/// Records, before Git runs, that checkout `j` of workspace `i` is being
/// removed.
pub fn mark_removal_started(s: &mut WorkspaceSnapshot, i: usize, j: usize)
    requires
        i < old(s).workspaces@.len(),
        j < old(s).workspaces@[i as int].checkouts@.len(),
    ensures
        final(s).workspaces@.len() == old(s).workspaces@.len(),
        final(s).workspaces@ == old(s).workspaces@.update(i as int, final(s).workspaces@[i as int]),
        with_checkout(
            old(s).workspaces@[i as int],
            final(s).workspaces@[i as int],
            j as int,
            WorkspaceCheckout { removal_started: true, ..old(s).workspaces@[i as int].checkouts@[j as int] },
        ),
        same_but_workspaces(*final(s), *old(s)),
{
    s.workspaces[i].checkouts[j].removal_started = true;
}

/// Moves workspace `i` to `phase` without a revision change.
pub fn set_phase(s: &mut WorkspaceSnapshot, i: usize, phase: WorkspacePhase)
    requires
        i < old(s).workspaces@.len(),
    ensures
        final(s).workspaces@ == old(s).workspaces@.update(
            i as int,
            ManagedWorkspace { phase, ..old(s).workspaces@[i as int] },
        ),
        same_but_workspaces(*final(s), *old(s)),
{
    s.workspaces[i].phase = phase;
}

/// The pieces joined with a separator between each two.
pub open spec fn joined(v: Seq<Seq<char>>, sep: Seq<char>) -> Seq<char>
    decreases v.len(),
{
    if v.len() == 0 {
        seq![]
    } else if v.len() == 1 {
        v[0]
    } else {
        joined(v.drop_last(), sep) + sep + v.last()
    }
}

/// Joins strings with a separator, as `[String]::join` does.
pub fn join_strings(v: &Vec<String>, sep: &str) -> (r: String)
    ensures
        r@ == joined(views(v@), sep@),
{
    let mut r = String::new();
    let mut i: usize = 0;
    while i < v.len()
        invariant
            i <= v.len(),
            r@ == joined(views(v@).subrange(0, i as int), sep@),
        decreases v.len() - i,
    {
        proof {
            assert(views(v@).subrange(0, (i + 1) as int).drop_last() =~= views(v@).subrange(0, i as int));
        }
        if i == 0 {
            r = r.concat(v[i].as_str());
            assert(r@ =~= joined(views(v@).subrange(0, 1), sep@));
        } else {
            r = r.concat(sep).concat(v[i].as_str());
        }
        i = i + 1;
    }
    assert(views(v@).subrange(0, v@.len() as int) =~= views(v@));
    r
}

/// Collection proceeds only when the inspection found nothing to retain;
/// otherwise every reason is reported, separated by `; `.
pub fn require_collectable(inspection: &WorkspaceInspection) -> (r: Result<(), Error>)
    ensures
        inspection.collectable ==> r is Ok,
        !inspection.collectable ==> (r matches Err(Error::CollectionBlocked(m)) && m@ == joined(
            views(inspection.retention_reasons@),
            "; "@,
        )),
{
    if inspection.collectable {
        Ok(())
    } else {
        Err(Error::CollectionBlocked(join_strings(&inspection.retention_reasons, "; ")))
    }
}

} // verus!
