//! The content of a workspace outside its checkouts, the descriptor kept
//! beside them, and journal timestamps.
use vstd::prelude::*;
use vstd::string::*;
use crate::error::Error;
use crate::model::{ManagedWorkspace, WorkspaceCheckout};
use crate::path::{join, join_path};

verus! {

/// What an entry found under a workspace is.
#[derive(Clone, Copy, Debug, PartialEq, Eq, Structural)]
pub enum Entry {
    /// A registered checkout: Git accounts for it.
    Checkout,
    /// The workspace descriptor, to be compared with the journal.
    Projection,
    /// A directory to look into.
    Directory,
}

/// The entry at `path` is a checkout of `w` that is not removed.
pub open spec fn is_live_checkout(w: ManagedWorkspace, path: Seq<char>) -> bool {
    exists|i: int|
        0 <= i < w.checkouts@.len() && !(#[trigger] w.checkouts@[i]).removed && crate::path::same_path(
            w.checkouts@[i].path@,
            path,
        )
}

/// Classifies an entry found while walking a workspace. Only registered
/// checkouts, the descriptor and empty scaffolding may sit outside Git:
/// symbolic links and any other file are retained for inspection.
pub fn classify_entry(w: &ManagedWorkspace, path: &str, is_symlink: bool, is_dir: bool) -> (r: Result<Entry, Error>)
    ensures
        is_symlink ==> (r matches Err(Error::UnmanagedSymlink(p)) && p@ == path@),
        !is_symlink && is_live_checkout(*w, path@) ==> r == Ok::<Entry, Error>(Entry::Checkout),
        !is_symlink && !is_live_checkout(*w, path@) && crate::path::same_path(path@, join(w.path@, "workspace.pb"@))
            ==> r == Ok::<Entry, Error>(Entry::Projection),
        !is_symlink && !is_live_checkout(*w, path@) && !crate::path::same_path(path@, join(w.path@, "workspace.pb"@))
            ==> if is_dir {
            r == Ok::<Entry, Error>(Entry::Directory)
        } else {
            r matches Err(Error::UnmanagedContent(p)) && p@ == path@
        },
{
    if is_symlink {
        return Err(Error::UnmanagedSymlink(path.to_owned()));
    }
    let mut i: usize = 0;
    while i < w.checkouts.len()
        invariant
            !is_symlink,
            i <= w.checkouts@.len(),
            forall|j: int|
                0 <= j < i ==> !(!(#[trigger] w.checkouts@[j]).removed && crate::path::same_path(
                    w.checkouts@[j].path@,
                    path@,
                )),
        decreases w.checkouts@.len() - i,
    {
        if !w.checkouts[i].removed && crate::path::paths_equal(w.checkouts[i].path.as_str(), path) {
            return Ok(Entry::Checkout);
        }
        i = i + 1;
    }
    let descriptor = join_path(w.path.as_str(), "workspace.pb");
    if crate::path::paths_equal(path, descriptor.as_str()) {
        Ok(Entry::Projection)
    } else if is_dir {
        Ok(Entry::Directory)
    } else {
        Err(Error::UnmanagedContent(path.to_owned()))
    }
}

/// A checkout recorded in a descriptor matches the journal's.
pub open spec fn same_recorded_checkout(a: WorkspaceCheckout, b: WorkspaceCheckout) -> bool {
    &&& a.repository_id@ == b.repository_id@
    &&& a.path@ == b.path@
    &&& a.branch@ == b.branch@
    &&& a.base_commit@ == b.base_commit@
}

/// The descriptor still describes the journal's workspace: same ID, path
/// and checkouts (repository, path, branch and base).
pub open spec fn projection_matches(projected: ManagedWorkspace, w: ManagedWorkspace) -> bool {
    &&& projected.id@ == w.id@
    &&& projected.path@ == w.path@
    &&& projected.checkouts@.len() == w.checkouts@.len()
    &&& forall|i: int| 0 <= i < w.checkouts@.len() ==> #[trigger] same_recorded_checkout(projected.checkouts@[i], w.checkouts@[i])
}

/// The descriptor must be a regular file.
pub fn projection_is_file(is_file: bool) -> (r: Result<(), Error>)
    ensures
        r is Ok <==> is_file,
        r is Err ==> r == Err::<(), Error>(Error::ProjectionNotFile),
{
    if is_file {
        Ok(())
    } else {
        Err(Error::ProjectionNotFile)
    }
}

/// The descriptor must still describe the journal's workspace.
pub fn projection_verdict(w: &ManagedWorkspace, projected: &ManagedWorkspace) -> (r: Result<(), Error>)
    ensures
        r is Ok <==> projection_matches(*projected, *w),
        r is Err ==> r == Err::<(), Error>(Error::ProjectionModified),
{
    if !(projected.id == w.id && projected.path == w.path && projected.checkouts.len() == w.checkouts.len()) {
        return Err(Error::ProjectionModified);
    }
    let mut i: usize = 0;
    while i < w.checkouts.len()
        invariant
            projected.id@ == w.id@,
            projected.path@ == w.path@,
            i <= w.checkouts@.len(),
            projected.checkouts@.len() == w.checkouts@.len(),
            forall|j: int| 0 <= j < i ==> #[trigger] same_recorded_checkout(projected.checkouts@[j], w.checkouts@[j]),
        decreases w.checkouts@.len() - i,
    {
        let a = &projected.checkouts[i];
        let b = &w.checkouts[i];
        if !(a.repository_id == b.repository_id && a.path == b.path && a.branch == b.branch && a.base_commit
            == b.base_commit) {
            assert(!same_recorded_checkout(projected.checkouts@[i as int], w.checkouts@[i as int]));
            return Err(Error::ProjectionModified);
        }
        i = i + 1;
    }
    Ok(())
}

/// Seconds since the epoch as the journal records them: 0 when the clock is
/// before the epoch, saturated at the largest timestamp.
pub fn timestamp(elapsed: Option<u64>) -> (r: i64)
    ensures
        elapsed is None ==> r == 0,
        elapsed matches Some(e) ==> r == (if e <= i64::MAX { e as i64 } else { i64::MAX }),
{
    match elapsed {
        None => 0,
        Some(e) => if e <= i64::MAX as u64 {
            e as i64
        } else {
            i64::MAX
        },
    }
}

} // verus!
