//! Verifying an existing linked checkout as a sequence of steps: it must
//! still be rooted where it was recorded, be a linked worktree of the
//! registered repository, have its task branch checked out, and be
//! registered with Git and not locked.
use vstd::prelude::*;
use vstd::string::*;
use crate::error::Error;
use crate::git::{blocks, checkout_branch, checkout_root, linked_checkout, locked, registers, shared_repository, worktree_registration};
use crate::model::{Repository, WorkspaceCheckout};
use crate::path::{join, join_path};
use crate::seqs::first_index;

verus! {

/// Where a verification is.
#[derive(Clone, Copy, Debug, PartialEq, Eq, Structural)]
pub enum VerifyStage {
    Begin,
    /// Waiting for the checkout's top level.
    Toplevel,
    /// Waiting to hear whether the checkout's `.git` is a file.
    GitFile,
    /// Waiting to hear whether the checkout shares the repository's Git directory.
    GitDir,
    /// Waiting for the branch checked out.
    Branch,
    /// Waiting for the repository's worktree listing.
    Listing,
    Finished,
}

/// What Git and the file system reported for the last action.
pub enum VerifyEvent {
    Start,
    /// Text reported by Git.
    Text(String),
    /// The answer to a yes-or-no question.
    Is(bool),
    Failed(Error),
}

/// The next thing to do.
pub enum VerifyAction {
    /// Check that the checkout and its `.git` are safe paths and report
    /// `git rev-parse --show-toplevel` in the checkout.
    ShowToplevel { path: String, git: String },
    /// Check that the repository is a safe path and report whether the
    /// checkout's `.git` is a file.
    ProbeGitFile { repository: String, git: String },
    /// Report whether `git rev-parse --path-format=absolute --git-common-dir`
    /// in the checkout and the repository's `.git` are the same directory.
    CompareGitDirs { checkout: String, repository_git: String },
    /// Report `git symbolic-ref --short HEAD` in the checkout.
    ReadBranch { path: String },
    /// Report `git worktree list --porcelain` in the repository.
    ListWorktrees { repository: String },
    /// The checkout is verified, or why not.
    Finished(Result<(), Error>),
}

/// One step of verifying checkout `c` of repository `r`, exactly.
pub open spec fn verify_transition(
    r: Repository,
    c: WorkspaceCheckout,
    g0: VerifyStage,
    g: VerifyStage,
    ev: VerifyEvent,
    a: VerifyAction,
) -> bool {
    let ends = |res: Result<(), Error>| a == VerifyAction::Finished(res) && g == VerifyStage::Finished;
    let unexpected = ends(Err(Error::UnexpectedEvent));
    match ev {
        VerifyEvent::Failed(e) => ends(Err(e)),
        VerifyEvent::Start => if g0 != VerifyStage::Begin {
            unexpected
        } else {
            &&& g == VerifyStage::Toplevel
            &&& a matches VerifyAction::ShowToplevel { path, git } && path == c.path && git@ == join(c.path@, ".git"@)
        },
        VerifyEvent::Text(t) => if g0 == VerifyStage::Toplevel {
            if t@ != c.path@ {
                ends(Err(Error::CheckoutRootChanged))
            } else {
                &&& g == VerifyStage::GitFile
                &&& a matches VerifyAction::ProbeGitFile { repository, git } && repository == r.path && git@ == join(
                    c.path@,
                    ".git"@,
                )
            }
        } else if g0 == VerifyStage::Branch {
            if t@ != c.branch@ {
                ends(Err(Error::BranchChanged))
            } else {
                g == VerifyStage::Listing && a == VerifyAction::ListWorktrees { repository: r.path }
            }
        } else if g0 == VerifyStage::Listing {
            let i = first_index(blocks(t@), registers(c.path@));
            if i < 0 {
                ends(Err(Error::NotRegistered))
            } else if locked(blocks(t@)[i]) {
                ends(Err(Error::WorktreeLocked))
            } else {
                ends(Ok(()))
            }
        } else {
            unexpected
        },
        VerifyEvent::Is(b) => if g0 == VerifyStage::GitFile {
            if !b {
                ends(Err(Error::LinkedCheckoutMissing))
            } else {
                &&& g == VerifyStage::GitDir
                &&& a matches VerifyAction::CompareGitDirs { checkout, repository_git } && checkout == c.path
                    && repository_git@ == join(r.path@, ".git"@)
            }
        } else if g0 == VerifyStage::GitDir {
            if !b {
                ends(Err(Error::DifferentRepository))
            } else {
                g == VerifyStage::Branch && a == VerifyAction::ReadBranch { path: c.path }
            }
        } else {
            unexpected
        },
    }
}

/// Decides the next step of verifying checkout `c` of repository `r` from
/// what the last action reported: its top level, then its `.git` file, then
/// its Git directory, then its branch, then its registration, each refused
/// with its own error.
pub fn verify_step(r: &Repository, c: &WorkspaceCheckout, g: &mut VerifyStage, ev: VerifyEvent) -> (a: VerifyAction)
    ensures
        verify_transition(*r, *c, *old(g), *final(g), ev, a),
{
    let stage = *g;
    *g = VerifyStage::Finished;
    match ev {
        VerifyEvent::Failed(e) => VerifyAction::Finished(Err(e)),
        VerifyEvent::Start => {
            if stage != VerifyStage::Begin {
                return VerifyAction::Finished(Err(Error::UnexpectedEvent));
            }
            *g = VerifyStage::Toplevel;
            VerifyAction::ShowToplevel { path: c.path.clone(), git: join_path(c.path.as_str(), ".git") }
        },
        VerifyEvent::Text(t) => {
            if stage == VerifyStage::Toplevel {
                match checkout_root(c, t.as_str()) {
                    Err(e) => VerifyAction::Finished(Err(e)),
                    Ok(()) => {
                        *g = VerifyStage::GitFile;
                        VerifyAction::ProbeGitFile { repository: r.path.clone(), git: join_path(c.path.as_str(), ".git") }
                    },
                }
            } else if stage == VerifyStage::Branch {
                match checkout_branch(c, t.as_str()) {
                    Err(e) => VerifyAction::Finished(Err(e)),
                    Ok(()) => {
                        *g = VerifyStage::Listing;
                        VerifyAction::ListWorktrees { repository: r.path.clone() }
                    },
                }
            } else if stage == VerifyStage::Listing {
                match worktree_registration(t.as_str(), c.path.as_str()) {
                    Err(e) => VerifyAction::Finished(Err(e)),
                    Ok(()) => VerifyAction::Finished(Ok(())),
                }
            } else {
                VerifyAction::Finished(Err(Error::UnexpectedEvent))
            }
        },
        VerifyEvent::Is(b) => {
            if stage == VerifyStage::GitFile {
                match linked_checkout(b) {
                    Err(e) => VerifyAction::Finished(Err(e)),
                    Ok(()) => {
                        *g = VerifyStage::GitDir;
                        VerifyAction::CompareGitDirs {
                            checkout: c.path.clone(),
                            repository_git: join_path(r.path.as_str(), ".git"),
                        }
                    },
                }
            } else if stage == VerifyStage::GitDir {
                match shared_repository(b) {
                    Err(e) => VerifyAction::Finished(Err(e)),
                    Ok(()) => {
                        *g = VerifyStage::Branch;
                        VerifyAction::ReadBranch { path: c.path.clone() }
                    },
                }
            } else {
                VerifyAction::Finished(Err(Error::UnexpectedEvent))
            }
        },
    }
}

} // verus!
