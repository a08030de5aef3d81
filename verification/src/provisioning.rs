//! Provisioning as a sequence of steps. The library decides every next step
//! from what Git and the file system reported for the previous one: each
//! input is pinned to a commit and its branch reserved, the plan is journaled,
//! and only then are worktrees added.
use vstd::prelude::*;
use vstd::string::*;
use crate::catalog::{evolves, project_index, repo, repo_index, same_but_workspaces, ws_index};
use crate::copy::{copy_checkout, copy_checkouts, copy_repository, same_workspace};
use crate::error::Error;
use crate::git::{branch_name, branch_ref};
use crate::journal::bump_revision;
use crate::model::{ManagedWorkspace, ProvisionWorkspace, Repository, WorkspaceCheckout, WorkspacePhase, WorkspaceSnapshot};
use crate::path::join;
use crate::provision::{
    advanced, branch_free, checkout_path, plan_checkout, provision_refusal, provision_start, provisioned,
    put_workspace, record_provision, reserved_branch, resumed_checkout, workspace_path_free, ProvisionStart,
};
use crate::seqs::{lemma_first_index_meaning, views};
use crate::store::{scaffold_dirs, Store};
use crate::text::valid_token;

verus! {

/// Where a provisioning run is.
#[derive(Clone, Copy, Debug, PartialEq, Eq, Structural)]
pub enum ProvisionStage {
    /// Nothing done yet.
    Begin,
    /// Waiting to hear whether the new workspace's directory exists.
    Volume,
    /// Waiting for the current input's base to resolve to a commit.
    Base,
    /// Waiting to hear whether the current input's task branch exists.
    Branch,
    /// Waiting for the journal holding the recorded plan to be written.
    Save,
    /// Waiting for the scaffolding to be made.
    Scaffold,
    /// Waiting to hear whether the current checkout exists.
    Probe,
    /// Waiting for what an existing checkout holds.
    Verify,
    /// Waiting to hear whether the current checkout's reserved branch exists.
    Reserve,
    /// Waiting for the current worktree to be added.
    Worktree,
    /// Waiting for the ready descriptor to be written.
    Projection,
    /// Done, successfully or not.
    Finished,
}

/// What a provisioning run knows between steps.
pub struct ProvisionState {
    pub stage: ProvisionStage,
    /// Where a new workspace goes.
    pub path: String,
    /// When a new workspace is recorded as created.
    pub now: i64,
    /// The project of a new workspace.
    pub project: usize,
    /// The input (while planning) or checkout (while materializing) at hand.
    pub next: usize,
    /// The checkouts planned so far, each pinned to its resolved base.
    pub planned: Vec<WorkspaceCheckout>,
    pub repository_id: String,
    pub repository_path: String,
    pub destination: String,
    pub branch: String,
    pub base: String,
    /// The workspace's position in the journal once recorded or resumed.
    pub workspace: usize,
    /// The journal holding the workspace's plan has been written.
    pub journaled: bool,
    /// The run resumes an interrupted provisioning.
    pub resuming: bool,
}

/// What Git and the file system reported for the last action.
pub enum ProvisionEvent {
    /// The run begins.
    Start,
    /// Whether the probed path exists.
    Exists(bool),
    /// The commit a revision resolved to.
    Resolved(String),
    /// The commit a branch points at, or none when it does not exist.
    Branch(Option<String>),
    /// The journal was written.
    Saved,
    /// The requested change was made.
    Done,
    /// An existing checkout's `HEAD` commit and its
    /// `git status --porcelain --untracked-files=all --ignored` output.
    Observed { head: String, status: String },
    /// The action failed.
    Failed(Error),
}

/// The next thing to do.
pub enum ProvisionAction {
    /// Prepare the managed volume, check that `path` is safe and report
    /// whether it exists.
    PrepareVolume { path: String },
    /// Check that the repository and the destination are safe paths and
    /// resolve `revision` in the repository to a commit.
    ResolveBase { repository: String, revision: String, destination: String },
    /// Resolve `reference` in the repository, if it exists.
    ProbeBranch { repository: String, reference: String },
    /// Write the journal as it now stands.
    SaveJournal,
    /// Check that the workspace directory is safe and make these directories.
    MakeDirectories { workspace: String, paths: Vec<String> },
    /// Check that the repository and the checkout are safe paths and report
    /// whether the checkout exists.
    ProbeCheckout { repository: String, path: String },
    /// Verify that the existing checkout is this repository's registered,
    /// unlocked linked worktree on its branch, and report what it holds.
    VerifyCheckout { repository: Repository, checkout: WorkspaceCheckout },
    /// `git worktree add`: with `create_from`, `-b <branch> <path> <base>`;
    /// without, `<path> <branch>` on the existing branch.
    AddWorktree { repository: String, path: String, branch: String, create_from: Option<String> },
    /// Write the workspace descriptor.
    WriteProjection { workspace: ManagedWorkspace },
    /// The run is over.
    Finished(Result<(), Error>),
}

/// The stages in which the plan is still being made.
pub open spec fn planning(g: ProvisionStage) -> bool {
    g == ProvisionStage::Volume || g == ProvisionStage::Base || g == ProvisionStage::Branch || g
        == ProvisionStage::Save
}

/// The stages in which the journaled plan is being carried out.
pub open spec fn materializing(g: ProvisionStage) -> bool {
    g == ProvisionStage::Scaffold || g == ProvisionStage::Probe || g == ProvisionStage::Verify || g
        == ProvisionStage::Reserve || g == ProvisionStage::Worktree || g == ProvisionStage::Projection
}

/// Checkout `x` is the plan for input `q` of `p` in a workspace at `path`:
/// the input's ready repository, its place under `src`, its task branch.
pub open spec fn planned_fits(s: WorkspaceSnapshot, p: ProvisionWorkspace, path: Seq<char>, x: WorkspaceCheckout, q: int) -> bool {
    let id = p.inputs@[q].repository_id@;
    let ri = repo_index(s, id);
    &&& ri >= 0
    &&& x.repository_id@ == id
    &&& x.path@ == checkout_path(path, s.repositories@[ri])
    &&& x.branch@ == branch_name(p.id@, id)
    &&& !x.removed
    &&& !x.removal_started
}

/// Every checkout planned so far fits its input.
pub open spec fn plan_fits(s: WorkspaceSnapshot, p: ProvisionWorkspace, path: Seq<char>, planned: Seq<WorkspaceCheckout>) -> bool {
    &&& planned.len() <= p.inputs@.len()
    &&& forall|q: int| 0 <= q < planned.len() ==> #[trigger] planned_fits(s, p, path, planned[q], q)
}

/// What holds between the steps of a run for request `p` on journal `s`.
pub open spec fn provision_inv(s: WorkspaceSnapshot, st: ProvisionState, p: ProvisionWorkspace) -> bool {
    let w = s.workspaces@[st.workspace as int];
    let current = WorkspaceCheckout {
        repository_id: st.repository_id,
        path: st.destination,
        base_commit: st.base,
        branch: st.branch,
        removed: false,
        removal_started: false,
    };
    &&& st.stage == ProvisionStage::Begin ==> !st.journaled && !st.resuming
    &&& planning(st.stage) ==> !st.journaled && !st.resuming
    &&& materializing(st.stage) ==> st.journaled
    &&& (st.stage == ProvisionStage::Base || st.stage == ProvisionStage::Branch) ==> {
        &&& st.next < p.inputs@.len()
        &&& st.planned@.len() == st.next
        &&& plan_fits(s, p, st.path@, st.planned@)
        &&& planned_fits(s, p, st.path@, current, st.next as int)
        &&& st.repository_path == s.repositories@[repo_index(s, p.inputs@[st.next as int].repository_id@)].path
    }
    &&& (st.stage == ProvisionStage::Save || materializing(st.stage)) ==> st.workspace < s.workspaces@.len()
        && w.id@ == p.id@ && w.phase == WorkspacePhase::Provisioning
    &&& st.stage == ProvisionStage::Save ==> {
        &&& w.path == st.path
        &&& w.checkouts@ == st.planned@
        &&& st.planned@.len() == p.inputs@.len()
        &&& plan_fits(s, p, st.path@, st.planned@)
    }
}

/// The run stops with `e`, the journal as it was.
pub open spec fn stopped(s0: WorkspaceSnapshot, s: WorkspaceSnapshot, st: ProvisionState, a: ProvisionAction, e: Error) -> bool {
    a == ProvisionAction::Finished(Err(e)) && s == s0 && st.stage == ProvisionStage::Finished
}

/// The scaffolding of the workspace at `path` is asked for.
pub open spec fn scaffolding(path: String, a: ProvisionAction) -> bool {
    a matches ProvisionAction::MakeDirectories { workspace, paths } && workspace == path && paths@.len() == 3
        && paths@[0]@ == join(path@, "src"@) && paths@[1]@ == join(path@, "run"@) && paths@[2]@ == join(
        path@,
        "out"@,
    )
}

/// Planning from input `j` on, with `planned` the checkouts planned before
/// it: the input's repository must be a ready member of the project and its
/// base is resolved next; once every input is planned, the workspace is
/// recorded provisioning with the plan and the journal written.
pub open spec fn plan_outcome(
    s0: WorkspaceSnapshot,
    s: WorkspaceSnapshot,
    st0: ProvisionState,
    j: int,
    planned: Seq<WorkspaceCheckout>,
    st: ProvisionState,
    p: ProvisionWorkspace,
    a: ProvisionAction,
) -> bool {
    let k = st0.project as int;
    if k >= s0.projects@.len() {
        stopped(s0, s, st, a, Error::UnexpectedEvent)
    } else if j < p.inputs@.len() {
        let id = p.inputs@[j].repository_id@;
        let ri = repo_index(s0, id);
        if !views(s0.projects@[k].repository_ids@).contains(id) {
            stopped(s0, s, st, a, Error::NotProjectMember)
        } else if ri < 0 {
            stopped(s0, s, st, a, Error::UnknownRepository)
        } else {
            let r = s0.repositories@[ri];
            &&& s == s0
            &&& st.next as int == j
            &&& st == (ProvisionState {
                stage: ProvisionStage::Base,
                next: st.next,
                planned: st.planned,
                repository_id: r.id,
                repository_path: r.path,
                destination: st.destination,
                branch: st.branch,
                ..st0
            })
            &&& st.planned@ == planned
            &&& st.destination@ == checkout_path(st0.path@, r)
            &&& st.branch@ == branch_name(p.id@, r.id@)
            &&& a == ProvisionAction::ResolveBase {
                repository: r.path,
                revision: p.inputs@[j].base_revision,
                destination: st.destination,
            }
        }
    } else if s0.revision == u64::MAX {
        stopped(s0, s, st, a, Error::RevisionExhausted)
    } else {
        let i = s0.workspaces@.len() as int;
        let nw = s.workspaces@[i];
        &&& a == ProvisionAction::SaveJournal
        &&& s.workspaces@ == s0.workspaces@.push(nw)
        &&& same_but_workspaces(s, WorkspaceSnapshot { revision: (s0.revision + 1) as u64, ..s0 })
        &&& provisioned(nw, p, s0.projects@[k], st0.path, nw.checkouts, st0.now)
        &&& nw.checkouts@ == planned
        &&& st.workspace as int == i
        &&& st.next as int == j
        &&& st == (ProvisionState {
            stage: ProvisionStage::Save,
            workspace: st.workspace,
            next: st.next,
            planned: st.planned,
            ..st0
        })
        &&& st.planned@ == planned
    }
}

/// Taking up checkout `st0.next` of the recorded workspace: its repository
/// must be ready and the checkout is probed; once every checkout is in
/// place, the ready descriptor (one revision later) is written.
pub open spec fn probe_outcome(s: WorkspaceSnapshot, st0: ProvisionState, st: ProvisionState, a: ProvisionAction) -> bool {
    let w = s.workspaces@[st0.workspace as int];
    let j = st0.next as int;
    if j < w.checkouts@.len() {
        let ri = repo_index(s, w.checkouts@[j].repository_id@);
        if ri < 0 {
            a == ProvisionAction::Finished(Err(Error::UnknownRepository)) && st.stage == ProvisionStage::Finished
        } else {
            &&& st == (ProvisionState { stage: ProvisionStage::Probe, ..st0 })
            &&& a == ProvisionAction::ProbeCheckout { repository: s.repositories@[ri].path, path: w.checkouts@[j].path }
        }
    } else if w.revision == u64::MAX {
        a == ProvisionAction::Finished(Err(Error::RevisionExhausted)) && st.stage == ProvisionStage::Finished
    } else {
        &&& st == (ProvisionState { stage: ProvisionStage::Projection, ..st0 })
        &&& a matches ProvisionAction::WriteProjection { workspace } && same_workspace(
            workspace,
            ManagedWorkspace { phase: WorkspacePhase::Ready, revision: (w.revision + 1) as u64, ..w },
        )
    }
}

/// One step of provisioning `p`, exactly: what each report leads to at each
/// stage.
pub open spec fn provision_transition(
    s0: WorkspaceSnapshot,
    s: WorkspaceSnapshot,
    st0: ProvisionState,
    st: ProvisionState,
    p: ProvisionWorkspace,
    ev: ProvisionEvent,
    a: ProvisionAction,
) -> bool {
    let ws = st0.workspace as int;
    let w = s0.workspaces@[ws];
    let j = st0.next as int;
    let c = w.checkouts@[j];
    let ri = repo_index(s0, c.repository_id@);
    let unexpected = stopped(s0, s, st, a, Error::UnexpectedEvent);
    let no_checkout = j >= w.checkouts@.len() || ri < 0;
    let lost = if j >= w.checkouts@.len() {
        unexpected
    } else {
        stopped(s0, s, st, a, Error::UnknownRepository)
    };
    match ev {
        ProvisionEvent::Failed(e) => stopped(s0, s, st, a, e),
        ProvisionEvent::Start => if st0.stage != ProvisionStage::Begin {
            unexpected
        } else if !valid_token(p.id@) {
            &&& s == s0
            &&& st.stage == ProvisionStage::Finished
            &&& a matches ProvisionAction::Finished(Err(Error::InvalidComponent(t)))
            &&& t@ == p.id@
        } else {
            match provision_refusal(s0, p) {
                Some(e) => stopped(s0, s, st, a, e),
                None => {
                    let i = ws_index(s0, p.id@);
                    &&& s == s0
                    &&& if i >= 0 {
                        &&& st == (ProvisionState {
                            stage: ProvisionStage::Scaffold,
                            workspace: i as usize,
                            journaled: true,
                            resuming: true,
                            next: 0,
                            ..st0
                        })
                        &&& scaffolding(s0.workspaces@[i].path, a)
                    } else {
                        &&& st == (ProvisionState {
                            stage: ProvisionStage::Volume,
                            project: project_index(s0, p.project_id@) as usize,
                            ..st0
                        })
                        &&& a == ProvisionAction::PrepareVolume { path: st0.path }
                    }
                },
            }
        },
        ProvisionEvent::Exists(b) => if st0.stage == ProvisionStage::Volume {
            if b {
                stopped(s0, s, st, a, Error::WorkspacePathExists)
            } else {
                plan_outcome(s0, s, st0, 0, Seq::empty(), st, p, a)
            }
        } else if st0.stage == ProvisionStage::Probe {
            if no_checkout {
                lost
            } else if b {
                &&& s == s0
                &&& st == (ProvisionState { stage: ProvisionStage::Verify, ..st0 })
                &&& a == ProvisionAction::VerifyCheckout { repository: s0.repositories@[ri], checkout: c }
            } else {
                &&& s == s0
                &&& st == (ProvisionState { stage: ProvisionStage::Reserve, ..st0 })
                &&& a matches ProvisionAction::ProbeBranch { repository, reference } && repository
                    == s0.repositories@[ri].path && reference@ == "refs/heads/"@ + c.branch@
            }
        } else {
            unexpected
        },
        ProvisionEvent::Resolved(commit) => if st0.stage != ProvisionStage::Base {
            unexpected
        } else {
            &&& s == s0
            &&& st == (ProvisionState { stage: ProvisionStage::Branch, base: commit, ..st0 })
            &&& a matches ProvisionAction::ProbeBranch { repository, reference } && repository == st0.repository_path
                && reference@ == "refs/heads/"@ + st0.branch@
        },
        ProvisionEvent::Branch(found) => if st0.stage == ProvisionStage::Branch {
            if j >= p.inputs@.len() {
                unexpected
            } else if found is Some {
                stopped(s0, s, st, a, Error::BranchExists)
            } else {
                plan_outcome(
                    s0,
                    s,
                    st0,
                    j + 1,
                    st0.planned@.push(
                        WorkspaceCheckout {
                            repository_id: st0.repository_id,
                            path: st0.destination,
                            base_commit: st0.base,
                            branch: st0.branch,
                            removed: false,
                            removal_started: false,
                        },
                    ),
                    st,
                    p,
                    a,
                )
            }
        } else if st0.stage == ProvisionStage::Reserve {
            if no_checkout {
                lost
            } else if found matches Some(e) && e@ != c.base_commit@ {
                stopped(s0, s, st, a, Error::ReservedBranchAdvanced)
            } else {
                &&& s == s0
                &&& st == (ProvisionState { stage: ProvisionStage::Worktree, ..st0 })
                &&& a == ProvisionAction::AddWorktree {
                    repository: s0.repositories@[ri].path,
                    path: c.path,
                    branch: c.branch,
                    create_from: if found is None {
                        Some(c.base_commit)
                    } else {
                        None
                    },
                }
            }
        } else {
            unexpected
        },
        ProvisionEvent::Saved => if st0.stage != ProvisionStage::Save {
            unexpected
        } else {
            &&& s == s0
            &&& st == (ProvisionState { stage: ProvisionStage::Scaffold, journaled: true, next: 0, ..st0 })
            &&& scaffolding(w.path, a)
        },
        ProvisionEvent::Observed { head, status } => if st0.stage != ProvisionStage::Verify {
            unexpected
        } else if no_checkout {
            lost
        } else if head@ != c.base_commit@ {
            stopped(s0, s, st, a, Error::CheckoutAdvanced)
        } else if status@.len() > 0 {
            stopped(s0, s, st, a, Error::CheckoutHasLocalFiles)
        } else {
            s == s0 && probe_outcome(s0, ProvisionState { next: (j + 1) as usize, ..st0 }, st, a)
        },
        ProvisionEvent::Done => if st0.stage == ProvisionStage::Scaffold {
            s == s0 && probe_outcome(s0, st0, st, a)
        } else if st0.stage == ProvisionStage::Worktree {
            if no_checkout {
                lost
            } else {
                s == s0 && probe_outcome(s0, ProvisionState { next: (j + 1) as usize, ..st0 }, st, a)
            }
        } else if st0.stage == ProvisionStage::Projection {
            if w.revision == u64::MAX {
                stopped(s0, s, st, a, Error::RevisionExhausted)
            } else {
                &&& a == ProvisionAction::Finished(Ok(()))
                &&& st.stage == ProvisionStage::Finished
                &&& s.workspaces@ == s0.workspaces@.update(ws, s.workspaces@[ws])
                &&& same_workspace(
                    s.workspaces@[ws],
                    ManagedWorkspace { phase: WorkspacePhase::Ready, revision: (w.revision + 1) as u64, ..w },
                )
                &&& same_but_workspaces(s, s0)
            }
        } else {
            unexpected
        },
    }
}

/// What one step guarantees: the invariant kept, the transition taken, the
/// journal evolved by one step, and a run that ends is finished.
pub open spec fn provision_post(
    s0: WorkspaceSnapshot,
    s: WorkspaceSnapshot,
    st0: ProvisionState,
    st: ProvisionState,
    p: ProvisionWorkspace,
    ev: ProvisionEvent,
    a: ProvisionAction,
) -> bool {
    &&& provision_inv(s, st, p)
    &&& provision_transition(s0, s, st0, st, p, ev, a)
    &&& evolves(s0, s)
    &&& (a is Finished ==> st.stage == ProvisionStage::Finished)
}

impl ProvisionState {
    /// A run that has done nothing yet; a new workspace for `p` goes to
    /// `<root>/workspaces/<id>` and is recorded as created at `now`.
    pub fn new(store: &Store, p: &ProvisionWorkspace, now: i64) -> (st: ProvisionState)
        ensures
            st.stage == ProvisionStage::Begin,
            !st.journaled,
            !st.resuming,
            st.path@ == join(join(store.root@, "workspaces"@), p.id@),
            st.now == now,
            st.planned@.len() == 0,
    {
        ProvisionState {
            stage: ProvisionStage::Begin,
            path: store.workspace_dir(p.id.as_str()),
            now,
            project: 0,
            next: 0,
            planned: Vec::new(),
            repository_id: String::new(),
            repository_path: String::new(),
            destination: String::new(),
            branch: String::new(),
            base: String::new(),
            workspace: 0,
            journaled: false,
            resuming: false,
        }
    }
}

fn fail(st: &mut ProvisionState, e: Error) -> (a: ProvisionAction)
    ensures
        a == ProvisionAction::Finished(Err(e)),
        *final(st) == (ProvisionState { stage: ProvisionStage::Finished, ..*old(st) }),
{
    st.stage = ProvisionStage::Finished;
    ProvisionAction::Finished(Err(e))
}

/// Plans the input at hand, or records the plan once every input is pinned.
fn plan_next(s: &mut WorkspaceSnapshot, st: &mut ProvisionState, p: &ProvisionWorkspace) -> (a: ProvisionAction)
    ensures
        plan_outcome(*old(s), *final(s), *old(st), old(st).next as int, old(st).planned@, *final(st), *p, a),
{
    let k = st.project;
    if k >= s.projects.len() {
        return fail(st, Error::UnexpectedEvent);
    }
    if st.next < p.inputs.len() {
        let j = st.next;
        let planned = plan_checkout(s, &s.projects[k], p, j, st.path.as_str());
        match planned {
            Err(e) => fail(st, e),
            Ok(c) => {
                st.repository_id = s.repositories[c.repository].id.clone();
                st.repository_path = s.repositories[c.repository].path.clone();
                st.destination = c.destination;
                st.branch = c.branch;
                st.stage = ProvisionStage::Base;
                ProvisionAction::ResolveBase {
                    repository: st.repository_path.clone(),
                    revision: p.inputs[j].base_revision.clone(),
                    destination: st.destination.clone(),
                }
            },
        }
    } else {
        match bump_revision(s) {
            Err(e) => fail(st, e),
            Ok(()) => {
                let checkouts = copy_checkouts(&st.planned);
                let i = record_provision(s, p, k, st.path.clone(), checkouts, st.now);
                assert(s.workspaces@ =~= old(s).workspaces@.push(s.workspaces@[i as int]));
                st.workspace = i;
                st.stage = ProvisionStage::Save;
                ProvisionAction::SaveJournal
            },
        }
    }
}

/// A planning step keeps the plan tied to the inputs: each planned checkout,
/// and the one at hand, fits its input.
proof fn lemma_plan_keeps_fit(
    s0: WorkspaceSnapshot,
    s: WorkspaceSnapshot,
    st0: ProvisionState,
    j: int,
    planned: Seq<WorkspaceCheckout>,
    st: ProvisionState,
    p: ProvisionWorkspace,
    a: ProvisionAction,
)
    requires
        plan_outcome(s0, s, st0, j, planned, st, p, a),
        plan_fits(s0, p, st0.path@, planned),
        planned.len() == j,
        !st0.journaled,
        !st0.resuming,
    ensures
        st.stage == ProvisionStage::Finished || provision_inv(s, st, p),
{
    if st.stage != ProvisionStage::Finished && j < p.inputs@.len() {
        let id = p.inputs@[j].repository_id@;
        lemma_first_index_meaning(s0.repositories@, crate::catalog::repo_named(id));
    }
    if st.stage == ProvisionStage::Save {
        assert forall|q: int| 0 <= q < planned.len() implies #[trigger] planned_fits(s, p, st.path@, planned[q], q) by {
            assert(planned_fits(s0, p, st0.path@, planned[q], q));
            assert(s.repositories == s0.repositories);
        }
    }
}

/// Takes up the checkout at hand, or writes the ready descriptor once every
/// checkout is in place.
fn probe_next(s: &WorkspaceSnapshot, st: &mut ProvisionState) -> (a: ProvisionAction)
    requires
        old(st).workspace < s.workspaces@.len(),
    ensures
        probe_outcome(*s, *old(st), *final(st), a),
{
    let ws = st.workspace;
    if st.next < s.workspaces[ws].checkouts.len() {
        let j = st.next;
        match repo(s, s.workspaces[ws].checkouts[j].repository_id.as_str()) {
            Err(e) => fail(st, e),
            Ok(k) => {
                st.stage = ProvisionStage::Probe;
                ProvisionAction::ProbeCheckout {
                    repository: s.repositories[k].path.clone(),
                    path: s.workspaces[ws].checkouts[j].path.clone(),
                }
            },
        }
    } else if s.workspaces[ws].revision == u64::MAX {
        fail(st, Error::RevisionExhausted)
    } else {
        let ready = advanced(&s.workspaces[ws], WorkspacePhase::Ready);
        st.stage = ProvisionStage::Projection;
        ProvisionAction::WriteProjection { workspace: ready }
    }
}

/// The checkout at hand and its repository, when both can be found.
fn current_checkout(s: &WorkspaceSnapshot, st: &ProvisionState) -> (r: Result<(usize, usize), Error>)
    requires
        st.workspace < s.workspaces@.len(),
    ensures
        ({
            let w = s.workspaces@[st.workspace as int];
            let ri = repo_index(*s, w.checkouts@[st.next as int].repository_id@);
            if st.next >= w.checkouts@.len() {
                r == Err::<(usize, usize), Error>(Error::UnexpectedEvent)
            } else if ri < 0 {
                r == Err::<(usize, usize), Error>(Error::UnknownRepository)
            } else {
                r matches Ok((j, k)) && j == st.next && k as int == ri && k < s.repositories@.len() && j < usize::MAX
            }
        }),
{
    let ws = st.workspace;
    if st.next >= s.workspaces[ws].checkouts.len() {
        return Err(Error::UnexpectedEvent);
    }
    let k = repo(s, s.workspaces[ws].checkouts[st.next].repository_id.as_str())?;
    Ok((st.next, k))
}

/// Decides the next step of provisioning `p` from what the last action
/// reported. The plan is made first: each input's base is resolved to a
/// commit and its task branch found free; then the workspace is recorded with
/// those pins and the journal written. Only after that write is reported does
/// any worktree get added, and a resumed run starts there, never resolving a
/// base again. A refusal leaves the journal as it was.
pub fn provision_step(
    s: &mut WorkspaceSnapshot,
    st: &mut ProvisionState,
    p: &ProvisionWorkspace,
    ev: ProvisionEvent,
) -> (a: ProvisionAction)
    requires
        provision_inv(*old(s), *old(st), *p),
    ensures
        provision_post(*old(s), *final(s), *old(st), *final(st), *p, ev, a),
{
    match ev {
        ProvisionEvent::Failed(e) => fail(st, e),
        ProvisionEvent::Start => {
            if st.stage != ProvisionStage::Begin {
                return fail(st, Error::UnexpectedEvent);
            }
            proof {
                lemma_first_index_meaning(s.workspaces@, crate::catalog::ws_named(p.id@));
            }
            match provision_start(s, p) {
                Err(e) => fail(st, e),
                Ok(ProvisionStart::Resume(i)) => {
                    st.workspace = i;
                    st.journaled = true;
                    st.resuming = true;
                    st.next = 0;
                    st.stage = ProvisionStage::Scaffold;
                    ProvisionAction::MakeDirectories {
                        workspace: s.workspaces[i].path.clone(),
                        paths: scaffold_dirs(s.workspaces[i].path.as_str()),
                    }
                },
                Ok(ProvisionStart::Fresh(k)) => {
                    st.project = k;
                    st.stage = ProvisionStage::Volume;
                    ProvisionAction::PrepareVolume { path: st.path.clone() }
                },
            }
        },
        ProvisionEvent::Exists(exists) => {
            if st.stage == ProvisionStage::Volume {
                match workspace_path_free(exists) {
                    Err(e) => fail(st, e),
                    Ok(()) => {
                        st.next = 0;
                        st.planned = Vec::new();
                        let ghost mid = *st;
                        let a = plan_next(s, st, p);
                        proof {
                            lemma_plan_keeps_fit(*old(s), *s, mid, 0, mid.planned@, *st, *p, a);
                        }
                        a
                    },
                }
            } else if st.stage == ProvisionStage::Probe {
                match current_checkout(s, st) {
                    Err(e) => fail(st, e),
                    Ok((j, k)) => {
                        let ws = st.workspace;
                        if exists {
                            st.stage = ProvisionStage::Verify;
                            ProvisionAction::VerifyCheckout {
                                repository: copy_repository(&s.repositories[k]),
                                checkout: copy_checkout(&s.workspaces[ws].checkouts[j]),
                            }
                        } else {
                            st.stage = ProvisionStage::Reserve;
                            ProvisionAction::ProbeBranch {
                                repository: s.repositories[k].path.clone(),
                                reference: branch_ref(s.workspaces[ws].checkouts[j].branch.as_str()),
                            }
                        }
                    },
                }
            } else {
                fail(st, Error::UnexpectedEvent)
            }
        },
        ProvisionEvent::Resolved(commit) => {
            if st.stage != ProvisionStage::Base {
                return fail(st, Error::UnexpectedEvent);
            }
            st.base = commit;
            st.stage = ProvisionStage::Branch;
            ProvisionAction::ProbeBranch {
                repository: st.repository_path.clone(),
                reference: branch_ref(st.branch.as_str()),
            }
        },
        ProvisionEvent::Branch(existing) => {
            let found: Option<&str> = match &existing {
                Some(x) => Some(x.as_str()),
                None => None,
            };
            if st.stage == ProvisionStage::Branch {
                if st.next >= p.inputs.len() {
                    return fail(st, Error::UnexpectedEvent);
                }
                match branch_free(found) {
                    Err(e) => fail(st, e),
                    Ok(()) => {
                        st.planned.push(
                            WorkspaceCheckout {
                                repository_id: st.repository_id.clone(),
                                path: st.destination.clone(),
                                base_commit: st.base.clone(),
                                branch: st.branch.clone(),
                                removed: false,
                                removal_started: false,
                            },
                        );
                        st.next = st.next + 1;
                        let ghost mid = *st;
                        proof {
                            assert(st.planned@.last() == old(st).planned@.push(st.planned@.last()).last());
                            assert forall|q: int| 0 <= q < st.planned@.len() implies #[trigger] planned_fits(
                                *s,
                                *p,
                                st.path@,
                                st.planned@[q],
                                q,
                            ) by {
                                if q < old(st).planned@.len() {
                                    assert(st.planned@[q] == old(st).planned@[q]);
                                }
                            }
                        }
                        let a = plan_next(s, st, p);
                        proof {
                            lemma_plan_keeps_fit(*old(s), *s, mid, mid.next as int, mid.planned@, *st, *p, a);
                        }
                        a
                    },
                }
            } else if st.stage == ProvisionStage::Reserve {
                match current_checkout(s, st) {
                    Err(e) => fail(st, e),
                    Ok((j, k)) => {
                        let ws = st.workspace;
                        match reserved_branch(&s.workspaces[ws].checkouts[j], found) {
                            Err(e) => fail(st, e),
                            Ok(reuse) => {
                                let c = &s.workspaces[ws].checkouts[j];
                                st.stage = ProvisionStage::Worktree;
                                ProvisionAction::AddWorktree {
                                    repository: s.repositories[k].path.clone(),
                                    path: c.path.clone(),
                                    branch: c.branch.clone(),
                                    create_from: if reuse {
                                        None
                                    } else {
                                        Some(c.base_commit.clone())
                                    },
                                }
                            },
                        }
                    },
                }
            } else {
                fail(st, Error::UnexpectedEvent)
            }
        },
        ProvisionEvent::Saved => {
            if st.stage != ProvisionStage::Save {
                return fail(st, Error::UnexpectedEvent);
            }
            let ws = st.workspace;
            st.journaled = true;
            st.next = 0;
            st.stage = ProvisionStage::Scaffold;
            ProvisionAction::MakeDirectories {
                workspace: s.workspaces[ws].path.clone(),
                paths: scaffold_dirs(s.workspaces[ws].path.as_str()),
            }
        },
        ProvisionEvent::Observed { head, status } => {
            if st.stage != ProvisionStage::Verify {
                return fail(st, Error::UnexpectedEvent);
            }
            match current_checkout(s, st) {
                Err(e) => fail(st, e),
                Ok((j, _k)) => {
                    let ws = st.workspace;
                    match resumed_checkout(&s.workspaces[ws].checkouts[j], head.as_str(), status.as_str()) {
                        Err(e) => fail(st, e),
                        Ok(()) => {
                            st.next = j + 1;
                            probe_next(s, st)
                        },
                    }
                },
            }
        },
        ProvisionEvent::Done => {
            if st.stage == ProvisionStage::Scaffold {
                probe_next(s, st)
            } else if st.stage == ProvisionStage::Worktree {
                match current_checkout(s, st) {
                    Err(e) => fail(st, e),
                    Ok((j, _k)) => {
                        st.next = j + 1;
                        probe_next(s, st)
                    },
                }
            } else if st.stage == ProvisionStage::Projection {
                let ws = st.workspace;
                if s.workspaces[ws].revision == u64::MAX {
                    return fail(st, Error::RevisionExhausted);
                }
                let ready = advanced(&s.workspaces[ws], WorkspacePhase::Ready);
                put_workspace(s, ws, ready);
                st.stage = ProvisionStage::Finished;
                ProvisionAction::Finished(Ok(()))
            } else {
                fail(st, Error::UnexpectedEvent)
            }
        },
    }
}

} // verus!
