//! Provisioning: pinning each input to a commit and reserving its branch
//! before any worktree exists, then materializing the recorded plan.
use vstd::prelude::*;
use vstd::string::*;
use crate::catalog::{
    ws_index, find_workspace, project_index, find_project, repo_index, repo, input_ids, ids_of,
    same_but_workspaces, contains_str,
};
use crate::copy::{same_provision, same_project, copy_project, copy_workspace, equal_provisions, same_workspace};
use crate::error::Error;
use crate::git::{branch_name, task_branch};
use crate::ident::{token, unique};
use crate::model::{
    Action, ManagedWorkspace, ProjectSpec, ProvisionWorkspace, Repository, WorkspaceCheckout,
    WorkspaceOperation, WorkspacePhase, WorkspaceSnapshot,
};
use crate::path::{join, join_path};
use crate::seqs::{views, is_first, first_index, lemma_first_index_found, lemma_first_index_none};
use crate::text::valid_token;

verus! {

/// Holds of a journaled operation that provisions the workspace `id`.
pub open spec fn provisions(id: Seq<char>) -> spec_fn(WorkspaceOperation) -> bool {
    |o: WorkspaceOperation|
        o.command matches Some(c) && c.action matches Some(Action::Provision(x)) && x.id@ == id
}

/// The provisioning request first journaled for workspace `id`.
pub open spec fn journaled_provision(s: WorkspaceSnapshot, id: Seq<char>) -> ProvisionWorkspace {
    let j = first_index(s.operations@, provisions(id));
    match s.operations@[j].command {
        Some(c) => match c.action {
            Some(Action::Provision(x)) => x,
            _ => arbitrary(),
        },
        None => arbitrary(),
    }
}

/// How provisioning proceeds.
pub enum ProvisionStart {
    /// Resume the interrupted provisioning of the workspace at this position.
    Resume(usize),
    /// Plan a new workspace for the project at this position.
    Fresh(usize),
}

/// Why a provisioning request with a token ID is refused before anything is
/// touched; none when it may proceed.
pub open spec fn provision_refusal(s: WorkspaceSnapshot, p: ProvisionWorkspace) -> Option<Error> {
    let k = ws_index(s, p.id@);
    if k >= 0 {
        if first_index(s.operations@, provisions(p.id@)) < 0 {
            Some(Error::MissingProvisioningJournal)
        } else if !(same_provision(journaled_provision(s, p.id@), p) && s.workspaces@[k].phase
            == WorkspacePhase::Provisioning) {
            Some(Error::WorkspaceIdExists)
        } else {
            None
        }
    } else if project_index(s, p.project_id@) < 0 {
        Some(Error::UnknownProject)
    } else if !input_ids(p.inputs@).no_duplicates() {
        Some(Error::DuplicateRepositoryIds)
    } else {
        None
    }
}

/// Starts provisioning. An existing workspace ID is only accepted as the
/// retry of its own interrupted provisioning (the identical journaled
/// request, still provisioning); otherwise the project must exist and the
/// inputs name each repository once.
pub fn provision_start(s: &WorkspaceSnapshot, p: &ProvisionWorkspace) -> (r: Result<ProvisionStart, Error>)
    ensures
        !valid_token(p.id@) ==> (r matches Err(Error::InvalidComponent(t)) && t@ == p.id@),
        valid_token(p.id@) ==> match provision_refusal(*s, *p) {
            Some(e) => r == Err::<ProvisionStart, Error>(e),
            None => if ws_index(*s, p.id@) >= 0 {
                r matches Ok(ProvisionStart::Resume(i)) && i as int == ws_index(*s, p.id@)
            } else {
                r matches Ok(ProvisionStart::Fresh(i)) && i as int == project_index(*s, p.project_id@)
            },
        },
{
    token(p.id.as_str())?;
    match find_workspace(s, p.id.as_str()) {
        Some(i) => {
            let ghost pr = provisions(p.id@);
            let mut j: usize = 0;
            while j < s.operations.len()
                invariant
                    pr == provisions(p.id@),
                    valid_token(p.id@),
                    i as int == ws_index(*s, p.id@),
                    i < s.workspaces@.len(),
                    j <= s.operations@.len(),
                    forall|q: int| 0 <= q < j ==> !pr(#[trigger] s.operations@[q]),
                decreases s.operations@.len() - j,
            {
                let found = match &s.operations[j].command {
                    Some(c) => match &c.action {
                        Some(Action::Provision(x)) => {
                            if x.id == p.id {
                                Some(equal_provisions(x, p))
                            } else {
                                None
                            }
                        },
                        _ => None,
                    },
                    None => None,
                };
                match found {
                    Some(same) => {
                        proof {
                            assert(is_first(s.operations@, pr, j as int));
                            lemma_first_index_found(s.operations@, pr, j as int);
                        }
                        if !(same && s.workspaces[i].phase == WorkspacePhase::Provisioning) {
                            return Err(Error::WorkspaceIdExists);
                        }
                        return Ok(ProvisionStart::Resume(i));
                    },
                    None => {},
                }
                j = j + 1;
            }
            proof { lemma_first_index_none(s.operations@, pr); }
            Err(Error::MissingProvisioningJournal)
        },
        None => {
            let k = match find_project(s, p.project_id.as_str()) {
                Some(k) => k,
                None => return Err(Error::UnknownProject),
            };
            let ids = ids_of(&p.inputs);
            if unique(&ids).is_err() {
                return Err(Error::DuplicateRepositoryIds);
            }
            Ok(ProvisionStart::Fresh(k))
        },
    }
}

/// Where a repository's checkout goes inside a workspace:
/// `<workspace>/src/<host>/<namespace>/<name>`.
pub open spec fn checkout_path(workspace_path: Seq<char>, r: Repository) -> Seq<char> {
    join(join(join(join(workspace_path, "src"@), r.host@), r.namespace@), r.name@)
}

/// One planned checkout: the repository, its destination and its branch.
pub struct PlannedCheckout {
    pub repository: usize,
    pub destination: String,
    pub branch: String,
}

/// Plans the checkout of input `j` of a new workspace at `workspace_path`:
/// the input's repository must be a member of the project and ready.
pub fn plan_checkout(
    s: &WorkspaceSnapshot,
    project: &ProjectSpec,
    p: &ProvisionWorkspace,
    j: usize,
    workspace_path: &str,
) -> (r: Result<PlannedCheckout, Error>)
    requires
        j < p.inputs@.len(),
    ensures
        ({
            let id = p.inputs@[j as int].repository_id@;
            if !views(project.repository_ids@).contains(id) {
                r == Err::<PlannedCheckout, Error>(Error::NotProjectMember)
            } else if repo_index(*s, id) < 0 {
                r == Err::<PlannedCheckout, Error>(Error::UnknownRepository)
            } else {
                r matches Ok(c) && c.repository as int == repo_index(*s, id) && c.destination@
                    == checkout_path(workspace_path@, s.repositories@[c.repository as int])
                    && c.branch@ == branch_name(p.id@, s.repositories@[c.repository as int].id@)
            }
        }),
{
    let input = &p.inputs[j];
    if !contains_str(&project.repository_ids, input.repository_id.as_str()) {
        return Err(Error::NotProjectMember);
    }
    let k = repo(s, input.repository_id.as_str())?;
    let r = &s.repositories[k];
    let d1 = join_path(workspace_path, "src");
    let d2 = join_path(d1.as_str(), r.host.as_str());
    let d3 = join_path(d2.as_str(), r.namespace.as_str());
    let destination = join_path(d3.as_str(), r.name.as_str());
    let branch = task_branch(p.id.as_str(), r.id.as_str());
    Ok(PlannedCheckout { repository: k, destination, branch })
}

/// Records a new workspace with its pinned checkouts, still provisioning,
/// before any Git work: the plan is durable first. Returns its position.
pub fn record_provision(
    s: &mut WorkspaceSnapshot,
    p: &ProvisionWorkspace,
    project: usize,
    path: String,
    checkouts: Vec<WorkspaceCheckout>,
    now: i64,
) -> (r: usize)
    requires
        project < old(s).projects@.len(),
    ensures
        r == old(s).workspaces@.len(),
        final(s).workspaces@.len() == old(s).workspaces@.len() + 1,
        final(s).workspaces@.subrange(0, r as int) == old(s).workspaces@,
        same_but_workspaces(*final(s), *old(s)),
        provisioned(final(s).workspaces@[r as int], *p, old(s).projects@[project as int], path, checkouts, now),
{
    let pr = copy_project(&s.projects[project]);
    let w = ManagedWorkspace {
        id: p.id.clone(),
        project_id: pr.id.clone(),
        display_name: p.display_name.clone(),
        path,
        project: Some(pr),
        checkouts,
        phase: WorkspacePhase::Provisioning,
        revision: 1,
        created_at: now,
        lease: None,
        released_at: 0,
        collect_after: 0,
        abandonment_reason: String::new(),
        integration: Vec::new(),
    };
    let r = s.workspaces.len();
    s.workspaces.push(w);
    assert(s.workspaces@.subrange(0, r as int) =~= old(s).workspaces@);
    r
}

/// A freshly recorded workspace: named and labelled by the request, pinned
/// to a copy of the project, provisioning at revision 1, unowned.
pub open spec fn provisioned(
    w: ManagedWorkspace,
    p: ProvisionWorkspace,
    project: ProjectSpec,
    path: String,
    checkouts: Vec<WorkspaceCheckout>,
    now: i64,
) -> bool {
    &&& w.id@ == p.id@
    &&& w.project_id@ == project.id@
    &&& w.display_name@ == p.display_name@
    &&& w.path == path
    &&& w.project matches Some(q) && same_project(q, project)
    &&& w.checkouts == checkouts
    &&& w.phase == WorkspacePhase::Provisioning
    &&& w.revision == 1
    &&& w.created_at == now
    &&& w.lease is None
    &&& w.released_at == 0
    &&& w.collect_after == 0
    &&& w.abandonment_reason@.len() == 0
    &&& w.integration@.len() == 0
}

/// A copy of a workspace moved on to `phase`, one revision later.
pub fn advanced(w: &ManagedWorkspace, phase: WorkspacePhase) -> (r: ManagedWorkspace)
    requires
        w.revision < u64::MAX,
    ensures
        same_workspace(r, ManagedWorkspace { phase, revision: (w.revision + 1) as u64, ..*w }),
{
    let mut r = copy_workspace(w);
    r.phase = phase;
    r.revision = w.revision + 1;
    r
}

/// Stores a workspace at position `i`.
pub fn put_workspace(s: &mut WorkspaceSnapshot, i: usize, w: ManagedWorkspace)
    requires
        i < old(s).workspaces@.len(),
    ensures
        final(s).workspaces@ == old(s).workspaces@.update(i as int, w),
        same_but_workspaces(*final(s), *old(s)),
{
    s.workspaces.set(i, w);
}

/// A new workspace never takes over a directory that already exists.
pub fn workspace_path_free(exists: bool) -> (r: Result<(), Error>)
    ensures
        r is Ok <==> !exists,
        r is Err ==> r == Err::<(), Error>(Error::WorkspacePathExists),
{
    if exists {
        Err(Error::WorkspacePathExists)
    } else {
        Ok(())
    }
}

/// A new workspace's task branch must not exist yet: an existing branch is
/// never silently repurposed. `existing` is what the branch resolves to.
pub fn branch_free(existing: Option<&str>) -> (r: Result<(), Error>)
    ensures
        r is Ok <==> existing is None,
        r is Err ==> r == Err::<(), Error>(Error::BranchExists),
{
    match existing {
        None => Ok(()),
        Some(_) => Err(Error::BranchExists),
    }
}

/// An interrupted checkout that already exists may only be resumed unchanged:
/// its head still the pinned base, and no local files (tracked, untracked or
/// ignored) per `git status --porcelain --untracked-files=all --ignored`.
pub fn resumed_checkout(c: &WorkspaceCheckout, head: &str, status: &str) -> (r: Result<(), Error>)
    ensures
        head@ != c.base_commit@ ==> r == Err::<(), Error>(Error::CheckoutAdvanced),
        head@ == c.base_commit@ && status@.len() > 0 ==> r == Err::<(), Error>(Error::CheckoutHasLocalFiles),
        r is Ok <==> head@ == c.base_commit@ && status@.len() == 0,
{
    if !crate::text::same(head, c.base_commit.as_str()) {
        return Err(Error::CheckoutAdvanced);
    }
    if status.unicode_len() > 0 {
        return Err(Error::CheckoutHasLocalFiles);
    }
    Ok(())
}

/// A reserved branch that already exists is reused only while it still
/// points at the pinned base. Returns whether to reuse it (`worktree add
/// <path> <branch>`) rather than create it (`worktree add -b <branch> <path>
/// <base>`).
pub fn reserved_branch(c: &WorkspaceCheckout, existing: Option<&str>) -> (r: Result<bool, Error>)
    ensures
        existing is None ==> r == Ok::<bool, Error>(false),
        existing matches Some(e) ==> (if e@ == c.base_commit@ {
            r == Ok::<bool, Error>(true)
        } else {
            r == Err::<bool, Error>(Error::ReservedBranchAdvanced)
        }),
{
    match existing {
        None => Ok(false),
        Some(e) => if crate::text::same(e, c.base_commit.as_str()) {
            Ok(true)
        } else {
            Err(Error::ReservedBranchAdvanced)
        },
    }
}

} // verus!
