//! Deep copies of journal records that keep every field.
use vstd::prelude::*;
use crate::seqs::views;
use crate::model::{
    Repository, ProjectSpec, RepositoryInput, WorkspaceCheckout, WorkspaceLease,
    IntegrationEvidence, ManagedWorkspace, RegisterRepository, PutProject, ProvisionWorkspace,
    LeaseWorkspace, ReleaseWorkspace, CollectWorkspace, Action, WorkspaceCommand,
    WorkspaceOperation,
};

verus! {

/// Equality of two string lists, element by element.
pub open spec fn same_strings(a: Seq<String>, b: Seq<String>) -> bool {
    views(a) == views(b)
}

pub open spec fn same_input(a: RepositoryInput, b: RepositoryInput) -> bool {
    a.repository_id@ == b.repository_id@ && a.base_revision@ == b.base_revision@
}

pub open spec fn same_inputs(a: Seq<RepositoryInput>, b: Seq<RepositoryInput>) -> bool {
    a.len() == b.len() && forall|i: int| 0 <= i < a.len() ==> #[trigger] same_input(a[i], b[i])
}

pub open spec fn same_repository(a: Repository, b: Repository) -> bool {
    &&& a.id@ == b.id@
    &&& a.host@ == b.host@
    &&& a.namespace@ == b.namespace@
    &&& a.name@ == b.name@
    &&& a.path@ == b.path@
    &&& a.clone_url@ == b.clone_url@
    &&& a.ready == b.ready
}

/// Field-wise equality of projects.
pub open spec fn same_project(a: ProjectSpec, b: ProjectSpec) -> bool {
    &&& a.id@ == b.id@
    &&& a.display_name@ == b.display_name@
    &&& same_strings(a.repository_ids@, b.repository_ids@)
    &&& a.retention_seconds == b.retention_seconds
    &&& a.revision == b.revision
    &&& same_strings(a.validation_targets@, b.validation_targets@)
}

pub open spec fn same_opt_project(a: Option<ProjectSpec>, b: Option<ProjectSpec>) -> bool {
    match (a, b) {
        (Some(x), Some(y)) => same_project(x, y),
        (None, None) => true,
        _ => false,
    }
}

pub open spec fn same_checkout(a: WorkspaceCheckout, b: WorkspaceCheckout) -> bool {
    &&& a.repository_id@ == b.repository_id@
    &&& a.path@ == b.path@
    &&& a.base_commit@ == b.base_commit@
    &&& a.branch@ == b.branch@
    &&& a.removed == b.removed
    &&& a.removal_started == b.removal_started
}

pub open spec fn same_checkouts(a: Seq<WorkspaceCheckout>, b: Seq<WorkspaceCheckout>) -> bool {
    a.len() == b.len() && forall|i: int| 0 <= i < a.len() ==> #[trigger] same_checkout(a[i], b[i])
}

pub open spec fn same_lease(a: Option<WorkspaceLease>, b: Option<WorkspaceLease>) -> bool {
    match (a, b) {
        (Some(x), Some(y)) => x.owner@ == y.owner@ && x.generation == y.generation && x.expires_at == y.expires_at,
        (None, None) => true,
        _ => false,
    }
}

pub open spec fn same_evidence(a: IntegrationEvidence, b: IntegrationEvidence) -> bool {
    &&& a.repository_id@ == b.repository_id@
    &&& a.source_commit@ == b.source_commit@
    &&& a.target_commit@ == b.target_commit@
}

pub open spec fn same_evidences(a: Seq<IntegrationEvidence>, b: Seq<IntegrationEvidence>) -> bool {
    a.len() == b.len() && forall|i: int| 0 <= i < a.len() ==> #[trigger] same_evidence(a[i], b[i])
}

/// Field-wise equality of workspaces.
pub open spec fn same_workspace(a: ManagedWorkspace, b: ManagedWorkspace) -> bool {
    &&& a.id@ == b.id@
    &&& a.project_id@ == b.project_id@
    &&& a.display_name@ == b.display_name@
    &&& a.path@ == b.path@
    &&& same_opt_project(a.project, b.project)
    &&& same_checkouts(a.checkouts@, b.checkouts@)
    &&& a.phase == b.phase
    &&& a.revision == b.revision
    &&& a.created_at == b.created_at
    &&& same_lease(a.lease, b.lease)
    &&& a.released_at == b.released_at
    &&& a.collect_after == b.collect_after
    &&& a.abandonment_reason@ == b.abandonment_reason@
    &&& same_evidences(a.integration@, b.integration@)
}

/// Field-wise equality of provisioning requests.
pub open spec fn same_provision(x: ProvisionWorkspace, y: ProvisionWorkspace) -> bool {
    &&& x.id@ == y.id@
    &&& x.project_id@ == y.project_id@
    &&& x.display_name@ == y.display_name@
    &&& same_inputs(x.inputs@, y.inputs@)
}

/// Field-wise equality of actions.
pub open spec fn same_action(a: Action, b: Action) -> bool {
    match (a, b) {
        (Action::RegisterRepository(x), Action::RegisterRepository(y)) => match (x.repository, y.repository) {
            (Some(p), Some(q)) => same_repository(p, q),
            (None, None) => true,
            _ => false,
        },
        (Action::PutProject(x), Action::PutProject(y)) => {
            &&& same_opt_project(x.project, y.project)
            &&& x.expected_revision == y.expected_revision
        },
        (Action::Provision(x), Action::Provision(y)) => same_provision(x, y),
        (Action::Lease(x), Action::Lease(y)) => {
            &&& x.workspace_id@ == y.workspace_id@
            &&& x.owner@ == y.owner@
            &&& x.expected_revision == y.expected_revision
            &&& x.generation == y.generation
            &&& x.ttl_seconds == y.ttl_seconds
        },
        (Action::Release(x), Action::Release(y)) => {
            &&& x.workspace_id@ == y.workspace_id@
            &&& x.owner@ == y.owner@
            &&& x.generation == y.generation
            &&& x.expected_revision == y.expected_revision
            &&& x.abandonment_reason@ == y.abandonment_reason@
            &&& same_inputs(x.integrated_into@, y.integrated_into@)
        },
        (Action::Collect(x), Action::Collect(y)) => {
            &&& x.workspace_id@ == y.workspace_id@
            &&& x.expected_revision == y.expected_revision
        },
        _ => false,
    }
}

/// Field-wise equality of commands.
pub open spec fn same_command(a: WorkspaceCommand, b: WorkspaceCommand) -> bool {
    &&& a.request_id@ == b.request_id@
    &&& match (a.action, b.action) {
        (Some(x), Some(y)) => same_action(x, y),
        (None, None) => true,
        _ => false,
    }
}

pub open spec fn same_opt_command(a: Option<WorkspaceCommand>, b: Option<WorkspaceCommand>) -> bool {
    match (a, b) {
        (Some(x), Some(y)) => same_command(x, y),
        (None, None) => true,
        _ => false,
    }
}

/// Field-wise equality of operations.
pub open spec fn same_operation(a: WorkspaceOperation, b: WorkspaceOperation) -> bool {
    &&& a.id@ == b.id@
    &&& same_opt_command(a.command, b.command)
    &&& a.phase == b.phase
    &&& a.detail@ == b.detail@
    &&& a.revision == b.revision
}

pub fn copy_strings(v: &Vec<String>) -> (r: Vec<String>)
    ensures
        r@ == v@,
{
    let r = v.clone();
    assert(r@ =~= v@);
    r
}

pub fn copy_repository(x: &Repository) -> (r: Repository)
    ensures
        r == *x,
{
    Repository {
        id: x.id.clone(),
        host: x.host.clone(),
        namespace: x.namespace.clone(),
        name: x.name.clone(),
        path: x.path.clone(),
        clone_url: x.clone_url.clone(),
        ready: x.ready,
    }
}

pub fn copy_project(x: &ProjectSpec) -> (r: ProjectSpec)
    ensures
        same_project(r, *x),
{
    ProjectSpec {
        id: x.id.clone(),
        display_name: x.display_name.clone(),
        repository_ids: copy_strings(&x.repository_ids),
        retention_seconds: x.retention_seconds,
        revision: x.revision,
        validation_targets: copy_strings(&x.validation_targets),
    }
}

pub fn copy_input(x: &RepositoryInput) -> (r: RepositoryInput)
    ensures
        r == *x,
{
    RepositoryInput { repository_id: x.repository_id.clone(), base_revision: x.base_revision.clone() }
}

pub fn copy_inputs(v: &Vec<RepositoryInput>) -> (r: Vec<RepositoryInput>)
    ensures
        r@ == v@,
{
    let mut r: Vec<RepositoryInput> = Vec::new();
    let mut i: usize = 0;
    while i < v.len()
        invariant
            i <= v.len(),
            r@ == v@.subrange(0, i as int),
        decreases v.len() - i,
    {
        r.push(copy_input(&v[i]));
        i = i + 1;
        assert(r@ =~= v@.subrange(0, i as int));
    }
    assert(v@.subrange(0, v.len() as int) =~= v@);
    r
}

pub fn copy_checkout(x: &WorkspaceCheckout) -> (r: WorkspaceCheckout)
    ensures
        r == *x,
{
    WorkspaceCheckout {
        repository_id: x.repository_id.clone(),
        path: x.path.clone(),
        base_commit: x.base_commit.clone(),
        branch: x.branch.clone(),
        removed: x.removed,
        removal_started: x.removal_started,
    }
}

pub fn copy_checkouts(v: &Vec<WorkspaceCheckout>) -> (r: Vec<WorkspaceCheckout>)
    ensures
        r@ == v@,
{
    let mut r: Vec<WorkspaceCheckout> = Vec::new();
    let mut i: usize = 0;
    while i < v.len()
        invariant
            i <= v.len(),
            r@ == v@.subrange(0, i as int),
        decreases v.len() - i,
    {
        r.push(copy_checkout(&v[i]));
        i = i + 1;
        assert(r@ =~= v@.subrange(0, i as int));
    }
    assert(v@.subrange(0, v.len() as int) =~= v@);
    r
}

pub fn copy_lease(x: &WorkspaceLease) -> (r: WorkspaceLease)
    ensures
        r == *x,
{
    WorkspaceLease { owner: x.owner.clone(), generation: x.generation, expires_at: x.expires_at }
}

pub fn copy_evidence(x: &IntegrationEvidence) -> (r: IntegrationEvidence)
    ensures
        r == *x,
{
    IntegrationEvidence {
        repository_id: x.repository_id.clone(),
        source_commit: x.source_commit.clone(),
        target_commit: x.target_commit.clone(),
    }
}

pub fn copy_evidences(v: &Vec<IntegrationEvidence>) -> (r: Vec<IntegrationEvidence>)
    ensures
        r@ == v@,
{
    let mut r: Vec<IntegrationEvidence> = Vec::new();
    let mut i: usize = 0;
    while i < v.len()
        invariant
            i <= v.len(),
            r@ == v@.subrange(0, i as int),
        decreases v.len() - i,
    {
        r.push(copy_evidence(&v[i]));
        i = i + 1;
        assert(r@ =~= v@.subrange(0, i as int));
    }
    assert(v@.subrange(0, v.len() as int) =~= v@);
    r
}

pub fn copy_workspace(x: &ManagedWorkspace) -> (r: ManagedWorkspace)
    ensures
        same_workspace(r, *x),
{
    ManagedWorkspace {
        id: x.id.clone(),
        project_id: x.project_id.clone(),
        display_name: x.display_name.clone(),
        path: x.path.clone(),
        project: match &x.project {
            Some(p) => Some(copy_project(p)),
            None => None,
        },
        checkouts: copy_checkouts(&x.checkouts),
        phase: x.phase,
        revision: x.revision,
        created_at: x.created_at,
        lease: match &x.lease {
            Some(l) => Some(copy_lease(l)),
            None => None,
        },
        released_at: x.released_at,
        collect_after: x.collect_after,
        abandonment_reason: x.abandonment_reason.clone(),
        integration: copy_evidences(&x.integration),
    }
}

pub fn copy_action(x: &Action) -> (r: Action)
    ensures
        same_action(r, *x),
{
    match x {
        Action::RegisterRepository(a) => Action::RegisterRepository(RegisterRepository {
            repository: match &a.repository {
                Some(r) => Some(copy_repository(r)),
                None => None,
            },
        }),
        Action::PutProject(a) => Action::PutProject(PutProject {
            project: match &a.project {
                Some(p) => Some(copy_project(p)),
                None => None,
            },
            expected_revision: a.expected_revision,
        }),
        Action::Provision(a) => Action::Provision(ProvisionWorkspace {
            id: a.id.clone(),
            project_id: a.project_id.clone(),
            display_name: a.display_name.clone(),
            inputs: copy_inputs(&a.inputs),
        }),
        Action::Lease(a) => Action::Lease(LeaseWorkspace {
            workspace_id: a.workspace_id.clone(),
            owner: a.owner.clone(),
            expected_revision: a.expected_revision,
            generation: a.generation,
            ttl_seconds: a.ttl_seconds,
        }),
        Action::Release(a) => Action::Release(ReleaseWorkspace {
            workspace_id: a.workspace_id.clone(),
            owner: a.owner.clone(),
            generation: a.generation,
            expected_revision: a.expected_revision,
            abandonment_reason: a.abandonment_reason.clone(),
            integrated_into: copy_inputs(&a.integrated_into),
        }),
        Action::Collect(a) => Action::Collect(CollectWorkspace {
            workspace_id: a.workspace_id.clone(),
            expected_revision: a.expected_revision,
        }),
    }
}

pub fn copy_command(x: &WorkspaceCommand) -> (r: WorkspaceCommand)
    ensures
        same_command(r, *x),
{
    WorkspaceCommand {
        request_id: x.request_id.clone(),
        action: match &x.action {
            Some(a) => Some(copy_action(a)),
            None => None,
        },
    }
}

pub fn copy_operation(x: &WorkspaceOperation) -> (r: WorkspaceOperation)
    ensures
        same_operation(r, *x),
{
    WorkspaceOperation {
        id: x.id.clone(),
        command: match &x.command {
            Some(c) => Some(copy_command(c)),
            None => None,
        },
        phase: x.phase,
        detail: x.detail.clone(),
        revision: x.revision,
    }
}

pub fn equal_strings(a: &Vec<String>, b: &Vec<String>) -> (r: bool)
    ensures
        r == same_strings(a@, b@),
{
    if a.len() != b.len() {
        assert(views(a@).len() != views(b@).len());
        return false;
    }
    let mut i: usize = 0;
    while i < a.len()
        invariant
            a.len() == b.len(),
            i <= a.len(),
            forall|j: int| 0 <= j < i ==> views(a@)[j] == views(b@)[j],
        decreases a.len() - i,
    {
        if a[i] != b[i] {
            assert(views(a@)[i as int] != views(b@)[i as int]);
            return false;
        }
        i = i + 1;
    }
    assert(views(a@) =~= views(b@));
    true
}

pub fn equal_inputs(a: &Vec<RepositoryInput>, b: &Vec<RepositoryInput>) -> (r: bool)
    ensures
        r == same_inputs(a@, b@),
{
    if a.len() != b.len() {
        return false;
    }
    let mut i: usize = 0;
    while i < a.len()
        invariant
            a.len() == b.len(),
            i <= a.len(),
            forall|j: int| 0 <= j < i ==> #[trigger] same_input(a@[j], b@[j]),
        decreases a.len() - i,
    {
        if a[i].repository_id != b[i].repository_id || a[i].base_revision != b[i].base_revision {
            assert(!same_input(a@[i as int], b@[i as int]));
            return false;
        }
        i = i + 1;
    }
    true
}

pub fn equal_repositories(a: &Repository, b: &Repository) -> (r: bool)
    ensures
        r == same_repository(*a, *b),
{
    a.id == b.id && a.host == b.host && a.namespace == b.namespace && a.name == b.name && a.path
        == b.path && a.clone_url == b.clone_url && a.ready == b.ready
}

pub fn equal_projects(a: &ProjectSpec, b: &ProjectSpec) -> (r: bool)
    ensures
        r == same_project(*a, *b),
{
    a.id == b.id && a.display_name == b.display_name && equal_strings(
        &a.repository_ids,
        &b.repository_ids,
    ) && a.retention_seconds == b.retention_seconds && a.revision == b.revision && equal_strings(
        &a.validation_targets,
        &b.validation_targets,
    )
}

pub fn equal_provisions(a: &ProvisionWorkspace, b: &ProvisionWorkspace) -> (r: bool)
    ensures
        r == same_provision(*a, *b),
{
    a.id == b.id && a.project_id == b.project_id && a.display_name == b.display_name
        && equal_inputs(&a.inputs, &b.inputs)
}

pub fn equal_actions(a: &Action, b: &Action) -> (r: bool)
    ensures
        r == same_action(*a, *b),
{
    match (a, b) {
        (Action::RegisterRepository(x), Action::RegisterRepository(y)) => match (&x.repository, &y.repository) {
            (Some(p), Some(q)) => equal_repositories(p, q),
            (None, None) => true,
            _ => false,
        },
        (Action::PutProject(x), Action::PutProject(y)) => {
            let p = match (&x.project, &y.project) {
                (Some(p), Some(q)) => equal_projects(p, q),
                (None, None) => true,
                _ => false,
            };
            p && x.expected_revision == y.expected_revision
        },
        (Action::Provision(x), Action::Provision(y)) => equal_provisions(x, y),
        (Action::Lease(x), Action::Lease(y)) => {
            x.workspace_id == y.workspace_id && x.owner == y.owner && x.expected_revision
                == y.expected_revision && x.generation == y.generation && x.ttl_seconds
                == y.ttl_seconds
        },
        (Action::Release(x), Action::Release(y)) => {
            x.workspace_id == y.workspace_id && x.owner == y.owner && x.generation == y.generation
                && x.expected_revision == y.expected_revision && x.abandonment_reason
                == y.abandonment_reason && equal_inputs(&x.integrated_into, &y.integrated_into)
        },
        (Action::Collect(x), Action::Collect(y)) => {
            x.workspace_id == y.workspace_id && x.expected_revision == y.expected_revision
        },
        _ => false,
    }
}

pub fn equal_commands(a: &WorkspaceCommand, b: &WorkspaceCommand) -> (r: bool)
    ensures
        r == same_command(*a, *b),
{
    let actions = match (&a.action, &b.action) {
        (Some(x), Some(y)) => equal_actions(x, y),
        (None, None) => true,
        _ => false,
    };
    a.request_id == b.request_id && actions
}

} // verus!
