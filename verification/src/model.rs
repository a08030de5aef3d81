//! The journal's records: repositories, projects, workspaces, leases,
//! operations and the commands that change them, plus what inspection and
//! build-context resolution report.
use vstd::prelude::*;

verus! {

/// Where a workspace is in its lifecycle.
#[derive(Clone, Copy, Debug, PartialEq, Eq, Structural, Default)]
pub enum WorkspacePhase {
    #[default]
    Unspecified,
    Provisioning,
    Ready,
    Active,
    Released,
    Removing,
    Removed,
}

/// Where a journaled operation is.
#[derive(Clone, Copy, Debug, PartialEq, Eq, Structural, Default)]
pub enum OperationPhase {
    #[default]
    Unspecified,
    Running,
    Succeeded,
    Blocked,
}

/// A primary clone known to the catalog.
#[derive(Clone, Debug, PartialEq, Eq, Default)]
pub struct Repository {
    pub id: String,
    pub host: String,
    pub namespace: String,
    pub name: String,
    pub path: String,
    pub clone_url: String,
    pub ready: bool,
}

/// A project: the repositories it spans and how long released work is kept.
#[derive(Clone, Debug, PartialEq, Eq, Default)]
pub struct ProjectSpec {
    pub id: String,
    pub display_name: String,
    pub repository_ids: Vec<String>,
    pub retention_seconds: u64,
    pub revision: u64,
    pub validation_targets: Vec<String>,
}

/// A repository and a revision in it.
#[derive(Clone, Debug, PartialEq, Eq, Default)]
pub struct RepositoryInput {
    pub repository_id: String,
    pub base_revision: String,
}

/// One linked checkout of a workspace.
#[derive(Clone, Debug, PartialEq, Eq, Default)]
pub struct WorkspaceCheckout {
    pub repository_id: String,
    pub path: String,
    pub base_commit: String,
    pub branch: String,
    pub removed: bool,
    pub removal_started: bool,
}

/// Ownership of a workspace, fenced by a generation.
#[derive(Clone, Debug, PartialEq, Eq, Default)]
pub struct WorkspaceLease {
    pub owner: String,
    pub generation: u64,
    pub expires_at: i64,
}

/// Proof that a checkout's head is contained in an integration target.
#[derive(Clone, Debug, PartialEq, Eq, Default)]
pub struct IntegrationEvidence {
    pub repository_id: String,
    pub source_commit: String,
    pub target_commit: String,
}

/// A managed workspace.
#[derive(Clone, Debug, PartialEq, Eq, Default)]
pub struct ManagedWorkspace {
    pub id: String,
    pub project_id: String,
    pub display_name: String,
    pub path: String,
    pub project: Option<ProjectSpec>,
    pub checkouts: Vec<WorkspaceCheckout>,
    pub phase: WorkspacePhase,
    pub revision: u64,
    pub created_at: i64,
    pub lease: Option<WorkspaceLease>,
    pub released_at: i64,
    pub collect_after: i64,
    pub abandonment_reason: String,
    pub integration: Vec<IntegrationEvidence>,
}

#[derive(Clone, Debug, PartialEq, Eq, Default)]
pub struct RegisterRepository {
    pub repository: Option<Repository>,
}

#[derive(Clone, Debug, PartialEq, Eq, Default)]
pub struct PutProject {
    pub project: Option<ProjectSpec>,
    pub expected_revision: u64,
}

#[derive(Clone, Debug, PartialEq, Eq, Default)]
pub struct ProvisionWorkspace {
    pub id: String,
    pub project_id: String,
    pub display_name: String,
    pub inputs: Vec<RepositoryInput>,
}

#[derive(Clone, Debug, PartialEq, Eq, Default)]
pub struct LeaseWorkspace {
    pub workspace_id: String,
    pub owner: String,
    pub expected_revision: u64,
    pub generation: u64,
    pub ttl_seconds: u64,
}

#[derive(Clone, Debug, PartialEq, Eq, Default)]
pub struct ReleaseWorkspace {
    pub workspace_id: String,
    pub owner: String,
    pub generation: u64,
    pub expected_revision: u64,
    pub abandonment_reason: String,
    pub integrated_into: Vec<RepositoryInput>,
}

#[derive(Clone, Debug, PartialEq, Eq, Default)]
pub struct CollectWorkspace {
    pub workspace_id: String,
    pub expected_revision: u64,
}

/// The change a command asks for.
#[derive(Clone, Debug, PartialEq, Eq)]
pub enum Action {
    RegisterRepository(RegisterRepository),
    PutProject(PutProject),
    Provision(ProvisionWorkspace),
    Lease(LeaseWorkspace),
    Release(ReleaseWorkspace),
    Collect(CollectWorkspace),
}

/// A mutation request with its caller-chosen idempotency key.
#[derive(Clone, Debug, PartialEq, Eq, Default)]
pub struct WorkspaceCommand {
    pub request_id: String,
    pub action: Option<Action>,
}

/// A journaled command and how it ended.
#[derive(Clone, Debug, PartialEq, Eq, Default)]
pub struct WorkspaceOperation {
    pub id: String,
    pub command: Option<WorkspaceCommand>,
    pub phase: OperationPhase,
    pub detail: String,
    pub revision: u64,
}

/// The journal: the whole catalog at one revision.
#[derive(Clone, Debug, PartialEq, Eq, Default)]
pub struct WorkspaceSnapshot {
    pub schema_version: u32,
    pub root: String,
    pub revision: u64,
    pub repositories: Vec<Repository>,
    pub projects: Vec<ProjectSpec>,
    pub workspaces: Vec<ManagedWorkspace>,
    pub operations: Vec<WorkspaceOperation>,
}

/// What was observed of one checkout.
#[derive(Clone, Debug, PartialEq, Eq, Default)]
pub struct CheckoutInspection {
    pub repository_id: String,
    pub path: String,
    pub head: String,
    pub dirty: bool,
    pub ignored_files: bool,
    pub problem: String,
}

/// Whether a workspace may be collected, and every reason it may not.
#[derive(Clone, Debug, PartialEq, Eq, Default)]
pub struct WorkspaceInspection {
    pub workspace: Option<ManagedWorkspace>,
    pub checkouts: Vec<CheckoutInspection>,
    pub collectable: bool,
    pub retention_reasons: Vec<String>,
}

#[derive(Clone, Debug, PartialEq, Eq, Default)]
pub struct WorkspaceInspections {
    pub inspections: Vec<WorkspaceInspection>,
}

/// One source of a build.
#[derive(Clone, Debug, PartialEq, Eq, Default)]
pub struct BuildSource {
    pub repository_id: String,
    pub checkout_path: String,
    pub commit: String,
    pub dirty: bool,
}

/// Everything a build adapter needs to run against a workspace.
#[derive(Clone, Debug, PartialEq, Eq, Default)]
pub struct BuildContext {
    pub workspace_id: String,
    pub project_id: String,
    pub project_revision: u64,
    pub sources: Vec<BuildSource>,
    pub validation_targets: Vec<String>,
    pub output_base: String,
    pub artifact_directory: String,
    pub requires_input_snapshot: bool,
}

} // verus!
