//! Why a lifecycle request is refused, and the text reported for it.
use vstd::prelude::*;
use vstd::string::*;

verus! {

/// Why text is not a number, as `u64::from_str` reports it.
#[derive(Clone, Copy, Debug, PartialEq, Eq, Structural)]
pub enum NumberProblem {
    Empty,
    InvalidDigit,
    TooLarge,
}

/// A refused request. Variants that carry a `String` report a detail taken
/// from the request or from the environment (a path, a Git message).
#[derive(Clone, Debug, PartialEq, Eq)]
pub enum Error {
    InvalidComponent(String),
    ActionRequired,
    RequestReused,
    RevisionExhausted,
    UnsupportedJournalVersion(u32),
    RootChanged,
    RepositoryRequired,
    NamespaceRequired,
    CloneUrlMismatch,
    RepositoryIdRegistered,
    IdentityRegistered,
    PhysicalRegistered,
    CloneDestinationExists,
    NotPrimaryClone,
    NotRepositoryRoot,
    OriginChanged,
    NoHead(String),
    ProjectRequired,
    DuplicateRepositoryIds,
    RetentionTooLong,
    UnknownRepository,
    ProjectRevisionChanged,
    VolumeMissing,
    MissingProvisioningJournal,
    WorkspaceIdExists,
    UnknownProject,
    WorkspacePathExists,
    NotProjectMember,
    BranchExists,
    CheckoutAdvanced,
    CheckoutHasLocalFiles,
    CheckoutParent,
    ReservedBranchAdvanced,
    InvalidTtl,
    UnknownWorkspace,
    WorkspaceRevisionChanged,
    NotReady,
    StaleGeneration,
    LiveOwner,
    GenerationExhausted,
    NotActive,
    NoOwner,
    OwnerRequired,
    IntegrationOrAbandonment,
    TargetsRequired,
    MissingTarget,
    NotIntegrated(String),
    MissingProject,
    MissingLease,
    ConversionOverflow,
    Managed,
    CollectionBlocked(String),
    NotReadyForBuilds,
    WorkspaceMissing,
    CheckoutProblem(String),
    AbsolutePathRequired(String),
    UnsafePath(String),
    SymlinkInPath(String),
    RevisionRequired,
    CheckoutRootChanged,
    LinkedCheckoutMissing,
    DifferentRepository,
    BranchChanged,
    NotRegistered,
    WorktreeLocked,
    ActiveProcesses,
    InspectionInconclusive(String),
    UnmanagedSymlink(String),
    ProjectionNotFile,
    ProjectionModified,
    UnmanagedContent(String),
    MissingArgument(usize),
    InvalidNumber(NumberProblem),
    WatchBinary,
    ExpectedAssignment,
    UnknownCommand(String),
    UnexpectedEvent,
    Io(String),
}

/// The text reported for an error.
pub open spec fn message_of(e: Error) -> Seq<char> {
    match e {
        Error::InvalidComponent(s) => "invalid ID/path component: "@ + s@,
        Error::ActionRequired => "action required"@,
        Error::RequestReused => "request_id reused with a different payload"@,
        Error::RevisionExhausted => "revision exhausted"@,
        Error::UnsupportedJournalVersion(v) => "unsupported journal version "@ + crate::text::decimal(v as int),
        Error::RootChanged => "workspace root changed; explicit migration required"@,
        Error::RepositoryRequired => "repository required"@,
        Error::NamespaceRequired => "namespace required"@,
        Error::CloneUrlMismatch => "clone_url must match the explicit identity (canonical HTTPS or SSH, no embedded credentials)"@,
        Error::RepositoryIdRegistered => "repository ID already registered"@,
        Error::IdentityRegistered => "repository identity already registered"@,
        Error::PhysicalRegistered => "physical repository already registered"@,
        Error::CloneDestinationExists => "clone destination already exists; adopt it explicitly"@,
        Error::NotPrimaryClone => "an ordinary primary clone is required; partial clones are retained for inspection"@,
        Error::NotRepositoryRoot => "path is not repository root"@,
        Error::OriginChanged => "partial clone origin changed"@,
        Error::NoHead(c) => "clone has no HEAD; inspect it before retrying: "@ + c@,
        Error::ProjectRequired => "project required"@,
        Error::DuplicateRepositoryIds => "duplicate repository IDs"@,
        Error::RetentionTooLong => "retention exceeds one year"@,
        Error::UnknownRepository => "unknown repository or clone not ready"@,
        Error::ProjectRevisionChanged => "project revision changed"@,
        Error::VolumeMissing => "workspace volume is missing; mount it before provisioning"@,
        Error::MissingProvisioningJournal => "missing provisioning journal"@,
        Error::WorkspaceIdExists => "workspace ID already exists"@,
        Error::UnknownProject => "unknown project"@,
        Error::WorkspacePathExists => "workspace path exists; refusing unknown contents"@,
        Error::NotProjectMember => "repository is not a project member"@,
        Error::BranchExists => "workspace branch already exists"@,
        Error::CheckoutAdvanced => "interrupted checkout has advanced; inspect it"@,
        Error::CheckoutHasLocalFiles => "interrupted checkout contains local files; inspect it"@,
        Error::CheckoutParent => "checkout parent"@,
        Error::ReservedBranchAdvanced => "reserved branch has advanced"@,
        Error::InvalidTtl => "lease TTL must be 1..3600 seconds"@,
        Error::UnknownWorkspace => "unknown workspace"@,
        Error::WorkspaceRevisionChanged => "workspace revision changed"@,
        Error::NotReady => "workspace is not ready"@,
        Error::StaleGeneration => "stale fencing generation"@,
        Error::LiveOwner => "workspace has a live owner"@,
        Error::GenerationExhausted => "generation exhausted"@,
        Error::NotActive => "workspace must be actively leased before release"@,
        Error::NoOwner => "workspace has no owner"@,
        Error::OwnerRequired => "live owner and current fencing generation required"@,
        Error::IntegrationOrAbandonment => "choose integration or explicit abandonment"@,
        Error::TargetsRequired => "integration target required for every checkout"@,
        Error::MissingTarget => "missing integration target"@,
        Error::NotIntegrated(c) => "workspace commits are not in integration target: "@ + c@,
        Error::MissingProject => "missing project"@,
        Error::MissingLease => "missing lease"@,
        Error::ConversionOverflow => "out of range integral type conversion attempted"@,
        Error::Managed => "managed workspace: use WorkspaceService collection after releasing ownership"@,
        Error::CollectionBlocked(r) => "collection blocked: "@ + r@,
        Error::NotReadyForBuilds => "workspace is not ready for builds"@,
        Error::WorkspaceMissing => "workspace missing"@,
        Error::CheckoutProblem(p) => p@,
        Error::AbsolutePathRequired(p) => "absolute path required: "@ + p@,
        Error::UnsafePath(p) => "unsafe path: "@ + p@,
        Error::SymlinkInPath(p) => "symlink in managed path: "@ + p@,
        Error::RevisionRequired => "explicit revision required"@,
        Error::CheckoutRootChanged => "checkout root changed"@,
        Error::LinkedCheckoutMissing => "linked checkout missing or replaced"@,
        Error::DifferentRepository => "checkout belongs to a different Git repository"@,
        Error::BranchChanged => "workspace branch changed; inspect it"@,
        Error::NotRegistered => "checkout not registered"@,
        Error::WorktreeLocked => "Git worktree is locked"@,
        Error::ActiveProcesses => "active processes hold files or working directories in the workspace"@,
        Error::InspectionInconclusive(e) => "process inspection inconclusive: "@ + e@,
        Error::UnmanagedSymlink(p) => "unmanaged symlink retained: "@ + p@,
        Error::ProjectionNotFile => "projection is not a file"@,
        Error::ProjectionModified => "modified workspace projection needs review"@,
        Error::UnmanagedContent(p) => "unmanaged content retained: "@ + p@,
        Error::MissingArgument(i) => "missing argument "@ + crate::text::decimal(i as int) + "; run fv-workspace help"@,
        Error::InvalidNumber(NumberProblem::Empty) => "cannot parse integer from empty string"@,
        Error::InvalidNumber(NumberProblem::InvalidDigit) => "invalid digit found in string"@,
        Error::InvalidNumber(NumberProblem::TooLarge) => "number too large to fit in target type"@,
        Error::WatchBinary => "watch is a snapshot stream; use the generated gRPC client for machine consumption"@,
        Error::ExpectedAssignment => "expected REPO=REVISION"@,
        Error::UnknownCommand(c) => "unknown command "@ + c@ + "; run fv-workspace help"@,
        Error::UnexpectedEvent => "a step was reported out of order"@,
        Error::Io(m) => m@,
    }
}

fn lit(s: &str) -> (r: String)
    ensures
        r@ == s@,
{
    String::from_str(s)
}

fn with(prefix: &str, detail: &String) -> (r: String)
    ensures
        r@ == prefix@ + detail@,
{
    String::from_str(prefix).concat(detail.as_str())
}

impl Error {
    /// The text reported for this error.
    pub fn message(&self) -> (m: String)
        ensures
            m@ == message_of(*self),
    {
        match self {
            Error::InvalidComponent(s) => with("invalid ID/path component: ", s),
            Error::ActionRequired => lit("action required"),
            Error::RequestReused => lit("request_id reused with a different payload"),
            Error::RevisionExhausted => lit("revision exhausted"),
            Error::UnsupportedJournalVersion(v) => {
                let d = crate::text::render_u64(*v as u64);
                with("unsupported journal version ", &d)
            },
            Error::RootChanged => lit("workspace root changed; explicit migration required"),
            Error::RepositoryRequired => lit("repository required"),
            Error::NamespaceRequired => lit("namespace required"),
            Error::CloneUrlMismatch => lit("clone_url must match the explicit identity (canonical HTTPS or SSH, no embedded credentials)"),
            Error::RepositoryIdRegistered => lit("repository ID already registered"),
            Error::IdentityRegistered => lit("repository identity already registered"),
            Error::PhysicalRegistered => lit("physical repository already registered"),
            Error::CloneDestinationExists => lit("clone destination already exists; adopt it explicitly"),
            Error::NotPrimaryClone => lit("an ordinary primary clone is required; partial clones are retained for inspection"),
            Error::NotRepositoryRoot => lit("path is not repository root"),
            Error::OriginChanged => lit("partial clone origin changed"),
            Error::NoHead(c) => with("clone has no HEAD; inspect it before retrying: ", c),
            Error::ProjectRequired => lit("project required"),
            Error::DuplicateRepositoryIds => lit("duplicate repository IDs"),
            Error::RetentionTooLong => lit("retention exceeds one year"),
            Error::UnknownRepository => lit("unknown repository or clone not ready"),
            Error::ProjectRevisionChanged => lit("project revision changed"),
            Error::VolumeMissing => lit("workspace volume is missing; mount it before provisioning"),
            Error::MissingProvisioningJournal => lit("missing provisioning journal"),
            Error::WorkspaceIdExists => lit("workspace ID already exists"),
            Error::UnknownProject => lit("unknown project"),
            Error::WorkspacePathExists => lit("workspace path exists; refusing unknown contents"),
            Error::NotProjectMember => lit("repository is not a project member"),
            Error::BranchExists => lit("workspace branch already exists"),
            Error::CheckoutAdvanced => lit("interrupted checkout has advanced; inspect it"),
            Error::CheckoutHasLocalFiles => lit("interrupted checkout contains local files; inspect it"),
            Error::CheckoutParent => lit("checkout parent"),
            Error::ReservedBranchAdvanced => lit("reserved branch has advanced"),
            Error::InvalidTtl => lit("lease TTL must be 1..3600 seconds"),
            Error::UnknownWorkspace => lit("unknown workspace"),
            Error::WorkspaceRevisionChanged => lit("workspace revision changed"),
            Error::NotReady => lit("workspace is not ready"),
            Error::StaleGeneration => lit("stale fencing generation"),
            Error::LiveOwner => lit("workspace has a live owner"),
            Error::GenerationExhausted => lit("generation exhausted"),
            Error::NotActive => lit("workspace must be actively leased before release"),
            Error::NoOwner => lit("workspace has no owner"),
            Error::OwnerRequired => lit("live owner and current fencing generation required"),
            Error::IntegrationOrAbandonment => lit("choose integration or explicit abandonment"),
            Error::TargetsRequired => lit("integration target required for every checkout"),
            Error::MissingTarget => lit("missing integration target"),
            Error::NotIntegrated(c) => with("workspace commits are not in integration target: ", c),
            Error::MissingProject => lit("missing project"),
            Error::MissingLease => lit("missing lease"),
            Error::ConversionOverflow => lit("out of range integral type conversion attempted"),
            Error::Managed => lit("managed workspace: use WorkspaceService collection after releasing ownership"),
            Error::CollectionBlocked(r) => with("collection blocked: ", r),
            Error::NotReadyForBuilds => lit("workspace is not ready for builds"),
            Error::WorkspaceMissing => lit("workspace missing"),
            Error::CheckoutProblem(p) => p.clone(),
            Error::AbsolutePathRequired(p) => with("absolute path required: ", p),
            Error::UnsafePath(p) => with("unsafe path: ", p),
            Error::SymlinkInPath(p) => with("symlink in managed path: ", p),
            Error::RevisionRequired => lit("explicit revision required"),
            Error::CheckoutRootChanged => lit("checkout root changed"),
            Error::LinkedCheckoutMissing => lit("linked checkout missing or replaced"),
            Error::DifferentRepository => lit("checkout belongs to a different Git repository"),
            Error::BranchChanged => lit("workspace branch changed; inspect it"),
            Error::NotRegistered => lit("checkout not registered"),
            Error::WorktreeLocked => lit("Git worktree is locked"),
            Error::ActiveProcesses => lit("active processes hold files or working directories in the workspace"),
            Error::InspectionInconclusive(e) => with("process inspection inconclusive: ", e),
            Error::UnmanagedSymlink(p) => with("unmanaged symlink retained: ", p),
            Error::ProjectionNotFile => lit("projection is not a file"),
            Error::ProjectionModified => lit("modified workspace projection needs review"),
            Error::UnmanagedContent(p) => with("unmanaged content retained: ", p),
            Error::MissingArgument(i) => {
                let d = crate::text::render_u64(*i as u64);
                with("missing argument ", &d).concat("; run fv-workspace help")
            },
            Error::InvalidNumber(NumberProblem::Empty) => lit("cannot parse integer from empty string"),
            Error::InvalidNumber(NumberProblem::InvalidDigit) => lit("invalid digit found in string"),
            Error::InvalidNumber(NumberProblem::TooLarge) => lit("number too large to fit in target type"),
            Error::WatchBinary => lit("watch is a snapshot stream; use the generated gRPC client for machine consumption"),
            Error::ExpectedAssignment => lit("expected REPO=REVISION"),
            Error::UnknownCommand(c) => with("unknown command ", c).concat("; run fv-workspace help"),
            Error::UnexpectedEvent => lit("a step was reported out of order"),
            Error::Io(m) => m.clone(),
        }
    }
    /// An identical copy.
    pub fn duplicate(&self) -> (r: Error)
        ensures
            r == *self,
    {
        match self {
            Error::InvalidComponent(x) => Error::InvalidComponent(x.clone()),
            Error::ActionRequired => Error::ActionRequired,
            Error::RequestReused => Error::RequestReused,
            Error::RevisionExhausted => Error::RevisionExhausted,
            Error::UnsupportedJournalVersion(x) => Error::UnsupportedJournalVersion(*x),
            Error::RootChanged => Error::RootChanged,
            Error::RepositoryRequired => Error::RepositoryRequired,
            Error::NamespaceRequired => Error::NamespaceRequired,
            Error::CloneUrlMismatch => Error::CloneUrlMismatch,
            Error::RepositoryIdRegistered => Error::RepositoryIdRegistered,
            Error::IdentityRegistered => Error::IdentityRegistered,
            Error::PhysicalRegistered => Error::PhysicalRegistered,
            Error::CloneDestinationExists => Error::CloneDestinationExists,
            Error::NotPrimaryClone => Error::NotPrimaryClone,
            Error::NotRepositoryRoot => Error::NotRepositoryRoot,
            Error::OriginChanged => Error::OriginChanged,
            Error::NoHead(x) => Error::NoHead(x.clone()),
            Error::ProjectRequired => Error::ProjectRequired,
            Error::DuplicateRepositoryIds => Error::DuplicateRepositoryIds,
            Error::RetentionTooLong => Error::RetentionTooLong,
            Error::UnknownRepository => Error::UnknownRepository,
            Error::ProjectRevisionChanged => Error::ProjectRevisionChanged,
            Error::VolumeMissing => Error::VolumeMissing,
            Error::MissingProvisioningJournal => Error::MissingProvisioningJournal,
            Error::WorkspaceIdExists => Error::WorkspaceIdExists,
            Error::UnknownProject => Error::UnknownProject,
            Error::WorkspacePathExists => Error::WorkspacePathExists,
            Error::NotProjectMember => Error::NotProjectMember,
            Error::BranchExists => Error::BranchExists,
            Error::CheckoutAdvanced => Error::CheckoutAdvanced,
            Error::CheckoutHasLocalFiles => Error::CheckoutHasLocalFiles,
            Error::CheckoutParent => Error::CheckoutParent,
            Error::ReservedBranchAdvanced => Error::ReservedBranchAdvanced,
            Error::InvalidTtl => Error::InvalidTtl,
            Error::UnknownWorkspace => Error::UnknownWorkspace,
            Error::WorkspaceRevisionChanged => Error::WorkspaceRevisionChanged,
            Error::NotReady => Error::NotReady,
            Error::StaleGeneration => Error::StaleGeneration,
            Error::LiveOwner => Error::LiveOwner,
            Error::GenerationExhausted => Error::GenerationExhausted,
            Error::NotActive => Error::NotActive,
            Error::NoOwner => Error::NoOwner,
            Error::OwnerRequired => Error::OwnerRequired,
            Error::IntegrationOrAbandonment => Error::IntegrationOrAbandonment,
            Error::TargetsRequired => Error::TargetsRequired,
            Error::MissingTarget => Error::MissingTarget,
            Error::NotIntegrated(x) => Error::NotIntegrated(x.clone()),
            Error::MissingProject => Error::MissingProject,
            Error::MissingLease => Error::MissingLease,
            Error::ConversionOverflow => Error::ConversionOverflow,
            Error::Managed => Error::Managed,
            Error::CollectionBlocked(x) => Error::CollectionBlocked(x.clone()),
            Error::NotReadyForBuilds => Error::NotReadyForBuilds,
            Error::WorkspaceMissing => Error::WorkspaceMissing,
            Error::CheckoutProblem(x) => Error::CheckoutProblem(x.clone()),
            Error::AbsolutePathRequired(x) => Error::AbsolutePathRequired(x.clone()),
            Error::UnsafePath(x) => Error::UnsafePath(x.clone()),
            Error::SymlinkInPath(x) => Error::SymlinkInPath(x.clone()),
            Error::RevisionRequired => Error::RevisionRequired,
            Error::CheckoutRootChanged => Error::CheckoutRootChanged,
            Error::LinkedCheckoutMissing => Error::LinkedCheckoutMissing,
            Error::DifferentRepository => Error::DifferentRepository,
            Error::BranchChanged => Error::BranchChanged,
            Error::NotRegistered => Error::NotRegistered,
            Error::WorktreeLocked => Error::WorktreeLocked,
            Error::ActiveProcesses => Error::ActiveProcesses,
            Error::InspectionInconclusive(x) => Error::InspectionInconclusive(x.clone()),
            Error::UnmanagedSymlink(x) => Error::UnmanagedSymlink(x.clone()),
            Error::ProjectionNotFile => Error::ProjectionNotFile,
            Error::ProjectionModified => Error::ProjectionModified,
            Error::UnmanagedContent(x) => Error::UnmanagedContent(x.clone()),
            Error::MissingArgument(x) => Error::MissingArgument(*x),
            Error::InvalidNumber(x) => Error::InvalidNumber(*x),
            Error::WatchBinary => Error::WatchBinary,
            Error::ExpectedAssignment => Error::ExpectedAssignment,
            Error::UnknownCommand(x) => Error::UnknownCommand(x.clone()),
            Error::UnexpectedEvent => Error::UnexpectedEvent,
            Error::Io(x) => Error::Io(x.clone()),
        }
    }
}


} // verus!
