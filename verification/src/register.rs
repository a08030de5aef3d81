//! The catalog: adopting or cloning repositories, and project definitions.
use vstd::prelude::*;
use vstd::string::*;
use crate::catalog::{
    repo_index, repo, repo_id_index, find_repository, project_index, find_project,
};
use crate::copy::{same_project, copy_project, copy_repository};
use crate::error::{Error, message_of};
use crate::ident::{token, namespace, unique, first_bad_part, namespace_parts};
use crate::model::{ProjectSpec, PutProject, RegisterRepository, Repository, WorkspaceSnapshot};
use crate::path::{join, join_path, same_path, paths_equal};
use crate::seqs::views;
use crate::store::Store;
use crate::text::{valid_token, eq_ignore_ascii_case, same_ignoring_ascii_case};

verus! {

/// The canonical HTTPS clone URL of a repository identity.
pub open spec fn https_url(r: Repository) -> Seq<char> {
    "https://"@ + r.host@ + "/"@ + r.namespace@ + "/"@ + r.name@ + ".git"@
}

/// The canonical SSH clone URL of a repository identity.
pub open spec fn ssh_url(r: Repository) -> Seq<char> {
    "git@"@ + r.host@ + ":"@ + r.namespace@ + "/"@ + r.name@ + ".git"@
}

/// Where a cloned repository is stored: `<root>/repos/<host>/<namespace>/<name>`.
pub open spec fn clone_path(root: Seq<char>, r: Repository) -> Seq<char> {
    join(join(join(join(root, "repos"@), r.host@), r.namespace@), r.name@)
}

/// A validated registration: the repository as it will be recorded (its
/// path set when cloning, its clone URL dropped when adopting) and whether
/// it is cloned.
pub struct RegisterPlan {
    pub repository: Repository,
    pub cloning: bool,
}

/// The identity fields are tokens and the namespace is valid.
pub open spec fn identity_valid(r: Repository) -> bool {
    &&& valid_token(r.id@)
    &&& valid_token(r.host@)
    &&& valid_token(r.name@)
    &&& r.namespace@.len() > 0
    &&& first_bad_part(r.namespace@) == -1
}

/// What validating registration `request` gives, as `register_start`
/// decides it: the refusal of the first invalid identity field or of a clone
/// URL that is not the identity's canonical HTTPS or SSH form, or the plan.
pub open spec fn registration_started(store: Store, request: RegisterRepository, res: Result<RegisterPlan, Error>) -> bool {
    &&& (request.repository is None ==> res == Err::<RegisterPlan, Error>(Error::RepositoryRequired))
    &&& (request.repository matches Some(r) ==> {
            &&& !valid_token(r.id@) ==> rejects_plan(res, r.id@)
            &&& valid_token(r.id@) && !valid_token(r.host@) ==> rejects_plan(res, r.host@)
            &&& valid_token(r.id@) && valid_token(r.host@) && !valid_token(r.name@) ==> rejects_plan(res, r.name@)
            &&& valid_token(r.id@) && valid_token(r.host@) && valid_token(r.name@) && r.namespace@.len() == 0
                ==> res == Err::<RegisterPlan, Error>(Error::NamespaceRequired)
            &&& valid_token(r.id@) && valid_token(r.host@) && valid_token(r.name@) && r.namespace@.len() > 0
                && first_bad_part(r.namespace@) != -1 ==> rejects_plan(res, namespace_parts(r.namespace@)[first_bad_part(r.namespace@)])
            &&& identity_valid(r) ==> if r.path@.len() == 0 {
                if r.clone_url@ != https_url(r) && r.clone_url@ != ssh_url(r) {
                    res == Err::<RegisterPlan, Error>(Error::CloneUrlMismatch)
                } else {
                    res matches Ok(plan) && plan.cloning && plan.repository == Repository { path: plan.repository.path, ..r }
                        && plan.repository.path@ == clone_path(store.root@, r)
                }
            } else {
                res matches Ok(plan) && !plan.cloning && plan.repository == Repository { clone_url: plan.repository.clone_url, ..r }
                    && plan.repository.clone_url@.len() == 0
            }
        })
}

/// Validates a registration. An empty path asks for a clone: its URL must be
/// the canonical HTTPS or SSH form of the identity (no embedded credentials),
/// and it goes under the volume's `repos`. Otherwise an existing clone is
/// adopted where it is.
pub fn register_start(store: &Store, request: &RegisterRepository) -> (res: Result<RegisterPlan, Error>)
    ensures
        registration_started(*store, *request, res),

{
    let r = match &request.repository {
        None => return Err(Error::RepositoryRequired),
        Some(r) => r,
    };
    token(r.id.as_str())?;
    token(r.host.as_str())?;
    token(r.name.as_str())?;
    namespace(r.namespace.as_str())?;
    let mut planned = copy_repository(r);
    let cloning = r.path.unicode_len() == 0;
    if cloning {
        let https = String::from_str("https://").concat(r.host.as_str()).concat("/").concat(
            r.namespace.as_str(),
        ).concat("/").concat(r.name.as_str()).concat(".git");
        let ssh = String::from_str("git@").concat(r.host.as_str()).concat(":").concat(
            r.namespace.as_str(),
        ).concat("/").concat(r.name.as_str()).concat(".git");
        if !(r.clone_url == https || r.clone_url == ssh) {
            return Err(Error::CloneUrlMismatch);
        }
        let p1 = join_path(store.root.as_str(), "repos");
        let p2 = join_path(p1.as_str(), r.host.as_str());
        let p3 = join_path(p2.as_str(), r.namespace.as_str());
        planned.path = join_path(p3.as_str(), r.name.as_str());
    } else {
        planned.clone_url = String::new();
    }
    Ok(RegisterPlan { repository: planned, cloning })
}

/// The error a rejected identity field is reported with.
pub open spec fn rejects_plan(r: Result<RegisterPlan, Error>, s: Seq<char>) -> bool {
    r matches Err(Error::InvalidComponent(t)) && t@ == s
}

/// Another registration already claims this identity: the same host (up to
/// ASCII case), namespace and name.
pub open spec fn identity_taken(s: WorkspaceSnapshot, r: Repository) -> bool {
    exists|i: int|
        0 <= i < s.repositories@.len() && eq_ignore_ascii_case(
            (#[trigger] s.repositories@[i]).host@,
            r.host@,
        ) && s.repositories@[i].namespace@ == r.namespace@ && s.repositories@[i].name@ == r.name@
}

/// Another registration already claims this clone location.
pub open spec fn location_taken(s: WorkspaceSnapshot, r: Repository) -> bool {
    exists|i: int| 0 <= i < s.repositories@.len() && same_path((#[trigger] s.repositories@[i]).path@, r.path@)
}

/// A registration under an existing ID only resumes its own interrupted
/// clone: same location, identity and URL, not yet ready.
pub open spec fn resumes(old: Repository, plan: RegisterPlan) -> bool {
    let r = plan.repository;
    &&& plan.cloning
    &&& !old.ready
    &&& old.path@ == r.path@
    &&& old.host@ == r.host@
    &&& old.namespace@ == r.namespace@
    &&& old.name@ == r.name@
    &&& old.clone_url@ == r.clone_url@
}

/// What admitting a validated registration against the catalog gives: the
/// refusals, or whether a new clone must be reserved first.
pub open spec fn admission(s: WorkspaceSnapshot, plan: RegisterPlan) -> Result<bool, Error> {
    let k = repo_id_index(s, plan.repository.id@);
    if k >= 0 {
        if resumes(s.repositories@[k], plan) {
            Ok(false)
        } else {
            Err(Error::RepositoryIdRegistered)
        }
    } else if identity_taken(s, plan.repository) {
        Err(Error::IdentityRegistered)
    } else if location_taken(s, plan.repository) {
        Err(Error::PhysicalRegistered)
    } else {
        Ok(plan.cloning)
    }
}

/// Admits a validated registration against the catalog. Returns whether the
/// clone must be reserved in the journal (a new clone) before Git runs.
pub fn register_admit(s: &WorkspaceSnapshot, plan: &RegisterPlan) -> (res: Result<bool, Error>)
    ensures
        res == admission(*s, *plan),
{
    let r = &plan.repository;
    match find_repository(s, r.id.as_str()) {
        Some(k) => {
            let old = &s.repositories[k];
            if plan.cloning && !old.ready && old.path == r.path && old.host == r.host && old.namespace
                == r.namespace && old.name == r.name && old.clone_url == r.clone_url {
                Ok(false)
            } else {
                Err(Error::RepositoryIdRegistered)
            }
        },
        None => {
            let mut i: usize = 0;
            while i < s.repositories.len()
                invariant
                    i <= s.repositories@.len(),
                    *r == plan.repository,
                    repo_id_index(*s, r.id@) < 0,
                    forall|j: int|
                        0 <= j < i ==> !(eq_ignore_ascii_case(
                            (#[trigger] s.repositories@[j]).host@,
                            r.host@,
                        ) && s.repositories@[j].namespace@ == r.namespace@ && s.repositories@[j].name@
                            == r.name@),
                decreases s.repositories@.len() - i,
            {
                let x = &s.repositories[i];
                if same_ignoring_ascii_case(x.host.as_str(), r.host.as_str()) && x.namespace
                    == r.namespace && x.name == r.name {
                    return Err(Error::IdentityRegistered);
                }
                i = i + 1;
            }
            let mut i: usize = 0;
            while i < s.repositories.len()
                invariant
                    i <= s.repositories@.len(),
                    *r == plan.repository,
                    repo_id_index(*s, r.id@) < 0,
                    !identity_taken(*s, *r),
                    forall|j: int| 0 <= j < i ==> !same_path((#[trigger] s.repositories@[j]).path@, r.path@),
                decreases s.repositories@.len() - i,
            {
                if paths_equal(s.repositories[i].path.as_str(), r.path.as_str()) {
                    return Err(Error::PhysicalRegistered);
                }
                i = i + 1;
            }
            Ok(plan.cloning)
        },
    }
}

/// Reserves a new clone in the catalog, not yet ready, so an interrupted
/// clone stays visible and is never deleted to retry it.
pub fn register_reserve(s: &mut WorkspaceSnapshot, plan: &RegisterPlan)
    ensures
        final(s).repositories@ == old(s).repositories@.push(
            Repository { ready: false, ..plan.repository },
        ),
        final(s).schema_version == old(s).schema_version,
        final(s).root == old(s).root,
        final(s).revision == old(s).revision,
        final(s).projects == old(s).projects,
        final(s).workspaces == old(s).workspaces,
        final(s).operations == old(s).operations,
{
    let mut r = copy_repository(&plan.repository);
    r.ready = false;
    s.repositories.push(r);
}

/// Records a verified clone as ready at its canonical location, replacing
/// the registration with its ID or adding it.
pub fn register_complete(s: &mut WorkspaceSnapshot, plan: &RegisterPlan, canonical: String)
    ensures
        ({
            let k = repo_id_index(*old(s), plan.repository.id@);
            let done = Repository { path: canonical, ready: true, ..plan.repository };
            if k >= 0 {
                final(s).repositories@ == old(s).repositories@.update(k, done)
            } else {
                final(s).repositories@ == old(s).repositories@.push(done)
            }
        }),
        final(s).schema_version == old(s).schema_version,
        final(s).root == old(s).root,
        final(s).revision == old(s).revision,
        final(s).projects == old(s).projects,
        final(s).workspaces == old(s).workspaces,
        final(s).operations == old(s).operations,
{
    let mut r = copy_repository(&plan.repository);
    r.path = canonical;
    r.ready = true;
    match find_repository(s, plan.repository.id.as_str()) {
        Some(k) => s.repositories.set(k, r),
        None => s.repositories.push(r),
    }
}

/// A clone is adopted only at its repository root.
pub fn repository_root(toplevel: &str, canonical: &str) -> (r: Result<(), Error>)
    ensures
        r is Ok <==> toplevel@ == canonical@,
        r is Err ==> r == Err::<(), Error>(Error::NotRepositoryRoot),
{
    if crate::text::same(toplevel, canonical) {
        Ok(())
    } else {
        Err(Error::NotRepositoryRoot)
    }
}

/// A resumed clone must still fetch from the URL it was reserved with.
pub fn clone_origin(origin: &str, plan: &RegisterPlan) -> (r: Result<(), Error>)
    ensures
        r is Ok <==> origin@ == plan.repository.clone_url@,
        r is Err ==> r == Err::<(), Error>(Error::OriginChanged),
{
    if crate::text::same(origin, plan.repository.clone_url.as_str()) {
        Ok(())
    } else {
        Err(Error::OriginChanged)
    }
}

/// A new clone never lands on anything already at its destination; what is
/// there has to be adopted explicitly.
pub fn clone_destination_free(exists: bool) -> (r: Result<(), Error>)
    ensures
        r is Ok <==> !exists,
        r is Err ==> r == Err::<(), Error>(Error::CloneDestinationExists),
{
    if exists {
        Err(Error::CloneDestinationExists)
    } else {
        Ok(())
    }
}

/// Only an ordinary primary clone, with a `.git` directory of its own, is
/// registered; a partial clone is kept for inspection.
pub fn primary_clone(git_dir: bool) -> (r: Result<(), Error>)
    ensures
        r is Ok <==> git_dir,
        r is Err ==> r == Err::<(), Error>(Error::NotPrimaryClone),
{
    if git_dir {
        Ok(())
    } else {
        Err(Error::NotPrimaryClone)
    }
}

/// A fresh clone must resolve `HEAD` to a commit: the resolved commit, or why
/// it has none.
pub fn clone_head(head: Result<String, Error>) -> (r: Result<String, Error>)
    ensures
        head is Ok ==> r == head,
        head matches Err(e) ==> (r matches Err(Error::NoHead(m)) && m@ == message_of(e)),
{
    match head {
        Ok(h) => Ok(h),
        Err(e) => Err(Error::NoHead(e.message())),
    }
}

/// Longest retention of released work, in seconds (one year).
pub const MAX_RETENTION: u64 = 31_536_000;

/// The revision a project currently has: 0 when it does not exist yet.
pub open spec fn project_revision(s: WorkspaceSnapshot, id: Seq<char>) -> u64 {
    let k = project_index(s, id);
    if k >= 0 { s.projects@[k].revision } else { 0 }
}

/// Why a project definition with a token ID is refused; none when accepted.
pub open spec fn project_refusal(s: WorkspaceSnapshot, p: ProjectSpec, expected_revision: u64) -> Option<Error> {
    if !views(p.repository_ids@).no_duplicates() {
        Some(Error::DuplicateRepositoryIds)
    } else if p.retention_seconds > MAX_RETENTION {
        Some(Error::RetentionTooLong)
    } else if exists|i: int| 0 <= i < p.repository_ids@.len() && repo_index(s, #[trigger] p.repository_ids@[i]@) < 0 {
        Some(Error::UnknownRepository)
    } else if project_revision(s, p.id@) != expected_revision {
        Some(Error::ProjectRevisionChanged)
    } else if expected_revision == u64::MAX {
        Some(Error::RevisionExhausted)
    } else {
        None
    }
}

/// Validates a project definition against the catalog: its repositories
/// exist, are ready and distinct, retention is at most a year, and the caller
/// saw the current revision. Returns the definition at its next revision.
pub fn plan_project(s: &WorkspaceSnapshot, request: &PutProject) -> (res: Result<ProjectSpec, Error>)
    ensures
        request.project is None ==> res == Err::<ProjectSpec, Error>(Error::ProjectRequired),
        request.project matches Some(p) ==> {
            &&& !valid_token(p.id@) ==> (res matches Err(Error::InvalidComponent(t)) && t@ == p.id@)
            &&& valid_token(p.id@) ==> match project_refusal(*s, p, request.expected_revision) {
                Some(e) => res == Err::<ProjectSpec, Error>(e),
                None => res matches Ok(q) && same_project(
                    q,
                    ProjectSpec { revision: (request.expected_revision + 1) as u64, ..p },
                ),
            }
        },
{
    let p = match &request.project {
        None => return Err(Error::ProjectRequired),
        Some(p) => p,
    };
    token(p.id.as_str())?;
    unique(&p.repository_ids)?;
    if p.retention_seconds > MAX_RETENTION {
        return Err(Error::RetentionTooLong);
    }
    let mut i: usize = 0;
    while i < p.repository_ids.len()
        invariant
            i <= p.repository_ids@.len(),
            request.project == Some(*p),
            valid_token(p.id@),
            views(p.repository_ids@).no_duplicates(),
            p.retention_seconds <= MAX_RETENTION,
            forall|j: int| 0 <= j < i ==> repo_index(*s, #[trigger] p.repository_ids@[j]@) >= 0,
        decreases p.repository_ids@.len() - i,
    {
        if repo(s, p.repository_ids[i].as_str()).is_err() {
            assert(repo_index(*s, p.repository_ids@[i as int]@) < 0);
            return Err(Error::UnknownRepository);
        }
        i = i + 1;
    }
    let current = match find_project(s, p.id.as_str()) {
        Some(k) => s.projects[k].revision,
        None => 0,
    };
    if current != request.expected_revision {
        return Err(Error::ProjectRevisionChanged);
    }
    let next = match request.expected_revision.checked_add(1) {
        Some(n) => n,
        None => return Err(Error::RevisionExhausted),
    };
    let mut q = copy_project(p);
    q.revision = next;
    Ok(q)
}

/// Stores a project definition, replacing the one with its ID or adding it.
pub fn put_project(s: &mut WorkspaceSnapshot, p: ProjectSpec)
    ensures
        crate::catalog::evolves(*old(s), *final(s)),
        ({
            let k = project_index(*old(s), p.id@);
            if k >= 0 {
                final(s).projects@ == old(s).projects@.update(k, p)
            } else {
                final(s).projects@ == old(s).projects@.push(p)
            }
        }),
        final(s).schema_version == old(s).schema_version,
        final(s).root == old(s).root,
        final(s).revision == old(s).revision,
        final(s).repositories == old(s).repositories,
        final(s).workspaces == old(s).workspaces,
        final(s).operations == old(s).operations,
{
    match find_project(s, p.id.as_str()) {
        Some(k) => s.projects.set(k, p),
        None => s.projects.push(p),
    }
}

} // verus!
