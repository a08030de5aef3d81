//! Finding records in the journal by ID.
use vstd::prelude::*;
use crate::error::Error;
use crate::model::{ManagedWorkspace, ProjectSpec, Repository, RepositoryInput, WorkspacePhase, WorkspaceSnapshot};
use crate::seqs::{views, is_first, first_index, lemma_first_index_found, lemma_first_index_none};

verus! {

/// Holds of the workspace with this ID.
pub open spec fn ws_named(id: Seq<char>) -> spec_fn(ManagedWorkspace) -> bool {
    |w: ManagedWorkspace| w.id@ == id
}

/// The position of the workspace with this ID, or -1.
pub open spec fn ws_index(s: WorkspaceSnapshot, id: Seq<char>) -> int {
    first_index(s.workspaces@, ws_named(id))
}

/// Finds the workspace with this ID.
pub fn find_workspace(s: &WorkspaceSnapshot, id: &str) -> (r: Option<usize>)
    ensures
        -1 <= ws_index(*s, id@) < s.workspaces@.len(),
        ws_index(*s, id@) >= 0 ==> (r matches Some(i) && i as int == ws_index(*s, id@)),
        ws_index(*s, id@) < 0 ==> r is None,
        r matches Some(i) ==> i < s.workspaces@.len(),
{
    let ghost p = ws_named(id@);
    let mut i: usize = 0;
    while i < s.workspaces.len()
        invariant
            p == ws_named(id@),
            i <= s.workspaces.len(),
            forall|j: int| 0 <= j < i ==> !p(#[trigger] s.workspaces@[j]),
        decreases s.workspaces.len() - i,
    {
        if crate::text::same(s.workspaces[i].id.as_str(), id) {
            proof {
                assert(is_first(s.workspaces@, p, i as int));
                lemma_first_index_found(s.workspaces@, p, i as int);
            }
            return Some(i);
        }
        i = i + 1;
    }
    proof { lemma_first_index_none(s.workspaces@, p); }
    None
}

/// The workspace with this ID, or `unknown workspace`.
pub fn workspace_position(s: &WorkspaceSnapshot, id: &str) -> (r: Result<usize, Error>)
    ensures
        -1 <= ws_index(*s, id@) < s.workspaces@.len(),
        ws_index(*s, id@) >= 0 ==> (r matches Ok(i) && i as int == ws_index(*s, id@)),
        ws_index(*s, id@) < 0 ==> r == Err::<usize, Error>(Error::UnknownWorkspace),
        r matches Ok(i) ==> i < s.workspaces@.len(),
{
    match find_workspace(s, id) {
        Some(i) => Ok(i),
        None => Err(Error::UnknownWorkspace),
    }
}

/// Holds of a ready repository with this ID.
pub open spec fn repo_named(id: Seq<char>) -> spec_fn(Repository) -> bool {
    |r: Repository| r.id@ == id && r.ready
}

/// The position of the ready repository with this ID, or -1.
pub open spec fn repo_index(s: WorkspaceSnapshot, id: Seq<char>) -> int {
    first_index(s.repositories@, repo_named(id))
}

/// The ready repository with this ID, or `unknown repository or clone not
/// ready`.
pub fn repo(s: &WorkspaceSnapshot, id: &str) -> (r: Result<usize, Error>)
    ensures
        -1 <= repo_index(*s, id@) < s.repositories@.len(),
        repo_index(*s, id@) >= 0 ==> (r matches Ok(i) && i as int == repo_index(*s, id@)),
        repo_index(*s, id@) < 0 ==> r == Err::<usize, Error>(Error::UnknownRepository),
        r matches Ok(i) ==> i < s.repositories@.len(),
{
    let ghost p = repo_named(id@);
    let mut i: usize = 0;
    while i < s.repositories.len()
        invariant
            p == repo_named(id@),
            i <= s.repositories.len(),
            forall|j: int| 0 <= j < i ==> !p(#[trigger] s.repositories@[j]),
        decreases s.repositories.len() - i,
    {
        if s.repositories[i].ready && crate::text::same(s.repositories[i].id.as_str(), id) {
            proof {
                assert(is_first(s.repositories@, p, i as int));
                lemma_first_index_found(s.repositories@, p, i as int);
            }
            return Ok(i);
        }
        i = i + 1;
    }
    proof { lemma_first_index_none(s.repositories@, p); }
    Err(Error::UnknownRepository)
}

/// Holds of a repository with this ID, ready or not.
pub open spec fn repo_id_named(id: Seq<char>) -> spec_fn(Repository) -> bool {
    |r: Repository| r.id@ == id
}

/// The position of the repository with this ID, ready or not, or -1.
pub open spec fn repo_id_index(s: WorkspaceSnapshot, id: Seq<char>) -> int {
    first_index(s.repositories@, repo_id_named(id))
}

/// Finds the repository with this ID, ready or not.
pub fn find_repository(s: &WorkspaceSnapshot, id: &str) -> (r: Option<usize>)
    ensures
        -1 <= repo_id_index(*s, id@) < s.repositories@.len(),
        repo_id_index(*s, id@) >= 0 ==> (r matches Some(i) && i as int == repo_id_index(*s, id@)),
        repo_id_index(*s, id@) < 0 ==> r is None,
        r matches Some(i) ==> i < s.repositories@.len(),
{
    let ghost p = repo_id_named(id@);
    let mut i: usize = 0;
    while i < s.repositories.len()
        invariant
            p == repo_id_named(id@),
            i <= s.repositories.len(),
            forall|j: int| 0 <= j < i ==> !p(#[trigger] s.repositories@[j]),
        decreases s.repositories.len() - i,
    {
        if crate::text::same(s.repositories[i].id.as_str(), id) {
            proof {
                assert(is_first(s.repositories@, p, i as int));
                lemma_first_index_found(s.repositories@, p, i as int);
            }
            return Some(i);
        }
        i = i + 1;
    }
    proof { lemma_first_index_none(s.repositories@, p); }
    None
}

/// Holds of the project with this ID.
pub open spec fn project_named(id: Seq<char>) -> spec_fn(ProjectSpec) -> bool {
    |p: ProjectSpec| p.id@ == id
}

/// The position of the project with this ID, or -1.
pub open spec fn project_index(s: WorkspaceSnapshot, id: Seq<char>) -> int {
    first_index(s.projects@, project_named(id))
}

/// Finds the project with this ID.
pub fn find_project(s: &WorkspaceSnapshot, id: &str) -> (r: Option<usize>)
    ensures
        -1 <= project_index(*s, id@) < s.projects@.len(),
        project_index(*s, id@) >= 0 ==> (r matches Some(i) && i as int == project_index(*s, id@)),
        project_index(*s, id@) < 0 ==> r is None,
        r matches Some(i) ==> i < s.projects@.len(),
{
    let ghost p = project_named(id@);
    let mut i: usize = 0;
    while i < s.projects.len()
        invariant
            p == project_named(id@),
            i <= s.projects.len(),
            forall|j: int| 0 <= j < i ==> !p(#[trigger] s.projects@[j]),
        decreases s.projects.len() - i,
    {
        if crate::text::same(s.projects[i].id.as_str(), id) {
            proof {
                assert(is_first(s.projects@, p, i as int));
                lemma_first_index_found(s.projects@, p, i as int);
            }
            return Some(i);
        }
        i = i + 1;
    }
    proof { lemma_first_index_none(s.projects@, p); }
    None
}

/// The repository IDs that a list of inputs names, in order.
pub open spec fn input_ids(v: Seq<RepositoryInput>) -> Seq<Seq<char>> {
    v.map_values(|x: RepositoryInput| x.repository_id@)
}

/// Collects the repository IDs that a list of inputs names.
pub fn ids_of(v: &Vec<RepositoryInput>) -> (r: Vec<String>)
    ensures
        views(r@) == input_ids(v@),
{
    let mut r: Vec<String> = Vec::new();
    let mut i: usize = 0;
    while i < v.len()
        invariant
            i <= v.len(),
            views(r@) == input_ids(v@.subrange(0, i as int)),
        decreases v.len() - i,
    {
        let ghost before = r@;
        r.push(v[i].repository_id.clone());
        assert(views(r@) =~= views(before).push(v@[i as int].repository_id@));
        i = i + 1;
        assert(input_ids(v@.subrange(0, i as int)) =~= input_ids(v@.subrange(0, i - 1)).push(
            v@[i - 1].repository_id@,
        ));
    }
    assert(v@.subrange(0, v.len() as int) =~= v@);
    r
}

/// Holds of the input for this repository.
pub open spec fn input_named(id: Seq<char>) -> spec_fn(RepositoryInput) -> bool {
    |x: RepositoryInput| x.repository_id@ == id
}

/// Finds the input for this repository.
pub fn find_input(v: &Vec<RepositoryInput>, id: &str) -> (r: Option<usize>)
    ensures
        -1 <= first_index(v@, input_named(id@)) < v@.len(),
        first_index(v@, input_named(id@)) >= 0 ==> (r matches Some(i) && i as int == first_index(v@, input_named(id@))),
        first_index(v@, input_named(id@)) < 0 ==> r is None,
        r matches Some(i) ==> i < v@.len(),
{
    let ghost p = input_named(id@);
    let mut i: usize = 0;
    while i < v.len()
        invariant
            p == input_named(id@),
            i <= v.len(),
            forall|j: int| 0 <= j < i ==> !p(#[trigger] v@[j]),
        decreases v.len() - i,
    {
        if crate::text::same(v[i].repository_id.as_str(), id) {
            proof {
                assert(is_first(v@, p, i as int));
                lemma_first_index_found(v@, p, i as int);
            }
            return Some(i);
        }
        i = i + 1;
    }
    proof { lemma_first_index_none(v@, p); }
    None
}

/// Whether a list of strings holds this one.
pub fn contains_str(v: &Vec<String>, x: &str) -> (r: bool)
    ensures
        r == views(v@).contains(x@),
{
    let mut i: usize = 0;
    while i < v.len()
        invariant
            i <= v.len(),
            forall|j: int| 0 <= j < i ==> views(v@)[j] != x@,
        decreases v.len() - i,
    {
        if crate::text::same(v[i].as_str(), x) {
            assert(views(v@)[i as int] == x@);
            return true;
        }
        i = i + 1;
    }
    false
}

/// Everything but the workspaces is the same.
pub open spec fn same_but_workspaces(a: WorkspaceSnapshot, b: WorkspaceSnapshot) -> bool {
    &&& a.schema_version == b.schema_version
    &&& a.root == b.root
    &&& a.revision == b.revision
    &&& a.repositories == b.repositories
    &&& a.projects == b.projects
    &&& a.operations == b.operations
}

/// The order of the lifecycle: provisioning, ready, active, released,
/// removing, removed.
pub open spec fn phase_rank(p: WorkspacePhase) -> int {
    match p {
        WorkspacePhase::Unspecified => 0,
        WorkspacePhase::Provisioning => 1,
        WorkspacePhase::Ready => 2,
        WorkspacePhase::Active => 3,
        WorkspacePhase::Released => 4,
        WorkspacePhase::Removing => 5,
        WorkspacePhase::Removed => 6,
    }
}

/// One step of the lifecycle, or none: provisioning to ready, ready to
/// active (a lease), active to released, released to removing, removing to
/// removed.
pub open spec fn allowed_move(from: WorkspacePhase, to: WorkspacePhase) -> bool {
    ||| from == to
    ||| from == WorkspacePhase::Provisioning && to == WorkspacePhase::Ready
    ||| from == WorkspacePhase::Ready && to == WorkspacePhase::Active
    ||| from == WorkspacePhase::Active && to == WorkspacePhase::Released
    ||| from == WorkspacePhase::Released && to == WorkspacePhase::Removing
    ||| from == WorkspacePhase::Removing && to == WorkspacePhase::Removed
}

/// Journal `b` grows out of journal `a` by one step: nothing is dropped, the
/// revision does not go back, every workspace keeps its ID, its revision does
/// not go back and its phase makes at most one lifecycle move, and a
/// workspace that is added is provisioning.
pub open spec fn evolves(a: WorkspaceSnapshot, b: WorkspaceSnapshot) -> bool {
    &&& b.revision >= a.revision
    &&& b.repositories@.len() >= a.repositories@.len()
    &&& b.projects@.len() >= a.projects@.len()
    &&& b.operations@.len() >= a.operations@.len()
    &&& b.workspaces@.len() >= a.workspaces@.len()
    &&& forall|k: int|
        0 <= k < a.workspaces@.len() ==> (#[trigger] b.workspaces@[k]).id@ == a.workspaces@[k].id@ && allowed_move(
            a.workspaces@[k].phase,
            b.workspaces@[k].phase,
        ) && b.workspaces@[k].revision >= a.workspaces@[k].revision
    &&& forall|k: int| a.workspaces@.len() <= k < b.workspaces@.len() ==> (#[trigger] b.workspaces@[k]).phase
        == WorkspacePhase::Provisioning
}

/// Journal `b` is where steps that each evolve lead from journal `a`:
/// nothing is dropped and no workspace moves back in the lifecycle.
pub open spec fn moves_forward(a: WorkspaceSnapshot, b: WorkspaceSnapshot) -> bool {
    &&& b.revision >= a.revision
    &&& b.repositories@.len() >= a.repositories@.len()
    &&& b.projects@.len() >= a.projects@.len()
    &&& b.operations@.len() >= a.operations@.len()
    &&& b.workspaces@.len() >= a.workspaces@.len()
    &&& forall|k: int|
        0 <= k < a.workspaces@.len() ==> (#[trigger] b.workspaces@[k]).id@ == a.workspaces@[k].id@ && phase_rank(
            a.workspaces@[k].phase,
        ) <= phase_rank(b.workspaces@[k].phase) && b.workspaces@[k].revision >= a.workspaces@[k].revision
}

} // verus!
