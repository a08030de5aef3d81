//! The store: where the managed volume, the journal and build outputs live,
//! and how a journal read from disk is admitted.
use vstd::prelude::*;
use vstd::string::*;
use crate::error::Error;
use crate::model::WorkspaceSnapshot;
use crate::path::{join, join_path, same_path, paths_equal};

verus! {

/// The managed volume root, the journal directory and the build cache root.
#[derive(Clone, Debug, PartialEq, Eq)]
pub struct Store {
    pub root: String,
    pub state: String,
    pub output_root: String,
}

/// The journal format this store reads and writes.
pub const SCHEMA_VERSION: u32 = 1;

impl Store {
    pub fn new(root: String, state: String, output_root: String) -> (r: Store)
        ensures
            r.root == root,
            r.state == state,
            r.output_root == output_root,
    {
        Store { root, state, output_root }
    }

    /// The store a configuration describes: the repositories root is the
    /// managed volume, the journal lives under `<config dir>/workspaces`.
    pub fn configured(repos_root: String, config_dir: &str, output_user_root: String) -> (r: Store)
        ensures
            r.root == repos_root,
            r.state@ == join(config_dir@, "workspaces"@),
            r.output_root == output_user_root,
    {
        let state = join_path(config_dir, "workspaces");
        Store::new(repos_root, state, output_user_root)
    }

    /// `<state>/catalog.pb`, the journal file.
    pub fn catalog_path(&self) -> (r: String)
        ensures
            r@ == join(self.state@, "catalog.pb"@),
    {
        join_path(self.state.as_str(), "catalog.pb")
    }

    /// `<state>/writer.lock`, the cross-process writer lock.
    pub fn lock_path(&self) -> (r: String)
        ensures
            r@ == join(self.state@, "writer.lock"@),
    {
        join_path(self.state.as_str(), "writer.lock")
    }

    /// Admits a journal read from disk, or starts an empty one when there is
    /// none: only the current schema version, and only for this store's root.
    pub fn snapshot(&self, stored: Option<WorkspaceSnapshot>) -> (r: Result<WorkspaceSnapshot, Error>)
        ensures
            stored is None ==> (r matches Ok(s) && s.schema_version == SCHEMA_VERSION && s.root
                == self.root && s.revision == 0 && s.repositories@.len() == 0 && s.projects@.len()
                == 0 && s.workspaces@.len() == 0 && s.operations@.len() == 0),
            stored matches Some(s) ==> (if s.schema_version != SCHEMA_VERSION {
                r == Err::<WorkspaceSnapshot, Error>(Error::UnsupportedJournalVersion(s.schema_version))
            } else if !same_path(s.root@, self.root@) {
                r == Err::<WorkspaceSnapshot, Error>(Error::RootChanged)
            } else {
                r == Ok::<WorkspaceSnapshot, Error>(s)
            }),
    {
        match stored {
            Some(s) => {
                if s.schema_version != SCHEMA_VERSION {
                    return Err(Error::UnsupportedJournalVersion(s.schema_version));
                }
                if !paths_equal(s.root.as_str(), self.root.as_str()) {
                    return Err(Error::RootChanged);
                }
                Ok(s)
            },
            None => Ok(
                WorkspaceSnapshot {
                    schema_version: SCHEMA_VERSION,
                    root: self.root.clone(),
                    revision: 0,
                    repositories: Vec::new(),
                    projects: Vec::new(),
                    workspaces: Vec::new(),
                    operations: Vec::new(),
                },
            ),
        }
    }
}

impl Store {
    /// `<root>/workspaces/<id>`, where a workspace lives.
    pub fn workspace_dir(&self, id: &str) -> (r: String)
        ensures
            r@ == join(join(self.root@, "workspaces"@), id@),
    {
        let w = join_path(self.root.as_str(), "workspaces");
        join_path(w.as_str(), id)
    }

    /// `<root>/projects/<id>/project.pb`, a project's descriptor.
    pub fn project_descriptor(&self, id: &str) -> (r: String)
        ensures
            r@ == join(join(join(self.root@, "projects"@), id@), "project.pb"@),
    {
        let p = join_path(self.root.as_str(), "projects");
        let d = join_path(p.as_str(), id);
        join_path(d.as_str(), "project.pb")
    }

    /// The directories of the managed volume, in the order they are made:
    /// projects, repos, workspaces, artifacts.
    pub fn volume_dirs(&self) -> (r: Vec<String>)
        ensures
            r@.len() == 4,
            r@[0]@ == join(self.root@, "projects"@),
            r@[1]@ == join(self.root@, "repos"@),
            r@[2]@ == join(self.root@, "workspaces"@),
            r@[3]@ == join(self.root@, "artifacts"@),
    {
        let mut r: Vec<String> = Vec::new();
        r.push(join_path(self.root.as_str(), "projects"));
        r.push(join_path(self.root.as_str(), "repos"));
        r.push(join_path(self.root.as_str(), "workspaces"));
        r.push(join_path(self.root.as_str(), "artifacts"));
        r
    }
}

/// `<workspace>/workspace.pb`, a workspace's descriptor.
pub fn projection_path(workspace_path: &str) -> (r: String)
    ensures
        r@ == join(workspace_path@, "workspace.pb"@),
{
    join_path(workspace_path, "workspace.pb")
}

/// The scaffolding of a workspace, in the order it is made: src, run, out.
pub fn scaffold_dirs(workspace_path: &str) -> (r: Vec<String>)
    ensures
        r@.len() == 3,
        r@[0]@ == join(workspace_path@, "src"@),
        r@[1]@ == join(workspace_path@, "run"@),
        r@[2]@ == join(workspace_path@, "out"@),
{
    let mut r: Vec<String> = Vec::new();
    r.push(join_path(workspace_path, "src"));
    r.push(join_path(workspace_path, "run"));
    r.push(join_path(workspace_path, "out"));
    r
}

/// Provisioning needs the managed volume mounted: its root is a directory.
pub fn volume_mounted(is_dir: bool) -> (r: Result<(), Error>)
    ensures
        r is Ok <==> is_dir,
        r is Err ==> r == Err::<(), Error>(Error::VolumeMissing),
{
    if is_dir {
        Ok(())
    } else {
        Err(Error::VolumeMissing)
    }
}

} // verus!
