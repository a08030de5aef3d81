use std::collections::{BTreeMap, BTreeSet};

use fvkit_workspace::applying::{apply_step, ApplyAction, ApplyEvent, ApplyState};
use fvkit_workspace::catalog::{find_input, find_workspace, repo};
use fvkit_workspace::collecting::{collect_step, worktree_remove_args, CollectAction, CollectEvent, CollectState};
use fvkit_workspace::error::Error;
use fvkit_workspace::inspect::{CheckoutObservation, WorkspaceObservation};
use fvkit_workspace::journal::check_command;
use fvkit_workspace::lease::{lease, release};
use fvkit_workspace::model::{
    Action, CollectWorkspace, IntegrationEvidence, LeaseWorkspace, ManagedWorkspace, OperationPhase,
    ProjectSpec, ProvisionWorkspace, PutProject, RegisterRepository, ReleaseWorkspace, Repository,
    RepositoryInput, WorkspaceCommand, WorkspaceInspection, WorkspaceOperation, WorkspacePhase,
    WorkspaceSnapshot,
};
use fvkit_workspace::path::{join_path, safe_path_plan, LinkState};
use fvkit_workspace::provisioning::{provision_step, ProvisionAction, ProvisionEvent, ProvisionState};
use fvkit_workspace::register::{plan_project, put_project};
use fvkit_workspace::registering::{register_step, RegisterAction, RegisterEvent, RegisterState};
use fvkit_workspace::store::{projection_path, volume_mounted, Store};

const NOW: i64 = 1_000_000;
const INITIAL: &str = "1111111111111111111111111111111111111111";
const REPO: &str = "/tmp/fv/repo";

struct Worktree {
    branch: String,
    head: String,
    locked: bool,
}

#[derive(Default)]
struct Git {
    branches: BTreeMap<String, String>,
    parent: BTreeMap<String, String>,
    worktrees: BTreeMap<String, Worktree>,
    origin: String,
}

/// A simulated machine: the journal file, directories, Git repositories and
/// processes. Each Git change checks that the journal on disk already
/// records what the change is about.
struct World {
    store: Store,
    now: i64,
    journal: Option<WorkspaceSnapshot>,
    paths: BTreeSet<String>,
    symlinks: BTreeSet<String>,
    projections: BTreeMap<String, ManagedWorkspace>,
    repos: BTreeMap<String, Git>,
    dirty: BTreeSet<String>,
    ignored: BTreeSet<String>,
    extra: BTreeSet<String>,
    busy: BTreeSet<String>,
    crash_on: Option<&'static str>,
    crashed: bool,
    commits: u64,
}

fn fail<T>(m: &str) -> Result<T, Error> {
    Err(Error::Io(m.into()))
}

impl World {
    fn new() -> World {
        let store = Store::new("/tmp/fv/volume".into(), "/tmp/fv/state".into(), "/tmp/fv/cache".into());
        let mut w = World {
            store,
            now: NOW,
            journal: None,
            paths: BTreeSet::new(),
            symlinks: BTreeSet::new(),
            projections: BTreeMap::new(),
            repos: BTreeMap::new(),
            dirty: BTreeSet::new(),
            ignored: BTreeSet::new(),
            extra: BTreeSet::new(),
            busy: BTreeSet::new(),
            crash_on: None,
            crashed: false,
            commits: 2,
        };
        w.paths.insert("/tmp/fv/volume".into());
        w.make_repo(REPO);
        w
    }

    fn make_repo(&mut self, path: &str) {
        let mut g = Git::default();
        g.branches.insert("main".into(), INITIAL.into());
        self.repos.insert(path.into(), g);
        self.paths.insert(path.into());
        self.paths.insert(join_path(path, ".git"));
    }

    fn new_commit(&mut self) -> String {
        self.commits += 1;
        format!("{:040}", self.commits)
    }

    fn present(&self, p: &str) -> bool {
        self.paths.contains(p)
    }

    fn safe(&self, p: &str) -> Result<(), Error> {
        let plan = safe_path_plan(p)?;
        let links = plan
            .prefixes
            .iter()
            .map(|x| {
                if self.symlinks.contains(x) {
                    LinkState::Symlink
                } else if self.present(x) {
                    LinkState::Plain
                } else {
                    LinkState::Missing
                }
            })
            .collect();
        plan.conclude(&links)
    }

    fn crash(&mut self, kind: &str) -> bool {
        if self.crash_on == Some(kind) {
            self.crash_on = None;
            self.crashed = true;
        }
        self.crashed
    }

    fn disk(&self) -> WorkspaceSnapshot {
        self.store.snapshot(self.journal.clone()).unwrap()
    }

    fn save(&mut self, s: &WorkspaceSnapshot) -> Result<(), Error> {
        if self.crash("save") {
            return fail("crash");
        }
        self.journal = Some(s.clone());
        Ok(())
    }

    /// Edits the journal on disk, as a test of an interrupted run does.
    fn edit(&mut self, f: impl FnOnce(&mut WorkspaceSnapshot)) {
        let mut s = self.disk();
        f(&mut s);
        s.revision += 1;
        self.journal = Some(s);
    }

    fn repo_of_worktree(&self, path: &str) -> Option<&Git> {
        self.repos.values().find(|g| g.worktrees.contains_key(path))
    }

    fn resolve(&self, dir: &str, revision: &str) -> Result<String, Error> {
        if revision.is_empty() {
            return Err(Error::RevisionRequired);
        }
        if let Some(g) = self.repo_of_worktree(dir) {
            if revision == "HEAD" {
                return Ok(g.worktrees[dir].head.clone());
            }
            return self.resolve_in(g, revision);
        }
        match self.repos.get(dir) {
            Some(g) if revision == "HEAD" => Ok(g.branches["main"].clone()),
            Some(g) => self.resolve_in(g, revision),
            None => fail("git rev-parse: not a git repository"),
        }
    }

    fn resolve_in(&self, g: &Git, revision: &str) -> Result<String, Error> {
        let name = revision.strip_prefix("refs/heads/").unwrap_or(revision);
        match g.branches.get(name) {
            Some(c) => Ok(c.clone()),
            None if g.parent.contains_key(revision) || revision == INITIAL => Ok(revision.into()),
            None => fail("git rev-parse: unknown revision"),
        }
    }

    fn ancestor(&self, g: &Git, a: &str, b: &str) -> bool {
        let mut c = b.to_string();
        loop {
            if c == a {
                return true;
            }
            match g.parent.get(&c) {
                Some(p) => c = p.clone(),
                None => return false,
            }
        }
    }

    fn journaled_checkout(&self, path: &str) -> Option<fvkit_workspace::model::WorkspaceCheckout> {
        let j = self.journal.as_ref()?;
        j.workspaces.iter().flat_map(|w| w.checkouts.iter()).find(|c| c.path == path).cloned()
    }

    fn prepare_root(&mut self) -> Result<(), Error> {
        self.safe(&self.store.root.clone())?;
        volume_mounted(self.present(&self.store.root))?;
        for d in self.store.volume_dirs() {
            self.safe(&d)?;
            self.paths.insert(d);
        }
        Ok(())
    }

    fn apply(&mut self, id: &str, action: Action) -> Result<WorkspaceOperation, Error> {
        let command = WorkspaceCommand { request_id: id.into(), action: Some(action) };
        check_command(&command)?;
        let mut s = self.disk();
        let mut st = ApplyState::new();
        let mut ev = ApplyEvent::Start;
        loop {
            ev = match apply_step(&mut s, &mut st, &command, ev) {
                ApplyAction::Reply(r) => return r,
                ApplyAction::SaveJournal => match self.save(&s) {
                    Ok(()) => ApplyEvent::Saved,
                    Err(e) => ApplyEvent::Failed(e),
                },
                ApplyAction::Execute(a) => {
                    let outcome = self.execute(&mut s, a);
                    if self.crashed {
                        self.crashed = false;
                        return fail("crash");
                    }
                    ApplyEvent::Executed(outcome)
                }
            };
            if self.crashed {
                self.crashed = false;
                return fail("crash");
            }
        }
    }

    fn ok(&mut self, id: &str, action: Action) -> WorkspaceOperation {
        let o = self.apply(id, action).unwrap();
        assert_eq!(o.phase, OperationPhase::Succeeded, "{}", o.detail);
        o
    }

    fn blocked(&mut self, id: &str, action: Action) -> WorkspaceOperation {
        let o = self.apply(id, action).unwrap();
        assert_eq!(o.phase, OperationPhase::Blocked);
        o
    }

    fn execute(&mut self, s: &mut WorkspaceSnapshot, action: Action) -> Result<(), Error> {
        match action {
            Action::RegisterRepository(r) => self.register(s, r),
            Action::PutProject(p) => {
                let q = plan_project(s, &p)?;
                self.prepare_root()?;
                let d = self.store.project_descriptor(&q.id);
                self.safe(&d)?;
                self.paths.insert(d);
                put_project(s, q);
                Ok(())
            }
            Action::Provision(p) => self.provision(s, p),
            Action::Lease(l) => lease(s, &l, self.now),
            Action::Release(r) => {
                let mut observed = vec![];
                if let Some(k) = find_workspace(s, &r.workspace_id) {
                    if r.abandonment_reason.trim().is_empty() {
                        for c in s.workspaces[k].checkouts.clone() {
                            observed.push(match find_input(&r.integrated_into, &c.repository_id) {
                                None => Err(Error::MissingTarget),
                                Some(t) => self.integration(s, &c, &r.integrated_into[t].base_revision),
                            });
                        }
                    }
                }
                release(s, &r, self.now, &observed)
            }
            Action::Collect(c) => self.collect(s, c),
        }
    }

    fn integration(
        &self,
        s: &WorkspaceSnapshot,
        c: &fvkit_workspace::model::WorkspaceCheckout,
        target: &str,
    ) -> Result<IntegrationEvidence, Error> {
        let r = &s.repositories[repo(s, &c.repository_id)?];
        let g = &self.repos[&r.path];
        let source = g.worktrees.get(&c.path).map(|t| t.head.clone()).ok_or(Error::NotRegistered)?;
        let target = self.resolve(&r.path, target)?;
        if !self.ancestor(g, &source, &target) {
            return Err(Error::NotIntegrated("git merge-base: ".into()));
        }
        Ok(IntegrationEvidence { repository_id: c.repository_id.clone(), source_commit: source, target_commit: target })
    }

    fn register(&mut self, s: &mut WorkspaceSnapshot, request: RegisterRepository) -> Result<(), Error> {
        let store = self.store.clone();
        let mut st = RegisterState::new();
        let mut ev = RegisterEvent::Start;
        loop {
            let action = register_step(&store, s, &mut st, &request, ev);
            ev = match action {
                RegisterAction::Finished(r) => return r,
                RegisterAction::SaveJournal => match self.save(s) {
                    Ok(()) => RegisterEvent::Saved,
                    Err(e) => RegisterEvent::Failed(e),
                },
                other => self.perform_register(other).unwrap_or_else(RegisterEvent::Failed),
            };
        }
    }

    fn perform_register(&mut self, action: RegisterAction) -> Result<RegisterEvent, Error> {
        Ok(match action {
            RegisterAction::PrepareVolume => {
                self.prepare_root()?;
                RegisterEvent::Done
            }
            RegisterAction::ProbeLocation { path } => {
                self.safe(&path)?;
                self.safe(&join_path(&path, ".git"))?;
                RegisterEvent::Exists(self.present(&path))
            }
            RegisterAction::Clone { url, path } => {
                let reserved = self.journal.as_ref().unwrap().repositories.iter().any(|r| r.path == path && !r.ready);
                assert!(reserved, "a clone runs only once its reservation is journaled");
                if self.crash("clone") {
                    return fail("crash");
                }
                self.make_repo(&path);
                self.repos.get_mut(&path).unwrap().origin = url;
                RegisterEvent::Done
            }
            RegisterAction::ProbeGitDir { path } => RegisterEvent::Exists(self.present(&join_path(&path, ".git"))),
            RegisterAction::Canonicalize { path } => RegisterEvent::Text(path),
            RegisterAction::ShowToplevel { path } => RegisterEvent::Text(path),
            RegisterAction::ReadOrigin { path } => RegisterEvent::Text(self.repos[&path].origin.clone()),
            RegisterAction::ResolveHead { path } => RegisterEvent::Text(self.resolve(&path, "HEAD")?),
            _ => panic!("not an action to perform"),
        })
    }

    fn provision(&mut self, s: &mut WorkspaceSnapshot, p: ProvisionWorkspace) -> Result<(), Error> {
        let mut st = ProvisionState::new(&self.store, &p, self.now);
        let mut ev = ProvisionEvent::Start;
        loop {
            let action = provision_step(s, &mut st, &p, ev);
            ev = match action {
                ProvisionAction::Finished(r) => return r,
                ProvisionAction::SaveJournal => match self.save(s) {
                    Ok(()) => ProvisionEvent::Saved,
                    Err(e) => ProvisionEvent::Failed(e),
                },
                other => self.perform_provision(other).unwrap_or_else(ProvisionEvent::Failed),
            };
        }
    }

    fn perform_provision(&mut self, action: ProvisionAction) -> Result<ProvisionEvent, Error> {
        Ok(match action {
            ProvisionAction::PrepareVolume { path } => {
                self.prepare_root()?;
                self.safe(&path)?;
                ProvisionEvent::Exists(self.present(&path))
            }
            ProvisionAction::ResolveBase { repository, revision, destination } => {
                self.safe(&repository)?;
                let base = self.resolve(&repository, &revision)?;
                self.safe(&destination)?;
                ProvisionEvent::Resolved(base)
            }
            ProvisionAction::ProbeBranch { repository, reference } => {
                ProvisionEvent::Branch(self.resolve(&repository, &reference).ok())
            }
            ProvisionAction::MakeDirectories { workspace, paths } => {
                self.safe(&workspace)?;
                self.paths.insert(workspace);
                for d in paths {
                    self.safe(&d)?;
                    self.paths.insert(d);
                }
                ProvisionEvent::Done
            }
            ProvisionAction::ProbeCheckout { repository, path } => {
                self.safe(&repository)?;
                self.safe(&path)?;
                ProvisionEvent::Exists(self.present(&path))
            }
            ProvisionAction::VerifyCheckout { repository, checkout } => {
                let g = &self.repos[&repository.path];
                let t = g.worktrees.get(&checkout.path).ok_or(Error::NotRegistered)?;
                if t.branch != checkout.branch {
                    return Err(Error::BranchChanged);
                }
                let dirty = self.dirty.contains(&checkout.path) || self.ignored.contains(&checkout.path);
                ProvisionEvent::Observed { head: t.head.clone(), status: if dirty { "?? file".into() } else { String::new() } }
            }
            ProvisionAction::AddWorktree { repository, path, branch, create_from } => {
                let pinned = self.journaled_checkout(&path).expect("a worktree is added only once its pin is journaled");
                assert_eq!(pinned.branch, branch);
                if self.crash("worktree") {
                    return fail("crash");
                }
                let g = self.repos.get_mut(&repository).unwrap();
                let head = match create_from {
                    Some(base) => {
                        assert_eq!(base, pinned.base_commit);
                        if g.branches.contains_key(&branch) {
                            return fail("git worktree: branch exists");
                        }
                        g.branches.insert(branch.clone(), base.clone());
                        base
                    }
                    None => g.branches[&branch].clone(),
                };
                g.worktrees.insert(path.clone(), Worktree { branch, head, locked: false });
                self.paths.insert(path);
                ProvisionEvent::Done
            }
            ProvisionAction::WriteProjection { workspace } => {
                self.paths.insert(projection_path(&workspace.path));
                self.projections.insert(workspace.path.clone(), workspace);
                ProvisionEvent::Done
            }
            _ => panic!("not an action to perform"),
        })
    }

    fn collect(&mut self, s: &mut WorkspaceSnapshot, c: CollectWorkspace) -> Result<(), Error> {
        let mut st = CollectState::new();
        let mut ev = CollectEvent::Start;
        loop {
            let action = collect_step(s, &mut st, &c, ev);
            ev = match action {
                CollectAction::Finished(r) => return r,
                CollectAction::SaveJournal => match self.save(s) {
                    Ok(()) => CollectEvent::Saved,
                    Err(e) => CollectEvent::Failed(e),
                },
                CollectAction::Observe { workspace } => {
                    CollectEvent::Observed { now: self.now, observation: self.observe(s, &workspace) }
                }
                other => self.perform_collect(other).unwrap_or_else(CollectEvent::Failed),
            };
        }
    }

    fn remove_worktree(&mut self, repository: &str, path: &str) -> Result<(), Error> {
        let args = worktree_remove_args(path);
        assert_eq!(args, vec!["worktree".to_string(), "remove".into(), path.to_string()]);
        let g = self.repos.get_mut(repository).unwrap();
        match g.worktrees.get(path) {
            None => return fail("git worktree: not a working tree"),
            Some(t) if t.locked => return fail("git worktree: cannot remove a locked working tree"),
            Some(_) => {}
        }
        if self.dirty.contains(path) {
            return fail("git worktree: contains modified or untracked files");
        }
        g.worktrees.remove(path);
        self.paths.remove(path);
        Ok(())
    }

    fn perform_collect(&mut self, action: CollectAction) -> Result<CollectEvent, Error> {
        Ok(match action {
            CollectAction::ProbeCheckout { path } => CollectEvent::Exists(self.present(&path)),
            CollectAction::ListWorktrees { repository, path } => {
                self.safe(&path)?;
                self.safe(&repository)?;
                let listing = self.repos[&repository]
                    .worktrees
                    .iter()
                    .map(|(p, t)| format!("worktree {p}\nHEAD {}\nbranch refs/heads/{}\n", t.head, t.branch))
                    .collect::<Vec<_>>()
                    .join("\n");
                CollectEvent::Listing(format!("worktree {repository}\nHEAD {INITIAL}\nbranch refs/heads/main\n\n{listing}"))
            }
            CollectAction::ReconcileRemoval { repository, path } => {
                self.remove_worktree(&repository, &path)?;
                CollectEvent::Done
            }
            CollectAction::RemoveWorktree { repository, path } => {
                let started = self.journaled_checkout(&path).map_or(false, |c| c.removal_started);
                assert!(started, "a removal runs only once it is journaled");
                if self.crash("remove") {
                    return fail("crash");
                }
                self.remove_worktree(&repository, &path)?;
                CollectEvent::Done
            }
            CollectAction::WriteProjection { workspace } => {
                self.paths.insert(projection_path(&workspace.path));
                self.projections.insert(workspace.path.clone(), workspace);
                CollectEvent::Done
            }
            _ => panic!("not an action to perform"),
        })
    }

    fn observe(&self, s: &WorkspaceSnapshot, w: &ManagedWorkspace) -> WorkspaceObservation {
        let checkouts = w
            .checkouts
            .iter()
            .map(|c| {
                let mut o = CheckoutObservation::default();
                if c.removed {
                    return o;
                }
                let found = repo(s, &c.repository_id).and_then(|k| {
                    let g = &self.repos[&s.repositories[k].path];
                    let t = g.worktrees.get(&c.path).ok_or(Error::NotRegistered)?;
                    if t.branch != c.branch {
                        return Err(Error::BranchChanged);
                    }
                    if t.locked {
                        return Err(Error::WorktreeLocked);
                    }
                    Ok(t.head.clone())
                });
                match found {
                    Ok(head) => {
                        o.head = head;
                        o.dirty = self.dirty.contains(&c.path);
                        o.ignored_files = self.ignored.contains(&c.path);
                    }
                    Err(e) => o.failure = Some(e),
                }
                o
            })
            .collect();
        let removed = w.phase == WorkspacePhase::Removed;
        WorkspaceObservation {
            checkouts,
            extra_content: if !removed && self.extra.contains(&w.path) {
                Err(Error::UnmanagedContent(format!("{}/run/service.log", w.path)))
            } else {
                Ok(())
            },
            idle: if !removed && self.busy.contains(&w.path) { Err(Error::ActiveProcesses) } else { Ok(()) },
        }
    }

    fn inspect(&self, s: &WorkspaceSnapshot, id: &str) -> Result<WorkspaceInspection, Error> {
        let o = match find_workspace(s, id) {
            Some(k) => self.observe(s, &s.workspaces[k]),
            None => WorkspaceObservation { checkouts: vec![], extra_content: Ok(()), idle: Ok(()) },
        };
        self.store.inspect(s, id, self.now, &o)
    }

    fn inspect_now(&self, id: &str) -> WorkspaceInspection {
        self.inspect(&self.disk(), id).unwrap()
    }

    fn workspace(&self) -> ManagedWorkspace {
        self.disk().workspaces[0].clone()
    }
}

fn fixture() -> World {
    let mut w = World::new();
    w.ok(
        "register",
        Action::RegisterRepository(RegisterRepository {
            repository: Some(Repository {
                id: "desktop".into(),
                host: "github.com".into(),
                namespace: "fastverk/subgroup".into(),
                name: "desktop".into(),
                path: REPO.into(),
                ..Default::default()
            }),
        }),
    );
    w.ok(
        "project",
        Action::PutProject(PutProject {
            project: Some(ProjectSpec {
                id: "fastverk".into(),
                repository_ids: vec!["desktop".into()],
                ..Default::default()
            }),
            expected_revision: 0,
        }),
    );
    w
}

fn provision_action() -> Action {
    Action::Provision(ProvisionWorkspace {
        id: "task-1".into(),
        project_id: "fastverk".into(),
        display_name: "First task".into(),
        inputs: vec![RepositoryInput { repository_id: "desktop".into(), base_revision: "main".into() }],
    })
}

fn lease_action(w: &ManagedWorkspace, owner: &str, generation: u64) -> Action {
    Action::Lease(LeaseWorkspace {
        workspace_id: w.id.clone(),
        owner: owner.into(),
        expected_revision: w.revision,
        generation,
        ttl_seconds: 60,
    })
}

fn released(f: &mut World) {
    let w = f.workspace();
    f.ok("lease", lease_action(&w, "test", 0));
    let w = f.workspace();
    f.ok(
        "release",
        Action::Release(ReleaseWorkspace {
            workspace_id: w.id,
            owner: "test".into(),
            generation: 1,
            expected_revision: w.revision,
            abandonment_reason: "disposable test".into(),
            ..Default::default()
        }),
    );
}

fn collect_action(w: &ManagedWorkspace) -> Action {
    Action::Collect(CollectWorkspace { workspace_id: w.id.clone(), expected_revision: w.revision })
}

#[test]
fn pinned_base_normalized_paths_idempotency_and_build_context() {
    let mut f = fixture();
    let other = f.new_commit();
    let g = f.repos.get_mut(REPO).unwrap();
    g.parent.insert(other.clone(), INITIAL.into());
    g.branches.insert("unrelated".into(), other);
    let op = f.ok("provision", provision_action());
    let before = f.disk();
    assert_eq!(f.ok("provision", provision_action()), op);
    assert_eq!(f.disk(), before);
    let w = f.workspace();
    let c = w.checkouts[0].clone();
    assert_eq!(c.base_commit, INITIAL);
    assert_eq!(f.resolve(&c.path, "HEAD").unwrap(), INITIAL);
    assert!(c.path.ends_with("workspaces/task-1/src/github.com/fastverk/subgroup/desktop"));
    assert!(f.present("/tmp/fv/volume/projects/fastverk/project.pb"));
    assert_eq!(w.phase, WorkspacePhase::Ready);
    assert_eq!(f.projections[&w.path].phase, WorkspacePhase::Ready);
    let mut changed = provision_action();
    if let Action::Provision(p) = &mut changed {
        p.display_name = "different".into();
    }
    assert_eq!(f.apply("provision", changed), Err(Error::RequestReused));
    let ctx = f.store.build_context(&f.inspect_now("task-1")).unwrap();
    assert!(ctx.requires_input_snapshot);
    assert!(!ctx.sources[0].dirty);
    f.dirty.insert(c.path.clone());
    assert!(f.store.build_context(&f.inspect_now("task-1")).unwrap().sources[0].dirty);
}

#[test]
fn path_escapes_and_duplicate_identity_are_blocked() {
    let mut f = fixture();
    let mut action = provision_action();
    if let Action::Provision(p) = &mut action {
        p.id = "../escape".into();
    }
    let o = f.blocked("escape", action);
    assert_eq!(o.detail, "invalid ID/path component: ../escape");
    let r = f.disk().repositories[0].clone();
    let o = f.blocked(
        "duplicate",
        Action::RegisterRepository(RegisterRepository { repository: Some(Repository { id: "another".into(), ..r }) }),
    );
    assert_eq!(o.detail, "repository identity already registered");
    assert!(!f.present("/tmp/fv/volume/escape"));
    f.symlinks.insert("/tmp/fv/volume/workspaces".into());
    let o = f.blocked("symlink", provision_action());
    assert_eq!(o.detail, "symlink in managed path: /tmp/fv/volume/workspaces");
    assert!(f.disk().workspaces.is_empty());
}

#[test]
fn leases_fence_stale_owners_and_expiration_does_not_release() {
    let mut f = fixture();
    f.ok("provision", provision_action());
    let w = f.workspace();
    f.ok("owner", lease_action(&w, "alice", 0));
    let w = f.workspace();
    f.blocked("competing", lease_action(&w, "bob", 1));
    f.blocked(
        "stale",
        Action::Release(ReleaseWorkspace {
            workspace_id: w.id.clone(),
            owner: "alice".into(),
            generation: 0,
            expected_revision: w.revision,
            abandonment_reason: "done".into(),
            ..Default::default()
        }),
    );
    assert_eq!(f.workspace().phase, WorkspacePhase::Active);
    f.edit(|s| s.workspaces[0].lease.as_mut().unwrap().expires_at = 0);
    let inspected = f.inspect_now(&w.id);
    assert!(!inspected.collectable);
    assert!(inspected.retention_reasons.iter().any(|r| r.contains("explicitly released")));
    f.ok("takeover", lease_action(&w, "bob", 1));
    assert_eq!(f.workspace().lease.unwrap().generation, 2);
}

#[test]
fn dirty_ignored_locked_and_runtime_content_are_retained() {
    let mut f = fixture();
    f.ok("provision", provision_action());
    released(&mut f);
    let w = f.workspace();
    let path = w.checkouts[0].path.clone();
    f.dirty.insert(path.clone());
    let inspected = f.inspect_now(&w.id);
    assert!(!inspected.collectable);
    assert!(inspected.retention_reasons.iter().any(|r| r.contains("untracked content")), "{:?}", inspected.retention_reasons);
    f.dirty.clear();
    f.ignored.insert(path.clone());
    let inspected = f.inspect_now(&w.id);
    assert!(inspected.retention_reasons.iter().any(|r| r.contains("ignored content")), "{:?}", inspected.retention_reasons);
    f.ignored.clear();
    f.repos.get_mut(REPO).unwrap().worktrees.get_mut(&path).unwrap().locked = true;
    assert!(f.inspect_now(&w.id).retention_reasons.iter().any(|r| r.contains("locked")));
    f.repos.get_mut(REPO).unwrap().worktrees.get_mut(&path).unwrap().locked = false;
    f.extra.insert(w.path.clone());
    assert!(f.inspect_now(&w.id).retention_reasons.iter().any(|r| r.contains("unmanaged content")));
    let o = f.blocked("collect", collect_action(&w));
    assert!(o.detail.starts_with("collection blocked: "), "{}", o.detail);
    assert!(f.present(&path));
    assert_eq!(f.workspace().phase, WorkspacePhase::Released);
}

#[test]
fn multi_repository_recovery_uses_recorded_pins_after_refs_advance() {
    let mut f = fixture();
    let second = "/tmp/fv/second";
    f.make_repo(second);
    f.ok(
        "register-second",
        Action::RegisterRepository(RegisterRepository {
            repository: Some(Repository {
                id: "shared".into(),
                host: "github.com".into(),
                namespace: "another/group".into(),
                name: "desktop".into(),
                path: second.into(),
                ..Default::default()
            }),
        }),
    );
    f.ok(
        "project-update",
        Action::PutProject(PutProject {
            project: Some(ProjectSpec {
                id: "fastverk".into(),
                repository_ids: vec!["desktop".into(), "shared".into()],
                ..Default::default()
            }),
            expected_revision: 1,
        }),
    );
    let mut action = provision_action();
    if let Action::Provision(p) = &mut action {
        p.inputs.push(RepositoryInput { repository_id: "shared".into(), base_revision: "main".into() });
    }
    // The first attempt stops after the pins were journaled, while adding a worktree.
    f.crash_on = Some("worktree");
    assert!(f.apply("multi", action.clone()).is_err());
    let pinned = f.workspace();
    assert_eq!(pinned.phase, WorkspacePhase::Provisioning);
    assert_eq!(pinned.checkouts.len(), 2);
    assert!(pinned.checkouts.iter().all(|c| c.base_commit == INITIAL));
    assert_eq!(f.disk().operations.iter().find(|o| o.id == "multi").unwrap().phase, OperationPhase::Running);
    // Both repositories' main advance before the retry.
    for r in [REPO, second] {
        let next = f.new_commit();
        let g = f.repos.get_mut(r).unwrap();
        g.parent.insert(next.clone(), INITIAL.into());
        g.branches.insert("main".into(), next);
    }
    f.ok("multi", action.clone());
    let before = f.workspace();
    assert_eq!(before.checkouts, pinned.checkouts);
    for c in &before.checkouts {
        assert_eq!(f.resolve(&c.path, "HEAD").unwrap(), c.base_commit);
    }
    // A worktree removed behind the journal's back is recreated at its pin.
    f.remove_worktree(second, &before.checkouts[1].path).unwrap();
    f.edit(|s| {
        s.workspaces[0].phase = WorkspacePhase::Provisioning;
        s.operations.iter_mut().find(|o| o.id == "multi").unwrap().phase = OperationPhase::Running;
    });
    f.ok("multi", action);
    let after = f.workspace();
    assert_eq!(before.checkouts, after.checkouts);
    assert_ne!(f.resolve(REPO, "main").unwrap(), after.checkouts[0].base_commit);
    assert_eq!(f.resolve(&after.checkouts[1].path, "HEAD").unwrap(), after.checkouts[1].base_commit);
}

#[test]
fn collection_recovers_after_git_removal_and_preserves_branches() {
    let mut f = fixture();
    f.ok("provision", provision_action());
    released(&mut f);
    let w = f.workspace();
    assert!(f.inspect_now(&w.id).collectable);
    f.edit(|s| {
        s.workspaces[0].phase = WorkspacePhase::Removing;
        s.workspaces[0].checkouts[0].removal_started = true;
    });
    f.remove_worktree(REPO, &w.checkouts[0].path).unwrap();
    f.ok("collect", collect_action(&w));
    let done = f.workspace();
    assert_eq!(done.phase, WorkspacePhase::Removed);
    assert!(done.checkouts[0].removed);
    assert!(f.resolve(REPO, &w.checkouts[0].branch).is_ok());
    assert!(f.present(&projection_path(&w.path)));
    assert_eq!(f.projections[&w.path].phase, WorkspacePhase::Removed);
}

#[test]
fn normal_collection_and_live_process_protection() {
    let mut f = fixture();
    f.ok("provision", provision_action());
    released(&mut f);
    let w = f.workspace();
    f.busy.insert(w.path.clone());
    let observed = f.inspect_now(&w.id);
    assert!(!observed.collectable);
    assert!(observed.retention_reasons.iter().any(|r| r.contains("active processes")));
    f.blocked("collect-busy", collect_action(&w));
    f.busy.clear();
    f.ok("collect", collect_action(&w));
    assert!(!f.present(&w.checkouts[0].path));
    assert!(f.resolve(REPO, &w.checkouts[0].branch).is_ok());
    assert_eq!(f.workspace().phase, WorkspacePhase::Removed);
}

#[test]
fn integration_evidence_requires_actual_ancestry_and_retention() {
    let mut f = fixture();
    f.ok("provision", provision_action());
    let w = f.workspace();
    f.ok("lease", lease_action(&w, "test", 0));
    let path = w.checkouts[0].path.clone();
    let feature = f.new_commit();
    {
        let g = f.repos.get_mut(REPO).unwrap();
        g.parent.insert(feature.clone(), INITIAL.into());
        g.worktrees.get_mut(&path).unwrap().head = feature.clone();
        g.branches.insert(w.checkouts[0].branch.clone(), feature.clone());
    }
    let w = f.workspace();
    let release_action = Action::Release(ReleaseWorkspace {
        workspace_id: w.id.clone(),
        owner: "test".into(),
        expected_revision: w.revision,
        generation: 1,
        integrated_into: vec![RepositoryInput { repository_id: "desktop".into(), base_revision: "main".into() }],
        ..Default::default()
    });
    f.blocked("release", release_action.clone());
    f.repos.get_mut(REPO).unwrap().branches.insert("main".into(), feature.clone());
    f.ok("release", release_action);
    assert_eq!(f.workspace().integration[0].source_commit, feature);
    f.edit(|s| s.workspaces[0].collect_after = NOW + 3600);
    assert!(f.inspect_now(&w.id).retention_reasons.iter().any(|r| r.contains("retained until")));
}

#[test]
fn legacy_removal_cannot_bypass_workspace_ownership() {
    let mut f = fixture();
    f.ok("provision", provision_action());
    let s = f.disk();
    let checkout = s.workspaces[0].checkouts[0].path.clone();
    assert!(f.store.ensure_unmanaged(&s, &checkout).is_err());
    assert!(f.store.ensure_unmanaged(&s, REPO).is_ok());
}

#[test]
fn interrupted_clone_is_kept_and_resumed_from_its_reservation() {
    let mut f = World::new();
    let clone = Action::RegisterRepository(RegisterRepository {
        repository: Some(Repository {
            id: "tool".into(),
            host: "github.com".into(),
            namespace: "org".into(),
            name: "tool".into(),
            clone_url: "https://github.com/org/tool.git".into(),
            ..Default::default()
        }),
    });
    f.crash_on = Some("clone");
    assert!(f.apply("clone", clone.clone()).is_err());
    let reserved = f.disk().repositories[0].clone();
    assert!(!reserved.ready);
    assert_eq!(reserved.path, "/tmp/fv/volume/repos/github.com/org/tool");
    f.ok("clone", clone);
    let r = f.disk().repositories[0].clone();
    assert!(r.ready);
    assert_eq!(f.disk().repositories.len(), 1);
    assert_eq!(r.clone_url, "https://github.com/org/tool.git");
}

#[test]
fn interrupted_removal_is_journaled_and_finished_on_retry() {
    let mut f = fixture();
    f.ok("provision", provision_action());
    released(&mut f);
    let w = f.workspace();
    f.crash_on = Some("remove");
    assert!(f.apply("collect", collect_action(&w)).is_err());
    let removing = f.workspace();
    assert_eq!(removing.phase, WorkspacePhase::Removing);
    assert!(removing.checkouts[0].removal_started);
    assert!(!removing.checkouts[0].removed);
    assert!(f.present(&w.checkouts[0].path));
    f.ok("collect", collect_action(&w));
    assert_eq!(f.workspace().phase, WorkspacePhase::Removed);
    assert!(!f.present(&w.checkouts[0].path));
}
