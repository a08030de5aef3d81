//! Registration as a sequence of steps: a new clone is reserved in the
//! journal, not ready, and that journal written before Git clones anything;
//! the clone is then checked and recorded ready at its canonical location.
use vstd::prelude::*;
use vstd::string::*;
use crate::catalog::{evolves, repo_id_index};
use crate::error::{message_of, Error};
use crate::journal::bump_revision;
use crate::model::{RegisterRepository, Repository, WorkspaceSnapshot};
use crate::register::{
    admission, clone_destination_free, clone_head, clone_origin, primary_clone, register_admit, register_complete,
    register_reserve, register_start, registration_started, repository_root, RegisterPlan,
};
use crate::store::Store;

verus! {

/// Where a registration run is.
#[derive(Clone, Copy, Debug, PartialEq, Eq, Structural)]
pub enum RegisterStage {
    Begin,
    /// Waiting for the managed volume to be prepared.
    Volume,
    /// Waiting to hear whether the repository's location exists.
    Probe,
    /// Waiting for the journal holding the reservation to be written.
    Reserve,
    /// Waiting for Git to clone.
    Clone,
    /// Waiting to hear whether `.git` is a directory.
    GitDir,
    /// Waiting for the location's canonical form.
    Canonical,
    /// Waiting for `git rev-parse --show-toplevel`.
    Toplevel,
    /// Waiting for `git config --get remote.origin.url`.
    Origin,
    /// Waiting for `HEAD` to resolve to a commit.
    Head,
    Finished,
}

/// What a registration run knows between steps.
pub struct RegisterState {
    pub stage: RegisterStage,
    pub plan: RegisterPlan,
    /// Whether the location existed when probed.
    pub exists: bool,
    pub canonical: String,
    /// A new clone's reservation is in a journal that was written.
    pub reserved: bool,
}

/// What Git and the file system reported for the last action.
pub enum RegisterEvent {
    Start,
    Done,
    Exists(bool),
    Saved,
    /// Text reported by Git or the file system.
    Text(String),
    Failed(Error),
}

/// The next thing to do.
pub enum RegisterAction {
    /// Prepare the managed volume.
    PrepareVolume,
    /// Check that the location and its `.git` are safe paths and report
    /// whether the location exists.
    ProbeLocation { path: String },
    /// Write the journal as it now stands.
    SaveJournal,
    /// Make the parent directory and `git clone -- <url> <path>`.
    Clone { url: String, path: String },
    /// Report whether `<path>/.git` is a directory.
    ProbeGitDir { path: String },
    /// Report the location's canonical form.
    Canonicalize { path: String },
    /// Report `git rev-parse --show-toplevel` there.
    ShowToplevel { path: String },
    /// Report `git config --get remote.origin.url` there.
    ReadOrigin { path: String },
    /// Resolve `HEAD` there to a commit.
    ResolveHead { path: String },
    Finished(Result<(), Error>),
}

impl RegisterState {
    pub fn new() -> (st: RegisterState)
        ensures
            st.stage == RegisterStage::Begin,
            !st.reserved,
    {
        RegisterState {
            stage: RegisterStage::Begin,
            plan: RegisterPlan {
                repository: Repository {
                    id: String::new(),
                    host: String::new(),
                    namespace: String::new(),
                    name: String::new(),
                    path: String::new(),
                    clone_url: String::new(),
                    ready: false,
                },
                cloning: false,
            },
            exists: false,
            canonical: String::new(),
            reserved: false,
        }
    }
}

/// The record of a completed registration.
pub open spec fn registered(plan: RegisterPlan, canonical: String) -> Repository {
    Repository { path: canonical, ready: true, ..plan.repository }
}

/// The catalog once registration `plan` is recorded ready at `canonical`:
/// the registration with its ID replaced, or added; nothing else changed.
pub open spec fn registered_into(s0: WorkspaceSnapshot, s: WorkspaceSnapshot, plan: RegisterPlan, canonical: String) -> bool {
    let k = repo_id_index(s0, plan.repository.id@);
    &&& (if k >= 0 {
        s.repositories@ == s0.repositories@.update(k, registered(plan, canonical))
    } else {
        s.repositories@ == s0.repositories@.push(registered(plan, canonical))
    })
    &&& s.schema_version == s0.schema_version
    &&& s.root == s0.root
    &&& s.revision == s0.revision
    &&& s.projects == s0.projects
    &&& s.workspaces == s0.workspaces
    &&& s.operations == s0.operations
}

/// What holds between the steps of registering `request`.
pub open spec fn register_inv(store: Store, request: RegisterRepository, st: RegisterState) -> bool {
    &&& st.stage == RegisterStage::Begin ==> !st.reserved
    &&& st.stage != RegisterStage::Begin && st.stage != RegisterStage::Finished ==> registration_started(
        store,
        request,
        Ok(st.plan),
    )
    &&& st.stage == RegisterStage::Reserve ==> st.plan.cloning && !st.exists
    &&& st.stage == RegisterStage::Clone ==> st.reserved && st.plan.cloning
    &&& (st.stage == RegisterStage::Origin || st.stage == RegisterStage::Head) ==> st.plan.cloning
}

/// One step of registering `request`, exactly: what each report leads to at
/// each stage.
pub open spec fn register_transition(
    store: Store,
    request: RegisterRepository,
    s0: WorkspaceSnapshot,
    s: WorkspaceSnapshot,
    st0: RegisterState,
    st: RegisterState,
    ev: RegisterEvent,
    a: RegisterAction,
) -> bool {
    let path = st0.plan.repository.path;
    let done = st.stage == RegisterStage::Finished;
    let unexpected = a == RegisterAction::Finished(Err(Error::UnexpectedEvent)) && s == s0 && done;
    let refused = |e: Error| a == RegisterAction::Finished(Err(e)) && s == s0 && done;
    let complete = a == RegisterAction::Finished(Ok(())) && registered_into(s0, s, st0.plan, st0.canonical) && done;
    let moved = |g: RegisterStage| s == s0 && st == (RegisterState { stage: g, ..st0 });
    match ev {
        RegisterEvent::Failed(e) => s == s0 && done && if st0.stage == RegisterStage::Head {
            a matches RegisterAction::Finished(Err(Error::NoHead(m))) && m@ == message_of(e)
        } else {
            a == RegisterAction::Finished(Err(e))
        },
        RegisterEvent::Start => if st0.stage != RegisterStage::Begin {
            unexpected
        } else {
            &&& s == s0
            &&& match a {
                RegisterAction::Finished(Err(e)) => registration_started(store, request, Err(e)) && done,
                RegisterAction::PrepareVolume => registration_started(store, request, Ok(st.plan)) && st.plan.cloning
                    && st == (RegisterState { stage: RegisterStage::Volume, plan: st.plan, ..st0 }),
                RegisterAction::ProbeLocation { path: q } => registration_started(store, request, Ok(st.plan))
                    && !st.plan.cloning && q == st.plan.repository.path
                    && st == (RegisterState { stage: RegisterStage::Probe, plan: st.plan, ..st0 }),
                _ => false,
            }
        },
        RegisterEvent::Done => if st0.stage == RegisterStage::Volume {
            a == RegisterAction::ProbeLocation { path } && moved(RegisterStage::Probe)
        } else if st0.stage == RegisterStage::Clone {
            a == RegisterAction::ProbeGitDir { path } && moved(RegisterStage::GitDir)
        } else {
            unexpected
        },
        RegisterEvent::Exists(b) => if st0.stage == RegisterStage::Probe {
            match admission(s0, st0.plan) {
                Err(e) => refused(e),
                Ok(true) => if b {
                    refused(Error::CloneDestinationExists)
                } else if s0.revision == u64::MAX {
                    refused(Error::RevisionExhausted)
                } else {
                    &&& a is SaveJournal
                    &&& st == (RegisterState { stage: RegisterStage::Reserve, exists: b, ..st0 })
                    &&& s.revision == s0.revision + 1
                    &&& s.repositories@ == s0.repositories@.push(Repository { ready: false, ..st0.plan.repository })
                    &&& s.workspaces == s0.workspaces
                    &&& s.projects == s0.projects
                    &&& s.operations == s0.operations
                    &&& s.root == s0.root
                    &&& s.schema_version == s0.schema_version
                },
                Ok(false) => {
                    let reserved = st0.reserved || st0.plan.cloning;
                    if st0.plan.cloning && !b {
                        &&& a == RegisterAction::Clone { url: st0.plan.repository.clone_url, path }
                        &&& s == s0
                        &&& st == (RegisterState { stage: RegisterStage::Clone, exists: b, reserved, ..st0 })
                    } else {
                        &&& a == RegisterAction::ProbeGitDir { path }
                        &&& s == s0
                        &&& st == (RegisterState { stage: RegisterStage::GitDir, exists: b, reserved, ..st0 })
                    }
                },
            }
        } else if st0.stage == RegisterStage::GitDir {
            if b {
                a == RegisterAction::Canonicalize { path } && moved(RegisterStage::Canonical)
            } else {
                refused(Error::NotPrimaryClone)
            }
        } else {
            unexpected
        },
        RegisterEvent::Saved => if st0.stage == RegisterStage::Reserve {
            &&& s == s0
            &&& st == (RegisterState { stage: RegisterStage::Clone, reserved: true, ..st0 })
            &&& a == RegisterAction::Clone { url: st0.plan.repository.clone_url, path }
        } else {
            unexpected
        },
        RegisterEvent::Text(t) => if st0.stage == RegisterStage::Canonical {
            &&& s == s0
            &&& st == (RegisterState { stage: RegisterStage::Toplevel, canonical: t, ..st0 })
            &&& a == RegisterAction::ShowToplevel { path }
        } else if st0.stage == RegisterStage::Toplevel {
            if t@ != st0.canonical@ {
                refused(Error::NotRepositoryRoot)
            } else if st0.plan.cloning {
                a == RegisterAction::ReadOrigin { path } && moved(RegisterStage::Origin)
            } else {
                complete
            }
        } else if st0.stage == RegisterStage::Origin {
            if t@ != st0.plan.repository.clone_url@ {
                refused(Error::OriginChanged)
            } else {
                a == RegisterAction::ResolveHead { path } && moved(RegisterStage::Head)
            }
        } else if st0.stage == RegisterStage::Head {
            complete
        } else {
            unexpected
        },
    }
}

/// What one step guarantees.
pub open spec fn register_post(
    store: Store,
    request: RegisterRepository,
    s0: WorkspaceSnapshot,
    s: WorkspaceSnapshot,
    st0: RegisterState,
    st: RegisterState,
    ev: RegisterEvent,
    a: RegisterAction,
) -> bool {
    &&& register_inv(store, request, st)
    &&& register_transition(store, request, s0, s, st0, st, ev, a)
    &&& (a is Finished ==> st.stage == RegisterStage::Finished)
    &&& evolves(s0, s)
    &&& (st0.stage != RegisterStage::Begin && st0.stage != RegisterStage::Finished ==> st.plan == st0.plan)
    &&& (st0.reserved ==> st.reserved)
    &&& (st.reserved && !st0.reserved ==> (st0.stage == RegisterStage::Reserve && ev is Saved)
        || (st0.stage == RegisterStage::Probe && admission(s0, st0.plan) == Ok::<bool, Error>(false)))
}

fn fail(st: &mut RegisterState, e: Error) -> (a: RegisterAction)
    ensures
        a == RegisterAction::Finished(Err(e)),
        *final(st) == (RegisterState { stage: RegisterStage::Finished, ..*old(st) }),
{
    st.stage = RegisterStage::Finished;
    RegisterAction::Finished(Err(e))
}

fn complete(s: &mut WorkspaceSnapshot, st: &mut RegisterState) -> (a: RegisterAction)
    ensures
        registered_into(*old(s), *final(s), old(st).plan, old(st).canonical),
        evolves(*old(s), *final(s)),
        a == RegisterAction::Finished(Ok(())),
        *final(st) == (RegisterState { stage: RegisterStage::Finished, ..*old(st) }),
{
    register_complete(s, &st.plan, st.canonical.clone());
    st.stage = RegisterStage::Finished;
    RegisterAction::Finished(Ok(()))
}

fn location(st: &RegisterState) -> (r: String)
    ensures
        r == st.plan.repository.path,
{
    st.plan.repository.path.clone()
}

/// Decides the next step of registering `request` from what the last action
/// reported. A new clone is recorded not ready and the journal written; Git
/// clones only after that write is reported (a resumed clone was reserved
/// by an earlier run). The location must then hold an ordinary clone rooted
/// there, a clone must still fetch from its URL and have a `HEAD`, and the
/// registration is recorded ready at the canonical location. A refusal leaves
/// the journal as it was; an interrupted clone is never deleted.
pub fn register_step(
    store: &Store,
    s: &mut WorkspaceSnapshot,
    st: &mut RegisterState,
    request: &RegisterRepository,
    ev: RegisterEvent,
) -> (a: RegisterAction)
    requires
        register_inv(*store, *request, *old(st)),
    ensures
        register_post(*store, *request, *old(s), *final(s), *old(st), *final(st), ev, a),
{
    match ev {
        RegisterEvent::Failed(e) => {
            if st.stage == RegisterStage::Head {
                match clone_head(Err(e)) {
                    Err(e) => fail(st, e),
                    Ok(_) => fail(st, Error::UnexpectedEvent),
                }
            } else {
                fail(st, e)
            }
        },
        RegisterEvent::Start => {
            if st.stage != RegisterStage::Begin {
                return fail(st, Error::UnexpectedEvent);
            }
            match register_start(store, request) {
                Err(e) => fail(st, e),
                Ok(plan) => {
                    let cloning = plan.cloning;
                    st.plan = plan;
                    if cloning {
                        st.stage = RegisterStage::Volume;
                        RegisterAction::PrepareVolume
                    } else {
                        st.stage = RegisterStage::Probe;
                        RegisterAction::ProbeLocation { path: location(st) }
                    }
                },
            }
        },
        RegisterEvent::Done => {
            if st.stage == RegisterStage::Volume {
                st.stage = RegisterStage::Probe;
                RegisterAction::ProbeLocation { path: location(st) }
            } else if st.stage == RegisterStage::Clone {
                st.stage = RegisterStage::GitDir;
                RegisterAction::ProbeGitDir { path: location(st) }
            } else {
                fail(st, Error::UnexpectedEvent)
            }
        },
        RegisterEvent::Exists(exists) => {
            if st.stage == RegisterStage::Probe {
                match register_admit(s, &st.plan) {
                    Err(e) => fail(st, e),
                    Ok(true) => {
                        match clone_destination_free(exists) {
                            Err(e) => return fail(st, e),
                            Ok(()) => {},
                        }
                        match bump_revision(s) {
                            Err(e) => return fail(st, e),
                            Ok(()) => {},
                        }
                        register_reserve(s, &st.plan);
                        st.exists = exists;
                        st.stage = RegisterStage::Reserve;
                        RegisterAction::SaveJournal
                    },
                    Ok(false) => {
                        st.exists = exists;
                        if st.plan.cloning {
                            st.reserved = true;
                        }
                        if st.plan.cloning && !exists {
                            st.stage = RegisterStage::Clone;
                            RegisterAction::Clone {
                                url: st.plan.repository.clone_url.clone(),
                                path: location(st),
                            }
                        } else {
                            st.stage = RegisterStage::GitDir;
                            RegisterAction::ProbeGitDir { path: location(st) }
                        }
                    },
                }
            } else if st.stage == RegisterStage::GitDir {
                match primary_clone(exists) {
                    Err(e) => fail(st, e),
                    Ok(()) => {
                        st.stage = RegisterStage::Canonical;
                        RegisterAction::Canonicalize { path: location(st) }
                    },
                }
            } else {
                fail(st, Error::UnexpectedEvent)
            }
        },
        RegisterEvent::Saved => {
            if st.stage != RegisterStage::Reserve {
                return fail(st, Error::UnexpectedEvent);
            }
            st.reserved = true;
            if !st.exists {
                st.stage = RegisterStage::Clone;
                RegisterAction::Clone { url: st.plan.repository.clone_url.clone(), path: location(st) }
            } else {
                st.stage = RegisterStage::GitDir;
                RegisterAction::ProbeGitDir { path: location(st) }
            }
        },
        RegisterEvent::Text(text) => {
            if st.stage == RegisterStage::Canonical {
                st.canonical = text;
                st.stage = RegisterStage::Toplevel;
                RegisterAction::ShowToplevel { path: location(st) }
            } else if st.stage == RegisterStage::Toplevel {
                match repository_root(text.as_str(), st.canonical.as_str()) {
                    Err(e) => fail(st, e),
                    Ok(()) => {
                        if st.plan.cloning {
                            st.stage = RegisterStage::Origin;
                            RegisterAction::ReadOrigin { path: location(st) }
                        } else {
                            complete(s, st)
                        }
                    },
                }
            } else if st.stage == RegisterStage::Origin {
                match clone_origin(text.as_str(), &st.plan) {
                    Err(e) => fail(st, e),
                    Ok(()) => {
                        st.stage = RegisterStage::Head;
                        RegisterAction::ResolveHead { path: location(st) }
                    },
                }
            } else if st.stage == RegisterStage::Head {
                match clone_head(Ok(text)) {
                    Err(e) => fail(st, e),
                    Ok(_) => complete(s, st),
                }
            } else {
                fail(st, Error::UnexpectedEvent)
            }
        },
    }
}

} // verus!
