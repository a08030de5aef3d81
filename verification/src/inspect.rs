//! Inspection: whether a workspace may be collected, and every reason it
//! may not. What Git and the process table report about a checkout is
//! observed by the caller and handed in.
use vstd::prelude::*;
use vstd::string::*;
use crate::catalog::{ws_index, find_workspace};
use crate::copy::copy_workspace;
use crate::error::{Error, message_of};
use crate::model::{
    CheckoutInspection, ManagedWorkspace, WorkspaceCheckout, WorkspaceInspection,
    WorkspaceInspections, WorkspacePhase, WorkspaceSnapshot,
};
use crate::seqs::views;
use crate::text::{blank, is_blank, decimal, render_i64};
use crate::store::Store;
use crate::path::{join, join_path, starts_with, path_starts_with};
use crate::model::{BuildContext, BuildSource};

verus! {

/// What was observed of one checkout, as far as observation got: its head,
/// whether it has uncommitted or untracked content, whether it has ignored
/// files, and the failure that stopped observation, if one did.
#[derive(Clone, Debug, PartialEq, Eq, Default)]
pub struct CheckoutObservation {
    pub head: String,
    pub dirty: bool,
    pub ignored_files: bool,
    pub failure: Option<Error>,
}

/// What was observed of a workspace: one entry per checkout (in order;
/// entries of removed checkouts are not consulted), whether anything outside
/// the checkouts must be kept, and whether any process uses the workspace.
#[derive(Debug)]
pub struct WorkspaceObservation {
    pub checkouts: Vec<CheckoutObservation>,
    pub extra_content: Result<(), Error>,
    pub idle: Result<(), Error>,
}

/// The workspace's checkout in `repository_id` has evidence that `head` is
/// integrated.
pub open spec fn has_evidence(w: ManagedWorkspace, repository_id: Seq<char>, head: Seq<char>) -> bool {
    exists|i: int|
        0 <= i < w.integration@.len() && (#[trigger] w.integration@[i]).repository_id@ == repository_id
            && w.integration@[i].source_commit@ == head
}

/// Reasons that do not depend on the checkouts.
pub open spec fn workspace_reasons(w: ManagedWorkspace, now: i64) -> Seq<Seq<char>> {
    (if !(w.phase == WorkspacePhase::Released || w.phase == WorkspacePhase::Removing) {
        seq!["workspace has not been explicitly released"@]
    } else {
        seq![]
    }) + (if w.lease matches Some(l) && l.expires_at > now {
        seq!["live ownership lease"@]
    } else {
        seq![]
    }) + (if w.collect_after > now {
        seq!["retained until "@ + decimal(w.collect_after as int)]
    } else {
        seq![]
    }) + (if blank(w.abandonment_reason@) && w.integration@.len() != w.checkouts@.len() {
        seq!["missing integration or abandonment evidence"@]
    } else {
        seq![]
    })
}

/// Reasons a checkout gives: its content and evidence, or why it could not
/// be observed.
pub open spec fn checkout_reasons(w: ManagedWorkspace, c: WorkspaceCheckout, o: CheckoutObservation) -> Seq<Seq<char>> {
    let id = c.repository_id@;
    match o.failure {
        Some(e) => seq![id + ": "@ + message_of(e)],
        None => (if o.dirty {
            seq![id + ": uncommitted or untracked content"@]
        } else {
            seq![]
        }) + (if o.ignored_files {
            seq![id + ": ignored content needs preservation"@]
        } else {
            seq![]
        }) + (if blank(w.abandonment_reason@) && !has_evidence(w, id, o.head@) {
            seq![id + ": current HEAD lacks integration evidence"@]
        } else {
            seq![]
        }),
    }
}

/// Reasons the first `n` checkouts give; removed checkouts give none.
pub open spec fn checkouts_reasons(w: ManagedWorkspace, obs: Seq<CheckoutObservation>, n: nat) -> Seq<Seq<char>>
    decreases n,
{
    if n == 0 {
        seq![]
    } else {
        let c = w.checkouts@[n - 1];
        checkouts_reasons(w, obs, (n - 1) as nat) + (if c.removed {
            seq![]
        } else {
            checkout_reasons(w, c, obs[n - 1])
        })
    }
}

/// Positions of the checkouts among the first `n` that are not removed.
pub open spec fn kept(w: ManagedWorkspace, n: nat) -> Seq<int>
    decreases n,
{
    if n == 0 {
        seq![]
    } else if w.checkouts@[n - 1].removed {
        kept(w, (n - 1) as nat)
    } else {
        kept(w, (n - 1) as nat).push(n - 1)
    }
}

/// Reasons outside the checkouts, consulted unless the workspace is removed.
pub open spec fn content_reasons(w: ManagedWorkspace, o: WorkspaceObservation) -> Seq<Seq<char>> {
    if w.phase == WorkspacePhase::Removed {
        seq![]
    } else {
        (match o.extra_content {
            Err(e) => seq![message_of(e)],
            Ok(()) => seq![],
        }) + (match o.idle {
            Err(e) => seq![message_of(e)],
            Ok(()) => seq![],
        })
    }
}

/// Every reason to retain the workspace, in the order they are reported.
pub open spec fn retention_reasons(w: ManagedWorkspace, now: i64, o: WorkspaceObservation) -> Seq<Seq<char>> {
    workspace_reasons(w, now) + checkouts_reasons(w, o.checkouts@, w.checkouts@.len()) + content_reasons(w, o)
}

/// A reported checkout carries what was observed of it.
pub open spec fn reports(r: CheckoutInspection, c: WorkspaceCheckout, o: CheckoutObservation) -> bool {
    &&& r.repository_id@ == c.repository_id@
    &&& r.path@ == c.path@
    &&& r.head@ == o.head@
    &&& r.dirty == o.dirty
    &&& r.ignored_files == o.ignored_files
    &&& r.problem@ == (match o.failure {
        Some(e) => message_of(e),
        None => seq![],
    })
}

/// The observation covers the workspace's checkouts.
pub open spec fn covers(w: ManagedWorkspace, o: WorkspaceObservation) -> bool {
    o.checkouts@.len() == w.checkouts@.len()
}

/// What an inspection of `w` reports.
pub open spec fn inspection_of(r: WorkspaceInspection, w: ManagedWorkspace, now: i64, o: WorkspaceObservation) -> bool {
    let ks = kept(w, w.checkouts@.len());
    &&& r.workspace matches Some(x) && crate::copy::same_workspace(x, w)
    &&& r.checkouts@.len() == ks.len()
    &&& forall|m: int| 0 <= m < ks.len() ==> #[trigger] reports(r.checkouts@[m], w.checkouts@[ks[m]], o.checkouts@[ks[m]])
    &&& views(r.retention_reasons@) == retention_reasons(w, now, o)
    &&& r.collectable == (retention_reasons(w, now, o).len() == 0)
}

fn push_str(v: &mut Vec<String>, x: String)
    ensures
        views(final(v)@) == views(old(v)@).push(x@),
{
    let ghost before = v@;
    v.push(x);
    assert(views(v@) =~= views(before).push(x@));
}

fn prefixed(id: &String, suffix: &str) -> (r: String)
    ensures
        r@ == id@ + suffix@,
{
    id.clone().concat(suffix)
}

fn evidence_for(w: &ManagedWorkspace, id: &String, head: &String) -> (r: bool)
    ensures
        r == has_evidence(*w, id@, head@),
{
    let mut i: usize = 0;
    while i < w.integration.len()
        invariant
            i <= w.integration@.len(),
            forall|j: int|
                0 <= j < i ==> !((#[trigger] w.integration@[j]).repository_id@ == id@
                    && w.integration@[j].source_commit@ == head@),
        decreases w.integration@.len() - i,
    {
        if w.integration[i].repository_id == *id && w.integration[i].source_commit == *head {
            return true;
        }
        i = i + 1;
    }
    false
}

/// Inspects the workspace `w` given what was observed of it.
pub fn inspect_workspace(w: &ManagedWorkspace, now: i64, o: &WorkspaceObservation) -> (r: WorkspaceInspection)
    requires
        covers(*w, *o),
    ensures
        inspection_of(r, *w, now, *o),
{
    let mut reasons: Vec<String> = Vec::new();
    if !(w.phase == WorkspacePhase::Released || w.phase == WorkspacePhase::Removing) {
        push_str(&mut reasons, String::from_str("workspace has not been explicitly released"));
    }
    let live = match &w.lease {
        Some(l) => l.expires_at > now,
        None => false,
    };
    if live {
        push_str(&mut reasons, String::from_str("live ownership lease"));
    }
    if w.collect_after > now {
        let n = render_i64(w.collect_after);
        push_str(&mut reasons, String::from_str("retained until ").concat(n.as_str()));
    }
    let abandoning = !is_blank(w.abandonment_reason.as_str());
    if !abandoning && w.integration.len() != w.checkouts.len() {
        push_str(&mut reasons, String::from_str("missing integration or abandonment evidence"));
    }
    assert(views(reasons@) =~= workspace_reasons(*w, now));
    let ghost head = views(reasons@);
    let mut checkouts: Vec<CheckoutInspection> = Vec::new();
    let mut j: usize = 0;
    while j < w.checkouts.len()
        invariant
            covers(*w, *o),
            abandoning == !blank(w.abandonment_reason@),
            j <= w.checkouts@.len(),
            head == workspace_reasons(*w, now),
            views(reasons@) == head + checkouts_reasons(*w, o.checkouts@, j as nat),
            checkouts@.len() == kept(*w, j as nat).len(),
            forall|m: int|
                0 <= m < kept(*w, j as nat).len() ==> #[trigger] reports(
                    checkouts@[m],
                    w.checkouts@[kept(*w, j as nat)[m]],
                    o.checkouts@[kept(*w, j as nat)[m]],
                ),
        decreases w.checkouts@.len() - j,
    {
        let c = &w.checkouts[j];
        let ob = &o.checkouts[j];
        let ghost before = views(reasons@);
        let ghost before_k = kept(*w, j as nat);
        if !c.removed {
            let ghost start = views(reasons@);
            let problem = match &ob.failure {
                Some(e) => {
                    let msg = e.message();
                    push_str(&mut reasons, prefixed(&c.repository_id, ": ").concat(msg.as_str()));
                    msg
                },
                None => {
                    if ob.dirty {
                        push_str(&mut reasons, prefixed(&c.repository_id, ": uncommitted or untracked content"));
                    }
                    let ghost mid1 = views(reasons@);
                    if ob.ignored_files {
                        push_str(&mut reasons, prefixed(&c.repository_id, ": ignored content needs preservation"));
                    }
                    let ghost mid2 = views(reasons@);
                    if !abandoning && !evidence_for(w, &c.repository_id, &ob.head) {
                        push_str(&mut reasons, prefixed(&c.repository_id, ": current HEAD lacks integration evidence"));
                    }
                    String::new()
                },
            };
            proof {
                assert(views(reasons@) =~= start + checkout_reasons(*w, *c, *ob));
            }
            checkouts.push(
                CheckoutInspection {
                    repository_id: c.repository_id.clone(),
                    path: c.path.clone(),
                    head: ob.head.clone(),
                    dirty: ob.dirty,
                    ignored_files: ob.ignored_files,
                    problem,
                },
            );
            proof {
                assert(kept(*w, (j + 1) as nat) == before_k.push(j as int));
            }
        } else {
            proof {
                assert(kept(*w, (j + 1) as nat) == before_k);
            }
        }
        proof {
            assert(views(reasons@) =~= head + checkouts_reasons(*w, o.checkouts@, (j + 1) as nat));
        }
        j = j + 1;
    }
    let ghost mid = views(reasons@);
    if w.phase != WorkspacePhase::Removed {
        match &o.extra_content {
            Err(e) => push_str(&mut reasons, e.message()),
            Ok(()) => {},
        }
        match &o.idle {
            Err(e) => push_str(&mut reasons, e.message()),
            Ok(()) => {},
        }
    }
    assert(views(reasons@) =~= retention_reasons(*w, now, *o));
    let collectable = reasons.len() == 0;
    WorkspaceInspection {
        workspace: Some(copy_workspace(w)),
        checkouts,
        collectable,
        retention_reasons: reasons,
    }
}

/// Positions of the first `n` workspaces that are listed for inspection:
/// those not yet removed.
pub open spec fn listed(s: WorkspaceSnapshot, n: nat) -> Seq<int>
    decreases n,
{
    if n == 0 {
        seq![]
    } else if s.workspaces@[n - 1].phase == WorkspacePhase::Removed {
        listed(s, (n - 1) as nat)
    } else {
        listed(s, (n - 1) as nat).push(n - 1)
    }
}

/// The workspace an inspection by the ID of workspace `t` looks at: the
/// first one carrying that ID.
pub open spec fn inspected(s: WorkspaceSnapshot, t: int) -> ManagedWorkspace {
    s.workspaces@[ws_index(s, s.workspaces@[t].id@)]
}

proof fn lemma_listed_bounds(s: WorkspaceSnapshot, n: nat)
    requires
        n <= s.workspaces@.len(),
    ensures
        forall|m: int| 0 <= m < listed(s, n).len() ==> 0 <= #[trigger] listed(s, n)[m] < n,
    decreases n,
{
    if n > 0 {
        lemma_listed_bounds(s, (n - 1) as nat);
        let prev = listed(s, (n - 1) as nat);
        let cur = listed(s, n);
        assert forall|m: int| 0 <= m < cur.len() implies 0 <= #[trigger] cur[m] < n by {
            if m < prev.len() {
                assert(cur[m] == prev[m]);
            }
        }
    }
}

/// The positions of the workspaces an inspection of all of them looks at,
/// in order: for each workspace not yet removed, the first one with its ID.
pub fn inspection_targets(s: &WorkspaceSnapshot) -> (r: Vec<usize>)
    ensures
        r@.len() == listed(*s, s.workspaces@.len()).len(),
        forall|m: int|
            0 <= m < r@.len() ==> #[trigger] r@[m] as int == ws_index(*s, s.workspaces@[listed(*s, s.workspaces@.len())[m]].id@),
{
    let mut r: Vec<usize> = Vec::new();
    let mut t: usize = 0;
    while t < s.workspaces.len()
        invariant
            t <= s.workspaces@.len(),
            r@.len() == listed(*s, t as nat).len(),
            forall|m: int|
                0 <= m < r@.len() ==> #[trigger] r@[m] as int == ws_index(*s, s.workspaces@[listed(*s, t as nat)[m]].id@),
        decreases s.workspaces@.len() - t,
    {
        if s.workspaces[t].phase != WorkspacePhase::Removed {
            let k = find_workspace(s, s.workspaces[t].id.as_str());
            proof {
                crate::seqs::lemma_first_index_meaning(s.workspaces@, crate::catalog::ws_named(s.workspaces@[t as int].id@));
                assert(crate::catalog::ws_named(s.workspaces@[t as int].id@)(s.workspaces@[t as int]));
            }
            match k {
                Some(k) => r.push(k),
                None => {
                    proof { assert(false); }
                },
            }
        }
        t = t + 1;
    }
    r
}

impl Store {
    /// Inspects the workspace with this ID.
    pub fn inspect(&self, s: &WorkspaceSnapshot, id: &str, now: i64, o: &WorkspaceObservation) -> (r: Result<WorkspaceInspection, Error>)
        requires
            ws_index(*s, id@) >= 0 ==> covers(s.workspaces@[ws_index(*s, id@)], *o),
        ensures
            ws_index(*s, id@) < 0 ==> r == Err::<WorkspaceInspection, Error>(Error::UnknownWorkspace),
            ws_index(*s, id@) >= 0 ==> (r matches Ok(x) && inspection_of(x, s.workspaces@[ws_index(*s, id@)], now, *o)),
    {
        match find_workspace(s, id) {
            None => Err(Error::UnknownWorkspace),
            Some(k) => Ok(inspect_workspace(&s.workspaces[k], now, o)),
        }
    }

    /// Inspects every workspace not yet removed, in journal order;
    /// `obs[m]` is what was observed of the `m`-th of them (see
    /// `inspection_targets`).
    pub fn inspections(&self, s: &WorkspaceSnapshot, now: i64, obs: &Vec<WorkspaceObservation>) -> (r: Result<WorkspaceInspections, Error>)
        requires
            obs@.len() == listed(*s, s.workspaces@.len()).len(),
            forall|m: int| 0 <= m < obs@.len() ==> covers(inspected(*s, listed(*s, s.workspaces@.len())[m]), #[trigger] obs@[m]),
        ensures
            r matches Ok(x) && x.inspections@.len() == obs@.len() && forall|m: int|
                0 <= m < obs@.len() ==> #[trigger] inspection_of(
                    x.inspections@[m],
                    inspected(*s, listed(*s, s.workspaces@.len())[m]),
                    now,
                    obs@[m],
                ),
    {
        let targets = inspection_targets(s);
        let ghost ls = listed(*s, s.workspaces@.len());
        proof { lemma_listed_bounds(*s, s.workspaces@.len()); }
        let mut out: Vec<WorkspaceInspection> = Vec::new();
        let mut m: usize = 0;
        while m < targets.len()
            invariant
                ls == listed(*s, s.workspaces@.len()),
                forall|q: int| 0 <= q < ls.len() ==> 0 <= #[trigger] ls[q] < s.workspaces@.len(),
                targets@.len() == ls.len(),
                obs@.len() == ls.len(),
                forall|q: int| 0 <= q < targets@.len() ==> #[trigger] targets@[q] as int == ws_index(*s, s.workspaces@[ls[q]].id@),
                forall|q: int| 0 <= q < obs@.len() ==> covers(inspected(*s, ls[q]), #[trigger] obs@[q]),
                m <= targets@.len(),
                out@.len() == m,
                forall|q: int| 0 <= q < m ==> #[trigger] inspection_of(out@[q], inspected(*s, ls[q]), now, obs@[q]),
            decreases targets@.len() - m,
        {
            let k = targets[m];
            proof {
                assert(targets@[m as int] as int == ws_index(*s, s.workspaces@[ls[m as int]].id@));
                crate::seqs::lemma_first_index_meaning(s.workspaces@, crate::catalog::ws_named(s.workspaces@[ls[m as int]].id@));
                assert(crate::catalog::ws_named(s.workspaces@[ls[m as int]].id@)(s.workspaces@[ls[m as int]]));
                assert(covers(inspected(*s, ls[m as int]), obs@[m as int]));
            }
            out.push(inspect_workspace(&s.workspaces[k], now, &obs[m]));
            m = m + 1;
        }
        Ok(WorkspaceInspections { inspections: out })
    }

    /// Resolves what a build needs from an inspection of a ready or active
    /// workspace: its pinned project, the observed sources (dirty when they
    /// hold uncommitted, untracked or ignored content), a workspace-specific
    /// output base under the cache root and an artifact directory. A build
    /// always has to snapshot its inputs first.
    pub fn build_context(&self, inspection: &WorkspaceInspection) -> (r: Result<BuildContext, Error>)
        ensures
            inspection.workspace is None ==> r == Err::<BuildContext, Error>(Error::WorkspaceMissing),
            inspection.workspace matches Some(w) ==> ({
                let bad = crate::seqs::first_index(inspection.checkouts@, |c: CheckoutInspection| c.problem@.len() > 0);
                if !(w.phase == WorkspacePhase::Ready || w.phase == WorkspacePhase::Active) {
                    r == Err::<BuildContext, Error>(Error::NotReadyForBuilds)
                } else if w.project is None {
                    r == Err::<BuildContext, Error>(Error::MissingProject)
                } else if bad >= 0 {
                    r matches Err(Error::CheckoutProblem(p)) && p@ == inspection.checkouts@[bad].problem@
                } else {
                    r matches Ok(ctx) && builds(ctx, *self, w, w.project->0, inspection.checkouts@)
                }
            }),
    {
        let w = match &inspection.workspace {
            None => return Err(Error::WorkspaceMissing),
            Some(w) => w,
        };
        if !(w.phase == WorkspacePhase::Ready || w.phase == WorkspacePhase::Active) {
            return Err(Error::NotReadyForBuilds);
        }
        let p = match &w.project {
            None => return Err(Error::MissingProject),
            Some(p) => p,
        };
        let ghost bad = |c: CheckoutInspection| c.problem@.len() > 0;
        let mut sources: Vec<BuildSource> = Vec::new();
        let mut i: usize = 0;
        while i < inspection.checkouts.len()
            invariant
                inspection.workspace matches Some(x) && (x.phase == WorkspacePhase::Ready || x.phase
                    == WorkspacePhase::Active) && x.project is Some,
                bad == (|c: CheckoutInspection| c.problem@.len() > 0),
                i <= inspection.checkouts@.len(),
                forall|q: int| 0 <= q < i ==> !bad(#[trigger] inspection.checkouts@[q]),
                sources@.len() == i,
                forall|q: int| 0 <= q < i ==> #[trigger] sourced(sources@[q], inspection.checkouts@[q]),
            decreases inspection.checkouts@.len() - i,
        {
            let c = &inspection.checkouts[i];
            if c.problem.unicode_len() > 0 {
                proof {
                    assert(crate::seqs::is_first(inspection.checkouts@, bad, i as int));
                    crate::seqs::lemma_first_index_found(inspection.checkouts@, bad, i as int);
                }
                return Err(Error::CheckoutProblem(c.problem.clone()));
            }
            sources.push(
                BuildSource {
                    repository_id: c.repository_id.clone(),
                    checkout_path: c.path.clone(),
                    commit: c.head.clone(),
                    dirty: c.dirty || c.ignored_files,
                },
            );
            i = i + 1;
        }
        proof {
            crate::seqs::lemma_first_index_none(inspection.checkouts@, bad);
        }
        let managed = join_path(self.output_root.as_str(), "managed");
        let artifacts = join_path(self.root.as_str(), "artifacts");
        let by_project = join_path(artifacts.as_str(), p.id.as_str());
        Ok(
            BuildContext {
                workspace_id: w.id.clone(),
                project_id: p.id.clone(),
                project_revision: p.revision,
                sources,
                validation_targets: crate::copy::copy_strings(&p.validation_targets),
                output_base: join_path(managed.as_str(), w.id.as_str()),
                artifact_directory: join_path(by_project.as_str(), w.id.as_str()),
                requires_input_snapshot: true,
            },
        )
    }

    /// Refuses a path inside a managed workspace: the legacy force-removal
    /// path must not bypass lifecycle ownership. `resolved` is the absolute,
    /// canonical form of the path.
    pub fn ensure_unmanaged(&self, s: &WorkspaceSnapshot, resolved: &str) -> (r: Result<(), Error>)
        ensures
            r is Ok <==> !exists|i: int| 0 <= i < s.workspaces@.len() && #[trigger] starts_with(resolved@, s.workspaces@[i].path@),
            r is Err ==> r == Err::<(), Error>(Error::Managed),
    {
        let mut i: usize = 0;
        while i < s.workspaces.len()
            invariant
                i <= s.workspaces@.len(),
                forall|j: int| 0 <= j < i ==> !#[trigger] starts_with(resolved@, s.workspaces@[j].path@),
            decreases s.workspaces@.len() - i,
        {
            if path_starts_with(resolved, s.workspaces[i].path.as_str()) {
                return Err(Error::Managed);
            }
            i = i + 1;
        }
        Ok(())
    }
}

/// A build source is the observed checkout.
pub open spec fn sourced(b: BuildSource, c: CheckoutInspection) -> bool {
    &&& b.repository_id@ == c.repository_id@
    &&& b.checkout_path@ == c.path@
    &&& b.commit@ == c.head@
    &&& b.dirty == (c.dirty || c.ignored_files)
}

/// The build context resolved for workspace `w` of project `p` from its
/// inspected checkouts.
pub open spec fn builds(ctx: BuildContext, store: Store, w: ManagedWorkspace, p: crate::model::ProjectSpec, cs: Seq<CheckoutInspection>) -> bool {
    &&& ctx.workspace_id@ == w.id@
    &&& ctx.project_id@ == p.id@
    &&& ctx.project_revision == p.revision
    &&& ctx.sources@.len() == cs.len()
    &&& forall|q: int| 0 <= q < cs.len() ==> #[trigger] sourced(ctx.sources@[q], cs[q])
    &&& ctx.validation_targets@ == p.validation_targets@
    &&& ctx.output_base@ == join(join(store.output_root@, "managed"@), w.id@)
    &&& ctx.artifact_directory@ == join(join(join(store.root@, "artifacts"@), p.id@), w.id@)
    &&& ctx.requires_input_snapshot
}


} // verus!
