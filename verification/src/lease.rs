//! Ownership: leases fenced by a generation, and release with integration
//! evidence or explicit abandonment.
use vstd::prelude::*;
use vstd::string::*;
use crate::catalog::{evolves, ws_index, workspace_position, same_but_workspaces, input_ids, input_named, ids_of, find_input};
use crate::error::Error;
use crate::ident::{token, rejects, unique};
use crate::model::{
    IntegrationEvidence, LeaseWorkspace, ManagedWorkspace, ReleaseWorkspace,
    WorkspaceLease, WorkspacePhase, WorkspaceSnapshot,
};
use crate::seqs::{first_index, is_first, lemma_first_index_found, lemma_first_index_none};
use crate::text::{valid_token, blank, is_blank};

verus! {

/// Longest lease, in seconds.
pub const MAX_TTL: u64 = 3600;

/// The lease a workspace carries: owner, generation and expiry; an absent
/// lease reads as the empty owner at generation 0, expired at 0.
pub open spec fn current_lease(w: ManagedWorkspace) -> (Seq<char>, u64, i64) {
    match w.lease {
        Some(x) => (x.owner@, x.generation, x.expires_at),
        None => (seq![], 0, 0),
    }
}

/// The request renews a live lease its owner holds.
pub open spec fn renewing(w: ManagedWorkspace, l: LeaseWorkspace, now: i64) -> bool {
    current_lease(w).0 == l.owner@ && current_lease(w).2 > now
}

/// Why a lease request with a token owner is refused, checked in order; none
/// when it is granted.
pub open spec fn lease_refusal(s: WorkspaceSnapshot, l: LeaseWorkspace, now: i64) -> Option<Error> {
    let k = ws_index(s, l.workspace_id@);
    let w = s.workspaces@[k];
    let (owner, generation, expires) = current_lease(w);
    if !(1 <= l.ttl_seconds && l.ttl_seconds <= MAX_TTL) {
        Some(Error::InvalidTtl)
    } else if k < 0 {
        Some(Error::UnknownWorkspace)
    } else if w.revision != l.expected_revision {
        Some(Error::WorkspaceRevisionChanged)
    } else if !(w.phase == WorkspacePhase::Ready || w.phase == WorkspacePhase::Active) {
        Some(Error::NotReady)
    } else if generation != l.generation {
        Some(Error::StaleGeneration)
    } else if !(owner == l.owner@ || expires <= now) {
        Some(Error::LiveOwner)
    } else if !renewing(w, l, now) && generation == u64::MAX {
        Some(Error::GenerationExhausted)
    } else {
        None
    }
}

/// The workspace once the lease is granted: owned by the requester until
/// `now + ttl`, at the same generation when renewing and the next one when
/// taking over, active, one revision later.
pub open spec fn leased(w: ManagedWorkspace, l: LeaseWorkspace, now: i64) -> ManagedWorkspace {
    ManagedWorkspace {
        lease: Some(
            WorkspaceLease {
                owner: l.owner,
                generation: if renewing(w, l, now) {
                    current_lease(w).1
                } else {
                    (current_lease(w).1 + 1) as u64
                },
                expires_at: (now + l.ttl_seconds) as i64,
            },
        ),
        phase: WorkspacePhase::Active,
        revision: (w.revision + 1) as u64,
        ..w
    }
}

/// Checks a lease request against the journal: the owner must be a token,
/// then every refusal of `lease_refusal` in its order. Returns the
/// workspace's position when the lease may be granted.
pub fn lease_check(s: &WorkspaceSnapshot, l: &LeaseWorkspace, now: i64) -> (r: Result<usize, Error>)
    ensures
        !valid_token(l.owner@) ==> (r matches Err(Error::InvalidComponent(t)) && t@ == l.owner@),
        valid_token(l.owner@) ==> match lease_refusal(*s, *l, now) {
            Some(e) => r == Err::<usize, Error>(e),
            None => r matches Ok(k) && k as int == ws_index(*s, l.workspace_id@),
        },
{
    match token(l.owner.as_str()) {
        Err(e) => return Err(e),
        Ok(()) => {},
    }
    if !(1 <= l.ttl_seconds && l.ttl_seconds <= MAX_TTL) {
        return Err(Error::InvalidTtl);
    }
    let k = match workspace_position(s, l.workspace_id.as_str()) {
        Ok(k) => k,
        Err(e) => return Err(e),
    };
    if s.workspaces[k].revision != l.expected_revision {
        return Err(Error::WorkspaceRevisionChanged);
    }
    let phase = s.workspaces[k].phase;
    if !(phase == WorkspacePhase::Ready || phase == WorkspacePhase::Active) {
        return Err(Error::NotReady);
    }
    let (owner, generation, expires) = match &s.workspaces[k].lease {
        Some(x) => (x.owner.clone(), x.generation, x.expires_at),
        None => (String::new(), 0, 0),
    };
    if generation != l.generation {
        return Err(Error::StaleGeneration);
    }
    let same_owner = owner == l.owner;
    if !(same_owner || expires <= now) {
        return Err(Error::LiveOwner);
    }
    if !(same_owner && expires > now) && generation == u64::MAX {
        return Err(Error::GenerationExhausted);
    }
    Ok(k)
}

/// Acquires, renews or takes over the lease of a ready or active workspace.
/// The caller states the revision and fencing generation it saw; a live lease
/// of another owner blocks, an expired one may be taken over (the generation
/// advances). Expiry never releases a workspace.
pub fn lease(s: &mut WorkspaceSnapshot, l: &LeaseWorkspace, now: i64) -> (r: Result<(), Error>)
    requires
        now <= i64::MAX - MAX_TTL,
        valid_token(l.owner@) && lease_refusal(*old(s), *l, now) is None ==> old(s).workspaces@[ws_index(
            *old(s),
            l.workspace_id@,
        )].revision < u64::MAX,
    ensures
        !valid_token(l.owner@) ==> rejects(r, l.owner@) && *final(s) == *old(s),
        evolves(*old(s), *final(s)),
        valid_token(l.owner@) ==> match lease_refusal(*old(s), *l, now) {
            Some(e) => r == Err::<(), Error>(e) && *final(s) == *old(s),
            None => {
                let k = ws_index(*old(s), l.workspace_id@);
                &&& r is Ok
                &&& final(s).workspaces@ == old(s).workspaces@.update(k, leased(old(s).workspaces@[k], *l, now))
                &&& same_but_workspaces(*final(s), *old(s))
            },
        },
{
    let k = match lease_check(s, l, now) {
        Err(e) => return Err(e),
        Ok(k) => k,
    };
    let (owner, generation, expires) = match &s.workspaces[k].lease {
        Some(x) => (x.owner.clone(), x.generation, x.expires_at),
        None => (String::new(), 0, 0),
    };
    let same_owner = owner == l.owner;
    let next = if same_owner && expires > now {
        generation
    } else {
        generation + 1
    };
    let expires_at = now + (l.ttl_seconds as i64);
    let revision = s.workspaces[k].revision + 1;
    s.workspaces[k].lease = Some(WorkspaceLease { owner: l.owner.clone(), generation: next, expires_at });
    s.workspaces[k].phase = WorkspacePhase::Active;
    s.workspaces[k].revision = revision;
    Ok(())
}

/// Why a release is refused before any integration evidence is consulted,
/// checked in order; none when it may proceed.
pub open spec fn release_gate(s: WorkspaceSnapshot, r: ReleaseWorkspace, now: i64) -> Option<Error> {
    let k = ws_index(s, r.workspace_id@);
    let w = s.workspaces@[k];
    let integrating = blank(r.abandonment_reason@);
    if k < 0 {
        Some(Error::UnknownWorkspace)
    } else if w.revision != r.expected_revision {
        Some(Error::WorkspaceRevisionChanged)
    } else if w.phase != WorkspacePhase::Active {
        Some(Error::NotActive)
    } else if w.lease is None {
        Some(Error::NoOwner)
    } else if !(current_lease(w).0 == r.owner@ && current_lease(w).1 == r.generation
        && current_lease(w).2 > now) {
        Some(Error::OwnerRequired)
    } else if !(integrating || r.integrated_into@.len() == 0) {
        Some(Error::IntegrationOrAbandonment)
    } else if integrating && !input_ids(r.integrated_into@).no_duplicates() {
        Some(Error::DuplicateRepositoryIds)
    } else if integrating && r.integrated_into@.len() != w.checkouts@.len() {
        Some(Error::TargetsRequired)
    } else {
        None
    }
}

/// The integration target named for a checkout's repository, or -1.
pub open spec fn target_index(r: ReleaseWorkspace, repository_id: Seq<char>) -> int {
    first_index(r.integrated_into@, input_named(repository_id))
}

/// For each checkout: whether it lacks a target or its evidence could not be
/// established.
pub open spec fn evidence_gaps(
    w: ManagedWorkspace,
    r: ReleaseWorkspace,
    observed: Seq<Result<IntegrationEvidence, Error>>,
) -> Seq<bool> {
    Seq::new(
        w.checkouts@.len(),
        |j: int| target_index(r, w.checkouts@[j].repository_id@) < 0 || observed[j] is Err,
    )
}

/// The first checkout whose integration is not established, or -1.
pub open spec fn first_gap(
    w: ManagedWorkspace,
    r: ReleaseWorkspace,
    observed: Seq<Result<IntegrationEvidence, Error>>,
) -> int {
    first_index(evidence_gaps(w, r, observed), |b: bool| b)
}

/// The workspace once released: phase `Released` at `now`, collectable after
/// the project's retention, the abandonment reason and evidence recorded, the
/// lease expired (owner and generation kept), one revision later.
pub open spec fn released(
    nw: ManagedWorkspace,
    w: ManagedWorkspace,
    r: ReleaseWorkspace,
    evidence: Seq<IntegrationEvidence>,
    now: i64,
) -> bool {
    &&& nw.id == w.id
    &&& nw.project_id == w.project_id
    &&& nw.display_name == w.display_name
    &&& nw.path == w.path
    &&& nw.project == w.project
    &&& nw.checkouts == w.checkouts
    &&& nw.created_at == w.created_at
    &&& nw.phase == WorkspacePhase::Released
    &&& nw.released_at == now
    &&& (w.project matches Some(p) && nw.collect_after == now + p.retention_seconds)
    &&& nw.abandonment_reason == r.abandonment_reason
    &&& crate::copy::same_evidences(nw.integration@, evidence)
    &&& (w.lease matches Some(l) && nw.lease == Some(WorkspaceLease { expires_at: 0, ..l }))
    &&& nw.revision == w.revision + 1
}

/// The evidence a successful integration release records: one per checkout.
pub open spec fn established(observed: Seq<Result<IntegrationEvidence, Error>>) -> Seq<IntegrationEvidence> {
    observed.map_values(|o: Result<IntegrationEvidence, Error>| o->Ok_0)
}

/// Checks a release request against the journal, before any integration
/// evidence is gathered: every refusal of `release_gate` in its order.
/// Returns the workspace's position when the release may proceed.
pub fn release_check(s: &WorkspaceSnapshot, r: &ReleaseWorkspace, now: i64) -> (res: Result<usize, Error>)
    ensures
        match release_gate(*s, *r, now) {
            Some(e) => res == Err::<usize, Error>(e),
            None => res matches Ok(k) && k as int == ws_index(*s, r.workspace_id@),
        },
{
    let k = match workspace_position(s, r.workspace_id.as_str()) {
        Ok(k) => k,
        Err(e) => return Err(e),
    };
    if s.workspaces[k].revision != r.expected_revision {
        return Err(Error::WorkspaceRevisionChanged);
    }
    if s.workspaces[k].phase != WorkspacePhase::Active {
        return Err(Error::NotActive);
    }
    let live = match &s.workspaces[k].lease {
        None => return Err(Error::NoOwner),
        Some(x) => x.owner == r.owner && x.generation == r.generation && x.expires_at > now,
    };
    if !live {
        return Err(Error::OwnerRequired);
    }
    let integrating = is_blank(r.abandonment_reason.as_str());
    if !(integrating || r.integrated_into.len() == 0) {
        return Err(Error::IntegrationOrAbandonment);
    }
    if integrating {
        let ids = ids_of(&r.integrated_into);
        if unique(&ids).is_err() {
            return Err(Error::DuplicateRepositoryIds);
        }
        if r.integrated_into.len() != s.workspaces[k].checkouts.len() {
            return Err(Error::TargetsRequired);
        }
    }
    Ok(k)
}

/// Releases an actively leased workspace. Only the live owner at the current
/// fencing generation may release, and only with explicit abandonment (a
/// non-blank reason) or an integration target for every checkout.
/// `observed[j]` is what the caller established for checkout `j`: the
/// checkout's head and the target's commit, once Git confirmed the head is an
/// ancestor of the target, or why not. Evidence is consulted in checkout order
/// and only when integrating. The release records the evidence, keeps the lease
/// (expired) and schedules collection after the project's retention.
pub fn release(
    s: &mut WorkspaceSnapshot,
    r: &ReleaseWorkspace,
    now: i64,
    observed: &Vec<Result<IntegrationEvidence, Error>>,
) -> (res: Result<(), Error>)
    requires
        ws_index(*old(s), r.workspace_id@) >= 0 && blank(r.abandonment_reason@) ==> observed@.len()
            == old(s).workspaces@[ws_index(*old(s), r.workspace_id@)].checkouts@.len(),
        release_gate(*old(s), *r, now) is None ==> ({
            let w = old(s).workspaces@[ws_index(*old(s), r.workspace_id@)];
            &&& w.revision < u64::MAX
            &&& (w.project matches Some(p) ==> (p.retention_seconds <= i64::MAX ==> now
                + p.retention_seconds <= i64::MAX))
        }),
    ensures
        evolves(*old(s), *final(s)),
        ({
            let k = ws_index(*old(s), r.workspace_id@);
            let w = old(s).workspaces@[k];
            let integrating = blank(r.abandonment_reason@);
            let gap = first_gap(w, *r, observed@);
            let partial = ManagedWorkspace { phase: WorkspacePhase::Released, released_at: now, ..w };
            match release_gate(*old(s), *r, now) {
                Some(e) => res == Err::<(), Error>(e) && *final(s) == *old(s),
                None => if integrating && gap >= 0 {
                    &&& *final(s) == *old(s)
                    &&& if target_index(*r, w.checkouts@[gap].repository_id@) < 0 {
                        res == Err::<(), Error>(Error::MissingTarget)
                    } else {
                        res == Err::<(), Error>(observed@[gap]->Err_0)
                    }
                } else if w.project is None {
                    &&& res == Err::<(), Error>(Error::MissingProject)
                    &&& final(s).workspaces@ == old(s).workspaces@.update(k, partial)
                    &&& same_but_workspaces(*final(s), *old(s))
                } else if w.project->0.retention_seconds > i64::MAX {
                    &&& res == Err::<(), Error>(Error::ConversionOverflow)
                    &&& final(s).workspaces@ == old(s).workspaces@.update(k, partial)
                    &&& same_but_workspaces(*final(s), *old(s))
                } else {
                    &&& res is Ok
                    &&& final(s).workspaces@ == old(s).workspaces@.update(k, final(s).workspaces@[k])
                    &&& released(
                        final(s).workspaces@[k],
                        w,
                        *r,
                        if integrating { established(observed@) } else { seq![] },
                        now,
                    )
                    &&& same_but_workspaces(*final(s), *old(s))
                },
            }
        }),
{
    let k = match release_check(s, r, now) {
        Err(e) => return Err(e),
        Ok(k) => k,
    };
    let integrating = is_blank(r.abandonment_reason.as_str());
    let mut evidence: Vec<IntegrationEvidence> = Vec::new();
    if integrating {
        let n = s.workspaces[k].checkouts.len();
        let ghost w = old(s).workspaces@[k as int];
        let ghost gaps = evidence_gaps(w, *r, observed@);
        let mut j: usize = 0;
        while j < n
            invariant
                *s == *old(s),
                release_gate(*old(s), *r, now) is None,
                blank(r.abandonment_reason@),
                k as int == ws_index(*old(s), r.workspace_id@),
                k < s.workspaces@.len(),
                w == s.workspaces@[k as int],
                n == w.checkouts@.len(),
                observed@.len() == n,
                gaps == evidence_gaps(w, *r, observed@),
                j <= n,
                forall|q: int| 0 <= q < j ==> !(#[trigger] gaps[q]),
                evidence@.len() == j,
                crate::copy::same_evidences(evidence@, established(observed@).subrange(0, j as int)),
            decreases n - j,
        {
            let found = find_input(&r.integrated_into, s.workspaces[k].checkouts[j].repository_id.as_str());
            if found.is_none() {
                proof {
                    assert(gaps[j as int]);
                    assert(is_first(gaps, |b: bool| b, j as int));
                    lemma_first_index_found(gaps, |b: bool| b, j as int);
                }
                return Err(Error::MissingTarget);
            }
            match &observed[j] {
                Err(e) => {
                    proof {
                        assert(gaps[j as int]);
                        assert(is_first(gaps, |b: bool| b, j as int));
                        lemma_first_index_found(gaps, |b: bool| b, j as int);
                    }
                    return Err(e.duplicate());
                },
                Ok(ev) => {
                    evidence.push(crate::copy::copy_evidence(ev));
                },
            }
            proof {
                assert(!gaps[j as int]);
            }
            j = j + 1;
        }
        proof {
            lemma_first_index_none(gaps, |b: bool| b);
            assert(established(observed@).subrange(0, n as int) =~= established(observed@));
        }
    }
    let ghost before = s.workspaces@[k as int];
    s.workspaces[k].phase = WorkspacePhase::Released;
    s.workspaces[k].released_at = now;
    let retention = match &s.workspaces[k].project {
        None => return Err(Error::MissingProject),
        Some(p) => p.retention_seconds,
    };
    if retention > i64::MAX as u64 {
        return Err(Error::ConversionOverflow);
    }
    s.workspaces[k].collect_after = now + retention as i64;
    s.workspaces[k].abandonment_reason = r.abandonment_reason.clone();
    s.workspaces[k].integration = evidence;
    let expired = match &s.workspaces[k].lease {
        Some(x) => WorkspaceLease { owner: x.owner.clone(), generation: x.generation, expires_at: 0 },
        None => return Err(Error::MissingLease),
    };
    s.workspaces[k].lease = Some(expired);
    s.workspaces[k].revision = s.workspaces[k].revision + 1;
    Ok(())
}

} // verus!
