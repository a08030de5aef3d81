//! Properties of the library as a whole: what holds across operations.
use vstd::prelude::*;
use crate::copy::{same_opt_command, same_operation, same_command, same_input, same_inputs};
use crate::error::Error;
use crate::journal::{admitted, recorded, op_index, op_named, Start};
use crate::model::{Action, OperationPhase, RepositoryInput, WorkspaceCommand, WorkspaceOperation, WorkspaceSnapshot};
use crate::seqs::{is_first, first_index, lemma_first_index_found, lemma_first_index_meaning};
use crate::inspect::{
    CheckoutObservation, WorkspaceObservation, checkout_reasons, checkouts_reasons, content_reasons,
    covers, has_evidence, inspection_of, retention_reasons, workspace_reasons,
};
use crate::model::{ManagedWorkspace, WorkspaceInspection, WorkspacePhase};
use crate::text::{blank, valid_token};
use crate::catalog::{allowed_move, evolves, moves_forward, phase_rank, ws_index, ws_named};
use crate::lease::{current_lease, renewing, lease_refusal, leased, release_gate, MAX_TTL};
use crate::model::{LeaseWorkspace, ReleaseWorkspace};
use crate::path::{components, has_root, join, parts, starts_with, is_parent, lemma_join_token};
use crate::store::Store;
use crate::register::{identity_taken, RegisterPlan};
use crate::model::Repository;
use crate::catalog::repo_id_index;
use crate::text::eq_ignore_ascii_case;
use crate::ident::{namespace_parts, not_token};
use crate::path::{lemma_join_relative, lemma_token_names, lemma_token_list_parts};
use crate::provision::checkout_path;
use crate::register::{admission, clone_path, identity_valid, registration_started};
use crate::applying::{apply_inv, apply_transition, ApplyAction, ApplyEvent, ApplyStage, ApplyState};
use crate::collecting::{collect_inv, collect_post, pending, CollectAction, CollectEvent, CollectStage, CollectState};
use crate::provisioning::{provision_inv, provision_post, ProvisionAction, ProvisionEvent, ProvisionStage, ProvisionState};
use crate::registering::{register_inv, register_post, RegisterAction, RegisterEvent, RegisterStage, RegisterState};
use crate::model::{CollectWorkspace, ProvisionWorkspace, RegisterRepository};
use crate::git::{lines, worktree_line};
use crate::cli::{describes, number};
use crate::inspect::listed;
use crate::seqs::views;

verus! {

/// After a command was admitted at position `i` and its attempt recorded,
/// that operation is the first one under the command's request ID and still
/// carries the command.
proof fn lemma_recorded_position(
    s0: WorkspaceSnapshot,
    command: WorkspaceCommand,
    s1: WorkspaceSnapshot,
    i: usize,
    sr: WorkspaceSnapshot,
    outcome: Result<(), Error>,
    s2: WorkspaceSnapshot,
    op: WorkspaceOperation,
)
    requires
        s0.operations@.len() < usize::MAX,
        admitted(s0, command, s1, Ok(Start::Run(i))),
        i < s1.operations@.len(),
        sr.operations == s1.operations,
        recorded(sr, i as int, outcome, s2, op),
    ensures
        op_index(s2, command.request_id@) == i,
        same_opt_command(s2.operations@[i as int].command, Some(command)),
{
    let named = op_named(command.request_id@);
    let k0 = op_index(s0, command.request_id@);
    lemma_first_index_meaning(s0.operations@, named);
    if k0 >= 0 {
        assert(is_first(s0.operations@, named, k0));
        assert(k0 == i);
        assert(is_first(s1.operations@, named, i as int)) by {
            assert forall|j: int| 0 <= j < i implies !named(#[trigger] s1.operations@[j]) by {
                assert(s1.operations@[j] == s0.operations@[j]);
            }
        }
    } else {
        assert(i == s0.operations@.len());
        assert(is_first(s1.operations@, named, i as int)) by {
            assert forall|j: int| 0 <= j < i implies !named(#[trigger] s1.operations@[j]) by {
                assert(s1.operations@[j] == s1.operations@.subrange(0, s0.operations@.len() as int)[j]);
                assert(!named(s0.operations@[j]));
            }
            assert(s1.operations@.last() == s1.operations@[i as int]);
        }
    }
    assert(is_first(s2.operations@, named, i as int)) by {
        assert forall|j: int| 0 <= j < i implies !named(#[trigger] s2.operations@[j]) by {
            assert(s2.operations@[j] == s1.operations@[j]);
        }
    }
    lemma_first_index_found(s2.operations@, named, i as int);
    if k0 >= 0 {
        assert(same_opt_command(s1.operations@[i as int].command, Some(command)));
    } else {
        assert(s1.operations@.last() == s1.operations@[i as int]);
    }
}

proof fn lemma_same_inputs_agree(a: Seq<RepositoryInput>, b: Seq<RepositoryInput>, c: Seq<RepositoryInput>)
    requires
        same_inputs(a, b),
    ensures
        same_inputs(a, c) == same_inputs(b, c),
{
    if same_inputs(a, c) {
        assert forall|i: int| 0 <= i < b.len() implies #[trigger] same_input(b[i], c[i]) by {
            assert(same_input(a[i], b[i]));
            assert(same_input(a[i], c[i]));
        }
    }
    if same_inputs(b, c) {
        assert forall|i: int| 0 <= i < a.len() implies #[trigger] same_input(a[i], c[i]) by {
            assert(same_input(a[i], b[i]));
            assert(same_input(b[i], c[i]));
        }
    }
}

/// Commands equal field by field agree on every third command.
proof fn lemma_same_command_agree(a: WorkspaceCommand, b: WorkspaceCommand, c: WorkspaceCommand)
    requires
        same_command(a, b),
    ensures
        same_command(a, c) == same_command(b, c),
{
    match (a.action, b.action, c.action) {
        (Some(Action::Provision(x)), Some(Action::Provision(y)), Some(Action::Provision(z))) => {
            lemma_same_inputs_agree(x.inputs@, y.inputs@, z.inputs@);
        },
        (Some(Action::Release(x)), Some(Action::Release(y)), Some(Action::Release(z))) => {
            lemma_same_inputs_agree(x.integrated_into@, y.integrated_into@, z.integrated_into@);
        },
        _ => {},
    }
}

/// Identical completed retries return the recorded result: once a command
/// has been admitted and its attempt recorded as succeeded, admitting the
/// identical command again replays the recorded operation and leaves the
/// journal unchanged.
pub proof fn law_completed_retry_replays(
    s0: WorkspaceSnapshot,
    command: WorkspaceCommand,
    s1: WorkspaceSnapshot,
    i: usize,
    s2: WorkspaceSnapshot,
    op: WorkspaceOperation,
    t: WorkspaceSnapshot,
    r: Result<Start, Error>,
)
    requires
        s0.operations@.len() < usize::MAX,
        admitted(s0, command, s1, Ok(Start::Run(i))),
        i < s1.operations@.len(),
        recorded(s1, i as int, Ok(()), s2, op),
        admitted(s2, command, t, r),
    ensures
        op_index(s2, command.request_id@) == i,
        r matches Ok(Start::Replay(p)) && same_operation(p, s2.operations@[i as int]),
        t == s2,
{
    lemma_recorded_position(s0, command, s1, i, s1, Ok(()), s2, op);
}

/// Changed payloads under the same ID are rejected, and blocked operations
/// resume: once a command has been admitted and its attempt recorded,
/// admitting another payload under the same request ID is refused and leaves
/// the journal unchanged, while admitting the identical payload after a
/// blocked attempt runs the same operation again without adding one.
pub proof fn law_retry_after_attempt(
    s0: WorkspaceSnapshot,
    command: WorkspaceCommand,
    s1: WorkspaceSnapshot,
    i: usize,
    outcome: Result<(), Error>,
    s2: WorkspaceSnapshot,
    op: WorkspaceOperation,
    retry: WorkspaceCommand,
    t: WorkspaceSnapshot,
    r: Result<Start, Error>,
)
    requires
        s0.operations@.len() < usize::MAX,
        admitted(s0, command, s1, Ok(Start::Run(i))),
        i < s1.operations@.len(),
        recorded(s1, i as int, outcome, s2, op),
        retry.request_id@ == command.request_id@,
        admitted(s2, retry, t, r),
    ensures
        !same_command(command, retry) ==> r == Err::<Start, Error>(Error::RequestReused) && t == s2,
        same_command(command, retry) && outcome is Err ==> {
            &&& r == Ok::<Start, Error>(Start::Run(i))
            &&& t.operations@.len() == s2.operations@.len()
            &&& t.operations@[i as int].phase == OperationPhase::Running
            &&& same_opt_command(t.operations@[i as int].command, Some(command))
        },
        same_command(command, retry) && outcome is Ok ==> (r matches Ok(Start::Replay(p)) && same_operation(
            p,
            s2.operations@[i as int],
        ) && t == s2),
{
    lemma_recorded_position(s0, command, s1, i, s1, outcome, s2, op);
    let c = s2.operations@[i as int].command->Some_0;
    lemma_same_command_agree(c, command, retry);
    assert(op_index(s2, retry.request_id@) == i);
}

/// A checkout keeps a workspace from collection unless it is removed, was
/// fully observed, holds no uncommitted, untracked or ignored content, and
/// (without abandonment) its head carries integration evidence.
pub open spec fn checkout_clear(w: ManagedWorkspace, j: int, o: CheckoutObservation) -> bool {
    let c = w.checkouts@[j];
    c.removed || {
        &&& o.failure is None
        &&& !o.dirty
        &&& !o.ignored_files
        &&& (blank(w.abandonment_reason@) ==> has_evidence(w, c.repository_id@, o.head@))
    }
}

proof fn lemma_checkouts_clear(w: ManagedWorkspace, obs: Seq<CheckoutObservation>, n: nat)
    requires
        n <= w.checkouts@.len(),
    ensures
        checkouts_reasons(w, obs, n).len() == 0 <==> forall|j: int| 0 <= j < n ==> #[trigger] checkout_clear(w, j, obs[j]),
    decreases n,
{
    if n > 0 {
        lemma_checkouts_clear(w, obs, (n - 1) as nat);
        let j = n - 1;
        let c = w.checkouts@[j];
        let own = if c.removed { seq![] } else { checkout_reasons(w, c, obs[j]) };
        assert(checkouts_reasons(w, obs, n) == checkouts_reasons(w, obs, (n - 1) as nat) + own);
        assert(own.len() == 0 <==> checkout_clear(w, j, obs[j]));
        if checkouts_reasons(w, obs, n).len() == 0 {
            assert forall|q: int| 0 <= q < n implies #[trigger] checkout_clear(w, q, obs[q]) by {
                if q < j {
                    assert(checkouts_reasons(w, obs, (n - 1) as nat).len() == 0);
                }
            }
        } else if forall|q: int| 0 <= q < n ==> #[trigger] checkout_clear(w, q, obs[q]) {
            assert(checkout_clear(w, j, obs[j]));
            assert forall|q: int| 0 <= q < n - 1 implies #[trigger] checkout_clear(w, q, obs[q]) by {
                assert(checkout_clear(w, q, obs[q]));
            }
        }
    }
}

/// Collection requires explicit release, expired ownership and retention,
/// integration or abandonment evidence, clean and fully observed checkouts
/// without ignored files, no unmanaged content and no active consumers; and
/// nothing else: an inspection is collectable exactly when all of these hold.
pub proof fn law_collectable_exactly_when(w: ManagedWorkspace, now: i64, o: WorkspaceObservation)
    requires
        covers(w, o),
    ensures
        retention_reasons(w, now, o).len() == 0 <==> {
            &&& (w.phase == WorkspacePhase::Released || w.phase == WorkspacePhase::Removing)
            &&& !(w.lease matches Some(l) && l.expires_at > now)
            &&& w.collect_after <= now
            &&& (blank(w.abandonment_reason@) ==> w.integration@.len() == w.checkouts@.len())
            &&& forall|j: int| 0 <= j < w.checkouts@.len() ==> #[trigger] checkout_clear(w, j, o.checkouts@[j])
            &&& (w.phase != WorkspacePhase::Removed ==> o.extra_content is Ok && o.idle is Ok)
        },
{
    lemma_checkouts_clear(w, o.checkouts@, w.checkouts@.len());
    let a = workspace_reasons(w, now);
    let b = checkouts_reasons(w, o.checkouts@, w.checkouts@.len());
    let c = content_reasons(w, o);
    assert(retention_reasons(w, now, o) == a + b + c);
    assert((a + b + c).len() == a.len() + b.len() + c.len());
}

/// Fencing: a lease request that names a generation other than the current
/// one, or competes with another owner's live lease, is refused; a request
/// that passes every other check is granted.
pub proof fn law_lease_fencing(s: WorkspaceSnapshot, l: LeaseWorkspace, now: i64)
    requires
        1 <= l.ttl_seconds <= MAX_TTL,
        ws_index(s, l.workspace_id@) >= 0,
        s.workspaces@[ws_index(s, l.workspace_id@)].revision == l.expected_revision,
        s.workspaces@[ws_index(s, l.workspace_id@)].phase == WorkspacePhase::Ready
            || s.workspaces@[ws_index(s, l.workspace_id@)].phase == WorkspacePhase::Active,
    ensures
        ({
            let w = s.workspaces@[ws_index(s, l.workspace_id@)];
            let (owner, generation, expires) = current_lease(w);
            &&& generation != l.generation ==> lease_refusal(s, l, now) == Some(Error::StaleGeneration)
            &&& generation == l.generation && owner != l.owner@ && expires > now ==> lease_refusal(s, l, now)
                == Some(Error::LiveOwner)
            &&& generation == l.generation && (owner == l.owner@ || expires <= now) && (renewing(w, l, now)
                || generation < u64::MAX) ==> lease_refusal(s, l, now) is None
        }),
{
}

/// Expiry never releases: an expired lease may be taken over by another
/// owner at the current revision and generation; the generation advances and
/// the workspace stays active, not released.
pub proof fn law_expired_lease_takeover(s: WorkspaceSnapshot, l: LeaseWorkspace, now: i64)
    requires
        1 <= l.ttl_seconds <= MAX_TTL,
        ws_index(s, l.workspace_id@) >= 0,
        ({
            let w = s.workspaces@[ws_index(s, l.workspace_id@)];
            &&& w.revision == l.expected_revision
            &&& (w.phase == WorkspacePhase::Ready || w.phase == WorkspacePhase::Active)
            &&& current_lease(w).1 == l.generation
            &&& current_lease(w).1 < u64::MAX
            &&& current_lease(w).2 <= now
        }),
    ensures
        lease_refusal(s, l, now) is None,
        ({
            let w = s.workspaces@[ws_index(s, l.workspace_id@)];
            let n = leased(w, l, now);
            &&& n.lease matches Some(x) && x.generation == l.generation + 1 && x.owner == l.owner
            &&& n.phase == WorkspacePhase::Active
        }),
{
}

/// What a lease grants, a release accepts: after the lease is granted, the
/// same owner may release at the granted generation and the next revision
/// until the lease expires (here by explicit abandonment).
pub proof fn law_lease_then_release(
    s: WorkspaceSnapshot,
    l: LeaseWorkspace,
    now: i64,
    s2: WorkspaceSnapshot,
    r: ReleaseWorkspace,
    later: i64,
)
    requires
        valid_token(l.owner@),
        lease_refusal(s, l, now) is None,
        s2.workspaces@ == s.workspaces@.update(
            ws_index(s, l.workspace_id@),
            leased(s.workspaces@[ws_index(s, l.workspace_id@)], l, now),
        ),
        now + l.ttl_seconds <= i64::MAX,
        r.workspace_id@ == l.workspace_id@,
        r.owner@ == l.owner@,
        r.generation == leased(s.workspaces@[ws_index(s, l.workspace_id@)], l, now).lease->0.generation,
        r.expected_revision == s.workspaces@[ws_index(s, l.workspace_id@)].revision + 1,
        later < now + l.ttl_seconds,
        !blank(r.abandonment_reason@),
        r.integrated_into@.len() == 0,
    ensures
        release_gate(s2, r, later) is None,
{
    let k = ws_index(s, l.workspace_id@);
    let named = ws_named(l.workspace_id@);
    lemma_first_index_meaning(s.workspaces@, named);
    assert(is_first(s2.workspaces@, named, k)) by {
        assert forall|j: int| 0 <= j < k implies !named(#[trigger] s2.workspaces@[j]) by {
            assert(s2.workspaces@[j] == s.workspaces@[j]);
        }
    }
    lemma_first_index_found(s2.workspaces@, named, k);
    assert(ws_index(s2, r.workspace_id@) == k);
}

/// Path escapes are blocked: the directory of a workspace whose ID is a
/// token lies under `<root>/workspaces`, one component below it, and adds no
/// `..` to a root that has none.
pub proof fn law_workspace_dir_stays_inside(store: Store, id: Seq<char>)
    requires
        has_root(store.root@),
        valid_token(id),
    ensures
        ({
            let area = join(store.root@, "workspaces"@);
            let dir = join(area, id);
            &&& components(dir) == components(store.root@).push("workspaces"@).push(id)
            &&& starts_with(dir, area)
            &&& starts_with(dir, store.root@)
            &&& (first_index(parts(store.root@), is_parent()) == -1 ==> first_index(parts(dir), is_parent()) == -1)
        }),
{
    reveal_strlit("workspaces");
    let root = store.root@;
    assert(valid_token("workspaces"@));
    lemma_join_token(root, "workspaces"@);
    let area = join(root, "workspaces"@);
    assert(has_root(area)) by {
        assert(components(area)[0] == components(root)[0]);
        if !has_root(area) {
            crate::path::lemma_parts_unmarked(area);
        }
    }
    lemma_join_token(area, id);
    let dir = join(area, id);
    assert(components(dir).subrange(0, components(area).len() as int) =~= components(area));
    assert(components(dir).subrange(0, components(root).len() as int) =~= components(root));
    lemma_first_index_meaning(parts(root), is_parent());
    lemma_first_index_meaning(parts(dir), is_parent());
    if first_index(parts(root), is_parent()) == -1 {
        assert(parts(dir) == parts(root).push("workspaces"@).push(id));
        assert(id != seq!['.', '.']) by {
            assert(crate::text::is_alnum(id[0]));
        }
        assert("workspaces"@ != seq!['.', '.']);
        assert forall|j: int| 0 <= j < parts(dir).len() implies !is_parent()(#[trigger] parts(dir)[j]) by {
            if j < parts(root).len() {
                assert(parts(dir)[j] == parts(root)[j]);
            }
        }
    }
}

/// Two registrations claim the same identity.
pub open spec fn same_identity(a: Repository, b: Repository) -> bool {
    eq_ignore_ascii_case(a.host@, b.host@) && a.namespace@ == b.namespace@ && a.name@ == b.name@
}

/// No two registrations share an ID or an identity.
pub open spec fn catalog_distinct(s: WorkspaceSnapshot) -> bool {
    forall|i: int, j: int|
        0 <= i < j < s.repositories@.len() ==> (#[trigger] s.repositories@[i]).id@ != (#[trigger] s.repositories@[j]).id@
            && !same_identity(s.repositories@[i], s.repositories@[j])
}

/// Registration keeps the catalog free of duplicate IDs and identities: a
/// new clone is reserved only when neither its ID nor its identity (host up
/// to ASCII case, namespace, name) is registered yet.
pub proof fn law_registration_keeps_identities_distinct(s: WorkspaceSnapshot, plan: RegisterPlan, s2: WorkspaceSnapshot)
    requires
        catalog_distinct(s),
        repo_id_index(s, plan.repository.id@) < 0,
        !identity_taken(s, plan.repository),
        s2.repositories@ == s.repositories@.push(Repository { ready: false, ..plan.repository }),
    ensures
        catalog_distinct(s2),
{
    let r = plan.repository;
    lemma_first_index_meaning(s.repositories@, crate::catalog::repo_id_named(r.id@));
    let n = s.repositories@.len();
    assert forall|i: int, j: int| 0 <= i < j < s2.repositories@.len() implies (#[trigger] s2.repositories@[i]).id@
        != (#[trigger] s2.repositories@[j]).id@ && !same_identity(s2.repositories@[i], s2.repositories@[j]) by {
        if j < n {
            assert(s2.repositories@[i] == s.repositories@[i]);
            assert(s2.repositories@[j] == s.repositories@[j]);
        } else {
            assert(s2.repositories@[i] == s.repositories@[i]);
            assert(!crate::catalog::repo_id_named(r.id@)(s.repositories@[i]));
            if same_identity(s2.repositories@[i], s2.repositories@[j]) {
                assert(eq_ignore_ascii_case(s.repositories@[i].host@, r.host@));
            }
        }
    }
}

/// Where a repository sits below a directory: `<first>/<host>/<namespace
/// parts>/<name>`.
pub open spec fn repository_below(first: Seq<char>, r: Repository) -> Seq<Seq<char>> {
    seq![first, r.host@] + namespace_parts(r.namespace@) + seq![r.name@]
}

proof fn lemma_repository_path(base: Seq<char>, first: Seq<char>, r: Repository)
    requires
        has_root(base),
        valid_token(first),
        identity_valid(r),
    ensures
        ({
            let dest = join(join(join(join(base, first), r.host@), r.namespace@), r.name@);
            &&& components(dest) == components(base) + repository_below(first, r)
            &&& parts(dest) == parts(base) + repository_below(first, r)
            &&& forall|i: int| 0 <= i < repository_below(first, r).len() ==> valid_token(
                #[trigger] repository_below(first, r)[i],
            )
        }),
{
    let ns = r.namespace@;
    let ps = namespace_parts(ns);
    lemma_first_index_meaning(ps, not_token());
    assert forall|i: int| 0 <= i < ps.len() implies valid_token(#[trigger] ps[i]) by {
        assert(!not_token()(ps[i]));
    }
    lemma_token_list_parts(ns);
    lemma_token_names(first);
    lemma_token_names(r.host@);
    lemma_token_names(r.name@);
    let j1 = join(base, first);
    lemma_join_token(base, first);
    lemma_join_relative(base, first);
    let j2 = join(j1, r.host@);
    lemma_join_token(j1, r.host@);
    lemma_join_relative(j1, r.host@);
    let j3 = join(j2, ns);
    lemma_join_relative(j2, ns);
    let j4 = join(j3, r.name@);
    lemma_join_token(j3, r.name@);
    let below = repository_below(first, r);
    assert(components(j4) =~= components(base) + below);
    assert(parts(j4) =~= parts(base) + below);
    assert forall|i: int| 0 <= i < below.len() implies valid_token(#[trigger] below[i]) by {
        if 2 <= i < 2 + ps.len() {
            assert(below[i] == ps[i - 2]);
        }
    }
}

proof fn lemma_no_parent_below(base: Seq<char>, below: Seq<Seq<char>>, dest: Seq<char>)
    requires
        parts(dest) == parts(base) + below,
        forall|i: int| 0 <= i < below.len() ==> valid_token(#[trigger] below[i]),
        first_index(parts(base), is_parent()) == -1,
    ensures
        first_index(parts(dest), is_parent()) == -1,
{
    lemma_first_index_meaning(parts(base), is_parent());
    assert forall|j: int| 0 <= j < parts(dest).len() implies !is_parent()(#[trigger] parts(dest)[j]) by {
        if j < parts(base).len() {
            assert(parts(dest)[j] == parts(base)[j]);
        } else {
            assert(parts(dest)[j] == below[j - parts(base).len()]);
            lemma_token_names(below[j - parts(base).len()]);
        }
    }
    crate::seqs::lemma_first_index_none(parts(dest), is_parent());
}

/// Path escapes are blocked for checkouts: the checkout of a repository with
/// a valid identity lies under its workspace directory, exactly at
/// `src/<host>/<namespace parts>/<name>` below it, and adds no `..`.
pub proof fn law_checkout_stays_inside(dir: Seq<char>, r: Repository)
    requires
        has_root(dir),
        identity_valid(r),
    ensures
        components(checkout_path(dir, r)) == components(dir) + repository_below("src"@, r),
        starts_with(checkout_path(dir, r), dir),
        first_index(parts(dir), is_parent()) == -1 ==> first_index(parts(checkout_path(dir, r)), is_parent()) == -1,
{
    reveal_strlit("src");
    assert(valid_token("src"@));
    lemma_repository_path(dir, "src"@, r);
    let dest = checkout_path(dir, r);
    assert(components(dest).subrange(0, components(dir).len() as int) =~= components(dir));
    if first_index(parts(dir), is_parent()) == -1 {
        lemma_no_parent_below(dir, repository_below("src"@, r), dest);
    }
}

/// Path escapes are blocked for clones: a clone of a repository with a valid
/// identity lies under `<root>/repos`, exactly at `<host>/<namespace
/// parts>/<name>` below it, and adds no `..`.
pub proof fn law_clone_stays_inside(root: Seq<char>, r: Repository)
    requires
        has_root(root),
        identity_valid(r),
    ensures
        components(clone_path(root, r)) == components(root) + repository_below("repos"@, r),
        starts_with(clone_path(root, r), join(root, "repos"@)),
        first_index(parts(root), is_parent()) == -1 ==> first_index(parts(clone_path(root, r)), is_parent()) == -1,
{
    reveal_strlit("repos");
    assert(valid_token("repos"@));
    lemma_repository_path(root, "repos"@, r);
    lemma_join_token(root, "repos"@);
    let dest = clone_path(root, r);
    let area = join(root, "repos"@);
    assert(components(dest).subrange(0, components(area).len() as int) =~= components(area));
    if first_index(parts(root), is_parent()) == -1 {
        lemma_no_parent_below(root, repository_below("repos"@, r), dest);
    }
}

/// No two journaled operations share a request ID.
pub open spec fn request_ids_distinct(s: WorkspaceSnapshot) -> bool {
    forall|a: int, b: int|
        0 <= a < b < s.operations@.len() ==> (#[trigger] s.operations@[a]).id@ != (#[trigger] s.operations@[b]).id@
}

/// One attempt of a request, end to end: once a command is admitted to run
/// at position `i`, the running operation is journaled at the next revision,
/// the action changes anything but the operations (its own journal writes
/// only advance the revision), and the outcome is recorded. The recorded
/// operation then carries the request's ID and command, succeeded with
/// `complete` exactly when the action succeeded and otherwise is blocked with
/// the refusal's text, and takes the journal's final revision, at least two
/// past the starting one. Every other operation is as it was, and request IDs
/// stay distinct.
pub proof fn law_apply_records_one_operation(
    s0: WorkspaceSnapshot,
    command: WorkspaceCommand,
    mid: WorkspaceSnapshot,
    i: usize,
    s3: WorkspaceSnapshot,
    outcome: Result<(), Error>,
    s4: WorkspaceSnapshot,
    op: WorkspaceOperation,
)
    requires
        s0.operations@.len() < usize::MAX,
        admitted(s0, command, mid, Ok(Start::Run(i))),
        i < mid.operations@.len(),
        s3.operations == mid.operations,
        s3.revision >= mid.revision + 1,
        recorded(s3, i as int, outcome, s4, op),
    ensures
        op.id@ == command.request_id@,
        same_opt_command(op.command, Some(command)),
        outcome is Ok ==> op.phase == OperationPhase::Succeeded && op.detail@ == "complete"@,
        outcome matches Err(e) ==> op.phase == OperationPhase::Blocked && op.detail@ == crate::error::message_of(e),
        op.revision == s4.revision,
        s4.revision >= s0.revision + 2,
        s4.operations@.len() == s0.operations@.len() || s4.operations@.len() == s0.operations@.len() + 1,
        forall|j: int| 0 <= j < s0.operations@.len() && j != i ==> s4.operations@[j] == s0.operations@[j],
        request_ids_distinct(s0) ==> request_ids_distinct(s4),
{
    lemma_recorded_position(s0, command, mid, i, s3, outcome, s4, op);
    let x = s4.operations@[i as int].command->Some_0;
    let y = op.command->Some_0;
    lemma_same_command_agree(y, x, command);
    let named = op_named(command.request_id@);
    let k0 = op_index(s0, command.request_id@);
    lemma_first_index_meaning(s0.operations@, named);
    assert(s4.operations@[i as int].id == s3.operations@[i as int].id);
    if k0 >= 0 {
        assert(mid.operations@[i as int].id == s0.operations@[i as int].id);
    } else {
        assert(mid.operations@.last() == mid.operations@[i as int]);
    }
    assert forall|j: int| 0 <= j < s0.operations@.len() && j != i implies s4.operations@[j] == s0.operations@[j] by {
        if k0 < 0 {
            assert(mid.operations@[j] == mid.operations@.subrange(0, s0.operations@.len() as int)[j]);
        }
    }
    if request_ids_distinct(s0) {
        assert forall|a: int, b: int| 0 <= a < b < s4.operations@.len() implies (#[trigger] s4.operations@[a]).id@
            != (#[trigger] s4.operations@[b]).id@ by {
            if a != i && b != i {
                if k0 < 0 && b == s0.operations@.len() {
                } else {
                    assert(s4.operations@[a] == s0.operations@[a]);
                    assert(s4.operations@[b] == s0.operations@[b]);
                }
            } else if a == i {
                if b < s0.operations@.len() {
                    assert(s4.operations@[b] == s0.operations@[b]);
                    if k0 >= 0 {
                        assert(s0.operations@[i as int].id@ != s0.operations@[b].id@);
                    } else {
                        assert(!named(s0.operations@[b]));
                    }
                }
            } else {
                assert(s4.operations@[a] == s0.operations@[a]);
                if k0 >= 0 {
                    assert(s0.operations@[a].id@ != s0.operations@[i as int].id@);
                } else {
                    assert(!named(s0.operations@[a]));
                }
            }
        }
    }
}

/// Nothing a request does moves the journal backwards: every step of a
/// request (admission, each step of registration, provisioning and
/// collection, a lease, a release, a project update, and recording the
/// outcome) evolves the journal by at most one lifecycle move per workspace,
/// and any chain of such steps drops no record and moves no workspace's phase
/// or revision back.
pub proof fn law_evolves_composes(a: WorkspaceSnapshot, b: WorkspaceSnapshot, c: WorkspaceSnapshot)
    requires
        moves_forward(a, b),
        evolves(b, c),
    ensures
        moves_forward(a, c),
        moves_forward(a, a),
        evolves(a, b) ==> moves_forward(a, b),
{
    assert forall|k: int| 0 <= k < a.workspaces@.len() implies (#[trigger] c.workspaces@[k]).id@ == a.workspaces@[k].id@
        && phase_rank(a.workspaces@[k].phase) <= phase_rank(c.workspaces@[k].phase) && c.workspaces@[k].revision
        >= a.workspaces@[k].revision by {
        assert(b.workspaces@[k].id@ == a.workspaces@[k].id@);
        assert(allowed_move(b.workspaces@[k].phase, c.workspaces@[k].phase));
    }
    if evolves(a, b) {
        assert forall|k: int| 0 <= k < a.workspaces@.len() implies (#[trigger] b.workspaces@[k]).id@ == a.workspaces@[k].id@
            && phase_rank(a.workspaces@[k].phase) <= phase_rank(b.workspaces@[k].phase) && b.workspaces@[k].revision
            >= a.workspaces@[k].revision by {
            assert(allowed_move(a.workspaces@[k].phase, b.workspaces@[k].phase));
        }
    }
}

/// A checkout that could not be fully observed (missing, moved to another
/// branch or repository, unregistered, locked, or a Git call failing) keeps
/// its workspace, and the reasons name it: its repository ID, `: ` and the
/// failure's text.
pub proof fn law_failed_checkout_is_retained(w: ManagedWorkspace, now: i64, o: WorkspaceObservation, i: WorkspaceInspection, j: int)
    requires
        inspection_of(i, w, now, o),
        covers(w, o),
        0 <= j < w.checkouts@.len(),
        !w.checkouts@[j].removed,
        o.checkouts@[j].failure is Some,
    ensures
        !i.collectable,
        crate::seqs::views(i.retention_reasons@).contains(
            w.checkouts@[j].repository_id@ + ": "@ + crate::error::message_of(o.checkouts@[j].failure->Some_0),
        ),
{
    let x = w.checkouts@[j].repository_id@ + ": "@ + crate::error::message_of(o.checkouts@[j].failure->Some_0);
    assert(checkout_reasons(w, w.checkouts@[j], o.checkouts@[j])[0] == x);
    lemma_checkout_reason_listed(w, o.checkouts@, w.checkouts@.len(), j, x);
    let h = workspace_reasons(w, now);
    let m = checkouts_reasons(w, o.checkouts@, w.checkouts@.len());
    let r = retention_reasons(w, now, o);
    let q = choose|q: int| 0 <= q < m.len() && m[q] == x;
    assert(r[h.len() + q] == x);
}

/// Content outside the checkouts that needs keeping, or processes using the
/// workspace (or a process check that was inconclusive), keep a workspace
/// that is not yet removed.
pub proof fn law_content_or_consumers_retain(w: ManagedWorkspace, now: i64, o: WorkspaceObservation, i: WorkspaceInspection)
    requires
        inspection_of(i, w, now, o),
        w.phase != WorkspacePhase::Removed,
        o.extra_content is Err || o.idle is Err,
    ensures
        !i.collectable,
{
    assert(content_reasons(w, o).len() > 0);
}

/// A request's action runs only once the journal marking its operation
/// running was written, and it is the command's own action.
pub proof fn law_action_runs_after_running_is_journaled(
    s0: WorkspaceSnapshot,
    s: WorkspaceSnapshot,
    st0: ApplyState,
    st: ApplyState,
    command: WorkspaceCommand,
    ev: ApplyEvent,
    a: ApplyAction,
)
    requires
        apply_inv(s0, st0, command),
        apply_transition(s0, s, st0, st, command, ev, a),
        a is Execute,
    ensures
        st0.stage == ApplyStage::Running,
        ev is Saved,
        s == s0,
        s0.operations@[st0.index as int].phase == OperationPhase::Running,
        same_opt_command(s0.operations@[st0.index as int].command, Some(command)),
        a matches ApplyAction::Execute(x) && command.action matches Some(y) && crate::copy::same_action(x, y),
{
}

/// A request that ran is answered with the operation as the journal records
/// it: its phase follows the action's outcome (succeeded on success, blocked
/// otherwise) and its detail is `complete` or the refusal's message; nothing
/// more is written.
pub proof fn law_answer_is_the_journaled_outcome(
    s0: WorkspaceSnapshot,
    s: WorkspaceSnapshot,
    st0: ApplyState,
    st: ApplyState,
    command: WorkspaceCommand,
    ev: ApplyEvent,
    a: ApplyAction,
    sp: WorkspaceSnapshot,
    sp_st: ApplyState,
    outcome: Result<(), Error>,
)
    requires
        apply_inv(sp, sp_st, command),
        apply_transition(sp, s0, sp_st, st0, command, ApplyEvent::Executed(outcome), ApplyAction::SaveJournal),
        apply_transition(s0, s, st0, st, command, ev, a),
        ev is Saved,
    ensures
        s == s0,
        ({
            let o = s.operations@[st0.index as int];
            a matches ApplyAction::Reply(Ok(op)) && op.id@ == o.id@ && op.phase == o.phase && op.detail@ == o.detail@
                && op.revision == o.revision
        }),
        s.operations@[st0.index as int].phase == (if outcome is Ok {
            OperationPhase::Succeeded
        } else {
            OperationPhase::Blocked
        }),
        s.operations@[st0.index as int].detail@ == crate::journal::outcome_detail(outcome),
        s.operations@[st0.index as int].revision == s.revision,
{
}

/// Provisioning resolves a base only while planning a new workspace, never
/// once its plan is journaled, and the revision resolved is the input's own.
pub proof fn law_base_resolved_while_planning(
    s0: WorkspaceSnapshot,
    s: WorkspaceSnapshot,
    st0: ProvisionState,
    st: ProvisionState,
    p: ProvisionWorkspace,
    ev: ProvisionEvent,
    a: ProvisionAction,
)
    requires
        provision_inv(s0, st0, p),
        provision_post(s0, s, st0, st, p, ev, a),
        a is ResolveBase,
    ensures
        st.stage == ProvisionStage::Base,
        !st.journaled,
        !st.resuming,
        st.next < p.inputs@.len(),
        a matches ProvisionAction::ResolveBase { revision, .. } && revision == p.inputs@[st.next as int].base_revision,
{
}

/// The plan provisioning journals covers every input, in order: one
/// checkout per input that fits it (`planned_fits`: the input's ready
/// repository, placed under the workspace's `src`, on its task branch
/// `fv/<workspace>/<repository>`, nothing removed).
pub proof fn law_journaled_plan_covers_inputs(
    s0: WorkspaceSnapshot,
    s: WorkspaceSnapshot,
    st0: ProvisionState,
    st: ProvisionState,
    p: ProvisionWorkspace,
    ev: ProvisionEvent,
    a: ProvisionAction,
)
    requires
        provision_inv(s0, st0, p),
        provision_post(s0, s, st0, st, p, ev, a),
        a is SaveJournal,
    ensures
        st.stage == ProvisionStage::Save,
        !st.journaled,
        s.revision == s0.revision + 1,
        ({
            let w = s.workspaces@[st.workspace as int];
            &&& w.phase == WorkspacePhase::Provisioning
            &&& w.checkouts@.len() == p.inputs@.len()
            &&& forall|q: int|
                0 <= q < p.inputs@.len() ==> #[trigger] crate::provisioning::planned_fits(s, p, w.path@, w.checkouts@[q], q)
        }),
{
    let w = s.workspaces@[st.workspace as int];
    assert forall|q: int| 0 <= q < p.inputs@.len() implies #[trigger] crate::provisioning::planned_fits(
        s,
        p,
        w.path@,
        w.checkouts@[q],
        q,
    ) by {
        assert(crate::provisioning::planned_fits(s, p, st.path@, st.planned@[q], q));
    }
}

/// Provisioning adds a worktree only once the journal holding the
/// workspace's plan was written, and adds exactly the planned checkout: its
/// path and task branch, created at its pinned base unless the branch
/// already points there.
pub proof fn law_worktree_follows_journaled_plan(
    s0: WorkspaceSnapshot,
    s: WorkspaceSnapshot,
    st0: ProvisionState,
    st: ProvisionState,
    p: ProvisionWorkspace,
    ev: ProvisionEvent,
    a: ProvisionAction,
)
    requires
        provision_inv(s0, st0, p),
        provision_post(s0, s, st0, st, p, ev, a),
        a is AddWorktree,
    ensures
        st0.stage == ProvisionStage::Reserve,
        st0.journaled,
        s == s0,
        ({
            let c = s0.workspaces@[st0.workspace as int].checkouts@[st0.next as int];
            a matches ProvisionAction::AddWorktree { path, branch, create_from, .. } && path == c.path && branch
                == c.branch && (create_from matches Some(b) ==> b == c.base_commit)
        }),
{
}

/// Provisioning records a workspace ready only after its last checkout is in
/// place and the ready descriptor was written: the same workspace, one
/// revision later, its checkouts unchanged.
pub proof fn law_ready_after_every_checkout(
    s0: WorkspaceSnapshot,
    s: WorkspaceSnapshot,
    st0: ProvisionState,
    st: ProvisionState,
    p: ProvisionWorkspace,
    ev: ProvisionEvent,
    a: ProvisionAction,
)
    requires
        provision_inv(s0, st0, p),
        provision_post(s0, s, st0, st, p, ev, a),
        a == ProvisionAction::Finished(Ok(())),
    ensures
        st0.stage == ProvisionStage::Projection,
        ev is Done,
        s0.workspaces@[st0.workspace as int].phase == WorkspacePhase::Provisioning,
        s.workspaces@[st0.workspace as int].phase == WorkspacePhase::Ready,
        s.workspaces@[st0.workspace as int].revision == s0.workspaces@[st0.workspace as int].revision + 1,
        crate::copy::same_checkouts(
            s.workspaces@[st0.workspace as int].checkouts@,
            s0.workspaces@[st0.workspace as int].checkouts@,
        ),
{
}

/// Collection journals a workspace as removing only after an inspection
/// found nothing to retain it.
pub proof fn law_removing_follows_collectable_inspection(
    s0: WorkspaceSnapshot,
    s: WorkspaceSnapshot,
    st0: CollectState,
    st: CollectState,
    c: CollectWorkspace,
    ev: CollectEvent,
    a: CollectAction,
)
    requires
        collect_inv(s0, st0, c),
        collect_post(s0, s, st0, st, c, ev, a),
        s.workspaces@[st0.workspace as int].phase == WorkspacePhase::Removing,
        s0.workspaces@[st0.workspace as int].phase != WorkspacePhase::Removing,
    ensures
        st0.stage == CollectStage::Preview,
        ev matches CollectEvent::Observed { now, observation } && retention_reasons(
            s0.workspaces@[st0.workspace as int],
            now,
            observation,
        ).len() == 0,
        a is SaveJournal,
{
}

/// Git removes a checkout only once the journal recording that its removal
/// started was written, and only the checkout at hand.
pub proof fn law_removal_follows_journaled_intent(
    s0: WorkspaceSnapshot,
    s: WorkspaceSnapshot,
    st0: CollectState,
    st: CollectState,
    c: CollectWorkspace,
    ev: CollectEvent,
    a: CollectAction,
)
    requires
        collect_inv(s0, st0, c),
        collect_post(s0, s, st0, st, c, ev, a),
        a is RemoveWorktree,
    ensures
        st0.stage == CollectStage::StartSave,
        ev is Saved,
        s == s0,
        st0.clear,
        pending(s0.workspaces@[st0.workspace as int].checkouts@[st0.next as int]),
        s0.workspaces@[st0.workspace as int].phase == WorkspacePhase::Removing,
        a matches CollectAction::RemoveWorktree { path, .. } && path == s0.workspaces@[st0.workspace as int].checkouts@[st0.next as int].path,
{
}

/// An interrupted removal is finished by Git only for a checkout whose
/// removal was journaled, once Git still lists it.
pub proof fn law_reconcile_only_listed_pending(
    s0: WorkspaceSnapshot,
    s: WorkspaceSnapshot,
    st0: CollectState,
    st: CollectState,
    c: CollectWorkspace,
    ev: CollectEvent,
    a: CollectAction,
)
    requires
        collect_inv(s0, st0, c),
        collect_post(s0, s, st0, st, c, ev, a),
        a is ReconcileRemoval,
    ensures
        st0.stage == CollectStage::Listing,
        s == s0,
        ({
            let k = s0.workspaces@[st0.workspace as int].checkouts@[st0.next as int];
            &&& pending(k)
            &&& ev matches CollectEvent::Listing(t) && lines(t@).contains(worktree_line(k.path@))
            &&& a matches CollectAction::ReconcileRemoval { path, .. } && path == k.path
        }),
{
}

/// Collection records a workspace removed only once every checkout is
/// recorded removed and the workspace was journaled as removing.
pub proof fn law_removed_only_when_emptied(
    s0: WorkspaceSnapshot,
    s: WorkspaceSnapshot,
    st0: CollectState,
    st: CollectState,
    c: CollectWorkspace,
    ev: CollectEvent,
    a: CollectAction,
)
    requires
        collect_inv(s0, st0, c),
        collect_post(s0, s, st0, st, c, ev, a),
        a == CollectAction::Finished(Ok(())),
    ensures
        st0.stage == CollectStage::Tombstone,
        s0.workspaces@[st0.workspace as int].phase == WorkspacePhase::Removing,
        s.workspaces@[st0.workspace as int].phase == WorkspacePhase::Removed,
        forall|q: int|
            0 <= q < s0.workspaces@[st0.workspace as int].checkouts@.len() ==> (#[trigger] s0.workspaces@[st0.workspace as int].checkouts@[q]).removed,
{
}

/// Git clones a new repository only once its reservation (not ready) is in
/// a journal that was written, by this run or an interrupted one.
pub proof fn law_clone_follows_reservation(
    store: Store,
    request: RegisterRepository,
    s0: WorkspaceSnapshot,
    s: WorkspaceSnapshot,
    st0: RegisterState,
    st: RegisterState,
    ev: RegisterEvent,
    a: RegisterAction,
)
    requires
        register_inv(store, request, st0),
        register_post(store, request, s0, s, st0, st, ev, a),
        a is Clone,
    ensures
        st.reserved,
        st0.plan.cloning,
        s == s0,
        (st0.stage == RegisterStage::Reserve && ev is Saved) || (st0.stage == RegisterStage::Probe && admission(
            s0,
            st0.plan,
        ) == Ok::<bool, Error>(false)),
{
}

/// A registration is recorded ready only after the last check: for a clone,
/// that `HEAD` resolved (after the origin matched); for an adoption, that
/// Git reports the canonical location as the repository's root.
pub proof fn law_ready_registration_after_checks(
    store: Store,
    request: RegisterRepository,
    s0: WorkspaceSnapshot,
    s: WorkspaceSnapshot,
    st0: RegisterState,
    st: RegisterState,
    ev: RegisterEvent,
    a: RegisterAction,
)
    requires
        register_inv(store, request, st0),
        register_post(store, request, s0, s, st0, st, ev, a),
        a == RegisterAction::Finished(Ok(())),
    ensures
        (st0.stage == RegisterStage::Head && st0.plan.cloning) || (st0.stage == RegisterStage::Toplevel
            && !st0.plan.cloning),
        ev is Text,
        st0.stage == RegisterStage::Toplevel ==> (ev matches RegisterEvent::Text(t) && t@ == st0.canonical@),
{
}

/// A reason of checkout `j` is among the reasons the first `n` checkouts give.
proof fn lemma_checkout_reason_listed(
    w: ManagedWorkspace,
    obs: Seq<CheckoutObservation>,
    n: nat,
    j: int,
    x: Seq<char>,
)
    requires
        0 <= j < n <= w.checkouts@.len(),
        !w.checkouts@[j].removed,
        checkout_reasons(w, w.checkouts@[j], obs[j]).contains(x),
    ensures
        checkouts_reasons(w, obs, n).contains(x),
    decreases n,
{
    let prev = checkouts_reasons(w, obs, (n - 1) as nat);
    let c = w.checkouts@[n - 1];
    let tail = if c.removed { seq![] } else { checkout_reasons(w, c, obs[n - 1]) };
    assert(checkouts_reasons(w, obs, n) == prev + tail);
    if j == n - 1 {
        let q = choose|q: int| 0 <= q < tail.len() && tail[q] == x;
        assert((prev + tail)[prev.len() + q] == x);
    } else {
        lemma_checkout_reason_listed(w, obs, (n - 1) as nat, j, x);
        let q = choose|q: int| 0 <= q < prev.len() && prev[q] == x;
        assert((prev + tail)[q] == x);
    }
}

/// Integration evidence counts for a checkout only when it is for the
/// checkout's repository and exactly its current `HEAD`: without abandonment,
/// a checkout whose observed `HEAD` no evidence entry names (with its
/// repository) keeps the workspace, with the reason
/// `<repository>: current HEAD lacks integration evidence`, whatever
/// evidence there is for other commits of that repository.
pub proof fn law_evidence_must_name_the_current_head(
    w: ManagedWorkspace,
    now: i64,
    o: WorkspaceObservation,
    i: WorkspaceInspection,
    j: int,
)
    requires
        inspection_of(i, w, now, o),
        0 <= j < w.checkouts@.len(),
        !w.checkouts@[j].removed,
        o.checkouts@[j].failure is None,
        blank(w.abandonment_reason@),
        forall|e: int|
            0 <= e < w.integration@.len() ==> !((#[trigger] w.integration@[e]).repository_id@
                == w.checkouts@[j].repository_id@ && w.integration@[e].source_commit@ == o.checkouts@[j].head@),
    ensures
        !i.collectable,
        views(i.retention_reasons@).contains(w.checkouts@[j].repository_id@ + ": current HEAD lacks integration evidence"@),
{
    let c = w.checkouts@[j];
    let x = c.repository_id@ + ": current HEAD lacks integration evidence"@;
    assert(!has_evidence(w, c.repository_id@, o.checkouts@[j].head@));
    let cr = checkout_reasons(w, c, o.checkouts@[j]);
    assert(cr[cr.len() - 1] == x);
    lemma_checkout_reason_listed(w, o.checkouts@, w.checkouts@.len(), j, x);
    let a = workspace_reasons(w, now);
    let b = checkouts_reasons(w, o.checkouts@, w.checkouts@.len());
    let d = content_reasons(w, o);
    let q = choose|q: int| 0 <= q < b.len() && b[q] == x;
    assert(retention_reasons(w, now, o) == a + b + d);
    assert((a + b + d)[a.len() + q] == x);
}

/// A journaled request ID admits anything but a refusal only for the very
/// same payload: the journaled command carries the same action with every
/// field equal (for a lease: workspace, owner, revision, generation and
/// TTL). A changed payload under a journaled ID is refused as reused.
pub proof fn law_reused_id_needs_identical_payload(
    s: WorkspaceSnapshot,
    command: WorkspaceCommand,
    t: WorkspaceSnapshot,
    r: Result<Start, Error>,
)
    requires
        admitted(s, command, t, r),
        op_index(s, command.request_id@) >= 0,
        r != Err::<Start, Error>(Error::RequestReused),
    ensures
        ({
            let o = s.operations@[op_index(s, command.request_id@)];
            &&& o.command is Some
            &&& o.command->0.request_id@ == command.request_id@
            &&& match (o.command->0.action, command.action) {
                (Some(Action::Lease(x)), Some(Action::Lease(y))) => {
                    &&& x.workspace_id@ == y.workspace_id@
                    &&& x.owner@ == y.owner@
                    &&& x.expected_revision == y.expected_revision
                    &&& x.generation == y.generation
                    &&& x.ttl_seconds == y.ttl_seconds
                },
                (Some(Action::Release(x)), Some(Action::Release(y))) => {
                    &&& x.workspace_id@ == y.workspace_id@
                    &&& x.owner@ == y.owner@
                    &&& x.expected_revision == y.expected_revision
                    &&& x.generation == y.generation
                    &&& x.abandonment_reason@ == y.abandonment_reason@
                    &&& x.integrated_into@.len() == y.integrated_into@.len()
                    &&& forall|q: int|
                        0 <= q < x.integrated_into@.len() ==> (#[trigger] x.integrated_into@[q]).repository_id@
                            == y.integrated_into@[q].repository_id@ && x.integrated_into@[q].base_revision@
                            == y.integrated_into@[q].base_revision@
                },
                (Some(Action::Collect(x)), Some(Action::Collect(y))) => {
                    &&& x.workspace_id@ == y.workspace_id@
                    &&& x.expected_revision == y.expected_revision
                },
                (Some(Action::Provision(x)), Some(Action::Provision(y))) => {
                    &&& x.id@ == y.id@
                    &&& x.project_id@ == y.project_id@
                    &&& x.display_name@ == y.display_name@
                    &&& x.inputs@.len() == y.inputs@.len()
                    &&& forall|q: int|
                        0 <= q < x.inputs@.len() ==> (#[trigger] x.inputs@[q]).repository_id@
                            == y.inputs@[q].repository_id@ && x.inputs@[q].base_revision@
                            == y.inputs@[q].base_revision@
                },
                (Some(Action::PutProject(x)), Some(Action::PutProject(y))) => {
                    &&& x.expected_revision == y.expected_revision
                    &&& match (x.project, y.project) {
                        (Some(p), Some(q)) => {
                            &&& p.id@ == q.id@
                            &&& p.display_name@ == q.display_name@
                            &&& views(p.repository_ids@) == views(q.repository_ids@)
                            &&& p.retention_seconds == q.retention_seconds
                            &&& p.revision == q.revision
                            &&& views(p.validation_targets@) == views(q.validation_targets@)
                        },
                        (None, None) => true,
                        _ => false,
                    }
                },
                (Some(Action::RegisterRepository(x)), Some(Action::RegisterRepository(y))) => match (
                    x.repository,
                    y.repository,
                ) {
                    (Some(p), Some(q)) => {
                        &&& p.id@ == q.id@
                        &&& p.host@ == q.host@
                        &&& p.namespace@ == q.namespace@
                        &&& p.name@ == q.name@
                        &&& p.path@ == q.path@
                        &&& p.clone_url@ == q.clone_url@
                        &&& p.ready == q.ready
                    },
                    (None, None) => true,
                    _ => false,
                },
                (None, None) => true,
                _ => false,
            }
        }),
{
    let o = s.operations@[op_index(s, command.request_id@)];
    match (o.command->0.action, command.action) {
        (Some(Action::Release(x)), Some(Action::Release(y))) => {
            assert forall|q: int| 0 <= q < x.integrated_into@.len() implies (#[trigger] x.integrated_into@[q]).repository_id@
                == y.integrated_into@[q].repository_id@ && x.integrated_into@[q].base_revision@
                == y.integrated_into@[q].base_revision@ by {
                assert(same_input(x.integrated_into@[q], y.integrated_into@[q]));
            }
        },
        (Some(Action::Provision(x)), Some(Action::Provision(y))) => {
            assert forall|q: int| 0 <= q < x.inputs@.len() implies (#[trigger] x.inputs@[q]).repository_id@
                == y.inputs@[q].repository_id@ && x.inputs@[q].base_revision@ == y.inputs@[q].base_revision@ by {
                assert(same_input(x.inputs@[q], y.inputs@[q]));
            }
        },
        _ => {},
    }
}

/// The command line's `release` and `abandon` read, like `lease`, the
/// workspace at position 2, the owner at 3, the expected revision at 4 and
/// the fencing generation at 5, each number as `u64::from_str` reads it.
pub proof fn law_ownership_arguments_in_order(c: WorkspaceCommand, a: Seq<Seq<char>>)
    requires
        describes(c, a),
    ensures
        c.action matches Some(Action::Release(x)) ==> x.workspace_id@ == a[2] && x.owner@ == a[3]
            && x.expected_revision == number(a[4])->Ok_0 && x.generation == number(a[5])->Ok_0,
        c.action matches Some(Action::Lease(x)) ==> x.workspace_id@ == a[2] && x.owner@ == a[3]
            && x.expected_revision == number(a[4])->Ok_0 && x.generation == number(a[5])->Ok_0
            && x.ttl_seconds == number(a[6])->Ok_0,
        c.request_id@ == a[1],
{
}

/// The command line's other mutations read their arguments in the documented
/// order: `collect <request> <workspace> <revision>`, `project <request>
/// <id> <revision> <retention> <repository>...`, `provision <request> <id>
/// <project> <repository>=<revision>...`, and `clone`/`register <request>
/// <id> <host> <namespace> <name> <url or path>`.
pub proof fn law_mutation_arguments_in_order(c: WorkspaceCommand, a: Seq<Seq<char>>)
    requires
        describes(c, a),
    ensures
        c.action matches Some(Action::Collect(x)) ==> a[0] == "collect"@ && x.workspace_id@ == a[2]
            && x.expected_revision == number(a[3])->Ok_0,
        c.action matches Some(Action::PutProject(x)) ==> a[0] == "project"@ && x.expected_revision == number(
            a[3],
        )->Ok_0 && x.project is Some && x.project->0.id@ == a[2] && x.project->0.retention_seconds == number(
            a[4],
        )->Ok_0,
        c.action matches Some(Action::Provision(x)) ==> a[0] == "provision"@ && x.id@ == a[2] && x.project_id@
            == a[3],
        c.action matches Some(Action::RegisterRepository(x)) ==> ({
            let r = x.repository->0;
            &&& x.repository is Some
            &&& r.id@ == a[2] && r.host@ == a[3] && r.namespace@ == a[4] && r.name@ == a[5] && !r.ready
            &&& if a[0] == "clone"@ {
                r.clone_url@ == a[6]
            } else {
                a[0] == "register"@ && r.path@ == a[6]
            }
        }),
{
}

/// The workspaces an inspection of all of them covers are exactly those not
/// yet removed (released ones included), each once, in journal order.
pub proof fn law_inspections_cover_every_unremoved_workspace(s: WorkspaceSnapshot, n: nat)
    requires
        n <= s.workspaces@.len(),
    ensures
        forall|t: int| listed(s, n).contains(t) <==> 0 <= t < n && s.workspaces@[t].phase != WorkspacePhase::Removed,
        forall|m: int, q: int| 0 <= m < q < listed(s, n).len() ==> listed(s, n)[m] < listed(s, n)[q],
    decreases n,
{
    if n > 0 {
        law_inspections_cover_every_unremoved_workspace(s, (n - 1) as nat);
        let prev = listed(s, (n - 1) as nat);
        let cur = listed(s, n);
        assert forall|t: int| cur.contains(t) <==> 0 <= t < n && s.workspaces@[t].phase != WorkspacePhase::Removed by {
            let keep = s.workspaces@[n - 1].phase != WorkspacePhase::Removed;
            if keep {
                assert(cur == prev.push(n - 1));
            } else {
                assert(cur == prev);
            }
            if cur.contains(t) {
                let m = choose|m: int| 0 <= m < cur.len() && cur[m] == t;
                if m < prev.len() {
                    assert(prev[m] == t);
                    assert(prev.contains(t));
                }
            }
            if 0 <= t < n && s.workspaces@[t].phase != WorkspacePhase::Removed {
                if t < n - 1 {
                    assert(prev.contains(t));
                    let m = choose|m: int| 0 <= m < prev.len() && prev[m] == t;
                    assert(cur[m] == t);
                } else {
                    assert(cur[prev.len() as int] == t);
                }
            }
        }
        if s.workspaces@[n - 1].phase != WorkspacePhase::Removed {
            assert(cur == prev.push(n - 1));
            assert forall|m: int, q: int| 0 <= m < q < cur.len() implies cur[m] < cur[q] by {
                if q == prev.len() {
                    assert(prev.contains(prev[m]));
                }
            }
        }
    }
}

/// Only the live owner at the current fencing generation may release: the
/// gate lets a release through only for an active workspace at the expected
/// revision whose lease belongs to the requesting owner, carries the fencing
/// number the request states, and has not expired.
pub proof fn law_release_needs_the_live_owner(s: WorkspaceSnapshot, r: ReleaseWorkspace, now: i64)
    requires
        release_gate(s, r, now) is None,
    ensures
        ({
            let k = ws_index(s, r.workspace_id@);
            let w = s.workspaces@[k];
            &&& k >= 0
            &&& w.id@ == r.workspace_id@
            &&& w.revision == r.expected_revision
            &&& w.phase == WorkspacePhase::Active
            &&& w.lease is Some
            &&& w.lease->0.owner@ == r.owner@
            &&& w.lease->0.generation == r.generation
            &&& w.lease->0.expires_at > now
        }),
{
    lemma_first_index_meaning(s.workspaces@, ws_named(r.workspace_id@));
}

/// A lease is granted only on a ready or active workspace at the expected
/// revision and fencing generation, for at most an hour, and never over
/// another owner's live lease.
pub proof fn law_lease_needs_a_free_or_own_workspace(s: WorkspaceSnapshot, l: LeaseWorkspace, now: i64)
    requires
        lease_refusal(s, l, now) is None,
    ensures
        ({
            let k = ws_index(s, l.workspace_id@);
            let w = s.workspaces@[k];
            &&& k >= 0
            &&& w.id@ == l.workspace_id@
            &&& w.revision == l.expected_revision
            &&& w.phase == WorkspacePhase::Ready || w.phase == WorkspacePhase::Active
            &&& 1 <= l.ttl_seconds <= 3600
            &&& match w.lease {
                Some(x) => x.generation == l.generation && (x.owner@ == l.owner@ || x.expires_at <= now),
                None => l.generation == 0,
            }
        }),
{
    lemma_first_index_meaning(s.workspaces@, ws_named(l.workspace_id@));
}

/// An existing workspace ID is accepted by provisioning only as the retry of
/// its own interrupted provisioning: the journaled request has the same ID,
/// project, label and inputs (each repository and base revision, in order),
/// and the workspace is still provisioning.
pub proof fn law_resume_needs_the_identical_request(s: WorkspaceSnapshot, p: ProvisionWorkspace)
    requires
        crate::provision::provision_refusal(s, p) is None,
        ws_index(s, p.id@) >= 0,
    ensures
        ({
            let q = crate::provision::journaled_provision(s, p.id@);
            &&& s.workspaces@[ws_index(s, p.id@)].phase == WorkspacePhase::Provisioning
            &&& q.id@ == p.id@
            &&& q.project_id@ == p.project_id@
            &&& q.display_name@ == p.display_name@
            &&& q.inputs@.len() == p.inputs@.len()
            &&& forall|m: int|
                0 <= m < p.inputs@.len() ==> (#[trigger] q.inputs@[m]).repository_id@ == p.inputs@[m].repository_id@
                    && q.inputs@[m].base_revision@ == p.inputs@[m].base_revision@
        }),
{
    let q = crate::provision::journaled_provision(s, p.id@);
    assert forall|m: int| 0 <= m < p.inputs@.len() implies (#[trigger] q.inputs@[m]).repository_id@
        == p.inputs@[m].repository_id@ && q.inputs@[m].base_revision@ == p.inputs@[m].base_revision@ by {
        assert(same_input(q.inputs@[m], p.inputs@[m]));
    }
}

/// Task branches never collide: `fv/<workspace>/<repository>` names one
/// workspace and one repository, so two distinct (workspace, repository)
/// pairs of IDs get distinct branches.
pub proof fn law_task_branches_are_distinct(w1: Seq<char>, r1: Seq<char>, w2: Seq<char>, r2: Seq<char>)
    requires
        valid_token(w1),
        valid_token(r1),
        valid_token(w2),
        valid_token(r2),
        crate::git::branch_name(w1, r1) == crate::git::branch_name(w2, r2),
    ensures
        w1 == w2,
        r1 == r2,
{
    let b1 = crate::git::branch_name(w1, r1);
    let b2 = crate::git::branch_name(w2, r2);
    reveal_strlit("fv/");
    reveal_strlit("/");
    assert(b1 == "fv/"@ + w1 + "/"@ + r1);
    assert(b1[3 + w1.len() as int] == '/');
    assert(b2[3 + w2.len() as int] == '/');
    if w1.len() < w2.len() {
        assert(b2[3 + w1.len() as int] == w2[w1.len() as int]);
        assert(crate::text::is_token_char(w2[w1.len() as int]));
        assert(false);
    } else if w2.len() < w1.len() {
        assert(b1[3 + w2.len() as int] == w1[w2.len() as int]);
        assert(crate::text::is_token_char(w1[w2.len() as int]));
        assert(false);
    }
    assert(w1 =~= b1.subrange(3, 3 + w1.len() as int));
    assert(w2 =~= b2.subrange(3, 3 + w2.len() as int));
    assert(r1 =~= b1.subrange(4 + w1.len() as int, b1.len() as int));
    assert(r2 =~= b2.subrange(4 + w2.len() as int, b2.len() as int));
}

/// A granted lease belongs to the requester until `now + ttl`: renewing a
/// live lease of the same owner keeps its generation, anything else (a first
/// lease or the takeover of an expired one) advances it by one; the
/// workspace becomes active, one revision later, nothing else changed.
pub proof fn law_granted_lease(w: ManagedWorkspace, l: LeaseWorkspace, now: i64)
    requires
        valid_token(l.owner@),
        now + l.ttl_seconds <= i64::MAX,
        w.revision < u64::MAX,
        w.lease matches Some(x) ==> x.generation < u64::MAX,
    ensures
        ({
            let n = leased(w, l, now);
            let live_own = w.lease matches Some(x) && x.owner@ == l.owner@ && x.expires_at > now;
            let before = match w.lease {
                Some(x) => x.generation as int,
                None => 0,
            };
            &&& n.lease is Some
            &&& n.lease->0.owner == l.owner
            &&& n.lease->0.expires_at == now + l.ttl_seconds
            &&& n.lease->0.generation == (if live_own { before } else { before + 1 })
            &&& n.phase == WorkspacePhase::Active
            &&& n.revision == w.revision + 1
            &&& n.id == w.id && n.checkouts == w.checkouts && n.project == w.project && n.path == w.path
            &&& n.integration == w.integration && n.abandonment_reason == w.abandonment_reason
        }),
{
    assert(l.owner@.len() > 0);
}

/// A release records the workspace released at `now`, collectable after the
/// project's retention, with the lease expired but its owner and generation
/// kept, the reason and the evidence recorded, one revision later; its
/// checkouts and identity are unchanged.
pub proof fn law_released_record(
    nw: ManagedWorkspace,
    w: ManagedWorkspace,
    r: ReleaseWorkspace,
    evidence: Seq<crate::model::IntegrationEvidence>,
    now: i64,
)
    requires
        crate::lease::released(nw, w, r, evidence, now),
    ensures
        nw.phase == WorkspacePhase::Released,
        nw.released_at == now,
        w.project is Some && nw.collect_after == now + w.project->0.retention_seconds,
        w.lease is Some && nw.lease is Some && nw.lease->0.owner == w.lease->0.owner
            && nw.lease->0.generation == w.lease->0.generation && nw.lease->0.expires_at == 0,
        nw.revision == w.revision + 1,
        nw.abandonment_reason == r.abandonment_reason,
        nw.integration@.len() == evidence.len(),
        nw.id == w.id && nw.checkouts == w.checkouts && nw.path == w.path && nw.project == w.project,
{
}

/// A worktree is locked exactly when a line of its listing block reads
/// `locked`, alone or followed by a space and a reason.
pub proof fn law_locked_worktree(b: Seq<char>)
    ensures
        crate::git::locked(b) <==> exists|i: int|
            0 <= i < lines(b).len() && (#[trigger] lines(b)[i] == "locked"@ || (lines(b)[i].len() >= 7
                && lines(b)[i].subrange(0, 7) == "locked "@)),
{
    reveal_strlit("locked ");
    reveal_strlit("locked");
    let ls = lines(b);
    if crate::git::locked(b) {
        let i = choose|i: int| 0 <= i < ls.len() && #[trigger] crate::git::is_lock_line(ls[i]);
        assert(ls[i] == "locked"@ || (ls[i].len() >= 7 && ls[i].subrange(0, 7) == "locked "@));
    }
    if exists|i: int| 0 <= i < ls.len() && (#[trigger] ls[i] == "locked"@ || (ls[i].len() >= 7 && ls[i].subrange(0, 7)
        == "locked "@)) {
        let i = choose|i: int| 0 <= i < ls.len() && (#[trigger] ls[i] == "locked"@ || (ls[i].len() >= 7
            && ls[i].subrange(0, 7) == "locked "@));
        assert(crate::git::is_lock_line(ls[i]));
    }
}

/// A new registration is admitted only when no registration already has its
/// ID, its identity (the same host up to ASCII case, namespace and name) or
/// its location; a known ID is admitted only as the resumption of its own
/// interrupted clone (same location, identity and URL, not ready).
pub proof fn law_admission_refuses_duplicates(s: WorkspaceSnapshot, plan: RegisterPlan)
    requires
        admission(s, plan) is Ok,
    ensures
        ({
            let r = plan.repository;
            let k = repo_id_index(s, r.id@);
            if k >= 0 {
                let old = s.repositories@[k];
                &&& plan.cloning && !old.ready && old.path@ == r.path@ && old.host@ == r.host@
                &&& old.namespace@ == r.namespace@ && old.name@ == r.name@ && old.clone_url@ == r.clone_url@
            } else {
                forall|i: int|
                    0 <= i < s.repositories@.len() ==> {
                        &&& (#[trigger] s.repositories@[i]).id@ != r.id@
                        &&& !(eq_ignore_ascii_case(s.repositories@[i].host@, r.host@)
                            && s.repositories@[i].namespace@ == r.namespace@ && s.repositories@[i].name@ == r.name@)
                        &&& !crate::path::same_path(s.repositories@[i].path@, r.path@)
                    }
            }
        }),
{
    lemma_first_index_meaning(s.repositories@, crate::catalog::repo_id_named(plan.repository.id@));
    let r = plan.repository;
    if repo_id_index(s, r.id@) < 0 {
        assert forall|i: int| 0 <= i < s.repositories@.len() implies (#[trigger] s.repositories@[i]).id@ != r.id@ by {
            assert(!crate::catalog::repo_id_named(r.id@)(s.repositories@[i]));
        }
    }
}

/// A clone is planned only from one of the identity's two canonical URLs,
/// `https://<host>/<namespace>/<name>.git` or `git@<host>:<namespace>/<name>.git`
/// (so no credentials ride along), into `<root>/repos/<host>/<namespace>/<name>`;
/// an adoption keeps its path and drops any URL.
pub proof fn law_clone_urls_are_canonical(store: Store, request: RegisterRepository, plan: RegisterPlan)
    requires
        registration_started(store, request, Ok(plan)),
    ensures
        request.repository is Some,
        ({
            let r = request.repository->0;
            &&& plan.repository.id == r.id && plan.repository.host == r.host
            &&& plan.repository.namespace == r.namespace && plan.repository.name == r.name
            &&& if plan.cloning {
                &&& r.path@.len() == 0
                &&& (r.clone_url@ == "https://"@ + r.host@ + "/"@ + r.namespace@ + "/"@ + r.name@ + ".git"@ || r.clone_url@
                    == "git@"@ + r.host@ + ":"@ + r.namespace@ + "/"@ + r.name@ + ".git"@)
                &&& plan.repository.clone_url == r.clone_url
                &&& plan.repository.path@ == join(join(join(join(store.root@, "repos"@), r.host@), r.namespace@), r.name@)
            } else {
                &&& r.path@.len() > 0
                &&& plan.repository.path == r.path
                &&& plan.repository.clone_url@.len() == 0
            }
        }),
{
}

} // verus!
