//! The operation journal: revision bumps, idempotent request admission, and
//! recording how an attempt ended. Writing the journal file is the caller's.
use vstd::prelude::*;
use vstd::string::*;
use crate::error::{Error, message_of};
use crate::ident::{token, rejects};
use crate::model::{OperationPhase, WorkspaceCommand, WorkspaceOperation, WorkspaceSnapshot};
use crate::copy::{same_opt_command, same_operation, copy_command, copy_operation, equal_commands};
use crate::seqs::{is_first, first_index, lemma_first_index_found, lemma_first_index_none};
use crate::text::valid_token;

verus! {

/// Everything but the revision is the same.
pub open spec fn same_but_revision(a: WorkspaceSnapshot, b: WorkspaceSnapshot) -> bool {
    &&& a.schema_version == b.schema_version
    &&& a.root == b.root
    &&& a.repositories == b.repositories
    &&& a.projects == b.projects
    &&& a.workspaces == b.workspaces
    &&& a.operations == b.operations
}

/// Advances the journal revision by one before it is written; refuses when
/// the revision cannot grow.
pub fn bump_revision(s: &mut WorkspaceSnapshot) -> (r: Result<(), Error>)
    ensures
        same_but_revision(*final(s), *old(s)),
        old(s).revision < u64::MAX ==> r is Ok && final(s).revision == old(s).revision + 1,
        old(s).revision == u64::MAX ==> r == Err::<(), Error>(Error::RevisionExhausted)
            && final(s).revision == old(s).revision,
{
    match s.revision.checked_add(1) {
        Some(n) => {
            s.revision = n;
            Ok(())
        },
        None => Err(Error::RevisionExhausted),
    }
}

/// A command is admitted only with a token request ID and an action.
pub fn check_command(command: &WorkspaceCommand) -> (r: Result<(), Error>)
    ensures
        !valid_token(command.request_id@) ==> rejects(r, command.request_id@),
        valid_token(command.request_id@) && command.action is None ==> r
            == Err::<(), Error>(Error::ActionRequired),
        r is Ok <==> valid_token(command.request_id@) && command.action is Some,
{
    token(command.request_id.as_str())?;
    if command.action.is_none() {
        return Err(Error::ActionRequired);
    }
    Ok(())
}

/// How a request proceeds once admitted.
pub enum Start {
    /// It already succeeded: this is the recorded operation, returned again.
    Replay(WorkspaceOperation),
    /// Run the action; its operation is journaled at this position.
    Run(usize),
}

/// Holds of the operation recorded under a request ID.
pub open spec fn op_named(id: Seq<char>) -> spec_fn(WorkspaceOperation) -> bool {
    |o: WorkspaceOperation| o.id@ == id
}

/// The position of the operation recorded under `id`, or -1.
pub open spec fn op_index(s: WorkspaceSnapshot, id: Seq<char>) -> int {
    first_index(s.operations@, op_named(id))
}

/// What admitting `command` into journal `s` gives: the journal `t` and the
/// result `r`.
pub open spec fn admitted(s: WorkspaceSnapshot, command: WorkspaceCommand, t: WorkspaceSnapshot, r: Result<Start, Error>) -> bool {
    ({
            let k = op_index(s, command.request_id@);
            if k >= 0 {
                let o = s.operations@[k];
                if !same_opt_command(o.command, Some(command)) {
                    r == Err::<Start, Error>(Error::RequestReused) && t == s
                } else if o.phase == OperationPhase::Succeeded {
                    r matches Ok(Start::Replay(p)) && same_operation(p, o) && t == s
                } else {
                    &&& r == Ok::<Start, Error>(Start::Run(k as usize))
                    &&& t.operations@ == s.operations@.update(
                        k,
                        WorkspaceOperation { phase: OperationPhase::Running, ..o },
                    )
                    &&& same_but_operations(t, s)
                }
            } else {
                &&& r == Ok::<Start, Error>(Start::Run(s.operations@.len() as usize))
                &&& t.operations@.len() == s.operations@.len() + 1
                &&& t.operations@.subrange(0, s.operations@.len() as int) == s.operations@
                &&& fresh_operation(t.operations@.last(), command)
                &&& same_but_operations(t, s)
            }
        })
}

/// Admits a command into the journal. A request ID seen before must carry
/// the identical command; if that operation succeeded it is replayed and the
/// journal is left as it was. Otherwise the operation (existing or newly
/// appended) is marked running.
pub fn begin(s: &mut WorkspaceSnapshot, command: &WorkspaceCommand) -> (r: Result<Start, Error>)
    ensures
        admitted(*old(s), *command, *final(s), r),
{
    let ghost named = op_named(command.request_id@);
    let mut i: usize = 0;
    while i < s.operations.len()
        invariant
            named == op_named(command.request_id@),
            *s == *old(s),
            i <= s.operations.len(),
            forall|j: int| 0 <= j < i ==> !named(#[trigger] s.operations@[j]),
        decreases s.operations.len() - i,
    {
        if s.operations[i].id == command.request_id {
            proof {
                assert(is_first(s.operations@, named, i as int));
                lemma_first_index_found(s.operations@, named, i as int);
            }
            let matches = match &s.operations[i].command {
                Some(c) => equal_commands(c, command),
                None => false,
            };
            if !matches {
                return Err(Error::RequestReused);
            }
            if s.operations[i].phase == OperationPhase::Succeeded {
                return Ok(Start::Replay(copy_operation(&s.operations[i])));
            }
            s.operations[i].phase = OperationPhase::Running;
            return Ok(Start::Run(i));
        }
        i = i + 1;
    }
    proof {
        lemma_first_index_none(s.operations@, named);
    }
    let n = s.operations.len();
    s.operations.push(
        WorkspaceOperation {
            id: command.request_id.clone(),
            command: Some(copy_command(command)),
            phase: OperationPhase::Running,
            detail: String::new(),
            revision: 0,
        },
    );
    assert(s.operations@.subrange(0, n as int) =~= old(s).operations@);
    Ok(Start::Run(n))
}

/// Everything but the operations is the same.
pub open spec fn same_but_operations(a: WorkspaceSnapshot, b: WorkspaceSnapshot) -> bool {
    &&& a.schema_version == b.schema_version
    &&& a.root == b.root
    &&& a.revision == b.revision
    &&& a.repositories == b.repositories
    &&& a.projects == b.projects
    &&& a.workspaces == b.workspaces
}

/// A newly journaled operation for `command`: running, no detail yet.
pub open spec fn fresh_operation(o: WorkspaceOperation, command: WorkspaceCommand) -> bool {
    &&& o.id@ == command.request_id@
    &&& same_opt_command(o.command, Some(command))
    &&& o.phase == OperationPhase::Running
    &&& o.detail@.len() == 0
    &&& o.revision == 0
}

/// The detail recorded for an outcome.
pub open spec fn outcome_detail(outcome: Result<(), Error>) -> Seq<char> {
    match outcome {
        Ok(()) => "complete"@,
        Err(e) => message_of(e),
    }
}

/// What recording outcome `outcome` of operation `i` in journal `s` gives:
/// the journal `t` and the recorded operation `r`.
pub open spec fn recorded(s: WorkspaceSnapshot, i: int, outcome: Result<(), Error>, t: WorkspaceSnapshot, r: WorkspaceOperation) -> bool {
    &&& t.revision == s.revision + 1
    &&& t.operations@ == s.operations@.update(i, t.operations@[i])
    &&& t.operations@[i].id == s.operations@[i].id
    &&& t.operations@[i].command == s.operations@[i].command
    &&& t.operations@[i].phase == (if outcome is Ok { OperationPhase::Succeeded } else { OperationPhase::Blocked })
    &&& t.operations@[i].detail@ == outcome_detail(outcome)
    &&& t.operations@[i].revision == s.revision + 1
    &&& same_operation(r, t.operations@[i])
    &&& t.schema_version == s.schema_version
    &&& t.root == s.root
    &&& t.repositories == s.repositories
    &&& t.projects == s.projects
    &&& t.workspaces == s.workspaces
}

/// Records how the attempt at operation `i` ended: succeeded or blocked,
/// with its detail and the revision the journal is about to take, then
/// advances the journal revision. Returns the recorded operation.
pub fn finish(s: &mut WorkspaceSnapshot, i: usize, outcome: &Result<(), Error>) -> (r: WorkspaceOperation)
    requires
        i < old(s).operations@.len(),
        old(s).revision < u64::MAX,
    ensures
        recorded(*old(s), i as int, *outcome, *final(s), r),
{
    proof { reveal_strlit("complete"); }
    let (phase, detail) = match outcome {
        Ok(()) => (OperationPhase::Succeeded, String::from_str("complete")),
        Err(e) => (OperationPhase::Blocked, e.message()),
    };
    let next = s.revision + 1;
    s.operations[i].phase = phase;
    s.operations[i].detail = detail;
    s.operations[i].revision = next;
    s.revision = next;
    let r = WorkspaceOperation {
        id: s.operations[i].id.clone(),
        command: match &s.operations[i].command {
            Some(c) => Some(copy_command(c)),
            None => None,
        },
        phase: s.operations[i].phase,
        detail: s.operations[i].detail.clone(),
        revision: s.operations[i].revision,
    };
    assert(s.operations@ =~= old(s).operations@.update(i as int, s.operations@[i as int]));
    r
}

/// One poll of a watch: the first snapshot is always sent, later ones only
/// when the journal revision differs from the last one sent. Returns whether
/// to send and the revision the watch has now seen.
pub fn watch_step(first: bool, after: u64, revision: u64) -> (r: (bool, u64))
    ensures
        r.0 == (first || revision != after),
        r.1 == (if r.0 { revision } else { after }),
{
    if first || revision != after {
        (true, revision)
    } else {
        (false, after)
    }
}

} // verus!
