//! A journaled request as a sequence of steps: admission, the journal write
//! that marks the operation running, the action, and the journal write that
//! records how it ended.
use vstd::prelude::*;
use crate::catalog::evolves;
use crate::copy::{copy_action, copy_operation, same_opt_command, same_action, same_operation};
use crate::error::Error;
use crate::journal::{op_index, admitted, begin, bump_revision, check_command, finish, recorded, Start};
use crate::model::{Action, OperationPhase, WorkspaceCommand, WorkspaceOperation, WorkspaceSnapshot};
use crate::text::valid_token;

verus! {

/// Where a request is.
#[derive(Clone, Copy, Debug, PartialEq, Eq, Structural)]
pub enum ApplyStage {
    Begin,
    /// Waiting for the journal marking the operation running to be written.
    Running,
    /// Waiting for the action's outcome.
    Executing,
    /// Waiting for the journal recording the outcome to be written.
    Recording,
    Finished,
}

/// What a request knows between steps.
pub struct ApplyState {
    pub stage: ApplyStage,
    /// The operation's position in the journal.
    pub index: usize,
    /// The journal marking the operation running was written.
    pub running_saved: bool,
    /// The recorded operation, once the outcome is known.
    pub recorded: WorkspaceOperation,
}

/// What the last action reported.
pub enum ApplyEvent {
    Start,
    Saved,
    /// How the action ended.
    Executed(Result<(), Error>),
    Failed(Error),
}

/// The next thing to do.
pub enum ApplyAction {
    /// Write the journal as it now stands.
    SaveJournal,
    /// Carry out the action against the journal.
    Execute(Action),
    /// Answer the request.
    Reply(Result<WorkspaceOperation, Error>),
}

impl ApplyState {
    pub fn new() -> (st: ApplyState)
        ensures
            st.stage == ApplyStage::Begin,
            !st.running_saved,
    {
        ApplyState {
            stage: ApplyStage::Begin,
            index: 0,
            running_saved: false,
            recorded: WorkspaceOperation {
                id: String::new(),
                command: None,
                phase: OperationPhase::Unspecified,
                detail: String::new(),
                revision: 0,
            },
        }
    }
}

/// What holds between the steps of request `command` on journal `s`.
pub open spec fn apply_inv(s: WorkspaceSnapshot, st: ApplyState, command: WorkspaceCommand) -> bool {
    &&& st.stage == ApplyStage::Begin ==> !st.running_saved
    &&& st.stage == ApplyStage::Running ==> {
        &&& !st.running_saved
        &&& st.index < s.operations@.len()
        &&& s.operations@[st.index as int].phase == OperationPhase::Running
        &&& same_opt_command(s.operations@[st.index as int].command, Some(command))
        &&& command.action is Some
    }
    &&& (st.stage == ApplyStage::Executing || st.stage == ApplyStage::Recording) ==> st.running_saved
    &&& st.stage == ApplyStage::Recording ==> st.index < s.operations@.len() && same_operation(
        st.recorded,
        s.operations@[st.index as int],
    )
}

/// What admitting `command` at the start of a request gives: the refusals of
/// `check_command` and of admission, the replay of a completed identical
/// request with nothing changed, or the running operation (existing or new)
/// marked and the journal revision advanced for its write.
pub open spec fn apply_begin(s0: WorkspaceSnapshot, s: WorkspaceSnapshot, st: ApplyState, command: WorkspaceCommand, a: ApplyAction) -> bool {
    let id = command.request_id@;
    let k = op_index(s0, id);
    if !valid_token(id) {
        a matches ApplyAction::Reply(Err(Error::InvalidComponent(t))) && t@ == id && s == s0
    } else if command.action is None {
        a == ApplyAction::Reply(Err(Error::ActionRequired)) && s == s0
    } else if k >= 0 && !same_opt_command(s0.operations@[k].command, Some(command)) {
        a == ApplyAction::Reply(Err(Error::RequestReused)) && s == s0
    } else if k >= 0 && s0.operations@[k].phase == OperationPhase::Succeeded {
        a matches ApplyAction::Reply(Ok(op)) && same_operation(op, s0.operations@[k]) && s == s0
    } else if s0.revision == u64::MAX {
        a == ApplyAction::Reply(Err(Error::RevisionExhausted))
    } else {
        &&& a is SaveJournal
        &&& st.stage == ApplyStage::Running
        &&& st.index as int == (if k >= 0 { k } else { s0.operations@.len() as int })
        &&& s.revision == s0.revision + 1
        &&& admitted(s0, command, WorkspaceSnapshot { revision: s0.revision, ..s }, Ok(Start::Run(st.index)))
    }
}

/// One step of a request, exactly: what each report leads to at each stage.
pub open spec fn apply_transition(
    s0: WorkspaceSnapshot,
    s: WorkspaceSnapshot,
    st0: ApplyState,
    st: ApplyState,
    command: WorkspaceCommand,
    ev: ApplyEvent,
    a: ApplyAction,
) -> bool {
    let unexpected = a == ApplyAction::Reply(Err(Error::UnexpectedEvent)) && s == s0;
    match ev {
        ApplyEvent::Failed(e) => a == ApplyAction::Reply(Err(e)) && s == s0,
        ApplyEvent::Start => if st0.stage == ApplyStage::Begin {
            apply_begin(s0, s, st, command, a)
        } else {
            unexpected
        },
        ApplyEvent::Saved => if st0.stage == ApplyStage::Running {
            &&& (command.action matches Some(y) && a matches ApplyAction::Execute(x) && same_action(x, y))
            &&& s == s0
            &&& st.stage == ApplyStage::Executing
            &&& st.index == st0.index
        } else if st0.stage == ApplyStage::Recording {
            a matches ApplyAction::Reply(Ok(op)) && same_operation(op, st0.recorded) && s == s0
        } else {
            unexpected
        },
        ApplyEvent::Executed(o) => if st0.stage != ApplyStage::Executing {
            unexpected
        } else if s0.revision == u64::MAX {
            a == ApplyAction::Reply(Err(Error::RevisionExhausted)) && s == s0
        } else if st0.index >= s0.operations@.len() {
            unexpected
        } else {
            &&& a is SaveJournal
            &&& recorded(s0, st0.index as int, o, s, st.recorded)
            &&& st.stage == ApplyStage::Recording
            &&& st.index == st0.index
        },
    }
}

/// Decides the next step of request `command` from what the last action
/// reported. An identical request that already succeeded is answered with its
/// recorded operation and nothing is written. Otherwise the operation is
/// marked running and the journal written; only once that write is reported
/// does the action run. Its outcome is recorded (succeeded or blocked, with
/// its detail and revision), and the answer, the recorded operation, is given
/// once that journal write is reported.
pub fn apply_step(s: &mut WorkspaceSnapshot, st: &mut ApplyState, command: &WorkspaceCommand, ev: ApplyEvent) -> (a: ApplyAction)
    requires
        apply_inv(*old(s), *old(st), *command),
    ensures
        apply_inv(*final(s), *final(st), *command),
        evolves(*old(s), *final(s)),
        apply_transition(*old(s), *final(s), *old(st), *final(st), *command, ev, a),
        final(st).running_saved && !old(st).running_saved ==> old(st).stage == ApplyStage::Running && ev is Saved,
        a is Reply ==> final(st).stage == ApplyStage::Finished,
        !(a is Reply) ==> final(st).recorded == old(st).recorded || old(st).stage == ApplyStage::Executing,
{
    match ev {
        ApplyEvent::Failed(e) => {
            st.stage = ApplyStage::Finished;
            ApplyAction::Reply(Err(e))
        },
        ApplyEvent::Start => {
            if st.stage != ApplyStage::Begin {
                st.stage = ApplyStage::Finished;
                return ApplyAction::Reply(Err(Error::UnexpectedEvent));
            }
            if let Err(e) = check_command(command) {
                st.stage = ApplyStage::Finished;
                return ApplyAction::Reply(Err(e));
            }
            let ghost s0 = *s;
            let n0 = s.operations.len();
            let started = begin(s, command);
            proof {
                match started {
                    Ok(Start::Run(i)) => {
                        let k = crate::journal::op_index(s0, command.request_id@);
                        if k < 0 {
                            assert(i as int == n0);
                            assert(s.operations@.len() == n0 + 1);
                            assert(s.operations@.last() == s.operations@[i as int]);
                        }
                    },
                    _ => {},
                }
            }
            match started {
                Err(e) => {
                    st.stage = ApplyStage::Finished;
                    ApplyAction::Reply(Err(e))
                },
                Ok(Start::Replay(op)) => {
                    st.stage = ApplyStage::Finished;
                    ApplyAction::Reply(Ok(op))
                },
                Ok(Start::Run(i)) => {
                    match bump_revision(s) {
                        Err(e) => {
                            st.stage = ApplyStage::Finished;
                            ApplyAction::Reply(Err(e))
                        },
                        Ok(()) => {
                            st.index = i;
                            st.stage = ApplyStage::Running;
                            ApplyAction::SaveJournal
                        },
                    }
                },
            }
        },
        ApplyEvent::Saved => {
            if st.stage == ApplyStage::Running {
                match &command.action {
                    Some(action) => {
                        st.running_saved = true;
                        st.stage = ApplyStage::Executing;
                        ApplyAction::Execute(copy_action(action))
                    },
                    None => {
                        st.stage = ApplyStage::Finished;
                        ApplyAction::Reply(Err(Error::ActionRequired))
                    },
                }
            } else if st.stage == ApplyStage::Recording {
                st.stage = ApplyStage::Finished;
                ApplyAction::Reply(Ok(copy_operation(&st.recorded)))
            } else {
                st.stage = ApplyStage::Finished;
                ApplyAction::Reply(Err(Error::UnexpectedEvent))
            }
        },
        ApplyEvent::Executed(outcome) => {
            if st.stage != ApplyStage::Executing {
                st.stage = ApplyStage::Finished;
                return ApplyAction::Reply(Err(Error::UnexpectedEvent));
            }
            if s.revision == u64::MAX {
                st.stage = ApplyStage::Finished;
                return ApplyAction::Reply(Err(Error::RevisionExhausted));
            }
            if st.index >= s.operations.len() {
                st.stage = ApplyStage::Finished;
                return ApplyAction::Reply(Err(Error::UnexpectedEvent));
            }
            st.recorded = finish(s, st.index, &outcome);
            st.stage = ApplyStage::Recording;
            ApplyAction::SaveJournal
        },
    }
}

} // verus!
