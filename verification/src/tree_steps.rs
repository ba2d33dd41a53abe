//! The order of copying and verifying a tree, as a state machine: every entry but the root
//! is created (files with their bytes), the bytes written are checked against the tree's
//! total, every entry is verified, and permissions are applied deepest first. The host
//! performs each action and reports back; this module decides what comes next.

use vstd::prelude::*;

use crate::filesystem::ExplorerError;
use crate::transfer_checks::{permission_indices, permission_order, TransferEntryKind};

verus! {

/// Where a tree transfer stands.
#[derive(Debug, Clone, Copy, PartialEq, Eq, Structural)]
pub enum TreePhase {
    Idle,
    /// Entry `i` is being created.
    Create(usize),
    /// The bytes written are being counted.
    CheckTotal,
    /// Entry `i` is being verified.
    Verify(usize),
    /// The permissions of the `j`-th entry of `permission_indices` are being applied.
    Permissions(usize),
    Finished,
    Failed,
}

/// A tree transfer: its phase and the total bytes of its files.
#[derive(Debug, Clone, Copy, PartialEq, Eq, Structural)]
pub struct TransferState {
    pub phase: TreePhase,
    pub total_bytes: u64,
}

/// What the host reports after an action.
#[derive(Debug, Clone, PartialEq, Eq)]
pub enum TransferEvent {
    Begin,
    /// The action succeeded.
    Done,
    /// The bytes written over the whole tree.
    BytesCompleted(u64),
    /// The action failed with this error.
    Failed(ExplorerError),
    Cancelled,
}

/// Why a transfer ended early.
#[derive(Debug, Clone, PartialEq, Eq)]
pub enum TransferFailure {
    Cancelled,
    Step(ExplorerError),
    ByteCount,
    OutOfOrder,
}

/// What the host does next.
#[derive(Debug, Clone, PartialEq, Eq)]
pub enum TransferAction {
    /// Create entry `i` of this kind (see `creation_step`).
    Create(usize, TransferEntryKind),
    /// Report the bytes written over the whole tree.
    CountBytes,
    /// Check entry `i` of this kind (see `check_written_entry`).
    Verify(usize, TransferEntryKind),
    /// Apply the permissions of entry `i`.
    SetPermissions(usize),
    Finish,
    Fail(TransferFailure),
}

pub open spec fn transfer_failed(s: TransferState, f: TransferFailure) -> (TransferState, TransferAction) {
    (TransferState { phase: TreePhase::Failed, ..s }, TransferAction::Fail(f))
}

/// After the creations: count the bytes.
pub open spec fn after_creations(s: TransferState) -> (TransferState, TransferAction) {
    (TransferState { phase: TreePhase::CheckTotal, ..s }, TransferAction::CountBytes)
}

/// After the checks: the permissions, deepest first, or the end.
pub open spec fn after_checks(kinds: Seq<TransferEntryKind>, s: TransferState) -> (TransferState, TransferAction) {
    if permission_indices(kinds).len() > 0 {
        (TransferState { phase: TreePhase::Permissions(0), ..s }, TransferAction::SetPermissions(permission_indices(kinds)[0]))
    } else {
        (TransferState { phase: TreePhase::Finished, ..s }, TransferAction::Finish)
    }
}

/// The next state and action of a tree transfer over entries of kinds `kinds` (the first
/// being the tree's root). A cancellation or a failed action ends any transfer under way;
/// a byte count other than the tree's total ends it too; an event that does not answer
/// the current action ends it as out of order.
pub open spec fn transfer_next(kinds: Seq<TransferEntryKind>, s: TransferState, e: TransferEvent) -> (TransferState, TransferAction) {
    if s.phase == TreePhase::Finished || s.phase == TreePhase::Failed {
        transfer_failed(s, TransferFailure::OutOfOrder)
    } else if e == TransferEvent::Cancelled {
        transfer_failed(s, TransferFailure::Cancelled)
    } else if e is Failed && s.phase != TreePhase::Idle {
        transfer_failed(s, TransferFailure::Step(e->Failed_0))
    } else {
        match s.phase {
            TreePhase::Idle => if e == TransferEvent::Begin {
                if kinds.len() > 1 {
                    (TransferState { phase: TreePhase::Create(1), ..s }, TransferAction::Create(1, kinds[1]))
                } else {
                    after_creations(s)
                }
            } else {
                transfer_failed(s, TransferFailure::OutOfOrder)
            },
            TreePhase::Create(i) => if e == TransferEvent::Done {
                if i + 1 < kinds.len() {
                    (TransferState { phase: TreePhase::Create((i + 1) as usize), ..s }, TransferAction::Create((i + 1) as usize, kinds[i + 1]))
                } else {
                    after_creations(s)
                }
            } else {
                transfer_failed(s, TransferFailure::OutOfOrder)
            },
            TreePhase::CheckTotal => match e {
                TransferEvent::BytesCompleted(c) => if c != s.total_bytes {
                    transfer_failed(s, TransferFailure::ByteCount)
                } else if kinds.len() > 0 {
                    (TransferState { phase: TreePhase::Verify(0), ..s }, TransferAction::Verify(0, kinds[0]))
                } else {
                    after_checks(kinds, s)
                },
                _ => transfer_failed(s, TransferFailure::OutOfOrder),
            },
            TreePhase::Verify(i) => if e == TransferEvent::Done {
                if i + 1 < kinds.len() {
                    (TransferState { phase: TreePhase::Verify((i + 1) as usize), ..s }, TransferAction::Verify((i + 1) as usize, kinds[i + 1]))
                } else {
                    after_checks(kinds, s)
                }
            } else {
                transfer_failed(s, TransferFailure::OutOfOrder)
            },
            TreePhase::Permissions(j) => if e == TransferEvent::Done {
                if j + 1 < permission_indices(kinds).len() {
                    (
                        TransferState { phase: TreePhase::Permissions((j + 1) as usize), ..s },
                        TransferAction::SetPermissions(permission_indices(kinds)[j + 1]),
                    )
                } else {
                    (TransferState { phase: TreePhase::Finished, ..s }, TransferAction::Finish)
                }
            } else {
                transfer_failed(s, TransferFailure::OutOfOrder)
            },
            _ => transfer_failed(s, TransferFailure::OutOfOrder),
        }
    }
}

impl TransferState {
    /// A transfer of a tree whose files hold `total_bytes` bytes, not yet started.
    pub fn new(total_bytes: u64) -> (r: TransferState)
        ensures
            r.phase == TreePhase::Idle,
            r.total_bytes == total_bytes,
    {
        TransferState { phase: TreePhase::Idle, total_bytes }
    }
}

fn checks_done(kinds: &Vec<TransferEntryKind>, s: TransferState) -> (r: (TransferState, TransferAction))
    ensures
        r == after_checks(kinds@, s),
{
    let order = permission_order(kinds);
    if order.len() > 0 {
        (TransferState { phase: TreePhase::Permissions(0), ..s }, TransferAction::SetPermissions(order[0]))
    } else {
        (TransferState { phase: TreePhase::Finished, ..s }, TransferAction::Finish)
    }
}

/// Decides the next step of a tree transfer.
pub fn tree_transfer_step(kinds: &Vec<TransferEntryKind>, state: TransferState, event: TransferEvent) -> (r: (
    TransferState,
    TransferAction,
))
    ensures
        r == transfer_next(kinds@, state, event),
{
    let failed = TransferState { phase: TreePhase::Failed, ..state };
    match state.phase {
        TreePhase::Finished | TreePhase::Failed => {
            return (failed, TransferAction::Fail(TransferFailure::OutOfOrder));
        },
        _ => {},
    }
    let idle = match state.phase {
        TreePhase::Idle => true,
        _ => false,
    };
    let event = match event {
        TransferEvent::Cancelled => {
            return (failed, TransferAction::Fail(TransferFailure::Cancelled));
        },
        TransferEvent::Failed(e) => {
            if !idle {
                return (failed, TransferAction::Fail(TransferFailure::Step(e)));
            }
            TransferEvent::Failed(e)
        },
        other => other,
    };
    let done = match event {
        TransferEvent::Done => true,
        _ => false,
    };
    match state.phase {
        TreePhase::Idle => match event {
            TransferEvent::Begin => if kinds.len() > 1 {
                (TransferState { phase: TreePhase::Create(1), ..state }, TransferAction::Create(1, kinds[1]))
            } else {
                (TransferState { phase: TreePhase::CheckTotal, ..state }, TransferAction::CountBytes)
            },
            _ => (failed, TransferAction::Fail(TransferFailure::OutOfOrder)),
        },
        TreePhase::Create(i) => if done {
            if kinds.len() > 0 && i < kinds.len() - 1 {
                (TransferState { phase: TreePhase::Create(i + 1), ..state }, TransferAction::Create(i + 1, kinds[i + 1]))
            } else {
                (TransferState { phase: TreePhase::CheckTotal, ..state }, TransferAction::CountBytes)
            }
        } else {
            (failed, TransferAction::Fail(TransferFailure::OutOfOrder))
        },
        TreePhase::CheckTotal => match event {
            TransferEvent::BytesCompleted(c) => if c != state.total_bytes {
                (failed, TransferAction::Fail(TransferFailure::ByteCount))
            } else if kinds.len() > 0 {
                (TransferState { phase: TreePhase::Verify(0), ..state }, TransferAction::Verify(0, kinds[0]))
            } else {
                checks_done(kinds, state)
            },
            _ => (failed, TransferAction::Fail(TransferFailure::OutOfOrder)),
        },
        TreePhase::Verify(i) => if done {
            if kinds.len() > 0 && i < kinds.len() - 1 {
                (TransferState { phase: TreePhase::Verify(i + 1), ..state }, TransferAction::Verify(i + 1, kinds[i + 1]))
            } else {
                checks_done(kinds, state)
            }
        } else {
            (failed, TransferAction::Fail(TransferFailure::OutOfOrder))
        },
        TreePhase::Permissions(j) => if done {
            let order = permission_order(kinds);
            if order.len() > 0 && j < order.len() - 1 {
                (TransferState { phase: TreePhase::Permissions(j + 1), ..state }, TransferAction::SetPermissions(order[j + 1]))
            } else {
                (TransferState { phase: TreePhase::Finished, ..state }, TransferAction::Finish)
            }
        } else {
            (failed, TransferAction::Fail(TransferFailure::OutOfOrder))
        },
        _ => (failed, TransferAction::Fail(TransferFailure::OutOfOrder)),
    }
}

/// How a transfer that ended early is reported; a byte count that does not add up is
/// reported with `count_message`.
pub open spec fn transfer_failure_reported(f: TransferFailure, count_message: Seq<char>, e: ExplorerError) -> bool {
    match f {
        TransferFailure::Cancelled => e == ExplorerError::Cancelled,
        TransferFailure::Step(err) => e == err,
        TransferFailure::ByteCount => e matches ExplorerError::Unexpected(m) && m@ == count_message,
        TransferFailure::OutOfOrder => e == ExplorerError::StateUnavailable,
    }
}

pub fn transfer_failure_error(failure: TransferFailure, count_message: &str) -> (r: ExplorerError)
    ensures
        transfer_failure_reported(failure, count_message@, r),
{
    match failure {
        TransferFailure::Cancelled => ExplorerError::Cancelled,
        TransferFailure::Step(err) => err,
        TransferFailure::ByteCount => ExplorerError::Unexpected(count_message.to_owned()),
        TransferFailure::OutOfOrder => ExplorerError::StateUnavailable,
    }
}

} // verus!
