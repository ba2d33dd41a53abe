//! The decisions of running a filesystem operation on several items, as a state machine:
//! the host validates the sources, confirms a permanent delete once for all of them, and
//! runs the items in order, each as a single run, recording its result with `BatchRun`;
//! this module decides what comes next. A request with one source is run as a single
//! operation.

use vstd::prelude::*;

use crate::file_operations::{FileOperationActionDto, FileOperationPromptResponseDto};
use crate::filesystem::ExplorerError;

verus! {

/// Where a batch stands.
#[derive(Debug, Clone, PartialEq, Eq)]
pub enum BatchPhase {
    Idle,
    /// The sources are being validated together.
    Validating,
    /// The first source is being described before a permanent delete.
    DescribingFirst,
    /// The source at this index is being described; the first one lives in the named location.
    Describing(usize, String),
    /// The user is asked to confirm the permanent delete of every source.
    AwaitingDelete,
    /// The item at this index was begun; the host reports whether the operation was cancelled.
    Starting(usize),
    /// The item at this index is being run.
    Running(usize),
    Done,
}

/// A batch of `total` sources.
pub struct BatchState {
    pub total: usize,
    /// Whether the operation deletes permanently.
    pub delete: bool,
    /// Whether the user confirmed the permanent delete of every source.
    pub delete_confirmed: bool,
    pub phase: BatchPhase,
}

/// What the host reports after performing an action.
pub enum BatchEvent {
    Begin,
    Validated(Result<(), ExplorerError>),
    /// The item's name and its location's name, or why they could not be told.
    Described(Result<(String, String), ExplorerError>),
    Answered(Result<FileOperationPromptResponseDto, ExplorerError>),
    Started { cancelled: bool },
    /// The item's result was recorded; whether recording it ended the batch.
    Recorded { finished: bool },
}

/// Why a batch ended before its items ran.
#[derive(Debug, Clone, PartialEq, Eq)]
pub enum BatchFailure {
    Error(ExplorerError),
    InvalidDeleteAnswer,
    OutOfOrder,
}

/// What the host does next.
#[derive(Debug, Clone, PartialEq, Eq)]
pub enum BatchAction {
    /// Run the only source as a single operation; its result ends the operation.
    RunSingle,
    Validate,
    Describe(usize),
    /// Ask the user to confirm deleting `count` items of the named location for good.
    PromptDelete { count: usize, location_name: String },
    /// Begin the item at this index, then report whether the operation was cancelled.
    StartItem(usize),
    /// Run the item at this index as a single run, delete already confirmed or not, and record its result.
    RunItem(usize, bool),
    /// End the batch as cancelled, with the items recorded so far.
    Cancel,
    /// Every item ran: end the batch with what was recorded.
    Finish,
    /// Recording the last item ended the batch.
    Stop,
    Fail(BatchFailure),
}

pub open spec fn batch_go(s: BatchState, phase: BatchPhase, action: BatchAction) -> (BatchState, BatchAction) {
    (BatchState { phase, ..s }, action)
}

pub open spec fn batch_failed(s: BatchState, failure: BatchFailure) -> (BatchState, BatchAction) {
    batch_go(s, BatchPhase::Done, BatchAction::Fail(failure))
}

/// The items run from the first one; an empty batch finishes at once.
pub open spec fn first_item(s: BatchState) -> (BatchState, BatchAction) {
    if s.total == 0 {
        batch_go(s, BatchPhase::Done, BatchAction::Finish)
    } else {
        batch_go(s, BatchPhase::Starting(0), BatchAction::StartItem(0))
    }
}

/// A confirmation that could not be had: a cancellation cancels the batch, any other
/// error ends it.
pub open spec fn unconfirmed(s: BatchState, error: ExplorerError) -> (BatchState, BatchAction) {
    if error == ExplorerError::Cancelled {
        batch_go(s, BatchPhase::Done, BatchAction::Cancel)
    } else {
        batch_failed(s, BatchFailure::Error(error))
    }
}

/// After the source at `index` was described: the next one, or the prompt once all were.
pub open spec fn described(s: BatchState, index: nat, location_name: String) -> (BatchState, BatchAction) {
    if index + 1 < s.total {
        batch_go(s, BatchPhase::Describing((index + 1) as usize, location_name), BatchAction::Describe((index + 1) as usize))
    } else {
        batch_go(s, BatchPhase::AwaitingDelete, BatchAction::PromptDelete { count: s.total, location_name })
    }
}

/// The next state and action of a batch. One source is run alone. Otherwise the sources are
/// validated; a permanent delete describes every source in order and is confirmed once, only
/// a confirmation going ahead and a cancellation cancelling the batch; then each item is
/// begun, stops the batch as cancelled if the operation was cancelled, and is run with the
/// delete confirmed. The batch ends when recording an item ends it or after the last item.
/// Any other event, and any event after the end, ends the batch as out of order.
pub open spec fn batch_next(s: BatchState, e: BatchEvent) -> (BatchState, BatchAction) {
    match s.phase {
        BatchPhase::Idle => match e {
            BatchEvent::Begin => if s.total == 1 {
                batch_go(s, BatchPhase::Done, BatchAction::RunSingle)
            } else {
                batch_go(s, BatchPhase::Validating, BatchAction::Validate)
            },
            _ => batch_failed(s, BatchFailure::OutOfOrder),
        },
        BatchPhase::Validating => match e {
            BatchEvent::Validated(Ok(())) => if s.delete {
                batch_go(s, BatchPhase::DescribingFirst, BatchAction::Describe(0))
            } else {
                first_item(s)
            },
            BatchEvent::Validated(Err(error)) => batch_failed(s, BatchFailure::Error(error)),
            _ => batch_failed(s, BatchFailure::OutOfOrder),
        },
        BatchPhase::DescribingFirst => match e {
            BatchEvent::Described(Ok((_, location_name))) => described(s, 0, location_name),
            BatchEvent::Described(Err(error)) => unconfirmed(s, error),
            _ => batch_failed(s, BatchFailure::OutOfOrder),
        },
        BatchPhase::Describing(index, location_name) => match e {
            BatchEvent::Described(Ok(_)) => described(s, index as nat, location_name),
            BatchEvent::Described(Err(error)) => unconfirmed(s, error),
            _ => batch_failed(s, BatchFailure::OutOfOrder),
        },
        BatchPhase::AwaitingDelete => match e {
            BatchEvent::Answered(Ok(response)) => match response {
                FileOperationPromptResponseDto::Confirm => first_item(BatchState { delete_confirmed: true, ..s }),
                FileOperationPromptResponseDto::Cancel => batch_go(s, BatchPhase::Done, BatchAction::Cancel),
                _ => batch_failed(s, BatchFailure::InvalidDeleteAnswer),
            },
            BatchEvent::Answered(Err(error)) => unconfirmed(s, error),
            _ => batch_failed(s, BatchFailure::OutOfOrder),
        },
        BatchPhase::Starting(index) => match e {
            BatchEvent::Started { cancelled } => if cancelled {
                batch_go(s, BatchPhase::Done, BatchAction::Cancel)
            } else {
                batch_go(s, BatchPhase::Running(index), BatchAction::RunItem(index, s.delete_confirmed))
            },
            _ => batch_failed(s, BatchFailure::OutOfOrder),
        },
        BatchPhase::Running(index) => match e {
            BatchEvent::Recorded { finished } => if finished {
                batch_go(s, BatchPhase::Done, BatchAction::Stop)
            } else if index + 1 < s.total {
                batch_go(s, BatchPhase::Starting((index + 1) as usize), BatchAction::StartItem((index + 1) as usize))
            } else {
                batch_go(s, BatchPhase::Done, BatchAction::Finish)
            },
            _ => batch_failed(s, BatchFailure::OutOfOrder),
        },
        BatchPhase::Done => batch_failed(s, BatchFailure::OutOfOrder),
    }
}

impl BatchState {
    /// A batch that has not started, for the sources and action of a request.
    pub fn new(total: usize, action: &FileOperationActionDto) -> (r: BatchState)
        ensures
            r.total == total,
            r.delete == (*action is DeletePermanently),
            !r.delete_confirmed,
            r.phase == BatchPhase::Idle,
    {
        let delete = match action {
            FileOperationActionDto::DeletePermanently {  } => true,
            _ => false,
        };
        BatchState { total, delete, delete_confirmed: false, phase: BatchPhase::Idle }
    }
}

fn batch_advance(s: BatchState, phase: BatchPhase, action: BatchAction) -> (r: (BatchState, BatchAction))
    ensures
        r == batch_go(s, phase, action),
{
    (BatchState { phase, ..s }, action)
}

fn batch_fail(s: BatchState, failure: BatchFailure) -> (r: (BatchState, BatchAction))
    ensures
        r == batch_failed(s, failure),
{
    (BatchState { phase: BatchPhase::Done, ..s }, BatchAction::Fail(failure))
}

fn begin_items(s: BatchState) -> (r: (BatchState, BatchAction))
    ensures
        r == first_item(s),
{
    if s.total == 0 {
        batch_advance(s, BatchPhase::Done, BatchAction::Finish)
    } else {
        batch_advance(s, BatchPhase::Starting(0), BatchAction::StartItem(0))
    }
}

fn not_confirmed(s: BatchState, error: ExplorerError) -> (r: (BatchState, BatchAction))
    ensures
        r == unconfirmed(s, error),
{
    match error {
        ExplorerError::Cancelled => batch_advance(s, BatchPhase::Done, BatchAction::Cancel),
        _ => batch_fail(s, BatchFailure::Error(error)),
    }
}

fn after_description(s: BatchState, index: usize, location_name: String) -> (r: (BatchState, BatchAction))
    ensures
        r == described(s, index as nat, location_name),
{
    if index < s.total && index + 1 < s.total {
        batch_advance(s, BatchPhase::Describing(index + 1, location_name), BatchAction::Describe(index + 1))
    } else {
        let count = s.total;
        batch_advance(s, BatchPhase::AwaitingDelete, BatchAction::PromptDelete { count, location_name })
    }
}

/// Decides the next step of a batch.
pub fn batch_step(state: BatchState, event: BatchEvent) -> (r: (BatchState, BatchAction))
    ensures
        r == batch_next(state, event),
{
    let BatchState { total, delete, delete_confirmed, phase } = state;
    let s = BatchState { total, delete, delete_confirmed, phase: BatchPhase::Done };
    match phase {
        BatchPhase::Idle => match event {
            BatchEvent::Begin => if total == 1 {
                batch_advance(s, BatchPhase::Done, BatchAction::RunSingle)
            } else {
                batch_advance(s, BatchPhase::Validating, BatchAction::Validate)
            },
            _ => batch_fail(s, BatchFailure::OutOfOrder),
        },
        BatchPhase::Validating => match event {
            BatchEvent::Validated(Ok(())) => if delete {
                batch_advance(s, BatchPhase::DescribingFirst, BatchAction::Describe(0))
            } else {
                begin_items(s)
            },
            BatchEvent::Validated(Err(error)) => batch_fail(s, BatchFailure::Error(error)),
            _ => batch_fail(s, BatchFailure::OutOfOrder),
        },
        BatchPhase::DescribingFirst => match event {
            BatchEvent::Described(Ok((_, location_name))) => after_description(s, 0, location_name),
            BatchEvent::Described(Err(error)) => not_confirmed(s, error),
            _ => batch_fail(s, BatchFailure::OutOfOrder),
        },
        BatchPhase::Describing(index, location_name) => match event {
            BatchEvent::Described(Ok(_)) => after_description(s, index, location_name),
            BatchEvent::Described(Err(error)) => not_confirmed(s, error),
            _ => batch_fail(s, BatchFailure::OutOfOrder),
        },
        BatchPhase::AwaitingDelete => match event {
            BatchEvent::Answered(Ok(response)) => match response {
                FileOperationPromptResponseDto::Confirm => begin_items(BatchState { delete_confirmed: true, ..s }),
                FileOperationPromptResponseDto::Cancel => batch_advance(s, BatchPhase::Done, BatchAction::Cancel),
                _ => batch_fail(s, BatchFailure::InvalidDeleteAnswer),
            },
            BatchEvent::Answered(Err(error)) => not_confirmed(s, error),
            _ => batch_fail(s, BatchFailure::OutOfOrder),
        },
        BatchPhase::Starting(index) => match event {
            BatchEvent::Started { cancelled } => if cancelled {
                batch_advance(s, BatchPhase::Done, BatchAction::Cancel)
            } else {
                batch_advance(s, BatchPhase::Running(index), BatchAction::RunItem(index, delete_confirmed))
            },
            _ => batch_fail(s, BatchFailure::OutOfOrder),
        },
        BatchPhase::Running(index) => match event {
            BatchEvent::Recorded { finished } => if finished {
                batch_advance(s, BatchPhase::Done, BatchAction::Stop)
            } else if index < total && index + 1 < total {
                batch_advance(s, BatchPhase::Starting(index + 1), BatchAction::StartItem(index + 1))
            } else {
                batch_advance(s, BatchPhase::Done, BatchAction::Finish)
            },
            _ => batch_fail(s, BatchFailure::OutOfOrder),
        },
        BatchPhase::Done => batch_fail(s, BatchFailure::OutOfOrder),
    }
}

/// What holds of a batch between steps: an item under way lies within the batch, and in a
/// permanent delete the user has confirmed before any item starts.
pub open spec fn batch_inv(s: BatchState) -> bool {
    match s.phase {
        BatchPhase::Starting(index) => index < s.total && (s.delete ==> s.delete_confirmed),
        BatchPhase::Running(index) => index < s.total && (s.delete ==> s.delete_confirmed),
        BatchPhase::Describing(index, _) => index < s.total,
        _ => true,
    }
}

/// Every step keeps the batch's invariant, and an item that is run lies within the batch
/// and, in a permanent delete, runs with the delete confirmed.
pub proof fn lemma_batch_step_keeps(s: BatchState, e: BatchEvent)
    requires
        batch_inv(s),
    ensures
        batch_inv(batch_next(s, e).0),
        batch_next(s, e).1 matches BatchAction::RunItem(index, confirmed) ==> index < s.total && (s.delete ==> confirmed),
        batch_next(s, e).0.total == s.total && batch_next(s, e).0.delete == s.delete,
{
}

/// Items start in order: the first one after the sources were validated (and a delete
/// confirmed), each next one after the previous one was recorded without ending the batch.
pub proof fn lemma_items_in_order(s: BatchState, e: BatchEvent, index: usize)
    ensures
        batch_next(s, e).1 == BatchAction::StartItem(index) ==> (index == 0 && (s.phase == BatchPhase::Validating
            || s.phase == BatchPhase::AwaitingDelete)) || (index > 0 && s.phase == BatchPhase::Running((index - 1) as usize)
            && e == (BatchEvent::Recorded { finished: false })),
{
}

/// How a batch that ended before its items ran is reported.
pub open spec fn batch_failure_reported(f: BatchFailure, e: ExplorerError) -> bool {
    match f {
        BatchFailure::Error(err) => e == err,
        BatchFailure::InvalidDeleteAnswer => e matches ExplorerError::InvalidConfiguration(m) && m@
            == "That response is not valid for permanent deletion."@,
        BatchFailure::OutOfOrder => e == ExplorerError::StateUnavailable,
    }
}

/// The error a batch that ended before its items ran ends with.
pub fn batch_failure_error(failure: BatchFailure) -> (r: ExplorerError)
    ensures
        batch_failure_reported(failure, r),
{
    match failure {
        BatchFailure::Error(err) => err,
        BatchFailure::InvalidDeleteAnswer => ExplorerError::InvalidConfiguration(
            "That response is not valid for permanent deletion.".to_owned(),
        ),
        BatchFailure::OutOfOrder => ExplorerError::StateUnavailable,
    }
}

} // verus!
