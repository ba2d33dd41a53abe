//! The decisions of running a filesystem operation on one item, as a state machine: the
//! host performs each action on the local or the remote backend, asks the user where it is
//! told to, and hands back what happened; this module decides what comes next. A move that
//! meets an existing name asks whether to keep both, skip or cancel; a permanent delete is
//! confirmed first unless a batch already confirmed it.

use vstd::prelude::*;

use crate::file_operations::{FileOperationActionDto, FileOperationOutcomeDto, FileOperationPromptResponseDto};
use crate::filesystem::{EntryRefDto, ExplorerError};
use crate::operation_plans::{is_remote_location, move_route, route_of, MoveRoute};
use crate::text::{str_eq, str_starts_with};

verus! {

/// How a move treats an existing item of the same name at its destination.
#[derive(Debug, Clone, Copy, PartialEq, Eq, Structural)]
pub enum MovePolicy {
    /// Refuse the move with a conflict.
    Fail,
    /// Give the moved item a free name.
    KeepBoth,
}

/// Where the run of one item stands.
#[derive(Debug, Clone, PartialEq, Eq)]
pub enum SinglePhase {
    Idle,
    /// A backend call is under way whose result ends the run.
    Working,
    /// A move that refuses to replace is under way; a conflict is asked about.
    Moving,
    /// The conflicting names are being described.
    DescribingConflict,
    /// The user is asked about a conflict on the item of this name.
    AwaitingConflict(String),
    /// The user chose to keep both; the host reports that the run goes on.
    ProceedingToKeepBoth,
    /// The item to delete is being described.
    DescribingDelete,
    /// The user is asked to confirm a permanent delete.
    AwaitingDelete,
    /// The delete was confirmed; the host reports that the run goes on.
    ProceedingToDelete,
    Done,
}

/// The run of one operation on one source.
pub struct SingleRun {
    /// Whether the source lives on an SSH location.
    pub remote: bool,
    /// Whether a batch already confirmed a permanent delete.
    pub delete_confirmed: bool,
    pub source: EntryRefDto,
    pub action: FileOperationActionDto,
    pub phase: SinglePhase,
}

/// What the host reports after performing an action.
pub enum SingleEvent {
    /// The run starts; whether the operation was already cancelled.
    Begin { cancelled: bool },
    /// What a backend call returned, turned into an outcome.
    Finished(Result<FileOperationOutcomeDto, ExplorerError>),
    /// The two names a description gave: the item and its destination, or the item and its location.
    Described(Result<(String, String), ExplorerError>),
    /// The user's answer to a prompt, or why none came.
    Answered(Result<FileOperationPromptResponseDto, ExplorerError>),
    /// Whether the operation was cancelled when the host reported that it goes on.
    Checked { cancelled: bool },
}

/// Why a run ended without an outcome.
#[derive(Debug, Clone, PartialEq, Eq)]
pub enum SingleFailure {
    Cancelled,
    Error(ExplorerError),
    InvalidConflictAnswer,
    InvalidDeleteAnswer,
    RemoteTrash,
    OutOfOrder,
}

/// What the host does next.
pub enum SingleAction {
    /// Rename the source to the new name of the request.
    Rename,
    /// Copy the source across locations, verify it and remove it at its source.
    Transfer(MoveRoute),
    Move(MovePolicy),
    Trash,
    /// Describe the source and the destination of the conflicting move.
    DescribeConflict,
    /// Ask the user how to resolve the conflict.
    PromptConflict { target_name: String, destination_name: String },
    /// Describe the source and its location before a permanent delete.
    DescribeDeleteTarget,
    /// Ask the user to confirm the permanent delete.
    PromptDelete { target_name: String, location_name: String },
    Delete,
    /// Report that the operation is running, then whether it was cancelled.
    Proceed,
    Complete(FileOperationOutcomeDto),
    Fail(SingleFailure),
}

/// The next action, and whether the host reports first that the operation is running.
pub struct SingleCommand {
    pub announce_running: bool,
    pub action: SingleAction,
}

pub open spec fn go(s: SingleRun, phase: SinglePhase, announce_running: bool, action: SingleAction) -> (
    SingleRun,
    SingleCommand,
) {
    (SingleRun { phase, ..s }, SingleCommand { announce_running, action })
}

pub open spec fn ended(s: SingleRun, failure: SingleFailure) -> (SingleRun, SingleCommand) {
    go(s, SinglePhase::Done, false, SingleAction::Fail(failure))
}

pub open spec fn settled(s: SingleRun, result: Result<FileOperationOutcomeDto, ExplorerError>) -> (SingleRun, SingleCommand) {
    match result {
        Ok(outcome) => go(s, SinglePhase::Done, false, SingleAction::Complete(outcome)),
        Err(error) => ended(s, SingleFailure::Error(error)),
    }
}

/// Whether a move into `destination_location` copies across locations: always when the
/// locations differ on the remote backend; on the local backend only into another local
/// location.
pub open spec fn transfers(s: SingleRun, destination_location: Seq<char>) -> bool {
    destination_location != s.source.location_id@ && (s.remote || !is_remote_location(destination_location))
}

/// The first action of a run that was not cancelled.
pub open spec fn started(s: SingleRun) -> (SingleRun, SingleCommand) {
    match s.action {
        FileOperationActionDto::Rename { .. } => go(s, SinglePhase::Working, true, SingleAction::Rename),
        FileOperationActionDto::Move { destination } => if transfers(s, destination.location_id@) {
            go(
                s,
                SinglePhase::Working,
                true,
                SingleAction::Transfer(route_of(s.source.location_id@, destination.location_id@)),
            )
        } else {
            go(s, SinglePhase::Moving, true, SingleAction::Move(MovePolicy::Fail))
        },
        FileOperationActionDto::Trash {  } => if s.remote {
            go(s, SinglePhase::Done, true, SingleAction::Fail(SingleFailure::RemoteTrash))
        } else {
            go(s, SinglePhase::Working, true, SingleAction::Trash)
        },
        FileOperationActionDto::DeletePermanently {  } => if s.delete_confirmed {
            go(s, SinglePhase::ProceedingToDelete, true, SingleAction::Proceed)
        } else {
            go(s, SinglePhase::DescribingDelete, true, SingleAction::DescribeDeleteTarget)
        },
    }
}

/// The next state and command of a run. A cancelled operation does not start. A move first
/// refuses to replace; on a conflict the names are described and the user is asked: keeping
/// both moves again under a free name, skipping reports the source as skipped, and a
/// confirmation is no answer to a conflict. A permanent delete is confirmed first, unless
/// confirmed already, and only a confirmation goes ahead. Any other event, and any event
/// after the end, ends the run as out of order.
pub open spec fn single_next(s: SingleRun, e: SingleEvent) -> (SingleRun, SingleCommand) {
    match s.phase {
        SinglePhase::Idle => match e {
            SingleEvent::Begin { cancelled } => if cancelled {
                ended(s, SingleFailure::Cancelled)
            } else {
                started(s)
            },
            _ => ended(s, SingleFailure::OutOfOrder),
        },
        SinglePhase::Working => match e {
            SingleEvent::Finished(result) => settled(s, result),
            _ => ended(s, SingleFailure::OutOfOrder),
        },
        SinglePhase::Moving => match e {
            SingleEvent::Finished(result) => if result == Err::<FileOperationOutcomeDto, ExplorerError>(
                ExplorerError::Conflict,
            ) {
                go(s, SinglePhase::DescribingConflict, false, SingleAction::DescribeConflict)
            } else {
                settled(s, result)
            },
            _ => ended(s, SingleFailure::OutOfOrder),
        },
        SinglePhase::DescribingConflict => match e {
            SingleEvent::Described(Ok((target_name, destination_name))) => go(
                s,
                SinglePhase::AwaitingConflict(target_name),
                false,
                SingleAction::PromptConflict { target_name, destination_name },
            ),
            SingleEvent::Described(Err(error)) => ended(s, SingleFailure::Error(error)),
            _ => ended(s, SingleFailure::OutOfOrder),
        },
        SinglePhase::AwaitingConflict(target_name) => match e {
            SingleEvent::Answered(Ok(response)) => match response {
                FileOperationPromptResponseDto::KeepBoth => go(s, SinglePhase::ProceedingToKeepBoth, false, SingleAction::Proceed),
                FileOperationPromptResponseDto::Skip => go(
                    s,
                    SinglePhase::Done,
                    true,
                    SingleAction::Complete(FileOperationOutcomeDto::MoveSkipped { entry: s.source, name: target_name }),
                ),
                FileOperationPromptResponseDto::Cancel => ended(s, SingleFailure::Cancelled),
                FileOperationPromptResponseDto::Confirm => ended(s, SingleFailure::InvalidConflictAnswer),
            },
            SingleEvent::Answered(Err(error)) => ended(s, SingleFailure::Error(error)),
            _ => ended(s, SingleFailure::OutOfOrder),
        },
        SinglePhase::ProceedingToKeepBoth => match e {
            SingleEvent::Checked { cancelled } => if cancelled {
                ended(s, SingleFailure::Cancelled)
            } else {
                go(s, SinglePhase::Working, false, SingleAction::Move(MovePolicy::KeepBoth))
            },
            _ => ended(s, SingleFailure::OutOfOrder),
        },
        SinglePhase::DescribingDelete => match e {
            SingleEvent::Described(Ok((target_name, location_name))) => go(
                s,
                SinglePhase::AwaitingDelete,
                false,
                SingleAction::PromptDelete { target_name, location_name },
            ),
            SingleEvent::Described(Err(error)) => ended(s, SingleFailure::Error(error)),
            _ => ended(s, SingleFailure::OutOfOrder),
        },
        SinglePhase::AwaitingDelete => match e {
            SingleEvent::Answered(Ok(response)) => match response {
                FileOperationPromptResponseDto::Confirm => go(s, SinglePhase::ProceedingToDelete, false, SingleAction::Proceed),
                FileOperationPromptResponseDto::Cancel => ended(s, SingleFailure::Cancelled),
                _ => ended(s, SingleFailure::InvalidDeleteAnswer),
            },
            SingleEvent::Answered(Err(error)) => ended(s, SingleFailure::Error(error)),
            _ => ended(s, SingleFailure::OutOfOrder),
        },
        SinglePhase::ProceedingToDelete => match e {
            SingleEvent::Checked { cancelled } => if cancelled {
                ended(s, SingleFailure::Cancelled)
            } else {
                go(s, SinglePhase::Working, false, SingleAction::Delete)
            },
            _ => ended(s, SingleFailure::OutOfOrder),
        },
        SinglePhase::Done => ended(s, SingleFailure::OutOfOrder),
    }
}

fn copy_source(e: &EntryRefDto) -> (r: EntryRefDto)
    ensures
        r == *e,
{
    EntryRefDto { id: e.id.clone(), location_id: e.location_id.clone() }
}

fn is_conflict(result: &Result<FileOperationOutcomeDto, ExplorerError>) -> (r: bool)
    ensures
        r == (*result == Err::<FileOperationOutcomeDto, ExplorerError>(ExplorerError::Conflict)),
{
    match result {
        Err(ExplorerError::Conflict) => true,
        _ => false,
    }
}

fn settle(s: SingleRun, result: Result<FileOperationOutcomeDto, ExplorerError>) -> (r: (SingleRun, SingleCommand))
    ensures
        r == settled(s, result),
{
    let done = SingleRun { phase: SinglePhase::Done, ..s };
    match result {
        Ok(outcome) => (done, SingleCommand { announce_running: false, action: SingleAction::Complete(outcome) }),
        Err(error) => (done, SingleCommand { announce_running: false, action: SingleAction::Fail(SingleFailure::Error(error)) }),
    }
}

fn start(s: SingleRun) -> (r: (SingleRun, SingleCommand))
    ensures
        r == started(s),
{
    let command = match &s.action {
        FileOperationActionDto::Rename { .. } => (SinglePhase::Working, SingleAction::Rename),
        FileOperationActionDto::Move { destination } => {
            let to = destination.location_id.as_str();
            let from = s.source.location_id.as_str();
            if !str_eq(to, from) && (s.remote || !str_starts_with(to, "ssh:")) {
                (SinglePhase::Working, SingleAction::Transfer(move_route(from, to)))
            } else {
                (SinglePhase::Moving, SingleAction::Move(MovePolicy::Fail))
            }
        },
        FileOperationActionDto::Trash {  } => if s.remote {
            (SinglePhase::Done, SingleAction::Fail(SingleFailure::RemoteTrash))
        } else {
            (SinglePhase::Working, SingleAction::Trash)
        },
        FileOperationActionDto::DeletePermanently {  } => if s.delete_confirmed {
            (SinglePhase::ProceedingToDelete, SingleAction::Proceed)
        } else {
            (SinglePhase::DescribingDelete, SingleAction::DescribeDeleteTarget)
        },
    };
    let (phase, action) = command;
    (SingleRun { phase, ..s }, SingleCommand { announce_running: true, action })
}

fn fail_run(s: SingleRun, failure: SingleFailure) -> (r: (SingleRun, SingleCommand))
    ensures
        r == (SingleRun { phase: SinglePhase::Done, ..s }, SingleCommand {
            announce_running: false,
            action: SingleAction::Fail(failure),
        }),
{
    (SingleRun { phase: SinglePhase::Done, ..s }, SingleCommand { announce_running: false, action: SingleAction::Fail(failure) })
}

fn advance(s: SingleRun, phase: SinglePhase, announce_running: bool, action: SingleAction) -> (r: (SingleRun, SingleCommand))
    ensures
        r == go(s, phase, announce_running, action),
{
    (SingleRun { phase, ..s }, SingleCommand { announce_running, action })
}

/// Decides the next step of the run of one item.
pub fn single_step(state: SingleRun, event: SingleEvent) -> (r: (SingleRun, SingleCommand))
    ensures
        r == single_next(state, event),
{
    let SingleRun { remote, delete_confirmed, source, action, phase } = state;
    let s = SingleRun { remote, delete_confirmed, source, action, phase: SinglePhase::Done };
    match phase {
        SinglePhase::Idle => match event {
            SingleEvent::Begin { cancelled } => if cancelled {
                fail_run(s, SingleFailure::Cancelled)
            } else {
                start(SingleRun { phase: SinglePhase::Idle, ..s })
            },
            _ => fail_run(s, SingleFailure::OutOfOrder),
        },
        SinglePhase::Working => match event {
            SingleEvent::Finished(result) => settle(s, result),
            _ => fail_run(s, SingleFailure::OutOfOrder),
        },
        SinglePhase::Moving => match event {
            SingleEvent::Finished(result) => if is_conflict(&result) {
                advance(s, SinglePhase::DescribingConflict, false, SingleAction::DescribeConflict)
            } else {
                settle(s, result)
            },
            _ => fail_run(s, SingleFailure::OutOfOrder),
        },
        SinglePhase::DescribingConflict => match event {
            SingleEvent::Described(Ok((target_name, destination_name))) => {
                let kept = target_name.clone();
                advance(
                    s,
                    SinglePhase::AwaitingConflict(kept),
                    false,
                    SingleAction::PromptConflict { target_name, destination_name },
                )
            },
            SingleEvent::Described(Err(error)) => fail_run(s, SingleFailure::Error(error)),
            _ => fail_run(s, SingleFailure::OutOfOrder),
        },
        SinglePhase::AwaitingConflict(target_name) => match event {
            SingleEvent::Answered(Ok(response)) => match response {
                FileOperationPromptResponseDto::KeepBoth => advance(s, SinglePhase::ProceedingToKeepBoth, false, SingleAction::Proceed),
                FileOperationPromptResponseDto::Skip => {
                    let entry = copy_source(&s.source);
                    advance(
                        s,
                        SinglePhase::Done,
                        true,
                        SingleAction::Complete(FileOperationOutcomeDto::MoveSkipped { entry, name: target_name }),
                    )
                },
                FileOperationPromptResponseDto::Cancel => fail_run(s, SingleFailure::Cancelled),
                FileOperationPromptResponseDto::Confirm => fail_run(s, SingleFailure::InvalidConflictAnswer),
            },
            SingleEvent::Answered(Err(error)) => fail_run(s, SingleFailure::Error(error)),
            _ => fail_run(s, SingleFailure::OutOfOrder),
        },
        SinglePhase::ProceedingToKeepBoth => match event {
            SingleEvent::Checked { cancelled } => if cancelled {
                fail_run(s, SingleFailure::Cancelled)
            } else {
                advance(s, SinglePhase::Working, false, SingleAction::Move(MovePolicy::KeepBoth))
            },
            _ => fail_run(s, SingleFailure::OutOfOrder),
        },
        SinglePhase::DescribingDelete => match event {
            SingleEvent::Described(Ok((target_name, location_name))) => advance(
                s,
                SinglePhase::AwaitingDelete,
                false,
                SingleAction::PromptDelete { target_name, location_name },
            ),
            SingleEvent::Described(Err(error)) => fail_run(s, SingleFailure::Error(error)),
            _ => fail_run(s, SingleFailure::OutOfOrder),
        },
        SinglePhase::AwaitingDelete => match event {
            SingleEvent::Answered(Ok(response)) => match response {
                FileOperationPromptResponseDto::Confirm => advance(s, SinglePhase::ProceedingToDelete, false, SingleAction::Proceed),
                FileOperationPromptResponseDto::Cancel => fail_run(s, SingleFailure::Cancelled),
                _ => fail_run(s, SingleFailure::InvalidDeleteAnswer),
            },
            SingleEvent::Answered(Err(error)) => fail_run(s, SingleFailure::Error(error)),
            _ => fail_run(s, SingleFailure::OutOfOrder),
        },
        SinglePhase::ProceedingToDelete => match event {
            SingleEvent::Checked { cancelled } => if cancelled {
                fail_run(s, SingleFailure::Cancelled)
            } else {
                advance(s, SinglePhase::Working, false, SingleAction::Delete)
            },
            _ => fail_run(s, SingleFailure::OutOfOrder),
        },
        SinglePhase::Done => fail_run(s, SingleFailure::OutOfOrder),
    }
}

/// A permanent delete is only carried out after the host reported that the run goes on,
/// and the run only goes on to a delete on a confirmation by the user or when a batch
/// confirmed the delete before.
pub proof fn lemma_delete_needs_confirmation(s: SingleRun, e: SingleEvent)
    ensures
        single_next(s, e).1.action is Delete ==> s.phase == SinglePhase::ProceedingToDelete
            && e == (SingleEvent::Checked { cancelled: false }),
        single_next(s, e).0.phase == SinglePhase::ProceedingToDelete ==> (s.phase == SinglePhase::AwaitingDelete && e
            == SingleEvent::Answered(Ok::<FileOperationPromptResponseDto, ExplorerError>(
            FileOperationPromptResponseDto::Confirm))) || (s.phase == SinglePhase::Idle && s.delete_confirmed
            && s.action is DeletePermanently),
{
}

/// A move never replaces an existing item: it first refuses a conflict, and moves under a
/// free name only when the user chose to keep both and the run was not cancelled since.
pub proof fn lemma_keep_both_needs_answer(s: SingleRun, e: SingleEvent)
    ensures
        single_next(s, e).1.action == SingleAction::Move(MovePolicy::KeepBoth) ==> s.phase
            == SinglePhase::ProceedingToKeepBoth && e == (SingleEvent::Checked { cancelled: false }),
        single_next(s, e).0.phase == SinglePhase::ProceedingToKeepBoth ==> s.phase is AwaitingConflict && e
            == SingleEvent::Answered(Ok::<FileOperationPromptResponseDto, ExplorerError>(
            FileOperationPromptResponseDto::KeepBoth)),
{
}

/// How a run that ended without an outcome is reported.
pub open spec fn single_failure_reported(f: SingleFailure, e: ExplorerError) -> bool {
    match f {
        SingleFailure::Cancelled => e == ExplorerError::Cancelled,
        SingleFailure::Error(err) => e == err,
        SingleFailure::InvalidConflictAnswer => e matches ExplorerError::InvalidConfiguration(m) && m@
            == "That response is not valid for a move conflict."@,
        SingleFailure::InvalidDeleteAnswer => e matches ExplorerError::InvalidConfiguration(m) && m@
            == "That response is not valid for permanent deletion."@,
        SingleFailure::RemoteTrash => e matches ExplorerError::Unsupported(m) && m@
            == "Remote items cannot be moved to the local operating-system Trash."@,
        SingleFailure::OutOfOrder => e == ExplorerError::StateUnavailable,
    }
}

/// The error a run of one item ends with.
pub fn single_failure_error(failure: SingleFailure) -> (r: ExplorerError)
    ensures
        single_failure_reported(failure, r),
{
    match failure {
        SingleFailure::Cancelled => ExplorerError::Cancelled,
        SingleFailure::Error(err) => err,
        SingleFailure::InvalidConflictAnswer => ExplorerError::InvalidConfiguration(
            "That response is not valid for a move conflict.".to_owned(),
        ),
        SingleFailure::InvalidDeleteAnswer => ExplorerError::InvalidConfiguration(
            "That response is not valid for permanent deletion.".to_owned(),
        ),
        SingleFailure::RemoteTrash => ExplorerError::Unsupported(
            "Remote items cannot be moved to the local operating-system Trash.".to_owned(),
        ),
        SingleFailure::OutOfOrder => ExplorerError::StateUnavailable,
    }
}

} // verus!
