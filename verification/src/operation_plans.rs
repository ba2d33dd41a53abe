//! The decisions a filesystem operation makes between its steps: which backend path a move
//! takes, what the user is asked before a permanent delete or on a name conflict, and what
//! each answer means.

use vstd::prelude::*;

use crate::file_operations::{FileOperationActionDto, FileOperationPromptDto, FileOperationPromptResponseDto};
use crate::filesystem::ExplorerError;
use crate::text::{decimal, decimal_string, starts_with, str_eq, str_starts_with};

verus! {

/// Whether a location is served over SSH.
pub open spec fn is_remote_location(location_id: Seq<char>) -> bool {
    starts_with(location_id, "ssh:"@)
}

/// The way a move is carried out, by where its source and destination are.
#[derive(Debug, Clone, Copy, PartialEq, Eq, Structural)]
pub enum MoveRoute {
    WithinLocal,
    LocalToLocal,
    LocalToRemote,
    RemoteToLocal,
    RemoteToRemote,
    WithinRemote,
}

pub open spec fn route_of(source_location: Seq<char>, destination_location: Seq<char>) -> MoveRoute {
    if is_remote_location(source_location) {
        if destination_location == source_location {
            MoveRoute::WithinRemote
        } else if is_remote_location(destination_location) {
            MoveRoute::RemoteToRemote
        } else {
            MoveRoute::RemoteToLocal
        }
    } else if is_remote_location(destination_location) {
        MoveRoute::LocalToRemote
    } else if destination_location == source_location {
        MoveRoute::WithinLocal
    } else {
        MoveRoute::LocalToLocal
    }
}

/// Chooses how an entry of `source_location` is moved into `destination_location`: inside
/// one location it is renamed in place; across locations it is copied, verified and removed
/// at its source by the backends involved.
pub fn move_route(source_location: &str, destination_location: &str) -> (r: MoveRoute)
    ensures
        r == route_of(source_location@, destination_location@),
{
    let same = str_eq(source_location, destination_location);
    if str_starts_with(source_location, "ssh:") {
        if same {
            MoveRoute::WithinRemote
        } else if str_starts_with(destination_location, "ssh:") {
            MoveRoute::RemoteToRemote
        } else {
            MoveRoute::RemoteToLocal
        }
    } else if str_starts_with(destination_location, "ssh:") {
        MoveRoute::LocalToRemote
    } else if same {
        MoveRoute::WithinLocal
    } else {
        MoveRoute::LocalToLocal
    }
}

pub open spec fn needs_remote_backend(source_location: Seq<char>, action: FileOperationActionDto) -> bool {
    is_remote_location(source_location) || (action matches FileOperationActionDto::Move { destination }
        && is_remote_location(destination.location_id@))
}

/// Whether an operation runs on the asynchronous remote backend: its source is remote, or it
/// moves into a remote location. Every other operation runs on the local filesystem.
pub fn uses_remote_backend(source_location: &str, action: &FileOperationActionDto) -> (r: bool)
    ensures
        r == needs_remote_backend(source_location@, *action),
{
    if str_starts_with(source_location, "ssh:") {
        return true;
    }
    match action {
        FileOperationActionDto::Move { destination } => str_starts_with(destination.location_id.as_str(), "ssh:"),
        _ => false,
    }
}

/// The text of a permanent-delete confirmation for one item.
pub open spec fn single_delete_message(location_name: Seq<char>, remote: bool) -> Seq<char> {
    if remote {
        "This remote item on "@ + location_name + " will be removed immediately. It cannot be recovered from Trash."@
    } else {
        "This item will be removed immediately and cannot be recovered from Trash."@
    }
}

/// The text of a permanent-delete confirmation for several items.
pub open spec fn batch_delete_message(location_name: Seq<char>, remote: bool) -> Seq<char> {
    if remote {
        "These remote items on "@ + location_name
            + " will be removed immediately. They cannot be recovered from Trash."@
    } else {
        "These items will be removed immediately and cannot be recovered from Trash."@
    }
}

pub open spec fn is_delete_prompt(
    p: FileOperationPromptDto,
    id: Seq<char>,
    title: Seq<char>,
    message: Seq<char>,
    target_name: Seq<char>,
    location_name: Seq<char>,
) -> bool {
    p matches FileOperationPromptDto::PermanentDelete { id: i, title: t, message: m, target_name: n, location_name: l, confirm_label: c }
        && i@ == id && t@ == title && m@ == message && n@ == target_name && l@ == location_name
        && c@ == "Delete Permanently"@
}

/// Asks before deleting one item for good; the remote form names the host's location.
pub fn permanent_delete_prompt(id: String, target_name: String, location_name: String, remote: bool) -> (r:
    FileOperationPromptDto)
    ensures
        is_delete_prompt(r, id@, "Delete “"@ + target_name@ + "” permanently?"@, single_delete_message(location_name@, remote),
            target_name@, location_name@),
{
    let title = "Delete “".to_owned().concat(target_name.as_str()).concat("” permanently?");
    let message = if remote {
        "This remote item on ".to_owned().concat(location_name.as_str()).concat(
            " will be removed immediately. It cannot be recovered from Trash.",
        )
    } else {
        "This item will be removed immediately and cannot be recovered from Trash.".to_owned()
    };
    FileOperationPromptDto::PermanentDelete {
        id,
        title,
        message,
        target_name,
        location_name,
        confirm_label: "Delete Permanently".to_owned(),
    }
}

/// Asks once before deleting `count` items for good.
pub fn batch_delete_prompt(id: String, count: usize, location_name: String, remote: bool) -> (r: FileOperationPromptDto)
    ensures
        is_delete_prompt(r, id@, "Delete "@ + decimal(count as nat) + " items permanently?"@, batch_delete_message(
            location_name@,
            remote,
        ), decimal(count as nat) + " selected items"@, location_name@),
{
    let n = decimal_string(count as u64);
    let title = "Delete ".to_owned().concat(n.as_str()).concat(" items permanently?");
    let target_name = n.concat(" selected items");
    let message = if remote {
        "These remote items on ".to_owned().concat(location_name.as_str()).concat(
            " will be removed immediately. They cannot be recovered from Trash.",
        )
    } else {
        "These items will be removed immediately and cannot be recovered from Trash.".to_owned()
    };
    FileOperationPromptDto::PermanentDelete {
        id,
        title,
        message,
        target_name,
        location_name,
        confirm_label: "Delete Permanently".to_owned(),
    }
}

/// Whether a conflict's message speaks of a remote item: when the existing item sits on an
/// SSH host and the move stays on SSH.
pub open spec fn conflict_is_remote(route: MoveRoute) -> bool {
    route == MoveRoute::RemoteToRemote || route == MoveRoute::WithinRemote
}

pub open spec fn conflict_message(destination_name: Seq<char>, route: MoveRoute) -> Seq<char> {
    if conflict_is_remote(route) {
        "Choose how to handle the existing remote item in “"@ + destination_name + "”. Nothing will be replaced."@
    } else {
        "Choose how to handle the existing item in “"@ + destination_name + "”. Nothing will be replaced."@
    }
}

/// The answers a name conflict offers, in the order they are shown.
pub open spec fn conflict_decisions() -> Seq<FileOperationPromptResponseDto> {
    seq![FileOperationPromptResponseDto::KeepBoth, FileOperationPromptResponseDto::Skip, FileOperationPromptResponseDto::Cancel]
}

/// Asks what to do when the destination already holds an item of the same name. Nothing is
/// ever replaced: the answers are to keep both, skip the item, or cancel.
pub fn move_conflict_prompt(id: String, target_name: String, destination_name: String, route: MoveRoute) -> (r:
    FileOperationPromptDto)
    ensures
        r matches FileOperationPromptDto::MoveConflict { id: i, title: t, message: m, target_name: n, destination_name: d, decisions }
            && i@ == id@ && t@ == "“"@ + target_name@ + "” already exists"@ && m@ == conflict_message(destination_name@, route)
            && n@ == target_name@ && d@ == destination_name@ && decisions@ == conflict_decisions(),
{
    let title = "“".to_owned().concat(target_name.as_str()).concat("” already exists");
    let remote = match route {
        MoveRoute::RemoteToRemote | MoveRoute::WithinRemote => true,
        _ => false,
    };
    let message = if remote {
        "Choose how to handle the existing remote item in “".to_owned().concat(destination_name.as_str()).concat(
            "”. Nothing will be replaced.",
        )
    } else {
        "Choose how to handle the existing item in “".to_owned().concat(destination_name.as_str()).concat(
            "”. Nothing will be replaced.",
        )
    };
    let decisions = vec![
        FileOperationPromptResponseDto::KeepBoth,
        FileOperationPromptResponseDto::Skip,
        FileOperationPromptResponseDto::Cancel,
    ];
    FileOperationPromptDto::MoveConflict { id, title, message, target_name, destination_name, decisions }
}

/// What a permanent-delete confirmation was answered: only a confirmation goes ahead.
pub fn delete_confirmation(response: FileOperationPromptResponseDto) -> (r: Result<(), ExplorerError>)
    ensures
        response == FileOperationPromptResponseDto::Confirm ==> r == Ok::<(), ExplorerError>(()),
        response == FileOperationPromptResponseDto::Cancel ==> r == Err::<(), ExplorerError>(ExplorerError::Cancelled),
        (response == FileOperationPromptResponseDto::KeepBoth || response == FileOperationPromptResponseDto::Skip) ==> (r
            matches Err(ExplorerError::InvalidConfiguration(m)) && m@ == "That response is not valid for permanent deletion."@),
{
    match response {
        FileOperationPromptResponseDto::Confirm => Ok(()),
        FileOperationPromptResponseDto::Cancel => Err(ExplorerError::Cancelled),
        FileOperationPromptResponseDto::KeepBoth | FileOperationPromptResponseDto::Skip => Err(
            ExplorerError::InvalidConfiguration("That response is not valid for permanent deletion.".to_owned()),
        ),
    }
}

/// How a name conflict is resolved.
#[derive(Debug, Clone, Copy, PartialEq, Eq, Structural)]
pub enum ConflictResolution {
    /// Move again, giving the moved item a free name.
    KeepBoth,
    /// Leave the source where it is and report it as skipped.
    Skip,
}

/// What a name-conflict prompt was answered.
pub fn conflict_resolution(response: FileOperationPromptResponseDto) -> (r: Result<ConflictResolution, ExplorerError>)
    ensures
        response == FileOperationPromptResponseDto::KeepBoth ==> r == Ok::<ConflictResolution, ExplorerError>(
            ConflictResolution::KeepBoth),
        response == FileOperationPromptResponseDto::Skip ==> r == Ok::<ConflictResolution, ExplorerError>(
            ConflictResolution::Skip),
        response == FileOperationPromptResponseDto::Cancel ==> r == Err::<ConflictResolution, ExplorerError>(
            ExplorerError::Cancelled),
        response == FileOperationPromptResponseDto::Confirm ==> (r matches Err(ExplorerError::InvalidConfiguration(m))
            && m@ == "That response is not valid for a move conflict."@),
{
    match response {
        FileOperationPromptResponseDto::KeepBoth => Ok(ConflictResolution::KeepBoth),
        FileOperationPromptResponseDto::Skip => Ok(ConflictResolution::Skip),
        FileOperationPromptResponseDto::Cancel => Err(ExplorerError::Cancelled),
        FileOperationPromptResponseDto::Confirm => Err(
            ExplorerError::InvalidConfiguration("That response is not valid for a move conflict.".to_owned()),
        ),
    }
}

/// A conflict prompt offers every answer but a confirmation.
pub proof fn lemma_conflict_decisions_resolve(response: FileOperationPromptResponseDto)
    ensures
        conflict_decisions().contains(response) <==> response != FileOperationPromptResponseDto::Confirm,
{
    if response != FileOperationPromptResponseDto::Confirm {
        let k: int = match response {
            FileOperationPromptResponseDto::KeepBoth => 0,
            FileOperationPromptResponseDto::Skip => 1,
            _ => 2,
        };
        assert(conflict_decisions()[k] == response);
    }
}

} // verus!
