use explora::file_operations::{FileOperationActionDto, FileOperationPromptDto, FileOperationPromptResponseDto};
use explora::filesystem::{DirectoryRefDto, ExplorerError};
use explora::operation_plans::{
    batch_delete_prompt, conflict_resolution, delete_confirmation, move_conflict_prompt, move_route,
    permanent_delete_prompt, uses_remote_backend, ConflictResolution, MoveRoute,
};

fn destination(location_id: &str) -> FileOperationActionDto {
    FileOperationActionDto::Move {
        destination: DirectoryRefDto {
            id: "d".to_owned(),
            location_id: location_id.to_owned(),
            name: "D".to_owned(),
            display_path: "/d".to_owned(),
        },
    }
}

#[test]
fn moves_are_routed_by_their_locations() {
    assert_eq!(move_route("home", "home"), MoveRoute::WithinLocal);
    assert_eq!(move_route("home", "volume:usb"), MoveRoute::LocalToLocal);
    assert_eq!(move_route("home", "ssh:server"), MoveRoute::LocalToRemote);
    assert_eq!(move_route("ssh:server", "home"), MoveRoute::RemoteToLocal);
    assert_eq!(move_route("ssh:server", "ssh:other"), MoveRoute::RemoteToRemote);
    assert_eq!(move_route("ssh:server", "ssh:server"), MoveRoute::WithinRemote);
}

#[test]
fn remote_sources_and_remote_destinations_use_the_remote_backend() {
    assert!(uses_remote_backend("ssh:server", &FileOperationActionDto::Trash {}));
    assert!(uses_remote_backend("home", &destination("ssh:server")));
    assert!(!uses_remote_backend("home", &destination("volume:usb")));
    assert!(!uses_remote_backend("home", &FileOperationActionDto::DeletePermanently {}));
}

#[test]
fn permanent_delete_prompts_name_the_item_and_location() {
    let prompt = permanent_delete_prompt("p1".to_owned(), "report.pdf".to_owned(), "Home".to_owned(), false);
    assert_eq!(
        prompt,
        FileOperationPromptDto::PermanentDelete {
            id: "p1".to_owned(),
            title: "Delete “report.pdf” permanently?".to_owned(),
            message: "This item will be removed immediately and cannot be recovered from Trash.".to_owned(),
            target_name: "report.pdf".to_owned(),
            location_name: "Home".to_owned(),
            confirm_label: "Delete Permanently".to_owned(),
        }
    );
    match permanent_delete_prompt("p2".to_owned(), "a".to_owned(), "Server".to_owned(), true) {
        FileOperationPromptDto::PermanentDelete { message, .. } => assert_eq!(
            message,
            "This remote item on Server will be removed immediately. It cannot be recovered from Trash."
        ),
        _ => panic!("a delete prompt"),
    }
}

#[test]
fn batch_delete_prompts_count_the_items() {
    match batch_delete_prompt("p".to_owned(), 3, "Server".to_owned(), true) {
        FileOperationPromptDto::PermanentDelete { title, message, target_name, location_name, .. } => {
            assert_eq!(title, "Delete 3 items permanently?");
            assert_eq!(target_name, "3 selected items");
            assert_eq!(location_name, "Server");
            assert_eq!(
                message,
                "These remote items on Server will be removed immediately. They cannot be recovered from Trash."
            );
        },
        _ => panic!("a delete prompt"),
    }
    match batch_delete_prompt("p".to_owned(), 12, "Home".to_owned(), false) {
        FileOperationPromptDto::PermanentDelete { title, message, .. } => {
            assert_eq!(title, "Delete 12 items permanently?");
            assert_eq!(message, "These items will be removed immediately and cannot be recovered from Trash.");
        },
        _ => panic!("a delete prompt"),
    }
}

#[test]
fn conflict_prompts_offer_keep_both_skip_and_cancel() {
    let prompt = move_conflict_prompt("c".to_owned(), "a.txt".to_owned(), "Docs".to_owned(), MoveRoute::WithinLocal);
    assert_eq!(
        prompt,
        FileOperationPromptDto::MoveConflict {
            id: "c".to_owned(),
            title: "“a.txt” already exists".to_owned(),
            message: "Choose how to handle the existing item in “Docs”. Nothing will be replaced.".to_owned(),
            target_name: "a.txt".to_owned(),
            destination_name: "Docs".to_owned(),
            decisions: vec![
                FileOperationPromptResponseDto::KeepBoth,
                FileOperationPromptResponseDto::Skip,
                FileOperationPromptResponseDto::Cancel,
            ],
        }
    );
    match move_conflict_prompt("c".to_owned(), "a".to_owned(), "srv".to_owned(), MoveRoute::RemoteToRemote) {
        FileOperationPromptDto::MoveConflict { message, .. } => {
            assert_eq!(message, "Choose how to handle the existing remote item in “srv”. Nothing will be replaced.")
        },
        _ => panic!("a conflict prompt"),
    }
}

#[test]
fn answers_mean_what_the_prompt_offered() {
    assert_eq!(delete_confirmation(FileOperationPromptResponseDto::Confirm), Ok(()));
    assert_eq!(delete_confirmation(FileOperationPromptResponseDto::Cancel), Err(ExplorerError::Cancelled));
    assert_eq!(
        delete_confirmation(FileOperationPromptResponseDto::KeepBoth),
        Err(ExplorerError::InvalidConfiguration("That response is not valid for permanent deletion.".to_owned()))
    );
    assert_eq!(conflict_resolution(FileOperationPromptResponseDto::KeepBoth), Ok(ConflictResolution::KeepBoth));
    assert_eq!(conflict_resolution(FileOperationPromptResponseDto::Skip), Ok(ConflictResolution::Skip));
    assert_eq!(conflict_resolution(FileOperationPromptResponseDto::Cancel), Err(ExplorerError::Cancelled));
    assert_eq!(
        conflict_resolution(FileOperationPromptResponseDto::Confirm),
        Err(ExplorerError::InvalidConfiguration("That response is not valid for a move conflict.".to_owned()))
    );
}
