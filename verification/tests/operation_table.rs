use explora::file_operations::{
    FileOperationActionDto, FileOperationEventDto, FileOperationKindDto, FileOperationPromptResponseDto,
    FileOperationRequestDto,
};
use explora::filesystem::{EntryRefDto, ExplorerError};
use explora::operation_table::ActiveOperations;

fn trash_request(count: usize) -> FileOperationRequestDto {
    FileOperationRequestDto {
        sources: (0..count)
            .map(|i| EntryRefDto { id: format!("entry-{i}"), location_id: "home".to_owned() })
            .collect(),
        action: FileOperationActionDto::Trash {},
    }
}

#[test]
fn starting_an_operation_queues_it_under_a_fresh_id() {
    let mut table = ActiveOperations::new();
    let (id, event) = table.start(&trash_request(2)).expect("valid request");
    assert_eq!(id.len(), 36);
    match event {
        FileOperationEventDto::Queued { operation_id, sequence, action, total_items, completed_items, .. } => {
            assert_eq!(operation_id, id);
            assert_eq!(sequence, 0);
            assert_eq!(action, FileOperationKindDto::Trash);
            assert_eq!(total_items, 2);
            assert_eq!(completed_items, 0);
        }
        other => panic!("unexpected {other:?}"),
    }
    assert!(!table.is_cancelled(&id));
}

#[test]
fn an_invalid_request_starts_nothing() {
    let mut table = ActiveOperations::new();
    assert!(matches!(table.start(&trash_request(0)), Err(ExplorerError::InvalidConfiguration(_))));
}

#[test]
fn answers_to_unknown_operations_or_prompts_are_refused() {
    let mut table = ActiveOperations::new();
    assert_eq!(
        table.respond("missing", "prompt", FileOperationPromptResponseDto::Confirm),
        Err(ExplorerError::InvalidReference)
    );
    let (id, _) = table.start(&trash_request(1)).expect("valid request");
    assert_eq!(table.respond(&id, "prompt", FileOperationPromptResponseDto::Confirm), Err(ExplorerError::InvalidReference));
    let prompt = table
        .begin_prompt(&id, vec![FileOperationPromptResponseDto::Confirm, FileOperationPromptResponseDto::Cancel])
        .expect("prompt");
    assert_eq!(table.respond(&id, "other", FileOperationPromptResponseDto::Confirm), Err(ExplorerError::InvalidReference));
    assert!(matches!(
        table.respond(&id, &prompt, FileOperationPromptResponseDto::Skip),
        Err(ExplorerError::InvalidConfiguration(_))
    ));
}

#[test]
fn an_answer_is_accepted_once() {
    let mut table = ActiveOperations::new();
    let (id, _) = table.start(&trash_request(1)).expect("valid request");
    let prompt = table
        .begin_prompt(&id, vec![FileOperationPromptResponseDto::Confirm, FileOperationPromptResponseDto::Cancel])
        .expect("prompt");
    assert_eq!(table.begin_prompt(&id, vec![]), Err(ExplorerError::StateUnavailable));
    assert_eq!(table.respond(&id, &prompt, FileOperationPromptResponseDto::Confirm), Ok(FileOperationPromptResponseDto::Confirm));
    assert_eq!(table.respond(&id, &prompt, FileOperationPromptResponseDto::Confirm), Err(ExplorerError::InvalidReference));
}

#[test]
fn cancelling_and_finishing_operations() {
    let mut table = ActiveOperations::new();
    let (id, _) = table.start(&trash_request(1)).expect("valid request");
    assert_eq!(table.cancel(&id), Ok(()));
    assert!(table.is_cancelled(&id));
    assert_eq!(table.cancel("missing"), Ok(()));
    table.finish(&id);
    assert!(table.is_cancelled(&id));
    assert_eq!(table.begin_prompt(&id, vec![]), Err(ExplorerError::InvalidReference));
}
