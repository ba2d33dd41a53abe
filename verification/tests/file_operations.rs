use explora::file_operations::{
    partial_batch_error, queued_event, remote_relative_to_local, should_stop_batch, single_source_request,
    trashed_outcome, validate_request, ActiveOperation, BatchRun, BatchStep, FileOperationActionDto,
    FileOperationBatchItemDto, FileOperationBatchStatusDto, FileOperationEventDto, FileOperationKindDto,
    FileOperationOutcomeDto, FileOperationPromptResponseDto, FileOperationRequestDto, OperationEventEmitter,
    OperationTerminal, RemovedLocalEntry,
};
use explora::filesystem::{DirectoryRefDto, EntryRefDto, ExplorerError, ExplorerErrorCode, IoErrorKind};

fn entry(id: &str, location_id: &str) -> EntryRefDto {
    EntryRefDto { id: id.to_owned(), location_id: location_id.to_owned() }
}

fn request(sources: Vec<EntryRefDto>, action: FileOperationActionDto) -> FileOperationRequestDto {
    FileOperationRequestDto { sources, action }
}

#[test]
fn request_rejects_unknown_fields_and_preserves_typed_actions() {
    let duplicate = request(vec![entry("entry", "home"), entry("entry", "home")], FileOperationActionDto::Trash {});
    assert!(matches!(validate_request(&duplicate), Err(ExplorerError::InvalidConfiguration(_))));

    let mixed = request(vec![entry("first", "home"), entry("second", "ssh:server")], FileOperationActionDto::Trash {});
    assert!(matches!(validate_request(&mixed), Err(ExplorerError::InvalidConfiguration(_))));

    let batch_rename = request(
        vec![entry("first", "home"), entry("second", "home")],
        FileOperationActionDto::Rename { new_name: "renamed".to_owned() },
    );
    assert_eq!(
        validate_request(&batch_rename),
        Err(ExplorerError::InvalidConfiguration("Rename requires exactly one selected item.".to_owned()))
    );
}

#[test]
fn well_formed_requests_are_accepted() {
    let rename = request(vec![entry("entry", "home")], FileOperationActionDto::Rename { new_name: "renamed.txt".to_owned() });
    assert_eq!(validate_request(&rename), Ok(()));
    assert_eq!(rename.action.kind(), FileOperationKindDto::Rename);
    let delete = request(vec![entry("a", "home"), entry("b", "home")], FileOperationActionDto::DeletePermanently {});
    assert_eq!(validate_request(&delete), Ok(()));
    let move_request = request(
        vec![entry("a", "home")],
        FileOperationActionDto::Move {
            destination: DirectoryRefDto {
                id: "folder".to_owned(),
                location_id: "home".to_owned(),
                name: "Folder".to_owned(),
                display_path: "/untrusted/presentation".to_owned(),
            },
        },
    );
    assert_eq!(validate_request(&move_request), Ok(()));
    assert_eq!(move_request.action.kind(), FileOperationKindDto::Move);
}

#[test]
fn source_counts_and_references_are_bounded() {
    let empty = request(Vec::new(), FileOperationActionDto::Trash {});
    assert_eq!(
        validate_request(&empty),
        Err(ExplorerError::InvalidConfiguration("Filesystem actions require between 1 and 1000 selected items.".to_owned()))
    );
    let too_many = request((0..1001).map(|i| entry(&format!("e{i}"), "home")).collect(), FileOperationActionDto::Trash {});
    assert!(validate_request(&too_many).is_err());
    let bad_reference = request(vec![entry("", "home")], FileOperationActionDto::Trash {});
    assert_eq!(validate_request(&bad_reference), Err(ExplorerError::InvalidReference));
    let bad_destination = request(
        vec![entry("a", "home")],
        FileOperationActionDto::Move {
            destination: DirectoryRefDto {
                id: String::new(),
                location_id: "home".to_owned(),
                name: "x".to_owned(),
                display_path: "x".to_owned(),
            },
        },
    );
    assert_eq!(validate_request(&bad_destination), Err(ExplorerError::InvalidReference));
}

#[test]
fn single_source_requests_keep_the_action() {
    let original = request(vec![entry("a", "home"), entry("b", "home")], FileOperationActionDto::Trash {});
    let single = single_source_request(&original, entry("b", "home"));
    assert_eq!(single.sources, vec![entry("b", "home")]);
    assert_eq!(single.action, FileOperationActionDto::Trash {});
}

#[test]
fn terminal_events_keep_identity_action_progress_and_sequence() {
    let queued = queued_event("operation-1", FileOperationKindDto::Trash, 1);
    assert!(matches!(queued, FileOperationEventDto::Queued { sequence: 0, .. }));
    let mut events = OperationEventEmitter::new("operation-1".to_owned(), FileOperationKindDto::Trash, 1);
    let running = events.running();
    assert!(matches!(running, FileOperationEventDto::Running { sequence: 1, .. }));
    let event = events.terminal(OperationTerminal::Cancelled(None));
    assert_eq!(
        event,
        FileOperationEventDto::Cancelled {
            operation_id: "operation-1".to_owned(),
            sequence: 2,
            action: FileOperationKindDto::Trash,
            completed_items: 0,
            total_items: 1,
            completed_bytes: None,
            total_bytes: None,
            current_item_completed: None,
            current_item_total: None,
            outcome: None,
        }
    );
}

#[test]
fn byte_progress_is_reported_as_decimal_text_and_never_ahead_of_its_total() {
    let mut events = OperationEventEmitter::new("op".to_owned(), FileOperationKindDto::Move, 2);
    let event = events.byte_progress(5, 10).expect("progress");
    match event {
        FileOperationEventDto::Running { completed_bytes, total_bytes, sequence, .. } => {
            assert_eq!(completed_bytes, Some("5".to_owned()));
            assert_eq!(total_bytes, Some("10".to_owned()));
            assert_eq!(sequence, 1);
        },
        other => panic!("unexpected event {other:?}"),
    }
    assert_eq!(events.byte_progress(11, 10), Err(ExplorerError::StateUnavailable));
    assert_eq!(events.progress(1, 0), Err(ExplorerError::StateUnavailable));
    assert!(events.progress(1, 3).is_ok());
}

#[test]
fn settling_items_counts_them_and_stops_reporting_at_the_last() {
    let mut events = OperationEventEmitter::new("op".to_owned(), FileOperationKindDto::Trash, 2);
    events.begin_item();
    let first = events.settle_item().expect("first item");
    assert!(matches!(first, Some(FileOperationEventDto::Running { completed_items: 1, total_items: 2, .. })));
    events.begin_item();
    assert_eq!(events.settle_item().expect("second item"), None);
    assert_eq!(events.settle_item(), Err(ExplorerError::StateUnavailable));
    let done = events.terminal(OperationTerminal::Cancelled(None));
    assert!(matches!(done, FileOperationEventDto::Cancelled { completed_items: 2, sequence: 2, .. }));
}

fn trashed(source: &EntryRefDto) -> FileOperationOutcomeDto {
    trashed_outcome(RemovedLocalEntry { reference: source.clone(), name: source.id.clone(), invalidated_entry_ids: Vec::new() })
}

#[test]
fn batches_continue_past_item_failures_and_report_partial_completion() {
    let sources = vec![entry("a", "home"), entry("b", "home"), entry("c", "home")];
    let mut events = OperationEventEmitter::new("op".to_owned(), FileOperationKindDto::Trash, 3);
    let mut run = BatchRun::new();
    assert!(matches!(run.record(&sources, Ok(trashed(&sources[0])), &mut events), BatchStep::Continue(_)));
    let failure = Err(ExplorerError::Io { message: "missing".to_owned(), kind: IoErrorKind::NotFound });
    assert!(matches!(run.record(&sources, failure, &mut events), BatchStep::Continue(_)));
    assert!(matches!(run.record(&sources, Ok(trashed(&sources[2])), &mut events), BatchStep::Continue(_)));
    match run.finish(&sources) {
        OperationTerminal::Failed { error, outcome: Some(FileOperationOutcomeDto::Batch { status, items }) } => {
            assert_eq!(error.code, ExplorerErrorCode::PartialCompletion);
            assert_eq!(error.message, "Explora completed 2 of 3 selected items. Review the item results before retrying.");
            assert_eq!(status, FileOperationBatchStatusDto::Partial);
            assert_eq!(items.len(), 3);
            assert!(matches!(items[1], FileOperationBatchItemDto::Failed { .. }));
        },
        other => panic!("unexpected terminal {other:?}"),
    }
}

#[test]
fn cancelling_a_batch_keeps_the_unstarted_sources() {
    let sources = vec![entry("a", "home"), entry("b", "home"), entry("c", "home")];
    let mut events = OperationEventEmitter::new("op".to_owned(), FileOperationKindDto::Trash, 3);
    let mut run = BatchRun::new();
    assert!(matches!(run.record(&sources, Ok(trashed(&sources[0])), &mut events), BatchStep::Continue(_)));
    match run.record(&sources, Err(ExplorerError::Cancelled), &mut events) {
        BatchStep::Finished(OperationTerminal::Cancelled(Some(FileOperationOutcomeDto::Batch { status, items }))) => {
            assert_eq!(status, FileOperationBatchStatusDto::Cancelled);
            assert_eq!(items.len(), 3);
            assert!(matches!(items[0], FileOperationBatchItemDto::Completed { .. }));
            assert_eq!(items[1], FileOperationBatchItemDto::Cancelled { source: entry("b", "home") });
            assert_eq!(items[2], FileOperationBatchItemDto::NotStarted { source: entry("c", "home") });
        },
        _ => panic!("a cancelled item ends the batch"),
    }
}

#[test]
fn fatal_errors_stop_a_batch() {
    assert!(should_stop_batch(&ExplorerError::Offline("gone".to_owned())));
    assert!(!should_stop_batch(&ExplorerError::Conflict));
    assert!(!should_stop_batch(&ExplorerError::Io { message: String::new(), kind: IoErrorKind::Other }));
    let sources = vec![entry("a", "home"), entry("b", "home")];
    let mut events = OperationEventEmitter::new("op".to_owned(), FileOperationKindDto::Trash, 2);
    let mut run = BatchRun::new();
    match run.record(&sources, Err(ExplorerError::Offline("gone".to_owned())), &mut events) {
        BatchStep::Finished(OperationTerminal::Failed { error, outcome: Some(FileOperationOutcomeDto::Batch { items, .. }) }) => {
            assert_eq!(error.code, ExplorerErrorCode::Offline);
            assert_eq!(items.len(), 2);
            assert_eq!(items[1], FileOperationBatchItemDto::NotStarted { source: entry("b", "home") });
        },
        _ => panic!("an offline failure ends the batch"),
    }
}

#[test]
fn partial_batches_say_how_many_items_completed() {
    let error = partial_batch_error(0, 12);
    assert_eq!(error.code, ExplorerErrorCode::PartialCompletion);
    assert_eq!(error.message, "Explora completed 0 of 12 selected items. Review the item results before retrying.");
}

#[test]
fn prompts_accept_only_their_own_id_and_allowed_responses() {
    let mut active = ActiveOperation::new();
    assert_eq!(active.ensure_not_cancelled(), Ok(()));
    active
        .begin_prompt(
            "prompt-1".to_owned(),
            vec![FileOperationPromptResponseDto::KeepBoth, FileOperationPromptResponseDto::Cancel],
        )
        .expect("prompt");
    assert!(active.begin_prompt("prompt-2".to_owned(), vec![FileOperationPromptResponseDto::Confirm]).is_err());
    assert!(active.respond("other", FileOperationPromptResponseDto::KeepBoth).is_err());
    assert!(active.respond("prompt-1", FileOperationPromptResponseDto::Confirm).is_err());
    assert_eq!(active.respond("prompt-1", FileOperationPromptResponseDto::KeepBoth), Ok(FileOperationPromptResponseDto::KeepBoth));
    assert!(active.respond("prompt-1", FileOperationPromptResponseDto::KeepBoth).is_err());
    active.cancel();
    assert_eq!(active.ensure_not_cancelled(), Err(ExplorerError::Cancelled));
}

#[test]
fn remote_relative_paths_become_safe_local_components() {
    assert_eq!(remote_relative_to_local("").expect("root"), Vec::<String>::new());
    assert_eq!(remote_relative_to_local("a/b/c.txt").expect("nested"), vec!["a", "b", "c.txt"]);
    assert_eq!(remote_relative_to_local("a/../b"), Err(ExplorerError::InvalidReference));
    assert_eq!(remote_relative_to_local("a//b"), Err(ExplorerError::InvalidReference));
    assert_eq!(remote_relative_to_local("./a"), Err(ExplorerError::InvalidReference));
}
