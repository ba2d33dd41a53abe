use explora::batch_steps::{batch_failure_error, batch_step, BatchAction, BatchEvent, BatchFailure, BatchPhase, BatchState};
use explora::file_operations::{FileOperationActionDto, FileOperationPromptResponseDto};
use explora::filesystem::ExplorerError;

fn names(item: &str, location: &str) -> BatchEvent {
    BatchEvent::Described(Ok((item.to_owned(), location.to_owned())))
}

#[test]
fn one_source_runs_as_a_single_operation() {
    let s = BatchState::new(1, &FileOperationActionDto::Trash {});
    let (s, a) = batch_step(s, BatchEvent::Begin);
    assert_eq!(a, BatchAction::RunSingle);
    assert_eq!(s.phase, BatchPhase::Done);
}

#[test]
fn items_run_in_order_after_validation() {
    let s = BatchState::new(2, &FileOperationActionDto::Trash {});
    let (s, a) = batch_step(s, BatchEvent::Begin);
    assert_eq!(a, BatchAction::Validate);
    let (s, a) = batch_step(s, BatchEvent::Validated(Ok(())));
    assert_eq!(a, BatchAction::StartItem(0));
    let (s, a) = batch_step(s, BatchEvent::Started { cancelled: false });
    assert_eq!(a, BatchAction::RunItem(0, false));
    let (s, a) = batch_step(s, BatchEvent::Recorded { finished: false });
    assert_eq!(a, BatchAction::StartItem(1));
    let (s, a) = batch_step(s, BatchEvent::Started { cancelled: false });
    assert_eq!(a, BatchAction::RunItem(1, false));
    let (s, a) = batch_step(s, BatchEvent::Recorded { finished: false });
    assert_eq!(a, BatchAction::Finish);
    assert_eq!(s.phase, BatchPhase::Done);
}

#[test]
fn a_failed_validation_ends_the_batch() {
    let s = BatchState::new(3, &FileOperationActionDto::Trash {});
    let (s, _) = batch_step(s, BatchEvent::Begin);
    let (_, a) = batch_step(s, BatchEvent::Validated(Err(ExplorerError::InvalidReference)));
    assert_eq!(a, BatchAction::Fail(BatchFailure::Error(ExplorerError::InvalidReference)));
}

#[test]
fn a_batch_delete_describes_every_source_and_asks_once() {
    let s = BatchState::new(3, &FileOperationActionDto::DeletePermanently {});
    let (s, _) = batch_step(s, BatchEvent::Begin);
    let (s, a) = batch_step(s, BatchEvent::Validated(Ok(())));
    assert_eq!(a, BatchAction::Describe(0));
    let (s, a) = batch_step(s, names("a", "Home"));
    assert_eq!(a, BatchAction::Describe(1));
    let (s, a) = batch_step(s, names("b", "Other"));
    assert_eq!(a, BatchAction::Describe(2));
    let (s, a) = batch_step(s, names("c", "Other"));
    assert_eq!(a, BatchAction::PromptDelete { count: 3, location_name: "Home".to_owned() });
    let (s, a) = batch_step(s, BatchEvent::Answered(Ok(FileOperationPromptResponseDto::Confirm)));
    assert_eq!(a, BatchAction::StartItem(0));
    assert!(s.delete_confirmed);
    let (_, a) = batch_step(s, BatchEvent::Started { cancelled: false });
    assert_eq!(a, BatchAction::RunItem(0, true));
}

#[test]
fn cancelling_the_batch_delete_prompt_cancels_the_batch() {
    let s = BatchState::new(2, &FileOperationActionDto::DeletePermanently {});
    let (s, _) = batch_step(s, BatchEvent::Begin);
    let (s, _) = batch_step(s, BatchEvent::Validated(Ok(())));
    let (s, _) = batch_step(s, names("a", "Home"));
    let (s, _) = batch_step(s, names("b", "Home"));
    let (_, a) = batch_step(s, BatchEvent::Answered(Ok(FileOperationPromptResponseDto::Cancel)));
    assert_eq!(a, BatchAction::Cancel);
}

#[test]
fn a_cancelled_description_cancels_and_other_errors_fail() {
    let s = BatchState::new(2, &FileOperationActionDto::DeletePermanently {});
    let (s, _) = batch_step(s, BatchEvent::Begin);
    let (s, _) = batch_step(s, BatchEvent::Validated(Ok(())));
    let (_, a) = batch_step(s, BatchEvent::Described(Err(ExplorerError::Cancelled)));
    assert_eq!(a, BatchAction::Cancel);
    let s = BatchState::new(2, &FileOperationActionDto::DeletePermanently {});
    let (s, _) = batch_step(s, BatchEvent::Begin);
    let (s, _) = batch_step(s, BatchEvent::Validated(Ok(())));
    let (_, a) = batch_step(s, BatchEvent::Described(Err(ExplorerError::StaleReference)));
    assert_eq!(a, BatchAction::Fail(BatchFailure::Error(ExplorerError::StaleReference)));
}

#[test]
fn a_skip_is_no_answer_to_a_batch_delete() {
    let s = BatchState::new(2, &FileOperationActionDto::DeletePermanently {});
    let (s, _) = batch_step(s, BatchEvent::Begin);
    let (s, _) = batch_step(s, BatchEvent::Validated(Ok(())));
    let (s, _) = batch_step(s, names("a", "Home"));
    let (s, _) = batch_step(s, names("b", "Home"));
    let (_, a) = batch_step(s, BatchEvent::Answered(Ok(FileOperationPromptResponseDto::Skip)));
    assert_eq!(a, BatchAction::Fail(BatchFailure::InvalidDeleteAnswer));
    assert_eq!(
        batch_failure_error(BatchFailure::InvalidDeleteAnswer),
        ExplorerError::InvalidConfiguration("That response is not valid for permanent deletion.".to_owned())
    );
}

#[test]
fn a_cancellation_between_items_or_a_stopping_record_ends_the_batch() {
    let s = BatchState::new(3, &FileOperationActionDto::Trash {});
    let (s, _) = batch_step(s, BatchEvent::Begin);
    let (s, _) = batch_step(s, BatchEvent::Validated(Ok(())));
    let (s, _) = batch_step(s, BatchEvent::Started { cancelled: false });
    let (s, a) = batch_step(s, BatchEvent::Recorded { finished: true });
    assert_eq!(a, BatchAction::Stop);
    assert_eq!(s.phase, BatchPhase::Done);

    let s = BatchState::new(3, &FileOperationActionDto::Trash {});
    let (s, _) = batch_step(s, BatchEvent::Begin);
    let (s, _) = batch_step(s, BatchEvent::Validated(Ok(())));
    let (_, a) = batch_step(s, BatchEvent::Started { cancelled: true });
    assert_eq!(a, BatchAction::Cancel);
}

#[test]
fn events_after_the_end_are_out_of_order() {
    let s = BatchState::new(1, &FileOperationActionDto::Trash {});
    let (s, _) = batch_step(s, BatchEvent::Begin);
    let (_, a) = batch_step(s, BatchEvent::Begin);
    assert_eq!(a, BatchAction::Fail(BatchFailure::OutOfOrder));
    assert_eq!(batch_failure_error(BatchFailure::OutOfOrder), ExplorerError::StateUnavailable);
}
