use explora::file_operations::{FileOperationActionDto, FileOperationOutcomeDto, FileOperationPromptResponseDto};
use explora::filesystem::{DirectoryRefDto, EntryRefDto, ExplorerError};
use explora::operation_plans::MoveRoute;
use explora::single_steps::{
    single_failure_error, single_step, MovePolicy, SingleAction, SingleEvent, SingleFailure, SinglePhase, SingleRun,
};

fn entry(location: &str) -> EntryRefDto {
    EntryRefDto { id: "entry-1".to_owned(), location_id: location.to_owned() }
}

fn directory(location: &str) -> DirectoryRefDto {
    DirectoryRefDto {
        id: "dir-1".to_owned(),
        location_id: location.to_owned(),
        name: "Target".to_owned(),
        display_path: "/Target".to_owned(),
    }
}

fn run(remote: bool, confirmed: bool, source_location: &str, action: FileOperationActionDto) -> SingleRun {
    SingleRun { remote, delete_confirmed: confirmed, source: entry(source_location), action, phase: SinglePhase::Idle }
}

fn begin(r: SingleRun) -> (SingleRun, SingleAction, bool) {
    let (s, c) = single_step(r, SingleEvent::Begin { cancelled: false });
    (s, c.action, c.announce_running)
}

#[test]
fn a_cancelled_operation_does_not_start() {
    let r = run(false, false, "local:home", FileOperationActionDto::Trash {});
    let (s, c) = single_step(r, SingleEvent::Begin { cancelled: true });
    assert_eq!(s.phase, SinglePhase::Done);
    assert!(!c.announce_running);
    assert!(matches!(c.action, SingleAction::Fail(SingleFailure::Cancelled)));
}

#[test]
fn a_rename_runs_once_and_its_result_ends_the_run() {
    let r = run(false, false, "local:home", FileOperationActionDto::Rename { new_name: "b.txt".to_owned() });
    let (s, a, announce) = begin(r);
    assert!(announce);
    assert!(matches!(a, SingleAction::Rename));
    assert_eq!(s.phase, SinglePhase::Working);
    let (s, c) = single_step(s, SingleEvent::Finished(Err(ExplorerError::InvalidName("bad".to_owned()))));
    assert_eq!(s.phase, SinglePhase::Done);
    assert!(matches!(c.action, SingleAction::Fail(SingleFailure::Error(ExplorerError::InvalidName(_)))));
}

#[test]
fn moves_across_local_locations_transfer_and_within_one_move_in_place() {
    let across = run(false, false, "local:home", FileOperationActionDto::Move { destination: directory("local:volume") });
    let (_, a, _) = begin(across);
    assert!(matches!(a, SingleAction::Transfer(MoveRoute::LocalToLocal)));
    let within = run(false, false, "local:home", FileOperationActionDto::Move { destination: directory("local:home") });
    let (s, a, _) = begin(within);
    assert!(matches!(a, SingleAction::Move(MovePolicy::Fail)));
    assert_eq!(s.phase, SinglePhase::Moving);
}

#[test]
fn remote_moves_pick_their_transfer_route() {
    let to_local = run(true, false, "ssh:a", FileOperationActionDto::Move { destination: directory("local:home") });
    assert!(matches!(begin(to_local).1, SingleAction::Transfer(MoveRoute::RemoteToLocal)));
    let to_remote = run(true, false, "ssh:a", FileOperationActionDto::Move { destination: directory("ssh:b") });
    assert!(matches!(begin(to_remote).1, SingleAction::Transfer(MoveRoute::RemoteToRemote)));
    let within = run(true, false, "ssh:a", FileOperationActionDto::Move { destination: directory("ssh:a") });
    assert!(matches!(begin(within).1, SingleAction::Move(MovePolicy::Fail)));
}

#[test]
fn a_conflict_is_described_asked_and_skipping_reports_the_source() {
    let r = run(false, false, "local:home", FileOperationActionDto::Move { destination: directory("local:home") });
    let (s, _, _) = begin(r);
    let (s, c) = single_step(s, SingleEvent::Finished(Err(ExplorerError::Conflict)));
    assert!(matches!(c.action, SingleAction::DescribeConflict));
    let (s, c) = single_step(s, SingleEvent::Described(Ok(("a.txt".to_owned(), "Target".to_owned()))));
    match c.action {
        SingleAction::PromptConflict { target_name, destination_name } => {
            assert_eq!(target_name, "a.txt");
            assert_eq!(destination_name, "Target");
        }
        _ => panic!("expected a conflict prompt"),
    }
    assert_eq!(s.phase, SinglePhase::AwaitingConflict("a.txt".to_owned()));
    let (s, c) = single_step(s, SingleEvent::Answered(Ok(FileOperationPromptResponseDto::Skip)));
    assert_eq!(s.phase, SinglePhase::Done);
    assert!(c.announce_running);
    match c.action {
        SingleAction::Complete(FileOperationOutcomeDto::MoveSkipped { entry: skipped, name }) => {
            assert_eq!(skipped, entry("local:home"));
            assert_eq!(name, "a.txt");
        }
        _ => panic!("expected a skipped move"),
    }
}

#[test]
fn keeping_both_moves_again_under_a_free_name_unless_cancelled() {
    let r = run(false, false, "local:home", FileOperationActionDto::Move { destination: directory("local:home") });
    let (s, _, _) = begin(r);
    let (s, _) = single_step(s, SingleEvent::Finished(Err(ExplorerError::Conflict)));
    let (s, _) = single_step(s, SingleEvent::Described(Ok(("a.txt".to_owned(), "Target".to_owned()))));
    let (s, c) = single_step(s, SingleEvent::Answered(Ok(FileOperationPromptResponseDto::KeepBoth)));
    assert!(matches!(c.action, SingleAction::Proceed));
    let (s, c) = single_step(s, SingleEvent::Checked { cancelled: false });
    assert!(matches!(c.action, SingleAction::Move(MovePolicy::KeepBoth)));
    let (s, c) = single_step(s, SingleEvent::Finished(Err(ExplorerError::Conflict)));
    assert_eq!(s.phase, SinglePhase::Done);
    assert!(matches!(c.action, SingleAction::Fail(SingleFailure::Error(ExplorerError::Conflict))));
}

#[test]
fn a_confirmation_is_no_answer_to_a_conflict() {
    let r = run(false, false, "local:home", FileOperationActionDto::Move { destination: directory("local:home") });
    let (s, _, _) = begin(r);
    let (s, _) = single_step(s, SingleEvent::Finished(Err(ExplorerError::Conflict)));
    let (s, _) = single_step(s, SingleEvent::Described(Ok(("a.txt".to_owned(), "Target".to_owned()))));
    let (_, c) = single_step(s, SingleEvent::Answered(Ok(FileOperationPromptResponseDto::Confirm)));
    match c.action {
        SingleAction::Fail(f) => match single_failure_error(f) {
            ExplorerError::InvalidConfiguration(m) => assert_eq!(m, "That response is not valid for a move conflict."),
            other => panic!("unexpected {other:?}"),
        },
        _ => panic!("expected a failure"),
    }
}

#[test]
fn a_permanent_delete_is_confirmed_before_it_runs() {
    let r = run(false, false, "local:home", FileOperationActionDto::DeletePermanently {});
    let (s, a, _) = begin(r);
    assert!(matches!(a, SingleAction::DescribeDeleteTarget));
    let (s, c) = single_step(s, SingleEvent::Described(Ok(("a.txt".to_owned(), "Home".to_owned()))));
    assert!(matches!(c.action, SingleAction::PromptDelete { .. }));
    let (s, c) = single_step(s, SingleEvent::Answered(Ok(FileOperationPromptResponseDto::Confirm)));
    assert!(matches!(c.action, SingleAction::Proceed));
    let (s, c) = single_step(s, SingleEvent::Checked { cancelled: false });
    assert!(matches!(c.action, SingleAction::Delete));
    let outcome = FileOperationOutcomeDto::DeletedPermanently {
        entry: entry("local:home"),
        name: "a.txt".to_owned(),
        invalidated_entry_ids: vec!["entry-1".to_owned()],
    };
    let (s, c) = single_step(s, SingleEvent::Finished(Ok(outcome)));
    assert_eq!(s.phase, SinglePhase::Done);
    assert!(matches!(c.action, SingleAction::Complete(FileOperationOutcomeDto::DeletedPermanently { .. })));
}

#[test]
fn skipping_or_keeping_both_is_no_answer_to_a_delete_and_cancel_cancels() {
    for (answer, cancelled) in [
        (FileOperationPromptResponseDto::Skip, false),
        (FileOperationPromptResponseDto::KeepBoth, false),
        (FileOperationPromptResponseDto::Cancel, true),
    ] {
        let r = run(true, false, "ssh:a", FileOperationActionDto::DeletePermanently {});
        let (s, _, _) = begin(r);
        let (s, _) = single_step(s, SingleEvent::Described(Ok(("a.txt".to_owned(), "host".to_owned()))));
        let (_, c) = single_step(s, SingleEvent::Answered(Ok(answer)));
        match c.action {
            SingleAction::Fail(f) => {
                let e = single_failure_error(f);
                if cancelled {
                    assert_eq!(e, ExplorerError::Cancelled);
                } else {
                    assert_eq!(
                        e,
                        ExplorerError::InvalidConfiguration("That response is not valid for permanent deletion.".to_owned())
                    );
                }
            }
            _ => panic!("expected a failure"),
        }
    }
}

#[test]
fn a_batch_confirmed_delete_is_not_asked_again_but_still_checks_cancellation() {
    let r = run(false, true, "local:home", FileOperationActionDto::DeletePermanently {});
    let (s, a, announce) = begin(r);
    assert!(announce);
    assert!(matches!(a, SingleAction::Proceed));
    let (_, c) = single_step(s, SingleEvent::Checked { cancelled: true });
    assert!(matches!(c.action, SingleAction::Fail(SingleFailure::Cancelled)));
}

#[test]
fn remote_items_cannot_be_trashed() {
    let r = run(true, false, "ssh:a", FileOperationActionDto::Trash {});
    let (s, a, announce) = begin(r);
    assert!(announce);
    assert_eq!(s.phase, SinglePhase::Done);
    match a {
        SingleAction::Fail(f) => assert_eq!(
            single_failure_error(f),
            ExplorerError::Unsupported("Remote items cannot be moved to the local operating-system Trash.".to_owned())
        ),
        _ => panic!("expected a failure"),
    }
    let local = run(false, false, "local:home", FileOperationActionDto::Trash {});
    assert!(matches!(begin(local).1, SingleAction::Trash));
}

#[test]
fn events_out_of_order_end_the_run() {
    let r = run(false, false, "local:home", FileOperationActionDto::Trash {});
    let (s, c) = single_step(r, SingleEvent::Checked { cancelled: false });
    assert_eq!(s.phase, SinglePhase::Done);
    match c.action {
        SingleAction::Fail(f) => assert_eq!(single_failure_error(f), ExplorerError::StateUnavailable),
        _ => panic!("expected a failure"),
    }
}
