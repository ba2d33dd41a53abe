use explora::filesystem::ExplorerError;
use explora::transfer_checks::TransferEntryKind;
use explora::tree_steps::{
    transfer_failure_error, tree_transfer_step, TransferAction, TransferEvent, TransferFailure, TransferState, TreePhase,
};

#[test]
fn a_tree_is_created_counted_verified_then_given_permissions_deepest_first() {
    let kinds = vec![TransferEntryKind::Directory, TransferEntryKind::File, TransferEntryKind::Symlink];
    let state = TransferState::new(10);
    let (state, action) = tree_transfer_step(&kinds, state, TransferEvent::Begin);
    assert_eq!(action, TransferAction::Create(1, TransferEntryKind::File));
    let (state, action) = tree_transfer_step(&kinds, state, TransferEvent::Done);
    assert_eq!(action, TransferAction::Create(2, TransferEntryKind::Symlink));
    let (state, action) = tree_transfer_step(&kinds, state, TransferEvent::Done);
    assert_eq!(action, TransferAction::CountBytes);
    let (state, action) = tree_transfer_step(&kinds, state, TransferEvent::BytesCompleted(10));
    assert_eq!(action, TransferAction::Verify(0, TransferEntryKind::Directory));
    let (state, action) = tree_transfer_step(&kinds, state, TransferEvent::Done);
    assert_eq!(action, TransferAction::Verify(1, TransferEntryKind::File));
    let (state, action) = tree_transfer_step(&kinds, state, TransferEvent::Done);
    assert_eq!(action, TransferAction::Verify(2, TransferEntryKind::Symlink));
    let (state, action) = tree_transfer_step(&kinds, state, TransferEvent::Done);
    assert_eq!(action, TransferAction::SetPermissions(1));
    let (state, action) = tree_transfer_step(&kinds, state, TransferEvent::Done);
    assert_eq!(action, TransferAction::SetPermissions(0));
    let (state, action) = tree_transfer_step(&kinds, state, TransferEvent::Done);
    assert_eq!(action, TransferAction::Finish);
    assert_eq!(state.phase, TreePhase::Finished);
}

#[test]
fn a_wrong_byte_count_a_failure_or_a_cancellation_ends_the_transfer() {
    let kinds = vec![TransferEntryKind::File];
    let (state, action) = tree_transfer_step(&kinds, TransferState::new(5), TransferEvent::Begin);
    assert_eq!(action, TransferAction::CountBytes);
    let (_, action) = tree_transfer_step(&kinds, state, TransferEvent::BytesCompleted(4));
    assert_eq!(action, TransferAction::Fail(TransferFailure::ByteCount));
    assert_eq!(
        transfer_failure_error(TransferFailure::ByteCount, "The local partial tree has an unexpected byte count."),
        ExplorerError::Unexpected("The local partial tree has an unexpected byte count.".to_owned())
    );
    let (state, _) = tree_transfer_step(&kinds, TransferState::new(5), TransferEvent::Begin);
    let (_, action) = tree_transfer_step(&kinds, state, TransferEvent::Failed(ExplorerError::SourceChanged));
    assert_eq!(action, TransferAction::Fail(TransferFailure::Step(ExplorerError::SourceChanged)));
    let (state, _) = tree_transfer_step(&kinds, TransferState::new(5), TransferEvent::Begin);
    let (_, action) = tree_transfer_step(&kinds, state, TransferEvent::Cancelled);
    assert_eq!(action, TransferAction::Fail(TransferFailure::Cancelled));
}
