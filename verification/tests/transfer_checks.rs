use explora::filesystem::ExplorerError;
use explora::transfer_checks::{
    check_link_target, check_written_entry, chunks_match, creation_step, next_chunk_len, permission_order, ByteMeter, CreateStep,
    EntryCheck, TransferEntryKind,
    WrittenEntry, BYTE_PROGRESS_EVENT_INTERVAL,
};

#[test]
fn progress_is_reported_every_interval_and_at_the_end() {
    let total = 2 * BYTE_PROGRESS_EVENT_INTERVAL + 10;
    let mut meter = ByteMeter::new(total);
    assert_eq!(meter.record(1024), Ok(false));
    let rest_of_interval = (BYTE_PROGRESS_EVENT_INTERVAL - 1024) as usize;
    assert_eq!(meter.record(rest_of_interval), Ok(true));
    assert_eq!(meter.completed(), BYTE_PROGRESS_EVENT_INTERVAL);
    assert_eq!(meter.record(10), Ok(false));
    assert_eq!(meter.record(BYTE_PROGRESS_EVENT_INTERVAL as usize), Ok(true));
    assert_eq!(meter.finish("wrong count"), Ok(()));
}

#[test]
fn empty_reads_and_short_copies_are_errors() {
    let mut meter = ByteMeter::new(10);
    assert_eq!(meter.record(0), Err(ExplorerError::SourceChanged));
    assert_eq!(meter.completed(), 0);
    assert_eq!(meter.record(4), Ok(false));
    assert_eq!(
        meter.finish("The local partial tree has an unexpected byte count."),
        Err(ExplorerError::Unexpected("The local partial tree has an unexpected byte count.".to_owned()))
    );
    assert_eq!(meter.record(6), Ok(true));
    assert_eq!(meter.finish("x"), Ok(()));
}

#[test]
fn counts_past_the_largest_integer_are_refused() {
    let mut meter = ByteMeter::new(u64::MAX);
    assert!(meter.record(usize::MAX / 2).is_ok());
    assert_eq!(meter.record(usize::MAX), Err(ExplorerError::StateUnavailable));
    assert_eq!(meter.completed(), (usize::MAX / 2) as u64);
}

#[test]
fn reads_never_exceed_a_chunk_or_what_remains() {
    assert_eq!(next_chunk_len(10, 4096), 10);
    assert_eq!(next_chunk_len(10_000, 4096), 4096);
    assert_eq!(next_chunk_len(0, 4096), 0);
}

#[test]
fn chunks_match_only_byte_for_byte() {
    assert!(chunks_match(b"abc", b"abc"));
    assert!(!chunks_match(b"abc", b"abd"));
    assert!(!chunks_match(b"abc", b"ab"));
}

#[test]
fn written_entries_must_have_the_shape_of_their_source() {
    let dir = WrittenEntry { is_dir: true, is_file: false, is_symlink: false, len: 0 };
    let file = WrittenEntry { is_dir: false, is_file: true, is_symlink: false, len: 5 };
    let link = WrittenEntry { is_dir: false, is_file: false, is_symlink: true, len: 0 };
    assert_eq!(check_written_entry(TransferEntryKind::Directory, dir, 0, "m"), Ok(EntryCheck::Complete));
    assert_eq!(check_written_entry(TransferEntryKind::File, file, 5, "m"), Ok(EntryCheck::Contents));
    assert_eq!(check_written_entry(TransferEntryKind::Symlink, link, 0, "m"), Ok(EntryCheck::LinkTarget));
    assert_eq!(
        check_written_entry(TransferEntryKind::File, file, 6, "The local partial tree does not match the source structure."),
        Err(ExplorerError::Unexpected("The local partial tree does not match the source structure.".to_owned()))
    );
    assert!(check_written_entry(TransferEntryKind::Directory, link, 0, "m").is_err());
}

#[test]
fn links_keep_their_source_target() {
    assert_eq!(check_link_target(&Some("../a".to_owned()), "../a", "m"), Ok(()));
    assert_eq!(check_link_target(&Some("../a".to_owned()), "/etc", "m"), Err(ExplorerError::Unexpected("m".to_owned())));
    assert_eq!(check_link_target(&None, "../a", "m"), Err(ExplorerError::StateUnavailable));
}

#[test]
fn each_tree_entry_is_created_as_its_kind() {
    assert_eq!(creation_step(TransferEntryKind::Directory, 0, &None, ExplorerError::StateUnavailable), Ok(CreateStep::Directory));
    assert_eq!(creation_step(TransferEntryKind::File, 42, &None, ExplorerError::StateUnavailable), Ok(CreateStep::File(42)));
    assert_eq!(
        creation_step(TransferEntryKind::Symlink, 0, &Some("../target".to_owned()), ExplorerError::StateUnavailable),
        Ok(CreateStep::Symlink("../target".to_owned()))
    );
    assert_eq!(
        creation_step(TransferEntryKind::Symlink, 0, &None, ExplorerError::Unsupported("no target".to_owned())),
        Err(ExplorerError::Unsupported("no target".to_owned()))
    );
}

#[test]
fn permissions_are_applied_deepest_first_and_never_to_links() {
    let kinds = vec![
        TransferEntryKind::Directory,
        TransferEntryKind::File,
        TransferEntryKind::Symlink,
        TransferEntryKind::Directory,
        TransferEntryKind::File,
    ];
    assert_eq!(permission_order(&kinds), vec![4, 3, 1, 0]);
    assert_eq!(permission_order(&Vec::new()), Vec::<usize>::new());
    assert_eq!(permission_order(&vec![TransferEntryKind::Symlink]), Vec::<usize>::new());
}
