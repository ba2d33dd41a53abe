use explora::filesystem::ExplorerError;
use explora::remote_artifact::{
    creation_retry, no_partial_name, partial_candidate, ArtifactKind, FinalizeStep, RemoteArtifact,
};

#[test]
fn partial_names_are_hidden_unique_and_inside_the_destination() {
    let first = partial_candidate("/srv/uploads/");
    let second = partial_candidate("/srv/uploads");
    assert!(first.starts_with("/srv/uploads/.explora-partial-"));
    assert_eq!(first.len(), "/srv/uploads/.explora-partial-".len() + 36);
    assert_ne!(first, second);
    assert!(partial_candidate("/").starts_with("/.explora-partial-"));
}

#[test]
fn collisions_are_retried_and_other_failures_stand() {
    assert_eq!(creation_retry(Ok(true), ExplorerError::Conflict), Ok(()));
    assert_eq!(creation_retry(Ok(false), ExplorerError::Conflict), Err(ExplorerError::Conflict));
    assert_eq!(creation_retry(Err(ExplorerError::SourceChanged), ExplorerError::Conflict), Err(ExplorerError::SourceChanged));
    assert_eq!(
        no_partial_name(ArtifactKind::Directory),
        ExplorerError::DestinationUnavailable("Explora could not allocate an owned partial folder on the remote destination.".to_owned())
    );
}

#[test]
fn a_partial_file_is_written_closed_and_renamed_into_place() {
    let mut artifact = RemoteArtifact::created(ArtifactKind::File, "/srv", "report.pdf", "/srv/.explora-partial-x".to_owned());
    assert_eq!(artifact.final_path(), "/srv/report.pdf");
    assert_eq!(artifact.partial_path(), "/srv/.explora-partial-x");
    assert_eq!(artifact.check_chunk(10, 64), Ok(()));
    assert!(matches!(artifact.check_chunk(65, 64), Err(ExplorerError::InvalidConfiguration(_))));
    assert_eq!(artifact.record_written(10), Ok(10));
    assert_eq!(artifact.record_written(5), Ok(15));
    assert_eq!(artifact.bytes_written(), 15);
    assert_eq!(artifact.finalize_step(), Err(ExplorerError::StateUnavailable));
    artifact.close_file().expect("close");
    assert!(artifact.check_chunk(1, 64).is_err());
    assert_eq!(artifact.finalize_step(), Ok(FinalizeStep::Rename));
    artifact.renamed();
    assert_eq!(artifact.finalize_step(), Ok(FinalizeStep::Done));
    assert!(artifact.abandon().is_empty());
}

#[test]
fn failed_renames_are_judged_by_what_exists_afterwards() {
    let fresh = || {
        let mut a = RemoteArtifact::created(ArtifactKind::Symlink, "/srv", "link", "/srv/.explora-partial-y".to_owned());
        assert_eq!(a.finalize_step(), Ok(FinalizeStep::Rename));
        a.preserve();
        a
    };
    let mut a = fresh();
    assert_eq!(a.rename_failed(Ok(true), Ok(true), ExplorerError::Unexpected("x".to_owned())), ExplorerError::Conflict);
    let mut b = fresh();
    assert!(matches!(b.rename_failed(Ok(false), Ok(true), ExplorerError::Conflict), ExplorerError::OutcomeUncertain(_)));
    assert_eq!(b.finalize_step(), Ok(FinalizeStep::Done));
    let mut c = fresh();
    assert_eq!(c.rename_failed(Ok(true), Ok(false), ExplorerError::SourceChanged), ExplorerError::SourceChanged);
    let mut d = fresh();
    assert!(matches!(d.rename_failed(Err(ExplorerError::Cancelled), Ok(true), ExplorerError::Conflict), ExplorerError::OutcomeUncertain(_)));
    assert_eq!(d.finalize_step(), Ok(FinalizeStep::Rename));
}

#[test]
fn abandoning_a_tree_removes_its_entries_newest_first_and_only_once() {
    let mut artifact =
        RemoteArtifact::created(ArtifactKind::Directory, "/srv", "tree", "/srv/.explora-partial-z".to_owned());
    let sub = artifact.entry_path("sub").expect("entry path");
    assert_eq!(sub, "/srv/.explora-partial-z/sub");
    artifact.record_entry(sub, ArtifactKind::Directory);
    let file = artifact.entry_path("sub/a.txt").expect("file path");
    artifact.record_entry(file, ArtifactKind::File);
    assert_eq!(artifact.entry_path("sub/b.txt"), Err(ExplorerError::StateUnavailable));
    artifact.close_file().expect("close");
    assert_eq!(artifact.entry_path("../escape"), Err(ExplorerError::InvalidReference));

    let removed = artifact.abandon();
    let paths: Vec<&str> = removed.iter().map(|e| e.path.as_str()).collect();
    assert_eq!(paths, vec!["/srv/.explora-partial-z/sub/a.txt", "/srv/.explora-partial-z/sub", "/srv/.explora-partial-z"]);
    assert_eq!(removed[0].kind, ArtifactKind::File);
    assert_eq!(removed[2].kind, ArtifactKind::Directory);
    assert!(artifact.abandon().is_empty());
}

#[test]
fn only_folders_take_entries() {
    let artifact = RemoteArtifact::created(ArtifactKind::Symlink, "/srv", "l", "/srv/.explora-partial-w".to_owned());
    assert_eq!(artifact.entry_path("a"), Err(ExplorerError::StateUnavailable));
}

#[test]
fn written_byte_counts_cannot_overflow() {
    let mut artifact = RemoteArtifact::created(ArtifactKind::File, "/srv", "big", "/srv/.explora-partial-v".to_owned());
    assert_eq!(artifact.record_written(usize::MAX), Ok(usize::MAX as u64));
    assert_eq!(
        artifact.record_written(1),
        Err(ExplorerError::InvalidConfiguration("The remote transfer exceeded the supported size.".to_owned()))
    );
    assert_eq!(artifact.bytes_written(), usize::MAX as u64);
}
