use explora::filesystem::{DirectoryListingEvent, ExplorerError, IoErrorKind, LocationBackend, SyncedFolderProvider};
use explora::gio::{map_gio_error, GioEntryKind, GioEntryMetadata, GioErrorCode, GioFilesystem};
use explora::gio_roots::{normalize_roots, GioRootCandidate};

fn candidate(identity: &str, uri: &str) -> GioRootCandidate {
    GioRootCandidate {
        identity: identity.as_bytes().to_vec(),
        uri: uri.to_owned(),
        provider: SyncedFolderProvider::GoogleDrive,
    }
}

#[test]
fn normalizes_private_mounts_to_stable_opaque_locations() {
    let roots = normalize_roots(vec![
        candidate("private-a", "google-drive://person@example.com/"),
        candidate("private-b", "google-drive://work@example.com/"),
    ]);

    assert_eq!(roots.len(), 2);
    assert_eq!(roots[0].name, "Google Drive 1");
    assert_eq!(roots[1].name, "Google Drive 2");
    assert!(roots.iter().all(|root| root.location_id.starts_with("synced:gio:")));
    assert!(roots.iter().all(|root| !root.location_id.contains("example.com")));
}

#[test]
fn normalized_location_ids_depend_only_on_the_identity() {
    let first = normalize_roots(vec![candidate("private-a", "google-drive://a/")]);
    let second = normalize_roots(vec![candidate("private-a", "google-drive://moved/")]);
    assert_eq!(first[0].location_id, second[0].location_id);
    assert_eq!(first[0].name, "Google Drive");
    let duplicate = normalize_roots(vec![candidate("same", "google-drive://x/"), candidate("same", "google-drive://x/")]);
    assert_eq!(duplicate.len(), 1);
}

#[test]
fn replacement_preserves_references_until_the_mount_is_removed() {
    let mut filesystem = GioFilesystem::new();
    filesystem.replace_roots(vec![candidate("private-a", "google-drive://person@example.com/")]).expect("initial roots");
    let location = filesystem.locations()[0].clone();
    let child = filesystem
        .register_child(
            &location.id,
            &location.root.id,
            "google-drive://person@example.com/folder".to_owned(),
            "Folder".to_owned(),
            GioEntryMetadata { kind: GioEntryKind::Directory, size: None, modified_at: None },
        )
        .expect("child reference");

    filesystem.replace_roots(vec![candidate("private-a", "google-drive://person@example.com/")]).expect("same roots");
    assert_eq!(
        filesystem.resolve_reference(&location.id, &child.id).expect("preserved child").display_path,
        "Google Drive/Folder"
    );

    filesystem.replace_roots(Vec::new()).expect("remove roots");
    assert!(matches!(filesystem.resolve_reference(&location.id, &child.id), Err(ExplorerError::Unavailable(_))));

    filesystem.replace_roots(vec![candidate("private-a", "google-drive://person@example.com/")]).expect("restore root");
    assert!(matches!(filesystem.resolve_reference(&location.id, &child.id), Err(ExplorerError::StaleReference)));
    assert!(matches!(filesystem.resolve_reference(&location.id, "never-valid"), Err(ExplorerError::InvalidReference)));
}

#[test]
fn serialized_locations_never_expose_mount_uris_or_account_labels() {
    let mut filesystem = GioFilesystem::new();
    filesystem.replace_roots(vec![candidate("private-a", "google-drive://person@example.com/")]).expect("roots");
    let locations = filesystem.locations();
    assert_eq!(locations.len(), 1);
    let location = &locations[0];
    assert_eq!(location.backend, LocationBackend::Gio);
    for text in [&location.id, &location.name, &location.display_path, &location.detail, &location.root.id, &location.root.display_path] {
        assert!(!text.contains("google-drive://"));
        assert!(!text.contains("person@example.com"));
    }
    assert!(location.name.contains("Google Drive"));
}

#[test]
fn gio_errors_map_to_explorer_errors() {
    assert_eq!(map_gio_error(Some(GioErrorCode::Cancelled)), ExplorerError::Cancelled);
    assert_eq!(
        map_gio_error(Some(GioErrorCode::NotFound)),
        ExplorerError::Io { message: "This cloud entry is no longer available.".to_owned(), kind: IoErrorKind::NotFound }
    );
    assert_eq!(
        map_gio_error(Some(GioErrorCode::NotDirectory)),
        ExplorerError::Io { message: "This cloud entry is not a folder.".to_owned(), kind: IoErrorKind::NotADirectory }
    );
    for code in [
        GioErrorCode::NotMounted,
        GioErrorCode::HostNotFound,
        GioErrorCode::HostUnreachable,
        GioErrorCode::NetworkUnreachable,
        GioErrorCode::ConnectionRefused,
        GioErrorCode::NotConnected,
    ] {
        assert_eq!(map_gio_error(Some(code)), ExplorerError::Offline("This cloud location is currently offline.".to_owned()));
    }
    assert_eq!(
        map_gio_error(Some(GioErrorCode::TimedOut)),
        ExplorerError::TimedOut("The cloud filesystem operation took too long.".to_owned())
    );
    assert_eq!(
        map_gio_error(Some(GioErrorCode::NotSupported)),
        ExplorerError::Unsupported("This cloud filesystem operation is not supported.".to_owned())
    );
    let unexpected = ExplorerError::Unexpected("The cloud filesystem could not complete this operation.".to_owned());
    assert_eq!(map_gio_error(Some(GioErrorCode::Other)), unexpected);
    assert_eq!(map_gio_error(None), unexpected);
}

#[test]
fn active_locations_are_known_by_id() {
    let mut filesystem = GioFilesystem::new();
    filesystem.replace_roots(vec![candidate("a", "google-drive://a/")]).expect("roots");
    let before = filesystem.locations();
    assert_eq!(before.len(), 1);
    assert!(filesystem.contains_location(&before[0].id));
    assert!(filesystem.location_is_active(&before[0].id));
    assert!(!filesystem.contains_location("synced:gio:unknown"));
}

#[test]
fn locations_name_their_provider_and_use_opaque_uuid_ids() {
    let mut filesystem = GioFilesystem::new();
    filesystem.replace_roots(vec![candidate("private-a", "google-drive://person@example.com/")]).expect("roots");
    let location = filesystem.locations()[0].clone();
    assert!(location.id.starts_with("synced:gio:"));
    assert_eq!(location.id.len(), "synced:gio:".len() + 36);
    assert_eq!(location.name, "Google Drive");
    assert_eq!(location.display_path, "Google Drive");
    assert_eq!(location.detail, "Google Drive · GIO");
    assert_eq!(location.kind, "syncedFolder");
}

#[test]
fn a_cloud_listing_starts_at_a_known_directory_within_its_root() {
    let mut filesystem = GioFilesystem::new();
    filesystem.replace_roots(vec![candidate("private-a", "google-drive://a/")]).expect("roots");
    let location = filesystem.locations()[0].clone();
    let (event, uri, root_uri) = filesystem.listing_start(&location.id, &location.root.id).expect("started");
    assert_eq!(uri, "google-drive://a/");
    assert_eq!(root_uri, "google-drive://a/");
    match event {
        DirectoryListingEvent::Started { directory, parent, breadcrumbs } => {
            assert_eq!(directory.id, location.root.id);
            assert!(parent.is_none());
            assert_eq!(breadcrumbs.len(), 1);
        }
        _ => panic!("expected a start event"),
    }
    assert!(filesystem.listing_start(&location.id, "unknown").is_err());
    assert!(filesystem.listing_start("synced:gio:unknown", &location.root.id).is_err());
}
