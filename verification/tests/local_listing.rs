use explora::entries::{
    describe_gio_entry, describe_remote_entry, gio_content_kind_of, GioFileType, LocalEntryFacts,
};
use explora::filesystem::{ContentAvailability, DirectoryListingEvent, ExplorerError, LocationRole, SyncedFolderProvider};
use explora::gio::GioFilesystem;
use explora::gio_roots::GioRootCandidate;
use explora::local_filesystem::{EntryMetadata, LocalDisk, LocalFilesystem, LocalRoot};
use explora::local_listing::{ancestor_path, component_count, within_root};
use explora::registry::RemotePathRegistry;
use explora::ssh_session::RemoteSession;
use explora::ssh_targets::ResolvedSshTarget;

struct FakeDisk;

impl LocalDisk for FakeDisk {
    fn is_dir(&self, _path: &str) -> bool {
        true
    }
}

fn home() -> LocalFilesystem {
    LocalFilesystem::new(
        vec![LocalRoot { id: "home".to_owned(), name: "Home".to_owned(), role: LocationRole::Home, path: "/home/me".to_owned() }],
        &FakeDisk,
    )
    .expect("filesystem")
}

fn facts(is_dir: bool, is_symlink: bool, is_file: bool) -> LocalEntryFacts {
    let t = EntryMetadata { is_symlink, is_file, is_dir };
    LocalEntryFacts { file_type: t, metadata: Some(t), target: None, len: Some(42), modified_at: Some(1000) }
}

#[test]
fn paths_are_compared_by_components() {
    assert!(within_root("/home/me/docs", "/home/me"));
    assert!(within_root("/home/me/", "/home/me"));
    assert!(within_root("/home//me/docs", "/home/me"));
    assert!(!within_root("/home/meow", "/home/me"));
    assert!(!within_root("/home", "/home/me"));
    assert!(!within_root("home/me", "/home/me"));
    assert_eq!(component_count("/home/me/"), 2);
    assert_eq!(ancestor_path("/home/me/docs", 1), "/home");
    assert_eq!(ancestor_path("/home/me/docs", 0), "/");
    assert_eq!(ancestor_path("a/b/c", 2), "a/b");
}

#[test]
fn listing_starts_with_the_directory_its_parent_and_the_trail_from_the_root() {
    let mut fs = home();
    let location = fs.locations().expect("locations")[0].clone();
    let (started, path) = fs.listing_start(&location.root.id, "home").expect("root listing");
    assert_eq!(path, "/home/me");
    match started {
        DirectoryListingEvent::Started { directory, parent, breadcrumbs } => {
            assert_eq!(directory.id, location.root.id);
            assert!(parent.is_none());
            assert_eq!(breadcrumbs.len(), 1);
            assert_eq!(breadcrumbs[0].label, "Home");
        },
        _ => panic!("a start event"),
    }

    let docs = fs
        .describe_entry("home", "/home/me/docs", "docs".to_owned(), facts(true, false, false), ContentAvailability::Local, false)
        .expect("docs");
    let folder = docs.directory.clone().expect("navigable");
    let nested = fs
        .describe_entry("home", "/home/me/docs/notes", "notes".to_owned(), facts(true, false, false), ContentAvailability::Local, false)
        .expect("notes");
    let (started, path) = fs.listing_start(&nested.reference.id, "home").expect("nested listing");
    assert_eq!(path, "/home/me/docs/notes");
    match started {
        DirectoryListingEvent::Started { directory, parent, breadcrumbs } => {
            assert_eq!(directory.name, "notes");
            let parent = parent.expect("parent");
            assert_eq!(parent.id, folder.id);
            assert_eq!(parent.name, "docs");
            let labels: Vec<&str> = breadcrumbs.iter().map(|c| c.label.as_str()).collect();
            assert_eq!(labels, vec!["Home", "docs", "notes"]);
            assert_eq!(breadcrumbs[0].directory.id, location.root.id);
            assert_eq!(breadcrumbs[1].directory.id, folder.id);
        },
        _ => panic!("a start event"),
    }
}

#[test]
fn listings_refuse_foreign_or_unknown_references() {
    let mut fs = home();
    let location = fs.locations().expect("locations")[0].clone();
    assert_eq!(fs.listing_start(&location.root.id, "elsewhere").err(), Some(ExplorerError::InvalidReference));
    assert_eq!(fs.listing_start("never-valid", "home").err(), Some(ExplorerError::InvalidReference));
    let outside = fs
        .describe_entry("home", "/etc", "etc".to_owned(), facts(true, false, false), ContentAvailability::Local, false)
        .expect("registered");
    assert_eq!(fs.listing_start(&outside.reference.id, "home").err(), Some(ExplorerError::InvalidReference));
}

#[test]
fn local_entries_describe_kind_size_and_capabilities() {
    let mut fs = home();
    let file = fs
        .describe_entry("home", "/home/me/a.rs", "a.rs".to_owned(), facts(false, false, true), ContentAvailability::Local, false)
        .expect("file");
    assert_eq!(file.kind, "file");
    assert_eq!(file.content_kind, "code");
    assert_eq!(file.size, Some("42".to_owned()));
    assert_eq!(file.modified_at, Some(1000));
    assert_eq!(file.native_open, "direct");
    assert!(file.directory.is_none());
    assert_eq!(file.detail, None);
    assert_eq!(fs.resolve_preview_path(&file.reference.id, "home").expect("resolves"), "/home/me/a.rs");

    let dir = EntryMetadata { is_symlink: false, is_file: false, is_dir: true };
    let link = EntryMetadata { is_symlink: true, is_file: false, is_dir: false };
    let linked = fs
        .describe_entry(
            "home",
            "/home/me/link",
            "link".to_owned(),
            LocalEntryFacts { file_type: link, metadata: Some(link), target: Some(dir), len: Some(7), modified_at: None },
            ContentAvailability::Local,
            false,
        )
        .expect("link");
    assert_eq!(linked.kind, "symlink");
    assert_eq!(linked.content_kind, "folder");
    assert_eq!(linked.size, None);
    assert!(linked.directory.is_some());
    assert_eq!(linked.detail, Some("Symbolic link".to_owned()));
    assert_eq!(linked.native_open, "none");
}

fn target() -> ResolvedSshTarget {
    ResolvedSshTarget {
        id: "manual:1".to_owned(),
        name: "Server".to_owned(),
        host: "example.org".to_owned(),
        port: 22,
        username: "me".to_owned(),
        initial_path: "/".to_owned(),
        identity_files: Vec::new(),
        identities_only: false,
        known_hosts_path: "/home/me/.ssh/known_hosts".to_owned(),
    }
}

#[test]
fn remote_entries_are_described_with_their_session() {
    let mut session = RemoteSession::new(target(), RemotePathRegistry::new(), "/srv").expect("session");
    let file = describe_remote_entry(
        &mut session, "/srv/main.rs", "main.rs".to_owned(), false, false, true, None, Some(5), ContentAvailability::Local, "download",
    )
    .expect("file");
    assert_eq!(file.kind, "file");
    assert_eq!(file.content_kind, "code");
    assert_eq!(file.size, Some("0".to_owned()));
    assert_eq!(file.modified_at, Some(5000));
    assert_eq!(file.display_path, "Server:/srv/main.rs");
    assert_eq!(file.reference.location_id, "ssh:manual:1");
    assert_eq!(session.resolve(&file.reference.id).expect("resolves"), "/srv/main.rs");

    let dir = describe_remote_entry(
        &mut session, "/srv/app", "app".to_owned(), true, true, false, Some(4096), None, ContentAvailability::Local, "none",
    )
    .expect("dir");
    assert_eq!(dir.kind, "symlink");
    assert_eq!(dir.size, None);
    assert_eq!(dir.directory.expect("navigable").name, "app");
}

#[test]
fn cloud_entries_keep_their_kind_size_and_availability() {
    let mut fs = GioFilesystem::new();
    fs.replace_roots(vec![GioRootCandidate {
        identity: b"a".to_vec(),
        uri: "google-drive://a/".to_owned(),
        provider: SyncedFolderProvider::GoogleDrive,
    }])
    .expect("roots");
    let location = fs.locations()[0].clone();
    let file = describe_gio_entry(
        &mut fs, &location.id, &location.root.id, "google-drive://a/Report.PDF".to_owned(), "Report.PDF".to_owned(),
        GioFileType::Regular, false, 2048, Some(10), "none",
    )
    .expect("file");
    assert_eq!(file.kind, "file");
    assert_eq!(file.content_kind, "document");
    assert_eq!(file.size, Some("2048".to_owned()));
    assert_eq!(file.modified_at, Some(10_000));
    assert_eq!(file.availability, ContentAvailability::Unknown);
    assert_eq!(file.display_path, "Google Drive/Report.PDF");

    let folder = describe_gio_entry(
        &mut fs, &location.id, &location.root.id, "google-drive://a/Folder".to_owned(), "Folder".to_owned(),
        GioFileType::Directory, false, -1, Some(u64::MAX), "none",
    )
    .expect("folder");
    assert_eq!(folder.kind, "directory");
    assert_eq!(folder.size, None);
    assert_eq!(folder.modified_at, None);
    assert_eq!(folder.availability, ContentAvailability::Local);
    assert_eq!(folder.directory.expect("navigable").id, folder.reference.id);
    assert_eq!(gio_content_kind_of("archive.tar.GZ", false), "archive");
    assert_eq!(gio_content_kind_of("noext", false), "other");
}

#[test]
fn cloud_entries_are_registered_once_and_only_under_known_directories() {
    let mut fs = GioFilesystem::new();
    fs.replace_roots(vec![GioRootCandidate {
        identity: b"a".to_vec(),
        uri: "google-drive://a/".to_owned(),
        provider: SyncedFolderProvider::GoogleDrive,
    }])
    .expect("roots");
    let location = fs.locations()[0].clone();
    let first = describe_gio_entry(
        &mut fs, &location.id, &location.root.id, "google-drive://a/Notes".to_owned(), "Notes".to_owned(),
        GioFileType::Regular, false, 1, None, "none",
    )
    .expect("first");
    let again = describe_gio_entry(
        &mut fs, &location.id, &location.root.id, "google-drive://a/Notes".to_owned(), "Notes".to_owned(),
        GioFileType::Regular, false, 1, None, "none",
    )
    .expect("again");
    assert_eq!(again.reference.id, first.reference.id);
    assert_eq!(again.display_path, first.display_path);
    assert!(describe_gio_entry(
        &mut fs, &location.id, "unknown-directory", "google-drive://a/Other".to_owned(), "Other".to_owned(),
        GioFileType::Regular, false, 1, None, "none",
    )
    .is_err());
    assert!(describe_gio_entry(
        &mut fs, "gio:unknown", &location.root.id, "google-drive://a/Other".to_owned(), "Other".to_owned(),
        GioFileType::Regular, false, 1, None, "none",
    )
    .is_err());
}
