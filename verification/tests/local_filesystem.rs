use explora::filesystem::{ExplorerError, LocationBackend, LocationRole};
use explora::local_filesystem::{
    content_kind, directory_name, is_native_application_bundle, native_open_capability, EntryMetadata, LocalDisk,
    LocalFilesystem, LocalRoot, VolumeRoot,
};
use explora::paths::{lowercase_path_extension, path_file_name};
use explora::registry::PathRegistry;

struct FakeDisk {
    directories: Vec<&'static str>,
}

impl LocalDisk for FakeDisk {
    fn is_dir(&self, path: &str) -> bool {
        self.directories.iter().any(|d| *d == path)
    }
}

fn root(id: &str, name: &str, role: LocationRole, path: &str) -> LocalRoot {
    LocalRoot { id: id.to_owned(), name: name.to_owned(), role, path: path.to_owned() }
}

#[test]
fn omits_duplicate_or_missing_roots() {
    let disk = FakeDisk { directories: vec!["/tmp/home"] };
    let filesystem = LocalFilesystem::new(
        vec![
            root("home", "Home", LocationRole::Home, "/tmp/home"),
            root("desktop", "Desktop", LocationRole::Desktop, "/tmp/home"),
            root("missing", "Missing", LocationRole::Downloads, "/tmp/home/missing"),
        ],
        &disk,
    )
    .expect("local filesystem");

    let locations = filesystem.locations().expect("locations");
    assert_eq!(locations.len(), 1);
    assert_eq!(locations[0].id, "home");
    assert_eq!(locations[0].role, LocationRole::Home);
    assert_eq!(locations[0].backend, LocationBackend::Local);
}

#[test]
fn a_filesystem_without_any_available_root_is_refused() {
    let disk = FakeDisk { directories: Vec::new() };
    let result = LocalFilesystem::new(vec![root("home", "Home", LocationRole::Home, "/nowhere")], &disk);
    assert!(matches!(result, Err(ExplorerError::Io { .. })));
}

#[test]
fn root_references_resolve_only_under_their_location() {
    let disk = FakeDisk { directories: vec!["/tmp/home", "/tmp/docs"] };
    let filesystem = LocalFilesystem::new(
        vec![
            root("home", "Home", LocationRole::Home, "/tmp/home"),
            root("documents", "Documents", LocationRole::Documents, "/tmp/docs"),
        ],
        &disk,
    )
    .expect("local filesystem");
    let locations = filesystem.locations().expect("locations");
    assert_eq!(locations.len(), 2);
    let home_root = &locations[0].root.id;
    assert_eq!(filesystem.resolve_preview_path(home_root, "home").expect("home root"), "/tmp/home");
    assert_eq!(filesystem.resolve_preview_path(home_root, "documents"), Err(ExplorerError::InvalidReference));
    assert_eq!(filesystem.resolve_preview_path(home_root, "unknown"), Err(ExplorerError::InvalidReference));
    assert_eq!(filesystem.resolve_preview_path("never-valid", "home"), Err(ExplorerError::InvalidReference));
}

#[test]
fn invalidates_volume_tokens_when_the_volume_disappears() {
    let disk = FakeDisk { directories: vec!["/tmp/home", "/media/usb"] };
    let mut filesystem =
        LocalFilesystem::new(vec![root("home", "Home", LocationRole::Home, "/tmp/home")], &disk).expect("filesystem");
    let volumes = filesystem
        .replace_volumes(
            vec![VolumeRoot {
                id: "volume:usb".to_owned(),
                name: "USB".to_owned(),
                path: "/media/usb".to_owned(),
                detail: "Removable".to_owned(),
            }],
            &disk,
        )
        .expect("volumes");
    assert_eq!(volumes.len(), 1);
    let volume = volumes[0].clone();
    assert_eq!(volume.role, LocationRole::Volume);
    assert_eq!(filesystem.resolve_preview_path(&volume.root.id, &volume.id).expect("volume root"), "/media/usb");
    assert_eq!(filesystem.locations().expect("locations").len(), 2);

    filesystem.replace_volumes(Vec::new(), &disk).expect("volume removed");
    assert_eq!(filesystem.resolve_preview_path(&volume.root.id, &volume.id), Err(ExplorerError::InvalidReference));
    assert_eq!(filesystem.locations().expect("locations").len(), 1);
}

#[test]
fn registry_ids_are_stable_per_path_and_scoped_per_location() {
    let mut registry = PathRegistry::new();
    let a = registry.register("home", "/tmp/a").expect("a");
    assert_eq!(registry.register("home", "/tmp/a").expect("again"), a);
    let b = registry.register("home", "/tmp/b").expect("b");
    assert_ne!(a, b);
    assert!(!a.contains("/tmp"));
    assert_eq!(registry.resolve("home", &a).expect("resolve"), "/tmp/a");
    assert_eq!(registry.resolve("other", &a), Err(ExplorerError::InvalidReference));
    registry.remove_location("home");
    assert_eq!(registry.resolve("home", &a), Err(ExplorerError::InvalidReference));
}

#[test]
fn entry_kinds_follow_the_extension() {
    assert_eq!(content_kind("/tmp/photo.JPG", false), "image");
    assert_eq!(content_kind("/tmp/main.rs", false), "code");
    assert_eq!(content_kind("/tmp/notes.md", false), "document");
    assert_eq!(content_kind("/tmp/song.flac", false), "audio");
    assert_eq!(content_kind("/tmp/clip.mkv", false), "video");
    assert_eq!(content_kind("/tmp/bundle.tar", false), "archive");
    assert_eq!(content_kind("/tmp/README", false), "other");
    assert_eq!(content_kind("/tmp/photos.png", true), "folder");
}

#[test]
fn only_files_and_application_bundles_open_natively() {
    let file = EntryMetadata { is_symlink: false, is_file: true, is_dir: false };
    let dir = EntryMetadata { is_symlink: false, is_file: false, is_dir: true };
    let link = EntryMetadata { is_symlink: true, is_file: false, is_dir: false };
    assert_eq!(native_open_capability(file, None, false), "direct");
    assert_eq!(native_open_capability(dir, None, false), "none");
    assert_eq!(native_open_capability(dir, None, true), "direct");
    assert_eq!(native_open_capability(link, Some(file), false), "direct");
    assert_eq!(native_open_capability(link, None, false), "none");
    assert!(is_native_application_bundle("/Applications/Mail.APP"));
    assert!(!is_native_application_bundle("/Applications/Mail"));
}

#[test]
fn path_names_and_extensions() {
    assert_eq!(path_file_name("/srv/app/"), Some("app".to_owned()));
    assert_eq!(path_file_name("/"), None);
    assert_eq!(lowercase_path_extension("/tmp/Archive.TAR"), Some("tar".to_owned()));
    assert_eq!(lowercase_path_extension("/tmp/.bashrc"), None);
    assert_eq!(directory_name("/tmp/home"), "home");
    assert_eq!(directory_name("/"), "/");
}

#[test]
fn drawn_identifiers_decide_only_whether_roots_can_be_registered() {
    let roots = vec![
        root("home", "Home", LocationRole::Home, "/tmp/home"),
        root("desktop", "Desktop", LocationRole::Desktop, "/tmp/home/Desktop"),
    ];
    let filesystem = LocalFilesystem::new_with(roots.clone(), vec![true, true], vec!["id-a".to_owned(), "id-b".to_owned()])
        .expect("distinct identifiers");
    let locations = filesystem.locations().expect("locations");
    assert_eq!(locations.len(), 2);
    assert_eq!(locations[0].root.id, "id-a");
    assert_eq!(locations[1].root.id, "id-b");
    assert_eq!(
        LocalFilesystem::new_with(roots.clone(), vec![true, true], vec!["same".to_owned(), "same".to_owned()]).err(),
        Some(ExplorerError::StateUnavailable)
    );
    assert!(matches!(
        LocalFilesystem::new_with(roots, vec![false, false], vec!["a".to_owned(), "b".to_owned()]),
        Err(ExplorerError::Io { .. })
    ));
}

#[test]
fn volumes_with_fresh_identifiers_are_always_replaced() {
    let mut filesystem = LocalFilesystem::new_with(
        vec![root("home", "Home", LocationRole::Home, "/tmp/home")],
        vec![true],
        vec!["home-root".to_owned()],
    )
    .expect("filesystem");
    let volume = VolumeRoot {
        id: "volume:usb".to_owned(),
        name: "USB".to_owned(),
        path: "/media/usb".to_owned(),
        detail: "External drive".to_owned(),
    };
    assert_eq!(
        filesystem.replace_volumes_with(vec![volume.clone()], vec![true], vec!["home-root".to_owned()]).err(),
        Some(ExplorerError::StateUnavailable)
    );
    let summaries = filesystem.replace_volumes_with(vec![volume], vec![true], vec!["usb-root".to_owned()]).expect("replaced");
    assert_eq!(summaries.len(), 1);
    assert_eq!(summaries[0].root.id, "usb-root");
}

#[test]
fn a_drawn_identifier_in_use_is_refused_and_a_known_path_keeps_its_identifier() {
    let mut registry = PathRegistry::new();
    assert_eq!(registry.register_with("home", "/tmp/home/a", "first".to_owned()), Ok("first".to_owned()));
    assert_eq!(registry.register_with("home", "/tmp/home/a", "unused".to_owned()), Ok("first".to_owned()));
    assert_eq!(registry.register_with("home", "/tmp/home/b", "first".to_owned()), Err(ExplorerError::StateUnavailable));
    assert_eq!(registry.register_with("home", "/tmp/home/b", "second".to_owned()), Ok("second".to_owned()));
    assert_eq!(registry.resolve("home", "second"), Ok("/tmp/home/b".to_owned()));
}
