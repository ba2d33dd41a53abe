use explora::filesystem::{ExplorerError, IoErrorKind};
use explora::platform_trash::{is_trashable_path, map_trash_error, PlatformTrash, SystemPlatformTrash, TrashFailure};

#[test]
fn trash_errors_do_not_expose_dependency_paths() {
    let mapped = map_trash_error(TrashFailure::CouldNotAccess { target: "/sensitive/location/private.txt".to_owned() });
    assert!(!mapped.message().contains("sensitive"));
    assert!(matches!(mapped, ExplorerError::Io { kind: IoErrorKind::PermissionDenied, .. }));
}

#[test]
fn every_trash_failure_has_a_stable_report() {
    assert_eq!(map_trash_error(TrashFailure::TargetedRoot), ExplorerError::InvalidReference);
    assert_eq!(
        map_trash_error(TrashFailure::FileSystem(IoErrorKind::NotFound)),
        ExplorerError::Io {
            message: "The operating system could not move this item to Trash.".to_owned(),
            kind: IoErrorKind::NotFound,
        }
    );
    assert_eq!(
        map_trash_error(TrashFailure::Other),
        ExplorerError::Unexpected("The operating system could not move this item to Trash.".to_owned())
    );
}

#[test]
fn an_unavailable_trash_refuses_before_touching_the_item() {
    let trash = SystemPlatformTrash { available: false };
    assert!(!trash.is_available());
    assert_eq!(
        trash.move_to_trash("/definitely/not/here"),
        Err(ExplorerError::Unsupported("The operating system Trash is not available for this item.".to_owned()))
    );
}

#[test]
fn a_missing_item_cannot_be_trashed() {
    let trash = SystemPlatformTrash { available: true };
    assert!(trash.is_available());
    assert!(trash.move_to_trash("/explora-test/definitely/missing/item").is_err());
}

#[test]
fn supported_desktop_targets_advertise_native_trash() {
    for os in ["macos", "linux", "windows"] {
        assert!(SystemPlatformTrash::for_os(os).is_available());
    }
    for os in ["android", "ios", "freebsd"] {
        assert!(!SystemPlatformTrash::for_os(os).is_available());
    }
}

struct RecordingTrash {
    available: bool,
}

impl PlatformTrash for RecordingTrash {
    fn is_available(&self) -> bool {
        self.available
    }

    fn move_to_trash(&self, path: &str) -> Result<(), ExplorerError> {
        if path.is_empty() {
            Err(ExplorerError::InvalidReference)
        } else {
            Ok(())
        }
    }
}

fn trash_through<T: PlatformTrash>(trash: &T, path: &str) -> Result<(), ExplorerError> {
    if !trash.is_available() {
        return Err(ExplorerError::Unsupported("The operating system Trash is not available for this item.".to_owned()));
    }
    trash.move_to_trash(path)
}

#[test]
fn the_trash_boundary_can_be_replaced() {
    assert_eq!(trash_through(&RecordingTrash { available: true }, "/item"), Ok(()));
    assert_eq!(trash_through(&RecordingTrash { available: true }, ""), Err(ExplorerError::InvalidReference));
    assert!(trash_through(&RecordingTrash { available: false }, "/item").is_err());
    let system = SystemPlatformTrash { available: false };
    assert!(trash_through(&system, "/item").is_err());
}

#[test]
fn paths_without_a_last_name_are_refused_before_the_trash_is_asked() {
    let trash = SystemPlatformTrash { available: true };
    for path in ["/..", "/a/..", "..", "a/../", "a/../.", "/a/../"] {
        assert_eq!(trash.move_to_trash(path), Err(ExplorerError::InvalidReference), "{path}");
    }
    assert!(is_trashable_path("/home/me/file.txt"));
    assert!(is_trashable_path("/home/me/.hidden"));
    assert!(is_trashable_path("/home/me/..."));
    assert!(is_trashable_path("/home/me/."));
    assert!(is_trashable_path("relative/item"));
    assert!(is_trashable_path("/"));
    assert!(is_trashable_path(""));
}
