use std::cell::RefCell;

use explora::filesystem::{ExplorerError, SyncedFolderProvider, SyncedFolderSource, SyncedFolderStatus};
use explora::manual_synced_folders::{
    decode_path, encode_path, location_id, next_manual_name, valid_manual_name, ManualFoldersStorage,
    ManualSyncedFolderStore, StoredManualRoot, StoredManualRootsDocument, StoredPath, StoredRootsRead,
};
use explora::synced_availability::SyncedAvailabilityPolicy;

struct MemoryFolders {
    saved: RefCell<Option<Vec<StoredManualRoot>>>,
    present: RefCell<Vec<Vec<u8>>>,
}

impl MemoryFolders {
    fn new(present: &[&[u8]]) -> MemoryFolders {
        MemoryFolders { saved: RefCell::new(None), present: RefCell::new(present.iter().map(|p| p.to_vec()).collect()) }
    }
}

impl ManualFoldersStorage for &MemoryFolders {
    fn persist(&self, roots: &Vec<StoredManualRoot>) -> Result<(), ExplorerError> {
        *self.saved.borrow_mut() = Some(roots.clone());
        Ok(())
    }

    fn status(&self, path: &Vec<u8>) -> SyncedFolderStatus {
        if self.present.borrow().iter().any(|p| p == path) {
            SyncedFolderStatus::Available
        } else {
            SyncedFolderStatus::Offline
        }
    }
}

#[test]
fn persists_private_paths_and_exposes_only_opaque_ids() {
    let disk = MemoryFolders::new(&[b"/home/me/private-account-folder"]);
    let mut store = ManualSyncedFolderStore::new(&disk, true, StoredRootsRead::Missing).expect("store");

    let id = store.add(b"/home/me/private-account-folder".to_vec()).expect("added folder");
    assert!(id.starts_with("synced:manual:"));
    assert!(!id.contains("private-account"));
    let roots = store.discover().expect("discovered roots");
    assert_eq!(roots.len(), 1);
    assert_eq!(roots[0].id, id);
    assert_eq!(roots[0].path, b"/home/me/private-account-folder".to_vec());
    assert_eq!(roots[0].availability, SyncedAvailabilityPolicy::LocalMirror);
    assert_eq!(roots[0].metadata.provider, SyncedFolderProvider::Other);
    assert_eq!(roots[0].metadata.source, SyncedFolderSource::Manual);
    assert_eq!(roots[0].detail, "Manually added · Synced folder");

    let saved = disk.saved.borrow().clone().expect("saved records");
    let reopened = ManualSyncedFolderStore::new(
        &disk,
        true,
        StoredRootsRead::Document(StoredManualRootsDocument { version: 1, roots: saved }),
    )
    .expect("reopened store");
    assert_eq!(reopened.discover().expect("reloaded roots")[0].id, id);
}

#[test]
fn deduplicates_paths_and_removes_only_manual_ids() {
    let disk = MemoryFolders::new(&[b"/data/selected", b"/data/selected-two"]);
    let mut store = ManualSyncedFolderStore::new(&disk, true, StoredRootsRead::Missing).expect("store");

    let first = store.add(b"/data/selected".to_vec()).expect("first add");
    assert_eq!(store.add(b"/data/selected".to_vec()).expect("duplicate add"), first);
    assert_eq!(store.discover().expect("roots").len(), 1);
    let second = store.add(b"/data/selected-two".to_vec()).expect("second add");
    assert!(matches!(store.remove("synced:system-root"), Err(ExplorerError::InvalidReference)));
    store.remove(&first).expect("remove manual root");
    let remaining = store.discover().expect("remaining roots");
    assert_eq!(remaining.len(), 1);
    assert_eq!(remaining[0].name, "Synced Folder 2");
    store.remove(&second).expect("remove second root");
    assert!(store.discover().expect("roots after removal").is_empty());
}

#[test]
fn unavailable_roots_are_kept_offline() {
    let disk = MemoryFolders::new(&[b"/data/real"]);
    let mut store = ManualSyncedFolderStore::new(&disk, true, StoredRootsRead::Missing).expect("store");
    store.add(b"/data/real".to_vec()).expect("real root");
    disk.present.borrow_mut().clear();
    let roots = store.discover().expect("unavailable roots");
    assert_eq!(roots.len(), 1);
    assert_eq!(roots[0].metadata.status, SyncedFolderStatus::Offline);
    assert_eq!(roots[0].detail, "Manually added · Folder unavailable");
}

#[test]
fn round_trips_non_utf8_paths() {
    let selected = b"/tmp/synced-\xFF-folder".to_vec();
    let encoded = encode_path(&selected).expect("encode non-UTF-8 path");
    assert_eq!(decode_path(&encoded).expect("decode path"), selected);
    assert!(encode_path(&Vec::new()).is_err());
    assert!(encode_path(&b"/a\0b".to_vec()).is_err());
    assert!(decode_path(&StoredPath::WindowsWide(vec![0x43])).is_err());
}

#[test]
fn disabled_platforms_refuse_manual_folders() {
    let disk = MemoryFolders::new(&[]);
    let mut store = ManualSyncedFolderStore::new(&disk, false, StoredRootsRead::Missing).expect("store");
    assert!(!store.enabled());
    assert_eq!(
        store.add(b"/data".to_vec()),
        Err(ExplorerError::Unsupported("Adding synced folders manually is not supported on this platform.".to_owned()))
    );
    assert!(matches!(store.remove("synced:manual:x"), Err(ExplorerError::Unsupported(_))));
}

#[test]
fn manual_names_count_up_from_the_first_free_number() {
    let root = |id: &str, name: &str| StoredManualRoot {
        id: id.to_owned(),
        name: name.to_owned(),
        path: StoredPath::UnixBytes(b"/x".to_vec()),
    };
    assert_eq!(next_manual_name(&Vec::new()), "Synced Folder 1");
    assert_eq!(next_manual_name(&vec![root("a", "Synced Folder 1"), root("b", "Synced Folder 3")]), "Synced Folder 2");
    assert!(valid_manual_name("Synced Folder 7"));
    assert_eq!(location_id("abc"), "synced:manual:abc");
}
