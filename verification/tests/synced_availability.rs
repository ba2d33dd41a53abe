use std::cell::Cell;

use explora::filesystem::ContentAvailability;
use explora::synced_availability::{
    icloud_read_result, inspect_windows_metadata, map_icloud_metadata, map_windows_placeholder_metadata,
    windows_read_result, ICloudAvailabilityMetadata, ICloudDownloadStatus, ICloudMetadataSource,
    SyncedAvailabilityInspector, SyncedAvailabilityPolicy, WindowsPlaceholderMetadata,
    WindowsPlaceholderMetadataSource, WINDOWS_ATTRIBUTE_OFFLINE, WINDOWS_ATTRIBUTE_RECALL_ON_DATA_ACCESS,
    WINDOWS_ATTRIBUTE_RECALL_ON_OPEN, WINDOWS_STATE_INVALID, WINDOWS_STATE_PARTIAL, WINDOWS_STATE_PARTIALLY_ON_DISK,
    WINDOWS_STATE_PLACEHOLDER,
};

fn metadata(status: ICloudDownloadStatus) -> ICloudAvailabilityMetadata {
    ICloudAvailabilityMetadata {
        is_ubiquitous: Some(true),
        is_downloading: Some(false),
        download_status: Some(status),
        has_download_error: false,
    }
}

struct FixtureSource {
    calls: Cell<usize>,
    metadata: ICloudAvailabilityMetadata,
}

impl ICloudMetadataSource<String> for FixtureSource {
    fn read_metadata(&self, _path: &String, _is_directory: bool) -> Result<ICloudAvailabilityMetadata, ()> {
        self.calls.set(self.calls.get() + 1);
        Ok(self.metadata)
    }
}

struct WindowsFixtureSource {
    calls: Cell<usize>,
    metadata: WindowsPlaceholderMetadata,
}

impl WindowsPlaceholderMetadataSource<String> for WindowsFixtureSource {
    fn read_metadata(&self, _path: &String) -> Result<WindowsPlaceholderMetadata, ()> {
        self.calls.set(self.calls.get() + 1);
        Ok(self.metadata)
    }
}

#[test]
fn maps_documented_icloud_download_states_conservatively() {
    assert_eq!(map_icloud_metadata(metadata(ICloudDownloadStatus::Current)), ContentAvailability::Local);
    assert_eq!(map_icloud_metadata(metadata(ICloudDownloadStatus::Downloaded)), ContentAvailability::Syncing);
    assert_eq!(map_icloud_metadata(metadata(ICloudDownloadStatus::NotDownloaded)), ContentAvailability::OnlineOnly);
    assert_eq!(map_icloud_metadata(metadata(ICloudDownloadStatus::Other)), ContentAvailability::Unknown);
}

#[test]
fn download_activity_and_errors_take_precedence_over_status() {
    let mut fixture = metadata(ICloudDownloadStatus::Current);
    fixture.is_downloading = Some(true);
    assert_eq!(map_icloud_metadata(fixture), ContentAvailability::Downloading);

    fixture.has_download_error = true;
    assert_eq!(map_icloud_metadata(fixture), ContentAvailability::Error);
}

#[test]
fn non_ubiquitous_items_remain_unknown() {
    let mut fixture = metadata(ICloudDownloadStatus::Current);
    fixture.is_ubiquitous = Some(false);
    assert_eq!(map_icloud_metadata(fixture), ContentAvailability::Unknown);
    fixture.is_ubiquitous = None;
    assert_eq!(map_icloud_metadata(fixture), ContentAvailability::Unknown);
}

#[test]
fn unknown_and_local_mirror_policies_do_not_query_icloud_metadata() {
    let inspector = SyncedAvailabilityInspector {
        source: FixtureSource { calls: Cell::new(0), metadata: metadata(ICloudDownloadStatus::Current) },
        windows_source: WindowsFixtureSource {
            calls: Cell::new(0),
            metadata: WindowsPlaceholderMetadata { state: 0, attributes: 0 },
        },
    };
    let path = "ignored".to_owned();

    assert_eq!(inspector.inspect(SyncedAvailabilityPolicy::Unknown, &path, false), ContentAvailability::Unknown);
    assert_eq!(inspector.inspect(SyncedAvailabilityPolicy::LocalMirror, &path, false), ContentAvailability::Local);
    assert_eq!(inspector.source.calls.get(), 0);

    assert_eq!(inspector.inspect(SyncedAvailabilityPolicy::ICloud, &path, false), ContentAvailability::Local);
    assert_eq!(inspector.source.calls.get(), 1);
    assert_eq!(inspector.windows_source.calls.get(), 0);
}

#[test]
fn maps_windows_cloud_files_states_without_opening_content() {
    let cases = [
        (0, 0, ContentAvailability::Local),
        (WINDOWS_STATE_PLACEHOLDER, 0, ContentAvailability::Local),
        (WINDOWS_STATE_PLACEHOLDER, WINDOWS_ATTRIBUTE_OFFLINE, ContentAvailability::OnlineOnly),
        (WINDOWS_STATE_PLACEHOLDER, WINDOWS_ATTRIBUTE_RECALL_ON_DATA_ACCESS, ContentAvailability::OnlineOnly),
        (WINDOWS_STATE_PLACEHOLDER | WINDOWS_STATE_PARTIAL, WINDOWS_ATTRIBUTE_OFFLINE, ContentAvailability::Partial),
        (
            WINDOWS_STATE_PLACEHOLDER | WINDOWS_STATE_PARTIAL | WINDOWS_STATE_PARTIALLY_ON_DISK,
            WINDOWS_ATTRIBUTE_RECALL_ON_OPEN,
            ContentAvailability::Partial,
        ),
        (WINDOWS_STATE_INVALID, 0, ContentAvailability::Unknown),
    ];
    for (state, attributes, expected) in cases {
        assert_eq!(map_windows_placeholder_metadata(WindowsPlaceholderMetadata { state, attributes }), expected);
    }

    let source = WindowsFixtureSource {
        calls: Cell::new(0),
        metadata: WindowsPlaceholderMetadata { state: WINDOWS_STATE_PLACEHOLDER, attributes: WINDOWS_ATTRIBUTE_OFFLINE },
    };
    assert_eq!(inspect_windows_metadata(&source, &"metadata-only".to_owned()), ContentAvailability::OnlineOnly);
    assert_eq!(source.calls.get(), 1);
}

#[test]
fn failed_metadata_reads_are_unknown() {
    assert_eq!(icloud_read_result(Err(())), ContentAvailability::Unknown);
    assert_eq!(windows_read_result(Err(())), ContentAvailability::Unknown);
    assert_eq!(icloud_read_result(Ok(metadata(ICloudDownloadStatus::NotDownloaded))), ContentAvailability::OnlineOnly);
}

#[test]
fn the_windows_policy_reads_placeholder_metadata_only() {
    let inspector = SyncedAvailabilityInspector {
        source: FixtureSource { calls: Cell::new(0), metadata: metadata(ICloudDownloadStatus::Current) },
        windows_source: WindowsFixtureSource {
            calls: Cell::new(0),
            metadata: WindowsPlaceholderMetadata { state: WINDOWS_STATE_PLACEHOLDER, attributes: WINDOWS_ATTRIBUTE_RECALL_ON_OPEN },
        },
    };
    let path = "placeholder".to_owned();
    assert_eq!(
        inspector.inspect(SyncedAvailabilityPolicy::WindowsCloudFiles, &path, false),
        ContentAvailability::OnlineOnly
    );
    assert_eq!(inspector.windows_source.calls.get(), 1);
    assert_eq!(inspector.source.calls.get(), 0);
}

#[test]
fn ordinary_local_files_are_not_misclassified_as_icloud_content() {
    let mut local = metadata(ICloudDownloadStatus::Current);
    local.is_ubiquitous = Some(false);
    let inspector = SyncedAvailabilityInspector {
        source: FixtureSource { calls: Cell::new(0), metadata: local },
        windows_source: WindowsFixtureSource {
            calls: Cell::new(0),
            metadata: WindowsPlaceholderMetadata { state: 0, attributes: 0 },
        },
    };
    let path = "temporary file".to_owned();
    assert_eq!(inspector.inspect(SyncedAvailabilityPolicy::ICloud, &path, false), ContentAvailability::Unknown);
}
