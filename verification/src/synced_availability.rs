//! Whether the content of a synced item is on this machine, read from metadata
//! alone: iCloud ubiquitous-item keys and Windows Cloud Files placeholder states.

use vstd::prelude::*;

use crate::filesystem::ContentAvailability;

verus! {

/// The rule by which the items of a location are inspected.
#[derive(Debug, Clone, Copy, PartialEq, Eq, Structural)]
pub enum SyncedAvailabilityPolicy {
    ICloud,
    WindowsCloudFiles,
    LocalMirror,
    Unknown,
}

/// The documented values of the iCloud downloading-status key.
#[derive(Debug, Clone, Copy, PartialEq, Eq, Structural)]
pub enum ICloudDownloadStatus {
    Current,
    Downloaded,
    NotDownloaded,
    Other,
}

/// The iCloud resource values of one item, as far as they could be read.
#[derive(Debug, Clone, Copy, PartialEq, Eq, Structural)]
pub struct ICloudAvailabilityMetadata {
    pub is_ubiquitous: Option<bool>,
    pub is_downloading: Option<bool>,
    pub download_status: Option<ICloudDownloadStatus>,
    pub has_download_error: bool,
}

pub const WINDOWS_STATE_PLACEHOLDER: u32 = 0x0000_0001;
pub const WINDOWS_STATE_PARTIAL: u32 = 0x0000_0010;
pub const WINDOWS_STATE_PARTIALLY_ON_DISK: u32 = 0x0000_0020;
pub const WINDOWS_STATE_INVALID: u32 = 0xffff_ffff;
pub const WINDOWS_ATTRIBUTE_OFFLINE: u32 = 0x0000_1000;
pub const WINDOWS_ATTRIBUTE_RECALL_ON_OPEN: u32 = 0x0004_0000;
pub const WINDOWS_ATTRIBUTE_RECALL_ON_DATA_ACCESS: u32 = 0x0040_0000;

/// The Cloud Files placeholder state and the file attributes of one item.
#[derive(Debug, Clone, Copy, PartialEq, Eq, Structural)]
pub struct WindowsPlaceholderMetadata {
    pub state: u32,
    pub attributes: u32,
}

/// Availability from iCloud metadata. Only ubiquitous items are judged; an error wins over
/// an active download, which wins over the status; a downloaded but stale copy counts as
/// syncing.
pub open spec fn icloud_availability(m: ICloudAvailabilityMetadata) -> ContentAvailability {
    if m.is_ubiquitous != Some(true) {
        ContentAvailability::Unknown
    } else if m.has_download_error {
        ContentAvailability::Error
    } else if m.is_downloading == Some(true) {
        ContentAvailability::Downloading
    } else {
        match m.download_status {
            Some(ICloudDownloadStatus::Current) => ContentAvailability::Local,
            Some(ICloudDownloadStatus::Downloaded) => ContentAvailability::Syncing,
            Some(ICloudDownloadStatus::NotDownloaded) => ContentAvailability::OnlineOnly,
            _ => ContentAvailability::Unknown,
        }
    }
}

/// Availability from a placeholder state: an invalid state is unknown, a partial one is
/// partial, a non-placeholder is local, and a placeholder is online-only exactly when its
/// attributes say that opening or reading it recalls the content.
pub open spec fn windows_availability(m: WindowsPlaceholderMetadata) -> ContentAvailability {
    if m.state == WINDOWS_STATE_INVALID {
        ContentAvailability::Unknown
    } else if m.state & (WINDOWS_STATE_PARTIAL | WINDOWS_STATE_PARTIALLY_ON_DISK) != 0 {
        ContentAvailability::Partial
    } else if m.state & WINDOWS_STATE_PLACEHOLDER == 0 {
        ContentAvailability::Local
    } else if m.attributes & (WINDOWS_ATTRIBUTE_OFFLINE | WINDOWS_ATTRIBUTE_RECALL_ON_OPEN
        | WINDOWS_ATTRIBUTE_RECALL_ON_DATA_ACCESS) != 0 {
        ContentAvailability::OnlineOnly
    } else {
        ContentAvailability::Local
    }
}

/// How a Windows placeholder's state and attributes read, bit by bit: the invalid state is
/// unknown; any state with the partial (0x10) or partially-on-disk (0x20) bit is partial,
/// whatever its attributes; otherwise a state without the placeholder bit (0x1) is local,
/// and a placeholder is online-only exactly when an offline (0x1000), recall-on-open
/// (0x40000) or recall-on-data-access (0x400000) attribute is set.
pub proof fn lemma_windows_placeholder_bits(m: WindowsPlaceholderMetadata)
    ensures
        m.state == 0xffff_ffffu32 ==> windows_availability(m) == ContentAvailability::Unknown,
        m.state != 0xffff_ffffu32 && (m.state & 0x10u32 != 0 || m.state & 0x20u32 != 0) ==> windows_availability(m)
            == ContentAvailability::Partial,
        m.state != 0xffff_ffffu32 && m.state & 0x10u32 == 0 && m.state & 0x20u32 == 0 && m.state & 0x1u32 == 0
            ==> windows_availability(m) == ContentAvailability::Local,
        m.state != 0xffff_ffffu32 && m.state & 0x10u32 == 0 && m.state & 0x20u32 == 0 && m.state & 0x1u32 != 0 ==> (
            windows_availability(m) == ContentAvailability::OnlineOnly <==> (m.attributes & 0x1000u32 != 0
            || m.attributes & 0x4_0000u32 != 0 || m.attributes & 0x40_0000u32 != 0)),
        m.state != 0xffff_ffffu32 && m.state & 0x10u32 == 0 && m.state & 0x20u32 == 0 && m.state & 0x1u32 != 0 ==> (
            windows_availability(m) == ContentAvailability::Local <==> !(m.attributes & 0x1000u32 != 0
            || m.attributes & 0x4_0000u32 != 0 || m.attributes & 0x40_0000u32 != 0)),
{
    let st = m.state;
    let at = m.attributes;
    assert(st & (0x10u32 | 0x20u32) != 0 <==> (st & 0x10u32 != 0 || st & 0x20u32 != 0)) by (bit_vector);
    assert(at & (0x1000u32 | 0x4_0000u32 | 0x40_0000u32) != 0 <==> (at & 0x1000u32 != 0 || at & 0x4_0000u32 != 0
        || at & 0x40_0000u32 != 0)) by (bit_vector);
}

/// How an iCloud item reads: an item iCloud does not hold is unknown; for one it holds, a
/// download error wins, then a download under way; otherwise a current copy is local, a
/// downloaded but outdated one is syncing, one not downloaded is online-only, and any other
/// status is unknown. Only a held item with no error is ever reported local.
pub proof fn lemma_icloud_states(m: ICloudAvailabilityMetadata)
    ensures
        m.is_ubiquitous != Some(true) ==> icloud_availability(m) == ContentAvailability::Unknown,
        m.is_ubiquitous == Some(true) && m.has_download_error ==> icloud_availability(m) == ContentAvailability::Error,
        m.is_ubiquitous == Some(true) && !m.has_download_error && m.is_downloading == Some(true) ==> icloud_availability(m)
            == ContentAvailability::Downloading,
        m.is_ubiquitous == Some(true) && !m.has_download_error && m.is_downloading != Some(true) ==> (icloud_availability(m)
            == ContentAvailability::Local <==> m.download_status == Some(ICloudDownloadStatus::Current)),
        m.is_ubiquitous == Some(true) && !m.has_download_error && m.is_downloading != Some(true) ==> (icloud_availability(m)
            == ContentAvailability::Syncing <==> m.download_status == Some(ICloudDownloadStatus::Downloaded)),
        m.is_ubiquitous == Some(true) && !m.has_download_error && m.is_downloading != Some(true) ==> (icloud_availability(m)
            == ContentAvailability::OnlineOnly <==> m.download_status == Some(ICloudDownloadStatus::NotDownloaded)),
        icloud_availability(m) == ContentAvailability::Local ==> m.is_ubiquitous == Some(true) && !m.has_download_error,
{
}

pub fn map_icloud_metadata(metadata: ICloudAvailabilityMetadata) -> (r: ContentAvailability)
    ensures
        r == icloud_availability(metadata),
{
    if metadata.is_ubiquitous != Some(true) {
        return ContentAvailability::Unknown;
    }
    if metadata.has_download_error {
        return ContentAvailability::Error;
    }
    if metadata.is_downloading == Some(true) {
        return ContentAvailability::Downloading;
    }
    match metadata.download_status {
        Some(ICloudDownloadStatus::Current) => ContentAvailability::Local,
        Some(ICloudDownloadStatus::Downloaded) => ContentAvailability::Syncing,
        Some(ICloudDownloadStatus::NotDownloaded) => ContentAvailability::OnlineOnly,
        Some(ICloudDownloadStatus::Other) | None => ContentAvailability::Unknown,
    }
}

pub fn map_windows_placeholder_metadata(metadata: WindowsPlaceholderMetadata) -> (r: ContentAvailability)
    ensures
        r == windows_availability(metadata),
{
    if metadata.state == WINDOWS_STATE_INVALID {
        return ContentAvailability::Unknown;
    }
    if metadata.state & (WINDOWS_STATE_PARTIAL | WINDOWS_STATE_PARTIALLY_ON_DISK) != 0 {
        return ContentAvailability::Partial;
    }
    if metadata.state & WINDOWS_STATE_PLACEHOLDER == 0 {
        return ContentAvailability::Local;
    }
    if metadata.attributes & (WINDOWS_ATTRIBUTE_OFFLINE | WINDOWS_ATTRIBUTE_RECALL_ON_OPEN
        | WINDOWS_ATTRIBUTE_RECALL_ON_DATA_ACCESS) != 0 {
        return ContentAvailability::OnlineOnly;
    }
    ContentAvailability::Local
}

/// Reads the iCloud resource values of an item. Implementations read metadata only and
/// never open the item or request its content.
pub trait ICloudMetadataSource<P> {
    fn read_metadata(&self, path: &P, is_directory: bool) -> Result<ICloudAvailabilityMetadata, ()>;
}

/// Reads the directory-enumeration metadata of an item. Implementations never open the
/// item or request hydration.
pub trait WindowsPlaceholderMetadataSource<P> {
    fn read_metadata(&self, path: &P) -> Result<WindowsPlaceholderMetadata, ()>;
}

/// Availability from the outcome of reading iCloud metadata; a failed read is unknown.
pub open spec fn icloud_read_availability(read: Result<ICloudAvailabilityMetadata, ()>) -> ContentAvailability {
    match read {
        Ok(m) => icloud_availability(m),
        Err(_) => ContentAvailability::Unknown,
    }
}

/// Availability from the outcome of reading placeholder metadata; a failed read is unknown.
pub open spec fn windows_read_availability(read: Result<WindowsPlaceholderMetadata, ()>) -> ContentAvailability {
    match read {
        Ok(m) => windows_availability(m),
        Err(_) => ContentAvailability::Unknown,
    }
}

pub fn icloud_read_result(read: Result<ICloudAvailabilityMetadata, ()>) -> (r: ContentAvailability)
    ensures
        r == icloud_read_availability(read),
{
    match read {
        Ok(m) => map_icloud_metadata(m),
        Err(_) => ContentAvailability::Unknown,
    }
}

pub fn windows_read_result(read: Result<WindowsPlaceholderMetadata, ()>) -> (r: ContentAvailability)
    ensures
        r == windows_read_availability(read),
{
    match read {
        Ok(m) => map_windows_placeholder_metadata(m),
        Err(_) => ContentAvailability::Unknown,
    }
}

/// Placeholder availability of `path`, read through `source`.
pub fn inspect_windows_metadata<P, W: WindowsPlaceholderMetadataSource<P>>(source: &W, path: &P) -> (r: ContentAvailability)
    ensures
        exists|read: Result<WindowsPlaceholderMetadata, ()>| r == windows_read_availability(read),
{
    let read = source.read_metadata(path);
    windows_read_result(read)
}

/// Inspects items by policy, reading metadata only where the policy needs it.
pub struct SyncedAvailabilityInspector<I, W> {
    pub source: I,
    pub windows_source: W,
}

impl<I, W> SyncedAvailabilityInspector<I, W> {
    /// The availability of `path` under `policy`. A local mirror is local and an unknown
    /// policy is unknown without any metadata read; the other policies map what their source
    /// reads.
    pub fn inspect<P>(&self, policy: SyncedAvailabilityPolicy, path: &P, is_directory: bool) -> (r: ContentAvailability)
        where I: ICloudMetadataSource<P>, W: WindowsPlaceholderMetadataSource<P>,
        ensures
            policy == SyncedAvailabilityPolicy::LocalMirror ==> r == ContentAvailability::Local,
            policy == SyncedAvailabilityPolicy::Unknown ==> r == ContentAvailability::Unknown,
            policy == SyncedAvailabilityPolicy::ICloud ==> exists|read: Result<ICloudAvailabilityMetadata, ()>|
                r == icloud_read_availability(read),
            policy == SyncedAvailabilityPolicy::WindowsCloudFiles ==> exists|read: Result<WindowsPlaceholderMetadata, ()>|
                r == windows_read_availability(read),
    {
        match policy {
            SyncedAvailabilityPolicy::ICloud => {
                let read = self.source.read_metadata(path, is_directory);
                icloud_read_result(read)
            },
            SyncedAvailabilityPolicy::WindowsCloudFiles => self.inspect_windows_metadata(path),
            SyncedAvailabilityPolicy::LocalMirror => ContentAvailability::Local,
            SyncedAvailabilityPolicy::Unknown => ContentAvailability::Unknown,
        }
    }

    pub fn inspect_windows_metadata<P>(&self, path: &P) -> (r: ContentAvailability)
        where W: WindowsPlaceholderMetadataSource<P>,
        ensures
            exists|read: Result<WindowsPlaceholderMetadata, ()>| r == windows_read_availability(read),
    {
        inspect_windows_metadata(&self.windows_source, path)
    }
}

} // verus!
