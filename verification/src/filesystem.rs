//! Shared filesystem vocabulary: references, listing events, locations and the
//! error model that crosses the IPC boundary.

use vstd::prelude::*;

verus! {

/// Number of entries sent in one listing batch.
pub const LISTING_BATCH_SIZE: usize = 256;

#[derive(Debug, Clone, Copy, PartialEq, Eq, Structural)]
pub enum ImagePreviewMode {
    Direct,
    Sanitized,
}

#[derive(Debug, Clone, Copy, PartialEq, Eq, Structural)]
pub enum PreviewUnavailableReason {
    Unsupported,
    Remote,
    Directory,
    Symlink,
    TooLarge,
    Binary,
    Malformed,
    TimedOut,
}

#[derive(Debug, Clone, PartialEq, Eq)]
pub enum PreviewContentDto {
    Metadata { reason: PreviewUnavailableReason, message: String },
    Text { text: String, truncated: bool, encoding: String },
    Image {
        resource_id: String,
        media_type: String,
        image_mode: ImagePreviewMode,
        width: u32,
        height: u32,
        original_width: u32,
        original_height: u32,
    },
}

#[derive(Debug, Clone, PartialEq, Eq)]
pub struct PreviewResultDto {
    pub entry_id: String,
    pub size: Option<String>,
    pub modified_at: Option<u64>,
    pub content: PreviewContentDto,
}

#[derive(Debug, Clone, Copy, PartialEq, Eq, Structural)]
pub enum LocationRole {
    Home,
    Desktop,
    Documents,
    Downloads,
    Pictures,
    Music,
    Videos,
    Ssh,
    Volume,
    SyncedFolder,
}

#[derive(Debug, Clone, Copy, PartialEq, Eq, Structural)]
pub enum LocationBackend {
    Local,
    Ssh,
    Gio,
}

/// Whether the bytes of a synced item are present on this machine.
#[derive(Debug, Clone, Copy, PartialEq, Eq, Structural)]
pub enum ContentAvailability {
    Local,
    Syncing,
    OnlineOnly,
    Downloading,
    Partial,
    Error,
    Unknown,
}

/// The providers that own synced folders, in their canonical order.
#[derive(Debug, Clone, Copy, PartialEq, Eq, PartialOrd, Ord, Hash, Structural)]
pub enum SyncedFolderProvider {
    ICloudDrive,
    OneDrive,
    GoogleDrive,
    Other,
}

/// The name under which a provider is shown.
pub open spec fn provider_display_name(provider: SyncedFolderProvider) -> Seq<char> {
    match provider {
        SyncedFolderProvider::ICloudDrive => "iCloud Drive"@,
        SyncedFolderProvider::OneDrive => "OneDrive"@,
        SyncedFolderProvider::GoogleDrive => "Google Drive"@,
        SyncedFolderProvider::Other => "Synced Folder"@,
    }
}

/// The canonical order of providers.
pub open spec fn provider_rank(provider: SyncedFolderProvider) -> nat {
    match provider {
        SyncedFolderProvider::ICloudDrive => 0,
        SyncedFolderProvider::OneDrive => 1,
        SyncedFolderProvider::GoogleDrive => 2,
        SyncedFolderProvider::Other => 3,
    }
}

impl SyncedFolderProvider {
    pub fn display_name(&self) -> (r: &'static str)
        ensures
            r@ == provider_display_name(*self),
    {
        match self {
            SyncedFolderProvider::ICloudDrive => "iCloud Drive",
            SyncedFolderProvider::OneDrive => "OneDrive",
            SyncedFolderProvider::GoogleDrive => "Google Drive",
            SyncedFolderProvider::Other => "Synced Folder",
        }
    }

    pub fn rank(&self) -> (r: u8)
        ensures
            r == provider_rank(*self),
    {
        match self {
            SyncedFolderProvider::ICloudDrive => 0,
            SyncedFolderProvider::OneDrive => 1,
            SyncedFolderProvider::GoogleDrive => 2,
            SyncedFolderProvider::Other => 3,
        }
    }
}

#[derive(Debug, Clone, Copy, PartialEq, Eq, Structural)]
pub enum SyncedFolderStatus {
    Available,
    Offline,
    Error,
}

#[derive(Debug, Clone, Copy, PartialEq, Eq, Structural)]
pub enum SyncedFolderSource {
    System,
    Manual,
}

#[derive(Debug, Clone, Copy, PartialEq, Eq, Structural)]
pub struct SyncedFolderMetadataDto {
    pub provider: SyncedFolderProvider,
    pub status: SyncedFolderStatus,
    pub source: SyncedFolderSource,
}

#[derive(Debug, Clone, PartialEq, Eq)]
pub struct EntryRefDto {
    pub id: String,
    pub location_id: String,
}

#[derive(Debug, Clone, PartialEq, Eq)]
pub struct DirectoryRefDto {
    pub id: String,
    pub location_id: String,
    pub name: String,
    pub display_path: String,
}

#[derive(Debug, Clone, PartialEq, Eq)]
pub struct BreadcrumbSegmentDto {
    pub label: String,
    pub directory: DirectoryRefDto,
}

#[derive(Debug, Clone, PartialEq, Eq)]
pub struct LocationSummaryDto {
    pub id: String,
    pub name: String,
    pub backend: LocationBackend,
    pub kind: String,
    pub role: LocationRole,
    pub status: String,
    pub display_path: String,
    pub detail: String,
    pub root: DirectoryRefDto,
    pub synced_folder: Option<SyncedFolderMetadataDto>,
}

#[derive(Debug, Clone, PartialEq, Eq)]
pub struct FileEntrySummaryDto {
    pub reference: EntryRefDto,
    pub name: String,
    pub kind: String,
    pub content_kind: String,
    pub size: Option<String>,
    pub modified_at: Option<u64>,
    pub display_path: String,
    pub directory: Option<DirectoryRefDto>,
    pub availability: ContentAvailability,
    pub detail: Option<String>,
    pub native_open: String,
}

#[derive(Debug, Clone, PartialEq, Eq)]
pub enum DirectoryListingEvent {
    Started {
        directory: DirectoryRefDto,
        parent: Option<DirectoryRefDto>,
        breadcrumbs: Vec<BreadcrumbSegmentDto>,
    },
    Entries { entries: Vec<FileEntrySummaryDto>, replace: bool },
    Complete { skipped_entries: usize },
}

/// The kinds of I/O failure that the explorer distinguishes.
#[derive(Debug, Clone, Copy, PartialEq, Eq, Structural)]
pub enum IoErrorKind {
    NotFound,
    PermissionDenied,
    NotADirectory,
    Other,
}

/// The stable error codes that the frontend matches on.
#[derive(Debug, Clone, Copy, PartialEq, Eq, Structural)]
pub enum ExplorerErrorCode {
    InvalidReference,
    NotFound,
    PermissionDenied,
    NotDirectory,
    Cancelled,
    Offline,
    AuthenticationFailed,
    HostKeyFailure,
    Unsupported,
    InvalidConfiguration,
    Unexpected,
    InvalidName,
    Conflict,
    SourceChanged,
    PartialCompletion,
    Unavailable,
    StaleReference,
    TimedOut,
    DestinationUnavailable,
    OutcomeUncertain,
}

#[derive(Debug, Clone, PartialEq, Eq)]
pub struct ExplorerErrorDto {
    pub code: ExplorerErrorCode,
    pub message: String,
}

#[derive(Debug, Clone, PartialEq, Eq)]
pub enum ExplorerError {
    InvalidReference,
    Cancelled,
    StateUnavailable,
    Io { message: String, kind: IoErrorKind },
    ChannelClosed,
    Offline(String),
    AuthenticationFailed(String),
    HostKeyFailure(String),
    Unsupported(String),
    InvalidConfiguration(String),
    Unexpected(String),
    InvalidName(String),
    Conflict,
    SourceChanged,
    PartialCompletion(String),
    Unavailable(String),
    StaleReference,
    TimedOut(String),
    DestinationUnavailable(String),
    OutcomeUncertain(String),
}

/// The code under which an error is reported to the frontend.
pub open spec fn error_code(error: ExplorerError) -> ExplorerErrorCode {
    match error {
        ExplorerError::InvalidReference => ExplorerErrorCode::InvalidReference,
        ExplorerError::Cancelled => ExplorerErrorCode::Cancelled,
        ExplorerError::Io { kind, .. } => match kind {
            IoErrorKind::NotFound => ExplorerErrorCode::NotFound,
            IoErrorKind::PermissionDenied => ExplorerErrorCode::PermissionDenied,
            IoErrorKind::NotADirectory => ExplorerErrorCode::NotDirectory,
            IoErrorKind::Other => ExplorerErrorCode::Unexpected,
        },
        ExplorerError::Offline(_) => ExplorerErrorCode::Offline,
        ExplorerError::AuthenticationFailed(_) => ExplorerErrorCode::AuthenticationFailed,
        ExplorerError::HostKeyFailure(_) => ExplorerErrorCode::HostKeyFailure,
        ExplorerError::Unsupported(_) => ExplorerErrorCode::Unsupported,
        ExplorerError::InvalidConfiguration(_) => ExplorerErrorCode::InvalidConfiguration,
        ExplorerError::InvalidName(_) => ExplorerErrorCode::InvalidName,
        ExplorerError::Conflict => ExplorerErrorCode::Conflict,
        ExplorerError::SourceChanged => ExplorerErrorCode::SourceChanged,
        ExplorerError::PartialCompletion(_) => ExplorerErrorCode::PartialCompletion,
        ExplorerError::Unavailable(_) => ExplorerErrorCode::Unavailable,
        ExplorerError::StaleReference => ExplorerErrorCode::StaleReference,
        ExplorerError::TimedOut(_) => ExplorerErrorCode::TimedOut,
        ExplorerError::DestinationUnavailable(_) => ExplorerErrorCode::DestinationUnavailable,
        ExplorerError::OutcomeUncertain(_) => ExplorerErrorCode::OutcomeUncertain,
        ExplorerError::StateUnavailable | ExplorerError::ChannelClosed
        | ExplorerError::Unexpected(_) => ExplorerErrorCode::Unexpected,
    }
}

/// The user-facing text of a variant without a message of its own.
pub open spec fn fixed_message(error: ExplorerError) -> Seq<char> {
    match error {
        ExplorerError::InvalidReference => "This filesystem reference is no longer valid."@,
        ExplorerError::Cancelled => "The request was cancelled."@,
        ExplorerError::StateUnavailable => "Explora's filesystem state is unavailable."@,
        ExplorerError::ChannelClosed => "The response channel closed unexpectedly."@,
        ExplorerError::Conflict => "An item with that name already exists."@,
        ExplorerError::SourceChanged => "The selected item changed before the action finished."@,
        ExplorerError::StaleReference => "This item is no longer available at its previous location."@,
        _ => Seq::empty(),
    }
}

/// The message of an error: the text it carries, or its fixed text.
pub open spec fn error_message(error: ExplorerError) -> Seq<char> {
    match error {
        ExplorerError::Io { message, .. } => message@,
        ExplorerError::Offline(m) => m@,
        ExplorerError::AuthenticationFailed(m) => m@,
        ExplorerError::HostKeyFailure(m) => m@,
        ExplorerError::Unsupported(m) => m@,
        ExplorerError::InvalidConfiguration(m) => m@,
        ExplorerError::Unexpected(m) => m@,
        ExplorerError::InvalidName(m) => m@,
        ExplorerError::PartialCompletion(m) => m@,
        ExplorerError::Unavailable(m) => m@,
        ExplorerError::TimedOut(m) => m@,
        ExplorerError::DestinationUnavailable(m) => m@,
        ExplorerError::OutcomeUncertain(m) => m@,
        _ => fixed_message(error),
    }
}

impl ExplorerError {
    /// An I/O failure described as "Explora could not {action} {path}: {detail}".
    pub fn io(action: &str, path: &str, detail: &str, kind: IoErrorKind) -> (r: ExplorerError)
        ensures
            r == (ExplorerError::Io {
                message: r->Io_message,
                kind,
            }),
            r->Io_message@ == "Explora could not "@ + action@ + " "@ + path@ + ": "@ + detail@,
    {
        let message = String::from_str("Explora could not ").concat(action).concat(" ").concat(
            path,
        ).concat(": ").concat(detail);
        ExplorerError::Io { message, kind }
    }

    /// The user-facing message of this error.
    pub fn message(&self) -> (r: String)
        ensures
            r@ == error_message(*self),
    {
        match self {
            ExplorerError::Io { message, .. } => message.clone(),
            ExplorerError::Offline(m) => m.clone(),
            ExplorerError::AuthenticationFailed(m) => m.clone(),
            ExplorerError::HostKeyFailure(m) => m.clone(),
            ExplorerError::Unsupported(m) => m.clone(),
            ExplorerError::InvalidConfiguration(m) => m.clone(),
            ExplorerError::Unexpected(m) => m.clone(),
            ExplorerError::InvalidName(m) => m.clone(),
            ExplorerError::PartialCompletion(m) => m.clone(),
            ExplorerError::Unavailable(m) => m.clone(),
            ExplorerError::TimedOut(m) => m.clone(),
            ExplorerError::DestinationUnavailable(m) => m.clone(),
            ExplorerError::OutcomeUncertain(m) => m.clone(),
            ExplorerError::InvalidReference => String::from_str(
                "This filesystem reference is no longer valid.",
            ),
            ExplorerError::Cancelled => String::from_str("The request was cancelled."),
            ExplorerError::StateUnavailable => String::from_str(
                "Explora's filesystem state is unavailable.",
            ),
            ExplorerError::ChannelClosed => String::from_str(
                "The response channel closed unexpectedly.",
            ),
            ExplorerError::Conflict => String::from_str("An item with that name already exists."),
            ExplorerError::SourceChanged => String::from_str(
                "The selected item changed before the action finished.",
            ),
            ExplorerError::StaleReference => String::from_str(
                "This item is no longer available at its previous location.",
            ),
        }
    }

    /// The code under which this error is reported.
    pub fn code(&self) -> (r: ExplorerErrorCode)
        ensures
            r == error_code(*self),
    {
        match self {
            ExplorerError::InvalidReference => ExplorerErrorCode::InvalidReference,
            ExplorerError::Cancelled => ExplorerErrorCode::Cancelled,
            ExplorerError::Io { kind, .. } => match kind {
                IoErrorKind::NotFound => ExplorerErrorCode::NotFound,
                IoErrorKind::PermissionDenied => ExplorerErrorCode::PermissionDenied,
                IoErrorKind::NotADirectory => ExplorerErrorCode::NotDirectory,
                IoErrorKind::Other => ExplorerErrorCode::Unexpected,
            },
            ExplorerError::Offline(_) => ExplorerErrorCode::Offline,
            ExplorerError::AuthenticationFailed(_) => ExplorerErrorCode::AuthenticationFailed,
            ExplorerError::HostKeyFailure(_) => ExplorerErrorCode::HostKeyFailure,
            ExplorerError::Unsupported(_) => ExplorerErrorCode::Unsupported,
            ExplorerError::InvalidConfiguration(_) => ExplorerErrorCode::InvalidConfiguration,
            ExplorerError::InvalidName(_) => ExplorerErrorCode::InvalidName,
            ExplorerError::Conflict => ExplorerErrorCode::Conflict,
            ExplorerError::SourceChanged => ExplorerErrorCode::SourceChanged,
            ExplorerError::PartialCompletion(_) => ExplorerErrorCode::PartialCompletion,
            ExplorerError::Unavailable(_) => ExplorerErrorCode::Unavailable,
            ExplorerError::StaleReference => ExplorerErrorCode::StaleReference,
            ExplorerError::TimedOut(_) => ExplorerErrorCode::TimedOut,
            ExplorerError::DestinationUnavailable(_) => ExplorerErrorCode::DestinationUnavailable,
            ExplorerError::OutcomeUncertain(_) => ExplorerErrorCode::OutcomeUncertain,
            ExplorerError::StateUnavailable | ExplorerError::ChannelClosed
            | ExplorerError::Unexpected(_) => ExplorerErrorCode::Unexpected,
        }
    }
}

impl ExplorerErrorDto {
    /// The IPC form of an error: its stable code and its message.
    pub fn from(error: ExplorerError) -> (r: ExplorerErrorDto)
        ensures
            r.code == error_code(error),
            r.message@ == error_message(error),
    {
        let code = error.code();
        let message = error.message();
        ExplorerErrorDto { code, message }
    }
}

/// A directory reference as (id, location id, name, display path).
pub open spec fn directory_view(d: DirectoryRefDto) -> (Seq<char>, Seq<char>, Seq<char>, Seq<char>) {
    (d.id@, d.location_id@, d.name@, d.display_path@)
}

pub struct LocationView {
    pub id: Seq<char>,
    pub name: Seq<char>,
    pub backend: LocationBackend,
    pub kind: Seq<char>,
    pub role: LocationRole,
    pub status: Seq<char>,
    pub display_path: Seq<char>,
    pub detail: Seq<char>,
    pub root: (Seq<char>, Seq<char>, Seq<char>, Seq<char>),
    pub synced_folder: Option<SyncedFolderMetadataDto>,
}

pub open spec fn location_view(l: LocationSummaryDto) -> LocationView {
    LocationView {
        id: l.id@,
        name: l.name@,
        backend: l.backend,
        kind: l.kind@,
        role: l.role,
        status: l.status@,
        display_path: l.display_path@,
        detail: l.detail@,
        root: directory_view(l.root),
        synced_folder: l.synced_folder,
    }
}

pub open spec fn location_views(v: Seq<LocationSummaryDto>) -> Seq<LocationView> {
    v.map_values(|l: LocationSummaryDto| location_view(l))
}

pub fn copy_directory(d: &DirectoryRefDto) -> (r: DirectoryRefDto)
    ensures
        directory_view(r) == directory_view(*d),
{
    DirectoryRefDto {
        id: d.id.clone(),
        location_id: d.location_id.clone(),
        name: d.name.clone(),
        display_path: d.display_path.clone(),
    }
}

pub fn copy_location_summary(l: &LocationSummaryDto) -> (r: LocationSummaryDto)
    ensures
        location_view(r) == location_view(*l),
{
    LocationSummaryDto {
        id: l.id.clone(),
        name: l.name.clone(),
        backend: l.backend,
        kind: l.kind.clone(),
        role: l.role,
        status: l.status.clone(),
        display_path: l.display_path.clone(),
        detail: l.detail.clone(),
        root: copy_directory(&l.root),
        synced_folder: l.synced_folder,
    }
}

pub fn copy_locations(v: &Vec<LocationSummaryDto>) -> (r: Vec<LocationSummaryDto>)
    ensures
        location_views(r@) == location_views(v@),
{
    let mut r: Vec<LocationSummaryDto> = Vec::new();
    let mut i: usize = 0;
    while i < v.len()
        invariant
            i <= v.len(),
            location_views(r@) == location_views(v@).take(i as int),
        decreases v.len() - i,
    {
        let l = copy_location_summary(&v[i]);
        let ghost prev = r@;
        r.push(l);
        assert(location_views(r@) =~= location_views(prev).push(location_view(v@[i as int])));
        i = i + 1;
        assert(location_views(r@) =~= location_views(v@).take(i as int));
    }
    assert(location_views(v@).take(v.len() as int) =~= location_views(v@));
    r
}

} // verus!
