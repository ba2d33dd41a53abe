//! How one listed entry is described to the frontend, for each backend: its opaque
//! reference, kind, size, dates, and whether it can be navigated into or opened.

use vstd::prelude::*;

use crate::filesystem::{ContentAvailability, EntryRefDto, ExplorerError, FileEntrySummaryDto};
use crate::gio::{child_display_path, ref_with_id, ref_with_uri, GioEntryKind, GioEntryMetadata, GioFilesystem, GioReferenceView};
use crate::ids::is_uuid_text;
use crate::local_filesystem::{
    content_kind, directory_name_of, display_path, display_text, local_content_kind, native_open,
    native_open_capability, EntryMetadata,
};
use crate::registry::{has_entry, has_key, registry_wf, PathEntry, PathRegistry, RemotePathRegistry};
use crate::ssh::{content_kind as remote_content_kind_of, remote_content_kind};
use crate::ssh_session::{remote_display, RemoteSession};
use crate::text::{decimal, decimal_string};

verus! {

/// What the disk says of a listed local entry: its type as the directory listing reports
/// it, its own metadata and, for a symbolic link, what it points to (each absent when it
/// could not be read), its length and its modification time in milliseconds.
pub struct LocalEntryFacts {
    pub file_type: EntryMetadata,
    pub metadata: Option<EntryMetadata>,
    pub target: Option<EntryMetadata>,
    pub len: Option<u64>,
    pub modified_at: Option<u64>,
}

pub open spec fn local_kind(t: EntryMetadata) -> Seq<char> {
    if t.is_dir {
        "directory"@
    } else if t.is_symlink {
        "symlink"@
    } else if t.is_file {
        "file"@
    } else {
        "other"@
    }
}

/// A local entry can be navigated into when it is a directory or links to one.
pub open spec fn local_navigable(f: LocalEntryFacts) -> bool {
    f.file_type.is_dir || (f.file_type.is_symlink && f.target is Some && f.target->0.is_dir)
}

pub open spec fn opt_decimal_text(o: Option<u64>) -> Option<Seq<char>> {
    match o {
        Some(n) => Some(decimal(n as nat)),
        None => None,
    }
}

pub open spec fn opt_string_view(o: Option<String>) -> Option<Seq<char>> {
    match o {
        Some(s) => Some(s@),
        None => None,
    }
}

fn kind_text(is_dir: bool, is_symlink: bool, is_file: bool) -> (r: String)
    ensures
        r@ == local_kind(EntryMetadata { is_symlink, is_file, is_dir }),
{
    if is_dir {
        "directory".to_owned()
    } else if is_symlink {
        "symlink".to_owned()
    } else if is_file {
        "file".to_owned()
    } else {
        "other".to_owned()
    }
}

fn opt_decimal_string(o: Option<u64>) -> (r: Option<String>)
    ensures
        opt_string_view(r) == opt_decimal_text(o),
{
    match o {
        Some(n) => Some(decimal_string(n)),
        None => None,
    }
}

fn symlink_detail(is_symlink: bool) -> (r: Option<String>)
    ensures
        opt_string_view(r) == if is_symlink { Some("Symbolic link"@) } else { None::<Seq<char>> },
{
    if is_symlink {
        Some("Symbolic link".to_owned())
    } else {
        None
    }
}

/// How a listed local entry is described.
pub open spec fn local_entry_described(
    e: FileEntrySummaryDto,
    registry: Seq<PathEntry>,
    location_id: Seq<char>,
    path: Seq<char>,
    name: Seq<char>,
    facts: LocalEntryFacts,
    availability: ContentAvailability,
    is_bundle: bool,
) -> bool {
    let navigable = local_navigable(facts);
    &&& has_entry(registry, (e.reference.id@, location_id, path))
    &&& e.reference.location_id@ == location_id
    &&& e.name@ == name
    &&& e.kind@ == local_kind(facts.file_type)
    &&& e.content_kind@ == local_content_kind(path, navigable)
    &&& opt_string_view(e.size) == (if facts.file_type.is_file { opt_decimal_text(facts.len) } else { None })
    &&& e.modified_at == facts.modified_at
    &&& e.display_path@ == display_text(path)
    &&& (navigable <==> e.directory is Some)
    &&& (navigable ==> e.directory->0.id@ == e.reference.id@ && e.directory->0.location_id@ == location_id
        && e.directory->0.name@ == name && e.directory->0.display_path@ == display_text(path))
    &&& e.availability == availability
    &&& opt_string_view(e.detail) == if facts.file_type.is_symlink { Some("Symbolic link"@) } else { None::<Seq<char>> }
    &&& e.native_open@ == match facts.metadata {
        Some(m) => native_open(m, facts.target, is_bundle),
        None => "none"@,
    }
}

/// Describes the local entry `name` at `path` of location `location_id`, registering its
/// reference. `availability` is what the location's synced-content rule says of it, and
/// `is_bundle` whether the desktop opens it as an application bundle.
pub fn describe_local_entry(
    registry: &mut PathRegistry,
    location_id: &str,
    path: &str,
    name: String,
    facts: LocalEntryFacts,
    availability: ContentAvailability,
    is_bundle: bool,
) -> (r: Result<FileEntrySummaryDto, ExplorerError>)
    requires
        registry_wf(old(registry)@),
    ensures
        registry_wf(final(registry)@),
        forall|e: PathEntry| has_entry(old(registry)@, e) ==> has_entry(final(registry)@, e),
        r is Err ==> r == Err::<FileEntrySummaryDto, ExplorerError>(ExplorerError::StateUnavailable)
            && final(registry)@ == old(registry)@,
        has_key(old(registry)@, location_id@, path@) ==> r is Ok && final(registry)@ == old(registry)@,
        r is Ok ==> local_entry_described(r->Ok_0, final(registry)@, location_id@, path@, name@, facts, availability, is_bundle),
{
    let navigable = facts.file_type.is_dir || (facts.file_type.is_symlink && match facts.target {
        Some(t) => t.is_dir,
        None => false,
    });
    let ghost before = registry@;
    let id = match registry.register(location_id, path) {
        Ok(id) => id,
        Err(e) => {
            return Err(e);
        },
    };
    assert forall|e: PathEntry| has_entry(before, e) implies has_entry(registry@, e) by {
        let k = choose|k: int| 0 <= k < before.len() && before[k] == e;
        assert(registry@[k] == e);
    }
    let directory = if navigable {
        Some(crate::filesystem::DirectoryRefDto {
            id: id.clone(),
            location_id: location_id.to_owned(),
            name: name.clone(),
            display_path: display_path(path),
        })
    } else {
        None
    };
    let size = if facts.file_type.is_file {
        opt_decimal_string(facts.len)
    } else {
        None
    };
    let native = match facts.metadata {
        Some(m) => native_open_capability(m, facts.target, is_bundle),
        None => "none",
    };
    Ok(FileEntrySummaryDto {
        reference: EntryRefDto { id, location_id: location_id.to_owned() },
        name,
        kind: kind_text(facts.file_type.is_dir, facts.file_type.is_symlink, facts.file_type.is_file),
        content_kind: content_kind(path, navigable).to_owned(),
        size,
        modified_at: facts.modified_at,
        display_path: display_path(path),
        directory,
        availability,
        detail: symlink_detail(facts.file_type.is_symlink),
        native_open: native.to_owned(),
    })
}

pub open spec fn remote_kind(is_symlink: bool, is_directory: bool, is_regular: bool) -> Seq<char> {
    if is_symlink {
        "symlink"@
    } else if is_directory {
        "directory"@
    } else if is_regular {
        "file"@
    } else {
        "other"@
    }
}

/// Describes the remote entry `name` at `path` of an SFTP listing. `is_directory` is, for
/// a symbolic link, whether it leads to a directory; a size the server did not send counts
/// as zero, and modification times arrive in seconds.
pub fn describe_remote_entry(
    session: &mut RemoteSession,
    path: &str,
    name: String,
    is_symlink: bool,
    is_directory: bool,
    is_regular: bool,
    size: Option<u64>,
    mtime_seconds: Option<u32>,
    availability: ContentAvailability,
    native_open_text: &str,
) -> (r: Result<FileEntrySummaryDto, ExplorerError>)
    requires
        old(session).wf(),
    ensures
        final(session).wf(),
        final(session).location() == old(session).location(),
        final(session).target() == old(session).target(),
        final(session).state() == old(session).state(),
        r is Err ==> r == Err::<FileEntrySummaryDto, ExplorerError>(ExplorerError::StateUnavailable),
        has_key(old(session).paths(), RemotePathRegistry::scope(), path@) ==> r is Ok,
        r is Ok ==> ({
            let e = r->Ok_0;
            &&& crate::registry::resolution(final(session).paths(), RemotePathRegistry::scope(), e.reference.id@) == Some(path@)
            &&& e.reference.location_id@ == old(session).location()
            &&& e.name@ == name@
            &&& e.kind@ == remote_kind(is_symlink, is_directory, is_regular)
            &&& e.content_kind@ == remote_content_kind(name@, is_directory)
            &&& opt_string_view(e.size) == (if is_directory { None } else { Some(decimal(match size {
                Some(n) => n as nat,
                None => 0nat,
            })) })
            &&& e.modified_at == match mtime_seconds {
                Some(s) => Some((s * 1000) as u64),
                None => None::<u64>,
            }
            &&& e.display_path@ == remote_display(old(session).target().name@, path@)
            &&& (is_directory <==> e.directory is Some)
            &&& (is_directory ==> e.directory->0.name@ == name@ && e.directory->0.location_id@ == old(session).location()
                && crate::registry::resolution(final(session).paths(), RemotePathRegistry::scope(), e.directory->0.id@)
                == Some(path@))
            &&& e.availability == availability
            &&& e.detail is None
            &&& e.native_open@ == native_open_text@
        }),
{
    let reference = match session.directory_ref(path, Some(name.clone())) {
        Ok(d) => d,
        Err(e) => {
            return Err(e);
        },
    };
    let directory = if is_directory {
        Some(crate::filesystem::DirectoryRefDto {
            id: reference.id.clone(),
            location_id: reference.location_id.clone(),
            name: name.clone(),
            display_path: reference.display_path.clone(),
        })
    } else {
        None
    };
    let size_text = if is_directory {
        None
    } else {
        Some(decimal_string(match size {
            Some(n) => n,
            None => 0,
        }))
    };
    let modified_at = match mtime_seconds {
        Some(s) => Some((s as u64) * 1000),
        None => None,
    };
    Ok(FileEntrySummaryDto {
        reference: EntryRefDto { id: reference.id, location_id: reference.location_id },
        name: name.clone(),
        kind: if is_symlink {
            "symlink".to_owned()
        } else if is_directory {
            "directory".to_owned()
        } else if is_regular {
            "file".to_owned()
        } else {
            "other".to_owned()
        },
        content_kind: remote_content_kind_of(name.as_str(), is_directory).to_owned(),
        size: size_text,
        modified_at,
        display_path: reference.display_path,
        directory,
        availability,
        detail: None,
        native_open: native_open_text.to_owned(),
    })
}

/// The type GIO reports for a listed file.
#[derive(Debug, Clone, Copy, PartialEq, Eq, Structural)]
pub enum GioFileType {
    Directory,
    SymbolicLink,
    Regular,
    Other,
}

/// The kind of text of a cloud entry's name: the text after its last dot, in lowercase.
pub open spec fn gio_content_kind(name: Seq<char>, is_directory: bool) -> Seq<char> {
    if is_directory {
        "folder"@
    } else {
        crate::paths::kind_of_extension(match crate::paths::after_last_dot(name) {
            Some(e) => Some(crate::text::ascii_lower_seq(e)),
            None => None,
        })
    }
}

pub fn gio_content_kind_of(name: &str, is_directory: bool) -> (r: &'static str)
    ensures
        r@ == gio_content_kind(name@, is_directory),
{
    if is_directory {
        return "folder";
    }
    let ext = crate::paths::lowercase_dot_suffix(name);
    crate::paths::kind_for_extension(&ext)
}

pub open spec fn gio_kind(file_type: GioFileType, is_symlink: bool) -> GioEntryKind {
    if file_type == GioFileType::Directory {
        GioEntryKind::Directory
    } else if is_symlink {
        GioEntryKind::Symlink
    } else if file_type == GioFileType::Regular {
        GioEntryKind::File
    } else {
        GioEntryKind::Other
    }
}

pub open spec fn gio_kind_text(kind: GioEntryKind) -> Seq<char> {
    match kind {
        GioEntryKind::Directory => "directory"@,
        GioEntryKind::Symlink => "symlink"@,
        GioEntryKind::File => "file"@,
        GioEntryKind::Other => "other"@,
    }
}

/// The metadata kept with a cloud entry: its kind, its size when it is a regular file with
/// a size, and its modification time in milliseconds when that fits.
pub open spec fn gio_metadata(file_type: GioFileType, is_symlink: bool, size: i64, modified_seconds: Option<u64>) -> GioEntryMetadata {
    GioEntryMetadata {
        kind: gio_kind(file_type, is_symlink),
        size: if file_type == GioFileType::Regular && size >= 0 { Some(size as u64) } else { None },
        modified_at: match modified_seconds {
            Some(sec) => if sec * 1000 <= u64::MAX { Some((sec * 1000) as u64) } else { None },
            None => None,
        },
    }
}

/// Describes an entry of a cloud directory listing, registering it under `directory_id`.
/// A symbolic link is flagged either by GIO's symlink attribute or by its type; regular
/// files report an unknown availability (their bytes may not be local), everything else
/// is local.
pub fn describe_gio_entry(
    filesystem: &mut GioFilesystem,
    location_id: &str,
    directory_id: &str,
    uri: String,
    name: String,
    file_type: GioFileType,
    symlink_flag: bool,
    size: i64,
    modified_seconds: Option<u64>,
    native_open_text: &str,
) -> (r: Result<FileEntrySummaryDto, ExplorerError>)
    requires
        old(filesystem).wf(),
    ensures
        final(filesystem).wf(),
        !old(filesystem).resolvable(location_id@, directory_id@) ==> r is Err && final(filesystem).refs() == old(filesystem).refs()
            && old(filesystem).lookup_error(location_id@, directory_id@, r->Err_0),
        old(filesystem).resolvable(location_id@, directory_id@) ==> match ref_with_uri(old(filesystem).refs(), location_id@, uri@) {
            Some(v) => r is Ok && r->Ok_0.reference.id@ == v.id && r->Ok_0.display_path@ == v.display_path
                && final(filesystem).refs() == old(filesystem).refs(),
            None => match r {
                Ok(e) => final(filesystem).refs() == old(filesystem).refs().push(GioReferenceView {
                    id: e.reference.id@,
                    location_id: location_id@,
                    uri: uri@,
                    name: name@,
                    display_path: e.display_path@,
                    parent_id: Some(directory_id@),
                    kind: gio_kind(file_type, symlink_flag || file_type == GioFileType::SymbolicLink),
                    size: gio_metadata(file_type, symlink_flag || file_type == GioFileType::SymbolicLink, size, modified_seconds).size,
                    modified_at: gio_metadata(file_type, symlink_flag || file_type == GioFileType::SymbolicLink, size, modified_seconds).modified_at,
                }) && e.display_path@ == child_display_path(ref_with_id(old(filesystem).refs(), directory_id@)->0.display_path, name@)
                    && is_uuid_text(e.reference.id@),
                Err(err) => err == ExplorerError::StateUnavailable && final(filesystem).refs() == old(filesystem).refs(),
            },
        },
        r is Ok ==> ({
            let e = r->Ok_0;
            let is_directory = file_type == GioFileType::Directory;
            let is_symlink = symlink_flag || file_type == GioFileType::SymbolicLink;
            let m = gio_metadata(file_type, is_symlink, size, modified_seconds);
            &&& e.reference.location_id@ == location_id@
            &&& e.name@ == name@
            &&& e.kind@ == gio_kind_text(m.kind)
            &&& e.content_kind@ == gio_content_kind(name@, is_directory)
            &&& opt_string_view(e.size) == opt_decimal_text(m.size)
            &&& e.modified_at == m.modified_at
            &&& (is_directory <==> e.directory is Some)
            &&& (is_directory ==> e.directory->0.id@ == e.reference.id@)
            &&& e.availability == if file_type == GioFileType::Regular {
                ContentAvailability::Unknown
            } else {
                ContentAvailability::Local
            }
            &&& opt_string_view(e.detail) == if is_symlink { Some("Symbolic link"@) } else { None::<Seq<char>> }
            &&& e.native_open@ == native_open_text@
        }),
{
    let is_directory = match file_type {
        GioFileType::Directory => true,
        _ => false,
    };
    let is_regular = match file_type {
        GioFileType::Regular => true,
        _ => false,
    };
    let is_symlink = symlink_flag || match file_type {
        GioFileType::SymbolicLink => true,
        _ => false,
    };
    let kind = if is_directory {
        GioEntryKind::Directory
    } else if is_symlink {
        GioEntryKind::Symlink
    } else if is_regular {
        GioEntryKind::File
    } else {
        GioEntryKind::Other
    };
    let numeric_size = if is_regular && size >= 0 {
        Some(size as u64)
    } else {
        None
    };
    let modified_at = match modified_seconds {
        Some(sec) => sec.checked_mul(1000),
        None => None,
    };
    let registered = match filesystem.register_child(
        location_id,
        directory_id,
        uri,
        name.clone(),
        GioEntryMetadata { kind, size: numeric_size, modified_at },
    ) {
        Ok(x) => x,
        Err(e) => {
            return Err(e);
        },
    };
    let kind_text = match kind {
        GioEntryKind::Directory => "directory",
        GioEntryKind::Symlink => "symlink",
        GioEntryKind::File => "file",
        GioEntryKind::Other => "other",
    };
    let directory = if is_directory {
        Some(registered.directory())
    } else {
        None
    };
    let content = gio_content_kind_of(name.as_str(), is_directory);
    Ok(FileEntrySummaryDto {
        reference: EntryRefDto { id: registered.id.clone(), location_id: location_id.to_owned() },
        name,
        kind: kind_text.to_owned(),
        content_kind: content.to_owned(),
        size: opt_decimal_string(numeric_size),
        modified_at,
        display_path: registered.display_path.clone(),
        directory,
        availability: if is_regular {
            ContentAvailability::Unknown
        } else {
            ContentAvailability::Local
        },
        detail: symlink_detail(is_symlink),
        native_open: native_open_text.to_owned(),
    })
}


/// The kind of a cloud entry: a directory is a folder; a file is of the desktop table that
/// lists the text after the last dot of its name, in any ASCII case, and "other" otherwise.
pub proof fn lemma_gio_content_kinds(name: Seq<char>)
    ensures
        gio_content_kind(name, true) == "folder"@,
        crate::paths::after_last_dot(name) is None ==> gio_content_kind(name, false) == "other"@,
        crate::paths::after_last_dot(name) matches Some(e) && (crate::text::ascii_lower_seq(e) == "png"@ || crate::text::ascii_lower_seq(e) == "jpg"@ || crate::text::ascii_lower_seq(e) == "jpeg"@ || crate::text::ascii_lower_seq(e) == "gif"@ || crate::text::ascii_lower_seq(e) == "webp"@ || crate::text::ascii_lower_seq(e) == "bmp"@ || crate::text::ascii_lower_seq(e) == "tif"@ || crate::text::ascii_lower_seq(e) == "tiff"@ || crate::text::ascii_lower_seq(e) == "svg"@) ==> gio_content_kind(name, false) == "image"@,
        crate::paths::after_last_dot(name) matches Some(e) && (crate::text::ascii_lower_seq(e) == "rs"@ || crate::text::ascii_lower_seq(e) == "ts"@ || crate::text::ascii_lower_seq(e) == "tsx"@ || crate::text::ascii_lower_seq(e) == "js"@ || crate::text::ascii_lower_seq(e) == "jsx"@ || crate::text::ascii_lower_seq(e) == "svelte"@ || crate::text::ascii_lower_seq(e) == "html"@ || crate::text::ascii_lower_seq(e) == "css"@ || crate::text::ascii_lower_seq(e) == "scss"@ || crate::text::ascii_lower_seq(e) == "json"@ || crate::text::ascii_lower_seq(e) == "toml"@ || crate::text::ascii_lower_seq(e) == "yaml"@ || crate::text::ascii_lower_seq(e) == "yml"@ || crate::text::ascii_lower_seq(e) == "py"@ || crate::text::ascii_lower_seq(e) == "go"@ || crate::text::ascii_lower_seq(e) == "c"@ || crate::text::ascii_lower_seq(e) == "h"@ || crate::text::ascii_lower_seq(e) == "cpp"@ || crate::text::ascii_lower_seq(e) == "hpp"@ || crate::text::ascii_lower_seq(e) == "java"@ || crate::text::ascii_lower_seq(e) == "kt"@ || crate::text::ascii_lower_seq(e) == "swift"@ || crate::text::ascii_lower_seq(e) == "sh"@) ==> gio_content_kind(name, false) == "code"@,
        crate::paths::after_last_dot(name) matches Some(e) && (crate::text::ascii_lower_seq(e) == "txt"@ || crate::text::ascii_lower_seq(e) == "md"@ || crate::text::ascii_lower_seq(e) == "pdf"@ || crate::text::ascii_lower_seq(e) == "rtf"@ || crate::text::ascii_lower_seq(e) == "doc"@ || crate::text::ascii_lower_seq(e) == "docx"@ || crate::text::ascii_lower_seq(e) == "odt"@ || crate::text::ascii_lower_seq(e) == "pages"@) ==> gio_content_kind(name, false) == "document"@,
        crate::paths::after_last_dot(name) matches Some(e) && (crate::text::ascii_lower_seq(e) == "mp3"@ || crate::text::ascii_lower_seq(e) == "m4a"@ || crate::text::ascii_lower_seq(e) == "aac"@ || crate::text::ascii_lower_seq(e) == "wav"@ || crate::text::ascii_lower_seq(e) == "flac"@ || crate::text::ascii_lower_seq(e) == "ogg"@) ==> gio_content_kind(name, false) == "audio"@,
        crate::paths::after_last_dot(name) matches Some(e) && (crate::text::ascii_lower_seq(e) == "mp4"@ || crate::text::ascii_lower_seq(e) == "m4v"@ || crate::text::ascii_lower_seq(e) == "mov"@ || crate::text::ascii_lower_seq(e) == "mkv"@ || crate::text::ascii_lower_seq(e) == "webm"@ || crate::text::ascii_lower_seq(e) == "avi"@) ==> gio_content_kind(name, false) == "video"@,
        crate::paths::after_last_dot(name) matches Some(e) && (crate::text::ascii_lower_seq(e) == "zip"@ || crate::text::ascii_lower_seq(e) == "tar"@ || crate::text::ascii_lower_seq(e) == "gz"@ || crate::text::ascii_lower_seq(e) == "bz2"@ || crate::text::ascii_lower_seq(e) == "xz"@ || crate::text::ascii_lower_seq(e) == "zst"@ || crate::text::ascii_lower_seq(e) == "7z"@ || crate::text::ascii_lower_seq(e) == "rar"@) ==> gio_content_kind(name, false) == "archive"@,
        crate::paths::after_last_dot(name) matches Some(e) && !(crate::text::ascii_lower_seq(e) == "png"@ || crate::text::ascii_lower_seq(e) == "jpg"@ || crate::text::ascii_lower_seq(e) == "jpeg"@ || crate::text::ascii_lower_seq(e) == "gif"@ || crate::text::ascii_lower_seq(e) == "webp"@ || crate::text::ascii_lower_seq(e) == "bmp"@ || crate::text::ascii_lower_seq(e) == "tif"@ || crate::text::ascii_lower_seq(e) == "tiff"@ || crate::text::ascii_lower_seq(e) == "svg"@ || crate::text::ascii_lower_seq(e) == "rs"@ || crate::text::ascii_lower_seq(e) == "ts"@ || crate::text::ascii_lower_seq(e) == "tsx"@ || crate::text::ascii_lower_seq(e) == "js"@ || crate::text::ascii_lower_seq(e) == "jsx"@ || crate::text::ascii_lower_seq(e) == "svelte"@ || crate::text::ascii_lower_seq(e) == "html"@ || crate::text::ascii_lower_seq(e) == "css"@ || crate::text::ascii_lower_seq(e) == "scss"@ || crate::text::ascii_lower_seq(e) == "json"@ || crate::text::ascii_lower_seq(e) == "toml"@ || crate::text::ascii_lower_seq(e) == "yaml"@ || crate::text::ascii_lower_seq(e) == "yml"@ || crate::text::ascii_lower_seq(e) == "py"@ || crate::text::ascii_lower_seq(e) == "go"@ || crate::text::ascii_lower_seq(e) == "c"@ || crate::text::ascii_lower_seq(e) == "h"@ || crate::text::ascii_lower_seq(e) == "cpp"@ || crate::text::ascii_lower_seq(e) == "hpp"@ || crate::text::ascii_lower_seq(e) == "java"@ || crate::text::ascii_lower_seq(e) == "kt"@ || crate::text::ascii_lower_seq(e) == "swift"@ || crate::text::ascii_lower_seq(e) == "sh"@ || crate::text::ascii_lower_seq(e) == "txt"@ || crate::text::ascii_lower_seq(e) == "md"@ || crate::text::ascii_lower_seq(e) == "pdf"@ || crate::text::ascii_lower_seq(e) == "rtf"@ || crate::text::ascii_lower_seq(e) == "doc"@ || crate::text::ascii_lower_seq(e) == "docx"@ || crate::text::ascii_lower_seq(e) == "odt"@ || crate::text::ascii_lower_seq(e) == "pages"@ || crate::text::ascii_lower_seq(e) == "mp3"@ || crate::text::ascii_lower_seq(e) == "m4a"@ || crate::text::ascii_lower_seq(e) == "aac"@ || crate::text::ascii_lower_seq(e) == "wav"@ || crate::text::ascii_lower_seq(e) == "flac"@ || crate::text::ascii_lower_seq(e) == "ogg"@ || crate::text::ascii_lower_seq(e) == "mp4"@ || crate::text::ascii_lower_seq(e) == "m4v"@ || crate::text::ascii_lower_seq(e) == "mov"@ || crate::text::ascii_lower_seq(e) == "mkv"@ || crate::text::ascii_lower_seq(e) == "webm"@ || crate::text::ascii_lower_seq(e) == "avi"@ || crate::text::ascii_lower_seq(e) == "zip"@ || crate::text::ascii_lower_seq(e) == "tar"@ || crate::text::ascii_lower_seq(e) == "gz"@ || crate::text::ascii_lower_seq(e) == "bz2"@ || crate::text::ascii_lower_seq(e) == "xz"@ || crate::text::ascii_lower_seq(e) == "zst"@ || crate::text::ascii_lower_seq(e) == "7z"@ || crate::text::ascii_lower_seq(e) == "rar"@) ==> gio_content_kind(name, false) == "other"@,
{
    if let Some(e) = crate::paths::after_last_dot(name) {
        crate::paths::lemma_desktop_extension_kinds(e);
    }
}

} // verus!
