//! Recoverable deletion through the operating system's Trash, and how its failures
//! are reported without exposing the paths that the trash implementation names.

use vstd::prelude::*;

use crate::filesystem::{ExplorerError, IoErrorKind};
use crate::ssh::{io_error, unexpected_error};
use crate::text::{chars_of, str_eq};

verus! {

#[verifier::external_type_specification]
#[verifier::external_body]
pub struct ExTrashError(trash::Error);

/// What the explorer reads of a failed trash request: which kind of failure it was, the
/// target the trash could not access, and for a filesystem failure the kind of the
/// underlying I/O error.
#[derive(Debug, Clone, PartialEq, Eq)]
pub enum TrashFailure {
    TargetedRoot,
    CouldNotAccess { target: String },
    FileSystem(IoErrorKind),
    Other,
}

pub open spec fn unsupported_error(e: ExplorerError, message: Seq<char>) -> bool {
    e matches ExplorerError::Unsupported(m) && m@ == message
}

/// How a failed trash request is reported: a root is an invalid target, an item the
/// process cannot reach is a permission failure, a filesystem failure keeps its kind,
/// and anything else is unexpected. No message carries the item's path.
pub open spec fn trash_error(f: TrashFailure, e: ExplorerError) -> bool {
    match f {
        TrashFailure::TargetedRoot => e == ExplorerError::InvalidReference,
        TrashFailure::CouldNotAccess { .. } => io_error(e, "Explora could not access this item to move it to Trash."@,
            IoErrorKind::PermissionDenied),
        TrashFailure::FileSystem(kind) => io_error(e, "The operating system could not move this item to Trash."@, kind),
        TrashFailure::Other => unexpected_error(e, "The operating system could not move this item to Trash."@),
    }
}

pub fn map_trash_error(failure: TrashFailure) -> (r: ExplorerError)
    ensures
        trash_error(failure, r),
{
    match failure {
        TrashFailure::TargetedRoot => ExplorerError::InvalidReference,
        TrashFailure::CouldNotAccess { .. } => ExplorerError::Io {
            message: "Explora could not access this item to move it to Trash.".to_owned(),
            kind: IoErrorKind::PermissionDenied,
        },
        TrashFailure::FileSystem(kind) => ExplorerError::Io {
            message: "The operating system could not move this item to Trash.".to_owned(),
            kind,
        },
        TrashFailure::Other => ExplorerError::Unexpected(
            "The operating system could not move this item to Trash.".to_owned(),
        ),
    }
}

/// Tells the variants of `trash::Error` apart, keeping of a filesystem failure only the
/// kind of its I/O error. Nothing is stated of the result: which variant a failure has
/// depends on the machine.
#[verifier::external_body]
fn trash_failure(error: &trash::Error) -> TrashFailure {
    match error {
        trash::Error::TargetedRoot => TrashFailure::TargetedRoot,
        trash::Error::CouldNotAccess { target } => TrashFailure::CouldNotAccess { target: target.clone() },
        trash::Error::FileSystem { source, .. } => TrashFailure::FileSystem(match source.kind() {
            std::io::ErrorKind::NotFound => IoErrorKind::NotFound,
            std::io::ErrorKind::PermissionDenied => IoErrorKind::PermissionDenied,
            std::io::ErrorKind::NotADirectory => IoErrorKind::NotADirectory,
            _ => IoErrorKind::Other,
        }),
        _ => TrashFailure::Other,
    }
}

/// Whether the last component of `p` is `..`, once trailing separators and `.`
/// components are set aside: such a path has no last name of its own.
pub open spec fn ends_in_parent(p: Seq<char>) -> bool
    decreases p.len(),
{
    if p.len() == 0 {
        false
    } else if p.last() == '/' {
        ends_in_parent(p.drop_last())
    } else if p.len() >= 2 && p.last() == '.' && p[p.len() - 2] == '/' {
        ends_in_parent(p.drop_last())
    } else {
        p.len() >= 2 && p.last() == '.' && p[p.len() - 2] == '.' && (p.len() == 2 || p[p.len() - 3] == '/')
    }
}

/// A path the trash can take: one whose last component is not `..`.
pub open spec fn trashable_path(p: Seq<char>) -> bool {
    !ends_in_parent(p)
}

pub fn is_trashable_path(path: &str) -> (r: bool)
    ensures
        r == trashable_path(path@),
{
    let p = chars_of(path);
    let mut end: usize = p.len();
    assert(path@.take(path@.len() as int) =~= path@);
    while end > 0 && (p[end - 1] == '/' || (end >= 2 && p[end - 1] == '.' && p[end - 2] == '/'))
        invariant
            end <= p@.len(),
            p@ == path@,
            ends_in_parent(path@) == ends_in_parent(path@.take(end as int)),
        decreases end,
    {
        assert(path@.take(end as int).drop_last() =~= path@.take(end - 1));
        end = end - 1;
    }
    let ghost t = path@.take(end as int);
    let r = end >= 2 && p[end - 1] == '.' && p[end - 2] == '.' && (end == 2 || p[end - 3] == '/');
    assert(r == ends_in_parent(t));
    !r
}

/// Calls `trash::delete` on the path. Whether the item reaches the Trash depends on the
/// disk and the desktop session, so nothing is stated of the result. For a path whose last
/// component is `..` the crate may compute a path without a last name and unwrap it, so
/// such a path is not admitted.
#[verifier::external_body]
fn delete_to_trash(path: &str) -> Result<(), trash::Error>
    requires
        trashable_path(path@),
{
    trash::delete(path)
}

/// Recoverable deletion as the explorer asks for it. It receives only paths that the
/// library resolved, and is never exposed to the frontend.
pub trait PlatformTrash {
    fn is_available(&self) -> bool;

    fn move_to_trash(&self, path: &str) -> Result<(), ExplorerError>;
}

/// The trash as the platform offers it; `available` says whether this platform has an
/// operating-system Trash at all.
pub struct SystemPlatformTrash {
    pub available: bool,
}

/// The desktop systems whose Trash the explorer uses.
pub open spec fn has_native_trash(os: Seq<char>) -> bool {
    os == "macos"@ || os == "linux"@ || os == "windows"@
}

impl SystemPlatformTrash {
    /// The trash of the operating system named `os` (as Rust names target systems).
    pub fn for_os(os: &str) -> (r: SystemPlatformTrash)
        ensures
            r.available == has_native_trash(os@),
    {
        let available = str_eq(os, "macos") || str_eq(os, "linux") || str_eq(os, "windows");
        SystemPlatformTrash { available }
    }

    pub fn is_available(&self) -> (r: bool)
        ensures
            r == self.available,
    {
        self.available
    }

    /// Moves the item at `path` to the Trash. Where the platform has none, the request is
    /// refused as unsupported before anything is touched; a failure of the trash itself is
    /// reported as `trash_error` says.
    pub fn move_to_trash(&self, path: &str) -> (r: Result<(), ExplorerError>)
        ensures
            !self.available ==> (r matches Err(e) && unsupported_error(e,
                "The operating system Trash is not available for this item."@)),
            self.available && !trashable_path(path@) ==> r == Err::<(), ExplorerError>(ExplorerError::InvalidReference),
            self.available && trashable_path(path@) ==> (r matches Err(e) ==> exists|f: TrashFailure| trash_error(f, e)),
    {
        if !self.is_available() {
            return Err(ExplorerError::Unsupported(
                "The operating system Trash is not available for this item.".to_owned(),
            ));
        }
        if !is_trashable_path(path) {
            return Err(ExplorerError::InvalidReference);
        }
        match delete_to_trash(path) {
            Ok(()) => Ok(()),
            Err(error) => {
                let failure = trash_failure(&error);
                let mapped = map_trash_error(failure);
                Err(mapped)
            },
        }
    }
}

impl PlatformTrash for SystemPlatformTrash {
    fn is_available(&self) -> (r: bool)
        ensures
            r == self.available,
    {
        self.available
    }

    fn move_to_trash(&self, path: &str) -> (r: Result<(), ExplorerError>)
        ensures
            !self.available ==> (r matches Err(e) && unsupported_error(e,
                "The operating system Trash is not available for this item."@)),
            self.available && !trashable_path(path@) ==> r == Err::<(), ExplorerError>(ExplorerError::InvalidReference),
            self.available && trashable_path(path@) ==> (r matches Err(e) ==> exists|f: TrashFailure| trash_error(f, e)),
    {
        SystemPlatformTrash::move_to_trash(self, path)
    }
}

} // verus!
