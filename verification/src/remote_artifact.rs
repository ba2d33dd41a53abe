//! The bookkeeping of a remote transfer's owned partial: a hidden, uniquely named entry
//! that is written, verified and then renamed into place without replacing anything, or
//! else removed together with everything created inside it.

use vstd::prelude::*;

use crate::filesystem::ExplorerError;
use crate::ids::{is_uuid_text, random_id};
use crate::ssh::{joined, partial_entry, partial_entry_path, remote_join};

verus! {

/// Attempts at finding an unused partial name before giving up.
pub const MAX_REMOTE_PARTIAL_NAME_ATTEMPTS: usize = 32;

#[derive(Debug, Clone, Copy, PartialEq, Eq, Structural)]
pub enum ArtifactKind {
    File,
    Directory,
    Symlink,
}

/// An entry the transfer created on the remote side, to be removed if the transfer fails.
pub struct CreatedEntry {
    pub path: String,
    pub kind: ArtifactKind,
}

pub open spec fn created_views(v: Seq<CreatedEntry>) -> Seq<(Seq<char>, ArtifactKind)> {
    v.map_values(|e: CreatedEntry| (e.path@, e.kind))
}

/// The name of a partial: hidden, and made unique by a random identifier.
pub open spec fn partial_name(id: Seq<char>) -> Seq<char> {
    ".explora-partial-"@ + id
}

/// A fresh partial path inside `destination_directory`.
pub fn partial_candidate(destination_directory: &str) -> (r: String)
    ensures
        exists|id: Seq<char>| #![auto] is_uuid_text(id) && r@ == joined(destination_directory@, partial_name(id)),
{
    let id = random_id();
    let name = ".explora-partial-".to_owned().concat(id.as_str());
    remote_join(destination_directory, name.as_str())
}

/// What a failed exclusive create means: a name that turns out to exist was a collision
/// with another entry, and the next name is tried; otherwise the failure stands.
pub fn creation_retry(partial_exists: Result<bool, ExplorerError>, failure: ExplorerError) -> (r: Result<(), ExplorerError>)
    ensures
        partial_exists == Ok::<bool, ExplorerError>(true) ==> r is Ok,
        partial_exists == Ok::<bool, ExplorerError>(false) ==> r == Err::<(), ExplorerError>(failure),
        partial_exists is Err ==> r == Err::<(), ExplorerError>(partial_exists->Err_0),
{
    match partial_exists {
        Ok(true) => Ok(()),
        Ok(false) => Err(failure),
        Err(e) => Err(e),
    }
}

/// The error when no unused partial name was found.
pub fn no_partial_name(kind: ArtifactKind) -> (r: ExplorerError)
    ensures
        r matches ExplorerError::DestinationUnavailable(m) && m@ == match kind {
            ArtifactKind::File => "Explora could not allocate an owned partial file on the remote destination."@,
            ArtifactKind::Symlink => "Explora could not allocate an owned partial symbolic link on the remote destination."@,
            ArtifactKind::Directory => "Explora could not allocate an owned partial folder on the remote destination."@,
        },
{
    match kind {
        ArtifactKind::File => ExplorerError::DestinationUnavailable(
            "Explora could not allocate an owned partial file on the remote destination.".to_owned(),
        ),
        ArtifactKind::Symlink => ExplorerError::DestinationUnavailable(
            "Explora could not allocate an owned partial symbolic link on the remote destination.".to_owned(),
        ),
        ArtifactKind::Directory => ExplorerError::DestinationUnavailable(
            "Explora could not allocate an owned partial folder on the remote destination.".to_owned(),
        ),
    }
}

/// What the state of a finalization says to do.
#[derive(Debug, Clone, Copy, PartialEq, Eq, Structural)]
pub enum FinalizeStep {
    /// Already in place: nothing to do.
    Done,
    /// Check that the final name is free, then rename the partial onto it.
    Rename,
}

pub struct ArtifactView {
    pub kind: ArtifactKind,
    pub partial_path: Seq<char>,
    pub final_path: Seq<char>,
    pub file_open: bool,
    pub finalized: bool,
    pub preserved: bool,
    pub bytes_written: u64,
    pub created: Seq<(Seq<char>, ArtifactKind)>,
}

/// An owned remote partial and everything created for it.
pub struct RemoteArtifact {
    kind: ArtifactKind,
    partial_path: String,
    final_path: String,
    file_open: bool,
    finalized: bool,
    preserved: bool,
    bytes_written: u64,
    created: Vec<CreatedEntry>,
}

impl View for RemoteArtifact {
    type V = ArtifactView;

    closed spec fn view(&self) -> ArtifactView {
        ArtifactView {
            kind: self.kind,
            partial_path: self.partial_path@,
            final_path: self.final_path@,
            file_open: self.file_open,
            finalized: self.finalized,
            preserved: self.preserved,
            bytes_written: self.bytes_written,
            created: created_views(self.created@),
        }
    }
}

impl RemoteArtifact {
    /// An artifact whose partial was just created at `partial_path`, to end up as
    /// `final_name` in `destination_directory`. A partial file is open for writing.
    pub fn created(kind: ArtifactKind, destination_directory: &str, final_name: &str, partial_path: String) -> (r: RemoteArtifact)
        ensures
            r@ == (ArtifactView {
                kind,
                partial_path: partial_path@,
                final_path: joined(destination_directory@, final_name@),
                file_open: kind == ArtifactKind::File,
                finalized: false,
                preserved: false,
                bytes_written: 0,
                created: seq![(partial_path@, kind)],
            }),
    {
        let final_path = remote_join(destination_directory, final_name);
        let first = CreatedEntry { path: partial_path.clone(), kind };
        let created = vec![first];
        let r = RemoteArtifact {
            kind,
            partial_path,
            final_path,
            file_open: match kind {
                ArtifactKind::File => true,
                _ => false,
            },
            finalized: false,
            preserved: false,
            bytes_written: 0,
            created,
        };
        assert(r@.created =~= seq![(r@.partial_path, kind)]);
        r
    }

    pub fn partial_path(&self) -> (r: &str)
        ensures
            r@ == self@.partial_path,
    {
        self.partial_path.as_str()
    }

    pub fn final_path(&self) -> (r: &str)
        ensures
            r@ == self@.final_path,
    {
        self.final_path.as_str()
    }

    pub fn bytes_written(&self) -> (r: u64)
        ensures
            r == self@.bytes_written,
    {
        self.bytes_written
    }

    /// Whether a chunk of `len` bytes may be written now: a file must be open, not yet in
    /// place, and the chunk no larger than `max_chunk`.
    pub fn check_chunk(&self, len: usize, max_chunk: usize) -> (r: Result<(), ExplorerError>)
        ensures
            (self@.file_open && !self@.finalized && len <= max_chunk) ==> r is Ok,
            !(self@.file_open && !self@.finalized && len <= max_chunk) ==> (r matches Err(ExplorerError::InvalidConfiguration(m))
                && m@ == "The remote transfer chunk is not valid for this partial file."@),
    {
        if !self.file_open || self.finalized || len > max_chunk {
            return Err(ExplorerError::InvalidConfiguration(
                "The remote transfer chunk is not valid for this partial file.".to_owned(),
            ));
        }
        Ok(())
    }

    /// Counts a written chunk and returns the bytes written so far.
    pub fn record_written(&mut self, len: usize) -> (r: Result<u64, ExplorerError>)
        ensures
            old(self)@.bytes_written + len > u64::MAX ==> (r matches Err(ExplorerError::InvalidConfiguration(m))
                && m@ == "The remote transfer exceeded the supported size."@) && final(self)@ == old(self)@,
            old(self)@.bytes_written + len <= u64::MAX ==> r == Ok::<u64, ExplorerError>((old(self)@.bytes_written + len) as u64)
                && final(self)@ == (ArtifactView { bytes_written: (old(self)@.bytes_written + len) as u64, ..old(self)@ }),
    {
        match self.bytes_written.checked_add(len as u64) {
            Some(total) => {
                self.bytes_written = total;
                Ok(total)
            },
            None => Err(ExplorerError::InvalidConfiguration("The remote transfer exceeded the supported size.".to_owned())),
        }
    }

    /// The path for a new entry inside a partial folder, if one may be created now: the
    /// artifact must be a folder with no file open and not yet in place, and the relative
    /// path must be safe.
    pub fn entry_path(&self, relative_path: &str) -> (r: Result<String, ExplorerError>)
        ensures
            !(self@.kind == ArtifactKind::Directory && !self@.file_open && !self@.finalized) ==> r == Err::<String, ExplorerError>(
                ExplorerError::StateUnavailable),
            (self@.kind == ArtifactKind::Directory && !self@.file_open && !self@.finalized) ==> match partial_entry(
                self@.partial_path,
                relative_path@,
            ) {
                Some(p) => r is Ok && r->Ok_0@ == p,
                None => r == Err::<String, ExplorerError>(ExplorerError::InvalidReference),
            },
    {
        let is_directory = match self.kind {
            ArtifactKind::Directory => true,
            _ => false,
        };
        if !is_directory || self.file_open || self.finalized {
            return Err(ExplorerError::StateUnavailable);
        }
        partial_entry_path(self.partial_path.as_str(), relative_path)
    }

    /// Records an entry created inside the partial folder; a file entry stays open for
    /// writing until it is closed.
    pub fn record_entry(&mut self, path: String, kind: ArtifactKind)
        ensures
            final(self)@ == (ArtifactView {
                created: old(self)@.created.push((path@, kind)),
                file_open: old(self)@.file_open || kind == ArtifactKind::File,
                ..old(self)@
            }),
    {
        let ghost before = self.created@;
        let ghost p = path@;
        let opens = match kind {
            ArtifactKind::File => true,
            _ => false,
        };
        self.created.push(CreatedEntry { path, kind });
        if opens {
            self.file_open = true;
        }
        assert(created_views(self.created@) =~= created_views(before).push((p, kind)));
    }

    /// Closes the open file before it is verified.
    pub fn close_file(&mut self) -> (r: Result<(), ExplorerError>)
        ensures
            old(self)@.file_open ==> r is Ok && final(self)@ == (ArtifactView { file_open: false, ..old(self)@ }),
            !old(self)@.file_open ==> r == Err::<(), ExplorerError>(ExplorerError::StateUnavailable) && final(self)@ == old(self)@,
    {
        if !self.file_open {
            return Err(ExplorerError::StateUnavailable);
        }
        self.file_open = false;
        Ok(())
    }

    /// What finalizing requires now: nothing once in place; an open file must be closed
    /// (verified) first.
    pub fn finalize_step(&self) -> (r: Result<FinalizeStep, ExplorerError>)
        ensures
            self@.finalized ==> r == Ok::<FinalizeStep, ExplorerError>(FinalizeStep::Done),
            !self@.finalized && self@.file_open ==> r == Err::<FinalizeStep, ExplorerError>(ExplorerError::StateUnavailable),
            !self@.finalized && !self@.file_open ==> r == Ok::<FinalizeStep, ExplorerError>(FinalizeStep::Rename),
    {
        if self.finalized {
            return Ok(FinalizeStep::Done);
        }
        if self.file_open {
            return Err(ExplorerError::StateUnavailable);
        }
        Ok(FinalizeStep::Rename)
    }

    /// The partial was renamed onto its final name.
    pub fn renamed(&mut self)
        ensures
            final(self)@ == (ArtifactView { finalized: true, ..old(self)@ }),
    {
        self.finalized = true;
    }

    /// Interprets a failed rename by what exists afterwards: both names mean another item
    /// took the final name; only the final name means the rename probably happened (the
    /// artifact counts as in place, and the outcome is uncertain); only the partial means
    /// the rename failed as `failure` says; anything else leaves the outcome uncertain.
    pub fn rename_failed(
        &mut self,
        partial_exists: Result<bool, ExplorerError>,
        final_exists: Result<bool, ExplorerError>,
        failure: ExplorerError,
    ) -> (r: ExplorerError)
        ensures
            (partial_exists == Ok::<bool, ExplorerError>(true) && final_exists == Ok::<bool, ExplorerError>(true)) ==> r
                == ExplorerError::Conflict && final(self)@ == old(self)@,
            (partial_exists == Ok::<bool, ExplorerError>(false) && final_exists == Ok::<bool, ExplorerError>(true)) ==> (r
                matches ExplorerError::OutcomeUncertain(m)
                && m@ == "The server did not confirm remote transfer finalization. Refresh the destination before trying another action."@)
                && final(self)@ == (ArtifactView { finalized: true, ..old(self)@ }),
            (partial_exists == Ok::<bool, ExplorerError>(true) && final_exists == Ok::<bool, ExplorerError>(false)) ==> r == failure
                && final(self)@ == old(self)@,
            !(partial_exists is Ok && final_exists is Ok && (partial_exists->Ok_0 || final_exists->Ok_0)) ==> (r matches ExplorerError::OutcomeUncertain(m)
                && m@ == "The SSH connection ended while finalizing the remote transfer. Reconnect and refresh before trying another action."@)
                && final(self)@ == old(self)@,
    {
        match (partial_exists, final_exists) {
            (Ok(true), Ok(true)) => ExplorerError::Conflict,
            (Ok(false), Ok(true)) => {
                self.finalized = true;
                ExplorerError::OutcomeUncertain(
                    "The server did not confirm remote transfer finalization. Refresh the destination before trying another action.".to_owned(),
                )
            },
            (Ok(true), Ok(false)) => failure,
            _ => ExplorerError::OutcomeUncertain(
                "The SSH connection ended while finalizing the remote transfer. Reconnect and refresh before trying another action.".to_owned(),
            ),
        }
    }

    /// Keeps the result: it will never be cleaned up. Returns the final path.
    pub fn preserve(&mut self) -> (r: String)
        ensures
            r@ == old(self)@.final_path,
            final(self)@ == (ArtifactView { preserved: true, ..old(self)@ }),
    {
        self.preserved = true;
        self.final_path.clone()
    }

    /// Gives up the transfer and returns the entries to remove, newest first. Nothing is
    /// removed once the artifact was kept or put in place: through SFTP a final name cannot
    /// be removed safely. Afterwards the artifact counts as kept, so it is cleaned up once.
    pub fn abandon(&mut self) -> (r: Vec<CreatedEntry>)
        ensures
            (old(self)@.preserved || old(self)@.finalized) ==> r@.len() == 0,
            !(old(self)@.preserved || old(self)@.finalized) ==> created_views(r@) == old(self)@.created.reverse(),
            final(self)@ == (ArtifactView { preserved: true, file_open: false, ..old(self)@ }),
    {
        self.file_open = false;
        if self.preserved || self.finalized {
            self.preserved = true;
            return Vec::new();
        }
        self.preserved = true;
        let ghost created = created_views(self.created@);
        let mut out: Vec<CreatedEntry> = Vec::new();
        let mut i: usize = self.created.len();
        while i > 0
            invariant
                i <= self.created@.len(),
                created == created_views(self.created@),
                created_views(out@) == created.subrange(i as int, created.len() as int).reverse(),
            decreases i,
        {
            i = i - 1;
            let entry = CreatedEntry { path: self.created[i].path.clone(), kind: self.created[i].kind };
            let ghost before = out@;
            out.push(entry);
            assert(created_views(out@) =~= created_views(before).push(created[i as int]));
            assert(created.subrange(i as int, created.len() as int).reverse() =~= created.subrange(
                i as int + 1,
                created.len() as int,
            ).reverse().push(created[i as int]));
        }
        assert(created.subrange(0, created.len() as int) =~= created);
        out
    }
}

/// An abandoned artifact counts as kept, so abandoning it again removes nothing: its
/// entries are cleaned up at most once.
pub proof fn lemma_cleanup_happens_at_most_once(a: ArtifactView)
    ensures
        ({
            let after = ArtifactView { preserved: true, file_open: false, ..a };
            after.preserved || after.finalized
        }),
{
}

} // verus!
