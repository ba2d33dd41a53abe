//! The bookkeeping of a verified copy: how many bytes were moved, when progress is
//! reported, and whether what was written has the shape of its source.

use vstd::prelude::*;

use crate::filesystem::ExplorerError;
use crate::text::str_eq;

verus! {

/// Progress is reported at least every this many bytes.
pub const BYTE_PROGRESS_EVENT_INTERVAL: u64 = 4194304;

/// The bytes copied so far, the count at the last progress report, and the expected total.
pub struct ByteMeter {
    completed: u64,
    last_emitted: u64,
    total: u64,
}

pub struct MeterView {
    pub completed: u64,
    pub last_emitted: u64,
    pub total: u64,
}

impl View for ByteMeter {
    type V = MeterView;

    closed spec fn view(&self) -> MeterView {
        MeterView { completed: self.completed, last_emitted: self.last_emitted, total: self.total }
    }
}

/// Whether the count after a read is reported: when the copy is complete, or when at least
/// an interval of bytes came since the last report.
pub open spec fn reports_progress(completed: u64, last_emitted: u64, total: u64) -> bool {
    completed == total || completed - last_emitted >= BYTE_PROGRESS_EVENT_INTERVAL
}

impl ByteMeter {
    /// A copy of `total` bytes that has not started.
    pub fn new(total: u64) -> (r: ByteMeter)
        ensures
            r@ == (MeterView { completed: 0, last_emitted: 0, total }),
    {
        ByteMeter { completed: 0, last_emitted: 0, total }
    }

    pub fn completed(&self) -> (r: u64)
        ensures
            r == self@.completed,
    {
        self.completed
    }

    /// Counts a read of `read` bytes and says whether to report progress. An empty read
    /// means the source ended early, so it changed while it was copied; a count past the
    /// largest integer is refused. A refused read counts nothing.
    pub fn record(&mut self, read: usize) -> (r: Result<bool, ExplorerError>)
        ensures
            read == 0 ==> r == Err::<bool, ExplorerError>(ExplorerError::SourceChanged) && final(self)@ == old(self)@,
            read > 0 && old(self)@.completed + read > u64::MAX ==> r == Err::<bool, ExplorerError>(
                ExplorerError::StateUnavailable) && final(self)@ == old(self)@,
            read > 0 && old(self)@.completed + read <= u64::MAX ==> ({
                let c = (old(self)@.completed + read) as u64;
                let emit = reports_progress(c, old(self)@.last_emitted, old(self)@.total);
                &&& r == Ok::<bool, ExplorerError>(emit)
                &&& final(self)@ == (MeterView {
                    completed: c,
                    last_emitted: if emit { c } else { old(self)@.last_emitted },
                    total: old(self)@.total,
                })
            }),
    {
        if read == 0 {
            return Err(ExplorerError::SourceChanged);
        }
        let read = read as u64;
        let completed = match self.completed.checked_add(read) {
            Some(c) => c,
            None => {
                return Err(ExplorerError::StateUnavailable);
            },
        };
        self.completed = completed;
        let since = completed.saturating_sub(self.last_emitted);
        let emit = completed == self.total || since >= BYTE_PROGRESS_EVENT_INTERVAL;
        if emit {
            self.last_emitted = completed;
        }
        Ok(emit)
    }

    /// Checks that exactly the expected number of bytes was copied; `message` names what
    /// has the wrong count.
    pub fn finish(&self, message: &str) -> (r: Result<(), ExplorerError>)
        ensures
            self@.completed == self@.total ==> r == Ok::<(), ExplorerError>(()),
            self@.completed != self@.total ==> (r matches Err(ExplorerError::Unexpected(m)) && m@ == message@),
    {
        if self.completed == self.total {
            Ok(())
        } else {
            Err(ExplorerError::Unexpected(message.to_owned()))
        }
    }
}

/// The size of the next read: what remains, but at most one chunk.
pub fn next_chunk_len(remaining: u64, chunk: usize) -> (r: usize)
    ensures
        r as int == if remaining < chunk { remaining as int } else { chunk as int },
{
    if remaining < chunk as u64 {
        remaining as usize
    } else {
        chunk
    }
}

/// Whether two chunks read back for verification hold the same bytes.
pub fn chunks_match(expected: &[u8], actual: &[u8]) -> (r: bool)
    ensures
        r == (expected@ == actual@),
{
    if expected.len() != actual.len() {
        return false;
    }
    let mut i: usize = 0;
    while i < expected.len()
        invariant
            expected@.len() == actual@.len(),
            i <= expected.len(),
            forall|k: int| 0 <= k < i ==> expected@[k] == actual@[k],
        decreases expected.len() - i,
    {
        if expected[i] != actual[i] {
            return false;
        }
        i = i + 1;
    }
    assert(expected@ =~= actual@);
    true
}

/// The kind of an entry of a copied tree.
#[derive(Debug, Clone, Copy, PartialEq, Eq, Structural)]
pub enum TransferEntryKind {
    Directory,
    File,
    Symlink,
}

/// What the written copy of an entry turned out to be, without following links.
#[derive(Debug, Clone, Copy, PartialEq, Eq, Structural)]
pub struct WrittenEntry {
    pub is_dir: bool,
    pub is_file: bool,
    pub is_symlink: bool,
    pub len: u64,
}

/// What remains to check of an entry whose shape is right.
#[derive(Debug, Clone, Copy, PartialEq, Eq, Structural)]
pub enum EntryCheck {
    /// A directory: nothing more.
    Complete,
    /// A symbolic link: its target must be the source's.
    LinkTarget,
    /// A file of the right length: its bytes must be the source's.
    Contents,
}

pub open spec fn entry_check(kind: TransferEntryKind, written: WrittenEntry, expected_len: u64) -> Option<EntryCheck> {
    match kind {
        TransferEntryKind::Directory => if written.is_dir { Some(EntryCheck::Complete) } else { None },
        TransferEntryKind::Symlink => if written.is_symlink { Some(EntryCheck::LinkTarget) } else { None },
        TransferEntryKind::File => if written.is_file && written.len == expected_len {
            Some(EntryCheck::Contents)
        } else {
            None
        },
    }
}

/// Checks that a written entry has the kind of its source (and a file its length), and says
/// what is left to compare; a mismatch is reported with `message`.
pub fn check_written_entry(kind: TransferEntryKind, written: WrittenEntry, expected_len: u64, message: &str) -> (r: Result<
    EntryCheck,
    ExplorerError,
>)
    ensures
        match entry_check(kind, written, expected_len) {
            Some(c) => r == Ok::<EntryCheck, ExplorerError>(c),
            None => r matches Err(ExplorerError::Unexpected(m)) && m@ == message@,
        },
{
    match kind {
        TransferEntryKind::Directory => if written.is_dir {
            return Ok(EntryCheck::Complete);
        },
        TransferEntryKind::Symlink => if written.is_symlink {
            return Ok(EntryCheck::LinkTarget);
        },
        TransferEntryKind::File => if written.is_file && written.len == expected_len {
            return Ok(EntryCheck::Contents);
        },
    }
    Err(ExplorerError::Unexpected(message.to_owned()))
}

/// Checks a written link against its source's target: a source link without a recorded
/// target is an inconsistent state, and a different target is reported with `message`.
pub fn check_link_target(expected: &Option<String>, actual: &str, message: &str) -> (r: Result<(), ExplorerError>)
    ensures
        expected is None ==> r == Err::<(), ExplorerError>(ExplorerError::StateUnavailable),
        expected is Some && expected->0@ == actual@ ==> r == Ok::<(), ExplorerError>(()),
        expected is Some && expected->0@ != actual@ ==> (r matches Err(ExplorerError::Unexpected(m)) && m@ == message@),
{
    match expected {
        None => Err(ExplorerError::StateUnavailable),
        Some(target) => if str_eq(target.as_str(), actual) {
            Ok(())
        } else {
            Err(ExplorerError::Unexpected(message.to_owned()))
        },
    }
}

/// What is created at the destination for an entry of a copied tree (every entry but the
/// root, which the partial artifact already is).
#[derive(Debug, Clone, PartialEq, Eq)]
pub enum CreateStep {
    Directory,
    Symlink(String),
    File(u64),
}

/// Decides what to create for an entry: a directory, a link to the source link's target, or
/// a file of the source's length. A source link with no usable target is refused with
/// `missing_target`.
pub fn creation_step(kind: TransferEntryKind, len: u64, link_target: &Option<String>, missing_target: ExplorerError) -> (r: Result<
    CreateStep,
    ExplorerError,
>)
    ensures
        kind == TransferEntryKind::Directory ==> r == Ok::<CreateStep, ExplorerError>(CreateStep::Directory),
        kind == TransferEntryKind::File ==> r == Ok::<CreateStep, ExplorerError>(CreateStep::File(len)),
        kind == TransferEntryKind::Symlink ==> match link_target {
            Some(t) => r matches Ok(CreateStep::Symlink(u)) && u@ == t@,
            None => r == Err::<CreateStep, ExplorerError>(missing_target),
        },
{
    match kind {
        TransferEntryKind::Directory => Ok(CreateStep::Directory),
        TransferEntryKind::File => Ok(CreateStep::File(len)),
        TransferEntryKind::Symlink => match link_target {
            Some(t) => Ok(CreateStep::Symlink(t.clone())),
            None => Err(missing_target),
        },
    }
}

/// The entries whose permissions are applied once a tree is verified, deepest first: every
/// entry but the links, from the last listed to the first.
pub open spec fn permission_indices(kinds: Seq<TransferEntryKind>) -> Seq<usize>
    decreases kinds.len(),
{
    if kinds.len() == 0 {
        Seq::empty()
    } else {
        let rest = permission_indices(kinds.drop_last());
        if kinds.last() == TransferEntryKind::Symlink {
            rest
        } else {
            seq![(kinds.len() - 1) as usize].add(rest)
        }
    }
}

pub fn permission_order(kinds: &Vec<TransferEntryKind>) -> (r: Vec<usize>)
    ensures
        r@ == permission_indices(kinds@),
{
    let mut out: Vec<usize> = Vec::new();
    let mut i: usize = kinds.len();
    assert(kinds@.take(kinds@.len() as int) =~= kinds@);
    assert(out@ + permission_indices(kinds@) =~= permission_indices(kinds@));
    while i > 0
        invariant
            i <= kinds.len(),
            permission_indices(kinds@) == out@ + permission_indices(kinds@.take(i as int)),
        decreases i,
    {
        let ghost prefix = kinds@.take(i as int);
        assert(prefix.drop_last() =~= kinds@.take(i as int - 1));
        assert(prefix.last() == kinds@[i as int - 1]);
        if kinds[i - 1] != TransferEntryKind::Symlink {
            let ghost before = out@;
            out.push(i - 1);
            assert(before + (seq![(i - 1) as usize] + permission_indices(kinds@.take(i as int - 1))) =~= out@
                + permission_indices(kinds@.take(i as int - 1)));
        }
        i = i - 1;
    }
    assert(kinds@.take(0) =~= Seq::<TransferEntryKind>::empty());
    assert(out@ + Seq::<usize>::empty() =~= out@);
    out
}

/// Reports are never further apart than the interval: after any accepted read, the bytes
/// since the last report are fewer than the interval, unless the read itself was reported.
pub proof fn lemma_reports_are_spaced(completed: u64, last_emitted: u64, total: u64)
    requires
        last_emitted <= completed,
        !reports_progress(completed, last_emitted, total),
    ensures
        completed - last_emitted < BYTE_PROGRESS_EVENT_INTERVAL,
        completed != total,
{
}

} // verus!
