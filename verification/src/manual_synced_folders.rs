//! Synced folders that the user adds by hand: their saved records, their names, and the
//! opaque location ids under which they are offered.

use vstd::prelude::*;

use crate::filesystem::{ExplorerError, SyncedFolderMetadataDto, SyncedFolderProvider, SyncedFolderSource, SyncedFolderStatus};
use crate::ids::{is_uuid, is_uuid_text, parses_as_uuid, random_id};
use crate::synced_availability::SyncedAvailabilityPolicy;
use crate::text::{chars_of, decimal, decimal_string, starts_with, str_eq, str_starts_with, string_from_range, views};

verus! {

broadcast use vstd::seq_lib::group_seq_properties;

pub const ROOTS_FILE_VERSION: u32 = 1;
pub const MAX_MANUAL_ROOTS: usize = 128;
pub const MAX_PATH_UNITS: usize = 16384;

/// A saved path in the encoding of the platform that saved it.
#[derive(Debug, Clone, PartialEq, Eq)]
pub enum StoredPath {
    UnixBytes(Vec<u8>),
    WindowsWide(Vec<u16>),
}

#[derive(Debug, Clone, PartialEq, Eq)]
pub struct StoredManualRoot {
    pub id: String,
    pub name: String,
    pub path: StoredPath,
}

#[derive(Debug, Clone, PartialEq, Eq)]
pub struct StoredManualRootsDocument {
    pub version: u32,
    pub roots: Vec<StoredManualRoot>,
}

/// What reading the saved folders found.
#[derive(Debug, Clone, PartialEq, Eq)]
pub enum StoredRootsRead {
    Missing,
    Failed(ExplorerError),
    Malformed,
    Document(StoredManualRootsDocument),
}

pub open spec fn manual_location_id(id: Seq<char>) -> Seq<char> {
    "synced:manual:"@ + id
}

pub fn location_id(id: &str) -> (r: String)
    ensures
        r@ == manual_location_id(id@),
{
    "synced:manual:".to_owned().concat(id)
}

pub open spec fn invalid_path_error(e: ExplorerError) -> bool {
    e matches ExplorerError::InvalidConfiguration(m) && m@ == "Explora's saved synced-folder path is invalid."@
}

pub fn invalid_stored_path() -> (r: ExplorerError)
    ensures
        invalid_path_error(r),
{
    ExplorerError::InvalidConfiguration("Explora's saved synced-folder path is invalid.".to_owned())
}

/// A Unix path that may be saved: 1 to 16384 bytes, none of them zero.
pub open spec fn storable_path(bytes: Seq<u8>) -> bool {
    1 <= bytes.len() <= MAX_PATH_UNITS && !bytes.contains(0u8)
}

/// The Unix path a record holds, if it is one that may be saved.
pub open spec fn decoded(path: StoredPath) -> Option<Seq<u8>> {
    match path {
        StoredPath::UnixBytes(b) => if storable_path(b@) { Some(b@) } else { None },
        StoredPath::WindowsWide(_) => None,
    }
}

fn storable(bytes: &Vec<u8>) -> (r: bool)
    ensures
        r == storable_path(bytes@),
{
    if bytes.len() == 0 || bytes.len() > MAX_PATH_UNITS {
        return false;
    }
    let mut i: usize = 0;
    while i < bytes.len()
        invariant
            i <= bytes.len(),
            forall|j: int| 0 <= j < i ==> bytes@[j] != 0u8,
        decreases bytes.len() - i,
    {
        if bytes[i] == 0 {
            assert(bytes@.contains(0u8));
            return false;
        }
        i = i + 1;
    }
    true
}

pub fn copy_bytes(b: &Vec<u8>) -> (r: Vec<u8>)
    ensures
        r@ == b@,
{
    let mut r: Vec<u8> = Vec::new();
    let mut i: usize = 0;
    while i < b.len()
        invariant
            i <= b.len(),
            r@ == b@.take(i as int),
        decreases b.len() - i,
    {
        r.push(b[i]);
        i = i + 1;
        assert(r@ =~= b@.take(i as int));
    }
    assert(b@.take(b.len() as int) =~= b@);
    r
}

/// The path a record holds, in the Unix encoding.
pub fn decode_path(path: &StoredPath) -> (r: Result<Vec<u8>, ExplorerError>)
    ensures
        match decoded(*path) {
            Some(b) => r is Ok && r->Ok_0@ == b,
            None => r is Err && invalid_path_error(r->Err_0),
        },
{
    match path {
        StoredPath::UnixBytes(bytes) => {
            if !storable(bytes) {
                return Err(invalid_stored_path());
            }
            Ok(copy_bytes(bytes))
        },
        StoredPath::WindowsWide(_) => Err(invalid_stored_path()),
    }
}

/// A path in its saved form.
pub fn encode_path(path: &Vec<u8>) -> (r: Result<StoredPath, ExplorerError>)
    ensures
        storable_path(path@) ==> r is Ok && decoded(r->Ok_0) == Some(path@),
        !storable_path(path@) ==> r is Err && invalid_path_error(r->Err_0),
{
    if !storable(path) {
        return Err(invalid_stored_path());
    }
    Ok(StoredPath::UnixBytes(copy_bytes(path)))
}

/// The value of a run of ASCII digits.
pub open spec fn digits_value(s: Seq<char>) -> nat
    decreases s.len(),
{
    if s.len() == 0 {
        0
    } else {
        digits_value(s.drop_last()) * 10 + ((s.last() as u32) - ('0' as u32)) as nat
    }
}

pub open spec fn all_digits(s: Seq<char>) -> bool {
    forall|i: int| 0 <= i < s.len() ==> '0' <= #[trigger] s[i] <= '9'
}

/// The text of a number as `usize::from_str` reads it: an optional `+`, then one or more
/// ASCII digits.
pub open spec fn number_text(s: Seq<char>) -> Option<nat> {
    let digits = if s.len() > 0 && s[0] == '+' { s.drop_first() } else { s };
    if digits.len() > 0 && all_digits(digits) {
        Some(digits_value(digits))
    } else {
        None
    }
}

/// A manual folder is named `Synced Folder ` and a number from 1 to 128.
pub open spec fn valid_name(name: Seq<char>) -> bool {
    starts_with(name, "Synced Folder "@) && ({
        let n = number_text(name.skip(14));
        n is Some && 1 <= n->0 <= MAX_MANUAL_ROOTS
    })
}

proof fn lemma_digits_value_grows(s: Seq<char>, i: int)
    requires
        0 <= i <= s.len(),
        all_digits(s),
    ensures
        digits_value(s.take(i)) <= digits_value(s),
    decreases s.len() - i,
{
    if i < s.len() {
        lemma_digits_value_grows(s, i + 1);
        assert(s.take(i + 1).drop_last() =~= s.take(i));
    } else {
        assert(s.take(i) =~= s);
    }
}

pub fn valid_manual_name(name: &str) -> (r: bool)
    ensures
        r == valid_name(name@),
{
    if !str_starts_with(name, "Synced Folder ") {
        return false;
    }
    proof {
        reveal_strlit("Synced Folder ");
    }
    let chars = chars_of(name);
    let mut start: usize = 14;
    if start < chars.len() && chars[start] == '+' {
        start = 15;
    }
    let ghost rest = name@.skip(14);
    let ghost digits = if rest.len() > 0 && rest[0] == '+' { rest.drop_first() } else { rest };
    assert(digits =~= chars@.skip(start as int));
    if start >= chars.len() {
        return false;
    }
    let mut value: usize = 0;
    let mut i = start;
    while i < chars.len()
        invariant
            start <= i <= chars.len(),
            start < chars.len(),
            digits == chars@.skip(start as int),
            rest == name@.skip(14),
            digits == (if rest.len() > 0 && rest[0] == '+' { rest.drop_first() } else { rest }),
            starts_with(name@, "Synced Folder "@),
            all_digits(digits.take(i - start)),
            value == digits_value(digits.take(i - start)),
            value <= MAX_MANUAL_ROOTS,
        decreases chars.len() - i,
    {
        let c = chars[i];
        if !('0' <= c && c <= '9') {
            assert(!all_digits(digits)) by {
                assert(digits[i - start] == c);
            }
            return false;
        }
        let d = (c as u32 - '0' as u32) as usize;
        assert(digits.take(i - start + 1).drop_last() =~= digits.take(i - start));
        value = value * 10 + d;
        i = i + 1;
        if value > MAX_MANUAL_ROOTS {
            proof {
                if all_digits(digits) {
                    lemma_digits_value_grows(digits, i - start);
                    assert(digits_value(digits.take(i - start)) == value);
                }
            }
            return false;
        }
    }
    assert(digits.take(i - start) =~= digits);
    value >= 1
}

/// The first free name `Synced Folder N` for N from 1 to 128, or `Synced Folder` when all
/// are taken.
pub open spec fn numbered_name(n: nat) -> Seq<char> {
    "Synced Folder "@ + decimal(n)
}

pub open spec fn name_taken(names: Seq<Seq<char>>, n: nat) -> bool {
    names.contains(numbered_name(n))
}

pub open spec fn first_free_name(names: Seq<Seq<char>>) -> Seq<char> {
    if exists|n: nat| 1 <= n <= MAX_MANUAL_ROOTS && !name_taken(names, n) {
        let n = choose|n: nat| 1 <= n <= MAX_MANUAL_ROOTS && !name_taken(names, n)
            && forall|m: nat| 1 <= m < n ==> name_taken(names, m);
        numbered_name(n)
    } else {
        "Synced Folder"@
    }
}

pub open spec fn root_names(roots: Seq<StoredManualRoot>) -> Seq<Seq<char>> {
    roots.map_values(|r: StoredManualRoot| r.name@)
}

pub fn next_manual_name(roots: &Vec<StoredManualRoot>) -> (r: String)
    ensures
        r@ == first_free_name(root_names(roots@)),
{
    let ghost names = root_names(roots@);
    let mut index: usize = 1;
    while index <= MAX_MANUAL_ROOTS
        invariant
            1 <= index <= MAX_MANUAL_ROOTS + 1,
            names == root_names(roots@),
            forall|m: nat| 1 <= m < index ==> name_taken(names, m),
        decreases MAX_MANUAL_ROOTS + 1 - index,
    {
        let candidate = "Synced Folder ".to_owned().concat(decimal_string(index as u64).as_str());
        let mut taken = false;
        let mut k: usize = 0;
        while k < roots.len()
            invariant
                k <= roots.len(),
                names == root_names(roots@),
                taken <==> exists|j: int| 0 <= j < k && (#[trigger] roots@[j]).name@ == candidate@,
            decreases roots.len() - k,
        {
            if str_eq(roots[k].name.as_str(), candidate.as_str()) {
                taken = true;
            }
            k = k + 1;
        }
        if !taken {
            proof {
                assert(!name_taken(names, index as nat)) by {
                    if names.contains(numbered_name(index as nat)) {
                        let j = choose|j: int| 0 <= j < names.len() && names[j] == numbered_name(index as nat);
                        assert(roots@[j].name@ == candidate@);
                    }
                }
                let n = choose|n: nat| 1 <= n <= MAX_MANUAL_ROOTS && !name_taken(names, n)
                    && forall|m: nat| 1 <= m < n ==> name_taken(names, m);
                assert(n == index) by {
                    if n < index {
                        assert(name_taken(names, n));
                    }
                    if n > index {
                        assert(name_taken(names, index as nat));
                    }
                }
            }
            return candidate;
        }
        proof {
            assert(names.contains(numbered_name(index as nat))) by {
                let j = choose|j: int| 0 <= j < k && (#[trigger] roots@[j]).name@ == candidate@;
                assert(names[j] == candidate@);
            }
        }
        index = index + 1;
    }
    proof {
        assert(!(exists|n: nat| 1 <= n <= MAX_MANUAL_ROOTS && !name_taken(names, n)));
    }
    "Synced Folder".to_owned()
}

/// Why a saved record is refused.
#[derive(Debug, Clone, Copy, PartialEq, Eq, Structural)]
pub enum RootProblem {
    InvalidPath,
    InvalidEntry,
}

pub open spec fn absolute(path: Seq<u8>) -> bool {
    path.len() > 0 && path[0] == 0x2Fu8
}

/// The check of saved record `i` given those before it: its path must decode; its id must
/// be a UUID and its name valid, and its id, name and path must be absolute and new.
pub open spec fn root_problem(roots: Seq<StoredManualRoot>, i: int) -> Option<RootProblem> {
    let r = roots[i];
    match decoded(r.path) {
        None => Some(RootProblem::InvalidPath),
        Some(path) => if !parses_as_uuid(r.id@)
            || (exists|j: int| 0 <= j < i && (#[trigger] roots[j]).id@ == r.id@)
            || !valid_name(r.name@)
            || (exists|j: int| 0 <= j < i && (#[trigger] roots[j]).name@ == r.name@)
            || !absolute(path)
            || (exists|j: int| 0 <= j < i && decoded((#[trigger] roots[j]).path) == Some(path)) {
            Some(RootProblem::InvalidEntry)
        } else {
            None
        },
    }
}

pub open spec fn first_root_problem(roots: Seq<StoredManualRoot>, n: int) -> Option<RootProblem>
    decreases n,
{
    if n <= 0 {
        None
    } else {
        match first_root_problem(roots, n - 1) {
            Some(p) => Some(p),
            None => root_problem(roots, n - 1),
        }
    }
}

pub proof fn lemma_first_root_problem_sticks(roots: Seq<StoredManualRoot>, i: int, n: int)
    requires
        0 <= i < n,
        first_root_problem(roots, i) is None,
        root_problem(roots, i) is Some,
    ensures
        first_root_problem(roots, n) == root_problem(roots, i),
    decreases n - i,
{
    if n > i + 1 {
        lemma_first_root_problem_sticks(roots, i, n - 1);
    }
}

pub open spec fn config_message(e: ExplorerError, m: Seq<char>) -> bool {
    e matches ExplorerError::InvalidConfiguration(x) && x@ == m
}

/// The saved records, if the document is of the current version, within the size limit and
/// every record acceptable.
pub open spec fn loaded_roots(d: StoredManualRootsDocument, r: Result<Seq<StoredManualRoot>, ExplorerError>) -> bool {
    if d.version != ROOTS_FILE_VERSION || d.roots@.len() > MAX_MANUAL_ROOTS {
        r is Err && config_message(r->Err_0, "Explora's saved synced-folder file has an unsupported version or size."@)
    } else {
        match first_root_problem(d.roots@, d.roots@.len() as int) {
            Some(RootProblem::InvalidPath) => r is Err && invalid_path_error(r->Err_0),
            Some(RootProblem::InvalidEntry) => r is Err && config_message(r->Err_0,
                "Explora's saved synced-folder file contains duplicate or invalid entries."@),
            None => r == Ok::<Seq<StoredManualRoot>, ExplorerError>(d.roots@),
        }
    }
}

fn same_bytes(a: &Vec<u8>, b: &Vec<u8>) -> (r: bool)
    ensures
        r == (a@ == b@),
{
    if a.len() != b.len() {
        return false;
    }
    let mut i: usize = 0;
    while i < a.len()
        invariant
            a.len() == b.len(),
            i <= a.len(),
            forall|j: int| 0 <= j < i ==> a@[j] == b@[j],
        decreases a.len() - i,
    {
        if a[i] != b[i] {
            return false;
        }
        i = i + 1;
    }
    assert(a@ =~= b@);
    true
}

fn validate_document(document: StoredManualRootsDocument) -> (r: Result<Vec<StoredManualRoot>, ExplorerError>)
    ensures
        loaded_roots(document, match r {
            Ok(v) => Ok(v@),
            Err(e) => Err(e),
        }),
{
    if document.version != ROOTS_FILE_VERSION || document.roots.len() > MAX_MANUAL_ROOTS {
        return Err(ExplorerError::InvalidConfiguration(
            "Explora's saved synced-folder file has an unsupported version or size.".to_owned(),
        ));
    }
    let ghost doc = document;
    let roots = document.roots;
    let ghost rs = roots@;
    let n = roots.len();
    let mut i: usize = 0;
    while i < n
        invariant
            i <= n,
            n == roots.len(),
            rs == roots@,
            rs == doc.roots@,
            doc == document,
            doc.version == ROOTS_FILE_VERSION,
            doc.roots@.len() <= MAX_MANUAL_ROOTS,
            first_root_problem(rs, i as int) is None,
        decreases n - i,
    {
        let root = &roots[i];
        let path = match decode_path(&root.path) {
            Ok(p) => p,
            Err(e) => {
                proof {
                    assert(rs[i as int] == *root);
                    assert(root_problem(rs, i as int) == Some(RootProblem::InvalidPath));
                    lemma_first_root_problem_sticks(rs, i as int, n as int);
                    assert(first_root_problem(doc.roots@, doc.roots@.len() as int) == Some(RootProblem::InvalidPath));
                    assert(invalid_path_error(e));
                    assert(loaded_roots(doc, Err(e)));
                }
                return Err(e);
            },
        };
        let mut ok = is_uuid(root.id.as_str()) && valid_manual_name(root.name.as_str()) && path.len() > 0 && path[0] == 0x2F;
        let mut j: usize = 0;
        while j < i
            invariant
                j <= i < n,
                n == roots.len(),
                rs == roots@,
                root == &roots@[i as int],
                decoded(root.path) == Some(path@),
                ok ==> (parses_as_uuid(root.id@) && valid_name(root.name@) && absolute(path@)
                    && forall|m: int| 0 <= m < j ==> (#[trigger] rs[m]).id@ != root.id@ && rs[m].name@ != root.name@
                        && decoded(rs[m].path) != Some(path@)),
                !ok ==> root_problem(rs, i as int) is Some,
            decreases i - j,
        {
            let other = &roots[j];
            if str_eq(other.id.as_str(), root.id.as_str()) || str_eq(other.name.as_str(), root.name.as_str()) {
                ok = false;
            } else {
                match decode_path(&other.path) {
                    Ok(other_path) => {
                        if same_bytes(&other_path, &path) {
                            ok = false;
                        }
                    },
                    Err(_) => {},
                }
            }
            j = j + 1;
        }
        if !ok {
            proof {
                assert(rs[i as int] == *root);
                assert(root_problem(rs, i as int) == Some(RootProblem::InvalidEntry));
                lemma_first_root_problem_sticks(rs, i as int, n as int);
                assert(first_root_problem(doc.roots@, doc.roots@.len() as int) == Some(RootProblem::InvalidEntry));
            }
            return Err(ExplorerError::InvalidConfiguration(
                "Explora's saved synced-folder file contains duplicate or invalid entries.".to_owned(),
            ));
        }
        i = i + 1;
    }
    Ok(roots)
}

/// A manually added folder as a synced-folder root.
#[derive(Debug, Clone, PartialEq, Eq)]
pub struct SyncedFolderRoot {
    pub id: String,
    pub name: String,
    pub path: Vec<u8>,
    pub detail: String,
    pub metadata: SyncedFolderMetadataDto,
    pub availability: SyncedAvailabilityPolicy,
}

/// Where the manual folders are saved, and what a folder's path currently is.
pub trait ManualFoldersStorage {
    /// Saves the records, replacing what was saved before.
    fn persist(&self, roots: &Vec<StoredManualRoot>) -> Result<(), ExplorerError>;

    /// Available for a directory, offline when nothing is there, an error otherwise.
    fn status(&self, path: &Vec<u8>) -> SyncedFolderStatus;
}

pub open spec fn record_views(v: Seq<StoredManualRoot>) -> Seq<(Seq<char>, Seq<char>, Option<Seq<u8>>)> {
    v.map_values(|r: StoredManualRoot| (r.id@, r.name@, decoded(r.path)))
}

pub open spec fn not_folder(folder_id: Seq<char>) -> spec_fn((Seq<char>, Seq<char>, Option<Seq<u8>>)) -> bool {
    |x: (Seq<char>, Seq<char>, Option<Seq<u8>>)| manual_location_id(x.0) != folder_id
}

/// The records whose stored path decodes, in order, with the decoded path.
pub open spec fn decodable_records(recs: Seq<(Seq<char>, Seq<char>, Option<Seq<u8>>)>) -> Seq<(Seq<char>, Seq<char>, Seq<u8>)>
    decreases recs.len(),
{
    if recs.len() == 0 {
        Seq::empty()
    } else {
        let rest = decodable_records(recs.drop_last());
        match recs.last().2 {
            Some(p) => rest.push((recs.last().0, recs.last().1, p)),
            None => rest,
        }
    }
}

/// The root offered for a saved folder: its location id, name and path, marked as a
/// manually added local mirror, with a detail that tells whether it is available.
pub open spec fn discovered_root(root: SyncedFolderRoot, rec: (Seq<char>, Seq<char>, Seq<u8>)) -> bool {
    &&& root.id@ == manual_location_id(rec.0)
    &&& root.name@ == rec.1
    &&& root.path@ == rec.2
    &&& root.metadata.provider == SyncedFolderProvider::Other
    &&& root.metadata.source == SyncedFolderSource::Manual
    &&& root.availability == SyncedAvailabilityPolicy::LocalMirror
    &&& root.detail@ == if root.metadata.status == SyncedFolderStatus::Available {
        "Manually added · Synced folder"@
    } else {
        "Manually added · Folder unavailable"@
    }
}

/// The manual synced folders, where supported.
pub struct ManualSyncedFolderStore<S> {
    storage: S,
    enabled: bool,
    roots: Vec<StoredManualRoot>,
}

pub fn copy_root(r: &StoredManualRoot) -> (c: StoredManualRoot)
    ensures
        c.id@ == r.id@,
        c.name@ == r.name@,
        decoded(c.path) == decoded(r.path),
{
    let path = match &r.path {
        StoredPath::UnixBytes(b) => StoredPath::UnixBytes(copy_bytes(b)),
        StoredPath::WindowsWide(w) => StoredPath::WindowsWide(Vec::new()),
    };
    StoredManualRoot { id: r.id.clone(), name: r.name.clone(), path }
}

fn copy_roots(v: &Vec<StoredManualRoot>) -> (r: Vec<StoredManualRoot>)
    ensures
        record_views(r@) == record_views(v@),
{
    let mut r: Vec<StoredManualRoot> = Vec::new();
    let mut i: usize = 0;
    while i < v.len()
        invariant
            i <= v.len(),
            record_views(r@) == record_views(v@).take(i as int),
        decreases v.len() - i,
    {
        let c = copy_root(&v[i]);
        let ghost prev = r@;
        r.push(c);
        assert(record_views(r@) =~= record_views(prev).push((v@[i as int].id@, v@[i as int].name@, decoded(v@[i as int].path))));
        i = i + 1;
        assert(record_views(r@) =~= record_views(v@).take(i as int));
    }
    assert(record_views(v@).take(v.len() as int) =~= record_views(v@));
    r
}

impl<S: ManualFoldersStorage> ManualSyncedFolderStore<S> {
    pub closed spec fn stored(&self) -> Seq<StoredManualRoot> {
        self.roots@
    }

    pub closed spec fn records(&self) -> Seq<(Seq<char>, Seq<char>, Option<Seq<u8>>)> {
        record_views(self.roots@)
    }

    pub closed spec fn is_enabled(&self) -> bool {
        self.enabled
    }

    /// A store over what reading the saved folders found; without platform support it is
    /// empty and nothing is read.
    pub fn new(storage: S, enabled: bool, read: StoredRootsRead) -> (r: Result<Self, ExplorerError>)
        ensures
            r is Ok ==> r->Ok_0.is_enabled() == enabled,
            !enabled ==> r is Ok && r->Ok_0.records().len() == 0,
            enabled ==> match read {
                StoredRootsRead::Missing => r is Ok && r->Ok_0.records().len() == 0,
                StoredRootsRead::Failed(e) => r == Err::<Self, ExplorerError>(e),
                StoredRootsRead::Malformed => r is Err && config_message(r->Err_0,
                    "Explora's saved synced-folder file is malformed."@),
                StoredRootsRead::Document(d) => loaded_roots(d, match r {
                    Ok(store) => Ok(store.stored()),
                    Err(e) => Err(e),
                }),
            },
    {
        if !enabled {
            return Ok(ManualSyncedFolderStore { storage, enabled, roots: Vec::new() });
        }
        match read {
            StoredRootsRead::Missing => Ok(ManualSyncedFolderStore { storage, enabled, roots: Vec::new() }),
            StoredRootsRead::Failed(e) => Err(e),
            StoredRootsRead::Malformed => Err(ExplorerError::InvalidConfiguration(
                "Explora's saved synced-folder file is malformed.".to_owned(),
            )),
            StoredRootsRead::Document(d) => {
                match validate_document(d) {
                    Ok(roots) => Ok(ManualSyncedFolderStore { storage, enabled, roots }),
                    Err(e) => Err(e),
                }
            },
        }
    }

    pub fn enabled(&self) -> (r: bool)
        ensures
            r == self.is_enabled(),
    {
        self.enabled
    }

    /// The saved folders whose paths decode, in the order they were saved, each with the
    /// status the storage reports for its path.
    pub fn discover(&self) -> (r: Result<Vec<SyncedFolderRoot>, ExplorerError>)
        ensures
            r is Ok,
            r->Ok_0@.len() == decodable_records(self.records()).len(),
            forall|j: int| 0 <= j < r->Ok_0@.len() ==> discovered_root(#[trigger] r->Ok_0@[j], decodable_records(self.records())[j]),
    {
        let mut out: Vec<SyncedFolderRoot> = Vec::new();
        let mut i: usize = 0;
        while i < self.roots.len()
            invariant
                i <= self.roots.len(),
                out@.len() == decodable_records(self.records().take(i as int)).len(),
                forall|j: int| 0 <= j < out@.len() ==> discovered_root(#[trigger] out@[j], decodable_records(self.records().take(i as int))[j]),
            decreases self.roots.len() - i,
        {
            let ghost prefix = self.records().take(i as int + 1);
            assert(prefix.drop_last() =~= self.records().take(i as int));
            assert(prefix.last() == self.records()[i as int]);
            let stored = &self.roots[i];
            assert(self.records()[i as int] == (stored.id@, stored.name@, decoded(stored.path)));
            match decode_path(&stored.path) {
                Ok(path) => {
                    let status = self.storage.status(&path);
                    let detail = if status == SyncedFolderStatus::Available {
                        "Manually added · Synced folder".to_owned()
                    } else {
                        "Manually added · Folder unavailable".to_owned()
                    };
                    out.push(SyncedFolderRoot {
                        id: location_id(stored.id.as_str()),
                        name: stored.name.clone(),
                        path,
                        detail,
                        metadata: SyncedFolderMetadataDto {
                            provider: SyncedFolderProvider::Other,
                            status,
                            source: SyncedFolderSource::Manual,
                        },
                        availability: SyncedAvailabilityPolicy::LocalMirror,
                    });
                },
                Err(_) => {},
            }
            i = i + 1;
        }
        assert(self.records().take(self.roots@.len() as int) =~= self.records());
        Ok(out)
    }

    /// Adds a folder by its resolved path; a path already added gives its existing id.
    pub fn add(&mut self, path: Vec<u8>) -> (r: Result<String, ExplorerError>)
        ensures
            final(self).is_enabled() == old(self).is_enabled(),
            !old(self).is_enabled() ==> r is Err && (r->Err_0 matches ExplorerError::Unsupported(m)
                && m@ == "Adding synced folders manually is not supported on this platform."@),
            r is Err ==> final(self).records() == old(self).records(),
            old(self).is_enabled() && !storable_path(path@) ==> r is Err && invalid_path_error(r->Err_0),
            old(self).is_enabled() && storable_path(path@) ==> match r {
                Ok(id) => if exists|k: int| 0 <= k < old(self).records().len() && old(self).records()[k].2 == Some(path@) {
                    final(self).records() == old(self).records() && exists|k: int| 0 <= k < old(self).records().len()
                        && old(self).records()[k].2 == Some(path@) && id@ == manual_location_id(old(self).records()[k].0)
                } else {
                    exists|u: Seq<char>| #![auto] is_uuid_text(u) && id@ == manual_location_id(u)
                        && final(self).records() == old(self).records().push((u, first_free_name(old(self).records().map_values(
                        |x: (Seq<char>, Seq<char>, Option<Seq<u8>>)| x.1)), Some(path@)))
                },
                Err(e) => !(exists|k: int| 0 <= k < old(self).records().len() && old(self).records()[k].2 == Some(path@))
                    && (old(self).records().len() >= MAX_MANUAL_ROOTS ==> config_message(e,
                        "Explora cannot save more manually added synced folders."@)),
            },
    {
        if !self.enabled {
            return Err(ExplorerError::Unsupported("Adding synced folders manually is not supported on this platform.".to_owned()));
        }
        let encoded = match encode_path(&path) {
            Ok(e) => e,
            Err(e) => {
                return Err(e);
            },
        };
        let mut i: usize = 0;
        while i < self.roots.len()
            invariant
                i <= self.roots.len(),
                storable_path(path@),
                self.is_enabled(),
                self.records() == old(self).records(),
                forall|k: int| 0 <= k < i ==> (#[trigger] self.records()[k]).2 != Some(path@),
            decreases self.roots.len() - i,
        {
            assert(self.records()[i as int] == (self.roots@[i as int].id@, self.roots@[i as int].name@, decoded(self.roots@[i as int].path)));
            match decode_path(&self.roots[i].path) {
                Ok(existing) => {
                    if same_bytes(&existing, &path) {
                        return Ok(location_id(self.roots[i].id.as_str()));
                    }
                },
                Err(_) => {},
            }
            i = i + 1;
        }
        if self.roots.len() >= MAX_MANUAL_ROOTS {
            return Err(ExplorerError::InvalidConfiguration("Explora cannot save more manually added synced folders.".to_owned()));
        }
        let id = random_id();
        let name = next_manual_name(&self.roots);
        proof {
            assert(root_names(self.roots@) =~= self.records().map_values(|x: (Seq<char>, Seq<char>, Option<Seq<u8>>)| x.1));
        }
        let mut updated = copy_roots(&self.roots);
        let record = StoredManualRoot { id: id.clone(), name, path: encoded };
        let ghost rv = (record.id@, record.name@, decoded(record.path));
        updated.push(record);
        match self.storage.persist(&updated) {
            Ok(()) => {},
            Err(e) => {
                return Err(e);
            },
        }
        assert(record_views(updated@) =~= record_views(self.roots@).push(rv));
        self.roots = updated;
        Ok(location_id(id.as_str()))
    }

    /// Removes the folder with the given location id.
    pub fn remove(&mut self, folder_id: &str) -> (r: Result<(), ExplorerError>)
        ensures
            final(self).is_enabled() == old(self).is_enabled(),
            !old(self).is_enabled() ==> r is Err && (r->Err_0 matches ExplorerError::Unsupported(m)
                && m@ == "Removing manually added synced folders is not supported on this platform."@),
            r is Err ==> final(self).records() == old(self).records(),
            old(self).is_enabled() && !(starts_with(folder_id@, "synced:manual:"@) && parses_as_uuid(folder_id@.skip(14)))
                ==> r == Err::<(), ExplorerError>(ExplorerError::InvalidReference),
            old(self).is_enabled() && !(exists|k: int| 0 <= k < old(self).records().len()
                && manual_location_id((#[trigger] old(self).records()[k]).0) == folder_id@) ==> r is Err,
            r is Ok ==> final(self).records() == old(self).records().filter(not_folder(folder_id@)),
    {
        if !self.enabled {
            return Err(ExplorerError::Unsupported(
                "Removing manually added synced folders is not supported on this platform.".to_owned(),
            ));
        }
        if !str_starts_with(folder_id, "synced:manual:") {
            return Err(ExplorerError::InvalidReference);
        }
        proof {
            reveal_strlit("synced:manual:");
        }
        let chars = chars_of(folder_id);
        let id = string_from_range(&chars, 14, chars.len());
        if !is_uuid(id.as_str()) {
            return Err(ExplorerError::InvalidReference);
        }
        let ghost recs = self.records();
        let ghost keep = not_folder(folder_id@);
        let mut updated: Vec<StoredManualRoot> = Vec::new();
        let mut removed = false;
        let mut i: usize = 0;
        proof {
            reveal(Seq::filter);
            assert(recs.take(0) =~= Seq::<(Seq<char>, Seq<char>, Option<Seq<u8>>)>::empty());
        }
        while i < self.roots.len()
            invariant
                i <= self.roots.len(),
                recs == self.records(),
                id@ == folder_id@.skip(14),
                starts_with(folder_id@, "synced:manual:"@),
                keep == not_folder(folder_id@),
                record_views(updated@) == recs.take(i as int).filter(keep),
                removed <==> exists|k: int| 0 <= k < i && manual_location_id((#[trigger] recs[k]).0) == folder_id@,
            decreases self.roots.len() - i,
        {
            proof {
                reveal(Seq::filter);
                assert(recs.take(i + 1).drop_last() =~= recs.take(i as int));
                assert(recs.take(i + 1).last() == recs[i as int]);
                assert(recs[i as int] == (self.roots@[i as int].id@, self.roots@[i as int].name@, decoded(self.roots@[i as int].path)));
                reveal_strlit("synced:manual:");
                assert(folder_id@ =~= folder_id@.take(14) + folder_id@.skip(14));
                let x = recs[i as int].0;
                assert(manual_location_id(x) == folder_id@ <==> x == id@) by {
                    if manual_location_id(x) == folder_id@ {
                        assert(manual_location_id(x).skip(14) =~= x);
                    }
                }
            }
            if str_eq(self.roots[i].id.as_str(), id.as_str()) {
                removed = true;
            } else {
                let c = copy_root(&self.roots[i]);
                let ghost prev = updated@;
                updated.push(c);
                assert(record_views(updated@) =~= record_views(prev).push(recs[i as int]));
            }
            i = i + 1;
        }
        assert(recs.take(recs.len() as int) =~= recs);
        if !removed {
            return Err(ExplorerError::InvalidReference);
        }
        match self.storage.persist(&updated) {
            Ok(()) => {},
            Err(e) => {
                return Err(e);
            },
        }
        self.roots = updated;
        Ok(())
    }
}

} // verus!
