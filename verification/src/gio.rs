//! Registry of GIO-mounted synced folders (such as GNOME Online Accounts
//! Google Drive mounts). Mount URIs and account labels stay here; the frontend
//! sees stable opaque location ids and random reference ids.

use vstd::prelude::*;

use crate::filesystem::{
    location_view, location_views, provider_display_name, BreadcrumbSegmentDto, DirectoryRefDto, ExplorerError, IoErrorKind,
    LocationBackend, LocationRole, LocationSummaryDto, LocationView, PreviewUnavailableReason, SyncedFolderMetadataDto, SyncedFolderProvider, SyncedFolderSource,
    SyncedFolderStatus,
};
use crate::ids::{is_uuid_text, random_id};
use crate::ssh::{io_error, offline_error, unexpected_error};
use crate::text::{position_of, str_eq, views};

verus! {

broadcast use vstd::seq_lib::group_seq_properties;

#[derive(Debug, Clone, Copy, PartialEq, Eq, Structural)]
pub enum GioEntryKind {
    Directory,
    File,
    Symlink,
    Other,
}

#[derive(Debug, Clone, Copy, PartialEq, Eq, Structural)]
pub struct GioEntryMetadata {
    pub kind: GioEntryKind,
    pub size: Option<u64>,
    pub modified_at: Option<u64>,
}

/// A registered GIO entry.
#[derive(Debug)]
pub struct GioReference {
    pub id: String,
    pub location_id: String,
    pub uri: String,
    pub name: String,
    pub display_path: String,
    pub parent_id: Option<String>,
    pub kind: GioEntryKind,
    pub size: Option<u64>,
    pub modified_at: Option<u64>,
}

pub struct GioReferenceView {
    pub id: Seq<char>,
    pub location_id: Seq<char>,
    pub uri: Seq<char>,
    pub name: Seq<char>,
    pub display_path: Seq<char>,
    pub parent_id: Option<Seq<char>>,
    pub kind: GioEntryKind,
    pub size: Option<u64>,
    pub modified_at: Option<u64>,
}

pub open spec fn opt_view(o: Option<String>) -> Option<Seq<char>> {
    match o {
        Some(s) => Some(s@),
        None => None,
    }
}

pub fn opt_clone(o: &Option<String>) -> (r: Option<String>)
    ensures
        opt_view(r) == opt_view(*o),
{
    match o {
        Some(s) => Some(s.clone()),
        None => None,
    }
}

impl View for GioReference {
    type V = GioReferenceView;

    open spec fn view(&self) -> GioReferenceView {
        GioReferenceView {
            id: self.id@,
            location_id: self.location_id@,
            uri: self.uri@,
            name: self.name@,
            display_path: self.display_path@,
            parent_id: opt_view(self.parent_id),
            kind: self.kind,
            size: self.size,
            modified_at: self.modified_at,
        }
    }
}

impl GioReference {
    pub fn duplicate(&self) -> (r: GioReference)
        ensures
            r@ == self@,
    {
        GioReference {
            id: self.id.clone(),
            location_id: self.location_id.clone(),
            uri: self.uri.clone(),
            name: self.name.clone(),
            display_path: self.display_path.clone(),
            parent_id: opt_clone(&self.parent_id),
            kind: self.kind,
            size: self.size,
            modified_at: self.modified_at,
        }
    }

    /// The directory reference that the frontend receives for this entry.
    pub fn directory(&self) -> (r: DirectoryRefDto)
        ensures
            r.id@ == self.id@,
            r.location_id@ == self.location_id@,
            r.name@ == self.name@,
            r.display_path@ == self.display_path@,
    {
        DirectoryRefDto {
            id: self.id.clone(),
            location_id: self.location_id.clone(),
            name: self.name.clone(),
            display_path: self.display_path.clone(),
        }
    }
}

/// A reference to be registered: everything but its identifier.
pub struct NewGioReference {
    pub uri: String,
    pub name: String,
    pub display_path: String,
    pub parent_id: Option<String>,
    pub metadata: GioEntryMetadata,
}

/// What the preview pipeline may read of an entry.
pub struct GioPreviewAccess {
    pub name: String,
    pub uri: String,
    pub size: Option<u64>,
    pub modified_at: Option<u64>,
    pub reason: Option<PreviewUnavailableReason>,
}

/// The key under which a removed reference is remembered: location, NUL, reference.
pub open spec fn revocation_key(location_id: Seq<char>, reference_id: Seq<char>) -> Seq<char> {
    location_id + seq!['\0'] + reference_id
}

pub fn reference_revocation_key(location_id: &str, reference_id: &str) -> (r: String)
    ensures
        r@ == revocation_key(location_id@, reference_id@),
{
    let mut key = location_id.to_owned();
    key.push('\0');
    let key = key.concat(reference_id);
    key
}

pub struct RootKey {
    pub location_id: String,
    pub uri: String,
    pub name: String,
}

/// The state behind the synced-folder locations that GIO mounts provide.
pub struct GioFilesystem {
    locations: Vec<LocationSummaryDto>,
    root_keys: Vec<RootKey>,
    references: Vec<GioReference>,
    revoked_locations: Vec<String>,
    revoked_references: Vec<String>,
}

pub open spec fn ref_views(v: Seq<GioReference>) -> Seq<GioReferenceView> {
    v.map_values(|r: GioReference| r@)
}

/// Reference ids are unique, and so is each (location, URI) pair.
pub open spec fn refs_wf(refs: Seq<GioReferenceView>) -> bool {
    &&& forall|i: int, j: int|
        0 <= i < refs.len() && 0 <= j < refs.len() && i != j ==> (#[trigger] refs[i]).id != (#[trigger] refs[j]).id
    &&& forall|i: int, j: int|
        0 <= i < refs.len() && 0 <= j < refs.len() && i != j ==> !((#[trigger] refs[i]).location_id
            == (#[trigger] refs[j]).location_id && refs[i].uri == refs[j].uri)
}

/// Each location has at most one root key.
pub open spec fn keys_wf(keys: Seq<(Seq<char>, Seq<char>, Seq<char>)>) -> bool {
    forall|i: int, j: int| 0 <= i < keys.len() && 0 <= j < keys.len() && i != j ==> (#[trigger] keys[i]).0 != (#[trigger] keys[j]).0
}

/// Filtering keeps root-key locations unique.
pub proof fn lemma_filter_keeps_keys_wf(keys: Seq<(Seq<char>, Seq<char>, Seq<char>)>, pred: spec_fn((Seq<char>, Seq<char>, Seq<char>)) -> bool)
    requires
        keys_wf(keys),
    ensures
        keys_wf(keys.filter(pred)),
    decreases keys.len(),
{
    reveal(Seq::filter);
    if keys.len() > 0 {
        let prefix = keys.drop_last();
        assert(keys_wf(prefix)) by {
            assert forall|i: int, j: int| 0 <= i < prefix.len() && 0 <= j < prefix.len() && i != j implies (#[trigger] prefix[i]).0 != (#[trigger] prefix[j]).0 by {
                assert(prefix[i] == keys[i] && prefix[j] == keys[j]);
            }
        }
        lemma_filter_keeps_keys_wf(prefix, pred);
        let sub = prefix.filter(pred);
        if pred(keys.last()) {
            let f = keys.filter(pred);
            assert(f == sub.push(keys.last()));
            assert forall|i: int| 0 <= i < sub.len() implies (#[trigger] sub[i]).0 != keys.last().0 by {
                assert(sub.contains(sub[i]));
                lemma_filter_subset(prefix, pred, sub[i]);
                let j = choose|j: int| 0 <= j < prefix.len() && prefix[j] == sub[i];
                assert(keys[j] == sub[i]);
                assert(keys[keys.len() - 1] == keys.last());
            }
            assert forall|i: int, j: int| 0 <= i < f.len() && 0 <= j < f.len() && i != j implies (#[trigger] f[i]).0 != (#[trigger] f[j]).0 by {
                if i < sub.len() && j < sub.len() {
                    assert(f[i] == sub[i] && f[j] == sub[j]);
                } else if i < sub.len() {
                    assert(f[i] == sub[i]);
                } else {
                    assert(f[j] == sub[j]);
                }
            }
        }
    }
}

/// The reference with identifier `id`, if any.
pub open spec fn ref_with_id(refs: Seq<GioReferenceView>, id: Seq<char>) -> Option<GioReferenceView> {
    if exists|i: int| 0 <= i < refs.len() && (#[trigger] refs[i]).id == id {
        Some(refs[choose|i: int| 0 <= i < refs.len() && (#[trigger] refs[i]).id == id])
    } else {
        None
    }
}

/// The reference of `location` registered for `uri`, if any.
pub open spec fn ref_with_uri(refs: Seq<GioReferenceView>, location: Seq<char>, uri: Seq<char>) -> Option<GioReferenceView> {
    if exists|i: int| 0 <= i < refs.len() && (#[trigger] refs[i]).location_id == location && refs[i].uri == uri {
        Some(refs[choose|i: int| 0 <= i < refs.len() && (#[trigger] refs[i]).location_id == location && refs[i].uri == uri])
    } else {
        None
    }
}

pub open spec fn unavailable_message() -> Seq<char> {
    "This location is no longer available."@
}

pub open spec fn is_unavailable(e: ExplorerError) -> bool {
    e matches ExplorerError::Unavailable(m) && m@ == unavailable_message()
}

/// The display path of a child: the parent's display path without trailing slashes,
/// a slash, and the child's name.
pub open spec fn child_display_path(parent: Seq<char>, name: Seq<char>) -> Seq<char> {
    parent.take(parent.len() - trailing_slashes(parent)) + seq!['/'] + name
}

pub open spec fn trailing_slashes(s: Seq<char>) -> nat
    decreases s.len(),
{
    if s.len() > 0 && s.last() == '/' {
        1 + trailing_slashes(s.drop_last())
    } else {
        0
    }
}

pub proof fn lemma_trailing_slashes(s: Seq<char>)
    ensures
        trailing_slashes(s) <= s.len(),
        trailing_slashes(s) < s.len() ==> s[s.len() - trailing_slashes(s) - 1] != '/',
        forall|i: int| s.len() - trailing_slashes(s) <= i < s.len() ==> #[trigger] s[i] == '/',
    decreases s.len(),
{
    if s.len() > 0 && s.last() == '/' {
        lemma_trailing_slashes(s.drop_last());
        assert forall|i: int| s.len() - trailing_slashes(s) <= i < s.len() implies #[trigger] s[i] == '/' by {
            if i < s.len() - 1 {
                assert(s[i] == s.drop_last()[i]);
            }
        }
    }
}

/// `s.trim_end_matches('/')`.
pub fn trim_trailing_slashes(s: &str) -> (r: String)
    ensures
        r@ == s@.take(s@.len() - trailing_slashes(s@)),
{
    let chars = crate::text::chars_of(s);
    proof {
        lemma_trailing_slashes(s@);
    }
    let mut end = chars.len();
    while end > 0 && chars[end - 1] == '/'
        invariant
            end <= chars.len(),
            chars@ == s@,
            chars.len() - end <= trailing_slashes(s@),
            trailing_slashes(s@) <= s@.len(),
            trailing_slashes(s@) < s@.len() ==> s@[s@.len() - trailing_slashes(s@) - 1] != '/',
            forall|i: int| s@.len() - trailing_slashes(s@) <= i < s@.len() ==> #[trigger] s@[i] == '/',
        decreases end,
    {
        end = end - 1;
    }
    crate::text::string_from_range(&chars, 0, end)
}

impl GioFilesystem {
    pub closed spec fn refs(&self) -> Seq<GioReferenceView> {
        ref_views(self.references@)
    }

    pub closed spec fn location_ids(&self) -> Seq<Seq<char>> {
        self.locations@.map_values(|l: LocationSummaryDto| l.id@)
    }

    /// The location summaries offered, in order.
    pub closed spec fn summaries(&self) -> Seq<LocationView> {
        location_views(self.locations@)
    }

    pub closed spec fn location_root_ids(&self) -> Seq<Seq<char>> {
        self.locations@.map_values(|l: LocationSummaryDto| l.root.id@)
    }

    pub closed spec fn revoked_locations(&self) -> Seq<Seq<char>> {
        views(self.revoked_locations@)
    }

    pub closed spec fn revoked_references(&self) -> Seq<Seq<char>> {
        views(self.revoked_references@)
    }

    pub closed spec fn root_keys(&self) -> Seq<(Seq<char>, Seq<char>, Seq<char>)> {
        self.root_keys@.map_values(|k: RootKey| (k.location_id@, k.uri@, k.name@))
    }

    pub closed spec fn wf(&self) -> bool {
        &&& refs_wf(self.refs())
        &&& keys_wf(self.root_keys())
    }

    pub fn new() -> (r: GioFilesystem)
        ensures
            r.wf(),
            r.refs().len() == 0,
            r.location_ids().len() == 0,
            r.revoked_locations().len() == 0,
            r.revoked_references().len() == 0,
            r.root_keys().len() == 0,
    {
        GioFilesystem {
            locations: Vec::new(),
            root_keys: Vec::new(),
            references: Vec::new(),
            revoked_locations: Vec::new(),
            revoked_references: Vec::new(),
        }
    }

    /// The synced-folder locations currently mounted.
    pub fn locations(&self) -> (r: Vec<LocationSummaryDto>)
        ensures
            r@.map_values(|l: LocationSummaryDto| l.id@) == self.location_ids(),
            location_views(r@) == self.summaries(),
    {
        let mut r: Vec<LocationSummaryDto> = Vec::new();
        let mut i: usize = 0;
        while i < self.locations.len()
            invariant
                i <= self.locations.len(),
                r@.len() == i,
                forall|j: int| 0 <= j < i ==> (#[trigger] r@[j]).id@ == self.locations@[j].id@,
                forall|j: int| 0 <= j < i ==> location_view(#[trigger] r@[j]) == location_view(self.locations@[j]),
            decreases self.locations.len() - i,
        {
            r.push(copy_location(&self.locations[i]));
            i = i + 1;
        }
        assert(r@.map_values(|l: LocationSummaryDto| l.id@) =~= self.location_ids());
        assert(location_views(r@) =~= self.summaries());
        r
    }

    /// A copy of the whole state.
    pub(crate) fn copy_state(&self) -> (r: GioFilesystem)
        ensures
            r.refs() == self.refs(),
            r.location_ids() == self.location_ids(),
            r.location_root_ids() == self.location_root_ids(),
            r.summaries() == self.summaries(),
            r.root_keys() == self.root_keys(),
            r.revoked_locations() == self.revoked_locations(),
            r.revoked_references() == self.revoked_references(),
            r.wf() == self.wf(),
    {
        let mut locations: Vec<LocationSummaryDto> = Vec::new();
        let mut i: usize = 0;
        while i < self.locations.len()
            invariant
                i <= self.locations.len(),
                locations@.len() == i,
                forall|j: int| 0 <= j < i ==> location_view(#[trigger] locations@[j]) == location_view(self.locations@[j]),
            decreases self.locations.len() - i,
        {
            locations.push(copy_location(&self.locations[i]));
            i = i + 1;
        }
        let mut root_keys: Vec<RootKey> = Vec::new();
        let mut i: usize = 0;
        while i < self.root_keys.len()
            invariant
                i <= self.root_keys.len(),
                root_keys@.len() == i,
                forall|j: int| 0 <= j < i ==> (#[trigger] root_keys@[j]).location_id@ == self.root_keys@[j].location_id@
                    && root_keys@[j].uri@ == self.root_keys@[j].uri@ && root_keys@[j].name@ == self.root_keys@[j].name@,
            decreases self.root_keys.len() - i,
        {
            let k = RootKey {
                location_id: self.root_keys[i].location_id.clone(),
                uri: self.root_keys[i].uri.clone(),
                name: self.root_keys[i].name.clone(),
            };
            root_keys.push(k);
            i = i + 1;
        }
        let mut references: Vec<GioReference> = Vec::new();
        let mut i: usize = 0;
        while i < self.references.len()
            invariant
                i <= self.references.len(),
                references@.len() == i,
                forall|j: int| 0 <= j < i ==> (#[trigger] references@[j])@ == self.references@[j]@,
            decreases self.references.len() - i,
        {
            references.push(self.references[i].duplicate());
            i = i + 1;
        }
        let revoked_locations = crate::preferences::copy_strings(&self.revoked_locations);
        let revoked_references = crate::preferences::copy_strings(&self.revoked_references);
        let r = GioFilesystem { locations, root_keys, references, revoked_locations, revoked_references };
        assert(r.summaries() =~= self.summaries());
        assert forall|j: int| 0 <= j < r.locations@.len() implies r.locations@[j].id@ == self.locations@[j].id@
            && r.locations@[j].root.id@ == self.locations@[j].root.id@ by {
            assert(location_view(r.locations@[j]) == location_view(self.locations@[j]));
        }
        assert(r.location_ids() =~= self.location_ids());
        assert(r.location_root_ids() =~= self.location_root_ids());
        assert(r.root_keys() =~= self.root_keys());
        assert(r.refs() =~= self.refs());
        r
    }

    /// Whether `location_id` names a mounted location.
    pub fn contains_location(&self, location_id: &str) -> (r: bool)
        ensures
            r == self.location_ids().contains(location_id@),
    {
        self.location_is_active(location_id)
    }

    fn location_index(&self, location_id: &str) -> (r: Option<usize>)
        ensures
            match r {
                Some(i) => i < self.locations@.len() && self.location_ids()[i as int] == location_id@,
                None => !self.location_ids().contains(location_id@),
            },
    {
        let mut i: usize = 0;
        while i < self.locations.len()
            invariant
                i <= self.locations.len(),
                forall|j: int| 0 <= j < i ==> self.location_ids()[j] != location_id@,
                self.location_ids().len() == self.locations@.len(),
            decreases self.locations.len() - i,
        {
            if str_eq(self.locations[i].id.as_str(), location_id) {
                return Some(i);
            }
            i = i + 1;
        }
        None
    }

    pub fn location_is_active(&self, location_id: &str) -> (r: bool)
        ensures
            r == self.location_ids().contains(location_id@),
    {
        self.location_index(location_id).is_some()
    }

    /// Whether `location_id` names a location that was mounted and has gone away.
    pub fn is_unavailable_location(&self, location_id: &str) -> (r: bool)
        ensures
            r == self.revoked_locations().contains(location_id@),
    {
        position_of(&self.revoked_locations, location_id).is_some()
    }

    /// The error for a location that is not mounted: `Unavailable` when it was mounted
    /// before, `InvalidReference` when it never was.
    pub fn missing_location_error(&self, location_id: &str) -> (r: ExplorerError)
        ensures
            if self.revoked_locations().contains(location_id@) {
                is_unavailable(r)
            } else {
                r == ExplorerError::InvalidReference
            },
    {
        if self.is_unavailable_location(location_id) {
            let r = ExplorerError::Unavailable(String::from_str("This location is no longer available."));
            r
        } else {
            ExplorerError::InvalidReference
        }
    }

    /// The error for a reference that is not registered: `StaleReference` when it was
    /// removed with its location, `InvalidReference` when it never existed.
    pub fn missing_reference_error(&self, location_id: &str, reference_id: &str) -> (r: ExplorerError)
        ensures
            r == (if self.revoked_references().contains(revocation_key(location_id@, reference_id@)) {
                ExplorerError::StaleReference
            } else {
                ExplorerError::InvalidReference
            }),
    {
        let key = reference_revocation_key(location_id, reference_id);
        if position_of(&self.revoked_references, key.as_str()).is_some() {
            ExplorerError::StaleReference
        } else {
            ExplorerError::InvalidReference
        }
    }

    fn find_reference(&self, id: &str) -> (r: Option<usize>)
        requires
            self.wf(),
        ensures
            match r {
                Some(i) => i < self.references@.len() && self.refs()[i as int].id == id@ && ref_with_id(self.refs(), id@) == Some(self.refs()[i as int]),
                None => ref_with_id(self.refs(), id@) is None,
            },
    {
        let mut i: usize = 0;
        while i < self.references.len()
            invariant
                i <= self.references.len(),
                self.refs().len() == self.references@.len(),
                refs_wf(self.refs()),
                forall|j: int| 0 <= j < self.references@.len() ==> #[trigger] self.refs()[j] == self.references@[j]@,
                forall|j: int| 0 <= j < i ==> (#[trigger] self.refs()[j]).id != id@,
            decreases self.references.len() - i,
        {
            if str_eq(self.references[i].id.as_str(), id) {
                proof {
                    assert(self.refs()[i as int].id == id@);
                    let k = choose|k: int| 0 <= k < self.refs().len() && (#[trigger] self.refs()[k]).id == id@;
                    assert(k == i);
                }
                return Some(i);
            }
            i = i + 1;
        }
        None
    }

    fn find_uri(&self, location_id: &str, uri: &str) -> (r: Option<usize>)
        requires
            self.wf(),
        ensures
            match r {
                Some(i) => i < self.references@.len() && ref_with_uri(self.refs(), location_id@, uri@) == Some(self.refs()[i as int]),
                None => ref_with_uri(self.refs(), location_id@, uri@) is None,
            },
    {
        let mut i: usize = 0;
        while i < self.references.len()
            invariant
                i <= self.references.len(),
                self.refs().len() == self.references@.len(),
                refs_wf(self.refs()),
                forall|j: int| 0 <= j < self.references@.len() ==> #[trigger] self.refs()[j] == self.references@[j]@,
                forall|j: int| 0 <= j < i ==> !((#[trigger] self.refs()[j]).location_id == location_id@ && self.refs()[j].uri == uri@),
            decreases self.references.len() - i,
        {
            if str_eq(self.references[i].location_id.as_str(), location_id) && str_eq(self.references[i].uri.as_str(), uri) {
                proof {
                    assert(self.refs()[i as int].location_id == location_id@ && self.refs()[i as int].uri == uri@);
                    let k = choose|k: int| 0 <= k < self.refs().len() && (#[trigger] self.refs()[k]).location_id == location_id@ && self.refs()[k].uri == uri@;
                    assert(k == i);
                }
                return Some(i);
            }
            i = i + 1;
        }
        None
    }

    /// Whether `reference_id` names a registered entry of the mounted location `location_id`.
    pub open spec fn resolvable(&self, location_id: Seq<char>, reference_id: Seq<char>) -> bool {
        &&& self.location_ids().contains(location_id)
        &&& ref_with_id(self.refs(), reference_id) is Some
        &&& ref_with_id(self.refs(), reference_id)->0.location_id == location_id
    }

    /// The error of a failed lookup: `Unavailable` or `InvalidReference` for a location
    /// that is not mounted; `InvalidReference` for a reference of another location;
    /// `StaleReference` or `InvalidReference` for an unknown reference.
    pub open spec fn lookup_error(&self, location_id: Seq<char>, reference_id: Seq<char>, e: ExplorerError) -> bool {
        if !self.location_ids().contains(location_id) {
            if self.revoked_locations().contains(location_id) {
                is_unavailable(e)
            } else {
                e == ExplorerError::InvalidReference
            }
        } else {
            match ref_with_id(self.refs(), reference_id) {
                Some(_) => e == ExplorerError::InvalidReference,
                None => e == (if self.revoked_references().contains(revocation_key(location_id, reference_id)) {
                    ExplorerError::StaleReference
                } else {
                    ExplorerError::InvalidReference
                }),
            }
        }
    }

    /// The reference `reference_id` of `location_id`.
    pub fn resolve_reference(&self, location_id: &str, reference_id: &str) -> (r: Result<GioReference, ExplorerError>)
        requires
            self.wf(),
        ensures
            r is Ok <==> self.resolvable(location_id@, reference_id@),
            r is Ok ==> r->Ok_0@ == ref_with_id(self.refs(), reference_id@)->0,
            r is Err ==> self.lookup_error(location_id@, reference_id@, r->Err_0),
    {
        if !self.location_is_active(location_id) {
            return Err(self.missing_location_error(location_id));
        }
        match self.find_reference(reference_id) {
            Some(i) => {
                if str_eq(self.references[i].location_id.as_str(), location_id) {
                    Ok(self.references[i].duplicate())
                } else {
                    Err(ExplorerError::InvalidReference)
                }
            },
            None => Err(self.missing_reference_error(location_id, reference_id)),
        }
    }

    /// The root reference of a mounted location.
    pub fn root_reference(&self, location_id: &str) -> (r: Result<GioReference, ExplorerError>)
        requires
            self.wf(),
        ensures
            !self.location_ids().contains(location_id@) ==> r is Err && if self.revoked_locations().contains(location_id@) {
                is_unavailable(r->Err_0)
            } else {
                r->Err_0 == ExplorerError::InvalidReference
            },
            r is Ok ==> exists|i: int| 0 <= i < self.location_ids().len() && self.location_ids()[i] == location_id@
                && ref_with_id(self.refs(), self.location_root_ids()[i]) == Some(r->Ok_0@),
    {
        match self.location_index(location_id) {
            None => Err(self.missing_location_error(location_id)),
            Some(i) => match self.find_reference(self.locations[i].root.id.as_str()) {
                Some(k) => {
                    let r = self.references[k].duplicate();
                    assert(self.location_root_ids()[i as int] == self.locations@[i as int].root.id@);
                    Ok(r)
                },
                None => Err(ExplorerError::InvalidReference),
            },
        }
    }

    /// What the preview pipeline may read of an entry: files are readable, other kinds
    /// carry the reason why they are not.
    pub fn resolve_preview_access(&self, entry_id: &str, location_id: &str) -> (r: Result<GioPreviewAccess, ExplorerError>)
        requires
            self.wf(),
        ensures
            r is Ok <==> self.resolvable(location_id@, entry_id@),
            r is Ok ==> ({
                let v = ref_with_id(self.refs(), entry_id@)->0;
                &&& r->Ok_0.uri@ == v.uri
                &&& r->Ok_0.name@ == v.name
                &&& r->Ok_0.size == v.size
                &&& r->Ok_0.modified_at == v.modified_at
                &&& r->Ok_0.reason == match v.kind {
                    GioEntryKind::Directory => Some(PreviewUnavailableReason::Directory),
                    GioEntryKind::Symlink => Some(PreviewUnavailableReason::Symlink),
                    GioEntryKind::Other => Some(PreviewUnavailableReason::Unsupported),
                    GioEntryKind::File => None,
                }
            }),
            r is Err ==> self.lookup_error(location_id@, entry_id@, r->Err_0),
    {
        let reference = self.resolve_reference(location_id, entry_id)?;
        let reason = match reference.kind {
            GioEntryKind::Directory => Some(PreviewUnavailableReason::Directory),
            GioEntryKind::Symlink => Some(PreviewUnavailableReason::Symlink),
            GioEntryKind::Other => Some(PreviewUnavailableReason::Unsupported),
            GioEntryKind::File => None,
        };
        Ok(GioPreviewAccess {
            name: reference.name,
            uri: reference.uri,
            size: reference.size,
            modified_at: reference.modified_at,
            reason,
        })
    }
}

/// Records `key` in a revocation tracker.
pub fn record_key(v: &mut Vec<String>, key: String)
    ensures
        views(final(v)@).to_set() == views(old(v)@).to_set().insert(key@),
{
    let ghost before = views(v@);
    let ghost k = key@;
    if position_of(v, key.as_str()).is_none() {
        v.push(key);
        assert(views(v@) =~= before.push(k));
        assert(views(v@).to_set() =~= before.to_set().insert(k));
    } else {
        assert(views(v@).to_set() =~= before.to_set().insert(k));
    }
}

/// Forgets `key` in a revocation tracker.
pub fn forget_key(v: &mut Vec<String>, key: &str)
    ensures
        views(final(v)@).to_set() == views(old(v)@).to_set().remove(key@),
{
    let ghost before = views(v@);
    let mut kept: Vec<String> = Vec::new();
    let mut i: usize = 0;
    while i < v.len()
        invariant
            i <= v.len(),
            before == views(v@),
            forall|k: Seq<char>| views(kept@).contains(k) <==> views(v@).subrange(0, i as int).contains(k) && k != key@,
        decreases v.len() - i,
    {
        let ghost kept_before = views(kept@);
        if !str_eq(v[i].as_str(), key) {
            kept.push(v[i].clone());
            assert(views(kept@) =~= kept_before.push(v@[i as int]@));
        }
        proof {
            let sub = views(v@).subrange(0, i + 1);
            assert(sub =~= views(v@).subrange(0, i as int).push(views(v@)[i as int]));
            assert forall|k: Seq<char>| views(kept@).contains(k) <==> sub.contains(k) && k != key@ by {
                if sub.contains(k) && k != key@ {
                    let j = choose|j: int| 0 <= j < sub.len() && sub[j] == k;
                    if j < i {
                        assert(views(v@).subrange(0, i as int)[j] == k);
                    } else {
                        assert(views(kept@)[views(kept@).len() - 1] == k);
                    }
                }
                if views(kept@).contains(k) && views(kept@).len() > kept_before.len() {
                    let j = choose|j: int| 0 <= j < views(kept@).len() && views(kept@)[j] == k;
                    if j < kept_before.len() {
                        assert(kept_before[j] == k);
                        assert(kept_before.contains(k));
                        let m = choose|m: int| 0 <= m < i && views(v@).subrange(0, i as int)[m] == k;
                        assert(sub[m] == k);
                    } else {
                        assert(sub[i as int] == k);
                    }
                } else if views(kept@).contains(k) {
                    assert(kept_before.contains(k));
                    let m = choose|m: int| 0 <= m < i && views(v@).subrange(0, i as int)[m] == k;
                    assert(sub[m] == k);
                }
            }
        }
        i = i + 1;
    }
    assert(views(v@).subrange(0, v@.len() as int) =~= views(v@));
    assert(views(kept@).to_set() =~= before.to_set().remove(key@));
    *v = kept;
}

/// Keeps the references of every location but `location`.
pub open spec fn ref_not_at(location: Seq<char>) -> spec_fn(GioReferenceView) -> bool {
    |v: GioReferenceView| v.location_id != location
}

/// Keeps the root keys of every location but `location`.
pub open spec fn key_not_at(location: Seq<char>) -> spec_fn((Seq<char>, Seq<char>, Seq<char>)) -> bool {
    |rk: (Seq<char>, Seq<char>, Seq<char>)| rk.0 != location
}

/// The revocation keys of the references of `location` in `refs`, in order.
pub open spec fn revocation_keys(refs: Seq<GioReferenceView>, location: Seq<char>) -> Seq<Seq<char>>
    decreases refs.len(),
{
    if refs.len() == 0 {
        Seq::empty()
    } else {
        let prev = revocation_keys(refs.drop_last(), location);
        if refs.last().location_id == location {
            prev.push(revocation_key(location, refs.last().id))
        } else {
            prev
        }
    }
}

/// Every element of a filtered sequence occurs in the original.
pub proof fn lemma_filter_subset<A>(s: Seq<A>, pred: spec_fn(A) -> bool, x: A)
    requires
        s.filter(pred).contains(x),
    ensures
        s.contains(x),
        pred(x),
    decreases s.len(),
{
    reveal(Seq::filter);
    if s.len() > 0 {
        let sub = s.drop_last().filter(pred);
        if pred(s.last()) && x == s.last() {
            assert(s[s.len() - 1] == x);
        } else {
            if pred(s.last()) {
                let i = choose|i: int| 0 <= i < s.filter(pred).len() && s.filter(pred)[i] == x;
                assert(s.filter(pred) == sub.push(s.last()));
                assert(i < sub.len());
                assert(sub[i] == x);
            }
            lemma_filter_subset(s.drop_last(), pred, x);
            let j = choose|j: int| 0 <= j < s.drop_last().len() && s.drop_last()[j] == x;
            assert(s[j] == x);
        }
    }
}

/// Filtering keeps identifiers and (location, URI) pairs unique.
pub proof fn lemma_filter_keeps_wf(refs: Seq<GioReferenceView>, pred: spec_fn(GioReferenceView) -> bool)
    requires
        refs_wf(refs),
    ensures
        refs_wf(refs.filter(pred)),
    decreases refs.len(),
{
    reveal(Seq::filter);
    if refs.len() > 0 {
        let prefix = refs.drop_last();
        assert(refs_wf(prefix)) by {
            assert forall|i: int, j: int| 0 <= i < prefix.len() && 0 <= j < prefix.len() && i != j implies (#[trigger] prefix[i]).id != (#[trigger] prefix[j]).id && !(prefix[i].location_id == prefix[j].location_id && prefix[i].uri == prefix[j].uri) by {
                assert(prefix[i] == refs[i] && prefix[j] == refs[j]);
            }
        }
        lemma_filter_keeps_wf(prefix, pred);
        let sub = prefix.filter(pred);
        if pred(refs.last()) {
            let f = refs.filter(pred);
            assert(f == sub.push(refs.last()));
            assert forall|i: int| 0 <= i < sub.len() implies (#[trigger] sub[i]).id != refs.last().id && !(sub[i].location_id == refs.last().location_id && sub[i].uri == refs.last().uri) by {
                assert(sub.contains(sub[i]));
                lemma_filter_subset(prefix, pred, sub[i]);
                let j = choose|j: int| 0 <= j < prefix.len() && prefix[j] == sub[i];
                assert(refs[j] == sub[i]);
                assert(refs[refs.len() - 1] == refs.last());
            }
            assert forall|i: int, j: int| 0 <= i < f.len() && 0 <= j < f.len() && i != j implies (#[trigger] f[i]).id != (#[trigger] f[j]).id && !(f[i].location_id == f[j].location_id && f[i].uri == f[j].uri) by {
                if i < sub.len() && j < sub.len() {
                    assert(f[i] == sub[i] && f[j] == sub[j]);
                } else if i < sub.len() {
                    assert(f[i] == sub[i]);
                } else {
                    assert(f[j] == sub[j]);
                }
            }
        }
    }
}

impl GioFilesystem {
    proof fn lemma_refs_index(&self)
        ensures
            self.refs().len() == self.references@.len(),
            forall|j: int| 0 <= j < self.references@.len() ==> #[trigger] self.refs()[j] == self.references@[j]@,
    {
    }

    /// Registers an entry of `location_id`, or returns the entry already registered for
    /// its URI. Fails only if the fresh random identifier collides with one in use.
    pub fn register_reference(&mut self, location_id: &str, new_reference: NewGioReference) -> (r: Result<GioReference, ExplorerError>)
        requires
            old(self).wf(),
        ensures
            final(self).wf(),
            final(self).location_ids() == old(self).location_ids(),
            final(self).location_root_ids() == old(self).location_root_ids(),
            final(self).summaries() == old(self).summaries(),
            final(self).revoked_locations() == old(self).revoked_locations(),
            final(self).revoked_references() == old(self).revoked_references(),
            final(self).root_keys() == old(self).root_keys(),
            match ref_with_uri(old(self).refs(), location_id@, new_reference.uri@) {
                Some(v) => r is Ok && r->Ok_0@ == v && final(self).refs() == old(self).refs(),
                None => match r {
                    Ok(x) => {
                        &&& final(self).refs() == old(self).refs().push(x@)
                        &&& x@ == (GioReferenceView {
                            id: x.id@,
                            location_id: location_id@,
                            uri: new_reference.uri@,
                            name: new_reference.name@,
                            display_path: new_reference.display_path@,
                            parent_id: opt_view(new_reference.parent_id),
                            kind: new_reference.metadata.kind,
                            size: new_reference.metadata.size,
                            modified_at: new_reference.metadata.modified_at,
                        })
                        &&& is_uuid_text(x.id@)
                        &&& ref_with_id(old(self).refs(), x.id@) is None
                    },
                    Err(e) => e == ExplorerError::StateUnavailable && final(self).refs() == old(self).refs(),
                },
            },
    {
        proof {
            self.lemma_refs_index();
        }
        if let Some(i) = self.find_uri(location_id, new_reference.uri.as_str()) {
            return Ok(self.references[i].duplicate());
        }
        let id = random_id();
        self.register_reference_with(location_id, new_reference, id)
    }

    /// Registers an entry of `location_id` under the freshly drawn identifier `fresh`, or
    /// returns the entry already registered for its URI. A fresh identifier already in use
    /// is refused, since identifiers must stay unique.
    pub fn register_reference_with(&mut self, location_id: &str, new_reference: NewGioReference, fresh: String) -> (r: Result<
        GioReference,
        ExplorerError,
    >)
        requires
            old(self).wf(),
        ensures
            final(self).wf(),
            final(self).location_ids() == old(self).location_ids(),
            final(self).location_root_ids() == old(self).location_root_ids(),
            final(self).revoked_locations() == old(self).revoked_locations(),
            final(self).revoked_references() == old(self).revoked_references(),
            final(self).root_keys() == old(self).root_keys(),
            final(self).summaries() == old(self).summaries(),
            match ref_with_uri(old(self).refs(), location_id@, new_reference.uri@) {
                Some(v) => r is Ok && r->Ok_0@ == v && final(self).refs() == old(self).refs(),
                None => if ref_with_id(old(self).refs(), fresh@) is Some {
                    r == Err::<GioReference, ExplorerError>(ExplorerError::StateUnavailable) && final(self).refs() == old(self).refs()
                } else {
                    r is Ok && final(self).refs() == old(self).refs().push(r->Ok_0@) && r->Ok_0@ == (GioReferenceView {
                        id: fresh@,
                        location_id: location_id@,
                        uri: new_reference.uri@,
                        name: new_reference.name@,
                        display_path: new_reference.display_path@,
                        parent_id: opt_view(new_reference.parent_id),
                        kind: new_reference.metadata.kind,
                        size: new_reference.metadata.size,
                        modified_at: new_reference.metadata.modified_at,
                    })
                },
            },
    {
        proof {
            self.lemma_refs_index();
        }
        if let Some(i) = self.find_uri(location_id, new_reference.uri.as_str()) {
            return Ok(self.references[i].duplicate());
        }
        if self.find_reference(fresh.as_str()).is_some() {
            return Err(ExplorerError::StateUnavailable);
        }
        let reference = GioReference {
            id: fresh,
            location_id: location_id.to_owned(),
            uri: new_reference.uri,
            name: new_reference.name,
            display_path: new_reference.display_path,
            parent_id: new_reference.parent_id,
            kind: new_reference.metadata.kind,
            size: new_reference.metadata.size,
            modified_at: new_reference.metadata.modified_at,
        };
        let result = reference.duplicate();
        let ghost before = self.refs();
        self.references.push(reference);
        proof {
            self.lemma_refs_index();
            assert(self.refs() =~= before.push(result@));
            assert forall|a: int, b: int| 0 <= a < self.refs().len() && 0 <= b < self.refs().len() && a != b implies (#[trigger] self.refs()[a]).id != (#[trigger] self.refs()[b]).id by {
                if a == before.len() {
                    assert(before[b].id != result@.id);
                } else if b == before.len() {
                    assert(before[a].id != result@.id);
                }
            }
            assert forall|a: int, b: int| 0 <= a < self.refs().len() && 0 <= b < self.refs().len() && a != b implies !((#[trigger] self.refs()[a]).location_id == (#[trigger] self.refs()[b]).location_id && self.refs()[a].uri == self.refs()[b].uri) by {
                if a == before.len() {
                    assert(!(before[b].location_id == location_id@ && before[b].uri == result@.uri));
                } else if b == before.len() {
                    assert(!(before[a].location_id == location_id@ && before[a].uri == result@.uri));
                }
            }
        }
        Ok(result)
    }

    /// Registers a child of `parent_id` inside the mounted location `location_id`. Its
    /// display path is the parent's display path without trailing slashes, a slash and
    /// the child's name.
    pub fn register_child(
        &mut self,
        location_id: &str,
        parent_id: &str,
        uri: String,
        name: String,
        metadata: GioEntryMetadata,
    ) -> (r: Result<GioReference, ExplorerError>)
        requires
            old(self).wf(),
        ensures
            final(self).wf(),
            final(self).location_ids() == old(self).location_ids(),
            final(self).revoked_locations() == old(self).revoked_locations(),
            final(self).revoked_references() == old(self).revoked_references(),
            !old(self).resolvable(location_id@, parent_id@) ==> r is Err && final(self).refs() == old(self).refs()
                && old(self).lookup_error(location_id@, parent_id@, r->Err_0),
            old(self).resolvable(location_id@, parent_id@) ==> match ref_with_uri(old(self).refs(), location_id@, uri@) {
                Some(v) => r is Ok && r->Ok_0@ == v && final(self).refs() == old(self).refs(),
                None => match r {
                    Ok(x) => {
                        &&& final(self).refs() == old(self).refs().push(x@)
                        &&& x@.location_id == location_id@
                        &&& x@.uri == uri@
                        &&& x@.name == name@
                        &&& x@.display_path == child_display_path(ref_with_id(old(self).refs(), parent_id@)->0.display_path, name@)
                        &&& x@.parent_id == Some(parent_id@)
                        &&& x@.kind == metadata.kind && x@.size == metadata.size && x@.modified_at == metadata.modified_at
                        &&& is_uuid_text(x.id@)
                    },
                    Err(e) => e == ExplorerError::StateUnavailable && final(self).refs() == old(self).refs(),
                },
            },
    {
        if !self.location_is_active(location_id) {
            return Err(self.missing_location_error(location_id));
        }
        let parent = match self.find_reference(parent_id) {
            Some(i) => {
                if !str_eq(self.references[i].location_id.as_str(), location_id) {
                    return Err(ExplorerError::InvalidReference);
                }
                self.references[i].duplicate()
            },
            None => {
                return Err(self.missing_reference_error(location_id, parent_id));
            },
        };
        let mut display_path = trim_trailing_slashes(parent.display_path.as_str());
        display_path.push('/');
        let display_path = display_path.concat(name.as_str());
        self.register_reference(
            location_id,
            NewGioReference {
                uri,
                name,
                display_path,
                parent_id: Some(parent_id.to_owned()),
                metadata,
            },
        )
    }

    /// Removes a location: its root key and every reference registered under it. The
    /// removed references and the location are remembered, so later lookups report them
    /// as stale or unavailable rather than unknown.
    pub fn remove_location(&mut self, location_id: &str)
        requires
            old(self).wf(),
        ensures
            final(self).wf(),
            final(self).refs() == old(self).refs().filter(ref_not_at(location_id@)),
            final(self).revoked_references().to_set() == old(self).revoked_references().to_set().union(
                revocation_keys(old(self).refs(), location_id@).to_set(),
            ),
            final(self).revoked_locations().to_set() == old(self).revoked_locations().to_set().insert(location_id@),
            final(self).root_keys() == old(self).root_keys().filter(key_not_at(location_id@)),
            final(self).location_ids() == old(self).location_ids(),
            final(self).location_root_ids() == old(self).location_root_ids(),
            final(self).summaries() == old(self).summaries(),
    {
        // Root keys.
        proof {
            reveal(Seq::filter);
        }
        let ghost old_keys = self.root_keys();
        let ghost kpred = |rk: (Seq<char>, Seq<char>, Seq<char>)| rk.0 != location_id@;
        let mut keys: Vec<RootKey> = Vec::new();
        let mut i: usize = 0;
        while i < self.root_keys.len()
            invariant
                i <= self.root_keys.len(),
                old_keys == self.root_keys(),
                old_keys.len() == self.root_keys@.len(),
                self.references@ == old(self).references@,
                self.revoked_locations@ == old(self).revoked_locations@,
                self.revoked_references@ == old(self).revoked_references@,
                self.locations@ == old(self).locations@,
                kpred == (|rk: (Seq<char>, Seq<char>, Seq<char>)| rk.0 != location_id@),
                keys@.map_values(|k: RootKey| (k.location_id@, k.uri@, k.name@)) == old_keys.take(i as int).filter(kpred),
            decreases self.root_keys.len() - i,
        {
            let ghost kb = keys@.map_values(|k: RootKey| (k.location_id@, k.uri@, k.name@));
            let ghost this = old_keys[i as int];
            proof {
                reveal(Seq::filter);
            }
            assert(old_keys.take(i + 1).drop_last() =~= old_keys.take(i as int));
            assert(old_keys.take(i + 1).last() == this);
            if !str_eq(self.root_keys[i].location_id.as_str(), location_id) {
                let k = RootKey {
                    location_id: self.root_keys[i].location_id.clone(),
                    uri: self.root_keys[i].uri.clone(),
                    name: self.root_keys[i].name.clone(),
                };
                keys.push(k);
                assert(keys@.map_values(|k: RootKey| (k.location_id@, k.uri@, k.name@)) =~= kb.push(this));
            }
            i = i + 1;
        }
        assert(old_keys.take(old_keys.len() as int) =~= old_keys);
        assert(kpred =~= key_not_at(location_id@));
        self.root_keys = keys;
        let ghost keys_after = self.root_keys;

        // References.
        proof {
            self.lemma_refs_index();
        }
        let ghost old_refs = self.refs();
        let ghost old_revoked = self.revoked_references();
        let ghost pred = |v: GioReferenceView| v.location_id != location_id@;
        let mut kept: Vec<GioReference> = Vec::new();
        let mut i: usize = 0;
        while i < self.references.len()
            invariant
                i <= self.references.len(),
                old_refs == self.refs(),
                old_refs.len() == self.references@.len(),
                self.references@ == old(self).references@,
                self.revoked_locations@ == old(self).revoked_locations@,
                self.locations@ == old(self).locations@,
                self.root_keys@ == keys_after@,
                forall|j: int| 0 <= j < self.references@.len() ==> #[trigger] old_refs[j] == self.references@[j]@,
                pred == (|v: GioReferenceView| v.location_id != location_id@),
                ref_views(kept@) == old_refs.take(i as int).filter(pred),
                views(self.revoked_references@).to_set() == old_revoked.to_set().union(revocation_keys(old_refs.take(i as int), location_id@).to_set()),
            decreases self.references.len() - i,
        {
            let ghost kb = ref_views(kept@);
            let ghost rb = views(self.revoked_references@);
            let ghost this = old_refs[i as int];
            proof {
                reveal(Seq::filter);
            }
            assert(old_refs.take(i + 1).drop_last() =~= old_refs.take(i as int));
            assert(old_refs.take(i + 1).last() == this);
            if str_eq(self.references[i].location_id.as_str(), location_id) {
                let key = reference_revocation_key(location_id, self.references[i].id.as_str());
                let ghost kv = key@;
                let ghost prev = revocation_keys(old_refs.take(i as int), location_id@);
                assert(revocation_keys(old_refs.take(i + 1), location_id@) == prev.push(kv));
                record_key(&mut self.revoked_references, key);
                assert(views(self.revoked_references@).to_set() =~= old_revoked.to_set().union(prev.push(kv).to_set()));
            } else {
                assert(revocation_keys(old_refs.take(i + 1), location_id@) == revocation_keys(old_refs.take(i as int), location_id@));
                let d = self.references[i].duplicate();
                kept.push(d);
                assert(ref_views(kept@) =~= kb.push(this));
            }
            i = i + 1;
        }
        assert(old_refs.take(old_refs.len() as int) =~= old_refs);
        proof {
            lemma_filter_keeps_wf(old_refs, pred);
            lemma_filter_keeps_keys_wf(old_keys, kpred);
            assert(pred =~= ref_not_at(location_id@));
        }
        self.references = kept;
        record_key(&mut self.revoked_locations, location_id.to_owned());
    }
}

/// The ancestors of `id` followed by `id` itself, root first, following at most `fuel`
/// parent links.
pub open spec fn ancestry(refs: Seq<GioReferenceView>, id: Seq<char>, fuel: nat) -> Seq<GioReferenceView>
    decreases fuel,
{
    if fuel == 0 {
        Seq::empty()
    } else {
        match ref_with_id(refs, id) {
            None => Seq::empty(),
            Some(v) => match v.parent_id {
                None => seq![v],
                Some(p) => ancestry(refs, p, (fuel - 1) as nat).push(v),
            },
        }
    }
}

pub type DirectoryView = (Seq<char>, Seq<char>, Seq<char>, Seq<char>);

/// The directory reference of an entry: id, location, name and display path.
pub open spec fn directory_of(v: GioReferenceView) -> DirectoryView {
    (v.id, v.location_id, v.name, v.display_path)
}

pub open spec fn dto_directory(d: DirectoryRefDto) -> DirectoryView {
    (d.id@, d.location_id@, d.name@, d.display_path@)
}

/// A breadcrumb segment: its label and its directory.
pub open spec fn crumb_view(b: BreadcrumbSegmentDto) -> (Seq<char>, DirectoryView) {
    (b.label@, dto_directory(b.directory))
}

pub open spec fn crumbs_of(chain: Seq<GioReferenceView>) -> Seq<(Seq<char>, DirectoryView)> {
    chain.map_values(|v: GioReferenceView| (v.name, directory_of(v)))
}

impl GioFilesystem {
    fn breadcrumb_chain(&self, id: &str, fuel: usize) -> (r: Vec<BreadcrumbSegmentDto>)
        requires
            self.wf(),
        ensures
            r@.map_values(|b: BreadcrumbSegmentDto| crumb_view(b)) == crumbs_of(ancestry(self.refs(), id@, fuel as nat)),
        decreases fuel,
    {
        if fuel == 0 {
            let r: Vec<BreadcrumbSegmentDto> = Vec::new();
            assert(r@.map_values(|b: BreadcrumbSegmentDto| crumb_view(b)) =~= crumbs_of(Seq::empty()));
            return r;
        }
        match self.find_reference(id) {
            None => {
                let r: Vec<BreadcrumbSegmentDto> = Vec::new();
                assert(r@.map_values(|b: BreadcrumbSegmentDto| crumb_view(b)) =~= crumbs_of(Seq::empty()));
                r
            },
            Some(i) => {
                proof {
                    self.lemma_refs_index();
                }
                let segment = BreadcrumbSegmentDto {
                    label: self.references[i].name.clone(),
                    directory: self.references[i].directory(),
                };
                let ghost v = self.refs()[i as int];
                match &self.references[i].parent_id {
                    None => {
                        let mut r: Vec<BreadcrumbSegmentDto> = Vec::new();
                        r.push(segment);
                        assert(r@.map_values(|b: BreadcrumbSegmentDto| crumb_view(b)) =~= crumbs_of(seq![v]));
                        r
                    },
                    Some(p) => {
                        let mut r = self.breadcrumb_chain(p.as_str(), fuel - 1);
                        let ghost prev = r@;
                        r.push(segment);
                        assert(r@.map_values(|b: BreadcrumbSegmentDto| crumb_view(b)) =~= prev.map_values(|b: BreadcrumbSegmentDto| crumb_view(b)).push(crumb_view(segment)));
                        assert(crumbs_of(ancestry(self.refs(), p@, (fuel - 1) as nat).push(v)) =~= crumbs_of(ancestry(self.refs(), p@, (fuel - 1) as nat)).push((v.name, directory_of(v))));
                        r
                    },
                }
            },
        }
    }

    /// Starts listing directory `directory_id` of the mounted location `location_id`: both
    /// must resolve. Returns the start event (the directory, its parent and its
    /// breadcrumbs, as `navigation_context` gives them), the directory's URI, to be
    /// enumerated, and the location root's URI, which the directory must lie within.
    pub fn listing_start(&self, location_id: &str, directory_id: &str) -> (r: Result<
        (crate::filesystem::DirectoryListingEvent, String, String),
        ExplorerError,
    >)
        requires
            self.wf(),
            self.refs().len() < usize::MAX,
        ensures
            !self.resolvable(location_id@, directory_id@) ==> r is Err && self.lookup_error(location_id@, directory_id@, r->Err_0),
            r is Ok ==> ({
                let v = ref_with_id(self.refs(), directory_id@)->0;
                &&& self.resolvable(location_id@, directory_id@)
                &&& r->Ok_0.1@ == v.uri
                &&& exists|i: int| 0 <= i < self.location_ids().len() && self.location_ids()[i] == location_id@
                    && ref_with_id(self.refs(), self.location_root_ids()[i])->0.uri == r->Ok_0.2@
                &&& r->Ok_0.0 matches crate::filesystem::DirectoryListingEvent::Started { directory, parent, breadcrumbs }
                    && dto_directory(directory) == directory_of(v)
                    && breadcrumbs@.map_values(|b: BreadcrumbSegmentDto| crumb_view(b)) == crumbs_of(
                    ancestry(self.refs(), directory_id@, (self.refs().len() + 1) as nat))
                    && match v.parent_id {
                    Some(p) => match ref_with_id(self.refs(), p) {
                        Some(pv) => parent is Some && dto_directory(parent->0) == directory_of(pv),
                        None => parent is None,
                    },
                    None => parent is None,
                }
            }),
    {
        let reference = match self.resolve_reference(location_id, directory_id) {
            Ok(r) => r,
            Err(e) => {
                return Err(e);
            },
        };
        let root = match self.root_reference(location_id) {
            Ok(r) => r,
            Err(e) => {
                return Err(e);
            },
        };
        let (directory, parent, breadcrumbs) = match self.navigation_context(location_id, directory_id) {
            Ok(c) => c,
            Err(e) => {
                return Err(e);
            },
        };
        Ok((crate::filesystem::DirectoryListingEvent::Started { directory, parent, breadcrumbs }, reference.uri, root.uri))
    }

    /// The directory `directory_id` of `location_id`, its parent and its breadcrumbs from
    /// the location root down to it.
    pub fn navigation_context(&self, location_id: &str, directory_id: &str) -> (r: Result<
        (DirectoryRefDto, Option<DirectoryRefDto>, Vec<BreadcrumbSegmentDto>),
        ExplorerError,
    >)
        requires
            self.wf(),
            self.refs().len() < usize::MAX,
        ensures
            r is Ok <==> self.resolvable(location_id@, directory_id@),
            !self.location_ids().contains(location_id@) ==> r is Err && if self.revoked_locations().contains(location_id@) {
                is_unavailable(r->Err_0)
            } else {
                r->Err_0 == ExplorerError::InvalidReference
            },
            self.location_ids().contains(location_id@) && r is Err ==> r->Err_0 == (if self.revoked_references().contains(revocation_key(location_id@, directory_id@)) {
                ExplorerError::StaleReference
            } else {
                ExplorerError::InvalidReference
            }),
            r is Ok ==> ({
                let v = ref_with_id(self.refs(), directory_id@)->0;
                &&& dto_directory(r->Ok_0.0) == directory_of(v)
                &&& match v.parent_id {
                    Some(p) => match ref_with_id(self.refs(), p) {
                        Some(pv) => r->Ok_0.1 is Some && dto_directory(r->Ok_0.1->0) == directory_of(pv),
                        None => r->Ok_0.1 is None,
                    },
                    None => r->Ok_0.1 is None,
                }
                &&& r->Ok_0.2@.map_values(|b: BreadcrumbSegmentDto| crumb_view(b)) == crumbs_of(ancestry(self.refs(), directory_id@, (self.refs().len() + 1) as nat))
            }),
    {
        if !self.location_is_active(location_id) {
            return Err(self.missing_location_error(location_id));
        }
        proof {
            self.lemma_refs_index();
        }
        let i = match self.find_reference(directory_id) {
            Some(i) => {
                if !str_eq(self.references[i].location_id.as_str(), location_id) {
                    return Err(self.missing_reference_error(location_id, directory_id));
                }
                i
            },
            None => {
                return Err(self.missing_reference_error(location_id, directory_id));
            },
        };
        let current = self.references[i].directory();
        let parent = match &self.references[i].parent_id {
            Some(p) => match self.find_reference(p.as_str()) {
                Some(k) => Some(self.references[k].directory()),
                None => None,
            },
            None => None,
        };
        let chain = self.breadcrumb_chain(directory_id, self.references.len() + 1);
        Ok((current, parent, chain))
    }
}

/// The references of `location` in `refs`, in order.
pub open spec fn refs_of(refs: Seq<GioReferenceView>, location: Seq<char>) -> Seq<GioReferenceView> {
    refs.filter(|v: GioReferenceView| v.location_id == location)
}

pub proof fn lemma_refs_of_contains(refs: Seq<GioReferenceView>, location: Seq<char>, v: GioReferenceView)
    ensures
        refs_of(refs, location).contains(v) <==> refs.contains(v) && v.location_id == location,
{
    if refs_of(refs, location).contains(v) {
        lemma_filter_subset(refs, |v: GioReferenceView| v.location_id == location, v);
    }
    if refs.contains(v) && v.location_id == location {
        let i = choose|i: int| 0 <= i < refs.len() && refs[i] == v;
        refs.lemma_filter_contains(|v: GioReferenceView| v.location_id == location, i);
    }
}

pub proof fn lemma_refs_of_removed(refs: Seq<GioReferenceView>, removed: Seq<char>, location: Seq<char>)
    ensures
        refs_of(refs.filter(ref_not_at(removed)), location) == if removed == location {
            Seq::<GioReferenceView>::empty()
        } else {
            refs_of(refs, location)
        },
    decreases refs.len(),
{
    reveal(Seq::filter);
    if refs.len() > 0 {
        lemma_refs_of_removed(refs.drop_last(), removed, location);
        let f = refs.filter(ref_not_at(removed));
        if refs.last().location_id != removed {
            assert(f.drop_last() == refs.drop_last().filter(ref_not_at(removed)));
            assert(f.last() == refs.last());
        } else {
            assert(f == refs.drop_last().filter(ref_not_at(removed)));
        }
    }
}

pub proof fn lemma_refs_of_push(refs: Seq<GioReferenceView>, v: GioReferenceView, location: Seq<char>)
    ensures
        refs_of(refs.push(v), location) == if v.location_id == location {
            refs_of(refs, location).push(v)
        } else {
            refs_of(refs, location)
        },
{
    reveal(Seq::filter);
    assert(refs.push(v).drop_last() == refs);
}

pub proof fn lemma_revocation_keys_contains(refs: Seq<GioReferenceView>, location: Seq<char>, v: GioReferenceView)
    requires
        refs.contains(v),
        v.location_id == location,
    ensures
        revocation_keys(refs, location).contains(revocation_key(location, v.id)),
    decreases refs.len(),
{
    if refs.last() == v {
        let k = revocation_keys(refs.drop_last(), location);
        assert(revocation_keys(refs, location) == k.push(revocation_key(location, v.id)));
        assert(k.push(revocation_key(location, v.id))[k.len() as int] == revocation_key(location, v.id));
    } else {
        let i = choose|i: int| 0 <= i < refs.len() && refs[i] == v;
        assert(refs.drop_last()[i] == v);
        lemma_revocation_keys_contains(refs.drop_last(), location, v);
        let k = revocation_keys(refs.drop_last(), location);
        let j = choose|j: int| 0 <= j < k.len() && k[j] == revocation_key(location, v.id);
        if refs.last().location_id == location {
            assert(k.push(revocation_key(location, refs.last().id))[j] == revocation_key(location, v.id));
        }
    }
}

/// A mount after normalization: its stable location id, URI, shown name and provider.
pub struct NormalizedGioRoot {
    pub location_id: String,
    pub uri: String,
    pub name: String,
    pub provider: SyncedFolderProvider,
}

pub open spec fn root_key_of(r: NormalizedGioRoot) -> (Seq<char>, Seq<char>, Seq<char>) {
    (r.location_id@, r.uri@, r.name@)
}

pub open spec fn root_ids(roots: Seq<NormalizedGioRoot>) -> Seq<Seq<char>> {
    roots.map_values(|r: NormalizedGioRoot| r.location_id@)
}

pub open spec fn distinct_ids(ids: Seq<Seq<char>>) -> bool {
    forall|i: int, j: int| 0 <= i < ids.len() && 0 <= j < ids.len() && i != j ==> ids[i] != ids[j]
}

impl GioFilesystem {
    /// Whether a root is kept as it was: the same location id with the same URI and name
    /// is mounted already.
    pub open spec fn retains(&self, root: NormalizedGioRoot) -> bool {
        self.root_keys().contains(root_key_of(root)) && self.location_ids().contains(root.location_id@)
    }

    fn has_root_key(&self, root: &NormalizedGioRoot) -> (r: bool)
        ensures
            r == self.root_keys().contains(root_key_of(*root)),
    {
        let mut i: usize = 0;
        while i < self.root_keys.len()
            invariant
                i <= self.root_keys.len(),
                self.root_keys().len() == self.root_keys@.len(),
                forall|j: int| 0 <= j < self.root_keys@.len() ==> #[trigger] self.root_keys()[j] == (self.root_keys@[j].location_id@, self.root_keys@[j].uri@, self.root_keys@[j].name@),
                forall|j: int| 0 <= j < i ==> self.root_keys()[j] != root_key_of(*root),
            decreases self.root_keys.len() - i,
        {
            let k = &self.root_keys[i];
            if str_eq(k.location_id.as_str(), root.location_id.as_str()) && str_eq(k.uri.as_str(), root.uri.as_str()) && str_eq(k.name.as_str(), root.name.as_str()) {
                assert(self.root_keys()[i as int] == root_key_of(*root));
                return true;
            }
            i = i + 1;
        }
        false
    }

    /// Replaces the mounted roots with `roots`. A root whose location id, URI and name are
    /// unchanged keeps its location and every reference under it; any other root gets a
    /// fresh root reference; locations that are no longer mounted are removed.
    #[verifier::spinoff_prover]
    #[verifier::rlimit(60)]
    pub fn apply_roots(&mut self, roots: Vec<NormalizedGioRoot>) -> (r: Result<(), ExplorerError>)
        requires
            old(self).wf(),
            distinct_ids(root_ids(roots@)),
        ensures
            final(self).wf(),
            r is Err ==> r == Err::<(), ExplorerError>(ExplorerError::StateUnavailable),
            r is Ok ==> final(self).location_ids() == root_ids(roots@),
            r is Ok ==> forall|k: int| 0 <= k < roots@.len() ==> {
                let root = #[trigger] roots@[k];
                let location = root.location_id@;
                &&& !final(self).revoked_locations().contains(location)
                &&& final(self).root_keys().contains(root_key_of(root))
                &&& if old(self).retains(root) {
                    &&& refs_of(final(self).refs(), location) == refs_of(old(self).refs(), location)
                    &&& exists|i: int| 0 <= i < old(self).location_ids().len() && old(self).location_ids()[i] == location
                        && final(self).location_root_ids()[k] == old(self).location_root_ids()[i]
                } else {
                    &&& refs_of(final(self).refs(), location).len() == 1
                    &&& ({
                        let v = refs_of(final(self).refs(), location)[0];
                        &&& v.uri == root.uri@
                        &&& v.name == root.name@
                        &&& v.display_path == root.name@
                        &&& v.parent_id is None
                        &&& v.kind == GioEntryKind::Directory
                        &&& final(self).location_root_ids()[k] == v.id
                    })
                }
            },
            r is Ok ==> forall|location: Seq<char>| !root_ids(roots@).contains(location) ==> if exists|rk: (Seq<char>, Seq<char>, Seq<char>)| old(self).root_keys().contains(rk) && rk.0 == location {
                &&& refs_of(final(self).refs(), location).len() == 0
                &&& final(self).revoked_locations().contains(location)
                &&& forall|v: GioReferenceView| old(self).refs().contains(v) && v.location_id == location ==> final(self).revoked_references().contains(revocation_key(location, v.id))
            } else {
                refs_of(final(self).refs(), location) == refs_of(old(self).refs(), location)
            },
            r is Ok ==> old(self).revoked_references().to_set().subset_of(final(self).revoked_references().to_set()),
            r is Err ==> exists|k: int| 0 <= k < roots@.len() && !old(self).retains(#[trigger] roots@[k]),
            r is Ok ==> forall|location: Seq<char>| !root_ids(roots@).contains(location) && #[trigger] old(self).revoked_locations().contains(location)
                ==> final(self).revoked_locations().contains(location),
            r is Ok ==> forall|k: int| 0 <= k < roots@.len() ==> summary_for(#[trigger] roots@[k], old(self).root_keys(),
                old(self).location_ids(), old(self).summaries(), final(self).summaries()[k]),
    {
        let ghost old_self_refs = self.refs();
        let ghost old_keys = self.root_keys();
        let ghost old_ids = self.location_ids();
        let ghost old_root_ids = self.location_root_ids();
        let ghost old_revoked_refs = self.revoked_references();
        let ghost old_summaries = self.summaries();
        let ghost old_revl = self.revoked_locations();
        let ghost ids = root_ids(roots@);
        // The locations that are no longer mounted.
        let mut gone: Vec<String> = Vec::new();
        let mut i: usize = 0;
        while i < self.root_keys.len()
            invariant
                i <= self.root_keys.len(),
                ids == root_ids(roots@),
                old_keys == self.root_keys(),
                old_keys.len() == self.root_keys@.len(),
                forall|j: int| 0 <= j < self.root_keys@.len() ==> #[trigger] old_keys[j] == (self.root_keys@[j].location_id@, self.root_keys@[j].uri@, self.root_keys@[j].name@),
                forall|g: Seq<char>| views(gone@).contains(g) ==> !ids.contains(g) && exists|j: int| 0 <= j < old_keys.len() && old_keys[j].0 == g,
                forall|j: int| 0 <= j < i && !ids.contains(#[trigger] old_keys[j].0) ==> views(gone@).contains(old_keys[j].0),
            decreases self.root_keys.len() - i,
        {
            let ghost gb = views(gone@);
            let mut found = false;
            let mut k: usize = 0;
            while k < roots.len()
                invariant
                    k <= roots.len(),
                    ids == root_ids(roots@),
                    found <==> exists|m: int| 0 <= m < k && ids[m] == self.root_keys@[i as int].location_id@,
                    i < self.root_keys.len(),
                decreases roots.len() - k,
            {
                assert(ids[k as int] == roots@[k as int].location_id@);
                if str_eq(roots[k].location_id.as_str(), self.root_keys[i].location_id.as_str()) {
                    found = true;
                }
                k = k + 1;
            }
            if !found {
                gone.push(self.root_keys[i].location_id.clone());
                assert(views(gone@) =~= gb.push(old_keys[i as int].0));
            }
            i = i + 1;
        }
        // Remove them.
        let mut g: usize = 0;
        while g < gone.len()
            invariant
                g <= gone.len(),
                self.wf(),
                ids == root_ids(roots@),
                forall|x: Seq<char>| views(gone@).contains(x) ==> !ids.contains(x) && exists|j: int| 0 <= j < old_keys.len() && old_keys[j].0 == x,
                forall|j: int| 0 <= j < old_keys.len() && !ids.contains(#[trigger] old_keys[j].0) ==> views(gone@).contains(old_keys[j].0),
                self.location_ids() == old_ids,
                self.location_root_ids() == old_root_ids,
                self.summaries() == old_summaries,
                forall|location: Seq<char>| !ids.contains(location) && old_revl.contains(location) ==> #[trigger] self.revoked_locations().contains(location),
                forall|rk: (Seq<char>, Seq<char>, Seq<char>)| ids.contains(rk.0) ==> (self.root_keys().contains(rk) <==> old_keys.contains(rk)),
                forall|location: Seq<char>| ids.contains(location) ==> refs_of(self.refs(), location) == refs_of(old_self_refs, location),
                forall|location: Seq<char>| !ids.contains(location) && !views(gone@).subrange(0, g as int).contains(location) ==> refs_of(self.refs(), location) == refs_of(old_self_refs, location),
                forall|location: Seq<char>| views(gone@).subrange(0, g as int).contains(location) ==> {
                    &&& refs_of(self.refs(), location).len() == 0
                    &&& self.revoked_locations().contains(location)
                    &&& forall|v: GioReferenceView| old_self_refs.contains(v) && v.location_id == location ==> self.revoked_references().contains(revocation_key(location, v.id))
                },
                old_revoked_refs.to_set().subset_of(self.revoked_references().to_set()),
            decreases gone.len() - g,
        {
            let ghost before = self.refs();
            let ghost rev_before = self.revoked_references();
            let ghost revl_before = self.revoked_locations();
            let ghost keys_before = self.root_keys();
            let ghost here = views(gone@)[g as int];
            self.remove_location(gone[g].as_str());
            proof {
                assert forall|l: Seq<char>| !ids.contains(l) && old_revl.contains(l) implies #[trigger] self.revoked_locations().contains(l) by {
                    assert(revl_before.contains(l));
                    assert(revl_before.to_set().contains(l));
                    assert(self.revoked_locations().to_set().contains(l));
                }
                let sub = views(gone@).subrange(0, g + 1);
                assert(sub =~= views(gone@).subrange(0, g as int).push(here));
                assert(!ids.contains(here));
                assert forall|location: Seq<char>| location != here implies refs_of(self.refs(), location) == refs_of(before, location) by {
                    lemma_refs_of_removed(before, here, location);
                }
                lemma_refs_of_removed(before, here, here);
                assert forall|rk: (Seq<char>, Seq<char>, Seq<char>)| ids.contains(rk.0) implies (self.root_keys().contains(rk) <==> old_keys.contains(rk)) by {
                    if self.root_keys().contains(rk) {
                        lemma_filter_subset(keys_before, key_not_at(here), rk);
                    }
                    if keys_before.contains(rk) {
                        let j = choose|j: int| 0 <= j < keys_before.len() && keys_before[j] == rk;
                        keys_before.lemma_filter_contains(key_not_at(here), j);
                    }
                }
                assert forall|location: Seq<char>| sub.contains(location) implies {
                    &&& refs_of(self.refs(), location).len() == 0
                    &&& self.revoked_locations().contains(location)
                    &&& forall|v: GioReferenceView| old_self_refs.contains(v) && v.location_id == location ==> self.revoked_references().contains(revocation_key(location, v.id))
                } by {
                    assert(self.revoked_locations().to_set().contains(here));
                    if location == here && views(gone@).subrange(0, g as int).contains(here) {
                        assert(revl_before.contains(location));
                        assert(self.revoked_locations().to_set().contains(location));
                        assert forall|v: GioReferenceView| old_self_refs.contains(v) && v.location_id == location implies self.revoked_references().contains(revocation_key(location, v.id)) by {
                            assert(rev_before.contains(revocation_key(location, v.id)));
                            assert(self.revoked_references().to_set().contains(revocation_key(location, v.id)));
                        }
                    } else if location == here {
                        assert forall|v: GioReferenceView| old_self_refs.contains(v) && v.location_id == location implies self.revoked_references().contains(revocation_key(location, v.id)) by {
                            lemma_refs_of_contains(old_self_refs, location, v);
                            lemma_refs_of_contains(before, location, v);
                            lemma_revocation_keys_contains(before, location, v);
                            assert(self.revoked_references().to_set().contains(revocation_key(location, v.id)));
                        }
                    } else {
                        assert(views(gone@).subrange(0, g as int).contains(location));
                        assert(revl_before.contains(location));
                        assert(self.revoked_locations().to_set().contains(location));
                        assert forall|v: GioReferenceView| old_self_refs.contains(v) && v.location_id == location implies self.revoked_references().contains(revocation_key(location, v.id)) by {
                            assert(rev_before.contains(revocation_key(location, v.id)));
                            assert(self.revoked_references().to_set().contains(revocation_key(location, v.id)));
                        }
                    }
                }
                assert forall|location: Seq<char>| !ids.contains(location) && !sub.contains(location) implies refs_of(self.refs(), location) == refs_of(old_self_refs, location) by {
                    assert(!views(gone@).subrange(0, g as int).contains(location));
                }
                assert forall|x: Seq<char>| rev_before.to_set().contains(x) implies self.revoked_references().to_set().contains(x) by {}
            }
            g = g + 1;
        }
        assert(views(gone@).subrange(0, g as int) =~= views(gone@));
        assert forall|location: Seq<char>| views(gone@).contains(location) implies refs_of(self.refs(), location).len() == 0 by {
            assert(views(gone@).subrange(0, g as int).contains(location));
            assert(self.revoked_locations().contains(location));
            assert(refs_of(self.refs(), location).len() == 0);
        }
        assert forall|location: Seq<char>| views(gone@).contains(location) implies self.revoked_locations().contains(location) by {
            assert(views(gone@).subrange(0, g as int).contains(location));
        }
        assert forall|location: Seq<char>, v: GioReferenceView| views(gone@).contains(location) && old_self_refs.contains(v) && v.location_id == location implies self.revoked_references().contains(revocation_key(location, v.id)) by {
            assert(views(gone@).subrange(0, g as int).contains(location));
        }
        let ghost mid_refs = self.refs();
        // Install the new roots.
        let mut locations: Vec<LocationSummaryDto> = Vec::new();
        let mut k: usize = 0;
        while k < roots.len()
            invariant
                k <= roots.len(),
                self.wf(),
                ids == root_ids(roots@),
                distinct_ids(ids),
                self.location_ids() == old_ids,
                self.location_root_ids() == old_root_ids,
                self.summaries() == old_summaries,
                forall|location: Seq<char>| !ids.contains(location) && old_revl.contains(location) ==> #[trigger] self.revoked_locations().contains(location),
                locations@.len() == k,
                forall|j: int| 0 <= j < k ==> (#[trigger] locations@[j]).id@ == ids[j],
                forall|j: int| 0 <= j < k ==> summary_for(roots@[j], old_keys, old_ids, old_summaries, #[trigger] location_view(locations@[j])),
                old_keys == old(self).root_keys(),
                old_ids == old(self).location_ids(),
                forall|rk: (Seq<char>, Seq<char>, Seq<char>)| ids.subrange(k as int, ids.len() as int).contains(rk.0) ==> (self.root_keys().contains(rk) <==> old_keys.contains(rk)),
                forall|location: Seq<char>| !ids.subrange(0, k as int).contains(location) ==> refs_of(self.refs(), location) == refs_of(mid_refs, location),
                forall|location: Seq<char>| ids.contains(location) ==> refs_of(mid_refs, location) == refs_of(old_self_refs, location),
                forall|location: Seq<char>| !ids.contains(location) && !views(gone@).contains(location) ==> refs_of(mid_refs, location) == refs_of(old_self_refs, location),
                forall|j: int| 0 <= j < roots@.len() ==> #[trigger] ids[j] == roots@[j].location_id@,
                forall|j: int| 0 <= j < k ==> {
                    let root = #[trigger] roots@[j];
                    let location = root.location_id@;
                    &&& !self.revoked_locations().contains(location)
                    &&& self.root_keys().contains(root_key_of(root))
                    &&& if old_keys.contains(root_key_of(root)) && old_ids.contains(location) {
                        &&& refs_of(self.refs(), location) == refs_of(old_self_refs, location)
                        &&& exists|i: int| 0 <= i < old_ids.len() && old_ids[i] == location && locations@[j].root.id@ == old_root_ids[i]
                    } else {
                        &&& refs_of(self.refs(), location).len() == 1
                        &&& ({
                            let v = refs_of(self.refs(), location)[0];
                            &&& v.uri == root.uri@
                            &&& v.name == root.name@
                            &&& v.display_path == root.name@
                            &&& v.parent_id is None
                            &&& v.kind == GioEntryKind::Directory
                            &&& locations@[j].root.id@ == v.id
                        })
                    }
                },
                forall|location: Seq<char>| !ids.contains(location) ==> (views(gone@).contains(location) ==> {
                    &&& refs_of(self.refs(), location).len() == 0
                    &&& self.revoked_locations().contains(location)
                    &&& forall|v: GioReferenceView| old_self_refs.contains(v) && v.location_id == location ==> self.revoked_references().contains(revocation_key(location, v.id))
                }),
                forall|location: Seq<char>| views(gone@).contains(location) ==> refs_of(mid_refs, location).len() == 0 && !ids.contains(location),
                forall|x: Seq<char>| views(gone@).contains(x) ==> !ids.contains(x) && exists|j: int| 0 <= j < old_keys.len() && old_keys[j].0 == x,
                forall|j: int| 0 <= j < old_keys.len() && !ids.contains(#[trigger] old_keys[j].0) ==> views(gone@).contains(old_keys[j].0),
                old_revoked_refs.to_set().subset_of(self.revoked_references().to_set()),
            decreases roots.len() - k,
        {
            let ghost location = ids[k as int];
            let ghost root = roots@[k as int];
            let ghost refs_before = self.refs();
            let ghost keys_before = self.root_keys();
            let ghost revl_before = self.revoked_locations();
            let ghost revr_before = self.revoked_references();
            let ghost locations_before = locations@;
            assert(ids.subrange(k as int, ids.len() as int).contains(location)) by {
                assert(ids.subrange(k as int, ids.len() as int)[0] == location);
            }
            assert(!ids.subrange(0, k as int).contains(location)) by {
                if ids.subrange(0, k as int).contains(location) {
                    let j = choose|j: int| 0 <= j < k && ids.subrange(0, k as int)[j] == location;
                    assert(ids[j] == ids[k as int]);
                }
            }
            let has_key = self.has_root_key(&roots[k]);
            let previous = self.location_index(roots[k].location_id.as_str());
            if has_key && previous.is_some() {
                let idx = previous.unwrap();
                forget_key(&mut self.revoked_locations, roots[k].location_id.as_str());
                locations.push(copy_location(&self.locations[idx]));
                proof {
                    assert(old_summaries[idx as int] == location_view(self.locations@[idx as int]));
                    assert(old_ids[idx as int] == self.locations@[idx as int].id@);
                    assert(location_view(locations@[k as int]) == old_summaries[idx as int]);
                    assert(summary_for(root, old_keys, old_ids, old_summaries, location_view(locations@[k as int])));
                }
                proof {
                    assert(old_keys.contains(root_key_of(root)));
                    assert(old_ids[idx as int] == location);
                    assert(old_root_ids[idx as int] == self.locations@[idx as int].root.id@);
                }
            } else {
                proof {
                    assert(!(old_keys.contains(root_key_of(root)) && old_ids.contains(location)));
                }
                self.remove_location(roots[k].location_id.as_str());
                let ghost refs_removed = self.refs();
                proof {
                    lemma_refs_of_removed(refs_before, location, location);
                    if ref_with_uri(refs_removed, location, root.uri@) is Some {
                        let i = choose|i: int| 0 <= i < refs_removed.len() && (#[trigger] refs_removed[i]).location_id == location && refs_removed[i].uri == root.uri@;
                        lemma_refs_of_contains(refs_removed, location, refs_removed[i]);
                    }
                }
                let reference = match self.register_reference(
                    roots[k].location_id.as_str(),
                    NewGioReference {
                        uri: roots[k].uri.clone(),
                        name: roots[k].name.clone(),
                        display_path: roots[k].name.clone(),
                        parent_id: None,
                        metadata: GioEntryMetadata { kind: GioEntryKind::Directory, size: None, modified_at: None },
                    },
                ) {
                    Ok(reference) => reference,
                    Err(e) => {
                        proof {
                            assert(!old(self).retains(roots@[k as int]));
                        }
                        return Err(e);
                    },
                };
                let ghost keys_mid = self.root_keys();
                self.root_keys.push(RootKey {
                    location_id: roots[k].location_id.clone(),
                    uri: roots[k].uri.clone(),
                    name: roots[k].name.clone(),
                });
                forget_key(&mut self.revoked_locations, roots[k].location_id.as_str());
                let mut detail = String::from_str(roots[k].provider.display_name());
                let detail = detail.concat(" · GIO");
                let summary = LocationSummaryDto {
                    id: roots[k].location_id.clone(),
                    name: roots[k].name.clone(),
                    backend: LocationBackend::Gio,
                    kind: String::from_str("syncedFolder"),
                    role: LocationRole::SyncedFolder,
                    status: String::from_str("available"),
                    display_path: roots[k].name.clone(),
                    detail,
                    root: reference.directory(),
                    synced_folder: Some(SyncedFolderMetadataDto {
                        provider: roots[k].provider,
                        status: SyncedFolderStatus::Available,
                        source: SyncedFolderSource::System,
                    }),
                };
                locations.push(summary);
                proof {
                    assert(location_view(locations@[k as int]) == gio_summary(root, location_view(locations@[k as int]).root.0));
                    lemma_refs_of_push(refs_removed, reference@, location);
                    assert(refs_of(refs_removed, location) =~= Seq::<GioReferenceView>::empty());
                    assert(refs_of(self.refs(), location) =~= seq![reference@]);
                    assert(self.root_keys() =~= keys_mid.push(root_key_of(root)));
                    assert(keys_mid == keys_before.filter(key_not_at(location)));
                    assert forall|i: int, j: int| 0 <= i < self.root_keys().len() && 0 <= j < self.root_keys().len() && i != j implies (#[trigger] self.root_keys()[i]).0 != (#[trigger] self.root_keys()[j]).0 by {
                        if i == keys_mid.len() {
                            assert(keys_mid.contains(keys_mid[j]));
                            lemma_filter_subset(keys_before, key_not_at(location), keys_mid[j]);
                        } else if j == keys_mid.len() {
                            assert(keys_mid.contains(keys_mid[i]));
                            lemma_filter_subset(keys_before, key_not_at(location), keys_mid[i]);
                        }
                    }
                }
            }
            proof {
                // Everything outside `location` is as it was.
                assert forall|other: Seq<char>| other != location implies refs_of(self.refs(), other) == refs_of(refs_before, other) by {
                    if !(has_key && previous.is_some()) {
                        lemma_refs_of_removed(refs_before, location, other);
                        lemma_refs_of_push(refs_before.filter(ref_not_at(location)), self.refs().last(), other);
                    }
                }
                assert forall|rk: (Seq<char>, Seq<char>, Seq<char>)| rk.0 != location implies (self.root_keys().contains(rk) <==> keys_before.contains(rk)) by {
                    if !(has_key && previous.is_some()) {
                        let keys_mid = keys_before.filter(key_not_at(location));
                        if self.root_keys().contains(rk) {
                            assert(keys_mid.contains(rk));
                            lemma_filter_subset(keys_before, key_not_at(location), rk);
                        }
                        if keys_before.contains(rk) {
                            let j = choose|j: int| 0 <= j < keys_before.len() && keys_before[j] == rk;
                            keys_before.lemma_filter_contains(key_not_at(location), j);
                            let m = choose|m: int| 0 <= m < keys_mid.len() && keys_mid[m] == rk;
                            assert(self.root_keys()[m] == rk);
                        }
                    }
                }
                assert forall|other: Seq<char>| other != location implies (self.revoked_locations().contains(other) <==> revl_before.contains(other)) by {
                    assert(self.revoked_locations().to_set().contains(other) == revl_before.to_set().contains(other));
                }
                assert(!self.revoked_locations().to_set().contains(location));
                assert(revr_before.to_set().subset_of(self.revoked_references().to_set()));
                assert forall|x: Seq<char>| revr_before.contains(x) implies self.revoked_references().contains(x) by {
                    assert(revr_before.to_set().contains(x));
                }
                assert(self.root_keys().contains(root_key_of(root)));
                assert forall|rk: (Seq<char>, Seq<char>, Seq<char>)| ids.subrange(k + 1, ids.len() as int).contains(rk.0) implies (self.root_keys().contains(rk) <==> old_keys.contains(rk)) by {
                    let tail = ids.subrange(k + 1, ids.len() as int);
                    let j = choose|j: int| 0 <= j < tail.len() && #[trigger] tail[j] == rk.0;
                    assert(ids[k + 1 + j] == rk.0);
                    assert(rk.0 != location);
                    assert(ids.subrange(k as int, ids.len() as int)[j + 1] == rk.0);
                }
                assert forall|other: Seq<char>| !ids.subrange(0, k + 1).contains(other) implies refs_of(self.refs(), other) == refs_of(mid_refs, other) by {
                    assert(ids.subrange(0, k + 1)[k as int] == location);
                    if ids.subrange(0, k as int).contains(other) {
                        let j = choose|j: int| 0 <= j < k && ids.subrange(0, k as int)[j] == other;
                        assert(ids.subrange(0, k + 1)[j] == other);
                    }
                }
                assert forall|j: int| 0 <= j < k + 1 implies {
                    let root = #[trigger] roots@[j];
                    let location = root.location_id@;
                    &&& !self.revoked_locations().contains(location)
                    &&& self.root_keys().contains(root_key_of(root))
                    &&& if old_keys.contains(root_key_of(root)) && old_ids.contains(location) {
                        &&& refs_of(self.refs(), location) == refs_of(old_self_refs, location)
                        &&& exists|i: int| 0 <= i < old_ids.len() && old_ids[i] == location && locations@[j].root.id@ == old_root_ids[i]
                    } else {
                        &&& refs_of(self.refs(), location).len() == 1
                        &&& ({
                            let v = refs_of(self.refs(), location)[0];
                            &&& v.uri == root.uri@
                            &&& v.name == root.name@
                            &&& v.display_path == root.name@
                            &&& v.parent_id is None
                            &&& v.kind == GioEntryKind::Directory
                            &&& locations@[j].root.id@ == v.id
                        })
                    }
                } by {
                    if j < k {
                        assert(ids[j] != ids[k as int]);
                        assert(locations@[j] == locations_before[j]);
                        assert(roots@[j].location_id@ == ids[j]);
                    } else {
                        assert(refs_of(mid_refs, location) == refs_of(old_self_refs, location));
                        if old_keys.contains(root_key_of(root)) && old_ids.contains(location) {
                            assert(self.root_keys().contains(root_key_of(root)) == keys_before.contains(root_key_of(root)));
                        }
                    }
                }
            }
            proof {
                assert forall|l: Seq<char>| !ids.contains(l) && old_revl.contains(l) implies #[trigger] self.revoked_locations().contains(l) by {
                    assert(revl_before.contains(l));
                    assert(ids[k as int] == location);
                    assert(l != location);
                    assert(revl_before.to_set().contains(l));
                    assert(self.revoked_locations().to_set().contains(l));
                }
                assert forall|j: int| 0 <= j < k + 1 implies summary_for(roots@[j], old_keys, old_ids, old_summaries,
                    #[trigger] location_view(locations@[j])) by {
                    if j < k {
                        assert(locations@[j] == locations_before[j]);
                    }
                }
            }
            k = k + 1;
        }
        self.locations = locations;
        proof {
            assert(self.location_ids() =~= ids);
            assert forall|j: int| 0 <= j < roots@.len() implies self.location_root_ids()[j] == self.locations@[j].root.id@ by {}
            assert(ids.subrange(0, k as int) =~= ids);
            assert forall|location: Seq<char>| !ids.contains(location) implies (if exists|rk: (Seq<char>, Seq<char>, Seq<char>)| old_keys.contains(rk) && rk.0 == location {
                &&& refs_of(self.refs(), location).len() == 0
                &&& self.revoked_locations().contains(location)
                &&& forall|v: GioReferenceView| old_self_refs.contains(v) && v.location_id == location ==> self.revoked_references().contains(revocation_key(location, v.id))
            } else {
                refs_of(self.refs(), location) == refs_of(old_self_refs, location)
            }) by {
                assert(!ids.subrange(0, k as int).contains(location));
                if exists|rk: (Seq<char>, Seq<char>, Seq<char>)| old_keys.contains(rk) && rk.0 == location {
                    let rk = choose|rk: (Seq<char>, Seq<char>, Seq<char>)| old_keys.contains(rk) && rk.0 == location;
                    let j = choose|j: int| 0 <= j < old_keys.len() && old_keys[j] == rk;
                    assert(views(gone@).contains(old_keys[j].0));
                    assert(refs_of(mid_refs, location).len() == 0);
                } else {
                    if views(gone@).contains(location) {
                        let j = choose|j: int| 0 <= j < old_keys.len() && old_keys[j].0 == location;
                        assert(old_keys.contains(old_keys[j]));
                    }
                }
            }
        }
        Ok(())
    }
}

/// The summary of a newly mounted root whose root reference is `root_id`: named after the
/// root, offered by the GIO backend, with a detail naming only the provider.
pub open spec fn gio_summary(root: NormalizedGioRoot, root_id: Seq<char>) -> LocationView {
    LocationView {
        id: root.location_id@,
        name: root.name@,
        backend: LocationBackend::Gio,
        kind: "syncedFolder"@,
        role: LocationRole::SyncedFolder,
        status: "available"@,
        display_path: root.name@,
        detail: provider_display_name(root.provider) + " · GIO"@,
        root: (root_id, root.location_id@, root.name@, root.name@),
        synced_folder: Some(
            SyncedFolderMetadataDto {
                provider: root.provider,
                status: SyncedFolderStatus::Available,
                source: SyncedFolderSource::System,
            },
        ),
    }
}

/// The summary `s` offered for `root`: a root that was mounted before keeps its earlier
/// summary; any other gets the summary of a new root.
pub open spec fn summary_for(
    root: NormalizedGioRoot,
    keys: Seq<(Seq<char>, Seq<char>, Seq<char>)>,
    ids: Seq<Seq<char>>,
    summaries: Seq<LocationView>,
    s: LocationView,
) -> bool {
    if keys.contains(root_key_of(root)) && ids.contains(root.location_id@) {
        exists|i: int| 0 <= i < ids.len() && ids[i] == root.location_id@ && s == summaries[i]
    } else {
        s == gio_summary(root, s.root.0)
    }
}

pub fn copy_location(l: &LocationSummaryDto) -> (r: LocationSummaryDto)
    ensures
        location_view(r) == location_view(*l),
        r.id@ == l.id@,
        r.root.id@ == l.root.id@,
        r.name@ == l.name@,
        r.display_path@ == l.display_path@,
{
    LocationSummaryDto {
        id: l.id.clone(),
        name: l.name.clone(),
        backend: l.backend,
        kind: l.kind.clone(),
        role: l.role,
        status: l.status.clone(),
        display_path: l.display_path.clone(),
        detail: l.detail.clone(),
        root: DirectoryRefDto {
            id: l.root.id.clone(),
            location_id: l.root.location_id.clone(),
            name: l.root.name.clone(),
            display_path: l.root.display_path.clone(),
        },
        synced_folder: l.synced_folder,
    }
}

/// The GIO I/O error codes that decide how a failed cloud operation is reported; every
/// other code is `Other`.
#[derive(Debug, Clone, Copy, PartialEq, Eq, Structural)]
pub enum GioErrorCode {
    Cancelled,
    NotFound,
    PermissionDenied,
    NotDirectory,
    NotMounted,
    HostNotFound,
    HostUnreachable,
    NetworkUnreachable,
    ConnectionRefused,
    NotConnected,
    TimedOut,
    NotSupported,
    Other,
}

/// Whether a GIO error code means the cloud location cannot be reached.
pub open spec fn gio_code_is_offline(code: GioErrorCode) -> bool {
    ||| code == GioErrorCode::NotMounted
    ||| code == GioErrorCode::HostNotFound
    ||| code == GioErrorCode::HostUnreachable
    ||| code == GioErrorCode::NetworkUnreachable
    ||| code == GioErrorCode::ConnectionRefused
    ||| code == GioErrorCode::NotConnected
}

/// How a failed GIO operation is reported; `None` is an error outside the GIO I/O domain.
pub open spec fn gio_error(code: Option<GioErrorCode>, e: ExplorerError) -> bool {
    match code {
        Some(GioErrorCode::Cancelled) => e == ExplorerError::Cancelled,
        Some(GioErrorCode::NotFound) => io_error(e, "This cloud entry is no longer available."@, IoErrorKind::NotFound),
        Some(GioErrorCode::PermissionDenied) => io_error(e,
            "Explora does not have permission to read this cloud entry."@, IoErrorKind::PermissionDenied),
        Some(GioErrorCode::NotDirectory) => io_error(e, "This cloud entry is not a folder."@,
            IoErrorKind::NotADirectory),
        Some(GioErrorCode::TimedOut) => e matches ExplorerError::TimedOut(m)
            && m@ == "The cloud filesystem operation took too long."@,
        Some(GioErrorCode::NotSupported) => e matches ExplorerError::Unsupported(m)
            && m@ == "This cloud filesystem operation is not supported."@,
        Some(c) => if gio_code_is_offline(c) {
            offline_error(e, "This cloud location is currently offline."@)
        } else {
            unexpected_error(e, "The cloud filesystem could not complete this operation."@)
        },
        None => unexpected_error(e, "The cloud filesystem could not complete this operation."@),
    }
}

pub fn map_gio_error(code: Option<GioErrorCode>) -> (r: ExplorerError)
    ensures
        gio_error(code, r),
{
    match code {
        Some(GioErrorCode::Cancelled) => ExplorerError::Cancelled,
        Some(GioErrorCode::NotFound) => ExplorerError::Io {
            message: "This cloud entry is no longer available.".to_owned(),
            kind: IoErrorKind::NotFound,
        },
        Some(GioErrorCode::PermissionDenied) => ExplorerError::Io {
            message: "Explora does not have permission to read this cloud entry.".to_owned(),
            kind: IoErrorKind::PermissionDenied,
        },
        Some(GioErrorCode::NotDirectory) => ExplorerError::Io {
            message: "This cloud entry is not a folder.".to_owned(),
            kind: IoErrorKind::NotADirectory,
        },
        Some(GioErrorCode::NotMounted) | Some(GioErrorCode::HostNotFound) | Some(GioErrorCode::HostUnreachable)
        | Some(GioErrorCode::NetworkUnreachable) | Some(GioErrorCode::ConnectionRefused)
        | Some(GioErrorCode::NotConnected) => ExplorerError::Offline(
            "This cloud location is currently offline.".to_owned(),
        ),
        Some(GioErrorCode::TimedOut) => ExplorerError::TimedOut(
            "The cloud filesystem operation took too long.".to_owned(),
        ),
        Some(GioErrorCode::NotSupported) => ExplorerError::Unsupported(
            "This cloud filesystem operation is not supported.".to_owned(),
        ),
        _ => ExplorerError::Unexpected("The cloud filesystem could not complete this operation.".to_owned()),
    }
}

} // verus!
