//! Normalization of GIO mount candidates into synced-folder roots: a stable
//! order, one root per mount identity and URI, numbered names when a provider
//! has several mounts, and opaque location ids derived from the identity.

use vstd::prelude::*;

use crate::filesystem::{
    provider_display_name, provider_rank, ExplorerError, LocationBackend, LocationRole, LocationView, SyncedFolderMetadataDto,
    SyncedFolderProvider, SyncedFolderSource, SyncedFolderStatus,
};
use crate::gio::{
    distinct_ids, refs_of, revocation_key, root_ids, summary_for, GioEntryKind, GioFilesystem, GioReferenceView,
    NormalizedGioRoot,
};
use crate::ids::{is_uuid_text, name_based_id, synced_folder_uuid};
use crate::text::{decimal, decimal_string, str_eq};

verus! {

broadcast use vstd::seq_lib::group_seq_properties;

/// A mount reported by GIO: a private identity, its URI and its provider.
#[derive(Debug)]
pub struct GioRootCandidate {
    pub identity: Vec<u8>,
    pub uri: String,
    pub provider: SyncedFolderProvider,
}

pub struct CandidateView {
    pub identity: Seq<u8>,
    pub uri: Seq<char>,
    pub provider: SyncedFolderProvider,
}

impl View for GioRootCandidate {
    type V = CandidateView;

    open spec fn view(&self) -> CandidateView {
        CandidateView { identity: self.identity@, uri: self.uri@, provider: self.provider }
    }
}

/// Lexicographic order of byte strings, as `Vec<u8>` compares them.
pub open spec fn bytes_le(a: Seq<u8>, b: Seq<u8>) -> bool
    decreases a.len(),
{
    if a.len() == 0 {
        true
    } else if b.len() == 0 {
        false
    } else if a[0] != b[0] {
        a[0] < b[0]
    } else {
        bytes_le(a.drop_first(), b.drop_first())
    }
}

/// Candidates are ordered by provider, then by identity.
pub open spec fn candidate_le(a: CandidateView, b: CandidateView) -> bool {
    provider_rank(a.provider) < provider_rank(b.provider) || (provider_rank(a.provider) == provider_rank(b.provider)
        && bytes_le(a.identity, b.identity))
}

/// `x` inserted into `s` after every element that does not sort after it.
pub open spec fn insert_sorted(s: Seq<CandidateView>, x: CandidateView) -> Seq<CandidateView>
    decreases s.len(),
{
    if s.len() == 0 {
        seq![x]
    } else if candidate_le(s.last(), x) {
        s.push(x)
    } else {
        insert_sorted(s.drop_last(), x).push(s.last())
    }
}

/// The candidates in their stable sorted order.
pub open spec fn sorted_candidates(s: Seq<CandidateView>) -> Seq<CandidateView>
    decreases s.len(),
{
    if s.len() == 0 {
        s
    } else {
        insert_sorted(sorted_candidates(s.drop_last()), s.last())
    }
}

/// The first-come filter over a sequence: a candidate is kept only if neither its identity
/// nor its URI was seen before. A candidate dropped for its URI still marks its identity as
/// seen. The result is (kept candidates, identities seen, URIs of kept candidates).
pub open spec fn dedup_fold(s: Seq<CandidateView>) -> (Seq<CandidateView>, Set<Seq<u8>>, Set<Seq<char>>)
    decreases s.len(),
{
    if s.len() == 0 {
        (Seq::empty(), Set::empty(), Set::empty())
    } else {
        let (kept, ids, uris) = dedup_fold(s.drop_last());
        let c = s.last();
        if ids.contains(c.identity) {
            (kept, ids, uris)
        } else if uris.contains(c.uri) {
            (kept, ids.insert(c.identity), uris)
        } else {
            (kept.push(c), ids.insert(c.identity), uris.insert(c.uri))
        }
    }
}

pub open spec fn identities(v: Seq<CandidateView>) -> Set<Seq<u8>> {
    Set::new(|id: Seq<u8>| exists|j: int| 0 <= j < v.len() && (#[trigger] v[j]).identity == id)
}

pub open spec fn uris_of(v: Seq<CandidateView>) -> Set<Seq<char>> {
    Set::new(|u: Seq<char>| exists|j: int| 0 <= j < v.len() && (#[trigger] v[j]).uri == u)
}

/// How many of `s` belong to `provider`.
pub open spec fn provider_count(s: Seq<CandidateView>, provider: SyncedFolderProvider) -> nat
    decreases s.len(),
{
    if s.len() == 0 {
        0
    } else {
        provider_count(s.drop_last(), provider) + if s.last().provider == provider { 1nat } else { 0nat }
    }
}

/// The shown name of the `i`-th kept root: the provider's name, numbered when the provider
/// has several roots.
pub open spec fn root_name(kept: Seq<CandidateView>, i: int) -> Seq<char> {
    let p = kept[i].provider;
    if provider_count(kept, p) > 1 {
        provider_display_name(p) + " "@ + decimal(provider_count(kept.take(i + 1), p))
    } else {
        provider_display_name(p)
    }
}

pub open spec fn gio_location_id(identity: Seq<u8>) -> Seq<char> {
    "synced:gio:"@ + synced_folder_uuid(identity)
}

/// The candidates that survive normalization, in order.
pub open spec fn kept_candidates(candidates: Seq<CandidateView>) -> Seq<CandidateView> {
    dedup_fold(sorted_candidates(candidates)).0
}

/// The normalized roots as (location id, URI, name, provider).
pub open spec fn normalized_roots(candidates: Seq<CandidateView>) -> Seq<(Seq<char>, Seq<char>, Seq<char>, SyncedFolderProvider)> {
    let kept = kept_candidates(candidates);
    Seq::new(kept.len(), |i: int| (gio_location_id(kept[i].identity), kept[i].uri, root_name(kept, i), kept[i].provider))
}

pub open spec fn root_view(r: NormalizedGioRoot) -> (Seq<char>, Seq<char>, Seq<char>, SyncedFolderProvider) {
    (r.location_id@, r.uri@, r.name@, r.provider)
}

pub open spec fn candidate_views(v: Seq<GioRootCandidate>) -> Seq<CandidateView> {
    v.map_values(|c: GioRootCandidate| c@)
}

fn bytes_le_exec(a: &Vec<u8>, b: &Vec<u8>) -> (r: bool)
    ensures
        r == bytes_le(a@, b@),
{
    let mut i: usize = 0;
    while i < a.len() && i < b.len() && a[i] == b[i]
        invariant
            i <= a.len(),
            i <= b.len(),
            bytes_le(a@, b@) == bytes_le(a@.skip(i as int), b@.skip(i as int)),
        decreases a.len() - i,
    {
        assert(a@.skip(i as int).drop_first() =~= a@.skip(i + 1));
        assert(b@.skip(i as int).drop_first() =~= b@.skip(i + 1));
        i = i + 1;
    }
    if i == a.len() {
        true
    } else if i == b.len() {
        false
    } else {
        a[i] < b[i]
    }
}

fn candidate_le_exec(a: &GioRootCandidate, b: &GioRootCandidate) -> (r: bool)
    ensures
        r == candidate_le(a@, b@),
{
    let ra = a.provider.rank();
    let rb = b.provider.rank();
    ra < rb || (ra == rb && bytes_le_exec(&a.identity, &b.identity))
}

proof fn lemma_insert_at(s: Seq<CandidateView>, x: CandidateView, p: int)
    requires
        0 <= p <= s.len(),
        p == s.len() || !candidate_le(s[p], x) || true,
        forall|j: int| p <= j < s.len() ==> !candidate_le(#[trigger] s[j], x),
        p > 0 ==> candidate_le(s[p - 1], x),
    ensures
        insert_sorted(s, x) == s.take(p).push(x) + s.skip(p),
    decreases s.len(),
{
    if s.len() == 0 {
        assert(s.take(p).push(x) + s.skip(p) =~= seq![x]);
    } else if candidate_le(s.last(), x) {
        assert(p == s.len());
        assert(s.take(p).push(x) + s.skip(p) =~= s.push(x));
    } else {
        let t = s.drop_last();
        assert(p < s.len());
        lemma_insert_at(t, x, p);
        assert(s.take(p).push(x) + s.skip(p) =~= (t.take(p).push(x) + t.skip(p)).push(s.last()));
    }
}

/// Candidates in their stable order by provider, then identity.
fn sort_candidates(candidates: Vec<GioRootCandidate>) -> (r: Vec<GioRootCandidate>)
    ensures
        candidate_views(r@) == sorted_candidates(candidate_views(candidates@)),
{
    let ghost input = candidate_views(candidates@);
    let mut sorted: Vec<GioRootCandidate> = Vec::new();
    let mut rest = candidates;
    let ghost mut k: int = 0;
    assert(input.take(0) =~= Seq::<CandidateView>::empty());
    assert(candidate_views(rest@) =~= input.skip(0));
    while rest.len() > 0
        invariant
            0 <= k <= input.len(),
            candidate_views(rest@) == input.skip(k),
            candidate_views(sorted@) == sorted_candidates(input.take(k)),
        decreases rest.len(),
    {
        let ghost before = candidate_views(sorted@);
        proof {
            assert(candidate_views(rest@).len() == rest@.len());
            assert(input.skip(k)[0] == input[k]);
            assert(candidate_views(rest@)[0] == rest@[0]@);
        }
        let ghost rest_before = rest@;
        let c = rest.remove(0);
        proof {
            assert(c@ == input[k]);
            assert(rest@ =~= rest_before.skip(1));
            assert(candidate_views(rest@) =~= input.skip(k + 1));
            assert(input.take(k + 1).drop_last() =~= input.take(k));
        }
        let mut p: usize = sorted.len();
        while p > 0 && !candidate_le_exec(&sorted[p - 1], &c)
            invariant
                p <= sorted.len(),
                candidate_views(sorted@) == before,
                forall|j: int| p <= j < before.len() ==> !candidate_le(#[trigger] before[j], c@),
            decreases p,
        {
            p = p - 1;
        }
        proof {
            lemma_insert_at(before, c@, p as int);
        }
        sorted.insert(p, c);
        proof {
            assert(candidate_views(sorted@) =~= before.take(p as int).push(c@) + before.skip(p as int));
            k = k + 1;
        }
    }
    assert(input.take(k) =~= input);
    sorted
}

fn same_bytes(a: &Vec<u8>, b: &Vec<u8>) -> (r: bool)
    ensures
        r == (a@ == b@),
{
    if a.len() != b.len() {
        return false;
    }
    let mut i: usize = 0;
    while i < a.len()
        invariant
            a.len() == b.len(),
            i <= a.len(),
            forall|j: int| 0 <= j < i ==> a@[j] == b@[j],
        decreases a.len() - i,
    {
        if a[i] != b[i] {
            return false;
        }
        i = i + 1;
    }
    assert(a@ =~= b@);
    true
}

fn has_identity(v: &Vec<GioRootCandidate>, id: &Vec<u8>) -> (r: bool)
    ensures
        r == identities(candidate_views(v@)).contains(id@),
{
    let mut i: usize = 0;
    while i < v.len()
        invariant
            i <= v.len(),
            forall|j: int| 0 <= j < i ==> (#[trigger] v@[j]).identity@ != id@,
        decreases v.len() - i,
    {
        if same_bytes(&v[i].identity, id) {
            assert(candidate_views(v@)[i as int].identity == id@);
            return true;
        }
        i = i + 1;
    }
    assert(!identities(candidate_views(v@)).contains(id@)) by {
        if identities(candidate_views(v@)).contains(id@) {
            let j = choose|j: int| 0 <= j < candidate_views(v@).len() && (#[trigger] candidate_views(v@)[j]).identity == id@;
            assert(v@[j].identity@ == id@);
        }
    }
    false
}

fn has_uri(v: &Vec<GioRootCandidate>, uri: &String) -> (r: bool)
    ensures
        r == uris_of(candidate_views(v@)).contains(uri@),
{
    let mut i: usize = 0;
    while i < v.len()
        invariant
            i <= v.len(),
            forall|j: int| 0 <= j < i ==> (#[trigger] v@[j]).uri@ != uri@,
        decreases v.len() - i,
    {
        if str_eq(v[i].uri.as_str(), uri.as_str()) {
            assert(candidate_views(v@)[i as int].uri == uri@);
            return true;
        }
        i = i + 1;
    }
    assert(!uris_of(candidate_views(v@)).contains(uri@)) by {
        if uris_of(candidate_views(v@)).contains(uri@) {
            let j = choose|j: int| 0 <= j < candidate_views(v@).len() && (#[trigger] candidate_views(v@)[j]).uri == uri@;
            assert(v@[j].uri@ == uri@);
        }
    }
    false
}

proof fn lemma_identities_push(v: Seq<CandidateView>, c: CandidateView)
    ensures
        identities(v.push(c)) == identities(v).insert(c.identity),
        uris_of(v.push(c)) == uris_of(v).insert(c.uri),
{
    assert(v.push(c)[v.len() as int] == c);
    assert forall|id: Seq<u8>| identities(v).insert(c.identity).contains(id) implies identities(v.push(c)).contains(id) by {
        if id != c.identity {
            let j = choose|j: int| 0 <= j < v.len() && (#[trigger] v[j]).identity == id;
            assert(v.push(c)[j] == v[j]);
        }
    }
    assert forall|u: Seq<char>| uris_of(v).insert(c.uri).contains(u) implies uris_of(v.push(c)).contains(u) by {
        if u != c.uri {
            let j = choose|j: int| 0 <= j < v.len() && (#[trigger] v[j]).uri == u;
            assert(v.push(c)[j] == v[j]);
        }
    }
    assert forall|id: Seq<u8>| identities(v.push(c)).contains(id) implies identities(v).insert(c.identity).contains(id) by {
        let j = choose|j: int| 0 <= j < v.push(c).len() && (#[trigger] v.push(c)[j]).identity == id;
        if j < v.len() {
            assert(v[j] == v.push(c)[j]);
        }
    }
    assert forall|u: Seq<char>| uris_of(v.push(c)).contains(u) implies uris_of(v).insert(c.uri).contains(u) by {
        let j = choose|j: int| 0 <= j < v.push(c).len() && (#[trigger] v.push(c)[j]).uri == u;
        if j < v.len() {
            assert(v[j] == v.push(c)[j]);
        }
    }
    assert(identities(v.push(c)) =~= identities(v).insert(c.identity));
    assert(uris_of(v.push(c)) =~= uris_of(v).insert(c.uri));
}

/// Drops every candidate whose identity or URI came earlier.
fn dedup(sorted: Vec<GioRootCandidate>) -> (r: Vec<GioRootCandidate>)
    ensures
        candidate_views(r@) == dedup_fold(candidate_views(sorted@)).0,
{
    let ghost input = candidate_views(sorted@);
    let mut out: Vec<GioRootCandidate> = Vec::new();
    let mut dropped: Vec<GioRootCandidate> = Vec::new();
    let mut rest = sorted;
    let ghost mut k: int = 0;
    proof {
        assert(input.take(0) =~= Seq::<CandidateView>::empty());
        assert(candidate_views(rest@) =~= input.skip(0));
        assert(identities(Seq::<CandidateView>::empty()) =~= Set::empty());
        assert(uris_of(Seq::<CandidateView>::empty()) =~= Set::empty());
    }
    while rest.len() > 0
        invariant
            0 <= k <= input.len(),
            candidate_views(rest@) == input.skip(k),
            dedup_fold(input.take(k)).0 == candidate_views(out@),
            dedup_fold(input.take(k)).1 == identities(candidate_views(out@)) + identities(candidate_views(dropped@)),
            dedup_fold(input.take(k)).2 == uris_of(candidate_views(out@)),
        decreases rest.len(),
    {
        proof {
            assert(candidate_views(rest@).len() == rest@.len());
            assert(input.skip(k)[0] == input[k]);
            assert(candidate_views(rest@)[0] == rest@[0]@);
        }
        let ghost rest_before = rest@;
        let c = rest.remove(0);
        proof {
            assert(c@ == input[k]);
            assert(rest@ =~= rest_before.skip(1));
            assert(candidate_views(rest@) =~= input.skip(k + 1));
            assert(input.take(k + 1).drop_last() =~= input.take(k));
            assert(input.take(k + 1).last() == c@);
        }
        let ghost out_before = candidate_views(out@);
        let ghost dropped_before = candidate_views(dropped@);
        if has_identity(&out, &c.identity) || has_identity(&dropped, &c.identity) {
        } else if has_uri(&out, &c.uri) {
            dropped.push(c);
            proof {
                assert(candidate_views(dropped@) =~= dropped_before.push(c@));
                lemma_identities_push(dropped_before, c@);
                assert(dedup_fold(input.take(k + 1)).1 =~= identities(candidate_views(out@)) + identities(candidate_views(dropped@)));
            }
        } else {
            out.push(c);
            proof {
                assert(candidate_views(out@) =~= out_before.push(c@));
                lemma_identities_push(out_before, c@);
                assert(dedup_fold(input.take(k + 1)).1 =~= identities(candidate_views(out@)) + identities(candidate_views(dropped@)));
            }
        }
        proof {
            k = k + 1;
        }
    }
    assert(input.take(k) =~= input);
    out
}

fn count_provider(v: &Vec<GioRootCandidate>, upto: usize, provider: SyncedFolderProvider) -> (r: u64)
    requires
        upto <= v.len(),
    ensures
        r == provider_count(candidate_views(v@).take(upto as int), provider),
        r <= upto,
{
    let ghost s = candidate_views(v@);
    let mut count: u64 = 0;
    let mut j: usize = 0;
    assert(s.take(0) =~= Seq::<CandidateView>::empty());
    while j < upto
        invariant
            j <= upto <= v.len(),
            s == candidate_views(v@),
            count == provider_count(s.take(j as int), provider),
            count <= j,
        decreases upto - j,
    {
        assert(s.take(j + 1).drop_last() =~= s.take(j as int));
        if v[j].provider == provider {
            count = count + 1;
        }
        j = j + 1;
    }
    count
}

/// Sorts the mounts, drops repeated identities and URIs, names them and derives their
/// location ids.
pub fn normalize_roots(candidates: Vec<GioRootCandidate>) -> (r: Vec<NormalizedGioRoot>)
    ensures
        r@.map_values(|root: NormalizedGioRoot| root_view(root)) == normalized_roots(candidate_views(candidates@)),
        forall|j: int| 0 <= j < kept_candidates(candidate_views(candidates@)).len() ==> is_uuid_text(
            #[trigger] synced_folder_uuid(kept_candidates(candidate_views(candidates@))[j].identity)),
{
    let ghost input = candidate_views(candidates@);
    let sorted = sort_candidates(candidates);
    let kept = dedup(sorted);
    let ghost ks = candidate_views(kept@);
    assert(ks == kept_candidates(input));
    let mut roots: Vec<NormalizedGioRoot> = Vec::new();
    let mut i: usize = 0;
    while i < kept.len()
        invariant
            i <= kept.len(),
            ks == candidate_views(kept@),
            ks == kept_candidates(input),
            roots@.len() == i,
            forall|j: int| 0 <= j < i ==> #[trigger] root_view(roots@[j]) == normalized_roots(input)[j],
            forall|j: int| 0 <= j < i ==> is_uuid_text(#[trigger] synced_folder_uuid(ks[j].identity)),
        decreases kept.len() - i,
    {
        let candidate = &kept[i];
        let provider = candidate.provider;
        let total = count_provider(&kept, kept.len(), provider);
        let index = count_provider(&kept, i + 1, provider);
        proof {
            assert(ks.take(ks.len() as int) =~= ks);
        }
        let mut name = provider.display_name().to_owned();
        if total > 1 {
            name.push(' ');
            let digits = decimal_string(index);
            name = name.concat(digits.as_str());
        }
        let id = name_based_id(&candidate.identity);
        assert(ks[i as int].identity == candidate.identity@);
        let location_id = "synced:gio:".to_owned().concat(id.as_str());
        proof {
            reveal_strlit("synced:gio:");
            reveal_strlit(" ");
        }
        roots.push(NormalizedGioRoot { location_id, uri: candidate.uri.clone(), name, provider });
        proof {
            assert(root_view(roots@[i as int]) == normalized_roots(input)[i as int]);
        }
        i = i + 1;
    }
    assert(roots@.map_values(|root: NormalizedGioRoot| root_view(root)) =~= normalized_roots(input));
    roots
}

/// A normalized root as plain values: (location id, URI, name, provider).
pub type RootTuple = (Seq<char>, Seq<char>, Seq<char>, SyncedFolderProvider);

pub open spec fn tuple_ids(roots: Seq<RootTuple>) -> Seq<Seq<char>> {
    roots.map_values(|r: RootTuple| r.0)
}

/// What replacing the mounted roots with `roots` leaves behind: exactly these locations, in
/// order; an unchanged root keeps its references and root, a new or changed root has one
/// fresh root reference; a location that is no longer mounted loses its references, which
/// become stale; locations that were never mounted are untouched.
pub open spec fn roots_applied(before: GioFilesystem, after: GioFilesystem, roots: Seq<RootTuple>) -> bool {
    &&& after.location_ids() == tuple_ids(roots)
    &&& forall|k: int| 0 <= k < roots.len() ==> {
        let root = #[trigger] roots[k];
        let location = root.0;
        &&& !after.revoked_locations().contains(location)
        &&& after.root_keys().contains((root.0, root.1, root.2))
        &&& if before.root_keys().contains((root.0, root.1, root.2)) && before.location_ids().contains(location) {
            &&& refs_of(after.refs(), location) == refs_of(before.refs(), location)
            &&& exists|i: int| 0 <= i < before.location_ids().len() && before.location_ids()[i] == location
                && after.location_root_ids()[k] == before.location_root_ids()[i]
        } else {
            &&& refs_of(after.refs(), location).len() == 1
            &&& ({
                let v = refs_of(after.refs(), location)[0];
                &&& v.uri == root.1
                &&& v.name == root.2
                &&& v.display_path == root.2
                &&& v.parent_id is None
                &&& v.kind == GioEntryKind::Directory
                &&& after.location_root_ids()[k] == v.id
            })
        }
    }
    &&& forall|location: Seq<char>| !tuple_ids(roots).contains(location) ==> if exists|rk: (Seq<char>, Seq<char>, Seq<char>)| before.root_keys().contains(rk) && rk.0 == location {
        &&& refs_of(after.refs(), location).len() == 0
        &&& after.revoked_locations().contains(location)
        &&& forall|v: GioReferenceView| before.refs().contains(v) && v.location_id == location ==> after.revoked_references().contains(revocation_key(location, v.id))
    } else {
        refs_of(after.refs(), location) == refs_of(before.refs(), location)
    }
    &&& before.revoked_references().to_set().subset_of(after.revoked_references().to_set())
}

/// Every part of the state is as it was.
pub open spec fn state_kept(before: GioFilesystem, after: GioFilesystem) -> bool {
    &&& after.refs() == before.refs()
    &&& after.location_ids() == before.location_ids()
    &&& after.location_root_ids() == before.location_root_ids()
    &&& after.summaries() == before.summaries()
    &&& after.root_keys() == before.root_keys()
    &&& after.revoked_locations() == before.revoked_locations()
    &&& after.revoked_references() == before.revoked_references()
}

/// The root was mounted before with the same URI and name, so it needs no new reference.
pub open spec fn retained_root(fs: GioFilesystem, root: RootTuple) -> bool {
    fs.root_keys().contains((root.0, root.1, root.2)) && fs.location_ids().contains(root.0)
}

/// The summary `s` offered for `root`: a root mounted before keeps its summary; a new one
/// is named after the root, offered by the GIO backend, and names only its provider.
pub open spec fn tuple_summary_for(root: RootTuple, before: GioFilesystem, s: LocationView) -> bool {
    if retained_root(before, root) {
        exists|i: int| 0 <= i < before.location_ids().len() && before.location_ids()[i] == root.0 && s == before.summaries()[i]
    } else {
        s == (LocationView {
            id: root.0,
            name: root.2,
            backend: LocationBackend::Gio,
            kind: "syncedFolder"@,
            role: LocationRole::SyncedFolder,
            status: "available"@,
            display_path: root.2,
            detail: provider_display_name(root.3) + " · GIO"@,
            root: (s.root.0, root.0, root.2, root.2),
            synced_folder: Some(
                SyncedFolderMetadataDto {
                    provider: root.3,
                    status: SyncedFolderStatus::Available,
                    source: SyncedFolderSource::System,
                },
            ),
        })
    }
}

/// After a replacement, a location that was mounted before and is not among the new roots
/// reads as unavailable, one among the new roots does not, and one that was unavailable
/// and is still not mounted stays unavailable (`is_unavailable_location` answers
/// membership in the revoked locations).
pub proof fn lemma_replaced_locations_availability(before: GioFilesystem, after: GioFilesystem, roots: Seq<RootTuple>)
    requires
        roots_applied(before, after, roots),
        forall|location: Seq<char>| !tuple_ids(roots).contains(location) && #[trigger] before.revoked_locations().contains(location)
            ==> after.revoked_locations().contains(location),
    ensures
        forall|location: Seq<char>| #![trigger after.revoked_locations().contains(location)]
            !tuple_ids(roots).contains(location) && (exists|rk: (Seq<char>, Seq<char>, Seq<char>)| before.root_keys().contains(rk)
            && rk.0 == location) ==> after.revoked_locations().contains(location),
        forall|location: Seq<char>| #![trigger after.revoked_locations().contains(location)]
            tuple_ids(roots).contains(location) ==> !after.revoked_locations().contains(location),
        forall|location: Seq<char>| #![trigger after.revoked_locations().contains(location)]
            !tuple_ids(roots).contains(location) && before.revoked_locations().contains(location) ==> after.revoked_locations().contains(location),
{
    assert forall|location: Seq<char>| tuple_ids(roots).contains(location) implies !after.revoked_locations().contains(location) by {
        let k = choose|k: int| 0 <= k < tuple_ids(roots).len() && tuple_ids(roots)[k] == location;
        assert(roots[k].0 == location);
    }
}

/// What a successful `replace_roots` with normalized roots `roots` promises of the
/// filesystem before and after it.
pub open spec fn replacement_step(before: GioFilesystem, after: GioFilesystem, roots: Seq<RootTuple>) -> bool {
    &&& roots_applied(before, after, roots)
    &&& forall|location: Seq<char>| !tuple_ids(roots).contains(location) && #[trigger] before.revoked_locations().contains(location)
        ==> after.revoked_locations().contains(location)
}

/// Over any run of successful replacements: a location that the last replacement lists
/// is available, and a location that some replacement listed and every later replacement
/// left out reads as unavailable.
pub proof fn lemma_availability_history(states: Seq<GioFilesystem>, roots: Seq<Seq<RootTuple>>, location: Seq<char>)
    requires
        roots.len() >= 1,
        states.len() == roots.len() + 1,
        forall|i: int| 0 <= i < roots.len() ==> replacement_step(#[trigger] states[i], states[i + 1], roots[i]),
    ensures
        states.last().location_ids().contains(location) ==> !states.last().revoked_locations().contains(location),
        forall|k: int| #![trigger roots[k]] 0 <= k < roots.len() - 1 && tuple_ids(roots[k]).contains(location) && (forall|j: int|
            k < j < roots.len() ==> !tuple_ids(#[trigger] roots[j]).contains(location)) ==> states.last().revoked_locations().contains(
            location),
    decreases roots.len(),
{
    let n = roots.len() as int;
    assert(replacement_step(states[n - 1], states[n], roots[n - 1]));
    if states.last().location_ids().contains(location) {
        let i = choose|i: int| 0 <= i < tuple_ids(roots[n - 1]).len() && #[trigger] tuple_ids(roots[n - 1])[i] == location;
        assert(roots[n - 1][i].0 == location);
    }
    assert forall|k: int| #![trigger roots[k]] 0 <= k < roots.len() - 1 && tuple_ids(roots[k]).contains(location) && (forall|j: int|
        k < j < roots.len() ==> !tuple_ids(#[trigger] roots[j]).contains(location)) implies states.last().revoked_locations().contains(
        location) by {
        assert(!tuple_ids(roots[n - 1]).contains(location));
        if k == n - 2 {
            assert(replacement_step(states[k], states[k + 1], roots[k]));
            let i = choose|i: int| 0 <= i < tuple_ids(roots[k]).len() && #[trigger] tuple_ids(roots[k])[i] == location;
            let root = roots[k][i];
            assert(root.0 == location);
            assert(states[k + 1].root_keys().contains((root.0, root.1, root.2)));
            assert(states[n - 1] == states[k + 1]);
        } else {
            let ss = states.drop_last();
            let rr = roots.drop_last();
            assert forall|i: int| 0 <= i < rr.len() implies replacement_step(#[trigger] ss[i], ss[i + 1], rr[i]) by {
                assert(ss[i] == states[i] && ss[i + 1] == states[i + 1] && rr[i] == roots[i]);
            }
            lemma_availability_history(ss, rr, location);
            assert(rr[k] == roots[k]);
            assert forall|j: int| k < j < rr.len() implies !tuple_ids(#[trigger] rr[j]).contains(location) by {
                assert(rr[j] == roots[j]);
            }
            assert(ss.last() == states[n - 1]);
            assert(states[n - 1].revoked_locations().contains(location));
        }
    }
}

fn roots_distinct(roots: &Vec<NormalizedGioRoot>) -> (r: bool)
    ensures
        r == distinct_ids(root_ids(roots@)),
{
    let ghost ids = root_ids(roots@);
    let mut i: usize = 0;
    while i < roots.len()
        invariant
            i <= roots.len(),
            ids == root_ids(roots@),
            forall|a: int, b: int| 0 <= a < i && 0 <= b < roots.len() && a != b ==> ids[a] != ids[b],
        decreases roots.len() - i,
    {
        let mut j: usize = 0;
        while j < roots.len()
            invariant
                i < roots.len(),
                j <= roots.len(),
                ids == root_ids(roots@),
                forall|a: int, b: int| 0 <= a < i && 0 <= b < roots.len() && a != b ==> ids[a] != ids[b],
                forall|b: int| 0 <= b < j && b != i ==> ids[i as int] != ids[b],
            decreases roots.len() - j,
        {
            if j != i && str_eq(roots[i].location_id.as_str(), roots[j].location_id.as_str()) {
                assert(ids[i as int] == ids[j as int]);
                return false;
            }
            j = j + 1;
        }
        i = i + 1;
    }
    true
}

impl GioFilesystem {
    /// A filesystem with no mounted roots. Watching the mounts is the host's part; it hands
    /// each new set of mounts to [`GioFilesystem::replace_roots`].
    pub fn start() -> (r: Result<GioFilesystem, ExplorerError>)
        ensures
            r is Ok,
            r->Ok_0.wf(),
            r->Ok_0.location_ids().len() == 0,
            r->Ok_0.refs().len() == 0,
    {
        Ok(GioFilesystem::new())
    }

    /// Replaces the mounted roots with the normalized form of `candidates`. Should two roots
    /// be given one location id, nothing changes and the state is reported unavailable. A
    /// root that was mounted before keeps its summary and references; a new root gets a
    /// fresh root reference, and only drawing that identifier can fail, in which case
    /// nothing changes either.
    pub fn replace_roots(&mut self, candidates: Vec<GioRootCandidate>) -> (r: Result<(), ExplorerError>)
        requires
            old(self).wf(),
        ensures
            final(self).wf(),
            r is Err ==> r == Err::<(), ExplorerError>(ExplorerError::StateUnavailable),
            !distinct_ids(tuple_ids(normalized_roots(candidate_views(candidates@)))) ==> r is Err && *final(self) == *old(self),
            r is Err ==> state_kept(*old(self), *final(self)),
            distinct_ids(tuple_ids(normalized_roots(candidate_views(candidates@)))) && (forall|k: int|
                0 <= k < normalized_roots(candidate_views(candidates@)).len() ==> retained_root(
                *old(self),
                #[trigger] normalized_roots(candidate_views(candidates@))[k],
            )) ==> r is Ok,
            r is Ok ==> roots_applied(*old(self), *final(self), normalized_roots(candidate_views(candidates@))),
            r is Ok ==> forall|location: Seq<char>| !tuple_ids(normalized_roots(candidate_views(candidates@))).contains(location)
                && #[trigger] old(self).revoked_locations().contains(location) ==> final(self).revoked_locations().contains(location),
            r is Ok ==> forall|k: int| 0 <= k < normalized_roots(candidate_views(candidates@)).len() ==> tuple_summary_for(
                #[trigger] normalized_roots(candidate_views(candidates@))[k],
                *old(self),
                final(self).summaries()[k],
            ),
            forall|j: int| 0 <= j < kept_candidates(candidate_views(candidates@)).len() ==> is_uuid_text(
                #[trigger] synced_folder_uuid(kept_candidates(candidate_views(candidates@))[j].identity)),
    {
        let ghost expected = normalized_roots(candidate_views(candidates@));
        let roots = normalize_roots(candidates);
        let ghost rs = roots@;
        proof {
            assert forall|j: int| 0 <= j < rs.len() implies root_ids(rs)[j] == tuple_ids(expected)[j] by {
                assert(root_view(rs[j]) == expected[j]);
            }
            assert(root_ids(rs) =~= tuple_ids(expected));
        }
        if !roots_distinct(&roots) {
            return Err(ExplorerError::StateUnavailable);
        }
        let ghost before = *self;
        let saved = self.copy_state();
        let r = self.apply_roots(roots);
        if r.is_err() {
            *self = saved;
            proof {
                let k = choose|k: int| 0 <= k < rs.len() && !before.retains(#[trigger] rs[k]);
                assert(root_view(rs[k]) == expected[k]);
                assert(!retained_root(before, expected[k]));
            }
            return r;
        }
        proof {
            assert forall|location: Seq<char>| !tuple_ids(expected).contains(location) && #[trigger] before.revoked_locations().contains(
                location) implies self.revoked_locations().contains(location) by {
                assert(root_ids(rs) == tuple_ids(expected));
            }
            assert forall|k: int| 0 <= k < expected.len() implies tuple_summary_for(#[trigger] expected[k], before,
                self.summaries()[k]) by {
                assert(root_view(rs[k]) == expected[k]);
                assert(summary_for(rs[k], before.root_keys(), before.location_ids(), before.summaries(), self.summaries()[k]));
            }
        }
        proof {
            if r is Ok {
                assert forall|k: int| 0 <= k < expected.len() implies {
                    let root = #[trigger] expected[k];
                    let location = root.0;
                    &&& !self.revoked_locations().contains(location)
                    &&& self.root_keys().contains((root.0, root.1, root.2))
                    &&& if before.root_keys().contains((root.0, root.1, root.2)) && before.location_ids().contains(location) {
                        &&& refs_of(self.refs(), location) == refs_of(before.refs(), location)
                        &&& exists|i: int| 0 <= i < before.location_ids().len() && before.location_ids()[i] == location
                            && self.location_root_ids()[k] == before.location_root_ids()[i]
                    } else {
                        &&& refs_of(self.refs(), location).len() == 1
                        &&& ({
                            let v = refs_of(self.refs(), location)[0];
                            &&& v.uri == root.1
                            &&& v.name == root.2
                            &&& v.display_path == root.2
                            &&& v.parent_id is None
                            &&& v.kind == GioEntryKind::Directory
                            &&& self.location_root_ids()[k] == v.id
                        })
                    }
                } by {
                    let root = rs[k];
                    assert(root_view(root) == expected[k]);
                }
            }
        }
        r
    }
}

} // verus!
