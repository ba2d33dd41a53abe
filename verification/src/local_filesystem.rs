//! Local locations: the standard places of the home directory and mounted volumes, their
//! opaque root references, and the rules for names and kinds of local entries.

use vstd::prelude::*;

use crate::filesystem::{
    copy_directory, copy_locations, directory_view, location_view, location_views, BreadcrumbSegmentDto,
    DirectoryListingEvent, DirectoryRefDto, ExplorerError,
    IoErrorKind, LocationBackend, LocationRole, LocationSummaryDto, LocationView,
};
use crate::paths::{file_name, kind_for_extension, kind_of_extension, lowercase_path_extension, lowered, path_extension, path_file_name};
use crate::registry::{has_entry, has_id, has_key, registry_wf, resolution, PathEntry, PathRegistry};
use crate::ids::random_id;
use crate::entries::{describe_local_entry, local_entry_described, LocalEntryFacts};
use crate::local_listing::{ancestor, ancestor_path, component_count, components, path_within, within_root};
use crate::text::{ascii_lower_seq, str_eq, views};

verus! {

broadcast use vstd::seq_lib::group_seq_properties;

/// A standard place offered as a local location.
#[derive(Debug, Clone, PartialEq, Eq)]
pub struct LocalRoot {
    pub id: String,
    pub name: String,
    pub role: LocationRole,
    pub path: String,
}

/// A mounted volume.
#[derive(Debug, Clone, PartialEq, Eq)]
pub struct VolumeRoot {
    pub id: String,
    pub name: String,
    pub path: String,
    pub detail: String,
}

/// What the local filesystem asks of the disk. Nothing is trusted of the answers.
pub trait LocalDisk {
    /// Whether `path` is a directory.
    fn is_dir(&self, path: &str) -> bool;
}

/// The text shown for a path.
pub open spec fn display_text(path: Seq<char>) -> Seq<char> {
    path
}

/// The name of a directory: its final component, or its whole path when it has none.
pub open spec fn directory_name_of(path: Seq<char>) -> Seq<char> {
    match file_name(path) {
        Some(n) => if n.len() > 0 { n } else { display_text(path) },
        None => display_text(path),
    }
}

pub fn display_path(path: &str) -> (r: String)
    ensures
        r@ == display_text(path@),
{
    path.to_owned()
}

pub fn directory_name(path: &str) -> (r: String)
    ensures
        r@ == directory_name_of(path@),
{
    match path_file_name(path) {
        Some(n) => {
            if n.as_str().unicode_len() > 0 {
                n
            } else {
                display_path(path)
            }
        },
        None => display_path(path),
    }
}

/// Registers `path` under `location_id` and describes it as a directory, named
/// `preferred_name` if one is given.
pub fn directory_ref(registry: &mut PathRegistry, path: &str, location_id: &str, preferred_name: Option<&str>) -> (r: Result<
    DirectoryRefDto,
    ExplorerError,
>)
    requires
        registry_wf(old(registry)@),
    ensures
        registry_wf(final(registry)@),
        forall|e: PathEntry| has_entry(old(registry)@, e) ==> has_entry(final(registry)@, e),
        forall|e: PathEntry| has_entry(final(registry)@, e) ==> has_entry(old(registry)@, e) || e.1 == location_id@,
        r is Err ==> r == Err::<DirectoryRefDto, ExplorerError>(ExplorerError::StateUnavailable) && final(registry)@ == old(registry)@,
        has_key(old(registry)@, location_id@, path@) ==> r is Ok && final(registry)@ == old(registry)@,
        r is Ok ==> ({
            let d = r->Ok_0;
            &&& has_entry(final(registry)@, (d.id@, location_id@, path@))
            &&& d.location_id@ == location_id@
            &&& d.name@ == match preferred_name {
                Some(n) => n@,
                None => directory_name_of(path@),
            }
            &&& d.display_path@ == display_text(path@)
        }),
{
    let id = match registry.register(location_id, path) {
        Ok(id) => id,
        Err(e) => {
            return Err(e);
        },
    };
    proof {
        assert forall|e: PathEntry| has_entry(old(registry)@, e) implies has_entry(registry@, e) by {
            let i = choose|i: int| 0 <= i < old(registry)@.len() && #[trigger] old(registry)@[i] == e;
            assert(registry@[i] == e);
        }
        assert forall|e: PathEntry| has_entry(registry@, e) implies has_entry(old(registry)@, e) || e.1 == location_id@ by {
            let i = choose|i: int| 0 <= i < registry@.len() && #[trigger] registry@[i] == e;
            if i < old(registry)@.len() {
                assert(old(registry)@[i] == e);
            }
        }
    }
    let name = match preferred_name {
        Some(n) => n.to_owned(),
        None => directory_name(path),
    };
    Ok(DirectoryRefDto { id, location_id: location_id.to_owned(), name, display_path: display_path(path) })
}

/// `directory_ref`, with a new path registered under the freshly drawn identifier `fresh`:
/// it fails only when the path is new and `fresh` is already in use.
pub fn directory_ref_with(
    registry: &mut PathRegistry,
    path: &str,
    location_id: &str,
    preferred_name: Option<&str>,
    fresh: String,
) -> (r: Result<DirectoryRefDto, ExplorerError>)
    requires
        registry_wf(old(registry)@),
    ensures
        registry_wf(final(registry)@),
        r is Err <==> !has_key(old(registry)@, location_id@, path@) && has_id(old(registry)@, fresh@),
        r is Err ==> r == Err::<DirectoryRefDto, ExplorerError>(ExplorerError::StateUnavailable) && final(registry)@ == old(registry)@,
        has_key(old(registry)@, location_id@, path@) ==> final(registry)@ == old(registry)@,
        !has_key(old(registry)@, location_id@, path@) && !has_id(old(registry)@, fresh@) ==> final(registry)@
            == old(registry)@.push((fresh@, location_id@, path@)),
        forall|e: PathEntry| has_entry(old(registry)@, e) ==> has_entry(final(registry)@, e),
        forall|e: PathEntry| has_entry(final(registry)@, e) ==> has_entry(old(registry)@, e) || e.1 == location_id@,
        forall|x: Seq<char>| has_id(final(registry)@, x) ==> has_id(old(registry)@, x) || x == fresh@,
        r is Ok ==> ({
            let d = r->Ok_0;
            &&& has_entry(final(registry)@, (d.id@, location_id@, path@))
            &&& d.location_id@ == location_id@
            &&& d.name@ == match preferred_name {
                Some(n) => n@,
                None => directory_name_of(path@),
            }
            &&& d.display_path@ == display_text(path@)
        }),
{
    let id = match registry.register_with(location_id, path, fresh) {
        Ok(id) => id,
        Err(e) => {
            return Err(e);
        },
    };
    proof {
        assert forall|e: PathEntry| has_entry(old(registry)@, e) implies has_entry(registry@, e) by {
            let i = choose|i: int| 0 <= i < old(registry)@.len() && #[trigger] old(registry)@[i] == e;
            assert(registry@[i] == e);
        }
        assert forall|e: PathEntry| has_entry(registry@, e) implies has_entry(old(registry)@, e) || e.1 == location_id@ by {
            let i = choose|i: int| 0 <= i < registry@.len() && #[trigger] registry@[i] == e;
            if i < old(registry)@.len() {
                assert(old(registry)@[i] == e);
            }
        }
        assert forall|x: Seq<char>| has_id(registry@, x) implies has_id(old(registry)@, x) || x == fresh@ by {
            let i = choose|i: int| 0 <= i < registry@.len() && (#[trigger] registry@[i]).0 == x;
            if i < old(registry)@.len() {
                assert(old(registry)@[i] == registry@[i]);
            }
        }
    }
    let name = match preferred_name {
        Some(n) => n.to_owned(),
        None => directory_name(path),
    };
    Ok(DirectoryRefDto { id, location_id: location_id.to_owned(), name, display_path: display_path(path) })
}

/// Identifiers that can be registered: no two are equal and none is in use in `registry`.
pub open spec fn fresh_ids(ids: Seq<Seq<char>>, registry: Seq<PathEntry>) -> bool {
    &&& distinct_texts(ids)
    &&& forall|j: int| 0 <= j < ids.len() ==> !has_id(registry, #[trigger] ids[j])
}

/// No two texts are equal.
pub open spec fn distinct_texts(v: Seq<Seq<char>>) -> bool {
    forall|a: int, b: int| 0 <= a < v.len() && 0 <= b < v.len() && a != b ==> v[a] != v[b]
}

/// The roots that become locations: each directory whose path no earlier kept root has.
pub open spec fn kept_roots(roots: Seq<LocalRoot>, dirs: Seq<bool>) -> Seq<LocalRoot>
    decreases roots.len(),
{
    if roots.len() == 0 || dirs.len() == 0 {
        Seq::empty()
    } else {
        let prev = kept_roots(roots.drop_last(), dirs.drop_last());
        let r = roots.last();
        if dirs.last() && !(exists|j: int| 0 <= j < prev.len() && (#[trigger] prev[j]).path@ == r.path@) {
            prev.push(r)
        } else {
            prev
        }
    }
}

/// Later roots never drop a root kept among the earlier ones.
pub proof fn lemma_kept_roots_prefix(roots: Seq<LocalRoot>, dirs: Seq<bool>, i: int)
    requires
        dirs.len() == roots.len(),
        0 <= i <= roots.len(),
    ensures
        kept_roots(roots.take(i), dirs.take(i)).len() <= kept_roots(roots, dirs).len(),
    decreases roots.len(),
{
    if i == roots.len() {
        assert(roots.take(i) =~= roots);
        assert(dirs.take(i) =~= dirs);
    } else {
        assert(roots.drop_last().take(i) =~= roots.take(i));
        assert(dirs.drop_last().take(i) =~= dirs.take(i));
        lemma_kept_roots_prefix(roots.drop_last(), dirs.drop_last(), i);
    }
}

pub open spec fn no_home_error(e: ExplorerError) -> bool {
    e matches ExplorerError::Io { message, kind } && kind == IoErrorKind::NotFound
        && message@ == "Explora could not find an available local home directory."@
}

/// The location of a standard place whose root is registered as `root_id`.
pub open spec fn local_location_of(r: LocalRoot, root_id: Seq<char>) -> LocationView {
    LocationView {
        id: r.id@,
        name: r.name@,
        backend: LocationBackend::Local,
        kind: "local"@,
        role: r.role,
        status: "available"@,
        display_path: display_text(r.path@),
        detail: "Local"@,
        root: (root_id, r.id@, r.name@, display_text(r.path@)),
        synced_folder: None,
    }
}

/// The volumes that become locations: those that are directories.
pub open spec fn kept_volumes(volumes: Seq<VolumeRoot>, dirs: Seq<bool>) -> Seq<VolumeRoot>
    decreases volumes.len(),
{
    if volumes.len() == 0 || dirs.len() == 0 {
        Seq::empty()
    } else {
        let prev = kept_volumes(volumes.drop_last(), dirs.drop_last());
        if dirs.last() {
            prev.push(volumes.last())
        } else {
            prev
        }
    }
}

/// The location of a volume whose root is registered as `root_id`.
pub open spec fn volume_location_of(v: VolumeRoot, root_id: Seq<char>) -> LocationView {
    LocationView {
        id: v.id@,
        name: v.name@,
        backend: LocationBackend::Local,
        kind: "volume"@,
        role: LocationRole::Volume,
        status: "available"@,
        display_path: display_text(v.path@),
        detail: v.detail@,
        root: (root_id, v.id@, v.name@, display_text(v.path@)),
        synced_folder: None,
    }
}

pub open spec fn not_volume() -> spec_fn(LocationView) -> bool {
    |l: LocationView| l.kind != "volume"@
}


/// The index of the first location with `id`, looking from `i` on.
pub open spec fn first_location(locs: Seq<LocationView>, id: Seq<char>, i: int) -> Option<int>
    decreases locs.len() - i,
{
    if i < 0 || i >= locs.len() {
        None
    } else if locs[i].id == id {
        Some(i)
    } else {
        first_location(locs, id, i + 1)
    }
}

/// The path of the crumb with `k` components of a listing of `path` (`n` components).
pub open spec fn crumb_path(path: Seq<char>, n: int, k: int) -> Seq<char> {
    if k == n { path } else { ancestor(path, k) }
}

/// A directory reference registered in `registry` under `location` for `path`, named `name`.
pub open spec fn registered_ref(d: DirectoryRefDto, registry: Seq<PathEntry>, location: Seq<char>, path: Seq<char>, name: Seq<char>) -> bool {
    &&& has_entry(registry, (d.id@, location, path))
    &&& d.location_id@ == location
    &&& d.name@ == name
    &&& d.display_path@ == display_text(path)
}

/// The start of a listing of `path` within `root` of the location named `location_name`:
/// the directory itself, its parent unless it is the root, and the trail of directories
/// from the root (shown under the location's name) down to it.
pub open spec fn listing_started(
    e: DirectoryListingEvent,
    registry: Seq<PathEntry>,
    location: Seq<char>,
    location_name: Seq<char>,
    root: Seq<char>,
    path: Seq<char>,
) -> bool {
    let n = components(path).len() as int;
    let m = components(root).len() as int;
    &&& e matches DirectoryListingEvent::Started { directory, parent, breadcrumbs }
    &&& registered_ref(directory, registry, location, path, directory_name_of(path))
    &&& (n > m ==> parent is Some && registered_ref(parent->0, registry, location, ancestor(path, n - 1), directory_name_of(ancestor(path, n - 1))))
    &&& (n <= m ==> parent is None)
    &&& breadcrumbs@.len() == n - m + 1
    &&& forall|j: int| 0 <= j < breadcrumbs@.len() ==> {
        let k = m + j;
        let name = if k == m { location_name } else { directory_name_of(crumb_path(path, n, k)) };
        &&& (#[trigger] breadcrumbs@[j]).label@ == name
        &&& registered_ref(breadcrumbs@[j].directory, registry, location, crumb_path(path, n, k), name)
    }
}

/// Whether every directory a listing of `path` within `root` refers to (the directory,
/// its parent below the root, and each crumb from the root down) is registered already.
pub open spec fn listing_paths_known(registry: Seq<PathEntry>, location: Seq<char>, root: Seq<char>, path: Seq<char>) -> bool {
    let n = components(path).len() as int;
    let m = components(root).len() as int;
    &&& has_key(registry, location, path)
    &&& (n > m ==> has_key(registry, location, ancestor(path, n - 1)))
    &&& forall|k: int| m <= k <= n ==> has_key(registry, location, #[trigger] crumb_path(path, n, k))
}

/// The local locations and the registry behind their references.
pub struct LocalFilesystem {
    registry: PathRegistry,
    locations: Vec<LocationSummaryDto>,
}

impl LocalFilesystem {
    pub closed spec fn registry(&self) -> Seq<PathEntry> {
        self.registry@
    }

    pub closed spec fn locs(&self) -> Seq<LocationView> {
        location_views(self.locations@)
    }

    /// Every location's root reference belongs to it and shows its path.
    pub open spec fn wf(&self) -> bool {
        &&& registry_wf(self.registry())
        &&& forall|i: int| 0 <= i < self.locs().len() ==> (#[trigger] self.locs()[i]).root.1 == self.locs()[i].id
            && self.locs()[i].root.3 == self.locs()[i].display_path
    }

    /// The standard places that are directories, each path once. With none, there is no
    /// home to offer and the filesystem is refused. Whether a place is a directory is the
    /// disk's answer; what follows the answers is `new_with`.
    pub fn new<D: LocalDisk>(roots: Vec<LocalRoot>, disk: &D) -> (r: Result<LocalFilesystem, ExplorerError>)
        ensures
            exists|dirs: Seq<bool>| #![trigger kept_roots(roots@, dirs)] dirs.len() == roots@.len() && match r {
                Ok(fs) => {
                    let kept = kept_roots(roots@, dirs);
                    &&& fs.wf()
                    &&& kept.len() > 0
                    &&& fs.locs().len() == kept.len()
                    &&& forall|j: int| 0 <= j < kept.len() ==> (#[trigger] fs.locs()[j]) == local_location_of(kept[j], fs.locs()[j].root.0)
                        && has_entry(fs.registry(), (fs.locs()[j].root.0, kept[j].id@, kept[j].path@))
                },
                Err(e) => (e == ExplorerError::StateUnavailable && kept_roots(roots@, dirs).len() >= 2)
                    || (kept_roots(roots@, dirs).len() == 0 && no_home_error(e)),
            },
    {
        let mut dirs: Vec<bool> = Vec::new();
        let mut ids: Vec<String> = Vec::new();
        let mut i: usize = 0;
        while i < roots.len()
            invariant
                i <= roots.len(),
                dirs@.len() == i,
                ids@.len() == i,
            decreases roots.len() - i,
        {
            dirs.push(disk.is_dir(roots[i].path.as_str()));
            ids.push(random_id());
            i = i + 1;
        }
        let r = Self::new_with(roots, dirs, ids);
        r
    }

    /// The filesystem for the disk's answers `dirs` (whether each root is a directory) and
    /// the freshly drawn identifiers `ids` (one for each root): the roots that are
    /// directories become locations, each path once, root `k` registered under `ids[k]`.
    /// With no such root the filesystem is refused; with distinct identifiers it is
    /// otherwise always built.
    pub fn new_with(roots: Vec<LocalRoot>, dirs: Vec<bool>, ids: Vec<String>) -> (r: Result<LocalFilesystem, ExplorerError>)
        requires
            dirs@.len() == roots@.len(),
            ids@.len() == roots@.len(),
        ensures
            match r {
                Ok(fs) => {
                    let kept = kept_roots(roots@, dirs@);
                    &&& fs.wf()
                    &&& kept.len() > 0
                    &&& fs.locs().len() == kept.len()
                    &&& forall|j: int| 0 <= j < kept.len() ==> (#[trigger] fs.locs()[j]) == local_location_of(kept[j], fs.locs()[j].root.0)
                        && has_entry(fs.registry(), (fs.locs()[j].root.0, kept[j].id@, kept[j].path@))
                },
                Err(e) => (e == ExplorerError::StateUnavailable && !distinct_texts(views(ids@)) && kept_roots(roots@, dirs@).len() >= 2)
                    || (kept_roots(roots@, dirs@).len() == 0 && no_home_error(e)),
            },
    {
        let mut registry = PathRegistry::new();
        let mut locations: Vec<LocationSummaryDto> = Vec::new();
        let mut i: usize = 0;
        while i < roots.len()
            invariant
                i <= roots.len(),
                dirs@.len() == roots@.len(),
                ids@.len() == roots@.len(),
                registry_wf(registry@),
                registry@.len() > 0 ==> locations@.len() > 0,
                forall|x: Seq<char>| has_id(registry@, x) ==> exists|j: int| 0 <= j < i && (#[trigger] ids@[j])@ == x,
                location_views(locations@).len() == kept_roots(roots@.take(i as int), dirs@.take(i as int)).len(),
                forall|j: int| 0 <= j < locations@.len() ==> #[trigger] location_views(locations@)[j] == local_location_of(
                    kept_roots(roots@.take(i as int), dirs@.take(i as int))[j], location_views(locations@)[j].root.0)
                    && has_entry(registry@, (location_views(locations@)[j].root.0, kept_roots(roots@.take(i as int), dirs@.take(i as int))[j].id@,
                    kept_roots(roots@.take(i as int), dirs@.take(i as int))[j].path@)),
            decreases roots.len() - i,
        {
            let ghost kept_before = kept_roots(roots@.take(i as int), dirs@.take(i as int));
            let root = &roots[i];
            let is_dir = dirs[i];
            let mut seen = false;
            let mut k: usize = 0;
            while k < locations.len()
                invariant
                    k <= locations.len(),
                    location_views(locations@).len() == kept_before.len(),
                    forall|j: int| 0 <= j < locations@.len() ==> (#[trigger] location_views(locations@)[j]).display_path == kept_before[j].path@,
                    seen <==> exists|j: int| 0 <= j < k && (#[trigger] kept_before[j]).path@ == root.path@,
                decreases locations.len() - k,
            {
                assert(location_views(locations@)[k as int] == location_view(locations@[k as int]));
                if str_eq(locations[k].display_path.as_str(), root.path.as_str()) {
                    seen = true;
                }
                k = k + 1;
            }
            proof {
                assert(roots@.take(i + 1).drop_last() =~= roots@.take(i as int));
                assert(roots@.take(i + 1).last() == roots@[i as int]);
                assert(dirs@.take(i + 1).drop_last() =~= dirs@.take(i as int));
                assert(dirs@.take(i + 1).last() == dirs@[i as int]);
            }
            if is_dir && !seen {
                let ghost reg_before = registry@;
                let fresh = ids[i].clone();
                let directory = match directory_ref_with(&mut registry, root.path.as_str(), root.id.as_str(), Some(root.name.as_str()), fresh) {
                    Ok(d) => d,
                    Err(e) => {
                        proof {
                            let j = choose|j: int| 0 <= j < i && (#[trigger] ids@[j])@ == ids@[i as int]@;
                            assert(views(ids@)[j] == views(ids@)[i as int]);
                            assert(kept_roots(roots@.take(i + 1), dirs@.take(i + 1)) == kept_before.push(roots@[i as int]));
                            lemma_kept_roots_prefix(roots@, dirs@, i + 1);
                        }
                        return Err(e);
                    },
                };
                let ghost prev = locations@;
                locations.push(LocationSummaryDto {
                    id: root.id.clone(),
                    name: root.name.clone(),
                    backend: LocationBackend::Local,
                    kind: "local".to_owned(),
                    role: root.role,
                    status: "available".to_owned(),
                    display_path: copy_directory(&directory).display_path,
                    detail: "Local".to_owned(),
                    root: directory,
                    synced_folder: None,
                });
                proof {
                    assert(location_views(locations@) =~= location_views(prev).push(location_view(locations@.last())));
                    assert forall|x: Seq<char>| has_id(registry@, x) implies exists|j: int| 0 <= j < i + 1 && (#[trigger] ids@[j])@ == x by {
                        if !has_id(reg_before, x) {
                            assert(x == ids@[i as int]@);
                        }
                    }
                }
            }
            i = i + 1;
        }
        assert(roots@.take(roots.len() as int) =~= roots@);
        assert(dirs@.take(dirs.len() as int) =~= dirs@);
        if locations.len() == 0 {
            return Err(ExplorerError::Io {
                message: "Explora could not find an available local home directory.".to_owned(),
                kind: IoErrorKind::NotFound,
            });
        }
        Ok(LocalFilesystem { registry, locations })
    }

    /// The locations in order.
    pub fn locations(&self) -> (r: Result<Vec<LocationSummaryDto>, ExplorerError>)
        ensures
            r is Ok,
            location_views(r->Ok_0@) == self.locs(),
    {
        Ok(copy_locations(&self.locations))
    }

    /// Starts listing directory `directory_id` of location `location_id`: both references
    /// must resolve under that location and the directory must lie within the location's
    /// root. Returns the start event and the directory's path, to be read.
    pub fn listing_start(&mut self, directory_id: &str, location_id: &str) -> (r: Result<(DirectoryListingEvent, String), ExplorerError>)
        requires
            old(self).wf(),
        ensures
            final(self).wf(),
            final(self).locs() == old(self).locs(),
            forall|e: PathEntry| has_entry(old(self).registry(), e) ==> has_entry(final(self).registry(), e),
            match first_location(old(self).locs(), location_id@, 0) {
                None => r == Err::<(DirectoryListingEvent, String), ExplorerError>(ExplorerError::InvalidReference),
                Some(i) => {
                    let root = resolution(old(self).registry(), location_id@, old(self).locs()[i].root.0);
                    let path = resolution(old(self).registry(), location_id@, directory_id@);
                    if root is None || path is None || !path_within(path->0, root->0) {
                        r == Err::<(DirectoryListingEvent, String), ExplorerError>(ExplorerError::InvalidReference)
                    } else {
                        &&& match r {
                            Ok((event, p)) => p@ == path->0 && listing_started(event, final(self).registry(), location_id@,
                                old(self).locs()[i].name, root->0, path->0),
                            Err(e) => e == ExplorerError::StateUnavailable,
                        }
                        &&& listing_paths_known(old(self).registry(), location_id@, root->0, path->0) ==> r is Ok
                            && final(self).registry() == old(self).registry()
                    }
                },
            },
    {
        let mut index: usize = 0;
        let ghost locs = self.locs();
        while index < self.locations.len()
            invariant
                index <= self.locations.len(),
                locs == self.locs(),
                first_location(locs, location_id@, 0) == first_location(locs, location_id@, index as int),
            ensures
                index <= self.locations.len(),
                locs == self.locs(),
                first_location(locs, location_id@, 0) == first_location(locs, location_id@, index as int),
                index < self.locations.len() ==> locs[index as int].id == location_id@,
            decreases self.locations.len() - index,
        {
            assert(locs[index as int].id == self.locations@[index as int].id@);
            if str_eq(self.locations[index].id.as_str(), location_id) {
                break;
            }
            index = index + 1;
        }
        if index >= self.locations.len() {
            return Err(ExplorerError::InvalidReference);
        }
        assert(first_location(locs, location_id@, 0) == Some(index as int));
        assert(locs[index as int] == location_view(self.locations@[index as int]));
        let root_id = self.locations[index].root.id.clone();
        let location_name = self.locations[index].name.clone();
        let root = match self.registry.resolve(location_id, root_id.as_str()) {
            Ok(p) => p,
            Err(e) => {
                return Err(e);
            },
        };
        let path = match self.registry.resolve(location_id, directory_id) {
            Ok(p) => p,
            Err(e) => {
                return Err(e);
            },
        };
        if !within_root(path.as_str(), root.as_str()) {
            return Err(ExplorerError::InvalidReference);
        }
        let ghost start = self.registry@;
        let ghost known = listing_paths_known(start, location_id@, root@, path@);
        let directory = match directory_ref(&mut self.registry, path.as_str(), location_id, None) {
            Ok(d) => d,
            Err(e) => {
                return Err(e);
            },
        };
        let n = component_count(path.as_str());
        let m = component_count(root.as_str());
        let parent = if n > m {
            let above = ancestor_path(path.as_str(), n - 1);
            match directory_ref(&mut self.registry, above.as_str(), location_id, None) {
                Ok(d) => Some(d),
                Err(e) => {
                    return Err(e);
                },
            }
        } else {
            None
        };
        let mut breadcrumbs: Vec<BreadcrumbSegmentDto> = Vec::new();
        let mut k: usize = m;
        loop
            invariant_except_break
                breadcrumbs@.len() == k - m,
            invariant
                self.locs() == locs,
                locs == old(self).locs(),
                start == old(self).registry(),
                first_location(old(self).locs(), location_id@, 0) == Some(index as int),
                resolution(start, location_id@, locs[index as int].root.0) == Some(root@),
                resolution(start, location_id@, directory_id@) == Some(path@),
                path_within(path@, root@),
                forall|i: int| 0 <= i < locs.len() ==> (#[trigger] locs[i]).root.1 == locs[i].id && locs[i].root.3
                    == locs[i].display_path,
                index < locs.len(),
                m <= k <= n,
                n == components(path@).len(),
                m == components(root@).len(),
                location_name@ == locs[index as int].name,
                registry_wf(self.registry@),
                forall|j: int| 0 <= j < breadcrumbs@.len() ==> {
                    let kk = m + j;
                    let name = if kk == m { location_name@ } else { directory_name_of(crumb_path(path@, n as int, kk)) };
                    &&& (#[trigger] breadcrumbs@[j]).label@ == name
                    &&& registered_ref(breadcrumbs@[j].directory, self.registry@, location_id@, crumb_path(path@, n as int, kk), name)
                },
                forall|e: PathEntry| has_entry(start, e) ==> has_entry(self.registry@, e),
                registered_ref(directory, self.registry@, location_id@, path@, directory_name_of(path@)),
                n > m ==> parent is Some && registered_ref(parent->0, self.registry@, location_id@, ancestor(path@, n - 1),
                    directory_name_of(ancestor(path@, n - 1))),
                n <= m ==> parent is None,
                known == listing_paths_known(start, location_id@, root@, path@),
                known ==> self.registry@ == start,
            ensures
                self.locs() == locs,
                known ==> self.registry@ == start,
                registry_wf(self.registry@),
                breadcrumbs@.len() == n - m + 1,
                forall|j: int| 0 <= j < breadcrumbs@.len() ==> {
                    let kk = m + j;
                    let name = if kk == m { location_name@ } else { directory_name_of(crumb_path(path@, n as int, kk)) };
                    &&& (#[trigger] breadcrumbs@[j]).label@ == name
                    &&& registered_ref(breadcrumbs@[j].directory, self.registry@, location_id@, crumb_path(path@, n as int, kk), name)
                },
                forall|e: PathEntry| has_entry(start, e) ==> has_entry(self.registry@, e),
                registered_ref(directory, self.registry@, location_id@, path@, directory_name_of(path@)),
                n > m ==> parent is Some && registered_ref(parent->0, self.registry@, location_id@, ancestor(path@, n - 1),
                    directory_name_of(ancestor(path@, n - 1))),
                n <= m ==> parent is None,
            decreases n - k,
        {
            let crumb = if k == n {
                path.clone()
            } else {
                ancestor_path(path.as_str(), k)
            };
            let preferred: Option<&str> = if k == m {
                Some(location_name.as_str())
            } else {
                None
            };
            assert(crumb@ == crumb_path(path@, n as int, k as int));
            assert(known ==> has_key(self.registry@, location_id@, crumb_path(path@, n as int, k as int)));
            let d = match directory_ref(&mut self.registry, crumb.as_str(), location_id, preferred) {
                Ok(d) => d,
                Err(e) => {
                    return Err(e);
                },
            };
            let label = d.name.clone();
            let ghost old_crumbs = breadcrumbs@;
            breadcrumbs.push(BreadcrumbSegmentDto { label, directory: d });
            assert forall|j: int| 0 <= j < breadcrumbs@.len() implies {
                let kk = m + j;
                let name = if kk == m { location_name@ } else { directory_name_of(crumb_path(path@, n as int, kk)) };
                &&& (#[trigger] breadcrumbs@[j]).label@ == name
                &&& registered_ref(breadcrumbs@[j].directory, self.registry@, location_id@, crumb_path(path@, n as int, kk), name)
            } by {
                if j < old_crumbs.len() {
                    assert(breadcrumbs@[j] == old_crumbs[j]);
                }
            }
            if k == n {
                break;
            }
            k = k + 1;
        }
        let event = DirectoryListingEvent::Started { directory, parent, breadcrumbs };
        Ok((event, path))
    }

    /// Describes an entry found while listing location `location_id`, registering its
    /// reference under that location.
    pub fn describe_entry(
        &mut self,
        location_id: &str,
        path: &str,
        name: String,
        facts: LocalEntryFacts,
        availability: crate::filesystem::ContentAvailability,
        is_bundle: bool,
    ) -> (r: Result<crate::filesystem::FileEntrySummaryDto, ExplorerError>)
        requires
            old(self).wf(),
        ensures
            final(self).wf(),
            final(self).locs() == old(self).locs(),
            forall|e: PathEntry| has_entry(old(self).registry(), e) ==> has_entry(final(self).registry(), e),
            r is Err ==> r == Err::<crate::filesystem::FileEntrySummaryDto, ExplorerError>(ExplorerError::StateUnavailable),
            has_key(old(self).registry(), location_id@, path@) ==> r is Ok && final(self).registry() == old(self).registry(),
            r is Ok ==> local_entry_described(r->Ok_0, final(self).registry(), location_id@, path@, name@, facts,
                availability, is_bundle),
    {
        describe_local_entry(&mut self.registry, location_id, path, name, facts, availability, is_bundle)
    }

    /// The path behind a reference, provided its location is offered and the reference was
    /// registered under it.
    pub fn resolve_preview_path(&self, entry_id: &str, location_id: &str) -> (r: Result<String, ExplorerError>)
        requires
            self.wf(),
        ensures
            !(exists|i: int| 0 <= i < self.locs().len() && (#[trigger] self.locs()[i]).id == location_id@) ==> r
                == Err::<String, ExplorerError>(ExplorerError::InvalidReference),
            (exists|i: int| 0 <= i < self.locs().len() && (#[trigger] self.locs()[i]).id == location_id@) ==> match resolution(
                self.registry(),
                location_id@,
                entry_id@,
            ) {
                Some(p) => r is Ok && r->Ok_0@ == p,
                None => r == Err::<String, ExplorerError>(ExplorerError::InvalidReference),
            },
    {
        let mut found = false;
        let mut i: usize = 0;
        while i < self.locations.len()
            invariant
                i <= self.locations.len(),
                found <==> exists|j: int| 0 <= j < i && (#[trigger] self.locs()[j]).id == location_id@,
            decreases self.locations.len() - i,
        {
            assert(self.locs()[i as int] == location_view(self.locations@[i as int]));
            if str_eq(self.locations[i].id.as_str(), location_id) {
                found = true;
            }
            i = i + 1;
        }
        if !found {
            return Err(ExplorerError::InvalidReference);
        }
        self.registry.resolve(location_id, entry_id)
    }
}

/// The last volume location with `id`, if any.
pub open spec fn previous_volume(locs: Seq<LocationView>, id: Seq<char>) -> Option<LocationView>
    decreases locs.len(),
{
    if locs.len() == 0 {
        None
    } else if locs.last().kind == "volume"@ && locs.last().id == id {
        Some(locs.last())
    } else {
        previous_volume(locs.drop_last(), id)
    }
}

pub proof fn lemma_previous_volume(locs: Seq<LocationView>, id: Seq<char>)
    ensures
        previous_volume(locs, id) is Some ==> previous_volume(locs, id)->0.id == id
            && previous_volume(locs, id)->0.kind == "volume"@,
    decreases locs.len(),
{
    if locs.len() > 0 && !(locs.last().kind == "volume"@ && locs.last().id == id) {
        lemma_previous_volume(locs.drop_last(), id);
    }
}

/// A volume keeps its root reference when it was mounted before at the same path.
pub open spec fn keeps_root(locs: Seq<LocationView>, v: VolumeRoot) -> bool {
    previous_volume(locs, v.id@) is Some && previous_volume(locs, v.id@)->0.root.3 == display_text(v.path@)
}

pub open spec fn distinct_volume_ids(vs: Seq<VolumeRoot>) -> bool {
    forall|a: int, b: int| 0 <= a < vs.len() && 0 <= b < vs.len() && a != b ==> (#[trigger] vs[a]).id@ != (#[trigger] vs[b]).id@
}

/// The summary of volume `v` among `summaries`, as replacing volumes produces it.
pub open spec fn volume_summary_ok(
    old_locs: Seq<LocationView>,
    registry: Seq<PathEntry>,
    v: VolumeRoot,
    s: LocationView,
    distinct: bool,
) -> bool {
    &&& s == volume_location_of(v, s.root.0)
    &&& if keeps_root(old_locs, v) {
        s.root.0 == previous_volume(old_locs, v.id@)->0.root.0
    } else {
        distinct ==> has_entry(registry, (s.root.0, v.id@, v.path@))
    }
}

/// Earlier summaries stay valid when the registry only loses entries of a location that is
/// not theirs (with distinct ids, the next volume's).
pub proof fn lemma_summaries_persist(
    old_locs: Seq<LocationView>,
    reg_a: Seq<PathEntry>,
    reg_b: Seq<PathEntry>,
    kept_before: Seq<VolumeRoot>,
    sums: Seq<LocationView>,
    v: VolumeRoot,
)
    requires
        sums.len() == kept_before.len(),
        forall|j: int| 0 <= j < sums.len() ==> volume_summary_ok(old_locs, reg_a, kept_before[j], #[trigger] sums[j],
            distinct_volume_ids(kept_before)),
        forall|e: PathEntry| has_entry(reg_a, e) && e.1 != v.id@ ==> has_entry(reg_b, e),
    ensures
        forall|j: int| 0 <= j < sums.len() ==> volume_summary_ok(old_locs, reg_b, kept_before.push(v)[j], #[trigger] sums[j],
            distinct_volume_ids(kept_before.push(v))),
{
    let kept_now = kept_before.push(v);
    assert forall|j: int| 0 <= j < sums.len() implies volume_summary_ok(old_locs, reg_b, kept_now[j], #[trigger] sums[j],
        distinct_volume_ids(kept_now)) by {
        assert(kept_now[j] == kept_before[j]);
        if distinct_volume_ids(kept_now) {
            assert(distinct_volume_ids(kept_before)) by {
                assert forall|a: int, b: int| 0 <= a < kept_before.len() && 0 <= b < kept_before.len() && a != b
                    implies (#[trigger] kept_before[a]).id@ != (#[trigger] kept_before[b]).id@ by {
                    assert(kept_now[a] == kept_before[a] && kept_now[b] == kept_before[b]);
                }
            }
            assert(kept_now[kept_before.len() as int] == v);
            assert(kept_before[j].id@ != v.id@);
        }
    }
}

impl LocalFilesystem {
    fn previous_volume_index(previous: &Vec<LocationSummaryDto>, id: &str) -> (r: Option<usize>)
        ensures
            match r {
                Some(k) => k < previous@.len() && previous_volume(location_views(previous@), id@) == Some(location_view(previous@[k as int])),
                None => previous_volume(location_views(previous@), id@) is None,
            },
    {
        let ghost ls = location_views(previous@);
        let mut k = previous.len();
        while k > 0 && !(str_eq(previous[k - 1].kind.as_str(), "volume") && str_eq(previous[k - 1].id.as_str(), id))
            invariant
                k <= previous.len(),
                ls == location_views(previous@),
                previous_volume(ls, id@) == previous_volume(ls.take(k as int), id@),
            decreases k,
        {
            assert(ls.take(k as int).drop_last() =~= ls.take(k - 1));
            assert(ls.take(k as int).last() == location_view(previous@[k - 1]));
            k = k - 1;
        }
        if k == 0 {
            assert(ls.take(0) =~= Seq::<LocationView>::empty());
            None
        } else {
            assert(ls.take(k as int).last() == location_view(previous@[k - 1]));
            Some(k - 1)
        }
    }

    /// Replaces the mounted volumes with those of `volumes` that are directories. A volume
    /// mounted before at the same path keeps its root reference; the references of any other
    /// volume location are forgotten.
    pub fn replace_volumes<D: LocalDisk>(&mut self, volumes: Vec<VolumeRoot>, disk: &D) -> (r: Result<Vec<LocationSummaryDto>, ExplorerError>)
        requires
            old(self).wf(),
        ensures
            final(self).wf(),
            r is Err ==> r == Err::<Vec<LocationSummaryDto>, ExplorerError>(ExplorerError::StateUnavailable),
            exists|dirs: Seq<bool>| #![trigger kept_volumes(volumes@, dirs)] dirs.len() == volumes@.len() && ((forall|j: int|
                0 <= j < volumes@.len() && dirs[j] ==> keeps_root(old(self).locs(), #[trigger] volumes@[j])) ==> r is Ok) && (r is Ok
                ==> ({
                let kept = kept_volumes(volumes@, dirs);
                let s = location_views(r->Ok_0@);
                &&& s.len() == kept.len()
                &&& forall|j: int| 0 <= j < s.len() ==> volume_summary_ok(old(self).locs(), final(self).registry(), kept[j], #[trigger] s[j],
                    distinct_volume_ids(kept))
                &&& final(self).locs() == old(self).locs().filter(not_volume()) + s
            })),
    {
        let mut answers: Vec<bool> = Vec::new();
        let mut ids: Vec<String> = Vec::new();
        let mut i: usize = 0;
        while i < volumes.len()
            invariant
                i <= volumes.len(),
                answers@.len() == i,
                ids@.len() == i,
            decreases volumes.len() - i,
        {
            answers.push(disk.is_dir(volumes[i].path.as_str()));
            ids.push(random_id());
            i = i + 1;
        }
        let ghost asked = answers@;
        let r = self.replace_volumes_with(volumes, answers, ids);
        assert(kept_volumes(volumes@, asked) == kept_volumes(volumes@, asked));
        r
    }

    /// Replaces the volume locations for the disk's answers `answers` (whether each volume
    /// is a directory) and the freshly drawn identifiers `ids` (one for each volume, used
    /// for a volume whose root reference is new). With identifiers that are distinct and
    /// not in use, the replacement always succeeds.
    pub fn replace_volumes_with(&mut self, volumes: Vec<VolumeRoot>, answers: Vec<bool>, ids: Vec<String>) -> (r: Result<
        Vec<LocationSummaryDto>,
        ExplorerError,
    >)
        requires
            old(self).wf(),
            answers@.len() == volumes@.len(),
            ids@.len() == volumes@.len(),
        ensures
            final(self).wf(),
            r is Err ==> r == Err::<Vec<LocationSummaryDto>, ExplorerError>(ExplorerError::StateUnavailable),
            fresh_ids(views(ids@), old(self).registry()) ==> r is Ok,
            (forall|j: int| 0 <= j < volumes@.len() && answers@[j] ==> keeps_root(old(self).locs(), #[trigger] volumes@[j]))
                ==> r is Ok,
            r is Ok ==> ({
                let kept = kept_volumes(volumes@, answers@);
                let s = location_views(r->Ok_0@);
                &&& s.len() == kept.len()
                &&& forall|j: int| 0 <= j < s.len() ==> volume_summary_ok(old(self).locs(), final(self).registry(), kept[j], #[trigger] s[j],
                    distinct_volume_ids(kept))
                &&& final(self).locs() == old(self).locs().filter(not_volume()) + s
            }),
    {
        let ghost old_reg = self.registry();
        let ghost old_locs = self.locs();
        let ghost remounted = forall|j: int| 0 <= j < volumes@.len() && answers@[j] ==> keeps_root(old_locs, #[trigger] volumes@[j]);
        let mut previous: Vec<LocationSummaryDto> = Vec::new();
        let mut others: Vec<LocationSummaryDto> = Vec::new();
        let mut i: usize = 0;
        proof {
            reveal(Seq::filter);
        }
        assert(old_locs.take(0) =~= Seq::<LocationView>::empty());
        while i < self.locations.len()
            invariant
                i <= self.locations.len(),
                old_locs == self.locs(),
                location_views(previous@) == old_locs.take(i as int),
                location_views(others@) == old_locs.take(i as int).filter(not_volume()),
                forall|k: int| 0 <= k < old_locs.len() ==> (#[trigger] old_locs[k]).root.1 == old_locs[k].id
                    && old_locs[k].root.3 == old_locs[k].display_path,
                forall|k: int| 0 <= k < others@.len() ==> (#[trigger] location_views(others@)[k]).root.1 == location_views(others@)[k].id
                    && location_views(others@)[k].root.3 == location_views(others@)[k].display_path,
            decreases self.locations.len() - i,
        {
            proof {
                reveal(Seq::filter);
                assert(old_locs.take(i + 1).drop_last() =~= old_locs.take(i as int));
                assert(old_locs[i as int] == location_view(self.locations@[i as int]));
            }
            let l = crate::filesystem::copy_location_summary(&self.locations[i]);
            let ghost prev_p = previous@;
            previous.push(l);
            assert(location_views(previous@) =~= location_views(prev_p).push(old_locs[i as int]));
            if !str_eq(self.locations[i].kind.as_str(), "volume") {
                let m = crate::filesystem::copy_location_summary(&self.locations[i]);
                let ghost prev_o = others@;
                others.push(m);
                assert(location_views(others@) =~= location_views(prev_o).push(old_locs[i as int]));
            }
            i = i + 1;
        }
        assert(old_locs.take(old_locs.len() as int) =~= old_locs);
        assert(location_views(previous@) == old_locs);
        self.locations = others;
        let ghost base = location_views(self.locations@);
        let mut summaries: Vec<LocationSummaryDto> = Vec::new();
        let ghost mut dirs: Seq<bool> = Seq::empty();
        let mut v: usize = 0;
        while v < volumes.len()
            invariant
                v <= volumes.len(),
                dirs.len() == v,
                answers@.len() == volumes@.len(),
                ids@.len() == volumes@.len(),
                dirs == answers@.take(v as int),
                old_reg == old(self).registry(),
                remounted == forall|j: int| 0 <= j < volumes@.len() && answers@[j] ==> keeps_root(old_locs, #[trigger] volumes@[j]),
                old_locs == old(self).locs(),
                forall|x: Seq<char>| has_id(self.registry(), x) ==> has_id(old_reg, x) || exists|j: int| 0 <= j < v && (#[trigger] ids@[j])@ == x,
                registry_wf(self.registry()),
                location_views(previous@) == old_locs,
                location_views(self.locations@) == base,
                forall|k: int| 0 <= k < base.len() ==> (#[trigger] base[k]).root.1 == base[k].id && base[k].root.3 == base[k].display_path,
                forall|k: int| 0 <= k < old_locs.len() ==> (#[trigger] old_locs[k]).root.1 == old_locs[k].id
                    && old_locs[k].root.3 == old_locs[k].display_path,
                location_views(summaries@).len() == kept_volumes(volumes@.take(v as int), dirs).len(),
                forall|j: int| 0 <= j < summaries@.len() ==> volume_summary_ok(old_locs, self.registry(),
                    kept_volumes(volumes@.take(v as int), dirs)[j], #[trigger] location_views(summaries@)[j],
                    distinct_volume_ids(kept_volumes(volumes@.take(v as int), dirs))),
            decreases volumes.len() - v,
        {
            let ghost kept_before = kept_volumes(volumes@.take(v as int), dirs);
            let volume = &volumes[v];
            let is_dir = answers[v];
            proof {
                assert(volumes@.take(v + 1).drop_last() =~= volumes@.take(v as int));
                assert(volumes@.take(v + 1).last() == volumes@[v as int]);
                let nd = dirs.push(is_dir);
                assert(nd.drop_last() =~= dirs);
                assert(nd =~= answers@.take(v + 1));
                dirs = nd;
            }
            if is_dir {
                let display = display_path(volume.path.as_str());
                let reuse = match LocalFilesystem::previous_volume_index(&previous, volume.id.as_str()) {
                    Some(p) => {
                        if str_eq(previous[p].root.display_path.as_str(), display.as_str()) {
                            Some(p)
                        } else {
                            None
                        }
                    },
                    None => None,
                };
                let ghost reg_before = self.registry();
                let directory = match reuse {
                    Some(p) => {
                        let existing = &previous[p];
                        proof {
                            assert(old_locs[p as int] == location_view(previous@[p as int]));
                            lemma_previous_volume(old_locs, volume.id@);
                            assert(keeps_root(old_locs, *volume));
                        }
                        DirectoryRefDto {
                            id: existing.root.id.clone(),
                            location_id: existing.root.location_id.clone(),
                            name: volume.name.clone(),
                            display_path: existing.root.display_path.clone(),
                        }
                    },
                    None => {
                        proof {
                            if previous_volume(old_locs, volume.id@) is Some {
                                let pv = previous_volume(old_locs, volume.id@)->0;
                                assert(!keeps_root(old_locs, *volume));
                            }
                        }
                        let ghost reg_pre = self.registry();
                        self.registry.remove_location(volume.id.as_str());
                        proof {
                            assert forall|x: Seq<char>| has_id(self.registry(), x) implies has_id(reg_pre, x) by {
                                let i = choose|i: int| 0 <= i < self.registry().len() && (#[trigger] self.registry()[i]).0 == x;
                                assert(has_entry(self.registry(), self.registry()[i]));
                                let e = self.registry()[i];
                                assert(has_entry(reg_pre, e));
                                let k = choose|k: int| 0 <= k < reg_pre.len() && #[trigger] reg_pre[k] == e;
                                assert(reg_pre[k].0 == x);
                            }
                        }
                        let ghost reg_mid = self.registry();
                        let fresh = ids[v].clone();
                        assert(fresh@ == ids@[v as int]@);
                        match directory_ref_with(&mut self.registry, volume.path.as_str(), volume.id.as_str(), Some(volume.name.as_str()), fresh) {
                            Ok(d) => d,
                            Err(e) => {
                                proof {
                                    if remounted {
                                        assert(keeps_root(old_locs, volumes@[v as int]));
                                        assert(false);
                                    }
                                    assert(has_id(reg_mid, ids@[v as int]@));
                                    assert(views(ids@)[v as int] == ids@[v as int]@);
                                    if fresh_ids(views(ids@), old_reg) {
                                        assert(has_id(reg_pre, ids@[v as int]@));
                                        if has_id(old_reg, ids@[v as int]@) {
                                            assert(!has_id(old_reg, views(ids@)[v as int]));
                                        } else {
                                            let j = choose|j: int| 0 <= j < v && (#[trigger] ids@[j])@ == ids@[v as int]@;
                                            assert(views(ids@)[j] == ids@[j]@);
                                            assert(views(ids@)[j] == views(ids@)[v as int]);
                                            assert(distinct_texts(views(ids@)));
                                            assert(views(ids@)[j] != views(ids@)[v as int]);
                                        }
                                        assert(false);
                                    }
                                }
                                return Err(e);
                            },
                        }
                    },
                };
                let ghost prev_s = summaries@;
                summaries.push(LocationSummaryDto {
                    id: volume.id.clone(),
                    name: volume.name.clone(),
                    backend: LocationBackend::Local,
                    kind: "volume".to_owned(),
                    role: LocationRole::Volume,
                    status: "available".to_owned(),
                    display_path: display,
                    detail: volume.detail.clone(),
                    root: directory,
                    synced_folder: None,
                });
                proof {
                    let kept_now = kept_volumes(volumes@.take(v + 1), dirs);
                    assert(kept_now == kept_before.push(volumes@[v as int]));
                    assert(location_views(summaries@) =~= location_views(prev_s).push(location_view(summaries@.last())));
                    lemma_summaries_persist(old_locs, reg_before, self.registry(), kept_before, location_views(prev_s), volumes@[v as int]);
                    let last = location_views(summaries@)[prev_s.len() as int];
                    assert(kept_now[prev_s.len() as int] == *volume);
                    assert(last == volume_location_of(*volume, last.root.0));
                    assert(last == location_view(summaries@.last()));
                    assert(volume_summary_ok(old_locs, self.registry(), kept_now[prev_s.len() as int], last, distinct_volume_ids(kept_now)));
                    assert forall|j: int| 0 <= j < summaries@.len() implies volume_summary_ok(old_locs, self.registry(),
                        kept_now[j], #[trigger] location_views(summaries@)[j], distinct_volume_ids(kept_now)) by {
                        if j < prev_s.len() {
                            assert(location_views(summaries@)[j] == location_views(prev_s)[j]);
                        }
                    }
                }
            }
            v = v + 1;
        }
        assert(volumes@.take(volumes.len() as int) =~= volumes@);
        // Forget the references of volumes that are gone.
        let mut p: usize = 0;
        while p < previous.len()
            invariant
                p <= previous.len(),
                registry_wf(self.registry()),
                location_views(previous@) == old_locs,
                forall|j: int| 0 <= j < summaries@.len() ==> volume_summary_ok(old_locs, self.registry(),
                    kept_volumes(volumes@, dirs)[j], #[trigger] location_views(summaries@)[j],
                    distinct_volume_ids(kept_volumes(volumes@, dirs))),
                location_views(summaries@).len() == kept_volumes(volumes@, dirs).len(),
                location_views(self.locations@) == base,
                forall|k: int| 0 <= k < base.len() ==> (#[trigger] base[k]).root.1 == base[k].id && base[k].root.3 == base[k].display_path,
                dirs.len() == volumes@.len(),
            decreases previous.len() - p,
        {
            if str_eq(previous[p].kind.as_str(), "volume") {
                let mut listed = false;
                let mut q: usize = 0;
                while q < summaries.len()
                    invariant
                        q <= summaries.len(),
                        p < previous.len(),
                        listed <==> exists|j: int| 0 <= j < q && (#[trigger] summaries@[j]).id@ == previous@[p as int].id@,
                    decreases summaries.len() - q,
                {
                    if str_eq(summaries[q].id.as_str(), previous[p].id.as_str()) {
                        listed = true;
                    }
                    q = q + 1;
                }
                if !listed {
                    let ghost reg_before = self.registry();
                    self.registry.remove_location(previous[p].id.as_str());
                    proof {
                        assert forall|j: int| 0 <= j < summaries@.len() implies volume_summary_ok(old_locs, self.registry(),
                            kept_volumes(volumes@, dirs)[j], #[trigger] location_views(summaries@)[j],
                            distinct_volume_ids(kept_volumes(volumes@, dirs))) by {
                            let s = location_views(summaries@)[j];
                            assert(s == location_view(summaries@[j]));
                            assert(summaries@[j].id@ != previous@[p as int].id@);
                            let k = kept_volumes(volumes@, dirs)[j];
                            if distinct_volume_ids(kept_volumes(volumes@, dirs)) && !keeps_root(old_locs, k) {
                                assert(has_entry(reg_before, (s.root.0, k.id@, k.path@)));
                            }
                        }
                    }
                }
            }
            p = p + 1;
        }
        let mut k: usize = 0;
        let ghost before_extend = location_views(self.locations@);
        while k < summaries.len()
            invariant
                k <= summaries.len(),
                before_extend == base,
                location_views(self.locations@) == base + location_views(summaries@).take(k as int),
                forall|j: int| 0 <= j < summaries@.len() ==> volume_summary_ok(old_locs, self.registry(),
                    kept_volumes(volumes@, dirs)[j], #[trigger] location_views(summaries@)[j],
                    distinct_volume_ids(kept_volumes(volumes@, dirs))),
                location_views(summaries@).len() == kept_volumes(volumes@, dirs).len(),
                forall|k: int| 0 <= k < base.len() ==> (#[trigger] base[k]).root.1 == base[k].id && base[k].root.3 == base[k].display_path,
                registry_wf(self.registry()),
                dirs.len() == volumes@.len(),
            decreases summaries.len() - k,
        {
            let l = crate::filesystem::copy_location_summary(&summaries[k]);
            let ghost prev_l = self.locations@;
            self.locations.push(l);
            assert(location_views(self.locations@) =~= location_views(prev_l).push(location_view(summaries@[k as int])));
            k = k + 1;
            assert(location_views(self.locations@) =~= base + location_views(summaries@).take(k as int));
        }
        assert(location_views(summaries@).take(summaries.len() as int) =~= location_views(summaries@));
        proof {
            let ls = self.locs();
            assert forall|k: int| 0 <= k < ls.len() implies (#[trigger] ls[k]).root.1 == ls[k].id && ls[k].root.3 == ls[k].display_path by {
                if k >= base.len() {
                    let j = k - base.len();
                    assert(ls[k] == location_views(summaries@)[j]);
                }
            }
        }
        Ok(summaries)
    }
}

/// The kind shown for a local entry: a folder, or the kind of its lowercase extension.
pub open spec fn local_content_kind(path: Seq<char>, is_directory: bool) -> Seq<char> {
    if is_directory {
        "folder"@
    } else {
        kind_of_extension(lowered(path_extension(path)))
    }
}

pub fn content_kind(path: &str, is_directory: bool) -> (r: &'static str)
    ensures
        r@ == local_content_kind(path@, is_directory),
{
    if is_directory {
        return "folder";
    }
    let ext = lowercase_path_extension(path);
    kind_for_extension(&ext)
}

/// What the disk says of an entry (for a symbolic link: of the link itself).
#[derive(Debug, Clone, Copy, PartialEq, Eq, Structural)]
pub struct EntryMetadata {
    pub is_symlink: bool,
    pub is_file: bool,
    pub is_dir: bool,
}

/// Whether an entry can be handed to a native application: a file, or a directory that is
/// an application bundle; a symbolic link counts as what it points to.
pub open spec fn native_open(metadata: EntryMetadata, target: Option<EntryMetadata>, is_bundle: bool) -> Seq<char> {
    let target_is_file = if metadata.is_symlink {
        target is Some && target->0.is_file
    } else {
        metadata.is_file
    };
    let target_is_directory = if metadata.is_symlink {
        target is Some && target->0.is_dir
    } else {
        metadata.is_dir
    };
    if target_is_file || (target_is_directory && is_bundle) {
        "direct"@
    } else {
        "none"@
    }
}

pub fn native_open_capability(metadata: EntryMetadata, target: Option<EntryMetadata>, is_bundle: bool) -> (r: &'static str)
    ensures
        r@ == native_open(metadata, target, is_bundle),
{
    let target_is_file = if metadata.is_symlink {
        match target {
            Some(t) => t.is_file,
            None => false,
        }
    } else {
        metadata.is_file
    };
    if target_is_file {
        return "direct";
    }
    let target_is_directory = if metadata.is_symlink {
        match target {
            Some(t) => t.is_dir,
            None => false,
        }
    } else {
        metadata.is_dir
    };
    if target_is_directory && is_bundle {
        "direct"
    } else {
        "none"
    }
}

/// A path is an application bundle when its extension is `app` in any case (the rule of
/// desktops that open bundles natively).
pub open spec fn application_bundle(path: Seq<char>) -> bool {
    path_extension(path) is Some && ascii_lower_seq(path_extension(path)->0) == "app"@
}

pub fn is_native_application_bundle(path: &str) -> (r: bool)
    ensures
        r == application_bundle(path@),
{
    match lowercase_path_extension(path) {
        Some(e) => str_eq(e.as_str(), "app"),
        None => false,
    }
}


/// The kind of a local entry: a directory is a folder; a file is of the desktop table that
/// lists its extension, in any ASCII case, and "other" when none does or it has none.
pub proof fn lemma_local_content_kinds(path: Seq<char>)
    ensures
        local_content_kind(path, true) == "folder"@,
        path_extension(path) is None ==> local_content_kind(path, false) == "other"@,
        path_extension(path) matches Some(e) && (crate::text::ascii_lower_seq(e) == "png"@ || crate::text::ascii_lower_seq(e) == "jpg"@ || crate::text::ascii_lower_seq(e) == "jpeg"@ || crate::text::ascii_lower_seq(e) == "gif"@ || crate::text::ascii_lower_seq(e) == "webp"@ || crate::text::ascii_lower_seq(e) == "bmp"@ || crate::text::ascii_lower_seq(e) == "tif"@ || crate::text::ascii_lower_seq(e) == "tiff"@ || crate::text::ascii_lower_seq(e) == "svg"@) ==> local_content_kind(path, false) == "image"@,
        path_extension(path) matches Some(e) && (crate::text::ascii_lower_seq(e) == "rs"@ || crate::text::ascii_lower_seq(e) == "ts"@ || crate::text::ascii_lower_seq(e) == "tsx"@ || crate::text::ascii_lower_seq(e) == "js"@ || crate::text::ascii_lower_seq(e) == "jsx"@ || crate::text::ascii_lower_seq(e) == "svelte"@ || crate::text::ascii_lower_seq(e) == "html"@ || crate::text::ascii_lower_seq(e) == "css"@ || crate::text::ascii_lower_seq(e) == "scss"@ || crate::text::ascii_lower_seq(e) == "json"@ || crate::text::ascii_lower_seq(e) == "toml"@ || crate::text::ascii_lower_seq(e) == "yaml"@ || crate::text::ascii_lower_seq(e) == "yml"@ || crate::text::ascii_lower_seq(e) == "py"@ || crate::text::ascii_lower_seq(e) == "go"@ || crate::text::ascii_lower_seq(e) == "c"@ || crate::text::ascii_lower_seq(e) == "h"@ || crate::text::ascii_lower_seq(e) == "cpp"@ || crate::text::ascii_lower_seq(e) == "hpp"@ || crate::text::ascii_lower_seq(e) == "java"@ || crate::text::ascii_lower_seq(e) == "kt"@ || crate::text::ascii_lower_seq(e) == "swift"@ || crate::text::ascii_lower_seq(e) == "sh"@) ==> local_content_kind(path, false) == "code"@,
        path_extension(path) matches Some(e) && (crate::text::ascii_lower_seq(e) == "txt"@ || crate::text::ascii_lower_seq(e) == "md"@ || crate::text::ascii_lower_seq(e) == "pdf"@ || crate::text::ascii_lower_seq(e) == "rtf"@ || crate::text::ascii_lower_seq(e) == "doc"@ || crate::text::ascii_lower_seq(e) == "docx"@ || crate::text::ascii_lower_seq(e) == "odt"@ || crate::text::ascii_lower_seq(e) == "pages"@) ==> local_content_kind(path, false) == "document"@,
        path_extension(path) matches Some(e) && (crate::text::ascii_lower_seq(e) == "mp3"@ || crate::text::ascii_lower_seq(e) == "m4a"@ || crate::text::ascii_lower_seq(e) == "aac"@ || crate::text::ascii_lower_seq(e) == "wav"@ || crate::text::ascii_lower_seq(e) == "flac"@ || crate::text::ascii_lower_seq(e) == "ogg"@) ==> local_content_kind(path, false) == "audio"@,
        path_extension(path) matches Some(e) && (crate::text::ascii_lower_seq(e) == "mp4"@ || crate::text::ascii_lower_seq(e) == "m4v"@ || crate::text::ascii_lower_seq(e) == "mov"@ || crate::text::ascii_lower_seq(e) == "mkv"@ || crate::text::ascii_lower_seq(e) == "webm"@ || crate::text::ascii_lower_seq(e) == "avi"@) ==> local_content_kind(path, false) == "video"@,
        path_extension(path) matches Some(e) && (crate::text::ascii_lower_seq(e) == "zip"@ || crate::text::ascii_lower_seq(e) == "tar"@ || crate::text::ascii_lower_seq(e) == "gz"@ || crate::text::ascii_lower_seq(e) == "bz2"@ || crate::text::ascii_lower_seq(e) == "xz"@ || crate::text::ascii_lower_seq(e) == "zst"@ || crate::text::ascii_lower_seq(e) == "7z"@ || crate::text::ascii_lower_seq(e) == "rar"@) ==> local_content_kind(path, false) == "archive"@,
        path_extension(path) matches Some(e) && !(crate::text::ascii_lower_seq(e) == "png"@ || crate::text::ascii_lower_seq(e) == "jpg"@ || crate::text::ascii_lower_seq(e) == "jpeg"@ || crate::text::ascii_lower_seq(e) == "gif"@ || crate::text::ascii_lower_seq(e) == "webp"@ || crate::text::ascii_lower_seq(e) == "bmp"@ || crate::text::ascii_lower_seq(e) == "tif"@ || crate::text::ascii_lower_seq(e) == "tiff"@ || crate::text::ascii_lower_seq(e) == "svg"@ || crate::text::ascii_lower_seq(e) == "rs"@ || crate::text::ascii_lower_seq(e) == "ts"@ || crate::text::ascii_lower_seq(e) == "tsx"@ || crate::text::ascii_lower_seq(e) == "js"@ || crate::text::ascii_lower_seq(e) == "jsx"@ || crate::text::ascii_lower_seq(e) == "svelte"@ || crate::text::ascii_lower_seq(e) == "html"@ || crate::text::ascii_lower_seq(e) == "css"@ || crate::text::ascii_lower_seq(e) == "scss"@ || crate::text::ascii_lower_seq(e) == "json"@ || crate::text::ascii_lower_seq(e) == "toml"@ || crate::text::ascii_lower_seq(e) == "yaml"@ || crate::text::ascii_lower_seq(e) == "yml"@ || crate::text::ascii_lower_seq(e) == "py"@ || crate::text::ascii_lower_seq(e) == "go"@ || crate::text::ascii_lower_seq(e) == "c"@ || crate::text::ascii_lower_seq(e) == "h"@ || crate::text::ascii_lower_seq(e) == "cpp"@ || crate::text::ascii_lower_seq(e) == "hpp"@ || crate::text::ascii_lower_seq(e) == "java"@ || crate::text::ascii_lower_seq(e) == "kt"@ || crate::text::ascii_lower_seq(e) == "swift"@ || crate::text::ascii_lower_seq(e) == "sh"@ || crate::text::ascii_lower_seq(e) == "txt"@ || crate::text::ascii_lower_seq(e) == "md"@ || crate::text::ascii_lower_seq(e) == "pdf"@ || crate::text::ascii_lower_seq(e) == "rtf"@ || crate::text::ascii_lower_seq(e) == "doc"@ || crate::text::ascii_lower_seq(e) == "docx"@ || crate::text::ascii_lower_seq(e) == "odt"@ || crate::text::ascii_lower_seq(e) == "pages"@ || crate::text::ascii_lower_seq(e) == "mp3"@ || crate::text::ascii_lower_seq(e) == "m4a"@ || crate::text::ascii_lower_seq(e) == "aac"@ || crate::text::ascii_lower_seq(e) == "wav"@ || crate::text::ascii_lower_seq(e) == "flac"@ || crate::text::ascii_lower_seq(e) == "ogg"@ || crate::text::ascii_lower_seq(e) == "mp4"@ || crate::text::ascii_lower_seq(e) == "m4v"@ || crate::text::ascii_lower_seq(e) == "mov"@ || crate::text::ascii_lower_seq(e) == "mkv"@ || crate::text::ascii_lower_seq(e) == "webm"@ || crate::text::ascii_lower_seq(e) == "avi"@ || crate::text::ascii_lower_seq(e) == "zip"@ || crate::text::ascii_lower_seq(e) == "tar"@ || crate::text::ascii_lower_seq(e) == "gz"@ || crate::text::ascii_lower_seq(e) == "bz2"@ || crate::text::ascii_lower_seq(e) == "xz"@ || crate::text::ascii_lower_seq(e) == "zst"@ || crate::text::ascii_lower_seq(e) == "7z"@ || crate::text::ascii_lower_seq(e) == "rar"@) ==> local_content_kind(path, false) == "other"@,
{
    if let Some(e) = path_extension(path) {
        crate::paths::lemma_desktop_extension_kinds(e);
    }
}

} // verus!
