//! Opaque path references: paths stay in the backend and the frontend only
//! ever sees random identifiers scoped to one location.

use vstd::prelude::*;

use crate::filesystem::ExplorerError;
use crate::ids::{is_uuid_text, random_id};
use crate::text::str_eq;

verus! {

/// One registered path: `(id, location id, path)`.
pub type PathEntry = (Seq<char>, Seq<char>, Seq<char>);

pub open spec fn has_id(v: Seq<PathEntry>, id: Seq<char>) -> bool {
    exists|i: int| 0 <= i < v.len() && (#[trigger] v[i]).0 == id
}

pub open spec fn has_key(v: Seq<PathEntry>, location: Seq<char>, path: Seq<char>) -> bool {
    exists|i: int| 0 <= i < v.len() && (#[trigger] v[i]).1 == location && v[i].2 == path
}

pub open spec fn has_entry(v: Seq<PathEntry>, e: PathEntry) -> bool {
    exists|i: int| 0 <= i < v.len() && #[trigger] v[i] == e
}

/// Identifiers are unique, and so is each (location, path) pair.
pub open spec fn registry_wf(v: Seq<PathEntry>) -> bool {
    &&& forall|i: int, j: int| 0 <= i < v.len() && 0 <= j < v.len() && i != j ==> (#[trigger] v[i]).0 != (#[trigger] v[j]).0
    &&& forall|i: int, j: int|
        0 <= i < v.len() && 0 <= j < v.len() && i != j ==> !((#[trigger] v[i]).1 == (#[trigger] v[j]).1
            && v[i].2 == v[j].2)
}

/// The path that `id` names inside `location`, if any.
pub open spec fn resolution(v: Seq<PathEntry>, location: Seq<char>, id: Seq<char>) -> Option<Seq<char>> {
    if exists|i: int| 0 <= i < v.len() && (#[trigger] v[i]).0 == id && v[i].1 == location {
        let i = choose|i: int| 0 <= i < v.len() && (#[trigger] v[i]).0 == id && v[i].1 == location;
        Some(v[i].2)
    } else {
        None
    }
}

#[derive(Debug)]
pub struct RegisteredPath {
    pub id: String,
    pub location_id: String,
    pub path: String,
}

/// Registry of local paths behind opaque, location-scoped identifiers.
#[derive(Debug)]
pub struct PathRegistry {
    entries: Vec<RegisteredPath>,
}

impl View for PathRegistry {
    type V = Seq<PathEntry>;

    closed spec fn view(&self) -> Seq<PathEntry> {
        self.entries@.map_values(|e: RegisteredPath| (e.id@, e.location_id@, e.path@))
    }
}

impl PathRegistry {
    pub fn new() -> (r: PathRegistry)
        ensures
            r@ == Seq::<PathEntry>::empty(),
            registry_wf(r@),
    {
        let r = PathRegistry { entries: Vec::new() };
        assert(r@ =~= Seq::<PathEntry>::empty());
        r
    }

    fn find_key(&self, location_id: &str, path: &str) -> (r: Option<usize>)
        ensures
            match r {
                Some(i) => i < self@.len() && self@[i as int].1 == location_id@ && self@[i as int].2
                    == path@,
                None => !has_key(self@, location_id@, path@),
            },
    {
        let mut i: usize = 0;
        while i < self.entries.len()
            invariant
                i <= self.entries.len(),
                self@.len() == self.entries.len(),
                forall|j: int| 0 <= j < self.entries@.len() ==> self@[j] == (#[trigger] self.entries@[j].id@, self.entries@[j].location_id@, self.entries@[j].path@),
                forall|j: int| 0 <= j < i ==> !((#[trigger] self@[j]).1 == location_id@ && self@[j].2 == path@),
            decreases self.entries.len() - i,
        {
            let e = &self.entries[i];
            if str_eq(e.location_id.as_str(), location_id) && str_eq(e.path.as_str(), path) {
                return Some(i);
            }
            i = i + 1;
        }
        None
    }

    fn find_id(&self, id: &str) -> (r: Option<usize>)
        ensures
            match r {
                Some(i) => i < self@.len() && self@[i as int].0 == id@,
                None => !has_id(self@, id@),
            },
    {
        let mut i: usize = 0;
        while i < self.entries.len()
            invariant
                i <= self.entries.len(),
                self@.len() == self.entries.len(),
                forall|j: int| 0 <= j < self.entries@.len() ==> self@[j] == (#[trigger] self.entries@[j].id@, self.entries@[j].location_id@, self.entries@[j].path@),
                forall|j: int| 0 <= j < i ==> (#[trigger] self@[j]).0 != id@,
            decreases self.entries.len() - i,
        {
            if str_eq(self.entries[i].id.as_str(), id) {
                return Some(i);
            }
            i = i + 1;
        }
        None
    }

    /// The identifier of `path` inside `location_id`, registering it under a fresh random
    /// identifier the first time. Fails only if the fresh identifier collides with one in use.
    pub fn register(&mut self, location_id: &str, path: &str) -> (r: Result<String, ExplorerError>)
        requires
            registry_wf(old(self)@),
        ensures
            registry_wf(final(self)@),
            match r {
                Ok(id) => has_entry(final(self)@, (id@, location_id@, path@)) && if has_key(
                    old(self)@,
                    location_id@,
                    path@,
                ) {
                    final(self)@ == old(self)@
                } else {
                    final(self)@ == old(self)@.push((id@, location_id@, path@)) && is_uuid_text(id@)
                },
                Err(e) => e == ExplorerError::StateUnavailable && final(self)@ == old(self)@
                    && !has_key(old(self)@, location_id@, path@),
            },
    {
        proof {
            self.lemma_view_index();
        }
        if let Some(i) = self.find_key(location_id, path) {
            let id = self.entries[i].id.clone();
            assert(self@[i as int] == (id@, location_id@, path@));
            return Ok(id);
        }
        let id = random_id();
        self.register_with(location_id, path, id)
    }

    /// Registers `path` inside `location_id` under the freshly drawn identifier `fresh`. A
    /// path already registered there keeps its identifier; a fresh identifier that is
    /// already in use is refused, since identifiers must stay unique; otherwise the path is
    /// added under `fresh`.
    pub fn register_with(&mut self, location_id: &str, path: &str, fresh: String) -> (r: Result<String, ExplorerError>)
        requires
            registry_wf(old(self)@),
        ensures
            registry_wf(final(self)@),
            has_key(old(self)@, location_id@, path@) ==> r is Ok && final(self)@ == old(self)@
                && has_entry(old(self)@, (r->Ok_0@, location_id@, path@)),
            !has_key(old(self)@, location_id@, path@) && has_id(old(self)@, fresh@) ==> r
                == Err::<String, ExplorerError>(ExplorerError::StateUnavailable) && final(self)@ == old(self)@,
            !has_key(old(self)@, location_id@, path@) && !has_id(old(self)@, fresh@) ==> r is Ok && r->Ok_0@ == fresh@
                && final(self)@ == old(self)@.push((fresh@, location_id@, path@)),
            r is Ok ==> has_entry(final(self)@, (r->Ok_0@, location_id@, path@)),
    {
        proof {
            self.lemma_view_index();
        }
        if let Some(i) = self.find_key(location_id, path) {
            let id = self.entries[i].id.clone();
            assert(self@[i as int] == (id@, location_id@, path@));
            return Ok(id);
        }
        if self.find_id(fresh.as_str()).is_some() {
            return Err(ExplorerError::StateUnavailable);
        }
        let ghost old_view = self@;
        self.entries.push(
            RegisteredPath {
                id: fresh.clone(),
                location_id: location_id.to_owned(),
                path: path.to_owned(),
            },
        );
        assert(self@ =~= old_view.push((fresh@, location_id@, path@)));
        assert(self@[old_view.len() as int] == (fresh@, location_id@, path@));
        Ok(fresh)
    }

    /// The path behind `id`, provided that `id` was registered under `location_id`.
    pub fn resolve(&self, location_id: &str, id: &str) -> (r: Result<String, ExplorerError>)
        requires
            registry_wf(self@),
        ensures
            match resolution(self@, location_id@, id@) {
                Some(p) => r is Ok && r->Ok_0@ == p,
                None => r == Err::<String, ExplorerError>(ExplorerError::InvalidReference),
            },
    {
        proof {
            self.lemma_view_index();
        }
        match self.find_id(id) {
            Some(i) => {
                if str_eq(self.entries[i].location_id.as_str(), location_id) {
                    proof {
                        let k = choose|k: int| 0 <= k < self@.len() && (#[trigger] self@[k]).0 == id@ && self@[k].1 == location_id@;
                        assert(k == i);
                    }
                    Ok(self.entries[i].path.clone())
                } else {
                    assert forall|k: int| 0 <= k < self@.len() && (#[trigger] self@[k]).0 == id@ implies self@[k].1 != location_id@ by {
                        assert(k == i);
                    }
                    Err(ExplorerError::InvalidReference)
                }
            },
            None => Err(ExplorerError::InvalidReference),
        }
    }

    /// Forgets every path registered under `location_id`.
    pub fn remove_location(&mut self, location_id: &str)
        requires
            registry_wf(old(self)@),
        ensures
            registry_wf(final(self)@),
            forall|e: PathEntry| has_entry(final(self)@, e) <==> has_entry(old(self)@, e) && e.1 != location_id@,
            final(self)@.len() <= old(self)@.len(),
    {
        proof {
            self.lemma_view_index();
        }
        let ghost old_view = self@;
        let mut kept: Vec<RegisteredPath> = Vec::new();
        let ghost mut origin: Seq<int> = Seq::empty();
        let mut i: usize = 0;
        while i < self.entries.len()
            invariant
                i <= self.entries.len(),
                old_view == self@,
                old_view.len() == self.entries.len(),
                forall|j: int| 0 <= j < self.entries@.len() ==> old_view[j] == (#[trigger] self.entries@[j].id@, self.entries@[j].location_id@, self.entries@[j].path@),
                registry_wf(old_view),
                kept@.len() <= i,
                forall|j: int| 0 <= j < kept@.len() ==> (#[trigger] kept@[j]).location_id@ != location_id@,
                origin.len() == kept@.len(),
                forall|j: int| 0 <= j < kept@.len() ==> 0 <= #[trigger] origin[j] < i && old_view[origin[j]] == (kept@[j].id@, kept@[j].location_id@, kept@[j].path@),
                forall|k: int| 0 <= k < i && (#[trigger] old_view[k]).1 != location_id@ ==> exists|j: int| 0 <= j < kept@.len() && old_view[k] == (#[trigger] kept@[j].id@, kept@[j].location_id@, kept@[j].path@),
                forall|a: int, b: int| 0 <= a < kept@.len() && 0 <= b < kept@.len() && a != b ==> (#[trigger] kept@[a]).id@ != (#[trigger] kept@[b]).id@,
                forall|a: int, b: int| 0 <= a < kept@.len() && 0 <= b < kept@.len() && a != b ==> !((#[trigger] kept@[a]).location_id@ == (#[trigger] kept@[b]).location_id@ && kept@[a].path@ == kept@[b].path@),
            decreases self.entries.len() - i,
        {
            let ghost kept_before = kept@;
            if !str_eq(self.entries[i].location_id.as_str(), location_id) {
                let e = RegisteredPath {
                    id: self.entries[i].id.clone(),
                    location_id: self.entries[i].location_id.clone(),
                    path: self.entries[i].path.clone(),
                };
                proof {
                    assert forall|a: int| 0 <= a < kept@.len() implies (#[trigger] kept@[a]).id@ != e.id@ && !(kept@[a].location_id@ == e.location_id@ && kept@[a].path@ == e.path@) by {
                        let k = origin[a];
                        assert(k != i);
                    }
                }
                kept.push(e);
                proof {
                    origin = origin.push(i as int);
                }
                assert(kept@[kept@.len() - 1] == e);
                assert(old_view[i as int] == (e.id@, e.location_id@, e.path@));
            }
            proof {
                assert forall|k: int| 0 <= k < i + 1 && (#[trigger] old_view[k]).1 != location_id@ implies exists|j: int| 0 <= j < kept@.len() && old_view[k] == (#[trigger] kept@[j].id@, kept@[j].location_id@, kept@[j].path@) by {
                    if k < i {
                        let j = choose|j: int| 0 <= j < kept_before.len() && old_view[k] == (#[trigger] kept_before[j].id@, kept_before[j].location_id@, kept_before[j].path@);
                        assert(kept@[j] == kept_before[j]);
                    } else {
                        assert(old_view[i as int].1 == self.entries@[i as int].location_id@);
                        assert(old_view[k] == (kept@[kept@.len() - 1].id@, kept@[kept@.len() - 1].location_id@, kept@[kept@.len() - 1].path@));
                    }
                }
            }
            i = i + 1;
        }
        self.entries = kept;
        proof {
            self.lemma_view_index();
            assert forall|e: PathEntry| has_entry(self@, e) <==> has_entry(old_view, e) && e.1 != location_id@ by {
                if has_entry(self@, e) {
                    let j = choose|j: int| 0 <= j < self@.len() && #[trigger] self@[j] == e;
                    assert(self@[j] == (self.entries@[j].id@, self.entries@[j].location_id@, self.entries@[j].path@));
                    assert(old_view[origin[j]] == e);
                }
                if has_entry(old_view, e) && e.1 != location_id@ {
                    let k = choose|k: int| 0 <= k < old_view.len() && #[trigger] old_view[k] == e;
                    let j = choose|j: int| 0 <= j < self.entries@.len() && old_view[k] == (#[trigger] self.entries@[j].id@, self.entries@[j].location_id@, self.entries@[j].path@);
                    assert(self@[j] == e);
                }
            }
        }
    }

    proof fn lemma_view_index(&self)
        ensures
            self@.len() == self.entries@.len(),
            forall|j: int| 0 <= j < self.entries@.len() ==> #[trigger] self@[j] == (self.entries@[j].id@, self.entries@[j].location_id@, self.entries@[j].path@),
    {
    }
}

/// Registering a path and then resolving its identifier in the same location gives back
/// the path.
pub proof fn lemma_resolve_after_register(v: Seq<PathEntry>, id: Seq<char>, location: Seq<char>, path: Seq<char>)
    requires
        registry_wf(v),
        has_entry(v, (id, location, path)),
    ensures
        resolution(v, location, id) == Some(path),
{
    let i = choose|i: int| 0 <= i < v.len() && #[trigger] v[i] == (id, location, path);
    assert(v[i].0 == id && v[i].1 == location);
    let k = choose|k: int| 0 <= k < v.len() && (#[trigger] v[k]).0 == id && v[k].1 == location;
    assert(k == i);
}

/// A path has one identifier per location: registering it again gives the same identifier.
pub proof fn lemma_register_idempotent(v: Seq<PathEntry>, id1: Seq<char>, id2: Seq<char>, location: Seq<char>, path: Seq<char>)
    requires
        registry_wf(v),
        has_entry(v, (id1, location, path)),
        has_entry(v, (id2, location, path)),
    ensures
        id1 == id2,
{
    let i = choose|i: int| 0 <= i < v.len() && #[trigger] v[i] == (id1, location, path);
    let j = choose|j: int| 0 <= j < v.len() && #[trigger] v[j] == (id2, location, path);
    assert(v[i].1 == v[j].1 && v[i].2 == v[j].2);
}

/// An identifier resolves only inside the location it was registered under.
pub proof fn lemma_scoped_to_location(v: Seq<PathEntry>, id: Seq<char>, location: Seq<char>, path: Seq<char>, other: Seq<char>)
    requires
        registry_wf(v),
        has_entry(v, (id, location, path)),
        other != location,
    ensures
        resolution(v, other, id) is None,
{
    let i = choose|i: int| 0 <= i < v.len() && #[trigger] v[i] == (id, location, path);
    assert forall|k: int| 0 <= k < v.len() && (#[trigger] v[k]).0 == id implies v[k].1 != other by {
        assert(k == i);
    }
}

/// After a location is removed, none of its identifiers resolve any more.
pub proof fn lemma_removed_location_resolves_nothing(old_v: Seq<PathEntry>, new_v: Seq<PathEntry>, location: Seq<char>, id: Seq<char>)
    requires
        forall|e: PathEntry| has_entry(new_v, e) <==> has_entry(old_v, e) && e.1 != location,
    ensures
        resolution(new_v, location, id) is None,
{
    assert forall|k: int| 0 <= k < new_v.len() && (#[trigger] new_v[k]).0 == id implies new_v[k].1 != location by {
        assert(has_entry(new_v, new_v[k]));
    }
}

/// Registry of remote paths of one SSH session behind opaque identifiers.
#[derive(Debug)]
pub struct RemotePathRegistry {
    inner: PathRegistry,
}

impl View for RemotePathRegistry {
    type V = Seq<PathEntry>;

    closed spec fn view(&self) -> Seq<PathEntry> {
        self.inner@
    }
}

impl RemotePathRegistry {
    /// The location under which a session's paths are kept.
    pub open spec fn scope() -> Seq<char> {
        Seq::empty()
    }

    pub open spec fn wf(&self) -> bool {
        registry_wf(self@)
    }

    pub fn new() -> (r: RemotePathRegistry)
        ensures
            r.wf(),
            r@ == Seq::<PathEntry>::empty(),
    {
        RemotePathRegistry { inner: PathRegistry::new() }
    }

    /// The identifier of a remote path, registered on first use.
    pub fn register(&mut self, path: &str) -> (r: Result<String, ExplorerError>)
        requires
            old(self).wf(),
        ensures
            final(self).wf(),
            match r {
                Ok(id) => has_entry(final(self)@, (id@, Self::scope(), path@)) && if has_key(old(self)@, Self::scope(), path@) {
                    final(self)@ == old(self)@
                } else {
                    final(self)@ == old(self)@.push((id@, Self::scope(), path@)) && is_uuid_text(id@)
                },
                Err(e) => e == ExplorerError::StateUnavailable && final(self)@ == old(self)@
                    && !has_key(old(self)@, Self::scope(), path@),
            },
    {
        assert(""@ == Self::scope()) by {
            reveal_strlit("");
        }
        self.inner.register("", path)
    }

    /// Registers a remote path under the freshly drawn identifier `fresh`, as
    /// `PathRegistry::register_with` does.
    pub fn register_with(&mut self, path: &str, fresh: String) -> (r: Result<String, ExplorerError>)
        requires
            old(self).wf(),
        ensures
            final(self).wf(),
            has_key(old(self)@, Self::scope(), path@) ==> r is Ok && final(self)@ == old(self)@
                && has_entry(old(self)@, (r->Ok_0@, Self::scope(), path@)),
            !has_key(old(self)@, Self::scope(), path@) && has_id(old(self)@, fresh@) ==> r
                == Err::<String, ExplorerError>(ExplorerError::StateUnavailable) && final(self)@ == old(self)@,
            !has_key(old(self)@, Self::scope(), path@) && !has_id(old(self)@, fresh@) ==> r is Ok && r->Ok_0@ == fresh@
                && final(self)@ == old(self)@.push((fresh@, Self::scope(), path@)),
            r is Ok ==> has_entry(final(self)@, (r->Ok_0@, Self::scope(), path@)),
    {
        assert(""@ == Self::scope()) by {
            reveal_strlit("");
        }
        self.inner.register_with("", path, fresh)
    }

    /// The remote path behind an identifier of this registry.
    pub fn resolve(&self, id: &str) -> (r: Result<String, ExplorerError>)
        requires
            self.wf(),
        ensures
            match resolution(self@, Self::scope(), id@) {
                Some(p) => r is Ok && r->Ok_0@ == p,
                None => r == Err::<String, ExplorerError>(ExplorerError::InvalidReference),
            },
    {
        assert(""@ == Self::scope()) by {
            reveal_strlit("");
        }
        self.inner.resolve("", id)
    }
}

} // verus!
