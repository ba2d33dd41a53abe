//! The bookkeeping of the SSH connection manager: which connection attempts are in
//! flight, which sessions are open, and the references each target keeps between
//! connections.

use vstd::prelude::*;

use crate::filesystem::{DirectoryListingEvent, ExplorerError, LocationSummaryDto};
use crate::registry::{PathEntry, RemotePathRegistry};
use crate::ssh_session::{remote_listing_started, RemoteSession, SessionLifecycle};
use crate::ssh_status::{session_views, SessionStatus, SessionView};
use crate::text::str_eq;

verus! {

/// A connection attempt in flight: its request, its target and whether it was cancelled.
pub struct PendingConnection {
    pub request_id: String,
    pub target_id: String,
    pub cancelled: bool,
}

pub open spec fn connection_views(v: Seq<PendingConnection>) -> Seq<(Seq<char>, Seq<char>, bool)> {
    v.map_values(|c: PendingConnection| (c.request_id@, c.target_id@, c.cancelled))
}

/// Whether a connection attempt uses this request id or targets this target.
pub open spec fn attempt_conflicts(v: Seq<(Seq<char>, Seq<char>, bool)>, request_id: Seq<char>, target_id: Seq<char>) -> bool {
    exists|i: int| 0 <= i < v.len() && ((#[trigger] v[i]).0 == request_id || v[i].1 == target_id)
}

/// Every attempt but the one with this request id.
pub open spec fn other_request(id: Seq<char>) -> spec_fn((Seq<char>, Seq<char>, bool)) -> bool {
    |c: (Seq<char>, Seq<char>, bool)| c.0 != id
}

pub open spec fn request_id_ok(request_id: Seq<char>) -> bool {
    let n = vstd::utf8::encode_utf8(request_id).len();
    1 <= n && n <= 128
}

/// No two attempts share a request id.
pub open spec fn distinct_requests(v: Seq<(Seq<char>, Seq<char>, bool)>) -> bool {
    forall|i: int, j: int| 0 <= i < v.len() && 0 <= j < v.len() && i != j ==> (#[trigger] v[i]).0 != (#[trigger] v[j]).0
}

/// The sessions of a manager, by target.
pub struct SshSessions {
    sessions: Vec<RemoteSession>,
    registries: Vec<(String, RemotePathRegistry)>,
    connections: Vec<PendingConnection>,
}

impl SshSessions {
    pub closed spec fn connections(&self) -> Seq<(Seq<char>, Seq<char>, bool)> {
        connection_views(self.connections@)
    }

    pub closed spec fn session_targets(&self) -> Seq<Seq<char>> {
        self.sessions@.map_values(|s: RemoteSession| s.target().id@)
    }

    /// Every session and every kept registry is well formed.
    pub closed spec fn wf(&self) -> bool {
        &&& forall|i: int| 0 <= i < self.sessions@.len() ==> (#[trigger] self.sessions@[i]).wf()
        &&& forall|i: int| 0 <= i < self.registries@.len() ==> (#[trigger] self.registries@[i]).1.wf()
        &&& distinct_requests(self.connections())
        &&& unique_ids(self.session_targets())
        &&& unique_ids(self.registry_targets())
    }

    pub fn new() -> (r: SshSessions)
        ensures
            r.wf(),
            r.connections().len() == 0,
            r.session_targets().len() == 0,
            r.open_sessions().len() == 0,
            forall|t: Seq<char>| #[trigger] r.kept_paths(t) is None,
    {
        let r = SshSessions { sessions: Vec::new(), registries: Vec::new(), connections: Vec::new() };
        assert(r.session_targets() =~= Seq::<Seq<char>>::empty());
        proof {
            assert forall|t: Seq<char>| #[trigger] r.kept_paths(t) is None by {
                lemma_index_of_id(r.registry_targets(), t, 0);
            }
        }
        r
    }

    fn find_connection(&self, request_id: &str) -> (r: Option<usize>)
        ensures
            match r {
                Some(i) => i < self.connections().len() && self.connections()[i as int].0 == request_id@
                    && forall|j: int| 0 <= j < i ==> (#[trigger] self.connections()[j]).0 != request_id@,
                None => forall|i: int| 0 <= i < self.connections().len() ==> (#[trigger] self.connections()[i]).0 != request_id@,
            },
    {
        let mut i: usize = 0;
        while i < self.connections.len()
            invariant
                i <= self.connections.len(),
                forall|j: int| 0 <= j < i ==> (#[trigger] self.connections()[j]).0 != request_id@,
            decreases self.connections.len() - i,
        {
            assert(self.connections()[i as int].0 == self.connections@[i as int].request_id@);
            if str_eq(self.connections[i].request_id.as_str(), request_id) {
                return Some(i);
            }
            i = i + 1;
        }
        None
    }

    /// Registers a connection attempt. A malformed request id, one already in use, or a
    /// second attempt at the same target is refused as an invalid reference.
    pub fn begin_connection(&mut self, request_id: &str, target_id: &str) -> (r: Result<(), ExplorerError>)
        requires
            old(self).wf(),
        ensures
            final(self).wf(),
            final(self).session_targets() == old(self).session_targets(),
            r is Ok <==> request_id_ok(request_id@) && !attempt_conflicts(old(self).connections(), request_id@, target_id@),
            r is Err ==> r == Err::<(), ExplorerError>(ExplorerError::InvalidReference) && final(self).connections()
                == old(self).connections(),
            r is Ok ==> final(self).connections() == old(self).connections().push((request_id@, target_id@, false)),
    {
        let n = request_id.as_bytes().len();
        if n == 0 || n > 128 {
            return Err(ExplorerError::InvalidReference);
        }
        let mut i: usize = 0;
        while i < self.connections.len()
            invariant
                self.wf(),
                self.session_targets() == old(self).session_targets(),
                self.connections() == old(self).connections(),
                i <= self.connections.len(),
                forall|j: int| 0 <= j < i ==> (#[trigger] self.connections()[j]).0 != request_id@ && self.connections()[j].1
                    != target_id@,
            decreases self.connections.len() - i,
        {
            assert(self.connections()[i as int] == (self.connections@[i as int].request_id@, self.connections@[i as int].target_id@,
                self.connections@[i as int].cancelled));
            if str_eq(self.connections[i].request_id.as_str(), request_id) || str_eq(
                self.connections[i].target_id.as_str(),
                target_id,
            ) {
                return Err(ExplorerError::InvalidReference);
            }
            i = i + 1;
        }
        let ghost before = self.connections@;
        self.connections.push(
            PendingConnection { request_id: request_id.to_owned(), target_id: target_id.to_owned(), cancelled: false },
        );
        assert(self.connections() =~= connection_views(before).push((request_id@, target_id@, false)));
        assert(self.sessions@ == old(self).sessions@);
        Ok(())
    }

    /// Asks the attempt with this request id to stop; an unknown request is ignored.
    pub fn cancel_connection(&mut self, request_id: &str)
        requires
            old(self).wf(),
        ensures
            final(self).wf(),
            final(self).session_targets() == old(self).session_targets(),
            final(self).connections().len() == old(self).connections().len(),
            forall|i: int| 0 <= i < old(self).connections().len() ==> (#[trigger] final(self).connections()[i]) == if old(
                self,
            ).connections()[i].0 == request_id@ {
                (old(self).connections()[i].0, old(self).connections()[i].1, true)
            } else {
                old(self).connections()[i]
            },
    {
        match self.find_connection(request_id) {
            Some(i) => {
                let ghost before = self.connections();
                let entry = PendingConnection {
                    request_id: self.connections[i].request_id.clone(),
                    target_id: self.connections[i].target_id.clone(),
                    cancelled: true,
                };
                self.connections.set(i, entry);
                assert(self.connections() =~= before.update(i as int, (before[i as int].0, before[i as int].1, true)));
            },
            None => {},
        }
    }

    /// Whether the attempt with this request id was asked to stop.
    pub fn is_cancelled(&self, request_id: &str) -> (r: bool)
        requires
            self.wf(),
        ensures
            r == exists|i: int| 0 <= i < self.connections().len() && (#[trigger] self.connections()[i]).0 == request_id@
                && self.connections()[i].2,
    {
        match self.find_connection(request_id) {
            Some(i) => {
                let c = self.connections[i].cancelled;
                proof {
                    if !c {
                        assert forall|k: int| 0 <= k < self.connections().len() && (#[trigger] self.connections()[k]).0
                            == request_id@ implies !self.connections()[k].2 by {
                            if k != i {
                                assert(self.connections()[k].0 != self.connections()[i as int].0);
                            }
                        }
                    }
                }
                c
            },
            None => false,
        }
    }

    /// Forgets the attempt with this request id once it has ended.
    pub fn finish_connection(&mut self, request_id: &str)
        requires
            old(self).wf(),
        ensures
            final(self).wf(),
            final(self).session_targets() == old(self).session_targets(),
            final(self).connections() == old(self).connections().filter(other_request(request_id@)),
    {
        let ghost before = self.connections();
        match self.find_connection(request_id) {
            Some(i) => {
                self.connections.remove(i);
                proof {
                    assert(self.connections() =~= before.remove(i as int));
                    lemma_filter_removes_unique(before, i as int, request_id@);
                    assert forall|a: int, b: int|
                        0 <= a < self.connections().len() && 0 <= b < self.connections().len() && a != b implies (
                        #[trigger] self.connections()[a]).0 != (#[trigger] self.connections()[b]).0 by {
                        let a2 = if a < i { a } else { a + 1 };
                        let b2 = if b < i { b } else { b + 1 };
                        assert(self.connections()[a] == before[a2]);
                        assert(self.connections()[b] == before[b2]);
                    }
                }
            },
            None => {
                proof {
                    lemma_filter_keeps_all(before, request_id@);
                }
            },
        }
    }

    /// The targets being connected to, for the target list.
    pub fn connecting_targets(&self) -> (r: Vec<String>)
        ensures
            r@.map_values(|t: String| t@) == self.connections().map_values(|c: (Seq<char>, Seq<char>, bool)| c.1),
    {
        let mut out: Vec<String> = Vec::new();
        let mut i: usize = 0;
        while i < self.connections.len()
            invariant
                i <= self.connections.len(),
                out@.map_values(|t: String| t@) == self.connections().take(i as int).map_values(
                    |c: (Seq<char>, Seq<char>, bool)| c.1,
                ),
            decreases self.connections.len() - i,
        {
            let ghost before = out@;
            out.push(self.connections[i].target_id.clone());
            assert(self.connections().take(i as int + 1) =~= self.connections().take(i as int).push(self.connections()[i as int]));
            assert(out@.map_values(|t: String| t@) =~= before.map_values(|t: String| t@).push(self.connections@[i as int].target_id@));
            assert(out@.map_values(|t: String| t@) =~= self.connections().take(i as int + 1).map_values(
                |c: (Seq<char>, Seq<char>, bool)| c.1,
            ));
            i = i + 1;
        }
        assert(self.connections().take(self.connections@.len() as int) =~= self.connections());
        out
    }
}

pub open spec fn unique_ids(ids: Seq<Seq<char>>) -> bool {
    forall|i: int, j: int| 0 <= i < ids.len() && 0 <= j < ids.len() && i != j ==> (#[trigger] ids[i]) != (#[trigger] ids[j])
}

pub proof fn lemma_unique_after_remove(ids: Seq<Seq<char>>, k: int)
    requires
        unique_ids(ids),
        0 <= k < ids.len(),
    ensures
        unique_ids(ids.remove(k)),
{
    let r = ids.remove(k);
    assert forall|a: int, b: int| 0 <= a < r.len() && 0 <= b < r.len() && a != b implies (#[trigger] r[a]) != (#[trigger] r[b]) by {
        let a2 = if a < k { a } else { a + 1 };
        let b2 = if b < k { b } else { b + 1 };
        assert(r[a] == ids[a2] && r[b] == ids[b2]);
    }
}

/// The index of the first entry of `ids` equal to `id`, looking from `i` on.
pub open spec fn index_of_id(ids: Seq<Seq<char>>, id: Seq<char>, i: int) -> Option<int>
    decreases ids.len() - i,
{
    if i < 0 || i >= ids.len() {
        None
    } else if ids[i] == id {
        Some(i)
    } else {
        index_of_id(ids, id, i + 1)
    }
}

pub proof fn lemma_index_of_id(ids: Seq<Seq<char>>, id: Seq<char>, i: int)
    requires
        0 <= i,
    ensures
        match index_of_id(ids, id, i) {
            Some(k) => i <= k < ids.len() && ids[k] == id && forall|j: int| i <= j < k ==> ids[j] != id,
            None => forall|j: int| i <= j < ids.len() ==> ids[j] != id,
        },
    decreases ids.len() - i,
{
    if i < ids.len() && ids[i] != id {
        lemma_index_of_id(ids, id, i + 1);
    }
}

pub open spec fn id_views(ids: Seq<String>) -> Seq<Seq<char>> {
    ids.map_values(|s: String| s@)
}

/// In a list of distinct ids, the entry equal to `ids[k]` is found at `k`.
pub proof fn lemma_index_of_unique(ids: Seq<Seq<char>>, k: int)
    requires
        unique_ids(ids),
        0 <= k < ids.len(),
    ensures
        index_of_id(ids, ids[k], 0) == Some(k),
{
    lemma_index_of_id(ids, ids[k], 0);
    match index_of_id(ids, ids[k], 0) {
        Some(j) => {
            if j != k {
                assert(ids[j] != ids[k]);
            }
        },
        None => {},
    }
}

/// An id that no entry has is not found.
pub proof fn lemma_index_of_absent(ids: Seq<Seq<char>>, id: Seq<char>)
    requires
        forall|j: int| 0 <= j < ids.len() ==> ids[j] != id,
    ensures
        index_of_id(ids, id, 0) is None,
{
    lemma_index_of_id(ids, id, 0);
    match index_of_id(ids, id, 0) {
        Some(j) => {
            assert(ids[j] == id);
        },
        None => {},
    }
}

/// Once the entry at `k` of a list of distinct ids is removed, its id is no longer found.
pub proof fn lemma_removed_id_absent(ids: Seq<Seq<char>>, k: int)
    requires
        unique_ids(ids),
        0 <= k < ids.len(),
    ensures
        index_of_id(ids.remove(k), ids[k], 0) is None,
        unique_ids(ids.remove(k)),
{
    let r = ids.remove(k);
    assert forall|j: int| 0 <= j < r.len() implies r[j] != ids[k] by {
        let j2 = if j < k { j } else { j + 1 };
        assert(r[j] == ids[j2]);
    }
    lemma_index_of_absent(r, ids[k]);
    lemma_unique_after_remove(ids, k);
}

fn find_id(ids: &Vec<String>, id: &str) -> (r: Option<usize>)
    ensures
        match r {
            Some(k) => k < ids.len() && ids@[k as int]@ == id@ && index_of_id(id_views(ids@), id@, 0) == Some(k as int),
            None => (forall|j: int| 0 <= j < ids.len() ==> (#[trigger] ids@[j])@ != id@) && index_of_id(
                id_views(ids@),
                id@,
                0,
            ) is None,
        },
{
    let ghost v = id_views(ids@);
    let mut i: usize = 0;
    while i < ids.len()
        invariant
            i <= ids.len(),
            v == id_views(ids@),
            forall|j: int| 0 <= j < i ==> (#[trigger] ids@[j])@ != id@,
        decreases ids.len() - i,
    {
        if str_eq(ids[i].as_str(), id) {
            proof {
                lemma_index_of_id(v, id@, 0);
                match index_of_id(v, id@, 0) {
                    Some(j) => {
                        if j != i {
                            assert(v[j] == ids@[j]@);
                        }
                    },
                    None => {
                        assert(v[i as int] == ids@[i as int]@);
                    },
                }
            }
            return Some(i);
        }
        i = i + 1;
    }
    proof {
        assert forall|j: int| 0 <= j < v.len() implies v[j] != id@ by {
            assert(v[j] == ids@[j]@);
        }
        lemma_index_of_absent(v, id@);
    }
    None
}

impl SshSessions {
    pub closed spec fn registry_targets(&self) -> Seq<Seq<char>> {
        self.registries@.map_values(|e: (String, RemotePathRegistry)| e.0@)
    }

    /// The references kept for a target that has no open session.
    pub closed spec fn kept_paths(&self, target_id: Seq<char>) -> Option<Seq<PathEntry>> {
        match index_of_id(self.registry_targets(), target_id, 0) {
            Some(k) => Some(self.registries@[k].1@),
            None => None,
        }
    }

    /// The open session of a target.
    pub closed spec fn session_of(&self, target_id: Seq<char>) -> Option<RemoteSession> {
        match index_of_id(self.session_targets(), target_id, 0) {
            Some(k) => Some(self.sessions@[k]),
            None => None,
        }
    }

    fn session_ids(&self) -> (r: Vec<String>)
        ensures
            id_views(r@) == self.session_targets(),
    {
        let mut out: Vec<String> = Vec::new();
        let mut i: usize = 0;
        while i < self.sessions.len()
            invariant
                i <= self.sessions.len(),
                out@.len() == i,
                forall|j: int| 0 <= j < i ==> (#[trigger] out@[j])@ == self.session_targets()[j],
            decreases self.sessions.len() - i,
        {
            let id = self.sessions[i].target_id();
            out.push(id);
            i = i + 1;
        }
        assert(id_views(out@) =~= self.session_targets());
        out
    }

    fn registry_ids(&self) -> (r: Vec<String>)
        ensures
            id_views(r@) == self.registry_targets(),
    {
        let mut out: Vec<String> = Vec::new();
        let mut i: usize = 0;
        while i < self.registries.len()
            invariant
                i <= self.registries.len(),
                out@.len() == i,
                forall|j: int| 0 <= j < i ==> (#[trigger] out@[j])@ == self.registry_targets()[j],
            decreases self.registries.len() - i,
        {
            let id = self.registries[i].0.clone();
            out.push(id);
            i = i + 1;
        }
        assert(id_views(out@) =~= self.registry_targets());
        out
    }

    /// Takes the references kept for `target_id` for a new session, or a fresh registry
    /// when there are none.
    pub fn registry_for(&mut self, target_id: &str) -> (r: RemotePathRegistry)
        requires
            old(self).wf(),
        ensures
            final(self).wf(),
            r.wf(),
            match old(self).kept_paths(target_id@) {
                Some(p) => r@ == p,
                None => r@ == Seq::<PathEntry>::empty(),
            },
            final(self).kept_paths(target_id@) is None,
            final(self).connections() == old(self).connections(),
            final(self).session_targets() == old(self).session_targets(),
            forall|t: Seq<char>| #[trigger] final(self).session_of(t) == old(self).session_of(t),
    {
        let ids = self.registry_ids();
        match find_id(&ids, target_id) {
            Some(k) => {
                let ghost before = self.registry_targets();
                let ghost regs = self.registries@;
                let (_, paths) = self.registries.remove(k);
                proof {
                    assert(self.registries@ =~= regs.remove(k as int));
                    assert forall|i: int| 0 <= i < self.registries@.len() implies (#[trigger] self.registries@[i]).1.wf() by {
                        let i2 = if i < k { i } else { i + 1 };
                        assert(self.registries@[i] == regs[i2]);
                    }
                    assert(self.registry_targets() =~= before.remove(k as int));
                    lemma_removed_id_absent(before, k as int);
                }
                paths
            },
            None => {
                let r = RemotePathRegistry::new();
                r
            },
        }
    }

    /// Keeps a session's references for the next connection to its target.
    fn keep_paths(&mut self, target_id: String, paths: RemotePathRegistry)
        requires
            old(self).wf(),
            paths.wf(),
        ensures
            final(self).wf(),
            final(self).kept_paths(target_id@) == Some(paths@),
            final(self).connections() == old(self).connections(),
            final(self).sessions@ == old(self).sessions@,
    {
        let ids = self.registry_ids();
        let ghost before = self.registry_targets();
        match find_id(&ids, target_id.as_str()) {
            Some(k) => {
                let ghost regs = self.registries@;
                self.registries.set(k, (target_id, paths));
                proof {
                    assert forall|i: int| 0 <= i < self.registries@.len() implies (#[trigger] self.registries@[i]).1.wf() by {
                        if i != k {
                            assert(self.registries@[i] == regs[i]);
                        }
                    }
                    assert(self.registry_targets() =~= before);
                }
            },
            None => {
                let ghost regs = self.registries@;
                self.registries.push((target_id, paths));
                proof {
                    assert forall|i: int| 0 <= i < self.registries@.len() implies (#[trigger] self.registries@[i]).1.wf() by {
                        if i < regs.len() {
                            assert(self.registries@[i] == regs[i]);
                        }
                    }
                    let now = self.registry_targets();
                    assert(now =~= before.push(target_id@));
                    assert forall|a: int, b: int| 0 <= a < now.len() && 0 <= b < now.len() && a != b implies (
                    #[trigger] now[a]) != (#[trigger] now[b]) by {
                        if a < before.len() && b < before.len() {
                            assert(now[a] == before[a] && now[b] == before[b]);
                        } else if a < before.len() {
                            assert(now[a] == ids@[a]@);
                        } else {
                            assert(now[b] == ids@[b]@);
                        }
                    }
                    lemma_index_of_unique(now, before.len() as int);
                }
            },
        }
    }

    /// Starts using a connected session; a session the target had before is replaced.
    pub fn insert_session(&mut self, session: RemoteSession)
        requires
            old(self).wf(),
            session.wf(),
        ensures
            final(self).wf(),
            final(self).session_of(session.target().id@) == Some(session),
            final(self).connections() == old(self).connections(),
            forall|t: Seq<char>| #[trigger] final(self).kept_paths(t) == old(self).kept_paths(t),
    {
        let target_id = session.target_id();
        let ids = self.session_ids();
        let ghost before = self.session_targets();
        let ghost s = session;
        match find_id(&ids, target_id.as_str()) {
            Some(k) => {
                let ghost sess = self.sessions@;
                self.sessions.set(k, session);
                proof {
                    assert forall|i: int| 0 <= i < self.sessions@.len() implies (#[trigger] self.sessions@[i]).wf() by {
                        if i != k {
                            assert(self.sessions@[i] == sess[i]);
                        }
                    }
                    assert(self.session_targets() =~= before);
                    lemma_index_of_unique(before, k as int);
                }
            },
            None => {
                let ghost sess = self.sessions@;
                self.sessions.push(session);
                proof {
                    assert forall|i: int| 0 <= i < self.sessions@.len() implies (#[trigger] self.sessions@[i]).wf() by {
                        if i < sess.len() {
                            assert(self.sessions@[i] == sess[i]);
                        }
                    }
                    let now = self.session_targets();
                    assert(now =~= before.push(target_id@));
                    assert forall|a: int, b: int| 0 <= a < now.len() && 0 <= b < now.len() && a != b implies (
                    #[trigger] now[a]) != (#[trigger] now[b]) by {
                        if a < before.len() && b < before.len() {
                            assert(now[a] == before[a] && now[b] == before[b]);
                        } else if a < before.len() {
                            assert(now[a] == ids@[a]@);
                        } else {
                            assert(now[b] == ids@[b]@);
                        }
                    }
                    lemma_index_of_unique(now, before.len() as int);
                }
            },
        }
    }

    /// Closes the target's session, if it has one, keeping its references for the next
    /// connection. Returns whether there was a session, whose connection is then closed.
    pub fn disconnect(&mut self, target_id: &str) -> (r: bool)
        requires
            old(self).wf(),
        ensures
            final(self).wf(),
            final(self).connections() == old(self).connections(),
            r == old(self).session_of(target_id@) is Some,
            final(self).session_of(target_id@) is None,
            r ==> final(self).kept_paths(target_id@) == Some(old(self).session_of(target_id@)->0.paths()),
            !r ==> final(self).session_targets() == old(self).session_targets()
                && forall|t: Seq<char>| #[trigger] final(self).kept_paths(t) == old(self).kept_paths(t),
    {
        let ids = self.session_ids();
        match find_id(&ids, target_id) {
            Some(k) => {
                self.close_session(k, Ghost(target_id@));
                true
            },
            None => false,
        }
    }

    /// Removes the session at `k`, keeping its references.
    fn close_session(&mut self, k: usize, Ghost(target_id): Ghost<Seq<char>>)
        requires
            old(self).wf(),
            k < old(self).session_targets().len(),
            old(self).session_targets()[k as int] == target_id,
        ensures
            final(self).wf(),
            final(self).connections() == old(self).connections(),
            final(self).session_of(target_id) is None,
            final(self).kept_paths(target_id) == Some(old(self).sessions@[k as int].paths()),
            final(self).session_targets() == old(self).session_targets().remove(k as int),
    {
        let ghost before = self.session_targets();
        let ghost sess = self.sessions@;
        let session = self.sessions.remove(k);
        proof {
            assert(self.sessions@ =~= sess.remove(k as int));
            assert forall|i: int| 0 <= i < self.sessions@.len() implies (#[trigger] self.sessions@[i]).wf() by {
                let i2 = if i < k { i } else { i + 1 };
                assert(self.sessions@[i] == sess[i2]);
            }
            assert(self.session_targets() =~= before.remove(k as int));
            lemma_removed_id_absent(before, k as int);
        }
        let id = session.target_id();
        let paths = session.into_paths();
        self.keep_paths(id, paths);
    }

    /// The location of the target's session when it is active, so that a new connection is
    /// not needed. A session that is no longer active is closed, keeping its references.
    pub fn existing_location(&mut self, target_id: &str) -> (r: Option<LocationSummaryDto>)
        requires
            old(self).wf(),
        ensures
            final(self).wf(),
            final(self).connections() == old(self).connections(),
            match old(self).session_of(target_id@) {
                Some(s) => if s.state() == SessionLifecycle::Active {
                    r is Some && r->0.id@ == s.location() && r->0.root.id@ == s.root().id@
                        && final(self).session_targets() == old(self).session_targets()
                } else {
                    r is None && final(self).session_of(target_id@) is None && final(self).kept_paths(target_id@)
                        == Some(s.paths())
                },
                None => r is None && final(self).session_targets() == old(self).session_targets(),
            },
    {
        let ids = self.session_ids();
        match find_id(&ids, target_id) {
            Some(k) => {
                match self.sessions[k].state_now() {
                    SessionLifecycle::Active => Some(self.sessions[k].location_summary()),
                    _ => {
                        self.close_session(k, Ghost(target_id@));
                        None
                    },
                }
            },
            None => None,
        }
    }

    /// Forgets a target: its session is closed and its references are dropped.
    pub fn forget_target(&mut self, target_id: &str) -> (r: bool)
        requires
            old(self).wf(),
        ensures
            final(self).wf(),
            final(self).connections() == old(self).connections(),
            r == old(self).session_of(target_id@) is Some,
            final(self).session_of(target_id@) is None,
            final(self).kept_paths(target_id@) is None,
    {
        let closed = self.disconnect(target_id);
        let _ = self.registry_for(target_id);
        closed
    }
}

/// The locations of the active sessions among `s`, in order.
pub open spec fn active_locations(s: Seq<RemoteSession>) -> Seq<Seq<char>>
    decreases s.len(),
{
    if s.len() == 0 {
        Seq::empty()
    } else {
        let rest = active_locations(s.drop_last());
        if s.last().state() == SessionLifecycle::Active {
            rest.push(s.last().location())
        } else {
            rest
        }
    }
}

pub open spec fn status_view(s: RemoteSession) -> SessionView {
    SessionView { target_id: s.target().id@, active: s.state() == SessionLifecycle::Active, location_id: s.location() }
}

impl SshSessions {
    /// The open sessions, in the order they were opened.
    pub closed spec fn open_sessions(&self) -> Seq<RemoteSession> {
        self.sessions@
    }

    /// The locations of the active sessions.
    pub fn locations(&self) -> (r: Vec<LocationSummaryDto>)
        ensures
            r@.map_values(|l: LocationSummaryDto| l.id@) == active_locations(self.open_sessions()),
    {
        let mut out: Vec<LocationSummaryDto> = Vec::new();
        let mut i: usize = 0;
        while i < self.sessions.len()
            invariant
                i <= self.sessions.len(),
                out@.map_values(|l: LocationSummaryDto| l.id@) == active_locations(self.sessions@.take(i as int)),
            decreases self.sessions.len() - i,
        {
            let ghost before = out@;
            assert(self.sessions@.take(i as int + 1).drop_last() =~= self.sessions@.take(i as int));
            if self.sessions[i].state_now() == SessionLifecycle::Active {
                out.push(self.sessions[i].location_summary());
                assert(out@.map_values(|l: LocationSummaryDto| l.id@) =~= before.map_values(
                    |l: LocationSummaryDto| l.id@,
                ).push(self.sessions@[i as int].location()));
            }
            i = i + 1;
        }
        assert(self.sessions@.take(self.sessions@.len() as int) =~= self.sessions@);
        out
    }

    /// What the target list needs to know of each open session.
    pub fn session_statuses(&self) -> (r: Vec<SessionStatus>)
        ensures
            session_views(r@) == self.open_sessions().map_values(|s: RemoteSession| status_view(s)),
    {
        let mut out: Vec<SessionStatus> = Vec::new();
        let mut i: usize = 0;
        while i < self.sessions.len()
            invariant
                i <= self.sessions.len(),
                out@.len() == i,
                forall|j: int| 0 <= j < i ==> (#[trigger] out@[j])@ == status_view(self.sessions@[j]),
            decreases self.sessions.len() - i,
        {
            let status = SessionStatus {
                target_id: self.sessions[i].target_id(),
                active: self.sessions[i].state_now() == SessionLifecycle::Active,
                location_id: self.sessions[i].location_summary().id,
            };
            out.push(status);
            i = i + 1;
        }
        assert(session_views(out@) =~= self.sessions@.map_values(|s: RemoteSession| status_view(s)));
        out
    }
}

/// Removing the one entry with a request id is filtering the others out.
pub proof fn lemma_filter_removes_unique(v: Seq<(Seq<char>, Seq<char>, bool)>, i: int, id: Seq<char>)
    requires
        0 <= i < v.len(),
        v[i].0 == id,
        forall|a: int, b: int| 0 <= a < v.len() && 0 <= b < v.len() && a != b ==> (#[trigger] v[a]).0 != (#[trigger] v[b]).0,
    ensures
        v.remove(i) == v.filter(other_request(id)),
    decreases v.len(),
{
    reveal(Seq::filter);
    if i == v.len() - 1 {
        lemma_filter_keeps_all(v.drop_last(), id);
        assert(v.remove(i) =~= v.drop_last());
    } else {
        let w = v.drop_last();
        assert forall|a: int, b: int| 0 <= a < w.len() && 0 <= b < w.len() && a != b implies (#[trigger] w[a]).0 != (
        #[trigger] w[b]).0 by {
            assert(w[a] == v[a] && w[b] == v[b]);
        }
        lemma_filter_removes_unique(w, i, id);
        assert(v.last().0 != id) by {
            assert(v[v.len() - 1].0 != v[i].0);
        }
        assert(v.remove(i) =~= w.remove(i).push(v.last()));
    }
}

/// Filtering out an id that no entry has keeps everything.
pub proof fn lemma_filter_keeps_all(v: Seq<(Seq<char>, Seq<char>, bool)>, id: Seq<char>)
    requires
        forall|i: int| 0 <= i < v.len() ==> (#[trigger] v[i]).0 != id,
    ensures
        v.filter(other_request(id)) == v,
    decreases v.len(),
{
    reveal(Seq::filter);
    if v.len() > 0 {
        lemma_filter_keeps_all(v.drop_last(), id);
        assert(v.drop_last().push(v.last()) =~= v);
    }
}

} // verus!
