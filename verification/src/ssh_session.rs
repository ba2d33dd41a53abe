//! An open SSH browsing session as the explorer sees it: its location, the opaque
//! references of its remote paths, and its life from connecting to disconnected.

use vstd::prelude::*;

use crate::filesystem::{
    BreadcrumbSegmentDto, DirectoryListingEvent, DirectoryRefDto, ExplorerError, LocationBackend, LocationRole,
    LocationSummaryDto,
};
use crate::registry::{has_entry, has_key, lemma_resolve_after_register, registry_wf, resolution, PathEntry, RemotePathRegistry};
use crate::ssh::{
    endpoint, name_of, pair_views, parent_of, remote_breadcrumb_paths, remote_crumbs, remote_name, remote_parent, SshConnectionEventDto,
};
use crate::ssh_targets::{endpoint_text, location_id, ssh_location_id, ResolvedSshTarget};

verus! {

/// Where a session is in its life.
#[derive(Debug, Clone, Copy, PartialEq, Eq, Structural)]
pub enum SessionLifecycle {
    Connecting,
    Active,
    Disconnecting,
    Disconnected,
}

/// The message shown when an active session is lost.
pub open spec fn lost_message() -> Seq<char> {
    "The SSH connection was lost. Reconnect to continue browsing."@
}

pub struct RemoteSession {
    target: ResolvedSshTarget,
    location_id: String,
    root: DirectoryRefDto,
    paths: RemotePathRegistry,
    lifecycle: SessionLifecycle,
}

/// How a remote path is shown: the target's name, a colon and the path.
pub open spec fn remote_display(target_name: Seq<char>, path: Seq<char>) -> Seq<char> {
    target_name + ":"@ + path
}


/// A reference of this session to `path`, named `name`.
pub open spec fn remote_ref_ok(
    d: DirectoryRefDto,
    paths: Seq<PathEntry>,
    location: Seq<char>,
    target_name: Seq<char>,
    path: Seq<char>,
    name: Seq<char>,
) -> bool {
    &&& resolution(paths, RemotePathRegistry::scope(), d.id@) == Some(path)
    &&& d.location_id@ == location
    &&& d.name@ == name
    &&& d.display_path@ == remote_display(target_name, path)
}

/// The start of a remote listing of `path`: the directory, its parent when it has one, and
/// one crumb per step from the top.
pub open spec fn remote_listing_started(
    e: DirectoryListingEvent,
    paths: Seq<PathEntry>,
    location: Seq<char>,
    target_name: Seq<char>,
    path: Seq<char>,
) -> bool {
    let crumbs = remote_crumbs(path, target_name);
    &&& e matches DirectoryListingEvent::Started { directory, parent, breadcrumbs }
    &&& remote_ref_ok(directory, paths, location, target_name, path, name_of(path))
    &&& match parent_of(path) {
        Some(p) => parent is Some && remote_ref_ok(parent->0, paths, location, target_name, p, name_of(p)),
        None => parent is None,
    }
    &&& breadcrumbs@.len() == crumbs.len()
    &&& forall|j: int| 0 <= j < crumbs.len() ==> (#[trigger] breadcrumbs@[j]).label@ == crumbs[j].0 && remote_ref_ok(
        breadcrumbs@[j].directory,
        paths,
        location,
        target_name,
        crumbs[j].1,
        crumbs[j].0,
    )
}

/// Whether every path a listing of `path` refers to (the directory, its parent and each
/// crumb) is registered already.
pub open spec fn remote_paths_known(paths: Seq<PathEntry>, path: Seq<char>, target_name: Seq<char>) -> bool {
    let crumbs = remote_crumbs(path, target_name);
    &&& has_key(paths, RemotePathRegistry::scope(), path)
    &&& (parent_of(path) matches Some(p) ==> has_key(paths, RemotePathRegistry::scope(), p))
    &&& forall|j: int| 0 <= j < crumbs.len() ==> has_key(paths, RemotePathRegistry::scope(), (#[trigger] crumbs[j]).1)
}

impl RemoteSession {
    pub closed spec fn target(&self) -> ResolvedSshTarget {
        self.target
    }

    pub closed spec fn location(&self) -> Seq<char> {
        self.location_id@
    }

    pub closed spec fn root(&self) -> DirectoryRefDto {
        self.root
    }

    pub closed spec fn paths(&self) -> Seq<PathEntry> {
        self.paths@
    }

    pub closed spec fn state(&self) -> SessionLifecycle {
        self.lifecycle
    }

    pub closed spec fn wf(&self) -> bool {
        self.paths.wf()
    }

    /// A session that is being connected to `target`, whose browsing starts at
    /// `initial_path` (as the server resolved it). `paths` are the references handed out for
    /// this target before, so that a reconnected session resolves them as the earlier one did.
    pub fn new(target: ResolvedSshTarget, paths: RemotePathRegistry, initial_path: &str) -> (r: Result<
        RemoteSession,
        ExplorerError,
    >)
        requires
            paths.wf(),
        ensures
            r is Err ==> r == Err::<RemoteSession, ExplorerError>(ExplorerError::StateUnavailable),
            has_key(paths@, RemotePathRegistry::scope(), initial_path@) ==> r is Ok,
            r is Ok ==> forall|id: Seq<char>|
                #![trigger resolution(paths@, RemotePathRegistry::scope(), id)]
                resolution(paths@, RemotePathRegistry::scope(), id) is Some ==> resolution(
                    r->Ok_0.paths(),
                    RemotePathRegistry::scope(),
                    id,
                ) == resolution(paths@, RemotePathRegistry::scope(), id),
            r is Ok ==> ({
                let s = r->Ok_0;
                &&& s.wf()
                &&& s.state() == SessionLifecycle::Connecting
                &&& s.location() == ssh_location_id(target.id@)
                &&& s.target() == target
                &&& s.root().location_id@ == ssh_location_id(target.id@)
                &&& s.root().name@ == target.name@
                &&& s.root().display_path@ == remote_display(target.name@, initial_path@)
                &&& resolution(s.paths(), RemotePathRegistry::scope(), s.root().id@) == Some(initial_path@)
            }),
    {
        let ghost before = paths@;
        let mut paths = paths;
        let id = match paths.register(initial_path) {
            Ok(id) => id,
            Err(e) => {
                return Err(e);
            },
        };
        proof {
            crate::registry::lemma_resolve_after_register(paths@, id@, RemotePathRegistry::scope(), initial_path@);
            assert forall|e: PathEntry| has_entry(before, e) implies has_entry(paths@, e) by {
                let k = choose|k: int| 0 <= k < before.len() && before[k] == e;
                assert(paths@[k] == e);
            }
            lemma_extension_keeps_resolutions(before, paths@);
        }
        let location = location_id(target.id.as_str());
        let root = DirectoryRefDto {
            id,
            location_id: location.clone(),
            name: target.name.clone(),
            display_path: target.name.clone().concat(":").concat(initial_path),
        };
        Ok(RemoteSession { target, location_id: location, root, paths, lifecycle: SessionLifecycle::Connecting })
    }

    /// Gives back the session's references when it ends, for the next connection.
    pub fn into_paths(self) -> (r: RemotePathRegistry)
        requires
            self.wf(),
        ensures
            r.wf(),
            r@ == self.paths(),
    {
        self.paths
    }

    /// Marks a connected session active. A session that was closed while it was being
    /// opened stays closed, and the opening fails.
    pub fn activate(&mut self) -> (r: Result<(), ExplorerError>)
        ensures
            old(self).state() == SessionLifecycle::Connecting ==> r is Ok && final(self).state() == SessionLifecycle::Active,
            old(self).state() != SessionLifecycle::Connecting ==> (r matches Err(ExplorerError::Offline(m))
                && m@ == "The SSH connection closed while Explora was opening SFTP."@) && final(self).state() == old(
                self).state(),
            final(self).paths() == old(self).paths(),
            final(self).root() == old(self).root(),
            final(self).location() == old(self).location(),
            final(self).target() == old(self).target(),
            final(self).wf() == old(self).wf(),
    {
        match self.lifecycle {
            SessionLifecycle::Connecting => {
                self.lifecycle = SessionLifecycle::Active;
                Ok(())
            },
            _ => Err(ExplorerError::Offline("The SSH connection closed while Explora was opening SFTP.".to_owned())),
        }
    }

    /// Marks an active session as lost. Returns whether it was active, in which case the
    /// frontend is told that the connection was lost.
    pub fn mark_offline(&mut self) -> (r: bool)
        ensures
            r == (old(self).state() == SessionLifecycle::Active),
            final(self).state() == if r { SessionLifecycle::Disconnected } else { old(self).state() },
            final(self).paths() == old(self).paths(),
            final(self).root() == old(self).root(),
            final(self).location() == old(self).location(),
            final(self).target() == old(self).target(),
            final(self).wf() == old(self).wf(),
    {
        match self.lifecycle {
            SessionLifecycle::Active => {
                self.lifecycle = SessionLifecycle::Disconnected;
                true
            },
            _ => false,
        }
    }

    /// Records that the transport closed, whatever the state was. Returns whether the
    /// session had been active, in which case the loss is reported.
    pub fn disconnected(&mut self) -> (r: bool)
        ensures
            r == (old(self).state() == SessionLifecycle::Active),
            final(self).state() == SessionLifecycle::Disconnected,
            final(self).paths() == old(self).paths(),
            final(self).root() == old(self).root(),
            final(self).location() == old(self).location(),
            final(self).target() == old(self).target(),
            final(self).wf() == old(self).wf(),
    {
        let was_active = match self.lifecycle {
            SessionLifecycle::Active => true,
            _ => false,
        };
        self.lifecycle = SessionLifecycle::Disconnected;
        was_active
    }

    /// Starts an orderly disconnect of an active session.
    pub fn begin_disconnect(&mut self) -> (r: bool)
        ensures
            r == (old(self).state() == SessionLifecycle::Active),
            final(self).state() == if r { SessionLifecycle::Disconnecting } else { old(self).state() },
            final(self).paths() == old(self).paths(),
            final(self).root() == old(self).root(),
            final(self).location() == old(self).location(),
            final(self).target() == old(self).target(),
            final(self).wf() == old(self).wf(),
    {
        match self.lifecycle {
            SessionLifecycle::Active => {
                self.lifecycle = SessionLifecycle::Disconnecting;
                true
            },
            _ => false,
        }
    }

    /// The event that tells the frontend this session's connection was lost, sent when
    /// `mark_offline` or `disconnected` reports that the session had been active.
    pub fn lost_event(&self) -> (r: SshConnectionEventDto)
        ensures
            r matches SshConnectionEventDto::Disconnected { target_id, message } && target_id@ == self.target().id@
                && message@ == lost_message(),
    {
        SshConnectionEventDto::Disconnected {
            target_id: self.target.id.clone(),
            message: "The SSH connection was lost. Reconnect to continue browsing.".to_owned(),
        }
    }

    pub fn target_id(&self) -> (r: String)
        ensures
            r@ == self.target().id@,
    {
        self.target.id.clone()
    }

    pub fn state_now(&self) -> (r: SessionLifecycle)
        ensures
            r == self.state(),
    {
        self.lifecycle
    }

    /// The location this session offers while it is connected.
    pub fn location_summary(&self) -> (r: LocationSummaryDto)
        ensures
            r.id@ == self.location(),
            r.name@ == self.target().name@,
            r.backend == LocationBackend::Ssh,
            r.kind@ == "ssh"@,
            r.role == LocationRole::Ssh,
            r.status@ == "connected"@,
            r.display_path@ == self.root().display_path@,
            r.detail@ == "SSH · "@ + endpoint_text(self.target().username@, self.target().host@, self.target().port),
            r.root.id@ == self.root().id@ && r.root.location_id@ == self.root().location_id@
                && r.root.name@ == self.root().name@ && r.root.display_path@ == self.root().display_path@,
            r.synced_folder is None,
    {
        LocationSummaryDto {
            id: self.location_id.clone(),
            name: self.target.name.clone(),
            backend: LocationBackend::Ssh,
            kind: "ssh".to_owned(),
            role: LocationRole::Ssh,
            status: "connected".to_owned(),
            display_path: self.root.display_path.clone(),
            detail: "SSH · ".to_owned().concat(endpoint(&self.target).as_str()),
            root: DirectoryRefDto {
                id: self.root.id.clone(),
                location_id: self.root.location_id.clone(),
                name: self.root.name.clone(),
                display_path: self.root.display_path.clone(),
            },
            synced_folder: None,
        }
    }

    /// A reference to the remote directory `path`, named `name` or else by its last
    /// component; registering it keeps it resolvable for the life of the session.
    pub fn directory_ref(&mut self, path: &str, name: Option<String>) -> (r: Result<DirectoryRefDto, ExplorerError>)
        requires
            old(self).wf(),
        ensures
            final(self).wf(),
            final(self).state() == old(self).state(),
            final(self).root() == old(self).root(),
            final(self).location() == old(self).location(),
            final(self).target() == old(self).target(),
            forall|e: PathEntry| has_entry(old(self).paths(), e) ==> has_entry(final(self).paths(), e),
            r is Err ==> r == Err::<DirectoryRefDto, ExplorerError>(ExplorerError::StateUnavailable) && final(self).paths()
                == old(self).paths(),
            has_key(old(self).paths(), RemotePathRegistry::scope(), path@) ==> r is Ok && final(self).paths() == old(self).paths(),
            r is Ok ==> ({
                let d = r->Ok_0;
                &&& resolution(final(self).paths(), RemotePathRegistry::scope(), d.id@) == Some(path@)
                &&& d.location_id@ == old(self).location()
                &&& d.name@ == match name {
                    Some(n) => n@,
                    None => name_of(path@),
                }
                &&& d.display_path@ == remote_display(old(self).target().name@, path@)
            }),
    {
        let ghost before = self.paths@;
        let id = match self.paths.register(path) {
            Ok(id) => id,
            Err(e) => {
                return Err(e);
            },
        };
        proof {
            crate::registry::lemma_resolve_after_register(self.paths@, id@, RemotePathRegistry::scope(), path@);
            assert forall|e: PathEntry| has_entry(before, e) implies has_entry(self.paths@, e) by {
                let k = choose|k: int| 0 <= k < before.len() && before[k] == e;
                assert(self.paths@[k] == e);
            }
        }
        let name = match name {
            Some(n) => n,
            None => remote_name(path),
        };
        Ok(DirectoryRefDto {
            id,
            location_id: self.location_id.clone(),
            name,
            display_path: self.target.name.clone().concat(":").concat(path),
        })
    }

    /// Starts listing the remote directory behind `directory_id`. Returns the start event and
    /// the directory's path, to be read.
    pub fn listing_start(&mut self, directory_id: &str) -> (r: Result<(DirectoryListingEvent, String), ExplorerError>)
        requires
            old(self).wf(),
        ensures
            final(self).wf(),
            final(self).state() == old(self).state(),
            final(self).location() == old(self).location(),
            final(self).target() == old(self).target(),
            final(self).root() == old(self).root(),
            match resolution(old(self).paths(), RemotePathRegistry::scope(), directory_id@) {
                None => r == Err::<(DirectoryListingEvent, String), ExplorerError>(ExplorerError::InvalidReference),
                Some(path) => {
                    &&& match r {
                        Ok((event, p)) => p@ == path && remote_listing_started(event, final(self).paths(), old(self).location(),
                            old(self).target().name@, path),
                        Err(e) => e == ExplorerError::StateUnavailable,
                    }
                    &&& remote_paths_known(old(self).paths(), path, old(self).target().name@) ==> r is Ok
                        && final(self).paths() == old(self).paths()
                },
            },
    {
        let path = match self.paths.resolve(directory_id) {
            Ok(p) => p,
            Err(e) => {
                return Err(e);
            },
        };
        let ghost location = self.location();
        let ghost tname = self.target().name@;
        let ghost start = self.paths@;
        let ghost known = remote_paths_known(start, path@, tname);
        let directory = match self.directory_ref(path.as_str(), None) {
            Ok(d) => d,
            Err(e) => {
                return Err(e);
            },
        };
        let ghost after_directory = self.paths@;
        let parent = match remote_parent(path.as_str()) {
            Some(p) => match self.directory_ref(p.as_str(), None) {
                Ok(d) => Some(d),
                Err(e) => {
                    return Err(e);
                },
            },
            None => None,
        };
        proof {
            lemma_extension_keeps_resolutions(after_directory, self.paths@);
        }
        let crumbs = remote_breadcrumb_paths(path.as_str(), self.target.name.as_str());
        let ghost want = remote_crumbs(path@, tname);
        let mut breadcrumbs: Vec<BreadcrumbSegmentDto> = Vec::new();
        let mut i: usize = 0;
        while i < crumbs.len()
            invariant
                self.wf(),
                self.location() == location,
                self.target().name@ == tname,
                self.state() == old(self).state(),
                self.location() == old(self).location(),
                self.target() == old(self).target(),
                self.root() == old(self).root(),
                resolution(old(self).paths(), RemotePathRegistry::scope(), directory_id@) == Some(path@),
                pair_views(crumbs@) == want,
                i <= crumbs@.len(),
                breadcrumbs@.len() == i,
                forall|j: int| 0 <= j < i ==> (#[trigger] breadcrumbs@[j]).label@ == want[j].0 && remote_ref_ok(
                    breadcrumbs@[j].directory,
                    self.paths(),
                    location,
                    tname,
                    want[j].1,
                    want[j].0,
                ),
                remote_ref_ok(directory, self.paths(), location, tname, path@, name_of(path@)),
                match parent_of(path@) {
                    Some(p) => parent is Some && remote_ref_ok(parent->0, self.paths(), location, tname, p, name_of(p)),
                    None => parent is None,
                },
                known == remote_paths_known(start, path@, tname),
                want == remote_crumbs(path@, tname),
                start == old(self).paths(),
                known ==> self.paths@ == start,
            decreases crumbs.len() - i,
        {
            let ghost before = self.paths@;
            assert(pair_views(crumbs@)[i as int] == (crumbs@[i as int].0@, crumbs@[i as int].1@));
            let label = crumbs[i].0.clone();
            assert(i < want.len());
            assert(known ==> has_key(start, RemotePathRegistry::scope(), remote_crumbs(path@, tname)[i as int].1));
            assert(known ==> has_key(self.paths@, RemotePathRegistry::scope(), want[i as int].1));
            let d = match self.directory_ref(crumbs[i].1.as_str(), Some(crumbs[i].0.clone())) {
                Ok(d) => d,
                Err(e) => {
                    return Err(e);
                },
            };
            proof {
                lemma_extension_keeps_resolutions(before, self.paths@);
            }
            breadcrumbs.push(BreadcrumbSegmentDto { label, directory: d });
            i = i + 1;
        }
        Ok((DirectoryListingEvent::Started { directory, parent, breadcrumbs }, path))
    }

    /// The remote path behind a reference of this session.
    pub fn resolve(&self, id: &str) -> (r: Result<String, ExplorerError>)
        requires
            self.wf(),
        ensures
            match resolution(self.paths(), RemotePathRegistry::scope(), id@) {
                Some(p) => r is Ok && r->Ok_0@ == p,
                None => r == Err::<String, ExplorerError>(ExplorerError::InvalidReference),
            },
    {
        self.paths.resolve(id)
    }
}

/// A registry that only gained entries resolves every old identifier as before.
pub proof fn lemma_extension_keeps_resolutions(before: Seq<PathEntry>, after: Seq<PathEntry>)
    requires
        registry_wf(before),
        registry_wf(after),
        forall|e: PathEntry| has_entry(before, e) ==> has_entry(after, e),
    ensures
        forall|location: Seq<char>, id: Seq<char>|
            #![trigger resolution(before, location, id)]
            resolution(before, location, id) is Some ==> resolution(after, location, id) == resolution(before, location, id),
{
    assert forall|location: Seq<char>, id: Seq<char>|
        #![trigger resolution(before, location, id)]
        resolution(before, location, id) is Some implies resolution(after, location, id) == resolution(before, location, id) by {
        let p = resolution(before, location, id)->0;
        let i = choose|i: int| 0 <= i < before.len() && (#[trigger] before[i]).0 == id && before[i].1 == location;
        assert(before[i] == (id, location, p));
        assert(has_entry(before, (id, location, p)));
        lemma_resolve_after_register(after, id, location, p);
    }
}

} // verus!
