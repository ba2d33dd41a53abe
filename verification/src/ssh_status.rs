//! Decisions of the SSH connection manager that do not touch the network: which status a
//! listed target shows, and whether a server's host key is trusted, refused or must be
//! confirmed by the user.

use vstd::prelude::*;

use crate::filesystem::{error_message, ExplorerError};
use crate::ssh::{endpoint, SshPromptResponseDto};
use crate::ssh_targets::{endpoint_text, ResolvedSshTarget, SshTargetSummaryDto};
use crate::text::str_eq;

verus! {

/// What the manager knows of an open session: the target it belongs to, whether it is
/// still active, and the location it is browsed under.
pub struct SessionStatus {
    pub target_id: String,
    pub active: bool,
    pub location_id: String,
}

pub struct SessionView {
    pub target_id: Seq<char>,
    pub active: bool,
    pub location_id: Seq<char>,
}

impl View for SessionStatus {
    type V = SessionView;

    open spec fn view(&self) -> SessionView {
        SessionView { target_id: self.target_id@, active: self.active, location_id: self.location_id@ }
    }
}

pub open spec fn session_views(sessions: Seq<SessionStatus>) -> Seq<SessionView> {
    sessions.map_values(|s: SessionStatus| s@)
}

/// The location of the session of target `id`, looking from index `i` on: the first session
/// of that target decides, and it counts only while it is active.
pub open spec fn active_location_from(sessions: Seq<SessionView>, id: Seq<char>, i: int) -> Option<Seq<char>>
    decreases sessions.len() - i,
{
    if i < 0 || i >= sessions.len() {
        None
    } else if sessions[i].target_id == id {
        if sessions[i].active {
            Some(sessions[i].location_id)
        } else {
            None
        }
    } else {
        active_location_from(sessions, id, i + 1)
    }
}

pub open spec fn active_location(sessions: Seq<SessionView>, id: Seq<char>) -> Option<Seq<char>> {
    active_location_from(sessions, id, 0)
}

pub open spec fn is_connecting(connecting: Seq<Seq<char>>, id: Seq<char>) -> bool {
    exists|k: int| 0 <= k < connecting.len() && connecting[k] == id
}

/// `after` is `before` with its connection status applied: a target with an active session
/// is connected under that session's location; one being connected to is connecting; any
/// other keeps what it had. Only the status and the connected location can change.
pub open spec fn status_applied(
    before: SshTargetSummaryDto,
    after: SshTargetSummaryDto,
    sessions: Seq<SessionView>,
    connecting: Seq<Seq<char>>,
) -> bool {
    &&& after.id == before.id
    &&& after.location_id == before.location_id
    &&& after.name == before.name
    &&& after.source == before.source
    &&& after.endpoint == before.endpoint
    &&& after.editable == before.editable
    &&& after.configuration == before.configuration
    &&& match active_location(sessions, before.id@) {
        Some(location) => after.status@ == "connected"@ && after.connected_location_id is Some
            && after.connected_location_id->0@ == location,
        None => after.connected_location_id == before.connected_location_id && if is_connecting(
            connecting,
            before.id@,
        ) {
            after.status@ == "connecting"@
        } else {
            after.status == before.status
        },
    }
}

fn active_session_location(sessions: &Vec<SessionStatus>, id: &str) -> (r: Option<String>)
    ensures
        match active_location(session_views(sessions@), id@) {
            Some(location) => r is Some && r->0@ == location,
            None => r is None,
        },
{
    let ghost views = session_views(sessions@);
    let mut i: usize = 0;
    while i < sessions.len()
        invariant
            i <= sessions.len(),
            views == session_views(sessions@),
            active_location(views, id@) == active_location_from(views, id@, i as int),
        decreases sessions.len() - i,
    {
        if str_eq(sessions[i].target_id.as_str(), id) {
            if sessions[i].active {
                return Some(sessions[i].location_id.clone());
            } else {
                return None;
            }
        }
        i = i + 1;
    }
    None
}

fn any_connecting(connecting: &Vec<String>, id: &str) -> (r: bool)
    ensures
        r == is_connecting(connecting@.map_values(|c: String| c@), id@),
{
    let ghost ids = connecting@.map_values(|c: String| c@);
    let mut i: usize = 0;
    while i < connecting.len()
        invariant
            i <= connecting.len(),
            ids == connecting@.map_values(|c: String| c@),
            forall|k: int| 0 <= k < i ==> ids[k] != id@,
        decreases connecting.len() - i,
    {
        if str_eq(connecting[i].as_str(), id) {
            assert(ids[i as int] == id@);
            return true;
        }
        i = i + 1;
    }
    false
}

/// Shows on each listed target whether it is connected or being connected to.
/// `sessions` are the open sessions and `connecting` the target ids of the connection
/// attempts in flight.
pub fn apply_statuses(targets: &mut Vec<SshTargetSummaryDto>, sessions: &Vec<SessionStatus>, connecting: &Vec<String>)
    ensures
        final(targets)@.len() == old(targets)@.len(),
        forall|i: int|
            0 <= i < old(targets)@.len() ==> status_applied(
                #[trigger] old(targets)@[i],
                final(targets)@[i],
                session_views(sessions@),
                connecting@.map_values(|c: String| c@),
            ),
{
    let ghost before = targets@;
    let ghost views = session_views(sessions@);
    let ghost ids = connecting@.map_values(|c: String| c@);
    let n = targets.len();
    let mut i: usize = 0;
    while i < n
        invariant
            n == before.len(),
            targets@.len() == n,
            i <= n,
            views == session_views(sessions@),
            ids == connecting@.map_values(|c: String| c@),
            forall|j: int| 0 <= j < i ==> status_applied(#[trigger] before[j], targets@[j], views, ids),
            forall|j: int| i <= j < n ==> #[trigger] targets@[j] == before[j],
        decreases n - i,
    {
        let mut target = targets.remove(i);
        assert(target == before[i as int]);
        match active_session_location(sessions, target.id.as_str()) {
            Some(location) => {
                target.status = "connected".to_owned();
                target.connected_location_id = Some(location);
            },
            None => {
                if any_connecting(connecting, target.id.as_str()) {
                    target.status = "connecting".to_owned();
                }
            },
        }
        targets.insert(i, target);
        i = i + 1;
    }
}

/// A host key as the connection compares it: its algorithm name and its encoded key.
pub struct HostKey {
    pub algorithm: String,
    pub key: Vec<u8>,
}

pub open spec fn same_key(a: HostKey, b: HostKey) -> bool {
    a.algorithm@ == b.algorithm@ && a.key@ == b.key@
}

/// Whether `known` holds `server`'s key itself.
pub open spec fn key_is_known(known: Seq<HostKey>, server: HostKey) -> bool {
    exists|k: int| 0 <= k < known.len() && same_key(#[trigger] known[k], server)
}

/// Whether `known` holds some key of `server`'s algorithm.
pub open spec fn algorithm_is_known(known: Seq<HostKey>, server: HostKey) -> bool {
    exists|k: int| 0 <= k < known.len() && (#[trigger] known[k]).algorithm@ == server.algorithm@
}

/// What to do with a server's host key before authenticating.
#[derive(Debug, Clone, Copy, PartialEq, Eq, Structural)]
pub enum HostKeyCheck {
    /// The key is among the known hosts: continue.
    Trusted,
    /// The host is new: ask the user to accept the key.
    Prompt,
}

fn bytes_eq(a: &Vec<u8>, b: &Vec<u8>) -> (r: bool)
    ensures
        r == (a@ == b@),
{
    if a.len() != b.len() {
        return false;
    }
    let mut i: usize = 0;
    while i < a.len()
        invariant
            a@.len() == b@.len(),
            i <= a.len(),
            forall|k: int| 0 <= k < i ==> a@[k] == b@[k],
        decreases a.len() - i,
    {
        if a[i] != b[i] {
            return false;
        }
        i = i + 1;
    }
    assert(a@ =~= b@);
    true
}

pub open spec fn host_key_changed(e: ExplorerError, host: Seq<char>) -> bool {
    e matches ExplorerError::HostKeyFailure(m) && m@ == "The SSH host key for "@ + host
        + " has changed. Connection was blocked."@
}

/// Checks a server's host key against the keys known for its host and port. A known key
/// is trusted; a different key of a known algorithm means the key has changed, and the
/// connection is blocked; a host with no key of that algorithm is new and needs the user's
/// confirmation.
pub fn check_server_key(known: &Vec<HostKey>, server: &HostKey, host: &str) -> (r: Result<
    HostKeyCheck,
    ExplorerError,
>)
    ensures
        key_is_known(known@, *server) ==> r == Ok::<HostKeyCheck, ExplorerError>(HostKeyCheck::Trusted),
        !key_is_known(known@, *server) && algorithm_is_known(known@, *server) ==> (r matches Err(e)
            && host_key_changed(e, host@)),
        !key_is_known(known@, *server) && !algorithm_is_known(known@, *server) ==> r
            == Ok::<HostKeyCheck, ExplorerError>(HostKeyCheck::Prompt),
{
    let mut i: usize = 0;
    while i < known.len()
        invariant
            i <= known.len(),
            forall|k: int| 0 <= k < i ==> !same_key(#[trigger] known@[k], *server),
        decreases known.len() - i,
    {
        if str_eq(known[i].algorithm.as_str(), server.algorithm.as_str()) && bytes_eq(
            &known[i].key,
            &server.key,
        ) {
            assert(same_key(known@[i as int], *server));
            return Ok(HostKeyCheck::Trusted);
        }
        i = i + 1;
    }
    let mut j: usize = 0;
    while j < known.len()
        invariant
            j <= known.len(),
            !key_is_known(known@, *server),
            forall|k: int| 0 <= k < j ==> (#[trigger] known@[k]).algorithm@ != server.algorithm@,
        decreases known.len() - j,
    {
        if str_eq(known[j].algorithm.as_str(), server.algorithm.as_str()) {
            assert(known@[j as int].algorithm@ == server.algorithm@);
            return Err(ExplorerError::HostKeyFailure(
                "The SSH host key for ".to_owned().concat(host).concat(" has changed. Connection was blocked."),
            ));
        }
        j = j + 1;
    }
    Ok(HostKeyCheck::Prompt)
}

/// The user's answer to a host-key prompt: only an acceptance lets the connection go on
/// (and the key be recorded); any other answer cancels it.
pub fn accept_host_key(response: &SshPromptResponseDto) -> (r: Result<(), ExplorerError>)
    ensures
        r == (if *response is Accept {
            Ok::<(), ExplorerError>(())
        } else {
            Err(ExplorerError::Cancelled)
        }),
{
    match response {
        SshPromptResponseDto::Accept => Ok(()),
        _ => Err(ExplorerError::Cancelled),
    }
}

/// A way of authenticating that the connection tries.
#[derive(Debug, Clone, Copy, PartialEq, Eq, Structural)]
pub enum AuthMethod {
    Agent,
    IdentityFiles,
    Password,
    KeyboardInteractive,
}

/// Which interactive methods the server still offers after the `none` method failed.
#[derive(Debug, Clone, Copy, PartialEq, Eq, Structural)]
pub struct ServerMethods {
    pub password: bool,
    pub keyboard_interactive: bool,
}

/// The methods tried, in order, until one succeeds: the agent (unless only the configured
/// identities may be used), the identity files, then a password and keyboard-interactive
/// answers where the server offers them.
pub open spec fn auth_order(identities_only: bool, methods: ServerMethods) -> Seq<AuthMethod> {
    (if identities_only { Seq::empty() } else { seq![AuthMethod::Agent] }) + seq![AuthMethod::IdentityFiles] + (
    if methods.password {
        seq![AuthMethod::Password]
    } else {
        Seq::empty()
    }) + (if methods.keyboard_interactive {
        seq![AuthMethod::KeyboardInteractive]
    } else {
        Seq::empty()
    })
}

pub fn auth_plan(identities_only: bool, methods: ServerMethods) -> (r: Vec<AuthMethod>)
    ensures
        r@ == auth_order(identities_only, methods),
{
    let mut plan: Vec<AuthMethod> = Vec::new();
    if !identities_only {
        plan.push(AuthMethod::Agent);
    }
    plan.push(AuthMethod::IdentityFiles);
    if methods.password {
        plan.push(AuthMethod::Password);
    }
    if methods.keyboard_interactive {
        plan.push(AuthMethod::KeyboardInteractive);
    }
    proof {
        let a: Seq<AuthMethod> = if identities_only { Seq::empty() } else { seq![AuthMethod::Agent] };
        let p: Seq<AuthMethod> = if methods.password { seq![AuthMethod::Password] } else { Seq::empty() };
        let k: Seq<AuthMethod> = if methods.keyboard_interactive { seq![AuthMethod::KeyboardInteractive] } else { Seq::empty() };
        assert(plan@ =~= a + seq![AuthMethod::IdentityFiles] + p + k);
    }
    plan
}

/// The error when every method failed.
pub fn authentication_failed(target: &ResolvedSshTarget) -> (r: ExplorerError)
    ensures
        r matches ExplorerError::AuthenticationFailed(m) && m@ == "Authentication failed for "@ + endpoint_text(
            target.username@,
            target.host@,
            target.port,
        ) + "."@,
{
    ExplorerError::AuthenticationFailed("Authentication failed for ".to_owned().concat(endpoint(target).as_str()).concat("."))
}

/// How a failed connection attempt is reported: a cancellation or a host-key failure keeps
/// its meaning; anything else means the host could not be reached.
pub fn connect_failure(host: &str, error: ExplorerError) -> (r: ExplorerError)
    ensures
        (error is Cancelled || error is HostKeyFailure) ==> r == error,
        !(error is Cancelled || error is HostKeyFailure) ==> (r matches ExplorerError::Offline(m) && m@
            == "Explora could not connect to "@ + host@ + ": "@ + error_message(error)),
{
    match error {
        ExplorerError::Cancelled | ExplorerError::HostKeyFailure(_) => error,
        other => {
            let text = other.message();
            ExplorerError::Offline("Explora could not connect to ".to_owned().concat(host).concat(": ").concat(text.as_str()))
        },
    }
}

/// The error when the connection did not open in time.
pub fn connect_timeout(host: &str) -> (r: ExplorerError)
    ensures
        r matches ExplorerError::Offline(m) && m@ == "The SSH connection to "@ + host@ + " timed out."@,
{
    ExplorerError::Offline("The SSH connection to ".to_owned().concat(host).concat(" timed out."))
}

} // verus!
