//! The decisions of opening an SSH connection, as a state machine: the host performs
//! each action (opening the transport, trying an authentication method, opening SFTP,
//! resolving the initial path) and hands back what happened; this module decides what
//! comes next, in the order the connection is opened.

use vstd::prelude::*;

use crate::filesystem::ExplorerError;
use crate::ssh_status::{auth_order, auth_plan, authentication_failed, AuthMethod, ServerMethods};
use crate::ssh_targets::ResolvedSshTarget;

verus! {

/// Where an attempt to connect stands.
#[derive(Debug, Clone, Copy, PartialEq, Eq, Structural)]
pub enum ConnectPhase {
    /// Nothing has been done yet.
    Idle,
    /// The transport is being opened.
    Transport,
    /// The `none` method is being tried, which also tells which methods the server offers.
    NoneMethod,
    /// The method at this index of the authentication plan is being tried.
    Method(usize),
    /// The SFTP subsystem is being opened.
    Sftp,
    /// The initial path is being resolved by the server.
    InitialPath,
    /// The session was activated.
    Connected,
    /// The attempt ended without a session.
    Failed,
}

/// An attempt to connect: its phase, whether only the configured identities may be used,
/// and the methods the server offered once the `none` method was refused.
#[derive(Debug, Clone, Copy, PartialEq, Eq, Structural)]
pub struct ConnectionState {
    pub phase: ConnectPhase,
    pub identities_only: bool,
    pub methods: ServerMethods,
}

/// What the host reports after performing an action.
#[derive(Debug, Clone, PartialEq, Eq)]
pub enum ConnectionEvent {
    Begin,
    TransportOpened,
    /// The transport failed; the error is already reported as `connect_failure` or
    /// `connect_timeout` says.
    TransportFailed(ExplorerError),
    NoneAnswered { accepted: bool, methods: ServerMethods },
    MethodAnswered(bool),
    SftpOpened,
    SftpMissing,
    SftpUnusable,
    PathResolved,
    Cancelled,
}

/// Why an attempt ended without a session.
#[derive(Debug, Clone, PartialEq, Eq)]
pub enum ConnectFailure {
    Cancelled,
    Transport(ExplorerError),
    AuthenticationExhausted,
    NoSftp,
    UnusableSftp,
    OutOfOrder,
}

/// What the host does next. The state it shows the frontend follows the action:
/// "connecting" before the transport, "authenticating" before the methods, "openingSftp"
/// before SFTP.
#[derive(Debug, Clone, PartialEq, Eq)]
pub enum ConnectionAction {
    OpenTransport,
    AuthenticateNone,
    Authenticate(AuthMethod),
    OpenSftp,
    ResolveInitialPath,
    Activate,
    Fail(ConnectFailure),
}

pub open spec fn failed_with(s: ConnectionState, f: ConnectFailure) -> (ConnectionState, ConnectionAction) {
    (ConnectionState { phase: ConnectPhase::Failed, ..s }, ConnectionAction::Fail(f))
}

/// The next state and action of an attempt. A cancellation ends any attempt that is under
/// way. The `none` method comes first; when the server refuses it, the methods of
/// `auth_order` are tried in turn until one succeeds, and when none does the attempt ends.
/// An event that does not answer the current action ends the attempt as out of order.
pub open spec fn connection_next(s: ConnectionState, e: ConnectionEvent) -> (ConnectionState, ConnectionAction) {
    if s.phase == ConnectPhase::Connected || s.phase == ConnectPhase::Failed {
        failed_with(s, ConnectFailure::OutOfOrder)
    } else if e == ConnectionEvent::Cancelled {
        failed_with(s, ConnectFailure::Cancelled)
    } else {
        match s.phase {
            ConnectPhase::Idle => if e == ConnectionEvent::Begin {
                (ConnectionState { phase: ConnectPhase::Transport, ..s }, ConnectionAction::OpenTransport)
            } else {
                failed_with(s, ConnectFailure::OutOfOrder)
            },
            ConnectPhase::Transport => match e {
                ConnectionEvent::TransportOpened => (
                    ConnectionState { phase: ConnectPhase::NoneMethod, ..s },
                    ConnectionAction::AuthenticateNone,
                ),
                ConnectionEvent::TransportFailed(err) => failed_with(s, ConnectFailure::Transport(err)),
                _ => failed_with(s, ConnectFailure::OutOfOrder),
            },
            ConnectPhase::NoneMethod => match e {
                ConnectionEvent::NoneAnswered { accepted, methods } => if accepted {
                    (ConnectionState { phase: ConnectPhase::Sftp, ..s }, ConnectionAction::OpenSftp)
                } else {
                    (
                        ConnectionState { phase: ConnectPhase::Method(0), methods, ..s },
                        ConnectionAction::Authenticate(auth_order(s.identities_only, methods)[0]),
                    )
                },
                _ => failed_with(s, ConnectFailure::OutOfOrder),
            },
            ConnectPhase::Method(i) => match e {
                ConnectionEvent::MethodAnswered(accepted) => if accepted {
                    (ConnectionState { phase: ConnectPhase::Sftp, ..s }, ConnectionAction::OpenSftp)
                } else if i + 1 < auth_order(s.identities_only, s.methods).len() {
                    (
                        ConnectionState { phase: ConnectPhase::Method((i + 1) as usize), ..s },
                        ConnectionAction::Authenticate(auth_order(s.identities_only, s.methods)[i + 1]),
                    )
                } else {
                    failed_with(s, ConnectFailure::AuthenticationExhausted)
                },
                _ => failed_with(s, ConnectFailure::OutOfOrder),
            },
            ConnectPhase::Sftp => match e {
                ConnectionEvent::SftpOpened => (
                    ConnectionState { phase: ConnectPhase::InitialPath, ..s },
                    ConnectionAction::ResolveInitialPath,
                ),
                ConnectionEvent::SftpMissing => failed_with(s, ConnectFailure::NoSftp),
                ConnectionEvent::SftpUnusable => failed_with(s, ConnectFailure::UnusableSftp),
                _ => failed_with(s, ConnectFailure::OutOfOrder),
            },
            ConnectPhase::InitialPath => if e == ConnectionEvent::PathResolved {
                (ConnectionState { phase: ConnectPhase::Connected, ..s }, ConnectionAction::Activate)
            } else {
                failed_with(s, ConnectFailure::OutOfOrder)
            },
            _ => failed_with(s, ConnectFailure::OutOfOrder),
        }
    }
}

impl ConnectionState {
    /// An attempt that has not started.
    pub fn new(identities_only: bool) -> (r: ConnectionState)
        ensures
            r.phase == ConnectPhase::Idle,
            r.identities_only == identities_only,
    {
        ConnectionState {
            phase: ConnectPhase::Idle,
            identities_only,
            methods: ServerMethods { password: false, keyboard_interactive: false },
        }
    }
}

fn is_cancelled(e: &ConnectionEvent) -> (r: bool)
    ensures
        r == (*e == ConnectionEvent::Cancelled),
{
    match e {
        ConnectionEvent::Cancelled => true,
        _ => false,
    }
}

/// Decides the next step of an attempt to connect.
pub fn connection_step(state: ConnectionState, event: ConnectionEvent) -> (r: (ConnectionState, ConnectionAction))
    ensures
        r == connection_next(state, event),
{
    let failed = ConnectionState { phase: ConnectPhase::Failed, ..state };
    match state.phase {
        ConnectPhase::Connected | ConnectPhase::Failed => {
            return (failed, ConnectionAction::Fail(ConnectFailure::OutOfOrder));
        },
        _ => {},
    }
    if is_cancelled(&event) {
        return (failed, ConnectionAction::Fail(ConnectFailure::Cancelled));
    }
    match state.phase {
        ConnectPhase::Idle => match event {
            ConnectionEvent::Begin => (ConnectionState { phase: ConnectPhase::Transport, ..state }, ConnectionAction::OpenTransport),
            _ => (failed, ConnectionAction::Fail(ConnectFailure::OutOfOrder)),
        },
        ConnectPhase::Transport => match event {
            ConnectionEvent::TransportOpened => (
                ConnectionState { phase: ConnectPhase::NoneMethod, ..state },
                ConnectionAction::AuthenticateNone,
            ),
            ConnectionEvent::TransportFailed(err) => (failed, ConnectionAction::Fail(ConnectFailure::Transport(err))),
            _ => (failed, ConnectionAction::Fail(ConnectFailure::OutOfOrder)),
        },
        ConnectPhase::NoneMethod => match event {
            ConnectionEvent::NoneAnswered { accepted, methods } => if accepted {
                (ConnectionState { phase: ConnectPhase::Sftp, ..state }, ConnectionAction::OpenSftp)
            } else {
                let plan = auth_plan(state.identities_only, methods);
                (
                    ConnectionState { phase: ConnectPhase::Method(0), methods, ..state },
                    ConnectionAction::Authenticate(plan[0]),
                )
            },
            _ => (failed, ConnectionAction::Fail(ConnectFailure::OutOfOrder)),
        },
        ConnectPhase::Method(i) => match event {
            ConnectionEvent::MethodAnswered(accepted) => if accepted {
                (ConnectionState { phase: ConnectPhase::Sftp, ..state }, ConnectionAction::OpenSftp)
            } else {
                let plan = auth_plan(state.identities_only, state.methods);
                if i < plan.len() - 1 {
                    (
                        ConnectionState { phase: ConnectPhase::Method(i + 1), ..state },
                        ConnectionAction::Authenticate(plan[i + 1]),
                    )
                } else {
                    (failed, ConnectionAction::Fail(ConnectFailure::AuthenticationExhausted))
                }
            },
            _ => (failed, ConnectionAction::Fail(ConnectFailure::OutOfOrder)),
        },
        ConnectPhase::Sftp => match event {
            ConnectionEvent::SftpOpened => (
                ConnectionState { phase: ConnectPhase::InitialPath, ..state },
                ConnectionAction::ResolveInitialPath,
            ),
            ConnectionEvent::SftpMissing => (failed, ConnectionAction::Fail(ConnectFailure::NoSftp)),
            ConnectionEvent::SftpUnusable => (failed, ConnectionAction::Fail(ConnectFailure::UnusableSftp)),
            _ => (failed, ConnectionAction::Fail(ConnectFailure::OutOfOrder)),
        },
        ConnectPhase::InitialPath => match event {
            ConnectionEvent::PathResolved => (ConnectionState { phase: ConnectPhase::Connected, ..state }, ConnectionAction::Activate),
            _ => (failed, ConnectionAction::Fail(ConnectFailure::OutOfOrder)),
        },
        _ => (failed, ConnectionAction::Fail(ConnectFailure::OutOfOrder)),
    }
}

/// How an attempt that ended without a session is reported.
pub open spec fn failure_reported(f: ConnectFailure, target: ResolvedSshTarget, e: ExplorerError) -> bool {
    match f {
        ConnectFailure::Cancelled => e == ExplorerError::Cancelled,
        ConnectFailure::Transport(err) => e == err,
        ConnectFailure::AuthenticationExhausted => e matches ExplorerError::AuthenticationFailed(m) && m@
            == "Authentication failed for "@ + crate::ssh_targets::endpoint_text(target.username@, target.host@, target.port)
            + "."@,
        ConnectFailure::NoSftp => e matches ExplorerError::Unsupported(m) && m@
            == "The SSH server does not provide an SFTP subsystem."@,
        ConnectFailure::UnusableSftp => e matches ExplorerError::Unsupported(m) && m@
            == "The SSH server did not provide a usable SFTP subsystem."@,
        ConnectFailure::OutOfOrder => e == ExplorerError::StateUnavailable,
    }
}

/// The error an attempt to connect `target` ends with.
pub fn failure_error(failure: ConnectFailure, target: &ResolvedSshTarget) -> (r: ExplorerError)
    ensures
        failure_reported(failure, *target, r),
{
    match failure {
        ConnectFailure::Cancelled => ExplorerError::Cancelled,
        ConnectFailure::Transport(err) => err,
        ConnectFailure::AuthenticationExhausted => authentication_failed(target),
        ConnectFailure::NoSftp => ExplorerError::Unsupported("The SSH server does not provide an SFTP subsystem.".to_owned()),
        ConnectFailure::UnusableSftp => ExplorerError::Unsupported(
            "The SSH server did not provide a usable SFTP subsystem.".to_owned(),
        ),
        ConnectFailure::OutOfOrder => ExplorerError::StateUnavailable,
    }
}

} // verus!
