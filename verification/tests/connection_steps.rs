use explora::connection_steps::{
    connection_step, failure_error, ConnectFailure, ConnectPhase, ConnectionAction, ConnectionEvent, ConnectionState,
};
use explora::filesystem::ExplorerError;
use explora::ssh_status::{AuthMethod, ServerMethods};
use explora::ssh_targets::ResolvedSshTarget;

fn target() -> ResolvedSshTarget {
    ResolvedSshTarget {
        id: "manual:1".to_owned(),
        name: "Server".to_owned(),
        host: "example.org".to_owned(),
        port: 2222,
        username: "me".to_owned(),
        initial_path: "~".to_owned(),
        identity_files: Vec::new(),
        identities_only: false,
        known_hosts_path: "/home/me/.ssh/known_hosts".to_owned(),
    }
}

#[test]
fn a_connection_tries_each_offered_method_in_order_then_opens_sftp() {
    let state = ConnectionState::new(false);
    let (state, action) = connection_step(state, ConnectionEvent::Begin);
    assert_eq!(action, ConnectionAction::OpenTransport);
    let (state, action) = connection_step(state, ConnectionEvent::TransportOpened);
    assert_eq!(action, ConnectionAction::AuthenticateNone);
    let offered = ServerMethods { password: true, keyboard_interactive: false };
    let (state, action) = connection_step(state, ConnectionEvent::NoneAnswered { accepted: false, methods: offered });
    assert_eq!(action, ConnectionAction::Authenticate(AuthMethod::Agent));
    let (state, action) = connection_step(state, ConnectionEvent::MethodAnswered(false));
    assert_eq!(action, ConnectionAction::Authenticate(AuthMethod::IdentityFiles));
    let (state, action) = connection_step(state, ConnectionEvent::MethodAnswered(false));
    assert_eq!(action, ConnectionAction::Authenticate(AuthMethod::Password));
    let (state, action) = connection_step(state, ConnectionEvent::MethodAnswered(true));
    assert_eq!(action, ConnectionAction::OpenSftp);
    let (state, action) = connection_step(state, ConnectionEvent::SftpOpened);
    assert_eq!(action, ConnectionAction::ResolveInitialPath);
    let (state, action) = connection_step(state, ConnectionEvent::PathResolved);
    assert_eq!(action, ConnectionAction::Activate);
    assert_eq!(state.phase, ConnectPhase::Connected);
}

#[test]
fn exhausted_methods_missing_sftp_and_cancellation_end_the_attempt() {
    let state = ConnectionState::new(true);
    let (state, _) = connection_step(state, ConnectionEvent::Begin);
    let (state, _) = connection_step(state, ConnectionEvent::TransportOpened);
    let none = ServerMethods { password: false, keyboard_interactive: false };
    let (state, action) = connection_step(state, ConnectionEvent::NoneAnswered { accepted: false, methods: none });
    assert_eq!(action, ConnectionAction::Authenticate(AuthMethod::IdentityFiles));
    let (state, action) = connection_step(state, ConnectionEvent::MethodAnswered(false));
    assert_eq!(action, ConnectionAction::Fail(ConnectFailure::AuthenticationExhausted));
    assert_eq!(state.phase, ConnectPhase::Failed);
    assert_eq!(
        failure_error(ConnectFailure::AuthenticationExhausted, &target()),
        ExplorerError::AuthenticationFailed("Authentication failed for me@example.org:2222.".to_owned())
    );

    let (state, _) = connection_step(ConnectionState::new(false), ConnectionEvent::Begin);
    let (state, _) = connection_step(state, ConnectionEvent::TransportOpened);
    let (state, _) = connection_step(state, ConnectionEvent::NoneAnswered { accepted: true, methods: none });
    let (_, action) = connection_step(state, ConnectionEvent::SftpMissing);
    assert_eq!(action, ConnectionAction::Fail(ConnectFailure::NoSftp));

    let (state, _) = connection_step(ConnectionState::new(false), ConnectionEvent::Begin);
    let (_, action) = connection_step(state, ConnectionEvent::Cancelled);
    assert_eq!(action, ConnectionAction::Fail(ConnectFailure::Cancelled));
    let failed = ExplorerError::Offline("unreachable".to_owned());
    let (state, _) = connection_step(ConnectionState::new(false), ConnectionEvent::Begin);
    let (_, action) = connection_step(state, ConnectionEvent::TransportFailed(failed.clone()));
    assert_eq!(action, ConnectionAction::Fail(ConnectFailure::Transport(failed)));
    let (_, action) = connection_step(ConnectionState::new(false), ConnectionEvent::SftpOpened);
    assert_eq!(action, ConnectionAction::Fail(ConnectFailure::OutOfOrder));
}
