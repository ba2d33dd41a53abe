use explora::filesystem::ExplorerError;
use explora::ssh_manager::SshSessions;
use explora::ssh_session::RemoteSession;
use explora::ssh_targets::ResolvedSshTarget;

fn target(id: &str) -> ResolvedSshTarget {
    ResolvedSshTarget {
        id: id.to_owned(),
        name: "Server".to_owned(),
        host: "example.org".to_owned(),
        port: 22,
        username: "me".to_owned(),
        initial_path: "~".to_owned(),
        identity_files: Vec::new(),
        identities_only: false,
        known_hosts_path: "/home/me/.ssh/known_hosts".to_owned(),
    }
}

#[test]
fn connection_attempts_are_unique_per_request_and_target() {
    let mut manager = SshSessions::new();
    assert_eq!(manager.begin_connection("", "manual:1"), Err(ExplorerError::InvalidReference));
    assert_eq!(manager.begin_connection(&"r".repeat(129), "manual:1"), Err(ExplorerError::InvalidReference));
    assert_eq!(manager.begin_connection(&"r".repeat(128), "manual:1"), Ok(()));
    assert_eq!(manager.begin_connection("other", "manual:1"), Err(ExplorerError::InvalidReference));
    assert_eq!(manager.begin_connection(&"r".repeat(128), "manual:2"), Err(ExplorerError::InvalidReference));
    assert_eq!(manager.begin_connection("second", "manual:2"), Ok(()));
    assert_eq!(manager.connecting_targets(), vec!["manual:1".to_owned(), "manual:2".to_owned()]);
}

#[test]
fn cancelling_marks_only_the_named_attempt() {
    let mut manager = SshSessions::new();
    manager.begin_connection("a", "manual:1").expect("a");
    manager.begin_connection("b", "manual:2").expect("b");
    manager.cancel_connection("a");
    manager.cancel_connection("unknown");
    assert!(manager.is_cancelled("a"));
    assert!(!manager.is_cancelled("b"));
    assert!(!manager.is_cancelled("unknown"));
    manager.finish_connection("a");
    assert!(!manager.is_cancelled("a"));
    assert_eq!(manager.connecting_targets(), vec!["manual:2".to_owned()]);
    assert_eq!(manager.begin_connection("a", "manual:1"), Ok(()));
}

#[test]
fn an_active_session_is_reused_and_listed() {
    let mut manager = SshSessions::new();
    let registry = manager.registry_for("manual:1");
    let mut session = RemoteSession::new(target("manual:1"), registry, "/home/me").expect("session");
    session.activate().expect("activate");
    manager.insert_session(session);
    let location = manager.existing_location("manual:1").expect("reused");
    assert_eq!(location.id, "ssh:manual:1");
    assert!(manager.existing_location("manual:2").is_none());
    let locations = manager.locations();
    assert_eq!(locations.len(), 1);
    assert_eq!(locations[0].id, "ssh:manual:1");
    let statuses = manager.session_statuses();
    assert_eq!(statuses.len(), 1);
    assert_eq!(statuses[0].target_id, "manual:1");
    assert!(statuses[0].active);
    assert_eq!(statuses[0].location_id, "ssh:manual:1");
}

#[test]
fn a_session_that_is_not_active_is_closed_and_not_listed() {
    let mut manager = SshSessions::new();
    let registry = manager.registry_for("manual:1");
    let session = RemoteSession::new(target("manual:1"), registry, "/").expect("session");
    manager.insert_session(session);
    assert!(manager.locations().is_empty());
    assert!(!manager.session_statuses()[0].active);
    assert!(manager.existing_location("manual:1").is_none());
    assert!(manager.session_statuses().is_empty());
    assert!(!manager.disconnect("manual:1"));
}

#[test]
fn a_reconnect_resolves_the_references_of_the_earlier_session() {
    let mut manager = SshSessions::new();
    let registry = manager.registry_for("manual:1");
    let mut session = RemoteSession::new(target("manual:1"), registry, "/home/me").expect("session");
    session.activate().expect("activate");
    let reference = session.directory_ref("/srv/app", None).expect("reference");
    manager.insert_session(session);
    assert!(manager.disconnect("manual:1"));
    assert!(manager.existing_location("manual:1").is_none());
    let registry = manager.registry_for("manual:1");
    assert_eq!(registry.resolve(&reference.id).expect("kept"), "/srv/app");
    let again = RemoteSession::new(target("manual:1"), registry, "/home/me").expect("again");
    assert_eq!(again.resolve(&reference.id).expect("resolves"), "/srv/app");
}

#[test]
fn forgetting_a_target_drops_its_references() {
    let mut manager = SshSessions::new();
    let registry = manager.registry_for("manual:1");
    let mut session = RemoteSession::new(target("manual:1"), registry, "/").expect("session");
    let reference = session.directory_ref("/srv", None).expect("reference");
    manager.insert_session(session);
    assert!(manager.forget_target("manual:1"));
    assert!(!manager.forget_target("manual:1"));
    let registry = manager.registry_for("manual:1");
    assert_eq!(registry.resolve(&reference.id), Err(ExplorerError::InvalidReference));
}
