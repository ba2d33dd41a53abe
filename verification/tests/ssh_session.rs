use explora::filesystem::{ContentAvailability, DirectoryListingEvent, EntryRefDto, ExplorerError, FileEntrySummaryDto, LocationBackend, LocationRole, LISTING_BATCH_SIZE};
use explora::listings::ListingBatcher;
use explora::registry::RemotePathRegistry;
use explora::ssh::SshConnectionEventDto;
use explora::ssh_session::{RemoteSession, SessionLifecycle};
use explora::ssh_status::{auth_plan, authentication_failed, connect_failure, connect_timeout, AuthMethod, ServerMethods};
use explora::ssh_targets::ResolvedSshTarget;

fn target() -> ResolvedSshTarget {
    ResolvedSshTarget {
        id: "manual:1".to_owned(),
        name: "Server".to_owned(),
        host: "example.org".to_owned(),
        port: 2222,
        username: "me".to_owned(),
        initial_path: "~".to_owned(),
        identity_files: Vec::new(),
        identities_only: false,
        known_hosts_path: "/home/me/.ssh/known_hosts".to_owned(),
    }
}

#[test]
fn a_session_offers_its_root_as_a_location() {
    let mut session = RemoteSession::new(target(), RemotePathRegistry::new(), "/home/me").expect("session");
    assert_eq!(session.state_now(), SessionLifecycle::Connecting);
    session.activate().expect("activate");
    let location = session.location_summary();
    assert_eq!(location.id, "ssh:manual:1");
    assert_eq!(location.name, "Server");
    assert_eq!(location.backend, LocationBackend::Ssh);
    assert_eq!(location.role, LocationRole::Ssh);
    assert_eq!(location.status, "connected");
    assert_eq!(location.display_path, "Server:/home/me");
    assert_eq!(location.detail, "SSH · me@example.org:2222");
    assert_eq!(session.resolve(&location.root.id).expect("root"), "/home/me");
}

#[test]
fn directory_references_are_stable_and_resolvable() {
    let mut session = RemoteSession::new(target(), RemotePathRegistry::new(), "/").expect("session");
    let a = session.directory_ref("/srv/app", None).expect("reference");
    assert_eq!(a.name, "app");
    assert_eq!(a.display_path, "Server:/srv/app");
    assert_eq!(a.location_id, "ssh:manual:1");
    let again = session.directory_ref("/srv/app", Some("Application".to_owned())).expect("again");
    assert_eq!(again.id, a.id);
    assert_eq!(again.name, "Application");
    assert_eq!(session.resolve(&a.id).expect("resolve"), "/srv/app");
    assert_eq!(session.resolve("unknown"), Err(ExplorerError::InvalidReference));
}

#[test]
fn only_an_active_session_reports_its_loss() {
    let mut session = RemoteSession::new(target(), RemotePathRegistry::new(), "/").expect("session");
    assert!(!session.mark_offline());
    session.activate().expect("activate");
    assert!(session.mark_offline());
    assert_eq!(session.state_now(), SessionLifecycle::Disconnected);
    assert!(!session.mark_offline());
    assert!(!session.disconnected());
    assert_eq!(
        session.activate(),
        Err(ExplorerError::Offline("The SSH connection closed while Explora was opening SFTP.".to_owned()))
    );
}

#[test]
fn a_closed_transport_ends_the_session() {
    let mut session = RemoteSession::new(target(), RemotePathRegistry::new(), "/").expect("session");
    session.activate().expect("activate");
    assert!(session.begin_disconnect());
    assert_eq!(session.state_now(), SessionLifecycle::Disconnecting);
    assert!(!session.disconnected());
    assert_eq!(session.state_now(), SessionLifecycle::Disconnected);
}

#[test]
fn authentication_tries_the_agent_keys_and_offered_methods_in_order() {
    let all = ServerMethods { password: true, keyboard_interactive: true };
    assert_eq!(
        auth_plan(false, all),
        vec![AuthMethod::Agent, AuthMethod::IdentityFiles, AuthMethod::Password, AuthMethod::KeyboardInteractive]
    );
    assert_eq!(auth_plan(true, ServerMethods { password: false, keyboard_interactive: false }), vec![AuthMethod::IdentityFiles]);
    assert_eq!(
        auth_plan(true, ServerMethods { password: false, keyboard_interactive: true }),
        vec![AuthMethod::IdentityFiles, AuthMethod::KeyboardInteractive]
    );
}

#[test]
fn connection_failures_are_reported_by_host() {
    assert_eq!(
        authentication_failed(&target()),
        ExplorerError::AuthenticationFailed("Authentication failed for me@example.org:2222.".to_owned())
    );
    assert_eq!(connect_failure("example.org", ExplorerError::Cancelled), ExplorerError::Cancelled);
    assert_eq!(
        connect_failure("example.org", ExplorerError::HostKeyFailure("changed".to_owned())),
        ExplorerError::HostKeyFailure("changed".to_owned())
    );
    assert_eq!(
        connect_failure("example.org", ExplorerError::Unexpected("refused".to_owned())),
        ExplorerError::Offline("Explora could not connect to example.org: refused".to_owned())
    );
    assert_eq!(connect_timeout("example.org"), ExplorerError::Offline("The SSH connection to example.org timed out.".to_owned()));
}

fn entry(i: usize) -> FileEntrySummaryDto {
    FileEntrySummaryDto {
        reference: EntryRefDto { id: format!("e{i}"), location_id: "home".to_owned() },
        name: format!("file-{i}"),
        kind: "file".to_owned(),
        content_kind: "other".to_owned(),
        size: Some("0".to_owned()),
        modified_at: None,
        display_path: format!("/tmp/file-{i}"),
        directory: None,
        availability: ContentAvailability::Local,
        detail: None,
        native_open: "direct".to_owned(),
    }
}

#[test]
fn streams_large_directories_in_full_batches() {
    let mut batcher = ListingBatcher::new();
    let mut events = Vec::new();
    for i in 0..(2 * LISTING_BATCH_SIZE + 5) {
        if let Some(event) = batcher.push(entry(i)) {
            events.push(event);
        }
    }
    batcher.skip();
    events.extend(batcher.finish());
    assert_eq!(events.len(), 4);
    let mut seen = Vec::new();
    for (index, event) in events.iter().enumerate() {
        match event {
            DirectoryListingEvent::Entries { entries, replace } => {
                assert_eq!(*replace, index == 0);
                assert!(!entries.is_empty() && entries.len() <= LISTING_BATCH_SIZE);
                seen.extend(entries.iter().map(|e| e.name.clone()));
            },
            DirectoryListingEvent::Complete { skipped_entries } => {
                assert_eq!(index, 3);
                assert_eq!(*skipped_entries, 1);
            },
            _ => panic!("unexpected event"),
        }
    }
    let expected: Vec<String> = (0..(2 * LISTING_BATCH_SIZE + 5)).map(|i| format!("file-{i}")).collect();
    assert_eq!(seen, expected);
}

#[test]
fn an_empty_directory_only_completes() {
    let batcher = ListingBatcher::new();
    assert_eq!(batcher.finish(), vec![DirectoryListingEvent::Complete { skipped_entries: 0 }]);
}

#[test]
fn a_reconnected_session_resolves_the_references_of_the_previous_one() {
    let mut first = RemoteSession::new(target(), RemotePathRegistry::new(), "/home/me").expect("session");
    first.activate().expect("activate");
    let folder = first.directory_ref("/srv/app", None).expect("reference");
    assert!(first.mark_offline());
    let paths = first.into_paths();

    let mut second = RemoteSession::new(target(), paths, "/home/me").expect("reconnected");
    second.activate().expect("activate");
    assert_eq!(second.resolve(&folder.id).expect("same reference"), "/srv/app");
    assert_eq!(second.directory_ref("/srv/app", None).expect("again").id, folder.id);
}

#[test]
fn remote_listings_start_with_the_directory_its_parent_and_its_trail() {
    let mut session = RemoteSession::new(target(), RemotePathRegistry::new(), "/srv").expect("session");
    let app = session.directory_ref("/srv/app", None).expect("reference");
    let (started, path) = session.listing_start(&app.id).expect("listing");
    assert_eq!(path, "/srv/app");
    match started {
        DirectoryListingEvent::Started { directory, parent, breadcrumbs } => {
            assert_eq!(directory.id, app.id);
            assert_eq!(directory.display_path, "Server:/srv/app");
            let parent = parent.expect("parent");
            assert_eq!(parent.name, "srv");
            assert_eq!(session.resolve(&parent.id).expect("parent path"), "/srv");
            let labels: Vec<&str> = breadcrumbs.iter().map(|c| c.label.as_str()).collect();
            assert_eq!(labels, vec!["Server", "srv", "app"]);
            assert_eq!(session.resolve(&breadcrumbs[0].directory.id).expect("root"), "/");
            assert_eq!(breadcrumbs[2].directory.id, app.id);
        },
        _ => panic!("a start event"),
    }
    assert_eq!(session.listing_start("unknown").err(), Some(ExplorerError::InvalidReference));
}

#[test]
fn a_lost_session_reports_which_target_was_lost() {
    let mut session = RemoteSession::new(target(), RemotePathRegistry::new(), "/").expect("session");
    session.activate().expect("activate");
    assert!(session.disconnected());
    match session.lost_event() {
        SshConnectionEventDto::Disconnected { target_id, message } => {
            assert_eq!(target_id, "manual:1");
            assert_eq!(message, "The SSH connection was lost. Reconnect to continue browsing.");
        }
        _ => panic!("expected a disconnection event"),
    }
}
