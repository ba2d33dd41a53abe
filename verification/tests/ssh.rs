use explora::filesystem::{ExplorerError, IoErrorKind};
use explora::registry::RemotePathRegistry;
use explora::ssh::{
    content_kind, endpoint, map_remote_transfer_error, map_sftp_error, partial_entry_path, remote_breadcrumb_paths,
    remote_join, remote_name, remote_parent, require_answers, PromptBroker, SftpFailure, SftpStatusCode,
    SshPromptResponseDto,
};
use explora::ssh_status::{accept_host_key, apply_statuses, check_server_key, HostKey, HostKeyCheck, SessionStatus};
use explora::ssh_targets::{ResolvedSshTarget, SshTargetSource, SshTargetSummaryDto};

#[test]
fn remote_path_references_are_opaque_and_scoped_to_the_registry() {
    let mut first = RemotePathRegistry::new();
    let second = RemotePathRegistry::new();
    let reference = first.register("/srv/app/private.txt").expect("reference");

    assert!(!reference.contains("private.txt"));
    assert_eq!(first.resolve(&reference).expect("resolved path"), "/srv/app/private.txt");
    assert!(matches!(second.resolve(&reference), Err(ExplorerError::InvalidReference)));
}

#[test]
fn prompt_responses_require_the_matching_connection_request() {
    let mut broker = PromptBroker::new();
    broker.insert("prompt-1", "connection-1");

    assert!(matches!(broker.respond("another-connection", "prompt-1", SshPromptResponseDto::Accept), Err(ExplorerError::InvalidReference)));
    assert_eq!(broker.respond("connection-1", "prompt-1", SshPromptResponseDto::Accept), Ok(SshPromptResponseDto::Accept));
    assert!(matches!(broker.respond("connection-1", "prompt-1", SshPromptResponseDto::Accept), Err(ExplorerError::InvalidReference)));
}

#[test]
fn remote_path_helpers_preserve_root_and_relative_semantics() {
    assert_eq!(remote_parent("/srv/app"), Some("/srv".to_owned()));
    assert_eq!(remote_parent("/"), None);
    assert_eq!(remote_parent("projects/app"), Some("projects".to_owned()));
    assert_eq!(remote_name("/srv/app/"), "app");
    assert_eq!(content_kind("main.rs", false), "code");
    assert_eq!(content_kind("assets", true), "folder");
}

#[test]
fn remote_parents_of_top_level_entries() {
    assert_eq!(remote_parent("/srv"), Some("/".to_owned()));
    assert_eq!(remote_parent("app"), Some("/".to_owned()));
    assert_eq!(remote_name("/"), "/");
    assert_eq!(remote_join("/", "etc"), "/etc");
    assert_eq!(remote_join("/srv", "app"), "/srv/app");
}

#[test]
fn remote_breadcrumbs_walk_from_the_root() {
    let crumbs = remote_breadcrumb_paths("/srv/app", "Server");
    assert_eq!(
        crumbs,
        vec![
            ("Server".to_owned(), "/".to_owned()),
            ("srv".to_owned(), "/srv".to_owned()),
            ("app".to_owned(), "/srv/app".to_owned()),
        ]
    );
    let relative = remote_breadcrumb_paths("projects/app", "Server");
    assert_eq!(
        relative,
        vec![("projects".to_owned(), "projects".to_owned()), ("app".to_owned(), "projects/app".to_owned())]
    );
    assert_eq!(remote_breadcrumb_paths("", "Server"), vec![("Server".to_owned(), "".to_owned())]);
}

#[test]
fn prompt_answers_must_match_the_prompt() {
    let answers = SshPromptResponseDto::Answers { answers: vec!["secret".to_owned()] };
    assert_eq!(require_answers(answers, 1).expect("one answer"), vec!["secret".to_owned()]);
    let too_many = SshPromptResponseDto::Answers { answers: vec!["a".to_owned(), "b".to_owned()] };
    assert!(matches!(require_answers(too_many, 1), Err(ExplorerError::InvalidReference)));
    assert!(matches!(require_answers(SshPromptResponseDto::Reject, 1), Err(ExplorerError::Cancelled)));
}

#[test]
fn cancelling_a_connection_drops_only_its_prompts() {
    let mut broker = PromptBroker::new();
    broker.insert("prompt-1", "connection-1");
    broker.insert("prompt-2", "connection-2");
    let cancelled = broker.cancel("connection-1");
    assert_eq!(cancelled, vec!["prompt-1".to_owned()]);
    assert!(matches!(broker.respond("connection-1", "prompt-1", SshPromptResponseDto::Reject), Err(ExplorerError::InvalidReference)));
    let answers = SshPromptResponseDto::Answers { answers: vec!["secret".to_owned()] };
    assert_eq!(broker.respond("connection-2", "prompt-2", answers.clone()), Ok(answers));
}

#[test]
fn sftp_failures_map_to_browse_errors() {
    assert_eq!(
        map_sftp_error(SftpFailure::Status(SftpStatusCode::NoSuchFile)),
        ExplorerError::Io { message: "The remote path no longer exists.".to_owned(), kind: IoErrorKind::NotFound }
    );
    assert_eq!(
        map_sftp_error(SftpFailure::Status(SftpStatusCode::Other("Failure".to_owned()))),
        ExplorerError::Unexpected("The SFTP server returned status Failure.".to_owned())
    );
    assert_eq!(map_sftp_error(SftpFailure::Timeout), ExplorerError::Offline("The SFTP request timed out.".to_owned()));
    assert_eq!(
        map_sftp_error(SftpFailure::Limited("too big".to_owned())),
        ExplorerError::Unexpected("The SFTP request failed: too big".to_owned())
    );
}

#[test]
fn sftp_failures_map_to_transfer_errors() {
    assert_eq!(map_remote_transfer_error(SftpFailure::Status(SftpStatusCode::NoSuchFile)), ExplorerError::SourceChanged);
    assert_eq!(
        map_remote_transfer_error(SftpFailure::Limited("x".to_owned())),
        ExplorerError::InvalidConfiguration("The remote server's SFTP limits rejected the transfer request.".to_owned())
    );
}

#[test]
fn partial_entries_stay_under_the_partial_path() {
    assert_eq!(partial_entry_path("/tmp/p", "").expect("root"), "/tmp/p");
    assert_eq!(partial_entry_path("/tmp/p", "a/b").expect("nested"), "/tmp/p/a/b");
    assert!(matches!(partial_entry_path("/tmp/p", "../x"), Err(ExplorerError::InvalidReference)));
    assert!(matches!(partial_entry_path("/tmp/p", "/etc"), Err(ExplorerError::InvalidReference)));
}

fn resolved(port: u16) -> ResolvedSshTarget {
    ResolvedSshTarget {
        id: "manual:1".to_owned(),
        name: "Server".to_owned(),
        host: "example.org".to_owned(),
        port,
        username: "me".to_owned(),
        initial_path: "/".to_owned(),
        identity_files: Vec::new(),
        identities_only: false,
        known_hosts_path: "/home/me/.ssh/known_hosts".to_owned(),
    }
}

#[test]
fn endpoints_hide_the_standard_port() {
    assert_eq!(endpoint(&resolved(22)), "me@example.org");
    assert_eq!(endpoint(&resolved(2222)), "me@example.org:2222");
}

fn key(algorithm: &str, bytes: &[u8]) -> HostKey {
    HostKey { algorithm: algorithm.to_owned(), key: bytes.to_vec() }
}

#[test]
fn known_host_keys_are_trusted_changed_keys_blocked_and_new_hosts_prompted() {
    let known = vec![key("ssh-ed25519", &[1, 2, 3])];
    assert_eq!(check_server_key(&known, &key("ssh-ed25519", &[1, 2, 3]), "example.org"), Ok(HostKeyCheck::Trusted));
    assert_eq!(
        check_server_key(&known, &key("ssh-ed25519", &[9, 9, 9]), "example.org"),
        Err(ExplorerError::HostKeyFailure(
            "The SSH host key for example.org has changed. Connection was blocked.".to_owned()
        ))
    );
    assert_eq!(check_server_key(&known, &key("rsa-sha2-512", &[1, 2, 3]), "example.org"), Ok(HostKeyCheck::Prompt));
    assert_eq!(check_server_key(&Vec::new(), &key("ssh-ed25519", &[1]), "example.org"), Ok(HostKeyCheck::Prompt));
}

#[test]
fn only_an_accepted_host_key_lets_the_connection_continue() {
    assert_eq!(accept_host_key(&SshPromptResponseDto::Accept), Ok(()));
    assert_eq!(accept_host_key(&SshPromptResponseDto::Reject), Err(ExplorerError::Cancelled));
    assert_eq!(
        accept_host_key(&SshPromptResponseDto::Answers { answers: Vec::new() }),
        Err(ExplorerError::Cancelled)
    );
}

fn summary(id: &str) -> SshTargetSummaryDto {
    SshTargetSummaryDto {
        id: id.to_owned(),
        location_id: format!("ssh:{id}"),
        name: id.to_owned(),
        source: SshTargetSource::Manual,
        endpoint: "me@example.org".to_owned(),
        status: "disconnected".to_owned(),
        editable: true,
        connected_location_id: None,
        configuration: None,
    }
}

#[test]
fn target_statuses_follow_sessions_and_connection_attempts() {
    let mut targets = vec![summary("a"), summary("b"), summary("c"), summary("d")];
    let sessions = vec![
        SessionStatus { target_id: "a".to_owned(), active: true, location_id: "ssh-session:a".to_owned() },
        SessionStatus { target_id: "d".to_owned(), active: false, location_id: "ssh-session:d".to_owned() },
    ];
    let connecting = vec!["b".to_owned(), "d".to_owned()];
    apply_statuses(&mut targets, &sessions, &connecting);

    assert_eq!(targets[0].status, "connected");
    assert_eq!(targets[0].connected_location_id, Some("ssh-session:a".to_owned()));
    assert_eq!(targets[1].status, "connecting");
    assert_eq!(targets[1].connected_location_id, None);
    assert_eq!(targets[2].status, "disconnected");
    assert_eq!(targets[3].status, "connecting");
    assert_eq!(targets[3].connected_location_id, None);
    assert_eq!(targets[2], summary("c"));
}
