use explora::filesystem::ExplorerError;
use explora::native_open::{
    downloading_event, remote_open_decision, safe_snapshot_name, snapshot_destination, NativeOpenEventDto,
    NativeOpenOutcomeDto, NativeOpenRequests, LARGE_REMOTE_OPEN_BYTES, MAX_REMOTE_OPEN_BYTES,
};

#[test]
fn snapshot_names_cannot_escape_the_owned_directory() {
    assert_eq!(safe_snapshot_name("../../report.pdf"), "report.pdf");
    assert_eq!(safe_snapshot_name(".."), "remote-file");
    assert_eq!(safe_snapshot_name("a:b.txt"), "a_b.txt");
}

#[test]
fn snapshot_names_replace_reserved_and_control_characters() {
    assert_eq!(safe_snapshot_name("a\\b"), "a_b");
    assert_eq!(safe_snapshot_name("line\nbreak"), "line_break");
    assert_eq!(safe_snapshot_name(""), "remote-file");
    assert_eq!(safe_snapshot_name("/"), "remote-file");
}

#[test]
fn snapshots_live_in_a_fresh_directory_of_the_session() {
    let (directory, partial, final_path) = snapshot_destination("/tmp/explora-session", "../notes.txt");
    assert!(directory.starts_with("/tmp/explora-session/"));
    let id = &directory["/tmp/explora-session/".len()..];
    assert_eq!(id.len(), 36);
    assert_eq!(partial, format!("{directory}/download.partial"));
    assert_eq!(final_path, format!("{directory}/notes.txt"));
    let (other, _, _) = snapshot_destination("/tmp/explora-session", "notes.txt");
    assert_ne!(directory, other);
}

#[test]
fn open_requests_are_unique_and_cancellable() {
    let mut requests = NativeOpenRequests::new();
    requests.begin("open-1").expect("begin");
    assert!(matches!(requests.begin("open-1"), Err(ExplorerError::InvalidReference)));
    assert!(!requests.is_cancelled("open-1"));
    requests.cancel("open-1").expect("cancel");
    assert!(requests.is_cancelled("open-1"));
    requests.finish("open-1");
    requests.begin("open-1").expect("reuse after finish");
    assert!(!requests.is_cancelled("open-1"));
}

#[test]
fn remote_opens_need_confirmation_for_large_or_unknown_sizes() {
    assert_eq!(remote_open_decision(Some(1024), false), Ok(None));
    assert_eq!(remote_open_decision(Some(LARGE_REMOTE_OPEN_BYTES), false), Ok(None));
    assert_eq!(
        remote_open_decision(Some(LARGE_REMOTE_OPEN_BYTES + 1), false),
        Ok(Some(NativeOpenOutcomeDto::ConfirmationRequired { size: Some("268435457".to_owned()) }))
    );
    assert_eq!(
        remote_open_decision(None, false),
        Ok(Some(NativeOpenOutcomeDto::ConfirmationRequired { size: None }))
    );
    assert_eq!(remote_open_decision(None, true), Ok(None));
    assert_eq!(remote_open_decision(Some(LARGE_REMOTE_OPEN_BYTES + 1), true), Ok(None));
    assert_eq!(
        remote_open_decision(Some(MAX_REMOTE_OPEN_BYTES + 1), true),
        Err(ExplorerError::Unsupported("Remote files larger than 2 GiB cannot be opened yet.".to_owned()))
    );
    assert_eq!(
        downloading_event(10, Some(20)),
        NativeOpenEventDto::Downloading { transferred_bytes: "10".to_owned(), total_bytes: Some("20".to_owned()) }
    );
}

#[test]
fn only_the_cancelled_open_request_reports_cancellation() {
    let mut requests = NativeOpenRequests::new();
    requests.begin("open-a").expect("a");
    requests.begin("open-b").expect("b");
    assert!(!requests.is_cancelled("open-a"));
    requests.cancel("open-a").expect("cancel");
    assert!(requests.is_cancelled("open-a"));
    assert!(!requests.is_cancelled("open-b"));
    assert!(requests.is_cancelled("unknown"));
    requests.finish("open-a");
    assert!(requests.is_cancelled("open-a"));
}
