use explora::content_request::{ContentRequests, MAX_CONCURRENT_CONTENT_REQUESTS};
use explora::filesystem::ExplorerError;

#[test]
fn cancellation_stops_waiting_without_reusing_the_request_id() {
    let mut requests = ContentRequests::new();
    let token = requests.begin("content-1").expect("begin request");
    requests.cancel("content-1").expect("cancel request");
    assert!(requests.is_cancelled("content-1", token));
    assert!(matches!(requests.begin("content-1"), Err(ExplorerError::InvalidReference)));
}

#[test]
fn ending_a_request_allows_its_id_again_without_confusing_registrations() {
    let mut requests = ContentRequests::new();
    let first = requests.begin("content-1").expect("first");
    requests.cancel("content-1").expect("cancel");
    requests.end("content-1", first);
    let second = requests.begin("content-1").expect("reuse request id after the wait ended");
    assert_ne!(first, second);
    assert!(!requests.is_cancelled("content-1", second));
    requests.end("content-1", first);
    assert!(matches!(requests.begin("content-1"), Err(ExplorerError::InvalidReference)));
}

#[test]
fn active_waits_are_bounded_even_with_distinct_request_ids() {
    let mut requests = ContentRequests::with_limit(1);
    let first = requests.begin("content-1").expect("first request");
    assert!(matches!(
        requests.begin("content-2"),
        Err(ExplorerError::Unexpected(message)) if message.contains("Too many files")
    ));
    requests.end("content-1", first);
    let second = requests.begin("content-2").expect("permit released after wait ends");
    requests.end("content-2", second);
}

#[test]
fn the_default_limit_allows_four_requests_at_a_time() {
    let mut requests = ContentRequests::new();
    for i in 0..MAX_CONCURRENT_CONTENT_REQUESTS {
        requests.begin(&format!("content-{i}")).expect("within the limit");
    }
    assert_eq!(MAX_CONCURRENT_CONTENT_REQUESTS, 4);
    assert!(matches!(
        requests.begin("content-extra"),
        Err(ExplorerError::Unexpected(message)) if message.contains("Too many files")
    ));
}
