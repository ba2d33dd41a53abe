use explora::filesystem::{ExplorerError, ExplorerErrorCode, ExplorerErrorDto};
use explora::ids::{validate_reference_id, validate_request_id};
use explora::listings::Listings;

#[test]
fn request_ids_are_bounded() {
    assert!(validate_request_id("request-1").is_ok());
    assert!(validate_request_id("").is_err());
    assert!(validate_request_id(&"x".repeat(129)).is_err());
}

#[test]
fn reference_ids_are_bounded() {
    assert!(validate_reference_id("entry-1").is_ok());
    assert!(validate_reference_id("").is_err());
    assert!(validate_reference_id(&"x".repeat(257)).is_err());
}

#[test]
fn unexpected_error_code_remains_serializable() {
    let error = ExplorerErrorDto { code: ExplorerErrorCode::Unexpected, message: "failed".to_owned() };
    assert_eq!(error.code, ExplorerErrorCode::Unexpected);
}

#[test]
fn id_bounds_are_inclusive() {
    assert!(validate_request_id(&"x".repeat(128)).is_ok());
    assert!(validate_reference_id(&"x".repeat(256)).is_ok());
    assert!(matches!(validate_request_id(""), Err(ExplorerError::InvalidReference)));
}

#[test]
fn a_listing_runs_until_cancelled_and_is_forgotten_when_it_ends() {
    let mut listings = Listings::new();
    listings.begin_listing("listing-1").expect("begin");
    assert!(!listings.is_cancelled("listing-1"));
    assert!(matches!(listings.begin_listing("listing-1"), Err(ExplorerError::InvalidReference)));

    listings.cancel_listing("listing-1").expect("cancel");
    assert!(listings.is_cancelled("listing-1"));

    listings.finish_listing("listing-1");
    assert!(!listings.is_cancelled("listing-1"));
    listings.begin_listing("listing-1").expect("id can be reused once the listing ended");
    assert!(!listings.is_cancelled("listing-1"));
}

#[test]
fn cancelling_one_listing_leaves_the_others_running() {
    let mut listings = Listings::new();
    listings.begin_listing("a").expect("begin a");
    listings.begin_listing("b").expect("begin b");
    listings.cancel_listing("a").expect("cancel a");
    assert!(listings.is_cancelled("a"));
    assert!(!listings.is_cancelled("b"));
    assert!(listings.cancel_listing("unknown").is_ok());
    assert!(!listings.is_cancelled("unknown"));
}

#[test]
fn listings_refuse_malformed_request_ids() {
    let mut listings = Listings::new();
    assert!(matches!(listings.begin_listing(""), Err(ExplorerError::InvalidReference)));
    assert!(matches!(listings.begin_listing(&"r".repeat(129)), Err(ExplorerError::InvalidReference)));
}
