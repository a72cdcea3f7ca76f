use gtfs_server::feed::{FeedType, GtfsRt, GtfsRtError, PollOutcome, RETRY_DELAY_SECS};

#[test]
fn single_url_serves_vehicle_positions_only() {
    let rt = GtfsRt::new_single_url("https://example.org/rt");
    assert_eq!(rt.feed_url(FeedType::VehiclePosition).unwrap(), "https://example.org/rt");
    assert!(matches!(
        rt.feed_url(FeedType::TripUpdate),
        Err(GtfsRtError::MissingFeed(FeedType::TripUpdate))
    ));
    assert!(matches!(
        rt.feed_url(FeedType::Alert),
        Err(GtfsRtError::MissingFeed(FeedType::Alert))
    ));
    assert_eq!(rt.latest_timestamp(), 0);
}

#[test]
fn full_constructor_serves_each_kind() {
    let rt = GtfsRt::new("trips", "vehicles", "alerts");
    assert_eq!(rt.feed_url(FeedType::TripUpdate).unwrap(), "trips");
    assert_eq!(rt.feed_url(FeedType::VehiclePosition).unwrap(), "vehicles");
    assert_eq!(rt.feed_url(FeedType::Alert).unwrap(), "alerts");
}

#[test]
fn optional_constructor_reports_missing_kinds() {
    let rt = GtfsRt::new_optional(Some("trips"), None, Some("alerts"));
    assert_eq!(rt.feed_url(FeedType::TripUpdate).unwrap(), "trips");
    assert_eq!(rt.feed_url(FeedType::Alert).unwrap(), "alerts");
    assert!(matches!(
        rt.feed_url(FeedType::VehiclePosition),
        Err(GtfsRtError::MissingFeed(FeedType::VehiclePosition))
    ));
    let none = GtfsRt::new_optional(None, None, None);
    for kind in [FeedType::TripUpdate, FeedType::VehiclePosition, FeedType::Alert] {
        assert!(matches!(none.feed_url(kind), Err(GtfsRtError::MissingFeed(k)) if k == kind));
    }
}

#[test]
fn untimed_message_is_delivered_at_once() {
    let mut rt = GtfsRt::new_single_url("u");
    assert_eq!(rt.observe(None), PollOutcome::Deliver);
    assert_eq!(rt.latest_timestamp(), 0);
    assert_eq!(rt.observe(Some(7)), PollOutcome::Deliver);
    assert_eq!(rt.observe(None), PollOutcome::Deliver);
    assert_eq!(rt.latest_timestamp(), 7);
}

#[test]
fn stale_timestamp_waits_and_keeps_watermark() {
    let mut rt = GtfsRt::new_single_url("u");
    assert_eq!(rt.observe(Some(100)), PollOutcome::Deliver);
    assert_eq!(rt.latest_timestamp(), 100);
    assert_eq!(rt.observe(Some(100)), PollOutcome::WaitAndRetry);
    assert_eq!(rt.observe(Some(40)), PollOutcome::WaitAndRetry);
    assert_eq!(rt.latest_timestamp(), 100);
    assert_eq!(rt.observe(Some(101)), PollOutcome::Deliver);
    assert_eq!(rt.latest_timestamp(), 101);
    assert_eq!(RETRY_DELAY_SECS, 5);
}

#[test]
fn watermark_never_decreases_over_a_run() {
    let mut rt = GtfsRt::new_single_url("u");
    let mut previous = rt.latest_timestamp();
    for ts in [Some(5), None, Some(3), Some(9), Some(9), None, Some(u64::MAX), Some(0)] {
        rt.observe(ts);
        assert!(rt.latest_timestamp() >= previous);
        previous = rt.latest_timestamp();
    }
    assert_eq!(previous, u64::MAX);
}

#[test]
fn zero_timestamp_is_not_new_on_a_fresh_source() {
    let mut rt = GtfsRt::new_single_url("u");
    assert_eq!(rt.observe(Some(0)), PollOutcome::WaitAndRetry);
    assert_eq!(rt.latest_timestamp(), 0);
}

#[test]
fn feed_kinds_have_quoted_labels() {
    assert_eq!(FeedType::TripUpdate.label(), "\"Trip Update\"");
    assert_eq!(FeedType::VehiclePosition.label(), "\"Vehicle Position\"");
    assert_eq!(FeedType::Alert.label(), "\"Alert\"");
}
