use netmap::feed::{
    backoff_delay_ms, interpret, process_line, watch_command, FeedError, LocationFeedClient,
    TpvFields,
};
use netmap::modes::GpsMode;
use netmap::position::{Position, PositionStore};

#[test]
fn tpv_with_fix_updates_the_store() {
    let mut client = LocationFeedClient::new();
    let updated = client
        .on_line(
            "{\"class\":\"TPV\",\"mode\":3,\"time\":\"2024-01-01T00:00:00Z\",\"lat\":47.5,\"lon\":8.3}",
        )
        .unwrap();
    assert!(updated);
    let fix = client.store.get();
    assert_eq!(fix.time, "2024-01-01T00:00:00Z");
    assert_eq!(fix.lat_bits, 47.5f64.to_bits());
    assert_eq!(fix.lon_bits, 8.3f64.to_bits());

    // A TPV with mode 0 carries no fix: the stored one stays.
    let updated = client
        .on_line("{\"class\":\"TPV\",\"mode\":0,\"lat\":1.0,\"lon\":2.0}")
        .unwrap();
    assert!(!updated);
    assert_eq!(client.store.get(), fix);

    // A message of another class is ignored: the stored fix stays.
    let updated = client
        .on_line("{\"class\":\"SKY\",\"mode\":3,\"lat\":1.0,\"lon\":2.0}")
        .unwrap();
    assert!(!updated);
    assert_eq!(client.store.get(), fix);
}

#[test]
fn missing_fields_take_their_defaults() {
    let fix = process_line("{\"class\":\"TPV\",\"mode\":2}").unwrap().unwrap();
    assert_eq!(fix.time, "");
    assert_eq!(fix.lat_bits, 0);
    assert_eq!(fix.lon_bits, 0);
    assert_eq!(fix.lat_bits, 0.0f64.to_bits());
}

#[test]
fn a_line_that_is_not_json_is_fatal() {
    assert_eq!(process_line("not json"), Err(FeedError::Malformed));
    assert_eq!(process_line(""), Err(FeedError::Malformed));
    let mut client = LocationFeedClient::new();
    let before = client.store.get();
    assert_eq!(client.on_line("{\"class\":"), Err(FeedError::Malformed));
    assert_eq!(client.store.get(), before);
}

#[test]
fn non_tpv_and_modeless_lines_are_ignored() {
    assert_eq!(process_line("{\"class\":\"SKY\"}"), Ok(None));
    assert_eq!(process_line("{\"mode\":3}"), Ok(None));
    // A TPV whose mode is missing or not an unsigned integer yields no fix.
    assert_eq!(process_line("{\"class\":\"TPV\"}"), Ok(None));
    assert_eq!(process_line("{\"class\":\"TPV\",\"mode\":\"x\"}"), Ok(None));
    assert_eq!(process_line("{\"class\":\"TPV\",\"mode\":1}"), Ok(None));
}

#[test]
fn interpret_builds_the_fix_from_the_fields() {
    let msg = TpvFields {
        class: Some("TPV".to_string()),
        mode: Some(2),
        time: Some("t".to_string()),
        lat_bits: Some(7),
        lon_bits: None,
    };
    let fix = interpret(msg).unwrap();
    assert_eq!(fix.time, "t");
    assert_eq!(fix.lat_bits, 7);
    assert_eq!(fix.lon_bits, 0);

    let msg = TpvFields {
        class: Some("TPV".to_string()),
        mode: Some(4),
        time: None,
        lat_bits: None,
        lon_bits: None,
    };
    assert!(interpret(msg).is_none());

    let msg = TpvFields {
        class: None,
        mode: Some(3),
        time: None,
        lat_bits: None,
        lon_bits: None,
    };
    assert!(interpret(msg).is_none());
}

#[test]
fn backoff_doubles_per_retry() {
    let delays: Vec<u64> = (0u32..5).map(backoff_delay_ms).collect();
    assert_eq!(delays, vec![1, 2, 4, 8, 16]);
    assert_eq!(backoff_delay_ms(63), 1u64 << 63);
    assert_eq!(backoff_delay_ms(64), u64::MAX);
    assert_eq!(backoff_delay_ms(1000), u64::MAX);
}

#[test]
fn client_backoff_follows_the_retry_count() {
    let mut client = LocationFeedClient::new();
    assert_eq!(client.next_backoff_ms(), 1);
    assert_eq!(client.next_backoff_ms(), 2);
    assert_eq!(client.next_backoff_ms(), 4);
    assert_eq!(client.next_backoff_ms(), 8);
    assert_eq!(client.next_backoff_ms(), 16);
    assert_eq!(client.retries, 5);
}

#[test]
fn watch_command_is_the_fixed_handshake() {
    assert_eq!(watch_command(), "?WATCH={\"enable\":true,\"json\":true}");
}

#[test]
fn store_reads_are_idempotent() {
    let mut store = PositionStore::new();
    let first = store.get();
    let second = store.get();
    assert_eq!(first, second);

    store.set(Position::new("t".to_string(), 1, 2));
    let a = store.get();
    let b = store.get();
    let c = store.get();
    assert_eq!(a, b);
    assert_eq!(b, c);
    assert_eq!(a.time, "t");
    assert_eq!(a.lat_bits, 1);
    assert_eq!(a.lon_bits, 2);
}

#[test]
fn default_position_means_no_data_yet() {
    let p = Position::default();
    assert_eq!(p.time, "");
    assert_eq!(p.lat_bits, 0);
    assert_eq!(p.lon_bits, 0);
    assert_eq!(p, Position::new(String::new(), 0, 0));
}

#[test]
fn gps_mode_labels() {
    assert_eq!(GpsMode::Host.label(), "host");
    assert_eq!(GpsMode::Phone.label(), "phone");
    assert_ne!(GpsMode::Host, GpsMode::Phone);
}
