use spin_apps::app_vars::{handle_application_vars, vars_message};
use spin_apps::booth_volume::{handle_message, log_reading, noise_log_statement, payload_text, threshold};
use spin_apps::outbound::handle_hello_rust;
use spin_apps::simple_kv::{entry_key, entry_value, handle_kv};

#[test]
fn vars_are_reported() {
    assert_eq!(vars_message("1", "two"), "foo: 1, bar: two");
    let r = handle_application_vars("x", "");
    assert_eq!(r.status, 200);
    assert_eq!(r.content_type.as_deref(), Some("text/plain"));
    assert_eq!(r.body, Some(b"foo: x, bar: ".to_vec()));
}

#[test]
fn simple_round_trip_page() {
    assert_eq!(entry_key(), "mykey");
    assert_eq!(entry_value(), b"myvalue".to_vec());
    let r = handle_kv(Some(entry_value()));
    assert_eq!((r.status, r.body), (200, Some(b"myvalue".to_vec())));
    assert_eq!(r.content_type.as_deref(), Some("text/plain"));
    assert_eq!(handle_kv(None).body, Some(b"not found".to_vec()));
}

#[test]
fn outbound_fan_out() {
    let mut plan = handle_hello_rust("https://example.com".into(), "3").ok().expect("a plan");
    assert_eq!(plan.method(), "GET");
    let mut sent = 0;
    while let Some(host) = plan.next_target() {
        assert_eq!(host, "https://example.com");
        assert!(plan.record_send(Ok(())).is_none());
        sent += 1;
    }
    assert_eq!(sent, 3);
    let r = plan.respond();
    assert_eq!(r.status, 200);
    assert_eq!(r.body, Some(b"Made 3 outbound requests to https://example.com".to_vec()));
    let none = handle_hello_rust("h".into(), "0").ok().expect("a plan");
    assert!(none.next_target().is_none());
    assert_eq!(none.respond().body, Some(b"Made 0 outbound requests to h".to_vec()));
}

#[test]
fn outbound_stops_on_failed_send() {
    let mut plan = handle_hello_rust("h".into(), "2").ok().expect("a plan");
    assert!(plan.record_send(Ok(())).is_none());
    let stop = plan.record_send(Err("refused".into())).expect("a stop");
    assert_eq!(stop, "failed to get response");
    assert_eq!(plan.next_target(), Some("h"));
}

#[test]
fn booth_log_reading() {
    let rec = log_reading("b".into(), 7, 6, "now".into()).expect("a record");
    assert_eq!((rec.source.as_str(), rec.volume, rec.timestamp.as_str()), ("b", 7, "now"));
    assert!(log_reading("b".into(), 6, 6, "now".into()).is_none());
}

#[test]
fn outbound_rejects_bad_count() {
    let e = handle_hello_rust("h".into(), "three").err().expect("an error");
    assert_eq!(e, "number_of_requests variable is not a valid integer");
    assert!(handle_hello_rust("h".into(), "-1").is_err());
}

#[test]
fn booth_threshold() {
    assert_eq!(threshold(None), 100);
    assert_eq!(threshold(Some("250".into())), 250);
    assert_eq!(threshold(Some("-4".into())), -4);
}

#[test]
fn booth_payload_text() {
    assert_eq!(payload_text(br#"{"volume": 350}"#), r#"{"volume": 350}"#);
    assert_eq!(payload_text(&[0x7b, 0xff, 0x7d]), "{\u{FFFD}}");
}

#[test]
fn booth_records_loud_readings() {
    let rec = handle_message("booth/20".into(), 350, 100, 1_704_164_645, 6).expect("a record");
    assert_eq!(rec.source, "booth/20");
    assert_eq!(rec.volume, 350);
    assert_eq!(rec.timestamp, "2024-01-02 03:04:05.000000006");
    assert!(handle_message("booth/20".into(), 100, 100, 1_704_164_645, 0).is_none());
    assert!(handle_message("booth/20".into(), 5, 100, 0, 0).is_none());
    let epoch = handle_message("t".into(), 101, 100, 0, 0).expect("a record");
    assert_eq!(epoch.timestamp, "1970-01-01 00:00:00.000000000");
    assert_eq!(
        noise_log_statement(),
        "INSERT INTO noise_log (source, volume, timestamp) VALUES (?, ?, ?)"
    );
}
