use api::marker::{encode_marker, parse_marker};

#[test]
fn epoch_marker_text_is_exact() {
    let text = encode_marker(0);
    assert_eq!(text, "1970-01-01 00:00:00 UTC");
}

#[test]
fn round_trip_epoch() {
    let text = encode_marker(0);
    assert_eq!(parse_marker(&text), Some(0));
}

#[test]
fn round_trip_modern_instant() {
    let ms: i64 = 1_700_000_123_456;
    let text = encode_marker(ms);
    assert_eq!(parse_marker(&text), Some(ms));
}

#[test]
fn round_trip_before_epoch() {
    let ms: i64 = -1;
    let text = encode_marker(ms);
    assert_eq!(parse_marker(&text), Some(ms));
}

#[test]
fn parse_concrete_timestamp_with_millis() {
    assert_eq!(parse_marker("2000-01-12 01:02:03.004 UTC"), Some(947_638_923_004));
}

#[test]
fn parse_accepts_rfc3339_form() {
    assert_eq!(parse_marker("2012-12-12T12:12:12Z"), Some(1_355_314_332_000));
}

#[test]
fn parse_rejects_malformed_text() {
    assert_eq!(parse_marker("not a timestamp"), None);
    assert_eq!(parse_marker(""), None);
    assert_eq!(parse_marker("1970-13-40 99:99:99 UTC"), None);
}
