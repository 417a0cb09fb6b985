use tracebuild::status::ParseError;
use tracebuild::status::SpanStatusCode;
use tracebuild::status::Status;
use tracebuild::timestamp::Timestamp;

#[test]
fn timestamp_text_round_trips_unchanged() {
    let ts = Timestamp::from_str("1700000000").unwrap();
    assert_eq!(ts.secs, 1_700_000_000);
    assert_eq!(ts.format(), "1700000000");
}

#[test]
fn timestamp_zero_and_max() {
    assert_eq!(Timestamp { secs: 0 }.format(), "0");
    let max_text = u64::MAX.to_string();
    let ts = Timestamp::from_str(&max_text).unwrap();
    assert_eq!(ts.secs, u64::MAX);
    assert_eq!(ts.format(), max_text);
}

#[test]
fn timestamp_rejects_empty_and_non_digits() {
    assert_eq!(Timestamp::from_str("").unwrap_err(), ParseError::MalformedTimestamp);
    assert_eq!(Timestamp::from_str("12a").unwrap_err(), ParseError::MalformedTimestamp);
    assert_eq!(Timestamp::from_str("-5").unwrap_err(), ParseError::MalformedTimestamp);
    assert_eq!(Timestamp::from_str("+5").unwrap_err(), ParseError::MalformedTimestamp);
    assert_eq!(Timestamp::from_str("1 2").unwrap_err(), ParseError::MalformedTimestamp);
}

#[test]
fn timestamp_rejects_overflow() {
    // One above u64::MAX.
    assert_eq!(
        Timestamp::from_str("18446744073709551616").unwrap_err(),
        ParseError::MalformedTimestamp
    );
    // Far above.
    assert_eq!(
        Timestamp::from_str("99999999999999999999999").unwrap_err(),
        ParseError::MalformedTimestamp
    );
}

#[test]
fn timestamp_parses_leading_zeros() {
    let ts = Timestamp::from_str("007").unwrap();
    assert_eq!(ts.secs, 7);
    assert_eq!(ts.format(), "7");
}

#[test]
fn timestamp_now_is_current_era() {
    let now = Timestamp::now();
    // After 2020-01-01 and the conversion to a system time exists.
    assert!(now.secs > 1_577_836_800);
    assert!(now.system_time().is_some());
}

#[test]
fn status_texts() {
    assert_eq!(Status::Success.as_str(), "success");
    assert_eq!(Status::Failure.as_str(), "failure");
    assert_eq!(Status::from_str("success").unwrap(), Status::Success);
    assert_eq!(Status::from_str("failure").unwrap(), Status::Failure);
}

#[test]
fn status_rejects_everything_else() {
    for bad in ["", "Success", "ok", "SUCCESS", "failed", " success"] {
        assert_eq!(Status::from_str(bad).unwrap_err(), ParseError::MalformedStatus);
    }
    assert_eq!(
        ParseError::MalformedStatus.message(),
        "invalid status; valid are: success, failure"
    );
}

#[test]
fn status_maps_to_span_status_code() {
    assert_eq!(Status::Success.status_code(), SpanStatusCode::Okay);
    assert_eq!(Status::Failure.status_code(), SpanStatusCode::Error);
}
