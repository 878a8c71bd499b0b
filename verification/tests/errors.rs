use openmusicplayer::musicbrainz::text::push_decimal;
use openmusicplayer::MbError;

#[test]
fn messages() {
    assert_eq!(MbError::RateLimited.message(), "Rate limited by MusicBrainz API");
    assert_eq!(
        MbError::NotFound("https://example.org/x".to_string()).message(),
        "Resource not found: https://example.org/x"
    );
    assert_eq!(
        MbError::InvalidMbid("nope".to_string()).message(),
        "Invalid MBID format: nope"
    );
    assert_eq!(
        MbError::ParseError("Failed to parse response: eof".to_string()).message(),
        "API response parse error: Failed to parse response: eof"
    );
    assert_eq!(
        MbError::ApiError { status: 500, message: "boom".to_string() }.message(),
        "API error: 500 - boom"
    );
    assert_eq!(
        MbError::ApiError { status: 0, message: String::new() }.message(),
        "API error: 0 - "
    );
}

#[test]
fn message_of_a_transport_failure() {
    let cause = reqwest::Client::new().get("not an address").build().unwrap_err();
    let said = cause.to_string();
    assert!(!said.is_empty());
    let failure = MbError::Request(cause);
    assert_eq!(failure.message(), format!("HTTP request error: {}", said));
    assert_eq!(failure.message_with("timed out"), "HTTP request error: timed out");
}

#[test]
fn message_with_looks_at_the_detail_for_transport_failures_only() {
    assert_eq!(
        MbError::RateLimited.message_with("timed out"),
        "Rate limited by MusicBrainz API"
    );
    assert_eq!(
        MbError::ApiError { status: 65535, message: "x".to_string() }.message_with("y"),
        "API error: 65535 - x"
    );
}

#[test]
fn decimal_numbers() {
    for n in [0u64, 1, 9, 10, 11, 99, 100, 101, 4_294_967_295, u64::MAX] {
        let mut out = String::from("n=");
        push_decimal(&mut out, n);
        assert_eq!(out, format!("n={}", n));
    }
}
