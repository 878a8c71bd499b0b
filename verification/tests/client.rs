use openmusicplayer::musicbrainz::client::{
    DEFAULT_BASE_URL, DEFAULT_LIMIT, DEFAULT_USER_AGENT, MAX_LIMIT, REQUEST_TIMEOUT_SECS,
};
use openmusicplayer::musicbrainz::limiter::Admission;
use openmusicplayer::{MbError, MusicBrainzClient};
use uuid::Uuid;

#[test]
fn test_client_creation() {
    let client = MusicBrainzClient::new();
    assert!(client.is_ok());
}

#[test]
fn test_client_with_custom_user_agent() {
    let client = MusicBrainzClient::with_user_agent("TestApp/1.0 (test@example.com)");
    assert!(client.is_ok());
}

#[test]
fn defaults() {
    assert_eq!(DEFAULT_BASE_URL, "https://musicbrainz.org/ws/2");
    assert_eq!(
        DEFAULT_USER_AGENT,
        "OpenMusicPlayer/0.1.0 (https://github.com/openmusicplayer)"
    );
    assert_eq!(REQUEST_TIMEOUT_SECS, 30);
    assert_eq!(DEFAULT_LIMIT, 25);
    assert_eq!(MAX_LIMIT, 100);
    let client = MusicBrainzClient::new().unwrap();
    assert_eq!(client.base_url(), "https://musicbrainz.org/ws/2");
}

#[test]
fn user_agent_that_is_no_header_value_is_refused() {
    match MusicBrainzClient::with_user_agent("two\nlines") {
        Err(MbError::Request(_)) => {}
        Err(other) => panic!("unexpected failure: {:?}", other),
        Ok(_) => panic!("the transport took a user agent of two lines"),
    }
}

#[test]
fn assemble_reports_the_failure_of_the_transport() {
    let cause = reqwest::Client::builder().user_agent("two\nlines").build().unwrap_err();
    let said = cause.to_string();
    match MusicBrainzClient::assemble(Err(cause), "http://localhost") {
        Err(MbError::Request(carried)) => assert_eq!(carried.to_string(), said),
        Err(other) => panic!("unexpected failure: {:?}", other),
        Ok(_) => panic!("a client without a transport"),
    }
}

#[test]
fn test_search_recordings() {
    let client = MusicBrainzClient::new().unwrap();
    let url = client.search_recordings("Never Gonna Give You Up", Some(5), None);
    assert_eq!(
        url,
        "https://musicbrainz.org/ws/2/recording?query=Never%20Gonna%20Give%20You%20Up&limit=5&offset=0&fmt=json"
    );
}

#[test]
fn test_search_artists() {
    let client = MusicBrainzClient::new().unwrap();
    let url = client.search_artists("Rick Astley", Some(5), None);
    assert_eq!(
        url,
        "https://musicbrainz.org/ws/2/artist?query=Rick%20Astley&limit=5&offset=0&fmt=json"
    );
}

#[test]
fn test_lookup_recording() {
    let client = MusicBrainzClient::new().unwrap();
    // "Never Gonna Give You Up" recording MBID
    let mbid = Uuid::parse_str("4e0d8649-1f89-44ef-a584-9a2f8e3c4a87").unwrap();
    let url = client.lookup_recording(mbid);
    assert_eq!(
        url,
        "https://musicbrainz.org/ws/2/recording/4e0d8649-1f89-44ef-a584-9a2f8e3c4a87?inc=artists+releases&fmt=json"
    );
}

#[test]
fn search_releases_request() {
    let client = MusicBrainzClient::with_base_url("TestApp/1.0", "http://localhost:8080/ws/2").unwrap();
    assert_eq!(
        client.search_releases("Whenever", None, Some(50)),
        "http://localhost:8080/ws/2/release?query=Whenever&limit=25&offset=50&fmt=json"
    );
}

#[test]
fn limit_is_clamped_and_offset_defaults_to_zero() {
    let client = MusicBrainzClient::new().unwrap();
    assert_eq!(
        client.search_recordings("x", Some(500), None),
        "https://musicbrainz.org/ws/2/recording?query=x&limit=100&offset=0&fmt=json"
    );
    assert_eq!(
        client.search_recordings("x", Some(100), None),
        "https://musicbrainz.org/ws/2/recording?query=x&limit=100&offset=0&fmt=json"
    );
    assert_eq!(
        client.search_recordings("x", Some(101), Some(7)),
        "https://musicbrainz.org/ws/2/recording?query=x&limit=100&offset=7&fmt=json"
    );
    assert_eq!(
        client.search_artists("x", Some(u32::MAX), Some(u32::MAX)),
        "https://musicbrainz.org/ws/2/artist?query=x&limit=100&offset=4294967295&fmt=json"
    );
    assert_eq!(
        client.search_releases("x", Some(99), None),
        "https://musicbrainz.org/ws/2/release?query=x&limit=99&offset=0&fmt=json"
    );
    assert_eq!(
        client.search_releases("x", Some(0), None),
        "https://musicbrainz.org/ws/2/release?query=x&limit=0&offset=0&fmt=json"
    );
    assert_eq!(
        client.search_releases("x", None, None),
        "https://musicbrainz.org/ws/2/release?query=x&limit=25&offset=0&fmt=json"
    );
}

#[test]
fn query_is_percent_encoded() {
    let client = MusicBrainzClient::with_base_url("TestApp/1.0", "http://h").unwrap();
    assert_eq!(
        client.search_artists("a&limit=1 b/c?d#e=f", None, None),
        "http://h/artist?query=a%26limit%3D1%20b%2Fc%3Fd%23e%3Df&limit=25&offset=0&fmt=json"
    );
    assert_eq!(
        client.search_artists("Beyonc\u{e9} \u{4e16}\u{754c} \u{1f3b5}", None, None),
        "http://h/artist?query=Beyonc%C3%A9%20%E4%B8%96%E7%95%8C%20%F0%9F%8E%B5&limit=25&offset=0&fmt=json"
    );
    assert_eq!(
        client.search_artists("AZaz09-._~", None, None),
        "http://h/artist?query=AZaz09-._~&limit=25&offset=0&fmt=json"
    );
    assert_eq!(
        client.search_artists("", None, None),
        "http://h/artist?query=&limit=25&offset=0&fmt=json"
    );
    assert_eq!(
        client.search_artists("100%", None, None),
        "http://h/artist?query=100%25&limit=25&offset=0&fmt=json"
    );
}

#[test]
fn lookup_requests() {
    let client = MusicBrainzClient::new().unwrap();
    let mbid = Uuid::from_u128(0x0123_4567_89ab_cdef_fedc_ba98_7654_3210);
    assert_eq!(
        client.lookup_artist(mbid),
        "https://musicbrainz.org/ws/2/artist/01234567-89ab-cdef-fedc-ba9876543210?inc=recordings+releases&fmt=json"
    );
    assert_eq!(
        client.lookup_release(mbid),
        "https://musicbrainz.org/ws/2/release/01234567-89ab-cdef-fedc-ba9876543210?inc=artists&fmt=json"
    );
    assert_eq!(
        client.lookup_recording(Uuid::nil()),
        "https://musicbrainz.org/ws/2/recording/00000000-0000-0000-0000-000000000000?inc=artists+releases&fmt=json"
    );
    // Upper case in, lower case out.
    let upper = Uuid::parse_str("4E0D8649-1F89-44EF-A584-9A2F8E3C4A87").unwrap();
    assert_eq!(
        client.lookup_release(upper),
        "https://musicbrainz.org/ws/2/release/4e0d8649-1f89-44ef-a584-9a2f8e3c4a87?inc=artists&fmt=json"
    );
}

#[test]
fn clones_share_the_limiter() {
    let client = MusicBrainzClient::new().unwrap();
    let other = client.clone();
    assert_eq!(other.base_url(), client.base_url());
    {
        let mut limiter = client.rate_limiter().try_lock().unwrap();
        assert_eq!(limiter.last_request(), None);
        assert_eq!(limiter.acquire(42), Admission::Granted);
    }
    let mut limiter = other.rate_limiter().try_lock().unwrap();
    assert_eq!(limiter.last_request(), Some(42));
    assert_eq!(limiter.acquire(43), Admission::Wait(999_999_999));
}
