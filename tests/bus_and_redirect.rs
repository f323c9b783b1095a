use url_shortener::bus::{bus_payload, on_bus_delivery, parse_bus_message, CACHE_TTL_SECONDS, QUEUE_NAME};
use url_shortener::redirector::{resolve_from_cache, resolve_from_database, DbLookup, Resolution, ResolveStep};
use url_shortener::shortener::UrlMappingModel;

fn row(code: &str, alias: Option<&str>, url: &str) -> UrlMappingModel {
    UrlMappingModel {
        short_url: code.to_string(),
        alias: alias.map(|a| a.to_string()),
        long_url: url.to_string(),
        creation_date: 0,
        expiration_date: None,
        user_id: None,
        click_count: 0,
    }
}

#[test]
fn payload_format() {
    assert_eq!(bus_payload("abc", "https://x.test"), "abc:https://x.test");
    assert_eq!(QUEUE_NAME, "url_queue");
}

#[test]
fn parse_splits_at_first_colon() {
    let (code, url) = parse_bus_message("abc:https://x.test").expect("well-formed");
    assert_eq!(code, "abc");
    assert_eq!(url, "https://x.test");
    let (code, url) = parse_bus_message(":rest").expect("well-formed");
    assert_eq!(code, "");
    assert_eq!(url, "rest");
    assert!(parse_bus_message("notacolonpair").is_none());
    assert!(parse_bus_message("").is_none());
}

#[test]
fn payload_round_trip() {
    let payload = bus_payload("4xl2AY", "http://h:8080/p?q=1");
    let (code, url) = parse_bus_message(&payload).expect("well-formed");
    assert_eq!(code, "4xl2AY");
    assert_eq!(url, "http://h:8080/p?q=1");
}

#[test]
fn bus_message_warms_cache() {
    let write = on_bus_delivery(b"abc:https://x.test".to_vec()).expect("a cache write");
    assert_eq!(write.key, "abc");
    assert_eq!(write.value, "https://x.test");
    assert_eq!(write.ttl_seconds, 3600);
    assert_eq!(CACHE_TTL_SECONDS, 3600);
    match resolve_from_cache("abc", Some(write.value)) {
        ResolveStep::Answer(Resolution::Url(body)) => assert_eq!(body.long_url, "https://x.test"),
        _ => panic!("expected a cache answer"),
    }
}

#[test]
fn malformed_bus_message_is_dropped() {
    assert!(on_bus_delivery(b"notacolonpair".to_vec()).is_none());
    let write = on_bus_delivery(b"def:https://y.test".to_vec()).expect("later message still processed");
    assert_eq!(write.key, "def");
}

#[test]
fn non_utf8_delivery_is_dropped() {
    assert!(on_bus_delivery(vec![0x61, 0x3a, 0xff, 0xfe]).is_none());
}

#[test]
fn same_message_twice_gives_same_write() {
    let first = on_bus_delivery(b"abc:https://x.test".to_vec()).expect("write");
    let second = on_bus_delivery(b"abc:https://x.test".to_vec()).expect("write");
    assert_eq!(first.key, second.key);
    assert_eq!(first.value, second.value);
    assert_eq!(first.ttl_seconds, second.ttl_seconds);
}

#[test]
fn cache_miss_goes_to_database() {
    assert!(matches!(resolve_from_cache("abc", None), ResolveStep::QueryDatabase));
}

#[test]
fn database_hit_answers_and_writes_through() {
    let (answer, write) = resolve_from_database("abc123", DbLookup::Found(row("abc123", Some("example"), "https://example.com")));
    match answer {
        Resolution::Url(body) => {
            assert_eq!(body.short_url, "abc123");
            assert_eq!(body.alias.as_deref(), Some("example"));
            assert_eq!(body.long_url, "https://example.com");
        }
        _ => panic!("expected the mapping"),
    }
    let write = write.expect("write-through");
    assert_eq!(write.key, "abc123");
    assert_eq!(write.value, "https://example.com");
    assert_eq!(write.ttl_seconds, 3600);
}

#[test]
fn database_miss_is_not_found() {
    let (answer, write) = resolve_from_database("doesnotexist", DbLookup::Missing);
    assert!(write.is_none());
    match answer {
        Resolution::Error { status, error, message } => {
            assert_eq!(status, 404);
            assert_eq!(error, "Not Found");
            assert_eq!(message, "No URL found for short code: doesnotexist");
            assert!(error.to_lowercase().contains("not found"));
        }
        _ => panic!("expected not found"),
    }
}

#[test]
fn database_error_is_500() {
    let (answer, write) = resolve_from_database("x", DbLookup::Failed);
    assert!(write.is_none());
    match answer {
        Resolution::Error { status, error, message } => {
            assert_eq!(status, 500);
            assert_eq!(error, "Internal Server Error");
            assert_eq!(message, "An error occurred while processing your request.");
        }
        _ => panic!("expected an error"),
    }
}
