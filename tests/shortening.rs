use url_shortener::mint::generate_short_code;
use url_shortener::redirector::{resolve_from_cache, resolve_from_database, DbLookup, Resolution, ResolveStep};
use url_shortener::shortener::{
    created_response, default_expiry_of, is_valid_url, listing_for, mapping_for, plan_shorten, plan_shorten_attempt,
    seed_mappings, seed_users, ShortenError, ShortenRequest, ShortenResponse, UrlInfoResponse, UrlMappingModel,
};

fn request(url: &str) -> ShortenRequest {
    ShortenRequest { long_url: url.to_string(), custom_alias: None, expiration_time: None, user_id: None }
}

#[test]
fn url_validation() {
    assert!(is_valid_url("https://example.com"));
    assert!(is_valid_url("http://h:8080/p?q=1"));
    assert!(!is_valid_url("not a url"));
    assert!(!is_valid_url(""));
    assert!(!is_valid_url("/relative/path"));
}

#[test]
fn invalid_url_is_refused() {
    assert_eq!(plan_shorten(&request("nope"), &Vec::new(), 0).err(), Some(ShortenError::InvalidUrl));
}

#[test]
fn new_row_defaults() {
    let row = plan_shorten(&request("https://example.com"), &Vec::new(), 1000).ok().expect("planned");
    assert_eq!(row.short_url, "1q32An");
    assert_eq!(row.long_url, "https://example.com");
    assert_eq!(row.creation_date, 1000);
    assert_eq!(row.expiration_date, Some(1000 + 2_592_000));
    assert_eq!(row.click_count, 0);
    assert!(row.alias.is_none());
    assert!(row.user_id.is_none());
}

#[test]
fn new_row_keeps_request_fields() {
    let req = ShortenRequest {
        long_url: "https://a.test".to_string(),
        custom_alias: Some("mine".to_string()),
        expiration_time: Some(77),
        user_id: Some(3),
    };
    let row = mapping_for(&req, "C".to_string(), 5);
    assert_eq!(row.short_url, "C");
    assert_eq!(row.alias.as_deref(), Some("mine"));
    assert_eq!(row.expiration_date, Some(77));
    assert_eq!(row.user_id, Some(3));
}

#[test]
fn default_expiry_saturates() {
    assert_eq!(default_expiry_of(0), 2_592_000);
    assert_eq!(default_expiry_of(i64::MAX - 1), i64::MAX);
}

#[test]
fn created_response_points_at_redirector() {
    let row = mapping_for(&request("https://a.test"), "C".to_string(), 5);
    let response = created_response(&row);
    assert_eq!(response.short_code, "C");
    assert_eq!(response.short_url, "http://localhost:8081/C");
    assert_eq!(response.created_at, 5);
    assert_eq!(response.expiration_time, 5 + 2_592_000);
}

fn stored_row(alias: Option<&str>, expiration: Option<i64>) -> UrlMappingModel {
    UrlMappingModel {
        short_url: "abc".to_string(),
        alias: alias.map(|a| a.to_string()),
        long_url: "https://x.test".to_string(),
        creation_date: 100,
        expiration_date: expiration,
        user_id: Some(1),
        click_count: 4,
    }
}

#[test]
fn shorten_response_from_row() {
    let r = ShortenResponse::from(stored_row(Some("nice"), None));
    assert_eq!(r.short_code, "abc");
    assert_eq!(r.short_url, "http://localhost:8080/nice");
    assert_eq!(r.created_at, 100);
    assert_eq!(r.expiration_time, 100 + 2_592_000);
    let r = ShortenResponse::from(stored_row(None, Some(9)));
    assert_eq!(r.short_url, "http://localhost:8080/abc");
    assert_eq!(r.expiration_time, 9);
}

#[test]
fn listing_entries() {
    let info = UrlInfoResponse::from(stored_row(Some("nice"), Some(9)));
    assert_eq!(info.short_code, "abc");
    assert_eq!(info.short_url, "http://localhost:8080/abc");
    assert_eq!(info.long_url, "https://x.test");
    assert_eq!(info.alias.as_deref(), Some("nice"));
    assert_eq!(info.expiration_date, Some(9));
    assert_eq!(info.click_count, 4);
    let listing = listing_for(vec![stored_row(None, None), stored_row(Some("b"), None)]);
    assert_eq!(listing.len(), 2);
    assert!(listing[0].alias.is_none());
    assert_eq!(listing[1].alias.as_deref(), Some("b"));
}

#[test]
fn seeds() {
    let users = seed_users();
    assert_eq!(users.len(), 2);
    assert_eq!(users[0].email, "alice@example.com");
    assert_eq!(users[1].password_hash, "hashedpassword2");
    let rows = seed_mappings(42);
    assert_eq!(rows.len(), 3);
    assert_eq!(rows[0].short_url, "abc123");
    assert_eq!(rows[0].alias.as_deref(), Some("example"));
    assert_eq!(rows[1].long_url, "https://rust-lang.org");
    assert_eq!(rows[1].user_id, Some(2));
    assert_eq!(rows[2].short_url, "free456");
    assert!(rows[2].alias.is_none());
    assert_eq!(rows[2].creation_date, 42);
}

#[test]
fn shorten_then_resolve() {
    let row = plan_shorten(&request("https://example.com"), &Vec::new(), 0).ok().expect("planned");
    let code = row.short_url.clone();
    assert!(matches!(resolve_from_cache(&code, None), ResolveStep::QueryDatabase));
    let (answer, write) = resolve_from_database(&code, DbLookup::Found(row));
    match answer {
        Resolution::Url(body) => assert_eq!(body.long_url, "https://example.com"),
        _ => panic!("expected the mapping"),
    }
    let write = write.expect("write-through");
    match resolve_from_cache(&code, Some(write.value)) {
        ResolveStep::Answer(Resolution::Url(body)) => assert_eq!(body.long_url, "https://example.com"),
        _ => panic!("expected a cache answer"),
    }
}

#[test]
fn collision_stays_resolvable() {
    let first = generate_short_code("https://a.test", &Vec::new());
    let row = plan_shorten(&request("https://a.test"), &vec![first.clone()], 0).ok().expect("planned");
    assert_ne!(row.short_url, first);
    let code = row.short_url.clone();
    let (answer, _) = resolve_from_database(&code, DbLookup::Found(row));
    match answer {
        Resolution::Url(body) => {
            assert_eq!(body.short_url, code);
            assert_eq!(body.long_url, "https://a.test");
        }
        _ => panic!("expected the mapping"),
    }
}

#[test]
fn shorten_attempts_plan_rows_until_bound() {
    let first = plan_shorten_attempt(&request("https://a.test"), 0, 7).ok().expect("planned").expect("row");
    assert_eq!(first.short_url, "4xl2AY");
    assert_eq!(first.creation_date, 7);
    assert_eq!(first.expiration_date, Some(7 + 2_592_000));
    let second = plan_shorten_attempt(&request("https://a.test"), 1, 7).ok().expect("planned").expect("row");
    assert_eq!(second.short_url, "4xl2AY1");
    assert!(plan_shorten_attempt(&request("https://a.test"), 8, 7).ok().expect("planned").is_none());
    assert_eq!(plan_shorten_attempt(&request("nope"), 0, 7).err(), Some(ShortenError::InvalidUrl));
}
