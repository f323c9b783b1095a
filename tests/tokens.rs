use url_shortener::auth::{
    bearer_token, finish_validation, start_validation_at, AuthError, Claims, RemoteVerdict,
    ValidationStep,
};
use url_shortener::token_cache::TokenCache;

fn claims(token_type: &str, user_id: Option<&str>, exp: usize) -> Claims {
    Claims {
        sub: "7".to_string(),
        exp,
        token_type: token_type.to_string(),
        user_id: user_id.map(|u| u.to_string()),
    }
}

#[test]
fn stored_token_is_found_before_expiry() {
    let mut cache = TokenCache::new();
    cache.store_token("tok", "42".to_string(), 1000);
    let info = cache.get_token_at("tok", 999).expect("live entry");
    assert_eq!(info.user_id, "42");
    assert_eq!(info.expires_at, 1000);
    assert!(info.is_valid);
}

#[test]
fn unknown_token_is_absent() {
    let mut cache = TokenCache::new();
    cache.store_token("tok", "42".to_string(), 1000);
    assert!(cache.get_token_at("other", 0).is_none());
}

#[test]
fn token_expires_at_its_expiry() {
    let mut cache = TokenCache::new();
    cache.store_token("tok", "42".to_string(), 1000);
    assert!(cache.get_token_at("tok", 1000).is_none());
    assert!(cache.get_token_at("tok", 1001).is_none());
}

#[test]
fn expired_token_is_absent_even_if_valid_or_invalid() {
    let mut cache = TokenCache::new();
    cache.store_token("a", "1".to_string(), 50);
    cache.store_token("b", "2".to_string(), 50);
    cache.invalidate_token("b");
    assert!(cache.get_token_at("a", 60).is_none());
    assert!(cache.get_token_at("b", 60).is_none());
}

#[test]
fn invalidated_token_stays_absent_until_stored_again() {
    let mut cache = TokenCache::new();
    cache.store_token("tok", "42".to_string(), 1000);
    cache.invalidate_token("tok");
    assert!(cache.get_token_at("tok", 10).is_none());
    cache.store_token("other", "1".to_string(), 1000);
    cache.invalidate_token("missing");
    cache.clean_expired_at(10);
    assert!(cache.get_token_at("tok", 10).is_none());
    cache.store_token("tok", "43".to_string(), 2000);
    assert_eq!(cache.get_token_at("tok", 10).expect("stored again").user_id, "43");
}

#[test]
fn storing_again_replaces_the_entry() {
    let mut cache = TokenCache::new();
    cache.store_token("tok", "1".to_string(), 100);
    cache.store_token("tok", "2".to_string(), 200);
    let info = cache.get_token_at("tok", 150).expect("replaced entry");
    assert_eq!(info.user_id, "2");
    assert_eq!(info.expires_at, 200);
}

#[test]
fn sweep_removes_expired_and_invalid_only() {
    let mut cache = TokenCache::new();
    cache.store_token("old", "1".to_string(), 10);
    cache.store_token("bad", "2".to_string(), 100);
    cache.store_token("good", "3".to_string(), 100);
    cache.invalidate_token("bad");
    cache.clean_expired_at(50);
    assert!(cache.get_token_at("good", 50).is_some());
    cache.store_token("bad", "2".to_string(), 100);
    assert!(cache.get_token_at("bad", 50).is_some());
    assert!(cache.get_token_at("old", 5).is_none());
}

#[test]
fn get_token_reads_the_clock() {
    let mut cache = TokenCache::new();
    cache.store_token("far", "1".to_string(), i64::MAX);
    cache.store_token("past", "2".to_string(), 0);
    assert_eq!(cache.get_token("far").expect("far future").user_id, "1");
    assert!(cache.get_token("past").is_none());
    cache.clean_expired();
    assert!(cache.get_token_at("past", -10).is_none());
    assert!(cache.get_token_at("far", 0).is_some());
}

#[test]
fn bearer_header_forms() {
    assert_eq!(bearer_token(None).err(), Some(AuthError::MissingHeader));
    assert_eq!(bearer_token(Some("Basic abc")).err(), Some(AuthError::InvalidFormat));
    assert_eq!(bearer_token(Some("Bearer")).err(), Some(AuthError::InvalidFormat));
    assert_eq!(bearer_token(Some("bearer abc")).err(), Some(AuthError::InvalidFormat));
    assert_eq!(bearer_token(Some("Bearer abc.def")).ok(), Some("abc.def".to_string()));
    assert_eq!(bearer_token(Some("Bearer ")).ok(), Some(String::new()));
}

#[test]
fn auth_error_reasons() {
    assert_eq!(AuthError::MissingHeader.reason(), "No authorization header");
    assert_eq!(AuthError::InvalidFormat.reason(), "Invalid authorization format");
    assert_eq!(AuthError::WrongTokenType.reason(), "Invalid token type");
    assert_eq!(
        AuthError::ServiceUnreachable.reason(),
        "Failed to validate token with user service"
    );
}

#[test]
fn cached_token_yields_synthesised_claims() {
    let mut cache = TokenCache::new();
    cache.store_token("T", "alice".to_string(), 5000);
    match start_validation_at(&cache, Some("Bearer T"), "access", 100) {
        ValidationStep::Done(Ok(c)) => {
            assert_eq!(c.sub, "alice");
            assert_eq!(c.exp, 5000);
            assert_eq!(c.token_type, "access");
            assert_eq!(c.user_id, Some("alice".to_string()));
        }
        _ => panic!("expected cached claims"),
    }
}

#[test]
fn uncached_token_goes_to_user_service() {
    let cache = TokenCache::new();
    match start_validation_at(&cache, Some("Bearer T"), "access", 100) {
        ValidationStep::AskUserService { token } => assert_eq!(token, "T"),
        _ => panic!("expected a remote check"),
    }
    match start_validation_at(&cache, None, "access", 100) {
        ValidationStep::Done(Err(e)) => assert_eq!(e, AuthError::MissingHeader),
        _ => panic!("expected refusal"),
    }
}

#[test]
fn valid_remote_verdict_caches_until_exp() {
    let mut cache = TokenCache::new();
    let decoded = Some(claims("access", Some("9"), 777));
    let out = finish_validation(&mut cache, "T", "access", RemoteVerdict::Answered { valid: true }, decoded);
    let c = out.expect("accepted");
    assert_eq!(c.exp, 777);
    let info = cache.get_token_at("T", 700).expect("cached");
    assert_eq!(info.user_id, "9");
    assert_eq!(info.expires_at, 777);
}

#[test]
fn invalid_remote_verdict_does_not_populate_cache() {
    let mut cache = TokenCache::new();
    let decoded = Some(claims("access", Some("9"), 777));
    let out = finish_validation(&mut cache, "T", "access", RemoteVerdict::Answered { valid: false }, decoded);
    assert_eq!(out.err(), Some(AuthError::InvalidToken));
    assert!(cache.get_token_at("T", 0).is_none());
}

#[test]
fn other_remote_outcomes_refuse_without_caching() {
    let mut cache = TokenCache::new();
    let cases = [
        (RemoteVerdict::Unreachable, AuthError::ServiceUnreachable),
        (RemoteVerdict::Rejected, AuthError::InvalidToken),
        (RemoteVerdict::Unparseable, AuthError::UnparseableReply),
    ];
    for (verdict, expected) in cases {
        let out = finish_validation(&mut cache, "T", "access", verdict, Some(claims("access", Some("9"), 777)));
        assert_eq!(out.err(), Some(expected));
    }
    assert!(cache.get_token_at("T", 0).is_none());
}

#[test]
fn wrong_type_or_undecodable_token_is_refused() {
    let mut cache = TokenCache::new();
    let out = finish_validation(
        &mut cache,
        "T",
        "access",
        RemoteVerdict::Answered { valid: true },
        Some(claims("refresh", Some("9"), 777)),
    );
    assert_eq!(out.err(), Some(AuthError::WrongTokenType));
    let out = finish_validation(&mut cache, "T", "access", RemoteVerdict::Answered { valid: true }, None);
    assert_eq!(out.err(), Some(AuthError::DecodeFailed));
    assert!(cache.get_token_at("T", 0).is_none());
}

#[test]
fn accepted_token_without_user_is_not_cached() {
    let mut cache = TokenCache::new();
    let out = finish_validation(
        &mut cache,
        "T",
        "access",
        RemoteVerdict::Answered { valid: true },
        Some(claims("access", None, 777)),
    );
    assert!(out.is_ok());
    assert!(cache.get_token_at("T", 0).is_none());
}

#[test]
fn huge_exp_is_clamped_in_cache() {
    let mut cache = TokenCache::new();
    let decoded = Some(claims("access", Some("9"), usize::MAX));
    let out = finish_validation(&mut cache, "T", "access", RemoteVerdict::Answered { valid: true }, decoded);
    assert!(out.is_ok());
    let info = cache.get_token_at("T", 0).expect("cached");
    assert_eq!(info.expires_at as i128, std::cmp::min(usize::MAX as i128, i64::MAX as i128));
}
