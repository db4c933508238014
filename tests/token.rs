use user_auth::errors::LoginError;
use user_auth::role::UserRole;
use user_auth::text::{format_i64, parse_i64};
use user_auth::token::{
    create_token, decode_auth_info, decode_token, decode_token_at, issue_token, AuthInfo, Claims,
    LoginEmail, QueryUserId, TokenConfig, TOKEN_LIFETIME_SECS,
};

const NOW: i64 = 1_700_000_000;

fn cfg() -> TokenConfig {
    TokenConfig { secret: String::from("test-secret"), issuer: String::from("localhost") }
}

#[test]
fn token_round_trip_recovers_identity() {
    let t = issue_token(&cfg(), String::from("alice@x.com"), String::from("u123"), Some(UserRole::DEALER), NOW).unwrap();
    let c = decode_token_at(&cfg(), &t, NOW + 1).unwrap();
    assert_eq!(c.email, "alice@x.com");
    assert_eq!(c.sub, "u123");
    assert_eq!(c.aud, UserRole::DEALER);
    assert_eq!(c.iss, "localhost");
    assert_eq!(c.iat, NOW);
    assert_eq!(c.exp, NOW + 2_592_000);
    let a = decode_auth_info(&cfg(), &t, NOW).unwrap();
    assert_eq!(a.user_id, "u123");
    assert_eq!(a.user_role, UserRole::DEALER);
}

#[test]
fn token_role_defaults_to_user() {
    let t = issue_token(&cfg(), String::from("b@x.com"), String::from("u9"), None, NOW).unwrap();
    let c = decode_token_at(&cfg(), &t, NOW).unwrap();
    assert_eq!(c.aud, UserRole::USER);
}

#[test]
fn expired_token_is_unauthorized() {
    let t = issue_token(&cfg(), String::from("a@x.com"), String::from("u1"), None, NOW).unwrap();
    assert!(decode_token_at(&cfg(), &t, NOW + TOKEN_LIFETIME_SECS - 1).is_ok());
    assert!(matches!(decode_token_at(&cfg(), &t, NOW + TOKEN_LIFETIME_SECS), Err(LoginError::Unauthorized(_))));
    assert!(matches!(decode_token_at(&cfg(), &t, NOW + 10 * TOKEN_LIFETIME_SECS), Err(LoginError::Unauthorized(_))));
}

#[test]
fn token_under_other_secret_is_unauthorized() {
    let t = issue_token(&cfg(), String::from("a@x.com"), String::from("u1"), None, NOW).unwrap();
    let other = TokenConfig { secret: String::from("other"), issuer: String::from("localhost") };
    assert!(matches!(decode_token_at(&other, &t, NOW), Err(LoginError::Unauthorized(_))));
    assert!(matches!(decode_token_at(&cfg(), "not.a.token", NOW), Err(LoginError::Unauthorized(_))));
    let mut tampered = t.clone();
    tampered.push('x');
    assert!(matches!(decode_token_at(&cfg(), &tampered, NOW), Err(LoginError::Unauthorized(_))));
}

#[test]
fn token_with_clock_round_trip() {
    let t = create_token(&cfg(), String::from("c@x.com"), String::from("u7"), Some(UserRole::PLATFORM_ADMIN)).unwrap();
    let c = decode_token(&cfg(), &t).unwrap();
    assert_eq!(c.email, "c@x.com");
    assert_eq!(c.sub, "u7");
    assert_eq!(c.aud, UserRole::PLATFORM_ADMIN);
    assert_eq!(c.exp - c.iat, TOKEN_LIFETIME_SECS);
}

#[test]
fn claims_projections() {
    let c = Claims::with_email(String::from("e@x.com"), String::from("u5"), Some(UserRole::SYSTEM), String::from("iss"), NOW);
    assert_eq!(c.exp, NOW + TOKEN_LIFETIME_SECS);
    assert_eq!(LoginEmail::from(c.clone()).email, "e@x.com");
    assert_eq!(QueryUserId::from(c.clone()).user_id, "u5");
    let a = AuthInfo::from(c);
    assert_eq!(a.user_role, UserRole::SYSTEM);
    assert_eq!(a.email, "e@x.com");
}

#[test]
fn decimal_text_round_trip() {
    assert_eq!(format_i64(0), "0");
    assert_eq!(format_i64(1_700_000_000), "1700000000");
    assert_eq!(format_i64(-42), "-42");
    assert_eq!(format_i64(i64::MIN), "-9223372036854775808");
    assert_eq!(parse_i64("9223372036854775807"), Some(i64::MAX));
    assert_eq!(parse_i64("-9223372036854775808"), Some(i64::MIN));
    assert_eq!(parse_i64("9223372036854775808"), None);
    assert_eq!(parse_i64(""), None);
    assert_eq!(parse_i64("-"), None);
    assert_eq!(parse_i64("12a"), None);
    assert_eq!(parse_i64("007"), Some(7));
    for n in [0i64, 1, -1, 12345, i64::MAX, i64::MIN] {
        assert_eq!(parse_i64(&format_i64(n)), Some(n));
    }
}

#[test]
fn role_names() {
    assert_eq!(UserRole::PLATFORM_ADMIN.as_str(), "PLATFORM_ADMIN");
    assert_eq!(UserRole::ANON.as_string(), "ANON");
    assert_eq!(UserRole::from_name("DEALER"), Some(UserRole::DEALER));
    assert_eq!(UserRole::from_name("dealer"), None);
    assert_eq!(UserRole::from_stored("dealer"), UserRole::DEALER);
    assert_eq!(UserRole::from_stored("nobody"), UserRole::ANON);
    assert_eq!(UserRole::default(), UserRole::USER);
}

#[test]
fn token_timestamps_are_json_numbers() {
    let t = issue_token(&cfg(), String::from("a@x.com"), String::from("u1"), None, NOW).unwrap();
    let parts: Vec<&str> = t.split('.').collect();
    assert_eq!(parts.len(), 3);
    let payload = base64::decode_config(parts[1], base64::URL_SAFE_NO_PAD).unwrap();
    let claims: serde_json::Value = serde_json::from_slice(&payload).unwrap();
    assert_eq!(claims["exp"].as_i64(), Some(NOW + TOKEN_LIFETIME_SECS));
    assert_eq!(claims["iat"].as_i64(), Some(NOW));
    assert_eq!(claims["sub"].as_str(), Some("u1"));
    assert_eq!(claims["aud"].as_str(), Some("USER"));
}
