use handshake::error::AuthError;
use handshake::otp::{format_code, generate_otp};
use handshake::service::AuthService;
use handshake::token::{authenticate, create_jwt, strip_bearer, verify_jwt};

const SECRET: &str = "test-secret";
const NOW: i64 = 1_700_000_000;
const FAST_COST: u32 = 4;

fn service() -> AuthService {
    AuthService::new(SECRET.to_string(), FAST_COST)
}

fn is_six_digits(code: &str) -> bool {
    code.len() == 6 && code.chars().all(|c| c.is_ascii_digit())
}

fn other_code(code: &str) -> String {
    if code == "000000" { "000001".to_string() } else { "000000".to_string() }
}

#[test]
fn alice_registers_verifies_and_logs_in() {
    let mut svc = service();
    let mail = svc.register("alice@x.com".to_string(), "pw123", "Alice".to_string(), NOW).unwrap();
    assert!(is_six_digits(&mail.code));
    assert_eq!(mail.to_email, "alice@x.com");
    assert_eq!(mail.to_name, "Alice");
    let wrong = other_code(&mail.code);
    assert_eq!(svc.verify_email("alice@x.com", &wrong, NOW + 60), Err(AuthError::Unauthorized));
    assert_eq!(svc.verify_email("alice@x.com", &mail.code, NOW + 120), Ok(()));
    let login = svc.login("alice@x.com", "pw123", NOW + 180).unwrap();
    assert_eq!(login.user.email, "alice@x.com");
    assert_eq!(login.user.name, "Alice");
    assert!(login.user.email_verified);
    let claims = verify_jwt(SECRET, &login.token, NOW + 240).unwrap();
    assert_eq!(claims.sub, login.user.id);
    assert_eq!(claims.email, "alice@x.com");
}

#[test]
fn registration_leaves_unverified_account_with_one_live_code() {
    let mut svc = service();
    let mail = svc.register("bob@x.com".to_string(), "secret", "Bob".to_string(), NOW).unwrap();
    let store = svc.credentials();
    assert_eq!(store.user_count(), 1);
    let user = store.user_at(0);
    assert_eq!(user.id, 1);
    assert_eq!(user.email, "bob@x.com");
    assert!(!user.email_verified);
    assert_ne!(user.password_hash, "secret");
    assert_eq!(store.verification_count(), 1);
    let challenge = store.verification_at(0);
    assert_eq!(challenge.user_id, 1);
    assert_eq!(challenge.code, mail.code);
    assert_eq!(challenge.expires_at, NOW + 900);
}

#[test]
fn verified_code_cannot_be_replayed() {
    let mut svc = service();
    let mail = svc.register("carol@x.com".to_string(), "pw", "Carol".to_string(), NOW).unwrap();
    assert_eq!(svc.verify_email("carol@x.com", &mail.code, NOW + 10), Ok(()));
    assert_eq!(svc.credentials().verification_count(), 0);
    assert!(svc.credentials().user_at(0).email_verified);
    assert_eq!(svc.verify_email("carol@x.com", &mail.code, NOW + 20), Err(AuthError::InvalidState));
}

#[test]
fn resend_invalidates_previous_code() {
    let mut svc = service();
    svc.register_with_code("dan@x.com".to_string(), "hash".to_string(), "Dan".to_string(), "111111".to_string(), NOW)
        .unwrap();
    let resent = svc.resend_otp_with_code("dan@x.com", "222222".to_string(), NOW + 30).unwrap();
    assert_eq!(resent.code, "222222");
    assert_eq!(resent.to_name, "Dan");
    assert_eq!(svc.credentials().verification_count(), 1);
    assert_eq!(svc.verify_email("dan@x.com", "111111", NOW + 60), Err(AuthError::Unauthorized));
    assert_eq!(svc.verify_email("dan@x.com", "222222", NOW + 60), Ok(()));
}

#[test]
fn resend_with_fresh_code_replaces_the_old_one() {
    let mut svc = service();
    let first = svc.register("erin@x.com".to_string(), "pw", "Erin".to_string(), NOW).unwrap();
    let second = svc.resend_otp("erin@x.com", NOW + 5).unwrap();
    assert!(is_six_digits(&second.code));
    assert_eq!(svc.credentials().verification_count(), 1);
    assert_eq!(svc.credentials().verification_at(0).code, second.code);
    if first.code != second.code {
        assert_eq!(svc.verify_email("erin@x.com", &first.code, NOW + 10), Err(AuthError::Unauthorized));
    }
    assert_eq!(svc.verify_email("erin@x.com", &second.code, NOW + 10), Ok(()));
}

#[test]
fn expired_code_is_reported_as_expired() {
    let mut svc = service();
    let mail = svc.register("finn@x.com".to_string(), "pw", "Finn".to_string(), NOW).unwrap();
    assert_eq!(svc.verify_email("finn@x.com", &mail.code, NOW + 900), Err(AuthError::Expired));
    assert_eq!(svc.verify_email("finn@x.com", &mail.code, NOW + 899), Ok(()));
}

#[test]
fn newest_matching_code_decides() {
    let mut svc = service();
    svc.register_with_code("gil@x.com".to_string(), "h".to_string(), "Gil".to_string(), "333333".to_string(), NOW)
        .unwrap();
    svc.resend_otp_with_code("gil@x.com", "333333".to_string(), NOW + 600).unwrap();
    assert_eq!(svc.verify_email("gil@x.com", "333333", NOW + 1000), Ok(()));
}

#[test]
fn duplicate_email_conflicts() {
    let mut svc = service();
    svc.register("hal@x.com".to_string(), "pw", "Hal".to_string(), NOW).unwrap();
    let again = svc.register("hal@x.com".to_string(), "other", "Hal 2".to_string(), NOW);
    assert!(matches!(again, Err(AuthError::Conflict)));
    assert_eq!(svc.credentials().user_count(), 1);
    assert_eq!(svc.credentials().verification_count(), 1);
}

#[test]
fn emails_are_case_sensitive() {
    let mut svc = service();
    svc.register("ivy@x.com".to_string(), "pw", "Ivy".to_string(), NOW).unwrap();
    assert!(svc.register("Ivy@x.com".to_string(), "pw", "Ivy".to_string(), NOW).is_ok());
    assert_eq!(svc.credentials().user_count(), 2);
}

#[test]
fn unknown_email_is_not_found_for_verification_and_resend() {
    let mut svc = service();
    assert_eq!(svc.verify_email("nobody@x.com", "123456", NOW), Err(AuthError::NotFound));
    assert!(matches!(svc.resend_otp("nobody@x.com", NOW), Err(AuthError::NotFound)));
}

#[test]
fn resend_to_verified_account_is_invalid() {
    let mut svc = service();
    let mail = svc.register("jo@x.com".to_string(), "pw", "Jo".to_string(), NOW).unwrap();
    svc.verify_email("jo@x.com", &mail.code, NOW).unwrap();
    assert!(matches!(svc.resend_otp("jo@x.com", NOW), Err(AuthError::InvalidState)));
}

#[test]
fn invalid_hash_cost_is_internal_and_changes_nothing() {
    let mut svc = AuthService::new(SECRET.to_string(), 3);
    assert!(matches!(svc.register("kim@x.com".to_string(), "pw", "Kim".to_string(), NOW), Err(AuthError::Internal)));
    assert_eq!(svc.credentials().user_count(), 0);
}

#[test]
fn login_before_verification_is_forbidden() {
    let mut svc = service();
    svc.register("lee@x.com".to_string(), "pw123", "Lee".to_string(), NOW).unwrap();
    assert!(matches!(svc.login("lee@x.com", "pw123", NOW), Err(AuthError::Forbidden)));
    assert!(matches!(svc.login("lee@x.com", "wrong", NOW), Err(AuthError::Forbidden)));
}

#[test]
fn login_with_wrong_password_is_unauthorized() {
    let mut svc = service();
    let mail = svc.register("max@x.com".to_string(), "pw123", "Max".to_string(), NOW).unwrap();
    svc.verify_email("max@x.com", &mail.code, NOW).unwrap();
    assert!(matches!(svc.login("max@x.com", "pw124", NOW), Err(AuthError::Unauthorized)));
    assert!(svc.login("max@x.com", "pw123", NOW).is_ok());
}

#[test]
fn login_with_unknown_email_is_unauthorized() {
    let svc = service();
    assert!(matches!(svc.login("ghost@x.com", "pw", NOW), Err(AuthError::Unauthorized)));
}

#[test]
fn login_with_unparsable_stored_hash_is_internal() {
    let mut svc = service();
    svc.register_with_code("ned@x.com".to_string(), "not-a-hash".to_string(), "Ned".to_string(), "444444".to_string(), NOW)
        .unwrap();
    svc.verify_email("ned@x.com", "444444", NOW).unwrap();
    assert!(matches!(svc.login("ned@x.com", "pw", NOW), Err(AuthError::Internal)));
}

#[test]
fn me_returns_the_token_holder() {
    let mut svc = service();
    let mail = svc.register("oli@x.com".to_string(), "pw", "Oli".to_string(), NOW).unwrap();
    svc.verify_email("oli@x.com", &mail.code, NOW).unwrap();
    let login = svc.login("oli@x.com", "pw", NOW).unwrap();
    let header = format!("Bearer {}", login.token);
    let me = svc.me(Some(&header), NOW + 1).unwrap();
    assert_eq!(me.id, 1);
    assert_eq!(me.email, "oli@x.com");
    assert_eq!(me.name, "Oli");
    assert!(me.email_verified);
    assert!(matches!(svc.me(None, NOW), Err(AuthError::Unauthorized)));
    assert!(matches!(svc.me(Some("Bearer garbage"), NOW), Err(AuthError::Unauthorized)));
}

#[test]
fn me_for_a_missing_account_is_not_found() {
    let svc = service();
    let token = create_jwt(SECRET, 7, "p@x.com", NOW).unwrap();
    assert!(matches!(svc.me(Some(&token), NOW), Err(AuthError::NotFound)));
}

#[test]
fn token_decodes_to_its_subject_and_email() {
    let token = create_jwt(SECRET, 42, "a@b.com", NOW).unwrap();
    let claims = verify_jwt(SECRET, &token, NOW).unwrap();
    assert_eq!(claims.sub, 42);
    assert_eq!(claims.email, "a@b.com");
    assert_eq!(claims.exp, (NOW + 2_592_000) as u64);
}

#[test]
fn altered_signature_is_rejected() {
    let token = create_jwt(SECRET, 42, "a@b.com", NOW).unwrap();
    let mut bytes = token.into_bytes();
    let last = bytes.len() - 1;
    bytes[last] = if bytes[last] == b'A' { b'B' } else { b'A' };
    let tampered = String::from_utf8(bytes).unwrap();
    assert!(matches!(verify_jwt(SECRET, &tampered, NOW), Err(AuthError::Unauthorized)));
}

#[test]
fn token_under_another_secret_is_rejected() {
    let token = create_jwt("other-secret", 42, "a@b.com", NOW).unwrap();
    assert!(matches!(verify_jwt(SECRET, &token, NOW), Err(AuthError::Unauthorized)));
}

#[test]
fn token_past_its_expiry_is_rejected() {
    let token = create_jwt(SECRET, 42, "a@b.com", NOW).unwrap();
    let expiry = NOW + 2_592_000;
    assert!(verify_jwt(SECRET, &token, expiry).is_ok());
    assert!(matches!(verify_jwt(SECRET, &token, expiry + 1), Err(AuthError::Unauthorized)));
}

#[test]
fn bearer_prefix_is_optional() {
    assert_eq!(strip_bearer("Bearer abc.def"), "abc.def");
    assert_eq!(strip_bearer("abc.def"), "abc.def");
    assert_eq!(strip_bearer("Bearer"), "Bearer");
    assert_eq!(strip_bearer("bearer abc"), "bearer abc");
    let token = create_jwt(SECRET, 5, "q@x.com", NOW).unwrap();
    let with_prefix = format!("Bearer {}", token);
    let user = authenticate(SECRET, Some(&with_prefix), NOW).unwrap();
    assert_eq!(user.user_id, 5);
    assert_eq!(user.email, "q@x.com");
    let bare = authenticate(SECRET, Some(&token), NOW).unwrap();
    assert_eq!(bare.user_id, 5);
    assert!(matches!(authenticate(SECRET, None, NOW), Err(AuthError::Unauthorized)));
}

#[test]
fn error_kinds_map_to_statuses() {
    assert_eq!(AuthError::Conflict.status_code(), 409);
    assert_eq!(AuthError::NotFound.status_code(), 404);
    assert_eq!(AuthError::Unauthorized.status_code(), 401);
    assert_eq!(AuthError::Forbidden.status_code(), 403);
    assert_eq!(AuthError::Expired.status_code(), 410);
    assert_eq!(AuthError::InvalidState.status_code(), 400);
    assert_eq!(AuthError::Internal.status_code(), 500);
}

#[test]
fn codes_are_six_zero_padded_digits() {
    assert_eq!(format_code(42), "000042");
    assert_eq!(format_code(0), "000000");
    assert_eq!(format_code(999_999), "999999");
    assert_eq!(format_code(123_456), "123456");
    for _ in 0..20 {
        assert!(is_six_digits(&generate_otp()));
    }
}

#[test]
fn issuing_is_deterministic() {
    let a = create_jwt(SECRET, 9, "r@x.com", NOW).unwrap();
    let b = create_jwt(SECRET, 9, "r@x.com", NOW).unwrap();
    assert_eq!(a, b);
    assert_eq!(a.split('.').count(), 3);
    assert!(!a.contains(' '));
    assert_ne!(a, create_jwt(SECRET, 9, "r@x.com", NOW + 1).unwrap());
}

#[test]
fn resend_mail_goes_to_the_account_and_keeps_other_codes() {
    let mut svc = service();
    svc.register_with_code("sam@x.com".to_string(), "h".to_string(), "Sam".to_string(), "555555".to_string(), NOW)
        .unwrap();
    svc.register_with_code("tia@x.com".to_string(), "h".to_string(), "Tia".to_string(), "666666".to_string(), NOW)
        .unwrap();
    let mail = svc.resend_otp("sam@x.com", NOW + 1).unwrap();
    assert_eq!(mail.to_email, "sam@x.com");
    assert_eq!(mail.to_name, "Sam");
    let store = svc.credentials();
    assert_eq!(store.verification_count(), 2);
    assert_eq!(store.verification_at(0).code, "666666");
    assert_eq!(store.verification_at(0).user_id, 2);
    assert_eq!(store.verification_at(1).code, mail.code);
    assert_eq!(store.verification_at(1).user_id, 1);
    assert_eq!(store.verification_at(1).expires_at, NOW + 1 + 900);
}
