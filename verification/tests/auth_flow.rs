use qbot::accounts::User;
use qbot::auth::{
    authorization_code_url, extract_bearer_token, refresh_token_url, rejection_for_failure,
    select_jwt_attempt, AuthFailure, AuthRejection, Claims, JwtAttemptKind, JwtChoice,
};

#[test]
fn plain_token_is_taken_whole() {
    assert_eq!(extract_bearer_token("abc.def.ghi").as_deref(), Some("abc.def.ghi"));
    assert_eq!(extract_bearer_token("").as_deref(), Some(""));
}

#[test]
fn bearer_header_yields_its_last_token() {
    assert_eq!(extract_bearer_token("Bearer abc").as_deref(), Some("abc"));
    assert_eq!(extract_bearer_token("Bearer   abc  ").as_deref(), Some("abc"));
    assert_eq!(extract_bearer_token("Bearer a b").as_deref(), Some("b"));
    assert_eq!(extract_bearer_token("Bearer").as_deref(), Some("Bearer"));
}

#[test]
fn jwt_scan_accepts_the_first_success() {
    let attempts = vec![
        JwtAttemptKind::Expired,
        JwtAttemptKind::Failed,
        JwtAttemptKind::Verified,
        JwtAttemptKind::Verified,
    ];
    assert_eq!(select_jwt_attempt(&attempts), JwtChoice::Accept(2));
}

#[test]
fn jwt_scan_keeps_the_last_hard_failure() {
    let attempts = vec![
        JwtAttemptKind::Failed,
        JwtAttemptKind::Expired,
        JwtAttemptKind::Failed,
        JwtAttemptKind::Expired,
    ];
    assert_eq!(select_jwt_attempt(&attempts), JwtChoice::Reject(2));
}

#[test]
fn jwt_scan_with_only_expired_tries_knows_nothing() {
    assert_eq!(select_jwt_attempt(&vec![]), JwtChoice::Unknown);
    assert_eq!(
        select_jwt_attempt(&vec![JwtAttemptKind::Expired, JwtAttemptKind::Expired]),
        JwtChoice::Unknown
    );
}

#[test]
fn fetch_failures_blame_the_gateway() {
    assert!(matches!(
        rejection_for_failure(&AuthFailure::Fetch),
        AuthRejection::Gateway(_)
    ));
    assert!(matches!(
        rejection_for_failure(&AuthFailure::JwtValidation),
        AuthRejection::Invalid(_)
    ));
    assert!(matches!(
        rejection_for_failure(&AuthFailure::Unknown),
        AuthRejection::Invalid(_)
    ));
}

#[test]
fn refresh_url_percent_encodes_the_stored_token() {
    let url = refresh_token_url("a b+c/d", "client", "s3cret");
    assert_eq!(
        url,
        "https://id.twitch.tv/oauth2/token?grant_token=refresh_token&refresh_token=a%20b%2Bc%2Fd&client_id=client&client_secret=s3cret"
    );
}

#[test]
fn refresh_url_keeps_safe_characters() {
    let url = refresh_token_url("AZaz09-._~", "c", "s");
    assert_eq!(
        url,
        "https://id.twitch.tv/oauth2/token?grant_token=refresh_token&refresh_token=AZaz09-._~&client_id=c&client_secret=s"
    );
}

#[test]
fn authorization_code_url_is_built_field_for_field() {
    let url = authorization_code_url("id1", "sec2", "code3", "http://localhost:3000/login-redirect");
    assert_eq!(
        url,
        "https://id.twitch.tv/oauth2/token?client_id=id1&client_secret=sec2&code=code3&grant_type=authorization_code&redirect_uri=http://localhost:3000/login-redirect"
    );
}

#[test]
fn claims_keep_their_fields() {
    let c = Claims::new(
        "https://id.twitch.tv/oauth2".to_string(),
        "12345".to_string(),
        "client".to_string(),
        1700000000,
        1690000000,
        None,
        "host@example.com".to_string(),
        "BrittleKnee".to_string(),
    );
    assert_eq!(c.email, "host@example.com");
    assert_eq!(c.preferred_username, "BrittleKnee");
}

#[test]
fn user_record_keeps_its_fields() {
    let u = User::new(
        "host@example.com".to_string(),
        "brittleknee".to_string(),
        Some("tok".to_string()),
        7,
    );
    assert_eq!(u.id(), 7);
    assert_eq!(u.email(), "host@example.com");
    assert_eq!(u.username(), "brittleknee");
    assert_eq!(u.refresh_token().as_deref(), Some("tok"));
}
