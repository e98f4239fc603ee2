use base64::Engine;
use macocr::auth::{
    authorize, is_valid_auth_format, AuthCredential, AUTH_FAILED_BODY, WWW_AUTHENTICATE_VALUE,
};

fn basic_header(user_pass: &str) -> String {
    let encoded = base64::engine::general_purpose::STANDARD.encode(user_pass.as_bytes());
    format!("Basic {}", encoded)
}

#[test]
fn credential_format_validation() {
    assert!(is_valid_auth_format("alice:secret"));
    assert!(is_valid_auth_format("a:b"));
    assert!(!is_valid_auth_format(""));
    assert!(!is_valid_auth_format("alice"));
    assert!(!is_valid_auth_format("alice:se:cret"));
    assert!(!is_valid_auth_format(":secret"));
    assert!(!is_valid_auth_format("alice:"));
    assert!(!is_valid_auth_format(":"));
}

#[test]
fn credential_parsing_splits_at_colon() {
    let cred = AuthCredential::parse("alice:secret").unwrap();
    assert_eq!(cred.username, b"alice".to_vec());
    assert_eq!(cred.password, b"secret".to_vec());
    assert!(AuthCredential::parse("alice").is_none());
    assert!(AuthCredential::parse("a:b:c").is_none());
    assert!(AuthCredential::parse("").is_none());
}

#[test]
fn correct_credentials_pass() {
    let cred = AuthCredential::parse("alice:secret").unwrap();
    let header = basic_header("alice:secret");
    assert!(authorize(Some(header.as_bytes()), &cred));
}

#[test]
fn wrong_password_is_refused() {
    let cred = AuthCredential::parse("alice:secret").unwrap();
    let header = basic_header("alice:wrong");
    assert!(!authorize(Some(header.as_bytes()), &cred));
}

#[test]
fn wrong_user_is_refused() {
    let cred = AuthCredential::parse("alice:secret").unwrap();
    let header = basic_header("bob:secret");
    assert!(!authorize(Some(header.as_bytes()), &cred));
}

#[test]
fn malformed_headers_are_refused() {
    let cred = AuthCredential::parse("alice:secret").unwrap();
    assert!(!authorize(None, &cred));
    assert!(!authorize(Some(b""), &cred));
    assert!(!authorize(Some(b"Basic"), &cred));
    assert!(!authorize(Some(b"Basic !!!not-base64!!!"), &cred));
    let bearer = format!(
        "Bearer {}",
        base64::engine::general_purpose::STANDARD.encode(b"alice:secret")
    );
    assert!(!authorize(Some(bearer.as_bytes()), &cred));
}

#[test]
fn challenge_constants_match_the_realm() {
    assert_eq!(WWW_AUTHENTICATE_VALUE, "Basic realm=\"MacOCR Server\"");
    assert!(AUTH_FAILED_BODY.starts_with("Authentication failed"));
}
