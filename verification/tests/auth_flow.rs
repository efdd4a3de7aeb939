//! Login-form extraction, password encryption, and the sign-in state
//! machine.

use slot_miner::auth::{
    generate_enc_pwd, get_csrf_token, get_rsa_key, handle_login_credentials, AuthState,
    Authenticator, User,
};
use slot_miner::errors::Error;

const PROFILE_URL: &str = "https://members.myactivesg.com/profile";

fn login_page(csrf: &str, pem: &str) -> String {
    format!(
        "<html><body><form>\
         <input type=\"hidden\" name=\"_csrf\" value=\"{}\">\
         <input type=\"hidden\" name=\"rsapublickey\" value=\"{}\">\
         </form></body></html>",
        csrf, pem
    )
}

fn test_keypair() -> (openssl::rsa::Rsa<openssl::pkey::Private>, String) {
    let key = openssl::rsa::Rsa::generate(2048).unwrap();
    let pem = String::from_utf8(key.public_key_to_pem().unwrap()).unwrap();
    (key, pem)
}

#[test]
fn csrf_token_is_extracted() {
    let body = login_page("tok-123", "whatever");
    assert_eq!(get_csrf_token(&body).unwrap(), "tok-123");
}

#[test]
fn rsa_key_is_extracted() {
    let body = login_page("tok", "PEM-BYTES");
    assert_eq!(get_rsa_key(&body).unwrap(), "PEM-BYTES");
}

#[test]
fn missing_csrf_is_reported() {
    let body = "<html><body><form><input name=\"rsapublickey\" value=\"x\"></form></body></html>";
    assert!(matches!(get_csrf_token(body), Err(Error::CantFindElement("_csrf"))));
}

#[test]
fn missing_rsa_key_is_reported() {
    let body = "<html><body><form><input name=\"_csrf\" value=\"x\"></form></body></html>";
    assert!(matches!(get_rsa_key(body), Err(Error::CantFindElement("rsapublickey"))));
}

#[test]
fn malformed_pem_fails_before_anything_else() {
    // No network is involved anywhere in the library; a malformed PEM is
    // rejected by parsing alone.
    let r = generate_enc_pwd("not a pem at all", "secret");
    assert!(matches!(r, Err(Error::FailedToParsePEM)));
}

#[test]
fn encryption_round_trips_through_the_private_key() {
    let (key, pem) = test_keypair();
    let password = "correct horse battery staple";
    let encoded = generate_enc_pwd(&pem, password).unwrap();
    let ciphertext = base64::decode(&encoded).unwrap();
    assert_eq!(ciphertext.len(), key.size() as usize);
    let mut plain = vec![0u8; key.size() as usize];
    let n = key.private_decrypt(&ciphertext, &mut plain, openssl::rsa::Padding::PKCS1).unwrap();
    assert_eq!(&plain[..n], password.as_bytes());
}

#[test]
fn oversized_password_fails_encryption() {
    // PKCS#1 v1.5 under a 2048-bit key holds at most 256 - 11 bytes.
    let (_, pem) = test_keypair();
    let long_password = "a".repeat(300);
    let r = generate_enc_pwd(&pem, &long_password);
    assert!(matches!(r, Err(Error::FailedToGenerateKeyFromPEM)));
}

#[test]
fn password_at_the_block_limit_still_encrypts() {
    let (key, pem) = test_keypair();
    let password = "b".repeat(key.size() as usize - 11);
    let encoded = generate_enc_pwd(&pem, &password).unwrap();
    let ciphertext = base64::decode(&encoded).unwrap();
    let mut plain = vec![0u8; key.size() as usize];
    let n = key.private_decrypt(&ciphertext, &mut plain, openssl::rsa::Padding::PKCS1).unwrap();
    assert_eq!(&plain[..n], password.as_bytes());
}

#[test]
fn handle_login_credentials_builds_the_payload() {
    let (key, pem) = test_keypair();
    let body = login_page("tok-9", &pem);
    let user = User::new("a@b.c".to_string(), "pw".to_string());
    let creds = handle_login_credentials(&body, &user).unwrap();
    assert_eq!(creds.email, "a@b.c");
    assert_eq!(creds._csrf, "tok-9");
    let ciphertext = base64::decode(&creds.ecpassword).unwrap();
    let mut plain = vec![0u8; key.size() as usize];
    let n = key.private_decrypt(&ciphertext, &mut plain, openssl::rsa::Padding::PKCS1).unwrap();
    assert_eq!(&plain[..n], b"pw");
}

#[test]
fn handle_login_credentials_reports_bad_pem() {
    let body = login_page("tok", "garbage pem");
    let user = User::new("a@b.c".to_string(), "pw".to_string());
    assert!(matches!(handle_login_credentials(&body, &user), Err(Error::FailedToParsePEM)));
}

#[test]
fn full_login_sequence_reaches_authenticated() {
    let (_, pem) = test_keypair();
    let mut auth = Authenticator::new();
    assert_eq!(auth.state, AuthState::Unauthenticated);
    let url = auth.begin();
    assert_eq!(url, "https://members.myactivesg.com/auth");
    assert_eq!(auth.state, AuthState::AwaitingLoginPage);
    let body = login_page("tok", &pem);
    let user = User::new("a@b.c".to_string(), "pw".to_string());
    auth.on_login_page(&user, &body).unwrap();
    assert_eq!(auth.state, AuthState::AwaitingSignInResult);
    let session = auth.on_sign_in_result(PROFILE_URL).unwrap();
    assert_eq!(auth.state, AuthState::Authenticated);
    assert_eq!(session.referer, PROFILE_URL);
}

#[test]
fn bounce_back_to_login_fails_the_sequence() {
    // A sign-in POST that resolves anywhere but the profile page, such
    // as a redirect back to the login form, is the sole signal of bad
    // credentials or an expired session.
    let mut auth = Authenticator { state: AuthState::AwaitingSignInResult };
    let r = auth.on_sign_in_result("https://members.myactivesg.com/auth/signin");
    assert!(matches!(r, Err(Error::InvalidCredentialsSessionExpired)));
    assert_eq!(auth.state, AuthState::Failed);
}

#[test]
fn extraction_failure_fails_the_sequence() {
    let mut auth = Authenticator { state: AuthState::AwaitingLoginPage };
    let user = User::new("a@b.c".to_string(), "pw".to_string());
    let r = auth.on_login_page(&user, "<html><body></body></html>");
    assert!(matches!(r, Err(Error::CantFindElement("_csrf"))));
    assert_eq!(auth.state, AuthState::Failed);
}
