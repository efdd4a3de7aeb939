//! The login sequence: extracting the CSRF token and RSA public key from
//! the login form, encrypting the password, and deciding the outcome of
//! the sign-in POST.
//!
//! Network steps live with the caller. The [`Authenticator`] holds the
//! decision half of the sequence as an explicit state machine; the caller
//! performs each HTTP step and feeds the response back.

use vstd::prelude::*;
use vstd::string::StringSliceAdditionalSpecFns;
use vstd::utf8::encode_utf8;

use crate::errors::Error;
use crate::slot_text::str_eq;
use crate::MAX_TEXT_LEN;

verus! {

/// The account that signs in.
#[derive(Debug, Clone)]
pub struct User {
    /// Email address of the user.
    pub email: String,
    /// The user's raw password; never sent in the clear.
    pub password: String,
}

impl User {
    /// An account from its parts.
    pub fn new(email_address: String, password: String) -> (r: Self)
        ensures
            r.email == email_address,
            r.password == password,
    {
        User { email: email_address, password }
    }
}

/// Wire payload of the sign-in POST: the email, the encrypted password,
/// and the CSRF token of the form.
#[derive(Debug, Clone)]
pub struct LoginCredentials {
    pub email: String,
    pub ecpassword: String,
    pub _csrf: String,
}

impl LoginCredentials {
    /// A payload from its parts.
    pub fn new(email: String, ecpassword: String, _csrf: String) -> (r: Self)
        ensures
            r.email == email,
            r.ecpassword == ecpassword,
            r._csrf == _csrf,
    {
        LoginCredentials { email, ecpassword, _csrf }
    }
}

/// The `value` attribute of the first `input` element with the given
/// `name` attribute in a document, if both exist.
pub uninterp spec fn input_value_of(doc: Seq<char>, name: Seq<char>) -> Option<Seq<char>>;

/// Relies on scraper's `Html::parse_document` and CSS attribute
/// selection: the value found depends on the document text alone. The
/// length bound keeps the document inside the HTML buffer's 32-bit byte
/// limit (a character is at most four bytes).
#[verifier::external_body]
fn input_field_value(body: &str, name: &str) -> (r: Option<String>)
    requires
        body@.len() < MAX_TEXT_LEN,
    ensures
        match r {
            Some(v) => input_value_of(body@, name@) == Some(v@),
            None => input_value_of(body@, name@) is None,
        },
{
    let selector = match scraper::Selector::parse(&format!("input[name=\"{}\"]", name)) {
        Ok(s) => s,
        Err(_) => {
            return None;
        },
    };
    let document = scraper::Html::parse_document(body);
    document.select(&selector).next().and_then(|v| v.value().attr("value")).map(|s| s.to_string())
}

/// Extracts the PEM-encoded RSA public key from the login page.
pub fn get_rsa_key(body: &str) -> (r: Result<String, Error>)
    requires
        body@.len() < MAX_TEXT_LEN,
    ensures
        match r {
            Ok(v) => input_value_of(body@, "rsapublickey"@) == Some(v@),
            Err(e) => {
                &&& input_value_of(body@, "rsapublickey"@) is None
                &&& e matches Error::CantFindElement(m) && m@ == "rsapublickey"@
            },
        },
{
    match input_field_value(body, "rsapublickey") {
        Some(v) => Ok(v),
        None => Err(Error::CantFindElement("rsapublickey")),
    }
}

/// Extracts the CSRF token from the login page.
pub fn get_csrf_token(body: &str) -> (r: Result<String, Error>)
    requires
        body@.len() < MAX_TEXT_LEN,
    ensures
        match r {
            Ok(v) => input_value_of(body@, "_csrf"@) == Some(v@),
            Err(e) => {
                &&& input_value_of(body@, "_csrf"@) is None
                &&& e matches Error::CantFindElement(m) && m@ == "_csrf"@
            },
        },
{
    match input_field_value(body, "_csrf") {
        Some(v) => Ok(v),
        None => Err(Error::CantFindElement("_csrf")),
    }
}

/// Whether openssl accepts a text as a PEM-encoded RSA public key.
pub uninterp spec fn rsa_pem_ok(pem: Seq<char>) -> bool;

/// Size in bytes of an RSA block under the key a PEM text names; a
/// PKCS#1 v1.5 payload must be at least eleven bytes smaller.
pub uninterp spec fn rsa_block_of(pem: Seq<char>) -> int;

/// The base64 encoding, standard alphabet with padding, of a byte
/// sequence.
pub uninterp spec fn base64_of(bytes: Seq<u8>) -> Seq<char>;

/// Relies on openssl's `Rsa::public_key_from_pem` and `public_encrypt`
/// with PKCS#1 v1.5 padding, into a buffer of the key's size, as the
/// sign-in protocol expects. The two calls form one operation here
/// because the key between them is opaque: keying the contract by the
/// PEM text lets it state what openssl's source shows — parsing is a
/// deterministic function of the text, and a payload over the block
/// size less eleven is always refused. The padding is randomized, so
/// nothing more is promised of the ciphertext or of success. The length
/// bounds keep both texts under openssl's 32-bit byte limits (a
/// character is at most four bytes).
#[verifier::external_body]
fn rsa_encrypt_password(pem: &str, pwd: &str) -> (r: Result<Vec<u8>, Error>)
    requires
        pem@.len() < MAX_TEXT_LEN,
        pwd@.len() < MAX_TEXT_LEN,
    ensures
        (r == Err::<Vec<u8>, Error>(Error::FailedToParsePEM)) <==> !rsa_pem_ok(pem@),
        r matches Err(e) ==> (e is FailedToParsePEM || e is FailedToGenerateKeyFromPEM),
        r matches Ok(ct) ==> {
            &&& ct@.len() == rsa_block_of(pem@)
            &&& pwd.spec_bytes().len() + 11 <= rsa_block_of(pem@)
        },
{
    let key = match openssl::rsa::Rsa::public_key_from_pem(pem.as_bytes()) {
        Ok(k) => k,
        Err(_) => {
            return Err(Error::FailedToParsePEM);
        },
    };
    let mut buf = vec![0u8; key.size() as usize];
    match key.public_encrypt(pwd.as_bytes(), &mut buf, openssl::rsa::Padding::PKCS1) {
        Ok(_) => Ok(buf),
        Err(_) => Err(Error::FailedToGenerateKeyFromPEM),
    }
}

/// Relies on `base64::encode`: the encoding depends on the bytes alone,
/// four output characters for every started group of three bytes.
#[verifier::external_body]
fn base64_encode(bytes: &Vec<u8>) -> (r: String)
    ensures
        r@ == base64_of(bytes@),
        r@.len() == 4 * ((bytes@.len() + 2) / 3),
{
    base64::encode(bytes)
}

/// Encrypts the raw password under the page's RSA public key and returns
/// the ciphertext, base64-encoded. A PEM that does not parse — or that
/// exceeds the machine limit on parsable texts — is reported before
/// anything else is attempted; a password over the key's block size less
/// eleven, or a failure of the padding randomness, is reported as an
/// encryption failure. This is a computation over its two arguments and
/// the padding randomness alone: no path touches the network, a file, or
/// the arguments' contents.
pub fn generate_enc_pwd(public_key: &str, pwd_raw: &str) -> (r: Result<String, Error>)
    requires
        pwd_raw@.len() < MAX_TEXT_LEN,
    ensures
        (r == Err::<String, Error>(Error::FailedToParsePEM)) <==> (public_key@.len()
            >= MAX_TEXT_LEN || !rsa_pem_ok(public_key@)),
        r matches Err(e) ==> (e is FailedToParsePEM || e is FailedToGenerateKeyFromPEM),
        r matches Ok(s) ==> {
            &&& rsa_pem_ok(public_key@)
            &&& pwd_raw.spec_bytes().len() + 11 <= rsa_block_of(public_key@)
            &&& exists|ct: Seq<u8>|
                ct.len() == rsa_block_of(public_key@) && s@ == base64_of(ct)
        },
{
    if public_key.unicode_len() >= MAX_TEXT_LEN {
        return Err(Error::FailedToParsePEM);
    }
    match rsa_encrypt_password(public_key, pwd_raw) {
        Ok(ct) => {
            let encoded = base64_encode(&ct);
            proof {
                assert(ct@.len() == rsa_block_of(public_key@) && encoded@ == base64_of(ct@));
            }
            Ok(encoded)
        },
        Err(e) => Err(e),
    }
}

/// Builds the sign-in payload from the login page body: the CSRF token
/// and RSA key are extracted, then the password is encrypted under the
/// key. The first missing piece decides the error, token before key.
pub fn handle_login_credentials(body: &str, user: &User) -> (r: Result<LoginCredentials, Error>)
    requires
        body@.len() < MAX_TEXT_LEN,
        user.password@.len() < MAX_TEXT_LEN,
    ensures
        ({
            let csrf = input_value_of(body@, "_csrf"@);
            let pem = input_value_of(body@, "rsapublickey"@);
            match r {
                Ok(c) => {
                    &&& csrf is Some && c._csrf@ == csrf->Some_0
                    &&& pem is Some
                    &&& (pem->Some_0).len() < MAX_TEXT_LEN
                    &&& rsa_pem_ok(pem->Some_0)
                    &&& encode_utf8(user.password@).len() + 11 <= rsa_block_of(pem->Some_0)
                    &&& c.email@ == user.email@
                    &&& exists|ct: Seq<u8>|
                        ct.len() == rsa_block_of(pem->Some_0) && c.ecpassword@ == base64_of(ct)
                },
                Err(e) => {
                    &&& (csrf is None ==> (e matches Error::CantFindElement(m) && m@
                        == "_csrf"@))
                    &&& (csrf is Some && pem is None ==> (e matches Error::CantFindElement(m)
                        && m@ == "rsapublickey"@))
                    &&& (csrf is Some && pem is Some ==> (if (pem->Some_0).len() >= MAX_TEXT_LEN
                        || !rsa_pem_ok(pem->Some_0) {
                        e is FailedToParsePEM
                    } else {
                        e is FailedToGenerateKeyFromPEM
                    }))
                },
            }
        }),
{
    let csrf_token = match get_csrf_token(body) {
        Ok(t) => t,
        Err(e) => {
            return Err(e);
        },
    };
    let rsa_key = match get_rsa_key(body) {
        Ok(k) => k,
        Err(e) => {
            return Err(e);
        },
    };
    let enc_pwd = match generate_enc_pwd(rsa_key.as_str(), user.password.as_str()) {
        Ok(p) => p,
        Err(e) => {
            return Err(e);
        },
    };
    Ok(LoginCredentials::new(user.email.clone(), enc_pwd, csrf_token))
}

/// The states of one sign-in sequence.
#[derive(Debug, Clone, Copy, PartialEq, Eq, Structural)]
pub enum AuthState {
    Unauthenticated,
    AwaitingLoginPage,
    AwaitingSignInResult,
    Authenticated,
    Failed,
}

/// An authenticated context: the post-login landing URL, carried as the
/// `Referer` header of later queries. The cookie jar lives with the
/// caller's HTTP client and is never shared across sequences.
#[derive(Debug, Clone)]
pub struct Session {
    pub referer: String,
}

/// The decision half of the login sequence. The caller performs each
/// network step and feeds the response back; every transition is decided
/// here.
#[derive(Debug)]
pub struct Authenticator {
    pub state: AuthState,
}

impl Authenticator {
    /// A fresh, unauthenticated sequence.
    pub fn new() -> (r: Self)
        ensures
            r.state == AuthState::Unauthenticated,
    {
        Authenticator { state: AuthState::Unauthenticated }
    }

    /// First step: hands out the login URL the caller must GET, with the
    /// fixed browser headers, before feeding the body to `on_login_page`.
    pub fn begin(&mut self) -> (url: &'static str)
        requires
            old(self).state == AuthState::Unauthenticated,
        ensures
            final(self).state == AuthState::AwaitingLoginPage,
            url@ == "https://members.myactivesg.com/auth"@,
    {
        self.state = AuthState::AwaitingLoginPage;
        "https://members.myactivesg.com/auth"
    }

    /// Second step: builds the sign-in payload from the login page body.
    /// Any extraction or encryption failure ends the sequence with that
    /// specific error; on success the caller must POST the payload as a
    /// form to the sign-in URL, following redirects with the cookie jar
    /// carried across.
    pub fn on_login_page(&mut self, user: &User, body: &str) -> (r: Result<LoginCredentials, Error>)
        requires
            old(self).state == AuthState::AwaitingLoginPage,
            body@.len() < MAX_TEXT_LEN,
            user.password@.len() < MAX_TEXT_LEN,
        ensures
            r is Ok <==> final(self).state == AuthState::AwaitingSignInResult,
            r is Err <==> final(self).state == AuthState::Failed,
            ({
                let csrf = input_value_of(body@, "_csrf"@);
                let pem = input_value_of(body@, "rsapublickey"@);
                match r {
                    Ok(c) => {
                        &&& csrf is Some && c._csrf@ == csrf->Some_0
                        &&& pem is Some
                        &&& (pem->Some_0).len() < MAX_TEXT_LEN
                        &&& rsa_pem_ok(pem->Some_0)
                        &&& encode_utf8(user.password@).len() + 11 <= rsa_block_of(pem->Some_0)
                        &&& c.email@ == user.email@
                        &&& exists|ct: Seq<u8>|
                            ct.len() == rsa_block_of(pem->Some_0) && c.ecpassword@ == base64_of(
                                ct,
                            )
                    },
                    Err(e) => {
                        &&& (csrf is None ==> (e matches Error::CantFindElement(m) && m@
                            == "_csrf"@))
                        &&& (csrf is Some && pem is None ==> (e matches Error::CantFindElement(
                            m,
                        ) && m@ == "rsapublickey"@))
                        &&& (csrf is Some && pem is Some ==> (if (pem->Some_0).len()
                            >= MAX_TEXT_LEN || !rsa_pem_ok(pem->Some_0) {
                            e is FailedToParsePEM
                        } else {
                            e is FailedToGenerateKeyFromPEM
                        }))
                    },
                }
            }),
    {
        match handle_login_credentials(body, user) {
            Ok(c) => {
                self.state = AuthState::AwaitingSignInResult;
                Ok(c)
            },
            Err(e) => {
                self.state = AuthState::Failed;
                Err(e)
            },
        }
    }

    /// The sign-in URL the payload is POSTed to.
    pub fn sign_in_url() -> (r: &'static str)
        ensures
            r@ == "https://members.myactivesg.com/auth/signin"@,
    {
        "https://members.myactivesg.com/auth/signin"
    }

    /// Final step: judges the POST's final resolved URL. Exactly the
    /// known profile URL authenticates; anything else, such as a bounce
    /// back to the login form, fails the sequence as rejected credentials
    /// or an expired session.
    pub fn on_sign_in_result(&mut self, resolved_url: &str) -> (r: Result<Session, Error>)
        requires
            old(self).state == AuthState::AwaitingSignInResult,
        ensures
            resolved_url@ == "https://members.myactivesg.com/profile"@ ==> {
                &&& r matches Ok(s) && s.referer@ == resolved_url@
                &&& final(self).state == AuthState::Authenticated
            },
            resolved_url@ != "https://members.myactivesg.com/profile"@ ==> {
                &&& r == Err::<Session, Error>(Error::InvalidCredentialsSessionExpired)
                &&& final(self).state == AuthState::Failed
            },
    {
        if str_eq(resolved_url, "https://members.myactivesg.com/profile") {
            self.state = AuthState::Authenticated;
            Ok(Session { referer: resolved_url.to_owned() })
        } else {
            self.state = AuthState::Failed;
            Err(Error::InvalidCredentialsSessionExpired)
        }
    }
}

} // verus!
