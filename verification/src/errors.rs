//! Error kinds of the availability-mining core.

use vstd::prelude::*;

verus! {

/// What can go wrong while authenticating or extracting data.
///
/// Transport and file-system failures are outside the library and are
/// represented by the surrounding program, not here.
#[derive(Debug)]
pub enum Error {
    /// An expected HTML element, attribute or text pattern is absent.
    CantFindElement(&'static str),
    /// The sign-in request resolved somewhere other than the profile page.
    InvalidCredentialsSessionExpired,
    /// The login form's RSA public key was not a parsable PEM.
    FailedToParsePEM,
    /// The password could not be encrypted with the parsed key.
    FailedToGenerateKeyFromPEM,
    /// A compiled-in CSS selector failed to build.
    FailedToParseSelector,
    /// A request URL failed to build.
    FailedToParseUrl,
    /// A venue name outside the closed venue table.
    InvalidGym(String),
}

} // verus!
