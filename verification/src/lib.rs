//! Verified core of a facility-booking availability miner.
//!
//! The library covers the authentication-and-extraction pipeline: parsing
//! slot-count and time-of-day labels, turning one availability page into
//! typed timeslot records, extracting the CSRF token and RSA public key from
//! the login form, encrypting the password, and the login state machine.
//! Network I/O, scheduling and file output live outside the library.

pub mod args;
pub mod auth;
pub mod client;
pub mod dates;
pub mod errors;
pub mod gym;
pub mod slot_text;
pub mod timeslot;

use vstd::prelude::*;

verus! {

/// Machine limit on the texts handed to the HTML parser and to the RSA
/// routines: 2^29 characters. A character encodes to at most four UTF-8
/// bytes, so any such text stays under 2^31 bytes, within the 32-bit
/// length limits those libraries assert on their inputs.
pub const MAX_TEXT_LEN: usize = 0x2000_0000;

} // verus!
