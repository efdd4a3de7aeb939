//! The command-line surface the program around the library exposes.

use vstd::prelude::*;

verus! {

/// What a run needs: credentials, and the switch that selects the
/// struct-of-arrays output layout.
#[derive(Debug, Clone)]
pub struct Args {
    /// Username (email address).
    pub username: String,
    /// The user's password.
    pub password: String,
    /// Output data as struct of arrays instead of an array of records.
    pub is_soa: bool,
}

} // verus!
