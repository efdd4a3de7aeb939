//! Building the authenticated availability query for one venue and date.
//!
//! The query URL embeds the fixed facility-type code, the venue's numeric
//! code, and the Unix timestamp of the target date's midnight. The caller
//! issues the GET with the session's referer header and hands the body to
//! the extraction engine.

use vstd::prelude::*;

use crate::dates::{spec_epoch_seconds, Date};
use crate::gym::Gym;

verus! {

/// The character printing one decimal digit.
pub open spec fn spec_digit_char(d: int) -> char {
    if d == 0 {
        '0'
    } else if d == 1 {
        '1'
    } else if d == 2 {
        '2'
    } else if d == 3 {
        '3'
    } else if d == 4 {
        '4'
    } else if d == 5 {
        '5'
    } else if d == 6 {
        '6'
    } else if d == 7 {
        '7'
    } else if d == 8 {
        '8'
    } else {
        '9'
    }
}

/// Decimal digits of a number, most significant first, no leading zeros.
pub open spec fn spec_decimal(n: nat) -> Seq<char>
    decreases n,
{
    if n < 10 {
        seq![spec_digit_char(n as int)]
    } else {
        spec_decimal(n / 10).push(spec_digit_char((n % 10) as int))
    }
}

/// One digit as a string.
fn digit_str(d: u64) -> (r: &'static str)
    requires
        d < 10,
    ensures
        r@ =~= seq![spec_digit_char(d as int)],
{
    proof {
        reveal_strlit("0");
        reveal_strlit("1");
        reveal_strlit("2");
        reveal_strlit("3");
        reveal_strlit("4");
        reveal_strlit("5");
        reveal_strlit("6");
        reveal_strlit("7");
        reveal_strlit("8");
        reveal_strlit("9");
    }
    if d == 0 {
        "0"
    } else if d == 1 {
        "1"
    } else if d == 2 {
        "2"
    } else if d == 3 {
        "3"
    } else if d == 4 {
        "4"
    } else if d == 5 {
        "5"
    } else if d == 6 {
        "6"
    } else if d == 7 {
        "7"
    } else if d == 8 {
        "8"
    } else {
        "9"
    }
}

/// Prints a number in decimal.
pub fn u64_to_string(n: u64) -> (r: String)
    ensures
        r@ =~= spec_decimal(n as nat),
    decreases n,
{
    if n < 10 {
        digit_str(n).to_owned()
    } else {
        let mut s = u64_to_string(n / 10);
        s.append(digit_str(n % 10));
        proof {
            assert(s@ =~= spec_decimal((n / 10) as nat).push(spec_digit_char((n % 10) as int)));
        }
        s
    }
}

/// The availability query URL for one venue and date: the fixed facility
/// type, the venue's code, and the date's midnight as a Unix timestamp.
pub open spec fn spec_query_url(g: Gym, d: Date) -> Seq<char> {
    "https://members.myactivesg.com/facilities/view/activity/1031/venue/"@ + spec_decimal(
        g.spec_code() as nat,
    ) + "?time_from="@ + spec_decimal(spec_epoch_seconds(d) as nat)
}

/// Builds the availability query URL for one venue and date.
pub fn venue_query_url(gym: &Gym, date: &Date) -> (r: String)
    requires
        date.valid(),
    ensures
        r@ == spec_query_url(*gym, *date),
{
    let mut s = ("https://members.myactivesg.com/facilities/view/activity/1031/venue/").to_owned();
    let code = gym.code();
    let code_str = u64_to_string(code as u64);
    s.append(code_str.as_str());
    s.append("?time_from=");
    let days = date.epoch_days();
    let secs: u64 = days * 86400;
    let secs_str = u64_to_string(secs);
    s.append(secs_str.as_str());
    proof {
        assert(s@ =~= spec_query_url(*gym, *date));
    }
    s
}

} // verus!
