//! Parsing of one label's plain text into a slot count and a time-of-day.
//!
//! A label may contain a slot count (`"25 Left"`), a time (`"07:00 AM"`),
//! both, or neither; each is matched independently. Matching follows the
//! fixed patterns of the upstream page: a slot count is the leftmost run of
//! digits followed by `" Left"`; a time is the leftmost run of digits
//! followed by `:`, another digit run, a space, and a meridiem marker of
//! which only the first letter (`A` or `P`) is significant. `PM` adds 12 to
//! the hour as written, so `"12:00 PM"` yields hour 24; minutes are read but
//! discarded. Both quirks are deliberate reproductions of upstream behaviour.

use vstd::prelude::*;

use crate::errors::Error;

verus! {

/// A parsed slot count as the upstream page prints it: one or two
/// digits, so at most 99.
#[derive(Debug, Clone, Copy, PartialEq, Eq, Structural)]
pub struct ActiveSgSlotCount(pub u8);

/// One decimal digit.
pub open spec fn is_digit(c: char) -> bool {
    48 <= c as u32 && c as u32 <= 57
}

/// Numeric value of one digit character.
pub open spec fn digit_val(c: char) -> int {
    c as u32 - 48
}

/// Index of the first non-digit at or after `i`.
pub open spec fn digit_run_end(s: Seq<char>, i: int) -> int
    decreases s.len() - i when 0 <= i <= s.len()
{
    if i >= s.len() {
        i
    } else if !is_digit(s[i]) {
        i
    } else {
        digit_run_end(s, i + 1)
    }
}

pub proof fn lemma_digit_run_end(s: Seq<char>, i: int)
    requires
        0 <= i <= s.len(),
    ensures
        i <= digit_run_end(s, i) <= s.len(),
        forall|j: int| i <= j < digit_run_end(s, i) ==> is_digit(s[j]),
        digit_run_end(s, i) < s.len() ==> !is_digit(s[digit_run_end(s, i)]),
    decreases s.len() - i,
{
    if i < s.len() && is_digit(s[i]) {
        lemma_digit_run_end(s, i + 1);
    }
}

/// Numeric value of a digit sequence read in base 10.
pub open spec fn dec_value(ds: Seq<char>) -> int
    decreases ds.len()
{
    if ds.len() == 0 {
        0
    } else {
        dec_value(ds.drop_last()) * 10 + digit_val(ds.last())
    }
}

pub open spec fn pow10(k: nat) -> int
    decreases k
{
    if k == 0 {
        1
    } else {
        10 * pow10((k - 1) as nat)
    }
}

pub proof fn lemma_pow10_pos(k: nat)
    ensures
        pow10(k) >= 1,
    decreases k,
{
    if k > 0 {
        lemma_pow10_pos((k - 1) as nat);
    }
}

pub proof fn lemma_pow10_mono(a: nat, b: nat)
    requires
        a <= b,
    ensures
        1 <= pow10(a) <= pow10(b),
    decreases b,
{
    lemma_pow10_pos(a);
    if a < b {
        lemma_pow10_mono(a, (b - 1) as nat);
    }
}

/// A digit sequence of length `k` has value below `10^k`.
pub proof fn lemma_dec_value_upper(ds: Seq<char>)
    requires
        forall|j: int| 0 <= j < ds.len() ==> is_digit(ds[j]),
    ensures
        0 <= dec_value(ds) < pow10(ds.len()),
    decreases ds.len(),
{
    if ds.len() > 0 {
        lemma_dec_value_upper(ds.drop_last());
    }
}

/// A leading zero does not change the value.
pub proof fn lemma_dec_value_leading_zero(ds: Seq<char>)
    requires
        ds.len() >= 1,
        digit_val(ds[0]) == 0,
    ensures
        dec_value(ds) == dec_value(ds.drop_first()),
    decreases ds.len(),
{
    if ds.len() == 1 {
        assert(ds.drop_first() =~= Seq::<char>::empty());
        assert(ds.drop_last() =~= Seq::<char>::empty());
    } else {
        lemma_dec_value_leading_zero(ds.drop_last());
        assert(ds.drop_last().drop_first() =~= ds.drop_first().drop_last());
        assert(ds.drop_first().last() == ds.last());
    }
}

/// Without a leading zero, `k` digits are worth at least `10^(k-1)`.
pub proof fn lemma_dec_value_lower(ds: Seq<char>)
    requires
        ds.len() >= 1,
        forall|j: int| 0 <= j < ds.len() ==> is_digit(ds[j]),
        digit_val(ds[0]) >= 1,
    ensures
        dec_value(ds) >= pow10((ds.len() - 1) as nat),
    decreases ds.len(),
{
    if ds.len() == 1 {
        assert(ds.last() == ds[0]);
        assert(ds.drop_last().len() == 0);
        assert(dec_value(ds.drop_last()) == 0);
        assert(dec_value(ds) == digit_val(ds[0]));
        assert(pow10((ds.len() - 1) as nat) == 1);
    } else {
        let dl = ds.drop_last();
        assert(dl[0] == ds[0]);
        assert forall|j: int| 0 <= j < dl.len() implies is_digit(dl[j]) by {
            assert(dl[j] == ds[j]);
        }
        lemma_dec_value_lower(dl);
        assert(is_digit(ds.last()));
        let a = dec_value(dl);
        let p = pow10((ds.len() - 2) as nat);
        assert(a >= p);
        assert(digit_val(ds.last()) >= 0);
        assert(dec_value(ds) == a * 10 + digit_val(ds.last()));
        assert(a * 10 >= p * 10) by (nonlinear_arith)
            requires
                a >= p,
        ;
        assert(pow10((ds.len() - 1) as nat) == 10 * p);
    }
}

/// The slot-count pattern holds at `i`: a digit run followed by `" Left"`.
pub open spec fn slot_match_at(s: Seq<char>, i: int) -> bool {
    &&& 0 <= i < s.len()
    &&& is_digit(s[i])
    &&& digit_run_end(s, i) + 5 <= s.len()
    &&& s.subrange(digit_run_end(s, i), digit_run_end(s, i) + 5) == " Left"@
}

/// Leftmost index at or after `i` where the slot-count pattern holds,
/// or the length of `s` if there is none.
pub open spec fn first_slot_match(s: Seq<char>, i: int) -> int
    decreases s.len() - i when 0 <= i <= s.len()
{
    if i >= s.len() {
        s.len() as int
    } else if slot_match_at(s, i) {
        i
    } else {
        first_slot_match(s, i + 1)
    }
}

/// What slot-count parsing yields on one label's text: the digits of the
/// leftmost match, provided their value is a valid count, at most 99 —
/// a larger value is a parse failure, never clamped.
pub open spec fn spec_slot_value(s: Seq<char>) -> Option<u8> {
    let i = first_slot_match(s, 0);
    if i == s.len() {
        None
    } else {
        let v = dec_value(s.subrange(i, digit_run_end(s, i)));
        if v <= 99 {
            Some(v as u8)
        } else {
            None
        }
    }
}

/// A label that is exactly a one- or two-digit count followed by
/// `" Left"` parses to exactly that count; such a count is at most 99.
pub proof fn lemma_slot_count_exact(ds: Seq<char>, s: Seq<char>)
    requires
        1 <= ds.len() <= 2,
        forall|j: int| 0 <= j < ds.len() ==> is_digit(ds[j]),
        s == ds + " Left"@,
    ensures
        dec_value(ds) <= 99,
        spec_slot_value(s) == Some(dec_value(ds) as u8),
{
    reveal_strlit(" Left");
    let k = ds.len() as int;
    assert(s.len() == k + 5);
    assert forall|j: int| 0 <= j < k implies is_digit(s[j]) by {
        assert(s[j] == ds[j]);
    }
    assert(s[k] == ' ');
    assert(!is_digit(' '));
    lemma_digit_run_end(s, 0);
    let e = digit_run_end(s, 0);
    if e < k {
        assert(is_digit(s[e]));
        assert(false);
    }
    if e > k {
        assert(is_digit(s[k]));
        assert(false);
    }
    assert(e == k);
    assert(s.subrange(k, k + 5) =~= " Left"@);
    assert(slot_match_at(s, 0));
    assert(first_slot_match(s, 0) == 0);
    assert(s.subrange(0, k) =~= ds);
    lemma_dec_value_upper(ds);
    lemma_pow10_mono(ds.len(), 2);
    assert(pow10(2) == 100) by {
        reveal_with_fuel(pow10, 3);
    }
}

/// A marker character the time pattern accepts; only `A` and `P` later
/// yield an hour.
pub open spec fn is_meridiem_char(c: char) -> bool {
    c == 'P' || c == 'M' || c == 'A' || c == '|'
}

/// The time pattern holds at `i`: digits, `:`, digits, a space, a marker.
pub open spec fn time_match_at(s: Seq<char>, i: int) -> bool {
    &&& 0 <= i < s.len()
    &&& is_digit(s[i])
    &&& {
        let e1 = digit_run_end(s, i);
        &&& e1 + 1 < s.len()
        &&& s[e1] == ':'
        &&& is_digit(s[e1 + 1])
        &&& {
            let e2 = digit_run_end(s, e1 + 1);
            &&& e2 + 1 < s.len()
            &&& s[e2] == ' '
            &&& is_meridiem_char(s[e2 + 1])
        }
    }
}

/// Leftmost index at or after `i` where the time pattern holds, or the
/// length of `s` if there is none.
pub open spec fn first_time_match(s: Seq<char>, i: int) -> int
    decreases s.len() - i when 0 <= i <= s.len()
{
    if i >= s.len() {
        s.len() as int
    } else if time_match_at(s, i) {
        i
    } else {
        first_time_match(s, i + 1)
    }
}

/// Marker character of the time match starting at `i`.
pub open spec fn time_marker(s: Seq<char>, i: int) -> char {
    s[digit_run_end(s, digit_run_end(s, i) + 1) + 1]
}

/// What time parsing yields on one label's text: the hour digits of the
/// leftmost match, plus 12 under a `P` marker, taken literally under an
/// `A` marker, and nothing under any other accepted marker. The hour is
/// not checked against a day's range: `"12:00 PM"` yields 24.
pub open spec fn spec_hour_value(s: Seq<char>) -> Option<int> {
    let i = first_time_match(s, 0);
    if i == s.len() {
        None
    } else {
        let h = dec_value(s.subrange(i, digit_run_end(s, i)));
        if h > 4294967295 {
            None
        } else if time_marker(s, i) == 'P' {
            Some(h + 12)
        } else if time_marker(s, i) == 'A' {
            Some(h)
        } else {
            None
        }
    }
}

/// Character-by-character string equality, so contracts can speak of
/// string views.
pub fn str_eq(a: &str, b: &str) -> (r: bool)
    ensures
        r == (a@ == b@),
{
    let na = a.unicode_len();
    let nb = b.unicode_len();
    if na != nb {
        return false;
    }
    let mut i: usize = 0;
    while i < na
        invariant
            na == a@.len(),
            nb == b@.len(),
            na == nb,
            i <= na,
            forall|j: int| 0 <= j < i ==> a@[j] == b@[j],
        decreases na - i,
    {
        if a.get_char(i) != b.get_char(i) {
            return false;
        }
        i = i + 1;
    }
    proof {
        assert(a@ =~= b@);
    }
    true
}

/// Decides `is_digit` on a character.
pub fn is_digit_char(c: char) -> (r: bool)
    ensures
        r == is_digit(c),
{
    let u = c as u32;
    48 <= u && u <= 57
}

/// Scans to the end of the digit run starting at `i`.
fn run_end(s: &str, i: usize, n: usize) -> (e: usize)
    requires
        n == s@.len(),
        i <= n,
    ensures
        i <= e <= n,
        e == digit_run_end(s@, i as int),
{
    let mut e = i;
    while e < n && is_digit_char(s.get_char(e))
        invariant
            n == s@.len(),
            i <= e <= n,
            digit_run_end(s@, i as int) == digit_run_end(s@, e as int),
        decreases n - e,
    {
        e = e + 1;
    }
    e
}

/// Reads the digits `s[i..e)` as a number, unless it exceeds `cap`.
fn decimal_value_capped(s: &str, i: usize, e: usize, cap: u64) -> (r: Option<u64>)
    requires
        i <= e,
        e <= s@.len(),
        forall|j: int| i <= j < e ==> is_digit(s@[j]),
        cap <= 4294967295,
    ensures
        dec_value(s@.subrange(i as int, e as int)) >= 0,
        ({
            let v = dec_value(s@.subrange(i as int, e as int));
            if v <= cap {
                r == Some(v as u64)
            } else {
                r is None
            }
        }),
{
    proof {
        let ds = s@.subrange(i as int, e as int);
        assert forall|j: int| 0 <= j < ds.len() implies is_digit(ds[j]) by {
            assert(ds[j] == s@[i + j]);
        }
        lemma_dec_value_upper(ds);
    }
    // Skip leading zeros; they do not change the value.
    let mut z = i;
    while z < e && '0' == s.get_char(z)
        invariant
            i <= z <= e,
            e <= s@.len(),
            forall|j: int| i <= j < e ==> is_digit(s@[j]),
            dec_value(s@.subrange(i as int, e as int)) == dec_value(
                s@.subrange(z as int, e as int),
            ),
        decreases e - z,
    {
        proof {
            let tail = s@.subrange(z as int, e as int);
            lemma_dec_value_leading_zero(tail);
            assert(tail.drop_first() =~= s@.subrange(z as int + 1, e as int));
        }
        z = z + 1;
    }
    if z == e {
        proof {
            assert(s@.subrange(z as int, e as int) =~= Seq::<char>::empty());
        }
        return Some(0);
    }
    if e - z > 10 {
        // At least eleven digits without a leading zero: above any 32-bit cap.
        proof {
            let ds = s@.subrange(z as int, e as int);
            lemma_dec_value_lower(ds);
            lemma_pow10_mono(10, (ds.len() - 1) as nat);
            assert(pow10(10) == 10000000000) by {
                reveal_with_fuel(pow10, 11);
            }
        }
        return None;
    }
    let mut acc: u64 = 0;
    let mut j = z;
    while j < e
        invariant
            i <= z <= j <= e,
            e <= s@.len(),
            e - z <= 10,
            forall|k: int| i <= k < e ==> is_digit(s@[k]),
            dec_value(s@.subrange(i as int, e as int)) == dec_value(
                s@.subrange(z as int, e as int),
            ),
            acc == dec_value(s@.subrange(z as int, j as int)),
            acc < pow10((j - z) as nat),
        decreases e - j,
    {
        let c = s.get_char(j);
        proof {
            assert(is_digit(s@[j as int]));
        }
        let d = (c as u32 - 48) as u64;
        proof {
            let pre = s@.subrange(z as int, j as int);
            let post = s@.subrange(z as int, j as int + 1);
            assert(post.drop_last() =~= pre);
            assert(post.last() == s@[j as int]);
            lemma_pow10_mono((j - z) as nat, 9);
            assert(pow10(9) == 1000000000) by {
                reveal_with_fuel(pow10, 10);
            }
        }
        acc = acc * 10 + d;
        j = j + 1;
    }
    if acc <= cap {
        Some(acc)
    } else {
        None
    }
}

impl ActiveSgSlotCount {
    /// Tries to read a slot count out of one label's text.
    ///
    /// Succeeds exactly when the text contains a digit run followed by
    /// `" Left"` and the leftmost such run reads as at most 99; a larger
    /// value is a failure, never clamped.
    pub fn parse(text: &str) -> (r: Result<ActiveSgSlotCount, Error>)
        ensures
            match r {
                Ok(c) => spec_slot_value(text@) == Some(c.0),
                Err(e) => {
                    &&& spec_slot_value(text@) is None
                    &&& e matches Error::CantFindElement(m) && m@ == "slot count"@
                },
            },
    {
        let n = text.unicode_len();
        let mut i: usize = 0;
        while i < n
            invariant
                n == text@.len(),
                i <= n,
                first_slot_match(text@, 0) == first_slot_match(text@, i as int),
            decreases n - i,
        {
            if is_digit_char(text.get_char(i)) {
                let e = run_end(text, i, n);
                proof {
                    lemma_digit_run_end(text@, i as int);
                    reveal_strlit(" Left");
                }
                if n - e >= 5 && ' ' == text.get_char(e) && 'L' == text.get_char(e + 1) && 'e'
                    == text.get_char(e + 2) && 'f' == text.get_char(e + 3) && 't' == text.get_char(
                    e + 4,
                ) {
                    proof {
                        assert(text@.subrange(e as int, e as int + 5) =~= " Left"@);
                        assert(slot_match_at(text@, i as int));
                        assert(first_slot_match(text@, i as int) == i);
                    }
                    match decimal_value_capped(text, i, e, 99) {
                        Some(v) => {
                            return Ok(ActiveSgSlotCount(v as u8));
                        },
                        None => {
                            return Err(Error::CantFindElement("slot count"));
                        },
                    }
                } else {
                    proof {
                        if slot_match_at(text@, i as int) {
                            let sub = text@.subrange(e as int, e as int + 5);
                            assert(sub == " Left"@);
                            assert(sub[0] == text@[e as int]);
                            assert(sub[1] == text@[e as int + 1]);
                            assert(sub[2] == text@[e as int + 2]);
                            assert(sub[3] == text@[e as int + 3]);
                            assert(sub[4] == text@[e as int + 4]);
                        }
                        assert(!slot_match_at(text@, i as int));
                    }
                    i = i + 1;
                }
            } else {
                i = i + 1;
            }
        }
        Err(Error::CantFindElement("slot count"))
    }
}

/// Tries to read an hour out of one label's text.
///
/// Succeeds exactly when the text contains the time pattern and the
/// leftmost match has hour digits fitting 32 bits and an `A` or `P`
/// marker; `P` adds 12 to the hour as written.
pub fn parse_hour(text: &str) -> (r: Result<u64, Error>)
    ensures
        match r {
            Ok(h) => spec_hour_value(text@) == Some(h as int) && h <= 4294967307,
            Err(e) => {
                &&& spec_hour_value(text@) is None
                &&& e matches Error::CantFindElement(m) && m@ == "timeslot"@
            },
        },
{
    let n = text.unicode_len();
    let mut i: usize = 0;
    while i < n
        invariant
            n == text@.len(),
            i <= n,
            first_time_match(text@, 0) == first_time_match(text@, i as int),
        decreases n - i,
    {
        if is_digit_char(text.get_char(i)) {
            let e1 = run_end(text, i, n);
            proof {
                lemma_digit_run_end(text@, i as int);
            }
            if n - e1 >= 2 && ':' == text.get_char(e1) && is_digit_char(text.get_char(e1 + 1)) {
                let e2 = run_end(text, e1 + 1, n);
                proof {
                    lemma_digit_run_end(text@, e1 as int + 1);
                }
                if n - e2 >= 2 && ' ' == text.get_char(e2) {
                    let m = text.get_char(e2 + 1);
                    if m == 'P' || m == 'M' || m == 'A' || m == '|' {
                        proof {
                            assert(time_match_at(text@, i as int));
                            assert(first_time_match(text@, i as int) == i);
                            assert(time_marker(text@, i as int) == m);
                        }
                        match decimal_value_capped(text, i, e1, 4294967295) {
                            Some(h) => {
                                if m == 'P' {
                                    return Ok(h + 12);
                                } else if m == 'A' {
                                    return Ok(h);
                                } else {
                                    return Err(Error::CantFindElement("timeslot"));
                                }
                            },
                            None => {
                                return Err(Error::CantFindElement("timeslot"));
                            },
                        }
                    }
                }
            }
        }
        proof {
            assert(!time_match_at(text@, i as int));
        }
        i = i + 1;
    }
    Err(Error::CantFindElement("timeslot"))
}

} // verus!
