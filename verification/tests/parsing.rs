//! Slot-count and time-of-day label parsing.

use slot_miner::errors::Error;
use slot_miner::slot_text::{parse_hour, ActiveSgSlotCount};

fn slot(text: &str) -> Result<u8, Error> {
    ActiveSgSlotCount::parse(text).map(|c| c.0)
}

#[test]
fn slot_count_zero() {
    assert_eq!(slot("0 Left").unwrap(), 0);
}

#[test]
fn slot_count_fifty() {
    assert_eq!(slot("50 Left").unwrap(), 50);
}

#[test]
fn slot_count_ninety_nine() {
    assert_eq!(slot("99 Left").unwrap(), 99);
}

#[test]
fn slot_count_single_digit() {
    assert_eq!(slot("7 Left").unwrap(), 7);
}

#[test]
fn slot_count_embedded_in_text() {
    assert_eq!(slot("Gym hall: 25 Left today").unwrap(), 25);
}

#[test]
fn slot_count_above_ninety_nine_fails() {
    // A count is one or two digits; anything larger is a parse failure,
    // never clamped.
    assert!(matches!(slot("100 Left"), Err(Error::CantFindElement(_))));
    assert!(matches!(slot("255 Left"), Err(Error::CantFindElement(_))));
    assert!(matches!(slot("999 Left"), Err(Error::CantFindElement(_))));
}

#[test]
fn slot_count_leftmost_match_wins() {
    // The leftmost digit run followed by " Left" is the one read.
    assert_eq!(slot("3 Left and 9 Left").unwrap(), 3);
}

#[test]
fn slot_count_missing_suffix_fails() {
    assert!(matches!(slot("25 left"), Err(Error::CantFindElement(_))));
    assert!(matches!(slot("Left 25"), Err(Error::CantFindElement(_))));
    assert!(matches!(slot(""), Err(Error::CantFindElement(_))));
    assert!(matches!(slot("07:00 AM"), Err(Error::CantFindElement(_))));
}

#[test]
fn hour_seven_am() {
    assert_eq!(parse_hour("07:00 AM").unwrap(), 7);
}

#[test]
fn hour_seven_pm() {
    assert_eq!(parse_hour("07:00 PM").unwrap(), 19);
}

#[test]
fn hour_eleven_pm() {
    assert_eq!(parse_hour("11:00 PM").unwrap(), 23);
}

#[test]
fn hour_twelve_pm_is_twenty_four() {
    // The upstream quirk is reproduced verbatim: 12 PM becomes hour 24.
    assert_eq!(parse_hour("12:00 PM").unwrap(), 24);
}

#[test]
fn hour_twelve_am_is_twelve() {
    assert_eq!(parse_hour("12:00 AM").unwrap(), 12);
}

#[test]
fn minutes_are_discarded() {
    assert_eq!(parse_hour("07:30 AM").unwrap(), 7);
    assert_eq!(parse_hour("09:59 PM").unwrap(), 21);
}

#[test]
fn marker_first_letter_only() {
    // Only the first letter of the meridiem marker is read.
    assert_eq!(parse_hour("08:00 Planetarium").unwrap(), 20);
    assert_eq!(parse_hour("08:00 Anything").unwrap(), 8);
}

#[test]
fn hour_bad_marker_fails() {
    assert!(matches!(parse_hour("07:00 MM"), Err(Error::CantFindElement(_))));
    assert!(matches!(parse_hour("07:00 XY"), Err(Error::CantFindElement(_))));
}

#[test]
fn hour_no_pattern_fails() {
    assert!(matches!(parse_hour("25 Left"), Err(Error::CantFindElement(_))));
    assert!(matches!(parse_hour(""), Err(Error::CantFindElement(_))));
    assert!(matches!(parse_hour("0700 AM"), Err(Error::CantFindElement(_))));
}

#[test]
fn a_label_may_carry_both_patterns() {
    let text = "07:00 AM 25 Left";
    assert_eq!(parse_hour(text).unwrap(), 7);
    assert_eq!(slot(text).unwrap(), 25);
}
