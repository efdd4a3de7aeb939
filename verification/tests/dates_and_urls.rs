//! Date arithmetic, timeslot instants, venue lookup, and query URLs.

use chrono::TimeZone;
use slot_miner::client::{u64_to_string, venue_query_url};
use slot_miner::dates::{slot_time_utc, ActiveSgDatetime, Date};
use slot_miner::errors::Error;
use slot_miner::gym::Gym;

#[test]
fn date_checks_the_civil_calendar() {
    assert!(Date::new(2024, 2, 29).is_some());
    assert!(Date::new(2023, 2, 29).is_none());
    assert!(Date::new(2100, 2, 29).is_none());
    assert!(Date::new(2000, 2, 29).is_some());
    assert!(Date::new(2024, 13, 1).is_none());
    assert!(Date::new(2024, 4, 31).is_none());
    assert!(Date::new(1969, 1, 1).is_none());
}

#[test]
fn epoch_days_match_known_values() {
    assert_eq!(Date::new(1970, 1, 1).unwrap().epoch_days(), 0);
    assert_eq!(Date::new(1970, 1, 2).unwrap().epoch_days(), 1);
    assert_eq!(Date::new(2024, 1, 1).unwrap().epoch_days(), 19723);
}

#[test]
fn epoch_days_match_chrono() {
    for (y, m, d) in [(1970, 1, 1), (1999, 12, 31), (2021, 3, 21), (2024, 2, 29), (2025, 7, 4)] {
        let ours = Date::new(y as u16, m as u8, d as u8).unwrap().epoch_days() as i64;
        let theirs = chrono::NaiveDate::from_ymd_opt(y, m, d)
            .unwrap()
            .and_hms_opt(0, 0, 0)
            .unwrap()
            .and_utc()
            .timestamp()
            / 86400;
        assert_eq!(ours, theirs);
    }
}

#[test]
fn reconstruction_shifts_eight_hours_back() {
    // Date D at hour h yields D@h:00 minus eight hours, in UTC.
    let date = Date::new(2024, 1, 1).unwrap();
    let t = slot_time_utc("07:00 AM", &date).unwrap();
    let expected = chrono::Utc.with_ymd_and_hms(2023, 12, 31, 23, 0, 0).unwrap().timestamp();
    assert_eq!(t, expected);
}

#[test]
fn reconstruction_evening_hour() {
    let date = Date::new(2024, 1, 10).unwrap();
    let t = slot_time_utc("09:00 PM", &date).unwrap();
    let expected = chrono::Utc.with_ymd_and_hms(2024, 1, 10, 13, 0, 0).unwrap().timestamp();
    assert_eq!(t, expected);
}

#[test]
fn reconstruction_hour_twenty_four_lands_next_day() {
    // The 12 PM quirk: hour 24 is date plus one day, minus the shift.
    let date = Date::new(2024, 1, 10).unwrap();
    let t = slot_time_utc("12:00 PM", &date).unwrap();
    let expected = chrono::Utc.with_ymd_and_hms(2024, 1, 10, 16, 0, 0).unwrap().timestamp();
    assert_eq!(t, expected);
}

#[test]
fn active_sg_datetime_wraps_the_same_logic() {
    let date = Date::new(2024, 1, 1).unwrap();
    let asg = ActiveSgDatetime::new(String::from("07:00 AM"), date);
    assert_eq!(asg.to_utc().unwrap(), slot_time_utc("07:00 AM", &date).unwrap());
    let bad = ActiveSgDatetime::new(String::from("no time here"), date);
    assert!(matches!(bad.to_utc(), Err(Error::CantFindElement(_))));
}

#[test]
fn u64_decimal_formatting() {
    assert_eq!(u64_to_string(0), "0");
    assert_eq!(u64_to_string(7), "7");
    assert_eq!(u64_to_string(1031), "1031");
    assert_eq!(u64_to_string(1616284800), "1616284800");
}

#[test]
fn venue_query_url_exact() {
    let date = Date::new(2021, 3, 21).unwrap();
    let url = venue_query_url(&Gym::BISHAN, &date);
    let ts = chrono::NaiveDate::from_ymd_opt(2021, 3, 21)
        .unwrap()
        .and_hms_opt(0, 0, 0)
        .unwrap()
        .and_utc()
        .timestamp();
    let expected = format!(
        "https://members.myactivesg.com/facilities/view/activity/1031/venue/137?time_from={}",
        ts
    );
    assert_eq!(url, expected);
}

#[test]
fn gym_codes_are_stable() {
    assert_eq!(Gym::AMK_CC.code(), 1016);
    assert_eq!(Gym::BISHAN.code(), 137);
    assert_eq!(Gym::YISHUN.code(), 284);
    assert_eq!(Gym::SENJA_CASHEW.code(), 1089);
}

#[test]
fn gym_slice_holds_all_venues_once() {
    let all = Gym::gym_slice();
    assert_eq!(all.len(), 25);
    for (i, a) in all.iter().enumerate() {
        for (j, b) in all.iter().enumerate() {
            if i != j {
                assert_ne!(a, b);
            }
        }
    }
}

#[test]
fn gym_names_round_trip() {
    for g in Gym::gym_slice() {
        let name = format!("{:?}", g);
        let back = Gym::from_name(&name).unwrap();
        assert_eq!(back, g);
    }
}

#[test]
fn unknown_gym_name_is_rejected() {
    match Gym::from_name("NOWHERE") {
        Err(Error::InvalidGym(n)) => assert_eq!(n, "NOWHERE"),
        other => panic!("expected InvalidGym, got {:?}", other),
    }
}
