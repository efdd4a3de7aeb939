//! Extraction of timeslot records from label texts and whole pages.

use slot_miner::dates::{slot_time_utc, Date};
use slot_miner::gym::Gym;
use slot_miner::timeslot::{extract_from_labels, GymSlotData, GymSlotDataSoA, Timeslot};

const NOW: i64 = 1_700_000_000;

fn cell(labels: &[&str]) -> Vec<Vec<String>> {
    vec![labels.iter().map(|s| s.to_string()).collect()]
}

#[test]
fn no_cells_yield_no_records() {
    let date = Date::new(2024, 1, 10).unwrap();
    let out = extract_from_labels(&vec![], &date, NOW);
    assert!(out.is_empty());
}

#[test]
fn page_without_grid_yields_no_records() {
    let date = Date::new(2024, 1, 10).unwrap();
    let body = "<html><body><p>maintenance window</p></body></html>";
    let out = Timeslot::parse_timeslots(body, &date, NOW);
    assert!(out.is_empty());
}

#[test]
fn time_then_two_counts_yields_two_records() {
    let date = Date::new(2024, 1, 10).unwrap();
    let out = extract_from_labels(&cell(&["07:00 AM", "3 Left", "5 Left"]), &date, NOW);
    let t = slot_time_utc("07:00 AM", &date).unwrap();
    assert_eq!(out, vec![Timeslot::new(t, 3), Timeslot::new(t, 5)]);
}

#[test]
fn count_without_time_keeps_the_fetch_instant() {
    let date = Date::new(2024, 1, 10).unwrap();
    let out = extract_from_labels(&cell(&["4 Left"]), &date, NOW);
    assert_eq!(out, vec![Timeslot::new(NOW, 4)]);
}

#[test]
fn time_without_count_commits_nothing() {
    let date = Date::new(2024, 1, 10).unwrap();
    let out = extract_from_labels(&cell(&["07:00 AM", "09:00 AM"]), &date, NOW);
    assert!(out.is_empty());
}

#[test]
fn later_time_overwrites_earlier_one() {
    let date = Date::new(2024, 1, 10).unwrap();
    let out = extract_from_labels(&cell(&["07:00 AM", "09:00 PM", "2 Left"]), &date, NOW);
    let t = slot_time_utc("09:00 PM", &date).unwrap();
    assert_eq!(out, vec![Timeslot::new(t, 2)]);
}

#[test]
fn scratch_record_restarts_per_cell() {
    let date = Date::new(2024, 1, 10).unwrap();
    let cells: Vec<Vec<String>> = vec![
        vec!["07:00 AM".to_string(), "3 Left".to_string()],
        vec!["6 Left".to_string()],
    ];
    let out = extract_from_labels(&cells, &date, NOW);
    let t = slot_time_utc("07:00 AM", &date).unwrap();
    assert_eq!(out, vec![Timeslot::new(t, 3), Timeslot::new(NOW, 6)]);
}

#[test]
fn parse_timeslots_reads_grid_cells_in_document_order() {
    let date = Date::new(2024, 1, 10).unwrap();
    let body = "<html><body>\
        <div class=\"chkbox-grid\">\
          <label>07:00 AM</label><label>25 Left</label>\
          <label>08:00 AM</label><label>10 Left</label>\
        </div>\
        <div class=\"chkbox-grid\">\
          <label>07:00 PM</label><label>0 Left</label>\
        </div>\
        </body></html>";
    let out = Timeslot::parse_timeslots(body, &date, NOW);
    let t7 = slot_time_utc("07:00 AM", &date).unwrap();
    let t8 = slot_time_utc("08:00 AM", &date).unwrap();
    let t19 = slot_time_utc("07:00 PM", &date).unwrap();
    assert_eq!(
        out,
        vec![Timeslot::new(t7, 25), Timeslot::new(t8, 10), Timeslot::new(t19, 0)]
    );
}

#[test]
fn labels_outside_the_grid_are_ignored() {
    let date = Date::new(2024, 1, 10).unwrap();
    let body = "<html><body>\
        <label>07:00 AM</label><label>25 Left</label>\
        <div class=\"chkbox-grid\"><label>5 Left</label></div>\
        </body></html>";
    let out = Timeslot::parse_timeslots(body, &date, NOW);
    assert_eq!(out, vec![Timeslot::new(NOW, 5)]);
}

#[test]
fn timeslot_mutators() {
    let mut t = Timeslot::new(10, 1);
    t.mut_time(20);
    assert_eq!(t, Timeslot::new(20, 1));
    t.mut_slots_avail(9);
    assert_eq!(t, Timeslot::new(20, 9));
}

#[test]
fn struct_of_arrays_layout_is_parallel() {
    let records = vec![Timeslot::new(100, 1), Timeslot::new(200, 2), Timeslot::new(300, 3)];
    let aos = GymSlotData::new(Gym::TAMPINES, NOW, records);
    let soa = GymSlotDataSoA::from(aos);
    assert_eq!(soa.gym, Gym::TAMPINES);
    assert_eq!(soa.datetime, NOW);
    assert_eq!(soa.time, vec![100, 200, 300]);
    assert_eq!(soa.slots_avail, vec![1, 2, 3]);
}

#[test]
fn struct_of_arrays_of_empty_snapshot() {
    let aos = GymSlotData::new(Gym::YISHUN, NOW, vec![]);
    let soa = GymSlotDataSoA::from(aos);
    assert!(soa.time.is_empty());
    assert!(soa.slots_avail.is_empty());
}
