//! Extraction of timeslot records from one availability page.
//!
//! A page carries a number of slot-grid cells; each cell carries label
//! elements whose concatenated text may name a time of day or a slot
//! count. Per cell, a scratch record starts at the fetch instant with a
//! zero count; a time label overwrites its instant, and a slot-count label
//! overwrites its count and commits a copy to the output. Extraction never
//! fails: a page without matches yields an empty sequence.

use vstd::prelude::*;

use crate::dates::{slot_time_utc, spec_slot_instant, Date};
use crate::gym::Gym;
use crate::slot_text::{spec_hour_value, spec_slot_value, ActiveSgSlotCount};
use crate::MAX_TEXT_LEN;

verus! {

/// One availability record: a UTC instant in Unix seconds and the number
/// of slots still free at it.
#[derive(Debug, Clone, Copy, PartialEq, Eq, Structural)]
pub struct Timeslot {
    pub time: i64,
    pub slots_avail: u8,
}

/// Scratch record after reading one label: a time label overwrites the
/// instant, a slot-count label overwrites the count.
pub open spec fn spec_step(scratch: Timeslot, label: Seq<char>, date: Date) -> Timeslot {
    let t1 = match spec_hour_value(label) {
        Some(h) => Timeslot {
            time: spec_slot_instant(date, h) as i64,
            slots_avail: scratch.slots_avail,
        },
        None => scratch,
    };
    match spec_slot_value(label) {
        Some(c) => Timeslot { time: t1.time, slots_avail: c },
        None => t1,
    }
}

/// What one label commits: a copy of the scratch record, exactly when the
/// label carries a slot count.
pub open spec fn spec_emit(scratch: Timeslot, label: Seq<char>, date: Date) -> Seq<Timeslot> {
    match spec_slot_value(label) {
        Some(c) => seq![spec_step(scratch, label, date)],
        None => Seq::empty(),
    }
}

/// Records of one cell, scanning its labels left to right.
pub open spec fn spec_scan(labels: Seq<Seq<char>>, date: Date, scratch: Timeslot) -> Seq<
    Timeslot,
>
    decreases labels.len(),
{
    if labels.len() == 0 {
        Seq::empty()
    } else {
        spec_emit(scratch, labels[0], date) + spec_scan(
            labels.drop_first(),
            date,
            spec_step(scratch, labels[0], date),
        )
    }
}

/// Records of one cell, with the scratch record freshly initialized to
/// the fetch instant and a zero count.
pub open spec fn spec_cell_records(labels: Seq<Seq<char>>, date: Date, now: i64) -> Seq<
    Timeslot,
> {
    spec_scan(labels, date, Timeslot { time: now, slots_avail: 0 })
}

/// Records of a whole page: cells in document order, labels within each.
pub open spec fn spec_extract(cells: Seq<Seq<Seq<char>>>, date: Date, now: i64) -> Seq<Timeslot>
    decreases cells.len(),
{
    if cells.len() == 0 {
        Seq::empty()
    } else {
        spec_cell_records(cells[0], date, now) + spec_extract(cells.drop_first(), date, now)
    }
}

/// A page with no grid cells yields no records; extraction has a result
/// for every input, it cannot fail.
pub proof fn lemma_extract_no_cells(cells: Seq<Seq<Seq<char>>>, date: Date, now: i64)
    requires
        cells.len() == 0,
    ensures
        spec_extract(cells, date, now) =~= Seq::<Timeslot>::empty(),
{
}

/// A cell whose labels are one time label followed by two slot-count
/// labels yields two records sharing that time and carrying the two
/// respective counts.
pub proof fn lemma_time_then_two_counts(
    t: Seq<char>,
    c1: Seq<char>,
    c2: Seq<char>,
    h: int,
    n1: u8,
    n2: u8,
    date: Date,
    now: i64,
)
    requires
        spec_hour_value(t) == Some(h),
        spec_slot_value(t) is None,
        spec_hour_value(c1) is None,
        spec_slot_value(c1) == Some(n1),
        spec_hour_value(c2) is None,
        spec_slot_value(c2) == Some(n2),
    ensures
        spec_cell_records(seq![t, c1, c2], date, now) =~= seq![
            Timeslot { time: spec_slot_instant(date, h) as i64, slots_avail: n1 },
            Timeslot { time: spec_slot_instant(date, h) as i64, slots_avail: n2 },
        ],
{
    let labels = seq![t, c1, c2];
    let s0 = Timeslot { time: now, slots_avail: 0 };
    let s1 = spec_step(s0, t, date);
    let s2 = spec_step(s1, c1, date);
    let s3 = spec_step(s2, c2, date);
    assert(labels.drop_first() =~= seq![c1, c2]);
    assert(seq![c1, c2].drop_first() =~= seq![c2]);
    assert(seq![c2].drop_first() =~= Seq::<Seq<char>>::empty());
    assert(spec_scan(Seq::empty(), date, s3) =~= Seq::<Timeslot>::empty());
    assert(spec_scan(seq![c2], date, s2) =~= spec_emit(s2, c2, date));
    assert(spec_scan(seq![c1, c2], date, s1) =~= spec_emit(s1, c1, date) + spec_emit(
        s2,
        c2,
        date,
    ));
    assert(spec_scan(labels, date, s0) =~= spec_emit(s1, c1, date) + spec_emit(s2, c2, date));
}

impl Timeslot {
    /// A record from its parts.
    pub fn new(time: i64, slots_avail: u8) -> (r: Self)
        ensures
            r == (Timeslot { time, slots_avail }),
    {
        Timeslot { time, slots_avail }
    }

    /// Overwrites the count, leaving the instant.
    pub fn mut_slots_avail(&mut self, slots_avail: u8)
        ensures
            final(self).slots_avail == slots_avail,
            final(self).time == old(self).time,
    {
        self.slots_avail = slots_avail;
    }

    /// Overwrites the instant, leaving the count.
    pub fn mut_time(&mut self, time: i64)
        ensures
            final(self).time == time,
            final(self).slots_avail == old(self).slots_avail,
    {
        self.time = time;
    }

    /// Parses the timeslots out of one availability page for the given
    /// calendar day; `now` is the fetch instant seeding each scratch
    /// record. Infallible: a page without matches yields an empty vector.
    pub fn parse_timeslots(body: &str, day: &Date, now: i64) -> (r: Vec<Timeslot>)
        requires
            day.valid(),
            body@.len() < MAX_TEXT_LEN,
        ensures
            r@ == spec_extract(cell_labels_of(body@), *day, now),
    {
        let cells = grid_cell_labels(body);
        extract_from_labels(&cells, day, now)
    }
}

/// Concatenated text of the label elements inside each slot-grid cell of
/// a document: cells in document order, labels within each cell.
pub uninterp spec fn cell_labels_of(doc: Seq<char>) -> Seq<Seq<Seq<char>>>;

/// Relies on scraper's `Html::parse_document` and CSS selection — the
/// `.chkbox-grid` cells of the document, then the `label` descendants of
/// each: the texts found depend on the document text alone. The length
/// bound keeps the document inside the HTML buffer's 32-bit byte limit
/// (a character is at most four bytes). The two fixed selectors are
/// valid, so the `unwrap` calls cannot fire.
#[verifier::external_body]
fn grid_cell_labels(body: &str) -> (r: Vec<Vec<String>>)
    requires
        body@.len() < MAX_TEXT_LEN,
    ensures
        r.deep_view() == cell_labels_of(body@),
{
    let cell_selector = scraper::Selector::parse(".chkbox-grid").unwrap();
    let label_selector = scraper::Selector::parse("label").unwrap();
    let document = scraper::Html::parse_document(body);
    document
        .select(&cell_selector)
        .map(|cell| cell.select(&label_selector).map(|l| l.text().collect::<String>()).collect())
        .collect()
}

/// Runs the per-cell scratch-record state machine over already-extracted
/// label texts; the verified core of `parse_timeslots`.
pub fn extract_from_labels(cells: &Vec<Vec<String>>, date: &Date, now: i64) -> (r: Vec<Timeslot>)
    requires
        date.valid(),
    ensures
        r@ == spec_extract(cells.deep_view(), *date, now),
{
    let ghost cv = cells.deep_view();
    let mut out: Vec<Timeslot> = Vec::new();
    let mut ci: usize = 0;
    proof {
        assert(cv.skip(0) =~= cv);
    }
    while ci < cells.len()
        invariant
            date.valid(),
            cells.deep_view() == cv,
            cv.len() == cells@.len(),
            ci <= cells@.len(),
            out@ + spec_extract(cv.skip(ci as int), *date, now) =~= spec_extract(cv, *date, now),
        decreases cells@.len() - ci,
    {
        let cell: &Vec<String> = &cells[ci];
        let ghost lv = cv[ci as int];
        proof {
            assert(cv[ci as int] == cells@[ci as int].deep_view());
            assert(cell.deep_view() == lv);
            assert(cv.skip(ci as int)[0] == cv[ci as int]);
            assert(cv.skip(ci as int).drop_first() =~= cv.skip(ci as int + 1));
            assert(lv.skip(0) =~= lv);
        }
        let mut scratch = Timeslot { time: now, slots_avail: 0 };
        let mut li: usize = 0;
        while li < cell.len()
            invariant
                date.valid(),
                cell.deep_view() == lv,
                lv.len() == cell@.len(),
                li <= cell@.len(),
                out@ + spec_scan(lv.skip(li as int), *date, scratch) + spec_extract(
                    cv.skip(ci as int + 1),
                    *date,
                    now,
                ) =~= spec_extract(cv, *date, now),
            decreases cell@.len() - li,
        {
            let label: &String = &cell[li];
            proof {
                assert(lv[li as int] == cell@[li as int].deep_view());
                assert(label@ == lv[li as int]);
                assert(lv.skip(li as int)[0] == lv[li as int]);
                assert(lv.skip(li as int).drop_first() =~= lv.skip(li as int + 1));
            }
            let ghost scratch0 = scratch;
            match slot_time_utc(label.as_str(), date) {
                Ok(t) => {
                    scratch.mut_time(t);
                },
                Err(_) => {},
            }
            match ActiveSgSlotCount::parse(label.as_str()) {
                Ok(c) => {
                    scratch.mut_slots_avail(c.0);
                    proof {
                        assert(scratch == spec_step(scratch0, lv[li as int], *date));
                    }
                    out.push(scratch);
                },
                Err(_) => {
                    proof {
                        assert(scratch == spec_step(scratch0, lv[li as int], *date));
                    }
                },
            }
            proof {
                assert(spec_scan(lv.skip(li as int), *date, scratch0) =~= spec_emit(
                    scratch0,
                    lv[li as int],
                    *date,
                ) + spec_scan(
                    lv.skip(li as int + 1),
                    *date,
                    spec_step(scratch0, lv[li as int], *date),
                ));
            }
            li = li + 1;
        }
        proof {
            assert(lv.skip(li as int) =~= Seq::<Seq<char>>::empty());
            assert(spec_scan(lv.skip(li as int), *date, scratch) =~= Seq::<Timeslot>::empty());
        }
        ci = ci + 1;
    }
    proof {
        assert(cv.skip(ci as int) =~= Seq::<Seq<Seq<char>>>::empty());
        assert(spec_extract(cv.skip(ci as int), *date, now) =~= Seq::<Timeslot>::empty());
        assert(out@ =~= spec_extract(cv, *date, now));
    }
    out
}

/// One snapshot of a venue's availability page: the venue, the fetch
/// instant in Unix seconds, and the records in extraction order.
#[derive(Debug, Clone)]
pub struct GymSlotData {
    pub gym: Gym,
    pub datetime: i64,
    pub data: Vec<Timeslot>,
}

impl GymSlotData {
    /// A snapshot from its parts.
    pub fn new(gym: Gym, datetime: i64, data: Vec<Timeslot>) -> (r: Self)
        ensures
            r.gym == gym,
            r.datetime == datetime,
            r.data == data,
    {
        GymSlotData { gym, datetime, data }
    }
}

/// The same snapshot laid out as parallel arrays: `time[k]` and
/// `slots_avail[k]` come from the `k`-th record.
#[derive(Debug, Clone)]
pub struct GymSlotDataSoA {
    pub gym: Gym,
    pub datetime: i64,
    pub time: Vec<i64>,
    pub slots_avail: Vec<u8>,
}

impl GymSlotDataSoA {
    /// Re-lays a snapshot out as parallel arrays, keeping order: both
    /// arrays have one entry per record, field by field.
    pub fn from(data: GymSlotData) -> (r: GymSlotDataSoA)
        ensures
            r.gym == data.gym,
            r.datetime == data.datetime,
            r.time@ =~= data.data@.map_values(|t: Timeslot| t.time),
            r.slots_avail@ =~= data.data@.map_values(|t: Timeslot| t.slots_avail),
    {
        let mut time: Vec<i64> = Vec::new();
        let mut slots_avail: Vec<u8> = Vec::new();
        let mut k: usize = 0;
        while k < data.data.len()
            invariant
                k <= data.data@.len(),
                time@ =~= data.data@.take(k as int).map_values(|t: Timeslot| t.time),
                slots_avail@ =~= data.data@.take(k as int).map_values(
                    |t: Timeslot| t.slots_avail,
                ),
            decreases data.data@.len() - k,
        {
            let rec = data.data[k];
            time.push(rec.time);
            slots_avail.push(rec.slots_avail);
            proof {
                assert(data.data@.take(k as int + 1) =~= data.data@.take(k as int).push(
                    data.data@[k as int],
                ));
            }
            k = k + 1;
        }
        proof {
            assert(data.data@.take(k as int) =~= data.data@);
        }
        GymSlotDataSoA { gym: data.gym, datetime: data.datetime, time, slots_avail }
    }
}

} // verus!
