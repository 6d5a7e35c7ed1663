//! Names of the files the pipeline writes: the per-input intermediate
//! artifacts and the timestamp-derived final output.

use crate::decimal::dec_rep;
use crate::decimal::padded_rep;
use crate::decimal::push_decimal;
use crate::decimal::push_padded;
use vstd::prelude::*;
use vstd::string::*;

verus! {

/// A local calendar time with microsecond resolution. `micro` may reach
/// 1,999,999: values of a million and above mark a leap second.
pub struct Timestamp {
    pub year: i32,
    pub month: u32,
    pub day: u32,
    pub hour: u32,
    pub minute: u32,
    pub second: u32,
    pub micro: u32,
}

impl Timestamp {
    /// The fields stay within their calendar ranges.
    pub open spec fn wf(self) -> bool {
        &&& 1 <= self.month <= 12
        &&& 1 <= self.day <= 31
        &&& self.hour < 24
        &&& self.minute < 60
        &&& self.second < 60
        &&& self.micro < 2000000
    }
}

/// Relies on chrono: `Local::now` gives the current local time, whose
/// `Datelike` and `Timelike` accessors stay in their documented calendar
/// ranges (month 1–12, day 1–31, hour below 24, minute and second below
/// 60), and whose `timestamp_subsec_micros` stays below 2,000,000 (a
/// value of a million or more marks a leap second). Nothing can be
/// promised about which moment comes back.
#[verifier::external_body]
pub fn local_now() -> (t: Timestamp)
    ensures
        t.wf(),
{
    let now = chrono::Local::now();
    Timestamp {
        year: chrono::Datelike::year(&now),
        month: chrono::Datelike::month(&now),
        day: chrono::Datelike::day(&now),
        hour: chrono::Timelike::hour(&now),
        minute: chrono::Timelike::minute(&now),
        second: chrono::Timelike::second(&now),
        micro: now.timestamp_subsec_micros(),
    }
}

/// The year, zero-padded to four digits, with a leading minus sign for
/// years before the common era.
pub open spec fn year_rep(y: int) -> Seq<char> {
    if y < 0 {
        seq!['-'] + padded_rep(-y, 4)
    } else {
        padded_rep(y, 4)
    }
}

/// The characters of the output name: the timestamp fields in order,
/// fixed-width, followed by the image-file extension.
pub open spec fn output_name_chars(t: Timestamp) -> Seq<char> {
    year_rep(t.year as int) + padded_rep(t.month as int, 2) + padded_rep(t.day as int, 2)
        + padded_rep(t.hour as int, 2) + padded_rep(t.minute as int, 2) + padded_rep(
        t.second as int,
        2,
    ) + padded_rep(t.micro as int, 6) + ".tiff"@
}

/// The name of the final output file for a run at time `t`.
pub fn output_filename(t: &Timestamp) -> (r: String)
    ensures
        r@ == output_name_chars(*t),
{
    let mut s = String::new();
    if t.year < 0 {
        proof {
            reveal_strlit("-");
        }
        s.append("-");
        let y: u64 = (-(t.year as i64)) as u64;
        push_padded(&mut s, y, 4);
    } else {
        push_padded(&mut s, t.year as u64, 4);
    }
    push_padded(&mut s, t.month as u64, 2);
    push_padded(&mut s, t.day as u64, 2);
    push_padded(&mut s, t.hour as u64, 2);
    push_padded(&mut s, t.minute as u64, 2);
    push_padded(&mut s, t.second as u64, 2);
    push_padded(&mut s, t.micro as u64, 6);
    s.append(".tiff");
    proof {
        assert(s@ =~= output_name_chars(*t));
    }
    s
}

/// The characters of the intermediate artifact name for input `index`.
pub open spec fn artifact_name_chars(index: int) -> Seq<char> {
    dec_rep(index) + ".tiff"@
}

/// The name of the intermediate artifact for the input at `index` within
/// its group: the index in decimal, with the image-file extension.
pub fn artifact_filename(index: usize) -> (r: String)
    ensures
        r@ == artifact_name_chars(index as int),
{
    let mut s = String::new();
    push_decimal(&mut s, index as u64);
    s.append(".tiff");
    s
}

} // verus!
