//! Calendar dates and the Monday-aligned week count.
//!
//! A date is held as its day number in the proleptic Gregorian calendar,
//! counted from the epoch day `0001-01-01`, which has day number 1 and is a
//! Monday. The week count between two dates is the number of whole weeks
//! between the Mondays of their respective weeks.

use vstd::prelude::*;
use vstd::arithmetic::div_mod::{lemma_div_is_ordered, lemma_div_plus_one};
use chrono::Datelike;

verus! {

/// The day number of the date written in `s` as `%Y-%m-%d`, counted from
/// `0001-01-01` = day 1, or `None` when `s` does not parse in that format.
pub uninterp spec fn ymd_day_number(s: Seq<char>) -> Option<int>;

/// Smallest day number a `Date` may hold; below every day number that
/// `chrono::NaiveDate` can represent (its years reach only to -262143).
pub const MIN_DAY: i64 = -96_000_000;

/// Largest day number a `Date` may hold; above every day number that
/// `chrono::NaiveDate` can represent (its years reach only to 262143).
pub const MAX_DAY: i64 = 96_000_000;

/// A day number within the range a calendar date can take.
pub open spec fn valid_day(day: int) -> bool {
    MIN_DAY <= day <= MAX_DAY
}

/// A calendar date, as its day number counted from `0001-01-01` = day 1.
#[derive(Clone, Copy, Debug, PartialEq, Eq, Structural)]
pub struct Date {
    day: i64,
}

impl View for Date {
    type V = int;

    closed spec fn view(&self) -> int {
        self.day as int
    }
}

impl Date {
    /// The date's day number is in the representable range.
    pub open spec fn wf(&self) -> bool {
        valid_day(self@)
    }

    /// Builds a date from its day number; `None` outside the range.
    pub fn from_day_number(day: i64) -> (r: Option<Date>)
        ensures
            r is Some <==> valid_day(day as int),
            r matches Some(d) ==> d@ == day as int && d.wf(),
    {
        if MIN_DAY <= day && day <= MAX_DAY {
            Some(Date { day })
        } else {
            None
        }
    }

    /// The day number the date was built from.
    pub fn day_number(&self) -> (r: i64)
        ensures
            r as int == self@,
    {
        self.day
    }
}

/// Days since the Monday of the week `day` falls in: Monday is 0, Sunday 6.
/// Day 1 is a Monday, so this is the remainder of `day - 1` modulo 7.
pub open spec fn days_from_monday(day: int) -> int {
    (day - 1) % 7
}

/// The day number of the Monday of the week `day` falls in.
pub open spec fn monday_of_week(day: int) -> int {
    day - days_from_monday(day)
}

/// The zero-based count of whole weeks from the week of `start` to the week
/// of `today`: negative when `today` is in an earlier week.
pub open spec fn week_number(start: int, today: int) -> int {
    (monday_of_week(today) - monday_of_week(start)) / 7
}

/// The Monday of a week is one more than a multiple of seven.
proof fn lemma_monday_form(day: int)
    ensures
        monday_of_week(day) == 7 * ((day - 1) / 7) + 1,
{
    vstd::arithmetic::div_mod::lemma_fundamental_div_mod(day - 1, 7);
}

/// Computes the number of days from `day` back to the Monday of its week.
fn days_from_monday_exec(day: i64) -> (r: i64)
    requires
        valid_day(day as int),
    ensures
        r as int == days_from_monday(day as int),
        0 <= r < 7,
{
    let r = (day - 1).checked_rem_euclid(7).unwrap();
    r
}

/// Computes the day number of the Monday of the week `day` falls in.
fn monday_of_week_exec(day: i64) -> (r: i64)
    requires
        valid_day(day as int),
    ensures
        r as int == monday_of_week(day as int),
{
    day - days_from_monday_exec(day)
}

/// The zero-based number of whole calendar weeks, Monday-aligned, from the
/// week of `start` to the week of `today`; negative when `today` falls in an
/// earlier week than `start`.
pub fn compute_week(start: &Date, today: &Date) -> (w: i64)
    requires
        start.wf(),
        today.wf(),
    ensures
        w as int == week_number(start@, today@),
{
    let start_monday = monday_of_week_exec(start.day);
    let today_monday = monday_of_week_exec(today.day);
    let diff = today_monday - start_monday;
    proof {
        lemma_monday_form(start@);
        lemma_monday_form(today@);
    }
    diff.checked_div_euclid(7).unwrap()
}

/// Relies on chrono::NaiveDate::parse_from_str with the format `%Y-%m-%d`,
/// whose result depends on the text alone, and on Datelike::num_days_from_ce,
/// which counts days from `0001-01-01` = day 1. Every chrono date lies in the
/// years -262143..=262142, so its day number lies in the valid range.
#[verifier::external_body]
fn parse_ymd(s: &str) -> (r: Option<Date>)
    ensures
        r is Some <==> ymd_day_number(s@) is Some,
        r matches Some(d) ==> ymd_day_number(s@) == Some(d@) && d.wf(),
{
    match chrono::NaiveDate::parse_from_str(s, "%Y-%m-%d") {
        Ok(nd) => Some(Date { day: nd.num_days_from_ce() as i64 }),
        Err(_) => None,
    }
}

/// Parses a `YYYY-MM-DD` date; `None` when the text is not a date in that
/// format.
pub fn parse_start_date(s: &str) -> (r: Option<Date>)
    ensures
        r is Some <==> ymd_day_number(s@) is Some,
        r matches Some(d) ==> ymd_day_number(s@) == Some(d@) && d.wf(),
{
    parse_ymd(s)
}

/// Relies on chrono::Local::now and DateTime::date_naive for the calendar
/// date now in the local time zone. Whatever date comes back, its day number
/// lies in the valid range, since every chrono date does.
#[verifier::external_body]
fn today() -> (d: Date)
    ensures
        d.wf(),
{
    Date { day: chrono::Local::now().date_naive().num_days_from_ce() as i64 }
}

/// The Monday-aligned week count from the start date written in
/// `start_of_apprenticeship` (as `YYYY-MM-DD`) up to the local date today;
/// `None` when the text does not parse as such a date.
pub fn get_current_week(start_of_apprenticeship: &str) -> (r: Option<i64>)
    ensures
        r is Some <==> ymd_day_number(start_of_apprenticeship@) is Some,
        r matches Some(w) ==> ymd_day_number(start_of_apprenticeship@) matches Some(start)
            && exists|t: int| valid_day(t) && w as int == week_number(start, t),
{
    match parse_ymd(start_of_apprenticeship) {
        None => None,
        Some(start) => {
            let t = today();
            let w = compute_week(&start, &t);
            proof {
                assert(valid_day(t@) && w as int == week_number(start@, t@));
            }
            Some(w)
        },
    }
}

/// Whether two days fall in the same Monday-to-Sunday week.
pub open spec fn same_week(d1: int, d2: int) -> bool {
    monday_of_week(d1) == monday_of_week(d2)
}

/// All dates of one Monday-to-Sunday week get the same week number, whatever
/// the start date.
pub proof fn lemma_same_week_same_number(start: int, d1: int, d2: int)
    requires
        same_week(d1, d2),
    ensures
        week_number(start, d1) == week_number(start, d2),
{
}

/// A date is in week zero of an apprenticeship that starts on that same date.
pub proof fn lemma_same_date_week_zero(start: int)
    ensures
        week_number(start, start) == 0,
{
}

/// Advancing `today` by one whole week raises the week number by exactly one.
pub proof fn lemma_week_advances(start: int, today: int)
    ensures
        week_number(start, today + 7) == week_number(start, today) + 1,
{
    lemma_monday_form(start);
    lemma_monday_form(today);
    lemma_monday_form(today + 7);
    lemma_div_plus_one(today - 1, 7);
    let ms = monday_of_week(start);
    let mt = monday_of_week(today);
    assert(monday_of_week(today + 7) == mt + 7);
    lemma_div_plus_one(mt - ms, 7);
}

/// The week number never decreases as `today` advances.
pub proof fn lemma_week_monotonic(start: int, d1: int, d2: int)
    requires
        d1 <= d2,
    ensures
        week_number(start, d1) <= week_number(start, d2),
{
    lemma_monday_form(d1);
    lemma_monday_form(d2);
    lemma_div_is_ordered(d1 - 1, d2 - 1, 7);
    let ms = monday_of_week(start);
    lemma_div_is_ordered(monday_of_week(d1) - ms, monday_of_week(d2) - ms, 7);
}

} // verus!
