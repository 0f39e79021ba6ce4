//! Calendar dates and the monthly installment schedule of a rental contract.
use vstd::prelude::*;
use chrono::Datelike;

verus! {

/// A calendar date (proleptic Gregorian), as the contract logic reads it.
#[derive(Clone, Copy, Debug, PartialEq, Eq, Structural)]
pub struct CalendarDate {
    pub year: i32,
    pub month: u32,
    pub day: u32,
}

/// Gregorian leap-year rule.
pub open spec fn is_leap_year(year: int) -> bool {
    (year % 4 == 0 && year % 100 != 0) || year % 400 == 0
}

/// Number of days of `month` (1..=12) in `year`.
pub open spec fn days_in_month(year: int, month: int) -> int {
    if month == 2 {
        if is_leap_year(year) { 29 } else { 28 }
    } else if month == 4 || month == 6 || month == 9 || month == 11 {
        30
    } else {
        31
    }
}

/// Years that chrono's `NaiveDate` can hold.
pub open spec fn year_in_range(year: int) -> bool {
    -262143 <= year <= 262142
}

/// The triple names an existing day that chrono's `NaiveDate` can hold.
pub open spec fn is_valid_ymd(year: int, month: int, day: int) -> bool {
    &&& year_in_range(year)
    &&& 1 <= month <= 12
    &&& 1 <= day <= days_in_month(year, month)
}

impl CalendarDate {
    pub open spec fn wf(self) -> bool {
        is_valid_ymd(self.year as int, self.month as int, self.day as int)
    }

    /// Position of the date's month on a line of months.
    pub open spec fn month_index(self) -> int {
        month_index(self.year as int, self.month as int)
    }

    /// Chronological order (year, then month, then day).
    pub open spec fn spec_before(self, other: CalendarDate) -> bool {
        ymd_before(
            self.year as int, self.month as int, self.day as int,
            other.year as int, other.month as int, other.day as int,
        )
    }

    /// Whether `self` comes strictly before `other`.
    pub fn is_before(&self, other: &CalendarDate) -> (r: bool)
        ensures
            r == self.spec_before(*other),
    {
        self.year < other.year || (self.year == other.year && (self.month < other.month
            || (self.month == other.month && self.day < other.day)))
    }
}

/// Lexicographic order on (year, month, day).
pub open spec fn ymd_before(y1: int, m1: int, d1: int, y2: int, m2: int, d2: int) -> bool {
    y1 < y2 || (y1 == y2 && (m1 < m2 || (m1 == m2 && d1 < d2)))
}

pub open spec fn month_index(year: int, month: int) -> int {
    year * 12 + (month - 1)
}

pub open spec fn index_year(idx: int) -> int {
    idx / 12
}

pub open spec fn index_month(idx: int) -> int {
    idx % 12 + 1
}

/// Makes a date from year, month and day (chrono's `NaiveDate::from_ymd_opt`).
#[verifier::external_body]
fn naive_date_from_ymd(year: i32, month: u32, day: u32) -> (r: Option<CalendarDate>)
    ensures
        r is Some <==> is_valid_ymd(year as int, month as int, day as int),
        r matches Some(d) ==> d.year == year && d.month == month && d.day == day,
{
    chrono::NaiveDate::from_ymd_opt(year, month, day).map(
        |d| CalendarDate { year: d.year(), month: d.month(), day: d.day() },
    )
}

/// What chrono writes with `DateTime::<Utc>::to_rfc3339` for the instant `micros`
/// microseconds after the Unix epoch, or `None` when chrono's `DateTime` cannot hold that instant.
pub uninterp spec fn rfc3339_text(micros: i64) -> Option<Seq<char>>;

/// RFC 3339 text of an instant given in microseconds since the Unix epoch (chrono's
/// `DateTime::<Utc>::from_timestamp_micros`, then `to_rfc3339`). The text, with the calendar
/// conversion and the sub-second digits chrono chooses, is left to the name `rfc3339_text`.
#[verifier::external_body]
pub(crate) fn rfc3339(micros: i64) -> (r: Option<String>)
    ensures
        match r {
            Some(t) => rfc3339_text(micros) == Some(t@),
            None => rfc3339_text(micros) is None,
        },
{
    chrono::DateTime::<chrono::Utc>::from_timestamp_micros(micros).map(|d| d.to_rfc3339())
}

/// The RFC 3339 text of an instant, empty when chrono cannot hold it.
pub open spec fn instant_text(micros: i64) -> Seq<char> {
    match rfc3339_text(micros) {
        Some(t) => t,
        None => Seq::<char>::empty(),
    }
}

/// The RFC 3339 text of an instant (microseconds since the Unix epoch), empty when chrono
/// cannot hold it.
pub fn instant_to_text(micros: i64) -> (r: String)
    ensures
        r@ == instant_text(micros),
{
    match rfc3339(micros) {
        Some(t) => t,
        None => String::new(),
    }
}

/// Builds a date when the triple is a valid one.
pub fn calendar_date(year: i32, month: u32, day: u32) -> (r: Option<CalendarDate>)
    ensures
        r is Some <==> is_valid_ymd(year as int, month as int, day as int),
        r matches Some(d) ==> d.year == year && d.month == month && d.day == day && d.wf(),
{
    naive_date_from_ymd(year, month, day)
}

// ---------------------------------------------------------------------------
// Installment schedule
// ---------------------------------------------------------------------------

/// Day of the month that every installment is due on: the start day, but never before the 10th.
pub open spec fn due_day(start: CalendarDate) -> int {
    if start.day > 10 { start.day as int } else { 10 }
}

/// Day of the month of the `k`-th billing period: the start day first, then the start day capped at 28.
pub open spec fn period_day(start: CalendarDate, k: int) -> int {
    if k == 0 { start.day as int } else if start.day > 28 { 28 } else { start.day as int }
}

pub open spec fn period_year(start: CalendarDate, k: int) -> int {
    index_year(start.month_index() + k)
}

pub open spec fn period_month(start: CalendarDate, k: int) -> int {
    index_month(start.month_index() + k)
}

/// The `k`-th billing period starts strictly before `end`.
pub open spec fn period_before(start: CalendarDate, k: int, end: CalendarDate) -> bool {
    ymd_before(
        period_year(start, k), period_month(start, k), period_day(start, k),
        end.year as int, end.month as int, end.day as int,
    )
}

/// Day of the month on which the `k`-th installment falls due: the due day when that day exists
/// in the period's month, else the period's own day.
pub open spec fn installment_day(start: CalendarDate, k: int) -> int {
    if is_valid_ymd(period_year(start, k), period_month(start, k), due_day(start)) {
        due_day(start)
    } else {
        period_day(start, k)
    }
}

/// `n` is the number of billing periods that start before `end`.
pub open spec fn is_period_count(start: CalendarDate, end: CalendarDate, n: int) -> bool {
    &&& n >= 0
    &&& forall|k: int| 0 <= k < n ==> #[trigger] period_before(start, k, end)
    &&& !period_before(start, n, end)
}

/// A schedule lists, for billing periods `0..n`, the date on which each installment is due.
pub open spec fn is_schedule(start: CalendarDate, end: CalendarDate, s: Seq<CalendarDate>) -> bool {
    &&& is_period_count(start, end, s.len() as int)
    &&& forall|k: int| 0 <= k < s.len() ==> {
        &&& #[trigger] s[k].year == period_year(start, k)
        &&& s[k].month == period_month(start, k)
        &&& s[k].day == installment_day(start, k)
    }
}

/// Why a schedule could not be built.
#[derive(Clone, Copy, Debug, PartialEq, Eq, Structural)]
pub enum ScheduleError {
    /// A billing period would fall outside the range of representable dates.
    DateOutOfRange,
}

proof fn lemma_index_roundtrip(year: int, month: int)
    requires
        1 <= month <= 12,
    ensures
        index_year(month_index(year, month)) == year,
        index_month(month_index(year, month)) == month,
{
    let i = month_index(year, month);
    assert(i == year * 12 + (month - 1));
    vstd::arithmetic::div_mod::lemma_fundamental_div_mod_converse(i, 12, year, month - 1);
}

proof fn lemma_index_step(idx: int)
    ensures
        index_month(idx) == 12 ==> index_year(idx + 1) == index_year(idx) + 1
            && index_month(idx + 1) == 1,
        index_month(idx) != 12 ==> index_year(idx + 1) == index_year(idx)
            && index_month(idx + 1) == index_month(idx) + 1,
        1 <= index_month(idx) <= 12,
        month_index(index_year(idx), index_month(idx)) == idx,
{
    vstd::arithmetic::div_mod::lemma_fundamental_div_mod(idx, 12);
    vstd::arithmetic::div_mod::lemma_mod_bound(idx, 12);
    let q = idx / 12;
    let r = idx % 12;
    if r == 11 {
        vstd::arithmetic::div_mod::lemma_fundamental_div_mod_converse(idx + 1, 12, q + 1, 0);
    } else {
        vstd::arithmetic::div_mod::lemma_fundamental_div_mod_converse(idx + 1, 12, q, r + 1);
    }
}

/// Due dates of the monthly installments of a contract running from `start` to `end`: one per
/// billing period that starts before `end`, each due on the start day (but not before the 10th)
/// of its period's month, or on the period's own day where that month is too short.
pub fn installment_due_dates(start: CalendarDate, end: CalendarDate) -> (r: Result<
    Vec<CalendarDate>,
    ScheduleError,
>)
    requires
        start.wf(),
        end.wf(),
    ensures
        r matches Ok(v) ==> is_schedule(start, end, v@),
        r is Err <==> exists|n: int|
            #[trigger] is_period_count(start, end, n) && n > 0 && !year_in_range(
                period_year(start, n),
            ),
{
    let mut due: Vec<CalendarDate> = Vec::new();
    let mut current = start;
    let due_d: u32 = if start.day > 10 { start.day } else { 10 };
    proof {
        lemma_index_roundtrip(start.year as int, start.month as int);
    }
    while current.is_before(&end)
        invariant
            start.wf(),
            end.wf(),
            due_d == due_day(start),
            current.year == period_year(start, due.len() as int),
            current.month == period_month(start, due.len() as int),
            current.day == period_day(start, due.len() as int),
            current.wf(),
            forall|k: int| 0 <= k < due.len() ==> #[trigger] period_before(start, k, end),
            forall|k: int| 0 <= k < due.len() ==> {
                &&& #[trigger] due@[k].year == period_year(start, k)
                &&& due@[k].month == period_month(start, k)
                &&& due@[k].day == installment_day(start, k)
            },
        decreases end.month_index() + 1 - current.month_index(),
    {
        let ghost i = due.len() as int;
        let due_date = match calendar_date(current.year, current.month, due_d) {
            Some(d) => d,
            None => current,
        };
        due.push(due_date);
        let mut year = current.year;
        let mut month = current.month;
        if month == 12 {
            year = year + 1;
            month = 1;
        } else {
            month = month + 1;
        }
        let next_day: u32 = if current.day > 28 { 28 } else { current.day };
        proof {
            lemma_index_step(start.month_index() + i);
            assert(period_before(start, i, end));
        }
        let next = match calendar_date(year, month, next_day) {
            Some(d) => d,
            None => match calendar_date(year, month, 1) {
                Some(d) => d,
                None => {
                    proof {
                        assert(is_period_count(start, end, i + 1));
                    }
                    return Err(ScheduleError::DateOutOfRange);
                },
            },
        };
        proof {
            lemma_index_step(start.month_index() + i + 1);
        }
        current = next;
    }
    proof {
        assert(is_period_count(start, end, due.len() as int));
        assert forall|n: int| #[trigger] is_period_count(start, end, n) implies n == due.len() as int by {
            if n < due.len() {
                assert(period_before(start, n, end));
            } else if n > due.len() {
                assert(period_before(start, due.len() as int, end));
            }
        }
    }
    Ok(due)
}

/// Every installment of a schedule is a valid date, the first falls in the start month, and each
/// falls due strictly after the one before, one calendar month apart.
pub proof fn lemma_schedule_shape(start: CalendarDate, end: CalendarDate, s: Seq<CalendarDate>)
    requires
        start.wf(),
        end.wf(),
        is_schedule(start, end, s),
    ensures
        forall|k: int| 0 <= k < s.len() ==> (#[trigger] s[k]).wf(),
        forall|k: int| 0 <= k < s.len() ==> (#[trigger] s[k]).month_index() == start.month_index() + k,
        s.len() > 0 ==> s[0].year == start.year && s[0].month == start.month,
        forall|i: int, j: int| 0 <= i < j < s.len() ==> (#[trigger] s[i]).spec_before(#[trigger] s[j]),
{
    lemma_index_roundtrip(start.year as int, start.month as int);
    assert forall|k: int| 0 <= k < s.len() implies (#[trigger] s[k]).month_index() == start.month_index() + k
        && s[k].wf() by {
        lemma_index_step(start.month_index() + k);
        assert(period_before(start, k, end));
        if k > 0 {
            lemma_index_step(start.month_index() + k - 1);
        }
        let y = period_year(start, k);
        assert(y <= end.year);
        assert(month_index(y, period_month(start, k)) >= month_index(start.year as int, start.month as int));
    }
    assert forall|i: int, j: int| 0 <= i < j < s.len() implies (#[trigger] s[i]).spec_before(#[trigger] s[j]) by {
        assert(s[i].month_index() < s[j].month_index());
    }
}

} // verus!
