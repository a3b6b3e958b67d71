//! Calendar days of the proleptic Gregorian calendar and the UTC instants
//! at which they begin and end, counted in seconds since 1970-01-01T00:00:00Z.

use vstd::prelude::*;

verus! {

/// Seconds in a day.
pub const SECONDS_PER_DAY: i64 = 86_400;

/// Days from 0001-01-01 to 1970-01-01.
pub const DAYS_TO_UNIX_EPOCH: i64 = 719_162;

/// A multiple of 400 years that lifts every `i32` year above zero.
const YEAR_LIFT: i64 = 2_147_484_000;

/// Every fourth year is a leap year, except the centuries not divisible by 400.
pub open spec fn is_leap_year(year: int) -> bool {
    year % 4 == 0 && (year % 100 != 0 || year % 400 == 0)
}

/// The number of days of `year`.
pub open spec fn days_in_year(year: int) -> int {
    if is_leap_year(year) {
        366
    } else {
        365
    }
}

/// The number of days of `month` (1 to 12) in `year`.
pub open spec fn days_in_month(year: int, month: int) -> int {
    if month == 2 {
        if is_leap_year(year) {
            29
        } else {
            28
        }
    } else if month == 4 || month == 6 || month == 9 || month == 11 {
        30
    } else {
        31
    }
}

/// `year`-`month`-`day` names a day that exists.
pub open spec fn is_calendar_date(year: int, month: int, day: int) -> bool {
    1 <= month <= 12 && 1 <= day <= days_in_month(year, month)
}

/// The days of `year` that lie before the first of `month`.
pub open spec fn days_before_month(year: int, month: int) -> int
    decreases month,
{
    if month <= 1 {
        0
    } else {
        days_before_month(year, month - 1) + days_in_month(year, month - 1)
    }
}

/// The days from 0001-01-01 up to, and without, the first of January of `year`.
pub open spec fn days_before_year(year: int) -> int {
    let y = year - 1;
    365 * y + y / 4 - y / 100 + y / 400
}

/// The number of the day `year`-`month`-`day`, where 1970-01-01 is day 0.
pub open spec fn day_number(year: int, month: int, day: int) -> int {
    days_before_year(year) + days_before_month(year, month) + (day - 1) - DAYS_TO_UNIX_EPOCH
}

/// `a` is the same day as `b` or an earlier one, read as year, month, day.
pub open spec fn date_at_or_before(a: (int, int, int), b: (int, int, int)) -> bool {
    a.0 < b.0 || (a.0 == b.0 && (a.1 < b.1 || (a.1 == b.1 && a.2 <= b.2)))
}

/// A day of the calendar. Only days that exist can be built.
#[derive(Clone, Copy, Debug)]
pub struct CalendarDate {
    year: i32,
    month: u32,
    day: u32,
}

impl CalendarDate {
    #[verifier::type_invariant]
    spec fn exists_in_calendar(self) -> bool {
        is_calendar_date(self.year as int, self.month as int, self.day as int)
    }

    /// The year.
    pub closed spec fn spec_year(self) -> int {
        self.year as int
    }

    /// The month, 1 to 12.
    pub closed spec fn spec_month(self) -> int {
        self.month as int
    }

    /// The day of the month, from 1.
    pub closed spec fn spec_day(self) -> int {
        self.day as int
    }

    /// The day exists. Holds of every `CalendarDate` that a program holds.
    pub open spec fn is_valid(self) -> bool {
        is_calendar_date(self.spec_year(), self.spec_month(), self.spec_day())
    }

    /// The number of this day, where 1970-01-01 is day 0.
    pub open spec fn spec_day_number(self) -> int {
        day_number(self.spec_year(), self.spec_month(), self.spec_day())
    }

    /// The first second of this day in UTC, as a Unix timestamp.
    pub open spec fn spec_first_second(self) -> int {
        self.spec_day_number() * SECONDS_PER_DAY
    }

    /// The last second of this day in UTC (23:59:59), as a Unix timestamp.
    pub open spec fn spec_last_second(self) -> int {
        self.spec_day_number() * SECONDS_PER_DAY + (SECONDS_PER_DAY - 1)
    }

    /// The day `year`-`month`-`day`, if there is such a day.
    pub fn new(year: i32, month: u32, day: u32) -> (made: Option<Self>)
        ensures
            made is Some <==> is_calendar_date(year as int, month as int, day as int),
            made matches Some(d) ==> d.spec_year() == year && d.spec_month() == month
                && d.spec_day() == day && d.is_valid(),
    {
        if month < 1 || month > 12 || day < 1 {
            return None;
        }
        if day > month_length(year, month) {
            return None;
        }
        Some(CalendarDate { year, month, day })
    }

    /// The year.
    pub fn year(&self) -> (y: i32)
        ensures
            y == self.spec_year(),
    {
        self.year
    }

    /// The month, 1 to 12.
    pub fn month(&self) -> (m: u32)
        ensures
            m == self.spec_month(),
            self.is_valid(),
    {
        proof {
            use_type_invariant(self);
        }
        self.month
    }

    /// The day of the month, from 1.
    pub fn day(&self) -> (d: u32)
        ensures
            d == self.spec_day(),
            self.is_valid(),
    {
        proof {
            use_type_invariant(self);
        }
        self.day
    }

    /// The number of this day, where 1970-01-01 is day 0.
    pub fn day_number(&self) -> (n: i64)
        ensures
            n == self.spec_day_number(),
            self.is_valid(),
    {
        proof {
            use_type_invariant(self);
        }
        let lifted: i64 = (self.year as i64 - 1) + YEAR_LIFT;
        let leaps: i64 = (lifted / 4 - YEAR_LIFT / 4) - (lifted / 100 - YEAR_LIFT / 100) + (lifted
            / 400 - YEAR_LIFT / 400);
        let before_year: i64 = 365 * (self.year as i64 - 1) + leaps;
        let before_month: i64 = days_before(self.year, self.month);
        before_year + before_month + (self.day as i64 - 1) - DAYS_TO_UNIX_EPOCH
    }

    /// The first second of this day in UTC, as a Unix timestamp.
    pub fn first_second(&self) -> (t: i64)
        ensures
            t == self.spec_first_second(),
            self.is_valid(),
    {
        let n: i64 = self.day_number();
        proof {
            lemma_day_number_bounds(self.spec_year(), self.spec_month(), self.spec_day());
        }
        n * SECONDS_PER_DAY
    }

    /// The last second of this day in UTC (23:59:59), as a Unix timestamp.
    pub fn last_second(&self) -> (t: i64)
        ensures
            t == self.spec_last_second(),
            self.is_valid(),
    {
        let n: i64 = self.day_number();
        proof {
            lemma_day_number_bounds(self.spec_year(), self.spec_month(), self.spec_day());
        }
        n * SECONDS_PER_DAY + (SECONDS_PER_DAY - 1)
    }
}

/// Whether `year` is a leap year.
pub fn leap_year(year: i32) -> (leap: bool)
    ensures
        leap == is_leap_year(year as int),
{
    let lifted: i64 = year as i64 + YEAR_LIFT;
    lifted % 4 == 0 && (lifted % 100 != 0 || lifted % 400 == 0)
}

/// The number of days of `month` in `year`.
pub fn month_length(year: i32, month: u32) -> (days: u32)
    requires
        1 <= month <= 12,
    ensures
        days == days_in_month(year as int, month as int),
{
    if month == 2 {
        if leap_year(year) {
            29
        } else {
            28
        }
    } else if month == 4 || month == 6 || month == 9 || month == 11 {
        30
    } else {
        31
    }
}

/// The days of `year` that lie before the first of `month`.
fn days_before(year: i32, month: u32) -> (days: i64)
    requires
        1 <= month <= 12,
    ensures
        days == days_before_month(year as int, month as int),
        0 <= days <= 335,
{
    let mut days: i64 = 0;
    let mut m: u32 = 1;
    while m < month
        invariant
            1 <= m <= month <= 12,
            days == days_before_month(year as int, m as int),
            0 <= days <= 31 * (m - 1),
        decreases month - m,
    {
        days = days + month_length(year, m) as i64;
        m = m + 1;
    }
    proof {
        lemma_days_before_month_bounds(year as int, month as int);
    }
    days
}

/// Before the first of a month lie at most 335 days, and a whole year has
/// room for every day of every month.
pub proof fn lemma_days_before_month_bounds(year: int, month: int)
    requires
        1 <= month <= 12,
    ensures
        0 <= days_before_month(year, month) <= 335,
        days_before_month(year, month) + days_in_month(year, month) <= days_in_year(year),
{
    reveal_with_fuel(days_before_month, 13);
}

/// A year begins when the one before it has run its 365 or 366 days.
pub proof fn lemma_next_year_begins_after_this_one(year: int)
    ensures
        days_before_year(year + 1) == days_before_year(year) + days_in_year(year),
{
    let y = year - 1;
    assert(year / 4 == y / 4 + (if year % 4 == 0 { 1int } else { 0int }));
    assert(year / 100 == y / 100 + (if year % 100 == 0 { 1int } else { 0int }));
    assert(year / 400 == y / 400 + (if year % 400 == 0 { 1int } else { 0int }));
    assert(year % 100 == 0 ==> year % 4 == 0) by {
        assert(year % 100 == 0 ==> year == 4 * (25 * (year / 100)));
    }
    assert(year % 400 == 0 ==> year % 100 == 0) by {
        assert(year % 400 == 0 ==> year == 100 * (4 * (year / 400)));
    }
}

/// Later years begin later.
pub proof fn lemma_years_in_order(earlier: int, later: int)
    requires
        earlier <= later,
    ensures
        days_before_year(earlier) + 365 * (later - earlier) <= days_before_year(later),
    decreases later - earlier,
{
    if earlier < later {
        lemma_years_in_order(earlier, later - 1);
        lemma_next_year_begins_after_this_one(later - 1);
    }
}

/// The day numbers of all dates with an `i32` year are small enough for
/// their seconds to fit an `i64`.
pub proof fn lemma_day_number_bounds(year: int, month: int, day: int)
    requires
        i32::MIN <= year <= i32::MAX,
        is_calendar_date(year, month, day),
    ensures
        -800_000_000_000 <= day_number(year, month, day) <= 800_000_000_000,
{
    lemma_days_before_month_bounds(year, month);
}

/// Day numbers follow the calendar: of two days that exist, the one that
/// reads earlier as year, month, day has the smaller number.
pub proof fn lemma_day_numbers_follow_calendar(a: (int, int, int), b: (int, int, int))
    requires
        is_calendar_date(a.0, a.1, a.2),
        is_calendar_date(b.0, b.1, b.2),
    ensures
        date_at_or_before(a, b) <==> day_number(a.0, a.1, a.2) <= day_number(b.0, b.1, b.2),
        a == b <==> day_number(a.0, a.1, a.2) == day_number(b.0, b.1, b.2),
{
    lemma_days_before_month_bounds(a.0, a.1);
    lemma_days_before_month_bounds(b.0, b.1);
    if a.0 < b.0 {
        lemma_next_year_begins_after_this_one(a.0);
        lemma_years_in_order(a.0 + 1, b.0);
    } else if b.0 < a.0 {
        lemma_next_year_begins_after_this_one(b.0);
        lemma_years_in_order(b.0 + 1, a.0);
    } else if a.1 < b.1 {
        lemma_months_in_order(a.0, a.1, b.1);
    } else if b.1 < a.1 {
        lemma_months_in_order(a.0, b.1, a.1);
    }
}

/// Within a year, a later month begins after the last day of an earlier one.
pub proof fn lemma_months_in_order(year: int, earlier: int, later: int)
    requires
        1 <= earlier < later <= 12,
    ensures
        days_before_month(year, earlier) + days_in_month(year, earlier) <= days_before_month(
            year,
            later,
        ),
    decreases later - earlier,
{
    if earlier + 1 < later {
        lemma_months_in_order(year, earlier, later - 1);
    }
}

/// A day lasts 86,400 seconds, and the next one begins one second after
/// its last.
pub proof fn lemma_day_spans_its_seconds(day: CalendarDate, next: CalendarDate)
    requires
        next.spec_day_number() == day.spec_day_number() + 1,
    ensures
        day.spec_last_second() == day.spec_first_second() + 86_399,
        next.spec_first_second() == day.spec_last_second() + 1,
{
}

/// An instant lies between the first second of day `from` and the last
/// second of day `to` exactly when its own day is neither before `from` nor
/// after `to`. Here the instant is second `second_of_day` of day `on`.
pub proof fn lemma_range_of_days_holds_their_instants(
    from: CalendarDate,
    to: CalendarDate,
    on: CalendarDate,
    second_of_day: int,
)
    requires
        0 <= second_of_day < SECONDS_PER_DAY,
    ensures
        (from.spec_first_second() <= on.spec_first_second() + second_of_day
            <= to.spec_last_second()) <==> (from.spec_day_number() <= on.spec_day_number()
            <= to.spec_day_number()),
{
}

} // verus!
