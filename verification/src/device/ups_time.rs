//! The UPS clock: a date and a time of day, UTC, in the years the device can hold.

use vstd::prelude::*;

verus! {

/// The first year the device can hold.
pub const FIRST_YEAR: u16 = 2000;

/// The last year the device can hold.
pub const LAST_YEAR: u16 = 2099;

/// The start of the first year, in seconds since the start of 1970.
pub const FIRST_SECOND: u64 = 946_684_800;

/// The end of the last year, in seconds since the start of 1970.
pub const END_SECOND: u64 = 4_102_444_800;

/// A date and a time of day as the UPS holds it, UTC.
#[derive(Clone, Copy, Debug, PartialEq, Eq, Structural)]
pub struct UpsTime {
    /// Year, with the century.
    pub year: u16,
    /// Month, 1 to 12.
    pub month: u8,
    /// Day of the month, from 1.
    pub day: u8,
    /// Hour, 0 to 23.
    pub hour: u8,
    /// Minute, 0 to 59.
    pub minute: u8,
    /// Second, 0 to 59. A wake schedule has none.
    pub second: Option<u8>,
}

/// Whether a year has a 29th of February.
pub open spec fn is_leap(year: int) -> bool {
    year % 4 == 0 && (year % 100 != 0 || year % 400 == 0)
}

/// How many days a month has.
pub open spec fn days_in_month(year: int, month: int) -> int {
    if month == 2 {
        if is_leap(year) {
            29
        } else {
            28
        }
    } else if month == 4 || month == 6 || month == 9 || month == 11 {
        30
    } else {
        31
    }
}

/// The days from the start of 1970 to the start of a year: 365 a year, and one for each leap year
/// in between.
pub open spec fn days_before_year(year: int) -> int {
    365 * (year - 1970) + (year - 1969) / 4 - (year - 1901) / 100 + (year - 1601) / 400
}

/// The days from the start of a year to the start of a month.
pub open spec fn days_before_month(year: int, month: int) -> int
    decreases month,
{
    if month <= 1 {
        0
    } else {
        days_before_month(year, month - 1) + days_in_month(year, month - 1)
    }
}

impl UpsTime {
    /// Whether this is a day of the calendar in the years the device can hold, and a time of day.
    pub open spec fn valid(self) -> bool {
        &&& FIRST_YEAR <= self.year <= LAST_YEAR
        &&& 1 <= self.month <= 12
        &&& 1 <= self.day <= days_in_month(self.year as int, self.month as int)
        &&& self.hour < 24
        &&& self.minute < 60
        &&& self.second is Some ==> self.second->0 < 60
    }

    /// The days from the start of 1970 to its day.
    pub open spec fn days(self) -> int {
        days_before_year(self.year as int) + days_before_month(self.year as int, self.month as int)
            + self.day - 1
    }

    /// Its second of the day; a time without seconds is the start of its minute.
    pub open spec fn second_of_day(self) -> int {
        self.hour * 3600 + self.minute * 60 + match self.second {
            Some(s) => s as int,
            None => 0,
        }
    }

    /// Its seconds since the start of 1970.
    pub open spec fn unix(self) -> int {
        self.days() * 86_400 + self.second_of_day()
    }
}

proof fn lemma_year_step(year: int)
    requires
        1970 <= year <= 2100,
    ensures
        days_before_year(year + 1) == days_before_year(year) + if is_leap(year) {
            366int
        } else {
            365int
        },
{
}

proof fn lemma_month_table(year: int)
    ensures
        days_before_month(year, 1) == 0,
        days_before_month(year, 2) == 31,
        days_before_month(year, 3) == 59 + (if is_leap(year) {
            1int
        } else {
            0int
        }),
        days_before_month(year, 4) == days_before_month(year, 3) + 31,
        days_before_month(year, 5) == days_before_month(year, 3) + 61,
        days_before_month(year, 6) == days_before_month(year, 3) + 92,
        days_before_month(year, 7) == days_before_month(year, 3) + 122,
        days_before_month(year, 8) == days_before_month(year, 3) + 153,
        days_before_month(year, 9) == days_before_month(year, 3) + 184,
        days_before_month(year, 10) == days_before_month(year, 3) + 214,
        days_before_month(year, 11) == days_before_month(year, 3) + 245,
        days_before_month(year, 12) == days_before_month(year, 3) + 275,
        days_before_month(year, 13) == 365 + (if is_leap(year) {
            1int
        } else {
            0int
        }),
{
    reveal_with_fuel(days_before_month, 14);
}

/// The days of a year fit in it, and each month's days in the month.
proof fn lemma_day_in_year(t: UpsTime)
    requires
        t.valid(),
    ensures
        days_before_year(t.year as int) <= t.days() < days_before_year(t.year + 1),
{
    lemma_year_step(t.year as int);
    lemma_month_table(t.year as int);
}

proof fn lemma_years_in_order(a: int, b: int)
    requires
        1970 <= a < b <= 2101,
    ensures
        days_before_year(a + 1) <= days_before_year(b),
    decreases b - a,
{
    if a + 1 < b {
        lemma_years_in_order(a, b - 1);
        lemma_year_step(b - 1);
    }
}

proof fn lemma_same_day(a: UpsTime, b: UpsTime)
    requires
        a.valid(),
        b.valid(),
        a.days() == b.days(),
    ensures
        a.year == b.year,
        a.month == b.month,
        a.day == b.day,
{
    lemma_day_in_year(a);
    lemma_day_in_year(b);
    if a.year < b.year {
        lemma_years_in_order(a.year as int, b.year as int);
    } else if b.year < a.year {
        lemma_years_in_order(b.year as int, a.year as int);
    }
    lemma_month_table(a.year as int);
}

/// No two dates and times of day are the same second: two valid ones with the same seconds since
/// 1970 are equal, field by field, once both have seconds.
pub proof fn law_one_time_per_second(a: UpsTime, b: UpsTime)
    requires
        a.valid(),
        b.valid(),
        a.second is Some <==> b.second is Some,
        a.unix() == b.unix(),
    ensures
        a == b,
{
    assert(0 <= a.second_of_day() < 86_400);
    assert(0 <= b.second_of_day() < 86_400);
    assert(a.days() == b.days());
    lemma_same_day(a, b);
    assert(a.hour == b.hour);
    assert(a.minute == b.minute);
}

/// Every valid time lies in the years the device can hold.
pub proof fn law_valid_times_are_in_range(t: UpsTime)
    requires
        t.valid(),
    ensures
        FIRST_SECOND <= t.unix() < END_SECOND,
{
    lemma_day_in_year(t);
    if t.year > 2000 {
        lemma_years_in_order(2000, t.year as int);
        lemma_year_step(2000);
    }
    if t.year < 2099 {
        lemma_years_in_order(t.year as int, 2100);
    }
    assert(days_before_year(2000) == 10_957);
    assert(days_before_year(2100) == 47_482);
    assert(0 <= t.second_of_day() < 86_400);
}

fn leap(year: u16) -> (r: bool)
    ensures
        r == is_leap(year as int),
{
    year % 4 == 0 && (year % 100 != 0 || year % 400 == 0)
}

fn month_length(year: u16, month: u8) -> (n: u8)
    ensures
        n == days_in_month(year as int, month as int),
        28 <= n <= 31,
{
    if month == 2 {
        if leap(year) {
            29
        } else {
            28
        }
    } else if month == 4 || month == 6 || month == 9 || month == 11 {
        30
    } else {
        31
    }
}

/// The days from the start of 1970 to the start of a year.
fn year_start(year: u16) -> (n: u64)
    requires
        2000 <= year <= 2100,
    ensures
        n == days_before_year(year as int),
        10_957 <= n <= 47_482,
{
    proof {
        assert(days_before_year(2000) == 10_957);
        assert(days_before_year(2100) == 47_482);
        if year > 2000 {
            lemma_years_in_order(2000, year as int);
            lemma_year_step(2000);
        }
        if year < 2100 {
            lemma_years_in_order(year as int, 2100);
            lemma_year_step(year as int);
        }
    }
    let y: u64 = year as u64;
    365 * (y - 1970) + (y - 1969) / 4 - (y - 1901) / 100 + (y - 1601) / 400
}

impl UpsTime {
    /// Its seconds since the start of 1970, or `None` where it is no time at all: a thirteenth
    /// month, a 30th of February, a year the device cannot hold.
    pub fn to_unix_seconds(self) -> (r: Option<u64>)
        ensures
            match r {
                Some(n) => self.valid() && n == self.unix(),
                None => !self.valid(),
            },
    {
        if self.year < FIRST_YEAR || self.year > LAST_YEAR || self.month < 1 || self.month > 12
            || self.day < 1 || self.day > month_length(self.year, self.month) || self.hour >= 24
            || self.minute >= 60 {
            return None;
        }
        let second: u64 = match self.second {
            Some(s) => {
                if s >= 60 {
                    return None;
                }
                s as u64
            },
            None => 0,
        };
        let mut days: u64 = year_start(self.year);
        let mut m: u8 = 1;
        while m < self.month
            invariant
                1 <= m <= self.month <= 12,
                self.year <= 2099,
                days == days_before_year(self.year as int) + days_before_month(
                    self.year as int,
                    m as int,
                ),
                days <= 47_482 + 31 * (m - 1),
            decreases self.month - m,
        {
            days = days + month_length(self.year, m) as u64;
            m = m + 1;
        }
        days = days + (self.day as u64 - 1);
        Some(days * 86_400 + self.hour as u64 * 3600 + self.minute as u64 * 60 + second)
    }

    /// The date and time of day of so many seconds since the start of 1970, with its second, or
    /// `None` outside the years the device can hold.
    pub fn from_unix_seconds(unix_s: u64) -> (r: Option<UpsTime>)
        ensures
            match r {
                Some(t) => t.valid() && t.second is Some && t.unix() == unix_s,
                None => unix_s < FIRST_SECOND || unix_s >= END_SECOND,
            },
    {
        if unix_s < FIRST_SECOND || unix_s >= END_SECOND {
            return None;
        }
        let days: u64 = unix_s / 86_400;
        let rest: u64 = unix_s % 86_400;
        proof {
            assert(days_before_year(2000) == 10_957);
            assert(days_before_year(2100) == 47_482);
        }
        let mut year: u16 = 2000;
        while year < 2099 && year_start(year + 1) <= days
            invariant
                2000 <= year <= 2099,
                days_before_year(year as int) <= days < 47_482,
            ensures
                2000 <= year <= 2099,
                days_before_year(year as int) <= days < days_before_year(year + 1),
            decreases 2099 - year,
        {
            year = year + 1;
        }
        let start: u64 = year_start(year);
        proof {
            lemma_month_table(year as int);
            lemma_year_step(year as int);
        }
        let in_year: u64 = days - start;
        let mut month: u8 = 1;
        let mut before: u64 = 0;
        while month < 12 && before + month_length(year, month) as u64 <= in_year
            invariant
                1 <= month <= 12,
                before == days_before_month(year as int, month as int),
                before <= in_year,
                before <= 31 * (month - 1),
                in_year < days_before_month(year as int, 13),
            ensures
                1 <= month <= 12,
                before == days_before_month(year as int, month as int),
                before <= in_year < days_before_month(year as int, month + 1),
            decreases 12 - month,
        {
            before = before + month_length(year, month) as u64;
            month = month + 1;
        }
        let ghost length = days_in_month(year as int, month as int);
        assert(days_before_month(year as int, month + 1) == before + length);
        let day: u8 = (in_year - before + 1) as u8;
        let t: UpsTime = UpsTime {
            year,
            month,
            day,
            hour: (rest / 3600) as u8,
            minute: (rest % 3600 / 60) as u8,
            second: Some((rest % 60) as u8),
        };
        assert(t.days() == days);
        assert(t.second_of_day() == rest);
        Some(t)
    }

    /// The same time without its seconds.
    pub fn without_seconds(self) -> (t: UpsTime)
        ensures
            t == (UpsTime { second: None, ..self }),
    {
        UpsTime { second: None, ..self }
    }
}

/// The days of the calendar: thirty in April, June, September and November, a 29th of February in
/// every fourth year, and thirty-one in the rest.
pub proof fn law_the_days_of_the_months(t: UpsTime)
    requires
        2000 <= t.year <= 2099,
        1 <= t.month <= 12,
        t.hour < 24,
        t.minute < 60,
        t.second is Some ==> t.second->0 < 60,
    ensures
        t.valid() ==> 1 <= t.day <= 31,
        1 <= t.day <= 28 ==> t.valid(),
        t.day == 29 ==> (t.valid() <==> t.month != 2 || t.year % 4 == 0),
        t.day == 30 ==> (t.valid() <==> t.month != 2),
        t.day == 31 ==> (t.valid() <==> t.month == 1 || t.month == 3 || t.month == 5 || t.month == 7
            || t.month == 8 || t.month == 10 || t.month == 12),
{
}

/// Time runs on: from one day of the calendar to the next are 86400 seconds, within a month, over its
/// end and over the end of a year, and within a day hours, minutes and seconds count as they do.
/// The first second of 2000 is where it starts from.
pub proof fn law_time_runs_day_by_day(a: UpsTime, b: UpsTime)
    requires
        a.valid(),
        b.valid(),
        b.hour == a.hour,
        b.minute == a.minute,
        b.second == a.second,
        (b.year == a.year && b.month == a.month && b.day == a.day + 1) || (b.year == a.year
            && b.month == a.month + 1 && b.day == 1 && !(UpsTime {
            day: (a.day + 1) as u8,
            ..a
        }).valid()) || (b.year == a.year + 1 && b.month == 1 && b.day == 1 && a.month == 12 && a.day
            == 31),
    ensures
        b.unix() == a.unix() + 86_400,
{
    lemma_month_table(a.year as int);
    lemma_year_step(a.year as int);
    if b.year == a.year && b.month == a.month + 1 {
        assert(a.day == days_in_month(a.year as int, a.month as int));
        assert(days_before_month(a.year as int, a.month + 1) == days_before_month(
            a.year as int,
            a.month as int,
        ) + days_in_month(a.year as int, a.month as int));
    }
}

/// Within a day, the hours, minutes and seconds count as they do; a time without seconds is the start
/// of its minute. The count starts at the first second of 2000.
pub proof fn law_time_runs_within_a_day(a: UpsTime, midnight: UpsTime)
    requires
        a.valid(),
        midnight == (UpsTime { hour: 0, minute: 0, second: Some(0), ..a }),
    ensures
        a.unix() == midnight.unix() + 3_600 * a.hour + 60 * a.minute + match a.second {
            Some(s) => s as int,
            None => 0,
        },
        midnight.year == 2000 && midnight.month == 1 && midnight.day == 1 ==> midnight.unix()
            == 946_684_800,
{
    lemma_month_table(a.year as int);
    assert(days_before_year(2000) == 10_957);
}

/// Every second of the years 2000 to 2099 has a date and a time of day, which is read back as that
/// second; every other has none.
pub proof fn law_a_second_is_read_back(unix_s: u64, r: Option<UpsTime>, back: Option<u64>)
    requires
        call_ensures(UpsTime::from_unix_seconds, (unix_s,), r),
        r is Some ==> call_ensures(UpsTime::to_unix_seconds, (r->0,), back),
    ensures
        r is Some <==> 946_684_800 <= unix_s < 4_102_444_800,
        r is Some ==> back == Some(unix_s),
{
    if r is Some {
        law_valid_times_are_in_range(r->0);
    }
}

/// Every second of the years that the UPS knows has a time, to the second, and no other second has one;
/// taking the seconds off leaves the rest as it was.
pub proof fn law_every_second_of_its_years_has_a_time(
    unix_s: u64,
    r: Option<UpsTime>,
    t: UpsTime,
    m: UpsTime,
)
    requires
        call_ensures(UpsTime::from_unix_seconds, (unix_s,), r),
        call_ensures(UpsTime::without_seconds, (t,), m),
    ensures
        r is Some <==> 946_684_800 <= unix_s < 4_102_444_800,
        r is Some ==> (r->0).second is Some,
        m.second is None,
        m.year == t.year && m.month == t.month && m.day == t.day && m.hour == t.hour && m.minute
            == t.minute,
{
    if r is Some {
        law_valid_times_are_in_range(r->0);
    }
}

} // verus!
