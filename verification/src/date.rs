//! The in-game calendar (`GensoDate`) and the rental limits derived from it.
//!
//! The calendar counts month lengths from a fixed table that is indexed by the
//! month number itself, so month `1` has the length of the table's second entry,
//! and month `12` has no entry at all: stepping into it is refused.

use vstd::prelude::*;

use crate::random::random_u32;

verus! {

/// Length of month `m`, read from the calendar's table at index `m`.
pub open spec fn month_length(m: int) -> int {
    if m == 0 {
        31
    } else if m == 1 {
        28
    } else if m == 2 {
        31
    } else if m == 3 {
        30
    } else if m == 4 {
        30
    } else if m == 5 {
        30
    } else if m == 6 {
        31
    } else if m == 7 {
        31
    } else if m == 8 {
        30
    } else if m == 9 {
        31
    } else if m == 10 {
        30
    } else {
        31
    }
}

/// Total length of the months `from`, `from + 1`, ..., `to - 1`.
pub open spec fn days_in_months(from: int, to: int) -> int
    decreases to - from,
{
    if to <= from {
        0
    } else {
        days_in_months(from, to - 1) + month_length(to - 1)
    }
}

fn month_days(m: u8) -> (r: i32)
    requires
        m < 12,
    ensures
        r == month_length(m as int),
{
    match m {
        0 => 31,
        1 => 28,
        2 => 31,
        3 => 30,
        4 => 30,
        5 => 30,
        6 => 31,
        7 => 31,
        8 => 30,
        9 => 31,
        10 => 30,
        _ => 31,
    }
}

/// The rental period a customer asks for.
#[derive(Debug, Clone, Copy, PartialEq, Eq, Structural)]
pub enum RentalLimit {
    ShortTerm,
    LongTerm,
    Today,
}

/// Number of days between lending and returning for each rental period.
pub open spec fn rental_days(limit: RentalLimit) -> int {
    match limit {
        RentalLimit::ShortTerm => 7,
        RentalLimit::LongTerm => 14,
        RentalLimit::Today => 0,
    }
}

impl RentalLimit {
    /// A short or a long rental period, chosen at random.
    pub fn random() -> (r: RentalLimit)
        ensures
            r == RentalLimit::ShortTerm || r == RentalLimit::LongTerm,
    {
        if random_u32() % 2 == 0 {
            RentalLimit::ShortTerm
        } else {
            RentalLimit::LongTerm
        }
    }

    /// The label shown in the shop's record book.
    pub fn to_str(&self) -> (r: &'static str)
        ensures
            r@ == (match *self {
                RentalLimit::ShortTerm => "短期"@,
                RentalLimit::LongTerm => "長期"@,
                RentalLimit::Today => "本日"@,
            }),
    {
        match self {
            RentalLimit::ShortTerm => "短期",
            RentalLimit::LongTerm => "長期",
            RentalLimit::Today => "本日",
        }
    }
}

/// A date of the shop's calendar.
#[derive(Debug, Clone, Copy, PartialEq, Eq, Hash, Structural)]
pub struct GensoDate {
    pub season: u32,
    pub month: u8,
    pub day: u8,
}

/// The first day of the month after `d`'s, numbered as day `0`.
pub open spec fn next_month_start(d: GensoDate) -> GensoDate {
    GensoDate { season: d.season, month: (d.month + 1) as u8, day: 0 }
}

/// Termination measure of `advance`.
pub open spec fn advance_measure(d: GensoDate, n: int) -> int {
    n + if d.day >= month_length(d.month as int) {
        d.day - month_length(d.month as int) + 1
    } else {
        0
    }
}

/// The date `n` days after `d`: days are added while they fit in the current
/// month; what does not fit carries over to the next month, which starts from
/// day `0`.
pub open spec fn advance(d: GensoDate, n: int) -> GensoDate
    decreases advance_measure(d, n),
{
    if d.day + n <= month_length(d.month as int) {
        GensoDate { season: d.season, month: d.month, day: (d.day + n) as u8 }
    } else {
        advance(next_month_start(d), n - (month_length(d.month as int) - d.day))
    }
}

/// `add_day(n)` runs without leaving the calendar's table: `n` is not negative
/// and every month that the count passes through, the last one included, is
/// below `12`.
pub open spec fn add_day_ok(d: GensoDate, n: int) -> bool
    decreases advance_measure(d, n),
{
    if n < 0 || d.month >= 12 {
        false
    } else if d.day + n <= month_length(d.month as int) {
        true
    } else {
        add_day_ok(next_month_start(d), n - (month_length(d.month as int) - d.day))
    }
}

/// The value `diff_day` computes from `a` to `b`.  Within one month it is the
/// distance between the days; towards a later month it counts the days left to
/// the start of `b`'s month plus `b`'s day; towards an earlier month it is the
/// negated length of the months from `b`'s month up to `a`'s.
pub open spec fn diff_day_spec(a: GensoDate, b: GensoDate) -> int {
    if a.month < b.month {
        days_in_months(a.month as int, b.month as int) - a.day + b.day
    } else if a.month == b.month {
        if a.day > b.day {
            a.day - b.day
        } else {
            b.day - a.day
        }
    } else {
        -days_in_months(b.month as int, a.month as int)
    }
}

/// `a` comes after `b`: by season, then by month, then by day.
pub open spec fn later_than(a: GensoDate, b: GensoDate) -> bool {
    ||| a.season > b.season
    ||| a.season == b.season && a.month > b.month
    ||| a.season == b.season && a.month == b.month && a.day > b.day
}

/// The rental period whose length is the distance from `borrow` to `limit`.
pub open spec fn rental_limit_of(borrow: GensoDate, limit: GensoDate) -> Option<RentalLimit> {
    let diff = diff_day_spec(borrow, limit);
    if diff == 0 {
        Some(RentalLimit::Today)
    } else if diff == 7 {
        Some(RentalLimit::ShortTerm)
    } else if diff == 14 {
        Some(RentalLimit::LongTerm)
    } else {
        None
    }
}

/// Law: a lending date and a return date make a rental period exactly when
/// the days between them, as `diff_day` counts them, are that period's length:
/// none for the same day, seven for a short rental, fourteen for a long one;
/// any other distance makes none.
pub proof fn law_rental_limit_is_the_distance(borrow: GensoDate, limit: GensoDate, l: RentalLimit)
    ensures
        rental_limit_of(borrow, limit) == Some(l) <==> diff_day_spec(borrow, limit) == rental_days(l),
        rental_limit_of(borrow, limit) is None <==> (diff_day_spec(borrow, limit) != 0
            && diff_day_spec(borrow, limit) != 7 && diff_day_spec(borrow, limit) != 14),
{
}

/// `diff_day` can be computed: every month index it reads is inside the table.
pub open spec fn diff_day_ok(a: GensoDate, b: GensoDate) -> bool {
    &&& a.month < b.month ==> b.month <= 12
    &&& a.month > b.month ==> a.month <= 12
}

/// The day on which the game starts, which also starts the first week.
pub open spec fn opening_day() -> GensoDate {
    GensoDate { season: 112, month: 7, day: 23 }
}

proof fn lemma_month_length_bounds(m: int)
    ensures
        28 <= month_length(m) <= 31,
{
}

proof fn lemma_days_in_months_front(from: int, to: int)
    requires
        from < to,
    ensures
        days_in_months(from, to) == month_length(from) + days_in_months(from + 1, to),
    decreases to - from,
{
    if from + 1 < to {
        lemma_days_in_months_front(from, to - 1);
        assert(days_in_months(from + 1, to) == days_in_months(from + 1, to - 1) + month_length(
            to - 1,
        ));
    } else {
        assert(days_in_months(from, to - 1) == 0);
        assert(days_in_months(from + 1, to) == 0);
    }
}

proof fn lemma_days_in_months_bounds(from: int, to: int)
    requires
        from <= to,
    ensures
        28 * (to - from) <= days_in_months(from, to) <= 31 * (to - from),
    decreases to - from,
{
    if from < to {
        lemma_days_in_months_bounds(from, to - 1);
        lemma_month_length_bounds(to - 1);
    }
}

proof fn lemma_add_day_ok_bound(d: GensoDate, n: int)
    requires
        add_day_ok(d, n),
    ensures
        0 <= n,
        d.month < 12,
        n + d.day <= 31 * (12 - d.month),
    decreases advance_measure(d, n),
{
    lemma_month_length_bounds(d.month as int);
    if d.day + n > month_length(d.month as int) {
        lemma_add_day_ok_bound(next_month_start(d), n - (month_length(d.month as int) - d.day));
    }
}

proof fn lemma_advance_distance(d: GensoDate, n: int)
    requires
        add_day_ok(d, n),
    ensures
        advance(d, n).season == d.season,
        d.month <= advance(d, n).month < 12,
        n == days_in_months(d.month as int, advance(d, n).month as int) - d.day + advance(
            d,
            n,
        ).day,
    decreases advance_measure(d, n),
{
    lemma_month_length_bounds(d.month as int);
    if d.day + n > month_length(d.month as int) {
        let d2 = next_month_start(d);
        let n2 = n - (month_length(d.month as int) - d.day);
        lemma_advance_distance(d2, n2);
        lemma_days_in_months_front(d.month as int, advance(d2, n2).month as int);
    }
}

/// Law: adding `n` days to a date and measuring with `diff_day` from the old
/// date to the new one gives back `n`.
pub proof fn law_add_day_then_diff_day(d: GensoDate, n: int)
    requires
        add_day_ok(d, n),
    ensures
        diff_day_ok(d, advance(d, n)),
        diff_day_spec(d, advance(d, n)) == n,
{
    lemma_advance_distance(d, n);
}

/// Law: a date that lies some days after another one is past it.
pub proof fn law_add_day_is_past(d: GensoDate, n: int)
    requires
        add_day_ok(d, n),
        n > 0,
    ensures
        later_than(advance(d, n), d),
{
    lemma_advance_distance(d, n);
    let r = advance(d, n);
    if r.month == d.month {
        assert(days_in_months(d.month as int, r.month as int) == 0);
    }
}

/// A date of the calendar: its month is in the calendar's table and its day
/// is one of that month's.
pub open spec fn valid_date(d: GensoDate) -> bool {
    &&& d.month < 12
    &&& 1 <= d.day <= month_length(d.month as int)
}

proof fn lemma_advance_lands_in_month(d: GensoDate, n: int)
    requires
        add_day_ok(d, n),
        d.day <= month_length(d.month as int),
        d.day >= 1 || n >= 1,
    ensures
        valid_date(advance(d, n)),
    decreases advance_measure(d, n),
{
    lemma_month_length_bounds(d.month as int);
    if d.day + n > month_length(d.month as int) {
        let d2 = next_month_start(d);
        let n2 = n - (month_length(d.month as int) - d.day);
        lemma_add_day_ok_bound(d2, n2);
        lemma_month_length_bounds(d2.month as int);
        lemma_advance_lands_in_month(d2, n2);
    }
}

/// Law: adding days to a date of the calendar gives a date of the calendar
/// again, the same date for no days and a later one for more; left out are
/// the counts that `add_day` cannot take, those that would carry past the
/// last month of the table.
pub proof fn law_add_day_keeps_date_valid(d: GensoDate, n: int)
    requires
        valid_date(d),
        add_day_ok(d, n),
    ensures
        valid_date(advance(d, n)),
        n == 0 ==> advance(d, n) == d,
        n > 0 ==> later_than(advance(d, n), d),
{
    lemma_advance_lands_in_month(d, n);
    if n > 0 {
        law_add_day_is_past(d, n);
    }
}

/// Law: adding `a` days and then `b` days is adding `a + b` days; when the
/// whole count stays inside the calendar's table, so do both parts.
pub proof fn law_add_day_compose(d: GensoDate, a: int, b: int)
    requires
        0 <= a,
        0 <= b,
        add_day_ok(d, a + b),
    ensures
        add_day_ok(d, a),
        add_day_ok(advance(d, a), b),
        advance(advance(d, a), b) == advance(d, a + b),
    decreases advance_measure(d, a),
{
    if d.day + a > month_length(d.month as int) {
        let a2 = a - (month_length(d.month as int) - d.day);
        law_add_day_compose(next_month_start(d), a2, b);
        assert(a2 + b == a + b - (month_length(d.month as int) - d.day));
    } else {
        let m = advance(d, a);
        assert(m == GensoDate { season: d.season, month: d.month, day: (d.day + a) as u8 });
        if d.day + a + b > month_length(d.month as int) {
            assert(b - (month_length(d.month as int) - m.day) == a + b - (month_length(
                d.month as int,
            ) - d.day));
            assert(next_month_start(m) == next_month_start(d));
        }
    }
}

impl GensoDate {
    pub fn new(season: u32, month: u8, day: u8) -> (r: Self)
        ensures
            r == (GensoDate { season, month, day }),
    {
        GensoDate { season: season, month: month, day: day }
    }

    /// The date whose fields are all zero.
    pub fn new_empty() -> (r: Self)
        ensures
            r == (GensoDate { season: 0, month: 0, day: 0 }),
    {
        GensoDate { season: 0, month: 0, day: 0 }
    }

    /// The English abbreviation of the month; months outside `1..=12` have none.
    pub fn to_month_string_eng_short(&self) -> (r: &'static str)
        requires
            1 <= self.month <= 12,
        ensures
            r@ == (if self.month == 1 {
                "Jan."@
            } else if self.month == 2 {
                "Feb."@
            } else if self.month == 3 {
                "Mar."@
            } else if self.month == 4 {
                "Apr."@
            } else if self.month == 5 {
                "May"@
            } else if self.month == 6 {
                "Jun."@
            } else if self.month == 7 {
                "Jul."@
            } else if self.month == 8 {
                "Aug."@
            } else if self.month == 9 {
                "Sep."@
            } else if self.month == 10 {
                "Oct."@
            } else if self.month == 11 {
                "Nov."@
            } else {
                "Dec."@
            }),
    {
        if self.month == 1 {
            "Jan."
        } else if self.month == 2 {
            "Feb."
        } else if self.month == 3 {
            "Mar."
        } else if self.month == 4 {
            "Apr."
        } else if self.month == 5 {
            "May"
        } else if self.month == 6 {
            "Jun."
        } else if self.month == 7 {
            "Jul."
        } else if self.month == 8 {
            "Aug."
        } else if self.month == 9 {
            "Sep."
        } else if self.month == 10 {
            "Oct."
        } else if self.month == 11 {
            "Nov."
        } else {
            "Dec."
        }
    }

    /// Adds `day` days and hands the date back.
    pub fn add_day_chain(self, day: i32) -> (r: Self)
        requires
            add_day_ok(self, day as int),
        ensures
            r == advance(self, day as int),
    {
        let mut date = self;
        date.add_day(day);
        date
    }

    /// Moves the date `day` days forward.
    pub fn add_day(&mut self, day: i32)
        requires
            add_day_ok(*old(self), day as int),
        ensures
            *final(self) == advance(*old(self), day as int),
    {
        let mut day = day;
        let ghost target = advance(*self, day as int);
        proof {
            lemma_add_day_ok_bound(*self, day as int);
        }
        while self.day as i32 + day > month_days(self.month)
            invariant
                add_day_ok(*self, day as int),
                advance(*self, day as int) == target,
                0 <= day,
                self.month < 12,
                day + self.day <= 31 * (12 - self.month),
            decreases advance_measure(*self, day as int),
        {
            day -= month_days(self.month) - self.day as i32;
            self.day = 0;
            self.month += 1;
            if self.month > 12 {
                self.season += 1;
                self.month %= 12;
            }
            proof {
                lemma_add_day_ok_bound(*self, day as int);
            }
        }
        self.day += day as u8;
    }

    /// The distance in days from `self` to `date2`, as `diff_day_spec` counts it.
    pub fn diff_day(&self, date2: &Self) -> (r: i32)
        requires
            diff_day_ok(*self, *date2),
        ensures
            r == diff_day_spec(*self, *date2),
    {
        if self.month < date2.month {
            let mut diff: i32 = month_days(self.month) - self.day as i32;
            let mut month_index: u8 = self.month + 1;
            while month_index < date2.month
                invariant
                    self.month < month_index <= date2.month <= 12,
                    diff == month_length(self.month as int) - self.day + days_in_months(
                        self.month + 1,
                        month_index as int,
                    ),
                    -255 <= diff <= 31 * month_index,
                decreases date2.month - month_index,
            {
                diff += month_days(month_index);
                month_index += 1;
            }
            proof {
                lemma_days_in_months_front(self.month as int, date2.month as int);
            }
            diff + date2.day as i32
        } else if self.month == date2.month {
            let diff = if self.day > date2.day {
                self.day - date2.day
            } else {
                date2.day - self.day
            };
            diff as i32
        } else {
            let mut diff: i32 = month_days(date2.month) - date2.day as i32;
            let mut month_index: u8 = date2.month + 1;
            while month_index < self.month
                invariant
                    date2.month < month_index <= self.month <= 12,
                    diff == month_length(date2.month as int) - date2.day + days_in_months(
                        date2.month + 1,
                        month_index as int,
                    ),
                    -255 <= diff <= 31 * month_index,
                decreases self.month - month_index,
            {
                diff += month_days(month_index);
                month_index += 1;
            }
            proof {
                lemma_days_in_months_front(date2.month as int, self.month as int);
            }
            -(diff + date2.day as i32)
        }
    }

    /// The rental period that lending on `self` and returning on `limit` makes.
    pub fn rental_limit_type(&self, limit: &GensoDate) -> (r: Option<RentalLimit>)
        requires
            diff_day_ok(*self, *limit),
        ensures
            r == rental_limit_of(*self, *limit),
    {
        let day_diff = self.diff_day(&limit);

        if day_diff >= 0 {
            if day_diff == 0 {
                Some(RentalLimit::Today)
            } else if day_diff == 7 {
                Some(RentalLimit::ShortTerm)
            } else if day_diff == 14 {
                Some(RentalLimit::LongTerm)
            } else {
                None
            }
        } else {
            None
        }
    }

    /// Whether `self` comes after `date`.
    pub fn is_past(&self, date: &GensoDate) -> (r: bool)
        ensures
            r == later_than(*self, *date),
    {
        if self.season < date.season {
            false
        } else if self.season > date.season {
            true
        } else if self.month < date.month {
            false
        } else if self.month > date.month {
            true
        } else {
            self.day > date.day
        }
    }

    /// Whether a week starts on `self`: the distance that `diff_day` measures
    /// from `self` to the opening day is a multiple of seven.
    pub fn is_week_first(&self) -> (r: bool)
        requires
            diff_day_ok(*self, opening_day()),
        ensures
            r == (diff_day_spec(*self, opening_day()) % 7 == 0),
    {
        let diff = self.diff_day(&GensoDate::new(112, 7, 23));
        proof {
            if self.month < 7 {
                lemma_days_in_months_bounds(self.month as int, 7);
            } else if self.month > 7 {
                lemma_days_in_months_bounds(7, self.month as int);
            }
        }
        let magnitude: i32 = if diff < 0 {
            -diff
        } else {
            diff
        };
        magnitude % 7 == 0
    }
}

} // verus!
