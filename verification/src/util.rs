//! Small helpers: seasons, days of the week, comparisons, unique ids and
//! random choice.

use vstd::prelude::*;
use vstd::std_specs::cmp::PartialOrdIs;
use vstd::std_specs::cmp::PartialOrdSpec;
use vstd::string::StringExecFns;

use crate::random::random_usize;
use crate::text::str_equals;

verus! {

/// The season that a year belongs to: each year is its own season.
pub fn year_to_season(year: i64) -> (r: i64)
    ensures
        r == year,
{
    year
}

/// The position among `len` items that the roll `roll` picks.
pub open spec fn roll_index(roll: usize, len: nat) -> int {
    roll as int % (len as int)
}

/// The element of `items` that the roll `roll` picks: the one at `roll`
/// modulo the number of items.
pub fn select_at<T>(items: &[T], roll: usize) -> (r: &T)
    requires
        items@.len() > 0,
    ensures
        *r == items@[roll_index(roll, items@.len())],
{
    &items[roll % items.len()]
}

/// Picks an element of `items` at random: the one that a random roll picks
/// with `select_at`.
pub fn random_select<T>(items: &[T]) -> (r: Option<&T>)
    requires
        items@.len() > 0,
    ensures
        r matches Some(x) && exists|roll: usize| *x == items@[#[trigger] roll_index(roll, items@.len())],
{
    let roll = random_usize();
    Some(select_at(items, roll))
}

/// The day of the week.
#[derive(Debug, Clone, Copy, PartialEq, Eq, Structural)]
pub enum DayOfWeek {
    Sunday,
    Monday,
    TuesDay,
    Wednesday,
    Thursday,
    Friday,
    Saturday,
}

/// The day written with its English abbreviation; anything else reads as Sunday.
pub open spec fn day_of_week_from_abbreviation(s: Seq<char>) -> DayOfWeek {
    if s == "Sun"@ {
        DayOfWeek::Sunday
    } else if s == "Mon"@ {
        DayOfWeek::Monday
    } else if s == "Tue"@ {
        DayOfWeek::TuesDay
    } else if s == "Wed"@ {
        DayOfWeek::Wednesday
    } else if s == "Thu"@ {
        DayOfWeek::Thursday
    } else if s == "Fri"@ {
        DayOfWeek::Friday
    } else if s == "Sat"@ {
        DayOfWeek::Saturday
    } else {
        DayOfWeek::Sunday
    }
}

/// The English abbreviation of the day.
pub open spec fn day_of_week_abbreviation(d: DayOfWeek) -> Seq<char> {
    match d {
        DayOfWeek::Sunday => "Sun"@,
        DayOfWeek::Monday => "Mon"@,
        DayOfWeek::TuesDay => "Tue"@,
        DayOfWeek::Wednesday => "Wed"@,
        DayOfWeek::Thursday => "Thu"@,
        DayOfWeek::Friday => "Fri"@,
        DayOfWeek::Saturday => "Sat"@,
    }
}

/// Law: reading back the English abbreviation of a day gives the day.
pub proof fn law_day_of_week_abbreviation_roundtrip(d: DayOfWeek)
    ensures
        day_of_week_from_abbreviation(day_of_week_abbreviation(d)) == d,
{
    reveal_strlit("Sun");
    reveal_strlit("Mon");
    reveal_strlit("Tue");
    reveal_strlit("Wed");
    reveal_strlit("Thu");
    reveal_strlit("Fri");
    reveal_strlit("Sat");
    assert("Fri"@[0] == 'F');
    assert("Mon"@[0] == 'M');
    assert("Sat"@[0] == 'S');
    assert("Sat"@[1] == 'a');
    assert("Sun"@[0] == 'S');
    assert("Sun"@[1] == 'u');
    assert("Thu"@[0] == 'T');
    assert("Thu"@[1] == 'h');
    assert("Tue"@[0] == 'T');
    assert("Tue"@[1] == 'u');
    assert("Wed"@[0] == 'W');
}

/// The Japanese name of the day.
pub open spec fn day_of_week_jp_name(d: DayOfWeek) -> Seq<char> {
    match d {
        DayOfWeek::Sunday => "日曜日"@,
        DayOfWeek::Monday => "月曜日"@,
        DayOfWeek::TuesDay => "火曜日"@,
        DayOfWeek::Wednesday => "水曜日"@,
        DayOfWeek::Thursday => "木曜日"@,
        DayOfWeek::Friday => "金曜日"@,
        DayOfWeek::Saturday => "土曜日"@,
    }
}

/// The day written with its Japanese name; anything else reads as Sunday.
pub open spec fn day_of_week_from_jp_name(s: Seq<char>) -> DayOfWeek {
    if s == "日曜日"@ {
        DayOfWeek::Sunday
    } else if s == "月曜日"@ {
        DayOfWeek::Monday
    } else if s == "火曜日"@ {
        DayOfWeek::TuesDay
    } else if s == "水曜日"@ {
        DayOfWeek::Wednesday
    } else if s == "木曜日"@ {
        DayOfWeek::Thursday
    } else if s == "金曜日"@ {
        DayOfWeek::Friday
    } else if s == "土曜日"@ {
        DayOfWeek::Saturday
    } else {
        DayOfWeek::Sunday
    }
}

/// Law: reading back the Japanese name of a day gives the day.
pub proof fn law_day_of_week_jp_roundtrip(d: DayOfWeek)
    ensures
        day_of_week_from_jp_name(day_of_week_jp_name(d)) == d,
{
    reveal_strlit("日曜日");
    reveal_strlit("月曜日");
    reveal_strlit("火曜日");
    reveal_strlit("水曜日");
    reveal_strlit("木曜日");
    reveal_strlit("金曜日");
    reveal_strlit("土曜日");
    assert("日曜日"@[0] == '日');
    assert("月曜日"@[0] == '月');
    assert("火曜日"@[0] == '火');
    assert("水曜日"@[0] == '水');
    assert("木曜日"@[0] == '木');
    assert("金曜日"@[0] == '金');
    assert("土曜日"@[0] == '土');
}

impl DayOfWeek {
    /// The day written as `Sun`, `Mon`, ..., `Sat`.
    pub fn from_char(day_str: &str) -> (r: Self)
        ensures
            r == day_of_week_from_abbreviation(day_str@),
    {
        if str_equals(day_str, "Sun") {
            Self::Sunday
        } else if str_equals(day_str, "Mon") {
            Self::Monday
        } else if str_equals(day_str, "Tue") {
            Self::TuesDay
        } else if str_equals(day_str, "Wed") {
            Self::Wednesday
        } else if str_equals(day_str, "Thu") {
            Self::Thursday
        } else if str_equals(day_str, "Fri") {
            Self::Friday
        } else if str_equals(day_str, "Sat") {
            Self::Saturday
        } else {
            Self::Sunday
        }
    }

    /// The day written with its Japanese name.
    pub fn from_char_jp(day_str: &str) -> (r: Self)
        ensures
            r == day_of_week_from_jp_name(day_str@),
    {
        if str_equals(day_str, "日曜日") {
            Self::Sunday
        } else if str_equals(day_str, "月曜日") {
            Self::Monday
        } else if str_equals(day_str, "火曜日") {
            Self::TuesDay
        } else if str_equals(day_str, "水曜日") {
            Self::Wednesday
        } else if str_equals(day_str, "木曜日") {
            Self::Thursday
        } else if str_equals(day_str, "金曜日") {
            Self::Friday
        } else if str_equals(day_str, "土曜日") {
            Self::Saturday
        } else {
            Self::Sunday
        }
    }

    /// The Japanese name of the day.
    pub fn to_string(&self) -> (r: String)
        ensures
            r@ == day_of_week_jp_name(*self),
    {
        let name = match self {
            Self::Sunday => "日曜日",
            Self::Monday => "月曜日",
            Self::TuesDay => "火曜日",
            Self::Wednesday => "水曜日",
            Self::Thursday => "木曜日",
            Self::Friday => "金曜日",
            Self::Saturday => "土曜日",
        };
        String::from_str(name)
    }
}

/// The greater of two values; `b` when they are not ordered above one another.
pub fn max<T: PartialOrd>(a: T, b: T) -> (r: T)
    ensures
        T::obeys_partial_cmp_spec() ==> r == (if a.is_gt(&b) {
            a
        } else {
            b
        }),
{
    if a > b {
        a
    } else {
        b
    }
}

/// The smaller of two values; `b` when they are not ordered below one another.
pub fn min<T: PartialOrd>(a: T, b: T) -> (r: T)
    ensures
        T::obeys_partial_cmp_spec() ==> r == (if a.is_lt(&b) {
            a
        } else {
            b
        }),
{
    if a < b {
        a
    } else {
        b
    }
}

/// The next unique id: one more than the last id handed out, which `last_id`
/// holds and which is updated.
pub fn get_unique_id(last_id: &mut u64) -> (r: u64)
    requires
        *old(last_id) < u64::MAX,
    ensures
        r == *old(last_id) + 1,
        *final(last_id) == r,
{
    *last_id += 1;
    *last_id
}

} // verus!
