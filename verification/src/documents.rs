//! The game's TOML files read into the library's values: the scenario table,
//! the new-book schedule, the map's events and the scenario scripts.  Each
//! reader says exactly what it builds and fails exactly where a value it
//! needs is missing, of another kind, or names something unknown.

use vstd::prelude::*;

use crate::book_management::{
    copy_of_entry, entry_copies, ids_used, lemma_total_copies_nonneg, lemma_total_copies_prefix, line_of_each_copy, total_copies, DayNewBooks,
    NewBookEntry, NewBookSchedule,
};
use crate::book::BookShelfInformation;
use crate::date::GensoDate;
use crate::map_event::{
    trigger_named, BookStoreEvent, BuiltinEvent, BuiltinEventSymbol, EventTrigger, MapEventElement,
    MapEventList, MapEventSceneSwitch, MapTextEvent,
};
use crate::scene::{scene_named, SceneID};
use crate::scenario_table::{day_scenario_from_entries, general_scenario_from_entries, ScenarioTable};
use crate::toml_doc::{
    all_of, array_at, array_of, date_of, get_value, lemma_all_of_fails_on, lemma_all_of_step,
    int_of, int_at, read_date, string_at, text_at, text_of, toml_get, TomlValue,
};

verus! {

/// A line of the day table: the date under `date` and the file under `path`.
pub open spec fn day_entry_of(v: TomlValue) -> Option<(GensoDate, String)> {
    let d = toml_get(v, "date"@);
    let p = text_of(toml_get(v, "path"@));
    if d is Some && date_of(d.unwrap()) is Some && p is Some {
        Some((date_of(d.unwrap()).unwrap(), p.unwrap()))
    } else {
        None
    }
}

/// A line of the general table: its `type`, which must name the one known
/// general scenario, and its `path`.
pub open spec fn general_entry_of(v: TomlValue) -> Option<(String, String)> {
    let t = text_of(toml_get(v, "type"@));
    let p = text_of(toml_get(v, "path"@));
    if t is Some && t.unwrap()@ == "NoEnoughMoney"@ && p is Some {
        Some((t.unwrap(), p.unwrap()))
    } else {
        None
    }
}

pub open spec fn day_entries_of(a: Seq<TomlValue>) -> Option<Seq<(GensoDate, String)>> {
    all_of(a, |v: TomlValue| day_entry_of(v))
}

pub open spec fn general_entries_of(a: Seq<TomlValue>) -> Option<Seq<(String, String)>> {
    all_of(a, |v: TomlValue| general_entry_of(v))
}

/// The day lines of a scenario table document, under `scenario-table`.
pub open spec fn table_days(doc: TomlValue) -> Option<Seq<(GensoDate, String)>> {
    let a = array_of(toml_get(doc, "scenario-table"@));
    if a is Some {
        day_entries_of(a.unwrap())
    } else {
        None
    }
}

/// The general lines of a scenario table document, under
/// `general-scenario-table`.
pub open spec fn table_generals(doc: TomlValue) -> Option<Seq<(String, String)>> {
    let a = array_of(toml_get(doc, "general-scenario-table"@));
    if a is Some {
        general_entries_of(a.unwrap())
    } else {
        None
    }
}

fn read_day_entries(a: &[TomlValue]) -> (r: Option<Vec<(GensoDate, String)>>)
    ensures
        r is Some <==> day_entries_of(a@) is Some,
        r is Some ==> r.unwrap()@ == day_entries_of(a@).unwrap(),
{
    let mut out: Vec<(GensoDate, String)> = Vec::new();
    let mut i: usize = 0;
    proof {
        assert(a@.take(0) =~= Seq::<TomlValue>::empty());
    }
    while i < a.len()
        invariant
            i <= a@.len(),
            day_entries_of(a@.take(i as int)) == Some(out@),
        decreases a.len() - i,
    {
        proof {
            lemma_all_of_step(a@, |v: TomlValue| day_entry_of(v), i as int);
        }
        let entry = match get_value(&a[i], "date") {
            Some(d) => match (read_date(d), string_at(&a[i], "path")) {
                (Some(date), Some(path)) => Some((date, path.clone())),
                _ => None,
            },
            None => None,
        };
        match entry {
            Some(e) => out.push(e),
            None => {
                proof {
                    lemma_all_of_fails_on(a@, |v: TomlValue| day_entry_of(v), i + 1);
                }
                return None;
            },
        }
        i += 1;
    }
    proof {
        assert(a@.take(i as int) =~= a@);
    }
    Some(out)
}

fn read_general_entries(a: &[TomlValue]) -> (r: Option<Vec<(String, String)>>)
    ensures
        r is Some <==> general_entries_of(a@) is Some,
        r is Some ==> r.unwrap()@ == general_entries_of(a@).unwrap(),
{
    let mut out: Vec<(String, String)> = Vec::new();
    let mut i: usize = 0;
    proof {
        assert(a@.take(0) =~= Seq::<TomlValue>::empty());
    }
    while i < a.len()
        invariant
            i <= a@.len(),
            general_entries_of(a@.take(i as int)) == Some(out@),
        decreases a.len() - i,
    {
        proof {
            lemma_all_of_step(a@, |v: TomlValue| general_entry_of(v), i as int);
        }
        let entry = match (string_at(&a[i], "type"), string_at(&a[i], "path")) {
            (Some(t), Some(path)) => {
                if crate::text::str_equals(t.as_str(), "NoEnoughMoney") {
                    Some((t.clone(), path.clone()))
                } else {
                    None
                }
            },
            _ => None,
        };
        match entry {
            Some(e) => out.push(e),
            None => {
                proof {
                    lemma_all_of_fails_on(a@, |v: TomlValue| general_entry_of(v), i + 1);
                }
                return None;
            },
        }
        i += 1;
    }
    proof {
        assert(a@.take(i as int) =~= a@);
    }
    Some(out)
}

/// The scenario table that a scenario table document describes: the file of
/// each day of `scenario-table`, and of each general event of
/// `general-scenario-table`, a later line for the same key replacing an
/// earlier one.
pub fn scenario_table_from_document(doc: &TomlValue) -> (r: Option<ScenarioTable>)
    ensures
        r is Some <==> (table_days(*doc) is Some && table_generals(*doc) is Some),
        r is Some ==> forall|d: GensoDate|
            #![trigger r.unwrap().day_scenario(d)]
            r.unwrap().day_scenario(d) == day_scenario_from_entries(table_days(*doc).unwrap(), d),
        r is Some ==> forall|id|
            #![trigger r.unwrap().general_scenario(id)]
            r.unwrap().general_scenario(id) == general_scenario_from_entries(
                table_generals(*doc).unwrap(),
                id,
            ),
{
    let days = match array_at(doc, "scenario-table") {
        Some(a) => read_day_entries(a),
        None => None,
    };
    let generals = match array_at(doc, "general-scenario-table") {
        Some(a) => read_general_entries(a),
        None => None,
    };
    match (days, generals) {
        (Some(days), Some(generals)) => {
            proof {
                lemma_general_entries_known(
                    array_of(toml_get(*doc, "general-scenario-table"@)).unwrap(),
                );
            }
            Some(ScenarioTable::new(days, generals))
        },
        _ => None,
    }
}

proof fn lemma_general_entries_known(a: Seq<TomlValue>)
    requires
        general_entries_of(a) is Some,
    ensures
        forall|i: int|
            0 <= i < general_entries_of(a).unwrap().len() ==> general_entries_of(a).unwrap()[i].0@
                == "NoEnoughMoney"@,
    decreases a.len(),
{
    if a.len() > 0 {
        lemma_general_entries_known(a.drop_last());
    }
}


/// A delivery line: the title's `name`, `pages`, `size`, `billing_number`
/// and `base_price`, and the number `num` of copies; the numbers are cut to
/// the widths of their fields.
pub open spec fn book_line_of(v: TomlValue) -> Option<NewBookEntry> {
    let name = text_of(toml_get(v, "name"@));
    let pages = int_of(toml_get(v, "pages"@));
    let size = text_of(toml_get(v, "size"@));
    let number = int_of(toml_get(v, "billing_number"@));
    let price = int_of(toml_get(v, "base_price"@));
    let num = int_of(toml_get(v, "num"@));
    if name is Some && pages is Some && size is Some && number is Some && price is Some
        && num is Some {
        Some(
            NewBookEntry {
                name: name.unwrap(),
                pages: pages.unwrap() as usize,
                size: size.unwrap(),
                billing_number: number.unwrap() as u16,
                base_price: price.unwrap() as u32,
                num: num.unwrap(),
            },
        )
    } else {
        None
    }
}

pub open spec fn book_lines_of(a: Seq<TomlValue>) -> Option<Seq<NewBookEntry>> {
    all_of(a, |v: TomlValue| book_line_of(v))
}

/// A day of the schedule: its `date` and its `books_information` lines.
pub open spec fn delivery_of(v: TomlValue) -> Option<(GensoDate, Seq<NewBookEntry>)> {
    let d = toml_get(v, "date"@);
    let lines = array_of(toml_get(v, "books_information"@));
    if d is Some && date_of(d.unwrap()) is Some && lines is Some && book_lines_of(lines.unwrap()) is Some {
        Some((date_of(d.unwrap()).unwrap(), book_lines_of(lines.unwrap()).unwrap()))
    } else {
        None
    }
}

/// The days of a new-book schedule document, under `new-book-schedule`.
pub open spec fn deliveries_of(doc: TomlValue) -> Option<Seq<(GensoDate, Seq<NewBookEntry>)>> {
    let a = array_of(toml_get(doc, "new-book-schedule"@));
    if a is Some {
        all_of(a.unwrap(), |v: TomlValue| delivery_of(v))
    } else {
        None
    }
}

/// The book ids that the days use.
pub open spec fn deliveries_ids(d: Seq<(GensoDate, Seq<NewBookEntry>)>) -> int
    decreases d.len(),
{
    if d.len() == 0 {
        0
    } else {
        deliveries_ids(d.drop_last()) + ids_used(d.last().1)
    }
}

/// `books` are the copies that the delivery lines bring, in order.
pub open spec fn copies_of_lines(books: Seq<crate::book::BookInformation>, lines: Seq<NewBookEntry>) -> bool {
    &&& books.len() == total_copies(lines)
    &&& forall|k: int|
        0 <= k < books.len() ==> copy_of_entry(#[trigger] books[k], line_of_each_copy(lines)[k])
}

proof fn lemma_deliveries_ids_prefix(d: Seq<(GensoDate, Seq<NewBookEntry>)>, k: int)
    requires
        0 <= k < d.len(),
    ensures
        deliveries_ids(d.take(k + 1)) == deliveries_ids(d.take(k)) + ids_used(d[k].1),
        0 <= ids_used(d[k].1),
        deliveries_ids(d.take(k + 1)) <= deliveries_ids(d),
    decreases d.len() - k,
{
    assert(d.take(k + 1).drop_last() =~= d.take(k));
    lemma_total_copies_nonneg(d[k].1);
    if k + 1 < d.len() {
        lemma_deliveries_ids_prefix(d, k + 1);
    } else {
        assert(d.take(k + 1) =~= d);
    }
}

fn read_book_lines(a: &[TomlValue]) -> (r: Option<Vec<NewBookEntry>>)
    ensures
        r is Some <==> book_lines_of(a@) is Some,
        r is Some ==> r.unwrap()@ == book_lines_of(a@).unwrap(),
{
    let mut out: Vec<NewBookEntry> = Vec::new();
    let mut i: usize = 0;
    proof {
        assert(a@.take(0) =~= Seq::<TomlValue>::empty());
    }
    while i < a.len()
        invariant
            i <= a@.len(),
            book_lines_of(a@.take(i as int)) == Some(out@),
        decreases a.len() - i,
    {
        proof {
            lemma_all_of_step(a@, |v: TomlValue| book_line_of(v), i as int);
        }
        let v = &a[i];
        let line = match (
            string_at(v, "name"),
            int_at(v, "pages"),
            string_at(v, "size"),
            int_at(v, "billing_number"),
            int_at(v, "base_price"),
            int_at(v, "num"),
        ) {
            (Some(name), Some(pages), Some(size), Some(number), Some(price), Some(num)) => Some(
                NewBookEntry {
                    name: name.clone(),
                    pages: pages as usize,
                    size: size.clone(),
                    billing_number: number as u16,
                    base_price: price as u32,
                    num,
                },
            ),
            _ => None,
        };
        match line {
            Some(e) => out.push(e),
            None => {
                proof {
                    lemma_all_of_fails_on(a@, |v: TomlValue| book_line_of(v), i + 1);
                }
                return None;
            },
        }
        i += 1;
    }
    proof {
        assert(a@.take(i as int) =~= a@);
    }
    Some(out)
}

fn read_deliveries(a: &[TomlValue]) -> (r: Option<Vec<(GensoDate, Vec<NewBookEntry>)>>)
    ensures
        r is Some <==> all_of(a@, |v: TomlValue| delivery_of(v)) is Some,
        r is Some ==> r.unwrap()@.len() == all_of(a@, |v: TomlValue| delivery_of(v)).unwrap().len(),
        r is Some ==> forall|i: int|
            0 <= i < r.unwrap()@.len() ==> (#[trigger] r.unwrap()@[i]).0 == all_of(
                a@,
                |v: TomlValue| delivery_of(v),
            ).unwrap()[i].0 && r.unwrap()@[i].1@ == all_of(a@, |v: TomlValue| delivery_of(v)).unwrap()[i].1,
{
    let mut out: Vec<(GensoDate, Vec<NewBookEntry>)> = Vec::new();
    let mut i: usize = 0;
    proof {
        assert(a@.take(0) =~= Seq::<TomlValue>::empty());
    }
    while i < a.len()
        invariant
            i <= a@.len(),
            all_of(a@.take(i as int), |v: TomlValue| delivery_of(v)) is Some,
            out@.len() == all_of(a@.take(i as int), |v: TomlValue| delivery_of(v)).unwrap().len(),
            forall|j: int|
                0 <= j < out@.len() ==> (#[trigger] out@[j]).0 == all_of(
                    a@.take(i as int),
                    |v: TomlValue| delivery_of(v),
                ).unwrap()[j].0 && out@[j].1@ == all_of(a@.take(i as int), |v: TomlValue| delivery_of(v)).unwrap()[j].1,
        decreases a.len() - i,
    {
        proof {
            lemma_all_of_step(a@, |v: TomlValue| delivery_of(v), i as int);
        }
        let v = &a[i];
        let day = match (get_value(v, "date"), array_at(v, "books_information")) {
            (Some(d), Some(lines)) => match (read_date(d), read_book_lines(lines)) {
                (Some(date), Some(lines)) => Some((date, lines)),
                _ => None,
            },
            _ => None,
        };
        match day {
            Some(e) => out.push(e),
            None => {
                proof {
                    lemma_all_of_fails_on(a@, |v: TomlValue| delivery_of(v), i + 1);
                }
                return None;
            },
        }
        i += 1;
    }
    proof {
        assert(a@.take(i as int) =~= a@);
    }
    Some(out)
}

/// Whether the book ids after `last_id` suffice for the deliveries of a
/// schedule document (always, when the document describes none).
pub fn new_book_ids_fit(doc: &TomlValue, last_id: u64) -> (r: bool)
    ensures
        r == (deliveries_of(*doc) is Some ==> last_id + deliveries_ids(deliveries_of(*doc).unwrap())
            <= u64::MAX),
{
    let days = match array_at(doc, "new-book-schedule") {
        Some(a) => read_deliveries(a),
        None => None,
    };
    let days = match days {
        Some(days) => days,
        None => return true,
    };
    let ghost d = deliveries_of(*doc).unwrap();
    let mut total: u64 = last_id;
    let mut i: usize = 0;
    proof {
        assert(d.take(0) =~= Seq::<(GensoDate, Seq<NewBookEntry>)>::empty());
    }
    while i < days.len()
        invariant
            i <= days@.len(),
            days@.len() == d.len(),
            deliveries_of(*doc) is Some,
            d == deliveries_of(*doc).unwrap(),
            forall|j: int| 0 <= j < days@.len() ==> (#[trigger] days@[j]).1@ == d[j].1,
            total == last_id + deliveries_ids(d.take(i as int)),
        decreases days.len() - i,
    {
        proof {
            lemma_deliveries_ids_prefix(d, i as int);
        }
        let lines = &days[i].1;
        let mut j: usize = 0;
        while j < lines.len()
            invariant
                i < d.len(),
                deliveries_of(*doc) is Some,
                d == deliveries_of(*doc).unwrap(),
                j <= lines@.len(),
                lines@ == d[i as int].1,
                total == last_id + deliveries_ids(d.take(i as int)) + j + total_copies(
                    lines@.take(j as int),
                ),
                deliveries_ids(d.take(i + 1)) == deliveries_ids(d.take(i as int)) + ids_used(d[i as int].1),
                deliveries_ids(d.take(i + 1)) <= deliveries_ids(d),
            decreases lines.len() - j,
        {
            proof {
                lemma_total_copies_prefix(lines@, j as int);
            }
            let n: u64 = if lines[j].num < 0 {
                0
            } else {
                lines[j].num as u64
            };
            assert(n == entry_copies(lines@[j as int].num));
            if total == u64::MAX || u64::MAX - total - 1 < n {
                proof {
                    assert(total + 1 + n > u64::MAX);
                    assert(last_id + deliveries_ids(d.take(i as int)) + (j + 1) + total_copies(
                        lines@.take(j + 1),
                    ) > u64::MAX);
                    assert(j + 1 <= lines@.len());
                    assert(last_id + deliveries_ids(d) > u64::MAX);
                }
                return false;
            }
            total = total + 1 + n;
            j += 1;
        }
        proof {
            assert(lines@.take(j as int) =~= lines@);
        }
        i += 1;
    }
    proof {
        assert(d.take(i as int) =~= d);
    }
    true
}

impl NewBookSchedule {
    /// The new-book schedule that a schedule document describes.  Each day of
    /// `new-book-schedule` gets, in order, fresh copies of the titles of its
    /// lines, as many of each as the line asks for; the days take the book ids
    /// one after the other, and a later day with the same date replaces an
    /// earlier one.  Nothing is built, and no id is used, when a value is
    /// missing or of another kind.
    pub fn from_toml(doc: &TomlValue, last_id: &mut u64) -> (r: Option<
        NewBookSchedule,
    >)
        requires
            deliveries_of(*doc) is Some ==> *old(last_id) + deliveries_ids(deliveries_of(*doc).unwrap())
                <= u64::MAX,
        ensures
            r is Some <==> deliveries_of(*doc) is Some,
            r is None ==> *final(last_id) == *old(last_id),
            r is Some ==> ({
                let d = deliveries_of(*doc).unwrap();
                let s = r.unwrap();
                &&& *final(last_id) == *old(last_id) + deliveries_ids(d)
                &&& forall|date: GensoDate|
                    #![trigger s.has_delivery(date)]
                    s.has_delivery(date) == exists|i: int| 0 <= i < d.len() && d[i].0 == date
                &&& forall|date: GensoDate|
                    #![trigger s.delivery(date)]
                    s.has_delivery(date) ==> exists|i: int|
                        0 <= i < d.len() && d[i].0 == date && copies_of_lines(s.delivery(date), d[i].1)
                            && forall|j: int| i < j < d.len() ==> d[j].0 != date
                &&& forall|date: GensoDate, k: int|
                    s.has_delivery(date) && 0 <= k < s.delivery(date).len() ==> *old(last_id)
                        < (#[trigger] s.delivery(date)[k]).spec_unique_id() <= *final(last_id)
            }),
    {
        let days = match array_at(doc, "new-book-schedule") {
            Some(a) => read_deliveries(a),
            None => None,
        };
        let days = match days {
            Some(days) => days,
            None => return None,
        };
        let ghost d = deliveries_of(*doc).unwrap();
        let ghost start = *last_id;
        let mut built: Vec<(GensoDate, DayNewBooks)> = Vec::new();
        let mut i: usize = 0;
        proof {
            assert(d.take(0) =~= Seq::<(GensoDate, Seq<NewBookEntry>)>::empty());
        }
        while i < days.len()
            invariant
                i <= days@.len(),
                days@.len() == d.len(),
                forall|j: int| 0 <= j < days@.len() ==> (#[trigger] days@[j]).0 == d[j].0 && days@[j].1@ == d[j].1,
                start + deliveries_ids(d) <= u64::MAX,
                *last_id == start + deliveries_ids(d.take(i as int)),
                start <= *last_id,
                built@.len() == i,
                forall|j: int|
                    0 <= j < i ==> (#[trigger] built@[j]).0 == d[j].0 && copies_of_lines(
                        built@[j].1.spec_new_books(),
                        d[j].1,
                    ) && forall|k: int|
                        0 <= k < built@[j].1.spec_new_books().len() ==> start
                            < #[trigger] built@[j].1.spec_new_books()[k].spec_unique_id() <= *last_id,
            decreases days.len() - i,
        {
            proof {
                lemma_deliveries_ids_prefix(d, i as int);
            }
            let ghost before = *last_id;
            let books = DayNewBooks::from_entries(&days[i].1, last_id);
            let ghost old_built = built@;
            built.push((days[i].0, books));
            proof {
                assert forall|j: int| 0 <= j < i + 1 implies (#[trigger] built@[j]).0 == d[j].0
                    && copies_of_lines(built@[j].1.spec_new_books(), d[j].1) && forall|k: int|
                    0 <= k < built@[j].1.spec_new_books().len() ==> start
                        < #[trigger] built@[j].1.spec_new_books()[k].spec_unique_id() <= *last_id by {
                    assert(before <= *last_id);
                    if j < i {
                        assert(built@[j] == old_built[j]);
                    } else {
                        assert(built@[j].1 == books);
                        assert(days@[j].1@ == d[j].1);
                    }
                }
            }
            i += 1;
        }
        proof {
            assert(d.take(i as int) =~= d);
        }
        let ghost b = built@;
        let schedule = NewBookSchedule::from_entries(built);
        proof {
            assert forall|date: GensoDate| #[trigger] schedule.has_delivery(date) implies exists|i: int|
                0 <= i < d.len() && d[i].0 == date && copies_of_lines(schedule.delivery(date), d[i].1)
                    && forall|j: int| i < j < d.len() ==> d[j].0 != date by {
                let k = choose|k: int|
                    0 <= k < b.len() && b[k].0 == date && schedule.delivery(date) == b[k].1.spec_new_books()
                        && forall|j: int| k < j < b.len() ==> b[j].0 != date;
                assert(b[k].0 == d[k].0);
                assert forall|j: int| k < j < d.len() implies d[j].0 != date by {
                    assert(b[j].0 == d[j].0);
                }
            }
            assert forall|date: GensoDate| #[trigger] schedule.has_delivery(date) == exists|i: int|
                0 <= i < d.len() && d[i].0 == date by {
                if schedule.has_delivery(date) {
                    let k = choose|k: int| 0 <= k < b.len() && b[k].0 == date;
                    assert(d[k].0 == date);
                }
                if exists|i: int| 0 <= i < d.len() && d[i].0 == date {
                    let k = choose|k: int| 0 <= k < d.len() && d[k].0 == date;
                    assert(b[k].0 == date);
                }
            }
            assert forall|date: GensoDate, k: int|
                schedule.has_delivery(date) && 0 <= k < schedule.delivery(date).len() implies start
                    < (#[trigger] schedule.delivery(date)[k]).spec_unique_id() <= *last_id by {
                let m = choose|m: int|
                    0 <= m < b.len() && b[m].0 == date && schedule.delivery(date) == b[m].1.spec_new_books()
                        && forall|j: int| m < j < b.len() ==> b[j].0 != date;
                assert(schedule.delivery(date)[k] == b[m].1.spec_new_books()[k]);
            }
        }
        Some(schedule)
    }
}


/// The position of an event panel: its `position` table's `x` and `y`, cut
/// to `i32`.
pub open spec fn panel_position(v: TomlValue) -> Option<(i32, i32)> {
    let p = toml_get(v, "position"@);
    if p is Some && int_of(toml_get(p.unwrap(), "x"@)) is Some && int_of(
        toml_get(p.unwrap(), "y"@),
    ) is Some {
        Some(
            (
                int_of(toml_get(p.unwrap(), "x"@)).unwrap() as i32,
                int_of(toml_get(p.unwrap(), "y"@)).unwrap() as i32,
            ),
        )
    } else {
        None
    }
}

/// The kind of event a panel places, by its `type`.
pub open spec fn panel_type(v: TomlValue) -> Option<Seq<char>> {
    let t = text_of(toml_get(v, "type"@));
    if t is Some {
        Some(t.unwrap()@)
    } else {
        None
    }
}

/// The kinds of event that the map knows.
pub open spec fn known_event_type(t: Seq<char>) -> bool {
    t == "text"@ || t == "switch-scene"@ || t == "book-shelf"@ || t == "builtin-event"@
}

/// The panel places an event.
pub open spec fn panel_has_event(v: TomlValue) -> bool {
    panel_type(v) is Some && known_event_type(panel_type(v).unwrap())
}

/// The trigger a panel names.
pub open spec fn panel_trigger(v: TomlValue) -> Option<EventTrigger> {
    let t = text_of(toml_get(v, "trigger"@));
    if t is Some {
        trigger_named(t.unwrap()@)
    } else {
        None
    }
}

/// The fields of the panel's kind of event are there and name known things.
pub open spec fn event_fields_ok(v: TomlValue, t: Seq<char>) -> bool {
    &&& panel_trigger(v) is Some
    &&& t == "text"@ ==> text_of(toml_get(v, "text"@)) is Some
    &&& t == "switch-scene"@ ==> text_of(toml_get(v, "switch-scene-id"@)) is Some && scene_named(
        text_of(toml_get(v, "switch-scene-id"@)).unwrap()@,
    ) is Some
    &&& t == "book-shelf"@ ==> toml_get(v, "shelf-info"@) is Some && int_of(
        toml_get(toml_get(v, "shelf-info"@).unwrap(), "begin-number"@),
    ) is Some && int_of(toml_get(toml_get(v, "shelf-info"@).unwrap(), "end-number"@)) is Some
    &&& t == "builtin-event"@ ==> toml_get(v, "builtin-event-info"@) is Some && text_of(
        toml_get(toml_get(v, "builtin-event-info"@).unwrap(), "symbol"@),
    ) is Some && text_of(
        toml_get(toml_get(v, "builtin-event-info"@).unwrap(), "symbol"@),
    ).unwrap()@ == "select-shelving-book"@
}

/// A panel can be read: it has a position, its `type`, if any, is a text,
/// and a known kind of event has its fields.  A panel without a type, or of
/// an unknown type, places nothing.
pub open spec fn panel_ok(v: TomlValue) -> bool {
    &&& panel_position(v) is Some
    &&& toml_get(v, "type"@) is Some ==> panel_type(v) is Some
    &&& panel_has_event(v) ==> event_fields_ok(v, panel_type(v).unwrap())
}

/// `e` is the event that the panel `v` describes.
pub open spec fn event_of_panel(e: MapEventElement, v: TomlValue) -> bool {
    let t = panel_type(v).unwrap();
    &&& Some(e.spec_trigger()) == panel_trigger(v)
    &&& t == "text"@ ==> e is TextEvent && e->TextEvent_0.spec_text() == text_of(
        toml_get(v, "text"@),
    ).unwrap()@
    &&& t == "switch-scene"@ ==> e is SwitchScene && Some(e->SwitchScene_0.spec_scene())
        == scene_named(text_of(toml_get(v, "switch-scene-id"@)).unwrap()@)
    &&& t == "book-shelf"@ ==> e is BookStoreEvent && e->BookStoreEvent_0.spec_shelf().begin() == int_of(
        toml_get(toml_get(v, "shelf-info"@).unwrap(), "begin-number"@),
    ).unwrap() as u16 && e->BookStoreEvent_0.spec_shelf().end() == int_of(
        toml_get(toml_get(v, "shelf-info"@).unwrap(), "end-number"@),
    ).unwrap() as u16
    &&& t == "builtin-event"@ ==> e is BuiltinEvent && e->BuiltinEvent_0.spec_symbol()
        == BuiltinEventSymbol::SelectShelvingBook
}

/// The last panel of `a` that places an event at `p`.
pub open spec fn event_slot(a: Seq<TomlValue>, p: (i32, i32)) -> Option<int>
    decreases a.len(),
{
    if a.len() == 0 {
        None
    } else if panel_has_event(a.last()) && panel_position(a.last()) == Some(p) {
        Some(a.len() - 1)
    } else {
        event_slot(a.drop_last(), p)
    }
}

/// The panels of a map's event document, under `event-panel`.
pub open spec fn event_panels(doc: TomlValue) -> Option<Seq<TomlValue>> {
    array_of(toml_get(doc, "event-panel"@))
}

proof fn lemma_event_type_names()
    ensures
        "text"@ != "switch-scene"@,
        "text"@ != "book-shelf"@,
        "text"@ != "builtin-event"@,
        "switch-scene"@ != "book-shelf"@,
        "switch-scene"@ != "builtin-event"@,
        "book-shelf"@ != "builtin-event"@,
{
    reveal_strlit("text");
    reveal_strlit("switch-scene");
    reveal_strlit("book-shelf");
    reveal_strlit("builtin-event");
    assert("text"@.len() == 4);
    assert("switch-scene"@.len() == 12);
    assert("book-shelf"@.len() == 10);
    assert("builtin-event"@.len() == 13);
}

/// The trigger that a panel names, when it is a known one.
fn read_trigger(v: &TomlValue) -> (r: Option<EventTrigger>)
    ensures
        r == panel_trigger(*v),
{
    match text_at(v, "trigger") {
        Some(name) => EventTrigger::named(name),
        None => None,
    }
}

impl MapTextEvent {
    /// The text event that a `text` panel of a map describes.
    pub fn from_toml_object(v: &TomlValue) -> (r: Option<Self>)
        ensures
            r is Some <==> (panel_trigger(*v) is Some && text_of(toml_get(*v, "text"@)) is Some),
            r matches Some(e) ==> Some(e.spec_trigger()) == panel_trigger(*v) && e.spec_text() == text_of(
                toml_get(*v, "text"@),
            ).unwrap()@,
    {
        match (read_trigger(v), text_at(v, "text")) {
            (Some(trigger), Some(text)) => Some(MapTextEvent::new(trigger, text)),
            _ => None,
        }
    }
}

impl MapEventSceneSwitch {
    /// The scene change that a `switch-scene` panel of a map describes.
    pub fn from_toml_object(v: &TomlValue) -> (r: Option<Self>)
        ensures
            r is Some <==> (panel_trigger(*v) is Some && text_of(toml_get(*v, "switch-scene-id"@)) is Some
                && scene_named(text_of(toml_get(*v, "switch-scene-id"@)).unwrap()@) is Some),
            r matches Some(e) ==> Some(e.spec_trigger()) == panel_trigger(*v) && Some(e.spec_scene())
                == scene_named(text_of(toml_get(*v, "switch-scene-id"@)).unwrap()@),
    {
        match (read_trigger(v), text_at(v, "switch-scene-id")) {
            (Some(trigger), Some(name)) => match SceneID::named(name) {
                Some(scene) => Some(MapEventSceneSwitch::new(trigger, scene)),
                None => None,
            },
            _ => None,
        }
    }
}

impl BookStoreEvent {
    /// The shelf that a `book-shelf` panel of a map describes.
    pub fn from_toml_object(v: &TomlValue) -> (r: Option<Self>)
        ensures
            r is Some <==> (panel_trigger(*v) is Some && toml_get(*v, "shelf-info"@) is Some && int_of(
                toml_get(toml_get(*v, "shelf-info"@).unwrap(), "begin-number"@),
            ) is Some && int_of(toml_get(toml_get(*v, "shelf-info"@).unwrap(), "end-number"@)) is Some),
            r matches Some(e) ==> Some(e.spec_trigger()) == panel_trigger(*v) && e.spec_shelf().begin()
                == int_of(toml_get(toml_get(*v, "shelf-info"@).unwrap(), "begin-number"@)).unwrap() as u16
                && e.spec_shelf().end() == int_of(
                toml_get(toml_get(*v, "shelf-info"@).unwrap(), "end-number"@),
            ).unwrap() as u16,
    {
        match (read_trigger(v), get_value(v, "shelf-info")) {
            (Some(trigger), Some(info)) => match (int_at(info, "begin-number"), int_at(info, "end-number")) {
                (Some(b), Some(e)) => Some(BookStoreEvent::new(trigger, BookShelfInformation::new(b as u16, e as u16))),
                _ => None,
            },
            _ => None,
        }
    }
}

impl BuiltinEvent {
    /// The built-in event that a `builtin-event` panel of a map describes;
    /// only `select-shelving-book` is known.
    pub fn from_toml_object(v: &TomlValue) -> (r: Option<Self>)
        ensures
            r is Some <==> (panel_trigger(*v) is Some && toml_get(*v, "builtin-event-info"@) is Some && text_of(
                toml_get(toml_get(*v, "builtin-event-info"@).unwrap(), "symbol"@),
            ) is Some && text_of(toml_get(toml_get(*v, "builtin-event-info"@).unwrap(), "symbol"@)).unwrap()@
                == "select-shelving-book"@),
            r matches Some(e) ==> Some(e.spec_trigger()) == panel_trigger(*v) && e.spec_symbol()
                == BuiltinEventSymbol::SelectShelvingBook,
    {
        match (read_trigger(v), get_value(v, "builtin-event-info")) {
            (Some(trigger), Some(info)) => match text_at(info, "symbol") {
                Some(name) => match BuiltinEventSymbol::named(name) {
                    Some(symbol) => Some(BuiltinEvent::new(trigger, symbol)),
                    None => None,
                },
                None => None,
            },
            _ => None,
        }
    }
}

/// The event a readable panel of a known kind describes.
fn event_from_panel(v: &TomlValue) -> (r: Option<MapEventElement>)
    requires
        panel_has_event(*v),
    ensures
        r is Some <==> event_fields_ok(*v, panel_type(*v).unwrap()),
        r is Some ==> event_of_panel(r.unwrap(), *v),
{
    proof {
        lemma_event_type_names();
    }
    let t = match text_at(v, "type") {
        Some(t) => t,
        None => return None,
    };
    if crate::text::str_equals(t, "text") {
        match MapTextEvent::from_toml_object(v) {
            Some(e) => Some(MapEventElement::TextEvent(e)),
            None => None,
        }
    } else if crate::text::str_equals(t, "switch-scene") {
        match MapEventSceneSwitch::from_toml_object(v) {
            Some(e) => Some(MapEventElement::SwitchScene(e)),
            None => None,
        }
    } else if crate::text::str_equals(t, "book-shelf") {
        match BookStoreEvent::from_toml_object(v) {
            Some(e) => Some(MapEventElement::BookStoreEvent(e)),
            None => None,
        }
    } else {
        match BuiltinEvent::from_toml_object(v) {
            Some(e) => Some(MapEventElement::BuiltinEvent(e)),
            None => None,
        }
    }
}

/// The events that a map's event document places: each panel of
/// `event-panel` of a known kind places its event at its position, a later
/// panel replacing an earlier one at the same position.  Nothing is built
/// when a panel cannot be read.
pub fn map_events_from_document(doc: &TomlValue) -> (r: Option<MapEventList>)
    ensures
        r is Some <==> (event_panels(*doc) is Some && forall|i: int|
            0 <= i < event_panels(*doc).unwrap().len() ==> panel_ok(
                #[trigger] event_panels(*doc).unwrap()[i],
            )),
        r is Some ==> forall|p: (i32, i32)|
            #![trigger r.unwrap().event_at(p)]
            (event_slot(event_panels(*doc).unwrap(), p) is None ==> r.unwrap().event_at(p) is None)
                && (event_slot(event_panels(*doc).unwrap(), p) is Some ==> r.unwrap().event_at(p) is Some
                && event_of_panel(
                r.unwrap().event_at(p).unwrap(),
                event_panels(*doc).unwrap()[event_slot(event_panels(*doc).unwrap(), p).unwrap()],
            )),
{
    let a = match array_at(doc, "event-panel") {
        Some(a) => a,
        None => return None,
    };
    let mut list = MapEventList::new();
    let mut i: usize = 0;
    proof {
        assert(a@.take(0) =~= Seq::<TomlValue>::empty());
    }
    while i < a.len()
        invariant
            i <= a@.len(),
            a@ == event_panels(*doc).unwrap(),
            forall|j: int| 0 <= j < i ==> panel_ok(#[trigger] a@[j]),
            forall|p: (i32, i32)|
                #![trigger list.event_at(p)]
                (event_slot(a@.take(i as int), p) is None ==> list.event_at(p) is None) && (event_slot(
                    a@.take(i as int),
                    p,
                ) is Some ==> list.event_at(p) is Some && event_of_panel(
                    list.event_at(p).unwrap(),
                    a@[event_slot(a@.take(i as int), p).unwrap()],
                )),
        decreases a.len() - i,
    {
        let v = &a[i];
        proof {
            assert(a@.take(i + 1).drop_last() =~= a@.take(i as int));
            assert(a@.take(i + 1).last() == a@[i as int]);
        }
        let position = match get_value(v, "position") {
            Some(pos) => match (int_at(pos, "x"), int_at(pos, "y")) {
                (Some(x), Some(y)) => (x as i32, y as i32),
                _ => {
                    proof {
                        assert(!panel_ok(a@[i as int]));
                    }
                    return None;
                },
            },
            None => {
                proof {
                    assert(!panel_ok(a@[i as int]));
                }
                return None;
            },
        };
        let has_type = get_value(v, "type").is_some();
        if has_type {
            match text_at(v, "type") {
                Some(t) => {
                    if crate::text::str_equals(t, "text") || crate::text::str_equals(t, "switch-scene")
                        || crate::text::str_equals(t, "book-shelf") || crate::text::str_equals(
                        t,
                        "builtin-event",
                    ) {
                        match event_from_panel(v) {
                            Some(event) => {
                                let ghost before = list;
                                list.register_event(position, event);
                                proof {
                                    assert forall|p: (i32, i32)|
                                        #![trigger list.event_at(p)]
                                        (event_slot(a@.take(i + 1), p) is None ==> list.event_at(p) is None)
                                            && (event_slot(a@.take(i + 1), p) is Some ==> list.event_at(
                                            p,
                                        ) is Some && event_of_panel(
                                            list.event_at(p).unwrap(),
                                            a@[event_slot(a@.take(i + 1), p).unwrap()],
                                        )) by {
                                        if p != position {
                                            assert(list.event_at(p) == before.event_at(p));
                                        }
                                    }
                                }
                            },
                            None => {
                                proof {
                                    assert(!panel_ok(a@[i as int]));
                                }
                                return None;
                            },
                        }
                    }
                },
                None => {
                    proof {
                        assert(!panel_ok(a@[i as int]));
                    }
                    return None;
                },
            }
        }
        i += 1;
    }
    proof {
        assert(a@.take(i as int) =~= a@);
    }
    Some(list)
}

} // verus!
