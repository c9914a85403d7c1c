//! New books that arrive at the shop, day by day.

use std::collections::HashMap;

use vstd::prelude::*;

use crate::book::BookInformation;
use crate::date::GensoDate;
use crate::resource::GameResource;
use crate::scenario_table::{date_key, law_date_key_injective};

verus! {

broadcast use vstd::std_specs::hash::group_hash_axioms;

/// One line of a day's delivery: a title and how many copies of it arrive.
pub struct NewBookEntry {
    pub name: String,
    pub pages: usize,
    pub size: String,
    pub billing_number: u16,
    pub base_price: u32,
    pub num: i64,
}

/// The number of copies that a delivery line brings (none when negative).
pub open spec fn entry_copies(num: i64) -> int {
    if num < 0 {
        0
    } else {
        num as int
    }
}

/// The number of copies that all delivery lines bring.
pub open spec fn total_copies(entries: Seq<NewBookEntry>) -> int
    decreases entries.len(),
{
    if entries.len() == 0 {
        0
    } else {
        total_copies(entries.drop_last()) + entry_copies(entries.last().num)
    }
}

/// The ids that a delivery uses: one for each line, one for each copy.
pub open spec fn ids_used(entries: Seq<NewBookEntry>) -> int {
    entries.len() + total_copies(entries)
}

pub(crate) proof fn lemma_total_copies_prefix(entries: Seq<NewBookEntry>, k: int)
    requires
        0 <= k < entries.len(),
    ensures
        total_copies(entries.take(k + 1)) == total_copies(entries.take(k)) + entry_copies(
            entries[k].num,
        ),
        0 <= total_copies(entries.take(k)),
        total_copies(entries.take(k + 1)) <= total_copies(entries),
    decreases entries.len() - k,
{
    assert(entries.take(k + 1).drop_last() =~= entries.take(k));
    lemma_total_copies_nonneg(entries.take(k));
    if k + 1 < entries.len() {
        lemma_total_copies_prefix(entries, k + 1);
    } else {
        assert(entries.take(k + 1) =~= entries);
    }
}

pub(crate) proof fn lemma_total_copies_nonneg(entries: Seq<NewBookEntry>)
    ensures
        0 <= total_copies(entries),
    decreases entries.len(),
{
    if entries.len() > 0 {
        lemma_total_copies_nonneg(entries.drop_last());
    }
}

/// `b` is a copy of the title that the delivery line `e` names.
pub open spec fn copy_of_entry(b: BookInformation, e: NewBookEntry) -> bool {
    &&& b.spec_name() == e.name@
    &&& b.spec_pages() == e.pages
    &&& b.spec_size() == e.size@
    &&& b.spec_billing_number() == e.billing_number
    &&& b.spec_base_price() == e.base_price
}

/// The delivery lines, each repeated once for every copy it brings.
pub open spec fn line_of_each_copy(entries: Seq<NewBookEntry>) -> Seq<NewBookEntry>
    decreases entries.len(),
{
    if entries.len() == 0 {
        Seq::empty()
    } else {
        line_of_each_copy(entries.drop_last()) + Seq::new(
            entry_copies(entries.last().num) as nat,
            |_k: int| entries.last(),
        )
    }
}

proof fn lemma_line_of_each_copy_len(entries: Seq<NewBookEntry>)
    ensures
        line_of_each_copy(entries).len() == total_copies(entries),
    decreases entries.len(),
{
    if entries.len() > 0 {
        lemma_line_of_each_copy_len(entries.drop_last());
        lemma_total_copies_nonneg(entries.drop_last());
    }
}

/// `b` is a copy of one of the titles of `books`.
pub open spec fn copy_of_some(b: BookInformation, books: Seq<BookInformation>) -> bool {
    exists|i: int| 0 <= i < books.len() && b.same_title(&books[i])
}

/// The new books that arrive on one day.
pub struct DayNewBooks {
    new_books: Vec<BookInformation>,
}

impl DayNewBooks {
    pub closed spec fn spec_new_books(&self) -> Seq<BookInformation> {
        self.new_books@
    }

    /// The delivery that `entries` describe: for each line, as many fresh
    /// copies of the title as the line asks for.
    pub fn from_entries(entries: &Vec<NewBookEntry>, last_id: &mut u64) -> (r: Self)
        requires
            *old(last_id) + ids_used(entries@) <= u64::MAX,
        ensures
            r.spec_new_books().len() == total_copies(entries@),
            forall|k: int|
                0 <= k < r.spec_new_books().len() ==> copy_of_entry(
                    #[trigger] r.spec_new_books()[k],
                    line_of_each_copy(entries@)[k],
                ),
            forall|a: int, b: int|
                0 <= a < b < r.spec_new_books().len() ==> #[trigger] r.spec_new_books()[a].spec_unique_id()
                    < #[trigger] r.spec_new_books()[b].spec_unique_id(),
            forall|k: int|
                0 <= k < r.spec_new_books().len() ==> *old(last_id) < #[trigger] r.spec_new_books()[k].spec_unique_id()
                    <= *final(last_id),
            *final(last_id) == *old(last_id) + ids_used(entries@),
    {
        let mut new_books: Vec<BookInformation> = Vec::new();
        let mut i: usize = 0;
        while i < entries.len()
            invariant
                i <= entries@.len(),
                *old(last_id) + ids_used(entries@) <= u64::MAX,
                new_books@.len() == total_copies(entries@.take(i as int)),
                *last_id == *old(last_id) + i + total_copies(entries@.take(i as int)),
                forall|k: int|
                    0 <= k < new_books@.len() ==> copy_of_entry(
                        #[trigger] new_books@[k],
                        line_of_each_copy(entries@.take(i as int))[k],
                    ),
                forall|a: int, b: int|
                    0 <= a < b < new_books@.len() ==> #[trigger] new_books@[a].spec_unique_id()
                        < #[trigger] new_books@[b].spec_unique_id(),
                forall|k: int|
                    0 <= k < new_books@.len() ==> *old(last_id) < #[trigger] new_books@[k].spec_unique_id()
                        <= *last_id,
            decreases entries.len() - i,
        {
            proof {
                lemma_total_copies_prefix(entries@, i as int);
                lemma_line_of_each_copy_len(entries@.take(i as int));
                assert(entries@.take(i + 1).drop_last() =~= entries@.take(i as int));
            }
            let ghost before = line_of_each_copy(entries@.take(i as int));
            let entry = &entries[i];
            let book_info = BookInformation::new(
                entry.name.clone(),
                entry.pages,
                entry.size.clone(),
                entry.billing_number,
                entry.base_price,
                last_id,
            );
            let mut k: i64 = 0;
            while k < entry.num
                invariant
                    0 <= k,
                    k <= entry_copies(entry.num),
                    i < entries@.len(),
                    *entry == entries@[i as int],
                    *old(last_id) + ids_used(entries@) <= u64::MAX,
                    total_copies(entries@.take(i + 1)) <= total_copies(entries@),
                    total_copies(entries@.take(i + 1)) == total_copies(entries@.take(i as int))
                        + entry_copies(entry.num),
                    new_books@.len() == total_copies(entries@.take(i as int)) + k,
                    *last_id == *old(last_id) + i + 1 + total_copies(entries@.take(i as int)) + k,
                    before == line_of_each_copy(entries@.take(i as int)),
                    before.len() == total_copies(entries@.take(i as int)),
                    line_of_each_copy(entries@.take(i + 1)) == before + Seq::new(
                        entry_copies(entry.num) as nat,
                        |_j: int| entries@[i as int],
                    ),
                    copy_of_entry(book_info, *entry),
                    forall|j: int|
                        0 <= j < new_books@.len() ==> copy_of_entry(
                            #[trigger] new_books@[j],
                            line_of_each_copy(entries@.take(i + 1))[j],
                        ),
                    forall|a: int, b: int|
                        0 <= a < b < new_books@.len() ==> #[trigger] new_books@[a].spec_unique_id()
                            < #[trigger] new_books@[b].spec_unique_id(),
                    forall|j: int|
                        0 <= j < new_books@.len() ==> *old(last_id) < #[trigger] new_books@[j].spec_unique_id()
                            <= *last_id,
                decreases entry.num - k,
            {
                let copy = book_info.clone_with_new_id_condition(last_id);
                new_books.push(copy);
                k += 1;
            }
            i += 1;
        }
        proof {
            assert(entries@.take(i as int) =~= entries@);
        }
        DayNewBooks { new_books: new_books }
    }

    pub fn get_new_books(&self) -> (r: Vec<BookInformation>)
        ensures
            r@ == self.spec_new_books(),
    {
        let r = self.new_books.clone();
        assert(r@ =~= self.new_books@);
        r
    }

    /// A delivery of `num` titles drawn at random from the catalogue, `unit`
    /// fresh copies of each.
    pub fn random(resource: &GameResource, num: usize, unit: usize, last_id: &mut u64) -> (r: Self)
        requires
            resource.spec_books().len() > 0,
            *old(last_id) + num * unit <= u64::MAX,
        ensures
            r.spec_new_books().len() == num * unit,
            *final(last_id) == *old(last_id) + num * unit,
            forall|k: int|
                0 <= k < r.spec_new_books().len() ==> copy_of_some(
                    #[trigger] r.spec_new_books()[k],
                    resource.spec_books(),
                ),
    {
        let mut books: Vec<BookInformation> = Vec::new();
        let mut n: usize = 0;
        while n < num
            invariant
                n <= num,
                resource.spec_books().len() > 0,
                *old(last_id) + num * unit <= u64::MAX,
                books@.len() == n * unit,
                *last_id == *old(last_id) + n * unit,
                forall|k: int|
                    0 <= k < books@.len() ==> copy_of_some(#[trigger] books@[k], resource.spec_books()),
            decreases num - n,
        {
            proof {
                assert((n + 1) * unit <= num * unit) by (nonlinear_arith)
                    requires
                        n + 1 <= num,
                ;
                assert((n + 1) * unit == n * unit + unit) by (nonlinear_arith);
            }
            let info = resource.book_random_select();
            let mut u: usize = 0;
            while u < unit
                invariant
                    u <= unit,
                    n < num,
                    (n + 1) * unit <= num * unit,
                    (n + 1) * unit == n * unit + unit,
                    *old(last_id) + num * unit <= u64::MAX,
                    books@.len() == n * unit + u,
                    *last_id == *old(last_id) + n * unit + u,
                    exists|i: int| 0 <= i < resource.spec_books().len() && *info == resource.spec_books()[i],
                    forall|k: int|
                        0 <= k < books@.len() ==> copy_of_some(#[trigger] books@[k], resource.spec_books()),
                decreases unit - u,
            {
                let copy = info.clone_with_new_id_condition(last_id);
                let ghost prev = books@;
                books.push(copy);
                proof {
                    assert forall|k: int| 0 <= k < books@.len() implies copy_of_some(
                        #[trigger] books@[k],
                        resource.spec_books(),
                    ) by {
                        if k < prev.len() {
                            assert(books@[k] == prev[k]);
                        } else {
                            let i0 = choose|i: int|
                                0 <= i < resource.spec_books().len() && *info
                                    == resource.spec_books()[i];
                            assert(books@[k].same_title(&resource.spec_books()[i0]));
                        }
                    }
                }
                u += 1;
            }
            n += 1;
        }
        DayNewBooks { new_books: books }
    }
}

/// The new books that arrive on each day of the calendar.
pub struct NewBookSchedule {
    new_book_schedule: HashMap<u64, DayNewBooks>,
}

impl NewBookSchedule {
    /// Whether a delivery is filed for `date`.
    pub closed spec fn has_delivery(&self, date: GensoDate) -> bool {
        self.new_book_schedule@.contains_key(date_key(date))
    }

    /// The books of the delivery filed for `date`.
    pub closed spec fn delivery(&self, date: GensoDate) -> Seq<BookInformation> {
        self.new_book_schedule@[date_key(date)].spec_new_books()
    }

    /// The schedule that `entries` describe; a later entry for a day replaces
    /// an earlier one.
    pub fn from_entries(entries: Vec<(GensoDate, DayNewBooks)>) -> (r: Self)
        ensures
            forall|d: GensoDate|
                #![trigger r.has_delivery(d)]
                r.has_delivery(d) == exists|i: int| 0 <= i < entries@.len() && entries@[i].0 == d,
            forall|d: GensoDate|
                #![trigger r.delivery(d)]
                r.has_delivery(d) ==> exists|i: int|
                    0 <= i < entries@.len() && entries@[i].0 == d && r.delivery(d)
                        == entries@[i].1.spec_new_books() && forall|j: int|
                        i < j < entries@.len() ==> entries@[j].0 != d,
    {
        let mut schedule_map: HashMap<u64, DayNewBooks> = HashMap::new();
        let mut entries = entries;
        let ghost all = entries@;
        let mut n: usize = entries.len();
        while n > 0
            invariant
                n == entries@.len(),
                n <= all.len(),
                entries@ == all.take(n as int),
                forall|d: GensoDate|
                    #![trigger date_key(d)]
                    schedule_map@.contains_key(date_key(d)) == exists|i: int|
                        n <= i < all.len() && all[i].0 == d,
                forall|d: GensoDate|
                    #![trigger date_key(d)]
                    schedule_map@.contains_key(date_key(d)) ==> exists|i: int|
                        n <= i < all.len() && all[i].0 == d && schedule_map@[date_key(d)] == all[i].1
                            && forall|j: int| i < j < all.len() ==> all[j].0 != d,
            decreases n,
        {
            let (date, day_new_books) = entries.pop().unwrap();
            n -= 1;
            let key = date_key_of(&date);
            let ghost old_map = schedule_map@;
            if !schedule_map.contains_key(&key) {
                schedule_map.insert(key, day_new_books);
            }
            proof {
                assert(entries@ =~= all.take(n as int));
                assert forall|d: GensoDate| #![trigger date_key(d)]
                    schedule_map@.contains_key(date_key(d)) == exists|i: int|
                        n <= i < all.len() && all[i].0 == d by {
                    law_date_key_injective(d, date);
                    if d == date {
                        assert(all[n as int].0 == d);
                    }
                }
                assert forall|d: GensoDate| #![trigger date_key(d)]
                    schedule_map@.contains_key(date_key(d)) implies exists|i: int|
                        n <= i < all.len() && all[i].0 == d && schedule_map@[date_key(d)] == all[i].1
                            && forall|j: int| i < j < all.len() ==> all[j].0 != d by {
                    law_date_key_injective(d, date);
                    if d == date && !old_map.contains_key(date_key(d)) {
                        assert(all[n as int].0 == d);
                        assert forall|j: int| n < j < all.len() implies all[j].0 != d by {
                            if all[j].0 == d {
                                assert(old_map.contains_key(date_key(d)));
                            }
                        }
                    }
                }
            }
        }
        proof {
            assert(all.take(0) =~= Seq::<(GensoDate, DayNewBooks)>::empty());
        }
        let r = NewBookSchedule { new_book_schedule: schedule_map };
        assert forall|d: GensoDate| #![trigger r.delivery(d)] r.has_delivery(d) implies exists|i: int|
            0 <= i < all.len() && all[i].0 == d && r.delivery(d) == all[i].1.spec_new_books()
                && forall|j: int| i < j < all.len() ==> all[j].0 != d by {
            assert(date_key(d) == date_key(d));
        }
        r
    }

    /// The delivery filed for `date`, if there is one.
    pub fn get_schedule_at(&self, date: &GensoDate) -> (r: Option<&DayNewBooks>)
        ensures
            r is Some == self.has_delivery(*date),
            r matches Some(b) ==> b.spec_new_books() == self.delivery(*date),
    {
        self.new_book_schedule.get(&date_key_of(date))
    }
}

fn date_key_of(d: &GensoDate) -> (r: u64)
    ensures
        r == date_key(*d),
{
    d.season as u64 * 65536 + d.month as u64 * 256 + d.day as u64
}

} // verus!
