//! Lending and returning: the requests customers bring to the counter, the
//! pool of books that customers may have at home, and the pool of returning
//! requests.

use vstd::multiset::Multiset;
use vstd::prelude::*;
use vstd::string::StringExecFns;

use crate::book::BookInformation;
use crate::date::{
    add_day_ok, advance, diff_day_ok, law_add_day_compose, rental_days, rental_limit_of,
    GensoDate, RentalLimit,
};
use crate::random::{random_u32, random_usize};
use crate::util::roll_index;
use crate::resource::GameResource;
use crate::text::str_equals;

verus! {

broadcast use vstd::seq_lib::group_to_multiset_ensures;

/// Sum of the base prices of `books`.
pub open spec fn total_price(books: Seq<BookInformation>) -> int
    decreases books.len(),
{
    if books.len() == 0 {
        0
    } else {
        total_price(books.drop_last()) + books.last().spec_base_price()
    }
}

/// The fee of a rental period, in percent of the books' base prices.
pub open spec fn fee_percent(limit: RentalLimit) -> int {
    match limit {
        RentalLimit::ShortTerm => 100,
        RentalLimit::LongTerm => 150,
        RentalLimit::Today => 0,
    }
}

/// `s` after the item at `i` was taken out and the last item put in its place.
pub open spec fn swap_removed<T>(s: Seq<T>, i: int) -> Seq<T> {
    s.update(i, s.last()).drop_last()
}

/// No two of `books` have the same name.
pub open spec fn distinct_titles(books: Seq<BookInformation>) -> bool {
    forall|a: int, b: int|
        0 <= a < b < books.len() ==> #[trigger] books[a].spec_name() != #[trigger] books[b].spec_name()
}

/// `b` is one of `books`.
pub open spec fn in_catalogue(b: BookInformation, books: Seq<BookInformation>) -> bool {
    exists|i: int| 0 <= i < books.len() && b == books[i]
}

/// Some book of `books` has the name `name`.
pub open spec fn has_title(books: Seq<BookInformation>, name: Seq<char>) -> bool {
    exists|i: int| 0 <= i < books.len() && #[trigger] books[i].spec_name() == name
}

/// The pool and the copies taken after drawing with `rolls`, one roll a
/// round, from the pool `books` with `picked` already taken: each round takes
/// the copy at the rolled position out of the pool (the last copy takes its
/// place) and keeps it, unless a kept copy has its name, when it goes back to
/// the end of the pool.  The drawing stops when the pool is empty.
pub open spec fn draw_rounds(
    books: Seq<BookInformation>,
    picked: Seq<BookInformation>,
    rolls: Seq<usize>,
) -> (Seq<BookInformation>, Seq<BookInformation>)
    decreases rolls.len(),
{
    if rolls.len() == 0 || books.len() == 0 {
        (books, picked)
    } else {
        let i = roll_index(rolls[0], books.len());
        let b = books[i];
        let rest = swap_removed(books, i);
        if has_title(picked, b.spec_name()) {
            draw_rounds(rest.push(b), picked, rolls.drop_first())
        } else {
            draw_rounds(rest, picked.push(b), rolls.drop_first())
        }
    }
}

/// The number of rounds that the roll `count_roll` asks for: one to five.
pub open spec fn draw_count(count_roll: u32) -> int {
    count_roll as int % 5 + 1
}

fn has_title_named(books: &Vec<BookInformation>, name: &str) -> (r: bool)
    ensures
        r == has_title(books@, name@),
{
    let mut i: usize = 0;
    while i < books.len()
        invariant
            i <= books@.len(),
            forall|j: int| 0 <= j < i ==> #[trigger] books@[j].spec_name() != name@,
        decreases books.len() - i,
    {
        if str_equals(books[i].get_name(), name) {
            return true;
        }
        i += 1;
    }
    false
}

proof fn lemma_multiset_reinsert<A>(m: Multiset<A>, x: A)
    requires
        m.count(x) > 0,
    ensures
        m.remove(x).insert(x) =~= m,
{
}

/// Taking out element `i` with `swap_remove` leaves the other elements.
pub(crate) proof fn lemma_swap_remove_multiset<A>(s: Seq<A>, i: int)
    requires
        0 <= i < s.len(),
    ensures
        s.update(i, s.last()).drop_last().to_multiset().insert(s[i]) =~= s.to_multiset(),
{
    let t = s.update(i, s.last());
    let v = s.last();
    assert(t.remove(i) =~= s.remove(i));
    assert(t[i] == v);
    assert(t.remove(i).to_multiset() =~= t.to_multiset().remove(v));
    assert(s.remove(i).to_multiset() =~= s.to_multiset().remove(s[i]));
    assert(t.to_multiset().count(v) > 0) by {
        assert(t.contains(v));
    }
    lemma_multiset_reinsert(t.to_multiset(), v);
    assert(t.to_multiset() =~= s.to_multiset().remove(s[i]).insert(v));
    assert(t =~= t.drop_last().push(t.last()));
    assert(t.last() == v);
    assert(t.to_multiset() =~= t.drop_last().to_multiset().insert(v));
    assert(t.drop_last().to_multiset() =~= s.to_multiset().remove(s[i])) by {
        assert forall|x: A| #[trigger] t.drop_last().to_multiset().count(x) == s.to_multiset().remove(
            s[i],
        ).count(x) by {
            assert(t.drop_last().to_multiset().insert(v).count(x) == s.to_multiset().remove(
                s[i],
            ).insert(v).count(x));
        }
    }
    assert(s.to_multiset().count(s[i]) > 0) by {
        assert(s.contains(s[i]));
    }
    lemma_multiset_reinsert(s.to_multiset(), s[i]);
}

proof fn lemma_total_price_push(books: Seq<BookInformation>, b: BookInformation)
    ensures
        total_price(books.push(b)) == total_price(books) + b.spec_base_price(),
{
    assert(books.push(b).drop_last() =~= books);
}

/// A customer's request to borrow books.
pub struct BorrowingInformation {
    pub borrowing: Vec<BookInformation>,
    pub borrower: String,
    pub borrow_date: GensoDate,
    pub return_date: GensoDate,
    pub rental_limit: RentalLimit,
}

impl BorrowingInformation {
    /// A request to borrow `borrowing` on `borrow_date`; the books are due back
    /// after the rental period.
    pub fn new(
        borrowing: Vec<BookInformation>,
        borrower: &str,
        borrow_date: GensoDate,
        rental_limit: RentalLimit,
    ) -> (r: Self)
        requires
            add_day_ok(borrow_date, rental_days(rental_limit)),
        ensures
            r.borrowing@ == borrowing@,
            r.borrower@ == borrower@,
            r.borrow_date == borrow_date,
            r.return_date == advance(borrow_date, rental_days(rental_limit)),
            r.rental_limit == rental_limit,
    {
        let mut return_date = borrow_date;

        match rental_limit {
            RentalLimit::Today => return_date.add_day(0),
            RentalLimit::ShortTerm => return_date.add_day(7),
            RentalLimit::LongTerm => return_date.add_day(14),
        }

        BorrowingInformation {
            borrowing: borrowing,
            borrower: String::from_str(borrower),
            borrow_date: borrow_date,
            return_date: return_date,
            rental_limit: rental_limit,
        }
    }

    /// The rental fee: the books' base prices, times the rate of the rental
    /// period, rounded down.  The prices must add up to less than a third of
    /// 2^24, the range in which the rate's single-precision product is exact.
    pub fn calc_fee(&self) -> (r: i32)
        requires
            3 * total_price(self.borrowing@) < 0x100_0000,
        ensures
            r == total_price(self.borrowing@) * fee_percent(self.rental_limit) / 100,
    {
        let mut sum: u32 = 0;
        let mut i: usize = 0;
        while i < self.borrowing.len()
            invariant
                i <= self.borrowing@.len(),
                sum == total_price(self.borrowing@.take(i as int)),
                3 * total_price(self.borrowing@) < 0x100_0000,
            decreases self.borrowing.len() - i,
        {
            proof {
                assert(self.borrowing@.take(i + 1) =~= self.borrowing@.take(i as int).push(
                    self.borrowing@[i as int],
                ));
                lemma_total_price_push(self.borrowing@.take(i as int), self.borrowing@[i as int]);
                lemma_total_price_prefix(self.borrowing@, i + 1);
            }
            sum = sum + self.borrowing[i].get_base_price();
            i += 1;
        }
        proof {
            assert(self.borrowing@.take(i as int) =~= self.borrowing@);
        }
        let percent: u64 = match self.rental_limit {
            RentalLimit::ShortTerm => 100,
            RentalLimit::LongTerm => 150,
            RentalLimit::Today => 0,
        };
        (sum as u64 * percent / 100) as i32
    }
}

proof fn lemma_total_price_prefix(books: Seq<BookInformation>, k: int)
    requires
        0 <= k <= books.len(),
    ensures
        0 <= total_price(books.take(k)) <= total_price(books),
    decreases books.len() - k,
{
    if k < books.len() {
        lemma_total_price_prefix(books, k + 1);
        assert(books.take(k + 1) =~= books.take(k).push(books[k]));
        lemma_total_price_push(books.take(k), books[k]);
    } else {
        assert(books.take(k) =~= books);
    }
    lemma_total_price_nonneg(books.take(k));
}

proof fn lemma_total_price_nonneg(books: Seq<BookInformation>)
    ensures
        0 <= total_price(books),
    decreases books.len(),
{
    if books.len() > 0 {
        lemma_total_price_nonneg(books.drop_last());
    }
}

/// A customer's request to return books.
pub struct ReturnBookInformation {
    pub returning: Vec<BookInformation>,
    pub borrower: String,
    pub borrow_date: GensoDate,
    pub return_date: GensoDate,
}

impl ReturnBookInformation {
    pub fn new(
        returning: Vec<BookInformation>,
        borrower: &str,
        borrow_date: GensoDate,
        return_date: GensoDate,
    ) -> (r: Self)
        ensures
            r.returning@ == returning@,
            r.borrower@ == borrower@,
            r.borrow_date == borrow_date,
            r.return_date == return_date,
    {
        ReturnBookInformation {
            returning: returning,
            borrower: String::from_str(borrower),
            borrow_date,
            return_date,
        }
    }

    /// A request by a customer of the catalogue to return one to five books
    /// of the catalogue, all drawn at random.
    pub fn new_random(game_data: &GameResource, borrow_date: GensoDate, return_date: GensoDate) -> (r:
        Self)
        requires
            game_data.spec_books().len() > 0,
            game_data.spec_customers().len() > 0,
        ensures
            1 <= r.returning@.len() <= 5,
            forall|k: int|
                0 <= k < r.returning@.len() ==> in_catalogue(
                    #[trigger] r.returning@[k],
                    game_data.spec_books(),
                ),
            exists|i: int|
                0 <= i < game_data.spec_customers().len() && r.borrower@
                    == game_data.spec_customers()[i]@,
            r.borrow_date == borrow_date,
            r.return_date == return_date,
    {
        let borrowing_num = (random_u32() % 5) + 1;
        let mut borrow_books: Vec<BookInformation> = Vec::new();
        let mut k: u32 = 0;
        while k < borrowing_num
            invariant
                k <= borrowing_num <= 5,
                borrow_books@.len() == k,
                game_data.spec_books().len() > 0,
                forall|j: int|
                    0 <= j < borrow_books@.len() ==> in_catalogue(
                        #[trigger] borrow_books@[j],
                        game_data.spec_books(),
                    ),
            decreases borrowing_num - k,
        {
            borrow_books.push(game_data.book_random_select().clone());
            k += 1;
        }

        let r = Self::new(borrow_books, game_data.customer_random_select(), borrow_date, return_date);
        assert(r.returning@ == borrow_books@);
        r
    }

    /// The rental period that the two dates make.
    pub fn get_rental_limit(&self) -> (r: RentalLimit)
        requires
            diff_day_ok(self.borrow_date, self.return_date),
            rental_limit_of(self.borrow_date, self.return_date) is Some,
        ensures
            Some(r) == rental_limit_of(self.borrow_date, self.return_date),
    {
        self.borrow_date.rental_limit_type(&self.return_date).unwrap()
    }
}

/// The copies of books that customers may have at home, out of which lending
/// and returning requests are made.
pub struct SuzunaBookPool {
    books: Vec<BookInformation>,
}

impl SuzunaBookPool {
    pub closed spec fn spec_books(&self) -> Seq<BookInformation> {
        self.books@
    }

    /// Five fresh copies of every book of the catalogue, each with its own id.
    pub fn new(game_data: &GameResource, last_id: &mut u64) -> (r: Self)
        requires
            *old(last_id) + 5 * game_data.spec_books().len() <= u64::MAX,
        ensures
            r.spec_books().len() == 5 * game_data.spec_books().len(),
            forall|k: int|
                0 <= k < r.spec_books().len() ==> #[trigger] r.spec_books()[k].same_title(
                    &game_data.spec_books()[k / 5],
                ),
            forall|k: int|
                0 <= k < r.spec_books().len() ==> #[trigger] r.spec_books()[k].spec_unique_id()
                    == *old(last_id) + k + 1,
            *final(last_id) == *old(last_id) + 5 * game_data.spec_books().len(),
    {
        let catalogue = game_data.iter_available_books();
        let mut books: Vec<BookInformation> = Vec::new();
        let mut i: usize = 0;
        while i < catalogue.len()
            invariant
                i <= catalogue@.len(),
                catalogue@ == game_data.spec_books(),
                *old(last_id) + 5 * catalogue@.len() <= u64::MAX,
                books@.len() == 5 * i,
                *last_id == *old(last_id) + 5 * i,
                forall|k: int|
                    0 <= k < books@.len() ==> #[trigger] books@[k].same_title(&catalogue@[k / 5]),
                forall|k: int|
                    0 <= k < books@.len() ==> #[trigger] books@[k].spec_unique_id() == *old(last_id)
                        + k + 1,
            decreases catalogue.len() - i,
        {
            let book_info = &catalogue[i];
            let mut j: usize = 0;
            while j < 5
                invariant
                    j <= 5,
                    i < catalogue@.len(),
                    *book_info == catalogue@[i as int],
                    *old(last_id) + 5 * catalogue@.len() <= u64::MAX,
                    books@.len() == 5 * i + j,
                    *last_id == *old(last_id) + 5 * i + j,
                    forall|k: int|
                        0 <= k < books@.len() ==> #[trigger] books@[k].same_title(&catalogue@[k / 5]),
                    forall|k: int|
                        0 <= k < books@.len() ==> #[trigger] books@[k].spec_unique_id() == *old(
                            last_id,
                        ) + k + 1,
                decreases 5 - j,
            {
                let cloned = book_info.clone_with_new_id_condition(last_id);
                books.push(cloned);
                j += 1;
            }
            i += 1;
        }
        SuzunaBookPool { books: books }
    }

    /// A pool holding the given copies, as a saved game holds them.
    pub fn from_books(books: Vec<BookInformation>) -> (r: Self)
        ensures
            r.spec_books() == books@,
    {
        SuzunaBookPool { books }
    }

    /// The copies in the pool.
    pub fn get_books(&self) -> (r: &[BookInformation])
        ensures
            r@ == self.spec_books(),
    {
        self.books.as_slice()
    }

    pub fn push_book(&mut self, book_info: BookInformation)
        ensures
            final(self).spec_books() == old(self).spec_books().push(book_info),
    {
        self.books.push(book_info);
    }

    pub fn push_book_vec(&mut self, book_info_vec: Vec<BookInformation>)
        ensures
            final(self).spec_books() == old(self).spec_books() + book_info_vec@,
    {
        let mut more = book_info_vec;
        self.books.append(&mut more);
    }

    /// Takes copies out of the pool as `draw_rounds` describes, with as many of
    /// `rolls` as `count_roll` asks for; no two copies taken have the same name.
    pub fn draw_distinct_titles_with(&mut self, count_roll: u32, rolls: &[usize]) -> (picked: Vec<
        BookInformation,
    >)
        requires
            rolls@.len() >= draw_count(count_roll),
        ensures
            (final(self).spec_books(), picked@) == draw_rounds(
                old(self).spec_books(),
                Seq::empty(),
                rolls@.take(draw_count(count_roll)),
            ),
            old(self).spec_books().to_multiset() =~= final(self).spec_books().to_multiset().add(
                picked@.to_multiset(),
            ),
            picked@.len() <= 5,
            old(self).spec_books().len() > 0 ==> picked@.len() > 0,
            distinct_titles(picked@),
    {
        let ghost old_books = self.books@;
        let count = (count_roll % 5) + 1;
        let ghost todo = rolls@.take(count as int);
        let mut picked: Vec<BookInformation> = Vec::new();
        let mut round: u32 = 0;
        proof {
            assert(todo.skip(0) =~= todo);
        }
        while round < count && self.books.len() > 0
            invariant
                1 <= count <= 5,
                count == draw_count(count_roll),
                rolls@.len() >= count,
                todo == rolls@.take(count as int),
                round <= count,
                picked@.len() <= round,
                draw_rounds(old_books, Seq::empty(), todo) == draw_rounds(
                    self.books@,
                    picked@,
                    todo.skip(round as int),
                ),
                old_books.to_multiset() =~= self.books@.to_multiset().add(picked@.to_multiset()),
                distinct_titles(picked@),
                old_books.len() > 0 && round > 0 ==> picked@.len() > 0,
            decreases count - round,
        {
            let ghost before = self.books@;
            let ghost before_picked = picked@;
            let ghost rest_rolls = todo.skip(round as int);
            proof {
                assert(rest_rolls[0] == rolls@[round as int]);
                assert(rest_rolls.drop_first() =~= todo.skip(round + 1));
            }
            let i = rolls[round as usize] % self.books.len();
            round += 1;
            let book_info = self.books.swap_remove(i);
            proof {
                lemma_swap_remove_multiset(before, i as int);
            }
            if has_title_named(&picked, book_info.get_name()) {
                self.books.push(book_info);
                proof {
                    assert(self.books@.to_multiset() =~= before.to_multiset());
                }
            } else {
                let ghost prev = picked@;
                picked.push(book_info);
                proof {
                    assert(picked@.to_multiset() =~= prev.to_multiset().insert(book_info));
                    assert forall|a: int, b: int|
                        0 <= a < b < picked@.len() implies #[trigger] picked@[a].spec_name()
                        != #[trigger] picked@[b].spec_name() by {
                        if b == prev.len() {
                            assert(picked@[a] == prev[a]);
                        } else {
                            assert(picked@[a] == prev[a]);
                            assert(picked@[b] == prev[b]);
                        }
                    }
                }
            }
        }
        proof {
            if old_books.len() > 0 && picked@.len() == 0 {
                assert(picked@.to_multiset() =~= Multiset::empty());
                assert(self.books@.to_multiset().add(picked@.to_multiset())
                    =~= self.books@.to_multiset());
                assert(old_books.to_multiset() =~= self.books@.to_multiset());
                assert(old_books.to_multiset().len() == old_books.len());
                assert(self.books@.to_multiset().len() == self.books@.len());
            }
            if round == count {
                assert(todo.skip(round as int).len() == 0);
            }
        }
        picked
    }

    /// Takes between one and five copies out of the pool, at random, so that no
    /// two of them have the same name; fewer when the pool runs out.  A copy
    /// whose name was already taken goes back into the pool.  The rolls are
    /// drawn at random and handed to `draw_distinct_titles_with`.
    fn draw_distinct_titles(&mut self) -> (picked: Vec<BookInformation>)
        ensures
            exists|count_roll: u32, rolls: Seq<usize>|
                rolls.len() == 5 && (final(self).spec_books(), picked@) == #[trigger] draw_rounds(
                    old(self).spec_books(),
                    Seq::empty(),
                    rolls.take(draw_count(count_roll)),
                ),
            old(self).spec_books().to_multiset() =~= final(self).spec_books().to_multiset().add(
                picked@.to_multiset(),
            ),
            picked@.len() <= 5,
            old(self).spec_books().len() > 0 ==> picked@.len() > 0,
            distinct_titles(picked@),
    {
        let count_roll = random_u32();
        let rolls: Vec<usize> = vec![random_usize(), random_usize(), random_usize(), random_usize(), random_usize()];
        self.draw_distinct_titles_with(count_roll, rolls.as_slice())
    }

    /// A request to borrow between one and five books of different names out of
    /// the pool, drawn at random; the books leave the pool.
    pub fn generate_borrowing_request(
        &mut self,
        customer_name: &str,
        borrow_date: GensoDate,
        rental_limit: RentalLimit,
    ) -> (r: BorrowingInformation)
        requires
            add_day_ok(borrow_date, rental_days(rental_limit)),
        ensures
            exists|count_roll: u32, rolls: Seq<usize>|
                rolls.len() == 5 && (final(self).spec_books(), r.borrowing@) == #[trigger] draw_rounds(
                    old(self).spec_books(),
                    Seq::empty(),
                    rolls.take(draw_count(count_roll)),
                ),
            old(self).spec_books().to_multiset() =~= final(self).spec_books().to_multiset().add(
                r.borrowing@.to_multiset(),
            ),
            r.borrowing@.len() <= 5,
            old(self).spec_books().len() > 0 ==> r.borrowing@.len() > 0,
            distinct_titles(r.borrowing@),
            r.borrower@ == customer_name@,
            r.borrow_date == borrow_date,
            r.return_date == advance(borrow_date, rental_days(rental_limit)),
            r.rental_limit == rental_limit,
    {
        let borrowing_books = self.draw_distinct_titles();
        BorrowingInformation::new(borrowing_books, customer_name, borrow_date, rental_limit)
    }

    /// A request to return between one and five books of different names out
    /// of the pool, drawn at random; the books leave the pool.
    pub fn generate_returning_request(
        &mut self,
        customer_name: &str,
        borrow_date: GensoDate,
        rental_limit: RentalLimit,
    ) -> (r: ReturnBookInformation)
        requires
            rental_limit != RentalLimit::Today ==> add_day_ok(borrow_date, rental_days(rental_limit)),
        ensures
            exists|count_roll: u32, rolls: Seq<usize>|
                rolls.len() == 5 && (final(self).spec_books(), r.returning@) == #[trigger] draw_rounds(
                    old(self).spec_books(),
                    Seq::empty(),
                    rolls.take(draw_count(count_roll)),
                ),
            old(self).spec_books().to_multiset() =~= final(self).spec_books().to_multiset().add(
                r.returning@.to_multiset(),
            ),
            r.returning@.len() <= 5,
            old(self).spec_books().len() > 0 ==> r.returning@.len() > 0,
            distinct_titles(r.returning@),
            r.borrower@ == customer_name@,
            r.borrow_date == borrow_date,
            r.return_date == (if rental_limit == RentalLimit::Today {
                borrow_date
            } else {
                advance(borrow_date, rental_days(rental_limit))
            }),
    {
        let returning_books = self.draw_distinct_titles();

        let mut return_date = borrow_date;
        match rental_limit {
            RentalLimit::ShortTerm => return_date.add_day(7),
            RentalLimit::LongTerm => return_date.add_day(14),
            _ => (),
        };

        ReturnBookInformation {
            returning: returning_books,
            borrower: String::from_str(customer_name),
            borrow_date: borrow_date,
            return_date: return_date,
        }
    }
}

/// Law: books that a request took out of the pool and that come back to it
/// with `push_book_vec` leave the pool holding the same copies as before.
pub proof fn law_drawn_books_come_back(
    before: Seq<BookInformation>,
    after_draw: Seq<BookInformation>,
    drawn: Seq<BookInformation>,
)
    requires
        before.to_multiset() =~= after_draw.to_multiset().add(drawn.to_multiset()),
    ensures
        (after_draw + drawn).to_multiset() =~= before.to_multiset(),
{
    vstd::seq_lib::lemma_multiset_commutative(after_draw, drawn);
}

/// All the books of a list of returning requests, request after request.
pub open spec fn all_returning(requests: Seq<ReturnBookInformation>) -> Seq<BookInformation>
    decreases requests.len(),
{
    if requests.len() == 0 {
        Seq::empty()
    } else {
        all_returning(requests.drop_last()) + requests.last().returning@
    }
}

/// The first day of the returning requests made on `today`: a week earlier,
/// counted by the day of the month alone.
pub open spec fn returning_start(today: GensoDate) -> GensoDate {
    GensoDate { season: today.season, month: today.month, day: (today.day - 7) as u8 }
}

/// The borrowing day of the requests made for the `k`-th day of the week that
/// starts on `start`: the start itself, then the days one by one after it.
pub open spec fn request_day(start: GensoDate, k: int) -> GensoDate {
    if k == 0 {
        start
    } else {
        advance(start, k)
    }
}

/// The returning requests that customers will bring.
pub struct ReturningRequestPool {
    returning_request: Vec<ReturnBookInformation>,
}

impl ReturningRequestPool {
    pub closed spec fn spec_requests(&self) -> Seq<ReturnBookInformation> {
        self.returning_request@
    }

    /// Two requests for each of the seven days before `today`, made by
    /// customers of the catalogue out of `book_pool`, for a short or a long
    /// period at random.
    pub fn new(book_pool: &mut SuzunaBookPool, game_data: &GameResource, today: GensoDate) -> (r:
        Self)
        requires
            today.day >= 7,
            add_day_ok(returning_start(today), 20),
            game_data.spec_customers().len() > 0,
        ensures
            r.spec_requests().len() == 14,
            old(book_pool).spec_books().to_multiset() =~= final(book_pool).spec_books().to_multiset().add(
                all_returning(r.spec_requests()).to_multiset(),
            ),
            forall|k: int|
                0 <= k < 14 ==> {
                    let q = #[trigger] r.spec_requests()[k];
                    let day = request_day(returning_start(today), k / 2);
                    &&& q.borrow_date == day
                    &&& (q.return_date == advance(day, 7) || q.return_date == advance(day, 14))
                    &&& exists|i: int|
                        0 <= i < game_data.spec_customers().len() && q.borrower@
                            == game_data.spec_customers()[i]@
                },
    {
        let mut returning_request: Vec<ReturnBookInformation> = Vec::new();

        let mut day = today;
        day.day -= 7;
        let ghost start = day;
        proof {
            assert(start == returning_start(today));
        }

        let mut n: u32 = 0;
        while n < 7
            invariant
                n <= 7,
                add_day_ok(start, 20),
                day == request_day(start, n as int),
                game_data.spec_customers().len() > 0,
                returning_request@.len() == 2 * n,
                old(book_pool).spec_books().to_multiset() =~= book_pool.spec_books().to_multiset().add(
                    all_returning(returning_request@).to_multiset(),
                ),
                forall|k: int|
                    0 <= k < returning_request@.len() ==> {
                        let q = #[trigger] returning_request@[k];
                        let d = request_day(start, k / 2);
                        &&& q.borrow_date == d
                        &&& (q.return_date == advance(d, 7) || q.return_date == advance(d, 14))
                        &&& exists|i: int|
                            0 <= i < game_data.spec_customers().len() && q.borrower@
                                == game_data.spec_customers()[i]@
                    },
            decreases 7 - n,
        {
            proof {
                law_add_day_compose(start, n + 14, 6 - n);
                law_add_day_compose(start, n + 1, 19 - n);
                if n > 0 {
                    law_add_day_compose(start, n as int, 14);
                    law_add_day_compose(start, n as int, 1);
                }
                law_add_day_compose(day, 7, 7);
            }
            let mut m: u32 = 0;
            while m < 2
                invariant
                    m <= 2,
                    n < 7,
                    add_day_ok(day, 14),
                    add_day_ok(day, 7),
                    day == request_day(start, n as int),
                    game_data.spec_customers().len() > 0,
                    returning_request@.len() == 2 * n + m,
                    old(book_pool).spec_books().to_multiset() =~= book_pool.spec_books().to_multiset().add(
                        all_returning(returning_request@).to_multiset(),
                    ),
                    forall|k: int|
                        0 <= k < returning_request@.len() ==> {
                            let q = #[trigger] returning_request@[k];
                            let d = request_day(start, k / 2);
                            &&& q.borrow_date == d
                            &&& (q.return_date == advance(d, 7) || q.return_date == advance(d, 14))
                            &&& exists|i: int|
                                0 <= i < game_data.spec_customers().len() && q.borrower@
                                    == game_data.spec_customers()[i]@
                        },
                decreases 2 - m,
            {
                let rental_limit = if random_u32() % 2 == 0 {
                    RentalLimit::ShortTerm
                } else {
                    RentalLimit::LongTerm
                };
                let ghost pool_before = book_pool.spec_books();
                let ghost requests_before = returning_request@;
                let request = book_pool.generate_returning_request(
                    game_data.customer_random_select(),
                    day,
                    rental_limit,
                );
                returning_request.push(request);
                proof {
                    assert(returning_request@.drop_last() =~= requests_before);
                    assert(all_returning(returning_request@) =~= all_returning(requests_before)
                        + request.returning@);
                    vstd::seq_lib::lemma_multiset_commutative(
                        all_returning(requests_before),
                        request.returning@,
                    );
                    assert((2 * n + m) / 2 == n);
                }
                m += 1;
            }
            day.add_day(1);
            n += 1;
        }

        ReturningRequestPool { returning_request: returning_request }
    }

    /// A pool holding the given requests, as a saved game holds them.
    pub fn from_requests(requests: Vec<ReturnBookInformation>) -> (r: Self)
        ensures
            r.spec_requests() == requests@,
    {
        ReturningRequestPool { returning_request: requests }
    }

    /// Files the return of the books that `borrow_info` lends.
    pub fn add_request(&mut self, borrow_info: BorrowingInformation)
        ensures
            final(self).spec_requests().len() == old(self).spec_requests().len() + 1,
            final(self).spec_requests().drop_last() == old(self).spec_requests(),
            ({
                let q = final(self).spec_requests().last();
                &&& q.returning@ == borrow_info.borrowing@
                &&& q.borrower@ == borrow_info.borrower@
                &&& q.borrow_date == borrow_info.borrow_date
                &&& q.return_date == borrow_info.return_date
            }),
    {
        let returning_book_info = ReturnBookInformation::new(
            borrow_info.borrowing,
            borrow_info.borrower.as_str(),
            borrow_info.borrow_date,
            borrow_info.return_date,
        );
        self.returning_request.push(returning_book_info);
    }

    /// Takes out of the pool the request that the roll `roll` picks, the one
    /// at `roll` modulo the number of requests; the last request takes its
    /// place.
    pub fn take_request_at(&mut self, roll: usize) -> (r: ReturnBookInformation)
        requires
            old(self).spec_requests().len() > 0,
        ensures
            ({
                let i = roll_index(roll, old(self).spec_requests().len());
                &&& r == old(self).spec_requests()[i]
                &&& final(self).spec_requests() == swap_removed(old(self).spec_requests(), i)
            }),
            old(self).spec_requests().to_multiset() =~= final(self).spec_requests().to_multiset().insert(r),
    {
        let ghost before = self.returning_request@;
        let i = roll % self.returning_request.len();
        let q = self.returning_request.swap_remove(i);
        proof {
            lemma_swap_remove_multiset(before, i as int);
        }
        q
    }

    /// Takes one of the requests out of the pool, at random: the one that a
    /// random roll picks with `take_request_at`.
    pub fn select_returning_request_random(&mut self) -> (r: Option<ReturnBookInformation>)
        ensures
            old(self).spec_requests().len() == 0 ==> r is None && final(self).spec_requests() == old(
                self,
            ).spec_requests(),
            old(self).spec_requests().len() > 0 ==> (r matches Some(q) && exists|roll: usize|
                {
                    let i = #[trigger] roll_index(roll, old(self).spec_requests().len());
                    &&& q == old(self).spec_requests()[i]
                    &&& final(self).spec_requests() == swap_removed(old(self).spec_requests(), i)
                }),
            old(self).spec_requests().len() > 0 ==> (r matches Some(q) && old(
                self,
            ).spec_requests().to_multiset() =~= final(self).spec_requests().to_multiset().insert(q)),
    {
        if self.returning_request.len() == 0 {
            return None;
        }
        let roll = random_usize();
        Some(self.take_request_at(roll))
    }

    /// The requests in the pool.
    pub fn iter(&self) -> (r: &[ReturnBookInformation])
        ensures
            r@ == self.spec_requests(),
    {
        self.returning_request.as_slice()
    }
}

} // verus!
