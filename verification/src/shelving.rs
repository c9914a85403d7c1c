//! Shelving returned books: the books in the return box and in hand, the
//! books picked in a list, moving them between box, hand and shelf, and the
//! lists kept in the order of their billing numbers.

use vstd::prelude::*;

use crate::book::{BookInformation, BookShelfInformation};
use crate::borrowing::lemma_swap_remove_multiset;

verus! {

broadcast use vstd::seq_lib::group_to_multiset_ensures;

/// The books are in the order of their billing numbers.
pub open spec fn by_billing_number(books: Seq<BookInformation>) -> bool {
    forall|a: int, b: int|
        0 <= a < b < books.len() ==> #[trigger] books[a].spec_billing_number()
            <= #[trigger] books[b].spec_billing_number()
}

/// Position at which a book with billing number `n` goes into `sorted`: after
/// every book whose number is not greater.
fn insert_position(sorted: &Vec<BookInformation>, n: u16) -> (k: usize)
    requires
        by_billing_number(sorted@),
    ensures
        k <= sorted@.len(),
        forall|a: int| 0 <= a < k ==> #[trigger] sorted@[a].spec_billing_number() <= n,
        forall|a: int| k <= a < sorted@.len() ==> #[trigger] sorted@[a].spec_billing_number() > n,
{
    let mut k: usize = 0;
    while k < sorted.len() && sorted[k].get_billing_number() <= n
        invariant
            k <= sorted@.len(),
            by_billing_number(sorted@),
            forall|a: int| 0 <= a < k ==> #[trigger] sorted@[a].spec_billing_number() <= n,
        decreases sorted.len() - k,
    {
        k += 1;
    }
    k
}

/// The test that a book has the billing number `n`.
pub open spec fn has_number(n: u16) -> spec_fn(BookInformation) -> bool {
    |b: BookInformation| b.spec_billing_number() == n
}

proof fn lemma_filter_push(s: Seq<BookInformation>, b: BookInformation, n: u16)
    ensures
        s.push(b).filter(has_number(n)) == if b.spec_billing_number() == n {
            s.filter(has_number(n)).push(b)
        } else {
            s.filter(has_number(n))
        },
{
    reveal(Seq::filter);
    assert(s.push(b).drop_last() =~= s);
}

proof fn lemma_filter_none(s: Seq<BookInformation>, n: u16)
    requires
        forall|a: int| 0 <= a < s.len() ==> #[trigger] s[a].spec_billing_number() != n,
    ensures
        s.filter(has_number(n)) == Seq::<BookInformation>::empty(),
    decreases s.len(),
{
    reveal(Seq::filter);
    if s.len() > 0 {
        lemma_filter_none(s.drop_last(), n);
    }
}

/// Inserting `b` after the books whose numbers are not greater than its own
/// and before the others puts it last among the books of its number.
proof fn lemma_filter_insert_sorted(s: Seq<BookInformation>, k: int, b: BookInformation, n: u16)
    requires
        0 <= k <= s.len(),
        forall|a: int| 0 <= a < k ==> #[trigger] s[a].spec_billing_number() <= b.spec_billing_number(),
        forall|a: int| k <= a < s.len() ==> #[trigger] s[a].spec_billing_number() > b.spec_billing_number(),
    ensures
        s.insert(k, b).filter(has_number(n)) == if b.spec_billing_number() == n {
            s.filter(has_number(n)).push(b)
        } else {
            s.filter(has_number(n))
        },
{
    let p = has_number(n);
    let front = s.take(k);
    let back = s.skip(k);
    assert(s =~= front + back);
    assert(s.insert(k, b) =~= front.push(b) + back);
    Seq::filter_distributes_over_add(front, back, p);
    Seq::filter_distributes_over_add(front.push(b), back, p);
    lemma_filter_push(front, b, n);
    if b.spec_billing_number() == n {
        assert forall|a: int| 0 <= a < back.len() implies #[trigger] back[a].spec_billing_number()
            != n by {
            assert(back[a] == s[k + a]);
        }
        lemma_filter_none(back, n);
        assert(front.filter(p) + back.filter(p) =~= front.filter(p));
        assert(front.filter(p).push(b) + back.filter(p) =~= front.filter(p).push(b));
    }
}

/// The books in the order of their billing numbers; books with the same
/// number keep their order.
pub fn sort_by_billing_number(books: Vec<BookInformation>) -> (r: Vec<BookInformation>)
    ensures
        r@.to_multiset() =~= books@.to_multiset(),
        by_billing_number(r@),
        forall|n: u16| #[trigger] r@.filter(has_number(n)) == books@.filter(has_number(n)),
{
    let mut sorted: Vec<BookInformation> = Vec::new();
    let mut i: usize = 0;
    while i < books.len()
        invariant
            i <= books@.len(),
            sorted@.to_multiset() =~= books@.take(i as int).to_multiset(),
            by_billing_number(sorted@),
            forall|n: u16| #[trigger] sorted@.filter(has_number(n)) == books@.take(i as int).filter(has_number(n)),
        decreases books.len() - i,
    {
        let b = books[i].clone();
        let k = insert_position(&sorted, b.get_billing_number());
        let ghost old_sorted = sorted@;
        sorted.insert(k, b);
        proof {
            assert(books@.take(i + 1) =~= books@.take(i as int).push(b));
            assert(sorted@ =~= old_sorted.insert(k as int, b));
            vstd::seq_lib::to_multiset_insert(old_sorted, k as int, b);
            assert forall|n: u16| #[trigger] sorted@.filter(has_number(n)) == books@.take(i + 1).filter(
                has_number(n),
            ) by {
                lemma_filter_insert_sorted(old_sorted, k as int, b, n);
                lemma_filter_push(books@.take(i as int), b, n);
            }
            assert forall|a: int, c: int| 0 <= a < c < sorted@.len() implies
                #[trigger] sorted@[a].spec_billing_number()
                    <= #[trigger] sorted@[c].spec_billing_number() by {
                if c < k {
                } else if c == k {
                    assert(sorted@[a] == old_sorted[a]);
                } else if a < k {
                    assert(sorted@[c] == old_sorted[c - 1]);
                } else if a == k {
                    assert(sorted@[c] == old_sorted[c - 1]);
                } else {
                    assert(sorted@[a] == old_sorted[a - 1]);
                    assert(sorted@[c] == old_sorted[c - 1]);
                }
            }
        }
        i += 1;
    }
    proof {
        assert(books@.take(i as int) =~= books@);
    }
    sorted
}


/// `s` without any entry equal to `x`.
pub open spec fn without(s: Seq<usize>, x: usize) -> Seq<usize>
    decreases s.len(),
{
    if s.len() == 0 {
        s
    } else if s.last() == x {
        without(s.drop_last(), x)
    } else {
        without(s.drop_last(), x).push(s.last())
    }
}

/// The positions picked in a list of `n` books: each at most once, each
/// within the list.
pub open spec fn valid_selection(s: Seq<usize>, n: int) -> bool {
    &&& s.no_duplicates()
    &&& forall|k: int| 0 <= k < s.len() ==> #[trigger] s[k] < n
}

/// The positions are in decreasing order.
pub open spec fn decreasing(s: Seq<usize>) -> bool {
    forall|a: int, b: int| 0 <= a < b < s.len() ==> #[trigger] s[a] > #[trigger] s[b]
}

proof fn lemma_without(s: Seq<usize>, x: usize)
    ensures
        forall|y: usize| #[trigger] without(s, x).contains(y) <==> (s.contains(y) && y != x),
        s.no_duplicates() ==> without(s, x).no_duplicates(),
        !s.contains(x) ==> without(s, x) == s,
        without(s, x).len() <= s.len(),
    decreases s.len(),
{
    if s.len() > 0 {
        let t = s.drop_last();
        lemma_without(t, x);
        assert(s =~= t.push(s.last()));
        assert forall|y: usize| #[trigger] without(s, x).contains(y) <==> (s.contains(y) && y
            != x) by {
            if s.last() != x {
                assert(without(s, x) == without(t, x).push(s.last()));
                if without(t, x).contains(y) {
                    let k = choose|k: int| 0 <= k < without(t, x).len() && without(t, x)[k] == y;
                    assert(without(s, x)[k] == y);
                }
                if s.contains(y) && y != x {
                    let k = choose|k: int| 0 <= k < s.len() && s[k] == y;
                    if k < t.len() {
                        assert(t[k] == y);
                        assert(without(t, x).contains(y));
                        let j = choose|j: int|
                            0 <= j < without(t, x).len() && without(t, x)[j] == y;
                        assert(without(s, x)[j] == y);
                    } else {
                        assert(without(s, x)[without(t, x).len() as int] == y);
                    }
                }
                if without(s, x).contains(y) {
                    let k = choose|k: int| 0 <= k < without(s, x).len() && without(s, x)[k] == y;
                    if k < without(t, x).len() {
                        assert(without(t, x)[k] == y);
                        assert(without(t, x).contains(y));
                        let j = choose|j: int| 0 <= j < t.len() && t[j] == y;
                        assert(s[j] == y);
                    } else {
                        assert(s[s.len() - 1] == y);
                    }
                }
            } else {
                if without(t, x).contains(y) {
                    let j = choose|j: int| 0 <= j < t.len() && t[j] == y;
                    assert(s[j] == y);
                }
                if s.contains(y) && y != x {
                    let k = choose|k: int| 0 <= k < s.len() && s[k] == y;
                    assert(k < t.len());
                    assert(t[k] == y);
                }
            }
        }
        if s.no_duplicates() {
            assert(t.no_duplicates()) by {
                assert forall|a: int, b: int| 0 <= a < t.len() && 0 <= b < t.len() && a != b implies t[a]
                    != t[b] by {
                    assert(t[a] == s[a] && t[b] == s[b]);
                }
            }
            if s.last() != x {
                let w = without(t, x);
                assert(!t.contains(s.last())) by {
                    if t.contains(s.last()) {
                        let j = choose|j: int| 0 <= j < t.len() && t[j] == s.last();
                        assert(s[j] == s[s.len() - 1]);
                    }
                }
                assert(!w.contains(s.last()));
                assert forall|a: int, b: int|
                    0 <= a < w.push(s.last()).len() && 0 <= b < w.push(s.last()).len() && a
                        != b implies w.push(s.last())[a] != w.push(s.last())[b] by {
                    if a == w.len() {
                        assert(w.contains(w[b]));
                    } else if b == w.len() {
                        assert(w.contains(w[a]));
                    }
                }
            }
        }
        if !s.contains(x) {
            assert(s.last() != x);
            assert(!t.contains(x)) by {
                if t.contains(x) {
                    let j = choose|j: int| 0 <= j < t.len() && t[j] == x;
                    assert(s[j] == x);
                }
            }
        }
    }
}

/// Law: picking the same position twice leaves the picks as they were.
pub proof fn law_toggle_twice(s: Seq<usize>, x: usize)
    requires
        !s.contains(x),
    ensures
        without(s.push(x), x) == s,
{
    lemma_without(s, x);
    assert(s.push(x).drop_last() =~= s);
}

/// The positions picked in a list of books, in the order they were picked.
pub struct BookSelection {
    selecting_book_index: Vec<usize>,
}

impl View for BookSelection {
    type V = Seq<usize>;

    closed spec fn view(&self) -> Seq<usize> {
        self.selecting_book_index@
    }
}

impl BookSelection {
    pub fn new() -> (r: Self)
        ensures
            r@ == Seq::<usize>::empty(),
    {
        BookSelection { selecting_book_index: Vec::new() }
    }

    /// Picks position `index`, or drops it when it is picked already.
    pub fn toggle(&mut self, index: usize)
        ensures
            old(self)@.contains(index) ==> final(self)@ == without(old(self)@, index),
            !old(self)@.contains(index) ==> final(self)@ == old(self)@.push(index),
    {
        let mut found = false;
        let mut i: usize = 0;
        while i < self.selecting_book_index.len()
            invariant
                i <= self.selecting_book_index@.len(),
                found == self.selecting_book_index@.take(i as int).contains(index),
            decreases self.selecting_book_index.len() - i,
        {
            proof {
                broadcast use vstd::seq_lib::group_seq_properties;

                assert(self.selecting_book_index@.take(i + 1) =~= self.selecting_book_index@.take(
                    i as int,
                ).push(self.selecting_book_index@[i as int]));
            }
            if self.selecting_book_index[i] == index {
                found = true;
            }
            i += 1;
        }
        proof {
            assert(self.selecting_book_index@.take(i as int) =~= self.selecting_book_index@);
        }
        if found {
            let mut kept: Vec<usize> = Vec::new();
            let mut j: usize = 0;
            while j < self.selecting_book_index.len()
                invariant
                    j <= self.selecting_book_index@.len(),
                    kept@ == without(self.selecting_book_index@.take(j as int), index),
                decreases self.selecting_book_index.len() - j,
            {
                proof {
                    assert(self.selecting_book_index@.take(j + 1).drop_last()
                        =~= self.selecting_book_index@.take(j as int));
                }
                if self.selecting_book_index[j] != index {
                    kept.push(self.selecting_book_index[j]);
                }
                j += 1;
            }
            proof {
                assert(self.selecting_book_index@.take(j as int) =~= self.selecting_book_index@);
            }
            self.selecting_book_index = kept;
        } else {
            self.selecting_book_index.push(index);
        }
    }

    /// Puts the picked positions in decreasing order.
    pub fn sort_selecting_index_less(&mut self)
        ensures
            final(self)@.to_multiset() =~= old(self)@.to_multiset(),
            forall|a: int, b: int|
                #![trigger final(self)@[a], final(self)@[b]]
                0 <= a < b < final(self)@.len() ==> final(self)@[a] >= final(self)@[b],
    {
        let mut rest = Vec::new();
        std::mem::swap(&mut rest, &mut self.selecting_book_index);
        let ghost all = rest@;
        let mut sorted: Vec<usize> = Vec::new();
        while rest.len() > 0
            invariant
                sorted@.to_multiset().add(rest@.to_multiset()) =~= all.to_multiset(),
                forall|a: int, b: int|
                    0 <= a < b < sorted@.len() ==> #[trigger] sorted@[a] >= #[trigger] sorted@[b],
            decreases rest.len(),
        {
            let ghost before = rest@;
            let x = rest.pop().unwrap();
            proof {
                assert(before =~= rest@.push(x));
            }
            let mut k: usize = 0;
            while k < sorted.len() && sorted[k] >= x
                invariant
                    k <= sorted@.len(),
                    forall|a: int| 0 <= a < k ==> #[trigger] sorted@[a] >= x,
                decreases sorted.len() - k,
            {
                k += 1;
            }
            let ghost old_sorted = sorted@;
            sorted.insert(k, x);
            proof {
                vstd::seq_lib::to_multiset_insert(old_sorted, k as int, x);
                assert forall|a: int, b: int| 0 <= a < b < sorted@.len() implies #[trigger] sorted@[a]
                    >= #[trigger] sorted@[b] by {
                    if b < k {
                    } else if b == k {
                        assert(sorted@[a] == old_sorted[a]);
                    } else if a < k {
                        assert(sorted@[b] == old_sorted[b - 1]);
                        if b - 1 >= k as int {
                            assert(!(old_sorted[k as int] >= x) || k == old_sorted.len());
                        }
                    } else if a == k {
                        assert(sorted@[b] == old_sorted[b - 1]);
                        assert(k < old_sorted.len());
                        assert(!(old_sorted[k as int] >= x));
                    } else {
                        assert(sorted@[a] == old_sorted[a - 1]);
                        assert(sorted@[b] == old_sorted[b - 1]);
                    }
                }
            }
        }
        self.selecting_book_index = sorted;
    }

    /// The picked positions.
    pub fn get_selecting_index(&self) -> (r: &[usize])
        ensures
            r@ == self@,
    {
        self.selecting_book_index.as_slice()
    }

    /// Drops every pick.
    pub fn clear_selecting_index(&mut self)
        ensures
            final(self)@ == Seq::<usize>::empty(),
    {
        self.selecting_book_index.clear();
    }
}


/// `sel` picks position `p`.
pub open spec fn picks(sel: Seq<usize>, p: int) -> bool {
    sel.contains(p as usize)
}

/// The books at the positions `lo..hi` of `books` that `sel` picks, in the
/// order of their positions.
pub open spec fn picked_range(
    books: Seq<BookInformation>,
    sel: Seq<usize>,
    lo: int,
    hi: int,
) -> Seq<BookInformation>
    decreases hi - lo,
{
    if hi <= lo {
        Seq::empty()
    } else {
        picked_range(books, sel, lo, hi - 1) + if picks(sel, hi - 1) {
            seq![books[hi - 1]]
        } else {
            Seq::empty()
        }
    }
}

/// The books of `books` that `sel` picks, in the order of their positions.
pub open spec fn picked_books(books: Seq<BookInformation>, sel: Seq<usize>) -> Seq<BookInformation> {
    picked_range(books, sel, 0, books.len() as int)
}

proof fn lemma_picked_split(
    books: Seq<BookInformation>,
    sel: Seq<usize>,
    lo: int,
    mid: int,
    hi: int,
)
    requires
        lo <= mid <= hi,
    ensures
        picked_range(books, sel, lo, hi) =~= picked_range(books, sel, lo, mid) + picked_range(
            books,
            sel,
            mid,
            hi,
        ),
    decreases hi - mid,
{
    if hi > mid {
        lemma_picked_split(books, sel, lo, mid, hi - 1);
    }
}

proof fn lemma_picked_none(books: Seq<BookInformation>, sel: Seq<usize>, lo: int, hi: int)
    requires
        forall|p: int| lo <= p < hi ==> !#[trigger] picks(sel, p),
    ensures
        picked_range(books, sel, lo, hi) =~= Seq::<BookInformation>::empty(),
    decreases hi - lo,
{
    if hi > lo {
        lemma_picked_none(books, sel, lo, hi - 1);
    }
}

/// In a decreasing run of positions below `n`, the `j`-th is at most
/// `n - 1 - j`.
proof fn lemma_decreasing_room(sel: Seq<usize>, n: int, j: int)
    requires
        decreasing(sel),
        forall|k: int| 0 <= k < sel.len() ==> #[trigger] sel[k] < n,
        0 <= j < sel.len(),
    ensures
        sel[j] <= n - 1 - j,
    decreases j,
{
    if j > 0 {
        lemma_decreasing_room(sel, n, j - 1);
        assert(sel[j - 1] > sel[j]);
    }
}

/// Moves the picked books of `from` to the end of `to`, from the highest
/// position down; each leaves `from` by `swap_remove`, its place taken by the
/// last book.
fn move_picked(from: &mut Vec<BookInformation>, to: &mut Vec<BookInformation>, sel: &[usize])
    requires
        decreasing(sel@),
        forall|k: int| 0 <= k < sel@.len() ==> #[trigger] sel@[k] < old(from)@.len(),
    ensures
        final(from)@.to_multiset().add(picked_books(old(from)@, sel@).to_multiset())
            =~= old(from)@.to_multiset(),
        final(to)@.to_multiset() =~= old(to)@.to_multiset().add(
            picked_books(old(from)@, sel@).to_multiset(),
        ),
{
    let ghost orig = from@;
    let ghost to0 = to@;
    let n_books = from.len();
    let ghost n = orig.len() as int;
    let mut k: usize = 0;
    while k < sel.len()
        invariant
            n <= usize::MAX,
            n_books == n,
            orig == old(from)@,
            to0 == old(to)@,
            n == orig.len(),
            decreasing(sel@),
            forall|j: int| 0 <= j < sel@.len() ==> #[trigger] sel@[j] < n,
            k <= sel@.len(),
            from@.len() == n - k,
            ({
                let lim = if k == 0 {
                    n
                } else {
                    sel@[k - 1] as int
                };
                &&& 0 <= lim <= from@.len()
                &&& from@.take(lim) == orig.take(lim)
                &&& forall|j: int| 0 <= j < k ==> #[trigger] sel@[j] >= lim
                &&& from@.to_multiset().add(picked_range(orig, sel@, lim, n).to_multiset())
                    == orig.to_multiset()
                &&& to@.to_multiset() == to0.to_multiset().add(
                    picked_range(orig, sel@, lim, n).to_multiset(),
                )
            }),
        decreases sel.len() - k,
    {
        let ghost lim = if k == 0 {
            n
        } else {
            sel@[k - 1] as int
        };
        let i = sel[k];
        proof {
            lemma_decreasing_room(sel@, n, k as int);
            if k > 0 {
                assert(sel@[k - 1] > sel@[k as int]);
            }
            assert(from@[i as int] == from@.take(lim)[i as int]);
        }
        let ghost before = from@;
        let ghost to_before = to@;
        let book = from.swap_remove(i);
        to.push(book);
        proof {
            lemma_swap_remove_multiset(before, i as int);
            assert(book == orig[i as int]);
            assert(from@.take(i as int) =~= orig.take(i as int)) by {
                assert forall|p: int| 0 <= p < i implies from@[p] == orig[p] by {
                    assert(from@[p] == before[p]);
                    assert(before[p] == before.take(lim)[p]);
                }
            }
            assert forall|p: int| i < p < lim implies !#[trigger] picks(sel@, p) by {
                if sel@.contains(p as usize) {
                    let m = choose|m: int| 0 <= m < sel@.len() && sel@[m] == p as usize;
                    if m < k {
                        assert(sel@[m] >= lim);
                    } else if m == k {
                    } else {
                        assert(sel@[k as int] > sel@[m]);
                    }
                }
            }
            lemma_picked_split(orig, sel@, i as int, i + 1, n);
            lemma_picked_split(orig, sel@, i + 1, lim, n);
            lemma_picked_none(orig, sel@, i + 1, lim);
            assert(picked_range(orig, sel@, i as int, i + 1) =~= seq![orig[i as int]]) by {
                assert(sel@[k as int] == i);
                assert(sel@.contains(i));
                assert(picked_range(orig, sel@, i as int, i as int) =~= Seq::<BookInformation>::empty());
            }
            let rest = picked_range(orig, sel@, lim, n);
            assert(picked_range(orig, sel@, i as int, n) =~= seq![orig[i as int]] + rest);
            vstd::seq_lib::lemma_multiset_commutative(seq![orig[i as int]], rest);
            assert(seq![orig[i as int]].to_multiset() =~= vstd::multiset::Multiset::empty().insert(orig[i as int]));
            assert(to@ =~= to_before.push(book));
            assert forall|j: int| 0 <= j < k + 1 implies #[trigger] sel@[j] >= i by {
                if j < k {
                    assert(sel@[j] > sel@[k as int]);
                }
            }
        }
        k += 1;
    }
    proof {
        let lim = if k == 0 {
            n
        } else {
            sel@[k - 1] as int
        };
        assert forall|p: int| 0 <= p < lim implies !#[trigger] picks(sel@, p) by {
            if sel@.contains(p as usize) {
                let m = choose|m: int| 0 <= m < sel@.len() && sel@[m] == p as usize;
                assert(sel@[m] >= lim);
            }
        }
        lemma_picked_none(orig, sel@, 0, lim);
        lemma_picked_split(orig, sel@, 0, lim, n);
    }
}


proof fn lemma_picked_same(
    books: Seq<BookInformation>,
    s1: Seq<usize>,
    s2: Seq<usize>,
    lo: int,
    hi: int,
)
    requires
        forall|p: int| #[trigger] picks(s1, p) == picks(s2, p),
    ensures
        picked_range(books, s1, lo, hi) == picked_range(books, s2, lo, hi),
    decreases hi - lo,
{
    if hi > lo {
        lemma_picked_same(books, s1, s2, lo, hi - 1);
        assert(picks(s1, hi - 1) == picks(s2, hi - 1));
    }
}

/// Picks put in decreasing order stay the same picks, each once, each within
/// the list, and are strictly decreasing.
proof fn lemma_sorted_picks(sorted: Seq<usize>, picked: Seq<usize>, n: int)
    requires
        sorted.to_multiset() =~= picked.to_multiset(),
        valid_selection(picked, n),
        forall|a: int, b: int|
            #![trigger sorted[a], sorted[b]]
            0 <= a < b < sorted.len() ==> sorted[a] >= sorted[b],
    ensures
        decreasing(sorted),
        valid_selection(sorted, n),
        forall|p: int| #[trigger] picks(sorted, p) == picks(picked, p),
{
    picked.lemma_multiset_has_no_duplicates();
    assert forall|x: usize| sorted.to_multiset().contains(x) implies sorted.to_multiset().count(x)
        == 1 by {
        assert(picked.to_multiset().contains(x));
    }
    sorted.lemma_multiset_has_no_duplicates_conv();
    assert forall|p: int| #[trigger] picks(sorted, p) == picks(picked, p) by {
        assert(sorted.to_multiset().contains(p as usize) == picked.to_multiset().contains(
            p as usize,
        ));
    }
    assert forall|k: int| 0 <= k < sorted.len() implies #[trigger] sorted[k] < n by {
        assert(sorted.contains(sorted[k]));
        assert(sorted.to_multiset().contains(sorted[k]));
        assert(picked.to_multiset().contains(sorted[k]));
        assert(picked.contains(sorted[k]));
        let j = choose|j: int| 0 <= j < picked.len() && picked[j] == sorted[k];
        assert(picked[j] < n);
    }
    assert forall|a: int, b: int| 0 <= a < b < sorted.len() implies #[trigger] sorted[a]
        > #[trigger] sorted[b] by {
        assert(sorted[a] >= sorted[b]);
        assert(sorted[a] != sorted[b]);
    }
}

/// Books taken out of the return box to be shelved: those still in the box,
/// those in hand, and the positions picked in each of the two lists.
pub struct SelectShelvingBookUI {
    boxed_books: Vec<BookInformation>,
    shelving_books: Vec<BookInformation>,
    box_selection: BookSelection,
    shelving_selection: BookSelection,
}

impl SelectShelvingBookUI {
    pub closed spec fn spec_boxed(&self) -> Seq<BookInformation> {
        self.boxed_books@
    }

    pub closed spec fn spec_shelving(&self) -> Seq<BookInformation> {
        self.shelving_books@
    }

    pub closed spec fn spec_box_selection(&self) -> Seq<usize> {
        self.box_selection@
    }

    pub closed spec fn spec_shelving_selection(&self) -> Seq<usize> {
        self.shelving_selection@
    }

    /// The picks of each list are positions of that list, each once.
    pub open spec fn well_formed(&self) -> bool {
        &&& valid_selection(self.spec_box_selection(), self.spec_boxed().len() as int)
        &&& valid_selection(self.spec_shelving_selection(), self.spec_shelving().len() as int)
    }

    /// The two lists, each in the order of billing numbers, nothing picked.
    pub fn new(box_book_info: Vec<BookInformation>, shelving_book: Vec<BookInformation>) -> (r:
        Self)
        ensures
            r.well_formed(),
            r.spec_boxed().to_multiset() =~= box_book_info@.to_multiset(),
            r.spec_shelving().to_multiset() =~= shelving_book@.to_multiset(),
            by_billing_number(r.spec_boxed()),
            by_billing_number(r.spec_shelving()),
            r.spec_box_selection().len() == 0,
            r.spec_shelving_selection().len() == 0,
    {
        SelectShelvingBookUI {
            boxed_books: sort_by_billing_number(box_book_info),
            shelving_books: sort_by_billing_number(shelving_book),
            box_selection: BookSelection::new(),
            shelving_selection: BookSelection::new(),
        }
    }

    /// Picks, or drops the pick of, the book at `index` in the box list.
    pub fn select_box_book(&mut self, index: usize)
        requires
            old(self).well_formed(),
            index < old(self).spec_boxed().len(),
        ensures
            final(self).well_formed(),
            old(self).spec_box_selection().contains(index) ==> final(self).spec_box_selection()
                == without(old(self).spec_box_selection(), index),
            !old(self).spec_box_selection().contains(index) ==> final(self).spec_box_selection()
                == old(self).spec_box_selection().push(index),
            final(self).spec_shelving_selection() == old(self).spec_shelving_selection(),
            final(self).spec_boxed() == old(self).spec_boxed(),
            final(self).spec_shelving() == old(self).spec_shelving(),
    {
        self.box_selection.toggle(index);
        proof {
            lemma_toggle_valid(old(self).spec_box_selection(), index, self.boxed_books@.len() as int);
        }
    }

    /// Picks, or drops the pick of, the book at `index` in the list in hand.
    pub fn select_shelving_book(&mut self, index: usize)
        requires
            old(self).well_formed(),
            index < old(self).spec_shelving().len(),
        ensures
            final(self).well_formed(),
            old(self).spec_shelving_selection().contains(index) ==> final(self).spec_shelving_selection() == without(old(self).spec_shelving_selection(), index),
            !old(self).spec_shelving_selection().contains(index) ==> final(self).spec_shelving_selection() == old(self).spec_shelving_selection().push(index),
            final(self).spec_box_selection() == old(self).spec_box_selection(),
            final(self).spec_boxed() == old(self).spec_boxed(),
            final(self).spec_shelving() == old(self).spec_shelving(),
    {
        self.shelving_selection.toggle(index);
        proof {
            lemma_toggle_valid(
                old(self).spec_shelving_selection(),
                index,
                self.shelving_books@.len() as int,
            );
        }
    }

    /// Takes the picked books out of the box into hand; the picks are
    /// dropped and both lists put in the order of billing numbers again.
    pub fn move_box_to_shelving(&mut self)
        requires
            old(self).well_formed(),
        ensures
            final(self).well_formed(),
            final(self).spec_boxed().to_multiset().add(
                picked_books(old(self).spec_boxed(), old(self).spec_box_selection()).to_multiset(),
            ) =~= old(self).spec_boxed().to_multiset(),
            final(self).spec_shelving().to_multiset() =~= old(self).spec_shelving().to_multiset().add(
                picked_books(old(self).spec_boxed(), old(self).spec_box_selection()).to_multiset(),
            ),
            by_billing_number(final(self).spec_boxed()),
            by_billing_number(final(self).spec_shelving()),
            final(self).spec_box_selection().len() == 0,
            final(self).spec_shelving_selection().len() == 0,
    {
        let ghost picked = self.box_selection@;
        self.box_selection.sort_selecting_index_less();
        proof {
            lemma_sorted_picks(self.box_selection@, picked, self.boxed_books@.len() as int);
            lemma_picked_same(
                self.boxed_books@,
                self.box_selection@,
                picked,
                0,
                self.boxed_books@.len() as int,
            );
        }
        move_picked(
            &mut self.boxed_books,
            &mut self.shelving_books,
            self.box_selection.get_selecting_index(),
        );
        self.box_selection.clear_selecting_index();
        self.shelving_selection.clear_selecting_index();
        let mut boxed: Vec<BookInformation> = Vec::new();
        std::mem::swap(&mut boxed, &mut self.boxed_books);
        self.boxed_books = sort_by_billing_number(boxed);
        let mut shelving: Vec<BookInformation> = Vec::new();
        std::mem::swap(&mut shelving, &mut self.shelving_books);
        self.shelving_books = sort_by_billing_number(shelving);
    }

    /// Puts the picked books in hand back into the box; the picks are
    /// dropped and both lists put in the order of billing numbers again.
    pub fn move_shelving_to_box(&mut self)
        requires
            old(self).well_formed(),
        ensures
            final(self).well_formed(),
            final(self).spec_shelving().to_multiset().add(
                picked_books(
                    old(self).spec_shelving(),
                    old(self).spec_shelving_selection(),
                ).to_multiset(),
            ) =~= old(self).spec_shelving().to_multiset(),
            final(self).spec_boxed().to_multiset() =~= old(self).spec_boxed().to_multiset().add(
                picked_books(
                    old(self).spec_shelving(),
                    old(self).spec_shelving_selection(),
                ).to_multiset(),
            ),
            by_billing_number(final(self).spec_boxed()),
            by_billing_number(final(self).spec_shelving()),
            final(self).spec_box_selection().len() == 0,
            final(self).spec_shelving_selection().len() == 0,
    {
        let ghost picked = self.shelving_selection@;
        self.shelving_selection.sort_selecting_index_less();
        proof {
            lemma_sorted_picks(self.shelving_selection@, picked, self.shelving_books@.len() as int);
            lemma_picked_same(
                self.shelving_books@,
                self.shelving_selection@,
                picked,
                0,
                self.shelving_books@.len() as int,
            );
        }
        move_picked(
            &mut self.shelving_books,
            &mut self.boxed_books,
            self.shelving_selection.get_selecting_index(),
        );
        self.box_selection.clear_selecting_index();
        self.shelving_selection.clear_selecting_index();
        let mut boxed: Vec<BookInformation> = Vec::new();
        std::mem::swap(&mut boxed, &mut self.boxed_books);
        self.boxed_books = sort_by_billing_number(boxed);
        let mut shelving: Vec<BookInformation> = Vec::new();
        std::mem::swap(&mut shelving, &mut self.shelving_books);
        self.shelving_books = sort_by_billing_number(shelving);
    }

    /// The books in the box and the books in hand.
    pub fn get_select_result(&self) -> (r: (Vec<BookInformation>, Vec<BookInformation>))
        ensures
            r.0@ == self.spec_boxed(),
            r.1@ == self.spec_shelving(),
    {
        let boxed = self.boxed_books.clone();
        let shelving = self.shelving_books.clone();
        proof {
            assert(boxed@ =~= self.boxed_books@);
            assert(shelving@ =~= self.shelving_books@);
        }
        (boxed, shelving)
    }

    pub fn get_box_selection(&self) -> (r: &[usize])
        ensures
            r@ == self.spec_box_selection(),
    {
        self.box_selection.get_selecting_index()
    }

    pub fn get_shelving_selection(&self) -> (r: &[usize])
        ensures
            r@ == self.spec_shelving_selection(),
    {
        self.shelving_selection.get_selecting_index()
    }
}

/// Toggling a position of the list keeps the picks valid.
proof fn lemma_toggle_valid(s: Seq<usize>, x: usize, n: int)
    requires
        valid_selection(s, n),
        x < n,
    ensures
        s.contains(x) ==> valid_selection(without(s, x), n),
        !s.contains(x) ==> valid_selection(s.push(x), n),
{
    lemma_without(s, x);
    if s.contains(x) {
        assert forall|k: int| 0 <= k < without(s, x).len() implies #[trigger] without(s, x)[k]
            < n by {
            assert(without(s, x).contains(without(s, x)[k]));
            assert(s.contains(without(s, x)[k]));
        }
    } else {
        assert forall|a: int, b: int|
            0 <= a < s.push(x).len() && 0 <= b < s.push(x).len() && a != b implies s.push(x)[a]
            != s.push(x)[b] by {
            if a == s.len() {
                assert(s.contains(s[b]));
            } else if b == s.len() {
                assert(s.contains(s[a]));
            }
        }
    }
}

/// Law: moving picked books from one list to the other keeps every book:
/// the two lists together hold the same books as before.
pub proof fn law_moving_keeps_books(
    from_before: Seq<BookInformation>,
    to_before: Seq<BookInformation>,
    from_after: Seq<BookInformation>,
    to_after: Seq<BookInformation>,
    moved: Seq<BookInformation>,
)
    requires
        from_after.to_multiset().add(moved.to_multiset()) =~= from_before.to_multiset(),
        to_after.to_multiset() =~= to_before.to_multiset().add(moved.to_multiset()),
    ensures
        from_after.to_multiset().add(to_after.to_multiset()) =~= from_before.to_multiset().add(
            to_before.to_multiset(),
        ),
{
}


/// Every book that `sel` picks in `lo..hi` belongs on the shelf.
proof fn lemma_picked_on_shelf(
    books: Seq<BookInformation>,
    sel: Seq<usize>,
    shelf: BookShelfInformation,
    lo: int,
    hi: int,
)
    requires
        0 <= lo,
        hi <= books.len(),
        forall|p: int| 0 <= p < books.len() && #[trigger] picks(sel, p) ==> shelf.begin()
            <= books[p].spec_billing_number() <= shelf.end(),
    ensures
        forall|k: int| 0 <= k < picked_range(books, sel, lo, hi).len() ==> shelf.begin()
            <= #[trigger] picked_range(books, sel, lo, hi)[k].spec_billing_number() <= shelf.end(),
    decreases hi - lo,
{
    if hi > lo {
        lemma_picked_on_shelf(books, sel, shelf, lo, hi - 1);
        let prev = picked_range(books, sel, lo, hi - 1);
        if !picks(sel, hi - 1) {
            assert(picked_range(books, sel, lo, hi) =~= prev);
        } else {
            assert(picked_range(books, sel, lo, hi) =~= prev.push(books[hi - 1]));
            assert forall|k: int| 0 <= k < picked_range(books, sel, lo, hi).len() implies shelf.begin()
                <= #[trigger] picked_range(books, sel, lo, hi)[k].spec_billing_number()
                <= shelf.end() by {
                if k < prev.len() {
                    assert(picked_range(books, sel, lo, hi)[k] == prev[k]);
                }
            }
        }
    }
}

/// Books in hand to be put on one shelf: those still in hand, those put on
/// the shelf, the shelf's range of billing numbers, and the positions picked.
pub struct SelectStoreBookUI {
    shelving_books: Vec<BookInformation>,
    stored_books: Vec<BookInformation>,
    book_shelf_info: BookShelfInformation,
    selection: BookSelection,
}

impl SelectStoreBookUI {
    pub closed spec fn spec_shelving(&self) -> Seq<BookInformation> {
        self.shelving_books@
    }

    pub closed spec fn spec_stored(&self) -> Seq<BookInformation> {
        self.stored_books@
    }

    pub closed spec fn spec_shelf(&self) -> BookShelfInformation {
        self.book_shelf_info
    }

    pub closed spec fn spec_selection(&self) -> Seq<usize> {
        self.selection@
    }

    /// The book at position `p` in hand belongs on the shelf.
    pub open spec fn storable_at(&self, p: int) -> bool {
        self.spec_shelf().begin() <= self.spec_shelving()[p].spec_billing_number()
            <= self.spec_shelf().end()
    }

    /// The picks are positions of the list in hand, each once, of books that
    /// belong on the shelf.
    pub open spec fn well_formed(&self) -> bool {
        &&& valid_selection(self.spec_selection(), self.spec_shelving().len() as int)
        &&& forall|p: int|
            0 <= p < self.spec_shelving().len() && #[trigger] picks(self.spec_selection(), p)
                ==> self.storable_at(p)
    }

    /// The books in hand, in the order of billing numbers, for a shelf;
    /// nothing stored and nothing picked.
    pub fn new(book_shelf_info: BookShelfInformation, shelving_book: Vec<BookInformation>) -> (r:
        Self)
        ensures
            r.well_formed(),
            r.spec_shelving().to_multiset() =~= shelving_book@.to_multiset(),
            by_billing_number(r.spec_shelving()),
            r.spec_stored().len() == 0,
            r.spec_shelf() == book_shelf_info,
            r.spec_selection().len() == 0,
    {
        SelectStoreBookUI {
            shelving_books: sort_by_billing_number(shelving_book),
            stored_books: Vec::new(),
            book_shelf_info,
            selection: BookSelection::new(),
        }
    }

    /// For each book in hand, whether it belongs on the shelf.
    pub fn book_storable(&self) -> (r: Vec<bool>)
        ensures
            r@.len() == self.spec_shelving().len(),
            forall|p: int| 0 <= p < r@.len() ==> #[trigger] r@[p] == self.storable_at(p),
    {
        let mut flags: Vec<bool> = Vec::new();
        let mut i: usize = 0;
        while i < self.shelving_books.len()
            invariant
                i <= self.shelving_books@.len(),
                flags@.len() == i,
                forall|p: int| 0 <= p < i ==> #[trigger] flags@[p] == self.storable_at(p),
            decreases self.shelving_books.len() - i,
        {
            flags.push(
                self.book_shelf_info.contains_number(self.shelving_books[i].get_billing_number()),
            );
            i += 1;
        }
        flags
    }

    /// Picks, or drops the pick of, the book at `index` in hand; a book that
    /// does not belong on the shelf cannot be picked.
    pub fn select_book(&mut self, index: usize)
        requires
            old(self).well_formed(),
            index < old(self).spec_shelving().len(),
        ensures
            final(self).well_formed(),
            !old(self).storable_at(index as int) ==> final(self).spec_selection() == old(
                self,
            ).spec_selection(),
            old(self).storable_at(index as int) && old(self).spec_selection().contains(index)
                ==> final(self).spec_selection() == without(old(self).spec_selection(), index),
            old(self).storable_at(index as int) && !old(self).spec_selection().contains(index)
                ==> final(self).spec_selection() == old(self).spec_selection().push(index),
            final(self).spec_shelving() == old(self).spec_shelving(),
            final(self).spec_stored() == old(self).spec_stored(),
            final(self).spec_shelf() == old(self).spec_shelf(),
    {
        let n = self.shelving_books.len();
        if self.book_shelf_info.contains_number(self.shelving_books[index].get_billing_number()) {
            self.selection.toggle(index);
            proof {
                let s = old(self).spec_selection();
                assert(self.spec_shelving().len() == n);
                lemma_toggle_valid(s, index, self.shelving_books@.len() as int);
                lemma_without(s, index);
                assert forall|p: int|
                    0 <= p < self.spec_shelving().len() && #[trigger] picks(
                        self.spec_selection(),
                        p,
                    ) implies self.storable_at(p) by {
                    broadcast use vstd::seq_lib::group_seq_properties;

                    if p != index as int {
                        assert(p as usize != index);
                        if !s.contains(index) {
                            assert(s.push(index).contains(p as usize));
                            assert(picks(s, p));
                        } else {
                            assert(without(s, index).contains(p as usize));
                            assert(picks(s, p));
                        }
                    }
                }
            }
        }
    }

    /// Drops every pick.
    pub fn reset_selection(&mut self)
        ensures
            final(self).well_formed(),
            final(self).spec_selection().len() == 0,
            final(self).spec_shelving() == old(self).spec_shelving(),
            final(self).spec_stored() == old(self).spec_stored(),
            final(self).spec_shelf() == old(self).spec_shelf(),
    {
        self.selection.clear_selecting_index();
    }

    /// Puts the picked books on the shelf; the books left in hand are put in
    /// the order of billing numbers again.  The picks are not dropped: they
    /// stay, in decreasing order, until they are reset.
    pub fn store_shelving_books(&mut self)
        requires
            old(self).well_formed(),
        ensures
            final(self).spec_shelving().to_multiset().add(
                picked_books(old(self).spec_shelving(), old(self).spec_selection()).to_multiset(),
            ) =~= old(self).spec_shelving().to_multiset(),
            final(self).spec_stored().to_multiset() =~= old(self).spec_stored().to_multiset().add(
                picked_books(old(self).spec_shelving(), old(self).spec_selection()).to_multiset(),
            ),
            forall|k: int|
                0 <= k < picked_books(old(self).spec_shelving(), old(self).spec_selection()).len()
                    ==> old(self).spec_shelf().begin() <= #[trigger] picked_books(
                    old(self).spec_shelving(),
                    old(self).spec_selection(),
                )[k].spec_billing_number() <= old(self).spec_shelf().end(),
            by_billing_number(final(self).spec_shelving()),
            final(self).spec_selection().to_multiset() =~= old(self).spec_selection().to_multiset(),
            final(self).spec_shelf() == old(self).spec_shelf(),
    {
        let ghost picked = self.selection@;
        proof {
            lemma_picked_on_shelf(
                self.shelving_books@,
                picked,
                self.book_shelf_info,
                0,
                self.shelving_books@.len() as int,
            );
        }
        self.selection.sort_selecting_index_less();
        proof {
            lemma_sorted_picks(self.selection@, picked, self.shelving_books@.len() as int);
            lemma_picked_same(
                self.shelving_books@,
                self.selection@,
                picked,
                0,
                self.shelving_books@.len() as int,
            );
        }
        move_picked(
            &mut self.shelving_books,
            &mut self.stored_books,
            self.selection.get_selecting_index(),
        );
        let mut shelving: Vec<BookInformation> = Vec::new();
        std::mem::swap(&mut shelving, &mut self.shelving_books);
        self.shelving_books = sort_by_billing_number(shelving);
    }

    /// The books put on the shelf and the books still in hand.
    pub fn get_storing_result(&self) -> (r: (Vec<BookInformation>, Vec<BookInformation>))
        ensures
            r.0@ == self.spec_stored(),
            r.1@ == self.spec_shelving(),
    {
        let stored = self.stored_books.clone();
        let shelving = self.shelving_books.clone();
        proof {
            assert(stored@ =~= self.stored_books@);
            assert(shelving@ =~= self.shelving_books@);
        }
        (stored, shelving)
    }

    pub fn get_selection(&self) -> (r: &[usize])
        ensures
            r@ == self.spec_selection(),
    {
        self.selection.get_selecting_index()
    }
}

} // verus!
