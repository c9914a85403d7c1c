//! The ending of the game: whether the goal was reached, the credits read from
//! their text, the times at which the results and the credits appear, and the
//! steps from the results to the credits and on to the next scene.

use vstd::prelude::*;
use vstd::string::StrSliceExecFns;

use crate::ids::TextureID;
use crate::scene::SceneTransition;

verus! {

/// The money above which the goal counts as reached.
pub const GOAL_MONEY: i32 = 100000;

/// The heading of the results: the goal is reached with more than the goal's
/// money in the till.
pub fn ending_title(total_money: i32) -> (r: &'static str)
    ensures
        r@ == (if total_money > GOAL_MONEY {
            "目標達成"@
        } else {
            "達成失敗"@
        }),
{
    if total_money > GOAL_MONEY {
        "目標達成"
    } else {
        "達成失敗"
    }
}

/// The word that separates two pages of the credits.
pub open spec fn separator() -> Seq<char> {
    seq!['n', 'e', 'x', 't']
}

/// The separator starts at position `i` of `s`.
pub open spec fn separator_at(s: Seq<char>, i: int) -> bool {
    0 <= i && i + 4 <= s.len() && s.subrange(i, i + 4) == separator()
}

/// The pages of `s` from position `start` on, the current page having begun
/// at `page_start`: the text between separators, read from the left.
pub open spec fn pages_from(s: Seq<char>, page_start: int, start: int) -> Seq<Seq<char>>
    decreases s.len() - start,
{
    if start >= s.len() || start < page_start || page_start < 0 {
        seq![s.subrange(page_start, s.len() as int)]
    } else if separator_at(s, start) {
        seq![s.subrange(page_start, start)] + pages_from(s, start + 4, start + 4)
    } else {
        pages_from(s, page_start, start + 1)
    }
}

/// The pages of the credits: the text between the separators `next`.
pub open spec fn credit_pages(s: Seq<char>) -> Seq<Seq<char>> {
    pages_from(s, 0, 0)
}

fn separator_starts_at(s: &str, n: usize, i: usize) -> (r: bool)
    requires
        n == s@.len(),
        i <= n,
    ensures
        r == separator_at(s@, i as int),
{
    if n - i < 4 {
        return false;
    }
    let a = s.get_char(i);
    let b = s.get_char(i + 1);
    let c = s.get_char(i + 2);
    let d = s.get_char(i + 3);
    let r = a == 'n' && b == 'e' && c == 'x' && d == 't';
    proof {
        if r {
            assert(s@.subrange(i as int, i + 4) =~= separator());
        } else {
            if s@.subrange(i as int, i + 4) == separator() {
                assert(s@.subrange(i as int, i + 4)[0] == 'n');
                assert(s@.subrange(i as int, i + 4)[1] == 'e');
                assert(s@.subrange(i as int, i + 4)[2] == 'x');
                assert(s@.subrange(i as int, i + 4)[3] == 't');
            }
        }
    }
    r
}

/// The pages of the credits text.
pub fn split_credit(text: &str) -> (r: Vec<String>)
    ensures
        r@.len() == credit_pages(text@).len(),
        forall|k: int| 0 <= k < r@.len() ==> #[trigger] r@[k]@ == credit_pages(text@)[k],
{
    let n = text.unicode_len();
    let mut pages: Vec<String> = Vec::new();
    let mut page_start: usize = 0;
    let mut i: usize = 0;
    proof {
        lemma_pages_nonempty(text@, 0, 0);
        assert(pages@.map_values(|p: String| p@) =~= Seq::<Seq<char>>::empty());
        assert(credit_pages(text@) =~= pages@.map_values(|p: String| p@) + pages_from(text@, 0, 0));
    }
    while i < n
        invariant
            n == text@.len(),
            page_start <= i <= n,
            forall|k: int| 0 <= k < pages@.len() ==> #[trigger] pages@[k]@ == credit_pages(
                text@,
            )[k],
            pages@.len() < credit_pages(text@).len(),
            credit_pages(text@) == pages@.map_values(|p: String| p@) + pages_from(
                text@,
                page_start as int,
                i as int,
            ),
        decreases n - i,
    {
        if separator_starts_at(text, n, i) {
            let page = text.substring_char(page_start, i).to_string();
            proof {
                let before = pages@.map_values(|p: String| p@);
                assert(pages_from(text@, page_start as int, i as int) == seq![
                    text@.subrange(page_start as int, i as int),
                ] + pages_from(text@, i + 4, i + 4));
            }
            let ghost old_pages = pages@;
            pages.push(page);
            proof {
                assert(pages@.map_values(|p: String| p@) =~= old_pages.map_values(|p: String| p@).push(
                    page@,
                ));
                assert(credit_pages(text@) =~= pages@.map_values(|p: String| p@) + pages_from(
                    text@,
                    i + 4,
                    i + 4,
                ));
                lemma_pages_nonempty(text@, i + 4, i + 4);
                assert forall|k: int| 0 <= k < pages@.len() implies #[trigger] pages@[k]@
                    == credit_pages(text@)[k] by {
                    assert(credit_pages(text@)[k] == pages@.map_values(|p: String| p@)[k]);
                }
            }
            page_start = i + 4;
            i = i + 4;
        } else {
            i = i + 1;
        }
    }
    let last = text.substring_char(page_start, n).to_string();
    proof {
        assert(pages_from(text@, page_start as int, i as int) == seq![
            text@.subrange(page_start as int, n as int),
        ]);
    }
    let ghost old_pages = pages@;
    pages.push(last);
    proof {
        assert(pages@.map_values(|p: String| p@) =~= old_pages.map_values(|p: String| p@).push(
            last@,
        ));
        assert forall|k: int| 0 <= k < pages@.len() implies #[trigger] pages@[k]@ == credit_pages(
            text@,
        )[k] by {
            assert(credit_pages(text@)[k] == pages@.map_values(|p: String| p@)[k]);
        }
    }
    pages
}

/// The text has at least one page from any position on.
proof fn lemma_pages_nonempty(s: Seq<char>, page_start: int, start: int)
    ensures
        pages_from(s, page_start, start).len() >= 1,
    decreases s.len() - start,
{
    if start >= s.len() || start < page_start || page_start < 0 {
    } else if separator_at(s, start) {
        lemma_pages_nonempty(s, start + 4, start + 4);
    } else {
        lemma_pages_nonempty(s, page_start, start + 1);
    }
}


/// When the results appear, in frames: each line of figures, the heading, and
/// the button that leads on to the credits.
pub struct ResultSchedule {
    pub line_starts: Vec<u64>,
    pub title_at: u64,
    pub button_at: u64,
}

/// The results begin to fade in thirty frames after `t`, one line every
/// sixty frames; the heading comes a hundred frames after the last line's
/// turn, and the button sixty frames after the heading.
pub fn result_schedule(t: u64, lines: usize) -> (r: ResultSchedule)
    requires
        t + 30 + 60 * lines + 160 <= u64::MAX,
    ensures
        r.line_starts@.len() == lines,
        forall|k: int| 0 <= k < lines ==> #[trigger] r.line_starts@[k] == t + 30 + 60 * k,
        r.title_at == t + 30 + 60 * lines + 100,
        r.button_at == t + 30 + 60 * lines + 160,
{
    let mut line_starts: Vec<u64> = Vec::new();
    let mut animation_start: u64 = t + 30;
    let mut k: usize = 0;
    while k < lines
        invariant
            k <= lines,
            t + 30 + 60 * lines + 160 <= u64::MAX,
            animation_start == t + 30 + 60 * k,
            line_starts@.len() == k,
            forall|j: int| 0 <= j < k ==> #[trigger] line_starts@[j] == t + 30 + 60 * j,
        decreases lines - k,
    {
        line_starts.push(animation_start);
        animation_start += 60;
        k += 1;
    }
    animation_start += 100;
    let title_at = animation_start;
    animation_start += 60;
    ResultSchedule { line_starts, title_at, button_at: animation_start }
}

/// When the credits appear, in frames: each page fades in and, three hundred
/// frames later, out; the thanks come after the last page; the pictures of
/// books fade in one after the other.
pub struct CreditSchedule {
    pub fade_in: Vec<u64>,
    pub fade_out: Vec<u64>,
    pub thanks_at: u64,
    pub book_starts: Vec<u64>,
}

/// The credits begin thirty frames after `t`, a page every four hundred
/// frames; the pictures of books begin at the same time, one every three
/// hundred frames.
pub fn credit_schedule(t: u64, pages: usize, books: usize) -> (r: CreditSchedule)
    requires
        t + 30 + 400 * pages <= u64::MAX,
        t + 30 + 300 * books <= u64::MAX,
    ensures
        r.fade_in@.len() == pages,
        r.fade_out@.len() == pages,
        forall|k: int| 0 <= k < pages ==> #[trigger] r.fade_in@[k] == t + 30 + 400 * k,
        forall|k: int| 0 <= k < pages ==> #[trigger] r.fade_out@[k] == t + 330 + 400 * k,
        r.thanks_at == t + 30 + 400 * pages,
        r.book_starts@.len() == books,
        forall|k: int| 0 <= k < books ==> #[trigger] r.book_starts@[k] == t + 30 + 300 * k,
{
    let mut fade_in: Vec<u64> = Vec::new();
    let mut fade_out: Vec<u64> = Vec::new();
    let mut animation_start: u64 = t + 30;
    let mut k: usize = 0;
    while k < pages
        invariant
            k <= pages,
            t + 30 + 400 * pages <= u64::MAX,
            animation_start == t + 30 + 400 * k,
            fade_in@.len() == k,
            fade_out@.len() == k,
            forall|j: int| 0 <= j < k ==> #[trigger] fade_in@[j] == t + 30 + 400 * j,
            forall|j: int| 0 <= j < k ==> #[trigger] fade_out@[j] == t + 330 + 400 * j,
        decreases pages - k,
    {
        fade_in.push(animation_start);
        animation_start += 300;
        fade_out.push(animation_start);
        animation_start += 100;
        k += 1;
    }
    let thanks_at = animation_start;
    let mut book_starts: Vec<u64> = Vec::new();
    let mut animation_start: u64 = t + 30;
    let mut j: usize = 0;
    while j < books
        invariant
            j <= books,
            t + 30 + 300 * books <= u64::MAX,
            animation_start == t + 30 + 300 * j,
            book_starts@.len() == j,
            forall|i: int| 0 <= i < j ==> #[trigger] book_starts@[i] == t + 30 + 300 * i,
        decreases books - j,
    {
        book_starts.push(animation_start);
        animation_start += 300;
        j += 1;
    }
    CreditSchedule { fade_in, fade_out, thanks_at, book_starts }
}

/// The pictures of books shown with the credits, in order.
pub fn ending_book_textures() -> (r: Vec<TextureID>)
    ensures
        r@ == seq![
            TextureID::LargeBook1,
            TextureID::LargeBook2,
            TextureID::LargeBook3,
            TextureID::MiddleBook1,
            TextureID::MiddleBook2,
            TextureID::MiddleBook3,
        ],
{
    vec![
        TextureID::LargeBook1,
        TextureID::LargeBook2,
        TextureID::LargeBook3,
        TextureID::MiddleBook1,
        TextureID::MiddleBook2,
        TextureID::MiddleBook3,
    ]
}

/// The steps of the ending: the button that leads from the results to the
/// credits, whether the credits are over, and the transition asked of the
/// game.
pub struct EndingFlow {
    ok_button_visible: bool,
    flow_done: bool,
    scene_transition: SceneTransition,
}

impl EndingFlow {
    pub closed spec fn spec_button_visible(&self) -> bool {
        self.ok_button_visible
    }

    pub closed spec fn spec_done(&self) -> bool {
        self.flow_done
    }

    pub closed spec fn spec_transition(&self) -> SceneTransition {
        self.scene_transition
    }

    /// The results are being shown: no button yet, the credits not over, and
    /// the scene stays.
    pub fn new() -> (r: Self)
        ensures
            !r.spec_button_visible(),
            !r.spec_done(),
            r.spec_transition() == SceneTransition::Keep,
    {
        EndingFlow {
            ok_button_visible: false,
            flow_done: false,
            scene_transition: SceneTransition::Keep,
        }
    }

    /// The button appears, at the time the results' schedule gives.
    pub fn show_ok_button(&mut self)
        ensures
            final(self).spec_button_visible(),
            final(self).spec_done() == old(self).spec_done(),
            final(self).spec_transition() == old(self).spec_transition(),
    {
        self.ok_button_visible = true;
    }

    /// The credits are over, at the time the credits' schedule gives.
    pub fn finish_credits(&mut self)
        ensures
            final(self).spec_done(),
            final(self).spec_button_visible() == old(self).spec_button_visible(),
            final(self).spec_transition() == old(self).spec_transition(),
    {
        self.flow_done = true;
    }

    /// A click, on the button or elsewhere: a click on the shown button
    /// hides it and starts the credits (the answer is `true`); once the
    /// credits are over, any click moves on to the next scene.
    pub fn click(&mut self, on_button: bool) -> (start_credit: bool)
        ensures
            start_credit == (old(self).spec_button_visible() && on_button),
            final(self).spec_button_visible() == (old(self).spec_button_visible() && !on_button),
            final(self).spec_done() == old(self).spec_done(),
            final(self).spec_transition() == if old(self).spec_done() {
                SceneTransition::SwapTransition
            } else {
                old(self).spec_transition()
            },
    {
        let mut start_credit = false;
        if self.ok_button_visible && on_button {
            self.ok_button_visible = false;
            start_credit = true;
        }
        if self.flow_done {
            self.scene_transition = SceneTransition::SwapTransition;
        }
        start_credit
    }

    pub fn get_scene_transition_status(&self) -> (r: SceneTransition)
        ensures
            r == self.spec_transition(),
    {
        self.scene_transition
    }
}

} // verus!
