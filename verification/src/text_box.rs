//! The text box of a scenario: which lines of a page's text it shows as the
//! characters appear, when it stops to wait for the key that shows the next
//! line, and the lines kept back above the box.  Fonts, positions and the
//! arrow that marks a waiting line are drawn by the caller.

use vstd::prelude::*;
use vstd::string::{StrSliceExecFns, StringExecFns};

use crate::scenario::{shown_chars, ScenarioTextSegment};

verus! {

/// The pieces of a text between its line feeds, the last one after the last
/// line feed (possibly empty).
pub open spec fn pieces(s: Seq<char>) -> Seq<Seq<char>>
    decreases s.len(),
{
    if s.len() == 0 {
        seq![Seq::<char>::empty()]
    } else {
        let p = pieces(s.drop_last());
        if s.last() == '\n' {
            p.push(Seq::<char>::empty())
        } else {
            p.update(p.len() - 1, p.last().push(s.last()))
        }
    }
}

/// A piece ended by a line feed, without a carriage return before it.
pub open spec fn strip_cr(x: Seq<char>) -> Seq<char> {
    if x.len() > 0 && x.last() == '\r' {
        x.drop_last()
    } else {
        x
    }
}

/// The lines of a text as `str::lines` gives them: the pieces ended by a line
/// feed, without a carriage return before it, then the rest after the last
/// line feed when it is not empty.
pub open spec fn text_lines(s: Seq<char>) -> Seq<Seq<char>> {
    let p = pieces(s);
    let ended = Seq::new((p.len() - 1) as nat, |j: int| strip_cr(p[j]));
    if p.last().len() == 0 {
        ended
    } else {
        ended.push(p.last())
    }
}

/// The views of some strings.
pub open spec fn views(v: Seq<String>) -> Seq<Seq<char>> {
    v.map_values(|l: String| l@)
}

/// The lines of `s`, as `str::lines` gives them.
pub fn split_lines(s: &str) -> (r: Vec<String>)
    ensures
        views(r@) == text_lines(s@),
{
    let n = s.unicode_len();
    let mut lines: Vec<String> = Vec::new();
    let mut start: usize = 0;
    let mut i: usize = 0;
    proof {
        assert(s@.take(0) =~= Seq::<char>::empty());
        assert(s@.subrange(0, 0) =~= Seq::<char>::empty());
    }
    while i < n
        invariant
            n == s@.len(),
            start <= i <= n,
            pieces(s@.take(i as int)).len() >= 1,
            lines@.len() == pieces(s@.take(i as int)).len() - 1,
            forall|j: int|
                0 <= j < lines@.len() ==> #[trigger] lines@[j]@ == strip_cr(
                    pieces(s@.take(i as int))[j],
                ),
            pieces(s@.take(i as int)).last() == s@.subrange(start as int, i as int),
        decreases n - i,
    {
        let c = s.get_char(i);
        let ghost p = pieces(s@.take(i as int));
        proof {
            assert(s@.take(i + 1).drop_last() =~= s@.take(i as int));
            assert(s@.take(i + 1).last() == c);
        }
        if c == '\n' {
            let piece = if i > start && s.get_char(i - 1) == '\r' {
                proof {
                    assert(s@.subrange(start as int, i - 1) =~= s@.subrange(
                        start as int,
                        i as int,
                    ).drop_last());
                }
                s.substring_char(start, i - 1)
            } else {
                s.substring_char(start, i)
            };
            lines.push(String::from_str(piece));
            start = i + 1;
            proof {
                assert(pieces(s@.take(i + 1)) == p.push(Seq::<char>::empty()));
                assert(s@.subrange(start as int, i + 1) =~= Seq::<char>::empty());
            }
        } else {
            proof {
                assert(pieces(s@.take(i + 1)) == p.update(p.len() - 1, p.last().push(c)));
                assert(s@.subrange(start as int, i + 1) =~= s@.subrange(start as int, i as int).push(
                    c,
                ));
            }
        }
        i += 1;
    }
    proof {
        assert(s@.take(n as int) =~= s@);
    }
    if start < n {
        let rest = s.substring_char(start, n);
        lines.push(String::from_str(rest));
    }
    proof {
        let p = pieces(s@);
        let ended = Seq::new((p.len() - 1) as nat, |j: int| strip_cr(p[j]));
        if start < n {
            assert(views(lines@) =~= ended.push(p.last()));
        } else {
            assert(views(lines@) =~= ended);
        }
    }
    lines
}

/// The state of the text box.
#[derive(Debug, Clone, Copy, PartialEq, Eq, Structural)]
pub enum TextBoxStatus {
    WaitNextLineKey,
    UpdatingText,
    FixedText,
}

/// The characters of each segment that `shown` characters reach: each
/// segment in turn takes what is left, up to its length, and the segments
/// after one that is not reached in full are left out.
pub open spec fn seg_slices(segs: Seq<ScenarioTextSegment>, remain: int) -> Seq<int>
    decreases segs.len(),
{
    if segs.len() == 0 {
        Seq::empty()
    } else {
        let l = segs[0].spec_text().len() as int;
        let sl = if l < remain {
            l
        } else {
            remain
        };
        if remain < l {
            seq![sl]
        } else {
            seq![sl] + seg_slices(segs.drop_first(), remain - l)
        }
    }
}

/// The lines that the first `slices.len()` segments show, each cut to its
/// slice as `ScenarioTextSegment::slice` cuts it.
pub open spec fn shown_lines(segs: Seq<ScenarioTextSegment>, slices: Seq<int>) -> Seq<Seq<char>>
    decreases slices.len(),
{
    if slices.len() == 0 {
        Seq::empty()
    } else {
        let k = slices.len() - 1;
        let t = segs[k].spec_text();
        shown_lines(segs, slices.drop_last()) + text_lines(
            t.take(shown_chars(t.len(), slices[k] as nat) as int),
        )
    }
}

proof fn lemma_seg_slices_bounds(segs: Seq<ScenarioTextSegment>, remain: int)
    requires
        remain >= 0,
    ensures
        seg_slices(segs, remain).len() <= segs.len(),
        segs.len() > 0 ==> seg_slices(segs, remain).len() >= 1,
        forall|k: int|
            0 <= k < seg_slices(segs, remain).len() ==> 0 <= #[trigger] seg_slices(segs, remain)[k]
                <= segs[k].spec_text().len(),
    decreases segs.len(),
{
    if segs.len() > 0 {
        let l = segs[0].spec_text().len() as int;
        if remain >= l {
            lemma_seg_slices_bounds(segs.drop_first(), remain - l);
            let rest = seg_slices(segs.drop_first(), remain - l);
            assert forall|k: int| 0 <= k < seg_slices(segs, remain).len() implies 0
                <= #[trigger] seg_slices(segs, remain)[k] <= segs[k].spec_text().len() by {
                if k > 0 {
                    assert(seg_slices(segs, remain)[k] == rest[k - 1]);
                    assert(segs.drop_first()[k - 1] == segs[k]);
                }
            }
        }
    }
}

/// The last `box_lines` of the lines, or all of them when they are fewer.
pub open spec fn box_tail(all: Seq<Seq<char>>, box_lines: int) -> Seq<Seq<char>> {
    if all.len() <= box_lines {
        all
    } else {
        all.subrange(all.len() - box_lines, all.len() as int)
    }
}

/// The lines before the last `box_lines`.
pub open spec fn box_head(all: Seq<Seq<char>>, box_lines: int) -> Seq<Seq<char>> {
    if all.len() <= box_lines {
        Seq::empty()
    } else {
        all.subrange(0, all.len() - box_lines)
    }
}

/// Law: the lines kept back and the lines shown are, together and in order,
/// all the lines, and the box shows no more lines than it has.
pub proof fn law_box_keeps_every_line(all: Seq<Seq<char>>, box_lines: int)
    requires
        box_lines >= 0,
    ensures
        box_head(all, box_lines) + box_tail(all, box_lines) == all,
        box_tail(all, box_lines).len() <= box_lines || all.len() <= box_lines,
        box_tail(all, box_lines).len() == if all.len() <= box_lines {
            all.len() as int
        } else {
            box_lines
        },
{
    if all.len() > box_lines {
        assert(all.subrange(0, all.len() - box_lines) + all.subrange(all.len() - box_lines, all.len() as int) =~= all);
    } else {
        assert(Seq::<Seq<char>>::empty() + all =~= all);
    }
}

pub open spec fn as_ints(v: Seq<usize>) -> Seq<int> {
    v.map_values(|x: usize| x as int)
}

/// The text box: how many lines it shows, the lines shown and those kept back
/// above them, whether it waits for the key that shows the next line, and how
/// many times that key was pressed on the page.
pub struct TextBox {
    box_lines: usize,
    head_line_number: u32,
    text: Vec<String>,
    buffered_text: Vec<String>,
    text_box_status: TextBoxStatus,
    complete_and_wait_current_line: bool,
}

impl TextBox {
    pub closed spec fn spec_box_lines(&self) -> usize {
        self.box_lines
    }

    pub closed spec fn spec_head_line(&self) -> u32 {
        self.head_line_number
    }

    pub closed spec fn spec_text(&self) -> Seq<Seq<char>> {
        views(self.text@)
    }

    pub closed spec fn spec_buffered(&self) -> Seq<Seq<char>> {
        views(self.buffered_text@)
    }

    pub closed spec fn spec_status(&self) -> TextBoxStatus {
        self.text_box_status
    }

    /// The box has stopped at a line that it shows once the key is pressed.
    pub closed spec fn spec_waiting(&self) -> bool {
        self.complete_and_wait_current_line
    }

    /// An empty box of `box_lines` lines, updating its text.
    pub fn new(box_lines: usize) -> (r: Self)
        ensures
            r.spec_box_lines() == box_lines,
            r.spec_head_line() == 0,
            r.spec_text().len() == 0,
            r.spec_buffered().len() == 0,
            r.spec_status() == TextBoxStatus::UpdatingText,
            !r.spec_waiting(),
    {
        let r = TextBox {
            box_lines,
            head_line_number: 0,
            text: Vec::new(),
            buffered_text: Vec::new(),
            text_box_status: TextBoxStatus::UpdatingText,
            complete_and_wait_current_line: false,
        };
        assert(views(r.text@) =~= Seq::<Seq<char>>::empty());
        assert(views(r.buffered_text@) =~= Seq::<Seq<char>>::empty());
        r
    }

    /// The lines of `segment` as far as `length` characters reach.
    pub fn text_from_segment(segment: &ScenarioTextSegment, length: usize) -> (r: Vec<String>)
        ensures
            views(r@) == text_lines(
                segment.spec_text().take(
                    shown_chars(segment.spec_text().len(), length as nat) as int,
                ),
            ),
    {
        split_lines(segment.slice(length))
    }

    /// Shows the page whose segments are `segments` as far as `shown`
    /// characters have appeared: the lines that the segments reached give,
    /// of which the box shows the last and keeps the others back.  When a
    /// line is added that does not fit, and the box was not already waiting,
    /// the box holds that line back and waits for the key; the next update
    /// shows it.  The result is the position of the last segment reached.
    pub fn update_scenario_text(&mut self, segments: &[ScenarioTextSegment], shown: usize) -> (r: usize)
        requires
            segments@.len() > 0,
        ensures
            ({
                let slices = seg_slices(segments@, shown as int);
                let all = shown_lines(segments@, slices);
                let before = old(self).spec_text().len() + old(self).spec_buffered().len();
                let stop = !old(self).spec_waiting() && all.len() > before && all.len()
                    > old(self).spec_box_lines();
                let kept = if stop {
                    all.drop_last()
                } else {
                    all
                };
                &&& r == slices.len() - 1
                &&& final(self).spec_waiting() == stop
                &&& final(self).spec_status() == if stop {
                    TextBoxStatus::WaitNextLineKey
                } else {
                    old(self).spec_status()
                }
                &&& final(self).spec_text() == box_tail(kept, old(self).spec_box_lines() as int)
                &&& final(self).spec_buffered() == box_head(kept, old(self).spec_box_lines() as int)
                &&& final(self).spec_box_lines() == old(self).spec_box_lines()
                &&& final(self).spec_head_line() == old(self).spec_head_line()
            }),
    {
        let ghost full = seg_slices(segments@, shown as int);
        proof {
            lemma_seg_slices_bounds(segments@, shown as int);
            assert(segments@.skip(0) =~= segments@);
            assert(as_ints(Seq::<usize>::empty()) =~= Seq::<int>::empty());
        }
        let before_lines: u128 = self.text.len() as u128 + self.buffered_text.len() as u128;
        let mut remain: usize = shown;
        let mut slices: Vec<usize> = Vec::new();
        let mut k: usize = 0;
        let mut done = false;
        while k < segments.len() && !done
            invariant
                k <= segments@.len(),
                slices@.len() == k,
                !done ==> as_ints(slices@) + seg_slices(segments@.skip(k as int), remain as int)
                    == full,
                done ==> as_ints(slices@) == full,
                full == seg_slices(segments@, shown as int),
            decreases segments.len() - k,
        {
            let l = segments[k].str_len();
            let sl = if l < remain {
                l
            } else {
                remain
            };
            let ghost prev = slices@;
            let ghost rest = segments@.skip(k as int);
            proof {
                assert(rest[0] == segments@[k as int]);
                assert(rest.drop_first() =~= segments@.skip(k + 1));
            }
            slices.push(sl);
            proof {
                assert(as_ints(slices@) =~= as_ints(prev).push(sl as int));
            }
            if remain < l {
                done = true;
                proof {
                    assert(seg_slices(rest, remain as int) == seq![sl as int]);
                    assert(as_ints(prev) + seq![sl as int] =~= as_ints(prev).push(sl as int));
                }
            } else {
                proof {
                    assert(seg_slices(rest, remain as int) == seq![sl as int] + seg_slices(
                        segments@.skip(k + 1),
                        remain - l,
                    ));
                    assert(as_ints(prev) + (seq![sl as int] + seg_slices(
                        segments@.skip(k + 1),
                        remain - l,
                    )) =~= as_ints(prev).push(sl as int) + seg_slices(segments@.skip(k + 1), remain - l));
                }
                remain = remain - l;
            }
            k += 1;
        }
        proof {
            if !done {
                assert(segments@.skip(k as int) =~= Seq::<ScenarioTextSegment>::empty());
                assert(as_ints(slices@) + Seq::<int>::empty() =~= as_ints(slices@));
            }
            assert(as_ints(slices@) == full);
            assert(full.len() == slices@.len());
        }
        let mut lines: Vec<String> = Vec::new();
        let mut j: usize = 0;
        proof {
            assert(full.take(0) =~= Seq::<int>::empty());
            assert(views(lines@) =~= Seq::<Seq<char>>::empty());
        }
        while j < slices.len()
            invariant
                j <= slices@.len(),
                slices@.len() <= segments@.len(),
                as_ints(slices@) == full,
                full.len() == slices@.len(),
                views(lines@) == shown_lines(segments@, full.take(j as int)),
            decreases slices.len() - j,
        {
            let mut part = TextBox::text_from_segment(&segments[j], slices[j]);
            let ghost lines_before = lines@;
            let ghost part_before = part@;
            lines.append(&mut part);
            proof {
                assert(full.take(j + 1).drop_last() =~= full.take(j as int));
                assert(full[j as int] == slices@[j as int] as int);
                assert(views(lines@) =~= views(lines_before) + views(part_before));
            }
            j += 1;
        }
        proof {
            assert(full.take(j as int) =~= full);
        }
        let all_len = lines.len();
        let ghost all = views(lines@);
        let mut stop = false;
        if !self.complete_and_wait_current_line {
            if (all_len as u128) > before_lines && all_len > self.box_lines {
                self.text_box_status = TextBoxStatus::WaitNextLineKey;
                self.complete_and_wait_current_line = true;
                stop = true;
                let ghost before_pop = lines@;
                lines.pop();
                proof {
                    assert(views(lines@) =~= views(before_pop).drop_last());
                }
            }
        } else {
            self.complete_and_wait_current_line = false;
        }
        let n = lines.len();
        let ghost kept = views(lines@);
        if n > self.box_lines {
            let ghost whole = lines@;
            let tail = lines.split_off(n - self.box_lines);
            proof {
                assert(views(tail@) =~= kept.subrange(n - self.box_lines, n as int));
                assert(views(lines@) =~= kept.subrange(0, n - self.box_lines));
            }
            self.text = tail;
            self.buffered_text = lines;
        } else {
            self.text = lines;
            self.buffered_text = Vec::new();
            proof {
                assert(views(self.buffered_text@) =~= Seq::<Seq<char>>::empty());
            }
        }
        k - 1
    }

    pub fn set_fixed_text(&mut self, text: String)
        ensures
            final(self).spec_text() == seq![text@],
            final(self).spec_status() == TextBoxStatus::FixedText,
            final(self).spec_buffered() == old(self).spec_buffered(),
            final(self).spec_waiting() == old(self).spec_waiting(),
            final(self).spec_box_lines() == old(self).spec_box_lines(),
            final(self).spec_head_line() == old(self).spec_head_line(),
    {
        let ghost t = text@;
        self.text = vec![text];
        proof {
            assert(views(self.text@) =~= seq![t]);
        }
        self.set_text_box_status(TextBoxStatus::FixedText);
    }

    /// The key that shows the next line.
    pub fn next_button_handler(&mut self)
        requires
            old(self).spec_head_line() < u32::MAX,
        ensures
            final(self).spec_head_line() == old(self).spec_head_line() + 1,
            final(self).spec_status() == TextBoxStatus::UpdatingText,
            final(self).spec_text() == old(self).spec_text(),
            final(self).spec_buffered() == old(self).spec_buffered(),
            final(self).spec_waiting() == old(self).spec_waiting(),
            final(self).spec_box_lines() == old(self).spec_box_lines(),
    {
        self.head_line_number += 1;
        self.set_text_box_status(TextBoxStatus::UpdatingText);
    }

    pub fn reset_head_line(&mut self)
        ensures
            final(self).spec_head_line() == 0,
            final(self).spec_status() == old(self).spec_status(),
            final(self).spec_text() == old(self).spec_text(),
            final(self).spec_buffered() == old(self).spec_buffered(),
            final(self).spec_waiting() == old(self).spec_waiting(),
            final(self).spec_box_lines() == old(self).spec_box_lines(),
    {
        self.head_line_number = 0;
    }

    pub fn set_text_box_status(&mut self, status: TextBoxStatus)
        ensures
            final(self).spec_status() == status,
            final(self).spec_head_line() == old(self).spec_head_line(),
            final(self).spec_text() == old(self).spec_text(),
            final(self).spec_buffered() == old(self).spec_buffered(),
            final(self).spec_waiting() == old(self).spec_waiting(),
            final(self).spec_box_lines() == old(self).spec_box_lines(),
    {
        self.text_box_status = status;
    }

    pub fn get_text_box_status(&self) -> (r: TextBoxStatus)
        ensures
            r == self.spec_status(),
    {
        self.text_box_status
    }

    /// The lines the box shows.
    pub fn get_text_lines(&self) -> (r: &[String])
        ensures
            views(r@) == self.spec_text(),
    {
        self.text.as_slice()
    }

    /// The lines kept back above those shown.
    pub fn get_buffered_lines(&self) -> (r: &[String])
        ensures
            views(r@) == self.spec_buffered(),
    {
        self.buffered_text.as_slice()
    }
}

} // verus!
