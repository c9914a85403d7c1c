//! Scenario scripts: their elements (text pages, choices, waits, switches,
//! built-in commands and scene changes), the pool that finds an element by its
//! id, and the reader that walks from page to page and can turn back.

use vstd::prelude::*;
use vstd::string::StrSliceExecFns;

use crate::ids::TextureID;
use crate::scene::{SceneID, SceneTransition};
use crate::text::str_equals;

verus! {

/// The id that a scenario script gives each of its elements.
pub type ScenarioElementID = i32;

/// The standing pictures shown beside a page: right, inner right and left.
#[derive(Debug, Clone, Copy)]
pub struct TachieData {
    right: Option<TextureID>,
    inner_right: Option<TextureID>,
    left: Option<TextureID>,
}

impl TachieData {
    pub closed spec fn spec_right(&self) -> Option<TextureID> {
        self.right
    }

    pub closed spec fn spec_inner_right(&self) -> Option<TextureID> {
        self.inner_right
    }

    pub closed spec fn spec_left(&self) -> Option<TextureID> {
        self.left
    }

    pub fn new(
        right: Option<TextureID>,
        inner_right: Option<TextureID>,
        left: Option<TextureID>,
    ) -> (r: Self)
        ensures
            r.spec_right() == right,
            r.spec_inner_right() == inner_right,
            r.spec_left() == left,
    {
        TachieData { right, inner_right, left }
    }

    /// No standing picture at all.
    pub fn new_empty() -> (r: Self)
        ensures
            r.spec_right() is None,
            r.spec_inner_right() is None,
            r.spec_left() is None,
    {
        TachieData { inner_right: None, right: None, left: None }
    }

    pub fn is_none(&self) -> (r: bool)
        ensures
            r == (self.spec_right() is None && self.spec_left() is None
                && self.spec_inner_right() is None),
    {
        self.right.is_none() && self.left.is_none() && self.inner_right.is_none()
    }

    pub fn get_right(&self) -> (r: Option<TextureID>)
        ensures
            r == self.spec_right(),
    {
        self.right
    }

    pub fn get_inner_right(&self) -> (r: Option<TextureID>)
        ensures
            r == self.spec_inner_right(),
    {
        self.inner_right
    }

    pub fn get_left(&self) -> (r: Option<TextureID>)
        ensures
            r == self.spec_left(),
    {
        self.left
    }
}

/// The number of characters that `ScenarioTextSegment::slice` shows for a
/// `length`: one more than `length`, at most all of them.
pub open spec fn shown_chars(total: nat, length: nat) -> nat {
    if length + 1 < total {
        length + 1
    } else {
        total
    }
}

/// The number of characters after the last line break.
pub open spec fn last_line_chars(s: Seq<char>) -> nat
    decreases s.len(),
{
    if s.len() == 0 {
        0
    } else if s.last() == '\n' {
        0
    } else {
        1 + last_line_chars(s.drop_last())
    }
}

/// One run of a page's text.  Its speed, font and colour are floating-point
/// drawing attributes, kept with the text where it is drawn.
pub struct ScenarioTextSegment {
    text: String,
}

impl ScenarioTextSegment {
    pub closed spec fn spec_text(&self) -> Seq<char> {
        self.text@
    }

    pub fn new(text: &str) -> (r: Self)
        ensures
            r.spec_text() == text@,
    {
        ScenarioTextSegment { text: text.to_string() }
    }

    /// The characters of the last line of the segment.
    pub fn last_line_length(&self) -> (r: usize)
        ensures
            r == last_line_chars(self.spec_text()),
    {
        let s = self.text.as_str();
        let n = s.unicode_len();
        let mut i: usize = n;
        let mut length: usize = 0;
        assert(s@.take(n as int) =~= s@);
        while i > 0
            invariant
                n == s@.len(),
                s@ == self.text@,
                i <= n,
                length + i == n || (i > 0 && s@[i - 1] == '\n'),
                length <= n - i,
                last_line_chars(s@) == length + last_line_chars(s@.take(i as int)),
            decreases i,
        {
            let ch = s.get_char(i - 1);
            assert(s@.take(i as int).drop_last() =~= s@.take(i - 1));
            if ch == '\n' {
                assert(last_line_chars(s@.take(i as int)) == 0);
                return length;
            }
            length += 1;
            i -= 1;
        }
        assert(s@.take(0) =~= Seq::<char>::empty());
        length
    }

    /// The text as far as it is shown when `length` characters have been
    /// reached: the first `length + 1` characters, or all of them.
    pub fn slice(&self, length: usize) -> (r: &str)
        ensures
            r@ == self.spec_text().take(shown_chars(self.spec_text().len(), length as nat) as int),
    {
        let s = self.text.as_str();
        let n = s.unicode_len();
        if length < n && length + 1 < n {
            s.substring_char(0, length + 1)
        } else {
            proof {
                assert(s@.take(n as int) =~= s@.subrange(0, n as int));
            }
            s.substring_char(0, n)
        }
    }

    /// Number of characters of the segment.
    pub fn str_len(&self) -> (r: usize)
        ensures
            r == self.spec_text().len(),
    {
        self.text.as_str().unicode_len()
    }

    pub fn get_text(&self) -> (r: &str)
        ensures
            r@ == self.spec_text(),
    {
        self.text.as_str()
    }
}

/// Number of characters of all the segments.
pub open spec fn total_chars(segments: Seq<ScenarioTextSegment>) -> nat
    decreases segments.len(),
{
    if segments.len() == 0 {
        0
    } else {
        total_chars(segments.drop_last()) + segments.last().spec_text().len()
    }
}

/// A page of text.  How far it has been read is a floating-point count, kept
/// where the page is drawn; here the page keeps the segment being shown.
pub struct ScenarioText {
    seq_text: Vec<ScenarioTextSegment>,
    current_segment_index: usize,
    total_length: usize,
    scenario_id: ScenarioElementID,
    next_scenario_id: ScenarioElementID,
    background_texture_id: Option<TextureID>,
    tachie_data: TachieData,
}

impl ScenarioText {
    pub closed spec fn spec_segments(&self) -> Seq<ScenarioTextSegment> {
        self.seq_text@
    }

    pub closed spec fn spec_current_segment(&self) -> usize {
        self.current_segment_index
    }

    pub closed spec fn spec_total_length(&self) -> usize {
        self.total_length
    }

    pub closed spec fn spec_id(&self) -> ScenarioElementID {
        self.scenario_id
    }

    pub closed spec fn spec_next_id(&self) -> ScenarioElementID {
        self.next_scenario_id
    }

    pub closed spec fn spec_background(&self) -> Option<TextureID> {
        self.background_texture_id
    }

    pub closed spec fn spec_tachie(&self) -> TachieData {
        self.tachie_data
    }

    /// The page with its segment index set back to the first segment.
    pub open spec fn spec_reset(&self) -> ScenarioText {
        self.with_segment(0)
    }

    /// The page showing segment `index`.
    pub closed spec fn with_segment(&self, index: usize) -> ScenarioText {
        ScenarioText { current_segment_index: index, ..*self }
    }

    /// A page of the given segments, shown from its first segment; its length
    /// is the number of characters of all of them.
    pub fn new(
        seq_text: Vec<ScenarioTextSegment>,
        scenario_id: ScenarioElementID,
        next_scenario_id: ScenarioElementID,
        background_texture_id: Option<TextureID>,
        tachie_data: TachieData,
    ) -> (r: Self)
        requires
            total_chars(seq_text@) <= usize::MAX,
        ensures
            r.spec_segments() == seq_text@,
            r.spec_current_segment() == 0,
            r.spec_total_length() == total_chars(seq_text@),
            r.spec_id() == scenario_id,
            r.spec_next_id() == next_scenario_id,
            r.spec_background() == background_texture_id,
            r.spec_tachie() == tachie_data,
    {
        let mut total_length: usize = 0;
        let mut i: usize = 0;
        while i < seq_text.len()
            invariant
                i <= seq_text@.len(),
                total_chars(seq_text@) <= usize::MAX,
                total_length == total_chars(seq_text@.take(i as int)),
            decreases seq_text.len() - i,
        {
            proof {
                assert(seq_text@.take(i + 1).drop_last() =~= seq_text@.take(i as int));
                lemma_total_chars_prefix(seq_text@, i + 1);
            }
            total_length = total_length + seq_text[i].str_len();
            i += 1;
        }
        proof {
            assert(seq_text@.take(i as int) =~= seq_text@);
        }
        ScenarioText {
            seq_text,
            current_segment_index: 0,
            total_length,
            scenario_id,
            next_scenario_id,
            background_texture_id,
            tachie_data,
        }
    }

    pub fn reset_segment(&mut self)
        ensures
            *final(self) == old(self).with_segment(0),
    {
        self.current_segment_index = 0;
    }

    pub fn set_current_segment(&mut self, index: usize)
        ensures
            *final(self) == old(self).with_segment(index),
    {
        self.current_segment_index = index;
    }

    /// Starts the page again from its first segment.
    pub fn reset(&mut self)
        ensures
            *final(self) == old(self).spec_reset(),
    {
        self.current_segment_index = 0;
    }

    pub fn get_current_segment(&self) -> (r: usize)
        ensures
            r == self.spec_current_segment(),
    {
        self.current_segment_index
    }

    pub fn get_total_length(&self) -> (r: usize)
        ensures
            r == self.spec_total_length(),
    {
        self.total_length
    }

    /// The segments of the page, in order.
    pub fn seq_text_iter(&self) -> (r: &[ScenarioTextSegment])
        ensures
            r@ == self.spec_segments(),
    {
        self.seq_text.as_slice()
    }

    pub fn get_scenario_id(&self) -> (r: ScenarioElementID)
        ensures
            r == self.spec_id(),
    {
        self.scenario_id
    }

    pub fn get_next_scenario_id(&self) -> (r: ScenarioElementID)
        ensures
            r == self.spec_next_id(),
    {
        self.next_scenario_id
    }

    pub fn get_background_texture_id(&self) -> (r: Option<TextureID>)
        ensures
            r == self.spec_background(),
    {
        self.background_texture_id
    }

    pub fn get_tachie_data(&self) -> (r: TachieData)
        ensures
            r == self.spec_tachie(),
    {
        self.tachie_data
    }
}

/// The characters of the first `k` segments are those of the first `k - 1`
/// and those of segment `k - 1`.
proof fn lemma_total_chars_prefix(segments: Seq<ScenarioTextSegment>, k: int)
    requires
        1 <= k <= segments.len(),
    ensures
        total_chars(segments.take(k)) == total_chars(segments.take(k - 1))
            + segments[k - 1].spec_text().len(),
        total_chars(segments.take(k)) <= total_chars(segments),
    decreases segments.len() - k,
{
    assert(segments.take(k).drop_last() =~= segments.take(k - 1));
    if k < segments.len() {
        lemma_total_chars_prefix(segments, k + 1);
    } else {
        assert(segments.take(k) =~= segments);
    }
}

/// A branch on an operation code of the game: the id to go to when it holds
/// and when it does not.
pub struct ScenarioSwitch {
    opecode: String,
    self_id: ScenarioElementID,
    yes_branch: ScenarioElementID,
    no_branch: ScenarioElementID,
}

impl ScenarioSwitch {
    pub closed spec fn spec_opecode(&self) -> Seq<char> {
        self.opecode@
    }

    pub closed spec fn spec_id(&self) -> ScenarioElementID {
        self.self_id
    }

    pub closed spec fn spec_yes(&self) -> ScenarioElementID {
        self.yes_branch
    }

    pub closed spec fn spec_no(&self) -> ScenarioElementID {
        self.no_branch
    }

    pub fn new(
        opecode: &str,
        self_id: ScenarioElementID,
        yes_branch: ScenarioElementID,
        no_branch: ScenarioElementID,
    ) -> (r: Self)
        ensures
            r.spec_opecode() == opecode@,
            r.spec_id() == self_id,
            r.spec_yes() == yes_branch,
            r.spec_no() == no_branch,
    {
        ScenarioSwitch { opecode: opecode.to_string(), self_id, yes_branch, no_branch }
    }

    pub fn get_opecode(&self) -> (r: &str)
        ensures
            r@ == self.spec_opecode(),
    {
        self.opecode.as_str()
    }

    pub fn get_yes_branch(&self) -> (r: ScenarioElementID)
        ensures
            r == self.spec_yes(),
    {
        self.yes_branch
    }

    pub fn get_no_branch(&self) -> (r: ScenarioElementID)
        ensures
            r == self.spec_no(),
    {
        self.no_branch
    }

    pub fn get_self_scenario_id(&self) -> (r: ScenarioElementID)
        ensures
            r == self.spec_id(),
    {
        self.self_id
    }
}

/// A choice: a header, the options, and for each option the id it leads to.
pub struct ChoicePatternData {
    header_text: String,
    text: Vec<String>,
    jump_scenario_id: Vec<ScenarioElementID>,
    scenario_id: ScenarioElementID,
    background_texture_id: Option<TextureID>,
    tachie_data: TachieData,
}

impl ChoicePatternData {
    pub closed spec fn spec_header(&self) -> Seq<char> {
        self.header_text@
    }

    pub closed spec fn spec_options(&self) -> Seq<String> {
        self.text@
    }

    pub closed spec fn spec_jumps(&self) -> Seq<ScenarioElementID> {
        self.jump_scenario_id@
    }

    pub closed spec fn spec_id(&self) -> ScenarioElementID {
        self.scenario_id
    }

    pub closed spec fn spec_background(&self) -> Option<TextureID> {
        self.background_texture_id
    }

    pub closed spec fn spec_tachie(&self) -> TachieData {
        self.tachie_data
    }

    pub fn new(
        header_text: &str,
        text: Vec<String>,
        jump_scenario_id: Vec<ScenarioElementID>,
        scenario_id: ScenarioElementID,
        background_texture_id: Option<TextureID>,
        tachie_data: TachieData,
    ) -> (r: Self)
        ensures
            r.spec_header() == header_text@,
            r.spec_options() == text@,
            r.spec_jumps() == jump_scenario_id@,
            r.spec_id() == scenario_id,
            r.spec_background() == background_texture_id,
            r.spec_tachie() == tachie_data,
    {
        ChoicePatternData {
            header_text: header_text.to_string(),
            text,
            jump_scenario_id,
            scenario_id,
            background_texture_id,
            tachie_data,
        }
    }

    pub fn get_header_text(&self) -> (r: &str)
        ensures
            r@ == self.spec_header(),
    {
        self.header_text.as_str()
    }

    pub fn get_choice_texts(&self) -> (r: &[String])
        ensures
            r@ == self.spec_options(),
    {
        self.text.as_slice()
    }

    pub fn get_jump_ids(&self) -> (r: &[ScenarioElementID])
        ensures
            r@ == self.spec_jumps(),
    {
        self.jump_scenario_id.as_slice()
    }

    pub fn get_scenario_id(&self) -> (r: ScenarioElementID)
        ensures
            r == self.spec_id(),
    {
        self.scenario_id
    }

    pub fn get_background_texture_id(&self) -> (r: Option<TextureID>)
        ensures
            r == self.spec_background(),
    {
        self.background_texture_id
    }

    pub fn get_tachie_data(&self) -> (r: TachieData)
        ensures
            r == self.spec_tachie(),
    {
        self.tachie_data
    }
}

/// A page that waits for the game to finish an operation before it goes on.
pub struct ScenarioFinishAndWaitData {
    scenario_id: ScenarioElementID,
    next_id: ScenarioElementID,
    background_texture_id: Option<TextureID>,
    tachie_data: TachieData,
    opecode: String,
}

impl ScenarioFinishAndWaitData {
    pub closed spec fn spec_id(&self) -> ScenarioElementID {
        self.scenario_id
    }

    pub closed spec fn spec_next_id(&self) -> ScenarioElementID {
        self.next_id
    }

    pub closed spec fn spec_background(&self) -> Option<TextureID> {
        self.background_texture_id
    }

    pub closed spec fn spec_tachie(&self) -> TachieData {
        self.tachie_data
    }

    pub closed spec fn spec_opecode(&self) -> Seq<char> {
        self.opecode@
    }

    pub fn new(
        scenario_id: ScenarioElementID,
        next_id: ScenarioElementID,
        background_texture_id: Option<TextureID>,
        tachie_data: TachieData,
        opecode: &str,
    ) -> (r: Self)
        ensures
            r.spec_id() == scenario_id,
            r.spec_next_id() == next_id,
            r.spec_background() == background_texture_id,
            r.spec_tachie() == tachie_data,
            r.spec_opecode() == opecode@,
    {
        ScenarioFinishAndWaitData {
            scenario_id,
            next_id,
            background_texture_id,
            tachie_data,
            opecode: opecode.to_string(),
        }
    }

    pub fn get_scenario_id(&self) -> (r: ScenarioElementID)
        ensures
            r == self.spec_id(),
    {
        self.scenario_id
    }

    pub fn get_background_texture_id(&self) -> (r: Option<TextureID>)
        ensures
            r == self.spec_background(),
    {
        self.background_texture_id
    }

    pub fn get_tachie_data(&self) -> (r: TachieData)
        ensures
            r == self.spec_tachie(),
    {
        self.tachie_data
    }

    pub fn get_next_id(&self) -> (r: ScenarioElementID)
        ensures
            r == self.spec_next_id(),
    {
        self.next_id
    }

    pub fn get_opecode(&self) -> (r: &str)
        ensures
            r@ == self.spec_opecode(),
    {
        self.opecode.as_str()
    }
}

/// What the start-of-schedule command carries.
pub struct ScheduleStartEssential {
    scenario_id: ScenarioElementID,
    background_texture_id: Option<TextureID>,
    tachie_data: TachieData,
}

/// A command that the game carries out itself.
pub enum ScenarioBuiltinCommand {
    ScheduleStart(ScheduleStartEssential),
}

impl ScenarioBuiltinCommand {
    pub closed spec fn spec_id(&self) -> ScenarioElementID {
        match self {
            ScenarioBuiltinCommand::ScheduleStart(data) => data.scenario_id,
        }
    }

    pub closed spec fn spec_background(&self) -> Option<TextureID> {
        match self {
            ScenarioBuiltinCommand::ScheduleStart(data) => data.background_texture_id,
        }
    }

    pub closed spec fn spec_tachie(&self) -> TachieData {
        match self {
            ScenarioBuiltinCommand::ScheduleStart(data) => data.tachie_data,
        }
    }

    /// The command named by `opecode`; only `StartSchedule` is known.
    pub fn from_opecode(
        opecode: &str,
        scenario_id: ScenarioElementID,
        background_texture_id: Option<TextureID>,
        tachie_data: TachieData,
    ) -> (r: Option<Self>)
        ensures
            r is Some <==> opecode@ == "StartSchedule"@,
            r matches Some(c) ==> c.spec_id() == scenario_id && c.spec_background()
                == background_texture_id && c.spec_tachie() == tachie_data,
    {
        if str_equals(opecode, "StartSchedule") {
            Some(
                ScenarioBuiltinCommand::ScheduleStart(
                    ScheduleStartEssential { scenario_id, background_texture_id, tachie_data },
                ),
            )
        } else {
            None
        }
    }

    pub fn get_scenario_id(&self) -> (r: ScenarioElementID)
        ensures
            r == self.spec_id(),
    {
        match self {
            ScenarioBuiltinCommand::ScheduleStart(data) => data.scenario_id,
        }
    }

    pub fn get_background_texture_id(&self) -> (r: Option<TextureID>)
        ensures
            r == self.spec_background(),
    {
        match self {
            ScenarioBuiltinCommand::ScheduleStart(data) => data.background_texture_id,
        }
    }

    pub fn get_tachie_info(&self) -> (r: TachieData)
        ensures
            r == self.spec_tachie(),
    {
        match self {
            ScenarioBuiltinCommand::ScheduleStart(data) => data.tachie_data,
        }
    }
}

/// A change of scene: the scene, how it is entered, and the element's id.
#[derive(Clone, Copy)]
pub struct ScenarioTransitionData(pub SceneID, pub SceneTransition, pub ScenarioElementID);

impl ScenarioTransitionData {
    pub closed spec fn spec_scene(&self) -> SceneID {
        self.0
    }

    pub closed spec fn spec_transition(&self) -> SceneTransition {
        self.1
    }

    pub closed spec fn spec_id(&self) -> ScenarioElementID {
        self.2
    }

    pub fn new(scene: SceneID, transition: SceneTransition, id: ScenarioElementID) -> (r: Self)
        ensures
            r.spec_scene() == scene,
            r.spec_transition() == transition,
            r.spec_id() == id,
    {
        ScenarioTransitionData(scene, transition, id)
    }

    pub fn get_scene(&self) -> (r: SceneID)
        ensures
            r == self.spec_scene(),
    {
        self.0
    }

    pub fn get_transition(&self) -> (r: SceneTransition)
        ensures
            r == self.spec_transition(),
    {
        self.1
    }

    pub fn get_scenario_id(&self) -> (r: ScenarioElementID)
        ensures
            r == self.spec_id(),
    {
        self.2
    }
}

/// One element of a scenario script.
pub enum ScenarioElement {
    Text(ScenarioText),
    ChoiceSwitch(ChoicePatternData),
    SceneTransition(ScenarioTransitionData),
    FinishAndWait(ScenarioFinishAndWaitData),
    BuiltinCommand(ScenarioBuiltinCommand),
    Switch(ScenarioSwitch),
}

impl ScenarioElement {
    pub open spec fn spec_id(&self) -> ScenarioElementID {
        match self {
            ScenarioElement::Text(text) => text.spec_id(),
            ScenarioElement::ChoiceSwitch(choice) => choice.spec_id(),
            ScenarioElement::SceneTransition(data) => data.spec_id(),
            ScenarioElement::FinishAndWait(data) => data.spec_id(),
            ScenarioElement::BuiltinCommand(command) => command.spec_id(),
            ScenarioElement::Switch(switch) => switch.spec_id(),
        }
    }

    pub open spec fn spec_background(&self) -> Option<TextureID> {
        match self {
            ScenarioElement::Text(text) => text.spec_background(),
            ScenarioElement::ChoiceSwitch(choice) => choice.spec_background(),
            ScenarioElement::SceneTransition(_) => None,
            ScenarioElement::FinishAndWait(data) => data.spec_background(),
            ScenarioElement::BuiltinCommand(command) => command.spec_background(),
            ScenarioElement::Switch(_) => None,
        }
    }

    /// The standing pictures of the element; `None` where it shows none.
    pub open spec fn spec_tachie(&self) -> Option<TachieData> {
        match self {
            ScenarioElement::Text(text) => Some(text.spec_tachie()),
            ScenarioElement::ChoiceSwitch(choice) => Some(choice.spec_tachie()),
            ScenarioElement::SceneTransition(_) => None,
            ScenarioElement::FinishAndWait(data) => Some(data.spec_tachie()),
            ScenarioElement::BuiltinCommand(command) => Some(command.spec_tachie()),
            ScenarioElement::Switch(_) => None,
        }
    }

    /// The element as it is when the reader arrives on it: a text page starts
    /// again from its first segment.
    pub open spec fn spec_entered(&self) -> ScenarioElement {
        match self {
            ScenarioElement::Text(text) => ScenarioElement::Text(text.spec_reset()),
            _ => *self,
        }
    }

    pub fn get_scenario_id(&self) -> (r: ScenarioElementID)
        ensures
            r == self.spec_id(),
    {
        match self {
            ScenarioElement::Text(text) => text.get_scenario_id(),
            ScenarioElement::ChoiceSwitch(choice) => choice.get_scenario_id(),
            ScenarioElement::SceneTransition(data) => data.get_scenario_id(),
            ScenarioElement::FinishAndWait(data) => data.get_scenario_id(),
            ScenarioElement::BuiltinCommand(command) => command.get_scenario_id(),
            ScenarioElement::Switch(switch) => switch.get_self_scenario_id(),
        }
    }

    pub fn get_background_texture(&self) -> (r: Option<TextureID>)
        ensures
            r == self.spec_background(),
    {
        match self {
            ScenarioElement::Text(text) => text.get_background_texture_id(),
            ScenarioElement::ChoiceSwitch(choice) => choice.get_background_texture_id(),
            ScenarioElement::SceneTransition(_) => None,
            ScenarioElement::FinishAndWait(data) => data.get_background_texture_id(),
            ScenarioElement::BuiltinCommand(command) => command.get_background_texture_id(),
            ScenarioElement::Switch(_) => None,
        }
    }

    /// The standing pictures of the element; the empty set where it shows none.
    pub fn get_tachie_info(&self) -> (r: TachieData)
        ensures
            self.spec_tachie() matches Some(t) ==> r == t,
            self.spec_tachie() is None ==> r.spec_right() is None && r.spec_inner_right() is None
                && r.spec_left() is None,
    {
        match self {
            ScenarioElement::Text(text) => text.get_tachie_data(),
            ScenarioElement::ChoiceSwitch(choice) => choice.get_tachie_data(),
            ScenarioElement::SceneTransition(_) => TachieData::new_empty(),
            ScenarioElement::FinishAndWait(data) => data.get_tachie_data(),
            ScenarioElement::BuiltinCommand(command) => command.get_tachie_info(),
            ScenarioElement::Switch(_) => TachieData::new_empty(),
        }
    }
}

/// The ids of the elements, in order.
pub open spec fn element_ids(elements: Seq<ScenarioElement>) -> Seq<ScenarioElementID> {
    elements.map_values(|e: ScenarioElement| e.spec_id())
}

/// The position of the first id equal to `id`, or `0` when none is.
pub open spec fn first_index_of(ids: Seq<ScenarioElementID>, id: ScenarioElementID) -> int {
    if exists|k: int| 0 <= k < ids.len() && ids[k] == id {
        choose|k: int|
            0 <= k < ids.len() && ids[k] == id && forall|j: int| 0 <= j < k ==> ids[j] != id
    } else {
        0
    }
}

/// The elements with the one at `index` entered.
pub open spec fn entered_at(elements: Seq<ScenarioElement>, index: int) -> Seq<ScenarioElement> {
    elements.update(index, elements[index].spec_entered())
}

/// The ids left when the reader turns back `offset` steps.
pub open spec fn turned_back(stack: Seq<ScenarioElementID>, offset: int) -> Seq<ScenarioElementID> {
    stack.take(stack.len() - offset)
}

/// `i` is the first position that holds `id`.
proof fn lemma_first_index_is(ids: Seq<ScenarioElementID>, id: ScenarioElementID, i: int)
    requires
        0 <= i < ids.len(),
        ids[i] == id,
        forall|j: int| 0 <= j < i ==> ids[j] != id,
    ensures
        first_index_of(ids, id) == i,
{
    let k = first_index_of(ids, id);
    assert(0 <= k < ids.len() && ids[k] == id && forall|j: int| 0 <= j < k ==> ids[j] != id);
    if k < i {
        assert(ids[k] != id);
    } else if i < k {
        assert(ids[i] != id);
    }
}

/// The first position of an id lies within a non-empty script.
pub proof fn lemma_first_index_in_range(elements: Seq<ScenarioElement>, id: ScenarioElementID)
    requires
        elements.len() > 0,
    ensures
        0 <= first_index_of(element_ids(elements), id) < elements.len(),
{
    let ids = element_ids(elements);
    if exists|k: int| 0 <= k < ids.len() && ids[k] == id {
        let w = choose|k: int| 0 <= k < ids.len() && ids[k] == id;
        lemma_least_index_exists(ids, id, w);
    }
}

/// Where some position holds `id`, a first one does.
proof fn lemma_least_index_exists(ids: Seq<ScenarioElementID>, id: ScenarioElementID, w: int)
    requires
        0 <= w < ids.len(),
        ids[w] == id,
    ensures
        exists|k: int|
            0 <= k < ids.len() && ids[k] == id && forall|j: int| 0 <= j < k ==> ids[j] != id,
    decreases w,
{
    if exists|j: int| 0 <= j < w && ids[j] == id {
        let j = choose|j: int| 0 <= j < w && ids[j] == id;
        lemma_least_index_exists(ids, id, j);
    } else {
        assert(forall|j: int| 0 <= j < w ==> ids[j] != id);
    }
}

/// Entering an element keeps every id.
pub proof fn lemma_entered_keeps_ids(elements: Seq<ScenarioElement>, index: int)
    requires
        0 <= index < elements.len(),
    ensures
        element_ids(entered_at(elements, index)) == element_ids(elements),
        entered_at(elements, index).len() == elements.len(),
{
    assert(element_ids(entered_at(elements, index)) =~= element_ids(elements));
}

/// Turning back one step after going on to an element returns the reader to
/// the ids it remembered and to the element it showed before the step, though
/// the element stepped to was entered.
pub proof fn law_turn_back_undoes_step(
    elements: Seq<ScenarioElement>,
    stack: Seq<ScenarioElementID>,
    next: ScenarioElementID,
)
    requires
        elements.len() > 0,
        stack.len() > 0,
    ensures
        turned_back(stack.push(next), 1) == stack,
        first_index_of(
            element_ids(entered_at(elements, first_index_of(element_ids(elements), next))),
            turned_back(stack.push(next), 1).last(),
        ) == first_index_of(element_ids(elements), stack.last()),
{
    assert(stack.push(next).take(stack.len() as int) =~= stack);
    lemma_first_index_in_range(elements, next);
    lemma_entered_keeps_ids(elements, first_index_of(element_ids(elements), next));
}

/// The elements of a scenario script, in the order of the script.
pub struct ScenarioElementPool {
    pool: Vec<ScenarioElement>,
}

impl View for ScenarioElementPool {
    type V = Seq<ScenarioElement>;

    closed spec fn view(&self) -> Seq<ScenarioElement> {
        self.pool@
    }
}

impl ScenarioElementPool {
    pub fn new_empty() -> (r: Self)
        ensures
            r@ == Seq::<ScenarioElement>::empty(),
    {
        ScenarioElementPool { pool: Vec::new() }
    }

    pub fn add(&mut self, elem: ScenarioElement)
        ensures
            final(self)@ == old(self)@.push(elem),
    {
        self.pool.push(elem);
    }

    /// The index of the first element with id `scenario_id`; `0` when no
    /// element has it.
    pub fn find_index_of_specified_scenario_id(&self, scenario_id: ScenarioElementID) -> (r: usize)
        ensures
            r == first_index_of(element_ids(self@), scenario_id),
    {
        let mut i: usize = 0;
        while i < self.pool.len()
            invariant
                i <= self.pool@.len(),
                forall|j: int| 0 <= j < i ==> element_ids(self.pool@)[j] != scenario_id,
            decreases self.pool.len() - i,
        {
            if scenario_id == self.pool[i].get_scenario_id() {
                proof {
                    lemma_first_index_is(element_ids(self.pool@), scenario_id, i as int);
                }
                return i;
            }
            i += 1;
        }
        assert(!exists|k: int|
            0 <= k < element_ids(self.pool@).len() && element_ids(self.pool@)[k] == scenario_id);
        0
    }

    pub fn len(&self) -> (r: usize)
        ensures
            r == self@.len(),
    {
        self.pool.len()
    }

    /// The element at `index`, if there is one.
    pub fn seq_access(&self, index: usize) -> (r: Option<&ScenarioElement>)
        ensures
            r is Some <==> index < self@.len(),
            r matches Some(e) ==> *e == self@[index as int],
    {
        if index < self.pool.len() {
            Some(&self.pool[index])
        } else {
            None
        }
    }

    /// Starts the element at `index` as the reader arrives on it: a text page
    /// goes back to its first segment.
    fn enter(&mut self, index: usize)
        requires
            index < old(self)@.len(),
        ensures
            final(self)@ == entered_at(old(self)@, index as int),
    {
        match &mut self.pool[index] {
            ScenarioElement::Text(text) => text.reset(),
            _ => {},
        }
    }
}

/// The reader of a scenario: its elements, the ids it has gone to, newest
/// last, and the element it shows.
pub struct Scenario {
    scenario: ScenarioElementPool,
    element_id_stack: Vec<ScenarioElementID>,
    current_page: usize,
}

impl Scenario {
    /// The reader remembers where it is, and shows one of its elements.
    pub closed spec fn well_formed(&self) -> bool {
        &&& self.element_id_stack@.len() > 0
        &&& self.current_page < self.scenario@.len()
        &&& self.current_page == first_index_of(
            element_ids(self.scenario@),
            self.element_id_stack@.last(),
        )
    }

    pub closed spec fn spec_elements(&self) -> Seq<ScenarioElement> {
        self.scenario@
    }

    pub closed spec fn spec_stack(&self) -> Seq<ScenarioElementID> {
        self.element_id_stack@
    }

    pub closed spec fn spec_current_page(&self) -> int {
        self.current_page as int
    }

    /// The elements that end every script: a change to the scenario scene, to
    /// the shop and to the save screen, with the ids the script gives them.
    pub open spec fn transition_elements(
        scenario_id: ScenarioElementID,
        dream_id: ScenarioElementID,
        save_id: ScenarioElementID,
    ) -> Seq<ScenarioElement> {
        seq![
            ScenarioElement::SceneTransition(
                ScenarioTransitionData(SceneID::Scenario, SceneTransition::SwapTransition, scenario_id),
            ),
            ScenarioElement::SceneTransition(
                ScenarioTransitionData(SceneID::SuzunaShop, SceneTransition::SwapTransition, dream_id),
            ),
            ScenarioElement::SceneTransition(
                ScenarioTransitionData(SceneID::Save, SceneTransition::StackingTransition, save_id),
            ),
        ]
    }

    /// A reader of the script's elements followed by its three scene changes,
    /// showing the element with id `first_scenario_id`.
    pub fn new(
        elements: Vec<ScenarioElement>,
        scenario_transition_id: ScenarioElementID,
        dream_transition_id: ScenarioElementID,
        save_transition_id: ScenarioElementID,
        first_scenario_id: ScenarioElementID,
    ) -> (r: Self)
        ensures
            r.spec_elements() == elements@ + Self::transition_elements(
                scenario_transition_id,
                dream_transition_id,
                save_transition_id,
            ),
            r.well_formed(),
            r.spec_stack() == seq![first_scenario_id],
            r.spec_current_page() == first_index_of(
                element_ids(r.spec_elements()),
                first_scenario_id,
            ),
    {
        let ghost given = elements@;
        let mut pool = ScenarioElementPool { pool: elements };
        pool.add(
            ScenarioElement::SceneTransition(
                ScenarioTransitionData(
                    SceneID::Scenario,
                    SceneTransition::SwapTransition,
                    scenario_transition_id,
                ),
            ),
        );
        pool.add(
            ScenarioElement::SceneTransition(
                ScenarioTransitionData(
                    SceneID::SuzunaShop,
                    SceneTransition::SwapTransition,
                    dream_transition_id,
                ),
            ),
        );
        pool.add(
            ScenarioElement::SceneTransition(
                ScenarioTransitionData(
                    SceneID::Save,
                    SceneTransition::StackingTransition,
                    save_transition_id,
                ),
            ),
        );
        proof {
            assert(pool@ =~= given + Self::transition_elements(
                scenario_transition_id,
                dream_transition_id,
                save_transition_id,
            ));
        }
        let index = pool.find_index_of_specified_scenario_id(first_scenario_id);
        proof {
            lemma_first_index_in_range(pool@, first_scenario_id);
        }
        let stack: Vec<ScenarioElementID> = vec![first_scenario_id];
        Scenario { scenario: pool, element_id_stack: stack, current_page: index }
    }

    /// Goes to the element with id `scenario_element_id`, remembering the id.
    pub fn update_current_page_index(&mut self, scenario_element_id: ScenarioElementID)
        requires
            old(self).well_formed(),
        ensures
            final(self).well_formed(),
            final(self).spec_elements() == old(self).spec_elements(),
            final(self).spec_stack() == old(self).spec_stack().push(scenario_element_id),
            final(self).spec_current_page() == first_index_of(
                element_ids(old(self).spec_elements()),
                scenario_element_id,
            ),
    {
        self.element_id_stack.push(scenario_element_id);
        let index = self.scenario.find_index_of_specified_scenario_id(scenario_element_id);
        proof {
            lemma_first_index_in_range(self.scenario@, scenario_element_id);
        }
        self.current_page = index;
    }

    /// Arrives on the current element: a text page starts from its first
    /// segment.
    fn enter_current(&mut self)
        requires
            old(self).well_formed(),
        ensures
            final(self).well_formed(),
            final(self).spec_elements() == entered_at(
                old(self).spec_elements(),
                old(self).spec_current_page(),
            ),
            final(self).spec_stack() == old(self).spec_stack(),
            final(self).spec_current_page() == old(self).spec_current_page(),
    {
        proof {
            lemma_entered_keeps_ids(self.scenario@, self.current_page as int);
        }
        self.scenario.enter(self.current_page);
    }

    /// Turns back `offset` steps: forgets the last `offset` ids, shows the
    /// element of the id now last, and starts it again.
    pub fn turn_back_scenario_offset(&mut self, offset: usize)
        requires
            old(self).well_formed(),
            offset < old(self).spec_stack().len(),
        ensures
            final(self).well_formed(),
            final(self).spec_stack() == turned_back(old(self).spec_stack(), offset as int),
            final(self).spec_current_page() == first_index_of(
                element_ids(old(self).spec_elements()),
                final(self).spec_stack().last(),
            ),
            final(self).spec_elements() == entered_at(
                old(self).spec_elements(),
                final(self).spec_current_page(),
            ),
    {
        let ghost start = self.element_id_stack@;
        let mut k: usize = 0;
        while k < offset
            invariant
                offset < start.len(),
                k <= offset,
                self.element_id_stack@ == start.take(start.len() - k),
                self.scenario@ == old(self).spec_elements(),
                self.current_page < self.scenario@.len(),
            decreases offset - k,
        {
            self.element_id_stack.pop();
            proof {
                assert(self.element_id_stack@ =~= start.take(start.len() - (k + 1)));
            }
            k += 1;
        }
        let last = self.element_id_stack.len() - 1;
        let turn_backed_id = self.element_id_stack[last];
        let index = self.scenario.find_index_of_specified_scenario_id(turn_backed_id);
        proof {
            lemma_first_index_in_range(self.scenario@, turn_backed_id);
        }
        self.current_page = index;
        self.enter_current();
    }

    /// Leaves a waiting page for the id it names next.
    pub fn go_next_scenario_from_waiting(&mut self)
        requires
            old(self).well_formed(),
            old(self).spec_elements()[old(self).spec_current_page()] is FinishAndWait,
        ensures
            final(self).well_formed(),
            ({
                let next = old(self).spec_elements()[old(self).spec_current_page()]->FinishAndWait_0.spec_next_id();
                let page = first_index_of(element_ids(old(self).spec_elements()), next);
                &&& final(self).spec_stack() == old(self).spec_stack().push(next)
                &&& final(self).spec_current_page() == page
                &&& final(self).spec_elements() == entered_at(old(self).spec_elements(), page)
            }),
    {
        let next_id = match &self.scenario.pool[self.current_page] {
            ScenarioElement::FinishAndWait(data) => data.get_next_id(),
            _ => {
                proof {
                    assert(false);
                }
                0
            },
        };
        self.update_current_page_index(next_id);
        self.enter_current();
    }

    /// Leaves a text page for the id it names next.
    pub fn go_next_scenario_from_text_scenario(&mut self)
        requires
            old(self).well_formed(),
            old(self).spec_elements()[old(self).spec_current_page()] is Text,
        ensures
            final(self).well_formed(),
            ({
                let next = old(self).spec_elements()[old(self).spec_current_page()]->Text_0.spec_next_id();
                let page = first_index_of(element_ids(old(self).spec_elements()), next);
                &&& final(self).spec_stack() == old(self).spec_stack().push(next)
                &&& final(self).spec_current_page() == page
                &&& final(self).spec_elements() == entered_at(old(self).spec_elements(), page)
            }),
    {
        let next_id = match &self.scenario.pool[self.current_page] {
            ScenarioElement::Text(text) => text.get_next_scenario_id(),
            _ => {
                proof {
                    assert(false);
                }
                0
            },
        };
        self.update_current_page_index(next_id);
        self.enter_current();
    }

    /// Leaves a choice for the id of the option `select_index`.
    pub fn go_next_scenario_from_choice_scenario(&mut self, select_index: usize)
        requires
            old(self).well_formed(),
            old(self).spec_elements()[old(self).spec_current_page()] is ChoiceSwitch,
            select_index < old(self).spec_elements()[old(
                self,
            ).spec_current_page()]->ChoiceSwitch_0.spec_jumps().len(),
        ensures
            final(self).well_formed(),
            ({
                let next = old(self).spec_elements()[old(self).spec_current_page()]->ChoiceSwitch_0.spec_jumps()[select_index as int];
                let page = first_index_of(element_ids(old(self).spec_elements()), next);
                &&& final(self).spec_stack() == old(self).spec_stack().push(next)
                &&& final(self).spec_current_page() == page
                &&& final(self).spec_elements() == entered_at(old(self).spec_elements(), page)
            }),
    {
        let next_id = match &self.scenario.pool[self.current_page] {
            ScenarioElement::ChoiceSwitch(choice) => choice.jump_scenario_id[select_index],
            _ => {
                proof {
                    assert(false);
                }
                0
            },
        };
        self.update_current_page_index(next_id);
        self.enter_current();
    }

    /// Whether the reader shows the last element of the script.
    pub fn final_page(&self) -> (r: bool)
        requires
            self.well_formed(),
        ensures
            r == (self.spec_current_page() == self.spec_elements().len() - 1),
    {
        self.scenario.len() - 1 == self.current_page
    }

    /// The element the reader shows.
    pub fn ref_current_element(&self) -> (r: &ScenarioElement)
        requires
            self.well_formed(),
        ensures
            0 <= self.spec_current_page() < self.spec_elements().len(),
            *r == self.spec_elements()[self.spec_current_page()],
    {
        &self.scenario.pool[self.current_page]
    }

    /// The operation a waiting page waits for; `None` on any other element.
    pub fn get_waiting_opecode(&self) -> (r: Option<&str>)
        requires
            self.well_formed(),
        ensures
            r is Some <==> self.spec_elements()[self.spec_current_page()] is FinishAndWait,
            r matches Some(code) ==> code@ == self.spec_elements()[self.spec_current_page()]->FinishAndWait_0.spec_opecode(),
    {
        match self.ref_current_element() {
            ScenarioElement::FinishAndWait(data) => Some(data.get_opecode()),
            _ => None,
        }
    }

    /// The game has finished what the page waited for: go on.
    pub fn release_waiting(&mut self)
        requires
            old(self).well_formed(),
            old(self).spec_elements()[old(self).spec_current_page()] is FinishAndWait,
        ensures
            final(self).well_formed(),
            ({
                let next = old(self).spec_elements()[old(self).spec_current_page()]->FinishAndWait_0.spec_next_id();
                let page = first_index_of(element_ids(old(self).spec_elements()), next);
                &&& final(self).spec_stack() == old(self).spec_stack().push(next)
                &&& final(self).spec_current_page() == page
                &&& final(self).spec_elements() == entered_at(old(self).spec_elements(), page)
            }),
    {
        self.go_next_scenario_from_waiting();
    }

    /// Follows a switch on whether the game has been cleared, the only
    /// operation code a switch may carry: to its yes branch when it has, to
    /// its no branch when not.
    pub fn follow_switch(&mut self, game_cleared: bool)
        requires
            old(self).well_formed(),
            old(self).spec_elements()[old(self).spec_current_page()] is Switch,
            old(self).spec_elements()[old(self).spec_current_page()]->Switch_0.spec_opecode()
                == "cleared"@,
        ensures
            final(self).well_formed(),
            ({
                let switch = old(self).spec_elements()[old(self).spec_current_page()]->Switch_0;
                let next = if game_cleared {
                    switch.spec_yes()
                } else {
                    switch.spec_no()
                };
                let page = first_index_of(element_ids(old(self).spec_elements()), next);
                &&& final(self).spec_stack() == old(self).spec_stack().push(next)
                &&& final(self).spec_current_page() == page
                &&& final(self).spec_elements() == entered_at(old(self).spec_elements(), page)
            }),
    {
        let next_id = match &self.scenario.pool[self.current_page] {
            ScenarioElement::Switch(switch) => {
                if game_cleared {
                    switch.get_yes_branch()
                } else {
                    switch.get_no_branch()
                }
            },
            _ => {
                proof {
                    assert(false);
                }
                0
            },
        };
        self.update_current_page_index(next_id);
        self.enter_current();
    }

    /// The id to save the reader at: the one it went to before the last.
    pub fn get_scenario_id_for_saving(&self) -> (r: ScenarioElementID)
        requires
            self.spec_stack().len() >= 2,
        ensures
            r == self.spec_stack()[self.spec_stack().len() - 2],
    {
        let len = self.element_id_stack.len();
        self.element_id_stack[len - 2]
    }

    /// The ids the reader has gone to, oldest first.
    pub fn get_element_id_stack(&self) -> (r: &[ScenarioElementID])
        ensures
            r@ == self.spec_stack(),
    {
        self.element_id_stack.as_slice()
    }
}

/// What a scenario event is doing.
#[derive(Debug, Clone, Copy, PartialEq, Eq, Structural)]
pub enum ScenarioEventStatus {
    Scenario,
    Choice,
    SceneTransition,
    FinishAndWait,
    StartSchedule,
    BuiltinSwitch,
}

} // verus!
