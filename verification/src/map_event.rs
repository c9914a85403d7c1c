//! Events placed on the shop's map: what triggers them, what they do, and the
//! table that finds the event at a map position.

use std::collections::HashMap;

use vstd::prelude::*;

use crate::book::BookShelfInformation;
use crate::scene::SceneID;
use crate::text::str_equals;

verus! {

broadcast use vstd::std_specs::hash::group_hash_axioms;

/// How an event on the map is set off: by the action key, or by stepping on it.
#[derive(Debug, PartialEq, Eq, Clone, Copy, Structural)]
pub enum EventTrigger {
    Action,
    Touch,
}

/// The trigger named `s` in the map files.
pub open spec fn trigger_named(s: Seq<char>) -> Option<EventTrigger> {
    if s == "action"@ {
        Some(EventTrigger::Action)
    } else if s == "touch"@ {
        Some(EventTrigger::Touch)
    } else {
        None
    }
}

/// The name of each event trigger, as the game's files write it.
pub open spec fn trigger_name(t: EventTrigger) -> Seq<char> {
    match t {
        EventTrigger::Action => "action"@,
        EventTrigger::Touch => "touch"@,
    }
}

/// Law: the name of every event trigger reads back as that event trigger, and a text that
/// reads as a event trigger is its name.
pub proof fn law_trigger_name_reads_back(t: EventTrigger, s: Seq<char>)
    ensures
        trigger_named(trigger_name(t)) == Some(t),
        trigger_named(s) == Some(t) ==> s == trigger_name(t),
{
    reveal_strlit("action");
    reveal_strlit("touch");
    assert("action"@.len() == 6);
    assert("touch"@.len() == 5);
}

impl EventTrigger {
    /// The trigger named `s`, if the name is known.
    pub fn named(s: &str) -> (r: Option<Self>)
        ensures
            r == trigger_named(s@),
    {
        if str_equals(s, "action") {
            Some(EventTrigger::Action)
        } else if str_equals(s, "touch") {
            Some(EventTrigger::Touch)
        } else {
            None
        }
    }

    /// The trigger named `s`; only `action` and `touch` are known.
    pub fn from_str(s: &str) -> (r: Result<Self, ()>)
        requires
            trigger_named(s@) is Some,
        ensures
            r == Ok::<EventTrigger, ()>(trigger_named(s@).unwrap()),
    {
        if str_equals(s, "action") {
            Ok(EventTrigger::Action)
        } else {
            Ok(EventTrigger::Touch)
        }
    }
}

/// Anything on the map that a trigger sets off.
pub trait MapEvent {
    fn get_trigger_method(&self) -> EventTrigger;
}

/// A text shown when the event is set off.
pub struct MapTextEvent {
    trigger: EventTrigger,
    text: String,
}

impl MapTextEvent {
    pub closed spec fn spec_trigger(&self) -> EventTrigger {
        self.trigger
    }

    pub closed spec fn spec_text(&self) -> Seq<char> {
        self.text@
    }

    pub fn new(trigger: EventTrigger, text: &str) -> (r: Self)
        ensures
            r.spec_trigger() == trigger,
            r.spec_text() == text@,
    {
        MapTextEvent { trigger, text: text.to_string() }
    }

    pub fn get_text(&self) -> (r: &str)
        ensures
            r@ == self.spec_text(),
    {
        self.text.as_str()
    }
}

impl MapEvent for MapTextEvent {
    fn get_trigger_method(&self) -> (r: EventTrigger)
        ensures
            r == self.spec_trigger(),
    {
        self.trigger
    }
}

/// A change to another scene.
pub struct MapEventSceneSwitch {
    trigger: EventTrigger,
    switch_scene: SceneID,
}

impl MapEventSceneSwitch {
    pub closed spec fn spec_trigger(&self) -> EventTrigger {
        self.trigger
    }

    pub closed spec fn spec_scene(&self) -> SceneID {
        self.switch_scene
    }

    pub fn new(trigger: EventTrigger, switch_scene: SceneID) -> (r: Self)
        ensures
            r.spec_trigger() == trigger,
            r.spec_scene() == switch_scene,
    {
        MapEventSceneSwitch { trigger: trigger, switch_scene: switch_scene }
    }

    pub fn get_switch_scene_id(&self) -> (r: SceneID)
        ensures
            r == self.spec_scene(),
    {
        self.switch_scene
    }
}

impl MapEvent for MapEventSceneSwitch {
    fn get_trigger_method(&self) -> (r: EventTrigger)
        ensures
            r == self.spec_trigger(),
    {
        self.trigger
    }
}

/// A book shelf, on which books of a range of billing numbers are put.
pub struct BookStoreEvent {
    trigger: EventTrigger,
    book_shelf_info: BookShelfInformation,
}

impl BookStoreEvent {
    pub closed spec fn spec_trigger(&self) -> EventTrigger {
        self.trigger
    }

    pub closed spec fn spec_shelf(&self) -> BookShelfInformation {
        self.book_shelf_info
    }

    pub fn new(trigger: EventTrigger, book_shelf_info: BookShelfInformation) -> (r: Self)
        ensures
            r.spec_trigger() == trigger,
            r.spec_shelf() == book_shelf_info,
    {
        BookStoreEvent { trigger, book_shelf_info }
    }

    pub fn get_book_shelf_info(&self) -> (r: &BookShelfInformation)
        ensures
            *r == self.spec_shelf(),
    {
        &self.book_shelf_info
    }
}

impl MapEvent for BookStoreEvent {
    fn get_trigger_method(&self) -> (r: EventTrigger)
        ensures
            r == self.spec_trigger(),
    {
        self.trigger
    }
}

/// The events that the game carries out itself.
#[derive(Debug, PartialEq, Eq, Clone, Copy, Structural)]
pub enum BuiltinEventSymbol {
    SelectShelvingBook,
}

impl BuiltinEventSymbol {
    /// The event named `s`, if the name is known.
    pub fn named(s: &str) -> (r: Option<Self>)
        ensures
            r is Some <==> s@ == "select-shelving-book"@,
            r matches Some(e) ==> e == BuiltinEventSymbol::SelectShelvingBook,
    {
        if str_equals(s, "select-shelving-book") {
            Some(BuiltinEventSymbol::SelectShelvingBook)
        } else {
            None
        }
    }

    /// The event named `s`; only `select-shelving-book` is known.
    pub fn from_str(s: &str) -> (r: Result<Self, ()>)
        requires
            s@ == "select-shelving-book"@,
        ensures
            r == Ok::<BuiltinEventSymbol, ()>(BuiltinEventSymbol::SelectShelvingBook),
    {
        Ok(BuiltinEventSymbol::SelectShelvingBook)
    }
}

/// An event that the game carries out itself.
#[derive(Clone, Copy)]
pub struct BuiltinEvent {
    trigger: EventTrigger,
    event_symbol: BuiltinEventSymbol,
}

impl BuiltinEvent {
    pub closed spec fn spec_trigger(&self) -> EventTrigger {
        self.trigger
    }

    pub closed spec fn spec_symbol(&self) -> BuiltinEventSymbol {
        self.event_symbol
    }

    pub fn new(trigger: EventTrigger, event_symbol: BuiltinEventSymbol) -> (r: Self)
        ensures
            r.spec_trigger() == trigger,
            r.spec_symbol() == event_symbol,
    {
        BuiltinEvent { trigger, event_symbol }
    }

    pub fn get_event_symbol(&self) -> (r: BuiltinEventSymbol)
        ensures
            r == self.spec_symbol(),
    {
        self.event_symbol
    }
}

impl MapEvent for BuiltinEvent {
    fn get_trigger_method(&self) -> (r: EventTrigger)
        ensures
            r == self.spec_trigger(),
    {
        self.trigger
    }
}

/// One event of the map.
pub enum MapEventElement {
    TextEvent(MapTextEvent),
    SwitchScene(MapEventSceneSwitch),
    BookStoreEvent(BookStoreEvent),
    BuiltinEvent(BuiltinEvent),
}

impl MapEventElement {
    pub open spec fn spec_trigger(&self) -> EventTrigger {
        match self {
            MapEventElement::TextEvent(e) => e.spec_trigger(),
            MapEventElement::SwitchScene(e) => e.spec_trigger(),
            MapEventElement::BookStoreEvent(e) => e.spec_trigger(),
            MapEventElement::BuiltinEvent(e) => e.spec_trigger(),
        }
    }
}

impl MapEvent for MapEventElement {
    fn get_trigger_method(&self) -> (r: EventTrigger)
        ensures
            r == self.spec_trigger(),
    {
        match self {
            MapEventElement::TextEvent(text) => text.get_trigger_method(),
            MapEventElement::SwitchScene(switch_scene) => switch_scene.get_trigger_method(),
            MapEventElement::BookStoreEvent(book_store_event) => book_store_event.get_trigger_method(),
            MapEventElement::BuiltinEvent(builtin_event) => builtin_event.get_trigger_method(),
        }
    }
}

/// The number under which the event at map position `p` is filed.
pub open spec fn position_key(p: (i32, i32)) -> i64 {
    (p.0 * 0x1_0000_0000 + (p.1 + 0x8000_0000)) as i64
}

proof fn lemma_scaled_bounds(x: int)
    by (nonlinear_arith)
    requires
        i32::MIN <= x <= i32::MAX,
    ensures
        -0x8000_0000 * 0x1_0000_0000 <= x * 0x1_0000_0000 <= 0x7fff_ffff * 0x1_0000_0000,
{
}

proof fn lemma_scaled_gap(x: int, y: int)
    by (nonlinear_arith)
    requires
        x < y,
    ensures
        x * 0x1_0000_0000 + 0x1_0000_0000 <= y * 0x1_0000_0000,
{
}

/// Law: two positions are filed under the same number only when they are the
/// same position.
pub proof fn law_position_key_injective(a: (i32, i32), b: (i32, i32))
    ensures
        position_key(a) == position_key(b) <==> a == b,
{
    lemma_scaled_bounds(a.0 as int);
    lemma_scaled_bounds(b.0 as int);
    if a.0 < b.0 {
        lemma_scaled_gap(a.0 as int, b.0 as int);
    } else if a.0 > b.0 {
        lemma_scaled_gap(b.0 as int, a.0 as int);
    }
}

fn position_key_of(p: (i32, i32)) -> (r: i64)
    ensures
        r == position_key(p),
{
    let x: i64 = p.0 as i64;
    let y: i64 = p.1 as i64 + 0x8000_0000;
    proof {
        lemma_scaled_bounds(x as int);
    }
    x * 0x1_0000_0000 + y
}

/// The events of a map, by map position.
pub struct MapEventList {
    event_table: HashMap<i64, MapEventElement>,
}

impl MapEventList {
    /// The event at position `p`, if one is placed there.
    pub closed spec fn event_at(&self, p: (i32, i32)) -> Option<MapEventElement> {
        if self.event_table@.contains_key(position_key(p)) {
            Some(self.event_table@[position_key(p)])
        } else {
            None
        }
    }

    /// A map without events.
    pub fn new() -> (r: Self)
        ensures
            forall|p: (i32, i32)| #[trigger] r.event_at(p) is None,
    {
        MapEventList { event_table: HashMap::new() }
    }

    /// Places `event` at `point`, replacing what was there; the list is
    /// handed back for further changes.
    pub fn register_event(&mut self, point: (i32, i32), event: MapEventElement) -> (r: &mut Self)
        ensures
            r.event_at(point) == Some(event),
            forall|p: (i32, i32)| p != point ==> #[trigger] r.event_at(p) == old(self).event_at(p),
            *final(self) == *final(r),
    {
        let ghost before = *self;
        let ghost ev = event;
        self.event_table.insert(position_key_of(point), event);
        proof {
            assert forall|p: (i32, i32)| p != point implies #[trigger] self.event_at(p)
                == before.event_at(p) by {
                law_position_key_injective(p, point);
            }
        }
        self
    }

    /// The event at `point`, when `trigger` is the one that sets it off.
    pub fn check_event(&self, trigger: EventTrigger, point: (i32, i32)) -> (r: Option<
        &MapEventElement,
    >)
        ensures
            r is Some <==> (self.event_at(point) matches Some(e) && e.spec_trigger() == trigger),
            r matches Some(e) ==> Some(*e) == self.event_at(point),
    {
        if let Some(event_element) = self.event_table.get(&position_key_of(point)) {
            if event_element.get_trigger_method() == trigger {
                return Some(event_element);
            }
        }
        None
    }
}

} // verus!
