//! A scenario script read from its TOML document: the elements of its
//! `scenario-group` (text pages, choices, waits, built-in commands and
//! switches), its scene changes and the element shown first.  The text of a
//! run may come from another file; the caller reads those files, whose paths
//! `scenario_text_sources` lists, and hands their contents in.  The drawing
//! styles of the runs are floats and stay with the caller.

use vstd::prelude::*;

use crate::ids::{texture_id_named, TextureID};
use crate::scenario::{
    element_ids, first_index_of, total_chars, ChoicePatternData, Scenario, ScenarioBuiltinCommand, ScenarioElement, ScenarioElementID,
    ScenarioFinishAndWaitData, ScenarioSwitch, ScenarioText, ScenarioTextSegment, TachieData,
};
use crate::text::str_equals;
use crate::toml_doc::{
    all_of, array_at, array_of, float_at, get_value, int_at, int_of, is_float, lemma_all_of_fails_on,
    lemma_all_of_step, string_at, text_at, text_of, toml_get, TomlValue,
};

verus! {

/// The texture a field names: none when the field is absent; a failure when
/// it is not the name of a texture.
pub open spec fn texture_field(v: TomlValue, key: Seq<char>) -> Option<Option<TextureID>> {
    let x = toml_get(v, key);
    if x is None {
        Some(None)
    } else if text_of(x) is Some && texture_id_named(text_of(x).unwrap()@) is Some {
        Some(texture_id_named(text_of(x).unwrap()@))
    } else {
        None
    }
}

/// The standing pictures of `tachie-data`, right, inner right and left.
pub open spec fn tachie_fields(v: TomlValue) -> Option<(Option<TextureID>, Option<TextureID>, Option<TextureID>)> {
    let t = toml_get(v, "tachie-data"@);
    if t is None {
        Some((None, None, None))
    } else {
        let r = texture_field(t.unwrap(), "right"@);
        let ir = texture_field(t.unwrap(), "inner-right"@);
        let l = texture_field(t.unwrap(), "left"@);
        if r is Some && ir is Some && l is Some {
            Some((r.unwrap(), ir.unwrap(), l.unwrap()))
        } else {
            None
        }
    }
}

/// The background and the standing pictures of an element can be read.
pub open spec fn looks_ok(v: TomlValue) -> bool {
    texture_field(v, "background"@) is Some && tachie_fields(v) is Some
}

/// An element shows the background and the standing pictures it names.
pub open spec fn looks_match(background: Option<TextureID>, tachie: TachieData, v: TomlValue) -> bool {
    &&& Some(background) == texture_field(v, "background"@)
    &&& tachie_fields(v) == Some((tachie.spec_right(), tachie.spec_inner_right(), tachie.spec_left()))
}

/// The content of the file at `path` among the files handed in.
pub open spec fn source_text(sources: Seq<(String, String)>, path: Seq<char>) -> Option<Seq<char>>
    decreases sources.len(),
{
    if sources.len() == 0 {
        None
    } else if sources[0].0@ == path {
        Some(sources[0].1@)
    } else {
        source_text(sources.drop_first(), path)
    }
}

/// The text of a run: the file that `text_src_path` names, or else `text`.
/// Its `fpc` and `font_scale`, where given, are floats and its `color` an
/// integer.
pub open spec fn segment_text(seg: TomlValue, sources: Seq<(String, String)>) -> Option<Seq<char>> {
    let src = toml_get(seg, "text_src_path"@);
    let styles_ok = (toml_get(seg, "fpc"@) is None || is_float(toml_get(seg, "fpc"@))) && (toml_get(
        seg,
        "font_scale"@,
    ) is None || is_float(toml_get(seg, "font_scale"@))) && (toml_get(seg, "color"@) is None
        || int_of(toml_get(seg, "color"@)) is Some);
    if !styles_ok {
        None
    } else if src is Some {
        if text_of(src) is Some {
            source_text(sources, text_of(src).unwrap()@)
        } else {
            None
        }
    } else if text_of(toml_get(seg, "text"@)) is Some {
        Some(text_of(toml_get(seg, "text"@)).unwrap()@)
    } else {
        None
    }
}

/// The texts of the runs of a page: the tables of its `text` array, in order;
/// other values are passed over.
pub open spec fn segment_texts(a: Seq<TomlValue>, sources: Seq<(String, String)>) -> Option<Seq<Seq<char>>>
    decreases a.len(),
{
    if a.len() == 0 {
        Some(Seq::empty())
    } else {
        let rest = segment_texts(a.drop_last(), sources);
        if rest is None {
            None
        } else if a.last() is Table {
            let t = segment_text(a.last(), sources);
            if t is Some {
                Some(rest.unwrap().push(t.unwrap()))
            } else {
                None
            }
        } else {
            rest
        }
    }
}

pub open spec fn texts_len(s: Seq<Seq<char>>) -> nat
    decreases s.len(),
{
    if s.len() == 0 {
        0
    } else {
        texts_len(s.drop_last()) + s.last().len()
    }
}

/// The runs of a text page, when the page can be read: its `id` and
/// `next-id`, its default style (`fpc` and `font_scale` floats, `color` an
/// integer), its runs, its looks, and a length that fits in memory.
pub open spec fn text_page_runs(v: TomlValue, sources: Seq<(String, String)>) -> Option<Seq<Seq<char>>> {
    let d = toml_get(v, "default-text-attribute"@);
    let a = array_of(toml_get(v, "text"@));
    if int_of(toml_get(v, "id"@)) is Some && int_of(toml_get(v, "next-id"@)) is Some && d is Some
        && is_float(toml_get(d.unwrap(), "fpc"@)) && is_float(toml_get(d.unwrap(), "font_scale"@))
        && int_of(toml_get(d.unwrap(), "color"@)) is Some && a is Some && looks_ok(v) && segment_texts(
        a.unwrap(),
        sources,
    ) is Some && texts_len(segment_texts(a.unwrap(), sources).unwrap()) <= usize::MAX {
        segment_texts(a.unwrap(), sources)
    } else {
        None
    }
}

/// A choice: its `pattern` text and the `jump-id` it leads to.
pub open spec fn choice_option(v: TomlValue) -> Option<(String, ScenarioElementID)> {
    let p = text_of(toml_get(v, "pattern"@));
    let j = int_of(toml_get(v, "jump-id"@));
    if p is Some && j is Some {
        Some((p.unwrap(), j.unwrap() as i32))
    } else {
        None
    }
}

pub open spec fn choice_options(v: TomlValue) -> Option<Seq<(String, ScenarioElementID)>> {
    let a = array_of(toml_get(v, "choice-pattern"@));
    if a is Some {
        all_of(a.unwrap(), |x: TomlValue| choice_option(x))
    } else {
        None
    }
}

/// The type of an entry of the group.
pub open spec fn entry_type(v: TomlValue) -> Option<Seq<char>> {
    let t = text_of(toml_get(v, "type"@));
    if t is Some {
        Some(t.unwrap()@)
    } else {
        None
    }
}

pub open spec fn element_type(t: Seq<char>) -> bool {
    t == "scenario"@ || t == "choice"@ || t == "wait"@ || t == "builtin"@ || t == "switch"@
}

/// The entry makes an element of the script.
pub open spec fn makes_element(v: TomlValue) -> bool {
    entry_type(v) is Some && element_type(entry_type(v).unwrap())
}

/// A `choice` entry can be read: its `id`, its `choice-pattern`, its looks
/// and its `header_text`.
pub open spec fn choice_ok(v: TomlValue) -> bool {
    int_of(toml_get(v, "id"@)) is Some && choice_options(v) is Some && looks_ok(v) && text_of(
        toml_get(v, "header_text"@),
    ) is Some
}

/// `c` is the choice that the entry `v` describes.
pub open spec fn choice_of(c: ChoicePatternData, v: TomlValue) -> bool {
    &&& c.spec_id() == int_of(toml_get(v, "id"@)).unwrap() as i32
    &&& c.spec_header() == text_of(toml_get(v, "header_text"@)).unwrap()@
    &&& c.spec_options() == choice_options(v).unwrap().map_values(|o: (String, ScenarioElementID)| o.0)
    &&& c.spec_jumps() == choice_options(v).unwrap().map_values(|o: (String, ScenarioElementID)| o.1)
    &&& looks_match(c.spec_background(), c.spec_tachie(), v)
}

/// A `wait` entry can be read: its `id`, `next-id`, `opecode` and looks.
pub open spec fn wait_ok(v: TomlValue) -> bool {
    int_of(toml_get(v, "id"@)) is Some && int_of(toml_get(v, "next-id"@)) is Some && text_of(
        toml_get(v, "opecode"@),
    ) is Some && looks_ok(v)
}

/// `w` is the waiting page that the entry `v` describes.
pub open spec fn wait_of(w: ScenarioFinishAndWaitData, v: TomlValue) -> bool {
    &&& w.spec_id() == int_of(toml_get(v, "id"@)).unwrap() as i32
    &&& w.spec_next_id() == int_of(toml_get(v, "next-id"@)).unwrap() as i32
    &&& w.spec_opecode() == text_of(toml_get(v, "opecode"@)).unwrap()@
    &&& looks_match(w.spec_background(), w.spec_tachie(), v)
}

/// A `builtin` entry can be read: its `opecode` names the one known command,
/// and its `id` and looks can be read.
pub open spec fn builtin_ok(v: TomlValue) -> bool {
    text_of(toml_get(v, "opecode"@)) is Some && text_of(toml_get(v, "opecode"@)).unwrap()@
        == "StartSchedule"@ && int_of(toml_get(v, "id"@)) is Some && looks_ok(v)
}

/// `b` is the command that the entry `v` describes.
pub open spec fn builtin_of(b: ScenarioBuiltinCommand, v: TomlValue) -> bool {
    b.spec_id() == int_of(toml_get(v, "id"@)).unwrap() as i32 && looks_match(
        b.spec_background(),
        b.spec_tachie(),
        v,
    )
}

/// A `switch` entry can be read: its `id`, `opecode`, `yes` and `no`.
pub open spec fn switch_ok(v: TomlValue) -> bool {
    int_of(toml_get(v, "id"@)) is Some && text_of(toml_get(v, "opecode"@)) is Some && int_of(
        toml_get(v, "yes"@),
    ) is Some && int_of(toml_get(v, "no"@)) is Some
}

/// `w` is the switch that the entry `v` describes.
pub open spec fn switch_of(w: ScenarioSwitch, v: TomlValue) -> bool {
    &&& w.spec_id() == int_of(toml_get(v, "id"@)).unwrap() as i32
    &&& w.spec_opecode() == text_of(toml_get(v, "opecode"@)).unwrap()@
    &&& w.spec_yes() == int_of(toml_get(v, "yes"@)).unwrap() as i32
    &&& w.spec_no() == int_of(toml_get(v, "no"@)).unwrap() as i32
}

/// `p` is the text page that the entry `v` describes.
pub open spec fn text_page_of(p: ScenarioText, v: TomlValue, sources: Seq<(String, String)>) -> bool {
    &&& p.spec_id() == int_of(toml_get(v, "id"@)).unwrap() as i32
    &&& p.spec_next_id() == int_of(toml_get(v, "next-id"@)).unwrap() as i32
    &&& p.spec_current_segment() == 0
    &&& p.spec_total_length() == texts_len(text_page_runs(v, sources).unwrap())
    &&& looks_match(p.spec_background(), p.spec_tachie(), v)
    &&& p.spec_segments().len() == text_page_runs(v, sources).unwrap().len()
    &&& forall|k: int|
        0 <= k < p.spec_segments().len() ==> (#[trigger] p.spec_segments()[k]).spec_text()
            == text_page_runs(v, sources).unwrap()[k]
}

/// The fields of an element of type `t` can be read.
pub open spec fn element_fields_ok(v: TomlValue, t: Seq<char>, sources: Seq<(String, String)>) -> bool {
    &&& t == "scenario"@ ==> text_page_runs(v, sources) is Some
    &&& t == "choice"@ ==> choice_ok(v)
    &&& t == "wait"@ ==> wait_ok(v)
    &&& t == "builtin"@ ==> builtin_ok(v)
    &&& t == "switch"@ ==> switch_ok(v)
}

/// An entry can be read: its `type`, if any, is a text, and an element's
/// fields can be read.  An entry without a type, or of another type, makes
/// no element.
pub open spec fn entry_ok(v: TomlValue, sources: Seq<(String, String)>) -> bool {
    &&& toml_get(v, "type"@) is Some ==> entry_type(v) is Some
    &&& makes_element(v) ==> element_fields_ok(v, entry_type(v).unwrap(), sources)
}

/// `e` is the element that the entry `v` describes.
pub open spec fn element_of_entry(e: ScenarioElement, v: TomlValue, sources: Seq<(String, String)>) -> bool {
    let t = entry_type(v).unwrap();
    &&& t == "scenario"@ ==> e is Text && text_page_of(e->Text_0, v, sources)
    &&& t == "choice"@ ==> e is ChoiceSwitch && choice_of(e->ChoiceSwitch_0, v)
    &&& t == "wait"@ ==> e is FinishAndWait && wait_of(e->FinishAndWait_0, v)
    &&& t == "builtin"@ ==> e is BuiltinCommand && builtin_of(e->BuiltinCommand_0, v)
    &&& t == "switch"@ ==> e is Switch && switch_of(e->Switch_0, v)
}

/// The entries of the group that make elements, in order.
pub open spec fn element_entries(a: Seq<TomlValue>) -> Seq<TomlValue>
    decreases a.len(),
{
    if a.len() == 0 {
        Seq::empty()
    } else if makes_element(a.last()) {
        element_entries(a.drop_last()).push(a.last())
    } else {
        element_entries(a.drop_last())
    }
}

/// The entries of a scenario document's `scenario-group`.
pub open spec fn group_entries(doc: TomlValue) -> Option<Seq<TomlValue>> {
    array_of(toml_get(doc, "scenario-group"@))
}

/// The id of the element of `scene-transition` named `key`.
pub open spec fn transition_id(doc: TomlValue, key: Seq<char>) -> Option<i64> {
    let t = toml_get(doc, "scene-transition"@);
    if t is Some {
        int_of(toml_get(t.unwrap(), key))
    } else {
        None
    }
}

/// The element shown first: the saved one, or else `first-scenario-id`.
pub open spec fn first_id(doc: TomlValue, saved: Option<ScenarioElementID>) -> Option<ScenarioElementID> {
    if saved is Some {
        saved
    } else if int_of(toml_get(doc, "first-scenario-id"@)) is Some {
        Some(int_of(toml_get(doc, "first-scenario-id"@)).unwrap() as i32)
    } else {
        None
    }
}

/// The document can be read into a script.
pub open spec fn scenario_document_ok(
    doc: TomlValue,
    saved: Option<ScenarioElementID>,
    sources: Seq<(String, String)>,
) -> bool {
    &&& group_entries(doc) is Some
    &&& forall|i: int|
        0 <= i < group_entries(doc).unwrap().len() ==> entry_ok(
            #[trigger] group_entries(doc).unwrap()[i],
            sources,
        )
    &&& transition_id(doc, "scenario"@) is Some
    &&& transition_id(doc, "dream"@) is Some
    &&& transition_id(doc, "save"@) is Some
    &&& first_id(doc, saved) is Some
}

fn read_texture_field(v: &TomlValue, key: &str) -> (r: Option<Option<TextureID>>)
    ensures
        r == texture_field(*v, key@),
{
    match get_value(v, key) {
        None => Some(None),
        Some(x) => match x {
            TomlValue::Text(name) => match TextureID::from_str(name.as_str()) {
                Ok(t) => Some(Some(t)),
                Err(_) => None,
            },
            _ => None,
        },
    }
}

fn read_tachie(v: &TomlValue) -> (r: Option<TachieData>)
    ensures
        r is Some <==> tachie_fields(*v) is Some,
        r is Some ==> tachie_fields(*v) == Some(
            (r.unwrap().spec_right(), r.unwrap().spec_inner_right(), r.unwrap().spec_left()),
        ),
{
    match get_value(v, "tachie-data") {
        None => Some(TachieData::new_empty()),
        Some(t) => match (
            read_texture_field(t, "right"),
            read_texture_field(t, "inner-right"),
            read_texture_field(t, "left"),
        ) {
            (Some(r), Some(ir), Some(l)) => Some(TachieData::new(r, ir, l)),
            _ => None,
        },
    }
}

fn read_source<'a>(sources: &'a [(String, String)], path: &str) -> (r: Option<&'a String>)
    ensures
        r is Some <==> source_text(sources@, path@) is Some,
        r is Some ==> r.unwrap()@ == source_text(sources@, path@).unwrap(),
{
    let mut i: usize = 0;
    proof {
        assert(sources@.skip(0) =~= sources@);
    }
    while i < sources.len()
        invariant
            i <= sources@.len(),
            source_text(sources@, path@) == source_text(sources@.skip(i as int), path@),
        decreases sources.len() - i,
    {
        proof {
            assert(sources@.skip(i as int).drop_first() =~= sources@.skip(i + 1));
            assert(sources@.skip(i as int)[0] == sources@[i as int]);
        }
        if str_equals(sources[i].0.as_str(), path) {
            return Some(&sources[i].1);
        }
        i += 1;
    }
    None
}

fn read_segment(seg: &TomlValue, sources: &[(String, String)]) -> (r: Option<ScenarioTextSegment>)
    ensures
        r is Some <==> segment_text(*seg, sources@) is Some,
        r is Some ==> r.unwrap().spec_text() == segment_text(*seg, sources@).unwrap(),
{
    let fpc_ok = get_value(seg, "fpc").is_none() || float_at(seg, "fpc");
    let scale_ok = get_value(seg, "font_scale").is_none() || float_at(seg, "font_scale");
    let color_ok = get_value(seg, "color").is_none() || int_at(seg, "color").is_some();
    if !(fpc_ok && scale_ok && color_ok) {
        return None;
    }
    if get_value(seg, "text_src_path").is_some() {
        match text_at(seg, "text_src_path") {
            Some(path) => match read_source(sources, path) {
                Some(content) => Some(ScenarioTextSegment::new(content.as_str())),
                None => None,
            },
            None => None,
        }
    } else {
        match text_at(seg, "text") {
            Some(text) => Some(ScenarioTextSegment::new(text)),
            None => None,
        }
    }
}

fn read_segments(a: &[TomlValue], sources: &[(String, String)]) -> (r: Option<Vec<ScenarioTextSegment>>)
    ensures
        r is Some <==> segment_texts(a@, sources@) is Some,
        r is Some ==> r.unwrap()@.len() == segment_texts(a@, sources@).unwrap().len() && forall|k: int|
            0 <= k < r.unwrap()@.len() ==> (#[trigger] r.unwrap()@[k]).spec_text() == segment_texts(
                a@,
                sources@,
            ).unwrap()[k],
{
    let mut out: Vec<ScenarioTextSegment> = Vec::new();
    let mut i: usize = 0;
    proof {
        assert(a@.take(0) =~= Seq::<TomlValue>::empty());
    }
    while i < a.len()
        invariant
            i <= a@.len(),
            segment_texts(a@.take(i as int), sources@) is Some,
            out@.len() == segment_texts(a@.take(i as int), sources@).unwrap().len(),
            forall|k: int|
                0 <= k < out@.len() ==> (#[trigger] out@[k]).spec_text() == segment_texts(
                    a@.take(i as int),
                    sources@,
                ).unwrap()[k],
        decreases a.len() - i,
    {
        proof {
            assert(a@.take(i + 1).drop_last() =~= a@.take(i as int));
            assert(a@.take(i + 1).last() == a@[i as int]);
        }
        let is_table = match &a[i] {
            TomlValue::Table(_) => true,
            _ => false,
        };
        if is_table {
            match read_segment(&a[i], sources) {
                Some(seg) => out.push(seg),
                None => {
                    proof {
                        lemma_segment_texts_fails_on(a@, sources@, i + 1);
                    }
                    return None;
                },
            }
        }
        i += 1;
    }
    proof {
        assert(a@.take(i as int) =~= a@);
    }
    Some(out)
}

proof fn lemma_segment_texts_fails_on(a: Seq<TomlValue>, sources: Seq<(String, String)>, k: int)
    requires
        0 <= k <= a.len(),
        segment_texts(a.take(k), sources) is None,
    ensures
        segment_texts(a, sources) is None,
    decreases a.len() - k,
{
    if k < a.len() {
        assert(a.take(k + 1).drop_last() =~= a.take(k));
        lemma_segment_texts_fails_on(a, sources, k + 1);
    } else {
        assert(a.take(k) =~= a);
    }
}

proof fn lemma_total_chars_is_texts_len(segs: Seq<ScenarioTextSegment>, texts: Seq<Seq<char>>)
    requires
        segs.len() == texts.len(),
        forall|k: int| 0 <= k < segs.len() ==> (#[trigger] segs[k]).spec_text() == texts[k],
    ensures
        total_chars(segs) == texts_len(texts),
    decreases segs.len(),
{
    if segs.len() > 0 {
        lemma_total_chars_is_texts_len(segs.drop_last(), texts.drop_last());
    }
}

fn read_choice_options(a: &[TomlValue]) -> (r: Option<(Vec<String>, Vec<ScenarioElementID>)>)
    ensures
        r is Some <==> all_of(a@, |x: TomlValue| choice_option(x)) is Some,
        r is Some ==> r.unwrap().0@ == all_of(a@, |x: TomlValue| choice_option(x)).unwrap().map_values(
            |o: (String, ScenarioElementID)| o.0,
        ) && r.unwrap().1@ == all_of(a@, |x: TomlValue| choice_option(x)).unwrap().map_values(
            |o: (String, ScenarioElementID)| o.1,
        ),
{
    let mut texts: Vec<String> = Vec::new();
    let mut jumps: Vec<ScenarioElementID> = Vec::new();
    let mut i: usize = 0;
    proof {
        assert(a@.take(0) =~= Seq::<TomlValue>::empty());
    }
    while i < a.len()
        invariant
            i <= a@.len(),
            all_of(a@.take(i as int), |x: TomlValue| choice_option(x)) is Some,
            texts@ == all_of(a@.take(i as int), |x: TomlValue| choice_option(x)).unwrap().map_values(
                |o: (String, ScenarioElementID)| o.0,
            ),
            jumps@ == all_of(a@.take(i as int), |x: TomlValue| choice_option(x)).unwrap().map_values(
                |o: (String, ScenarioElementID)| o.1,
            ),
        decreases a.len() - i,
    {
        proof {
            lemma_all_of_step(a@, |x: TomlValue| choice_option(x), i as int);
        }
        let ghost prev = all_of(a@.take(i as int), |x: TomlValue| choice_option(x)).unwrap();
        match (string_at(&a[i], "pattern"), int_at(&a[i], "jump-id")) {
            (Some(p), Some(j)) => {
                texts.push(p.clone());
                jumps.push(j as i32);
                proof {
                    let next = prev.push((*p, j as i32));
                    assert(texts@ =~= next.map_values(|o: (String, ScenarioElementID)| o.0));
                    assert(jumps@ =~= next.map_values(|o: (String, ScenarioElementID)| o.1));
                }
            },
            _ => {
                proof {
                    lemma_all_of_fails_on(a@, |x: TomlValue| choice_option(x), i + 1);
                }
                return None;
            },
        }
        i += 1;
    }
    proof {
        assert(a@.take(i as int) =~= a@);
    }
    Some((texts, jumps))
}

fn read_looks(v: &TomlValue) -> (r: Option<(Option<TextureID>, TachieData)>)
    ensures
        r is Some <==> looks_ok(*v),
        r is Some ==> looks_match(r.unwrap().0, r.unwrap().1, *v),
{
    match (read_texture_field(v, "background"), read_tachie(v)) {
        (Some(b), Some(t)) => Some((b, t)),
        _ => None,
    }
}

proof fn lemma_element_type_names()
    ensures
        "scenario"@ != "choice"@,
        "scenario"@ != "wait"@,
        "scenario"@ != "builtin"@,
        "scenario"@ != "switch"@,
        "choice"@ != "wait"@,
        "choice"@ != "builtin"@,
        "choice"@ != "switch"@,
        "wait"@ != "builtin"@,
        "wait"@ != "switch"@,
        "builtin"@ != "switch"@,
{
    reveal_strlit("scenario");
    reveal_strlit("choice");
    reveal_strlit("wait");
    reveal_strlit("builtin");
    reveal_strlit("switch");
    assert("scenario"@.len() == 8);
    assert("choice"@.len() == 6);
    assert("wait"@.len() == 4);
    assert("builtin"@.len() == 7);
    assert("switch"@.len() == 6);
    assert("choice"@[0] == 'c');
    assert("switch"@[0] == 's');
}

fn read_text_page(v: &TomlValue, sources: &[(String, String)]) -> (r: Option<ScenarioText>)
    ensures
        r is Some <==> text_page_runs(*v, sources@) is Some,
        r is Some ==> text_page_of(r.unwrap(), *v, sources@),
{
    let id = match int_at(v, "id") {
        Some(id) => id,
        None => return None,
    };
    let next_id = match int_at(v, "next-id") {
        Some(n) => n,
        None => return None,
    };
    match get_value(v, "default-text-attribute") {
        Some(d) => {
            if !(float_at(d, "fpc") && float_at(d, "font_scale") && int_at(d, "color").is_some()) {
                return None;
            }
        },
        None => return None,
    }
    let runs = match array_at(v, "text") {
        Some(a) => a,
        None => return None,
    };
    let looks = match read_looks(v) {
        Some(l) => l,
        None => return None,
    };
    let segments = match read_segments(runs, sources) {
        Some(s) => s,
        None => return None,
    };
    let ghost texts = segment_texts(runs@, sources@).unwrap();
    let mut total: usize = 0;
    let mut k: usize = 0;
    while k < segments.len()
        invariant
            k <= segments@.len(),
            total == total_chars(segments@.take(k as int)),
            segments@.len() == texts.len(),
            forall|j: int| 0 <= j < segments@.len() ==> (#[trigger] segments@[j]).spec_text() == texts[j],
            texts == segment_texts(array_of(toml_get(*v, "text"@)).unwrap(), sources@).unwrap(),
        decreases segments.len() - k,
    {
        proof {
            assert(segments@.take(k + 1).drop_last() =~= segments@.take(k as int));
        }
        let n = segments[k].str_len();
        if total > usize::MAX - n {
            proof {
                lemma_total_chars_prefix(segments@, k + 1);
                lemma_total_chars_is_texts_len(
                    segments@,
                    segment_texts(array_of(toml_get(*v, "text"@)).unwrap(), sources@).unwrap(),
                );
            }
            return None;
        }
        total = total + n;
        k += 1;
    }
    proof {
        assert(segments@.take(k as int) =~= segments@);
        lemma_total_chars_is_texts_len(
            segments@,
            segment_texts(array_of(toml_get(*v, "text"@)).unwrap(), sources@).unwrap(),
        );
    }
    Some(ScenarioText::new(segments, id as i32, next_id as i32, looks.0, looks.1))
}

proof fn lemma_total_chars_prefix(segs: Seq<ScenarioTextSegment>, k: int)
    requires
        0 <= k <= segs.len(),
    ensures
        total_chars(segs.take(k)) <= total_chars(segs),
    decreases segs.len() - k,
{
    if k < segs.len() {
        assert(segs.take(k + 1).drop_last() =~= segs.take(k));
        lemma_total_chars_prefix(segs, k + 1);
    } else {
        assert(segs.take(k) =~= segs);
    }
}

impl ChoicePatternData {
    /// The choice that a `choice` entry of a script describes.
    pub fn from_toml_object(v: &TomlValue) -> (r: Option<Self>)
        ensures
            r is Some <==> choice_ok(*v),
            r is Some ==> choice_of(r.unwrap(), *v),
    {
        match (int_at(v, "id"), array_at(v, "choice-pattern"), read_looks(v), text_at(v, "header_text")) {
            (Some(id), Some(a), Some(looks), Some(header)) => match read_choice_options(a) {
                Some((texts, jumps)) => Some(ChoicePatternData::new(header, texts, jumps, id as i32, looks.0, looks.1)),
                None => None,
            },
            _ => None,
        }
    }
}

impl ScenarioFinishAndWaitData {
    /// The waiting page that a `wait` entry of a script describes.
    pub fn from_toml_object(v: &TomlValue) -> (r: Option<Self>)
        ensures
            r is Some <==> wait_ok(*v),
            r is Some ==> wait_of(r.unwrap(), *v),
    {
        match (int_at(v, "id"), int_at(v, "next-id"), text_at(v, "opecode"), read_looks(v)) {
            (Some(id), Some(next), Some(code), Some(looks)) => Some(
                ScenarioFinishAndWaitData::new(id as i32, next as i32, looks.0, looks.1, code),
            ),
            _ => None,
        }
    }
}

impl ScenarioBuiltinCommand {
    /// The command that a `builtin` entry of a script describes; only
    /// `StartSchedule` is known.
    pub fn from_toml_object(v: &TomlValue) -> (r: Option<Self>)
        ensures
            r is Some <==> builtin_ok(*v),
            r is Some ==> builtin_of(r.unwrap(), *v),
    {
        match (text_at(v, "opecode"), int_at(v, "id"), read_looks(v)) {
            (Some(code), Some(id), Some(looks)) => ScenarioBuiltinCommand::from_opecode(code, id as i32, looks.0, looks.1),
            _ => None,
        }
    }
}

impl ScenarioSwitch {
    /// The switch that a `switch` entry of a script describes.
    pub fn from_toml_object(v: &TomlValue) -> (r: Option<Self>)
        ensures
            r is Some <==> switch_ok(*v),
            r is Some ==> switch_of(r.unwrap(), *v),
    {
        match (int_at(v, "id"), text_at(v, "opecode"), int_at(v, "yes"), int_at(v, "no")) {
            (Some(id), Some(code), Some(yes), Some(no)) => Some(
                ScenarioSwitch::new(code, id as i32, yes as i32, no as i32),
            ),
            _ => None,
        }
    }
}

/// The element that an entry of a known type describes.
fn element_from_entry(v: &TomlValue, sources: &[(String, String)]) -> (r: Option<ScenarioElement>)
    requires
        makes_element(*v),
    ensures
        r is Some <==> element_fields_ok(*v, entry_type(*v).unwrap(), sources@),
        r is Some ==> element_of_entry(r.unwrap(), *v, sources@),
{
    proof {
        lemma_element_type_names();
    }
    let t = match text_at(v, "type") {
        Some(t) => t,
        None => return None,
    };
    if str_equals(t, "scenario") {
        match read_text_page(v, sources) {
            Some(page) => Some(ScenarioElement::Text(page)),
            None => None,
        }
    } else if str_equals(t, "choice") {
        match ChoicePatternData::from_toml_object(v) {
            Some(c) => Some(ScenarioElement::ChoiceSwitch(c)),
            None => None,
        }
    } else if str_equals(t, "wait") {
        match ScenarioFinishAndWaitData::from_toml_object(v) {
            Some(w) => Some(ScenarioElement::FinishAndWait(w)),
            None => None,
        }
    } else if str_equals(t, "builtin") {
        match ScenarioBuiltinCommand::from_toml_object(v) {
            Some(c) => Some(ScenarioElement::BuiltinCommand(c)),
            None => None,
        }
    } else {
        match ScenarioSwitch::from_toml_object(v) {
            Some(w) => Some(ScenarioElement::Switch(w)),
            None => None,
        }
    }
}

/// The `text_src_path` of each run of a page, in order.
pub open spec fn run_paths(a: Seq<TomlValue>) -> Seq<Seq<char>>
    decreases a.len(),
{
    if a.len() == 0 {
        Seq::empty()
    } else {
        let p = text_of(toml_get(a.last(), "text_src_path"@));
        if p is Some {
            run_paths(a.drop_last()).push(p.unwrap()@)
        } else {
            run_paths(a.drop_last())
        }
    }
}

/// The files whose text the runs of an entry take, when it is a text page.
pub open spec fn entry_paths(v: TomlValue) -> Seq<Seq<char>> {
    if entry_type(v) == Some("scenario"@) && array_of(toml_get(v, "text"@)) is Some {
        run_paths(array_of(toml_get(v, "text"@)).unwrap())
    } else {
        Seq::empty()
    }
}

pub open spec fn group_paths(a: Seq<TomlValue>) -> Seq<Seq<char>>
    decreases a.len(),
{
    if a.len() == 0 {
        Seq::empty()
    } else {
        group_paths(a.drop_last()) + entry_paths(a.last())
    }
}

/// The files whose text the pages of a scenario document take, in the order
/// of the pages and their runs.
pub open spec fn scenario_paths(doc: TomlValue) -> Seq<Seq<char>> {
    match group_entries(doc) {
        Some(a) => group_paths(a),
        None => Seq::empty(),
    }
}

fn push_run_paths(runs: &[TomlValue], out: &mut Vec<String>)
    ensures
        final(out)@.len() == old(out)@.len() + run_paths(runs@).len(),
        forall|k: int| 0 <= k < old(out)@.len() ==> #[trigger] final(out)@[k] == old(out)@[k],
        forall|k: int|
            0 <= k < run_paths(runs@).len() ==> (#[trigger] final(out)@[old(out)@.len() + k])@ == run_paths(
                runs@,
            )[k],
{
    let ghost start = out@;
    let mut j: usize = 0;
    proof {
        assert(runs@.take(0) =~= Seq::<TomlValue>::empty());
    }
    while j < runs.len()
        invariant
            j <= runs@.len(),
            out@.len() == start.len() + run_paths(runs@.take(j as int)).len(),
            forall|k: int| 0 <= k < start.len() ==> #[trigger] out@[k] == start[k],
            forall|k: int|
                0 <= k < run_paths(runs@.take(j as int)).len() ==> (#[trigger] out@[start.len() + k])@
                    == run_paths(runs@.take(j as int))[k],
        decreases runs.len() - j,
    {
        proof {
            assert(runs@.take(j + 1).drop_last() =~= runs@.take(j as int));
            assert(runs@.take(j + 1).last() == runs@[j as int]);
        }
        match text_at(&runs[j], "text_src_path") {
            Some(p) => {
                out.push(p.to_string());
            },
            None => {},
        }
        j += 1;
    }
    proof {
        assert(runs@.take(j as int) =~= runs@);
    }
}

/// The paths of the files whose text the pages of the document take, in the
/// order of the pages and their runs.
pub fn scenario_text_sources(doc: &TomlValue) -> (r: Vec<String>)
    ensures
        r@.len() == scenario_paths(*doc).len(),
        forall|k: int| 0 <= k < r@.len() ==> (#[trigger] r@[k])@ == scenario_paths(*doc)[k],
{
    let mut out: Vec<String> = Vec::new();
    let group = match array_at(doc, "scenario-group") {
        Some(a) => a,
        None => return out,
    };
    proof {
        lemma_element_type_names();
        reveal_strlit("scenario");
        assert(group@.take(0) =~= Seq::<TomlValue>::empty());
    }
    let mut i: usize = 0;
    while i < group.len()
        invariant
            i <= group@.len(),
            group@ == group_entries(*doc).unwrap(),
            out@.len() == group_paths(group@.take(i as int)).len(),
            forall|k: int| 0 <= k < out@.len() ==> (#[trigger] out@[k])@ == group_paths(group@.take(i as int))[k],
        decreases group.len() - i,
    {
        proof {
            assert(group@.take(i + 1).drop_last() =~= group@.take(i as int));
            assert(group@.take(i + 1).last() == group@[i as int]);
        }
        let ghost before = out@;
        let is_page = match text_at(&group[i], "type") {
            Some(t) => str_equals(t, "scenario"),
            None => false,
        };
        if is_page {
            match array_at(&group[i], "text") {
                Some(runs) => push_run_paths(runs, &mut out),
                None => {},
            }
        }
        proof {
            if is_page {
                assert(entry_type(group@[i as int]) == Some("scenario"@));
            } else {
                assert(entry_type(group@[i as int]) != Some("scenario"@));
            }
        }
        proof {
            let prev = group_paths(group@.take(i as int));
            let added = entry_paths(group@[i as int]);
            assert(group_paths(group@.take(i + 1)) == prev + added);
            assert forall|k: int| 0 <= k < out@.len() implies (#[trigger] out@[k])@ == (prev + added)[k] by {
                if k < prev.len() {
                    assert(out@[k] == before[k]);
                } else {
                    let j = k - prev.len();
                    assert(out@[before.len() + j] == out@[k]);
                }
            }
        }
        i += 1;
    }
    proof {
        assert(group@.take(i as int) =~= group@);
    }
    out
}

/// The elements that the group's entries describe, in order.
fn read_group(group: &[TomlValue], sources: &[(String, String)]) -> (r: Option<Vec<ScenarioElement>>)
    ensures
        r is Some <==> forall|i: int| 0 <= i < group@.len() ==> entry_ok(#[trigger] group@[i], sources@),
        r is Some ==> r.unwrap()@.len() == element_entries(group@).len() && forall|k: int|
            0 <= k < r.unwrap()@.len() ==> element_of_entry(
                #[trigger] r.unwrap()@[k],
                element_entries(group@)[k],
                sources@,
            ),
{
    proof {
        lemma_element_type_names();
        reveal_strlit("scenario");
        reveal_strlit("choice");
        reveal_strlit("wait");
        reveal_strlit("builtin");
        reveal_strlit("switch");
        assert(group@.take(0) =~= Seq::<TomlValue>::empty());
    }
    let mut out: Vec<ScenarioElement> = Vec::new();
    let mut i: usize = 0;
    while i < group.len()
        invariant
            i <= group@.len(),
            forall|j: int| 0 <= j < i ==> entry_ok(#[trigger] group@[j], sources@),
            out@.len() == element_entries(group@.take(i as int)).len(),
            forall|k: int|
                0 <= k < out@.len() ==> element_of_entry(
                    #[trigger] out@[k],
                    element_entries(group@.take(i as int))[k],
                    sources@,
                ),
        decreases group.len() - i,
    {
        proof {
            assert(group@.take(i + 1).drop_last() =~= group@.take(i as int));
            assert(group@.take(i + 1).last() == group@[i as int]);
        }
        let v = &group[i];
        if get_value(v, "type").is_some() {
            let t = match text_at(v, "type") {
                Some(t) => t,
                None => {
                    proof {
                        assert(!entry_ok(group@[i as int], sources@));
                    }
                    return None;
                },
            };
            let known = str_equals(t, "scenario") || str_equals(t, "choice") || str_equals(t, "wait")
                || str_equals(t, "builtin") || str_equals(t, "switch");
            if known {
                match element_from_entry(v, sources) {
                    Some(e) => {
                        out.push(e);
                    },
                    None => {
                        proof {
                            assert(!entry_ok(group@[i as int], sources@));
                        }
                        return None;
                    },
                }
            }
        }
        i += 1;
    }
    proof {
        assert(group@.take(i as int) =~= group@);
    }
    Some(out)
}

/// Reads a scenario script from its document.  The script's elements are
/// those its group describes, in order, followed by its three scene changes;
/// it shows first the saved element, or else `first-scenario-id`.  The text of
/// a run with a `text_src_path` is the content of that file in `sources`.
/// `None` exactly when a key the script needs is missing or of another kind,
/// or a text file is not among `sources`.
pub fn scenario_from_document(
    doc: &TomlValue,
    saved_scenario_id: Option<ScenarioElementID>,
    sources: &[(String, String)],
) -> (r: Option<Scenario>)
    ensures
        r is Some <==> scenario_document_ok(*doc, saved_scenario_id, sources@),
        r is Some ==> {
            let group = element_entries(group_entries(*doc).unwrap());
            let s = r.unwrap();
            &&& s.well_formed()
            &&& s.spec_stack() == seq![first_id(*doc, saved_scenario_id).unwrap()]
            &&& s.spec_current_page() == first_index_of(
                element_ids(s.spec_elements()),
                first_id(*doc, saved_scenario_id).unwrap(),
            )
            &&& s.spec_elements().len() == group.len() + 3
            &&& forall|k: int|
                0 <= k < group.len() ==> element_of_entry(#[trigger] s.spec_elements()[k], group[k], sources@)
            &&& s.spec_elements().skip(group.len() as int) == Scenario::transition_elements(
                transition_id(*doc, "scenario"@).unwrap() as i32,
                transition_id(*doc, "dream"@).unwrap() as i32,
                transition_id(*doc, "save"@).unwrap() as i32,
            )
        },
{
    let first = match saved_scenario_id {
        Some(id) => id,
        None => match int_at(doc, "first-scenario-id") {
            Some(id) => id as i32,
            None => return None,
        },
    };
    let group = match array_at(doc, "scenario-group") {
        Some(a) => a,
        None => return None,
    };
    let elements = match read_group(group, sources) {
        Some(e) => e,
        None => return None,
    };
    let transition = match get_value(doc, "scene-transition") {
        Some(t) => t,
        None => return None,
    };
    let (scenario_id, dream_id, save_id) = match (
        int_at(transition, "scenario"),
        int_at(transition, "dream"),
        int_at(transition, "save"),
    ) {
        (Some(a), Some(b), Some(c)) => (a as i32, b as i32, c as i32),
        _ => return None,
    };
    let ghost given = elements@;
    let s = Scenario::new(elements, scenario_id, dream_id, save_id, first);
    proof {
        assert(s.spec_elements().skip(given.len() as int) =~= Scenario::transition_elements(
            scenario_id,
            dream_id,
            save_id,
        ));
        assert forall|k: int| 0 <= k < given.len() implies s.spec_elements()[k] == given[k] by {}
    }
    Some(s)
}

} // verus!
