//! TOML documents as plain values: the parse by the `toml` crate, the lookup
//! of a table's keys, and the reading of the values the game's files hold.

use vstd::prelude::*;
use vstd::string::StrSliceExecFns;

use crate::date::GensoDate;
use crate::text::str_equals;

verus! {

#[verifier::external_type_specification]
#[verifier::external_body]
pub struct ExTomlValue(toml::Value);

/// A TOML value.  Floats and datetimes, whose values the game's logic does
/// not read, are kept as their text.
pub enum TomlValue {
    Text(String),
    Integer(i64),
    Float(String),
    Boolean(bool),
    Datetime(String),
    Array(Vec<TomlValue>),
    Table(Vec<(String, TomlValue)>),
}

/// The document that `toml` reads from `text`, if the text is TOML.
pub uninterp spec fn toml_document(text: Seq<char>) -> Option<TomlValue>;

/// Turns a value of the `toml` crate into a plain value, variant by variant:
/// strings, integers, booleans, arrays and tables (in the order of their
/// keys) carry over, and floats and datetimes are kept as their text.  Nothing is
/// promised here; `parse_toml`, which alone calls it, states the result.
#[verifier::external_body]
fn toml_plain(v: &toml::Value) -> TomlValue {
    match v {
        toml::Value::String(s) => TomlValue::Text(s.clone()),
        toml::Value::Integer(i) => TomlValue::Integer(*i),
        toml::Value::Boolean(b) => TomlValue::Boolean(*b),
        toml::Value::Array(a) => TomlValue::Array(a.iter().map(toml_plain).collect()),
        toml::Value::Table(t) => TomlValue::Table(t.iter().map(|(k, x)| (k.clone(), toml_plain(x))).collect()),
        toml::Value::Float(_) => TomlValue::Float(v.to_string()),
        toml::Value::Datetime(d) => TomlValue::Datetime(d.to_string()),
    }
}

/// Calls `str::parse::<toml::Value>` on `text` and hands back the value as
/// plain values, or `None` where the crate refuses the text.  The crate keeps
/// a table's keys in an ordered map, so the result depends on the text alone;
/// it is named `toml_document`.  Which texts the crate accepts, and what it
/// reads from them, is not stated here.
#[verifier::external_body]
pub fn parse_toml(text: &str) -> (r: Option<TomlValue>)
    ensures
        r == toml_document(text@),
{
    match text.parse::<toml::Value>() {
        Ok(v) => Some(toml_plain(&v)),
        Err(_) => None,
    }
}

/// The value filed under `key` in the entries of a table.
pub open spec fn lookup(entries: Seq<(String, TomlValue)>, key: Seq<char>) -> Option<TomlValue>
    decreases entries.len(),
{
    if entries.len() == 0 {
        None
    } else if entries[0].0@ == key {
        Some(entries[0].1)
    } else {
        lookup(entries.drop_first(), key)
    }
}

/// The value filed under `key` in `v`, when `v` is a table.
pub open spec fn toml_get(v: TomlValue, key: Seq<char>) -> Option<TomlValue> {
    match v {
        TomlValue::Table(t) => lookup(t@, key),
        _ => None,
    }
}

pub open spec fn text_of(v: Option<TomlValue>) -> Option<String> {
    match v {
        Some(TomlValue::Text(s)) => Some(s),
        _ => None,
    }
}

pub open spec fn is_float(v: Option<TomlValue>) -> bool {
    match v {
        Some(TomlValue::Float(_)) => true,
        _ => false,
    }
}

/// Whether the value under `key` in `v` is a float.
pub fn float_at(v: &TomlValue, key: &str) -> (r: bool)
    ensures
        r == is_float(toml_get(*v, key@)),
{
    match get_value(v, key) {
        Some(TomlValue::Float(_)) => true,
        _ => false,
    }
}

pub open spec fn int_of(v: Option<TomlValue>) -> Option<i64> {
    match v {
        Some(TomlValue::Integer(i)) => Some(i),
        _ => None,
    }
}

pub open spec fn array_of(v: Option<TomlValue>) -> Option<Seq<TomlValue>> {
    match v {
        Some(TomlValue::Array(a)) => Some(a@),
        _ => None,
    }
}

/// The value under `key` in `v`.
pub fn get_value<'a>(v: &'a TomlValue, key: &str) -> (r: Option<&'a TomlValue>)
    ensures
        r is Some <==> toml_get(*v, key@) is Some,
        r is Some ==> *r.unwrap() == toml_get(*v, key@).unwrap(),
{
    match v {
        TomlValue::Table(t) => {
            let mut i: usize = 0;
            proof {
                assert(t@.skip(0) =~= t@);
            }
            while i < t.len()
                invariant
                    i <= t@.len(),
                    toml_get(*v, key@) == lookup(t@, key@),
                    lookup(t@, key@) == lookup(t@.skip(i as int), key@),
                decreases t.len() - i,
            {
                proof {
                    assert(t@.skip(i as int).drop_first() =~= t@.skip(i + 1));
                    assert(t@.skip(i as int)[0] == t@[i as int]);
                }
                if str_equals(t[i].0.as_str(), key) {
                    return Some(&t[i].1);
                }
                i += 1;
            }
            None
        },
        _ => None,
    }
}

/// The text under `key` in `v`.
pub fn text_at<'a>(v: &'a TomlValue, key: &str) -> (r: Option<&'a str>)
    ensures
        r is Some <==> text_of(toml_get(*v, key@)) is Some,
        r is Some ==> r.unwrap()@ == text_of(toml_get(*v, key@)).unwrap()@,
{
    match get_value(v, key) {
        Some(TomlValue::Text(s)) => Some(s.as_str()),
        _ => None,
    }
}

/// The string under `key` in `v`.
pub fn string_at<'a>(v: &'a TomlValue, key: &str) -> (r: Option<&'a String>)
    ensures
        r is Some <==> text_of(toml_get(*v, key@)) is Some,
        r is Some ==> *r.unwrap() == text_of(toml_get(*v, key@)).unwrap(),
{
    match get_value(v, key) {
        Some(TomlValue::Text(s)) => Some(s),
        _ => None,
    }
}

/// The integer under `key` in `v`.
pub fn int_at(v: &TomlValue, key: &str) -> (r: Option<i64>)
    ensures
        r == int_of(toml_get(*v, key@)),
{
    match get_value(v, key) {
        Some(TomlValue::Integer(i)) => Some(*i),
        _ => None,
    }
}

/// The array under `key` in `v`.
pub fn array_at<'a>(v: &'a TomlValue, key: &str) -> (r: Option<&'a [TomlValue]>)
    ensures
        r is Some <==> array_of(toml_get(*v, key@)) is Some,
        r is Some ==> r.unwrap()@ == array_of(toml_get(*v, key@)).unwrap(),
{
    match get_value(v, key) {
        Some(TomlValue::Array(a)) => Some(a.as_slice()),
        _ => None,
    }
}

/// The date a table gives by its `season`, `month` and `day`, each cut to
/// the width of its field.
pub open spec fn date_of(v: TomlValue) -> Option<GensoDate> {
    let s = int_of(toml_get(v, "season"@));
    let m = int_of(toml_get(v, "month"@));
    let d = int_of(toml_get(v, "day"@));
    if s is Some && m is Some && d is Some {
        Some(
            GensoDate {
                season: s.unwrap() as u32,
                month: m.unwrap() as u8,
                day: d.unwrap() as u8,
            },
        )
    } else {
        None
    }
}

pub fn read_date(v: &TomlValue) -> (r: Option<GensoDate>)
    ensures
        r == date_of(*v),
{
    let s = int_at(v, "season");
    let m = int_at(v, "month");
    let d = int_at(v, "day");
    match (s, m, d) {
        (Some(s), Some(m), Some(d)) => Some(GensoDate::new(s as u32, m as u8, d as u8)),
        _ => None,
    }
}

/// The results of `f` on each of the values, in order, when none fails.
pub open spec fn all_of<T>(a: Seq<TomlValue>, f: spec_fn(TomlValue) -> Option<T>) -> Option<Seq<T>>
    decreases a.len(),
{
    if a.len() == 0 {
        Some(Seq::empty())
    } else {
        let xs = all_of(a.drop_last(), f);
        let x = f(a.last());
        if xs is Some && x is Some {
            Some(xs.unwrap().push(x.unwrap()))
        } else {
            None
        }
    }
}

/// Once some first values fail, all of them fail.
pub proof fn lemma_all_of_fails_on<T>(a: Seq<TomlValue>, f: spec_fn(TomlValue) -> Option<T>, k: int)
    requires
        0 <= k <= a.len(),
        all_of(a.take(k), f) is None,
    ensures
        all_of(a, f) is None,
    decreases a.len() - k,
{
    if k < a.len() {
        assert(a.take(k + 1).drop_last() =~= a.take(k));
        lemma_all_of_fails_on(a, f, k + 1);
    } else {
        assert(a.take(k) =~= a);
    }
}

/// One more value read.
pub proof fn lemma_all_of_step<T>(a: Seq<TomlValue>, f: spec_fn(TomlValue) -> Option<T>, k: int)
    requires
        0 <= k < a.len(),
    ensures
        all_of(a.take(k + 1), f) == if all_of(a.take(k), f) is Some && f(a[k]) is Some {
            Some(all_of(a.take(k), f).unwrap().push(f(a[k]).unwrap()))
        } else {
            None::<Seq<T>>
        },
{
    assert(a.take(k + 1).drop_last() =~= a.take(k));
    assert(a.take(k + 1).last() == a[k]);
}

} // verus!
