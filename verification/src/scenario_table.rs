//! Which scenario file is played on which day, and for which general event.

use std::collections::HashMap;

use vstd::prelude::*;

use crate::date::GensoDate;
use crate::text::str_equals;

verus! {

broadcast use vstd::std_specs::hash::group_hash_axioms;

/// Scenarios that are not tied to a day.
#[derive(Debug, Clone, Copy, PartialEq, Eq, Hash, Structural)]
pub enum GeneralScenarioID {
    NoEnoughMoney,
}

/// The number under which a general scenario is filed.
pub open spec fn general_scenario_key(id: GeneralScenarioID) -> u8 {
    match id {
        GeneralScenarioID::NoEnoughMoney => 0,
    }
}

impl GeneralScenarioID {
    /// The general scenario named `s`, if the name is the known one.
    pub fn named(s: &str) -> (r: Option<Self>)
        ensures
            r is Some <==> s@ == "NoEnoughMoney"@,
            r matches Some(id) ==> id == GeneralScenarioID::NoEnoughMoney,
    {
        if str_equals(s, "NoEnoughMoney") {
            Some(GeneralScenarioID::NoEnoughMoney)
        } else {
            None
        }
    }

    /// The general scenario named `s`; no other name is known.
    pub fn from_str(s: &str) -> (r: Self)
        requires
            s@ == "NoEnoughMoney"@,
        ensures
            r == GeneralScenarioID::NoEnoughMoney,
    {
        GeneralScenarioID::NoEnoughMoney
    }

    fn key(&self) -> (r: u8)
        ensures
            r == general_scenario_key(*self),
    {
        match self {
            GeneralScenarioID::NoEnoughMoney => 0,
        }
    }
}

/// The number under which the scenario of a day is filed: season, month and
/// day side by side.
pub open spec fn date_key(d: GensoDate) -> u64 {
    (d.season * 65536 + d.month * 256 + d.day) as u64
}

/// Law: two days are filed under the same number only when they are the same day.
pub proof fn law_date_key_injective(a: GensoDate, b: GensoDate)
    ensures
        date_key(a) == date_key(b) <==> a == b,
{
}

fn date_key_of(d: &GensoDate) -> (r: u64)
    ensures
        r == date_key(*d),
{
    d.season as u64 * 65536 + d.month as u64 * 256 + d.day as u64
}

/// The table of scenario files.
pub struct ScenarioTable {
    scenario_table: HashMap<u64, String>,
    general_scenario: HashMap<u8, String>,
}

impl ScenarioTable {
    /// The scenario file of the day `date`, if one is filed.
    pub closed spec fn day_scenario(&self, date: GensoDate) -> Option<Seq<char>> {
        if self.scenario_table@.contains_key(date_key(date)) {
            Some(self.scenario_table@[date_key(date)]@)
        } else {
            None
        }
    }

    /// The scenario file of a general event, if one is filed.
    pub closed spec fn general_scenario(&self, id: GeneralScenarioID) -> Option<Seq<char>> {
        if self.general_scenario@.contains_key(general_scenario_key(id)) {
            Some(self.general_scenario@[general_scenario_key(id)]@)
        } else {
            None
        }
    }

    /// A table filled from the scenario table file: each entry of `day_entries`
    /// files a path for a day, each entry of `general_entries` files a path for
    /// the general event it names; a later entry for the same key replaces an
    /// earlier one.
    pub fn new(day_entries: Vec<(GensoDate, String)>, general_entries: Vec<(String, String)>) -> (r:
        Self)
        requires
            forall|i: int|
                0 <= i < general_entries@.len() ==> general_entries@[i].0@ == "NoEnoughMoney"@,
        ensures
            forall|d: GensoDate|
                #![trigger r.day_scenario(d)]
                r.day_scenario(d) == day_scenario_from_entries(day_entries@, d),
            forall|id: GeneralScenarioID|
                #![trigger r.general_scenario(id)]
                r.general_scenario(id) == general_scenario_from_entries(general_entries@, id),
    {
        let mut table: HashMap<u64, String> = HashMap::new();
        let mut i: usize = 0;
        while i < day_entries.len()
            invariant
                i <= day_entries@.len(),
                forall|d: GensoDate|
                    #![trigger date_key(d)]
                    (if table@.contains_key(date_key(d)) {
                        Some(table@[date_key(d)]@)
                    } else {
                        None
                    }) == day_scenario_from_entries(day_entries@.take(i as int), d),
                forall|k: u64|
                    table@.contains_key(k) ==> exists|d: GensoDate| #[trigger] date_key(d) == k,
            decreases day_entries.len() - i,
        {
            let key = date_key_of(&day_entries[i].0);
            table.insert(key, day_entries[i].1.clone());
            proof {
                assert(day_entries@.take(i + 1).drop_last() =~= day_entries@.take(i as int));
                assert forall|d: GensoDate| #![trigger date_key(d)]
                    (if table@.contains_key(date_key(d)) {
                        Some(table@[date_key(d)]@)
                    } else {
                        None
                    }) == day_scenario_from_entries(day_entries@.take(i + 1), d) by {
                    law_date_key_injective(d, day_entries@[i as int].0);
                }
            }
            i += 1;
        }
        let mut general: HashMap<u8, String> = HashMap::new();
        let mut j: usize = 0;
        while j < general_entries.len()
            invariant
                j <= general_entries@.len(),
                forall|k: int|
                    0 <= k < general_entries@.len() ==> general_entries@[k].0@ == "NoEnoughMoney"@,
                forall|id: GeneralScenarioID|
                    #![trigger general_scenario_key(id)]
                    (if general@.contains_key(general_scenario_key(id)) {
                        Some(general@[general_scenario_key(id)]@)
                    } else {
                        None
                    }) == general_scenario_from_entries(general_entries@.take(j as int), id),
            decreases general_entries.len() - j,
        {
            let id = GeneralScenarioID::from_str(general_entries[j].0.as_str());
            general.insert(id.key(), general_entries[j].1.clone());
            proof {
                assert(general_entries@.take(j + 1).drop_last() =~= general_entries@.take(j as int));
            }
            j += 1;
        }
        proof {
            assert(day_entries@.take(day_entries@.len() as int) =~= day_entries@);
            assert(general_entries@.take(general_entries@.len() as int) =~= general_entries@);
        }
        ScenarioTable { scenario_table: table, general_scenario: general }
    }

    /// The scenario file played on `date`.
    pub fn get_day_scenario_path(&self, date: &GensoDate) -> (r: Option<String>)
        ensures
            r matches Some(s) ==> self.day_scenario(*date) == Some(s@),
            r is None ==> self.day_scenario(*date) is None,
    {
        match self.scenario_table.get(&date_key_of(date)) {
            Some(s) => Some(s.clone()),
            None => None,
        }
    }

    /// The scenario file of the general event `id`.
    pub fn get_general_scenario_path(&self, id: &GeneralScenarioID) -> (r: Option<String>)
        ensures
            r matches Some(s) ==> self.general_scenario(*id) == Some(s@),
            r is None ==> self.general_scenario(*id) is None,
    {
        match self.general_scenario.get(&id.key()) {
            Some(s) => Some(s.clone()),
            None => None,
        }
    }
}

/// The path that the last entry for day `d` files, if any entry does.
pub open spec fn day_scenario_from_entries(entries: Seq<(GensoDate, String)>, d: GensoDate) -> Option<
    Seq<char>,
>
    decreases entries.len(),
{
    if entries.len() == 0 {
        None
    } else if entries.last().0 == d {
        Some(entries.last().1@)
    } else {
        day_scenario_from_entries(entries.drop_last(), d)
    }
}

/// The path that the last entry naming `id` files, if any entry does.
pub open spec fn general_scenario_from_entries(
    entries: Seq<(String, String)>,
    id: GeneralScenarioID,
) -> Option<Seq<char>>
    decreases entries.len(),
{
    if entries.len() == 0 {
        None
    } else if entries.last().0@ == "NoEnoughMoney"@ && id == GeneralScenarioID::NoEnoughMoney {
        Some(entries.last().1@)
    } else {
        general_scenario_from_entries(entries.drop_last(), id)
    }
}

} // verus!
