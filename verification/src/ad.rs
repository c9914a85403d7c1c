//! Advertisements and advertising agencies: their names, their costs and what
//! they bring in.

use std::collections::HashMap;

use vstd::prelude::*;

use crate::text::str_equals;

verus! {

broadcast use vstd::std_specs::hash::group_hash_axioms;

/// The advertisements the shop can run.
#[derive(Debug, Clone, Copy, PartialEq, Eq, Hash, Structural)]
pub enum SuzunaAdType {
    ShopNobori,
    TownNobori,
    Chindon,
    NewsPaper,
    BunBunMaruPaper,
    AdPaper,
}

/// The number under which the kind is filed in cost tables.
pub open spec fn ad_type_key(t: SuzunaAdType) -> u8 {
    match t {
        SuzunaAdType::ShopNobori => 0,
        SuzunaAdType::TownNobori => 1,
        SuzunaAdType::Chindon => 2,
        SuzunaAdType::NewsPaper => 3,
        SuzunaAdType::BunBunMaruPaper => 4,
        SuzunaAdType::AdPaper => 5,
    }
}

/// The kind whose name in the resource files is `s`.
pub open spec fn ad_type_named(s: Seq<char>) -> Option<SuzunaAdType> {
    if s == "ShopNobori"@ {
        Some(SuzunaAdType::ShopNobori)
    } else if s == "TownNobori"@ {
        Some(SuzunaAdType::TownNobori)
    } else if s == "Chindon"@ {
        Some(SuzunaAdType::Chindon)
    } else if s == "NewsPaper"@ {
        Some(SuzunaAdType::NewsPaper)
    } else if s == "BunBunMaruPaper"@ {
        Some(SuzunaAdType::BunBunMaruPaper)
    } else if s == "AdPaper"@ {
        Some(SuzunaAdType::AdPaper)
    } else {
        None
    }
}

/// The name of each kind of advertisement, as the game's files write it.
pub open spec fn ad_type_name(t: SuzunaAdType) -> Seq<char> {
    match t {
        SuzunaAdType::ShopNobori => "ShopNobori"@,
        SuzunaAdType::TownNobori => "TownNobori"@,
        SuzunaAdType::Chindon => "Chindon"@,
        SuzunaAdType::NewsPaper => "NewsPaper"@,
        SuzunaAdType::BunBunMaruPaper => "BunBunMaruPaper"@,
        SuzunaAdType::AdPaper => "AdPaper"@,
    }
}

/// Law: the name of every kind of advertisement reads back as that kind of advertisement, and a text that
/// reads as a kind of advertisement is its name.
pub proof fn law_ad_type_name_reads_back(t: SuzunaAdType, s: Seq<char>)
    ensures
        ad_type_named(ad_type_name(t)) == Some(t),
        ad_type_named(s) == Some(t) ==> s == ad_type_name(t),
{
    reveal_strlit("ShopNobori");
    reveal_strlit("TownNobori");
    reveal_strlit("Chindon");
    reveal_strlit("NewsPaper");
    reveal_strlit("BunBunMaruPaper");
    reveal_strlit("AdPaper");
    assert("ShopNobori"@.len() == 10);
    assert("TownNobori"@.len() == 10);
    assert("Chindon"@.len() == 7);
    assert("NewsPaper"@.len() == 9);
    assert("BunBunMaruPaper"@.len() == 15);
    assert("AdPaper"@.len() == 7);
    assert("AdPaper"@[0] == 'A');
    assert("Chindon"@[0] == 'C');
    assert("ShopNobori"@[0] == 'S');
    assert("TownNobori"@[0] == 'T');
}

/// The value that the last pair naming `t` gives, if any pair does.
pub open spec fn ad_value_from_pairs(pairs: Seq<(String, u32)>, t: SuzunaAdType) -> Option<u32>
    decreases pairs.len(),
{
    if pairs.len() == 0 {
        None
    } else if ad_type_named(pairs.last().0@) == Some(t) {
        Some(pairs.last().1)
    } else {
        ad_value_from_pairs(pairs.drop_last(), t)
    }
}

/// Every pair names a known kind.
pub open spec fn ad_value_from_pairs_names_known(pairs: Seq<(String, u32)>) -> bool {
    forall|i: int| 0 <= i < pairs.len() ==> #[trigger] ad_type_named(pairs[i].0@) is Some
}

/// Law: distinct kinds are filed under distinct numbers.
pub proof fn law_ad_type_key_injective(a: SuzunaAdType, b: SuzunaAdType)
    ensures
        ad_type_key(a) == ad_type_key(b) <==> a == b,
{
}

impl SuzunaAdType {
    /// The kind named `s`, if the name is one of the known ones.
    pub fn named(s: &str) -> (r: Option<Self>)
        ensures
            r == ad_type_named(s@),
    {
        if str_equals(s, "ShopNobori") {
            Some(Self::ShopNobori)
        } else if str_equals(s, "TownNobori") {
            Some(Self::TownNobori)
        } else if str_equals(s, "Chindon") {
            Some(Self::Chindon)
        } else if str_equals(s, "NewsPaper") {
            Some(Self::NewsPaper)
        } else if str_equals(s, "BunBunMaruPaper") {
            Some(Self::BunBunMaruPaper)
        } else if str_equals(s, "AdPaper") {
            Some(Self::AdPaper)
        } else {
            None
        }
    }

    /// The kind named `s`; the name must be one of the known ones.
    pub fn from_str(s: &str) -> (r: Self)
        requires
            ad_type_named(s@) is Some,
        ensures
            Some(r) == ad_type_named(s@),
    {
        Self::named(s).unwrap()
    }

    pub(crate) fn key(&self) -> (r: u8)
        ensures
            r == ad_type_key(*self),
    {
        match self {
            SuzunaAdType::ShopNobori => 0,
            SuzunaAdType::TownNobori => 1,
            SuzunaAdType::Chindon => 2,
            SuzunaAdType::NewsPaper => 3,
            SuzunaAdType::BunBunMaruPaper => 4,
            SuzunaAdType::AdPaper => 5,
        }
    }
}

/// The places that advertise for the shop.
#[derive(Debug, Clone, Copy, PartialEq, Eq, Hash, Structural)]
pub enum SuzunaAdAgencyType {
    HakureiJinja,
    KirisameMahoten,
    GettoDango,
    Kusuriya,
    Hieda,
    YamaJinja,
}

/// The number under which the kind is filed in cost tables.
pub open spec fn ad_agency_type_key(t: SuzunaAdAgencyType) -> u8 {
    match t {
        SuzunaAdAgencyType::HakureiJinja => 0,
        SuzunaAdAgencyType::KirisameMahoten => 1,
        SuzunaAdAgencyType::GettoDango => 2,
        SuzunaAdAgencyType::Kusuriya => 3,
        SuzunaAdAgencyType::Hieda => 4,
        SuzunaAdAgencyType::YamaJinja => 5,
    }
}

/// The kind whose name in the resource files is `s`.
pub open spec fn ad_agency_type_named(s: Seq<char>) -> Option<SuzunaAdAgencyType> {
    if s == "HakureiJinja"@ {
        Some(SuzunaAdAgencyType::HakureiJinja)
    } else if s == "KirisameMahoten"@ {
        Some(SuzunaAdAgencyType::KirisameMahoten)
    } else if s == "GettoDango"@ {
        Some(SuzunaAdAgencyType::GettoDango)
    } else if s == "Kusuriya"@ {
        Some(SuzunaAdAgencyType::Kusuriya)
    } else if s == "Hieda"@ {
        Some(SuzunaAdAgencyType::Hieda)
    } else if s == "YamaJinja"@ {
        Some(SuzunaAdAgencyType::YamaJinja)
    } else {
        None
    }
}

/// The name of each advertising agency, as the game's files write it.
pub open spec fn ad_agency_type_name(t: SuzunaAdAgencyType) -> Seq<char> {
    match t {
        SuzunaAdAgencyType::HakureiJinja => "HakureiJinja"@,
        SuzunaAdAgencyType::KirisameMahoten => "KirisameMahoten"@,
        SuzunaAdAgencyType::GettoDango => "GettoDango"@,
        SuzunaAdAgencyType::Kusuriya => "Kusuriya"@,
        SuzunaAdAgencyType::Hieda => "Hieda"@,
        SuzunaAdAgencyType::YamaJinja => "YamaJinja"@,
    }
}

/// Law: the name of every advertising agency reads back as that advertising agency, and a text that
/// reads as a advertising agency is its name.
pub proof fn law_ad_agency_type_name_reads_back(t: SuzunaAdAgencyType, s: Seq<char>)
    ensures
        ad_agency_type_named(ad_agency_type_name(t)) == Some(t),
        ad_agency_type_named(s) == Some(t) ==> s == ad_agency_type_name(t),
{
    reveal_strlit("HakureiJinja");
    reveal_strlit("KirisameMahoten");
    reveal_strlit("GettoDango");
    reveal_strlit("Kusuriya");
    reveal_strlit("Hieda");
    reveal_strlit("YamaJinja");
    assert("HakureiJinja"@.len() == 12);
    assert("KirisameMahoten"@.len() == 15);
    assert("GettoDango"@.len() == 10);
    assert("Kusuriya"@.len() == 8);
    assert("Hieda"@.len() == 5);
    assert("YamaJinja"@.len() == 9);
}

/// The value that the last pair naming `t` gives, if any pair does.
pub open spec fn agency_value_from_pairs(pairs: Seq<(String, u32)>, t: SuzunaAdAgencyType) -> Option<u32>
    decreases pairs.len(),
{
    if pairs.len() == 0 {
        None
    } else if ad_agency_type_named(pairs.last().0@) == Some(t) {
        Some(pairs.last().1)
    } else {
        agency_value_from_pairs(pairs.drop_last(), t)
    }
}

/// Every pair names a known kind.
pub open spec fn agency_value_from_pairs_names_known(pairs: Seq<(String, u32)>) -> bool {
    forall|i: int| 0 <= i < pairs.len() ==> #[trigger] ad_agency_type_named(pairs[i].0@) is Some
}

/// Law: distinct kinds are filed under distinct numbers.
pub proof fn law_ad_agency_type_key_injective(a: SuzunaAdAgencyType, b: SuzunaAdAgencyType)
    ensures
        ad_agency_type_key(a) == ad_agency_type_key(b) <==> a == b,
{
}

impl SuzunaAdAgencyType {
    /// The kind named `s`, if the name is one of the known ones.
    pub fn named(s: &str) -> (r: Option<Self>)
        ensures
            r == ad_agency_type_named(s@),
    {
        if str_equals(s, "HakureiJinja") {
            Some(Self::HakureiJinja)
        } else if str_equals(s, "KirisameMahoten") {
            Some(Self::KirisameMahoten)
        } else if str_equals(s, "GettoDango") {
            Some(Self::GettoDango)
        } else if str_equals(s, "Kusuriya") {
            Some(Self::Kusuriya)
        } else if str_equals(s, "Hieda") {
            Some(Self::Hieda)
        } else if str_equals(s, "YamaJinja") {
            Some(Self::YamaJinja)
        } else {
            None
        }
    }

    /// The kind named `s`; the name must be one of the known ones.
    pub fn from_str(s: &str) -> (r: Self)
        requires
            ad_agency_type_named(s@) is Some,
        ensures
            Some(r) == ad_agency_type_named(s@),
    {
        Self::named(s).unwrap()
    }

    pub(crate) fn key(&self) -> (r: u8)
        ensures
            r == ad_agency_type_key(*self),
    {
        match self {
            SuzunaAdAgencyType::HakureiJinja => 0,
            SuzunaAdAgencyType::KirisameMahoten => 1,
            SuzunaAdAgencyType::GettoDango => 2,
            SuzunaAdAgencyType::Kusuriya => 3,
            SuzunaAdAgencyType::Hieda => 4,
            SuzunaAdAgencyType::YamaJinja => 5,
        }
    }
}

fn fill_ad_value_from_pairs(pairs: &Vec<(String, u32)>) -> (r: HashMap<u8, u32>)
    requires
        ad_value_from_pairs_names_known(pairs@),
    ensures
        forall|t: SuzunaAdType|
            #![trigger ad_type_key(t)]
            (if r@.contains_key(ad_type_key(t)) {
                Some(r@[ad_type_key(t)])
            } else {
                None
            }) == ad_value_from_pairs(pairs@, t),
{
    let mut table: HashMap<u8, u32> = HashMap::new();
    let mut i: usize = 0;
    while i < pairs.len()
        invariant
            i <= pairs@.len(),
            ad_value_from_pairs_names_known(pairs@),
            forall|t: SuzunaAdType|
                #![trigger ad_type_key(t)]
                (if table@.contains_key(ad_type_key(t)) {
                    Some(table@[ad_type_key(t)])
                } else {
                    None
                }) == ad_value_from_pairs(pairs@.take(i as int), t),
        decreases pairs.len() - i,
    {
        assert(ad_type_named(pairs@[i as int].0@) is Some);
        let t = SuzunaAdType::from_str(pairs[i].0.as_str());
        table.insert(t.key(), pairs[i].1);
        proof {
            assert(pairs@.take(i + 1).drop_last() =~= pairs@.take(i as int));
            assert forall|u: SuzunaAdType| #![trigger ad_type_key(u)]
                (if table@.contains_key(ad_type_key(u)) {
                    Some(table@[ad_type_key(u)])
                } else {
                    None
                }) == ad_value_from_pairs(pairs@.take(i + 1), u) by {
                law_ad_type_key_injective(u, t);
            }
        }
        i += 1;
    }
    proof {
        assert(pairs@.take(pairs@.len() as int) =~= pairs@);
    }
    table
}

fn fill_agency_value_from_pairs(pairs: &Vec<(String, u32)>) -> (r: HashMap<u8, u32>)
    requires
        agency_value_from_pairs_names_known(pairs@),
    ensures
        forall|t: SuzunaAdAgencyType|
            #![trigger ad_agency_type_key(t)]
            (if r@.contains_key(ad_agency_type_key(t)) {
                Some(r@[ad_agency_type_key(t)])
            } else {
                None
            }) == agency_value_from_pairs(pairs@, t),
{
    let mut table: HashMap<u8, u32> = HashMap::new();
    let mut i: usize = 0;
    while i < pairs.len()
        invariant
            i <= pairs@.len(),
            agency_value_from_pairs_names_known(pairs@),
            forall|t: SuzunaAdAgencyType|
                #![trigger ad_agency_type_key(t)]
                (if table@.contains_key(ad_agency_type_key(t)) {
                    Some(table@[ad_agency_type_key(t)])
                } else {
                    None
                }) == agency_value_from_pairs(pairs@.take(i as int), t),
        decreases pairs.len() - i,
    {
        assert(ad_agency_type_named(pairs@[i as int].0@) is Some);
        let t = SuzunaAdAgencyType::from_str(pairs[i].0.as_str());
        table.insert(t.key(), pairs[i].1);
        proof {
            assert(pairs@.take(i + 1).drop_last() =~= pairs@.take(i as int));
            assert forall|u: SuzunaAdAgencyType| #![trigger ad_agency_type_key(u)]
                (if table@.contains_key(ad_agency_type_key(u)) {
                    Some(table@[ad_agency_type_key(u)])
                } else {
                    None
                }) == agency_value_from_pairs(pairs@.take(i + 1), u) by {
                law_ad_agency_type_key_injective(u, t);
            }
        }
        i += 1;
    }
    proof {
        assert(pairs@.take(pairs@.len() as int) =~= pairs@);
    }
    table
}

/// What each advertisement costs and how much reputation it gains.
pub struct AdCostTable {
    ad_cost_table: HashMap<u8, u32>,
    ad_gain_table: HashMap<u8, u32>,
}

impl AdCostTable {
    /// What the advertisement costs, if the table holds it.
    pub closed spec fn spec_cost(&self, t: SuzunaAdType) -> Option<u32> {
        if self.ad_cost_table@.contains_key(ad_type_key(t)) {
            Some(self.ad_cost_table@[ad_type_key(t)])
        } else {
            None
        }
    }

    /// The reputation that the advertisement gains, if the table holds it.
    pub closed spec fn spec_gain(&self, t: SuzunaAdType) -> Option<u32> {
        if self.ad_gain_table@.contains_key(ad_type_key(t)) {
            Some(self.ad_gain_table@[ad_type_key(t)])
        } else {
            None
        }
    }

    /// The table read from the resource file: each pair gives a kind by name
    /// and its value; a later pair for the same kind replaces an earlier one.
    pub fn from_data(cost_data: Vec<(String, u32)>, gain_data: Vec<(String, u32)>) -> (r: Self)
        requires
            ad_value_from_pairs_names_known(cost_data@),
            ad_value_from_pairs_names_known(gain_data@),
        ensures
            forall|t: SuzunaAdType| #[trigger] r.spec_cost(t) == ad_value_from_pairs(cost_data@, t),
            forall|t: SuzunaAdType| #[trigger] r.spec_gain(t) == ad_value_from_pairs(gain_data@, t),
    {
        let cost_table = fill_ad_value_from_pairs(&cost_data);
        let gain_table = fill_ad_value_from_pairs(&gain_data);
        let r = AdCostTable { ad_cost_table: cost_table, ad_gain_table: gain_table };
        assert forall|t: SuzunaAdType| #[trigger] r.spec_cost(t) == ad_value_from_pairs(cost_data@, t) by {
            assert(ad_type_key(t) == ad_type_key(t));
        }
        assert forall|t: SuzunaAdType| #[trigger] r.spec_gain(t) == ad_value_from_pairs(gain_data@, t) by {
            assert(ad_type_key(t) == ad_type_key(t));
        }
        r
    }

    /// What the kind costs; the table must hold it.
    pub fn get_cost(&self, ty: SuzunaAdType) -> (r: u32)
        requires
            self.spec_cost(ty) is Some,
        ensures
            Some(r) == self.spec_cost(ty),
    {
        *self.ad_cost_table.get(&ty.key()).unwrap()
    }

    /// The reputation that the advertisement gains; the table must hold it.
    pub fn get_reputation_gain(&self, ty: SuzunaAdType) -> (r: u32)
        requires
            self.spec_gain(ty) is Some,
        ensures
            Some(r) == self.spec_gain(ty),
    {
        *self.ad_gain_table.get(&ty.key()).unwrap()
    }
}

/// What each advertising agency costs and how much money it brings in.
pub struct AdAgencyCostTable {
    cost_table: HashMap<u8, u32>,
    money_gain_table: HashMap<u8, u32>,
}

impl AdAgencyCostTable {
    /// What the agency costs, if the table holds it.
    pub closed spec fn spec_cost(&self, t: SuzunaAdAgencyType) -> Option<u32> {
        if self.cost_table@.contains_key(ad_agency_type_key(t)) {
            Some(self.cost_table@[ad_agency_type_key(t)])
        } else {
            None
        }
    }

    /// The money that the agency brings in, if the table holds it.
    pub closed spec fn spec_money_gain(&self, t: SuzunaAdAgencyType) -> Option<u32> {
        if self.money_gain_table@.contains_key(ad_agency_type_key(t)) {
            Some(self.money_gain_table@[ad_agency_type_key(t)])
        } else {
            None
        }
    }

    /// The table read from the resource file: each pair gives a kind by name
    /// and its value; a later pair for the same kind replaces an earlier one.
    pub fn from_data(cost_data: Vec<(String, u32)>, gain_data: Vec<(String, u32)>) -> (r: Self)
        requires
            agency_value_from_pairs_names_known(cost_data@),
            agency_value_from_pairs_names_known(gain_data@),
        ensures
            forall|t: SuzunaAdAgencyType| #[trigger] r.spec_cost(t) == agency_value_from_pairs(cost_data@, t),
            forall|t: SuzunaAdAgencyType| #[trigger] r.spec_money_gain(t) == agency_value_from_pairs(gain_data@, t),
    {
        let cost_table = fill_agency_value_from_pairs(&cost_data);
        let gain_table = fill_agency_value_from_pairs(&gain_data);
        let r = AdAgencyCostTable { cost_table: cost_table, money_gain_table: gain_table };
        assert forall|t: SuzunaAdAgencyType| #[trigger] r.spec_cost(t) == agency_value_from_pairs(cost_data@, t) by {
            assert(ad_agency_type_key(t) == ad_agency_type_key(t));
        }
        assert forall|t: SuzunaAdAgencyType| #[trigger] r.spec_money_gain(t) == agency_value_from_pairs(gain_data@, t) by {
            assert(ad_agency_type_key(t) == ad_agency_type_key(t));
        }
        r
    }

    /// What the kind costs; the table must hold it.
    pub fn get_cost(&self, ty: &SuzunaAdAgencyType) -> (r: u32)
        requires
            self.spec_cost(*ty) is Some,
        ensures
            Some(r) == self.spec_cost(*ty),
    {
        *self.cost_table.get(&ty.key()).unwrap()
    }

    /// The money that the agency brings in; the table must hold it.
    pub fn get_money_gain(&self, ty: &SuzunaAdAgencyType) -> (r: u32)
        requires
            self.spec_money_gain(*ty) is Some,
        ensures
            Some(r) == self.spec_money_gain(*ty),
    {
        *self.money_gain_table.get(&ty.key()).unwrap()
    }
}

} // verus!
