//! The game's catalogue data: books on offer, customer names, maps, the
//! scenario table and the advertising tables.

use vstd::prelude::*;

use crate::ad::{AdAgencyCostTable, AdCostTable, SuzunaAdAgencyType, SuzunaAdType};
use crate::book::BookInformation;
use crate::date::GensoDate;
use crate::random::random_usize;
use crate::scenario_table::{GeneralScenarioID, ScenarioTable};
use crate::text::str_equals;

verus! {

/// Where the data of one map is stored.
#[derive(Debug)]
pub struct MapConstractData {
    pub id: u32,
    pub comment: String,
    pub map_file_path: String,
    pub event_map_file_path: String,
}

impl Clone for MapConstractData {
    fn clone(&self) -> (r: Self)
        ensures
            r == *self,
    {
        MapConstractData {
            id: self.id,
            comment: self.comment.clone(),
            map_file_path: self.map_file_path.clone(),
            event_map_file_path: self.event_map_file_path.clone(),
        }
    }
}

/// Where the image of a tile batch is stored and the size of one of its tiles.
#[derive(Debug)]
pub struct SpriteBatchData {
    pub sprite_x_size: u16,
    pub sprite_y_size: u16,
    pub path: String,
}

/// The catalogue data that the game reads from its resource file.
pub struct GameResource {
    customers_name: Vec<String>,
    books_information: Vec<BookInformation>,
    map_data: Vec<MapConstractData>,
    scenario_table: ScenarioTable,
    ad_info: AdCostTable,
    ad_agency_info: AdAgencyCostTable,
}

/// The position of the first book of `books` named `title`, or the length of
/// `books` when there is none.
pub open spec fn first_book_named(books: Seq<BookInformation>, title: Seq<char>) -> int
    decreases books.len(),
{
    if books.len() == 0 {
        0
    } else if books[0].spec_name() == title {
        0
    } else {
        1 + first_book_named(books.drop_first(), title)
    }
}

proof fn lemma_first_book_named(books: Seq<BookInformation>, title: Seq<char>)
    ensures
        0 <= first_book_named(books, title) <= books.len(),
        first_book_named(books, title) < books.len() ==> books[first_book_named(
            books,
            title,
        )].spec_name() == title,
        forall|j: int|
            0 <= j < first_book_named(books, title) ==> books[j].spec_name() != title,
    decreases books.len(),
{
    if books.len() > 0 && books[0].spec_name() != title {
        lemma_first_book_named(books.drop_first(), title);
        assert forall|j: int| 0 <= j < first_book_named(books, title) implies books[j].spec_name()
            != title by {
            if j > 0 {
                assert(books[j] == books.drop_first()[j - 1]);
            }
        }
    }
}

impl GameResource {
    pub closed spec fn spec_customers(&self) -> Seq<String> {
        self.customers_name@
    }

    pub closed spec fn spec_books(&self) -> Seq<BookInformation> {
        self.books_information@
    }

    pub closed spec fn spec_map_data(&self) -> Seq<MapConstractData> {
        self.map_data@
    }

    pub closed spec fn spec_scenario_table(&self) -> ScenarioTable {
        self.scenario_table
    }

    pub closed spec fn spec_ad_info(&self) -> AdCostTable {
        self.ad_info
    }

    pub closed spec fn spec_ad_agency_info(&self) -> AdAgencyCostTable {
        self.ad_agency_info
    }

    /// The catalogue built from the parts of the resource file.
    pub fn new(
        customers_name: Vec<String>,
        books_information: Vec<BookInformation>,
        map_data: Vec<MapConstractData>,
        scenario_table: ScenarioTable,
        ad_info: AdCostTable,
        ad_agency_info: AdAgencyCostTable,
    ) -> (r: Self)
        ensures
            r.spec_customers() == customers_name@,
            r.spec_books() == books_information@,
            r.spec_map_data() == map_data@,
            r.spec_scenario_table() == scenario_table,
            r.spec_ad_info() == ad_info,
            r.spec_ad_agency_info() == ad_agency_info,
    {
        GameResource {
            customers_name,
            books_information,
            map_data,
            scenario_table,
            ad_info,
            ad_agency_info,
        }
    }

    /// The data of a map; whatever the id, the first map is handed out.
    pub fn get_map_data(&self, _id: u32) -> (r: Option<MapConstractData>)
        ensures
            r == (if self.spec_map_data().len() > 0 {
                Some(self.spec_map_data()[0])
            } else {
                None
            }),
    {
        if self.map_data.len() > 0 {
            Some(self.map_data[0].clone())
        } else {
            None
        }
    }

    /// A book of the catalogue, chosen at random.
    pub fn book_random_select(&self) -> (r: &BookInformation)
        requires
            self.spec_books().len() > 0,
        ensures
            exists|i: int| 0 <= i < self.spec_books().len() && *r == self.spec_books()[i],
    {
        let i = random_usize() % self.books_information.len();
        &self.books_information[i]
    }

    /// The first book of the catalogue whose name is `title`.
    pub fn search_book_with_title(&self, title: &str) -> (r: Option<&BookInformation>)
        ensures
            ({
                let i = first_book_named(self.spec_books(), title@);
                if i < self.spec_books().len() {
                    r == Some(&self.spec_books()[i])
                } else {
                    r is None
                }
            }),
    {
        proof {
            lemma_first_book_named(self.books_information@, title@);
        }
        let mut i: usize = 0;
        while i < self.books_information.len()
            invariant
                i <= self.books_information@.len(),
                i <= first_book_named(self.books_information@, title@),
            decreases self.books_information.len() - i,
        {
            proof {
                lemma_first_book_named(self.books_information@, title@);
            }
            if str_equals(self.books_information[i].get_name(), title) {
                return Some(&self.books_information[i]);
            }
            i += 1;
        }
        None
    }

    /// The books of the catalogue.
    pub fn iter_available_books(&self) -> (r: &[BookInformation])
        ensures
            r@ == self.spec_books(),
    {
        self.books_information.as_slice()
    }

    /// A customer's name, chosen at random.
    pub fn customer_random_select(&self) -> (r: &str)
        requires
            self.spec_customers().len() > 0,
        ensures
            exists|i: int| 0 <= i < self.spec_customers().len() && r@ == self.spec_customers()[i]@,
    {
        let i = random_usize() % self.customers_name.len();
        self.customers_name[i].as_str()
    }

    pub fn get_day_scenario_path(&self, date: &GensoDate) -> (r: Option<String>)
        ensures
            r matches Some(s) ==> self.spec_scenario_table().day_scenario(*date) == Some(s@),
            r is None ==> self.spec_scenario_table().day_scenario(*date) is None,
    {
        self.scenario_table.get_day_scenario_path(date)
    }

    pub fn get_general_scenario_path(&self, id: &GeneralScenarioID) -> (r: Option<String>)
        ensures
            r matches Some(s) ==> self.spec_scenario_table().general_scenario(*id) == Some(s@),
            r is None ==> self.spec_scenario_table().general_scenario(*id) is None,
    {
        self.scenario_table.get_general_scenario_path(id)
    }

    pub fn get_default_ad_cost(&self, ty: SuzunaAdType) -> (r: u32)
        requires
            self.spec_ad_info().spec_cost(ty) is Some,
        ensures
            Some(r) == self.spec_ad_info().spec_cost(ty),
    {
        self.ad_info.get_cost(ty)
    }

    pub fn get_default_ad_reputation_gain(&self, ty: SuzunaAdType) -> (r: u32)
        requires
            self.spec_ad_info().spec_gain(ty) is Some,
        ensures
            Some(r) == self.spec_ad_info().spec_gain(ty),
    {
        self.ad_info.get_reputation_gain(ty)
    }

    pub fn get_default_ad_agency_cost(&self, ty: &SuzunaAdAgencyType) -> (r: u32)
        requires
            self.spec_ad_agency_info().spec_cost(*ty) is Some,
        ensures
            Some(r) == self.spec_ad_agency_info().spec_cost(*ty),
    {
        self.ad_agency_info.get_cost(ty)
    }

    pub fn get_default_ad_agency_money_gain(&self, ty: &SuzunaAdAgencyType) -> (r: u32)
        requires
            self.spec_ad_agency_info().spec_money_gain(*ty) is Some,
        ensures
            Some(r) == self.spec_ad_agency_info().spec_money_gain(*ty),
    {
        self.ad_agency_info.get_money_gain(ty)
    }
}

} // verus!
