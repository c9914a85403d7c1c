//! Game logic of the Suzunaan book-lending shop: in-game calendar, books and
//! their conditions, lending and returning requests, daily reports, advertising
//! tables, scenario tables, map tiles and route finding.

pub mod random;
pub mod date;
pub mod text;
pub mod util;
pub mod ids;
pub mod book;
pub mod game_system;
pub mod scenario_table;
pub mod ad;
pub mod resource;
pub mod borrowing;
pub mod report;
pub mod book_management;
pub mod map;
pub mod scene;
pub mod scenario;
pub mod savable;
pub mod shelving;
pub mod character;
pub mod map_event;
pub mod ending;
pub mod customer;
pub mod week_schedule;
pub mod status_pages;
pub mod scenario_event;
pub mod text_box;
pub mod toml_doc;
pub mod documents;
pub mod scenario_document;
