use suzu::book_management::NewBookSchedule;
use suzu::date::GensoDate;
use suzu::documents::{
    map_events_from_document, new_book_ids_fit, scenario_table_from_document,
};
use suzu::ids::TextureID;
use suzu::map_event::{
    BookStoreEvent, BuiltinEvent, BuiltinEventSymbol, EventTrigger, MapEventElement, MapEventSceneSwitch, MapTextEvent,
};
use suzu::scenario::{
    ChoicePatternData, ScenarioBuiltinCommand, ScenarioElement, ScenarioFinishAndWaitData, ScenarioSwitch,
};
use suzu::scenario_document::{scenario_from_document, scenario_text_sources};
use suzu::scenario_table::GeneralScenarioID;
use suzu::scene::SceneID;
use suzu::toml_doc::{parse_toml, TomlValue};

fn doc(text: &str) -> TomlValue {
    parse_toml(text).expect("test document is TOML")
}

#[test]
fn parse_toml_reads_values_and_refuses_broken_text() {
    let d = doc("a = 1\nb = \"x\"\nc = 1.5\nd = [true, false]\n");
    match d {
        TomlValue::Table(entries) => {
            let keys: Vec<&str> = entries.iter().map(|(k, _)| k.as_str()).collect();
            assert_eq!(keys, vec!["a", "b", "c", "d"]);
            assert!(matches!(entries[0].1, TomlValue::Integer(1)));
            assert!(matches!(&entries[1].1, TomlValue::Text(s) if s == "x"));
            assert!(matches!(entries[2].1, TomlValue::Float(_)));
            assert!(matches!(&entries[3].1, TomlValue::Array(a) if a.len() == 2));
        }
        _ => panic!("a document is a table"),
    }
    assert!(parse_toml("a = = 1").is_none());
}

const TABLE: &str = r#"
[[scenario-table]]
date = { season = 1, month = 7, day = 23 }
path = "/scenario/day_7_23.toml"

[[scenario-table]]
date = { season = 1, month = 7, day = 24 }
path = "/scenario/day_7_24.toml"

[[general-scenario-table]]
type = "NoEnoughMoney"
path = "/scenario/no_enough_hp.toml"
"#;

#[test]
fn scenario_table_document_gives_paths_by_day() {
    let table = scenario_table_from_document(&doc(TABLE)).expect("the table reads");
    assert_eq!(
        table.get_day_scenario_path(&GensoDate::new(1, 7, 24)),
        Some("/scenario/day_7_24.toml".to_string())
    );
    assert_eq!(table.get_day_scenario_path(&GensoDate::new(1, 7, 25)), None);
    assert_eq!(
        table.get_general_scenario_path(&GeneralScenarioID::NoEnoughMoney),
        Some("/scenario/no_enough_hp.toml".to_string())
    );
}

#[test]
fn scenario_table_document_without_days_is_refused() {
    assert!(scenario_table_from_document(&doc("[[general-scenario-table]]\ntype = \"NoEnoughMoney\"\npath = \"x\"\n")).is_none());
}

const SCHEDULE: &str = r#"
[[new-book-schedule]]
date = { season = 1, month = 7, day = 23 }

[[new-book-schedule.books_information]]
name = "百鬼夜行絵巻"
pages = 120
size = "大判"
billing_number = 3
base_price = 500
num = 2
"#;

#[test]
fn new_book_schedule_document_hands_out_fresh_ids() {
    let d = doc(SCHEDULE);
    let mut last_id: u64 = 10;
    assert!(new_book_ids_fit(&d, last_id));
    let schedule = NewBookSchedule::from_toml(&d, &mut last_id).expect("the schedule reads");
    let day = schedule.get_schedule_at(&GensoDate::new(1, 7, 23)).expect("a delivery that day");
    let books = day.get_new_books();
    assert_eq!(books.len(), 2);
    assert_eq!(books[0].get_name(), "百鬼夜行絵巻");
    assert_eq!(books[0].get_billing_number(), 3);
    assert!(books.iter().all(|b| b.get_unique_id() > 10 && b.get_unique_id() <= last_id));
    assert_eq!(last_id, 13);
    assert!(schedule.get_schedule_at(&GensoDate::new(1, 7, 24)).is_none());
}

#[test]
fn new_book_ids_fit_refuses_an_exhausted_counter() {
    let d = doc(SCHEDULE);
    assert!(!new_book_ids_fit(&d, u64::MAX - 2));
    assert!(new_book_ids_fit(&d, u64::MAX - 3));
    assert!(new_book_ids_fit(&doc("x = 1"), u64::MAX));
}

#[test]
fn new_book_schedule_document_with_a_bad_line_uses_no_id() {
    let d = doc("[[new-book-schedule]]\ndate = { season = 1, month = 7, day = 23 }\nbooks_information = [{ name = \"a\" }]\n");
    let mut last_id: u64 = 5;
    assert!(NewBookSchedule::from_toml(&d, &mut last_id).is_none());
    assert_eq!(last_id, 5);
}

const EVENTS: &str = r#"
[[event-panel]]
position = { x = 3, y = 4 }
type = "text"
trigger = "action"
text = "本が並んでいる"

[[event-panel]]
position = { x = 5, y = 6 }
type = "switch-scene"
trigger = "touch"
switch-scene-id = "SuzunaShop"

[[event-panel]]
position = { x = 7, y = 8 }
type = "unknown-kind"
"#;

#[test]
fn map_event_document_registers_events_by_position() {
    let list = map_events_from_document(&doc(EVENTS)).expect("the events read");
    match list.check_event(EventTrigger::Action, (3, 4)) {
        Some(MapEventElement::TextEvent(t)) => assert_eq!(t.get_text(), "本が並んでいる"),
        _ => panic!("a text event at (3, 4)"),
    }
    assert!(list.check_event(EventTrigger::Touch, (3, 4)).is_none());
    match list.check_event(EventTrigger::Touch, (5, 6)) {
        Some(MapEventElement::SwitchScene(s)) => assert_eq!(s.get_switch_scene_id(), SceneID::SuzunaShop),
        _ => panic!("a scene switch at (5, 6)"),
    }
    assert!(list.check_event(EventTrigger::Action, (7, 8)).is_none());
    assert!(list.check_event(EventTrigger::Touch, (7, 8)).is_none());
}

#[test]
fn map_event_document_with_unknown_trigger_is_refused() {
    let d = doc("[[event-panel]]\nposition = { x = 1, y = 1 }\ntype = \"text\"\ntrigger = \"kick\"\ntext = \"a\"\n");
    assert!(map_events_from_document(&d).is_none());
}

const SCRIPT: &str = r#"
first-scenario-id = 1

[scene-transition]
scenario = 100
dream = 101
save = 102

[[scenario-group]]
type = "scenario"
id = 1
next-id = 2
background = "Paper1"
default-text-attribute = { fpc = 2.0, font_scale = 1.0, color = 0 }
text = [{ text = "はじめ" }, { text_src_path = "/scenario/a.txt", fpc = 1.0 }]

[[scenario-group]]
type = "choice"
id = 2
header_text = "どうする？"
choice-pattern = [{ pattern = "進む", jump-id = 3 }, { pattern = "戻る", jump-id = 1 }]
tachie-data = { right = "Ghost1" }

[[scenario-group]]
type = "wait"
id = 3
next-id = 4
opecode = "ShopOpen"

[[scenario-group]]
type = "note"

[[scenario-group]]
type = "switch"
id = 4
opecode = "cleared"
yes = 1
no = 2
"#;

#[test]
fn scenario_document_lists_its_text_files() {
    let paths = scenario_text_sources(&doc(SCRIPT));
    assert_eq!(paths, vec!["/scenario/a.txt".to_string()]);
}

#[test]
fn scenario_document_reads_into_a_script() {
    let d = doc(SCRIPT);
    let sources = vec![("/scenario/a.txt".to_string(), "ファイルの文".to_string())];
    let mut s = scenario_from_document(&d, None, &sources).expect("the script reads");
    assert_eq!(s.get_element_id_stack(), &[1]);
    match s.ref_current_element() {
        ScenarioElement::Text(t) => {
            let texts: Vec<&str> = t.seq_text_iter().iter().map(|seg| seg.get_text()).collect();
            assert_eq!(texts, vec!["はじめ", "ファイルの文"]);
            assert_eq!(t.get_next_scenario_id(), 2);
            assert_eq!(t.get_background_texture_id(), Some(TextureID::Paper1));
        }
        _ => panic!("the first element is a text page"),
    }
    s.update_current_page_index(2);
    match s.ref_current_element() {
        ScenarioElement::ChoiceSwitch(c) => {
            assert_eq!(c.get_header_text(), "どうする？");
            assert_eq!(c.get_jump_ids(), &[3, 1]);
            assert_eq!(c.get_tachie_data().get_right(), Some(TextureID::Ghost1));
        }
        _ => panic!("element 2 is a choice"),
    }
    s.update_current_page_index(4);
    assert!(matches!(s.ref_current_element(), ScenarioElement::Switch(_)));
    s.update_current_page_index(101);
    match s.ref_current_element() {
        ScenarioElement::SceneTransition(t) => assert_eq!(t.get_scene(), SceneID::SuzunaShop),
        _ => panic!("element 101 is a scene change"),
    }
}

#[test]
fn scenario_document_starts_at_the_saved_element() {
    let d = doc(SCRIPT);
    let sources = vec![("/scenario/a.txt".to_string(), "x".to_string())];
    let s = scenario_from_document(&d, Some(3), &sources).expect("the script reads");
    assert_eq!(s.get_element_id_stack(), &[3]);
    assert_eq!(s.get_waiting_opecode(), Some("ShopOpen"));
}

#[test]
fn scenario_document_missing_a_text_file_is_refused() {
    assert!(scenario_from_document(&doc(SCRIPT), None, &[]).is_none());
}

#[test]
fn scenario_document_with_an_unknown_texture_is_refused() {
    let text = SCRIPT.replace("\"Paper1\"", "\"NoSuchTexture\"");
    let sources = vec![("/scenario/a.txt".to_string(), "x".to_string())];
    assert!(scenario_from_document(&doc(&text), None, &sources).is_none());
}

#[test]
fn scenario_document_without_scene_changes_is_refused() {
    let text = SCRIPT.replace("save = 102", "");
    let sources = vec![("/scenario/a.txt".to_string(), "x".to_string())];
    assert!(scenario_from_document(&doc(&text), None, &sources).is_none());
}

#[test]
fn scenario_entries_read_by_kind() {
    let choice = doc("id = 5\nheader_text = \"h\"\nchoice-pattern = [{ pattern = \"a\", jump-id = 6 }]\n");
    let c = ChoicePatternData::from_toml_object(&choice).expect("the choice reads");
    assert_eq!(c.get_scenario_id(), 5);
    assert_eq!(c.get_choice_texts(), &["a".to_string()]);
    assert!(ChoicePatternData::from_toml_object(&doc("id = 5\nheader_text = \"h\"\n")).is_none());

    let wait = ScenarioFinishAndWaitData::from_toml_object(&doc("id = 1\nnext-id = 2\nopecode = \"Open\"\n"))
        .expect("the wait reads");
    assert_eq!(wait.get_next_id(), 2);
    assert_eq!(wait.get_opecode(), "Open");

    let command = doc("id = 9\nopecode = \"StartSchedule\"\nbackground = \"Paper2\"\n");
    let b = ScenarioBuiltinCommand::from_toml_object(&command).expect("the command reads");
    assert_eq!(b.get_scenario_id(), 9);
    assert_eq!(b.get_background_texture_id(), Some(TextureID::Paper2));
    assert!(ScenarioBuiltinCommand::from_toml_object(&doc("id = 9\nopecode = \"Other\"\n")).is_none());

    let switch = ScenarioSwitch::from_toml_object(&doc("id = 4\nopecode = \"c\"\nyes = 1\nno = 2\n"))
        .expect("the switch reads");
    assert_eq!((switch.get_yes_branch(), switch.get_no_branch()), (1, 2));
    assert!(ScenarioSwitch::from_toml_object(&doc("id = 4\nopecode = \"c\"\nyes = 1\n")).is_none());
}

#[test]
fn map_panels_read_by_kind() {
    let t = MapTextEvent::from_toml_object(&doc("trigger = \"touch\"\ntext = \"x\"\n")).expect("reads");
    assert_eq!(t.get_text(), "x");
    assert!(MapTextEvent::from_toml_object(&doc("trigger = \"kick\"\ntext = \"x\"\n")).is_none());
    let s = MapEventSceneSwitch::from_toml_object(&doc("trigger = \"action\"\nswitch-scene-id = \"Title\"\n"))
        .expect("reads");
    assert_eq!(s.get_switch_scene_id(), SceneID::Title);
    assert!(MapEventSceneSwitch::from_toml_object(&doc("trigger = \"action\"\nswitch-scene-id = \"Nowhere\"\n")).is_none());
    let b = BookStoreEvent::from_toml_object(&doc("trigger = \"action\"\nshelf-info = { begin-number = 1, end-number = 9 }\n"))
        .expect("reads");
    assert!(b.get_book_shelf_info().contains_number(1));
    assert!(b.get_book_shelf_info().contains_number(9));
    assert!(!b.get_book_shelf_info().contains_number(10));
    let e = BuiltinEvent::from_toml_object(&doc("trigger = \"action\"\nbuiltin-event-info = { symbol = \"select-shelving-book\" }\n"))
        .expect("reads");
    assert_eq!(e.get_event_symbol(), BuiltinEventSymbol::SelectShelvingBook);
    assert!(BuiltinEvent::from_toml_object(&doc("trigger = \"action\"\nbuiltin-event-info = { symbol = \"dance\" }\n")).is_none());
}
