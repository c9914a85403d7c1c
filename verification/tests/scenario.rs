use suzu::ids::TextureID;
use suzu::scenario::{
    ChoicePatternData, Scenario, ScenarioBuiltinCommand, ScenarioElement, ScenarioElementPool,
    ScenarioFinishAndWaitData, ScenarioSwitch, ScenarioText, ScenarioTextSegment, TachieData,
};
use suzu::scene::{SceneID, SceneTransition};

fn text(id: i32, next: i32, body: &str) -> ScenarioElement {
    ScenarioElement::Text(ScenarioText::new(
        vec![ScenarioTextSegment::new(body)],
        id,
        next,
        Some(TextureID::Paper1),
        TachieData::new_empty(),
    ))
}

fn script() -> Scenario {
    let elements = vec![
        text(1, 2, "はじめ"),
        ScenarioElement::ChoiceSwitch(ChoicePatternData::new(
            "どうする？",
            vec!["進む".to_string(), "戻る".to_string()],
            vec![3, 1],
            2,
            None,
            TachieData::new(Some(TextureID::Ghost1), None, None),
        )),
        ScenarioElement::FinishAndWait(ScenarioFinishAndWaitData::new(
            3,
            4,
            None,
            TachieData::new_empty(),
            "ShopOpen",
        )),
        ScenarioElement::Switch(ScenarioSwitch::new("cleared", 4, 1, 2)),
    ];
    Scenario::new(elements, 100, 101, 102, 1)
}

fn current_id(s: &Scenario) -> i32 {
    s.ref_current_element().get_scenario_id()
}

#[test]
fn segment_slice_shows_one_more_character() {
    let seg = ScenarioTextSegment::new("鈴奈庵へようこそ");
    assert_eq!(seg.str_len(), 8);
    assert_eq!(seg.slice(0), "鈴");
    assert_eq!(seg.slice(2), "鈴奈庵");
    assert_eq!(seg.slice(6), "鈴奈庵へようこ");
    assert_eq!(seg.slice(7), "鈴奈庵へようこそ");
    assert_eq!(seg.slice(100), "鈴奈庵へようこそ");
    assert_eq!(seg.get_text(), "鈴奈庵へようこそ");
}

#[test]
fn segment_last_line_length() {
    assert_eq!(ScenarioTextSegment::new("abc\nde").last_line_length(), 2);
    assert_eq!(ScenarioTextSegment::new("abc").last_line_length(), 3);
    assert_eq!(ScenarioTextSegment::new("abc\n").last_line_length(), 0);
    assert_eq!(ScenarioTextSegment::new("").last_line_length(), 0);
}

#[test]
fn text_page_totals_and_reset() {
    let mut page = ScenarioText::new(
        vec![ScenarioTextSegment::new("ab"), ScenarioTextSegment::new("cde")],
        7,
        8,
        None,
        TachieData::new_empty(),
    );
    assert_eq!(page.get_total_length(), 5);
    assert_eq!(page.seq_text_iter().len(), 2);
    page.set_current_segment(1);
    assert_eq!(page.get_current_segment(), 1);
    page.reset();
    assert_eq!(page.get_current_segment(), 0);
    page.set_current_segment(1);
    page.reset_segment();
    assert_eq!(page.get_current_segment(), 0);
    assert_eq!(page.get_scenario_id(), 7);
    assert_eq!(page.get_next_scenario_id(), 8);
}

#[test]
fn tachie_emptiness() {
    assert!(TachieData::new_empty().is_none());
    let t = TachieData::new(None, Some(TextureID::Ghost1), None);
    assert!(!t.is_none());
    assert_eq!(t.get_inner_right(), Some(TextureID::Ghost1));
}

#[test]
fn builtin_command_names() {
    let cmd = ScenarioBuiltinCommand::from_opecode("StartSchedule", 9, None, TachieData::new_empty());
    let cmd = cmd.expect("StartSchedule is known");
    assert_eq!(cmd.get_scenario_id(), 9);
    assert!(ScenarioBuiltinCommand::from_opecode("Other", 9, None, TachieData::new_empty()).is_none());
}

#[test]
fn pool_finds_first_element_with_id() {
    let mut pool = ScenarioElementPool::new_empty();
    pool.add(text(5, 6, "a"));
    pool.add(text(6, 7, "b"));
    pool.add(text(5, 8, "c"));
    assert_eq!(pool.len(), 3);
    assert_eq!(pool.find_index_of_specified_scenario_id(5), 0);
    assert_eq!(pool.find_index_of_specified_scenario_id(6), 1);
    assert_eq!(pool.find_index_of_specified_scenario_id(42), 0);
    assert!(pool.seq_access(2).is_some());
    assert!(pool.seq_access(3).is_none());
}

#[test]
fn new_scenario_ends_with_scene_changes() {
    let s = script();
    assert_eq!(current_id(&s), 1);
    assert!(!s.final_page());
    let mut s = s;
    s.update_current_page_index(102);
    assert!(s.final_page());
    match s.ref_current_element() {
        ScenarioElement::SceneTransition(data) => {
            assert_eq!(data.get_scene(), SceneID::Save);
            assert_eq!(data.get_transition(), SceneTransition::StackingTransition);
        }
        _ => panic!("expected the save transition"),
    }
    s.update_current_page_index(101);
    match s.ref_current_element() {
        ScenarioElement::SceneTransition(data) => assert_eq!(data.get_scene(), SceneID::SuzunaShop),
        _ => panic!("expected the shop transition"),
    }
}

#[test]
fn reading_through_a_script() {
    let mut s = script();
    s.go_next_scenario_from_text_scenario();
    assert_eq!(current_id(&s), 2);
    assert_eq!(s.ref_current_element().get_tachie_info().get_right(), Some(TextureID::Ghost1));
    s.go_next_scenario_from_choice_scenario(0);
    assert_eq!(current_id(&s), 3);
    assert_eq!(s.get_waiting_opecode(), Some("ShopOpen"));
    s.release_waiting();
    assert_eq!(current_id(&s), 4);
    assert_eq!(s.get_waiting_opecode(), None);
    s.follow_switch(false);
    assert_eq!(current_id(&s), 2);
    assert_eq!(s.get_element_id_stack(), &[1, 2, 3, 4, 2]);
    assert_eq!(s.get_scenario_id_for_saving(), 4);
}

#[test]
fn switch_on_cleared_game_takes_yes_branch() {
    let mut s = script();
    s.update_current_page_index(4);
    s.follow_switch(true);
    assert_eq!(current_id(&s), 1);
}

#[test]
fn law_turn_back_undoes_step_on_values() {
    let mut s = script();
    s.go_next_scenario_from_text_scenario();
    s.go_next_scenario_from_choice_scenario(0);
    assert_eq!(current_id(&s), 3);
    s.turn_back_scenario_offset(1);
    assert_eq!(current_id(&s), 2);
    assert_eq!(s.get_element_id_stack(), &[1, 2]);
    s.turn_back_scenario_offset(1);
    assert_eq!(current_id(&s), 1);
    assert_eq!(s.get_element_id_stack(), &[1]);
}

#[test]
fn turning_back_restarts_a_text_page() {
    let elements = vec![
        ScenarioElement::Text(ScenarioText::new(
            vec![ScenarioTextSegment::new("a"), ScenarioTextSegment::new("b")],
            1,
            2,
            None,
            TachieData::new_empty(),
        )),
        text(2, 1, "c"),
    ];
    let mut s = Scenario::new(elements, 100, 101, 102, 1);
    s.go_next_scenario_from_text_scenario();
    s.turn_back_scenario_offset(1);
    match s.ref_current_element() {
        ScenarioElement::Text(page) => assert_eq!(page.get_current_segment(), 0),
        _ => panic!("expected a text page"),
    }
}

#[test]
fn unknown_first_id_shows_first_element() {
    let s = Scenario::new(vec![text(1, 2, "a")], 100, 101, 102, 77);
    assert_eq!(current_id(&s), 1);
    assert_eq!(s.ref_current_element().get_background_texture(), Some(TextureID::Paper1));
}
