use suzu::ids::TextureID;
use suzu::scenario::{
    ChoicePatternData, Scenario, ScenarioBuiltinCommand, ScenarioElement, ScenarioEventStatus,
    ScenarioFinishAndWaitData, ScenarioSwitch, ScenarioText, ScenarioTextSegment, TachieData,
};
use suzu::scenario_event::{ScenarioEvent, ScenarioFrameStep, TextKeyStep};
use suzu::scene::{SceneID, SceneTransition};

fn text(id: i32, next: i32, body: &str) -> ScenarioElement {
    ScenarioElement::Text(ScenarioText::new(
        vec![ScenarioTextSegment::new(body)],
        id,
        next,
        Some(TextureID::Paper1),
        TachieData::new_empty(),
    ))
}

fn event() -> ScenarioEvent {
    let elements = vec![
        text(1, 2, "はじめ"),
        ScenarioElement::ChoiceSwitch(ChoicePatternData::new(
            "どうする？",
            vec!["待つ".to_string(), "切り替え".to_string()],
            vec![3, 4],
            2,
            None,
            TachieData::new_empty(),
        )),
        ScenarioElement::FinishAndWait(ScenarioFinishAndWaitData::new(3, 5, None, TachieData::new_empty(), "ShopOpen")),
        ScenarioElement::Switch(ScenarioSwitch::new("cleared", 4, 6, 100)),
        ScenarioElement::BuiltinCommand(
            ScenarioBuiltinCommand::from_opecode("StartSchedule", 5, None, TachieData::new_empty()).unwrap(),
        ),
        text(6, 100, "おわり"),
    ];
    ScenarioEvent::new(Scenario::new(elements, 100, 101, 102, 1))
}

fn current_id(e: &ScenarioEvent) -> i32 {
    e.scenario_control().ref_current_element().get_scenario_id()
}

#[test]
fn text_then_choices_then_waiting() {
    let mut e = event();
    assert_eq!(e.get_status(), ScenarioEventStatus::Scenario);
    assert_eq!(e.update_text(false, true, false), ScenarioFrameStep::ShowText);
    assert_eq!(e.key_down_text(false, false), TextKeyStep::NextLine);
    assert_eq!(e.key_down_text(true, false), TextKeyStep::NextElement);
    assert_eq!(current_id(&e), 2);
    assert_eq!(e.update_text(false, true, false), ScenarioFrameStep::ShowChoices);
    assert_eq!(e.get_status(), ScenarioEventStatus::Choice);
    assert_eq!(e.update_text(true, true, false), ScenarioFrameStep::Stay);
    // Keys meant for texts do nothing on the choices.
    assert_eq!(e.key_down_text(true, true), TextKeyStep::Ignored);
    e.select_choice(0);
    assert_eq!(current_id(&e), 3);
    assert_eq!(e.get_scenario_waiting_opecode(), Some("ShopOpen"));
    // Outside the scenario scene nothing waits.
    assert_eq!(e.update_text(false, false, false), ScenarioFrameStep::Stay);
    assert_eq!(e.update_text(false, true, false), ScenarioFrameStep::Wait);
    assert_eq!(e.get_status(), ScenarioEventStatus::FinishAndWait);
    e.release_scenario_waiting();
    assert_eq!(current_id(&e), 5);
    assert_eq!(e.update_text(false, true, false), ScenarioFrameStep::StartSchedule);
    assert_eq!(e.get_status(), ScenarioEventStatus::StartSchedule);
    assert_eq!(e.get_scenario_id_for_saving(), 3);
}

#[test]
fn switch_follows_whether_the_game_is_cleared() {
    let mut cleared = event();
    cleared.key_down_text(true, false);
    cleared.select_choice(1);
    assert_eq!(current_id(&cleared), 4);
    assert_eq!(cleared.update_text(false, true, true), ScenarioFrameStep::Switched);
    assert_eq!(current_id(&cleared), 6);

    let mut not_cleared = event();
    not_cleared.key_down_text(true, false);
    not_cleared.select_choice(1);
    assert_eq!(not_cleared.update_text(false, true, false), ScenarioFrameStep::Switched);
    assert_eq!(current_id(&not_cleared), 100);
    // The script's end changes to the scenario scene.
    assert_eq!(not_cleared.update_text(false, true, false), ScenarioFrameStep::Transition);
    assert_eq!(not_cleared.get_status(), ScenarioEventStatus::SceneTransition);
    assert_eq!(not_cleared.get_scene_transition(), Some(SceneID::Scenario));
    assert_eq!(not_cleared.get_scene_transition_type(), Some(SceneTransition::SwapTransition));
}

#[test]
fn closing_choices_returns_to_the_scenario() {
    let mut e = event();
    e.key_down_text(true, false);
    e.update_text(false, true, false);
    assert_eq!(e.get_status(), ScenarioEventStatus::Choice);
    e.make_scenario_event();
    assert_eq!(e.get_status(), ScenarioEventStatus::Scenario);
    let mut e2 = event();
    assert_eq!(e2.key_down_text(false, true), TextKeyStep::CloseChoices);
    assert_eq!(e2.get_status(), ScenarioEventStatus::Scenario);
    assert!(e2.get_scene_transition().is_none());
}
