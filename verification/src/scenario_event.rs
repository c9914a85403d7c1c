//! A scenario event: the scenario reader with what the event is doing, the
//! scene it asks to change to, and its response, frame by frame and key by
//! key, to the element it shows.  Drawing the text, the choices and the
//! pictures is left to the caller, which the results tell what to do.

use vstd::prelude::*;

use crate::scenario::{Scenario, ScenarioBuiltinCommand, ScenarioElement, ScenarioElementID, ScenarioEventStatus};
use crate::scene::{SceneID, SceneTransition};

verus! {

/// What the caller does after a frame of the scenario event.
#[derive(Debug, Clone, Copy, PartialEq, Eq, Structural)]
pub enum ScenarioFrameStep {
    /// The element is a text: its characters go on appearing.
    ShowText,
    /// Put up the choices of the element and show their header.
    ShowChoices,
    /// Nothing to do in this frame.
    Stay,
    /// The event asks for a change of scene.
    Transition,
    /// The event waits to be released; the scenario scene is told so.
    Wait,
    /// The week's schedule starts.
    StartSchedule,
    /// The reader followed a switch to another element, whose pictures are
    /// then shown.
    Switched,
}

/// What the caller does after the key that moves a text on.
#[derive(Debug, Clone, Copy, PartialEq, Eq, Structural)]
pub enum TextKeyStep {
    /// The text was shown to its end: the reader went on to the next
    /// element, whose background and pictures are shown.
    NextElement,
    /// The choices that were up are taken down.
    CloseChoices,
    /// The text box shows its next line.
    NextLine,
    /// The element shown is not a text.
    Ignored,
}

/// A scenario event.
pub struct ScenarioEvent {
    scenario: Scenario,
    status: ScenarioEventStatus,
    transition_scene: Option<SceneID>,
    transition_type: Option<SceneTransition>,
}

impl ScenarioEvent {
    pub closed spec fn spec_scenario(&self) -> Scenario {
        self.scenario
    }

    pub closed spec fn spec_status(&self) -> ScenarioEventStatus {
        self.status
    }

    pub closed spec fn spec_transition_scene(&self) -> Option<SceneID> {
        self.transition_scene
    }

    pub closed spec fn spec_transition_type(&self) -> Option<SceneTransition> {
        self.transition_type
    }

    /// The element that the event shows.
    pub open spec fn current(&self) -> ScenarioElement {
        self.spec_scenario().spec_elements()[self.spec_scenario().spec_current_page()]
    }

    pub open spec fn well_formed(&self) -> bool {
        self.spec_scenario().well_formed()
    }

    /// The event opens on its reader, showing the scenario, with no change of
    /// scene asked for.
    pub fn new(scenario: Scenario) -> (r: Self)
        requires
            scenario.well_formed(),
        ensures
            r.well_formed(),
            r.spec_scenario() == scenario,
            r.spec_status() == ScenarioEventStatus::Scenario,
            r.spec_transition_scene() is None,
            r.spec_transition_type() is None,
    {
        ScenarioEvent {
            scenario,
            status: ScenarioEventStatus::Scenario,
            transition_scene: None,
            transition_type: None,
        }
    }

    /// A frame of the event.  `choice_box_enabled` says whether the choices
    /// are up already, `in_scenario_scene` whether the event runs in the
    /// scenario scene (which alone waits for releases), and `game_cleared`
    /// answers the switches.
    pub fn update_text(&mut self, choice_box_enabled: bool, in_scenario_scene: bool, game_cleared: bool) -> (r:
        ScenarioFrameStep)
        requires
            old(self).well_formed(),
            old(self).current() matches ScenarioElement::Switch(s) ==> s.spec_opecode() == "cleared"@,
        ensures
            final(self).well_formed(),
            old(self).current() is Text ==> r == ScenarioFrameStep::ShowText && *final(self) == *old(self),
            old(self).current() is ChoiceSwitch && !choice_box_enabled ==> r
                == ScenarioFrameStep::ShowChoices && final(self).spec_status()
                == ScenarioEventStatus::Choice && final(self).spec_scenario() == old(self).spec_scenario() && final(self).spec_transition_scene() == old(self).spec_transition_scene() && final(self).spec_transition_type() == old(self).spec_transition_type(),
            old(self).current() is ChoiceSwitch && choice_box_enabled ==> r == ScenarioFrameStep::Stay
                && *final(self) == *old(self),
            old(self).current() matches ScenarioElement::SceneTransition(d) ==> r
                == ScenarioFrameStep::Transition && final(self).spec_status()
                == ScenarioEventStatus::SceneTransition && final(self).spec_transition_scene()
                == Some(d.spec_scene()) && final(self).spec_transition_type() == Some(
                d.spec_transition(),
            ) && final(self).spec_scenario() == old(self).spec_scenario(),
            old(self).current() is FinishAndWait && in_scenario_scene ==> r == ScenarioFrameStep::Wait
                && final(self).spec_status() == ScenarioEventStatus::FinishAndWait && final(self).spec_scenario() == old(self).spec_scenario() && final(self).spec_transition_scene() == old(self).spec_transition_scene() && final(self).spec_transition_type() == old(self).spec_transition_type(),
            old(self).current() is FinishAndWait && !in_scenario_scene ==> r == ScenarioFrameStep::Stay
                && *final(self) == *old(self),
            old(self).current() is BuiltinCommand ==> r == ScenarioFrameStep::StartSchedule
                && final(self).spec_status() == ScenarioEventStatus::StartSchedule && final(self).spec_scenario() == old(self).spec_scenario() && final(self).spec_transition_scene() == old(self).spec_transition_scene() && final(self).spec_transition_type() == old(self).spec_transition_type(),
            old(self).current() is Switch ==> r == ScenarioFrameStep::Switched && final(self).spec_status() == old(self).spec_status() && final(self).spec_transition_scene()
                == old(self).spec_transition_scene() && final(self).spec_transition_type() == old(self).spec_transition_type() && final(self).spec_scenario().spec_stack() == old(self).spec_scenario().spec_stack().push(
                if game_cleared {
                    old(self).current()->Switch_0.spec_yes()
                } else {
                    old(self).current()->Switch_0.spec_no()
                },
            ),
    {
        match self.scenario.ref_current_element() {
            ScenarioElement::Text(_) => ScenarioFrameStep::ShowText,
            ScenarioElement::ChoiceSwitch(_) => {
                if choice_box_enabled {
                    ScenarioFrameStep::Stay
                } else {
                    self.status = ScenarioEventStatus::Choice;
                    ScenarioFrameStep::ShowChoices
                }
            },
            ScenarioElement::SceneTransition(transition_data) => {
                let scene = transition_data.get_scene();
                let transition = transition_data.get_transition();
                self.status = ScenarioEventStatus::SceneTransition;
                self.transition_scene = Some(scene);
                self.transition_type = Some(transition);
                ScenarioFrameStep::Transition
            },
            ScenarioElement::FinishAndWait(_) => {
                if in_scenario_scene {
                    self.status = ScenarioEventStatus::FinishAndWait;
                    ScenarioFrameStep::Wait
                } else {
                    ScenarioFrameStep::Stay
                }
            },
            ScenarioElement::BuiltinCommand(ope) => match ope {
                ScenarioBuiltinCommand::ScheduleStart(_) => {
                    self.status = ScenarioEventStatus::StartSchedule;
                    ScenarioFrameStep::StartSchedule
                },
            },
            ScenarioElement::Switch(_) => {
                self.scenario.follow_switch(game_cleared);
                ScenarioFrameStep::Switched
            },
        }
    }

    /// The key that moves a text on.  `text_finished` says whether all of the
    /// text's characters are shown, `choice_box_enabled` whether choices are up.
    pub fn key_down_text(&mut self, text_finished: bool, choice_box_enabled: bool) -> (r: TextKeyStep)
        requires
            old(self).well_formed(),
        ensures
            final(self).well_formed(),
            !(old(self).current() is Text) ==> r == TextKeyStep::Ignored && *final(self) == *old(self),
            old(self).current() is Text && text_finished ==> r == TextKeyStep::NextElement && final(self).spec_scenario().spec_stack() == old(self).spec_scenario().spec_stack().push(
                old(self).current()->Text_0.spec_next_id(),
            ) && final(self).spec_status() == old(self).spec_status(),
            old(self).current() is Text && !text_finished && choice_box_enabled ==> r
                == TextKeyStep::CloseChoices && final(self).spec_status()
                == ScenarioEventStatus::Scenario && final(self).spec_scenario() == old(self).spec_scenario(),
            old(self).current() is Text && !text_finished && !choice_box_enabled ==> r
                == TextKeyStep::NextLine && *final(self) == *old(self),
            final(self).spec_transition_scene() == old(self).spec_transition_scene(),
            final(self).spec_transition_type() == old(self).spec_transition_type(),
    {
        let is_text = match self.scenario.ref_current_element() {
            ScenarioElement::Text(_) => true,
            _ => false,
        };
        if !is_text {
            return TextKeyStep::Ignored;
        }
        if text_finished {
            self.scenario.go_next_scenario_from_text_scenario();
            return TextKeyStep::NextElement;
        }
        if choice_box_enabled {
            self.make_scenario_event();
            TextKeyStep::CloseChoices
        } else {
            TextKeyStep::NextLine
        }
    }

    /// The choice `select_index` of the choices shown: the reader goes to the
    /// element it leads to.
    pub fn select_choice(&mut self, select_index: usize)
        requires
            old(self).well_formed(),
            old(self).current() is ChoiceSwitch,
            select_index < old(self).current()->ChoiceSwitch_0.spec_jumps().len(),
        ensures
            final(self).well_formed(),
            final(self).spec_scenario().spec_stack() == old(self).spec_scenario().spec_stack().push(
                old(self).current()->ChoiceSwitch_0.spec_jumps()[select_index as int],
            ),
            final(self).spec_status() == old(self).spec_status(),
            final(self).spec_transition_scene() == old(self).spec_transition_scene(),
            final(self).spec_transition_type() == old(self).spec_transition_type(),
    {
        self.scenario.go_next_scenario_from_choice_scenario(select_index);
    }

    /// Back to showing the scenario.
    pub fn make_scenario_event(&mut self)
        ensures
            final(self).spec_status() == ScenarioEventStatus::Scenario,
            final(self).spec_scenario() == old(self).spec_scenario(),
            final(self).spec_transition_scene() == old(self).spec_transition_scene(),
            final(self).spec_transition_type() == old(self).spec_transition_type(),
    {
        self.status = ScenarioEventStatus::Scenario;
    }

    pub fn get_status(&self) -> (r: ScenarioEventStatus)
        ensures
            r == self.spec_status(),
    {
        self.status
    }

    pub fn get_scene_transition(&self) -> (r: Option<SceneID>)
        ensures
            r == self.spec_transition_scene(),
    {
        self.transition_scene
    }

    pub fn get_scene_transition_type(&self) -> (r: Option<SceneTransition>)
        ensures
            r == self.spec_transition_type(),
    {
        self.transition_type
    }

    /// The operation the element shown waits for, when it waits.
    pub fn get_scenario_waiting_opecode(&self) -> (r: Option<&str>)
        requires
            self.well_formed(),
        ensures
            r is Some <==> self.current() is FinishAndWait,
            r matches Some(code) ==> code@ == self.current()->FinishAndWait_0.spec_opecode(),
    {
        self.scenario.get_waiting_opecode()
    }

    /// What the element shown waited for is done: the reader goes on.
    pub fn release_scenario_waiting(&mut self)
        requires
            old(self).well_formed(),
            old(self).current() is FinishAndWait,
        ensures
            final(self).well_formed(),
            final(self).spec_scenario().spec_stack() == old(self).spec_scenario().spec_stack().push(
                old(self).current()->FinishAndWait_0.spec_next_id(),
            ),
            final(self).spec_status() == old(self).spec_status(),
            final(self).spec_transition_scene() == old(self).spec_transition_scene(),
            final(self).spec_transition_type() == old(self).spec_transition_type(),
    {
        self.scenario.release_waiting();
    }

    /// The id under which the scenario is saved: the element shown before the
    /// current one.
    pub fn get_scenario_id_for_saving(&self) -> (r: ScenarioElementID)
        requires
            self.spec_scenario().spec_stack().len() >= 2,
        ensures
            r == self.spec_scenario().spec_stack()[self.spec_scenario().spec_stack().len() - 2],
    {
        self.scenario.get_scenario_id_for_saving()
    }

    pub fn scenario_control(&self) -> (r: &Scenario)
        ensures
            *r == self.spec_scenario(),
    {
        &self.scenario
    }
}

} // verus!
