//! The scenes of the game and how the game moves between them: a scene may
//! replace the current one, be laid over it, or be taken away to show the one
//! beneath again.

use std::collections::VecDeque;

use vstd::prelude::*;

use crate::text::str_equals;

verus! {

/// The scenes of the game.
#[derive(Debug, Clone, Copy, PartialEq, Eq, Structural)]
pub enum SceneID {
    Null,
    Title,
    MainDesk,
    Scenario,
    SuzunaShop,
    Save,
    Dream,
    End,
}

/// The scene named `s` in the game's files.
pub open spec fn scene_named(s: Seq<char>) -> Option<SceneID> {
    if s == "Null"@ {
        Some(SceneID::Null)
    } else if s == "Title"@ {
        Some(SceneID::Title)
    } else if s == "MainDesk"@ {
        Some(SceneID::MainDesk)
    } else if s == "Scenario"@ {
        Some(SceneID::Scenario)
    } else if s == "SuzunaShop"@ {
        Some(SceneID::SuzunaShop)
    } else if s == "Save"@ {
        Some(SceneID::Save)
    } else if s == "Dream"@ {
        Some(SceneID::Dream)
    } else if s == "End"@ {
        Some(SceneID::End)
    } else {
        None
    }
}

/// The name of each scene, as the game's files write it.
pub open spec fn scene_name(t: SceneID) -> Seq<char> {
    match t {
        SceneID::Null => "Null"@,
        SceneID::Title => "Title"@,
        SceneID::MainDesk => "MainDesk"@,
        SceneID::Scenario => "Scenario"@,
        SceneID::SuzunaShop => "SuzunaShop"@,
        SceneID::Save => "Save"@,
        SceneID::Dream => "Dream"@,
        SceneID::End => "End"@,
    }
}

/// Law: the name of every scene reads back as that scene, and a text that
/// reads as a scene is its name.
pub proof fn law_scene_name_reads_back(t: SceneID, s: Seq<char>)
    ensures
        scene_named(scene_name(t)) == Some(t),
        scene_named(s) == Some(t) ==> s == scene_name(t),
{
    reveal_strlit("Null");
    reveal_strlit("Title");
    reveal_strlit("MainDesk");
    reveal_strlit("Scenario");
    reveal_strlit("SuzunaShop");
    reveal_strlit("Save");
    reveal_strlit("Dream");
    reveal_strlit("End");
    assert("Null"@.len() == 4);
    assert("Title"@.len() == 5);
    assert("MainDesk"@.len() == 8);
    assert("Scenario"@.len() == 8);
    assert("SuzunaShop"@.len() == 10);
    assert("Save"@.len() == 4);
    assert("Dream"@.len() == 5);
    assert("End"@.len() == 3);
    assert("Dream"@[0] == 'D');
    assert("MainDesk"@[0] == 'M');
    assert("Null"@[0] == 'N');
    assert("Save"@[0] == 'S');
    assert("Scenario"@[0] == 'S');
    assert("Title"@[0] == 'T');
}

impl SceneID {
    /// The scene named `s`, if the name is known.
    pub fn named(s: &str) -> (r: Option<Self>)
        ensures
            r == scene_named(s@),
    {
        if str_equals(s, "Null") {
            Some(SceneID::Null)
        } else if str_equals(s, "Title") {
            Some(SceneID::Title)
        } else if str_equals(s, "MainDesk") {
            Some(SceneID::MainDesk)
        } else if str_equals(s, "Scenario") {
            Some(SceneID::Scenario)
        } else if str_equals(s, "SuzunaShop") {
            Some(SceneID::SuzunaShop)
        } else if str_equals(s, "Save") {
            Some(SceneID::Save)
        } else if str_equals(s, "Dream") {
            Some(SceneID::Dream)
        } else if str_equals(s, "End") {
            Some(SceneID::End)
        } else {
            None
        }
    }
}

/// How one scene hands over to the next.
#[derive(Debug, Clone, Copy, PartialEq, Eq, Structural)]
pub enum SceneTransition {
    Keep,
    Reset,
    SwapTransition,
    StackingTransition,
    PoppingTransition,
}

/// What the game must do after a scene has asked for a transition.
#[derive(Debug, Clone, Copy, PartialEq, Eq, Structural)]
pub enum SceneAction {
    /// Nothing changes.
    Stay,
    /// A new scene of this kind replaces the current one.
    Build(SceneID),
    /// The current scene is laid aside and a new one of this kind is shown.
    Stack(SceneID),
    /// The current scene is dropped and the one laid aside last is shown again.
    Pop,
    /// A scene asked to go back, but none was laid aside.
    EmptyStack,
}

/// The scene shown and the scenes laid aside beneath it, the last one on top.
pub struct SceneFlow {
    current: SceneID,
    stack: Vec<SceneID>,
}

/// What a swap to `next` does while `current` is shown.
pub open spec fn swap_action(current: SceneID, next: SceneID) -> SceneAction {
    match next {
        SceneID::SuzunaShop | SceneID::Title | SceneID::Save | SceneID::End | SceneID::Null => {
            SceneAction::Build(next)
        },
        SceneID::Scenario => match current {
            SceneID::SuzunaShop | SceneID::Save | SceneID::Title | SceneID::Scenario => {
                SceneAction::Build(SceneID::Scenario)
            },
            _ => SceneAction::Stay,
        },
        _ => SceneAction::Stay,
    }
}

/// What laying `next` over the current scene does.
pub open spec fn stack_action(next: SceneID) -> SceneAction {
    match next {
        SceneID::SuzunaShop | SceneID::Save | SceneID::Null => SceneAction::Stack(next),
        _ => SceneAction::Stay,
    }
}

/// The scene shown and the scenes laid aside after `action`.
pub open spec fn after_action(current: SceneID, stack: Seq<SceneID>, action: SceneAction) -> (
    SceneID,
    Seq<SceneID>,
) {
    match action {
        SceneAction::Build(s) => (s, stack),
        SceneAction::Stack(s) => (s, stack.push(current)),
        SceneAction::Pop => (stack.last(), stack.drop_last()),
        _ => (current, stack),
    }
}

impl SceneFlow {
    pub closed spec fn spec_current(&self) -> SceneID {
        self.current
    }

    pub closed spec fn spec_stack(&self) -> Seq<SceneID> {
        self.stack@
    }

    /// The game starts on the title scene with nothing laid aside.
    pub fn new() -> (r: Self)
        ensures
            r.spec_current() == SceneID::Title,
            r.spec_stack().len() == 0,
    {
        SceneFlow { current: SceneID::Title, stack: Vec::new() }
    }

    pub fn get_current(&self) -> (r: SceneID)
        ensures
            r == self.spec_current(),
    {
        self.current
    }

    pub fn depth(&self) -> (r: usize)
        ensures
            r == self.spec_stack().len(),
    {
        self.stack.len()
    }

    /// Handles the transition that the current scene asked for after its
    /// frame, to the scene `next` that it names.
    pub fn post_process(&mut self, transition: SceneTransition, next: SceneID) -> (r: SceneAction)
        ensures
            (transition == SceneTransition::Keep || transition == SceneTransition::Reset) ==> r
                == SceneAction::Stay,
            transition == SceneTransition::SwapTransition ==> r == swap_action(
                old(self).spec_current(),
                next,
            ),
            transition == SceneTransition::StackingTransition ==> r == stack_action(next),
            transition == SceneTransition::PoppingTransition ==> (if old(self).spec_stack().len()
                > 0 {
                r == SceneAction::Pop
            } else {
                r == SceneAction::EmptyStack
            }),
            (final(self).spec_current(), final(self).spec_stack()) == after_action(
                old(self).spec_current(),
                old(self).spec_stack(),
                r,
            ),
    {
        let action = match transition {
            SceneTransition::Keep => SceneAction::Stay,
            SceneTransition::Reset => SceneAction::Stay,
            SceneTransition::SwapTransition => match next {
                SceneID::SuzunaShop => SceneAction::Build(SceneID::SuzunaShop),
                SceneID::Scenario => match self.current {
                    SceneID::SuzunaShop => SceneAction::Build(SceneID::Scenario),
                    SceneID::Save => SceneAction::Build(SceneID::Scenario),
                    SceneID::Title => SceneAction::Build(SceneID::Scenario),
                    SceneID::Scenario => SceneAction::Build(SceneID::Scenario),
                    _ => SceneAction::Stay,
                },
                SceneID::Title => SceneAction::Build(SceneID::Title),
                SceneID::Save => SceneAction::Build(SceneID::Save),
                SceneID::End => SceneAction::Build(SceneID::End),
                SceneID::Null => SceneAction::Build(SceneID::Null),
                _ => SceneAction::Stay,
            },
            SceneTransition::StackingTransition => match next {
                SceneID::SuzunaShop => SceneAction::Stack(SceneID::SuzunaShop),
                SceneID::Save => SceneAction::Stack(SceneID::Save),
                SceneID::Null => SceneAction::Stack(SceneID::Null),
                _ => SceneAction::Stay,
            },
            SceneTransition::PoppingTransition => {
                if self.stack.len() > 0 {
                    SceneAction::Pop
                } else {
                    SceneAction::EmptyStack
                }
            },
        };
        match action {
            SceneAction::Build(s) => {
                self.current = s;
            },
            SceneAction::Stack(s) => {
                self.stack.push(self.current);
                self.current = s;
            },
            SceneAction::Pop => {
                let top = self.stack.pop().unwrap();
                self.current = top;
            },
            _ => {},
        }
        action
    }
}

/// Law: a swap to the shop, the title, the save screen, the ending or the
/// empty scene always builds that scene and shows it, with the scenes laid
/// aside kept; a swap to the scenario scene builds it from the shop, the save
/// screen, the title or a scenario, and from any other scene changes nothing;
/// a swap to another scene changes nothing.
pub proof fn law_swap_shows_the_scene(current: SceneID, stack: Seq<SceneID>, next: SceneID)
    ensures
        (next == SceneID::SuzunaShop || next == SceneID::Title || next == SceneID::Save || next
            == SceneID::End || next == SceneID::Null) ==> swap_action(current, next) == SceneAction::Build(
            next,
        ) && after_action(current, stack, swap_action(current, next)) == (next, stack),
        next == SceneID::Scenario && (current == SceneID::SuzunaShop || current == SceneID::Save
            || current == SceneID::Title || current == SceneID::Scenario) ==> after_action(
            current,
            stack,
            swap_action(current, next),
        ) == (SceneID::Scenario, stack),
        next == SceneID::Scenario && !(current == SceneID::SuzunaShop || current == SceneID::Save
            || current == SceneID::Title || current == SceneID::Scenario) ==> swap_action(current, next)
            == SceneAction::Stay,
        (next == SceneID::MainDesk || next == SceneID::Dream) ==> swap_action(current, next)
            == SceneAction::Stay,
        after_action(current, stack, swap_action(current, next)).1 == stack,
{
}

/// Law: laying the shop, the save screen or the empty scene over the current
/// one shows it and lays the current one aside on top; laying any other scene
/// changes nothing.
pub proof fn law_stack_lays_aside(current: SceneID, stack: Seq<SceneID>, next: SceneID)
    ensures
        (next == SceneID::SuzunaShop || next == SceneID::Save || next == SceneID::Null)
            ==> after_action(current, stack, stack_action(next)) == (next, stack.push(current)),
        !(next == SceneID::SuzunaShop || next == SceneID::Save || next == SceneID::Null)
            ==> stack_action(next) == SceneAction::Stay,
{
}

/// Law: laying a scene over the current one and then going back shows the
/// current one again, with the same scenes laid aside as before.
pub proof fn law_stack_then_pop(current: SceneID, stack: Seq<SceneID>, next: SceneID)
    ensures
        ({
            let (c1, s1) = after_action(current, stack, SceneAction::Stack(next));
            after_action(c1, s1, SceneAction::Pop) == (current, stack)
        }),
{
    assert(stack.push(current).drop_last() =~= stack);
}

/// Law: going back lays aside one scene fewer, and only where one was laid
/// aside; laying a scene over the current one lays aside one more.
pub proof fn law_depth(current: SceneID, stack: Seq<SceneID>, next: SceneID)
    ensures
        stack.len() > 0 ==> after_action(current, stack, SceneAction::Pop).1.len() == stack.len()
            - 1,
        after_action(current, stack, SceneAction::EmptyStack).1 == stack,
        after_action(current, stack, SceneAction::Stack(next)).1.len() == stack.len() + 1,
{
}


/// The scenes laid aside, the last one laid aside at the back.
pub struct SceneStack<T> {
    stack: VecDeque<T>,
}

impl<T> SceneStack<T> {
    pub closed spec fn spec_scenes(&self) -> Seq<T> {
        self.stack@
    }

    pub fn new() -> (r: Self)
        ensures
            r.spec_scenes().len() == 0,
    {
        SceneStack { stack: VecDeque::new() }
    }

    /// Lays `scene` aside.
    pub fn push(&mut self, scene: T)
        ensures
            final(self).spec_scenes() == old(self).spec_scenes().push(scene),
    {
        self.stack.push_back(scene);
    }

    /// Takes back the scene laid aside last, if any.
    pub fn pop(&mut self) -> (r: Option<T>)
        ensures
            old(self).spec_scenes().len() == 0 ==> r is None && final(self).spec_scenes() == old(
                self,
            ).spec_scenes(),
            old(self).spec_scenes().len() > 0 ==> r == Some(old(self).spec_scenes().last())
                && final(self).spec_scenes() == old(self).spec_scenes().drop_last(),
    {
        self.stack.pop_back()
    }

    pub fn len(&self) -> (r: usize)
        ensures
            r == self.spec_scenes().len(),
    {
        self.stack.len()
    }
}

} // verus!
