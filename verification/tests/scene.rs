use suzu::character::{character_texture_plan, CharacterFactoryOrder, ObjectDirection};
use suzu::ids::TextureID;
use suzu::scene::{SceneAction, SceneFlow, SceneID, SceneStack, SceneTransition};

#[test]
fn scene_flow_starts_on_title() {
    let flow = SceneFlow::new();
    assert_eq!(flow.get_current(), SceneID::Title);
    assert_eq!(flow.depth(), 0);
}

#[test]
fn swapping_scenes() {
    let mut flow = SceneFlow::new();
    assert_eq!(flow.post_process(SceneTransition::Keep, SceneID::Save), SceneAction::Stay);
    assert_eq!(flow.post_process(SceneTransition::Reset, SceneID::Save), SceneAction::Stay);
    assert_eq!(flow.get_current(), SceneID::Title);
    assert_eq!(
        flow.post_process(SceneTransition::SwapTransition, SceneID::Scenario),
        SceneAction::Build(SceneID::Scenario)
    );
    assert_eq!(
        flow.post_process(SceneTransition::SwapTransition, SceneID::SuzunaShop),
        SceneAction::Build(SceneID::SuzunaShop)
    );
    assert_eq!(flow.get_current(), SceneID::SuzunaShop);
    assert_eq!(flow.post_process(SceneTransition::SwapTransition, SceneID::Dream), SceneAction::Stay);
    assert_eq!(flow.post_process(SceneTransition::SwapTransition, SceneID::End), SceneAction::Build(SceneID::End));
    // From the ending no scenario can be started by a swap.
    assert_eq!(flow.post_process(SceneTransition::SwapTransition, SceneID::Scenario), SceneAction::Stay);
    assert_eq!(flow.get_current(), SceneID::End);
}

#[test]
fn law_stack_then_pop_on_values() {
    let mut flow = SceneFlow::new();
    flow.post_process(SceneTransition::SwapTransition, SceneID::SuzunaShop);
    assert_eq!(flow.post_process(SceneTransition::StackingTransition, SceneID::Save), SceneAction::Stack(SceneID::Save));
    assert_eq!(flow.get_current(), SceneID::Save);
    assert_eq!(flow.depth(), 1);
    assert_eq!(flow.post_process(SceneTransition::PoppingTransition, SceneID::Null), SceneAction::Pop);
    assert_eq!(flow.get_current(), SceneID::SuzunaShop);
    assert_eq!(flow.depth(), 0);
    assert_eq!(flow.post_process(SceneTransition::PoppingTransition, SceneID::Null), SceneAction::EmptyStack);
    assert_eq!(flow.get_current(), SceneID::SuzunaShop);
    assert_eq!(flow.post_process(SceneTransition::StackingTransition, SceneID::Title), SceneAction::Stay);
    assert_eq!(flow.depth(), 0);
}

#[test]
fn characters_use_the_shop_keeper_textures() {
    for order in [CharacterFactoryOrder::PlayableDoremy1, CharacterFactoryOrder::CustomerSample] {
        let plan = character_texture_plan(order);
        assert_eq!(plan.first_texture, TextureID::KosuzuDotFront1);
        assert_eq!(
            plan.directions,
            vec![ObjectDirection::Down, ObjectDirection::Up, ObjectDirection::Right, ObjectDirection::Left]
        );
        assert_eq!(plan.textures[1], vec![TextureID::KosuzuDotBack2, TextureID::KosuzuDotBack3]);
        assert_eq!(plan.textures[3], vec![TextureID::KosuzuDotLeft2, TextureID::KosuzuDotLeft3]);
        assert_eq!(plan.initial_direction, ObjectDirection::Down);
        assert_eq!(plan.frame_span, 15);
    }
}

#[test]
fn scene_stack_is_last_in_first_out() {
    let mut stack: SceneStack<&str> = SceneStack::new();
    assert_eq!(stack.pop(), None);
    stack.push("shop");
    stack.push("save");
    assert_eq!(stack.len(), 2);
    assert_eq!(stack.pop(), Some("save"));
    assert_eq!(stack.pop(), Some("shop"));
    assert_eq!(stack.pop(), None);
    assert_eq!(stack.len(), 0);
}
