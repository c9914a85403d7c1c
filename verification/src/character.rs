//! The characters that walk on the shop's map: which one to make, the
//! directions it faces, and the textures of its walking animation.

use vstd::prelude::*;

use crate::ids::TextureID;

verus! {

/// The characters that can be made.
#[derive(Debug, Eq, PartialEq, Clone, Copy, Structural)]
pub enum CharacterFactoryOrder {
    PlayableDoremy1,
    CustomerSample,
}

/// The direction a character faces.
#[derive(Debug, Eq, PartialEq, Clone, Copy, Structural)]
pub enum ObjectDirection {
    Up,
    Down,
    Right,
    Left,
}

/// The textures a character is drawn with: the picture it starts with, the
/// directions of its animation and, for each in the same order, the pictures
/// it steps through; the direction it faces first and the number of frames
/// each picture stays.
pub struct CharacterTexturePlan {
    pub first_texture: TextureID,
    pub directions: Vec<ObjectDirection>,
    pub textures: Vec<Vec<TextureID>>,
    pub initial_direction: ObjectDirection,
    pub frame_span: u32,
}

/// The directions of a walking character's animation, in order.
pub open spec fn walking_directions() -> Seq<ObjectDirection> {
    seq![ObjectDirection::Down, ObjectDirection::Up, ObjectDirection::Right, ObjectDirection::Left]
}

/// The pictures a walking character steps through when facing `d`.
pub open spec fn walking_textures(d: ObjectDirection) -> Seq<TextureID> {
    match d {
        ObjectDirection::Down => seq![TextureID::KosuzuDotFront2, TextureID::KosuzuDotFront3],
        ObjectDirection::Up => seq![TextureID::KosuzuDotBack2, TextureID::KosuzuDotBack3],
        ObjectDirection::Right => seq![TextureID::KosuzuDotRight2, TextureID::KosuzuDotRight3],
        ObjectDirection::Left => seq![TextureID::KosuzuDotLeft2, TextureID::KosuzuDotLeft3],
    }
}

/// The textures of the character that `order` asks for; both characters are
/// drawn with the shop keeper's pictures.
pub fn character_texture_plan(order: CharacterFactoryOrder) -> (r: CharacterTexturePlan)
    ensures
        r.first_texture == TextureID::KosuzuDotFront1,
        r.directions@ == walking_directions(),
        r.textures@.len() == 4,
        forall|i: int| 0 <= i < 4 ==> #[trigger] r.textures@[i]@ == walking_textures(
            walking_directions()[i],
        ),
        r.initial_direction == ObjectDirection::Down,
        r.frame_span == 15,
{
    let textures = vec![
        vec![TextureID::KosuzuDotFront2, TextureID::KosuzuDotFront3],
        vec![TextureID::KosuzuDotBack2, TextureID::KosuzuDotBack3],
        vec![TextureID::KosuzuDotRight2, TextureID::KosuzuDotRight3],
        vec![TextureID::KosuzuDotLeft2, TextureID::KosuzuDotLeft3],
    ];
    let directions = vec![
        ObjectDirection::Down,
        ObjectDirection::Up,
        ObjectDirection::Right,
        ObjectDirection::Left,
    ];
    let plan = match order {
        CharacterFactoryOrder::PlayableDoremy1 => CharacterTexturePlan {
            first_texture: TextureID::KosuzuDotFront1,
            directions,
            textures,
            initial_direction: ObjectDirection::Down,
            frame_span: 15,
        },
        CharacterFactoryOrder::CustomerSample => CharacterTexturePlan {
            first_texture: TextureID::KosuzuDotFront1,
            directions,
            textures,
            initial_direction: ObjectDirection::Down,
            frame_span: 15,
        },
    };
    proof {
        assert(plan.directions@ =~= walking_directions());
        assert(plan.textures@[0]@ =~= walking_textures(ObjectDirection::Down));
        assert(plan.textures@[1]@ =~= walking_textures(ObjectDirection::Up));
        assert(plan.textures@[2]@ =~= walking_textures(ObjectDirection::Right));
        assert(plan.textures@[3]@ =~= walking_textures(ObjectDirection::Left));
    }
    plan
}

} // verus!
