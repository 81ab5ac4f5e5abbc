//! The content of a level as its world file declares it.

use vstd::prelude::*;

verus! {

/// A single-precision number, carried as its IEEE-754 bit pattern. The rules
/// of the world never compute with such a number; they hand it on unchanged.
#[derive(Clone, Copy, Debug, PartialEq, Eq, Structural)]
pub struct Real {
    pub bits: u32,
}

/// The bit pattern of one half.
pub const HALF_BITS: u32 = 0x3F00_0000;

/// The bit pattern of one fifth.
pub const FIFTH_BITS: u32 = 0x3E4C_CCCD;

/// A point or a direction in space.
#[derive(Clone, Copy, Debug, PartialEq, Eq, Structural)]
pub struct Vec3 {
    pub x: Real,
    pub y: Real,
    pub z: Real,
}

/// A rotation.
#[derive(Clone, Copy, Debug, PartialEq, Eq, Structural)]
pub struct Quat {
    pub x: Real,
    pub y: Real,
    pub z: Real,
    pub w: Real,
}

/// A convex collider.
#[derive(Clone, Debug, PartialEq, Eq)]
pub struct WorldCollider {
    pub shape: String,
    pub translation: Vec3,
    pub rotation: Quat,
    pub scale: Vec3,
}

/// A door: a visual prop with a collider, known by its name.
#[derive(Clone, Debug, PartialEq, Eq)]
pub struct WorldDoor {
    pub prop: String,
    pub name: String,
    pub translation: Vec3,
    pub rotation: Quat,
    pub scale: Vec3,
}

/// The rule attached to an interactable: how it is triggered, the prompt it
/// shows, what it does, and what stands in its way.
#[derive(Clone, Debug, Default, PartialEq, Eq)]
pub struct WorldInteraction {
    pub interaction: String,
    pub interaction_text: String,
    pub actions: Vec<(String, String)>,
    pub blockers: Vec<(String, String)>,
}

/// A target that the player can aim at.
#[derive(Clone, Debug, PartialEq, Eq)]
pub struct WorldInteractable {
    pub shape: String,
    pub translation: Vec3,
    pub rotation: Quat,
    pub scale: Vec3,
    pub interaction: Option<WorldInteraction>,
}

/// A visual prop.
#[derive(Clone, Debug, PartialEq, Eq)]
pub struct WorldProp {
    pub prop: String,
    pub translation: Vec3,
    pub rotation: Quat,
    pub scale: Vec3,
    pub animatable: Option<String>,
}

/// A sound with a place in the world.
#[derive(Clone, Debug, PartialEq, Eq)]
pub struct WorldSound {
    pub sound: String,
    pub translation: Vec3,
    pub paused: bool,
    pub animatable: Option<String>,
}

/// A light.
#[derive(Clone, Debug, PartialEq, Eq)]
pub struct WorldLight {
    pub light_type: String,
    pub translation: Vec3,
    pub rotation: Quat,
    pub scale: Vec3,
    pub watts: Real,
    pub animatable: Option<String>,
}

/// A train: a parent whose children come from a world description of its own.
#[derive(Clone, Debug, PartialEq, Eq)]
pub struct WorldTrain {
    pub prop: String,
    pub translation: Vec3,
    pub animatable: Option<String>,
}

/// Everything one world file declares.
#[derive(Clone, Debug, Default, PartialEq, Eq)]
pub struct WorldAsset {
    pub colliders: Vec<WorldCollider>,
    pub doors: Vec<WorldDoor>,
    pub interactables: Vec<WorldInteractable>,
    pub lights: Vec<WorldLight>,
    pub props: Vec<WorldProp>,
    pub sounds: Vec<WorldSound>,
    pub trains: Vec<WorldTrain>,
}

/// How the world is drawn.
#[derive(Clone, Debug, Default, PartialEq, Eq)]
pub struct GraphicsSettings {
    pub render_mode: String,
}

/// The player's settings file.
#[derive(Clone, Debug, Default, PartialEq, Eq)]
pub struct SettingsAsset {
    pub graphics_settings: GraphicsSettings,
}

/// A list of `(kind, argument)` pairs as the characters they hold.
pub open spec fn pairs_view(pairs: Seq<(String, String)>) -> Seq<(Seq<char>, Seq<char>)> {
    Seq::new(pairs.len(), |i: int| (pairs[i].0@, pairs[i].1@))
}

/// A list of names as the characters they hold.
pub open spec fn names_view(names: Seq<String>) -> Seq<Seq<char>> {
    Seq::new(names.len(), |i: int| names[i]@)
}

/// An optional name as the characters it holds.
pub open spec fn name_view(name: Option<String>) -> Option<Seq<char>> {
    match name {
        Some(n) => Some(n@),
        None => None,
    }
}

/// What a `WorldInteraction` says, character for character.
pub struct InteractionView {
    pub interaction: Seq<char>,
    pub interaction_text: Seq<char>,
    pub actions: Seq<(Seq<char>, Seq<char>)>,
    pub blockers: Seq<(Seq<char>, Seq<char>)>,
}

impl View for WorldInteraction {
    type V = InteractionView;

    open spec fn view(&self) -> InteractionView {
        InteractionView {
            interaction: self.interaction@,
            interaction_text: self.interaction_text@,
            actions: pairs_view(self.actions@),
            blockers: pairs_view(self.blockers@),
        }
    }
}

/// A copy of a list of pairs that holds the same characters.
pub fn copy_pairs(pairs: &Vec<(String, String)>) -> (copy: Vec<(String, String)>)
    ensures
        copy@ == pairs@,
        pairs_view(copy@) == pairs_view(pairs@),
{
    let mut copy: Vec<(String, String)> = Vec::new();
    let mut i: usize = 0;
    while i < pairs.len()
        invariant
            i <= pairs.len(),
            copy@ == pairs@.take(i as int),
        decreases pairs.len() - i,
    {
        let kind = pairs[i].0.clone();
        let argument = pairs[i].1.clone();
        copy.push((kind, argument));
        assert(copy@ =~= pairs@.take(i as int + 1));
        i += 1;
    }
    assert(pairs@.take(pairs.len() as int) =~= pairs@);
    copy
}

impl WorldInteraction {
    /// A copy that says the same, character for character.
    pub fn duplicate(&self) -> (copy: Self)
        ensures
            copy@ == self@,
    {
        WorldInteraction {
            interaction: self.interaction.clone(),
            interaction_text: self.interaction_text.clone(),
            actions: copy_pairs(&self.actions),
            blockers: copy_pairs(&self.blockers),
        }
    }
}

} // verus!
