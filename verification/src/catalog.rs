//! The kinds of things a world file may name, and the resources behind them.

use vstd::prelude::*;
use crate::schema::WorldAsset;
use crate::text::same_text;

verus! {

/// How the world is drawn: in full, or as bare collider shapes for diagnosis.
#[derive(Clone, Copy, Debug, PartialEq, Eq, Structural)]
pub enum RenderMode {
    Full,
    Colliders,
}

/// The collider shapes that a world file may name.
#[derive(Clone, Copy, Debug, PartialEq, Eq, Structural)]
pub enum ColliderShape {
    Cuboid,
}

/// The kinds of light that a world file may name.
#[derive(Clone, Copy, Debug, PartialEq, Eq, Structural)]
pub enum LightKind {
    Spot,
    Point,
}

/// The render mode that a settings file asks for: the diagnostic one only
/// where it says `colliders`.
pub open spec fn render_mode_of(name: Seq<char>) -> RenderMode {
    if name == "colliders"@ {
        RenderMode::Colliders
    } else {
        RenderMode::Full
    }
}

/// The collider shape called `name`.
pub open spec fn shape_of(name: Seq<char>) -> Option<ColliderShape> {
    if name == "cuboid"@ {
        Some(ColliderShape::Cuboid)
    } else {
        None
    }
}

/// The kind of light called `name`.
pub open spec fn light_kind_of(name: Seq<char>) -> Option<LightKind> {
    if name == "spot"@ {
        Some(LightKind::Spot)
    } else if name == "point"@ {
        Some(LightKind::Point)
    } else {
        None
    }
}

/// The first place at or after `from` where `names` holds `name`.
pub open spec fn find_from(names: Seq<String>, name: Seq<char>, from: int) -> Option<usize>
    decreases names.len() - from,
{
    if from < 0 || from >= names.len() {
        None
    } else if names[from]@ == name {
        Some(from as usize)
    } else {
        find_from(names, name, from + 1)
    }
}

/// The first place where `names` holds `name`: the handle of the resource
/// that goes by that name.
pub open spec fn find_name(names: Seq<String>, name: Seq<char>) -> Option<usize> {
    find_from(names, name, 0)
}

/// A search from `from` finds the first match at or after it, and nothing
/// where there is none.
pub proof fn lemma_find_from(names: Seq<String>, name: Seq<char>, from: int)
    requires
        0 <= from,
        names.len() <= usize::MAX,
    ensures
        match find_from(names, name, from) {
            Some(i) => from <= i < names.len() && names[i as int]@ == name && forall|j: int|
                from <= j < i ==> names[j]@ != name,
            None => forall|j: int| from <= j < names.len() ==> names[j]@ != name,
        },
    decreases names.len() - from,
{
    if from < names.len() && names[from]@ != name {
        lemma_find_from(names, name, from + 1);
    }
}

impl RenderMode {
    /// The render mode that a settings file asks for.
    pub fn from_name(name: &str) -> (mode: RenderMode)
        ensures
            mode == render_mode_of(name@),
    {
        if same_text(name, "colliders") {
            RenderMode::Colliders
        } else {
            RenderMode::Full
        }
    }
}

impl ColliderShape {
    /// The collider shape called `name`.
    pub fn from_name(name: &str) -> (shape: Option<ColliderShape>)
        ensures
            shape == shape_of(name@),
    {
        if same_text(name, "cuboid") {
            Some(ColliderShape::Cuboid)
        } else {
            None
        }
    }
}

impl LightKind {
    /// The kind of light called `name`.
    pub fn from_name(name: &str) -> (kind: Option<LightKind>)
        ensures
            kind == light_kind_of(name@),
    {
        if same_text(name, "spot") {
            Some(LightKind::Spot)
        } else if same_text(name, "point") {
            Some(LightKind::Point)
        } else {
            None
        }
    }
}

/// The handle of the resource that `names` lists under `name`.
pub fn lookup(names: &Vec<String>, name: &str) -> (handle: Option<usize>)
    ensures
        handle == find_name(names@, name@),
        match handle {
            Some(i) => i < names.len() && names[i as int]@ == name@,
            None => forall|j: int| 0 <= j < names.len() ==> names[j]@ != name@,
        },
{
    let mut i: usize = 0;
    while i < names.len()
        invariant
            i <= names.len(),
            find_name(names@, name@) == find_from(names@, name@, i as int),
            forall|j: int| 0 <= j < i ==> names[j]@ != name@,
        decreases names.len() - i,
    {
        if same_text(names[i].as_str(), name) {
            return Some(i);
        }
        i += 1;
    }
    None
}

/// The resources that a level may draw on. A resource's handle is its place
/// in its list; a name that no list holds has no handle.
#[derive(Clone, Debug, Default, PartialEq, Eq)]
pub struct Catalog {
    /// Visual scenes for the props of a world.
    pub props: Vec<String>,
    /// Visual scenes for doors.
    pub door_props: Vec<String>,
    /// Visual scenes for the props that ride on a train.
    pub train_props: Vec<String>,
    /// Sound clips.
    pub sounds: Vec<String>,
    /// The kinds of train, each with the world description of what it carries
    /// at the same place in `train_assets`.
    pub train_names: Vec<String>,
    pub train_assets: Vec<WorldAsset>,
}

/// The handle of the train description called `name`.
pub open spec fn find_train(catalog: &Catalog, name: Seq<char>) -> Option<usize> {
    match find_name(catalog.train_names@, name) {
        Some(k) => if k < catalog.train_assets.len() {
            Some(k)
        } else {
            None
        },
        None => None,
    }
}

impl Catalog {
    /// The handle of the train description called `name`.
    pub fn train(&self, name: &str) -> (handle: Option<usize>)
        ensures
            handle == find_train(self, name@),
            handle matches Some(k) ==> k < self.train_assets.len(),
    {
        match lookup(&self.train_names, name) {
            Some(k) => if k < self.train_assets.len() {
                Some(k)
            } else {
                None
            },
            None => None,
        }
    }
}

} // verus!
