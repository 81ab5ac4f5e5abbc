//! From a world description to the list of things to spawn.

use vstd::prelude::*;
use crate::catalog::{
    find_name, find_train, lemma_find_from, light_kind_of, lookup, shape_of, Catalog,
    ColliderShape, LightKind, RenderMode,
};
use crate::schema::WorldAsset;
use crate::text::same_text;

verus! {

/// Where a step's entry stands: in the world description itself, or in the
/// description of a train, whose own step is `parent`.
#[derive(Clone, Copy, Debug, PartialEq, Eq)]
pub enum Origin {
    World,
    Train { parent: usize, asset: usize },
}

/// Who may touch a collider.
#[derive(Clone, Copy, Debug, PartialEq, Eq, Structural)]
pub enum CollisionGroup {
    /// Walls and floors.
    Solid,
    /// Sensors that react to the player coming near.
    Proximity,
    /// Sensors that the ray from the player's view can hit.
    Cursor,
}

/// What to spawn.
#[derive(Clone, Copy, Debug, PartialEq, Eq)]
pub enum SpawnKind {
    /// A prop; `scene` is the visual scene to instantiate under it, if any.
    Prop { scene: Option<usize> },
    /// A solid collider.
    Collider { shape: ColliderShape },
    /// A door with its collider; `scene` as for a prop.
    Door { scene: Option<usize> },
    /// A sensor ball around an interactable.
    Interactable { group: CollisionGroup },
    /// A light.
    Light { kind: LightKind },
    /// The parent of a train; `asset` describes what it carries.
    Train { asset: usize },
}

/// One thing to spawn: what it is and which entry of which description it is
/// made from.
#[derive(Clone, Copy, Debug, PartialEq, Eq)]
pub struct SpawnStep {
    pub kind: SpawnKind,
    pub origin: Origin,
    pub entry: usize,
}

/// The lists of a world description that ask for something to be spawned.
#[derive(Clone, Copy, Debug, PartialEq, Eq, Structural)]
pub enum Section {
    Props,
    Colliders,
    Doors,
    Interactables,
    Lights,
}

/// The description that an entry of this origin stands in: the world's own,
/// or that of the train's kind.
pub open spec fn source_of(origin: Origin, asset: &WorldAsset, catalog: &Catalog) -> Option<
    WorldAsset,
> {
    match origin {
        Origin::World => Some(*asset),
        Origin::Train { asset: k, .. } => if k < catalog.train_assets.len() {
            Some(catalog.train_assets[k as int])
        } else {
            None
        },
    }
}

impl Origin {
    /// The description that an entry of this origin stands in.
    pub fn source<'a>(&self, asset: &'a WorldAsset, catalog: &'a Catalog) -> (source: Option<
        &'a WorldAsset,
    >)
        ensures
            match source {
                Some(found) => source_of(*self, asset, catalog) == Some(*found),
                None => source_of(*self, asset, catalog).is_none(),
            },
    {
        match self {
            Origin::World => Some(asset),
            Origin::Train { asset: k, .. } => if *k < catalog.train_assets.len() {
                Some(&catalog.train_assets[*k])
            } else {
                None
            },
        }
    }
}

impl CollisionGroup {
    /// The bit that stands for this group in a collision filter.
    pub fn mask(&self) -> (mask: u32)
        ensures
            mask == match *self {
                CollisionGroup::Solid => 1u32,
                CollisionGroup::Proximity => 2u32,
                CollisionGroup::Cursor => 4u32,
            },
    {
        match self {
            CollisionGroup::Solid => 1,
            CollisionGroup::Proximity => 2,
            CollisionGroup::Cursor => 4,
        }
    }
}

/// How many entries `section` has in `asset`.
pub open spec fn section_len(section: Section, asset: &WorldAsset) -> nat {
    match section {
        Section::Props => asset.props@.len(),
        Section::Colliders => asset.colliders@.len(),
        Section::Doors => asset.doors@.len(),
        Section::Interactables => asset.interactables@.len(),
        Section::Lights => asset.lights@.len(),
    }
}

/// The scene to instantiate for a resource: none when only colliders are drawn.
pub open spec fn scene_for(handle: usize, mode: RenderMode) -> Option<usize> {
    match mode {
        RenderMode::Colliders => None,
        RenderMode::Full => Some(handle),
    }
}

/// The scenes among which the props of a description are looked up.
pub open spec fn prop_names(catalog: &Catalog, origin: Origin) -> Seq<String> {
    match origin {
        Origin::World => catalog.props@,
        Origin::Train { .. } => catalog.train_props@,
    }
}

/// The group of an interactable's sensor. In the world every interactable is
/// aimed at; on a train only those that are triggered by a click.
pub open spec fn group_for(origin: Origin, trigger: Seq<char>) -> CollisionGroup {
    match origin {
        Origin::World => CollisionGroup::Cursor,
        Origin::Train { .. } => if trigger == "click"@ {
            CollisionGroup::Cursor
        } else {
            CollisionGroup::Proximity
        },
    }
}

/// What entry `i` of `section` asks for. An entry of unknown kind, and an
/// interactable without a rule, asks for nothing.
pub open spec fn step_kind(
    section: Section,
    asset: &WorldAsset,
    catalog: &Catalog,
    mode: RenderMode,
    origin: Origin,
    i: int,
) -> Option<SpawnKind> {
    match section {
        Section::Props => match find_name(prop_names(catalog, origin), asset.props[i].prop@) {
            Some(handle) => Some(SpawnKind::Prop { scene: scene_for(handle, mode) }),
            None => None,
        },
        Section::Colliders => match shape_of(asset.colliders[i].shape@) {
            Some(shape) => Some(SpawnKind::Collider { shape }),
            None => None,
        },
        Section::Doors => match find_name(catalog.door_props@, asset.doors[i].prop@) {
            Some(handle) => Some(SpawnKind::Door { scene: scene_for(handle, mode) }),
            None => None,
        },
        Section::Interactables => match asset.interactables[i].interaction {
            Some(rule) => Some(
                SpawnKind::Interactable { group: group_for(origin, rule.interaction@) },
            ),
            None => None,
        },
        Section::Lights => match light_kind_of(asset.lights[i].light_type@) {
            Some(kind) => Some(SpawnKind::Light { kind }),
            None => None,
        },
    }
}

/// The steps for the first `n` entries of `section`, in the order of the
/// entries.
pub open spec fn section_steps(
    section: Section,
    asset: &WorldAsset,
    catalog: &Catalog,
    mode: RenderMode,
    origin: Origin,
    n: int,
) -> Seq<SpawnStep>
    decreases n,
{
    if n <= 0 {
        Seq::empty()
    } else {
        let before = section_steps(section, asset, catalog, mode, origin, n - 1);
        match step_kind(section, asset, catalog, mode, origin, n - 1) {
            Some(kind) => before.push(SpawnStep { kind, origin, entry: (n - 1) as usize }),
            None => before,
        }
    }
}

/// The entries among the first `n` of `section` that ask for nothing, by
/// their place: those of unknown kind, and interactables without a rule.
pub open spec fn section_skips(
    section: Section,
    asset: &WorldAsset,
    catalog: &Catalog,
    mode: RenderMode,
    origin: Origin,
    n: int,
) -> Seq<usize>
    decreases n,
{
    if n <= 0 {
        Seq::empty()
    } else {
        let before = section_skips(section, asset, catalog, mode, origin, n - 1);
        match step_kind(section, asset, catalog, mode, origin, n - 1) {
            Some(_) => before,
            None => before.push((n - 1) as usize),
        }
    }
}

/// The trains among the first `n` that are of no known kind, by their place.
pub open spec fn train_skips(asset: &WorldAsset, catalog: &Catalog, n: int) -> Seq<usize>
    decreases n,
{
    if n <= 0 {
        Seq::empty()
    } else {
        let before = train_skips(asset, catalog, n - 1);
        match find_train(catalog, asset.trains[n - 1].prop@) {
            Some(_) => before,
            None => before.push((n - 1) as usize),
        }
    }
}

/// All steps of `section`.
pub open spec fn whole_section(
    section: Section,
    asset: &WorldAsset,
    catalog: &Catalog,
    mode: RenderMode,
    origin: Origin,
) -> Seq<SpawnStep> {
    section_steps(section, asset, catalog, mode, origin, section_len(section, asset) as int)
}

/// The steps for what the world description itself declares, trains aside:
/// props, colliders, doors, interactables, lights.
pub open spec fn world_steps(asset: &WorldAsset, catalog: &Catalog, mode: RenderMode) -> Seq<
    SpawnStep,
> {
    whole_section(Section::Props, asset, catalog, mode, Origin::World) + whole_section(
        Section::Colliders,
        asset,
        catalog,
        mode,
        Origin::World,
    ) + whole_section(Section::Doors, asset, catalog, mode, Origin::World) + whole_section(
        Section::Interactables,
        asset,
        catalog,
        mode,
        Origin::World,
    ) + whole_section(Section::Lights, asset, catalog, mode, Origin::World)
}

/// The steps for what a train carries: colliders, props, lights,
/// interactables. What the description of a train says of doors, sounds and
/// further trains is not used.
pub open spec fn cargo_steps(
    cargo: &WorldAsset,
    catalog: &Catalog,
    mode: RenderMode,
    origin: Origin,
) -> Seq<SpawnStep> {
    whole_section(Section::Colliders, cargo, catalog, mode, origin) + whole_section(
        Section::Props,
        cargo,
        catalog,
        mode,
        origin,
    ) + whole_section(Section::Lights, cargo, catalog, mode, origin) + whole_section(
        Section::Interactables,
        cargo,
        catalog,
        mode,
        origin,
    )
}

/// The steps for the first `n` trains, where `base` steps stand before them.
/// A train of a known kind gets a step of its own, followed by the steps for
/// what it carries; a train of unknown kind gets none.
pub open spec fn train_steps(
    asset: &WorldAsset,
    catalog: &Catalog,
    mode: RenderMode,
    base: int,
    n: int,
) -> Seq<SpawnStep>
    decreases n,
{
    if n <= 0 {
        Seq::empty()
    } else {
        let before = train_steps(asset, catalog, mode, base, n - 1);
        match find_train(catalog, asset.trains[n - 1].prop@) {
            Some(k) => {
                let parent = (base + before.len()) as usize;
                before.push(
                    SpawnStep {
                        kind: SpawnKind::Train { asset: k },
                        origin: Origin::World,
                        entry: (n - 1) as usize,
                    },
                ) + cargo_steps(
                    &catalog.train_assets[k as int],
                    catalog,
                    mode,
                    Origin::Train { parent, asset: k },
                )
            },
            None => before,
        }
    }
}

/// Everything to spawn for a world, in order.
pub open spec fn plan_of(asset: &WorldAsset, catalog: &Catalog, mode: RenderMode) -> Seq<
    SpawnStep,
> {
    let world = world_steps(asset, catalog, mode);
    world + train_steps(asset, catalog, mode, world.len() as int, asset.trains.len() as int)
}

/// Whether a step can be carried out on the description `source`: its entry
/// exists, a scene it asks for is in the catalog, and an interactable has a
/// rule. A train stands in the world itself and is of a kind with a
/// description.
pub open spec fn fits(step: SpawnStep, source: &WorldAsset, catalog: &Catalog) -> bool {
    match step.kind {
        SpawnKind::Prop { scene } => step.entry < source.props.len() && match scene {
            Some(handle) => handle < prop_names(catalog, step.origin).len(),
            None => true,
        },
        SpawnKind::Collider { .. } => step.entry < source.colliders.len(),
        SpawnKind::Door { scene } => step.entry < source.doors.len() && match scene {
            Some(handle) => handle < catalog.door_props.len(),
            None => true,
        },
        SpawnKind::Interactable { .. } => step.entry < source.interactables.len()
            && source.interactables[step.entry as int].interaction.is_some(),
        SpawnKind::Light { .. } => step.entry < source.lights.len(),
        SpawnKind::Train { asset } => step.origin == Origin::World && step.entry
            < source.trains.len() && asset < catalog.train_assets.len(),
    }
}

/// Whether step `i` of `steps` is in order: it can be carried out on the
/// description it names, and where it rides on a train, the train's own step
/// stands before it.
pub open spec fn step_in_order(
    steps: Seq<SpawnStep>,
    i: int,
    asset: &WorldAsset,
    catalog: &Catalog,
) -> bool {
    &&& match source_of(steps[i].origin, asset, catalog) {
        Some(source) => fits(steps[i], &source, catalog),
        None => false,
    }
    &&& match steps[i].origin {
        Origin::World => true,
        Origin::Train { parent, asset: k } => {
            &&& parent < i
            &&& steps[parent as int].kind == (SpawnKind::Train { asset: k })
            &&& steps[parent as int].origin == Origin::World
        },
    }
}

proof fn lemma_section_len(section: Section, asset: &WorldAsset)
    ensures
        section_len(section, asset) <= usize::MAX,
{
    assert(asset.props@.len() == asset.props.len());
    assert(asset.colliders@.len() == asset.colliders.len());
    assert(asset.doors@.len() == asset.doors.len());
    assert(asset.interactables@.len() == asset.interactables.len());
    assert(asset.lights@.len() == asset.lights.len());
}

proof fn lemma_section_fits(
    section: Section,
    source: &WorldAsset,
    catalog: &Catalog,
    mode: RenderMode,
    origin: Origin,
    n: int,
)
    requires
        n <= section_len(section, source),
    ensures
        forall|j: int|
            0 <= j < section_steps(section, source, catalog, mode, origin, n).len() ==> {
                let step = #[trigger] section_steps(section, source, catalog, mode, origin, n)[j];
                &&& step.origin == origin
                &&& fits(step, source, catalog)
                &&& !(step.kind is Train)
            },
    decreases n,
{
    if n > 0 {
        lemma_section_fits(section, source, catalog, mode, origin, n - 1);
        lemma_section_len(section, source);
        let before = section_steps(section, source, catalog, mode, origin, n - 1);
        let now = section_steps(section, source, catalog, mode, origin, n);
        match section {
            Section::Props => {
                assert(catalog.props@.len() == catalog.props.len());
                assert(catalog.train_props@.len() == catalog.train_props.len());
                lemma_find_from(prop_names(catalog, origin), source.props[n - 1].prop@, 0);
            },
            Section::Doors => {
                assert(catalog.door_props@.len() == catalog.door_props.len());
                lemma_find_from(catalog.door_props@, source.doors[n - 1].prop@, 0);
            },
            _ => {},
        }
        match step_kind(section, source, catalog, mode, origin, n - 1) {
            Some(kind) => {
                let step = SpawnStep { kind, origin, entry: (n - 1) as usize };
                assert(now == before.push(step));
                assert(fits(step, source, catalog));
                assert forall|j: int| 0 <= j < now.len() implies {
                    let step = #[trigger] now[j];
                    &&& step.origin == origin
                    &&& fits(step, source, catalog)
                    &&& !(step.kind is Train)
                } by {
                    if j < before.len() {
                        assert(now[j] == before[j]);
                    } else {
                        assert(now[j] == step);
                    }
                }
            },
            None => {
                assert(now == before);
            },
        }
    }
}

proof fn lemma_cargo_fits(cargo: &WorldAsset, catalog: &Catalog, mode: RenderMode, origin: Origin)
    ensures
        forall|j: int|
            0 <= j < cargo_steps(cargo, catalog, mode, origin).len() ==> {
                let step = #[trigger] cargo_steps(cargo, catalog, mode, origin)[j];
                &&& step.origin == origin
                &&& fits(step, cargo, catalog)
                &&& !(step.kind is Train)
            },
{
    lemma_section_fits(
        Section::Colliders,
        cargo,
        catalog,
        mode,
        origin,
        section_len(Section::Colliders, cargo) as int,
    );
    lemma_section_fits(
        Section::Props,
        cargo,
        catalog,
        mode,
        origin,
        section_len(Section::Props, cargo) as int,
    );
    lemma_section_fits(
        Section::Lights,
        cargo,
        catalog,
        mode,
        origin,
        section_len(Section::Lights, cargo) as int,
    );
    lemma_section_fits(
        Section::Interactables,
        cargo,
        catalog,
        mode,
        origin,
        section_len(Section::Interactables, cargo) as int,
    );
}

proof fn lemma_world_fits(asset: &WorldAsset, catalog: &Catalog, mode: RenderMode)
    ensures
        forall|j: int|
            0 <= j < world_steps(asset, catalog, mode).len() ==> {
                let step = #[trigger] world_steps(asset, catalog, mode)[j];
                &&& step.origin == Origin::World
                &&& fits(step, asset, catalog)
            },
{
    let o = Origin::World;
    lemma_section_fits(
        Section::Props,
        asset,
        catalog,
        mode,
        o,
        section_len(Section::Props, asset) as int,
    );
    lemma_section_fits(
        Section::Colliders,
        asset,
        catalog,
        mode,
        o,
        section_len(Section::Colliders, asset) as int,
    );
    lemma_section_fits(
        Section::Doors,
        asset,
        catalog,
        mode,
        o,
        section_len(Section::Doors, asset) as int,
    );
    lemma_section_fits(
        Section::Interactables,
        asset,
        catalog,
        mode,
        o,
        section_len(Section::Interactables, asset) as int,
    );
    lemma_section_fits(
        Section::Lights,
        asset,
        catalog,
        mode,
        o,
        section_len(Section::Lights, asset) as int,
    );
}

proof fn lemma_trains_in_order(
    asset: &WorldAsset,
    catalog: &Catalog,
    mode: RenderMode,
    base: int,
    n: int,
)
    requires
        0 <= base,
        n <= asset.trains.len(),
        base + train_steps(asset, catalog, mode, base, n).len() <= usize::MAX,
    ensures
        forall|j: int|
            0 <= j < train_steps(asset, catalog, mode, base, n).len() ==> {
                let step = #[trigger] train_steps(asset, catalog, mode, base, n)[j];
                let steps = train_steps(asset, catalog, mode, base, n);
                match step.origin {
                    Origin::World => fits(step, asset, catalog),
                    Origin::Train { parent, asset: k } => {
                        &&& k < catalog.train_assets.len()
                        &&& fits(step, &catalog.train_assets[k as int], catalog)
                        &&& base <= parent < base + j
                        &&& steps[parent - base].kind == (SpawnKind::Train { asset: k })
                        &&& steps[parent - base].origin == Origin::World
                    },
                }
            },
    decreases n,
{
    if n > 0 {
        let before = train_steps(asset, catalog, mode, base, n - 1);
        let now = train_steps(asset, catalog, mode, base, n);
        match find_train(catalog, asset.trains[n - 1].prop@) {
            Some(k) => {
                let parent = (base + before.len()) as usize;
                let origin = Origin::Train { parent, asset: k };
                let train = SpawnStep {
                    kind: SpawnKind::Train { asset: k },
                    origin: Origin::World,
                    entry: (n - 1) as usize,
                };
                let cargo = cargo_steps(&catalog.train_assets[k as int], catalog, mode, origin);
                assert(now == before.push(train) + cargo);
                lemma_trains_in_order(asset, catalog, mode, base, n - 1);
                lemma_cargo_fits(&catalog.train_assets[k as int], catalog, mode, origin);
                assert forall|j: int| 0 <= j < now.len() implies {
                    let step = #[trigger] now[j];
                    match step.origin {
                        Origin::World => fits(step, asset, catalog),
                        Origin::Train { parent, asset: k } => {
                            &&& k < catalog.train_assets.len()
                            &&& fits(step, &catalog.train_assets[k as int], catalog)
                            &&& base <= parent < base + j
                            &&& now[parent - base].kind == (SpawnKind::Train { asset: k })
                            &&& now[parent - base].origin == Origin::World
                        },
                    }
                } by {
                    if j < before.len() {
                        assert(now[j] == before[j]);
                        match before[j].origin {
                            Origin::World => {},
                            Origin::Train { parent: p, asset: a } => {
                                assert(now[p - base] == before[p - base]);
                            },
                        }
                    } else if j == before.len() {
                        assert(now[j] == train);
                    } else {
                        assert(now[j] == cargo[j - before.len() - 1]);
                        assert(now[parent - base] == train);
                    }
                }
            },
            None => {
                lemma_trains_in_order(asset, catalog, mode, base, n - 1);
            },
        }
    }
}

/// Every step of a plan is in order, so long as the plan is no longer than
/// a list can be: it names an entry that exists in the description it is
/// made from and a scene that the catalog holds, and what rides on a train
/// comes after the train's own step.
pub proof fn lemma_plan_in_order(asset: &WorldAsset, catalog: &Catalog, mode: RenderMode)
    requires
        plan_of(asset, catalog, mode).len() <= usize::MAX,
    ensures
        forall|i: int|
            0 <= i < plan_of(asset, catalog, mode).len() ==> #[trigger] step_in_order(
                plan_of(asset, catalog, mode),
                i,
                asset,
                catalog,
            ),
{
    let world = world_steps(asset, catalog, mode);
    let base = world.len() as int;
    let trains = train_steps(asset, catalog, mode, base, asset.trains.len() as int);
    let plan = plan_of(asset, catalog, mode);
    assert(plan == world + trains);
    lemma_world_fits(asset, catalog, mode);
    lemma_trains_in_order(asset, catalog, mode, base, asset.trains.len() as int);
    assert forall|i: int| 0 <= i < plan.len() implies #[trigger] step_in_order(
        plan,
        i,
        asset,
        catalog,
    ) by {
        if i < base {
            assert(plan[i] == world[i]);
        } else {
            assert(plan[i] == trains[i - base]);
            match trains[i - base].origin {
                Origin::World => {},
                Origin::Train { parent, asset: k } => {
                    assert(plan[parent as int] == trains[parent - base]);
                },
            }
        }
    }
}

fn kind_at(
    section: Section,
    asset: &WorldAsset,
    catalog: &Catalog,
    mode: RenderMode,
    origin: Origin,
    i: usize,
) -> (kind: Option<SpawnKind>)
    requires
        i < section_len(section, asset),
    ensures
        kind == step_kind(section, asset, catalog, mode, origin, i as int),
{
    match section {
        Section::Props => {
            let found = match origin {
                Origin::World => lookup(&catalog.props, asset.props[i].prop.as_str()),
                Origin::Train { .. } => lookup(&catalog.train_props, asset.props[i].prop.as_str()),
            };
            match found {
                Some(handle) => Some(SpawnKind::Prop { scene: visual(handle, mode) }),
                None => None,
            }
        },
        Section::Colliders => match ColliderShape::from_name(asset.colliders[i].shape.as_str()) {
            Some(shape) => Some(SpawnKind::Collider { shape }),
            None => None,
        },
        Section::Doors => match lookup(&catalog.door_props, asset.doors[i].prop.as_str()) {
            Some(handle) => Some(SpawnKind::Door { scene: visual(handle, mode) }),
            None => None,
        },
        Section::Interactables => match &asset.interactables[i].interaction {
            Some(rule) => {
                let group = match origin {
                    Origin::World => CollisionGroup::Cursor,
                    Origin::Train { .. } => if same_text(rule.interaction.as_str(), "click") {
                        CollisionGroup::Cursor
                    } else {
                        CollisionGroup::Proximity
                    },
                };
                Some(SpawnKind::Interactable { group })
            },
            None => None,
        },
        Section::Lights => match LightKind::from_name(asset.lights[i].light_type.as_str()) {
            Some(kind) => Some(SpawnKind::Light { kind }),
            None => None,
        },
    }
}

fn visual(handle: usize, mode: RenderMode) -> (scene: Option<usize>)
    ensures
        scene == scene_for(handle, mode),
{
    match mode {
        RenderMode::Colliders => None,
        RenderMode::Full => Some(handle),
    }
}

fn entries_in(section: Section, asset: &WorldAsset) -> (n: usize)
    ensures
        n == section_len(section, asset),
{
    match section {
        Section::Props => asset.props.len(),
        Section::Colliders => asset.colliders.len(),
        Section::Doors => asset.doors.len(),
        Section::Interactables => asset.interactables.len(),
        Section::Lights => asset.lights.len(),
    }
}

fn push_section(
    out: &mut Vec<SpawnStep>,
    section: Section,
    asset: &WorldAsset,
    catalog: &Catalog,
    mode: RenderMode,
    origin: Origin,
)
    ensures
        final(out)@ == old(out)@ + whole_section(section, asset, catalog, mode, origin),
{
    let n = entries_in(section, asset);
    let mut i: usize = 0;
    assert(out@ =~= old(out)@ + section_steps(section, asset, catalog, mode, origin, 0));
    while i < n
        invariant
            i <= n,
            n == section_len(section, asset),
            out@ == old(out)@ + section_steps(section, asset, catalog, mode, origin, i as int),
        decreases n - i,
    {
        let ghost before = section_steps(section, asset, catalog, mode, origin, i as int);
        match kind_at(section, asset, catalog, mode, origin, i) {
            Some(kind) => {
                let step = SpawnStep { kind, origin, entry: i };
                out.push(step);
                assert(out@ =~= old(out)@ + before.push(step));
            },
            None => {},
        }
        i += 1;
    }
}

fn push_cargo(
    out: &mut Vec<SpawnStep>,
    cargo: &WorldAsset,
    catalog: &Catalog,
    mode: RenderMode,
    origin: Origin,
)
    ensures
        final(out)@ == old(out)@ + cargo_steps(cargo, catalog, mode, origin),
{
    push_section(out, Section::Colliders, cargo, catalog, mode, origin);
    push_section(out, Section::Props, cargo, catalog, mode, origin);
    push_section(out, Section::Lights, cargo, catalog, mode, origin);
    push_section(out, Section::Interactables, cargo, catalog, mode, origin);
    assert(out@ =~= old(out)@ + cargo_steps(cargo, catalog, mode, origin));
}

/// The entries of `section` that the plan leaves out, by their place, so
/// that they can be reported.
pub fn skipped_entries(
    section: Section,
    asset: &WorldAsset,
    catalog: &Catalog,
    mode: RenderMode,
    origin: Origin,
) -> (skipped: Vec<usize>)
    ensures
        skipped@ == section_skips(
            section,
            asset,
            catalog,
            mode,
            origin,
            section_len(section, asset) as int,
        ),
{
    let n = entries_in(section, asset);
    let mut skipped: Vec<usize> = Vec::new();
    let mut i: usize = 0;
    while i < n
        invariant
            i <= n,
            n == section_len(section, asset),
            skipped@ == section_skips(section, asset, catalog, mode, origin, i as int),
        decreases n - i,
    {
        if kind_at(section, asset, catalog, mode, origin, i).is_none() {
            skipped.push(i);
        }
        i += 1;
    }
    skipped
}

/// The trains that the plan leaves out, by their place, so that they can be
/// reported.
pub fn skipped_trains(asset: &WorldAsset, catalog: &Catalog) -> (skipped: Vec<usize>)
    ensures
        skipped@ == train_skips(asset, catalog, asset.trains.len() as int),
{
    let mut skipped: Vec<usize> = Vec::new();
    let mut t: usize = 0;
    while t < asset.trains.len()
        invariant
            t <= asset.trains.len(),
            skipped@ == train_skips(asset, catalog, t as int),
        decreases asset.trains.len() - t,
    {
        if catalog.train(asset.trains[t].prop.as_str()).is_none() {
            skipped.push(t);
        }
        t += 1;
    }
    skipped
}

/// Lists everything to spawn for `asset`: what the world declares, then each
/// train followed by what it carries. Entries of unknown kind are left out;
/// the rest keep the order of the world file.
pub fn plan_world(asset: &WorldAsset, catalog: &Catalog, mode: RenderMode) -> (steps: Vec<
    SpawnStep,
>)
    ensures
        steps@ == plan_of(asset, catalog, mode),
        forall|i: int| 0 <= i < steps.len() ==> #[trigger] step_in_order(steps@, i, asset, catalog),
{
    let mut out: Vec<SpawnStep> = Vec::new();
    push_section(&mut out, Section::Props, asset, catalog, mode, Origin::World);
    push_section(&mut out, Section::Colliders, asset, catalog, mode, Origin::World);
    push_section(&mut out, Section::Doors, asset, catalog, mode, Origin::World);
    push_section(&mut out, Section::Interactables, asset, catalog, mode, Origin::World);
    push_section(&mut out, Section::Lights, asset, catalog, mode, Origin::World);
    let ghost world = world_steps(asset, catalog, mode);
    assert(out@ =~= world);
    let base = out.len();
    let mut t: usize = 0;
    assert(out@ =~= world + train_steps(asset, catalog, mode, base as int, 0));
    while t < asset.trains.len()
        invariant
            t <= asset.trains.len(),
            base == world.len(),
            world == world_steps(asset, catalog, mode),
            out@ == world + train_steps(asset, catalog, mode, base as int, t as int),
        decreases asset.trains.len() - t,
    {
        let ghost before = train_steps(asset, catalog, mode, base as int, t as int);
        match catalog.train(asset.trains[t].prop.as_str()) {
            Some(k) => {
                let parent = out.len();
                let step = SpawnStep {
                    kind: SpawnKind::Train { asset: k },
                    origin: Origin::World,
                    entry: t,
                };
                out.push(step);
                let origin = Origin::Train { parent, asset: k };
                push_cargo(&mut out, &catalog.train_assets[k], catalog, mode, origin);
                assert(out@ =~= world + (before.push(step) + cargo_steps(
                    &catalog.train_assets[k as int],
                    catalog,
                    mode,
                    origin,
                )));
            },
            None => {},
        }
        t += 1;
    }
    proof {
        assert(out@.len() == out.len());
        lemma_plan_in_order(asset, catalog, mode);
    }
    out
}

} // verus!
