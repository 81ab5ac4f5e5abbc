//! The live state of a level: what was spawned for it and under which name.

use std::collections::HashMap;
use vstd::prelude::*;
use crate::catalog::{find_name, lookup, Catalog};
use crate::entity::EntityId;
use crate::name_map::NameMap;
use crate::plan::{source_of, SpawnKind, SpawnStep};
use crate::schema::{
    name_view, InteractionView, Real, Vec3, WorldAsset, WorldInteraction, HALF_BITS,
};

verus! {

broadcast use vstd::std_specs::hash::group_hash_axioms;

/// The rule of an interactable that stands in the world.
#[derive(Clone, Debug, Default, PartialEq, Eq)]
pub struct InteractableState {
    pub interaction: WorldInteraction,
}

/// A visual subtree that can be told to play an animation, once it is known
/// which entity is its root.
#[derive(Clone, Debug, Default, PartialEq, Eq)]
pub struct AnimatableState {
    pub scene_entity: Option<EntityId>,
    pub clips: Vec<String>,
}

/// A sound channel with a place in the world.
#[derive(Clone, Debug, PartialEq, Eq)]
pub struct WorldSoundState {
    pub sound: String,
    pub position: Vec3,
    pub panning: Real,
    pub volume: Real,
    pub paused: bool,
}

/// A train and whether it is rolling.
#[derive(Clone, Copy, Debug, Default, PartialEq, Eq)]
pub struct WorldTrainState {
    pub parent_entity: Option<EntityId>,
    pub running: bool,
}

/// A door and whether it is open.
#[derive(Clone, Copy, Debug, Default, PartialEq, Eq)]
pub struct DoorState {
    pub parent_entity: Option<EntityId>,
    pub open: bool,
}

/// What the level holds while it is played.
pub struct WorldState {
    pub interactable_states: HashMap<u64, InteractableState>,
    pub animatables: NameMap<AnimatableState>,
    pub animatable_lights: NameMap<EntityId>,
    pub animatable_sounds: NameMap<WorldSoundState>,
    pub animatable_trains: NameMap<WorldTrainState>,
    pub doors: NameMap<DoorState>,
    pub active_train: Option<String>,
    pub active_world: String,
}

/// How far the loading of a level has come. `animatable_scenes` holds, for
/// each animatable whose scene is still being instantiated, the step that
/// asked for the scene.
pub struct WorldLoadingState {
    pub animatable_scenes: NameMap<usize>,
    pub inited: bool,
    pub done: bool,
}

impl View for InteractableState {
    type V = InteractionView;

    open spec fn view(&self) -> InteractionView {
        self.interaction@
    }
}

/// The number one half.
pub open spec fn half() -> Real {
    Real { bits: HALF_BITS }
}

/// The rules of a map of interactables, character for character.
pub open spec fn interactions_of(states: Map<u64, InteractableState>) -> Map<
    u64,
    InteractionView,
> {
    Map::new(|k: u64| states.contains_key(k), |k: u64| states[k]@)
}

/// What a load registers for the steps of a plan.
pub struct Registry {
    pub doors: Map<Seq<char>, DoorState>,
    pub lights: Map<Seq<char>, EntityId>,
    pub trains: Map<Seq<char>, WorldTrainState>,
    pub interactables: Map<u64, InteractionView>,
    pub pending: Map<Seq<char>, usize>,
}

/// The registry in which nothing is registered.
pub open spec fn empty_registry() -> Registry {
    Registry {
        doors: Map::empty(),
        lights: Map::empty(),
        trains: Map::empty(),
        interactables: Map::empty(),
        pending: Map::empty(),
    }
}

/// The name of the door that a step spawns.
pub open spec fn door_name_of(step: SpawnStep, asset: &WorldAsset, catalog: &Catalog) -> Option<
    Seq<char>,
> {
    match (source_of(step.origin, asset, catalog), step.kind) {
        (Some(source), SpawnKind::Door { .. }) => if step.entry < source.doors.len() {
            Some(source.doors[step.entry as int].name@)
        } else {
            None
        },
        _ => None,
    }
}

/// The rule that the step of an interactable brings.
pub open spec fn rule_of(step: SpawnStep, asset: &WorldAsset, catalog: &Catalog) -> Option<
    InteractionView,
> {
    match (source_of(step.origin, asset, catalog), step.kind) {
        (Some(source), SpawnKind::Interactable { .. }) => if step.entry
            < source.interactables.len() {
            match source.interactables[step.entry as int].interaction {
                Some(rule) => Some(rule@),
                None => None,
            }
        } else {
            None
        },
        _ => None,
    }
}

/// The animatable key of the light that a step spawns.
pub open spec fn light_key_of(step: SpawnStep, asset: &WorldAsset, catalog: &Catalog) -> Option<
    Seq<char>,
> {
    match (source_of(step.origin, asset, catalog), step.kind) {
        (Some(source), SpawnKind::Light { .. }) => if step.entry < source.lights.len() {
            name_view(source.lights[step.entry as int].animatable)
        } else {
            None
        },
        _ => None,
    }
}

/// The animatable key of the train that a step spawns.
pub open spec fn train_key_of(step: SpawnStep, asset: &WorldAsset, catalog: &Catalog) -> Option<
    Seq<char>,
> {
    match (source_of(step.origin, asset, catalog), step.kind) {
        (Some(source), SpawnKind::Train { .. }) => if step.entry < source.trains.len() {
            name_view(source.trains[step.entry as int].animatable)
        } else {
            None
        },
        _ => None,
    }
}

/// The animatable key of a prop whose scene the step has instantiated.
pub open spec fn pending_key_of(step: SpawnStep, asset: &WorldAsset, catalog: &Catalog) -> Option<
    Seq<char>,
> {
    match (source_of(step.origin, asset, catalog), step.kind) {
        (Some(source), SpawnKind::Prop { scene: Some(_) }) => if step.entry < source.props.len() {
            name_view(source.props[step.entry as int].animatable)
        } else {
            None
        },
        _ => None,
    }
}

/// What step number `at` adds to the registry once `entity` was spawned for
/// it. A door goes under its name, closed. An interactable's rule goes under
/// the entity. A light and a train go under their animatable key where they
/// have one. A prop with an animatable key whose scene is being instantiated
/// becomes pending. A later entry of the same name replaces an earlier one.
pub open spec fn register(
    r: Registry,
    step: SpawnStep,
    at: int,
    entity: EntityId,
    asset: &WorldAsset,
    catalog: &Catalog,
) -> Registry {
    Registry {
        doors: match door_name_of(step, asset, catalog) {
            Some(name) => r.doors.insert(
                name,
                DoorState { parent_entity: Some(entity), open: false },
            ),
            None => r.doors,
        },
        lights: match light_key_of(step, asset, catalog) {
            Some(key) => r.lights.insert(key, entity),
            None => r.lights,
        },
        trains: match train_key_of(step, asset, catalog) {
            Some(key) => r.trains.insert(
                key,
                WorldTrainState { parent_entity: Some(entity), running: false },
            ),
            None => r.trains,
        },
        interactables: match rule_of(step, asset, catalog) {
            Some(rule) => r.interactables.insert(entity.bits, rule),
            None => r.interactables,
        },
        pending: match pending_key_of(step, asset, catalog) {
            Some(key) => r.pending.insert(key, at as usize),
            None => r.pending,
        },
    }
}

/// What the first `n` steps register, where `spawned[i]` is the entity that
/// was spawned for step `i`.
pub open spec fn registry_after(
    steps: Seq<SpawnStep>,
    spawned: Seq<EntityId>,
    asset: &WorldAsset,
    catalog: &Catalog,
    n: int,
) -> Registry
    decreases n,
{
    if n <= 0 {
        empty_registry()
    } else {
        register(
            registry_after(steps, spawned, asset, catalog, n - 1),
            steps[n - 1],
            n - 1,
            spawned[n - 1],
            asset,
            catalog,
        )
    }
}

/// The sound channels of the first `n` sounds of `asset`: each sound of a
/// known kind that has an animatable key, under that key, at half volume in
/// the middle between left and right.
pub open spec fn sounds_after(asset: &WorldAsset, catalog: &Catalog, n: int) -> Map<
    Seq<char>,
    WorldSoundState,
>
    decreases n,
{
    if n <= 0 {
        Map::empty()
    } else {
        let before = sounds_after(asset, catalog, n - 1);
        let entry = asset.sounds[n - 1];
        match (entry.animatable, find_name(catalog.sounds@, entry.sound@)) {
            (Some(key), Some(_)) => before.insert(
                key@,
                WorldSoundState {
                    sound: entry.sound,
                    position: entry.translation,
                    panning: half(),
                    volume: half(),
                    paused: entry.paused,
                },
            ),
            _ => before,
        }
    }
}

/// Whether `world` and `loading` are what a load of `steps` leaves, given
/// the entities spawned for them: nothing of an earlier level remains.
pub open spec fn loaded_from(
    world: &WorldState,
    loading: &WorldLoadingState,
    steps: Seq<SpawnStep>,
    spawned: Seq<EntityId>,
    asset: &WorldAsset,
    catalog: &Catalog,
) -> bool {
    let r = registry_after(steps, spawned, asset, catalog, steps.len() as int);
    &&& world.doors@ == r.doors
    &&& world.animatable_lights@ == r.lights
    &&& world.animatable_trains@ == r.trains
    &&& interactions_of(world.interactable_states@) == r.interactables
    &&& world.animatable_sounds@ == sounds_after(asset, catalog, asset.sounds.len() as int)
    &&& world.animatables@ == Map::<Seq<char>, AnimatableState>::empty()
    &&& world.active_train.is_none()
    &&& loading.animatable_scenes@ == r.pending
    &&& !loading.done
}

/// What is registered comes from the steps and from nothing else: a door is
/// known exactly where a step spawned a door of that name, an entity is an
/// interactable exactly where it was spawned for a step that brings a rule,
/// and likewise for lights, trains and pending scenes.
pub proof fn lemma_registered_from_steps(
    steps: Seq<SpawnStep>,
    spawned: Seq<EntityId>,
    asset: &WorldAsset,
    catalog: &Catalog,
    n: int,
)
    ensures
        ({
            let r = registry_after(steps, spawned, asset, catalog, n);
            &&& forall|k: Seq<char>|
                r.doors.contains_key(k) <==> exists|i: int|
                    0 <= i < n && #[trigger] door_name_of(steps[i], asset, catalog) == Some(k)
            &&& forall|k: Seq<char>|
                r.lights.contains_key(k) <==> exists|i: int|
                    0 <= i < n && #[trigger] light_key_of(steps[i], asset, catalog) == Some(k)
            &&& forall|k: Seq<char>|
                r.trains.contains_key(k) <==> exists|i: int|
                    0 <= i < n && #[trigger] train_key_of(steps[i], asset, catalog) == Some(k)
            &&& forall|k: Seq<char>|
                r.pending.contains_key(k) <==> exists|i: int|
                    0 <= i < n && #[trigger] pending_key_of(steps[i], asset, catalog) == Some(k)
            &&& forall|e: u64|
                r.interactables.contains_key(e) <==> exists|i: int|
                    0 <= i < n && (#[trigger] rule_of(steps[i], asset, catalog)).is_some()
                        && spawned[i].bits == e
        }),
    decreases n,
{
    if n > 0 {
        lemma_registered_from_steps(steps, spawned, asset, catalog, n - 1);
        let before = registry_after(steps, spawned, asset, catalog, n - 1);
        let r = registry_after(steps, spawned, asset, catalog, n);
        let step = steps[n - 1];
        assert forall|k: Seq<char>|
            r.doors.contains_key(k) <==> exists|i: int|
                0 <= i < n && #[trigger] door_name_of(steps[i], asset, catalog) == Some(k) by {
            if before.doors.contains_key(k) {
                let i = choose|i: int|
                    0 <= i < n - 1 && #[trigger] door_name_of(steps[i], asset, catalog) == Some(k);
                assert(0 <= i < n && door_name_of(steps[i], asset, catalog) == Some(k));
            }
            if door_name_of(step, asset, catalog) == Some(k) {
                assert(0 <= n - 1 < n && door_name_of(steps[n - 1], asset, catalog) == Some(k));
            }
        }
        assert forall|k: Seq<char>|
            r.lights.contains_key(k) <==> exists|i: int|
                0 <= i < n && #[trigger] light_key_of(steps[i], asset, catalog) == Some(k) by {
            if before.lights.contains_key(k) {
                let i = choose|i: int|
                    0 <= i < n - 1 && #[trigger] light_key_of(steps[i], asset, catalog) == Some(k);
                assert(0 <= i < n && light_key_of(steps[i], asset, catalog) == Some(k));
            }
            if light_key_of(step, asset, catalog) == Some(k) {
                assert(0 <= n - 1 < n && light_key_of(steps[n - 1], asset, catalog) == Some(k));
            }
        }
        assert forall|k: Seq<char>|
            r.trains.contains_key(k) <==> exists|i: int|
                0 <= i < n && #[trigger] train_key_of(steps[i], asset, catalog) == Some(k) by {
            if before.trains.contains_key(k) {
                let i = choose|i: int|
                    0 <= i < n - 1 && #[trigger] train_key_of(steps[i], asset, catalog) == Some(k);
                assert(0 <= i < n && train_key_of(steps[i], asset, catalog) == Some(k));
            }
            if train_key_of(step, asset, catalog) == Some(k) {
                assert(0 <= n - 1 < n && train_key_of(steps[n - 1], asset, catalog) == Some(k));
            }
        }
        assert forall|k: Seq<char>|
            r.pending.contains_key(k) <==> exists|i: int|
                0 <= i < n && #[trigger] pending_key_of(steps[i], asset, catalog) == Some(k) by {
            if before.pending.contains_key(k) {
                let i = choose|i: int|
                    0 <= i < n - 1 && #[trigger] pending_key_of(steps[i], asset, catalog) == Some(
                        k,
                    );
                assert(0 <= i < n && pending_key_of(steps[i], asset, catalog) == Some(k));
            }
            if pending_key_of(step, asset, catalog) == Some(k) {
                assert(0 <= n - 1 < n && pending_key_of(steps[n - 1], asset, catalog) == Some(k));
            }
        }
        assert forall|e: u64|
            r.interactables.contains_key(e) <==> exists|i: int|
                0 <= i < n && (#[trigger] rule_of(steps[i], asset, catalog)).is_some()
                    && spawned[i].bits == e by {
            if before.interactables.contains_key(e) {
                let i = choose|i: int|
                    0 <= i < n - 1 && (#[trigger] rule_of(steps[i], asset, catalog)).is_some()
                        && spawned[i].bits == e;
                assert(0 <= i < n && rule_of(steps[i], asset, catalog).is_some() && spawned[i].bits
                    == e);
            }
            if rule_of(step, asset, catalog).is_some() && spawned[n - 1].bits == e {
                assert(0 <= n - 1 < n && rule_of(steps[n - 1], asset, catalog).is_some()
                    && spawned[n - 1].bits == e);
            }
        }
    }
}

/// Which names the first `n` steps register does not depend on the entities
/// that were spawned for them, and neither does what becomes pending.
pub proof fn lemma_registered_names(
    steps: Seq<SpawnStep>,
    first: Seq<EntityId>,
    second: Seq<EntityId>,
    asset: &WorldAsset,
    catalog: &Catalog,
    n: int,
)
    ensures
        ({
            let a = registry_after(steps, first, asset, catalog, n);
            let b = registry_after(steps, second, asset, catalog, n);
            &&& a.doors.dom() == b.doors.dom()
            &&& a.lights.dom() == b.lights.dom()
            &&& a.trains.dom() == b.trains.dom()
            &&& a.pending == b.pending
            &&& (forall|i: int| 0 <= i < n ==> first[i] == second[i]) ==> a == b
        }),
    decreases n,
{
    if n > 0 {
        lemma_registered_names(steps, first, second, asset, catalog, n - 1);
        let a = registry_after(steps, first, asset, catalog, n - 1);
        let b = registry_after(steps, second, asset, catalog, n - 1);
        let a1 = registry_after(steps, first, asset, catalog, n);
        let b1 = registry_after(steps, second, asset, catalog, n);
        assert(a1 == register(a, steps[n - 1], n - 1, first[n - 1], asset, catalog));
        assert(b1 == register(b, steps[n - 1], n - 1, second[n - 1], asset, catalog));
        assert(a1.doors.dom() =~= b1.doors.dom());
        assert(a1.lights.dom() =~= b1.lights.dom());
        assert(a1.trains.dom() =~= b1.trains.dom());
        assert(a1.pending =~= b1.pending);
    }
}

/// Loading a world and loading it again leaves a live state with the same
/// keys: the same doors, lights, sounds, trains and pending scenes, and no
/// animatable resolved yet. Where the engine hands out the same entities
/// again, the interactables are the same too.
pub proof fn lemma_reload_same_keys(
    world_a: WorldState,
    loading_a: WorldLoadingState,
    world_b: WorldState,
    loading_b: WorldLoadingState,
    steps: Seq<SpawnStep>,
    first: Seq<EntityId>,
    second: Seq<EntityId>,
    asset: &WorldAsset,
    catalog: &Catalog,
)
    requires
        loaded_from(&world_a, &loading_a, steps, first, asset, catalog),
        loaded_from(&world_b, &loading_b, steps, second, asset, catalog),
    ensures
        world_a.doors@.dom() == world_b.doors@.dom(),
        world_a.animatable_lights@.dom() == world_b.animatable_lights@.dom(),
        world_a.animatable_trains@.dom() == world_b.animatable_trains@.dom(),
        world_a.animatable_sounds@ == world_b.animatable_sounds@,
        world_a.animatables@ == world_b.animatables@,
        loading_a.animatable_scenes@ == loading_b.animatable_scenes@,
        (forall|i: int| 0 <= i < steps.len() ==> first[i] == second[i]) ==> {
            &&& interactions_of(world_a.interactable_states@) == interactions_of(
                world_b.interactable_states@,
            )
            &&& world_a.interactable_states@.dom() =~= world_b.interactable_states@.dom()
            &&& world_a.doors@ == world_b.doors@
            &&& world_a.animatable_lights@ == world_b.animatable_lights@
            &&& world_a.animatable_trains@ == world_b.animatable_trains@
        },
{
    lemma_registered_names(steps, first, second, asset, catalog, steps.len() as int);
    if forall|i: int| 0 <= i < steps.len() ==> first[i] == second[i] {
        let a = interactions_of(world_a.interactable_states@);
        let b = interactions_of(world_b.interactable_states@);
        assert(a == b);
        assert forall|k: u64|
            world_a.interactable_states@.dom().contains(k)
                == world_b.interactable_states@.dom().contains(k) by {
            assert(a.contains_key(k) == world_a.interactable_states@.contains_key(k));
            assert(b.contains_key(k) == world_b.interactable_states@.contains_key(k));
        }
    }
}

fn collect_sounds(asset: &WorldAsset, catalog: &Catalog) -> (sounds: NameMap<WorldSoundState>)
    ensures
        sounds@ == sounds_after(asset, catalog, asset.sounds.len() as int),
{
    let mut sounds: NameMap<WorldSoundState> = NameMap::new();
    let mut i: usize = 0;
    while i < asset.sounds.len()
        invariant
            i <= asset.sounds.len(),
            sounds@ == sounds_after(asset, catalog, i as int),
        decreases asset.sounds.len() - i,
    {
        let entry = &asset.sounds[i];
        match &entry.animatable {
            Some(key) => {
                if lookup(&catalog.sounds, entry.sound.as_str()).is_some() {
                    sounds.insert(
                        key.clone(),
                        WorldSoundState {
                            sound: entry.sound.clone(),
                            position: entry.translation,
                            panning: Real { bits: HALF_BITS },
                            volume: Real { bits: HALF_BITS },
                            paused: entry.paused,
                        },
                    );
                }
            },
            None => {},
        }
        i += 1;
    }
    sounds
}

impl WorldState {
    /// The state before any level was loaded.
    pub fn new() -> (world: Self)
        ensures
            world.interactable_states@ == Map::<u64, InteractableState>::empty(),
            world.animatables@ == Map::<Seq<char>, AnimatableState>::empty(),
            world.animatable_lights@ == Map::<Seq<char>, EntityId>::empty(),
            world.animatable_sounds@ == Map::<Seq<char>, WorldSoundState>::empty(),
            world.animatable_trains@ == Map::<Seq<char>, WorldTrainState>::empty(),
            world.doors@ == Map::<Seq<char>, DoorState>::empty(),
            world.active_train.is_none(),
            world.active_world@ == Seq::<char>::empty(),
    {
        WorldState {
            interactable_states: HashMap::new(),
            animatables: NameMap::new(),
            animatable_lights: NameMap::new(),
            animatable_sounds: NameMap::new(),
            animatable_trains: NameMap::new(),
            doors: NameMap::new(),
            active_train: None,
            active_world: String::new(),
        }
    }

    /// Replaces the live state by what `steps` register, once the engine has
    /// spawned an entity for each of them: `spawned[i]` for step `i`. Where
    /// the two lists differ in length nothing is changed.
    pub fn load(
        &mut self,
        loading: &mut WorldLoadingState,
        asset: &WorldAsset,
        catalog: &Catalog,
        steps: &Vec<SpawnStep>,
        spawned: &Vec<EntityId>,
    ) -> (loaded: bool)
        ensures
            loaded == (steps.len() == spawned.len()),
            loaded ==> loaded_from(final(self), final(loading), steps@, spawned@, asset, catalog),
            loaded ==> final(self).active_world == old(self).active_world && final(loading).inited
                == old(loading).inited,
            !loaded ==> *final(self) == *old(self) && *final(loading) == *old(loading),
    {
        if steps.len() != spawned.len() {
            return false;
        }
        let mut doors: NameMap<DoorState> = NameMap::new();
        let mut lights: NameMap<EntityId> = NameMap::new();
        let mut trains: NameMap<WorldTrainState> = NameMap::new();
        let mut interactables: HashMap<u64, InteractableState> = HashMap::new();
        let mut pending: NameMap<usize> = NameMap::new();
        assert(interactions_of(interactables@) =~= Map::<u64, InteractionView>::empty());
        let mut i: usize = 0;
        while i < steps.len()
            invariant
                i <= steps.len(),
                steps.len() == spawned.len(),
                ({
                    let r = registry_after(steps@, spawned@, asset, catalog, i as int);
                    &&& doors@ == r.doors
                    &&& lights@ == r.lights
                    &&& trains@ == r.trains
                    &&& interactions_of(interactables@) == r.interactables
                    &&& pending@ == r.pending
                }),
            decreases steps.len() - i,
        {
            let step = steps[i];
            let entity = spawned[i];
            let source = step.origin.source(asset, catalog);
            if let Some(source) = source {
                match step.kind {
                    SpawnKind::Door { .. } => {
                        if step.entry < source.doors.len() {
                            doors.insert(
                                source.doors[step.entry].name.clone(),
                                DoorState { parent_entity: Some(entity), open: false },
                            );
                        }
                    },
                    SpawnKind::Interactable { .. } => {
                        if step.entry < source.interactables.len() {
                            if let Some(rule) = &source.interactables[step.entry].interaction {
                                let ghost before = interactables@;
                                let state = InteractableState { interaction: rule.duplicate() };
                                interactables.insert(entity.bits, state);
                                assert(interactions_of(interactables@) =~= interactions_of(
                                    before,
                                ).insert(entity.bits, rule@));
                            }
                        }
                    },
                    SpawnKind::Light { .. } => {
                        if step.entry < source.lights.len() {
                            if let Some(key) = &source.lights[step.entry].animatable {
                                lights.insert(key.clone(), entity);
                            }
                        }
                    },
                    SpawnKind::Train { .. } => {
                        if step.entry < source.trains.len() {
                            if let Some(key) = &source.trains[step.entry].animatable {
                                trains.insert(
                                    key.clone(),
                                    WorldTrainState { parent_entity: Some(entity), running: false },
                                );
                            }
                        }
                    },
                    SpawnKind::Prop { scene } => {
                        if step.entry < source.props.len() && scene.is_some() {
                            if let Some(key) = &source.props[step.entry].animatable {
                                pending.insert(key.clone(), i);
                            }
                        }
                    },
                    SpawnKind::Collider { .. } => {},
                }
            }
            i += 1;
        }
        self.interactable_states = interactables;
        self.animatables = NameMap::new();
        self.animatable_lights = lights;
        self.animatable_sounds = collect_sounds(asset, catalog);
        self.animatable_trains = trains;
        self.doors = doors;
        self.active_train = None;
        loading.animatable_scenes = pending;
        loading.done = false;
        true
    }
}

impl WorldLoadingState {
    /// The state before any level was loaded.
    pub fn new() -> (loading: Self)
        ensures
            loading.animatable_scenes@ == Map::<Seq<char>, usize>::empty(),
            !loading.inited,
            !loading.done,
    {
        WorldLoadingState { animatable_scenes: NameMap::new(), inited: false, done: false }
    }
}

} // verus!
