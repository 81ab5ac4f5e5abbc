use grahams_relay::catalog::{lookup, Catalog, ColliderShape, LightKind, RenderMode};
use grahams_relay::entity::EntityId;
use grahams_relay::plan::{
    plan_world, skipped_entries, skipped_trains, CollisionGroup, Origin, Section, SpawnKind,
    SpawnStep,
};
use grahams_relay::schema::{
    Quat, Real, Vec3, WorldAsset, WorldCollider, WorldDoor, WorldInteractable, WorldInteraction,
    WorldLight, WorldProp, WorldSound, WorldTrain,
};
use grahams_relay::world_state::{
    DoorState, InteractableState, WorldLoadingState, WorldSoundState, WorldState, WorldTrainState,
};

fn num(x: f32) -> Real {
    Real { bits: x.to_bits() }
}

fn v3(x: f32, y: f32, z: f32) -> Vec3 {
    Vec3 { x: num(x), y: num(y), z: num(z) }
}

fn no_turn() -> Quat {
    Quat { x: num(0.0), y: num(0.0), z: num(0.0), w: num(1.0) }
}

fn prop(kind: &str, animatable: Option<&str>) -> WorldProp {
    WorldProp {
        prop: kind.to_string(),
        translation: v3(1.0, 0.0, 2.0),
        rotation: no_turn(),
        scale: v3(1.0, 1.0, 1.0),
        animatable: animatable.map(|s| s.to_string()),
    }
}

fn collider(shape: &str) -> WorldCollider {
    WorldCollider {
        shape: shape.to_string(),
        translation: v3(0.0, 0.0, 0.0),
        rotation: no_turn(),
        scale: v3(2.0, 1.0, 2.0),
    }
}

fn door(kind: &str, name: &str) -> WorldDoor {
    WorldDoor {
        prop: kind.to_string(),
        name: name.to_string(),
        translation: v3(0.0, 0.0, 0.0),
        rotation: no_turn(),
        scale: v3(1.0, 1.0, 1.0),
    }
}

fn rule(trigger: &str, text: &str) -> WorldInteraction {
    WorldInteraction {
        interaction: trigger.to_string(),
        interaction_text: text.to_string(),
        actions: vec![("toggle_door".to_string(), "front_door".to_string())],
        blockers: vec![],
    }
}

fn interactable(interaction: Option<WorldInteraction>) -> WorldInteractable {
    WorldInteractable {
        shape: "ball".to_string(),
        translation: v3(0.0, 1.0, 0.0),
        rotation: no_turn(),
        scale: v3(0.5, 0.5, 0.5),
        interaction,
    }
}

fn light(kind: &str, animatable: Option<&str>) -> WorldLight {
    WorldLight {
        light_type: kind.to_string(),
        translation: v3(0.0, 3.0, 0.0),
        rotation: no_turn(),
        scale: v3(1.0, 1.0, 1.0),
        watts: num(50.0),
        animatable: animatable.map(|s| s.to_string()),
    }
}

fn sound(kind: &str, paused: bool, animatable: Option<&str>) -> WorldSound {
    WorldSound {
        sound: kind.to_string(),
        translation: v3(4.0, 0.0, 4.0),
        paused,
        animatable: animatable.map(|s| s.to_string()),
    }
}

fn train(kind: &str, animatable: Option<&str>) -> WorldTrain {
    WorldTrain {
        prop: kind.to_string(),
        translation: v3(9.0, 0.0, 0.0),
        animatable: animatable.map(|s| s.to_string()),
    }
}

fn cargo() -> WorldAsset {
    WorldAsset {
        colliders: vec![collider("cuboid")],
        doors: vec![door("door_blue", "cabin_door")],
        interactables: vec![
            interactable(Some(rule("click", "Drive"))),
            interactable(Some(rule("near", "Board"))),
        ],
        lights: vec![light("point", Some("cabin_light"))],
        props: vec![prop("denki_train", Some("train_body")), prop("big_switch", None)],
        sounds: vec![sound("train_rolling", true, Some("cabin_hum"))],
        trains: vec![train("denki_train", Some("nested"))],
    }
}

fn catalog() -> Catalog {
    Catalog {
        props: vec!["big_switch".to_string(), "fuse_small".to_string(), "pallet".to_string()],
        door_props: vec!["door_blue".to_string()],
        train_props: vec!["denki_train".to_string()],
        sounds: vec!["generator".to_string(), "wind".to_string()],
        train_names: vec!["denki_train".to_string()],
        train_assets: vec![cargo()],
    }
}

fn world() -> WorldAsset {
    WorldAsset {
        colliders: vec![collider("cuboid"), collider("capsule")],
        doors: vec![door("door_blue", "front_door"), door("door_red", "back_door")],
        interactables: vec![interactable(Some(rule("near", "Open"))), interactable(None)],
        lights: vec![
            light("spot", None),
            light("point", Some("lamp")),
            light("neon", Some("sign")),
        ],
        props: vec![
            prop("pallet", None),
            prop("big_switch", Some("switch_01")),
            prop("unheard_of", Some("ghost")),
            prop("fuse_small", Some("fuse")),
        ],
        sounds: vec![
            sound("generator", false, Some("hum")),
            sound("wind", true, None),
            sound("unheard_of", false, Some("noise")),
        ],
        trains: vec![train("denki_train", Some("denki")), train("steam_train", Some("steam"))],
    }
}

fn step(kind: SpawnKind, entry: usize) -> SpawnStep {
    SpawnStep { kind, origin: Origin::World, entry }
}

fn expected_plan(full: bool) -> Vec<SpawnStep> {
    let scene = |h: usize| if full { Some(h) } else { None };
    vec![
        step(SpawnKind::Prop { scene: scene(2) }, 0),
        step(SpawnKind::Prop { scene: scene(0) }, 1),
        step(SpawnKind::Prop { scene: scene(1) }, 3),
        step(SpawnKind::Collider { shape: ColliderShape::Cuboid }, 0),
        step(SpawnKind::Door { scene: scene(0) }, 0),
        step(SpawnKind::Interactable { group: CollisionGroup::Cursor }, 0),
        step(SpawnKind::Light { kind: LightKind::Spot }, 0),
        step(SpawnKind::Light { kind: LightKind::Point }, 1),
        // the train stands at place 8, and what it carries names it as parent
        step(SpawnKind::Train { asset: 0 }, 0),
        SpawnStep {
            kind: SpawnKind::Collider { shape: ColliderShape::Cuboid },
            origin: Origin::Train { parent: 8, asset: 0 },
            entry: 0,
        },
        SpawnStep {
            kind: SpawnKind::Prop { scene: scene(0) },
            origin: Origin::Train { parent: 8, asset: 0 },
            entry: 0,
        },
        SpawnStep {
            kind: SpawnKind::Light { kind: LightKind::Point },
            origin: Origin::Train { parent: 8, asset: 0 },
            entry: 0,
        },
        SpawnStep {
            kind: SpawnKind::Interactable { group: CollisionGroup::Cursor },
            origin: Origin::Train { parent: 8, asset: 0 },
            entry: 0,
        },
        SpawnStep {
            kind: SpawnKind::Interactable { group: CollisionGroup::Proximity },
            origin: Origin::Train { parent: 8, asset: 0 },
            entry: 1,
        },
    ]
}

fn entities(n: usize, base: u64) -> Vec<EntityId> {
    (0..n as u64).map(|i| EntityId { bits: base + i }).collect()
}

#[test]
fn lookup_gives_the_first_place_of_a_name() {
    let names = vec!["a".to_string(), "b".to_string(), "a".to_string()];
    assert_eq!(lookup(&names, "a"), Some(0));
    assert_eq!(lookup(&names, "b"), Some(1));
    assert_eq!(lookup(&names, "c"), None);
    assert_eq!(lookup(&Vec::new(), "a"), None);
}

#[test]
fn kinds_are_known_by_name() {
    assert_eq!(RenderMode::from_name("colliders"), RenderMode::Colliders);
    assert_eq!(RenderMode::from_name("full"), RenderMode::Full);
    assert_eq!(RenderMode::from_name(""), RenderMode::Full);
    assert_eq!(ColliderShape::from_name("cuboid"), Some(ColliderShape::Cuboid));
    assert_eq!(ColliderShape::from_name("ball"), None);
    assert_eq!(LightKind::from_name("spot"), Some(LightKind::Spot));
    assert_eq!(LightKind::from_name("point"), Some(LightKind::Point));
    assert_eq!(LightKind::from_name("neon"), None);
    assert_eq!(catalog().train("denki_train"), Some(0));
    assert_eq!(catalog().train("steam_train"), None);
}

#[test]
fn a_train_kind_without_a_description_is_not_known() {
    let mut c = catalog();
    c.train_names.push("steam_train".to_string());
    assert_eq!(c.train("steam_train"), None);
}

#[test]
fn collision_groups_have_their_own_bits() {
    assert_eq!(CollisionGroup::Solid.mask(), 0b0001);
    assert_eq!(CollisionGroup::Proximity.mask(), 0b0010);
    assert_eq!(CollisionGroup::Cursor.mask(), 0b0100);
}

#[test]
fn the_plan_lists_what_is_known_in_the_order_of_the_file() {
    let steps = plan_world(&world(), &catalog(), RenderMode::Full);
    assert_eq!(steps, expected_plan(true));
}

#[test]
fn no_scene_is_instantiated_when_only_colliders_are_drawn() {
    let steps = plan_world(&world(), &catalog(), RenderMode::Colliders);
    assert_eq!(steps, expected_plan(false));
}

#[test]
fn an_empty_world_needs_no_step() {
    let steps = plan_world(&WorldAsset::default(), &catalog(), RenderMode::Full);
    assert_eq!(steps, Vec::new());
}

#[test]
fn a_second_train_names_its_own_step_as_parent() {
    let mut w = WorldAsset::default();
    w.trains = vec![train("denki_train", None), train("denki_train", None)];
    let mut c = catalog();
    c.train_assets = vec![WorldAsset { colliders: vec![collider("cuboid")], ..WorldAsset::default() }];
    let steps = plan_world(&w, &c, RenderMode::Full);
    assert_eq!(
        steps,
        vec![
            step(SpawnKind::Train { asset: 0 }, 0),
            SpawnStep {
                kind: SpawnKind::Collider { shape: ColliderShape::Cuboid },
                origin: Origin::Train { parent: 0, asset: 0 },
                entry: 0,
            },
            step(SpawnKind::Train { asset: 0 }, 1),
            SpawnStep {
                kind: SpawnKind::Collider { shape: ColliderShape::Cuboid },
                origin: Origin::Train { parent: 2, asset: 0 },
                entry: 0,
            },
        ]
    );
}

#[test]
fn a_load_registers_what_was_spawned() {
    let asset = world();
    let cat = catalog();
    let steps = plan_world(&asset, &cat, RenderMode::Full);
    let spawned = entities(steps.len(), 100);
    let mut live = WorldState::new();
    let mut loading = WorldLoadingState::new();
    assert!(live.load(&mut loading, &asset, &cat, &steps, &spawned));

    assert_eq!(live.doors.len(), 1);
    assert_eq!(
        live.doors.get("front_door"),
        Some(&DoorState { parent_entity: Some(EntityId { bits: 104 }), open: false })
    );
    assert_eq!(live.animatable_lights.len(), 2);
    assert_eq!(live.animatable_lights.get("lamp"), Some(&EntityId { bits: 107 }));
    assert_eq!(live.animatable_lights.get("cabin_light"), Some(&EntityId { bits: 111 }));
    assert_eq!(live.animatable_lights.get("sign"), None);
    assert_eq!(live.animatable_trains.len(), 1);
    assert_eq!(
        live.animatable_trains.get("denki"),
        Some(&WorldTrainState { parent_entity: Some(EntityId { bits: 108 }), running: false })
    );
    assert_eq!(live.interactable_states.len(), 3);
    assert_eq!(
        live.interactable_states.get(&105),
        Some(&InteractableState { interaction: rule("near", "Open") })
    );
    assert_eq!(
        live.interactable_states.get(&112),
        Some(&InteractableState { interaction: rule("click", "Drive") })
    );
    assert_eq!(
        live.interactable_states.get(&113),
        Some(&InteractableState { interaction: rule("near", "Board") })
    );
    assert_eq!(live.animatable_sounds.len(), 1);
    assert_eq!(
        live.animatable_sounds.get("hum"),
        Some(&WorldSoundState {
            sound: "generator".to_string(),
            position: v3(4.0, 0.0, 4.0),
            panning: num(0.5),
            volume: num(0.5),
            paused: false,
        })
    );
    assert!(live.animatables.is_empty());
    assert_eq!(live.active_train, None);

    assert_eq!(loading.animatable_scenes.len(), 3);
    assert_eq!(loading.animatable_scenes.get("switch_01"), Some(&1));
    assert_eq!(loading.animatable_scenes.get("fuse"), Some(&2));
    assert_eq!(loading.animatable_scenes.get("train_body"), Some(&10));
    assert_eq!(loading.animatable_scenes.get("ghost"), None);
    assert!(!loading.done);
}

#[test]
fn nothing_is_pending_when_only_colliders_are_drawn() {
    let asset = world();
    let cat = catalog();
    let steps = plan_world(&asset, &cat, RenderMode::Colliders);
    let spawned = entities(steps.len(), 100);
    let mut live = WorldState::new();
    let mut loading = WorldLoadingState::new();
    assert!(live.load(&mut loading, &asset, &cat, &steps, &spawned));
    assert!(loading.animatable_scenes.is_empty());
    assert_eq!(live.doors.len(), 1);
    assert_eq!(live.interactable_states.len(), 3);
}

#[test]
fn a_load_with_the_wrong_number_of_entities_changes_nothing() {
    let asset = world();
    let cat = catalog();
    let steps = plan_world(&asset, &cat, RenderMode::Full);
    let mut live = WorldState::new();
    live.active_train = Some("old".to_string());
    live.doors.insert("old_door".to_string(), DoorState { parent_entity: None, open: true });
    let mut loading = WorldLoadingState::new();
    loading.done = true;
    assert!(!live.load(&mut loading, &asset, &cat, &steps, &entities(steps.len() - 1, 100)));
    assert_eq!(live.active_train, Some("old".to_string()));
    assert!(live.doors.contains_key("old_door"));
    assert!(loading.done);
}

#[test]
fn a_reload_leaves_nothing_of_the_level_before() {
    let cat = catalog();
    let mut live = WorldState::new();
    let mut loading = WorldLoadingState::new();
    live.active_world = "world01".to_string();
    let first = world();
    let steps = plan_world(&first, &cat, RenderMode::Full);
    assert!(live.load(&mut loading, &first, &cat, &steps, &entities(steps.len(), 100)));
    live.active_train = Some("denki".to_string());
    loading.done = true;

    let second = WorldAsset { doors: vec![door("door_blue", "cellar_door")], ..WorldAsset::default() };
    let steps = plan_world(&second, &cat, RenderMode::Full);
    assert!(live.load(&mut loading, &second, &cat, &steps, &entities(steps.len(), 500)));
    assert_eq!(live.doors.len(), 1);
    assert!(live.doors.contains_key("cellar_door"));
    assert!(live.animatable_lights.is_empty());
    assert!(live.animatable_sounds.is_empty());
    assert!(live.animatable_trains.is_empty());
    assert!(live.interactable_states.is_empty());
    assert!(loading.animatable_scenes.is_empty());
    assert_eq!(live.active_train, None);
    assert_eq!(live.active_world, "world01");
    assert!(!loading.done);
}

#[test]
fn loading_twice_gives_the_same_keys() {
    let asset = world();
    let cat = catalog();
    let mut live = WorldState::new();
    let mut loading = WorldLoadingState::new();
    let steps_a = plan_world(&asset, &cat, RenderMode::Full);
    assert!(live.load(&mut loading, &asset, &cat, &steps_a, &entities(steps_a.len(), 100)));
    let keys = |m: &grahams_relay::name_map::NameMap<DoorState>| {
        (0..m.len()).map(|i| m.name_at(i).clone()).collect::<Vec<String>>()
    };
    let doors_a = keys(&live.doors);
    let lights_a: Vec<String> =
        (0..live.animatable_lights.len()).map(|i| live.animatable_lights.name_at(i).clone()).collect();
    let pending_a: Vec<String> = (0..loading.animatable_scenes.len())
        .map(|i| loading.animatable_scenes.name_at(i).clone())
        .collect();
    let mut hit_a: Vec<u64> = live.interactable_states.keys().copied().collect();
    hit_a.sort();

    let steps_b = plan_world(&asset, &cat, RenderMode::Full);
    assert_eq!(steps_a, steps_b);
    assert!(live.load(&mut loading, &asset, &cat, &steps_b, &entities(steps_b.len(), 100)));
    assert_eq!(keys(&live.doors), doors_a);
    let lights_b: Vec<String> =
        (0..live.animatable_lights.len()).map(|i| live.animatable_lights.name_at(i).clone()).collect();
    let pending_b: Vec<String> = (0..loading.animatable_scenes.len())
        .map(|i| loading.animatable_scenes.name_at(i).clone())
        .collect();
    let mut hit_b: Vec<u64> = live.interactable_states.keys().copied().collect();
    hit_b.sort();
    assert_eq!(lights_a, lights_b);
    assert_eq!(pending_a, pending_b);
    assert_eq!(hit_a, hit_b);
    assert_eq!(hit_a, vec![105, 112, 113]);
}

#[test]
fn a_later_entry_of_the_same_name_wins() {
    let asset = WorldAsset {
        doors: vec![door("door_blue", "gate"), door("door_blue", "gate")],
        ..WorldAsset::default()
    };
    let cat = catalog();
    let steps = plan_world(&asset, &cat, RenderMode::Full);
    assert_eq!(steps.len(), 2);
    let mut live = WorldState::new();
    let mut loading = WorldLoadingState::new();
    assert!(live.load(&mut loading, &asset, &cat, &steps, &entities(2, 40)));
    assert_eq!(live.doors.len(), 1);
    assert_eq!(
        live.doors.get("gate"),
        Some(&DoorState { parent_entity: Some(EntityId { bits: 41 }), open: false })
    );
}

#[test]
fn a_step_that_names_no_entry_registers_nothing() {
    let asset = WorldAsset::default();
    let cat = catalog();
    let steps = vec![
        step(SpawnKind::Door { scene: None }, 3),
        SpawnStep {
            kind: SpawnKind::Light { kind: LightKind::Point },
            origin: Origin::Train { parent: 0, asset: 7 },
            entry: 0,
        },
    ];
    let mut live = WorldState::new();
    let mut loading = WorldLoadingState::new();
    assert!(live.load(&mut loading, &asset, &cat, &steps, &entities(2, 1)));
    assert!(live.doors.is_empty());
    assert!(live.animatable_lights.is_empty());
}

#[test]
fn what_the_plan_leaves_out_is_reported() {
    let asset = world();
    let cat = catalog();
    let skipped = |section| skipped_entries(section, &asset, &cat, RenderMode::Full, Origin::World);
    assert_eq!(skipped(Section::Props), vec![2]);
    assert_eq!(skipped(Section::Colliders), vec![1]);
    assert_eq!(skipped(Section::Doors), vec![1]);
    assert_eq!(skipped(Section::Interactables), vec![1]);
    assert_eq!(skipped(Section::Lights), vec![2]);
    assert_eq!(skipped_trains(&asset, &cat), vec![1]);
    let on_train = Origin::Train { parent: 8, asset: 0 };
    assert_eq!(
        skipped_entries(Section::Props, &cargo(), &cat, RenderMode::Full, on_train),
        vec![1]
    );
}

#[test]
fn every_step_of_a_plan_names_an_entry_and_a_scene() {
    let asset = world();
    let cat = catalog();
    let steps = plan_world(&asset, &cat, RenderMode::Full);
    for (at, step) in steps.iter().enumerate() {
        let source = step.origin.source(&asset, &cat).unwrap();
        match step.kind {
            SpawnKind::Prop { scene } => {
                assert!(step.entry < source.props.len());
                let names = match step.origin {
                    Origin::World => &cat.props,
                    Origin::Train { .. } => &cat.train_props,
                };
                assert_eq!(names[scene.unwrap()], source.props[step.entry].prop);
            }
            SpawnKind::Collider { .. } => assert!(step.entry < source.colliders.len()),
            SpawnKind::Door { scene } => {
                assert_eq!(cat.door_props[scene.unwrap()], source.doors[step.entry].prop)
            }
            SpawnKind::Interactable { .. } => {
                assert!(source.interactables[step.entry].interaction.is_some())
            }
            SpawnKind::Light { .. } => assert!(step.entry < source.lights.len()),
            SpawnKind::Train { asset: k } => {
                assert_eq!(cat.train_names[k], source.trains[step.entry].prop)
            }
        }
        if let Origin::Train { parent, asset: k } = step.origin {
            assert!(parent < at);
            assert_eq!(steps[parent].kind, SpawnKind::Train { asset: k });
        }
    }
}
