//! Following the scenes that are still being instantiated until each has a
//! root entity, and then declaring the level ready.

use vstd::prelude::*;
use crate::entity::{ordinal_of, EntityId};
use crate::schema::names_view;
use crate::text::{has_prefix, starts_with};
use crate::world_state::{AnimatableState, WorldLoadingState, WorldState};

verus! {

/// Which of the entities that a scene has produced stands for the scene.
#[derive(Clone, Copy, Debug, PartialEq, Eq, Structural)]
pub enum TieBreak {
    /// The entity with the lowest ordinal.
    Lowest,
    /// The entity with the third-lowest ordinal: the engine is taken to put
    /// two bookkeeping entities before the root.
    ThirdLowest,
}

/// A scene that is still being instantiated: the animatable it is for and
/// the step that asked for it.
#[derive(Clone, Debug, PartialEq, Eq)]
pub struct PendingScene {
    pub key: String,
    pub step: usize,
}

/// What the tracker asks of its caller at the start of a tick.
#[derive(Clone, Debug, PartialEq, Eq)]
pub enum LoadingPoll {
    /// The level was declared ready before: nothing to do.
    Idle,
    /// Nothing is pending any more: the level is ready. The caller hides the
    /// loading overlay, resumes the physics and moves on to gameplay.
    Ready,
    /// These scenes are to be asked for the entities they have produced, each
    /// answer to be handed to `record`.
    Waiting(Vec<PendingScene>),
}

/// `s[k]` has the lowest ordinal in `s`, and is the first that has it.
pub open spec fn lowest_at(s: Seq<EntityId>, k: int) -> bool {
    &&& 0 <= k < s.len()
    &&& forall|i: int| 0 <= i < s.len() ==> ordinal_of(s[k].bits) <= ordinal_of(#[trigger] s[i].bits)
    &&& forall|i: int| 0 <= i < k ==> ordinal_of(s[k].bits) < ordinal_of(#[trigger] s[i].bits)
}

/// `s[c]` has the third-lowest ordinal in `s`: `s[a]` and `s[b]` are not
/// above it, and everything else is not below it.
pub open spec fn third_lowest_at(s: Seq<EntityId>, a: int, b: int, c: int) -> bool {
    &&& 0 <= a < s.len() && 0 <= b < s.len() && 0 <= c < s.len()
    &&& a != b && a != c && b != c
    &&& ordinal_of(s[a].bits) <= ordinal_of(s[b].bits) <= ordinal_of(s[c].bits)
    &&& forall|m: int|
        0 <= m < s.len() && m != a && m != b ==> ordinal_of(s[c].bits) <= ordinal_of(
            #[trigger] s[m].bits,
        )
}

/// Whether `e` is the entity that `rule` picks from `s`.
pub open spec fn chosen(rule: TieBreak, s: Seq<EntityId>, e: EntityId) -> bool {
    match rule {
        TieBreak::Lowest => exists|k: int| #[trigger] lowest_at(s, k) && s[k] == e,
        TieBreak::ThirdLowest => exists|a: int, b: int, c: int| #[trigger]
            third_lowest_at(s, a, b, c) && s[c] == e,
    }
}

/// Whether `s` holds too few entities for `rule` to pick one.
pub open spec fn too_few(rule: TieBreak, s: Seq<EntityId>) -> bool {
    match rule {
        TieBreak::Lowest => s.len() < 1,
        TieBreak::ThirdLowest => s.len() < 3,
    }
}

/// The animation clips of the animatable called `key`: the switch clip for a
/// key that begins with `switch`, none for any other.
pub open spec fn clips_for(key: Seq<char>) -> Seq<Seq<char>> {
    if has_prefix(key, "switch"@) {
        seq!["props/big_switch.glb#Animation3"@]
    } else {
        Seq::empty()
    }
}

/// The entity with the lowest ordinal among `produced`.
pub fn pick_lowest(produced: &Vec<EntityId>) -> (picked: Option<EntityId>)
    ensures
        match picked {
            Some(e) => chosen(TieBreak::Lowest, produced@, e),
            None => too_few(TieBreak::Lowest, produced@),
        },
{
    if produced.len() == 0 {
        return None;
    }
    let mut best: usize = 0;
    let mut i: usize = 1;
    while i < produced.len()
        invariant
            best < i <= produced.len(),
            forall|j: int|
                0 <= j < i ==> ordinal_of(produced[best as int].bits) <= ordinal_of(
                    #[trigger] produced[j].bits,
                ),
            forall|j: int|
                0 <= j < best ==> ordinal_of(produced[best as int].bits) < ordinal_of(
                    #[trigger] produced[j].bits,
                ),
        decreases produced.len() - i,
    {
        if produced[i].ordinal() < produced[best].ordinal() {
            best = i;
        }
        i += 1;
    }
    assert(lowest_at(produced@, best as int));
    Some(produced[best])
}

/// The entity with the third-lowest ordinal among `produced`.
pub fn pick_third_lowest(produced: &Vec<EntityId>) -> (picked: Option<EntityId>)
    ensures
        match picked {
            Some(e) => chosen(TieBreak::ThirdLowest, produced@, e),
            None => too_few(TieBreak::ThirdLowest, produced@),
        },
{
    let n = produced.len();
    if n < 3 {
        return None;
    }
    // the places of the lowest, the second and the third among those seen
    let mut first: usize = 0;
    let mut second: usize = 0;
    let mut third: usize = 0;
    let mut i: usize = 0;
    while i < n
        invariant
            i <= n == produced.len(),
            i >= 1 ==> first < i,
            i >= 2 ==> second < i && second != first,
            i >= 3 ==> third < i && third != first && third != second,
            i >= 2 ==> ordinal_of(produced[first as int].bits) <= ordinal_of(
                produced[second as int].bits,
            ),
            i >= 3 ==> ordinal_of(produced[second as int].bits) <= ordinal_of(
                produced[third as int].bits,
            ),
            i >= 1 ==> forall|m: int|
                0 <= m < i ==> ordinal_of(produced[first as int].bits) <= ordinal_of(
                    #[trigger] produced[m].bits,
                ),
            i >= 2 ==> forall|m: int|
                0 <= m < i && m != first ==> ordinal_of(produced[second as int].bits)
                    <= ordinal_of(#[trigger] produced[m].bits),
            i >= 3 ==> forall|m: int|
                0 <= m < i && m != first && m != second ==> ordinal_of(
                    produced[third as int].bits,
                ) <= ordinal_of(#[trigger] produced[m].bits),
        decreases n - i,
    {
        let ordinal = produced[i].ordinal();
        if i == 0 || ordinal < produced[first].ordinal() {
            third = second;
            second = first;
            first = i;
        } else if i == 1 || ordinal < produced[second].ordinal() {
            third = second;
            second = i;
        } else if i == 2 || ordinal < produced[third].ordinal() {
            third = i;
        }
        i += 1;
    }
    assert(third_lowest_at(produced@, first as int, second as int, third as int));
    Some(produced[third])
}

/// The entity that `rule` picks from `produced`.
pub fn pick(rule: TieBreak, produced: &Vec<EntityId>) -> (picked: Option<EntityId>)
    ensures
        match picked {
            Some(e) => chosen(rule, produced@, e),
            None => too_few(rule, produced@),
        },
        picked.is_none() == too_few(rule, produced@),
{
    match rule {
        TieBreak::Lowest => pick_lowest(produced),
        TieBreak::ThirdLowest => pick_third_lowest(produced),
    }
}

/// The animation clips of the animatable called `key`.
pub fn clips_of(key: &str) -> (clips: Vec<String>)
    ensures
        names_view(clips@) == clips_for(key@),
{
    let mut clips: Vec<String> = Vec::new();
    if starts_with(key, "switch") {
        clips.push("props/big_switch.glb#Animation3".to_owned());
    }
    assert(names_view(clips@) =~= clips_for(key@));
    clips
}

impl WorldLoadingState {
    /// Starts a tick of loading. Once the level was declared ready there is
    /// nothing to do. Else, where nothing is pending, the level is declared
    /// ready now; where something is, the caller gets the pending scenes in
    /// the order in which they were asked for.
    pub fn begin_tick(&mut self) -> (poll: LoadingPoll)
        ensures
            final(self).animatable_scenes == old(self).animatable_scenes,
            final(self).inited == old(self).inited,
            final(self).done == (old(self).done || old(self).animatable_scenes@
                == Map::<Seq<char>, usize>::empty()),
            match poll {
                LoadingPoll::Idle => old(self).done,
                LoadingPoll::Ready => !old(self).done && final(self).done,
                LoadingPoll::Waiting(scenes) => {
                    &&& !final(self).done
                    &&& scenes.len() == old(self).animatable_scenes.names().len()
                    &&& forall|i: int|
                        0 <= i < scenes.len() ==> {
                            &&& (#[trigger] scenes[i]).key@ == old(self).animatable_scenes.names()[i]
                            &&& old(self).animatable_scenes@.contains_key(scenes[i].key@)
                            &&& scenes[i].step == old(self).animatable_scenes@[scenes[i].key@]
                        }
                },
            },
    {
        if self.done {
            return LoadingPoll::Idle;
        }
        if self.animatable_scenes.is_empty() {
            self.done = true;
            return LoadingPoll::Ready;
        }
        let n = self.animatable_scenes.len();
        let mut scenes: Vec<PendingScene> = Vec::new();
        let mut i: usize = 0;
        while i < n
            invariant
                i <= n == self.animatable_scenes.names().len(),
                scenes.len() == i,
                forall|j: int|
                    0 <= j < i ==> {
                        &&& (#[trigger] scenes[j]).key@ == self.animatable_scenes.names()[j]
                        &&& self.animatable_scenes@.contains_key(scenes[j].key@)
                        &&& scenes[j].step == self.animatable_scenes@[scenes[j].key@]
                    },
            decreases n - i,
        {
            let key = self.animatable_scenes.name_at(i).clone();
            let step = *self.animatable_scenes.value_at(i);
            scenes.push(PendingScene { key, step });
            i += 1;
        }
        LoadingPoll::Waiting(scenes)
    }

    /// Takes in what the scene of the animatable `key` has produced so far.
    /// Where the scene is pending and `rule` can pick its root, the
    /// animatable is registered with that root and its clips, the scene is
    /// pending no longer, and the root is returned. Else nothing changes.
    pub fn record(
        &mut self,
        world: &mut WorldState,
        key: &str,
        produced: &Vec<EntityId>,
        rule: TieBreak,
    ) -> (resolved: Option<EntityId>)
        ensures
            resolved.is_some() == (old(self).animatable_scenes@.contains_key(key@) && !too_few(
                rule,
                produced@,
            )),
            final(self).inited == old(self).inited,
            final(self).done == old(self).done,
            final(world).interactable_states == old(world).interactable_states,
            final(world).animatable_lights == old(world).animatable_lights,
            final(world).animatable_sounds == old(world).animatable_sounds,
            final(world).animatable_trains == old(world).animatable_trains,
            final(world).doors == old(world).doors,
            final(world).active_train == old(world).active_train,
            final(world).active_world == old(world).active_world,
            match resolved {
                Some(root) => {
                    &&& chosen(rule, produced@, root)
                    &&& final(self).animatable_scenes@ == old(self).animatable_scenes@.remove(key@)
                    &&& final(world).animatables@.dom() == old(world).animatables@.dom().insert(
                        key@,
                    )
                    &&& final(world).animatables@[key@].scene_entity == Some(root)
                    &&& names_view(final(world).animatables@[key@].clips@) == clips_for(key@)
                    &&& forall|k: Seq<char>|
                        k != key@ && old(world).animatables@.contains_key(k) ==> final(world).animatables@[k] == old(world).animatables@[k]
                },
                None => {
                    &&& final(self).animatable_scenes == old(self).animatable_scenes
                    &&& final(world).animatables == old(world).animatables
                },
            },
    {
        if !self.animatable_scenes.contains_key(key) {
            return None;
        }
        match pick(rule, produced) {
            Some(root) => {
                let state = AnimatableState { scene_entity: Some(root), clips: clips_of(key) };
                world.animatables.insert(key.to_owned(), state);
                self.animatable_scenes.remove(key);
                Some(root)
            },
            None => None,
        }
    }
}

} // verus!
