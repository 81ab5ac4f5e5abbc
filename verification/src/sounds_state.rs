//! Sound channels: playing or paused, and where they are heard from.

use vstd::prelude::*;
use crate::events::{SoundsEvent, SoundsEventAction};
use crate::name_map::NameMap;
use crate::schema::{names_view, Real, Vec3, FIFTH_BITS, HALF_BITS};
use crate::text::same_text;
use crate::world_state::WorldSoundState;

verus! {

/// What to tell the mixer about a channel.
#[derive(Clone, Copy, Debug, PartialEq, Eq, Structural)]
pub enum ChannelCommand {
    Pause,
    Resume,
}

/// Whether a channel is paused after `action`.
pub open spec fn paused_after(action: SoundsEventAction, paused: bool) -> bool {
    match action {
        SoundsEventAction::Pause => true,
        SoundsEventAction::Resume => false,
        SoundsEventAction::Toggle => !paused,
    }
}

/// Whether the channel called `name` follows the listener instead of having
/// a place in the world: the player's steps and the rolling of the train.
pub open spec fn follows_listener(name: Seq<char>) -> bool {
    name == "train"@ || name == "footsteps"@
}

/// Whether panning and volume of a channel are to be worked out anew in each
/// tick: it plays, and it has a place in the world.
pub open spec fn is_spatial(name: Seq<char>, channel: WorldSoundState) -> bool {
    !channel.paused && !follows_listener(name)
}

/// Handles a request to a sound channel. A channel that is known is paused
/// or resumed as the request says, and the caller gets what to tell the
/// mixer. For any other name nothing changes.
pub fn update_sounds_interaction(
    sounds: &mut NameMap<WorldSoundState>,
    event: &SoundsEvent,
) -> (command: Option<ChannelCommand>)
    ensures
        match command {
            Some(c) => {
                &&& old(sounds)@.contains_key(event.name@)
                &&& c == if paused_after(event.action, old(sounds)@[event.name@].paused) {
                    ChannelCommand::Pause
                } else {
                    ChannelCommand::Resume
                }
                &&& final(sounds)@ == old(sounds)@.insert(
                    event.name@,
                    WorldSoundState {
                        paused: paused_after(event.action, old(sounds)@[event.name@].paused),
                        ..old(sounds)@[event.name@]
                    },
                )
            },
            None => !old(sounds)@.contains_key(event.name@) && *final(sounds) == *old(sounds),
        },
{
    let next = match sounds.get(event.name.as_str()) {
        Some(channel) => {
            let paused = match event.action {
                SoundsEventAction::Pause => true,
                SoundsEventAction::Resume => false,
                SoundsEventAction::Toggle => !channel.paused,
            };
            Some(
                WorldSoundState {
                    sound: channel.sound.clone(),
                    position: channel.position,
                    panning: channel.panning,
                    volume: channel.volume,
                    paused,
                },
            )
        },
        None => None,
    };
    match next {
        Some(channel) => {
            let command = if channel.paused {
                ChannelCommand::Pause
            } else {
                ChannelCommand::Resume
            };
            sounds.insert(event.name.clone(), channel);
            Some(command)
        },
        None => None,
    }
}

/// Adds the two channels that follow the listener, both paused: the
/// player's steps and the rolling of the train.
pub fn setup_sounds_interaction(sounds: &mut NameMap<WorldSoundState>)
    ensures
        final(sounds)@.dom() == old(sounds)@.dom().insert("footsteps"@).insert("train"@),
        forall|k: Seq<char>|
            old(sounds)@.contains_key(k) && !follows_listener(k) ==> final(sounds)@[k] == old(
                sounds,
            )@[k],
        final(sounds)@["footsteps"@].sound@ == "steps_snow_dry"@,
        final(sounds)@["footsteps"@].paused,
        final(sounds)@["footsteps"@].volume == (Real { bits: FIFTH_BITS }),
        final(sounds)@["train"@].sound@ == "train_rolling"@,
        final(sounds)@["train"@].paused,
        final(sounds)@["train"@].volume == (Real { bits: HALF_BITS }),
{
    let zero = Real { bits: 0 };
    let half = Real { bits: HALF_BITS };
    let fifth = Real { bits: FIFTH_BITS };
    let origin = Vec3 { x: zero, y: zero, z: zero };
    proof {
        reveal_strlit("footsteps");
        reveal_strlit("train");
        assert("footsteps"@.len() != "train"@.len());
    }
    sounds.insert(
        "footsteps".to_owned(),
        WorldSoundState {
            sound: "steps_snow_dry".to_owned(),
            position: origin,
            panning: half,
            volume: fifth,
            paused: true,
        },
    );
    sounds.insert(
        "train".to_owned(),
        WorldSoundState {
            sound: "train_rolling".to_owned(),
            position: origin,
            panning: half,
            volume: half,
            paused: true,
        },
    );
    assert(sounds@.dom() =~= old(sounds)@.dom().insert("footsteps"@).insert("train"@));
}

/// The channels whose panning and volume are to be worked out anew, in the
/// order in which the channels were added.
pub fn spatial_channels(sounds: &NameMap<WorldSoundState>) -> (names: Vec<String>)
    ensures
        names_view(names@) == sounds.names().filter(
            |k: Seq<char>| is_spatial(k, sounds@[k]),
        ),
{
    let ghost pred = |k: Seq<char>| is_spatial(k, sounds@[k]);
    let n = sounds.len();
    let mut names: Vec<String> = Vec::new();
    let mut i: usize = 0;
    proof {
        reveal(Seq::filter);
        assert(sounds.names().take(0) =~= Seq::<Seq<char>>::empty());
        assert(names_view(names@) =~= sounds.names().take(0).filter(pred));
    }
    while i < n
        invariant
            i <= n == sounds.names().len(),
            pred == |k: Seq<char>| is_spatial(k, sounds@[k]),
            names_view(names@) == sounds.names().take(i as int).filter(pred),
        decreases n - i,
    {
        let name = sounds.name_at(i);
        let channel = sounds.value_at(i);
        let ghost next = sounds.names().take(i as int + 1);
        proof {
            reveal(Seq::filter);
            assert(next.drop_last() =~= sounds.names().take(i as int));
            assert(next.last() == name@);
        }
        if !channel.paused && !same_text(name.as_str(), "train") && !same_text(
            name.as_str(),
            "footsteps",
        ) {
            let ghost kept = names_view(names@);
            names.push(name.clone());
            assert(names_view(names@) =~= kept.push(name@));
        }
        i += 1;
    }
    assert(sounds.names().take(n as int) =~= sounds.names());
    names
}

/// Keeps the panning and volume that were worked out for a channel. For a
/// name that is not known nothing changes.
pub fn set_mix(sounds: &mut NameMap<WorldSoundState>, name: &str, panning: Real, volume: Real) -> (kept: bool)
    ensures
        kept == old(sounds)@.contains_key(name@),
        kept ==> final(sounds)@ == old(sounds)@.insert(
            name@,
            WorldSoundState { panning, volume, ..old(sounds)@[name@] },
        ),
        !kept ==> *final(sounds) == *old(sounds),
{
    let next = match sounds.get(name) {
        Some(channel) => Some(
            WorldSoundState {
                sound: channel.sound.clone(),
                position: channel.position,
                panning,
                volume,
                paused: channel.paused,
            },
        ),
        None => None,
    };
    match next {
        Some(channel) => {
            sounds.insert(name.to_owned(), channel);
            true
        },
        None => false,
    }
}

} // verus!
