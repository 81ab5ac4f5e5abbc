//! The verified core of a first-person exploration game.
//!
//! A level is described by a world file ([`schema`]). From the description and
//! a catalog of resources ([`catalog`]) the core lists what is to be spawned
//! ([`plan`]); once the engine has spawned it, the core keeps the live state
//! of the level ([`world_state`]) and follows the scenes that are still being
//! instantiated until the level is ready ([`completion`]). While the level is
//! played, the core decides what the player aims at and what an activation
//! does ([`interactable_state`], [`events`]), and it holds the small state
//! machines of doors, lights, sounds, trains and animatables, the inventory
//! and the flags of the player's progress, and the phases of a session
//! ([`game_state`]).
//!
//! The core never talks to the engine. It takes plain values in and hands
//! plain values back: entities by their identifier ([`entity`]), numbers of
//! the world file by their bit pattern, time in microseconds.

pub mod animatable_state;
pub mod catalog;
pub mod character_loading;
pub mod completion;
pub mod door_state;
pub mod entity;
pub mod events;
pub mod game_state;
pub mod interactable_state;
pub mod inventory_state;
pub mod key_input;
pub mod lights_state;
pub mod mouse_input;
pub mod movement_state;
pub mod name_map;
pub mod plan;
pub mod schema;
pub mod sounds_state;
pub mod text;
pub mod trains_state;
pub mod world_flags;
pub mod world_state;
