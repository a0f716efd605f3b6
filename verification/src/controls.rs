//! Reading the keyboard: which keys steer the ship and which one fires.
//!
//! The keyboard's state is bevy's [`Input`] of [`KeyCode`], which stays
//! opaque here. What is known of it is what [`held`] and [`struck`] name, and
//! the two functions that read it are trusted to report those sets.

use vstd::prelude::*;
use bevy::input::keyboard::KeyCode;
use bevy::input::Input;
use std::hash::Hash;
use crate::ship::Steering;

verus! {

/// `bevy::input::Input`, the record of which buttons are down.
#[verifier::external_type_specification]
#[verifier::external_body]
#[verifier::reject_recursive_types(T)]
pub struct ExInput<T: Copy + Eq + Hash + Send + Sync + 'static>(Input<T>);

/// `bevy::input::keyboard::KeyCode`, the name of a key.
#[verifier::external_type_specification]
#[verifier::external_body]
pub struct ExKeyCode(KeyCode);

/// The keys that the rules listen to.
#[derive(Clone, Copy, Debug, PartialEq, Eq, Structural)]
pub enum Key {
    /// The up arrow.
    Up,
    /// The letter W.
    W,
    /// The down arrow.
    Down,
    /// The letter S.
    S,
    /// The right arrow.
    Right,
    /// The letter D.
    D,
    /// The left arrow.
    Left,
    /// The letter A.
    A,
    /// The space bar.
    Space,
}

/// Those of the keys that `input` records as down.
pub uninterp spec fn held(input: Input<KeyCode>) -> Set<Key>;

/// Those of the keys that `input` records as having gone down since it was
/// last cleared.
pub uninterp spec fn struck(input: Input<KeyCode>) -> Set<Key>;

/// Calls `Input::pressed` with the key code that `key` stands for. Trusted:
/// the answer is whether `key` is among the keys that `input` holds as down,
/// which is the set that `held` names.
#[verifier::external_body]
fn pressed(input: &Input<KeyCode>, key: Key) -> (down: bool)
    ensures
        down == held(*input).contains(key),
{
    input.pressed(match key {
        Key::Up => KeyCode::Up,
        Key::W => KeyCode::W,
        Key::Down => KeyCode::Down,
        Key::S => KeyCode::S,
        Key::Right => KeyCode::Right,
        Key::D => KeyCode::D,
        Key::Left => KeyCode::Left,
        Key::A => KeyCode::A,
        Key::Space => KeyCode::Space,
    })
}

/// Calls `Input::just_pressed` with the key code that `key` stands for.
/// Trusted: the answer is whether `key` is among the keys that `input` holds
/// as just pressed, which is the set that `struck` names.
#[verifier::external_body]
fn just_pressed(input: &Input<KeyCode>, key: Key) -> (fresh: bool)
    ensures
        fresh == struck(*input).contains(key),
{
    input.just_pressed(match key {
        Key::Up => KeyCode::Up,
        Key::W => KeyCode::W,
        Key::Down => KeyCode::Down,
        Key::S => KeyCode::S,
        Key::Right => KeyCode::Right,
        Key::D => KeyCode::D,
        Key::Left => KeyCode::Left,
        Key::A => KeyCode::A,
        Key::Space => KeyCode::Space,
    })
}

/// The steering that a set of keys held down asks for: each direction has an
/// arrow and a letter, and either one asks for it.
pub open spec fn steering_of(keys: Set<Key>) -> Steering {
    Steering {
        up: keys.contains(Key::Up) || keys.contains(Key::W),
        down: keys.contains(Key::Down) || keys.contains(Key::S),
        right: keys.contains(Key::Right) || keys.contains(Key::D),
        left: keys.contains(Key::Left) || keys.contains(Key::A),
    }
}

/// The steering that the keys now held down ask for.
pub fn steering(input: &Input<KeyCode>) -> (asked: Steering)
    ensures
        asked == steering_of(held(*input)),
{
    Steering {
        up: pressed(input, Key::Up) || pressed(input, Key::W),
        down: pressed(input, Key::Down) || pressed(input, Key::S),
        right: pressed(input, Key::Right) || pressed(input, Key::D),
        left: pressed(input, Key::Left) || pressed(input, Key::A),
    }
}

/// Whether the trigger was pulled: whether the space bar has just gone down.
pub fn trigger_pulled(input: &Input<KeyCode>) -> (pulled: bool)
    ensures
        pulled == struck(*input).contains(Key::Space),
{
    just_pressed(input, Key::Space)
}

} // verus!
