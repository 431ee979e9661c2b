//! What the player does in a frame: the keys of the keyboard and the turns of
//! the mouse wheel.

use bevy::input::keyboard::KeyCode;
use bevy::input::Input;
use std::hash::Hash;
use vstd::prelude::*;

verus! {

/// The engine's record of which buttons are down, `bevy::input::Input`.
/// Nothing is known of what is inside; see `pressed` and `just_pressed`.
#[verifier::external_type_specification]
#[verifier::external_body]
#[verifier::reject_recursive_types(T)]
pub struct ExInput<T: Copy + Eq + Hash + Send + Sync + 'static>(Input<T>);

/// The engine's names for the keys of a keyboard,
/// `bevy::input::keyboard::KeyCode`.
#[verifier::external_type_specification]
#[verifier::external_body]
pub struct ExKeyCode(KeyCode);

/// The keys that the game listens to, each named as the keyboard names it.
#[derive(Clone, Copy, PartialEq, Eq, Structural, Debug)]
pub enum Key {
    /// Drive forward.
    W,
    /// Turn left.
    A,
    /// Drive backward.
    S,
    /// Turn right.
    D,
    /// Open or close the pause menu.
    Escape,
    /// Switch the camera between its near and far views.
    ShiftLeft,
}

/// The keys of the game that `input` holds as pressed now.
pub uninterp spec fn held_keys(input: &Input<KeyCode>) -> Set<Key>;

/// The keys of the game that `input` holds as pressed in this very frame.
pub uninterp spec fn fresh_keys(input: &Input<KeyCode>) -> Set<Key>;

/// Asks `Input::pressed` for the key code that `key` stands for. The engine
/// answers from its set of pressed keys; `held_keys` names the part of that set
/// which the game listens to, and nothing is claimed of what is in it.
#[verifier::external_body]
fn pressed(input: &Input<KeyCode>, key: Key) -> (r: bool)
    ensures
        r == held_keys(input).contains(key),
{
    input.pressed(
        match key {
            Key::W => KeyCode::W,
            Key::A => KeyCode::A,
            Key::S => KeyCode::S,
            Key::D => KeyCode::D,
            Key::Escape => KeyCode::Escape,
            Key::ShiftLeft => KeyCode::ShiftLeft,
        },
    )
}

/// Asks `Input::just_pressed` for the key code that `key` stands for. The
/// engine answers from its set of keys that went down since the frame began;
/// `fresh_keys` names the part of that set which the game listens to.
#[verifier::external_body]
fn just_pressed(input: &Input<KeyCode>, key: Key) -> (r: bool)
    ensures
        r == fresh_keys(input).contains(key),
{
    input.just_pressed(
        match key {
            Key::W => KeyCode::W,
            Key::A => KeyCode::A,
            Key::S => KeyCode::S,
            Key::D => KeyCode::D,
            Key::Escape => KeyCode::Escape,
            Key::ShiftLeft => KeyCode::ShiftLeft,
        },
    )
}

/// What the game wants to know of the keyboard in one frame.
#[derive(Clone, Copy, PartialEq, Eq, Structural, Debug)]
pub struct Keys {
    /// `W` is held: drive forward.
    pub forward: bool,
    /// `S` is held: drive backward.
    pub backward: bool,
    /// `A` is held: turn left.
    pub left: bool,
    /// `D` is held: turn right.
    pub right: bool,
    /// `Escape` went down in this frame: open or close the pause menu.
    pub menu: bool,
    /// `ShiftLeft` went down in this frame: switch the camera's view.
    pub view: bool,
}

/// The keys of the game that are down at one moment.
#[derive(Clone, Copy, PartialEq, Eq, Structural, Debug)]
pub struct Held {
    pub w: bool,
    pub a: bool,
    pub s: bool,
    pub d: bool,
    pub escape: bool,
    pub shift_left: bool,
}

impl Keys {
    /// What the game wants to know of a frame at whose beginning the keys
    /// `before` were down and in which the keys `now` are: a key goes down in
    /// the frame in which it is down and was not before.
    pub open spec fn between(before: Held, now: Held) -> Keys {
        Keys {
            forward: now.w,
            backward: now.s,
            left: now.a,
            right: now.d,
            menu: now.escape && !before.escape,
            view: now.shift_left && !before.shift_left,
        }
    }

    /// Tells the keys of a frame from what was down before it and what is down
    /// in it, for a host that does not say itself which keys went down.
    pub fn since(before: &Held, now: &Held) -> (keys: Keys)
        ensures
            keys == Keys::between(*before, *now),
    {
        Keys {
            forward: now.w,
            backward: now.s,
            left: now.a,
            right: now.d,
            menu: now.escape && !before.escape,
            view: now.shift_left && !before.shift_left,
        }
    }
}

/// A key that is held down goes down once: of two frames that follow one
/// another, at most one sees it go down.
pub proof fn lemma_one_edge_per_press(first: Held, second: Held, third: Held)
    ensures
        !(Keys::between(first, second).menu && Keys::between(second, third).menu),
        !(Keys::between(first, second).view && Keys::between(second, third).view),
{
}

/// What the game wants to know of a keyboard on which the keys `held` are
/// pressed and the keys `fresh` went down in this frame.
pub open spec fn keys_of(held: Set<Key>, fresh: Set<Key>) -> Keys {
    Keys {
        forward: held.contains(Key::W),
        backward: held.contains(Key::S),
        left: held.contains(Key::A),
        right: held.contains(Key::D),
        menu: fresh.contains(Key::Escape),
        view: fresh.contains(Key::ShiftLeft),
    }
}

/// What the game wants to know of `input`.
pub open spec fn keys_in(input: &Input<KeyCode>) -> Keys {
    keys_of(held_keys(input), fresh_keys(input))
}

/// Reads the keys of the game from the keyboard.
pub fn read_keys(input: &Input<KeyCode>) -> (keys: Keys)
    ensures
        keys == keys_in(input),
{
    Keys {
        forward: pressed(input, Key::W),
        backward: pressed(input, Key::S),
        left: pressed(input, Key::A),
        right: pressed(input, Key::D),
        menu: just_pressed(input, Key::Escape),
        view: just_pressed(input, Key::ShiftLeft),
    }
}

/// The unit that a turn of the mouse wheel is counted in.
#[derive(Clone, Copy, PartialEq, Eq, Structural, Debug)]
pub enum MouseScrollUnit {
    /// Lines, as a wheel with notches reports them.
    Line,
    /// Pixels, as a touchpad reports them.
    Pixel,
}

/// One turn of the mouse wheel.
#[derive(Clone, Copy, PartialEq, Eq, Structural, Debug)]
pub struct MouseWheel {
    pub unit: MouseScrollUnit,
    /// How far the wheel was turned, in thousandths of the unit; positive away
    /// from the player.
    pub y: i64,
}

} // verus!
