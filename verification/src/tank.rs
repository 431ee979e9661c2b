//! The player's tank: how the keys push and turn it, what slows it down, and
//! where it is drawn.

use crate::input::{keys_in, read_keys, Keys};
use crate::math::{
    lemma_axis_length, lemma_length_without_squares, product, quotient, saturate, saturating, Vec3,
    MICROS_PER_SECOND, UNIT,
};
use crate::physics::{
    lemma_turn_is_plain, Facing, Force, Mass, Physics, Position, Rotation, Velocity, REST_SPEED,
};
use bevy::input::keyboard::KeyCode;
use bevy::input::Input;
use vstd::prelude::*;

verus! {

/// The force of the engine when the tank drives forward, in thousandths.
pub const FORWARD_FORCE: i64 = 5_000_000;

/// The force of the engine when the tank drives backward: less than forward.
pub const REVERSE_FORCE: i64 = 4_000_000;

/// The sideways force of a turn at speed, before what the speed adds.
pub const SKID_BASE: i64 = 200_000;

/// What each thousandth per second of speed adds to the sideways force of a
/// turn.
pub const SKID_PER_SPEED: i64 = 2;

/// How fast the tank turns on the spot, in thousandths of a degree per second:
/// three quarters of a radian.
pub const STEER_RATE: i64 = 42_972;

/// The drag on a moving tank, per unit of speed and of mass, in thousandths.
pub const DRAG: u64 = 2000;

/// The mass of the player's tank, in thousandths.
pub const TANK_MASS: u32 = 100_000;

/// Where and how an entity is drawn.
#[derive(Clone, Copy, PartialEq, Eq, Structural, Debug)]
pub struct Transform {
    pub translation: Vec3,
    pub rotation: Rotation,
}

/// Whether a tank at this velocity skids through its turns instead of turning
/// on the spot: it is faster than `REST_SPEED`.
pub open spec fn at_speed(velocity: Velocity) -> bool {
    velocity.0.longer_than(REST_SPEED as nat)
}

/// The sideways force of a turn at this velocity: it grows with the speed.
pub open spec fn skid_force(velocity: Velocity) -> i64 {
    saturate(SKID_BASE + SKID_PER_SPEED * velocity.0.norm())
}

/// What can be told of a velocity's speed without squaring: with one coordinate
/// above `REST_SPEED` the tank is at speed, with coordinates that together are
/// no larger than `REST_SPEED` it is not, and along an axis its speed is the
/// size of its one coordinate. This holds of every velocity
/// (`lemma_speed_is_plain`); contracts state it of the velocities that they
/// decide on, to spare their callers the squares.
pub open spec fn speed_is_plain(velocity: Velocity) -> bool {
    &&& velocity.0.beyond(REST_SPEED as nat) ==> at_speed(velocity)
    &&& velocity.0.within(REST_SPEED as nat) ==> !at_speed(velocity)
    &&& velocity.0.axis_length() matches Some(speed) ==> skid_force(velocity) == saturate(
        SKID_BASE + SKID_PER_SPEED * speed,
    )
}

/// How far the tank turns on the spot within `dt` microseconds.
pub open spec fn steer_step(dt: u32) -> int {
    quotient(STEER_RATE * dt, MICROS_PER_SECOND as int)
}

/// The heading after the keys have had their say. Only a tank that is not at
/// speed turns on the spot, and only while neither drive key is held; left and
/// right held together cancel.
pub open spec fn steered_by_keys(
    rotation: Rotation,
    velocity: Velocity,
    keys: Keys,
    dt: u32,
) -> Rotation {
    if at_speed(velocity) || keys.forward || keys.backward {
        rotation
    } else {
        let left = if keys.left {
            rotation.turned(steer_step(dt))
        } else {
            rotation
        };
        if keys.right {
            left.turned(-steer_step(dt))
        } else {
            left
        }
    }
}

/// The force after the keys have had their say. Every key that is held adds its
/// part, whatever else is held: at speed, left and right each push sideways;
/// forward and backward each push along the heading.
pub open spec fn pushed_by_keys(
    force: Force,
    velocity: Velocity,
    keys: Keys,
    facing: Facing,
) -> Force {
    let skid = skid_force(velocity);
    let left = if at_speed(velocity) && keys.left {
        force.0.plus(facing.rotated(Vec3 { x: skid, y: 0, z: 0 }))
    } else {
        force.0
    };
    let right = if at_speed(velocity) && keys.right {
        left.plus(facing.rotated(Vec3 { x: (-skid) as i64, y: 0, z: 0 }))
    } else {
        left
    };
    let forward = if keys.forward {
        right.plus(facing.rotated(Vec3 { x: 0, y: 0, z: FORWARD_FORCE }))
    } else {
        right
    };
    let backward = if keys.backward {
        forward.plus(facing.rotated(Vec3 { x: 0, y: 0, z: (-REVERSE_FORCE) as i64 }))
    } else {
        forward
    };
    Force(backward)
}

/// The force with the drag of this frame taken off: a tank at speed is held
/// back in proportion to its velocity and its mass, a slower one not at all.
pub open spec fn slowed(force: Force, velocity: Velocity, mass: Mass) -> Force {
    if at_speed(velocity) {
        Force(force.0.minus(velocity.0.scaled(DRAG * mass.0, UNIT * UNIT)))
    } else {
        force
    }
}

/// What `speed_is_plain` says holds of every velocity.
pub proof fn lemma_speed_is_plain(velocity: Velocity)
    ensures
        speed_is_plain(velocity),
{
    lemma_length_without_squares(velocity.0, REST_SPEED as nat);
    lemma_axis_length(velocity.0);
}

/// Lets the keys push and turn the player's tank. `facing` is the sine and
/// cosine of the heading that the tank has on entry.
pub fn drive(
    rotation: &mut Rotation,
    force: &mut Force,
    velocity: &Velocity,
    keys: Keys,
    dt: u32,
    facing: Facing,
)
    ensures
        *final(rotation) == steered_by_keys(*old(rotation), *velocity, keys, dt),
        *final(force) == pushed_by_keys(*old(force), *velocity, keys, facing),
        speed_is_plain(*velocity),
        facing.turn_is_plain(),
{
    proof {
        lemma_speed_is_plain(*velocity);
        lemma_turn_is_plain(facing);
    }
    if velocity.0.is_longer_than(REST_SPEED) {
        let speed: u64 = velocity.0.length();
        assert(SKID_PER_SPEED * speed <= 2 * 0xffff_ffff_ffff_ffff) by (nonlinear_arith)
            requires
                SKID_PER_SPEED == 2,
                0 <= speed <= 0xffff_ffff_ffff_ffff,
        ;
        let skid: i64 = saturating(SKID_BASE as i128 + SKID_PER_SPEED as i128 * speed as i128);
        if keys.left {
            force.0 = force.0.add_vec(facing.rotate(Vec3 { x: skid, y: 0, z: 0 }));
        }
        if keys.right {
            force.0 = force.0.add_vec(facing.rotate(Vec3 { x: -skid, y: 0, z: 0 }));
        }
    } else {
        let step: i64 = (product(STEER_RATE, dt as i64) / MICROS_PER_SECOND as i128) as i64;
        if keys.left && !keys.forward && !keys.backward {
            *rotation = rotation.turn(step);
        }
        if keys.right && !keys.forward && !keys.backward {
            *rotation = rotation.turn(-step);
        }
    }
    if keys.forward {
        force.0 = force.0.add_vec(facing.rotate(Vec3 { x: 0, y: 0, z: FORWARD_FORCE }));
    }
    if keys.backward {
        force.0 = force.0.add_vec(facing.rotate(Vec3 { x: 0, y: 0, z: -REVERSE_FORCE }));
    }
}

/// Reads the keyboard and lets its keys push and turn the player's tank.
/// `facing` is the sine and cosine of the heading that the tank has on entry.
pub fn player_tank_movement_input(
    rotation: &mut Rotation,
    force: &mut Force,
    velocity: &Velocity,
    keyboard_input: &Input<KeyCode>,
    dt: u32,
    facing: Facing,
)
    ensures
        *final(rotation) == steered_by_keys(*old(rotation), *velocity, keys_in(keyboard_input), dt),
        *final(force) == pushed_by_keys(*old(force), *velocity, keys_in(keyboard_input), facing),
        speed_is_plain(*velocity),
        facing.turn_is_plain(),
{
    let keys = read_keys(keyboard_input);
    drive(rotation, force, velocity, keys, dt, facing);
}

/// Holds the player's tank back while it is at speed. Nothing else ever slows
/// it: to let go of the keys is to wait for the drag.
pub fn slowdown_player_tank(force: &mut Force, velocity: &Velocity, mass: &Mass)
    ensures
        *final(force) == slowed(*old(force), *velocity, *mass),
        speed_is_plain(*velocity),
{
    proof {
        lemma_speed_is_plain(*velocity);
    }
    if velocity.0.is_longer_than(REST_SPEED) {
        assert(DRAG * mass.0 <= 2000 * 0xffff_ffff) by (nonlinear_arith)
            requires
                0 <= mass.0 <= 0xffff_ffff,
        ;
        let drag = velocity.0.scale(DRAG * mass.0 as u64, (UNIT * UNIT) as u32);
        force.0 = force.0.sub_vec(drag);
    }
}

/// Puts the tank's model where the motion model has the tank.
pub fn update_model_pos(position: &Position, rotation: &Rotation, transform: &mut Transform)
    ensures
        *final(transform) == (Transform { translation: position.0, rotation: *rotation }),
{
    transform.translation = position.0;
    transform.rotation = *rotation;
}

/// The player's tank as the game begins: at rest at the origin, facing along
/// `z`, with the mass of a tank.
pub fn spawn_player_tank() -> (r: Physics)
    ensures
        r == (Physics {
            position: Position(Vec3::zero()),
            rotation: Rotation::identity(),
            mass: Mass(TANK_MASS),
            velocity: Velocity(Vec3::zero()),
            force: Force(Vec3::zero()),
        }),
        r.well_formed(),
{
    let mut tank = Physics::default();
    tank.mass = Mass(TANK_MASS);
    tank
}

} // verus!
