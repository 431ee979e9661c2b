//! The motion model: what an entity that moves carries, and the rule that
//! advances it by one frame.

use crate::math::{
    lemma_length_without_squares, lemma_quotient_bounded, product, quotient, saturate, saturating,
    Vec3, MICROS_PER_SECOND, UNIT,
};
use vstd::prelude::*;

verus! {

/// Half a turn, in thousandths of a degree.
pub const HALF_TURN: i32 = 180_000;

/// A full turn, in thousandths of a degree.
pub const FULL_TURN: i32 = 360_000;

/// A quarter of a turn, in thousandths of a degree.
pub const QUARTER_TURN: i32 = 90_000;

/// The speed, in thousandths per second, at or below which an entity is
/// brought to rest.
pub const REST_SPEED: u32 = 2500;

/// The part of the way to its target that a heading is turned by one frame: one
/// in this many. The part does not depend on how long the frame took, so an
/// entity turns faster at a higher frame rate.
pub const TURN_SHARE: i32 = 10;

/// Where an entity is.
#[derive(Clone, Copy, PartialEq, Eq, Structural, Debug)]
pub struct Position(pub Vec3);

/// The heading of an entity: its turn about the vertical axis, in thousandths
/// of a degree, counted from the direction of `z` toward that of `x`. Values
/// that differ by full turns are the same heading; what the library computes
/// lies above minus half a turn and at most at half a turn.
#[derive(Clone, Copy, PartialEq, Eq, Structural, Debug)]
pub struct Rotation(pub i32);

/// The mass of an entity, in thousandths. It is positive.
#[derive(Clone, Copy, PartialEq, Eq, Structural, Debug)]
pub struct Mass(pub u32);

/// The velocity of an entity, in thousandths per second.
#[derive(Clone, Copy, PartialEq, Eq, Structural, Debug)]
pub struct Velocity(pub Vec3);

/// The force that the current frame has put on an entity so far.
#[derive(Clone, Copy, PartialEq, Eq, Structural, Debug)]
pub struct Force(pub Vec3);

/// The sine and the cosine of a heading, in thousandths. The library holds no
/// trigonometry: whoever calls it works these out for the heading in question.
#[derive(Clone, Copy, PartialEq, Eq, Structural, Debug)]
pub struct Facing {
    pub sin: i64,
    pub cos: i64,
}

/// Everything that a moving entity carries.
#[derive(Clone, Copy, PartialEq, Eq, Structural, Debug)]
pub struct Physics {
    pub position: Position,
    pub rotation: Rotation,
    pub mass: Mass,
    pub velocity: Velocity,
    pub force: Force,
}

/// The angle `a` counted within one turn: above minus half a turn, at most half
/// a turn.
pub open spec fn wrap(a: int) -> int {
    let m = a % (FULL_TURN as int);
    if m > HALF_TURN {
        m - FULL_TURN
    } else {
        m
    }
}

/// What a force adds to a velocity within `dt` microseconds, coordinate by
/// coordinate: the acceleration `force / mass`, times the time.
pub open spec fn velocity_gain(force: int, mass: int, dt: int) -> int
    recommends
        mass > 0,
{
    quotient(quotient(force * UNIT, mass) * dt, MICROS_PER_SECOND as int)
}

impl Rotation {
    /// The heading that faces along `z`.
    pub open spec fn identity() -> Rotation {
        Rotation(0)
    }

    /// The heading turned further by `by` thousandths of a degree.
    pub open spec fn turned(self, by: int) -> Rotation {
        Rotation(wrap(self.0 + by) as i32)
    }

    /// The smaller angle between two headings: between nothing and half a turn.
    pub open spec fn angle_between(self, other: Rotation) -> int {
        let d = wrap(other.0 - self.0);
        if d < 0 {
            -d
        } else {
            d
        }
    }

    /// The opposite heading.
    pub open spec fn flipped(self) -> Rotation {
        self.turned(HALF_TURN as int)
    }

    /// The heading one `TURN_SHARE`-th of the shorter way from this one to
    /// `target`.
    pub open spec fn blended(self, target: Rotation) -> Rotation {
        self.turned(quotient(wrap(target.0 - self.0), TURN_SHARE as int))
    }

    /// The heading that an entity is turned toward when it travels along
    /// `course`: the course itself, or, where that is more than a quarter turn
    /// away, its opposite. An entity that reverses keeps its nose where it is
    /// instead of swinging round.
    pub open spec fn target_for(self, course: Rotation) -> Rotation {
        if self.angle_between(course) > QUARTER_TURN {
            course.flipped()
        } else {
            course
        }
    }

    /// The heading after one frame of travel along `course`.
    pub open spec fn steered(self, course: Rotation) -> Rotation {
        self.blended(self.target_for(course))
    }

    /// The heading that faces along `z`.
    pub fn facing_z() -> (r: Rotation)
        ensures
            r == Rotation::identity(),
    {
        Rotation(0)
    }

    /// Turns the heading further by `by` thousandths of a degree.
    pub fn turn(self, by: i64) -> (r: Rotation)
        ensures
            r == self.turned(by as int),
    {
        Rotation(wrap_angle(self.0 as i128 + by as i128))
    }

    /// The smaller angle between this heading and `other`.
    pub fn angle_to(self, other: Rotation) -> (r: i32)
        ensures
            r == self.angle_between(other),
            0 <= r <= HALF_TURN,
    {
        let d = wrap_angle(other.0 as i128 - self.0 as i128);
        if d < 0 {
            -d
        } else {
            d
        }
    }

    /// The opposite heading.
    pub fn flip(self) -> (r: Rotation)
        ensures
            r == self.flipped(),
    {
        self.turn(HALF_TURN as i64)
    }

    /// Turns the heading one `TURN_SHARE`-th of the shorter way to `target`.
    pub fn blend(self, target: Rotation) -> (r: Rotation)
        ensures
            r == self.blended(target),
    {
        let d = wrap_angle(target.0 as i128 - self.0 as i128);
        self.turn((d / TURN_SHARE) as i64)
    }

    /// Turns the heading for one frame of travel along `course`.
    pub fn steer(self, course: Rotation) -> (r: Rotation)
        ensures
            r == self.steered(course),
    {
        if self.angle_to(course) > QUARTER_TURN {
            self.blend(course.flip())
        } else {
            self.blend(course)
        }
    }
}

impl Facing {
    /// The vector `v`, turned about the vertical axis as the heading is: what
    /// points along `z` then points where the entity faces, what points along
    /// `x` to its left.
    pub open spec fn rotated(self, v: Vec3) -> Vec3 {
        let unit = UNIT as int;
        Vec3 {
            x: saturate(quotient(v.x * self.cos, unit) + quotient(v.z * self.sin, unit)),
            y: v.y,
            z: saturate(quotient(v.z * self.cos, unit) - quotient(v.x * self.sin, unit)),
        }
    }

    /// What a heading along an axis makes of a vector, without a product:
    /// it keeps the coordinates, or swaps them, or changes their signs. This
    /// holds of every heading (`lemma_turn_is_plain`); contracts state it of
    /// the headings that they take.
    pub open spec fn turn_is_plain(self) -> bool {
        forall|v: Vec3|
            #![trigger self.rotated(v)]
            {
                &&& self.sin == 0 && self.cos == UNIT ==> self.rotated(v) == v
                &&& self.sin == 0 && self.cos == -UNIT ==> self.rotated(v) == Vec3 {
                    x: saturate(-v.x),
                    y: v.y,
                    z: saturate(-v.z),
                }
                &&& self.sin == UNIT && self.cos == 0 ==> self.rotated(v) == Vec3 {
                    x: v.z,
                    y: v.y,
                    z: saturate(-v.x),
                }
                &&& self.sin == -UNIT && self.cos == 0 ==> self.rotated(v) == Vec3 {
                    x: saturate(-v.z),
                    y: v.y,
                    z: v.x,
                }
            }
    }

    /// Turns `v` about the vertical axis as the heading is turned.
    pub fn rotate(self, v: Vec3) -> (r: Vec3)
        ensures
            r == self.rotated(v),
            self.turn_is_plain(),
    {
        proof {
            lemma_turn_is_plain(self);
        }
        let xc = turned_part(v.x, self.cos);
        let zs = turned_part(v.z, self.sin);
        let zc = turned_part(v.z, self.cos);
        let xs = turned_part(v.x, self.sin);
        Vec3 { x: saturating(xc + zs), y: v.y, z: saturating(zc - xs) }
    }
}

/// A coordinate times a sine or a cosine.
fn turned_part(value: i64, factor: i64) -> (r: i128)
    ensures
        r == quotient(value * factor, UNIT as int),
        -0x2000_0000_0000_0000_0000_0000_0000_0000 <= r,
        r <= 0x2000_0000_0000_0000_0000_0000_0000_0000,
{
    let exact: i128 = product(value, factor);
    proof {
        lemma_quotient_bounded(exact as int, UNIT as int);
    }
    exact / UNIT as i128
}

/// Counts an angle within one turn.
pub fn wrap_angle(a: i128) -> (r: i32)
    ensures
        r == wrap(a as int),
        -HALF_TURN < r <= HALF_TURN,
{
    let full: i128 = FULL_TURN as i128;
    let rest: i128 = a % full;
    let m: i128 = if rest < 0 {
        rest + full
    } else {
        rest
    };
    if m > HALF_TURN as i128 {
        (m - full) as i32
    } else {
        m as i32
    }
}

impl Velocity {
    /// Whether the velocity is at or below the speed at which an entity is
    /// brought to rest.
    pub open spec fn at_rest(self) -> bool {
        !self.0.longer_than(REST_SPEED as nat)
    }

    /// What can be told of the velocity's rest without squaring: with one
    /// coordinate above `REST_SPEED` it is not at rest, and with coordinates
    /// that together are no larger than `REST_SPEED` it is. This holds of
    /// every velocity (`lemma_rest_is_plain`); contracts state it of the
    /// velocities that they decide on, to spare their callers the squares.
    pub open spec fn rest_is_plain(self) -> bool {
        &&& self.0.beyond(REST_SPEED as nat) ==> !self.at_rest()
        &&& self.0.within(REST_SPEED as nat) ==> self.at_rest()
    }

    /// Whether the velocity is at or below `REST_SPEED`.
    pub fn is_at_rest(&self) -> (r: bool)
        ensures
            r == self.at_rest(),
            self.rest_is_plain(),
    {
        !self.0.is_longer_than(REST_SPEED)
    }
}

impl Physics {
    /// Whether the entity can be moved: its mass is positive.
    pub open spec fn well_formed(self) -> bool {
        self.mass.0 > 0
    }

    /// The velocity once the force of this frame has acted for `dt`
    /// microseconds.
    pub open spec fn accelerated(self, dt: u32) -> Velocity {
        Velocity(
            Vec3 {
                x: saturate(
                    self.velocity.0.x + velocity_gain(
                        self.force.0.x as int,
                        self.mass.0 as int,
                        dt as int,
                    ),
                ),
                y: saturate(
                    self.velocity.0.y + velocity_gain(
                        self.force.0.y as int,
                        self.mass.0 as int,
                        dt as int,
                    ),
                ),
                z: saturate(
                    self.velocity.0.z + velocity_gain(
                        self.force.0.z as int,
                        self.mass.0 as int,
                        dt as int,
                    ),
                ),
            },
        )
    }

    /// The entity one frame of `dt` microseconds later, where `course` is the
    /// heading of the accelerated velocity.
    ///
    /// The force acts on the velocity. At or below `REST_SPEED` the entity
    /// stops where it is and as it is turned. Otherwise it turns toward its
    /// course and moves by its new velocity. Either way the force is used up.
    pub open spec fn integrated(self, dt: u32, course: Rotation) -> Physics {
        let velocity = self.accelerated(dt);
        if velocity.at_rest() {
            Physics {
                velocity: Velocity(Vec3::zero()),
                force: Force(Vec3::zero()),
                ..self
            }
        } else {
            Physics {
                position: Position(
                    self.position.0.plus(
                        velocity.0.scaled(dt as int, MICROS_PER_SECOND as int),
                    ),
                ),
                rotation: self.rotation.steered(course),
                mass: self.mass,
                velocity,
                force: Force(Vec3::zero()),
            }
        }
    }

    /// The velocity that `apply_force` will give the entity for this `dt`,
    /// before it decides whether the entity rests. A caller takes the course
    /// from it.
    pub fn next_velocity(&self, dt: u32) -> (r: Velocity)
        requires
            self.well_formed(),
        ensures
            r == self.accelerated(dt),
    {
        Velocity(
            Vec3 {
                x: accelerate(self.velocity.0.x, self.force.0.x, self.mass.0, dt),
                y: accelerate(self.velocity.0.y, self.force.0.y, self.mass.0, dt),
                z: accelerate(self.velocity.0.z, self.force.0.z, self.mass.0, dt),
            },
        )
    }
}

impl Default for Physics {
    /// An entity of mass one that rests at the origin and faces along `z`.
    fn default() -> (r: Physics)
        ensures
            r == (Physics {
                position: Position(Vec3::zero()),
                rotation: Rotation::identity(),
                mass: Mass(1000),
                velocity: Velocity(Vec3::zero()),
                force: Force(Vec3::zero()),
            }),
    {
        Physics {
            position: Position(Vec3::origin()),
            rotation: Rotation::facing_z(),
            mass: Mass(1000),
            velocity: Velocity(Vec3::origin()),
            force: Force(Vec3::origin()),
        }
    }
}

/// One coordinate of a velocity after `force` has acted on `mass` for `dt`
/// microseconds.
pub fn accelerate(velocity: i64, force: i64, mass: u32, dt: u32) -> (r: i64)
    requires
        mass > 0,
    ensures
        r == saturate(velocity + velocity_gain(force as int, mass as int, dt as int)),
{
    let scaled: i128 = product(force, UNIT);
    let acceleration: i128 = scaled / mass as i128;
    proof {
        assert(-0x8000_0000_0000_0000 * 1000 <= scaled <= 0x8000_0000_0000_0000 * 1000) by {
            assert(scaled == force * 1000);
        }
        lemma_quotient_bounded(scaled as int, mass as int);
        assert(-0x8000_0000_0000_0000 * 1000 <= acceleration <= 0x8000_0000_0000_0000 * 1000);
        assert(-0x8000_0000_0000_0000 * 1000 * 0xffff_ffff <= acceleration * dt
            <= 0x8000_0000_0000_0000 * 1000 * 0xffff_ffff) by (nonlinear_arith)
            requires
                -0x8000_0000_0000_0000 * 1000 <= acceleration <= 0x8000_0000_0000_0000 * 1000,
                0 <= dt <= 0xffff_ffff,
        ;
    }
    let impulse: i128 = acceleration * dt as i128;
    let gain: i128 = impulse / MICROS_PER_SECOND as i128;
    proof {
        lemma_quotient_bounded(impulse as int, MICROS_PER_SECOND as int);
    }
    saturating(velocity as i128 + gain)
}

/// Advances an entity's motion by one frame of `dt` microseconds. `course` is
/// the heading of the entity's accelerated velocity (see `next_velocity`),
/// which the caller's trigonometry gives; an entity that comes to rest pays no
/// heed to it.
pub fn apply_force(physics: &mut Physics, dt: u32, course: Rotation)
    requires
        old(physics).well_formed(),
    ensures
        *final(physics) == old(physics).integrated(dt, course),
        final(physics).force == Force(Vec3::zero()),
        final(physics).mass == old(physics).mass,
        old(physics).accelerated(dt).rest_is_plain(),
{
    let velocity = physics.next_velocity(dt);
    if velocity.is_at_rest() {
        physics.velocity = Velocity(Vec3::origin());
    } else {
        physics.rotation = physics.rotation.steer(course);
        physics.position = Position(
            physics.position.0.add_vec(velocity.0.scale(dt as u64, MICROS_PER_SECOND as u32)),
        );
        physics.velocity = velocity;
    }
    physics.force = Force(Vec3::origin());
}

/// A heading along an axis keeps the coordinates of a vector, or swaps them, or
/// changes their signs.
pub proof fn lemma_turn_is_plain(facing: Facing)
    ensures
        facing.turn_is_plain(),
{
    assert forall|v: Vec3| #![trigger facing.rotated(v)] {
        &&& facing.sin == 0 && facing.cos == UNIT ==> facing.rotated(v) == v
        &&& facing.sin == 0 && facing.cos == -UNIT ==> facing.rotated(v) == Vec3 {
            x: saturate(-v.x),
            y: v.y,
            z: saturate(-v.z),
        }
        &&& facing.sin == UNIT && facing.cos == 0 ==> facing.rotated(v) == Vec3 {
            x: v.z,
            y: v.y,
            z: saturate(-v.x),
        }
        &&& facing.sin == -UNIT && facing.cos == 0 ==> facing.rotated(v) == Vec3 {
            x: saturate(-v.z),
            y: v.y,
            z: v.x,
        }
    } by {
        if facing.sin == 0 {
            assert(v.x * facing.sin == 0 && v.z * facing.sin == 0) by (nonlinear_arith)
                requires
                    facing.sin == 0,
            ;
        }
        if facing.cos == 0 {
            assert(v.x * facing.cos == 0 && v.z * facing.cos == 0) by (nonlinear_arith)
                requires
                    facing.cos == 0,
            ;
        }
        if facing.cos == UNIT || facing.cos == -UNIT {
            assert(v.x * facing.cos == v.x * 1000 || v.x * facing.cos == -(v.x * 1000))
                by (nonlinear_arith)
                requires
                    facing.cos == 1000 || facing.cos == -1000,
            ;
            assert(v.z * facing.cos == v.z * 1000 || v.z * facing.cos == -(v.z * 1000))
                by (nonlinear_arith)
                requires
                    facing.cos == 1000 || facing.cos == -1000,
            ;
        }
        if facing.sin == UNIT || facing.sin == -UNIT {
            assert(v.x * facing.sin == v.x * 1000 || v.x * facing.sin == -(v.x * 1000))
                by (nonlinear_arith)
                requires
                    facing.sin == 1000 || facing.sin == -1000,
            ;
            assert(v.z * facing.sin == v.z * 1000 || v.z * facing.sin == -(v.z * 1000))
                by (nonlinear_arith)
                requires
                    facing.sin == 1000 || facing.sin == -1000,
            ;
        }
    }
}

/// A velocity with a coordinate above `REST_SPEED` is not at rest, and one
/// whose coordinates together are no larger than `REST_SPEED` is.
pub proof fn lemma_rest_is_plain(velocity: Velocity)
    ensures
        velocity.rest_is_plain(),
{
    lemma_length_without_squares(velocity.0, REST_SPEED as nat);
}

/// Whatever a frame has put on an entity, one integration leaves no force
/// behind: nothing of it reaches the next frame.
pub proof fn lemma_force_is_reset(physics: Physics, dt: u32, course: Rotation)
    ensures
        physics.integrated(dt, course).force == Force(Vec3::zero()),
{
}

/// An entity whose accelerated velocity is at or below `REST_SPEED` stops
/// dead: its velocity is exactly zero, and it stays where it is and as it is
/// turned.
pub proof fn lemma_velocity_floor(physics: Physics, dt: u32, course: Rotation)
    requires
        physics.accelerated(dt).at_rest(),
    ensures
        physics.integrated(dt, course).velocity == Velocity(Vec3::zero()),
        physics.integrated(dt, course).position == physics.position,
        physics.integrated(dt, course).rotation == physics.rotation,
{
}

/// An entity that moves on a course more than a quarter turn off its heading
/// turns toward the opposite of the course, not toward the course; up to a
/// quarter turn it turns toward the course itself.
pub proof fn lemma_heading_flip(physics: Physics, dt: u32, course: Rotation)
    requires
        !physics.accelerated(dt).at_rest(),
    ensures
        physics.rotation.angle_between(course) > QUARTER_TURN ==> physics.integrated(
            dt,
            course,
        ).rotation == physics.rotation.blended(course.flipped()),
        physics.rotation.angle_between(course) <= QUARTER_TURN ==> physics.integrated(
            dt,
            course,
        ).rotation == physics.rotation.blended(course),
{
}

/// An angle already within one turn is what `wrap` gives for it.
proof fn lemma_wrap_within(a: int)
    requires
        -HALF_TURN < a <= HALF_TURN,
    ensures
        wrap(a) == a,
{
}

/// `wrap` gives an angle within one turn that differs from its argument by full
/// turns.
proof fn lemma_wrap_range(a: int)
    ensures
        -HALF_TURN < wrap(a) <= HALF_TURN,
        (wrap(a) - a) % (FULL_TURN as int) == 0,
{
}

/// Angles that differ by full turns count as the same angle.
proof fn lemma_wrap_congruent(a: int, b: int)
    requires
        (a - b) % (FULL_TURN as int) == 0,
    ensures
        wrap(a) == wrap(b),
{
    let k = (a - b) / (FULL_TURN as int);
    assert(a == b + k * FULL_TURN);
    assert(a % (FULL_TURN as int) == b % (FULL_TURN as int)) by {
        vstd::arithmetic::div_mod::lemma_mod_multiples_vanish(k, b, FULL_TURN as int);
    }
}

/// The offset from one heading to the opposite of another is half a turn off
/// the offset to that other.
proof fn lemma_flipped_offset(heading: Rotation, course: Rotation)
    ensures
        wrap(course.flipped().0 - heading.0) == wrap(wrap(course.0 - heading.0) + HALF_TURN),
{
    lemma_wrap_range(course.0 + HALF_TURN);
    lemma_wrap_range(course.0 - heading.0);
    let a = course.flipped().0 - heading.0;
    let b = wrap(course.0 - heading.0) + HALF_TURN;
    let x = wrap(course.0 + HALF_TURN) - (course.0 + HALF_TURN);
    let y = wrap(course.0 - heading.0) - (course.0 - heading.0);
    assert(a - b == x - y);
    assert((x - y) % (FULL_TURN as int) == 0) by {
        let i = x / (FULL_TURN as int);
        let j = y / (FULL_TURN as int);
        assert(x == i * FULL_TURN);
        assert(y == j * FULL_TURN);
        assert(x - y == (i - j) * FULL_TURN);
        vstd::arithmetic::div_mod::lemma_mod_multiples_basic(i - j, FULL_TURN as int);
    }
    lemma_wrap_congruent(a, b);
}

/// The heading that an entity turns toward is never more than a quarter turn
/// away: it does not spin the long way round.
pub proof fn lemma_target_is_near(heading: Rotation, course: Rotation)
    ensures
        heading.angle_between(heading.target_for(course)) <= QUARTER_TURN,
{
    let d = wrap(course.0 - heading.0);
    lemma_wrap_range(course.0 - heading.0);
    if heading.angle_between(course) > QUARTER_TURN {
        lemma_flipped_offset(heading, course);
        if d > 0 {
            lemma_wrap_congruent(d + HALF_TURN, d - HALF_TURN);
            lemma_wrap_within(d - HALF_TURN);
        } else {
            lemma_wrap_within(d + HALF_TURN);
        }
    }
}

} // verus!
