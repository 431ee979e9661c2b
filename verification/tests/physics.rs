use tank_game::math::Vec3;
use tank_game::physics::{
    accelerate, apply_force, wrap_angle, Facing, Force, Mass, Physics, Position, Rotation,
    Velocity,
};

fn tank(force: Vec3, velocity: Vec3) -> Physics {
    Physics {
        position: Position(Vec3 { x: 0, y: 0, z: 0 }),
        rotation: Rotation(0),
        mass: Mass(100_000),
        velocity: Velocity(velocity),
        force: Force(force),
    }
}

const ZERO: Vec3 = Vec3 { x: 0, y: 0, z: 0 };

#[test]
fn a_push_forward_moves_the_tank() {
    let mut p = tank(Vec3 { x: 0, y: 0, z: 5_000_000 }, ZERO);
    assert_eq!(p.next_velocity(100_000), Velocity(Vec3 { x: 0, y: 0, z: 5000 }));
    apply_force(&mut p, 100_000, Rotation(0));
    assert_eq!(p.velocity, Velocity(Vec3 { x: 0, y: 0, z: 5000 }));
    assert_eq!(p.position, Position(Vec3 { x: 0, y: 0, z: 500 }));
    assert_eq!(p.rotation, Rotation(0));
    assert_eq!(p.force, Force(ZERO));
    assert_eq!(p.mass, Mass(100_000));
}

#[test]
fn the_force_is_used_up_whether_the_tank_moves_or_rests() {
    let mut moving = tank(Vec3 { x: 7_000_000, y: 0, z: -9_000_000 }, ZERO);
    apply_force(&mut moving, 100_000, Rotation(142_000));
    assert_ne!(moving.velocity, Velocity(ZERO));
    assert_eq!(moving.force, Force(ZERO));

    let mut resting = tank(Vec3 { x: 1_000, y: 0, z: -2_000 }, ZERO);
    apply_force(&mut resting, 100_000, Rotation(142_000));
    assert_eq!(resting.velocity, Velocity(ZERO));
    assert_eq!(resting.force, Force(ZERO));

    let mut idle = tank(ZERO, ZERO);
    apply_force(&mut idle, 16_667, Rotation(0));
    assert_eq!(idle, tank(ZERO, ZERO));
}

#[test]
fn a_slow_tank_stops_dead() {
    let mut p = tank(Vec3 { x: 0, y: 0, z: 2_000_000 }, ZERO);
    p.position = Position(Vec3 { x: 11, y: 22, z: 33 });
    p.rotation = Rotation(45_000);
    apply_force(&mut p, 100_000, Rotation(0));
    assert_eq!(p.velocity, Velocity(ZERO));
    assert_eq!(p.position, Position(Vec3 { x: 11, y: 22, z: 33 }));
    assert_eq!(p.rotation, Rotation(45_000));
    assert_eq!(p.force, Force(ZERO));
}

#[test]
fn the_rest_speed_itself_still_stops_the_tank() {
    let mut at = tank(Vec3 { x: 0, y: 0, z: 2_500_000 }, ZERO);
    apply_force(&mut at, 100_000, Rotation(0));
    assert_eq!(at.velocity, Velocity(ZERO));
    assert_eq!(at.position, Position(ZERO));

    let mut above = tank(Vec3 { x: 0, y: 0, z: 2_501_000 }, ZERO);
    apply_force(&mut above, 100_000, Rotation(0));
    assert_eq!(above.velocity, Velocity(Vec3 { x: 0, y: 0, z: 2501 }));
    assert_eq!(above.position, Position(Vec3 { x: 0, y: 0, z: 250 }));

    assert!(Velocity(Vec3 { x: 1500, y: 0, z: 2000 }).is_at_rest());
    assert!(!Velocity(Vec3 { x: 1500, y: 1, z: 2000 }).is_at_rest());
}

#[test]
fn a_tank_that_reverses_turns_toward_the_opposite_of_its_course() {
    let mut p = tank(ZERO, Vec3 { x: 0, y: 0, z: -5000 });
    apply_force(&mut p, 100_000, Rotation(180_000));
    assert_eq!(p.rotation, Rotation(0));
    assert_eq!(p.position, Position(Vec3 { x: 0, y: 0, z: -500 }));

    let mut q = tank(ZERO, Vec3 { x: 868, y: 0, z: -4924 });
    apply_force(&mut q, 100_000, Rotation(170_000));
    assert_eq!(q.rotation, Rotation(-1000));
}

#[test]
fn headings_turn_a_tenth_of_the_shorter_way() {
    let r = Rotation(0);
    assert_eq!(r.steer(Rotation(50_000)), Rotation(5000));
    assert_eq!(r.steer(Rotation(-50_000)), Rotation(-5000));
    assert_eq!(r.steer(Rotation(90_000)), Rotation(9000));
    assert_eq!(r.steer(Rotation(90_001)), Rotation(-8999));
    assert_eq!(r.steer(Rotation(-90_001)), Rotation(8999));
    assert_eq!(r.steer(Rotation(9)), Rotation(0));
    assert_eq!(Rotation(175_000).steer(Rotation(-175_000)), Rotation(176_000));
    assert_eq!(Rotation(179_500).steer(Rotation(-170_500)), Rotation(-179_500));
    assert_eq!(r.blend(Rotation(170_000)), Rotation(17_000));
    assert_eq!(r.blend(Rotation(170_000).flip()), Rotation(-1000));
}

#[test]
fn angles_are_counted_within_one_turn() {
    assert_eq!(wrap_angle(0), 0);
    assert_eq!(wrap_angle(180_000), 180_000);
    assert_eq!(wrap_angle(-180_000), 180_000);
    assert_eq!(wrap_angle(180_001), -179_999);
    assert_eq!(wrap_angle(360_000), 0);
    assert_eq!(wrap_angle(-360_000), 0);
    assert_eq!(wrap_angle(725_000), 5000);
    assert_eq!(wrap_angle(-725_000), -5000);
    assert_eq!(Rotation(350_000).turn(20_000), Rotation(10_000));
    assert_eq!(Rotation(0).turn(-1), Rotation(-1));
    assert_eq!(Rotation(i32::MAX).turn(i64::MAX), Rotation(wrap_angle(i32::MAX as i128 + i64::MAX as i128)));
    assert_eq!(Rotation(0).flip(), Rotation(180_000));
    assert_eq!(Rotation(180_000).flip(), Rotation(0));
    assert_eq!(Rotation(10_000).flip().flip(), Rotation(10_000));
    assert_eq!(Rotation(0).angle_to(Rotation(-90_000)), 90_000);
    assert_eq!(Rotation(170_000).angle_to(Rotation(-170_000)), 20_000);
    assert_eq!(Rotation(0).angle_to(Rotation(180_000)), 180_000);
    assert_eq!(Rotation::facing_z(), Rotation(0));
}

#[test]
fn acceleration_is_force_over_mass() {
    assert_eq!(accelerate(0, 5_000_000, 100_000, 100_000), 5000);
    assert_eq!(accelerate(0, -5_000_000, 100_000, 100_000), -5000);
    assert_eq!(accelerate(-5000, -3333, 1000, 500_000), -6666);
    assert_eq!(accelerate(5000, 3333, 1000, 500_000), 6666);
    assert_eq!(accelerate(100, 1, 3, 1_000_000), 433);
    assert_eq!(accelerate(i64::MAX, i64::MAX, 1, u32::MAX), i64::MAX);
    assert_eq!(accelerate(i64::MIN, i64::MIN, 1, u32::MAX), i64::MIN);
    assert_eq!(accelerate(7, 1_000_000, 1000, 0), 7);
}

#[test]
fn motion_rounds_toward_zero_in_both_directions() {
    let mut back = Physics {
        mass: Mass(1000),
        ..tank(Vec3 { x: 0, y: 0, z: -3333 }, Vec3 { x: 0, y: 0, z: -5000 })
    };
    apply_force(&mut back, 500_000, Rotation(180_000));
    assert_eq!(back.velocity, Velocity(Vec3 { x: 0, y: 0, z: -6666 }));
    assert_eq!(back.position, Position(Vec3 { x: 0, y: 0, z: -3333 }));

    let mut forth = Physics {
        mass: Mass(1000),
        ..tank(Vec3 { x: 0, y: 0, z: 3333 }, Vec3 { x: 0, y: 0, z: 5000 })
    };
    apply_force(&mut forth, 500_000, Rotation(0));
    assert_eq!(forth.velocity, Velocity(Vec3 { x: 0, y: 0, z: 6666 }));
    assert_eq!(forth.position, Position(Vec3 { x: 0, y: 0, z: 3333 }));
}

#[test]
fn the_turn_does_not_depend_on_the_length_of_the_frame() {
    let mut short = tank(ZERO, Vec3 { x: 5000, y: 0, z: 0 });
    apply_force(&mut short, 1_000, Rotation(90_000));
    let mut long = tank(ZERO, Vec3 { x: 5000, y: 0, z: 0 });
    apply_force(&mut long, 1_000_000, Rotation(90_000));
    assert_eq!(short.rotation, Rotation(9000));
    assert_eq!(long.rotation, Rotation(9000));
    assert_eq!(short.position, Position(Vec3 { x: 5, y: 0, z: 0 }));
    assert_eq!(long.position, Position(Vec3 { x: 5000, y: 0, z: 0 }));
}

#[test]
fn a_new_entity_rests_at_the_origin_with_mass_one() {
    let p = Physics::default();
    assert_eq!(p.position, Position(ZERO));
    assert_eq!(p.rotation, Rotation(0));
    assert_eq!(p.mass, Mass(1000));
    assert_eq!(p.velocity, Velocity(ZERO));
    assert_eq!(p.force, Force(ZERO));
}

#[test]
fn vectors_turn_with_the_heading() {
    let ahead = Facing { sin: 0, cos: 1000 };
    let left = Facing { sin: 1000, cos: 0 };
    let back = Facing { sin: 0, cos: -1000 };
    let slant = Facing { sin: 707, cos: 707 };
    let v = Vec3 { x: 200, y: 7, z: 5000 };
    assert_eq!(ahead.rotate(v), v);
    assert_eq!(left.rotate(v), Vec3 { x: 5000, y: 7, z: -200 });
    assert_eq!(back.rotate(v), Vec3 { x: -200, y: 7, z: -5000 });
    assert_eq!(slant.rotate(v), Vec3 { x: 141 + 3535, y: 7, z: 3535 - 141 });
    assert_eq!(slant.rotate(Vec3 { x: -200, y: 7, z: -5000 }), Vec3 { x: -141 - 3535, y: 7, z: -3535 + 141 });
    let wild = Facing { sin: i64::MIN, cos: i64::MIN };
    let far = Vec3 { x: i64::MIN, y: 1, z: i64::MIN };
    assert_eq!(wild.rotate(far), Vec3 { x: i64::MAX, y: 1, z: 0 });
}
