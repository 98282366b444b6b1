use flappy_core::motion::{
    flappy_movement_system, gravity_system, velocity_system, CFlappyMovement, CGravity, CVelocity,
};
use flappy_core::transform::{Transform, Vec2};

fn profile() -> CFlappyMovement {
    CFlappyMovement { strength: 40, rotation_strength: 100, move_right_speed: 5 }
}

#[test]
fn gravity_lowers_direction_by_exactly_g_per_tick() {
    let gravity = CGravity { value: 2 };
    let mut velocity = CVelocity::default();
    let mut previous = velocity.direction.y;
    for k in 1..=5i64 {
        gravity_system(&gravity, &mut velocity);
        assert_eq!(velocity.direction.y, previous - 2);
        assert_eq!(velocity.direction.y, -2 * k);
        previous = velocity.direction.y;
    }
}

#[test]
fn flap_sets_direction_to_strength_regardless_of_accumulation() {
    let mut velocity = CVelocity::default();
    velocity.direction.y = -123456;
    flappy_movement_system(true, &profile(), &mut velocity);
    assert_eq!(velocity.direction.y, 40);
    assert_eq!(velocity.direction.x, 5);

    velocity.direction.y = 7;
    flappy_movement_system(true, &profile(), &mut velocity);
    assert_eq!(velocity.direction.y, 40);
}

#[test]
fn no_flap_leaves_vertical_direction_alone() {
    let mut velocity = CVelocity::default();
    velocity.direction.y = -9;
    flappy_movement_system(false, &profile(), &mut velocity);
    assert_eq!(velocity.direction.y, -9);
    assert_eq!(velocity.direction.x, 5);
}

#[test]
fn velocity_system_integrates_direction_times_speed() {
    let mut velocity = CVelocity { value: Vec2 { x: 0, y: 0 }, direction: Vec2 { x: 5, y: -2 }, speed: 3 };
    let mut transform = Transform { position: Vec2 { x: 100, y: 50 }, scale: 20 };
    velocity_system(&mut velocity, &mut transform);
    assert_eq!(velocity.value, Vec2 { x: 15, y: -6 });
    assert_eq!(transform.position, Vec2 { x: 115, y: 44 });
    assert_eq!(transform.scale, 20);
}
