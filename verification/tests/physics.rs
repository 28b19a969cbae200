use tiny_bakery::geom::Vec2;
use tiny_bakery::physics::{
    apply_gravity, apply_movement, gravity_system, integrate, physics_system, Kinematics, GRAVITY,
    MOVE_SPEED,
};

fn at_rest(x: i64, y: i64) -> Kinematics {
    Kinematics {
        pos: Vec2 { x, y },
        vel: Vec2 { x: 0, y: 0 },
        acc: Vec2 { x: 0, y: 0 },
    }
}

#[test]
fn gravity_pulls_acceleration_down() {
    let mut k = at_rest(0, 100);
    apply_gravity(&mut k);
    assert_eq!(k.acc.y, -GRAVITY);
    assert_eq!(k.acc.x, 0);
    assert_eq!(k.vel, Vec2 { x: 0, y: 0 });
    assert_eq!(k.pos, Vec2 { x: 0, y: 100 });
}

#[test]
fn integrate_folds_acceleration_and_resets_it() {
    let mut k = Kinematics {
        pos: Vec2 { x: 10, y: 20 },
        vel: Vec2 { x: 3, y: -2 },
        acc: Vec2 { x: 1, y: -1 },
    };
    integrate(&mut k, 2);
    // velocity += acceleration x tick-duration
    assert_eq!(k.vel, Vec2 { x: 3 + 1 * 2, y: -2 - 1 * 2 });
    assert_eq!(k.acc, Vec2 { x: 0, y: 0 });
    // position += velocity x tick-duration
    assert_eq!(k.pos, Vec2 { x: 10 + 5 * 2, y: 20 - 4 * 2 });
}

#[test]
fn acceleration_scales_with_the_tick_duration() {
    let mut k = at_rest(0, 0);
    k.acc.x = 2;
    integrate(&mut k, 3);
    assert_eq!(k.vel.x, 6);
    assert_eq!(k.pos.x, 18);
}

#[test]
fn free_fall_velocity_strictly_decreases_each_tick() {
    let mut k = at_rest(0, 1000);
    let mut last_vy = k.vel.y;
    for _ in 0..10 {
        apply_gravity(&mut k);
        integrate(&mut k, 1);
        assert!(k.vel.y < last_vy);
        last_vy = k.vel.y;
    }
    assert_eq!(k.vel.y, -10 * GRAVITY);
}

#[test]
fn movement_left_wins_over_right() {
    let mut k = at_rest(0, 0);
    apply_movement(&mut k, true, true, 2);
    assert_eq!(k.pos.x, -MOVE_SPEED * 2);
    apply_movement(&mut k, false, true, 1);
    assert_eq!(k.pos.x, -MOVE_SPEED * 2 + MOVE_SPEED);
    apply_movement(&mut k, false, false, 5);
    assert_eq!(k.pos.x, -MOVE_SPEED * 2 + MOVE_SPEED);
    assert_eq!(k.pos.y, 0);
    assert_eq!(k.vel, Vec2 { x: 0, y: 0 });
}

#[test]
fn batch_systems_touch_every_actor() {
    let mut actors = vec![at_rest(0, 0), at_rest(50, 60)];
    gravity_system(&mut actors);
    assert_eq!(actors[0].acc.y, -GRAVITY);
    assert_eq!(actors[1].acc.y, -GRAVITY);
    physics_system(&mut actors, 4);
    assert_eq!(actors[0].vel.y, -GRAVITY * 4);
    assert_eq!(actors[0].pos.y, -GRAVITY * 4 * 4);
    assert_eq!(actors[1].pos, Vec2 { x: 50, y: 60 - GRAVITY * 4 * 4 });
    assert_eq!(actors[0].acc, Vec2 { x: 0, y: 0 });
}
