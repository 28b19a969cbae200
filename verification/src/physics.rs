use vstd::prelude::*;

use crate::geom::{in_world, vec_in_world, Vec2};

verus! {

/// Downward acceleration added to every actor once per fixed tick.
pub const GRAVITY: i64 = 1;

/// Horizontal walking speed, in position units per time unit.
pub const MOVE_SPEED: i64 = 100;

/// Longest tick duration the integrator accepts.
pub const TICK_LIMIT: i64 = 0x10_0000;

/// Largest per-tick pending acceleration the integrator accepts.
pub const ACC_LIMIT: i64 = 0x20_0000;

/// The kinematic state of one actor: where it is, how fast it moves, and the
/// one-shot acceleration accumulated for the current tick.
#[derive(Clone, Copy, Debug, PartialEq, Eq, Structural)]
pub struct Kinematics {
    pub pos: Vec2,
    pub vel: Vec2,
    pub acc: Vec2,
}

pub open spec fn kin_in_world(k: Kinematics) -> bool {
    vec_in_world(k.pos) && vec_in_world(k.vel) && vec_in_world(k.acc)
}

/// What one gravity application does: pull the pending acceleration down.
pub open spec fn spec_apply_gravity(k: Kinematics) -> Kinematics {
    Kinematics {
        acc: Vec2 { x: k.acc.x, y: (k.acc.y - GRAVITY) as i64 },
        ..k
    }
}

/// Adds the constant downward gravity delta to an actor's pending
/// acceleration; position and velocity are untouched.
pub fn apply_gravity(k: &mut Kinematics)
    requires
        in_world(old(k).acc.y as int),
    ensures
        *final(k) == spec_apply_gravity(*old(k)),
{
    k.acc.y = k.acc.y - GRAVITY;
}

/// What one integration step does: fold the pending acceleration, scaled by
/// the tick duration, into the velocity, reset the acceleration (impulses
/// are one-shot per tick), then move the position by velocity times the tick
/// duration.
pub open spec fn spec_integrate(k: Kinematics, dt: int) -> Kinematics {
    let vx = k.vel.x + k.acc.x * dt;
    let vy = k.vel.y + k.acc.y * dt;
    Kinematics {
        pos: Vec2 { x: (k.pos.x + vx * dt) as i64, y: (k.pos.y + vy * dt) as i64 },
        vel: Vec2 { x: vx as i64, y: vy as i64 },
        acc: Vec2 { x: 0, y: 0 },
    }
}

/// One fixed-timestep integration step for one actor.
pub fn integrate(k: &mut Kinematics, dt: i64)
    requires
        kin_in_world(*old(k)),
        -ACC_LIMIT <= old(k).acc.x <= ACC_LIMIT,
        -ACC_LIMIT <= old(k).acc.y <= ACC_LIMIT,
        0 <= dt <= TICK_LIMIT,
    ensures
        *final(k) == spec_integrate(*old(k), dt as int),
{
    proof {
        let ai = k.acc.x as int;
        let bi = k.acc.y as int;
        assert(-0x200_0000_0000 <= ai * dt <= 0x200_0000_0000 && -0x200_0000_0000 <= bi * dt
            <= 0x200_0000_0000) by (nonlinear_arith)
            requires
                -0x20_0000 <= ai <= 0x20_0000,
                -0x20_0000 <= bi <= 0x20_0000,
                0 <= dt <= 0x10_0000,
        ;
    }
    let vx = k.vel.x + k.acc.x * dt;
    let vy = k.vel.y + k.acc.y * dt;
    proof {
        assert(vx * dt <= 0x300_0000_0000 * 0x10_0000 && vx * dt >= -0x300_0000_0000 * 0x10_0000)
            by (nonlinear_arith)
            requires
                -0x300_0000_0000 <= vx <= 0x300_0000_0000,
                0 <= dt <= 0x10_0000,
        ;
        assert(vy * dt <= 0x300_0000_0000 * 0x10_0000 && vy * dt >= -0x300_0000_0000 * 0x10_0000)
            by (nonlinear_arith)
            requires
                -0x300_0000_0000 <= vy <= 0x300_0000_0000,
                0 <= dt <= 0x10_0000,
        ;
    }
    k.vel.x = vx;
    k.vel.y = vy;
    k.acc.x = 0;
    k.acc.y = 0;
    k.pos.x = k.pos.x + vx * dt;
    k.pos.y = k.pos.y + vy * dt;
}

/// What walking input does to the position: left wins over right, and either
/// moves the actor at the fixed speed for the whole tick.
pub open spec fn spec_apply_movement(k: Kinematics, left: bool, right: bool, dt: int) -> Kinematics {
    if left {
        Kinematics { pos: Vec2 { x: (k.pos.x - MOVE_SPEED * dt) as i64, y: k.pos.y }, ..k }
    } else if right {
        Kinematics { pos: Vec2 { x: (k.pos.x + MOVE_SPEED * dt) as i64, y: k.pos.y }, ..k }
    } else {
        k
    }
}

/// Applies held walking input directly to the position (not through the
/// acceleration).  Left takes priority when both directions are held.
pub fn apply_movement(k: &mut Kinematics, left: bool, right: bool, dt: i64)
    requires
        in_world(old(k).pos.x as int),
        0 <= dt <= TICK_LIMIT,
    ensures
        *final(k) == spec_apply_movement(*old(k), left, right, dt as int),
{
    proof {
        assert(MOVE_SPEED * dt <= 100 * 0x10_0000) by (nonlinear_arith)
            requires
                0 <= dt <= 0x10_0000,
        ;
        assert(MOVE_SPEED * dt >= 0) by (nonlinear_arith)
            requires
                0 <= dt,
        ;
    }
    if left {
        k.pos.x = k.pos.x - MOVE_SPEED * dt;
    } else if right {
        k.pos.x = k.pos.x + MOVE_SPEED * dt;
    }
}

/// Applies gravity to every actor with kinematic state, as one per-tick
/// batch.
pub fn gravity_system(actors: &mut Vec<Kinematics>)
    requires
        forall|i: int|
            0 <= i < old(actors)@.len() ==> in_world((#[trigger] old(actors)@[i]).acc.y as int),
    ensures
        final(actors)@.len() == old(actors)@.len(),
        forall|i: int|
            0 <= i < old(actors)@.len() ==> final(actors)@[i] == spec_apply_gravity(
                #[trigger] old(actors)@[i],
            ),
{
    let mut i: usize = 0;
    while i < actors.len()
        invariant
            0 <= i <= actors@.len(),
            actors@.len() == old(actors)@.len(),
            forall|m: int|
                0 <= m < old(actors)@.len() ==> in_world((#[trigger] old(actors)@[m]).acc.y as int),
            forall|m: int| i <= m < actors@.len() ==> actors@[m] == old(actors)@[m],
            forall|m: int|
                0 <= m < i ==> actors@[m] == spec_apply_gravity(#[trigger] old(actors)@[m]),
        decreases actors@.len() - i,
    {
        let mut a = actors[i];
        apply_gravity(&mut a);
        *vstd::std_specs::vec::vec_index_mut(actors, i) = a;
        i = i + 1;
    }
}

/// One fixed-timestep integration step for every actor with kinematic state.
pub fn physics_system(actors: &mut Vec<Kinematics>, dt: i64)
    requires
        0 <= dt <= TICK_LIMIT,
        forall|i: int|
            0 <= i < old(actors)@.len() ==> kin_in_world(#[trigger] old(actors)@[i]) && -ACC_LIMIT
                <= old(actors)@[i].acc.x <= ACC_LIMIT && -ACC_LIMIT <= old(actors)@[i].acc.y
                <= ACC_LIMIT,
    ensures
        final(actors)@.len() == old(actors)@.len(),
        forall|i: int|
            0 <= i < old(actors)@.len() ==> final(actors)@[i] == spec_integrate(
                #[trigger] old(actors)@[i],
                dt as int,
            ),
{
    let mut i: usize = 0;
    while i < actors.len()
        invariant
            0 <= i <= actors@.len(),
            0 <= dt <= TICK_LIMIT,
            actors@.len() == old(actors)@.len(),
            forall|m: int|
                0 <= m < old(actors)@.len() ==> kin_in_world(#[trigger] old(actors)@[m])
                    && -ACC_LIMIT <= old(actors)@[m].acc.x <= ACC_LIMIT && -ACC_LIMIT <= old(
                    actors,
                )@[m].acc.y <= ACC_LIMIT,
            forall|m: int| i <= m < actors@.len() ==> actors@[m] == old(actors)@[m],
            forall|m: int|
                0 <= m < i ==> actors@[m] == spec_integrate(#[trigger] old(actors)@[m], dt as int),
        decreases actors@.len() - i,
    {
        let mut a = actors[i];
        integrate(&mut a, dt);
        *vstd::std_specs::vec::vec_index_mut(actors, i) = a;
        i = i + 1;
    }
}

/// One tick of free fall: gravity, then integration, with no other input.
pub open spec fn spec_free_fall_tick(k: Kinematics, dt: int) -> Kinematics {
    spec_integrate(spec_apply_gravity(k), dt)
}

/// The state after `n` ticks of free fall.
pub open spec fn spec_free_fall(k: Kinematics, dt: int, n: nat) -> Kinematics
    decreases n,
{
    if n == 0 {
        k
    } else {
        spec_free_fall_tick(spec_free_fall(k, dt, (n - 1) as nat), dt)
    }
}

/// Gravity monotonicity: with no input, an actor whose pending acceleration
/// does not point upward sees its vertical velocity strictly decrease on
/// every tick of free fall, until something (a ground contact) zeroes it.
pub proof fn lemma_free_fall_velocity_decreases(k: Kinematics, dt: int, n: nat)
    requires
        k.acc.y <= 0,
        kin_in_world(k),
        1 <= dt <= TICK_LIMIT as int,
        n <= 0x10_0000_0000,
    ensures
        spec_free_fall(k, dt, n + 1).vel.y < spec_free_fall(k, dt, n).vel.y,
        spec_free_fall(k, dt, n + 1).vel.y == k.vel.y + k.acc.y * dt - (n + 1) * ((GRAVITY as int)
            * dt),
        spec_free_fall(k, dt, n + 1).acc.y == 0,
    decreases n,
{
    let g = GRAVITY as int;
    assert(-0x100_0000_0000 * 0x10_0000 <= k.acc.y * dt <= 0) by (nonlinear_arith)
        requires
            -0x100_0000_0000 <= k.acc.y <= 0,
            0 <= dt <= 0x10_0000,
    ;
    if n == 0 {
        assert(spec_free_fall(k, dt, 1) == spec_free_fall_tick(spec_free_fall(k, dt, 0), dt));
        // the first tick folds (acceleration - gravity) x tick-duration into
        // the velocity
        assert((k.acc.y - g) * dt == k.acc.y * dt - g * dt && (k.acc.y - g) * dt <= -dt)
            by (nonlinear_arith)
            requires
                k.acc.y - g <= -1,
                dt >= 1,
        ;
    } else {
        lemma_free_fall_velocity_decreases(k, dt, (n - 1) as nat);
        // the n-th state has no pending acceleration left, so the next tick
        // subtracts exactly gravity x tick-duration
        assert((0 - g) * dt == -(g * dt) && (n + 1) * (g * dt) == n * (g * dt) + g * dt)
            by (nonlinear_arith);
        assert(0 <= n * (g * dt) <= 0x10_0000_0000 * 0x10_0000) by (nonlinear_arith)
            requires
                0 <= n <= 0x10_0000_0000,
                0 <= g * dt <= 0x10_0000,
        ;
    }
}

} // verus!
