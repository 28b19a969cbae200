use vstd::prelude::*;

use crate::collision::{resolve_actor, spec_resolve_all, SimError};
use crate::geom::{box_in_world, in_world, vec_in_world, wf_aabb, Aabb, Vec2, WORLD_LIMIT};
use crate::input::InputSnapshot;
use crate::jump::{
    jump_tick, spec_jump_impulse, spec_jump_lock_after, JumpFrame, JumpState, JUMP_IMPULSE,
};
use crate::physics::{
    apply_gravity, apply_movement, integrate, spec_apply_gravity, spec_apply_movement,
    spec_integrate, Kinematics, MOVE_SPEED,
};

verus! {

/// Longest tick duration one physics frame accepts.
pub const FRAME_TICK_LIMIT: i64 = 0x400;

/// Largest speed one physics frame accepts.
pub const FRAME_SPEED_LIMIT: i64 = 0x10_0000;

/// Largest pending acceleration one physics frame accepts; between frames
/// the integrator leaves it at zero, impulses being one-shot per tick.
pub const FRAME_ACC_LIMIT: i64 = 0x400;

/// An actor's per-frame mutable state: kinematics plus the jump lock.
#[derive(Clone, Copy, Debug, PartialEq, Eq, Structural)]
pub struct ActorState {
    pub kin: Kinematics,
    pub jump: JumpState,
}

/// Bounds under which one frame of the physics chain cannot overflow and
/// cannot leave the coordinate range the collision resolver accepts.
pub open spec fn frame_safe(k: Kinematics, dt: int) -> bool {
    &&& -(WORLD_LIMIT as int) / 2 <= k.pos.x <= (WORLD_LIMIT as int) / 2
    &&& -(WORLD_LIMIT as int) / 2 <= k.pos.y <= (WORLD_LIMIT as int) / 2
    &&& -(FRAME_SPEED_LIMIT as int) <= k.vel.x <= FRAME_SPEED_LIMIT as int
    &&& -(FRAME_SPEED_LIMIT as int) <= k.vel.y <= FRAME_SPEED_LIMIT as int
    &&& -(FRAME_ACC_LIMIT as int) <= k.acc.x <= FRAME_ACC_LIMIT as int
    &&& -(FRAME_ACC_LIMIT as int) <= k.acc.y <= FRAME_ACC_LIMIT as int
    &&& 0 <= dt <= FRAME_TICK_LIMIT as int
}

/// What the jump controller does to the kinematics when the impulse fires.
pub open spec fn spec_jump_kin(k: Kinematics, impulse: bool) -> Kinematics {
    if impulse {
        Kinematics { acc: Vec2 { x: k.acc.x, y: (k.acc.y + JUMP_IMPULSE) as i64 }, ..k }
    } else {
        k
    }
}

/// The kinematic state one frame of the chain produces, before collision
/// resolution: movement, then the jump impulse, then gravity, then
/// integration.
pub open spec fn spec_frame_kin(
    k: Kinematics,
    locked: bool,
    input: InputSnapshot,
    grounded_event: bool,
    dt: int,
) -> Kinematics {
    let k1 = spec_apply_movement(k, input.left_held, input.right_held, dt);
    let jf = JumpFrame { grounded: grounded_event, jump_pressed: input.jump_just_pressed };
    let k2 = spec_jump_kin(k1, spec_jump_impulse(locked, jf));
    spec_integrate(spec_apply_gravity(k2), dt)
}

/// One fixed tick of an actor's physics chain, in the strict pipeline order:
/// walking movement, the jump controller (consuming the previous frame's
/// ground-contact event), gravity, integration, and finally collision
/// resolution against every blocking obstacle.  Returns whether a ground
/// contact was detected this frame — to be handed to the next frame — or the
/// fatal error on a contained overlap.  An actor without input or jumping
/// (an NPC) runs the same chain with an idle snapshot.
pub fn actor_physics_frame(
    actor: &mut ActorState,
    half: Vec2,
    obstacles: &Vec<Aabb>,
    input: InputSnapshot,
    grounded_event: bool,
    dt: i64,
) -> (r: Result<bool, SimError>)
    requires
        frame_safe(old(actor).kin, dt as int),
        vec_in_world(half),
        half.x >= 0,
        half.y >= 0,
        forall|j: int|
            0 <= j < obstacles@.len() ==> box_in_world(#[trigger] obstacles@[j]) && wf_aabb(
                obstacles@[j],
            ),
    ensures
        final(actor).jump.airborne == spec_jump_lock_after(
            old(actor).jump.airborne,
            JumpFrame { grounded: grounded_event, jump_pressed: input.jump_just_pressed },
        ),
        match spec_resolve_all(
            spec_frame_kin(old(actor).kin, old(actor).jump.airborne, input, grounded_event, dt as int),
            half,
            obstacles@,
        ) {
            Some((kf, g)) => r == Ok::<bool, SimError>(g) && final(actor).kin == kf,
            None => r == Err::<bool, SimError>(SimError::ContainedOverlap) && final(actor).kin
                == spec_frame_kin(
                old(actor).kin,
                old(actor).jump.airborne,
                input,
                grounded_event,
                dt as int,
            ),
        },
{
    apply_movement(&mut actor.kin, input.left_held, input.right_held, dt);
    let jf = JumpFrame { grounded: grounded_event, jump_pressed: input.jump_just_pressed };
    jump_tick(&mut actor.jump, &mut actor.kin, jf);
    apply_gravity(&mut actor.kin);
    integrate(&mut actor.kin, dt);
    proof {
        let k0 = old(actor).kin;
        let dti = dt as int;
        let k1 = spec_apply_movement(k0, input.left_held, input.right_held, dti);
        assert(0 <= MOVE_SPEED * dti <= 102400) by (nonlinear_arith)
            requires
                0 <= dti <= 0x400,
        ;
        assert(in_world(k1.pos.x as int) && in_world(k1.pos.y as int));
        let jf2 = JumpFrame { grounded: grounded_event, jump_pressed: input.jump_just_pressed };
        let kg = spec_apply_gravity(spec_jump_kin(k1, spec_jump_impulse(
            old(actor).jump.airborne,
            jf2,
        )));
        assert(-0x500 <= kg.acc.x <= 0x500 && -0x500 <= kg.acc.y <= 0x500);
        assert(-0x14_0000 <= kg.acc.x * dti <= 0x14_0000 && -0x14_0000 <= kg.acc.y * dti
            <= 0x14_0000) by (nonlinear_arith)
            requires
                -0x500 <= kg.acc.x <= 0x500,
                -0x500 <= kg.acc.y <= 0x500,
                0 <= dti <= 0x400,
        ;
        let vfx = actor.kin.vel.x as int;
        let vfy = actor.kin.vel.y as int;
        assert(-0x30_0000 <= vfx <= 0x30_0000 && -0x30_0000 <= vfy <= 0x30_0000);
        assert(-0xC000_0000 <= vfx * dti <= 0xC000_0000) by (nonlinear_arith)
            requires
                -0x30_0000 <= vfx <= 0x30_0000,
                0 <= dti <= 0x400,
        ;
        assert(-0xC000_0000 <= vfy * dti <= 0xC000_0000) by (nonlinear_arith)
            requires
                -0x30_0000 <= vfy <= 0x30_0000,
                0 <= dti <= 0x400,
        ;
        assert(crate::physics::kin_in_world(actor.kin));
    }
    resolve_actor(&mut actor.kin, half, obstacles)
}

} // verus!
