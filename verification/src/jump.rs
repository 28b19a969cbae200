use vstd::prelude::*;

use crate::geom::{in_world, Vec2};
use crate::physics::Kinematics;

verus! {

/// Upward acceleration impulse applied when a jump starts.
pub const JUMP_IMPULSE: i64 = 100;

/// The jump lock: held from the moment an actor jumps until the next
/// ground-contact event for that actor.
#[derive(Clone, Copy, Debug, PartialEq, Eq, Structural)]
pub struct JumpState {
    pub airborne: bool,
}

/// What the jump controller sees in one frame: whether a ground-contact
/// event for this actor was emitted this frame, and whether a fresh jump
/// input edge was observed.
#[derive(Clone, Copy, Debug, PartialEq, Eq, Structural)]
pub struct JumpFrame {
    pub grounded: bool,
    pub jump_pressed: bool,
}

/// Whether the jump impulse fires this frame: ground events are consumed
/// before the input edge is checked, so landing and jumping again in the
/// same frame is possible.
pub open spec fn spec_jump_impulse(locked: bool, f: JumpFrame) -> bool {
    (f.grounded || !locked) && f.jump_pressed
}

/// The lock after one frame: set by a fired impulse, kept while airborne,
/// cleared by a ground contact with no new jump.
pub open spec fn spec_jump_lock_after(locked: bool, f: JumpFrame) -> bool {
    spec_jump_impulse(locked, f) || (locked && !f.grounded)
}

/// One frame of the jump controller for one actor: consumes this frame's
/// ground-contact report, then applies a one-shot upward impulse on a fresh
/// jump edge if no lock is held, taking the lock.
pub fn jump_tick(state: &mut JumpState, k: &mut Kinematics, frame: JumpFrame) -> (impulse: bool)
    requires
        in_world(old(k).acc.y as int),
    ensures
        impulse == spec_jump_impulse(old(state).airborne, frame),
        final(state).airborne == spec_jump_lock_after(old(state).airborne, frame),
        impulse ==> *final(k) == (Kinematics {
            acc: Vec2 { x: old(k).acc.x, y: (old(k).acc.y + JUMP_IMPULSE) as i64 },
            ..*old(k)
        }),
        !impulse ==> *final(k) == *old(k),
{
    if frame.grounded {
        state.airborne = false;
    }
    if !state.airborne && frame.jump_pressed {
        k.acc.y = k.acc.y + JUMP_IMPULSE;
        state.airborne = true;
        true
    } else {
        false
    }
}

/// The lock state before frame `n`, starting from `locked` and running the
/// controller over `frames`.
pub open spec fn spec_lock_at(locked: bool, frames: Seq<JumpFrame>, n: int) -> bool
    decreases n,
{
    if n <= 0 {
        locked
    } else {
        spec_jump_lock_after(spec_lock_at(locked, frames, n - 1), frames[n - 1])
    }
}

/// Whether frame `n` fires the impulse in that run.
pub open spec fn spec_impulse_at(locked: bool, frames: Seq<JumpFrame>, n: int) -> bool {
    spec_jump_impulse(spec_lock_at(locked, frames, n), frames[n])
}

/// While the lock is held and no ground-contact event arrives, the lock
/// stays held and no impulse can fire.
pub proof fn lemma_locked_until_ground(locked: bool, frames: Seq<JumpFrame>, start: int, n: int)
    requires
        0 <= start <= n < frames.len(),
        spec_lock_at(locked, frames, start),
        forall|m: int| start <= m <= n ==> !(#[trigger] frames[m]).grounded,
    ensures
        spec_lock_at(locked, frames, n),
        !spec_impulse_at(locked, frames, n),
    decreases n - start,
{
    if n > start {
        lemma_locked_until_ground(locked, frames, start, n - 1);
    }
}

/// No double jump: for any input sequence, if the impulse fires at two
/// frames, then some frame after the first and no later than the second saw
/// a ground-contact event.
pub proof fn lemma_no_double_jump(locked: bool, frames: Seq<JumpFrame>, i: int, j: int)
    requires
        0 <= i < j < frames.len(),
        spec_impulse_at(locked, frames, i),
        spec_impulse_at(locked, frames, j),
    ensures
        exists|m: int| i < m <= j && (#[trigger] frames[m]).grounded,
{
    if !(exists|m: int| i < m <= j && (#[trigger] frames[m]).grounded) {
        assert(forall|m: int| i < m <= j ==> !(#[trigger] frames[m]).grounded);
        assert(spec_lock_at(locked, frames, i + 1));
        lemma_locked_until_ground(locked, frames, i + 1, j);
        assert(false);
    }
}

} // verus!
