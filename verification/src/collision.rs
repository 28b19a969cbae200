use vstd::prelude::*;

use crate::geom::{
    box_in_world, max_x, max_y, min_x, min_y, overlapping, vec_in_world, wf_aabb, Aabb,
    Vec2, WORLD_LIMIT,
};
use crate::physics::{kin_in_world, Kinematics};

verus! {

/// The side of the obstacle that the actor ran into.
#[derive(Clone, Copy, Debug, PartialEq, Eq, Structural)]
pub enum Side {
    Left,
    Right,
    Top,
    Bottom,
}

/// Outcome of one AABB test between an actor and an obstacle.  `Inside`
/// (full containment along both axes) is an invalid state for this
/// simulation, never a resolvable contact.
#[derive(Clone, Copy, Debug, PartialEq, Eq, Structural)]
pub enum Contact {
    Miss,
    Hit(Side),
    Inside,
}

/// Fatal invariant violations; the session is meant to abort on these.
#[derive(Clone, Copy, Debug, PartialEq, Eq, Structural)]
pub enum SimError {
    ContainedOverlap,
}

/// Coordinates a collision test accepts: wide enough that a position already
/// snapped against an in-world obstacle can be tested again.
pub open spec fn in_span(v: int) -> bool {
    -4 * (WORLD_LIMIT as int) <= v && v <= 4 * (WORLD_LIMIT as int)
}

pub open spec fn box_in_span(b: Aabb) -> bool {
    in_span(b.center.x as int) && in_span(b.center.y as int) && in_span(b.half.x as int)
        && in_span(b.half.y as int)
}

/// Which of the obstacle's vertical edges the actor penetrates, if it
/// straddles exactly one of them: `Left` when the actor comes from the left,
/// `Right` from the right, and nothing when the actor's horizontal span lies
/// inside (or spans) the obstacle's.
pub open spec fn x_side(a: Aabb, b: Aabb) -> Option<Side> {
    if min_x(a) < min_x(b) && max_x(a) > min_x(b) && max_x(a) < max_x(b) {
        Some(Side::Left)
    } else if min_x(a) > min_x(b) && min_x(a) < max_x(b) && max_x(a) > max_x(b) {
        Some(Side::Right)
    } else {
        None
    }
}

/// Depth of the horizontal penetration; meaningful only when `x_side` picks
/// a side.
pub open spec fn x_penetration(a: Aabb, b: Aabb) -> int {
    if x_side(a, b) == Some(Side::Left) {
        max_x(a) - min_x(b)
    } else {
        max_x(b) - min_x(a)
    }
}

/// Which of the obstacle's horizontal edges the actor penetrates: `Bottom`
/// when the actor comes from below, `Top` from above.
pub open spec fn y_side(a: Aabb, b: Aabb) -> Option<Side> {
    if min_y(a) < min_y(b) && max_y(a) > min_y(b) && max_y(a) < max_y(b) {
        Some(Side::Bottom)
    } else if min_y(a) > min_y(b) && min_y(a) < max_y(b) && max_y(a) > max_y(b) {
        Some(Side::Top)
    } else {
        None
    }
}

/// Depth of the vertical penetration; meaningful only when `y_side` picks a
/// side.
pub open spec fn y_penetration(a: Aabb, b: Aabb) -> int {
    if y_side(a, b) == Some(Side::Bottom) {
        max_y(a) - min_y(b)
    } else {
        max_y(b) - min_y(a)
    }
}

/// The single dominant contact between actor box `a` and obstacle box `b`:
/// no contact without interior overlap; otherwise the side with the smaller
/// penetration wins, the horizontal side on a tie; and when neither axis
/// names a side the actor is fully contained, which is invalid.
pub open spec fn contact_of(a: Aabb, b: Aabb) -> Contact {
    if !overlapping(a, b) {
        Contact::Miss
    } else {
        match (x_side(a, b), y_side(a, b)) {
            (None, None) => Contact::Inside,
            (Some(xs), None) => Contact::Hit(xs),
            (None, Some(ys)) => Contact::Hit(ys),
            (Some(xs), Some(ys)) => if y_penetration(a, b) < x_penetration(a, b) {
                Contact::Hit(ys)
            } else {
                Contact::Hit(xs)
            },
        }
    }
}

/// Executable AABB contact classification.
pub fn collide(a: &Aabb, b: &Aabb) -> (c: Contact)
    requires
        box_in_span(*a),
        box_in_span(*b),
    ensures
        c == contact_of(*a, *b),
{
    let a_min_x = a.center.x - a.half.x;
    let a_max_x = a.center.x + a.half.x;
    let a_min_y = a.center.y - a.half.y;
    let a_max_y = a.center.y + a.half.y;
    let b_min_x = b.center.x - b.half.x;
    let b_max_x = b.center.x + b.half.x;
    let b_min_y = b.center.y - b.half.y;
    let b_max_y = b.center.y + b.half.y;

    if !(a_min_x < b_max_x && a_max_x > b_min_x && a_min_y < b_max_y && a_max_y > b_min_y) {
        return Contact::Miss;
    }

    let sx: Option<Side> = if a_min_x < b_min_x && a_max_x > b_min_x && a_max_x < b_max_x {
        Some(Side::Left)
    } else if a_min_x > b_min_x && a_min_x < b_max_x && a_max_x > b_max_x {
        Some(Side::Right)
    } else {
        None
    };

    let sy: Option<Side> = if a_min_y < b_min_y && a_max_y > b_min_y && a_max_y < b_max_y {
        Some(Side::Bottom)
    } else if a_min_y > b_min_y && a_min_y < b_max_y && a_max_y > b_max_y {
        Some(Side::Top)
    } else {
        None
    };

    match (sx, sy) {
        (None, None) => Contact::Inside,
        (Some(xs), None) => Contact::Hit(xs),
        (None, Some(ys)) => Contact::Hit(ys),
        (Some(xs), Some(ys)) => {
            let x_depth = if matches!(xs, Side::Left) {
                a_max_x - b_min_x
            } else {
                b_max_x - a_min_x
            };
            let y_depth = if matches!(ys, Side::Bottom) {
                a_max_y - b_min_y
            } else {
                b_max_y - a_min_y
            };
            if y_depth < x_depth {
                Contact::Hit(ys)
            } else {
                Contact::Hit(xs)
            }
        },
    }
}

/// The box an actor occupies: its position is the box center.
pub open spec fn actor_box(pos: Vec2, half: Vec2) -> Aabb {
    Aabb { center: pos, half: half }
}

/// The kinematic state after one contact is resolved: the penetrated axis's
/// velocity and pending acceleration are zeroed and the position is snapped
/// flush against the obstacle's edge.  The second component reports ground
/// contact, true exactly for a landing on the obstacle's top.
pub open spec fn spec_resolve_hit(k: Kinematics, half: Vec2, ob: Aabb, side: Side) -> (
    Kinematics,
    bool,
) {
    match side {
        Side::Left => (
            Kinematics {
                pos: Vec2 { x: (ob.center.x - ob.half.x - half.x) as i64, y: k.pos.y },
                vel: Vec2 { x: 0, y: k.vel.y },
                acc: Vec2 { x: 0, y: k.acc.y },
            },
            false,
        ),
        Side::Right => (
            Kinematics {
                pos: Vec2 { x: (ob.center.x + ob.half.x + half.x) as i64, y: k.pos.y },
                vel: Vec2 { x: 0, y: k.vel.y },
                acc: Vec2 { x: 0, y: k.acc.y },
            },
            false,
        ),
        Side::Top => (
            Kinematics {
                pos: Vec2 { x: k.pos.x, y: (ob.center.y + ob.half.y + half.y) as i64 },
                vel: Vec2 { x: k.vel.x, y: 0 },
                acc: Vec2 { x: k.acc.x, y: 0 },
            },
            true,
        ),
        Side::Bottom => (
            Kinematics {
                pos: Vec2 { x: k.pos.x, y: (ob.center.y - ob.half.y - half.y) as i64 },
                vel: Vec2 { x: k.vel.x, y: 0 },
                acc: Vec2 { x: k.acc.x, y: 0 },
            },
            false,
        ),
    }
}

/// Resolution against a single obstacle; `None` is the fatal contained case.
pub open spec fn spec_resolve_step(k: Kinematics, half: Vec2, ob: Aabb) -> Option<
    (Kinematics, bool),
> {
    match contact_of(actor_box(k.pos, half), ob) {
        Contact::Miss => Some((k, false)),
        Contact::Hit(side) => Some(spec_resolve_hit(k, half, ob, side)),
        Contact::Inside => None,
    }
}

/// Resolution against obstacles `i..` in order, each test seeing the
/// corrections the previous ones made; ground contact accumulates.
pub open spec fn spec_resolve_from(
    k: Kinematics,
    half: Vec2,
    obstacles: Seq<Aabb>,
    i: int,
) -> Option<(Kinematics, bool)>
    decreases obstacles.len() - i,
{
    if i < 0 || i >= obstacles.len() {
        Some((k, false))
    } else {
        match spec_resolve_step(k, half, obstacles[i]) {
            None => None,
            Some((k1, g1)) => match spec_resolve_from(k1, half, obstacles, i + 1) {
                None => None,
                Some((k2, g2)) => Some((k2, g1 || g2)),
            },
        }
    }
}

/// Resolution against every obstacle in order.
pub open spec fn spec_resolve_all(k: Kinematics, half: Vec2, obstacles: Seq<Aabb>) -> Option<
    (Kinematics, bool),
> {
    spec_resolve_from(k, half, obstacles, 0)
}

/// Folds a ground flag collected so far into a resolution outcome.
pub open spec fn with_ground(r: Option<(Kinematics, bool)>, g: bool) -> Option<(Kinematics, bool)> {
    match r {
        None => None,
        Some((kf, gg)) => Some((kf, g || gg)),
    }
}

proof fn lemma_with_ground_nested(r: Option<(Kinematics, bool)>, inner: bool, outer: bool)
    ensures
        with_ground(with_ground(r, inner), outer) == with_ground(r, outer || inner),
{
}

/// Tests one actor against every blocking obstacle and resolves each overlap
/// in order.  Returns whether any contact was a landing (a ground-contact
/// event), or the fatal error when an overlap is full containment, in which
/// case the actor is left as it was.
pub fn resolve_actor(k: &mut Kinematics, half: Vec2, obstacles: &Vec<Aabb>) -> (r: Result<
    bool,
    SimError,
>)
    requires
        kin_in_world(*old(k)),
        vec_in_world(half),
        half.x >= 0,
        half.y >= 0,
        forall|j: int|
            0 <= j < obstacles@.len() ==> box_in_world(#[trigger] obstacles@[j]) && wf_aabb(
                obstacles@[j],
            ),
    ensures
        match spec_resolve_all(*old(k), half, obstacles@) {
            Some((kf, g)) => r == Ok::<bool, SimError>(g) && *final(k) == kf,
            None => r == Err::<bool, SimError>(SimError::ContainedOverlap) && *final(k) == *old(k),
        },
{
    let ghost k0 = *k;
    let mut cur = *k;
    let mut grounded = false;
    let mut i: usize = 0;

    proof {
        assert(with_ground(spec_resolve_from(k0, half, obstacles@, 0), false) == spec_resolve_from(
            k0,
            half,
            obstacles@,
            0,
        ));
    }

    while i < obstacles.len()
        invariant
            0 <= i <= obstacles@.len(),
            k0 == *old(k),
            *k == k0,
            vec_in_world(half),
            half.x >= 0,
            half.y >= 0,
            vec_in_world(cur.vel),
            vec_in_world(cur.acc),
            in_span(cur.pos.x as int),
            in_span(cur.pos.y as int),
            forall|j: int|
                0 <= j < obstacles@.len() ==> box_in_world(#[trigger] obstacles@[j]) && wf_aabb(
                    obstacles@[j],
                ),
            spec_resolve_all(k0, half, obstacles@) == with_ground(
                spec_resolve_from(cur, half, obstacles@, i as int),
                grounded,
            ),
        decreases obstacles@.len() - i,
    {
        let ob = obstacles[i];
        let abox = Aabb { center: cur.pos, half: half };
        let contact = collide(&abox, &ob);
        let ghost cur_before = cur;
        let ghost grounded_before = grounded;
        match contact {
            Contact::Miss => {},
            Contact::Hit(side) => {
                match side {
                    Side::Left => {
                        cur.pos.x = ob.center.x - ob.half.x - half.x;
                        cur.vel.x = 0;
                        cur.acc.x = 0;
                    },
                    Side::Right => {
                        cur.pos.x = ob.center.x + ob.half.x + half.x;
                        cur.vel.x = 0;
                        cur.acc.x = 0;
                    },
                    Side::Top => {
                        cur.pos.y = ob.center.y + ob.half.y + half.y;
                        cur.vel.y = 0;
                        cur.acc.y = 0;
                        grounded = true;
                    },
                    Side::Bottom => {
                        cur.pos.y = ob.center.y - ob.half.y - half.y;
                        cur.vel.y = 0;
                        cur.acc.y = 0;
                    },
                }
            },
            Contact::Inside => {
                proof {
                    assert(spec_resolve_from(cur, half, obstacles@, i as int) == None::<
                        (Kinematics, bool),
                    >);
                    assert(with_ground(
                        spec_resolve_from(cur, half, obstacles@, i as int),
                        grounded,
                    ) == None::<(Kinematics, bool)>);
                    assert(spec_resolve_all(k0, half, obstacles@) == None::<(Kinematics, bool)>);
                    assert(k0 == *old(k));
                }
                return Err(SimError::ContainedOverlap);
            },
        }
        proof {
            let ghit = match contact_of(actor_box(cur_before.pos, half), obstacles@[i as int]) {
                Contact::Hit(Side::Top) => true,
                _ => false,
            };
            assert(spec_resolve_step(cur_before, half, obstacles@[i as int]) == Some((cur, ghit)));
            assert(spec_resolve_from(cur_before, half, obstacles@, i as int) == with_ground(
                spec_resolve_from(cur, half, obstacles@, i as int + 1),
                ghit,
            ));
            lemma_with_ground_nested(
                spec_resolve_from(cur, half, obstacles@, i as int + 1),
                ghit,
                grounded_before,
            );
            assert(grounded == (grounded_before || ghit));
        }
        i = i + 1;
    }
    *k = cur;
    Ok(grounded)
}

/// Resting contact is stable: an actor sitting exactly on an obstacle's top
/// surface with no velocity and no pending impulse, after one further tick of
/// free fall, is classified as the same `Top` contact again, and resolving it
/// restores the actor's state exactly — no position drift.
pub proof fn lemma_rest_on_top_is_stable(k: Kinematics, half: Vec2, ob: Aabb, dt: int)
    requires
        kin_in_world(k),
        box_in_world(ob),
        vec_in_world(half),
        half.x > 0,
        half.y > 0,
        wf_aabb(ob),
        k.vel.x == 0,
        k.vel.y == 0,
        k.acc.x == 0,
        k.acc.y == 0,
        // flush on the obstacle's top surface
        k.pos.y == ob.center.y + ob.half.y + half.y,
        // horizontally strictly over the obstacle
        ob.center.x - ob.half.x < k.pos.x - half.x,
        k.pos.x + half.x < ob.center.x + ob.half.x,
        // the tick is short enough that the sagged actor still straddles the
        // top edge rather than sinking past it (one tick of gravity from
        // rest moves the actor down by gravity x tick-duration squared)
        1 <= dt,
        (crate::physics::GRAVITY as int) * dt * dt < 2 * (half.y as int),
        (crate::physics::GRAVITY as int) * dt * dt < 2 * (ob.half.y as int),
    ensures
        contact_of(actor_box(crate::physics::spec_free_fall_tick(k, dt).pos, half), ob)
            == Contact::Hit(Side::Top),
        spec_resolve_step(crate::physics::spec_free_fall_tick(k, dt), half, ob) == Some((k, true)),
{
    let g = crate::physics::GRAVITY as int;
    let gdd = g * dt * dt;
    let kg = crate::physics::spec_apply_gravity(k);
    assert(kg.acc.y == -g && kg.acc.x == 0);
    let k1 = crate::physics::spec_free_fall_tick(k, dt);
    assert(kg.acc.x * dt == 0) by (nonlinear_arith)
        requires
            kg.acc.x == 0,
    ;
    assert(kg.acc.y * dt == -(g * dt)) by (nonlinear_arith)
        requires
            kg.acc.y == -g,
    ;
    assert(1 <= g * dt && g * dt <= g * dt * dt) by (nonlinear_arith)
        requires
            g == 1,
            dt >= 1,
    ;
    let vx = kg.vel.x + kg.acc.x * dt;
    let vy = kg.vel.y + kg.acc.y * dt;
    assert(vx == 0 && vy == -(g * dt));
    assert(vy * dt == -(g * dt * dt)) by (nonlinear_arith)
        requires
            vy == -(g * dt),
    ;
    assert(k1.pos.x == k.pos.x);
    assert(k1.pos.y == k.pos.y - gdd);
    assert(k1.vel.x == 0 && k1.vel.y == -(g * dt) && k1.acc.x == 0 && k1.acc.y == 0);
    let a = actor_box(k1.pos, half);
    assert(overlapping(a, ob));
    assert(x_side(a, ob) == None::<Side>);
    assert(y_side(a, ob) == Some(Side::Top));
    assert(contact_of(a, ob) == Contact::Hit(Side::Top));
    let (k2, landed) = spec_resolve_hit(k1, half, ob, Side::Top);
    assert(landed && k2 == k);
}

} // verus!
