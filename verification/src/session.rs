use vstd::prelude::*;

use crate::geom::{box_in_world, overlapping, overlaps, Aabb};
use crate::inventory::Inventory;
use crate::items::{cake_from_index, CakeType, CAKE_TYPE_COUNT};

verus! {

/// How long a standard session lasts, in milliseconds.
pub const SESSION_DURATION_MS: u64 = 900000;

/// Coarse phase of the program around one play session.
#[derive(Clone, Copy, Debug, PartialEq, Eq, Structural)]
pub enum Phase {
    PreSession,
    InSession,
    PostSession,
}

/// The session countdown: fixed duration, driven by accumulated real
/// elapsed time, never by frame count.
#[derive(Clone, Copy, Debug, PartialEq, Eq, Structural)]
pub struct SessionTimer {
    pub duration_ms: u64,
    pub elapsed_ms: u64,
}

/// Session-scoped state: the phase, the score shown at the end, and the
/// countdown that ends the session.
#[derive(Clone, Copy, Debug, PartialEq, Eq, Structural)]
pub struct Session {
    pub phase: Phase,
    pub score: u64,
    pub timer: SessionTimer,
}

/// Starts a session: the score is reset to zero and a fresh countdown of the
/// given duration begins.
pub fn session_start(duration_ms: u64) -> (s: Session)
    ensures
        s == (Session {
            phase: Phase::InSession,
            score: 0,
            timer: SessionTimer { duration_ms, elapsed_ms: 0 },
        }),
{
    Session { phase: Phase::InSession, score: 0, timer: SessionTimer { duration_ms, elapsed_ms: 0 } }
}

/// What one timer tick does: outside an active session nothing moves;
/// otherwise elapsed time accumulates (saturating at the counter's top), and
/// the first time it reaches the duration the session ends.  The second
/// component is the expiry event, which therefore fires exactly once.
pub open spec fn spec_timer_tick(s: Session, dt_ms: u64) -> (Session, bool) {
    if s.phase != Phase::InSession {
        (s, false)
    } else {
        let e: u64 = if s.timer.elapsed_ms + dt_ms <= u64::MAX {
            (s.timer.elapsed_ms + dt_ms) as u64
        } else {
            u64::MAX
        };
        if e >= s.timer.duration_ms {
            (
                Session {
                    phase: Phase::PostSession,
                    timer: SessionTimer { elapsed_ms: e, ..s.timer },
                    ..s
                },
                true,
            )
        } else {
            (Session { timer: SessionTimer { elapsed_ms: e, ..s.timer }, ..s }, false)
        }
    }
}

/// Advances the session countdown by this frame's real elapsed time.
/// Returns whether the countdown expired on this very tick.
pub fn timer_tick(s: &mut Session, dt_ms: u64) -> (expired: bool)
    ensures
        (*final(s), expired) == spec_timer_tick(*old(s), dt_ms),
        expired ==> final(s).phase == Phase::PostSession,
        final(s).score == old(s).score,
{
    if !matches!(s.phase, Phase::InSession) {
        return false;
    }
    let e: u64 = if s.timer.elapsed_ms <= u64::MAX - dt_ms {
        s.timer.elapsed_ms + dt_ms
    } else {
        u64::MAX
    };
    s.timer.elapsed_ms = e;
    if e >= s.timer.duration_ms {
        s.phase = Phase::PostSession;
        true
    } else {
        false
    }
}

/// The session state after a whole sequence of timer ticks.
pub open spec fn spec_run_timer(s: Session, dts: Seq<u64>) -> Session
    decreases dts.len(),
{
    if dts.len() == 0 {
        s
    } else {
        spec_run_timer(spec_timer_tick(s, dts[0]).0, dts.skip(1))
    }
}

/// How many ticks of the sequence fire the expiry event.
pub open spec fn spec_fire_count(s: Session, dts: Seq<u64>) -> nat
    decreases dts.len(),
{
    if dts.len() == 0 {
        0
    } else {
        (if spec_timer_tick(s, dts[0]).1 {
            1nat
        } else {
            0nat
        }) + spec_fire_count(spec_timer_tick(s, dts[0]).0, dts.skip(1))
    }
}

/// The total elapsed time a tick sequence carries.
pub open spec fn spec_total(dts: Seq<u64>) -> int
    decreases dts.len(),
{
    if dts.len() == 0 {
        0
    } else {
        dts[0] + spec_total(dts.skip(1))
    }
}

proof fn lemma_total_nonneg(dts: Seq<u64>)
    ensures
        spec_total(dts) >= 0,
    decreases dts.len(),
{
    if dts.len() > 0 {
        lemma_total_nonneg(dts.skip(1));
    }
}

/// Once the session is no longer active, no further tick fires the expiry.
proof fn lemma_inactive_never_fires(s: Session, dts: Seq<u64>)
    requires
        s.phase != Phase::InSession,
    ensures
        spec_fire_count(s, dts) == 0,
        spec_run_timer(s, dts) == s,
    decreases dts.len(),
{
    if dts.len() > 0 {
        lemma_inactive_never_fires(s, dts.skip(1));
    }
}

/// The expiry fires exactly once, and exactly when the accumulated elapsed
/// time reaches the remaining duration — however the same total is split
/// into frames.
pub proof fn lemma_timer_fires_exactly_once(s: Session, dts: Seq<u64>)
    requires
        s.phase == Phase::InSession,
        s.timer.elapsed_ms < s.timer.duration_ms,
    ensures
        spec_fire_count(s, dts) <= 1,
        (spec_fire_count(s, dts) == 1) <==> (s.timer.elapsed_ms + spec_total(dts)
            >= s.timer.duration_ms),
    decreases dts.len(),
{
    if dts.len() == 0 {
    } else {
        let (s1, fired) = spec_timer_tick(s, dts[0]);
        lemma_total_nonneg(dts.skip(1));
        if fired {
            lemma_inactive_never_fires(s1, dts.skip(1));
            assert(s.timer.elapsed_ms + dts[0] >= s.timer.duration_ms);
        } else {
            assert(s1.timer.elapsed_ms == s.timer.elapsed_ms + dts[0]);
            lemma_timer_fires_exactly_once(s1, dts.skip(1));
        }
    }
}

/// The NPC at the order counter and the result type it currently demands.
#[derive(Clone, Copy, Debug, PartialEq, Eq, Structural)]
pub struct Npc {
    pub wants: CakeType,
}

/// Outcome of one delivery attempt at the order counter.
#[derive(Clone, Copy, Debug, PartialEq, Eq, Structural)]
pub enum DeliveryOutcome {
    /// The carried result matched the demand: score up, result handed over,
    /// demand re-rolled.
    Delivered,
    /// A result is carried but it is not what the NPC wants; nothing
    /// happens and the player keeps carrying it.
    WrongCake,
    /// No result is carried; nothing happens.
    EmptyHanded,
}

/// What a delivery attempt does to the carrier, the NPC and the score.  The
/// re-rolled demand is a parameter so that the decision itself is a pure
/// function; the caller draws it (see `reroll_demand`).
pub open spec fn spec_deliver(inv: Inventory, npc: Npc, new_demand: CakeType, score: u64) -> (
    Inventory,
    Npc,
    u64,
    DeliveryOutcome,
) {
    match inv.cake {
        Some(c) => {
            if c == npc.wants {
                (
                    Inventory { cake: None, ..inv },
                    Npc { wants: new_demand },
                    (score + 1) as u64,
                    DeliveryOutcome::Delivered,
                )
            } else {
                (inv, npc, score, DeliveryOutcome::WrongCake)
            }
        },
        None => (inv, npc, score, DeliveryOutcome::EmptyHanded),
    }
}

/// One delivery attempt: only a carried result of exactly the demanded type
/// is handed over, scoring one point and re-rolling the demand; anything
/// else is a silent no-op — score, carried result and demand all keep their
/// values.
pub fn deliver(inv: &mut Inventory, npc: &mut Npc, new_demand: CakeType, score: &mut u64) -> (r:
    DeliveryOutcome)
    requires
        *old(score) < u64::MAX,
    ensures
        (*final(inv), *final(npc), *final(score), r) == spec_deliver(
            *old(inv),
            *old(npc),
            new_demand,
            *old(score),
        ),
        final(inv).items@ == old(inv).items@,
        r != DeliveryOutcome::Delivered ==> *final(inv) == *old(inv) && *final(npc) == *old(npc)
            && *final(score) == *old(score),
{
    match &inv.cake {
        Some(c) => {
            if *c == npc.wants {
                *score = *score + 1;
                inv.cake = None;
                npc.wants = new_demand;
                DeliveryOutcome::Delivered
            } else {
                DeliveryOutcome::WrongCake
            }
        },
        None => DeliveryOutcome::EmptyHanded,
    }
}

/// One frame of the order counter: a delivery is attempted only while the
/// player overlaps the counter's trigger zone.
pub fn teller_tick(
    player: Aabb,
    counter_zone: Aabb,
    inv: &mut Inventory,
    npc: &mut Npc,
    new_demand: CakeType,
    score: &mut u64,
) -> (r: Option<DeliveryOutcome>)
    requires
        *old(score) < u64::MAX,
        box_in_world(player),
        box_in_world(counter_zone),
    ensures
        !overlapping(player, counter_zone) ==> r is None && *final(inv) == *old(inv) && *final(npc)
            == *old(npc) && *final(score) == *old(score),
        overlapping(player, counter_zone) ==> (r matches Some(outcome) && (
        *final(inv),
        *final(npc),
        *final(score),
        outcome,
        ) == spec_deliver(*old(inv), *old(npc), new_demand, *old(score))),
{
    if overlaps(&player, &counter_zone) {
        Some(deliver(inv, npc, new_demand, score))
    } else {
        None
    }
}

/// Relies on rand 0.8's `Rng::gen_range`, which returns a uniformly random
/// value within the given half-open range.  It panics on an empty range —
/// `0..CAKE_TYPE_COUNT` never is — and `thread_rng`'s per-thread seeding or
/// periodic reseeding can panic if the operating system's entropy source
/// fails, an environment failure no precondition can exclude.
#[verifier::external_body]
fn draw_demand_index() -> (r: u8)
    ensures
        r < CAKE_TYPE_COUNT,
{
    rand::Rng::gen_range(&mut rand::thread_rng(), 0..CAKE_TYPE_COUNT)
}

/// Draws a fresh demand uniformly at random from the cake types.  Nothing
/// can be promised about which one comes back; every consumer of the value
/// is specified for all of them.
pub fn reroll_demand() -> CakeType {
    cake_from_index(draw_demand_index())
}

} // verus!
