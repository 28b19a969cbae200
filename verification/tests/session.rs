use tiny_bakery::geom::{Aabb, Vec2};
use tiny_bakery::inventory::Inventory;
use tiny_bakery::items::CakeType;
use tiny_bakery::session::{
    deliver, reroll_demand, session_start, teller_tick, timer_tick, DeliveryOutcome, Npc, Phase,
};

#[test]
fn session_starts_clean() {
    let s = session_start(900_000);
    assert_eq!(s.phase, Phase::InSession);
    assert_eq!(s.score, 0);
    assert_eq!(s.timer.duration_ms, 900_000);
    assert_eq!(s.timer.elapsed_ms, 0);
}

#[test]
fn timer_fires_exactly_once_at_accumulated_expiry() {
    let mut s = session_start(100);
    assert!(!timer_tick(&mut s, 30));
    assert!(!timer_tick(&mut s, 30));
    assert_eq!(s.phase, Phase::InSession);
    assert!(timer_tick(&mut s, 40)); // 30 + 30 + 40 reaches 100
    assert_eq!(s.phase, Phase::PostSession);
    // further ticks never fire again
    assert!(!timer_tick(&mut s, 1000));
    assert_eq!(s.phase, Phase::PostSession);
}

#[test]
fn timer_expiry_is_driven_by_elapsed_time_not_frame_count() {
    // one coarse frame covering the whole duration fires just as well
    let mut coarse = session_start(100);
    assert!(timer_tick(&mut coarse, 5000));
    assert_eq!(coarse.phase, Phase::PostSession);

    // many fine frames that never accumulate to the duration never fire
    let mut fine = session_start(100);
    for _ in 0..99 {
        assert!(!timer_tick(&mut fine, 1));
    }
    assert_eq!(fine.phase, Phase::InSession);
    assert!(timer_tick(&mut fine, 1));
}

#[test]
fn mismatched_delivery_is_a_no_op() {
    // score unchanged, carried result retained, demand unchanged
    let mut inv = Inventory::new();
    inv.cake = Some(CakeType::Fraisier);
    let mut npc = Npc { wants: CakeType::Chocolate };
    let mut score: u64 = 3;
    let r = deliver(&mut inv, &mut npc, CakeType::Carrot, &mut score);
    assert_eq!(r, DeliveryOutcome::WrongCake);
    assert_eq!(score, 3);
    assert_eq!(inv.cake, Some(CakeType::Fraisier));
    assert_eq!(npc.wants, CakeType::Chocolate);
}

#[test]
fn empty_handed_delivery_is_a_no_op() {
    let mut inv = Inventory::new();
    let mut npc = Npc { wants: CakeType::Chocolate };
    let mut score: u64 = 0;
    let r = deliver(&mut inv, &mut npc, CakeType::Carrot, &mut score);
    assert_eq!(r, DeliveryOutcome::EmptyHanded);
    assert_eq!(score, 0);
    assert_eq!(npc.wants, CakeType::Chocolate);
}

#[test]
fn matching_delivery_scores_and_rerolls_the_demand() {
    let mut inv = Inventory::new();
    inv.cake = Some(CakeType::Chocolate);
    let mut npc = Npc { wants: CakeType::Chocolate };
    let mut score: u64 = 0;
    let r = deliver(&mut inv, &mut npc, CakeType::Fraisier, &mut score);
    assert_eq!(r, DeliveryOutcome::Delivered);
    assert_eq!(score, 1);
    assert!(inv.cake.is_none());
    assert_eq!(npc.wants, CakeType::Fraisier);
}

#[test]
fn order_counter_requires_overlap() {
    let counter = Aabb { center: Vec2 { x: -800, y: -600 }, half: Vec2 { x: 30, y: 36 } };
    let far_away = Aabb { center: Vec2 { x: 0, y: 0 }, half: Vec2 { x: 32, y: 32 } };
    let mut inv = Inventory::new();
    inv.cake = Some(CakeType::Chocolate);
    let mut npc = Npc { wants: CakeType::Chocolate };
    let mut score: u64 = 0;
    let r = teller_tick(far_away, counter, &mut inv, &mut npc, CakeType::Carrot, &mut score);
    assert!(r.is_none());
    assert_eq!(score, 0);
    assert_eq!(inv.cake, Some(CakeType::Chocolate));

    let at_counter = Aabb { center: Vec2 { x: -800, y: -600 }, half: Vec2 { x: 32, y: 32 } };
    let r = teller_tick(at_counter, counter, &mut inv, &mut npc, CakeType::Carrot, &mut score);
    assert_eq!(r, Some(DeliveryOutcome::Delivered));
    assert_eq!(score, 1);
    assert_eq!(npc.wants, CakeType::Carrot);
}

#[test]
fn rerolled_demand_is_always_a_known_cake_type() {
    for _ in 0..50 {
        match reroll_demand() {
            CakeType::Chocolate | CakeType::Fraisier | CakeType::Carrot => {}
        }
    }
}
