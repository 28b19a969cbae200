use tiny_bakery::geom::{Aabb, Vec2};
use tiny_bakery::inventory::{
    bin_tick, pickup_system, Inventory, PickupOutcome, PickupZone, INVENTORY_CAPACITY,
};
use tiny_bakery::items::{CakeType, IngredientType};

#[test]
fn new_inventory_is_empty() {
    let inv = Inventory::new();
    assert_eq!(inv.items.len(), INVENTORY_CAPACITY);
    assert!(inv.items.iter().all(|s| s.is_none()));
    assert!(inv.cake.is_none());
}

#[test]
fn duplicate_type_is_rejected_and_slots_fill_left_to_right() {
    // picking up [A, B, A, C] yields {A, B, C} and the second A is rejected
    let mut inv = Inventory::new();
    assert_eq!(
        inv.pickup(IngredientType::Eggs),
        PickupOutcome::Stored { slot: 0 }
    );
    assert_eq!(
        inv.pickup(IngredientType::Flour),
        PickupOutcome::Stored { slot: 1 }
    );
    assert_eq!(inv.pickup(IngredientType::Eggs), PickupOutcome::Duplicate);
    assert_eq!(
        inv.pickup(IngredientType::Chocolate),
        PickupOutcome::Stored { slot: 2 }
    );
    assert_eq!(
        inv.items,
        vec![
            Some(IngredientType::Eggs),
            Some(IngredientType::Flour),
            Some(IngredientType::Chocolate),
            None
        ]
    );
}

#[test]
fn full_inventory_rejects_silently() {
    let mut inv = Inventory::new();
    inv.pickup(IngredientType::Eggs);
    inv.pickup(IngredientType::Flour);
    inv.pickup(IngredientType::Chocolate);
    inv.pickup(IngredientType::Milk);
    let before = inv.items.clone();
    assert_eq!(inv.pickup(IngredientType::Carrot), PickupOutcome::Full);
    assert_eq!(inv.items, before);
}

#[test]
fn clear_all_returns_occupied_types_in_slot_order() {
    let mut inv = Inventory::new();
    inv.pickup(IngredientType::Milk);
    inv.pickup(IngredientType::Carrot);
    inv.cake = Some(CakeType::Carrot);
    let returned = inv.clear_all();
    assert_eq!(returned, vec![IngredientType::Milk, IngredientType::Carrot]);
    assert!(inv.items.iter().all(|s| s.is_none()));
    assert!(inv.cake.is_none());
}

fn zone_at(x: i64, y: i64, ing: IngredientType) -> PickupZone {
    PickupZone {
        zone: Aabb { center: Vec2 { x, y }, half: Vec2 { x: 40, y: 40 } },
        ing,
    }
}

#[test]
fn pickup_system_takes_overlapped_zones_only() {
    let player = Aabb { center: Vec2 { x: 0, y: 0 }, half: Vec2 { x: 32, y: 32 } };
    let pickups = vec![
        zone_at(0, 0, IngredientType::Eggs),       // overlapped
        zone_at(500, 0, IngredientType::Flour),    // far away
        zone_at(20, 10, IngredientType::Eggs),     // overlapped but duplicate
        zone_at(-30, 0, IngredientType::Chocolate), // overlapped
    ];
    let mut inv = Inventory::new();
    let taken = pickup_system(player, &pickups, &mut inv);
    assert_eq!(taken, vec![0, 3]);
    assert_eq!(
        inv.items,
        vec![
            Some(IngredientType::Eggs),
            Some(IngredientType::Chocolate),
            None,
            None
        ]
    );
}

#[test]
fn pickup_system_stops_scanning_when_a_slot_is_missing() {
    let player = Aabb { center: Vec2 { x: 0, y: 0 }, half: Vec2 { x: 32, y: 32 } };
    let mut inv = Inventory::with_capacity(1);
    let pickups = vec![
        zone_at(0, 0, IngredientType::Eggs),  // fills the single slot
        zone_at(0, 0, IngredientType::Flour), // needs a slot: none left, scan stops
        zone_at(0, 0, IngredientType::Eggs),  // never reached
    ];
    let taken = pickup_system(player, &pickups, &mut inv);
    assert_eq!(taken, vec![0]);
    assert_eq!(inv.items, vec![Some(IngredientType::Eggs)]);
}

#[test]
fn bin_needs_both_overlap_and_discard_press() {
    let bin = Aabb { center: Vec2 { x: -700, y: -600 }, half: Vec2 { x: 50, y: 40 } };
    let at_bin = Aabb { center: Vec2 { x: -700, y: -600 }, half: Vec2 { x: 32, y: 32 } };
    let far_away = Aabb { center: Vec2 { x: 0, y: 0 }, half: Vec2 { x: 32, y: 32 } };

    let mut inv = Inventory::new();
    inv.pickup(IngredientType::Eggs);
    inv.cake = Some(CakeType::Chocolate);

    // overlap without the press: nothing happens
    assert!(bin_tick(at_bin, bin, false, &mut inv).is_none());
    assert_eq!(inv.items[0], Some(IngredientType::Eggs));
    assert_eq!(inv.cake, Some(CakeType::Chocolate));

    // press without the overlap: nothing happens
    assert!(bin_tick(far_away, bin, true, &mut inv).is_none());
    assert_eq!(inv.items[0], Some(IngredientType::Eggs));

    // both: slots cleared and returned, the carried result dropped for good
    let returned = bin_tick(at_bin, bin, true, &mut inv).unwrap();
    assert_eq!(returned, vec![IngredientType::Eggs]);
    assert!(inv.items.iter().all(|s| s.is_none()));
    assert!(inv.cake.is_none());
}
