use tiny_bakery::geom::{Aabb, Vec2};
use tiny_bakery::inventory::Inventory;
use tiny_bakery::items::{CakeType, IngredientType};
use tiny_bakery::recipes::{craft, craft_tick, CraftOutcome, Recipe, RecipeTable};
use tiny_bakery::scene::standard_recipes;

fn recipe(types: &[IngredientType]) -> Recipe {
    Recipe::new(types.to_vec())
}

fn filled(types: &[IngredientType]) -> Inventory {
    let mut inv = Inventory::with_capacity(types.len());
    for t in types {
        inv.pickup(*t);
    }
    inv
}

#[test]
fn matching_is_order_independent() {
    // inventory {Eggs, Milk, Flour, Chocolate} matches a recipe written as
    // {Flour, Eggs, Chocolate, Milk}, whatever the slot order
    let mut table = RecipeTable::new();
    table.add(
        recipe(&[
            IngredientType::Flour,
            IngredientType::Eggs,
            IngredientType::Chocolate,
            IngredientType::Milk,
        ]),
        CakeType::Chocolate,
    );
    let inv1 = filled(&[
        IngredientType::Eggs,
        IngredientType::Milk,
        IngredientType::Flour,
        IngredientType::Chocolate,
    ]);
    let inv2 = filled(&[
        IngredientType::Chocolate,
        IngredientType::Flour,
        IngredientType::Milk,
        IngredientType::Eggs,
    ]);
    assert_eq!(table.find_match(&inv1), Some(CakeType::Chocolate));
    assert_eq!(table.find_match(&inv2), Some(CakeType::Chocolate));
}

#[test]
fn any_empty_slot_aborts_matching() {
    // 3 of 4 slots filled with exactly a recipe's ingredients, 1 empty: no
    // match, ingredients remain
    let mut table = RecipeTable::new();
    table.add(
        recipe(&[
            IngredientType::Eggs,
            IngredientType::Flour,
            IngredientType::Milk,
        ]),
        CakeType::Chocolate,
    );
    let mut inv = Inventory::new(); // capacity 4
    inv.pickup(IngredientType::Eggs);
    inv.pickup(IngredientType::Flour);
    inv.pickup(IngredientType::Milk);
    assert_eq!(table.find_match(&inv), None);
    let before = inv.items.clone();
    match craft(&mut inv, &table) {
        CraftOutcome::NoMatch => {}
        CraftOutcome::Crafted { .. } => panic!("crafting must not happen with an empty slot"),
    }
    assert_eq!(inv.items, before);
    assert!(inv.cake.is_none());
}

#[test]
fn occupied_subset_of_recipe_matches() {
    // a full inventory needs only containment in the recipe, not equality
    let mut table = RecipeTable::new();
    table.add(
        recipe(&[
            IngredientType::Eggs,
            IngredientType::Flour,
            IngredientType::Chocolate,
            IngredientType::Milk,
        ]),
        CakeType::Chocolate,
    );
    let inv = filled(&[IngredientType::Eggs, IngredientType::Milk]);
    assert_eq!(table.find_match(&inv), Some(CakeType::Chocolate));
}

#[test]
fn first_matching_entry_wins() {
    let mut table = RecipeTable::new();
    table.add(
        recipe(&[IngredientType::Eggs, IngredientType::Milk]),
        CakeType::Fraisier,
    );
    table.add(
        recipe(&[IngredientType::Eggs, IngredientType::Milk]),
        CakeType::Carrot,
    );
    let inv = filled(&[IngredientType::Eggs, IngredientType::Milk]);
    assert_eq!(table.find_match(&inv), Some(CakeType::Fraisier));
}

#[test]
fn crafting_clears_slots_and_records_the_result() {
    let table = standard_recipes();
    let mut inv = filled(&[
        IngredientType::Eggs,
        IngredientType::Flour,
        IngredientType::Strawberry,
        IngredientType::Milk,
    ]);
    match craft(&mut inv, &table) {
        CraftOutcome::Crafted { cake, returned } => {
            assert_eq!(cake, CakeType::Fraisier);
            assert_eq!(
                returned,
                vec![
                    IngredientType::Eggs,
                    IngredientType::Flour,
                    IngredientType::Strawberry,
                    IngredientType::Milk
                ]
            );
        }
        CraftOutcome::NoMatch => panic!("the fraisier recipe must match"),
    }
    assert!(inv.items.iter().all(|s| s.is_none()));
    assert_eq!(inv.cake, Some(CakeType::Fraisier));
}

#[test]
fn crafting_station_requires_overlap() {
    let table = standard_recipes();
    let station = Aabb { center: Vec2 { x: 800, y: -600 }, half: Vec2 { x: 50, y: 40 } };
    let far_away = Aabb { center: Vec2 { x: 0, y: 0 }, half: Vec2 { x: 32, y: 32 } };
    let mut inv = filled(&[
        IngredientType::Eggs,
        IngredientType::Flour,
        IngredientType::Chocolate,
        IngredientType::Milk,
    ]);
    assert!(craft_tick(far_away, station, &mut inv, &table).is_none());
    assert!(inv.cake.is_none());
    let at_station = Aabb { center: Vec2 { x: 800, y: -600 }, half: Vec2 { x: 32, y: 32 } };
    match craft_tick(at_station, station, &mut inv, &table) {
        Some(CraftOutcome::Crafted { cake, .. }) => assert_eq!(cake, CakeType::Chocolate),
        _ => panic!("overlapping the station with a full matching inventory must craft"),
    }
}

#[test]
fn standard_table_maps_each_recipe_to_its_cake() {
    let table = standard_recipes();
    assert_eq!(table.entries.len(), 3);
    let carrot = filled(&[
        IngredientType::Eggs,
        IngredientType::Flour,
        IngredientType::Carrot,
        IngredientType::Milk,
    ]);
    assert_eq!(table.find_match(&carrot), Some(CakeType::Carrot));
    let fraisier = filled(&[
        IngredientType::Strawberry,
        IngredientType::Eggs,
        IngredientType::Flour,
        IngredientType::Milk,
    ]);
    assert_eq!(table.find_match(&fraisier), Some(CakeType::Fraisier));
}
