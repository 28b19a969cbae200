use vstd::prelude::*;

use crate::geom::{box_in_world, wf_aabb, Aabb, Vec2};
use crate::items::{CakeType, IngredientType};
use crate::recipes::{Recipe, RecipeTable};

verus! {

/// The canonical spawn position of each ingredient type: where a free pickup
/// of that type stands in the world, and where a cleared one reappears.
pub open spec fn spec_spawn_position(ing: IngredientType) -> Vec2 {
    match ing {
        IngredientType::Eggs => Vec2 { x: 0, y: -600i64 },
        IngredientType::Flour => Vec2 { x: 400, y: -600i64 },
        IngredientType::Chocolate => Vec2 { x: -200i64, y: -600i64 },
        IngredientType::Milk => Vec2 { x: -160i64, y: -600i64 },
        IngredientType::Strawberry => Vec2 { x: 500, y: -600i64 },
        IngredientType::Carrot => Vec2 { x: 300, y: -600i64 },
    }
}

/// Where a freed ingredient of this type reappears; items are never
/// destroyed, only relocated here.
pub fn spawn_position(ing: IngredientType) -> (p: Vec2)
    ensures
        p == spec_spawn_position(ing),
{
    match ing {
        IngredientType::Eggs => Vec2 { x: 0, y: -600i64 },
        IngredientType::Flour => Vec2 { x: 400, y: -600i64 },
        IngredientType::Chocolate => Vec2 { x: -200i64, y: -600i64 },
        IngredientType::Milk => Vec2 { x: -160i64, y: -600i64 },
        IngredientType::Strawberry => Vec2 { x: 500, y: -600i64 },
        IngredientType::Carrot => Vec2 { x: 300, y: -600i64 },
    }
}

/// The display offset, relative to the carrier, of the item stored when
/// `count` slots are occupied: carried items fan out to the sides and
/// re-center as the count changes.  A display concern only — inventory data
/// never depends on it.
pub open spec fn spec_carry_offset(count: int) -> Vec2 {
    if count == 1 {
        Vec2 { x: -30i64, y: 20 }
    } else if count == 2 {
        Vec2 { x: -15i64, y: 20 }
    } else if count == 3 {
        Vec2 { x: 15, y: 20 }
    } else {
        Vec2 { x: 30, y: 20 }
    }
}

/// The display offset for the item most recently stored, given how many
/// slots are now occupied.
pub fn carry_offset(count: usize) -> (p: Vec2)
    requires
        1 <= count <= 4,
    ensures
        p == spec_carry_offset(count as int),
{
    if count == 1 {
        Vec2 { x: -30i64, y: 20 }
    } else if count == 2 {
        Vec2 { x: -15i64, y: 20 }
    } else if count == 3 {
        Vec2 { x: 15, y: 20 }
    } else {
        Vec2 { x: 30, y: 20 }
    }
}

/// The standard recipe table: three cakes, each from four ingredients, all
/// sharing eggs, flour and milk.
pub fn standard_recipes() -> (t: RecipeTable)
    ensures
        t.entries@.len() == 3,
        t.entries@[0].0.ingredients@ == seq![
            IngredientType::Eggs,
            IngredientType::Flour,
            IngredientType::Chocolate,
            IngredientType::Milk,
        ],
        t.entries@[0].1 == CakeType::Chocolate,
        t.entries@[1].0.ingredients@ == seq![
            IngredientType::Eggs,
            IngredientType::Flour,
            IngredientType::Strawberry,
            IngredientType::Milk,
        ],
        t.entries@[1].1 == CakeType::Fraisier,
        t.entries@[2].0.ingredients@ == seq![
            IngredientType::Eggs,
            IngredientType::Flour,
            IngredientType::Carrot,
            IngredientType::Milk,
        ],
        t.entries@[2].1 == CakeType::Carrot,
{
    let mut t = RecipeTable::new();
    let mut chocolate: Vec<IngredientType> = Vec::new();
    chocolate.push(IngredientType::Eggs);
    chocolate.push(IngredientType::Flour);
    chocolate.push(IngredientType::Chocolate);
    chocolate.push(IngredientType::Milk);
    t.add(Recipe::new(chocolate), CakeType::Chocolate);

    let mut fraisier: Vec<IngredientType> = Vec::new();
    fraisier.push(IngredientType::Eggs);
    fraisier.push(IngredientType::Flour);
    fraisier.push(IngredientType::Strawberry);
    fraisier.push(IngredientType::Milk);
    t.add(Recipe::new(fraisier), CakeType::Fraisier);

    let mut carrot: Vec<IngredientType> = Vec::new();
    carrot.push(IngredientType::Eggs);
    carrot.push(IngredientType::Flour);
    carrot.push(IngredientType::Carrot);
    carrot.push(IngredientType::Milk);
    t.add(Recipe::new(carrot), CakeType::Carrot);

    proof {
        assert(t.entries@[0].0.ingredients@ =~= seq![
            IngredientType::Eggs,
            IngredientType::Flour,
            IngredientType::Chocolate,
            IngredientType::Milk,
        ]);
        assert(t.entries@[1].0.ingredients@ =~= seq![
            IngredientType::Eggs,
            IngredientType::Flour,
            IngredientType::Strawberry,
            IngredientType::Milk,
        ]);
        assert(t.entries@[2].0.ingredients@ =~= seq![
            IngredientType::Eggs,
            IngredientType::Flour,
            IngredientType::Carrot,
            IngredientType::Milk,
        ]);
    }
    t
}

/// The static layout of the standard session: the blocking obstacles and the
/// interactive zones, with the actors' extents and starting positions.
pub struct Scene {
    /// The floor, the order counter and the crafting station block movement.
    pub obstacles: Vec<Aabb>,
    /// Trigger zone of the order counter.
    pub counter_zone: Aabb,
    /// Trigger zone of the crafting station.
    pub station_zone: Aabb,
    /// Trigger zone of the disposal bin.
    pub bin_zone: Aabb,
    /// Trigger half-extent of a free ingredient pickup.
    pub pickup_half: Vec2,
    pub player_half: Vec2,
    pub npc_half: Vec2,
    pub player_start: Vec2,
    pub npc_start: Vec2,
}

/// The standard scene layout.
pub fn standard_scene() -> (s: Scene)
    ensures
        s.obstacles@.len() == 3,
        s.obstacles@[0] == (Aabb {
            center: Vec2 { x: -400i64, y: -700i64 },
            half: Vec2 { x: 2000, y: 60 },
        }),
        s.obstacles@[1] == (Aabb { center: Vec2 { x: -800i64, y: -600i64 }, half: Vec2 { x: 24, y: 35 } }),
        s.obstacles@[2] == (Aabb { center: Vec2 { x: 800, y: -600i64 }, half: Vec2 { x: 44, y: 35 } }),
        s.counter_zone == (Aabb { center: Vec2 { x: -800i64, y: -600i64 }, half: Vec2 { x: 30, y: 36 } }),
        s.station_zone == (Aabb { center: Vec2 { x: 800, y: -600i64 }, half: Vec2 { x: 50, y: 40 } }),
        s.bin_zone == (Aabb { center: Vec2 { x: -700i64, y: -600i64 }, half: Vec2 { x: 50, y: 40 } }),
        s.pickup_half == (Vec2 { x: 40, y: 40 }),
        s.player_half == (Vec2 { x: 32, y: 32 }),
        s.npc_half == (Vec2 { x: 32, y: 32 }),
        s.player_start == (Vec2 { x: 0, y: 0 }),
        s.npc_start == (Vec2 { x: -1000i64, y: -400i64 }),
        forall|i: int|
            0 <= i < s.obstacles@.len() ==> box_in_world(#[trigger] s.obstacles@[i]) && wf_aabb(
                s.obstacles@[i],
            ),
        box_in_world(s.counter_zone) && wf_aabb(s.counter_zone),
        box_in_world(s.station_zone) && wf_aabb(s.station_zone),
        box_in_world(s.bin_zone) && wf_aabb(s.bin_zone),
{
    let mut obstacles: Vec<Aabb> = Vec::new();
    obstacles.push(Aabb { center: Vec2 { x: -400i64, y: -700i64 }, half: Vec2 { x: 2000, y: 60 } });
    obstacles.push(Aabb { center: Vec2 { x: -800i64, y: -600i64 }, half: Vec2 { x: 24, y: 35 } });
    obstacles.push(Aabb { center: Vec2 { x: 800, y: -600i64 }, half: Vec2 { x: 44, y: 35 } });
    Scene {
        obstacles,
        counter_zone: Aabb { center: Vec2 { x: -800i64, y: -600i64 }, half: Vec2 { x: 30, y: 36 } },
        station_zone: Aabb { center: Vec2 { x: 800, y: -600i64 }, half: Vec2 { x: 50, y: 40 } },
        bin_zone: Aabb { center: Vec2 { x: -700i64, y: -600i64 }, half: Vec2 { x: 50, y: 40 } },
        pickup_half: Vec2 { x: 40, y: 40 },
        player_half: Vec2 { x: 32, y: 32 },
        npc_half: Vec2 { x: 32, y: 32 },
        player_start: Vec2 { x: 0, y: 0 },
        npc_start: Vec2 { x: -1000i64, y: -400i64 },
    }
}

} // verus!
