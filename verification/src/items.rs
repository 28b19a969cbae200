use vstd::prelude::*;

verus! {

/// An ingredient the player can pick up and store in an inventory slot.
#[derive(Clone, Copy, Debug, PartialEq, Eq, Structural)]
pub enum IngredientType {
    Eggs,
    Flour,
    Chocolate,
    Milk,
    Strawberry,
    Carrot,
}

/// A crafted result that a recipe produces and that an NPC can demand.
#[derive(Clone, Copy, Debug, PartialEq, Eq, Structural)]
pub enum CakeType {
    Chocolate,
    Fraisier,
    Carrot,
}

/// How many cake types exist; demand is drawn from `0..CAKE_TYPE_COUNT`.
pub const CAKE_TYPE_COUNT: u8 = 3;

/// The cake type that a demand draw in `0..CAKE_TYPE_COUNT` stands for.
pub open spec fn spec_cake_from_index(index: int) -> CakeType {
    if index == 0 {
        CakeType::Chocolate
    } else if index == 1 {
        CakeType::Fraisier
    } else {
        CakeType::Carrot
    }
}

/// Maps a demand draw to its cake type.
pub fn cake_from_index(index: u8) -> (cake: CakeType)
    requires
        index < CAKE_TYPE_COUNT,
    ensures
        cake == spec_cake_from_index(index as int),
{
    if index == 0 {
        CakeType::Chocolate
    } else if index == 1 {
        CakeType::Fraisier
    } else {
        CakeType::Carrot
    }
}

} // verus!
