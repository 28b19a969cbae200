use vstd::prelude::*;

use crate::geom::{box_in_world, overlapping, overlaps, Aabb};
use crate::inventory::{spec_contains, spec_has_empty, spec_occupied, Inventory};
use crate::items::{CakeType, IngredientType};

verus! {

/// An unordered collection of ingredient types that yields one result type;
/// only membership matters, never the order the types were listed in.
#[derive(Clone, Debug)]
pub struct Recipe {
    pub ingredients: Vec<IngredientType>,
}

impl Recipe {
    pub fn new(ingredients: Vec<IngredientType>) -> (r: Recipe)
        ensures
            r.ingredients@ == ingredients@,
    {
        Recipe { ingredients }
    }

    /// Whether the recipe's ingredient set has this type.
    pub fn contains_ingredient(&self, ing: IngredientType) -> (r: bool)
        ensures
            r == self.ingredients@.contains(ing),
    {
        let mut i: usize = 0;
        while i < self.ingredients.len()
            invariant
                0 <= i <= self.ingredients@.len(),
                forall|m: int| 0 <= m < i ==> self.ingredients@[m] != ing,
            decreases self.ingredients@.len() - i,
        {
            if self.ingredients[i] == ing {
                return true;
            }
            i = i + 1;
        }
        false
    }
}

/// Every occupied slot's type is a member of the recipe's ingredient set;
/// empty slots are not this predicate's concern.
pub open spec fn spec_slots_match(
    slots: Seq<Option<IngredientType>>,
    recipe: Recipe,
) -> bool {
    forall|i: int|
        0 <= i < slots.len() ==> ((#[trigger] slots[i]) matches Some(t)
            ==> recipe.ingredients@.contains(t))
}

/// The recipe table: entries scanned in order, first match wins.  Populated
/// once at session start and immutable afterwards.
#[derive(Clone, Debug)]
pub struct RecipeTable {
    pub entries: Vec<(Recipe, CakeType)>,
}

/// The result of the first entry at or after `i` whose ingredient set
/// contains every occupied slot's type.
pub open spec fn spec_match_from(
    slots: Seq<Option<IngredientType>>,
    entries: Seq<(Recipe, CakeType)>,
    i: int,
) -> Option<CakeType>
    decreases entries.len() - i,
{
    if i < 0 || i >= entries.len() {
        None
    } else if spec_slots_match(slots, entries[i].0) {
        Some(entries[i].1)
    } else {
        spec_match_from(slots, entries, i + 1)
    }
}

/// The result of the first table entry the occupied slots match.
pub open spec fn spec_first_match(
    slots: Seq<Option<IngredientType>>,
    entries: Seq<(Recipe, CakeType)>,
) -> Option<CakeType> {
    spec_match_from(slots, entries, 0)
}

/// Executable check that every occupied slot's type is in the recipe.
fn slots_match(slots: &Vec<Option<IngredientType>>, recipe: &Recipe) -> (r: bool)
    ensures
        r == spec_slots_match(slots@, *recipe),
{
    let mut i: usize = 0;
    while i < slots.len()
        invariant
            0 <= i <= slots@.len(),
            forall|m: int|
                0 <= m < i ==> ((#[trigger] slots@[m]) matches Some(t)
                    ==> recipe.ingredients@.contains(t)),
        decreases slots@.len() - i,
    {
        match &slots[i] {
            Some(t) => {
                if !recipe.contains_ingredient(*t) {
                    return false;
                }
            },
            None => {},
        }
        i = i + 1;
    }
    true
}

impl RecipeTable {
    pub fn new() -> (t: RecipeTable)
        ensures
            t.entries@.len() == 0,
    {
        RecipeTable { entries: Vec::new() }
    }

    /// Adds one recipe-to-result entry at the end of the scan order.
    pub fn add(&mut self, recipe: Recipe, result: CakeType)
        ensures
            final(self).entries@ == old(self).entries@.push((recipe, result)),
    {
        self.entries.push((recipe, result));
    }

    /// Scans the table in order for the first recipe whose ingredient set
    /// contains every occupied slot's type.  An empty slot anywhere aborts
    /// the whole attempt — ingredients are missing, so nothing can match.
    pub fn find_match(&self, inv: &Inventory) -> (r: Option<CakeType>)
        ensures
            spec_has_empty(inv.items@) ==> r is None,
            !spec_has_empty(inv.items@) ==> r == spec_first_match(inv.items@, self.entries@),
    {
        let mut i: usize = 0;
        while i < inv.items.len()
            invariant
                0 <= i <= inv.items@.len(),
                forall|m: int| 0 <= m < i ==> (#[trigger] inv.items@[m]) is Some,
            decreases inv.items@.len() - i,
        {
            if inv.items[i].is_none() {
                return None;
            }
            i = i + 1;
        }
        assert(!spec_has_empty(inv.items@));

        let mut e: usize = 0;
        while e < self.entries.len()
            invariant
                0 <= e <= self.entries@.len(),
                !spec_has_empty(inv.items@),
                spec_first_match(inv.items@, self.entries@) == spec_match_from(
                    inv.items@,
                    self.entries@,
                    e as int,
                ),
            decreases self.entries@.len() - e,
        {
            let entry = &self.entries[e];
            if slots_match(&inv.items, &entry.0) {
                return Some(entry.1);
            }
            e = e + 1;
        }
        None
    }
}

/// Outcome of one crafting attempt.
#[derive(Clone, Debug)]
pub enum CraftOutcome {
    /// A recipe matched: the result type, and the cleared ingredient types
    /// in slot order, each to be returned to the world as a free pickup.
    Crafted { cake: CakeType, returned: Vec<IngredientType> },
    /// No recipe matched, or an empty slot aborted the attempt; nothing
    /// changed.
    NoMatch,
}

/// One crafting attempt against the table: on a match every slot is cleared
/// (the cleared items go back to the world), any carried result is replaced,
/// and the new result is recorded; otherwise the inventory is untouched.
pub fn craft(inv: &mut Inventory, table: &RecipeTable) -> (r: CraftOutcome)
    ensures
        final(inv).items@.len() == old(inv).items@.len(),
        match r {
            CraftOutcome::Crafted { cake, returned } => {
                &&& !spec_has_empty(old(inv).items@)
                &&& spec_first_match(old(inv).items@, table.entries@) == Some(cake)
                &&& returned@ == spec_occupied(old(inv).items@)
                &&& forall|i: int|
                    0 <= i < final(inv).items@.len() ==> final(inv).items@[i] is None
                &&& final(inv).cake == Some(cake)
            },
            CraftOutcome::NoMatch => {
                &&& *final(inv) == *old(inv)
                &&& (spec_has_empty(old(inv).items@) || spec_first_match(
                    old(inv).items@,
                    table.entries@,
                ) is None)
            },
        },
{
    let matched = table.find_match(inv);
    match matched {
        Some(cake) => {
            let returned = inv.clear_all();
            inv.cake = Some(cake);
            CraftOutcome::Crafted { cake, returned }
        },
        None => CraftOutcome::NoMatch,
    }
}

/// One frame of the crafting station: only when the player overlaps the
/// station's trigger zone is a crafting attempt made.
pub fn craft_tick(player: Aabb, station_zone: Aabb, inv: &mut Inventory, table: &RecipeTable) -> (r:
    Option<CraftOutcome>)
    requires
        box_in_world(player),
        box_in_world(station_zone),
    ensures
        !overlapping(player, station_zone) ==> r is None && *final(inv) == *old(inv),
        overlapping(player, station_zone) ==> r is Some,
        match r {
            Some(outcome) => match outcome {
                CraftOutcome::Crafted { cake, returned } => {
                    &&& !spec_has_empty(old(inv).items@)
                    &&& spec_first_match(old(inv).items@, table.entries@) == Some(cake)
                    &&& returned@ == spec_occupied(old(inv).items@)
                    &&& final(inv).items@.len() == old(inv).items@.len()
                    &&& forall|i: int|
                        0 <= i < final(inv).items@.len() ==> final(inv).items@[i] is None
                    &&& final(inv).cake == Some(cake)
                },
                CraftOutcome::NoMatch => {
                    &&& *final(inv) == *old(inv)
                    &&& (spec_has_empty(old(inv).items@) || spec_first_match(
                        old(inv).items@,
                        table.entries@,
                    ) is None)
                },
            },
            None => *final(inv) == *old(inv),
        },
{
    if overlaps(&player, &station_zone) {
        Some(craft(inv, table))
    } else {
        None
    }
}

/// The set of types held by the occupied slots.
pub open spec fn spec_occupied_set(slots: Seq<Option<IngredientType>>) -> Set<IngredientType> {
    Set::new(|t: IngredientType| spec_contains(slots, t))
}

/// Matching sees only the set of occupied types: a slot arrangement matches
/// a recipe exactly when its occupied-type set is contained in the recipe's
/// ingredient set.
pub proof fn lemma_slots_match_is_membership(slots: Seq<Option<IngredientType>>, recipe: Recipe)
    ensures
        spec_slots_match(slots, recipe) <==> (forall|t: IngredientType|
            spec_contains(slots, t) ==> recipe.ingredients@.contains(t)),
{
    if forall|t: IngredientType| spec_contains(slots, t) ==> recipe.ingredients@.contains(t) {
        assert forall|i: int|
            0 <= i < slots.len() implies ((#[trigger] slots[i]) matches Some(t)
            ==> recipe.ingredients@.contains(t)) by {
            match slots[i] {
                Some(t) => {
                    assert(spec_contains(slots, t));
                },
                None => {},
            }
        }
    }
}

/// Recipe matching is order-independent: two slot arrangements holding the
/// same set of occupied types match exactly the same table entries, so the
/// first match — and with it the crafted result — is the same.
pub proof fn lemma_match_order_independent(
    slots1: Seq<Option<IngredientType>>,
    slots2: Seq<Option<IngredientType>>,
    entries: Seq<(Recipe, CakeType)>,
)
    requires
        spec_occupied_set(slots1) =~= spec_occupied_set(slots2),
    ensures
        spec_first_match(slots1, entries) == spec_first_match(slots2, entries),
    decreases entries.len(),
{
    lemma_match_agreement_from(slots1, slots2, entries, 0);
}

/// The scan from any position onward agrees for slot arrangements with the
/// same occupied-type set.
proof fn lemma_match_agreement_from(
    slots1: Seq<Option<IngredientType>>,
    slots2: Seq<Option<IngredientType>>,
    entries: Seq<(Recipe, CakeType)>,
    i: int,
)
    requires
        spec_occupied_set(slots1) =~= spec_occupied_set(slots2),
    ensures
        spec_match_from(slots1, entries, i) == spec_match_from(slots2, entries, i),
    decreases entries.len() - i,
{
    if 0 <= i < entries.len() {
        lemma_slots_match_is_membership(slots1, entries[i].0);
        lemma_slots_match_is_membership(slots2, entries[i].0);
        assert forall|t: IngredientType| #[trigger]
            spec_contains(slots1, t) implies spec_contains(slots2, t) by {
            assert(spec_occupied_set(slots1).contains(t));
        }
        assert forall|t: IngredientType| #[trigger]
            spec_contains(slots2, t) implies spec_contains(slots1, t) by {
            assert(spec_occupied_set(slots2).contains(t));
        }
        assert(spec_slots_match(slots1, entries[i].0) == spec_slots_match(slots2, entries[i].0));
        lemma_match_agreement_from(slots1, slots2, entries, i + 1);
    }
}

} // verus!
