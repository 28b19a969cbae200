use vstd::prelude::*;

use crate::geom::{box_in_world, overlapping, overlaps, Aabb};
use crate::items::{CakeType, IngredientType};

verus! {

/// Slot capacity of the standard inventory.
pub const INVENTORY_CAPACITY: usize = 4;

/// A fixed-capacity, ordered array of optional ingredient slots, plus an
/// optional single crafted result.
#[derive(Clone, Debug)]
pub struct Inventory {
    pub items: Vec<Option<IngredientType>>,
    pub cake: Option<CakeType>,
}

/// Whether some slot already holds this ingredient type.
pub open spec fn spec_contains(slots: Seq<Option<IngredientType>>, ing: IngredientType) -> bool {
    exists|i: int| 0 <= i < slots.len() && slots[i] == Some(ing)
}

/// Whether any slot is empty.
pub open spec fn spec_has_empty(slots: Seq<Option<IngredientType>>) -> bool {
    exists|i: int| 0 <= i < slots.len() && slots[i] is None
}

/// The index of the first empty slot at or after `i`; the length when every
/// slot from `i` on is occupied.
pub open spec fn spec_first_empty_from(slots: Seq<Option<IngredientType>>, i: int) -> int
    decreases slots.len() - i,
{
    if i < 0 || i >= slots.len() {
        slots.len() as int
    } else if slots[i] is None {
        i
    } else {
        spec_first_empty_from(slots, i + 1)
    }
}

/// The index of the first empty slot, or the length when the inventory is
/// full.
pub open spec fn spec_first_empty(slots: Seq<Option<IngredientType>>) -> int {
    spec_first_empty_from(slots, 0)
}

/// The ingredient types of the occupied slots from `i` on, in slot order.
pub open spec fn spec_occupied_from(slots: Seq<Option<IngredientType>>, i: int) -> Seq<
    IngredientType,
>
    decreases slots.len() - i,
{
    if i < 0 || i >= slots.len() {
        Seq::empty()
    } else {
        match slots[i] {
            Some(t) => seq![t] + spec_occupied_from(slots, i + 1),
            None => spec_occupied_from(slots, i + 1),
        }
    }
}

/// The ingredient types of the occupied slots, in slot order.
pub open spec fn spec_occupied(slots: Seq<Option<IngredientType>>) -> Seq<IngredientType> {
    spec_occupied_from(slots, 0)
}

/// No ingredient type occupies two slots.
pub open spec fn spec_distinct_slots(slots: Seq<Option<IngredientType>>) -> bool {
    forall|i: int, j: int|
        0 <= i < j < slots.len() && slots[i] is Some ==> slots[i] != slots[j]
}

/// Pins `spec_first_empty` down from a witness: if every slot below `e` is
/// occupied and `e` (when in range) is empty, then `e` is the first empty
/// index (clamped to the length).
pub proof fn lemma_first_empty_at(slots: Seq<Option<IngredientType>>, i: int, e: int)
    requires
        0 <= i <= e <= slots.len(),
        forall|m: int| i <= m < e ==> slots[m] is Some,
        e < slots.len() ==> slots[e] is None,
    ensures
        spec_first_empty_from(slots, i) == e,
    decreases e - i,
{
    if i < e {
        lemma_first_empty_at(slots, i + 1, e);
    }
}

/// Outcome of one pickup attempt.
#[derive(Clone, Copy, Debug, PartialEq, Eq, Structural)]
pub enum PickupOutcome {
    Stored { slot: usize },
    Duplicate,
    Full,
}

impl Inventory {
    /// A fresh inventory with the standard capacity, all slots empty and no
    /// carried result.
    pub fn new() -> (inv: Inventory)
        ensures
            inv.items@ =~= Seq::new(INVENTORY_CAPACITY as nat, |i: int| None::<IngredientType>),
            inv.cake is None,
    {
        Inventory { items: vec![None; INVENTORY_CAPACITY], cake: None }
    }

    /// A fresh inventory with the given slot capacity.
    pub fn with_capacity(capacity: usize) -> (inv: Inventory)
        ensures
            inv.items@ =~= Seq::new(capacity as nat, |i: int| None::<IngredientType>),
            inv.cake is None,
    {
        Inventory { items: vec![None; capacity], cake: None }
    }

    /// Records a picked-up ingredient: a type already carried is rejected
    /// (`Duplicate`); with every slot occupied the pickup is rejected
    /// silently (`Full`); otherwise the first empty slot in left-to-right
    /// order takes it.
    pub fn pickup(&mut self, ing: IngredientType) -> (r: PickupOutcome)
        ensures
            final(self).cake == old(self).cake,
            final(self).items@.len() == old(self).items@.len(),
            match r {
                PickupOutcome::Stored { slot } => {
                    &&& !spec_contains(old(self).items@, ing)
                    &&& slot as int == spec_first_empty(old(self).items@)
                    &&& slot < old(self).items@.len()
                    &&& final(self).items@ == old(self).items@.update(slot as int, Some(ing))
                },
                PickupOutcome::Duplicate => {
                    &&& spec_contains(old(self).items@, ing)
                    &&& final(self).items@ == old(self).items@
                },
                PickupOutcome::Full => {
                    &&& !spec_contains(old(self).items@, ing)
                    &&& spec_first_empty(old(self).items@) == old(self).items@.len()
                    &&& final(self).items@ == old(self).items@
                },
            },
            spec_distinct_slots(old(self).items@) ==> spec_distinct_slots(final(self).items@),
    {
        let ghost slots0 = self.items@;
        let mut i: usize = 0;
        while i < self.items.len()
            invariant
                0 <= i <= self.items@.len(),
                slots0 == old(self).items@,
                self.cake == old(self).cake,
                self.items@ == slots0,
                forall|m: int| 0 <= m < i ==> slots0[m] != Some(ing),
            decreases self.items@.len() - i,
        {
            match &self.items[i] {
                Some(t) => {
                    if *t == ing {
                        return PickupOutcome::Duplicate;
                    }
                },
                None => {},
            }
            i = i + 1;
        }
        assert(!spec_contains(slots0, ing));

        let mut j: usize = 0;
        while j < self.items.len()
            invariant
                0 <= j <= self.items@.len(),
                slots0 == old(self).items@,
                self.cake == old(self).cake,
                self.items@ == slots0,
                !spec_contains(slots0, ing),
                forall|m: int| 0 <= m < j ==> slots0[m] is Some,
            decreases self.items@.len() - j,
        {
            let empty_here = matches!(&self.items[j], None);
            if empty_here {
                proof {
                    lemma_first_empty_at(slots0, 0, j as int);
                }
                let slot = vstd::std_specs::vec::vec_index_mut(&mut self.items, j);
                *slot = Some(ing);
                proof {
                    assert(self.items@ == slots0.update(j as int, Some(ing)));
                    if spec_distinct_slots(slots0) {
                        assert forall|a: int, b: int|
                            0 <= a < b < self.items@.len() && self.items@[a] is Some implies self
                            .items@[a] != self.items@[b] by {
                            if a == j as int {
                                assert(slots0[b] != Some(ing)) by {
                                    if slots0[b] == Some(ing) {
                                        assert(spec_contains(slots0, ing));
                                    }
                                }
                            } else if b == j as int {
                                assert(slots0[a] != Some(ing)) by {
                                    if slots0[a] == Some(ing) {
                                        assert(spec_contains(slots0, ing));
                                    }
                                }
                            }
                        }
                        assert(spec_distinct_slots(self.items@));
                    }
                }
                return PickupOutcome::Stored { slot: j };
            }
            j = j + 1;
        }
        proof {
            lemma_first_empty_at(slots0, 0, slots0.len() as int);
        }
        PickupOutcome::Full
    }

    /// How many slots are occupied; the display fan-out is indexed by this.
    pub fn occupied_count(&self) -> (n: usize)
        ensures
            n == spec_occupied(self.items@).len(),
    {
        let mut n: usize = 0;
        let mut i: usize = 0;
        while i < self.items.len()
            invariant
                0 <= i <= self.items@.len(),
                n <= i,
                n + spec_occupied_from(self.items@, i as int).len() == spec_occupied(
                    self.items@,
                ).len(),
            decreases self.items@.len() - i,
        {
            if self.items[i].is_some() {
                n = n + 1;
            }
            i = i + 1;
        }
        n
    }

    /// Empties every slot and drops any carried result, handing back the
    /// cleared ingredient types in slot order so the caller can return them
    /// to the world.
    pub fn clear_all(&mut self) -> (returned: Vec<IngredientType>)
        ensures
            returned@ == spec_occupied(old(self).items@),
            final(self).items@.len() == old(self).items@.len(),
            forall|i: int| 0 <= i < final(self).items@.len() ==> final(self).items@[i] is None,
            final(self).cake is None,
    {
        let ghost slots0 = self.items@;
        let mut returned: Vec<IngredientType> = Vec::new();
        let mut i: usize = 0;
        while i < self.items.len()
            invariant
                0 <= i <= self.items@.len(),
                slots0 == old(self).items@,
                self.items@.len() == slots0.len(),
                forall|m: int| i <= m < slots0.len() ==> self.items@[m] == slots0[m],
                forall|m: int| 0 <= m < i ==> self.items@[m] is None,
                returned@ + spec_occupied_from(slots0, i as int) == spec_occupied(slots0),
            decreases self.items@.len() - i,
        {
            let ghost returned_before = returned@;
            match &self.items[i] {
                Some(t) => {
                    let t = *t;
                    returned.push(t);
                    proof {
                        assert(returned@ + spec_occupied_from(slots0, i as int + 1)
                            =~= returned_before + spec_occupied_from(slots0, i as int));
                    }
                },
                None => {},
            }
            let slot = vstd::std_specs::vec::vec_index_mut(&mut self.items, i);
            *slot = None;
            i = i + 1;
        }
        self.cake = None;
        proof {
            assert(returned@ =~= spec_occupied(slots0));
        }
        returned
    }
}

/// One frame of the disposal bin: only when the player overlaps the bin's
/// trigger zone *and* presses the discard input are all slots cleared (the
/// returned types go back to the world as free pickups) and any carried
/// result dropped — a crafted result is not returnable as raw ingredients.
pub fn bin_tick(
    player: Aabb,
    bin_zone: Aabb,
    discard_pressed: bool,
    inv: &mut Inventory,
) -> (r: Option<Vec<IngredientType>>)
    requires
        box_in_world(player),
        box_in_world(bin_zone),
    ensures
        !(overlapping(player, bin_zone) && discard_pressed) ==> r is None && *final(inv) == *old(
            inv,
        ),
        overlapping(player, bin_zone) && discard_pressed ==> (r matches Some(returned) && returned@
            == spec_occupied(old(inv).items@) && final(inv).items@.len() == old(inv).items@.len()
            && (forall|i: int| 0 <= i < final(inv).items@.len() ==> final(inv).items@[i] is None)
            && final(inv).cake is None),
{
    if discard_pressed && overlaps(&player, &bin_zone) {
        Some(inv.clear_all())
    } else {
        None
    }
}

/// A free-standing pickup in the world: its trigger zone and its type.
#[derive(Clone, Copy, Debug, PartialEq, Eq, Structural)]
pub struct PickupZone {
    pub zone: Aabb,
    pub ing: IngredientType,
}

/// What one frame of the pickup system does to the slots, scanning the
/// pickups from index `i` on: each pickup whose zone the player overlaps is
/// taken into the first empty slot unless its type is already carried; a
/// needed slot that does not exist stops the whole scan for this frame.  The
/// second component lists the indices of the pickups that were taken.
pub open spec fn spec_pickup_run(
    player: Aabb,
    pickups: Seq<PickupZone>,
    slots: Seq<Option<IngredientType>>,
    i: int,
) -> (Seq<Option<IngredientType>>, Seq<int>)
    decreases pickups.len() - i,
{
    if i < 0 || i >= pickups.len() {
        (slots, Seq::empty())
    } else if overlapping(player, pickups[i].zone) && !spec_contains(slots, pickups[i].ing) {
        if spec_first_empty(slots) == slots.len() {
            (slots, Seq::empty())
        } else {
            let slots1 = slots.update(spec_first_empty(slots), Some(pickups[i].ing));
            let rest = spec_pickup_run(player, pickups, slots1, i + 1);
            (rest.0, seq![i] + rest.1)
        }
    } else {
        spec_pickup_run(player, pickups, slots, i + 1)
    }
}

/// One frame of the pickup detector: scans the free pickups in order and
/// stores each one the player's box overlaps, stopping early the moment a
/// pickup needs a slot and none is empty.  Returns the indices of the
/// pickups that were taken this frame, so the caller can despawn their world
/// entities and attach them to the carrier.
pub fn pickup_system(player: Aabb, pickups: &Vec<PickupZone>, inv: &mut Inventory) -> (taken: Vec<
    usize,
>)
    requires
        box_in_world(player),
        forall|m: int| 0 <= m < pickups@.len() ==> box_in_world((#[trigger] pickups@[m]).zone),
    ensures
        final(inv).cake == old(inv).cake,
        final(inv).items@ == spec_pickup_run(player, pickups@, old(inv).items@, 0).0,
        taken@.map_values(|u: usize| u as int) == spec_pickup_run(
            player,
            pickups@,
            old(inv).items@,
            0,
        ).1,
{
    let ghost slots0 = inv.items@;
    let ghost cake0 = inv.cake;
    let mut taken: Vec<usize> = Vec::new();
    let mut i: usize = 0;
    while i < pickups.len()
        invariant_except_break
            0 <= i <= pickups@.len(),
            slots0 == old(inv).items@,
            cake0 == old(inv).cake,
            box_in_world(player),
            forall|m: int| 0 <= m < pickups@.len() ==> box_in_world((#[trigger] pickups@[m]).zone),
            inv.cake == cake0,
            spec_pickup_run(player, pickups@, slots0, 0).0 == spec_pickup_run(
                player,
                pickups@,
                inv.items@,
                i as int,
            ).0,
            spec_pickup_run(player, pickups@, slots0, 0).1 == taken@.map_values(|u: usize| u as int)
                + spec_pickup_run(player, pickups@, inv.items@, i as int).1,
        ensures
            inv.cake == cake0,
            inv.items@ == spec_pickup_run(player, pickups@, slots0, 0).0,
            taken@.map_values(|u: usize| u as int) == spec_pickup_run(player, pickups@, slots0, 0).1,
        decreases pickups@.len() - i,
    {
        let p = pickups[i];
        let ghost slots_before = inv.items@;
        let ghost taken_before = taken@;
        if overlaps(&player, &p.zone) {
            match inv.pickup(p.ing) {
                PickupOutcome::Stored { slot } => {
                    taken.push(i);
                    proof {
                        assert(inv.items@ == slots_before.update(
                            spec_first_empty(slots_before),
                            Some(p.ing),
                        ));
                        assert(spec_pickup_run(player, pickups@, slots_before, i as int).0
                            == spec_pickup_run(player, pickups@, inv.items@, i as int + 1).0);
                        assert(spec_pickup_run(player, pickups@, slots_before, i as int).1
                            == seq![i as int] + spec_pickup_run(
                            player,
                            pickups@,
                            inv.items@,
                            i as int + 1,
                        ).1);
                        assert(taken@.map_values(|u: usize| u as int) =~= taken_before.map_values(
                            |u: usize| u as int,
                        ) + seq![i as int]);
                        assert(taken_before.map_values(|u: usize| u as int) + (seq![i as int]
                            + spec_pickup_run(player, pickups@, inv.items@, i as int + 1).1)
                            =~= taken@.map_values(|u: usize| u as int) + spec_pickup_run(
                            player,
                            pickups@,
                            inv.items@,
                            i as int + 1,
                        ).1);
                    }
                },
                PickupOutcome::Duplicate => {
                    proof {
                        assert(spec_pickup_run(player, pickups@, inv.items@, i as int)
                            == spec_pickup_run(player, pickups@, inv.items@, i as int + 1));
                    }
                },
                PickupOutcome::Full => {
                    proof {
                        assert(spec_pickup_run(player, pickups@, inv.items@, i as int) == (
                            inv.items@,
                            Seq::<int>::empty(),
                        ));
                        assert(taken@.map_values(|u: usize| u as int) + Seq::<int>::empty()
                            =~= taken@.map_values(|u: usize| u as int));
                    }
                    break;
                },
            }
        } else {
            proof {
                assert(spec_pickup_run(player, pickups@, inv.items@, i as int) == spec_pickup_run(
                    player,
                    pickups@,
                    inv.items@,
                    i as int + 1,
                ));
            }
        }
        i = i + 1;
    }
    proof {
        if i >= pickups@.len() {
            assert(spec_pickup_run(player, pickups@, inv.items@, i as int) == (
                inv.items@,
                Seq::<int>::empty(),
            ));
            assert(taken@.map_values(|u: usize| u as int) + Seq::<int>::empty()
                =~= taken@.map_values(|u: usize| u as int));
        }
    }
    taken
}

} // verus!
