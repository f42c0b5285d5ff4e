//! The player's inventory: slots of item stacks, the stack held on the
//! cursor, click-to-move stacking, hotbar selection and the slot labels.

use vstd::prelude::*;
use vstd::string::*;
use crate::items::{ItemDb, ItemDef};
use crate::keybinds::{Action, Keybinds, hotbar_action, keys_contain};
use crate::text::{decimal, decimal_string, same_text};

verus! {

/// Slots in the inventory: 9 hotbar slots, 27 backpack slots, one off-hand slot.
pub const SLOT_COUNT: usize = 37;

/// The hotbar is slots `0..9`.
pub const HOTBAR_SLOTS: usize = 9;

/// The off-hand slot.
pub const OFFHAND_SLOT: usize = 36;

/// The stack limit for an item that the catalogue does not know.
pub const DEFAULT_STACK_LIMIT: u32 = 64;

/// Some number of one item.
#[derive(Clone, Copy, Debug)]
pub struct ItemStack {
    pub id: &'static str,
    pub count: u32,
}

/// How many of item `id` an optional stack holds.
pub open spec fn amount(id: Seq<char>, st: Option<ItemStack>) -> nat {
    match st {
        Some(s) => if s.id@ == id { s.count as nat } else { 0 },
        None => 0,
    }
}

/// How many of one item fit in a stack: the catalogue's limit, or 64 for an
/// item it does not know.
pub open spec fn stack_limit(db: Map<Seq<char>, ItemDef>, id: Seq<char>) -> u32 {
    if db.contains_key(id) {
        db[id].max_stack
    } else {
        DEFAULT_STACK_LIMIT
    }
}

/// How many items of the held stack `h` move onto the slot's stack `s` of
/// the same item: as many as fit under the limit, at most all of them.
pub open spec fn merge_amount(db: Map<Seq<char>, ItemDef>, s: ItemStack, h: ItemStack) -> u32 {
    let limit = stack_limit(db, s.id@);
    let room: u32 = if limit > s.count { (limit - s.count) as u32 } else { 0 };
    if room < h.count { room } else { h.count }
}

/// What a click leaves in the slot and on the cursor.
/// - An empty hand picks the slot's stack up.
/// - A held stack goes into an empty slot.
/// - A held stack of the slot's item tops the slot up to its limit; what does
///   not fit stays on the cursor.
/// - A held stack of another item swaps with the slot's stack.
pub open spec fn click_outcome(
    slot: Option<ItemStack>,
    held: Option<ItemStack>,
    db: Map<Seq<char>, ItemDef>,
) -> (Option<ItemStack>, Option<ItemStack>) {
    match (slot, held) {
        (s, None) => (None, s),
        (None, h) => (h, None),
        (Some(s), Some(h)) => {
            if s.id@ == h.id@ {
                let moved = merge_amount(db, s, h);
                let merged = ItemStack { id: s.id, count: (s.count + moved) as u32 };
                if h.count > moved {
                    (Some(merged), Some(ItemStack { id: h.id, count: (h.count - moved) as u32 }))
                } else {
                    (Some(merged), None)
                }
            } else {
                (Some(h), Some(s))
            }
        },
    }
}

/// Resolves a click on a slot holding `slot` while the cursor holds `held`;
/// returns the new slot content and the new cursor content.
pub fn resolve_click(slot: Option<ItemStack>, held: Option<ItemStack>, db: &ItemDb) -> (r: (
    Option<ItemStack>,
    Option<ItemStack>,
))
    ensures
        r == click_outcome(slot, held, db@),
{
    match (slot, held) {
        (s, None) => (None, s),
        (None, h) => (h, None),
        (Some(s), Some(h)) => {
            if same_text(s.id, h.id) {
                let max = match db.get(s.id) {
                    Some(d) => d.max_stack,
                    None => DEFAULT_STACK_LIMIT,
                };
                let room = max.saturating_sub(s.count);
                let moved = if room < h.count { room } else { h.count };
                let merged = ItemStack { id: s.id, count: s.count + moved };
                let leftover = h.count - moved;
                if leftover > 0 {
                    (Some(merged), Some(ItemStack { id: h.id, count: leftover }))
                } else {
                    (Some(merged), None)
                }
            } else {
                (Some(h), Some(s))
            }
        },
    }
}

/// A click with a stack of the slot's item on the cursor tops the slot up:
/// the slot keeps its stack and it never shrinks; it grows to the smaller of
/// the catalogue's limit (64 for an unknown item) and the two stacks
/// together, or stays as it is when already past the limit; the cursor
/// keeps exactly the rest. Such a click never swaps the stacks.
pub proof fn law_same_item_click_tops_up(s: ItemStack, h: ItemStack, db: Map<Seq<char>, ItemDef>)
    requires
        s.id@ == h.id@,
    ensures
        ({
            let limit: int = if db.contains_key(s.id@) { db[s.id@].max_stack as int } else { 64 };
            let together: int = s.count + h.count;
            let kept: int = if s.count > limit {
                s.count as int
            } else if together < limit {
                together
            } else {
                limit
            };
            let out = click_outcome(Some(s), Some(h), db);
            &&& out.0 matches Some(ns) && ns.id == s.id && ns.count == kept
            &&& kept >= s.count
            &&& if together > kept {
                out.1 matches Some(nh) && nh.id == h.id && nh.count == together - kept
            } else {
                out.1 is None
            }
        }),
{
}

/// The other clicks: an empty hand picks the slot's stack up, a held stack
/// drops into an empty slot, and stacks of two different items swap.
pub proof fn law_other_clicks_move_or_swap(
    slot: Option<ItemStack>,
    held: Option<ItemStack>,
    db: Map<Seq<char>, ItemDef>,
)
    ensures
        held is None ==> click_outcome(slot, held, db) == (None::<ItemStack>, slot),
        slot is None ==> click_outcome(slot, held, db) == (held, None::<ItemStack>),
        (slot matches Some(s) && held matches Some(h) && s.id@ != h.id@) ==> click_outcome(slot, held, db) == (
            held,
            slot,
        ),
{
}

/// A click neither creates nor destroys items: for every item, the slot and
/// the cursor hold as many of it after the click as before.
pub proof fn law_click_conserves_items(
    slot: Option<ItemStack>,
    held: Option<ItemStack>,
    db: Map<Seq<char>, ItemDef>,
    id: Seq<char>,
)
    ensures
        amount(id, click_outcome(slot, held, db).0) + amount(id, click_outcome(slot, held, db).1)
            == amount(id, slot) + amount(id, held),
{
}

/// Topping up never pushes a stack past its limit: a slot stack within its
/// limit is within it after any click, and a click that moves a held stack
/// into an empty slot or swaps leaves exactly the stacks that were there.
pub proof fn law_click_respects_stack_limit(
    slot: Option<ItemStack>,
    held: Option<ItemStack>,
    db: Map<Seq<char>, ItemDef>,
)
    requires
        slot matches Some(s) ==> s.count <= stack_limit(db, s.id@),
        held matches Some(h) ==> h.count <= stack_limit(db, h.id@),
    ensures
        click_outcome(slot, held, db).0 matches Some(s) ==> s.count <= stack_limit(db, s.id@),
        click_outcome(slot, held, db).1 matches Some(h) ==> h.count <= stack_limit(db, h.id@),
{
}

/// A click never leaves an empty stack behind: if the stacks it starts from
/// hold at least one item each, so do the stacks it leaves.
pub proof fn law_click_keeps_stacks_nonempty(
    slot: Option<ItemStack>,
    held: Option<ItemStack>,
    db: Map<Seq<char>, ItemDef>,
)
    requires
        slot matches Some(s) ==> s.count > 0,
        held matches Some(h) ==> h.count > 0,
    ensures
        click_outcome(slot, held, db).0 matches Some(s) ==> s.count > 0,
        click_outcome(slot, held, db).1 matches Some(h) ==> h.count > 0,
{
}

/// A click that does not top up a stack (one side empty, or two different
/// items) is undone by clicking the same slot again.
pub proof fn law_second_click_undoes_move(
    slot: Option<ItemStack>,
    held: Option<ItemStack>,
    db: Map<Seq<char>, ItemDef>,
)
    requires
        !(slot matches Some(s) && held matches Some(h) && s.id@ == h.id@),
    ensures
        click_outcome(click_outcome(slot, held, db).0, click_outcome(slot, held, db).1, db) == (slot, held),
{
}

/// How many of item `id` a run of slots holds.
pub open spec fn total(slots: Seq<Option<ItemStack>>, id: Seq<char>) -> nat
    decreases slots.len(),
{
    if slots.len() == 0 {
        0
    } else {
        total(slots.drop_last(), id) + amount(id, slots.last())
    }
}

proof fn lemma_total_update(slots: Seq<Option<ItemStack>>, i: int, v: Option<ItemStack>, id: Seq<char>)
    requires
        0 <= i < slots.len(),
    ensures
        total(slots.update(i, v), id) + amount(id, slots[i]) == total(slots, id) + amount(id, v),
    decreases slots.len(),
{
    let u = slots.update(i, v);
    if i == slots.len() - 1 {
        assert(u.drop_last() =~= slots.drop_last());
    } else {
        assert(u.drop_last() =~= slots.drop_last().update(i, v));
        lemma_total_update(slots.drop_last(), i, v, id);
    }
}

/// The slots and cursor after clicking the slots `pressed` in order.
pub open spec fn clicks_outcome(
    slots: Seq<Option<ItemStack>>,
    held: Option<ItemStack>,
    pressed: Seq<usize>,
    db: Map<Seq<char>, ItemDef>,
) -> (Seq<Option<ItemStack>>, Option<ItemStack>)
    decreases pressed.len(),
{
    if pressed.len() == 0 {
        (slots, held)
    } else {
        let before = clicks_outcome(slots, held, pressed.drop_last(), db);
        let i = pressed.last() as int;
        let after = click_outcome(before.0[i], before.1, db);
        (before.0.update(i, after.0), after.1)
    }
}

proof fn lemma_clicks_keep_length(
    slots: Seq<Option<ItemStack>>,
    held: Option<ItemStack>,
    pressed: Seq<usize>,
    db: Map<Seq<char>, ItemDef>,
)
    requires
        forall|k: int| 0 <= k < pressed.len() ==> (#[trigger] pressed[k]) < slots.len(),
    ensures
        clicks_outcome(slots, held, pressed, db).0.len() == slots.len(),
    decreases pressed.len(),
{
    if pressed.len() > 0 {
        let p = pressed.drop_last();
        assert forall|k: int| 0 <= k < p.len() implies (#[trigger] p[k]) < slots.len() by {
            assert(p[k] == pressed[k]);
        }
        assert(pressed.last() == pressed[pressed.len() - 1]);
        lemma_clicks_keep_length(slots, held, p, db);
    }
}

/// Clicking slots never creates nor destroys items: for every item, the
/// inventory and the cursor together hold as many of it afterwards.
pub proof fn law_clicks_conserve_items(
    slots: Seq<Option<ItemStack>>,
    held: Option<ItemStack>,
    pressed: Seq<usize>,
    db: Map<Seq<char>, ItemDef>,
    id: Seq<char>,
)
    requires
        forall|k: int| 0 <= k < pressed.len() ==> (#[trigger] pressed[k]) < slots.len(),
    ensures
        total(clicks_outcome(slots, held, pressed, db).0, id) + amount(id, clicks_outcome(slots, held, pressed, db).1)
            == total(slots, id) + amount(id, held),
    decreases pressed.len(),
{
    if pressed.len() > 0 {
        let p = pressed.drop_last();
        assert forall|k: int| 0 <= k < p.len() implies (#[trigger] p[k]) < slots.len() by {
            assert(p[k] == pressed[k]);
        }
        law_clicks_conserve_items(slots, held, p, db, id);
        lemma_clicks_keep_length(slots, held, p, db);
        let before = clicks_outcome(slots, held, p, db);
        let i = pressed.last() as int;
        assert(pressed.last() == pressed[pressed.len() - 1]);
        let after = click_outcome(before.0[i], before.1, db);
        law_click_conserves_items(before.0[i], before.1, db, id);
        lemma_total_update(before.0, i, after.0, id);
    }
}

/// The player's inventory and the selected hotbar slot.
pub struct Inventory {
    pub slots: Vec<Option<ItemStack>>,
    pub selected: usize,
}

/// The starting inventory: a sword in the first hotbar slot, food, stone and
/// herbs in the first backpack row, everything else empty.
pub open spec fn starting_slot(i: int) -> Option<(Seq<char>, u32)> {
    if i == 0 {
        Some(("iron_sword"@, 1u32))
    } else if i == 9 {
        Some(("apple"@, 5u32))
    } else if i == 10 {
        Some(("stone"@, 30u32))
    } else if i == 11 {
        Some(("cooked_meat"@, 3u32))
    } else if i == 12 {
        Some(("healing_herb"@, 2u32))
    } else {
        None
    }
}

/// The stack `st` holds exactly what `want` describes.
pub open spec fn stack_is(st: Option<ItemStack>, want: Option<(Seq<char>, u32)>) -> bool {
    match (st, want) {
        (Some(s), Some(w)) => s.id@ == w.0 && s.count == w.1,
        (None, None) => true,
        _ => false,
    }
}

impl Default for Inventory {
    /// The starting inventory (see [`starting_slot`]), hotbar slot 0 selected.
    fn default() -> (r: Inventory)
        ensures
            r.slots@.len() == SLOT_COUNT,
            forall|i: int| 0 <= i < SLOT_COUNT ==> stack_is(#[trigger] r.slots@[i], starting_slot(i)),
            r.selected == 0,
    {
        let mut slots: Vec<Option<ItemStack>> = Vec::new();
        let mut i: usize = 0;
        while i < SLOT_COUNT
            invariant
                i <= SLOT_COUNT,
                slots@.len() == i,
                forall|k: int| 0 <= k < i ==> (#[trigger] slots@[k]) is None,
            decreases SLOT_COUNT - i,
        {
            slots.push(None);
            i = i + 1;
        }
        slots.set(0, Some(ItemStack { id: "iron_sword", count: 1 }));
        slots.set(9, Some(ItemStack { id: "apple", count: 5 }));
        slots.set(10, Some(ItemStack { id: "stone", count: 30 }));
        slots.set(11, Some(ItemStack { id: "cooked_meat", count: 3 }));
        slots.set(12, Some(ItemStack { id: "healing_herb", count: 2 }));
        Inventory { slots, selected: 0 }
    }
}

/// The hotbar slot `i`'s key is among the keys just pressed.
pub open spec fn hotbar_pressed(binds: Map<Action, Seq<char>>, just_pressed: Seq<String>, i: int) -> bool {
    keys_contain(just_pressed, binds[hotbar_action(i)])
}

impl Inventory {
    /// Clicks the slots `pressed`, in order, while the inventory panel is
    /// open; with the panel closed, clicks do nothing.
    pub fn click_slot(
        &mut self,
        inventory_open: bool,
        pressed: &Vec<usize>,
        held: &mut Option<ItemStack>,
        db: &ItemDb,
    )
        requires
            forall|k: int| 0 <= k < pressed@.len() ==> (#[trigger] pressed@[k]) < old(self).slots@.len(),
        ensures
            final(self).selected == old(self).selected,
            !inventory_open ==> final(self).slots@ == old(self).slots@ && *final(held) == *old(held),
            inventory_open ==> (final(self).slots@, *final(held)) == clicks_outcome(
                old(self).slots@,
                *old(held),
                pressed@,
                db@,
            ),
    {
        if !inventory_open {
            return;
        }
        let mut k: usize = 0;
        while k < pressed.len()
            invariant
                k <= pressed@.len(),
                self.selected == old(self).selected,
                forall|j: int| 0 <= j < pressed@.len() ==> (#[trigger] pressed@[j]) < old(self).slots@.len(),
                self.slots@.len() == old(self).slots@.len(),
                (self.slots@, *held) == clicks_outcome(old(self).slots@, *old(held), pressed@.take(k as int), db@),
            decreases pressed@.len() - k,
        {
            let i = pressed[k];
            proof {
                assert(pressed@.take(k + 1).drop_last() =~= pressed@.take(k as int));
                assert(pressed@.take(k + 1).last() == i);
            }
            let slot_item = self.slots[i];
            let held_item = *held;
            let (new_slot, new_held) = resolve_click(slot_item, held_item, db);
            self.slots.set(i, new_slot);
            *held = new_held;
            k = k + 1;
        }
        proof {
            assert(pressed@.take(pressed@.len() as int) =~= pressed@);
        }
    }

    /// Selects the hotbar slot whose key was just pressed (the last such slot
    /// if several were), unless the settings panel is open or typing has the
    /// keyboard.
    pub fn select_hotbar_slot(
        &mut self,
        settings_open: bool,
        input_locked: bool,
        binds: &Keybinds,
        just_pressed: &Vec<String>,
    )
        ensures
            final(self).slots@ == old(self).slots@,
            (settings_open || input_locked) ==> final(self).selected == old(self).selected,
            !(settings_open || input_locked) ==> {
                if exists|i: int| 0 <= i < HOTBAR_SLOTS && hotbar_pressed(binds@, just_pressed@, i) {
                    &&& final(self).selected < HOTBAR_SLOTS
                    &&& hotbar_pressed(binds@, just_pressed@, final(self).selected as int)
                    &&& forall|j: int|
                        final(self).selected < j < HOTBAR_SLOTS ==> !hotbar_pressed(binds@, just_pressed@, j)
                } else {
                    final(self).selected == old(self).selected
                }
            },
    {
        if settings_open || input_locked {
            return;
        }
        let ghost start = self.selected;
        let ghost mut found = false;
        let mut i: usize = 0;
        while i < HOTBAR_SLOTS
            invariant
                i <= HOTBAR_SLOTS,
                self.slots@ == old(self).slots@,
                found == exists|j: int| 0 <= j < i && hotbar_pressed(binds@, just_pressed@, j),
                !found ==> self.selected == start,
                found ==> self.selected < i && hotbar_pressed(binds@, just_pressed@, self.selected as int),
                found ==> forall|j: int| self.selected < j < i ==> !hotbar_pressed(binds@, just_pressed@, j),
                start == old(self).selected,
            decreases HOTBAR_SLOTS - i,
        {
            let hit = binds.pressed(Action::hotbar(i), just_pressed);
            assert(hit == hotbar_pressed(binds@, just_pressed@, i as int));
            if hit {
                self.selected = i;
                proof {
                    found = true;
                }
            }
            proof {
                if !hit {
                    assert forall|j: int| 0 <= j < i + 1 && hotbar_pressed(binds@, just_pressed@, j) implies j < i by {}
                }
            }
            i = i + 1;
        }
    }
}

/// The name shown for item `id`: its catalogue name, or the id itself for an
/// item the catalogue does not know.
pub open spec fn shown_name(db: Map<Seq<char>, ItemDef>, id: Seq<char>) -> Seq<char> {
    if db.contains_key(id) {
        db[id].name@
    } else {
        id
    }
}

/// The text for a stack: its name, followed by `sep` and the count when it
/// holds more than one.
pub open spec fn stack_text(db: Map<Seq<char>, ItemDef>, s: ItemStack, sep: Seq<char>) -> Seq<char> {
    if s.count > 1 {
        shown_name(db, s.id@) + sep + decimal(s.count as nat)
    } else {
        shown_name(db, s.id@)
    }
}

/// The name shown for item `id` (see [`shown_name`]).
pub fn display_name(id: &'static str, db: &ItemDb) -> (r: &'static str)
    ensures
        r@ == shown_name(db@, id@),
{
    match db.get(id) {
        Some(d) => d.name,
        None => id,
    }
}

fn stack_label(s: ItemStack, sep: &str, db: &ItemDb) -> (r: String)
    ensures
        r@ == stack_text(db@, s, sep@),
{
    let name = display_name(s.id, db);
    if s.count > 1 {
        let mut t = String::from_str(name);
        t.append(sep);
        let n = decimal_string(s.count);
        t.append(n.as_str());
        t
    } else {
        String::from_str(name)
    }
}

/// The label of an inventory slot: empty for an empty slot, otherwise the
/// item's name with the count on a second line when there is more than one.
pub fn slot_label(slot: &Option<ItemStack>, db: &ItemDb) -> (r: String)
    ensures
        r@ == match *slot {
            Some(s) => stack_text(db@, s, "\n"@),
            None => Seq::<char>::empty(),
        },
{
    match slot {
        Some(s) => stack_label(*s, "\n", db),
        None => String::new(),
    }
}

/// The label that follows the cursor: hidden (`None`) unless the inventory
/// panel is open and a stack is held; otherwise the item's name, followed by
/// ` x` and the count when there is more than one.
pub fn held_label(held: &Option<ItemStack>, inventory_open: bool, db: &ItemDb) -> (r: Option<String>)
    ensures
        (!inventory_open || held.is_none()) ==> r.is_none(),
        (inventory_open && held.is_some()) ==> (r matches Some(t) && t@ == stack_text(
            db@,
            held.unwrap(),
            " x"@,
        )),
{
    if !inventory_open {
        return None;
    }
    match held {
        Some(s) => Some(stack_label(*s, " x", db)),
        None => None,
    }
}

} // verus!
