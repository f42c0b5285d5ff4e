use alive::inventory::{
    display_name, held_label, resolve_click, slot_label, Inventory, ItemStack, HOTBAR_SLOTS, OFFHAND_SLOT,
    SLOT_COUNT,
};
use alive::items::{item_database, Effect, ItemDb, ItemDef, ItemKind};
use alive::keybinds::{Action, Keybinds};

fn stack(id: &'static str, count: u32) -> Option<ItemStack> {
    Some(ItemStack { id, count })
}

fn parts(s: &Option<ItemStack>) -> Option<(&'static str, u32)> {
    s.map(|st| (st.id, st.count))
}

fn keys(names: &[&str]) -> Vec<String> {
    names.iter().map(|s| s.to_string()).collect()
}

#[test]
fn catalogue_holds_the_six_items() {
    let db = item_database();
    let apple = db.get("apple").unwrap();
    assert_eq!(apple.name, "Apple");
    assert_eq!(apple.max_stack, 64);
    match &apple.kind {
        ItemKind::Consumable { restore_health, restore_hunger, effects } => {
            assert_eq!(*restore_health, 0);
            assert_eq!(*restore_hunger, 40);
            assert!(effects.is_empty());
        }
        _ => panic!("apple is food"),
    }
    let herb = db.get("healing_herb").unwrap();
    assert_eq!(herb.max_stack, 16);
    match &herb.kind {
        ItemKind::Consumable { restore_health, effects, .. } => {
            assert_eq!(*restore_health, 60);
            assert_eq!(effects.as_slice(), &[Effect::Regen { per_second: 10, seconds: 40 }]);
        }
        _ => panic!("herb is a consumable"),
    }
    let sword = db.get("iron_sword").unwrap();
    assert_eq!(sword.max_stack, 1);
    assert!(matches!(sword.kind, ItemKind::Weapon { damage: 60 }));
    assert!(matches!(db.get("stone").unwrap().kind, ItemKind::Material));
    assert_eq!(db.get("wood").unwrap().name, "Wood");
    assert_eq!(db.get("cooked_meat").unwrap().name, "Cooked Meat");
    assert!(db.get("gold").is_none());
    assert!(db.get("").is_none());
}

#[test]
fn later_definition_replaces_earlier() {
    let mut db = ItemDb::new();
    db.insert(ItemDef { id: "rope", name: "Rope", max_stack: 10, kind: ItemKind::Material });
    db.insert(ItemDef { id: "rope", name: "Long Rope", max_stack: 5, kind: ItemKind::Material });
    let d = db.get("rope").unwrap();
    assert_eq!(d.name, "Long Rope");
    assert_eq!(d.max_stack, 5);
}

#[test]
fn empty_hand_picks_up() {
    let db = item_database();
    let (s, h) = resolve_click(stack("apple", 5), None, &db);
    assert!(s.is_none());
    assert_eq!(parts(&h), Some(("apple", 5)));
}

#[test]
fn held_stack_goes_into_empty_slot() {
    let db = item_database();
    let (s, h) = resolve_click(None, stack("stone", 7), &db);
    assert_eq!(parts(&s), Some(("stone", 7)));
    assert!(h.is_none());
}

#[test]
fn empty_click_on_empty_slot_does_nothing() {
    let db = item_database();
    let (s, h) = resolve_click(None, None, &db);
    assert!(s.is_none() && h.is_none());
}

#[test]
fn same_item_tops_up_and_keeps_leftover() {
    let db = item_database();
    let (s, h) = resolve_click(stack("apple", 60), stack("apple", 10), &db);
    assert_eq!(parts(&s), Some(("apple", 64)));
    assert_eq!(parts(&h), Some(("apple", 6)));
}

#[test]
fn same_item_merges_completely_when_it_fits() {
    let db = item_database();
    let (s, h) = resolve_click(stack("healing_herb", 10), stack("healing_herb", 6), &db);
    assert_eq!(parts(&s), Some(("healing_herb", 16)));
    assert!(h.is_none());
}

#[test]
fn full_stack_takes_nothing() {
    let db = item_database();
    let (s, h) = resolve_click(stack("iron_sword", 1), stack("iron_sword", 1), &db);
    assert_eq!(parts(&s), Some(("iron_sword", 1)));
    assert_eq!(parts(&h), Some(("iron_sword", 1)));
}

#[test]
fn over_full_stack_is_left_alone() {
    let db = item_database();
    let (s, h) = resolve_click(stack("healing_herb", 20), stack("healing_herb", 3), &db);
    assert_eq!(parts(&s), Some(("healing_herb", 20)));
    assert_eq!(parts(&h), Some(("healing_herb", 3)));
}

#[test]
fn unknown_item_stacks_to_sixty_four() {
    let db = item_database();
    let (s, h) = resolve_click(stack("feather", 50), stack("feather", 20), &db);
    assert_eq!(parts(&s), Some(("feather", 64)));
    assert_eq!(parts(&h), Some(("feather", 6)));
}

#[test]
fn different_items_swap() {
    let db = item_database();
    let (s, h) = resolve_click(stack("apple", 5), stack("stone", 30), &db);
    assert_eq!(parts(&s), Some(("stone", 30)));
    assert_eq!(parts(&h), Some(("apple", 5)));
    let (s2, h2) = resolve_click(s, h, &db);
    assert_eq!(parts(&s2), Some(("apple", 5)));
    assert_eq!(parts(&h2), Some(("stone", 30)));
}

#[test]
fn starting_inventory() {
    let inv = Inventory::default();
    assert_eq!(inv.slots.len(), SLOT_COUNT);
    assert_eq!(inv.selected, 0);
    assert_eq!(parts(&inv.slots[0]), Some(("iron_sword", 1)));
    assert_eq!(parts(&inv.slots[9]), Some(("apple", 5)));
    assert_eq!(parts(&inv.slots[10]), Some(("stone", 30)));
    assert_eq!(parts(&inv.slots[11]), Some(("cooked_meat", 3)));
    assert_eq!(parts(&inv.slots[12]), Some(("healing_herb", 2)));
    let filled = inv.slots.iter().filter(|s| s.is_some()).count();
    assert_eq!(filled, 5);
    assert!(inv.slots[OFFHAND_SLOT].is_none());
}

#[test]
fn clicks_move_stacks_and_keep_counts() {
    let db = item_database();
    let mut inv = Inventory::default();
    let mut held = None;
    // pick up the apples, drop them in slot 1
    inv.click_slot(true, &vec![9, 1], &mut held, &db);
    assert!(inv.slots[9].is_none());
    assert_eq!(parts(&inv.slots[1]), Some(("apple", 5)));
    assert!(held.is_none());
    // with the panel closed nothing moves
    inv.click_slot(false, &vec![1], &mut held, &db);
    assert_eq!(parts(&inv.slots[1]), Some(("apple", 5)));
    assert!(held.is_none());
    // swap the sword onto the cursor through the stone slot
    inv.click_slot(true, &vec![0, 10], &mut held, &db);
    assert_eq!(parts(&inv.slots[10]), Some(("iron_sword", 1)));
    assert_eq!(parts(&held), Some(("stone", 30)));
}

#[test]
fn hotbar_keys_select_slots() {
    let binds = Keybinds::default();
    let mut inv = Inventory::default();
    inv.select_hotbar_slot(false, false, &binds, &keys(&["Digit3"]));
    assert_eq!(inv.selected, 2);
    inv.select_hotbar_slot(false, false, &binds, &keys(&["Digit2", "Digit7"]));
    assert_eq!(inv.selected, 6);
    inv.select_hotbar_slot(true, false, &binds, &keys(&["Digit1"]));
    assert_eq!(inv.selected, 6);
    inv.select_hotbar_slot(false, true, &binds, &keys(&["Digit1"]));
    assert_eq!(inv.selected, 6);
    inv.select_hotbar_slot(false, false, &binds, &keys(&["KeyW"]));
    assert_eq!(inv.selected, 6);
    let mut rebound = Keybinds::default();
    rebound.set(Action::Hotbar9, "KeyQ".to_string());
    inv.select_hotbar_slot(false, false, &rebound, &keys(&["KeyQ"]));
    assert_eq!(inv.selected, HOTBAR_SLOTS - 1);
}

#[test]
fn slot_and_held_labels() {
    let db = item_database();
    assert_eq!(slot_label(&stack("apple", 5), &db), "Apple\n5");
    assert_eq!(slot_label(&stack("iron_sword", 1), &db), "Iron Sword");
    assert_eq!(slot_label(&stack("feather", 12), &db), "feather\n12");
    assert_eq!(slot_label(&None, &db), "");
    assert_eq!(slot_label(&stack("stone", 4294967295), &db), "Stone\n4294967295");
    assert_eq!(held_label(&stack("cooked_meat", 3), true, &db), Some("Cooked Meat x3".to_string()));
    assert_eq!(held_label(&stack("stone", 1), true, &db), Some("Stone".to_string()));
    assert_eq!(held_label(&stack("stone", 10), false, &db), None);
    assert_eq!(held_label(&None, true, &db), None);
    assert_eq!(display_name("wood", &db), "Wood");
    assert_eq!(display_name("mystery", &db), "mystery");
}

fn total_of(inv: &Inventory, held: &Option<ItemStack>, id: &str) -> u32 {
    inv.slots.iter().chain(std::iter::once(held)).filter_map(|s| *s).filter(|s| s.id == id).map(|s| s.count).sum()
}

#[test]
fn clicking_never_creates_or_destroys_items() {
    let db = item_database();
    let mut inv = Inventory::default();
    inv.slots[3] = stack("apple", 62);
    inv.slots[4] = stack("healing_herb", 15);
    let mut held = None;
    let before_apples = total_of(&inv, &held, "apple");
    let before_herbs = total_of(&inv, &held, "healing_herb");
    inv.click_slot(true, &vec![9, 3, 12, 4, 20, 4, 0, 12], &mut held, &db);
    assert_eq!(total_of(&inv, &held, "apple"), before_apples);
    assert_eq!(total_of(&inv, &held, "healing_herb"), before_herbs);
    assert_eq!(parts(&inv.slots[3]), Some(("apple", 64)));
    for s in inv.slots.iter().chain(std::iter::once(&held)).flatten() {
        assert!(s.count > 0);
        assert!(s.count <= db.get(s.id).map(|d| d.max_stack).unwrap_or(64));
    }
}
