use alive::keybinds::{actions, key_name, Action, Keybinds};
use alive::menus::Menus;
use alive::movement::{dodge_direction, gait, marker_cells, move_direction, movement_allowed, Gait};
use alive::text::{decimal_string, same_text, trim_text};

fn keys(names: &[&str]) -> Vec<String> {
    names.iter().map(|s| s.to_string()).collect()
}

#[test]
fn default_bindings() {
    let b = Keybinds::default();
    assert_eq!(b.get(Action::Up), "KeyW");
    assert_eq!(b.get(Action::Down), "KeyS");
    assert_eq!(b.get(Action::Left), "KeyA");
    assert_eq!(b.get(Action::Right), "KeyD");
    assert_eq!(b.get(Action::Sprint), "ControlLeft");
    assert_eq!(b.get(Action::Sneak), "ShiftLeft");
    assert_eq!(b.get(Action::DodgeRoll), "Space");
    assert_eq!(b.get(Action::Inventory), "KeyE");
    assert_eq!(b.get(Action::Talk), "KeyF");
    assert_eq!(b.get(Action::Chat), "KeyT");
    assert_eq!(b.get(Action::Hotbar1), "Digit1");
    assert_eq!(b.get(Action::Hotbar9), "Digit9");
}

#[test]
fn rebinding_changes_one_action() {
    let mut b = Keybinds::default();
    b.set(Action::Up, "ArrowUp".to_string());
    assert_eq!(b.get(Action::Up), "ArrowUp");
    assert_eq!(b.get(Action::Down), "KeyS");
    assert!(b.pressed(Action::Up, &keys(&["ArrowUp"])));
    assert!(!b.pressed(Action::Up, &keys(&["KeyW"])));
}

#[test]
fn keybinds_table() {
    let t = actions();
    assert_eq!(t.len(), 20);
    assert_eq!(t[0].action, Action::Up);
    assert_eq!(t[0].label, "Move up");
    assert_eq!(t[0].key, "KeyW");
    assert_eq!(t[8].label, "Talk / shout");
    assert_eq!(t[18].action, Action::Talk);
    assert_eq!(t[19].action, Action::Chat);
    assert_eq!(t[19].label, "Reply / type");
    assert_eq!(t[19].key, "KeyT");
}

#[test]
fn key_names() {
    assert_eq!(key_name("Space"), "Space");
    assert_eq!(key_name("ShiftLeft"), "L Shift");
    assert_eq!(key_name("ShiftRight"), "R Shift");
    assert_eq!(key_name("ControlLeft"), "L Ctrl");
    assert_eq!(key_name("ControlRight"), "R Ctrl");
    assert_eq!(key_name("AltLeft"), "L Alt");
    assert_eq!(key_name("ArrowUp"), "Up");
    assert_eq!(key_name("ArrowDown"), "Down");
    assert_eq!(key_name("ArrowLeft"), "Left");
    assert_eq!(key_name("ArrowRight"), "Right");
    assert_eq!(key_name("KeyW"), "W");
    assert_eq!(key_name("Digit7"), "7");
    assert_eq!(key_name("Escape"), "Escape");
    assert_eq!(key_name("AltRight"), "AltRight");
    assert_eq!(key_name("F5"), "F5");
}

#[test]
fn escape_closes_innermost_first() {
    let mut m = Menus::default();
    m.inventory_open = true;
    m.press_settings_button();
    m.press_rebind_button(Action::Sprint);
    let esc = keys(&["Escape"]);
    m.escape(&esc);
    assert!(m.rebinding.is_none() && m.settings_open && m.inventory_open);
    m.escape(&esc);
    assert!(!m.settings_open && m.inventory_open);
    m.escape(&esc);
    assert!(!m.inventory_open);
    m.escape(&keys(&["KeyE"]));
    assert!(!m.inventory_open && !m.settings_open);
}

#[test]
fn inventory_key_toggles_unless_blocked() {
    let b = Keybinds::default();
    let mut m = Menus::default();
    m.toggle_inventory(false, &b, &keys(&["KeyE"]));
    assert!(m.inventory_open);
    m.toggle_inventory(true, &b, &keys(&["KeyE"]));
    assert!(m.inventory_open);
    m.press_settings_button();
    m.toggle_inventory(false, &b, &keys(&["KeyE"]));
    assert!(m.inventory_open);
    m.press_settings_button();
    m.toggle_inventory(false, &b, &keys(&["KeyE"]));
    assert!(!m.inventory_open);
}

#[test]
fn rebind_takes_first_key_other_than_escape() {
    let mut b = Keybinds::default();
    let mut m = Menus::default();
    m.capture_rebind(&mut b, &keys(&["KeyZ"]));
    assert_eq!(b.get(Action::Sneak), "ShiftLeft");
    m.press_rebind_button(Action::Sneak);
    assert_eq!(m.rebind_label(&b, Action::Sneak), "press…");
    assert_eq!(m.rebind_label(&b, Action::Sprint), "L Ctrl");
    m.capture_rebind(&mut b, &keys(&["Escape"]));
    assert_eq!(m.rebinding, Some(Action::Sneak));
    m.capture_rebind(&mut b, &keys(&["Escape", "KeyC", "KeyV"]));
    assert!(m.rebinding.is_none());
    assert_eq!(b.get(Action::Sneak), "KeyC");
    assert_eq!(m.rebind_label(&b, Action::Sneak), "C");
}

#[test]
fn movement_from_keys() {
    let b = Keybinds::default();
    assert_eq!(move_direction(&b, &keys(&["KeyW", "KeyD"])), (1, 1));
    assert_eq!(move_direction(&b, &keys(&["KeyA", "KeyD", "KeyS"])), (0, -1));
    assert_eq!(move_direction(&b, &keys(&[])), (0, 0));
    assert_eq!(gait(&b, &keys(&["ControlLeft", "ShiftLeft"])), Gait::Sprint);
    assert_eq!(gait(&b, &keys(&["ShiftLeft"])), Gait::Sneak);
    assert_eq!(gait(&b, &keys(&["KeyW"])), Gait::Walk);
    assert!(movement_allowed(false, false, false));
    assert!(!movement_allowed(true, false, false));
    assert!(!movement_allowed(false, false, true));
    assert_eq!(dodge_direction((0, 0)), (0, -1));
    assert_eq!(dodge_direction((-1, 1)), (-1, 1));
}

#[test]
fn ground_markers() {
    let cells = marker_cells();
    assert_eq!(cells.len(), 120);
    assert_eq!(cells[0], (-5, -5));
    assert_eq!(cells[119], (5, 5));
    assert!(!cells.contains(&(0, 0)));
    assert!(cells.contains(&(0, 1)));
}

#[test]
fn text_helpers() {
    assert!(same_text("abc", "abc"));
    assert!(!same_text("abc", "abd"));
    assert_eq!(decimal_string(0), "0");
    assert_eq!(decimal_string(907), "907");
    assert_eq!(trim_text("  hi there \n"), "hi there");
    assert_eq!(trim_text("\u{3000}x\u{a0}"), "x");
    assert_eq!(trim_text("   "), "");
}
