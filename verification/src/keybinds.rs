//! Player actions, their default keys, the rebindable key map, and the names
//! shown for keys.
//!
//! A key is named as the input layer names it (`KeyW`, `Digit1`, `Space`,
//! `ShiftLeft`, `Escape`, ...): the key's variant name.

use vstd::prelude::*;
use vstd::string::*;
use crate::text::{digit_char, same_text};

verus! {

/// Everything the player can bind a key to.
#[derive(Clone, Copy, Debug, PartialEq, Eq, Structural)]
pub enum Action {
    Up,
    Down,
    Left,
    Right,
    Sprint,
    Sneak,
    DodgeRoll,
    Inventory,
    Talk,
    Chat,
    Hotbar1,
    Hotbar2,
    Hotbar3,
    Hotbar4,
    Hotbar5,
    Hotbar6,
    Hotbar7,
    Hotbar8,
    Hotbar9,
}

/// How many actions there are.
pub const ACTION_COUNT: usize = 19;

/// The position of each action in declaration order.
pub open spec fn action_index(a: Action) -> int {
    match a {
        Action::Up => 0,
        Action::Down => 1,
        Action::Left => 2,
        Action::Right => 3,
        Action::Sprint => 4,
        Action::Sneak => 5,
        Action::DodgeRoll => 6,
        Action::Inventory => 7,
        Action::Talk => 8,
        Action::Chat => 9,
        Action::Hotbar1 => 10,
        Action::Hotbar2 => 11,
        Action::Hotbar3 => 12,
        Action::Hotbar4 => 13,
        Action::Hotbar5 => 14,
        Action::Hotbar6 => 15,
        Action::Hotbar7 => 16,
        Action::Hotbar8 => 17,
        Action::Hotbar9 => 18,
    }
}

/// The hotbar action for hotbar slot `i` (slot 0 is `Hotbar1`).
pub open spec fn hotbar_action(i: int) -> Action {
    if i == 0 {
        Action::Hotbar1
    } else if i == 1 {
        Action::Hotbar2
    } else if i == 2 {
        Action::Hotbar3
    } else if i == 3 {
        Action::Hotbar4
    } else if i == 4 {
        Action::Hotbar5
    } else if i == 5 {
        Action::Hotbar6
    } else if i == 6 {
        Action::Hotbar7
    } else if i == 7 {
        Action::Hotbar8
    } else {
        Action::Hotbar9
    }
}

impl Action {
    /// The action's position in declaration order.
    pub fn index(self) -> (r: usize)
        ensures
            r == action_index(self),
            r < ACTION_COUNT,
    {
        match self {
            Action::Up => 0,
            Action::Down => 1,
            Action::Left => 2,
            Action::Right => 3,
            Action::Sprint => 4,
            Action::Sneak => 5,
            Action::DodgeRoll => 6,
            Action::Inventory => 7,
            Action::Talk => 8,
            Action::Chat => 9,
            Action::Hotbar1 => 10,
            Action::Hotbar2 => 11,
            Action::Hotbar3 => 12,
            Action::Hotbar4 => 13,
            Action::Hotbar5 => 14,
            Action::Hotbar6 => 15,
            Action::Hotbar7 => 16,
            Action::Hotbar8 => 17,
            Action::Hotbar9 => 18,
        }
    }

    /// The hotbar action for hotbar slot `i` (slot 0 is `Hotbar1`).
    pub fn hotbar(i: usize) -> (r: Action)
        requires
            i < 9,
        ensures
            r == hotbar_action(i as int),
    {
        if i == 0 {
            Action::Hotbar1
        } else if i == 1 {
            Action::Hotbar2
        } else if i == 2 {
            Action::Hotbar3
        } else if i == 3 {
            Action::Hotbar4
        } else if i == 4 {
            Action::Hotbar5
        } else if i == 5 {
            Action::Hotbar6
        } else if i == 6 {
            Action::Hotbar7
        } else if i == 7 {
            Action::Hotbar8
        } else {
            Action::Hotbar9
        }
    }
}

/// The key each action has before the player rebinds anything.
pub open spec fn default_key(a: Action) -> Seq<char> {
    match a {
        Action::Up => "KeyW"@,
        Action::Down => "KeyS"@,
        Action::Left => "KeyA"@,
        Action::Right => "KeyD"@,
        Action::Sprint => "ControlLeft"@,
        Action::Sneak => "ShiftLeft"@,
        Action::DodgeRoll => "Space"@,
        Action::Inventory => "KeyE"@,
        Action::Talk => "KeyF"@,
        Action::Chat => "KeyT"@,
        Action::Hotbar1 => "Digit1"@,
        Action::Hotbar2 => "Digit2"@,
        Action::Hotbar3 => "Digit3"@,
        Action::Hotbar4 => "Digit4"@,
        Action::Hotbar5 => "Digit5"@,
        Action::Hotbar6 => "Digit6"@,
        Action::Hotbar7 => "Digit7"@,
        Action::Hotbar8 => "Digit8"@,
        Action::Hotbar9 => "Digit9"@,
    }
}

/// One row of the keybinds table: the action, the label the settings panel
/// shows for it, and its default key.
#[derive(Clone, Copy, Debug)]
pub struct ActionRow {
    pub action: Action,
    pub label: &'static str,
    pub key: &'static str,
}

/// The label the settings panel shows for an action.
pub open spec fn action_label(a: Action) -> Seq<char> {
    match a {
        Action::Up => "Move up"@,
        Action::Down => "Move down"@,
        Action::Left => "Move left"@,
        Action::Right => "Move right"@,
        Action::Sprint => "Sprint"@,
        Action::Sneak => "Sneak"@,
        Action::DodgeRoll => "Dodge roll"@,
        Action::Inventory => "Inventory"@,
        Action::Talk => "Talk / shout"@,
        Action::Chat => "Reply / type"@,
        Action::Hotbar1 => "Hotbar 1"@,
        Action::Hotbar2 => "Hotbar 2"@,
        Action::Hotbar3 => "Hotbar 3"@,
        Action::Hotbar4 => "Hotbar 4"@,
        Action::Hotbar5 => "Hotbar 5"@,
        Action::Hotbar6 => "Hotbar 6"@,
        Action::Hotbar7 => "Hotbar 7"@,
        Action::Hotbar8 => "Hotbar 8"@,
        Action::Hotbar9 => "Hotbar 9"@,
    }
}

/// The keybinds table, row by row, as the settings panel lists it (the
/// panel shows rows 0..10 in one column and rows 10..19 in the other).
pub open spec fn action_table() -> Seq<(Action, Seq<char>, Seq<char>)> {
    seq![
        (Action::Up, "Move up"@, "KeyW"@),
        (Action::Down, "Move down"@, "KeyS"@),
        (Action::Left, "Move left"@, "KeyA"@),
        (Action::Right, "Move right"@, "KeyD"@),
        (Action::Sprint, "Sprint"@, "ControlLeft"@),
        (Action::Sneak, "Sneak"@, "ShiftLeft"@),
        (Action::DodgeRoll, "Dodge roll"@, "Space"@),
        (Action::Inventory, "Inventory"@, "KeyE"@),
        (Action::Talk, "Talk / shout"@, "KeyF"@),
        (Action::Hotbar1, "Hotbar 1"@, "Digit1"@),
        (Action::Hotbar2, "Hotbar 2"@, "Digit2"@),
        (Action::Hotbar3, "Hotbar 3"@, "Digit3"@),
        (Action::Hotbar4, "Hotbar 4"@, "Digit4"@),
        (Action::Hotbar5, "Hotbar 5"@, "Digit5"@),
        (Action::Hotbar6, "Hotbar 6"@, "Digit6"@),
        (Action::Hotbar7, "Hotbar 7"@, "Digit7"@),
        (Action::Hotbar8, "Hotbar 8"@, "Digit8"@),
        (Action::Hotbar9, "Hotbar 9"@, "Digit9"@),
        (Action::Talk, "Talk / shout"@, "KeyF"@),
        (Action::Chat, "Reply / type"@, "KeyT"@),
    ]
}

fn row(action: Action, label: &'static str, key: &'static str) -> (r: ActionRow)
    ensures
        r.action == action && r.label == label && r.key == key,
{
    ActionRow { action, label, key }
}

/// The keybinds table (see [`action_table`]).
pub fn actions() -> (r: Vec<ActionRow>)
    ensures
        r@.len() == action_table().len(),
        forall|i: int|
            0 <= i < r@.len() ==> ((#[trigger] r@[i]).action, r@[i].label@, r@[i].key@) == action_table()[i],
        forall|i: int|
            0 <= i < r@.len() ==> (#[trigger] r@[i]).label@ == action_label(r@[i].action) && r@[i].key@
                == default_key(r@[i].action),
{
    proof {
        law_table_rows_name_their_action();
    }
    let mut v: Vec<ActionRow> = Vec::new();
    v.push(row(Action::Up, "Move up", "KeyW"));
    v.push(row(Action::Down, "Move down", "KeyS"));
    v.push(row(Action::Left, "Move left", "KeyA"));
    v.push(row(Action::Right, "Move right", "KeyD"));
    v.push(row(Action::Sprint, "Sprint", "ControlLeft"));
    v.push(row(Action::Sneak, "Sneak", "ShiftLeft"));
    v.push(row(Action::DodgeRoll, "Dodge roll", "Space"));
    v.push(row(Action::Inventory, "Inventory", "KeyE"));
    v.push(row(Action::Talk, "Talk / shout", "KeyF"));
    v.push(row(Action::Hotbar1, "Hotbar 1", "Digit1"));
    v.push(row(Action::Hotbar2, "Hotbar 2", "Digit2"));
    v.push(row(Action::Hotbar3, "Hotbar 3", "Digit3"));
    v.push(row(Action::Hotbar4, "Hotbar 4", "Digit4"));
    v.push(row(Action::Hotbar5, "Hotbar 5", "Digit5"));
    v.push(row(Action::Hotbar6, "Hotbar 6", "Digit6"));
    v.push(row(Action::Hotbar7, "Hotbar 7", "Digit7"));
    v.push(row(Action::Hotbar8, "Hotbar 8", "Digit8"));
    v.push(row(Action::Hotbar9, "Hotbar 9", "Digit9"));
    v.push(row(Action::Talk, "Talk / shout", "KeyF"));
    v.push(row(Action::Chat, "Reply / type", "KeyT"));
    assert(v@.len() == 20);
    v
}

/// Every row of the keybinds table shows its own action's label and default
/// key: a row never shows one action's label beside another action's key.
pub proof fn law_table_rows_name_their_action()
    ensures
        forall|i: int|
            0 <= i < action_table().len() ==> (#[trigger] action_table()[i]).1 == action_label(action_table()[i].0)
                && action_table()[i].2 == default_key(action_table()[i].0),
{
}

/// Hotbar slot `i` is driven by the `i`-th hotbar action in declaration
/// order, whose default key is the digit `i + 1` and whose label is
/// `Hotbar` followed by that digit.
pub proof fn law_hotbar_slots_follow_digits(i: int)
    requires
        0 <= i < 9,
    ensures
        action_index(hotbar_action(i)) == action_index(Action::Hotbar1) + i,
        default_key(hotbar_action(i)) == "Digit"@ + seq![digit_char((i + 1) as nat)],
        action_label(hotbar_action(i)) == "Hotbar "@ + seq![digit_char((i + 1) as nat)],
        action_table()[9 + i].0 == hotbar_action(i),
{
    reveal_strlit("Digit");
    reveal_strlit("Hotbar ");
    reveal_strlit("Digit1");
    reveal_strlit("Digit2");
    reveal_strlit("Digit3");
    reveal_strlit("Digit4");
    reveal_strlit("Digit5");
    reveal_strlit("Digit6");
    reveal_strlit("Digit7");
    reveal_strlit("Digit8");
    reveal_strlit("Digit9");
    reveal_strlit("Hotbar 1");
    reveal_strlit("Hotbar 2");
    reveal_strlit("Hotbar 3");
    reveal_strlit("Hotbar 4");
    reveal_strlit("Hotbar 5");
    reveal_strlit("Hotbar 6");
    reveal_strlit("Hotbar 7");
    reveal_strlit("Hotbar 8");
    reveal_strlit("Hotbar 9");
    let d = seq![digit_char((i + 1) as nat)];
    assert(default_key(hotbar_action(i)) =~= "Digit"@ + d);
    assert(action_label(hotbar_action(i)) =~= "Hotbar "@ + d);
}

/// Every action's default key is the key that the table's last row for that
/// action names, and every action has a row.
pub proof fn lemma_default_keys_follow_table(a: Action)
    ensures
        exists|i: int| 0 <= i < action_table().len() && (#[trigger] action_table()[i]).0 == a,
        forall|i: int|
            0 <= i < action_table().len() && (#[trigger] action_table()[i]).0 == a ==> action_table()[i].2
                == default_key(a),
{
    let t = action_table();
    let i: int = match a {
        Action::Up => 0,
        Action::Down => 1,
        Action::Left => 2,
        Action::Right => 3,
        Action::Sprint => 4,
        Action::Sneak => 5,
        Action::DodgeRoll => 6,
        Action::Inventory => 7,
        Action::Talk => 8,
        Action::Chat => 19,
        Action::Hotbar1 => 9,
        Action::Hotbar2 => 10,
        Action::Hotbar3 => 11,
        Action::Hotbar4 => 12,
        Action::Hotbar5 => 13,
        Action::Hotbar6 => 14,
        Action::Hotbar7 => 15,
        Action::Hotbar8 => 16,
        Action::Hotbar9 => 17,
    };
    assert(t[i].0 == a);
}

/// The key bound to each action. Every action always has a key.
pub struct Keybinds {
    keys: Vec<String>,
}

impl Keybinds {
    #[verifier::type_invariant]
    spec fn keys_cover_actions(self) -> bool {
        self.keys@.len() == ACTION_COUNT
    }
}

impl View for Keybinds {
    type V = Map<Action, Seq<char>>;

    closed spec fn view(&self) -> Map<Action, Seq<char>> {
        Map::new(|a: Action| true, |a: Action| self.keys@[action_index(a)]@)
    }
}

/// The key map before the player rebinds anything.
pub open spec fn default_bindings() -> Map<Action, Seq<char>> {
    Map::new(|a: Action| true, |a: Action| default_key(a))
}

/// Every action has a key in every key map.
pub proof fn lemma_every_action_bound(kb: &Keybinds, a: Action)
    ensures
        kb@.contains_key(a),
{
}

impl Default for Keybinds {
    /// Each action bound to its default key, taken from the keybinds table.
    fn default() -> (r: Keybinds)
        ensures
            r@ == default_bindings(),
    {
        let mut keys: Vec<String> = Vec::new();
        let mut i: usize = 0;
        while i < ACTION_COUNT
            invariant
                i <= ACTION_COUNT,
                keys@.len() == i,
            decreases ACTION_COUNT - i,
        {
            keys.push(String::new());
            i = i + 1;
        }
        let mut kb = Keybinds { keys };
        let rows = actions();
        let mut j: usize = 0;
        while j < rows.len()
            invariant
                rows@.len() == action_table().len(),
                forall|i: int|
                    0 <= i < rows@.len() ==> ((#[trigger] rows@[i]).action, rows@[i].label@, rows@[i].key@)
                        == action_table()[i],
                j <= rows@.len(),
                forall|a: Action|
                    (exists|i: int| 0 <= i < j && (#[trigger] action_table()[i]).0 == a) ==> kb@[a]
                        == default_key(a),
            decreases rows@.len() - j,
        {
            let r = rows[j];
            proof {
                lemma_default_keys_follow_table(r.action);
            }
            kb.set(r.action, String::from_str(r.key));
            proof {
                assert forall|a: Action|
                    (exists|i: int| 0 <= i < j + 1 && (#[trigger] action_table()[i]).0 == a) implies kb@[a]
                        == default_key(a) by {
                    lemma_default_keys_follow_table(a);
                    if a != r.action {
                        let i = choose|i: int| 0 <= i < j + 1 && (#[trigger] action_table()[i]).0 == a;
                        assert(i != j);
                    }
                }
            }
            j = j + 1;
        }
        proof {
            assert forall|a: Action| #[trigger] kb@[a] == default_key(a) by {
                lemma_default_keys_follow_table(a);
            }
            assert(kb@ =~= default_bindings());
        }
        kb
    }
}

impl Keybinds {
    /// The key bound to `a`.
    pub fn get(&self, a: Action) -> (r: String)
        ensures
            r@ == self@[a],
    {
        proof {
            use_type_invariant(self);
        }
        self.keys[a.index()].clone()
    }

    /// Binds `a` to `key`; every other action keeps its key.
    pub fn set(&mut self, a: Action, key: String)
        ensures
            final(self)@ == old(self)@.insert(a, key@),
    {
        proof {
            use_type_invariant(&*self);
        }
        let ghost k = key@;
        let i = a.index();
        let mut keys = self.keys.clone();
        assert(keys@ =~= self.keys@);
        keys.set(i, key);
        self.keys = keys;
        proof {
            assert forall|b: Action| #[trigger] self@[b] == old(self)@.insert(a, k)[b] by {
                if b != a {
                    assert(action_index(b) != action_index(a));
                }
            }
            assert(self@ =~= old(self)@.insert(a, k));
        }
    }

    /// Whether the key bound to `a` is among `keys`.
    pub fn pressed(&self, a: Action, keys: &Vec<String>) -> (r: bool)
        ensures
            r == keys_contain(keys@, self@[a]),
    {
        let k = self.get(a);
        contains_key_name(keys, &k)
    }
}

/// Rebinding one action changes that action's key only: reading any action
/// after binding `a` to `k` gives `k` for `a` and the old key otherwise.
pub proof fn law_get_after_set(before: &Keybinds, after: &Keybinds, a: Action, k: Seq<char>, b: Action)
    requires
        after@ == before@.insert(a, k),
    ensures
        after@[b] == if b == a { k } else { before@[b] },
{
}

/// Whether the list of key names holds `k`.
pub open spec fn keys_contain(keys: Seq<String>, k: Seq<char>) -> bool {
    exists|i: int| 0 <= i < keys.len() && (#[trigger] keys[i])@ == k
}

/// Whether the list of key names holds `k`.
pub fn contains_key_name(keys: &Vec<String>, k: &String) -> (r: bool)
    ensures
        r == keys_contain(keys@, k@),
{
    let mut i: usize = 0;
    while i < keys.len()
        invariant
            i <= keys@.len(),
            forall|j: int| 0 <= j < i ==> (#[trigger] keys@[j])@ != k@,
        decreases keys@.len() - i,
    {
        if keys[i] == *k {
            return true;
        }
        i = i + 1;
    }
    false
}

/// Whether `s` begins with `p`.
pub open spec fn starts_with(s: Seq<char>, p: Seq<char>) -> bool {
    p.len() <= s.len() && s.take(p.len() as int) == p
}

/// The name the settings panel shows for a key: a few keys get a short
/// spoken name, letter and digit keys lose their `Key`/`Digit` prefix, and
/// every other key shows its own name.
pub open spec fn key_label(k: Seq<char>) -> Seq<char> {
    if k == "Space"@ {
        "Space"@
    } else if k == "ShiftLeft"@ {
        "L Shift"@
    } else if k == "ShiftRight"@ {
        "R Shift"@
    } else if k == "ControlLeft"@ {
        "L Ctrl"@
    } else if k == "ControlRight"@ {
        "R Ctrl"@
    } else if k == "AltLeft"@ {
        "L Alt"@
    } else if k == "ArrowUp"@ {
        "Up"@
    } else if k == "ArrowDown"@ {
        "Down"@
    } else if k == "ArrowLeft"@ {
        "Left"@
    } else if k == "ArrowRight"@ {
        "Right"@
    } else if starts_with(k, "Key"@) {
        k.skip(3)
    } else if starts_with(k, "Digit"@) {
        k.skip(5)
    } else {
        k
    }
}

/// Letter and digit keys show what follows their `Key` or `Digit` prefix:
/// `KeyW` shows `W`, `Digit4` shows `4`, for every such key.
pub proof fn law_letter_and_digit_keys_drop_prefix(c: Seq<char>)
    ensures
        key_label("Key"@ + c) == c,
        key_label("Digit"@ + c) == c,
{
    reveal_strlit("Key");
    reveal_strlit("Digit");
    reveal_strlit("Space");
    reveal_strlit("ShiftLeft");
    reveal_strlit("ShiftRight");
    reveal_strlit("ControlLeft");
    reveal_strlit("ControlRight");
    reveal_strlit("AltLeft");
    reveal_strlit("ArrowUp");
    reveal_strlit("ArrowDown");
    reveal_strlit("ArrowLeft");
    reveal_strlit("ArrowRight");
    let k = "Key"@ + c;
    let d = "Digit"@ + c;
    assert(k[0] == 'K');
    assert(d[0] == 'D');
    assert(k != "Space"@ && k != "ShiftLeft"@ && k != "ShiftRight"@ && k != "ControlLeft"@);
    assert(k != "ControlRight"@ && k != "AltLeft"@ && k != "ArrowUp"@ && k != "ArrowDown"@);
    assert(k != "ArrowLeft"@ && k != "ArrowRight"@);
    assert(d != "Space"@ && d != "ShiftLeft"@ && d != "ShiftRight"@ && d != "ControlLeft"@);
    assert(d != "ControlRight"@ && d != "AltLeft"@ && d != "ArrowUp"@ && d != "ArrowDown"@);
    assert(d != "ArrowLeft"@ && d != "ArrowRight"@);
    assert(k.take(3) =~= "Key"@);
    assert(k.skip(3) =~= c);
    assert(d.take(5) =~= "Digit"@);
    assert(d.take(3) != "Key"@) by {
        assert(d.take(3)[0] == 'D');
    }
    assert(d.skip(5) =~= c);
}

/// Whether `s` begins with `p`.
fn has_prefix(s: &str, p: &str) -> (r: bool)
    ensures
        r == starts_with(s@, p@),
{
    let n = s.unicode_len();
    let m = p.unicode_len();
    if m > n {
        return false;
    }
    let head = s.substring_char(0, m);
    same_text(head, p)
}

/// The name shown for key `k` (see [`key_label`]).
pub fn key_name(k: &str) -> (r: String)
    ensures
        r@ == key_label(k@),
{
    if same_text(k, "Space") {
        String::from_str("Space")
    } else if same_text(k, "ShiftLeft") {
        String::from_str("L Shift")
    } else if same_text(k, "ShiftRight") {
        String::from_str("R Shift")
    } else if same_text(k, "ControlLeft") {
        String::from_str("L Ctrl")
    } else if same_text(k, "ControlRight") {
        String::from_str("R Ctrl")
    } else if same_text(k, "AltLeft") {
        String::from_str("L Alt")
    } else if same_text(k, "ArrowUp") {
        String::from_str("Up")
    } else if same_text(k, "ArrowDown") {
        String::from_str("Down")
    } else if same_text(k, "ArrowLeft") {
        String::from_str("Left")
    } else if same_text(k, "ArrowRight") {
        String::from_str("Right")
    } else if has_prefix(k, "Key") {
        proof {
            reveal_strlit("Key");
        }
        String::from_str(k.substring_char(3, k.unicode_len()))
    } else if has_prefix(k, "Digit") {
        proof {
            reveal_strlit("Digit");
        }
        String::from_str(k.substring_char(5, k.unicode_len()))
    } else {
        String::from_str(k)
    }
}

} // verus!
