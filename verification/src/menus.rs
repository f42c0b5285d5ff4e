//! The menu state: the inventory panel, the settings panel, and a pending
//! key rebind, with the rules for opening, closing and rebinding.

use vstd::prelude::*;
use vstd::string::*;
use crate::keybinds::{Action, Keybinds, key_label, key_name, keys_contain, contains_key_name};

verus! {

/// Which panels are open and which action, if any, waits for a new key.
#[derive(Clone, Copy, Debug)]
pub struct Menus {
    pub inventory_open: bool,
    pub settings_open: bool,
    pub rebinding: Option<Action>,
}

/// The menu state after Escape: a pending rebind is cancelled first, else
/// the settings panel closes, else the inventory panel closes.
pub open spec fn escaped(m: Menus) -> Menus {
    if m.rebinding is Some {
        Menus { rebinding: None, ..m }
    } else if m.settings_open {
        Menus { settings_open: false, ..m }
    } else if m.inventory_open {
        Menus { inventory_open: false, ..m }
    } else {
        m
    }
}

/// The first key in `keys` that is not Escape, if any.
pub open spec fn first_non_escape(keys: Seq<String>) -> Option<Seq<char>>
    decreases keys.len(),
{
    if keys.len() == 0 {
        None
    } else if keys[0]@ != "Escape"@ {
        Some(keys[0]@)
    } else {
        first_non_escape(keys.drop_first())
    }
}

/// A rebind never binds Escape: the key it takes is one of the keys just
/// pressed, and it is not Escape.
pub proof fn law_captured_key_is_not_escape(keys: Seq<String>)
    ensures
        first_non_escape(keys) matches Some(k) ==> k != "Escape"@ && keys_contain(keys, k),
    decreases keys.len(),
{
    if keys.len() > 0 && keys[0]@ == "Escape"@ {
        let rest = keys.drop_first();
        law_captured_key_is_not_escape(rest);
        if let Some(k) = first_non_escape(rest) {
            let i = choose|i: int| 0 <= i < rest.len() && (#[trigger] rest[i])@ == k;
            assert(keys[i + 1] == rest[i]);
        }
    } else if keys.len() > 0 {
        assert(keys[0]@ == keys[0]@);
    }
}

/// The key a rebind takes is the first key pressed that is not Escape, in
/// press order, whatever key that is; only when every key pressed is Escape
/// is there none.
pub proof fn law_rebind_takes_first_non_escape(keys: Seq<String>, j: int)
    requires
        0 <= j < keys.len(),
        keys[j]@ != "Escape"@,
        forall|i: int| 0 <= i < j ==> (#[trigger] keys[i])@ == "Escape"@,
    ensures
        first_non_escape(keys) == Some(keys[j]@),
    decreases j,
{
    if j > 0 {
        let rest = keys.drop_first();
        assert forall|i: int| 0 <= i < j - 1 implies (#[trigger] rest[i])@ == "Escape"@ by {
            assert(rest[i] == keys[i + 1]);
        }
        assert(keys[0]@ == "Escape"@);
        law_rebind_takes_first_non_escape(rest, j - 1);
    }
}

/// With only Escape pressed (or nothing), a rebind takes no key.
pub proof fn law_rebind_ignores_escape_only(keys: Seq<String>)
    requires
        forall|i: int| 0 <= i < keys.len() ==> (#[trigger] keys[i])@ == "Escape"@,
    ensures
        first_non_escape(keys) is None,
    decreases keys.len(),
{
    if keys.len() > 0 {
        let rest = keys.drop_first();
        assert forall|i: int| 0 <= i < rest.len() implies (#[trigger] rest[i])@ == "Escape"@ by {
            assert(rest[i] == keys[i + 1]);
        }
        assert(keys[0]@ == "Escape"@);
        law_rebind_ignores_escape_only(rest);
    }
}

/// Pressing Escape enough times closes everything: three presses leave no
/// panel open and no rebind pending, whatever the state was.
pub proof fn law_escape_closes_everything(m: Menus)
    ensures
        !escaped(escaped(escaped(m))).inventory_open,
        !escaped(escaped(escaped(m))).settings_open,
        escaped(escaped(escaped(m))).rebinding is None,
{
}

/// Escape closes the innermost thing first: a pending rebind before the
/// settings panel, the settings panel before the inventory panel; whatever
/// it does not close stays as it was.
pub proof fn law_escape_closes_innermost_first(m: Menus)
    ensures
        m.rebinding is Some ==> escaped(m).rebinding is None && escaped(m).settings_open == m.settings_open
            && escaped(m).inventory_open == m.inventory_open,
        m.rebinding is None && m.settings_open ==> !escaped(m).settings_open && escaped(m).inventory_open
            == m.inventory_open && escaped(m).rebinding is None,
        m.rebinding is None && !m.settings_open ==> !escaped(m).inventory_open && !escaped(m).settings_open
            && escaped(m).rebinding is None,
{
}

/// Escape never opens anything, and closes at most one thing.
pub proof fn law_escape_closes_one_layer(m: Menus)
    ensures
        escaped(m).inventory_open ==> m.inventory_open,
        escaped(m).settings_open ==> m.settings_open,
        escaped(m).rebinding is Some ==> escaped(m).rebinding == m.rebinding,
        (m.inventory_open && !escaped(m).inventory_open) as int + (m.settings_open && !escaped(m).settings_open) as int
            + (m.rebinding is Some && escaped(m).rebinding is None) as int <= 1,
{
}

impl Default for Menus {
    /// Everything closed, no rebind pending.
    fn default() -> (r: Menus)
        ensures
            !r.inventory_open && !r.settings_open && r.rebinding is None,
    {
        Menus { inventory_open: false, settings_open: false, rebinding: None }
    }
}

impl Menus {
    /// Opens or closes the inventory panel when its key was just pressed,
    /// unless the settings panel is open or typing has the keyboard.
    pub fn toggle_inventory(&mut self, input_locked: bool, binds: &Keybinds, just_pressed: &Vec<String>)
        ensures
            final(self).settings_open == old(self).settings_open,
            final(self).rebinding == old(self).rebinding,
            final(self).inventory_open == if !old(self).settings_open && !input_locked && keys_contain(
                just_pressed@,
                binds@[Action::Inventory],
            ) {
                !old(self).inventory_open
            } else {
                old(self).inventory_open
            },
    {
        if self.settings_open || input_locked {
            return;
        }
        if binds.pressed(Action::Inventory, just_pressed) {
            self.inventory_open = !self.inventory_open;
        }
    }

    /// The settings button was clicked: the settings panel opens or closes.
    pub fn press_settings_button(&mut self)
        ensures
            *final(self) == (Menus { settings_open: !old(self).settings_open, ..*old(self) }),
    {
        self.settings_open = !self.settings_open;
    }

    /// A rebind button was clicked: `action` now waits for a new key.
    pub fn press_rebind_button(&mut self, action: Action)
        ensures
            *final(self) == (Menus { rebinding: Some(action), ..*old(self) }),
    {
        self.rebinding = Some(action);
    }

    /// While an action waits for a key, binds it to the first key just
    /// pressed that is not Escape and ends the wait.
    pub fn capture_rebind(&mut self, binds: &mut Keybinds, just_pressed: &Vec<String>)
        ensures
            final(self).inventory_open == old(self).inventory_open,
            final(self).settings_open == old(self).settings_open,
            match (old(self).rebinding, first_non_escape(just_pressed@)) {
                (Some(a), Some(k)) => final(self).rebinding is None && final(binds)@ == old(binds)@.insert(a, k),
                _ => final(self).rebinding == old(self).rebinding && final(binds)@ == old(binds)@,
            },
    {
        let a = match self.rebinding {
            Some(a) => a,
            None => return,
        };
        let escape = String::from_str("Escape");
        proof {
            reveal_strlit("Escape");
        }
        let mut i: usize = 0;
        assert(just_pressed@.skip(0) =~= just_pressed@);
        while i < just_pressed.len()
            invariant
                i <= just_pressed@.len(),
                *self == *old(self),
                binds@ == old(binds)@,
                old(self).rebinding == Some(a),
                escape@ == "Escape"@,
                first_non_escape(just_pressed@) == first_non_escape(just_pressed@.skip(i as int)),
                forall|j: int| 0 <= j < i ==> (#[trigger] just_pressed@[j])@ == "Escape"@,
            decreases just_pressed@.len() - i,
        {
            let ghost rest = just_pressed@.skip(i as int);
            assert(rest[0] == just_pressed@[i as int]);
            if just_pressed[i] != escape {
                binds.set(a, just_pressed[i].clone());
                self.rebinding = None;
                return;
            }
            assert(rest.drop_first() =~= just_pressed@.skip(i + 1));
            i = i + 1;
        }
        assert(just_pressed@.skip(i as int) =~= Seq::<String>::empty());
    }

    /// Escape was pressed or not; when it was, the state becomes
    /// [`escaped`] of the old state.
    pub fn escape(&mut self, just_pressed: &Vec<String>)
        ensures
            *final(self) == if keys_contain(just_pressed@, "Escape"@) {
                escaped(*old(self))
            } else {
                *old(self)
            },
    {
        let escape = String::from_str("Escape");
        if !contains_key_name(just_pressed, &escape) {
            return;
        }
        if self.rebinding.is_some() {
            self.rebinding = None;
        } else if self.settings_open {
            self.settings_open = false;
        } else if self.inventory_open {
            self.inventory_open = false;
        }
    }

    /// The text on the rebind button of `action`: a prompt while it waits for
    /// a key, otherwise the name of its key.
    pub fn rebind_label(&self, binds: &Keybinds, action: Action) -> (r: String)
        ensures
            r@ == if self.rebinding == Some(action) {
                "press…"@
            } else {
                key_label(binds@[action])
            },
    {
        match self.rebinding {
            Some(b) if b == action => String::from_str("press…"),
            _ => {
                let k = binds.get(action);
                key_name(k.as_str())
            },
        }
    }
}

} // verus!
