# alive

The game rules of a small frontier survival game, verified with Verus.

- `src/items.rs`: the item catalogue (amounts in tenths) and lookup by id.
- `src/inventory.rs`: inventory slots, click-to-move stacking with its laws
  (items are conserved, stacks stay within their limits and never empty,
  a plain move is undone by a second click), hotbar selection, slot labels.
- `src/keybinds.rs`: actions, the keybinds table, the rebindable key map,
  and key names as the settings panel shows them.
- `src/menus.rs`: inventory and settings panels, rebinding, Escape.
- `src/dialogue.rs`: villagers' character sheets, opening and closing a
  conversation, the request sent to the language model and the line shown
  for its answer.
- `src/movement.rs`: movement direction, gait and dodge direction from the
  held keys; the ground-marker grid.
- `src/text.rs`: text comparison, trimming and decimal formatting.

`app/` is the game itself on Bevy: rendering, input polling, the NPC
needs-and-wander simulation and the player's motion (floating point), and
the HTTP call to the local model.
