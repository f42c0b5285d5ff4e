//! Game rules of a small frontier survival game: the item catalogue, the
//! inventory and its click-to-move stacking, key bindings and menus, and the
//! decisions behind talking to villagers. Rendering, input polling, timing and
//! the network call to the language model live outside this crate.

pub mod text;
pub mod items;
pub mod keybinds;
pub mod inventory;
pub mod menus;
pub mod dialogue;
pub mod movement;
