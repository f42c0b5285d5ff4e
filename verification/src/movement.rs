//! What the held keys ask of the player's body: the direction to move in,
//! the gait, and whether to start a dodge roll; and where the ground markers
//! of the world grid stand. Speeds, timers and positions are the caller's.

use vstd::prelude::*;
use crate::keybinds::{Action, Keybinds, keys_contain};

verus! {

/// How fast the player moves when moving.
#[derive(Clone, Copy, Debug, PartialEq, Eq, Structural)]
pub enum Gait {
    Sprint,
    Sneak,
    Walk,
}

/// Whether the key of action `a` is among `keys`.
pub open spec fn held(binds: Map<Action, Seq<char>>, keys: Seq<String>, a: Action) -> bool {
    keys_contain(keys, binds[a])
}

/// One unit for a held key.
pub open spec fn unit(b: bool) -> int {
    if b { 1 } else { 0 }
}

/// The direction the movement keys ask for, one unit per axis: right and up
/// are positive, opposite keys cancel.
pub fn move_direction(binds: &Keybinds, pressed: &Vec<String>) -> (r: (i32, i32))
    ensures
        r.0 == unit(held(binds@, pressed@, Action::Right)) - unit(held(binds@, pressed@, Action::Left)),
        r.1 == unit(held(binds@, pressed@, Action::Up)) - unit(held(binds@, pressed@, Action::Down)),
{
    let mut x: i32 = 0;
    let mut y: i32 = 0;
    if binds.pressed(Action::Up, pressed) {
        y = y + 1;
    }
    if binds.pressed(Action::Down, pressed) {
        y = y - 1;
    }
    if binds.pressed(Action::Left, pressed) {
        x = x - 1;
    }
    if binds.pressed(Action::Right, pressed) {
        x = x + 1;
    }
    (x, y)
}

/// The gait the keys ask for: sprinting wins over sneaking, walking otherwise.
pub fn gait(binds: &Keybinds, pressed: &Vec<String>) -> (r: Gait)
    ensures
        r == if held(binds@, pressed@, Action::Sprint) {
            Gait::Sprint
        } else if held(binds@, pressed@, Action::Sneak) {
            Gait::Sneak
        } else {
            Gait::Walk
        },
{
    if binds.pressed(Action::Sprint, pressed) {
        Gait::Sprint
    } else if binds.pressed(Action::Sneak, pressed) {
        Gait::Sneak
    } else {
        Gait::Walk
    }
}

/// Whether the player may move at all: not while a panel is open or typing
/// has the keyboard.
pub fn movement_allowed(inventory_open: bool, settings_open: bool, input_locked: bool) -> (r: bool)
    ensures
        r == !(inventory_open || settings_open || input_locked),
{
    !(inventory_open || settings_open || input_locked)
}

/// The direction of a dodge roll started while moving in `dir`: the
/// movement direction, or straight down when standing still.
pub fn dodge_direction(dir: (i32, i32)) -> (r: (i32, i32))
    ensures
        r == if dir == (0i32, 0i32) { (0i32, -1i32) } else { dir },
{
    if dir.0 == 0 && dir.1 == 0 {
        (0, -1)
    } else {
        dir
    }
}

/// The spacing of the ground markers, in pixels.
pub const GRID_SPACING: i32 = 120;

/// How many grid steps the markers reach from the origin on each axis.
pub const GRID_REACH: i32 = 5;

/// Grid cell `(x, y)` carries a marker: within reach on both axes, except
/// the origin where the player starts.
pub open spec fn marker_cell(x: int, y: int) -> bool {
    -GRID_REACH <= x <= GRID_REACH && -GRID_REACH <= y <= GRID_REACH && !(x == 0 && y == 0)
}

/// Cell `a` comes before cell `b`: by column, then by row.
pub open spec fn cell_before(a: (i32, i32), b: (i32, i32)) -> bool {
    a.0 < b.0 || (a.0 == b.0 && a.1 < b.1)
}

/// The grid cells that carry a ground marker, column by column from the
/// left, each column from the bottom: every marker cell exactly once.
pub fn marker_cells() -> (r: Vec<(i32, i32)>)
    ensures
        forall|k: int| 0 <= k < r@.len() ==> marker_cell((#[trigger] r@[k]).0 as int, r@[k].1 as int),
        forall|x: int, y: int|
            marker_cell(x, y) ==> exists|k: int| 0 <= k < r@.len() && #[trigger] r@[k] == (x as i32, y as i32),
        forall|j: int, k: int| 0 <= j < k < r@.len() ==> cell_before(#[trigger] r@[j], #[trigger] r@[k]),
{
    let mut cells: Vec<(i32, i32)> = Vec::new();
    let mut x: i32 = -GRID_REACH;
    while x <= GRID_REACH
        invariant
            -GRID_REACH <= x <= GRID_REACH + 1,
            forall|k: int| 0 <= k < cells@.len() ==> marker_cell((#[trigger] cells@[k]).0 as int, cells@[k].1 as int),
            forall|k: int| 0 <= k < cells@.len() ==> (#[trigger] cells@[k]).0 < x,
            forall|a: int, b: int|
                marker_cell(a, b) && a < x ==> exists|k: int| 0 <= k < cells@.len() && #[trigger] cells@[k] == (a as i32, b as i32),
            forall|j: int, k: int| 0 <= j < k < cells@.len() ==> cell_before(#[trigger] cells@[j], #[trigger] cells@[k]),
        decreases GRID_REACH + 1 - x,
    {
        let ghost start = cells@.len();
        let mut y: i32 = -GRID_REACH;
        while y <= GRID_REACH
            invariant
                -GRID_REACH <= x <= GRID_REACH,
                -GRID_REACH <= y <= GRID_REACH + 1,
                start <= cells@.len(),
                forall|k: int| 0 <= k < cells@.len() ==> marker_cell((#[trigger] cells@[k]).0 as int, cells@[k].1 as int),
                forall|k: int| 0 <= k < start ==> (#[trigger] cells@[k]).0 < x,
                forall|k: int| start <= k < cells@.len() ==> (#[trigger] cells@[k]).0 == x && cells@[k].1 < y,
                forall|a: int, b: int|
                    marker_cell(a, b) && (a < x || (a == x && b < y)) ==> exists|k: int|
                        0 <= k < cells@.len() && #[trigger] cells@[k] == (a as i32, b as i32),
                forall|j: int, k: int| 0 <= j < k < cells@.len() ==> cell_before(#[trigger] cells@[j], #[trigger] cells@[k]),
            decreases GRID_REACH + 1 - y,
        {
            let ghost before = cells@;
            if !(x == 0 && y == 0) {
                cells.push((x, y));
                assert(cells@[cells@.len() - 1] == (x, y));
            }
            proof {
                assert forall|a: int, b: int|
                    marker_cell(a, b) && (a < x || (a == x && b < y + 1)) implies exists|k: int|
                        0 <= k < cells@.len() && #[trigger] cells@[k] == (a as i32, b as i32) by {
                    if a == x && b == y {
                        assert(cells@[cells@.len() - 1] == (a as i32, b as i32));
                    } else {
                        let k = choose|k: int| 0 <= k < before.len() && #[trigger] before[k] == (a as i32, b as i32);
                        assert(cells@[k] == before[k]);
                    }
                }
            }
            y = y + 1;
        }
        x = x + 1;
    }
    cells
}

} // verus!
