//! The loot board: a grid with one row per kind of item, navigated with a
//! focus that moves between slots.

use vstd::prelude::*;
use crate::loot::LootType;
use crate::player::PlayerInventory;

verus! {

/// Rows on the board: health potions, speed potions, guns, armors.
pub const GRID_ROWS: usize = 4;
/// Slots in each row.
pub const GRID_COLUMNS: usize = 4;

/// One slot of the board and the item shown in it.
#[derive(Clone, Copy, PartialEq, Eq, Debug, Structural)]
pub struct GridSlot {
    pub x: usize,
    pub y: usize,
    pub item: Option<u64>,
}

/// A key that moves the focus.
#[derive(Clone, Copy, PartialEq, Eq, Debug, Structural)]
pub enum Navigation {
    Up,
    Down,
    Left,
    Right,
}

/// The item that slot `(x, y)` shows: row 0 holds the health potions, row
/// 1 the speed potions, row 2 the guns, row 3 the armors, in order.
pub open spec fn slot_item_spec(inventory: PlayerInventory, x: usize, y: usize) -> Option<u64> {
    let row = if y == 0 {
        inventory.health_potions@
    } else if y == 1 {
        inventory.speed_potions@
    } else if y == 2 {
        inventory.guns@
    } else {
        inventory.armors@
    };
    if y < 4 && x < row.len() {
        Some(row[x as int])
    } else {
        None
    }
}

/// The item that slot `(x, y)` shows, if any.
pub fn slot_item(inventory: &PlayerInventory, x: usize, y: usize) -> (r: Option<u64>)
    ensures
        r == slot_item_spec(*inventory, x, y),
{
    let row = match y {
        0 => &inventory.health_potions,
        1 => &inventory.speed_potions,
        2 => &inventory.guns,
        3 => &inventory.armors,
        _ => {
            return None;
        },
    };
    if x < row.len() {
        Some(row[x])
    } else {
        None
    }
}

/// The kind of loot shown in row `y`: potions in the first two rows, guns in
/// the third, armors below.
pub open spec fn row_loot_type_spec(y: usize) -> LootType {
    if y < 2 {
        LootType::Potion
    } else if y == 2 {
        LootType::Gun
    } else {
        LootType::Armor
    }
}

/// The kind of loot shown in row `y`, as it is sold from the board.
pub fn row_loot_type(y: usize) -> (r: LootType)
    ensures
        r == row_loot_type_spec(y),
{
    if y < 2 {
        LootType::Potion
    } else if y == 2 {
        LootType::Gun
    } else {
        LootType::Armor
    }
}

/// The slot the focus moves to from `(x, y)`: the neighbour in the
/// direction pressed when it lies on the board of `columns` by `rows`
/// slots, else the focus stays.
pub open spec fn navigate_spec(x: usize, y: usize, dir: Navigation, columns: usize, rows: usize) -> (usize, usize) {
    match dir {
        Navigation::Up => if y > 0 {
            (x, (y - 1) as usize)
        } else {
            (x, y)
        },
        Navigation::Down => if y + 1 < rows {
            (x, (y + 1) as usize)
        } else {
            (x, y)
        },
        Navigation::Left => if x > 0 {
            ((x - 1) as usize, y)
        } else {
            (x, y)
        },
        Navigation::Right => if x + 1 < columns {
            ((x + 1) as usize, y)
        } else {
            (x, y)
        },
    }
}

/// Moves the focus from `(x, y)` on a board of `columns` by `rows` slots.
pub fn navigate_focus(x: usize, y: usize, dir: Navigation, columns: usize, rows: usize) -> (r: (
    usize,
    usize,
))
    requires
        x < columns,
        y < rows,
    ensures
        r == navigate_spec(x, y, dir, columns, rows),
        r.0 < columns && r.1 < rows,
{
    match dir {
        Navigation::Up => {
            if y > 0 {
                (x, y - 1)
            } else {
                (x, y)
            }
        },
        Navigation::Down => {
            if y + 1 < rows {
                (x, y + 1)
            } else {
                (x, y)
            }
        },
        Navigation::Left => {
            if x > 0 {
                (x - 1, y)
            } else {
                (x, y)
            }
        },
        Navigation::Right => {
            if x + 1 < columns {
                (x + 1, y)
            } else {
                (x, y)
            }
        },
    }
}

/// Moving the focus one way and then back returns it to where it was,
/// whenever the first move was not blocked by the edge of the board.
pub proof fn lemma_navigation_reversible(x: usize, y: usize, columns: usize, rows: usize)
    requires
        x < columns,
        y < rows,
    ensures
        navigate_spec(x, y, Navigation::Up, columns, rows) != (x, y) ==> {
            let p = navigate_spec(x, y, Navigation::Up, columns, rows);
            navigate_spec(p.0, p.1, Navigation::Down, columns, rows) == (x, y)
        },
        navigate_spec(x, y, Navigation::Down, columns, rows) != (x, y) ==> {
            let p = navigate_spec(x, y, Navigation::Down, columns, rows);
            navigate_spec(p.0, p.1, Navigation::Up, columns, rows) == (x, y)
        },
        navigate_spec(x, y, Navigation::Left, columns, rows) != (x, y) ==> {
            let p = navigate_spec(x, y, Navigation::Left, columns, rows);
            navigate_spec(p.0, p.1, Navigation::Right, columns, rows) == (x, y)
        },
        navigate_spec(x, y, Navigation::Right, columns, rows) != (x, y) ==> {
            let p = navigate_spec(x, y, Navigation::Right, columns, rows);
            navigate_spec(p.0, p.1, Navigation::Left, columns, rows) == (x, y)
        },
{
}

} // verus!
