//! The layout of the classic periodic table: which element stands in which cell.
//!
//! The grid has nine rows of eighteen columns. Rows 0 to 6 are the periods,
//! with the groups as columns; rows 7 and 8 hold the lanthanides and the
//! actinides, which leave a gap in column 2 of periods 6 and 7.

use vstd::prelude::*;
use crate::dataset::is_atomic_number;

verus! {

/// Number of rows of the grid.
pub const GRID_ROWS: usize = 9;

/// Number of columns of the grid.
pub const GRID_COLUMNS: usize = 18;

/// The atomic number of the element in the cell at `row` and `col`, or `None`
/// where the cell is empty or lies outside the grid.
pub open spec fn grid_at(row: int, col: int) -> Option<int> {
    if !(0 <= row < GRID_ROWS && 0 <= col < GRID_COLUMNS) {
        None
    } else if row == 0 {
        if col == 0 {
            Some(1)
        } else if col == 17 {
            Some(2)
        } else {
            None
        }
    } else if row == 1 {
        if col <= 1 {
            Some(3 + col)
        } else if col >= 12 {
            Some(5 + (col - 12))
        } else {
            None
        }
    } else if row == 2 {
        if col <= 1 {
            Some(11 + col)
        } else if col >= 12 {
            Some(13 + (col - 12))
        } else {
            None
        }
    } else if row == 3 {
        Some(19 + col)
    } else if row == 4 {
        Some(37 + col)
    } else if row == 5 {
        if col <= 1 {
            Some(55 + col)
        } else if col >= 3 {
            Some(72 + (col - 3))
        } else {
            None
        }
    } else if row == 6 {
        if col <= 1 {
            Some(87 + col)
        } else if col >= 3 {
            Some(104 + (col - 3))
        } else {
            None
        }
    } else if row == 7 {
        if 2 <= col <= 16 {
            Some(57 + (col - 2))
        } else {
            None
        }
    } else {
        if 2 <= col <= 16 {
            Some(89 + (col - 2))
        } else {
            None
        }
    }
}

/// The row and column of the cell that holds the element with atomic number
/// `z`.
pub open spec fn position_of(z: int) -> (int, int)
    recommends
        is_atomic_number(z),
{
    if z == 1 {
        (0, 0)
    } else if z == 2 {
        (0, 17)
    } else if z <= 4 {
        (1, z - 3)
    } else if z <= 10 {
        (1, z - 5 + 12)
    } else if z <= 12 {
        (2, z - 11)
    } else if z <= 18 {
        (2, z - 13 + 12)
    } else if z <= 36 {
        (3, z - 19)
    } else if z <= 54 {
        (4, z - 37)
    } else if z <= 56 {
        (5, z - 55)
    } else if z <= 71 {
        (7, z - 57 + 2)
    } else if z <= 86 {
        (5, z - 72 + 3)
    } else if z <= 88 {
        (6, z - 87)
    } else if z <= 103 {
        (8, z - 89 + 2)
    } else {
        (6, z - 104 + 3)
    }
}

/// Returns the atomic number of the element in the cell at `row` and `col`,
/// or `None` where the cell is empty or lies outside the grid.
pub fn cell(row: usize, col: usize) -> (found: Option<usize>)
    ensures
        match grid_at(row as int, col as int) {
            Some(z) => found == Some(z as usize) && is_atomic_number(z),
            None => found.is_none(),
        },
{
    if row >= GRID_ROWS || col >= GRID_COLUMNS {
        None
    } else if row == 0 {
        if col == 0 {
            Some(1)
        } else if col == 17 {
            Some(2)
        } else {
            None
        }
    } else if row == 1 {
        if col <= 1 {
            Some(3 + col)
        } else if col >= 12 {
            Some(5 + (col - 12))
        } else {
            None
        }
    } else if row == 2 {
        if col <= 1 {
            Some(11 + col)
        } else if col >= 12 {
            Some(13 + (col - 12))
        } else {
            None
        }
    } else if row == 3 {
        Some(19 + col)
    } else if row == 4 {
        Some(37 + col)
    } else if row == 5 {
        if col <= 1 {
            Some(55 + col)
        } else if col >= 3 {
            Some(72 + (col - 3))
        } else {
            None
        }
    } else if row == 6 {
        if col <= 1 {
            Some(87 + col)
        } else if col >= 3 {
            Some(104 + (col - 3))
        } else {
            None
        }
    } else if row == 7 {
        if 2 <= col && col <= 16 {
            Some(57 + (col - 2))
        } else {
            None
        }
    } else {
        if 2 <= col && col <= 16 {
            Some(89 + (col - 2))
        } else {
            None
        }
    }
}

/// Every occupied cell of the grid holds an element of the dataset.
pub proof fn lemma_grid_holds_elements(row: int, col: int)
    requires
        grid_at(row, col).is_some(),
    ensures
        is_atomic_number(grid_at(row, col).unwrap()),
        0 <= row < GRID_ROWS,
        0 <= col < GRID_COLUMNS,
{
}

/// Every element of the dataset stands in the grid, in the cell that
/// `position_of` gives.
pub proof fn lemma_element_is_in_grid(z: int)
    requires
        is_atomic_number(z),
    ensures
        grid_at(position_of(z).0, position_of(z).1) == Some(z),
{
}

/// No element stands in two cells: a cell that holds `z` is the cell that
/// `position_of` gives.
pub proof fn lemma_element_has_one_cell(row: int, col: int, z: int)
    requires
        grid_at(row, col) == Some(z),
    ensures
        position_of(z) == (row, col),
{
}

} // verus!
