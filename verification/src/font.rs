//! Letters made of five columns and seven rows of cells.
use vstd::prelude::*;

verus! {

/// The weight of a column in the bits of a row: the leftmost column has the highest one.
pub open spec fn column_weight(column: int) -> int {
    if column == 0 {
        16
    } else if column == 1 {
        8
    } else if column == 2 {
        4
    } else if column == 3 {
        2
    } else {
        1
    }
}

/// Whether a cell of a letter is lit. The cells are counted from the upper left one, row by row.
pub open spec fn cell_lit(pattern: [u8; 7], cell: int) -> bool {
    pattern@[cell / 5] as int / column_weight(cell % 5) % 2 == 1
}

/// A row of a letter is read from the left: its number is the sum of what its lit cells are worth,
/// 16 for the first one and half as much for each that follows.
pub proof fn law_row_is_the_sum_of_its_lit_cells(pattern: [u8; 7], row: int)
    requires
        0 <= row < 7,
        pattern@[row] < 32,
    ensures
        pattern@[row] == (if cell_lit(pattern, 5 * row) {
            16int
        } else {
            0
        }) + (if cell_lit(pattern, 5 * row + 1) {
            8int
        } else {
            0
        }) + (if cell_lit(pattern, 5 * row + 2) {
            4int
        } else {
            0
        }) + (if cell_lit(pattern, 5 * row + 3) {
            2int
        } else {
            0
        }) + (if cell_lit(pattern, 5 * row + 4) {
            1int
        } else {
            0
        }),
{
}

/// Tells whether a cell of a letter is lit.
pub fn is_cell_lit(pattern: &[u8; 7], cell: u32) -> (r: bool)
    requires
        cell < 35,
    ensures
        r == cell_lit(*pattern, cell as int),
{
    let bits = pattern[(cell / 5) as usize];
    let column = cell % 5;
    if column == 0 {
        bits / 16 % 2 == 1
    } else if column == 1 {
        bits / 8 % 2 == 1
    } else if column == 2 {
        bits / 4 % 2 == 1
    } else if column == 3 {
        bits / 2 % 2 == 1
    } else {
        bits % 2 == 1
    }
}

} // verus!
