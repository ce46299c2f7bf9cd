//! Drawing on the surface of the editor window without regard to its edges.
use crate::canvas::{lemma_painted_both, lemma_painted_nothing, lemma_painted_same, painted, Frame};
use crate::font::{cell_lit, is_cell_lit};
use crate::math::min_int;
use crate::overlay::draw::chip_letter;
use crate::pixels::lemma_row_position;
use crate::text::{ascii_upper, chars_of, to_ascii_upper};
use vstd::prelude::*;

verus! {

/// A buffer seen as a single column, so that the row of a pixel is its index.
pub open spec fn index_frame(len: nat) -> Frame {
    Frame { width: 1, columns: 1, rows: len as int }
}

/// A buffer with some indices set to a colour.
pub open spec fn filled(pixels: Seq<u32>, color: u32, hit: spec_fn(int, int) -> bool) -> Seq<u32> {
    painted(pixels, index_frame(pixels.len()), color, hit)
}

// ---------------------------------------------------------------------------------------------
// Rectangles
// ---------------------------------------------------------------------------------------------

/// The end of an extent, no further than the largest coordinate.
pub open spec fn extent_end(start: u32, length: u32) -> int {
    min_int(start + length, u32::MAX as int)
}

/// Whether an index lies between two columns of a row; columns beyond the width lie in the rows
/// below.
pub open spec fn in_row(width: u32, left: int, right: int, row: int, index: int) -> bool {
    row * width + left <= index < row * width + right
}

/// The indices of a rectangle.
pub open spec fn rect_indices(width: u32, left: int, right: int, top: int, bottom: int) -> spec_fn(
    int,
    int,
) -> bool {
    |column: int, index: int|
        exists|row: int| top <= row < bottom && #[trigger] in_row(width, left, right, row, index)
}

/// The rows of a rectangle above a row, and that row up to a column.
spec fn rect_indices_part(
    width: u32,
    left: int,
    right: int,
    top: int,
    row: int,
    column: int,
) -> spec_fn(int, int) -> bool {
    |c: int, index: int|
        rect_indices(width, left, right, top, row)(c, index) || in_row(
            width,
            left,
            column,
            row,
            index,
        )
}

/// A buffer with a rectangle drawn on it.
pub open spec fn rect_drawn(
    pixels: Seq<u32>,
    width: u32,
    x: u32,
    y: u32,
    rect_width: u32,
    rect_height: u32,
    color: u32,
) -> Seq<u32> {
    filled(
        pixels,
        color,
        rect_indices(
            width,
            x as int,
            extent_end(x, rect_width),
            y as int,
            extent_end(y, rect_height),
        ),
    )
}

/// Filling a rectangle that lies between the edges of the rows gives its colour to every pixel in
/// it and keeps the others.
pub proof fn law_rect_fills_its_rows_and_columns(
    pixels: Seq<u32>,
    width: u32,
    x: u32,
    y: u32,
    rect_width: u32,
    rect_height: u32,
    color: u32,
    px: int,
    py: int,
)
    requires
        x + rect_width <= width,
        y + rect_height <= u32::MAX,
        0 <= px < width,
        0 <= py,
        py * width + px < pixels.len(),
    ensures
        rect_drawn(pixels, width, x, y, rect_width, rect_height, color).len() == pixels.len(),
        x <= px < x + rect_width && y <= py < y + rect_height ==> rect_drawn(
            pixels,
            width,
            x,
            y,
            rect_width,
            rect_height,
            color,
        )[py * width + px] == color,
        !(x <= px < x + rect_width && y <= py < y + rect_height) ==> rect_drawn(
            pixels,
            width,
            x,
            y,
            rect_width,
            rect_height,
            color,
        )[py * width + px] == pixels[py * width + px],
{
    let index = py * width + px;
    let hit = rect_indices(width, x as int, x + rect_width, y as int, y + rect_height);
    assert(0 <= py * width) by (nonlinear_arith)
        requires
            0 <= py,
            0 <= width,
    ;
    if x <= px < x + rect_width && y <= py < y + rect_height {
        assert(in_row(width, x as int, x + rect_width, py, index));
    } else if hit(0, index) {
        let row = choose|row: int|
            y <= row < y + rect_height && #[trigger] in_row(
                width,
                x as int,
                x + rect_width,
                row,
                index,
            );
        let column = index - row * width;
        lemma_row_position(py, width as int, px);
        lemma_row_position(row, width as int, column);
    }
}

/// Whether every index of a rectangle lies in a buffer of the given length.
pub open spec fn rect_fits(
    len: nat,
    width: u32,
    x: u32,
    y: u32,
    rect_width: u32,
    rect_height: u32,
) -> bool {
    ||| extent_end(x, rect_width) <= x
    ||| extent_end(y, rect_height) <= y
    ||| (extent_end(y, rect_height) - 1) * width + extent_end(x, rect_width) <= len
}

/// Tells whether every index of a rectangle lies in a buffer of the given length.
pub fn rect_fits_in(
    len: usize,
    width: u32,
    x: u32,
    y: u32,
    rect_width: u32,
    rect_height: u32,
) -> (r: bool)
    ensures
        r == rect_fits(len as nat, width, x, y, rect_width, rect_height),
{
    let right: u32 = x.saturating_add(rect_width);
    let bottom: u32 = y.saturating_add(rect_height);
    if right <= x || bottom <= y {
        return true;
    }
    assert(0 <= (bottom - 1) * width <= 0x1_0000_0000 * 0x1_0000_0000) by (nonlinear_arith)
        requires
            0 <= bottom - 1 <= 0x1_0000_0000,
            0 <= width <= 0x1_0000_0000,
    ;
    (bottom - 1) as u128 * width as u128 + right as u128 <= len as u128
}

/// The places of a rectangle that fits lie in the buffer.
proof fn lemma_row_fits(row: int, bottom: int, width: int, right: int, len: int)
    requires
        0 <= row < bottom,
        0 <= width,
        (bottom - 1) * width + right <= len,
    ensures
        0 <= row * width,
        row * width + right <= len,
{
    assert(0 <= row * width <= (bottom - 1) * width) by (nonlinear_arith)
        requires
            0 <= row <= bottom - 1,
            0 <= width,
    ;
}

/// Draws a rectangle. It is not cut off: columns beyond the width spill into the rows below.
pub fn draw_rect(
    buffer: &mut [u32],
    width: u32,
    x: u32,
    y: u32,
    rect_width: u32,
    rect_height: u32,
    color: u32,
)
    requires
        rect_fits(old(buffer)@.len(), width, x, y, rect_width, rect_height),
    ensures
        final(buffer)@ == rect_drawn(
            old(buffer)@,
            width,
            x,
            y,
            rect_width,
            rect_height,
            color,
        ),
{
    let right: u32 = x.saturating_add(rect_width);
    let bottom: u32 = y.saturating_add(rect_height);
    let ghost before = buffer@;
    let ghost frame = index_frame(before.len());
    let ghost (l, r, t, b) = (x as int, right as int, y as int, bottom as int);
    let ghost whole = rect_indices(width, l, r, t, b);
    assert(r == extent_end(x, rect_width) && b == extent_end(y, rect_height));
    if right <= x || bottom <= y {
        proof {
            lemma_painted_nothing(before, frame, color, whole);
        }
        return ;
    }
    let len: usize = buffer.len();
    proof {
        lemma_painted_nothing(before, frame, color, rect_indices(width, l, r, t, t));
    }
    let mut row: u32 = y;
    while row < bottom
        invariant
            l == x && r == right && t == y && b == bottom,
            x < right,
            y <= row <= bottom,
            len == before.len(),
            buffer@.len() == len,
            frame == index_frame(before.len()),
            (bottom - 1) * width + right <= len,
            buffer@ == painted(before, frame, color, rect_indices(width, l, r, t, row as int)),
        decreases bottom - row,
    {
        proof {
            lemma_row_fits(row as int, b, width as int, r, len as int);
            lemma_painted_same(
                before,
                frame,
                color,
                rect_indices(width, l, r, t, row as int),
                rect_indices_part(width, l, r, t, row as int, l),
            );
        }
        let start: usize = row as usize * width as usize;
        let mut column: u32 = x;
        while column < right
            invariant
                l == x && r == right && t == y && b == bottom,
                x <= column <= right,
                y <= row < bottom,
                len == before.len(),
                buffer@.len() == len,
                frame == index_frame(before.len()),
                start == row * width,
                start + right <= len,
                buffer@ == painted(
                    before,
                    frame,
                    color,
                    rect_indices_part(width, l, r, t, row as int, column as int),
                ),
            decreases right - column,
        {
            let index: usize = start + column as usize;
            let ghost at = |c: int, i: int| i == index;
            let ghost previous = buffer@;
            buffer[index] = color;
            proof {
                assert(buffer@ =~= painted(previous, frame, color, at));
                lemma_painted_both(
                    before,
                    frame,
                    color,
                    rect_indices_part(width, l, r, t, row as int, column as int),
                    at,
                    rect_indices_part(width, l, r, t, row as int, column + 1),
                );
            }
            column += 1;
        }
        proof {
            let part = rect_indices_part(width, l, r, t, row as int, r);
            let next = rect_indices(width, l, r, t, row + 1);
            assert forall|c: int, i: int| #[trigger] part(c, i) == next(c, i) by {
                if in_row(width, l, r, row as int, i) {
                    assert(next(c, i));
                }
            }
            lemma_painted_same(before, frame, color, part, next);
        }
        row += 1;
    }
}

/// A buffer whose first pixels, as many as a surface of the given size has, are set to a colour.
pub open spec fn cleared(pixels: Seq<u32>, width: u32, height: u32, color: u32) -> Seq<u32> {
    Seq::new(
        pixels.len(),
        |i: int|
            if i < width * height {
                color
            } else {
                pixels[i]
            },
    )
}

/// Fills a surface with a colour.
pub fn fill(buffer: &mut [u32], width: u32, height: u32, color: u32)
    requires
        width * height <= old(buffer)@.len(),
    ensures
        final(buffer)@ == cleared(old(buffer)@, width, height, color),
{
    let ghost before = buffer@;
    let len: usize = buffer.len();
    assert(0 <= width * height) by (nonlinear_arith)
        requires
            0 <= width,
            0 <= height,
    ;
    let count: usize = width as usize * height as usize;
    let mut i: usize = 0;
    while i < count
        invariant
            i <= count,
            count == width * height,
            count <= buffer@.len(),
            buffer@.len() == before.len(),
            forall|k: int|
                0 <= k < before.len() ==> buffer@[k] == if k < i {
                    color
                } else {
                    before[k]
                },
        decreases count - i,
    {
        buffer[i] = color;
        i += 1;
    }
    assert(buffer@ =~= cleared(before, width, height, color));
}

// ---------------------------------------------------------------------------------------------
// Letters
// ---------------------------------------------------------------------------------------------

/// The cells of a letter, if there is a picture of it; small letters look like capital ones.
pub open spec fn letter_pattern(character: char) -> Option<[u8; 7]> {
    let letter = ascii_upper(character);
    if letter == 'A' {
        Some([0b01110, 0b10001, 0b10001, 0b11111, 0b10001, 0b10001, 0b10001])
    } else if letter == 'C' {
        Some([0b01111, 0b10000, 0b10000, 0b10000, 0b10000, 0b10000, 0b01111])
    } else if letter == 'D' {
        Some([0b11110, 0b10001, 0b10001, 0b10001, 0b10001, 0b10001, 0b11110])
    } else if letter == 'E' {
        Some([0b11111, 0b10000, 0b10000, 0b11110, 0b10000, 0b10000, 0b11111])
    } else if letter == 'I' {
        Some([0b11111, 0b00100, 0b00100, 0b00100, 0b00100, 0b00100, 0b11111])
    } else if letter == 'N' {
        Some([0b10001, 0b11001, 0b10101, 0b10011, 0b10001, 0b10001, 0b10001])
    } else if letter == 'O' {
        Some([0b01110, 0b10001, 0b10001, 0b10001, 0b10001, 0b10001, 0b01110])
    } else if letter == 'P' {
        Some([0b11110, 0b10001, 0b10001, 0b11110, 0b10000, 0b10000, 0b10000])
    } else if letter == 'R' {
        Some([0b11110, 0b10001, 0b10001, 0b11110, 0b10100, 0b10010, 0b10001])
    } else if letter == 'S' {
        Some([0b01111, 0b10000, 0b10000, 0b01110, 0b00001, 0b00001, 0b11110])
    } else if letter == 'T' {
        Some([0b11111, 0b00100, 0b00100, 0b00100, 0b00100, 0b00100, 0b00100])
    } else if letter == 'X' {
        Some([0b10001, 0b01010, 0b00100, 0b00100, 0b00100, 0b01010, 0b10001])
    } else {
        None
    }
}

/// Letters look alike in both cases, and different letters look different. They are those of the
/// label of the overlay, where that has them too, but for the C, which is rounded there.
pub proof fn law_letters_are_told_apart(a: char, b: char)
    ensures
        letter_pattern(ascii_upper(a)) == letter_pattern(a),
        letter_pattern(a) is Some && letter_pattern(a) == letter_pattern(b) ==> ascii_upper(a)
            == ascii_upper(b),
        chip_letter(a) is Some ==> letter_pattern(a) is Some,
        chip_letter(a) is Some && ascii_upper(a) != 'C' ==> chip_letter(a) == letter_pattern(a),
{
    if let Some(pattern) = letter_pattern(a) {
        let rows = pattern@;
        assert(rows[0] + rows[1] + rows[2] + rows[3] + rows[4] + rows[5] + rows[6] >= 0);
    }
}

/// The cells of a letter.
pub fn font_5x7(character: char) -> (r: Option<[u8; 7]>)
    ensures
        r == letter_pattern(character),
{
    match to_ascii_upper(character) {
        'A' => Some([0b01110, 0b10001, 0b10001, 0b11111, 0b10001, 0b10001, 0b10001]),
        'C' => Some([0b01111, 0b10000, 0b10000, 0b10000, 0b10000, 0b10000, 0b01111]),
        'D' => Some([0b11110, 0b10001, 0b10001, 0b10001, 0b10001, 0b10001, 0b11110]),
        'E' => Some([0b11111, 0b10000, 0b10000, 0b11110, 0b10000, 0b10000, 0b11111]),
        'I' => Some([0b11111, 0b00100, 0b00100, 0b00100, 0b00100, 0b00100, 0b11111]),
        'N' => Some([0b10001, 0b11001, 0b10101, 0b10011, 0b10001, 0b10001, 0b10001]),
        'O' => Some([0b01110, 0b10001, 0b10001, 0b10001, 0b10001, 0b10001, 0b01110]),
        'P' => Some([0b11110, 0b10001, 0b10001, 0b11110, 0b10000, 0b10000, 0b10000]),
        'R' => Some([0b11110, 0b10001, 0b10001, 0b11110, 0b10100, 0b10010, 0b10001]),
        'S' => Some([0b01111, 0b10000, 0b10000, 0b01110, 0b00001, 0b00001, 0b11110]),
        'T' => Some([0b11111, 0b00100, 0b00100, 0b00100, 0b00100, 0b00100, 0b00100]),
        'X' => Some([0b10001, 0b01010, 0b00100, 0b00100, 0b00100, 0b01010, 0b10001]),
        _ => None,
    }
}

/// Whether an index belongs to a lit cell of a letter.
pub open spec fn cell_hits(
    width: u32,
    x: int,
    y: int,
    scale: u32,
    pattern: [u8; 7],
    cell: int,
    index: int,
) -> bool {
    let left = x + cell % 5 * scale;
    let top = y + cell / 5 * scale;
    cell_lit(pattern, cell) && rect_indices(
        width,
        left,
        min_int(left + scale, u32::MAX as int),
        top,
        min_int(top + scale, u32::MAX as int),
    )(0, index)
}

/// The indices of a letter.
pub open spec fn letter_indices(width: u32, x: int, y: int, scale: u32, pattern: [u8; 7]) -> spec_fn(
    int,
    int,
) -> bool {
    letter_part(width, x, y, scale, pattern, 35)
}

/// The indices of the first cells of a letter.
pub open spec fn letter_part(
    width: u32,
    x: int,
    y: int,
    scale: u32,
    pattern: [u8; 7],
    count: int,
) -> spec_fn(int, int) -> bool {
    |c: int, index: int|
        exists|cell: int|
            0 <= cell < count && #[trigger] cell_hits(width, x, y, scale, pattern, cell, index)
}

/// Whether a lit cell of a letter has coordinates and lies in a buffer of the given length.
pub open spec fn cell_fits(
    len: nat,
    width: u32,
    x: int,
    y: int,
    scale: u32,
    pattern: [u8; 7],
    cell: int,
) -> bool {
    let left = x + cell % 5 * scale;
    let top = y + cell / 5 * scale;
    cell_lit(pattern, cell) ==> left <= u32::MAX && top <= u32::MAX && rect_fits(
        len,
        width,
        left as u32,
        top as u32,
        scale,
        scale,
    )
}

/// Whether a letter lies in a buffer of the given length.
pub open spec fn letter_fits(
    len: nat,
    width: u32,
    x: int,
    y: int,
    scale: u32,
    pattern: [u8; 7],
) -> bool {
    forall|cell: int|
        0 <= cell < 35 ==> #[trigger] cell_fits(len, width, x, y, scale, pattern, cell)
}

/// A buffer with a letter drawn on it, if there is a picture of the letter.
pub open spec fn letter_drawn(
    pixels: Seq<u32>,
    width: u32,
    x: int,
    y: int,
    character: char,
    color: u32,
    scale: u32,
) -> Seq<u32> {
    match letter_pattern(character) {
        Some(pattern) => filled(pixels, color, letter_indices(width, x, y, scale, pattern)),
        None => pixels,
    }
}

/// Draws a letter.
pub fn draw_char_5x7(
    buffer: &mut [u32],
    width: u32,
    x: u32,
    y: u32,
    character: char,
    color: u32,
    scale: u32,
)
    requires
        letter_pattern(character) matches Some(pattern) ==> letter_fits(
            old(buffer)@.len(),
            width,
            x as int,
            y as int,
            scale,
            pattern,
        ),
    ensures
        final(buffer)@ == letter_drawn(
            old(buffer)@,
            width,
            x as int,
            y as int,
            character,
            color,
            scale,
        ),
{
    let pattern = match font_5x7(character) {
        Some(pattern) => pattern,
        None => {
            return ;
        },
    };
    let ghost before = buffer@;
    let ghost frame = index_frame(before.len());
    let ghost (l, t) = (x as int, y as int);
    proof {
        lemma_painted_nothing(before, frame, color, letter_part(width, l, t, scale, pattern, 0));
    }
    let mut cell: u32 = 0;
    while cell < 35
        invariant
            cell <= 35,
            l == x && t == y,
            frame == index_frame(before.len()),
            buffer@.len() == before.len(),
            letter_fits(before.len(), width, l, t, scale, pattern),
            buffer@ == painted(
                before,
                frame,
                color,
                letter_part(width, l, t, scale, pattern, cell as int),
            ),
        decreases 35 - cell,
    {
        let ghost done = letter_part(width, l, t, scale, pattern, cell as int);
        let ghost next = letter_part(width, l, t, scale, pattern, cell + 1);
        if is_cell_lit(&pattern, cell) {
            assert(cell_fits(before.len(), width, l, t, scale, pattern, cell as int));
            let ghost column = cell as int % 5;
            let ghost row = cell as int / 5;
            assert(0 <= column * scale <= 4 * scale && 0 <= row * scale <= 6 * scale)
                by (nonlinear_arith)
                requires
                    0 <= column <= 4,
                    0 <= row <= 6,
                    0 <= scale,
            ;
            let left: u32 = x + cell % 5 * scale;
            let top: u32 = y + cell / 5 * scale;
            draw_rect(buffer, width, left, top, scale, scale, color);
            proof {
                let rect = rect_indices(
                    width,
                    left as int,
                    extent_end(left, scale),
                    top as int,
                    extent_end(top, scale),
                );
                assert forall|c: int, i: int| #[trigger] next(c, i) == (done(c, i) || rect(c, i)) by {
                    assert(rect(c, i) == rect(0, i));
                    assert(cell_hits(width, l, t, scale, pattern, cell as int, i) == rect(0, i));
                }
                lemma_painted_both(before, frame, color, done, rect, next);
            }
        } else {
            proof {
                assert forall|c: int, i: int| #[trigger] done(c, i) == next(c, i) by {
                    assert(!cell_hits(width, l, t, scale, pattern, cell as int, i));
                }
                lemma_painted_same(before, frame, color, done, next);
            }
        }
        cell += 1;
    }
}

/// Where a letter of a text starts: after a space comes less room than after a letter.
pub open spec fn text_cursor(x: u32, text: Seq<char>, count: int, scale: u32) -> int
    decreases count,
{
    if count <= 0 {
        x as int
    } else {
        min_int(
            text_cursor(x, text, count - 1, scale) + if text[count - 1] == ' ' {
                4 * scale
            } else {
                6 * scale
            },
            u32::MAX as int,
        )
    }
}

/// A text starts at its place, and each letter stands six cells to the right of the one before, or
/// four if that is a space, as long as there is room for coordinates.
pub proof fn law_text_goes_from_left_to_right(x: u32, text: Seq<char>, k: int, scale: u32)
    requires
        0 <= k < text.len(),
    ensures
        text_cursor(x, text, 0, scale) == x,
        text_cursor(x, text, k, scale) + 6 * scale <= u32::MAX ==> {
            let step = text_cursor(x, text, k + 1, scale) - text_cursor(x, text, k, scale);
            &&& text[k] == ' ' ==> step == 4 * scale
            &&& text[k] != ' ' ==> step == 6 * scale
        },
{
}

/// A letter fills each of its lit cells, a square as wide and as high as the scale says.
pub proof fn law_letter_fills_its_lit_cells(
    pixels: Seq<u32>,
    width: u32,
    x: int,
    y: int,
    character: char,
    color: u32,
    scale: u32,
    pattern: [u8; 7],
    row: int,
    column: int,
    px: int,
    py: int,
)
    requires
        0 <= x,
        0 <= y,
        0 < scale,
        0 <= row < 7,
        0 <= column < 5,
        letter_pattern(character) == Some(pattern),
        cell_lit(pattern, 5 * row + column),
        x + scale * column + scale <= u32::MAX,
        y + scale * row + scale <= u32::MAX,
        0 <= px - (x + scale * column) < scale,
        0 <= py - (y + scale * row) < scale,
        px < width,
        py * width + px < pixels.len(),
    ensures
        letter_drawn(pixels, width, x, y, character, color, scale)[py * width + px] == color,
{
    let cell = 5 * row + column;
    let index = py * width + px;
    assert(cell % 5 == column && cell / 5 == row);
    assert(cell % 5 * scale == scale * column && cell / 5 * scale == scale * row && 0 <= scale
        * column && 0 <= scale * row) by (nonlinear_arith)
        requires
            cell % 5 == column,
            cell / 5 == row,
            0 < scale,
            0 <= row,
            0 <= column,
    ;
    assert(0 <= py * width) by (nonlinear_arith)
        requires
            0 <= py,
            0 <= width,
    ;
    let left = x + cell % 5 * scale;
    assert(in_row(width, left, left + scale, py, index));
    assert(cell_hits(width, x, y, scale, pattern, cell, index));
}

/// A buffer with the first letters of a text drawn on it.
pub open spec fn text_drawn(
    pixels: Seq<u32>,
    width: u32,
    x: u32,
    y: u32,
    text: Seq<char>,
    count: int,
    color: u32,
    scale: u32,
) -> Seq<u32>
    decreases count,
{
    if count <= 0 {
        pixels
    } else {
        letter_drawn(
            text_drawn(pixels, width, x, y, text, count - 1, color, scale),
            width,
            text_cursor(x, text, count - 1, scale),
            y as int,
            text[count - 1],
            color,
            scale,
        )
    }
}

/// A text shows all of its letters: after it is drawn, each lit cell of each of them has its colour.
pub proof fn law_text_shows_its_letters(
    pixels: Seq<u32>,
    width: u32,
    x: u32,
    y: u32,
    text: Seq<char>,
    count: int,
    color: u32,
    scale: u32,
    k: int,
    pattern: [u8; 7],
    row: int,
    column: int,
    px: int,
    py: int,
)
    requires
        0 < scale,
        0 <= k < count <= text.len(),
        0 <= row < 7,
        0 <= column < 5,
        letter_pattern(text[k]) == Some(pattern),
        cell_lit(pattern, 5 * row + column),
        0 <= text_cursor(x, text, k, scale),
        text_cursor(x, text, k, scale) + scale * column + scale <= u32::MAX,
        y + scale * row + scale <= u32::MAX,
        0 <= px - (text_cursor(x, text, k, scale) + scale * column) < scale,
        0 <= py - (y + scale * row) < scale,
        px < width,
        py * width + px < pixels.len(),
    ensures
        text_drawn(pixels, width, x, y, text, count, color, scale)[py * width + px] == color,
    decreases count,
{
    let before = text_drawn(pixels, width, x, y, text, count - 1, color, scale);
    lemma_text_drawn_len(pixels, width, x, y, text, count - 1, color, scale);
    assert(0 <= scale * column) by (nonlinear_arith)
        requires
            0 < scale,
            0 <= column,
    ;
    assert(0 <= scale * row) by (nonlinear_arith)
        requires
            0 < scale,
            0 <= row,
    ;
    assert(0 <= py * width) by (nonlinear_arith)
        requires
            0 <= py,
            0 <= width,
    ;
    if k == count - 1 {
        law_letter_fills_its_lit_cells(
            before,
            width,
            text_cursor(x, text, k, scale),
            y as int,
            text[k],
            color,
            scale,
            pattern,
            row,
            column,
            px,
            py,
        );
    } else {
        law_text_shows_its_letters(
            pixels,
            width,
            x,
            y,
            text,
            count - 1,
            color,
            scale,
            k,
            pattern,
            row,
            column,
            px,
            py,
        );
    }
}

/// Whether a letter of a text lies in a buffer of the given length.
pub open spec fn text_letter_fits(
    len: nat,
    width: u32,
    x: u32,
    y: u32,
    text: Seq<char>,
    k: int,
    scale: u32,
) -> bool {
    letter_pattern(text[k]) matches Some(pattern) ==> letter_fits(
        len,
        width,
        text_cursor(x, text, k, scale),
        y as int,
        scale,
        pattern,
    )
}

/// Whether the letters of a text lie in a buffer of the given length.
pub open spec fn text_fits(
    len: nat,
    width: u32,
    x: u32,
    y: u32,
    text: Seq<char>,
    scale: u32,
) -> bool {
    forall|k: int|
        0 <= k < text.len() ==> #[trigger] text_letter_fits(len, width, x, y, text, k, scale)
}

/// Tells whether a letter lies in a buffer of the given length.
fn letter_fits_in(len: usize, width: u32, x: u32, y: u32, scale: u32, pattern: &[u8; 7]) -> (r: bool)
    ensures
        r == letter_fits(len as nat, width, x as int, y as int, scale, *pattern),
{
    let mut cell: u32 = 0;
    while cell < 35
        invariant
            cell <= 35,
            forall|k: int|
                0 <= k < cell ==> #[trigger] cell_fits(
                    len as nat,
                    width,
                    x as int,
                    y as int,
                    scale,
                    *pattern,
                    k,
                ),
        decreases 35 - cell,
    {
        if is_cell_lit(pattern, cell) {
            let ghost column = cell as int % 5;
            let ghost row = cell as int / 5;
            assert(0 <= column * scale <= 4 * scale && 0 <= row * scale <= 6 * scale)
                by (nonlinear_arith)
                requires
                    0 <= column <= 4,
                    0 <= row <= 6,
                    0 <= scale,
            ;
            let left: u64 = x as u64 + (cell % 5) as u64 * scale as u64;
            let top: u64 = y as u64 + (cell / 5) as u64 * scale as u64;
            if left > u32::MAX as u64 || top > u32::MAX as u64 || !rect_fits_in(
                len,
                width,
                left as u32,
                top as u32,
                scale,
                scale,
            ) {
                assert(!cell_fits(
                    len as nat,
                    width,
                    x as int,
                    y as int,
                    scale,
                    *pattern,
                    cell as int,
                ));
                return false;
            }
        }
        cell += 1;
    }
    true
}

/// A column some cells further right, as far as there are columns.
fn moved_cursor(x: u32, cells: u32, scale: u32) -> (r: u32)
    requires
        cells <= 6,
    ensures
        r == min_int(x + cells * scale, u32::MAX as int),
{
    assert(0 <= cells * scale <= 6 * scale) by (nonlinear_arith)
        requires
            0 <= cells <= 6,
            0 <= scale,
    ;
    let moved: u64 = x as u64 + cells as u64 * scale as u64;
    if moved > u32::MAX as u64 {
        u32::MAX
    } else {
        moved as u32
    }
}

/// Tells whether the letters of a text lie in a buffer of the given length.
pub fn text_fits_in(len: usize, width: u32, x: u32, y: u32, text: &str, scale: u32) -> (r: bool)
    ensures
        r == text_fits(len as nat, width, x, y, text@, scale),
{
    let characters = chars_of(text);
    let mut cursor_x: u32 = x;
    let mut k: usize = 0;
    while k < characters.len()
        invariant
            k <= characters@.len(),
            characters@ == text@,
            cursor_x == text_cursor(x, text@, k as int, scale),
            forall|j: int|
                0 <= j < k ==> #[trigger] text_letter_fits(len as nat, width, x, y, text@, j, scale),
        decreases characters@.len() - k,
    {
        let character = characters[k];
        if let Some(pattern) = font_5x7(character) {
            if !letter_fits_in(len, width, cursor_x, y, scale, &pattern) {
                assert(!text_letter_fits(len as nat, width, x, y, text@, k as int, scale));
                return false;
            }
        }
        if character == ' ' {
            cursor_x = moved_cursor(cursor_x, 4, scale);
        } else {
            cursor_x = moved_cursor(cursor_x, 6, scale);
        }
        k += 1;
    }
    true
}

/// There is no picture of a space.
proof fn lemma_space_has_no_pattern()
    ensures
        letter_pattern(' ') is None,
{
}

/// Draws a text, letter by letter.
pub fn draw_text_5x7(
    buffer: &mut [u32],
    width: u32,
    x: u32,
    y: u32,
    text: &str,
    color: u32,
    scale: u32,
)
    requires
        text_fits(old(buffer)@.len(), width, x, y, text@, scale),
    ensures
        final(buffer)@ == text_drawn(
            old(buffer)@,
            width,
            x,
            y,
            text@,
            text@.len() as int,
            color,
            scale,
        ),
{
    let ghost before = buffer@;
    let characters = chars_of(text);
    let mut cursor_x: u32 = x;
    let mut k: usize = 0;
    while k < characters.len()
        invariant
            k <= characters@.len(),
            characters@ == text@,
            cursor_x == text_cursor(x, text@, k as int, scale),
            buffer@.len() == before.len(),
            text_fits(before.len(), width, x, y, text@, scale),
            buffer@ == text_drawn(before, width, x, y, text@, k as int, color, scale),
        decreases characters@.len() - k,
    {
        let character = characters[k];
        assert(text_letter_fits(before.len(), width, x, y, text@, k as int, scale));
        if character == ' ' {
            proof {
                lemma_space_has_no_pattern();
            }
            cursor_x = moved_cursor(cursor_x, 4, scale);
        } else {
            draw_char_5x7(buffer, width, cursor_x, y, character, color, scale);
            cursor_x = moved_cursor(cursor_x, 6, scale);
        }
        k += 1;
    }
}

/// Drawing a text does not change the length of a buffer.
pub proof fn lemma_text_drawn_len(
    pixels: Seq<u32>,
    width: u32,
    x: u32,
    y: u32,
    text: Seq<char>,
    count: int,
    color: u32,
    scale: u32,
)
    ensures
        text_drawn(pixels, width, x, y, text, count, color, scale).len() == pixels.len(),
    decreases count,
{
    if count > 0 {
        lemma_text_drawn_len(pixels, width, x, y, text, count - 1, color, scale);
    }
}

} // verus!
