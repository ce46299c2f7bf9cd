//! The picture under the pointer while a region is picked.
use crate::canvas::{
    border, full_frame, law_painting_sets_the_shape, lemma_index_parts, lemma_painted_both,
    lemma_painted_nothing, lemma_painted_same, painted, rect_shape,
};
use crate::font::{cell_lit, is_cell_lit};
use crate::math::{clamp_int, max_int, min_int, narrow_i32, sat_i32, sat_u32, u32_as_i32, wrap_i32};
use crate::overlay::selection::SelectionMode;
use crate::pixels::{lemma_position_bound, lemma_row_position};
use crate::screen::capture::CaptureRegion;
use crate::screen::monitor::VirtualScreen;
use crate::text::{ascii_upper, chars_of, to_ascii_upper};
use vstd::prelude::*;

verus! {

// ---------------------------------------------------------------------------------------------
// Clear and dimmed pixels
// ---------------------------------------------------------------------------------------------

/// The red, green and blue parts of the pixel at an index of a BGRA buffer in one number.
pub open spec fn clear_pixel(bgra: Seq<u8>, i: int) -> u32 {
    (bgra[4 * i] + bgra[4 * i + 1] * 0x100 + bgra[4 * i + 2] * 0x10000) as u32
}

/// The same with each part at 55 percent, rounded down.
pub open spec fn dimmed_pixel(bgra: Seq<u8>, i: int) -> u32 {
    (bgra[4 * i] * 55 / 100 + bgra[4 * i + 1] * 55 / 100 * 0x100 + bgra[4 * i + 2] * 55 / 100
        * 0x10000) as u32
}

/// A clear pixel holds the blue part of the captured pixel lowest, then the green and the red one;
/// in a dimmed pixel each part is 55 percent of that, rounded down.
pub proof fn law_dimming_keeps_the_parts_in_proportion(bgra: Seq<u8>, i: int)
    ensures
        ({
            let clear = clear_pixel(bgra, i) as int;
            let dimmed = dimmed_pixel(bgra, i) as int;
            &&& 0 <= clear <= 0xff_ffff && 0 <= dimmed <= clear
            &&& clear % 0x100 == bgra[4 * i]
            &&& clear / 0x100 % 0x100 == bgra[4 * i + 1]
            &&& clear / 0x10000 == bgra[4 * i + 2]
            &&& 100 * (dimmed % 0x100) <= 55 * bgra[4 * i] < 100 * (dimmed % 0x100) + 100
            &&& 100 * (dimmed / 0x100 % 0x100) <= 55 * bgra[4 * i + 1] < 100 * (dimmed / 0x100
                % 0x100) + 100
            &&& 100 * (dimmed / 0x10000) <= 55 * bgra[4 * i + 2] < 100 * (dimmed / 0x10000) + 100
        }),
{
    let (blue, green, red) = (bgra[4 * i], bgra[4 * i + 1], bgra[4 * i + 2]);
    let dim_blue = blue * 55 / 100;
    let dim_green = green * 55 / 100;
    let dim_red = red * 55 / 100;
    assert(0 <= dim_blue <= blue && 0 <= dim_green <= green && 0 <= dim_red <= red);
    lemma_packed_parts(blue as int, green as int, red as int);
    lemma_packed_parts(dim_blue, dim_green, dim_red);
}

proof fn lemma_packed_parts(low: int, middle: int, high: int)
    requires
        0 <= low <= 255,
        0 <= middle <= 255,
        0 <= high <= 255,
    ensures
        ({
            let packed = low + middle * 0x100 + high * 0x10000;
            &&& 0 <= packed <= 0xff_ffff
            &&& packed % 0x100 == low
            &&& packed / 0x100 % 0x100 == middle
            &&& packed / 0x10000 == high
        }),
{
}

/// The dimmed and the clear pixels of a BGRA buffer.
pub fn bgra_to_overlay_pixels(bgra: &[u8]) -> (r: (Vec<u32>, Vec<u32>))
    ensures
        r.0@ == Seq::new(bgra@.len() / 4, |i: int| dimmed_pixel(bgra@, i)),
        r.1@ == Seq::new(bgra@.len() / 4, |i: int| clear_pixel(bgra@, i)),
{
    let mut dimmed: Vec<u32> = Vec::new();
    let mut clear: Vec<u32> = Vec::new();
    let total: usize = bgra.len();
    let count: usize = total / 4;
    let mut i: usize = 0;
    while i < count
        invariant
            i <= count,
            total == bgra@.len(),
            count == total / 4,
            dimmed@.len() == i,
            clear@.len() == i,
            forall|k: int| 0 <= k < i ==> #[trigger] dimmed@[k] == dimmed_pixel(bgra@, k),
            forall|k: int| 0 <= k < i ==> #[trigger] clear@[k] == clear_pixel(bgra@, k),
        decreases count - i,
    {
        let b: u32 = bgra[4 * i] as u32;
        let g: u32 = bgra[4 * i + 1] as u32;
        let r: u32 = bgra[4 * i + 2] as u32;
        clear.push(b + g * 0x100 + r * 0x10000);
        dimmed.push(b * 55 / 100 + g * 55 / 100 * 0x100 + r * 55 / 100 * 0x10000);
        i += 1;
    }
    assert(dimmed@ =~= Seq::new(bgra@.len() / 4, |i: int| dimmed_pixel(bgra@, i)));
    assert(clear@ =~= Seq::new(bgra@.len() / 4, |i: int| clear_pixel(bgra@, i)));
    (dimmed, clear)
}

// ---------------------------------------------------------------------------------------------
// Rectangles
// ---------------------------------------------------------------------------------------------

spec fn rows_part(left: int, top: int, right: int, row: int, column: int) -> spec_fn(
    int,
    int,
) -> bool {
    |px: int, py: int|
        left <= px < right && top <= py && (py < row || (py == row && px < column))
}

/// Sets a pixel of a surface.
fn set_pixel(buffer: &mut [u32], width: u32, height: u32, x: u32, y: u32, color: u32)
    requires
        width * height <= old(buffer)@.len(),
        x < width,
        y < height,
    ensures
        final(buffer)@ == painted(
            old(buffer)@,
            full_frame(width, height),
            color,
            |px: int, py: int| px == x && py == y,
        ),
{
    let ghost before = buffer@;
    let ghost shape = |px: int, py: int| px == x && py == y;
    let len: usize = buffer.len();
    proof {
        lemma_position_bound(y as int, height as int, width as int, x as int);
        assert(height * width == width * height) by (nonlinear_arith);
    }
    let index: usize = y as usize * width as usize + x as usize;
    buffer[index] = color;
    proof {
        assert forall|i: int| 0 <= i < before.len() implies crate::canvas::covers(
            full_frame(width, height),
            shape,
            i,
        ) == (i == index) by {
            lemma_index_parts(i, width as int);
            lemma_row_position(y as int, width as int, x as int);
        }
        assert(buffer@ =~= painted(before, full_frame(width, height), color, shape));
    }
}

/// The far edge of a rectangle that starts at a coordinate: its length is read as a signed number,
/// the sum saturates, and what is negative counts as zero.
pub open spec fn clipped_end(start: int, length: u32) -> int {
    max_int(sat_i32(start + wrap_i32(length)), 0)
}

/// The points of a rectangle; what stands left of the surface or above it is not counted.
pub open spec fn filled_shape(x: int, y: int, width: u32, height: u32) -> spec_fn(
    int,
    int,
) -> bool {
    rect_shape(max_int(x, 0), max_int(y, 0), clipped_end(x, width), clipped_end(y, height))
}

/// Paints a rectangle, cut off where the surface ends.
pub fn draw_filled_rect(
    buffer: &mut [u32],
    surface_width: u32,
    surface_height: u32,
    x: i64,
    y: i64,
    width: u32,
    height: u32,
    color: u32,
)
    requires
        surface_width * surface_height <= old(buffer)@.len(),
        i64::MIN <= x + wrap_i32(width) <= i64::MAX,
        i64::MIN <= y + wrap_i32(height) <= i64::MAX,
    ensures
        final(buffer)@ == painted(
            old(buffer)@,
            full_frame(surface_width, surface_height),
            color,
            filled_shape(x as int, y as int, width, height),
        ),
{
    let ghost before = buffer@;
    let ghost frame = full_frame(surface_width, surface_height);
    let ghost shape = filled_shape(x as int, y as int, width, height);
    let left: i64 = if x > 0 {
        x
    } else {
        0
    };
    let top: i64 = if y > 0 {
        y
    } else {
        0
    };
    let right: i64 = narrow_i32(x + u32_as_i32(width) as i64) as i64;
    let bottom: i64 = narrow_i32(y + u32_as_i32(height) as i64) as i64;
    let right: i64 = if right > surface_width as i64 {
        surface_width as i64
    } else {
        right
    };
    let bottom: i64 = if bottom > surface_height as i64 {
        surface_height as i64
    } else {
        bottom
    };
    if left >= right || top >= bottom {
        proof {
            lemma_painted_nothing(before, frame, color, shape);
        }
        return ;
    }
    let ghost (l, t, r, b) = (left as int, top as int, right as int, bottom as int);
    proof {
        lemma_painted_nothing(before, frame, color, rows_part(l, t, r, t, l));
    }
    let mut row: u32 = top as u32;
    while row < bottom as u32
        invariant
            0 <= l < r <= surface_width,
            0 <= t < b <= surface_height,
            left == l && right == r && bottom == b,
            t <= row <= b,
            frame == full_frame(surface_width, surface_height),
            surface_width * surface_height <= before.len(),
            buffer@.len() == before.len(),
            buffer@ == painted(before, frame, color, rows_part(l, t, r, row as int, l)),
        decreases b - row,
    {
        let mut column: u32 = left as u32;
        while column < right as u32
            invariant
                0 <= l < r <= surface_width,
                0 <= t < b <= surface_height,
                left == l && right == r && bottom == b,
                t <= row < b,
                l <= column <= r,
                frame == full_frame(surface_width, surface_height),
                surface_width * surface_height <= before.len(),
                buffer@.len() == before.len(),
                buffer@ == painted(
                    before,
                    frame,
                    color,
                    rows_part(l, t, r, row as int, column as int),
                ),
            decreases r - column,
        {
            set_pixel(buffer, surface_width, surface_height, column, row, color);
            proof {
                lemma_painted_both(
                    before,
                    frame,
                    color,
                    rows_part(l, t, r, row as int, column as int),
                    |px: int, py: int| px == column && py == row,
                    rows_part(l, t, r, row as int, column + 1),
                );
            }
            column += 1;
        }
        row += 1;
        proof {
            lemma_painted_same(
                before,
                frame,
                color,
                rows_part(l, t, r, row - 1, column as int),
                rows_part(l, t, r, row as int, l),
            );
        }
    }
    proof {
        lemma_painted_same(before, frame, color, rows_part(l, t, r, row as int, l), shape);
    }
}

/// The box that stands `inset` inside a rectangle, as its first and last columns and rows, brought
/// onto the surface.
pub open spec fn inset_box(
    surface_width: u32,
    surface_height: u32,
    left: u32,
    top: u32,
    right: u32,
    bottom: u32,
    inset: int,
) -> (int, int, int, int) {
    (
        min_int(sat_u32(left + inset), surface_width - 1),
        min_int(sat_u32(top + inset), surface_height - 1),
        min_int(max_int(right - 1 - inset, 0), surface_width - 1),
        min_int(max_int(bottom - 1 - inset, 0), surface_height - 1),
    )
}

/// Whether a point stands on the border of the box that stands `inset` inside a rectangle.
pub open spec fn on_inset(
    surface_width: u32,
    surface_height: u32,
    left: u32,
    top: u32,
    right: u32,
    bottom: u32,
    inset: int,
    px: int,
    py: int,
) -> bool {
    let (x0, y0, x1, y1) = inset_box(
        surface_width,
        surface_height,
        left,
        top,
        right,
        bottom,
        inset,
    );
    x0 <= x1 && y0 <= y1 && border(x0, y0, x1 + 1, y1 + 1, 0)(px, py)
}

/// The points of the borders of the first `thickness` boxes in a rectangle; an empty rectangle has
/// none.
pub open spec fn inner_border(
    surface_width: u32,
    surface_height: u32,
    left: u32,
    top: u32,
    right: u32,
    bottom: u32,
    thickness: int,
) -> spec_fn(int, int) -> bool {
    |px: int, py: int|
        left < right && top < bottom && exists|inset: int|
            0 <= inset < thickness && #[trigger] on_inset(
                surface_width,
                surface_height,
                left,
                top,
                right,
                bottom,
                inset,
                px,
                py,
            )
}

/// The border of a box that lies on the surface is made of the points in the box that are nearer to
/// one of its edges than its thickness.
pub proof fn law_border_lies_inside_its_box(
    surface_width: u32,
    surface_height: u32,
    left: u32,
    top: u32,
    right: u32,
    bottom: u32,
    thickness: int,
    px: int,
    py: int,
)
    requires
        left < right <= surface_width,
        top < bottom <= surface_height,
        0 < thickness,
    ensures
        inner_border(surface_width, surface_height, left, top, right, bottom, thickness)(px, py)
            <==> left <= px < right && top <= py < bottom && (px - left < thickness || right - 1 - px
            < thickness || py - top < thickness || bottom - 1 - py < thickness),
{
    let shape = inner_border(surface_width, surface_height, left, top, right, bottom, thickness);
    if shape(px, py) {
        let inset = choose|inset: int|
            0 <= inset < thickness && #[trigger] on_inset(
                surface_width,
                surface_height,
                left,
                top,
                right,
                bottom,
                inset,
                px,
                py,
            );
        assert(on_inset(
            surface_width,
            surface_height,
            left,
            top,
            right,
            bottom,
            inset,
            px,
            py,
        ));
    }
    if left <= px < right && top <= py < bottom {
        let across = min_int(px - left, right - 1 - px);
        let down = min_int(py - top, bottom - 1 - py);
        let inset = min_int(across, down);
        if inset < thickness {
            assert(on_inset(
                surface_width,
                surface_height,
                left,
                top,
                right,
                bottom,
                inset,
                px,
                py,
            ));
        }
    }
}

/// The part of the border of a box before a column, and of its sides above a row.
spec fn box_part(x0: int, y0: int, x1: int, y1: int, column: int, row: int) -> spec_fn(
    int,
    int,
) -> bool {
    |px: int, py: int|
        {
            ||| x0 <= px < column && px <= x1 && (py == y0 || py == y1)
            ||| y0 <= py < row && py <= y1 && (px == x0 || px == x1)
        }
}

/// Draws the border of a box.
fn draw_box(
    buffer: &mut [u32],
    surface_width: u32,
    surface_height: u32,
    x0: u32,
    y0: u32,
    x1: u32,
    y1: u32,
    color: u32,
)
    requires
        surface_width * surface_height <= old(buffer)@.len(),
        x0 <= x1 < surface_width,
        y0 <= y1 < surface_height,
    ensures
        final(buffer)@ == painted(
            old(buffer)@,
            full_frame(surface_width, surface_height),
            color,
            border(x0 as int, y0 as int, x1 + 1, y1 + 1, 0),
        ),
{
    let ghost before = buffer@;
    let ghost frame = full_frame(surface_width, surface_height);
    let ghost (l, t, r, b) = (x0 as int, y0 as int, x1 as int, y1 as int);
    proof {
        lemma_painted_nothing(before, frame, color, box_part(l, t, r, b, l, t));
    }
    let mut x: u32 = x0;
    while x <= x1
        invariant
            l == x0 && t == y0 && r == x1 && b == y1,
            x0 <= x <= x1 + 1,
            x1 < surface_width,
            y0 <= y1 < surface_height,
            frame == full_frame(surface_width, surface_height),
            surface_width * surface_height <= before.len(),
            buffer@.len() == before.len(),
            buffer@ == painted(before, frame, color, box_part(l, t, r, b, x as int, t)),
        decreases x1 + 1 - x,
    {
        let ghost done = box_part(l, t, r, b, x as int, t);
        let ghost next = box_part(l, t, r, b, x + 1, t);
        let ghost upper = |px: int, py: int| px == x && py == y0;
        let ghost lower = |px: int, py: int| px == x && py == y1;
        let ghost half = |px: int, py: int| done(px, py) || upper(px, py);
        set_pixel(buffer, surface_width, surface_height, x, y0, color);
        set_pixel(buffer, surface_width, surface_height, x, y1, color);
        proof {
            lemma_painted_both(before, frame, color, done, upper, half);
            lemma_painted_both(before, frame, color, half, lower, next);
        }
        x += 1;
    }
    let mut y: u32 = y0;
    while y <= y1
        invariant
            l == x0 && t == y0 && r == x1 && b == y1,
            y0 <= y <= y1 + 1,
            y1 < surface_height,
            x0 <= x1 < surface_width,
            frame == full_frame(surface_width, surface_height),
            surface_width * surface_height <= before.len(),
            buffer@.len() == before.len(),
            buffer@ == painted(before, frame, color, box_part(l, t, r, b, r + 1, y as int)),
        decreases y1 + 1 - y,
    {
        let ghost done = box_part(l, t, r, b, r + 1, y as int);
        let ghost next = box_part(l, t, r, b, r + 1, y + 1);
        let ghost near_side = |px: int, py: int| px == x0 && py == y;
        let ghost far_side = |px: int, py: int| px == x1 && py == y;
        let ghost half = |px: int, py: int| done(px, py) || near_side(px, py);
        set_pixel(buffer, surface_width, surface_height, x0, y, color);
        set_pixel(buffer, surface_width, surface_height, x1, y, color);
        proof {
            lemma_painted_both(before, frame, color, done, near_side, half);
            lemma_painted_both(before, frame, color, half, far_side, next);
        }
        y += 1;
    }
    proof {
        lemma_painted_same(
            before,
            frame,
            color,
            box_part(l, t, r, b, r + 1, b + 1),
            border(l, t, r + 1, b + 1, 0),
        );
    }
}

/// Where there is no room for a box there is none for a smaller one.
proof fn lemma_no_box_within(
    surface_width: u32,
    surface_height: u32,
    left: u32,
    top: u32,
    right: u32,
    bottom: u32,
    inset: int,
    thickness: int,
)
    requires
        0 <= inset < thickness,
        surface_width > 0,
        surface_height > 0,
        ({
            let (x0, y0, x1, y1) = inset_box(
                surface_width,
                surface_height,
                left,
                top,
                right,
                bottom,
                inset,
            );
            x0 > x1 || y0 > y1
        }),
    ensures
        forall|px: int, py: int| #[trigger]
            inner_border(surface_width, surface_height, left, top, right, bottom, inset)(px, py)
                == inner_border(
                surface_width,
                surface_height,
                left,
                top,
                right,
                bottom,
                thickness,
            )(px, py),
{
    assert forall|k: int, px: int, py: int| inset <= k implies !#[trigger] on_inset(
        surface_width,
        surface_height,
        left,
        top,
        right,
        bottom,
        k,
        px,
        py,
    ) by {}
    let done = inner_border(surface_width, surface_height, left, top, right, bottom, inset);
    let whole = inner_border(surface_width, surface_height, left, top, right, bottom, thickness);
    assert forall|px: int, py: int| #[trigger] done(px, py) == whole(px, py) by {
        if whole(px, py) {
            let k = choose|k: int|
                0 <= k < thickness && #[trigger] on_inset(
                    surface_width,
                    surface_height,
                    left,
                    top,
                    right,
                    bottom,
                    k,
                    px,
                    py,
                );
            assert(k < inset);
        }
    }
}

/// Draws the inner border of a rectangle, box by box, until there is no room for another one.
pub fn draw_rect_border_color(
    buffer: &mut [u32],
    surface_width: u32,
    surface_height: u32,
    left: u32,
    top: u32,
    right: u32,
    bottom: u32,
    color: u32,
    thickness: u32,
)
    requires
        surface_width * surface_height <= old(buffer)@.len(),
    ensures
        final(buffer)@ == painted(
            old(buffer)@,
            full_frame(surface_width, surface_height),
            color,
            inner_border(
                surface_width,
                surface_height,
                left,
                top,
                right,
                bottom,
                thickness as int,
            ),
        ),
{
    let ghost before = buffer@;
    let ghost frame = full_frame(surface_width, surface_height);
    let ghost whole = inner_border(
        surface_width,
        surface_height,
        left,
        top,
        right,
        bottom,
        thickness as int,
    );
    if left >= right || top >= bottom || surface_width == 0 || surface_height == 0 {
        proof {
            lemma_painted_nothing(before, frame, color, whole);
        }
        return ;
    }
    proof {
        lemma_painted_nothing(
            before,
            frame,
            color,
            inner_border(surface_width, surface_height, left, top, right, bottom, 0),
        );
    }
    let mut inset: u32 = 0;
    while inset < thickness
        invariant
            inset <= thickness,
            before == old(buffer)@,
            left < right && top < bottom,
            surface_width > 0 && surface_height > 0,
            frame == full_frame(surface_width, surface_height),
            whole == inner_border(
                surface_width,
                surface_height,
                left,
                top,
                right,
                bottom,
                thickness as int,
            ),
            surface_width * surface_height <= before.len(),
            buffer@.len() == before.len(),
            buffer@ == painted(
                before,
                frame,
                color,
                inner_border(
                    surface_width,
                    surface_height,
                    left,
                    top,
                    right,
                    bottom,
                    inset as int,
                ),
            ),
        decreases thickness - inset,
    {
        let ghost done = inner_border(
            surface_width,
            surface_height,
            left,
            top,
            right,
            bottom,
            inset as int,
        );
        let ghost next = inner_border(
            surface_width,
            surface_height,
            left,
            top,
            right,
            bottom,
            inset + 1,
        );
        let x0: u32 = left.saturating_add(inset).min(surface_width - 1);
        let y0: u32 = top.saturating_add(inset).min(surface_height - 1);
        let x1: u32 = (right - 1).saturating_sub(inset).min(surface_width - 1);
        let y1: u32 = (bottom - 1).saturating_sub(inset).min(surface_height - 1);
        if x0 > x1 || y0 > y1 {
            proof {
                lemma_no_box_within(
                    surface_width,
                    surface_height,
                    left,
                    top,
                    right,
                    bottom,
                    inset as int,
                    thickness as int,
                );
                lemma_painted_same(before, frame, color, done, whole);
            }
            return ;
        }
        draw_box(buffer, surface_width, surface_height, x0, y0, x1, y1, color);
        proof {
            let ring = border(x0 as int, y0 as int, x1 + 1, y1 + 1, 0);
            assert forall|px: int, py: int| #[trigger] next(px, py) == (done(px, py) || ring(
                px,
                py,
            )) by {
                assert(on_inset(
                    surface_width,
                    surface_height,
                    left,
                    top,
                    right,
                    bottom,
                    inset as int,
                    px,
                    py,
                ) == ring(px, py));
            }
            lemma_painted_both(before, frame, color, done, ring, next);
        }
        inset += 1;
    }
}

// ---------------------------------------------------------------------------------------------
// Letters
// ---------------------------------------------------------------------------------------------

/// The cells of a letter, if there is a picture of it; small letters look like capital ones.
pub open spec fn chip_letter(character: char) -> Option<[u8; 7]> {
    let letter = ascii_upper(character);
    if letter == 'C' {
        Some([0b01110, 0b10001, 0b10000, 0b10000, 0b10000, 0b10001, 0b01110])
    } else if letter == 'E' {
        Some([0b11111, 0b10000, 0b10000, 0b11110, 0b10000, 0b10000, 0b11111])
    } else if letter == 'I' {
        Some([0b11111, 0b00100, 0b00100, 0b00100, 0b00100, 0b00100, 0b11111])
    } else if letter == 'N' {
        Some([0b10001, 0b11001, 0b10101, 0b10011, 0b10001, 0b10001, 0b10001])
    } else if letter == 'O' {
        Some([0b01110, 0b10001, 0b10001, 0b10001, 0b10001, 0b10001, 0b01110])
    } else if letter == 'P' {
        Some([0b11110, 0b10001, 0b10001, 0b11110, 0b10000, 0b10000, 0b10000])
    } else if letter == 'R' {
        Some([0b11110, 0b10001, 0b10001, 0b11110, 0b10100, 0b10010, 0b10001])
    } else if letter == 'S' {
        Some([0b01111, 0b10000, 0b10000, 0b01110, 0b00001, 0b00001, 0b11110])
    } else {
        None
    }
}

/// The cells of a letter.
pub fn font_5x7(character: char) -> (r: Option<[u8; 7]>)
    ensures
        r == chip_letter(character),
{
    match to_ascii_upper(character) {
        'C' => Some([0b01110, 0b10001, 0b10000, 0b10000, 0b10000, 0b10001, 0b01110]),
        'E' => Some([0b11111, 0b10000, 0b10000, 0b11110, 0b10000, 0b10000, 0b11111]),
        'I' => Some([0b11111, 0b00100, 0b00100, 0b00100, 0b00100, 0b00100, 0b11111]),
        'N' => Some([0b10001, 0b11001, 0b10101, 0b10011, 0b10001, 0b10001, 0b10001]),
        'O' => Some([0b01110, 0b10001, 0b10001, 0b10001, 0b10001, 0b10001, 0b01110]),
        'P' => Some([0b11110, 0b10001, 0b10001, 0b11110, 0b10000, 0b10000, 0b10000]),
        'R' => Some([0b11110, 0b10001, 0b10001, 0b11110, 0b10100, 0b10010, 0b10001]),
        'S' => Some([0b01111, 0b10000, 0b10000, 0b01110, 0b00001, 0b00001, 0b11110]),
        _ => None,
    }
}

/// Whether a lit cell of a letter covers a point.
pub open spec fn cell_covers(
    x: int,
    y: int,
    scale: u32,
    pattern: [u8; 7],
    cell: int,
    px: int,
    py: int,
) -> bool {
    cell_lit(pattern, cell) && filled_shape(
        x + cell % 5 * scale,
        y + cell / 5 * scale,
        scale,
        scale,
    )(px, py)
}

/// The points of the first cells of a letter.
pub open spec fn letter_cells(x: int, y: int, scale: u32, pattern: [u8; 7], count: int) -> spec_fn(
    int,
    int,
) -> bool {
    |px: int, py: int|
        exists|cell: int|
            0 <= cell < count && #[trigger] cell_covers(x, y, scale, pattern, cell, px, py)
}

/// The points of a letter; a letter without a picture has none.
pub open spec fn letter_shape(x: int, y: int, scale: u32, character: char) -> spec_fn(
    int,
    int,
) -> bool {
    match chip_letter(character) {
        Some(pattern) => letter_cells(x, y, scale, pattern, 35),
        None => |px: int, py: int| false,
    }
}

/// Whether the places of all cells of a text with the given number of letters can be computed.
pub open spec fn text_in_range(x: int, y: int, count: int, scale: u32) -> bool {
    &&& i64::MIN + 0x8000_0000 <= x && x + count * (6 * scale) <= i64::MAX
    &&& i64::MIN + 0x8000_0000 <= y && y + 7 * scale <= i64::MAX
}

/// Draws a letter.
fn draw_char_5x7(
    buffer: &mut [u32],
    surface_width: u32,
    surface_height: u32,
    x: i64,
    y: i64,
    character: char,
    color: u32,
    scale: u32,
)
    requires
        surface_width * surface_height <= old(buffer)@.len(),
        text_in_range(x as int, y as int, 1, scale),
    ensures
        final(buffer)@ == painted(
            old(buffer)@,
            full_frame(surface_width, surface_height),
            color,
            letter_shape(x as int, y as int, scale, character),
        ),
{
    let ghost before = buffer@;
    let ghost frame = full_frame(surface_width, surface_height);
    let ghost (l, t) = (x as int, y as int);
    let pattern = match font_5x7(character) {
        Some(pattern) => pattern,
        None => {
            proof {
                lemma_painted_nothing(before, frame, color, letter_shape(l, t, scale, character));
            }
            return ;
        },
    };
    proof {
        lemma_painted_nothing(before, frame, color, letter_cells(l, t, scale, pattern, 0));
    }
    let mut cell: u32 = 0;
    while cell < 35
        invariant
            cell <= 35,
            text_in_range(x as int, y as int, 1, scale),
            l == x && t == y,
            frame == full_frame(surface_width, surface_height),
            surface_width * surface_height <= before.len(),
            buffer@.len() == before.len(),
            buffer@ == painted(
                before,
                frame,
                color,
                letter_cells(l, t, scale, pattern, cell as int),
            ),
        decreases 35 - cell,
    {
        let ghost done = letter_cells(l, t, scale, pattern, cell as int);
        let ghost next = letter_cells(l, t, scale, pattern, cell + 1);
        if is_cell_lit(&pattern, cell) {
            let ghost column = cell as int % 5;
            let ghost row = cell as int / 5;
            assert(0 <= column * scale <= 4 * scale && 0 <= row * scale <= 6 * scale)
                by (nonlinear_arith)
                requires
                    0 <= column <= 4,
                    0 <= row <= 6,
                    0 <= scale,
            ;
            let cell_x: i64 = x + (cell % 5) as i64 * scale as i64;
            let cell_y: i64 = y + (cell / 5) as i64 * scale as i64;
            draw_filled_rect(
                buffer,
                surface_width,
                surface_height,
                cell_x,
                cell_y,
                scale,
                scale,
                color,
            );
            proof {
                let shape = filled_shape(cell_x as int, cell_y as int, scale, scale);
                assert forall|px: int, py: int| #[trigger] next(px, py) == (done(px, py) || shape(
                    px,
                    py,
                )) by {
                    assert(cell_covers(l, t, scale, pattern, cell as int, px, py) == shape(px, py));
                }
                lemma_painted_both(before, frame, color, done, shape, next);
            }
        } else {
            proof {
                assert forall|px: int, py: int| #[trigger] done(px, py) == next(px, py) by {
                    assert(!cell_covers(l, t, scale, pattern, cell as int, px, py));
                }
                lemma_painted_same(before, frame, color, done, next);
            }
        }
        cell += 1;
    }
}

/// Whether a letter of a text covers a point: each letter is six cells right of the one before.
pub open spec fn text_letter_covers(
    x: int,
    y: int,
    scale: u32,
    text: Seq<char>,
    k: int,
    px: int,
    py: int,
) -> bool {
    letter_shape(x + k * (6 * scale), y, scale, text[k])(px, py)
}

/// The points of the first letters of a text.
pub open spec fn text_cells(x: int, y: int, scale: u32, text: Seq<char>, count: int) -> spec_fn(
    int,
    int,
) -> bool {
    |px: int, py: int|
        exists|k: int|
            0 <= k < count && #[trigger] text_letter_covers(x, y, scale, text, k, px, py)
}

/// A label is written letter by letter, each six cells to the right of the one before: every lit
/// cell of a letter is filled, a square as wide and as high as the scale says.
pub proof fn law_label_shows_its_letters(
    x: int,
    y: int,
    scale: u32,
    text: Seq<char>,
    k: int,
    pattern: [u8; 7],
    row: int,
    column: int,
    px: int,
    py: int,
)
    requires
        0 <= x,
        0 <= y,
        0 < scale <= 0xffff,
        0 <= k < text.len(),
        0 <= row < 7,
        0 <= column < 5,
        chip_letter(text[k]) == Some(pattern),
        cell_lit(pattern, 5 * row + column),
        x + 6 * scale * k + scale * (column + 1) <= i32::MAX,
        y + scale * (row + 1) <= i32::MAX,
        0 <= px - (x + 6 * scale * k + scale * column) < scale,
        0 <= py - (y + scale * row) < scale,
    ensures
        text_cells(x, y, scale, text, text.len() as int)(px, py),
{
    let cell = 5 * row + column;
    let left = x + k * (6 * scale);
    assert(cell % 5 == column && cell / 5 == row);
    assert(k * (6 * scale) == 6 * scale * k && cell % 5 * scale == scale * column && cell / 5
        * scale == scale * row && scale * (column + 1) == scale * column + scale && scale * (row
        + 1) == scale * row + scale && 0 <= 6 * scale * k && 0 <= scale * column && 0 <= scale
        * row) by (nonlinear_arith)
        requires
            cell % 5 == column,
            cell / 5 == row,
            0 < scale,
            0 <= k,
            0 <= row,
            0 <= column,
    ;
    assert(cell_covers(left, y, scale, pattern, cell, px, py));
    assert(text_letter_covers(x, y, scale, text, k, px, py));
}

/// Letters of the label look alike in both cases, and different letters look different.
pub proof fn law_label_letters_are_told_apart(a: char, b: char)
    ensures
        chip_letter(ascii_upper(a)) == chip_letter(a),
        chip_letter(a) is Some && chip_letter(a) == chip_letter(b) ==> ascii_upper(a)
            == ascii_upper(b),
{
    if let Some(pattern) = chip_letter(a) {
        let rows = pattern@;
        assert(rows[0] + rows[1] + rows[2] + rows[3] + rows[4] + rows[5] + rows[6] >= 0);
    }
}

/// Draws a text.
pub fn draw_text_5x7(
    buffer: &mut [u32],
    surface_width: u32,
    surface_height: u32,
    x: i64,
    y: i64,
    text: &str,
    color: u32,
    scale: u32,
)
    requires
        surface_width * surface_height <= old(buffer)@.len(),
        text_in_range(x as int, y as int, text@.len() as int, scale),
    ensures
        final(buffer)@ == painted(
            old(buffer)@,
            full_frame(surface_width, surface_height),
            color,
            text_cells(x as int, y as int, scale, text@, text@.len() as int),
        ),
{
    let ghost before = buffer@;
    let ghost frame = full_frame(surface_width, surface_height);
    let ghost (l, t) = (x as int, y as int);
    let characters = chars_of(text);
    proof {
        lemma_painted_nothing(before, frame, color, text_cells(l, t, scale, text@, 0));
    }
    let mut cursor_x: i64 = x;
    let mut k: usize = 0;
    assert(0 * (6 * scale) == 0) by (nonlinear_arith);
    while k < characters.len()
        invariant
            k <= characters@.len(),
            characters@ == text@,
            text_in_range(x as int, y as int, text@.len() as int, scale),
            l == x && t == y,
            cursor_x == x + k * (6 * scale),
            frame == full_frame(surface_width, surface_height),
            surface_width * surface_height <= before.len(),
            buffer@.len() == before.len(),
            buffer@ == painted(before, frame, color, text_cells(l, t, scale, text@, k as int)),
        decreases characters@.len() - k,
    {
        let ghost count = text@.len() as int;
        assert(0 <= k * (6 * scale) && (k + 1) * (6 * scale) == k * (6 * scale) + 6 * scale && (k
            + 1) * (6 * scale) <= count * (6 * scale)) by (nonlinear_arith)
            requires
                0 <= k < count,
                0 <= scale,
        ;
        draw_char_5x7(
            buffer,
            surface_width,
            surface_height,
            cursor_x,
            y,
            characters[k],
            color,
            scale,
        );
        proof {
            let done = text_cells(l, t, scale, text@, k as int);
            let shape = letter_shape(cursor_x as int, t, scale, text@[k as int]);
            let next = text_cells(l, t, scale, text@, k + 1);
            assert forall|px: int, py: int| #[trigger] next(px, py) == (done(px, py) || shape(
                px,
                py,
            )) by {
                assert(text_letter_covers(l, t, scale, text@, k as int, px, py) == shape(px, py));
            }
            lemma_painted_both(before, frame, color, done, shape, next);
        }
        cursor_x += 6 * scale as i64;
        k += 1;
    }
}

/// The width of a text: five cells for each letter and one between two.
pub open spec fn text_width(count: int, scale: u32) -> int {
    if count == 0 {
        0
    } else {
        (count * 5 + (count - 1)) * scale
    }
}

/// The width of a text.
pub fn text_5x7_width(text: &str, scale: u32) -> (r: u32)
    requires
        text@.len() * 5 <= u32::MAX,
        text_width(text@.len() as int, scale) <= u32::MAX,
    ensures
        r == text_width(text@.len() as int, scale),
{
    let count: u32 = chars_of(text).len() as u32;
    if count == 0 {
        return 0;
    }
    assert((count * 5 + (count - 1)) * scale == count * 5 * scale + (count - 1) * scale && 0
        <= count * 5 * scale && 0 <= (count - 1) * scale) by (nonlinear_arith)
        requires
            1 <= count,
            0 <= scale,
    ;
    count * 5 * scale + (count - 1) * scale
}

// ---------------------------------------------------------------------------------------------
// Regions
// ---------------------------------------------------------------------------------------------

/// A surface on which a rectangle has been copied from another one: each pixel comes from the same
/// column and row.
pub open spec fn copied(
    pixels: Seq<u32>,
    width: u32,
    source: Seq<u32>,
    source_width: u32,
    left: int,
    top: int,
    right: int,
    bottom: int,
) -> Seq<u32> {
    Seq::new(
        pixels.len(),
        |i: int|
            {
                let x = i % width as int;
                let y = i / width as int;
                if left <= x < right && top <= y < bottom {
                    source[y * source_width + x]
                } else {
                    pixels[i]
                }
            },
    )
}

/// Copying takes each pixel of the rectangle from the same column and row of the source, and keeps
/// the others.
pub proof fn law_copying_keeps_columns_and_rows(
    pixels: Seq<u32>,
    width: u32,
    source: Seq<u32>,
    source_width: u32,
    left: int,
    top: int,
    right: int,
    bottom: int,
    x: int,
    y: int,
)
    requires
        0 <= x < width,
        0 <= y,
        y * width + x < pixels.len(),
    ensures
        ({
            let drawn = copied(
                pixels,
                width,
                source,
                source_width,
                left,
                top,
                right,
                bottom,
            );
            &&& drawn.len() == pixels.len()
            &&& left <= x < right && top <= y < bottom ==> drawn[y * width + x] == source[y
                * source_width + x]
            &&& !(left <= x < right && top <= y < bottom) ==> drawn[y * width + x] == pixels[y
                * width + x]
        }),
{
    lemma_row_position(y, width as int, x);
    assert(0 <= y * width) by (nonlinear_arith)
        requires
            0 <= y,
            0 <= width,
    ;
}

spec fn copied_part(
    pixels: Seq<u32>,
    width: u32,
    source: Seq<u32>,
    source_width: u32,
    left: int,
    top: int,
    right: int,
    row: int,
    column: int,
) -> Seq<u32> {
    Seq::new(
        pixels.len(),
        |i: int|
            {
                let x = i % width as int;
                let y = i / width as int;
                if left <= x < right && top <= y && (y < row || (y == row && x < column)) {
                    source[y * source_width + x]
                } else {
                    pixels[i]
                }
            },
    )
}

/// Copies a rectangle from another surface.
pub fn copy_rect(
    buffer: &mut [u32],
    width: u32,
    height: u32,
    source: &Vec<u32>,
    source_width: u32,
    left: u32,
    top: u32,
    right: u32,
    bottom: u32,
)
    requires
        width * height <= old(buffer)@.len(),
        left < right <= width,
        top < bottom <= height,
        (bottom - 1) * source_width + right <= source@.len(),
    ensures
        final(buffer)@ == copied(
            old(buffer)@,
            width,
            source@,
            source_width,
            left as int,
            top as int,
            right as int,
            bottom as int,
        ),
{
    let ghost before = buffer@;
    let ghost (l, t, r, b) = (left as int, top as int, right as int, bottom as int);
    let ghost w = width as int;
    let len: usize = buffer.len();
    let source_len: usize = source.len();
    proof {
        assert forall|i: int| 0 <= i < before.len() implies before[i] == copied_part(
            before,
            width,
            source@,
            source_width,
            l,
            t,
            r,
            t,
            l,
        )[i] by {}
        assert(before =~= copied_part(before, width, source@, source_width, l, t, r, t, l));
    }
    let mut row: u32 = top;
    while row < bottom
        invariant
            l == left && t == top && r == right && b == bottom && w == width,
            left < right <= width,
            top <= row <= bottom <= height,
            width * height <= len,
            len == before.len(),
            buffer@.len() == len,
            source_len == source@.len(),
            (bottom - 1) * source_width + right <= source_len,
            buffer@ == copied_part(
                before,
                width,
                source@,
                source_width,
                l,
                t,
                r,
                row as int,
                l,
            ),
        decreases bottom - row,
    {
        proof {
            assert(0 <= row * source_width && row * source_width + right <= source_len)
                by (nonlinear_arith)
                requires
                    0 <= row <= bottom - 1,
                    0 <= source_width,
                    (bottom - 1) * source_width + right <= source_len,
            ;
        }
        let mut column: u32 = left;
        while column < right
            invariant
                l == left && t == top && r == right && b == bottom && w == width,
                left <= column <= right <= width,
                top <= row < bottom <= height,
                width * height <= len,
                len == before.len(),
                buffer@.len() == len,
                source_len == source@.len(),
                0 <= row * source_width,
                row * source_width + right <= source_len,
                buffer@ == copied_part(
                    before,
                    width,
                    source@,
                    source_width,
                    l,
                    t,
                    r,
                    row as int,
                    column as int,
                ),
            decreases right - column,
        {
            let ghost previous = buffer@;
            proof {
                lemma_position_bound(row as int, height as int, w, column as int);
                lemma_row_position(row as int, w, column as int);
                assert(height * w == width * height) by (nonlinear_arith)
                    requires
                        w == width,
                ;
            }
            let dest: usize = row as usize * width as usize + column as usize;
            let from: usize = row as usize * source_width as usize + column as usize;
            buffer[dest] = source[from];
            column += 1;
            proof {
                assert forall|i: int| 0 <= i < before.len() implies buffer@[i] == copied_part(
                    before,
                    width,
                    source@,
                    source_width,
                    l,
                    t,
                    r,
                    row as int,
                    column as int,
                )[i] by {
                    lemma_index_parts(i, w);
                    assert(previous[i] == copied_part(
                        before,
                        width,
                        source@,
                        source_width,
                        l,
                        t,
                        r,
                        row as int,
                        column - 1,
                    )[i]);
                }
                assert(buffer@ =~= copied_part(
                    before,
                    width,
                    source@,
                    source_width,
                    l,
                    t,
                    r,
                    row as int,
                    column as int,
                ));
            }
        }
        row += 1;
        assert(buffer@ =~= copied_part(
            before,
            width,
            source@,
            source_width,
            l,
            t,
            r,
            row as int,
            l,
        ));
    }
    assert(buffer@ =~= copied(before, width, source@, source_width, l, t, r, b));
}

/// The edges of a region on a surface that covers the virtual desktop, brought onto the surface:
/// left, top, right and bottom.
pub open spec fn region_edges(
    surface_width: u32,
    surface_height: u32,
    region: CaptureRegion,
    screen: VirtualScreen,
) -> (u32, u32, u32, u32) {
    let left = max_int(region.x - screen.x, 0);
    let top = max_int(region.y - screen.y, 0);
    (
        left as u32,
        top as u32,
        min_int(left + region.width, surface_width as int) as u32,
        min_int(top + region.height, surface_height as int) as u32,
    )
}

/// A region of the desktop that lies on the screen stands on the surface where it stands on the
/// screen.
pub proof fn law_region_stands_where_it_is_on_the_screen(
    surface_width: u32,
    surface_height: u32,
    region: CaptureRegion,
    screen: VirtualScreen,
)
    requires
        screen.x <= region.x && region.x + region.width <= screen.x + surface_width,
        screen.y <= region.y && region.y + region.height <= screen.y + surface_height,
    ensures
        ({
            let (left, top, right, bottom) = region_edges(
                surface_width,
                surface_height,
                region,
                screen,
            );
            &&& screen.x + left == region.x && screen.y + top == region.y
            &&& right - left == region.width && bottom - top == region.height
        }),
{
}

fn edges_of_region(
    surface_width: u32,
    surface_height: u32,
    region: CaptureRegion,
    screen: VirtualScreen,
) -> (r: (u32, u32, u32, u32))
    ensures
        r == region_edges(surface_width, surface_height, region, screen),
{
    let dx: i64 = region.x as i64 - screen.x as i64;
    let dy: i64 = region.y as i64 - screen.y as i64;
    let left: u32 = if dx > 0 {
        dx as u32
    } else {
        0
    };
    let top: u32 = if dy > 0 {
        dy as u32
    } else {
        0
    };
    let right: u32 = left.saturating_add(region.width).min(surface_width);
    let bottom: u32 = top.saturating_add(region.height).min(surface_height);
    (left, top, right, bottom)
}

/// A surface with the border of a selection: two pixels of black, the inner one of them white.
pub open spec fn selection_border_drawn(
    pixels: Seq<u32>,
    width: u32,
    height: u32,
    left: u32,
    top: u32,
    right: u32,
    bottom: u32,
) -> Seq<u32> {
    painted(
        painted(
            pixels,
            full_frame(width, height),
            0x0000_0000,
            inner_border(width, height, left, top, right, bottom, 2),
        ),
        full_frame(width, height),
        0x00ff_ffff,
        inner_border(
            width,
            height,
            sat_u32(left + 1) as u32,
            sat_u32(top + 1) as u32,
            max_int(right - 1, 0) as u32,
            max_int(bottom - 1, 0) as u32,
            1,
        ),
    )
}

/// Draws the border of a selection.
pub fn draw_rect_border(
    buffer: &mut [u32],
    surface_width: u32,
    surface_height: u32,
    left: u32,
    top: u32,
    right: u32,
    bottom: u32,
)
    requires
        surface_width * surface_height <= old(buffer)@.len(),
    ensures
        final(buffer)@ == selection_border_drawn(
            old(buffer)@,
            surface_width,
            surface_height,
            left,
            top,
            right,
            bottom,
        ),
{
    draw_rect_border_color(
        buffer,
        surface_width,
        surface_height,
        left,
        top,
        right,
        bottom,
        0x0000_0000,
        2,
    );
    draw_rect_border_color(
        buffer,
        surface_width,
        surface_height,
        left.saturating_add(1),
        top.saturating_add(1),
        right.saturating_sub(1),
        bottom.saturating_sub(1),
        0x00ff_ffff,
        1,
    );
}

/// Whether the clear pixels reach as far as the part of a region that is shown.
pub open spec fn clear_pixels_suffice(
    surface_width: u32,
    surface_height: u32,
    frame_width: u32,
    len: nat,
    region: CaptureRegion,
    screen: VirtualScreen,
) -> bool {
    let (left, top, right, bottom) = region_edges(surface_width, surface_height, region, screen);
    left < right && top < bottom ==> (bottom - 1) * frame_width + right <= len
}

/// A surface with a selection: clear inside, with a border; nothing where the region does not reach
/// the surface.
pub open spec fn selection_drawn(
    pixels: Seq<u32>,
    surface_width: u32,
    surface_height: u32,
    frame_width: u32,
    clear: Seq<u32>,
    region: CaptureRegion,
    screen: VirtualScreen,
) -> Seq<u32> {
    let (left, top, right, bottom) = region_edges(surface_width, surface_height, region, screen);
    if left >= right || top >= bottom {
        pixels
    } else {
        selection_border_drawn(
            copied(
                pixels,
                surface_width,
                clear,
                frame_width,
                left as int,
                top as int,
                right as int,
                bottom as int,
            ),
            surface_width,
            surface_height,
            left,
            top,
            right,
            bottom,
        )
    }
}

/// A selected region is shown clear as far as it lies on the surface, inside a black line along the
/// edges of that part and a white line inside the black one; what is not in it stays as it was. A
/// region that begins left of the screen or above it is shown from the edge on, as wide and as high.
pub proof fn law_selection_is_shown_clear(
    pixels: Seq<u32>,
    width: u32,
    height: u32,
    frame_width: u32,
    clear: Seq<u32>,
    region: CaptureRegion,
    screen: VirtualScreen,
    x: int,
    y: int,
)
    requires
        width <= i32::MAX,
        height <= i32::MAX,
        0 <= x < width,
        0 <= y < height,
        y * width + x < pixels.len(),
    ensures
        ({
            let drawn = selection_drawn(pixels, width, height, frame_width, clear, region, screen);
            let left = if region.x < screen.x {
                0
            } else {
                region.x - screen.x
            };
            let top = if region.y < screen.y {
                0
            } else {
                region.y - screen.y
            };
            let right = if left + region.width <= width {
                left + region.width - 1
            } else {
                width - 1
            };
            let bottom = if top + region.height <= height {
                top + region.height - 1
            } else {
                height - 1
            };
            let inside = left <= x <= right && top <= y <= bottom;
            let on_edge = x == left || y == top || x == right || y == bottom;
            let beside_edge = x == left + 1 || y == top + 1 || x == right - 1 || y == bottom - 1;
            let place = y * width + x;
            &&& !inside ==> drawn[place] == pixels[place]
            &&& inside && on_edge ==> drawn[place] == 0
            &&& inside && !on_edge && beside_edge ==> drawn[place] == 0xff_ffff
            &&& inside && !on_edge && !beside_edge ==> drawn[place] == clear[y * frame_width + x]
        }),
{
    let (left, top, right, bottom) = region_edges(width, height, region, screen);
    if left < right && top < bottom {
        let shown = copied(
            pixels,
            width,
            clear,
            frame_width,
            left as int,
            top as int,
            right as int,
            bottom as int,
        );
        law_copying_keeps_columns_and_rows(
            pixels,
            width,
            clear,
            frame_width,
            left as int,
            top as int,
            right as int,
            bottom as int,
            x,
            y,
        );
        let (l, t) = ((left + 1) as u32, (top + 1) as u32);
        let (r, b) = ((right - 1) as u32, (bottom - 1) as u32);
        law_border_lies_inside_its_box(width, height, left, top, right, bottom, 2, x, y);
        if l < r && t < b {
            law_border_lies_inside_its_box(width, height, l, t, r, b, 1, x, y);
        }
        let black = inner_border(width, height, left, top, right, bottom, 2);
        let white = inner_border(width, height, l, t, r, b, 1);
        law_painting_sets_the_shape(shown, width, height, 0u32, black, x, y);
        law_painting_sets_the_shape(
            painted(shown, full_frame(width, height), 0u32, black),
            width,
            height,
            0x00ff_ffffu32,
            white,
            x,
            y,
        );
    }
}

/// Draws a selection.
pub fn draw_selection_region(
    buffer: &mut [u32],
    surface_width: u32,
    surface_height: u32,
    frame_width: u32,
    clear_pixels: &Vec<u32>,
    region: CaptureRegion,
    screen: VirtualScreen,
)
    requires
        surface_width * surface_height <= old(buffer)@.len(),
        clear_pixels_suffice(
            surface_width,
            surface_height,
            frame_width,
            clear_pixels@.len(),
            region,
            screen,
        ),
    ensures
        final(buffer)@ == selection_drawn(
            old(buffer)@,
            surface_width,
            surface_height,
            frame_width,
            clear_pixels@,
            region,
            screen,
        ),
{
    let (left, top, right, bottom) = edges_of_region(surface_width, surface_height, region, screen);
    if left >= right || top >= bottom {
        return ;
    }
    copy_rect(
        buffer,
        surface_width,
        surface_height,
        clear_pixels,
        frame_width,
        left,
        top,
        right,
        bottom,
    );
    draw_rect_border(buffer, surface_width, surface_height, left, top, right, bottom);
}

/// A surface with the border of a window under the pointer.
pub open spec fn hover_drawn(
    pixels: Seq<u32>,
    surface_width: u32,
    surface_height: u32,
    region: CaptureRegion,
    screen: VirtualScreen,
) -> Seq<u32> {
    let (left, top, right, bottom) = region_edges(surface_width, surface_height, region, screen);
    if left >= right || top >= bottom {
        pixels
    } else {
        painted(
            pixels,
            full_frame(surface_width, surface_height),
            0x0000_ffff,
            inner_border(surface_width, surface_height, left, top, right, bottom, 3),
        )
    }
}

/// A region under the pointer is shown by a line three pixels wide inside its edges, cut off where
/// the surface ends, and nothing else is changed.
pub proof fn law_hovered_region_is_framed(
    pixels: Seq<u32>,
    width: u32,
    height: u32,
    region: CaptureRegion,
    screen: VirtualScreen,
    x: int,
    y: int,
)
    requires
        width <= i32::MAX,
        height <= i32::MAX,
        0 <= x < width,
        0 <= y < height,
        y * width + x < pixels.len(),
    ensures
        ({
            let drawn = hover_drawn(pixels, width, height, region, screen);
            let left = if region.x < screen.x {
                0
            } else {
                region.x - screen.x
            };
            let top = if region.y < screen.y {
                0
            } else {
                region.y - screen.y
            };
            let right = if left + region.width <= width {
                left + region.width
            } else {
                width as int
            };
            let bottom = if top + region.height <= height {
                top + region.height
            } else {
                height as int
            };
            let framed = left <= x < right && top <= y < bottom && (x - left < 3 || y - top < 3
                || right - x <= 3 || bottom - y <= 3);
            let place = y * width + x;
            &&& framed ==> drawn[place] == 0xffff
            &&& !framed ==> drawn[place] == pixels[place]
        }),
{
    let (left, top, right, bottom) = region_edges(width, height, region, screen);
    if left < right && top < bottom {
        law_border_lies_inside_its_box(width, height, left, top, right, bottom, 3, x, y);
        law_painting_sets_the_shape(
            pixels,
            width,
            height,
            0x0000_ffffu32,
            inner_border(width, height, left, top, right, bottom, 3),
            x,
            y,
        );
    }
}

/// Draws the border of a window under the pointer.
pub fn draw_hover_region(
    buffer: &mut [u32],
    surface_width: u32,
    surface_height: u32,
    region: CaptureRegion,
    screen: VirtualScreen,
)
    requires
        surface_width * surface_height <= old(buffer)@.len(),
    ensures
        final(buffer)@ == hover_drawn(
            old(buffer)@,
            surface_width,
            surface_height,
            region,
            screen,
        ),
{
    let (left, top, right, bottom) = edges_of_region(surface_width, surface_height, region, screen);
    if left >= right || top >= bottom {
        return ;
    }
    draw_rect_border_color(
        buffer,
        surface_width,
        surface_height,
        left,
        top,
        right,
        bottom,
        0x0000_ffff,
        3,
    );
}

// ---------------------------------------------------------------------------------------------
// The chip beside the pointer
// ---------------------------------------------------------------------------------------------

/// What the chip says.
pub open spec fn chip_label(mode: SelectionMode) -> Seq<char> {
    match mode {
        SelectionMode::Snip => "SNIP"@,
        SelectionMode::Record => "REC"@,
        SelectionMode::Ocr => "OCR"@,
    }
}

/// The colour of the stripe on the chip.
pub open spec fn chip_accent(mode: SelectionMode) -> u32 {
    match mode {
        SelectionMode::Snip => 0x0033_88ff,
        SelectionMode::Record => 0x0000_3333,
        SelectionMode::Ocr => 0x0033_cc33,
    }
}

/// The width of the chip: its label at three pixels a cell, and twelve pixels on both sides.
pub open spec fn chip_width(mode: SelectionMode) -> int {
    text_width(chip_label(mode).len() as int, 3) + 24
}

/// The height of the chip.
pub const CHIP_HEIGHT: u32 = 27;

/// Whether the chip has a place: the room that it leaves on the surface is made of coordinates.
pub open spec fn chip_fits(surface_width: u32, surface_height: u32, mode: SelectionMode) -> bool {
    &&& surface_width - chip_width(mode) <= i32::MAX
    &&& surface_height - CHIP_HEIGHT <= i32::MAX
}

/// Where the chip stands: right of the pointer and below it, or near the upper left corner, and
/// always on the surface if there is room.
pub open spec fn chip_place(
    surface_width: u32,
    surface_height: u32,
    mode: SelectionMode,
    cursor: Option<(i32, i32)>,
) -> (int, int) {
    let (x, y) = match cursor {
        Some((x, y)) => (x + 18, y + 18),
        None => (18int, 18int),
    };
    (
        clamp_int(x, 0, max_int(surface_width - chip_width(mode), 0)),
        clamp_int(y, 0, max_int(surface_height - CHIP_HEIGHT, 0)),
    )
}

/// A surface with the chip: its ground, the stripe, a border and the label.
pub open spec fn chip_drawn(
    pixels: Seq<u32>,
    surface_width: u32,
    surface_height: u32,
    mode: SelectionMode,
    cursor: Option<(i32, i32)>,
) -> Seq<u32> {
    let frame = full_frame(surface_width, surface_height);
    let (x, y) = chip_place(surface_width, surface_height, mode, cursor);
    let width = chip_width(mode) as u32;
    painted(
        painted(
            painted(
                painted(pixels, frame, 0x0020_2020, filled_shape(x, y, width, CHIP_HEIGHT)),
                frame,
                chip_accent(mode),
                filled_shape(x, y, 6, CHIP_HEIGHT),
            ),
            frame,
            0x00ff_ffff,
            inner_border(
                surface_width,
                surface_height,
                x as u32,
                y as u32,
                sat_u32(x + width) as u32,
                sat_u32(y + CHIP_HEIGHT) as u32,
                1,
            ),
        ),
        frame,
        0x00ff_ffff,
        text_cells(x + 14, y + 5, 3, chip_label(mode), chip_label(mode).len() as int),
    )
}

/// The chip stands 18 pixels right of the pointer and below it, and never leaves a surface that has
/// room for it: at the far edges it is moved back just as far as it must.
pub proof fn law_chip_stays_on_the_surface(
    width: u32,
    height: u32,
    mode: SelectionMode,
    x: i32,
    y: i32,
)
    requires
        chip_width(mode) <= width,
        27 <= height,
    ensures
        ({
            let (left, top) = chip_place(width, height, mode, Some((x, y)));
            let (right, bottom) = (left + chip_width(mode), top + 27);
            &&& 0 <= left && right <= width && 0 <= top && bottom <= height
            &&& left == x + 18 || left == 0 && x + 18 < 0 || right == width && left < x + 18
            &&& top == y + 18 || top == 0 && y + 18 < 0 || bottom == height && top < y + 18
        }),
        chip_place(width, height, mode, None) == chip_place(width, height, mode, Some((0, 0))),
        chip_width(SelectionMode::Snip) == 93,
        chip_width(SelectionMode::Record) == 75,
        chip_width(SelectionMode::Ocr) == 75,
{
    reveal_strlit("SNIP");
    reveal_strlit("REC");
    reveal_strlit("OCR");
}

/// The label lies inside the chip: every point that it covers is at least 5 pixels below the top of
/// the chip and above its bottom, and at least 10 pixels from its sides.
pub proof fn law_label_lies_in_the_chip(mode: SelectionMode, left: int, top: int, x: int, y: int)
    requires
        0 <= left && left + chip_width(mode) <= i32::MAX,
        0 <= top && top + 27 <= i32::MAX,
        text_cells(left + 14, top + 5, 3, chip_label(mode), chip_label(mode).len() as int)(x, y),
    ensures
        left + 10 <= x < left + chip_width(mode) - 9,
        top + 5 <= y < top + 27,
{
    reveal_strlit("SNIP");
    reveal_strlit("REC");
    reveal_strlit("OCR");
    let label = chip_label(mode);
    let k = choose|k: int|
        0 <= k < label.len() && #[trigger] text_letter_covers(
            left + 14,
            top + 5,
            3,
            label,
            k,
            x,
            y,
        );
    let column = left + 14 + k * 18;
    let pattern = chip_letter(label[k])->0;
    assert(letter_shape(left + 14 + k * (6 * 3), top + 5, 3, label[k])(x, y));
    assert(chip_letter(label[k]) is Some);
    let cell = choose|cell: int|
        0 <= cell < 35 && #[trigger] cell_covers(column, top + 5, 3, pattern, cell, x, y);
    assert(0 <= cell % 5 < 5 && 0 <= cell / 5 < 7);
    assert(filled_shape(column + cell % 5 * 3, top + 5 + cell / 5 * 3, 3, 3)(x, y));
}

/// The chip is filled, begins with a stripe of six columns in the colour of the mode, and has a
/// white line along its edges and its label in white; nothing outside it is changed.
pub proof fn law_chip_shows_the_mode(
    pixels: Seq<u32>,
    width: u32,
    height: u32,
    mode: SelectionMode,
    cursor: Option<(i32, i32)>,
    x: int,
    y: int,
)
    requires
        chip_width(mode) <= width <= i32::MAX,
        27 <= height <= i32::MAX,
        0 <= x < width,
        0 <= y < height,
        y * width + x < pixels.len(),
    ensures
        ({
            let drawn = chip_drawn(pixels, width, height, mode, cursor);
            let (left, top) = chip_place(width, height, mode, cursor);
            let (column, row) = (x - left, y - top);
            let label = chip_label(mode);
            let inside = 0 <= column < chip_width(mode) && 0 <= row < 27;
            let on_edge = column == 0 || row == 0 || column == chip_width(mode) - 1 || row == 26;
            let written = text_cells(left + 14, top + 5, 3, label, label.len() as int)(x, y);
            let place = y * width + x;
            &&& written || inside && on_edge ==> drawn[place] == 0xff_ffff
            &&& !written && inside && !on_edge && column < 6 ==> drawn[place] == chip_accent(mode)
            &&& !written && inside && !on_edge && column >= 6 ==> drawn[place] == 0x20_2020
            &&& !written && !inside ==> drawn[place] == pixels[place]
        }),
{
    let (left, top) = chip_place(width, height, mode, cursor);
    law_chip_stays_on_the_surface(width, height, mode, 0, 0);
    if let Some((px, py)) = cursor {
        law_chip_stays_on_the_surface(width, height, mode, px, py);
    }
    let frame = full_frame(width, height);
    let w = chip_width(mode) as u32;
    let label = chip_label(mode);
    let ground = filled_shape(left, top, w, CHIP_HEIGHT);
    let stripe = filled_shape(left, top, 6, CHIP_HEIGHT);
    let (l, t) = (left as u32, top as u32);
    let (r, b) = ((left + w) as u32, (top + CHIP_HEIGHT) as u32);
    let edge = inner_border(width, height, l, t, r, b, 1);
    let letters = text_cells(left + 14, top + 5, 3, label, label.len() as int);
    let first = painted(pixels, frame, 0x0020_2020, ground);
    let second = painted(first, frame, chip_accent(mode), stripe);
    let third = painted(second, frame, 0x00ff_ffff, edge);
    law_painting_sets_the_shape(pixels, width, height, 0x0020_2020, ground, x, y);
    law_painting_sets_the_shape(first, width, height, chip_accent(mode), stripe, x, y);
    law_border_lies_inside_its_box(width, height, l, t, r, b, 1, x, y);
    law_painting_sets_the_shape(second, width, height, 0x00ff_ffff, edge, x, y);
    law_painting_sets_the_shape(third, width, height, 0x00ff_ffff, letters, x, y);
}

/// The labels of the chip are short.
pub proof fn lemma_chip_labels(mode: SelectionMode)
    ensures
        3 <= chip_label(mode).len() <= 4,
        75 <= chip_width(mode) <= 93,
{
    reveal_strlit("SNIP");
    reveal_strlit("REC");
    reveal_strlit("OCR");
}

/// Draws the chip that says what a region is picked for. `cursor` is where the pointer is, in whole
/// pixels.
pub fn draw_mode_chip(
    buffer: &mut [u32],
    surface_width: u32,
    surface_height: u32,
    mode: SelectionMode,
    cursor: Option<(i32, i32)>,
)
    requires
        surface_width * surface_height <= old(buffer)@.len(),
        chip_fits(surface_width, surface_height, mode),
    ensures
        final(buffer)@ == chip_drawn(old(buffer)@, surface_width, surface_height, mode, cursor),
{
    let label: &str = match mode {
        SelectionMode::Snip => "SNIP",
        SelectionMode::Record => "REC",
        SelectionMode::Ocr => "OCR",
    };
    let accent: u32 = match mode {
        SelectionMode::Snip => 0x0033_88ff,
        SelectionMode::Record => 0x0000_3333,
        SelectionMode::Ocr => 0x0033_cc33,
    };
    proof {
        lemma_chip_labels(mode);
    }
    let scale: u32 = 3;
    let text_width = text_5x7_width(label, scale);
    let width: u32 = text_width + 24;
    let (wanted_x, wanted_y): (i64, i64) = match cursor {
        Some((x, y)) => (x as i64 + 18, y as i64 + 18),
        None => (18, 18),
    };
    let room_x: i64 = surface_width.saturating_sub(width) as i64;
    let room_y: i64 = surface_height.saturating_sub(CHIP_HEIGHT) as i64;
    let x: i64 = if wanted_x < 0 {
        0
    } else if wanted_x > room_x {
        room_x
    } else {
        wanted_x
    };
    let y: i64 = if wanted_y < 0 {
        0
    } else if wanted_y > room_y {
        room_y
    } else {
        wanted_y
    };
    draw_filled_rect(
        buffer,
        surface_width,
        surface_height,
        x,
        y,
        width,
        CHIP_HEIGHT,
        0x0020_2020,
    );
    draw_filled_rect(buffer, surface_width, surface_height, x, y, 6, CHIP_HEIGHT, accent);
    draw_rect_border_color(
        buffer,
        surface_width,
        surface_height,
        x as u32,
        y as u32,
        (x as u32).saturating_add(width),
        (y as u32).saturating_add(CHIP_HEIGHT),
        0x00ff_ffff,
        1,
    );
    assert(text_in_range(x + 14, y + 5, label@.len() as int, scale)) by {
        assert(label@.len() * (6 * scale) <= 4 * 18) by (nonlinear_arith)
            requires
                label@.len() <= 4,
                scale == 3,
        ;
    }
    draw_text_5x7(
        buffer,
        surface_width,
        surface_height,
        x + 14,
        y + 5,
        label,
        0x00ff_ffff,
        scale,
    );
}

} // verus!
