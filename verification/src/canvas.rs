//! Drawing on buffers of pixels. What a drawing does to a buffer is stated as the set of points
//! that it covers.
use crate::math::{abs_i64, abs_int, max_int, min_int, wrap_i32};
use crate::pixels::lemma_row_position;
use crate::text::{chars_of, decimal, decimal_u64, lemma_decimal_len};
use vstd::arithmetic::div_mod::{lemma_fundamental_div_mod, lemma_fundamental_div_mod_converse};
use vstd::prelude::*;

verus! {

/// How the pixels of a buffer lie in the plane: rows of `width` pixels, of which the first
/// `columns` columns and the first `rows` rows can be drawn on.
pub struct Frame {
    pub width: int,
    pub columns: int,
    pub rows: int,
}

/// A frame of the given size, all of which can be drawn on.
pub open spec fn full_frame(width: u32, height: u32) -> Frame {
    Frame { width: width as int, columns: width as int, rows: height as int }
}

/// A frame whose size is read as signed numbers: nothing can be drawn on one that is too large.
pub open spec fn signed_frame(width: u32, height: u32) -> Frame {
    Frame { width: width as int, columns: wrap_i32(width), rows: wrap_i32(height) }
}

/// Whether the pixel at an index can be drawn on and stands on a point of a shape.
pub open spec fn covers(frame: Frame, shape: spec_fn(int, int) -> bool, index: int) -> bool {
    &&& frame.width > 0
    &&& index % frame.width < frame.columns
    &&& index / frame.width < frame.rows
    &&& shape(index % frame.width, index / frame.width)
}

/// A buffer with each pixel on a point of a shape set to a colour.
pub open spec fn painted<T>(
    pixels: Seq<T>,
    frame: Frame,
    color: T,
    shape: spec_fn(int, int) -> bool,
) -> Seq<T> {
    Seq::new(
        pixels.len(),
        |i: int|
            if covers(frame, shape, i) {
                color
            } else {
                pixels[i]
            },
    )
}

/// Painting gives the colour to the pixels on the points of the shape, and leaves the others as
/// they are.
pub proof fn law_painting_sets_the_shape<T>(
    pixels: Seq<T>,
    width: u32,
    height: u32,
    color: T,
    shape: spec_fn(int, int) -> bool,
    x: int,
    y: int,
)
    requires
        width <= i32::MAX,
        height <= i32::MAX,
        0 <= x < width,
        0 <= y < height,
        y * width + x < pixels.len(),
    ensures
        painted(pixels, signed_frame(width, height), color, shape).len() == pixels.len(),
        shape(x, y) ==> painted(pixels, signed_frame(width, height), color, shape)[y * width + x]
            == color,
        !shape(x, y) ==> painted(pixels, signed_frame(width, height), color, shape)[y * width + x]
            == pixels[y * width + x],
        painted(pixels, full_frame(width, height), color, shape)[y * width + x] == painted(
            pixels,
            signed_frame(width, height),
            color,
            shape,
        )[y * width + x],
{
    lemma_row_position(y, width as int, x);
    crate::pixels::lemma_position_bound(y, height as int, width as int, x);
}

/// Painting two shapes in one colour is painting both at once.
pub proof fn lemma_painted_both<T>(
    pixels: Seq<T>,
    frame: Frame,
    color: T,
    first: spec_fn(int, int) -> bool,
    second: spec_fn(int, int) -> bool,
    both: spec_fn(int, int) -> bool,
)
    requires
        forall|x: int, y: int| #[trigger] both(x, y) == (first(x, y) || second(x, y)),
    ensures
        painted(painted(pixels, frame, color, first), frame, color, second) == painted(
            pixels,
            frame,
            color,
            both,
        ),
{
    assert forall|i: int| covers(frame, both, i) == (covers(frame, first, i) || covers(
        frame,
        second,
        i,
    )) by {
        let _ = both(i % frame.width, i / frame.width);
    }
    assert(painted(painted(pixels, frame, color, first), frame, color, second) =~= painted(
        pixels,
        frame,
        color,
        both,
    ));
}

/// Painting does the same for shapes that agree on the points that can be drawn on.
pub proof fn lemma_painted_same<T>(
    pixels: Seq<T>,
    frame: Frame,
    color: T,
    shape: spec_fn(int, int) -> bool,
    other: spec_fn(int, int) -> bool,
)
    requires
        forall|x: int, y: int|
            0 <= x < frame.columns && 0 <= y < frame.rows ==> #[trigger] shape(x, y) == other(x, y),
    ensures
        painted(pixels, frame, color, shape) == painted(pixels, frame, color, other),
{
    assert forall|i: int| 0 <= i < pixels.len() implies covers(frame, shape, i) == covers(
        frame,
        other,
        i,
    ) by {
        if frame.width > 0 {
            lemma_index_parts(i, frame.width);
        }
        let _ = shape(i % frame.width, i / frame.width);
    }
    assert(painted(pixels, frame, color, shape) =~= painted(pixels, frame, color, other));
}

/// Painting nothing leaves a buffer as it is.
pub proof fn lemma_painted_nothing<T>(
    pixels: Seq<T>,
    frame: Frame,
    color: T,
    shape: spec_fn(int, int) -> bool,
)
    requires
        forall|x: int, y: int|
            0 <= x < frame.columns && 0 <= y < frame.rows ==> !#[trigger] shape(x, y),
    ensures
        painted(pixels, frame, color, shape) == pixels,
{
    assert forall|i: int| 0 <= i < pixels.len() implies !covers(frame, shape, i) by {
        if frame.width > 0 {
            lemma_index_parts(i, frame.width);
        }
        let _ = shape(i % frame.width, i / frame.width);
    }
    assert(painted(pixels, frame, color, shape) =~= pixels);
}

/// Nothing is drawn on a frame whose width or height is no signed number.
pub proof fn law_nothing_is_drawn_on_frames_too_large<T>(
    pixels: Seq<T>,
    width: u32,
    height: u32,
    color: T,
    shape: spec_fn(int, int) -> bool,
)
    requires
        width > i32::MAX || height > i32::MAX,
    ensures
        painted(pixels, signed_frame(width, height), color, shape) == pixels,
{
    lemma_painted_same(
        pixels,
        signed_frame(width, height),
        color,
        shape,
        |x: int, y: int| false,
    );
    lemma_painted_nothing(pixels, signed_frame(width, height), color, |x: int, y: int| false);
}

/// An index is the start of its row and the column in it.
pub proof fn lemma_index_parts(index: int, width: int)
    requires
        width > 0,
        0 <= index,
    ensures
        0 <= index % width < width,
        0 <= index / width,
        index == (index / width) * width + index % width,
{
    lemma_fundamental_div_mod(index, width);
    assert(0 <= index % width < width && 0 <= index / width) by (nonlinear_arith)
        requires
            width > 0,
            0 <= index,
    ;
    assert(width * (index / width) == (index / width) * width) by (nonlinear_arith);
}

// ---------------------------------------------------------------------------------------------
// Points and brushes
// ---------------------------------------------------------------------------------------------

/// A single point.
pub open spec fn dot(x: int, y: int) -> spec_fn(int, int) -> bool {
    |px: int, py: int| px == x && py == y
}

/// Whether a point stands in the square of the given radius around another one.
pub open spec fn near(x: int, y: int, radius: int, px: int, py: int) -> bool {
    x - radius <= px <= x + radius && y - radius <= py <= y + radius
}

/// The square of the given radius around a point.
pub open spec fn square(x: int, y: int, radius: int) -> spec_fn(int, int) -> bool {
    |px: int, py: int| near(x, y, radius, px, py)
}

/// How far a brush of the given thickness reaches around a point.
pub open spec fn brush_radius(thickness: int) -> int {
    max_int(thickness / 2, 0)
}

/// The part of the square that a brush has covered: the rows above `row`, and in that row the
/// columns before `column`.
spec fn square_part(x: int, y: int, radius: int, row: int, column: int) -> spec_fn(
    int,
    int,
) -> bool {
    |px: int, py: int|
        near(x, y, radius, px, py) && (py < row || (py == row && px < column))
}

/// Whether a point is near enough to be drawn: every point with 32-bit coordinates is, and so is
/// what stands within as much around it.
pub open spec fn in_reach(point: (i64, i64)) -> bool {
    &&& -0x2_0000_0000 <= point.0 <= 0x2_0000_0000
    &&& -0x2_0000_0000 <= point.1 <= 0x2_0000_0000
}

/// Sets the pixel at a point, if the point can be drawn on.
pub fn put_pixel<T: Copy>(pixels: &mut [T], width: u32, height: u32, x: i64, y: i64, color: T)
    ensures
        final(pixels)@ == painted(
            old(pixels)@,
            signed_frame(width, height),
            color,
            dot(x as int, y as int),
        ),
{
    let ghost before = pixels@;
    let ghost frame = signed_frame(width, height);
    let ghost shape = dot(x as int, y as int);
    if x < 0 || y < 0 || width > 0x7fff_ffff || height > 0x7fff_ffff || x >= width as i64 || y
        >= height as i64 {
        proof {
            lemma_painted_nothing(before, frame, color, shape);
        }
        return ;
    }
    assert(0 <= y * width <= 0x7fff_ffff * 0x7fff_ffff) by (nonlinear_arith)
        requires
            0 <= y <= 0x7fff_ffff,
            0 <= width <= 0x7fff_ffff,
    ;
    let index: u64 = y as u64 * width as u64 + x as u64;
    if index < pixels.len() as u64 {
        pixels[index as usize] = color;
    }
    proof {
        assert forall|i: int| 0 <= i < before.len() implies covers(frame, shape, i) == (i == index) by {
            lemma_index_parts(i, width as int);
            lemma_row_position(y as int, width as int, x as int);
        }
        assert(pixels@ =~= painted(before, frame, color, shape));
    }
}

/// Paints the square around a point that a brush of the given thickness covers.
pub fn put_brush<T: Copy>(
    pixels: &mut [T],
    width: u32,
    height: u32,
    x: i64,
    y: i64,
    color: T,
    thickness: i32,
)
    requires
        -0x100_0000_0000 <= x <= 0x100_0000_0000,
        -0x100_0000_0000 <= y <= 0x100_0000_0000,
    ensures
        final(pixels)@ == painted(
            old(pixels)@,
            signed_frame(width, height),
            color,
            square(x as int, y as int, brush_radius(thickness as int)),
        ),
{
    let ghost before = pixels@;
    let ghost frame = signed_frame(width, height);
    let radius: i64 = if thickness > 0 {
        (thickness / 2) as i64
    } else {
        0
    };
    let ghost (cx, cy, r) = (x as int, y as int, radius as int);
    let mut row: i64 = y - radius;
    proof {
        lemma_painted_nothing(before, frame, color, square_part(cx, cy, r, row as int, cx - r));
    }
    while row <= y + radius
        invariant
            0 <= radius <= 0x4000_0000,
            -0x100_0000_0000 <= x <= 0x100_0000_0000,
            -0x100_0000_0000 <= y <= 0x100_0000_0000,
            y - radius <= row <= y + radius + 1,
            cx == x && cy == y && r == radius,
            frame == signed_frame(width, height),
            pixels@ == painted(before, frame, color, square_part(cx, cy, r, row as int, cx - r)),
        decreases y + radius + 1 - row,
    {
        let mut column: i64 = x - radius;
        while column <= x + radius
            invariant
                0 <= radius <= 0x4000_0000,
                -0x100_0000_0000 <= x <= 0x100_0000_0000,
                -0x100_0000_0000 <= y <= 0x100_0000_0000,
                y - radius <= row <= y + radius,
                x - radius <= column <= x + radius + 1,
                cx == x && cy == y && r == radius,
                frame == signed_frame(width, height),
                pixels@ == painted(
                    before,
                    frame,
                    color,
                    square_part(cx, cy, r, row as int, column as int),
                ),
            decreases x + radius + 1 - column,
        {
            put_pixel(pixels, width, height, column, row, color);
            proof {
                lemma_painted_both(
                    before,
                    frame,
                    color,
                    square_part(cx, cy, r, row as int, column as int),
                    dot(column as int, row as int),
                    square_part(cx, cy, r, row as int, column + 1),
                );
            }
            column += 1;
        }
        row += 1;
        proof {
            lemma_painted_same(
                before,
                frame,
                color,
                square_part(cx, cy, r, row - 1, column as int),
                square_part(cx, cy, r, row as int, cx - r),
            );
        }
    }
    proof {
        lemma_painted_same(
            before,
            frame,
            color,
            square_part(cx, cy, r, row as int, cx - r),
            square(cx, cy, r),
        );
    }
}

// ---------------------------------------------------------------------------------------------
// Lines
// ---------------------------------------------------------------------------------------------

/// The number of steps from one point to another, each to a neighbour or a diagonal neighbour.
pub open spec fn line_steps(x0: int, y0: int, x1: int, y1: int) -> int {
    max_int(abs_int(x1 - x0), abs_int(y1 - y0))
}

/// How far a line of `steps` steps has come, after `k` of them, along an axis on which it is
/// `length` long: the exact share, rounded to the nearest number, halves upwards.
pub open spec fn line_progress(k: int, length: int, steps: int) -> int {
    if steps == 0 {
        0
    } else {
        (2 * k * length + steps) / (2 * steps)
    }
}

/// The coordinate that stands `distance` away from `from` in the direction of `to`.
pub open spec fn towards(from: int, to: int, distance: int) -> int {
    if from <= to {
        from + distance
    } else {
        from - distance
    }
}

/// The column of the line after `k` steps.
pub open spec fn line_x(x0: int, y0: int, x1: int, y1: int, k: int) -> int {
    towards(x0, x1, line_progress(k, abs_int(x1 - x0), line_steps(x0, y0, x1, y1)))
}

/// The row of the line after `k` steps.
pub open spec fn line_y(x0: int, y0: int, x1: int, y1: int, k: int) -> int {
    towards(y0, y1, line_progress(k, abs_int(y1 - y0), line_steps(x0, y0, x1, y1)))
}

/// Whether a brush covers a point when it stands where the line is after `k` steps.
pub open spec fn brushed(
    x0: int,
    y0: int,
    x1: int,
    y1: int,
    radius: int,
    k: int,
    px: int,
    py: int,
) -> bool {
    near(line_x(x0, y0, x1, y1, k), line_y(x0, y0, x1, y1, k), radius, px, py)
}

/// Whether a brush of the given radius covers a point on its way along a line.
pub open spec fn stroke_covers(
    x0: int,
    y0: int,
    x1: int,
    y1: int,
    radius: int,
    px: int,
    py: int,
) -> bool {
    exists|k: int|
        0 <= k <= line_steps(x0, y0, x1, y1) && #[trigger] brushed(
            x0,
            y0,
            x1,
            y1,
            radius,
            k,
            px,
            py,
        )
}

/// The points that a brush of the given radius covers on its way along a line.
pub open spec fn stroke(x0: int, y0: int, x1: int, y1: int, radius: int) -> spec_fn(
    int,
    int,
) -> bool {
    |px: int, py: int| stroke_covers(x0, y0, x1, y1, radius, px, py)
}

/// The points that the brush has covered before it takes step `count`.
spec fn stroke_part(x0: int, y0: int, x1: int, y1: int, radius: int, count: int) -> spec_fn(
    int,
    int,
) -> bool {
    |px: int, py: int|
        exists|k: int|
            0 <= k < count && #[trigger] brushed(x0, y0, x1, y1, radius, k, px, py)
}

/// The progress along an axis is bounded by the exact share and grows by one or stays.
proof fn lemma_line_progress(k: int, length: int, steps: int)
    requires
        steps >= 1,
        0 <= length <= steps,
        0 <= k,
    ensures
        ({
            let i = line_progress(k, length, steps);
            let next = line_progress(k + 1, length, steps);
            &&& 2 * (steps * i) <= 2 * (k * length) + steps < 2 * (steps * i) + 2 * steps
            &&& 0 <= i <= k
            &&& next == if 2 * (k * length) + 2 * length >= 2 * (steps * i) + steps {
                i + 1
            } else {
                i
            }
        }),
{
    let i = line_progress(k, length, steps);
    let share = 2 * k * length + steps;
    assert(share == 2 * (k * length) + steps) by (nonlinear_arith)
        requires
            share == 2 * k * length + steps,
    ;
    lemma_fundamental_div_mod(share, 2 * steps);
    assert(2 * steps * i == 2 * (steps * i)) by (nonlinear_arith);
    assert(0 <= share % (2 * steps) < 2 * steps);
    let next_share = 2 * (k + 1) * length + steps;
    assert(next_share == share + 2 * length) by (nonlinear_arith)
        requires
            next_share == 2 * (k + 1) * length + steps,
            share == 2 * k * length + steps,
    ;
    let grown = if 2 * (k * length) + 2 * length >= 2 * (steps * i) + steps {
        i + 1
    } else {
        i
    };
    assert(steps * (i + 1) == steps * i + steps) by (nonlinear_arith);
    assert(2 * steps * grown == 2 * (steps * grown)) by (nonlinear_arith);
    assert(grown * (2 * steps) == 2 * steps * grown) by (nonlinear_arith);
    lemma_fundamental_div_mod_converse(
        next_share,
        2 * steps,
        grown,
        next_share - 2 * (steps * grown),
    );
    assert(0 <= k * length <= k * steps) by (nonlinear_arith)
        requires
            0 <= length <= steps,
            0 <= k,
    ;
    assert(0 <= i <= k) by (nonlinear_arith)
        requires
            steps >= 1,
            0 <= k * length <= k * steps,
            2 * (steps * i) <= 2 * (k * length) + steps < 2 * (steps * i) + 2 * steps,
    ;
}

/// Along the longer axis the line moves with every step.
proof fn lemma_line_progress_full(k: int, steps: int)
    requires
        steps >= 1,
        0 <= k,
    ensures
        line_progress(k, steps, steps) == k,
{
    assert(2 * k * steps + steps == k * (2 * steps) + steps) by (nonlinear_arith);
    lemma_fundamental_div_mod_converse(2 * k * steps + steps, 2 * steps, k, steps);
}

/// After all of its steps the line has come its whole length.
proof fn lemma_line_progress_end(length: int, steps: int)
    requires
        steps >= 1,
        0 <= length <= steps,
    ensures
        line_progress(steps, length, steps) == length,
{
    assert(2 * steps * length + steps == length * (2 * steps) + steps) by (nonlinear_arith);
    lemma_fundamental_div_mod_converse(2 * steps * length + steps, 2 * steps, length, steps);
}

/// Before its first step the line has not moved.
proof fn lemma_line_progress_start(length: int, steps: int)
    requires
        steps >= 1,
    ensures
        line_progress(0, length, steps) == 0,
{
    assert(2 * 0 * length + steps == 0 * (2 * steps) + steps) by (nonlinear_arith);
    lemma_fundamental_div_mod_converse(2 * 0 * length + steps, 2 * steps, 0, steps);
}

/// Draws a line with a brush: one step after the other, steered by the error that has built up.
pub fn draw_line<T: Copy>(
    pixels: &mut [T],
    width: u32,
    height: u32,
    from: (i64, i64),
    to: (i64, i64),
    color: T,
    thickness: i32,
)
    requires
        in_reach(from),
        in_reach(to),
    ensures
        final(pixels)@ == painted(
            old(pixels)@,
            signed_frame(width, height),
            color,
            stroke(
                from.0 as int,
                from.1 as int,
                to.0 as int,
                to.1 as int,
                brush_radius(thickness as int),
            ),
        ),
{
    let ghost before = pixels@;
    let ghost frame = signed_frame(width, height);
    let ghost (ax, ay, bx, by) = (from.0 as int, from.1 as int, to.0 as int, to.1 as int);
    let ghost radius = brush_radius(thickness as int);
    let ghost steps = line_steps(ax, ay, bx, by);
    let mut x: i64 = from.0;
    let mut y: i64 = from.1;
    let x1: i64 = to.0;
    let y1: i64 = to.1;
    let dx: i64 = abs_i64(x1 - x);
    let sx: i64 = if x < x1 {
        1
    } else {
        -1
    };
    let dy: i64 = -abs_i64(y1 - y);
    let sy: i64 = if y < y1 {
        1
    } else {
        -1
    };
    let mut error: i64 = dx + dy;
    let ghost a = dx as int;
    let ghost b = -dy;
    let ghost mut k: int = 0;
    proof {
        if steps >= 1 {
            lemma_line_progress_start(a, steps);
            lemma_line_progress_start(b, steps);
        }
        assert(b * line_progress(0, a, steps) == 0 && a * line_progress(0, b, steps) == 0)
            by (nonlinear_arith)
            requires
                line_progress(0, a, steps) == 0,
                line_progress(0, b, steps) == 0,
        ;
        lemma_painted_nothing(before, frame, color, stroke_part(ax, ay, bx, by, radius, 0));
    }
    loop
        invariant_except_break
            pixels@ == painted(
                before,
                frame,
                color,
                stroke_part(ax, ay, bx, by, radius, k),
            ),
        invariant
            ax == from.0 && ay == from.1 && bx == to.0 && by == to.1,
            in_reach(from),
            in_reach(to),
            x1 == to.0 && y1 == to.1,
            radius == brush_radius(thickness as int),
                frame == signed_frame(width, height),
            steps == line_steps(ax, ay, bx, by),
            a == dx == abs_int(bx - ax),
            b == -dy == abs_int(by - ay),
            sx == if ax < bx {
                1int
            } else {
                -1
            },
            sy == if ay < by {
                1int
            } else {
                -1
            },
            0 <= k <= steps,
            x == line_x(ax, ay, bx, by, k),
            y == line_y(ax, ay, bx, by, k),
            error == a - b - b * line_progress(k, a, steps) + a * line_progress(k, b, steps),
        ensures
            pixels@ == painted(
                before,
                frame,
                color,
                stroke_part(ax, ay, bx, by, radius, steps + 1),
            ),
        decreases steps - k,
    {
        let ghost i = line_progress(k, a, steps);
        let ghost j = line_progress(k, b, steps);
        proof {
            if steps >= 1 {
                lemma_line_progress(k, a, steps);
                lemma_line_progress(k, b, steps);
                if a == steps {
                    lemma_line_progress_full(k, steps);
                }
                if b == steps {
                    lemma_line_progress_full(k, steps);
                }
            }
        }
        put_brush(pixels, width, height, x, y, color, thickness);
        proof {
            assert forall|px: int, py: int| #[trigger]
                stroke_part(ax, ay, bx, by, radius, k + 1)(px, py) == (stroke_part(
                ax,
                ay,
                bx,
                by,
                radius,
                k,
            )(px, py) || square(x as int, y as int, radius)(px, py)) by {
                if square(x as int, y as int, radius)(px, py) {
                    assert(brushed(ax, ay, bx, by, radius, k, px, py));
                }
            }
            lemma_painted_both(
                before,
                frame,
                color,
                stroke_part(ax, ay, bx, by, radius, k),
                square(x as int, y as int, radius),
                stroke_part(ax, ay, bx, by, radius, k + 1),
            );
        }
        if x == x1 && y == y1 {
            assert(k == steps);
            break;
        }
        proof {
            if k == steps && steps >= 1 {
                lemma_line_progress_end(a, steps);
                lemma_line_progress_end(b, steps);
            }
            assert(k < steps);
            lemma_error_bounds(k, a, b, steps);
            assert(b * (i + 1) == b * i + b && a * (j + 1) == a * j + a) by (nonlinear_arith);
        }
        let doubled: i64 = 2 * error;
        if doubled >= dy {
            error = error + dy;
            x = x + sx;
        }
        if doubled <= dx {
            error = error + dx;
            y = y + sy;
        }
        proof {
            k = k + 1;
        }
    }
    proof {
        assert forall|px: int, py: int| #[trigger]
            stroke_part(ax, ay, bx, by, radius, steps + 1)(px, py) == stroke(
            ax,
            ay,
            bx,
            by,
            radius,
        )(px, py) by {}
        lemma_painted_same(
            before,
            frame,
            color,
            stroke_part(ax, ay, bx, by, radius, steps + 1),
            stroke(ax, ay, bx, by, radius),
        );
    }
}

/// The error steers the line along both axes: it moves along an axis exactly when the progress
/// there grows.
proof fn lemma_error_bounds(k: int, a: int, b: int, steps: int)
    requires
        steps >= 1,
        0 <= a <= steps,
        0 <= b <= steps,
        a == steps || b == steps,
        0 <= k < steps,
        steps <= 0x4_0000_0000,
    ensures
        ({
            let i = line_progress(k, a, steps);
            let j = line_progress(k, b, steps);
            let error = a - b - b * i + a * j;
            &&& -0x100_0000_0000 <= error <= 0x100_0000_0000
            &&& line_progress(k + 1, a, steps) == if 2 * error >= -b {
                i + 1
            } else {
                i
            }
            &&& line_progress(k + 1, b, steps) == if 2 * error <= a {
                j + 1
            } else {
                j
            }
        }),
{
    let i = line_progress(k, a, steps);
    let j = line_progress(k, b, steps);
    lemma_line_progress(k, a, steps);
    lemma_line_progress(k, b, steps);
    if a == steps {
        lemma_line_progress_full(k, steps);
        lemma_line_progress_full(k + 1, steps);
        assert(b * i == k * b) by (nonlinear_arith)
            requires
                i == k,
        ;
        assert(a * j == steps * j);
    } else {
        lemma_line_progress_full(k, steps);
        lemma_line_progress_full(k + 1, steps);
        assert(a * j == k * a) by (nonlinear_arith)
            requires
                j == k,
        ;
        assert(b * i == steps * i);
    }
}

/// A line starts at one of its ends and comes to the other.
pub proof fn law_line_joins_its_ends(x0: int, y0: int, x1: int, y1: int)
    ensures
        line_x(x0, y0, x1, y1, 0) == x0,
        line_y(x0, y0, x1, y1, 0) == y0,
        line_x(x0, y0, x1, y1, line_steps(x0, y0, x1, y1)) == x1,
        line_y(x0, y0, x1, y1, line_steps(x0, y0, x1, y1)) == y1,
{
    let steps = line_steps(x0, y0, x1, y1);
    if steps >= 1 {
        lemma_line_progress_start(abs_int(x1 - x0), steps);
        lemma_line_progress_start(abs_int(y1 - y0), steps);
        lemma_line_progress_end(abs_int(x1 - x0), steps);
        lemma_line_progress_end(abs_int(y1 - y0), steps);
    }
}

/// A line has no gap: from one step to the next it moves by at most one along each axis.
pub proof fn law_line_has_no_gap(x0: int, y0: int, x1: int, y1: int, k: int)
    requires
        0 <= k < line_steps(x0, y0, x1, y1),
    ensures
        near(
            line_x(x0, y0, x1, y1, k),
            line_y(x0, y0, x1, y1, k),
            1,
            line_x(x0, y0, x1, y1, k + 1),
            line_y(x0, y0, x1, y1, k + 1),
        ),
{
    let steps = line_steps(x0, y0, x1, y1);
    lemma_line_progress(k, abs_int(x1 - x0), steps);
    lemma_line_progress(k, abs_int(y1 - y0), steps);
}

/// A line keeps to the straight way between its ends: it has as many steps as its longer side is
/// long, and after each of them it is no more than half a pixel away, along either axis, from the
/// point that divides the way in the same proportion.
pub proof fn law_line_keeps_to_the_straight_way(x0: int, y0: int, x1: int, y1: int, k: int)
    requires
        0 <= k <= line_steps(x0, y0, x1, y1),
    ensures
        ({
            let steps = line_steps(x0, y0, x1, y1);
            let x = line_x(x0, y0, x1, y1, k);
            let y = line_y(x0, y0, x1, y1, k);
            &&& -steps <= x1 - x0 <= steps && -steps <= y1 - y0 <= steps
            &&& steps == x1 - x0 || steps == x0 - x1 || steps == y1 - y0 || steps == y0 - y1
            &&& -steps <= 2 * (steps * (x - x0)) - 2 * (k * (x1 - x0)) <= steps
            &&& -steps <= 2 * (steps * (y - y0)) - 2 * (k * (y1 - y0)) <= steps
            &&& (x0 <= x <= x1 || x1 <= x <= x0) && (y0 <= y <= y1 || y1 <= y <= y0)
        }),
{
    let steps = line_steps(x0, y0, x1, y1);
    if steps >= 1 {
        lemma_line_offset(x0, x1, k, steps);
        lemma_line_offset(y0, y1, k, steps);
    } else {
        assert(steps == 0 && k == 0);
        assert(0 * 0 == 0) by (nonlinear_arith);
    }
}

proof fn lemma_line_offset(from: int, to: int, k: int, steps: int)
    requires
        steps >= 1,
        0 <= k <= steps,
        -steps <= to - from <= steps,
    ensures
        ({
            let at = towards(from, to, line_progress(k, abs_int(to - from), steps));
            &&& -steps <= 2 * (steps * (at - from)) - 2 * (k * (to - from)) <= steps
            &&& from <= at <= to || to <= at <= from
        }),
{
    let length = abs_int(to - from);
    let i = line_progress(k, length, steps);
    lemma_line_progress(k, length, steps);
    assert(steps * (-i) == -(steps * i) && k * (-length) == -(k * length)) by (nonlinear_arith);
    assert(i <= length) by (nonlinear_arith)
        requires
            steps >= 1,
            0 <= length,
            0 <= k <= steps,
            2 * (steps * i) <= 2 * (k * length) + steps,
    ;
}

/// A brush covers the square around each point of its line.
pub proof fn law_stroke_covers_its_line(
    x0: int,
    y0: int,
    x1: int,
    y1: int,
    radius: int,
    k: int,
    px: int,
    py: int,
)
    requires
        0 <= k <= line_steps(x0, y0, x1, y1),
        -radius <= px - line_x(x0, y0, x1, y1, k) <= radius,
        -radius <= py - line_y(x0, y0, x1, y1, k) <= radius,
    ensures
        stroke(x0, y0, x1, y1, radius)(px, py),
{
    assert(brushed(x0, y0, x1, y1, radius, k, px, py));
}

/// A brush covers both ends of its line, and nothing further than its radius outside the rectangle
/// between them.
pub proof fn law_stroke_reaches_from_end_to_end(
    x0: int,
    y0: int,
    x1: int,
    y1: int,
    radius: int,
    px: int,
    py: int,
)
    requires
        0 <= radius,
    ensures
        stroke(x0, y0, x1, y1, radius)(x0, y0),
        stroke(x0, y0, x1, y1, radius)(x1, y1),
        stroke(x0, y0, x1, y1, radius)(px, py) ==> {
            &&& x0 - radius <= px || x1 - radius <= px
            &&& px <= x0 + radius || px <= x1 + radius
            &&& y0 - radius <= py || y1 - radius <= py
            &&& py <= y0 + radius || py <= y1 + radius
        },
{
    let steps = line_steps(x0, y0, x1, y1);
    law_line_joins_its_ends(x0, y0, x1, y1);
    assert(brushed(x0, y0, x1, y1, radius, 0, x0, y0));
    assert(brushed(x0, y0, x1, y1, radius, steps, x1, y1));
    if stroke(x0, y0, x1, y1, radius)(px, py) {
        let k = choose|k: int|
            0 <= k <= steps && #[trigger] brushed(x0, y0, x1, y1, radius, k, px, py);
        law_line_keeps_to_the_straight_way(x0, y0, x1, y1, k);
    }
}

/// A brush that goes along a row covers a rectangle.
pub proof fn law_horizontal_stroke_is_a_rectangle(x0: int, x1: int, y: int, radius: int)
    requires
        x0 <= x1,
        0 <= radius,
    ensures
        forall|px: int, py: int| #[trigger]
            stroke(x0, y, x1, y, radius)(px, py) == (x0 - radius <= px <= x1 + radius && y - radius
                <= py <= y + radius),
{
    let steps = x1 - x0;
    assert forall|k: int| 0 <= k <= steps implies line_x(x0, y, x1, y, k) == x0 + k && line_y(
        x0,
        y,
        x1,
        y,
        k,
    ) == y by {
        if steps >= 1 {
            lemma_line_progress_full(k, steps);
            lemma_line_progress(k, 0, steps);
            lemma_no_progress(k, steps);
        }
    }
    assert forall|px: int, py: int|
        x0 - radius <= px <= x1 + radius && y - radius <= py <= y + radius implies #[trigger] stroke(
        x0,
        y,
        x1,
        y,
        radius,
    )(px, py) by {
        let k = if px < x0 {
            0
        } else if px > x1 {
            steps
        } else {
            px - x0
        };
        assert(line_x(x0, y, x1, y, k) == x0 + k);
        assert(brushed(x0, y, x1, y, radius, k, px, py));
    }
    assert forall|px: int, py: int| #[trigger] stroke(x0, y, x1, y, radius)(px, py) implies x0
        - radius <= px <= x1 + radius && y - radius <= py <= y + radius by {
        let k = choose|k: int|
            0 <= k <= line_steps(x0, y, x1, y) && #[trigger] brushed(
                x0,
                y,
                x1,
                y,
                radius,
                k,
                px,
                py,
            );
        assert(line_x(x0, y, x1, y, k) == x0 + k);
    }
}

/// A brush that goes along a column covers a rectangle.
pub proof fn law_vertical_stroke_is_a_rectangle(x: int, y0: int, y1: int, radius: int)
    requires
        y0 <= y1,
        0 <= radius,
    ensures
        forall|px: int, py: int| #[trigger]
            stroke(x, y0, x, y1, radius)(px, py) == (x - radius <= px <= x + radius && y0 - radius
                <= py <= y1 + radius),
{
    let steps = y1 - y0;
    assert forall|k: int| 0 <= k <= steps implies line_x(x, y0, x, y1, k) == x && line_y(
        x,
        y0,
        x,
        y1,
        k,
    ) == y0 + k by {
        if steps >= 1 {
            lemma_line_progress_full(k, steps);
            lemma_no_progress(k, steps);
        }
    }
    assert forall|px: int, py: int|
        x - radius <= px <= x + radius && y0 - radius <= py <= y1 + radius implies #[trigger] stroke(
        x,
        y0,
        x,
        y1,
        radius,
    )(px, py) by {
        let k = if py < y0 {
            0
        } else if py > y1 {
            steps
        } else {
            py - y0
        };
        assert(line_x(x, y0, x, y1, k) == x);
        assert(brushed(x, y0, x, y1, radius, k, px, py));
    }
    assert forall|px: int, py: int| #[trigger] stroke(x, y0, x, y1, radius)(px, py) implies x
        - radius <= px <= x + radius && y0 - radius <= py <= y1 + radius by {
        let k = choose|k: int|
            0 <= k <= line_steps(x, y0, x, y1) && #[trigger] brushed(
                x,
                y0,
                x,
                y1,
                radius,
                k,
                px,
                py,
            );
        assert(line_x(x, y0, x, y1, k) == x);
    }
}

/// Along an axis on which a line has no length it does not move.
proof fn lemma_no_progress(k: int, steps: int)
    requires
        steps >= 1,
    ensures
        line_progress(k, 0, steps) == 0,
{
    assert(2 * k * 0 + steps == 0 * (2 * steps) + steps) by (nonlinear_arith);
    lemma_fundamental_div_mod_converse(2 * k * 0 + steps, 2 * steps, 0, steps);
}

// ---------------------------------------------------------------------------------------------
// Circles
// ---------------------------------------------------------------------------------------------

/// The square of the distance between two points.
pub open spec fn distance_squared(x: int, y: int, px: int, py: int) -> int {
    (px - x) * (px - x) + (py - y) * (py - y)
}

/// The points whose distance from a centre lies between two bounds.
pub open spec fn ring(x: int, y: int, inner: int, outer: int) -> spec_fn(int, int) -> bool {
    |px: int, py: int|
        inner * inner <= distance_squared(x, y, px, py) <= outer * outer
}

/// The part of a ring that stands above a row or, in that row, before a column.
spec fn ring_part(x: int, y: int, inner: int, outer: int, row: int, column: int) -> spec_fn(
    int,
    int,
) -> bool {
    |px: int, py: int|
        near(x, y, outer, px, py) && (py < row || (py == row && px < column)) && inner * inner
            <= distance_squared(x, y, px, py) <= outer * outer
}

/// A point no further from a centre than the radius stands in the square around it.
proof fn lemma_disk_in_square(x: int, y: int, radius: int, px: int, py: int)
    requires
        0 <= radius,
        distance_squared(x, y, px, py) <= radius * radius,
    ensures
        near(x, y, radius, px, py),
{
    let dx = px - x;
    let dy = py - y;
    assert(-radius <= dx <= radius) by (nonlinear_arith)
        requires
            0 <= radius,
            dx * dx + dy * dy <= radius * radius,
    ;
    assert(-radius <= dy <= radius) by (nonlinear_arith)
        requires
            0 <= radius,
            dx * dx + dy * dy <= radius * radius,
    ;
}

/// Paints the points whose distance from a centre lies between `inner` and `radius`.
fn fill_ring<T: Copy>(
    pixels: &mut [T],
    width: u32,
    height: u32,
    center: (i64, i64),
    inner: i32,
    radius: i32,
    color: T,
)
    requires
        in_reach(center),
        0 <= radius <= 0x7fff,
        -1 <= inner <= radius,
    ensures
        final(pixels)@ == painted(
            old(pixels)@,
            signed_frame(width, height),
            color,
            ring(center.0 as int, center.1 as int, inner as int, radius as int),
        ),
{
    let ghost before = pixels@;
    let ghost frame = signed_frame(width, height);
    let ghost (cx, cy, low, high) = (
        center.0 as int,
        center.1 as int,
        inner as int,
        radius as int,
    );
    let x: i64 = center.0;
    let y: i64 = center.1;
    let r: i64 = radius as i64;
    assert(0 <= inner * inner <= 0x7fff * 0x7fff && 0 <= radius * radius <= 0x7fff * 0x7fff)
        by (nonlinear_arith)
        requires
            0 <= radius <= 0x7fff,
            -1 <= inner <= radius,
    ;
    let inner_squared: i64 = inner as i64 * inner as i64;
    let outer_squared: i64 = r * r;
    let mut row: i64 = y - r;
    proof {
        lemma_painted_nothing(
            before,
            frame,
            color,
            ring_part(cx, cy, low, high, row as int, cx - high),
        );
    }
    while row <= y + r
        invariant
            cx == center.0 && cy == center.1 && low == inner && high == radius,
            x == cx && y == cy && r == high,
            in_reach(center),
            0 <= r <= 0x7fff,
            inner_squared == low * low,
            outer_squared == high * high,
            y - r <= row <= y + r + 1,
            frame == signed_frame(width, height),
            pixels@ == painted(
                before,
                frame,
                color,
                ring_part(cx, cy, low, high, row as int, cx - high),
            ),
        decreases y + r + 1 - row,
    {
        let mut column: i64 = x - r;
        while column <= x + r
            invariant
                cx == center.0 && cy == center.1 && low == inner && high == radius,
                x == cx && y == cy && r == high,
                in_reach(center),
                0 <= r <= 0x7fff,
                inner_squared == low * low,
                outer_squared == high * high,
                y - r <= row <= y + r,
                x - r <= column <= x + r + 1,
                frame == signed_frame(width, height),
                pixels@ == painted(
                    before,
                    frame,
                    color,
                    ring_part(cx, cy, low, high, row as int, column as int),
                ),
            decreases x + r + 1 - column,
        {
            let dx: i64 = column - x;
            let dy: i64 = row - y;
            assert(0 <= dx * dx <= 0x7fff * 0x7fff && 0 <= dy * dy <= 0x7fff * 0x7fff)
                by (nonlinear_arith)
                requires
                    -0x7fff <= dx <= 0x7fff,
                    -0x7fff <= dy <= 0x7fff,
            ;
            let distance: i64 = dx * dx + dy * dy;
            assert(distance == distance_squared(cx, cy, column as int, row as int));
            if distance >= inner_squared && distance <= outer_squared {
                put_pixel(pixels, width, height, column, row, color);
                proof {
                    lemma_painted_both(
                        before,
                        frame,
                        color,
                        ring_part(cx, cy, low, high, row as int, column as int),
                        dot(column as int, row as int),
                        ring_part(cx, cy, low, high, row as int, column + 1),
                    );
                }
            } else {
                proof {
                    lemma_painted_same(
                        before,
                        frame,
                        color,
                        ring_part(cx, cy, low, high, row as int, column as int),
                        ring_part(cx, cy, low, high, row as int, column + 1),
                    );
                }
            }
            column += 1;
        }
        row += 1;
        proof {
            lemma_painted_same(
                before,
                frame,
                color,
                ring_part(cx, cy, low, high, row - 1, column as int),
                ring_part(cx, cy, low, high, row as int, cx - high),
            );
        }
    }
    proof {
        assert forall|px: int, py: int| #[trigger]
            ring_part(cx, cy, low, high, row as int, cx - high)(px, py) == ring(
            cx,
            cy,
            low,
            high,
        )(px, py) by {
            if ring(cx, cy, low, high)(px, py) {
                lemma_disk_in_square(cx, cy, high, px, py);
            }
        }
        lemma_painted_same(
            before,
            frame,
            color,
            ring_part(cx, cy, low, high, row as int, cx - high),
            ring(cx, cy, low, high),
        );
    }
}

/// The points no further from a centre than a radius.
pub open spec fn disk(x: int, y: int, radius: int) -> spec_fn(int, int) -> bool {
    |px: int, py: int| distance_squared(x, y, px, py) <= radius * radius
}

/// Paints a filled circle.
pub fn fill_circle<T: Copy>(
    pixels: &mut [T],
    width: u32,
    height: u32,
    center: (i64, i64),
    radius: i32,
    color: T,
)
    requires
        in_reach(center),
        0 <= radius <= 0x7fff,
    ensures
        final(pixels)@ == painted(
            old(pixels)@,
            signed_frame(width, height),
            color,
            disk(center.0 as int, center.1 as int, radius as int),
        ),
{
    let ghost (cx, cy, r) = (center.0 as int, center.1 as int, radius as int);
    proof {
        assert forall|px: int, py: int| #[trigger] ring(cx, cy, 0, r)(px, py) == disk(
            cx,
            cy,
            r,
        )(px, py) by {
            let dx = px - cx;
            let dy = py - cy;
            assert(dx * dx + dy * dy >= 0) by (nonlinear_arith);
            assert(0int * 0int == 0) by (nonlinear_arith);
        }
        lemma_painted_same(
            pixels@,
            signed_frame(width, height),
            color,
            ring(cx, cy, 0, r),
            disk(cx, cy, r),
        );
    }
    fill_ring(pixels, width, height, center, 0, radius, color);
}

/// Paints the outer ring, one pixel wide, of a circle.
pub fn draw_circle_outline<T: Copy>(
    pixels: &mut [T],
    width: u32,
    height: u32,
    center: (i64, i64),
    radius: i32,
    color: T,
)
    requires
        in_reach(center),
        0 <= radius <= 0x7fff,
    ensures
        final(pixels)@ == painted(
            old(pixels)@,
            signed_frame(width, height),
            color,
            ring(center.0 as int, center.1 as int, radius - 1, radius as int),
        ),
{
    fill_ring(pixels, width, height, center, radius - 1, radius, color);
}

// ---------------------------------------------------------------------------------------------
// Numbers
// ---------------------------------------------------------------------------------------------

/// Whether a segment of a seven-segment digit is lit. The segments are, from 0 to 6: the top, the
/// upper right, the lower right, the bottom, the lower left, the upper left and the middle one.
pub open spec fn segment_lit(digit: int, segment: int) -> bool {
    if segment == 0 {
        digit != 1 && digit != 4
    } else if segment == 1 {
        digit != 5 && digit != 6
    } else if segment == 2 {
        digit != 2
    } else if segment == 3 {
        digit != 1 && digit != 4 && digit != 7
    } else if segment == 4 {
        digit == 0 || digit == 2 || digit == 6 || digit == 8
    } else if segment == 5 {
        digit != 1 && digit != 2 && digit != 3 && digit != 7
    } else {
        digit != 0 && digit != 1 && digit != 7
    }
}

/// The ends of a segment, in a digit that is four wide and ten high.
pub open spec fn segment_ends(segment: int) -> ((int, int), (int, int)) {
    if segment == 0 {
        ((0, 0), (4, 0))
    } else if segment == 1 {
        ((4, 0), (4, 5))
    } else if segment == 2 {
        ((4, 5), (4, 10))
    } else if segment == 3 {
        ((0, 10), (4, 10))
    } else if segment == 4 {
        ((0, 5), (0, 10))
    } else if segment == 5 {
        ((0, 0), (0, 5))
    } else {
        ((0, 5), (4, 5))
    }
}

/// The digits are built from one another as on any seven-segment display: 8 lights every segment, 0
/// leaves out the middle one, 6 and 9 leave out one on the right or on the left, and the others
/// follow from these. So no two digits look alike.
pub proof fn law_digits_are_told_apart(segment: int, a: int, b: int)
    requires
        0 <= segment < 7,
        0 <= a < 10,
        0 <= b < 10,
        a != b,
    ensures
        segment_lit(8, segment),
        segment_lit(0, segment) <==> segment_lit(8, segment) && segment != 6,
        segment_lit(6, segment) <==> segment_lit(8, segment) && segment != 1,
        segment_lit(9, segment) <==> segment_lit(8, segment) && segment != 4,
        segment_lit(5, segment) <==> segment_lit(9, segment) && segment != 1,
        segment_lit(3, segment) <==> segment_lit(9, segment) && segment != 5,
        segment_lit(4, segment) <==> segment_lit(9, segment) && segment != 0 && segment != 3,
        segment_lit(7, segment) <==> segment_lit(3, segment) && segment != 3 && segment != 6,
        segment_lit(1, segment) <==> segment_lit(7, segment) && segment != 0,
        segment_lit(2, segment) <==> segment_lit(8, segment) && segment != 2 && segment != 5,
        exists|s: int| 0 <= s < 7 && #[trigger] segment_lit(a, s) != segment_lit(b, s),
{
    let differing = if segment_lit(a, 0) != segment_lit(b, 0) {
        0int
    } else if segment_lit(a, 1) != segment_lit(b, 1) {
        1int
    } else if segment_lit(a, 2) != segment_lit(b, 2) {
        2int
    } else if segment_lit(a, 3) != segment_lit(b, 3) {
        3int
    } else if segment_lit(a, 4) != segment_lit(b, 4) {
        4int
    } else if segment_lit(a, 5) != segment_lit(b, 5) {
        5int
    } else {
        6int
    };
    assert(segment_lit(a, differing) != segment_lit(b, differing));
}

/// The segments of a digit are the sides of two squares that stand on one another: the top, middle
/// and bottom ones lie across, and the others stand between them at the left and at the right.
pub proof fn law_segments_make_two_squares(segment: int)
    requires
        0 <= segment < 7,
    ensures
        ({
            let (start, end) = segment_ends(segment);
            let across = segment == 0 || segment == 3 || segment == 6;
            &&& across ==> start.0 == 0 && end.0 == 4 && start.1 == end.1
            &&& segment == 0 ==> start.1 == 0
            &&& segment == 6 ==> start.1 == 5
            &&& segment == 3 ==> start.1 == 10
            &&& !across ==> start.0 == end.0 && end.1 == start.1 + 5
            &&& segment == 1 || segment == 2 ==> start.0 == 4
            &&& segment == 4 || segment == 5 ==> start.0 == 0
            &&& segment == 1 || segment == 5 ==> start.1 == 0
            &&& segment == 2 || segment == 4 ==> start.1 == 5
        }),
{
}

/// Whether a brush covers a point when it draws a segment of a digit at a place.
pub open spec fn segment_covers(
    x: int,
    y: int,
    digit: int,
    radius: int,
    segment: int,
    px: int,
    py: int,
) -> bool {
    let (start, end) = segment_ends(segment);
    segment_lit(digit, segment) && stroke_covers(
        x + start.0,
        y + start.1,
        x + end.0,
        y + end.1,
        radius,
        px,
        py,
    )
}

/// Whether a brush covers a point when it draws a digit at a place.
pub open spec fn digit_covers(x: int, y: int, digit: int, radius: int, px: int, py: int) -> bool {
    exists|segment: int|
        0 <= segment < 7 && #[trigger] segment_covers(x, y, digit, radius, segment, px, py)
}

/// The points that a digit covers.
pub open spec fn digit_shape(x: int, y: int, digit: int, radius: int) -> spec_fn(int, int) -> bool {
    |px: int, py: int| digit_covers(x, y, digit, radius, px, py)
}

spec fn digit_part(x: int, y: int, digit: int, radius: int, count: int) -> spec_fn(
    int,
    int,
) -> bool {
    |px: int, py: int|
        exists|segment: int|
            0 <= segment < count && #[trigger] segment_covers(
                x,
                y,
                digit,
                radius,
                segment,
                px,
                py,
            )
}

/// Tells whether a segment is lit.
fn is_segment_lit(digit: u32, segment: u32) -> (r: bool)
    ensures
        r == segment_lit(digit as int, segment as int),
{
    if segment == 0 {
        digit != 1 && digit != 4
    } else if segment == 1 {
        digit != 5 && digit != 6
    } else if segment == 2 {
        digit != 2
    } else if segment == 3 {
        digit != 1 && digit != 4 && digit != 7
    } else if segment == 4 {
        digit == 0 || digit == 2 || digit == 6 || digit == 8
    } else if segment == 5 {
        digit != 1 && digit != 2 && digit != 3 && digit != 7
    } else {
        digit != 0 && digit != 1 && digit != 7
    }
}

/// The ends of a segment.
fn ends_of_segment(segment: u32) -> (r: ((i64, i64), (i64, i64)))
    ensures
        ({
            let (start, end) = segment_ends(segment as int);
            &&& r.0.0 == start.0 && r.0.1 == start.1
            &&& r.1.0 == end.0 && r.1.1 == end.1
        }),
        0 <= r.0.0 <= 4 && 0 <= r.0.1 <= 10,
        0 <= r.1.0 <= 4 && 0 <= r.1.1 <= 10,
{
    if segment == 0 {
        ((0, 0), (4, 0))
    } else if segment == 1 {
        ((4, 0), (4, 5))
    } else if segment == 2 {
        ((4, 5), (4, 10))
    } else if segment == 3 {
        ((0, 10), (4, 10))
    } else if segment == 4 {
        ((0, 5), (0, 10))
    } else if segment == 5 {
        ((0, 0), (0, 5))
    } else {
        ((0, 5), (4, 5))
    }
}

/// Draws a digit with a brush; nothing is drawn for a number above nine.
pub fn draw_digit<T: Copy>(
    pixels: &mut [T],
    width: u32,
    height: u32,
    at: (i64, i64),
    digit: u32,
    color: T,
    thickness: i32,
)
    requires
        in_reach(at),
        in_reach(((at.0 + 4) as i64, (at.1 + 10) as i64)),
    ensures
        final(pixels)@ == if digit <= 9 {
            painted(
                old(pixels)@,
                signed_frame(width, height),
                color,
                digit_shape(at.0 as int, at.1 as int, digit as int, brush_radius(thickness as int)),
            )
        } else {
            old(pixels)@
        },
{
    if digit > 9 {
        return ;
    }
    let ghost before = pixels@;
    let ghost frame = signed_frame(width, height);
    let ghost (x, y, d, radius) = (
        at.0 as int,
        at.1 as int,
        digit as int,
        brush_radius(thickness as int),
    );
    proof {
        lemma_painted_nothing(before, frame, color, digit_part(x, y, d, radius, 0));
    }
    let mut segment: u32 = 0;
    while segment < 7
        invariant
            segment <= 7,
                in_reach(at),
            in_reach(((at.0 + 4) as i64, (at.1 + 10) as i64)),
            x == at.0 && y == at.1 && d == digit && radius == brush_radius(thickness as int),
            frame == signed_frame(width, height),
            pixels@ == painted(
                before,
                frame,
                color,
                digit_part(x, y, d, radius, segment as int),
            ),
        decreases 7 - segment,
    {
        let ghost done = digit_part(x, y, d, radius, segment as int);
        let ghost next = digit_part(x, y, d, radius, segment + 1);
        let (start, end) = ends_of_segment(segment);
        if is_segment_lit(digit, segment) {
            draw_line(
                pixels,
                width,
                height,
                (at.0 + start.0, at.1 + start.1),
                (at.0 + end.0, at.1 + end.1),
                color,
                thickness,
            );
            proof {
                let line = stroke(
                    x + start.0,
                    y + start.1,
                    x + end.0,
                    y + end.1,
                    radius,
                );
                assert forall|px: int, py: int| #[trigger] next(px, py) == (done(px, py) || line(
                    px,
                    py,
                )) by {
                    if line(px, py) {
                        assert(segment_covers(x, y, d, radius, segment as int, px, py));
                    }
                }
                lemma_painted_both(before, frame, color, done, line, next);
            }
        } else {
            proof {
                assert forall|px: int, py: int| #[trigger] done(px, py) == next(px, py) by {
                    assert(!segment_covers(x, y, d, radius, segment as int, px, py));
                }
                lemma_painted_same(before, frame, color, done, next);
            }
        }
        segment += 1;
    }
    proof {
        assert forall|px: int, py: int| #[trigger] digit_part(x, y, d, radius, 7)(px, py)
            == digit_shape(x, y, d, radius)(px, py) by {}
        lemma_painted_same(
            before,
            frame,
            color,
            digit_part(x, y, d, radius, 7),
            digit_shape(x, y, d, radius),
        );
    }
}

/// The value of a character of a number.
pub open spec fn digit_at(number: nat, index: int) -> int {
    decimal(number)[index] as int - 48
}

/// The left edge of a number that is centred on a column: each digit is five wide, with a gap of
/// one between two.
pub open spec fn number_left(x: int, number: nat) -> int {
    let count = decimal(number).len();
    x - (5 * count + (count - 1)) / 2
}

/// Whether a brush covers a point when it draws one of the digits of a centred number.
pub open spec fn number_digit_covers(
    x: int,
    y: int,
    number: nat,
    radius: int,
    index: int,
    px: int,
    py: int,
) -> bool {
    digit_covers(
        number_left(x, number) + 6 * index,
        y - 5,
        digit_at(number, index),
        radius,
        px,
        py,
    )
}

/// The points that a centred number covers.
pub open spec fn number_shape(x: int, y: int, number: nat, radius: int) -> spec_fn(
    int,
    int,
) -> bool {
    |px: int, py: int|
        exists|index: int|
            0 <= index < decimal(number).len() && #[trigger] number_digit_covers(
                x,
                y,
                number,
                radius,
                index,
                px,
                py,
            )
}

spec fn number_part(x: int, y: int, number: nat, radius: int, count: int) -> spec_fn(
    int,
    int,
) -> bool {
    |px: int, py: int|
        exists|index: int|
            0 <= index < count && #[trigger] number_digit_covers(
                x,
                y,
                number,
                radius,
                index,
                px,
                py,
            )
}

/// Each character of a number is a digit.
proof fn lemma_digits(number: nat, index: int)
    requires
        0 <= index < decimal(number).len(),
    ensures
        0 <= digit_at(number, index) <= 9,
    decreases number,
{
    if number >= 10 && index < decimal(number / 10).len() {
        lemma_digits(number / 10, index);
    }
}

/// Draws a number, centred on a point, with a brush.
pub fn draw_number<T: Copy>(
    pixels: &mut [T],
    width: u32,
    height: u32,
    center: (i64, i64),
    number: u32,
    color: T,
    thickness: i32,
)
    requires
        -0x1_0000_0000 <= center.0 <= 0x1_0000_0000,
        -0x1_0000_0000 <= center.1 <= 0x1_0000_0000,
    ensures
        final(pixels)@ == painted(
            old(pixels)@,
            signed_frame(width, height),
            color,
            number_shape(
                center.0 as int,
                center.1 as int,
                number as nat,
                brush_radius(thickness as int),
            ),
        ),
{
    let ghost before = pixels@;
    let ghost frame = signed_frame(width, height);
    let ghost (x, y, n, radius) = (
        center.0 as int,
        center.1 as int,
        number as nat,
        brush_radius(thickness as int),
    );
    let text = decimal_u64(number as u64);
    let digits = chars_of(text.as_str());
    let count: usize = digits.len();
    proof {
        reveal_with_fuel(vstd::arithmetic::power::pow, 11);
        lemma_decimal_len(n, 10);
        lemma_painted_nothing(before, frame, color, number_part(x, y, n, radius, 0));
    }
    let total: i64 = count as i64 * 5 + (count as i64 - 1);
    let start: i64 = center.0 - total / 2;
    let mut index: usize = 0;
    while index < count
        invariant
            index <= count,
            1 <= count <= 10,
            count == digits@.len(),
            digits@ == decimal(n),
                -0x1_0000_0000 <= center.0 <= 0x1_0000_0000,
            -0x1_0000_0000 <= center.1 <= 0x1_0000_0000,
            x == center.0 && y == center.1 && radius == brush_radius(thickness as int),
            start == number_left(x, n),
            center.0 - 60 <= start <= center.0,
            frame == signed_frame(width, height),
            pixels@ == painted(before, frame, color, number_part(x, y, n, radius, index as int)),
        decreases count - index,
    {
        let ghost done = number_part(x, y, n, radius, index as int);
        let ghost next = number_part(x, y, n, radius, index + 1);
        proof {
            lemma_digits(n, index as int);
        }
        let digit: u32 = digits[index] as u32 - 48;
        draw_digit(
            pixels,
            width,
            height,
            (start + index as i64 * 6, center.1 - 5),
            digit,
            color,
            thickness,
        );
        proof {
            let shape = digit_shape(start + 6 * index, y - 5, digit as int, radius);
            assert forall|px: int, py: int| #[trigger] next(px, py) == (done(px, py) || shape(
                px,
                py,
            )) by {
                assert(number_digit_covers(x, y, n, radius, index as int, px, py) == shape(px, py));
            }
            lemma_painted_both(before, frame, color, done, shape, next);
        }
        index += 1;
    }
    proof {
        assert forall|px: int, py: int| #[trigger] number_part(x, y, n, radius, count as int)(
            px,
            py,
        ) == number_shape(x, y, n, radius)(px, py) by {}
        lemma_painted_same(
            before,
            frame,
            color,
            number_part(x, y, n, radius, count as int),
            number_shape(x, y, n, radius),
        );
    }
}

/// A number is written with its digits six columns apart, from the left, so that it has as many
/// columns on the left of its centre as on the right, and as many rows above as below; each digit
/// draws the segments that it lights.
pub proof fn law_number_shows_its_digits(
    x: int,
    y: int,
    number: nat,
    radius: int,
    index: int,
    segment: int,
    px: int,
    py: int,
)
    requires
        0 <= index < decimal(number).len(),
        0 <= segment < 7,
        ({
            let column = x - (3 * decimal(number).len() - 1) + 6 * index;
            let top = y - 5;
            let (start, end) = segment_ends(segment);
            &&& segment_lit(decimal(number)[index] as int - '0' as int, segment)
            &&& stroke_covers(
                column + start.0,
                top + start.1,
                column + end.0,
                top + end.1,
                radius,
                px,
                py,
            )
        }),
    ensures
        number_shape(x, y, number, radius)(px, py),
{
    lemma_number_left(x, number);
    let column = number_left(x, number) + 6 * index;
    assert(segment_covers(column, y - 5, digit_at(number, index), radius, segment, px, py));
    assert(number_digit_covers(x, y, number, radius, index, px, py));
}

/// A number covers nothing outside the rectangle around its centre that its digits fill.
pub proof fn law_number_stands_around_its_center(
    x: int,
    y: int,
    number: nat,
    radius: int,
    px: int,
    py: int,
)
    requires
        0 <= radius,
        number_shape(x, y, number, radius)(px, py),
    ensures
        -(3 * decimal(number).len() - 1) - radius <= px - x <= (3 * decimal(number).len() - 1)
            + radius,
        -5 - radius <= py - y <= 5 + radius,
{
    lemma_number_left(x, number);
    let index = choose|index: int|
        0 <= index < decimal(number).len() && #[trigger] number_digit_covers(
            x,
            y,
            number,
            radius,
            index,
            px,
            py,
        );
    let column = number_left(x, number) + 6 * index;
    lemma_digit_stays_in_its_box(column, y - 5, digit_at(number, index), radius, px, py);
}

proof fn lemma_number_left(x: int, number: nat)
    ensures
        number_left(x, number) == x - (3 * decimal(number).len() - 1),
{
}

proof fn lemma_digit_stays_in_its_box(x: int, y: int, digit: int, radius: int, px: int, py: int)
    requires
        0 <= radius,
        digit_covers(x, y, digit, radius, px, py),
    ensures
        x - radius <= px <= x + 4 + radius,
        y - radius <= py <= y + 10 + radius,
{
    let segment = choose|segment: int|
        0 <= segment < 7 && #[trigger] segment_covers(x, y, digit, radius, segment, px, py);
    let (start, end) = segment_ends(segment);
    law_stroke_reaches_from_end_to_end(
        x + start.0,
        y + start.1,
        x + end.0,
        y + end.1,
        radius,
        px,
        py,
    );
}

// ---------------------------------------------------------------------------------------------
// Rectangles
// ---------------------------------------------------------------------------------------------

/// The points of a rectangle, given by its edges; the right and the bottom edge stand outside.
pub open spec fn rect_shape(left: int, top: int, right: int, bottom: int) -> spec_fn(
    int,
    int,
) -> bool {
    |px: int, py: int| left <= px < right && top <= py < bottom
}

spec fn rect_part(left: int, top: int, right: int, row: int, column: int) -> spec_fn(
    int,
    int,
) -> bool {
    |px: int, py: int|
        left <= px < right && top <= py && (py < row || (py == row && px < column))
}

/// Paints a rectangle, point by point.
pub fn fill_rect<T: Copy>(
    pixels: &mut [T],
    width: u32,
    height: u32,
    left: u32,
    top: u32,
    right: u32,
    bottom: u32,
    color: T,
)
    ensures
        final(pixels)@ == painted(
            old(pixels)@,
            signed_frame(width, height),
            color,
            rect_shape(left as int, top as int, right as int, bottom as int),
        ),
{
    let ghost before = pixels@;
    let ghost frame = signed_frame(width, height);
    let ghost (l, t, r, b) = (left as int, top as int, right as int, bottom as int);
    if top >= bottom {
        proof {
            lemma_painted_nothing(before, frame, color, rect_shape(l, t, r, b));
        }
        return ;
    }
    proof {
        lemma_painted_nothing(before, frame, color, rect_part(l, t, r, t, l));
    }
    let mut row: u32 = top;
    while row < bottom
        invariant
            l == left && t == top && r == right && b == bottom,
            top <= row <= bottom,
            frame == signed_frame(width, height),
            pixels@ == painted(before, frame, color, rect_part(l, t, r, row as int, l)),
        decreases bottom - row,
    {
        let mut column: u32 = left;
        while column < right
            invariant
                l == left && t == top && r == right && b == bottom,
                top <= row < bottom,
                left <= column,
                column <= right || column == left,
                frame == signed_frame(width, height),
                pixels@ == painted(
                    before,
                    frame,
                    color,
                    rect_part(l, t, r, row as int, column as int),
                ),
            decreases right - column,
        {
            put_pixel(pixels, width, height, column as i64, row as i64, color);
            proof {
                lemma_painted_both(
                    before,
                    frame,
                    color,
                    rect_part(l, t, r, row as int, column as int),
                    dot(column as int, row as int),
                    rect_part(l, t, r, row as int, column + 1),
                );
            }
            column += 1;
        }
        row += 1;
        proof {
            lemma_painted_same(
                before,
                frame,
                color,
                rect_part(l, t, r, row - 1, column as int),
                rect_part(l, t, r, row as int, l),
            );
        }
    }
    proof {
        lemma_painted_same(
            before,
            frame,
            color,
            rect_part(l, t, r, row as int, l),
            rect_shape(l, t, r, b),
        );
    }
}

/// Whether a point stands within `radius` of the border of a rectangle.
pub open spec fn border_covers(
    left: int,
    top: int,
    right: int,
    bottom: int,
    radius: int,
    px: int,
    py: int,
) -> bool {
    ||| left - radius <= px <= right - 1 + radius && (top - radius <= py <= top + radius || bottom
        - 1 - radius <= py <= bottom - 1 + radius)
    ||| top - radius <= py <= bottom - 1 + radius && (left - radius <= px <= left + radius || right
        - 1 - radius <= px <= right - 1 + radius)
}

/// The border of a rectangle, drawn with a brush.
pub open spec fn border(left: int, top: int, right: int, bottom: int, radius: int) -> spec_fn(
    int,
    int,
) -> bool {
    |px: int, py: int| border_covers(left, top, right, bottom, radius, px, py)
}

/// The part of the horizontal edges before a column, and of the vertical ones above a row.
spec fn border_part(
    left: int,
    top: int,
    right: int,
    bottom: int,
    radius: int,
    column: int,
    row: int,
) -> spec_fn(int, int) -> bool {
    |px: int, py: int|
        {
            ||| left < column && left - radius <= px <= column - 1 + radius && (top - radius <= py
                <= top + radius || bottom - 1 - radius <= py <= bottom - 1 + radius)
            ||| top < row && top - radius <= py <= row - 1 + radius && (left - radius <= px <= left
                + radius || right - 1 - radius <= px <= right - 1 + radius)
        }
}

/// The border that an outline draws: its far edges end with the surface, and an empty rectangle or
/// one that starts outside has none.
pub open spec fn outline_drawn<T>(
    pixels: Seq<T>,
    width: u32,
    height: u32,
    x: u32,
    y: u32,
    rect_width: u32,
    rect_height: u32,
    color: T,
    thickness: int,
) -> Seq<T> {
    if rect_width == 0 || rect_height == 0 || x >= width || y >= height {
        pixels
    } else {
        painted(
            pixels,
            signed_frame(width, height),
            color,
            border(
                x as int,
                y as int,
                min_int(x + rect_width, width as int),
                min_int(y + rect_height, height as int),
                brush_radius(thickness),
            ),
        )
    }
}

/// An outline is drawn on the edges of its rectangle, or of the part of it that lies in the frame;
/// points in that part or outside it that are further from every edge than the brush reaches are
/// kept.
pub proof fn law_outline_is_drawn_on_the_edges<T>(
    pixels: Seq<T>,
    width: u32,
    height: u32,
    x: u32,
    y: u32,
    rect_width: u32,
    rect_height: u32,
    color: T,
    thickness: int,
    px: int,
    py: int,
)
    requires
        width <= i32::MAX,
        height <= i32::MAX,
        x < width && 0 < rect_width,
        y < height && 0 < rect_height,
        0 <= px < width,
        0 <= py < height,
        py * width + px < pixels.len(),
        1 <= thickness,
    ensures
        ({
            let drawn = outline_drawn(
                pixels,
                width,
                height,
                x,
                y,
                rect_width,
                rect_height,
                color,
                thickness,
            );
            let right = if x + rect_width <= width {
                x + rect_width - 1
            } else {
                width - 1
            };
            let bottom = if y + rect_height <= height {
                y + rect_height - 1
            } else {
                height - 1
            };
            let reach = thickness / 2;
            let place = py * width + px;
            &&& x <= px <= right && y <= py <= bottom && (px == x || px == right || py == y || py
                == bottom) ==> drawn[place] == color
            &&& x + reach < px < right - reach && y + reach < py < bottom - reach ==> drawn[place]
                == pixels[place]
            &&& px < x - reach || px > right + reach || py < y - reach || py > bottom + reach
                ==> drawn[place] == pixels[place]
        }),
{
    law_painting_sets_the_shape(
        pixels,
        width,
        height,
        color,
        border(
            x as int,
            y as int,
            min_int(x + rect_width, width as int),
            min_int(y + rect_height, height as int),
            brush_radius(thickness),
        ),
        px,
        py,
    );
}

/// Draws the outline of a rectangle with a brush.
pub fn draw_thick_rect_outline<T: Copy>(
    pixels: &mut [T],
    width: u32,
    height: u32,
    x: u32,
    y: u32,
    rect_width: u32,
    rect_height: u32,
    color: T,
    thickness: i32,
)
    ensures
        final(pixels)@ == outline_drawn(
            old(pixels)@,
            width,
            height,
            x,
            y,
            rect_width,
            rect_height,
            color,
            thickness as int,
        ),
{
    if rect_width == 0 || rect_height == 0 || x >= width || y >= height {
        return ;
    }
    let ghost before = pixels@;
    let ghost frame = signed_frame(width, height);
    let right: u32 = x.saturating_add(rect_width).min(width);
    let bottom: u32 = y.saturating_add(rect_height).min(height);
    let ghost (l, t, r, b, radius) = (
        x as int,
        y as int,
        right as int,
        bottom as int,
        brush_radius(thickness as int),
    );
    assert(r == min_int(x + rect_width, width as int));
    assert(b == min_int(y + rect_height, height as int));
    proof {
        lemma_painted_nothing(before, frame, color, border_part(l, t, r, b, radius, l, t));
    }
    let mut column: u32 = x;
    while column < right
        invariant
            l == x && t == y && r == right && b == bottom && radius == brush_radius(thickness as int),
                x <= column <= right,
            0 < bottom,
            frame == signed_frame(width, height),
            pixels@ == painted(
                before,
                frame,
                color,
                border_part(l, t, r, b, radius, column as int, t),
            ),
        decreases right - column,
    {
        let ghost done = border_part(l, t, r, b, radius, column as int, t);
        let ghost next = border_part(l, t, r, b, radius, column + 1, t);
        let ghost upper = square(column as int, t, radius);
        let ghost lower = square(column as int, b - 1, radius);
        let ghost half = |px: int, py: int| done(px, py) || upper(px, py);
        put_brush(pixels, width, height, column as i64, y as i64, color, thickness);
        put_brush(pixels, width, height, column as i64, (bottom - 1) as i64, color, thickness);
        proof {
            lemma_painted_both(before, frame, color, done, upper, half);
            lemma_painted_both(before, frame, color, half, lower, next);
        }
        column += 1;
    }
    let mut row: u32 = y;
    while row < bottom
        invariant
            l == x && t == y && r == right && b == bottom && radius == brush_radius(thickness as int),
                x < right,
            y <= row <= bottom,
            frame == signed_frame(width, height),
            pixels@ == painted(
                before,
                frame,
                color,
                border_part(l, t, r, b, radius, r, row as int),
            ),
        decreases bottom - row,
    {
        let ghost done = border_part(l, t, r, b, radius, r, row as int);
        let ghost next = border_part(l, t, r, b, radius, r, row + 1);
        let ghost near_side = square(l, row as int, radius);
        let ghost far_side = square(r - 1, row as int, radius);
        let ghost half = |px: int, py: int| done(px, py) || near_side(px, py);
        put_brush(pixels, width, height, x as i64, row as i64, color, thickness);
        put_brush(pixels, width, height, (right - 1) as i64, row as i64, color, thickness);
        proof {
            lemma_painted_both(before, frame, color, done, near_side, half);
            lemma_painted_both(before, frame, color, half, far_side, next);
        }
        row += 1;
    }
    proof {
        lemma_painted_same(
            before,
            frame,
            color,
            border_part(l, t, r, b, radius, r, b),
            border(l, t, r, b, radius),
        );
    }
}

} // verus!
