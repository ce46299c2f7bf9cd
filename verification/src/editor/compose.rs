//! The edited image: annotations drawn into the pixels of the image.
use crate::canvas::{
    border, disk, draw_line, draw_number, fill_circle, fill_rect,
    law_horizontal_stroke_is_a_rectangle, law_painting_sets_the_shape, law_stroke_covers_its_line,
    law_stroke_reaches_from_end_to_end, law_vertical_stroke_is_a_rectangle, lemma_painted_both,
    lemma_painted_nothing, lemma_painted_same, line_steps, line_x, line_y, number_shape, painted,
    rect_shape, signed_frame, stroke,
};
use crate::editor::tools::{color_bytes, EditorColor, EditorTool};
use crate::editor::{
    annotation_models, image_error, rect_of_points, AnnotationModel, EditorAnnotation, EditorPoint,
    EditorRect, EditorSessionImage,
};
use crate::errors::RsnipError;
use crate::math::{
    abs_i64, abs_int, max_int, min_int, narrow_i32, sat_i32, saturating_add_i32, sign_i64,
    sign_int, u32_as_i32, wrap_i32,
};
use crate::pixels::{swapped_channels, swapped_index};
use crate::screen::capture::CapturedImage;
use vstd::prelude::*;

verus! {

/// How thick lines are drawn.
pub const STROKE_THICKNESS: i32 = 3;

/// The radius of a step mark.
pub const STEP_RADIUS: i32 = 13;

/// The ends of the two short lines that make the head of an arrow.
#[derive(Debug, Clone, Copy, PartialEq, Eq, Structural)]
pub struct ArrowHead {
    pub left: EditorPoint,
    pub right: EditorPoint,
}

/// A drag that is not finished: the tool in use, where it began and where it is.
#[derive(Debug, Clone, Copy, PartialEq, Eq, Structural)]
pub struct EditorDrag {
    pub tool: EditorTool,
    pub start: EditorPoint,
    pub end: EditorPoint,
}

// ---------------------------------------------------------------------------------------------
// Constrained drags
// ---------------------------------------------------------------------------------------------

/// Where a drag goes with shift held: to the nearest point of the eight directions from the start,
/// at the distance of the longer side.
pub open spec fn aimed(start: EditorPoint, end: EditorPoint) -> (int, int) {
    let dx = end.x - start.x;
    let dy = end.y - start.y;
    let distance = max_int(abs_int(dx), abs_int(dy));
    let along_x = start.x + sign_int(dx) * distance;
    let along_y = start.y + sign_int(dy) * distance;
    if 2 * abs_int(dx) < abs_int(dy) {
        (start.x as int, along_y)
    } else if 2 * abs_int(dy) < abs_int(dx) {
        (along_x, start.y as int)
    } else {
        (along_x, along_y)
    }
}

/// The end of a drag. With shift held it is where the drag goes, brought into the range of
/// coordinates.
pub open spec fn constrained(
    start: EditorPoint,
    end: EditorPoint,
    shift_pressed: bool,
) -> EditorPoint {
    if !shift_pressed {
        end
    } else {
        let (x, y) = aimed(start, end);
        EditorPoint { x: sat_i32(x) as i32, y: sat_i32(y) as i32 }
    }
}

/// With shift held a drag goes along a row, along a column or along a diagonal, unless it would leave
/// the range of coordinates.
pub proof fn law_constrained_drag_has_eight_directions(start: EditorPoint, end: EditorPoint)
    requires
        i32::MIN <= aimed(start, end).0 <= i32::MAX,
        i32::MIN <= aimed(start, end).1 <= i32::MAX,
    ensures
        ({
            let to = constrained(start, end, true);
            let dx = abs_int(to.x - start.x);
            let dy = abs_int(to.y - start.y);
            dx == 0 || dy == 0 || dx == dy
        }),
{
    let dx = end.x - start.x;
    let dy = end.y - start.y;
    let distance = max_int(abs_int(dx), abs_int(dy));
    lemma_signed_distance(dx, distance);
    lemma_signed_distance(dy, distance);
}

/// With shift held a drag keeps the length of its longer side and its direction along each axis,
/// and goes to that one of the eight points around its start, at that length, which is nearest to
/// the pointer; halfway between two of them it takes the diagonal one. Where that point lies beyond
/// the range of coordinates, the drag ends at the border of the range, which is no further from the
/// pointer.
pub proof fn law_constrained_drag_goes_to_the_nearest_direction(
    start: EditorPoint,
    end: EditorPoint,
    side_x: int,
    side_y: int,
)
    requires
        -1 <= side_x <= 1,
        -1 <= side_y <= 1,
        side_x != 0 || side_y != 0,
    ensures
        ({
            let to = constrained(start, end, true);
            let dx = end.x - start.x;
            let dy = end.y - start.y;
            let wide = if dx < 0 {
                -dx
            } else {
                dx
            };
            let high = if dy < 0 {
                -dy
            } else {
                dy
            };
            let length = if wide < high {
                high
            } else {
                wide
            };
            let other_x = start.x + side_x * length;
            let other_y = start.y + side_y * length;
            &&& wide >= high ==> to.x == end.x
            &&& high >= wide ==> to.y == end.y
            &&& to.x > start.x ==> end.x > start.x
            &&& to.x < start.x ==> end.x < start.x
            &&& to.y > start.y ==> end.y > start.y
            &&& to.y < start.y ==> end.y < start.y
            &&& (to.x - end.x) * (to.x - end.x) + (to.y - end.y) * (to.y - end.y) <= (other_x
                - end.x) * (other_x - end.x) + (other_y - end.y) * (other_y - end.y)
            &&& to.x != start.x && i32::MIN < to.x < i32::MAX ==> to.x == start.x + length || to.x
                == start.x - length
            &&& to.y != start.y && i32::MIN < to.y < i32::MAX ==> to.y == start.y + length || to.y
                == start.y - length
            &&& 2 * wide == high && wide > 0 ==> to.x != start.x
            &&& 2 * high == wide && high > 0 ==> to.y != start.y
        }),
        constrained(start, end, false) == end,
{
    let to = constrained(start, end, true);
    let dx = end.x - start.x;
    let dy = end.y - start.y;
    let length = max_int(abs_int(dx), abs_int(dy));
    assert(0 * length == 0 && 1 * length == length && (-1) * length == -length)
        by (nonlinear_arith);
    let other_x = start.x + side_x * length;
    let other_y = start.y + side_y * length;
    lemma_nearer(to.x - end.x, other_x - end.x);
    lemma_nearer(to.y - end.y, other_y - end.y);
}

proof fn lemma_nearer(a: int, b: int)
    requires
        -b <= a <= b || b <= a <= -b,
    ensures
        a * a <= b * b,
{
    assert(a * a <= b * b) by (nonlinear_arith)
        requires
            -b <= a <= b || b <= a <= -b,
    ;
}

proof fn lemma_signed_distance(d: int, distance: int)
    requires
        distance >= 0,
    ensures
        abs_int(sign_int(d) * distance) == if d == 0 {
            0
        } else {
            distance
        },
{
    assert(0 * distance == 0 && 1 * distance == distance && (-1) * distance == -distance)
        by (nonlinear_arith);
}

/// Constrains the end of a drag while shift is held.
pub fn constrain_point_if_shift(start: EditorPoint, end: EditorPoint, shift_pressed: bool) -> (r:
    EditorPoint)
    ensures
        r == constrained(start, end, shift_pressed),
{
    if !shift_pressed {
        return end;
    }
    let dx: i64 = end.x as i64 - start.x as i64;
    let dy: i64 = end.y as i64 - start.y as i64;
    if dx == 0 && dy == 0 {
        return end;
    }
    let long_x = abs_i64(dx);
    let long_y = abs_i64(dy);
    let distance: i64 = if long_x >= long_y {
        long_x
    } else {
        long_y
    };
    let sign_x = sign_i64(dx);
    let sign_y = sign_i64(dy);
    assert(-distance <= sign_x * distance <= distance && -distance <= sign_y * distance <= distance)
        by (nonlinear_arith)
        requires
            distance >= 0,
            -1 <= sign_x <= 1,
            -1 <= sign_y <= 1,
    ;
    let along_x = narrow_i32(start.x as i64 + sign_x * distance);
    let along_y = narrow_i32(start.y as i64 + sign_y * distance);
    if 2 * long_x < long_y {
        return EditorPoint::new(start.x, along_y);
    }
    if 2 * long_y < long_x {
        return EditorPoint::new(along_x, start.y);
    }
    EditorPoint::new(along_x, along_y)
}

// ---------------------------------------------------------------------------------------------
// Shapes
// ---------------------------------------------------------------------------------------------

/// The points that a brush covers on its way between two points.
pub open spec fn line_shape(start: EditorPoint, end: EditorPoint) -> spec_fn(int, int) -> bool {
    stroke(
        start.x as int,
        start.y as int,
        end.x as int,
        end.y as int,
        STROKE_THICKNESS as int / 2,
    )
}

/// Whether the brush covers a point between one point of a stroke and the next.
pub open spec fn pen_segment_covers(points: Seq<EditorPoint>, k: int, px: int, py: int) -> bool {
    line_shape(points[k], points[k + 1])(px, py)
}

/// The points that the brush covers on its way through a list of points.
pub open spec fn pen_shape(points: Seq<EditorPoint>) -> spec_fn(int, int) -> bool {
    pen_part(points, points.len() - 1)
}

/// The points that the brush covers on the first `count` parts of a stroke.
pub open spec fn pen_part(points: Seq<EditorPoint>, count: int) -> spec_fn(int, int) -> bool {
    |px: int, py: int|
        exists|k: int| 0 <= k < count && #[trigger] pen_segment_covers(points, k, px, py)
}

/// The points of an arrow: its shaft and the two lines of its head.
pub open spec fn arrow_shape(start: EditorPoint, end: EditorPoint, head: ArrowHead) -> spec_fn(
    int,
    int,
) -> bool {
    |px: int, py: int|
        line_shape(start, end)(px, py) || line_shape(end, head.left)(px, py) || line_shape(
            end,
            head.right,
        )(px, py)
}

/// Draws a line.
pub fn draw_stroke<T: Copy>(
    pixels: &mut [T],
    width: u32,
    height: u32,
    start: EditorPoint,
    end: EditorPoint,
    color: T,
)
    ensures
        final(pixels)@ == painted(
            old(pixels)@,
            signed_frame(width, height),
            color,
            line_shape(start, end),
        ),
{
    draw_line(
        pixels,
        width,
        height,
        (start.x as i64, start.y as i64),
        (end.x as i64, end.y as i64),
        color,
        STROKE_THICKNESS,
    );
}

/// Draws a stroke through a list of points.
pub fn draw_pen_points<T: Copy>(
    pixels: &mut [T],
    width: u32,
    height: u32,
    points: &[EditorPoint],
    color: T,
)
    ensures
        final(pixels)@ == painted(
            old(pixels)@,
            signed_frame(width, height),
            color,
            pen_shape(points@),
        ),
{
    let ghost before = pixels@;
    let ghost frame = signed_frame(width, height);
    proof {
        lemma_painted_nothing(before, frame, color, pen_part(points@, 0));
    }
    if points.len() == 0 {
        proof {
            lemma_painted_nothing(before, frame, color, pen_part(points@, -1));
        }
        return ;
    }
    let mut k: usize = 0;
    while k < points.len() - 1
        invariant
            0 <= k <= points@.len() - 1,
            frame == signed_frame(width, height),
            pixels@ == painted(before, frame, color, pen_part(points@, k as int)),
        decreases points@.len() - k,
    {
        draw_stroke(pixels, width, height, points[k], points[k + 1], color);
        proof {
            let done = pen_part(points@, k as int);
            let line = line_shape(points@[k as int], points@[k + 1]);
            let next = pen_part(points@, k + 1);
            assert forall|px: int, py: int| #[trigger] next(px, py) == (done(px, py) || line(
                px,
                py,
            )) by {
                assert(pen_segment_covers(points@, k as int, px, py) == line(px, py));
            }
            lemma_painted_both(before, frame, color, done, line, next);
        }
        k += 1;
    }
}

/// Draws an arrow.
pub fn draw_arrow<T: Copy>(
    pixels: &mut [T],
    width: u32,
    height: u32,
    start: EditorPoint,
    end: EditorPoint,
    head: ArrowHead,
    color: T,
)
    ensures
        final(pixels)@ == painted(
            old(pixels)@,
            signed_frame(width, height),
            color,
            arrow_shape(start, end, head),
        ),
{
    let ghost before = pixels@;
    let ghost frame = signed_frame(width, height);
    draw_stroke(pixels, width, height, start, end, color);
    draw_stroke(pixels, width, height, end, head.left, color);
    draw_stroke(pixels, width, height, end, head.right, color);
    proof {
        let shaft = line_shape(start, end);
        let left = line_shape(end, head.left);
        let right = line_shape(end, head.right);
        let half = |px: int, py: int| shaft(px, py) || left(px, py);
        lemma_painted_both(before, frame, color, shaft, left, half);
        lemma_painted_both(before, frame, color, half, right, arrow_shape(start, end, head));
    }
}

/// After an arrow is drawn, the points of its shaft and of the two lines from its end to the tips
/// of its head have its colour, and so have the points beside them, wherever they lie in the image;
/// `k` counts the steps of the line from `from` to `to`.
pub proof fn law_arrow_shows_its_shaft_and_head<T>(
    pixels: Seq<T>,
    width: u32,
    height: u32,
    start: EditorPoint,
    end: EditorPoint,
    head: ArrowHead,
    color: T,
    from: EditorPoint,
    to: EditorPoint,
    k: int,
    dx: int,
    dy: int,
)
    requires
        width <= i32::MAX,
        height <= i32::MAX,
        -1 <= dx <= 1,
        -1 <= dy <= 1,
        (from == start && to == end) || (from == end && to == head.left) || (from == end && to
            == head.right),
        0 <= k <= line_steps(from.x as int, from.y as int, to.x as int, to.y as int),
    ensures
        ({
            let drawn = painted(
                pixels,
                signed_frame(width, height),
                color,
                arrow_shape(start, end, head),
            );
            let x = line_x(from.x as int, from.y as int, to.x as int, to.y as int, k) + dx;
            let y = line_y(from.x as int, from.y as int, to.x as int, to.y as int, k) + dy;
            0 <= x < width && 0 <= y < height && y * width + x < pixels.len() ==> drawn[y * width
                + x] == color
        }),
{
    let shape = arrow_shape(start, end, head);
    let x = line_x(from.x as int, from.y as int, to.x as int, to.y as int, k) + dx;
    let y = line_y(from.x as int, from.y as int, to.x as int, to.y as int, k) + dy;
    law_stroke_covers_its_line(
        from.x as int,
        from.y as int,
        to.x as int,
        to.y as int,
        1,
        k,
        x,
        y,
    );
    assert(shape(x, y));
    if 0 <= x < width && 0 <= y < height && y * width + x < pixels.len() {
        law_painting_sets_the_shape(pixels, width, height, color, shape, x, y);
    }
}

/// After an arrow is drawn, its ends and both tips of its head have its colour where they lie in
/// the image. A tip that stands off the rectangle between the ends is covered by the arrow and not
/// by a line between the same ends.
pub proof fn law_arrow_has_a_head<T>(
    pixels: Seq<T>,
    width: u32,
    height: u32,
    start: EditorPoint,
    end: EditorPoint,
    head: ArrowHead,
    color: T,
    point: EditorPoint,
)
    requires
        width <= i32::MAX,
        height <= i32::MAX,
        point == start || point == end || point == head.left || point == head.right,
    ensures
        ({
            let drawn = painted(
                pixels,
                signed_frame(width, height),
                color,
                arrow_shape(start, end, head),
            );
            0 <= point.x < width && 0 <= point.y < height && point.y * width + point.x
                < pixels.len() ==> drawn[point.y * width + point.x] == color
        }),
        arrow_shape(start, end, head)(point.x as int, point.y as int),
        ({
            ||| point.x > start.x + 1 && point.x > end.x + 1
            ||| point.x < start.x - 1 && point.x < end.x - 1
            ||| point.y > start.y + 1 && point.y > end.y + 1
            ||| point.y < start.y - 1 && point.y < end.y - 1
        }) ==> !line_shape(start, end)(point.x as int, point.y as int),
{
    let x = point.x as int;
    let y = point.y as int;
    let shape = arrow_shape(start, end, head);
    lemma_line_shape_ends(start, end, x, y);
    lemma_line_shape_ends(end, head.left, x, y);
    lemma_line_shape_ends(end, head.right, x, y);
    if 0 <= x < width && 0 <= y < height && y * width + x < pixels.len() {
        law_painting_sets_the_shape(pixels, width, height, color, shape, x, y);
    }
}

/// An arrow changes nothing further than a pixel outside the rectangle around its ends and the
/// tips of its head.
pub proof fn law_arrow_stays_near_its_points<T>(
    pixels: Seq<T>,
    width: u32,
    height: u32,
    start: EditorPoint,
    end: EditorPoint,
    head: ArrowHead,
    color: T,
    x: int,
    y: int,
)
    requires
        width <= i32::MAX,
        height <= i32::MAX,
        0 <= x < width,
        0 <= y < height,
        y * width + x < pixels.len(),
        ({
            ||| x > start.x + 1 && x > end.x + 1 && x > head.left.x + 1 && x > head.right.x + 1
            ||| x < start.x - 1 && x < end.x - 1 && x < head.left.x - 1 && x < head.right.x - 1
            ||| y > start.y + 1 && y > end.y + 1 && y > head.left.y + 1 && y > head.right.y + 1
            ||| y < start.y - 1 && y < end.y - 1 && y < head.left.y - 1 && y < head.right.y - 1
        }),
    ensures
        painted(pixels, signed_frame(width, height), color, arrow_shape(start, end, head))[y * width
            + x] == pixels[y * width + x],
{
    lemma_line_shape_ends(start, end, x, y);
    lemma_line_shape_ends(end, head.left, x, y);
    lemma_line_shape_ends(end, head.right, x, y);
    law_painting_sets_the_shape(
        pixels,
        width,
        height,
        color,
        arrow_shape(start, end, head),
        x,
        y,
    );
}

proof fn lemma_line_shape_ends(start: EditorPoint, end: EditorPoint, x: int, y: int)
    ensures
        line_shape(start, end)(start.x as int, start.y as int),
        line_shape(start, end)(end.x as int, end.y as int),
        line_shape(start, end)(x, y) ==> {
            &&& start.x - 1 <= x || end.x - 1 <= x
            &&& x <= start.x + 1 || x <= end.x + 1
            &&& start.y - 1 <= y || end.y - 1 <= y
            &&& y <= start.y + 1 || y <= end.y + 1
        },
{
    law_stroke_reaches_from_end_to_end(
        start.x as int,
        start.y as int,
        end.x as int,
        end.y as int,
        1,
        x,
        y,
    );
}

// ---------------------------------------------------------------------------------------------
// Annotations on the pixels of the image
// ---------------------------------------------------------------------------------------------

/// The edges of the part of a rectangle that lies in an image of the given size: left, top, right
/// and bottom.
pub open spec fn clipped_edges(rect: EditorRect, width: u32, height: u32) -> (int, int, int, int) {
    let left = max_int(rect.x as int, 0);
    let top = max_int(rect.y as int, 0);
    (
        left,
        top,
        min_int(sat_i32(left + wrap_i32(rect.width)), wrap_i32(width)),
        min_int(sat_i32(top + wrap_i32(rect.height)), wrap_i32(height)),
    )
}

/// Pixels with the border of a rectangle drawn in an image of the given size; where the rectangle
/// does not reach the image there is none.
pub open spec fn rect_outline_painted<T>(
    pixels: Seq<T>,
    width: u32,
    height: u32,
    rect: EditorRect,
    color: T,
) -> Seq<T> {
    let (left, top, right, bottom) = clipped_edges(rect, width, height);
    if left >= right || top >= bottom {
        pixels
    } else {
        painted(
            pixels,
            signed_frame(width, height),
            color,
            border(left, top, right, bottom, STROKE_THICKNESS as int / 2),
        )
    }
}

/// Draws the border of a rectangle as four lines.
pub fn draw_rect_outline_rgba<T: Copy>(
    pixels: &mut [T],
    width: u32,
    height: u32,
    rect: EditorRect,
    color: T,
)
    ensures
        final(pixels)@ == rect_outline_painted(old(pixels)@, width, height, rect, color),
{
    let x = rect.x.max(0);
    let y = rect.y.max(0);
    let right = saturating_add_i32(x, u32_as_i32(rect.width)).min(u32_as_i32(width));
    let bottom = saturating_add_i32(y, u32_as_i32(rect.height)).min(u32_as_i32(height));
    if x >= right || y >= bottom {
        return ;
    }
    let ghost before = pixels@;
    let ghost frame = signed_frame(width, height);
    let ghost (l, t, r, b) = (x as int, y as int, right as int, bottom as int);
    let upper_left = EditorPoint::new(x, y);
    let upper_right = EditorPoint::new(right - 1, y);
    let lower_left = EditorPoint::new(x, bottom - 1);
    let lower_right = EditorPoint::new(right - 1, bottom - 1);
    draw_stroke(pixels, width, height, upper_left, upper_right, color);
    draw_stroke(pixels, width, height, lower_left, lower_right, color);
    draw_stroke(pixels, width, height, upper_left, lower_left, color);
    draw_stroke(pixels, width, height, upper_right, lower_right, color);
    proof {
        law_horizontal_stroke_is_a_rectangle(l, r - 1, t, 1);
        law_horizontal_stroke_is_a_rectangle(l, r - 1, b - 1, 1);
        law_vertical_stroke_is_a_rectangle(l, t, b - 1, 1);
        law_vertical_stroke_is_a_rectangle(r - 1, t, b - 1, 1);
        let upper = line_shape(upper_left, upper_right);
        let lower = line_shape(lower_left, lower_right);
        let near_side = line_shape(upper_left, lower_left);
        let far_side = line_shape(upper_right, lower_right);
        let two = |px: int, py: int| upper(px, py) || lower(px, py);
        let three = |px: int, py: int| two(px, py) || near_side(px, py);
        lemma_painted_both(before, frame, color, upper, lower, two);
        lemma_painted_both(before, frame, color, two, near_side, three);
        lemma_painted_both(before, frame, color, three, far_side, border(l, t, r, b, 1));
    }
}

/// The points of a rectangle; what stands left of the image or above it is not counted.
pub open spec fn redacted_shape(rect: EditorRect) -> spec_fn(int, int) -> bool {
    let left = max_int(rect.x as int, 0);
    let top = max_int(rect.y as int, 0);
    rect_shape(left, top, left + rect.width, top + rect.height)
}

/// Paints a rectangle.
pub fn fill_rect_rgba<T: Copy>(
    pixels: &mut [T],
    width: u32,
    height: u32,
    rect: EditorRect,
    color: T,
)
    ensures
        final(pixels)@ == painted(
            old(pixels)@,
            signed_frame(width, height),
            color,
            redacted_shape(rect),
        ),
{
    let ghost before = pixels@;
    let ghost frame = signed_frame(width, height);
    let x: u32 = rect.x.max(0) as u32;
    let y: u32 = rect.y.max(0) as u32;
    let rect_width: u32 = rect.width.min(width.saturating_sub(x));
    let rect_height: u32 = rect.height.min(height.saturating_sub(y));
    let right: u32 = x.saturating_add(rect_width);
    let bottom: u32 = y.saturating_add(rect_height);
    fill_rect(pixels, width, height, x, y, right, bottom, color);
    proof {
        lemma_painted_same(
            before,
            frame,
            color,
            rect_shape(x as int, y as int, right as int, bottom as int),
            redacted_shape(rect),
        );
    }
}

/// Pixels with a step mark: a disk in its colour and its number in white.
pub open spec fn step_painted(
    pixels: Seq<[u8; 4]>,
    width: u32,
    height: u32,
    center: EditorPoint,
    number: u32,
    color: [u8; 4],
) -> Seq<[u8; 4]> {
    painted(
        painted(
            pixels,
            signed_frame(width, height),
            color,
            disk(center.x as int, center.y as int, STEP_RADIUS as int),
        ),
        signed_frame(width, height),
        [255, 255, 255, 255],
        number_shape(
            center.x as int,
            center.y as int,
            number as nat,
            STROKE_THICKNESS as int / 2,
        ),
    )
}

/// Draws a step mark.
pub fn draw_step_rgba(
    pixels: &mut [[u8; 4]],
    width: u32,
    height: u32,
    center: EditorPoint,
    number: u32,
    color: [u8; 4],
)
    ensures
        final(pixels)@ == step_painted(old(pixels)@, width, height, center, number, color),
{
    let at = (center.x as i64, center.y as i64);
    fill_circle(pixels, width, height, at, STEP_RADIUS, color);
    draw_number(pixels, width, height, at, number, [255, 255, 255, 255], STROKE_THICKNESS);
}

/// Pixels with an annotation drawn on them.
pub open spec fn annotation_painted(
    pixels: Seq<[u8; 4]>,
    width: u32,
    height: u32,
    annotation: AnnotationModel,
    head: ArrowHead,
) -> Seq<[u8; 4]> {
    let frame = signed_frame(width, height);
    match annotation {
        AnnotationModel::Pen { points, color } => painted(
            pixels,
            frame,
            color_bytes(color),
            pen_shape(points),
        ),
        AnnotationModel::Line { start, end, color } => painted(
            pixels,
            frame,
            color_bytes(color),
            line_shape(start, end),
        ),
        AnnotationModel::Arrow { start, end, color } => painted(
            pixels,
            frame,
            color_bytes(color),
            arrow_shape(start, end, head),
        ),
        AnnotationModel::Rectangle { rect, color } => rect_outline_painted(
            pixels,
            width,
            height,
            rect,
            color_bytes(color),
        ),
        AnnotationModel::Redact { rect } => painted(
            pixels,
            frame,
            [0u8, 0, 0, 255],
            redacted_shape(rect),
        ),
        AnnotationModel::Step { center, number, color } => step_painted(
            pixels,
            width,
            height,
            center,
            number,
            color_bytes(color),
        ),
    }
}

/// Draws an annotation.
pub fn draw_annotation_rgba(
    pixels: &mut [[u8; 4]],
    width: u32,
    height: u32,
    annotation: &EditorAnnotation,
    head: ArrowHead,
)
    ensures
        final(pixels)@ == annotation_painted(old(pixels)@, width, height, annotation@, head),
{
    match annotation {
        EditorAnnotation::Pen { points, color } => {
            draw_pen_points(pixels, width, height, points.as_slice(), color.rgba());
        },
        EditorAnnotation::Line { start, end, color } => {
            draw_stroke(pixels, width, height, *start, *end, color.rgba());
        },
        EditorAnnotation::Arrow { start, end, color } => {
            draw_arrow(pixels, width, height, *start, *end, head, color.rgba());
        },
        EditorAnnotation::Rectangle { rect, color } => {
            draw_rect_outline_rgba(pixels, width, height, *rect, color.rgba());
        },
        EditorAnnotation::Redact { rect } => {
            fill_rect_rgba(pixels, width, height, *rect, [0u8, 0, 0, 255]);
        },
        EditorAnnotation::Step { center, number, color } => {
            draw_step_rgba(pixels, width, height, *center, *number, color.rgba());
        },
    }
}

/// What a redaction covers does not show what was there before.
pub proof fn law_redaction_hides_pixels(
    pixels: Seq<[u8; 4]>,
    other: Seq<[u8; 4]>,
    width: u32,
    height: u32,
    rect: EditorRect,
    head: ArrowHead,
    x: int,
    y: int,
)
    requires
        pixels.len() == other.len(),
        width <= i32::MAX,
        height <= i32::MAX,
        0 <= x < width,
        0 <= y < height,
        rect.x <= x < max_int(rect.x as int, 0) + rect.width,
        rect.y <= y < max_int(rect.y as int, 0) + rect.height,
        y * width + x < pixels.len(),
    ensures
        ({
            let redact = AnnotationModel::Redact { rect };
            let index = y * width + x;
            &&& annotation_painted(pixels, width, height, redact, head)[index] == [0u8, 0, 0, 255]
            &&& annotation_painted(pixels, width, height, redact, head)[index]
                == annotation_painted(other, width, height, redact, head)[index]
        }),
{
    crate::pixels::lemma_row_position(y, width as int, x);
    crate::pixels::lemma_position_bound(y, height as int, width as int, x);
}

/// What a redaction does not cover is kept; one that begins left of the image or above it covers as
/// many columns and rows from the edge on.
pub proof fn law_redaction_keeps_the_rest(
    pixels: Seq<[u8; 4]>,
    width: u32,
    height: u32,
    rect: EditorRect,
    head: ArrowHead,
    x: int,
    y: int,
)
    requires
        width <= i32::MAX,
        height <= i32::MAX,
        0 <= x < width,
        0 <= y < height,
        ({
            let left = if rect.x < 0 {
                0
            } else {
                rect.x as int
            };
            let top = if rect.y < 0 {
                0
            } else {
                rect.y as int
            };
            x < left || x >= left + rect.width || y < top || y >= top + rect.height
        }),
        y * width + x < pixels.len(),
    ensures
        annotation_painted(pixels, width, height, AnnotationModel::Redact { rect }, head)[y * width
            + x] == pixels[y * width + x],
{
    law_painting_sets_the_shape(
        pixels,
        width,
        height,
        [0u8, 0, 0, 255],
        redacted_shape(rect),
        x,
        y,
    );
}

/// An arrow annotation gives its colour to its ends and to both tips of its head, where they lie in
/// the image.
pub proof fn law_arrow_annotation_has_a_head(
    pixels: Seq<[u8; 4]>,
    width: u32,
    height: u32,
    start: EditorPoint,
    end: EditorPoint,
    color: EditorColor,
    head: ArrowHead,
    point: EditorPoint,
)
    requires
        width <= i32::MAX,
        height <= i32::MAX,
        point == start || point == end || point == head.left || point == head.right,
        0 <= point.x < width,
        0 <= point.y < height,
        point.y * width + point.x < pixels.len(),
    ensures
        annotation_painted(
            pixels,
            width,
            height,
            AnnotationModel::Arrow { start, end, color },
            head,
        )[point.y * width + point.x] == color_bytes(color),
{
    law_arrow_has_a_head(pixels, width, height, start, end, head, color_bytes(color), point);
}

/// A line annotation gives its colour to every point of the line between its ends that lies in the
/// image and to the points beside it, and a stroke of the pen does so along the lines between its
/// points; `k` counts the steps of a line.
pub proof fn law_lines_and_strokes_are_drawn(
    pixels: Seq<[u8; 4]>,
    width: u32,
    height: u32,
    points: Seq<EditorPoint>,
    color: EditorColor,
    head: ArrowHead,
    index: int,
    k: int,
    dx: int,
    dy: int,
)
    requires
        width <= i32::MAX,
        height <= i32::MAX,
        -1 <= dx <= 1,
        -1 <= dy <= 1,
        0 <= index < points.len() - 1,
        0 <= k <= line_steps(
            points[index].x as int,
            points[index].y as int,
            points[index + 1].x as int,
            points[index + 1].y as int,
        ),
    ensures
        ({
            let (from, to) = (points[index], points[index + 1]);
            let line = AnnotationModel::Line { start: from, end: to, color };
            let pen = AnnotationModel::Pen { points, color };
            let x = line_x(from.x as int, from.y as int, to.x as int, to.y as int, k) + dx;
            let y = line_y(from.x as int, from.y as int, to.x as int, to.y as int, k) + dy;
            0 <= x < width && 0 <= y < height && y * width + x < pixels.len() ==> {
                &&& annotation_painted(pixels, width, height, line, head)[y * width + x]
                    == color_bytes(color)
                &&& annotation_painted(pixels, width, height, pen, head)[y * width + x]
                    == color_bytes(color)
            }
        }),
{
    let (from, to) = (points[index], points[index + 1]);
    let x = line_x(from.x as int, from.y as int, to.x as int, to.y as int, k) + dx;
    let y = line_y(from.x as int, from.y as int, to.x as int, to.y as int, k) + dy;
    law_stroke_covers_its_line(
        from.x as int,
        from.y as int,
        to.x as int,
        to.y as int,
        1,
        k,
        x,
        y,
    );
    assert(pen_segment_covers(points, index, x, y));
    if 0 <= x < width && 0 <= y < height && y * width + x < pixels.len() {
        let bytes = color_bytes(color);
        law_painting_sets_the_shape(pixels, width, height, bytes, line_shape(from, to), x, y);
        law_painting_sets_the_shape(pixels, width, height, bytes, pen_shape(points), x, y);
    }
}

/// A stroke of the pen covers each of its points, if it has more than one, and every point that it
/// covers is near the rectangle between two points that follow one another.
pub proof fn law_strokes_follow_their_points(points: Seq<EditorPoint>, index: int, x: int, y: int)
    requires
        0 <= index < points.len(),
    ensures
        points.len() > 1 ==> pen_shape(points)(points[index].x as int, points[index].y as int),
        pen_shape(points)(x, y) ==> exists|k: int|
            #![trigger points[k]]
            {
                &&& 0 <= k < points.len() - 1
                &&& points[k].x - 1 <= x || points[k + 1].x - 1 <= x
                &&& x <= points[k].x + 1 || x <= points[k + 1].x + 1
                &&& points[k].y - 1 <= y || points[k + 1].y - 1 <= y
                &&& y <= points[k].y + 1 || y <= points[k + 1].y + 1
            },
{
    let (px, py) = (points[index].x as int, points[index].y as int);
    if index < points.len() - 1 {
        lemma_line_shape_ends(points[index], points[index + 1], px, py);
        assert(pen_segment_covers(points, index, px, py));
    } else if points.len() > 1 {
        lemma_line_shape_ends(points[index - 1], points[index], px, py);
        assert(pen_segment_covers(points, index - 1, px, py));
    }
    if pen_shape(points)(x, y) {
        let k = choose|k: int|
            0 <= k < points.len() - 1 && #[trigger] pen_segment_covers(points, k, x, y);
        lemma_line_shape_ends(points[k], points[k + 1], x, y);
        assert(points[k].x - 1 <= x || points[k + 1].x - 1 <= x);
    }
}

/// A rectangle is drawn on its edges, cut off where the image ends: they have its colour, and points
/// further than a pixel from all of them, inside or outside, are kept. One that begins left of the
/// image or above it is drawn from the edge on, as wide and as high.
pub proof fn law_rectangle_is_drawn_on_its_edges(
    pixels: Seq<[u8; 4]>,
    width: u32,
    height: u32,
    rect: EditorRect,
    color: EditorColor,
    head: ArrowHead,
    x: int,
    y: int,
)
    requires
        width <= i32::MAX,
        height <= i32::MAX,
        0 < rect.width && rect.x < width && rect.x + rect.width <= i32::MAX && rect.width
            <= i32::MAX,
        0 < rect.height && rect.y < height && rect.y + rect.height <= i32::MAX && rect.height
            <= i32::MAX,
        0 <= x < width,
        0 <= y < height,
        y * width + x < pixels.len(),
    ensures
        ({
            let drawn = annotation_painted(
                pixels,
                width,
                height,
                AnnotationModel::Rectangle { rect, color },
                head,
            );
            let left = if rect.x < 0 {
                0
            } else {
                rect.x as int
            };
            let top = if rect.y < 0 {
                0
            } else {
                rect.y as int
            };
            let right = if left + rect.width <= width {
                left + rect.width - 1
            } else {
                width - 1
            };
            let bottom = if top + rect.height <= height {
                top + rect.height - 1
            } else {
                height - 1
            };
            let place = y * width + x;
            &&& left <= x <= right && top <= y <= bottom && (x == left || x == right || y == top
                || y == bottom) ==> drawn[place] == color_bytes(color)
            &&& left + 1 < x < right - 1 && top + 1 < y < bottom - 1 ==> drawn[place]
                == pixels[place]
            &&& x < left - 1 || x > right + 1 || y < top - 1 || y > bottom + 1 ==> drawn[place]
                == pixels[place]
        }),
{
    let (left, top, right, bottom) = clipped_edges(rect, width, height);
    law_painting_sets_the_shape(
        pixels,
        width,
        height,
        color_bytes(color),
        border(left, top, right, bottom, 1),
        x,
        y,
    );
}

/// A step mark is a disk of thirteen pixels around its centre, in its colour, with its number in
/// white on top; everything else is kept.
pub proof fn law_step_is_a_numbered_disk(
    pixels: Seq<[u8; 4]>,
    width: u32,
    height: u32,
    center: EditorPoint,
    number: u32,
    color: EditorColor,
    head: ArrowHead,
    x: int,
    y: int,
)
    requires
        width <= i32::MAX,
        height <= i32::MAX,
        0 <= x < width,
        0 <= y < height,
        y * width + x < pixels.len(),
    ensures
        ({
            let step = AnnotationModel::Step { center, number, color };
            let drawn = annotation_painted(pixels, width, height, step, head);
            let (dx, dy) = (x - center.x, y - center.y);
            let written = number_shape(center.x as int, center.y as int, number as nat, 1)(x, y);
            let place = y * width + x;
            &&& written ==> drawn[place] == [255u8, 255, 255, 255]
            &&& !written && dx * dx + dy * dy <= 169 ==> drawn[place] == color_bytes(color)
            &&& !written && dx * dx + dy * dy > 169 ==> drawn[place] == pixels[place]
        }),
{
    let disk_shape = disk(center.x as int, center.y as int, 13);
    let digits = number_shape(center.x as int, center.y as int, number as nat, 1);
    let bytes = color_bytes(color);
    assert(13int * 13int == 169) by (nonlinear_arith);
    law_painting_sets_the_shape(pixels, width, height, bytes, disk_shape, x, y);
    law_painting_sets_the_shape(
        painted(pixels, signed_frame(width, height), bytes, disk_shape),
        width,
        height,
        [255u8, 255, 255, 255],
        digits,
        x,
        y,
    );
}

// ---------------------------------------------------------------------------------------------
// The composed image
// ---------------------------------------------------------------------------------------------

/// The whole pixels of a buffer of bytes.
pub open spec fn pixels_of_bytes(bytes: Seq<u8>) -> Seq<[u8; 4]> {
    Seq::new(
        bytes.len() / 4,
        |i: int| [bytes[4 * i], bytes[4 * i + 1], bytes[4 * i + 2], bytes[4 * i + 3]],
    )
}

/// The bytes of pixels, with the blue part of each pixel first.
pub open spec fn blue_first_bytes(pixels: Seq<[u8; 4]>) -> Seq<u8> {
    Seq::new(4 * pixels.len(), |i: int| pixels[i / 4]@[swapped_index(i) % 4])
}

/// The composed image holds the bytes of its pixels with the blue part first and the red part
/// third, and pixels are read from bytes in the order red, green, blue and opacity.
pub proof fn law_composed_bytes_are_blue_first(rgba: Seq<u8>, pixels: Seq<[u8; 4]>, index: int)
    requires
        0 <= index < pixels.len(),
        rgba.len() == 4 * pixels.len(),
    ensures
        blue_first_bytes(pixels).len() == 4 * pixels.len(),
        blue_first_bytes(pixels)[4 * index] == pixels[index]@[2],
        blue_first_bytes(pixels)[4 * index + 1] == pixels[index]@[1],
        blue_first_bytes(pixels)[4 * index + 2] == pixels[index]@[0],
        blue_first_bytes(pixels)[4 * index + 3] == pixels[index]@[3],
        pixels_of_bytes(rgba).len() == pixels.len(),
        pixels_of_bytes(rgba)[index]@ == rgba.subrange(4 * index, 4 * index + 4),
{
    assert(pixels_of_bytes(rgba)[index]@ =~= rgba.subrange(4 * index, 4 * index + 4));
}

/// Groups bytes into pixels.
pub fn group_pixels(bytes: &Vec<u8>) -> (r: Vec<[u8; 4]>)
    ensures
        r@ == pixels_of_bytes(bytes@),
{
    let mut pixels: Vec<[u8; 4]> = Vec::new();
    let total: usize = bytes.len();
    let count: usize = total / 4;
    let mut i: usize = 0;
    while i < count
        invariant
            i <= count,
            total == bytes@.len(),
            count == total / 4,
            pixels@ == pixels_of_bytes(bytes@).take(i as int),
        decreases count - i,
    {
        pixels.push([bytes[4 * i], bytes[4 * i + 1], bytes[4 * i + 2], bytes[4 * i + 3]]);
        i += 1;
        assert(pixels@ =~= pixels_of_bytes(bytes@).take(i as int));
    }
    assert(pixels_of_bytes(bytes@).take(i as int) =~= pixels_of_bytes(bytes@));
    pixels
}

/// Writes the bytes of pixels, with the blue part of each pixel first.
pub fn write_blue_first(pixels: &Vec<[u8; 4]>) -> (r: Vec<u8>)
    ensures
        r@ == blue_first_bytes(pixels@),
{
    let mut bytes: Vec<u8> = Vec::new();
    let mut i: usize = 0;
    while i < pixels.len()
        invariant
            i <= pixels@.len(),
            bytes@.len() == 4 * i,
            forall|k: int| 0 <= k < 4 * i ==> bytes@[k] == #[trigger] blue_first_bytes(pixels@)[k],
        decreases pixels@.len() - i,
    {
        let pixel = pixels[i];
        bytes.push(pixel[2]);
        bytes.push(pixel[1]);
        bytes.push(pixel[0]);
        bytes.push(pixel[3]);
        i += 1;
    }
    assert(bytes@ =~= blue_first_bytes(pixels@));
    bytes
}

/// Pixels with a list of annotations drawn on them, one after the other.
pub open spec fn annotations_painted(
    pixels: Seq<[u8; 4]>,
    width: u32,
    height: u32,
    annotations: Seq<AnnotationModel>,
    heads: Seq<ArrowHead>,
) -> Seq<[u8; 4]>
    decreases annotations.len(),
{
    if annotations.len() == 0 {
        pixels
    } else {
        annotation_painted(
            annotations_painted(pixels, width, height, annotations.drop_last(), heads),
            width,
            height,
            annotations.last(),
            heads[annotations.len() - 1],
        )
    }
}

/// Annotations are drawn one on top of the other, in the order in which they were made, each with
/// its own head.
pub proof fn law_annotations_are_drawn_in_order(
    pixels: Seq<[u8; 4]>,
    width: u32,
    height: u32,
    annotations: Seq<AnnotationModel>,
    heads: Seq<ArrowHead>,
    last: AnnotationModel,
    head: ArrowHead,
)
    requires
        heads.len() == annotations.len(),
    ensures
        annotations_painted(pixels, width, height, annotations.push(last), heads.push(head))
            == annotation_painted(
            annotations_painted(pixels, width, height, annotations, heads),
            width,
            height,
            last,
            head,
        ),
{
    assert(annotations.push(last).drop_last() =~= annotations);
    lemma_heads_behind_do_not_matter(pixels, width, height, annotations, heads, head);
}

proof fn lemma_heads_behind_do_not_matter(
    pixels: Seq<[u8; 4]>,
    width: u32,
    height: u32,
    annotations: Seq<AnnotationModel>,
    heads: Seq<ArrowHead>,
    head: ArrowHead,
)
    requires
        annotations.len() <= heads.len(),
    ensures
        annotations_painted(pixels, width, height, annotations, heads.push(head))
            == annotations_painted(pixels, width, height, annotations, heads),
    decreases annotations.len(),
{
    if annotations.len() > 0 {
        lemma_heads_behind_do_not_matter(
            pixels,
            width,
            height,
            annotations.drop_last(),
            heads,
            head,
        );
    }
}

/// The annotation that a drag would leave behind, if its tool makes one by dragging.
pub open spec fn drag_annotation(
    drag: EditorDrag,
    color: EditorColor,
    shift_pressed: bool,
) -> Option<AnnotationModel> {
    let end = constrained(drag.start, drag.end, shift_pressed);
    match drag.tool {
        EditorTool::Line => Some(AnnotationModel::Line { start: drag.start, end, color }),
        EditorTool::Arrow => Some(AnnotationModel::Arrow { start: drag.start, end, color }),
        EditorTool::Rectangle => Some(
            AnnotationModel::Rectangle { rect: rect_of_points(drag.start, end), color },
        ),
        EditorTool::Redact => Some(
            AnnotationModel::Redact { rect: rect_of_points(drag.start, end) },
        ),
        _ => None,
    }
}

/// What is drawn on the image: the annotations, then the stroke and the drag that are not finished.
pub open spec fn drawn_annotations(
    annotations: Seq<AnnotationModel>,
    current_stroke: Option<Vec<EditorPoint>>,
    current_drag: Option<EditorDrag>,
    color: EditorColor,
    shift_pressed: bool,
) -> Seq<AnnotationModel> {
    let stroked = match current_stroke {
        Some(points) => annotations.push(AnnotationModel::Pen { points: points@, color }),
        None => annotations,
    };
    match current_drag {
        Some(drag) => match drag_annotation(drag, color, shift_pressed) {
            Some(annotation) => stroked.push(annotation),
            None => stroked,
        },
        None => stroked,
    }
}

/// The heads of what is drawn: those of the annotations, one for each, and then that of the drag.
pub open spec fn drawn_heads(
    heads: Seq<ArrowHead>,
    current_stroke: Option<Vec<EditorPoint>>,
    drag_head: ArrowHead,
) -> Seq<ArrowHead> {
    match current_stroke {
        Some(_) => heads.push(drag_head).push(drag_head),
        None => heads.push(drag_head),
    }
}

/// What is not finished is drawn on top of the annotations: first the stroke, in the colour in use,
/// and then what the drag would leave behind. Each annotation keeps its own head, and the drag has
/// its own.
pub proof fn law_unfinished_work_is_drawn_last(
    annotations: Seq<AnnotationModel>,
    heads: Seq<ArrowHead>,
    current_stroke: Option<Vec<EditorPoint>>,
    current_drag: Option<EditorDrag>,
    drag_head: ArrowHead,
    color: EditorColor,
    shift_pressed: bool,
    index: int,
)
    requires
        heads.len() == annotations.len(),
    ensures
        ({
            let drawn = drawn_annotations(
                annotations,
                current_stroke,
                current_drag,
                color,
                shift_pressed,
            );
            let drawn_heads = drawn_heads(heads, current_stroke, drag_head);
            let count = annotations.len() as int;
            let strokes = if current_stroke is Some {
                1int
            } else {
                0
            };
            let dragged = match current_drag {
                Some(drag) => drag_annotation(drag, color, shift_pressed),
                None => None,
            };
            &&& 0 <= index < count ==> drawn[index] == annotations[index] && drawn_heads[index]
                == heads[index]
            &&& current_stroke matches Some(points) ==> drawn[count] == (AnnotationModel::Pen {
                points: points@,
                color,
            })
            &&& dragged matches Some(annotation) ==> drawn.len() == count + strokes + 1
                && drawn.last() == annotation && drawn_heads[count + strokes] == drag_head
            &&& dragged is None ==> drawn.len() == count + strokes
        }),
{
}

/// Annotations are drawn one on top of the other: what the last one covers shows it, and elsewhere
/// the image shows the others.
pub proof fn law_last_annotation_is_on_top(
    pixels: Seq<[u8; 4]>,
    width: u32,
    height: u32,
    annotations: Seq<AnnotationModel>,
    heads: Seq<ArrowHead>,
    rect: EditorRect,
    x: int,
    y: int,
)
    requires
        width <= i32::MAX,
        height <= i32::MAX,
        rect.x >= 0,
        rect.y >= 0,
        0 <= x < width,
        0 <= y < height,
        y * width + x < pixels.len(),
    ensures
        ({
            let before = annotations_painted(pixels, width, height, annotations, heads);
            let after = annotations_painted(
                pixels,
                width,
                height,
                annotations.push(AnnotationModel::Redact { rect }),
                heads,
            );
            let place = y * width + x;
            &&& before.len() == pixels.len() && after.len() == pixels.len()
            &&& rect.x <= x < rect.x + rect.width && rect.y <= y < rect.y + rect.height
                ==> after[place] == [0u8, 0, 0, 255]
            &&& !(rect.x <= x < rect.x + rect.width && rect.y <= y < rect.y + rect.height)
                ==> after[place] == before[place]
        }),
{
    let all = annotations.push(AnnotationModel::Redact { rect });
    let before = annotations_painted(pixels, width, height, annotations, heads);
    assert(all.drop_last() =~= annotations);
    lemma_annotations_keep_the_size(pixels, width, height, annotations, heads);
    lemma_annotations_keep_the_size(pixels, width, height, all, heads);
    let head = heads[annotations.len() as int];
    if rect.x <= x < rect.x + rect.width && rect.y <= y < rect.y + rect.height {
        law_redaction_hides_pixels(before, before, width, height, rect, head, x, y);
    } else {
        law_redaction_keeps_the_rest(before, width, height, rect, head, x, y);
    }
}

proof fn lemma_annotations_keep_the_size(
    pixels: Seq<[u8; 4]>,
    width: u32,
    height: u32,
    annotations: Seq<AnnotationModel>,
    heads: Seq<ArrowHead>,
)
    ensures
        annotations_painted(pixels, width, height, annotations, heads).len() == pixels.len(),
    decreases annotations.len(),
{
    if annotations.len() > 0 {
        lemma_annotations_keep_the_size(pixels, width, height, annotations.drop_last(), heads);
    }
}

/// An unfinished drag shows as the annotation that it would leave behind if it ended where the
/// pointer is, or with shift held where the constrained drag ends; the tools that do not drag show
/// nothing.
pub proof fn law_unfinished_drag_shows_its_annotation(
    drag: EditorDrag,
    color: EditorColor,
    shift_pressed: bool,
)
    ensures
        ({
            let end = constrained(drag.start, drag.end, shift_pressed);
            let shown = drag_annotation(drag, color, shift_pressed);
            &&& drag.tool is Line ==> shown == Some(
                AnnotationModel::Line { start: drag.start, end, color },
            )
            &&& drag.tool is Arrow ==> shown == Some(
                AnnotationModel::Arrow { start: drag.start, end, color },
            )
            &&& drag.tool is Rectangle ==> {
                &&& shown matches Some(AnnotationModel::Rectangle { rect, color: c })
                &&& c == color && spans(rect, drag.start, end)
            }
            &&& drag.tool is Redact ==> {
                &&& shown matches Some(AnnotationModel::Redact { rect })
                &&& spans(rect, drag.start, end)
            }
            &&& drag.tool is Pen || drag.tool is Step ==> shown is None
            &&& !shift_pressed ==> end == drag.end
        }),
{
}

/// Whether two points are opposite corners of a rectangle.
pub open spec fn spans(rect: EditorRect, start: EditorPoint, end: EditorPoint) -> bool {
    &&& rect.x == start.x && rect.x + rect.width == end.x || rect.x == end.x && rect.x + rect.width
        == start.x
    &&& rect.y == start.y && rect.y + rect.height == end.y || rect.y == end.y && rect.y
        + rect.height == start.y
}

/// Turns a drag into the annotation that it would leave behind.
pub fn annotation_of_drag(drag: EditorDrag, color: EditorColor, shift_pressed: bool) -> (r: Option<
    EditorAnnotation,
>)
    ensures
        match r {
            Some(annotation) => drag_annotation(drag, color, shift_pressed) == Some(annotation@),
            None => drag_annotation(drag, color, shift_pressed) is None,
        },
{
    let start = drag.start;
    let end = constrain_point_if_shift(start, drag.end, shift_pressed);
    match drag.tool {
        EditorTool::Line => Some(EditorAnnotation::Line { start, end, color }),
        EditorTool::Arrow => Some(EditorAnnotation::Arrow { start, end, color }),
        EditorTool::Rectangle => Some(
            EditorAnnotation::Rectangle { rect: EditorRect::from_points(start, end), color },
        ),
        EditorTool::Redact => Some(
            EditorAnnotation::Redact { rect: EditorRect::from_points(start, end) },
        ),
        _ => None,
    }
}

/// The edited image as it would be copied: the annotations, the stroke and the drag that are not
/// finished, drawn on the pixels of the image. `heads` holds the head of each arrow at the place of
/// its annotation, and `drag_head` that of an arrow that is being dragged.
pub fn compose_editor_image(
    image: &EditorSessionImage,
    annotations: &[EditorAnnotation],
    heads: &[ArrowHead],
    current_stroke: &Option<Vec<EditorPoint>>,
    current_drag: Option<EditorDrag>,
    drag_head: ArrowHead,
    active_color: EditorColor,
    shift_pressed: bool,
) -> (r: Result<CapturedImage, RsnipError>)
    requires
        heads@.len() == annotations@.len(),
    ensures
        match r {
            Ok(composed) => {
                &&& composed.wf()
                &&& composed.origin_x == 0 && composed.origin_y == 0
                &&& composed.width == image.width && composed.height == image.height
                &&& composed.bgra@ == blue_first_bytes(
                    annotations_painted(
                        pixels_of_bytes(image.rgba@),
                        image.width,
                        image.height,
                        drawn_annotations(
                            annotation_models(annotations@),
                            *current_stroke,
                            current_drag,
                            active_color,
                            shift_pressed,
                        ),
                        drawn_heads(heads@, *current_stroke, drag_head),
                    ),
                )
            },
            Err(error) => image_error(
                error,
                image.width,
                image.height,
                image.rgba@.len() / 4 * 4,
            ),
        },
{
    let mut pixels = group_pixels(&image.rgba);
    let ghost start = pixels@;
    let ghost models = annotation_models(annotations@);
    let ghost all_heads = drawn_heads(heads@, *current_stroke, drag_head);
    let mut i: usize = 0;
    while i < annotations.len()
        invariant
            i <= annotations@.len(),
            heads@.len() == annotations@.len(),
            models == annotation_models(annotations@),
            all_heads == drawn_heads(heads@, *current_stroke, drag_head),
            pixels@ == annotations_painted(
                start,
                image.width,
                image.height,
                models.take(i as int),
                all_heads,
            ),
            pixels@.len() == start.len(),
        decreases annotations@.len() - i,
    {
        draw_annotation_rgba(
            pixels.as_mut_slice(),
            image.width,
            image.height,
            &annotations[i],
            heads[i],
        );
        i += 1;
        assert(models.take(i as int).drop_last() =~= models.take(i - 1));
    }
    assert(models.take(i as int) =~= models);
    let ghost mut drawn = models;
    match current_stroke {
        Some(points) => {
            draw_pen_points(
                pixels.as_mut_slice(),
                image.width,
                image.height,
                points.as_slice(),
                active_color.rgba(),
            );
            proof {
                let pen = AnnotationModel::Pen { points: points@, color: active_color };
                drawn = models.push(pen);
                assert(drawn.drop_last() =~= models);
            }
        },
        None => {},
    }
    assert(pixels@ == annotations_painted(start, image.width, image.height, drawn, all_heads));
    match current_drag {
        Some(drag) => {
            match annotation_of_drag(drag, active_color, shift_pressed) {
                Some(annotation) => {
                    draw_annotation_rgba(
                        pixels.as_mut_slice(),
                        image.width,
                        image.height,
                        &annotation,
                        drag_head,
                    );
                    proof {
                        assert(drawn.push(annotation@).drop_last() =~= drawn);
                        drawn = drawn.push(annotation@);
                    }
                },
                None => {},
            }
        },
        None => {},
    }
    assert(pixels@ == annotations_painted(start, image.width, image.height, drawn, all_heads));
    let bgra = write_blue_first(&pixels);
    CapturedImage::new(0, 0, image.width, image.height, bgra)
}

/// Without annotations the composed image is the image itself, with its channels in the order that
/// captured images have.
pub proof fn law_composing_nothing_keeps_the_image(
    rgba: Seq<u8>,
    width: u32,
    height: u32,
    heads: Seq<ArrowHead>,
)
    ensures
        blue_first_bytes(
            annotations_painted(pixels_of_bytes(rgba), width, height, Seq::empty(), heads),
        ) == swapped_channels(rgba),
{
    let bytes = blue_first_bytes(pixels_of_bytes(rgba));
    assert forall|i: int| 0 <= i < bytes.len() implies bytes[i] == swapped_channels(rgba)[i] by {
        assert(pixels_of_bytes(rgba)[i / 4]@[swapped_index(i) % 4] == rgba[swapped_index(i)]);
    }
    assert(bytes =~= swapped_channels(rgba));
}

} // verus!
