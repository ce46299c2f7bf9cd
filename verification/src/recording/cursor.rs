//! The picture of the pointer in recorded frames.
use crate::errors::{is_message, message_error, RsnipError};
use crate::pixels::{lemma_position_bound, lemma_row_position};
use crate::screen::capture::CaptureRegion;
use crate::screen::monitor::point_in_rect;
use crate::text::{append_u64, chars_of, decimal};
use vstd::prelude::*;

verus! {

/// Where the pointer is on the virtual desktop.
#[derive(Debug, Clone, Copy, PartialEq, Eq, Structural)]
pub struct CursorScreenPosition {
    pub x: i32,
    pub y: i32,
}

/// Where the pointer is in a frame.
#[derive(Debug, Clone, Copy, PartialEq, Eq, Structural)]
pub struct CursorFramePosition {
    pub x: u32,
    pub y: u32,
}

/// Whether the pointer is in a frame.
#[derive(Debug, Clone, Copy, PartialEq, Eq, Structural)]
pub enum CursorVisibility {
    Inside(CursorFramePosition),
    Outside,
}

/// Where the pointer is in the frames of a region.
pub open spec fn visibility(position: CursorScreenPosition, region: CaptureRegion) -> CursorVisibility {
    if point_in_rect(region.spec_rect(), position.x as int, position.y as int) {
        CursorVisibility::Inside(
            CursorFramePosition {
                x: (position.x - region.x) as u32,
                y: (position.y - region.y) as u32,
            },
        )
    } else {
        CursorVisibility::Outside
    }
}

/// A pointer that is shown stands in the frame, as far from the corner of the frame as the pointer
/// on the desktop is from the corner of the region; a pointer in a region that ends before the end
/// of the range of coordinates is always shown.
pub proof fn law_pointer_keeps_its_place_in_the_region(
    position: CursorScreenPosition,
    region: CaptureRegion,
)
    ensures
        visibility(position, region) matches CursorVisibility::Inside(at) ==> region.x + at.x
            == position.x && region.y + at.y == position.y && at.x < region.width && at.y
            < region.height,
        region.width <= i32::MAX && region.height <= i32::MAX && region.x + region.width <= i32::MAX
            && region.y + region.height <= i32::MAX ==> (visibility(position, region) is Inside <==> region.x <= position.x < region.x + region.width && region.y <= position.y
            < region.y + region.height),
{
}

impl CursorScreenPosition {
    /// Where the pointer is in the frames of a region.
    pub fn resolve_in_region(self, region: CaptureRegion) -> (r: CursorVisibility)
        ensures
            r == visibility(self, region),
            r matches CursorVisibility::Inside(at) ==> at.x < region.width && at.y
                < region.height,
    {
        if self.x < region.x || self.y < region.y || self.x >= region.right() || self.y
            >= region.bottom() {
            return CursorVisibility::Outside;
        }
        CursorVisibility::Inside(
            CursorFramePosition {
                x: (self.x - region.x) as u32,
                y: (self.y - region.y) as u32,
            },
        )
    }
}

/// The number of rows of the picture.
pub const CURSOR_ROWS: u32 = 17;

/// The number of columns of the picture.
pub const CURSOR_COLUMNS: u32 = 12;

/// A row of the picture: `X` is black, `W` is white, and the rest is left as it is.
pub open spec fn cursor_row(row: int) -> Seq<char> {
    if row == 0 {
        "X..........."@
    } else if row == 1 {
        "XX.........."@
    } else if row == 2 {
        "XWX........."@
    } else if row == 3 {
        "XWWX........"@
    } else if row == 4 {
        "XWWWX......."@
    } else if row == 5 {
        "XWWWWX......"@
    } else if row == 6 {
        "XWWWWWX....."@
    } else if row == 7 {
        "XWWWWWWX...."@
    } else if row == 8 {
        "XWWWWWWWX..."@
    } else if row == 9 {
        "XWWWWWWWWX.."@
    } else if row == 10 {
        "XWWWWXXXXX.."@
    } else if row == 11 {
        "XWWXWWX....."@
    } else if row == 12 {
        "XWX.XWWX...."@
    } else if row == 13 {
        "XX..XWWX...."@
    } else if row == 14 {
        "X....XWWX..."@
    } else if row == 15 {
        ".....XWWX..."@
    } else {
        "......XX...."@
    }
}

fn row_of_cursor(row: u32) -> (r: &'static str)
    ensures
        r@ == cursor_row(row as int),
{
    match row {
        0 => "X...........",
        1 => "XX..........",
        2 => "XWX.........",
        3 => "XWWX........",
        4 => "XWWWX.......",
        5 => "XWWWWX......",
        6 => "XWWWWWX.....",
        7 => "XWWWWWWX....",
        8 => "XWWWWWWWX...",
        9 => "XWWWWWWWWX..",
        10 => "XWWWWXXXXX..",
        11 => "XWWXWWX.....",
        12 => "XWX.XWWX....",
        13 => "XX..XWWX....",
        14 => "X....XWWX...",
        15 => ".....XWWX...",
        _ => "......XX....",
    }
}

proof fn lemma_cursor_row_len(row: int)
    ensures
        cursor_row(row).len() == CURSOR_COLUMNS,
{
    reveal_strlit("X...........");
    reveal_strlit("XX..........");
    reveal_strlit("XWX.........");
    reveal_strlit("XWWX........");
    reveal_strlit("XWWWX.......");
    reveal_strlit("XWWWWX......");
    reveal_strlit("XWWWWWX.....");
    reveal_strlit("XWWWWWWX....");
    reveal_strlit("XWWWWWWWX...");
    reveal_strlit("XWWWWWWWWX..");
    reveal_strlit("XWWWWXXXXX..");
    reveal_strlit("XWWXWWX.....");
    reveal_strlit("XWX.XWWX....");
    reveal_strlit("XX..XWWX....");
    reveal_strlit("X....XWWX...");
    reveal_strlit(".....XWWX...");
    reveal_strlit("......XX....");
}

/// The bytes of a pixel of the picture, if it is not left as it is.
pub open spec fn cursor_pixel(column: int, row: int) -> Option<[u8; 4]> {
    if 0 <= row < CURSOR_ROWS && 0 <= column < CURSOR_COLUMNS {
        if cursor_row(row)[column] == 'X' {
            Some([0u8, 0, 0, 255])
        } else if cursor_row(row)[column] == 'W' {
            Some([255u8, 255, 255, 255])
        } else {
            None
        }
    } else {
        None
    }
}

/// A frame with the picture of the pointer on it.
pub open spec fn cursor_drawn(frame: Seq<u8>, width: u32, at: CursorFramePosition) -> Seq<u8> {
    cursor_part(frame, width, at, CURSOR_ROWS as int, 0)
}

/// A frame with the rows of the picture above a row on it, and that row before a column.
pub open spec fn cursor_part(
    frame: Seq<u8>,
    width: u32,
    at: CursorFramePosition,
    row: int,
    column: int,
) -> Seq<u8> {
    Seq::new(
        frame.len(),
        |i: int|
            {
                let dx = i / 4 % width as int - at.x;
                let dy = i / 4 / width as int - at.y;
                if dy < row || (dy == row && dx < column) {
                    match cursor_pixel(dx, dy) {
                        Some(pixel) => pixel@[i % 4],
                        None => frame[i],
                    }
                } else {
                    frame[i]
                }
            },
    )
}

/// Why nothing can be drawn on a frame: its size is no length, or its length is not that of its
/// size.
pub open spec fn frame_error(error: RsnipError, len: nat, width: u32, height: u32) -> bool {
    ||| 4 * (height * width) > usize::MAX && is_message(error, "cursor frame dimensions overflow"@)
    ||| 4 * (height * width) <= usize::MAX && len != 4 * (height * width) && is_message(
        error,
        "invalid frame length for cursor drawing: got "@ + decimal(len) + ", expected "@ + decimal(
            (4 * (height * width)) as nat,
        ),
    )
}

/// A frame whose length is that of its size is never refused.
pub proof fn law_whole_frames_are_accepted(error: RsnipError, len: nat, width: u32, height: u32)
    requires
        len == 4 * (height * width),
        len <= usize::MAX,
    ensures
        !frame_error(error, len, width, height),
{
}

/// Draws the picture of the pointer on a frame, cut off where the frame ends.
pub fn draw_cursor_on_bgra_frame(
    frame: &mut [u8],
    frame_width: u32,
    frame_height: u32,
    position: CursorFramePosition,
) -> (r: Result<(), RsnipError>)
    ensures
        match r {
            Ok(()) => {
                &&& old(frame)@.len() == 4 * (frame_height * frame_width)
                &&& final(frame)@ == cursor_drawn(old(frame)@, frame_width, position)
            },
            Err(error) => {
                &&& final(frame)@ == old(frame)@
                &&& frame_error(error, old(frame)@.len(), frame_width, frame_height)
            },
        },
{
    let ghost before = frame@;
    assert(0 <= frame_height * frame_width <= 0xffff_ffff * 0xffff_ffff) by (nonlinear_arith)
        requires
            0 <= frame_height <= 0xffff_ffff,
            0 <= frame_width <= 0xffff_ffff,
    ;
    let expected: u128 = (frame_height as u128 * frame_width as u128) * 4;
    if expected > usize::MAX as u128 {
        return Err(message_error("cursor frame dimensions overflow"));
    }
    let len: usize = frame.len();
    if len as u128 != expected {
        let mut message = "invalid frame length for cursor drawing: got ".to_owned();
        append_u64(&mut message, len as u64);
        message.append(", expected ");
        append_u64(&mut message, expected as u64);
        return Err(RsnipError::Message(message));
    }
    let ghost w = frame_width as int;
    let mut row: u32 = 0;
    proof {
        assert(before =~= cursor_part(before, frame_width, position, 0, 0)) by {
            assert forall|i: int| 0 <= i < before.len() implies before[i] == cursor_part(
                before,
                frame_width,
                position,
                0,
                0,
            )[i] by {}
        }
    }
    while row < CURSOR_ROWS
        invariant
            row <= CURSOR_ROWS,
            w == frame_width,
            len == 4 * (frame_height * frame_width),
            len == before.len(),
            frame@.len() == len,
            frame@ == cursor_part(before, frame_width, position, row as int, 0),
        decreases CURSOR_ROWS - row,
    {
        let text = chars_of(row_of_cursor(row));
        proof {
            lemma_cursor_row_len(row as int);
        }
        let mut column: u32 = 0;
        while column < CURSOR_COLUMNS
            invariant
                row < CURSOR_ROWS,
                column <= CURSOR_COLUMNS,
                text@ == cursor_row(row as int),
                text@.len() == CURSOR_COLUMNS,
                w == frame_width,
                len == 4 * (frame_height * frame_width),
                len == before.len(),
                frame@.len() == len,
                frame@ == cursor_part(before, frame_width, position, row as int, column as int),
            decreases CURSOR_COLUMNS - column,
        {
            let ghost previous = frame@;
            let mark = text[column as usize];
            let pixel: Option<[u8; 4]> = if mark == 'X' {
                Some([0u8, 0, 0, 255])
            } else if mark == 'W' {
                Some([255u8, 255, 255, 255])
            } else {
                None
            };
            assert(pixel == cursor_pixel(column as int, row as int));
            let x: u64 = position.x as u64 + column as u64;
            let y: u64 = position.y as u64 + row as u64;
            if let Some(bytes) = pixel {
                if x < frame_width as u64 && y < frame_height as u64 {
                    proof {
                        lemma_position_bound(y as int, frame_height as int, w, x as int);
                        lemma_row_position(y as int, w, x as int);
                    }
                    let at: usize = (y as usize * frame_width as usize + x as usize) * 4;
                    frame[at] = bytes[0];
                    frame[at + 1] = bytes[1];
                    frame[at + 2] = bytes[2];
                    frame[at + 3] = bytes[3];
                }
            }
            column += 1;
            proof {
                assert forall|i: int| 0 <= i < before.len() implies frame@[i] == cursor_part(
                    before,
                    frame_width,
                    position,
                    row as int,
                    column as int,
                )[i] by {
                    assert(previous[i] == cursor_part(
                        before,
                        frame_width,
                        position,
                        row as int,
                        column - 1,
                    )[i]);
                    lemma_cursor_place(i, w, frame_height as int, x as int, y as int);
                }
                assert(frame@ =~= cursor_part(
                    before,
                    frame_width,
                    position,
                    row as int,
                    column as int,
                ));
            }
        }
        row += 1;
        proof {
            assert forall|i: int| 0 <= i < before.len() implies frame@[i] == cursor_part(
                before,
                frame_width,
                position,
                row as int,
                0,
            )[i] by {}
            assert(frame@ =~= cursor_part(before, frame_width, position, row as int, 0));
        }
    }
    Ok(())
}

/// The bytes of a pixel are those whose column and row are its own.
proof fn lemma_cursor_place(i: int, width: int, height: int, x: int, y: int)
    requires
        0 <= i < 4 * (height * width),
        0 <= x,
        0 <= y,
        0 <= width,
        0 <= height,
    ensures
        width > 0,
        0 <= i / 4 % width < width,
        0 <= i / 4 / width < height,
        (i / 4 % width == x && i / 4 / width == y) <==> (x < width && y < height && i / 4 == y
            * width + x),
{
    assert(width > 0) by (nonlinear_arith)
        requires
            0 <= i < 4 * (height * width),
            0 <= width,
            0 <= height,
    ;
    let p = i / 4;
    crate::canvas::lemma_index_parts(p, width);
    assert(p / width < height) by (nonlinear_arith)
        requires
            0 <= p < height * width,
            width > 0,
            p == (p / width) * width + p % width,
            0 <= p % width,
    ;
    if x < width && y < height && p == y * width + x {
        lemma_row_position(y, width, x);
    }
}

/// Every mark of the picture that falls in the frame is drawn, whatever its row: after drawing, an
/// `X` has left its pixel black, a `W` has left it white, and any other mark has left it as it was.
/// `channel` counts the four bytes of a pixel.
pub proof fn law_cursor_shows_every_mark(
    frame: Seq<u8>,
    width: u32,
    height: u32,
    at: CursorFramePosition,
    row: int,
    column: int,
    channel: int,
)
    requires
        frame.len() == 4 * (height * width),
        0 <= row < 17,
        0 <= column < 12,
        at.x + column < width,
        at.y + row < height,
        0 <= channel < 4,
    ensures
        ({
            let place = 4 * ((at.y + row) * width + (at.x + column)) + channel;
            let mark = cursor_row(row)[column];
            let drawn = cursor_drawn(frame, width, at);
            &&& 0 <= place < drawn.len() && drawn.len() == frame.len()
            &&& mark == 'X' ==> drawn[place] == if channel == 3 {
                255u8
            } else {
                0u8
            }
            &&& mark == 'W' ==> drawn[place] == 255
            &&& mark != 'X' && mark != 'W' ==> drawn[place] == frame[place]
        }),
{
    lemma_drawn_byte(frame, width, height, at, at.x + column, at.y + row, channel);
}

/// Drawing the picture leaves every pixel as it was that is not under the picture.
pub proof fn law_cursor_changes_nothing_else(
    frame: Seq<u8>,
    width: u32,
    height: u32,
    at: CursorFramePosition,
    x: int,
    y: int,
    channel: int,
)
    requires
        frame.len() == 4 * (height * width),
        0 <= x < width,
        0 <= y < height,
        x < at.x || x >= at.x + 12 || y < at.y || y >= at.y + 17,
        0 <= channel < 4,
    ensures
        cursor_drawn(frame, width, at)[4 * (y * width + x) + channel] == frame[4 * (y * width + x)
            + channel],
{
    lemma_drawn_byte(frame, width, height, at, x, y, channel);
}

proof fn lemma_drawn_byte(
    frame: Seq<u8>,
    width: u32,
    height: u32,
    at: CursorFramePosition,
    x: int,
    y: int,
    channel: int,
)
    requires
        frame.len() == 4 * (height * width),
        0 <= x < width,
        0 <= y < height,
        0 <= channel < 4,
    ensures
        ({
            let place = 4 * (y * width + x) + channel;
            &&& 0 <= place < frame.len()
            &&& cursor_drawn(frame, width, at)[place] == match cursor_pixel(x - at.x, y - at.y) {
                Some(pixel) => pixel@[channel],
                None => frame[place],
            }
        }),
{
    let place = 4 * (y * width + x) + channel;
    lemma_position_bound(y, height as int, width as int, x);
    lemma_row_position(y, width as int, x);
    assert(place / 4 == y * width + x && place % 4 == channel);
}

/// The picture is an arrow that widens by one column with each of its first ten rows, from a black
/// edge on the left to a black edge on the right, and whose white points are closed in by others of
/// the arrow on all four sides.
pub proof fn law_cursor_is_an_outlined_arrow(row: int, column: int)
    requires
        0 <= row < 17,
        0 <= column < 12,
    ensures
        cursor_row(row).len() == 12,
        cursor_row(row)[column] == 'X' || cursor_row(row)[column] == 'W' || cursor_row(row)[column]
            == '.',
        row < 10 ==> (cursor_row(row)[column] == 'X' <==> column == 0 || column == row),
        row < 10 ==> (cursor_row(row)[column] == 'W' <==> 0 < column < row),
        cursor_row(row)[column] == 'W' ==> {
            &&& 0 < column < 11 && 0 < row < 16
            &&& cursor_row(row)[column - 1] != '.' && cursor_row(row)[column + 1] != '.'
            &&& cursor_row(row - 1)[column] != '.' && cursor_row(row + 1)[column] != '.'
        },
        row == 10 ==> (cursor_row(row)[column] != '.' <==> column < 10),
        row == 16 ==> (cursor_row(row)[column] == 'X' <==> 6 <= column <= 7),
        10 <= row < 15 ==> cursor_row(row)[0] == 'X',
        11 <= row < 16 ==> exists|edge: int|
            #![trigger cursor_row(row)[edge]]
            3 <= edge < 9 && cursor_row(row)[edge] == 'X' && cursor_row(row)[edge + 1] == 'W'
                && cursor_row(row)[edge + 2] == 'W' && cursor_row(row)[edge + 3] == 'X',
{
    lemma_cursor_row_len(row);
    reveal_strlit("X...........");
    reveal_strlit("XX..........");
    reveal_strlit("XWX.........");
    reveal_strlit("XWWX........");
    reveal_strlit("XWWWX.......");
    reveal_strlit("XWWWWX......");
    reveal_strlit("XWWWWWX.....");
    reveal_strlit("XWWWWWWX....");
    reveal_strlit("XWWWWWWWX...");
    reveal_strlit("XWWWWWWWWX..");
    reveal_strlit("XWWWWXXXXX..");
    reveal_strlit("XWWXWWX.....");
    reveal_strlit("XWX.XWWX....");
    reveal_strlit("XX..XWWX....");
    reveal_strlit("X....XWWX...");
    reveal_strlit(".....XWWX...");
    reveal_strlit("......XX....");
    if 11 <= row < 16 {
        let edge: int = if row == 11 {
            3
        } else if row <= 13 {
            4
        } else {
            5
        };
        assert(cursor_row(row)[edge] == 'X');
    }
}

/// Draws the picture of the pointer on a frame of a region, if the pointer is in it. `position` is
/// where the pointer is, or why that is not known.
pub fn draw_current_cursor_on_bgra_frame(
    frame: &mut [u8],
    frame_width: u32,
    frame_height: u32,
    region: CaptureRegion,
    position: Result<CursorScreenPosition, String>,
) -> (r: Result<CursorVisibility, RsnipError>)
    ensures
        match (position, r) {
            (Err(cause), Err(error)) => final(frame)@ == old(frame)@ && is_message(
                error,
                "failed to read cursor position: "@ + cause@,
            ),
            (Ok(at), Ok(shown)) => shown == visibility(at, region) && match shown {
                CursorVisibility::Inside(place) => final(frame)@ == cursor_drawn(
                    old(frame)@,
                    frame_width,
                    place,
                ) && old(frame)@.len() == 4 * (frame_height * frame_width),
                CursorVisibility::Outside => final(frame)@ == old(frame)@,
            },
            (Ok(at), Err(error)) => final(frame)@ == old(frame)@ && visibility(at, region) is Inside
                && frame_error(error, old(frame)@.len(), frame_width, frame_height),
            (Err(_), Ok(_)) => false,
        },
{
    let position = match position {
        Ok(position) => position,
        Err(cause) => {
            let mut message = "failed to read cursor position: ".to_owned();
            message.append(cause.as_str());
            return Err(RsnipError::Message(message));
        },
    };
    let shown = position.resolve_in_region(region);
    if let CursorVisibility::Inside(place) = shown {
        draw_cursor_on_bgra_frame(frame, frame_width, frame_height, place)?;
    }
    Ok(shown)
}

} // verus!
