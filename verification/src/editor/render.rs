//! The window of the editor: where its parts stand and what is drawn for them.
use crate::canvas::{
    disk, draw_circle_outline, draw_number, draw_thick_rect_outline, fill_circle,
    law_outline_is_drawn_on_the_edges, law_painting_sets_the_shape, lemma_index_parts,
    number_shape, outline_drawn, painted, ring, signed_frame,
};
use crate::editor::compose::{
    annotation_of_drag, arrow_shape, drawn_annotations, drawn_heads, draw_arrow, draw_pen_points,
    draw_stroke, law_arrow_has_a_head, law_strokes_follow_their_points, line_shape, pen_shape,
    ArrowHead, EditorDrag, STEP_RADIUS, STROKE_THICKNESS,
};
use crate::editor::surface::{
    cleared, draw_rect, draw_text_5x7, fill, law_rect_fills_its_rows_and_columns,
    lemma_text_drawn_len, rect_drawn, rect_fits,
    rect_fits_in, text_drawn, text_fits, text_fits_in,
};
use crate::editor::tools::{
    color_bytes, color_of_shortcut, tool_of_shortcut, EditorColor, EditorTool,
};
use crate::editor::{
    annotation_models, AnnotationModel, EditorAnnotation, EditorPoint, EditorRect,
    EditorSessionImage,
};
use crate::math::{
    clamp_int, max_int, min_int, sat_i32, sat_u32, saturating_add_i32, u32_as_i32, wrap_i32,
};
use crate::pixels::{lemma_position_bound, lemma_row_position};
use vstd::prelude::*;

verus! {

pub const TITLE_BAR_HEIGHT: u32 = 36;

pub const CLOSE_BUTTON_WIDTH: u32 = 44;

pub const COPY_BUTTON_WIDTH: u32 = 92;

pub const TOOLBAR_WIDTH: u32 = 56;

pub const CONTENT_PADDING: u32 = 16;

pub const TOOL_BUTTON_SIZE: u32 = 34;

pub const TOOL_BUTTON_GAP: u32 = 8;

pub const MIN_WINDOW_WIDTH: u32 = 360;

pub const MIN_WINDOW_HEIGHT: u32 = 240;

pub const MAX_INITIAL_WINDOW_WIDTH: u32 = 1200;

pub const MAX_INITIAL_WINDOW_HEIGHT: u32 = 900;

// ---------------------------------------------------------------------------------------------
// Layout
// ---------------------------------------------------------------------------------------------

/// Where the image stands in the window and how much of it is shown.
#[derive(Debug, Clone, Copy, PartialEq, Eq, Structural)]
pub struct EditorCanvasLayout {
    pub x: u32,
    pub y: u32,
    pub width: u32,
    pub height: u32,
    pub image_width: u32,
    pub image_height: u32,
}

/// The point of the image at a position of the window, if the image is shown there and its edges
/// are coordinates.
pub open spec fn image_point(layout: EditorCanvasLayout, x: int, y: int) -> Option<EditorPoint> {
    if layout.x + layout.width <= i32::MAX && layout.y + layout.height <= i32::MAX && layout.x <= x
        < layout.x + layout.width && layout.y <= y < layout.y + layout.height {
        Some(EditorPoint { x: (x - layout.x) as i32, y: (y - layout.y) as i32 })
    } else {
        None
    }
}

impl EditorCanvasLayout {
    /// The point of the image at a position of the window, given in whole pixels.
    pub fn image_point_from_window_position(self, x: i32, y: i32) -> (r: Option<EditorPoint>)
        ensures
            r == image_point(self, x as int, y as int),
    {
        let right: u64 = self.x as u64 + self.width as u64;
        let bottom: u64 = self.y as u64 + self.height as u64;
        if right > i32::MAX as u64 || bottom > i32::MAX as u64 {
            return None;
        }
        let left = self.x as i32;
        let top = self.y as i32;
        if x < left || y < top || x >= right as i32 || y >= bottom as i32 {
            return None;
        }
        Some(EditorPoint::new(x - left, y - top))
    }
}

/// The layout of a window of the given size that shows an image of the given size: right of the
/// toolbar, below the title bar, with padding around, and cut off where there is no room.
pub open spec fn layout_of(
    window_width: u32,
    window_height: u32,
    image_width: u32,
    image_height: u32,
) -> EditorCanvasLayout {
    let x = CONTENT_PADDING * 2 + TOOLBAR_WIDTH;
    let y = TITLE_BAR_HEIGHT + CONTENT_PADDING;
    EditorCanvasLayout {
        x: x as u32,
        y: y as u32,
        width: min_int(
            image_width as int,
            max_int(window_width - (x + CONTENT_PADDING), 0),
        ) as u32,
        height: min_int(
            image_height as int,
            max_int(window_height - (y + CONTENT_PADDING), 0),
        ) as u32,
        image_width,
        image_height,
    }
}

/// The canvas stands right of the toolbar and below the title bar, 16 pixels from each and from the
/// edges of the window, and is as large as the image unless the window is too small for that.
pub proof fn law_canvas_fits_the_window(
    window_width: u32,
    window_height: u32,
    image_width: u32,
    image_height: u32,
)
    ensures
        ({
            let layout = layout_of(window_width, window_height, image_width, image_height);
            &&& layout.x == 16 + TOOLBAR_WIDTH + 16 && layout.y == TITLE_BAR_HEIGHT + 16
            &&& layout.width <= image_width && layout.height <= image_height
            &&& layout.width > 0 ==> layout.x + layout.width + 16 <= window_width
            &&& layout.height > 0 ==> layout.y + layout.height + 16 <= window_height
            &&& layout.width < image_width ==> layout.x + layout.width + 16 >= window_width
            &&& layout.height < image_height ==> layout.y + layout.height + 16 >= window_height
            &&& layout.image_width == image_width && layout.image_height == image_height
        }),
{
}

/// Computes the layout of a window.
pub fn canvas_layout(
    window_width: u32,
    window_height: u32,
    image_width: u32,
    image_height: u32,
) -> (r: EditorCanvasLayout)
    ensures
        r == layout_of(window_width, window_height, image_width, image_height),
{
    let x = CONTENT_PADDING * 2 + TOOLBAR_WIDTH;
    let y = TITLE_BAR_HEIGHT + CONTENT_PADDING;
    let max_width = window_width.saturating_sub(x + CONTENT_PADDING);
    let max_height = window_height.saturating_sub(y + CONTENT_PADDING);
    EditorCanvasLayout {
        x,
        y,
        width: image_width.min(max_width),
        height: image_height.min(max_height),
        image_width,
        image_height,
    }
}

/// Every point of the image that a window gives is a point of the image.
pub proof fn law_image_points_lie_in_the_image(
    window_width: u32,
    window_height: u32,
    image_width: u32,
    image_height: u32,
    x: int,
    y: int,
)
    ensures
        image_point(layout_of(window_width, window_height, image_width, image_height), x, y)
            matches Some(point) ==> 0 <= point.x < image_width && 0 <= point.y < image_height,
{
}

/// The height of the toolbar.
pub fn toolbar_height(window_height: u32) -> (r: u32)
    ensures
        r == max_int(window_height - (TITLE_BAR_HEIGHT + CONTENT_PADDING * 2), 0),
{
    window_height.saturating_sub(TITLE_BAR_HEIGHT + CONTENT_PADDING * 2)
}

/// The size with which the window opens, as a pair of numbers.
pub open spec fn opening_size(image_width: u32, image_height: u32) -> (int, int) {
    (
        clamp_int(
            image_width + TOOLBAR_WIDTH + CONTENT_PADDING * 3,
            MIN_WINDOW_WIDTH as int,
            MAX_INITIAL_WINDOW_WIDTH as int,
        ),
        clamp_int(
            image_height + TITLE_BAR_HEIGHT + CONTENT_PADDING * 2,
            MIN_WINDOW_HEIGHT as int,
            MAX_INITIAL_WINDOW_HEIGHT as int,
        ),
    )
}

/// The window opens so large that its canvas shows the whole image, unless that would make it wider
/// than 1200 or higher than 900 pixels, and never smaller than 360 by 240.
pub proof fn law_window_opens_around_the_image(image_width: u32, image_height: u32)
    ensures
        ({
            let (width, height) = opening_size(image_width, image_height);
            let layout = layout_of(width as u32, height as u32, image_width, image_height);
            &&& 360 <= width <= 1200 && 240 <= height <= 900
            &&& width < 1200 ==> layout.width == image_width
            &&& height < 900 ==> layout.height == image_height
            &&& width > 360 && width < 1200 ==> layout.x + image_width + 16 == width
            &&& height > 240 && height < 900 ==> layout.y + image_height + 16 == height
        }),
{
}

/// The size with which the window opens: room for the image and what stands around it, within
/// limits.
pub fn initial_window_size(image_width: u32, image_height: u32) -> (r: (u32, u32))
    ensures
        r.0 == opening_size(image_width, image_height).0,
        r.1 == opening_size(image_width, image_height).1,
        r.0 == clamp_int(
            image_width + TOOLBAR_WIDTH + CONTENT_PADDING * 3,
            MIN_WINDOW_WIDTH as int,
            MAX_INITIAL_WINDOW_WIDTH as int,
        ),
        r.1 == clamp_int(
            image_height + TITLE_BAR_HEIGHT + CONTENT_PADDING * 2,
            MIN_WINDOW_HEIGHT as int,
            MAX_INITIAL_WINDOW_HEIGHT as int,
        ),
{
    let width = image_width.saturating_add(TOOLBAR_WIDTH).saturating_add(CONTENT_PADDING * 3);
    let height = image_height.saturating_add(TITLE_BAR_HEIGHT).saturating_add(CONTENT_PADDING * 2);
    let width: u32 = if width < MIN_WINDOW_WIDTH {
        MIN_WINDOW_WIDTH
    } else if width > MAX_INITIAL_WINDOW_WIDTH {
        MAX_INITIAL_WINDOW_WIDTH
    } else {
        width
    };
    let height: u32 = if height < MIN_WINDOW_HEIGHT {
        MIN_WINDOW_HEIGHT
    } else if height > MAX_INITIAL_WINDOW_HEIGHT {
        MAX_INITIAL_WINDOW_HEIGHT
    } else {
        height
    };
    (width, height)
}

// ---------------------------------------------------------------------------------------------
// Colours
// ---------------------------------------------------------------------------------------------

/// The red, green and blue parts of a pixel in one number.
pub open spec fn packed_color(rgba: [u8; 4]) -> int {
    rgba@[0] * 0x10000 + rgba@[1] * 0x100 + rgba@[2]
}

/// Packs the red, green and blue parts of a pixel into one number.
pub fn rgba_to_softbuffer_color(rgba: [u8; 4]) -> (r: u32)
    ensures
        r == packed_color(rgba),
{
    rgba[0] as u32 * 0x10000 + rgba[1] as u32 * 0x100 + rgba[2] as u32
}

/// The parts of a packed colour, fully opaque.
pub fn softbuffer_color_to_rgba(color: u32) -> (r: [u8; 4])
    ensures
        r@[0] == color as int / 0x10000 % 0x100,
        r@[1] == color as int / 0x100 % 0x100,
        r@[2] == color as int % 0x100,
        r@[3] == 0xff,
{
    [
        (color / 0x10000 % 0x100) as u8,
        (color / 0x100 % 0x100) as u8,
        (color % 0x100) as u8,
        0xff,
    ]
}

/// Packing an opaque colour and taking it apart again gives it back.
pub proof fn law_packed_color_keeps_its_parts(rgba: [u8; 4])
    ensures
        packed_color(rgba) / 0x10000 % 0x100 == rgba@[0],
        packed_color(rgba) / 0x100 % 0x100 == rgba@[1],
        packed_color(rgba) % 0x100 == rgba@[2],
        0 <= packed_color(rgba) <= 0xff_ffff,
{
}

// ---------------------------------------------------------------------------------------------
// Steps
// ---------------------------------------------------------------------------------------------

/// Which font a label is written in.
#[derive(Debug, Clone, Copy, PartialEq, Eq, Structural)]
pub enum FontFace {
    Ui,
    Symbol,
}

/// A step in drawing the window. The size of a label is the height of its font in pixels.
#[derive(Debug, Clone, Copy, PartialEq, Eq)]
pub enum DrawStep {
    Fill { color: u32 },
    Rect { x: u32, y: u32, width: u32, height: u32, color: u32 },
    Outline { x: u32, y: u32, width: u32, height: u32, color: u32 },
    Label { x: u32, y: u32, text: &'static str, color: u32, size: u32, face: FontFace },
}

/// The left edge of the close button.
pub open spec fn close_left(width: u32) -> int {
    max_int(width - CLOSE_BUTTON_WIDTH, 0)
}

/// The left edge of the copy button.
pub open spec fn copy_left(width: u32) -> int {
    max_int(close_left(width) - COPY_BUTTON_WIDTH, 0)
}

/// The steps that draw the title bar: its ground, the two buttons, and the labels.
pub open spec fn title_bar(width: u32, height: u32) -> Seq<DrawStep> {
    let title_height = min_int(TITLE_BAR_HEIGHT as int, height as int) as u32;
    let close_x = close_left(width) as u32;
    let copy_x = copy_left(width) as u32;
    seq![
        DrawStep::Rect { x: 0, y: 0, width, height: title_height, color: 0x0022_2222 },
        DrawStep::Rect {
            x: copy_x,
            y: 0,
            width: COPY_BUTTON_WIDTH,
            height: title_height,
            color: 0x0038_5f88,
        },
        DrawStep::Rect {
            x: close_x,
            y: 0,
            width: CLOSE_BUTTON_WIDTH,
            height: title_height,
            color: 0x0088_3333,
        },
        DrawStep::Label {
            x: 14,
            y: 10,
            text: "RSNIP EDITOR",
            color: 0x00e8_e8e8,
            size: 16,
            face: FontFace::Ui,
        },
        DrawStep::Label {
            x: (copy_x + 14) as u32,
            y: 9,
            text: "Copiar",
            color: 0x00ff_ffff,
            size: 16,
            face: FontFace::Ui,
        },
        DrawStep::Label {
            x: (close_x + 15) as u32,
            y: 8,
            text: "×",
            color: 0x00ff_ffff,
            size: 22,
            face: FontFace::Ui,
        },
    ]
}

/// Lists the steps that draw the title bar.
pub fn title_bar_steps(width: u32, height: u32) -> (r: Vec<DrawStep>)
    ensures
        r@ == title_bar(width, height),
{
    let title_height = TITLE_BAR_HEIGHT.min(height);
    let close_x = width.saturating_sub(CLOSE_BUTTON_WIDTH);
    let copy_x = close_x.saturating_sub(COPY_BUTTON_WIDTH);
    let mut steps: Vec<DrawStep> = Vec::new();
    steps.push(DrawStep::Rect { x: 0, y: 0, width, height: title_height, color: 0x0022_2222 });
    steps.push(
        DrawStep::Rect {
            x: copy_x,
            y: 0,
            width: COPY_BUTTON_WIDTH,
            height: title_height,
            color: 0x0038_5f88,
        },
    );
    steps.push(
        DrawStep::Rect {
            x: close_x,
            y: 0,
            width: CLOSE_BUTTON_WIDTH,
            height: title_height,
            color: 0x0088_3333,
        },
    );
    steps.push(
        DrawStep::Label {
            x: 14,
            y: 10,
            text: "RSNIP EDITOR",
            color: 0x00e8_e8e8,
            size: 16,
            face: FontFace::Ui,
        },
    );
    steps.push(
        DrawStep::Label {
            x: copy_x + 14,
            y: 9,
            text: "Copiar",
            color: 0x00ff_ffff,
            size: 16,
            face: FontFace::Ui,
        },
    );
    steps.push(
        DrawStep::Label {
            x: close_x + 15,
            y: 8,
            text: "×",
            color: 0x00ff_ffff,
            size: 22,
            face: FontFace::Ui,
        },
    );
    assert(steps@ =~= title_bar(width, height));
    steps
}

/// The tool of a button of the toolbar, counted from the top.
pub open spec fn tool_at(index: int) -> EditorTool {
    if index == 0 {
        EditorTool::Pen
    } else if index == 1 {
        EditorTool::Arrow
    } else if index == 2 {
        EditorTool::Line
    } else if index == 3 {
        EditorTool::Rectangle
    } else if index == 4 {
        EditorTool::Redact
    } else {
        EditorTool::Step
    }
}

/// The colour of a swatch, counted from the top.
pub open spec fn color_at(index: int) -> EditorColor {
    if index == 0 {
        EditorColor::Red
    } else if index == 1 {
        EditorColor::Blue
    } else if index == 2 {
        EditorColor::Green
    } else {
        EditorColor::Yellow
    }
}

/// The label of a tool whose button stands at a place.
pub open spec fn tool_icon(tool: EditorTool, x: u32, y: u32) -> DrawStep {
    let (text, size, dx, dy): (&'static str, u32, int, int) = match tool {
        EditorTool::Pen => ("✎", 24, 8, 5),
        EditorTool::Arrow => ("↗", 24, 8, 5),
        EditorTool::Line => ("╱", 24, 9, 5),
        EditorTool::Rectangle => ("□", 25, 7, 4),
        EditorTool::Redact => ("▰", 23, 8, 6),
        EditorTool::Step => ("①", 22, 7, 6),
    };
    DrawStep::Label {
        x: (x + dx) as u32,
        y: (y + dy) as u32,
        text,
        color: 0x00f0_f0f0,
        size,
        face: FontFace::Symbol,
    }
}

/// The label of a tool.
pub fn draw_tool_icon(tool: EditorTool, x: u32, y: u32) -> (r: DrawStep)
    requires
        x <= u32::MAX - 9,
        y <= u32::MAX - 6,
    ensures
        r == tool_icon(tool, x, y),
{
    let face = FontFace::Symbol;
    let color: u32 = 0x00f0_f0f0;
    match tool {
        EditorTool::Pen => DrawStep::Label { x: x + 8, y: y + 5, text: "✎", color, size: 24, face },
        EditorTool::Arrow => DrawStep::Label { x: x + 8, y: y + 5, text: "↗", color, size: 24, face },
        EditorTool::Line => DrawStep::Label { x: x + 9, y: y + 5, text: "╱", color, size: 24, face },
        EditorTool::Rectangle => DrawStep::Label {
            x: x + 7,
            y: y + 4,
            text: "□",
            color,
            size: 25,
            face,
        },
        EditorTool::Redact => DrawStep::Label { x: x + 8, y: y + 6, text: "▰", color, size: 23, face },
        EditorTool::Step => DrawStep::Label { x: x + 7, y: y + 6, text: "①", color, size: 22, face },
    }
}

/// The steps that draw a button of the toolbar: its ground, its outline and its icon.
pub open spec fn tool_button(index: int, active_tool: EditorTool) -> Seq<DrawStep> {
    let x = (CONTENT_PADDING + 11) as u32;
    let y = (TITLE_BAR_HEIGHT + CONTENT_PADDING + TOOL_BUTTON_GAP + index * (TOOL_BUTTON_SIZE
        + TOOL_BUTTON_GAP)) as u32;
    seq![
        DrawStep::Rect {
            x,
            y,
            width: TOOL_BUTTON_SIZE,
            height: TOOL_BUTTON_SIZE,
            color: if tool_at(index) == active_tool {
                0x0060_6060
            } else {
                0x003c_3c3c
            },
        },
        DrawStep::Outline {
            x,
            y,
            width: TOOL_BUTTON_SIZE,
            height: TOOL_BUTTON_SIZE,
            color: 0x00aa_aaaa,
        },
        tool_icon(tool_at(index), x, y),
    ]
}

/// The steps that draw the first buttons of the toolbar.
pub open spec fn tool_buttons(count: int, active_tool: EditorTool) -> Seq<DrawStep>
    decreases count,
{
    if count <= 0 {
        Seq::empty()
    } else {
        tool_buttons(count - 1, active_tool) + tool_button(count - 1, active_tool)
    }
}

/// The steps that draw a colour swatch: its ground and, where its colour is in use, an outline
/// around it.
pub open spec fn swatch(height: u32, index: int, active_color: EditorColor) -> Seq<DrawStep> {
    let y = max_int(height - 108, 0) + index * 24;
    let ground = seq![
        DrawStep::Rect {
            x: (CONTENT_PADDING + 17) as u32,
            y: y as u32,
            width: 22,
            height: 18,
            color: packed_color(color_bytes(color_at(index))) as u32,
        },
    ];
    if color_at(index) == active_color {
        ground.push(
            DrawStep::Outline {
                x: (CONTENT_PADDING + 15) as u32,
                y: (if y >= 2 {
                    y - 2
                } else {
                    y - 2 + 0x1_0000_0000
                }) as u32,
                width: 26,
                height: 22,
                color: 0x00ff_ffff,
            },
        )
    } else {
        ground
    }
}

/// The steps that draw the first swatches.
pub open spec fn swatches(height: u32, count: int, active_color: EditorColor) -> Seq<DrawStep>
    decreases count,
{
    if count <= 0 {
        Seq::empty()
    } else {
        swatches(height, count - 1, active_color) + swatch(height, count - 1, active_color)
    }
}

/// The steps that draw the toolbar: its ground, the buttons of the tools and the swatches.
pub open spec fn toolbar(height: u32, active_tool: EditorTool, active_color: EditorColor) -> Seq<
    DrawStep,
> {
    seq![
        DrawStep::Rect {
            x: CONTENT_PADDING,
            y: (TITLE_BAR_HEIGHT + CONTENT_PADDING) as u32,
            width: TOOLBAR_WIDTH,
            height: max_int(height - (TITLE_BAR_HEIGHT + CONTENT_PADDING * 2), 0) as u32,
            color: 0x0028_2828,
        },
    ] + tool_buttons(6, active_tool) + swatches(height, 4, active_color)
}

/// The buttons stand in the order of the keys that pick their tools, and the swatches in the order
/// of the keys that pick their colours; every tool has a button and every colour a swatch.
pub proof fn law_buttons_follow_the_keys(index: int, tool: EditorTool, color: EditorColor)
    ensures
        0 <= index < 6 ==> tool_of_shortcut((('1' as int) + index) as char) == Some(
            tool_at(index),
        ),
        color_of_shortcut('q') == Some(color_at(0)) && color_of_shortcut('Q') == Some(color_at(0)),
        color_of_shortcut('w') == Some(color_at(1)) && color_of_shortcut('W') == Some(color_at(1)),
        color_of_shortcut('e') == Some(color_at(2)) && color_of_shortcut('E') == Some(color_at(2)),
        color_of_shortcut('r') == Some(color_at(3)) && color_of_shortcut('R') == Some(color_at(3)),
        exists|i: int| 0 <= i < 6 && #[trigger] tool_at(i) == tool,
        exists|i: int| 0 <= i < 4 && #[trigger] color_at(i) == color,
{
    assert(tool_at(0) is Pen && tool_at(1) is Arrow && tool_at(2) is Line && tool_at(3) is Rectangle
        && tool_at(4) is Redact && tool_at(5) is Step);
    assert(color_at(0) is Red && color_at(1) is Blue && color_at(2) is Green && color_at(3) is Yellow);
}

/// The buttons stand one below the other in the toolbar, 8 pixels apart, each with the icon of its
/// tool; the one of the tool in use, and no other, is lighter.
pub proof fn law_tool_buttons_stand_in_the_toolbar(index: int, active_tool: EditorTool)
    requires
        0 <= index < 6,
    ensures
        ({
            let steps = tool_buttons(6, active_tool);
            &&& steps.len() == 18
            &&& steps[3 * index] matches DrawStep::Rect { x, y, width, height, color }
            &&& width == 34 && height == 34
            &&& x - CONTENT_PADDING == CONTENT_PADDING + TOOLBAR_WIDTH - (x + width)
            &&& y == TITLE_BAR_HEIGHT + CONTENT_PADDING + 8 + 42 * index
            &&& color == 0x60_6060 <==> tool_at(index) == active_tool
            &&& steps[3 * index + 1] == (DrawStep::Outline {
                x,
                y,
                width,
                height,
                color: 0x00aa_aaaa,
            })
            &&& steps[3 * index + 2] == tool_icon(tool_at(index), x, y)
        }),
{
    lemma_tool_buttons(6, index, active_tool);
}

proof fn lemma_tool_buttons(count: int, index: int, active_tool: EditorTool)
    requires
        0 <= index < count <= 6,
    ensures
        tool_buttons(count, active_tool).len() == 3 * count,
        tool_buttons(count, active_tool).subrange(3 * index, 3 * index + 3) == tool_button(
            index,
            active_tool,
        ),
        tool_buttons(count, active_tool)[3 * index] == tool_button(index, active_tool)[0],
        tool_buttons(count, active_tool)[3 * index + 1] == tool_button(index, active_tool)[1],
        tool_buttons(count, active_tool)[3 * index + 2] == tool_button(index, active_tool)[2],
    decreases count,
{
    let steps = tool_buttons(count, active_tool);
    if count > 1 {
        lemma_tool_buttons(
            count - 1,
            if index < count - 1 {
                index
            } else {
                0
            },
            active_tool,
        );
    } else {
        assert(tool_buttons(0, active_tool) =~= Seq::empty());
    }
    assert(steps.subrange(3 * index, 3 * index + 3) =~= tool_button(index, active_tool)) by {
        if index < count - 1 {
            let before = tool_buttons(count - 1, active_tool);
            assert(steps.subrange(3 * index, 3 * index + 3) =~= before.subrange(
                3 * index,
                3 * index + 3,
            ));
        }
    }
    let part = steps.subrange(3 * index, 3 * index + 3);
    assert(steps[3 * index] == part[0] && steps[3 * index + 1] == part[1] && steps[3 * index + 2]
        == part[2]);
}

/// The toolbar shows its ground, the six buttons and the four swatches, in this order.
pub proof fn law_toolbar_shows_all_its_parts(
    height: u32,
    active_tool: EditorTool,
    active_color: EditorColor,
)
    ensures
        ({
            let steps = toolbar(height, active_tool, active_color);
            let colors = swatch(height, 0, active_color) + swatch(height, 1, active_color) + swatch(
                height,
                2,
                active_color,
            ) + swatch(height, 3, active_color);
            &&& steps.subrange(1, 19) == tool_buttons(6, active_tool)
            &&& steps.skip(19) == colors
            &&& colors.len() == 5
            &&& steps[0] matches DrawStep::Rect { x, y, width, height: high, .. }
            &&& x == 16 && width == 56 && y == TITLE_BAR_HEIGHT + 16
            &&& height >= y + 16 ==> y + high + 16 == height
        }),
{
    let steps = toolbar(height, active_tool, active_color);
    lemma_tool_buttons(6, 0, active_tool);
    reveal_with_fuel(swatches, 5);
    let colors = swatch(height, 0, active_color) + swatch(height, 1, active_color) + swatch(
        height,
        2,
        active_color,
    ) + swatch(height, 3, active_color);
    assert(swatches(height, 4, active_color) =~= colors);
    assert(steps.subrange(1, 19) =~= tool_buttons(6, active_tool));
    assert(steps.skip(19) =~= colors);
}

/// A swatch is filled with its colour and stands 24 pixels below the one before it; the swatch of
/// the colour in use, and no other, has a white outline two pixels around it.
pub proof fn law_swatches_show_their_colors(height: u32, index: int, active_color: EditorColor)
    requires
        0 <= index < 4,
        height >= 110,
        height <= 0x7fff_ffff,
    ensures
        ({
            let steps = swatch(height, index, active_color);
            &&& steps[0] matches DrawStep::Rect { x, y, width, height: high, color }
            &&& y == height - 108 + 24 * index && width == 22 && high == 18
            &&& color as int / 0x10000 == color_bytes(color_at(index))@[0]
            &&& color as int / 0x100 % 0x100 == color_bytes(color_at(index))@[1]
            &&& color as int % 0x100 == color_bytes(color_at(index))@[2]
            &&& steps.len() == 2 <==> color_at(index) == active_color
            &&& steps.len() == 2 ==> steps[1] == (DrawStep::Outline {
                x: (x - 2) as u32,
                y: (y - 2) as u32,
                width: (width + 4) as u32,
                height: (high + 4) as u32,
                color: 0x00ff_ffff,
            })
            &&& steps.len() == 1 || steps.len() == 2
        }),
{
    law_packed_color_keeps_its_parts(color_bytes(color_at(index)));
}

fn tool_of_button(index: u32) -> (r: EditorTool)
    ensures
        r == tool_at(index as int),
{
    match index {
        0 => EditorTool::Pen,
        1 => EditorTool::Arrow,
        2 => EditorTool::Line,
        3 => EditorTool::Rectangle,
        4 => EditorTool::Redact,
        _ => EditorTool::Step,
    }
}

fn color_of_swatch(index: u32) -> (r: EditorColor)
    ensures
        r == color_at(index as int),
{
    match index {
        0 => EditorColor::Red,
        1 => EditorColor::Blue,
        2 => EditorColor::Green,
        _ => EditorColor::Yellow,
    }
}

/// Lists the steps that draw the toolbar.
pub fn toolbar_steps(height: u32, active_tool: EditorTool, active_color: EditorColor) -> (r: Vec<
    DrawStep,
>)
    ensures
        r@ == toolbar(height, active_tool, active_color),
{
    let x: u32 = CONTENT_PADDING;
    let y: u32 = TITLE_BAR_HEIGHT + CONTENT_PADDING;
    let mut steps: Vec<DrawStep> = Vec::new();
    steps.push(
        DrawStep::Rect {
            x,
            y,
            width: TOOLBAR_WIDTH,
            height: toolbar_height(height),
            color: 0x0028_2828,
        },
    );
    let ghost ground = steps@;
    assert(ground + tool_buttons(0, active_tool) =~= ground);
    let mut index: u32 = 0;
    while index < 6
        invariant
            index <= 6,
            x == CONTENT_PADDING,
            y == TITLE_BAR_HEIGHT + CONTENT_PADDING,
            steps@ == ground + tool_buttons(index as int, active_tool),
        decreases 6 - index,
    {
        let tool = tool_of_button(index);
        let pitch: u32 = TOOL_BUTTON_SIZE + TOOL_BUTTON_GAP;
        assert(index * pitch <= 5 * 42) by (nonlinear_arith)
            requires
                index <= 5,
                pitch == 42,
        ;
        let button_y: u32 = y + TOOL_BUTTON_GAP + index * pitch;
        let color: u32 = if tool == active_tool {
            0x0060_6060
        } else {
            0x003c_3c3c
        };
        steps.push(
            DrawStep::Rect {
                x: x + 11,
                y: button_y,
                width: TOOL_BUTTON_SIZE,
                height: TOOL_BUTTON_SIZE,
                color,
            },
        );
        steps.push(
            DrawStep::Outline {
                x: x + 11,
                y: button_y,
                width: TOOL_BUTTON_SIZE,
                height: TOOL_BUTTON_SIZE,
                color: 0x00aa_aaaa,
            },
        );
        steps.push(draw_tool_icon(tool, x + 11, button_y));
        index += 1;
        assert(steps@ =~= ground + tool_buttons(index as int, active_tool));
    }
    let ghost buttons = steps@;
    assert(buttons + swatches(height, 0, active_color) =~= buttons);
    let colors_y: u32 = height.saturating_sub(CONTENT_PADDING + 4 * 18 + 3 * 6 + 2);
    let mut place: u32 = 0;
    while place < 4
        invariant
            place <= 4,
            x == CONTENT_PADDING,
            colors_y == max_int(height - 108, 0),
            steps@ == buttons + swatches(height, place as int, active_color),
        decreases 4 - place,
    {
        let color = color_of_swatch(place);
        let swatch_y: u32 = colors_y + place * 24;
        proof {
            law_packed_color_keeps_its_parts(color_bytes(color));
        }
        let rgb = rgba_to_softbuffer_color(color.rgba());
        steps.push(
            DrawStep::Rect { x: x + 17, y: swatch_y, width: 22, height: 18, color: rgb },
        );
        if color == active_color {
            steps.push(
                DrawStep::Outline {
                    x: x + 15,
                    y: swatch_y.wrapping_sub(2),
                    width: 26,
                    height: 22,
                    color: 0x00ff_ffff,
                },
            );
        }
        place += 1;
        assert(steps@ =~= buttons + swatches(height, place as int, active_color));
    }
    assert(steps@ =~= toolbar(height, active_tool, active_color));
    steps
}

/// The steps that draw the window up to the image: its ground, the title bar, the toolbar and the
/// ground of the image.
pub open spec fn shell(
    width: u32,
    height: u32,
    layout: EditorCanvasLayout,
    active_tool: EditorTool,
    active_color: EditorColor,
) -> Seq<DrawStep> {
    (seq![DrawStep::Fill { color: 0x0030_3030 }] + title_bar(width, height) + toolbar(
        height,
        active_tool,
        active_color,
    )).push(
        DrawStep::Rect {
            x: layout.x,
            y: layout.y,
            width: layout.width,
            height: layout.height,
            color: 0x0044_4444,
        },
    )
}

/// Lists the steps that draw the window up to the image.
pub fn shell_steps(
    width: u32,
    height: u32,
    layout: EditorCanvasLayout,
    active_tool: EditorTool,
    active_color: EditorColor,
) -> (r: Vec<DrawStep>)
    ensures
        r@ == shell(width, height, layout, active_tool, active_color),
{
    let mut steps: Vec<DrawStep> = Vec::new();
    steps.push(DrawStep::Fill { color: 0x0030_3030 });
    let mut title = title_bar_steps(width, height);
    let mut tools = toolbar_steps(height, active_tool, active_color);
    steps.append(&mut title);
    steps.append(&mut tools);
    steps.push(
        DrawStep::Rect {
            x: layout.x,
            y: layout.y,
            width: layout.width,
            height: layout.height,
            color: 0x0044_4444,
        },
    );
    assert(steps@ =~= shell(width, height, layout, active_tool, active_color));
    steps
}

/// The size of the cells of a label that is written without a font.
pub const LABEL_SCALE: u32 = 2;

/// Whether a step draws only on a buffer of the given length.
pub open spec fn step_fits(len: nat, width: u32, height: u32, step: DrawStep) -> bool {
    match step {
        DrawStep::Fill { .. } => width * height <= len,
        DrawStep::Rect { x, y, width: w, height: h, .. } => rect_fits(len, width, x, y, w, h),
        DrawStep::Outline { .. } => true,
        DrawStep::Label { x, y, text, .. } => text_fits(len, width, x, y, text@, LABEL_SCALE),
    }
}

/// Tells whether a step draws only on a buffer of the given length.
pub fn step_fits_in(len: usize, width: u32, height: u32, step: &DrawStep) -> (r: bool)
    ensures
        r == step_fits(len as nat, width, height, *step),
{
    match step {
        DrawStep::Fill { .. } => {
            assert(0 <= width * height <= 0x1_0000_0000 * 0x1_0000_0000) by (nonlinear_arith)
                requires
                    0 <= width <= 0x1_0000_0000,
                    0 <= height <= 0x1_0000_0000,
            ;
            width as u128 * height as u128 <= len as u128
        },
        DrawStep::Rect { x, y, width: w, height: h, .. } => rect_fits_in(len, width, *x, *y, *w, *h),
        DrawStep::Outline { .. } => true,
        DrawStep::Label { x, y, text, .. } => text_fits_in(len, width, *x, *y, text, LABEL_SCALE),
    }
}

/// A buffer on which a step has been drawn, with labels written without a font.
pub open spec fn step_drawn(pixels: Seq<u32>, width: u32, height: u32, step: DrawStep) -> Seq<u32> {
    match step {
        DrawStep::Fill { color } => cleared(pixels, width, height, color),
        DrawStep::Rect { x, y, width: w, height: h, color } => rect_drawn(
            pixels,
            width,
            x,
            y,
            w,
            h,
            color,
        ),
        DrawStep::Outline { x, y, width: w, height: h, color } => outline_drawn(
            pixels,
            width,
            height,
            x,
            y,
            w,
            h,
            color,
            1,
        ),
        DrawStep::Label { x, y, text, color, .. } => text_drawn(
            pixels,
            width,
            x,
            y,
            text@,
            text@.len() as int,
            color,
            LABEL_SCALE,
        ),
    }
}

/// Draws a step; a label is written without a font.
pub fn draw_step(buffer: &mut [u32], width: u32, height: u32, step: DrawStep)
    requires
        step_fits(old(buffer)@.len(), width, height, step),
    ensures
        final(buffer)@ == step_drawn(old(buffer)@, width, height, step),
{
    match step {
        DrawStep::Fill { color } => fill(buffer, width, height, color),
        DrawStep::Rect { x, y, width: w, height: h, color } => draw_rect(
            buffer,
            width,
            x,
            y,
            w,
            h,
            color,
        ),
        DrawStep::Outline { x, y, width: w, height: h, color } => draw_thick_rect_outline(
            buffer,
            width,
            height,
            x,
            y,
            w,
            h,
            color,
            1,
        ),
        DrawStep::Label { x, y, text, color, .. } => draw_text_5x7(
            buffer,
            width,
            x,
            y,
            text,
            color,
            LABEL_SCALE,
        ),
    }
}

/// A buffer on which a list of steps has been drawn.
pub open spec fn steps_drawn(pixels: Seq<u32>, width: u32, height: u32, steps: Seq<DrawStep>) -> Seq<
    u32,
>
    decreases steps.len(),
{
    if steps.len() == 0 {
        pixels
    } else {
        step_drawn(
            steps_drawn(pixels, width, height, steps.drop_last()),
            width,
            height,
            steps.last(),
        )
    }
}

/// The steps are drawn one on top of the other: a rectangle covers what was drawn before it, and a
/// fill covers everything.
pub proof fn law_steps_are_drawn_on_top(
    pixels: Seq<u32>,
    width: u32,
    height: u32,
    steps: Seq<DrawStep>,
    x: u32,
    y: u32,
    rect_width: u32,
    rect_height: u32,
    color: u32,
    px: int,
    py: int,
)
    requires
        x + rect_width <= width,
        y + rect_height <= u32::MAX,
        0 <= px < width,
        0 <= py < height,
        py * width + px < pixels.len(),
        steps_drawn(pixels, width, height, steps).len() == pixels.len(),
    ensures
        ({
            let before = steps_drawn(pixels, width, height, steps);
            let rect = DrawStep::Rect { x, y, width: rect_width, height: rect_height, color };
            let after = steps_drawn(pixels, width, height, steps.push(rect));
            let filled = steps_drawn(pixels, width, height, steps.push(DrawStep::Fill { color }));
            let place = py * width + px;
            &&& x <= px < x + rect_width && y <= py < y + rect_height ==> after[place] == color
            &&& !(x <= px < x + rect_width && y <= py < y + rect_height) ==> after[place]
                == before[place]
            &&& filled[place] == color
        }),
{
    let before = steps_drawn(pixels, width, height, steps);
    let rect = DrawStep::Rect { x, y, width: rect_width, height: rect_height, color };
    assert(steps.push(rect).drop_last() =~= steps);
    assert(steps.push(DrawStep::Fill { color }).drop_last() =~= steps);
    law_rect_fills_its_rows_and_columns(
        before,
        width,
        x,
        y,
        rect_width,
        rect_height,
        color,
        px,
        py,
    );
    lemma_position_bound(py, height as int, width as int, px);
    assert(height * width == width * height) by (nonlinear_arith);
}

/// The window is filled first, then come the title bar and the toolbar, and last the ground of the
/// canvas, where the layout has it.
pub proof fn law_shell_draws_the_canvas_last(
    width: u32,
    height: u32,
    layout: EditorCanvasLayout,
    active_tool: EditorTool,
    active_color: EditorColor,
)
    ensures
        ({
            let steps = shell(width, height, layout, active_tool, active_color);
            let bar = title_bar(width, height);
            let tools = toolbar(height, active_tool, active_color);
            &&& steps.first() is Fill
            &&& steps.subrange(1, 1 + bar.len() as int) == bar
            &&& steps.subrange(1 + bar.len() as int, 1 + bar.len() + tools.len() as int) == tools
            &&& steps.len() == 2 + bar.len() + tools.len()
            &&& steps.last() matches DrawStep::Rect { x, y, width: wide, height: high, .. }
            &&& x == layout.x && y == layout.y && wide == layout.width && high == layout.height
        }),
{
    let steps = shell(width, height, layout, active_tool, active_color);
    let bar = title_bar(width, height);
    let tools = toolbar(height, active_tool, active_color);
    assert(steps.subrange(1, 1 + bar.len() as int) =~= bar);
    assert(steps.subrange(1 + bar.len() as int, 1 + bar.len() + tools.len() as int) =~= tools);
}

/// Drawing steps does not change the length of a buffer.
pub proof fn lemma_steps_drawn_len(pixels: Seq<u32>, width: u32, height: u32, steps: Seq<DrawStep>)
    ensures
        steps_drawn(pixels, width, height, steps).len() == pixels.len(),
    decreases steps.len(),
{
    if steps.len() > 0 {
        lemma_steps_drawn_len(pixels, width, height, steps.drop_last());
        let before = steps_drawn(pixels, width, height, steps.drop_last());
        match steps.last() {
            DrawStep::Label { x, y, text, color, .. } => {
                lemma_text_drawn_len(
                    before,
                    width,
                    x,
                    y,
                    text@,
                    text@.len() as int,
                    color,
                    LABEL_SCALE,
                );
            },
            _ => {},
        }
    }
}

/// Draws a list of steps.
pub fn draw_steps(buffer: &mut [u32], width: u32, height: u32, steps: &Vec<DrawStep>)
    requires
        forall|i: int|
            0 <= i < steps@.len() ==> step_fits(
                old(buffer)@.len(),
                width,
                height,
                #[trigger] steps@[i],
            ),
    ensures
        final(buffer)@ == steps_drawn(old(buffer)@, width, height, steps@),
{
    let ghost before = buffer@;
    let mut i: usize = 0;
    while i < steps.len()
        invariant
            i <= steps@.len(),
            buffer@ == steps_drawn(before, width, height, steps@.take(i as int)),
            forall|k: int|
                0 <= k < steps@.len() ==> step_fits(
                    before.len(),
                    width,
                    height,
                    #[trigger] steps@[k],
                ),
        decreases steps@.len() - i,
    {
        proof {
            lemma_steps_drawn_len(before, width, height, steps@.take(i as int));
        }
        draw_step(buffer, width, height, steps[i]);
        i += 1;
        assert(steps@.take(i as int).drop_last() =~= steps@.take(i - 1));
    }
    assert(steps@.take(i as int) =~= steps@);
}

// ---------------------------------------------------------------------------------------------
// The image and what is drawn on it
// ---------------------------------------------------------------------------------------------

/// Where a point of the image stands in the window.
pub open spec fn translated(point: EditorPoint, layout: EditorCanvasLayout) -> EditorPoint {
    EditorPoint {
        x: sat_i32(point.x + wrap_i32(layout.x)) as i32,
        y: sat_i32(point.y + wrap_i32(layout.y)) as i32,
    }
}

/// What is drawn at the point of the image under the pointer appears under the pointer.
pub proof fn law_points_appear_under_the_pointer(layout: EditorCanvasLayout, x: i32, y: i32)
    ensures
        image_point(layout, x as int, y as int) matches Some(point) ==> translated(point, layout)
            == (EditorPoint { x, y }),
{
}

/// The canvas is where the pointer reaches points of the image: each point of the image that is
/// shown is reached at one position of the window, and at no other.
pub proof fn law_shown_points_are_reached(layout: EditorCanvasLayout, point: EditorPoint)
    requires
        layout.x + layout.width <= i32::MAX,
        layout.y + layout.height <= i32::MAX,
        0 <= point.x < layout.width,
        0 <= point.y < layout.height,
    ensures
        image_point(layout, layout.x + point.x, layout.y + point.y) == Some(point),
        forall|x: int, y: int| #[trigger]
            image_point(layout, x, y) == Some(point) ==> x == layout.x + point.x && y == layout.y
                + point.y,
{
}

/// Moves a point of the image into the window.
pub fn translate_point(point: EditorPoint, layout: EditorCanvasLayout) -> (r: EditorPoint)
    ensures
        r == translated(point, layout),
{
    EditorPoint::new(
        saturating_add_i32(point.x, u32_as_i32(layout.x)),
        saturating_add_i32(point.y, u32_as_i32(layout.y)),
    )
}

/// Whether the image is shown at a point of the surface, and its buffer holds the pixel.
pub open spec fn shows_image(
    image: EditorSessionImage,
    layout: EditorCanvasLayout,
    x: int,
    y: int,
) -> bool {
    &&& layout.x <= x < layout.x + layout.width
    &&& layout.y <= y < layout.y + layout.height
    &&& 4 * ((y - layout.y) * image.width + (x - layout.x)) + 3 < image.rgba@.len()
}

/// The colour of the image at a point of the surface.
pub open spec fn shown_color(
    image: EditorSessionImage,
    layout: EditorCanvasLayout,
    x: int,
    y: int,
) -> u32 {
    let at = 4 * ((y - layout.y) * image.width + (x - layout.x));
    (image.rgba@[at] * 0x10000 + image.rgba@[at + 1] * 0x100 + image.rgba@[at + 2]) as u32
}

/// A surface of the given size with the image drawn on it.
pub open spec fn image_drawn(
    pixels: Seq<u32>,
    width: u32,
    height: u32,
    image: EditorSessionImage,
    layout: EditorCanvasLayout,
) -> Seq<u32> {
    Seq::new(
        pixels.len(),
        |i: int|
            {
                let x = i % width as int;
                let y = i / width as int;
                if width > 0 && y < height && shows_image(image, layout, x, y) {
                    shown_color(image, layout, x, y)
                } else {
                    pixels[i]
                }
            },
    )
}

/// The window shows the image pixel by pixel: the pixel of the image in a column and a row stands
/// as many columns and rows from the corner of the canvas, with its red, green and blue parts in
/// this order, and outside the canvas nothing is changed.
pub proof fn law_canvas_shows_the_image(
    pixels: Seq<u32>,
    width: u32,
    height: u32,
    image: EditorSessionImage,
    layout: EditorCanvasLayout,
    x: int,
    y: int,
)
    requires
        image.rgba@.len() == 4 * (image.height * image.width),
        layout.width <= image.width,
        layout.height <= image.height,
        0 <= x < width,
        0 <= y < height,
        y * width + x < pixels.len(),
    ensures
        ({
            let drawn = image_drawn(pixels, width, height, image, layout);
            let (column, row) = (x - layout.x, y - layout.y);
            let at = 4 * (row * image.width + column);
            let place = y * width + x;
            &&& drawn.len() == pixels.len()
            &&& 0 <= column < layout.width && 0 <= row < layout.height ==> {
                &&& drawn[place] as int / 0x10000 == image.rgba@[at]
                &&& drawn[place] as int / 0x100 % 0x100 == image.rgba@[at + 1]
                &&& drawn[place] as int % 0x100 == image.rgba@[at + 2]
            }
            &&& !(0 <= column < layout.width && 0 <= row < layout.height) ==> drawn[place]
                == pixels[place]
        }),
{
    let (column, row) = (x - layout.x, y - layout.y);
    lemma_row_position(y, width as int, x);
    lemma_position_bound(y, height as int, width as int, x);
    if 0 <= column < layout.width && 0 <= row < layout.height {
        lemma_position_bound(row, image.height as int, image.width as int, column);
    }
}

/// A surface with the rows of the image above a row drawn on it, and that row before a column.
spec fn image_part(
    pixels: Seq<u32>,
    width: u32,
    image: EditorSessionImage,
    layout: EditorCanvasLayout,
    row: int,
    column: int,
) -> Seq<u32> {
    Seq::new(
        pixels.len(),
        |i: int|
            {
                let x = i % width as int;
                let y = i / width as int;
                if (y < row || (y == row && x < column)) && shows_image(image, layout, x, y) {
                    shown_color(image, layout, x, y)
                } else {
                    pixels[i]
                }
            },
    )
}

/// Draws the image on a surface.
pub fn draw_image(
    buffer: &mut [u32],
    surface_width: u32,
    surface_height: u32,
    image: &EditorSessionImage,
    layout: EditorCanvasLayout,
)
    requires
        surface_width * surface_height <= old(buffer)@.len(),
    ensures
        final(buffer)@ == image_drawn(
            old(buffer)@,
            surface_width,
            surface_height,
            *image,
            layout,
        ),
{
    let ghost before = buffer@;
    let ghost w = surface_width as int;
    let len: usize = buffer.len();
    let total: usize = image.rgba.len();
    let rows: u32 = layout.height.min(surface_height.saturating_sub(layout.y));
    let columns: u32 = layout.width.min(surface_width.saturating_sub(layout.x));
    if rows == 0 || columns == 0 {
        proof {
            assert forall|i: int| 0 <= i < before.len() implies before[i] == image_drawn(
                before,
                surface_width,
                surface_height,
                *image,
                layout,
            )[i] by {
                if surface_width > 0 {
                    lemma_index_parts(i, w);
                }
            }
            assert(before =~= image_drawn(before, surface_width, surface_height, *image, layout));
        }
        return ;
    }
    proof {
        assert forall|i: int| 0 <= i < before.len() implies before[i] == image_part(
            before,
            surface_width,
            *image,
            layout,
            layout.y as int,
            0,
        )[i] by {
            lemma_index_parts(i, w);
        }
        assert(before =~= image_part(before, surface_width, *image, layout, layout.y as int, 0));
    }
    let mut row: u32 = 0;
    while row < rows
        invariant
            row <= rows,
            w == surface_width,
            0 < columns <= layout.width,
            layout.x + columns <= surface_width,
            columns == layout.width || layout.x + columns == surface_width,
            layout.y + rows <= surface_height,
            rows <= layout.height,
            len == before.len(),
            buffer@.len() == len,
            surface_width * surface_height <= len,
            total == image.rgba@.len(),
            buffer@ == image_part(
                before,
                surface_width,
                *image,
                layout,
                layout.y + row,
                0,
            ),
        decreases rows - row,
    {
        let y: u32 = layout.y + row;
        proof {
            assert forall|i: int| 0 <= i < before.len() implies buffer@[i] == image_part(
                before,
                surface_width,
                *image,
                layout,
                y as int,
                layout.x as int,
            )[i] by {
                lemma_index_parts(i, w);
            }
            assert(buffer@ =~= image_part(
                before,
                surface_width,
                *image,
                layout,
                y as int,
                layout.x as int,
            ));
        }
        let mut col: u32 = 0;
        while col < columns
            invariant
                col <= columns,
                row < rows,
                w == surface_width,
                0 < columns <= layout.width,
                layout.x + columns <= surface_width,
                layout.y + rows <= surface_height,
                rows <= layout.height,
                y == layout.y + row,
                len == before.len(),
                buffer@.len() == len,
                surface_width * surface_height <= len,
                total == image.rgba@.len(),
                buffer@ == image_part(
                    before,
                    surface_width,
                    *image,
                    layout,
                    y as int,
                    layout.x + col,
                ),
            decreases columns - col,
        {
            let ghost previous = buffer@;
            let x: u32 = layout.x + col;
            proof {
                lemma_position_bound(y as int, surface_height as int, w, x as int);
                lemma_row_position(y as int, w, x as int);
                assert(surface_height * w == surface_width * surface_height) by (nonlinear_arith)
                    requires
                        w == surface_width,
                ;
                assert(0 <= row * image.width <= 0x1_0000_0000 * 0x1_0000_0000)
                    by (nonlinear_arith)
                    requires
                        0 <= row <= 0x1_0000_0000,
                        0 <= image.width <= 0x1_0000_0000,
                ;
            }
            let offset: u128 = (row as u128 * image.width as u128 + col as u128) * 4;
            let dest: usize = y as usize * surface_width as usize + x as usize;
            if offset + 3 < total as u128 {
                let at: usize = offset as usize;
                let color = rgba_to_softbuffer_color(
                    [image.rgba[at], image.rgba[at + 1], image.rgba[at + 2], image.rgba[at + 3]],
                );
                buffer[dest] = color;
            }
            col += 1;
            proof {
                assert forall|i: int| 0 <= i < before.len() implies buffer@[i] == image_part(
                    before,
                    surface_width,
                    *image,
                    layout,
                    y as int,
                    layout.x + col,
                )[i] by {
                    lemma_index_parts(i, w);
                    assert(previous[i] == image_part(
                        before,
                        surface_width,
                        *image,
                        layout,
                        y as int,
                        layout.x + col - 1,
                    )[i]);
                }
                assert(buffer@ =~= image_part(
                    before,
                    surface_width,
                    *image,
                    layout,
                    y as int,
                    layout.x + col,
                ));
            }
        }
        row += 1;
        proof {
            assert forall|i: int| 0 <= i < before.len() implies buffer@[i] == image_part(
                before,
                surface_width,
                *image,
                layout,
                layout.y + row,
                0,
            )[i] by {
                lemma_index_parts(i, w);
            }
            assert(buffer@ =~= image_part(
                before,
                surface_width,
                *image,
                layout,
                layout.y + row,
                0,
            ));
        }
    }
    proof {
        assert forall|i: int| 0 <= i < before.len() implies buffer@[i] == image_drawn(
            before,
            surface_width,
            surface_height,
            *image,
            layout,
        )[i] by {
            lemma_index_parts(i, w);
        }
        assert(buffer@ =~= image_drawn(before, surface_width, surface_height, *image, layout));
    }
}

/// The number in which the surface holds a colour.
pub open spec fn surface_color(color: EditorColor) -> u32 {
    packed_color(color_bytes(color)) as u32
}

fn surface_color_of(color: EditorColor) -> (r: u32)
    ensures
        r == surface_color(color),
{
    proof {
        law_packed_color_keeps_its_parts(color_bytes(color));
    }
    rgba_to_softbuffer_color(color.rgba())
}

/// The points of a stroke in the window.
pub open spec fn translated_points(points: Seq<EditorPoint>, layout: EditorCanvasLayout) -> Seq<
    EditorPoint,
> {
    Seq::new(points.len(), |i: int| translated(points[i], layout))
}

fn translate_points(points: &Vec<EditorPoint>, layout: EditorCanvasLayout) -> (r: Vec<EditorPoint>)
    ensures
        r@ == translated_points(points@, layout),
{
    let mut moved: Vec<EditorPoint> = Vec::new();
    let mut i: usize = 0;
    while i < points.len()
        invariant
            i <= points@.len(),
            moved@ == translated_points(points@, layout).take(i as int),
        decreases points@.len() - i,
    {
        moved.push(translate_point(points[i], layout));
        i += 1;
        assert(moved@ =~= translated_points(points@, layout).take(i as int));
    }
    assert(moved@ =~= translated_points(points@, layout));
    moved
}

/// The head of an arrow in the window.
pub open spec fn translated_head(head: ArrowHead, layout: EditorCanvasLayout) -> ArrowHead {
    ArrowHead { left: translated(head.left, layout), right: translated(head.right, layout) }
}

/// The column of the window in which a rectangle of the image starts.
pub open spec fn rect_left(rect: EditorRect, layout: EditorCanvasLayout) -> u32 {
    sat_u32(layout.x + max_int(rect.x as int, 0)) as u32
}

/// The row of the window in which a rectangle of the image starts.
pub open spec fn rect_top(rect: EditorRect, layout: EditorCanvasLayout) -> u32 {
    sat_u32(layout.y + max_int(rect.y as int, 0)) as u32
}

/// A surface with an annotation drawn on it.
pub open spec fn annotation_drawn(
    pixels: Seq<u32>,
    width: u32,
    height: u32,
    layout: EditorCanvasLayout,
    annotation: AnnotationModel,
    head: ArrowHead,
) -> Seq<u32> {
    let frame = signed_frame(width, height);
    match annotation {
        AnnotationModel::Pen { points, color } => painted(
            pixels,
            frame,
            surface_color(color),
            pen_shape(translated_points(points, layout)),
        ),
        AnnotationModel::Line { start, end, color } => painted(
            pixels,
            frame,
            surface_color(color),
            line_shape(translated(start, layout), translated(end, layout)),
        ),
        AnnotationModel::Arrow { start, end, color } => painted(
            pixels,
            frame,
            surface_color(color),
            arrow_shape(
                translated(start, layout),
                translated(end, layout),
                translated_head(head, layout),
            ),
        ),
        AnnotationModel::Rectangle { rect, color } => outline_drawn(
            pixels,
            width,
            height,
            rect_left(rect, layout),
            rect_top(rect, layout),
            rect.width,
            rect.height,
            surface_color(color),
            STROKE_THICKNESS as int,
        ),
        AnnotationModel::Redact { rect } => redaction_drawn(pixels, width, height, layout, rect),
        AnnotationModel::Step { center, number, color } => step_mark_drawn(
            pixels,
            width,
            height,
            translated(center, layout),
            number,
            surface_color(color),
        ),
    }
}

/// A surface with a rectangle blackened, cut off where the surface ends.
pub open spec fn redaction_drawn(
    pixels: Seq<u32>,
    width: u32,
    height: u32,
    layout: EditorCanvasLayout,
    rect: EditorRect,
) -> Seq<u32> {
    let x = rect_left(rect, layout);
    let y = rect_top(rect, layout);
    rect_drawn(
        pixels,
        width,
        x,
        y,
        min_int(rect.width as int, max_int(width - x, 0)) as u32,
        min_int(rect.height as int, max_int(height - y, 0)) as u32,
        0,
    )
}

/// A redaction on the canvas is black wherever its rectangle shows, whatever was there before, and
/// changes nothing else.
pub proof fn law_redaction_is_black_on_the_canvas(
    pixels: Seq<u32>,
    width: u32,
    height: u32,
    layout: EditorCanvasLayout,
    rect: EditorRect,
    head: ArrowHead,
    x: int,
    y: int,
)
    requires
        rect.x >= 0,
        rect.y >= 0,
        layout.x + rect.x + rect.width <= u32::MAX,
        layout.y + rect.y + rect.height <= u32::MAX,
        layout.x + rect.x <= width,
        0 <= x < width,
        0 <= y < height,
        y * width + x < pixels.len(),
    ensures
        ({
            let redact = AnnotationModel::Redact { rect };
            let drawn = annotation_drawn(pixels, width, height, layout, redact, head);
            let (left, top) = (layout.x + rect.x, layout.y + rect.y);
            let inside = left <= x < left + rect.width && top <= y < top + rect.height;
            &&& inside ==> drawn[y * width + x] == 0
            &&& !inside ==> drawn[y * width + x] == pixels[y * width + x]
        }),
{
    let (left, top) = (layout.x + rect.x, layout.y + rect.y);
    let shown_width = if rect.width <= width - left {
        rect.width as int
    } else {
        width - left
    };
    let shown_height = if rect.height <= height - top {
        rect.height as int
    } else if top <= height {
        height - top
    } else {
        0
    };
    law_rect_fills_its_rows_and_columns(
        pixels,
        width,
        left as u32,
        top as u32,
        shown_width as u32,
        shown_height as u32,
        0,
        x,
        y,
    );
}

/// A surface with a step mark: a disk in its colour, a white ring around it and its number in
/// white.
pub open spec fn step_mark_drawn(
    pixels: Seq<u32>,
    width: u32,
    height: u32,
    at: EditorPoint,
    number: u32,
    color: u32,
) -> Seq<u32> {
    let frame = signed_frame(width, height);
    painted(
        painted(
            painted(pixels, frame, color, disk(at.x as int, at.y as int, STEP_RADIUS as int)),
            frame,
            0x00ff_ffff,
            ring(at.x as int, at.y as int, STEP_RADIUS - 1, STEP_RADIUS as int),
        ),
        frame,
        0x00ff_ffff,
        number_shape(at.x as int, at.y as int, number as nat, STROKE_THICKNESS as int / 2),
    )
}

/// An arrow on the canvas shows its ends and the tips of its head in its colour, each as far from
/// the corner of the canvas as it is from the corner of the image.
pub proof fn law_arrow_shows_on_the_canvas(
    pixels: Seq<u32>,
    width: u32,
    height: u32,
    layout: EditorCanvasLayout,
    start: EditorPoint,
    end: EditorPoint,
    color: EditorColor,
    head: ArrowHead,
    point: EditorPoint,
)
    requires
        width <= i32::MAX,
        height <= i32::MAX,
        point == start || point == end || point == head.left || point == head.right,
        layout.x <= 0xffff,
        layout.y <= 0xffff,
        0 <= layout.x + point.x < width,
        0 <= layout.y + point.y < height,
        (layout.y + point.y) * width + (layout.x + point.x) < pixels.len(),
    ensures
        ({
            let arrow = AnnotationModel::Arrow { start, end, color };
            let drawn = annotation_drawn(pixels, width, height, layout, arrow, head);
            let shown = drawn[(layout.y + point.y) * width + (layout.x + point.x)] as int;
            &&& shown / 0x10000 == color_bytes(color)@[0]
            &&& shown / 0x100 % 0x100 == color_bytes(color)@[1]
            &&& shown % 0x100 == color_bytes(color)@[2]
        }),
{
    let shown_head = translated_head(head, layout);
    law_arrow_has_a_head(
        pixels,
        width,
        height,
        translated(start, layout),
        translated(end, layout),
        shown_head,
        surface_color(color),
        translated(point, layout),
    );
    law_packed_color_keeps_its_parts(color_bytes(color));
}

/// A step mark on the canvas is a disk in its colour inside a white ring, with its number in white
/// on top; everything else is kept.
pub proof fn law_step_mark_is_a_ringed_disk(
    pixels: Seq<u32>,
    width: u32,
    height: u32,
    at: EditorPoint,
    number: u32,
    color: u32,
    x: int,
    y: int,
)
    requires
        width <= i32::MAX,
        height <= i32::MAX,
        0 <= x < width,
        0 <= y < height,
        y * width + x < pixels.len(),
    ensures
        ({
            let drawn = step_mark_drawn(pixels, width, height, at, number, color);
            let (dx, dy) = (x - at.x, y - at.y);
            let distance = dx * dx + dy * dy;
            let written = number_shape(at.x as int, at.y as int, number as nat, 1)(x, y);
            let place = y * width + x;
            &&& written || 144 <= distance <= 169 ==> drawn[place] == 0xff_ffff
            &&& !written && distance < 144 ==> drawn[place] == color
            &&& !written && distance > 169 ==> drawn[place] == pixels[place]
        }),
{
    let frame = signed_frame(width, height);
    let ground = disk(at.x as int, at.y as int, STEP_RADIUS as int);
    let edge = ring(at.x as int, at.y as int, STEP_RADIUS - 1, STEP_RADIUS as int);
    let digits = number_shape(at.x as int, at.y as int, number as nat, 1);
    assert(13int * 13int == 169 && 12int * 12int == 144) by (nonlinear_arith);
    let first = painted(pixels, frame, color, ground);
    let second = painted(first, frame, 0x00ff_ffff, edge);
    law_painting_sets_the_shape(pixels, width, height, color, ground, x, y);
    law_painting_sets_the_shape(first, width, height, 0x00ff_ffff, edge, x, y);
    law_painting_sets_the_shape(second, width, height, 0x00ff_ffff, digits, x, y);
}

/// A line on the canvas shows its ends in its colour, and a stroke of the pen each of its points,
/// each as far from the corner of the canvas as it is from the corner of the image.
pub proof fn law_lines_and_strokes_show_on_the_canvas(
    pixels: Seq<u32>,
    width: u32,
    height: u32,
    layout: EditorCanvasLayout,
    points: Seq<EditorPoint>,
    color: EditorColor,
    head: ArrowHead,
    index: int,
)
    requires
        width <= i32::MAX,
        height <= i32::MAX,
        points.len() >= 2,
        0 <= index < points.len(),
        layout.x <= 0xffff,
        layout.y <= 0xffff,
        0 <= layout.x + points[index].x < width,
        0 <= layout.y + points[index].y < height,
        (layout.y + points[index].y) * width + (layout.x + points[index].x) < pixels.len(),
    ensures
        ({
            let line = AnnotationModel::Line { start: points[0], end: points[1], color };
            let pen = AnnotationModel::Pen { points, color };
            let place = (layout.y + points[index].y) * width + (layout.x + points[index].x);
            &&& annotation_drawn(pixels, width, height, layout, pen, head)[place] == surface_color(
                color,
            )
            &&& index < 2 ==> annotation_drawn(pixels, width, height, layout, line, head)[place]
                == surface_color(color)
        }),
{
    let moved = translated_points(points, layout);
    let (x, y) = (layout.x + points[index].x, layout.y + points[index].y);
    law_strokes_follow_their_points(moved, index, 0, 0);
    law_painting_sets_the_shape(
        pixels,
        width,
        height,
        surface_color(color),
        pen_shape(moved),
        x,
        y,
    );
    if index < 2 {
        crate::canvas::law_stroke_reaches_from_end_to_end(
            moved[0].x as int,
            moved[0].y as int,
            moved[1].x as int,
            moved[1].y as int,
            1,
            x,
            y,
        );
        law_painting_sets_the_shape(
            pixels,
            width,
            height,
            surface_color(color),
            line_shape(moved[0], moved[1]),
            x,
            y,
        );
    }
}

/// A rectangle on the canvas is drawn on its edges, as far from the corner of the canvas as they are
/// from the corner of the image, and a step mark around its centre.
pub proof fn law_rectangles_and_steps_show_on_the_canvas(
    pixels: Seq<u32>,
    width: u32,
    height: u32,
    layout: EditorCanvasLayout,
    rect: EditorRect,
    number: u32,
    color: EditorColor,
    head: ArrowHead,
    x: int,
    y: int,
)
    requires
        width <= i32::MAX,
        height <= i32::MAX,
        rect.x >= 0 && rect.width > 0 && layout.x + rect.x + rect.width <= width,
        rect.y >= 0 && rect.height > 0 && layout.y + rect.y + rect.height <= height,
        0 <= x < width,
        0 <= y < height,
        y * width + x < pixels.len(),
    ensures
        ({
            let box_drawn = annotation_drawn(
                pixels,
                width,
                height,
                layout,
                AnnotationModel::Rectangle { rect, color },
                head,
            );
            let center = EditorPoint { x: rect.x, y: rect.y };
            let step_drawn = annotation_drawn(
                pixels,
                width,
                height,
                layout,
                AnnotationModel::Step { center, number, color },
                head,
            );
            let (column, row) = (x - layout.x - rect.x, y - layout.y - rect.y);
            let inside = 0 <= column < rect.width && 0 <= row < rect.height;
            let on_edge = column == 0 || row == 0 || column == rect.width - 1 || row == rect.height
                - 1;
            let written = number_shape(
                layout.x + rect.x,
                layout.y + rect.y,
                number as nat,
                1,
            )(x, y);
            let distance = column * column + row * row;
            let place = y * width + x;
            &&& inside && on_edge ==> box_drawn[place] == surface_color(color)
            &&& 1 < column < rect.width - 2 && 1 < row < rect.height - 2 ==> box_drawn[place]
                == pixels[place]
            &&& column < -1 || row < -1 || column > rect.width || row > rect.height
                ==> box_drawn[place] == pixels[place]
            &&& written || 144 <= distance <= 169 ==> step_drawn[place] == 0xff_ffff
            &&& !written && distance < 144 ==> step_drawn[place] == surface_color(color)
            &&& !written && distance > 169 ==> step_drawn[place] == pixels[place]
        }),
{
    law_outline_is_drawn_on_the_edges(
        pixels,
        width,
        height,
        (layout.x + rect.x) as u32,
        (layout.y + rect.y) as u32,
        rect.width,
        rect.height,
        surface_color(color),
        3,
        x,
        y,
    );
    let center = EditorPoint { x: rect.x, y: rect.y };
    law_step_mark_is_a_ringed_disk(
        pixels,
        width,
        height,
        translated(center, layout),
        number,
        surface_color(color),
        x,
        y,
    );
}

/// Draws a step mark on the surface: a disk, a white ring around it and its number.
fn draw_editor_step(
    buffer: &mut [u32],
    width: u32,
    height: u32,
    layout: EditorCanvasLayout,
    center: EditorPoint,
    number: u32,
    color: EditorColor,
)
    ensures
        final(buffer)@ == step_mark_drawn(
            old(buffer)@,
            width,
            height,
            translated(center, layout),
            number,
            surface_color(color),
        ),
{
    let center = translate_point(center, layout);
    let at = (center.x as i64, center.y as i64);
    fill_circle(buffer, width, height, at, STEP_RADIUS, surface_color_of(color));
    draw_circle_outline(buffer, width, height, at, STEP_RADIUS, 0x00ff_ffffu32);
    draw_number(buffer, width, height, at, number, 0x00ff_ffffu32, STROKE_THICKNESS);
}

/// Blackens a rectangle on the surface, cut off where the surface ends.
fn draw_editor_redact(
    buffer: &mut [u32],
    width: u32,
    height: u32,
    layout: EditorCanvasLayout,
    rect: EditorRect,
)
    requires
        width * height <= old(buffer)@.len(),
    ensures
        final(buffer)@ == redaction_drawn(old(buffer)@, width, height, layout, rect),
{
    let x: u32 = layout.x.saturating_add(rect.x.max(0) as u32);
    let y: u32 = layout.y.saturating_add(rect.y.max(0) as u32);
    let rect_width: u32 = rect.width.min(width.saturating_sub(x));
    let rect_height: u32 = rect.height.min(height.saturating_sub(y));
    proof {
        if rect_width > 0 && rect_height > 0 {
            let bottom = y + rect_height;
            let right = x + rect_width;
            assert((bottom - 1) * width + right <= width * height) by (nonlinear_arith)
                requires
                    1 <= bottom <= height,
                    0 <= right <= width,
            ;
        }
    }
    draw_rect(buffer, width, x, y, rect_width, rect_height, 0);
}

/// Draws an annotation on the surface.
pub fn draw_annotation(
    buffer: &mut [u32],
    width: u32,
    height: u32,
    layout: EditorCanvasLayout,
    annotation: &EditorAnnotation,
    head: ArrowHead,
)
    requires
        width * height <= old(buffer)@.len(),
    ensures
        final(buffer)@ == annotation_drawn(
            old(buffer)@,
            width,
            height,
            layout,
            annotation@,
            head,
        ),
{
    match annotation {
        EditorAnnotation::Pen { points, color } => {
            let moved = translate_points(points, layout);
            draw_pen_points(buffer, width, height, moved.as_slice(), surface_color_of(*color));
        },
        EditorAnnotation::Line { start, end, color } => {
            draw_stroke(
                buffer,
                width,
                height,
                translate_point(*start, layout),
                translate_point(*end, layout),
                surface_color_of(*color),
            );
        },
        EditorAnnotation::Arrow { start, end, color } => {
            let moved = ArrowHead {
                left: translate_point(head.left, layout),
                right: translate_point(head.right, layout),
            };
            draw_arrow(
                buffer,
                width,
                height,
                translate_point(*start, layout),
                translate_point(*end, layout),
                moved,
                surface_color_of(*color),
            );
        },
        EditorAnnotation::Rectangle { rect, color } => {
            let x: u32 = layout.x.saturating_add(rect.x.max(0) as u32);
            let y: u32 = layout.y.saturating_add(rect.y.max(0) as u32);
            draw_thick_rect_outline(
                buffer,
                width,
                height,
                x,
                y,
                rect.width,
                rect.height,
                surface_color_of(*color),
                STROKE_THICKNESS,
            );
        },
        EditorAnnotation::Redact { rect } => {
            draw_editor_redact(buffer, width, height, layout, *rect);
        },
        EditorAnnotation::Step { center, number, color } => {
            draw_editor_step(buffer, width, height, layout, *center, *number, *color);
        },
    }
}

/// A surface with a list of annotations drawn on it, one after the other.
pub open spec fn annotations_drawn(
    pixels: Seq<u32>,
    width: u32,
    height: u32,
    layout: EditorCanvasLayout,
    annotations: Seq<AnnotationModel>,
    heads: Seq<ArrowHead>,
) -> Seq<u32>
    decreases annotations.len(),
{
    if annotations.len() == 0 {
        pixels
    } else {
        annotation_drawn(
            annotations_drawn(pixels, width, height, layout, annotations.drop_last(), heads),
            width,
            height,
            layout,
            annotations.last(),
            heads[annotations.len() - 1],
        )
    }
}

/// Annotations are drawn on the canvas one on top of the other, in the order in which they were
/// made, each with its own head.
pub proof fn law_canvas_annotations_are_drawn_in_order(
    pixels: Seq<u32>,
    width: u32,
    height: u32,
    layout: EditorCanvasLayout,
    annotations: Seq<AnnotationModel>,
    heads: Seq<ArrowHead>,
    last: AnnotationModel,
    head: ArrowHead,
)
    requires
        heads.len() == annotations.len(),
    ensures
        annotations_drawn(
            pixels,
            width,
            height,
            layout,
            annotations.push(last),
            heads.push(head),
        ) == annotation_drawn(
            annotations_drawn(pixels, width, height, layout, annotations, heads),
            width,
            height,
            layout,
            last,
            head,
        ),
{
    assert(annotations.push(last).drop_last() =~= annotations);
    lemma_heads_behind_do_not_matter(pixels, width, height, layout, annotations, heads, head);
}

proof fn lemma_heads_behind_do_not_matter(
    pixels: Seq<u32>,
    width: u32,
    height: u32,
    layout: EditorCanvasLayout,
    annotations: Seq<AnnotationModel>,
    heads: Seq<ArrowHead>,
    head: ArrowHead,
)
    requires
        annotations.len() <= heads.len(),
    ensures
        annotations_drawn(pixels, width, height, layout, annotations, heads.push(head))
            == annotations_drawn(pixels, width, height, layout, annotations, heads),
    decreases annotations.len(),
{
    if annotations.len() > 0 {
        lemma_heads_behind_do_not_matter(
            pixels,
            width,
            height,
            layout,
            annotations.drop_last(),
            heads,
            head,
        );
    }
}

/// A surface with the image, what is drawn on it and the border around it.
pub open spec fn canvas_drawn(
    pixels: Seq<u32>,
    width: u32,
    height: u32,
    image: EditorSessionImage,
    layout: EditorCanvasLayout,
    annotations: Seq<AnnotationModel>,
    heads: Seq<ArrowHead>,
) -> Seq<u32> {
    outline_drawn(
        annotations_drawn(
            image_drawn(pixels, width, height, image, layout),
            width,
            height,
            layout,
            annotations,
            heads,
        ),
        width,
        height,
        max_int(layout.x - 1, 0) as u32,
        max_int(layout.y - 1, 0) as u32,
        sat_u32(layout.width + 2) as u32,
        sat_u32(layout.height + 2) as u32,
        0x0088_8888,
        1,
    )
}

/// Without annotations the canvas shows the image and nothing else, with a line one pixel wide just
/// outside its edges.
pub proof fn law_canvas_without_annotations_shows_the_image(
    pixels: Seq<u32>,
    width: u32,
    height: u32,
    image: EditorSessionImage,
    layout: EditorCanvasLayout,
    heads: Seq<ArrowHead>,
    x: int,
    y: int,
)
    requires
        width <= i32::MAX,
        height <= i32::MAX,
        image.rgba@.len() == 4 * (image.height * image.width),
        0 < layout.width <= image.width,
        0 < layout.height <= image.height,
        1 <= layout.x && layout.x + layout.width + 1 <= width,
        1 <= layout.y && layout.y + layout.height + 1 <= height,
        0 <= x < width,
        0 <= y < height,
        y * width + x < pixels.len(),
    ensures
        ({
            let drawn = canvas_drawn(pixels, width, height, image, layout, Seq::empty(), heads);
            let (column, row) = (x - layout.x, y - layout.y);
            let at = 4 * (row * image.width + column);
            let shown = drawn[y * width + x];
            let inside = 0 <= column < layout.width && 0 <= row < layout.height;
            let around = -1 <= column <= layout.width && -1 <= row <= layout.height;
            &&& inside ==> shown as int / 0x10000 == image.rgba@[at] && shown as int / 0x100 % 0x100
                == image.rgba@[at + 1] && shown as int % 0x100 == image.rgba@[at + 2]
            &&& around && !inside ==> shown == 0x88_8888
            &&& !around ==> shown == pixels[y * width + x]
        }),
{
    let painted_image = image_drawn(pixels, width, height, image, layout);
    law_canvas_shows_the_image(pixels, width, height, image, layout, x, y);
    assert(annotations_drawn(painted_image, width, height, layout, Seq::empty(), heads)
        == painted_image);
    law_outline_is_drawn_on_the_edges(
        painted_image,
        width,
        height,
        (layout.x - 1) as u32,
        (layout.y - 1) as u32,
        (layout.width + 2) as u32,
        (layout.height + 2) as u32,
        0x0088_8888u32,
        1,
        x,
        y,
    );
}

/// Draws the image, the annotations, the stroke and the drag that are not finished, and the border
/// around the image. `heads` holds the head of each arrow at the place of its annotation, and
/// `drag_head` that of an arrow that is being dragged.
pub fn draw_canvas(
    buffer: &mut [u32],
    width: u32,
    height: u32,
    image: &EditorSessionImage,
    layout: EditorCanvasLayout,
    annotations: &[EditorAnnotation],
    heads: &[ArrowHead],
    current_stroke: &Option<Vec<EditorPoint>>,
    current_drag: Option<EditorDrag>,
    drag_head: ArrowHead,
    active_color: EditorColor,
    shift_pressed: bool,
)
    requires
        width * height <= old(buffer)@.len(),
        heads@.len() == annotations@.len(),
    ensures
        final(buffer)@ == canvas_drawn(
            old(buffer)@,
            width,
            height,
            *image,
            layout,
            drawn_annotations(
                annotation_models(annotations@),
                *current_stroke,
                current_drag,
                active_color,
                shift_pressed,
            ),
            drawn_heads(heads@, *current_stroke, drag_head),
        ),
{
    draw_image(buffer, width, height, image, layout);
    let ghost start = buffer@;
    let ghost models = annotation_models(annotations@);
    let ghost all_heads = drawn_heads(heads@, *current_stroke, drag_head);
    let mut i: usize = 0;
    while i < annotations.len()
        invariant
            i <= annotations@.len(),
            heads@.len() == annotations@.len(),
            models == annotation_models(annotations@),
            all_heads == drawn_heads(heads@, *current_stroke, drag_head),
            buffer@ == annotations_drawn(
                start,
                width,
                height,
                layout,
                models.take(i as int),
                all_heads,
            ),
            buffer@.len() == start.len(),
            width * height <= start.len(),
        decreases annotations@.len() - i,
    {
        draw_annotation(buffer, width, height, layout, &annotations[i], heads[i]);
        i += 1;
        assert(models.take(i as int).drop_last() =~= models.take(i - 1));
    }
    assert(models.take(i as int) =~= models);
    let ghost mut drawn = models;
    match current_stroke {
        Some(points) => {
            let moved = translate_points(points, layout);
            draw_pen_points(
                buffer,
                width,
                height,
                moved.as_slice(),
                surface_color_of(active_color),
            );
            proof {
                let pen = AnnotationModel::Pen { points: points@, color: active_color };
                drawn = models.push(pen);
                assert(drawn.drop_last() =~= models);
            }
        },
        None => {},
    }
    assert(buffer@ == annotations_drawn(start, width, height, layout, drawn, all_heads));
    match current_drag {
        Some(drag) => {
            match annotation_of_drag(drag, active_color, shift_pressed) {
                Some(annotation) => {
                    draw_annotation(buffer, width, height, layout, &annotation, drag_head);
                    proof {
                        assert(drawn.push(annotation@).drop_last() =~= drawn);
                        drawn = drawn.push(annotation@);
                    }
                },
                None => {},
            }
        },
        None => {},
    }
    assert(buffer@ == annotations_drawn(start, width, height, layout, drawn, all_heads));
    draw_thick_rect_outline(
        buffer,
        width,
        height,
        layout.x.saturating_sub(1),
        layout.y.saturating_sub(1),
        layout.width.saturating_add(2),
        layout.height.saturating_add(2),
        0x0088_8888u32,
        1,
    );
}

/// Draws the whole window, with its labels written without a font.
pub fn draw_editor_shell(
    buffer: &mut [u32],
    width: u32,
    height: u32,
    image: &EditorSessionImage,
    active_tool: EditorTool,
    active_color: EditorColor,
    annotations: &[EditorAnnotation],
    heads: &[ArrowHead],
    current_stroke: &Option<Vec<EditorPoint>>,
    current_drag: Option<EditorDrag>,
    drag_head: ArrowHead,
    shift_pressed: bool,
)
    requires
        width * height <= old(buffer)@.len(),
        heads@.len() == annotations@.len(),
        ({
            let layout = layout_of(width, height, image.width, image.height);
            let steps = shell(width, height, layout, active_tool, active_color);
            forall|i: int|
                0 <= i < steps.len() ==> step_fits(
                    old(buffer)@.len(),
                    width,
                    height,
                    #[trigger] steps[i],
                )
        }),
    ensures
        ({
            let layout = layout_of(width, height, image.width, image.height);
            final(buffer)@ == canvas_drawn(
                steps_drawn(
                    old(buffer)@,
                    width,
                    height,
                    shell(width, height, layout, active_tool, active_color),
                ),
                width,
                height,
                *image,
                layout,
                drawn_annotations(
                    annotation_models(annotations@),
                    *current_stroke,
                    current_drag,
                    active_color,
                    shift_pressed,
                ),
                drawn_heads(heads@, *current_stroke, drag_head),
            )
        }),
{
    let ghost before = buffer@;
    let layout = canvas_layout(width, height, image.width, image.height);
    let steps = shell_steps(width, height, layout, active_tool, active_color);
    draw_steps(buffer, width, height, &steps);
    proof {
        lemma_steps_drawn_len(before, width, height, steps@);
    }
    draw_canvas(
        buffer,
        width,
        height,
        image,
        layout,
        annotations,
        heads,
        current_stroke,
        current_drag,
        drag_head,
        active_color,
        shift_pressed,
    );
}

} // verus!
