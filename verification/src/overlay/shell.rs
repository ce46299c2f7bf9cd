//! The window in which a region is picked: what it shows and what it does on each of its events.
use crate::math::{max_int, min_int, narrow_i32, sat_i32, sat_u32};
use crate::overlay::draw::{
    bgra_to_overlay_pixels, chip_drawn, chip_fits, chip_label, chip_place, chip_width, clear_pixel,
    copied, copy_rect, dimmed_pixel, draw_hover_region, draw_mode_chip, draw_selection_region,
    hover_drawn, law_chip_shows_the_mode, law_chip_stays_on_the_surface,
    law_copying_keeps_columns_and_rows, law_label_lies_in_the_chip, law_selection_is_shown_clear,
    region_edges, selection_drawn, text_cells,
};
use crate::overlay::selection::{
    active_drag, drag_outcome, outcome_from_drag, point_at_position, screen_fits,
    selection_point_from_window_position, MouseDragState, OutcomeModel, Selection,
    SelectionCancelReason, SelectionFlags, SelectionMode, SelectionOutcome, SelectionPoint,
    SelectionRequest,
};
use crate::screen::capture::{CaptureRegion, ScreenCapture};
use crate::screen::monitor::VirtualScreen;
use crate::screen::windows::{
    copy_window, topmost, window_at_point, window_models, SelectableWindow, WindowModel,
};
use crate::time::Elapsed;
use vstd::prelude::*;

verus! {

// ---------------------------------------------------------------------------------------------
// The picture of the desktop
// ---------------------------------------------------------------------------------------------

/// The picture of the desktop, dimmed and clear, and how long it took to make.
#[derive(Debug, Clone, PartialEq, Eq)]
pub struct OverlayFrame {
    pub width: u32,
    pub height: u32,
    pub dimmed_pixels: Vec<u32>,
    pub clear_pixels: Vec<u32>,
    pub capture_elapsed: Elapsed,
    pub prepare_elapsed: Elapsed,
}

impl OverlayFrame {
    /// Whether both pictures hold exactly the pixels of a non-empty frame.
    pub open spec fn wf(self) -> bool {
        &&& self.width > 0
        &&& self.height > 0
        &&& self.dimmed_pixels@.len() == self.width * self.height
        &&& self.clear_pixels@.len() == self.width * self.height
    }
}

/// Makes the picture of the desktop from a capture; `elapsed` is the time since the capture began.
pub fn prepare_overlay_frame(capture: &ScreenCapture, elapsed: Elapsed) -> (r: OverlayFrame)
    requires
        capture.image.wf(),
    ensures
        r.wf(),
        r.width == capture.image.width,
        r.height == capture.image.height,
        forall|i: int|
            0 <= i < r.width * r.height ==> #[trigger] r.dimmed_pixels@[i] == dimmed_pixel(
                capture.image.bgra@,
                i,
            ),
        forall|i: int|
            0 <= i < r.width * r.height ==> #[trigger] r.clear_pixels@[i] == clear_pixel(
                capture.image.bgra@,
                i,
            ),
        r.capture_elapsed == capture.metrics.elapsed,
        r.prepare_elapsed.nanos() == max_int(
            elapsed.nanos() - capture.metrics.elapsed.nanos(),
            0,
        ),
{
    let capture_elapsed = capture.metrics.elapsed;
    let (dimmed_pixels, clear_pixels) = bgra_to_overlay_pixels(capture.image.bgra.as_slice());
    let width = capture.image.width;
    let height = capture.image.height;
    assert(4 * width * height == 4 * (width * height)) by (nonlinear_arith);
    OverlayFrame {
        width,
        height,
        dimmed_pixels,
        clear_pixels,
        capture_elapsed,
        prepare_elapsed: elapsed.saturating_sub(capture_elapsed),
    }
}

/// The size of the surface: that of the window, but no larger than the picture and never empty.
pub fn surface_size(window_width: u32, window_height: u32, frame: &OverlayFrame) -> (r: (u32, u32))
    ensures
        r.0 == max_int(min_int(window_width as int, frame.width as int), 1),
        r.1 == max_int(min_int(window_height as int, frame.height as int), 1),
{
    (window_width.min(frame.width).max(1), window_height.min(frame.height).max(1))
}

/// What the surface shows: the dimmed desktop, on it the region that is being dragged or else the
/// border of the window under the pointer, and the chip.
pub open spec fn overlay_drawn(
    pixels: Seq<u32>,
    width: u32,
    height: u32,
    frame: OverlayFrame,
    request: SelectionRequest,
    screen: VirtualScreen,
    selected: Option<Selection>,
    hovered: Option<CaptureRegion>,
    cursor: Option<(i32, i32)>,
) -> Seq<u32> {
    let dimmed = copied(
        pixels,
        width,
        frame.dimmed_pixels@,
        frame.width,
        0,
        0,
        width as int,
        height as int,
    );
    let marked = match (selected, hovered) {
        (Some(selection), _) => selection_drawn(
            dimmed,
            width,
            height,
            frame.width,
            frame.clear_pixels@,
            selection.region,
            screen,
        ),
        (None, Some(region)) => hover_drawn(dimmed, width, height, region, screen),
        (None, None) => dimmed,
    };
    chip_drawn(marked, width, height, request.mode, cursor)
}

/// As long as nothing is selected and no window is marked, the whole window shows the desktop
/// dimmed, but for the chip.
pub proof fn law_overlay_is_dimmed_at_first(
    pixels: Seq<u32>,
    width: u32,
    height: u32,
    frame: OverlayFrame,
    request: SelectionRequest,
    screen: VirtualScreen,
    cursor: Option<(i32, i32)>,
    x: int,
    y: int,
)
    requires
        chip_width(request.mode) <= width <= i32::MAX,
        27 <= height <= i32::MAX,
        0 <= x < width,
        0 <= y < height,
        y * width + x < pixels.len(),
        ({
            let (left, top) = chip_place(width, height, request.mode, cursor);
            x < left || x >= left + chip_width(request.mode) || y < top || y >= top + 27
        }),
    ensures
        overlay_drawn(pixels, width, height, frame, request, screen, None, None, cursor)[y * width
            + x] == frame.dimmed_pixels@[y * frame.width + x],
{
    let dimmed = copied(
        pixels,
        width,
        frame.dimmed_pixels@,
        frame.width,
        0,
        0,
        width as int,
        height as int,
    );
    law_copying_keeps_columns_and_rows(
        pixels,
        width,
        frame.dimmed_pixels@,
        frame.width,
        0,
        0,
        width as int,
        height as int,
        x,
        y,
    );
    law_chip_shows_the_mode(dimmed, width, height, request.mode, cursor, x, y);
    lemma_label_does_not_reach(width, height, request.mode, cursor, x, y);
}

/// While a region is picked, the window shows the desktop dimmed, but for what is selected: that it
/// shows clear, inside a black and a white line. This holds of every pixel that the chip, which
/// lies on top, does not cover; `x` and `y` are its column and row.
pub proof fn law_overlay_dims_all_but_the_selection(
    pixels: Seq<u32>,
    width: u32,
    height: u32,
    frame: OverlayFrame,
    request: SelectionRequest,
    screen: VirtualScreen,
    selection: Selection,
    hovered: Option<CaptureRegion>,
    cursor: Option<(i32, i32)>,
    x: int,
    y: int,
)
    requires
        chip_width(request.mode) <= width <= i32::MAX,
        27 <= height <= i32::MAX,
        screen.x <= selection.region.x,
        selection.region.x + selection.region.width <= screen.x + width,
        screen.y <= selection.region.y,
        selection.region.y + selection.region.height <= screen.y + height,
        0 <= x < width,
        0 <= y < height,
        y * width + x < pixels.len(),
        ({
            let (left, top) = chip_place(width, height, request.mode, cursor);
            x < left || x >= left + chip_width(request.mode) || y < top || y >= top + 27
        }),
    ensures
        ({
            let drawn = overlay_drawn(
                pixels,
                width,
                height,
                frame,
                request,
                screen,
                Some(selection),
                hovered,
                cursor,
            );
            let region = selection.region;
            let (column, row) = (screen.x + x - region.x, screen.y + y - region.y);
            let shown = drawn[y * width + x];
            &&& 2 <= column < region.width - 2 && 2 <= row < region.height - 2 ==> shown
                == frame.clear_pixels@[y * frame.width + x]
            &&& column < 0 || column >= region.width || row < 0 || row >= region.height ==> shown
                == frame.dimmed_pixels@[y * frame.width + x]
        }),
{
    let dimmed = copied(
        pixels,
        width,
        frame.dimmed_pixels@,
        frame.width,
        0,
        0,
        width as int,
        height as int,
    );
    law_copying_keeps_columns_and_rows(
        pixels,
        width,
        frame.dimmed_pixels@,
        frame.width,
        0,
        0,
        width as int,
        height as int,
        x,
        y,
    );
    law_selection_is_shown_clear(
        dimmed,
        width,
        height,
        frame.width,
        frame.clear_pixels@,
        selection.region,
        screen,
        x,
        y,
    );
    let marked = selection_drawn(
        dimmed,
        width,
        height,
        frame.width,
        frame.clear_pixels@,
        selection.region,
        screen,
    );
    law_chip_shows_the_mode(marked, width, height, request.mode, cursor, x, y);
    lemma_label_does_not_reach(width, height, request.mode, cursor, x, y);
}

/// The label of the chip covers no point outside the chip.
proof fn lemma_label_does_not_reach(
    width: u32,
    height: u32,
    mode: SelectionMode,
    cursor: Option<(i32, i32)>,
    x: int,
    y: int,
)
    requires
        chip_width(mode) <= width <= i32::MAX,
        27 <= height <= i32::MAX,
        ({
            let (left, top) = chip_place(width, height, mode, cursor);
            x < left || x >= left + chip_width(mode) || y < top || y >= top + 27
        }),
    ensures
        ({
            let (left, top) = chip_place(width, height, mode, cursor);
            let label = chip_label(mode);
            !text_cells(left + 14, top + 5, 3, label, label.len() as int)(x, y)
        }),
{
    let (left, top) = chip_place(width, height, mode, cursor);
    let label = chip_label(mode);
    law_chip_stays_on_the_surface(width, height, mode, 0, 0);
    if let Some((px, py)) = cursor {
        law_chip_stays_on_the_surface(width, height, mode, px, py);
    }
    if text_cells(left + 14, top + 5, 3, label, label.len() as int)(x, y) {
        law_label_lies_in_the_chip(mode, left, top, x, y);
    }
}

/// Every row that is shown lies in the picture.
proof fn lemma_rows_in_frame(rows: int, right: int, frame_width: int, frame_height: int)
    requires
        1 <= rows <= frame_height,
        0 <= right <= frame_width,
    ensures
        (rows - 1) * frame_width + right <= frame_width * frame_height,
{
    assert((rows - 1) * frame_width + right <= frame_width * frame_height) by (nonlinear_arith)
        requires
            1 <= rows <= frame_height,
            0 <= right <= frame_width,
    ;
}

/// Draws what the surface shows.
pub fn draw_overlay(
    buffer: &mut [u32],
    width: u32,
    height: u32,
    frame: &OverlayFrame,
    request: SelectionRequest,
    screen: VirtualScreen,
    selected: Option<Selection>,
    hovered: Option<CaptureRegion>,
    cursor: Option<(i32, i32)>,
)
    requires
        frame.wf(),
        0 < width <= frame.width,
        0 < height <= frame.height,
        width * height <= old(buffer)@.len(),
        chip_fits(width, height, request.mode),
    ensures
        final(buffer)@ == overlay_drawn(
            old(buffer)@,
            width,
            height,
            *frame,
            request,
            screen,
            selected,
            hovered,
            cursor,
        ),
{
    proof {
        lemma_rows_in_frame(
            height as int,
            width as int,
            frame.width as int,
            frame.height as int,
        );
    }
    copy_rect(
        buffer,
        width,
        height,
        &frame.dimmed_pixels,
        frame.width,
        0,
        0,
        width,
        height,
    );
    match selected {
        Some(selection) => {
            proof {
                let (left, top, right, bottom) = region_edges(
                    width,
                    height,
                    selection.region,
                    screen,
                );
                if left < right && top < bottom {
                    lemma_rows_in_frame(
                        bottom as int,
                        right as int,
                        frame.width as int,
                        frame.height as int,
                    );
                }
            }
            draw_selection_region(
                buffer,
                width,
                height,
                frame.width,
                &frame.clear_pixels,
                selection.region,
                screen,
            );
        },
        None => match hovered {
            Some(region) => draw_hover_region(buffer, width, height, region, screen),
            None => {},
        },
    }
    draw_mode_chip(buffer, width, height, request.mode, cursor);
}

// ---------------------------------------------------------------------------------------------
// Events
// ---------------------------------------------------------------------------------------------

/// An event of the window. Where a button goes down or comes up, the event brings the position of
/// the pointer on the virtual desktop, if the system knows it.
#[derive(Debug, Clone, Copy, PartialEq, Eq, Structural)]
pub enum SelectionEvent {
    CloseRequested,
    RedrawRequested,
    EscapePressed,
    /// The pointer moved to a position of the window, in whole pixels.
    CursorMoved { x: i64, y: i64 },
    ModifiersChanged { shift: bool },
    LeftPressed { known: Option<SelectionPoint> },
    LeftReleased { known: Option<SelectionPoint> },
    Other,
}

/// What is to be done outside after an event.
#[derive(Debug, Clone, Copy, PartialEq, Eq, Structural)]
pub enum SelectionAction {
    /// Nothing.
    Wait,
    /// Ask for the window to be drawn.
    Redraw,
    /// Draw the window.
    Render,
    /// Hide the window and leave.
    Finish,
}

/// The state of the window.
#[derive(Debug, Clone, PartialEq, Eq)]
pub struct SelectionOverlay {
    pub request: SelectionRequest,
    pub virtual_screen: VirtualScreen,
    pub outcome: SelectionOutcome,
    pub cursor: Option<(i64, i64)>,
    pub cursor_move_events: u32,
    pub drag_state: MouseDragState,
    pub shift_pressed: bool,
    pub selectable_windows: Vec<SelectableWindow>,
    pub hovered_window: Option<SelectableWindow>,
}

/// The state of the window as a mathematical value.
pub struct OverlayModel {
    pub request: SelectionRequest,
    pub screen: VirtualScreen,
    pub outcome: OutcomeModel,
    pub cursor: Option<(i64, i64)>,
    pub moves: u32,
    pub drag: MouseDragState,
    pub shift: bool,
    pub windows: Seq<WindowModel>,
    pub hovered: Option<WindowModel>,
}

impl View for SelectionOverlay {
    type V = OverlayModel;

    open spec fn view(&self) -> OverlayModel {
        OverlayModel {
            request: self.request,
            screen: self.virtual_screen,
            outcome: self.outcome@,
            cursor: self.cursor,
            moves: self.cursor_move_events,
            drag: self.drag_state,
            shift: self.shift_pressed,
            windows: window_models(self.selectable_windows@),
            hovered: match self.hovered_window {
                Some(window) => Some(window@),
                None => None,
            },
        }
    }
}

/// The flags for the state of the shift key.
pub open spec fn flags_of(overlay: OverlayModel) -> SelectionFlags {
    SelectionFlags { shift_pressed: overlay.shift }
}

/// The window has an outcome and is about to go.
pub open spec fn finished(overlay: OverlayModel, outcome: OutcomeModel) -> OverlayModel {
    OverlayModel { outcome, drag: MouseDragState { start: None, current: None }, ..overlay }
}

/// The point of the virtual desktop under the pointer: where the system says it is, else where the
/// window last saw it.
pub open spec fn pointed(overlay: OverlayModel, known: Option<SelectionPoint>) -> Option<
    SelectionPoint,
> {
    match (known, overlay.cursor) {
        (Some(point), _) => Some(point),
        (None, Some((x, y))) => Some(point_at_position(x as int, y as int, overlay.screen)),
        (None, None) => None,
    }
}

/// The pointer moves: a drag follows it; without a drag the window under it is looked up. A drag
/// that makes no selection for want of coordinates ends in failure.
pub open spec fn cursor_moved(overlay: OverlayModel, x: i64, y: i64) -> (
    OverlayModel,
    SelectionAction,
) {
    let point = point_at_position(x as int, y as int, overlay.screen);
    let dragging = overlay.drag.start is Some;
    let moved = OverlayModel {
        cursor: Some((x, y)),
        moves: sat_u32(overlay.moves + 1) as u32,
        drag: if dragging {
            MouseDragState { start: overlay.drag.start, current: Some(point) }
        } else {
            overlay.drag
        },
        hovered: if dragging {
            overlay.hovered
        } else {
            topmost(overlay.windows, point.x as int, point.y as int)
        },
        ..overlay
    };
    match active_drag(moved.drag, overlay.request, flags_of(overlay)) {
        Err(text) => (finished(moved, OutcomeModel::Failed(text)), SelectionAction::Finish),
        Ok(_) => (moved, SelectionAction::Redraw),
    }
}

/// The left button goes down: a drag begins, unless nobody knows where the pointer is.
pub open spec fn left_pressed(overlay: OverlayModel, known: Option<SelectionPoint>) -> OverlayModel {
    match pointed(overlay, known) {
        Some(point) => OverlayModel {
            hovered: topmost(overlay.windows, point.x as int, point.y as int),
            drag: MouseDragState { start: Some(point), current: Some(point) },
            ..overlay
        },
        None => overlay,
    }
}

/// How a drag ends: one below the threshold picks the window under the pointer.
pub open spec fn release_outcome(
    overlay: OverlayModel,
    start: SelectionPoint,
    end: SelectionPoint,
) -> OutcomeModel {
    match (drag_outcome(overlay.request, start, end, flags_of(overlay)), overlay.hovered) {
        (OutcomeModel::Cancelled(SelectionCancelReason::BelowThreshold), Some(window)) =>
            OutcomeModel::Selected(
                Selection {
                    mode: overlay.request.mode,
                    region: window.bounds,
                    flags: flags_of(overlay),
                    window_handle: Some(window.handle),
                },
            ),
        (outcome, _) => outcome,
    }
}

/// The left button comes up.
pub open spec fn left_released(overlay: OverlayModel, known: Option<SelectionPoint>) -> (
    OverlayModel,
    SelectionAction,
) {
    match pointed(overlay, known) {
        None => (
            finished(overlay, OutcomeModel::Cancelled(SelectionCancelReason::BelowThreshold)),
            SelectionAction::Finish,
        ),
        Some(point) => match overlay.drag.start {
            None => (overlay, SelectionAction::Wait),
            Some(start) => (
                finished(overlay, release_outcome(overlay, start, point)),
                SelectionAction::Finish,
            ),
        },
    }
}

/// The state after an event, and what is to be done outside.
pub open spec fn overlay_step(overlay: OverlayModel, event: SelectionEvent) -> (
    OverlayModel,
    SelectionAction,
) {
    match event {
        SelectionEvent::CloseRequested => (
            finished(overlay, OutcomeModel::Cancelled(SelectionCancelReason::WindowClosed)),
            SelectionAction::Finish,
        ),
        SelectionEvent::RedrawRequested => (overlay, SelectionAction::Render),
        SelectionEvent::EscapePressed => (
            finished(overlay, OutcomeModel::Cancelled(SelectionCancelReason::Escape)),
            SelectionAction::Finish,
        ),
        SelectionEvent::CursorMoved { x, y } => cursor_moved(overlay, x, y),
        SelectionEvent::ModifiersChanged { shift } => (
            OverlayModel { shift, ..overlay },
            SelectionAction::Wait,
        ),
        SelectionEvent::LeftPressed { known } => (
            left_pressed(overlay, known),
            SelectionAction::Wait,
        ),
        SelectionEvent::LeftReleased { known } => left_released(overlay, known),
        SelectionEvent::Other => (overlay, SelectionAction::Wait),
    }
}

/// A drag on the desktop picks the region between the points where the button went down and came
/// up, if it is large enough.
pub proof fn law_press_and_release_pick_the_region(
    overlay: OverlayModel,
    start: SelectionPoint,
    end: SelectionPoint,
    selection: Selection,
)
    requires
        drag_outcome(overlay.request, start, end, flags_of(overlay)) == OutcomeModel::Selected(
            selection,
        ),
    ensures
        ({
            let (pressed, _) = overlay_step(
                overlay,
                SelectionEvent::LeftPressed { known: Some(start) },
            );
            let (released, action) = overlay_step(
                pressed,
                SelectionEvent::LeftReleased { known: Some(end) },
            );
            &&& action == SelectionAction::Finish
            &&& released.outcome == OutcomeModel::Selected(selection)
            &&& released.drag.start is None
        }),
{
}

/// As long as the window does not fail, moving the pointer in a drag changes neither where the drag
/// began nor how its release at a given point ends.
pub proof fn law_moves_keep_the_drag(overlay: OverlayModel, x: i64, y: i64, end: SelectionPoint)
    requires
        overlay.drag.start is Some,
        overlay_step(overlay, SelectionEvent::CursorMoved { x, y }).1 == SelectionAction::Redraw,
    ensures
        ({
            let (moved, _) = overlay_step(overlay, SelectionEvent::CursorMoved { x, y });
            &&& moved.drag.start == overlay.drag.start
            &&& overlay_step(moved, SelectionEvent::LeftReleased { known: Some(end) }).0.outcome
                == overlay_step(
                overlay,
                SelectionEvent::LeftReleased { known: Some(end) },
            ).0.outcome
        }),
{
}

/// A click picks the topmost window under the pointer, with its bounds and its handle.
pub proof fn law_click_picks_the_window(
    overlay: OverlayModel,
    point: SelectionPoint,
    window: WindowModel,
)
    requires
        overlay.request.threshold_px > 0,
        topmost(overlay.windows, point.x as int, point.y as int) == Some(window),
    ensures
        ({
            let (pressed, _) = overlay_step(
                overlay,
                SelectionEvent::LeftPressed { known: Some(point) },
            );
            let (released, _) = overlay_step(
                pressed,
                SelectionEvent::LeftReleased { known: Some(point) },
            );
            released.outcome == OutcomeModel::Selected(
                Selection {
                    mode: overlay.request.mode,
                    region: window.bounds,
                    flags: flags_of(overlay),
                    window_handle: Some(window.handle),
                },
            )
        }),
{
}

/// Escape and closing the window end the picking with nothing picked, each with its own reason, and
/// shift counts as it is held when the button comes up.
pub proof fn law_picking_can_be_given_up(
    overlay: OverlayModel,
    shift: bool,
    start: SelectionPoint,
    end: SelectionPoint,
)
    ensures
        overlay_step(overlay, SelectionEvent::EscapePressed).0.outcome == OutcomeModel::Cancelled(
            SelectionCancelReason::Escape,
        ),
        overlay_step(overlay, SelectionEvent::EscapePressed).1 is Finish,
        overlay_step(overlay, SelectionEvent::CloseRequested).0.outcome == OutcomeModel::Cancelled(
            SelectionCancelReason::WindowClosed,
        ),
        overlay_step(overlay, SelectionEvent::CloseRequested).1 is Finish,
        ({
            let pressed = overlay_step(
                overlay,
                SelectionEvent::LeftPressed { known: Some(start) },
            ).0;
            let held = overlay_step(pressed, SelectionEvent::ModifiersChanged { shift }).0;
            let released = overlay_step(held, SelectionEvent::LeftReleased { known: Some(end) }).0;
            released.outcome matches OutcomeModel::Selected(selection) ==> {
                &&& selection.flags.shift_pressed == shift
                &&& selection.mode == overlay.request.mode
            }
        }),
{
}

/// Outside a drag, moving the pointer marks the topmost window under it, and in a drag it keeps the
/// window that was under the pointer when the drag began.
pub proof fn law_pointer_marks_the_window_under_it(overlay: OverlayModel, x: i64, y: i64)
    ensures
        ({
            let moved = overlay_step(overlay, SelectionEvent::CursorMoved { x, y }).0;
            let point = point_at_position(x as int, y as int, overlay.screen);
            &&& moved.cursor == Some((x, y))
            &&& overlay.drag.start is None ==> moved.hovered == topmost(
                overlay.windows,
                point.x as int,
                point.y as int,
            )
            &&& overlay.drag.start is Some ==> moved.hovered == overlay.hovered
        }),
{
}

/// A press or a release happens at the point that the system knows, or else where the pointer was
/// last seen in the window; before it was seen anywhere, a press does nothing.
pub proof fn law_presses_happen_under_the_pointer(overlay: OverlayModel, x: i64, y: i64)
    requires
        overlay.drag.start is None,
    ensures
        ({
            let moved = overlay_step(overlay, SelectionEvent::CursorMoved { x, y }).0;
            let pressed = overlay_step(moved, SelectionEvent::LeftPressed { known: None }).0;
            pressed.drag.start == Some(point_at_position(x as int, y as int, overlay.screen))
                && pressed.drag.current == pressed.drag.start
        }),
        overlay.cursor is None ==> overlay_step(
            overlay,
            SelectionEvent::LeftPressed { known: None },
        ).0 == overlay,
{
}

/// Whenever the window is about to go, no drag is left.
pub proof fn law_finish_ends_the_drag(overlay: OverlayModel, event: SelectionEvent)
    ensures
        overlay_step(overlay, event).1 == SelectionAction::Finish ==> overlay_step(
            overlay,
            event,
        ).0.drag == (MouseDragState { start: None, current: None }),
{
}

impl SelectionOverlay {
    /// The state of a window in which nothing has happened: should it go now, it was closed.
    pub fn new(
        request: SelectionRequest,
        virtual_screen: VirtualScreen,
        selectable_windows: Vec<SelectableWindow>,
    ) -> (r: Self)
        ensures
            r@ == (OverlayModel {
                request,
                screen: virtual_screen,
                outcome: OutcomeModel::Cancelled(SelectionCancelReason::WindowClosed),
                cursor: None,
                moves: 0,
                drag: MouseDragState { start: None, current: None },
                shift: false,
                windows: window_models(selectable_windows@),
                hovered: None,
            }),
    {
        SelectionOverlay {
            request,
            virtual_screen,
            outcome: SelectionOutcome::Cancelled(SelectionCancelReason::WindowClosed),
            cursor: None,
            cursor_move_events: 0,
            drag_state: MouseDragState::default(),
            shift_pressed: false,
            selectable_windows,
            hovered_window: None,
        }
    }

    /// Takes an event in and tells what is to be done outside.
    pub fn window_event(&mut self, event: SelectionEvent) -> (r: SelectionAction)
        requires
            screen_fits(old(self).virtual_screen),
        ensures
            (final(self)@, r) == overlay_step(old(self)@, event),
    {
        match event {
            SelectionEvent::CloseRequested => self.finish_with_outcome(
                SelectionOutcome::Cancelled(SelectionCancelReason::WindowClosed),
            ),
            SelectionEvent::RedrawRequested => SelectionAction::Render,
            SelectionEvent::EscapePressed => self.finish_with_outcome(
                SelectionOutcome::Cancelled(SelectionCancelReason::Escape),
            ),
            SelectionEvent::CursorMoved { x, y } => self.move_cursor(x, y),
            SelectionEvent::ModifiersChanged { shift } => {
                self.shift_pressed = shift;
                SelectionAction::Wait
            },
            SelectionEvent::LeftPressed { known } => {
                if let Some(point) = self.current_cursor_selection_point(known) {
                    self.look_up_window(point);
                    self.drag_state.begin(point);
                }
                SelectionAction::Wait
            },
            SelectionEvent::LeftReleased { known } => {
                match self.current_cursor_selection_point(known) {
                    None => self.finish_with_outcome(
                        SelectionOutcome::Cancelled(SelectionCancelReason::BelowThreshold),
                    ),
                    Some(point) => self.finish_drag(point),
                }
            },
            SelectionEvent::Other => SelectionAction::Wait,
        }
    }

    fn current_cursor_selection_point(&self, known: Option<SelectionPoint>) -> (r: Option<
        SelectionPoint,
    >)
        requires
            screen_fits(self.virtual_screen),
        ensures
            r == pointed(self@, known),
    {
        match known {
            Some(point) => Some(point),
            None => match self.cursor {
                Some((x, y)) => Some(
                    selection_point_from_window_position(x, y, self.virtual_screen),
                ),
                None => None,
            },
        }
    }

    fn look_up_window(&mut self, point: SelectionPoint)
        ensures
            final(self)@ == (OverlayModel {
                hovered: topmost(old(self)@.windows, point.x as int, point.y as int),
                ..old(self)@
            }),
            final(self).virtual_screen == old(self).virtual_screen,
            final(self).drag_state == old(self).drag_state,
    {
        let found = match window_at_point(self.selectable_windows.as_slice(), point.x, point.y) {
            Some(window) => Some(copy_window(window)),
            None => None,
        };
        self.hovered_window = found;
    }

    fn move_cursor(&mut self, x: i64, y: i64) -> (r: SelectionAction)
        requires
            screen_fits(old(self).virtual_screen),
        ensures
            (final(self)@, r) == cursor_moved(old(self)@, x, y),
    {
        self.cursor = Some((x, y));
        let point = selection_point_from_window_position(x, y, self.virtual_screen);
        self.drag_state.update(point);
        if self.drag_state.start.is_none() {
            self.look_up_window(point);
        }
        self.cursor_move_events = self.cursor_move_events.saturating_add(1);
        let flags = SelectionFlags::new(self.shift_pressed);
        match self.drag_state.active_selection(self.request, flags) {
            Ok(_) => SelectionAction::Redraw,
            Err(error) => self.finish_with_outcome(SelectionOutcome::Failed(error.to_string())),
        }
    }

    fn finish_drag(&mut self, point: SelectionPoint) -> (r: SelectionAction)
        ensures
            (final(self)@, r) == left_released(old(self)@, Some(point)),
    {
        let (start, end) = match self.drag_state.finish(point) {
            Some(ends) => ends,
            None => {
                return SelectionAction::Wait;
            },
        };
        let flags = SelectionFlags::new(self.shift_pressed);
        let outcome = outcome_from_drag(self.request, start, end, flags);
        let outcome = match outcome {
            SelectionOutcome::Cancelled(SelectionCancelReason::BelowThreshold) => {
                match &self.hovered_window {
                    Some(window) => SelectionOutcome::Selected(
                        Selection {
                            mode: self.request.mode,
                            region: window.bounds,
                            flags,
                            window_handle: Some(window.handle),
                        },
                    ),
                    None => SelectionOutcome::Cancelled(SelectionCancelReason::BelowThreshold),
                }
            },
            other => other,
        };
        self.finish_with_outcome(outcome)
    }

    fn finish_with_outcome(&mut self, outcome: SelectionOutcome) -> (r: SelectionAction)
        ensures
            final(self)@ == finished(old(self)@, outcome@),
            r == SelectionAction::Finish,
    {
        self.drag_state.cancel();
        self.outcome = outcome;
        SelectionAction::Finish
    }

    /// The region that is being dragged, before the window is drawn. Where there is no telling it,
    /// the window fails and nothing is to be drawn.
    pub fn selection_to_draw(&mut self) -> (r: Option<Option<Selection>>)
        ensures
            match active_drag(old(self)@.drag, old(self)@.request, flags_of(old(self)@)) {
                Ok(selected) => r == Some(selected) && final(self)@ == old(self)@,
                Err(text) => r is None && final(self)@ == (OverlayModel {
                    outcome: OutcomeModel::Failed(text),
                    ..old(self)@
                }),
            },
    {
        let flags = SelectionFlags::new(self.shift_pressed);
        match self.drag_state.active_selection(self.request, flags) {
            Ok(selected) => Some(selected),
            Err(error) => {
                self.outcome = SelectionOutcome::Failed(error.to_string());
                None
            },
        }
    }

    /// Remembers that the window could not be drawn.
    pub fn fail(&mut self, reason: String)
        ensures
            final(self)@ == (OverlayModel {
                outcome: OutcomeModel::Failed(reason@),
                ..old(self)@
            }),
    {
        self.outcome = SelectionOutcome::Failed(reason);
    }

    /// Tells what is to be done once the window was drawn or not: a window that failed goes.
    pub fn after_render(&mut self) -> (r: SelectionAction)
        ensures
            if old(self)@.outcome is Failed {
                final(self)@ == finished(old(self)@, old(self)@.outcome) && r
                    == SelectionAction::Finish
            } else {
                final(self)@ == old(self)@ && r == SelectionAction::Wait
            },
    {
        match &self.outcome {
            SelectionOutcome::Failed(_) => {
                self.drag_state.cancel();
                SelectionAction::Finish
            },
            _ => SelectionAction::Wait,
        }
    }

    /// Draws the window onto its surface. `selected` is the region that is being dragged.
    pub fn render_frame(
        &self,
        buffer: &mut [u32],
        width: u32,
        height: u32,
        frame: &OverlayFrame,
        selected: Option<Selection>,
    )
        requires
            frame.wf(),
            0 < width <= frame.width,
            0 < height <= frame.height,
            width * height <= old(buffer)@.len(),
            chip_fits(width, height, self.request.mode),
        ensures
            final(buffer)@ == overlay_drawn(
                old(buffer)@,
                width,
                height,
                *frame,
                self.request,
                self.virtual_screen,
                selected,
                match self@.hovered {
                    Some(window) => Some(window.bounds),
                    None => None,
                },
                match self.cursor {
                    Some((x, y)) => Some((sat_i32(x as int) as i32, sat_i32(y as int) as i32)),
                    None => None,
                },
            ),
    {
        let hovered = match &self.hovered_window {
            Some(window) => Some(window.bounds),
            None => None,
        };
        let cursor = match self.cursor {
            Some((x, y)) => Some((narrow_i32(x), narrow_i32(y))),
            None => None,
        };
        draw_overlay(
            buffer,
            width,
            height,
            frame,
            self.request,
            self.virtual_screen,
            selected,
            hovered,
            cursor,
        );
    }
}

/// Whether an event is one that is reported: the first five of its kind and then every so many.
pub fn is_reported(count: u32, every: u32) -> (r: bool)
    requires
        every > 0,
    ensures
        r == (count <= 5 || count % every == 0),
{
    count <= 5 || count % every == 0
}

} // verus!
