//! Picking a region of the desktop with the pointer.
use crate::errors::{message_error, yields, RsnipError};
use crate::math::{
    clamp_int, far_edge, max_int, min_int, narrow_i32, sat_i32, saturating_add_i32,
};
use crate::screen::capture::{empty_region_text, CaptureRegion};
use crate::screen::monitor::VirtualScreen;
use crate::screen::windows::SelectableWindowHandle;
use vstd::arithmetic::div_mod::{lemma_fundamental_div_mod, lemma_fundamental_div_mod_converse};
use vstd::prelude::*;

verus! {

/// How far a drag has to go in both directions to count as one.
pub const DEFAULT_SELECTION_THRESHOLD_PX: u32 = 3;

/// What a region is picked for.
#[derive(Debug, Clone, Copy, PartialEq, Eq, Structural)]
pub enum SelectionMode {
    Snip,
    Record,
    Ocr,
}

/// A request to pick a region.
#[derive(Debug, Clone, Copy, PartialEq, Eq, Structural)]
pub struct SelectionRequest {
    pub mode: SelectionMode,
    pub threshold_px: u32,
}

/// A point of the virtual desktop.
#[derive(Debug, Clone, Copy, PartialEq, Eq, Structural)]
pub struct SelectionPoint {
    pub x: i32,
    pub y: i32,
}

/// What was held while a region was picked.
#[derive(Debug, Clone, Copy, PartialEq, Eq, Structural)]
pub struct SelectionFlags {
    pub shift_pressed: bool,
}

/// A region that was picked, and the window it belongs to if a window was picked.
#[derive(Debug, Clone, Copy, PartialEq, Eq, Structural)]
pub struct Selection {
    pub mode: SelectionMode,
    pub region: CaptureRegion,
    pub flags: SelectionFlags,
    pub window_handle: Option<SelectableWindowHandle>,
}

/// How picking a region ended.
#[derive(Debug, Clone, PartialEq, Eq)]
pub enum SelectionOutcome {
    Selected(Selection),
    Cancelled(SelectionCancelReason),
    Failed(String),
}

/// Why no region was picked.
#[derive(Debug, Clone, Copy, PartialEq, Eq, Structural)]
pub enum SelectionCancelReason {
    Escape,
    WindowClosed,
    BelowThreshold,
}

/// How picking a region ended, as a mathematical value.
pub enum OutcomeModel {
    Selected(Selection),
    Cancelled(SelectionCancelReason),
    Failed(Seq<char>),
}

impl View for SelectionOutcome {
    type V = OutcomeModel;

    open spec fn view(&self) -> OutcomeModel {
        match *self {
            SelectionOutcome::Selected(selection) => OutcomeModel::Selected(selection),
            SelectionOutcome::Cancelled(reason) => OutcomeModel::Cancelled(reason),
            SelectionOutcome::Failed(text) => OutcomeModel::Failed(text@),
        }
    }
}

impl SelectionRequest {
    /// A request with the usual threshold.
    pub fn new(mode: SelectionMode) -> (r: Self)
        ensures
            r == (SelectionRequest { mode, threshold_px: DEFAULT_SELECTION_THRESHOLD_PX }),
    {
        SelectionRequest { mode, threshold_px: DEFAULT_SELECTION_THRESHOLD_PX }
    }

    /// A request with a threshold of its own.
    pub fn with_threshold(mode: SelectionMode, threshold_px: u32) -> (r: Self)
        ensures
            r == (SelectionRequest { mode, threshold_px }),
    {
        SelectionRequest { mode, threshold_px }
    }
}

impl SelectionPoint {
    /// A point.
    pub fn new(x: i32, y: i32) -> (r: Self)
        ensures
            r == (SelectionPoint { x, y }),
    {
        SelectionPoint { x, y }
    }
}

impl SelectionFlags {
    /// The flags for a state of the shift key.
    pub fn new(shift_pressed: bool) -> (r: Self)
        ensures
            r == (SelectionFlags { shift_pressed }),
    {
        SelectionFlags { shift_pressed }
    }
}

/// Whether a window can be picked as a whole: for an image and for its text, not for a video.
pub fn offers_windows(mode: SelectionMode) -> (r: bool)
    ensures
        r == (mode == SelectionMode::Snip || mode == SelectionMode::Ocr),
{
    match mode {
        SelectionMode::Snip => true,
        SelectionMode::Ocr => true,
        SelectionMode::Record => false,
    }
}

// ---------------------------------------------------------------------------------------------
// Drags
// ---------------------------------------------------------------------------------------------

/// The region between two points: none if it is below the threshold in a direction, and an error if
/// a side is no coordinate or the region is empty.
pub open spec fn dragged_region(start: SelectionPoint, end: SelectionPoint, threshold_px: u32) -> Result<
    Option<CaptureRegion>,
    Seq<char>,
> {
    let left = min_int(start.x as int, end.x as int);
    let top = min_int(start.y as int, end.y as int);
    let width = max_int(start.x as int, end.x as int) - left;
    let height = max_int(start.y as int, end.y as int) - top;
    if width > i32::MAX {
        Err("selection width overflow"@)
    } else if height > i32::MAX {
        Err("selection height overflow"@)
    } else if width < threshold_px || height < threshold_px {
        Ok(None)
    } else if width == 0 || height == 0 {
        Err(empty_region_text(left as i32, top as i32, width as u32, height as u32))
    } else {
        Ok(
            Some(
                CaptureRegion {
                    x: left as i32,
                    y: top as i32,
                    width: width as u32,
                    height: height as u32,
                },
            ),
        )
    }
}

/// It does not matter in which direction a region is dragged.
pub proof fn law_drag_direction_does_not_matter(
    start: SelectionPoint,
    end: SelectionPoint,
    threshold_px: u32,
)
    ensures
        dragged_region(start, end, threshold_px) == dragged_region(end, start, threshold_px),
        dragged_region(start, end, threshold_px) == dragged_region(
            SelectionPoint { x: start.x, y: end.y },
            SelectionPoint { x: end.x, y: start.y },
            threshold_px,
        ),
{
}

/// A region that was dragged reaches from one point to the other and is as large as the threshold
/// asks.
pub proof fn law_dragged_region_spans_the_drag(
    start: SelectionPoint,
    end: SelectionPoint,
    threshold_px: u32,
)
    ensures
        dragged_region(start, end, threshold_px) matches Ok(Some(region)) ==> {
            &&& region.x == min_int(start.x as int, end.x as int)
            &&& region.y == min_int(start.y as int, end.y as int)
            &&& region.x + region.width == max_int(start.x as int, end.x as int)
            &&& region.y + region.height == max_int(start.y as int, end.y as int)
            &&& region.width >= threshold_px && region.height >= threshold_px
            &&& region.width > 0 && region.height > 0
        },
{
}

/// Turns a drag into a region.
pub fn normalize_drag_region(start: SelectionPoint, end: SelectionPoint, threshold_px: u32) -> (r:
    Result<Option<CaptureRegion>, RsnipError>)
    ensures
        yields(r, dragged_region(start, end, threshold_px)),
{
    let left = start.x.min(end.x);
    let top = start.y.min(end.y);
    let right = start.x.max(end.x);
    let bottom = start.y.max(end.y);
    let width: i64 = right as i64 - left as i64;
    let height: i64 = bottom as i64 - top as i64;
    if width > i32::MAX as i64 {
        return Err(message_error("selection width overflow"));
    }
    if height > i32::MAX as i64 {
        return Err(message_error("selection height overflow"));
    }
    let width = width as u32;
    let height = height as u32;
    if width < threshold_px || height < threshold_px {
        return Ok(None);
    }
    match CaptureRegion::new(left, top, width, height) {
        Ok(region) => Ok(Some(region)),
        Err(error) => Err(error),
    }
}

/// The selection of a drag.
pub open spec fn dragged_selection(
    mode: SelectionMode,
    start: SelectionPoint,
    end: SelectionPoint,
    flags: SelectionFlags,
    threshold_px: u32,
) -> Result<Option<Selection>, Seq<char>> {
    match dragged_region(start, end, threshold_px) {
        Ok(Some(region)) => Ok(Some(Selection { mode, region, flags, window_handle: None })),
        Ok(None) => Ok(None),
        Err(text) => Err(text),
    }
}

impl Selection {
    /// The selection of a drag, unless it is below the threshold.
    pub fn from_drag(
        mode: SelectionMode,
        start: SelectionPoint,
        end: SelectionPoint,
        flags: SelectionFlags,
        threshold_px: u32,
    ) -> (r: Result<Option<Self>, RsnipError>)
        ensures
            yields(r, dragged_selection(mode, start, end, flags, threshold_px)),
    {
        match normalize_drag_region(start, end, threshold_px) {
            Ok(Some(region)) => Ok(Some(Selection { mode, region, flags, window_handle: None })),
            Ok(None) => Ok(None),
            Err(error) => Err(error),
        }
    }
}

/// How a drag ends.
pub open spec fn drag_outcome(
    request: SelectionRequest,
    start: SelectionPoint,
    end: SelectionPoint,
    flags: SelectionFlags,
) -> OutcomeModel {
    match dragged_selection(request.mode, start, end, flags, request.threshold_px) {
        Ok(Some(selection)) => OutcomeModel::Selected(selection),
        Ok(None) => OutcomeModel::Cancelled(SelectionCancelReason::BelowThreshold),
        Err(text) => OutcomeModel::Failed(text),
    }
}

/// A drag selects the rectangle between its ends exactly if both of its sides are as long as the
/// threshold asks; a shorter drag is taken back. What is selected has the mode that was asked for
/// and the keys that were held, and belongs to no window.
pub proof fn law_drag_selects_what_it_spans(
    request: SelectionRequest,
    start: SelectionPoint,
    end: SelectionPoint,
    flags: SelectionFlags,
)
    requires
        request.threshold_px > 0,
        -i32::MAX <= end.x - start.x <= i32::MAX,
        -i32::MAX <= end.y - start.y <= i32::MAX,
    ensures
        ({
            let wide = end.x - start.x >= request.threshold_px || start.x - end.x
                >= request.threshold_px;
            let high = end.y - start.y >= request.threshold_px || start.y - end.y
                >= request.threshold_px;
            match drag_outcome(request, start, end, flags) {
                OutcomeModel::Selected(selection) => {
                    let region = selection.region;
                    &&& wide && high
                    &&& selection.mode == request.mode && selection.flags == flags
                    &&& selection.window_handle is None
                    &&& region.x == start.x && region.x + region.width == end.x || region.x == end.x
                        && region.x + region.width == start.x
                    &&& region.y == start.y && region.y + region.height == end.y || region.y == end.y
                        && region.y + region.height == start.y
                },
                OutcomeModel::Cancelled(reason) => !(wide && high) && reason is BelowThreshold,
                OutcomeModel::Failed(_) => false,
            }
        }),
{
}

/// A drag whose sides are too long to be a region fails, whatever the threshold is.
pub proof fn law_drags_too_long_fail(
    request: SelectionRequest,
    start: SelectionPoint,
    end: SelectionPoint,
    flags: SelectionFlags,
)
    requires
        end.x - start.x > i32::MAX || start.x - end.x > i32::MAX || end.y - start.y > i32::MAX
            || start.y - end.y > i32::MAX,
    ensures
        drag_outcome(request, start, end, flags) is Failed,
{
}

/// Tells how a drag ends.
pub fn outcome_from_drag(
    request: SelectionRequest,
    start: SelectionPoint,
    end: SelectionPoint,
    flags: SelectionFlags,
) -> (r: SelectionOutcome)
    ensures
        r@ == drag_outcome(request, start, end, flags),
{
    match Selection::from_drag(request.mode, start, end, flags, request.threshold_px) {
        Ok(Some(selection)) => SelectionOutcome::Selected(selection),
        Ok(None) => SelectionOutcome::Cancelled(SelectionCancelReason::BelowThreshold),
        Err(error) => SelectionOutcome::Failed(error.to_string()),
    }
}

/// Where a drag began and where it is.
#[derive(Debug, Clone, Copy, PartialEq, Eq, Structural)]
pub struct MouseDragState {
    pub start: Option<SelectionPoint>,
    pub current: Option<SelectionPoint>,
}

impl Default for MouseDragState {
    fn default() -> (r: Self)
        ensures
            r == (MouseDragState { start: None, current: None }),
    {
        MouseDragState { start: None, current: None }
    }
}

/// The selection of a drag that is not finished.
pub open spec fn active_drag(
    drag: MouseDragState,
    request: SelectionRequest,
    flags: SelectionFlags,
) -> Result<Option<Selection>, Seq<char>> {
    match (drag.start, drag.current) {
        (Some(start), Some(current)) => dragged_selection(
            request.mode,
            start,
            current,
            flags,
            request.threshold_px,
        ),
        _ => Ok(None),
    }
}

/// What a drag shows as selected is what its release at the same point would select; outside a drag
/// nothing is.
pub proof fn law_drag_shows_what_its_release_selects(
    drag: MouseDragState,
    request: SelectionRequest,
    flags: SelectionFlags,
)
    ensures
        match (drag.start, drag.current) {
            (Some(start), Some(current)) => match drag_outcome(request, start, current, flags) {
                OutcomeModel::Selected(selection) => active_drag(drag, request, flags) == Ok::<
                    Option<Selection>,
                    Seq<char>,
                >(Some(selection)),
                OutcomeModel::Cancelled(_) => active_drag(drag, request, flags) == Ok::<
                    Option<Selection>,
                    Seq<char>,
                >(None),
                OutcomeModel::Failed(text) => active_drag(drag, request, flags) == Err::<
                    Option<Selection>,
                    Seq<char>,
                >(text),
            },
            _ => active_drag(drag, request, flags) == Ok::<Option<Selection>, Seq<char>>(None),
        },
{
}

impl MouseDragState {
    /// Starts a drag.
    pub fn begin(&mut self, point: SelectionPoint)
        ensures
            *final(self) == (MouseDragState { start: Some(point), current: Some(point) }),
    {
        self.start = Some(point);
        self.current = Some(point);
    }

    /// Moves a drag that has been started.
    pub fn update(&mut self, point: SelectionPoint)
        ensures
            *final(self) == if old(self).start is Some {
                MouseDragState { start: old(self).start, current: Some(point) }
            } else {
                *old(self)
            },
    {
        if self.start.is_some() {
            self.current = Some(point);
        }
    }

    /// Ends a drag that has been started, and tells from where to where it went.
    pub fn finish(&mut self, point: SelectionPoint) -> (r: Option<(SelectionPoint, SelectionPoint)>)
        ensures
            match old(self).start {
                Some(start) => r == Some((start, point)) && *final(self) == (MouseDragState {
                    start: None,
                    current: None,
                }),
                None => r is None && *final(self) == *old(self),
            },
    {
        match self.start {
            Some(start) => {
                self.start = None;
                self.current = None;
                Some((start, point))
            },
            None => None,
        }
    }

    /// Gives a drag up.
    pub fn cancel(&mut self)
        ensures
            *final(self) == (MouseDragState { start: None, current: None }),
    {
        self.start = None;
        self.current = None;
    }

    /// The selection that the drag would make now.
    pub fn active_selection(&self, request: SelectionRequest, flags: SelectionFlags) -> (r: Result<
        Option<Selection>,
        RsnipError,
    >)
        ensures
            yields(r, active_drag(*self, request, flags)),
    {
        match (self.start, self.current) {
            (Some(start), Some(current)) => Selection::from_drag(
                request.mode,
                start,
                current,
                flags,
                request.threshold_px,
            ),
            _ => Ok(None),
        }
    }
}

// ---------------------------------------------------------------------------------------------
// Points
// ---------------------------------------------------------------------------------------------

/// Whether the size of a virtual desktop is made of coordinates.
pub open spec fn screen_fits(screen: VirtualScreen) -> bool {
    screen.width <= i32::MAX && screen.height <= i32::MAX
}

/// A point brought onto the virtual desktop.
pub open spec fn clamped_point(x: int, y: int, screen: VirtualScreen) -> SelectionPoint {
    SelectionPoint {
        x: clamp_int(x, screen.x as int, far_edge(screen.x, screen.width)) as i32,
        y: clamp_int(y, screen.y as int, far_edge(screen.y, screen.height)) as i32,
    }
}

/// A point that lies on the desktop or on its far edges is kept; any other is moved to the nearest
/// edge along each axis.
pub proof fn law_points_are_moved_onto_the_desktop(x: i32, y: i32, screen: VirtualScreen)
    requires
        screen.width <= i32::MAX,
        screen.height <= i32::MAX,
        screen.x + screen.width <= i32::MAX,
        screen.y + screen.height <= i32::MAX,
    ensures
        ({
            let point = clamped_point(x as int, y as int, screen);
            &&& screen.x <= point.x <= screen.x + screen.width
            &&& screen.y <= point.y <= screen.y + screen.height
            &&& screen.x <= x <= screen.x + screen.width ==> point.x == x
            &&& screen.y <= y <= screen.y + screen.height ==> point.y == y
            &&& x < screen.x ==> point.x == screen.x
            &&& y < screen.y ==> point.y == screen.y
            &&& x > screen.x + screen.width ==> point.x == screen.x + screen.width
            &&& y > screen.y + screen.height ==> point.y == screen.y + screen.height
        }),
{
}

/// Brings a point onto the virtual desktop.
pub fn clamp_virtual_point(x: i32, y: i32, screen: VirtualScreen) -> (r: SelectionPoint)
    requires
        screen_fits(screen),
    ensures
        r == clamped_point(x as int, y as int, screen),
        screen.x <= r.x <= far_edge(screen.x, screen.width),
        screen.y <= r.y <= far_edge(screen.y, screen.height),
{
    let right = screen.right();
    let bottom = screen.bottom();
    let px: i32 = if x < screen.x {
        screen.x
    } else if x > right {
        right
    } else {
        x
    };
    let py: i32 = if y < screen.y {
        screen.y
    } else if y > bottom {
        bottom
    } else {
        y
    };
    SelectionPoint::new(px, py)
}

/// The point of the virtual desktop at a whole position of the window that covers it.
pub open spec fn point_at_position(x: int, y: int, screen: VirtualScreen) -> SelectionPoint {
    let local_x = min_int(clamp_int(x, 0, screen.width as int), i32::MAX as int);
    let local_y = min_int(clamp_int(y, 0, screen.height as int), i32::MAX as int);
    clamped_point(sat_i32(screen.x + local_x), sat_i32(screen.y + local_y), screen)
}

/// A position in the window is the point that stands as far from the corner of the desktop; beyond
/// an edge of the window it is the nearest point of that edge.
pub proof fn law_positions_are_points_of_the_desktop(x: int, y: int, screen: VirtualScreen)
    requires
        screen.width <= i32::MAX,
        screen.height <= i32::MAX,
        screen.x + screen.width <= i32::MAX,
        screen.y + screen.height <= i32::MAX,
    ensures
        ({
            let point = point_at_position(x, y, screen);
            &&& screen.x <= point.x <= screen.x + screen.width
            &&& screen.y <= point.y <= screen.y + screen.height
            &&& 0 <= x <= screen.width ==> point.x == screen.x + x
            &&& 0 <= y <= screen.height ==> point.y == screen.y + y
            &&& x < 0 ==> point.x == screen.x
            &&& y < 0 ==> point.y == screen.y
            &&& x > screen.width ==> point.x == screen.x + screen.width
            &&& y > screen.height ==> point.y == screen.y + screen.height
        }),
{
}

/// Finds the point of the virtual desktop at a position of the window that covers it; the position
/// is given in whole pixels.
pub fn selection_point_from_window_position(x: i64, y: i64, screen: VirtualScreen) -> (r:
    SelectionPoint)
    requires
        screen_fits(screen),
    ensures
        r == point_at_position(x as int, y as int, screen),
{
    let local_x: i64 = if x < 0 {
        0
    } else if x > screen.width as i64 {
        screen.width as i64
    } else {
        x
    };
    let local_y: i64 = if y < 0 {
        0
    } else if y > screen.height as i64 {
        screen.height as i64
    } else {
        y
    };
    clamp_virtual_point(
        saturating_add_i32(screen.x, narrow_i32(local_x)),
        saturating_add_i32(screen.y, narrow_i32(local_y)),
        screen,
    )
}

/// A length at another resolution, as a number and no larger than the largest coordinate.
pub open spec fn scaled_length(value: u32, dpi: u32, base_dpi: u32) -> int {
    min_int((value * dpi + base_dpi / 2) / (base_dpi as int), i32::MAX as int)
}

/// A length at another resolution is the whole number nearest to the exact proportion, and keeps its
/// value at the same resolution.
pub proof fn law_lengths_keep_their_proportion(value: u32, dpi: u32, base_dpi: u32)
    requires
        base_dpi > 0,
        scaled_length(value, dpi, base_dpi) < i32::MAX,
    ensures
        ({
            let scaled = scaled_length(value, dpi, base_dpi);
            &&& -(base_dpi as int) <= 2 * (scaled * base_dpi) - 2 * (value * dpi) <= base_dpi
            &&& dpi == base_dpi ==> scaled == value
        }),
{
    let base = base_dpi as int;
    let total = value * dpi + base_dpi / 2;
    lemma_fundamental_div_mod(total, base);
    assert(base * (total / base) == (total / base) * base) by (nonlinear_arith);
    assert(0 <= total % base < base) by (nonlinear_arith)
        requires
            base > 0,
    ;
    if dpi == base_dpi {
        assert(value * dpi == value * base);
        lemma_fundamental_div_mod_converse(total, base, value as int, (base_dpi / 2) as int);
    }
}

/// A length at another resolution, rounded to the nearest whole number.
pub fn scale_dimension_for_dpi(value: u32, dpi: u32, base_dpi: u32) -> (r: i32)
    requires
        base_dpi > 0,
    ensures
        r == scaled_length(value, dpi, base_dpi),
        r == min_int((value * dpi + base_dpi / 2) / (base_dpi as int), i32::MAX as int),
{
    assert(0 <= value * dpi <= 0xffff_ffff * 0xffff_ffff) by (nonlinear_arith)
        requires
            0 <= value <= 0xffff_ffff,
            0 <= dpi <= 0xffff_ffff,
    ;
    let scaled: u64 = (value as u64 * dpi as u64 + (base_dpi / 2) as u64) / base_dpi as u64;
    if scaled > i32::MAX as u64 {
        i32::MAX
    } else {
        scaled as i32
    }
}

/// The title of the window in which a region is picked.
pub fn selection_window_title(mode: SelectionMode) -> (r: &'static str)
    ensures
        r@ == match mode {
            SelectionMode::Snip => "RSnip Snip Selection Overlay"@,
            SelectionMode::Record => "RSnip Record Selection Overlay"@,
            SelectionMode::Ocr => "RSnip OCR Selection Overlay"@,
        },
{
    match mode {
        SelectionMode::Snip => "RSnip Snip Selection Overlay",
        SelectionMode::Record => "RSnip Record Selection Overlay",
        SelectionMode::Ocr => "RSnip OCR Selection Overlay",
    }
}

} // verus!
