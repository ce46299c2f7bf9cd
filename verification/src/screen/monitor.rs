//! The virtual desktop and the monitors that make it up.
use crate::errors::{is_message, message_error, RsnipError};
use crate::math::{far_edge, far_edge_of, sat_i32, saturating_sub_i32};
use crate::text::{append_i32, append_u64, decimal, signed_decimal};
use vstd::prelude::*;

verus! {

/// The rectangle that all monitors together cover.
#[derive(Debug, Clone, Copy, PartialEq, Eq, Structural)]
pub struct VirtualScreen {
    pub x: i32,
    pub y: i32,
    pub width: u32,
    pub height: u32,
}

/// A monitor: its bounds, the part that is free for windows, and whether it is the primary one.
#[derive(Debug, Clone, Copy, PartialEq, Eq, Structural)]
pub struct MonitorInfo {
    pub bounds: ScreenRect,
    pub work_area: ScreenRect,
    pub primary: bool,
}

/// A rectangle given by its corner and its size.
#[derive(Debug, Clone, Copy, PartialEq, Eq, Structural)]
pub struct ScreenRect {
    pub x: i32,
    pub y: i32,
    pub width: u32,
    pub height: u32,
}

/// A rectangle given by its four edges, as the window system reports it.
#[derive(Debug, Clone, Copy, PartialEq, Eq, Structural)]
pub struct EdgeRect {
    pub left: i32,
    pub top: i32,
    pub right: i32,
    pub bottom: i32,
}

/// A monitor as the window system reports it.
#[derive(Debug, Clone, Copy, PartialEq, Eq, Structural)]
pub struct NativeMonitor {
    pub bounds: EdgeRect,
    pub work_area: EdgeRect,
    pub flags: u32,
}

/// Whether a point stands in a rectangle; the right and the bottom edge stand outside.
pub open spec fn point_in_rect(rect: ScreenRect, x: int, y: int) -> bool {
    &&& rect.x <= x < far_edge(rect.x, rect.width)
    &&& rect.y <= y < far_edge(rect.y, rect.height)
}

/// Whether the edges of `inner` stand between those of `outer`.
pub open spec fn rect_in_rect(outer: ScreenRect, inner: ScreenRect) -> bool {
    &&& outer.x <= inner.x
    &&& outer.y <= inner.y
    &&& far_edge(inner.x, inner.width) <= far_edge(outer.x, outer.width)
    &&& far_edge(inner.y, inner.height) <= far_edge(outer.y, outer.height)
}

/// Whether no edge of a rectangle leaves the range of coordinates.
pub open spec fn rect_fits(rect: ScreenRect) -> bool {
    rect.x + rect.width <= i32::MAX && rect.y + rect.height <= i32::MAX && rect.width <= i32::MAX
        && rect.height <= i32::MAX
}

/// A rectangle whose edges are coordinates holds the points from its left edge up to its right edge
/// and from its top edge up to its bottom edge.
pub proof fn law_rectangle_holds_what_is_between_its_edges(rect: ScreenRect, x: int, y: int)
    requires
        rect.width <= i32::MAX,
        rect.height <= i32::MAX,
        rect.x + rect.width <= i32::MAX,
        rect.y + rect.height <= i32::MAX,
    ensures
        point_in_rect(rect, x, y) <==> rect.x <= x && x - rect.x < rect.width && rect.y <= y && y
            - rect.y < rect.height,
{
}

/// A rectangle that holds at least one point stands in another if and only if each of its points
/// does.
pub proof fn law_containment_is_point_inclusion(outer: ScreenRect, inner: ScreenRect)
    requires
        rect_fits(inner),
        inner.width > 0,
        inner.height > 0,
    ensures
        rect_in_rect(outer, inner) <==> (forall|x: int, y: int|
            point_in_rect(inner, x, y) ==> point_in_rect(outer, x, y)),
{
    if forall|x: int, y: int| point_in_rect(inner, x, y) ==> point_in_rect(outer, x, y) {
        assert(point_in_rect(inner, inner.x as int, inner.y as int));
        assert(point_in_rect(outer, inner.x as int, inner.y as int));
        assert(point_in_rect(inner, inner.x + inner.width - 1, inner.y + inner.height - 1));
        assert(point_in_rect(outer, inner.x + inner.width - 1, inner.y + inner.height - 1));
    }
}

impl VirtualScreen {
    /// The rectangle of a virtual desktop.
    pub open spec fn spec_rect(self) -> ScreenRect {
        ScreenRect { x: self.x, y: self.y, width: self.width, height: self.height }
    }

    /// The virtual desktop that the system metrics describe: the position and the size that were
    /// read must not be negative or empty.
    pub fn current(x: i32, y: i32, width: i32, height: i32) -> (r: Result<Self, RsnipError>)
        ensures
            match r {
                Ok(screen) => {
                    &&& width > 0 && height > 0
                    &&& screen.x == x && screen.y == y
                    &&& screen.width == width && screen.height == height
                },
                Err(error) => {
                    ||| width < 0 && is_message(
                        error,
                        "invalid virtual screen width from WinAPI: "@ + signed_decimal(
                            width as int,
                        ),
                    )
                    ||| width >= 0 && height < 0 && is_message(
                        error,
                        "invalid virtual screen height from WinAPI: "@ + signed_decimal(
                            height as int,
                        ),
                    )
                    ||| width >= 0 && height >= 0 && (width == 0 || height == 0) && is_message(
                        error,
                        "invalid virtual screen dimensions: "@ + decimal(width as nat) + "x"@
                            + decimal(height as nat) + " at "@ + signed_decimal(x as int) + ","@
                            + signed_decimal(y as int),
                    )
                },
            },
    {
        if width < 0 {
            let mut message = "invalid virtual screen width from WinAPI: ".to_owned();
            append_i32(&mut message, width);
            return Err(RsnipError::Message(message));
        }
        if height < 0 {
            let mut message = "invalid virtual screen height from WinAPI: ".to_owned();
            append_i32(&mut message, height);
            return Err(RsnipError::Message(message));
        }
        if width == 0 || height == 0 {
            let mut message = "invalid virtual screen dimensions: ".to_owned();
            append_u64(&mut message, width as u64);
            message.append("x");
            append_u64(&mut message, height as u64);
            message.append(" at ");
            append_i32(&mut message, x);
            message.append(",");
            append_i32(&mut message, y);
            return Err(RsnipError::Message(message));
        }
        Ok(VirtualScreen { x, y, width: width as u32, height: height as u32 })
    }

    /// The right edge.
    pub fn right(self) -> (r: i32)
        ensures
            r == far_edge(self.x, self.width),
    {
        far_edge_of(self.x, self.width)
    }

    /// The bottom edge.
    pub fn bottom(self) -> (r: i32)
        ensures
            r == far_edge(self.y, self.height),
    {
        far_edge_of(self.y, self.height)
    }

    /// The rectangle of the virtual desktop.
    pub fn rect(self) -> (r: ScreenRect)
        ensures
            r == self.spec_rect(),
    {
        ScreenRect { x: self.x, y: self.y, width: self.width, height: self.height }
    }
}

impl ScreenRect {
    /// The right edge.
    pub fn right(self) -> (r: i32)
        ensures
            r == far_edge(self.x, self.width),
    {
        far_edge_of(self.x, self.width)
    }

    /// The bottom edge.
    pub fn bottom(self) -> (r: i32)
        ensures
            r == far_edge(self.y, self.height),
    {
        far_edge_of(self.y, self.height)
    }

    /// Whether another rectangle stands in this one.
    pub fn contains_rect(self, other: ScreenRect) -> (r: bool)
        ensures
            r == rect_in_rect(self, other),
    {
        other.x >= self.x && other.y >= self.y && other.right() <= self.right() && other.bottom()
            <= self.bottom()
    }

    /// Whether a point stands in the rectangle.
    pub fn contains_point(self, x: i32, y: i32) -> (r: bool)
        ensures
            r == point_in_rect(self, x as int, y as int),
    {
        x >= self.x && y >= self.y && x < self.right() && y < self.bottom()
    }
}

/// The rectangle between four edges; edges in the wrong order leave it empty.
pub open spec fn rect_between(rect: EdgeRect) -> ScreenRect {
    ScreenRect {
        x: rect.left,
        y: rect.top,
        width: (if rect.right <= rect.left {
            0
        } else {
            sat_i32(rect.right - rect.left)
        }) as u32,
        height: (if rect.bottom <= rect.top {
            0
        } else {
            sat_i32(rect.bottom - rect.top)
        }) as u32,
    }
}

/// The rectangle between four edges begins at the left and top ones and ends at the right and bottom
/// ones; it is empty if they are in the wrong order.
pub proof fn law_rectangle_reaches_from_edge_to_edge(rect: EdgeRect)
    requires
        rect.right - rect.left <= i32::MAX,
        rect.bottom - rect.top <= i32::MAX,
    ensures
        rect_between(rect).x == rect.left && rect_between(rect).y == rect.top,
        rect.left <= rect.right ==> rect_between(rect).x + rect_between(rect).width == rect.right,
        rect.top <= rect.bottom ==> rect_between(rect).y + rect_between(rect).height == rect.bottom,
        rect.left > rect.right ==> rect_between(rect).width == 0,
        rect.top > rect.bottom ==> rect_between(rect).height == 0,
{
}

/// Turns edges into a position and a size.
pub fn rect_to_screen_rect(rect: EdgeRect) -> (r: ScreenRect)
    ensures
        r == rect_between(rect),
{
    let width = saturating_sub_i32(rect.right, rect.left);
    let height = saturating_sub_i32(rect.bottom, rect.top);
    ScreenRect {
        x: rect.left,
        y: rect.top,
        width: if width > 0 {
            width as u32
        } else {
            0
        },
        height: if height > 0 {
            height as u32
        } else {
            0
        },
    }
}

/// What is told of a monitor: the lowest flag marks the primary one.
pub open spec fn monitor_of(native: NativeMonitor) -> MonitorInfo {
    MonitorInfo {
        bounds: rect_between(native.bounds),
        work_area: rect_between(native.work_area),
        primary: native.flags % 2 == 1,
    }
}

/// A monitor has the bounds and the free part that the system reported, and is the primary one if
/// the lowest bit of its flags is set.
pub proof fn law_monitor_is_as_reported(native: NativeMonitor)
    requires
        native.bounds.left <= native.bounds.right && native.bounds.top <= native.bounds.bottom,
        native.bounds.right - native.bounds.left <= i32::MAX,
        native.bounds.bottom - native.bounds.top <= i32::MAX,
        native.work_area.left <= native.work_area.right,
        native.work_area.top <= native.work_area.bottom,
        native.work_area.right - native.work_area.left <= i32::MAX,
        native.work_area.bottom - native.work_area.top <= i32::MAX,
    ensures
        ({
            let monitor = monitor_of(native);
            let (bounds, free) = (monitor.bounds, monitor.work_area);
            &&& bounds.x == native.bounds.left && bounds.x + bounds.width == native.bounds.right
            &&& bounds.y == native.bounds.top && bounds.y + bounds.height == native.bounds.bottom
            &&& free.x == native.work_area.left && free.x + free.width == native.work_area.right
            &&& free.y == native.work_area.top && free.y + free.height == native.work_area.bottom
            &&& monitor.primary <==> native.flags % 2 == 1
        }),
{
}

/// The monitors that the window system reported, in its order, or the error that it could not
/// enumerate them.
pub fn enumerate_monitors(reported: Option<Vec<NativeMonitor>>) -> (r: Result<
    Vec<MonitorInfo>,
    RsnipError,
>)
    ensures
        match r {
            Ok(monitors) => reported is Some && monitors@ == reported->0@.map_values(
                |native: NativeMonitor| monitor_of(native),
            ),
            Err(error) => reported is None && is_message(error, "EnumDisplayMonitors failed"@),
        },
{
    match reported {
        None => Err(message_error("EnumDisplayMonitors failed")),
        Some(natives) => {
            let mut monitors: Vec<MonitorInfo> = Vec::new();
            let mut i: usize = 0;
            while i < natives.len()
                invariant
                    i <= natives@.len(),
                    monitors@ == natives@.take(i as int).map_values(
                        |native: NativeMonitor| monitor_of(native),
                    ),
                decreases natives@.len() - i,
            {
                let native = natives[i];
                monitors.push(
                    MonitorInfo {
                        bounds: rect_to_screen_rect(native.bounds),
                        work_area: rect_to_screen_rect(native.work_area),
                        primary: native.flags % 2 == 1,
                    },
                );
                i += 1;
                assert(natives@.take(i as int) =~= natives@.take(i - 1).push(natives@[i - 1]));
                assert(monitors@ =~= natives@.take(i as int).map_values(
                    |native: NativeMonitor| monitor_of(native),
                ));
            }
            assert(natives@.take(i as int) =~= natives@);
            Ok(monitors)
        },
    }
}

/// Whether the process is aware of the resolution of each monitor, given whether the modern call
/// and, after its failure, the older one succeeded.
pub fn initialize_dpi_awareness(modern_set: bool, fallback_set: bool) -> (r: Result<
    (),
    RsnipError,
>)
    ensures
        match r {
            Ok(()) => modern_set || fallback_set,
            Err(error) => !modern_set && !fallback_set && is_message(
                error,
                "failed to set process DPI awareness"@,
            ),
        },
{
    if modern_set || fallback_set {
        Ok(())
    } else {
        Err(message_error("failed to set process DPI awareness"))
    }
}

} // verus!
