//! Windows that can be picked as a whole.
use crate::errors::{is_message, RsnipError};
use crate::math::{sat_i32, saturating_sub_i32};
use crate::screen::capture::CaptureRegion;
use crate::screen::monitor::{
    point_in_rect, rect_in_rect, EdgeRect, ScreenRect, VirtualScreen,
};
use crate::text::{decode_utf16, is_blank, lemma_trimmed_empty, text_eq, trimmed, utf16_text};
use vstd::prelude::*;

verus! {

/// What the window system knows a window by.
#[derive(Debug, Clone, Copy, PartialEq, Eq, Hash, Structural)]
pub struct SelectableWindowHandle(pub isize);

/// A window that can be picked.
#[derive(Debug, Clone, PartialEq, Eq)]
pub struct SelectableWindow {
    pub handle: SelectableWindowHandle,
    pub title: String,
    pub bounds: CaptureRegion,
    pub kind: SelectableWindowKind,
}

/// Whether a window is an ordinary one or the taskbar.
#[derive(Debug, Clone, Copy, PartialEq, Eq, Structural)]
pub enum SelectableWindowKind {
    Window,
    Taskbar,
}

/// What the window system reports of a top-level window.
#[derive(Debug, Clone, PartialEq, Eq)]
pub struct NativeWindow {
    pub handle: SelectableWindowHandle,
    pub visible: bool,
    pub minimized: bool,
    pub title: Option<String>,
    pub frame: Option<EdgeRect>,
    pub rect: Option<EdgeRect>,
}

/// A window that can be picked, as a mathematical value.
pub struct WindowModel {
    pub handle: SelectableWindowHandle,
    pub title: Seq<char>,
    pub bounds: CaptureRegion,
    pub kind: SelectableWindowKind,
}

impl View for SelectableWindow {
    type V = WindowModel;

    open spec fn view(&self) -> WindowModel {
        WindowModel {
            handle: self.handle,
            title: self.title@,
            bounds: self.bounds,
            kind: self.kind,
        }
    }
}

/// The models of a list of windows.
pub open spec fn window_models(windows: Seq<SelectableWindow>) -> Seq<WindowModel> {
    Seq::new(windows.len(), |i: int| windows[i]@)
}

// ---------------------------------------------------------------------------------------------
// Bounds and titles
// ---------------------------------------------------------------------------------------------

/// The region between four edges, if it holds a pixel.
pub open spec fn region_between(rect: EdgeRect) -> Option<CaptureRegion> {
    if rect.right <= rect.left || rect.bottom <= rect.top {
        None
    } else {
        Some(
            CaptureRegion {
                x: rect.left,
                y: rect.top,
                width: sat_i32(rect.right - rect.left) as u32,
                height: sat_i32(rect.bottom - rect.top) as u32,
            },
        )
    }
}

/// Turns edges into a region.
pub fn capture_region_from_rect(rect: EdgeRect) -> (r: Option<CaptureRegion>)
    ensures
        r == region_between(rect),
{
    let width = saturating_sub_i32(rect.right, rect.left);
    let height = saturating_sub_i32(rect.bottom, rect.top);
    if width <= 0 || height <= 0 {
        return None;
    }
    match CaptureRegion::new(rect.left, rect.top, width as u32, height as u32) {
        Ok(region) => Some(region),
        Err(_) => None,
    }
}

/// The bounds of a window: its visible frame where that is known, else its rectangle.
pub open spec fn bounds_of(frame: Option<EdgeRect>, rect: Option<EdgeRect>) -> Option<
    CaptureRegion,
> {
    match (frame, rect) {
        (Some(edges), _) => region_between(edges),
        (None, Some(edges)) => region_between(edges),
        (None, None) => None,
    }
}

/// The bounds of a window reach from its left and top edges to its right and bottom ones; the frame
/// that the system draws is preferred to the rectangle with the shadow around it.
pub proof fn law_bounds_reach_from_edge_to_edge(frame: Option<EdgeRect>, rect: Option<EdgeRect>)
    ensures
        frame is None && rect is None ==> bounds_of(frame, rect) is None,
        frame is Some ==> bounds_of(frame, rect) == bounds_of(frame, None),
        rect matches Some(edges) ==> (bounds_of(None, rect) is Some <==> edges.left < edges.right
            && edges.top < edges.bottom),
        frame matches Some(edges) ==> (bounds_of(frame, rect) matches Some(bounds) ==> {
            &&& bounds.x == edges.left && bounds.y == edges.top
            &&& edges.right - edges.left <= i32::MAX ==> bounds.x + bounds.width == edges.right
            &&& edges.bottom - edges.top <= i32::MAX ==> bounds.y + bounds.height == edges.bottom
        }),
        rect matches Some(edges) ==> (bounds_of(None, rect) matches Some(bounds) ==> {
            &&& bounds.x == edges.left && bounds.y == edges.top
            &&& edges.right - edges.left <= i32::MAX ==> bounds.x + bounds.width == edges.right
            &&& edges.bottom - edges.top <= i32::MAX ==> bounds.y + bounds.height == edges.bottom
        }),
{
}

/// Picks the bounds of a window.
pub fn window_bounds(frame: Option<EdgeRect>, rect: Option<EdgeRect>) -> (r: Option<CaptureRegion>)
    ensures
        r == bounds_of(frame, rect),
{
    match frame {
        Some(edges) => capture_region_from_rect(edges),
        None => match rect {
            Some(edges) => capture_region_from_rect(edges),
            None => None,
        },
    }
}

/// The title that was copied into `buffer`, given the length that was announced and the number of
/// units that were copied.
pub fn window_title(announced: i32, buffer: &[u16], copied: i32) -> (r: Option<String>)
    requires
        copied <= buffer@.len(),
    ensures
        match r {
            Some(title) => announced > 0 && copied > 0 && title@ == utf16_text(
                buffer@.take(copied as int),
            ),
            None => announced <= 0 || copied <= 0,
        },
{
    if announced <= 0 || copied <= 0 {
        return None;
    }
    let units = vstd::slice::slice_subrange(buffer, 0, copied as usize);
    assert(units@ == buffer@.take(copied as int));
    Some(decode_utf16(units))
}

/// The rectangle of a region.
pub fn rect_from_region(region: CaptureRegion) -> (r: ScreenRect)
    ensures
        r == region.spec_rect(),
{
    ScreenRect { x: region.x, y: region.y, width: region.width, height: region.height }
}

// ---------------------------------------------------------------------------------------------
// Picking
// ---------------------------------------------------------------------------------------------

/// The first of the windows, from the top of the stack, that covers a point.
pub open spec fn topmost(windows: Seq<WindowModel>, x: int, y: int) -> Option<WindowModel>
    decreases windows.len(),
{
    if windows.len() == 0 {
        None
    } else if point_in_rect(windows[0].bounds.spec_rect(), x, y) {
        Some(windows[0])
    } else {
        topmost(windows.drop_first(), x, y)
    }
}

/// The window under a point is the first of the list that holds the point; there is none only if
/// none of the list holds it.
pub proof fn law_topmost_window_is_the_first_hit(windows: Seq<WindowModel>, x: int, y: int)
    ensures
        match topmost(windows, x, y) {
            Some(window) => exists|i: int|
                #![trigger windows[i]]
                {
                    &&& 0 <= i < windows.len() && windows[i] == window
                    &&& point_in_rect(window.bounds.spec_rect(), x, y)
                    &&& forall|k: int|
                        0 <= k < i ==> !point_in_rect(
                            (#[trigger] windows[k]).bounds.spec_rect(),
                            x,
                            y,
                        )
                },
            None => forall|i: int|
                0 <= i < windows.len() ==> !point_in_rect(
                    (#[trigger] windows[i]).bounds.spec_rect(),
                    x,
                    y,
                ),
        },
    decreases windows.len(),
{
    if windows.len() > 0 {
        let rest = windows.drop_first();
        if point_in_rect(windows[0].bounds.spec_rect(), x, y) {
            assert(windows[0] == topmost(windows, x, y)->0);
        } else {
            law_topmost_window_is_the_first_hit(rest, x, y);
            match topmost(rest, x, y) {
                Some(window) => {
                    let i = choose|i: int|
                        #![trigger rest[i]]
                        {
                            &&& 0 <= i < rest.len() && rest[i] == window
                            &&& point_in_rect(window.bounds.spec_rect(), x, y)
                            &&& forall|k: int|
                                0 <= k < i ==> !point_in_rect(
                                    (#[trigger] rest[k]).bounds.spec_rect(),
                                    x,
                                    y,
                                )
                        };
                    assert(windows[i + 1] == window);
                    assert forall|k: int| 0 <= k < i + 1 implies !point_in_rect(
                        (#[trigger] windows[k]).bounds.spec_rect(),
                        x,
                        y,
                    ) by {
                        if k > 0 {
                            assert(rest[k - 1] == windows[k]);
                        }
                    }
                },
                None => {
                    assert forall|i: int| 0 <= i < windows.len() implies !point_in_rect(
                        (#[trigger] windows[i]).bounds.spec_rect(),
                        x,
                        y,
                    ) by {
                        if i > 0 {
                            assert(rest[i - 1] == windows[i]);
                        }
                    }
                },
            }
        }
    }
}

/// Windows that do not cover a point can be passed over.
proof fn lemma_topmost(windows: Seq<WindowModel>, x: int, y: int, count: int)
    requires
        0 <= count <= windows.len(),
        forall|j: int|
            0 <= j < count ==> !point_in_rect((#[trigger] windows[j]).bounds.spec_rect(), x, y),
    ensures
        topmost(windows, x, y) == topmost(windows.skip(count), x, y),
    decreases count,
{
    if count > 0 {
        assert forall|j: int| 0 <= j < count - 1 implies !point_in_rect(
            (#[trigger] windows.drop_first()[j]).bounds.spec_rect(),
            x,
            y,
        ) by {
            assert(windows.drop_first()[j] == windows[j + 1]);
        }
        lemma_topmost(windows.drop_first(), x, y, count - 1);
        assert(windows.drop_first().skip(count - 1) =~= windows.skip(count));
    } else {
        assert(windows.skip(0) =~= windows);
    }
}

/// Copies a window.
pub fn copy_window(window: &SelectableWindow) -> (r: SelectableWindow)
    ensures
        r@ == window@,
{
    SelectableWindow {
        handle: window.handle,
        title: window.title.clone(),
        bounds: window.bounds,
        kind: window.kind,
    }
}

/// The first window, from the top of the stack, that covers a point.
pub fn window_at_point(windows: &[SelectableWindow], x: i32, y: i32) -> (r: Option<
    &SelectableWindow,
>)
    ensures
        match r {
            Some(window) => topmost(window_models(windows@), x as int, y as int) == Some(window@),
            None => topmost(window_models(windows@), x as int, y as int) is None,
        },
        match r {
            Some(window) => exists|i: int|
                {
                    &&& 0 <= i < windows@.len()
                    &&& *window == #[trigger] windows@[i]
                    &&& point_in_rect(windows@[i].bounds.spec_rect(), x as int, y as int)
                    &&& forall|j: int|
                        0 <= j < i ==> !point_in_rect(
                            (#[trigger] windows@[j]).bounds.spec_rect(),
                            x as int,
                            y as int,
                        )
                },
            None => forall|j: int|
                0 <= j < windows@.len() ==> !point_in_rect(
                    (#[trigger] windows@[j]).bounds.spec_rect(),
                    x as int,
                    y as int,
                ),
        },
{
    let mut i: usize = 0;
    while i < windows.len()
        invariant
            i <= windows@.len(),
            forall|j: int|
                0 <= j < i ==> !point_in_rect(
                    (#[trigger] windows@[j]).bounds.spec_rect(),
                    x as int,
                    y as int,
                ),
        decreases windows@.len() - i,
    {
        let window = &windows[i];
        if window.bounds.rect().contains_point(x, y) {
            proof {
                lemma_topmost(window_models(windows@), x as int, y as int, i as int);
                assert(window_models(windows@).skip(i as int)[0] == window@);
                assert(*window == windows@[i as int]);
            }
            return Some(window);
        }
        i += 1;
    }
    proof {
        lemma_topmost(window_models(windows@), x as int, y as int, i as int);
    }
    None
}

/// Whether a window is worth offering: it has a title, is no part of the shell, is not tiny, and
/// lies on the virtual desktop.
pub open spec fn is_useful(window: WindowModel, screen: VirtualScreen) -> bool {
    &&& trimmed(window.title).len() > 0
    &&& window.title != "Program Manager"@
    &&& window.title != "Windows Input Experience"@
    &&& window.bounds.width >= 8
    &&& window.bounds.height >= 8
    &&& rect_in_rect(screen.spec_rect(), window.bounds.spec_rect())
}

/// Tells whether a window is worth offering.
pub fn is_useful_window(window: &SelectableWindow, screen: VirtualScreen) -> (r: bool)
    ensures
        r == is_useful(window@, screen),
{
    if is_blank(window.title.as_str()) || text_eq(window.title.as_str(), "Program Manager")
        || text_eq(window.title.as_str(), "Windows Input Experience") {
        return false;
    }
    if window.bounds.width < 8 || window.bounds.height < 8 {
        return false;
    }
    screen.rect().contains_rect(window.bounds.rect())
}

/// The window that is offered for one that was reported: it is visible, not minimized, has bounds
/// and is worth offering.
pub open spec fn offered(native: NativeWindow, screen: VirtualScreen) -> Option<WindowModel> {
    let bounds = bounds_of(native.frame, native.rect);
    if native.visible && !native.minimized && bounds is Some {
        let window = WindowModel {
            handle: native.handle,
            title: match native.title {
                Some(title) => title@,
                None => Seq::empty(),
            },
            bounds: bounds->0,
            kind: SelectableWindowKind::Window,
        };
        if is_useful(window, screen) {
            Some(window)
        } else {
            None
        }
    } else {
        None
    }
}

/// The windows that are offered, in the order in which they were reported.
pub open spec fn offered_windows(reported: Seq<NativeWindow>, screen: VirtualScreen) -> Seq<
    WindowModel,
>
    decreases reported.len(),
{
    if reported.len() == 0 {
        Seq::empty()
    } else {
        let before = offered_windows(reported.drop_last(), screen);
        match offered(reported.last(), screen) {
            Some(window) => before.push(window),
            None => before,
        }
    }
}

/// Every window that is offered is one that the system reported, with its handle and title: it is
/// visible, not minimized, has a title, is at least eight pixels wide and high, and lies on the
/// screen.
pub proof fn law_offered_windows_can_be_seen(
    reported: Seq<NativeWindow>,
    screen: VirtualScreen,
    index: int,
)
    requires
        0 <= index < offered_windows(reported, screen).len(),
    ensures
        ({
            let window = offered_windows(reported, screen)[index];
            &&& window.bounds.width >= 8 && window.bounds.height >= 8
            &&& trimmed(window.title).len() > 0
            &&& rect_in_rect(screen.spec_rect(), window.bounds.spec_rect())
            &&& exists|i: int|
                #![trigger reported[i]]
                {
                    &&& 0 <= i < reported.len()
                    &&& reported[i].handle == window.handle
                    &&& reported[i].visible && !reported[i].minimized
                    &&& reported[i].title matches Some(title) && title@ == window.title
                    &&& bounds_of(reported[i].frame, reported[i].rect) == Some(window.bounds)
                }
        }),
    decreases reported.len(),
{
    if reported.len() > 0 {
        let rest = reported.drop_last();
        let window = offered_windows(reported, screen)[index];
        let last = reported[reported.len() - 1];
        if index < offered_windows(rest, screen).len() {
            law_offered_windows_can_be_seen(rest, screen, index);
            let i = choose|i: int|
                #![trigger rest[i]]
                {
                    &&& 0 <= i < rest.len()
                    &&& rest[i].handle == window.handle
                    &&& rest[i].visible && !rest[i].minimized
                    &&& rest[i].title matches Some(title) && title@ == window.title
                    &&& bounds_of(rest[i].frame, rest[i].rect) == Some(window.bounds)
                };
            assert(reported[i] == rest[i]);
        } else {
            assert(last.handle == window.handle);
            lemma_trimmed_empty();
        }
    }
}

/// A window that is visible, is not minimized, has a title that is not that of a part of the
/// desktop, is large enough and lies on the screen is among those that are offered.
pub proof fn law_useful_windows_are_offered(
    reported: Seq<NativeWindow>,
    screen: VirtualScreen,
    index: int,
    window: WindowModel,
)
    requires
        0 <= index < reported.len(),
        reported[index].visible && !reported[index].minimized,
        reported[index].title matches Some(title) && title@ == window.title,
        bounds_of(reported[index].frame, reported[index].rect) == Some(window.bounds),
        window.handle == reported[index].handle,
        window.kind is Window,
        trimmed(window.title).len() > 0,
        window.title != "Program Manager"@ && window.title != "Windows Input Experience"@,
        window.bounds.width >= 8 && window.bounds.height >= 8,
        rect_in_rect(screen.spec_rect(), window.bounds.spec_rect()),
    ensures
        offered_windows(reported, screen).contains(window),
    decreases reported.len(),
{
    let rest = reported.drop_last();
    let before = offered_windows(rest, screen);
    let all = offered_windows(reported, screen);
    if index < rest.len() {
        assert(rest[index] == reported[index]);
        law_useful_windows_are_offered(rest, screen, index, window);
        let i = choose|i: int| 0 <= i < before.len() && before[i] == window;
        assert(all[i] == window);
    } else {
        assert(offered(reported.last(), screen) == Some(window));
        assert(all[before.len() as int] == window);
    }
}

/// Turns what was reported of a window into one that is offered.
fn offer_window(native: &NativeWindow, screen: VirtualScreen) -> (r: Option<SelectableWindow>)
    ensures
        match r {
            Some(window) => offered(*native, screen) == Some(window@),
            None => offered(*native, screen) is None,
        },
{
    if !native.visible || native.minimized {
        return None;
    }
    let bounds = match window_bounds(native.frame, native.rect) {
        Some(bounds) => bounds,
        None => {
            return None;
        },
    };
    let title = match &native.title {
        Some(title) => title.clone(),
        None => String::new(),
    };
    let window = SelectableWindow {
        handle: native.handle,
        title,
        bounds,
        kind: SelectableWindowKind::Window,
    };
    if is_useful_window(&window, screen) {
        Some(window)
    } else {
        None
    }
}

/// The list with the taskbar at its end, unless there is none, it has no bounds, or its handle is
/// listed already.
pub open spec fn with_taskbar(
    windows: Seq<WindowModel>,
    taskbar: Option<(SelectableWindowHandle, Option<CaptureRegion>)>,
) -> Seq<WindowModel> {
    match taskbar {
        Some((handle, Some(bounds))) => if exists|i: int|
            0 <= i < windows.len() && (#[trigger] windows[i]).handle == handle {
            windows
        } else {
            windows.push(
                WindowModel {
                    handle,
                    title: "Taskbar"@,
                    bounds,
                    kind: SelectableWindowKind::Taskbar,
                },
            )
        },
        _ => windows,
    }
}

/// Every window that was offered stays, in its place, and the taskbar is offered behind them if its
/// bounds are known and it is not among them already; so no handle is offered twice on its account.
pub proof fn law_taskbar_is_offered_once(
    windows: Seq<WindowModel>,
    handle: SelectableWindowHandle,
    bounds: Option<CaptureRegion>,
    index: int,
)
    requires
        0 <= index < windows.len(),
    ensures
        ({
            let all = with_taskbar(windows, Some((handle, bounds)));
            &&& all[index] == windows[index]
            &&& windows.len() <= all.len() <= windows.len() + 1
            &&& bounds is None ==> all == windows
            &&& windows[index].handle == handle ==> all == windows
            &&& all.len() > windows.len() ==> {
                &&& all.last().handle == handle && Some(all.last().bounds) == bounds
                &&& all.last().kind is Taskbar
            }
            &&& bounds is Some ==> exists|i: int|
                0 <= i < all.len() && (#[trigger] all[i]).handle == handle
        }),
        with_taskbar(windows, None) == windows,
{
    let all = with_taskbar(windows, Some((handle, bounds)));
    if all.len() > windows.len() {
        assert(all[windows.len() as int].handle == handle);
    }
}

/// Adds the taskbar to the windows that are offered.
pub fn add_taskbar_window(
    windows: &mut Vec<SelectableWindow>,
    taskbar: Option<(SelectableWindowHandle, Option<CaptureRegion>)>,
)
    ensures
        window_models(final(windows)@) == with_taskbar(window_models(old(windows)@), taskbar),
{
    let (handle, found) = match taskbar {
        Some(taskbar) => taskbar,
        None => {
            return ;
        },
    };
    let ghost models = window_models(windows@);
    let mut i: usize = 0;
    while i < windows.len()
        invariant
            i <= windows@.len(),
            models == window_models(windows@),
            *windows == *old(windows),
            taskbar == Some((handle, found)),
            forall|j: int| 0 <= j < i ==> (#[trigger] models[j]).handle != handle,
        decreases windows@.len() - i,
    {
        if windows[i].handle == handle {
            assert(models[i as int].handle == handle);
            return ;
        }
        i += 1;
    }
    let bounds = match found {
        Some(bounds) => bounds,
        None => {
            return ;
        },
    };
    windows.push(
        SelectableWindow {
            handle,
            title: "Taskbar".to_owned(),
            bounds,
            kind: SelectableWindowKind::Taskbar,
        },
    );
    assert(window_models(windows@) =~= with_taskbar(models, taskbar));
}

/// The windows that can be picked: those that were reported and are worth offering, and the taskbar
/// behind them. Where the window system could not enumerate its windows, the reason is told.
pub fn enumerate_selectable_windows(
    screen: VirtualScreen,
    reported: &Result<Vec<NativeWindow>, String>,
    taskbar: Option<(SelectableWindowHandle, Option<CaptureRegion>)>,
) -> (r: Result<Vec<SelectableWindow>, RsnipError>)
    ensures
        match (*reported, r) {
            (Ok(natives), Ok(windows)) => window_models(windows@) == with_taskbar(
                offered_windows(natives@, screen),
                taskbar,
            ),
            (Err(cause), Err(error)) => is_message(error, "EnumWindows failed: "@ + cause@),
            _ => false,
        },
{
    match reported {
        Err(cause) => {
            let mut message = "EnumWindows failed: ".to_owned();
            message.append(cause.as_str());
            Err(RsnipError::Message(message))
        },
        Ok(natives) => {
            let mut windows: Vec<SelectableWindow> = Vec::new();
            let mut i: usize = 0;
            assert(window_models(windows@) =~= Seq::empty());
            while i < natives.len()
                invariant
                    i <= natives@.len(),
                    window_models(windows@) == offered_windows(natives@.take(i as int), screen),
                decreases natives@.len() - i,
            {
                let ghost before = window_models(windows@);
                assert(natives@.take(i + 1).drop_last() =~= natives@.take(i as int));
                match offer_window(&natives[i], screen) {
                    Some(window) => {
                        windows.push(window);
                        assert(window_models(windows@) =~= before.push(window@));
                    },
                    None => {},
                }
                i += 1;
            }
            assert(natives@.take(i as int) =~= natives@);
            add_taskbar_window(&mut windows, taskbar);
            Ok(windows)
        },
    }
}

} // verus!
