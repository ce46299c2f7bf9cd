//! Short notices: what they say, when they fade and what a click on them does.
use crate::math::{max_int, min_int};
use crate::overlay::paint::{
    paint_models, PaintModel, PaintStep, WindowStep, WM_CLOSE, WM_DESTROY, WM_LBUTTONUP,
    WM_NCCREATE, WM_NCDESTROY, WM_PAINT, WM_TIMER,
};
use crate::screen::monitor::EdgeRect;
use crate::time::Elapsed;
use vstd::prelude::*;

verus! {

/// The text of a notice.
#[derive(Debug, Clone, PartialEq, Eq)]
pub struct ToastMessage(pub String);

/// Whether a notice tells of a success or of an error.
#[derive(Debug, Clone, Copy, PartialEq, Eq, Structural)]
pub enum ToastKind {
    Info,
    Error,
}

/// What a click on a notice does.
#[derive(Debug, Clone, PartialEq, Eq)]
pub enum ToastAction {
    Nothing,
    DebugLog,
    OpenEditor(String),
    OpenInExplorer(String),
}

/// A notice.
#[derive(Debug, Clone, PartialEq, Eq)]
pub struct Toast {
    pub title: String,
    pub message: ToastMessage,
    pub kind: ToastKind,
    pub action: ToastAction,
}

/// What a click on a notice does, as a mathematical value.
pub enum ToastActionModel {
    Nothing,
    DebugLog,
    OpenEditor(Seq<char>),
    OpenInExplorer(Seq<char>),
}

/// A notice as a mathematical value.
pub struct ToastModel {
    pub title: Seq<char>,
    pub message: Seq<char>,
    pub kind: ToastKind,
    pub action: ToastActionModel,
}

impl View for ToastAction {
    type V = ToastActionModel;

    open spec fn view(&self) -> ToastActionModel {
        match *self {
            ToastAction::Nothing => ToastActionModel::Nothing,
            ToastAction::DebugLog => ToastActionModel::DebugLog,
            ToastAction::OpenEditor(path) => ToastActionModel::OpenEditor(path@),
            ToastAction::OpenInExplorer(path) => ToastActionModel::OpenInExplorer(path@),
        }
    }
}

impl View for Toast {
    type V = ToastModel;

    open spec fn view(&self) -> ToastModel {
        ToastModel {
            title: self.title@,
            message: self.message.0@,
            kind: self.kind,
            action: self.action@,
        }
    }
}

/// A notice.
pub fn show_toast_async(title: &str, message: String, kind: ToastKind, action: ToastAction) -> (r:
    Toast)
    ensures
        r@ == (ToastModel { title: title@, message: message@, kind, action: action@ }),
{
    Toast { title: title.to_owned(), message: ToastMessage(message), kind, action }
}

/// A notice on which a click does nothing.
pub fn show_simple_toast_async(title: &str, message: String, kind: ToastKind) -> (r: Toast)
    ensures
        r@ == (ToastModel {
            title: title@,
            message: message@,
            kind,
            action: ToastActionModel::Nothing,
        }),
{
    show_toast_async(title, message, kind, ToastAction::Nothing)
}

// ---------------------------------------------------------------------------------------------
// Place and time
// ---------------------------------------------------------------------------------------------

pub const TOAST_WIDTH: i32 = 360;

pub const TOAST_HEIGHT: i32 = 86;

pub const TOAST_X_MARGIN: i32 = 24;

pub const TOAST_BOTTOM_MARGIN: i32 = 54;

/// How long a notice stays, in milliseconds.
pub const TOAST_DURATION_MS: u64 = 2200;

/// How long it takes to appear, in milliseconds.
pub const TOAST_FADE_IN_MS: u64 = 140;

/// How long it takes to disappear, in milliseconds.
pub const TOAST_FADE_OUT_MS: u64 = 260;

/// Where a notice stands: in the lower right corner of the screen, off its edges.
pub fn toast_position(screen_width: i32, screen_height: i32) -> (r: (i32, i32))
    requires
        screen_width - TOAST_WIDTH - TOAST_X_MARGIN >= i32::MIN,
        screen_height - TOAST_HEIGHT - TOAST_BOTTOM_MARGIN >= i32::MIN,
    ensures
        r.0 + TOAST_WIDTH + TOAST_X_MARGIN == screen_width,
        r.1 + TOAST_HEIGHT + TOAST_BOTTOM_MARGIN == screen_height,
{
    (
        screen_width - TOAST_WIDTH - TOAST_X_MARGIN,
        screen_height - TOAST_HEIGHT - TOAST_BOTTOM_MARGIN,
    )
}

/// The share of a duration that has passed, out of 255, rounded down.
pub open spec fn share(elapsed_ms: int, duration_ms: int) -> int {
    min_int(elapsed_ms, duration_ms) * 255 / max_int(duration_ms, 1)
}

/// Computes the share of a duration that has passed, in whole milliseconds.
pub fn scaled_alpha(elapsed: Elapsed, duration: Elapsed) -> (r: u8)
    ensures
        r == share(elapsed.millis() as int, duration.millis() as int),
{
    let total = duration.as_millis();
    let passed = elapsed.as_millis();
    let passed: u128 = if passed < total {
        passed
    } else {
        total
    };
    let divisor: u128 = if total > 1 {
        total
    } else {
        1
    };
    assert(passed < 0x1_0000_0000_0000_0000_0000_0000) by {
        let _ = duration.nanos();
    }
    assert(0 <= passed * 255 / divisor as int <= 255) by (nonlinear_arith)
        requires
            0 <= passed <= divisor,
            divisor >= 1,
    ;
    (passed * 255 / divisor) as u8
}

/// How opaque a notice is after a time, out of 255: it fades in, stays and fades out.
pub open spec fn opacity(nanos: nat) -> int {
    if nanos < TOAST_FADE_IN_MS * 1_000_000 {
        share((nanos / 1_000_000) as int, TOAST_FADE_IN_MS as int)
    } else if nanos >= (TOAST_DURATION_MS - TOAST_FADE_OUT_MS) * 1_000_000 {
        255 - share(
            (nanos - (TOAST_DURATION_MS - TOAST_FADE_OUT_MS) * 1_000_000) / 1_000_000,
            TOAST_FADE_OUT_MS as int,
        )
    } else {
        255
    }
}

/// Computes how opaque a notice is after a time.
pub fn toast_alpha(elapsed: Elapsed) -> (r: u8)
    ensures
        r == opacity(elapsed.nanos()),
{
    let nanos = elapsed.as_nanos();
    let fade_in = Elapsed::from_millis(TOAST_FADE_IN_MS);
    if nanos < fade_in.as_nanos() {
        return scaled_alpha(elapsed, fade_in);
    }
    let fade_out = Elapsed::from_millis(TOAST_FADE_OUT_MS);
    let fade_out_start = Elapsed::from_millis(TOAST_DURATION_MS).saturating_sub(fade_out);
    if nanos >= fade_out_start.as_nanos() {
        return u8::MAX - scaled_alpha(elapsed.saturating_sub(fade_out_start), fade_out);
    }
    u8::MAX
}

/// A notice only becomes more opaque while it appears, only less while it disappears, and is fully
/// opaque in between.
pub proof fn law_notice_fades_in_and_out(earlier: nat, later: nat)
    requires
        earlier <= later,
    ensures
        0 <= opacity(later) <= 255,
        opacity(0) == 0,
        later < TOAST_FADE_IN_MS * 1_000_000 ==> opacity(earlier) <= opacity(later),
        TOAST_FADE_IN_MS * 1_000_000 <= later < (TOAST_DURATION_MS - TOAST_FADE_OUT_MS) * 1_000_000
            ==> opacity(later) == 255,
        earlier >= (TOAST_DURATION_MS - TOAST_FADE_OUT_MS) * 1_000_000 ==> opacity(earlier)
            >= opacity(later),
        later >= TOAST_DURATION_MS * 1_000_000 ==> opacity(later) == 0,
{
    assert forall|ms: int| #[trigger] share(ms, 140) == min_int(ms, 140) * 255 / 140 by {}
    assert forall|ms: int| #[trigger] share(ms, 260) == min_int(ms, 260) * 255 / 260 by {}
    let fade_out_start: int = (TOAST_DURATION_MS - TOAST_FADE_OUT_MS) * 1_000_000;
    assert(share((earlier / 1_000_000) as int, 140) >= 0);
    assert(share((later / 1_000_000) as int, 140) >= 0);
    assert(share((later - fade_out_start) / 1_000_000, 260) <= 255);
}

/// A notice appears and disappears evenly: while it appears its opacity is the share of the time
/// that has passed, in whole milliseconds, and while it disappears the share that is left, of 255
/// and rounded down or up to a whole number.
pub proof fn law_notice_fades_evenly(ms: nat)
    ensures
        ms < 140 ==> 140 * opacity(1_000_000 * ms) <= 255 * ms < 140 * opacity(1_000_000 * ms) + 140,
        1940 <= ms <= 2200 ==> 260 * opacity(1_000_000 * ms) - 260 < 255 * (2200 - ms) <= 260
            * opacity(1_000_000 * ms),
        140 <= ms < 1940 ==> opacity(1_000_000 * ms) == 255,
{
    assert((1_000_000 * ms) / 1_000_000 == ms);
    if ms >= 1940 {
        assert((1_000_000 * ms - 1_940_000_000) / 1_000_000 == ms - 1940);
        assert(share(ms - 1940, 260) == min_int(ms - 1940, 260) * 255 / 260);
    }
    assert(share(ms as int, 140) == min_int(ms as int, 140) * 255 / 140);
}

/// What happens to a notice when its timer ticks.
#[derive(Debug, Clone, Copy, PartialEq, Eq, Structural)]
pub enum ToastTick {
    Close,
    SetAlpha(u8),
}

/// Tells what happens to a notice when its timer ticks.
pub fn update_toast_opacity_or_close(elapsed: Elapsed) -> (r: ToastTick)
    ensures
        r == if elapsed.nanos() >= TOAST_DURATION_MS * 1_000_000 {
            ToastTick::Close
        } else {
            ToastTick::SetAlpha(opacity(elapsed.nanos()) as u8)
        },
{
    if elapsed.as_nanos() >= Elapsed::from_millis(TOAST_DURATION_MS).as_nanos() {
        return ToastTick::Close;
    }
    ToastTick::SetAlpha(toast_alpha(elapsed))
}

/// The colour of the ground of a notice, with its blue part first.
pub fn toast_background(kind: ToastKind) -> (r: u32)
    ensures
        r == ground(kind),
{
    match kind {
        ToastKind::Info => 0x0020_2020,
        ToastKind::Error => 0x0020_2060,
    }
}

/// The argument with which the file manager shows a file.
pub fn explorer_select_arg(path: &str) -> (r: String)
    ensures
        r@ == "/select,"@ + path@,
{
    let mut arg = "/select,".to_owned();
    arg.append(path);
    arg
}

// ---------------------------------------------------------------------------------------------
// The window
// ---------------------------------------------------------------------------------------------

/// The colour of the ground of a notice.
pub open spec fn ground(kind: ToastKind) -> u32 {
    match kind {
        ToastKind::Info => 0x0020_2020,
        ToastKind::Error => 0x0020_2060,
    }
}

/// What is painted in the window of a notice, in order: the ground, the title in one line, and the
/// message under it, wrapped.
pub open spec fn notice_painting(toast: ToastModel) -> Seq<PaintModel> {
    seq![
        PaintModel::Fill {
            area: EdgeRect { left: 0, top: 0, right: TOAST_WIDTH, bottom: TOAST_HEIGHT },
            color: ground(toast.kind),
        },
        PaintModel::Text {
            area: EdgeRect { left: 16, top: 12, right: (TOAST_WIDTH - 16) as i32, bottom: 34 },
            text: toast.title,
            color: 0x00ff_ffff,
            wrapped: false,
        },
        PaintModel::Text {
            area: EdgeRect {
                left: 16,
                top: 40,
                right: (TOAST_WIDTH - 16) as i32,
                bottom: (TOAST_HEIGHT - 12) as i32,
            },
            text: toast.message,
            color: 0x00e0_e0e0,
            wrapped: true,
        },
    ]
}

/// A notice is painted in its window: the ground fills the window, and the title and, below it, the
/// message stand inside the window, 16 pixels from its sides; errors have another ground.
pub proof fn law_notice_shows_its_texts(toast: ToastModel)
    ensures
        ({
            let steps = notice_painting(toast);
            &&& steps.len() == 3
            &&& steps[0] matches PaintModel::Fill { area, color }
            &&& area.left == 0 && area.top == 0 && area.right == 360 && area.bottom == 86
            &&& steps[1] matches PaintModel::Text { area: title_area, text: title, wrapped: w1, .. }
            &&& title == toast.title && !w1
            &&& steps[2] matches PaintModel::Text {
                area: message_area,
                text: message,
                wrapped: w2,
                ..
            }
            &&& message == toast.message && w2
            &&& title_area.left == 16 && title_area.right + 16 == area.right
            &&& message_area.left == 16 && message_area.right + 16 == area.right
            &&& area.top < title_area.top < title_area.bottom < message_area.top
                < message_area.bottom < area.bottom
        }),
        ground(ToastKind::Info) != ground(ToastKind::Error),
{
}

/// Tells what is painted in the window of a notice.
pub fn paint_toast(toast: &Toast) -> (r: Vec<PaintStep>)
    ensures
        paint_models(r@) == notice_painting(toast@),
{
    let mut steps: Vec<PaintStep> = Vec::new();
    steps.push(
        PaintStep::Fill {
            area: EdgeRect { left: 0, top: 0, right: TOAST_WIDTH, bottom: TOAST_HEIGHT },
            color: toast_background(toast.kind),
        },
    );
    steps.push(
        PaintStep::Text {
            area: EdgeRect { left: 16, top: 12, right: TOAST_WIDTH - 16, bottom: 34 },
            text: toast.title.clone(),
            color: 0x00ff_ffff,
            wrapped: false,
        },
    );
    steps.push(
        PaintStep::Text {
            area: EdgeRect {
                left: 16,
                top: 40,
                right: TOAST_WIDTH - 16,
                bottom: TOAST_HEIGHT - 12,
            },
            text: toast.message.0.clone(),
            color: 0x00e0_e0e0,
            wrapped: true,
        },
    );
    assert(paint_models(steps@) =~= notice_painting(toast@));
    steps
}

/// The timer on which a notice moves on with the time, and how often it ticks.
pub const TOAST_TIMER_ID: usize = 1;

pub const TOAST_FRAME_MS: u32 = 16;

/// What the window of a notice does for a message. `parameter` is the timer where the message is a
/// tick.
pub fn toast_window_proc(message: u32, parameter: usize) -> (r: WindowStep)
    ensures
        r == if message == WM_NCCREATE {
            WindowStep::Attach
        } else if message == WM_PAINT {
            WindowStep::Paint
        } else if message == WM_TIMER && parameter == TOAST_TIMER_ID {
            WindowStep::Tick
        } else if message == WM_LBUTTONUP {
            WindowStep::Click
        } else if message == WM_CLOSE {
            WindowStep::Destroy
        } else if message == WM_DESTROY {
            WindowStep::Quit
        } else if message == WM_NCDESTROY {
            WindowStep::Release
        } else {
            WindowStep::Default
        },
{
    if message == WM_NCCREATE {
        WindowStep::Attach
    } else if message == WM_PAINT {
        WindowStep::Paint
    } else if message == WM_TIMER && parameter == TOAST_TIMER_ID {
        WindowStep::Tick
    } else if message == WM_LBUTTONUP {
        WindowStep::Click
    } else if message == WM_CLOSE {
        WindowStep::Destroy
    } else if message == WM_DESTROY {
        WindowStep::Quit
    } else if message == WM_NCDESTROY {
        WindowStep::Release
    } else {
        WindowStep::Default
    }
}

/// The window of the notice that is shown, if one is.
#[derive(Debug, Clone, Copy, PartialEq, Eq, Structural)]
pub struct ActiveToast {
    pub window: Option<isize>,
}

impl ActiveToast {
    /// No notice is shown.
    pub fn new() -> (r: Self)
        ensures
            r.window is None,
    {
        ActiveToast { window: None }
    }

    /// Hands out the window that is shown, which is to be closed before another one is.
    pub fn close_active_toast(&mut self) -> (r: Option<isize>)
        ensures
            r == old(self).window,
            final(self).window is None,
    {
        let window = self.window;
        self.window = None;
        window
    }

    /// Remembers the window that is shown.
    pub fn set_active_toast(&mut self, window: isize)
        ensures
            final(self).window == Some(window),
    {
        self.window = Some(window);
    }

    /// Forgets a window that is gone. One that has taken its place is kept.
    pub fn clear_active_toast(&mut self, window: isize)
        ensures
            final(self).window == if old(self).window == Some(window) {
                None
            } else {
                old(self).window
            },
    {
        if let Some(shown) = self.window {
            if shown == window {
                self.window = None;
            }
        }
    }
}

} // verus!
