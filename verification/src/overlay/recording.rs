//! The frame around a region that is being recorded.
use crate::math::{max_int, min_int, narrow_i32, sat_i32, u32_as_i32, wrap_i32};
use crate::overlay::paint::{
    paint_models, PaintModel, PaintStep, WindowStep, WM_CLOSE, WM_DESTROY, WM_NCCREATE,
    WM_NCDESTROY, WM_PAINT, WM_TIMER,
};
use crate::screen::capture::CaptureRegion;
use crate::screen::monitor::EdgeRect;
use crate::text::{
    append_u64, decimal, decimal_value, law_padding_fills_up, padded_decimal, padded_u64,
};
use crate::time::Elapsed;
use vstd::prelude::*;

verus! {

pub const BAR_HEIGHT: i32 = 28;

pub const BORDER_INSET: i32 = 1;

pub const BORDER_THICKNESS: i32 = 2;

/// What the frame tells of a recording.
#[derive(Debug, Clone, Copy, PartialEq, Eq, Structural)]
pub struct RecordingOverlayStatus {
    pub elapsed: Elapsed,
    pub fps: u32,
}

/// A command to the frame, or its absence: nothing is waiting, or nobody is left to send any.
#[derive(Debug, Clone, Copy, PartialEq, Eq, Structural)]
pub enum RecordingOverlayCommand {
    Update(RecordingOverlayStatus),
    Stop,
    Empty,
    Disconnected,
}

/// What is to be done outside after a command.
#[derive(Debug, Clone, Copy, PartialEq, Eq, Structural)]
pub enum RecordingOverlayAction {
    /// Paint again and look for another command.
    Repaint,
    /// Stop looking.
    Idle,
    /// Close the frame.
    Close,
}

/// Takes a command in.
pub fn poll_recording_overlay_command(
    status: &mut RecordingOverlayStatus,
    command: RecordingOverlayCommand,
) -> (r: RecordingOverlayAction)
    ensures
        match command {
            RecordingOverlayCommand::Update(new) => *final(status) == new && r
                == RecordingOverlayAction::Repaint,
            RecordingOverlayCommand::Empty => *final(status) == *old(status) && r
                == RecordingOverlayAction::Idle,
            RecordingOverlayCommand::Stop | RecordingOverlayCommand::Disconnected => *final(status)
                == *old(status) && r == RecordingOverlayAction::Close,
        },
{
    match command {
        RecordingOverlayCommand::Update(new) => {
            *status = new;
            RecordingOverlayAction::Repaint
        },
        RecordingOverlayCommand::Empty => RecordingOverlayAction::Idle,
        RecordingOverlayCommand::Stop => RecordingOverlayAction::Close,
        RecordingOverlayCommand::Disconnected => RecordingOverlayAction::Close,
    }
}

/// What the bar of the frame says: minutes and seconds, and the rate.
pub open spec fn status_text(status: RecordingOverlayStatus) -> Seq<char> {
    padded_decimal(status.elapsed.secs() / 60, 2) + ":"@ + padded_decimal(
        status.elapsed.secs() % 60,
        2,
    ) + " | "@ + decimal(status.fps as nat) + " FPS"@
}

/// The status begins with the minutes and the seconds that have passed, two digits each as long as
/// there are not a hundred minutes, with a colon between them.
pub proof fn law_status_tells_the_time(status: RecordingOverlayStatus)
    requires
        status.elapsed.secs() < 6000,
    ensures
        ({
            let text = status_text(status);
            let seconds = status.elapsed.secs() as int;
            &&& text.len() > 5 && text[2] == ':'
            &&& decimal_value(text.subrange(0, 2)) * 60 + decimal_value(text.subrange(3, 5))
                == seconds
            &&& decimal_value(text.subrange(3, 5)) < 60
            &&& text.skip(5) == " | "@ + decimal(status.fps as nat) + " FPS"@
        }),
{
    let seconds = status.elapsed.secs();
    let text = status_text(status);
    reveal_strlit(":");
    reveal_strlit(" | ");
    law_padding_fills_up(seconds / 60, 2);
    law_padding_fills_up(seconds % 60, 2);
    lemma_two_digits(seconds / 60);
    lemma_two_digits(seconds % 60);
    assert(text.subrange(0, 2) =~= padded_decimal(seconds / 60, 2));
    assert(text.subrange(3, 5) =~= padded_decimal(seconds % 60, 2));
    assert(text.skip(5) =~= " | "@ + decimal(status.fps as nat) + " FPS"@);
}

proof fn lemma_two_digits(value: nat)
    requires
        value < 100,
    ensures
        padded_decimal(value, 2).len() == 2,
{
    reveal_with_fuel(decimal, 2);
}

/// Writes what the bar of the frame says.
pub fn overlay_text(status: RecordingOverlayStatus) -> (r: String)
    ensures
        r@ == status_text(status),
{
    let total_seconds = status.elapsed.as_secs();
    let minutes: u64 = (total_seconds / 60) as u64;
    let seconds: u64 = (total_seconds % 60) as u64;
    let mut text = padded_u64(minutes, 2);
    text.append(":");
    text.append(padded_u64(seconds, 2).as_str());
    text.append(" | ");
    append_u64(&mut text, status.fps as u64);
    text.append(" FPS");
    text
}

/// The parts of the frame: the bar at its top, the four sides, the dotted line and the text.
#[derive(Debug, Clone, Copy, PartialEq, Eq, Structural)]
pub struct RecordingOverlayLayout {
    pub bar: EdgeRect,
    pub top: EdgeRect,
    pub bottom: EdgeRect,
    pub left: EdgeRect,
    pub right: EdgeRect,
    pub dotted: EdgeRect,
    pub text: EdgeRect,
}

/// The parts of the frame around a region of the given size.
pub open spec fn frame_parts(width: int, height: int) -> RecordingOverlayLayout {
    let border = BORDER_THICKNESS as int;
    let far_top = max_int(height - border, 0) as i32;
    let far_left = max_int(width - border, 0) as i32;
    let w = width as i32;
    let h = height as i32;
    let b = border as i32;
    RecordingOverlayLayout {
        bar: EdgeRect {
            left: 0,
            top: 0,
            right: w,
            bottom: max_int(min_int(BAR_HEIGHT as int, height), border) as i32,
        },
        top: EdgeRect { left: 0, top: 0, right: w, bottom: b },
        bottom: EdgeRect { left: 0, top: far_top, right: w, bottom: h },
        left: EdgeRect { left: 0, top: 0, right: b, bottom: h },
        right: EdgeRect { left: far_left, top: 0, right: w, bottom: h },
        dotted: EdgeRect {
            left: BORDER_INSET,
            top: BORDER_INSET,
            right: sat_i32(width - BORDER_INSET) as i32,
            bottom: sat_i32(height - BORDER_INSET) as i32,
        },
        text: EdgeRect {
            left: 10,
            top: 5,
            right: sat_i32(width - 10) as i32,
            bottom: BAR_HEIGHT,
        },
    }
}

/// The frame is drawn along the edges of the region: each strip lies in the region and reaches along
/// one of its edges, two pixels deep, the bar lies along the top, and the dotted line runs one pixel
/// inside the edges.
pub proof fn law_frame_follows_the_edges(width: int, height: int)
    requires
        28 <= width <= i32::MAX,
        28 <= height <= i32::MAX,
    ensures
        ({
            let parts = frame_parts(width, height);
            &&& parts.top.left == 0 && parts.top.right == width && parts.top.top == 0
                && parts.top.bottom == 2
            &&& parts.bottom.left == 0 && parts.bottom.right == width && parts.bottom.bottom
                == height && parts.bottom.bottom - parts.bottom.top == 2
            &&& parts.left.top == 0 && parts.left.bottom == height && parts.left.left == 0
                && parts.left.right == 2
            &&& parts.right.top == 0 && parts.right.bottom == height && parts.right.right == width
                && parts.right.right - parts.right.left == 2
            &&& parts.bar.left == 0 && parts.bar.right == width && parts.bar.top == 0
                && parts.bar.bottom == 28
            &&& parts.dotted.left == 1 && parts.dotted.top == 1 && parts.dotted.right + 1 == width
                && parts.dotted.bottom + 1 == height
            &&& parts.text.bottom <= parts.bar.bottom && parts.text.left == 10
                && parts.text.right + 10 == width && 0 <= parts.text.top
        }),
{
}

/// Lays out the frame around a region.
pub fn recording_overlay_layout(region: CaptureRegion) -> (r: RecordingOverlayLayout)
    ensures
        r == frame_parts(wrap_i32(region.width), wrap_i32(region.height)),
{
    let width = u32_as_i32(region.width);
    let height = u32_as_i32(region.height);
    let border = BORDER_THICKNESS;
    let bar_height = BAR_HEIGHT.min(height).max(border);
    let far_top = narrow_i32(height as i64 - border as i64).max(0);
    let far_left = narrow_i32(width as i64 - border as i64).max(0);
    RecordingOverlayLayout {
        bar: EdgeRect { left: 0, top: 0, right: width, bottom: bar_height },
        top: EdgeRect { left: 0, top: 0, right: width, bottom: border },
        bottom: EdgeRect { left: 0, top: far_top, right: width, bottom: height },
        left: EdgeRect { left: 0, top: 0, right: border, bottom: height },
        right: EdgeRect { left: far_left, top: 0, right: width, bottom: height },
        dotted: EdgeRect {
            left: BORDER_INSET,
            top: BORDER_INSET,
            right: narrow_i32(width as i64 - BORDER_INSET as i64),
            bottom: narrow_i32(height as i64 - BORDER_INSET as i64),
        },
        text: EdgeRect {
            left: 10,
            top: 5,
            right: narrow_i32(width as i64 - 10),
            bottom: BAR_HEIGHT,
        },
    }
}

/// What is painted in the frame, in order: the dark bar and sides, the red dotted line and the white
/// text.
pub open spec fn frame_painting(region: CaptureRegion, status: RecordingOverlayStatus) -> Seq<
    PaintModel,
> {
    let parts = frame_parts(wrap_i32(region.width), wrap_i32(region.height));
    seq![
        PaintModel::Fill { area: parts.bar, color: 0x0030_2020 },
        PaintModel::Fill { area: parts.top, color: 0x0030_2020 },
        PaintModel::Fill { area: parts.bottom, color: 0x0030_2020 },
        PaintModel::Fill { area: parts.left, color: 0x0030_2020 },
        PaintModel::Fill { area: parts.right, color: 0x0030_2020 },
        PaintModel::Dots { area: parts.dotted, thickness: BORDER_THICKNESS, color: 0x0000_00ff },
        PaintModel::Text {
            area: parts.text,
            text: status_text(status),
            color: 0x00ff_ffff,
            wrapped: false,
        },
    ]
}

/// The frame of a recording is painted with the strips along the edges of the region, the dotted
/// line over them, and on the bar the status.
pub proof fn law_frame_shows_the_status(region: CaptureRegion, status: RecordingOverlayStatus)
    ensures
        ({
            let steps = frame_painting(region, status);
            let parts = frame_parts(wrap_i32(region.width), wrap_i32(region.height));
            &&& steps.len() == 7
            &&& forall|i: int| 0 <= i < 5 ==> (#[trigger] steps[i]) is Fill
            &&& steps[0]->Fill_area == parts.bar && steps[1]->Fill_area == parts.top
            &&& steps[2]->Fill_area == parts.bottom && steps[3]->Fill_area == parts.left
            &&& steps[4]->Fill_area == parts.right
            &&& steps[5] matches PaintModel::Dots { area: dotted, thickness, color }
            &&& dotted == parts.dotted && thickness == 2 && color == 0xff
            &&& steps[6] matches PaintModel::Text { area, text, .. }
            &&& area == parts.text && text == status_text(status)
        }),
{
}

/// Tells what is painted in the frame.
pub fn paint_recording_overlay(region: CaptureRegion, status: RecordingOverlayStatus) -> (r: Vec<
    PaintStep,
>)
    ensures
        paint_models(r@) == frame_painting(region, status),
{
    let parts = recording_overlay_layout(region);
    let mut steps: Vec<PaintStep> = Vec::new();
    steps.push(PaintStep::Fill { area: parts.bar, color: 0x0030_2020 });
    steps.push(PaintStep::Fill { area: parts.top, color: 0x0030_2020 });
    steps.push(PaintStep::Fill { area: parts.bottom, color: 0x0030_2020 });
    steps.push(PaintStep::Fill { area: parts.left, color: 0x0030_2020 });
    steps.push(PaintStep::Fill { area: parts.right, color: 0x0030_2020 });
    steps.push(
        PaintStep::Dots { area: parts.dotted, thickness: BORDER_THICKNESS, color: 0x0000_00ff },
    );
    steps.push(
        PaintStep::Text {
            area: parts.text,
            text: overlay_text(status),
            color: 0x00ff_ffff,
            wrapped: false,
        },
    );
    assert(paint_models(steps@) =~= frame_painting(region, status));
    steps
}

/// The timer on which the frame looks for commands, and how often it ticks.
pub const COMMAND_TIMER_ID: usize = 1;

pub const COMMAND_TIMER_MS: u32 = 50;

/// The timer on which the frame moves on with the time, and how often it ticks.
pub const CLOCK_TIMER_ID: usize = 2;

pub const CLOCK_TIMER_MS: u32 = 250;

/// What the frame does for a message. `parameter` is the timer where the message is a tick.
pub fn recording_overlay_window_proc(message: u32, parameter: usize) -> (r: WindowStep)
    ensures
        r == if message == WM_NCCREATE {
            WindowStep::Attach
        } else if message == WM_PAINT {
            WindowStep::Paint
        } else if message == WM_TIMER && parameter == COMMAND_TIMER_ID {
            WindowStep::Poll
        } else if message == WM_TIMER && parameter == CLOCK_TIMER_ID {
            WindowStep::Tick
        } else if message == WM_TIMER {
            WindowStep::Ignore
        } else if message == WM_CLOSE {
            WindowStep::Destroy
        } else if message == WM_DESTROY {
            WindowStep::Quit
        } else if message == WM_NCDESTROY {
            WindowStep::Release
        } else {
            WindowStep::Default
        },
{
    if message == WM_NCCREATE {
        WindowStep::Attach
    } else if message == WM_PAINT {
        WindowStep::Paint
    } else if message == WM_TIMER {
        if parameter == COMMAND_TIMER_ID {
            WindowStep::Poll
        } else if parameter == CLOCK_TIMER_ID {
            WindowStep::Tick
        } else {
            WindowStep::Ignore
        }
    } else if message == WM_CLOSE {
        WindowStep::Destroy
    } else if message == WM_DESTROY {
        WindowStep::Quit
    } else if message == WM_NCDESTROY {
        WindowStep::Release
    } else {
        WindowStep::Default
    }
}

/// Moves the frame on to the time that has passed.
pub fn update_recording_overlay_clock(status: &mut RecordingOverlayStatus, elapsed: Elapsed)
    ensures
        *final(status) == (RecordingOverlayStatus { elapsed, fps: old(status).fps }),
{
    status.elapsed = elapsed;
}

} // verus!
