//! What is painted in a window, step by step, and the messages that a window gets.
use crate::screen::monitor::EdgeRect;
use vstd::prelude::*;

verus! {

/// A step of painting. Colours hold their blue part first.
#[derive(Debug, Clone, PartialEq, Eq)]
pub enum PaintStep {
    /// Fill an area.
    Fill { area: EdgeRect, color: u32 },
    /// Draw a dotted line around an area.
    Dots { area: EdgeRect, thickness: i32, color: u32 },
    /// Write a text, in one line or wrapped at the end of the area.
    Text { area: EdgeRect, text: String, color: u32, wrapped: bool },
}

/// A step of painting as a mathematical value.
pub enum PaintModel {
    Fill { area: EdgeRect, color: u32 },
    Dots { area: EdgeRect, thickness: i32, color: u32 },
    Text { area: EdgeRect, text: Seq<char>, color: u32, wrapped: bool },
}

impl View for PaintStep {
    type V = PaintModel;

    open spec fn view(&self) -> PaintModel {
        match *self {
            PaintStep::Fill { area, color } => PaintModel::Fill { area, color },
            PaintStep::Dots { area, thickness, color } => PaintModel::Dots {
                area,
                thickness,
                color,
            },
            PaintStep::Text { area, text, color, wrapped } => PaintModel::Text {
                area,
                text: text@,
                color,
                wrapped,
            },
        }
    }
}

/// The steps of a painting.
pub open spec fn paint_models(steps: Seq<PaintStep>) -> Seq<PaintModel> {
    Seq::new(steps.len(), |i: int| steps[i]@)
}

pub const WM_DESTROY: u32 = 0x0002;

pub const WM_PAINT: u32 = 0x000f;

pub const WM_CLOSE: u32 = 0x0010;

pub const WM_NCCREATE: u32 = 0x0081;

pub const WM_NCDESTROY: u32 = 0x0082;

pub const WM_TIMER: u32 = 0x0113;

pub const WM_LBUTTONUP: u32 = 0x0202;

/// What a window does for a message.
#[derive(Debug, Clone, Copy, PartialEq, Eq, Structural)]
pub enum WindowStep {
    /// Take over the state that it was created with.
    Attach,
    /// Paint.
    Paint,
    /// Look for commands.
    Poll,
    /// Move on with the time.
    Tick,
    /// Do what a click does.
    Click,
    /// Nothing.
    Ignore,
    /// Destroy itself.
    Destroy,
    /// End its thread.
    Quit,
    /// Give its state back, and do what windows do.
    Release,
    /// Do what windows do.
    Default,
}

} // verus!
