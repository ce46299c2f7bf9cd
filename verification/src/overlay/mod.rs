//! Windows that stand over the desktop.
pub mod draw;
pub mod paint;
pub mod recording;
pub mod selection;
pub mod shell;
pub mod toast;
