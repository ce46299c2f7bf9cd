//! Monitors, windows and captured images in the coordinates of the virtual desktop.
pub mod capture;
pub mod monitor;
pub mod windows;
