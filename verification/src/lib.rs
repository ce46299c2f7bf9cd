//! The logic of RSnip, a screen capture tool: selection geometry, captured images, annotations
//! and their rendering, recording, OCR results, clipboard payloads, hotkeys and commands.
pub mod app;
pub mod canvas;
pub mod clipboard;
pub mod config;
pub mod daemon;
pub mod editor;
pub mod errors;
pub mod font;
pub mod hotkeys;
pub mod images;
pub mod ipc;
pub mod math;
pub mod ocr;
pub mod overlay;
pub mod paths;
pub mod pixels;
pub mod recording;
pub mod screen;
pub mod single_instance;
pub mod text;
pub mod time;
