//! Coordination core of a desktop browser shell.
//!
//! The shell hosts an embedded rendering engine inside a native window and
//! overlays a toolbar drawn by an immediate-mode UI. This crate holds the
//! event-driven coordination layer: translating native input records into
//! engine-level input events, scheduling repaints, and driving the small
//! application state machine. The native queue, the engine and the UI
//! toolkit themselves are external collaborators; the driver that owns them
//! hands their plain outcomes to this crate and performs the actions it
//! returns.

pub mod app;
pub mod browser;
pub mod config;
pub mod dom;
pub mod egui_sdl2;
pub mod engine;
pub mod event;
pub mod input;
pub mod keys;
pub mod native;
pub mod repaint;
pub mod text;
pub mod ui;
