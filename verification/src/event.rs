//! The full event loop: UI-first dispatch, chrome-relative translation,
//! and the engine wake-up channel.

pub mod handler;
pub mod sdl2_servo;
pub mod user;
pub mod window;
