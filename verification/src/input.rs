//! The reduced input loop: raw translation of native records into commands,
//! with no UI layer in front.

pub mod handler;
pub mod keyboard;
pub mod mouse;
pub mod window;
