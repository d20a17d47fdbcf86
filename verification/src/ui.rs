//! The screen side: styles, pixels, the screen buffer and text layout.

pub mod element;
pub mod error;
pub mod keyboard;
pub mod medium;
pub mod pixel;
pub mod pixel_sequence;
pub mod screen;
pub mod screen_buffer;
pub mod size;
pub mod style;
pub mod style_code;
