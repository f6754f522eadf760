//! A widget and text layout core for menu overlays.
//!
//! Lengths are whole numbers of layout units, a thousand to the pixel, and
//! factors are thousandths. The host shapes text and talks to the GPU; this
//! crate decides what is laid out where, in which state, and in which order
//! it is drawn.

pub mod units;
pub mod color;
pub mod keys;
pub mod text;
pub mod rectangle;
pub mod icon;
pub mod button_types;
pub mod button_styles;
pub mod button;
pub mod button_manager;
pub mod pause_menu;
pub mod upgrade_menu;
pub mod game;
pub mod frame;
