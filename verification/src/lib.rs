//! A model of a small GPU demo: a window whose event loop clears the screen
//! and draws one triangle, beside a control panel of three sliders that pick
//! the panel's background color.
//!
//! The decisions the demo makes — how slider input changes the color, what the
//! control panel shows, how the surface is configured and resized, what one
//! redraw submits — are plain functions on plain values and are verified here.
//! The window system and the GPU themselves are driven by an unverified shell
//! that calls into this crate for every decision.

pub mod color;
pub mod controls;
pub mod gpu;
pub mod machine;
pub mod text;
pub mod texture;
