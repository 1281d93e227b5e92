//! The logic of a physically based rendering demo: what its arguments mean,
//! which resources each render pass is bound to, how the window's events move
//! the scene, and in which order a frame is drawn.
//!
//! Everything that needs a graphics device or floating-point arithmetic is left
//! to the program around this library.

pub mod app;
pub mod args;
pub mod event;
pub mod frame;
pub mod laws;
pub mod lights;
pub mod number;
pub mod pipeline;
pub mod settings;
pub mod texture;
