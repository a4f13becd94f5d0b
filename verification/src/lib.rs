//! A software renderer and a hand-written Wayland wire protocol client,
//! with the logic of both verified.
pub mod platform;
pub mod rendering;
