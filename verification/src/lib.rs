//! The core of a small real-time renderer: what is drawn, in which order, and
//! how the keyboard moves the camera.
//!
//! Windowing, the graphics device and floating-point matrices stay with the
//! caller. This crate decides and checks; the caller performs. Lengths that a
//! device would compute in floating point are kept here as integers in
//! thousandths of a world unit, so that every step is exact.

pub mod asset;
pub mod camera;
pub mod frame;
pub mod mesh;
pub mod notation;
pub mod pipeline;
pub mod scene;
pub mod texture;
pub mod vertex;
