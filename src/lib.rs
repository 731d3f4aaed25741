//! Flow-field artwork core, in fixed-point arithmetic.
//!
//! Every real quantity is held as an integer count of millionths: the
//! constant `fixed::SCALE` stands for `1.0`.

pub mod anchors;
pub mod canvas;
pub mod color;
pub mod fixed;
pub mod laws;
pub mod particle;
pub mod render;
