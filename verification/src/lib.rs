//! A small 3D overlay core: a perspective camera, shape tessellation into
//! 2D screen primitives, and mouse-gesture camera updates, all in
//! fixed-point arithmetic so that every step of the pipeline is verified.
//! A GUI toolkit supplies the canvas and the pointer snapshot; this crate
//! supplies everything between them.

pub mod camera;
pub mod fixed;
pub mod gestures;
pub mod mat4;
pub mod screen;
pub mod shapes;
pub mod trig;
pub mod vec3;
pub mod viewport;
