//! A ray tracer's verified parts: the pixel buffer, the image file format, the steps
//! of a ray's path under its bounce budget, the sampling settings of a camera, and the
//! text of points and of command-line option descriptions.
pub mod args;
pub mod coords;
pub mod demo;
pub mod image;
pub mod path;
pub mod ppm;
pub mod sampling;
pub mod text;
