pub mod image;
pub mod linear_algebra;
pub mod render;
