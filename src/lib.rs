pub mod geometry;
pub mod image;
pub mod pixel;
pub mod renderer;
pub mod vec3;
pub mod vector3;
