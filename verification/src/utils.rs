pub mod color;
pub mod scalar;
pub mod vec3;
