pub mod binary64;
pub mod coord3;
pub mod image;
pub mod ppm;
pub mod ray;
pub mod vec3;
