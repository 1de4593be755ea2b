pub mod alignedbox;
pub mod sphere;
pub mod texture;
pub mod triangle;
