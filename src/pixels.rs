pub mod image;
pub mod ppm;
pub mod decode;
pub mod texture;
