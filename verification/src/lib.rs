//! Turns an ordered stack of equally-sized 8-bit grayscale images into one
//! compressed 3-D volume: a fixed metadata frame (magic, length, JSON shape
//! record) followed by the column-major voxel bytes as a zstd stream.

pub mod discovery;
pub mod encoder;
pub mod errors;
pub mod metadata;
pub mod pathsort;
pub mod transpose;
