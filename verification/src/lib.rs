//! Verified core of the VMNL multimedia library.
pub mod error;
pub mod text;
pub mod common;
pub mod color;
pub mod shape;
pub mod raw;
pub mod mesh;
pub mod resources;
pub mod input;
pub mod device;
pub mod audio;
