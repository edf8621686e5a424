//! Resolution of container image specifications into image names.

pub mod config;
pub mod decode;
pub mod document;
pub mod errors;
pub mod image;
pub mod paths;
