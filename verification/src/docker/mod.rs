//! The container runtime as this crate sees it, and the reconciler on top.
pub mod client;
pub mod container;
pub mod error;
pub mod image;
pub mod laws;
pub mod lifecycle;
pub mod options;
pub mod process;

pub use container::Container;
pub use image::Image;
