//! Brings a project's development container into the state its configuration
//! declares: the image built, the container created and running, a command
//! attached to it.
//!
//! The container runtime is reached only through the [`docker::DockerClient`]
//! capability. Every call made through a [`docker::Session`] is recorded in a
//! ghost log, and the contracts of this crate describe each operation by the
//! exchanges it appends to that log and by the result it derives from the
//! replies.
pub mod cli;
pub mod config;
pub mod docker;
pub mod project;
pub mod text;
