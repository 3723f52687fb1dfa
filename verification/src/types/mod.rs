//! The data that a deployment is described with.

pub mod config;
