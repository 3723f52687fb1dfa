//! The operations that a deployment rests on: the filesystem and the package manager.

pub mod apt;
pub mod file;
