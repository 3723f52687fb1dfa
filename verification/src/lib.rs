//! Declarative deployment of a shell environment: the verified core.

pub mod deploy;
pub mod error;
pub mod ident;
pub mod op;
pub mod path;
pub mod program;
pub mod text;
pub mod types;
