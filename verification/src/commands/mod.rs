//! The commands that run git across repositories.

pub mod exec;
pub mod sync;
pub mod pull_laws;
