//! Batch operations over many git repositories: the decisions that each
//! command takes, the texts it prints, and the ordering of its results.

pub mod cli;
pub mod engine;
pub mod text;
pub mod commands;
