//! The command line of `gitb`: global options and subcommands.

use vstd::prelude::*;
use crate::engine::OutputFormat;

verus! {

/// Blazing-fast cross-platform multi-repository git batch tool.
#[derive(Debug)]
pub struct Cli {
    /// Number of parallel jobs (0 = auto-detect CPU count).
    pub jobs: usize,
    /// Dry-run mode: show what would happen without executing.
    pub dry_run: bool,
    /// Skip directories.
    pub skip: Vec<String>,
    /// Max recursion depth for repository discovery (1 = immediate children).
    pub depth: usize,
    /// Output format.
    pub output: OutputFormat,
    /// Force operation (discard uncommitted changes).
    pub force: bool,
    /// Verbose output.
    pub verbose: bool,
    /// Quiet mode (only show errors).
    pub quiet: bool,
    /// Filter repositories by group name.
    pub group: Option<String>,
    /// The subcommand.
    pub command: Command,
}

/// The subcommands.
#[derive(Debug)]
pub enum Command {
    /// Switch to a branch across all repos (supports fuzzy matching).
    Checkout { branch: String },
    /// Create and switch to a new branch across all repos.
    Create { branch: String },
    /// Show multi-repo status overview.
    Status,
    /// Pull from remote across all repos.
    Pull,
    /// Fetch from remote across all repos.
    Fetch,
    /// Push to remote across all repos.
    Push,
    /// Execute an arbitrary git command across all repos.
    Exec { args: Vec<String> },
    /// Branch operations across repos.
    Branch { action: BranchAction },
    /// Commit changes across all repos; `all` stages everything first.
    Commit { message: String, all: bool },
    /// Stash operations across repos.
    Stash { action: Option<StashAction> },
    /// Smart rebase: stash, rebase, unstash across all repos.
    Rebase { branch: Option<String> },
    /// Show diff across all repos.
    Diff,
    /// Show log across all repos; `number` commits per repo.
    Log { number: usize },
    /// Health check: detect ahead/behind/dirty/unpushed repos.
    Doctor,
    /// Manage repo groups.
    Group { action: GroupAction },
    /// Initialize a workspace config interactively.
    Init,
    /// Generate shell completion scripts.
    Completion { shell: String },
}

/// Branch operations.
#[derive(Debug, Clone)]
pub enum BranchAction {
    /// List all branches across repos.
    List,
    /// Delete a branch across all repos (`force`: `git branch -D`;
    /// `remote`: also delete from the remote).
    Delete { name: String, force: bool, remote: bool },
}

/// Stash operations.
#[derive(Debug, Clone, Copy, PartialEq, Eq, Structural)]
pub enum StashAction {
    /// Stash changes (default action).
    Push,
    /// Pop the latest stash.
    Pop,
    /// List stashes.
    List,
    /// Clear all stashes.
    Clear,
}

/// Group operations.
#[derive(Debug, Clone)]
pub enum GroupAction {
    /// Add a new group with the given repositories.
    Add { name: String, repos: Vec<String> },
    /// List all groups.
    List,
    /// Remove a group.
    Remove { name: String },
    /// Show the repositories in a group.
    Show { name: String },
}

} // verus!
