//! Shared types: repositories, results of git commands, and global options.

pub mod executor;

use vstd::prelude::*;

verus! {

/// `PathBuf` is carried through the library without being read.
#[verifier::external_type_specification]
#[verifier::external_body]
pub struct ExPathBuf(std::path::PathBuf);

/// `PathBuf::clone` (std) gives a copy of the path. Nothing is claimed of
/// the copy: the library never reads a path.
pub assume_specification[ <std::path::PathBuf as Clone>::clone ](p: &std::path::PathBuf) -> std::path::PathBuf;

/// A discovered git repository.
#[derive(Debug, Clone)]
pub struct Repo {
    /// Absolute path to the repository directory.
    pub path: std::path::PathBuf,
    /// Directory name, used for display.
    pub name: String,
}

/// What a `GitResult` denotes.
pub struct GitResultView {
    pub repo_name: Seq<char>,
    pub success: bool,
    pub exit_code: i32,
    pub stdout: Seq<char>,
    pub stderr: Seq<char>,
    pub message: Seq<char>,
}

/// Result of executing a git command on a repository.
#[derive(Debug, Clone)]
pub struct GitResult {
    pub repo_name: String,
    pub success: bool,
    pub exit_code: i32,
    pub stdout: String,
    pub stderr: String,
    /// Human-readable status message for display.
    pub message: String,
}

impl View for GitResult {
    type V = GitResultView;

    open spec fn view(&self) -> GitResultView {
        GitResultView {
            repo_name: self.repo_name@,
            success: self.success,
            exit_code: self.exit_code,
            stdout: self.stdout@,
            stderr: self.stderr@,
            message: self.message@,
        }
    }
}

/// The successful result with empty output that `GitResult::ok` builds.
pub open spec fn ok_view(repo_name: Seq<char>, message: Seq<char>) -> GitResultView {
    GitResultView {
        repo_name,
        success: true,
        exit_code: 0,
        stdout: Seq::empty(),
        stderr: Seq::empty(),
        message,
    }
}

/// The failed result with empty output that `GitResult::fail` builds.
pub open spec fn fail_view(repo_name: Seq<char>, message: Seq<char>) -> GitResultView {
    GitResultView {
        repo_name,
        success: false,
        exit_code: 1,
        stdout: Seq::empty(),
        stderr: Seq::empty(),
        message,
    }
}

/// `ok` builds a success with exit code 0, no output, and the given name and
/// message; `fail` builds a failure with exit code 1, no output, and the
/// given name and message.
pub proof fn law_result_constructors(repo_name: Seq<char>, message: Seq<char>)
    ensures
        ok_view(repo_name, message).success,
        ok_view(repo_name, message).exit_code == 0,
        !fail_view(repo_name, message).success,
        fail_view(repo_name, message).exit_code == 1,
        ok_view(repo_name, message).repo_name == repo_name && fail_view(repo_name, message).repo_name == repo_name,
        ok_view(repo_name, message).message == message && fail_view(repo_name, message).message == message,
        ok_view(repo_name, message).stdout.len() == 0 && ok_view(repo_name, message).stderr.len() == 0,
        fail_view(repo_name, message).stdout.len() == 0 && fail_view(repo_name, message).stderr.len() == 0,
{
}

impl GitResult {
    /// A successful result with exit code 0 and no output.
    pub fn ok(repo_name: &str, message: &str) -> (r: GitResult)
        ensures
            r@ == ok_view(repo_name@, message@),
    {
        GitResult {
            repo_name: repo_name.to_owned(),
            success: true,
            exit_code: 0,
            stdout: String::new(),
            stderr: String::new(),
            message: message.to_owned(),
        }
    }

    /// A failed result with exit code 1 and no output.
    pub fn fail(repo_name: &str, message: &str) -> (r: GitResult)
        ensures
            r@ == fail_view(repo_name@, message@),
    {
        GitResult {
            repo_name: repo_name.to_owned(),
            success: false,
            exit_code: 1,
            stdout: String::new(),
            stderr: String::new(),
            message: message.to_owned(),
        }
    }
}

/// Output format options.
#[derive(Debug, Clone, Copy, PartialEq, Eq, Structural)]
pub enum OutputFormat {
    Table,
    Json,
    Quiet,
}

/// Global options shared across all commands.
#[derive(Debug, Clone)]
pub struct GlobalOpts {
    /// Parallel job count (0 = auto = number of CPUs).
    pub jobs: usize,
    /// Dry-run mode: report what would happen without executing.
    pub dry_run: bool,
    /// Directories to skip.
    pub skip: Vec<String>,
    /// Max recursion depth for repository discovery
    /// (0 = current dir only, 1 = one level down, etc.).
    pub depth: usize,
    /// Output format.
    pub output: OutputFormat,
    /// Verbose logging.
    pub verbose: bool,
    /// Quiet mode (errors only).
    pub quiet: bool,
    /// Force flag (discard changes).
    pub force: bool,
}

impl Default for GlobalOpts {
    fn default() -> (opts: GlobalOpts)
        ensures
            opts.jobs == 0,
            !opts.dry_run,
            opts.skip@.len() == 0,
            opts.depth == 1,
            opts.output == OutputFormat::Table,
            !opts.verbose,
            !opts.quiet,
            !opts.force,
    {
        GlobalOpts {
            jobs: 0,
            dry_run: false,
            skip: Vec::new(),
            depth: 1,
            output: OutputFormat::Table,
            verbose: false,
            quiet: false,
            force: false,
        }
    }
}

} // verus!
