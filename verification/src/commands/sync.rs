//! `gitb pull`, `gitb fetch`, `gitb push`: batch sync operations.
//!
//! Each command is a sequence of decisions taken per repository between
//! outside steps (asking git about the working tree, running git). The
//! functions here take the outcome of the last outside step and say what to
//! do next.

use vstd::prelude::*;
use crate::engine::{GitResult, GitResultView, GlobalOpts, Repo, ok_view, fail_view};
use crate::engine::executor::{GitStep, git_on_repo_step, opt_view, str_texts, exec_git_on_repo, dry_run_view};
use crate::text::{last_line, last_line_of, texts};

verus! {

/// Title of the pull command's header.
pub const PULL_TITLE: &'static str = "Pulling";
/// Title of the fetch command's header.
pub const FETCH_TITLE: &'static str = "Fetching";
/// Title of the push command's header.
pub const PUSH_TITLE: &'static str = "Pushing";
/// Label of the pull command's progress bar.
pub const PULL_LABEL: &'static str = "Pull";
/// Label of the fetch command's progress bar.
pub const FETCH_LABEL: &'static str = "Fetch";
/// Label of the push command's progress bar.
pub const PUSH_LABEL: &'static str = "Push";

/// Git arguments of `fetch`.
pub open spec fn fetch_args() -> Seq<Seq<char>> {
    seq!["fetch"@, "--all"@, "--prune"@]
}

/// Git arguments of `push`.
pub open spec fn push_args() -> Seq<Seq<char>> {
    seq!["push"@]
}

/// Fetches from all remotes, pruning deleted branches; reports "Fetched".
pub fn run_fetch(repo: &Repo, opts: &GlobalOpts, outcome: Option<GitResult>) -> (step: GitStep)
    ensures
        step@ == git_on_repo_step(
            repo.name@,
            opts.dry_run,
            fetch_args(),
            "Fetched"@,
            "git fetch --all --prune"@,
            opt_view(outcome),
        ),
{
    let args: [&str; 3] = ["fetch", "--all", "--prune"];
    assert(str_texts(args@) =~= fetch_args());
    exec_git_on_repo(repo, opts, &args, "Fetched", "git fetch --all --prune", outcome)
}

/// Pushes to the remote; reports "Pushed".
pub fn run_push(repo: &Repo, opts: &GlobalOpts, outcome: Option<GitResult>) -> (step: GitStep)
    ensures
        step@ == git_on_repo_step(repo.name@, opts.dry_run, push_args(), "Pushed"@, "git push"@, opt_view(outcome)),
{
    let args: [&str; 1] = ["push"];
    assert(str_texts(args@) =~= push_args());
    exec_git_on_repo(repo, opts, &args, "Pushed", "git push", outcome)
}

/// A git command that pulling may run.
#[derive(Debug, Clone, Copy, PartialEq, Eq, Structural)]
pub enum GitOp {
    /// `git checkout .`: discard changes to tracked files.
    DiscardChanges,
    /// `git clean -fd`: remove untracked files and directories.
    RemoveUntracked,
    /// `git stash push -u`: set all changes aside, untracked files included.
    Stash,
    /// `git pull`.
    Pull,
    /// `git stash pop`: bring the stashed changes back.
    RestoreStash,
}

/// The git arguments of each command.
pub open spec fn op_args(op: GitOp) -> Seq<Seq<char>> {
    match op {
        GitOp::DiscardChanges => seq!["checkout"@, "."@],
        GitOp::RemoveUntracked => seq!["clean"@, "-fd"@],
        GitOp::Stash => seq!["stash"@, "push"@, "-u"@],
        GitOp::Pull => seq!["pull"@],
        GitOp::RestoreStash => seq!["stash"@, "pop"@],
    }
}

/// The git command lines that fetch, push and pull run: `fetch --all
/// --prune`, `push`, `checkout .`, `clean -fd`, `stash push -u` (untracked
/// files included), `pull`, `stash pop`.
pub proof fn law_git_commands()
    ensures
        fetch_args() == seq!["fetch"@, "--all"@, "--prune"@],
        push_args() == seq!["push"@],
        op_args(GitOp::DiscardChanges) == seq!["checkout"@, "."@],
        op_args(GitOp::RemoveUntracked) == seq!["clean"@, "-fd"@],
        op_args(GitOp::Stash) == seq!["stash"@, "push"@, "-u"@],
        op_args(GitOp::Pull) == seq!["pull"@],
        op_args(GitOp::RestoreStash) == seq!["stash"@, "pop"@],
{
}

impl GitOp {
    /// The arguments to pass to git.
    pub fn args(&self) -> (v: Vec<String>)
        ensures
            texts(v@) == op_args(*self),
    {
        let mut v: Vec<String> = Vec::new();
        match self {
            GitOp::DiscardChanges => {
                v.push(String::from_str("checkout"));
                v.push(String::from_str("."));
            },
            GitOp::RemoveUntracked => {
                v.push(String::from_str("clean"));
                v.push(String::from_str("-fd"));
            },
            GitOp::Stash => {
                v.push(String::from_str("stash"));
                v.push(String::from_str("push"));
                v.push(String::from_str("-u"));
            },
            GitOp::Pull => {
                v.push(String::from_str("pull"));
            },
            GitOp::RestoreStash => {
                v.push(String::from_str("stash"));
                v.push(String::from_str("pop"));
            },
        }
        assert(texts(v@) =~= op_args(*self));
        v
    }
}

/// Where pulling one repository stands.
pub enum PullState {
    /// Nothing has happened yet.
    Start,
    /// Waiting to learn whether tracked files have changes.
    CheckingChanges,
    /// Waiting to learn whether there are untracked files.
    CheckingUntracked,
    /// `checkout .` is running.
    Discarding,
    /// `clean -fd` is running.
    Removing,
    /// `stash push -u` is running.
    Stashing,
    /// `pull` is running; `stashed` tells whether changes were set aside.
    Pulling { stashed: bool },
    /// `stash pop` is running after a successful pull.
    Unstashing,
    /// `stash pop` is running after a failed pull; `report` is the result to give.
    RestoringAfterFailure { report: GitResult },
    /// The result has been given.
    Done,
}

/// What a `PullState` denotes.
pub enum PullStateView {
    Start,
    CheckingChanges,
    CheckingUntracked,
    Discarding,
    Removing,
    Stashing,
    Pulling { stashed: bool },
    Unstashing,
    RestoringAfterFailure { report: GitResultView },
    Done,
}

impl View for PullState {
    type V = PullStateView;

    open spec fn view(&self) -> PullStateView {
        match self {
            PullState::Start => PullStateView::Start,
            PullState::CheckingChanges => PullStateView::CheckingChanges,
            PullState::CheckingUntracked => PullStateView::CheckingUntracked,
            PullState::Discarding => PullStateView::Discarding,
            PullState::Removing => PullStateView::Removing,
            PullState::Stashing => PullStateView::Stashing,
            PullState::Pulling { stashed } => PullStateView::Pulling { stashed: *stashed },
            PullState::Unstashing => PullStateView::Unstashing,
            PullState::RestoringAfterFailure { report } => PullStateView::RestoringAfterFailure { report: report@ },
            PullState::Done => PullStateView::Done,
        }
    }
}

impl PullState {
    /// Whether `event` is the kind of event this state waits for.
    pub fn accepts(&self, event: &PullEvent) -> (r: bool)
        ensures
            r == pull_event_fits(self@, event@),
    {
        match self {
            PullState::Start => matches!(event, PullEvent::Begin),
            PullState::CheckingChanges | PullState::CheckingUntracked => matches!(event, PullEvent::Answer(_)),
            PullState::Done => false,
            _ => matches!(event, PullEvent::Ran(_)),
        }
    }
}

/// What happened outside since the last step.
pub enum PullEvent {
    /// Pulling this repository begins.
    Begin,
    /// The answer to the question asked (changes, or untracked files).
    Answer(bool),
    /// The result of the git command that ran.
    Ran(GitResult),
}

/// What a `PullEvent` denotes.
pub enum PullEventView {
    Begin,
    Answer(bool),
    Ran(GitResultView),
}

impl View for PullEvent {
    type V = PullEventView;

    open spec fn view(&self) -> PullEventView {
        match self {
            PullEvent::Begin => PullEventView::Begin,
            PullEvent::Answer(b) => PullEventView::Answer(*b),
            PullEvent::Ran(r) => PullEventView::Ran(r@),
        }
    }
}

/// What to do next.
pub enum PullAction {
    /// Ask whether tracked files have changes.
    CheckChanges,
    /// Ask whether there are untracked files.
    CheckUntracked,
    /// Run a git command.
    Run(GitOp),
    /// Report this result; pulling this repository is over.
    Finish(GitResult),
}

/// What a `PullAction` denotes.
pub enum PullActionView {
    CheckChanges,
    CheckUntracked,
    Run(GitOp),
    Finish(GitResultView),
}

impl View for PullAction {
    type V = PullActionView;

    open spec fn view(&self) -> PullActionView {
        match self {
            PullAction::CheckChanges => PullActionView::CheckChanges,
            PullAction::CheckUntracked => PullActionView::CheckUntracked,
            PullAction::Run(op) => PullActionView::Run(*op),
            PullAction::Finish(r) => PullActionView::Finish(r@),
        }
    }
}

/// Whether `event` is the kind of event that `state` waits for.
pub open spec fn pull_event_fits(state: PullStateView, event: PullEventView) -> bool {
    match state {
        PullStateView::Start => event is Begin,
        PullStateView::CheckingChanges | PullStateView::CheckingUntracked => event is Answer,
        PullStateView::Done => false,
        _ => event is Ran,
    }
}

/// The message of a failed pull: its last line of error output, and whether
/// stashed changes were put back.
pub open spec fn pull_failed_message(stashed: bool, stderr: Seq<char>) -> Seq<char> {
    "Pull failed"@ + (if stashed { " (stash restored)"@ } else { Seq::empty() }) + ": "@ + last_line_of(stderr)
}

/// The step taken once the working tree is known to have changes: with
/// `force` they are discarded, otherwise they are stashed.
pub open spec fn on_changes(force: bool) -> (PullStateView, PullActionView) {
    if force {
        (PullStateView::Discarding, PullActionView::Run(GitOp::DiscardChanges))
    } else {
        (PullStateView::Stashing, PullActionView::Run(GitOp::Stash))
    }
}

/// One step of pulling a repository named `name`.
pub open spec fn pull_step(
    name: Seq<char>,
    dry_run: bool,
    force: bool,
    state: PullStateView,
    event: PullEventView,
) -> (PullStateView, PullActionView) {
    match (state, event) {
        (PullStateView::Start, _) => if dry_run {
            (PullStateView::Done, PullActionView::Finish(dry_run_view(name, "Would pull in "@ + name)))
        } else {
            (PullStateView::CheckingChanges, PullActionView::CheckChanges)
        },
        (PullStateView::CheckingChanges, PullEventView::Answer(changed)) => if changed {
            on_changes(force)
        } else {
            (PullStateView::CheckingUntracked, PullActionView::CheckUntracked)
        },
        (PullStateView::CheckingUntracked, PullEventView::Answer(untracked)) => if untracked {
            on_changes(force)
        } else {
            (PullStateView::Pulling { stashed: false }, PullActionView::Run(GitOp::Pull))
        },
        (PullStateView::Discarding, _) => (PullStateView::Removing, PullActionView::Run(GitOp::RemoveUntracked)),
        (PullStateView::Removing, _) => (PullStateView::Pulling { stashed: false }, PullActionView::Run(GitOp::Pull)),
        (PullStateView::Stashing, PullEventView::Ran(r)) => if r.success {
            (PullStateView::Pulling { stashed: true }, PullActionView::Run(GitOp::Pull))
        } else {
            (PullStateView::Done, PullActionView::Finish(fail_view(name, "Failed to stash changes before pull"@)))
        },
        (PullStateView::Pulling { stashed }, PullEventView::Ran(r)) => if !r.success {
            let report = GitResultView { message: pull_failed_message(stashed, r.stderr), ..r };
            if stashed {
                (PullStateView::RestoringAfterFailure { report }, PullActionView::Run(GitOp::RestoreStash))
            } else {
                (PullStateView::Done, PullActionView::Finish(report))
            }
        } else if stashed {
            (PullStateView::Unstashing, PullActionView::Run(GitOp::RestoreStash))
        } else {
            (PullStateView::Done, PullActionView::Finish(ok_view(name, "Pulled"@)))
        },
        (PullStateView::Unstashing, PullEventView::Ran(r)) => if r.success {
            (PullStateView::Done, PullActionView::Finish(ok_view(name, "Pulled (stash restored)"@)))
        } else {
            (
                PullStateView::Done,
                PullActionView::Finish(
                    GitResultView {
                        message: "Pulled, but stash pop failed: "@ + last_line_of(r.stderr),
                        success: false,
                        ..r
                    },
                ),
            )
        },
        (PullStateView::RestoringAfterFailure { report }, _) => (PullStateView::Done, PullActionView::Finish(report)),
        _ => (state, PullActionView::CheckChanges),
    }
}

/// Decides the next step of pulling `repo`, given where it stands and what
/// happened since. Changes in the working tree are stashed before the pull
/// and restored after it, or discarded first with `force`; in dry-run mode
/// nothing runs.
pub fn run_pull(repo: &Repo, opts: &GlobalOpts, state: PullState, event: PullEvent) -> (next: (PullState, PullAction))
    requires
        pull_event_fits(state@, event@),
    ensures
        (next.0@, next.1@) == pull_step(repo.name@, opts.dry_run, opts.force, state@, event@),
{
    let name = repo.name.as_str();
    match state {
        PullState::Start => {
            if opts.dry_run {
                let mut message = String::from_str("[DRY-RUN] Would pull in ");
                message.append(name);
                assert(message@ =~= "[DRY-RUN] "@ + ("Would pull in "@ + name@)) by {
                    reveal_strlit("[DRY-RUN] Would pull in ");
                    reveal_strlit("[DRY-RUN] ");
                    reveal_strlit("Would pull in ");
                }
                (PullState::Done, PullAction::Finish(GitResult::ok(name, message.as_str())))
            } else {
                (PullState::CheckingChanges, PullAction::CheckChanges)
            }
        },
        PullState::CheckingChanges => {
            let changed = match event {
                PullEvent::Answer(b) => b,
                _ => false,
            };
            if changed {
                changes_found(opts.force)
            } else {
                (PullState::CheckingUntracked, PullAction::CheckUntracked)
            }
        },
        PullState::CheckingUntracked => {
            let untracked = match event {
                PullEvent::Answer(b) => b,
                _ => false,
            };
            if untracked {
                changes_found(opts.force)
            } else {
                (PullState::Pulling { stashed: false }, PullAction::Run(GitOp::Pull))
            }
        },
        PullState::Discarding => (PullState::Removing, PullAction::Run(GitOp::RemoveUntracked)),
        PullState::Removing => (PullState::Pulling { stashed: false }, PullAction::Run(GitOp::Pull)),
        PullState::Stashing => {
            let ok = match &event {
                PullEvent::Ran(r) => r.success,
                _ => false,
            };
            if ok {
                (PullState::Pulling { stashed: true }, PullAction::Run(GitOp::Pull))
            } else {
                (PullState::Done, PullAction::Finish(GitResult::fail(name, "Failed to stash changes before pull")))
            }
        },
        PullState::Pulling { stashed } => {
            match event {
                PullEvent::Ran(r) => {
                    if !r.success {
                        let mut message = String::from_str("Pull failed");
                        if stashed {
                            message.append(" (stash restored)");
                        }
                        message.append(": ");
                        let last = last_line(r.stderr.as_str());
                        message.append(last.as_str());
                        assert(message@ =~= pull_failed_message(stashed, r.stderr@));
                        let report = GitResult { message, ..r };
                        if stashed {
                            (PullState::RestoringAfterFailure { report }, PullAction::Run(GitOp::RestoreStash))
                        } else {
                            (PullState::Done, PullAction::Finish(report))
                        }
                    } else if stashed {
                        (PullState::Unstashing, PullAction::Run(GitOp::RestoreStash))
                    } else {
                        (PullState::Done, PullAction::Finish(GitResult::ok(name, "Pulled")))
                    }
                },
                _ => (PullState::Pulling { stashed }, PullAction::CheckChanges),
            }
        },
        PullState::Unstashing => {
            match event {
                PullEvent::Ran(r) => {
                    if r.success {
                        (PullState::Done, PullAction::Finish(GitResult::ok(name, "Pulled (stash restored)")))
                    } else {
                        let mut message = String::from_str("Pulled, but stash pop failed: ");
                        let last = last_line(r.stderr.as_str());
                        message.append(last.as_str());
                        (PullState::Done, PullAction::Finish(GitResult { message, success: false, ..r }))
                    }
                },
                _ => (PullState::Unstashing, PullAction::CheckChanges),
            }
        },
        PullState::RestoringAfterFailure { report } => (PullState::Done, PullAction::Finish(report)),
        PullState::Done => (PullState::Done, PullAction::CheckChanges),
    }
}

/// The step taken once changes are found (see `on_changes`).
fn changes_found(force: bool) -> (next: (PullState, PullAction))
    ensures
        (next.0@, next.1@) == on_changes(force),
{
    if force {
        (PullState::Discarding, PullAction::Run(GitOp::DiscardChanges))
    } else {
        (PullState::Stashing, PullAction::Run(GitOp::Stash))
    }
}

} // verus!
