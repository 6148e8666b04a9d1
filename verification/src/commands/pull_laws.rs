//! Properties of pulling a repository as a whole: the steps of `run_pull`
//! driven by a repository that answers every question and command.

use vstd::prelude::*;
use crate::engine::{GitResultView, ok_view, fail_view};
use crate::engine::executor::dry_run_view;
use crate::commands::sync::{GitOp, PullActionView, PullEventView, PullStateView, pull_step, pull_failed_message, pull_event_fits};

verus! {

/// How one repository answers when it is pulled: whether it has changes to
/// tracked files and untracked files, and the result of each git command.
pub struct PullWorld {
    pub has_changes: bool,
    pub has_untracked: bool,
    pub discard: GitResultView,
    pub remove: GitResultView,
    pub stash: GitResultView,
    pub pull: GitResultView,
    pub restore: GitResultView,
}

/// The result that the repository gives for a git command.
pub open spec fn op_result(w: PullWorld, op: GitOp) -> GitResultView {
    match op {
        GitOp::DiscardChanges => w.discard,
        GitOp::RemoveUntracked => w.remove,
        GitOp::Stash => w.stash,
        GitOp::Pull => w.pull,
        GitOp::RestoreStash => w.restore,
    }
}

/// The event that performing `action` on the repository gives back.
pub open spec fn world_reply(w: PullWorld, action: PullActionView) -> PullEventView {
    match action {
        PullActionView::CheckChanges => PullEventView::Answer(w.has_changes),
        PullActionView::CheckUntracked => PullEventView::Answer(w.has_untracked),
        PullActionView::Run(op) => PullEventView::Ran(op_result(w, op)),
        PullActionView::Finish(_) => PullEventView::Begin,
    }
}

/// The actions taken from `state` on, each performed on the repository,
/// up to the first `Finish` or `fuel` actions.
pub open spec fn pull_trace(
    name: Seq<char>,
    dry_run: bool,
    force: bool,
    w: PullWorld,
    state: PullStateView,
    event: PullEventView,
    fuel: nat,
) -> Seq<PullActionView>
    decreases fuel,
{
    if fuel == 0 {
        Seq::empty()
    } else {
        let (next, action) = pull_step(name, dry_run, force, state, event);
        if action is Finish {
            seq![action]
        } else {
            seq![action] + pull_trace(name, dry_run, force, w, next, world_reply(w, action), (fuel - 1) as nat)
        }
    }
}

/// Every action taken when the repository named `name` is pulled, from the start.
pub open spec fn pull_run(name: Seq<char>, dry_run: bool, force: bool, w: PullWorld) -> Seq<PullActionView> {
    pull_trace(name, dry_run, force, w, PullStateView::Start, PullEventView::Begin, 8)
}

/// The whole run of pulling a repository, case by case: which questions are
/// asked, which git commands run in which order, and what is reported.
pub proof fn law_pull_run_cases(name: Seq<char>, dry_run: bool, force: bool, w: PullWorld)
    ensures
        ({
            let run = pull_run(name, dry_run, force, w);
            let checks = if w.has_changes {
                seq![PullActionView::CheckChanges]
            } else {
                seq![PullActionView::CheckChanges, PullActionView::CheckUntracked]
            };
            let dirty = w.has_changes || w.has_untracked;
            let pull_failed = GitResultView { message: pull_failed_message(!force && dirty, w.pull.stderr), ..w.pull };
            if dry_run {
                run == seq![PullActionView::Finish(dry_run_view(name, "Would pull in "@ + name))]
            } else if !dirty {
                run == checks + seq![
                    PullActionView::Run(GitOp::Pull),
                    PullActionView::Finish(if w.pull.success { ok_view(name, "Pulled"@) } else { pull_failed }),
                ]
            } else if force {
                run == checks + seq![
                    PullActionView::Run(GitOp::DiscardChanges),
                    PullActionView::Run(GitOp::RemoveUntracked),
                    PullActionView::Run(GitOp::Pull),
                    PullActionView::Finish(if w.pull.success { ok_view(name, "Pulled"@) } else { pull_failed }),
                ]
            } else if !w.stash.success {
                run == checks + seq![
                    PullActionView::Run(GitOp::Stash),
                    PullActionView::Finish(fail_view(name, "Failed to stash changes before pull"@)),
                ]
            } else if !w.pull.success {
                run == checks + seq![
                    PullActionView::Run(GitOp::Stash),
                    PullActionView::Run(GitOp::Pull),
                    PullActionView::Run(GitOp::RestoreStash),
                    PullActionView::Finish(pull_failed),
                ]
            } else {
                run == checks + seq![
                    PullActionView::Run(GitOp::Stash),
                    PullActionView::Run(GitOp::Pull),
                    PullActionView::Run(GitOp::RestoreStash),
                    PullActionView::Finish(
                        if w.restore.success {
                            ok_view(name, "Pulled (stash restored)"@)
                        } else {
                            GitResultView {
                                message: "Pulled, but stash pop failed: "@ + crate::text::last_line_of(w.restore.stderr),
                                success: false,
                                ..w.restore
                            }
                        },
                    ),
                ]
            }
        }),
{
    reveal_with_fuel(pull_trace, 9);
}

/// Whether the repository has anything uncommitted.
pub open spec fn dirty(w: PullWorld) -> bool {
    w.has_changes || w.has_untracked
}

/// Whether the run holds the action at some position.
pub open spec fn runs(run: Seq<PullActionView>, op: GitOp) -> bool {
    exists|i: int| 0 <= i < run.len() && run[i] == PullActionView::Run(op)
}

/// The result reported at the end of the run.
pub open spec fn final_report(run: Seq<PullActionView>) -> GitResultView {
    run.last()->Finish_0
}

/// Pulling a repository always ends, within a bounded number of steps, with
/// exactly one reported result, as the last action.
pub proof fn law_pull_reports_once(name: Seq<char>, dry_run: bool, force: bool, w: PullWorld)
    ensures
        pull_run(name, dry_run, force, w).len() > 0,
        pull_run(name, dry_run, force, w).last() is Finish,
        forall|i: int| 0 <= i < pull_run(name, dry_run, force, w).len() - 1
            ==> !(pull_run(name, dry_run, force, w)[i] is Finish),
{
    law_pull_run_cases(name, dry_run, force, w);
}

/// In dry-run mode nothing is asked and nothing runs: the one action reports
/// "[DRY-RUN] Would pull in <name>" as a success.
pub proof fn law_pull_dry_run(name: Seq<char>, force: bool, w: PullWorld)
    ensures
        pull_run(name, true, force, w) == seq![PullActionView::Finish(dry_run_view(name, "Would pull in "@ + name))],
{
    law_pull_run_cases(name, true, force, w);
}

/// Changes that were stashed are always restored, whether the pull succeeds
/// or fails; and a stash is only restored after it was made successfully.
pub proof fn law_pull_restores_stash(name: Seq<char>, dry_run: bool, force: bool, w: PullWorld)
    ensures
        ({
            let run = pull_run(name, dry_run, force, w);
            &&& forall|i: int| 0 <= i < run.len() && run[i] == PullActionView::Run(GitOp::Stash) && w.stash.success
                ==> exists|j: int| i < j < run.len() && run[j] == PullActionView::Run(GitOp::RestoreStash)
            &&& forall|j: int| 0 <= j < run.len() && run[j] == PullActionView::Run(GitOp::RestoreStash)
                ==> w.stash.success && exists|i: int| 0 <= i < j && run[i] == PullActionView::Run(GitOp::Stash)
        }),
{
    law_pull_run_cases(name, dry_run, force, w);
    let run = pull_run(name, dry_run, force, w);
    let c: int = if w.has_changes { 1 } else { 2 };
    if !dry_run && dirty(w) && !force && w.stash.success {
        assert(run[c] == PullActionView::Run(GitOp::Stash));
        assert(run[c + 2] == PullActionView::Run(GitOp::RestoreStash));
        assert forall|i: int| 0 <= i < run.len() && run[i] == PullActionView::Run(GitOp::Stash) && w.stash.success
            implies exists|j: int| i < j < run.len() && run[j] == PullActionView::Run(GitOp::RestoreStash) by {
            assert(i == c);
        }
    }
}

/// With `force`, nothing is stashed: uncommitted changes and untracked files
/// are discarded (`checkout .`, then `clean -fd`) just before the pull.
pub proof fn law_pull_force_discards(name: Seq<char>, w: PullWorld)
    ensures
        ({
            let run = pull_run(name, false, true, w);
            &&& !runs(run, GitOp::Stash)
            &&& !runs(run, GitOp::RestoreStash)
            &&& dirty(w) ==> exists|i: int| 0 <= i && i + 2 < run.len()
                && #[trigger] run[i] == PullActionView::Run(GitOp::DiscardChanges)
                && run[i + 1] == PullActionView::Run(GitOp::RemoveUntracked)
                && run[i + 2] == PullActionView::Run(GitOp::Pull)
        }),
{
    law_pull_run_cases(name, false, true, w);
    let run = pull_run(name, false, true, w);
    let c: int = if w.has_changes { 1 } else { 2 };
    if dirty(w) {
        assert(run[c] == PullActionView::Run(GitOp::DiscardChanges));
    }
}

/// A repository without uncommitted changes or untracked files is only
/// pulled: nothing is stashed or discarded.
pub proof fn law_pull_clean_tree(name: Seq<char>, force: bool, w: PullWorld)
    requires
        !dirty(w),
    ensures
        pull_run(name, false, force, w) == seq![
            PullActionView::CheckChanges,
            PullActionView::CheckUntracked,
            PullActionView::Run(GitOp::Pull),
            PullActionView::Finish(
                if w.pull.success {
                    ok_view(name, "Pulled"@)
                } else {
                    GitResultView { message: pull_failed_message(false, w.pull.stderr), ..w.pull }
                },
            ),
        ],
{
    law_pull_run_cases(name, false, force, w);
}

/// The pull runs unless nothing is executed or stashing the changes failed.
pub proof fn law_pull_runs_pull(name: Seq<char>, dry_run: bool, force: bool, w: PullWorld)
    ensures
        runs(pull_run(name, dry_run, force, w), GitOp::Pull)
            <==> !dry_run && (!dirty(w) || force || w.stash.success),
{
    law_pull_run_cases(name, dry_run, force, w);
    let run = pull_run(name, dry_run, force, w);
    let c: int = if w.has_changes { 1 } else { 2 };
    if !dry_run && (!dirty(w) || force || w.stash.success) {
        if !dirty(w) {
            assert(run[2] == PullActionView::Run(GitOp::Pull));
        } else if force {
            assert(run[c + 2] == PullActionView::Run(GitOp::Pull));
        } else {
            assert(run[c + 1] == PullActionView::Run(GitOp::Pull));
        }
    }
}

/// The reported result is a success exactly when nothing is executed, or
/// when stashing (if changes were stashed), the pull, and restoring the
/// stash (if changes were stashed) all succeeded.
pub proof fn law_pull_success(name: Seq<char>, dry_run: bool, force: bool, w: PullWorld)
    ensures
        final_report(pull_run(name, dry_run, force, w)).success <==> (dry_run || {
            let stashing = dirty(w) && !force;
            &&& stashing ==> w.stash.success
            &&& w.pull.success
            &&& stashing ==> w.restore.success
        }),
{
    law_pull_run_cases(name, dry_run, force, w);
}

/// Whether, from `state` on, every event that the repository gives back is
/// one that the state waiting for it accepts.
pub open spec fn pull_trace_fits(
    name: Seq<char>,
    dry_run: bool,
    force: bool,
    w: PullWorld,
    state: PullStateView,
    event: PullEventView,
    fuel: nat,
) -> bool
    decreases fuel,
{
    if fuel == 0 {
        true
    } else {
        let (next, action) = pull_step(name, dry_run, force, state, event);
        &&& pull_event_fits(state, event)
        &&& (action is Finish || pull_trace_fits(name, dry_run, force, w, next, world_reply(w, action), (fuel - 1) as nat))
    }
}

/// A driver that performs each action on the repository and hands back what
/// it gave is never refused: every state reached from the start accepts the
/// event it then receives (after a stash, its result; after a question, the
/// answer), so the whole run of `law_pull_run_cases` can be performed.
pub proof fn law_pull_driver_never_stuck(name: Seq<char>, dry_run: bool, force: bool, w: PullWorld)
    ensures
        pull_trace_fits(name, dry_run, force, w, PullStateView::Start, PullEventView::Begin, 8),
{
    reveal_with_fuel(pull_trace_fits, 9);
}

/// What pulling reports, spelled out: "[DRY-RUN] Would pull in <name>"; a
/// failed stash gives "Failed to stash changes before pull" (exit code 1);
/// a failed pull keeps git's result with the message "Pull failed", plus
/// " (stash restored)" when changes were stashed, then ": " and the last
/// line of git's error output; a successful pull gives "Pulled", or "Pulled
/// (stash restored)" after a successful pop; a failed pop keeps its result,
/// marked failed, with "Pulled, but stash pop failed: " and the last line of
/// its error output.
pub proof fn law_pull_report(name: Seq<char>, dry_run: bool, force: bool, w: PullWorld)
    ensures
        ({
            let r = final_report(pull_run(name, dry_run, force, w));
            let stashing = dirty(w) && !force;
            if dry_run {
                r.success && r.exit_code == 0 && r.repo_name == name
                    && r.message == "[DRY-RUN] "@ + "Would pull in "@ + name
            } else if stashing && !w.stash.success {
                !r.success && r.exit_code == 1 && r.repo_name == name
                    && r.message == "Failed to stash changes before pull"@
            } else if !w.pull.success {
                r.success == w.pull.success && r.exit_code == w.pull.exit_code && r.repo_name == w.pull.repo_name
                    && r.stdout == w.pull.stdout && r.stderr == w.pull.stderr
                    && r.message == "Pull failed"@ + (if stashing { " (stash restored)"@ } else { ""@ }) + ": "@
                        + crate::text::last_line_of(w.pull.stderr)
            } else if !stashing {
                r.success && r.exit_code == 0 && r.repo_name == name && r.message == "Pulled"@
            } else if w.restore.success {
                r.success && r.exit_code == 0 && r.repo_name == name && r.message == "Pulled (stash restored)"@
            } else {
                !r.success && r.exit_code == w.restore.exit_code && r.repo_name == w.restore.repo_name
                    && r.stderr == w.restore.stderr
                    && r.message == "Pulled, but stash pop failed: "@ + crate::text::last_line_of(w.restore.stderr)
            }
        }),
{
    law_pull_run_cases(name, dry_run, force, w);
    reveal_strlit("");
    assert(""@ =~= Seq::<char>::empty());
}

} // verus!
