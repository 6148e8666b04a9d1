use gitb::commands::exec::{command_display, exec_step, exec_title, output_sections, shows_output, ExecError};
use gitb::commands::sync::{run_fetch, run_pull, run_push, GitOp, PullAction, PullEvent, PullState};
use gitb::engine::executor::{
    exec_git_on_repo, header_lines, job_count, shows_progress, skip_info_lines, sort_by_repo_name, GitStep,
};
use gitb::engine::{GitResult, GlobalOpts, OutputFormat, Repo};
use gitb::text::{first_line, join, last_line, repeat, str_precedes};
use std::path::PathBuf;

fn repo(name: &str) -> Repo {
    Repo { path: PathBuf::from(format!("/work/{}", name)), name: name.to_string() }
}

fn result(name: &str, success: bool, stdout: &str, stderr: &str, message: &str) -> GitResult {
    GitResult {
        repo_name: name.to_string(),
        success,
        exit_code: if success { 0 } else { 1 },
        stdout: stdout.to_string(),
        stderr: stderr.to_string(),
        message: message.to_string(),
    }
}

fn strings(v: &[&str]) -> Vec<String> {
    v.iter().map(|s| s.to_string()).collect()
}

#[test]
fn ok_and_fail_results() {
    let r = GitResult::ok("alpha", "done");
    assert_eq!(r.repo_name, "alpha");
    assert!(r.success);
    assert_eq!(r.exit_code, 0);
    assert_eq!(r.stdout, "");
    assert_eq!(r.stderr, "");
    assert_eq!(r.message, "done");
    let f = GitResult::fail("beta", "broken");
    assert_eq!(f.repo_name, "beta");
    assert!(!f.success);
    assert_eq!(f.exit_code, 1);
    assert_eq!(f.message, "broken");
}

#[test]
fn default_options() {
    let o = GlobalOpts::default();
    assert_eq!(o.jobs, 0);
    assert!(!o.dry_run);
    assert!(o.skip.is_empty());
    assert_eq!(o.depth, 1);
    assert_eq!(o.output, OutputFormat::Table);
    assert!(!o.verbose && !o.quiet && !o.force);
}

#[test]
fn byte_order_of_names() {
    assert!(str_precedes("a", "b"));
    assert!(!str_precedes("b", "a"));
    assert!(str_precedes("ab", "abc"));
    assert!(!str_precedes("abc", "ab"));
    assert!(str_precedes("", "a"));
    assert!(!str_precedes("same", "same"));
    assert!(str_precedes("Z", "a"));
    assert!(str_precedes("z", "é"));
    assert!(!str_precedes("é", "z"));
}

#[test]
fn first_lines() {
    assert_eq!(first_line(""), "");
    assert_eq!(first_line("abc"), "abc");
    assert_eq!(first_line("a\nb"), "a");
    assert_eq!(first_line("a\r\nb"), "a");
    assert_eq!(first_line("a\r"), "a\r");
    assert_eq!(first_line("\nb"), "");
    assert_eq!(first_line("ünï\ncode"), "ünï");
}

#[test]
fn last_lines() {
    assert_eq!(last_line(""), "");
    assert_eq!(last_line("abc"), "abc");
    assert_eq!(last_line("a\nb"), "b");
    assert_eq!(last_line("a\nb\n"), "b");
    assert_eq!(last_line("a\r\nb\r\n"), "b");
    assert_eq!(last_line("a\n\n"), "");
    assert_eq!(last_line("\n"), "");
    assert_eq!(last_line("x\r"), "x\r");
    assert_eq!(last_line("fatal: one\nfatal: two"), "fatal: two");
    for s in ["", "abc", "a\nb\n", "a\r\nb\r\n", "a\n\n", "\n", "x\r", "p\nq\r\nr"] {
        assert_eq!(last_line(s), s.lines().last().unwrap_or(""));
        assert_eq!(first_line(s), s.lines().next().unwrap_or(""));
    }
}

#[test]
fn joining_and_repeating() {
    assert_eq!(join(&strings(&[]), ", "), "");
    assert_eq!(join(&strings(&["a"]), ", "), "a");
    assert_eq!(join(&strings(&["a", "b", "c"]), ", "), "a, b, c");
    assert_eq!(repeat("=", 0), "");
    assert_eq!(repeat("=", 3), "===");
}

#[test]
fn sorting_is_by_name_and_stable() {
    let input = vec![
        result("zeta", true, "", "", "1"),
        result("alpha", true, "", "", "2"),
        result("mid", false, "", "", "3"),
        result("alpha", false, "", "", "4"),
        result("Alpha", true, "", "", "5"),
        result("alpha", true, "", "", "6"),
    ];
    let sorted = sort_by_repo_name(input);
    let got: Vec<(String, String)> = sorted.iter().map(|r| (r.repo_name.clone(), r.message.clone())).collect();
    let want: Vec<(String, String)> = [("Alpha", "5"), ("alpha", "2"), ("alpha", "4"), ("alpha", "6"), ("mid", "3"), ("zeta", "1")]
        .iter()
        .map(|(a, b)| (a.to_string(), b.to_string()))
        .collect();
    assert_eq!(got, want);
    assert!(sort_by_repo_name(Vec::new()).is_empty());
}

#[test]
fn jobs_and_progress() {
    let mut o = GlobalOpts::default();
    assert_eq!(job_count(&o, Some(12)), 12);
    assert_eq!(job_count(&o, None), 4);
    o.jobs = 3;
    assert_eq!(job_count(&o, Some(12)), 3);
    assert!(shows_progress(&o));
    o.output = OutputFormat::Json;
    assert!(!shows_progress(&o));
    o.output = OutputFormat::Quiet;
    assert!(shows_progress(&o));
    o.quiet = true;
    assert!(!shows_progress(&o));
}

#[test]
fn headers() {
    let mut o = GlobalOpts::default();
    assert_eq!(header_lines(&o, "Pulling"), vec!["\nPulling".to_string(), "=".repeat(19)]);
    o.dry_run = true;
    assert_eq!(header_lines(&o, "Pulling"), vec!["\nPulling [DRY-RUN]".to_string(), "=".repeat(19)]);
    assert_eq!(header_lines(&o, "Ünï"), vec!["\nÜnï [DRY-RUN]".to_string(), "=".repeat(15)]);
    o.output = OutputFormat::Json;
    assert!(header_lines(&o, "Pulling").is_empty());
    o.output = OutputFormat::Table;
    o.quiet = true;
    assert!(header_lines(&o, "Pulling").is_empty());
}

#[test]
fn skip_info() {
    let mut o = GlobalOpts::default();
    assert!(skip_info_lines(&o, &Vec::new()).is_empty());
    let skip = strings(&["dir1", "dir2"]);
    assert_eq!(skip_info_lines(&o, &skip), vec!["[SKIP] Directories: dir1, dir2".to_string(), String::new()]);
    o.quiet = true;
    assert!(skip_info_lines(&o, &skip).is_empty());
    o.quiet = false;
    o.output = OutputFormat::Json;
    assert!(skip_info_lines(&o, &skip).is_empty());
}

fn finished(step: GitStep) -> GitResult {
    match step {
        GitStep::Finished(r) => r,
        GitStep::Run(args) => panic!("expected a result, got a run of {:?}", args),
    }
}

fn run_args(step: GitStep) -> Vec<String> {
    match step {
        GitStep::Run(args) => args,
        GitStep::Finished(r) => panic!("expected a run, got {:?}", r),
    }
}

#[test]
fn git_on_repo_steps() {
    let r = repo("alpha");
    let mut o = GlobalOpts::default();
    assert_eq!(run_args(exec_git_on_repo(&r, &o, &["status", "-s"], "Clean", "git status -s", None)), strings(&["status", "-s"]));
    let done = finished(exec_git_on_repo(&r, &o, &["status"], "Clean", "git status", Some(result("alpha", true, "out", "", "raw"))));
    assert_eq!(done.message, "Clean");
    assert_eq!(done.stdout, "out");
    let failed = finished(exec_git_on_repo(&r, &o, &["status"], "Clean", "git status", Some(result("alpha", false, "", "err", "raw"))));
    assert_eq!(failed.message, "raw");
    assert!(!failed.success);
    assert_eq!(failed.stderr, "err");
    o.dry_run = true;
    let dry = finished(exec_git_on_repo(&r, &o, &["status"], "Clean", "git status", None));
    assert_eq!(dry.message, "[DRY-RUN] git status");
    assert_eq!(dry.repo_name, "alpha");
    assert!(dry.success);
}

#[test]
fn fetch_and_push() {
    let r = repo("beta");
    let mut o = GlobalOpts::default();
    assert_eq!(run_args(run_fetch(&r, &o, None)), strings(&["fetch", "--all", "--prune"]));
    assert_eq!(run_args(run_push(&r, &o, None)), strings(&["push"]));
    assert_eq!(finished(run_fetch(&r, &o, Some(result("beta", true, "", "", "x")))).message, "Fetched");
    assert_eq!(finished(run_push(&r, &o, Some(result("beta", true, "", "", "x")))).message, "Pushed");
    assert_eq!(finished(run_push(&r, &o, Some(result("beta", false, "", "", "rejected")))).message, "rejected");
    o.dry_run = true;
    assert_eq!(finished(run_fetch(&r, &o, None)).message, "[DRY-RUN] git fetch --all --prune");
    assert_eq!(finished(run_push(&r, &o, None)).message, "[DRY-RUN] git push");
}

#[test]
fn git_op_arguments() {
    assert_eq!(GitOp::DiscardChanges.args(), strings(&["checkout", "."]));
    assert_eq!(GitOp::RemoveUntracked.args(), strings(&["clean", "-fd"]));
    assert_eq!(GitOp::Stash.args(), strings(&["stash", "push", "-u"]));
    assert_eq!(GitOp::Pull.args(), strings(&["pull"]));
    assert_eq!(GitOp::RestoreStash.args(), strings(&["stash", "pop"]));
}

struct World {
    changes: bool,
    untracked: bool,
    stash_ok: bool,
    pull_ok: bool,
    pop_ok: bool,
}

/// Drives `run_pull` against a simulated repository; returns the commands
/// run and the reported result.
fn drive_pull(opts: &GlobalOpts, w: &World) -> (Vec<String>, GitResult) {
    let r = repo("alpha");
    let mut state = PullState::Start;
    let mut event = PullEvent::Begin;
    let mut log = Vec::new();
    for _ in 0..10 {
        let (next, action) = run_pull(&r, opts, state, event);
        state = next;
        event = match action {
            PullAction::CheckChanges => {
                log.push("changes?".to_string());
                PullEvent::Answer(w.changes)
            }
            PullAction::CheckUntracked => {
                log.push("untracked?".to_string());
                PullEvent::Answer(w.untracked)
            }
            PullAction::Run(op) => {
                log.push(op.args().join(" "));
                let ok = match op {
                    GitOp::Stash => w.stash_ok,
                    GitOp::Pull => w.pull_ok,
                    GitOp::RestoreStash => w.pop_ok,
                    _ => true,
                };
                PullEvent::Ran(result("alpha", ok, "", if ok { "" } else { "hint: x\nfatal: failed here\n" }, "git said"))
            }
            PullAction::Finish(res) => return (log, res),
        };
    }
    panic!("pull did not finish")
}

fn world(changes: bool, untracked: bool, stash_ok: bool, pull_ok: bool, pop_ok: bool) -> World {
    World { changes, untracked, stash_ok, pull_ok, pop_ok }
}

#[test]
fn pull_dry_run() {
    let mut o = GlobalOpts::default();
    o.dry_run = true;
    let (log, res) = drive_pull(&o, &world(true, true, true, true, true));
    assert!(log.is_empty());
    assert_eq!(res.message, "[DRY-RUN] Would pull in alpha");
    assert!(res.success);
}

#[test]
fn pull_clean_tree() {
    let o = GlobalOpts::default();
    let (log, res) = drive_pull(&o, &world(false, false, true, true, true));
    assert_eq!(log, strings(&["changes?", "untracked?", "pull"]));
    assert_eq!(res.message, "Pulled");
    assert!(res.success);
    let (_, res) = drive_pull(&o, &world(false, false, true, false, true));
    assert_eq!(res.message, "Pull failed: fatal: failed here");
    assert!(!res.success);
    assert_eq!(res.stderr, "hint: x\nfatal: failed here\n");
}

#[test]
fn pull_stashes_and_restores() {
    let o = GlobalOpts::default();
    let (log, res) = drive_pull(&o, &world(true, false, true, true, true));
    assert_eq!(log, strings(&["changes?", "stash push -u", "pull", "stash pop"]));
    assert_eq!(res.message, "Pulled (stash restored)");
    assert!(res.success);
    let (log, res) = drive_pull(&o, &world(false, true, true, false, true));
    assert_eq!(log, strings(&["changes?", "untracked?", "stash push -u", "pull", "stash pop"]));
    assert_eq!(res.message, "Pull failed (stash restored): fatal: failed here");
    assert!(!res.success);
    let (_, res) = drive_pull(&o, &world(true, false, true, true, false));
    assert_eq!(res.message, "Pulled, but stash pop failed: fatal: failed here");
    assert!(!res.success);
    assert_eq!(res.exit_code, 1);
}

#[test]
fn pull_stash_failure() {
    let o = GlobalOpts::default();
    let (log, res) = drive_pull(&o, &world(true, false, false, true, true));
    assert_eq!(log, strings(&["changes?", "stash push -u"]));
    assert_eq!(res.message, "Failed to stash changes before pull");
    assert!(!res.success);
    assert_eq!(res.exit_code, 1);
}

#[test]
fn pull_force_discards() {
    let mut o = GlobalOpts::default();
    o.force = true;
    let (log, res) = drive_pull(&o, &world(true, true, false, true, false));
    assert_eq!(log, strings(&["changes?", "checkout .", "clean -fd", "pull"]));
    assert_eq!(res.message, "Pulled");
    let (log, _) = drive_pull(&o, &world(false, false, false, true, false));
    assert_eq!(log, strings(&["changes?", "untracked?", "pull"]));
}

#[test]
fn exec_display_and_errors() {
    assert_eq!(command_display(&Vec::new()).unwrap_err(), ExecError::NoCommand);
    assert_eq!(
        ExecError::NoCommand.message(),
        "No command specified. Usage: gitb exec <git command> [args...]"
    );
    let d = command_display(&strings(&["log", "--oneline", "-5"])).unwrap();
    assert_eq!(d, "git log --oneline -5");
    assert_eq!(exec_title(&d), "Executing: git log --oneline -5");
}

#[test]
fn exec_steps() {
    let r = repo("gamma");
    let mut o = GlobalOpts::default();
    let args = strings(&["log", "-1"]);
    assert_eq!(run_args(exec_step(&r, &o, &args, None)), args);
    let empty = finished(exec_step(&r, &o, &args, Some(result("gamma", true, "", "", "raw"))));
    assert_eq!(empty.message, "OK");
    let lines = finished(exec_step(&r, &o, &args, Some(result("gamma", true, "abc123 first\nsecond\n", "", "raw"))));
    assert_eq!(lines.message, "abc123 first");
    assert_eq!(lines.stdout, "abc123 first\nsecond\n");
    let failed = finished(exec_step(&r, &o, &args, Some(result("gamma", false, "out", "err", "raw"))));
    assert_eq!(failed.message, "raw");
    o.dry_run = true;
    let dry = finished(exec_step(&r, &o, &args, None));
    assert_eq!(dry.message, "[DRY-RUN] git log -1 in gamma");
    assert!(dry.success);
}

#[test]
fn exec_output_sections() {
    let mut o = GlobalOpts::default();
    let results = vec![result("a", true, "one\n", "", "m"), result("b", true, "", "", "m"), result("c", false, "three", "", "m")];
    assert!(!shows_output(&o));
    assert!(output_sections(&o, &results).is_empty());
    o.verbose = true;
    assert!(shows_output(&o));
    assert_eq!(output_sections(&o, &results), vec!["\n--- a ---\none\n".to_string(), "\n--- c ---\nthree".to_string()]);
    o.output = OutputFormat::Quiet;
    assert!(!shows_output(&o));
    assert!(output_sections(&o, &results).is_empty());
    o.output = OutputFormat::Table;
    o.quiet = true;
    assert!(!shows_output(&o));
    assert!(output_sections(&o, &results).is_empty());
}

#[test]
fn sorting_twice_gives_the_same_order() {
    let make = || vec![
        result("b", true, "", "", "1"),
        result("a", true, "", "", "2"),
        result("b", false, "", "", "3"),
        result("a", false, "", "", "4"),
    ];
    let x: Vec<String> = sort_by_repo_name(make()).iter().map(|r| r.message.clone()).collect();
    let y: Vec<String> = sort_by_repo_name(make()).iter().map(|r| r.message.clone()).collect();
    assert_eq!(x, y);
    assert_eq!(x, strings(&["2", "4", "1", "3"]));
}

#[test]
fn repositories_clone() {
    let r = repo("delta");
    let c = r.clone();
    assert_eq!(c.name, "delta");
    assert_eq!(c.path, r.path);
}

#[test]
fn pull_states_accept_their_events() {
    assert!(PullState::Start.accepts(&PullEvent::Begin));
    assert!(!PullState::Start.accepts(&PullEvent::Answer(true)));
    assert!(PullState::CheckingChanges.accepts(&PullEvent::Answer(false)));
    assert!(PullState::CheckingUntracked.accepts(&PullEvent::Answer(true)));
    assert!(!PullState::CheckingChanges.accepts(&PullEvent::Begin));
    assert!(PullState::Pulling { stashed: true }.accepts(&PullEvent::Ran(result("a", true, "", "", ""))));
    assert!(!PullState::Stashing.accepts(&PullEvent::Answer(true)));
    assert!(!PullState::Done.accepts(&PullEvent::Begin));
}
