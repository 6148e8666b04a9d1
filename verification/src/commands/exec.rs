//! `gitb exec <cmd...>`: an arbitrary git command across repositories.

use vstd::prelude::*;
use crate::engine::{GitResult, GitResultView, GlobalOpts, OutputFormat, Repo};
use crate::engine::executor::{GitStep, GitStepView, dry_run_view, opt_view, with_message};
use crate::text::{first_line, first_line_of, join, joined, texts};

verus! {

/// Label of the exec command's progress bar.
pub const EXEC_LABEL: &'static str = "Exec";

/// Why `exec` refuses to run.
#[derive(Debug, Clone, Copy, PartialEq, Eq, Structural)]
pub enum ExecError {
    /// No git command was given.
    NoCommand,
}

impl ExecError {
    /// The message shown to the user.
    pub fn message(&self) -> (m: String)
        ensures
            m@ == "No command specified. Usage: gitb exec <git command> [args...]"@,
    {
        String::from_str("No command specified. Usage: gitb exec <git command> [args...]")
    }
}

/// The command line as displayed: "git" followed by the arguments, separated by spaces.
pub open spec fn command_line(args: Seq<Seq<char>>) -> Seq<char> {
    "git "@ + joined(args, " "@)
}

/// The displayed command starts with "git " and lists the arguments in
/// order, separated by single spaces: one argument follows "git " directly,
/// and each further argument adds a space and itself.
pub proof fn law_command_line(args: Seq<Seq<char>>, arg: Seq<char>)
    ensures
        command_line(seq![arg]) == "git "@ + arg,
        args.len() > 0 ==> command_line(args.push(arg)) == command_line(args) + " "@ + arg,
{
    crate::text::law_joined(args, " "@, arg);
}

/// The command as displayed, or the error when no command was given.
pub fn command_display(args: &Vec<String>) -> (r: Result<String, ExecError>)
    ensures
        args@.len() == 0 <==> r is Err,
        r matches Err(e) ==> e == ExecError::NoCommand,
        r matches Ok(s) ==> s@ == command_line(texts(args@)),
{
    if args.len() == 0 {
        return Err(ExecError::NoCommand);
    }
    Ok(command_text(args))
}

/// "git" followed by the arguments, separated by spaces.
fn command_text(args: &Vec<String>) -> (s: String)
    ensures
        s@ == command_line(texts(args@)),
{
    let mut s = String::from_str("git ");
    let rest = join(args, " ");
    s.append(rest.as_str());
    s
}

/// The title of the header printed before executing.
pub fn exec_title(display: &str) -> (t: String)
    ensures
        t@ == "Executing: "@ + display@,
{
    let mut t = String::from_str("Executing: ");
    t.append(display);
    t
}

/// The message kept for a result of `exec`: on success the first line of
/// the output, or "OK" when there is none; on failure the result's own message.
pub open spec fn exec_message(r: GitResultView) -> Seq<char> {
    if r.success {
        if r.stdout.len() == 0 {
            "OK"@
        } else {
            first_line_of(r.stdout)
        }
    } else {
        r.message
    }
}

/// The message kept for a result of `exec`, in terms of the output's
/// characters: a failure keeps its own message; a success without output
/// says "OK"; a success with output gives its whole output when it holds no
/// line feed, else (`k` being the first line feed) the characters before
/// it, without a carriage return just before it. Multi-line output is not
/// reported as "OK".
pub proof fn law_exec_message(r: GitResultView, k: int)
    ensures
        !r.success ==> exec_message(r) == r.message,
        r.success && r.stdout.len() == 0 ==> exec_message(r) == "OK"@,
        r.success && r.stdout.len() > 0 && (forall|i: int| 0 <= i < r.stdout.len() ==> r.stdout[i] != '\n')
            ==> exec_message(r) == r.stdout,
        (r.success && 0 <= k < r.stdout.len() && r.stdout[k] == '\n'
            && (forall|i: int| 0 <= i < k ==> r.stdout[i] != '\n'))
            ==> exec_message(r) == (if k > 0 && r.stdout[k - 1] == '\r' {
                r.stdout.take(k - 1)
            } else {
                r.stdout.take(k)
            }),
{
    crate::text::law_first_line(r.stdout, k);
}

/// One step of `exec` with the git arguments `args` on a repository named `name`.
pub open spec fn exec_step_view(
    name: Seq<char>,
    dry_run: bool,
    args: Seq<Seq<char>>,
    outcome: Option<GitResultView>,
) -> GitStepView {
    if dry_run {
        GitStepView::Finished(dry_run_view(name, command_line(args) + " in "@ + name))
    } else {
        match outcome {
            None => GitStepView::Run(args),
            Some(r) => GitStepView::Finished(GitResultView { message: exec_message(r), ..r }),
        }
    }
}

/// In dry-run mode git never runs, whatever outcome is offered: the step
/// reports "[DRY-RUN] git <args> in <repository>" as a success, naming
/// the command that would have run.
pub proof fn law_exec_dry_run(name: Seq<char>, args: Seq<Seq<char>>, outcome: Option<GitResultView>)
    ensures
        exec_step_view(name, true, args, outcome) == GitStepView::Finished(
            dry_run_view(name, command_line(args) + " in "@ + name),
        ),
{
}

/// Outside dry-run mode git runs exactly once with the given arguments, and
/// the outcome is reported with only its message changed.
pub proof fn law_exec_runs_once(name: Seq<char>, args: Seq<Seq<char>>, outcome: GitResultView)
    ensures
        exec_step_view(name, false, args, None) == GitStepView::Run(args),
        exec_step_view(name, false, args, Some(outcome))
            == GitStepView::Finished(with_message(outcome, exec_message(outcome))),
{
}

/// Copies a list of strings.
fn copy_args(args: &Vec<String>) -> (v: Vec<String>)
    ensures
        v@ == args@,
{
    let mut v: Vec<String> = Vec::new();
    let mut i: usize = 0;
    while i < args.len()
        invariant
            i <= args@.len(),
            v@ == args@.take(i as int),
        decreases args@.len() - i,
    {
        v.push(args[i].clone());
        assert(v@ =~= args@.take(i + 1));
        i = i + 1;
    }
    assert(args@.take(args@.len() as int) =~= args@);
    v
}

/// Decides the next step of `exec` on `repo`: in dry-run mode it reports
/// what would run; otherwise git runs with `args`, and the outcome is
/// reported with the first line of its output as the message.
pub fn exec_step(
    repo: &Repo,
    opts: &GlobalOpts,
    args: &Vec<String>,
    outcome: Option<GitResult>,
) -> (step: GitStep)
    ensures
        step@ == exec_step_view(repo.name@, opts.dry_run, texts(args@), opt_view(outcome)),
{
    if opts.dry_run {
        let display = command_text(args);
        let mut message = String::from_str("[DRY-RUN] ");
        message.append(display.as_str());
        message.append(" in ");
        message.append(repo.name.as_str());
        let r = GitResult::ok(repo.name.as_str(), message.as_str());
        assert(message@ =~= "[DRY-RUN] "@ + (command_line(texts(args@)) + " in "@ + repo.name@));
        return GitStep::Finished(r);
    }
    match outcome {
        None => GitStep::Run(copy_args(args)),
        Some(r) => {
            let message = if r.success {
                if r.stdout.as_str().is_empty() {
                    String::from_str("OK")
                } else {
                    first_line(r.stdout.as_str())
                }
            } else {
                r.message.clone()
            };
            GitStep::Finished(GitResult { message, ..r })
        },
    }
}

/// Whether the full output of each repository is printed after the
/// results: in verbose mode, unless quiet mode (errors only) or the quiet
/// output format is chosen.
pub open spec fn output_shown(opts: GlobalOpts) -> bool {
    opts.verbose && !opts.quiet && opts.output != OutputFormat::Quiet
}

/// The full output is printed exactly in verbose mode when neither quiet
/// mode nor the quiet output format is chosen; dry run, force and the other
/// options do not matter.
pub proof fn law_output_shown(opts: GlobalOpts)
    ensures
        output_shown(opts) <==> (opts.verbose && !opts.quiet && opts.output != OutputFormat::Quiet),
{
}

/// Whether the full output of each repository is printed after the results.
pub fn shows_output(opts: &GlobalOpts) -> (r: bool)
    ensures
        r == output_shown(*opts),
{
    opts.verbose && !opts.quiet && opts.output != OutputFormat::Quiet
}

/// The block printed for a result's output: a line naming the repository,
/// then the output.
pub open spec fn output_section(r: GitResultView) -> Seq<char> {
    "\n--- "@ + r.repo_name + " ---\n"@ + r.stdout
}

/// The blocks printed for the results that have output, in order.
pub open spec fn output_sections_of(rs: Seq<GitResult>) -> Seq<Seq<char>>
    decreases rs.len(),
{
    if rs.len() == 0 {
        Seq::empty()
    } else if rs.last().stdout@.len() > 0 {
        output_sections_of(rs.drop_last()).push(output_section(rs.last()@))
    } else {
        output_sections_of(rs.drop_last())
    }
}

/// There is one block per result with output, in the order of the results,
/// whatever its output holds (one line or many), and none for a result
/// without output; each block is "\n--- <name> ---\n" followed by the whole
/// output.
pub proof fn law_output_sections(rs: Seq<GitResult>)
    ensures
        output_sections_of(rs) == rs.filter(|r: GitResult| r.stdout@.len() > 0).map_values(
            |r: GitResult| "\n--- "@ + r.repo_name@ + " ---\n"@ + r.stdout@,
        ),
    decreases rs.len(),
{
    reveal(Seq::filter);
    if rs.len() > 0 {
        law_output_sections(rs.drop_last());
        let f = |r: GitResult| r.stdout@.len() > 0;
        let g = |r: GitResult| "\n--- "@ + r.repo_name@ + " ---\n"@ + r.stdout@;
        if f(rs.last()) {
            assert(rs.filter(f) == rs.drop_last().filter(f).push(rs.last()));
            assert(rs.filter(f).map_values(g) =~= rs.drop_last().filter(f).map_values(g).push(g(rs.last())));
        } else {
            assert(rs.filter(f) == rs.drop_last().filter(f));
        }
    } else {
        let f = |r: GitResult| r.stdout@.len() > 0;
        let g = |r: GitResult| "\n--- "@ + r.repo_name@ + " ---\n"@ + r.stdout@;
        assert(rs.filter(f) =~= Seq::<GitResult>::empty());
        assert(rs.filter(f).map_values(g) =~= Seq::<Seq<char>>::empty());
    }
}

/// The text printed after the results: one block per result with output,
/// or nothing unless output is shown.
pub fn output_sections(opts: &GlobalOpts, results: &Vec<GitResult>) -> (sections: Vec<String>)
    ensures
        texts(sections@) == if output_shown(*opts) {
            output_sections_of(results@)
        } else {
            Seq::empty()
        },
{
    let mut sections: Vec<String> = Vec::new();
    if !shows_output(opts) {
        assert(texts(sections@) =~= Seq::<Seq<char>>::empty());
        return sections;
    }
    let mut i: usize = 0;
    while i < results.len()
        invariant
            i <= results@.len(),
            texts(sections@) == output_sections_of(results@.take(i as int)),
        decreases results@.len() - i,
    {
        let r = &results[i];
        assert(results@.take(i + 1).drop_last() =~= results@.take(i as int));
        if !r.stdout.as_str().is_empty() {
            let mut block = String::from_str("\n--- ");
            block.append(r.repo_name.as_str());
            block.append(" ---\n");
            block.append(r.stdout.as_str());
            let ghost before = sections@;
            sections.push(block);
            assert(texts(sections@) =~= texts(before).push(block@));
        }
        i = i + 1;
    }
    assert(results@.take(results@.len() as int) =~= results@);
    sections
}

} // verus!
