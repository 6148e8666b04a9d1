//! Decisions of the parallel executor: how many jobs run, whether progress is
//! shown, what the headers say, and in which order results come back.

use vstd::prelude::*;
use crate::engine::{GitResult, GitResultView, GlobalOpts, OutputFormat, Repo, ok_view};
use crate::text::{bytes_lt, utf8_of, str_precedes, lemma_bytes_lt_total, lemma_bytes_le_transitive, join, joined, texts, repeat, repeated};

verus! {

broadcast use vstd::seq_lib::group_seq_lib_default, vstd::seq_lib::group_to_multiset_ensures;

/// The key by which results are ordered: the bytes of the repository name.
pub open spec fn name_key(r: GitResult) -> Seq<u8> {
    utf8_of(r.repo_name@)
}

/// Selects the results whose repository name has the given bytes.
pub open spec fn named(k: Seq<u8>) -> spec_fn(GitResult) -> bool {
    |r: GitResult| name_key(r) == k
}

/// Every result's repository name is no greater than that of any later result.
pub open spec fn sorted_by_name(s: Seq<GitResult>) -> bool {
    forall|i: int, j: int| 0 <= i < j < s.len() ==> !bytes_lt(name_key(s[j]), name_key(s[i]))
}

/// For every name, the results with that name appear in `a` in the same
/// order as in `b`.
pub open spec fn same_order_per_name(a: Seq<GitResult>, b: Seq<GitResult>) -> bool {
    forall|k: Seq<u8>| #[trigger] a.filter(named(k)) == b.filter(named(k))
}

proof fn lemma_filter_all_rejected(s: Seq<GitResult>, k: Seq<u8>)
    requires
        forall|j: int| 0 <= j < s.len() ==> name_key(#[trigger] s[j]) != k,
    ensures
        s.filter(named(k)) == Seq::<GitResult>::empty(),
{
    s.lemma_all_neg_filter_empty(named(k));
    assert(s.all(|x: GitResult| !named(k)(x)));
}

/// The first element of a nonempty sequence leads its selection by its own name.
proof fn lemma_filter_first(s: Seq<GitResult>)
    requires
        s.len() > 0,
    ensures
        s.filter(named(name_key(s[0]))).len() > 0,
        s.filter(named(name_key(s[0])))[0] == s[0],
        forall|k: Seq<u8>| #[trigger] s.filter(named(k)) == (if k == name_key(s[0]) {
            seq![s[0]] + s.drop_first().filter(named(k))
        } else {
            s.drop_first().filter(named(k))
        }),
{
    assert(s =~= seq![s[0]] + s.drop_first());
    assert forall|k: Seq<u8>| #[trigger] s.filter(named(k)) == (if k == name_key(s[0]) {
        seq![s[0]] + s.drop_first().filter(named(k))
    } else {
        s.drop_first().filter(named(k))
    }) by {
        s.drop_first().lemma_filter_prepend(s[0], named(k));
        assert(Seq::<GitResult>::empty() + s.drop_first().filter(named(k)) =~= s.drop_first().filter(named(k)));
    }
    s.drop_first().lemma_filter_prepend(s[0], named(name_key(s[0])));
}

/// In a sequence sorted by name, no element's name comes before the first one's.
proof fn lemma_sorted_first_least(s: Seq<GitResult>, k: Seq<u8>)
    requires
        sorted_by_name(s),
        s.filter(named(k)).len() > 0,
    ensures
        s.len() > 0,
        !bytes_lt(k, name_key(s[0])),
{
    let x = s.filter(named(k))[0];
    s.lemma_filter_pred(named(k), 0);
    assert(s.filter(named(k)).contains(x));
    s.lemma_filter_contains_rev(named(k), x);
    let j = choose|j: int| 0 <= j < s.len() && s[j] == x;
    if j == 0 {
        crate::text::lemma_bytes_lt_irreflexive(k);
    }
}

/// There is only one way to order results by name while keeping, for every
/// name, the order of the results with that name: two sequences sorted by
/// name that agree on every name's results are equal. So sorting is
/// deterministic: the result depends only on the input, never on the order
/// in which the results were produced.
pub proof fn law_sorted_by_name_unique(a: Seq<GitResult>, b: Seq<GitResult>)
    requires
        sorted_by_name(a),
        sorted_by_name(b),
        same_order_per_name(a, b),
    ensures
        a == b,
    decreases a.len(),
{
    if a.len() == 0 {
        if b.len() > 0 {
            lemma_filter_first(b);
            assert(a.filter(named(name_key(b[0]))).len() == 0) by {
                reveal_with_fuel(Seq::filter, 1);
            }
            assert(a.filter(named(name_key(b[0]))) == b.filter(named(name_key(b[0]))));
        }
        assert(a =~= b);
    } else {
        let ka = name_key(a[0]);
        lemma_filter_first(a);
        assert(a.filter(named(ka)) == b.filter(named(ka)));
        lemma_sorted_first_least(b, ka);
        let kb = name_key(b[0]);
        lemma_filter_first(b);
        assert(a.filter(named(kb)) == b.filter(named(kb)));
        lemma_sorted_first_least(a, kb);
        lemma_bytes_lt_total(ka, kb);
        assert(ka == kb);
        assert(a[0] == b[0]);
        let a2 = a.drop_first();
        let b2 = b.drop_first();
        assert forall|k: Seq<u8>| #[trigger] a2.filter(named(k)) == b2.filter(named(k)) by {
            assert(a.filter(named(k)) == b.filter(named(k)));
            if k == ka {
                assert(a2.filter(named(k)) =~= a.filter(named(k)).drop_first());
                assert(b2.filter(named(k)) =~= b.filter(named(k)).drop_first());
            }
        }
        assert forall|i: int, j: int| 0 <= i < j < a2.len() implies !bytes_lt(name_key(a2[j]), name_key(a2[i])) by {
            assert(a2[i] == a[i + 1] && a2[j] == a[j + 1]);
        }
        assert forall|i: int, j: int| 0 <= i < j < b2.len() implies !bytes_lt(name_key(b2[j]), name_key(b2[i])) by {
            assert(b2[i] == b[i + 1] && b2[j] == b[j + 1]);
        }
        law_sorted_by_name_unique(a2, b2);
        assert(a =~= seq![a[0]] + a2);
        assert(b =~= seq![b[0]] + b2);
    }
}

/// Results sorted by name come in ascending byte order of their names: when
/// an earlier and a later name first differ at byte `k`, the earlier one has
/// the smaller byte there; and a name never comes after a longer name it is
/// a prefix of.
pub proof fn law_sorted_names_ascend(s: Seq<GitResult>, i: int, j: int, k: int)
    requires
        sorted_by_name(s),
        0 <= i < j < s.len(),
        0 <= k,
        forall|m: int| 0 <= m < k && m < name_key(s[i]).len() && m < name_key(s[j]).len()
            ==> name_key(s[i])[m] == name_key(s[j])[m],
    ensures
        k < name_key(s[i]).len() && k < name_key(s[j]).len() && name_key(s[i])[k] != name_key(s[j])[k]
            ==> name_key(s[i])[k] < name_key(s[j])[k],
        k == name_key(s[j]).len() && name_key(s[j]).len() < name_key(s[i]).len() ==> false,
{
    let a = name_key(s[j]);
    let b = name_key(s[i]);
    assert forall|m: int| 0 <= m < k && m < a.len() && m < b.len() implies a[m] == b[m] by {}
    crate::text::law_bytes_lt_first_difference(a, b, k);
}

/// Sorting results by name is deterministic: any two outcomes that meet the
/// contract of `sort_by_repo_name` for the same input are equal.
pub proof fn law_sort_by_repo_name_deterministic(input: Seq<GitResult>, a: Seq<GitResult>, b: Seq<GitResult>)
    requires
        sorted_by_name(a),
        same_order_per_name(a, input),
        sorted_by_name(b),
        same_order_per_name(b, input),
    ensures
        a == b,
{
    assert forall|k: Seq<u8>| #[trigger] a.filter(named(k)) == b.filter(named(k)) by {
        assert(a.filter(named(k)) == input.filter(named(k)));
        assert(b.filter(named(k)) == input.filter(named(k)));
    }
    law_sorted_by_name_unique(a, b);
}

/// Sorts results by repository name, keeping results with equal names in
/// the order in which they came (a stable sort by name).
pub fn sort_by_repo_name(results: Vec<GitResult>) -> (sorted: Vec<GitResult>)
    ensures
        sorted_by_name(sorted@),
        same_order_per_name(sorted@, results@),
        sorted@.to_multiset() == results@.to_multiset(),
{
    let ghost input = results@;
    let mut rest = results;
    let mut out: Vec<GitResult> = Vec::new();
    proof {
        assert(input.skip(input.len() as int) =~= Seq::<GitResult>::empty());
        assert forall|k: Seq<u8>| #[trigger] out@.filter(named(k)) == input.skip(input.len() as int).filter(named(k)) by {
            reveal_with_fuel(Seq::filter, 1);
        }
    }
    while rest.len() > 0
        invariant
            rest@ == input.take(rest@.len() as int),
            rest@.len() <= input.len(),
            sorted_by_name(out@),
            same_order_per_name(out@, input.skip(rest@.len() as int)),
            out@.to_multiset() == input.skip(rest@.len() as int).to_multiset(),
        decreases rest@.len(),
    {
        let ghost n = rest@.len() as int;
        let x = rest.pop().unwrap();
        assert(x == input[n - 1]);
        assert(rest@ =~= input.take(n - 1));
        assert(input.skip(n - 1) =~= seq![x] + input.skip(n));
        let mut p: usize = 0;
        while p < out.len() && str_precedes(out[p].repo_name.as_str(), x.repo_name.as_str())
            invariant
                p <= out@.len(),
                forall|j: int| 0 <= j < p ==> bytes_lt(name_key(#[trigger] out@[j]), name_key(x)),
            decreases out@.len() - p,
        {
            p = p + 1;
        }
        let ghost old_out = out@;
        proof {
            assert forall|j: int| 0 <= j < p implies name_key(#[trigger] old_out[j]) != name_key(x) by {
                crate::text::lemma_bytes_lt_irreflexive(name_key(x));
            }
            assert forall|j: int| p <= j < old_out.len() implies
                !bytes_lt(name_key(#[trigger] old_out[j]), name_key(x)) by {
                if j > p {
                    lemma_bytes_le_transitive(name_key(x), name_key(old_out[p as int]), name_key(old_out[j]));
                }
            }
            assert(seq![x] + input.skip(n) =~= input.skip(n).insert(0, x));
            vstd::seq_lib::to_multiset_insert(input.skip(n), 0, x);
            vstd::seq_lib::to_multiset_insert(old_out, p as int, x);
        }
        out.insert(p, x);
        proof {
            let pre = old_out.take(p as int);
            let post = old_out.skip(p as int);
            assert(old_out =~= pre + post);
            assert(out@ =~= pre + seq![x] + post);
            assert forall|i: int, j: int| 0 <= i < j < out@.len() implies
                !bytes_lt(name_key(out@[j]), name_key(out@[i])) by {
                if j == p {
                    lemma_bytes_lt_total(name_key(out@[i]), name_key(x));
                } else if i == p {
                } else {
                }
            }
            assert forall|k: Seq<u8>| #[trigger] out@.filter(named(k)) == input.skip(n - 1).filter(named(k)) by {
                let f = named(k);
                input.skip(n).lemma_filter_prepend(x, f);
                Seq::filter_distributes_over_add(pre + seq![x], post, f);
                Seq::filter_distributes_over_add(pre, seq![x], f);
                Seq::filter_distributes_over_add(pre, post, f);
                assert(seq![x] =~= seq![x] + Seq::<GitResult>::empty());
                Seq::<GitResult>::empty().lemma_filter_prepend(x, f);
                assert(Seq::<GitResult>::empty().filter(f) =~= Seq::<GitResult>::empty()) by {
                    reveal_with_fuel(Seq::filter, 1);
                }
                assert(old_out.filter(f) == input.skip(n).filter(f));
                if name_key(x) == k {
                    lemma_filter_all_rejected(pre, k);
                    assert(out@.filter(f) =~= seq![x] + post.filter(f));
                    assert(old_out.filter(f) =~= post.filter(f));
                } else {
                    assert(out@.filter(f) =~= pre.filter(f) + post.filter(f));
                }
            }
        }
    }
    assert(input.skip(0) =~= input);
    out
}

/// Number of parallel jobs: the option when it is set, otherwise the number
/// of CPUs the machine reports, or 4 when it reports none.
pub fn job_count(opts: &GlobalOpts, available_cpus: Option<usize>) -> (n: usize)
    ensures
        n == if opts.jobs == 0 {
            match available_cpus {
                Some(c) => c,
                None => 4,
            }
        } else {
            opts.jobs
        },
{
    if opts.jobs == 0 {
        match available_cpus {
            Some(c) => c,
            None => 4,
        }
    } else {
        opts.jobs
    }
}

/// Whether headers and progress are shown: not in quiet mode, not for JSON output.
pub open spec fn chatty(opts: GlobalOpts) -> bool {
    !opts.quiet && opts.output != OutputFormat::Json
}

/// Headers, the list of skipped directories and the progress bar are shown
/// exactly when quiet mode is off and the output format is not JSON; no
/// other option (verbose, dry run, force, jobs, depth, skip) matters.
pub proof fn law_chatty(opts: GlobalOpts)
    ensures
        chatty(opts) <==> (!opts.quiet && opts.output != OutputFormat::Json),
{
}

/// Whether a progress bar is shown while the repositories are processed.
pub fn shows_progress(opts: &GlobalOpts) -> (r: bool)
    ensures
        r == chatty(*opts),
{
    !(opts.quiet || opts.output == OutputFormat::Json)
}

/// The lines printed above an operation: the title (marked when nothing is
/// executed), then a rule of `=` twelve longer than the title; none in quiet
/// mode or for JSON output.
pub fn header_lines(opts: &GlobalOpts, title: &str) -> (lines: Vec<String>)
    requires
        title@.len() + 12 <= usize::MAX,
    ensures
        !chatty(*opts) ==> lines@.len() == 0,
        chatty(*opts) ==> {
            &&& lines@.len() == 2
            &&& lines@[0]@ == "\n"@ + title@ + (if opts.dry_run { " [DRY-RUN]"@ } else { Seq::empty() })
            &&& lines@[1]@ == repeated('=', (title@.len() + 12) as nat)
        },
{
    let mut lines: Vec<String> = Vec::new();
    if opts.quiet || opts.output == OutputFormat::Json {
        return lines;
    }
    let mut first = String::from_str("\n");
    first.append(title);
    if opts.dry_run {
        first.append(" [DRY-RUN]");
    }
    proof {
        reveal_strlit("=");
    }
    let rule = repeat("=", title.unicode_len() + 12);
    lines.push(first);
    lines.push(rule);
    assert(opts.dry_run || first@ =~= "\n"@ + title@ + Seq::<char>::empty());
    lines
}

/// The lines printed to list the skipped directories: the names joined with
/// ", ", then an empty line; none when nothing is skipped, in quiet mode or
/// for JSON output.
pub fn skip_info_lines(opts: &GlobalOpts, skip: &Vec<String>) -> (lines: Vec<String>)
    ensures
        (skip@.len() == 0 || !chatty(*opts)) ==> lines@.len() == 0,
        (skip@.len() > 0 && chatty(*opts)) ==> {
            &&& lines@.len() == 2
            &&& lines@[0]@ == "[SKIP] Directories: "@ + joined(texts(skip@), ", "@)
            &&& lines@[1]@ == Seq::<char>::empty()
        },
{
    let mut lines: Vec<String> = Vec::new();
    if skip.len() == 0 || opts.quiet || opts.output == OutputFormat::Json {
        return lines;
    }
    let mut first = String::from_str("[SKIP] Directories: ");
    let names = join(skip, ", ");
    first.append(names.as_str());
    lines.push(first);
    lines.push(String::new());
    lines
}

/// What to do next for one repository: run git with the given arguments,
/// or report the final result.
pub enum GitStep {
    Run(Vec<String>),
    Finished(GitResult),
}

/// What a `GitStep` denotes.
pub enum GitStepView {
    Run(Seq<Seq<char>>),
    Finished(GitResultView),
}

impl View for GitStep {
    type V = GitStepView;

    open spec fn view(&self) -> GitStepView {
        match self {
            GitStep::Run(args) => GitStepView::Run(texts(args@)),
            GitStep::Finished(r) => GitStepView::Finished(r@),
        }
    }
}

/// The result with its message replaced.
pub open spec fn with_message(r: GitResultView, message: Seq<char>) -> GitResultView {
    GitResultView { message, ..r }
}

/// The view of an optional result.
pub open spec fn opt_view(r: Option<GitResult>) -> Option<GitResultView> {
    match r {
        Some(x) => Some(x@),
        None => None,
    }
}

/// The texts of a list of string slices.
pub open spec fn str_texts(v: Seq<&str>) -> Seq<Seq<char>> {
    v.map_values(|s: &str| s@)
}

/// The result reported when nothing is executed.
pub open spec fn dry_run_view(repo_name: Seq<char>, what: Seq<char>) -> GitResultView {
    ok_view(repo_name, "[DRY-RUN] "@ + what)
}

/// One git command on one repository. In dry-run mode the result says what
/// would have run; otherwise git runs with `args`, and a successful outcome
/// gets `success_msg` as its message while a failed one is reported as it came.
pub open spec fn git_on_repo_step(
    repo_name: Seq<char>,
    dry_run: bool,
    args: Seq<Seq<char>>,
    success_msg: Seq<char>,
    dry_run_msg: Seq<char>,
    outcome: Option<GitResultView>,
) -> GitStepView {
    if dry_run {
        GitStepView::Finished(dry_run_view(repo_name, dry_run_msg))
    } else {
        match outcome {
            None => GitStepView::Run(args),
            Some(r) => GitStepView::Finished(
                if r.success {
                    GitResultView { message: success_msg, ..r }
                } else {
                    r
                },
            ),
        }
    }
}

/// Copies a list of string slices into owned strings.
fn owned_args(args: &[&str]) -> (v: Vec<String>)
    ensures
        texts(v@) == str_texts(args@),
{
    let mut v: Vec<String> = Vec::new();
    let mut i: usize = 0;
    while i < args.len()
        invariant
            i <= args@.len(),
            v@.len() == i,
            texts(v@) == str_texts(args@).take(i as int),
        decreases args@.len() - i,
    {
        let a: &str = args[i];
        let ghost old_v = v@;
        v.push(String::from_str(a));
        assert(v@[i as int]@ == args@[i as int]@);
        assert forall|j: int| 0 <= j < i implies v@[j]@ == args@[j]@ by {
            assert(v@[j] == old_v[j]);
            assert(texts(old_v)[j] == str_texts(args@).take(i as int)[j]);
        }
        assert(texts(v@) =~= str_texts(args@).take(i + 1));
        i = i + 1;
    }
    assert(str_texts(args@).take(args@.len() as int) =~= str_texts(args@));
    v
}

/// A dry-run report is a success with exit code 0, no output, the
/// repository's name, and the message "[DRY-RUN] " followed by what would
/// have run; replacing a result's message keeps every other field.
pub proof fn law_report_builders(repo_name: Seq<char>, what: Seq<char>, r: GitResultView, message: Seq<char>)
    ensures
        dry_run_view(repo_name, what).success,
        dry_run_view(repo_name, what).exit_code == 0,
        dry_run_view(repo_name, what).repo_name == repo_name,
        dry_run_view(repo_name, what).stdout.len() == 0 && dry_run_view(repo_name, what).stderr.len() == 0,
        dry_run_view(repo_name, what).message == "[DRY-RUN] "@ + what,
        with_message(r, message).message == message,
        with_message(r, message).repo_name == r.repo_name && with_message(r, message).success == r.success,
        with_message(r, message).exit_code == r.exit_code,
        with_message(r, message).stdout == r.stdout && with_message(r, message).stderr == r.stderr,
{
}

/// In dry-run mode git never runs, whatever outcome is offered: the step
/// reports "[DRY-RUN] <what would run>" as a success.
pub proof fn law_git_step_dry_run(
    repo_name: Seq<char>,
    args: Seq<Seq<char>>,
    success_msg: Seq<char>,
    dry_run_msg: Seq<char>,
    outcome: Option<GitResultView>,
)
    ensures
        git_on_repo_step(repo_name, true, args, success_msg, dry_run_msg, outcome)
            == GitStepView::Finished(dry_run_view(repo_name, dry_run_msg)),
{
}

/// Outside dry-run mode git runs exactly once: the first step runs it with
/// the given arguments, and the step after that reports, keeping everything
/// of the outcome but (on success) its message.
pub proof fn law_git_step_runs_once(
    repo_name: Seq<char>,
    args: Seq<Seq<char>>,
    success_msg: Seq<char>,
    dry_run_msg: Seq<char>,
    outcome: GitResultView,
)
    ensures
        git_on_repo_step(repo_name, false, args, success_msg, dry_run_msg, None) == GitStepView::Run(args),
        git_on_repo_step(repo_name, false, args, success_msg, dry_run_msg, Some(outcome))
            == GitStepView::Finished(with_message(outcome, if outcome.success { success_msg } else { outcome.message })),
{
}

/// Decides the next step of a git command on a repository; `outcome` is the
/// result of running git, once it has run.
pub fn exec_git_on_repo(
    repo: &Repo,
    opts: &GlobalOpts,
    args: &[&str],
    success_msg: &str,
    dry_run_msg: &str,
    outcome: Option<GitResult>,
) -> (step: GitStep)
    ensures
        step@ == git_on_repo_step(repo.name@, opts.dry_run, str_texts(args@), success_msg@, dry_run_msg@, opt_view(outcome)),
{
    if opts.dry_run {
        let mut message = String::from_str("[DRY-RUN] ");
        message.append(dry_run_msg);
        return GitStep::Finished(GitResult::ok(repo.name.as_str(), message.as_str()));
    }
    match outcome {
        None => GitStep::Run(owned_args(args)),
        Some(result) => {
            if result.success {
                GitStep::Finished(GitResult { message: success_msg.to_owned(), ..result })
            } else {
                GitStep::Finished(result)
            }
        },
    }
}

} // verus!
