# gitb

A multi-repository git batch tool. The library (`src/`) holds the decisions,
proved with Verus:

- `engine`: repositories, git results, global options; `engine::executor`
  holds the job count, header and skip texts, the stable sort of results by
  repository name, and the one-command step used by fetch and push.
- `commands::sync`: fetch, push, and pull as a step function from state and
  event to next state and action; `commands::pull_laws` proves what a whole
  pull does (stashes are restored, `--force` discards instead, dry runs run
  nothing, when the result is a success).
- `commands::exec`: the command line shown, the per-repository step, and the
  output printed in verbose mode.
- `text`: byte order of strings, first and last lines, joining.
- `cli`: the command line as plain data.

`app/` performs the steps: it parses the command line (clap), runs work in
parallel (rayon) with a progress bar (indicatif), prints, and calls git
through the `Git` and `Report` traits.
