# savepoint

Savepoint watches a project. It runs a test command whenever a file of a given
type changes, and commits the changes whenever the tests pass again after they
failed. A session works on a branch `savepoint/<uuid>`; `savepoint finalize`
squashes its commits into one on the branch that the session was started from.

    savepoint start --filetype rs -- cargo test
    savepoint finalize --message "Add the parser"

Two files in the working directory outlive a run: `.checkpoint.start` names the
branch a session was started from, and `.checkpoint.error` is there while the
last test run failed. `--dryrun` makes no commits and switches no branches.

## Layout

- `src/` decides everything, and is verified with Verus. It talks to its
  surroundings in turns: it says what to show, asks for one thing to be done, and
  is resumed with the reply (`src/protocol.rs`, `src/turn.rs`). Each procedure
  has a state, a first turn, and a turn for each reply; the contracts say exactly
  which (`src/session.rs` is the way in).
- `src/laws/` holds what is proved of whole conversations: in which order things
  are asked for, when the tests' changes are committed, what a dry run leaves
  alone, what the two files tell the next run.
- `app/` is the program around it: arguments, terminal, processes, files, the
  watcher and the interrupt.
- `tests/` runs the library against a small world of a repository.

## What is taken on trust

`str::trim` and `String::from_utf8_lossy` (`src/text.rs`), `str::starts_with`
(`src/text.rs`), the coloring of log texts by `colored` (`src/console.rs`) and
the random ids of `uuid` (`src/git.rs`).
