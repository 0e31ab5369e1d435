# codex_code_review

Continuous code review for a working tree: file analysis, style fixes,
linter output, AST metrics, an AI response cache, review sessions and the
decisions of the continuous-review loop. The library is written in Verus:
each public function states in `requires`/`ensures` what it does, and Verus
proves it.

## Layout

- `src/` — the verified library.
  - `text`, `time`, `paths`: character-level text operations, clock
    readings, the parts of file paths.
  - `config`, `analyzer`, `fixer`: configuration, the basic analysis and
    the fixes it leads to.
  - `ast_analyzer`, `enhanced_analyzer`: function-level analysis of parsed
    Rust, and the combination of AST, linter and AI results.
  - `ai_cache`, `ai_client`: the response cache, prompts and reply parsing.
  - `linters`: Clippy, ESLint, Pylint and generic linters: commands and the
    reading of their output.
  - `watcher`, `session` and the review-loop module: which file changes
    are reviewed, review sessions, and the steps of the loop.
  - `git_integration`, `test_generator`, `tools`, `cli`: commit messages and
    git output, generated tests, review tools, command decisions.
- `tests/` — tests of the library.
- `app/` — the runtime around it: files, processes, HTTP, file-system
  events, timers, the syn parse and the command line.
