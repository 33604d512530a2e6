# agnoshi

The interpreter core of the Agnoshi natural-language shell, verified with Verus.
A line of natural language is read into a request (`Intent`), and each request is
translated into the shell command or MCP tool call that answers it, with the
privilege it needs and an explanation.

## Layout

- `src/parse/` reads requests out of what the interpreter's named patterns matched
  (`PatternMatches`): `platforms.rs` and `creative.rs`, over the field readers of
  `captures.rs`.
- `src/translate/` holds one translator per family of requests. Each states, as a
  spec function, the exact translation or refusal it gives.
- `src/explain.rs` says in one sentence what a well-known command does.
- `src/checkpoint.rs` records destructive operations so that the latest can be undone.
- `src/json.rs` carries `serde_json` objects, `src/text.rs` and `src/shell.rs` hold
  string helpers and what makes text safe to hand to a shell.
- `app/` does what the library leaves to its caller: the file system work of
  checkpoints, serde forms, and decimal fractions.
- `tests/` runs the library on concrete requests.
