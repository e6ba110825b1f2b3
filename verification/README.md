# oxidize

A compiler front end for the Ferrum language, verified with Verus: the
lexer, the parser, the module tree of a project, the filling in of each
file's scopes from its `use` items and functions, and the generation of
Rust text from a Rust syntax tree.

Layout:

- `src/lexer`: characters to tokens, against the lexer's specification
  (`lexer/spec.rs`), given the classes std puts each character in; the
  tokens come in source order (`lexer/order.rs`).
- `src/parser`: tokens to a syntax tree, against the parser's
  specification (`parser/spec.rs`) over the tree's views (`parser/view.rs`),
  with laws of it in `parser/laws.rs`.
- `src/tree.rs`, `src/project`: the module tree of a project, built from
  its source files, against what building it gives (`project/spec.rs`).
- `src/scope`: scopes as sequences of named entries, `use` resolution, and
  the filling in of every file's exports and scope; `scope/laws.rs` holds
  what holds of them for every input.
- `src/generator`: Rust text for a Rust syntax tree.
- `src/target.rs`, `src/config.rs`: the build target (read by
  `target_lexicon`) and the build configuration.
- `app/`: reading sources from disk, writing the generated cargo project,
  and running cargo.
- `tests/`: scenarios run against the compiled library.
