# moc

The front end of the Mo compiler, as a verified library: source locations,
tokens and a lexer, a Pratt parser for expressions and a recursive-descent
parser for declarations, the syntax tree, the kinds of syntax elements of
`cstree`, and the data of semantic analysis.

- `src/` is the library, checked by Verus. Each parsing routine is stated
  against a model in `parser_spec.rs` (what it reads, builds and reports), and
  the lexer against `lexer_spec.rs`.
- `tests/` runs the library on concrete programs.
- `app/` is the command-line compiler: it reads a `.mo` file, compiles it with
  the library and prints the tokens, the syntax tree (as RON) and the errors.
