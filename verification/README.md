# sql_macros

The logic of the easy-sql procedural macros as a verified library.

- `src/` holds the library. Each macro's input is a sequence of tokens
  (`tokens::Tok`); the grammars (`expr`, `clauses`, `query`, `macro_input`,
  `table_join`, `sql_function`, `supports_fn`) are specified as spec functions
  and the parsers are proved to compute them. The renderings of a condition
  (`query_string` for `query!`, `runtime_expr` and `sql_expand` for `sql!`),
  the derives' checks (`table`, `output`, `derive_checks`), the choice of
  driver and the `sql_convenience` walk (`convenience`) carry exact contracts,
  and the laws that relate several functions are proof functions beside them.
  `query_text` builds the statements of `query!` (fixed start, the parts the
  generated code adds at run time, and the clauses as one format string with
  consecutively numbered parameters); `custom_select` holds the decisions of
  the `Output` derive about `#[sql(select = ...)]` fields and `select_args`
  the arguments (`{argN}`) those expressions use; `derive_text` the
  `SET` list of the `Update` derive, the columns and validity check of the
  `Insert` derive and the columns the `Output` derive reads back; `format_count`
  proves that a condition's `{}` placeholders match its format arguments.
- The answers of `syn` on the text of Rust types, paths and expressions are
  not stated: they depend on the lexer in use (the compiler's inside a macro,
  `proc-macro2`'s own elsewhere). Each parser that consults `syn` states the
  runs of Rust tokens its grammar hands over, in order; its result is the
  grammar's, or the refusal of one of those runs (`syntax::outcome`), so an
  input with no such run parses exactly as its grammar says. The decisions
  that depend on such an answer take it as an argument.
- `tests/` runs the library on tokens lexed by `proc-macro2`.
- `app/` converts the compiler's tokens into the library's and writes the
  library's results back out as Rust code.
