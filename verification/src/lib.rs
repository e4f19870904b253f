//! The logic of the easy-sql procedural macros, verified: the grammars of
//! `sql!`, `query!`, `table_join!`, `custom_sql_function!` and
//! `impl_supports_fn!`, the rendering of SQL conditions into query text and
//! runtime trees, and the checks and decisions of the derives and of the
//! `sql_convenience` attribute.
//!
//! The macros' input arrives as a sequence of [`tokens::Tok`]; results name
//! input tokens by their positions, so that the code around the library can
//! write them back out.
pub mod tokens;
pub mod expr;
pub mod generated;
pub mod query_string;
pub mod runtime_expr;
pub mod int_lit;
pub mod clauses;
pub mod builtin_functions;
pub mod sql_function;
pub mod ty_data;
pub mod syntax;
pub mod query;
pub mod macro_input;
pub mod table_join;
pub mod sql_expand;
pub mod table;
pub mod convenience;
pub mod query_plan;
pub mod query_text;
pub mod format_count;
pub mod output;
pub mod custom_select;
pub mod select_args;
pub mod derive_checks;
pub mod derive_text;
pub mod supports_fn;
