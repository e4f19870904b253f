//! The pieces of generated code that the macros collect while they walk an
//! expression: compile-time checks, parameter bindings and format arguments.
//! Each piece names the input tokens it is made of by their positions.
use crate::expr::Value;
use vstd::prelude::*;

verus! {

/// What a column check does with the column.
#[derive(Debug, Clone, Copy, PartialEq, Eq, Structural)]
pub enum Access {
    /// Reads the field (`let _ = x.column;`).
    Field,
    /// Reads the field as a boolean (`let _ = bool::from(x.column);`).
    Bool,
}

/// A compile-time check emitted into the checking closure.
#[derive(Debug, Clone, Copy, PartialEq, Eq, Structural)]
pub enum Check {
    /// A column of the current table (its token index).
    Column(usize, Access),
    /// A column of a named table: the table path's token range and the column's index.
    TableColumn(usize, usize, usize, Access),
    /// The Rust expression in the token range must convert into `bool`.
    BoolVar(usize, usize),
    /// A literal in a boolean position that is not `true` or `false` (compile error).
    NotBoolLiteral(usize, usize),
    /// `IN` followed by a single value that is not a Rust expression (compile error).
    NotAList(Value),
    /// The assigned column of a `SET` item.
    SetColumn(usize),
    /// The Rust expression in the token range must convert into `i64` (a `LIMIT` value).
    IntoI64(usize, usize),
    /// The output type at the token range selects its columns with arguments.
    OutputWithArgs(usize, usize),
    /// The output type at the token range selects its columns without arguments.
    OutputNormal(usize, usize),
}

/// A parameter binding.
#[derive(Debug, Clone, Copy, PartialEq, Eq, Structural)]
pub enum Bind {
    /// A literal added to the driver's argument list.
    ArgLit(usize, usize),
    /// A Rust expression added to the driver's argument list.
    ArgVar(usize, usize),
    /// A literal bound on the query builder; the flag says whether an error context is attached.
    BuilderLit(usize, usize, bool),
    /// A Rust expression bound on the query builder.
    BuilderVar(usize, usize),
    /// The Rust expression of a `LIMIT` added to the driver's argument list.
    LimitArg(usize, usize),
}

/// An argument of the `format!` call that renders the SQL text.
#[derive(Debug, Clone, Copy, PartialEq, Eq, Structural)]
pub enum FormatParam {
    /// The name of the table at the token range; the flag says whether the name is
    /// taken from the table's implementation for the current driver.
    TableName(usize, usize, bool),
    /// The driver's placeholder for the parameter with this number.
    Placeholder(usize),
    /// An integer written directly into the SQL text.
    Literal(i64),
}

} // verus!
