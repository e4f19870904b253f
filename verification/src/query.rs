//! The grammar of the `query!` macro:
//!
//! ```text
//! SELECT [DISTINCT] Output[(args)] FROM Table [WHERE ..] [GROUP BY ..] [HAVING ..] [ORDER BY ..] [LIMIT ..]
//! INSERT INTO Table VALUES {data} [RETURNING Output[(args)]]
//! UPDATE Table SET {data} | SET column = expr, .. [WHERE ..] [RETURNING Output[(args)]]
//! DELETE FROM Table [WHERE ..] [RETURNING Output[(args)]]
//! EXISTS Table [WHERE ..] [GROUP BY ..] [HAVING ..] [ORDER BY ..] [LIMIT ..]
//! ```
//!
//! The clauses after the table may come in any order, each at most once.
use crate::clauses;
use crate::clauses::{ColumnList, Limit, OrderBy, OrderByList, SetExpr, SetList};
use crate::expr;
use crate::expr::{Column, Expr};
use crate::syntax;
use crate::syntax::Run;
use crate::syntax::{parse_braced_expr, parse_rust, RustSyntax, Span, Stop};
use crate::tokens;
use crate::tokens::{exec_group_close, exec_peek_group, exec_peek_kw, exec_peek_p1, make_err, Delim, Kw, ParseError, ParseErrorKind, Tok};
use vstd::prelude::*;

verus! {

broadcast use syntax::group_refused;

/// Expressions separated by commas.
#[derive(Debug, PartialEq, Eq)]
pub enum ExprList {
    Nil,
    Cons(Expr, Box<ExprList>),
}

/// The output type of a query and the arguments given to it in parentheses.
#[derive(Debug, PartialEq, Eq)]
pub struct ReturningData {
    pub output_type: Span,
    pub output_args: Option<ExprList>,
}

/// `SELECT [DISTINCT] Output FROM Table ...`
#[derive(Debug, PartialEq, Eq)]
pub struct SelectQuery {
    pub output: ReturningData,
    pub table_type: Span,
    pub where_clause: Option<Expr>,
    pub order_by: Option<OrderByList>,
    pub group_by: Option<ColumnList>,
    pub having: Option<Expr>,
    pub limit: Option<Limit>,
    pub distinct: bool,
}

/// `INSERT INTO Table VALUES {data} [RETURNING Output]`
#[derive(Debug, PartialEq, Eq)]
pub struct InsertQuery {
    pub table_type: Span,
    pub values: Span,
    pub returning: Option<ReturningData>,
}

/// What follows `SET` in an update: a Rust expression in braces, or assignments.
#[derive(Debug, PartialEq, Eq)]
pub enum SetClause {
    FromType(Span),
    Expr(SetExpr),
}

/// `UPDATE Table SET ... [WHERE ..] [RETURNING Output]`
#[derive(Debug, PartialEq, Eq)]
pub struct UpdateQuery {
    pub table_type: Span,
    pub set_clause: SetClause,
    pub where_clause: Option<Expr>,
    pub returning: Option<ReturningData>,
}

/// `DELETE FROM Table [WHERE ..] [RETURNING Output]`
#[derive(Debug, PartialEq, Eq)]
pub struct DeleteQuery {
    pub table_type: Span,
    pub where_clause: Option<Expr>,
    pub returning: Option<ReturningData>,
}

/// `EXISTS Table [WHERE ..] [GROUP BY ..] [HAVING ..] [ORDER BY ..] [LIMIT ..]`
#[derive(Debug, PartialEq, Eq)]
pub struct ExistsQuery {
    pub table_type: Span,
    pub where_clause: Option<Expr>,
    pub group_by: Option<ColumnList>,
    pub having: Option<Expr>,
    pub order_by: Option<OrderByList>,
    pub limit: Option<Limit>,
}

/// The five kinds of query.
#[derive(Debug, PartialEq, Eq)]
pub enum QueryType {
    Select(SelectQuery),
    Insert(InsertQuery),
    Update(UpdateQuery),
    Delete(DeleteQuery),
    Exists(ExistsQuery),
}

/// The clauses that may follow the table of a select or an exists query.
#[derive(Debug, PartialEq, Eq)]
pub struct QueryClauses {
    pub where_clause: Option<Expr>,
    pub order_by: Option<OrderByList>,
    pub group_by: Option<ColumnList>,
    pub having: Option<Expr>,
    pub limit: Option<Limit>,
}

/// The clauses that may follow an update's `SET` or a delete's table.
#[derive(Debug, PartialEq, Eq)]
pub struct ChangeClauses {
    pub where_clause: Option<Expr>,
    pub returning: Option<ReturningData>,
}

/// Expressions separated by commas filling the whole range; a trailing comma is allowed.
pub open spec fn parse_args_spec(s: Seq<Tok>, pos: usize, end: usize) -> Result<ExprList, ParseError>
    decreases end - pos,
{
    if pos >= end {
        Ok(ExprList::Nil)
    } else {
        match expr::parse_expr_spec(s, pos, end) {
            Err(e) => Err(e),
            Ok((e, p)) => if !expr::advances(pos, p, end) {
                Err(tokens::perr(p, ParseErrorKind::Unexpected))
            } else if tokens::peek_p1(s, p, end, ',') {
                match parse_args_spec(s, (p + 1) as usize, end) {
                    Err(x) => Err(x),
                    Ok(rest) => Ok(ExprList::Cons(e, Box::new(rest))),
                }
            } else if p == end {
                Ok(ExprList::Cons(e, Box::new(ExprList::Nil)))
            } else {
                Err(tokens::perr(p, ParseErrorKind::TrailingTokens))
            },
        }
    }
}

/// An output type, then its arguments if a parenthesized group follows.
pub open spec fn parse_returning_spec(s: Seq<Tok>, pos: usize, end: usize) -> Result<
    (ReturningData, usize),
    ParseError,
> {
    match syntax::parse_rust_spec(s, pos, end, RustSyntax::Type, Stop::QueryKeywordOrArgs) {
        Err(e) => Err(e),
        Ok((t, p)) => if tokens::peek_group(s, p, end, Delim::Paren) {
            match tokens::group_close(s, p, end) {
                None => Err(tokens::perr(p, ParseErrorKind::UnbalancedGroup)),
                Some(c) => match parse_args_spec(s, (p + 1) as usize, c) {
                    Err(e) => Err(e),
                    Ok(args) => Ok((ReturningData { output_type: t, output_args: Some(args) }, (c + 1) as usize)),
                },
            }
        } else {
            Ok((ReturningData { output_type: t, output_args: None }, p))
        },
    }
}

/// `ORDER BY` items of a query: at least one, a comma always followed by another.
pub open spec fn parse_order_items_spec(s: Seq<Tok>, pos: usize, end: usize) -> Result<
    (OrderByList, usize),
    ParseError,
>
    decreases end - pos,
{
    match clauses::parse_order_by_spec(s, pos, end) {
        Err(e) => Err(e),
        Ok((o, p)) => if !expr::advances(pos, p, end) {
            Err(tokens::perr(p, ParseErrorKind::Unexpected))
        } else if tokens::peek_p1(s, p, end, ',') {
            match parse_order_items_spec(s, (p + 1) as usize, end) {
                Err(e) => Err(e),
                Ok((rest, q)) => Ok((OrderByList::Cons(o, Box::new(rest)), q)),
            }
        } else {
            Ok((OrderByList::Cons(o, Box::new(OrderByList::Nil)), p))
        },
    }
}

/// `GROUP BY` columns of a query: at least one, a comma always followed by another.
pub open spec fn parse_column_items_spec(s: Seq<Tok>, pos: usize, end: usize) -> Result<
    (ColumnList, usize),
    ParseError,
>
    decreases end - pos,
{
    match expr::parse_column_spec(s, pos, end) {
        Err(e) => Err(e),
        Ok((c, p)) => if !expr::advances(pos, p, end) {
            Err(tokens::perr(p, ParseErrorKind::Unexpected))
        } else if tokens::peek_p1(s, p, end, ',') {
            match parse_column_items_spec(s, (p + 1) as usize, end) {
                Err(e) => Err(e),
                Ok((rest, q)) => Ok((ColumnList::Cons(c, Box::new(rest)), q)),
            }
        } else {
            Ok((ColumnList::Cons(c, Box::new(ColumnList::Nil)), p))
        },
    }
}

pub open spec fn no_query_clauses() -> QueryClauses {
    QueryClauses { where_clause: None, order_by: None, group_by: None, having: None, limit: None }
}

/// Reads select clauses until the end of the range, `acc` holding those read so far.
pub open spec fn parse_query_clauses_spec(s: Seq<Tok>, pos: usize, end: usize, acc: QueryClauses) -> Result<
    QueryClauses,
    ParseError,
>
    decreases end - pos,
{
    let p1 = (pos + 1) as usize;
    let p2 = (pos + 2) as usize;
    if pos >= end {
        Ok(acc)
    } else if acc.where_clause is None && tokens::peek_kw(s, pos, end, Kw::Where) {
        match expr::parse_expr_spec(s, p1, end) {
            Err(e) => Err(e),
            Ok((e, p)) => if !expr::advances(pos, p, end) {
                Err(tokens::perr(p, ParseErrorKind::Unexpected))
            } else {
                parse_query_clauses_spec(s, p, end, QueryClauses { where_clause: Some(e), ..acc })
            },
        }
    } else if acc.order_by is None && tokens::peek_kw(s, pos, end, Kw::Order) {
        if !tokens::peek_kw(s, p1, end, Kw::By) {
            Err(tokens::perr(p1, ParseErrorKind::ExpectedKeyword))
        } else {
            match parse_order_items_spec(s, p2, end) {
                Err(e) => Err(e),
                Ok((l, p)) => if !expr::advances(pos, p, end) {
                    Err(tokens::perr(p, ParseErrorKind::Unexpected))
                } else {
                    parse_query_clauses_spec(s, p, end, QueryClauses { order_by: Some(l), ..acc })
                },
            }
        }
    } else if acc.group_by is None && tokens::peek_kw(s, pos, end, Kw::Group) {
        if !tokens::peek_kw(s, p1, end, Kw::By) {
            Err(tokens::perr(p1, ParseErrorKind::ExpectedKeyword))
        } else {
            match parse_column_items_spec(s, p2, end) {
                Err(e) => Err(e),
                Ok((l, p)) => if !expr::advances(pos, p, end) {
                    Err(tokens::perr(p, ParseErrorKind::Unexpected))
                } else {
                    parse_query_clauses_spec(s, p, end, QueryClauses { group_by: Some(l), ..acc })
                },
            }
        }
    } else if acc.having is None && tokens::peek_kw(s, pos, end, Kw::Having) {
        match expr::parse_expr_spec(s, p1, end) {
            Err(e) => Err(e),
            Ok((e, p)) => if !expr::advances(pos, p, end) {
                Err(tokens::perr(p, ParseErrorKind::Unexpected))
            } else {
                parse_query_clauses_spec(s, p, end, QueryClauses { having: Some(e), ..acc })
            },
        }
    } else if acc.limit is None && tokens::peek_kw(s, pos, end, Kw::Limit) {
        match clauses::parse_limit_spec(s, p1, end) {
            Err(e) => Err(e),
            Ok((l, p)) => if !expr::advances(pos, p, end) {
                Err(tokens::perr(p, ParseErrorKind::Unexpected))
            } else {
                parse_query_clauses_spec(s, p, end, QueryClauses { limit: Some(l), ..acc })
            },
        }
    } else {
        Err(tokens::perr(pos, ParseErrorKind::Unexpected))
    }
}

pub open spec fn no_change_clauses() -> ChangeClauses {
    ChangeClauses { where_clause: None, returning: None }
}

/// Reads `WHERE` and `RETURNING` clauses until the end of the range.
pub open spec fn parse_change_clauses_spec(s: Seq<Tok>, pos: usize, end: usize, acc: ChangeClauses) -> Result<
    ChangeClauses,
    ParseError,
>
    decreases end - pos,
{
    let p1 = (pos + 1) as usize;
    if pos >= end {
        Ok(acc)
    } else if acc.where_clause is None && tokens::peek_kw(s, pos, end, Kw::Where) {
        match expr::parse_expr_spec(s, p1, end) {
            Err(e) => Err(e),
            Ok((e, p)) => if !expr::advances(pos, p, end) {
                Err(tokens::perr(p, ParseErrorKind::Unexpected))
            } else {
                parse_change_clauses_spec(s, p, end, ChangeClauses { where_clause: Some(e), ..acc })
            },
        }
    } else if acc.returning is None && tokens::peek_kw(s, pos, end, Kw::Returning) {
        match parse_returning_spec(s, p1, end) {
            Err(e) => Err(e),
            Ok((r, p)) => if !expr::advances(pos, p, end) {
                Err(tokens::perr(p, ParseErrorKind::Unexpected))
            } else {
                parse_change_clauses_spec(s, p, end, ChangeClauses { returning: Some(r), ..acc })
            },
        }
    } else {
        Err(tokens::perr(pos, ParseErrorKind::Unexpected))
    }
}

/// `SELECT [DISTINCT] Output FROM Table clauses...`, up to the end of the range.
pub open spec fn parse_select_spec(s: Seq<Tok>, pos: usize, end: usize) -> Result<SelectQuery, ParseError> {
    let distinct = tokens::peek_kw(s, (pos + 1) as usize, end, Kw::Distinct);
    let out_pos = if distinct { (pos + 2) as usize } else { (pos + 1) as usize };
    if !tokens::peek_kw(s, pos, end, Kw::Select) {
        Err(tokens::perr(pos, ParseErrorKind::ExpectedKeyword))
    } else {
        match parse_returning_spec(s, out_pos, end) {
            Err(e) => Err(e),
            Ok((output, p)) => if !tokens::peek_kw(s, p, end, Kw::From) {
                Err(tokens::perr(p, ParseErrorKind::ExpectedKeyword))
            } else {
                match syntax::parse_rust_spec(s, (p + 1) as usize, end, RustSyntax::Type, Stop::QueryKeyword) {
                    Err(e) => Err(e),
                    Ok((t, q)) => match parse_query_clauses_spec(s, q, end, no_query_clauses()) {
                        Err(e) => Err(e),
                        Ok(c) => Ok(SelectQuery {
                            output,
                            table_type: t,
                            where_clause: c.where_clause,
                            order_by: c.order_by,
                            group_by: c.group_by,
                            having: c.having,
                            limit: c.limit,
                            distinct,
                        }),
                    },
                }
            },
        }
    }
}

/// `INSERT INTO Table VALUES {data} [RETURNING Output]`: the query and the position after it.
pub open spec fn parse_insert_spec(s: Seq<Tok>, pos: usize, end: usize) -> Result<(InsertQuery, usize), ParseError> {
    if !tokens::peek_kw(s, pos, end, Kw::Insert) {
        Err(tokens::perr(pos, ParseErrorKind::ExpectedKeyword))
    } else if !tokens::peek_kw(s, (pos + 1) as usize, end, Kw::Into) {
        Err(tokens::perr((pos + 1) as usize, ParseErrorKind::ExpectedKeyword))
    } else {
        match syntax::parse_rust_spec(s, (pos + 2) as usize, end, RustSyntax::Type, Stop::QueryKeyword) {
            Err(e) => Err(e),
            Ok((t, p)) => if !tokens::peek_kw(s, p, end, Kw::Values) {
                Err(tokens::perr(p, ParseErrorKind::ExpectedKeyword))
            } else {
                match syntax::parse_braced_expr_spec(s, (p + 1) as usize, end) {
                    Err(e) => Err(e),
                    Ok((v, q)) => if q >= end {
                        Ok((InsertQuery { table_type: t, values: v, returning: None }, q))
                    } else if tokens::peek_kw(s, q, end, Kw::Returning) {
                        match parse_returning_spec(s, (q + 1) as usize, end) {
                            Err(e) => Err(e),
                            Ok((r, k)) => Ok((InsertQuery { table_type: t, values: v, returning: Some(r) }, k)),
                        }
                    } else {
                        Err(tokens::perr(q, ParseErrorKind::Unexpected))
                    },
                }
            },
        }
    }
}

/// `UPDATE Table SET ... clauses...`, up to the end of the range.
/// The assignments of an update at `pos`: a braced value, or `column = expr` items.
pub open spec fn update_set_spec(s: Seq<Tok>, pos: usize, end: usize) -> Result<(SetClause, usize), ParseError> {
    if tokens::peek_group(s, pos, end, Delim::Brace) {
        match syntax::parse_braced_expr_spec(s, pos, end) {
            Err(e) => Err(e),
            Ok((v, q)) => Ok((SetClause::FromType(v), q)),
        }
    } else {
        match clauses::parse_set_list_spec(s, pos, end) {
            Err(e) => Err(e),
            Ok((l, q)) => Ok((SetClause::Expr(SetExpr { updates: l }), q)),
        }
    }
}

pub open spec fn parse_update_spec(s: Seq<Tok>, pos: usize, end: usize) -> Result<UpdateQuery, ParseError> {
    if !tokens::peek_kw(s, pos, end, Kw::Update) {
        Err(tokens::perr(pos, ParseErrorKind::ExpectedKeyword))
    } else {
        match syntax::parse_rust_spec(s, (pos + 1) as usize, end, RustSyntax::Type, Stop::QueryKeyword) {
            Err(e) => Err(e),
            Ok((t, p)) => if !tokens::peek_kw(s, p, end, Kw::SetKeyword) {
                Err(tokens::perr(p, ParseErrorKind::ExpectedKeyword))
            } else {
                match update_set_spec(s, (p + 1) as usize, end) {
                    Err(e) => Err(e),
                    Ok((set_clause, q)) => match parse_change_clauses_spec(s, q, end, no_change_clauses()) {
                        Err(e) => Err(e),
                        Ok(c) => Ok(UpdateQuery {
                            table_type: t,
                            set_clause,
                            where_clause: c.where_clause,
                            returning: c.returning,
                        }),
                    },
                }
            },
        }
    }
}

/// `DELETE FROM Table clauses...`, up to the end of the range.
pub open spec fn parse_delete_spec(s: Seq<Tok>, pos: usize, end: usize) -> Result<DeleteQuery, ParseError> {
    if !tokens::peek_kw(s, pos, end, Kw::Delete) {
        Err(tokens::perr(pos, ParseErrorKind::ExpectedKeyword))
    } else if !tokens::peek_kw(s, (pos + 1) as usize, end, Kw::From) {
        Err(tokens::perr((pos + 1) as usize, ParseErrorKind::ExpectedKeyword))
    } else {
        match syntax::parse_rust_spec(s, (pos + 2) as usize, end, RustSyntax::Type, Stop::QueryKeyword) {
            Err(e) => Err(e),
            Ok((t, p)) => match parse_change_clauses_spec(s, p, end, no_change_clauses()) {
                Err(e) => Err(e),
                Ok(c) => Ok(DeleteQuery { table_type: t, where_clause: c.where_clause, returning: c.returning }),
            },
        }
    }
}

/// `EXISTS Table clauses...`, up to the end of the range.
pub open spec fn parse_exists_spec(s: Seq<Tok>, pos: usize, end: usize) -> Result<ExistsQuery, ParseError> {
    if !tokens::peek_kw(s, pos, end, Kw::Exists) {
        Err(tokens::perr(pos, ParseErrorKind::ExpectedKeyword))
    } else {
        match syntax::parse_rust_spec(s, (pos + 1) as usize, end, RustSyntax::Type, Stop::QueryKeyword) {
            Err(e) => Err(e),
            Ok((t, p)) => match parse_query_clauses_spec(s, p, end, no_query_clauses()) {
                Err(e) => Err(e),
                Ok(c) => Ok(ExistsQuery {
                    table_type: t,
                    where_clause: c.where_clause,
                    group_by: c.group_by,
                    having: c.having,
                    order_by: c.order_by,
                    limit: c.limit,
                }),
            },
        }
    }
}

/// A whole query filling the range, chosen by its first keyword.
pub open spec fn parse_query_type_spec(s: Seq<Tok>, pos: usize, end: usize) -> Result<QueryType, ParseError> {
    if tokens::peek_kw(s, pos, end, Kw::Select) {
        match parse_select_spec(s, pos, end) {
            Err(e) => Err(e),
            Ok(q) => Ok(QueryType::Select(q)),
        }
    } else if tokens::peek_kw(s, pos, end, Kw::Insert) {
        match parse_insert_spec(s, pos, end) {
            Err(e) => Err(e),
            Ok((q, p)) => if p == end {
                Ok(QueryType::Insert(q))
            } else {
                Err(tokens::perr(p, ParseErrorKind::TrailingTokens))
            },
        }
    } else if tokens::peek_kw(s, pos, end, Kw::Update) {
        match parse_update_spec(s, pos, end) {
            Err(e) => Err(e),
            Ok(q) => Ok(QueryType::Update(q)),
        }
    } else if tokens::peek_kw(s, pos, end, Kw::Delete) {
        match parse_delete_spec(s, pos, end) {
            Err(e) => Err(e),
            Ok(q) => Ok(QueryType::Delete(q)),
        }
    } else if tokens::peek_kw(s, pos, end, Kw::Exists) {
        match parse_exists_spec(s, pos, end) {
            Err(e) => Err(e),
            Ok(q) => Ok(QueryType::Exists(q)),
        }
    } else {
        Err(tokens::perr(pos, ParseErrorKind::ExpectedKeyword))
    }
}

impl ExprList {
    /// Parses expressions separated by commas that fill `[pos, end)`.
    pub fn parse(toks: &Vec<Tok>, pos: usize, end: usize) -> (r: Result<ExprList, ParseError>)
        requires
            tokens::in_range(toks@, pos, end),
        ensures
            r == parse_args_spec(toks@, pos, end),
        decreases end - pos,
    {
        if pos >= end {
            return Ok(ExprList::Nil);
        }
        let (e, p) = Expr::parse(toks, pos, end)?;
        if exec_peek_p1(toks, p, end, ',') {
            let rest = ExprList::parse(toks, p + 1, end)?;
            Ok(ExprList::Cons(e, Box::new(rest)))
        } else if p == end {
            Ok(ExprList::Cons(e, Box::new(ExprList::Nil)))
        } else {
            Err(make_err(p, ParseErrorKind::TrailingTokens))
        }
    }
}

/// The run that parsing an output type hands to `syn`: the type.
pub open spec fn returning_runs(s: Seq<Tok>, pos: usize, end: usize) -> Seq<Run> {
    syntax::rust_runs(s, pos, end, RustSyntax::Type, Stop::QueryKeywordOrArgs)
}

/// The runs that reading a query's clauses from `pos` hands to `syn`: the
/// braced `LIMIT` value.
pub open spec fn query_clauses_runs(s: Seq<Tok>, pos: usize, end: usize, acc: QueryClauses) -> Seq<Run>
    decreases end - pos,
{
    let p1 = (pos + 1) as usize;
    let p2 = (pos + 2) as usize;
    if pos >= end {
        Seq::empty()
    } else if acc.where_clause is None && tokens::peek_kw(s, pos, end, Kw::Where) {
        match expr::parse_expr_spec(s, p1, end) {
            Err(_) => Seq::empty(),
            Ok((e, p)) => if !expr::advances(pos, p, end) {
                Seq::empty()
            } else {
                query_clauses_runs(s, p, end, QueryClauses { where_clause: Some(e), ..acc })
            },
        }
    } else if acc.order_by is None && tokens::peek_kw(s, pos, end, Kw::Order) {
        if !tokens::peek_kw(s, p1, end, Kw::By) {
            Seq::empty()
        } else {
            match parse_order_items_spec(s, p2, end) {
                Err(_) => Seq::empty(),
                Ok((l, p)) => if !expr::advances(pos, p, end) {
                    Seq::empty()
                } else {
                    query_clauses_runs(s, p, end, QueryClauses { order_by: Some(l), ..acc })
                },
            }
        }
    } else if acc.group_by is None && tokens::peek_kw(s, pos, end, Kw::Group) {
        if !tokens::peek_kw(s, p1, end, Kw::By) {
            Seq::empty()
        } else {
            match parse_column_items_spec(s, p2, end) {
                Err(_) => Seq::empty(),
                Ok((l, p)) => if !expr::advances(pos, p, end) {
                    Seq::empty()
                } else {
                    query_clauses_runs(s, p, end, QueryClauses { group_by: Some(l), ..acc })
                },
            }
        }
    } else if acc.having is None && tokens::peek_kw(s, pos, end, Kw::Having) {
        match expr::parse_expr_spec(s, p1, end) {
            Err(_) => Seq::empty(),
            Ok((e, p)) => if !expr::advances(pos, p, end) {
                Seq::empty()
            } else {
                query_clauses_runs(s, p, end, QueryClauses { having: Some(e), ..acc })
            },
        }
    } else if acc.limit is None && tokens::peek_kw(s, pos, end, Kw::Limit) {
        clauses::limit_runs(s, p1, end) + match clauses::parse_limit_spec(s, p1, end) {
            Err(_) => Seq::empty(),
            Ok((l, p)) => if !expr::advances(pos, p, end) {
                Seq::empty()
            } else {
                query_clauses_runs(s, p, end, QueryClauses { limit: Some(l), ..acc })
            },
        }
    } else {
        Seq::empty()
    }
}

/// The runs that reading `WHERE` and `RETURNING` from `pos` hands to `syn`:
/// the output type.
pub open spec fn change_clauses_runs(s: Seq<Tok>, pos: usize, end: usize, acc: ChangeClauses) -> Seq<Run>
    decreases end - pos,
{
    let p1 = (pos + 1) as usize;
    if pos >= end {
        Seq::empty()
    } else if acc.where_clause is None && tokens::peek_kw(s, pos, end, Kw::Where) {
        match expr::parse_expr_spec(s, p1, end) {
            Err(_) => Seq::empty(),
            Ok((e, p)) => if !expr::advances(pos, p, end) {
                Seq::empty()
            } else {
                change_clauses_runs(s, p, end, ChangeClauses { where_clause: Some(e), ..acc })
            },
        }
    } else if acc.returning is None && tokens::peek_kw(s, pos, end, Kw::Returning) {
        returning_runs(s, p1, end) + match parse_returning_spec(s, p1, end) {
            Err(_) => Seq::empty(),
            Ok((r, p)) => if !expr::advances(pos, p, end) {
                Seq::empty()
            } else {
                change_clauses_runs(s, p, end, ChangeClauses { returning: Some(r), ..acc })
            },
        }
    } else {
        Seq::empty()
    }
}

/// The runs that parsing a select query hands to `syn`, in order: the output
/// type, the table type, then the clauses' runs.
pub open spec fn select_runs(s: Seq<Tok>, pos: usize, end: usize) -> Seq<Run> {
    let distinct = tokens::peek_kw(s, (pos + 1) as usize, end, Kw::Distinct);
    let out_pos = if distinct { (pos + 2) as usize } else { (pos + 1) as usize };
    if !tokens::peek_kw(s, pos, end, Kw::Select) {
        Seq::empty()
    } else {
        returning_runs(s, out_pos, end) + match parse_returning_spec(s, out_pos, end) {
            Err(_) => Seq::empty(),
            Ok((_, p)) => if !tokens::peek_kw(s, p, end, Kw::From) {
                Seq::empty()
            } else {
                syntax::rust_runs(s, (p + 1) as usize, end, RustSyntax::Type, Stop::QueryKeyword) + match syntax::parse_rust_spec(
                    s,
                    (p + 1) as usize,
                    end,
                    RustSyntax::Type,
                    Stop::QueryKeyword,
                ) {
                    Err(_) => Seq::empty(),
                    Ok((_, q)) => query_clauses_runs(s, q, end, no_query_clauses()),
                }
            },
        }
    }
}

/// The runs that parsing an insert query hands to `syn`: the table type, the
/// braced values, then the `RETURNING` output type.
pub open spec fn insert_runs(s: Seq<Tok>, pos: usize, end: usize) -> Seq<Run> {
    if !tokens::peek_kw(s, pos, end, Kw::Insert) || !tokens::peek_kw(s, (pos + 1) as usize, end, Kw::Into) {
        Seq::empty()
    } else {
        syntax::rust_runs(s, (pos + 2) as usize, end, RustSyntax::Type, Stop::QueryKeyword) + match syntax::parse_rust_spec(
            s,
            (pos + 2) as usize,
            end,
            RustSyntax::Type,
            Stop::QueryKeyword,
        ) {
            Err(_) => Seq::empty(),
            Ok((_, p)) => if !tokens::peek_kw(s, p, end, Kw::Values) {
                Seq::empty()
            } else {
                syntax::braced_runs(s, (p + 1) as usize, end) + match syntax::parse_braced_expr_spec(
                    s,
                    (p + 1) as usize,
                    end,
                ) {
                    Err(_) => Seq::empty(),
                    Ok((_, q)) => if q < end && tokens::peek_kw(s, q, end, Kw::Returning) {
                        returning_runs(s, (q + 1) as usize, end)
                    } else {
                        Seq::empty()
                    },
                }
            },
        }
    }
}

/// The run that parsing an update's assignments hands to `syn`: the braced value.
pub open spec fn update_set_runs(s: Seq<Tok>, pos: usize, end: usize) -> Seq<Run> {
    if tokens::peek_group(s, pos, end, Delim::Brace) {
        syntax::braced_runs(s, pos, end)
    } else {
        Seq::empty()
    }
}

/// The runs that parsing an update query hands to `syn`: the table type, the
/// braced value, then the `RETURNING` output type.
pub open spec fn update_runs(s: Seq<Tok>, pos: usize, end: usize) -> Seq<Run> {
    if !tokens::peek_kw(s, pos, end, Kw::Update) {
        Seq::empty()
    } else {
        syntax::rust_runs(s, (pos + 1) as usize, end, RustSyntax::Type, Stop::QueryKeyword) + match syntax::parse_rust_spec(
            s,
            (pos + 1) as usize,
            end,
            RustSyntax::Type,
            Stop::QueryKeyword,
        ) {
            Err(_) => Seq::empty(),
            Ok((_, p)) => if !tokens::peek_kw(s, p, end, Kw::SetKeyword) {
                Seq::empty()
            } else {
                update_set_runs(s, (p + 1) as usize, end) + match update_set_spec(s, (p + 1) as usize, end) {
                    Err(_) => Seq::empty(),
                    Ok((_, q)) => change_clauses_runs(s, q, end, no_change_clauses()),
                }
            },
        }
    }
}

/// The runs that parsing a delete query hands to `syn`: the table type, then
/// the `RETURNING` output type.
pub open spec fn delete_runs(s: Seq<Tok>, pos: usize, end: usize) -> Seq<Run> {
    if !tokens::peek_kw(s, pos, end, Kw::Delete) || !tokens::peek_kw(s, (pos + 1) as usize, end, Kw::From) {
        Seq::empty()
    } else {
        syntax::rust_runs(s, (pos + 2) as usize, end, RustSyntax::Type, Stop::QueryKeyword) + match syntax::parse_rust_spec(
            s,
            (pos + 2) as usize,
            end,
            RustSyntax::Type,
            Stop::QueryKeyword,
        ) {
            Err(_) => Seq::empty(),
            Ok((_, p)) => change_clauses_runs(s, p, end, no_change_clauses()),
        }
    }
}

/// The runs that parsing an exists query hands to `syn`: the table type, then
/// the clauses' runs.
pub open spec fn exists_runs(s: Seq<Tok>, pos: usize, end: usize) -> Seq<Run> {
    if !tokens::peek_kw(s, pos, end, Kw::Exists) {
        Seq::empty()
    } else {
        syntax::rust_runs(s, (pos + 1) as usize, end, RustSyntax::Type, Stop::QueryKeyword) + match syntax::parse_rust_spec(
            s,
            (pos + 1) as usize,
            end,
            RustSyntax::Type,
            Stop::QueryKeyword,
        ) {
            Err(_) => Seq::empty(),
            Ok((_, p)) => query_clauses_runs(s, p, end, no_query_clauses()),
        }
    }
}

/// The runs that parsing a whole query hands to `syn`.
pub open spec fn query_type_runs(s: Seq<Tok>, pos: usize, end: usize) -> Seq<Run> {
    if tokens::peek_kw(s, pos, end, Kw::Select) {
        select_runs(s, pos, end)
    } else if tokens::peek_kw(s, pos, end, Kw::Insert) {
        insert_runs(s, pos, end)
    } else if tokens::peek_kw(s, pos, end, Kw::Update) {
        update_runs(s, pos, end)
    } else if tokens::peek_kw(s, pos, end, Kw::Delete) {
        delete_runs(s, pos, end)
    } else if tokens::peek_kw(s, pos, end, Kw::Exists) {
        exists_runs(s, pos, end)
    } else {
        Seq::empty()
    }
}

impl ReturningData {
    /// Parses an output type and its optional parenthesized arguments.
    pub fn parse(toks: &Vec<Tok>, pos: usize, end: usize) -> (r: Result<(ReturningData, usize), ParseError>)
        requires
            tokens::in_range(toks@, pos, end),
        ensures
            syntax::outcome(r, parse_returning_spec(toks@, pos, end), returning_runs(toks@, pos, end)),
            r matches Ok((_, p)) ==> expr::advances(pos, p, end),
    {
        let (t, p) = parse_rust(toks, pos, end, RustSyntax::Type, Stop::QueryKeywordOrArgs)?;
        if exec_peek_group(toks, p, end, Delim::Paren) {
            match exec_group_close(toks, p, end) {
                None => Err(make_err(p, ParseErrorKind::UnbalancedGroup)),
                Some(c) => {
                    let args = ExprList::parse(toks, p + 1, c)?;
                    Ok((ReturningData { output_type: t, output_args: Some(args) }, c + 1))
                },
            }
        } else {
            Ok((ReturningData { output_type: t, output_args: None }, p))
        }
    }
}

/// Parses the `ORDER BY` items of a query.
pub fn parse_order_items(toks: &Vec<Tok>, pos: usize, end: usize) -> (r: Result<(OrderByList, usize), ParseError>)
    requires
        tokens::in_range(toks@, pos, end),
    ensures
        r == parse_order_items_spec(toks@, pos, end),
        r matches Ok((_, p)) ==> expr::advances(pos, p, end),
    decreases end - pos,
{
    let (o, p) = OrderBy::parse(toks, pos, end)?;
    if exec_peek_p1(toks, p, end, ',') {
        let (rest, q) = parse_order_items(toks, p + 1, end)?;
        Ok((OrderByList::Cons(o, Box::new(rest)), q))
    } else {
        Ok((OrderByList::Cons(o, Box::new(OrderByList::Nil)), p))
    }
}

/// Parses the `GROUP BY` columns of a query.
pub fn parse_column_items(toks: &Vec<Tok>, pos: usize, end: usize) -> (r: Result<(ColumnList, usize), ParseError>)
    requires
        tokens::in_range(toks@, pos, end),
    ensures
        r == parse_column_items_spec(toks@, pos, end),
        r matches Ok((_, p)) ==> expr::advances(pos, p, end),
    decreases end - pos,
{
    let (c, p) = Column::parse(toks, pos, end)?;
    if exec_peek_p1(toks, p, end, ',') {
        let (rest, q) = parse_column_items(toks, p + 1, end)?;
        Ok((ColumnList::Cons(c, Box::new(rest)), q))
    } else {
        Ok((ColumnList::Cons(c, Box::new(ColumnList::Nil)), p))
    }
}

impl QueryClauses {
    /// Parses select clauses up to the end of the range; each may appear once.
    pub fn parse(toks: &Vec<Tok>, pos: usize, end: usize) -> (r: Result<QueryClauses, ParseError>)
        requires
            tokens::in_range(toks@, pos, end),
        ensures
            syntax::outcome(
                r,
                parse_query_clauses_spec(toks@, pos, end, no_query_clauses()),
                query_clauses_runs(toks@, pos, end, no_query_clauses()),
            ),
    {
        let mut acc = QueryClauses { where_clause: None, order_by: None, group_by: None, having: None, limit: None };
        let mut p = pos;
        let ghost seen: Seq<Run> = Seq::empty();
        assert(query_clauses_runs(toks@, pos, end, acc) =~= seen + query_clauses_runs(toks@, p, end, acc));
        while p < end
            invariant
                tokens::in_range(toks@, p, end),
                parse_query_clauses_spec(toks@, p, end, acc) == parse_query_clauses_spec(toks@, pos, end, no_query_clauses()),
                query_clauses_runs(toks@, pos, end, no_query_clauses()) == seen + query_clauses_runs(toks@, p, end, acc),
            decreases end - p,
        {
            if acc.where_clause.is_none() && exec_peek_kw(toks, p, end, Kw::Where) {
                let (e, q) = Expr::parse(toks, p + 1, end)?;
                acc.where_clause = Some(e);
                p = q;
            } else if acc.order_by.is_none() && exec_peek_kw(toks, p, end, Kw::Order) {
                if !exec_peek_kw(toks, p + 1, end, Kw::By) {
                    return Err(make_err(p + 1, ParseErrorKind::ExpectedKeyword));
                }
                let (l, q) = parse_order_items(toks, p + 2, end)?;
                acc.order_by = Some(l);
                p = q;
            } else if acc.group_by.is_none() && exec_peek_kw(toks, p, end, Kw::Group) {
                if !exec_peek_kw(toks, p + 1, end, Kw::By) {
                    return Err(make_err(p + 1, ParseErrorKind::ExpectedKeyword));
                }
                let (l, q) = parse_column_items(toks, p + 2, end)?;
                acc.group_by = Some(l);
                p = q;
            } else if acc.having.is_none() && exec_peek_kw(toks, p, end, Kw::Having) {
                let (e, q) = Expr::parse(toks, p + 1, end)?;
                acc.having = Some(e);
                p = q;
            } else if acc.limit.is_none() && exec_peek_kw(toks, p, end, Kw::Limit) {
                let ghost lr = clauses::limit_runs(toks@, (p + 1) as usize, end);
                let ghost rest = query_clauses_runs(toks@, p, end, acc);
                match Limit::parse(toks, p + 1, end) {
                    Err(e) => {
                        proof {
                            if syntax::refused(e, lr) {
                                assert(syntax::refused(e, rest));
                                assert(syntax::refused(e, seen + rest));
                            }
                        }
                        return Err(e);
                    },
                    Ok((l, q)) => {
                        proof {
                            seen = seen + lr;
                        }
                        acc.limit = Some(l);
                        p = q;
                    },
                }
            } else {
                return Err(make_err(p, ParseErrorKind::Unexpected));
            }
        }
        Ok(acc)
    }
}

impl ChangeClauses {
    /// Parses `WHERE` and `RETURNING` clauses up to the end of the range; each may appear once.
    pub fn parse(toks: &Vec<Tok>, pos: usize, end: usize) -> (r: Result<ChangeClauses, ParseError>)
        requires
            tokens::in_range(toks@, pos, end),
        ensures
            syntax::outcome(
                r,
                parse_change_clauses_spec(toks@, pos, end, no_change_clauses()),
                change_clauses_runs(toks@, pos, end, no_change_clauses()),
            ),
    {
        let mut acc = ChangeClauses { where_clause: None, returning: None };
        let mut p = pos;
        let ghost seen: Seq<Run> = Seq::empty();
        assert(change_clauses_runs(toks@, pos, end, acc) =~= seen + change_clauses_runs(toks@, p, end, acc));
        while p < end
            invariant
                tokens::in_range(toks@, p, end),
                parse_change_clauses_spec(toks@, p, end, acc) == parse_change_clauses_spec(toks@, pos, end, no_change_clauses()),
                change_clauses_runs(toks@, pos, end, no_change_clauses()) == seen + change_clauses_runs(toks@, p, end, acc),
            decreases end - p,
        {
            if acc.where_clause.is_none() && exec_peek_kw(toks, p, end, Kw::Where) {
                let (e, q) = Expr::parse(toks, p + 1, end)?;
                acc.where_clause = Some(e);
                p = q;
            } else if acc.returning.is_none() && exec_peek_kw(toks, p, end, Kw::Returning) {
                let ghost rr = returning_runs(toks@, (p + 1) as usize, end);
                let ghost rest = change_clauses_runs(toks@, p, end, acc);
                match ReturningData::parse(toks, p + 1, end) {
                    Err(e) => {
                        proof {
                            if syntax::refused(e, rr) {
                                assert(syntax::refused(e, rest));
                                assert(syntax::refused(e, seen + rest));
                            }
                        }
                        return Err(e);
                    },
                    Ok((r, q)) => {
                        proof {
                            seen = seen + rr;
                        }
                        acc.returning = Some(r);
                        p = q;
                    },
                }
            } else {
                return Err(make_err(p, ParseErrorKind::Unexpected));
            }
        }
        Ok(acc)
    }
}

impl SelectQuery {
    /// Parses a select query that fills `[pos, end)`.
    pub fn parse(toks: &Vec<Tok>, pos: usize, end: usize) -> (r: Result<SelectQuery, ParseError>)
        requires
            tokens::in_range(toks@, pos, end),
        ensures
            syntax::outcome(r, parse_select_spec(toks@, pos, end), select_runs(toks@, pos, end)),
    {
        if !exec_peek_kw(toks, pos, end, Kw::Select) {
            return Err(make_err(pos, ParseErrorKind::ExpectedKeyword));
        }
        let distinct = pos < end && exec_peek_kw(toks, pos + 1, end, Kw::Distinct);
        let out_pos = if distinct { pos + 2 } else { pos + 1 };
        let (output, p) = ReturningData::parse(toks, out_pos, end)?;
        if !exec_peek_kw(toks, p, end, Kw::From) {
            return Err(make_err(p, ParseErrorKind::ExpectedKeyword));
        }
        let (t, q) = parse_rust(toks, p + 1, end, RustSyntax::Type, Stop::QueryKeyword)?;
        let c = QueryClauses::parse(toks, q, end)?;
        Ok(SelectQuery {
            output,
            table_type: t,
            where_clause: c.where_clause,
            order_by: c.order_by,
            group_by: c.group_by,
            having: c.having,
            limit: c.limit,
            distinct,
        })
    }
}

impl InsertQuery {
    /// Parses an insert query at `pos`: the query and the position after it.
    pub fn parse(toks: &Vec<Tok>, pos: usize, end: usize) -> (r: Result<(InsertQuery, usize), ParseError>)
        requires
            tokens::in_range(toks@, pos, end),
        ensures
            syntax::outcome(r, parse_insert_spec(toks@, pos, end), insert_runs(toks@, pos, end)),
            r matches Ok((_, p)) ==> pos < p <= end,
    {
        if !exec_peek_kw(toks, pos, end, Kw::Insert) {
            return Err(make_err(pos, ParseErrorKind::ExpectedKeyword));
        }
        if !exec_peek_kw(toks, pos + 1, end, Kw::Into) {
            return Err(make_err(pos + 1, ParseErrorKind::ExpectedKeyword));
        }
        let (t, p) = parse_rust(toks, pos + 2, end, RustSyntax::Type, Stop::QueryKeyword)?;
        if !exec_peek_kw(toks, p, end, Kw::Values) {
            return Err(make_err(p, ParseErrorKind::ExpectedKeyword));
        }
        let (v, q) = parse_braced_expr(toks, p + 1, end)?;
        if q >= end {
            Ok((InsertQuery { table_type: t, values: v, returning: None }, q))
        } else if exec_peek_kw(toks, q, end, Kw::Returning) {
            let (r, k) = ReturningData::parse(toks, q + 1, end)?;
            Ok((InsertQuery { table_type: t, values: v, returning: Some(r) }, k))
        } else {
            Err(make_err(q, ParseErrorKind::Unexpected))
        }
    }
}

impl UpdateQuery {
    /// Parses an update query that fills `[pos, end)`.
    pub fn parse(toks: &Vec<Tok>, pos: usize, end: usize) -> (r: Result<UpdateQuery, ParseError>)
        requires
            tokens::in_range(toks@, pos, end),
        ensures
            syntax::outcome(r, parse_update_spec(toks@, pos, end), update_runs(toks@, pos, end)),
    {
        if !exec_peek_kw(toks, pos, end, Kw::Update) {
            return Err(make_err(pos, ParseErrorKind::ExpectedKeyword));
        }
        let (t, p) = parse_rust(toks, pos + 1, end, RustSyntax::Type, Stop::QueryKeyword)?;
        if !exec_peek_kw(toks, p, end, Kw::SetKeyword) {
            return Err(make_err(p, ParseErrorKind::ExpectedKeyword));
        }
        let (set_clause, q) = if exec_peek_group(toks, p + 1, end, Delim::Brace) {
            let (v, q) = parse_braced_expr(toks, p + 1, end)?;
            (SetClause::FromType(v), q)
        } else {
            let (l, q) = SetList::parse(toks, p + 1, end)?;
            (SetClause::Expr(SetExpr { updates: l }), q)
        };
        let c = ChangeClauses::parse(toks, q, end)?;
        Ok(UpdateQuery { table_type: t, set_clause, where_clause: c.where_clause, returning: c.returning })
    }
}

impl DeleteQuery {
    /// Parses a delete query that fills `[pos, end)`.
    pub fn parse(toks: &Vec<Tok>, pos: usize, end: usize) -> (r: Result<DeleteQuery, ParseError>)
        requires
            tokens::in_range(toks@, pos, end),
        ensures
            syntax::outcome(r, parse_delete_spec(toks@, pos, end), delete_runs(toks@, pos, end)),
    {
        if !exec_peek_kw(toks, pos, end, Kw::Delete) {
            return Err(make_err(pos, ParseErrorKind::ExpectedKeyword));
        }
        if !exec_peek_kw(toks, pos + 1, end, Kw::From) {
            return Err(make_err(pos + 1, ParseErrorKind::ExpectedKeyword));
        }
        let (t, p) = parse_rust(toks, pos + 2, end, RustSyntax::Type, Stop::QueryKeyword)?;
        let c = ChangeClauses::parse(toks, p, end)?;
        Ok(DeleteQuery { table_type: t, where_clause: c.where_clause, returning: c.returning })
    }
}

impl ExistsQuery {
    /// Parses an exists query that fills `[pos, end)`.
    pub fn parse(toks: &Vec<Tok>, pos: usize, end: usize) -> (r: Result<ExistsQuery, ParseError>)
        requires
            tokens::in_range(toks@, pos, end),
        ensures
            syntax::outcome(r, parse_exists_spec(toks@, pos, end), exists_runs(toks@, pos, end)),
    {
        if !exec_peek_kw(toks, pos, end, Kw::Exists) {
            return Err(make_err(pos, ParseErrorKind::ExpectedKeyword));
        }
        let (t, p) = parse_rust(toks, pos + 1, end, RustSyntax::Type, Stop::QueryKeyword)?;
        let c = QueryClauses::parse(toks, p, end)?;
        Ok(ExistsQuery {
            table_type: t,
            where_clause: c.where_clause,
            group_by: c.group_by,
            having: c.having,
            order_by: c.order_by,
            limit: c.limit,
        })
    }
}

impl QueryType {
    /// Parses a whole query, chosen by its first keyword.
    pub fn parse(toks: &Vec<Tok>, pos: usize, end: usize) -> (r: Result<QueryType, ParseError>)
        requires
            tokens::in_range(toks@, pos, end),
        ensures
            syntax::outcome(r, parse_query_type_spec(toks@, pos, end), query_type_runs(toks@, pos, end)),
    {
        if exec_peek_kw(toks, pos, end, Kw::Select) {
            Ok(QueryType::Select(SelectQuery::parse(toks, pos, end)?))
        } else if exec_peek_kw(toks, pos, end, Kw::Insert) {
            let (q, p) = InsertQuery::parse(toks, pos, end)?;
            if p == end {
                Ok(QueryType::Insert(q))
            } else {
                Err(make_err(p, ParseErrorKind::TrailingTokens))
            }
        } else if exec_peek_kw(toks, pos, end, Kw::Update) {
            Ok(QueryType::Update(UpdateQuery::parse(toks, pos, end)?))
        } else if exec_peek_kw(toks, pos, end, Kw::Delete) {
            Ok(QueryType::Delete(DeleteQuery::parse(toks, pos, end)?))
        } else if exec_peek_kw(toks, pos, end, Kw::Exists) {
            Ok(QueryType::Exists(ExistsQuery::parse(toks, pos, end)?))
        } else {
            Err(make_err(pos, ParseErrorKind::ExpectedKeyword))
        }
    }
}

} // verus!
