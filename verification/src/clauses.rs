//! The clauses around expressions: `ORDER BY`, `GROUP BY`, `LIMIT`, `SET`, and
//! the three input modes of the `sql!` macro.
use crate::expr::{Column, Expr};
use crate::expr;
use crate::int_lit;
use crate::syntax;
use crate::syntax::Run;
use crate::tokens;
use crate::tokens::{
    exec_peek_group, exec_peek_ident, exec_peek_kw, exec_peek_p1, make_err, Delim,
    Kw, ParseError, ParseErrorKind, Tok,
};
use vstd::prelude::*;

verus! {

/// The direction of an `ORDER BY` item.
#[derive(Debug, Clone, Copy, PartialEq, Eq, Structural)]
pub enum Order {
    Asc,
    Desc,
}

/// One `ORDER BY` item: an expression and its direction (`ASC` when omitted).
#[derive(Debug, PartialEq, Eq)]
pub struct OrderBy {
    pub expr: Expr,
    pub order: Order,
}

#[derive(Debug, PartialEq, Eq)]
pub enum OrderByList {
    Nil,
    Cons(OrderBy, Box<OrderByList>),
}

#[derive(Debug, PartialEq, Eq)]
pub enum ColumnList {
    Nil,
    Cons(Column, Box<ColumnList>),
}

/// The `LIMIT` value: an integer literal, or a Rust expression in braces (its
/// token range inside the braces, which `syn` accepts as an expression).
#[derive(Debug, Clone, Copy, PartialEq, Eq, Structural)]
pub enum Limit {
    Literal(i64),
    Expr(usize, usize),
}

/// The assignments of a `SET` clause: the column's token index and its new value.
#[derive(Debug, PartialEq, Eq)]
pub enum SetList {
    Nil,
    Cons(usize, Expr, Box<SetList>),
}

/// `SET column = expr, ...`.
#[derive(Debug, PartialEq, Eq)]
pub struct SetExpr {
    pub updates: SetList,
}

/// The clauses of a select: each may appear once, in any order.
#[derive(Debug, PartialEq, Eq)]
pub struct SelectClauses {
    pub distinct: bool,
    pub where_: Option<Expr>,
    pub order_by: Option<OrderByList>,
    pub group_by: Option<ColumnList>,
    pub having: Option<Expr>,
    pub limit: Option<Limit>,
}

/// The three kinds of input of the `sql!` macro.
#[derive(Debug, PartialEq, Eq)]
pub enum MacroMode {
    /// A bare condition, such as `id = 5 AND name = "test"`.
    Expression(Expr),
    /// Assignments after the `SET` keyword.
    SetClause(SetExpr),
    /// Clauses that start with `DISTINCT`, `WHERE`, `ORDER`, `GROUP`, `HAVING` or `LIMIT`.
    SelectClauses(SelectClauses),
}

pub open spec fn parse_order_spec(s: Seq<Tok>, pos: usize, end: usize) -> Result<
    (Order, usize),
    ParseError,
> {
    if tokens::peek_kw(s, pos, end, Kw::Asc) {
        Ok((Order::Asc, (pos + 1) as usize))
    } else if tokens::peek_kw(s, pos, end, Kw::Desc) {
        Ok((Order::Desc, (pos + 1) as usize))
    } else {
        Err(tokens::perr(pos, ParseErrorKind::Unexpected))
    }
}

pub open spec fn parse_order_by_spec(s: Seq<Tok>, pos: usize, end: usize) -> Result<
    (OrderBy, usize),
    ParseError,
> {
    match expr::parse_expr_spec(s, pos, end) {
        Err(e) => Err(e),
        Ok((e, p)) => if tokens::peek_kw(s, p, end, Kw::Asc) || tokens::peek_kw(s, p, end, Kw::Desc) {
            match parse_order_spec(s, p, end) {
                Err(x) => Err(x),
                Ok((o, q)) => Ok((OrderBy { expr: e, order: o }, q)),
            }
        } else {
            Ok((OrderBy { expr: e, order: Order::Asc }, p))
        },
    }
}

/// Items separated by commas, until the end or an item not followed by a comma.
pub open spec fn parse_order_by_list_spec(s: Seq<Tok>, pos: usize, end: usize) -> Result<
    (OrderByList, usize),
    ParseError,
>
    decreases end - pos,
{
    if pos >= end {
        Ok((OrderByList::Nil, pos))
    } else {
        match parse_order_by_spec(s, pos, end) {
            Err(e) => Err(e),
            Ok((o, p)) => if !expr::advances(pos, p, end) {
                Err(tokens::perr(p, ParseErrorKind::Unexpected))
            } else if tokens::peek_p1(s, p, end, ',') {
                match parse_order_by_list_spec(s, (p + 1) as usize, end) {
                    Err(e) => Err(e),
                    Ok((rest, q)) => Ok((OrderByList::Cons(o, Box::new(rest)), q)),
                }
            } else {
                Ok((OrderByList::Cons(o, Box::new(OrderByList::Nil)), p))
            },
        }
    }
}

pub open spec fn parse_column_list_spec(s: Seq<Tok>, pos: usize, end: usize) -> Result<
    (ColumnList, usize),
    ParseError,
>
    decreases end - pos,
{
    if pos >= end {
        Ok((ColumnList::Nil, pos))
    } else {
        match expr::parse_column_spec(s, pos, end) {
            Err(e) => Err(e),
            Ok((c, p)) => if !expr::advances(pos, p, end) {
                Err(tokens::perr(p, ParseErrorKind::Unexpected))
            } else if tokens::peek_p1(s, p, end, ',') {
                match parse_column_list_spec(s, (p + 1) as usize, end) {
                    Err(e) => Err(e),
                    Ok((rest, q)) => Ok((ColumnList::Cons(c, Box::new(rest)), q)),
                }
            } else {
                Ok((ColumnList::Cons(c, Box::new(ColumnList::Nil)), p))
            },
        }
    }
}

pub open spec fn parse_limit_spec(s: Seq<Tok>, pos: usize, end: usize) -> Result<
    (Limit, usize),
    ParseError,
> {
    if int_lit::int_lit_at(s, pos, end) {
        match int_lit::int_lit_i64(s, pos) {
            Some(v) => Ok((Limit::Literal(v as i64), (pos + tokens::lit_len(s, pos, end)) as usize)),
            None => Err(tokens::perr(pos, ParseErrorKind::LiteralOutOfRange)),
        }
    } else if tokens::peek_group(s, pos, end, Delim::Brace) {
        match syntax::parse_braced_expr_spec(s, pos, end) {
            Err(e) => Err(e),
            Ok((span, p)) => Ok((Limit::Expr(span.start, span.end), p)),
        }
    } else {
        Err(tokens::perr(pos, ParseErrorKind::Unexpected))
    }
}

/// `column = expr` items separated by commas; the list ends at the end of the
/// range or at the first item not followed by a comma (such as one followed by
/// `WHERE`).
pub open spec fn parse_set_list_spec(s: Seq<Tok>, pos: usize, end: usize) -> Result<
    (SetList, usize),
    ParseError,
>
    decreases end - pos,
{
    if pos >= end {
        Ok((SetList::Nil, pos))
    } else if !tokens::peek_ident(s, pos, end) {
        Err(tokens::perr(pos, ParseErrorKind::ExpectedIdent))
    } else if !tokens::peek_p1(s, (pos + 1) as usize, end, '=') {
        Err(tokens::perr((pos + 1) as usize, ParseErrorKind::ExpectedPunct))
    } else {
        match expr::parse_expr_spec(s, (pos + 2) as usize, end) {
            Err(e) => Err(e),
            Ok((e, p)) => if !expr::advances(pos, p, end) {
                Err(tokens::perr(p, ParseErrorKind::Unexpected))
            } else if tokens::peek_p1(s, p, end, ',') {
                match parse_set_list_spec(s, (p + 1) as usize, end) {
                    Err(x) => Err(x),
                    Ok((rest, q)) => Ok((SetList::Cons(pos, e, Box::new(rest)), q)),
                }
            } else {
                Ok((SetList::Cons(pos, e, Box::new(SetList::Nil)), p))
            },
        }
    }
}

/// The keyword at `pos` starts one of the select clauses.
pub open spec fn clause_keyword(s: Seq<Tok>, pos: usize, end: usize) -> bool {
    ||| tokens::peek_kw(s, pos, end, Kw::Distinct)
    ||| tokens::peek_kw(s, pos, end, Kw::Where)
    ||| tokens::peek_kw(s, pos, end, Kw::Order)
    ||| tokens::peek_kw(s, pos, end, Kw::Group)
    ||| tokens::peek_kw(s, pos, end, Kw::Having)
    ||| tokens::peek_kw(s, pos, end, Kw::Limit)
}

pub open spec fn empty_clauses() -> SelectClauses {
    SelectClauses {
        distinct: false,
        where_: None,
        order_by: None,
        group_by: None,
        having: None,
        limit: None,
    }
}

/// Reads clauses until the end of the range, `acc` holding those read so far.
pub open spec fn parse_clauses_spec(s: Seq<Tok>, pos: usize, end: usize, acc: SelectClauses) -> Result<
    SelectClauses,
    ParseError,
>
    decreases end - pos,
{
    let p1 = (pos + 1) as usize;
    let p2 = (pos + 2) as usize;
    if pos >= end {
        Ok(acc)
    } else if !acc.distinct && tokens::peek_kw(s, pos, end, Kw::Distinct) {
        parse_clauses_spec(s, p1, end, SelectClauses { distinct: true, ..acc })
    } else if acc.where_ is None && tokens::peek_kw(s, pos, end, Kw::Where) {
        match expr::parse_expr_spec(s, p1, end) {
            Err(e) => Err(e),
            Ok((e, p)) => if !expr::advances(pos, p, end) {
                Err(tokens::perr(p, ParseErrorKind::Unexpected))
            } else {
                parse_clauses_spec(s, p, end, SelectClauses { where_: Some(e), ..acc })
            },
        }
    } else if acc.order_by is None && tokens::peek_kw(s, pos, end, Kw::Order) {
        if !tokens::peek_kw(s, p1, end, Kw::By) {
            Err(tokens::perr(p1, ParseErrorKind::ExpectedKeyword))
        } else {
            match parse_order_by_list_spec(s, p2, end) {
                Err(e) => Err(e),
                Ok((l, p)) => if !expr::advances(pos, p, end) {
                    Err(tokens::perr(p, ParseErrorKind::Unexpected))
                } else {
                    parse_clauses_spec(s, p, end, SelectClauses { order_by: Some(l), ..acc })
                },
            }
        }
    } else if acc.group_by is None && tokens::peek_kw(s, pos, end, Kw::Group) {
        if !tokens::peek_kw(s, p1, end, Kw::By) {
            Err(tokens::perr(p1, ParseErrorKind::ExpectedKeyword))
        } else {
            match parse_column_list_spec(s, p2, end) {
                Err(e) => Err(e),
                Ok((l, p)) => if !expr::advances(pos, p, end) {
                    Err(tokens::perr(p, ParseErrorKind::Unexpected))
                } else {
                    parse_clauses_spec(s, p, end, SelectClauses { group_by: Some(l), ..acc })
                },
            }
        }
    } else if acc.having is None && tokens::peek_kw(s, pos, end, Kw::Having) {
        match expr::parse_expr_spec(s, p1, end) {
            Err(e) => Err(e),
            Ok((e, p)) => if !expr::advances(pos, p, end) {
                Err(tokens::perr(p, ParseErrorKind::Unexpected))
            } else {
                parse_clauses_spec(s, p, end, SelectClauses { having: Some(e), ..acc })
            },
        }
    } else if acc.limit is None && tokens::peek_kw(s, pos, end, Kw::Limit) {
        match parse_limit_spec(s, p1, end) {
            Err(e) => Err(e),
            Ok((l, p)) => if !expr::advances(pos, p, end) {
                Err(tokens::perr(p, ParseErrorKind::Unexpected))
            } else {
                parse_clauses_spec(s, p, end, SelectClauses { limit: Some(l), ..acc })
            },
        }
    } else {
        Err(tokens::perr(pos, ParseErrorKind::Unexpected))
    }
}

/// The run that parsing a `LIMIT` value hands to `syn`: the braced expression.
pub open spec fn limit_runs(s: Seq<Tok>, pos: usize, end: usize) -> Seq<Run> {
    if int_lit::int_lit_at(s, pos, end) {
        Seq::empty()
    } else if tokens::peek_group(s, pos, end, Delim::Brace) {
        syntax::braced_runs(s, pos, end)
    } else {
        Seq::empty()
    }
}

/// The runs that reading clauses from `pos` hands to `syn`, in order, up to
/// the first error of the grammar's own.
#[verifier::opaque]
pub open spec fn clauses_runs(s: Seq<Tok>, pos: usize, end: usize, acc: SelectClauses) -> Seq<Run>
    decreases end - pos,
{
    let p1 = (pos + 1) as usize;
    let p2 = (pos + 2) as usize;
    if pos >= end {
        Seq::empty()
    } else if !acc.distinct && tokens::peek_kw(s, pos, end, Kw::Distinct) {
        clauses_runs(s, p1, end, SelectClauses { distinct: true, ..acc })
    } else if acc.where_ is None && tokens::peek_kw(s, pos, end, Kw::Where) {
        match expr::parse_expr_spec(s, p1, end) {
            Err(_) => Seq::empty(),
            Ok((e, p)) => if !expr::advances(pos, p, end) {
                Seq::empty()
            } else {
                clauses_runs(s, p, end, SelectClauses { where_: Some(e), ..acc })
            },
        }
    } else if acc.order_by is None && tokens::peek_kw(s, pos, end, Kw::Order) {
        if !tokens::peek_kw(s, p1, end, Kw::By) {
            Seq::empty()
        } else {
            match parse_order_by_list_spec(s, p2, end) {
                Err(_) => Seq::empty(),
                Ok((l, p)) => if !expr::advances(pos, p, end) {
                    Seq::empty()
                } else {
                    clauses_runs(s, p, end, SelectClauses { order_by: Some(l), ..acc })
                },
            }
        }
    } else if acc.group_by is None && tokens::peek_kw(s, pos, end, Kw::Group) {
        if !tokens::peek_kw(s, p1, end, Kw::By) {
            Seq::empty()
        } else {
            match parse_column_list_spec(s, p2, end) {
                Err(_) => Seq::empty(),
                Ok((l, p)) => if !expr::advances(pos, p, end) {
                    Seq::empty()
                } else {
                    clauses_runs(s, p, end, SelectClauses { group_by: Some(l), ..acc })
                },
            }
        }
    } else if acc.having is None && tokens::peek_kw(s, pos, end, Kw::Having) {
        match expr::parse_expr_spec(s, p1, end) {
            Err(_) => Seq::empty(),
            Ok((e, p)) => if !expr::advances(pos, p, end) {
                Seq::empty()
            } else {
                clauses_runs(s, p, end, SelectClauses { having: Some(e), ..acc })
            },
        }
    } else if acc.limit is None && tokens::peek_kw(s, pos, end, Kw::Limit) {
        limit_runs(s, p1, end) + match parse_limit_spec(s, p1, end) {
            Err(_) => Seq::empty(),
            Ok((l, p)) => if !expr::advances(pos, p, end) {
                Seq::empty()
            } else {
                clauses_runs(s, p, end, SelectClauses { limit: Some(l), ..acc })
            },
        }
    } else {
        Seq::empty()
    }
}

/// The runs that parsing the range as one of the three modes hands to `syn`:
/// only a `LIMIT` clause's braced expression is Rust syntax.
pub open spec fn macro_mode_runs(s: Seq<Tok>, pos: usize, end: usize) -> Seq<Run> {
    if tokens::peek_kw(s, pos, end, Kw::SetKeyword) {
        Seq::empty()
    } else if clause_keyword(s, pos, end) {
        clauses_runs(s, pos, end, empty_clauses())
    } else {
        Seq::empty()
    }
}

/// The whole range as one of the three modes.
pub open spec fn parse_macro_mode_spec(s: Seq<Tok>, pos: usize, end: usize) -> Result<
    MacroMode,
    ParseError,
> {
    if tokens::peek_kw(s, pos, end, Kw::SetKeyword) {
        match parse_set_list_spec(s, (pos + 1) as usize, end) {
            Err(e) => Err(e),
            Ok((l, p)) => if p == end {
                Ok(MacroMode::SetClause(SetExpr { updates: l }))
            } else {
                Err(tokens::perr(p, ParseErrorKind::TrailingTokens))
            },
        }
    } else if clause_keyword(s, pos, end) {
        match parse_clauses_spec(s, pos, end, empty_clauses()) {
            Err(e) => Err(e),
            Ok(c) => Ok(MacroMode::SelectClauses(c)),
        }
    } else {
        match expr::parse_expr_spec(s, pos, end) {
            Err(e) => Err(e),
            Ok((e, p)) => if p == end {
                Ok(MacroMode::Expression(e))
            } else {
                Err(tokens::perr(p, ParseErrorKind::TrailingTokens))
            },
        }
    }
}

impl Order {
    /// Parses `ASC` or `DESC`.
    pub fn parse(toks: &Vec<Tok>, pos: usize, end: usize) -> (r: Result<(Order, usize), ParseError>)
        requires
            tokens::in_range(toks@, pos, end),
        ensures
            r == parse_order_spec(toks@, pos, end),
    {
        if exec_peek_kw(toks, pos, end, Kw::Asc) {
            Ok((Order::Asc, pos + 1))
        } else if exec_peek_kw(toks, pos, end, Kw::Desc) {
            Ok((Order::Desc, pos + 1))
        } else {
            Err(make_err(pos, ParseErrorKind::Unexpected))
        }
    }
}

impl OrderBy {
    /// Parses an expression followed by an optional direction.
    pub fn parse(toks: &Vec<Tok>, pos: usize, end: usize) -> (r: Result<(OrderBy, usize), ParseError>)
        requires
            tokens::in_range(toks@, pos, end),
        ensures
            r == parse_order_by_spec(toks@, pos, end),
            r matches Ok((_, p)) ==> expr::advances(pos, p, end),
    {
        let (e, p) = Expr::parse(toks, pos, end)?;
        if exec_peek_kw(toks, p, end, Kw::Asc) || exec_peek_kw(toks, p, end, Kw::Desc) {
            let (o, q) = Order::parse(toks, p, end)?;
            Ok((OrderBy { expr: e, order: o }, q))
        } else {
            Ok((OrderBy { expr: e, order: Order::Asc }, p))
        }
    }
}

impl OrderByList {
    /// Parses `ORDER BY` items separated by commas.
    pub fn parse(toks: &Vec<Tok>, pos: usize, end: usize) -> (r: Result<
        (OrderByList, usize),
        ParseError,
    >)
        requires
            tokens::in_range(toks@, pos, end),
        ensures
            r == parse_order_by_list_spec(toks@, pos, end),
            r matches Ok((_, p)) ==> pos <= p <= end,
        decreases end - pos,
    {
        if pos >= end {
            return Ok((OrderByList::Nil, pos));
        }
        let (o, p) = OrderBy::parse(toks, pos, end)?;
        if exec_peek_p1(toks, p, end, ',') {
            let (rest, q) = OrderByList::parse(toks, p + 1, end)?;
            Ok((OrderByList::Cons(o, Box::new(rest)), q))
        } else {
            Ok((OrderByList::Cons(o, Box::new(OrderByList::Nil)), p))
        }
    }
}

impl ColumnList {
    /// Parses columns separated by commas.
    pub fn parse(toks: &Vec<Tok>, pos: usize, end: usize) -> (r: Result<
        (ColumnList, usize),
        ParseError,
    >)
        requires
            tokens::in_range(toks@, pos, end),
        ensures
            r == parse_column_list_spec(toks@, pos, end),
            r matches Ok((_, p)) ==> pos <= p <= end,
        decreases end - pos,
    {
        if pos >= end {
            return Ok((ColumnList::Nil, pos));
        }
        let (c, p) = Column::parse(toks, pos, end)?;
        if exec_peek_p1(toks, p, end, ',') {
            let (rest, q) = ColumnList::parse(toks, p + 1, end)?;
            Ok((ColumnList::Cons(c, Box::new(rest)), q))
        } else {
            Ok((ColumnList::Cons(c, Box::new(ColumnList::Nil)), p))
        }
    }
}

impl Limit {
    /// Parses an integer literal (as an `i64`) or a Rust expression in braces.
    pub fn parse(toks: &Vec<Tok>, pos: usize, end: usize) -> (r: Result<(Limit, usize), ParseError>)
        requires
            tokens::in_range(toks@, pos, end),
        ensures
            syntax::outcome(r, parse_limit_spec(toks@, pos, end), limit_runs(toks@, pos, end)),
            r matches Ok((_, p)) ==> expr::advances(pos, p, end),
    {
        if int_lit::int_lit_at_exec(toks, pos, end) {
            let (v, p) = int_lit::parse_int_lit_i64(toks, pos, end)?;
            Ok((Limit::Literal(v), p))
        } else if exec_peek_group(toks, pos, end, Delim::Brace) {
            let (span, p) = syntax::parse_braced_expr(toks, pos, end)?;
            Ok((Limit::Expr(span.start, span.end), p))
        } else {
            Err(make_err(pos, ParseErrorKind::Unexpected))
        }
    }
}

impl SetList {
    /// Parses `column = expr` items separated by commas.
    pub fn parse(toks: &Vec<Tok>, pos: usize, end: usize) -> (r: Result<(SetList, usize), ParseError>)
        requires
            tokens::in_range(toks@, pos, end),
        ensures
            r == parse_set_list_spec(toks@, pos, end),
            r matches Ok((_, p)) ==> pos <= p <= end,
        decreases end - pos,
    {
        if pos >= end {
            return Ok((SetList::Nil, pos));
        }
        if !exec_peek_ident(toks, pos, end) {
            return Err(make_err(pos, ParseErrorKind::ExpectedIdent));
        }
        if !exec_peek_p1(toks, pos + 1, end, '=') {
            return Err(make_err(pos + 1, ParseErrorKind::ExpectedPunct));
        }
        let (e, p) = Expr::parse(toks, pos + 2, end)?;
        if exec_peek_p1(toks, p, end, ',') {
            let (rest, q) = SetList::parse(toks, p + 1, end)?;
            Ok((SetList::Cons(pos, e, Box::new(rest)), q))
        } else {
            Ok((SetList::Cons(pos, e, Box::new(SetList::Nil)), p))
        }
    }
}

impl SetExpr {
    /// Parses the assignments of a `SET` clause.
    pub fn parse(toks: &Vec<Tok>, pos: usize, end: usize) -> (r: Result<(SetExpr, usize), ParseError>)
        requires
            tokens::in_range(toks@, pos, end),
        ensures
            r == match parse_set_list_spec(toks@, pos, end) {
                Err(e) => Err(e),
                Ok((l, p)) => Ok((SetExpr { updates: l }, p)),
            },
            r matches Ok((_, p)) ==> pos <= p <= end,
    {
        let (updates, p) = SetList::parse(toks, pos, end)?;
        Ok((SetExpr { updates }, p))
    }
}

pub fn clause_keyword_exec(toks: &Vec<Tok>, pos: usize, end: usize) -> (r: bool)
    requires
        tokens::in_range(toks@, pos, end),
    ensures
        r == clause_keyword(toks@, pos, end),
{
    exec_peek_kw(toks, pos, end, Kw::Distinct) || exec_peek_kw(toks, pos, end, Kw::Where)
        || exec_peek_kw(toks, pos, end, Kw::Order) || exec_peek_kw(toks, pos, end, Kw::Group)
        || exec_peek_kw(toks, pos, end, Kw::Having) || exec_peek_kw(toks, pos, end, Kw::Limit)
}

impl SelectClauses {
    /// Only a `WHERE` clause is present.
    pub fn only_where(&self) -> (r: bool)
        ensures
            r == (!self.distinct && self.where_ is Some && self.order_by is None
                && self.group_by is None && self.having is None && self.limit is None),
    {
        !self.distinct && self.where_.is_some() && self.order_by.is_none()
            && self.group_by.is_none() && self.having.is_none() && self.limit.is_none()
    }

    /// Parses clauses up to the end of the range; each clause may appear once.
    pub fn parse(toks: &Vec<Tok>, pos: usize, end: usize) -> (r: Result<SelectClauses, ParseError>)
        requires
            tokens::in_range(toks@, pos, end),
        ensures
            syntax::outcome(r, parse_clauses_spec(toks@, pos, end, empty_clauses()), clauses_runs(toks@, pos, end, empty_clauses())),
    {
        let mut acc = SelectClauses {
            distinct: false,
            where_: None,
            order_by: None,
            group_by: None,
            having: None,
            limit: None,
        };
        let mut p = pos;
        let ghost seen: Seq<Run> = Seq::empty();
        assert(clauses_runs(toks@, pos, end, acc) =~= seen + clauses_runs(toks@, p, end, acc));
        while p < end
            invariant
                tokens::in_range(toks@, p, end),
                parse_clauses_spec(toks@, p, end, acc) == parse_clauses_spec(
                    toks@,
                    pos,
                    end,
                    empty_clauses(),
                ),
                clauses_runs(toks@, pos, end, empty_clauses()) == seen + clauses_runs(toks@, p, end, acc),
            decreases end - p,
        {
            let ghost p0 = p;
            let ghost acc0 = acc;
            if !acc.distinct && exec_peek_kw(toks, p, end, Kw::Distinct) {
                acc.distinct = true;
                p = p + 1;
                assert(clauses_runs(toks@, p0, end, acc0) == clauses_runs(toks@, p, end, acc)) by {
                    reveal(clauses_runs);
                }
            } else if acc.where_.is_none() && exec_peek_kw(toks, p, end, Kw::Where) {
                let (e, q) = Expr::parse(toks, p + 1, end)?;
                acc.where_ = Some(e);
                p = q;
                assert(clauses_runs(toks@, p0, end, acc0) == clauses_runs(toks@, p, end, acc)) by {
                    reveal(clauses_runs);
                }
            } else if acc.order_by.is_none() && exec_peek_kw(toks, p, end, Kw::Order) {
                if !exec_peek_kw(toks, p + 1, end, Kw::By) {
                    return Err(make_err(p + 1, ParseErrorKind::ExpectedKeyword));
                }
                let (l, q) = OrderByList::parse(toks, p + 2, end)?;
                acc.order_by = Some(l);
                p = q;
                assert(clauses_runs(toks@, p0, end, acc0) == clauses_runs(toks@, p, end, acc)) by {
                    reveal(clauses_runs);
                }
            } else if acc.group_by.is_none() && exec_peek_kw(toks, p, end, Kw::Group) {
                if !exec_peek_kw(toks, p + 1, end, Kw::By) {
                    return Err(make_err(p + 1, ParseErrorKind::ExpectedKeyword));
                }
                let (l, q) = ColumnList::parse(toks, p + 2, end)?;
                acc.group_by = Some(l);
                p = q;
                assert(clauses_runs(toks@, p0, end, acc0) == clauses_runs(toks@, p, end, acc)) by {
                    reveal(clauses_runs);
                }
            } else if acc.having.is_none() && exec_peek_kw(toks, p, end, Kw::Having) {
                let (e, q) = Expr::parse(toks, p + 1, end)?;
                acc.having = Some(e);
                p = q;
                assert(clauses_runs(toks@, p0, end, acc0) == clauses_runs(toks@, p, end, acc)) by {
                    reveal(clauses_runs);
                }
            } else if acc.limit.is_none() && exec_peek_kw(toks, p, end, Kw::Limit) {
                let ghost lr = limit_runs(toks@, (p + 1) as usize, end);
                match Limit::parse(toks, p + 1, end) {
                    Err(e) => {
                        proof {
                            if syntax::refused(e, lr) {
                                let tail = match parse_limit_spec(toks@, (p + 1) as usize, end) {
                                    Err(_) => Seq::empty(),
                                    Ok((l, q)) => if !expr::advances(p, q, end) {
                                        Seq::empty()
                                    } else {
                                        clauses_runs(toks@, q, end, SelectClauses { limit: Some(l), ..acc })
                                    },
                                };
                                assert(clauses_runs(toks@, p, end, acc) == lr + tail) by {
                                    reveal(clauses_runs);
                                }
                                syntax::lemma_refused_concat(e, lr, tail);
                                syntax::lemma_refused_concat(e, seen, lr + tail);
                            }
                        }
                        return Err(e);
                    },
                    Ok((l, q)) => {
                        acc.limit = Some(l);
                        p = q;
                        assert(clauses_runs(toks@, p0, end, acc0) == lr + clauses_runs(toks@, p, end, acc)) by {
                            reveal(clauses_runs);
                        }
                        proof {
                            seen = seen + lr;
                        }
                    },
                }
            } else {
                return Err(make_err(p, ParseErrorKind::Unexpected));
            }
        }
        Ok(acc)
    }
}

impl MacroMode {
    /// Parses the whole range as a `SET` clause, select clauses, or one expression.
    pub fn parse(toks: &Vec<Tok>, pos: usize, end: usize) -> (r: Result<MacroMode, ParseError>)
        requires
            tokens::in_range(toks@, pos, end),
        ensures
            syntax::outcome(r, parse_macro_mode_spec(toks@, pos, end), macro_mode_runs(toks@, pos, end)),
    {
        if exec_peek_kw(toks, pos, end, Kw::SetKeyword) {
            let (set, p) = SetExpr::parse(toks, pos + 1, end)?;
            if p == end {
                Ok(MacroMode::SetClause(set))
            } else {
                Err(make_err(p, ParseErrorKind::TrailingTokens))
            }
        } else if clause_keyword_exec(toks, pos, end) {
            let c = SelectClauses::parse(toks, pos, end)?;
            Ok(MacroMode::SelectClauses(c))
        } else {
            let (e, p) = Expr::parse(toks, pos, end)?;
            if p == end {
                Ok(MacroMode::Expression(e))
            } else {
                Err(make_err(p, ParseErrorKind::TrailingTokens))
            }
        }
    }
}

} // verus!
