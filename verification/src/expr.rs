//! SQL expressions: columns, values, operators and conditions, and their parsers.
//!
//! Every parser reads the half-open token range `[pos, end)` and, on success,
//! returns what it parsed together with the position just after it.
use crate::tokens;
use crate::tokens::{
    exec_group_close, exec_lit_len, exec_peek_group, exec_peek_ident, exec_peek_kw, exec_peek_p1,
    exec_peek_p2, exec_peek_p3, make_err, Delim, Kw, ParseError, ParseErrorKind, Tok,
};
use vstd::prelude::*;

verus! {

/// A column reference: `Path::To::Table.column` (the path's token range and the
/// column's token index) or a bare `column` (its token index).
#[derive(Debug, Clone, Copy, PartialEq, Eq, Structural)]
pub enum Column {
    SpecificTableColumn(usize, usize, usize),
    Column(usize),
}

/// An operand: a column, a literal (its token range) or a Rust expression in
/// braces (the token range inside the braces).
#[derive(Debug, Clone, Copy, PartialEq, Eq, Structural)]
pub enum Value {
    Column(Column),
    Lit(usize, usize),
    OutsideVariable(usize, usize),
}

/// The operators that chain sub-expressions.
#[derive(Debug, Clone, Copy, PartialEq, Eq, Structural)]
pub enum Operator {
    And,
    Or,
    Add,
    Sub,
    Mul,
    Div,
    Mod,
    Concat,
    JsonExtract,
    BitAnd,
    BitOr,
    BitShiftLeft,
    BitShiftRight,
}

/// A list of values, as written inside `IN ( ... )`.
#[derive(Debug, PartialEq, Eq)]
pub enum ValueList {
    Nil,
    Cons(Value, Box<ValueList>),
}

/// The right-hand side of `IN`: a single value (expected to be an iterator) or a list.
#[derive(Debug, PartialEq, Eq)]
pub enum ValueIn {
    Single(Value),
    Multiple(ValueList),
}

/// A SQL expression.
#[derive(Debug, PartialEq, Eq)]
pub enum Expr {
    Value(Value),
    Parenthesized(Box<Expr>),
    OperatorChain(Box<Expr>, OpChain),
    Not(Box<Expr>),
    IsNull(Value),
    IsNotNull(Value),
    Equal(Value, Value),
    NotEqual(Value, Value),
    GreaterThan(Value, Value),
    GreaterThanOrEqual(Value, Value),
    LessThan(Value, Value),
    LessThanOrEqual(Value, Value),
    Like(Value, Value),
    In(Value, ValueIn),
    Between(Value, Value, Value),
}

/// The operator-and-operand pairs that follow the first operand of a chain.
#[derive(Debug, PartialEq, Eq)]
pub enum OpChain {
    Nil,
    Cons(Operator, Box<Expr>, Box<OpChain>),
}

/// `q` is a position strictly after `pos` and within the range.
pub open spec fn advances(pos: usize, q: usize, end: usize) -> bool {
    pos < q <= end
}

/// The keywords and punctuation that start a new clause and so end an expression.
/// `ASC`, `DESC` and `RETURNING` end an expression too, so that `ORDER BY column
/// DESC` and `WHERE ... RETURNING Output` parse.
pub open spec fn next_clause(s: Seq<Tok>, pos: usize, end: usize) -> bool {
    ||| tokens::peek_kw(s, pos, end, Kw::Distinct)
    ||| tokens::peek_kw(s, pos, end, Kw::Where)
    ||| tokens::peek_kw(s, pos, end, Kw::Having)
    ||| tokens::peek_kw(s, pos, end, Kw::Group)
    ||| tokens::peek_kw(s, pos, end, Kw::Order)
    ||| tokens::peek_kw(s, pos, end, Kw::Limit)
    ||| tokens::peek_kw(s, pos, end, Kw::Join)
    ||| tokens::peek_kw(s, pos, end, Kw::Inner)
    ||| tokens::peek_kw(s, pos, end, Kw::Left)
    ||| tokens::peek_kw(s, pos, end, Kw::Right)
    ||| tokens::peek_kw(s, pos, end, Kw::Cross)
    ||| tokens::peek_kw(s, pos, end, Kw::Asc)
    ||| tokens::peek_kw(s, pos, end, Kw::Desc)
    ||| tokens::peek_kw(s, pos, end, Kw::Returning)
    ||| tokens::peek_p1(s, pos, end, ',')
}

pub fn next_clause_token(toks: &Vec<Tok>, pos: usize, end: usize) -> (r: bool)
    requires
        tokens::in_range(toks@, pos, end),
    ensures
        r == next_clause(toks@, pos, end),
{
    exec_peek_kw(toks, pos, end, Kw::Distinct) || exec_peek_kw(toks, pos, end, Kw::Where)
        || exec_peek_kw(toks, pos, end, Kw::Having) || exec_peek_kw(toks, pos, end, Kw::Group)
        || exec_peek_kw(toks, pos, end, Kw::Order) || exec_peek_kw(toks, pos, end, Kw::Limit)
        || exec_peek_kw(toks, pos, end, Kw::Join) || exec_peek_kw(toks, pos, end, Kw::Inner)
        || exec_peek_kw(toks, pos, end, Kw::Left) || exec_peek_kw(toks, pos, end, Kw::Right)
        || exec_peek_kw(toks, pos, end, Kw::Cross) || exec_peek_kw(toks, pos, end, Kw::Asc)
        || exec_peek_kw(toks, pos, end, Kw::Desc) || exec_peek_kw(toks, pos, end, Kw::Returning)
        || exec_peek_p1(toks, pos, end, ',')
}

/// `Ident (:: Ident)*`: the position after the path.
pub open spec fn parse_path_spec(s: Seq<Tok>, pos: usize, end: usize) -> Result<usize, ParseError>
    decreases end - pos,
{
    if !tokens::peek_ident(s, pos, end) {
        Err(tokens::perr(pos, ParseErrorKind::ExpectedIdent))
    } else if tokens::peek_p2(s, (pos + 1) as usize, end, ':', ':') {
        parse_path_spec(s, (pos + 3) as usize, end)
    } else {
        Ok((pos + 1) as usize)
    }
}

pub open spec fn parse_column_spec(s: Seq<Tok>, pos: usize, end: usize) -> Result<
    (Column, usize),
    ParseError,
> {
    match parse_path_spec(s, pos, end) {
        Err(e) => Err(e),
        Ok(p) => if tokens::peek_p1(s, p, end, '.') {
            if tokens::peek_ident(s, (p + 1) as usize, end) {
                Ok((Column::SpecificTableColumn(pos, p, (p + 1) as usize), (p + 2) as usize))
            } else {
                Err(tokens::perr((p + 1) as usize, ParseErrorKind::ExpectedIdent))
            }
        } else if p == pos + 1 {
            Ok((Column::Column(pos), p))
        } else {
            Err(tokens::perr(p, ParseErrorKind::PathWithoutColumn))
        },
    }
}

/// A value can start at `pos`.
pub open spec fn value_lookahead(s: Seq<Tok>, pos: usize, end: usize) -> bool {
    tokens::peek_ident(s, pos, end) || tokens::lit_len(s, pos, end) > 0 || tokens::peek_group(s, pos, end, Delim::Brace)
}

pub open spec fn parse_value_spec(s: Seq<Tok>, pos: usize, end: usize) -> Result<
    (Value, usize),
    ParseError,
> {
    if tokens::peek_ident(s, pos, end) {
        match parse_column_spec(s, pos, end) {
            Err(e) => Err(e),
            Ok((c, p)) => Ok((Value::Column(c), p)),
        }
    } else if tokens::lit_len(s, pos, end) > 0 {
        let q = (pos + tokens::lit_len(s, pos, end)) as usize;
        Ok((Value::Lit(pos, q), q))
    } else if tokens::peek_group(s, pos, end, Delim::Brace) {
        match tokens::group_close(s, pos, end) {
            None => Err(tokens::perr(pos, ParseErrorKind::UnbalancedGroup)),
            Some(c) => if c == pos + 1 {
                Err(tokens::perr(c, ParseErrorKind::EmptyExpression))
            } else {
                Ok((Value::OutsideVariable((pos + 1) as usize, c), (c + 1) as usize))
            },
        }
    } else {
        Err(tokens::perr(pos, ParseErrorKind::Unexpected))
    }
}

/// Values separated by commas, up to `end` or to the first value not followed by a comma.
pub open spec fn parse_value_list_spec(s: Seq<Tok>, pos: usize, end: usize) -> Result<
    (ValueList, usize),
    ParseError,
>
    decreases end - pos,
{
    if pos >= end {
        Ok((ValueList::Nil, pos))
    } else {
        match parse_value_spec(s, pos, end) {
            Err(e) => Err(e),
            Ok((v, p)) => if !advances(pos, p, end) {
                Err(tokens::perr(p, ParseErrorKind::Unexpected))
            } else if p == end {
                Ok((ValueList::Cons(v, Box::new(ValueList::Nil)), p))
            } else if tokens::peek_p1(s, p, end, ',') {
                match parse_value_list_spec(s, (p + 1) as usize, end) {
                    Err(e) => Err(e),
                    Ok((rest, q)) => Ok((ValueList::Cons(v, Box::new(rest)), q)),
                }
            } else {
                Ok((ValueList::Cons(v, Box::new(ValueList::Nil)), p))
            },
        }
    }
}

pub open spec fn parse_value_in_spec(s: Seq<Tok>, pos: usize, end: usize) -> Result<
    (ValueIn, usize),
    ParseError,
> {
    if tokens::peek_group(s, pos, end, Delim::Paren) {
        match tokens::group_close(s, pos, end) {
            None => Err(tokens::perr(pos, ParseErrorKind::UnbalancedGroup)),
            Some(c) => match parse_value_list_spec(s, (pos + 1) as usize, c) {
                Err(e) => Err(e),
                Ok((l, q)) => if q == c {
                    Ok((ValueIn::Multiple(l), (c + 1) as usize))
                } else {
                    Err(tokens::perr(q, ParseErrorKind::TrailingTokens))
                },
            },
        }
    } else if value_lookahead(s, pos, end) {
        match parse_value_spec(s, pos, end) {
            Err(e) => Err(e),
            Ok((v, p)) => Ok((ValueIn::Single(v), p)),
        }
    } else {
        Err(tokens::perr(pos, ParseErrorKind::Unexpected))
    }
}

/// One chaining operator. A multi-character operator wins over the
/// one-character operator it starts with: `->>` and `->` over `-`, `||` over `|`.
pub open spec fn parse_operator_spec(s: Seq<Tok>, pos: usize, end: usize) -> Result<
    (Operator, usize),
    ParseError,
> {
    let p1 = (pos + 1) as usize;
    let p2 = (pos + 2) as usize;
    let p3 = (pos + 3) as usize;
    if tokens::peek_kw(s, pos, end, Kw::And) {
        Ok((Operator::And, p1))
    } else if tokens::peek_kw(s, pos, end, Kw::Or) {
        Ok((Operator::Or, p1))
    } else if tokens::peek_p1(s, pos, end, '+') {
        Ok((Operator::Add, p1))
    } else if tokens::peek_p3(s, pos, end, '-', '>', '>') {
        Ok((Operator::JsonExtract, p3))
    } else if tokens::peek_p2(s, pos, end, '-', '>') {
        Ok((Operator::JsonExtract, p2))
    } else if tokens::peek_p1(s, pos, end, '-') {
        Ok((Operator::Sub, p1))
    } else if tokens::peek_p1(s, pos, end, '*') {
        Ok((Operator::Mul, p1))
    } else if tokens::peek_p1(s, pos, end, '/') {
        Ok((Operator::Div, p1))
    } else if tokens::peek_p1(s, pos, end, '%') {
        Ok((Operator::Mod, p1))
    } else if tokens::peek_p2(s, pos, end, '|', '|') {
        Ok((Operator::Concat, p2))
    } else if tokens::peek_p1(s, pos, end, '&') {
        Ok((Operator::BitAnd, p1))
    } else if tokens::peek_p1(s, pos, end, '|') {
        Ok((Operator::BitOr, p1))
    } else if tokens::peek_p2(s, pos, end, '<', '<') {
        Ok((Operator::BitShiftLeft, p2))
    } else if tokens::peek_p2(s, pos, end, '>', '>') {
        Ok((Operator::BitShiftRight, p2))
    } else {
        Err(tokens::perr(pos, ParseErrorKind::Unexpected))
    }
}

/// An operator of a chain starts at `pos`.
pub open spec fn operator_lookahead(s: Seq<Tok>, pos: usize, end: usize) -> bool {
    ||| tokens::peek_kw(s, pos, end, Kw::And)
    ||| tokens::peek_kw(s, pos, end, Kw::Or)
    ||| tokens::peek_p1(s, pos, end, '+')
    ||| tokens::peek_p1(s, pos, end, '-')
    ||| tokens::peek_p1(s, pos, end, '*')
    ||| tokens::peek_p1(s, pos, end, '/')
    ||| tokens::peek_p1(s, pos, end, '%')
    ||| tokens::peek_p2(s, pos, end, '|', '|')
    ||| tokens::peek_p3(s, pos, end, '-', '>', '>')
    ||| tokens::peek_p2(s, pos, end, '-', '>')
    ||| tokens::peek_p1(s, pos, end, '&')
    ||| tokens::peek_p1(s, pos, end, '|')
    ||| tokens::peek_p2(s, pos, end, '<', '<')
    ||| tokens::peek_p2(s, pos, end, '>', '>')
}

/// A right-hand value after a comparison token that ends at `p`.
pub open spec fn compare_rhs(
    s: Seq<Tok>,
    p: usize,
    end: usize,
    v: Value,
    build: spec_fn(Value, Value) -> Expr,
) -> Result<(Expr, usize), ParseError> {
    match parse_value_spec(s, p, end) {
        Err(e) => Err(e),
        Ok((r, q)) => Ok((build(v, r), q)),
    }
}

/// What follows a value that is not followed by an operator: nothing, a clause
/// keyword, `IS [NOT] NULL`, a comparison, `LIKE`, `IN` or `BETWEEN .. AND ..`.
pub open spec fn continue_no_expr_spec(s: Seq<Tok>, pos: usize, end: usize, v: Value) -> Result<
    (Expr, usize),
    ParseError,
> {
    let p1 = (pos + 1) as usize;
    let p2 = (pos + 2) as usize;
    if pos >= end || next_clause(s, pos, end) {
        Ok((Expr::Value(v), pos))
    } else if tokens::peek_kw(s, pos, end, Kw::Is) {
        if tokens::peek_kw(s, p1, end, Kw::Not) {
            if tokens::peek_kw(s, p2, end, Kw::Null) {
                Ok((Expr::IsNotNull(v), (pos + 3) as usize))
            } else {
                Err(tokens::perr(p2, ParseErrorKind::ExpectedKeyword))
            }
        } else if tokens::peek_kw(s, p1, end, Kw::Null) {
            Ok((Expr::IsNull(v), p2))
        } else {
            Err(tokens::perr(p1, ParseErrorKind::ExpectedKeyword))
        }
    } else if tokens::peek_p1(s, pos, end, '=') {
        compare_rhs(s, p1, end, v, |a, b| Expr::Equal(a, b))
    } else if tokens::peek_p2(s, pos, end, '!', '=') {
        compare_rhs(s, p2, end, v, |a, b| Expr::NotEqual(a, b))
    } else if tokens::peek_p2(s, pos, end, '>', '=') {
        compare_rhs(s, p2, end, v, |a, b| Expr::GreaterThanOrEqual(a, b))
    } else if tokens::peek_p1(s, pos, end, '>') {
        compare_rhs(s, p1, end, v, |a, b| Expr::GreaterThan(a, b))
    } else if tokens::peek_p2(s, pos, end, '<', '=') {
        compare_rhs(s, p2, end, v, |a, b| Expr::LessThanOrEqual(a, b))
    } else if tokens::peek_p1(s, pos, end, '<') {
        compare_rhs(s, p1, end, v, |a, b| Expr::LessThan(a, b))
    } else if tokens::peek_kw(s, pos, end, Kw::Like) {
        compare_rhs(s, p1, end, v, |a, b| Expr::Like(a, b))
    } else if tokens::peek_kw(s, pos, end, Kw::In) {
        match parse_value_in_spec(s, p1, end) {
            Err(e) => Err(e),
            Ok((r, q)) => Ok((Expr::In(v, r), q)),
        }
    } else if tokens::peek_kw(s, pos, end, Kw::Between) {
        match parse_value_spec(s, p1, end) {
            Err(e) => Err(e),
            Ok((m, q)) => if tokens::peek_kw(s, q, end, Kw::And) {
                match parse_value_spec(s, (q + 1) as usize, end) {
                    Err(e) => Err(e),
                    Ok((r, q2)) => Ok((Expr::Between(v, m, r), q2)),
                }
            } else {
                Err(tokens::perr(q, ParseErrorKind::ExpectedKeyword))
            },
        }
    } else {
        Err(tokens::perr(pos, ParseErrorKind::Unexpected))
    }
}

pub open spec fn continue_maybe_expr_spec(s: Seq<Tok>, pos: usize, end: usize, v: Value) -> Result<
    (Expr, usize),
    ParseError,
> {
    if pos >= end || operator_lookahead(s, pos, end) {
        Ok((Expr::Value(v), pos))
    } else {
        continue_no_expr_spec(s, pos, end, v)
    }
}

/// An expression: a first operand followed by operators and operands until the
/// end of the range or a clause keyword.
pub open spec fn parse_expr_spec(s: Seq<Tok>, pos: usize, end: usize) -> Result<
    (Expr, usize),
    ParseError,
>
    decreases end - pos, 3int,
{
    if pos >= end {
        Err(tokens::perr(pos, ParseErrorKind::EmptyExpression))
    } else {
        match sub_expr_spec(s, pos, end) {
            Err(e) => Err(e),
            Ok((first, p)) => if !advances(pos, p, end) {
                Err(tokens::perr(p, ParseErrorKind::Unexpected))
            } else {
                match parse_chain_spec(s, p, end) {
                    Err(e) => Err(e),
                    Ok((chain, q)) => if chain is Nil {
                        Ok((first, q))
                    } else {
                        Ok((Expr::OperatorChain(Box::new(first), chain), q))
                    },
                }
            },
        }
    }
}

pub open spec fn parse_chain_spec(s: Seq<Tok>, pos: usize, end: usize) -> Result<
    (OpChain, usize),
    ParseError,
>
    decreases end - pos, 2int,
{
    if pos >= end || next_clause(s, pos, end) {
        Ok((OpChain::Nil, pos))
    } else {
        match parse_operator_spec(s, pos, end) {
            Err(e) => Err(e),
            Ok((op, p)) => if !advances(pos, p, end) {
                Err(tokens::perr(p, ParseErrorKind::Unexpected))
            } else {
                match sub_expr_spec(s, p, end) {
                    Err(e) => Err(e),
                    Ok((e, q)) => if !advances(p, q, end) {
                        Err(tokens::perr(q, ParseErrorKind::Unexpected))
                    } else {
                        match parse_chain_spec(s, q, end) {
                            Err(e2) => Err(e2),
                            Ok((rest, r)) => Ok(
                                (OpChain::Cons(op, Box::new(e), Box::new(rest)), r),
                            ),
                        }
                    },
                }
            },
        }
    }
}

/// One operand of a chain: `NOT operand`, a parenthesized expression, or a
/// value with what follows it.
pub open spec fn sub_expr_spec(s: Seq<Tok>, pos: usize, end: usize) -> Result<
    (Expr, usize),
    ParseError,
>
    decreases end - pos, 1int,
{
    if tokens::peek_kw(s, pos, end, Kw::Not) {
        match sub_expr_spec(s, (pos + 1) as usize, end) {
            Err(e) => Err(e),
            Ok((e, q)) => Ok((Expr::Not(Box::new(e)), q)),
        }
    } else if tokens::peek_group(s, pos, end, Delim::Paren) {
        match tokens::group_close(s, pos, end) {
            None => Err(tokens::perr(pos, ParseErrorKind::UnbalancedGroup)),
            Some(c) => match parse_expr_spec(s, (pos + 1) as usize, c) {
                Err(e) => Err(e),
                Ok((e, q)) => if q == c {
                    Ok((Expr::Parenthesized(Box::new(e)), (c + 1) as usize))
                } else {
                    Err(tokens::perr(q, ParseErrorKind::TrailingTokens))
                },
            },
        }
    } else if value_lookahead(s, pos, end) {
        match parse_value_spec(s, pos, end) {
            Err(e) => Err(e),
            Ok((v, p)) => continue_maybe_expr_spec(s, p, end, v),
        }
    } else {
        Err(tokens::perr(pos, ParseErrorKind::Unexpected))
    }
}

/// Parses `Ident (:: Ident)*` and returns the position after it.
pub fn parse_path(toks: &Vec<Tok>, pos: usize, end: usize) -> (r: Result<usize, ParseError>)
    requires
        tokens::in_range(toks@, pos, end),
    ensures
        r == parse_path_spec(toks@, pos, end),
        r matches Ok(p) ==> advances(pos, p, end),
    decreases end - pos,
{
    if !exec_peek_ident(toks, pos, end) {
        Err(make_err(pos, ParseErrorKind::ExpectedIdent))
    } else if exec_peek_p2(toks, pos + 1, end, ':', ':') {
        parse_path(toks, pos + 3, end)
    } else {
        Ok(pos + 1)
    }
}

impl Column {
    /// Parses `column` or `Path::To::Table.column`.
    pub fn parse(toks: &Vec<Tok>, pos: usize, end: usize) -> (r: Result<(Column, usize), ParseError>)
        requires
            tokens::in_range(toks@, pos, end),
        ensures
            r == parse_column_spec(toks@, pos, end),
            r matches Ok((_, p)) ==> advances(pos, p, end),
    {
        let p = parse_path(toks, pos, end)?;
        if exec_peek_p1(toks, p, end, '.') {
            if exec_peek_ident(toks, p + 1, end) {
                Ok((Column::SpecificTableColumn(pos, p, p + 1), p + 2))
            } else {
                Err(make_err(p + 1, ParseErrorKind::ExpectedIdent))
            }
        } else if p == pos + 1 {
            Ok((Column::Column(pos), p))
        } else {
            Err(make_err(p, ParseErrorKind::PathWithoutColumn))
        }
    }
}

pub fn value_lookahead_exec(toks: &Vec<Tok>, pos: usize, end: usize) -> (r: bool)
    requires
        tokens::in_range(toks@, pos, end),
    ensures
        r == value_lookahead(toks@, pos, end),
{
    exec_peek_ident(toks, pos, end) || exec_lit_len(toks, pos, end) > 0 || exec_peek_group(
        toks,
        pos,
        end,
        Delim::Brace,
    )
}

impl Value {
    /// Parses a column, a literal, or a Rust expression in braces.
    pub fn parse(toks: &Vec<Tok>, pos: usize, end: usize) -> (r: Result<(Value, usize), ParseError>)
        requires
            tokens::in_range(toks@, pos, end),
        ensures
            r == parse_value_spec(toks@, pos, end),
            r matches Ok((_, p)) ==> advances(pos, p, end),
    {
        if exec_peek_ident(toks, pos, end) {
            let (c, p) = Column::parse(toks, pos, end)?;
            Ok((Value::Column(c), p))
        } else {
            let n = exec_lit_len(toks, pos, end);
            if n > 0 {
                Ok((Value::Lit(pos, pos + n), pos + n))
            } else if exec_peek_group(toks, pos, end, Delim::Brace) {
                match exec_group_close(toks, pos, end) {
                    None => Err(make_err(pos, ParseErrorKind::UnbalancedGroup)),
                    Some(c) => {
                        if c == pos + 1 {
                            Err(make_err(c, ParseErrorKind::EmptyExpression))
                        } else {
                            Ok((Value::OutsideVariable(pos + 1, c), c + 1))
                        }
                    },
                }
            } else {
                Err(make_err(pos, ParseErrorKind::Unexpected))
            }
        }
    }
}

impl ValueList {
    /// Parses values separated by commas.
    pub fn parse(toks: &Vec<Tok>, pos: usize, end: usize) -> (r: Result<
        (ValueList, usize),
        ParseError,
    >)
        requires
            tokens::in_range(toks@, pos, end),
        ensures
            r == parse_value_list_spec(toks@, pos, end),
            r matches Ok((_, p)) ==> pos <= p <= end,
        decreases end - pos,
    {
        if pos >= end {
            return Ok((ValueList::Nil, pos));
        }
        let (v, p) = Value::parse(toks, pos, end)?;
        if p == end {
            Ok((ValueList::Cons(v, Box::new(ValueList::Nil)), p))
        } else if exec_peek_p1(toks, p, end, ',') {
            let (rest, q) = ValueList::parse(toks, p + 1, end)?;
            Ok((ValueList::Cons(v, Box::new(rest)), q))
        } else {
            Ok((ValueList::Cons(v, Box::new(ValueList::Nil)), p))
        }
    }
}

impl ValueIn {
    /// Parses `( value, ... )` or a single value.
    pub fn parse(toks: &Vec<Tok>, pos: usize, end: usize) -> (r: Result<(ValueIn, usize), ParseError>)
        requires
            tokens::in_range(toks@, pos, end),
        ensures
            r == parse_value_in_spec(toks@, pos, end),
            r matches Ok((_, p)) ==> advances(pos, p, end),
    {
        if exec_peek_group(toks, pos, end, Delim::Paren) {
            match exec_group_close(toks, pos, end) {
                None => Err(make_err(pos, ParseErrorKind::UnbalancedGroup)),
                Some(c) => {
                    let (l, q) = ValueList::parse(toks, pos + 1, c)?;
                    if q == c {
                        Ok((ValueIn::Multiple(l), c + 1))
                    } else {
                        Err(make_err(q, ParseErrorKind::TrailingTokens))
                    }
                },
            }
        } else if value_lookahead_exec(toks, pos, end) {
            let (v, p) = Value::parse(toks, pos, end)?;
            Ok((ValueIn::Single(v), p))
        } else {
            Err(make_err(pos, ParseErrorKind::Unexpected))
        }
    }
}

impl Operator {
    /// Parses one chaining operator.
    pub fn parse(toks: &Vec<Tok>, pos: usize, end: usize) -> (r: Result<(Operator, usize), ParseError>)
        requires
            tokens::in_range(toks@, pos, end),
        ensures
            r == parse_operator_spec(toks@, pos, end),
            r matches Ok((_, p)) ==> advances(pos, p, end),
    {
        if exec_peek_kw(toks, pos, end, Kw::And) {
            Ok((Operator::And, pos + 1))
        } else if exec_peek_kw(toks, pos, end, Kw::Or) {
            Ok((Operator::Or, pos + 1))
        } else if exec_peek_p1(toks, pos, end, '+') {
            Ok((Operator::Add, pos + 1))
        } else if exec_peek_p3(toks, pos, end, '-', '>', '>') {
            Ok((Operator::JsonExtract, pos + 3))
        } else if exec_peek_p2(toks, pos, end, '-', '>') {
            Ok((Operator::JsonExtract, pos + 2))
        } else if exec_peek_p1(toks, pos, end, '-') {
            Ok((Operator::Sub, pos + 1))
        } else if exec_peek_p1(toks, pos, end, '*') {
            Ok((Operator::Mul, pos + 1))
        } else if exec_peek_p1(toks, pos, end, '/') {
            Ok((Operator::Div, pos + 1))
        } else if exec_peek_p1(toks, pos, end, '%') {
            Ok((Operator::Mod, pos + 1))
        } else if exec_peek_p2(toks, pos, end, '|', '|') {
            Ok((Operator::Concat, pos + 2))
        } else if exec_peek_p1(toks, pos, end, '&') {
            Ok((Operator::BitAnd, pos + 1))
        } else if exec_peek_p1(toks, pos, end, '|') {
            Ok((Operator::BitOr, pos + 1))
        } else if exec_peek_p2(toks, pos, end, '<', '<') {
            Ok((Operator::BitShiftLeft, pos + 2))
        } else if exec_peek_p2(toks, pos, end, '>', '>') {
            Ok((Operator::BitShiftRight, pos + 2))
        } else {
            Err(make_err(pos, ParseErrorKind::Unexpected))
        }
    }
}

pub fn operator_lookahead_exec(toks: &Vec<Tok>, pos: usize, end: usize) -> (r: bool)
    requires
        tokens::in_range(toks@, pos, end),
    ensures
        r == operator_lookahead(toks@, pos, end),
{
    exec_peek_kw(toks, pos, end, Kw::And) || exec_peek_kw(toks, pos, end, Kw::Or)
        || exec_peek_p1(toks, pos, end, '+') || exec_peek_p1(toks, pos, end, '-')
        || exec_peek_p1(toks, pos, end, '*') || exec_peek_p1(toks, pos, end, '/')
        || exec_peek_p1(toks, pos, end, '%') || exec_peek_p2(toks, pos, end, '|', '|')
        || exec_peek_p3(toks, pos, end, '-', '>', '>') || exec_peek_p2(toks, pos, end, '-', '>')
        || exec_peek_p1(toks, pos, end, '&') || exec_peek_p1(toks, pos, end, '|')
        || exec_peek_p2(toks, pos, end, '<', '<') || exec_peek_p2(toks, pos, end, '>', '>')
}

/// Parses what follows a value that is not followed by an operator.
pub fn continue_parse_value_no_expr(toks: &Vec<Tok>, pos: usize, end: usize, v: Value) -> (r:
    Result<(Expr, usize), ParseError>)
    requires
        tokens::in_range(toks@, pos, end),
    ensures
        r == continue_no_expr_spec(toks@, pos, end, v),
        r matches Ok((_, p)) ==> pos <= p <= end,
{
    if pos >= end || next_clause_token(toks, pos, end) {
        Ok((Expr::Value(v), pos))
    } else if exec_peek_kw(toks, pos, end, Kw::Is) {
        if exec_peek_kw(toks, pos + 1, end, Kw::Not) {
            if exec_peek_kw(toks, pos + 2, end, Kw::Null) {
                Ok((Expr::IsNotNull(v), pos + 3))
            } else {
                Err(make_err(pos + 2, ParseErrorKind::ExpectedKeyword))
            }
        } else if exec_peek_kw(toks, pos + 1, end, Kw::Null) {
            Ok((Expr::IsNull(v), pos + 2))
        } else {
            Err(make_err(pos + 1, ParseErrorKind::ExpectedKeyword))
        }
    } else if exec_peek_p1(toks, pos, end, '=') {
        let (r, q) = Value::parse(toks, pos + 1, end)?;
        Ok((Expr::Equal(v, r), q))
    } else if exec_peek_p2(toks, pos, end, '!', '=') {
        let (r, q) = Value::parse(toks, pos + 2, end)?;
        Ok((Expr::NotEqual(v, r), q))
    } else if exec_peek_p2(toks, pos, end, '>', '=') {
        let (r, q) = Value::parse(toks, pos + 2, end)?;
        Ok((Expr::GreaterThanOrEqual(v, r), q))
    } else if exec_peek_p1(toks, pos, end, '>') {
        let (r, q) = Value::parse(toks, pos + 1, end)?;
        Ok((Expr::GreaterThan(v, r), q))
    } else if exec_peek_p2(toks, pos, end, '<', '=') {
        let (r, q) = Value::parse(toks, pos + 2, end)?;
        Ok((Expr::LessThanOrEqual(v, r), q))
    } else if exec_peek_p1(toks, pos, end, '<') {
        let (r, q) = Value::parse(toks, pos + 1, end)?;
        Ok((Expr::LessThan(v, r), q))
    } else if exec_peek_kw(toks, pos, end, Kw::Like) {
        let (r, q) = Value::parse(toks, pos + 1, end)?;
        Ok((Expr::Like(v, r), q))
    } else if exec_peek_kw(toks, pos, end, Kw::In) {
        let (r, q) = ValueIn::parse(toks, pos + 1, end)?;
        Ok((Expr::In(v, r), q))
    } else if exec_peek_kw(toks, pos, end, Kw::Between) {
        let (m, q) = Value::parse(toks, pos + 1, end)?;
        if exec_peek_kw(toks, q, end, Kw::And) {
            let (r, q2) = Value::parse(toks, q + 1, end)?;
            Ok((Expr::Between(v, m, r), q2))
        } else {
            Err(make_err(q, ParseErrorKind::ExpectedKeyword))
        }
    } else {
        Err(make_err(pos, ParseErrorKind::Unexpected))
    }
}

/// Parses what follows a value: stops before an operator, else continues as
/// [`continue_parse_value_no_expr`].
pub fn continue_parse_value_maybe_expr(toks: &Vec<Tok>, pos: usize, end: usize, v: Value) -> (r:
    Result<(Expr, usize), ParseError>)
    requires
        tokens::in_range(toks@, pos, end),
    ensures
        r == continue_maybe_expr_spec(toks@, pos, end, v),
        r matches Ok((_, p)) ==> pos <= p <= end,
{
    if pos >= end || operator_lookahead_exec(toks, pos, end) {
        Ok((Expr::Value(v), pos))
    } else {
        continue_parse_value_no_expr(toks, pos, end, v)
    }
}

/// Parses one operand of a chain.
pub fn sub_where_expr(toks: &Vec<Tok>, pos: usize, end: usize) -> (r: Result<
    (Expr, usize),
    ParseError,
>)
    requires
        tokens::in_range(toks@, pos, end),
    ensures
        r == sub_expr_spec(toks@, pos, end),
        r matches Ok((_, p)) ==> advances(pos, p, end),
    decreases end - pos, 1int,
{
    if exec_peek_kw(toks, pos, end, Kw::Not) {
        let (e, q) = sub_where_expr(toks, pos + 1, end)?;
        Ok((Expr::Not(Box::new(e)), q))
    } else if exec_peek_group(toks, pos, end, Delim::Paren) {
        match exec_group_close(toks, pos, end) {
            None => Err(make_err(pos, ParseErrorKind::UnbalancedGroup)),
            Some(c) => {
                let (e, q) = Expr::parse(toks, pos + 1, c)?;
                if q == c {
                    Ok((Expr::Parenthesized(Box::new(e)), c + 1))
                } else {
                    Err(make_err(q, ParseErrorKind::TrailingTokens))
                }
            },
        }
    } else if value_lookahead_exec(toks, pos, end) {
        let (v, p) = Value::parse(toks, pos, end)?;
        continue_parse_value_maybe_expr(toks, p, end, v)
    } else {
        Err(make_err(pos, ParseErrorKind::Unexpected))
    }
}

impl OpChain {
    /// Parses `operator operand` pairs until the end or a clause keyword.
    pub fn parse(toks: &Vec<Tok>, pos: usize, end: usize) -> (r: Result<(OpChain, usize), ParseError>)
        requires
            tokens::in_range(toks@, pos, end),
        ensures
            r == parse_chain_spec(toks@, pos, end),
            r matches Ok((_, p)) ==> pos <= p <= end && (p == end || next_clause(toks@, p, end)),
        decreases end - pos, 2int,
    {
        if pos >= end || next_clause_token(toks, pos, end) {
            return Ok((OpChain::Nil, pos));
        }
        let (op, p) = Operator::parse(toks, pos, end)?;
        let (e, q) = sub_where_expr(toks, p, end)?;
        let (rest, r) = OpChain::parse(toks, q, end)?;
        Ok((OpChain::Cons(op, Box::new(e), Box::new(rest)), r))
    }
}

impl Expr {
    /// Parses an expression; it ends at the end of the range or before a clause keyword.
    pub fn parse(toks: &Vec<Tok>, pos: usize, end: usize) -> (r: Result<(Expr, usize), ParseError>)
        requires
            tokens::in_range(toks@, pos, end),
        ensures
            r == parse_expr_spec(toks@, pos, end),
            r matches Ok((_, p)) ==> advances(pos, p, end) && (p == end || next_clause(
                toks@,
                p,
                end,
            )),
        decreases end - pos, 3int,
    {
        if pos >= end {
            return Err(make_err(pos, ParseErrorKind::EmptyExpression));
        }
        let (first, p) = sub_where_expr(toks, pos, end)?;
        let (chain, q) = OpChain::parse(toks, p, end)?;
        match chain {
            OpChain::Nil => Ok((first, q)),
            _ => Ok((Expr::OperatorChain(Box::new(first), chain), q)),
        }
    }
}

} // verus!
