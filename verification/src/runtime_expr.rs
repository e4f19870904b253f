//! Turning an expression into the runtime expression tree that the `sql!` macro
//! builds, with its compile-time checks and its bindings on the query builder.
//!
//! Operands in a boolean position (the operands of `AND`, `OR` and `NOT`) are
//! checked to be booleans: a column or Rust expression must convert into `bool`,
//! and a literal must be `true` or `false` (else a compile error is emitted).
use crate::expr::{Column, Expr, OpChain, Operator, Value, ValueIn, ValueList};
use crate::generated::{Access, Bind, Check};
use crate::query_string;
use crate::tokens::Tok;
use crate::tokens;
use vstd::prelude::*;

verus! {

/// The runtime expression tree (the library's `Expr` at run time).
#[derive(Debug, PartialEq, Eq)]
pub enum RtExpr {
    /// A column of the current table (its token index).
    Column(usize),
    /// A column of a named table: table path's token range, column's index.
    ColumnFromTable(usize, usize, usize),
    /// A bound parameter.
    Value,
    /// A position where a compile error was emitted.
    Error,
    Parenthesized(Box<RtExpr>),
    OperatorChain(Box<RtExpr>, RtChain),
    Not(Box<RtExpr>),
    IsNull(Box<RtExpr>),
    IsNotNull(Box<RtExpr>),
    Eq(Box<RtExpr>, Box<RtExpr>),
    NotEq(Box<RtExpr>, Box<RtExpr>),
    Gt(Box<RtExpr>, Box<RtExpr>),
    GtEq(Box<RtExpr>, Box<RtExpr>),
    Lt(Box<RtExpr>, Box<RtExpr>),
    LtEq(Box<RtExpr>, Box<RtExpr>),
    Like(Box<RtExpr>, Box<RtExpr>),
    In(Box<RtExpr>, RtList),
    /// `IN {iterator}`: the items of the Rust expression at the token range.
    InIterator(Box<RtExpr>, usize, usize),
    Between(Box<RtExpr>, Box<RtExpr>, Box<RtExpr>),
}

#[derive(Debug, PartialEq, Eq)]
pub enum RtChain {
    Nil,
    Cons(Operator, Box<RtExpr>, Box<RtChain>),
}

#[derive(Debug, PartialEq, Eq)]
pub enum RtList {
    Nil,
    Cons(Box<RtExpr>, Box<RtList>),
}

/// The literal at `[a, b)` is `true` or `false`.
pub open spec fn is_bool_lit(s: Seq<Tok>, a: usize, b: usize) -> bool {
    b == a + 1 && a < s.len() && match s[a as int] {
        Tok::Ident(x) => x@ == "true"@ || x@ == "false"@,
        _ => false,
    }
}

pub fn is_bool_lit_exec(toks: &Vec<Tok>, a: usize, b: usize) -> (r: bool)
    ensures
        r == is_bool_lit(toks@, a, b),
{
    if a < toks.len() && b == a + 1 {
        match &toks[a] {
            Tok::Ident(x) => tokens::str_eq(x.as_str(), "true") || tokens::str_eq(
                x.as_str(),
                "false",
            ),
            _ => false,
        }
    } else {
        false
    }
}

pub open spec fn is_and_or(op: Operator) -> bool {
    op == Operator::And || op == Operator::Or
}

/// Some operator of the chain is `AND` or `OR`.
pub open spec fn chain_has_and_or(c: OpChain) -> bool
    decreases c,
{
    match c {
        OpChain::Nil => false,
        OpChain::Cons(op, _, rest) => is_and_or(op) || chain_has_and_or(*rest),
    }
}

/// An operand of a comparison: the tree, the checks and the bindings.
pub open spec fn value_tokens(v: Value) -> (RtExpr, Seq<Check>, Seq<Bind>) {
    match v {
        Value::Column(Column::SpecificTableColumn(a, b, i)) => (
            RtExpr::ColumnFromTable(a, b, i),
            seq![Check::TableColumn(a, b, i, Access::Field)],
            Seq::empty(),
        ),
        Value::Column(Column::Column(i)) => (
            RtExpr::Column(i),
            seq![Check::Column(i, Access::Field)],
            Seq::empty(),
        ),
        Value::Lit(a, b) => (RtExpr::Value, Seq::empty(), seq![Bind::BuilderLit(a, b, true)]),
        Value::OutsideVariable(a, b) => (RtExpr::Value, Seq::empty(), seq![Bind::BuilderVar(a, b)]),
    }
}

/// Two operands, the left one first.
pub open spec fn pair_tokens(l: Value, r: Value) -> (RtExpr, RtExpr, Seq<Check>, Seq<Bind>) {
    let a = value_tokens(l);
    let b = value_tokens(r);
    (a.0, b.0, a.1 + b.1, a.2 + b.2)
}

/// A value standing alone as an expression; `bc` says whether it is in a boolean position.
/// A column is always checked: read as a field, or converted to `bool` in a boolean position.
pub open spec fn lone_value_tokens(s: Seq<Tok>, v: Value, bc: bool) -> (
    RtExpr,
    Seq<Check>,
    Seq<Bind>,
) {
    match v {
        Value::Column(Column::SpecificTableColumn(a, b, i)) => (
            RtExpr::ColumnFromTable(a, b, i),
            seq![
                Check::TableColumn(
                    a,
                    b,
                    i,
                    if bc {
                        Access::Bool
                    } else {
                        Access::Field
                    },
                ),
            ],
            Seq::empty(),
        ),
        Value::Column(Column::Column(i)) => (
            RtExpr::Column(i),
            if bc {
                seq![Check::Column(i, Access::Bool)]
            } else {
                seq![Check::Column(i, Access::Field)]
            },
            Seq::empty(),
        ),
        Value::Lit(a, b) => if bc {
            if is_bool_lit(s, a, b) {
                (RtExpr::Value, Seq::empty(), seq![Bind::BuilderLit(a, b, true)])
            } else {
                (RtExpr::Error, seq![Check::NotBoolLiteral(a, b)], Seq::empty())
            }
        } else {
            (RtExpr::Value, Seq::empty(), seq![Bind::BuilderLit(a, b, false)])
        },
        Value::OutsideVariable(a, b) => (
            RtExpr::Value,
            if bc {
                seq![Check::BoolVar(a, b)]
            } else {
                Seq::empty()
            },
            seq![Bind::BuilderVar(a, b)],
        ),
    }
}

pub open spec fn list_tokens(l: ValueList) -> (RtList, Seq<Check>, Seq<Bind>)
    decreases l,
{
    match l {
        ValueList::Nil => (RtList::Nil, Seq::empty(), Seq::empty()),
        ValueList::Cons(v, rest) => {
            let a = value_tokens(v);
            let b = list_tokens(*rest);
            (RtList::Cons(Box::new(a.0), Box::new(b.0)), a.1 + b.1, a.2 + b.2)
        },
    }
}

pub open spec fn expr_tokens(s: Seq<Tok>, e: Expr, bc: bool) -> (RtExpr, Seq<Check>, Seq<Bind>)
    decreases e,
{
    match e {
        Expr::Value(v) => lone_value_tokens(s, v, bc),
        Expr::Parenthesized(inner) => {
            let t = expr_tokens(s, *inner, bc);
            (RtExpr::Parenthesized(Box::new(t.0)), t.1, t.2)
        },
        Expr::OperatorChain(first, rest) => {
            let f = expr_tokens(s, *first, chain_has_and_or(rest));
            let c = chain_tokens(s, rest);
            (RtExpr::OperatorChain(Box::new(f.0), c.0), f.1 + c.1, f.2 + c.2)
        },
        Expr::Not(inner) => {
            let t = expr_tokens(s, *inner, true);
            (RtExpr::Not(Box::new(t.0)), t.1, t.2)
        },
        Expr::IsNull(v) => {
            let t = value_tokens(v);
            (RtExpr::IsNull(Box::new(t.0)), t.1, t.2)
        },
        Expr::IsNotNull(v) => {
            let t = value_tokens(v);
            (RtExpr::IsNotNull(Box::new(t.0)), t.1, t.2)
        },
        Expr::Equal(l, r) => {
            let p = pair_tokens(l, r);
            (RtExpr::Eq(Box::new(p.0), Box::new(p.1)), p.2, p.3)
        },
        Expr::NotEqual(l, r) => {
            let p = pair_tokens(l, r);
            (RtExpr::NotEq(Box::new(p.0), Box::new(p.1)), p.2, p.3)
        },
        Expr::GreaterThan(l, r) => {
            let p = pair_tokens(l, r);
            (RtExpr::Gt(Box::new(p.0), Box::new(p.1)), p.2, p.3)
        },
        Expr::GreaterThanOrEqual(l, r) => {
            let p = pair_tokens(l, r);
            (RtExpr::GtEq(Box::new(p.0), Box::new(p.1)), p.2, p.3)
        },
        Expr::LessThan(l, r) => {
            let p = pair_tokens(l, r);
            (RtExpr::Lt(Box::new(p.0), Box::new(p.1)), p.2, p.3)
        },
        Expr::LessThanOrEqual(l, r) => {
            let p = pair_tokens(l, r);
            (RtExpr::LtEq(Box::new(p.0), Box::new(p.1)), p.2, p.3)
        },
        Expr::Like(l, r) => {
            let p = pair_tokens(l, r);
            (RtExpr::Like(Box::new(p.0), Box::new(p.1)), p.2, p.3)
        },
        Expr::In(v, ValueIn::Single(Value::OutsideVariable(a, b))) => {
            let t = value_tokens(v);
            (RtExpr::InIterator(Box::new(t.0), a, b), t.1, t.2)
        },
        Expr::In(v, ValueIn::Single(other)) => {
            let t = value_tokens(v);
            (RtExpr::Error, t.1 + seq![Check::NotAList(other)], t.2)
        },
        Expr::In(v, ValueIn::Multiple(l)) => {
            let t = value_tokens(v);
            let u = list_tokens(l);
            (RtExpr::In(Box::new(t.0), u.0), t.1 + u.1, t.2 + u.2)
        },
        Expr::Between(v, a, b) => {
            let x = value_tokens(v);
            let y = value_tokens(a);
            let z = value_tokens(b);
            (
                RtExpr::Between(Box::new(x.0), Box::new(y.0), Box::new(z.0)),
                x.1 + y.1 + z.1,
                x.2 + y.2 + z.2,
            )
        },
    }
}

/// Each operand of a chain is in a boolean position exactly when its operator is
/// `AND` or `OR`.
pub open spec fn chain_tokens(s: Seq<Tok>, c: OpChain) -> (RtChain, Seq<Check>, Seq<Bind>)
    decreases c,
{
    match c {
        OpChain::Nil => (RtChain::Nil, Seq::empty(), Seq::empty()),
        OpChain::Cons(op, e, rest) => {
            let t = expr_tokens(s, *e, is_and_or(op));
            let r = chain_tokens(s, *rest);
            (RtChain::Cons(op, Box::new(t.0), Box::new(r.0)), t.1 + r.1, t.2 + r.2)
        },
    }
}

impl Value {
    /// The value as an operand of a comparison, with its check or binding.
    pub fn into_tokens_with_checks(&self, checks: &mut Vec<Check>, binds: &mut Vec<Bind>) -> (r:
        RtExpr)
        ensures
            r == value_tokens(*self).0,
            final(checks)@ == old(checks)@ + value_tokens(*self).1,
            final(binds)@ == old(binds)@ + value_tokens(*self).2,
    {
        match self {
            Value::Column(Column::SpecificTableColumn(a, b, i)) => {
                checks.push(Check::TableColumn(*a, *b, *i, Access::Field));
                RtExpr::ColumnFromTable(*a, *b, *i)
            },
            Value::Column(Column::Column(i)) => {
                checks.push(Check::Column(*i, Access::Field));
                RtExpr::Column(*i)
            },
            Value::Lit(a, b) => {
                binds.push(Bind::BuilderLit(*a, *b, true));
                RtExpr::Value
            },
            Value::OutsideVariable(a, b) => {
                binds.push(Bind::BuilderVar(*a, *b));
                RtExpr::Value
            },
        }
    }
}

fn convert_pair(l: &Value, r: &Value, checks: &mut Vec<Check>, binds: &mut Vec<Bind>) -> (res: (
    RtExpr,
    RtExpr,
))
    ensures
        res.0 == pair_tokens(*l, *r).0,
        res.1 == pair_tokens(*l, *r).1,
        final(checks)@ == old(checks)@ + pair_tokens(*l, *r).2,
        final(binds)@ == old(binds)@ + pair_tokens(*l, *r).3,
{
    let a = l.into_tokens_with_checks(checks, binds);
    let b = r.into_tokens_with_checks(checks, binds);
    (a, b)
}

fn lone_value_into_tokens(
    v: &Value,
    toks: &Vec<Tok>,
    checks: &mut Vec<Check>,
    binds: &mut Vec<Bind>,
    perform_bool_check: bool,
) -> (r: RtExpr)
    ensures
        r == lone_value_tokens(toks@, *v, perform_bool_check).0,
        final(checks)@ == old(checks)@ + lone_value_tokens(toks@, *v, perform_bool_check).1,
        final(binds)@ == old(binds)@ + lone_value_tokens(toks@, *v, perform_bool_check).2,
{
    match v {
        Value::Column(Column::SpecificTableColumn(a, b, i)) => {
            let access = if perform_bool_check {
                Access::Bool
            } else {
                Access::Field
            };
            checks.push(Check::TableColumn(*a, *b, *i, access));
            RtExpr::ColumnFromTable(*a, *b, *i)
        },
        Value::Column(Column::Column(i)) => {
            if perform_bool_check {
                checks.push(Check::Column(*i, Access::Bool));
            } else {
                checks.push(Check::Column(*i, Access::Field));
            }
            RtExpr::Column(*i)
        },
        Value::Lit(a, b) => {
            if perform_bool_check {
                if is_bool_lit_exec(toks, *a, *b) {
                    binds.push(Bind::BuilderLit(*a, *b, true));
                    RtExpr::Value
                } else {
                    checks.push(Check::NotBoolLiteral(*a, *b));
                    RtExpr::Error
                }
            } else {
                binds.push(Bind::BuilderLit(*a, *b, false));
                RtExpr::Value
            }
        },
        Value::OutsideVariable(a, b) => {
            if perform_bool_check {
                checks.push(Check::BoolVar(*a, *b));
            }
            binds.push(Bind::BuilderVar(*a, *b));
            RtExpr::Value
        },
    }
}

pub fn chain_has_and_or_exec(c: &OpChain) -> (r: bool)
    ensures
        r == chain_has_and_or(*c),
    decreases c,
{
    match c {
        OpChain::Nil => false,
        OpChain::Cons(op, _, rest) => {
            (*op == Operator::And || *op == Operator::Or) || chain_has_and_or_exec(rest)
        },
    }
}

impl ValueList {
    /// The values of an `IN ( ... )` list as runtime operands, in order.
    pub fn into_tokens_with_checks(&self, checks: &mut Vec<Check>, binds: &mut Vec<Bind>) -> (r:
        RtList)
        ensures
            r == list_tokens(*self).0,
            final(checks)@ == old(checks)@ + list_tokens(*self).1,
            final(binds)@ == old(binds)@ + list_tokens(*self).2,
        decreases self,
    {
        match self {
            ValueList::Nil => RtList::Nil,
            ValueList::Cons(v, rest) => {
                let a = v.into_tokens_with_checks(checks, binds);
                let b = rest.into_tokens_with_checks(checks, binds);
                RtList::Cons(Box::new(a), Box::new(b))
            },
        }
    }
}

impl Expr {
    /// The runtime expression tree of the expression, with its checks and
    /// bindings in order; `perform_bool_check` says whether the expression stands
    /// in a boolean position.
    pub fn into_tokens_with_checks(
        &self,
        toks: &Vec<Tok>,
        checks: &mut Vec<Check>,
        binds: &mut Vec<Bind>,
        perform_bool_check: bool,
    ) -> (r: RtExpr)
        ensures
            r == expr_tokens(toks@, *self, perform_bool_check).0,
            final(checks)@ == old(checks)@ + expr_tokens(toks@, *self, perform_bool_check).1,
            final(binds)@ == old(binds)@ + expr_tokens(toks@, *self, perform_bool_check).2,
        decreases self,
    {
        match self {
            Expr::Value(v) => lone_value_into_tokens(v, toks, checks, binds, perform_bool_check),
            Expr::Parenthesized(inner) => {
                let t = inner.into_tokens_with_checks(toks, checks, binds, perform_bool_check);
                RtExpr::Parenthesized(Box::new(t))
            },
            Expr::OperatorChain(first, rest) => {
                let first_bool_check = chain_has_and_or_exec(rest);
                let f = first.into_tokens_with_checks(toks, checks, binds, first_bool_check);
                let c = rest.into_tokens_with_checks(toks, checks, binds);
                RtExpr::OperatorChain(Box::new(f), c)
            },
            Expr::Not(inner) => {
                let t = inner.into_tokens_with_checks(toks, checks, binds, true);
                RtExpr::Not(Box::new(t))
            },
            Expr::IsNull(v) => {
                let t = v.into_tokens_with_checks(checks, binds);
                RtExpr::IsNull(Box::new(t))
            },
            Expr::IsNotNull(v) => {
                let t = v.into_tokens_with_checks(checks, binds);
                RtExpr::IsNotNull(Box::new(t))
            },
            Expr::Equal(l, r) => {
                let (a, b) = convert_pair(l, r, checks, binds);
                RtExpr::Eq(Box::new(a), Box::new(b))
            },
            Expr::NotEqual(l, r) => {
                let (a, b) = convert_pair(l, r, checks, binds);
                RtExpr::NotEq(Box::new(a), Box::new(b))
            },
            Expr::GreaterThan(l, r) => {
                let (a, b) = convert_pair(l, r, checks, binds);
                RtExpr::Gt(Box::new(a), Box::new(b))
            },
            Expr::GreaterThanOrEqual(l, r) => {
                let (a, b) = convert_pair(l, r, checks, binds);
                RtExpr::GtEq(Box::new(a), Box::new(b))
            },
            Expr::LessThan(l, r) => {
                let (a, b) = convert_pair(l, r, checks, binds);
                RtExpr::Lt(Box::new(a), Box::new(b))
            },
            Expr::LessThanOrEqual(l, r) => {
                let (a, b) = convert_pair(l, r, checks, binds);
                RtExpr::LtEq(Box::new(a), Box::new(b))
            },
            Expr::Like(l, r) => {
                let (a, b) = convert_pair(l, r, checks, binds);
                RtExpr::Like(Box::new(a), Box::new(b))
            },
            Expr::In(v, values) => {
                let t = v.into_tokens_with_checks(checks, binds);
                match values {
                    ValueIn::Single(Value::OutsideVariable(a, b)) => {
                        RtExpr::InIterator(Box::new(t), *a, *b)
                    },
                    ValueIn::Single(other) => {
                        checks.push(Check::NotAList(*other));
                        RtExpr::Error
                    },
                    ValueIn::Multiple(l) => {
                        let u = l.into_tokens_with_checks(checks, binds);
                        RtExpr::In(Box::new(t), u)
                    },
                }
            },
            Expr::Between(v, a, b) => {
                let x = v.into_tokens_with_checks(checks, binds);
                let y = a.into_tokens_with_checks(checks, binds);
                let z = b.into_tokens_with_checks(checks, binds);
                RtExpr::Between(Box::new(x), Box::new(y), Box::new(z))
            },
        }
    }
}

impl OpChain {
    /// The chain's operands as runtime trees; an operand is in a boolean position
    /// when its operator is `AND` or `OR`.
    pub fn into_tokens_with_checks(
        &self,
        toks: &Vec<Tok>,
        checks: &mut Vec<Check>,
        binds: &mut Vec<Bind>,
    ) -> (r: RtChain)
        ensures
            r == chain_tokens(toks@, *self).0,
            final(checks)@ == old(checks)@ + chain_tokens(toks@, *self).1,
            final(binds)@ == old(binds)@ + chain_tokens(toks@, *self).2,
        decreases self,
    {
        match self {
            OpChain::Nil => RtChain::Nil,
            OpChain::Cons(op, e, rest) => {
                let current_expected_bool = *op == Operator::And || *op == Operator::Or;
                let t = e.into_tokens_with_checks(toks, checks, binds, current_expected_bool);
                let r = rest.into_tokens_with_checks(toks, checks, binds);
                RtChain::Cons(*op, Box::new(t), Box::new(r))
            },
        }
    }
}


/// The token range that a binding binds.
pub open spec fn bind_range(b: Bind) -> (usize, usize) {
    match b {
        Bind::ArgLit(a, e) => (a, e),
        Bind::ArgVar(a, e) => (a, e),
        Bind::BuilderLit(a, e, _) => (a, e),
        Bind::BuilderVar(a, e) => (a, e),
        Bind::LimitArg(a, e) => (a, e),
    }
}

pub open spec fn bind_ranges(bs: Seq<Bind>) -> Seq<(usize, usize)> {
    bs.map_values(|b: Bind| bind_range(b))
}

/// No literal other than `true` or `false` stands in a boolean position.
pub open spec fn bool_literals_ok(s: Seq<Tok>, e: Expr, bc: bool) -> bool
    decreases e,
{
    match e {
        Expr::Value(Value::Lit(a, b)) => !bc || is_bool_lit(s, a, b),
        Expr::Parenthesized(inner) => bool_literals_ok(s, *inner, bc),
        Expr::OperatorChain(first, rest) => bool_literals_ok(s, *first, chain_has_and_or(rest))
            && chain_bool_literals_ok(s, rest),
        Expr::Not(inner) => bool_literals_ok(s, *inner, true),
        _ => true,
    }
}

pub open spec fn chain_bool_literals_ok(s: Seq<Tok>, c: OpChain) -> bool
    decreases c,
{
    match c {
        OpChain::Nil => true,
        OpChain::Cons(op, e, rest) => bool_literals_ok(s, *e, is_and_or(op))
            && chain_bool_literals_ok(s, *rest),
    }
}

proof fn lemma_bind_ranges_add(a: Seq<Bind>, b: Seq<Bind>)
    ensures
        bind_ranges(a + b) == bind_ranges(a) + bind_ranges(b),
{
    assert(bind_ranges(a + b) =~= bind_ranges(a) + bind_ranges(b));
}

proof fn lemma_value_same_binds(v: Value)
    ensures
        bind_ranges(value_tokens(v).2) == bind_ranges(query_string::value_binds(v)),
{
    assert(bind_ranges(value_tokens(v).2) =~= bind_ranges(query_string::value_binds(v)));
}

proof fn lemma_list_same_binds(l: ValueList)
    ensures
        bind_ranges(list_tokens(l).2) == bind_ranges(query_string::list_binds(l)),
    decreases l,
{
    match l {
        ValueList::Nil => {
            assert(bind_ranges(list_tokens(l).2) =~= bind_ranges(query_string::list_binds(l)));
        },
        ValueList::Cons(v, rest) => {
            lemma_value_same_binds(v);
            lemma_list_same_binds(*rest);
            lemma_bind_ranges_add(value_tokens(v).2, list_tokens(*rest).2);
            lemma_bind_ranges_add(
                query_string::value_binds(v),
                query_string::list_binds(*rest),
            );
        },
    }
}

proof fn lemma_pair_same_binds(l: Value, r: Value)
    ensures
        bind_ranges(pair_tokens(l, r).3) == bind_ranges(
            query_string::value_binds(l) + query_string::value_binds(r),
        ),
{
    lemma_value_same_binds(l);
    lemma_value_same_binds(r);
    lemma_bind_ranges_add(value_tokens(l).2, value_tokens(r).2);
    lemma_bind_ranges_add(query_string::value_binds(l), query_string::value_binds(r));
}

/// The two renderings of an expression agree on its parameters: when no literal
/// other than `true` or `false` stands in a boolean position, the runtime tree of
/// `sql!` binds the same token ranges, in the same order, as the SQL text of
/// `query!`.
pub proof fn lemma_renderings_bind_alike(s: Seq<Tok>, e: Expr, bc: bool)
    requires
        bool_literals_ok(s, e, bc),
    ensures
        bind_ranges(expr_tokens(s, e, bc).2) == bind_ranges(query_string::expr_binds(e)),
    decreases e,
{
    match e {
        Expr::Value(v) => {
            assert(bind_ranges(expr_tokens(s, e, bc).2) =~= bind_ranges(
                query_string::expr_binds(e),
            ));
        },
        Expr::Parenthesized(inner) => lemma_renderings_bind_alike(s, *inner, bc),
        Expr::OperatorChain(first, rest) => {
            lemma_renderings_bind_alike(s, *first, chain_has_and_or(rest));
            lemma_chain_renderings_bind_alike(s, rest);
            lemma_bind_ranges_add(
                expr_tokens(s, *first, chain_has_and_or(rest)).2,
                chain_tokens(s, rest).2,
            );
            lemma_bind_ranges_add(
                query_string::expr_binds(*first),
                query_string::chain_binds(rest),
            );
        },
        Expr::Not(inner) => lemma_renderings_bind_alike(s, *inner, true),
        Expr::IsNull(v) => lemma_value_same_binds(v),
        Expr::IsNotNull(v) => lemma_value_same_binds(v),
        Expr::Equal(l, r) => lemma_pair_same_binds(l, r),
        Expr::NotEqual(l, r) => lemma_pair_same_binds(l, r),
        Expr::GreaterThan(l, r) => lemma_pair_same_binds(l, r),
        Expr::GreaterThanOrEqual(l, r) => lemma_pair_same_binds(l, r),
        Expr::LessThan(l, r) => lemma_pair_same_binds(l, r),
        Expr::LessThanOrEqual(l, r) => lemma_pair_same_binds(l, r),
        Expr::Like(l, r) => lemma_pair_same_binds(l, r),
        Expr::In(v, ValueIn::Single(_)) => lemma_value_same_binds(v),
        Expr::In(v, ValueIn::Multiple(l)) => {
            lemma_value_same_binds(v);
            lemma_list_same_binds(l);
            lemma_bind_ranges_add(value_tokens(v).2, list_tokens(l).2);
            lemma_bind_ranges_add(query_string::value_binds(v), query_string::list_binds(l));
        },
        Expr::Between(v, a, b) => {
            lemma_pair_same_binds(v, a);
            lemma_value_same_binds(b);
            lemma_bind_ranges_add(value_tokens(v).2 + value_tokens(a).2, value_tokens(b).2);
            lemma_bind_ranges_add(
                query_string::value_binds(v) + query_string::value_binds(a),
                query_string::value_binds(b),
            );
        },
    }
}

/// The chain part of [`lemma_renderings_bind_alike`].
pub proof fn lemma_chain_renderings_bind_alike(s: Seq<Tok>, c: OpChain)
    requires
        chain_bool_literals_ok(s, c),
    ensures
        bind_ranges(chain_tokens(s, c).2) == bind_ranges(query_string::chain_binds(c)),
    decreases c,
{
    match c {
        OpChain::Nil => {
            assert(bind_ranges(chain_tokens(s, c).2) =~= bind_ranges(
                query_string::chain_binds(c),
            ));
        },
        OpChain::Cons(op, e, rest) => {
            lemma_renderings_bind_alike(s, *e, is_and_or(op));
            lemma_chain_renderings_bind_alike(s, *rest);
            lemma_bind_ranges_add(expr_tokens(s, *e, is_and_or(op)).2, chain_tokens(s, *rest).2);
            lemma_bind_ranges_add(query_string::expr_binds(*e), query_string::chain_binds(*rest));
        },
    }
}

/// The index of the column's name token.
pub open spec fn column_index(c: Column) -> usize {
    match c {
        Column::Column(i) => i,
        Column::SpecificTableColumn(_, _, i) => i,
    }
}

/// The value is a column whose name is the token at `i`.
pub open spec fn value_names(v: Value, i: usize) -> bool {
    v matches Value::Column(c) && column_index(c) == i
}

pub open spec fn list_names(l: ValueList, i: usize) -> bool
    decreases l,
{
    match l {
        ValueList::Nil => false,
        ValueList::Cons(v, rest) => value_names(v, i) || list_names(*rest, i),
    }
}

/// The expression names the column whose name is the token at `i`, anywhere.
pub open spec fn expr_names(e: Expr, i: usize) -> bool
    decreases e,
{
    match e {
        Expr::Value(v) => value_names(v, i),
        Expr::Parenthesized(inner) => expr_names(*inner, i),
        Expr::Not(inner) => expr_names(*inner, i),
        Expr::OperatorChain(first, rest) => expr_names(*first, i) || chain_names(rest, i),
        Expr::IsNull(v) => value_names(v, i),
        Expr::IsNotNull(v) => value_names(v, i),
        Expr::Equal(l, r) => value_names(l, i) || value_names(r, i),
        Expr::NotEqual(l, r) => value_names(l, i) || value_names(r, i),
        Expr::GreaterThan(l, r) => value_names(l, i) || value_names(r, i),
        Expr::GreaterThanOrEqual(l, r) => value_names(l, i) || value_names(r, i),
        Expr::LessThan(l, r) => value_names(l, i) || value_names(r, i),
        Expr::LessThanOrEqual(l, r) => value_names(l, i) || value_names(r, i),
        Expr::Like(l, r) => value_names(l, i) || value_names(r, i),
        Expr::In(v, ValueIn::Single(w)) => value_names(v, i) || value_names(w, i),
        Expr::In(v, ValueIn::Multiple(l)) => value_names(v, i) || list_names(l, i),
        Expr::Between(v, a, b) => value_names(v, i) || value_names(a, i) || value_names(b, i),
    }
}

pub open spec fn chain_names(c: OpChain, i: usize) -> bool
    decreases c,
{
    match c {
        OpChain::Nil => false,
        OpChain::Cons(_, e, rest) => expr_names(*e, i) || chain_names(*rest, i),
    }
}

/// The check concerns the column whose name is the token at `i`: it reads it,
/// or rejects it where a list was expected.
pub open spec fn check_names(c: Check, i: usize) -> bool {
    match c {
        Check::Column(j, _) => j == i,
        Check::TableColumn(_, _, j, _) => j == i,
        Check::NotAList(v) => value_names(v, i),
        _ => false,
    }
}

pub open spec fn checks_name(cs: Seq<Check>, i: usize) -> bool {
    exists|k: int| 0 <= k < cs.len() && check_names(#[trigger] cs[k], i)
}

proof fn lemma_checks_name_concat(a: Seq<Check>, b: Seq<Check>, i: usize)
    ensures
        checks_name(a, i) || checks_name(b, i) ==> checks_name(a + b, i),
{
    if checks_name(a, i) {
        let k = choose|k: int| 0 <= k < a.len() && check_names(#[trigger] a[k], i);
        assert((a + b)[k] == a[k]);
    } else if checks_name(b, i) {
        let k = choose|k: int| 0 <= k < b.len() && check_names(#[trigger] b[k], i);
        assert((a + b)[a.len() + k] == b[k]);
    }
}

proof fn lemma_value_checked(v: Value, i: usize)
    ensures
        value_names(v, i) ==> checks_name(value_tokens(v).1, i),
{
    if value_names(v, i) {
        assert(check_names(value_tokens(v).1[0], i));
    }
}

proof fn lemma_list_checked(l: ValueList, i: usize)
    ensures
        list_names(l, i) ==> checks_name(list_tokens(l).1, i),
    decreases l,
{
    match l {
        ValueList::Nil => {},
        ValueList::Cons(v, rest) => {
            lemma_value_checked(v, i);
            lemma_list_checked(*rest, i);
            lemma_checks_name_concat(value_tokens(v).1, list_tokens(*rest).1, i);
        },
    }
}

/// Every column that a `sql!` condition names is checked against the table at
/// compile time, whatever position it stands in.
pub proof fn lemma_every_column_checked(s: Seq<Tok>, e: Expr, bc: bool, i: usize)
    ensures
        expr_names(e, i) ==> checks_name(expr_tokens(s, e, bc).1, i),
    decreases e,
{
    match e {
        Expr::Value(v) => {
            if value_names(v, i) {
                assert(check_names(lone_value_tokens(s, v, bc).1[0], i));
            }
        },
        Expr::Parenthesized(inner) => lemma_every_column_checked(s, *inner, bc, i),
        Expr::Not(inner) => lemma_every_column_checked(s, *inner, true, i),
        Expr::OperatorChain(first, rest) => {
            lemma_every_column_checked(s, *first, chain_has_and_or(rest), i);
            lemma_chain_columns_checked(s, rest, i);
            lemma_checks_name_concat(
                expr_tokens(s, *first, chain_has_and_or(rest)).1,
                chain_tokens(s, rest).1,
                i,
            );
        },
        Expr::IsNull(v) => lemma_value_checked(v, i),
        Expr::IsNotNull(v) => lemma_value_checked(v, i),
        Expr::Equal(l, r) | Expr::NotEqual(l, r) | Expr::GreaterThan(l, r) | Expr::GreaterThanOrEqual(l, r)
        | Expr::LessThan(l, r) | Expr::LessThanOrEqual(l, r) | Expr::Like(l, r) => {
            lemma_value_checked(l, i);
            lemma_value_checked(r, i);
            lemma_checks_name_concat(value_tokens(l).1, value_tokens(r).1, i);
        },
        Expr::In(v, ValueIn::Single(w)) => {
            lemma_value_checked(v, i);
            match w {
                Value::OutsideVariable(_, _) => {},
                _ => {
                    assert(check_names(seq![Check::NotAList(w)][0], i) == value_names(w, i));
                    lemma_checks_name_concat(value_tokens(v).1, seq![Check::NotAList(w)], i);
                },
            }
        },
        Expr::In(v, ValueIn::Multiple(l)) => {
            lemma_value_checked(v, i);
            lemma_list_checked(l, i);
            lemma_checks_name_concat(value_tokens(v).1, list_tokens(l).1, i);
        },
        Expr::Between(v, a, b) => {
            lemma_value_checked(v, i);
            lemma_value_checked(a, i);
            lemma_value_checked(b, i);
            lemma_checks_name_concat(value_tokens(v).1, value_tokens(a).1, i);
            lemma_checks_name_concat(value_tokens(v).1 + value_tokens(a).1, value_tokens(b).1, i);
        },
    }
}

/// Every column that a chain's operands name is checked.
pub proof fn lemma_chain_columns_checked(s: Seq<Tok>, c: OpChain, i: usize)
    ensures
        chain_names(c, i) ==> checks_name(chain_tokens(s, c).1, i),
    decreases c,
{
    match c {
        OpChain::Nil => {},
        OpChain::Cons(op, e, rest) => {
            lemma_every_column_checked(s, *e, is_and_or(op), i);
            lemma_chain_columns_checked(s, *rest, i);
            lemma_checks_name_concat(expr_tokens(s, *e, is_and_or(op)).1, chain_tokens(s, *rest).1, i);
        },
    }
}

} // verus!
