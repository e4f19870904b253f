//! What `sql!` expands to, for each of its three input modes.
//!
//! A bare condition, and select clauses holding nothing but `WHERE`, become a
//! `WhereClause`; `SET` assignments become a list of column names with their
//! value trees; other select clauses become `SelectClauses`. Conditions stand in
//! a boolean position, assigned values and `ORDER BY` items do not. The checks
//! and bindings are collected in the order in which the expansion walks the
//! input: `WHERE`, `GROUP BY`, `HAVING`, `ORDER BY`.
use crate::clauses::{ColumnList, Limit, MacroMode, Order, OrderByList, SelectClauses, SetList};
use crate::expr::Column;
use crate::generated::{Access, Bind, Check};
use crate::runtime_expr;
use crate::runtime_expr::RtExpr;
use crate::tokens::Tok;
use vstd::prelude::*;

verus! {

/// A column at run time: its name, with its table's name for a column of a named table.
#[derive(Debug, Clone, Copy, PartialEq, Eq, Structural)]
pub enum RtColumn {
    Column(usize),
    OfTable(usize, usize, usize),
}

#[derive(Debug, PartialEq, Eq)]
pub enum RtColumnList {
    Nil,
    Cons(RtColumn, Box<RtColumnList>),
}

/// An `ORDER BY` item at run time.
#[derive(Debug, PartialEq, Eq)]
pub struct RtOrderBy {
    pub expr: RtExpr,
    pub descending: bool,
}

#[derive(Debug, PartialEq, Eq)]
pub enum RtOrderList {
    Nil,
    Cons(RtOrderBy, Box<RtOrderList>),
}

/// `SET` assignments at run time: the column's token index and the value's tree.
#[derive(Debug, PartialEq, Eq)]
pub enum RtSetList {
    Nil,
    Cons(usize, RtExpr, Box<RtSetList>),
}

/// The value that `sql!` builds.
#[derive(Debug, PartialEq, Eq)]
pub enum SqlOutput {
    /// A `WhereClause` with this condition.
    Where(RtExpr),
    /// The assignments of an update.
    Assignments(RtSetList),
    /// `SelectClauses`.
    Select {
        distinct: bool,
        where_: Option<RtExpr>,
        group_by: Option<RtColumnList>,
        having: Option<RtExpr>,
        order_by: Option<RtOrderList>,
        limit: Option<Limit>,
    },
}

pub open spec fn column_rt(c: Column) -> (RtColumn, Seq<Check>) {
    match c {
        Column::Column(i) => (RtColumn::Column(i), seq![Check::Column(i, Access::Field)]),
        Column::SpecificTableColumn(a, b, i) => (
            RtColumn::OfTable(a, b, i),
            seq![Check::TableColumn(a, b, i, Access::Field)],
        ),
    }
}

pub open spec fn columns_rt(l: ColumnList) -> (RtColumnList, Seq<Check>)
    decreases l,
{
    match l {
        ColumnList::Nil => (RtColumnList::Nil, Seq::empty()),
        ColumnList::Cons(c, rest) => {
            let h = column_rt(c);
            let t = columns_rt(*rest);
            (RtColumnList::Cons(h.0, Box::new(t.0)), h.1 + t.1)
        },
    }
}

pub open spec fn orders_rt(s: Seq<Tok>, l: OrderByList) -> (RtOrderList, Seq<Check>, Seq<Bind>)
    decreases l,
{
    match l {
        OrderByList::Nil => (RtOrderList::Nil, Seq::empty(), Seq::empty()),
        OrderByList::Cons(o, rest) => {
            let h = runtime_expr::expr_tokens(s, o.expr, false);
            let t = orders_rt(s, *rest);
            (
                RtOrderList::Cons(RtOrderBy { expr: h.0, descending: o.order == Order::Desc }, Box::new(t.0)),
                h.1 + t.1,
                h.2 + t.2,
            )
        },
    }
}

/// Each assignment's value tree; its checks and bindings come first, then the
/// check that the column exists.
pub open spec fn sets_rt(s: Seq<Tok>, l: SetList) -> (RtSetList, Seq<Check>, Seq<Bind>)
    decreases l,
{
    match l {
        SetList::Nil => (RtSetList::Nil, Seq::empty(), Seq::empty()),
        SetList::Cons(col, e, rest) => {
            let h = runtime_expr::expr_tokens(s, e, false);
            let t = sets_rt(s, *rest);
            (RtSetList::Cons(col, h.0, Box::new(t.0)), h.1.push(Check::SetColumn(col)) + t.1, h.2 + t.2)
        },
    }
}

pub open spec fn opt_condition_rt(s: Seq<Tok>, e: Option<crate::expr::Expr>) -> (Option<RtExpr>, Seq<Check>, Seq<Bind>) {
    match e {
        Some(x) => {
            let t = runtime_expr::expr_tokens(s, x, true);
            (Some(t.0), t.1, t.2)
        },
        None => (None, Seq::empty(), Seq::empty()),
    }
}

pub open spec fn select_rt(s: Seq<Tok>, c: SelectClauses) -> (SqlOutput, Seq<Check>, Seq<Bind>) {
    let w = opt_condition_rt(s, c.where_);
    let g = match c.group_by {
        Some(l) => {
            let t = columns_rt(l);
            (Some(t.0), t.1)
        },
        None => (None, Seq::empty()),
    };
    let h = opt_condition_rt(s, c.having);
    let o = match c.order_by {
        Some(l) => {
            let t = orders_rt(s, l);
            (Some(t.0), t.1, t.2)
        },
        None => (None, Seq::empty(), Seq::empty()),
    };
    (
        SqlOutput::Select {
            distinct: c.distinct,
            where_: w.0,
            group_by: g.0,
            having: h.0,
            order_by: o.0,
            limit: c.limit,
        },
        w.1 + g.1 + h.1 + o.1,
        w.2 + h.2 + o.2,
    )
}

/// What `sql!` builds from an input mode, with its checks and bindings.
pub open spec fn sql_output_spec(s: Seq<Tok>, m: MacroMode) -> (SqlOutput, Seq<Check>, Seq<Bind>) {
    match m {
        MacroMode::Expression(e) => {
            let t = runtime_expr::expr_tokens(s, e, true);
            (SqlOutput::Where(t.0), t.1, t.2)
        },
        MacroMode::SetClause(set) => {
            let t = sets_rt(s, set.updates);
            (SqlOutput::Assignments(t.0), t.1, t.2)
        },
        MacroMode::SelectClauses(c) => if !c.distinct && c.where_ is Some && c.order_by is None
            && c.group_by is None && c.having is None && c.limit is None {
            let t = runtime_expr::expr_tokens(s, c.where_->0, true);
            (SqlOutput::Where(t.0), t.1, t.2)
        } else {
            select_rt(s, c)
        },
    }
}

impl Column {
    /// The column at run time; adds the check that the column exists.
    pub fn into_tokens_with_checks(&self, checks: &mut Vec<Check>) -> (r: RtColumn)
        ensures
            r == column_rt(*self).0,
            final(checks)@ == old(checks)@ + column_rt(*self).1,
    {
        match self {
            Column::Column(i) => {
                checks.push(Check::Column(*i, Access::Field));
                RtColumn::Column(*i)
            },
            Column::SpecificTableColumn(a, b, i) => {
                checks.push(Check::TableColumn(*a, *b, *i, Access::Field));
                RtColumn::OfTable(*a, *b, *i)
            },
        }
    }
}

impl ColumnList {
    /// The columns at run time, in order.
    pub fn into_tokens_with_checks(&self, checks: &mut Vec<Check>) -> (r: RtColumnList)
        ensures
            r == columns_rt(*self).0,
            final(checks)@ == old(checks)@ + columns_rt(*self).1,
        decreases self,
    {
        match self {
            ColumnList::Nil => {
                assert(checks@ =~= checks@ + Seq::<Check>::empty());
                RtColumnList::Nil
            },
            ColumnList::Cons(c, rest) => {
                let ghost c0 = checks@;
                let h = c.into_tokens_with_checks(checks);
                let t = rest.into_tokens_with_checks(checks);
                assert(checks@ =~= c0 + (column_rt(*c).1 + columns_rt(**rest).1));
                RtColumnList::Cons(h, Box::new(t))
            },
        }
    }
}

impl OrderByList {
    /// The `ORDER BY` items at run time, in order.
    pub fn into_tokens_with_checks(&self, toks: &Vec<Tok>, checks: &mut Vec<Check>, binds: &mut Vec<Bind>) -> (r:
        RtOrderList)
        ensures
            r == orders_rt(toks@, *self).0,
            final(checks)@ == old(checks)@ + orders_rt(toks@, *self).1,
            final(binds)@ == old(binds)@ + orders_rt(toks@, *self).2,
        decreases self,
    {
        match self {
            OrderByList::Nil => {
                assert(checks@ =~= checks@ + Seq::<Check>::empty());
                assert(binds@ =~= binds@ + Seq::<Bind>::empty());
                RtOrderList::Nil
            },
            OrderByList::Cons(o, rest) => {
                let ghost c0 = checks@;
                let ghost b0 = binds@;
                let e = o.expr.into_tokens_with_checks(toks, checks, binds, false);
                let descending = match o.order {
                    Order::Asc => false,
                    Order::Desc => true,
                };
                let t = rest.into_tokens_with_checks(toks, checks, binds);
                let ghost h = runtime_expr::expr_tokens(toks@, o.expr, false);
                assert(checks@ =~= c0 + (h.1 + orders_rt(toks@, **rest).1));
                assert(binds@ =~= b0 + (h.2 + orders_rt(toks@, **rest).2));
                RtOrderList::Cons(RtOrderBy { expr: e, descending }, Box::new(t))
            },
        }
    }
}

impl SetList {
    /// The assignments at run time, in order.
    pub fn into_tokens_with_checks(&self, toks: &Vec<Tok>, checks: &mut Vec<Check>, binds: &mut Vec<Bind>) -> (r:
        RtSetList)
        ensures
            r == sets_rt(toks@, *self).0,
            final(checks)@ == old(checks)@ + sets_rt(toks@, *self).1,
            final(binds)@ == old(binds)@ + sets_rt(toks@, *self).2,
        decreases self,
    {
        match self {
            SetList::Nil => {
                assert(checks@ =~= checks@ + Seq::<Check>::empty());
                assert(binds@ =~= binds@ + Seq::<Bind>::empty());
                RtSetList::Nil
            },
            SetList::Cons(col, e, rest) => {
                let ghost c0 = checks@;
                let ghost b0 = binds@;
                let v = e.into_tokens_with_checks(toks, checks, binds, false);
                checks.push(Check::SetColumn(*col));
                let t = rest.into_tokens_with_checks(toks, checks, binds);
                let ghost h = runtime_expr::expr_tokens(toks@, *e, false);
                assert(checks@ =~= c0 + (h.1.push(Check::SetColumn(*col)) + sets_rt(toks@, **rest).1));
                assert(binds@ =~= b0 + (h.2 + sets_rt(toks@, **rest).2));
                RtSetList::Cons(*col, v, Box::new(t))
            },
        }
    }
}

fn opt_condition_tokens(
    toks: &Vec<Tok>,
    e: &Option<crate::expr::Expr>,
    checks: &mut Vec<Check>,
    binds: &mut Vec<Bind>,
) -> (r: Option<RtExpr>)
    ensures
        r == opt_condition_rt(toks@, *e).0,
        final(checks)@ == old(checks)@ + opt_condition_rt(toks@, *e).1,
        final(binds)@ == old(binds)@ + opt_condition_rt(toks@, *e).2,
{
    match e {
        Some(x) => Some(x.into_tokens_with_checks(toks, checks, binds, true)),
        None => {
            assert(checks@ =~= checks@ + Seq::<Check>::empty());
            assert(binds@ =~= binds@ + Seq::<Bind>::empty());
            None
        },
    }
}

/// What `sql!` builds from its input mode, and the checks and bindings of
/// the generated code, in order.
pub fn sql(toks: &Vec<Tok>, mode: &MacroMode) -> (r: (SqlOutput, Vec<Check>, Vec<Bind>))
    ensures
        r.0 == sql_output_spec(toks@, *mode).0,
        r.1@ == sql_output_spec(toks@, *mode).1,
        r.2@ == sql_output_spec(toks@, *mode).2,
{
    let mut checks: Vec<Check> = Vec::new();
    let mut binds: Vec<Bind> = Vec::new();
    match mode {
        MacroMode::Expression(e) => {
            let t = e.into_tokens_with_checks(toks, &mut checks, &mut binds, true);
            assert(checks@ =~= runtime_expr::expr_tokens(toks@, *e, true).1);
            assert(binds@ =~= runtime_expr::expr_tokens(toks@, *e, true).2);
            (SqlOutput::Where(t), checks, binds)
        },
        MacroMode::SetClause(set) => {
            let t = set.updates.into_tokens_with_checks(toks, &mut checks, &mut binds);
            assert(checks@ =~= sets_rt(toks@, set.updates).1);
            assert(binds@ =~= sets_rt(toks@, set.updates).2);
            (SqlOutput::Assignments(t), checks, binds)
        },
        MacroMode::SelectClauses(c) => {
            if c.only_where() {
                match &c.where_ {
                    Some(w) => {
                        let t = w.into_tokens_with_checks(toks, &mut checks, &mut binds, true);
                        assert(checks@ =~= runtime_expr::expr_tokens(toks@, *w, true).1);
                        assert(binds@ =~= runtime_expr::expr_tokens(toks@, *w, true).2);
                        (SqlOutput::Where(t), checks, binds)
                    },
                    None => {
                        assert(false);
                        (SqlOutput::Assignments(RtSetList::Nil), checks, binds)
                    },
                }
            } else {
                let where_ = opt_condition_tokens(toks, &c.where_, &mut checks, &mut binds);
                let group_by = match &c.group_by {
                    Some(l) => Some(l.into_tokens_with_checks(&mut checks)),
                    None => None,
                };
                let having = opt_condition_tokens(toks, &c.having, &mut checks, &mut binds);
                let order_by = match &c.order_by {
                    Some(l) => Some(l.into_tokens_with_checks(toks, &mut checks, &mut binds)),
                    None => None,
                };
                proof {
                    let sp = select_rt(toks@, *c);
                    let w = opt_condition_rt(toks@, c.where_);
                    let h = opt_condition_rt(toks@, c.having);
                    let g1 = match &c.group_by {
                        Some(l) => columns_rt(*l).1,
                        None => Seq::<Check>::empty(),
                    };
                    let o1 = match &c.order_by {
                        Some(l) => orders_rt(toks@, *l).1,
                        None => Seq::<Check>::empty(),
                    };
                    let o2 = match &c.order_by {
                        Some(l) => orders_rt(toks@, *l).2,
                        None => Seq::<Bind>::empty(),
                    };
                    assert(checks@ =~= w.1 + g1 + h.1 + o1);
                    assert(binds@ =~= w.2 + h.2 + o2);
                }
                (
                    SqlOutput::Select {
                        distinct: c.distinct,
                        where_,
                        group_by,
                        having,
                        order_by,
                        limit: c.limit,
                    },
                    checks,
                    binds,
                )
            }
        },
    }
}

/// A bare condition and select clauses that hold only `WHERE` with the same
/// condition expand alike: `sql!(|T| cond)` and `sql!(|T| WHERE cond)` build the
/// same `WhereClause`, with the same checks and bindings.
pub proof fn lemma_where_only_is_expression(s: Seq<Tok>, e: crate::expr::Expr)
    ensures
        sql_output_spec(s, MacroMode::SelectClauses(
            SelectClauses {
                distinct: false,
                where_: Some(e),
                order_by: None,
                group_by: None,
                having: None,
                limit: None,
            },
        )) == sql_output_spec(s, MacroMode::Expression(e)),
{
}

} // verus!
