//! The SQL text of the statements that `query!` writes: the clauses after the
//! table as one format string, with their format arguments, bindings and
//! checks, and the fixed start of each kind of statement. Parameters are
//! numbered from zero in the order the text names them.
use crate::clauses::{ColumnList, Limit, Order, OrderBy, OrderByList, SetList};
use crate::expr::{Column, Expr, Value};
use crate::generated::{Bind, Check, FormatParam};
use crate::query::{DeleteQuery, ExistsQuery, InsertQuery, QueryType, ReturningData, SelectQuery, SetClause, UpdateQuery};
use crate::query_plan::expr_count_exec;
use crate::syntax::Span;
use crate::query_string::{
    column_sql, consecutive, expr_binds, expr_checks, expr_count, expr_params, expr_sql, ident_string, ident_text,
    lemma_consecutive_add, lemma_expr_params_consecutive, lemma_placeholder_numbers_add, limit_binds, limit_checks,
    limit_count, limit_params, order_sql, placeholder_numbers, value_checks,
};
use crate::tokens::Tok;
use vstd::prelude::*;
use vstd::string::*;

verus! {

/// A format string with what it needs: its arguments, the bindings of its
/// parameters, the checks it adds, and the number of parameters so far.
#[derive(Debug)]
pub struct QueryText {
    pub format: String,
    pub params: Vec<FormatParam>,
    pub binds: Vec<Bind>,
    pub checks: Vec<Check>,
    pub param_count: usize,
}

/// The parts of a query text: format string, arguments, bindings, checks, and
/// number of parameters.
#[verifier::ext_equal]
pub struct TextView {
    pub format: Seq<char>,
    pub params: Seq<FormatParam>,
    pub binds: Seq<Bind>,
    pub checks: Seq<Check>,
    pub count: nat,
}

impl QueryText {
    pub open spec fn view(&self) -> TextView {
        TextView {
            format: self.format@,
            params: self.params@,
            binds: self.binds@,
            checks: self.checks@,
            count: self.param_count as nat,
        }
    }
}

/// Nothing.
pub open spec fn no_text() -> TextView {
    TextView { format: Seq::empty(), params: Seq::empty(), binds: Seq::empty(), checks: Seq::empty(), count: 0 }
}

/// `a` followed by `b`.
pub open spec fn then(a: TextView, b: TextView) -> TextView {
    TextView {
        format: a.format + b.format,
        params: a.params + b.params,
        binds: a.binds + b.binds,
        checks: a.checks + b.checks,
        count: a.count + b.count,
    }
}

/// The fixed text `t`.
pub open spec fn fixed(t: Seq<char>) -> TextView {
    TextView { format: t, params: Seq::empty(), binds: Seq::empty(), checks: Seq::empty(), count: 0 }
}

/// An expression whose first parameter is numbered `n`.
pub open spec fn expr_text(s: Seq<Tok>, e: Expr, n: int) -> TextView {
    TextView {
        format: expr_sql(s, e),
        params: expr_params(e, n),
        binds: expr_binds(e),
        checks: expr_checks(e),
        count: expr_count(e),
    }
}

/// A column of a `GROUP BY` list: a column of a named table adds its name.
pub open spec fn column_text(s: Seq<Tok>, c: Column) -> TextView {
    TextView {
        format: column_sql(s, c),
        params: match c {
            Column::SpecificTableColumn(a, b, _) => seq![FormatParam::TableName(a, b, false)],
            Column::Column(_) => Seq::empty(),
        },
        binds: Seq::empty(),
        checks: value_checks(Value::Column(c)),
        count: 0,
    }
}

/// The columns, separated by `, `.
pub open spec fn column_list_text(s: Seq<Tok>, l: ColumnList) -> TextView
    decreases l,
{
    match l {
        ColumnList::Nil => no_text(),
        ColumnList::Cons(c, rest) => match *rest {
            ColumnList::Nil => column_text(s, c),
            _ => then(then(column_text(s, c), fixed(", "@)), column_list_text(s, *rest)),
        },
    }
}

/// An `ORDER BY` item whose first parameter is numbered `n`.
pub open spec fn order_by_text(s: Seq<Tok>, o: OrderBy, n: int) -> TextView {
    then(expr_text(s, o.expr, n), fixed(" "@ + order_sql(o.order)))
}

/// The items, separated by `, `, numbered from `n`.
pub open spec fn order_list_text(s: Seq<Tok>, l: OrderByList, n: int) -> TextView
    decreases l,
{
    match l {
        OrderByList::Nil => no_text(),
        OrderByList::Cons(o, rest) => match *rest {
            OrderByList::Nil => order_by_text(s, o, n),
            _ => {
                let first = order_by_text(s, o, n);
                then(then(first, fixed(", "@)), order_list_text(s, *rest, n + first.count))
            },
        },
    }
}

/// A `LIMIT` value whose parameter (if any) is numbered `n`.
pub open spec fn limit_text(l: Limit, n: int) -> TextView {
    TextView {
        format: "{}"@,
        params: limit_params(l, n),
        binds: limit_binds(l),
        checks: limit_checks(l),
        count: limit_count(l),
    }
}

/// The number of parameters of a list of `ORDER BY` items.
pub open spec fn order_list_count(l: OrderByList) -> nat
    decreases l,
{
    match l {
        OrderByList::Nil => 0,
        OrderByList::Cons(o, rest) => expr_count(o.expr) + order_list_count(*rest),
    }
}


/// The list's text adds no parameter.
proof fn lemma_column_list_count(s: Seq<Tok>, l: ColumnList)
    ensures
        column_list_text(s, l).count == 0,
    decreases l,
{
    match l {
        ColumnList::Nil => {},
        ColumnList::Cons(_, rest) => lemma_column_list_count(s, *rest),
    }
}

/// The list's text adds the parameters of its items.
proof fn lemma_order_list_count(s: Seq<Tok>, l: OrderByList, n: int)
    ensures
        order_list_text(s, l, n).count == order_list_count(l),
    decreases l,
{
    match l {
        OrderByList::Nil => {},
        OrderByList::Cons(o, rest) => {
            lemma_order_list_count(s, *rest, n + expr_count(o.expr));
            match *rest {
                OrderByList::Nil => {},
                _ => {},
            }
        },
    }
}

impl QueryText {
    /// An empty text whose parameters are numbered from zero.
    pub fn new() -> (r: QueryText)
        ensures
            r@ == no_text(),
    {
        let r = QueryText {
            format: String::new(),
            params: Vec::new(),
            binds: Vec::new(),
            checks: Vec::new(),
            param_count: 0,
        };
        proof {
            reveal_strlit("");
        }
        assert(r@ =~= no_text());
        r
    }

    /// Appends fixed text.
    pub fn push_str(&mut self, text: &str)
        ensures
            final(self)@ == then(old(self)@, fixed(text@)),
    {
        self.format.append(text);
        assert(self@ =~= then(old(self)@, fixed(text@)));
    }

    /// Appends an expression; its parameters get the next numbers.
    pub fn push_expr(&mut self, toks: &Vec<Tok>, e: &Expr)
        requires
            old(self).param_count + expr_count(*e) <= usize::MAX,
        ensures
            final(self)@ == then(old(self)@, expr_text(toks@, *e, old(self).param_count as int)),
    {
        let text = e.into_query_string(toks, &mut self.binds, &mut self.checks, &mut self.param_count, &mut self.params);
        self.format.append(text.as_str());
        assert(self@ =~= then(old(self)@, expr_text(toks@, *e, old(self).param_count as int)));
    }

    /// Appends a column of a `GROUP BY` list.
    pub fn push_column(&mut self, toks: &Vec<Tok>, c: &Column)
        ensures
            final(self)@ == then(old(self)@, column_text(toks@, *c)),
    {
        let text = c.into_query_string(toks, &mut self.checks, &mut self.params);
        self.format.append(text.as_str());
        assert(self@ =~= then(old(self)@, column_text(toks@, *c)));
    }

    /// Appends the columns, separated by `, `.
    pub fn push_column_list(&mut self, toks: &Vec<Tok>, l: &ColumnList)
        ensures
            final(self)@ == then(old(self)@, column_list_text(toks@, *l)),
        decreases l,
    {
        match l {
            ColumnList::Nil => {
                assert(self@ =~= then(old(self)@, no_text()));
            },
            ColumnList::Cons(c, rest) => {
                self.push_column(toks, c);
                match &**rest {
                    ColumnList::Nil => {},
                    _ => {
                        let ghost mid = self@;
                        self.push_str(", ");
                        self.push_column_list(toks, rest);
                        assert(self@ =~= then(
                            old(self)@,
                            then(then(column_text(toks@, *c), fixed(", "@)), column_list_text(toks@, **rest)),
                        ));
                    },
                }
            },
        }
    }

    /// Appends an `ORDER BY` item.
    pub fn push_order_by(&mut self, toks: &Vec<Tok>, o: &OrderBy)
        requires
            old(self).param_count + expr_count(o.expr) <= usize::MAX,
        ensures
            final(self)@ == then(old(self)@, order_by_text(toks@, *o, old(self).param_count as int)),
    {
        self.push_expr(toks, &o.expr);
        match o.order {
            Order::Asc => self.push_str(" ASC"),
            Order::Desc => self.push_str(" DESC"),
        }
        proof {
            reveal_strlit(" ASC");
            reveal_strlit(" DESC");
            reveal_strlit(" ");
            reveal_strlit("ASC");
            reveal_strlit("DESC");
        }
        assert(self@ =~= then(old(self)@, order_by_text(toks@, *o, old(self).param_count as int)));
    }

    /// Appends the items, separated by `, `.
    pub fn push_order_list(&mut self, toks: &Vec<Tok>, l: &OrderByList)
        requires
            old(self).param_count + order_list_count(*l) <= usize::MAX,
        ensures
            final(self)@ == then(old(self)@, order_list_text(toks@, *l, old(self).param_count as int)),
        decreases l,
    {
        match l {
            OrderByList::Nil => {
                assert(self@ =~= then(old(self)@, no_text()));
            },
            OrderByList::Cons(o, rest) => {
                self.push_order_by(toks, o);
                match &**rest {
                    OrderByList::Nil => {},
                    _ => {
                        let ghost n0 = old(self).param_count as int;
                        self.push_str(", ");
                        self.push_order_list(toks, rest);
                        assert(self@ =~= then(
                            old(self)@,
                            then(
                                then(order_by_text(toks@, *o, n0), fixed(", "@)),
                                order_list_text(toks@, **rest, n0 + order_by_text(toks@, *o, n0).count),
                            ),
                        ));
                    },
                }
            },
        }
    }

    /// Appends a `LIMIT` value.
    pub fn push_limit(&mut self, l: &Limit)
        requires
            old(self).param_count + limit_count(*l) <= usize::MAX,
        ensures
            final(self)@ == then(old(self)@, limit_text(*l, old(self).param_count as int)),
    {
        let text = l.into_query_string(&mut self.checks, &mut self.params, &mut self.binds, &mut self.param_count);
        self.format.append(text.as_str());
        assert(self@ =~= then(old(self)@, limit_text(*l, old(self).param_count as int)));
    }
}


/// `keyword` followed by the piece, or nothing when the clause is absent.
pub open spec fn clause(keyword: Seq<char>, piece: Option<TextView>) -> TextView {
    match piece {
        Some(p) => then(fixed(keyword), p),
        None => no_text(),
    }
}

pub open spec fn opt_expr_text(s: Seq<Tok>, e: Option<Expr>, n: int) -> Option<TextView> {
    match e {
        Some(x) => Some(expr_text(s, x, n)),
        None => None,
    }
}

pub open spec fn opt_columns_text(s: Seq<Tok>, g: Option<ColumnList>) -> Option<TextView> {
    match g {
        Some(c) => Some(column_list_text(s, c)),
        None => None,
    }
}

pub open spec fn opt_orders_text(s: Seq<Tok>, o: Option<OrderByList>, n: int) -> Option<TextView> {
    match o {
        Some(x) => Some(order_list_text(s, x, n)),
        None => None,
    }
}

pub open spec fn opt_limit_text(l: Option<Limit>, n: int) -> Option<TextView> {
    match l {
        Some(x) => Some(limit_text(x, n)),
        None => None,
    }
}

/// The clauses of a select or an exists query, in the order `WHERE`, `GROUP
/// BY`, `HAVING`, `ORDER BY`, `LIMIT`, whose first parameter is numbered `n`.
pub open spec fn select_clauses_text(
    s: Seq<Tok>,
    w: Option<Expr>,
    g: Option<ColumnList>,
    h: Option<Expr>,
    o: Option<OrderByList>,
    l: Option<Limit>,
    n: int,
) -> TextView {
    let tw = clause(" WHERE "@, opt_expr_text(s, w, n));
    let tg = clause(" GROUP BY "@, opt_columns_text(s, g));
    let th = clause(" HAVING "@, opt_expr_text(s, h, n + tw.count + tg.count));
    let to = clause(" ORDER BY "@, opt_orders_text(s, o, n + tw.count + tg.count + th.count));
    let tl = clause(" LIMIT "@, opt_limit_text(l, n + tw.count + tg.count + th.count + to.count));
    then(then(then(then(tw, tg), th), to), tl)
}

pub open spec fn opt_expr_count(e: Option<Expr>) -> nat {
    match e {
        Some(x) => expr_count(x),
        None => 0,
    }
}

/// The number of parameters of the clauses of a select or an exists query.
pub open spec fn select_clauses_count(w: Option<Expr>, h: Option<Expr>, o: Option<OrderByList>, l: Option<Limit>) -> nat {
    opt_expr_count(w) + opt_expr_count(h) + match o {
        Some(x) => order_list_count(x),
        None => 0,
    } + match l {
        Some(x) => limit_count(x),
        None => 0,
    }
}

proof fn lemma_opt_columns_count(s: Seq<Tok>, g: Option<ColumnList>)
    ensures
        clause(" GROUP BY "@, opt_columns_text(s, g)).count == 0,
{
    match g {
        Some(c) => lemma_column_list_count(s, c),
        None => {},
    }
}

impl QueryText {
    /// Appends the keyword and the condition, when there is one.
    fn push_where(&mut self, toks: &Vec<Tok>, keyword: &str, w: &Option<Expr>)
        requires
            old(self).param_count + opt_expr_count(*w) <= usize::MAX,
        ensures
            final(self)@ == then(old(self)@, clause(keyword@, opt_expr_text(toks@, *w, old(self).param_count as int))),
    {
        match w {
            Some(e) => {
                self.push_str(keyword);
                self.push_expr(toks, e);
                assert(self@ =~= then(old(self)@, then(fixed(keyword@), expr_text(toks@, *e, old(self).param_count as int))));
            },
            None => {
                assert(self@ =~= then(old(self)@, no_text()));
            },
        }
    }

    /// Appends ` GROUP BY ` and the columns, when there are some.
    fn push_group_by(&mut self, toks: &Vec<Tok>, g: &Option<ColumnList>)
        ensures
            final(self)@ == then(old(self)@, clause(" GROUP BY "@, opt_columns_text(toks@, *g))),
    {
        match g {
            Some(c) => {
                self.push_str(" GROUP BY ");
                self.push_column_list(toks, c);
                assert(self@ =~= then(old(self)@, then(fixed(" GROUP BY "@), column_list_text(toks@, *c))));
            },
            None => {
                assert(self@ =~= then(old(self)@, no_text()));
            },
        }
    }

    /// Appends ` ORDER BY ` and the items, when there are some.
    fn push_order_clause(&mut self, toks: &Vec<Tok>, o: &Option<OrderByList>)
        requires
            old(self).param_count + match *o {
                Some(x) => order_list_count(x),
                None => 0,
            } <= usize::MAX,
        ensures
            final(self)@ == then(old(self)@, clause(" ORDER BY "@, opt_orders_text(toks@, *o, old(self).param_count as int))),
    {
        match o {
            Some(x) => {
                self.push_str(" ORDER BY ");
                self.push_order_list(toks, x);
                assert(self@ =~= then(
                    old(self)@,
                    then(fixed(" ORDER BY "@), order_list_text(toks@, *x, old(self).param_count as int)),
                ));
            },
            None => {
                assert(self@ =~= then(old(self)@, no_text()));
            },
        }
    }

    /// Appends ` LIMIT ` and the value, when there is one.
    fn push_limit_clause(&mut self, l: &Option<Limit>)
        requires
            old(self).param_count + match *l {
                Some(x) => limit_count(x),
                None => 0,
            } <= usize::MAX,
        ensures
            final(self)@ == then(old(self)@, clause(" LIMIT "@, opt_limit_text(*l, old(self).param_count as int))),
    {
        match l {
            Some(x) => {
                self.push_str(" LIMIT ");
                self.push_limit(x);
                assert(self@ =~= then(old(self)@, then(fixed(" LIMIT "@), limit_text(*x, old(self).param_count as int))));
            },
            None => {
                assert(self@ =~= then(old(self)@, no_text()));
            },
        }
    }

    /// Appends the clauses of a select or an exists query.
    #[verifier::rlimit(30)]
    pub fn push_select_clauses(
        &mut self,
        toks: &Vec<Tok>,
        w: &Option<Expr>,
        g: &Option<ColumnList>,
        h: &Option<Expr>,
        o: &Option<OrderByList>,
        l: &Option<Limit>,
    )
        requires
            old(self).param_count + select_clauses_count(*w, *h, *o, *l) <= usize::MAX,
        ensures
            final(self)@ == then(old(self)@, select_clauses_text(toks@, *w, *g, *h, *o, *l, old(self).param_count as int)),
    {
        let ghost s = toks@;
        let ghost n = old(self).param_count as int;
        let ghost t0 = self@;
        let ghost tw = clause(" WHERE "@, opt_expr_text(s, *w, n));
        let ghost tg = clause(" GROUP BY "@, opt_columns_text(s, *g));
        proof {
            lemma_opt_columns_count(s, *g);
        }
        let ghost th = clause(" HAVING "@, opt_expr_text(s, *h, n + tw.count + tg.count));
        let ghost to = clause(" ORDER BY "@, opt_orders_text(s, *o, n + tw.count + tg.count + th.count));
        let ghost tl = clause(" LIMIT "@, opt_limit_text(*l, n + tw.count + tg.count + th.count + to.count));
        proof {
            lemma_opt_orders_count(s, *o, n + tw.count + tg.count + th.count);
        }
        assert(tw.count == opt_expr_count(*w));
        assert(th.count == opt_expr_count(*h));
        self.push_where(toks, " WHERE ", w);
        self.push_group_by(toks, g);
        self.push_where(toks, " HAVING ", h);
        self.push_order_clause(toks, o);
        self.push_limit_clause(l);
        proof {
            lemma_then_assoc(t0, tw, tg);
            lemma_then_assoc(t0, then(tw, tg), th);
            lemma_then_assoc(t0, then(then(tw, tg), th), to);
            lemma_then_assoc(t0, then(then(then(tw, tg), th), to), tl);
        }
    }
}

/// Appending is associative.
pub proof fn lemma_then_assoc(a: TextView, b: TextView, c: TextView)
    ensures
        then(then(a, b), c) == then(a, then(b, c)),
{
    assert(then(then(a, b), c) =~= then(a, then(b, c)));
}

proof fn lemma_opt_orders_count(s: Seq<Tok>, o: Option<OrderByList>, n: int)
    ensures
        clause(" ORDER BY "@, opt_orders_text(s, o, n)).count == match o {
            Some(x) => order_list_count(x),
            None => 0,
        },
{
    match o {
        Some(x) => lemma_order_list_count(s, x, n),
        None => {},
    }
}

/// `SET` item: the assigned column, ` = `, and the new value, whose first
/// parameter is numbered `n`. The column gets a `SET` check.
pub open spec fn set_item_text(s: Seq<Tok>, col: usize, e: Expr, n: int) -> TextView {
    then(
        TextView {
            format: "{_easy_sql_d}"@ + ident_text(s, col) + "{_easy_sql_d} = "@,
            params: Seq::empty(),
            binds: Seq::empty(),
            checks: seq![Check::SetColumn(col)],
            count: 0,
        },
        expr_text(s, e, n),
    )
}

/// The `SET` items, separated by `, `, numbered from `n`.
pub open spec fn set_list_text(s: Seq<Tok>, l: SetList, n: int) -> TextView
    decreases l,
{
    match l {
        SetList::Nil => no_text(),
        SetList::Cons(col, e, rest) => match *rest {
            SetList::Nil => set_item_text(s, col, e, n),
            _ => {
                let first = set_item_text(s, col, e, n);
                then(then(first, fixed(", "@)), set_list_text(s, *rest, n + first.count))
            },
        },
    }
}

pub open spec fn set_list_count(l: SetList) -> nat
    decreases l,
{
    match l {
        SetList::Nil => 0,
        SetList::Cons(_, e, rest) => expr_count(e) + set_list_count(*rest),
    }
}

proof fn lemma_set_list_count(s: Seq<Tok>, l: SetList, n: int)
    ensures
        set_list_text(s, l, n).count == set_list_count(l),
    decreases l,
{
    match l {
        SetList::Nil => {},
        SetList::Cons(_, e, rest) => lemma_set_list_count(s, *rest, n + expr_count(e)),
    }
}

impl QueryText {
    /// An empty text whose next parameter is numbered `n`.
    pub fn starting_at(n: usize) -> (r: QueryText)
        ensures
            r@ == starting(n as nat),
    {
        let mut r = QueryText::new();
        r.param_count = n;
        assert(r@ =~= starting(n as nat));
        r
    }

    /// Appends a `SET` item.
    fn push_set_item(&mut self, toks: &Vec<Tok>, col: usize, e: &Expr)
        requires
            old(self).param_count + expr_count(*e) <= usize::MAX,
        ensures
            final(self)@ == then(old(self)@, set_item_text(toks@, col, *e, old(self).param_count as int)),
    {
        let name = ident_string(toks, col);
        self.format.append("{_easy_sql_d}");
        self.format.append(name.as_str());
        self.format.append("{_easy_sql_d} = ");
        self.checks.push(Check::SetColumn(col));
        let ghost mid = self@;
        proof {
            reveal_strlit("{_easy_sql_d}");
            reveal_strlit("{_easy_sql_d} = ");
        }
        assert(mid =~= then(
            old(self)@,
            TextView {
                format: "{_easy_sql_d}"@ + ident_text(toks@, col) + "{_easy_sql_d} = "@,
                params: Seq::empty(),
                binds: Seq::empty(),
                checks: seq![Check::SetColumn(col)],
                count: 0,
            },
        ));
        self.push_expr(toks, e);
        proof {
            lemma_then_assoc(
                old(self)@,
                TextView {
                    format: "{_easy_sql_d}"@ + ident_text(toks@, col) + "{_easy_sql_d} = "@,
                    params: Seq::empty(),
                    binds: Seq::empty(),
                    checks: seq![Check::SetColumn(col)],
                    count: 0,
                },
                expr_text(toks@, *e, old(self).param_count as int),
            );
        }
    }

    /// Appends the `SET` items, separated by `, `.
    fn push_set_list(&mut self, toks: &Vec<Tok>, l: &SetList)
        requires
            old(self).param_count + set_list_count(*l) <= usize::MAX,
        ensures
            final(self)@ == then(old(self)@, set_list_text(toks@, *l, old(self).param_count as int)),
        decreases l,
    {
        match l {
            SetList::Nil => {
                assert(self@ =~= then(old(self)@, no_text()));
            },
            SetList::Cons(col, e, rest) => {
                self.push_set_item(toks, *col, e);
                match &**rest {
                    SetList::Nil => {},
                    _ => {
                        let ghost n0 = old(self).param_count as int;
                        let ghost first = set_item_text(toks@, *col, *e, n0);
                        self.push_str(", ");
                        self.push_set_list(toks, rest);
                        proof {
                            lemma_then_assoc(old(self)@, first, fixed(", "@));
                            lemma_then_assoc(old(self)@, then(first, fixed(", "@)), set_list_text(toks@, **rest, n0 + first.count));
                        }
                    },
                }
            },
        }
    }
}

/// Nothing yet, with `n` parameters before.
pub open spec fn starting(n: nat) -> TextView {
    TextView { format: Seq::empty(), params: Seq::empty(), binds: Seq::empty(), checks: Seq::empty(), count: n }
}

/// What the generated code writes into a statement at run time, from the
/// implementations of the library's traits.
#[derive(Debug, Clone, Copy, PartialEq, Eq, Structural)]
pub enum RuntimePart {
    /// The select list of the output type at the token range.
    OutputColumns(Span),
    /// ` FROM ` and the table's name.
    FromTable,
    /// The table's name.
    TableName,
    /// The joins of the table.
    TableJoins,
    /// The column list and value rows of the values at the token range.
    InsertValues(Span),
    /// ` SET ` and the assignments of the value at the token range, whose
    /// placeholders come first and are counted at run time.
    SetFromValue(Span),
    /// ` RETURNING ` and the select list of the output type at the token range.
    Returning(Span),
}

/// A statement: its fixed start, what follows at run time, the clauses as a
/// format string, and what follows the clauses at run time.
#[derive(Debug)]
pub struct Statement {
    pub start: &'static str,
    pub runtime: Vec<RuntimePart>,
    pub clauses: QueryText,
    pub tail: Vec<RuntimePart>,
    /// `None`: the clauses' placeholder `k` is the driver's parameter `k`.
    /// `Some(v)`: it is the driver's parameter `m + k`, where `m` is the number
    /// of parameters that the value at the token range `v` binds at run time
    /// before the clauses.
    pub numbered_after: Option<Span>,
}

pub open spec fn returning_tail(r: Option<ReturningData>) -> Seq<RuntimePart> {
    match r {
        Some(o) => seq![RuntimePart::Returning(o.output_type)],
        None => Seq::empty(),
    }
}

fn push_returning(tail: &mut Vec<RuntimePart>, r: &Option<ReturningData>)
    ensures
        final(tail)@ == old(tail)@ + returning_tail(*r),
{
    match r {
        Some(o) => {
            tail.push(RuntimePart::Returning(o.output_type));
        },
        None => {},
    }
    assert(tail@ =~= old(tail)@ + returning_tail(*r));
}

/// The number of parameters of the clauses of a select.
pub open spec fn select_count(q: SelectQuery) -> nat {
    select_clauses_count(q.where_clause, q.having, q.order_by, q.limit)
}

/// `SELECT [DISTINCT] `, the output's columns, ` FROM ` and the table, its joins,
/// then the clauses, whose parameters are numbered from `first_param` (after the
/// output's arguments).
pub fn select_query(toks: &Vec<Tok>, q: &SelectQuery, first_param: usize) -> (r: Statement)
    requires
        first_param + select_count(*q) <= usize::MAX,
    ensures
        q.distinct ==> r.start@ == "SELECT DISTINCT "@,
        !q.distinct ==> r.start@ == "SELECT "@,
        r.runtime@ == seq![RuntimePart::OutputColumns(q.output.output_type), RuntimePart::FromTable, RuntimePart::TableJoins],
        r.clauses@ == then(
            starting(first_param as nat),
            select_clauses_text(toks@, q.where_clause, q.group_by, q.having, q.order_by, q.limit, first_param as int),
        ),
        r.tail@.len() == 0,
        r.numbered_after is None,
{
    let start = if q.distinct {
        "SELECT DISTINCT "
    } else {
        "SELECT "
    };
    let mut runtime: Vec<RuntimePart> = Vec::new();
    runtime.push(RuntimePart::OutputColumns(q.output.output_type));
    runtime.push(RuntimePart::FromTable);
    runtime.push(RuntimePart::TableJoins);
    let mut clauses = QueryText::starting_at(first_param);
    clauses.push_select_clauses(toks, &q.where_clause, &q.group_by, &q.having, &q.order_by, &q.limit);
    assert(runtime@ =~= seq![RuntimePart::OutputColumns(q.output.output_type), RuntimePart::FromTable, RuntimePart::TableJoins]);
    Statement { start, runtime, clauses, tail: Vec::new(), numbered_after: None }
}

/// `SELECT EXISTS(SELECT 1 FROM ` and the table, its joins, then the clauses,
/// whose parameters are numbered from zero, and the `)` that closes `EXISTS(`.
pub fn exists_query(toks: &Vec<Tok>, q: &ExistsQuery) -> (r: Statement)
    requires
        select_clauses_count(q.where_clause, q.having, q.order_by, q.limit) <= usize::MAX,
    ensures
        r.start@ == "SELECT EXISTS(SELECT 1 FROM "@,
        r.runtime@ == seq![RuntimePart::TableName, RuntimePart::TableJoins],
        r.clauses@ == then(
            then(starting(0), select_clauses_text(toks@, q.where_clause, q.group_by, q.having, q.order_by, q.limit, 0)),
            fixed(")"@),
        ),
        r.tail@.len() == 0,
        r.numbered_after is None,
{
    let mut runtime: Vec<RuntimePart> = Vec::new();
    runtime.push(RuntimePart::TableName);
    runtime.push(RuntimePart::TableJoins);
    let mut clauses = QueryText::starting_at(0);
    clauses.push_select_clauses(toks, &q.where_clause, &q.group_by, &q.having, &q.order_by, &q.limit);
    clauses.push_str(")");
    assert(runtime@ =~= seq![RuntimePart::TableName, RuntimePart::TableJoins]);
    Statement { start: "SELECT EXISTS(SELECT 1 FROM ", runtime, clauses, tail: Vec::new(), numbered_after: None }
}

/// `DELETE FROM ` and the table, then the `WHERE` clause, whose parameters are
/// numbered from zero, then the `RETURNING` output if any.
pub fn delete_query(toks: &Vec<Tok>, q: &DeleteQuery) -> (r: Statement)
    requires
        opt_expr_count(q.where_clause) <= usize::MAX,
    ensures
        r.start@ == "DELETE FROM "@,
        r.runtime@ == seq![RuntimePart::TableName],
        r.clauses@ == then(starting(0), clause(" WHERE "@, opt_expr_text(toks@, q.where_clause, 0))),
        r.tail@ == returning_tail(q.returning),
        r.numbered_after is None,
{
    let mut runtime: Vec<RuntimePart> = Vec::new();
    runtime.push(RuntimePart::TableName);
    let mut clauses = QueryText::starting_at(0);
    clauses.push_where(toks, " WHERE ", &q.where_clause);
    let mut tail: Vec<RuntimePart> = Vec::new();
    push_returning(&mut tail, &q.returning);
    assert(runtime@ =~= seq![RuntimePart::TableName]);
    assert(tail@ =~= returning_tail(q.returning));
    Statement { start: "DELETE FROM ", runtime, clauses, tail, numbered_after: None }
}

/// The assignments of an update, as a clause numbered from `n`: ` SET ` and the
/// items when they are written in the query; nothing when a value supplies them.
pub open spec fn set_clause_text(s: Seq<Tok>, c: SetClause, n: int) -> TextView {
    match c {
        SetClause::Expr(e) => then(fixed(" SET "@), set_list_text(s, e.updates, n)),
        SetClause::FromType(_) => no_text(),
    }
}

pub open spec fn set_clause_count(c: SetClause) -> nat {
    match c {
        SetClause::Expr(e) => set_list_count(e.updates),
        SetClause::FromType(_) => 0,
    }
}

pub open spec fn set_runtime(c: SetClause) -> Seq<RuntimePart> {
    match c {
        SetClause::Expr(_) => seq![RuntimePart::TableName],
        SetClause::FromType(v) => seq![RuntimePart::TableName, RuntimePart::SetFromValue(v)],
    }
}

/// The value that supplies an update's assignments, if one does.
pub open spec fn set_value(c: SetClause) -> Option<Span> {
    match c {
        SetClause::FromType(v) => Some(v),
        SetClause::Expr(_) => None,
    }
}

/// `UPDATE ` and the table, the assignments a value supplies if any, then the
/// written assignments and the `WHERE` clause, then the `RETURNING` output if
/// any. The clauses' parameters are numbered from zero after those that the
/// value binds: where a value supplies the assignments, its own parameters come
/// first and the clauses' placeholders follow them (`numbered_after`).
pub fn update_query(toks: &Vec<Tok>, q: &UpdateQuery) -> (r: Statement)
    requires
        set_clause_count(q.set_clause) + opt_expr_count(q.where_clause) <= usize::MAX,
    ensures
        r.start@ == "UPDATE "@,
        r.runtime@ == set_runtime(q.set_clause),
        r.clauses@ == then(
            then(starting(0), set_clause_text(toks@, q.set_clause, 0)),
            clause(" WHERE "@, opt_expr_text(toks@, q.where_clause, set_clause_count(q.set_clause) as int)),
        ),
        r.tail@ == returning_tail(q.returning),
        r.numbered_after == set_value(q.set_clause),
{
    let mut runtime: Vec<RuntimePart> = Vec::new();
    runtime.push(RuntimePart::TableName);
    let mut clauses = QueryText::starting_at(0);
    let mut numbered_after: Option<Span> = None;
    match &q.set_clause {
        SetClause::Expr(e) => {
            clauses.push_str(" SET ");
            clauses.push_set_list(toks, &e.updates);
            proof {
                lemma_then_assoc(starting(0), fixed(" SET "@), set_list_text(toks@, e.updates, 0));
                lemma_set_list_count(toks@, e.updates, 0);
            }
        },
        SetClause::FromType(v) => {
            runtime.push(RuntimePart::SetFromValue(*v));
            numbered_after = Some(*v);
            assert(clauses@ =~= then(starting(0), no_text()));
        },
    }
    clauses.push_where(toks, " WHERE ", &q.where_clause);
    let mut tail: Vec<RuntimePart> = Vec::new();
    push_returning(&mut tail, &q.returning);
    assert(runtime@ =~= set_runtime(q.set_clause));
    Statement { start: "UPDATE ", runtime, clauses, tail, numbered_after }
}

/// `INSERT INTO ` and the table, then the columns and value rows that the
/// values supply, then the `RETURNING` output if any. No clause is written in
/// the query.
pub fn insert_query(q: &InsertQuery) -> (r: Statement)
    ensures
        r.start@ == "INSERT INTO "@,
        r.runtime@ == seq![RuntimePart::TableName, RuntimePart::InsertValues(q.values)],
        r.clauses@ == no_text(),
        r.tail@ == returning_tail(q.returning),
        r.numbered_after is None,
{
    let mut runtime: Vec<RuntimePart> = Vec::new();
    runtime.push(RuntimePart::TableName);
    runtime.push(RuntimePart::InsertValues(q.values));
    let mut tail: Vec<RuntimePart> = Vec::new();
    push_returning(&mut tail, &q.returning);
    assert(runtime@ =~= seq![RuntimePart::TableName, RuntimePart::InsertValues(q.values)]);
    Statement { start: "INSERT INTO ", runtime, clauses: QueryText::new(), tail, numbered_after: None }
}

/// The text's placeholder arguments carry the numbers `n, n + 1, ...` in
/// order, one per parameter, and it binds one value per parameter.
pub open spec fn numbered_from(t: TextView, n: int) -> bool {
    &&& placeholder_numbers(t.params) == consecutive(n, t.count)
    &&& t.binds.len() == t.count
}

proof fn lemma_empty_numbered(t: TextView, n: int)
    requires
        t.params.len() == 0,
        t.binds.len() == 0,
        t.count == 0,
    ensures
        numbered_from(t, n),
{
    assert(placeholder_numbers(t.params) =~= Seq::<int>::empty());
    assert(consecutive(n, 0) =~= Seq::<int>::empty());
}

proof fn lemma_then_numbered(a: TextView, b: TextView, n: int)
    requires
        numbered_from(a, n),
        numbered_from(b, n + a.count),
    ensures
        numbered_from(then(a, b), n),
{
    lemma_placeholder_numbers_add(a.params, b.params);
    lemma_consecutive_add(n, a.count, b.count);
}

proof fn lemma_expr_numbered(s: Seq<Tok>, e: Expr, n: int)
    requires
        0 <= n,
        n + expr_count(e) <= usize::MAX,
    ensures
        numbered_from(expr_text(s, e, n), n),
{
    lemma_expr_params_consecutive(e, n);
}

proof fn lemma_column_list_numbered(s: Seq<Tok>, l: ColumnList, n: int)
    ensures
        numbered_from(column_list_text(s, l), n),
    decreases l,
{
    match l {
        ColumnList::Nil => lemma_empty_numbered(no_text(), n),
        ColumnList::Cons(c, rest) => {
            let ct = column_text(s, c);
            assert(numbered_from(ct, n)) by {
                assert(ct.params.len() <= 1);
                if ct.params.len() == 1 {
                    assert(ct.params.drop_first() =~= Seq::<FormatParam>::empty());
                    assert(placeholder_numbers(ct.params.drop_first()) =~= Seq::<int>::empty());
                }
                assert(placeholder_numbers(ct.params) =~= Seq::<int>::empty());
                assert(consecutive(n, 0) =~= Seq::<int>::empty());
            }
            match *rest {
                ColumnList::Nil => {},
                _ => {
                    lemma_empty_numbered(fixed(", "@), n);
                    lemma_then_numbered(ct, fixed(", "@), n);
                    lemma_column_list_numbered(s, *rest, n);
                    lemma_then_numbered(then(ct, fixed(", "@)), column_list_text(s, *rest), n);
                },
            }
        },
    }
}

proof fn lemma_order_list_numbered(s: Seq<Tok>, l: OrderByList, n: int)
    requires
        0 <= n,
        n + order_list_count(l) <= usize::MAX,
    ensures
        numbered_from(order_list_text(s, l, n), n),
    decreases l,
{
    match l {
        OrderByList::Nil => lemma_empty_numbered(no_text(), n),
        OrderByList::Cons(o, rest) => {
            let first = order_by_text(s, o, n);
            lemma_expr_numbered(s, o.expr, n);
            lemma_empty_numbered(fixed(" "@ + order_sql(o.order)), n + expr_count(o.expr));
            lemma_then_numbered(expr_text(s, o.expr, n), fixed(" "@ + order_sql(o.order)), n);
            match *rest {
                OrderByList::Nil => {},
                _ => {
                    lemma_empty_numbered(fixed(", "@), n + first.count);
                    lemma_then_numbered(first, fixed(", "@), n);
                    lemma_order_list_numbered(s, *rest, n + first.count);
                    lemma_then_numbered(then(first, fixed(", "@)), order_list_text(s, *rest, n + first.count), n);
                },
            }
        },
    }
}

proof fn lemma_limit_numbered(l: Limit, n: int)
    requires
        0 <= n <= usize::MAX,
    ensures
        numbered_from(limit_text(l, n), n),
{
    let t = limit_text(l, n);
    assert(t.params.drop_first() =~= Seq::<FormatParam>::empty());
    assert(placeholder_numbers(t.params.drop_first()) =~= Seq::<int>::empty());
    match l {
        Limit::Literal(_) => {
            assert(placeholder_numbers(t.params) =~= Seq::<int>::empty());
            assert(consecutive(n, 0) =~= Seq::<int>::empty());
        },
        Limit::Expr(_, _) => {
            assert(placeholder_numbers(t.params) =~= seq![n]);
            assert(consecutive(n, 1) =~= seq![n]);
        },
    }
}

proof fn lemma_clause_numbered(kw: Seq<char>, p: Option<TextView>, n: int)
    requires
        p matches Some(t) ==> numbered_from(t, n),
    ensures
        numbered_from(clause(kw, p), n),
{
    match p {
        Some(t) => {
            lemma_empty_numbered(fixed(kw), n);
            lemma_then_numbered(fixed(kw), t, n);
        },
        None => lemma_empty_numbered(no_text(), n),
    }
}

/// The clauses of a select or an exists query number their parameters
/// consecutively: their placeholder arguments carry `n, n + 1, ...` in the
/// order the text names them, and they bind one value per parameter.
pub proof fn lemma_select_clauses_numbered(
    s: Seq<Tok>,
    w: Option<Expr>,
    g: Option<ColumnList>,
    h: Option<Expr>,
    o: Option<OrderByList>,
    l: Option<Limit>,
    n: int,
)
    requires
        0 <= n,
        n + select_clauses_count(w, h, o, l) <= usize::MAX,
    ensures
        numbered_from(select_clauses_text(s, w, g, h, o, l, n), n),
        select_clauses_text(s, w, g, h, o, l, n).count == select_clauses_count(w, h, o, l),
{
    let tw = clause(" WHERE "@, opt_expr_text(s, w, n));
    let tg = clause(" GROUP BY "@, opt_columns_text(s, g));
    lemma_opt_columns_count(s, g);
    let th = clause(" HAVING "@, opt_expr_text(s, h, n + tw.count + tg.count));
    let n3 = n + tw.count + tg.count + th.count;
    let to = clause(" ORDER BY "@, opt_orders_text(s, o, n3));
    lemma_opt_orders_count(s, o, n3);
    let n4 = n3 + to.count;
    let tl = clause(" LIMIT "@, opt_limit_text(l, n4));
    match w {
        Some(e) => lemma_expr_numbered(s, e, n),
        None => {},
    }
    lemma_clause_numbered(" WHERE "@, opt_expr_text(s, w, n), n);
    match g {
        Some(c) => lemma_column_list_numbered(s, c, n + tw.count),
        None => {},
    }
    lemma_clause_numbered(" GROUP BY "@, opt_columns_text(s, g), n + tw.count);
    match h {
        Some(e) => lemma_expr_numbered(s, e, n + tw.count + tg.count),
        None => {},
    }
    lemma_clause_numbered(" HAVING "@, opt_expr_text(s, h, n + tw.count + tg.count), n + tw.count + tg.count);
    match o {
        Some(x) => lemma_order_list_numbered(s, x, n3),
        None => {},
    }
    lemma_clause_numbered(" ORDER BY "@, opt_orders_text(s, o, n3), n3);
    match l {
        Some(x) => lemma_limit_numbered(x, n4),
        None => {},
    }
    lemma_clause_numbered(" LIMIT "@, opt_limit_text(l, n4), n4);
    lemma_then_numbered(tw, tg, n);
    lemma_then_numbered(then(tw, tg), th, n);
    lemma_then_numbered(then(then(tw, tg), th), to, n);
    lemma_then_numbered(then(then(then(tw, tg), th), to), tl, n);
}

proof fn lemma_set_list_numbered(s: Seq<Tok>, l: SetList, n: int)
    requires
        0 <= n,
        n + set_list_count(l) <= usize::MAX,
    ensures
        numbered_from(set_list_text(s, l, n), n),
    decreases l,
{
    match l {
        SetList::Nil => lemma_empty_numbered(no_text(), n),
        SetList::Cons(col, e, rest) => {
            let head = TextView {
                format: "{_easy_sql_d}"@ + ident_text(s, col) + "{_easy_sql_d} = "@,
                params: Seq::empty(),
                binds: Seq::empty(),
                checks: seq![Check::SetColumn(col)],
                count: 0,
            };
            lemma_empty_numbered(head, n);
            lemma_expr_numbered(s, e, n);
            lemma_then_numbered(head, expr_text(s, e, n), n);
            let first = set_item_text(s, col, e, n);
            match *rest {
                SetList::Nil => {},
                _ => {
                    lemma_empty_numbered(fixed(", "@), n + first.count);
                    lemma_then_numbered(first, fixed(", "@), n);
                    lemma_set_list_numbered(s, *rest, n + first.count);
                    lemma_then_numbered(then(first, fixed(", "@)), set_list_text(s, *rest, n + first.count), n);
                },
            }
        },
    }
}

/// The clauses of an update number their parameters consecutively from zero:
/// first the written assignments, then the `WHERE` condition.
pub proof fn lemma_update_clauses_numbered(s: Seq<Tok>, c: SetClause, w: Option<Expr>)
    requires
        set_clause_count(c) + opt_expr_count(w) <= usize::MAX,
    ensures
        numbered_from(
            then(set_clause_text(s, c, 0), clause(" WHERE "@, opt_expr_text(s, w, set_clause_count(c) as int))),
            0,
        ),
{
    match c {
        SetClause::Expr(e) => {
            lemma_set_list_numbered(s, e.updates, 0);
            lemma_set_list_count(s, e.updates, 0);
            lemma_empty_numbered(fixed(" SET "@), 0);
            lemma_then_numbered(fixed(" SET "@), set_list_text(s, e.updates, 0), 0);
        },
        SetClause::FromType(_) => lemma_empty_numbered(no_text(), 0),
    }
    let n = set_clause_count(c) as int;
    match w {
        Some(x) => lemma_expr_numbered(s, x, n),
        None => {},
    }
    lemma_clause_numbered(" WHERE "@, opt_expr_text(s, w, n), n);
    lemma_then_numbered(set_clause_text(s, c, 0), clause(" WHERE "@, opt_expr_text(s, w, n)), 0);
}

fn opt_expr_count_exec(e: &Option<Expr>) -> (r: Option<usize>)
    ensures
        r matches Some(n) ==> n == opt_expr_count(*e),
        r is None ==> opt_expr_count(*e) > usize::MAX,
{
    match e {
        Some(x) => expr_count_exec(x),
        None => Some(0),
    }
}

fn order_list_count_exec(l: &OrderByList) -> (r: Option<usize>)
    ensures
        r matches Some(n) ==> n == order_list_count(*l),
        r is None ==> order_list_count(*l) > usize::MAX,
    decreases l,
{
    match l {
        OrderByList::Nil => Some(0),
        OrderByList::Cons(o, rest) => match (expr_count_exec(&o.expr), order_list_count_exec(rest)) {
            (Some(a), Some(b)) => a.checked_add(b),
            _ => None,
        },
    }
}

fn set_list_count_exec(l: &SetList) -> (r: Option<usize>)
    ensures
        r matches Some(n) ==> n == set_list_count(*l),
        r is None ==> set_list_count(*l) > usize::MAX,
    decreases l,
{
    match l {
        SetList::Nil => Some(0),
        SetList::Cons(_, e, rest) => match (expr_count_exec(e), set_list_count_exec(rest)) {
            (Some(a), Some(b)) => a.checked_add(b),
            _ => None,
        },
    }
}

/// The number of parameters of a select's or an exists query's clauses, when
/// it fits a `usize`.
fn select_clauses_count_exec(w: &Option<Expr>, h: &Option<Expr>, o: &Option<OrderByList>, l: &Option<Limit>) -> (r:
    Option<usize>)
    ensures
        r matches Some(n) ==> n == select_clauses_count(*w, *h, *o, *l),
        r is None ==> select_clauses_count(*w, *h, *o, *l) > usize::MAX,
{
    let cw = opt_expr_count_exec(w);
    let ch = opt_expr_count_exec(h);
    let co = match o {
        Some(x) => order_list_count_exec(x),
        None => Some(0),
    };
    let cl: usize = match l {
        Some(Limit::Expr(_, _)) => 1,
        _ => 0,
    };
    match (cw, ch, co) {
        (Some(a), Some(b), Some(c)) => match a.checked_add(b) {
            Some(ab) => match ab.checked_add(c) {
                Some(abc) => abc.checked_add(cl),
                None => None,
            },
            None => None,
        },
        _ => None,
    }
}

/// Whether the parameter counts of the query's statement fit a `usize` when
/// its numbering starts at `first_param`, as the statement builders require.
pub fn statement_fits(q: &QueryType, first_param: usize) -> (r: bool)
    ensures
        r <==> match *q {
            QueryType::Select(s) => first_param + select_count(s) <= usize::MAX,
            QueryType::Exists(e) => select_clauses_count(e.where_clause, e.having, e.order_by, e.limit) <= usize::MAX,
            QueryType::Delete(d) => opt_expr_count(d.where_clause) <= usize::MAX,
            QueryType::Update(u) => set_clause_count(u.set_clause) + opt_expr_count(u.where_clause) <= usize::MAX,
            QueryType::Insert(_) => true,
        },
{
    match q {
        QueryType::Select(s) => match select_clauses_count_exec(&s.where_clause, &s.having, &s.order_by, &s.limit) {
            Some(n) => first_param.checked_add(n).is_some(),
            None => false,
        },
        QueryType::Exists(e) => select_clauses_count_exec(&e.where_clause, &e.having, &e.order_by, &e.limit).is_some(),
        QueryType::Delete(d) => opt_expr_count_exec(&d.where_clause).is_some(),
        QueryType::Update(u) => {
            let cs = match &u.set_clause {
                SetClause::Expr(x) => set_list_count_exec(&x.updates),
                SetClause::FromType(_) => Some(0),
            };
            match (cs, opt_expr_count_exec(&u.where_clause)) {
                (Some(a), Some(b)) => a.checked_add(b).is_some(),
                _ => false,
            }
        },
        QueryType::Insert(_) => true,
    }
}

/// An `ORDER BY` item is written in its own direction: the expression, then
/// ` ASC` for an ascending item and ` DESC` for a descending one, both in the
/// clause text of a query and in the item's own rendering.
pub proof fn lemma_order_direction(s: Seq<Tok>, o: OrderBy, n: int)
    ensures
        o.order == Order::Asc ==> order_by_text(s, o, n).format == expr_sql(s, o.expr) + " ASC"@,
        o.order == Order::Desc ==> order_by_text(s, o, n).format == expr_sql(s, o.expr) + " DESC"@,
        o.order == Order::Asc ==> expr_sql(s, o.expr) + " "@ + order_sql(o.order) == expr_sql(s, o.expr) + " ASC"@,
        o.order == Order::Desc ==> expr_sql(s, o.expr) + " "@ + order_sql(o.order) == expr_sql(s, o.expr) + " DESC"@,
{
    reveal_strlit(" ");
    reveal_strlit("ASC");
    reveal_strlit("DESC");
    reveal_strlit(" ASC");
    reveal_strlit(" DESC");
    assert(order_by_text(s, o, n).format =~= expr_sql(s, o.expr) + (" "@ + order_sql(o.order)));
    assert(expr_sql(s, o.expr) + " "@ + order_sql(o.order) =~= expr_sql(s, o.expr) + (" "@ + order_sql(o.order)));
    if o.order == Order::Asc {
        assert(" "@ + "ASC"@ =~= " ASC"@);
    } else {
        assert(" "@ + "DESC"@ =~= " DESC"@);
    }
}

} // verus!
