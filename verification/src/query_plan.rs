//! Decisions that the code generators of `query!` and `query_lazy!` make
//! before they write any code: which queries a lazy query may be, the text of
//! the debug context, and the arguments of an output type.
use crate::generated::{Bind, Check, FormatParam};
use crate::expr::{Expr, OpChain, Value, ValueIn, ValueList};
use crate::query::{ExprList, QueryType, ReturningData};
use crate::query_string::{chain_count, expr_binds, expr_checks, expr_count, expr_params, expr_sql, list_count, value_count};
use crate::sql_function;
use crate::tokens::Tok;
use vstd::prelude::*;
use vstd::string::*;

verus! {

/// Why a query cannot be generated.
#[derive(Debug, Clone, Copy, PartialEq, Eq, Structural)]
pub enum GenerateError {
    /// `query_lazy!` streams rows, so an insert must return some.
    LazyInsertWithoutReturning,
    /// `query_lazy!` streams rows, so an update must return some.
    LazyUpdateWithoutReturning,
    /// `query_lazy!` streams rows, so a delete must return some.
    LazyDeleteWithoutReturning,
}

/// Whether a query can be generated: without a connection (`query_lazy!`), an
/// insert needs `RETURNING` when its driver is a single one, and an update or a
/// delete always does.
pub open spec fn lazy_check_spec(q: QueryType, has_connection: bool, single_driver: bool) -> Result<
    (),
    GenerateError,
> {
    match q {
        QueryType::Insert(i) => if !has_connection && single_driver && i.returning is None {
            Err(GenerateError::LazyInsertWithoutReturning)
        } else {
            Ok(())
        },
        QueryType::Update(u) => if !has_connection && u.returning is None {
            Err(GenerateError::LazyUpdateWithoutReturning)
        } else {
            Ok(())
        },
        QueryType::Delete(d) => if !has_connection && d.returning is None {
            Err(GenerateError::LazyDeleteWithoutReturning)
        } else {
            Ok(())
        },
        _ => Ok(()),
    }
}

/// Checks the query against the lazy mode's rules.
pub fn check_lazy_returning(q: &QueryType, has_connection: bool, single_driver: bool) -> (r: Result<
    (),
    GenerateError,
>)
    ensures
        r == lazy_check_spec(*q, has_connection, single_driver),
{
    match q {
        QueryType::Insert(i) => {
            if !has_connection && single_driver && i.returning.is_none() {
                Err(GenerateError::LazyInsertWithoutReturning)
            } else {
                Ok(())
            }
        },
        QueryType::Update(u) => {
            if !has_connection && u.returning.is_none() {
                Err(GenerateError::LazyUpdateWithoutReturning)
            } else {
                Ok(())
            }
        },
        QueryType::Delete(d) => {
            if !has_connection && d.returning.is_none() {
                Err(GenerateError::LazyDeleteWithoutReturning)
            } else {
                Ok(())
            }
        },
        _ => Ok(()),
    }
}

/// The format string of the context attached to a failed query.
pub fn debug_format_str(lazy: bool) -> (r: &'static str)
    ensures
        lazy ==> r@ == "sql query_lazy! macro input: {}"@,
        !lazy ==> r@ == "sql query! macro input: {}"@,
{
    if lazy {
        "sql query_lazy! macro input: {}"
    } else {
        "sql query! macro input: {}"
    }
}

/// The start of a select statement.
pub fn select_base_str(distinct: bool) -> (r: &'static str)
    ensures
        distinct ==> r@ == "SELECT DISTINCT "@,
        !distinct ==> r@ == "SELECT "@,
{
    if distinct {
        "SELECT DISTINCT "
    } else {
        "SELECT "
    }
}

/// One argument of an output type: the variable that holds its SQL text, the
/// text (a format string when it has format arguments), and its format arguments.
#[derive(Debug)]
pub struct ArgDef {
    pub name: String,
    pub template: String,
    pub params: Vec<FormatParam>,
}

pub open spec fn arg_def_view(d: ArgDef) -> (Seq<char>, Seq<char>, Seq<FormatParam>) {
    (d.name@, d.template@, d.params@)
}

/// The name of the variable of argument `idx`.
pub open spec fn arg_name(idx: nat) -> Seq<char> {
    "__easy_sql_returning_arg_"@ + sql_function::decimal(idx)
}

/// The parameters that the arguments add.
pub open spec fn args_count(l: ExprList) -> nat
    decreases l,
{
    match l {
        ExprList::Nil => 0,
        ExprList::Cons(e, rest) => expr_count(e) + args_count(*rest),
    }
}

pub open spec fn args_checks(l: ExprList) -> Seq<Check>
    decreases l,
{
    match l {
        ExprList::Nil => Seq::empty(),
        ExprList::Cons(e, rest) => expr_checks(e) + args_checks(*rest),
    }
}

pub open spec fn args_binds(l: ExprList) -> Seq<Bind>
    decreases l,
{
    match l {
        ExprList::Nil => Seq::empty(),
        ExprList::Cons(e, rest) => expr_binds(e) + args_binds(*rest),
    }
}

/// The definitions of the arguments from index `idx` on, whose first parameter
/// is numbered `n`.
pub open spec fn arg_defs_spec(s: Seq<Tok>, l: ExprList, idx: nat, n: int) -> Seq<
    (Seq<char>, Seq<char>, Seq<FormatParam>),
>
    decreases l,
{
    match l {
        ExprList::Nil => Seq::empty(),
        ExprList::Cons(e, rest) => seq![(arg_name(idx), expr_sql(s, e), expr_params(e, n))]
            + arg_defs_spec(s, *rest, idx + 1, n + expr_count(e)),
    }
}

fn arg_defs(
    toks: &Vec<Tok>,
    l: &ExprList,
    idx: usize,
    binds: &mut Vec<Bind>,
    checks: &mut Vec<Check>,
    param_counter: &mut usize,
) -> (r: Vec<ArgDef>)
    requires
        *old(param_counter) + args_count(*l) <= usize::MAX,
        idx + args_len(*l) <= usize::MAX,
    ensures
        r@.map_values(|d: ArgDef| arg_def_view(d)) == arg_defs_spec(toks@, *l, idx as nat, *old(param_counter) as int),
        final(binds)@ == old(binds)@ + args_binds(*l),
        final(checks)@ == old(checks)@ + args_checks(*l),
        *final(param_counter) == *old(param_counter) + args_count(*l),
    decreases l,
{
    match l {
        ExprList::Nil => {
            assert(binds@ =~= binds@ + Seq::<Bind>::empty());
            assert(checks@ =~= checks@ + Seq::<Check>::empty());
            let r: Vec<ArgDef> = Vec::new();
            assert(r@.map_values(|d: ArgDef| arg_def_view(d)) =~= Seq::empty());
            r
        },
        ExprList::Cons(e, rest) => {
            let ghost b0 = binds@;
            let ghost c0 = checks@;
            let ghost n0 = *param_counter;
            let mut params: Vec<FormatParam> = Vec::new();
            let template = e.into_query_string(toks, binds, checks, param_counter, &mut params);
            let mut name = String::from_str("__easy_sql_returning_arg_");
            let digits = sql_function::usize_to_decimal(idx);
            name.append(digits.as_str());
            let d = ArgDef { name, template, params };
            let tail = arg_defs(toks, rest, idx + 1, binds, checks, param_counter);
            let mut r: Vec<ArgDef> = Vec::new();
            r.push(d);
            let ghost dv = arg_def_view(d);
            let mut tail = tail;
            r.append(&mut tail);
            proof {
                reveal_strlit("__easy_sql_returning_arg_");
                assert(params@ =~= Seq::<FormatParam>::empty() + expr_params(*e, n0 as int));
                assert(binds@ =~= b0 + (expr_binds(*e) + args_binds(**rest)));
                assert(checks@ =~= c0 + (expr_checks(*e) + args_checks(**rest)));
                assert(r@.map_values(|d: ArgDef| arg_def_view(d)) =~= seq![dv] + arg_defs_spec(
                    toks@,
                    **rest,
                    idx as nat + 1,
                    n0 + expr_count(*e),
                ));
            }
            r
        },
    }
}

/// The number of arguments.
pub open spec fn args_len(l: ExprList) -> nat
    decreases l,
{
    match l {
        ExprList::Nil => 0,
        ExprList::Cons(_, rest) => 1 + args_len(*rest),
    }
}

/// The checks that an output type adds: whether it selects with or without
/// arguments, then the checks of its arguments.
pub open spec fn returning_checks(r: ReturningData) -> Seq<Check> {
    match r.output_args {
        Some(l) => seq![Check::OutputWithArgs(r.output_type.start, r.output_type.end)] + args_checks(l),
        None => seq![Check::OutputNormal(r.output_type.start, r.output_type.end)],
    }
}

impl ReturningData {
    /// The arguments of the output type as SQL texts in variables, numbered from
    /// the counter on; their checks and bindings are appended.
    pub fn build_arg_data(
        &self,
        toks: &Vec<Tok>,
        binds: &mut Vec<Bind>,
        checks: &mut Vec<Check>,
        param_counter: &mut usize,
    ) -> (r: Vec<ArgDef>)
        requires
            self.output_args matches Some(l) ==> *old(param_counter) + args_count(l) <= usize::MAX
                && args_len(l) <= usize::MAX,
        ensures
            final(checks)@ == old(checks)@ + returning_checks(*self),
            self.output_args matches Some(l) ==> {
                &&& r@.map_values(|d: ArgDef| arg_def_view(d)) == arg_defs_spec(toks@, l, 0, *old(param_counter) as int)
                &&& final(binds)@ == old(binds)@ + args_binds(l)
                &&& *final(param_counter) == *old(param_counter) + args_count(l)
            },
            self.output_args is None ==> r@.len() == 0 && final(binds)@ == old(binds)@,
            self.output_args is None ==> *final(param_counter) == *old(param_counter),
    {
        match &self.output_args {
            Some(l) => {
                checks.push(Check::OutputWithArgs(self.output_type.start, self.output_type.end));
                let ghost c1 = checks@;
                let r = arg_defs(toks, l, 0, binds, checks, param_counter);
                assert(checks@ =~= old(checks)@ + returning_checks(*self));
                r
            },
            None => {
                checks.push(Check::OutputNormal(self.output_type.start, self.output_type.end));
                assert(checks@ =~= old(checks)@ + returning_checks(*self));
                Vec::new()
            },
        }
    }
}

/// The output type whose arguments a query's code selects: the select's output,
/// or the `RETURNING` output of a change.
pub open spec fn query_output(q: QueryType) -> Option<ReturningData> {
    match q {
        QueryType::Select(s) => Some(s.output),
        QueryType::Insert(i) => i.returning,
        QueryType::Update(u) => u.returning,
        QueryType::Delete(d) => d.returning,
        QueryType::Exists(_) => None,
    }
}

/// Whether the generated code is a lazy query: there is no connection and the
/// driver is a single one (for a change, no connection is enough).
pub open spec fn lazy_spec(q: QueryType, has_connection: bool, single_driver: bool) -> bool {
    match q {
        QueryType::Update(_) | QueryType::Delete(_) => !has_connection,
        _ => !has_connection && single_driver,
    }
}

/// What the code generators of `query!` decide before writing code.
#[derive(Debug)]
pub struct QueryPlan {
    /// The code is a lazy query that streams rows.
    pub lazy: bool,
    /// The format string of the error context.
    pub debug_format: &'static str,
    /// The start of a select statement (`None` for other queries).
    pub select_base: Option<&'static str>,
    /// The arguments of the output type, each in a variable.
    pub output_args: Vec<ArgDef>,
    pub checks: Vec<Check>,
    pub binds: Vec<Bind>,
    /// The number of parameters the output's arguments use.
    pub param_count: usize,
}

/// The decisions of the code generators for a query: the lazy mode's rules,
/// the debug context, the statement's start, and the output's arguments
/// numbered from the first parameter.
pub fn plan_query(toks: &Vec<Tok>, q: &QueryType, has_connection: bool, single_driver: bool) -> (r: Result<
    QueryPlan,
    GenerateError,
>)
    requires
        query_output(*q) matches Some(o) ==> (o.output_args matches Some(l) ==> args_count(l) <= usize::MAX
            && args_len(l) <= usize::MAX),
    ensures
        lazy_check_spec(*q, has_connection, single_driver) matches Err(e) ==> r == Err::<QueryPlan, GenerateError>(e),
        lazy_check_spec(*q, has_connection, single_driver) is Ok ==> (r matches Ok(p) && {
            &&& p.lazy == lazy_spec(*q, has_connection, single_driver)
            &&& (p.lazy ==> p.debug_format@ == "sql query_lazy! macro input: {}"@)
            &&& (!p.lazy ==> p.debug_format@ == "sql query! macro input: {}"@)
            &&& match *q {
                QueryType::Select(s) => p.select_base matches Some(b) && (s.distinct ==> b@ == "SELECT DISTINCT "@)
                    && (!s.distinct ==> b@ == "SELECT "@),
                _ => p.select_base is None,
            }
            &&& match query_output(*q) {
                None => p.output_args@.len() == 0 && p.checks@.len() == 0 && p.binds@.len() == 0 && p.param_count == 0,
                Some(o) => {
                    &&& p.checks@ == returning_checks(o)
                    &&& match o.output_args {
                        Some(l) => p.output_args@.map_values(|d: ArgDef| arg_def_view(d)) == arg_defs_spec(toks@, l, 0, 0)
                            && p.binds@ == args_binds(l) && p.param_count == args_count(l),
                        None => p.output_args@.len() == 0 && p.binds@.len() == 0 && p.param_count == 0,
                    }
                },
            }
        }),
{
    check_lazy_returning(q, has_connection, single_driver)?;
    let lazy = match q {
        QueryType::Update(_) | QueryType::Delete(_) => !has_connection,
        _ => !has_connection && single_driver,
    };
    let select_base = match q {
        QueryType::Select(s) => Some(select_base_str(s.distinct)),
        _ => None,
    };
    let output: Option<&ReturningData> = match q {
        QueryType::Select(s) => Some(&s.output),
        QueryType::Insert(i) => i.returning.as_ref(),
        QueryType::Update(u) => u.returning.as_ref(),
        QueryType::Delete(d) => d.returning.as_ref(),
        QueryType::Exists(_) => None,
    };
    let mut checks: Vec<Check> = Vec::new();
    let mut binds: Vec<Bind> = Vec::new();
    let mut param_count: usize = 0;
    let output_args = match output {
        Some(o) => {
            let d = o.build_arg_data(toks, &mut binds, &mut checks, &mut param_count);
            assert(checks@ =~= returning_checks(*o));
            proof {
                if o.output_args is Some {
                    assert(binds@ =~= args_binds(o.output_args->0));
                }
            }
            d
        },
        None => Vec::new(),
    };
    Ok(QueryPlan { lazy, debug_format: debug_format_str(lazy), select_base, output_args, checks, binds, param_count })
}

fn add_counts(a: Option<usize>, b: Option<usize>) -> (r: Option<usize>)
    ensures
        r == match (a, b) {
            (Some(x), Some(y)) => if x + y <= usize::MAX {
                Some((x + y) as usize)
            } else {
                None
            },
            _ => None::<usize>,
        },
{
    match (a, b) {
        (Some(x), Some(y)) => x.checked_add(y),
        _ => None,
    }
}

fn value_count_exec(v: &Value) -> (r: usize)
    ensures
        r == value_count(*v),
{
    match v {
        Value::Column(_) => 0,
        _ => 1,
    }
}

/// The number of parameters of a list of values, when it fits a `usize`.
fn list_count_exec(l: &ValueList) -> (r: Option<usize>)
    ensures
        r matches Some(n) ==> n == list_count(*l),
        r is None ==> list_count(*l) > usize::MAX,
    decreases l,
{
    match l {
        ValueList::Nil => Some(0),
        ValueList::Cons(v, rest) => add_counts(Some(value_count_exec(v)), list_count_exec(rest)),
    }
}

/// The number of parameters of an expression, when it fits a `usize`.
pub fn expr_count_exec(e: &Expr) -> (r: Option<usize>)
    ensures
        r matches Some(n) ==> n == expr_count(*e),
        r is None ==> expr_count(*e) > usize::MAX,
    decreases e,
{
    let v2 = |a: &Value, b: &Value| -> (r: Option<usize>)
        ensures
            r == Some((value_count(*a) + value_count(*b)) as usize),
        { Some(value_count_exec(a) + value_count_exec(b)) };
    match e {
        Expr::Value(v) => Some(value_count_exec(v)),
        Expr::Equal(l, r) => v2(l, r),
        Expr::NotEqual(l, r) => v2(l, r),
        Expr::GreaterThan(l, r) => v2(l, r),
        Expr::GreaterThanOrEqual(l, r) => v2(l, r),
        Expr::LessThan(l, r) => v2(l, r),
        Expr::LessThanOrEqual(l, r) => v2(l, r),
        Expr::Like(l, r) => v2(l, r),
        Expr::IsNull(v) => Some(value_count_exec(v)),
        Expr::IsNotNull(v) => Some(value_count_exec(v)),
        Expr::Not(inner) => expr_count_exec(inner),
        Expr::Parenthesized(inner) => expr_count_exec(inner),
        Expr::OperatorChain(first, rest) => add_counts(expr_count_exec(first), chain_count_exec(rest)),
        Expr::In(v, ValueIn::Multiple(l)) => add_counts(Some(value_count_exec(v)), list_count_exec(l)),
        Expr::In(v, ValueIn::Single(_)) => Some(value_count_exec(v)),
        Expr::Between(v, a, b) => add_counts(v2(v, a), Some(value_count_exec(b))),
    }
}

fn chain_count_exec(c: &OpChain) -> (r: Option<usize>)
    ensures
        r matches Some(n) ==> n == chain_count(*c),
        r is None ==> chain_count(*c) > usize::MAX,
    decreases c,
{
    match c {
        OpChain::Nil => Some(0),
        OpChain::Cons(_, e, rest) => add_counts(expr_count_exec(e), chain_count_exec(rest)),
    }
}

/// The number of parameters and the number of arguments of an output type's
/// argument list, when both fit a `usize`.
fn args_counts_exec(l: &ExprList) -> (r: Option<(usize, usize)>)
    ensures
        r matches Some((c, n)) ==> c == args_count(*l) && n == args_len(*l),
        r is None ==> args_count(*l) > usize::MAX || args_len(*l) > usize::MAX,
    decreases l,
{
    match l {
        ExprList::Nil => Some((0, 0)),
        ExprList::Cons(e, rest) => match (expr_count_exec(e), args_counts_exec(rest)) {
            (Some(a), Some((c, n))) => match (a.checked_add(c), n.checked_add(1)) {
                (Some(x), Some(y)) => Some((x, y)),
                _ => None,
            },
            _ => None,
        },
    }
}

/// Whether the counts of the output's arguments fit a `usize`, as
/// [`plan_query`] requires.
pub fn output_args_fit(q: &QueryType) -> (r: bool)
    ensures
        r <==> (query_output(*q) matches Some(o) ==> (o.output_args matches Some(l) ==> args_count(l)
            <= usize::MAX && args_len(l) <= usize::MAX)),
{
    let output: Option<&ReturningData> = match q {
        QueryType::Select(s) => Some(&s.output),
        QueryType::Insert(i) => i.returning.as_ref(),
        QueryType::Update(u) => u.returning.as_ref(),
        QueryType::Delete(d) => d.returning.as_ref(),
        QueryType::Exists(_) => None,
    };
    match output {
        Some(o) => match &o.output_args {
            Some(l) => args_counts_exec(l).is_some(),
            None => true,
        },
        None => true,
    }
}

} // verus!
