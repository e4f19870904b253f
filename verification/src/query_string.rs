//! Rendering an expression as the SQL text of a `format!` string, for the
//! `query!` macro.
//!
//! The text writes `{}` where a format argument goes: a table name, or a
//! parameter placeholder of the driver. Identifiers are wrapped in the driver's
//! delimiter, written as the named argument `{_easy_sql_d}`. Every literal and
//! every Rust expression becomes a parameter: a binding, a placeholder argument
//! with the next parameter number, and `{}` in the text.
use crate::clauses::{Limit, Order, OrderBy};
use crate::expr::{Column, Expr, OpChain, Operator, Value, ValueIn, ValueList};
use crate::generated::{Access, Bind, Check, FormatParam};
use crate::tokens::Tok;
use vstd::prelude::*;
use vstd::string::*;

verus! {

/// The text of the identifier token at `i` (empty if there is none).
pub open spec fn ident_text(s: Seq<Tok>, i: usize) -> Seq<char> {
    if i < s.len() {
        match s[i as int] {
            Tok::Ident(x) => x@,
            _ => Seq::empty(),
        }
    } else {
        Seq::empty()
    }
}

pub fn ident_string(toks: &Vec<Tok>, i: usize) -> (r: String)
    ensures
        r@ == ident_text(toks@, i),
{
    if i < toks.len() {
        match &toks[i] {
            Tok::Ident(x) => x.clone(),
            _ => String::new(),
        }
    } else {
        String::new()
    }
}

pub open spec fn column_sql(s: Seq<Tok>, c: Column) -> Seq<char> {
    match c {
        Column::SpecificTableColumn(_, _, i) => "{_easy_sql_d}{}{_easy_sql_d}.{_easy_sql_d}"@
            + ident_text(s, i) + "{_easy_sql_d}"@,
        Column::Column(i) => "{_easy_sql_d}"@ + ident_text(s, i) + "{_easy_sql_d}"@,
    }
}

pub open spec fn value_sql(s: Seq<Tok>, v: Value) -> Seq<char> {
    match v {
        Value::Column(c) => column_sql(s, c),
        _ => "{}"@,
    }
}

pub open spec fn value_checks(v: Value) -> Seq<Check> {
    match v {
        Value::Column(Column::Column(i)) => seq![Check::Column(i, Access::Field)],
        Value::Column(Column::SpecificTableColumn(a, b, i)) => seq![
            Check::TableColumn(a, b, i, Access::Field),
        ],
        _ => Seq::empty(),
    }
}

pub open spec fn value_binds(v: Value) -> Seq<Bind> {
    match v {
        Value::Lit(a, b) => seq![Bind::ArgLit(a, b)],
        Value::OutsideVariable(a, b) => seq![Bind::ArgVar(a, b)],
        _ => Seq::empty(),
    }
}

/// The number of parameters a value adds.
pub open spec fn value_count(v: Value) -> nat {
    match v {
        Value::Column(_) => 0,
        _ => 1,
    }
}

/// The format arguments of a value whose first parameter is numbered `n`.
pub open spec fn value_params(v: Value, n: int) -> Seq<FormatParam> {
    match v {
        Value::Column(Column::SpecificTableColumn(a, b, _)) => seq![
            FormatParam::TableName(a, b, true),
        ],
        Value::Column(Column::Column(_)) => Seq::empty(),
        _ => seq![FormatParam::Placeholder(n as usize)],
    }
}

pub open spec fn list_sql(s: Seq<Tok>, l: ValueList) -> Seq<char>
    decreases l,
{
    match l {
        ValueList::Nil => Seq::empty(),
        ValueList::Cons(v, rest) => match *rest {
            ValueList::Nil => value_sql(s, v),
            _ => value_sql(s, v) + ", "@ + list_sql(s, *rest),
        },
    }
}

pub open spec fn list_checks(l: ValueList) -> Seq<Check>
    decreases l,
{
    match l {
        ValueList::Nil => Seq::empty(),
        ValueList::Cons(v, rest) => value_checks(v) + list_checks(*rest),
    }
}

pub open spec fn list_binds(l: ValueList) -> Seq<Bind>
    decreases l,
{
    match l {
        ValueList::Nil => Seq::empty(),
        ValueList::Cons(v, rest) => value_binds(v) + list_binds(*rest),
    }
}

pub open spec fn list_count(l: ValueList) -> nat
    decreases l,
{
    match l {
        ValueList::Nil => 0,
        ValueList::Cons(v, rest) => value_count(v) + list_count(*rest),
    }
}

pub open spec fn list_params(l: ValueList, n: int) -> Seq<FormatParam>
    decreases l,
{
    match l {
        ValueList::Nil => Seq::empty(),
        ValueList::Cons(v, rest) => value_params(v, n) + list_params(*rest, n + value_count(v)),
    }
}

pub open spec fn operator_sql(op: Operator) -> Seq<char> {
    match op {
        Operator::And => " AND "@,
        Operator::Or => " OR "@,
        Operator::Add => " + "@,
        Operator::Sub => " - "@,
        Operator::Mul => " * "@,
        Operator::Div => " / "@,
        Operator::Mod => " % "@,
        Operator::Concat => " || "@,
        Operator::JsonExtract => " -> "@,
        Operator::BitAnd => " & "@,
        Operator::BitOr => " | "@,
        Operator::BitShiftLeft => " << "@,
        Operator::BitShiftRight => " >> "@,
    }
}

pub fn operator_str(op: Operator) -> (r: &'static str)
    ensures
        r@ == operator_sql(op),
{
    match op {
        Operator::And => " AND ",
        Operator::Or => " OR ",
        Operator::Add => " + ",
        Operator::Sub => " - ",
        Operator::Mul => " * ",
        Operator::Div => " / ",
        Operator::Mod => " % ",
        Operator::Concat => " || ",
        Operator::JsonExtract => " -> ",
        Operator::BitAnd => " & ",
        Operator::BitOr => " | ",
        Operator::BitShiftLeft => " << ",
        Operator::BitShiftRight => " >> ",
    }
}

/// `(left op right)`.
pub open spec fn binary_sql(s: Seq<Tok>, l: Value, op: Seq<char>, r: Value) -> Seq<char> {
    "("@ + value_sql(s, l) + op + value_sql(s, r) + ")"@
}

pub open spec fn expr_sql(s: Seq<Tok>, e: Expr) -> Seq<char>
    decreases e,
{
    match e {
        Expr::Value(v) => value_sql(s, v),
        Expr::Equal(l, r) => binary_sql(s, l, " = "@, r),
        Expr::NotEqual(l, r) => binary_sql(s, l, " != "@, r),
        Expr::GreaterThan(l, r) => binary_sql(s, l, " > "@, r),
        Expr::GreaterThanOrEqual(l, r) => binary_sql(s, l, " >= "@, r),
        Expr::LessThan(l, r) => binary_sql(s, l, " < "@, r),
        Expr::LessThanOrEqual(l, r) => binary_sql(s, l, " <= "@, r),
        Expr::Like(l, r) => binary_sql(s, l, " LIKE "@, r),
        Expr::IsNull(v) => "("@ + value_sql(s, v) + " IS NULL)"@,
        Expr::IsNotNull(v) => "("@ + value_sql(s, v) + " IS NOT NULL)"@,
        Expr::Not(inner) => "(NOT "@ + expr_sql(s, *inner) + ")"@,
        Expr::Parenthesized(inner) => "("@ + expr_sql(s, *inner) + ")"@,
        Expr::OperatorChain(first, rest) => "("@ + expr_sql(s, *first) + chain_sql(s, rest) + ")"@,
        Expr::In(v, ValueIn::Multiple(l)) => "("@ + value_sql(s, v) + " IN ("@ + list_sql(s, l)
            + "))"@,
        Expr::In(v, ValueIn::Single(_)) => "("@ + value_sql(s, v) + " IN ({ITERATOR}))"@,
        Expr::Between(v, a, b) => "("@ + value_sql(s, v) + " BETWEEN "@ + value_sql(s, a)
            + " AND "@ + value_sql(s, b) + ")"@,
    }
}

pub open spec fn chain_sql(s: Seq<Tok>, c: OpChain) -> Seq<char>
    decreases c,
{
    match c {
        OpChain::Nil => Seq::empty(),
        OpChain::Cons(op, e, rest) => operator_sql(op) + expr_sql(s, *e) + chain_sql(s, *rest),
    }
}

pub open spec fn expr_checks(e: Expr) -> Seq<Check>
    decreases e,
{
    match e {
        Expr::Value(v) => value_checks(v),
        Expr::Equal(l, r) => value_checks(l) + value_checks(r),
        Expr::NotEqual(l, r) => value_checks(l) + value_checks(r),
        Expr::GreaterThan(l, r) => value_checks(l) + value_checks(r),
        Expr::GreaterThanOrEqual(l, r) => value_checks(l) + value_checks(r),
        Expr::LessThan(l, r) => value_checks(l) + value_checks(r),
        Expr::LessThanOrEqual(l, r) => value_checks(l) + value_checks(r),
        Expr::Like(l, r) => value_checks(l) + value_checks(r),
        Expr::IsNull(v) => value_checks(v),
        Expr::IsNotNull(v) => value_checks(v),
        Expr::Not(inner) => expr_checks(*inner),
        Expr::Parenthesized(inner) => expr_checks(*inner),
        Expr::OperatorChain(first, rest) => expr_checks(*first) + chain_checks(rest),
        Expr::In(v, ValueIn::Multiple(l)) => value_checks(v) + list_checks(l),
        Expr::In(v, ValueIn::Single(_)) => value_checks(v),
        Expr::Between(v, a, b) => value_checks(v) + value_checks(a) + value_checks(b),
    }
}

pub open spec fn chain_checks(c: OpChain) -> Seq<Check>
    decreases c,
{
    match c {
        OpChain::Nil => Seq::empty(),
        OpChain::Cons(_, e, rest) => expr_checks(*e) + chain_checks(*rest),
    }
}

pub open spec fn expr_binds(e: Expr) -> Seq<Bind>
    decreases e,
{
    match e {
        Expr::Value(v) => value_binds(v),
        Expr::Equal(l, r) => value_binds(l) + value_binds(r),
        Expr::NotEqual(l, r) => value_binds(l) + value_binds(r),
        Expr::GreaterThan(l, r) => value_binds(l) + value_binds(r),
        Expr::GreaterThanOrEqual(l, r) => value_binds(l) + value_binds(r),
        Expr::LessThan(l, r) => value_binds(l) + value_binds(r),
        Expr::LessThanOrEqual(l, r) => value_binds(l) + value_binds(r),
        Expr::Like(l, r) => value_binds(l) + value_binds(r),
        Expr::IsNull(v) => value_binds(v),
        Expr::IsNotNull(v) => value_binds(v),
        Expr::Not(inner) => expr_binds(*inner),
        Expr::Parenthesized(inner) => expr_binds(*inner),
        Expr::OperatorChain(first, rest) => expr_binds(*first) + chain_binds(rest),
        Expr::In(v, ValueIn::Multiple(l)) => value_binds(v) + list_binds(l),
        Expr::In(v, ValueIn::Single(_)) => value_binds(v),
        Expr::Between(v, a, b) => value_binds(v) + value_binds(a) + value_binds(b),
    }
}

pub open spec fn chain_binds(c: OpChain) -> Seq<Bind>
    decreases c,
{
    match c {
        OpChain::Nil => Seq::empty(),
        OpChain::Cons(_, e, rest) => expr_binds(*e) + chain_binds(*rest),
    }
}

/// The number of parameters an expression adds.
pub open spec fn expr_count(e: Expr) -> nat
    decreases e,
{
    match e {
        Expr::Value(v) => value_count(v),
        Expr::Equal(l, r) => value_count(l) + value_count(r),
        Expr::NotEqual(l, r) => value_count(l) + value_count(r),
        Expr::GreaterThan(l, r) => value_count(l) + value_count(r),
        Expr::GreaterThanOrEqual(l, r) => value_count(l) + value_count(r),
        Expr::LessThan(l, r) => value_count(l) + value_count(r),
        Expr::LessThanOrEqual(l, r) => value_count(l) + value_count(r),
        Expr::Like(l, r) => value_count(l) + value_count(r),
        Expr::IsNull(v) => value_count(v),
        Expr::IsNotNull(v) => value_count(v),
        Expr::Not(inner) => expr_count(*inner),
        Expr::Parenthesized(inner) => expr_count(*inner),
        Expr::OperatorChain(first, rest) => expr_count(*first) + chain_count(rest),
        Expr::In(v, ValueIn::Multiple(l)) => value_count(v) + list_count(l),
        Expr::In(v, ValueIn::Single(_)) => value_count(v),
        Expr::Between(v, a, b) => value_count(v) + value_count(a) + value_count(b),
    }
}

pub open spec fn chain_count(c: OpChain) -> nat
    decreases c,
{
    match c {
        OpChain::Nil => 0,
        OpChain::Cons(_, e, rest) => expr_count(*e) + chain_count(*rest),
    }
}

/// The format arguments of an expression whose first parameter is numbered `n`.
pub open spec fn expr_params(e: Expr, n: int) -> Seq<FormatParam>
    decreases e,
{
    match e {
        Expr::Value(v) => value_params(v, n),
        Expr::Equal(l, r) => value_params(l, n) + value_params(r, n + value_count(l)),
        Expr::NotEqual(l, r) => value_params(l, n) + value_params(r, n + value_count(l)),
        Expr::GreaterThan(l, r) => value_params(l, n) + value_params(r, n + value_count(l)),
        Expr::GreaterThanOrEqual(l, r) => value_params(l, n) + value_params(r, n + value_count(l)),
        Expr::LessThan(l, r) => value_params(l, n) + value_params(r, n + value_count(l)),
        Expr::LessThanOrEqual(l, r) => value_params(l, n) + value_params(r, n + value_count(l)),
        Expr::Like(l, r) => value_params(l, n) + value_params(r, n + value_count(l)),
        Expr::IsNull(v) => value_params(v, n),
        Expr::IsNotNull(v) => value_params(v, n),
        Expr::Not(inner) => expr_params(*inner, n),
        Expr::Parenthesized(inner) => expr_params(*inner, n),
        Expr::OperatorChain(first, rest) => expr_params(*first, n) + chain_params(
            rest,
            n + expr_count(*first),
        ),
        Expr::In(v, ValueIn::Multiple(l)) => value_params(v, n) + list_params(l, n + value_count(v)),
        Expr::In(v, ValueIn::Single(_)) => value_params(v, n),
        Expr::Between(v, a, b) => value_params(v, n) + value_params(a, n + value_count(v))
            + value_params(b, n + value_count(v) + value_count(a)),
    }
}

pub open spec fn chain_params(c: OpChain, n: int) -> Seq<FormatParam>
    decreases c,
{
    match c {
        OpChain::Nil => Seq::empty(),
        OpChain::Cons(_, e, rest) => expr_params(*e, n) + chain_params(*rest, n + expr_count(*e)),
    }
}

impl Column {
    /// The column as SQL text; a column of a named table adds its table's name
    /// (for any driver) as a format argument. Each column adds a field check.
    pub fn into_query_string(
        &self,
        toks: &Vec<Tok>,
        checks: &mut Vec<Check>,
        format_args: &mut Vec<FormatParam>,
    ) -> (r: String)
        ensures
            r@ == column_sql(toks@, *self),
            final(checks)@ == old(checks)@ + value_checks(Value::Column(*self)),
            final(format_args)@ == old(format_args)@ + match *self {
                Column::SpecificTableColumn(a, b, _) => seq![FormatParam::TableName(a, b, false)],
                Column::Column(_) => Seq::<FormatParam>::empty(),
            },
    {
        match self {
            Column::SpecificTableColumn(a, b, i) => {
                checks.push(Check::TableColumn(*a, *b, *i, Access::Field));
                format_args.push(FormatParam::TableName(*a, *b, false));
                let mut r = String::from_str("{_easy_sql_d}{}{_easy_sql_d}.{_easy_sql_d}");
                let name = ident_string(toks, *i);
                r.append(name.as_str());
                r.append("{_easy_sql_d}");
                r
            },
            Column::Column(i) => {
                checks.push(Check::Column(*i, Access::Field));
                let mut r = String::from_str("{_easy_sql_d}");
                let name = ident_string(toks, *i);
                r.append(name.as_str());
                r.append("{_easy_sql_d}");
                r
            },
        }
    }
}

impl Value {
    /// The value as SQL text, with its check, binding and format argument.
    pub fn into_query_string(
        &self,
        toks: &Vec<Tok>,
        binds: &mut Vec<Bind>,
        checks: &mut Vec<Check>,
        current_param_n: &mut usize,
        current_format_params: &mut Vec<FormatParam>,
    ) -> (r: String)
        requires
            *old(current_param_n) + value_count(*self) <= usize::MAX,
        ensures
            r@ == value_sql(toks@, *self),
            final(binds)@ == old(binds)@ + value_binds(*self),
            final(checks)@ == old(checks)@ + value_checks(*self),
            final(current_format_params)@ == old(current_format_params)@ + value_params(
                *self,
                *old(current_param_n) as int,
            ),
            *final(current_param_n) == *old(current_param_n) + value_count(*self),
    {
        match self {
            Value::Column(Column::SpecificTableColumn(a, b, i)) => {
                checks.push(Check::TableColumn(*a, *b, *i, Access::Field));
                current_format_params.push(FormatParam::TableName(*a, *b, true));
                let mut r = String::from_str("{_easy_sql_d}{}{_easy_sql_d}.{_easy_sql_d}");
                let name = ident_string(toks, *i);
                r.append(name.as_str());
                r.append("{_easy_sql_d}");
                r
            },
            Value::Column(Column::Column(i)) => {
                checks.push(Check::Column(*i, Access::Field));
                let mut r = String::from_str("{_easy_sql_d}");
                let name = ident_string(toks, *i);
                r.append(name.as_str());
                r.append("{_easy_sql_d}");
                r
            },
            Value::Lit(a, b) => {
                binds.push(Bind::ArgLit(*a, *b));
                current_format_params.push(FormatParam::Placeholder(*current_param_n));
                *current_param_n = *current_param_n + 1;
                String::from_str("{}")
            },
            Value::OutsideVariable(a, b) => {
                binds.push(Bind::ArgVar(*a, *b));
                current_format_params.push(FormatParam::Placeholder(*current_param_n));
                *current_param_n = *current_param_n + 1;
                String::from_str("{}")
            },
        }
    }
}

/// `(left op right)` for two values, with their effects in order.
fn binary_query_string(
    l: &Value,
    op: &str,
    r: &Value,
    toks: &Vec<Tok>,
    binds: &mut Vec<Bind>,
    checks: &mut Vec<Check>,
    current_param_n: &mut usize,
    current_format_params: &mut Vec<FormatParam>,
) -> (res: String)
    requires
        *old(current_param_n) + value_count(*l) + value_count(*r) <= usize::MAX,
    ensures
        res@ == binary_sql(toks@, *l, op@, *r),
        final(binds)@ == old(binds)@ + (value_binds(*l) + value_binds(*r)),
        final(checks)@ == old(checks)@ + (value_checks(*l) + value_checks(*r)),
        final(current_format_params)@ == old(current_format_params)@ + (value_params(
            *l,
            *old(current_param_n) as int,
        ) + value_params(*r, *old(current_param_n) + value_count(*l))),
        *final(current_param_n) == *old(current_param_n) + value_count(*l) + value_count(*r),
{
    let left = l.into_query_string(toks, binds, checks, current_param_n, current_format_params);
    let right = r.into_query_string(toks, binds, checks, current_param_n, current_format_params);
    let mut res = String::from_str("(");
    res.append(left.as_str());
    res.append(op);
    res.append(right.as_str());
    res.append(")");
    res
}

impl ValueList {
    /// The values joined by `, `, with their effects in order.
    pub fn join_query_string(
        &self,
        toks: &Vec<Tok>,
        binds: &mut Vec<Bind>,
        checks: &mut Vec<Check>,
        current_param_n: &mut usize,
        current_format_params: &mut Vec<FormatParam>,
    ) -> (r: String)
        requires
            *old(current_param_n) + list_count(*self) <= usize::MAX,
        ensures
            r@ == list_sql(toks@, *self),
            final(binds)@ == old(binds)@ + list_binds(*self),
            final(checks)@ == old(checks)@ + list_checks(*self),
            final(current_format_params)@ == old(current_format_params)@ + list_params(
                *self,
                *old(current_param_n) as int,
            ),
            *final(current_param_n) == *old(current_param_n) + list_count(*self),
        decreases self,
    {
        match self {
            ValueList::Nil => String::new(),
            ValueList::Cons(v, rest) => {
                let first = v.into_query_string(
                    toks,
                    binds,
                    checks,
                    current_param_n,
                    current_format_params,
                );
                match &**rest {
                    ValueList::Nil => {
                        assert(list_count(**rest) == 0);
                        assert(list_binds(**rest) =~= Seq::empty());
                        assert(list_checks(**rest) =~= Seq::empty());
                        assert(list_params(**rest, *current_param_n as int) =~= Seq::empty());
                        first
                    },
                    _ => {
                        let others = rest.join_query_string(
                            toks,
                            binds,
                            checks,
                            current_param_n,
                            current_format_params,
                        );
                        let mut r = first;
                        r.append(", ");
                        r.append(others.as_str());
                        r
                    },
                }
            },
        }
    }
}

impl Expr {
    /// The expression as the SQL text of a `format!` string. Checks, bindings and
    /// format arguments are appended in the order the text names them, and every
    /// parameter gets the next number.
    pub fn into_query_string(
        &self,
        toks: &Vec<Tok>,
        binds: &mut Vec<Bind>,
        checks: &mut Vec<Check>,
        current_param_n: &mut usize,
        current_format_params: &mut Vec<FormatParam>,
    ) -> (r: String)
        requires
            *old(current_param_n) + expr_count(*self) <= usize::MAX,
        ensures
            r@ == expr_sql(toks@, *self),
            final(binds)@ == old(binds)@ + expr_binds(*self),
            final(checks)@ == old(checks)@ + expr_checks(*self),
            final(current_format_params)@ == old(current_format_params)@ + expr_params(
                *self,
                *old(current_param_n) as int,
            ),
            *final(current_param_n) == *old(current_param_n) + expr_count(*self),
        decreases self,
    {
        match self {
            Expr::Value(v) => v.into_query_string(
                toks,
                binds,
                checks,
                current_param_n,
                current_format_params,
            ),
            Expr::Equal(l, r) => binary_query_string(
                l,
                " = ",
                r,
                toks,
                binds,
                checks,
                current_param_n,
                current_format_params,
            ),
            Expr::NotEqual(l, r) => binary_query_string(
                l,
                " != ",
                r,
                toks,
                binds,
                checks,
                current_param_n,
                current_format_params,
            ),
            Expr::GreaterThan(l, r) => binary_query_string(
                l,
                " > ",
                r,
                toks,
                binds,
                checks,
                current_param_n,
                current_format_params,
            ),
            Expr::GreaterThanOrEqual(l, r) => binary_query_string(
                l,
                " >= ",
                r,
                toks,
                binds,
                checks,
                current_param_n,
                current_format_params,
            ),
            Expr::LessThan(l, r) => binary_query_string(
                l,
                " < ",
                r,
                toks,
                binds,
                checks,
                current_param_n,
                current_format_params,
            ),
            Expr::LessThanOrEqual(l, r) => binary_query_string(
                l,
                " <= ",
                r,
                toks,
                binds,
                checks,
                current_param_n,
                current_format_params,
            ),
            Expr::Like(l, r) => binary_query_string(
                l,
                " LIKE ",
                r,
                toks,
                binds,
                checks,
                current_param_n,
                current_format_params,
            ),
            Expr::IsNull(v) => {
                let val = v.into_query_string(
                    toks,
                    binds,
                    checks,
                    current_param_n,
                    current_format_params,
                );
                let mut r = String::from_str("(");
                r.append(val.as_str());
                r.append(" IS NULL)");
                r
            },
            Expr::IsNotNull(v) => {
                let val = v.into_query_string(
                    toks,
                    binds,
                    checks,
                    current_param_n,
                    current_format_params,
                );
                let mut r = String::from_str("(");
                r.append(val.as_str());
                r.append(" IS NOT NULL)");
                r
            },
            Expr::Not(inner) => {
                let val = inner.into_query_string(
                    toks,
                    binds,
                    checks,
                    current_param_n,
                    current_format_params,
                );
                let mut r = String::from_str("(NOT ");
                r.append(val.as_str());
                r.append(")");
                r
            },
            Expr::Parenthesized(inner) => {
                let val = inner.into_query_string(
                    toks,
                    binds,
                    checks,
                    current_param_n,
                    current_format_params,
                );
                let mut r = String::from_str("(");
                r.append(val.as_str());
                r.append(")");
                r
            },
            Expr::OperatorChain(first, rest) => {
                let f = first.into_query_string(
                    toks,
                    binds,
                    checks,
                    current_param_n,
                    current_format_params,
                );
                let tail = rest.into_query_string(
                    toks,
                    binds,
                    checks,
                    current_param_n,
                    current_format_params,
                );
                let mut r = String::from_str("(");
                r.append(f.as_str());
                r.append(tail.as_str());
                r.append(")");
                r
            },
            Expr::In(v, values) => {
                let val = v.into_query_string(
                    toks,
                    binds,
                    checks,
                    current_param_n,
                    current_format_params,
                );
                match values {
                    ValueIn::Multiple(l) => {
                        let items = l.join_query_string(
                            toks,
                            binds,
                            checks,
                            current_param_n,
                            current_format_params,
                        );
                        let mut r = String::from_str("(");
                        r.append(val.as_str());
                        r.append(" IN (");
                        r.append(items.as_str());
                        r.append("))");
                        r
                    },
                    ValueIn::Single(_) => {
                        let mut r = String::from_str("(");
                        r.append(val.as_str());
                        r.append(" IN ({ITERATOR}))");
                        r
                    },
                }
            },
            Expr::Between(v, a, b) => {
                let val = v.into_query_string(
                    toks,
                    binds,
                    checks,
                    current_param_n,
                    current_format_params,
                );
                let min = a.into_query_string(
                    toks,
                    binds,
                    checks,
                    current_param_n,
                    current_format_params,
                );
                let max = b.into_query_string(
                    toks,
                    binds,
                    checks,
                    current_param_n,
                    current_format_params,
                );
                let mut r = String::from_str("(");
                r.append(val.as_str());
                r.append(" BETWEEN ");
                r.append(min.as_str());
                r.append(" AND ");
                r.append(max.as_str());
                r.append(")");
                r
            },
        }
    }
}

impl OpChain {
    /// Each operator's SQL text followed by its operand's text, in order.
    pub fn into_query_string(
        &self,
        toks: &Vec<Tok>,
        binds: &mut Vec<Bind>,
        checks: &mut Vec<Check>,
        current_param_n: &mut usize,
        current_format_params: &mut Vec<FormatParam>,
    ) -> (r: String)
        requires
            *old(current_param_n) + chain_count(*self) <= usize::MAX,
        ensures
            r@ == chain_sql(toks@, *self),
            final(binds)@ == old(binds)@ + chain_binds(*self),
            final(checks)@ == old(checks)@ + chain_checks(*self),
            final(current_format_params)@ == old(current_format_params)@ + chain_params(
                *self,
                *old(current_param_n) as int,
            ),
            *final(current_param_n) == *old(current_param_n) + chain_count(*self),
        decreases self,
    {
        match self {
            OpChain::Nil => String::new(),
            OpChain::Cons(op, e, rest) => {
                let item = e.into_query_string(
                    toks,
                    binds,
                    checks,
                    current_param_n,
                    current_format_params,
                );
                let tail = rest.into_query_string(
                    toks,
                    binds,
                    checks,
                    current_param_n,
                    current_format_params,
                );
                let mut r = String::from_str(operator_str(*op));
                r.append(item.as_str());
                r.append(tail.as_str());
                r
            },
        }
    }
}


/// The format arguments of a `LIMIT` whose parameter (if any) is numbered `n`.
pub open spec fn limit_params(l: Limit, n: int) -> Seq<FormatParam> {
    match l {
        Limit::Literal(v) => seq![FormatParam::Literal(v)],
        Limit::Expr(_, _) => seq![FormatParam::Placeholder(n as usize)],
    }
}

pub open spec fn limit_checks(l: Limit) -> Seq<Check> {
    match l {
        Limit::Literal(_) => Seq::empty(),
        Limit::Expr(a, b) => seq![Check::IntoI64(a, b)],
    }
}

pub open spec fn limit_binds(l: Limit) -> Seq<Bind> {
    match l {
        Limit::Literal(_) => Seq::empty(),
        Limit::Expr(a, b) => seq![Bind::LimitArg(a, b)],
    }
}

/// The number of parameters a `LIMIT` adds.
pub open spec fn limit_count(l: Limit) -> nat {
    match l {
        Limit::Literal(_) => 0,
        Limit::Expr(_, _) => 1,
    }
}

impl Limit {
    /// The `LIMIT` value as SQL text: always `{}`, filled by the literal itself
    /// or by the placeholder of a new parameter bound to the expression.
    pub fn into_query_string(
        &self,
        checks: &mut Vec<Check>,
        format_args: &mut Vec<FormatParam>,
        binds: &mut Vec<Bind>,
        param_counter: &mut usize,
    ) -> (r: String)
        requires
            *old(param_counter) + limit_count(*self) <= usize::MAX,
        ensures
            r@ == "{}"@,
            final(checks)@ == old(checks)@ + limit_checks(*self),
            final(binds)@ == old(binds)@ + limit_binds(*self),
            final(format_args)@ == old(format_args)@ + limit_params(*self, *old(param_counter) as int),
            *final(param_counter) == *old(param_counter) + limit_count(*self),
    {
        match self {
            Limit::Literal(v) => {
                format_args.push(FormatParam::Literal(*v));
            },
            Limit::Expr(a, b) => {
                checks.push(Check::IntoI64(*a, *b));
                binds.push(Bind::LimitArg(*a, *b));
                format_args.push(FormatParam::Placeholder(*param_counter));
                *param_counter = *param_counter + 1;
            },
        }
        String::from_str("{}")
    }
}

pub open spec fn order_sql(o: Order) -> Seq<char> {
    match o {
        Order::Asc => "ASC"@,
        Order::Desc => "DESC"@,
    }
}

impl OrderBy {
    /// The item as SQL text: the expression, a space, and `ASC` or `DESC`.
    pub fn into_query_string(
        &self,
        toks: &Vec<Tok>,
        binds: &mut Vec<Bind>,
        checks: &mut Vec<Check>,
        current_param_n: &mut usize,
        current_format_params: &mut Vec<FormatParam>,
    ) -> (r: String)
        requires
            *old(current_param_n) + expr_count(self.expr) <= usize::MAX,
        ensures
            r@ == expr_sql(toks@, self.expr) + " "@ + order_sql(self.order),
            final(binds)@ == old(binds)@ + expr_binds(self.expr),
            final(checks)@ == old(checks)@ + expr_checks(self.expr),
            final(current_format_params)@ == old(current_format_params)@ + expr_params(
                self.expr,
                *old(current_param_n) as int,
            ),
            *final(current_param_n) == *old(current_param_n) + expr_count(self.expr),
    {
        let mut r = self.expr.into_query_string(toks, binds, checks, current_param_n, current_format_params);
        r.append(" ");
        match self.order {
            Order::Asc => r.append("ASC"),
            Order::Desc => r.append("DESC"),
        }
        r
    }
}

/// The parameter numbers of the placeholder arguments, in order.
pub open spec fn placeholder_numbers(ps: Seq<FormatParam>) -> Seq<int>
    decreases ps.len(),
{
    if ps.len() == 0 {
        Seq::empty()
    } else {
        let rest = placeholder_numbers(ps.drop_first());
        match ps[0] {
            FormatParam::Placeholder(k) => seq![k as int] + rest,
            _ => rest,
        }
    }
}

/// `n, n + 1, ..., n + count - 1`.
pub open spec fn consecutive(n: int, count: nat) -> Seq<int> {
    Seq::new(count, |k: int| n + k)
}

pub proof fn lemma_placeholder_numbers_add(a: Seq<FormatParam>, b: Seq<FormatParam>)
    ensures
        placeholder_numbers(a + b) == placeholder_numbers(a) + placeholder_numbers(b),
    decreases a.len(),
{
    if a.len() == 0 {
        assert(a + b =~= b);
        assert(placeholder_numbers(a) =~= Seq::<int>::empty());
        assert(placeholder_numbers(a) + placeholder_numbers(b) =~= placeholder_numbers(b));
    } else {
        lemma_placeholder_numbers_add(a.drop_first(), b);
        assert((a + b).drop_first() =~= a.drop_first() + b);
        assert((a + b)[0] == a[0]);
        let ra = placeholder_numbers(a.drop_first());
        let rb = placeholder_numbers(b);
        match a[0] {
            FormatParam::Placeholder(k) => {
                assert(seq![k as int] + (ra + rb) =~= (seq![k as int] + ra) + rb);
            },
            _ => {},
        }
    }
}

pub proof fn lemma_consecutive_add(n: int, c1: nat, c2: nat)
    ensures
        consecutive(n, c1) + consecutive(n + c1, c2) == consecutive(n, c1 + c2),
{
    assert(consecutive(n, c1) + consecutive(n + c1, c2) =~= consecutive(n, c1 + c2));
}

proof fn lemma_value_params(v: Value, n: int)
    requires
        0 <= n,
        n + value_count(v) <= usize::MAX,
    ensures
        placeholder_numbers(value_params(v, n)) == consecutive(n, value_count(v)),
        value_binds(v).len() == value_count(v),
{
    let ps = value_params(v, n);
    assert(ps.len() == 0 || ps.drop_first() =~= Seq::<FormatParam>::empty());
    assert(placeholder_numbers(Seq::<FormatParam>::empty()) =~= Seq::<int>::empty());
    assert(placeholder_numbers(value_params(v, n)) =~= consecutive(n, value_count(v)));
}

proof fn lemma_two_values(a: Value, b: Value, n: int)
    requires
        0 <= n,
        n + value_count(a) + value_count(b) <= usize::MAX,
    ensures
        placeholder_numbers(value_params(a, n) + value_params(b, n + value_count(a)))
            == consecutive(n, value_count(a) + value_count(b)),
        (value_binds(a) + value_binds(b)).len() == value_count(a) + value_count(b),
{
    lemma_value_params(a, n);
    lemma_value_params(b, n + value_count(a));
    lemma_placeholder_numbers_add(value_params(a, n), value_params(b, n + value_count(a)));
    lemma_consecutive_add(n, value_count(a), value_count(b));
}

proof fn lemma_list_params(l: ValueList, n: int)
    requires
        0 <= n,
        n + list_count(l) <= usize::MAX,
    ensures
        placeholder_numbers(list_params(l, n)) == consecutive(n, list_count(l)),
        list_binds(l).len() == list_count(l),
    decreases l,
{
    match l {
        ValueList::Nil => {
            assert(placeholder_numbers(list_params(l, n)) =~= consecutive(n, 0));
        },
        ValueList::Cons(v, rest) => {
            lemma_value_params(v, n);
            lemma_list_params(*rest, n + value_count(v));
            lemma_placeholder_numbers_add(
                value_params(v, n),
                list_params(*rest, n + value_count(v)),
            );
            lemma_consecutive_add(n, value_count(v), list_count(*rest));
        },
    }
}

/// Parameters are numbered in the order of their bindings: an expression whose
/// first parameter is numbered `n` adds exactly one binding per parameter, and its
/// placeholder arguments carry the numbers `n, n + 1, ...` in order.
pub proof fn lemma_expr_params_consecutive(e: Expr, n: int)
    requires
        0 <= n,
        n + expr_count(e) <= usize::MAX,
    ensures
        placeholder_numbers(expr_params(e, n)) == consecutive(n, expr_count(e)),
        expr_binds(e).len() == expr_count(e),
    decreases e,
{
    match e {
        Expr::Value(v) => lemma_value_params(v, n),
        Expr::Equal(l, r) => lemma_two_values(l, r, n),
        Expr::NotEqual(l, r) => lemma_two_values(l, r, n),
        Expr::GreaterThan(l, r) => lemma_two_values(l, r, n),
        Expr::GreaterThanOrEqual(l, r) => lemma_two_values(l, r, n),
        Expr::LessThan(l, r) => lemma_two_values(l, r, n),
        Expr::LessThanOrEqual(l, r) => lemma_two_values(l, r, n),
        Expr::Like(l, r) => lemma_two_values(l, r, n),
        Expr::IsNull(v) => lemma_value_params(v, n),
        Expr::IsNotNull(v) => lemma_value_params(v, n),
        Expr::Not(inner) => lemma_expr_params_consecutive(*inner, n),
        Expr::Parenthesized(inner) => lemma_expr_params_consecutive(*inner, n),
        Expr::OperatorChain(first, rest) => {
            lemma_expr_params_consecutive(*first, n);
            lemma_chain_params_consecutive(rest, n + expr_count(*first));
            lemma_placeholder_numbers_add(
                expr_params(*first, n),
                chain_params(rest, n + expr_count(*first)),
            );
            lemma_consecutive_add(n, expr_count(*first), chain_count(rest));
        },
        Expr::In(v, ValueIn::Multiple(l)) => {
            lemma_value_params(v, n);
            lemma_list_params(l, n + value_count(v));
            lemma_placeholder_numbers_add(value_params(v, n), list_params(l, n + value_count(v)));
            lemma_consecutive_add(n, value_count(v), list_count(l));
        },
        Expr::In(v, ValueIn::Single(_)) => lemma_value_params(v, n),
        Expr::Between(v, a, b) => {
            lemma_two_values(v, a, n);
            lemma_value_params(b, n + value_count(v) + value_count(a));
            lemma_placeholder_numbers_add(
                value_params(v, n) + value_params(a, n + value_count(v)),
                value_params(b, n + value_count(v) + value_count(a)),
            );
            lemma_consecutive_add(n, value_count(v) + value_count(a), value_count(b));
        },
    }
}

/// The chain part of [`lemma_expr_params_consecutive`].
pub proof fn lemma_chain_params_consecutive(c: OpChain, n: int)
    requires
        0 <= n,
        n + chain_count(c) <= usize::MAX,
    ensures
        placeholder_numbers(chain_params(c, n)) == consecutive(n, chain_count(c)),
        chain_binds(c).len() == chain_count(c),
    decreases c,
{
    match c {
        OpChain::Nil => {
            assert(placeholder_numbers(chain_params(c, n)) =~= consecutive(n, 0));
        },
        OpChain::Cons(_, e, rest) => {
            lemma_expr_params_consecutive(*e, n);
            lemma_chain_params_consecutive(*rest, n + expr_count(*e));
            lemma_placeholder_numbers_add(
                expr_params(*e, n),
                chain_params(*rest, n + expr_count(*e)),
            );
            lemma_consecutive_add(n, expr_count(*e), chain_count(*rest));
        },
    }
}

/// The chain `l op r`.
pub open spec fn two_operand_chain(l: Expr, op: Operator, r: Expr) -> Expr {
    Expr::OperatorChain(Box::new(l), OpChain::Cons(op, Box::new(r), Box::new(OpChain::Nil)))
}

/// Each operator of a chain is written as its own SQL symbol between the
/// operands: `l - r` is rendered `(l - r)`, `l + r` as `(l + r)`, `l AND r` as
/// `(l AND r)`, and so on for every operator.
pub proof fn lemma_chain_operator_symbols(s: Seq<Tok>, l: Expr, op: Operator, r: Expr)
    ensures
        op == Operator::And ==> expr_sql(s, two_operand_chain(l, op, r)) == "("@ + expr_sql(s, l) + " AND "@ + expr_sql(s, r) + ")"@,
        op == Operator::Or ==> expr_sql(s, two_operand_chain(l, op, r)) == "("@ + expr_sql(s, l) + " OR "@ + expr_sql(s, r) + ")"@,
        op == Operator::Add ==> expr_sql(s, two_operand_chain(l, op, r)) == "("@ + expr_sql(s, l) + " + "@ + expr_sql(s, r) + ")"@,
        op == Operator::Sub ==> expr_sql(s, two_operand_chain(l, op, r)) == "("@ + expr_sql(s, l) + " - "@ + expr_sql(s, r) + ")"@,
        op == Operator::Mul ==> expr_sql(s, two_operand_chain(l, op, r)) == "("@ + expr_sql(s, l) + " * "@ + expr_sql(s, r) + ")"@,
        op == Operator::Div ==> expr_sql(s, two_operand_chain(l, op, r)) == "("@ + expr_sql(s, l) + " / "@ + expr_sql(s, r) + ")"@,
        op == Operator::Mod ==> expr_sql(s, two_operand_chain(l, op, r)) == "("@ + expr_sql(s, l) + " % "@ + expr_sql(s, r) + ")"@,
        op == Operator::Concat ==> expr_sql(s, two_operand_chain(l, op, r)) == "("@ + expr_sql(s, l) + " || "@ + expr_sql(s, r) + ")"@,
        op == Operator::JsonExtract ==> expr_sql(s, two_operand_chain(l, op, r)) == "("@ + expr_sql(s, l) + " -> "@ + expr_sql(s, r) + ")"@,
        op == Operator::BitAnd ==> expr_sql(s, two_operand_chain(l, op, r)) == "("@ + expr_sql(s, l) + " & "@ + expr_sql(s, r) + ")"@,
        op == Operator::BitOr ==> expr_sql(s, two_operand_chain(l, op, r)) == "("@ + expr_sql(s, l) + " | "@ + expr_sql(s, r) + ")"@,
        op == Operator::BitShiftLeft ==> expr_sql(s, two_operand_chain(l, op, r)) == "("@ + expr_sql(s, l) + " << "@ + expr_sql(s, r) + ")"@,
        op == Operator::BitShiftRight ==> expr_sql(s, two_operand_chain(l, op, r)) == "("@ + expr_sql(s, l) + " >> "@ + expr_sql(s, r) + ")"@,
{
    reveal_strlit(" AND ");
    let c = OpChain::Cons(op, Box::new(r), Box::new(OpChain::Nil));
    assert(chain_sql(s, OpChain::Nil) =~= Seq::<char>::empty());
    assert(chain_sql(s, c) == operator_sql(op) + expr_sql(s, r) + chain_sql(s, OpChain::Nil));
    assert(chain_sql(s, c) =~= operator_sql(op) + expr_sql(s, r));
    assert(expr_sql(s, two_operand_chain(l, op, r)) == "("@ + expr_sql(s, l) + chain_sql(s, c) + ")"@);
    assert(expr_sql(s, two_operand_chain(l, op, r)) =~= "("@ + expr_sql(s, l) + operator_sql(op) + expr_sql(s, r) + ")"@);
}

} // verus!
