//! The `{}` placeholders of the SQL text of a condition match its format
//! arguments one for one.
use crate::expr::{Column, Expr, OpChain, Operator, Value, ValueIn, ValueList};
use crate::query_string::{
    binary_sql, chain_params, chain_sql, expr_params, expr_sql, ident_text, list_params, list_sql,
    operator_sql, value_params, value_sql,
};
use crate::tokens::Tok;
use vstd::prelude::*;
use vstd::string::*;

verus! {

/// The number of `{}` pairs in the text.
pub open spec fn brace_pairs(t: Seq<char>) -> nat
    decreases t.len(),
{
    if t.len() < 2 {
        0
    } else {
        (if t[0] == '{' && t[1] == '}' {
            1nat
        } else {
            0nat
        }) + brace_pairs(t.drop_first())
    }
}

/// The text does not end with `{`.
pub open spec fn no_open_end(t: Seq<char>) -> bool {
    t.len() == 0 || t.last() != '{'
}

/// The text holds no brace.
pub open spec fn brace_free(t: Seq<char>) -> bool {
    forall|i: int| 0 <= i < t.len() ==> t[i] != '{' && t[i] != '}'
}

/// No identifier of the input holds a brace.
pub open spec fn idents_brace_free(s: Seq<Tok>) -> bool {
    forall|i: usize| brace_free(#[trigger] ident_text(s, i))
}

proof fn lemma_cat(a: Seq<char>, b: Seq<char>)
    requires
        no_open_end(a),
        no_open_end(b),
    ensures
        brace_pairs(a + b) == brace_pairs(a) + brace_pairs(b),
        no_open_end(a + b),
    decreases a.len(),
{
    if a.len() == 0 {
        assert(a + b =~= b);
    } else if a.len() == 1 {
        if b.len() == 0 {
            assert(a + b =~= a);
        } else {
            assert((a + b).drop_first() =~= b);
            assert((a + b)[0] == a[0]);
            assert((a + b).last() == b.last());
        }
    } else {
        lemma_cat(a.drop_first(), b);
        assert((a + b).drop_first() =~= a.drop_first() + b);
        assert((a + b)[0] == a[0] && (a + b)[1] == a[1]);
        if b.len() == 0 {
            assert(a + b =~= a);
        } else {
            assert((a + b).last() == b.last());
        }
    }
}

proof fn lemma_brace_free(t: Seq<char>)
    requires
        brace_free(t),
    ensures
        brace_pairs(t) == 0,
        no_open_end(t),
    decreases t.len(),
{
    if t.len() >= 2 {
        assert(brace_free(t.drop_first()));
        lemma_brace_free(t.drop_first());
    }
}

/// `{_easy_sql_d}`, the driver's delimiter, holds no `{}`.
proof fn lemma_delim()
    ensures
        brace_pairs("{_easy_sql_d}"@) == 0,
        no_open_end("{_easy_sql_d}"@),
        brace_pairs("{}"@) == 1,
        no_open_end("{}"@),
        brace_pairs("{_easy_sql_d}{}{_easy_sql_d}.{_easy_sql_d}"@) == 1,
        no_open_end("{_easy_sql_d}{}{_easy_sql_d}.{_easy_sql_d}"@),
        brace_pairs(" IN ({ITERATOR}))"@) == 0,
        no_open_end(" IN ({ITERATOR}))"@),
{
    reveal_strlit("{_easy_sql_d}");
    reveal_strlit("{}");
    reveal_strlit("{_easy_sql_d}{}{_easy_sql_d}.{_easy_sql_d}");
    reveal_strlit(" IN ({ITERATOR}))");
    reveal_with_fuel(brace_pairs, 45);
    assert(brace_pairs("{_easy_sql_d}"@) == 0);
    assert(brace_pairs("{}"@) == 1);
    assert(brace_pairs("{_easy_sql_d}{}{_easy_sql_d}.{_easy_sql_d}"@) == 1);
    assert(brace_pairs(" IN ({ITERATOR}))"@) == 0);
}

/// The fixed pieces of a condition's text hold no brace.
proof fn lemma_free_literals()
    ensures
        brace_pairs("("@) == 0 && no_open_end("("@),
        brace_pairs(")"@) == 0 && no_open_end(")"@),
        brace_pairs(" = "@) == 0 && no_open_end(" = "@),
        brace_pairs(" != "@) == 0 && no_open_end(" != "@),
        brace_pairs(" > "@) == 0 && no_open_end(" > "@),
        brace_pairs(" >= "@) == 0 && no_open_end(" >= "@),
        brace_pairs(" < "@) == 0 && no_open_end(" < "@),
        brace_pairs(" <= "@) == 0 && no_open_end(" <= "@),
        brace_pairs(" LIKE "@) == 0 && no_open_end(" LIKE "@),
        brace_pairs(" IS NULL)"@) == 0 && no_open_end(" IS NULL)"@),
        brace_pairs(" IS NOT NULL)"@) == 0 && no_open_end(" IS NOT NULL)"@),
        brace_pairs("(NOT "@) == 0 && no_open_end("(NOT "@),
        brace_pairs(" IN ("@) == 0 && no_open_end(" IN ("@),
        brace_pairs("))"@) == 0 && no_open_end("))"@),
        brace_pairs(" BETWEEN "@) == 0 && no_open_end(" BETWEEN "@),
        brace_pairs(" AND "@) == 0 && no_open_end(" AND "@),
        brace_pairs(", "@) == 0 && no_open_end(", "@),
        brace_pairs(" OR "@) == 0 && no_open_end(" OR "@),
        brace_pairs(" + "@) == 0 && no_open_end(" + "@),
        brace_pairs(" - "@) == 0 && no_open_end(" - "@),
        brace_pairs(" * "@) == 0 && no_open_end(" * "@),
        brace_pairs(" / "@) == 0 && no_open_end(" / "@),
        brace_pairs(" % "@) == 0 && no_open_end(" % "@),
        brace_pairs(" || "@) == 0 && no_open_end(" || "@),
        brace_pairs(" -> "@) == 0 && no_open_end(" -> "@),
        brace_pairs(" & "@) == 0 && no_open_end(" & "@),
        brace_pairs(" | "@) == 0 && no_open_end(" | "@),
        brace_pairs(" << "@) == 0 && no_open_end(" << "@),
        brace_pairs(" >> "@) == 0 && no_open_end(" >> "@),
{
    reveal_strlit("(");
    reveal_strlit(")");
    reveal_strlit(" = ");
    reveal_strlit(" != ");
    reveal_strlit(" > ");
    reveal_strlit(" >= ");
    reveal_strlit(" < ");
    reveal_strlit(" <= ");
    reveal_strlit(" LIKE ");
    reveal_strlit(" IS NULL)");
    reveal_strlit(" IS NOT NULL)");
    reveal_strlit("(NOT ");
    reveal_strlit(" IN (");
    reveal_strlit("))");
    reveal_strlit(" BETWEEN ");
    reveal_strlit(" AND ");
    reveal_strlit(", ");
    reveal_strlit(" OR ");
    reveal_strlit(" + ");
    reveal_strlit(" - ");
    reveal_strlit(" * ");
    reveal_strlit(" / ");
    reveal_strlit(" % ");
    reveal_strlit(" || ");
    reveal_strlit(" -> ");
    reveal_strlit(" & ");
    reveal_strlit(" | ");
    reveal_strlit(" << ");
    reveal_strlit(" >> ");
    lemma_brace_free("("@);
    lemma_brace_free(")"@);
    lemma_brace_free(" = "@);
    lemma_brace_free(" != "@);
    lemma_brace_free(" > "@);
    lemma_brace_free(" >= "@);
    lemma_brace_free(" < "@);
    lemma_brace_free(" <= "@);
    lemma_brace_free(" LIKE "@);
    lemma_brace_free(" IS NULL)"@);
    lemma_brace_free(" IS NOT NULL)"@);
    lemma_brace_free("(NOT "@);
    lemma_brace_free(" IN ("@);
    lemma_brace_free("))"@);
    lemma_brace_free(" BETWEEN "@);
    lemma_brace_free(" AND "@);
    lemma_brace_free(", "@);
    lemma_brace_free(" OR "@);
    lemma_brace_free(" + "@);
    lemma_brace_free(" - "@);
    lemma_brace_free(" * "@);
    lemma_brace_free(" / "@);
    lemma_brace_free(" % "@);
    lemma_brace_free(" || "@);
    lemma_brace_free(" -> "@);
    lemma_brace_free(" & "@);
    lemma_brace_free(" | "@);
    lemma_brace_free(" << "@);
    lemma_brace_free(" >> "@);
}

proof fn lemma_operator(op: Operator)
    ensures
        brace_pairs(operator_sql(op)) == 0,
        no_open_end(operator_sql(op)),
{
    lemma_free_literals();
}

proof fn lemma_value(s: Seq<Tok>, v: Value, n: int)
    requires
        idents_brace_free(s),
    ensures
        brace_pairs(value_sql(s, v)) == value_params(v, n).len(),
        no_open_end(value_sql(s, v)),
{
    lemma_delim();
    match v {
        Value::Column(Column::Column(i)) => {
            let id = ident_text(s, i);
            assert(brace_free(id));
            lemma_brace_free(id);
            lemma_cat("{_easy_sql_d}"@, id);
            lemma_cat("{_easy_sql_d}"@ + id, "{_easy_sql_d}"@);
        },
        Value::Column(Column::SpecificTableColumn(_, _, i)) => {
            let id = ident_text(s, i);
            assert(brace_free(id));
            lemma_brace_free(id);
            lemma_cat("{_easy_sql_d}{}{_easy_sql_d}.{_easy_sql_d}"@, id);
            lemma_cat("{_easy_sql_d}{}{_easy_sql_d}.{_easy_sql_d}"@ + id, "{_easy_sql_d}"@);
        },
        _ => {},
    }
}

/// `lemma_cat` over pieces in order: the pairs of the whole are the sum of
/// the pieces' pairs.
proof fn lemma_cat3(a: Seq<char>, b: Seq<char>, c: Seq<char>)
    requires
        no_open_end(a),
        no_open_end(b),
        no_open_end(c),
    ensures
        brace_pairs(a + b + c) == brace_pairs(a) + brace_pairs(b) + brace_pairs(c),
        no_open_end(a + b + c),
{
    lemma_cat(a, b);
    lemma_cat(a + b, c);
}

proof fn lemma_cat5(a: Seq<char>, b: Seq<char>, c: Seq<char>, d: Seq<char>, e: Seq<char>)
    requires
        no_open_end(a),
        no_open_end(b),
        no_open_end(c),
        no_open_end(d),
        no_open_end(e),
    ensures
        brace_pairs(a + b + c + d + e) == brace_pairs(a) + brace_pairs(b) + brace_pairs(c) + brace_pairs(d)
            + brace_pairs(e),
        no_open_end(a + b + c + d + e),
{
    lemma_cat3(a, b, c);
    lemma_cat(a + b + c, d);
    lemma_cat(a + b + c + d, e);
}

proof fn lemma_list(s: Seq<Tok>, l: ValueList, n: int)
    requires
        idents_brace_free(s),
    ensures
        brace_pairs(list_sql(s, l)) == list_params(l, n).len(),
        no_open_end(list_sql(s, l)),
    decreases l,
{
    match l {
        ValueList::Nil => {},
        ValueList::Cons(v, rest) => {
            lemma_value(s, v, n);
            lemma_list(s, *rest, n + crate::query_string::value_count(v));
            match *rest {
                ValueList::Nil => {},
                _ => {
                    lemma_free_literals();
                    lemma_cat3(value_sql(s, v), ", "@, list_sql(s, *rest));
                },
            }
        },
    }
}

proof fn lemma_binary(s: Seq<Tok>, l: Value, op: Seq<char>, r: Value, n: int, m: int)
    requires
        idents_brace_free(s),
        brace_pairs(op) == 0,
        no_open_end(op),
    ensures
        brace_pairs(binary_sql(s, l, op, r)) == value_params(l, n).len() + value_params(r, m).len(),
        no_open_end(binary_sql(s, l, op, r)),
{
    lemma_free_literals();
    lemma_value(s, l, n);
    lemma_value(s, r, m);
    lemma_cat5("("@, value_sql(s, l), op, value_sql(s, r), ")"@);
}

/// The `{}` placeholders of a condition's SQL text match its format arguments
/// one for one: the text holds as many `{}` as the condition adds format
/// arguments (placeholders and table names), where no identifier holds a brace.
pub proof fn lemma_expr_placeholders(s: Seq<Tok>, e: Expr, n: int)
    requires
        idents_brace_free(s),
    ensures
        brace_pairs(expr_sql(s, e)) == expr_params(e, n).len(),
        no_open_end(expr_sql(s, e)),
    decreases e,
{
    lemma_free_literals();
    let vc = |v: Value| crate::query_string::value_count(v);
    match e {
        Expr::Value(v) => lemma_value(s, v, n),
        Expr::Equal(l, r) => lemma_binary(s, l, " = "@, r, n, n + vc(l)),
        Expr::NotEqual(l, r) => lemma_binary(s, l, " != "@, r, n, n + vc(l)),
        Expr::GreaterThan(l, r) => lemma_binary(s, l, " > "@, r, n, n + vc(l)),
        Expr::GreaterThanOrEqual(l, r) => lemma_binary(s, l, " >= "@, r, n, n + vc(l)),
        Expr::LessThan(l, r) => lemma_binary(s, l, " < "@, r, n, n + vc(l)),
        Expr::LessThanOrEqual(l, r) => lemma_binary(s, l, " <= "@, r, n, n + vc(l)),
        Expr::Like(l, r) => lemma_binary(s, l, " LIKE "@, r, n, n + vc(l)),
        Expr::IsNull(v) => {
            lemma_value(s, v, n);
            lemma_cat3("("@, value_sql(s, v), " IS NULL)"@);
        },
        Expr::IsNotNull(v) => {
            lemma_value(s, v, n);
            lemma_cat3("("@, value_sql(s, v), " IS NOT NULL)"@);
        },
        Expr::Not(inner) => {
            lemma_expr_placeholders(s, *inner, n);
            lemma_cat3("(NOT "@, expr_sql(s, *inner), ")"@);
        },
        Expr::Parenthesized(inner) => {
            lemma_expr_placeholders(s, *inner, n);
            lemma_cat3("("@, expr_sql(s, *inner), ")"@);
        },
        Expr::OperatorChain(first, rest) => {
            lemma_expr_placeholders(s, *first, n);
            lemma_chain_placeholders(s, rest, n + crate::query_string::expr_count(*first));
            lemma_cat("("@, expr_sql(s, *first));
            lemma_cat3("("@ + expr_sql(s, *first), chain_sql(s, rest), ")"@);
        },
        Expr::In(v, ValueIn::Multiple(l)) => {
            lemma_value(s, v, n);
            lemma_list(s, l, n + vc(v));
            lemma_cat5("("@, value_sql(s, v), " IN ("@, list_sql(s, l), "))"@);
        },
        Expr::In(v, ValueIn::Single(_)) => {
            lemma_value(s, v, n);
            lemma_delim();
            lemma_cat3("("@, value_sql(s, v), " IN ({ITERATOR}))"@);
        },
        Expr::Between(v, a, b) => {
            lemma_value(s, v, n);
            lemma_value(s, a, n + vc(v));
            lemma_value(s, b, n + vc(v) + vc(a));
            lemma_cat5("("@, value_sql(s, v), " BETWEEN "@, value_sql(s, a), " AND "@);
            lemma_cat3("("@ + value_sql(s, v) + " BETWEEN "@ + value_sql(s, a) + " AND "@, value_sql(s, b), ")"@);
        },
    }
}

/// The chain part of [`lemma_expr_placeholders`].
pub proof fn lemma_chain_placeholders(s: Seq<Tok>, c: OpChain, n: int)
    requires
        idents_brace_free(s),
    ensures
        brace_pairs(chain_sql(s, c)) == chain_params(c, n).len(),
        no_open_end(chain_sql(s, c)),
    decreases c,
{
    match c {
        OpChain::Nil => {},
        OpChain::Cons(op, e, rest) => {
            lemma_operator(op);
            lemma_expr_placeholders(s, *e, n);
            lemma_chain_placeholders(s, *rest, n + crate::query_string::expr_count(*e));
            lemma_cat3(operator_sql(op), expr_sql(s, *e), chain_sql(s, *rest));
        },
    }
}

} // verus!
