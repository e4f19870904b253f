//! The arguments that a `#[sql(select = ...)]` expression uses: each value
//! `{argN}` (a braced Rust expression that is the one identifier `arg`
//! followed by decimal digits) uses argument `N`.
use crate::expr::{Expr, OpChain, Value, ValueIn, ValueList};
use crate::int_lit;
use crate::tokens::Tok;
use vstd::prelude::*;

verus! {

/// `arg` followed by one or more decimal digits.
pub open spec fn is_arg_name(t: Seq<char>) -> bool {
    &&& t.len() > 3
    &&& t[0] == 'a' && t[1] == 'r' && t[2] == 'g'
    &&& forall|i: int| 3 <= i < t.len() ==> '0' <= #[trigger] t[i] <= '9'
}

/// The number of an argument's name, if it is one.
pub open spec fn arg_index(t: Seq<char>) -> Option<nat> {
    if is_arg_name(t) {
        Some(int_lit::digits_value(t, 3, t.len(), 10))
    } else {
        None
    }
}

/// The argument that a value uses: a braced value holding only an argument's
/// name whose number fits a `usize`.
pub open spec fn value_args(s: Seq<Tok>, v: Value) -> Seq<usize> {
    match v {
        Value::OutsideVariable(a, b) => if b == a + 1 && 0 <= a < s.len() {
            match s[a as int] {
                Tok::Ident(x) => match arg_index(x@) {
                    Some(n) => if n <= usize::MAX {
                        seq![n as usize]
                    } else {
                        Seq::empty()
                    },
                    None => Seq::empty(),
                },
                _ => Seq::empty(),
            }
        } else {
            Seq::empty()
        },
        _ => Seq::empty(),
    }
}

pub open spec fn list_args(s: Seq<Tok>, l: ValueList) -> Seq<usize>
    decreases l,
{
    match l {
        ValueList::Nil => Seq::empty(),
        ValueList::Cons(v, rest) => value_args(s, v) + list_args(s, *rest),
    }
}

/// The arguments an expression uses, in the order its values come.
pub open spec fn expr_args(s: Seq<Tok>, e: Expr) -> Seq<usize>
    decreases e,
{
    match e {
        Expr::Value(v) => value_args(s, v),
        Expr::Equal(l, r) => value_args(s, l) + value_args(s, r),
        Expr::NotEqual(l, r) => value_args(s, l) + value_args(s, r),
        Expr::GreaterThan(l, r) => value_args(s, l) + value_args(s, r),
        Expr::GreaterThanOrEqual(l, r) => value_args(s, l) + value_args(s, r),
        Expr::LessThan(l, r) => value_args(s, l) + value_args(s, r),
        Expr::LessThanOrEqual(l, r) => value_args(s, l) + value_args(s, r),
        Expr::Like(l, r) => value_args(s, l) + value_args(s, r),
        Expr::IsNull(v) => value_args(s, v),
        Expr::IsNotNull(v) => value_args(s, v),
        Expr::Not(inner) => expr_args(s, *inner),
        Expr::Parenthesized(inner) => expr_args(s, *inner),
        Expr::OperatorChain(first, rest) => expr_args(s, *first) + chain_args(s, rest),
        Expr::In(v, ValueIn::Multiple(l)) => value_args(s, v) + list_args(s, l),
        Expr::In(v, ValueIn::Single(x)) => value_args(s, v) + value_args(s, x),
        Expr::Between(v, a, b) => value_args(s, v) + value_args(s, a) + value_args(s, b),
    }
}

pub open spec fn chain_args(s: Seq<Tok>, c: OpChain) -> Seq<usize>
    decreases c,
{
    match c {
        OpChain::Nil => Seq::empty(),
        OpChain::Cons(_, e, rest) => expr_args(s, *e) + chain_args(s, *rest),
    }
}

/// The number of an argument's name, when it is one and fits a `usize`.
pub fn arg_index_exec(text: &str) -> (r: Option<usize>)
    ensures
        r matches Some(n) ==> arg_index(text@) == Some(n as nat),
        r is None ==> match arg_index(text@) {
            Some(n) => n > usize::MAX,
            None => true,
        },
{
    let n = text.unicode_len();
    if n <= 3 || text.get_char(0) != 'a' || text.get_char(1) != 'r' || text.get_char(2) != 'g' {
        return None;
    }
    let ghost t = text@;
    let mut i: usize = 3;
    let mut acc: usize = 0;
    while i < n
        invariant
            3 <= i <= n,
            n == t.len(),
            t == text@,
            t[0] == 'a' && t[1] == 'r' && t[2] == 'g',
            forall|j: int| 3 <= j < i ==> '0' <= #[trigger] t[j] <= '9',
            acc == int_lit::digits_value(t, 3, i as nat, 10),
        decreases n - i,
    {
        let c = text.get_char(i);
        if c < '0' || c > '9' {
            assert(!is_arg_name(t));
            return None;
        }
        let d = (c as u32 - 48) as usize;
        assert(int_lit::digit_value(c, 10) == Some(d as nat));
        assert(int_lit::digits_value(t, 3, (i + 1) as nat, 10) == acc * 10 + d);
        let next = match acc.checked_mul(10) {
            Some(m) => m.checked_add(d),
            None => None,
        };
        match next {
            Some(x) => {
                acc = x;
            },
            None => {
                proof {
                    let rest_ok = forall|j: int| 3 <= j < n ==> '0' <= #[trigger] t[j] <= '9';
                    if rest_ok {
                        int_lit::lemma_digits_value_monotone(t, 3, (i + 1) as nat, n as nat, 10);
                    }
                }
                return None;
            },
        }
        i = i + 1;
    }
    Some(acc)
}

fn value_args_exec(toks: &Vec<Tok>, v: &Value, out: &mut Vec<usize>)
    ensures
        final(out)@ == old(out)@ + value_args(toks@, *v),
{
    match v {
        Value::OutsideVariable(a, b) => {
            if *a < toks.len() && *b == *a + 1 {
                match &toks[*a] {
                    Tok::Ident(x) => {
                        match arg_index_exec(x.as_str()) {
                            Some(n) => {
                                out.push(n);
                            },
                            None => {},
                        }
                    },
                    _ => {},
                }
            }
        },
        _ => {},
    }
    assert(out@ =~= old(out)@ + value_args(toks@, *v));
}

fn list_args_exec(toks: &Vec<Tok>, l: &ValueList, out: &mut Vec<usize>)
    ensures
        final(out)@ == old(out)@ + list_args(toks@, *l),
    decreases l,
{
    match l {
        ValueList::Nil => {
            assert(out@ =~= old(out)@ + list_args(toks@, *l));
        },
        ValueList::Cons(v, rest) => {
            value_args_exec(toks, v, out);
            list_args_exec(toks, rest, out);
            assert(out@ =~= old(out)@ + list_args(toks@, *l));
        },
    }
}

fn two_values(toks: &Vec<Tok>, a: &Value, b: &Value, out: &mut Vec<usize>)
    ensures
        final(out)@ == old(out)@ + (value_args(toks@, *a) + value_args(toks@, *b)),
{
    value_args_exec(toks, a, out);
    value_args_exec(toks, b, out);
    assert(out@ =~= old(out)@ + (value_args(toks@, *a) + value_args(toks@, *b)));
}

fn expr_args_exec(toks: &Vec<Tok>, e: &Expr, out: &mut Vec<usize>)
    ensures
        final(out)@ == old(out)@ + expr_args(toks@, *e),
    decreases e,
{
    match e {
        Expr::Value(v) => value_args_exec(toks, v, out),
        Expr::Equal(l, r) => two_values(toks, l, r, out),
        Expr::NotEqual(l, r) => two_values(toks, l, r, out),
        Expr::GreaterThan(l, r) => two_values(toks, l, r, out),
        Expr::GreaterThanOrEqual(l, r) => two_values(toks, l, r, out),
        Expr::LessThan(l, r) => two_values(toks, l, r, out),
        Expr::LessThanOrEqual(l, r) => two_values(toks, l, r, out),
        Expr::Like(l, r) => two_values(toks, l, r, out),
        Expr::IsNull(v) => value_args_exec(toks, v, out),
        Expr::IsNotNull(v) => value_args_exec(toks, v, out),
        Expr::Not(inner) => expr_args_exec(toks, inner, out),
        Expr::Parenthesized(inner) => expr_args_exec(toks, inner, out),
        Expr::OperatorChain(first, rest) => {
            expr_args_exec(toks, first, out);
            chain_args_exec(toks, rest, out);
            assert(out@ =~= old(out)@ + expr_args(toks@, *e));
        },
        Expr::In(v, ValueIn::Multiple(l)) => {
            value_args_exec(toks, v, out);
            list_args_exec(toks, l, out);
            assert(out@ =~= old(out)@ + expr_args(toks@, *e));
        },
        Expr::In(v, ValueIn::Single(x)) => two_values(toks, v, x, out),
        Expr::Between(v, a, b) => {
            two_values(toks, v, a, out);
            value_args_exec(toks, b, out);
            assert(out@ =~= old(out)@ + expr_args(toks@, *e));
        },
    }
}

fn chain_args_exec(toks: &Vec<Tok>, c: &OpChain, out: &mut Vec<usize>)
    ensures
        final(out)@ == old(out)@ + chain_args(toks@, *c),
    decreases c,
{
    match c {
        OpChain::Nil => {
            assert(out@ =~= old(out)@ + chain_args(toks@, *c));
        },
        OpChain::Cons(_, e, rest) => {
            expr_args_exec(toks, e, out);
            chain_args_exec(toks, rest, out);
            assert(out@ =~= old(out)@ + chain_args(toks@, *c));
        },
    }
}

/// The argument numbers that a custom select expression uses, in the order of
/// its values (a number once per use).
pub fn select_arg_indices(toks: &Vec<Tok>, e: &Expr) -> (r: Vec<usize>)
    ensures
        r@ == expr_args(toks@, *e),
{
    let mut r: Vec<usize> = Vec::new();
    expr_args_exec(toks, e, &mut r);
    assert(r@ =~= expr_args(toks@, *e));
    r
}

} // verus!
