//! The value of an integer literal as written: an optional `0x`, `0o` or `0b`
//! prefix, digits and underscores, then an optional type suffix.
use crate::tokens;
use crate::tokens::{LitKind, ParseError, ParseErrorKind, Tok};
use vstd::prelude::*;
use vstd::string::*;

verus! {

/// The value of `c` as a digit in base `base`, if it is one.
pub open spec fn digit_value(c: char, base: nat) -> Option<nat> {
    let u = c as u32;
    let v: int = if 48 <= u <= 57 {
        u - 48
    } else if 97 <= u <= 102 {
        u - 87
    } else if 65 <= u <= 70 {
        u - 55
    } else {
        99
    };
    if v < base {
        Some(v as nat)
    } else {
        None
    }
}

pub fn digit_value_exec(c: char, base: u32) -> (r: Option<u32>)
    ensures
        r matches Some(v) ==> digit_value(c, base as nat) == Some(v as nat),
        r is None ==> digit_value(c, base as nat) is None,
{
    let u = c as u32;
    let v: u32 = if 48 <= u && u <= 57 {
        u - 48
    } else if 97 <= u && u <= 102 {
        u - 87
    } else if 65 <= u && u <= 70 {
        u - 55
    } else {
        99
    };
    if v < base {
        Some(v)
    } else {
        None
    }
}

/// The base and the index of the first digit.
pub open spec fn radix_of(t: Seq<char>) -> (nat, nat) {
    if t.len() >= 2 && t[0] == '0' && t[1] == 'x' {
        (16, 2)
    } else if t.len() >= 2 && t[0] == '0' && t[1] == 'o' {
        (8, 2)
    } else if t.len() >= 2 && t[0] == '0' && t[1] == 'b' {
        (2, 2)
    } else {
        (10, 0)
    }
}

/// The index just after the digits and underscores that start at `i`.
pub open spec fn digits_end(t: Seq<char>, i: nat, base: nat) -> nat
    decreases t.len() - i,
{
    if i < t.len() && (digit_value(t[i as int], base) is Some || t[i as int] == '_') {
        digits_end(t, i + 1, base)
    } else {
        i
    }
}

/// The value of the digits in `[start, i)`, underscores skipped.
pub open spec fn digits_value(t: Seq<char>, start: nat, i: nat, base: nat) -> nat
    decreases i - start,
{
    if i <= start {
        0
    } else {
        let prev = digits_value(t, start, (i - 1) as nat, base);
        match digit_value(t[i - 1], base) {
            Some(d) => prev * base + d,
            None => prev,
        }
    }
}

/// The value of an integer literal's text; `None` when it has no digits.
pub open spec fn int_text_value(t: Seq<char>) -> Option<nat> {
    let (base, start) = radix_of(t);
    let e = digits_end(t, start, base);
    if e == start {
        None
    } else {
        Some(digits_value(t, start, e, base))
    }
}

proof fn lemma_digits_end_bounds(t: Seq<char>, i: nat, base: nat)
    requires
        i <= t.len(),
    ensures
        i <= digits_end(t, i, base) <= t.len(),
        forall|j: int|
            i <= j < digits_end(t, i, base) ==> (digit_value(t[j], base) is Some || t[j] == '_'),
        digits_end(t, i, base) < t.len() ==> !(digit_value(t[digits_end(t, i, base) as int], base)
            is Some || t[digits_end(t, i, base) as int] == '_'),
    decreases t.len() - i,
{
    if i < t.len() && (digit_value(t[i as int], base) is Some || t[i as int] == '_') {
        lemma_digits_end_bounds(t, i + 1, base);
    }
}

pub proof fn lemma_digits_value_monotone(t: Seq<char>, start: nat, i: nat, j: nat, base: nat)
    requires
        base >= 1,
        i <= j,
    ensures
        digits_value(t, start, i, base) <= digits_value(t, start, j, base),
    decreases j - i,
{
    if i < j {
        lemma_digits_value_monotone(t, start, i, (j - 1) as nat, base);
        if j > start {
            let prev = digits_value(t, start, (j - 1) as nat, base);
            assert(prev <= prev * base) by (nonlinear_arith)
                requires
                    base >= 1,
            ;
        }
    }
}

/// The value of the integer literal text `text` when it is at most `limit`.
pub fn int_text_value_bounded(text: &str, limit: u64) -> (r: Option<u64>)
    ensures
        r matches Some(v) ==> int_text_value(text@) == Some(v as nat) && v <= limit,
        r is None ==> match int_text_value(text@) {
            Some(v) => v > limit,
            None => true,
        },
{
    let t = Ghost(text@);
    let n = text.unicode_len();
    let mut base: u32 = 10;
    let mut start: usize = 0;
    if n >= 2 && text.get_char(0) == '0' {
        let c = text.get_char(1);
        if c == 'x' {
            base = 16;
            start = 2;
        } else if c == 'o' {
            base = 8;
            start = 2;
        } else if c == 'b' {
            base = 2;
            start = 2;
        }
    }
    assert(radix_of(t@) == (base as nat, start as nat));
    proof {
        lemma_digits_end_bounds(t@, start as nat, base as nat);
    }
    let ghost e = digits_end(t@, start as nat, base as nat);
    let mut i: usize = start;
    let mut acc: u64 = 0;
    while i < n && (digit_value_exec(text.get_char(i), base).is_some() || text.get_char(i) == '_')
        invariant
            n == t@.len(),
            t@ == text@,
            base >= 2,
            start <= i <= e,
            e <= n,
            e == digits_end(t@, start as nat, base as nat),
            radix_of(t@) == (base as nat, start as nat),
            forall|j: int| start <= j < e ==> (digit_value(t@[j], base as nat) is Some || t@[j] == '_'),
            e < n ==> !(digit_value(t@[e as int], base as nat) is Some || t@[e as int] == '_'),
            acc == digits_value(t@, start as nat, i as nat, base as nat),
            acc <= limit,
        decreases n - i,
    {
        let c = text.get_char(i);
        match digit_value_exec(c, base) {
            Some(d) => {
                let m = acc.checked_mul(base as u64);
                let next = match m {
                    Some(m) => m.checked_add(d as u64),
                    None => None,
                };
                match next {
                    Some(x) if x <= limit => {
                        acc = x;
                    },
                    _ => {
                        proof {
                            assert(digits_value(t@, start as nat, (i + 1) as nat, base as nat)
                                == acc * base + d);
                            lemma_digits_value_monotone(
                                t@,
                                start as nat,
                                (i + 1) as nat,
                                e,
                                base as nat,
                            );
                            assert(i < e) by {
                                if i >= e {
                                    assert(i == e);
                                }
                            }
                        }
                        return None;
                    },
                }
            },
            None => {},
        }
        i = i + 1;
    }
    assert(i == e) by {
        if i < e {
            assert(digit_value(t@[i as int], base as nat) is Some || t@[i as int] == '_');
        }
    }
    if i == start {
        None
    } else {
        Some(acc)
    }
}

/// The integer literal `[-]int` at `pos` (one or two tokens).
pub open spec fn int_lit_at(s: Seq<Tok>, pos: usize, end: usize) -> bool {
    &&& tokens::lit_len(s, pos, end) > 0
    &&& match s[pos as int] {
        Tok::Lit(k, _) => k == LitKind::Int,
        Tok::Punct(_, _) => s[pos + 1] matches Tok::Lit(k, _) && k == LitKind::Int,
        _ => false,
    }
}

/// Whether the integer literal at `pos` is negative, and its text.
pub open spec fn int_lit_parts(s: Seq<Tok>, pos: usize) -> (bool, Seq<char>) {
    match s[pos as int] {
        Tok::Lit(_, x) => (false, x@),
        _ => match s[pos + 1] {
            Tok::Lit(_, x) => (true, x@),
            _ => (true, Seq::empty()),
        },
    }
}

pub fn int_lit_at_exec(toks: &Vec<Tok>, pos: usize, end: usize) -> (r: bool)
    requires
        tokens::in_range(toks@, pos, end),
    ensures
        r == int_lit_at(toks@, pos, end),
{
    let n = tokens::exec_lit_len(toks, pos, end);
    if n == 0 {
        return false;
    }
    match &toks[pos] {
        Tok::Lit(k, _) => *k == LitKind::Int,
        Tok::Punct(_, _) => match &toks[pos + 1] {
            Tok::Lit(k, _) => *k == LitKind::Int,
            _ => false,
        },
        _ => false,
    }
}

/// The `i64` value of the integer literal at `pos`.
pub open spec fn int_lit_i64(s: Seq<Tok>, pos: usize) -> Option<int> {
    let (neg, text) = int_lit_parts(s, pos);
    match int_text_value(text) {
        Some(v) => if neg && v <= 9223372036854775808 {
            Some(-v)
        } else if !neg && v <= 9223372036854775807 {
            Some(v as int)
        } else {
            None
        },
        None => None,
    }
}

/// The `usize` value of the integer literal at `pos` (a negative one has none).
pub open spec fn int_lit_usize(s: Seq<Tok>, pos: usize) -> Option<int> {
    let (neg, text) = int_lit_parts(s, pos);
    match int_text_value(text) {
        Some(v) => if !neg && v <= usize::MAX {
            Some(v as int)
        } else if neg && v == 0 {
            Some(0)
        } else {
            None
        },
        None => None,
    }
}

/// Parses the integer literal at `pos` as an `i64`.
pub fn parse_int_lit_i64(toks: &Vec<Tok>, pos: usize, end: usize) -> (r: Result<
    (i64, usize),
    ParseError,
>)
    requires
        tokens::in_range(toks@, pos, end),
    ensures
        r matches Ok((v, p)) ==> int_lit_at(toks@, pos, end) && int_lit_i64(toks@, pos) == Some(
            v as int,
        ) && p == pos + tokens::lit_len(toks@, pos, end),
        r matches Err(e) ==> e.pos == pos && (!int_lit_at(toks@, pos, end) && e.kind
            == ParseErrorKind::Unexpected || int_lit_at(toks@, pos, end) && int_lit_i64(toks@, pos)
            is None && e.kind == ParseErrorKind::LiteralOutOfRange),
{
    if !int_lit_at_exec(toks, pos, end) {
        return Err(tokens::make_err(pos, ParseErrorKind::Unexpected));
    }
    let n = tokens::exec_lit_len(toks, pos, end);
    let (neg, text) = match &toks[pos] {
        Tok::Lit(_, x) => (false, x),
        _ => match &toks[pos + 1] {
            Tok::Lit(_, x) => (true, x),
            _ => {
                return Err(tokens::make_err(pos, ParseErrorKind::Unexpected));
            },
        },
    };
    if neg {
        match int_text_value_bounded(text.as_str(), 9223372036854775808u64) {
            Some(v) => {
                if v == 9223372036854775808u64 {
                    Ok((-9223372036854775807i64 - 1, pos + n))
                } else {
                    let w = v as i64;
                    Ok((-w, pos + n))
                }
            },
            None => Err(tokens::make_err(pos, ParseErrorKind::LiteralOutOfRange)),
        }
    } else {
        match int_text_value_bounded(text.as_str(), 9223372036854775807u64) {
            Some(v) => Ok((v as i64, pos + n)),
            None => Err(tokens::make_err(pos, ParseErrorKind::LiteralOutOfRange)),
        }
    }
}

/// Parses the integer literal at `pos` as a `usize`.
pub fn parse_int_lit_usize(toks: &Vec<Tok>, pos: usize, end: usize) -> (r: Result<
    (usize, usize),
    ParseError,
>)
    requires
        tokens::in_range(toks@, pos, end),
    ensures
        r matches Ok((v, p)) ==> int_lit_at(toks@, pos, end) && int_lit_usize(toks@, pos) == Some(
            v as int,
        ) && p == pos + tokens::lit_len(toks@, pos, end),
        r matches Err(e) ==> e.pos == pos && (!int_lit_at(toks@, pos, end) && e.kind
            == ParseErrorKind::Unexpected || int_lit_at(toks@, pos, end) && int_lit_usize(
            toks@,
            pos,
        ) is None && e.kind == ParseErrorKind::LiteralOutOfRange),
{
    if !int_lit_at_exec(toks, pos, end) {
        return Err(tokens::make_err(pos, ParseErrorKind::Unexpected));
    }
    let n = tokens::exec_lit_len(toks, pos, end);
    let (neg, text) = match &toks[pos] {
        Tok::Lit(_, x) => (false, x),
        _ => match &toks[pos + 1] {
            Tok::Lit(_, x) => (true, x),
            _ => {
                return Err(tokens::make_err(pos, ParseErrorKind::Unexpected));
            },
        },
    };
    let limit: u64 = if neg {
        0
    } else {
        usize::MAX as u64
    };
    match int_text_value_bounded(text.as_str(), limit) {
        Some(v) => Ok((v as usize, pos + n)),
        None => Err(tokens::make_err(pos, ParseErrorKind::LiteralOutOfRange)),
    }
}

} // verus!
