//! `custom_sql_function!(Name; "SQL_NAME"; 1 | 2 | Any)`: the declaration of a
//! SQL function that `query!` accepts, with the argument counts it takes.
use crate::int_lit;
use crate::tokens;
use crate::tokens::{exec_peek_ident, exec_peek_p1, make_err, LitKind, ParseError, ParseErrorKind, Tok};
use vstd::prelude::*;
use vstd::string::*;

verus! {

/// The argument count specification of a SQL function.
#[derive(Debug, Clone, PartialEq, Eq)]
pub enum ArgCount {
    /// Exactly N arguments.
    Exact(usize),
    /// Any number of arguments.
    Any,
    /// Several allowed counts (e.g. 1 or 2 arguments).
    Multiple(Vec<usize>),
}

/// The allowed counts, `None` for any number.
pub open spec fn arg_counts(a: ArgCount) -> Option<Seq<usize>> {
    match a {
        ArgCount::Exact(n) => Some(seq![n]),
        ArgCount::Any => None,
        ArgCount::Multiple(v) => Some(v@),
    }
}

pub open spec fn is_str_lit_tok(t: Tok) -> bool {
    match t {
        Tok::Lit(k, _) => k == LitKind::Str,
        _ => false,
    }
}

pub open spec fn is_ident_named(t: Tok, name: Seq<char>) -> bool {
    match t {
        Tok::Ident(x) => x@ == name,
        _ => false,
    }
}

/// More counts, each after a `|`, appended to `acc`.
pub open spec fn parse_more_counts_spec(s: Seq<Tok>, p: usize, end: usize, acc: Seq<usize>) -> Result<
    (Seq<usize>, usize),
    ParseError,
>
    decreases end - p,
{
    if tokens::peek_p1(s, p, end, '|') {
        let q = (p + 1) as usize;
        if !int_lit::int_lit_at(s, q, end) {
            Err(tokens::perr(q, ParseErrorKind::Unexpected))
        } else {
            match int_lit::int_lit_usize(s, q) {
                None => Err(tokens::perr(q, ParseErrorKind::LiteralOutOfRange)),
                Some(v) => parse_more_counts_spec(
                    s,
                    (q + tokens::lit_len(s, q, end)) as usize,
                    end,
                    acc.push(v as usize),
                ),
            }
        }
    } else {
        Ok((acc, p))
    }
}

/// `Any`, or integer literals separated by `|`: the counts (`None` for `Any`).
pub open spec fn parse_arg_count_spec(s: Seq<Tok>, pos: usize, end: usize) -> Result<
    (Option<Seq<usize>>, usize),
    ParseError,
> {
    if tokens::peek_ident(s, pos, end) {
        if is_ident_named(s[pos as int], "Any"@) {
            Ok((None, (pos + 1) as usize))
        } else {
            Err(tokens::perr(pos, ParseErrorKind::Unexpected))
        }
    } else if int_lit::int_lit_at(s, pos, end) {
        match int_lit::int_lit_usize(s, pos) {
            None => Err(tokens::perr(pos, ParseErrorKind::LiteralOutOfRange)),
            Some(v) => match parse_more_counts_spec(
                s,
                (pos + tokens::lit_len(s, pos, end)) as usize,
                end,
                seq![v as usize],
            ) {
                Err(e) => Err(e),
                Ok((vs, q)) => Ok((Some(vs), q)),
            },
        }
    } else {
        Err(tokens::perr(pos, ParseErrorKind::Unexpected))
    }
}

impl ArgCount {
    /// Parses `Any` or `N | M | ...`; one count gives `Exact`, several give `Multiple`.
    pub fn parse(toks: &Vec<Tok>, pos: usize, end: usize) -> (r: Result<(ArgCount, usize), ParseError>)
        requires
            tokens::in_range(toks@, pos, end),
        ensures
            match (r, parse_arg_count_spec(toks@, pos, end)) {
                (Ok((a, p)), Ok((c, q))) => arg_counts(a) == c && p == q && (a matches ArgCount::Multiple(v)
                    ==> v.len() >= 2),
                (Err(e), Err(f)) => e == f,
                _ => false,
            },
    {
        if exec_peek_ident(toks, pos, end) {
            match &toks[pos] {
                Tok::Ident(x) => {
                    if tokens::str_eq(x.as_str(), "Any") {
                        return Ok((ArgCount::Any, pos + 1));
                    }
                },
                _ => {},
            }
            return Err(make_err(pos, ParseErrorKind::Unexpected));
        }
        if !int_lit::int_lit_at_exec(toks, pos, end) {
            return Err(make_err(pos, ParseErrorKind::Unexpected));
        }
        let (first, p0) = int_lit::parse_int_lit_usize(toks, pos, end)?;
        let mut values: Vec<usize> = Vec::new();
        values.push(first);
        let mut p = p0;
        assert(values@ =~= seq![first]);
        while exec_peek_p1(toks, p, end, '|')
            invariant
                tokens::in_range(toks@, p, end),
                tokens::in_range(toks@, pos, end),
                !tokens::peek_ident(toks@, pos, end),
                int_lit::int_lit_at(toks@, pos, end),
                int_lit::int_lit_usize(toks@, pos) == Some(first as int),
                p0 == pos + tokens::lit_len(toks@, pos, end),
                values@.len() >= 1,
                values@[0] == first,
                parse_more_counts_spec(toks@, p, end, values@) == parse_more_counts_spec(
                    toks@,
                    p0,
                    end,
                    seq![first],
                ),
            decreases end - p,
        {
            let ghost old_values = values@;
            let (v, q) = match int_lit::parse_int_lit_usize(toks, p + 1, end) {
                Ok(x) => x,
                Err(e) => {
                    assert(parse_more_counts_spec(toks@, p, end, old_values) == Err::<
                        (Seq<usize>, usize),
                        ParseError,
                    >(e));
                    return Err(e);
                },
            };
            values.push(v);
            p = q;
        }
        if values.len() == 1 {
            let n = values[0];
            assert(values@ =~= seq![n]);
            Ok((ArgCount::Exact(n), p))
        } else {
            Ok((ArgCount::Multiple(values), p))
        }
    }
}

/// The input of `custom_sql_function!`.
#[derive(Debug, Clone, PartialEq, Eq)]
pub struct SqlFunctionInput {
    /// The token index of the function's (struct) name.
    pub struct_name: usize,
    /// The SQL name, the value of the string literal.
    pub sql_name: String,
    pub arg_count: ArgCount,
}

/// The value of a string literal as `syn::LitStr::value` computes it from the
/// literal's text (`None` when the text is not a string literal).
pub uninterp spec fn lit_str_value(text: Seq<char>) -> Option<Seq<char>>;

/// Calls `syn::parse_str::<syn::LitStr>` on the literal's text and then
/// `LitStr::value`. The contract names the result [`lit_str_value`] of the text;
/// how escapes and raw strings are decoded is not stated.
#[verifier::external_body]
pub(crate) fn string_literal_value(text: &str) -> (r: Option<String>)
    ensures
        r matches Some(v) ==> lit_str_value(text@) == Some(v@),
        r is None ==> lit_str_value(text@) is None,
{
    match syn::parse_str::<syn::LitStr>(text) {
        Ok(lit) => Some(lit.value()),
        Err(_) => None,
    }
}

/// `Name ; "SQL_NAME" ; counts [;]` filling the whole range: the name's index,
/// the SQL name, the counts and the position after the counts.
pub open spec fn parse_sql_function_input_spec(s: Seq<Tok>, pos: usize, end: usize) -> Result<
    (usize, Seq<char>, Option<Seq<usize>>),
    ParseError,
> {
    let p1 = (pos + 1) as usize;
    let p2 = (pos + 2) as usize;
    let p3 = (pos + 3) as usize;
    let p4 = (pos + 4) as usize;
    if !tokens::peek_ident(s, pos, end) {
        Err(tokens::perr(pos, ParseErrorKind::ExpectedIdent))
    } else if !tokens::peek_p1(s, p1, end, ';') {
        Err(tokens::perr(p1, ParseErrorKind::ExpectedPunct))
    } else if !(p2 < end && is_str_lit_tok(s[p2 as int])) {
        Err(tokens::perr(p2, ParseErrorKind::Unexpected))
    } else {
        match s[p2 as int] {
            Tok::Lit(_, text) => match lit_str_value(text@) {
                None => Err(tokens::perr(p2, ParseErrorKind::Unexpected)),
                Some(name) => if !tokens::peek_p1(s, p3, end, ';') {
                    Err(tokens::perr(p3, ParseErrorKind::ExpectedPunct))
                } else {
                    match parse_arg_count_spec(s, p4, end) {
                        Err(e) => Err(e),
                        Ok((c, q)) => if q == end || (tokens::peek_p1(s, q, end, ';') && q + 1
                            == end) {
                            Ok((pos, name, c))
                        } else if tokens::peek_p1(s, q, end, ';') {
                            Err(tokens::perr((q + 1) as usize, ParseErrorKind::TrailingTokens))
                        } else if q < end {
                            Err(tokens::perr(q, ParseErrorKind::ExpectedPunct))
                        } else {
                            Ok((pos, name, c))
                        },
                    }
                },
            },
            _ => Err(tokens::perr(p2, ParseErrorKind::Unexpected)),
        }
    }
}

impl SqlFunctionInput {
    /// Parses the whole input of `custom_sql_function!`.
    pub fn parse(toks: &Vec<Tok>, pos: usize, end: usize) -> (r: Result<SqlFunctionInput, ParseError>)
        requires
            tokens::in_range(toks@, pos, end),
        ensures
            match (r, parse_sql_function_input_spec(toks@, pos, end)) {
                (Ok(i), Ok((n, name, c))) => i.struct_name == n && i.sql_name@ == name && arg_counts(
                    i.arg_count,
                ) == c && (i.arg_count matches ArgCount::Multiple(v) ==> v.len() >= 2),
                (Err(e), Err(f)) => e == f,
                _ => false,
            },
    {
        if !exec_peek_ident(toks, pos, end) {
            return Err(make_err(pos, ParseErrorKind::ExpectedIdent));
        }
        if !exec_peek_p1(toks, pos + 1, end, ';') {
            return Err(make_err(pos + 1, ParseErrorKind::ExpectedPunct));
        }
        if pos + 2 >= end {
            return Err(make_err(pos + 2, ParseErrorKind::Unexpected));
        }
        let sql_name = match &toks[pos + 2] {
            Tok::Lit(k, text) => {
                if *k != LitKind::Str {
                    return Err(make_err(pos + 2, ParseErrorKind::Unexpected));
                }
                match string_literal_value(text.as_str()) {
                    Some(v) => v,
                    None => {
                        return Err(make_err(pos + 2, ParseErrorKind::Unexpected));
                    },
                }
            },
            _ => {
                return Err(make_err(pos + 2, ParseErrorKind::Unexpected));
            },
        };
        if !exec_peek_p1(toks, pos + 3, end, ';') {
            return Err(make_err(pos + 3, ParseErrorKind::ExpectedPunct));
        }
        let (arg_count, q) = ArgCount::parse(toks, pos + 4, end)?;
        if q < end {
            if !exec_peek_p1(toks, q, end, ';') {
                return Err(make_err(q, ParseErrorKind::ExpectedPunct));
            }
            if q + 1 != end {
                return Err(make_err(q + 1, ParseErrorKind::TrailingTokens));
            }
        }
        Ok(SqlFunctionInput { struct_name: pos, sql_name, arg_count })
    }
}

pub open spec fn digit_text(d: nat) -> Seq<char> {
    if d == 0 {
        "0"@
    } else if d == 1 {
        "1"@
    } else if d == 2 {
        "2"@
    } else if d == 3 {
        "3"@
    } else if d == 4 {
        "4"@
    } else if d == 5 {
        "5"@
    } else if d == 6 {
        "6"@
    } else if d == 7 {
        "7"@
    } else if d == 8 {
        "8"@
    } else {
        "9"@
    }
}

/// The decimal digits of `n`.
pub open spec fn decimal(n: nat) -> Seq<char>
    decreases n,
{
    if n < 10 {
        digit_text(n)
    } else {
        decimal(n / 10) + digit_text(n % 10)
    }
}

fn digit_str(d: usize) -> (r: &'static str)
    requires
        d < 10,
    ensures
        r@ == digit_text(d as nat),
{
    if d == 0 {
        "0"
    } else if d == 1 {
        "1"
    } else if d == 2 {
        "2"
    } else if d == 3 {
        "3"
    } else if d == 4 {
        "4"
    } else if d == 5 {
        "5"
    } else if d == 6 {
        "6"
    } else if d == 7 {
        "7"
    } else if d == 8 {
        "8"
    } else {
        "9"
    }
}

/// `n` written in decimal.
pub fn usize_to_decimal(n: usize) -> (r: String)
    ensures
        r@ == decimal(n as nat),
    decreases n,
{
    if n < 10 {
        String::from_str(digit_str(n))
    } else {
        let mut r = usize_to_decimal(n / 10);
        r.append(digit_str(n % 10));
        r
    }
}

/// One arm of the generated `macro_rules!`.
#[derive(Debug, Clone, Copy, PartialEq, Eq, Structural)]
pub enum MacroArm {
    /// Exactly this many expression arguments give the SQL name.
    Count(usize),
    /// Any other arguments give a compile error with the message.
    Mismatch,
    /// Any arguments give the SQL name.
    AnyCount,
}

/// The counts joined by ` or `.
pub open spec fn join_counts(v: Seq<usize>) -> Seq<char>
    decreases v.len(),
{
    if v.len() == 0 {
        Seq::empty()
    } else if v.len() == 1 {
        decimal(v[0] as nat)
    } else {
        join_counts(v.drop_last()) + " or "@ + decimal(v.last() as nat)
    }
}

/// The message for a call with an unsupported number of arguments.
pub open spec fn arg_error_message(sql_name: Seq<char>, a: ArgCount) -> Seq<char> {
    match a {
        ArgCount::Exact(n) => sql_name + " expects exactly "@ + decimal(n as nat) + " argument(s)"@,
        ArgCount::Multiple(v) => sql_name + " expects "@ + join_counts(v@) + " argument(s)"@,
        ArgCount::Any => Seq::empty(),
    }
}

/// The arms of the generated macro, in order.
pub open spec fn macro_arms(a: ArgCount) -> Seq<MacroArm> {
    match a {
        ArgCount::Exact(n) => seq![MacroArm::Count(n), MacroArm::Mismatch],
        ArgCount::Multiple(v) => v@.map_values(|c: usize| MacroArm::Count(c)).push(
            MacroArm::Mismatch,
        ),
        ArgCount::Any => seq![MacroArm::AnyCount],
    }
}

/// The arm accepts a call with `k` arguments (gives the SQL name). The
/// mismatch arm gives a compile error and accepts nothing.
pub open spec fn arm_accepts(arm: MacroArm, k: usize) -> bool {
    match arm {
        MacroArm::Count(m) => m == k,
        MacroArm::AnyCount => true,
        MacroArm::Mismatch => false,
    }
}

/// Some arm accepts a call with `k` arguments.
pub open spec fn arms_accept(arms: Seq<MacroArm>, k: usize) -> bool {
    exists|i: int| 0 <= i < arms.len() && arm_accepts(#[trigger] arms[i], k)
}

/// The generated macro accepts exactly the calls whose argument count is one
/// of those written: for `Exact(n)` only calls with `n` arguments, for a list
/// only its counts, and for `Any` every call. Unless the count is `Any`, no arm
/// accepts any number of arguments and the last arm is the mismatch (error)
/// arm.
pub proof fn lemma_macro_arms_accept(a: ArgCount, k: usize)
    ensures
        a matches ArgCount::Exact(n) ==> (arms_accept(macro_arms(a), k) <==> k == n),
        a matches ArgCount::Multiple(v) ==> (arms_accept(macro_arms(a), k) <==> v@.contains(k)),
        a is Any ==> arms_accept(macro_arms(a), k),
        !(a is Any) ==> macro_arms(a).len() > 0 && macro_arms(a).last() == MacroArm::Mismatch,
        !(a is Any) ==> forall|i: int| 0 <= i < macro_arms(a).len() ==> #[trigger] macro_arms(a)[i] != MacroArm::AnyCount,
{
    let arms = macro_arms(a);
    match a {
        ArgCount::Exact(n) => {
            if k == n {
                assert(arm_accepts(arms[0], k));
            }
            if arms_accept(arms, k) {
                let i = choose|i: int| 0 <= i < arms.len() && arm_accepts(#[trigger] arms[i], k);
                assert(i == 0 || i == 1);
            }
        },
        ArgCount::Multiple(v) => {
            let counts = v@.map_values(|c: usize| MacroArm::Count(c));
            assert(arms == counts.push(MacroArm::Mismatch));
            if v@.contains(k) {
                let j = choose|j: int| 0 <= j < v@.len() && v@[j] == k;
                assert(arms[j] == MacroArm::Count(k));
                assert(arm_accepts(arms[j], k));
            }
            if arms_accept(arms, k) {
                let i = choose|i: int| 0 <= i < arms.len() && arm_accepts(#[trigger] arms[i], k);
                if i < v@.len() {
                    assert(arms[i] == MacroArm::Count(v@[i]));
                    assert(v@[i] == k);
                    assert(v@.contains(k));
                } else {
                    assert(arms[i] == MacroArm::Mismatch);
                }
            }
            assert forall|i: int| 0 <= i < arms.len() implies #[trigger] arms[i] != MacroArm::AnyCount by {
                if i < v@.len() {
                    assert(arms[i] == MacroArm::Count(v@[i]));
                }
            }
        },
        ArgCount::Any => {
            assert(arm_accepts(arms[0], k));
        },
    }
}

/// What `custom_sql_function!` generates: a `macro_rules!` named after the
/// function in lower case, whose arms give the SQL name or an error message.
#[derive(Debug, Clone, PartialEq, Eq)]
pub struct SqlFunctionPlan {
    pub macro_name: String,
    pub sql_name: String,
    pub error_message: String,
    pub arms: Vec<MacroArm>,
}

/// The name's lower-case form as `str::to_lowercase` computes it.
pub uninterp spec fn std_to_lowercase(s: Seq<char>) -> Seq<char>;

/// Calls `str::to_lowercase` (std). The contract names its result
/// [`std_to_lowercase`] of the argument; the Unicode case mapping is not stated.
#[verifier::external_body]
fn to_lowercase(s: &str) -> (r: String)
    ensures
        r@ == std_to_lowercase(s@),
{
    s.to_lowercase()
}

/// Joins the counts of `v` from `i` on, each after ` or ` but the first.
fn join_counts_exec(v: &Vec<usize>) -> (r: String)
    requires
        v.len() >= 1,
    ensures
        r@ == join_counts(v@),
{
    let mut r = usize_to_decimal(v[0]);
    let mut i: usize = 1;
    assert(v@.take(1).drop_last() =~= Seq::<usize>::empty());
    assert(v@.take(1) =~= seq![v@[0]]);
    while i < v.len()
        invariant
            1 <= i <= v.len(),
            r@ == join_counts(v@.take(i as int)),
        decreases v.len() - i,
    {
        let d = usize_to_decimal(v[i]);
        r.append(" or ");
        r.append(d.as_str());
        assert(v@.take(i + 1).drop_last() =~= v@.take(i as int));
        i = i + 1;
    }
    assert(v@.take(v.len() as int) =~= v@);
    r
}

impl ArgCount {
    /// The message for a call with an unsupported number of arguments.
    pub fn error_message(&self, sql_name: &str) -> (r: String)
        ensures
            r@ == arg_error_message(sql_name@, *self),
    {
        match self {
            ArgCount::Exact(n) => {
                let mut r = String::from_str(sql_name);
                r.append(" expects exactly ");
                let d = usize_to_decimal(*n);
                r.append(d.as_str());
                r.append(" argument(s)");
                r
            },
            ArgCount::Multiple(v) => {
                let mut r = String::from_str(sql_name);
                r.append(" expects ");
                if v.len() > 0 {
                    let j = join_counts_exec(v);
                    r.append(j.as_str());
                }
                r.append(" argument(s)");
                r
            },
            ArgCount::Any => String::new(),
        }
    }

    /// The arms of the generated macro, in order.
    pub fn macro_arms(&self) -> (r: Vec<MacroArm>)
        ensures
            r@ == macro_arms(*self),
    {
        match self {
            ArgCount::Exact(n) => {
                let mut r = Vec::new();
                r.push(MacroArm::Count(*n));
                r.push(MacroArm::Mismatch);
                r
            },
            ArgCount::Multiple(v) => {
                let mut r: Vec<MacroArm> = Vec::new();
                let mut i: usize = 0;
                while i < v.len()
                    invariant
                        i <= v.len(),
                        r@ == v@.take(i as int).map_values(|c: usize| MacroArm::Count(c)),
                    decreases v.len() - i,
                {
                    r.push(MacroArm::Count(v[i]));
                    assert(v@.take(i + 1).map_values(|c: usize| MacroArm::Count(c)) =~= v@.take(
                        i as int,
                    ).map_values(|c: usize| MacroArm::Count(c)).push(MacroArm::Count(v@[i as int])));
                    i = i + 1;
                }
                assert(v@.take(v.len() as int) =~= v@);
                r.push(MacroArm::Mismatch);
                r
            },
            ArgCount::Any => {
                let mut r = Vec::new();
                r.push(MacroArm::AnyCount);
                r
            },
        }
    }
}

/// What `custom_sql_function!` generates for a parsed input.
pub fn custom_sql_function_impl(toks: &Vec<Tok>, input: &SqlFunctionInput) -> (r: SqlFunctionPlan)
    ensures
        r.macro_name@ == std_to_lowercase(
            crate::query_string::ident_text(toks@, input.struct_name),
        ),
        r.sql_name@ == input.sql_name@,
        r.error_message@ == arg_error_message(input.sql_name@, input.arg_count),
        r.arms@ == macro_arms(input.arg_count),
{
    let name = crate::query_string::ident_string(toks, input.struct_name);
    let macro_name = to_lowercase(name.as_str());
    let error_message = input.arg_count.error_message(input.sql_name.as_str());
    let arms = input.arg_count.macro_arms();
    SqlFunctionPlan { macro_name, sql_name: input.sql_name.clone(), error_message, arms }
}

} // verus!
