//! Rust syntax inside the macros' inputs: types, paths and expressions.
//!
//! Where an input holds a Rust type (or path, or expression), its extent is the
//! run of tokens up to the token that must follow it, not counting tokens inside
//! groups or inside `<...>`. The grammar is stated on the tokens alone; `syn`
//! is then asked whether the run's text is valid Rust, and a run it rejects
//! gives the syntax error of its kind.
use crate::tokens;
use crate::tokens::{Delim, Kw, ParseError, ParseErrorKind, Tok};
use vstd::prelude::*;
use vstd::string::*;

verus! {

pub open spec fn punct_text(c: char) -> Seq<char> {
    if c == '=' {
        "="@
    } else if c == '<' {
        "<"@
    } else if c == '>' {
        ">"@
    } else if c == '!' {
        "!"@
    } else if c == '~' {
        "~"@
    } else if c == '+' {
        "+"@
    } else if c == '-' {
        "-"@
    } else if c == '*' {
        "*"@
    } else if c == '/' {
        "/"@
    } else if c == '%' {
        "%"@
    } else if c == '^' {
        "^"@
    } else if c == '&' {
        "&"@
    } else if c == '|' {
        "|"@
    } else if c == '@' {
        "@"@
    } else if c == '.' {
        "."@
    } else if c == ',' {
        ","@
    } else if c == ';' {
        ";"@
    } else if c == ':' {
        ":"@
    } else if c == '#' {
        "#"@
    } else if c == '$' {
        "$"@
    } else if c == '?' {
        "?"@
    } else if c == '\'' {
        "'"@
    } else {
        ""@
    }
}

fn punct_str(c: char) -> (r: &'static str)
    ensures
        r@ == punct_text(c),
{
    if c == '=' {
        "="
    } else if c == '<' {
        "<"
    } else if c == '>' {
        ">"
    } else if c == '!' {
        "!"
    } else if c == '~' {
        "~"
    } else if c == '+' {
        "+"
    } else if c == '-' {
        "-"
    } else if c == '*' {
        "*"
    } else if c == '/' {
        "/"
    } else if c == '%' {
        "%"
    } else if c == '^' {
        "^"
    } else if c == '&' {
        "&"
    } else if c == '|' {
        "|"
    } else if c == '@' {
        "@"
    } else if c == '.' {
        "."
    } else if c == ',' {
        ","
    } else if c == ';' {
        ";"
    } else if c == ':' {
        ":"
    } else if c == '#' {
        "#"
    } else if c == '$' {
        "$"
    } else if c == '?' {
        "?"
    } else if c == '\'' {
        "'"
    } else {
        ""
    }
}

pub open spec fn open_text(d: Delim) -> Seq<char> {
    match d {
        Delim::Paren => "("@,
        Delim::Brace => "{"@,
        Delim::Bracket => "["@,
        Delim::Invisible => Seq::empty(),
    }
}

pub open spec fn close_text(d: Delim) -> Seq<char> {
    match d {
        Delim::Paren => ")"@,
        Delim::Brace => "}"@,
        Delim::Bracket => "]"@,
        Delim::Invisible => Seq::empty(),
    }
}

/// The source text of one token.
pub open spec fn tok_text(t: Tok) -> Seq<char> {
    match t {
        Tok::Ident(x) => x@,
        Tok::Lit(_, x) => x@,
        Tok::Punct(c, _) => punct_text(c),
        Tok::Open(d, _) => open_text(d),
        Tok::Close(d) => close_text(d),
    }
}

pub open spec fn tok_is_joint(t: Tok) -> bool {
    match t {
        Tok::Punct(_, j) => j,
        _ => false,
    }
}

/// The source text of the tokens in `[a, b)`: tokens separated by one space,
/// except after a punctuation joined to the next one.
pub open spec fn render_range(s: Seq<Tok>, a: int, b: int) -> Seq<char>
    decreases b - a,
{
    if a < 0 || a >= b || b > s.len() {
        Seq::empty()
    } else {
        tok_text(s[a]) + (if a + 1 < b && !tok_is_joint(s[a]) {
            " "@
        } else {
            Seq::empty()
        }) + render_range(s, a + 1, b)
    }
}

fn append_tok_text(r: &mut String, t: &Tok)
    ensures
        final(r)@ == old(r)@ + tok_text(*t),
{
    match t {
        Tok::Ident(x) => r.append(x.as_str()),
        Tok::Lit(_, x) => r.append(x.as_str()),
        Tok::Punct(c, _) => r.append(punct_str(*c)),
        Tok::Open(d, _) => match d {
            Delim::Paren => r.append("("),
            Delim::Brace => r.append("{"),
            Delim::Bracket => r.append("["),
            Delim::Invisible => {
                assert(old(r)@ + Seq::<char>::empty() =~= old(r)@);
            },
        },
        Tok::Close(d) => match d {
            Delim::Paren => r.append(")"),
            Delim::Brace => r.append("}"),
            Delim::Bracket => r.append("]"),
            Delim::Invisible => {
                assert(old(r)@ + Seq::<char>::empty() =~= old(r)@);
            },
        },
    }
}

/// The source text of the tokens in `[a, b)`.
pub fn render_tokens(toks: &Vec<Tok>, a: usize, b: usize) -> (r: String)
    requires
        a <= b <= toks.len(),
    ensures
        r@ == render_range(toks@, a as int, b as int),
{
    let mut r = String::new();
    let mut i = a;
    while i < b
        invariant
            a <= i <= b <= toks.len(),
            r@ + render_range(toks@, i as int, b as int) == render_range(toks@, a as int, b as int),
        decreases b - i,
    {
        let ghost before = r@;
        append_tok_text(&mut r, &toks[i]);
        let joint = match &toks[i] {
            Tok::Punct(_, j) => *j,
            _ => false,
        };
        if i + 1 < b && !joint {
            r.append(" ");
            assert(r@ + render_range(toks@, i + 1, b as int) =~= before + render_range(
                toks@,
                i as int,
                b as int,
            ));
        } else {
            assert(r@ + render_range(toks@, i + 1, b as int) =~= before + render_range(
                toks@,
                i as int,
                b as int,
            ));
        }
        i = i + 1;
    }
    assert(render_range(toks@, b as int, b as int) =~= Seq::<char>::empty());
    assert(r@ =~= r@ + render_range(toks@, b as int, b as int));
    r
}

/// Calls `syn::parse_str::<syn::Type>` on the text. Nothing is stated of the
/// answer: `syn` lexes through `proc-macro2`, which uses the compiler's lexer
/// inside a macro (whose behaviour depends on the caller's edition) and its own
/// lexer elsewhere, so the answer is not a function of the text alone.
#[verifier::external_body]
fn text_is_type(text: &str) -> (r: bool) {
    syn::parse_str::<syn::Type>(text).is_ok()
}

/// Calls `syn::parse_str::<syn::Path>` on the text. Nothing is stated of the
/// answer, for the reason given at [`text_is_type`].
#[verifier::external_body]
pub(crate) fn text_is_path(text: &str) -> (r: bool) {
    syn::parse_str::<syn::Path>(text).is_ok()
}

/// Calls `syn::parse_str::<syn::Expr>` on the text. Nothing is stated of the
/// answer, for the reason given at [`text_is_type`].
#[verifier::external_body]
pub(crate) fn text_is_expr(text: &str) -> (r: bool) {
    syn::parse_str::<syn::Expr>(text).is_ok()
}

/// A run of Rust tokens that a parse hands to `syn`: where it starts, and
/// what kind of Rust syntax it must be.
pub type Run = (usize, RustSyntax);

/// The error that a parse returns when `syn` refuses the run.
pub open spec fn run_error(x: Run) -> ParseError {
    tokens::perr(x.0, syntax_error(x.1))
}

/// `e` is the refusal of one of the runs.
pub open spec fn refused(e: ParseError, runs: Seq<Run>) -> bool {
    exists|i: int| 0 <= i < runs.len() && e == run_error(#[trigger] runs[i])
}

/// The outcome of a parse whose grammar, with every Rust run accepted by
/// `syn`, gives `g` after handing `runs` to `syn` in order: `g` itself, or the
/// refusal of one of those runs (the runs before it having been accepted).
/// Where no run is handed to `syn`, the outcome is exactly `g`.
pub open spec fn outcome<T>(r: Result<T, ParseError>, g: Result<T, ParseError>, runs: Seq<Run>) -> bool {
    r == g || (r matches Err(e) && refused(e, runs))
}

/// A refusal among some runs is a refusal among any runs around them.
pub broadcast proof fn lemma_refused_concat(e: ParseError, a: Seq<Run>, b: Seq<Run>)
    ensures
        (refused(e, a) || refused(e, b)) ==> #[trigger] refused(e, a + b),
{
    if refused(e, a) {
        let i = choose|i: int| 0 <= i < a.len() && e == run_error(#[trigger] a[i]);
        assert((a + b)[i] == a[i]);
    } else if refused(e, b) {
        let i = choose|i: int| 0 <= i < b.len() && e == run_error(#[trigger] b[i]);
        assert((a + b)[a.len() + i] == b[i]);
    }
}

/// No run: no refusal.
pub broadcast proof fn lemma_refused_empty(e: ParseError)
    ensures
        !#[trigger] refused(e, Seq::<Run>::empty()),
{
}

/// A parse that hands no run to `syn` gives exactly its grammar's result;
/// one that does gives it, or the refusal of one of the runs it reached.
pub proof fn lemma_outcome_without_runs<T>(r: Result<T, ParseError>, g: Result<T, ParseError>, runs: Seq<Run>)
    requires
        outcome(r, g, runs),
    ensures
        runs.len() == 0 ==> r == g,
        r != g ==> (r matches Err(e) && exists|i: int| 0 <= i < runs.len() && e == run_error(#[trigger] runs[i])),
{
}

pub broadcast group group_refused {
    lemma_refused_concat,
    lemma_refused_empty,
}

/// What ends a run of Rust tokens.
#[derive(Debug, Clone, Copy, PartialEq, Eq, Structural)]
pub enum Stop {
    /// `|` (after a table type between bars).
    Bar,
    /// The `>` that closes a `<...>` (after a driver path).
    CloseAngle,
    /// `,` (after a type).
    Comma,
    /// `,`, with `<` and `>` taken as operators (after an expression).
    ExprComma,
    /// A keyword of the `query!` grammar.
    QueryKeyword,
    /// A keyword of the `query!` grammar, or a parenthesized group after the first token.
    QueryKeywordOrArgs,
    /// The given keyword.
    Keyword(Kw),
    /// A keyword that starts a join.
    JoinKeyword,
    /// The given punctuation character.
    Char(char),
}

/// The `>` at `pos` is the second half of `->`.
pub open spec fn is_arrow_gt(s: Seq<Tok>, pos: usize) -> bool {
    pos > 0 && tokens::tok_is_joint_punct(s[pos - 1], '-')
}

pub open spec fn query_keyword(s: Seq<Tok>, pos: usize, end: usize) -> bool {
    ||| tokens::peek_kw(s, pos, end, Kw::From)
    ||| tokens::peek_kw(s, pos, end, Kw::Values)
    ||| tokens::peek_kw(s, pos, end, Kw::SetKeyword)
    ||| tokens::peek_kw(s, pos, end, Kw::Where)
    ||| tokens::peek_kw(s, pos, end, Kw::Order)
    ||| tokens::peek_kw(s, pos, end, Kw::Group)
    ||| tokens::peek_kw(s, pos, end, Kw::Having)
    ||| tokens::peek_kw(s, pos, end, Kw::Limit)
    ||| tokens::peek_kw(s, pos, end, Kw::Returning)
}

pub open spec fn join_keyword(s: Seq<Tok>, pos: usize, end: usize) -> bool {
    ||| tokens::peek_kw(s, pos, end, Kw::Inner)
    ||| tokens::peek_kw(s, pos, end, Kw::Left)
    ||| tokens::peek_kw(s, pos, end, Kw::Right)
    ||| tokens::peek_kw(s, pos, end, Kw::Cross)
}

pub open spec fn at_stop(s: Seq<Tok>, pos: usize, end: usize, start: usize, stop: Stop) -> bool {
    match stop {
        Stop::Bar => tokens::peek_p1(s, pos, end, '|'),
        Stop::CloseAngle => tokens::peek_p1(s, pos, end, '>') && !is_arrow_gt(s, pos),
        Stop::Comma => tokens::peek_p1(s, pos, end, ','),
        Stop::ExprComma => tokens::peek_p1(s, pos, end, ','),
        Stop::QueryKeyword => query_keyword(s, pos, end),
        Stop::QueryKeywordOrArgs => query_keyword(s, pos, end) || (pos > start && tokens::peek_group(
            s,
            pos,
            end,
            Delim::Paren,
        )),
        Stop::Keyword(k) => tokens::peek_kw(s, pos, end, k),
        Stop::JoinKeyword => join_keyword(s, pos, end),
        Stop::Char(c) => tokens::peek_p1(s, pos, end, c),
    }
}

/// Where the run of Rust tokens that starts at `start` ends, scanning from `pos`
/// with `depth` unclosed `<`.
pub open spec fn scan_end(s: Seq<Tok>, pos: usize, end: usize, start: usize, depth: nat, stop: Stop) -> usize
    decreases end - pos,
{
    if pos >= end {
        end
    } else if depth == 0 && at_stop(s, pos, end, start, stop) {
        pos
    } else {
        match tokens::group_close(s, pos, end) {
            Some(c) => scan_end(s, (c + 1) as usize, end, start, depth, stop),
            None => if stop != Stop::ExprComma && tokens::tok_is_punct(s[pos as int], '<') {
                scan_end(s, (pos + 1) as usize, end, start, depth + 1, stop)
            } else if stop != Stop::ExprComma && tokens::tok_is_punct(s[pos as int], '>')
                && !is_arrow_gt(s, pos) && depth > 0 {
                scan_end(s, (pos + 1) as usize, end, start, (depth - 1) as nat, stop)
            } else {
                scan_end(s, (pos + 1) as usize, end, start, depth, stop)
            },
        }
    }
}

fn query_keyword_exec(toks: &Vec<Tok>, pos: usize, end: usize) -> (r: bool)
    requires
        tokens::in_range(toks@, pos, end),
    ensures
        r == query_keyword(toks@, pos, end),
{
    tokens::exec_peek_kw(toks, pos, end, Kw::From) || tokens::exec_peek_kw(toks, pos, end, Kw::Values)
        || tokens::exec_peek_kw(toks, pos, end, Kw::SetKeyword) || tokens::exec_peek_kw(
        toks,
        pos,
        end,
        Kw::Where,
    ) || tokens::exec_peek_kw(toks, pos, end, Kw::Order) || tokens::exec_peek_kw(
        toks,
        pos,
        end,
        Kw::Group,
    ) || tokens::exec_peek_kw(toks, pos, end, Kw::Having) || tokens::exec_peek_kw(
        toks,
        pos,
        end,
        Kw::Limit,
    ) || tokens::exec_peek_kw(toks, pos, end, Kw::Returning)
}

fn is_arrow_gt_exec(toks: &Vec<Tok>, pos: usize) -> (r: bool)
    requires
        pos < toks.len(),
    ensures
        r == is_arrow_gt(toks@, pos),
{
    pos > 0 && tokens::exec_tok_is_joint_punct(&toks[pos - 1], '-')
}

fn at_stop_exec(toks: &Vec<Tok>, pos: usize, end: usize, start: usize, stop: Stop) -> (r: bool)
    requires
        tokens::in_range(toks@, pos, end),
        pos < end,
    ensures
        r == at_stop(toks@, pos, end, start, stop),
{
    match stop {
        Stop::Bar => tokens::exec_peek_p1(toks, pos, end, '|'),
        Stop::CloseAngle => tokens::exec_peek_p1(toks, pos, end, '>') && !is_arrow_gt_exec(toks, pos),
        Stop::Comma => tokens::exec_peek_p1(toks, pos, end, ','),
        Stop::ExprComma => tokens::exec_peek_p1(toks, pos, end, ','),
        Stop::QueryKeyword => query_keyword_exec(toks, pos, end),
        Stop::QueryKeywordOrArgs => query_keyword_exec(toks, pos, end) || (pos > start
            && tokens::exec_peek_group(toks, pos, end, Delim::Paren)),
        Stop::Keyword(k) => tokens::exec_peek_kw(toks, pos, end, k),
        Stop::JoinKeyword => tokens::exec_peek_kw(toks, pos, end, Kw::Inner) || tokens::exec_peek_kw(
            toks,
            pos,
            end,
            Kw::Left,
        ) || tokens::exec_peek_kw(toks, pos, end, Kw::Right) || tokens::exec_peek_kw(
            toks,
            pos,
            end,
            Kw::Cross,
        ),
        Stop::Char(c) => tokens::exec_peek_p1(toks, pos, end, c),
    }
}

/// Where the run of Rust tokens that starts at `pos` ends.
pub fn find_run_end(toks: &Vec<Tok>, pos: usize, end: usize, stop: Stop) -> (r: usize)
    requires
        tokens::in_range(toks@, pos, end),
    ensures
        r == scan_end(toks@, pos, end, pos, 0, stop),
        pos <= r <= end,
{
    let mut p = pos;
    let mut depth: usize = 0;
    while p < end
        invariant
            tokens::in_range(toks@, pos, end),
            pos <= p <= end,
            depth <= p - pos,
            scan_end(toks@, p, end, pos, depth as nat, stop) == scan_end(toks@, pos, end, pos, 0, stop),
        decreases end - p,
    {
        if depth == 0 && at_stop_exec(toks, p, end, pos, stop) {
            return p;
        }
        match tokens::exec_group_close(toks, p, end) {
            Some(c) => {
                p = c + 1;
            },
            None => {
                if stop != Stop::ExprComma && tokens::exec_tok_is_punct(&toks[p], '<') {
                    depth = depth + 1;
                } else if stop != Stop::ExprComma && tokens::exec_tok_is_punct(&toks[p], '>')
                    && !is_arrow_gt_exec(toks, p) && depth > 0 {
                    depth = depth - 1;
                }
                p = p + 1;
            },
        }
    }
    end
}

/// The token range of a Rust type, path or expression.
#[derive(Debug, Clone, Copy, PartialEq, Eq, Structural)]
pub struct Span {
    pub start: usize,
    pub end: usize,
}

/// What kind of Rust syntax a run must be.
#[derive(Debug, Clone, Copy, PartialEq, Eq, Structural)]
pub enum RustSyntax {
    Type,
    Path,
    Expr,
}

pub open spec fn syntax_error(kind: RustSyntax) -> ParseErrorKind {
    match kind {
        RustSyntax::Type => ParseErrorKind::InvalidType,
        RustSyntax::Path => ParseErrorKind::InvalidPath,
        RustSyntax::Expr => ParseErrorKind::InvalidExpr,
    }
}

/// The run of Rust syntax of `kind` that starts at `pos` and ends before `stop`.
pub open spec fn parse_rust_spec(s: Seq<Tok>, pos: usize, end: usize, kind: RustSyntax, stop: Stop) -> Result<
    (Span, usize),
    ParseError,
> {
    let k = scan_end(s, pos, end, pos, 0, stop);
    if k == pos {
        Err(tokens::perr(pos, syntax_error(kind)))
    } else {
        Ok((Span { start: pos, end: k }, k))
    }
}

/// The run that parsing Rust syntax of `kind` at `pos` hands to `syn`: none
/// when the run is empty.
pub open spec fn rust_runs(s: Seq<Tok>, pos: usize, end: usize, kind: RustSyntax, stop: Stop) -> Seq<Run> {
    if scan_end(s, pos, end, pos, 0, stop) == pos {
        Seq::empty()
    } else {
        seq![(pos, kind)]
    }
}

/// The run that parsing `{ expr }` at `pos` hands to `syn`: the inside of the
/// group, when the group is there and not empty.
pub open spec fn braced_runs(s: Seq<Tok>, pos: usize, end: usize) -> Seq<Run> {
    if !tokens::peek_group(s, pos, end, Delim::Brace) {
        Seq::empty()
    } else {
        match tokens::group_close(s, pos, end) {
            Some(c) => if c != pos + 1 {
                seq![((pos + 1) as usize, RustSyntax::Expr)]
            } else {
                Seq::empty()
            },
            None => Seq::empty(),
        }
    }
}

/// The outcome for a run of Rust tokens from `pos` to `k`, given whether `syn`
/// accepted its text as `kind`: an empty run or a refused one is an error at
/// `pos`.
pub open spec fn rust_run_spec(pos: usize, k: usize, kind: RustSyntax, syntax_ok: bool) -> Result<
    (Span, usize),
    ParseError,
> {
    if k == pos || !syntax_ok {
        Err(tokens::perr(pos, syntax_error(kind)))
    } else {
        Ok((Span { start: pos, end: k }, k))
    }
}

/// The outcome for a run of Rust tokens from `pos` to `k`, given `syn`'s answer
/// on its text.
pub fn rust_run_result(pos: usize, k: usize, kind: RustSyntax, syntax_ok: bool) -> (r: Result<
    (Span, usize),
    ParseError,
>)
    ensures
        r == rust_run_spec(pos, k, kind, syntax_ok),
{
    let err = match kind {
        RustSyntax::Type => ParseErrorKind::InvalidType,
        RustSyntax::Path => ParseErrorKind::InvalidPath,
        RustSyntax::Expr => ParseErrorKind::InvalidExpr,
    };
    if k == pos || !syntax_ok {
        Err(tokens::make_err(pos, err))
    } else {
        Ok((Span { start: pos, end: k }, k))
    }
}

/// Parses the run of Rust syntax of `kind` that starts at `pos` and ends before
/// `stop`. The result is [`rust_run_spec`] of the run's end and of `syn`'s
/// answer on its text ([`render_range`] of the run); nothing is stated of that
/// answer, so the result is the grammar's or the refusal of the run.
pub fn parse_rust(toks: &Vec<Tok>, pos: usize, end: usize, kind: RustSyntax, stop: Stop) -> (r: Result<
    (Span, usize),
    ParseError,
>)
    requires
        tokens::in_range(toks@, pos, end),
    ensures
        exists|ok: bool| r == rust_run_spec(pos, scan_end(toks@, pos, end, pos, 0, stop), kind, ok),
        outcome(r, parse_rust_spec(toks@, pos, end, kind, stop), rust_runs(toks@, pos, end, kind, stop)),
        r matches Err(e) ==> e == tokens::perr(pos, syntax_error(kind)),
        r matches Ok((_, p)) ==> pos < p <= end,
{
    let k = find_run_end(toks, pos, end, stop);
    if k == pos {
        return rust_run_result(pos, k, kind, false);
    }
    let text = render_tokens(toks, pos, k);
    let ok = match kind {
        RustSyntax::Type => text_is_type(text.as_str()),
        RustSyntax::Path => text_is_path(text.as_str()),
        RustSyntax::Expr => text_is_expr(text.as_str()),
    };
    let r = rust_run_result(pos, k, kind, ok);
    proof {
        let runs = rust_runs(toks@, pos, end, kind, stop);
        assert(runs[0] == (pos, kind));
        if !ok {
            assert(r->Err_0 == run_error(runs[0]));
        }
    }
    r
}

/// The tokens inside the braced group at `pos`, which must not be empty, as a
/// Rust expression: the
/// span inside the braces and the position after the group.
pub open spec fn parse_braced_expr_spec(s: Seq<Tok>, pos: usize, end: usize) -> Result<
    (Span, usize),
    ParseError,
> {
    if !tokens::peek_group(s, pos, end, Delim::Brace) {
        Err(tokens::perr(pos, ParseErrorKind::Unexpected))
    } else {
        match tokens::group_close(s, pos, end) {
            None => Err(tokens::perr(pos, ParseErrorKind::UnbalancedGroup)),
            Some(c) => if c == pos + 1 {
                Err(tokens::perr((pos + 1) as usize, ParseErrorKind::InvalidExpr))
            } else {
                Ok((Span { start: (pos + 1) as usize, end: c }, (c + 1) as usize))
            },
        }
    }
}

/// Parses `{ expr }` at `pos`.
pub fn parse_braced_expr(toks: &Vec<Tok>, pos: usize, end: usize) -> (r: Result<
    (Span, usize),
    ParseError,
>)
    requires
        tokens::in_range(toks@, pos, end),
    ensures
        outcome(r, parse_braced_expr_spec(toks@, pos, end), braced_runs(toks@, pos, end)),
        r matches Ok((_, p)) ==> pos < p <= end,
{
    if !tokens::exec_peek_group(toks, pos, end, Delim::Brace) {
        return Err(tokens::make_err(pos, ParseErrorKind::Unexpected));
    }
    match tokens::exec_group_close(toks, pos, end) {
        None => Err(tokens::make_err(pos, ParseErrorKind::UnbalancedGroup)),
        Some(c) => {
            if c == pos + 1 {
                return Err(tokens::make_err(pos + 1, ParseErrorKind::InvalidExpr));
            }
            let text = render_tokens(toks, pos + 1, c);
            if !text_is_expr(text.as_str()) {
                let e = tokens::make_err(pos + 1, ParseErrorKind::InvalidExpr);
                proof {
                    let runs = braced_runs(toks@, pos, end);
                    assert(runs[0] == ((pos + 1) as usize, RustSyntax::Expr));
                    assert(e == run_error(runs[0]));
                }
                return Err(e);
            }
            Ok((Span { start: pos + 1, end: c }, c + 1))
        },
    }
}

} // verus!
