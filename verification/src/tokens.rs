//! The token model that every parser of this crate reads.
//!
//! A macro input is a flat sequence of tokens. Delimited groups are written as
//! an `Open` token that records the index of its matching `Close` token, so a
//! parser can work on a half-open range `[pos, end)` of one flat vector and
//! step over or into a group in constant time.
use vstd::prelude::*;
use vstd::string::*;

verus! {

/// The delimiter of a group.
#[derive(Debug, Clone, Copy, PartialEq, Eq, Structural)]
pub enum Delim {
    Paren,
    Brace,
    Bracket,
    Invisible,
}

/// The kind of a literal token.
#[derive(Debug, Clone, Copy, PartialEq, Eq, Structural)]
pub enum LitKind {
    Str,
    ByteStr,
    CStr,
    Byte,
    Char,
    Int,
    Float,
    Other,
}

/// One token of a macro input.
#[derive(Debug, Clone, PartialEq, Eq)]
pub enum Tok {
    /// An identifier, keywords included, as written (`r#` prefix kept).
    Ident(String),
    /// A punctuation character; the flag says whether it is joined to the next one.
    Punct(char, bool),
    /// A literal: its kind and its text as written.
    Lit(LitKind, String),
    /// The opening of a group, with the index of its matching `Close`.
    Open(Delim, usize),
    /// The closing of a group.
    Close(Delim),
}

/// Where and why a parse failed.
#[derive(Debug, Clone, Copy, PartialEq, Eq, Structural)]
pub enum ParseErrorKind {
    /// The token at the position cannot start what was expected.
    Unexpected,
    /// An identifier that is not a keyword of Rust was expected.
    ExpectedIdent,
    /// An expression was expected but the input (or group) is empty.
    EmptyExpression,
    /// A path was followed neither by `.column` nor was a single identifier.
    PathWithoutColumn,
    /// A group token whose recorded closing index is not a matching `Close`.
    UnbalancedGroup,
    /// Tokens were left over inside a group.
    TrailingTokens,
    /// An integer literal that does not fit the expected integer type.
    LiteralOutOfRange,
    /// A specific keyword was expected.
    ExpectedKeyword,
    /// A specific punctuation was expected.
    ExpectedPunct,
    /// The tokens do not form a Rust type.
    InvalidType,
    /// The tokens do not form a Rust path.
    InvalidPath,
    /// The tokens do not form a Rust expression.
    InvalidExpr,
    /// The current table is neither given (`|Table|`) nor in debug mode.
    MissingTable,
    /// At least one argument count was expected.
    MissingArgCount,
}

#[derive(Debug, Clone, Copy, PartialEq, Eq, Structural)]
pub struct ParseError {
    pub pos: usize,
    pub kind: ParseErrorKind,
}

pub open spec fn perr(pos: usize, kind: ParseErrorKind) -> ParseError {
    ParseError { pos, kind }
}

pub fn make_err(pos: usize, kind: ParseErrorKind) -> (e: ParseError)
    ensures
        e == perr(pos, kind),
{
    ParseError { pos, kind }
}

/// The SQL keywords that the macros recognise; matching ignores ASCII case.
#[derive(Debug, Clone, Copy, PartialEq, Eq, Structural)]
pub enum Kw {
    And,
    Or,
    Is,
    Not,
    Null,
    Like,
    In,
    Between,
    Distinct,
    Where,
    Having,
    Group,
    Order,
    Limit,
    Join,
    Inner,
    Left,
    Right,
    Cross,
    Asc,
    Desc,
    By,
    SetKeyword,
    On,
    Select,
    From,
    Insert,
    Into,
    Values,
    Update,
    Delete,
    Exists,
    Returning,
}

pub open spec fn kw_text(k: Kw) -> Seq<char> {
    match k {
        Kw::And => "and"@,
        Kw::Or => "or"@,
        Kw::Is => "is"@,
        Kw::Not => "not"@,
        Kw::Null => "null"@,
        Kw::Like => "like"@,
        Kw::In => "in"@,
        Kw::Between => "between"@,
        Kw::Distinct => "distinct"@,
        Kw::Where => "where"@,
        Kw::Having => "having"@,
        Kw::Group => "group"@,
        Kw::Order => "order"@,
        Kw::Limit => "limit"@,
        Kw::Join => "join"@,
        Kw::Inner => "inner"@,
        Kw::Left => "left"@,
        Kw::Right => "right"@,
        Kw::Cross => "cross"@,
        Kw::Asc => "asc"@,
        Kw::Desc => "desc"@,
        Kw::By => "by"@,
        Kw::SetKeyword => "set"@,
        Kw::On => "on"@,
        Kw::Select => "select"@,
        Kw::From => "from"@,
        Kw::Insert => "insert"@,
        Kw::Into => "into"@,
        Kw::Values => "values"@,
        Kw::Update => "update"@,
        Kw::Delete => "delete"@,
        Kw::Exists => "exists"@,
        Kw::Returning => "returning"@,
    }
}

pub fn kw_str(k: Kw) -> (r: &'static str)
    ensures
        r@ == kw_text(k),
{
    match k {
        Kw::And => "and",
        Kw::Or => "or",
        Kw::Is => "is",
        Kw::Not => "not",
        Kw::Null => "null",
        Kw::Like => "like",
        Kw::In => "in",
        Kw::Between => "between",
        Kw::Distinct => "distinct",
        Kw::Where => "where",
        Kw::Having => "having",
        Kw::Group => "group",
        Kw::Order => "order",
        Kw::Limit => "limit",
        Kw::Join => "join",
        Kw::Inner => "inner",
        Kw::Left => "left",
        Kw::Right => "right",
        Kw::Cross => "cross",
        Kw::Asc => "asc",
        Kw::Desc => "desc",
        Kw::By => "by",
        Kw::SetKeyword => "set",
        Kw::On => "on",
        Kw::Select => "select",
        Kw::From => "from",
        Kw::Insert => "insert",
        Kw::Into => "into",
        Kw::Values => "values",
        Kw::Update => "update",
        Kw::Delete => "delete",
        Kw::Exists => "exists",
        Kw::Returning => "returning",
    }
}

/// `c` is `w`, or `c` is the ASCII upper-case form of `w`.
pub open spec fn char_matches_lower(c: char, w: char) -> bool {
    c == w || (65 <= (c as u32) <= 90 && (c as u32) + 32 == (w as u32))
}

/// `a` equals the lower-case word `w`, ignoring ASCII case.
pub open spec fn eq_ignore_ascii_case(a: Seq<char>, w: Seq<char>) -> bool {
    &&& a.len() == w.len()
    &&& forall|j: int| 0 <= j < a.len() ==> #[trigger] char_matches_lower(a[j], w[j])
}

pub fn char_eq_lower(c: char, w: char) -> (r: bool)
    ensures
        r == char_matches_lower(c, w),
{
    let cu = c as u32;
    let wu = w as u32;
    cu == wu || (65 <= cu && cu <= 90 && cu + 32 == wu)
}

pub fn str_eq_ignore_ascii_case(a: &str, w: &str) -> (r: bool)
    ensures
        r == eq_ignore_ascii_case(a@, w@),
{
    let n = a.unicode_len();
    let m = w.unicode_len();
    if n != m {
        return false;
    }
    let mut i: usize = 0;
    while i < n
        invariant
            n == a@.len(),
            m == w@.len(),
            n == m,
            i <= n,
            forall|j: int| 0 <= j < i ==> #[trigger] char_matches_lower(a@[j], w@[j]),
        decreases n - i,
    {
        let c = a.get_char(i);
        let d = w.get_char(i);
        if !char_eq_lower(c, d) {
            return false;
        }
        i = i + 1;
    }
    true
}

/// Exact equality of two string slices.
pub fn str_eq(a: &str, b: &str) -> (r: bool)
    ensures
        r == (a@ == b@),
{
    let n = a.unicode_len();
    let m = b.unicode_len();
    if n != m {
        return false;
    }
    let mut i: usize = 0;
    while i < n
        invariant
            n == a@.len(),
            m == b@.len(),
            n == m,
            i <= n,
            forall|j: int| 0 <= j < i ==> a@[j] == b@[j],
        decreases n - i,
    {
        if a.get_char(i) != b.get_char(i) {
            return false;
        }
        i = i + 1;
    }
    assert(a@ =~= b@);
    true
}

/// The words that Rust reserves, which are never accepted as plain identifiers.
pub open spec fn rust_keyword(x: Seq<char>) -> bool {
    ||| x == "_"@ || x == "abstract"@ || x == "as"@ || x == "async"@ || x == "await"@
    ||| x == "become"@ || x == "box"@ || x == "break"@ || x == "const"@ || x == "continue"@
    ||| x == "crate"@ || x == "do"@ || x == "dyn"@ || x == "else"@ || x == "enum"@
    ||| x == "extern"@ || x == "false"@ || x == "final"@ || x == "fn"@ || x == "for"@
    ||| x == "if"@ || x == "impl"@ || x == "in"@ || x == "let"@ || x == "loop"@
    ||| x == "macro"@ || x == "match"@ || x == "mod"@ || x == "move"@ || x == "mut"@
    ||| x == "override"@ || x == "priv"@ || x == "pub"@ || x == "ref"@ || x == "return"@
    ||| x == "Self"@ || x == "self"@ || x == "static"@ || x == "struct"@ || x == "super"@
    ||| x == "trait"@ || x == "true"@ || x == "try"@ || x == "type"@ || x == "typeof"@
    ||| x == "unsafe"@ || x == "unsized"@ || x == "use"@ || x == "virtual"@ || x == "where"@
    ||| x == "while"@ || x == "yield"@
}

pub fn is_rust_keyword(x: &str) -> (r: bool)
    ensures
        r == rust_keyword(x@),
{
    str_eq(x, "_") || str_eq(x, "abstract") || str_eq(x, "as") || str_eq(x, "async")
        || str_eq(x, "await") || str_eq(x, "become") || str_eq(x, "box") || str_eq(x, "break")
        || str_eq(x, "const") || str_eq(x, "continue") || str_eq(x, "crate") || str_eq(x, "do")
        || str_eq(x, "dyn") || str_eq(x, "else") || str_eq(x, "enum") || str_eq(x, "extern")
        || str_eq(x, "false") || str_eq(x, "final") || str_eq(x, "fn") || str_eq(x, "for")
        || str_eq(x, "if") || str_eq(x, "impl") || str_eq(x, "in") || str_eq(x, "let")
        || str_eq(x, "loop") || str_eq(x, "macro") || str_eq(x, "match") || str_eq(x, "mod")
        || str_eq(x, "move") || str_eq(x, "mut") || str_eq(x, "override") || str_eq(x, "priv")
        || str_eq(x, "pub") || str_eq(x, "ref") || str_eq(x, "return") || str_eq(x, "Self")
        || str_eq(x, "self") || str_eq(x, "static") || str_eq(x, "struct") || str_eq(x, "super")
        || str_eq(x, "trait") || str_eq(x, "true") || str_eq(x, "try") || str_eq(x, "type")
        || str_eq(x, "typeof") || str_eq(x, "unsafe") || str_eq(x, "unsized") || str_eq(x, "use")
        || str_eq(x, "virtual") || str_eq(x, "where") || str_eq(x, "while") || str_eq(x, "yield")
}

/// A range `[pos, end)` of the token sequence `s`.
pub open spec fn in_range(s: Seq<Tok>, pos: usize, end: usize) -> bool {
    pos <= end <= s.len()
}

/// The token at `pos` is the keyword `k`.
pub open spec fn peek_kw(s: Seq<Tok>, pos: usize, end: usize, k: Kw) -> bool {
    pos < end && match s[pos as int] {
        Tok::Ident(x) => eq_ignore_ascii_case(x@, kw_text(k)),
        _ => false,
    }
}

/// The token at `pos` is an identifier that Rust does not reserve.
pub open spec fn peek_ident(s: Seq<Tok>, pos: usize, end: usize) -> bool {
    pos < end && match s[pos as int] {
        Tok::Ident(x) => !rust_keyword(x@),
        _ => false,
    }
}

pub open spec fn tok_is_punct(t: Tok, c: char) -> bool {
    match t {
        Tok::Punct(d, _) => d == c,
        _ => false,
    }
}

pub open spec fn tok_is_joint_punct(t: Tok, c: char) -> bool {
    match t {
        Tok::Punct(d, j) => d == c && j,
        _ => false,
    }
}

/// The punctuation `c` at `pos` (whatever follows it).
pub open spec fn peek_p1(s: Seq<Tok>, pos: usize, end: usize, c: char) -> bool {
    pos < end && tok_is_punct(s[pos as int], c)
}

/// The joined punctuation `c1 c2` at `pos`.
pub open spec fn peek_p2(s: Seq<Tok>, pos: usize, end: usize, c1: char, c2: char) -> bool {
    pos + 1 < end && tok_is_joint_punct(s[pos as int], c1) && tok_is_punct(s[pos + 1], c2)
}

/// The joined punctuation `c1 c2 c3` at `pos`.
pub open spec fn peek_p3(s: Seq<Tok>, pos: usize, end: usize, c1: char, c2: char, c3: char) -> bool {
    pos + 2 < end && tok_is_joint_punct(s[pos as int], c1) && tok_is_joint_punct(s[pos + 1], c2)
        && tok_is_punct(s[pos + 2], c3)
}

/// The token at `pos` opens a group with delimiter `d`.
pub open spec fn peek_group(s: Seq<Tok>, pos: usize, end: usize, d: Delim) -> bool {
    pos < end && match s[pos as int] {
        Tok::Open(e, _) => e == d,
        _ => false,
    }
}

/// The index of the `Close` that matches the group opened at `pos`, when it is
/// a well-formed group inside the range.
pub open spec fn group_close(s: Seq<Tok>, pos: usize, end: usize) -> Option<usize> {
    if pos < end {
        match s[pos as int] {
            Tok::Open(d, c) => if pos < c < end && s[c as int] == Tok::Close(d) {
                Some(c)
            } else {
                None
            },
            _ => None,
        }
    } else {
        None
    }
}

/// The number of tokens of the literal that starts at `pos` (0 when none does):
/// a literal token, `true`, `false`, or `-` followed by a numeric literal.
pub open spec fn lit_len(s: Seq<Tok>, pos: usize, end: usize) -> usize {
    if pos < end {
        match s[pos as int] {
            Tok::Lit(_, _) => 1,
            Tok::Ident(x) => if x@ == "true"@ || x@ == "false"@ {
                1
            } else {
                0
            },
            Tok::Punct(c, _) => if c == '-' && pos + 1 < end && match s[pos + 1] {
                Tok::Lit(k, _) => k == LitKind::Int || k == LitKind::Float,
                _ => false,
            } {
                2
            } else {
                0
            },
            _ => 0,
        }
    } else {
        0
    }
}

pub fn exec_peek_kw(toks: &Vec<Tok>, pos: usize, end: usize, k: Kw) -> (r: bool)
    requires
        in_range(toks@, pos, end),
    ensures
        r == peek_kw(toks@, pos, end, k),
{
    if pos >= end {
        return false;
    }
    match &toks[pos] {
        Tok::Ident(x) => str_eq_ignore_ascii_case(x.as_str(), kw_str(k)),
        _ => false,
    }
}

pub fn exec_peek_ident(toks: &Vec<Tok>, pos: usize, end: usize) -> (r: bool)
    requires
        in_range(toks@, pos, end),
    ensures
        r == peek_ident(toks@, pos, end),
{
    if pos >= end {
        return false;
    }
    match &toks[pos] {
        Tok::Ident(x) => !is_rust_keyword(x.as_str()),
        _ => false,
    }
}

pub fn exec_tok_is_punct(t: &Tok, c: char) -> (r: bool)
    ensures
        r == tok_is_punct(*t, c),
{
    match t {
        Tok::Punct(d, _) => *d == c,
        _ => false,
    }
}

pub fn exec_tok_is_joint_punct(t: &Tok, c: char) -> (r: bool)
    ensures
        r == tok_is_joint_punct(*t, c),
{
    match t {
        Tok::Punct(d, j) => *d == c && *j,
        _ => false,
    }
}

pub fn exec_peek_p1(toks: &Vec<Tok>, pos: usize, end: usize, c: char) -> (r: bool)
    requires
        in_range(toks@, pos, end),
    ensures
        r == peek_p1(toks@, pos, end, c),
{
    pos < end && exec_tok_is_punct(&toks[pos], c)
}

pub fn exec_peek_p2(toks: &Vec<Tok>, pos: usize, end: usize, c1: char, c2: char) -> (r: bool)
    requires
        in_range(toks@, pos, end),
    ensures
        r == peek_p2(toks@, pos, end, c1, c2),
{
    pos < end && end - pos > 1 && exec_tok_is_joint_punct(&toks[pos], c1) && exec_tok_is_punct(
        &toks[pos + 1],
        c2,
    )
}

pub fn exec_peek_p3(toks: &Vec<Tok>, pos: usize, end: usize, c1: char, c2: char, c3: char) -> (r:
    bool)
    requires
        in_range(toks@, pos, end),
    ensures
        r == peek_p3(toks@, pos, end, c1, c2, c3),
{
    pos < end && end - pos > 2 && exec_tok_is_joint_punct(&toks[pos], c1)
        && exec_tok_is_joint_punct(&toks[pos + 1], c2) && exec_tok_is_punct(&toks[pos + 2], c3)
}

pub fn exec_peek_group(toks: &Vec<Tok>, pos: usize, end: usize, d: Delim) -> (r: bool)
    requires
        in_range(toks@, pos, end),
    ensures
        r == peek_group(toks@, pos, end, d),
{
    if pos >= end {
        return false;
    }
    match &toks[pos] {
        Tok::Open(e, _) => *e == d,
        _ => false,
    }
}

pub fn exec_group_close(toks: &Vec<Tok>, pos: usize, end: usize) -> (r: Option<usize>)
    requires
        in_range(toks@, pos, end),
    ensures
        r == group_close(toks@, pos, end),
{
    if pos >= end {
        return None;
    }
    match &toks[pos] {
        Tok::Open(d, c) => {
            let c = *c;
            if pos < c && c < end {
                match &toks[c] {
                    Tok::Close(e) => {
                        if *e == *d {
                            Some(c)
                        } else {
                            None
                        }
                    },
                    _ => None,
                }
            } else {
                None
            }
        },
        _ => None,
    }
}

pub fn exec_lit_len(toks: &Vec<Tok>, pos: usize, end: usize) -> (r: usize)
    requires
        in_range(toks@, pos, end),
    ensures
        r == lit_len(toks@, pos, end),
{
    if pos >= end {
        return 0;
    }
    match &toks[pos] {
        Tok::Lit(_, _) => 1,
        Tok::Ident(x) => {
            if str_eq(x.as_str(), "true") || str_eq(x.as_str(), "false") {
                1
            } else {
                0
            }
        },
        Tok::Punct(c, _) => {
            if *c == '-' && end - pos > 1 {
                match &toks[pos + 1] {
                    Tok::Lit(k, _) => {
                        if *k == LitKind::Int || *k == LitKind::Float {
                            2
                        } else {
                            0
                        }
                    },
                    _ => 0,
                }
            } else {
                0
            }
        },
        _ => 0,
    }
}

} // verus!
