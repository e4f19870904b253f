//! What comes before the SQL in the macros' inputs, and the choice of driver.
//!
//! `sql!` and its relatives start with an optional `<Driver>` and then the
//! current table between bars, `|Table|`, or the word `debug_info_mode`.
//! `query!` starts with an optional `<Driver>`, then the connection expression
//! and a comma.
use crate::clauses;
use crate::clauses::MacroMode;
use crate::query;
use crate::query::QueryType;
use crate::syntax;
use crate::syntax::Run;
use crate::syntax::{parse_rust, RustSyntax, Span, Stop};
use crate::tokens;
use crate::tokens::{exec_peek_p1, make_err, ParseError, ParseErrorKind, Tok};
use vstd::prelude::*;

verus! {

broadcast use syntax::group_refused;

/// The input of `sql!`: the current table (`None` in debug mode), the explicit
/// driver, and what follows them.
#[derive(Debug, PartialEq, Eq)]
pub struct WrappedInput<T> {
    pub table: Option<Span>,
    pub driver: Option<Span>,
    pub input: T,
}

/// The input of `query!`: the explicit driver, the connection expression and the query.
#[derive(Debug, PartialEq, Eq)]
pub struct QueryInput {
    pub driver: Option<Span>,
    pub connection: Span,
    pub query: QueryType,
}

/// The token at `pos` is the identifier `name`, letter for letter.
pub open spec fn peek_named_ident(s: Seq<Tok>, pos: usize, end: usize, name: Seq<char>) -> bool {
    pos < end && pos < s.len() && match s[pos as int] {
        Tok::Ident(x) => x@ == name,
        _ => false,
    }
}

fn exec_peek_debug_mode(toks: &Vec<Tok>, pos: usize, end: usize) -> (r: bool)
    requires
        tokens::in_range(toks@, pos, end),
    ensures
        r == peek_named_ident(toks@, pos, end, "debug_info_mode"@),
{
    if pos >= end || pos >= toks.len() {
        return false;
    }
    match &toks[pos] {
        Tok::Ident(x) => tokens::str_eq(x.as_str(), "debug_info_mode"),
        _ => false,
    }
}

/// An optional `<Driver>` at `pos`: the driver's path and the position after it.
pub open spec fn parse_driver_spec(s: Seq<Tok>, pos: usize, end: usize) -> Result<
    (Option<Span>, usize),
    ParseError,
> {
    if !tokens::peek_p1(s, pos, end, '<') {
        Ok((None, pos))
    } else {
        match syntax::parse_rust_spec(s, (pos + 1) as usize, end, RustSyntax::Path, Stop::CloseAngle) {
            Err(e) => Err(e),
            Ok((d, p)) => if tokens::peek_p1(s, p, end, '>') {
                Ok((Some(d), (p + 1) as usize))
            } else {
                Err(tokens::perr(p, ParseErrorKind::ExpectedPunct))
            },
        }
    }
}

/// `debug_info_mode` (optionally followed by `|Type|`, which is ignored) gives no
/// table; otherwise `|Table|` must follow.
pub open spec fn parse_table_spec(s: Seq<Tok>, pos: usize, end: usize) -> Result<
    (Option<Span>, usize),
    ParseError,
> {
    if peek_named_ident(s, pos, end, "debug_info_mode"@) {
        if tokens::peek_p1(s, (pos + 1) as usize, end, '|') {
            match syntax::parse_rust_spec(s, (pos + 2) as usize, end, RustSyntax::Type, Stop::Bar) {
                Err(e) => Err(e),
                Ok((_, p)) => if tokens::peek_p1(s, p, end, '|') {
                    Ok((None, (p + 1) as usize))
                } else {
                    Err(tokens::perr(p, ParseErrorKind::ExpectedPunct))
                },
            }
        } else {
            Ok((None, (pos + 1) as usize))
        }
    } else if !tokens::peek_p1(s, pos, end, '|') {
        Err(tokens::perr(pos, ParseErrorKind::MissingTable))
    } else {
        match syntax::parse_rust_spec(s, (pos + 1) as usize, end, RustSyntax::Type, Stop::Bar) {
            Err(e) => Err(e),
            Ok((t, p)) => if tokens::peek_p1(s, p, end, '|') {
                Ok((Some(t), (p + 1) as usize))
            } else {
                Err(tokens::perr(p, ParseErrorKind::ExpectedPunct))
            },
        }
    }
}

/// The whole input of `sql!`.
pub open spec fn parse_wrapped_mode_spec(s: Seq<Tok>, pos: usize, end: usize) -> Result<
    WrappedInput<MacroMode>,
    ParseError,
> {
    match parse_driver_spec(s, pos, end) {
        Err(e) => Err(e),
        Ok((driver, p)) => match parse_table_spec(s, p, end) {
            Err(e) => Err(e),
            Ok((table, q)) => match clauses::parse_macro_mode_spec(s, q, end) {
                Err(e) => Err(e),
                Ok(m) => Ok(WrappedInput { table, driver, input: m }),
            },
        },
    }
}

/// The whole input of `query!`.
pub open spec fn parse_query_input_spec(s: Seq<Tok>, pos: usize, end: usize) -> Result<
    QueryInput,
    ParseError,
> {
    match parse_driver_spec(s, pos, end) {
        Err(e) => Err(e),
        Ok((driver, p)) => match syntax::parse_rust_spec(s, p, end, RustSyntax::Expr, Stop::ExprComma) {
            Err(e) => Err(e),
            Ok((connection, q)) => if !tokens::peek_p1(s, q, end, ',') {
                Err(tokens::perr(q, ParseErrorKind::ExpectedPunct))
            } else {
                match query::parse_query_type_spec(s, (q + 1) as usize, end) {
                    Err(e) => Err(e),
                    Ok(qt) => Ok(QueryInput { driver, connection, query: qt }),
                }
            },
        },
    }
}

/// The run that parsing an optional `<Driver>` hands to `syn`: the path.
pub open spec fn driver_runs(s: Seq<Tok>, pos: usize, end: usize) -> Seq<Run> {
    if !tokens::peek_p1(s, pos, end, '<') {
        Seq::empty()
    } else {
        syntax::rust_runs(s, (pos + 1) as usize, end, RustSyntax::Path, Stop::CloseAngle)
    }
}

/// The run that parsing `|Table|` or `debug_info_mode [|Type|]` hands to `syn`:
/// the type.
pub open spec fn table_runs(s: Seq<Tok>, pos: usize, end: usize) -> Seq<Run> {
    if peek_named_ident(s, pos, end, "debug_info_mode"@) {
        if tokens::peek_p1(s, (pos + 1) as usize, end, '|') {
            syntax::rust_runs(s, (pos + 2) as usize, end, RustSyntax::Type, Stop::Bar)
        } else {
            Seq::empty()
        }
    } else if !tokens::peek_p1(s, pos, end, '|') {
        Seq::empty()
    } else {
        syntax::rust_runs(s, (pos + 1) as usize, end, RustSyntax::Type, Stop::Bar)
    }
}

/// The runs that parsing the input of `sql!` hands to `syn`: the driver path,
/// the table type, then the runs of its body.
pub open spec fn wrapped_mode_runs(s: Seq<Tok>, pos: usize, end: usize) -> Seq<Run> {
    driver_runs(s, pos, end) + match parse_driver_spec(s, pos, end) {
        Err(_) => Seq::empty(),
        Ok((_, p)) => table_runs(s, p, end) + match parse_table_spec(s, p, end) {
            Err(_) => Seq::empty(),
            Ok((_, q)) => clauses::macro_mode_runs(s, q, end),
        },
    }
}

/// The runs that parsing the input of `query!` hands to `syn`: the driver
/// path, the connection expression, then the query's runs.
pub open spec fn query_input_runs(s: Seq<Tok>, pos: usize, end: usize) -> Seq<Run> {
    driver_runs(s, pos, end) + match parse_driver_spec(s, pos, end) {
        Err(_) => Seq::empty(),
        Ok((_, p)) => syntax::rust_runs(s, p, end, RustSyntax::Expr, Stop::ExprComma) + match syntax::parse_rust_spec(
            s,
            p,
            end,
            RustSyntax::Expr,
            Stop::ExprComma,
        ) {
            Err(_) => Seq::empty(),
            Ok((_, q)) => if !tokens::peek_p1(s, q, end, ',') {
                Seq::empty()
            } else {
                query::query_type_runs(s, (q + 1) as usize, end)
            },
        },
    }
}

/// Parses an optional `<Driver>` at `pos`.
pub fn parse_driver(toks: &Vec<Tok>, pos: usize, end: usize) -> (r: Result<(Option<Span>, usize), ParseError>)
    requires
        tokens::in_range(toks@, pos, end),
    ensures
        syntax::outcome(r, parse_driver_spec(toks@, pos, end), driver_runs(toks@, pos, end)),
        r matches Ok((_, p)) ==> pos <= p <= end,
{
    if !exec_peek_p1(toks, pos, end, '<') {
        return Ok((None, pos));
    }
    let (d, p) = parse_rust(toks, pos + 1, end, RustSyntax::Path, Stop::CloseAngle)?;
    if exec_peek_p1(toks, p, end, '>') {
        Ok((Some(d), p + 1))
    } else {
        Err(make_err(p, ParseErrorKind::ExpectedPunct))
    }
}

/// Parses `debug_info_mode [|Type|]` or `|Table|` at `pos`.
pub fn parse_table(toks: &Vec<Tok>, pos: usize, end: usize) -> (r: Result<(Option<Span>, usize), ParseError>)
    requires
        tokens::in_range(toks@, pos, end),
    ensures
        syntax::outcome(r, parse_table_spec(toks@, pos, end), table_runs(toks@, pos, end)),
        r matches Ok((_, p)) ==> pos <= p <= end,
{
    if exec_peek_debug_mode(toks, pos, end) {
        if exec_peek_p1(toks, pos + 1, end, '|') {
            let (_, p) = parse_rust(toks, pos + 2, end, RustSyntax::Type, Stop::Bar)?;
            if exec_peek_p1(toks, p, end, '|') {
                Ok((None, p + 1))
            } else {
                Err(make_err(p, ParseErrorKind::ExpectedPunct))
            }
        } else {
            Ok((None, pos + 1))
        }
    } else if !exec_peek_p1(toks, pos, end, '|') {
        Err(make_err(pos, ParseErrorKind::MissingTable))
    } else {
        let (t, p) = parse_rust(toks, pos + 1, end, RustSyntax::Type, Stop::Bar)?;
        if exec_peek_p1(toks, p, end, '|') {
            Ok((Some(t), p + 1))
        } else {
            Err(make_err(p, ParseErrorKind::ExpectedPunct))
        }
    }
}

impl WrappedInput<MacroMode> {
    /// Parses the whole input of `sql!`.
    pub fn parse(toks: &Vec<Tok>, pos: usize, end: usize) -> (r: Result<WrappedInput<MacroMode>, ParseError>)
        requires
            tokens::in_range(toks@, pos, end),
        ensures
            syntax::outcome(r, parse_wrapped_mode_spec(toks@, pos, end), wrapped_mode_runs(toks@, pos, end)),
    {
        let (driver, p) = parse_driver(toks, pos, end)?;
        let (table, q) = parse_table(toks, p, end)?;
        let m = MacroMode::parse(toks, q, end)?;
        Ok(WrappedInput { table, driver, input: m })
    }
}

impl QueryInput {
    /// Parses the whole input of `query!`.
    pub fn parse(toks: &Vec<Tok>, pos: usize, end: usize) -> (r: Result<QueryInput, ParseError>)
        requires
            tokens::in_range(toks@, pos, end),
        ensures
            syntax::outcome(r, parse_query_input_spec(toks@, pos, end), query_input_runs(toks@, pos, end)),
    {
        let (driver, p) = parse_driver(toks, pos, end)?;
        let (connection, q) = parse_rust(toks, p, end, RustSyntax::Expr, Stop::ExprComma)?;
        if !exec_peek_p1(toks, q, end, ',') {
            return Err(make_err(q, ParseErrorKind::ExpectedPunct));
        }
        let qt = QueryType::parse(toks, q + 1, end)?;
        Ok(QueryInput { driver, connection, query: qt })
    }
}

/// Why no driver could be chosen.
#[derive(Debug, Clone, Copy, PartialEq, Eq, Structural)]
pub enum DriverError {
    /// No driver was given and the build configuration names none.
    NoDefaultDrivers,
    /// No driver was given and the build configuration names several; `sql!` needs one.
    MultipleDefaultDrivers,
    /// The default driver at this index of the configuration is not a valid path.
    InvalidDriverName(usize),
    /// An explicit list of drivers was given, but it is empty.
    EmptyDriverList,
}

/// The driver of `sql!`: the one written in the input, or the only default one.
#[derive(Debug, PartialEq, Eq)]
pub enum SqlDriver {
    Explicit(Span),
    Default(String),
}

/// The drivers handed to the code generators of `query!`.
#[derive(Debug, PartialEq, Eq)]
pub enum ProvidedDrivers {
    /// The driver written in the input.
    Single(Span),
    /// The default drivers, chosen at run time through the connection.
    MultipleWithConn { drivers: Vec<String>, conn: Span },
}

impl ProvidedDrivers {
    /// The driver when there is exactly one written in the input.
    pub fn single_driver(&self) -> (r: Option<Span>)
        ensures
            r == match *self {
                ProvidedDrivers::Single(d) => Some(d),
                ProvidedDrivers::MultipleWithConn { .. } => None::<Span>,
            },
    {
        match self {
            ProvidedDrivers::Single(d) => Some(*d),
            ProvidedDrivers::MultipleWithConn { .. } => None,
        }
    }
}

/// Calls `syn::parse_str::<proc_macro2::TokenStream>` on the text. Nothing is
/// stated of the answer: `proc-macro2` lexes with the compiler's lexer inside a
/// macro (whose behaviour depends on the caller's edition) and with its own
/// lexer elsewhere, so the answer is not a function of the text alone.
#[verifier::external_body]
fn text_lexes(text: &str) -> (r: bool) {
    syn::parse_str::<proc_macro2::TokenStream>(text).is_ok()
}

/// The driver of `sql!`, given whether the only default driver's name is a
/// valid path (`first_is_path`, asked only when it matters). An explicit driver
/// wins; otherwise the configuration must name exactly one default driver, and
/// it must be a valid path.
pub fn choose_sql_driver(explicit: Option<Span>, defaults: &Vec<String>, first_is_path: bool) -> (r: Result<
    SqlDriver,
    DriverError,
>)
    ensures
        explicit matches Some(d) ==> r == Ok::<SqlDriver, DriverError>(SqlDriver::Explicit(d)),
        explicit is None && defaults.len() == 0 ==> r == Err::<SqlDriver, DriverError>(
            DriverError::NoDefaultDrivers,
        ),
        explicit is None && defaults.len() > 1 ==> r == Err::<SqlDriver, DriverError>(
            DriverError::MultipleDefaultDrivers,
        ),
        explicit is None && defaults.len() == 1 ==> {
            &&& first_is_path ==> (r matches Ok(SqlDriver::Default(x)) && x@ == defaults@[0]@)
            &&& !first_is_path ==> r == Err::<SqlDriver, DriverError>(DriverError::InvalidDriverName(0))
        },
{
    match explicit {
        Some(d) => Ok(SqlDriver::Explicit(d)),
        None => {
            if defaults.len() == 0 {
                Err(DriverError::NoDefaultDrivers)
            } else if defaults.len() > 1 {
                Err(DriverError::MultipleDefaultDrivers)
            } else if first_is_path {
                Ok(SqlDriver::Default(defaults[0].clone()))
            } else {
                Err(DriverError::InvalidDriverName(0))
            }
        },
    }
}

/// The driver of `sql!`: asks `syn` whether the only default driver's name is a
/// path, then chooses as [`choose_sql_driver`] does.
pub fn sql_driver(explicit: Option<Span>, defaults: &Vec<String>) -> (r: Result<SqlDriver, DriverError>)
    ensures
        explicit matches Some(d) ==> r == Ok::<SqlDriver, DriverError>(SqlDriver::Explicit(d)),
        explicit is None && defaults.len() == 0 ==> r == Err::<SqlDriver, DriverError>(
            DriverError::NoDefaultDrivers,
        ),
        explicit is None && defaults.len() > 1 ==> r == Err::<SqlDriver, DriverError>(
            DriverError::MultipleDefaultDrivers,
        ),
        explicit is None && defaults.len() == 1 ==> (r matches Ok(SqlDriver::Default(x)) && x@ == defaults@[0]@)
            || r == Err::<SqlDriver, DriverError>(DriverError::InvalidDriverName(0)),
{
    let first_is_path = explicit.is_none() && defaults.len() == 1 && syntax::text_is_path(defaults[0].as_str());
    choose_sql_driver(explicit, defaults, first_is_path)
}

/// The drivers of `query!`, given for each default driver whether its name
/// lexes (`lexed`). An explicit driver is used alone; otherwise every default
/// driver, in order, each of which must lex. The error names the first one that
/// does not.
pub fn choose_query_drivers(explicit: Option<Span>, defaults: &Vec<String>, lexed: &Vec<bool>, conn: Span) -> (r:
    Result<ProvidedDrivers, DriverError>)
    requires
        lexed.len() == defaults.len(),
    ensures
        explicit matches Some(d) ==> r == Ok::<ProvidedDrivers, DriverError>(ProvidedDrivers::Single(d)),
        explicit is None ==> (r is Ok <==> forall|i: int| 0 <= i < defaults.len() ==> #[trigger] lexed@[i]),
        explicit is None ==> (r matches Ok(ProvidedDrivers::MultipleWithConn { drivers, conn: c }) ==> {
            &&& c == conn
            &&& drivers.len() == defaults.len()
            &&& forall|i: int| 0 <= i < defaults.len() ==> #[trigger] drivers@[i]@ == defaults@[i]@
        }),
        explicit is None ==> (r matches Ok(p) ==> p is MultipleWithConn),
        explicit is None ==> (r matches Err(e) ==> e matches DriverError::InvalidDriverName(i) && i
            < defaults.len() && !lexed@[i as int] && forall|j: int| 0 <= j < i ==> #[trigger] lexed@[j]),
{
    match explicit {
        Some(d) => Ok(ProvidedDrivers::Single(d)),
        None => {
            let mut drivers: Vec<String> = Vec::new();
            let mut i: usize = 0;
            while i < defaults.len()
                invariant
                    explicit is None,
                    lexed.len() == defaults.len(),
                    i <= defaults.len(),
                    drivers.len() == i,
                    forall|j: int| 0 <= j < i ==> #[trigger] drivers@[j]@ == defaults@[j]@,
                    forall|j: int| 0 <= j < i ==> #[trigger] lexed@[j],
                decreases defaults.len() - i,
            {
                if !lexed[i] {
                    return Err(DriverError::InvalidDriverName(i));
                }
                drivers.push(defaults[i].clone());
                i = i + 1;
            }
            Ok(ProvidedDrivers::MultipleWithConn { drivers, conn })
        },
    }
}

/// The drivers of `query!`: asks `syn` whether each default driver's name
/// lexes, then chooses as [`choose_query_drivers`] does.
pub fn query_drivers(explicit: Option<Span>, defaults: &Vec<String>, conn: Span) -> (r: Result<
    ProvidedDrivers,
    DriverError,
>)
    ensures
        explicit matches Some(d) ==> r == Ok::<ProvidedDrivers, DriverError>(ProvidedDrivers::Single(d)),
        explicit is None ==> (r matches Ok(ProvidedDrivers::MultipleWithConn { drivers, conn: c }) ==> {
            &&& c == conn
            &&& drivers.len() == defaults.len()
            &&& forall|i: int| 0 <= i < defaults.len() ==> #[trigger] drivers@[i]@ == defaults@[i]@
        }),
        explicit is None ==> (r matches Ok(p) ==> p is MultipleWithConn),
        explicit is None ==> (r matches Err(e) ==> e matches DriverError::InvalidDriverName(i) && i < defaults.len()),
{
    if let Some(d) = explicit {
        return Ok(ProvidedDrivers::Single(d));
    }
    let mut lexed: Vec<bool> = Vec::new();
    let mut i: usize = 0;
    while i < defaults.len()
        invariant
            i <= defaults.len(),
            lexed.len() == i,
        decreases defaults.len() - i,
    {
        lexed.push(text_lexes(defaults[i].as_str()));
        i = i + 1;
    }
    choose_query_drivers(explicit, defaults, &lexed, conn)
}

} // verus!
