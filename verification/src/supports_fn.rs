//! `impl_supports_fn!(Driver, Trait, 1, 2, ...)` and
//! `impl_supports_fn_any!(Driver, Trait)`: a driver declares which argument
//! counts of a SQL function it supports.
use crate::expr;
use crate::int_lit;
use crate::syntax;
use crate::syntax::Run;
use crate::syntax::{parse_rust, RustSyntax, Span, Stop};
use crate::tokens;
use crate::tokens::{exec_peek_ident, exec_peek_p1, make_err, ParseError, ParseErrorKind, Tok};
use vstd::prelude::*;

verus! {

broadcast use syntax::group_refused;

/// The input of `impl_supports_fn!`: the driver's type, the trait's name (its
/// token index), and the token index of each argument count literal.
#[derive(Debug, PartialEq, Eq)]
pub struct ImplSupportsFnInput {
    pub driver: Span,
    pub target: usize,
    pub args: Vec<usize>,
}

/// The input of `impl_supports_fn_any!`.
#[derive(Debug, Clone, Copy, PartialEq, Eq, Structural)]
pub struct ImplSupportsFnAnyInput {
    pub driver: Span,
    pub target_trait: usize,
}

/// `Type , Ident`: the type, the identifier's index and the position after it.
pub open spec fn parse_driver_trait_spec(s: Seq<Tok>, pos: usize, end: usize) -> Result<
    (Span, usize, usize),
    ParseError,
> {
    match syntax::parse_rust_spec(s, pos, end, RustSyntax::Type, Stop::Comma) {
        Err(e) => Err(e),
        Ok((d, p)) => if !tokens::peek_p1(s, p, end, ',') {
            Err(tokens::perr(p, ParseErrorKind::ExpectedPunct))
        } else if !tokens::peek_ident(s, (p + 1) as usize, end) {
            Err(tokens::perr((p + 1) as usize, ParseErrorKind::ExpectedIdent))
        } else {
            Ok((d, (p + 1) as usize, (p + 2) as usize))
        },
    }
}

/// Integer literals separated by commas until the end, a trailing comma
/// allowed; `acc` holds the positions of those read so far.
pub open spec fn parse_int_args_spec(s: Seq<Tok>, pos: usize, end: usize, acc: Seq<usize>) -> Result<
    Seq<usize>,
    ParseError,
>
    decreases end - pos,
{
    if pos >= end {
        Ok(acc)
    } else if !int_lit::int_lit_at(s, pos, end) {
        Err(tokens::perr(pos, ParseErrorKind::Unexpected))
    } else {
        let p = (pos + tokens::lit_len(s, pos, end)) as usize;
        if !expr::advances(pos, p, end) {
            Err(tokens::perr(p, ParseErrorKind::Unexpected))
        } else if p >= end {
            Ok(acc.push(pos))
        } else if tokens::peek_p1(s, p, end, ',') {
            parse_int_args_spec(s, (p + 1) as usize, end, acc.push(pos))
        } else {
            Err(tokens::perr(p, ParseErrorKind::ExpectedPunct))
        }
    }
}

/// The whole input of `impl_supports_fn!`; there must be at least one count.
pub open spec fn parse_supports_fn_spec(s: Seq<Tok>, pos: usize, end: usize) -> Result<
    (Span, usize, Seq<usize>),
    ParseError,
> {
    match parse_driver_trait_spec(s, pos, end) {
        Err(e) => Err(e),
        Ok((d, t, q)) => {
            let args = if q >= end {
                Ok(Seq::empty())
            } else if !tokens::peek_p1(s, q, end, ',') {
                Err(tokens::perr(q, ParseErrorKind::ExpectedPunct))
            } else {
                parse_int_args_spec(s, (q + 1) as usize, end, Seq::empty())
            };
            match args {
                Err(e) => Err(e),
                Ok(a) => if a.len() == 0 {
                    Err(tokens::perr(end, ParseErrorKind::MissingArgCount))
                } else {
                    Ok((d, t, a))
                },
            }
        },
    }
}

/// The whole input of `impl_supports_fn_any!`.
pub open spec fn parse_supports_fn_any_spec(s: Seq<Tok>, pos: usize, end: usize) -> Result<
    ImplSupportsFnAnyInput,
    ParseError,
> {
    match parse_driver_trait_spec(s, pos, end) {
        Err(e) => Err(e),
        Ok((d, t, q)) => if q == end {
            Ok(ImplSupportsFnAnyInput { driver: d, target_trait: t })
        } else {
            Err(tokens::perr(q, ParseErrorKind::TrailingTokens))
        },
    }
}

/// The run that parsing `Driver, Trait` hands to `syn`: the driver type. The
/// argument counts are integer literals and hand nothing to `syn`.
pub open spec fn driver_trait_runs(s: Seq<Tok>, pos: usize, end: usize) -> Seq<Run> {
    syntax::rust_runs(s, pos, end, RustSyntax::Type, Stop::Comma)
}

fn parse_driver_trait(toks: &Vec<Tok>, pos: usize, end: usize) -> (r: Result<(Span, usize, usize), ParseError>)
    requires
        tokens::in_range(toks@, pos, end),
    ensures
        syntax::outcome(r, parse_driver_trait_spec(toks@, pos, end), driver_trait_runs(toks@, pos, end)),
        r matches Ok((_, _, q)) ==> pos < q,
{
    let (d, p) = parse_rust(toks, pos, end, RustSyntax::Type, Stop::Comma)?;
    if !exec_peek_p1(toks, p, end, ',') {
        return Err(make_err(p, ParseErrorKind::ExpectedPunct));
    }
    if !exec_peek_ident(toks, p + 1, end) {
        return Err(make_err(p + 1, ParseErrorKind::ExpectedIdent));
    }
    Ok((d, p + 1, p + 2))
}

impl ImplSupportsFnInput {
    /// Parses the whole input of `impl_supports_fn!`.
    pub fn parse(toks: &Vec<Tok>, pos: usize, end: usize) -> (r: Result<ImplSupportsFnInput, ParseError>)
        requires
            tokens::in_range(toks@, pos, end),
        ensures
            r matches Ok(i) ==> parse_supports_fn_spec(toks@, pos, end) == Ok::<
                (Span, usize, Seq<usize>),
                ParseError,
            >((i.driver, i.target, i.args@)),
            r matches Err(e) ==> parse_supports_fn_spec(toks@, pos, end) == Err::<
                (Span, usize, Seq<usize>),
                ParseError,
            >(e) || syntax::refused(e, driver_trait_runs(toks@, pos, end)),
    {
        let (d, t, q) = parse_driver_trait(toks, pos, end)?;
        let mut args: Vec<usize> = Vec::new();
        if q < end {
            if !exec_peek_p1(toks, q, end, ',') {
                return Err(make_err(q, ParseErrorKind::ExpectedPunct));
            }
            let mut p = q + 1;
            while p < end
                invariant
                    tokens::in_range(toks@, p, end),
                    parse_driver_trait_spec(toks@, pos, end) == Ok::<(Span, usize, usize), ParseError>((d, t, q)),
                    q < end,
                    tokens::peek_p1(toks@, q, end, ','),
                    parse_int_args_spec(toks@, p, end, args@) == parse_int_args_spec(
                        toks@,
                        (q + 1) as usize,
                        end,
                        Seq::empty(),
                    ),
                decreases end - p,
            {
                if !int_lit::int_lit_at_exec(toks, p, end) {
                    return Err(make_err(p, ParseErrorKind::Unexpected));
                }
                let n = tokens::exec_lit_len(toks, p, end);
                let next = p + n;
                args.push(p);
                if next >= end {
                    p = end;
                } else if !exec_peek_p1(toks, next, end, ',') {
                    return Err(make_err(next, ParseErrorKind::ExpectedPunct));
                } else {
                    p = next + 1;
                }
            }
        }
        if args.len() == 0 {
            return Err(make_err(end, ParseErrorKind::MissingArgCount));
        }
        Ok(ImplSupportsFnInput { driver: d, target: t, args })
    }
}

impl ImplSupportsFnAnyInput {
    /// Parses the whole input of `impl_supports_fn_any!`.
    pub fn parse(toks: &Vec<Tok>, pos: usize, end: usize) -> (r: Result<ImplSupportsFnAnyInput, ParseError>)
        requires
            tokens::in_range(toks@, pos, end),
        ensures
            syntax::outcome(r, parse_supports_fn_any_spec(toks@, pos, end), driver_trait_runs(toks@, pos, end)),
    {
        let (d, t, q) = parse_driver_trait(toks, pos, end)?;
        if q == end {
            Ok(ImplSupportsFnAnyInput { driver: d, target_trait: t })
        } else {
            Err(make_err(q, ParseErrorKind::TrailingTokens))
        }
    }
}

} // verus!
