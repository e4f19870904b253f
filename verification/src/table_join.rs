//! The `table_join!` macro: `[Drivers,..] Name | MainTable JOIN...`.
//!
//! Each join names a table by its path; `INNER`, `LEFT` and `RIGHT` joins take a
//! condition after `ON`, a `CROSS` join takes the bare word `ON`. The joined
//! struct gets every table, each either as it is or as an `Option` of it.
use crate::expr;
use crate::expr::Expr;
use crate::generated::{Bind, Check};
use crate::macro_input::DriverError;
use crate::runtime_expr;
use crate::runtime_expr::RtExpr;
use crate::syntax;
use crate::syntax::Run;
use crate::syntax::{parse_rust, RustSyntax, Span, Stop};
use crate::tokens;
use crate::tokens::{exec_group_close, exec_peek_group, exec_peek_ident, exec_peek_kw, exec_peek_p1, make_err, Delim, Kw, ParseError, ParseErrorKind, Tok};
use vstd::prelude::*;
use vstd::seq_lib::*;

verus! {

broadcast use syntax::group_refused;

/// One join: the joined table's path and, except for a cross join, its condition.
#[derive(Debug, PartialEq, Eq)]
pub enum Join {
    Inner { table: Span, on: Expr },
    Left { table: Span, on: Expr },
    Right { table: Span, on: Expr },
    Cross { table: Span },
}

/// The input of `table_join!`.
#[derive(Debug, PartialEq, Eq)]
pub struct TableJoinInput {
    /// The drivers in `[...]`, when the list is written.
    pub drivers: Option<Vec<Span>>,
    /// The token index of the new struct's name.
    pub struct_name: usize,
    pub main_table: Span,
    pub joins: Vec<Join>,
}

pub open spec fn join_table(j: Join) -> Span {
    match j {
        Join::Inner { table, .. } => table,
        Join::Left { table, .. } => table,
        Join::Right { table, .. } => table,
        Join::Cross { table } => table,
    }
}

pub open spec fn join_keyword_at(s: Seq<Tok>, pos: usize, end: usize) -> bool {
    syntax::join_keyword(s, pos, end)
}

/// One join at `pos` and the position after it.
pub open spec fn parse_join_spec(s: Seq<Tok>, pos: usize, end: usize) -> Result<(Join, usize), ParseError> {
    let p1 = (pos + 1) as usize;
    let p2 = (pos + 2) as usize;
    if !join_keyword_at(s, pos, end) {
        Err(tokens::perr(pos, ParseErrorKind::Unexpected))
    } else if !tokens::peek_kw(s, p1, end, Kw::Join) {
        Err(tokens::perr(p1, ParseErrorKind::ExpectedKeyword))
    } else {
        match syntax::parse_rust_spec(s, p2, end, RustSyntax::Path, Stop::Keyword(Kw::On)) {
            Err(e) => Err(e),
            Ok((table, p)) => if !tokens::peek_kw(s, p, end, Kw::On) {
                Err(tokens::perr(p, ParseErrorKind::ExpectedKeyword))
            } else if tokens::peek_kw(s, pos, end, Kw::Cross) {
                Ok((Join::Cross { table }, (p + 1) as usize))
            } else {
                match expr::parse_expr_spec(s, (p + 1) as usize, end) {
                    Err(e) => Err(e),
                    Ok((on, q)) => if tokens::peek_kw(s, pos, end, Kw::Inner) {
                        Ok((Join::Inner { table, on }, q))
                    } else if tokens::peek_kw(s, pos, end, Kw::Left) {
                        Ok((Join::Left { table, on }, q))
                    } else {
                        Ok((Join::Right { table, on }, q))
                    },
                }
            },
        }
    }
}

/// Joins until the end of the range, after the joins `acc` read so far.
pub open spec fn parse_joins_spec(s: Seq<Tok>, pos: usize, end: usize, acc: Seq<Join>) -> Result<
    Seq<Join>,
    ParseError,
>
    decreases end - pos,
{
    if pos >= end {
        Ok(acc)
    } else {
        match parse_join_spec(s, pos, end) {
            Err(e) => Err(e),
            Ok((j, p)) => if !expr::advances(pos, p, end) {
                Err(tokens::perr(p, ParseErrorKind::Unexpected))
            } else {
                parse_joins_spec(s, p, end, acc.push(j))
            },
        }
    }
}

/// Paths separated by commas filling the range; a trailing comma is allowed.
pub open spec fn parse_path_list_spec(s: Seq<Tok>, pos: usize, end: usize, acc: Seq<Span>) -> Result<
    Seq<Span>,
    ParseError,
>
    decreases end - pos,
{
    if pos >= end {
        Ok(acc)
    } else {
        match syntax::parse_rust_spec(s, pos, end, RustSyntax::Path, Stop::Comma) {
            Err(e) => Err(e),
            Ok((d, p)) => if p >= end {
                Ok(acc.push(d))
            } else if pos < p && tokens::peek_p1(s, p, end, ',') {
                parse_path_list_spec(s, (p + 1) as usize, end, acc.push(d))
            } else {
                Err(tokens::perr(p, ParseErrorKind::Unexpected))
            },
        }
    }
}

/// The input as views: the driver list, the name, the main table, and the joins.
pub open spec fn parse_input_spec(s: Seq<Tok>, pos: usize, end: usize) -> Result<
    (Option<Seq<Span>>, usize, Span, Seq<Join>),
    ParseError,
> {
    let drivers = if tokens::peek_group(s, pos, end, Delim::Bracket) {
        match tokens::group_close(s, pos, end) {
            None => Err(tokens::perr(pos, ParseErrorKind::UnbalancedGroup)),
            Some(c) => match parse_path_list_spec(s, (pos + 1) as usize, c, Seq::empty()) {
                Err(e) => Err(e),
                Ok(l) => Ok((Some(l), (c + 1) as usize)),
            },
        }
    } else {
        Ok((None, pos))
    };
    match drivers {
        Err(e) => Err(e),
        Ok((d, p)) => if !tokens::peek_ident(s, p, end) {
            Err(tokens::perr(p, ParseErrorKind::ExpectedIdent))
        } else if !tokens::peek_p1(s, (p + 1) as usize, end, '|') {
            Err(tokens::perr((p + 1) as usize, ParseErrorKind::ExpectedPunct))
        } else {
            match syntax::parse_rust_spec(s, (p + 2) as usize, end, RustSyntax::Path, Stop::JoinKeyword) {
                Err(e) => Err(e),
                Ok((main, q)) => match parse_joins_spec(s, q, end, Seq::empty()) {
                    Err(e) => Err(e),
                    Ok(joins) => Ok((d, p, main, joins)),
                },
            }
        },
    }
}

/// The run that parsing one join hands to `syn`: the joined table's path.
pub open spec fn join_runs(s: Seq<Tok>, pos: usize, end: usize) -> Seq<Run> {
    if !join_keyword_at(s, pos, end) || !tokens::peek_kw(s, (pos + 1) as usize, end, Kw::Join) {
        Seq::empty()
    } else {
        syntax::rust_runs(s, (pos + 2) as usize, end, RustSyntax::Path, Stop::Keyword(Kw::On))
    }
}

/// The runs that parsing joins from `pos` hands to `syn`, in order.
pub open spec fn joins_runs(s: Seq<Tok>, pos: usize, end: usize, acc: Seq<Join>) -> Seq<Run>
    decreases end - pos,
{
    if pos >= end {
        Seq::empty()
    } else {
        join_runs(s, pos, end) + match parse_join_spec(s, pos, end) {
            Err(_) => Seq::empty(),
            Ok((j, p)) => if !expr::advances(pos, p, end) {
                Seq::empty()
            } else {
                joins_runs(s, p, end, acc.push(j))
            },
        }
    }
}

/// The runs that parsing paths separated by commas hands to `syn`: each path.
pub open spec fn path_list_runs(s: Seq<Tok>, pos: usize, end: usize, acc: Seq<Span>) -> Seq<Run>
    decreases end - pos,
{
    if pos >= end {
        Seq::empty()
    } else {
        syntax::rust_runs(s, pos, end, RustSyntax::Path, Stop::Comma) + match syntax::parse_rust_spec(
            s,
            pos,
            end,
            RustSyntax::Path,
            Stop::Comma,
        ) {
            Err(_) => Seq::empty(),
            Ok((d, p)) => if p < end && pos < p && tokens::peek_p1(s, p, end, ',') {
                path_list_runs(s, (p + 1) as usize, end, acc.push(d))
            } else {
                Seq::empty()
            },
        }
    }
}

/// The runs that parsing the input of `table_join!` hands to `syn`: the
/// driver paths, the main table's path, then the joins' runs.
pub open spec fn input_runs(s: Seq<Tok>, pos: usize, end: usize) -> Seq<Run> {
    let drivers = if tokens::peek_group(s, pos, end, Delim::Bracket) {
        match tokens::group_close(s, pos, end) {
            None => Err(tokens::perr(pos, ParseErrorKind::UnbalancedGroup)),
            Some(c) => match parse_path_list_spec(s, (pos + 1) as usize, c, Seq::empty()) {
                Err(e) => Err(e),
                Ok(l) => Ok((Some(l), (c + 1) as usize)),
            },
        }
    } else {
        Ok((None, pos))
    };
    let driver_runs = if tokens::peek_group(s, pos, end, Delim::Bracket) {
        match tokens::group_close(s, pos, end) {
            None => Seq::empty(),
            Some(c) => path_list_runs(s, (pos + 1) as usize, c, Seq::empty()),
        }
    } else {
        Seq::empty()
    };
    driver_runs + match drivers {
        Err(_) => Seq::empty(),
        Ok((_, p)) => if !tokens::peek_ident(s, p, end) || !tokens::peek_p1(s, (p + 1) as usize, end, '|') {
            Seq::empty()
        } else {
            syntax::rust_runs(s, (p + 2) as usize, end, RustSyntax::Path, Stop::JoinKeyword) + match syntax::parse_rust_spec(
                s,
                (p + 2) as usize,
                end,
                RustSyntax::Path,
                Stop::JoinKeyword,
            ) {
                Err(_) => Seq::empty(),
                Ok((_, q)) => joins_runs(s, q, end, Seq::empty()),
            }
        },
    }
}

impl Join {
    /// Parses one join at `pos`.
    pub fn parse(toks: &Vec<Tok>, pos: usize, end: usize) -> (r: Result<(Join, usize), ParseError>)
        requires
            tokens::in_range(toks@, pos, end),
        ensures
            syntax::outcome(r, parse_join_spec(toks@, pos, end), join_runs(toks@, pos, end)),
    {
        let is_inner = exec_peek_kw(toks, pos, end, Kw::Inner);
        let is_left = exec_peek_kw(toks, pos, end, Kw::Left);
        let is_right = exec_peek_kw(toks, pos, end, Kw::Right);
        let is_cross = exec_peek_kw(toks, pos, end, Kw::Cross);
        if !(is_inner || is_left || is_right || is_cross) {
            return Err(make_err(pos, ParseErrorKind::Unexpected));
        }
        if !exec_peek_kw(toks, pos + 1, end, Kw::Join) {
            return Err(make_err(pos + 1, ParseErrorKind::ExpectedKeyword));
        }
        let (table, p) = parse_rust(toks, pos + 2, end, RustSyntax::Path, Stop::Keyword(Kw::On))?;
        if !exec_peek_kw(toks, p, end, Kw::On) {
            return Err(make_err(p, ParseErrorKind::ExpectedKeyword));
        }
        if is_cross {
            return Ok((Join::Cross { table }, p + 1));
        }
        let (on, q) = Expr::parse(toks, p + 1, end)?;
        if is_inner {
            Ok((Join::Inner { table, on }, q))
        } else if is_left {
            Ok((Join::Left { table, on }, q))
        } else {
            Ok((Join::Right { table, on }, q))
        }
    }
}

/// Parses joins until the end of the range.
pub fn parse_joins(toks: &Vec<Tok>, pos: usize, end: usize) -> (r: Result<Vec<Join>, ParseError>)
    requires
        tokens::in_range(toks@, pos, end),
    ensures
        r matches Ok(v) ==> parse_joins_spec(toks@, pos, end, Seq::empty()) == Ok::<Seq<Join>, ParseError>(v@),
        r matches Err(e) ==> parse_joins_spec(toks@, pos, end, Seq::empty()) == Err::<Seq<Join>, ParseError>(e)
            || syntax::refused(e, joins_runs(toks@, pos, end, Seq::empty())),
{
    let mut joins: Vec<Join> = Vec::new();
    let mut p = pos;
    let ghost seen: Seq<Run> = Seq::empty();
    assert(joins_runs(toks@, pos, end, joins@) =~= seen + joins_runs(toks@, p, end, joins@));
    while p < end
        invariant
            tokens::in_range(toks@, p, end),
            parse_joins_spec(toks@, p, end, joins@) == parse_joins_spec(toks@, pos, end, Seq::empty()),
            joins_runs(toks@, pos, end, Seq::empty()) == seen + joins_runs(toks@, p, end, joins@),
        decreases end - p,
    {
        let ghost jr = join_runs(toks@, p, end);
        let ghost rest = joins_runs(toks@, p, end, joins@);
        let (j, q) = match Join::parse(toks, p, end) {
            Err(e) => {
                proof {
                    if syntax::refused(e, jr) {
                        assert(syntax::refused(e, rest));
                        assert(syntax::refused(e, seen + rest));
                    }
                }
                return Err(e);
            },
            Ok(x) => x,
        };
        if !(p < q && q <= end) {
            return Err(make_err(q, ParseErrorKind::Unexpected));
        }
        proof {
            seen = seen + jr;
        }
        joins.push(j);
        p = q;
    }
    Ok(joins)
}

/// Parses paths separated by commas that fill `[pos, end)`.
pub fn parse_path_list(toks: &Vec<Tok>, pos: usize, end: usize) -> (r: Result<Vec<Span>, ParseError>)
    requires
        tokens::in_range(toks@, pos, end),
    ensures
        r matches Ok(v) ==> parse_path_list_spec(toks@, pos, end, Seq::empty()) == Ok::<Seq<Span>, ParseError>(v@),
        r matches Err(e) ==> parse_path_list_spec(toks@, pos, end, Seq::empty()) == Err::<Seq<Span>, ParseError>(e)
            || syntax::refused(e, path_list_runs(toks@, pos, end, Seq::empty())),
{
    let mut paths: Vec<Span> = Vec::new();
    let mut p = pos;
    let ghost seen: Seq<Run> = Seq::empty();
    assert(path_list_runs(toks@, pos, end, paths@) =~= seen + path_list_runs(toks@, p, end, paths@));
    while p < end
        invariant
            tokens::in_range(toks@, p, end),
            parse_path_list_spec(toks@, p, end, paths@) == parse_path_list_spec(toks@, pos, end, Seq::empty()),
            path_list_runs(toks@, pos, end, Seq::empty()) == seen + path_list_runs(toks@, p, end, paths@),
        decreases end - p,
    {
        let ghost pr = syntax::rust_runs(toks@, p, end, RustSyntax::Path, Stop::Comma);
        let ghost rest = path_list_runs(toks@, p, end, paths@);
        let (d, q) = match parse_rust(toks, p, end, RustSyntax::Path, Stop::Comma) {
            Err(e) => {
                proof {
                    if syntax::refused(e, pr) {
                        assert(syntax::refused(e, rest));
                        assert(syntax::refused(e, seen + rest));
                    }
                }
                return Err(e);
            },
            Ok(x) => x,
        };
        proof {
            seen = seen + pr;
        }
        if q >= end {
            paths.push(d);
            return Ok(paths);
        } else if exec_peek_p1(toks, q, end, ',') {
            paths.push(d);
            p = q + 1;
        } else {
            return Err(make_err(q, ParseErrorKind::Unexpected));
        }
    }
    Ok(paths)
}

impl TableJoinInput {
    /// Parses the whole input of `table_join!`.
    pub fn parse(toks: &Vec<Tok>, pos: usize, end: usize) -> (r: Result<TableJoinInput, ParseError>)
        requires
            tokens::in_range(toks@, pos, end),
        ensures
            r matches Ok(i) ==> parse_input_spec(toks@, pos, end) == Ok::<
                (Option<Seq<Span>>, usize, Span, Seq<Join>),
                ParseError,
            >((
                match i.drivers {
                    Some(d) => Some(d@),
                    None => None,
                },
                i.struct_name,
                i.main_table,
                i.joins@,
            )),
            r matches Err(e) ==> parse_input_spec(toks@, pos, end) == Err::<
                (Option<Seq<Span>>, usize, Span, Seq<Join>),
                ParseError,
            >(e) || syntax::refused(e, input_runs(toks@, pos, end)),
    {
        let mut p = pos;
        let mut drivers: Option<Vec<Span>> = None;
        if exec_peek_group(toks, pos, end, Delim::Bracket) {
            match exec_group_close(toks, pos, end) {
                None => {
                    return Err(make_err(pos, ParseErrorKind::UnbalancedGroup));
                },
                Some(c) => {
                    let l = parse_path_list(toks, pos + 1, c)?;
                    drivers = Some(l);
                    p = c + 1;
                },
            }
        }
        if !exec_peek_ident(toks, p, end) {
            return Err(make_err(p, ParseErrorKind::ExpectedIdent));
        }
        if !exec_peek_p1(toks, p + 1, end, '|') {
            return Err(make_err(p + 1, ParseErrorKind::ExpectedPunct));
        }
        let (main_table, q) = parse_rust(toks, p + 2, end, RustSyntax::Path, Stop::JoinKeyword)?;
        let joins = parse_joins(toks, q, end)?;
        Ok(TableJoinInput { drivers, struct_name: p, main_table, joins })
    }
}

/// After one more join, the tables that are always present and those that may be
/// missing. A right join makes every table before it optional.
pub open spec fn classify_step(acc: (Seq<Span>, Seq<Span>), j: Join) -> (Seq<Span>, Seq<Span>) {
    match j {
        Join::Inner { table, .. } => (acc.0.push(table), acc.1),
        Join::Cross { table } => (acc.0.push(table), acc.1),
        Join::Left { table, .. } => (acc.0, acc.1.push(table)),
        Join::Right { table, .. } => (seq![table], acc.1 + acc.0),
    }
}

/// The tables that are always present and those that may be missing, after the joins.
pub open spec fn classify(main: Span, joins: Seq<Join>) -> (Seq<Span>, Seq<Span>)
    decreases joins.len(),
{
    if joins.len() == 0 {
        (seq![main], Seq::empty())
    } else {
        classify_step(classify(main, joins.drop_last()), joins.last())
    }
}

/// The joined tables, in order.
pub open spec fn join_tables(joins: Seq<Join>) -> Seq<Span> {
    joins.map_values(|j: Join| join_table(j))
}

/// The tables that are always present and those that may be missing.
pub fn joined_tables(main: Span, joins: &Vec<Join>) -> (r: (Vec<Span>, Vec<Span>))
    ensures
        (r.0@, r.1@) == classify(main, joins@),
{
    let mut not_optional: Vec<Span> = Vec::new();
    not_optional.push(main);
    let mut optional: Vec<Span> = Vec::new();
    let mut i: usize = 0;
    while i < joins.len()
        invariant
            i <= joins.len(),
            (not_optional@, optional@) == classify(main, joins@.take(i as int)),
        decreases joins.len() - i,
    {
        assert(joins@.take(i + 1).drop_last() =~= joins@.take(i as int));
        match &joins[i] {
            Join::Inner { table, .. } => not_optional.push(*table),
            Join::Cross { table } => not_optional.push(*table),
            Join::Left { table, .. } => optional.push(*table),
            Join::Right { table, .. } => {
                optional.append(&mut not_optional);
                not_optional.push(*table);
            },
        }
        i = i + 1;
    }
    assert(joins@.take(joins.len() as int) =~= joins@);
    (not_optional, optional)
}

/// Every table of the joined struct, the main one and each joined one, is either
/// always present or optional, and none is both or neither: the two lists
/// together hold each table as often as the input names it.
pub proof fn lemma_joined_tables_partition(main: Span, joins: Seq<Join>)
    ensures
        (classify(main, joins).0 + classify(main, joins).1).to_multiset() =~= (seq![main] + join_tables(
            joins,
        )).to_multiset(),
    decreases joins.len(),
{
    broadcast use group_to_multiset_ensures;
    broadcast use lemma_multiset_commutative;
    if joins.len() > 0 {
        let prev = joins.drop_last();
        lemma_joined_tables_partition(main, prev);
        let (a, b) = classify(main, prev);
        let t = join_table(joins.last());
        assert(join_tables(joins) =~= join_tables(prev).push(t));
        assert(seq![main] + join_tables(joins) =~= (seq![main] + join_tables(prev)).push(t));
        match joins.last() {
            Join::Right { table, .. } => {
                assert(seq![table] + (b + a) =~= (seq![table] + b) + a);
                assert(seq![table] + b =~= b.insert(0, table));
                assert((seq![table] + b).to_multiset() =~= seq![table].to_multiset().add(b.to_multiset()));
                assert(seq![table] =~= Seq::<Span>::empty().push(table));
                assert((a + b).to_multiset() =~= a.to_multiset().add(b.to_multiset()));
            },
            Join::Left { table, .. } => {
                assert(a + b.push(table) =~= (a + b).push(table));
            },
            Join::Inner { table, .. } => {
                assert((a.push(table) + b).to_multiset() =~= a.push(table).to_multiset().add(b.to_multiset()));
            },
            Join::Cross { table } => {
                assert((a.push(table) + b).to_multiset() =~= a.push(table).to_multiset().add(b.to_multiset()));
            },
        }
    }
}

/// A table once optional stays optional, and the first always-present table
/// stays first, whatever join follows.
proof fn lemma_classify_step_keeps(acc: (Seq<Span>, Seq<Span>), j: Join)
    requires
        acc.0.len() >= 1,
    ensures
        classify_step(acc, j).0.len() >= 1,
        forall|x: Span| acc.1.contains(x) ==> classify_step(acc, j).1.contains(x),
        !(j is Right) ==> classify_step(acc, j).0[0] == acc.0[0],
{
    match j {
        Join::Right { table, .. } => {
            assert forall|x: Span| acc.1.contains(x) implies (acc.1 + acc.0).contains(x) by {
                let i = choose|i: int| 0 <= i < acc.1.len() && acc.1[i] == x;
                assert((acc.1 + acc.0)[i] == x);
            }
        },
        Join::Left { table, .. } => {
            assert forall|x: Span| acc.1.contains(x) implies acc.1.push(table).contains(x) by {
                let i = choose|i: int| 0 <= i < acc.1.len() && acc.1[i] == x;
                assert(acc.1.push(table)[i] == x);
            }
        },
        _ => {},
    }
}

proof fn lemma_classify_nonempty(main: Span, joins: Seq<Join>)
    ensures
        classify(main, joins).0.len() >= 1,
    decreases joins.len(),
{
    if joins.len() > 0 {
        lemma_classify_nonempty(main, joins.drop_last());
        lemma_classify_step_keeps(classify(main, joins.drop_last()), joins.last());
    }
}

/// A table joined by `LEFT JOIN` is optional in the joined struct.
pub proof fn lemma_left_joined_tables_optional(main: Span, joins: Seq<Join>)
    ensures
        forall|i: int|
            0 <= i < joins.len() && #[trigger] joins[i] is Left ==> classify(main, joins).1.contains(
                join_table(joins[i]),
            ),
    decreases joins.len(),
{
    if joins.len() > 0 {
        let prev = joins.drop_last();
        lemma_left_joined_tables_optional(main, prev);
        lemma_classify_nonempty(main, prev);
        lemma_classify_step_keeps(classify(main, prev), joins.last());
        assert forall|i: int| 0 <= i < joins.len() && #[trigger] joins[i] is Left implies classify(
            main,
            joins,
        ).1.contains(join_table(joins[i])) by {
            if i == joins.len() - 1 {
                let t = join_table(joins[i]);
                assert(classify(main, joins).1 == classify(main, prev).1.push(t));
                assert(classify(main, prev).1.push(t)[classify(main, prev).1.len() as int] == t);
            } else {
                assert(prev[i] == joins[i]);
            }
        }
    }
}

/// Without a `RIGHT JOIN`, the main table comes first among the tables that
/// are always present.
pub proof fn lemma_main_table_present_without_right_join(main: Span, joins: Seq<Join>)
    requires
        forall|i: int| 0 <= i < joins.len() ==> !(#[trigger] joins[i] is Right),
    ensures
        classify(main, joins).0.len() >= 1,
        classify(main, joins).0[0] == main,
    decreases joins.len(),
{
    if joins.len() > 0 {
        let prev = joins.drop_last();
        assert forall|i: int| 0 <= i < prev.len() implies !(#[trigger] prev[i] is Right) by {
            assert(prev[i] == joins[i]);
        }
        lemma_main_table_present_without_right_join(main, prev);
        assert(!(joins[joins.len() - 1] is Right));
        lemma_classify_step_keeps(classify(main, prev), joins.last());
    }
}

/// The last `RIGHT JOIN` takes priority: its table comes first among the tables
/// that are always present, and the main table and every table joined before it
/// become optional.
pub proof fn lemma_right_join_takes_priority(main: Span, joins: Seq<Join>, k: int)
    requires
        0 <= k < joins.len(),
        joins[k] is Right,
        forall|i: int| k < i < joins.len() ==> !(#[trigger] joins[i] is Right),
    ensures
        classify(main, joins).0[0] == join_table(joins[k]),
        classify(main, joins).1.contains(main),
        forall|i: int| 0 <= i < k ==> classify(main, joins).1.contains(#[trigger] join_table(joins[i])),
    decreases joins.len(),
{
    let prev = joins.drop_last();
    lemma_classify_nonempty(main, prev);
    if k == joins.len() - 1 {
        broadcast use group_to_multiset_ensures;
        let (a, b) = classify(main, prev);
        lemma_joined_tables_partition(main, prev);
        lemma_seq_union_to_multiset_commutative(a, b);
        let all = seq![main] + join_tables(prev);
        assert(all[0] == main);
        assert(all.contains(main));
        assert(all.to_multiset().count(main) > 0);
        assert((a + b).to_multiset().count(main) > 0);
        assert((b + a).to_multiset().count(main) > 0);
        assert((b + a).contains(main));
        assert forall|i: int| 0 <= i < k implies (b + a).contains(#[trigger] join_table(joins[i])) by {
            let t = join_table(joins[i]);
            assert(prev[i] == joins[i]);
            assert(all[i + 1] == t);
            assert(all.contains(t));
            assert(all.to_multiset().count(t) > 0);
            assert((a + b).to_multiset().count(t) > 0);
            assert((b + a).to_multiset().count(t) > 0);
        }
        assert(classify(main, joins).1 == b + a);
    } else {
        assert forall|i: int| k < i < prev.len() implies !(#[trigger] prev[i] is Right) by {
            assert(prev[i] == joins[i]);
            assert(!(joins[i] is Right));
        }
        assert(prev[k] == joins[k]);
        lemma_right_join_takes_priority(main, prev, k);
        assert(!(joins[joins.len() - 1] is Right));
        lemma_classify_step_keeps(classify(main, prev), joins.last());
        assert forall|i: int| 0 <= i < k implies classify(main, joins).1.contains(
            #[trigger] join_table(joins[i]),
        ) by {
            assert(prev[i] == joins[i]);
        }
    }
}

/// The drivers that `table_join!` implements the joined table for.
#[derive(Debug, PartialEq, Eq)]
pub enum DriverList {
    /// The paths written in `[...]`.
    Explicit(Vec<Span>),
    /// The default drivers of the build configuration.
    Defaults(Vec<String>),
}

/// The drivers of `table_join!`, given for each default driver whether its
/// name is a valid path (`paths_ok`): the written list when there is one (it may
/// not be empty); otherwise every default driver, each of which must be a valid
/// path (the error names the first that is not), and there must be at least one.
pub fn choose_supported_drivers(current: Option<Vec<Span>>, defaults: &Vec<String>, paths_ok: &Vec<bool>) -> (r:
    Result<DriverList, DriverError>)
    requires
        paths_ok.len() == defaults.len(),
    ensures
        current matches Some(d) && d.len() == 0 ==> r == Err::<DriverList, DriverError>(
            DriverError::EmptyDriverList,
        ),
        current matches Some(d) ==> (d.len() > 0 ==> (r matches Ok(DriverList::Explicit(x)) && x@ == d@)),
        current is None && defaults.len() == 0 ==> r == Err::<DriverList, DriverError>(
            DriverError::NoDefaultDrivers,
        ),
        current is None && defaults.len() > 0 ==> (r is Ok <==> forall|i: int|
            0 <= i < defaults.len() ==> #[trigger] paths_ok@[i]),
        current is None ==> (r matches Ok(l) ==> (l matches DriverList::Defaults(x) && x.len()
            == defaults.len() && forall|i: int| 0 <= i < defaults.len() ==> #[trigger] x@[i]@ == defaults@[i]@)),
        current is None && defaults.len() > 0 ==> (r matches Err(e) ==> (e matches DriverError::InvalidDriverName(i)
            && i < defaults.len() && !paths_ok@[i as int] && forall|j: int| 0 <= j < i ==> #[trigger] paths_ok@[j])),
{
    match current {
        Some(d) => {
            if d.len() == 0 {
                Err(DriverError::EmptyDriverList)
            } else {
                Ok(DriverList::Explicit(d))
            }
        },
        None => {
            if defaults.len() == 0 {
                return Err(DriverError::NoDefaultDrivers);
            }
            let mut drivers: Vec<String> = Vec::new();
            let mut i: usize = 0;
            while i < defaults.len()
                invariant
                    current is None,
                    defaults.len() > 0,
                    paths_ok.len() == defaults.len(),
                    i <= defaults.len(),
                    drivers.len() == i,
                    forall|j: int| 0 <= j < i ==> #[trigger] drivers@[j]@ == defaults@[j]@,
                    forall|j: int| 0 <= j < i ==> #[trigger] paths_ok@[j],
                decreases defaults.len() - i,
            {
                if !paths_ok[i] {
                    return Err(DriverError::InvalidDriverName(i));
                }
                drivers.push(defaults[i].clone());
                i = i + 1;
            }
            Ok(DriverList::Defaults(drivers))
        },
    }
}

/// The drivers of `table_join!`: asks `syn` whether each default driver's name
/// is a path (when no list is written), then chooses as
/// [`choose_supported_drivers`] does.
pub fn supported_drivers(current: Option<Vec<Span>>, defaults: &Vec<String>) -> (r: Result<
    DriverList,
    DriverError,
>)
    ensures
        current matches Some(d) && d.len() == 0 ==> r == Err::<DriverList, DriverError>(
            DriverError::EmptyDriverList,
        ),
        current matches Some(d) ==> (d.len() > 0 ==> (r matches Ok(DriverList::Explicit(x)) && x@ == d@)),
        current is None && defaults.len() == 0 ==> r == Err::<DriverList, DriverError>(
            DriverError::NoDefaultDrivers,
        ),
        current is None ==> (r matches Ok(l) ==> (l matches DriverList::Defaults(x) && x.len()
            == defaults.len() && forall|i: int| 0 <= i < defaults.len() ==> #[trigger] x@[i]@ == defaults@[i]@)),
        current is None && defaults.len() > 0 ==> (r matches Err(e) ==> (e matches DriverError::InvalidDriverName(i)
            && i < defaults.len())),
{
    let mut paths_ok: Vec<bool> = Vec::new();
    if current.is_none() {
        let mut i: usize = 0;
        while i < defaults.len()
            invariant
                i <= defaults.len(),
                paths_ok.len() == i,
            decreases defaults.len() - i,
        {
            paths_ok.push(syntax::text_is_path(defaults[i].as_str()));
            i = i + 1;
        }
        choose_supported_drivers(current, defaults, &paths_ok)
    } else {
        let mut i: usize = 0;
        while i < defaults.len()
            invariant
                i <= defaults.len(),
                paths_ok.len() == i,
            decreases defaults.len() - i,
        {
            paths_ok.push(false);
            i = i + 1;
        }
        choose_supported_drivers(current, defaults, &paths_ok)
    }
}

/// The kind of a join, as the runtime names it.
#[derive(Debug, Clone, Copy, PartialEq, Eq, Structural)]
pub enum JoinKind {
    Inner,
    Left,
    Right,
    Cross,
}

/// One join as the joined table describes it at run time: the table, the kind,
/// and the condition tree (none for a cross join).
#[derive(Debug, PartialEq, Eq)]
pub struct JoinEntry {
    pub table: Span,
    pub kind: JoinKind,
    pub on: Option<RtExpr>,
}

/// The entry of one join, with the checks and bindings of its condition (a
/// condition stands in a boolean position).
pub open spec fn join_entry(s: Seq<Tok>, j: Join) -> (JoinEntry, Seq<Check>, Seq<Bind>) {
    match j {
        Join::Inner { table, on } => {
            let t = runtime_expr::expr_tokens(s, on, true);
            (JoinEntry { table, kind: JoinKind::Inner, on: Some(t.0) }, t.1, t.2)
        },
        Join::Left { table, on } => {
            let t = runtime_expr::expr_tokens(s, on, true);
            (JoinEntry { table, kind: JoinKind::Left, on: Some(t.0) }, t.1, t.2)
        },
        Join::Right { table, on } => {
            let t = runtime_expr::expr_tokens(s, on, true);
            (JoinEntry { table, kind: JoinKind::Right, on: Some(t.0) }, t.1, t.2)
        },
        Join::Cross { table } => (
            JoinEntry { table, kind: JoinKind::Cross, on: None },
            Seq::empty(),
            Seq::empty(),
        ),
    }
}

/// The entries of the joins in order, with all their checks and bindings in order.
pub open spec fn join_entries_spec(s: Seq<Tok>, joins: Seq<Join>) -> (Seq<JoinEntry>, Seq<Check>, Seq<Bind>)
    decreases joins.len(),
{
    if joins.len() == 0 {
        (Seq::empty(), Seq::empty(), Seq::empty())
    } else {
        let prev = join_entries_spec(s, joins.drop_last());
        let e = join_entry(s, joins.last());
        (prev.0.push(e.0), prev.1 + e.1, prev.2 + e.2)
    }
}

/// The runtime entries of the joins; the conditions' checks and bindings are
/// appended to `checks` and `binds`.
pub fn join_entries(toks: &Vec<Tok>, joins: &Vec<Join>, checks: &mut Vec<Check>, binds: &mut Vec<Bind>) -> (r: Vec<
    JoinEntry,
>)
    ensures
        r@ == join_entries_spec(toks@, joins@).0,
        final(checks)@ == old(checks)@ + join_entries_spec(toks@, joins@).1,
        final(binds)@ == old(binds)@ + join_entries_spec(toks@, joins@).2,
{
    let mut entries: Vec<JoinEntry> = Vec::new();
    let mut i: usize = 0;
    while i < joins.len()
        invariant
            i <= joins.len(),
            entries@ == join_entries_spec(toks@, joins@.take(i as int)).0,
            checks@ == old(checks)@ + join_entries_spec(toks@, joins@.take(i as int)).1,
            binds@ == old(binds)@ + join_entries_spec(toks@, joins@.take(i as int)).2,
        decreases joins.len() - i,
    {
        assert(joins@.take(i + 1).drop_last() =~= joins@.take(i as int));
        let ghost c0 = checks@;
        let ghost b0 = binds@;
        let entry = match &joins[i] {
            Join::Inner { table, on } => {
                let t = on.into_tokens_with_checks(toks, checks, binds, true);
                JoinEntry { table: *table, kind: JoinKind::Inner, on: Some(t) }
            },
            Join::Left { table, on } => {
                let t = on.into_tokens_with_checks(toks, checks, binds, true);
                JoinEntry { table: *table, kind: JoinKind::Left, on: Some(t) }
            },
            Join::Right { table, on } => {
                let t = on.into_tokens_with_checks(toks, checks, binds, true);
                JoinEntry { table: *table, kind: JoinKind::Right, on: Some(t) }
            },
            Join::Cross { table } => {
                assert(checks@ =~= checks@ + Seq::<Check>::empty());
                assert(binds@ =~= binds@ + Seq::<Bind>::empty());
                JoinEntry { table: *table, kind: JoinKind::Cross, on: None }
            },
        };
        entries.push(entry);
        proof {
            let e = join_entry(toks@, joins@[i as int]);
            assert(c0 + e.1 == checks@);
            assert(old(checks)@ + join_entries_spec(toks@, joins@.take(i as int)).1 + e.1 =~= old(checks)@
                + (join_entries_spec(toks@, joins@.take(i as int)).1 + e.1));
            assert(old(binds)@ + join_entries_spec(toks@, joins@.take(i as int)).2 + e.2 =~= old(binds)@
                + (join_entries_spec(toks@, joins@.take(i as int)).2 + e.2));
        }
        i = i + 1;
    }
    assert(joins@.take(joins.len() as int) =~= joins@);
    entries
}

} // verus!
