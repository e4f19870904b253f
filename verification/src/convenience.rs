//! The `sql_convenience` attribute: inside a call of a table function (such as
//! `Table::select(conn, sql!(...))`), a `sql!` without `|Table|` gets the
//! table from the call's path, and a `sql!` in the second argument of an
//! update function gets `SET`.
//!
//! Paths are given as the names of their segments.
use crate::macro_input;
use crate::syntax;
use crate::syntax::{parse_rust, RustSyntax, Span, Stop};
use crate::tokens;
use crate::tokens::{exec_peek_kw, exec_peek_p1, Kw, Tok};
use vstd::prelude::*;

verus! {

broadcast use syntax::group_refused;

pub open spec fn names_view(v: Seq<String>) -> Seq<Seq<char>> {
    v.map_values(|x: String| x@)
}

/// The names of the functions that a table's type offers for queries.
pub open spec fn is_table_function(name: Seq<char>) -> bool {
    ||| name == "select"@
    ||| name == "get"@
    ||| name == "select_lazy"@
    ||| name == "get_lazy"@
    ||| name == "exists"@
    ||| name == "insert"@
    ||| name == "insert_returning"@
    ||| name == "insert_returning_lazy"@
    ||| name == "update"@
    ||| name == "update_returning"@
    ||| name == "update_returning_lazy"@
    ||| name == "delete"@
    ||| name == "delete_returning"@
    ||| name == "delete_returning_lazy"@
}

/// The names of the update functions, whose second argument is a `SET` clause.
pub open spec fn is_update_function(name: Seq<char>) -> bool {
    ||| name == "update"@
    ||| name == "update_returning"@
    ||| name == "update_returning_lazy"@
}

fn is_table_function_name(name: &str) -> (r: bool)
    ensures
        r == is_table_function(name@),
{
    tokens::str_eq(name, "select") || tokens::str_eq(name, "get") || tokens::str_eq(name, "select_lazy")
        || tokens::str_eq(name, "get_lazy") || tokens::str_eq(name, "exists") || tokens::str_eq(
        name,
        "insert",
    ) || tokens::str_eq(name, "insert_returning") || tokens::str_eq(name, "insert_returning_lazy")
        || tokens::str_eq(name, "update") || tokens::str_eq(name, "update_returning")
        || tokens::str_eq(name, "update_returning_lazy") || tokens::str_eq(name, "delete")
        || tokens::str_eq(name, "delete_returning") || tokens::str_eq(name, "delete_returning_lazy")
}

fn clone_names(v: &Vec<String>, n: usize) -> (r: Vec<String>)
    requires
        n <= v.len(),
    ensures
        names_view(r@) == names_view(v@).take(n as int),
{
    let mut r: Vec<String> = Vec::new();
    let mut i: usize = 0;
    while i < n
        invariant
            i <= n <= v.len(),
            names_view(r@) == names_view(v@).take(i as int),
        decreases n - i,
    {
        let ghost prev = r@;
        r.push(v[i].clone());
        assert(r@ =~= prev.push(v@[i as int]));
        assert(names_view(r@) =~= names_view(prev).push(v@[i as int]@));
        i = i + 1;
        assert(names_view(r@) =~= names_view(v@).take(i as int));
    }
    r
}

/// When the path names a table function, the path of its type (the path
/// without its last segment).
pub fn table_function_check(fn_path: &Vec<String>) -> (r: Option<Vec<String>>)
    ensures
        fn_path.len() == 0 ==> r is None,
        fn_path.len() > 0 ==> (r is Some <==> is_table_function(fn_path@.last()@)),
        r matches Some(p) ==> names_view(p@) == names_view(fn_path@).drop_last(),
{
    if fn_path.len() == 0 {
        return None;
    }
    if !is_table_function_name(fn_path[fn_path.len() - 1].as_str()) {
        return None;
    }
    let r = clone_names(fn_path, fn_path.len() - 1);
    assert(names_view(fn_path@).drop_last() =~= names_view(fn_path@).take(fn_path.len() - 1));
    Some(r)
}

/// The path names an update function.
pub fn is_update_check(fn_path: &Vec<String>) -> (r: bool)
    ensures
        r == (fn_path.len() > 0 && is_update_function(fn_path@.last()@)),
{
    if fn_path.len() == 0 {
        return false;
    }
    let name = fn_path[fn_path.len() - 1].as_str();
    tokens::str_eq(name, "update") || tokens::str_eq(name, "update_returning") || tokens::str_eq(
        name,
        "update_returning_lazy",
    )
}

/// What the walk over the annotated item knows at a point: the table of the
/// innermost enclosing table-function call, and whether the point is in the
/// `SET` argument of an update call.
#[derive(Debug)]
pub struct SqlData {
    pub potential_table: Option<Vec<String>>,
    pub update_set_arg: bool,
}

impl SqlData {
    pub fn new() -> (r: SqlData)
        ensures
            r.potential_table is None,
            !r.update_set_arg,
    {
        SqlData { potential_table: None, update_set_arg: false }
    }
}

/// What the walk remembers about a call while it visits the call's arguments.
#[derive(Debug, Clone, Copy, PartialEq, Eq, Structural)]
pub struct CallState {
    /// The call set the table, and clears it when it ends.
    pub reset_after: bool,
    /// The call is a call of an update function.
    pub is_update: bool,
}

/// A path as the names of its segments, when there is one.
pub open spec fn opt_names_view(o: Option<Vec<String>>) -> Option<Seq<Seq<char>>> {
    match o {
        Some(v) => Some(names_view(v@)),
        None => None,
    }
}

/// The table and the call's state after entering a call whose callee is the
/// path `func` (`None` when the callee is not a path): a table-function call
/// sets the table, unless an enclosing call already did.
pub open spec fn enter_spec(table: Option<Seq<Seq<char>>>, func: Option<Seq<Seq<char>>>) -> (
    Option<Seq<Seq<char>>>,
    CallState,
) {
    match func {
        Some(p) => if table is None && p.len() > 0 && is_table_function(p.last()) {
            (Some(p.drop_last()), CallState { reset_after: true, is_update: is_update_function(p.last()) })
        } else {
            (table, CallState { reset_after: false, is_update: false })
        },
        None => (table, CallState { reset_after: false, is_update: false }),
    }
}

/// The table after leaving a call.
pub open spec fn exit_spec(table: Option<Seq<Seq<char>>>, call: CallState) -> Option<Seq<Seq<char>>> {
    if call.reset_after {
        None
    } else {
        table
    }
}

/// Entering a call whose callee is the path `func_path`.
pub fn call_enter(data: &mut SqlData, func_path: Option<&Vec<String>>) -> (r: CallState)
    ensures
        final(data).update_set_arg == old(data).update_set_arg,
        (opt_names_view(final(data).potential_table), r) == enter_spec(
            opt_names_view(old(data).potential_table),
            match func_path {
                Some(p) => Some(names_view(p@)),
                None => None,
            },
        ),
{
    match func_path {
        Some(p) => {
            let before = data.potential_table.is_none();
            let potential = table_function_check(p);
            if before && potential.is_some() {
                data.potential_table = potential;
                proof {
                    assert(names_view(p@).last() == p@.last()@);
                }
                CallState { reset_after: true, is_update: is_update_check(p) }
            } else {
                proof {
                    if p.len() > 0 {
                        assert(names_view(p@).last() == p@.last()@);
                    }
                }
                CallState { reset_after: false, is_update: false }
            }
        },
        None => CallState { reset_after: false, is_update: false },
    }
}

/// Before visiting argument `i` of a call: the second argument of an update
/// call is a `SET` clause.
pub fn call_arg_enter(data: &mut SqlData, call: CallState, i: usize)
    ensures
        final(data).potential_table == old(data).potential_table,
        final(data).update_set_arg == (old(data).update_set_arg || (i == 1 && call.is_update)),
{
    if i == 1 && call.is_update {
        data.update_set_arg = true;
    }
}

/// After visiting an argument of a call.
pub fn call_arg_exit(data: &mut SqlData)
    ensures
        final(data).potential_table == old(data).potential_table,
        !final(data).update_set_arg,
{
    data.update_set_arg = false;
}

/// Leaving a call: a call that set the table clears it.
pub fn call_exit(data: &mut SqlData, call: CallState)
    ensures
        final(data).update_set_arg == old(data).update_set_arg,
        opt_names_view(final(data).potential_table) == exit_spec(opt_names_view(old(data).potential_table), call),
        !call.reset_after ==> final(data).potential_table == old(data).potential_table,
{
    if call.reset_after {
        data.potential_table = None;
    }
}

/// A call's table reaches its arguments only: leaving a call gives back the
/// table that held before entering it.
pub proof fn lemma_call_exit_restores_table(table: Option<Seq<Seq<char>>>, func: Option<Seq<Seq<char>>>)
    ensures
        exit_spec(enter_spec(table, func).0, enter_spec(table, func).1) == table,
{
}

/// The innermost table-function call does not override the table of an
/// enclosing one: once a table is set, entering any call keeps it.
pub proof fn lemma_enclosing_table_wins(table: Seq<Seq<char>>, func: Option<Seq<Seq<char>>>)
    ensures
        enter_spec(Some(table), func).0 == Some(table),
        !enter_spec(Some(table), func).1.reset_after,
{
}

/// The macro paths that the attribute rewrites.
pub open spec fn is_sql_macro_path(p: Seq<Seq<char>>) -> bool {
    ||| p == seq!["sql"@]
    ||| p == seq!["sql_debug"@]
    ||| p == seq!["easy_sql"@, "sql"@]
    ||| p == seq!["easy_sql"@, "sql_debug"@]
}

fn sql_macro_path(p: &Vec<String>) -> (r: bool)
    ensures
        r == is_sql_macro_path(names_view(p@)),
{
    let ghost v = names_view(p@);
    assert(v.len() == p.len());
    assert(seq!["sql"@].len() == 1 && seq!["easy_sql"@, "sql"@].len() == 2);
    assert(seq!["sql_debug"@].len() == 1 && seq!["easy_sql"@, "sql_debug"@].len() == 2);
    if p.len() == 1 {
        let r = tokens::str_eq(p[0].as_str(), "sql") || tokens::str_eq(p[0].as_str(), "sql_debug");
        proof {
            if r {
                assert(v =~= seq!["sql"@] || v =~= seq!["sql_debug"@]);
            } else {
                assert(v[0] == p@[0]@);
            }
        }
        r
    } else if p.len() == 2 {
        let r = tokens::str_eq(p[0].as_str(), "easy_sql") && (tokens::str_eq(p[1].as_str(), "sql")
            || tokens::str_eq(p[1].as_str(), "sql_debug"));
        proof {
            if r {
                assert(v =~= seq!["easy_sql"@, "sql"@] || v =~= seq!["easy_sql"@, "sql_debug"@]);
            } else {
                assert(v[0] == p@[0]@ && v[1] == p@[1]@);
            }
        }
        r
    } else {
        false
    }
}

/// What the attribute reads from the input of a `sql!` call.
#[derive(Debug, Clone, Copy, PartialEq, Eq, Structural)]
pub struct SqlMacroInput {
    pub driver: Option<Span>,
    pub table: Option<Span>,
    pub set_keyword_present: bool,
    /// Where the rest of the input starts.
    pub leftovers: usize,
}

/// `[<Driver>] [|Table|] [SET] rest...`.
pub open spec fn parse_sql_macro_input_spec(s: Seq<Tok>, pos: usize, end: usize) -> Option<SqlMacroInput> {
    match macro_input::parse_driver_spec(s, pos, end) {
        Err(_) => None,
        Ok((driver, p)) => {
            let table = if tokens::peek_p1(s, p, end, '|') {
                match syntax::parse_rust_spec(s, (p + 1) as usize, end, RustSyntax::Type, Stop::Bar) {
                    Err(_) => None,
                    Ok((t, q)) => if tokens::peek_p1(s, q, end, '|') {
                        Some((Some(t), (q + 1) as usize))
                    } else {
                        None
                    },
                }
            } else {
                Some((None, p))
            };
            match table {
                None => None,
                Some((table, q)) => if tokens::peek_kw(s, q, end, Kw::SetKeyword) {
                    Some(SqlMacroInput { driver, table, set_keyword_present: true, leftovers: (q + 1) as usize })
                } else {
                    Some(SqlMacroInput { driver, table, set_keyword_present: false, leftovers: q })
                },
            }
        },
    }
}

/// The runs that reading the start of a `sql!` input hands to `syn`: the
/// driver path and the table type.
pub open spec fn sql_macro_input_runs(s: Seq<Tok>, pos: usize, end: usize) -> Seq<syntax::Run> {
    macro_input::driver_runs(s, pos, end) + match macro_input::parse_driver_spec(s, pos, end) {
        Err(_) => Seq::empty(),
        Ok((_, p)) => if tokens::peek_p1(s, p, end, '|') {
            syntax::rust_runs(s, (p + 1) as usize, end, RustSyntax::Type, Stop::Bar)
        } else {
            Seq::empty()
        },
    }
}

impl SqlMacroInput {
    /// Parses the start of a `sql!` input (`None` when it is malformed). The
    /// result is the grammar's, except that it is `None` where `syn` refuses
    /// the text of the driver path or of the table type; with neither written,
    /// it is exactly the grammar's.
    pub fn parse(toks: &Vec<Tok>, pos: usize, end: usize) -> (r: Option<SqlMacroInput>)
        requires
            tokens::in_range(toks@, pos, end),
        ensures
            r == parse_sql_macro_input_spec(toks@, pos, end) || (r is None && sql_macro_input_runs(
                toks@,
                pos,
                end,
            ).len() > 0),
    {
        let (driver, p) = match macro_input::parse_driver(toks, pos, end) {
            Err(_) => {
                return None;
            },
            Ok(x) => x,
        };
        let (table, q) = if exec_peek_p1(toks, p, end, '|') {
            match parse_rust(toks, p + 1, end, RustSyntax::Type, Stop::Bar) {
                Err(_) => {
                    return None;
                },
                Ok((t, q)) => {
                    if exec_peek_p1(toks, q, end, '|') {
                        (Some(t), q + 1)
                    } else {
                        return None;
                    }
                },
            }
        } else {
            (None, p)
        };
        if exec_peek_kw(toks, q, end, Kw::SetKeyword) {
            Some(SqlMacroInput { driver, table, set_keyword_present: true, leftovers: q + 1 })
        } else {
            Some(SqlMacroInput { driver, table, set_keyword_present: false, leftovers: q })
        }
    }
}

/// Where the table of a rewritten `sql!` comes from.
#[derive(Debug)]
pub enum TableSource {
    /// The input names it between bars.
    Written(Span),
    /// The path of the enclosing table-function call's type.
    FromCall(Vec<String>),
}

/// The input a `sql!` call is rewritten to: `[<Driver>] |Table| [SET] rest...`.
#[derive(Debug)]
pub struct MacroRewrite {
    pub driver: Option<Span>,
    pub table: TableSource,
    pub set: bool,
    pub leftovers: usize,
}

/// How the attribute rewrites the macro call at the walk's point (`None`: leave
/// it as it is). Only `sql!` calls whose input parses and that have a table,
/// written or from the enclosing call, are rewritten; a call whose driver path
/// or table type `syn` refuses is left as it is too (so a call with neither is
/// rewritten whenever the grammar accepts it).
pub fn macro_check(path: &Vec<String>, toks: &Vec<Tok>, data: &SqlData) -> (r: Option<MacroRewrite>)
    ensures
        !is_sql_macro_path(names_view(path@)) ==> r is None,
        is_sql_macro_path(names_view(path@)) ==> match parse_sql_macro_input_spec(toks@, 0, toks.len() as usize) {
            None => r is None,
            Some(input) => if input.table is None && data.potential_table is None {
                r is None
            } else {
                (r is None && sql_macro_input_runs(toks@, 0, toks.len() as usize).len() > 0) || (r matches Some(w) && w.driver == input.driver && w.set == (input.set_keyword_present
                    || data.update_set_arg) && w.leftovers == input.leftovers && match input.table {
                    Some(t) => w.table matches TableSource::Written(x) && x == t,
                    None => w.table matches TableSource::FromCall(p) && data.potential_table matches Some(
                        q,
                    ) && names_view(p@) == names_view(q@),
                })
            },
        },
{
    if !sql_macro_path(path) {
        return None;
    }
    let input = match SqlMacroInput::parse(toks, 0, toks.len()) {
        None => {
            return None;
        },
        Some(i) => i,
    };
    let table = match input.table {
        Some(t) => TableSource::Written(t),
        None => match &data.potential_table {
            Some(p) => TableSource::FromCall(clone_names(p, p.len())),
            None => {
                return None;
            },
        },
    };
    proof {
        if let Some(q) = &data.potential_table {
            assert(names_view(q@).take(q.len() as int) =~= names_view(q@));
        }
    }
    Some(
        MacroRewrite {
            driver: input.driver,
            table,
            set: input.set_keyword_present || data.update_set_arg,
            leftovers: input.leftovers,
        },
    )
}

} // verus!
