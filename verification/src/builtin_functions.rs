//! The SQL functions that `query!` knows without a declaration, with the number
//! of arguments each accepts. Some functions (like `COUNT`) also accept `*`.
use crate::tokens;
use vstd::prelude::*;

verus! {

#[derive(Debug, Clone, Copy, PartialEq, Eq)]
pub struct BuiltinFunctionData {
    pub name: &'static str,
    pub min_args: usize,
    /// `None` means any number of arguments.
    pub max_args: Option<usize>,
    pub accepts_star: bool,
}

impl BuiltinFunctionData {
    /// `COUNT`: no argument, one argument, or `*`.
    pub fn count() -> (r: Self)
        ensures
            r == (BuiltinFunctionData {
                name: "COUNT",
                min_args: 0,
                max_args: Some(1usize),
                accepts_star: true,
            }),
    {
        BuiltinFunctionData { name: "COUNT", min_args: 0, max_args: Some(1), accepts_star: true }
    }

    /// A function taking from `min_args` to `max_args` arguments.
    pub fn args(name: &'static str, min_args: usize, max_args: Option<usize>) -> (r: Self)
        ensures
            r == (BuiltinFunctionData { name, min_args, max_args, accepts_star: false }),
    {
        BuiltinFunctionData { name, min_args, max_args, accepts_star: false }
    }

    /// A function taking exactly one argument.
    pub fn args1(name: &'static str) -> (r: Self)
        ensures
            r == (BuiltinFunctionData {
                name,
                min_args: 1,
                max_args: Some(1usize),
                accepts_star: false,
            }),
    {
        BuiltinFunctionData { name, min_args: 1, max_args: Some(1), accepts_star: false }
    }

    /// A function taking exactly two arguments.
    pub fn args2(name: &'static str) -> (r: Self)
        ensures
            r == (BuiltinFunctionData {
                name,
                min_args: 2,
                max_args: Some(2usize),
                accepts_star: false,
            }),
    {
        BuiltinFunctionData { name, min_args: 2, max_args: Some(2), accepts_star: false }
    }
}

pub open spec fn entry(name: &'static str, min_args: usize, max_args: Option<usize>) -> BuiltinFunctionData {
    BuiltinFunctionData { name, min_args, max_args, accepts_star: false }
}

/// The table of built-in functions, in lookup order.
pub open spec fn builtin_table() -> Seq<BuiltinFunctionData> {
    seq![
        BuiltinFunctionData { name: "COUNT", min_args: 0, max_args: Some(1usize), accepts_star: true },
        entry("SUM", 1, Some(1usize)),
        entry("AVG", 1, Some(1usize)),
        entry("MIN", 1, Some(1usize)),
        entry("MAX", 1, Some(1usize)),
        entry("CONCAT", 1, None),
        entry("UPPER", 1, Some(1usize)),
        entry("LOWER", 1, Some(1usize)),
        entry("LENGTH", 1, Some(1usize)),
        entry("TRIM", 1, Some(1usize)),
        entry("SUBSTRING", 2, Some(3usize)),
        entry("SUBSTR", 2, Some(3usize)),
        entry("COALESCE", 1, None),
        entry("NULLIF", 2, Some(2usize)),
        entry("IFNULL", 2, Some(2usize)),
        entry("NOW", 0, Some(0usize)),
        entry("DATE", 1, Some(1usize)),
        entry("TIME", 1, Some(1usize)),
        entry("DATETIME", 1, Some(1usize)),
        entry("CURRENT_TIMESTAMP", 0, Some(0usize)),
        entry("CURRENT_DATE", 0, Some(0usize)),
        entry("CURRENT_TIME", 0, Some(0usize)),
        entry("ABS", 1, Some(1usize)),
        entry("ROUND", 1, Some(2usize)),
        entry("CEIL", 1, Some(1usize)),
        entry("CEILING", 1, Some(1usize)),
        entry("FLOOR", 1, Some(1usize)),
        entry("POWER", 2, Some(2usize)),
        entry("POW", 2, Some(2usize)),
        entry("SQRT", 1, Some(1usize)),
        entry("MOD", 2, Some(2usize)),
        entry("CAST", 1, Some(1usize)),
        entry("DISTINCT", 1, Some(1usize)),
    ]
}

/// The table of built-in functions: aggregates, string, conditional, date and
/// time, math, conversion functions, and `DISTINCT`.
pub fn builtin_functions() -> (r: Vec<BuiltinFunctionData>)
    ensures
        r@ == builtin_table(),
{
    let mut v: Vec<BuiltinFunctionData> = Vec::new();
    v.push(BuiltinFunctionData::count());
    v.push(BuiltinFunctionData::args1("SUM"));
    v.push(BuiltinFunctionData::args1("AVG"));
    v.push(BuiltinFunctionData::args1("MIN"));
    v.push(BuiltinFunctionData::args1("MAX"));
    v.push(BuiltinFunctionData::args("CONCAT", 1, None));
    v.push(BuiltinFunctionData::args1("UPPER"));
    v.push(BuiltinFunctionData::args1("LOWER"));
    v.push(BuiltinFunctionData::args1("LENGTH"));
    v.push(BuiltinFunctionData::args1("TRIM"));
    v.push(BuiltinFunctionData::args("SUBSTRING", 2, Some(3)));
    v.push(BuiltinFunctionData::args("SUBSTR", 2, Some(3)));
    v.push(BuiltinFunctionData::args("COALESCE", 1, None));
    v.push(BuiltinFunctionData::args2("NULLIF"));
    v.push(BuiltinFunctionData::args2("IFNULL"));
    v.push(BuiltinFunctionData::args("NOW", 0, Some(0)));
    v.push(BuiltinFunctionData::args1("DATE"));
    v.push(BuiltinFunctionData::args1("TIME"));
    v.push(BuiltinFunctionData::args1("DATETIME"));
    v.push(BuiltinFunctionData::args("CURRENT_TIMESTAMP", 0, Some(0)));
    v.push(BuiltinFunctionData::args("CURRENT_DATE", 0, Some(0)));
    v.push(BuiltinFunctionData::args("CURRENT_TIME", 0, Some(0)));
    v.push(BuiltinFunctionData::args1("ABS"));
    v.push(BuiltinFunctionData::args("ROUND", 1, Some(2)));
    v.push(BuiltinFunctionData::args1("CEIL"));
    v.push(BuiltinFunctionData::args1("CEILING"));
    v.push(BuiltinFunctionData::args1("FLOOR"));
    v.push(BuiltinFunctionData::args2("POWER"));
    v.push(BuiltinFunctionData::args2("POW"));
    v.push(BuiltinFunctionData::args1("SQRT"));
    v.push(BuiltinFunctionData::args2("MOD"));
    v.push(BuiltinFunctionData::args1("CAST"));
    v.push(BuiltinFunctionData::args1("DISTINCT"));
    assert(v@ =~= builtin_table());
    v
}

/// The first entry of `t` from index `i` on whose name is `name`.
pub open spec fn lookup_from(t: Seq<BuiltinFunctionData>, name: Seq<char>, i: int) -> Option<
    BuiltinFunctionData,
>
    decreases t.len() - i,
{
    if i < 0 || i >= t.len() {
        None
    } else if t[i].name@ == name {
        Some(t[i])
    } else {
        lookup_from(t, name, i + 1)
    }
}

/// The built-in function whose name is `name`, if any.
pub open spec fn lookup_builtin(name: Seq<char>) -> Option<BuiltinFunctionData> {
    lookup_from(builtin_table(), name, 0)
}

proof fn lemma_lookup_from(t: Seq<BuiltinFunctionData>, name: Seq<char>, i: int)
    requires
        0 <= i <= t.len(),
    ensures
        lookup_from(t, name, i) is None <==> (forall|j: int| i <= j < t.len() ==> t[j].name@ != name),
        lookup_from(t, name, i) matches Some(d) ==> d.name@ == name,
    decreases t.len() - i,
{
    if i < t.len() {
        lemma_lookup_from(t, name, i + 1);
    }
}

/// Only `COUNT` accepts `*`, an entry's upper bound on its arguments, where it
/// has one, is not below its lower bound, and its name is upper-case ASCII.
pub open spec fn entry_well_formed(d: BuiltinFunctionData) -> bool {
    &&& d.accepts_star ==> d.name@ == "COUNT"@
    &&& d.max_args matches Some(m) ==> d.min_args <= m
    &&& upper_ascii_name(d.name@)
}

/// Every entry of the table of built-in functions: only `COUNT` accepts `*`,
/// no entry's maximum number of arguments is below its minimum, and every name
/// is upper-case ASCII.
pub proof fn lemma_builtin_table_well_formed()
    ensures
        forall|j: int| 0 <= j < builtin_table().len() ==> #[trigger] entry_well_formed(builtin_table()[j]),
{
    let t = builtin_table();
    lemma_builtin_names_upper();
    assert forall|j: int| 0 <= j < t.len() implies #[trigger] entry_well_formed(t[j]) by {
        assert(upper_ascii_name(t[j].name@));
        if j == 0 {
            assert(t[0].name@ == "COUNT"@);
        } else {
            assert(!t[j].accepts_star);
        }
    }
}

/// A built-in function found by name is a well-formed entry of the table: only
/// `COUNT` accepts `*`, its maximum number of arguments is not below its
/// minimum, and its name is upper-case ASCII.
pub proof fn lemma_lookup_well_formed(name: Seq<char>)
    ensures
        lookup_builtin(name) matches Some(d) ==> entry_well_formed(d),
{
    lemma_builtin_table_well_formed();
    lemma_lookup_in_table(builtin_table(), name, 0);
}

proof fn lemma_lookup_in_table(t: Seq<BuiltinFunctionData>, name: Seq<char>, i: int)
    requires
        0 <= i <= t.len(),
    ensures
        lookup_from(t, name, i) matches Some(d) ==> exists|j: int| i <= j < t.len() && t[j] == d,
    decreases t.len() - i,
{
    if i < t.len() {
        lemma_lookup_in_table(t, name, i + 1);
    }
}

/// A name made of upper-case ASCII letters and underscores.
pub open spec fn upper_ascii_name(n: Seq<char>) -> bool {
    n.len() > 0 && forall|i: int| 0 <= i < n.len() ==> ('A' <= #[trigger] n[i] <= 'Z' || n[i] == '_')
}

/// Every name in the table of built-in functions is written in upper-case
/// ASCII letters (and underscores), the form that lookups compare against.
pub proof fn lemma_builtin_names_upper()
    ensures
        forall|j: int| 0 <= j < builtin_table().len() ==> upper_ascii_name(#[trigger] builtin_table()[j].name@),
{
    reveal_strlit("COUNT");
    reveal_strlit("SUM");
    reveal_strlit("AVG");
    reveal_strlit("MIN");
    reveal_strlit("MAX");
    reveal_strlit("CONCAT");
    reveal_strlit("UPPER");
    reveal_strlit("LOWER");
    reveal_strlit("LENGTH");
    reveal_strlit("TRIM");
    reveal_strlit("SUBSTRING");
    reveal_strlit("SUBSTR");
    reveal_strlit("COALESCE");
    reveal_strlit("NULLIF");
    reveal_strlit("IFNULL");
    reveal_strlit("NOW");
    reveal_strlit("DATE");
    reveal_strlit("TIME");
    reveal_strlit("DATETIME");
    reveal_strlit("CURRENT_TIMESTAMP");
    reveal_strlit("CURRENT_DATE");
    reveal_strlit("CURRENT_TIME");
    reveal_strlit("ABS");
    reveal_strlit("ROUND");
    reveal_strlit("CEIL");
    reveal_strlit("CEILING");
    reveal_strlit("FLOOR");
    reveal_strlit("POWER");
    reveal_strlit("POW");
    reveal_strlit("SQRT");
    reveal_strlit("MOD");
    reveal_strlit("CAST");
    reveal_strlit("DISTINCT");
    let t = builtin_table();
    assert forall|j: int| 0 <= j < t.len() implies upper_ascii_name(#[trigger] t[j].name@) by {
    }
}

/// A name in upper-case ASCII is its own ASCII upper-case form.
pub proof fn lemma_upper_name_fixed(n: Seq<char>)
    requires
        upper_ascii_name(n),
    ensures
        ascii_upper(n) == n,
        is_ascii_text(n),
{
    assert forall|i: int| 0 <= i < n.len() implies ascii_upper(n)[i] == n[i] by {
        assert('A' <= n[i] <= 'Z' || n[i] == '_');
    }
    assert(ascii_upper(n) =~= n);
    assert forall|i: int| 0 <= i < n.len() implies (#[trigger] n[i] as u32) < 128 by {
        assert('A' <= n[i] <= 'Z' || n[i] == '_');
    }
}

/// The argument range of every built-in function, as looked up by its name:
/// `COUNT` takes 0 or 1 argument or `*`; `ROUND` takes 1 or 2; `SUBSTRING`
/// and `SUBSTR` 2 or 3; `CONCAT` and `COALESCE` 1 or more; `NOW` and the
/// `CURRENT_*` functions none; `NULLIF`, `IFNULL`, `POWER`, `POW` and `MOD`
/// exactly 2; the others exactly 1.
pub proof fn lemma_builtin_ranges()
    ensures
        lookup_builtin("COUNT"@) matches Some(d) && d.name@ == "COUNT"@ && d.min_args == 0 && d.max_args == Some(1usize) && d.accepts_star == true,
        lookup_builtin("SUM"@) matches Some(d) && d.name@ == "SUM"@ && d.min_args == 1 && d.max_args == Some(1usize) && d.accepts_star == false,
        lookup_builtin("AVG"@) matches Some(d) && d.name@ == "AVG"@ && d.min_args == 1 && d.max_args == Some(1usize) && d.accepts_star == false,
        lookup_builtin("MIN"@) matches Some(d) && d.name@ == "MIN"@ && d.min_args == 1 && d.max_args == Some(1usize) && d.accepts_star == false,
        lookup_builtin("MAX"@) matches Some(d) && d.name@ == "MAX"@ && d.min_args == 1 && d.max_args == Some(1usize) && d.accepts_star == false,
        lookup_builtin("CONCAT"@) matches Some(d) && d.name@ == "CONCAT"@ && d.min_args == 1 && d.max_args == None::<usize> && d.accepts_star == false,
        lookup_builtin("UPPER"@) matches Some(d) && d.name@ == "UPPER"@ && d.min_args == 1 && d.max_args == Some(1usize) && d.accepts_star == false,
        lookup_builtin("LOWER"@) matches Some(d) && d.name@ == "LOWER"@ && d.min_args == 1 && d.max_args == Some(1usize) && d.accepts_star == false,
        lookup_builtin("LENGTH"@) matches Some(d) && d.name@ == "LENGTH"@ && d.min_args == 1 && d.max_args == Some(1usize) && d.accepts_star == false,
        lookup_builtin("TRIM"@) matches Some(d) && d.name@ == "TRIM"@ && d.min_args == 1 && d.max_args == Some(1usize) && d.accepts_star == false,
        lookup_builtin("SUBSTRING"@) matches Some(d) && d.name@ == "SUBSTRING"@ && d.min_args == 2 && d.max_args == Some(3usize) && d.accepts_star == false,
        lookup_builtin("SUBSTR"@) matches Some(d) && d.name@ == "SUBSTR"@ && d.min_args == 2 && d.max_args == Some(3usize) && d.accepts_star == false,
        lookup_builtin("COALESCE"@) matches Some(d) && d.name@ == "COALESCE"@ && d.min_args == 1 && d.max_args == None::<usize> && d.accepts_star == false,
        lookup_builtin("NULLIF"@) matches Some(d) && d.name@ == "NULLIF"@ && d.min_args == 2 && d.max_args == Some(2usize) && d.accepts_star == false,
        lookup_builtin("IFNULL"@) matches Some(d) && d.name@ == "IFNULL"@ && d.min_args == 2 && d.max_args == Some(2usize) && d.accepts_star == false,
        lookup_builtin("NOW"@) matches Some(d) && d.name@ == "NOW"@ && d.min_args == 0 && d.max_args == Some(0usize) && d.accepts_star == false,
        lookup_builtin("DATE"@) matches Some(d) && d.name@ == "DATE"@ && d.min_args == 1 && d.max_args == Some(1usize) && d.accepts_star == false,
        lookup_builtin("TIME"@) matches Some(d) && d.name@ == "TIME"@ && d.min_args == 1 && d.max_args == Some(1usize) && d.accepts_star == false,
        lookup_builtin("DATETIME"@) matches Some(d) && d.name@ == "DATETIME"@ && d.min_args == 1 && d.max_args == Some(1usize) && d.accepts_star == false,
        lookup_builtin("CURRENT_TIMESTAMP"@) matches Some(d) && d.name@ == "CURRENT_TIMESTAMP"@ && d.min_args == 0 && d.max_args == Some(0usize) && d.accepts_star == false,
        lookup_builtin("CURRENT_DATE"@) matches Some(d) && d.name@ == "CURRENT_DATE"@ && d.min_args == 0 && d.max_args == Some(0usize) && d.accepts_star == false,
        lookup_builtin("CURRENT_TIME"@) matches Some(d) && d.name@ == "CURRENT_TIME"@ && d.min_args == 0 && d.max_args == Some(0usize) && d.accepts_star == false,
        lookup_builtin("ABS"@) matches Some(d) && d.name@ == "ABS"@ && d.min_args == 1 && d.max_args == Some(1usize) && d.accepts_star == false,
        lookup_builtin("ROUND"@) matches Some(d) && d.name@ == "ROUND"@ && d.min_args == 1 && d.max_args == Some(2usize) && d.accepts_star == false,
        lookup_builtin("CEIL"@) matches Some(d) && d.name@ == "CEIL"@ && d.min_args == 1 && d.max_args == Some(1usize) && d.accepts_star == false,
        lookup_builtin("CEILING"@) matches Some(d) && d.name@ == "CEILING"@ && d.min_args == 1 && d.max_args == Some(1usize) && d.accepts_star == false,
        lookup_builtin("FLOOR"@) matches Some(d) && d.name@ == "FLOOR"@ && d.min_args == 1 && d.max_args == Some(1usize) && d.accepts_star == false,
        lookup_builtin("POWER"@) matches Some(d) && d.name@ == "POWER"@ && d.min_args == 2 && d.max_args == Some(2usize) && d.accepts_star == false,
        lookup_builtin("POW"@) matches Some(d) && d.name@ == "POW"@ && d.min_args == 2 && d.max_args == Some(2usize) && d.accepts_star == false,
        lookup_builtin("SQRT"@) matches Some(d) && d.name@ == "SQRT"@ && d.min_args == 1 && d.max_args == Some(1usize) && d.accepts_star == false,
        lookup_builtin("MOD"@) matches Some(d) && d.name@ == "MOD"@ && d.min_args == 2 && d.max_args == Some(2usize) && d.accepts_star == false,
        lookup_builtin("CAST"@) matches Some(d) && d.name@ == "CAST"@ && d.min_args == 1 && d.max_args == Some(1usize) && d.accepts_star == false,
        lookup_builtin("DISTINCT"@) matches Some(d) && d.name@ == "DISTINCT"@ && d.min_args == 1 && d.max_args == Some(1usize) && d.accepts_star == false,
{
    reveal_with_fuel(lookup_from, 34);
    reveal_strlit("COUNT");
    reveal_strlit("SUM");
    reveal_strlit("AVG");
    reveal_strlit("MIN");
    reveal_strlit("MAX");
    reveal_strlit("CONCAT");
    reveal_strlit("UPPER");
    reveal_strlit("LOWER");
    reveal_strlit("LENGTH");
    reveal_strlit("TRIM");
    reveal_strlit("SUBSTRING");
    reveal_strlit("SUBSTR");
    reveal_strlit("COALESCE");
    reveal_strlit("NULLIF");
    reveal_strlit("IFNULL");
    reveal_strlit("NOW");
    reveal_strlit("DATE");
    reveal_strlit("TIME");
    reveal_strlit("DATETIME");
    reveal_strlit("CURRENT_TIMESTAMP");
    reveal_strlit("CURRENT_DATE");
    reveal_strlit("CURRENT_TIME");
    reveal_strlit("ABS");
    reveal_strlit("ROUND");
    reveal_strlit("CEIL");
    reveal_strlit("CEILING");
    reveal_strlit("FLOOR");
    reveal_strlit("POWER");
    reveal_strlit("POW");
    reveal_strlit("SQRT");
    reveal_strlit("MOD");
    reveal_strlit("CAST");
    reveal_strlit("DISTINCT");
    assert("COUNT"@.len() == 5 && "COUNT"@[0] == 'C' && "COUNT"@[1] == 'O' && "COUNT"@[2] == 'U' && "COUNT"@[3] == 'N' && "COUNT"@[4] == 'T');
    assert("SUM"@.len() == 3 && "SUM"@[0] == 'S' && "SUM"@[1] == 'U' && "SUM"@[2] == 'M');
    assert("AVG"@.len() == 3 && "AVG"@[0] == 'A' && "AVG"@[1] == 'V' && "AVG"@[2] == 'G');
    assert("MIN"@.len() == 3 && "MIN"@[0] == 'M' && "MIN"@[1] == 'I' && "MIN"@[2] == 'N');
    assert("MAX"@.len() == 3 && "MAX"@[0] == 'M' && "MAX"@[1] == 'A' && "MAX"@[2] == 'X');
    assert("CONCAT"@.len() == 6 && "CONCAT"@[0] == 'C' && "CONCAT"@[1] == 'O' && "CONCAT"@[2] == 'N' && "CONCAT"@[3] == 'C' && "CONCAT"@[4] == 'A' && "CONCAT"@[5] == 'T');
    assert("UPPER"@.len() == 5 && "UPPER"@[0] == 'U' && "UPPER"@[1] == 'P' && "UPPER"@[2] == 'P' && "UPPER"@[3] == 'E' && "UPPER"@[4] == 'R');
    assert("LOWER"@.len() == 5 && "LOWER"@[0] == 'L' && "LOWER"@[1] == 'O' && "LOWER"@[2] == 'W' && "LOWER"@[3] == 'E' && "LOWER"@[4] == 'R');
    assert("LENGTH"@.len() == 6 && "LENGTH"@[0] == 'L' && "LENGTH"@[1] == 'E' && "LENGTH"@[2] == 'N' && "LENGTH"@[3] == 'G' && "LENGTH"@[4] == 'T' && "LENGTH"@[5] == 'H');
    assert("TRIM"@.len() == 4 && "TRIM"@[0] == 'T' && "TRIM"@[1] == 'R' && "TRIM"@[2] == 'I' && "TRIM"@[3] == 'M');
    assert("SUBSTRING"@.len() == 9 && "SUBSTRING"@[0] == 'S' && "SUBSTRING"@[1] == 'U' && "SUBSTRING"@[2] == 'B' && "SUBSTRING"@[3] == 'S' && "SUBSTRING"@[4] == 'T' && "SUBSTRING"@[5] == 'R' && "SUBSTRING"@[6] == 'I' && "SUBSTRING"@[7] == 'N' && "SUBSTRING"@[8] == 'G');
    assert("SUBSTR"@.len() == 6 && "SUBSTR"@[0] == 'S' && "SUBSTR"@[1] == 'U' && "SUBSTR"@[2] == 'B' && "SUBSTR"@[3] == 'S' && "SUBSTR"@[4] == 'T' && "SUBSTR"@[5] == 'R');
    assert("COALESCE"@.len() == 8 && "COALESCE"@[0] == 'C' && "COALESCE"@[1] == 'O' && "COALESCE"@[2] == 'A' && "COALESCE"@[3] == 'L' && "COALESCE"@[4] == 'E' && "COALESCE"@[5] == 'S' && "COALESCE"@[6] == 'C' && "COALESCE"@[7] == 'E');
    assert("NULLIF"@.len() == 6 && "NULLIF"@[0] == 'N' && "NULLIF"@[1] == 'U' && "NULLIF"@[2] == 'L' && "NULLIF"@[3] == 'L' && "NULLIF"@[4] == 'I' && "NULLIF"@[5] == 'F');
    assert("IFNULL"@.len() == 6 && "IFNULL"@[0] == 'I' && "IFNULL"@[1] == 'F' && "IFNULL"@[2] == 'N' && "IFNULL"@[3] == 'U' && "IFNULL"@[4] == 'L' && "IFNULL"@[5] == 'L');
    assert("NOW"@.len() == 3 && "NOW"@[0] == 'N' && "NOW"@[1] == 'O' && "NOW"@[2] == 'W');
    assert("DATE"@.len() == 4 && "DATE"@[0] == 'D' && "DATE"@[1] == 'A' && "DATE"@[2] == 'T' && "DATE"@[3] == 'E');
    assert("TIME"@.len() == 4 && "TIME"@[0] == 'T' && "TIME"@[1] == 'I' && "TIME"@[2] == 'M' && "TIME"@[3] == 'E');
    assert("DATETIME"@.len() == 8 && "DATETIME"@[0] == 'D' && "DATETIME"@[1] == 'A' && "DATETIME"@[2] == 'T' && "DATETIME"@[3] == 'E' && "DATETIME"@[4] == 'T' && "DATETIME"@[5] == 'I' && "DATETIME"@[6] == 'M' && "DATETIME"@[7] == 'E');
    assert("CURRENT_TIMESTAMP"@.len() == 17 && "CURRENT_TIMESTAMP"@[0] == 'C' && "CURRENT_TIMESTAMP"@[1] == 'U' && "CURRENT_TIMESTAMP"@[2] == 'R' && "CURRENT_TIMESTAMP"@[3] == 'R' && "CURRENT_TIMESTAMP"@[4] == 'E' && "CURRENT_TIMESTAMP"@[5] == 'N' && "CURRENT_TIMESTAMP"@[6] == 'T' && "CURRENT_TIMESTAMP"@[7] == '_' && "CURRENT_TIMESTAMP"@[8] == 'T' && "CURRENT_TIMESTAMP"@[9] == 'I' && "CURRENT_TIMESTAMP"@[10] == 'M' && "CURRENT_TIMESTAMP"@[11] == 'E' && "CURRENT_TIMESTAMP"@[12] == 'S' && "CURRENT_TIMESTAMP"@[13] == 'T' && "CURRENT_TIMESTAMP"@[14] == 'A' && "CURRENT_TIMESTAMP"@[15] == 'M' && "CURRENT_TIMESTAMP"@[16] == 'P');
    assert("CURRENT_DATE"@.len() == 12 && "CURRENT_DATE"@[0] == 'C' && "CURRENT_DATE"@[1] == 'U' && "CURRENT_DATE"@[2] == 'R' && "CURRENT_DATE"@[3] == 'R' && "CURRENT_DATE"@[4] == 'E' && "CURRENT_DATE"@[5] == 'N' && "CURRENT_DATE"@[6] == 'T' && "CURRENT_DATE"@[7] == '_' && "CURRENT_DATE"@[8] == 'D' && "CURRENT_DATE"@[9] == 'A' && "CURRENT_DATE"@[10] == 'T' && "CURRENT_DATE"@[11] == 'E');
    assert("CURRENT_TIME"@.len() == 12 && "CURRENT_TIME"@[0] == 'C' && "CURRENT_TIME"@[1] == 'U' && "CURRENT_TIME"@[2] == 'R' && "CURRENT_TIME"@[3] == 'R' && "CURRENT_TIME"@[4] == 'E' && "CURRENT_TIME"@[5] == 'N' && "CURRENT_TIME"@[6] == 'T' && "CURRENT_TIME"@[7] == '_' && "CURRENT_TIME"@[8] == 'T' && "CURRENT_TIME"@[9] == 'I' && "CURRENT_TIME"@[10] == 'M' && "CURRENT_TIME"@[11] == 'E');
    assert("ABS"@.len() == 3 && "ABS"@[0] == 'A' && "ABS"@[1] == 'B' && "ABS"@[2] == 'S');
    assert("ROUND"@.len() == 5 && "ROUND"@[0] == 'R' && "ROUND"@[1] == 'O' && "ROUND"@[2] == 'U' && "ROUND"@[3] == 'N' && "ROUND"@[4] == 'D');
    assert("CEIL"@.len() == 4 && "CEIL"@[0] == 'C' && "CEIL"@[1] == 'E' && "CEIL"@[2] == 'I' && "CEIL"@[3] == 'L');
    assert("CEILING"@.len() == 7 && "CEILING"@[0] == 'C' && "CEILING"@[1] == 'E' && "CEILING"@[2] == 'I' && "CEILING"@[3] == 'L' && "CEILING"@[4] == 'I' && "CEILING"@[5] == 'N' && "CEILING"@[6] == 'G');
    assert("FLOOR"@.len() == 5 && "FLOOR"@[0] == 'F' && "FLOOR"@[1] == 'L' && "FLOOR"@[2] == 'O' && "FLOOR"@[3] == 'O' && "FLOOR"@[4] == 'R');
    assert("POWER"@.len() == 5 && "POWER"@[0] == 'P' && "POWER"@[1] == 'O' && "POWER"@[2] == 'W' && "POWER"@[3] == 'E' && "POWER"@[4] == 'R');
    assert("POW"@.len() == 3 && "POW"@[0] == 'P' && "POW"@[1] == 'O' && "POW"@[2] == 'W');
    assert("SQRT"@.len() == 4 && "SQRT"@[0] == 'S' && "SQRT"@[1] == 'Q' && "SQRT"@[2] == 'R' && "SQRT"@[3] == 'T');
    assert("MOD"@.len() == 3 && "MOD"@[0] == 'M' && "MOD"@[1] == 'O' && "MOD"@[2] == 'D');
    assert("CAST"@.len() == 4 && "CAST"@[0] == 'C' && "CAST"@[1] == 'A' && "CAST"@[2] == 'S' && "CAST"@[3] == 'T');
    assert("DISTINCT"@.len() == 8 && "DISTINCT"@[0] == 'D' && "DISTINCT"@[1] == 'I' && "DISTINCT"@[2] == 'S' && "DISTINCT"@[3] == 'T' && "DISTINCT"@[4] == 'I' && "DISTINCT"@[5] == 'N' && "DISTINCT"@[6] == 'C' && "DISTINCT"@[7] == 'T');
}

/// The name's upper-case form as `str::to_uppercase` computes it.
pub uninterp spec fn std_to_uppercase(s: Seq<char>) -> Seq<char>;

/// Every character is ASCII.
pub open spec fn is_ascii_text(s: Seq<char>) -> bool {
    forall|i: int| 0 <= i < s.len() ==> (#[trigger] s[i] as u32) < 128
}

/// ASCII upper-casing: `a` to `z` become `A` to `Z`, every other character
/// stays.
pub open spec fn ascii_upper(s: Seq<char>) -> Seq<char> {
    s.map_values(|c: char| if 'a' <= c <= 'z' { ((c as u32) - 32) as char } else { c })
}

/// Calls `str::to_uppercase` (std). The contract names its result
/// [`std_to_uppercase`] of the argument. Of the mapping it states only what
/// the documented Unicode `Uppercase` mapping gives for ASCII text: `a` to `z`
/// become `A` to `Z` and every other ASCII character stays; the mapping of
/// other characters is not stated.
#[verifier::external_body]
fn to_uppercase(s: &str) -> (r: String)
    ensures
        r@ == std_to_uppercase(s@),
        is_ascii_text(s@) ==> r@ == ascii_upper(s@),
{
    s.to_uppercase()
}

/// The built-in function whose name is exactly `upper_name` (the names in the
/// table are upper case).
pub fn find_builtin_fn(upper_name: &str) -> (r: Option<BuiltinFunctionData>)
    ensures
        r == lookup_builtin(upper_name@),
        r matches Some(d) ==> d.name@ == upper_name@,
        r is None <==> forall|j: int| 0 <= j < builtin_table().len() ==> builtin_table()[j].name@
            != upper_name@,
        r matches Some(d) ==> entry_well_formed(d),
{
    proof {
        lemma_lookup_well_formed(upper_name@);
    }
    let table = builtin_functions();
    let mut i: usize = 0;
    proof {
        lemma_lookup_from(table@, upper_name@, 0);
    }
    while i < table.len()
        invariant
            table@ == builtin_table(),
            i <= table.len(),
            lookup_from(table@, upper_name@, i as int) == lookup_from(table@, upper_name@, 0),
        decreases table.len() - i,
    {
        let f = table[i];
        if tokens::str_eq(f.name, upper_name) {
            proof {
                lemma_lookup_well_formed(upper_name@);
            }
            return Some(f);
        }
        i = i + 1;
    }
    None
}

/// The built-in function named `name`, whatever its letter case: the name is
/// upper-cased first.
pub fn get_builtin_fn(name: &str) -> (r: Option<BuiltinFunctionData>)
    ensures
        r == lookup_builtin(std_to_uppercase(name@)),
        is_ascii_text(name@) ==> r == lookup_builtin(ascii_upper(name@)),
        r matches Some(d) ==> entry_well_formed(d),
        r matches Some(d) ==> ascii_upper(d.name@) == d.name@,
{
    proof {
        lemma_lookup_well_formed(std_to_uppercase(name@));
        if let Some(d) = lookup_builtin(std_to_uppercase(name@)) {
            lemma_upper_name_fixed(d.name@);
        }
    }
    let upper_name = to_uppercase(name);
    find_builtin_fn(upper_name.as_str())
}

} // verus!
