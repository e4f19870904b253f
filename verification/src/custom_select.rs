//! The decisions of the `Output` derive about `#[sql(select = ...)]` fields:
//! at most one such attribute per field, the arguments `arg0, arg1, ...` that
//! the expressions use must have no gap, and the select trait the struct gets.
use vstd::prelude::*;
use vstd::string::*;

verus! {

/// Why the derive refuses the custom selects; a field is named by its index.
#[derive(Debug, Clone, Copy, PartialEq, Eq, Structural)]
pub enum SelectError {
    /// The field has more than one `select` attribute.
    DuplicateSelect(usize),
    /// The least argument number that is not used while a greater one is.
    MissingArgument(usize),
}

/// How the struct selects its columns.
#[derive(Debug, Clone, Copy, PartialEq, Eq, Structural)]
pub enum SelectTrait {
    /// Without arguments (`NormalSelect`).
    Normal,
    /// With the arguments of its custom selects (`WithArgsSelect`).
    WithArgs,
}

/// What the derive decides about the custom selects.
#[derive(Debug, PartialEq, Eq)]
pub struct SelectPlan {
    /// The fields with a custom select, in order.
    pub custom: Vec<usize>,
    /// The other fields, in order.
    pub regular: Vec<usize>,
    pub select_trait: SelectTrait,
    /// The number of arguments the select takes.
    pub arg_count: usize,
    /// The plain select delegates to the custom select list (custom selects
    /// exist and take no argument).
    pub delegate: bool,
}

/// Field `i` has one custom select, whose expression uses argument `k`.
pub open spec fn uses(counts: Seq<usize>, args: Seq<Seq<usize>>, i: int, k: int) -> bool {
    &&& 0 <= i < counts.len()
    &&& counts[i] == 1
    &&& args[i].contains(k as usize)
    &&& 0 <= k <= usize::MAX
}

/// Some custom select uses argument `k`.
pub open spec fn used(counts: Seq<usize>, args: Seq<Seq<usize>>, k: int) -> bool {
    exists|i: int| #[trigger] uses(counts, args, i, k)
}

/// The indices `i` in order at which `keep(i)` holds.
pub open spec fn indices_where(n: nat, keep: spec_fn(int) -> bool) -> Seq<usize>
    decreases n,
{
    if n == 0 {
        Seq::empty()
    } else {
        let rest = indices_where((n - 1) as nat, keep);
        if keep(n - 1) {
            rest.push((n - 1) as usize)
        } else {
            rest
        }
    }
}

/// The custom select fields and the arguments of their expressions: for each
/// field the number of its `select` attributes and the argument numbers its
/// expression uses.
pub fn output_select(counts: &Vec<usize>, args: &Vec<Vec<usize>>) -> (r: Result<SelectPlan, SelectError>)
    requires
        counts.len() == args.len(),
        counts.len() <= usize::MAX,
        forall|i: int, j: int| 0 <= i < args.len() && 0 <= j < args@[i].len() ==> args@[i]@[j] < usize::MAX,
    ensures
        ({
            let c = counts@;
            let a = args@.map_values(|v: Vec<usize>| v@);
            &&& (exists|i: int| 0 <= i < c.len() && c[i] > 1) ==> (r matches Err(SelectError::DuplicateSelect(i))
                && i < c.len() && c[i as int] > 1 && forall|j: int| 0 <= j < i ==> c[j] <= 1)
            &&& (forall|i: int| 0 <= i < c.len() ==> c[i] <= 1) ==> match r {
                Err(SelectError::MissingArgument(k)) => !used(c, a, k as int) && (exists|m: int| m > k && used(c, a, m))
                    && forall|j: int| 0 <= j < k ==> used(c, a, j),
                Err(SelectError::DuplicateSelect(_)) => false,
                Ok(p) => {
                    &&& forall|k: int| 0 <= k < p.arg_count ==> used(c, a, k)
                    &&& forall|k: int| k >= p.arg_count ==> !used(c, a, k)
                    &&& (p.select_trait == SelectTrait::WithArgs <==> p.arg_count > 0)
                    &&& p.custom@ == indices_where(c.len(), |i: int| c[i] == 1)
                    &&& p.regular@ == indices_where(c.len(), |i: int| c[i] == 0)
                    &&& (p.delegate <==> (p.custom.len() > 0 && p.arg_count == 0))
                },
            }
        }),
{
    let ghost c = counts@;
    let ghost a = args@.map_values(|v: Vec<usize>| v@);
    let mut i: usize = 0;
    while i < counts.len()
        invariant
            i <= counts.len(),
            c == counts@,
            forall|j: int| 0 <= j < i ==> c[j] <= 1,
        decreases counts.len() - i,
    {
        if counts[i] > 1 {
            return Err(SelectError::DuplicateSelect(i));
        }
        i = i + 1;
    }
    let mut custom: Vec<usize> = Vec::new();
    let mut regular: Vec<usize> = Vec::new();
    let mut bound: usize = 0;
    i = 0;
    while i < counts.len()
        invariant
            i <= counts.len(),
            c == counts@,
            a == args@.map_values(|v: Vec<usize>| v@),
            counts.len() == args.len(),
            forall|j: int| 0 <= j < c.len() ==> c[j] <= 1,
            forall|p: int, q: int| 0 <= p < args.len() && 0 <= q < args@[p].len() ==> args@[p]@[q] < usize::MAX,
            custom@ == indices_where(i as nat, |j: int| c[j] == 1),
            regular@ == indices_where(i as nat, |j: int| c[j] == 0),
            forall|j: int, k: int| 0 <= j < i && uses(c, a, j, k) ==> k < bound,
            bound > 0 ==> used(c, a, bound - 1),
        decreases counts.len() - i,
    {
        if counts[i] == 1 {
            custom.push(i);
            let v = &args[i];
            let mut q: usize = 0;
            while q < v.len()
                invariant
                    q <= v.len(),
                    i < counts.len(),
                    counts.len() == args.len(),
                    counts@[i as int] == 1,
                    c == counts@,
                    a == args@.map_values(|v: Vec<usize>| v@),
                    v@ == args@[i as int]@,
                    forall|t: int| 0 <= t < v.len() ==> v@[t] < usize::MAX,
                    forall|j: int, k: int| 0 <= j < i && uses(c, a, j, k) ==> k < bound,
                    forall|t: int| 0 <= t < q ==> v@[t] < bound,
                    bound > 0 ==> used(c, a, bound - 1),
                decreases v.len() - q,
            {
                if v[q] >= bound {
                    bound = v[q] + 1;
                    assert(a[i as int] == v@);
                    assert(uses(c, a, i as int, bound - 1));
                }
                q = q + 1;
            }
            assert forall|j: int, k: int| 0 <= j < i + 1 && uses(c, a, j, k) implies k < bound by {
                if j == i {
                    assert(a[i as int] == v@);
                    assert(v@.contains(k as usize));
                    let t = choose|t: int| 0 <= t < v@.len() && v@[t] == k as usize;
                    assert(v@[t] < bound);
                }
            }
        } else {
            regular.push(i);
        }
        i = i + 1;
    }
    let mut present: Vec<bool> = Vec::new();
    let mut k: usize = 0;
    while k < bound
        invariant
            k <= bound,
            present.len() == k,
            c == counts@,
            a == args@.map_values(|v: Vec<usize>| v@),
            forall|j: int| 0 <= j < c.len() ==> c[j] <= 1,
            custom@ == indices_where(c.len(), |j: int| c[j] == 1),
            regular@ == indices_where(c.len(), |j: int| c[j] == 0),
            bound > 0 ==> used(c, a, bound - 1),
            forall|j: int, t: int| 0 <= j < c.len() && uses(c, a, j, t) ==> t < bound,
            forall|t: int| 0 <= t < k ==> present@[t] == false,
        decreases bound - k,
    {
        present.push(false);
        k = k + 1;
    }
    i = 0;
    while i < counts.len()
        invariant
            i <= counts.len(),
            c == counts@,
            a == args@.map_values(|v: Vec<usize>| v@),
            counts.len() == args.len(),
            present.len() == bound,
            forall|j: int| 0 <= j < c.len() ==> c[j] <= 1,
            custom@ == indices_where(c.len(), |j: int| c[j] == 1),
            regular@ == indices_where(c.len(), |j: int| c[j] == 0),
            bound > 0 ==> used(c, a, bound - 1),
            forall|j: int, k: int| 0 <= j < c.len() && uses(c, a, j, k) ==> k < bound,
            forall|t: int| 0 <= t < bound ==> (present@[t] <==> exists|j: int| 0 <= j < i && uses(c, a, j, t)),
        decreases counts.len() - i,
    {
        if counts[i] == 1 {
            let v = &args[i];
            let mut q: usize = 0;
            while q < v.len()
                invariant
                    q <= v.len(),
                    i < counts.len(),
                    counts.len() == args.len(),
                    counts@[i as int] == 1,
                    c == counts@,
                    a == args@.map_values(|v: Vec<usize>| v@),
                    v@ == args@[i as int]@,
                    present.len() == bound,
                    forall|j: int, k: int| 0 <= j < c.len() && uses(c, a, j, k) ==> k < bound,
                    forall|t: int| 0 <= t < bound ==> (present@[t] <==> (exists|j: int| 0 <= j < i && uses(c, a, j, t))
                        || exists|s: int| 0 <= s < q && v@[s] == t),
                decreases v.len() - q,
            {
                assert(a[i as int] == v@);
                assert(uses(c, a, i as int, v@[q as int] as int));
                present.set(v[q], true);
                q = q + 1;
            }
            assert forall|t: int| 0 <= t < bound implies (present@[t] <==> exists|j: int| 0 <= j < i + 1 && uses(c, a, j, t)) by {
                assert(a[i as int] == v@);
                if exists|s: int| 0 <= s < v@.len() && v@[s] == t {
                    assert(uses(c, a, i as int, t));
                }
                if uses(c, a, i as int, t) {
                    assert(v@.contains(t as usize));
                }
            }
        } else {
            assert forall|t: int| 0 <= t < bound implies (present@[t] <==> exists|j: int| 0 <= j < i + 1 && uses(c, a, j, t)) by {
                if uses(c, a, i as int, t) {}
            }
        }
        i = i + 1;
    }
    assert forall|t: int| 0 <= t < bound implies (present@[t] <==> used(c, a, t)) by {
        if used(c, a, t) {
            let j = choose|j: int| uses(c, a, j, t);
            assert(uses(c, a, j, t));
        }
    }
    assert forall|t: int| t >= bound implies !used(c, a, t) by {
        if used(c, a, t) {
            let j = choose|j: int| uses(c, a, j, t);
            assert(uses(c, a, j, t));
        }
    }
    k = 0;
    while k < bound
        invariant
            k <= bound,
            present.len() == bound,
            c == counts@,
            a == args@.map_values(|v: Vec<usize>| v@),
            forall|j: int| 0 <= j < c.len() ==> c[j] <= 1,
            custom@ == indices_where(c.len(), |j: int| c[j] == 1),
            regular@ == indices_where(c.len(), |j: int| c[j] == 0),
            bound > 0 ==> used(c, a, bound - 1),
            forall|t: int| 0 <= t < bound ==> (present@[t] <==> used(c, a, t)),
            forall|t: int| t >= bound ==> !used(c, a, t),
            forall|t: int| 0 <= t < k ==> present@[t],
        decreases bound - k,
    {
        if !present[k] {
            assert(used(c, a, (bound - 1) as int));
            assert(present@[(bound - 1) as int]);
            assert(used(c, a, (bound - 1) as int) && bound - 1 > k);
            return Err(SelectError::MissingArgument(k));
        }
        k = k + 1;
    }
    let select_trait = if bound > 0 {
        SelectTrait::WithArgs
    } else {
        SelectTrait::Normal
    };
    let delegate = custom.len() > 0 && bound == 0;
    Ok(SelectPlan { custom, regular, select_trait, arg_count: bound, delegate })
}

/// The select-list entry of a custom select: the expression's text (the
/// format argument), ` AS `, and the alias between delimiters.
pub open spec fn custom_select_part_spec(alias: Seq<char>) -> Seq<char> {
    "{} AS {delimeter}"@ + alias + "{delimeter}"@
}

/// The select-list entry of a custom select under `alias`.
pub fn custom_select_part(alias: &str) -> (r: String)
    ensures
        r@ == custom_select_part_spec(alias@),
{
    let mut r = String::from_str("{} AS {delimeter}");
    r.append(alias);
    r.append("{delimeter}");
    proof {
        reveal_strlit("{} AS {delimeter}");
        reveal_strlit("{delimeter}");
    }
    r
}

} // verus!
