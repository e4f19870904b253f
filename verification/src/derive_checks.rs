//! The checks that the `Insert` and `Update` derives make on a struct.
//!
//! Both need named fields and exactly one `#[sql(table = Table)]`. `Insert`
//! also reads `#[sql(default = field, ...)]`: the table's fields that the
//! inserted struct does not have and that take their default value.
use crate::tokens;
use crate::tokens::Tok;
use vstd::prelude::*;

verus! {

/// The shape of a struct's fields.
#[derive(Debug, Clone, Copy, PartialEq, Eq, Structural)]
pub enum StructShape {
    Named,
    Unnamed,
    Unit,
}

/// Why a derive refuses the struct.
#[derive(Debug, Clone, Copy, PartialEq, Eq, Structural)]
pub enum DeriveError {
    UnnamedFields,
    UnitStruct,
    DuplicateTable,
    MissingTable,
    /// The `default` attribute at this index is not a list of field names.
    InvalidDefaults(usize),
}

/// The shape and the `table` attributes: the index of the one table attribute.
pub open spec fn table_attr_spec(shape: StructShape, tables: nat) -> Result<usize, DeriveError> {
    match shape {
        StructShape::Unnamed => Err(DeriveError::UnnamedFields),
        StructShape::Unit => Err(DeriveError::UnitStruct),
        StructShape::Named => if tables > 1 {
            Err(DeriveError::DuplicateTable)
        } else if tables == 0 {
            Err(DeriveError::MissingTable)
        } else {
            Ok(0)
        },
    }
}

/// The checks of the `Update` derive: the index of its table attribute.
pub fn sql_update(shape: StructShape, tables: &Vec<Vec<Tok>>) -> (r: Result<usize, DeriveError>)
    ensures
        r == table_attr_spec(shape, tables.len() as nat),
{
    match shape {
        StructShape::Unnamed => Err(DeriveError::UnnamedFields),
        StructShape::Unit => Err(DeriveError::UnitStruct),
        StructShape::Named => {
            if tables.len() > 1 {
                Err(DeriveError::DuplicateTable)
            } else if tables.len() == 0 {
                Err(DeriveError::MissingTable)
            } else {
                Ok(0)
            }
        },
    }
}

/// Identifiers separated by commas, a trailing comma allowed, filling the
/// tokens from `pos` on; `acc` holds those read so far.
pub open spec fn ident_list_spec(t: Seq<Tok>, pos: int, acc: Seq<Seq<char>>) -> Option<Seq<Seq<char>>>
    decreases t.len() - pos,
{
    if pos >= t.len() {
        Some(acc)
    } else {
        match t[pos] {
            Tok::Ident(x) => if tokens::rust_keyword(x@) {
                None
            } else if pos + 1 >= t.len() {
                Some(acc.push(x@))
            } else if tokens::tok_is_punct(t[pos + 1], ',') {
                ident_list_spec(t, pos + 2, acc.push(x@))
            } else {
                None
            },
            _ => None,
        }
    }
}

/// The field names of the `default` attributes, in order.
pub open spec fn defaults_spec(attrs: Seq<Seq<Tok>>) -> Result<Seq<Seq<char>>, DeriveError>
    decreases attrs.len(),
{
    if attrs.len() == 0 {
        Ok(Seq::empty())
    } else {
        match defaults_spec(attrs.drop_last()) {
            Err(e) => Err(e),
            Ok(names) => match ident_list_spec(attrs.last(), 0, Seq::empty()) {
                None => Err(DeriveError::InvalidDefaults((attrs.len() - 1) as usize)),
                Some(l) => Ok(names + l),
            },
        }
    }
}

/// Reads the field names of one `default` attribute, appending them to `names`.
fn read_ident_list(t: &Vec<Tok>, names: &mut Vec<String>) -> (ok: bool)
    ensures
        ok ==> ident_list_spec(t@, 0, Seq::empty()) == Some(
            final(names)@.map_values(|x: String| x@).skip(old(names)@.len() as int),
        ),
        ok ==> final(names)@.take(old(names)@.len() as int) == old(names)@,
        ok ==> final(names)@.len() >= old(names)@.len(),
        !ok ==> ident_list_spec(t@, 0, Seq::empty()) is None,
{
    let ghost start = names@;
    let mut pos: usize = 0;
    proof {
        assert(names@.map_values(|x: String| x@).skip(start.len() as int) =~= Seq::<Seq<char>>::empty());
    }
    while pos < t.len()
        invariant
            pos <= t.len(),
            start == old(names)@,
            names@.take(start.len() as int) == start,
            names@.len() >= start.len(),
            ident_list_spec(t@, 0, Seq::empty()) == ident_list_spec(
                t@,
                pos as int,
                names@.map_values(|x: String| x@).skip(start.len() as int),
            ),
        decreases t.len() - pos,
    {
        let ghost prev = names@;
        match &t[pos] {
            Tok::Ident(x) => {
                if tokens::is_rust_keyword(x.as_str()) {
                    return false;
                }
                names.push(x.clone());
                proof {
                    assert(names@ =~= prev.push(t@[pos as int]->Ident_0));
                    assert(names@.map_values(|x: String| x@).skip(start.len() as int) =~= prev.map_values(
                        |x: String| x@,
                    ).skip(start.len() as int).push(x@));
                    assert(names@.take(start.len() as int) =~= prev.take(start.len() as int));
                }
                if pos + 1 >= t.len() {
                    return true;
                }
                if !tokens::exec_tok_is_punct(&t[pos + 1], ',') {
                    return false;
                }
                pos = pos + 2;
            },
            _ => {
                return false;
            },
        }
    }
    true
}

/// The checks of the `Insert` derive: the index of its table attribute and the
/// fields named by its `default` attributes.
pub fn sql_insert(shape: StructShape, tables: &Vec<Vec<Tok>>, defaults: &Vec<Vec<Tok>>) -> (r: Result<
    (usize, Vec<String>),
    DeriveError,
>)
    ensures
        match table_attr_spec(shape, tables.len() as nat) {
            Err(e) => r == Err::<(usize, Vec<String>), DeriveError>(e),
            Ok(t) => match defaults_spec(defaults@.map_values(|v: Vec<Tok>| v@)) {
                Err(e) => r == Err::<(usize, Vec<String>), DeriveError>(e),
                Ok(names) => r matches Ok((x, v)) && x == t && v@.map_values(|s: String| s@) == names,
            },
        },
{
    let t = sql_update(shape, tables)?;
    let ghost all = defaults@.map_values(|v: Vec<Tok>| v@);
    let mut names: Vec<String> = Vec::new();
    let mut i: usize = 0;
    proof {
        assert(all.take(0) =~= Seq::<Seq<Tok>>::empty());
        assert(names@.map_values(|s: String| s@) =~= Seq::<Seq<char>>::empty());
    }
    while i < defaults.len()
        invariant
            i <= defaults.len(),
            all == defaults@.map_values(|v: Vec<Tok>| v@),
            t == 0,
            table_attr_spec(shape, tables.len() as nat) == Ok::<usize, DeriveError>(t),
            defaults_spec(all.take(i as int)) == Ok::<Seq<Seq<char>>, DeriveError>(
                names@.map_values(|s: String| s@),
            ),
        decreases defaults.len() - i,
    {
        assert(all.take(i + 1).drop_last() =~= all.take(i as int));
        assert(all.take(i + 1).last() == defaults@[i as int]@);
        let ghost prev = names@;
        if !read_ident_list(&defaults[i], &mut names) {
            proof {
                lemma_defaults_err_stays(all, i + 1);
            }
            return Err(DeriveError::InvalidDefaults(i));
        }
        proof {
            let added = names@.map_values(|s: String| s@).skip(prev.len() as int);
            assert(names@ =~= names@.take(prev.len() as int) + names@.skip(prev.len() as int));
            assert(names@.map_values(|s: String| s@) =~= prev.map_values(|s: String| s@) + added);
        }
        i = i + 1;
    }
    assert(all.take(defaults.len() as int) =~= all);
    Ok((t, names))
}

/// Once the attributes of a prefix fail, the whole list fails alike.
proof fn lemma_defaults_err_stays(all: Seq<Seq<Tok>>, k: int)
    requires
        0 <= k <= all.len(),
        defaults_spec(all.take(k)) is Err,
    ensures
        defaults_spec(all) == defaults_spec(all.take(k)),
    decreases all.len() - k,
{
    if k < all.len() {
        assert(all.take(k + 1).drop_last() =~= all.take(k));
        lemma_defaults_err_stays(all, k + 1);
    } else {
        assert(all.take(k) =~= all);
    }
}

/// The checks of the `DatabaseSetup` derive: every struct but a unit struct.
pub fn database_setup(shape: StructShape) -> (r: Result<(), DeriveError>)
    ensures
        shape == StructShape::Unit ==> r == Err::<(), DeriveError>(DeriveError::UnitStruct),
        shape != StructShape::Unit ==> r == Ok::<(), DeriveError>(()),
{
    match shape {
        StructShape::Unit => Err(DeriveError::UnitStruct),
        _ => Ok(()),
    }
}

} // verus!
