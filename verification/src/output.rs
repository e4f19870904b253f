//! The `Output` derive: a struct whose fields are read from a query's rows.
//!
//! A field is read from the column of its name, unless it carries
//! `#[sql(field = Table.column)]` (at most once), which reads it from a column
//! of a joined table. The struct names the table it reads from with exactly one
//! `#[sql(table = Table)]`. The select list names the plain columns first, then
//! each joined column under the alias `___easy_sql_joined_field_<i>`.
use crate::sql_function;
use crate::syntax;
use crate::syntax::{RustSyntax, Stop};
use crate::tokens;
use crate::tokens::Tok;
use crate::ty_data::{PathArgs, TypeShape};
use vstd::prelude::*;
use vstd::string::*;

verus! {

/// A named field of the struct and its attributes.
#[derive(Debug)]
pub struct OutputField {
    pub name: String,
    pub ty: TypeShape,
    /// The values of the field's `field` attributes.
    pub joined: Vec<Vec<Tok>>,
}

/// The fields of the struct.
#[derive(Debug)]
pub enum OutputFields {
    Named(Vec<OutputField>),
    Unnamed,
    Unit,
}

/// A struct that derives `Output`.
#[derive(Debug)]
pub struct OutputStruct {
    pub fields: OutputFields,
    /// The values of the struct's `table` attributes.
    pub tables: Vec<Vec<Tok>>,
}

/// Why the derive refuses the struct; a field is named by its index.
#[derive(Debug, Clone, Copy, PartialEq, Eq, Structural)]
pub enum OutputError {
    UnnamedFields,
    UnitStruct,
    DuplicateFieldAttribute(usize),
    InvalidFieldAttribute(usize),
    DuplicateTable,
    MissingTable,
}

/// A field read from a joined table's column.
#[derive(Debug, PartialEq, Eq)]
pub struct JoinedField {
    /// The field's index in the struct.
    pub field: usize,
    /// The joined table's path, as text.
    pub table: String,
    pub table_field: String,
}

/// The fields of the struct split into plain ones (by index) and joined ones,
/// and the `table` attribute's value (its index among the attributes).
#[derive(Debug)]
pub struct OutputPlan {
    pub plain: Vec<usize>,
    pub joined: Vec<JoinedField>,
    pub table: usize,
}

pub type JoinedView = (usize, Seq<char>, Seq<char>);

pub open spec fn joined_view(j: JoinedField) -> JoinedView {
    (j.field, j.table@, j.table_field@)
}

/// `Table.column` filling the value: the table's text and the column's name.
pub open spec fn parse_field_attr_spec(t: Seq<Tok>) -> Option<(Seq<char>, Seq<char>)> {
    let n = t.len() as usize;
    match syntax::parse_rust_spec(t, 0, n, RustSyntax::Path, Stop::Char('.')) {
        Err(_) => None,
        Ok((_, p)) => if p + 2 == n && tokens::peek_p1(t, p, n, '.') && tokens::peek_ident(t, (p + 1) as usize, n) {
            match t[p + 1] {
                Tok::Ident(x) => Some((syntax::render_range(t, 0, p as int), x@)),
                _ => None,
            }
        } else {
            None
        },
    }
}

/// The fields from the first on, split, or why the derive refuses them.
pub open spec fn split_fields_spec(fields: Seq<OutputField>) -> Result<(Seq<usize>, Seq<JoinedView>), OutputError>
    decreases fields.len(),
{
    if fields.len() == 0 {
        Ok((Seq::empty(), Seq::empty()))
    } else {
        let i = (fields.len() - 1) as usize;
        let f = fields.last();
        match split_fields_spec(fields.drop_last()) {
            Err(e) => Err(e),
            Ok((plain, joined)) => if f.joined.len() > 1 {
                Err(OutputError::DuplicateFieldAttribute(i))
            } else if f.joined.len() == 1 {
                match parse_field_attr_spec(f.joined@[0]@) {
                    None => Err(OutputError::InvalidFieldAttribute(i)),
                    Some((table, column)) => Ok((plain, joined.push((i, table, column)))),
                }
            } else {
                Ok((plain.push(i), joined))
            },
        }
    }
}

/// What the derive gathers from the struct, or why it refuses it.
pub open spec fn output_spec(st: OutputStruct) -> Result<(Seq<usize>, Seq<JoinedView>, usize), OutputError> {
    match st.fields {
        OutputFields::Unnamed => Err(OutputError::UnnamedFields),
        OutputFields::Unit => Err(OutputError::UnitStruct),
        OutputFields::Named(fields) => match split_fields_spec(fields@) {
            Err(e) => Err(e),
            Ok((plain, joined)) => if st.tables.len() > 1 {
                Err(OutputError::DuplicateTable)
            } else if st.tables.len() == 0 {
                Err(OutputError::MissingTable)
            } else {
                Ok((plain, joined, 0))
            },
        },
    }
}

/// Parses the value of a `field` attribute. Where the grammar gives a value,
/// the result is that value unless `syn` refuses the text of the table path.
pub fn parse_field_attr(t: &Vec<Tok>) -> (r: Option<(String, String)>)
    ensures
        r matches Some((a, b)) ==> parse_field_attr_spec(t@) == Some((a@, b@)),
        parse_field_attr_spec(t@) is None ==> r is None,
{
    let n = t.len();
    match syntax::parse_rust(t, 0, n, RustSyntax::Path, Stop::Char('.')) {
        Err(_) => None,
        Ok((_, p)) => {
            if n - p == 2 && tokens::exec_peek_p1(t, p, n, '.') && tokens::exec_peek_ident(t, p + 1, n) {
                match &t[p + 1] {
                    Tok::Ident(x) => Some((syntax::render_tokens(t, 0, p), x.clone())),
                    _ => None,
                }
            } else {
                None
            }
        },
    }
}

/// Once a prefix of the fields fails, the whole list fails alike.
proof fn lemma_split_err_stays(fields: Seq<OutputField>, k: int)
    requires
        0 <= k <= fields.len(),
        split_fields_spec(fields.take(k)) is Err,
    ensures
        split_fields_spec(fields) == split_fields_spec(fields.take(k)),
    decreases fields.len() - k,
{
    if k < fields.len() {
        assert(fields.take(k + 1).drop_last() =~= fields.take(k));
        lemma_split_err_stays(fields, k + 1);
    } else {
        assert(fields.take(k) =~= fields);
    }
}

/// `e` can report that `syn` refused the table path in the `field` attribute of
/// field `i`: the fields before `i` pass, and field `i` has one such attribute.
pub open spec fn is_syntax_refusal(st: OutputStruct, e: OutputError) -> bool {
    match (st.fields, e) {
        (OutputFields::Named(fields), OutputError::InvalidFieldAttribute(i)) => i < fields.len()
            && fields@[i as int].joined.len() == 1 && split_fields_spec(fields@.take(i as int)) is Ok,
        _ => false,
    }
}

/// The checks of the `Output` derive, and how it splits the fields. The result
/// is the one [`output_spec`] gives, except that the call may instead fail with
/// `InvalidFieldAttribute` where `syn` refuses the table path of a `field`
/// attribute.
pub fn output(st: &OutputStruct) -> (r: Result<OutputPlan, OutputError>)
    ensures
        r matches Err(e) && is_syntax_refusal(*st, e) || match output_spec(*st) {
            Err(e) => r == Err::<OutputPlan, OutputError>(e),
            Ok((plain, joined, t)) => r matches Ok(p) && p.plain@ == plain && p.joined@.map_values(
                |j: JoinedField| joined_view(j),
            ) == joined && p.table == t,
        },
{
    let fields = match &st.fields {
        OutputFields::Unnamed => {
            return Err(OutputError::UnnamedFields);
        },
        OutputFields::Unit => {
            return Err(OutputError::UnitStruct);
        },
        OutputFields::Named(f) => f,
    };
    let mut plain: Vec<usize> = Vec::new();
    let mut joined: Vec<JoinedField> = Vec::new();
    let mut i: usize = 0;
    proof {
        assert(fields@.take(0) =~= Seq::<OutputField>::empty());
        assert(joined@.map_values(|j: JoinedField| joined_view(j)) =~= Seq::<JoinedView>::empty());
    }
    while i < fields.len()
        invariant
            i <= fields.len(),
            st.fields == OutputFields::Named(*fields),
            split_fields_spec(fields@.take(i as int)) == Ok::<(Seq<usize>, Seq<JoinedView>), OutputError>(
                (plain@, joined@.map_values(|j: JoinedField| joined_view(j))),
            ),
        decreases fields.len() - i,
    {
        let f = &fields[i];
        assert(fields@.take(i + 1).drop_last() =~= fields@.take(i as int));
        assert(fields@.take(i + 1).last() == *f);
        if f.joined.len() > 1 {
            proof {
                lemma_split_err_stays(fields@, i + 1);
            }
            return Err(OutputError::DuplicateFieldAttribute(i));
        } else if f.joined.len() == 1 {
            match parse_field_attr(&f.joined[0]) {
                None => {
                    proof {
                        if parse_field_attr_spec(f.joined@[0]@) is None {
                            lemma_split_err_stays(fields@, i + 1);
                        }
                    }
                    return Err(OutputError::InvalidFieldAttribute(i));
                },
                Some((table, column)) => {
                    let ghost prev = joined@;
                    joined.push(JoinedField { field: i, table, table_field: column });
                    assert(joined@.map_values(|j: JoinedField| joined_view(j)) =~= prev.map_values(
                        |j: JoinedField| joined_view(j),
                    ).push((i, table@, column@)));
                },
            }
        } else {
            plain.push(i);
        }
        i = i + 1;
    }
    assert(fields@.take(fields.len() as int) =~= fields@);
    if st.tables.len() > 1 {
        return Err(OutputError::DuplicateTable);
    }
    if st.tables.len() == 0 {
        return Err(OutputError::MissingTable);
    }
    Ok(OutputPlan { plain, joined, table: 0 })
}

/// The select list of the plain columns: each name between delimiters, joined
/// by `, `.
pub open spec fn select_list_spec(names: Seq<Seq<char>>) -> Seq<char>
    decreases names.len(),
{
    if names.len() == 0 {
        Seq::empty()
    } else if names.len() == 1 {
        "{delimeter}"@ + names[0] + "{delimeter}"@
    } else {
        select_list_spec(names.drop_last()) + ", "@ + "{delimeter}"@ + names.last() + "{delimeter}"@
    }
}

/// The select list of the plain columns, as a format string whose named
/// argument `delimeter` is the driver's identifier delimiter.
pub fn select_list(names: &Vec<String>) -> (r: String)
    ensures
        r@ == select_list_spec(names@.map_values(|x: String| x@)),
{
    let ghost v = names@.map_values(|x: String| x@);
    let mut r = String::new();
    let mut i: usize = 0;
    proof {
        reveal_strlit("");
    }
    while i < names.len()
        invariant
            i <= names.len(),
            v == names@.map_values(|x: String| x@),
            r@ == select_list_spec(v.take(i as int)),
        decreases names.len() - i,
    {
        assert(v.take(i + 1).drop_last() =~= v.take(i as int));
        assert(v.take(i + 1).last() == names@[i as int]@);
        if i > 0 {
            r.append(", ");
        } else {
            assert(r@ =~= Seq::<char>::empty());
        }
        r.append("{delimeter}");
        r.append(names[i].as_str());
        r.append("{delimeter}");
        proof {
            if i == 0 {
                assert(r@ =~= "{delimeter}"@ + v.take(1)[0] + "{delimeter}"@);
            } else {
                assert(r@ =~= select_list_spec(v.take(i as int)) + ", "@ + "{delimeter}"@ + v.take(
                    i + 1,
                ).last() + "{delimeter}"@);
            }
        }
        i = i + 1;
    }
    assert(v.take(names.len() as int) =~= v);
    r
}

/// The alias of joined column `i`.
pub open spec fn joined_alias(i: nat) -> Seq<char> {
    "___easy_sql_joined_field_"@ + sql_function::decimal(i)
}

/// The format string that selects joined column `i` (named `column`) under its
/// alias; it takes the joined table's name as its one argument. A comma comes
/// first unless it is the first column of the list.
pub open spec fn joined_select_spec(i: nat, column: Seq<char>, plain_empty: bool) -> Seq<char> {
    (if i == 0 && plain_empty {
        ""@
    } else {
        ", "@
    }) + "{delimeter}{}{delimeter}.{delimeter}"@ + column + "{delimeter} AS "@ + joined_alias(i)
}

/// The format string that selects joined column `i`.
pub fn joined_select(i: usize, column: &str, plain_empty: bool) -> (r: String)
    ensures
        r@ == joined_select_spec(i as nat, column@, plain_empty),
{
    let mut r = if i == 0 && plain_empty {
        String::from_str("")
    } else {
        String::from_str(", ")
    };
    r.append("{delimeter}{}{delimeter}.{delimeter}");
    r.append(column);
    r.append("{delimeter} AS ");
    r.append("___easy_sql_joined_field_");
    let digits = sql_function::usize_to_decimal(i);
    r.append(digits.as_str());
    proof {
        reveal_strlit("___easy_sql_joined_field_");
        reveal_strlit("{delimeter} AS ");
    }
    assert(r@ =~= joined_select_spec(i as nat, column@, plain_empty));
    r
}

/// Whether a joined field's type is an `Option` (its last segment is `Option`
/// with a generic argument); `None` for a type that is not a path, which the
/// derive rejects with a compile error in the generated code.
pub open spec fn joined_is_option_spec(ty: TypeShape) -> Option<bool> {
    match ty {
        TypeShape::Path(name, args) => Some(
            (name matches Some(n) && n@ == "Option"@) && (args matches PathArgs::AngleBracketed(a) && a.len() > 0),
        ),
        _ => None,
    }
}

/// Whether a joined field's type is an `Option`.
pub fn joined_is_option(ty: &TypeShape) -> (r: Option<bool>)
    ensures
        r == joined_is_option_spec(*ty),
{
    match ty {
        TypeShape::Path(name, args) => {
            let named_option = match name {
                Some(n) => tokens::str_eq(n.as_str(), "Option"),
                None => false,
            };
            let has_arg = match args {
                PathArgs::AngleBracketed(a) => a.len() > 0,
                _ => false,
            };
            Some(named_option && has_arg)
        },
        _ => None,
    }
}

/// Field `i` is read from a joined table.
pub open spec fn is_joined_index(joined: Seq<JoinedView>, i: usize) -> bool {
    exists|j: int| 0 <= j < joined.len() && #[trigger] joined[j].0 == i
}

/// The split keeps the fields' order and sends every field to exactly one side:
/// a field without a `field` attribute to the plain columns, one with it to
/// the joined columns, each field's index once.
pub proof fn lemma_split_partitions(fields: Seq<OutputField>)
    requires
        fields.len() <= usize::MAX,
        split_fields_spec(fields) is Ok,
    ensures
        ({
            let (plain, joined) = split_fields_spec(fields)->Ok_0;
            &&& plain.len() + joined.len() == fields.len()
            &&& forall|a: int, b: int| 0 <= a < b < plain.len() ==> #[trigger] plain[a] < #[trigger] plain[b]
            &&& forall|a: int, b: int| 0 <= a < b < joined.len() ==> #[trigger] joined[a].0 < #[trigger] joined[b].0
            &&& forall|i: usize| i < fields.len() ==> (plain.contains(i) <==> fields[i as int].joined.len() == 0)
            &&& forall|i: usize| i < fields.len() ==> (is_joined_index(joined, i) <==> fields[i as int].joined.len() == 1)
            &&& forall|k: int| 0 <= k < plain.len() ==> plain[k] < fields.len()
            &&& forall|k: int| 0 <= k < joined.len() ==> joined[k].0 < fields.len()
        }),
    decreases fields.len(),
{
    if fields.len() > 0 {
        let prev = fields.drop_last();
        lemma_split_partitions(prev);
        let n = (fields.len() - 1) as usize;
        let (p0, j0) = split_fields_spec(prev)->Ok_0;
        let (p1, j1) = split_fields_spec(fields)->Ok_0;
        let f = fields.last();
        assert(f == fields[n as int]);
        if f.joined.len() == 0 {
            assert(p1 == p0.push(n) && j1 == j0);
        } else {
            assert(f.joined.len() == 1);
            assert(p1 == p0);
            assert(j1.len() == j0.len() + 1 && j1[j0.len() as int].0 == n);
            assert forall|k: int| 0 <= k < j0.len() implies j1[k] == j0[k] by {}
        }
        assert forall|k: int| 0 <= k < prev.len() implies prev[k] == fields[k] by {}
        assert forall|i: usize| i < fields.len() implies (p1.contains(i) <==> fields[i as int].joined.len() == 0) by {
            if i < n {
                assert(prev[i as int] == fields[i as int]);
                if p1.contains(i) && !p0.contains(i) {
                    let k = choose|k: int| 0 <= k < p1.len() && p1[k] == i;
                    assert(k == p0.len());
                }
                if p0.contains(i) {
                    let k = choose|k: int| 0 <= k < p0.len() && p0[k] == i;
                    assert(p1[k] == i);
                }
            } else {
                if fields[i as int].joined.len() == 0 {
                    assert(p1[p0.len() as int] == i);
                } else if p1.contains(i) {
                    let k = choose|k: int| 0 <= k < p1.len() && p1[k] == i;
                    assert(p0[k] < n);
                }
            }
        }
        assert forall|i: usize| i < fields.len() implies (is_joined_index(j1, i) <==> fields[i as int].joined.len() == 1) by {
            if i < n {
                assert(prev[i as int] == fields[i as int]);
                if is_joined_index(j1, i) && !is_joined_index(j0, i) {
                    let k = choose|k: int| 0 <= k < j1.len() && #[trigger] j1[k].0 == i;
                    assert(k == j0.len());
                }
                if is_joined_index(j0, i) {
                    let k = choose|k: int| 0 <= k < j0.len() && #[trigger] j0[k].0 == i;
                    assert(j1[k].0 == i);
                }
            } else {
                if fields[i as int].joined.len() == 1 {
                    assert(j1[j0.len() as int].0 == i);
                } else if is_joined_index(j1, i) {
                    let k = choose|k: int| 0 <= k < j1.len() && #[trigger] j1[k].0 == i;
                    assert(j0[k].0 < n);
                }
            }
        }
    }
}

} // verus!
