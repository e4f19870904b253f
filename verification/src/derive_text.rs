//! The text that the `Update`, `Insert` and `Output` derives write into their
//! implementations: the `SET` list of an update, the column list of an insert
//! and the fields its validity check names, and the column each output field
//! is read back from.
use crate::generated::FormatParam;
use crate::output::joined_alias;
use crate::query_text::QueryText;
use crate::sql_function;
use vstd::prelude::*;
use vstd::string::*;

verus! {

/// One assignment of an update's `SET` list: the column between delimiters,
/// ` = `, and a placeholder.
pub open spec fn set_field_spec(name: Seq<char>) -> Seq<char> {
    "{delimeter}"@ + name + "{delimeter} = {}"@
}

/// The assignments of the fields, separated by `, `.
pub open spec fn fields_set_format(names: Seq<Seq<char>>) -> Seq<char>
    decreases names.len(),
{
    if names.len() == 0 {
        Seq::empty()
    } else if names.len() == 1 {
        set_field_spec(names[0])
    } else {
        fields_set_format(names.drop_last()) + ", "@ + set_field_spec(names.last())
    }
}

/// The placeholders `first, first + 1, ...`, one per field.
pub open spec fn field_placeholders(first: int, count: nat) -> Seq<FormatParam> {
    Seq::new(count, |i: int| FormatParam::Placeholder((first + i) as usize))
}

pub open spec fn names_view(v: Seq<String>) -> Seq<Seq<char>> {
    v.map_values(|s: String| s@)
}

/// The `SET` list that the `Update` derive writes for its fields, in order:
/// `{delimeter}field{delimeter} = {}` joined by `, `, the placeholder of field
/// `i` being parameter `first + i`. The values themselves are bound by the
/// generated implementation, field by field, in the same order.
pub fn update_fields_text(names: &Vec<String>, first: usize) -> (r: QueryText)
    requires
        first + names.len() <= usize::MAX,
    ensures
        r.format@ == fields_set_format(names_view(names@)),
        r.params@ == field_placeholders(first as int, names.len() as nat),
        r.binds@.len() == 0,
        r.checks@.len() == 0,
        r.param_count == first + names.len(),
{
    let ghost v = names_view(names@);
    let mut r = QueryText::starting_at(first);
    let mut i: usize = 0;
    proof {
        reveal_strlit("");
        reveal_strlit(", ");
        reveal_strlit("{delimeter}");
        reveal_strlit("{delimeter} = {}");
        assert(r.format@ =~= fields_set_format(v.take(0)));
        assert(r.params@ =~= field_placeholders(first as int, 0));
    }
    while i < names.len()
        invariant
            i <= names.len(),
            first + names.len() <= usize::MAX,
            v == names_view(names@),
            r.format@ == fields_set_format(v.take(i as int)),
            r.params@ == field_placeholders(first as int, i as nat),
            r.binds@.len() == 0,
            r.checks@.len() == 0,
            r.param_count == first + i,
        decreases names.len() - i,
    {
        assert(v.take(i + 1).drop_last() =~= v.take(i as int));
        assert(v.take(i + 1).last() == names@[i as int]@);
        let ghost before = r.format@;
        if i > 0 {
            r.format.append(", ");
        }
        r.format.append("{delimeter}");
        r.format.append(names[i].as_str());
        r.format.append("{delimeter} = {}");
        r.params.push(FormatParam::Placeholder(first + i));
        r.param_count = r.param_count + 1;
        proof {
            if i == 0 {
                assert(before =~= Seq::<char>::empty());
                assert(r.format@ =~= set_field_spec(v.take(1)[0]));
            } else {
                assert(r.format@ =~= before + ", "@ + set_field_spec(v.take(i + 1).last()));
            }
            assert(r.params@ =~= field_placeholders(first as int, (i + 1) as nat));
        }
        i = i + 1;
    }
    assert(v.take(names.len() as int) =~= v);
    r
}

/// The columns an `Insert` implementation inserts: the struct's fields, in order.
pub fn insert_columns(fields: &Vec<String>) -> (r: Vec<String>)
    ensures
        names_view(r@) == names_view(fields@),
{
    let mut r: Vec<String> = Vec::new();
    let mut i: usize = 0;
    while i < fields.len()
        invariant
            i <= fields.len(),
            names_view(r@) == names_view(fields@).take(i as int),
        decreases fields.len() - i,
    {
        let ghost prev = r@;
        let c = fields[i].clone();
        r.push(c);
        assert(names_view(r@) =~= names_view(prev).push(fields@[i as int]@));
        assert(names_view(r@) =~= names_view(fields@).take(i + 1));
        i = i + 1;
    }
    assert(names_view(fields@).take(fields.len() as int) =~= names_view(fields@));
    r
}

pub open spec fn init_view(v: Seq<(String, bool)>) -> Seq<(Seq<char>, bool)> {
    v.map_values(|p: (String, bool)| (p.0@, p.1))
}

/// The fields that the `Insert` derive's validity check sets when it builds a
/// table value: the fields named by its `default` attributes take their
/// default value (`true`), then each field of the struct is moved in (`false`).
pub open spec fn insert_check_spec(defaults: Seq<Seq<char>>, fields: Seq<Seq<char>>) -> Seq<(Seq<char>, bool)> {
    defaults.map_values(|d: Seq<char>| (d, true)) + fields.map_values(|f: Seq<char>| (f, false))
}

/// The fields of the table value that the `Insert` derive's validity check
/// builds, with whether each takes its default value.
pub fn insert_check_fields(defaults: &Vec<String>, fields: &Vec<String>) -> (r: Vec<(String, bool)>)
    ensures
        init_view(r@) == insert_check_spec(names_view(defaults@), names_view(fields@)),
{
    let mut r: Vec<(String, bool)> = Vec::new();
    let mut i: usize = 0;
    while i < defaults.len()
        invariant
            i <= defaults.len(),
            init_view(r@) == names_view(defaults@).take(i as int).map_values(|d: Seq<char>| (d, true)),
        decreases defaults.len() - i,
    {
        let ghost prev = r@;
        let c = defaults[i].clone();
        r.push((c, true));
        assert(init_view(r@) =~= init_view(prev).push((defaults@[i as int]@, true)));
        assert(init_view(r@) =~= names_view(defaults@).take(i + 1).map_values(|d: Seq<char>| (d, true)));
        i = i + 1;
    }
    let ghost d = init_view(r@);
    assert(names_view(defaults@).take(defaults.len() as int) =~= names_view(defaults@));
    let mut j: usize = 0;
    while j < fields.len()
        invariant
            j <= fields.len(),
            d == names_view(defaults@).map_values(|d: Seq<char>| (d, true)),
            init_view(r@) == d + names_view(fields@).take(j as int).map_values(|f: Seq<char>| (f, false)),
        decreases fields.len() - j,
    {
        let ghost prev = r@;
        let c = fields[j].clone();
        r.push((c, false));
        assert(init_view(r@) =~= init_view(prev).push((fields@[j as int]@, false)));
        assert(init_view(r@) =~= d + names_view(fields@).take(j + 1).map_values(|f: Seq<char>| (f, false)));
        j = j + 1;
    }
    assert(names_view(fields@).take(fields.len() as int) =~= names_view(fields@));
    r
}

/// Where an output field's value comes from.
#[derive(Debug, Clone, Copy, PartialEq, Eq, Structural)]
pub enum FieldSource {
    /// A column of the table, named like the field.
    Plain,
    /// A `#[sql(select = ...)]` expression, selected under an alias.
    Custom,
    /// A column of a joined table (`#[sql(field = Table.column)]`).
    Joined,
}

/// An output field as the row conversion sees it.
#[derive(Debug)]
pub struct ReadField {
    pub name: String,
    /// The field has `#[sql(bytes)]`.
    pub bytes: bool,
    pub source: FieldSource,
}

/// How the row conversion reads one field: the field's index, the column it is
/// read from, and whether the value is decoded from bytes.
#[derive(Debug, PartialEq, Eq)]
pub struct ReadColumn {
    pub field: usize,
    pub column: String,
    pub from_bytes: bool,
}

pub type ReadView = (usize, Seq<char>, bool);

pub open spec fn read_view(c: ReadColumn) -> ReadView {
    (c.field, c.column@, c.from_bytes)
}

pub open spec fn reads_view(v: Seq<ReadColumn>) -> Seq<ReadView> {
    v.map_values(|c: ReadColumn| read_view(c))
}

/// The number of joined fields.
pub open spec fn joined_count(fs: Seq<ReadField>) -> nat
    decreases fs.len(),
{
    if fs.len() == 0 {
        0
    } else {
        joined_count(fs.drop_last()) + if fs.last().source == FieldSource::Joined {
            1nat
        } else {
            0nat
        }
    }
}

/// The reads of the fields of one source, in field order: a plain field from
/// its own name, a custom one from `prefix` and its name, the `j`-th joined one
/// from `___easy_sql_joined_field_j`. Only plain and custom fields are decoded
/// from bytes.
pub open spec fn source_reads(fs: Seq<ReadField>, k: FieldSource, prefix: Seq<char>) -> Seq<ReadView>
    decreases fs.len(),
{
    if fs.len() == 0 {
        Seq::empty()
    } else {
        let rest = source_reads(fs.drop_last(), k, prefix);
        let f = fs.last();
        let i = (fs.len() - 1) as usize;
        if f.source != k {
            rest
        } else {
            match k {
                FieldSource::Plain => rest.push((i, f.name@, f.bytes)),
                FieldSource::Custom => rest.push((i, prefix + f.name@, f.bytes)),
                FieldSource::Joined => rest.push((i, joined_alias(joined_count(fs.drop_last())), false)),
            }
        }
    }
}

/// The reads of the row conversion: plain fields, then custom selects, then
/// joined fields, each group in field order.
pub open spec fn read_plan_spec(fs: Seq<ReadField>, prefix: Seq<char>) -> Seq<ReadView> {
    source_reads(fs, FieldSource::Plain, prefix) + source_reads(fs, FieldSource::Custom, prefix) + source_reads(
        fs,
        FieldSource::Joined,
        prefix,
    )
}

fn push_source_reads(fields: &Vec<ReadField>, k: FieldSource, prefix: &str, out: &mut Vec<ReadColumn>)
    requires
        fields.len() <= usize::MAX,
    ensures
        reads_view(final(out)@) == reads_view(old(out)@) + source_reads(fields@, k, prefix@),
{
    let ghost start = reads_view(out@);
    let mut i: usize = 0;
    let mut joined: usize = 0;
    proof {
        assert(fields@.take(0) =~= Seq::<ReadField>::empty());
        assert(start =~= start + source_reads(fields@.take(0), k, prefix@));
    }
    while i < fields.len()
        invariant
            i <= fields.len(),
            joined <= i,
            joined == joined_count(fields@.take(i as int)),
            reads_view(out@) == start + source_reads(fields@.take(i as int), k, prefix@),
        decreases fields.len() - i,
    {
        let f = &fields[i];
        assert(fields@.take(i + 1).drop_last() =~= fields@.take(i as int));
        assert(fields@.take(i + 1).last() == *f);
        let ghost prev = out@;
        if f.source == k {
            let column = match k {
                FieldSource::Plain => f.name.clone(),
                FieldSource::Custom => {
                    let mut c = String::from_str(prefix);
                    c.append(f.name.as_str());
                    c
                },
                FieldSource::Joined => {
                    let mut c = String::from_str("___easy_sql_joined_field_");
                    let digits = sql_function::usize_to_decimal(joined);
                    c.append(digits.as_str());
                    proof {
                        reveal_strlit("___easy_sql_joined_field_");
                    }
                    c
                },
            };
            let from_bytes = match k {
                FieldSource::Joined => false,
                _ => f.bytes,
            };
            let rc = ReadColumn { field: i, column, from_bytes };
            out.push(rc);
            assert(reads_view(out@) =~= reads_view(prev).push(read_view(rc)));
        }
        if f.source == FieldSource::Joined {
            joined = joined + 1;
        }
        i = i + 1;
    }
    assert(fields@.take(fields.len() as int) =~= fields@);
}

/// How the `Output` derive's row conversion reads each field: plain fields
/// from their own columns, custom selects from their aliases (`prefix` and the
/// field's name), joined fields from `___easy_sql_joined_field_j`, in that
/// order; fields with `#[sql(bytes)]` (plain or custom) are decoded from bytes.
pub fn output_read_plan(fields: &Vec<ReadField>, prefix: &str) -> (r: Vec<ReadColumn>)
    ensures
        reads_view(r@) == read_plan_spec(fields@, prefix@),
{
    let mut r: Vec<ReadColumn> = Vec::new();
    assert(reads_view(r@) =~= Seq::<ReadView>::empty());
    push_source_reads(fields, FieldSource::Plain, prefix, &mut r);
    push_source_reads(fields, FieldSource::Custom, prefix, &mut r);
    push_source_reads(fields, FieldSource::Joined, prefix, &mut r);
    assert(reads_view(r@) =~= read_plan_spec(fields@, prefix@));
    r
}

} // verus!
