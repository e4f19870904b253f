//! The rules that the `Table` derive checks on a struct before it generates
//! anything, and what it gathers from the struct's attributes.
//!
//! The struct must have named fields. Each field may carry `#[sql(primary_key)]`,
//! `#[sql(unique)]`, `#[sql(auto_increment)]` (on one field at most),
//! `#[sql(bytes)]` (store a type that has no column type as bytes),
//! `#[sql(default = expr)]` (once at most) and `#[sql(foreign_key = Table)]` or
//! `#[sql(foreign_key = Table, cascade)]`. There must be a primary key, and a
//! single one when a field auto-increments. The struct carries exactly one
//! `#[sql(version = n)]`, and may rename its table with
//! `#[sql(table_name = "name")]`; the default name is the struct's name in
//! snake case.
//!
//! Attribute values are given as the tokens between `=` and the closing bracket.
use crate::int_lit;
use crate::macro_input::peek_named_ident;
use crate::sql_function;
use crate::syntax;
use crate::syntax::{RustSyntax, Stop};
use crate::tokens;
use crate::tokens::Tok;
use crate::ty_data;
use crate::ty_data::{TyData, TyErrorKind, TypeShape};
use convert_case::{Case, Casing};
use vstd::prelude::*;

verus! {

/// A named field of the struct and its attributes.
#[derive(Debug)]
pub struct TableField {
    pub name: String,
    pub ty: TypeShape,
    pub auto_increment: bool,
    pub primary_key: bool,
    pub unique: bool,
    pub bytes: bool,
    /// The values of the field's `foreign_key` attributes.
    pub foreign_keys: Vec<Vec<Tok>>,
    /// The values of the field's `default` attributes.
    pub defaults: Vec<Vec<Tok>>,
}

/// The fields of the struct.
#[derive(Debug)]
pub enum TableFields {
    Named(Vec<TableField>),
    Unnamed,
    Unit,
}

/// A struct that derives `Table`.
#[derive(Debug)]
pub struct TableStruct {
    pub name: String,
    pub fields: TableFields,
    /// The value of the `table_name` attribute, if any (the first one counts).
    pub table_name: Option<Vec<Tok>>,
    /// The values of the `version` attributes.
    pub versions: Vec<Vec<Tok>>,
}

/// Why the derive refuses the struct; a field is named by its index.
#[derive(Debug, Clone, Copy, PartialEq, Eq, Structural)]
pub enum TableError {
    UnnamedFields,
    UnitStruct,
    InvalidTableName,
    DuplicateAutoIncrement(usize),
    InvalidForeignKey(usize),
    UnsupportedFieldType(usize, TyErrorKind),
    InvalidDefault(usize),
    DuplicateDefault(usize),
    NoPrimaryKey,
    AutoIncrementNeedsSinglePrimaryKey,
    InvalidVersion,
    DuplicateVersion,
    MissingVersion,
}

/// The default value of a column.
#[derive(Debug, Clone, Copy, PartialEq, Eq, Structural)]
pub enum DefaultValue {
    /// No `default` attribute.
    NoDefault,
    /// The attribute's expression, converted into a value of the driver.
    Value,
    /// The attribute's expression, serialized to bytes.
    Binary,
}

/// The fields of a table that reference another table, and whether deleting a
/// row there deletes the referencing rows.
#[derive(Debug, PartialEq, Eq)]
pub struct ForeignKey {
    /// The referenced table's path, as text.
    pub table: String,
    pub fields: Vec<String>,
    pub cascade: bool,
}

/// What the derive gathers from a struct it accepts.
#[derive(Debug)]
pub struct TablePlan {
    pub table_name: String,
    pub primary_keys: Vec<String>,
    pub auto_increment: bool,
    /// Per field, in order.
    pub unique: Vec<bool>,
    /// Per field, in order: the field is stored as bytes.
    pub binary: Vec<bool>,
    /// Per field, in order.
    pub defaults: Vec<DefaultValue>,
    /// One entry per referenced table, in the order the tables are first named.
    pub foreign_keys: Vec<ForeignKey>,
    pub version: i64,
}

/// The struct's name in snake case, as `convert_case` computes it.
pub uninterp spec fn snake_case(name: Seq<char>) -> Seq<char>;

/// Calls `convert_case`'s `to_case(Case::Snake)`. The contract names its result
/// [`snake_case`] of the argument; how words are split is not stated.
#[verifier::external_body]
fn to_snake_case(name: &str) -> (r: String)
    ensures
        r@ == snake_case(name@),
{
    name.to_case(Case::Snake)
}

/// A foreign key as a view: the table's text, the fields' names, the cascade flag.
pub type ForeignKeyView = (Seq<char>, Seq<Seq<char>>, bool);

/// `Path` or `Path, cascade`: the path's text and whether `cascade` is there.
pub open spec fn parse_foreign_key_spec(t: Seq<Tok>) -> Option<(Seq<char>, bool)> {
    let n = t.len() as usize;
    match syntax::parse_rust_spec(t, 0, n, RustSyntax::Path, Stop::Comma) {
        Err(_) => None,
        Ok((_, p)) => if p == n {
            Some((syntax::render_range(t, 0, p as int), false))
        } else if tokens::peek_p1(t, p, n, ',') && peek_named_ident(t, (p + 1) as usize, n, "cascade"@)
            && p + 2 == n {
            Some((syntax::render_range(t, 0, p as int), true))
        } else {
            None
        },
    }
}

/// The index of the foreign key on `key`, or the length when there is none.
pub open spec fn fk_index(fks: Seq<ForeignKeyView>, key: Seq<char>) -> int
    decreases fks.len(),
{
    if fks.len() == 0 {
        0
    } else {
        let j = fk_index(fks.drop_last(), key);
        if j < fks.len() - 1 {
            j
        } else if fks.last().0 == key {
            fks.len() - 1
        } else {
            fks.len() as int
        }
    }
}

/// Adds a referencing field to the foreign key on `key`, creating it if needed.
pub open spec fn fk_add(fks: Seq<ForeignKeyView>, key: Seq<char>, field: Seq<char>, cascade: bool) -> Seq<
    ForeignKeyView,
> {
    let j = fk_index(fks, key);
    if j < fks.len() {
        fks.update(j, (key, fks[j].1.push(field), fks[j].2 || cascade))
    } else {
        fks.push((key, seq![field], cascade))
    }
}

/// The foreign key attributes of field `i` named `field`, added in order.
pub open spec fn field_fks(fks: Seq<ForeignKeyView>, attrs: Seq<Seq<Tok>>, i: usize, field: Seq<char>) -> Result<
    Seq<ForeignKeyView>,
    TableError,
>
    decreases attrs.len(),
{
    if attrs.len() == 0 {
        Ok(fks)
    } else {
        match field_fks(fks, attrs.drop_last(), i, field) {
            Err(e) => Err(e),
            Ok(f) => match parse_foreign_key_spec(attrs.last()) {
                None => Err(TableError::InvalidForeignKey(i)),
                Some((key, cascade)) => Ok(fk_add(f, key, field, cascade)),
            },
        }
    }
}

/// The value of a `default` attribute is not empty. (It must also be a Rust
/// expression to `syn`; that check is made by [`is_default_ok`] and is not
/// part of this statement.)
pub open spec fn default_ok(t: Seq<Tok>) -> bool {
    t.len() > 0
}

/// The text of a `default` attribute's value that `syn` is asked to read as
/// a Rust expression.
pub open spec fn default_text(t: Seq<Tok>) -> Seq<char> {
    syntax::render_range(t, 0, t.len() as int)
}

/// Among the foreign-key attributes `attrs` of field `i`, one that the grammar
/// accepts follows only accepted ones: the place where `syn` can refuse the
/// text of its table path.
pub open spec fn fk_refusal_at(fks: Seq<ForeignKeyView>, attrs: Seq<Seq<Tok>>, i: usize, name: Seq<char>) -> bool {
    exists|k: int|
        0 <= k < attrs.len() && (#[trigger] parse_foreign_key_spec(attrs[k])) is Some && field_fks(
            fks,
            attrs.take(k),
            i,
            name,
        ) is Ok
}

/// `e` can report that `syn` refused the text of field `i`'s `default`
/// expression ([`default_text`]) or of the table path of one of its
/// `foreign_key` attributes: the fields before `i` pass, and field `i` passes
/// every check that comes before the refused one, its grammar included.
pub open spec fn is_syntax_refusal(st: TableStruct, e: TableError) -> bool {
    match st.fields {
        TableFields::Named(fields) => match e {
            TableError::InvalidDefault(i) => i < fields.len() && fields_spec(fields@.take(i as int)) is Ok && {
                let acc = fields_spec(fields@.take(i as int))->Ok_0;
                let f = fields@[i as int];
                &&& !(f.auto_increment && acc.auto_increment)
                &&& field_fks(acc.foreign_keys, f.foreign_keys@.map_values(|v: Vec<Tok>| v@), i, f.name@) is Ok
                &&& ty_data::ty_to_variant_spec(f.ty, f.bytes) is Ok
                &&& f.defaults.len() > 0
                &&& default_ok(f.defaults@[0]@)
            },
            TableError::InvalidForeignKey(i) => i < fields.len() && fields_spec(fields@.take(i as int)) is Ok && {
                let acc = fields_spec(fields@.take(i as int))->Ok_0;
                let f = fields@[i as int];
                &&& !(f.auto_increment && acc.auto_increment)
                &&& fk_refusal_at(acc.foreign_keys, f.foreign_keys@.map_values(|v: Vec<Tok>| v@), i, f.name@)
            },
            _ => false,
        },
        _ => false,
    }
}

/// What the loop over the fields has gathered so far.
pub struct FieldsAcc {
    pub primary_keys: Seq<Seq<char>>,
    pub auto_increment: bool,
    pub unique: Seq<bool>,
    pub binary: Seq<bool>,
    pub defaults: Seq<DefaultValue>,
    pub foreign_keys: Seq<ForeignKeyView>,
}

pub open spec fn no_fields_acc() -> FieldsAcc {
    FieldsAcc {
        primary_keys: Seq::empty(),
        auto_increment: false,
        unique: Seq::empty(),
        binary: Seq::empty(),
        defaults: Seq::empty(),
        foreign_keys: Seq::empty(),
    }
}

/// Field `i` added to what the earlier fields gathered.
pub open spec fn field_step(acc: FieldsAcc, i: usize, f: TableField) -> Result<FieldsAcc, TableError> {
    if f.auto_increment && acc.auto_increment {
        Err(TableError::DuplicateAutoIncrement(i))
    } else {
        match field_fks(acc.foreign_keys, f.foreign_keys@.map_values(|v: Vec<Tok>| v@), i, f.name@) {
            Err(e) => Err(e),
            Ok(fks) => match ty_data::ty_to_variant_spec(f.ty, f.bytes) {
                Err((k, _)) => Err(TableError::UnsupportedFieldType(i, k)),
                Ok(d) => {
                    let binary = d == TyData::Binary;
                    let dv = if f.defaults.len() == 0 {
                        Ok(DefaultValue::NoDefault)
                    } else if !default_ok(f.defaults@[0]@) {
                        Err(TableError::InvalidDefault(i))
                    } else if f.defaults.len() > 1 {
                        Err(TableError::DuplicateDefault(i))
                    } else if binary {
                        Ok(DefaultValue::Binary)
                    } else {
                        Ok(DefaultValue::Value)
                    };
                    match dv {
                        Err(e) => Err(e),
                        Ok(dv) => Ok(
                            FieldsAcc {
                                primary_keys: if f.primary_key {
                                    acc.primary_keys.push(f.name@)
                                } else {
                                    acc.primary_keys
                                },
                                auto_increment: acc.auto_increment || f.auto_increment,
                                unique: acc.unique.push(f.unique),
                                binary: acc.binary.push(binary),
                                defaults: acc.defaults.push(dv),
                                foreign_keys: fks,
                            },
                        ),
                    }
                },
            },
        }
    }
}

/// All fields, in order.
pub open spec fn fields_spec(fields: Seq<TableField>) -> Result<FieldsAcc, TableError>
    decreases fields.len(),
{
    if fields.len() == 0 {
        Ok(no_fields_acc())
    } else {
        match fields_spec(fields.drop_last()) {
            Err(e) => Err(e),
            Ok(acc) => field_step(acc, (fields.len() - 1) as usize, fields.last()),
        }
    }
}

/// The value of the `version` attribute: one integer literal that fits an `i64`.
pub open spec fn version_value(t: Seq<Tok>) -> Option<int> {
    let n = t.len() as usize;
    if t.len() > 0 && int_lit::int_lit_at(t, 0, n) && tokens::lit_len(t, 0, n) == n {
        int_lit::int_lit_i64(t, 0)
    } else {
        None
    }
}

/// The value of the `table_name` attribute: one string literal.
pub open spec fn table_name_value(t: Seq<Tok>) -> Option<Seq<char>> {
    if t.len() == 1 {
        match t[0] {
            Tok::Lit(_, x) => sql_function::lit_str_value(x@),
            _ => None,
        }
    } else {
        None
    }
}

/// The table's name: the attribute's string, or the struct's name in snake case.
pub open spec fn table_name_spec(st: TableStruct) -> Option<Seq<char>> {
    match st.table_name {
        Some(t) => table_name_value(t@),
        None => Some(snake_case(st.name@)),
    }
}

/// What the derive gathers from the struct, as views, or why it refuses it.
pub open spec fn table_spec(st: TableStruct) -> Result<
    (Seq<char>, FieldsAcc, int),
    TableError,
> {
    match st.fields {
        TableFields::Unnamed => Err(TableError::UnnamedFields),
        TableFields::Unit => Err(TableError::UnitStruct),
        TableFields::Named(fields) => match table_name_spec(st) {
            None => Err(TableError::InvalidTableName),
            Some(name) => match fields_spec(fields@) {
                Err(e) => Err(e),
                Ok(acc) => if acc.primary_keys.len() == 0 {
                    Err(TableError::NoPrimaryKey)
                } else if acc.primary_keys.len() != 1 && acc.auto_increment {
                    Err(TableError::AutoIncrementNeedsSinglePrimaryKey)
                } else if st.versions.len() == 0 {
                    Err(TableError::MissingVersion)
                } else {
                    match version_value(st.versions@[0]@) {
                        None => Err(TableError::InvalidVersion),
                        Some(v) => if st.versions.len() > 1 {
                            Err(TableError::DuplicateVersion)
                        } else {
                            Ok((name, acc, v))
                        },
                    }
                },
            },
        },
    }
}

pub open spec fn strings_view(v: Seq<String>) -> Seq<Seq<char>> {
    v.map_values(|x: String| x@)
}

pub open spec fn fk_view(f: ForeignKey) -> ForeignKeyView {
    (f.table@, strings_view(f.fields@), f.cascade)
}

pub open spec fn fks_view(v: Seq<ForeignKey>) -> Seq<ForeignKeyView> {
    v.map_values(|f: ForeignKey| fk_view(f))
}

/// Parses the value of a `foreign_key` attribute. Where the grammar gives no
/// path, the result is `None`; where it gives one, the result is that path
/// unless `syn` refuses its text.
pub fn parse_foreign_key(t: &Vec<Tok>) -> (r: Option<(String, bool)>)
    ensures
        r matches Some((k, c)) ==> parse_foreign_key_spec(t@) == Some((k@, c)),
        parse_foreign_key_spec(t@) is None ==> r is None,
{
    let n = t.len();
    match syntax::parse_rust(t, 0, n, RustSyntax::Path, Stop::Comma) {
        Err(_) => None,
        Ok((_, p)) => {
            if p == n {
                Some((syntax::render_tokens(t, 0, p), false))
            } else if tokens::exec_peek_p1(t, p, n, ',') && n - p == 2 && match &t[p + 1] {
                Tok::Ident(x) => tokens::str_eq(x.as_str(), "cascade"),
                _ => false,
            } {
                Some((syntax::render_tokens(t, 0, p), true))
            } else {
                None
            }
        },
    }
}

/// The first foreign key on `key` is at `j` when no earlier one is on it.
proof fn lemma_fk_index(fks: Seq<ForeignKeyView>, key: Seq<char>, j: int)
    requires
        0 <= j <= fks.len(),
        forall|k: int| 0 <= k < j ==> fks[k].0 != key,
        j < fks.len() ==> fks[j].0 == key,
    ensures
        fk_index(fks, key) == j,
    decreases fks.len(),
{
    if fks.len() > 0 {
        let prev = fks.drop_last();
        assert forall|k: int| 0 <= k < prev.len() implies prev[k] == fks[k] by {}
        if j < fks.len() - 1 {
            lemma_fk_index(prev, key, j);
        } else {
            lemma_fk_index(prev, key, prev.len() as int);
        }
    }
}

/// Adds field `field` to the foreign key on `key`, creating it if needed.
fn add_foreign_key(fks: &mut Vec<ForeignKey>, key: String, field: &String, cascade: bool)
    ensures
        fks_view(final(fks)@) == fk_add(fks_view(old(fks)@), key@, field@, cascade),
{
    let ghost v = fks_view(fks@);
    let mut j: usize = 0;
    while j < fks.len()
        invariant
            j <= fks.len(),
            fks@ == old(fks)@,
            v == fks_view(fks@),
            forall|k: int| 0 <= k < j ==> v[k].0 != key@,
        decreases fks.len() - j,
    {
        if tokens::str_eq(fks[j].table.as_str(), key.as_str()) {
            proof {
                lemma_fk_index(v, key@, j as int);
            }
            let mut f = fks.remove(j);
            f.fields.push(field.clone());
            f.cascade = f.cascade || cascade;
            fks.insert(j, f);
            proof {
                assert(strings_view(f.fields@) =~= v[j as int].1.push(field@));
                assert(fks_view(fks@) =~= v.update(j as int, (key@, v[j as int].1.push(field@), v[j as int].2 || cascade)));
            }
            return;
        }
        j = j + 1;
    }
    proof {
        lemma_fk_index(v, key@, v.len() as int);
    }
    let mut fields: Vec<String> = Vec::new();
    fields.push(field.clone());
    let f = ForeignKey { table: key, fields, cascade };
    fks.push(f);
    proof {
        assert(strings_view(f.fields@) =~= seq![field@]);
        assert(fks_view(fks@) =~= v.push((key@, seq![field@], cascade)));
    }
}

/// The value of a `default` attribute is not empty and `syn` reads its text
/// ([`default_text`]) as a Rust expression.
fn is_default_ok(t: &Vec<Tok>) -> (r: bool)
    ensures
        r ==> default_ok(t@),
        !default_ok(t@) ==> !r,
{
    if t.len() == 0 {
        return false;
    }
    let text = syntax::render_tokens(t, 0, t.len());
    syntax::text_is_expr(text.as_str())
}

/// Parses the value of the `version` attribute.
fn parse_version(t: &Vec<Tok>) -> (r: Option<i64>)
    ensures
        r matches Some(v) ==> version_value(t@) == Some(v as int),
        r is None ==> version_value(t@) is None,
{
    let n = t.len();
    if n == 0 || !int_lit::int_lit_at_exec(t, 0, n) || tokens::exec_lit_len(t, 0, n) != n {
        return None;
    }
    match int_lit::parse_int_lit_i64(t, 0, n) {
        Ok((v, _)) => Some(v),
        Err(_) => None,
    }
}

/// Parses the value of the `table_name` attribute.
fn parse_table_name(t: &Vec<Tok>) -> (r: Option<String>)
    ensures
        r matches Some(v) ==> table_name_value(t@) == Some(v@),
        r is None ==> table_name_value(t@) is None,
{
    if t.len() != 1 {
        return None;
    }
    match &t[0] {
        Tok::Lit(_, x) => sql_function::string_literal_value(x.as_str()),
        _ => None,
    }
}

/// Adds the foreign keys of field `i` named `name`, in order.
fn add_field_foreign_keys(fks: &mut Vec<ForeignKey>, attrs: &Vec<Vec<Tok>>, i: usize, name: &String) -> (r: Result<
    (),
    TableError,
>)
    ensures
        r is Ok ==> field_fks(fks_view(old(fks)@), attrs@.map_values(|v: Vec<Tok>| v@), i, name@)
            == Ok::<Seq<ForeignKeyView>, TableError>(fks_view(final(fks)@)),
        r matches Err(e) ==> field_fks(fks_view(old(fks)@), attrs@.map_values(|v: Vec<Tok>| v@), i, name@)
            == Err::<Seq<ForeignKeyView>, TableError>(e) || (e == TableError::InvalidForeignKey(i) && fk_refusal_at(
            fks_view(old(fks)@),
            attrs@.map_values(|v: Vec<Tok>| v@),
            i,
            name@,
        )),
{
    let ghost start = fks_view(fks@);
    let ghost all = attrs@.map_values(|v: Vec<Tok>| v@);
    let mut k: usize = 0;
    while k < attrs.len()
        invariant
            k <= attrs.len(),
            start == fks_view(old(fks)@),
            all == attrs@.map_values(|v: Vec<Tok>| v@),
            field_fks(start, all.take(k as int), i, name@) == Ok::<Seq<ForeignKeyView>, TableError>(
                fks_view(fks@),
            ),
        decreases attrs.len() - k,
    {
        assert(all.take(k + 1).drop_last() =~= all.take(k as int));
        assert(all.take(k + 1).last() == attrs@[k as int]@);
        match parse_foreign_key(&attrs[k]) {
            None => {
                proof {
                    if parse_foreign_key_spec(all[k as int]) is None {
                        lemma_field_fks_err_stays(start, all, k as int + 1, i, name@);
                    } else {
                        assert(parse_foreign_key_spec(all[k as int]) is Some);
                    }
                }
                return Err(TableError::InvalidForeignKey(i));
            },
            Some((key, cascade)) => {
                add_foreign_key(fks, key, name, cascade);
            },
        }
        k = k + 1;
    }
    assert(all.take(attrs.len() as int) =~= all);
    Ok(())
}

/// Once the foreign keys of a prefix fail, those of the whole list fail alike.
proof fn lemma_field_fks_err_stays(start: Seq<ForeignKeyView>, all: Seq<Seq<Tok>>, k: int, i: usize, name: Seq<char>)
    requires
        0 <= k <= all.len(),
        field_fks(start, all.take(k), i, name) is Err,
    ensures
        field_fks(start, all, i, name) == field_fks(start, all.take(k), i, name),
    decreases all.len() - k,
{
    if k < all.len() {
        assert(all.take(k + 1).drop_last() =~= all.take(k));
        lemma_field_fks_err_stays(start, all, k + 1, i, name);
    } else {
        assert(all.take(k) =~= all);
    }
}

/// Once a prefix of the fields fails, the whole list fails alike.
proof fn lemma_fields_err_stays(fields: Seq<TableField>, k: int)
    requires
        0 <= k <= fields.len(),
        fields_spec(fields.take(k)) is Err,
    ensures
        fields_spec(fields) == fields_spec(fields.take(k)),
    decreases fields.len() - k,
{
    if k < fields.len() {
        assert(fields.take(k + 1).drop_last() =~= fields.take(k));
        lemma_fields_err_stays(fields, k + 1);
    } else {
        assert(fields.take(k) =~= fields);
    }
}

/// The checks of the `Table` derive, and what it gathers from the struct. The
/// result is the one [`table_spec`] gives, except that the call may instead
/// fail with `InvalidDefault` or `InvalidForeignKey` where `syn` refuses the
/// text of a default expression or a foreign-key path.
pub fn sql_table(st: &TableStruct) -> (r: Result<TablePlan, TableError>)
    ensures
        r matches Err(e) && is_syntax_refusal(*st, e) || match table_spec(*st) {
            Err(e) => r == Err::<TablePlan, TableError>(e),
            Ok((name, acc, v)) => r matches Ok(p) && p.table_name@ == name && strings_view(
                p.primary_keys@,
            ) == acc.primary_keys && p.auto_increment == acc.auto_increment && p.unique@
                == acc.unique && p.binary@ == acc.binary && p.defaults@ == acc.defaults && fks_view(
                p.foreign_keys@,
            ) == acc.foreign_keys && p.version == v,
        },
{
    let fields = match &st.fields {
        TableFields::Unnamed => {
            return Err(TableError::UnnamedFields);
        },
        TableFields::Unit => {
            return Err(TableError::UnitStruct);
        },
        TableFields::Named(f) => f,
    };
    let table_name = match &st.table_name {
        Some(t) => match parse_table_name(t) {
            Some(n) => n,
            None => {
                return Err(TableError::InvalidTableName);
            },
        },
        None => to_snake_case(st.name.as_str()),
    };
    let mut primary_keys: Vec<String> = Vec::new();
    let mut auto_increment = false;
    let mut unique: Vec<bool> = Vec::new();
    let mut binary: Vec<bool> = Vec::new();
    let mut defaults: Vec<DefaultValue> = Vec::new();
    let mut foreign_keys: Vec<ForeignKey> = Vec::new();
    let mut i: usize = 0;
    proof {
        assert(fields@.take(0) =~= Seq::<TableField>::empty());
        assert(strings_view(primary_keys@) =~= Seq::<Seq<char>>::empty());
        assert(fks_view(foreign_keys@) =~= Seq::<ForeignKeyView>::empty());
    }
    while i < fields.len()
        invariant
            i <= fields.len(),
            st.fields == TableFields::Named(*fields),
            table_name_spec(*st) == Some(table_name@),
            fields_spec(fields@.take(i as int)) == Ok::<FieldsAcc, TableError>(
                FieldsAcc {
                    primary_keys: strings_view(primary_keys@),
                    auto_increment,
                    unique: unique@,
                    binary: binary@,
                    defaults: defaults@,
                    foreign_keys: fks_view(foreign_keys@),
                },
            ),
        decreases fields.len() - i,
    {
        let f = &fields[i];
        let ghost acc = FieldsAcc {
            primary_keys: strings_view(primary_keys@),
            auto_increment,
            unique: unique@,
            binary: binary@,
            defaults: defaults@,
            foreign_keys: fks_view(foreign_keys@),
        };
        assert(fields@.take(i + 1).drop_last() =~= fields@.take(i as int));
        assert(fields@.take(i + 1).last() == *f);
        if f.auto_increment && auto_increment {
            proof {
                lemma_fields_err_stays(fields@, i + 1);
            }
            return Err(TableError::DuplicateAutoIncrement(i));
        }
        match add_field_foreign_keys(&mut foreign_keys, &f.foreign_keys, i, &f.name) {
            Err(e) => {
                proof {
                    if field_fks(acc.foreign_keys, f.foreign_keys@.map_values(|v: Vec<Tok>| v@), i, f.name@) is Err {
                        lemma_fields_err_stays(fields@, i + 1);
                    }
                }
                return Err(e);
            },
            Ok(()) => {},
        }
        let is_binary = match ty_data::ty_to_variant(&f.ty, f.bytes) {
            Err(e) => {
                proof {
                    lemma_fields_err_stays(fields@, i + 1);
                }
                return Err(TableError::UnsupportedFieldType(i, e.kind));
            },
            Ok(d) => d.bytes(),
        };
        let dv = if f.defaults.len() == 0 {
            DefaultValue::NoDefault
        } else if !is_default_ok(&f.defaults[0]) {
            proof {
                if !default_ok(f.defaults@[0]@) {
                    lemma_fields_err_stays(fields@, i + 1);
                }
            }
            return Err(TableError::InvalidDefault(i));
        } else if f.defaults.len() > 1 {
            proof {
                lemma_fields_err_stays(fields@, i + 1);
            }
            return Err(TableError::DuplicateDefault(i));
        } else if is_binary {
            DefaultValue::Binary
        } else {
            DefaultValue::Value
        };
        if f.primary_key {
            primary_keys.push(f.name.clone());
        }
        auto_increment = auto_increment || f.auto_increment;
        unique.push(f.unique);
        binary.push(is_binary);
        defaults.push(dv);
        proof {
            if f.primary_key {
                assert(strings_view(primary_keys@) =~= acc.primary_keys.push(f.name@));
            }
        }
        i = i + 1;
    }
    assert(fields@.take(fields.len() as int) =~= fields@);
    if primary_keys.len() == 0 {
        return Err(TableError::NoPrimaryKey);
    }
    if primary_keys.len() != 1 && auto_increment {
        return Err(TableError::AutoIncrementNeedsSinglePrimaryKey);
    }
    if st.versions.len() == 0 {
        return Err(TableError::MissingVersion);
    }
    let version = match parse_version(&st.versions[0]) {
        None => {
            return Err(TableError::InvalidVersion);
        },
        Some(v) => v,
    };
    if st.versions.len() > 1 {
        return Err(TableError::DuplicateVersion);
    }
    Ok(TablePlan { table_name, primary_keys, auto_increment, unique, binary, defaults, foreign_keys, version })
}

/// Every primary key is the name of a field marked `primary_key`.
pub open spec fn keys_are_marked_fields(pks: Seq<Seq<char>>, fields: Seq<TableField>) -> bool {
    forall|k: int| 0 <= k < pks.len() ==> exists|i: int| 0 <= i < fields.len() && is_marked_key(fields[i], #[trigger] pks[k])
}

pub open spec fn is_marked_key(f: TableField, name: Seq<char>) -> bool {
    f.primary_key && f.name@ == name
}

/// Some field is marked `auto_increment`.
pub open spec fn some_field_auto_increments(fields: Seq<TableField>) -> bool {
    exists|i: int| 0 <= i < fields.len() && #[trigger] fields[i].auto_increment
}

/// The field loop gathers one entry per field in each per-field list, and
/// only the names of fields marked `primary_key` as primary keys.
proof fn lemma_fields_acc(fields: Seq<TableField>)
    requires
        fields_spec(fields) is Ok,
    ensures
        fields_spec(fields)->Ok_0.unique.len() == fields.len(),
        fields_spec(fields)->Ok_0.binary.len() == fields.len(),
        fields_spec(fields)->Ok_0.defaults.len() == fields.len(),
        keys_are_marked_fields(fields_spec(fields)->Ok_0.primary_keys, fields),
        fields_spec(fields)->Ok_0.auto_increment == some_field_auto_increments(fields),
    decreases fields.len(),
{
    if fields.len() > 0 {
        let prev = fields.drop_last();
        lemma_fields_acc(prev);
        let acc0 = fields_spec(prev)->Ok_0;
        let acc = fields_spec(fields)->Ok_0;
        let last = fields.len() - 1;
        assert forall|i: int| 0 <= i < prev.len() implies prev[i] == fields[i] by {}
        assert forall|k: int| 0 <= k < acc.primary_keys.len() implies exists|i: int|
            0 <= i < fields.len() && is_marked_key(fields[i], #[trigger] acc.primary_keys[k]) by {
            if k < acc0.primary_keys.len() {
                assert(acc.primary_keys[k] == acc0.primary_keys[k]);
                let i = choose|i: int| 0 <= i < prev.len() && is_marked_key(prev[i], acc0.primary_keys[k]);
                assert(fields[i] == prev[i]);
                assert(is_marked_key(fields[i], acc.primary_keys[k]));
            } else {
                assert(is_marked_key(fields[last], acc.primary_keys[k]));
            }
        }
        if acc.auto_increment {
            if acc0.auto_increment {
                let i = choose|i: int| 0 <= i < prev.len() && #[trigger] prev[i].auto_increment;
                assert(fields[i].auto_increment);
            } else {
                assert(fields[last].auto_increment);
            }
        }
        if some_field_auto_increments(fields) {
            let i = choose|i: int| 0 <= i < fields.len() && #[trigger] fields[i].auto_increment;
            if i < last {
                assert(prev[i].auto_increment);
            }
        }
    }
}

/// A struct that the derive accepts has named fields and at least one primary
/// key, exactly one when a field auto-increments; every primary key is the
/// name of a field marked `primary_key`; the per-field lists have one entry
/// per field; and there is exactly one version attribute.
pub proof fn lemma_accepted_table(st: TableStruct)
    requires
        table_spec(st) is Ok,
    ensures
        st.fields is Named,
        table_spec(st)->Ok_0.1.primary_keys.len() >= 1,
        table_spec(st)->Ok_0.1.auto_increment ==> table_spec(st)->Ok_0.1.primary_keys.len() == 1,
        table_spec(st)->Ok_0.1.unique.len() == st.fields->Named_0@.len(),
        table_spec(st)->Ok_0.1.binary.len() == st.fields->Named_0@.len(),
        table_spec(st)->Ok_0.1.defaults.len() == st.fields->Named_0@.len(),
        keys_are_marked_fields(table_spec(st)->Ok_0.1.primary_keys, st.fields->Named_0@),
        table_spec(st)->Ok_0.1.auto_increment == some_field_auto_increments(st.fields->Named_0@),
        st.versions.len() == 1,
        version_value(st.versions@[0]@) == Some(table_spec(st)->Ok_0.2),
{
    match st.fields {
        TableFields::Named(fields) => {
            lemma_fields_acc(fields@);
        },
        _ => {},
    }
}

/// No two foreign keys reference the same table.
pub open spec fn distinct_tables(fks: Seq<ForeignKeyView>) -> bool {
    forall|a: int, b: int| 0 <= a < b < fks.len() ==> #[trigger] fks[a].0 != #[trigger] fks[b].0
}

proof fn lemma_fk_index_props(fks: Seq<ForeignKeyView>, key: Seq<char>)
    ensures
        0 <= fk_index(fks, key) <= fks.len(),
        fk_index(fks, key) < fks.len() ==> fks[fk_index(fks, key)].0 == key,
        forall|k: int| 0 <= k < fk_index(fks, key) ==> fks[k].0 != key,
    decreases fks.len(),
{
    if fks.len() > 0 {
        let prev = fks.drop_last();
        lemma_fk_index_props(prev, key);
        assert forall|k: int| 0 <= k < prev.len() implies prev[k] == fks[k] by {}
    }
}

proof fn lemma_fk_add_distinct(fks: Seq<ForeignKeyView>, key: Seq<char>, field: Seq<char>, cascade: bool)
    requires
        distinct_tables(fks),
    ensures
        distinct_tables(fk_add(fks, key, field, cascade)),
{
    lemma_fk_index_props(fks, key);
    let r = fk_add(fks, key, field, cascade);
    let j = fk_index(fks, key);
    if j < fks.len() {
        assert forall|a: int, b: int| 0 <= a < b < r.len() implies #[trigger] r[a].0 != #[trigger] r[b].0 by {
            assert(r[a].0 == fks[a].0);
            assert(r[b].0 == fks[b].0);
        }
    } else {
        assert forall|a: int, b: int| 0 <= a < b < r.len() implies #[trigger] r[a].0 != #[trigger] r[b].0 by {
            if b == fks.len() {
                assert(r[b].0 == key);
                assert(r[a].0 == fks[a].0);
            } else {
                assert(r[a].0 == fks[a].0 && r[b].0 == fks[b].0);
            }
        }
    }
}

proof fn lemma_field_fks_distinct(fks: Seq<ForeignKeyView>, attrs: Seq<Seq<Tok>>, i: usize, field: Seq<char>)
    requires
        distinct_tables(fks),
        field_fks(fks, attrs, i, field) is Ok,
    ensures
        distinct_tables(field_fks(fks, attrs, i, field)->Ok_0),
    decreases attrs.len(),
{
    if attrs.len() > 0 {
        lemma_field_fks_distinct(fks, attrs.drop_last(), i, field);
        let f = field_fks(fks, attrs.drop_last(), i, field)->Ok_0;
        let (key, cascade) = parse_foreign_key_spec(attrs.last())->Some_0;
        lemma_fk_add_distinct(f, key, field, cascade);
    }
}

proof fn lemma_fields_fks_distinct(fields: Seq<TableField>)
    requires
        fields_spec(fields) is Ok,
    ensures
        distinct_tables(fields_spec(fields)->Ok_0.foreign_keys),
    decreases fields.len(),
{
    if fields.len() > 0 {
        let prev = fields.drop_last();
        lemma_fields_fks_distinct(prev);
        let acc = fields_spec(prev)->Ok_0;
        let f = fields.last();
        lemma_field_fks_distinct(
            acc.foreign_keys,
            f.foreign_keys@.map_values(|v: Vec<Tok>| v@),
            (fields.len() - 1) as usize,
            f.name@,
        );
    }
}

/// The derive gathers one foreign key per referenced table: no two of them
/// name the same table.
pub proof fn lemma_foreign_keys_distinct(st: TableStruct)
    requires
        table_spec(st) is Ok,
    ensures
        distinct_tables(table_spec(st)->Ok_0.1.foreign_keys),
{
    match st.fields {
        TableFields::Named(fields) => lemma_fields_fks_distinct(fields@),
        _ => {},
    }
}

} // verus!
