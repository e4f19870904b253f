//! How a field's Rust type is bound as a query parameter: converted by reference,
//! converted by value, or serialized to bytes (allowed by `#[sql(bytes)]`).
use crate::tokens;
use vstd::prelude::*;
use vstd::string::*;

verus! {

/// How a value of a field's type becomes a parameter.
#[derive(Debug, Clone, Copy, PartialEq, Eq, Structural)]
pub enum TyData {
    /// Serialized to bytes.
    Binary,
    /// Converted by value (`self.field.into()`).
    IntoNoRef,
    /// Converted by reference (`(&self.field).into()`).
    IntoRef,
}

impl TyData {
    /// The value is stored as bytes.
    pub fn bytes(&self) -> (r: bool)
        ensures
            r == (*self == TyData::Binary),
    {
        match self {
            TyData::Binary => true,
            TyData::IntoNoRef => false,
            TyData::IntoRef => false,
        }
    }
}

/// Why a type cannot be bound.
#[derive(Debug, Clone, Copy, PartialEq, Eq, Structural)]
pub enum TyErrorKind {
    /// `Vec` of an element type that needs `#[sql(bytes)]`.
    UnsupportedVecArgument,
    /// `Vec`, `PgRange` or `Range` without a usable generic argument.
    MissingGenericArgument,
    /// `PgRange` of an element type that needs `#[sql(bytes)]`.
    UnsupportedPgRangeArgument,
    /// `Range` of an element type that needs `#[sql(bytes)]`.
    UnsupportedRangeArgument,
    /// A type that needs `#[sql(bytes)]`.
    UnknownType,
    /// An array type.
    ArrayType,
    /// A reference type.
    ReferenceType,
    /// A path without segments.
    EmptyPath,
    /// Another kind of type (tuple, pointer, function, ...).
    UnsupportedType,
}

/// The error and the name it is about (a type or generic argument name).
#[derive(Debug, Clone, PartialEq, Eq)]
pub struct TyError {
    pub kind: TyErrorKind,
    pub name: String,
}

/// The types bound by reference whatever `#[sql(bytes)]` says.
pub open spec fn direct_type(t: Seq<char>) -> bool {
    ||| t == "IpAddr"@ || t == "bool"@ || t == "f32"@ || t == "f64"@ || t == "i8"@
    ||| t == "i16"@ || t == "i32"@ || t == "i64"@ || t == "String"@ || t == "PgInterval"@
    ||| t == "Array"@ || t == "NaiveDate"@ || t == "NaiveDateTime"@ || t == "NaiveTime"@
    ||| t == "Uuid"@ || t == "Decimal"@ || t == "BigDecimal"@
}

/// The element types a range is bound with directly.
pub open spec fn range_element_type(t: Seq<char>) -> bool {
    ||| t == "i32"@ || t == "i64"@ || t == "NaiveDate"@ || t == "NaiveDateTime"@
    ||| t == "BigDecimal"@ || t == "Decimal"@
}

/// How the type named `ty` (with its first generic argument's name) is bound.
pub open spec fn ty_name_into_data_spec(ty: Seq<char>, arg: Option<Seq<char>>, bytes_allowed: bool) -> Result<
    TyData,
    (TyErrorKind, Seq<char>),
>
    decreases (if arg is Some {
        1nat
    } else {
        0nat
    }),
{
    if ty == "Vec"@ {
        match arg {
            Some(a) => match ty_name_into_data_spec(a, None, true) {
                Err(e) => Err(e),
                Ok(d) => {
                    let subtype_bytes = d == TyData::Binary;
                    if bytes_allowed {
                        if subtype_bytes {
                            Ok(TyData::Binary)
                        } else {
                            Ok(TyData::IntoRef)
                        }
                    } else if subtype_bytes {
                        Err((TyErrorKind::UnsupportedVecArgument, a))
                    } else {
                        Ok(TyData::IntoRef)
                    }
                },
            },
            None => Err((TyErrorKind::MissingGenericArgument, "Vec"@)),
        }
    } else if direct_type(ty) {
        Ok(TyData::IntoRef)
    } else if ty == "PgRange"@ {
        match arg {
            Some(a) => if range_element_type(a) {
                Ok(TyData::IntoRef)
            } else if bytes_allowed {
                Ok(TyData::Binary)
            } else {
                Err((TyErrorKind::UnsupportedPgRangeArgument, a))
            },
            None => Err((TyErrorKind::MissingGenericArgument, "PgRange"@)),
        }
    } else if ty == "Range"@ {
        match arg {
            Some(a) => if range_element_type(a) {
                Ok(TyData::IntoNoRef)
            } else if bytes_allowed {
                Ok(TyData::Binary)
            } else {
                Err((TyErrorKind::UnsupportedRangeArgument, a))
            },
            None => Err((TyErrorKind::MissingGenericArgument, "Range"@)),
        }
    } else if bytes_allowed {
        Ok(TyData::Binary)
    } else {
        Err((TyErrorKind::UnknownType, ty))
    }
}

/// The exec result matches the spec result, the error's name by its text.
pub open spec fn same_result(r: Result<TyData, TyError>, s: Result<TyData, (TyErrorKind, Seq<char>)>) -> bool {
    match (r, s) {
        (Ok(a), Ok(b)) => a == b,
        (Err(e), Err((k, n))) => e.kind == k && e.name@ == n,
        _ => false,
    }
}

fn is_direct_type(t: &str) -> (r: bool)
    ensures
        r == direct_type(t@),
{
    tokens::str_eq(t, "IpAddr") || tokens::str_eq(t, "bool") || tokens::str_eq(t, "f32")
        || tokens::str_eq(t, "f64") || tokens::str_eq(t, "i8") || tokens::str_eq(t, "i16")
        || tokens::str_eq(t, "i32") || tokens::str_eq(t, "i64") || tokens::str_eq(t, "String")
        || tokens::str_eq(t, "PgInterval") || tokens::str_eq(t, "Array") || tokens::str_eq(
        t,
        "NaiveDate",
    ) || tokens::str_eq(t, "NaiveDateTime") || tokens::str_eq(t, "NaiveTime") || tokens::str_eq(
        t,
        "Uuid",
    ) || tokens::str_eq(t, "Decimal") || tokens::str_eq(t, "BigDecimal")
}

fn is_range_element_type(t: &str) -> (r: bool)
    ensures
        r == range_element_type(t@),
{
    tokens::str_eq(t, "i32") || tokens::str_eq(t, "i64") || tokens::str_eq(t, "NaiveDate")
        || tokens::str_eq(t, "NaiveDateTime") || tokens::str_eq(t, "BigDecimal") || tokens::str_eq(
        t,
        "Decimal",
    )
}

fn ty_error(kind: TyErrorKind, name: &str) -> (e: TyError)
    ensures
        e.kind == kind,
        e.name@ == name@,
{
    TyError { kind, name: String::from_str(name) }
}

/// How a field of the type named `ty`, whose first generic argument is named
/// `generic_arg`, is bound; `bytes_allowed` says whether `#[sql(bytes)]` is set.
pub fn ty_name_into_data(ty: &str, generic_arg: Option<String>, bytes_allowed: bool) -> (r: Result<
    TyData,
    TyError,
>)
    ensures
        same_result(
            r,
            ty_name_into_data_spec(
                ty@,
                match generic_arg {
                    Some(a) => Some(a@),
                    None => None,
                },
                bytes_allowed,
            ),
        ),
    decreases (if generic_arg is Some {
        1nat
    } else {
        0nat
    }),
{
    if tokens::str_eq(ty, "Vec") {
        match generic_arg {
            Some(arg) => {
                let subtype = ty_name_into_data(arg.as_str(), None, true)?;
                let subtype_bytes = subtype.bytes();
                if bytes_allowed {
                    if subtype_bytes {
                        Ok(TyData::Binary)
                    } else {
                        Ok(TyData::IntoRef)
                    }
                } else if subtype_bytes {
                    Err(ty_error(TyErrorKind::UnsupportedVecArgument, arg.as_str()))
                } else {
                    Ok(TyData::IntoRef)
                }
            },
            None => Err(ty_error(TyErrorKind::MissingGenericArgument, "Vec")),
        }
    } else if is_direct_type(ty) {
        Ok(TyData::IntoRef)
    } else if tokens::str_eq(ty, "PgRange") {
        match generic_arg {
            Some(arg) => {
                if is_range_element_type(arg.as_str()) {
                    Ok(TyData::IntoRef)
                } else if bytes_allowed {
                    Ok(TyData::Binary)
                } else {
                    Err(ty_error(TyErrorKind::UnsupportedPgRangeArgument, arg.as_str()))
                }
            },
            None => Err(ty_error(TyErrorKind::MissingGenericArgument, "PgRange")),
        }
    } else if tokens::str_eq(ty, "Range") {
        match generic_arg {
            Some(arg) => {
                if is_range_element_type(arg.as_str()) {
                    Ok(TyData::IntoNoRef)
                } else if bytes_allowed {
                    Ok(TyData::Binary)
                } else {
                    Err(ty_error(TyErrorKind::UnsupportedRangeArgument, arg.as_str()))
                }
            },
            None => Err(ty_error(TyErrorKind::MissingGenericArgument, "Range")),
        }
    } else if bytes_allowed {
        Ok(TyData::Binary)
    } else {
        Err(ty_error(TyErrorKind::UnknownType, ty))
    }
}

/// The shape of a field's Rust type, as far as binding it needs.
#[derive(Debug, PartialEq, Eq)]
pub enum TypeShape {
    /// `[T; N]`.
    Array,
    /// `(T)`.
    Paren(Box<TypeShape>),
    /// A path type: its last segment's identifier (`None` for an empty path) and
    /// that segment's arguments.
    Path(Option<String>, PathArgs),
    /// `&T`.
    Reference,
    /// Any other type; its text, for the error message.
    Other(String),
}

/// The arguments of a path segment.
#[derive(Debug, PartialEq, Eq)]
pub enum PathArgs {
    Empty,
    /// `<...>`: the arguments in order.
    AngleBracketed(Vec<GenericArg>),
    /// `(...)`.
    Parenthesized,
}

/// A generic argument.
#[derive(Debug, PartialEq, Eq)]
pub enum GenericArg {
    /// A type argument that is a path: its last segment's identifier, if any.
    TypePath(Option<String>),
    /// Any other type argument.
    OtherType,
    /// A lifetime, const or constraint argument.
    Other,
}

/// The name of the first generic argument, when it is a path type.
pub open spec fn first_generic_name(args: PathArgs) -> Option<Seq<char>> {
    match args {
        PathArgs::AngleBracketed(v) => if v@.len() > 0 {
            match v@[0] {
                GenericArg::TypePath(Some(x)) => Some(x@),
                _ => None,
            }
        } else {
            None
        },
        _ => None,
    }
}

/// How a field of the given type shape is bound.
pub open spec fn ty_to_variant_spec(ty: TypeShape, bytes_allowed: bool) -> Result<
    TyData,
    (TyErrorKind, Seq<char>),
>
    decreases ty,
{
    match ty {
        TypeShape::Array => Err((TyErrorKind::ArrayType, Seq::empty())),
        TypeShape::Paren(inner) => ty_to_variant_spec(*inner, bytes_allowed),
        TypeShape::Path(None, _) => Err((TyErrorKind::EmptyPath, Seq::empty())),
        TypeShape::Path(Some(name), args) => ty_name_into_data_spec(
            name@,
            first_generic_name(args),
            bytes_allowed,
        ),
        TypeShape::Reference => Err((TyErrorKind::ReferenceType, Seq::empty())),
        TypeShape::Other(text) => Err((TyErrorKind::UnsupportedType, text@)),
    }
}

fn first_generic_name_exec(args: &PathArgs) -> (r: Option<String>)
    ensures
        match r {
            Some(x) => first_generic_name(*args) == Some(x@),
            None => first_generic_name(*args) is None,
        },
{
    match args {
        PathArgs::AngleBracketed(v) => {
            if v.len() > 0 {
                match &v[0] {
                    GenericArg::TypePath(Some(x)) => Some(x.clone()),
                    _ => None,
                }
            } else {
                None
            }
        },
        _ => None,
    }
}

/// How a field of type `ty` is bound; `bytes_allowed` says whether
/// `#[sql(bytes)]` is set. Parentheses around a type are looked through.
pub fn ty_to_variant(ty: &TypeShape, bytes_allowed: bool) -> (r: Result<TyData, TyError>)
    ensures
        same_result(r, ty_to_variant_spec(*ty, bytes_allowed)),
    decreases ty,
{
    match ty {
        TypeShape::Array => Err(TyError { kind: TyErrorKind::ArrayType, name: String::new() }),
        TypeShape::Paren(inner) => ty_to_variant(inner, bytes_allowed),
        TypeShape::Path(None, _) => Err(
            TyError { kind: TyErrorKind::EmptyPath, name: String::new() },
        ),
        TypeShape::Path(Some(name), args) => {
            let generic_arg = first_generic_name_exec(args);
            ty_name_into_data(name.as_str(), generic_arg, bytes_allowed)
        },
        TypeShape::Reference => Err(
            TyError { kind: TyErrorKind::ReferenceType, name: String::new() },
        ),
        TypeShape::Other(text) => Err(
            TyError { kind: TyErrorKind::UnsupportedType, name: text.clone() },
        ),
    }
}

/// `#[sql(bytes)]` only widens what can be bound: with it every type name binds
/// unless a `Vec`, `PgRange` or `Range` lacks a usable generic argument, and a
/// type that binds without it binds the same way with it.
pub proof fn lemma_bytes_attribute_only_widens(ty: Seq<char>, arg: Option<Seq<char>>)
    ensures
        ty_name_into_data_spec(ty, arg, true) is Err ==> (ty == "Vec"@ || ty == "PgRange"@ || ty
            == "Range"@) && (arg is None || ty == "Vec"@),
        ty_name_into_data_spec(ty, arg, false) matches Ok(d) ==> ty_name_into_data_spec(
            ty,
            arg,
            true,
        ) == Ok::<TyData, (TyErrorKind, Seq<char>)>(d),
{
}

/// The types that the derives bind by reference, whatever `#[sql(bytes)]`
/// says and whatever generic argument follows: `IpAddr`, `bool`, the floats,
/// the signed integers, `String`, `PgInterval`, `Array`, the `chrono` date and
/// time types, `Uuid`, `Decimal` and `BigDecimal`.
pub proof fn lemma_reference_types(arg: Option<Seq<char>>, bytes_allowed: bool)
    ensures
        ty_name_into_data_spec("IpAddr"@, arg, bytes_allowed) == Ok::<TyData, (TyErrorKind, Seq<char>)>(TyData::IntoRef),
        ty_name_into_data_spec("bool"@, arg, bytes_allowed) == Ok::<TyData, (TyErrorKind, Seq<char>)>(TyData::IntoRef),
        ty_name_into_data_spec("f32"@, arg, bytes_allowed) == Ok::<TyData, (TyErrorKind, Seq<char>)>(TyData::IntoRef),
        ty_name_into_data_spec("f64"@, arg, bytes_allowed) == Ok::<TyData, (TyErrorKind, Seq<char>)>(TyData::IntoRef),
        ty_name_into_data_spec("i8"@, arg, bytes_allowed) == Ok::<TyData, (TyErrorKind, Seq<char>)>(TyData::IntoRef),
        ty_name_into_data_spec("i16"@, arg, bytes_allowed) == Ok::<TyData, (TyErrorKind, Seq<char>)>(TyData::IntoRef),
        ty_name_into_data_spec("i32"@, arg, bytes_allowed) == Ok::<TyData, (TyErrorKind, Seq<char>)>(TyData::IntoRef),
        ty_name_into_data_spec("i64"@, arg, bytes_allowed) == Ok::<TyData, (TyErrorKind, Seq<char>)>(TyData::IntoRef),
        ty_name_into_data_spec("String"@, arg, bytes_allowed) == Ok::<TyData, (TyErrorKind, Seq<char>)>(TyData::IntoRef),
        ty_name_into_data_spec("PgInterval"@, arg, bytes_allowed) == Ok::<TyData, (TyErrorKind, Seq<char>)>(TyData::IntoRef),
        ty_name_into_data_spec("Array"@, arg, bytes_allowed) == Ok::<TyData, (TyErrorKind, Seq<char>)>(TyData::IntoRef),
        ty_name_into_data_spec("NaiveDate"@, arg, bytes_allowed) == Ok::<TyData, (TyErrorKind, Seq<char>)>(TyData::IntoRef),
        ty_name_into_data_spec("NaiveDateTime"@, arg, bytes_allowed) == Ok::<TyData, (TyErrorKind, Seq<char>)>(TyData::IntoRef),
        ty_name_into_data_spec("NaiveTime"@, arg, bytes_allowed) == Ok::<TyData, (TyErrorKind, Seq<char>)>(TyData::IntoRef),
        ty_name_into_data_spec("Uuid"@, arg, bytes_allowed) == Ok::<TyData, (TyErrorKind, Seq<char>)>(TyData::IntoRef),
        ty_name_into_data_spec("Decimal"@, arg, bytes_allowed) == Ok::<TyData, (TyErrorKind, Seq<char>)>(TyData::IntoRef),
        ty_name_into_data_spec("BigDecimal"@, arg, bytes_allowed) == Ok::<TyData, (TyErrorKind, Seq<char>)>(TyData::IntoRef),
{
    reveal_strlit("Vec");
    reveal_strlit("IpAddr");
    assert("IpAddr"@.len() != 3 || "IpAddr"@[0] != 'V');
    reveal_strlit("bool");
    assert("bool"@.len() != 3 || "bool"@[0] != 'V');
    reveal_strlit("f32");
    assert("f32"@.len() != 3 || "f32"@[0] != 'V');
    reveal_strlit("f64");
    assert("f64"@.len() != 3 || "f64"@[0] != 'V');
    reveal_strlit("i8");
    assert("i8"@.len() != 3 || "i8"@[0] != 'V');
    reveal_strlit("i16");
    assert("i16"@.len() != 3 || "i16"@[0] != 'V');
    reveal_strlit("i32");
    assert("i32"@.len() != 3 || "i32"@[0] != 'V');
    reveal_strlit("i64");
    assert("i64"@.len() != 3 || "i64"@[0] != 'V');
    reveal_strlit("String");
    assert("String"@.len() != 3 || "String"@[0] != 'V');
    reveal_strlit("PgInterval");
    assert("PgInterval"@.len() != 3 || "PgInterval"@[0] != 'V');
    reveal_strlit("Array");
    assert("Array"@.len() != 3 || "Array"@[0] != 'V');
    reveal_strlit("NaiveDate");
    assert("NaiveDate"@.len() != 3 || "NaiveDate"@[0] != 'V');
    reveal_strlit("NaiveDateTime");
    assert("NaiveDateTime"@.len() != 3 || "NaiveDateTime"@[0] != 'V');
    reveal_strlit("NaiveTime");
    assert("NaiveTime"@.len() != 3 || "NaiveTime"@[0] != 'V');
    reveal_strlit("Uuid");
    assert("Uuid"@.len() != 3 || "Uuid"@[0] != 'V');
    reveal_strlit("Decimal");
    assert("Decimal"@.len() != 3 || "Decimal"@[0] != 'V');
    reveal_strlit("BigDecimal");
    assert("BigDecimal"@.len() != 3 || "BigDecimal"@[0] != 'V');
}

} // verus!
