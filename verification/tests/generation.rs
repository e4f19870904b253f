use proc_macro2::{Delimiter, Spacing, TokenStream, TokenTree};
use sql_macros::builtin_functions::{get_builtin_fn, BuiltinFunctionData};
use sql_macros::clauses::{Limit, MacroMode, Order, OrderBy};
use sql_macros::custom_select::{output_select, SelectError};
use sql_macros::convenience::{
    call_arg_enter, call_arg_exit, call_enter, call_exit, is_update_check, macro_check, table_function_check,
    SqlData, TableSource,
};
use sql_macros::derive_checks::{database_setup, sql_insert, sql_update, DeriveError, StructShape};
use sql_macros::expr::{Column, Expr, Value};
use sql_macros::generated::{Access, Bind, Check, FormatParam};
use sql_macros::output::{
    joined_is_option, joined_select, output, select_list, JoinedField, OutputError,
    OutputField, OutputFields, OutputStruct,
};
use sql_macros::query::{QueryType, ReturningData};
use sql_macros::query_plan::{check_lazy_returning, debug_format_str, plan_query, select_base_str, GenerateError};
use sql_macros::runtime_expr::RtExpr;
use sql_macros::sql_expand::{sql, RtColumn, RtColumnList, RtOrderBy, RtOrderList, RtSetList, SqlOutput};
use sql_macros::sql_function::{custom_sql_function_impl, MacroArm, SqlFunctionInput};
use sql_macros::supports_fn::{ImplSupportsFnAnyInput, ImplSupportsFnInput};
use sql_macros::syntax::Span;
use sql_macros::table::{sql_table, DefaultValue, TableError, TableField, TableFields, TableStruct};
use sql_macros::table_join::{joined_tables, supported_drivers, DriverList, Join, TableJoinInput};
use sql_macros::macro_input::DriverError;
use sql_macros::tokens::{Delim, LitKind, ParseErrorKind, Tok};
use sql_macros::ty_data::{ty_name_into_data, ty_to_variant, GenericArg, PathArgs, TyData, TyErrorKind, TypeShape};
use std::str::FromStr;

fn push_tokens(ts: TokenStream, out: &mut Vec<Tok>) {
    for tt in ts {
        match tt {
            TokenTree::Ident(i) => out.push(Tok::Ident(i.to_string())),
            TokenTree::Punct(p) => out.push(Tok::Punct(p.as_char(), p.spacing() == Spacing::Joint)),
            TokenTree::Literal(l) => {
                let text = l.to_string();
                let kind = if text.starts_with('"') || text.starts_with("r\"") || text.starts_with("r#") {
                    LitKind::Str
                } else if text.starts_with('\'') {
                    LitKind::Char
                } else if text.chars().next().map_or(false, |c| c.is_ascii_digit()) {
                    let radix = text.starts_with("0x") || text.starts_with("0o") || text.starts_with("0b");
                    let int_suffix = ["i8", "i16", "i32", "i64", "i128", "isize", "u8", "u16", "u32", "u64", "u128", "usize"]
                        .iter()
                        .any(|s| text.ends_with(s));
                    if !radix && !int_suffix && (text.contains('.') || text.contains('e') || text.contains('E')
                        || text.ends_with("f32") || text.ends_with("f64"))
                    {
                        LitKind::Float
                    } else {
                        LitKind::Int
                    }
                } else {
                    LitKind::Other
                };
                out.push(Tok::Lit(kind, text));
            }
            TokenTree::Group(g) => {
                let d = match g.delimiter() {
                    Delimiter::Parenthesis => Delim::Paren,
                    Delimiter::Brace => Delim::Brace,
                    Delimiter::Bracket => Delim::Bracket,
                    Delimiter::None => Delim::Invisible,
                };
                let open = out.len();
                out.push(Tok::Open(d, 0));
                push_tokens(g.stream(), out);
                let close = out.len();
                out.push(Tok::Close(d));
                out[open] = Tok::Open(d, close);
            }
        }
    }
}

fn lex(src: &str) -> Vec<Tok> {
    let mut out = Vec::new();
    push_tokens(TokenStream::from_str(src).unwrap(), &mut out);
    out
}


fn names(v: &[&str]) -> Vec<String> {
    v.iter().map(|s| s.to_string()).collect()
}

fn path_ty(name: &str) -> TypeShape {
    TypeShape::Path(Some(name.to_string()), PathArgs::Empty)
}

fn sp(start: usize, end: usize) -> Span {
    Span { start, end }
}

#[test]
fn expr_query_string_numbers_parameters() {
    let t = lex("a = 1 AND b = {x}");
    let (e, _) = Expr::parse(&t, 0, t.len()).unwrap();
    let mut binds = Vec::new();
    let mut checks = Vec::new();
    let mut counter = 5usize;
    let mut params = Vec::new();
    let s = e.into_query_string(&t, &mut binds, &mut checks, &mut counter, &mut params);
    assert_eq!(s, "(({_easy_sql_d}a{_easy_sql_d} = {}) AND ({_easy_sql_d}b{_easy_sql_d} = {}))");
    assert_eq!(params, vec![FormatParam::Placeholder(5), FormatParam::Placeholder(6)]);
    assert_eq!(binds, vec![Bind::ArgLit(2, 3), Bind::ArgVar(7, 8)]);
    assert_eq!(checks, vec![Check::Column(0, Access::Field), Check::Column(4, Access::Field)]);
    assert_eq!(counter, 7);
}

#[test]
fn renderings_bind_the_same_ranges() {
    let t = lex("a = 1 AND b = {x}");
    let (e, _) = Expr::parse(&t, 0, t.len()).unwrap();
    let (mut b1, mut c1, mut p1) = (Vec::new(), Vec::new(), Vec::new());
    let mut n = 0usize;
    e.into_query_string(&t, &mut b1, &mut c1, &mut n, &mut p1);
    let (mut c2, mut b2) = (Vec::new(), Vec::new());
    e.into_tokens_with_checks(&t, &mut c2, &mut b2, true);
    let ranges = |bs: &Vec<Bind>| -> Vec<(usize, usize)> {
        bs.iter()
            .map(|b| match *b {
                Bind::ArgLit(a, e) | Bind::ArgVar(a, e) | Bind::BuilderLit(a, e, _) | Bind::BuilderVar(a, e) => (a, e),
                Bind::LimitArg(a, e) => (a, e),
            })
            .collect()
    };
    assert_eq!(ranges(&b1), ranges(&b2));
    assert_eq!(ranges(&b2), vec![(2, 3), (7, 8)]);
}

#[test]
fn limit_and_order_by_query_strings() {
    let t = lex("a");
    let mut checks = Vec::new();
    let mut params = Vec::new();
    let mut binds = Vec::new();
    let mut counter = 3usize;
    assert_eq!(Limit::Literal(10).into_query_string(&mut checks, &mut params, &mut binds, &mut counter), "{}");
    assert_eq!(params, vec![FormatParam::Literal(10)]);
    assert_eq!(counter, 3);
    assert_eq!(Limit::Expr(4, 5).into_query_string(&mut checks, &mut params, &mut binds, &mut counter), "{}");
    assert_eq!(params, vec![FormatParam::Literal(10), FormatParam::Placeholder(3)]);
    assert_eq!(checks, vec![Check::IntoI64(4, 5)]);
    assert_eq!(binds, vec![Bind::LimitArg(4, 5)]);
    assert_eq!(counter, 4);
    let o = OrderBy { expr: Expr::Value(Value::Column(Column::Column(0))), order: Order::Desc };
    let mut p2 = Vec::new();
    let s = o.into_query_string(&t, &mut binds, &mut checks, &mut counter, &mut p2);
    assert_eq!(s, "{_easy_sql_d}a{_easy_sql_d} DESC");
}

#[test]
fn sql_expression_mode_equals_where_only_clauses() {
    let a = lex("a = 1");
    let b = lex("WHERE a = 1");
    let ma = MacroMode::parse(&a, 0, a.len()).unwrap();
    let mb = MacroMode::parse(&b, 0, b.len()).unwrap();
    let (oa, ca, ba) = sql(&a, &ma);
    let (ob, cb, bb) = sql(&b, &mb);
    assert!(matches!(oa, SqlOutput::Where(RtExpr::Eq(_, _))));
    assert!(matches!(ob, SqlOutput::Where(RtExpr::Eq(_, _))));
    assert_eq!(ca, vec![Check::Column(0, Access::Field)]);
    assert_eq!(cb, vec![Check::Column(1, Access::Field)]);
    assert_eq!(ba.len(), bb.len());
}

#[test]
fn sql_set_mode_checks_assigned_columns() {
    let t = lex("SET a = b");
    let m = MacroMode::parse(&t, 0, t.len()).unwrap();
    let (o, checks, binds) = sql(&t, &m);
    assert_eq!(
        o,
        SqlOutput::Assignments(RtSetList::Cons(1, RtExpr::Column(3), Box::new(RtSetList::Nil)))
    );
    assert_eq!(checks, vec![Check::Column(3, Access::Field), Check::SetColumn(1)]);
    assert!(binds.is_empty());
}

#[test]
fn sql_select_mode() {
    let t = lex("DISTINCT GROUP BY a ORDER BY b DESC LIMIT 3");
    let m = MacroMode::parse(&t, 0, t.len()).unwrap();
    let (o, checks, _) = sql(&t, &m);
    assert_eq!(
        o,
        SqlOutput::Select {
            distinct: true,
            where_: None,
            group_by: Some(RtColumnList::Cons(RtColumn::Column(3), Box::new(RtColumnList::Nil))),
            having: None,
            order_by: Some(RtOrderList::Cons(
                RtOrderBy { expr: RtExpr::Column(6), descending: true },
                Box::new(RtOrderList::Nil)
            )),
            limit: Some(Limit::Literal(3)),
        }
    );
    assert_eq!(checks, vec![Check::Column(3, Access::Field), Check::Column(6, Access::Field)]);
}

#[test]
fn table_join_input_and_tables() {
    let t = lex("[Sqlite, Postgres] Joined | Main LEFT JOIN Other ON Other.id = Main.other_id CROSS JOIN Third ON");
    let i = TableJoinInput::parse(&t, 0, t.len()).unwrap();
    assert_eq!(i.drivers, Some(vec![sp(1, 2), sp(3, 4)]));
    assert_eq!(i.struct_name, 5);
    assert_eq!(i.main_table, sp(7, 8));
    assert_eq!(
        i.joins,
        vec![
            Join::Left {
                table: sp(10, 11),
                on: Expr::Equal(
                    Value::Column(Column::SpecificTableColumn(12, 13, 14)),
                    Value::Column(Column::SpecificTableColumn(16, 17, 18))
                )
            },
            Join::Cross { table: sp(21, 22) },
        ]
    );
    let (always, optional) = joined_tables(i.main_table, &i.joins);
    assert_eq!(always, vec![sp(7, 8), sp(21, 22)]);
    assert_eq!(optional, vec![sp(10, 11)]);
}

#[test]
fn right_join_makes_earlier_tables_optional() {
    let t = lex("J | M INNER JOIN A ON A.x = M.x RIGHT JOIN B ON B.y = M.y LEFT JOIN C ON C.z = B.z");
    let i = TableJoinInput::parse(&t, 0, t.len()).unwrap();
    let (always, optional) = joined_tables(i.main_table, &i.joins);
    let m = i.main_table;
    let a = match &i.joins[0] {
        Join::Inner { table, .. } => *table,
        _ => panic!(),
    };
    let b = match &i.joins[1] {
        Join::Right { table, .. } => *table,
        _ => panic!(),
    };
    let c = match &i.joins[2] {
        Join::Left { table, .. } => *table,
        _ => panic!(),
    };
    assert_eq!(always, vec![b]);
    assert_eq!(optional, vec![m, a, c]);
}

#[test]
fn join_errors() {
    let t = lex("J | M OUTER JOIN A ON x = 1");
    let e = TableJoinInput::parse(&t, 0, t.len()).unwrap_err();
    assert_eq!((e.pos, e.kind), (2, ParseErrorKind::InvalidPath));
    let t = lex("J | M INNER JOIN A ON x = 1 WHERE y = 2");
    let e = TableJoinInput::parse(&t, 0, t.len()).unwrap_err();
    assert_eq!((e.pos, e.kind), (10, ParseErrorKind::Unexpected));
    let t = lex("J | M INNER A ON x = 1");
    let e = TableJoinInput::parse(&t, 0, t.len()).unwrap_err();
    assert_eq!((e.pos, e.kind), (4, ParseErrorKind::ExpectedKeyword));
}

#[test]
fn table_join_driver_lists() {
    assert_eq!(supported_drivers(Some(vec![]), &vec![]).unwrap_err(), DriverError::EmptyDriverList);
    assert_eq!(supported_drivers(None, &vec![]).unwrap_err(), DriverError::NoDefaultDrivers);
    assert_eq!(
        supported_drivers(Some(vec![sp(1, 2)]), &names(&["X"])).unwrap(),
        DriverList::Explicit(vec![sp(1, 2)])
    );
    assert_eq!(
        supported_drivers(None, &names(&["Sqlite", "a b"])).unwrap_err(),
        DriverError::InvalidDriverName(1)
    );
    assert_eq!(
        supported_drivers(None, &names(&["Sqlite"])).unwrap(),
        DriverList::Defaults(names(&["Sqlite"]))
    );
}

fn field(name: &str, ty: TypeShape) -> TableField {
    TableField {
        name: name.to_string(),
        ty,
        auto_increment: false,
        primary_key: false,
        unique: false,
        bytes: false,
        foreign_keys: vec![],
        defaults: vec![],
    }
}

fn table(fields: Vec<TableField>) -> TableStruct {
    TableStruct {
        name: "UserAccount".to_string(),
        fields: TableFields::Named(fields),
        table_name: None,
        versions: vec![lex("1")],
    }
}

#[test]
fn table_plan_accepts_a_table() {
    let mut id = field("id", path_ty("i64"));
    id.primary_key = true;
    id.auto_increment = true;
    let mut name = field("name", path_ty("String"));
    name.unique = true;
    name.defaults = vec![lex("\"x\".to_string()")];
    let mut blob = field("blob", path_ty("MyType"));
    blob.bytes = true;
    blob.defaults = vec![lex("MyType::new()")];
    let plan = sql_table(&table(vec![id, name, blob])).unwrap();
    assert_eq!(plan.table_name, "user_account");
    assert_eq!(plan.primary_keys, names(&["id"]));
    assert!(plan.auto_increment);
    assert_eq!(plan.unique, vec![false, true, false]);
    assert_eq!(plan.binary, vec![false, false, true]);
    assert_eq!(plan.defaults, vec![DefaultValue::NoDefault, DefaultValue::Value, DefaultValue::Binary]);
    assert_eq!(plan.version, 1);
}

#[test]
fn table_plan_names_and_foreign_keys() {
    let mut id = field("id", path_ty("i64"));
    id.primary_key = true;
    let mut a = field("a", path_ty("i64"));
    a.foreign_keys = vec![lex("Other")];
    let mut b = field("b", path_ty("i64"));
    b.foreign_keys = vec![lex("Other, cascade"), lex("crate::Third")];
    let mut st = table(vec![id, a, b]);
    st.table_name = Some(lex("\"people\""));
    let plan = sql_table(&st).unwrap();
    assert_eq!(plan.table_name, "people");
    assert_eq!(plan.foreign_keys.len(), 2);
    assert_eq!(plan.foreign_keys[0].table, "Other");
    assert_eq!(plan.foreign_keys[0].fields, names(&["a", "b"]));
    assert!(plan.foreign_keys[0].cascade);
    assert_eq!(plan.foreign_keys[1].table, "crate :: Third");
    assert!(!plan.foreign_keys[1].cascade);
}

#[test]
fn table_plan_errors() {
    let pk = || {
        let mut f = field("id", path_ty("i64"));
        f.primary_key = true;
        f
    };
    let mut st = table(vec![pk()]);
    st.fields = TableFields::Unnamed;
    assert_eq!(sql_table(&st).unwrap_err(), TableError::UnnamedFields);
    st.fields = TableFields::Unit;
    assert_eq!(sql_table(&st).unwrap_err(), TableError::UnitStruct);
    let mut st = table(vec![pk()]);
    st.table_name = Some(lex("people"));
    assert_eq!(sql_table(&st).unwrap_err(), TableError::InvalidTableName);
    let mut a = pk();
    a.auto_increment = true;
    let mut b = field("b", path_ty("i64"));
    b.auto_increment = true;
    assert_eq!(sql_table(&table(vec![a, b])).unwrap_err(), TableError::DuplicateAutoIncrement(1));
    let mut b = field("b", path_ty("i64"));
    b.foreign_keys = vec![lex("Other, delete")];
    assert_eq!(sql_table(&table(vec![pk(), b])).unwrap_err(), TableError::InvalidForeignKey(1));
    let b = field("b", path_ty("MyType"));
    assert_eq!(
        sql_table(&table(vec![pk(), b])).unwrap_err(),
        TableError::UnsupportedFieldType(1, TyErrorKind::UnknownType)
    );
    let mut b = field("b", path_ty("i64"));
    b.defaults = vec![lex("+")];
    assert_eq!(sql_table(&table(vec![pk(), b])).unwrap_err(), TableError::InvalidDefault(1));
    let mut b = field("b", path_ty("i64"));
    b.defaults = vec![lex("1"), lex("2")];
    assert_eq!(sql_table(&table(vec![pk(), b])).unwrap_err(), TableError::DuplicateDefault(1));
    assert_eq!(sql_table(&table(vec![field("b", path_ty("i64"))])).unwrap_err(), TableError::NoPrimaryKey);
    let mut a = pk();
    a.auto_increment = true;
    let mut b = pk();
    b.name = "b".to_string();
    assert_eq!(
        sql_table(&table(vec![a, b])).unwrap_err(),
        TableError::AutoIncrementNeedsSinglePrimaryKey
    );
    let mut st = table(vec![pk()]);
    st.versions = vec![];
    assert_eq!(sql_table(&st).unwrap_err(), TableError::MissingVersion);
    st.versions = vec![lex("x")];
    assert_eq!(sql_table(&st).unwrap_err(), TableError::InvalidVersion);
    st.versions = vec![lex("1"), lex("2")];
    assert_eq!(sql_table(&st).unwrap_err(), TableError::DuplicateVersion);
}

fn out_field(name: &str, joined: Vec<Vec<Tok>>) -> OutputField {
    OutputField { name: name.to_string(), ty: path_ty("i64"), joined }
}

#[test]
fn output_plan_splits_fields() {
    let st = OutputStruct {
        fields: OutputFields::Named(vec![out_field("a", vec![]), out_field("b", vec![lex("Other.col")])]),
        tables: vec![lex("T")],
    };
    let plan = output(&st).unwrap();
    assert_eq!(plan.plain, vec![0]);
    assert_eq!(
        plan.joined,
        vec![JoinedField { field: 1, table: "Other".to_string(), table_field: "col".to_string() }]
    );
    assert_eq!(plan.table, 0);
}

#[test]
fn output_plan_errors() {
    let mk = |fields: OutputFields, tables: usize| OutputStruct { fields, tables: vec![lex("T"); tables] };
    assert_eq!(output(&mk(OutputFields::Unnamed, 1)).unwrap_err(), OutputError::UnnamedFields);
    assert_eq!(output(&mk(OutputFields::Unit, 1)).unwrap_err(), OutputError::UnitStruct);
    let two = OutputFields::Named(vec![out_field("a", vec![lex("A.x"), lex("B.y")])]);
    assert_eq!(output(&mk(two, 1)).unwrap_err(), OutputError::DuplicateFieldAttribute(0));
    let bad = OutputFields::Named(vec![out_field("a", vec![lex("Other")])]);
    assert_eq!(output(&mk(bad, 1)).unwrap_err(), OutputError::InvalidFieldAttribute(0));
    let ok = || OutputFields::Named(vec![out_field("a", vec![])]);
    assert_eq!(output(&mk(ok(), 2)).unwrap_err(), OutputError::DuplicateTable);
    assert_eq!(output(&mk(ok(), 0)).unwrap_err(), OutputError::MissingTable);
}

#[test]
fn output_select_lists() {
    assert_eq!(select_list(&names(&["a", "b"])), "{delimeter}a{delimeter}, {delimeter}b{delimeter}");
    assert_eq!(select_list(&names(&[])), "");
    assert_eq!(
        joined_select(0, "col", true),
        "{delimeter}{}{delimeter}.{delimeter}col{delimeter} AS ___easy_sql_joined_field_0"
    );
    assert_eq!(
        joined_select(12, "c", false),
        ", {delimeter}{}{delimeter}.{delimeter}c{delimeter} AS ___easy_sql_joined_field_12"
    );
}

#[test]
fn output_joined_option_and_select_args() {
    let opt = TypeShape::Path(
        Some("Option".to_string()),
        PathArgs::AngleBracketed(vec![GenericArg::TypePath(Some("i32".to_string()))]),
    );
    assert_eq!(joined_is_option(&opt), Some(true));
    assert_eq!(joined_is_option(&path_ty("i32")), Some(false));
    assert_eq!(joined_is_option(&TypeShape::Reference), None);
    assert_eq!(output_select(&vec![1], &vec![vec![]]).unwrap().arg_count, 0);
    assert_eq!(output_select(&vec![1], &vec![vec![2, 0, 1, 1]]).unwrap().arg_count, 3);
    assert_eq!(output_select(&vec![1], &vec![vec![0, 2]]), Err(SelectError::MissingArgument(1)));
    assert_eq!(output_select(&vec![1], &vec![vec![3]]), Err(SelectError::MissingArgument(0)));
}

#[test]
fn insert_and_update_derive_checks() {
    let (t, d) = sql_insert(StructShape::Named, &vec![lex("T")], &vec![lex("a, b,"), lex("c")]).unwrap();
    assert_eq!(t, 0);
    assert_eq!(d, names(&["a", "b", "c"]));
    assert_eq!(
        sql_insert(StructShape::Named, &vec![lex("T")], &vec![lex("1")]).unwrap_err(),
        DeriveError::InvalidDefaults(0)
    );
    assert_eq!(
        sql_insert(StructShape::Named, &vec![lex("T")], &vec![lex("a"), lex("type")]).unwrap_err(),
        DeriveError::InvalidDefaults(1)
    );
    assert_eq!(sql_update(StructShape::Named, &vec![]).unwrap_err(), DeriveError::MissingTable);
    assert_eq!(sql_update(StructShape::Named, &vec![lex("T"), lex("U")]).unwrap_err(), DeriveError::DuplicateTable);
    assert_eq!(sql_update(StructShape::Unnamed, &vec![lex("T")]).unwrap_err(), DeriveError::UnnamedFields);
    assert_eq!(sql_update(StructShape::Unit, &vec![lex("T")]).unwrap_err(), DeriveError::UnitStruct);
    assert_eq!(database_setup(StructShape::Unit), Err(DeriveError::UnitStruct));
    assert_eq!(database_setup(StructShape::Unnamed), Ok(()));
}

#[test]
fn supports_fn_inputs() {
    let t = lex("Sqlite, Count, 1, -2,");
    let i = ImplSupportsFnInput::parse(&t, 0, t.len()).unwrap();
    assert_eq!(i.driver, sp(0, 1));
    assert_eq!(i.target, 2);
    assert_eq!(i.args, vec![4, 6]);
    let t = lex("Sqlite, Count");
    let e = ImplSupportsFnInput::parse(&t, 0, t.len()).unwrap_err();
    assert_eq!(e.kind, ParseErrorKind::MissingArgCount);
    let a = ImplSupportsFnAnyInput::parse(&t, 0, t.len()).unwrap();
    assert_eq!(a, ImplSupportsFnAnyInput { driver: sp(0, 1), target_trait: 2 });
    let t = lex("Sqlite, Count, 1");
    let e = ImplSupportsFnAnyInput::parse(&t, 0, t.len()).unwrap_err();
    assert_eq!((e.pos, e.kind), (3, ParseErrorKind::TrailingTokens));
}

#[test]
fn convenience_table_functions() {
    assert_eq!(table_function_check(&names(&["User", "select"])), Some(names(&["User"])));
    assert_eq!(table_function_check(&names(&["a", "User", "delete_returning_lazy"])), Some(names(&["a", "User"])));
    assert_eq!(table_function_check(&names(&["User", "other"])), None);
    assert_eq!(table_function_check(&names(&[])), None);
    assert!(is_update_check(&names(&["T", "update_returning"])));
    assert!(!is_update_check(&names(&["T", "insert"])));
}

#[test]
fn convenience_walk_restores_table() {
    let mut data = SqlData::new();
    let path = names(&["User", "update"]);
    let call = call_enter(&mut data, Some(&path));
    assert!(call.reset_after && call.is_update);
    assert_eq!(data.potential_table, Some(names(&["User"])));
    call_arg_enter(&mut data, call, 0);
    assert!(!data.update_set_arg);
    call_arg_exit(&mut data);
    call_arg_enter(&mut data, call, 1);
    assert!(data.update_set_arg);
    let inner = call_enter(&mut data, Some(&names(&["Other", "select"])));
    assert!(!inner.reset_after);
    assert_eq!(data.potential_table, Some(names(&["User"])));
    call_exit(&mut data, inner);
    call_arg_exit(&mut data);
    assert!(!data.update_set_arg);
    call_exit(&mut data, call);
    assert_eq!(data.potential_table, None);
}

#[test]
fn convenience_rewrites_sql_macros() {
    let mut data = SqlData::new();
    data.potential_table = Some(names(&["User"]));
    data.update_set_arg = true;
    let t = lex("a = 1");
    let w = macro_check(&names(&["sql"]), &t, &data).unwrap();
    assert_eq!(w.driver, None);
    assert!(matches!(w.table, TableSource::FromCall(ref p) if *p == names(&["User"])));
    assert!(w.set);
    assert_eq!(w.leftovers, 0);
    assert!(macro_check(&names(&["query"]), &t, &data).is_none());
    let t2 = lex("<D> |T| SET a = 1");
    let empty = SqlData::new();
    let w = macro_check(&names(&["easy_sql", "sql_debug"]), &t2, &empty).unwrap();
    assert_eq!(w.driver, Some(sp(1, 2)));
    assert!(matches!(w.table, TableSource::Written(s) if s == sp(4, 5)));
    assert!(w.set);
    assert_eq!(w.leftovers, 7);
    assert!(macro_check(&names(&["sql"]), &t, &empty).is_none());
}

#[test]
fn lazy_queries_need_returning() {
    let t = lex("INSERT INTO T VALUES {d}");
    let q = QueryType::parse(&t, 0, t.len()).unwrap();
    assert_eq!(check_lazy_returning(&q, false, true), Err(GenerateError::LazyInsertWithoutReturning));
    assert_eq!(check_lazy_returning(&q, true, true), Ok(()));
    assert_eq!(check_lazy_returning(&q, false, false), Ok(()));
    let t = lex("UPDATE T SET a = 1");
    let q = QueryType::parse(&t, 0, t.len()).unwrap();
    assert_eq!(check_lazy_returning(&q, false, false), Err(GenerateError::LazyUpdateWithoutReturning));
    let t = lex("DELETE FROM T");
    let q = QueryType::parse(&t, 0, t.len()).unwrap();
    assert_eq!(check_lazy_returning(&q, false, true), Err(GenerateError::LazyDeleteWithoutReturning));
    let t = lex("DELETE FROM T RETURNING O");
    let q = QueryType::parse(&t, 0, t.len()).unwrap();
    assert_eq!(check_lazy_returning(&q, false, true), Ok(()));
    assert_eq!(debug_format_str(true), "sql query_lazy! macro input: {}");
    assert_eq!(debug_format_str(false), "sql query! macro input: {}");
    assert_eq!(select_base_str(true), "SELECT DISTINCT ");
    assert_eq!(select_base_str(false), "SELECT ");
}

#[test]
fn returning_arguments_are_numbered() {
    let t = lex("SELECT O(a = 1, {x}) FROM T");
    let q = match QueryType::parse(&t, 0, t.len()).unwrap() {
        QueryType::Select(q) => q,
        _ => panic!(),
    };
    let (mut binds, mut checks) = (Vec::new(), Vec::new());
    let mut counter = 0usize;
    let defs = q.output.build_arg_data(&t, &mut binds, &mut checks, &mut counter);
    assert_eq!(defs.len(), 2);
    assert_eq!(defs[0].name, "__easy_sql_returning_arg_0");
    assert_eq!(defs[0].template, "({_easy_sql_d}a{_easy_sql_d} = {})");
    assert_eq!(defs[0].params, vec![FormatParam::Placeholder(0)]);
    assert_eq!(defs[1].name, "__easy_sql_returning_arg_1");
    assert_eq!(defs[1].template, "{}");
    assert_eq!(defs[1].params, vec![FormatParam::Placeholder(1)]);
    assert_eq!(counter, 2);
    assert_eq!(checks[0], Check::OutputWithArgs(1, 2));
    let r = ReturningData { output_type: sp(1, 2), output_args: None };
    let mut c2 = Vec::new();
    let d2 = r.build_arg_data(&t, &mut binds, &mut c2, &mut counter);
    assert!(d2.is_empty());
    assert_eq!(c2, vec![Check::OutputNormal(1, 2)]);
}

#[test]
fn builtin_function_lookup_uppercases() {
    assert_eq!(get_builtin_fn("count"), Some(BuiltinFunctionData::count()));
    assert_eq!(get_builtin_fn("Count").unwrap().name, "COUNT");
    assert_eq!(get_builtin_fn("no_such_function"), None);
}

#[test]
fn custom_sql_function_plan() {
    let t = lex("MyFn; \"my_fn\"; 1 | 2");
    let input = SqlFunctionInput::parse(&t, 0, t.len()).unwrap();
    assert_eq!(input.sql_name, "my_fn");
    let plan = custom_sql_function_impl(&t, &input);
    assert_eq!(plan.macro_name, "myfn");
    assert_eq!(plan.sql_name, "my_fn");
    assert_eq!(plan.error_message, "my_fn expects 1 or 2 argument(s)");
    assert_eq!(plan.arms, vec![MacroArm::Count(1), MacroArm::Count(2), MacroArm::Mismatch]);
}

#[test]
fn query_plans() {
    let t = lex("SELECT DISTINCT O(a = 1) FROM T");
    let q = QueryType::parse(&t, 0, t.len()).unwrap();
    let p = plan_query(&t, &q, true, true).unwrap();
    assert!(!p.lazy);
    assert_eq!(p.debug_format, "sql query! macro input: {}");
    assert_eq!(p.select_base, Some("SELECT DISTINCT "));
    assert_eq!(p.output_args.len(), 1);
    assert_eq!(p.param_count, 1);
    assert_eq!(p.checks, vec![Check::OutputWithArgs(2, 3), Check::Column(4, Access::Field)]);
    let p = plan_query(&t, &q, false, true).unwrap();
    assert!(p.lazy);
    assert_eq!(p.debug_format, "sql query_lazy! macro input: {}");
    let t = lex("DELETE FROM T");
    let q = QueryType::parse(&t, 0, t.len()).unwrap();
    assert_eq!(plan_query(&t, &q, false, false).unwrap_err(), GenerateError::LazyDeleteWithoutReturning);
    let p = plan_query(&t, &q, true, false).unwrap();
    assert_eq!(p.select_base, None);
    assert!(p.checks.is_empty() && p.output_args.is_empty());
    let t = lex("EXISTS T WHERE a = 1");
    let q = QueryType::parse(&t, 0, t.len()).unwrap();
    let p = plan_query(&t, &q, true, true).unwrap();
    assert!(p.checks.is_empty());
}

#[test]
fn remaining_parse_errors() {
    let t = lex("SET 1 = 2");
    let e = MacroMode::parse(&t, 0, t.len()).unwrap_err();
    assert_eq!((e.pos, e.kind), (1, ParseErrorKind::ExpectedIdent));
    let t = lex("SET a 1");
    let e = MacroMode::parse(&t, 0, t.len()).unwrap_err();
    assert_eq!((e.pos, e.kind), (2, ParseErrorKind::ExpectedPunct));
    let broken = vec![
        Tok::Ident("LIMIT".to_string()),
        Tok::Open(Delim::Brace, 3),
        Tok::Ident("n".to_string()),
        Tok::Ident("x".to_string()),
    ];
    let e = Limit::parse(&broken, 1, broken.len()).unwrap_err();
    assert_eq!((e.pos, e.kind), (1, ParseErrorKind::UnbalancedGroup));
}

#[test]
fn type_binding_errors() {
    assert_eq!(ty_name_into_data("i64", None, false).unwrap(), TyData::IntoRef);
    assert_eq!(ty_name_into_data("Vec", None, false).unwrap_err().kind, TyErrorKind::MissingGenericArgument);
    let e = ty_name_into_data("Vec", Some("MyType".to_string()), false).unwrap_err();
    assert_eq!((e.kind, e.name.as_str()), (TyErrorKind::UnsupportedVecArgument, "MyType"));
    assert_eq!(ty_name_into_data("Vec", Some("MyType".to_string()), true).unwrap(), TyData::Binary);
    assert_eq!(
        ty_name_into_data("PgRange", Some("MyType".to_string()), false).unwrap_err().kind,
        TyErrorKind::UnsupportedPgRangeArgument
    );
    assert_eq!(
        ty_name_into_data("Range", Some("MyType".to_string()), false).unwrap_err().kind,
        TyErrorKind::UnsupportedRangeArgument
    );
    assert_eq!(ty_to_variant(&TypeShape::Array, true).unwrap_err().kind, TyErrorKind::ArrayType);
    assert_eq!(ty_to_variant(&TypeShape::Reference, true).unwrap_err().kind, TyErrorKind::ReferenceType);
    assert_eq!(
        ty_to_variant(&TypeShape::Path(None, PathArgs::Empty), true).unwrap_err().kind,
        TyErrorKind::EmptyPath
    );
    let e = ty_to_variant(&TypeShape::Other("(A, B)".to_string()), true).unwrap_err();
    assert_eq!((e.kind, e.name.as_str()), (TyErrorKind::UnsupportedType, "(A, B)"));
    assert_eq!(ty_to_variant(&TypeShape::Paren(Box::new(path_ty("MyType"))), true).unwrap(), TyData::Binary);
}

#[test]
fn builtin_entries_are_well_formed() {
    for f in sql_macros::builtin_functions::builtin_functions() {
        if f.accepts_star {
            assert_eq!(f.name, "COUNT");
        }
        if let Some(m) = f.max_args {
            assert!(f.min_args <= m, "{}", f.name);
        }
    }
    let c = get_builtin_fn("count").unwrap();
    assert!(c.accepts_star);
    let s = get_builtin_fn("Substr").unwrap();
    assert_eq!((s.min_args, s.max_args, s.accepts_star), (2, Some(3), false));
}

#[test]
fn builtin_names_are_upper_case_ascii() {
    for f in sql_macros::builtin_functions::builtin_functions() {
        assert!(!f.name.is_empty());
        assert!(f.name.chars().all(|c| c.is_ascii_uppercase() || c == '_'), "{}", f.name);
        assert_eq!(f.name, f.name.to_uppercase());
    }
}

#[test]
fn builtin_lookup_ignores_ascii_case() {
    assert_eq!(get_builtin_fn("CoUnT").unwrap().name, "COUNT");
    assert_eq!(get_builtin_fn("current_timestamp").unwrap().name, "CURRENT_TIMESTAMP");
    assert!(get_builtin_fn("nosuchfn").is_none());
}
