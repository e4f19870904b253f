use proc_macro2::{Delimiter, Spacing, TokenStream, TokenTree};
use sql_macros::custom_select::{custom_select_part, output_select, SelectError, SelectTrait};
use sql_macros::expr::Expr;
use sql_macros::generated::FormatParam;
use sql_macros::derive_text::{
    insert_check_fields, insert_columns, output_read_plan, update_fields_text, FieldSource, ReadColumn, ReadField,
};
use sql_macros::query::QueryType;
use sql_macros::query_text::{delete_query, exists_query, insert_query, select_query, update_query, RuntimePart};
use sql_macros::tokens::{Delim, LitKind, Tok};
use std::str::FromStr;

fn push_tokens(ts: TokenStream, out: &mut Vec<Tok>) {
    for tt in ts {
        match tt {
            TokenTree::Ident(i) => out.push(Tok::Ident(i.to_string())),
            TokenTree::Punct(p) => out.push(Tok::Punct(p.as_char(), p.spacing() == Spacing::Joint)),
            TokenTree::Literal(l) => {
                let text = l.to_string();
                let kind = if text.starts_with('"') || text.starts_with("r\"") || text.starts_with("r#") {
                    LitKind::Str
                } else if text.starts_with('\'') {
                    LitKind::Char
                } else if text.chars().next().map_or(false, |c| c.is_ascii_digit()) {
                    let radix = text.starts_with("0x") || text.starts_with("0o") || text.starts_with("0b");
                    let int_suffix = ["i8", "i16", "i32", "i64", "i128", "isize", "u8", "u16", "u32", "u64", "u128", "usize"]
                        .iter()
                        .any(|s| text.ends_with(s));
                    if !radix && !int_suffix && (text.contains('.') || text.contains('e') || text.contains('E')
                        || text.ends_with("f32") || text.ends_with("f64"))
                    {
                        LitKind::Float
                    } else {
                        LitKind::Int
                    }
                } else {
                    LitKind::Other
                };
                out.push(Tok::Lit(kind, text));
            }
            TokenTree::Group(g) => {
                let d = match g.delimiter() {
                    Delimiter::Parenthesis => Delim::Paren,
                    Delimiter::Brace => Delim::Brace,
                    Delimiter::Bracket => Delim::Bracket,
                    Delimiter::None => Delim::Invisible,
                };
                let open = out.len();
                out.push(Tok::Open(d, 0));
                push_tokens(g.stream(), out);
                let close = out.len();
                out.push(Tok::Close(d));
                out[open] = Tok::Open(d, close);
            }
        }
    }
}

fn lex(src: &str) -> Vec<Tok> {
    let mut out = Vec::new();
    push_tokens(TokenStream::from_str(src).unwrap(), &mut out);
    out
}

fn parse(src: &str) -> (Vec<Tok>, QueryType) {
    let t = lex(src);
    let q = QueryType::parse(&t, 0, t.len()).unwrap();
    (t, q)
}

#[test]
fn select_statement_text_in_clause_order() {
    let (t, q) = parse("SELECT Out FROM T WHERE a = {x} GROUP BY b HAVING c > 1 ORDER BY d DESC LIMIT {n}");
    let s = match &q {
        QueryType::Select(s) => select_query(&t, s, 0),
        _ => panic!("not a select"),
    };
    assert_eq!(s.start, "SELECT ");
    assert_eq!(s.runtime.len(), 3);
    assert_eq!(s.runtime[1], RuntimePart::FromTable);
    assert_eq!(s.runtime[2], RuntimePart::TableJoins);
    assert_eq!(
        s.clauses.format,
        " WHERE ({_easy_sql_d}a{_easy_sql_d} = {}) GROUP BY {_easy_sql_d}b{_easy_sql_d} \
HAVING ({_easy_sql_d}c{_easy_sql_d} > {}) ORDER BY {_easy_sql_d}d{_easy_sql_d} DESC LIMIT {}"
    );
    assert_eq!(
        s.clauses.params,
        vec![FormatParam::Placeholder(0), FormatParam::Placeholder(1), FormatParam::Placeholder(2)]
    );
    assert_eq!(s.clauses.binds.len(), 3);
    assert_eq!(s.clauses.param_count, 3);
    assert!(s.tail.is_empty());
}

#[test]
fn select_parameters_continue_after_output_arguments() {
    let (t, q) = parse("SELECT DISTINCT Out FROM T WHERE a = 1 LIMIT 5");
    let s = match &q {
        QueryType::Select(s) => select_query(&t, s, 2),
        _ => panic!("not a select"),
    };
    assert_eq!(s.start, "SELECT DISTINCT ");
    assert_eq!(s.clauses.format, " WHERE ({_easy_sql_d}a{_easy_sql_d} = {}) LIMIT {}");
    assert_eq!(s.clauses.params, vec![FormatParam::Placeholder(2), FormatParam::Literal(5)]);
    assert_eq!(s.clauses.param_count, 3);
}

#[test]
fn exists_statement_start() {
    let (t, q) = parse("EXISTS T WHERE a = 1");
    let s = match &q {
        QueryType::Exists(e) => exists_query(&t, e),
        _ => panic!("not exists"),
    };
    assert_eq!(s.start, "SELECT EXISTS(SELECT 1 FROM ");
    assert_eq!(s.runtime, vec![RuntimePart::TableName, RuntimePart::TableJoins]);
    assert_eq!(s.clauses.format, " WHERE ({_easy_sql_d}a{_easy_sql_d} = {}))");
    assert!(s.numbered_after.is_none());
}

#[test]
fn exists_without_clauses_is_closed() {
    let (t, q) = parse("EXISTS T");
    let s = match &q {
        QueryType::Exists(e) => exists_query(&t, e),
        _ => panic!("not exists"),
    };
    assert_eq!(s.clauses.format, ")");
    assert!(s.clauses.params.is_empty());
}

#[test]
fn update_from_value_numbers_where_after_the_value() {
    let (t, q) = parse("UPDATE T SET {v} WHERE c = 2");
    let s = match &q {
        QueryType::Update(u) => update_query(&t, u),
        _ => panic!("not an update"),
    };
    assert_eq!(s.runtime.len(), 2);
    assert!(matches!(s.runtime[1], RuntimePart::SetFromValue(_)));
    assert!(s.numbered_after.is_some());
    assert_eq!(s.clauses.format, " WHERE ({_easy_sql_d}c{_easy_sql_d} = {})");
    assert_eq!(s.clauses.params, vec![FormatParam::Placeholder(0)]);
}

#[test]
fn delete_statement_with_returning() {
    let (t, q) = parse("DELETE FROM T WHERE a = {x} RETURNING Out");
    let s = match &q {
        QueryType::Delete(d) => delete_query(&t, d),
        _ => panic!("not a delete"),
    };
    assert_eq!(s.start, "DELETE FROM ");
    assert_eq!(s.runtime, vec![RuntimePart::TableName]);
    assert_eq!(s.clauses.format, " WHERE ({_easy_sql_d}a{_easy_sql_d} = {})");
    assert_eq!(s.tail.len(), 1);
}

#[test]
fn update_statement_numbers_set_then_where() {
    let (t, q) = parse("UPDATE T SET a = 1, b = {y} WHERE c = 2");
    let s = match &q {
        QueryType::Update(u) => update_query(&t, u),
        _ => panic!("not an update"),
    };
    assert_eq!(s.start, "UPDATE ");
    assert_eq!(s.runtime, vec![RuntimePart::TableName]);
    assert_eq!(
        s.clauses.format,
        " SET {_easy_sql_d}a{_easy_sql_d} = {}, {_easy_sql_d}b{_easy_sql_d} = {} WHERE ({_easy_sql_d}c{_easy_sql_d} = {})"
    );
    assert_eq!(
        s.clauses.params,
        vec![FormatParam::Placeholder(0), FormatParam::Placeholder(1), FormatParam::Placeholder(2)]
    );
}

#[test]
fn insert_statement_has_no_written_clause() {
    let (_t, q) = parse("INSERT INTO T VALUES {v}");
    let s = match &q {
        QueryType::Insert(i) => insert_query(i),
        _ => panic!("not an insert"),
    };
    assert_eq!(s.start, "INSERT INTO ");
    assert_eq!(s.runtime.len(), 2);
    assert_eq!(s.clauses.format, "");
    assert!(s.tail.is_empty());
}

#[test]
fn custom_select_duplicate_and_gap() {
    assert_eq!(output_select(&vec![0, 2, 2], &vec![vec![], vec![], vec![]]), Err(SelectError::DuplicateSelect(1)));
    assert_eq!(
        output_select(&vec![1, 1], &vec![vec![0], vec![2]]),
        Err(SelectError::MissingArgument(1))
    );
}

#[test]
fn custom_select_trait_choice() {
    let p = output_select(&vec![0, 1, 1], &vec![vec![], vec![1], vec![0, 1]]).unwrap();
    assert_eq!(p.select_trait, SelectTrait::WithArgs);
    assert_eq!(p.arg_count, 2);
    assert_eq!(p.custom, vec![1, 2]);
    assert_eq!(p.regular, vec![0]);
    assert!(!p.delegate);
    let p = output_select(&vec![1, 0], &vec![vec![], vec![7]]).unwrap();
    assert_eq!(p.select_trait, SelectTrait::Normal);
    assert_eq!(p.arg_count, 0);
    assert!(p.delegate);
    let p = output_select(&vec![0, 0], &vec![vec![], vec![]]).unwrap();
    assert!(!p.delegate);
    assert_eq!(custom_select_part("alias_x"), "{} AS {delimeter}alias_x{delimeter}");
}

#[test]
fn placeholders_match_format_arguments() {
    let t = lex("a = {x} AND b.c BETWEEN 1 AND 3 OR d IN (1, 2, {y})");
    let (e, _) = Expr::parse(&t, 0, t.len()).unwrap();
    let mut binds = Vec::new();
    let mut checks = Vec::new();
    let mut n = 0usize;
    let mut params = Vec::new();
    let text = e.into_query_string(&t, &mut binds, &mut checks, &mut n, &mut params);
    assert_eq!(text.matches("{}").count(), params.len());
    assert_eq!(params.len(), 7);
}

#[test]
fn update_derive_set_list() {
    let names = vec!["a".to_string(), "b".to_string()];
    let t = update_fields_text(&names, 3);
    assert_eq!(t.format, "{delimeter}a{delimeter} = {}, {delimeter}b{delimeter} = {}");
    assert_eq!(t.params, vec![FormatParam::Placeholder(3), FormatParam::Placeholder(4)]);
    assert_eq!(t.param_count, 5);
    assert_eq!(update_fields_text(&vec![], 0).format, "");
}

#[test]
fn insert_derive_columns_and_check() {
    let names = vec!["name".to_string(), "email".to_string()];
    assert_eq!(insert_columns(&names), names);
    let init = insert_check_fields(&vec!["id".to_string()], &names);
    assert_eq!(
        init,
        vec![("id".to_string(), true), ("name".to_string(), false), ("email".to_string(), false)]
    );
}

#[test]
fn output_read_plan_orders_and_aliases() {
    let f = |name: &str, bytes: bool, source: FieldSource| ReadField { name: name.to_string(), bytes, source };
    let fields = vec![
        f("joined_a", false, FieldSource::Joined),
        f("id", false, FieldSource::Plain),
        f("total", true, FieldSource::Custom),
        f("blob", true, FieldSource::Plain),
        f("joined_b", true, FieldSource::Joined),
    ];
    let r = output_read_plan(&fields, "pre_");
    let c = |field: usize, column: &str, from_bytes: bool| ReadColumn { field, column: column.to_string(), from_bytes };
    assert_eq!(
        r,
        vec![
            c(1, "id", false),
            c(3, "blob", true),
            c(2, "pre_total", true),
            c(0, "___easy_sql_joined_field_0", false),
            c(4, "___easy_sql_joined_field_1", false),
        ]
    );
}

#[test]
fn custom_select_missing_argument_is_the_least() {
    assert_eq!(output_select(&vec![1, 1], &vec![vec![3], vec![1]]), Err(SelectError::MissingArgument(0)));
}

#[test]
fn parameter_counts_fit() {
    let (_t, q) = parse("SELECT Out FROM T WHERE a = {x} LIMIT {n}");
    assert!(sql_macros::query_text::statement_fits(&q, 0));
    assert!(!sql_macros::query_text::statement_fits(&q, usize::MAX));
    assert!(sql_macros::query_plan::output_args_fit(&q));
    let t = lex("a = {x} AND b = 1");
    assert_eq!(sql_macros::query_plan::expr_count_exec(&Expr::parse(&t, 0, t.len()).unwrap().0), Some(2));
}

#[test]
fn select_arguments_are_read_from_arg_names() {
    let t = lex("{arg1} + {arg0} > {x} AND c = {arg12}");
    let (e, _) = Expr::parse(&t, 0, t.len()).unwrap();
    assert_eq!(sql_macros::select_args::select_arg_indices(&t, &e), vec![1, 0, 12]);
    assert_eq!(sql_macros::select_args::arg_index_exec("arg7"), Some(7));
    assert_eq!(sql_macros::select_args::arg_index_exec("arg"), None);
    assert_eq!(sql_macros::select_args::arg_index_exec("argx"), None);
    assert_eq!(sql_macros::select_args::arg_index_exec("arg99999999999999999999999"), None);
}

#[test]
fn inputs_without_rust_runs_parse_exactly() {
    use_macro_mode("SET a = 1", true);
    use_macro_mode("id = 1", false);
    use_macro_mode("LIMIT 3", false);
}

fn use_macro_mode(src: &str, set: bool) {
    let t = lex(src);
    let m = sql_macros::clauses::MacroMode::parse(&t, 0, t.len()).unwrap();
    assert_eq!(matches!(m, sql_macros::clauses::MacroMode::SetClause(_)), set);
}
