use proc_macro2::{Delimiter, Spacing, TokenStream, TokenTree};
use sql_macros::clauses::{ColumnList, Limit, MacroMode, Order, OrderBy, OrderByList, SelectClauses, SetList};
use sql_macros::expr::{Column, Expr, OpChain, Operator, Value};
use sql_macros::macro_input::{query_drivers, sql_driver, DriverError, ProvidedDrivers, QueryInput, SqlDriver, WrappedInput};
use sql_macros::query::{ExprList, QueryType, SetClause};
use sql_macros::syntax::Span;
use sql_macros::tokens::{Delim, LitKind, ParseErrorKind, Tok};
use std::str::FromStr;

fn push_tokens(ts: TokenStream, out: &mut Vec<Tok>) {
    for tt in ts {
        match tt {
            TokenTree::Ident(i) => out.push(Tok::Ident(i.to_string())),
            TokenTree::Punct(p) => out.push(Tok::Punct(p.as_char(), p.spacing() == Spacing::Joint)),
            TokenTree::Literal(l) => {
                let text = l.to_string();
                let kind = if text.starts_with('"') || text.starts_with("r\"") || text.starts_with("r#") {
                    LitKind::Str
                } else if text.starts_with('\'') {
                    LitKind::Char
                } else if text.chars().next().map_or(false, |c| c.is_ascii_digit()) {
                    let radix = text.starts_with("0x") || text.starts_with("0o") || text.starts_with("0b");
                    let int_suffix = ["i8", "i16", "i32", "i64", "i128", "isize", "u8", "u16", "u32", "u64", "u128", "usize"]
                        .iter()
                        .any(|s| text.ends_with(s));
                    if !radix && !int_suffix && (text.contains('.') || text.contains('e') || text.contains('E')
                        || text.ends_with("f32") || text.ends_with("f64"))
                    {
                        LitKind::Float
                    } else {
                        LitKind::Int
                    }
                } else {
                    LitKind::Other
                };
                out.push(Tok::Lit(kind, text));
            }
            TokenTree::Group(g) => {
                let d = match g.delimiter() {
                    Delimiter::Parenthesis => Delim::Paren,
                    Delimiter::Brace => Delim::Brace,
                    Delimiter::Bracket => Delim::Bracket,
                    Delimiter::None => Delim::Invisible,
                };
                let open = out.len();
                out.push(Tok::Open(d, 0));
                push_tokens(g.stream(), out);
                let close = out.len();
                out.push(Tok::Close(d));
                out[open] = Tok::Open(d, close);
            }
        }
    }
}

fn lex(src: &str) -> Vec<Tok> {
    let mut out = Vec::new();
    push_tokens(TokenStream::from_str(src).unwrap(), &mut out);
    out
}

fn col(i: usize) -> Value {
    Value::Column(Column::Column(i))
}

#[test]
fn parses_simple_equality() {
    let t = lex("id = 1");
    let (e, p) = Expr::parse(&t, 0, t.len()).unwrap();
    assert_eq!(p, 3);
    assert_eq!(e, Expr::Equal(col(0), Value::Lit(2, 3)));
}

#[test]
fn parses_and_chain() {
    let t = lex("id >= 2 AND field <= 40");
    let (e, p) = Expr::parse(&t, 0, t.len()).unwrap();
    assert_eq!(p, t.len());
    match e {
        Expr::OperatorChain(first, OpChain::Cons(op, second, rest)) => {
            assert_eq!(*first, Expr::GreaterThanOrEqual(col(0), Value::Lit(3, 4)));
            assert_eq!(op, Operator::And);
            assert_eq!(*second, Expr::LessThanOrEqual(col(5), Value::Lit(8, 9)));
            assert_eq!(*rest, OpChain::Nil);
        }
        other => panic!("unexpected {:?}", other),
    }
}

#[test]
fn keywords_ignore_ascii_case() {
    let t = lex("a = 1 and b = 2");
    let (e, _) = Expr::parse(&t, 0, t.len()).unwrap();
    assert!(matches!(e, Expr::OperatorChain(_, OpChain::Cons(Operator::And, _, _))));
}

#[test]
fn expression_stops_before_clause_keyword() {
    let t = lex("a = 1 ORDER BY a");
    let (_, p) = Expr::parse(&t, 0, t.len()).unwrap();
    assert_eq!(p, 3);
}

#[test]
fn empty_expression_is_an_error() {
    let t = lex("");
    let e = Expr::parse(&t, 0, 0).unwrap_err();
    assert_eq!(e.kind, ParseErrorKind::EmptyExpression);
}

#[test]
fn path_without_column_is_an_error() {
    let t = lex("a::b = 1");
    let e = Column::parse(&t, 0, t.len()).unwrap_err();
    assert_eq!(e.kind, ParseErrorKind::PathWithoutColumn);
}

#[test]
fn macro_mode_set_clause() {
    let t = lex("SET a = 1, b = 2");
    let m = MacroMode::parse(&t, 0, t.len()).unwrap();
    match m {
        MacroMode::SetClause(s) => match s.updates {
            SetList::Cons(c1, e1, rest) => {
                assert_eq!(c1, 1);
                assert_eq!(e1, Expr::Value(Value::Lit(3, 4)));
                match *rest {
                    SetList::Cons(c2, _, tail) => {
                        assert_eq!(c2, 5);
                        assert_eq!(*tail, SetList::Nil);
                    }
                    SetList::Nil => panic!("second assignment missing"),
                }
            }
            SetList::Nil => panic!("no assignments"),
        },
        other => panic!("unexpected {:?}", other),
    }
}

#[test]
fn macro_mode_select_clauses() {
    let t = lex("WHERE a = 1 ORDER BY b DESC LIMIT 5");
    let m = MacroMode::parse(&t, 0, t.len()).unwrap();
    assert_eq!(
        m,
        MacroMode::SelectClauses(SelectClauses {
            distinct: false,
            where_: Some(Expr::Equal(col(1), Value::Lit(3, 4))),
            order_by: Some(OrderByList::Cons(
                OrderBy { expr: Expr::Value(col(6)), order: Order::Desc },
                Box::new(OrderByList::Nil)
            )),
            group_by: None,
            having: None,
            limit: Some(Limit::Literal(5)),
        })
    );
}

#[test]
fn duplicate_where_is_an_error() {
    let t = lex("WHERE a = 1 WHERE b = 2");
    let e = MacroMode::parse(&t, 0, t.len()).unwrap_err();
    assert_eq!(e.pos, 4);
    assert_eq!(e.kind, ParseErrorKind::Unexpected);
}

#[test]
fn trailing_tokens_after_expression() {
    let t = lex("a = 1 DESC");
    let e = MacroMode::parse(&t, 0, t.len()).unwrap_err();
    assert_eq!(e.kind, ParseErrorKind::TrailingTokens);
    assert_eq!(e.pos, 3);
}

#[test]
fn limit_literal_out_of_range() {
    let t = lex("LIMIT 99999999999999999999");
    let e = MacroMode::parse(&t, 0, t.len()).unwrap_err();
    assert_eq!(e.kind, ParseErrorKind::LiteralOutOfRange);
}

#[test]
fn limit_braced_expression() {
    let t = lex("LIMIT {n}");
    let (l, p) = Limit::parse(&t, 1, t.len()).unwrap();
    assert_eq!(l, Limit::Expr(2, 3));
    assert_eq!(p, 4);
}

#[test]
fn limit_braced_invalid_expression() {
    let t = lex("LIMIT {+}");
    let e = Limit::parse(&t, 1, t.len()).unwrap_err();
    assert_eq!(e.kind, ParseErrorKind::InvalidExpr);
}

#[test]
fn group_by_columns() {
    let t = lex("GROUP BY a, T.b");
    let m = MacroMode::parse(&t, 0, t.len()).unwrap();
    match m {
        MacroMode::SelectClauses(c) => assert_eq!(
            c.group_by,
            Some(ColumnList::Cons(
                Column::Column(2),
                Box::new(ColumnList::Cons(Column::SpecificTableColumn(4, 5, 6), Box::new(ColumnList::Nil)))
            ))
        ),
        other => panic!("unexpected {:?}", other),
    }
}

#[test]
fn query_select_with_clauses() {
    let t = lex("SELECT Out FROM T WHERE id = 1 ORDER BY id DESC LIMIT 10");
    match QueryType::parse(&t, 0, t.len()).unwrap() {
        QueryType::Select(q) => {
            assert_eq!(q.output.output_type, Span { start: 1, end: 2 });
            assert_eq!(q.output.output_args, None);
            assert_eq!(q.table_type, Span { start: 3, end: 4 });
            assert_eq!(q.where_clause, Some(Expr::Equal(col(5), Value::Lit(7, 8))));
            assert_eq!(
                q.order_by,
                Some(OrderByList::Cons(
                    OrderBy { expr: Expr::Value(col(10)), order: Order::Desc },
                    Box::new(OrderByList::Nil)
                ))
            );
            assert_eq!(q.limit, Some(Limit::Literal(10)));
            assert!(!q.distinct);
        }
        other => panic!("unexpected {:?}", other),
    }
}

#[test]
fn query_select_distinct_with_output_args() {
    let t = lex("SELECT DISTINCT Out(a = 1) FROM T");
    match QueryType::parse(&t, 0, t.len()).unwrap() {
        QueryType::Select(q) => {
            assert!(q.distinct);
            assert_eq!(q.output.output_type, Span { start: 2, end: 3 });
            assert_eq!(
                q.output.output_args,
                Some(ExprList::Cons(Expr::Equal(col(4), Value::Lit(6, 7)), Box::new(ExprList::Nil)))
            );
            assert_eq!(q.table_type, Span { start: 9, end: 10 });
        }
        other => panic!("unexpected {:?}", other),
    }
}

#[test]
fn query_clauses_in_any_order() {
    let a = lex("SELECT O FROM T LIMIT 1 WHERE a = 2");
    let b = lex("SELECT O FROM T WHERE a = 2 LIMIT 1");
    let qa = match QueryType::parse(&a, 0, a.len()).unwrap() {
        QueryType::Select(q) => q,
        _ => panic!(),
    };
    let qb = match QueryType::parse(&b, 0, b.len()).unwrap() {
        QueryType::Select(q) => q,
        _ => panic!(),
    };
    assert_eq!(qa.limit, qb.limit);
    assert_eq!(qa.where_clause, Some(Expr::Equal(col(7), Value::Lit(9, 10))));
    assert_eq!(qb.where_clause, Some(Expr::Equal(col(5), Value::Lit(7, 8))));
}

#[test]
fn query_insert_with_returning() {
    let t = lex("INSERT INTO T VALUES {data} RETURNING O");
    match QueryType::parse(&t, 0, t.len()).unwrap() {
        QueryType::Insert(q) => {
            assert_eq!(q.table_type, Span { start: 2, end: 3 });
            assert_eq!(q.values, Span { start: 5, end: 6 });
            let r = q.returning.unwrap();
            assert_eq!(r.output_type, Span { start: 8, end: 9 });
        }
        other => panic!("unexpected {:?}", other),
    }
}

#[test]
fn query_insert_rejects_where() {
    let t = lex("INSERT INTO T VALUES {d} WHERE a = 1");
    let e = QueryType::parse(&t, 0, t.len()).unwrap_err();
    assert_eq!(e.pos, 7);
    assert_eq!(e.kind, ParseErrorKind::Unexpected);
}

#[test]
fn query_update_with_set_list() {
    let t = lex("UPDATE T SET a = 1 WHERE id = 2 RETURNING O");
    match QueryType::parse(&t, 0, t.len()).unwrap() {
        QueryType::Update(q) => {
            match q.set_clause {
                SetClause::Expr(s) => match s.updates {
                    SetList::Cons(c, e, rest) => {
                        assert_eq!(c, 3);
                        assert_eq!(e, Expr::Value(Value::Lit(5, 6)));
                        assert_eq!(*rest, SetList::Nil);
                    }
                    SetList::Nil => panic!(),
                },
                other => panic!("unexpected {:?}", other),
            }
            assert_eq!(q.where_clause, Some(Expr::Equal(col(7), Value::Lit(9, 10))));
            assert_eq!(q.returning.unwrap().output_type, Span { start: 11, end: 12 });
        }
        other => panic!("unexpected {:?}", other),
    }
}

#[test]
fn query_update_from_value() {
    let t = lex("UPDATE T SET {data}");
    match QueryType::parse(&t, 0, t.len()).unwrap() {
        QueryType::Update(q) => {
            assert_eq!(q.set_clause, SetClause::FromType(Span { start: 4, end: 5 }));
            assert_eq!(q.where_clause, None);
            assert!(q.returning.is_none());
        }
        other => panic!("unexpected {:?}", other),
    }
}

#[test]
fn query_delete_and_exists() {
    let t = lex("DELETE FROM T WHERE id = 1");
    match QueryType::parse(&t, 0, t.len()).unwrap() {
        QueryType::Delete(q) => {
            assert_eq!(q.table_type, Span { start: 2, end: 3 });
            assert_eq!(q.where_clause, Some(Expr::Equal(col(4), Value::Lit(6, 7))));
        }
        other => panic!("unexpected {:?}", other),
    }
    let t = lex("EXISTS T GROUP BY a HAVING a > 1");
    match QueryType::parse(&t, 0, t.len()).unwrap() {
        QueryType::Exists(q) => {
            assert_eq!(q.group_by, Some(ColumnList::Cons(Column::Column(4), Box::new(ColumnList::Nil))));
            assert_eq!(q.having, Some(Expr::GreaterThan(col(6), Value::Lit(8, 9))));
        }
        other => panic!("unexpected {:?}", other),
    }
}

#[test]
fn query_errors() {
    let t = lex("FETCH T");
    assert_eq!(QueryType::parse(&t, 0, t.len()).unwrap_err().kind, ParseErrorKind::ExpectedKeyword);
    let t = lex("SELECT O FROM T ORDER BY");
    let e = QueryType::parse(&t, 0, t.len()).unwrap_err();
    assert_eq!((e.pos, e.kind), (6, ParseErrorKind::EmptyExpression));
    let t = lex("SELECT + FROM T");
    let e = QueryType::parse(&t, 0, t.len()).unwrap_err();
    assert_eq!((e.pos, e.kind), (1, ParseErrorKind::InvalidType));
    let t = lex("SELECT O WHERE a = 1");
    let e = QueryType::parse(&t, 0, t.len()).unwrap_err();
    assert_eq!((e.pos, e.kind), (2, ParseErrorKind::ExpectedKeyword));
}

#[test]
fn wrapped_input_with_driver_and_table() {
    let t = lex("<Postgres> |User| id = 1");
    let w = WrappedInput::<MacroMode>::parse(&t, 0, t.len()).unwrap();
    assert_eq!(w.driver, Some(Span { start: 1, end: 2 }));
    assert_eq!(w.table, Some(Span { start: 4, end: 5 }));
    assert_eq!(w.input, MacroMode::Expression(Expr::Equal(col(6), Value::Lit(8, 9))));
}

#[test]
fn wrapped_input_debug_mode_and_missing_table() {
    let t = lex("debug_info_mode WHERE a = 1");
    let w = WrappedInput::<MacroMode>::parse(&t, 0, t.len()).unwrap();
    assert_eq!(w.table, None);
    assert_eq!(w.driver, None);
    let t = lex("a = 1");
    let e = WrappedInput::<MacroMode>::parse(&t, 0, t.len()).unwrap_err();
    assert_eq!((e.pos, e.kind), (0, ParseErrorKind::MissingTable));
    let t = lex("<1> |T| a = 1");
    let e = WrappedInput::<MacroMode>::parse(&t, 0, t.len()).unwrap_err();
    assert_eq!(e.kind, ParseErrorKind::InvalidPath);
    let t = lex("|T a = 1");
    let e = WrappedInput::<MacroMode>::parse(&t, 0, t.len()).unwrap_err();
    assert_eq!((e.pos, e.kind), (1, ParseErrorKind::InvalidType));
}

#[test]
fn query_input_with_driver() {
    let t = lex("<Sqlite> conn, DELETE FROM T");
    let q = QueryInput::parse(&t, 0, t.len()).unwrap();
    assert_eq!(q.driver, Some(Span { start: 1, end: 2 }));
    assert_eq!(q.connection, Span { start: 3, end: 4 });
    assert!(matches!(q.query, QueryType::Delete(_)));
    let t = lex("conn DELETE FROM T");
    let e = QueryInput::parse(&t, 0, t.len()).unwrap_err();
    assert_eq!((e.pos, e.kind), (0, ParseErrorKind::InvalidExpr));
}

#[test]
fn sql_driver_choice() {
    let d = sql_driver(Some(Span { start: 1, end: 2 }), &vec![]).unwrap();
    assert_eq!(d, SqlDriver::Explicit(Span { start: 1, end: 2 }));
    assert_eq!(sql_driver(None, &vec![]).unwrap_err(), DriverError::NoDefaultDrivers);
    let two = vec!["A".to_string(), "B".to_string()];
    assert_eq!(sql_driver(None, &two).unwrap_err(), DriverError::MultipleDefaultDrivers);
    let one = vec!["crate::Postgres".to_string()];
    assert_eq!(sql_driver(None, &one).unwrap(), SqlDriver::Default("crate::Postgres".to_string()));
    let bad = vec!["not a path".to_string()];
    assert_eq!(sql_driver(None, &bad).unwrap_err(), DriverError::InvalidDriverName(0));
}

#[test]
fn query_driver_choice() {
    let conn = Span { start: 0, end: 1 };
    let d = query_drivers(Some(Span { start: 1, end: 2 }), &vec![], conn).unwrap();
    assert_eq!(d, ProvidedDrivers::Single(Span { start: 1, end: 2 }));
    assert_eq!(d.single_driver(), Some(Span { start: 1, end: 2 }));
    let defaults = vec!["Sqlite".to_string(), "Postgres".to_string()];
    let d = query_drivers(None, &defaults, conn).unwrap();
    assert_eq!(d, ProvidedDrivers::MultipleWithConn { drivers: defaults.clone(), conn });
    assert_eq!(d.single_driver(), None);
    let bad = vec!["Sqlite".to_string(), "\"unterminated".to_string()];
    assert_eq!(query_drivers(None, &bad, conn).unwrap_err(), DriverError::InvalidDriverName(1));
}

#[test]
fn json_extract_operators_take_two_and_three_tokens() {
    let t = lex("a -> b");
    let (op, p) = Operator::parse(&t, 1, t.len()).unwrap();
    assert_eq!(op, Operator::JsonExtract);
    assert_eq!(p, 3);
    let t = lex("a ->> b");
    let (op, p) = Operator::parse(&t, 1, t.len()).unwrap();
    assert_eq!(op, Operator::JsonExtract);
    assert_eq!(p, 4);
    let t = lex("a - b");
    let (op, p) = Operator::parse(&t, 1, t.len()).unwrap();
    assert_eq!(op, Operator::Sub);
    assert_eq!(p, 2);
}

#[test]
fn suffixed_integer_literal_lexes_as_int() {
    let t = lex("10usize 1e3 0x1f32 2.5");
    assert_eq!(t[0], Tok::Lit(LitKind::Int, "10usize".to_string()));
    assert_eq!(t[1], Tok::Lit(LitKind::Float, "1e3".to_string()));
    assert_eq!(t[2], Tok::Lit(LitKind::Int, "0x1f32".to_string()));
    assert_eq!(t[3], Tok::Lit(LitKind::Float, "2.5".to_string()));
}
