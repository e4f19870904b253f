use proc_macro2::{Delimiter, Spacing, TokenStream, TokenTree};
use sql_macros::clauses::{Limit, MacroMode, Order, OrderByList};
use sql_macros::expr::{Expr, OpChain, Operator};
use sql_macros::macro_input::{QueryInput, WrappedInput};
use sql_macros::query::{QueryType, SetClause};
use sql_macros::tokens::{Delim, LitKind, Tok};
use std::str::FromStr;

fn push_tokens(ts: TokenStream, out: &mut Vec<Tok>) {
    for tt in ts {
        match tt {
            TokenTree::Ident(i) => out.push(Tok::Ident(i.to_string())),
            TokenTree::Punct(p) => out.push(Tok::Punct(p.as_char(), p.spacing() == Spacing::Joint)),
            TokenTree::Literal(l) => {
                let text = l.to_string();
                let kind = if text.starts_with('"') || text.starts_with("r\"") || text.starts_with("r#") {
                    LitKind::Str
                } else if text.starts_with('\'') {
                    LitKind::Char
                } else if text.chars().next().map_or(false, |c| c.is_ascii_digit()) {
                    let radix = text.starts_with("0x") || text.starts_with("0o") || text.starts_with("0b");
                    let int_suffix = ["i8", "i16", "i32", "i64", "i128", "isize", "u8", "u16", "u32", "u64", "u128", "usize"]
                        .iter()
                        .any(|s| text.ends_with(s));
                    if !radix && !int_suffix && (text.contains('.') || text.contains('e') || text.contains('E')
                        || text.ends_with("f32") || text.ends_with("f64"))
                    {
                        LitKind::Float
                    } else {
                        LitKind::Int
                    }
                } else {
                    LitKind::Other
                };
                out.push(Tok::Lit(kind, text));
            }
            TokenTree::Group(g) => {
                let d = match g.delimiter() {
                    Delimiter::Parenthesis => Delim::Paren,
                    Delimiter::Brace => Delim::Brace,
                    Delimiter::Bracket => Delim::Bracket,
                    Delimiter::None => Delim::Invisible,
                };
                let open = out.len();
                out.push(Tok::Open(d, 0));
                push_tokens(g.stream(), out);
                let close = out.len();
                out.push(Tok::Close(d));
                out[open] = Tok::Open(d, close);
            }
        }
    }
}

fn lex(src: &str) -> Vec<Tok> {
    let mut out = Vec::new();
    push_tokens(TokenStream::from_str(src).unwrap(), &mut out);
    out
}


fn sql_mode(src: &str) -> MacroMode {
    let t = lex(&format!("|Table| {}", src));
    WrappedInput::<MacroMode>::parse(&t, 0, t.len()).unwrap().input
}

fn query(src: &str) -> QueryType {
    let t = lex(&format!("&mut conn, {}", src));
    QueryInput::parse(&t, 0, t.len()).unwrap().query
}

#[test]
fn doc_sql_expression_examples() {
    for src in [
        "id = 1",
        "status = \"active\"",
        "id >= 2 AND field <= 40",
        "name LIKE \"test%\"",
        "id = {user_id}",
        "field = {i64::MAX}",
        "age > {min_age} AND status = {status_var}",
    ] {
        assert!(matches!(sql_mode(src), MacroMode::Expression(_)), "{}", src);
    }
    match sql_mode("age > {min_age} AND status = {status_var}") {
        MacroMode::Expression(Expr::OperatorChain(_, OpChain::Cons(op, _, _))) => assert_eq!(op, Operator::And),
        other => panic!("unexpected {:?}", other),
    }
}

#[test]
fn doc_sql_set_examples() {
    for src in ["SET field = field * 2", "SET field = 99, name = \"new\"", "SET counter = {new_value}"] {
        assert!(matches!(sql_mode(src), MacroMode::SetClause(_)), "{}", src);
    }
    assert!(matches!(sql_mode("counter = counter + 1"), MacroMode::Expression(_)));
}

#[test]
fn doc_sql_select_examples() {
    match sql_mode("WHERE field >= 30 ORDER BY field DESC LIMIT 3") {
        MacroMode::SelectClauses(c) => {
            assert!(c.where_.is_some());
            match c.order_by {
                Some(OrderByList::Cons(o, _)) => assert_eq!(o.order, Order::Desc),
                other => panic!("unexpected {:?}", other),
            }
            assert_eq!(c.limit, Some(Limit::Literal(3)));
        }
        other => panic!("unexpected {:?}", other),
    }
    match sql_mode("DISTINCT WHERE category = \"active\"") {
        MacroMode::SelectClauses(c) => assert!(c.distinct && c.where_.is_some()),
        other => panic!("unexpected {:?}", other),
    }
    match sql_mode("WHERE created_at BETWEEN {start_date} AND {end_date}") {
        MacroMode::SelectClauses(c) => assert!(matches!(c.where_, Some(Expr::Between(_, _, _)))),
        other => panic!("unexpected {:?}", other),
    }
    match sql_mode("ORDER BY field ASC") {
        MacroMode::SelectClauses(c) => match c.order_by {
            Some(OrderByList::Cons(o, _)) => assert_eq!(o.order, Order::Asc),
            other => panic!("unexpected {:?}", other),
        },
        other => panic!("unexpected {:?}", other),
    }
    assert!(matches!(sql_mode("LIMIT 10"), MacroMode::SelectClauses(_)));
    assert!(matches!(sql_mode("WHERE id > {min_id}"), MacroMode::SelectClauses(_)));
}

#[test]
fn doc_query_examples() {
    assert!(matches!(query("SELECT OutputType FROM TableType WHERE id = {user_id}"), QueryType::Select(_)));
    match query("SELECT OutputType FROM TableType WHERE status = \"active\" ORDER BY created_at DESC LIMIT 10") {
        QueryType::Select(q) => {
            assert!(q.where_clause.is_some());
            assert_eq!(q.limit, Some(Limit::Literal(10)));
        }
        other => panic!("unexpected {:?}", other),
    }
    match query("INSERT INTO TableType VALUES {data}") {
        QueryType::Insert(q) => assert!(q.returning.is_none()),
        other => panic!("unexpected {:?}", other),
    }
    match query("INSERT INTO TableType VALUES {data} RETURNING OutputType") {
        QueryType::Insert(q) => assert!(q.returning.is_some()),
        other => panic!("unexpected {:?}", other),
    }
    match query("UPDATE TableType SET field = {new_value} WHERE id = {user_id}") {
        QueryType::Update(q) => {
            assert!(matches!(q.set_clause, SetClause::Expr(_)));
            assert!(q.where_clause.is_some());
            assert!(q.returning.is_none());
        }
        other => panic!("unexpected {:?}", other),
    }
    match query("UPDATE TableType SET field = {new_value} WHERE id = {user_id} RETURNING OutputType") {
        QueryType::Update(q) => assert!(q.returning.is_some() && q.where_clause.is_some()),
        other => panic!("unexpected {:?}", other),
    }
    match query("DELETE FROM TableType WHERE id = {user_id} RETURNING OutputType") {
        QueryType::Delete(q) => assert!(q.returning.is_some() && q.where_clause.is_some()),
        other => panic!("unexpected {:?}", other),
    }
    match query("EXISTS TableType WHERE email = {user_email}") {
        QueryType::Exists(q) => assert!(q.where_clause.is_some()),
        other => panic!("unexpected {:?}", other),
    }
}
