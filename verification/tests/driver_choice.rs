use sql_macros::macro_input::{choose_query_drivers, choose_sql_driver, DriverError, ProvidedDrivers, SqlDriver};
use sql_macros::syntax::{rust_run_result, RustSyntax, Span};
use sql_macros::table_join::{choose_supported_drivers, DriverList};
use sql_macros::tokens::ParseErrorKind;

fn sp(start: usize, end: usize) -> Span {
    Span { start, end }
}

fn names(v: &[&str]) -> Vec<String> {
    v.iter().map(|s| s.to_string()).collect()
}

#[test]
fn sql_driver_follows_the_path_answer() {
    let one = names(&["easy_sql::Sqlite"]);
    assert_eq!(choose_sql_driver(None, &one, true).unwrap(), SqlDriver::Default("easy_sql::Sqlite".to_string()));
    assert_eq!(choose_sql_driver(None, &one, false).unwrap_err(), DriverError::InvalidDriverName(0));
    assert_eq!(choose_sql_driver(Some(sp(1, 2)), &one, false).unwrap(), SqlDriver::Explicit(sp(1, 2)));
    assert_eq!(choose_sql_driver(None, &names(&[]), true).unwrap_err(), DriverError::NoDefaultDrivers);
    assert_eq!(choose_sql_driver(None, &names(&["a", "b"]), true).unwrap_err(), DriverError::MultipleDefaultDrivers);
}

#[test]
fn query_drivers_stop_at_the_first_unlexed_name() {
    let two = names(&["a::A", "b::B"]);
    let r = choose_query_drivers(None, &two, &vec![true, true], sp(3, 4)).unwrap();
    assert_eq!(r, ProvidedDrivers::MultipleWithConn { drivers: two.clone(), conn: sp(3, 4) });
    let e = choose_query_drivers(None, &two, &vec![true, false], sp(3, 4)).unwrap_err();
    assert_eq!(e, DriverError::InvalidDriverName(1));
    let e = choose_query_drivers(None, &two, &vec![false, false], sp(3, 4)).unwrap_err();
    assert_eq!(e, DriverError::InvalidDriverName(0));
    let r = choose_query_drivers(Some(sp(1, 2)), &two, &vec![false, false], sp(3, 4)).unwrap();
    assert_eq!(r, ProvidedDrivers::Single(sp(1, 2)));
}

#[test]
fn supported_drivers_follow_the_path_answers() {
    let two = names(&["a::A", "b::B"]);
    assert_eq!(
        choose_supported_drivers(None, &two, &vec![true, true]).unwrap(),
        DriverList::Defaults(two.clone())
    );
    assert_eq!(
        choose_supported_drivers(None, &two, &vec![true, false]).unwrap_err(),
        DriverError::InvalidDriverName(1)
    );
    assert_eq!(
        choose_supported_drivers(Some(vec![sp(0, 1)]), &two, &vec![false, false]).unwrap(),
        DriverList::Explicit(vec![sp(0, 1)])
    );
    assert_eq!(
        choose_supported_drivers(Some(vec![]), &two, &vec![true, true]).unwrap_err(),
        DriverError::EmptyDriverList
    );
}

#[test]
fn rust_run_result_needs_a_nonempty_accepted_run() {
    assert_eq!(rust_run_result(2, 5, RustSyntax::Type, true).unwrap(), (sp(2, 5), 5));
    let e = rust_run_result(2, 5, RustSyntax::Path, false).unwrap_err();
    assert_eq!((e.pos, e.kind), (2, ParseErrorKind::InvalidPath));
    let e = rust_run_result(2, 2, RustSyntax::Expr, true).unwrap_err();
    assert_eq!((e.pos, e.kind), (2, ParseErrorKind::InvalidExpr));
}
