use chrono::{NaiveDate, NaiveDateTime};
use user_lookup::{
    build_info_query, build_search_query, error_response, health_checker_handler, info_action,
    info_response, search_pattern, search_response, FilterOptions, InfoAction, InfoQuery,
    Pagination, QueryError, Response, ResponseBody, SearchQuery, SqlParam, UserModel,
};

fn at_midnight(y: i32, m: u32, d: u32) -> NaiveDateTime {
    NaiveDate::from_ymd_opt(y, m, d).unwrap().and_hms_opt(0, 0, 0).unwrap()
}

fn alice() -> UserModel {
    UserModel {
        uid: "0000000001".to_string(),
        birthday: at_midnight(1990, 5, 1),
        sex: "F".to_string(),
        name: "Alice".to_string(),
    }
}

fn lookup(uid: Option<&str>, upper: Option<&str>, lower: Option<&str>) -> InfoQuery {
    InfoQuery {
        uid: uid.map(|s| s.to_string()),
        upper_date: upper.map(|s| s.to_string()),
        lower_date: lower.map(|s| s.to_string()),
        page: None,
        limit: None,
    }
}

fn text(s: &str) -> SqlParam {
    SqlParam::Text(s.to_string())
}

fn assert_status(r: &Response, code: u16, status: &str, message: &str) {
    assert_eq!(r.status, code);
    match &r.body {
        ResponseBody::Status { status: s, message: m } => {
            assert_eq!(s, status);
            assert_eq!(m, message);
        }
        ResponseBody::Users(_) => panic!("expected a status body"),
    }
}

fn users_of(r: &Response) -> &Vec<UserModel> {
    match &r.body {
        ResponseBody::Users(rows) => rows,
        ResponseBody::Status { .. } => panic!("expected a list of users"),
    }
}

#[test]
fn test_health_checker_handler() {
    let resp = health_checker_handler();
    assert!(resp.status >= 200 && resp.status < 300);
    assert_status(&resp, 200, "success", "Jungle Challenge");
}

#[test]
fn no_filter_is_refused_without_statement() {
    let q = lookup(None, None, None);
    assert_eq!(build_info_query(&q).unwrap_err(), QueryError::MissingFilter);
    match info_action(&q) {
        InfoAction::Reply(r) => {
            assert_status(&r, 400, "error", "Please provide at least one query parameter")
        }
        InfoAction::Fetch(_) => panic!("a request without filters must not reach the store"),
    }
}

#[test]
fn no_filter_is_refused_whatever_the_paging() {
    let mut q = lookup(None, None, None);
    q.page = Some(0);
    q.limit = Some(3);
    assert_eq!(build_info_query(&q).unwrap_err(), QueryError::MissingFilter);
}

#[test]
fn uid_only_has_one_predicate_and_default_window() {
    let stmt = build_info_query(&lookup(Some("U1"), None, None)).unwrap();
    assert_eq!(stmt.text, "SELECT uid, name, birthday, sex FROM users u WHERE u.uid = $1 LIMIT $2 OFFSET $3");
    assert_eq!(stmt.params, vec![text("U1"), SqlParam::BigInt(10), SqlParam::BigInt(0)]);
}

#[test]
fn lower_bound_orders_by_name() {
    let stmt = build_info_query(&lookup(None, None, Some("1990-01-01"))).unwrap();
    assert_eq!(
        stmt.text,
        "SELECT uid, name, birthday, sex FROM users u WHERE u.birthday >= CAST($1 AS TIMESTAMP) ORDER BY u.name LIMIT $2 OFFSET $3"
    );
    assert_eq!(stmt.params, vec![text("1990-01-01"), SqlParam::BigInt(10), SqlParam::BigInt(0)]);
}

#[test]
fn upper_bound_orders_by_name() {
    let stmt = build_info_query(&lookup(None, Some("1990-01-01"), None)).unwrap();
    assert!(stmt.text.contains(" ORDER BY u.name "));
    assert!(stmt.text.contains("u.birthday <= CAST($1 AS TIMESTAMP)"));
}

#[test]
fn all_filters_joined_in_order() {
    let mut q = lookup(Some("0000000001"), Some("2000-01-01"), Some("1980-01-01"));
    q.page = Some(3);
    q.limit = Some(4);
    let stmt = build_info_query(&q).unwrap();
    assert_eq!(
        stmt.text,
        "SELECT uid, name, birthday, sex FROM users u WHERE u.uid = $1 AND u.birthday <= CAST($2 AS TIMESTAMP) AND u.birthday >= CAST($3 AS TIMESTAMP) ORDER BY u.name LIMIT $4 OFFSET $5"
    );
    assert_eq!(
        stmt.params,
        vec![
            text("0000000001"),
            text("2000-01-01"),
            text("1980-01-01"),
            SqlParam::BigInt(4),
            SqlParam::BigInt(8),
        ]
    );
}

#[test]
fn values_are_bound_not_written_into_text() {
    let hostile = "x' OR '1'='1";
    let stmt = build_info_query(&lookup(Some(hostile), None, None)).unwrap();
    assert!(!stmt.text.contains(hostile));
    assert_eq!(stmt.params[0], text(hostile));
}

#[test]
fn pagination_second_page() {
    let o = FilterOptions { page: Some(2), limit: Some(5) };
    assert_eq!(o.pagination(), Ok(Pagination { limit: 5, offset: 5 }));
}

#[test]
fn pagination_first_page() {
    let o = FilterOptions { page: Some(1), limit: Some(5) };
    assert_eq!(o.pagination(), Ok(Pagination { limit: 5, offset: 0 }));
}

#[test]
fn pagination_defaults() {
    let o = FilterOptions { page: None, limit: None };
    assert_eq!(o.pagination(), Ok(Pagination { limit: 10, offset: 0 }));
    let q = InfoQuery { page: Some(7), limit: None, ..lookup(Some("a"), None, None) };
    assert_eq!(q.filter_options().pagination(), Ok(Pagination { limit: 10, offset: 60 }));
}

#[test]
fn page_zero_is_refused() {
    let o = FilterOptions { page: Some(0), limit: Some(5) };
    assert_eq!(o.pagination(), Err(QueryError::InvalidPage));
    let q = InfoQuery { page: Some(0), ..lookup(Some("a"), None, None) };
    match info_action(&q) {
        InfoAction::Reply(r) => assert_status(&r, 400, "error", "The page must be at least 1"),
        InfoAction::Fetch(_) => panic!("page zero must not reach the store"),
    }
}

#[test]
fn window_beyond_store_integers_is_refused() {
    let o = FilterOptions { page: Some(1), limit: Some(usize::MAX) };
    assert_eq!(o.pagination(), Err(QueryError::PaginationOutOfRange));
    let o = FilterOptions { page: Some(usize::MAX), limit: Some(2) };
    assert_eq!(o.pagination(), Err(QueryError::PaginationOutOfRange));
    let largest = i64::MAX as usize;
    let o = FilterOptions { page: Some(2), limit: Some(largest) };
    assert_eq!(o.pagination(), Ok(Pagination { limit: i64::MAX, offset: i64::MAX }));
    let r = error_response(QueryError::PaginationOutOfRange);
    assert_status(&r, 400, "error", "The page and limit are too large");
}

#[test]
fn search_pattern_wraps_name() {
    assert_eq!(search_pattern("ann"), "%ann%");
    assert_eq!(search_pattern(""), "%%");
    let stmt = build_search_query(&SearchQuery { name: "ann".to_string() });
    assert_eq!(
        stmt.text,
        "SELECT uid, name, birthday, sex FROM users u WHERE u.name ILIKE $1 ORDER BY u.name"
    );
    assert_eq!(stmt.params, vec![text("%ann%")]);
}

#[test]
fn repeated_requests_give_same_statements() {
    let q = lookup(Some("U1"), None, Some("1990-01-01"));
    let a = build_info_query(&q).unwrap();
    let b = build_info_query(&q).unwrap();
    assert_eq!(a.text, b.text);
    assert_eq!(a.params, b.params);
    let s = SearchQuery { name: "ann".to_string() };
    let c = build_search_query(&s);
    let d = build_search_query(&s);
    assert_eq!(c.text, d.text);
    assert_eq!(c.params, d.params);
}

#[test]
fn end_to_end_lookup_and_search() {
    match info_action(&lookup(Some("0000000001"), None, None)) {
        InfoAction::Fetch(stmt) => {
            assert_eq!(stmt.params, vec![text("0000000001"), SqlParam::BigInt(10), SqlParam::BigInt(0)])
        }
        InfoAction::Reply(_) => panic!("a lookup by uid goes to the store"),
    }
    let r = info_response(Ok(vec![alice()]));
    assert_eq!(r.status, 200);
    let rows = users_of(&r);
    assert_eq!(rows.len(), 1);
    assert_eq!(rows[0].uid, "0000000001");
    assert_eq!(rows[0].name, "Alice");
    assert_eq!(rows[0].sex, "F");
    assert_eq!(rows[0].birthday, at_midnight(1990, 5, 1));

    match info_action(&lookup(None, None, None)) {
        InfoAction::Reply(r) => {
            assert_status(&r, 400, "error", "Please provide at least one query parameter")
        }
        InfoAction::Fetch(_) => panic!("no filters, no statement"),
    }

    let stmt = build_search_query(&SearchQuery { name: "al".to_string() });
    assert_eq!(stmt.params, vec![text("%al%")]);
    let r = search_response(Ok(vec![alice()]));
    assert_eq!(r.status, 200);
    assert_eq!(users_of(&r).len(), 1);
    assert_eq!(users_of(&r)[0].name, "Alice");
}

#[test]
fn store_failures_are_server_errors() {
    let r = info_response(Err(sqlx::Error::RowNotFound));
    assert_status(&r, 500, "error", "Something bad happened while fetching user info");
    let r = search_response(Err(sqlx::Error::Protocol("broken".to_string())));
    assert_status(&r, 500, "error", "Something bad happened while fetching all user items");
}

#[test]
fn empty_result_is_an_empty_list() {
    let r = search_response(Ok(vec![]));
    assert_eq!(r.status, 200);
    assert!(users_of(&r).is_empty());
}
