use users_api::repositories::users::{
    by_id_query, count_or_zero, count_query, delete_query, insert_query, page_offset, page_query,
    update_query, FetchMode, NewUser, SqlQuery, SqlValue, UpdateUser, UsersQuery, COUNT_USERS_SQL,
    DELETE_USER_SQL, INSERT_USER_SQL, UPDATE_USER_SQL, USERS_PAGE_SQL, USER_BY_ID_SQL,
};

fn describe(v: &SqlValue) -> String {
    match v {
        SqlValue::Bool(b) => format!("bool:{b}"),
        SqlValue::Int4(i) => format!("int4:{i}"),
        SqlValue::Int8(i) => format!("int8:{i}"),
        SqlValue::Text(s) => format!("text:{s}"),
    }
}

fn params(q: &SqlQuery) -> Vec<String> {
    q.params.iter().map(describe).collect()
}

/// What the filter clause `($1 OR active = $2) AND ($3 OR age > $4) AND ($5 OR age < $6)`
/// evaluates to for a row, as a database would evaluate it.
fn clause_holds(p: &[SqlValue], active: bool, age: i32) -> bool {
    let b = |i: usize| match p[i] {
        SqlValue::Bool(b) => b,
        _ => panic!("expected a boolean"),
    };
    let n = |i: usize| match p[i] {
        SqlValue::Int4(n) => n,
        _ => panic!("expected an integer"),
    };
    (b(0) || active == b(1)) && (b(2) || age > n(3)) && (b(4) || age < n(5))
}

#[test]
fn count_without_filters_binds_defaults() {
    let q = count_query(&UsersQuery { active: None, age_gt: None, age_lt: None });
    assert_eq!(q.sql, COUNT_USERS_SQL);
    assert!(q.sql.starts_with("SELECT COUNT(1) AS count FROM users"));
    assert_eq!(
        params(&q),
        vec!["bool:true", "bool:true", "bool:true", "int4:0", "bool:true", "int4:0"]
    );
}

#[test]
fn count_with_all_filters_binds_values() {
    let q = count_query(&UsersQuery { active: Some(false), age_gt: Some(18), age_lt: Some(65) });
    assert_eq!(
        params(&q),
        vec!["bool:false", "bool:false", "bool:false", "int4:18", "bool:false", "int4:65"]
    );
}

#[test]
fn filter_clause_selects_exactly_matching_users() {
    let queries = [
        UsersQuery { active: None, age_gt: None, age_lt: None },
        UsersQuery { active: Some(true), age_gt: None, age_lt: None },
        UsersQuery { active: Some(false), age_gt: Some(20), age_lt: None },
        UsersQuery { active: None, age_gt: Some(20), age_lt: Some(30) },
    ];
    for q in queries.iter() {
        let p = q.filter_params();
        for active in [true, false] {
            for age in [0, 19, 20, 21, 29, 30, 31, 100] {
                let matches = q.active.map_or(true, |a| active == a)
                    && q.age_gt.map_or(true, |g| age > g)
                    && q.age_lt.map_or(true, |l| age < l);
                assert_eq!(clause_holds(&p, active, age), matches, "{q:?} {active} {age}");
            }
        }
    }
}

#[test]
fn page_offsets() {
    assert_eq!(page_offset(1, 10), Some(0));
    assert_eq!(page_offset(2, 10), Some(10));
    assert_eq!(page_offset(5, 25), Some(100));
    assert_eq!(page_offset(0, 10), Some(-10));
    assert_eq!(page_offset(i64::MIN, 0), None);
    assert_eq!(page_offset(i64::MAX, 2), None);
    assert_eq!(page_offset(i64::MAX, 1), Some(i64::MAX - 1));
}

#[test]
fn consecutive_pages_follow_each_other() {
    for per_page in [1i64, 7, 10] {
        for page in 1i64..5 {
            assert_eq!(
                page_offset(page, per_page).unwrap() + per_page,
                page_offset(page + 1, per_page).unwrap()
            );
        }
    }
}

#[test]
fn page_query_binds_limit_and_offset() {
    let q = page_query(3, 10, &UsersQuery { active: Some(true), age_gt: None, age_lt: None });
    assert_eq!(q.sql, USERS_PAGE_SQL);
    assert!(q.sql.ends_with("LIMIT $7 OFFSET $8"));
    assert_eq!(
        params(&q),
        vec![
            "bool:false", "bool:true", "bool:true", "int4:0", "bool:true", "int4:0", "int8:10",
            "int8:20"
        ]
    );
}

#[test]
fn by_id_and_delete_bind_the_id() {
    let q = by_id_query(42);
    assert_eq!(q.sql, USER_BY_ID_SQL);
    assert_eq!(q.sql, "SELECT * FROM users WHERE id = $1");
    assert_eq!(params(&q), vec!["int4:42"]);
    let d = delete_query(7);
    assert_eq!(d.sql, DELETE_USER_SQL);
    assert_eq!(d.sql, "DELETE FROM users WHERE id = $1");
    assert_eq!(params(&d), vec!["int4:7"]);
}

#[test]
fn insert_binds_name_email_age_active() {
    let q = insert_query(NewUser {
        email: "ann@example.com".to_string(),
        name: "Ann".to_string(),
        age: 31,
        active: true,
    });
    assert_eq!(q.sql, INSERT_USER_SQL);
    assert_eq!(params(&q), vec!["text:Ann", "text:ann@example.com", "int4:31", "bool:true"]);
}

#[test]
fn update_binds_fields_then_id() {
    let q = update_query(
        9,
        UpdateUser { email: "bo@example.com".to_string(), name: "Bo".to_string(), age: 40, active: false },
    );
    assert_eq!(q.sql, UPDATE_USER_SQL);
    assert_eq!(
        params(&q),
        vec!["text:Bo", "text:bo@example.com", "int4:40", "bool:false", "int4:9"]
    );
}

#[test]
fn missing_count_is_zero() {
    assert_eq!(count_or_zero(None), 0);
    assert_eq!(count_or_zero(Some(12)), 12);
}

#[test]
fn fetch_modes() {
    let filters = UsersQuery { active: None, age_gt: None, age_lt: None };
    assert_eq!(count_query(&filters).fetch, FetchMode::One);
    assert_eq!(by_id_query(1).fetch, FetchMode::One);
    assert_eq!(page_query(1, 10, &filters).fetch, FetchMode::All);
    let new_user = NewUser { email: String::new(), name: String::new(), age: 0, active: true };
    assert_eq!(insert_query(new_user).fetch, FetchMode::One);
    let change = UpdateUser { email: String::new(), name: String::new(), age: 0, active: true };
    assert_eq!(update_query(1, change).fetch, FetchMode::One);
    assert_eq!(delete_query(1).fetch, FetchMode::Execute);
}
