use vstd::prelude::*;

verus! {

/// Counts the users that pass the three optional filters.
pub const COUNT_USERS_SQL: &'static str = "SELECT COUNT(1) AS count FROM users
        WHERE ($1 OR active = $2) AND ($3 OR age > $4) AND ($5 OR age < $6)";

/// Reads the user with the given id.
pub const USER_BY_ID_SQL: &'static str = "SELECT * FROM users WHERE id = $1";

/// Reads one page of the users that pass the three optional filters.
pub const USERS_PAGE_SQL: &'static str = "SELECT * FROM users
        WHERE ($1 OR active = $2) AND ($3 OR age > $4) AND ($5 OR age < $6)
        LIMIT $7 OFFSET $8";

/// Inserts a user and reads back the stored row.
pub const INSERT_USER_SQL: &'static str = "INSERT INTO users (name, email, age, active) VALUES ($1, $2, $3, $4) RETURNING *";

/// Replaces the fields of a user and reads back the stored row.
pub const UPDATE_USER_SQL: &'static str = "UPDATE users SET name = $1, email = $2, age = $3, active = $4 WHERE id = $5 RETURNING *";

/// Deletes the user with the given id.
pub const DELETE_USER_SQL: &'static str = "DELETE FROM users WHERE id = $1";

/// A stored user.
#[derive(Debug)]
pub struct User {
    pub id: i32,
    pub email: String,
    pub name: String,
    pub age: i32,
    pub active: bool,
}

/// The fields of a user to be created.
#[derive(Debug)]
pub struct NewUser {
    pub email: String,
    pub name: String,
    pub age: i32,
    pub active: bool,
}

/// The new fields of an existing user.
#[derive(Debug)]
pub struct UpdateUser {
    pub email: String,
    pub name: String,
    pub age: i32,
    pub active: bool,
}

/// The filters of a listing: each one that is `Some` must hold of a listed user.
#[derive(Debug)]
pub struct UsersQuery {
    pub active: Option<bool>,
    pub age_gt: Option<i32>,
    pub age_lt: Option<i32>,
}

/// A value bound to a placeholder of a SQL statement.
#[derive(Debug)]
pub enum SqlValue {
    Bool(bool),
    Int4(i32),
    Int8(i64),
    Text(String),
}

/// The mathematical value of a [`SqlValue`].
pub enum SqlValueView {
    Bool(bool),
    Int4(i32),
    Int8(i64),
    Text(Seq<char>),
}

impl View for SqlValue {
    type V = SqlValueView;

    open spec fn view(&self) -> SqlValueView {
        match self {
            SqlValue::Bool(b) => SqlValueView::Bool(*b),
            SqlValue::Int4(i) => SqlValueView::Int4(*i),
            SqlValue::Int8(i) => SqlValueView::Int8(*i),
            SqlValue::Text(s) => SqlValueView::Text(s@),
        }
    }
}

/// How many rows a statement is run for.
#[derive(Debug, Clone, Copy, PartialEq, Eq)]
pub enum FetchMode {
    /// Exactly one row must come back; none is a missing-row error.
    One,
    /// Every row that comes back, possibly none.
    All,
    /// No row is read; the statement is only run.
    Execute,
}

/// A SQL statement, the values of its placeholders `$1`, `$2`, ... in order,
/// and how many rows it is run for.
#[derive(Debug)]
pub struct SqlQuery {
    pub sql: &'static str,
    pub params: Vec<SqlValue>,
    pub fetch: FetchMode,
}

/// The mathematical value of a [`SqlQuery`].
pub struct SqlQueryView {
    pub sql: Seq<char>,
    pub params: Seq<SqlValueView>,
    pub fetch: FetchMode,
}

impl View for SqlQuery {
    type V = SqlQueryView;

    open spec fn view(&self) -> SqlQueryView {
        SqlQueryView {
            sql: self.sql@,
            params: self.params@.map_values(|v: SqlValue| v@),
            fetch: self.fetch,
        }
    }
}

/// Whether `u` passes every filter of `q` that is set.
pub open spec fn matches(q: UsersQuery, u: User) -> bool {
    &&& (q.active matches Some(a) ==> u.active == a)
    &&& (q.age_gt matches Some(g) ==> u.age > g)
    &&& (q.age_lt matches Some(l) ==> u.age < l)
}

/// The six values bound to `$1`..`$6` of the filter clause
/// `($1 OR active = $2) AND ($3 OR age > $4) AND ($5 OR age < $6)`:
/// for each filter, whether it is unset, and its value (or a stand-in).
pub open spec fn filter_values(q: UsersQuery) -> Seq<SqlValueView> {
    seq![
        SqlValueView::Bool(q.active is None),
        SqlValueView::Bool(
            match q.active {
                Some(a) => a,
                None => true,
            },
        ),
        SqlValueView::Bool(q.age_gt is None),
        SqlValueView::Int4(
            match q.age_gt {
                Some(g) => g,
                None => 0,
            },
        ),
        SqlValueView::Bool(q.age_lt is None),
        SqlValueView::Int4(
            match q.age_lt {
                Some(l) => l,
                None => 0,
            },
        ),
    ]
}

/// The boolean bound at position `i`, as SQL reads it.
pub open spec fn bool_at(p: Seq<SqlValueView>, i: int) -> bool {
    match p[i] {
        SqlValueView::Bool(b) => b,
        _ => false,
    }
}

/// The 32-bit integer bound at position `i`, as SQL reads it.
pub open spec fn int4_at(p: Seq<SqlValueView>, i: int) -> int {
    match p[i] {
        SqlValueView::Int4(n) => n as int,
        _ => 0,
    }
}

/// Whether the filter clause
/// `($1 OR active = $2) AND ($3 OR age > $4) AND ($5 OR age < $6)`
/// holds of the row `u` under the bound values `p`.
pub open spec fn filter_clause_holds(p: Seq<SqlValueView>, u: User) -> bool {
    &&& (bool_at(p, 0) || u.active == bool_at(p, 1))
    &&& (bool_at(p, 2) || u.age > int4_at(p, 3))
    &&& (bool_at(p, 4) || u.age < int4_at(p, 5))
}

/// The offset of the first row of page `page` when a page holds `per_page` rows.
pub open spec fn spec_offset(page: i64, per_page: i64) -> int {
    (page - 1) * per_page
}

/// Whether the offset of page `page` can be computed in 64-bit integers:
/// `page - 1` and then `(page - 1) * per_page` both fit.
pub open spec fn offset_fits(page: i64, per_page: i64) -> bool {
    &&& i64::MIN < page
    &&& i64::MIN <= spec_offset(page, per_page) <= i64::MAX
}

/// The filter clause with the values of `q` selects exactly the users that match `q`.
pub proof fn lemma_filter_selects_matching_users(q: UsersQuery, u: User)
    ensures
        filter_clause_holds(filter_values(q), u) <==> matches(q, u),
{
}

/// Consecutive pages follow each other: page `page + 1` starts `per_page`
/// rows after page `page`, and the first page starts at row 0.
pub proof fn lemma_pages_are_consecutive(page: i64, per_page: i64)
    ensures
        spec_offset(1, per_page) == 0,
        spec_offset(page, per_page) + per_page == (page as int) * per_page,
{
    assert(spec_offset(page, per_page) + per_page == (page as int) * per_page) by (nonlinear_arith);
}

/// The offset of page `page` of `per_page` rows, or `None` where computing it
/// overflows a 64-bit integer.
pub fn page_offset(page: i64, per_page: i64) -> (offset: Option<i64>)
    ensures
        match offset {
            Some(o) => offset_fits(page, per_page) && o == spec_offset(page, per_page),
            None => !offset_fits(page, per_page),
        },
{
    if page == i64::MIN {
        return None;
    }
    let previous = page - 1;
    previous.checked_mul(per_page)
}

impl UsersQuery {
    /// The values bound to the filter placeholders `$1`..`$6`.
    pub fn filter_params(&self) -> (params: Vec<SqlValue>)
        ensures
            params@.map_values(|v: SqlValue| v@) == filter_values(*self),
    {
        let active = match self.active {
            Some(a) => a,
            None => true,
        };
        let age_gt = match self.age_gt {
            Some(g) => g,
            None => 0,
        };
        let age_lt = match self.age_lt {
            Some(l) => l,
            None => 0,
        };
        let params = vec![
            SqlValue::Bool(self.active.is_none()),
            SqlValue::Bool(active),
            SqlValue::Bool(self.age_gt.is_none()),
            SqlValue::Int4(age_gt),
            SqlValue::Bool(self.age_lt.is_none()),
            SqlValue::Int4(age_lt),
        ];
        assert(params@.map_values(|v: SqlValue| v@) =~= filter_values(*self));
        params
    }
}

/// The statement that counts the users that match `query`.
pub fn count_query(query: &UsersQuery) -> (q: SqlQuery)
    ensures
        q@ == (SqlQueryView {
            sql: COUNT_USERS_SQL@,
            params: filter_values(*query),
            fetch: FetchMode::One,
        }),
{
    SqlQuery { sql: COUNT_USERS_SQL, params: query.filter_params(), fetch: FetchMode::One }
}

/// The number of users from the row of the count statement; a missing count is 0.
pub fn count_or_zero(count: Option<i64>) -> (total: i64)
    ensures
        total == match count {
            Some(c) => c,
            None => 0,
        },
{
    match count {
        Some(c) => c,
        None => 0,
    }
}

/// The statement that reads the user with id `user_id`.
pub fn by_id_query(user_id: i32) -> (q: SqlQuery)
    ensures
        q@ == (SqlQueryView { sql: USER_BY_ID_SQL@,
            params: seq![SqlValueView::Int4(user_id)],
            fetch: FetchMode::One,
        }),
{
    let params = vec![SqlValue::Int4(user_id)];
    assert(params@.map_values(|v: SqlValue| v@) =~= seq![SqlValueView::Int4(user_id)]);
    SqlQuery { sql: USER_BY_ID_SQL, params, fetch: FetchMode::One }
}

/// The statement that reads page `page` (counted from 1) of `per_page` users
/// among those that match `query`: the filter values, then `LIMIT per_page`
/// and `OFFSET (page - 1) * per_page`.
pub fn page_query(page: i64, per_page: i64, query: &UsersQuery) -> (q: SqlQuery)
    requires
        offset_fits(page, per_page),
    ensures
        q@ == (SqlQueryView {
            sql: USERS_PAGE_SQL@,
            params: filter_values(*query) + seq![
                SqlValueView::Int8(per_page),
                SqlValueView::Int8(spec_offset(page, per_page) as i64),
            ],
            fetch: FetchMode::All,
        }),
{
    let offset = (page - 1) * per_page;
    let mut params = query.filter_params();
    params.push(SqlValue::Int8(per_page));
    params.push(SqlValue::Int8(offset));
    assert(params@.map_values(|v: SqlValue| v@) =~= filter_values(*query) + seq![
        SqlValueView::Int8(per_page),
        SqlValueView::Int8(spec_offset(page, per_page) as i64),
    ]);
    SqlQuery { sql: USERS_PAGE_SQL, params, fetch: FetchMode::All }
}

/// The statement that inserts `new_user`: name, email, age, active.
pub fn insert_query(new_user: NewUser) -> (q: SqlQuery)
    ensures
        q@ == (SqlQueryView {
            sql: INSERT_USER_SQL@,
            params: seq![
                SqlValueView::Text(new_user.name@),
                SqlValueView::Text(new_user.email@),
                SqlValueView::Int4(new_user.age),
                SqlValueView::Bool(new_user.active),
            ],
            fetch: FetchMode::One,
        }),
{
    let ghost expected = seq![
        SqlValueView::Text(new_user.name@),
        SqlValueView::Text(new_user.email@),
        SqlValueView::Int4(new_user.age),
        SqlValueView::Bool(new_user.active),
    ];
    let params = vec![
        SqlValue::Text(new_user.name),
        SqlValue::Text(new_user.email),
        SqlValue::Int4(new_user.age),
        SqlValue::Bool(new_user.active),
    ];
    assert(params@.map_values(|v: SqlValue| v@) =~= expected);
    SqlQuery { sql: INSERT_USER_SQL, params, fetch: FetchMode::One }
}

/// The statement that replaces the fields of user `user_id` with `change`:
/// name, email, age, active, then the id.
pub fn update_query(user_id: i32, change: UpdateUser) -> (q: SqlQuery)
    ensures
        q@ == (SqlQueryView {
            sql: UPDATE_USER_SQL@,
            params: seq![
                SqlValueView::Text(change.name@),
                SqlValueView::Text(change.email@),
                SqlValueView::Int4(change.age),
                SqlValueView::Bool(change.active),
                SqlValueView::Int4(user_id),
            ],
            fetch: FetchMode::One,
        }),
{
    let ghost expected = seq![
        SqlValueView::Text(change.name@),
        SqlValueView::Text(change.email@),
        SqlValueView::Int4(change.age),
        SqlValueView::Bool(change.active),
        SqlValueView::Int4(user_id),
    ];
    let params = vec![
        SqlValue::Text(change.name),
        SqlValue::Text(change.email),
        SqlValue::Int4(change.age),
        SqlValue::Bool(change.active),
        SqlValue::Int4(user_id),
    ];
    assert(params@.map_values(|v: SqlValue| v@) =~= expected);
    SqlQuery { sql: UPDATE_USER_SQL, params, fetch: FetchMode::One }
}

/// The statement that deletes the user with id `user_id`.
pub fn delete_query(user_id: i32) -> (q: SqlQuery)
    ensures
        q@ == (SqlQueryView { sql: DELETE_USER_SQL@,
            params: seq![SqlValueView::Int4(user_id)],
            fetch: FetchMode::Execute,
        }),
{
    let params = vec![SqlValue::Int4(user_id)];
    assert(params@.map_values(|v: SqlValue| v@) =~= seq![SqlValueView::Int4(user_id)]);
    SqlQuery { sql: DELETE_USER_SQL, params, fetch: FetchMode::Execute }
}

} // verus!
