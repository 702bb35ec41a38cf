use vstd::prelude::*;
use vstd::std_specs::convert::FromSpecImpl;

use crate::repositories::users::{
    self as repo, count_query, filter_values, FetchMode, offset_fits, page_query, spec_offset, NewUser,
    SqlQuery, SqlQueryView, SqlValueView, UpdateUser, User, COUNT_USERS_SQL, USERS_PAGE_SQL,
};

verus! {

/// The page shown when a listing names none.
pub const DEFAULT_PAGE: i64 = 1;

/// The number of users on a page when a listing names none.
pub const DEFAULT_PER_PAGE: i64 = 10;

/// The query string of a listing of users.
#[derive(Debug, Clone, Copy)]
pub struct UsersQuery {
    /// The page to return
    pub page: Option<i64>,
    /// The number of records to return at one time
    pub per_page: Option<i64>,
    /// Filter users by active status
    pub active: Option<bool>,
    /// Get users older than the given value
    pub age_gt: Option<i32>,
    /// Get users younger than the given value
    pub age_lt: Option<i32>,
}

/// A user as the API shows it.
#[derive(Debug)]
pub struct UserResponse {
    pub id: i32,
    pub email: String,
    pub name: String,
    pub age: i32,
    pub active: bool,
}

/// One page of a listing, with the number of users that match it in all.
#[derive(Debug)]
pub struct PaginatedUsers {
    pub total: i64,
    pub members: Vec<UserResponse>,
}

/// The body of a request that creates a user.
#[derive(Debug, Clone)]
pub struct NewUserRequest {
    pub email: String,
    pub name: String,
    pub age: i32,
    pub active: bool,
}

/// The body of a request that replaces the fields of a user.
#[derive(Debug)]
pub struct UpdateUserRequest {
    pub email: String,
    pub name: String,
    pub age: i32,
    pub active: bool,
}

/// The page a listing asks for.
pub open spec fn spec_page(q: UsersQuery) -> i64 {
    match q.page {
        Some(p) => p,
        None => DEFAULT_PAGE,
    }
}

/// The page size a listing asks for.
pub open spec fn spec_per_page(q: UsersQuery) -> i64 {
    match q.per_page {
        Some(n) => n,
        None => DEFAULT_PER_PAGE,
    }
}

/// The filters of a listing, without its paging.
pub open spec fn spec_filters(q: UsersQuery) -> repo::UsersQuery {
    repo::UsersQuery { active: q.active, age_gt: q.age_gt, age_lt: q.age_lt }
}

/// How the API shows the stored user `u`: every field as it is.
pub open spec fn spec_user_response(u: User) -> UserResponse {
    UserResponse { id: u.id, email: u.email, name: u.name, age: u.age, active: u.active }
}

/// The user that a creation request asks for: every field as it is.
pub open spec fn spec_new_user(r: NewUserRequest) -> NewUser {
    NewUser { email: r.email, name: r.name, age: r.age, active: r.active }
}

/// The change that an update request asks for: every field as it is.
pub open spec fn spec_update_user(r: UpdateUserRequest) -> UpdateUser {
    UpdateUser { email: r.email, name: r.name, age: r.age, active: r.active }
}

impl UsersQuery {
    /// The page asked for, 1 when none is named.
    pub fn page_or_default(&self) -> (page: i64)
        ensures
            page == spec_page(*self),
    {
        match self.page {
            Some(p) => p,
            None => DEFAULT_PAGE,
        }
    }

    /// The page size asked for, 10 when none is named.
    pub fn per_page_or_default(&self) -> (per_page: i64)
        ensures
            per_page == spec_per_page(*self),
    {
        match self.per_page {
            Some(n) => n,
            None => DEFAULT_PER_PAGE,
        }
    }
}

impl From<UsersQuery> for repo::UsersQuery {
    fn from(q: UsersQuery) -> (r: repo::UsersQuery)
        ensures
            r.active == q.active,
            r.age_gt == q.age_gt,
            r.age_lt == q.age_lt,
    {
        repo::UsersQuery { active: q.active, age_gt: q.age_gt, age_lt: q.age_lt }
    }
}

impl FromSpecImpl<UsersQuery> for repo::UsersQuery {
    open spec fn obeys_from_spec() -> bool {
        true
    }

    open spec fn from_spec(q: UsersQuery) -> repo::UsersQuery {
        spec_filters(q)
    }
}

impl From<User> for UserResponse {
    fn from(u: User) -> (r: UserResponse)
        ensures
            r.id == u.id,
            r.email == u.email,
            r.name == u.name,
            r.age == u.age,
            r.active == u.active,
    {
        UserResponse { id: u.id, email: u.email, name: u.name, age: u.age, active: u.active }
    }
}

impl FromSpecImpl<User> for UserResponse {
    open spec fn obeys_from_spec() -> bool {
        true
    }

    open spec fn from_spec(u: User) -> UserResponse {
        spec_user_response(u)
    }
}

impl From<NewUserRequest> for NewUser {
    fn from(r: NewUserRequest) -> (u: NewUser)
        ensures
            u.email == r.email,
            u.name == r.name,
            u.age == r.age,
            u.active == r.active,
    {
        NewUser { email: r.email, name: r.name, age: r.age, active: r.active }
    }
}

impl FromSpecImpl<NewUserRequest> for NewUser {
    open spec fn obeys_from_spec() -> bool {
        true
    }

    open spec fn from_spec(r: NewUserRequest) -> NewUser {
        spec_new_user(r)
    }
}

impl From<UpdateUserRequest> for UpdateUser {
    fn from(r: UpdateUserRequest) -> (u: UpdateUser)
        ensures
            u.email == r.email,
            u.name == r.name,
            u.age == r.age,
            u.active == r.active,
    {
        UpdateUser { email: r.email, name: r.name, age: r.age, active: r.active }
    }
}

impl FromSpecImpl<UpdateUserRequest> for UpdateUser {
    open spec fn obeys_from_spec() -> bool {
        true
    }

    open spec fn from_spec(r: UpdateUserRequest) -> UpdateUser {
        spec_update_user(r)
    }
}

/// A listing is filtered by exactly the filters of its query string: a user
/// passes the statement's filter clause if and only if it has the requested
/// active status (where one is given), is older than `age[gt]` (where given)
/// and younger than `age[lt]` (where given).
pub proof fn lemma_listing_filters_are_the_query_filters(q: UsersQuery, u: User)
    ensures
        spec_filters(q).active == q.active,
        spec_filters(q).age_gt == q.age_gt,
        spec_filters(q).age_lt == q.age_lt,
        repo::filter_clause_holds(filter_values(spec_filters(q)), u) <==> {
            &&& (q.active matches Some(a) ==> u.active == a)
            &&& (q.age_gt matches Some(g) ==> u.age > g)
            &&& (q.age_lt matches Some(l) ==> u.age < l)
        },
{
    repo::lemma_filter_selects_matching_users(spec_filters(q), u);
}

/// The API shows every field of a stored user as it is.
pub proof fn lemma_user_response_shows_every_field(u: User)
    ensures
        spec_user_response(u).id == u.id,
        spec_user_response(u).email == u.email,
        spec_user_response(u).name == u.name,
        spec_user_response(u).age == u.age,
        spec_user_response(u).active == u.active,
{
}

/// A creation request becomes the user to store with every field unchanged.
pub proof fn lemma_new_user_keeps_every_field(r: NewUserRequest)
    ensures
        spec_new_user(r).email == r.email,
        spec_new_user(r).name == r.name,
        spec_new_user(r).age == r.age,
        spec_new_user(r).active == r.active,
{
}

/// An update request becomes the change to store with every field unchanged.
pub proof fn lemma_update_user_keeps_every_field(r: UpdateUserRequest)
    ensures
        spec_update_user(r).email == r.email,
        spec_update_user(r).name == r.name,
        spec_update_user(r).age == r.age,
        spec_update_user(r).active == r.active,
{
}

/// The two statements of a listing: the count of all users that match its
/// filters, and the requested page of them.
#[derive(Debug)]
pub struct ListingQueries {
    pub count: SqlQuery,
    pub page: SqlQuery,
}

/// Whether the offset of the page a listing asks for can be computed.
pub open spec fn listing_fits(q: UsersQuery) -> bool {
    offset_fits(spec_page(q), spec_per_page(q))
}

/// Whether the offset of the page that `query` asks for can be computed.
pub fn can_list(query: &UsersQuery) -> (b: bool)
    ensures
        b == listing_fits(*query),
{
    repo::page_offset(query.page_or_default(), query.per_page_or_default()).is_some()
}

/// The statements that answer the listing `query`: the count over its filters,
/// and page `page` (1 by default) of `per_page` users (10 by default).
pub fn listing_queries(query: &UsersQuery) -> (l: ListingQueries)
    requires
        listing_fits(*query),
    ensures
        l.count@ == (SqlQueryView {
            sql: COUNT_USERS_SQL@,
            params: filter_values(spec_filters(*query)),
            fetch: FetchMode::One,
        }),
        l.page@ == (SqlQueryView {
            sql: USERS_PAGE_SQL@,
            params: filter_values(spec_filters(*query)) + seq![
                SqlValueView::Int8(spec_per_page(*query)),
                SqlValueView::Int8(spec_offset(spec_page(*query), spec_per_page(*query)) as i64),
            ],
            fetch: FetchMode::All,
        }),
{
    let filters: repo::UsersQuery = (*query).into();
    let count = count_query(&filters);
    let page = page_query(query.page_or_default(), query.per_page_or_default(), &filters);
    ListingQueries { count, page }
}

/// The page of a listing: the total count and each user of the page, in
/// order, as the API shows it.
pub fn paginated_users(total: i64, users: Vec<User>) -> (page: PaginatedUsers)
    ensures
        page.total == total,
        page.members@.len() == users@.len(),
        forall|i: int|
            0 <= i < users@.len() ==> #[trigger] page.members@[i] == spec_user_response(users@[i]),
        forall|i: int|
            0 <= i < users@.len() ==> {
                let (m, u) = (#[trigger] page.members@[i], users@[i]);
                &&& m.id == u.id
                &&& m.email == u.email
                &&& m.name == u.name
                &&& m.age == u.age
                &&& m.active == u.active
            },
{
    let mut members: Vec<UserResponse> = Vec::new();
    let n = users.len();
    let mut i: usize = 0;
    while i < n
        invariant
            n == users@.len(),
            i <= n,
            members@.len() == i,
            forall|j: int| 0 <= j < i ==> #[trigger] members@[j] == spec_user_response(users@[j]),
        decreases n - i,
    {
        let u = &users[i];
        let shown = UserResponse {
            id: u.id,
            email: u.email.clone(),
            name: u.name.clone(),
            age: u.age,
            active: u.active,
        };
        members.push(shown);
        i = i + 1;
    }
    PaginatedUsers { total, members }
}

} // verus!
