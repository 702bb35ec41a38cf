use users_api::database::{DbErrorKind, ROW_NOT_FOUND_TEXT};
use users_api::error::{Error, ErrorBody, HYDRA_ERROR_TYPE, INTERNAL_ERROR_MESSAGE};

fn problem_parts(e: &Error) -> (u16, String, String, Option<String>) {
    let r = e.error_response();
    match r.body {
        ErrorBody::Problem { type_uri, title, detail } => (r.status, type_uri, title, detail),
        ErrorBody::Message(m) => panic!("unexpected message body {m}"),
    }
}

#[test]
fn internal_error_answers_500_with_plain_message() {
    let r = Error::InternalServerError.error_response();
    assert_eq!(r.status, 500);
    match r.body {
        ErrorBody::Message(m) => assert_eq!(m, "Internal server error: please again try later"),
        _ => panic!("expected a bare message"),
    }
    assert_eq!(INTERNAL_ERROR_MESSAGE, "Internal server error: please again try later");
}

#[test]
fn bad_request_answers_400_with_detail() {
    let (status, ty, title, detail) = problem_parts(&Error::BadRequest("age must be positive".to_string()));
    assert_eq!(status, 400);
    assert_eq!(ty, "http://www.w3.org/ns/hydra/core#Error");
    assert_eq!(ty, HYDRA_ERROR_TYPE);
    assert_eq!(title, "Bad Request");
    assert_eq!(detail, Some("age must be positive".to_string()));
}

#[test]
fn forbidden_answers_403_without_detail() {
    let (status, _, title, detail) = problem_parts(&Error::Forbidden);
    assert_eq!(status, 403);
    assert_eq!(title, "Forbidden");
    assert_eq!(detail, None);
}

#[test]
fn unauthorized_answers_401_without_detail() {
    let (status, _, title, detail) = problem_parts(&Error::Unauthorized);
    assert_eq!(status, 401);
    assert_eq!(title, "Unauthorized");
    assert_eq!(detail, None);
}

#[test]
fn not_found_answers_404_with_detail() {
    let (status, _, title, detail) = problem_parts(&Error::NotFound("user 7".to_string()));
    assert_eq!(status, 404);
    assert_eq!(title, "Not Found");
    assert_eq!(detail, Some("user 7".to_string()));
}

#[test]
fn status_code_of_each_variant() {
    assert_eq!(Error::InternalServerError.status_code(), 500);
    assert_eq!(Error::BadRequest(String::new()).status_code(), 400);
    assert_eq!(Error::Forbidden.status_code(), 403);
    assert_eq!(Error::Unauthorized.status_code(), 401);
    assert_eq!(Error::NotFound(String::new()).status_code(), 404);
}

#[test]
fn messages_of_each_variant() {
    assert_eq!(Error::InternalServerError.message(), "Internal Server Error");
    assert_eq!(Error::BadRequest("x".to_string()).message(), "BadRequest: x");
    assert_eq!(Error::Forbidden.message(), "Forbidden");
    assert_eq!(Error::Unauthorized.message(), "Unauthorized");
    assert_eq!(Error::NotFound("user 7".to_string()).message(), "NotFound: user 7");
}

#[test]
fn missing_row_becomes_not_found() {
    match Error::from_db_error(sqlx::Error::RowNotFound) {
        Error::NotFound(m) => {
            assert_eq!(m, "no rows returned by a query that expected to return at least one row");
            assert_eq!(m, ROW_NOT_FOUND_TEXT);
        }
        other => panic!("expected NotFound, got {other:?}"),
    }
}

#[test]
fn other_database_errors_become_internal() {
    assert!(matches!(Error::from_db_error(sqlx::Error::PoolTimedOut), Error::InternalServerError));
    assert!(matches!(Error::from_db_error(sqlx::Error::PoolClosed), Error::InternalServerError));
    assert!(matches!(
        Error::from_db_error(sqlx::Error::ColumnNotFound("age".to_string())),
        Error::InternalServerError
    ));
}

#[test]
fn db_error_kinds_map_exactly() {
    match Error::from_db_error_kind(DbErrorKind::RowNotFound("gone".to_string())) {
        Error::NotFound(m) => assert_eq!(m, "gone"),
        other => panic!("expected NotFound, got {other:?}"),
    }
    assert!(matches!(Error::from_db_error_kind(DbErrorKind::Other), Error::InternalServerError));
}

#[test]
fn error_body_keys() {
    assert_eq!(users_api::error::TYPE_KEY, "@type");
    assert_eq!(users_api::error::TITLE_KEY, "title");
    assert_eq!(users_api::error::DETAIL_KEY, "detail");
}
