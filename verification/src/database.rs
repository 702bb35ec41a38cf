use vstd::prelude::*;

use sqlx::Error as SqlxError;

verus! {

/// What the database driver says when a query that must return a row returns none.
pub const ROW_NOT_FOUND_TEXT: &'static str = "no rows returned by a query that expected to return at least one row";

/// How a database error is told apart by the logic above it.
#[derive(Debug)]
pub enum DbErrorKind {
    /// The query had to return a row and returned none; the driver's message.
    RowNotFound(String),
    /// Any other failure of the database or of the connection to it.
    Other,
}

/// Whether a database driver error is of the variant `sqlx::Error::RowNotFound`.
pub uninterp spec fn is_row_not_found(err: SqlxError) -> bool;

/// Tells a `sqlx::Error` of the variant `RowNotFound` from every other: it
/// answers `RowNotFound` exactly for that variant, and then hands back the
/// error's `to_string()`, which sqlx's source fixes (through its `#[error(..)]`
/// attribute) to the text [`ROW_NOT_FOUND_TEXT`].
#[verifier::external_body]
pub(crate) fn classify_db_error(err: &SqlxError) -> (kind: DbErrorKind)
    ensures
        (kind is RowNotFound) == is_row_not_found(*err),
        kind matches DbErrorKind::RowNotFound(text) ==> text@ == ROW_NOT_FOUND_TEXT@,
{
    match err {
        sqlx::Error::RowNotFound => DbErrorKind::RowNotFound(err.to_string()),
        _ => DbErrorKind::Other,
    }
}

/// The error type of the database driver.
#[verifier::external_type_specification]
#[verifier::external_body]
pub struct ExSqlxError(SqlxError);

} // verus!
