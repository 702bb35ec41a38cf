use vstd::prelude::*;

use crate::database::{classify_db_error, is_row_not_found, DbErrorKind, ROW_NOT_FOUND_TEXT};

verus! {

/// The `@type` of every structured error body.
pub const HYDRA_ERROR_TYPE: &'static str = "http://www.w3.org/ns/hydra/core#Error";

/// The text of the JSON string that answers an internal server error.
pub const INTERNAL_ERROR_MESSAGE: &'static str = "Internal server error: please again try later";

/// The key of a structured error body that holds [`HYDRA_ERROR_TYPE`].
pub const TYPE_KEY: &'static str = "@type";

/// The key of a structured error body that holds its title.
pub const TITLE_KEY: &'static str = "title";

/// The key of a structured error body that holds its detail, where there is one.
pub const DETAIL_KEY: &'static str = "detail";

/// The errors a request can end in.
#[derive(Debug)]
pub enum Error {
    InternalServerError,
    BadRequest(String),
    Forbidden,
    Unauthorized,
    NotFound(String),
}

/// The body of an error response, before it is written out as JSON.
#[derive(Debug)]
pub enum ErrorBody {
    /// A bare JSON string.
    Message(String),
    /// A JSON object with `type_uri` under [`TYPE_KEY`], `title` under
    /// [`TITLE_KEY`], and `detail` under [`DETAIL_KEY`] where it is `Some`.
    Problem { type_uri: String, title: String, detail: Option<String> },
}

/// The mathematical value of an [`ErrorBody`].
pub enum ErrorBodyView {
    Message(Seq<char>),
    Problem { type_uri: Seq<char>, title: Seq<char>, detail: Option<Seq<char>> },
}

impl View for ErrorBody {
    type V = ErrorBodyView;

    open spec fn view(&self) -> ErrorBodyView {
        match self {
            ErrorBody::Message(m) => ErrorBodyView::Message(m@),
            ErrorBody::Problem { type_uri, title, detail } => ErrorBodyView::Problem {
                type_uri: type_uri@,
                title: title@,
                detail: match detail {
                    Some(d) => Some(d@),
                    None => None,
                },
            },
        }
    }
}

/// The HTTP answer to an [`Error`]: a status code and a body.
#[derive(Debug)]
pub struct ErrorResponse {
    pub status: u16,
    pub body: ErrorBody,
}

/// The HTTP status code that answers `e`.
pub open spec fn spec_status(e: Error) -> u16 {
    match e {
        Error::InternalServerError => 500,
        Error::BadRequest(_) => 400,
        Error::Forbidden => 403,
        Error::Unauthorized => 401,
        Error::NotFound(_) => 404,
    }
}

/// A structured error body with the given title and optional detail.
pub open spec fn problem(title: Seq<char>, detail: Option<Seq<char>>) -> ErrorBodyView {
    ErrorBodyView::Problem { type_uri: HYDRA_ERROR_TYPE@, title, detail }
}

/// The body that answers `e`.
pub open spec fn spec_body(e: Error) -> ErrorBodyView {
    match e {
        Error::InternalServerError => ErrorBodyView::Message(INTERNAL_ERROR_MESSAGE@),
        Error::BadRequest(m) => problem("Bad Request"@, Some(m@)),
        Error::Forbidden => problem("Forbidden"@, None),
        Error::Unauthorized => problem("Unauthorized"@, None),
        Error::NotFound(m) => problem("Not Found"@, Some(m@)),
    }
}

/// The human-readable text of `e`.
pub open spec fn spec_message(e: Error) -> Seq<char> {
    match e {
        Error::InternalServerError => "Internal Server Error"@,
        Error::BadRequest(m) => "BadRequest: "@ + m@,
        Error::Forbidden => "Forbidden"@,
        Error::Unauthorized => "Unauthorized"@,
        Error::NotFound(m) => "NotFound: "@ + m@,
    }
}

/// The error that a database failure of the given kind becomes.
pub open spec fn spec_from_db_error_kind(kind: DbErrorKind) -> Error {
    match kind {
        DbErrorKind::RowNotFound(text) => Error::NotFound(text),
        DbErrorKind::Other => Error::InternalServerError,
    }
}

/// Every error is answered with a client or server error status, and only an
/// internal error is answered with a server error status.
pub proof fn lemma_error_statuses(e: Error)
    ensures
        400 <= spec_status(e) < 600,
        spec_status(e) >= 500 <==> e is InternalServerError,
        spec_body(e) is Message <==> e is InternalServerError,
{
}

impl Error {
    /// The HTTP status code that answers this error.
    pub fn status_code(&self) -> (status: u16)
        ensures
            status == spec_status(*self),
    {
        match self {
            Error::InternalServerError => 500,
            Error::BadRequest(_) => 400,
            Error::Forbidden => 403,
            Error::Unauthorized => 401,
            Error::NotFound(_) => 404,
        }
    }

    /// The human-readable text of this error.
    pub fn message(&self) -> (text: String)
        ensures
            text@ == spec_message(*self),
    {
        match self {
            Error::InternalServerError => String::from_str("Internal Server Error"),
            Error::BadRequest(m) => String::from_str("BadRequest: ").concat(m.as_str()),
            Error::Forbidden => String::from_str("Forbidden"),
            Error::Unauthorized => String::from_str("Unauthorized"),
            Error::NotFound(m) => String::from_str("NotFound: ").concat(m.as_str()),
        }
    }

    /// The HTTP response that answers this error.
    pub fn error_response(&self) -> (response: ErrorResponse)
        ensures
            response.status == spec_status(*self),
            response.body@ == spec_body(*self),
    {
        let status = self.status_code();
        let body = match self {
            Error::InternalServerError => ErrorBody::Message(String::from_str(INTERNAL_ERROR_MESSAGE)),
            Error::BadRequest(m) => ErrorBody::Problem {
                type_uri: String::from_str(HYDRA_ERROR_TYPE),
                title: String::from_str("Bad Request"),
                detail: Some(m.clone()),
            },
            Error::Forbidden => ErrorBody::Problem {
                type_uri: String::from_str(HYDRA_ERROR_TYPE),
                title: String::from_str("Forbidden"),
                detail: None,
            },
            Error::Unauthorized => ErrorBody::Problem {
                type_uri: String::from_str(HYDRA_ERROR_TYPE),
                title: String::from_str("Unauthorized"),
                detail: None,
            },
            Error::NotFound(m) => ErrorBody::Problem {
                type_uri: String::from_str(HYDRA_ERROR_TYPE),
                title: String::from_str("Not Found"),
                detail: Some(m.clone()),
            },
        };
        ErrorResponse { status, body }
    }

    /// The error that a database failure of the given kind becomes: a missing
    /// row is `NotFound` with the driver's message, anything else is internal.
    pub fn from_db_error_kind(kind: DbErrorKind) -> (e: Error)
        ensures
            e == spec_from_db_error_kind(kind),
    {
        match kind {
            DbErrorKind::RowNotFound(text) => Error::NotFound(text),
            DbErrorKind::Other => Error::InternalServerError,
        }
    }

    /// The error that a failure of the database driver becomes: a missing row
    /// is `NotFound` with the driver's message, any other failure is internal.
    pub fn from_db_error(err: sqlx::Error) -> (e: Error)
        ensures
            is_row_not_found(err) <==> e is NotFound,
            !is_row_not_found(err) <==> e is InternalServerError,
            e matches Error::NotFound(text) ==> text@ == ROW_NOT_FOUND_TEXT@,
    {
        let kind = classify_db_error(&err);
        Error::from_db_error_kind(kind)
    }
}

} // verus!
