//! The errors that the service reports to its clients.

use vstd::prelude::*;
use vstd::string::StringExecFns;

verus! {

/// An error as a client sees it: one of five classes, each with a message.
#[derive(Debug)]
pub enum ServiceError {
    Unauthorized(String),
    InternalServerError(String),
    BadRequest(String),
    Forbidden(String),
    NotFound(String),
}

/// The mathematical value of a [`ServiceError`]: its class and the characters
/// of its message.
pub enum ServiceErrorView {
    Unauthorized(Seq<char>),
    InternalServerError(Seq<char>),
    BadRequest(Seq<char>),
    Forbidden(Seq<char>),
    NotFound(Seq<char>),
}

impl ServiceErrorView {
    /// The message, whatever the class.
    pub open spec fn message(self) -> Seq<char> {
        match self {
            ServiceErrorView::Unauthorized(m) => m,
            ServiceErrorView::InternalServerError(m) => m,
            ServiceErrorView::BadRequest(m) => m,
            ServiceErrorView::Forbidden(m) => m,
            ServiceErrorView::NotFound(m) => m,
        }
    }

    /// The HTTP status that answers a request failing with this error.
    pub open spec fn status(self) -> int {
        match self {
            ServiceErrorView::Unauthorized(_) => 401,
            ServiceErrorView::InternalServerError(_) => 500,
            ServiceErrorView::BadRequest(_) => 400,
            ServiceErrorView::Forbidden(_) => 403,
            ServiceErrorView::NotFound(_) => 404,
        }
    }

    /// The words that name the class in a rendered error.
    pub open spec fn label(self) -> Seq<char> {
        match self {
            ServiceErrorView::Unauthorized(_) => "Unauthorized: "@,
            ServiceErrorView::InternalServerError(_) => "Internal Server Error: "@,
            ServiceErrorView::BadRequest(_) => "Bad Request: "@,
            ServiceErrorView::Forbidden(_) => "Forbidden: "@,
            ServiceErrorView::NotFound(_) => "Not Found: "@,
        }
    }

    /// The rendered error: the class label followed by the message.
    pub open spec fn rendered(self) -> Seq<char> {
        self.label() + self.message()
    }
}

impl View for ServiceError {
    type V = ServiceErrorView;

    open spec fn view(&self) -> ServiceErrorView {
        match self {
            ServiceError::Unauthorized(m) => ServiceErrorView::Unauthorized(m@),
            ServiceError::InternalServerError(m) => ServiceErrorView::InternalServerError(m@),
            ServiceError::BadRequest(m) => ServiceErrorView::BadRequest(m@),
            ServiceError::Forbidden(m) => ServiceErrorView::Forbidden(m@),
            ServiceError::NotFound(m) => ServiceErrorView::NotFound(m@),
        }
    }
}

impl ServiceError {
    pub fn unauthorized(msg: &str) -> (e: Self)
        ensures
            e@ == ServiceErrorView::Unauthorized(msg@),
    {
        ServiceError::Unauthorized(msg.to_owned())
    }

    pub fn internal_server_error(msg: &str) -> (e: Self)
        ensures
            e@ == ServiceErrorView::InternalServerError(msg@),
    {
        ServiceError::InternalServerError(msg.to_owned())
    }

    pub fn bad_request(msg: &str) -> (e: Self)
        ensures
            e@ == ServiceErrorView::BadRequest(msg@),
    {
        ServiceError::BadRequest(msg.to_owned())
    }

    pub fn forbidden(msg: &str) -> (e: Self)
        ensures
            e@ == ServiceErrorView::Forbidden(msg@),
    {
        ServiceError::Forbidden(msg.to_owned())
    }

    pub fn not_found(msg: &str) -> (e: Self)
        ensures
            e@ == ServiceErrorView::NotFound(msg@),
    {
        ServiceError::NotFound(msg.to_owned())
    }

    /// The message that the error carries.
    pub fn message(&self) -> (m: &str)
        ensures
            m@ == self@.message(),
    {
        match self {
            ServiceError::Unauthorized(m) => m.as_str(),
            ServiceError::InternalServerError(m) => m.as_str(),
            ServiceError::BadRequest(m) => m.as_str(),
            ServiceError::Forbidden(m) => m.as_str(),
            ServiceError::NotFound(m) => m.as_str(),
        }
    }

    /// The HTTP status of the response that reports the error; the body of
    /// that response is the message.
    pub fn status_code(&self) -> (code: u16)
        ensures
            code == self@.status(),
    {
        match self {
            ServiceError::Unauthorized(_) => 401,
            ServiceError::InternalServerError(_) => 500,
            ServiceError::BadRequest(_) => 400,
            ServiceError::Forbidden(_) => 403,
            ServiceError::NotFound(_) => 404,
        }
    }

    /// The error as one line of text: the class, a colon, the message.
    pub fn to_string(&self) -> (text: String)
        ensures
            text@ == self@.rendered(),
    {
        let label = match self {
            ServiceError::Unauthorized(_) => "Unauthorized: ",
            ServiceError::InternalServerError(_) => "Internal Server Error: ",
            ServiceError::BadRequest(_) => "Bad Request: ",
            ServiceError::Forbidden(_) => "Forbidden: ",
            ServiceError::NotFound(_) => "Not Found: ",
        };
        let mut text = label.to_owned();
        text.append(self.message());
        text
    }
}

/// A failure of the store behind the service, as far as the service tells
/// failures apart: the row that was asked for is not there, or anything
/// else, with the store's own words for it.
#[derive(Debug)]
pub enum StorageFailure {
    NotFound,
    Other(String),
}

/// What a missing row is reported as.
pub const RESOURCE_NOT_FOUND: &'static str = "Resource not found";

/// What precedes the store's own words in the report of any other failure.
pub const DATABASE_ERROR: &'static str = "Database error: ";

/// The error that reports a failure of the store.
pub open spec fn storage_error(failure: StorageFailure) -> ServiceErrorView {
    match failure {
        StorageFailure::NotFound => ServiceErrorView::NotFound(RESOURCE_NOT_FOUND@),
        StorageFailure::Other(text) => ServiceErrorView::InternalServerError(
            DATABASE_ERROR@ + text@,
        ),
    }
}

/// The text of an error is compared through its view, so the conversion
/// states its result in its own `ensures` and not through `from_spec`.
impl vstd::std_specs::convert::FromSpecImpl<StorageFailure> for ServiceError {
    open spec fn obeys_from_spec() -> bool {
        false
    }

    open spec fn from_spec(failure: StorageFailure) -> ServiceError {
        arbitrary()
    }
}

impl From<StorageFailure> for ServiceError {
    fn from(failure: StorageFailure) -> (e: ServiceError)
        ensures
            e@ == storage_error(failure),
    {
        match failure {
            StorageFailure::NotFound => ServiceError::not_found(RESOURCE_NOT_FOUND),
            StorageFailure::Other(text) => {
                let mut message = DATABASE_ERROR.to_owned();
                message.append(text.as_str());
                ServiceError::InternalServerError(message)
            },
        }
    }
}

} // verus!
