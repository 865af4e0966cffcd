//! The errors that a request handler can end in, and how each is answered.

use vstd::prelude::*;
use vstd::std_specs::convert::FromSpecImpl;

verus! {

/// The ways in which a request can fail.
#[derive(Debug)]
pub enum ServiceError {
    EmailServerError,
    InternalServerError,
    BadRequest(String),
    Unauthorized,
}

/// A `ServiceError` with its message taken as a sequence of characters.
pub enum ServiceErrorView {
    EmailServerError,
    InternalServerError,
    BadRequest(Seq<char>),
    Unauthorized,
}

impl View for ServiceError {
    type V = ServiceErrorView;

    open spec fn view(&self) -> ServiceErrorView {
        match self {
            ServiceError::EmailServerError => ServiceErrorView::EmailServerError,
            ServiceError::InternalServerError => ServiceErrorView::InternalServerError,
            ServiceError::BadRequest(m) => ServiceErrorView::BadRequest(m@),
            ServiceError::Unauthorized => ServiceErrorView::Unauthorized,
        }
    }
}

/// The HTTP answer to a failed request: a status code and the text that the
/// body carries as a JSON string.
pub struct ErrorResponse {
    pub status: u16,
    pub message: String,
}

/// The text under which a failure is described to a person reading logs.
pub open spec fn display_text(e: ServiceErrorView) -> Seq<char> {
    match e {
        ServiceErrorView::EmailServerError => "Email Server Error"@,
        ServiceErrorView::InternalServerError => "Internal Server Error"@,
        ServiceErrorView::BadRequest(m) => "Bad Request "@ + m,
        ServiceErrorView::Unauthorized => "Unauthorized"@,
    }
}

/// The status code with which a failure is answered.
pub open spec fn status_of(e: ServiceErrorView) -> u16 {
    match e {
        ServiceErrorView::EmailServerError => 500,
        ServiceErrorView::InternalServerError => 500,
        ServiceErrorView::BadRequest(_) => 400,
        ServiceErrorView::Unauthorized => 401,
    }
}

/// The text that the body of the answer to a failure carries.
pub open spec fn response_text(e: ServiceErrorView) -> Seq<char> {
    match e {
        ServiceErrorView::EmailServerError => "Internal Server Error, Please try later"@,
        ServiceErrorView::InternalServerError => "Internal Server Error, Please try later"@,
        ServiceErrorView::BadRequest(m) => m,
        ServiceErrorView::Unauthorized => "Unauthorized"@,
    }
}

/// The kind of a failure reported by the database server, one for one with
/// `diesel::result::DatabaseErrorKind`.
pub enum DbErrorKind {
    UniqueViolation,
    ForeignKeyViolation,
    UnableToSendCommand,
    SerializationFailure,
    Unknown,
}

/// A failed database operation, one for one with the variants of
/// `diesel::result::Error`; a failure reported by the database server carries
/// its kind and the server's message and optional details.
pub enum DbFailure {
    InvalidCString,
    DatabaseError { kind: DbErrorKind, message: String, details: Option<String> },
    NotFound,
    QueryBuilderError,
    DeserializationError,
    SerializationError,
    RollbackTransaction,
    AlreadyInTransaction,
    Nonexhaustive,
}

/// The error that a failed database operation is answered with: a broken
/// unique constraint is the client's fault and is reported with the
/// server's details, or its message when it gave none; every other failure
/// is an internal error.
pub open spec fn db_failure_error(f: DbFailure) -> ServiceErrorView {
    match f {
        DbFailure::DatabaseError { kind: DbErrorKind::UniqueViolation, message, details } =>
            ServiceErrorView::BadRequest(
            match details {
                Some(d) => d@,
                None => message@,
            },
        ),
        _ => ServiceErrorView::InternalServerError,
    }
}

/// A database error that reports a broken unique constraint is converted
/// into an error that is answered with status 400 and the server's details,
/// or its message when it gave no details; every other database error is
/// answered with status 500.
pub proof fn lemma_unique_violation_is_bad_request(
    message: String,
    details: Option<String>,
    other: DbFailure,
)
    requires
        !(other matches DbFailure::DatabaseError { kind: DbErrorKind::UniqueViolation, .. }),
    ensures
        status_of(
            db_failure_error(
                DbFailure::DatabaseError { kind: DbErrorKind::UniqueViolation, message, details },
            ),
        ) == 400,
        status_of(db_failure_error(other)) == 500,
        response_text(
            db_failure_error(
                DbFailure::DatabaseError { kind: DbErrorKind::UniqueViolation, message, details },
            ),
        )
            == match details {
            Some(d) => d@,
            None => message@,
        },
{
}

/// Each failure is answered with its own status: a bad request with 400 and
/// its own message, whatever the message; an unauthorized request with 401;
/// the server's failures with 500.
pub proof fn lemma_error_statuses(message: Seq<char>)
    ensures
        status_of(ServiceErrorView::BadRequest(message)) == 400,
        response_text(ServiceErrorView::BadRequest(message)) == message,
        display_text(ServiceErrorView::BadRequest(message)).subrange(
            12,
            12 + message.len() as int,
        ) == message,
        status_of(ServiceErrorView::Unauthorized) == 401,
        status_of(ServiceErrorView::InternalServerError) == 500,
        status_of(ServiceErrorView::EmailServerError) == 500,
{
    reveal_strlit("Bad Request ");
    assert(display_text(ServiceErrorView::BadRequest(message)).subrange(
        12,
        12 + message.len() as int,
    ) =~= message);
}

/// A failure of the mail server is answered exactly as an internal error:
/// the client cannot tell them apart.
pub proof fn lemma_mail_failure_looks_internal()
    ensures
        status_of(ServiceErrorView::EmailServerError) == status_of(
            ServiceErrorView::InternalServerError,
        ),
        response_text(ServiceErrorView::EmailServerError) == response_text(
            ServiceErrorView::InternalServerError,
        ),
{
}

impl ServiceError {
    /// The text of the error, as the `Display` of the service writes it.
    pub fn to_text(&self) -> (r: String)
        ensures
            r@ == display_text(self@),
    {
        match self {
            ServiceError::EmailServerError => String::from_str("Email Server Error"),
            ServiceError::InternalServerError => String::from_str("Internal Server Error"),
            ServiceError::BadRequest(m) => String::from_str("Bad Request ").concat(m.as_str()),
            ServiceError::Unauthorized => String::from_str("Unauthorized"),
        }
    }

    /// The status code and body text of the HTTP answer to this error.
    pub fn error_response(&self) -> (r: ErrorResponse)
        ensures
            r.status == status_of(self@),
            r.message@ == response_text(self@),
    {
        match self {
            ServiceError::EmailServerError => ErrorResponse {
                status: 500,
                message: String::from_str("Internal Server Error, Please try later"),
            },
            ServiceError::InternalServerError => ErrorResponse {
                status: 500,
                message: String::from_str("Internal Server Error, Please try later"),
            },
            ServiceError::BadRequest(m) => ErrorResponse { status: 400, message: m.clone() },
            ServiceError::Unauthorized => ErrorResponse {
                status: 401,
                message: String::from_str("Unauthorized"),
            },
        }
    }

    /// The error that a failed database operation is answered with (see
    /// `db_failure_error`).
    pub fn from_db_failure(f: DbFailure) -> (r: ServiceError)
        ensures
            r@ == db_failure_error(f),
    {
        match f {
            DbFailure::DatabaseError { kind, message, details } => match kind {
                DbErrorKind::UniqueViolation => match details {
                    Some(d) => ServiceError::BadRequest(d),
                    None => ServiceError::BadRequest(message),
                },
                _ => ServiceError::InternalServerError,
            },
            _ => ServiceError::InternalServerError,
        }
    }
}

#[verifier::external_type_specification]
#[verifier::external_body]
pub struct ExUuidParseError(uuid::parser::ParseError);

#[verifier::external_type_specification]
#[verifier::external_body]
pub struct ExSmtpError(lettre::smtp::error::Error);

impl From<uuid::parser::ParseError> for ServiceError {
    /// A malformed id sent by the client is a bad request.
    fn from(e: uuid::parser::ParseError) -> (r: ServiceError)
        ensures
            r@ == ServiceErrorView::BadRequest("Invalid UUID"@),
    {
        ServiceError::BadRequest(String::from_str("Invalid UUID"))
    }
}

/// `obeys_from_spec` is false, so `from_spec` claims nothing and its body is
/// a placeholder: the conversion's result (a `BadRequest` with the text
/// `Invalid UUID`) is stated on `from` itself, since a spec function cannot
/// build that `String`.
impl FromSpecImpl<uuid::parser::ParseError> for ServiceError {
    open spec fn obeys_from_spec() -> bool {
        false
    }

    open spec fn from_spec(v: uuid::parser::ParseError) -> ServiceError {
        ServiceError::InternalServerError
    }
}

impl From<lettre::smtp::error::Error> for ServiceError {
    /// Any failure of the mail server is reported as such.
    fn from(e: lettre::smtp::error::Error) -> (r: ServiceError)
        ensures
            r@ == ServiceErrorView::EmailServerError,
    {
        ServiceError::EmailServerError
    }
}

impl FromSpecImpl<lettre::smtp::error::Error> for ServiceError {
    open spec fn obeys_from_spec() -> bool {
        true
    }

    open spec fn from_spec(v: lettre::smtp::error::Error) -> ServiceError {
        ServiceError::EmailServerError
    }
}

} // verus!
