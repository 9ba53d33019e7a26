//! The error taxonomy of the gateway and the HTTP reply given for each error.

use vstd::prelude::*;
use vstd::string::*;

verus! {

/// HTTP status: the request was well-formed and served.
pub const STATUS_OK: u16 = 200;

/// HTTP status: a business rule rejected the request.
pub const STATUS_BAD_REQUEST: u16 = 400;

/// HTTP status: the caller is not authenticated.
pub const STATUS_UNAUTHORIZED: u16 = 401;

/// HTTP status: infrastructure failed while serving the request.
pub const STATUS_INTERNAL_SERVER_ERROR: u16 = 500;

/// A field that a request builder was asked to build without.
#[derive(Debug, Clone, Copy, PartialEq, Eq, Structural)]
pub enum BuildError {
    MissingClientId,
    MissingClientSecret,
    MissingAudience,
    MissingGrantType,
    MissingUserId,
    MissingConnection,
    MissingExtra,
    MissingEmail,
    MissingPassword,
    MissingUsername,
}

impl BuildError {
    /// The text shown for this error.
    pub open spec fn spec_message(self) -> Seq<char> {
        match self {
            BuildError::MissingClientId => "Missing client id"@,
            BuildError::MissingClientSecret => "Missing client secret"@,
            BuildError::MissingAudience => "Missing audience"@,
            BuildError::MissingGrantType => "Missing grant type"@,
            BuildError::MissingUserId => "Missing user id"@,
            BuildError::MissingConnection => "Missing connection"@,
            BuildError::MissingExtra => "Missing extra"@,
            BuildError::MissingEmail => "Missing email"@,
            BuildError::MissingPassword => "Missing password"@,
            BuildError::MissingUsername => "Missing username"@,
        }
    }

    /// The text shown for this error.
    pub fn message(&self) -> (text: String)
        ensures
            text@ == self.spec_message(),
    {
        match self {
            BuildError::MissingClientId => String::from_str("Missing client id"),
            BuildError::MissingClientSecret => String::from_str("Missing client secret"),
            BuildError::MissingAudience => String::from_str("Missing audience"),
            BuildError::MissingGrantType => String::from_str("Missing grant type"),
            BuildError::MissingUserId => String::from_str("Missing user id"),
            BuildError::MissingConnection => String::from_str("Missing connection"),
            BuildError::MissingExtra => String::from_str("Missing extra"),
            BuildError::MissingEmail => String::from_str("Missing email"),
            BuildError::MissingPassword => String::from_str("Missing password"),
            BuildError::MissingUsername => String::from_str("Missing username"),
        }
    }
}

/// Everything that can go wrong while serving a request. A variant that
/// stands for a failure of a collaborator carries that failure's text.
#[derive(Debug, Clone, PartialEq, Eq)]
pub enum Error {
    /// Reading or writing failed.
    Io(String),
    /// A number could not be parsed.
    Parse(String),
    /// The caller sent something unusable.
    InvalidInput(String),
    /// No connection could be acquired from the pool.
    PoolError(String),
    /// The pool itself failed while handing out a connection.
    DatabaseError(String),
    /// The pool could not be built.
    BuildError(String),
    /// A statement was attempted and rejected by the database.
    DieselError(String),
    /// A second row with the same username and email was refused.
    DuplicateUser,
    /// The logger could not be installed.
    SetLoggerError(String),
    /// A log level name was not recognised.
    ParseLevelError(String),
    /// The data access actor could not be reached: the operation may not
    /// have been attempted at all.
    MailboxError(String),
    /// The identity provider could not be reached.
    ReqwestError(String),
    /// The identity provider answered without a usable access token.
    InvalidToken,
    /// A JSON document was malformed.
    SerdeJsonError(String),
    /// A header value was not text.
    ToStrError(String),
    /// The environment file could not be read.
    DotenvError(String),
    /// A bearer token failed verification.
    JsonWebTokenError(String),
    /// A free-form failure, such as a rejection by the identity provider,
    /// whose answer it carries.
    StringError(String),
    /// The configuration could not be loaded.
    ConfigError(String),
    /// A request to the identity provider was built without a field.
    Auth0RequestBuildError(BuildError),
}

/// The body of an error reply.
#[derive(Debug, Clone, PartialEq, Eq)]
pub struct ErrorMessageResponse {
    pub message: String,
}

/// A status code together with the error body sent under it.
#[derive(Debug, Clone, PartialEq, Eq)]
pub struct ErrorReply {
    pub status: u16,
    pub body: ErrorMessageResponse,
}

/// The message sent in place of the parser's own when a JSON document is
/// malformed.
pub open spec fn spec_incorrect_data_message() -> Seq<char> {
    "Incorrect data, please check your request"@
}

/// The one message sent for every failed verification, whichever check it
/// was that failed.
pub open spec fn spec_unauthorized_message() -> Seq<char> {
    "Unauthorized"@
}

impl Error {
    /// The text shown for this error.
    pub open spec fn spec_message(self) -> Seq<char> {
        match self {
            Error::Io(m) => "IO error: "@ + m@,
            Error::Parse(m) => "Parse error: "@ + m@,
            Error::InvalidInput(m) => "Invalid input: "@ + m@,
            Error::PoolError(m) => m@,
            Error::DatabaseError(m) => m@,
            Error::BuildError(m) => m@,
            Error::DieselError(m) => m@,
            Error::DuplicateUser => "User already registered"@,
            Error::SetLoggerError(m) => m@,
            Error::ParseLevelError(m) => m@,
            Error::MailboxError(m) => m@,
            Error::ReqwestError(m) => m@,
            Error::InvalidToken => "Cannot get token from Auth0"@,
            Error::SerdeJsonError(m) => m@,
            Error::ToStrError(m) => m@,
            Error::DotenvError(m) => m@,
            Error::JsonWebTokenError(m) => m@,
            Error::StringError(m) => "Error: "@ + m@,
            Error::ConfigError(m) => m@,
            Error::Auth0RequestBuildError(e) => e.spec_message(),
        }
    }

    /// The status code under which this error is reported: 401 for a failed
    /// verification, 400 for unusable input and broken business rules, 500
    /// for everything the caller could not have prevented.
    pub open spec fn spec_status(self) -> u16 {
        match self {
            Error::Io(_) => STATUS_BAD_REQUEST,
            Error::Parse(_) => STATUS_BAD_REQUEST,
            Error::InvalidInput(_) => STATUS_BAD_REQUEST,
            Error::DuplicateUser => STATUS_BAD_REQUEST,
            Error::JsonWebTokenError(_) => STATUS_UNAUTHORIZED,
            Error::ToStrError(_) => STATUS_UNAUTHORIZED,
            _ => STATUS_INTERNAL_SERVER_ERROR,
        }
    }

    /// The text sent to the caller for this error: its own, with two
    /// exceptions. The parser's text for a malformed JSON document is
    /// withheld. A failed verification is reported with one text, the same
    /// for every reason, so that the reply does not show which check failed.
    pub open spec fn spec_reply_message(self) -> Seq<char> {
        match self {
            Error::SerdeJsonError(_) => spec_incorrect_data_message(),
            Error::JsonWebTokenError(_) => spec_unauthorized_message(),
            Error::ToStrError(_) => spec_unauthorized_message(),
            _ => self.spec_message(),
        }
    }

    /// A query reached the database and was refused, as opposed to never
    /// having been attempted.
    pub open spec fn spec_was_attempted(self) -> bool {
        self is DieselError || self is DuplicateUser
    }

    /// The text shown for this error.
    pub fn message(&self) -> (text: String)
        ensures
            text@ == self.spec_message(),
    {
        match self {
            Error::Io(m) => String::from_str("IO error: ").concat(m.as_str()),
            Error::Parse(m) => String::from_str("Parse error: ").concat(m.as_str()),
            Error::InvalidInput(m) => String::from_str("Invalid input: ").concat(m.as_str()),
            Error::PoolError(m) => m.clone(),
            Error::DatabaseError(m) => m.clone(),
            Error::BuildError(m) => m.clone(),
            Error::DieselError(m) => m.clone(),
            Error::DuplicateUser => String::from_str("User already registered"),
            Error::SetLoggerError(m) => m.clone(),
            Error::ParseLevelError(m) => m.clone(),
            Error::MailboxError(m) => m.clone(),
            Error::ReqwestError(m) => m.clone(),
            Error::InvalidToken => String::from_str("Cannot get token from Auth0"),
            Error::SerdeJsonError(m) => m.clone(),
            Error::ToStrError(m) => m.clone(),
            Error::DotenvError(m) => m.clone(),
            Error::JsonWebTokenError(m) => m.clone(),
            Error::StringError(m) => String::from_str("Error: ").concat(m.as_str()),
            Error::ConfigError(m) => m.clone(),
            Error::Auth0RequestBuildError(e) => e.message(),
        }
    }

    /// The status code under which this error is reported.
    pub fn status(&self) -> (code: u16)
        ensures
            code == self.spec_status(),
    {
        match self {
            Error::Io(_) => STATUS_BAD_REQUEST,
            Error::Parse(_) => STATUS_BAD_REQUEST,
            Error::InvalidInput(_) => STATUS_BAD_REQUEST,
            Error::DuplicateUser => STATUS_BAD_REQUEST,
            Error::JsonWebTokenError(_) => STATUS_UNAUTHORIZED,
            Error::ToStrError(_) => STATUS_UNAUTHORIZED,
            _ => STATUS_INTERNAL_SERVER_ERROR,
        }
    }

    /// Whether the failed operation reached the database.
    pub fn was_attempted(&self) -> (attempted: bool)
        ensures
            attempted == self.spec_was_attempted(),
    {
        match self {
            Error::DieselError(_) => true,
            Error::DuplicateUser => true,
            _ => false,
        }
    }

    /// The reply sent to the caller for this error.
    pub fn error_response(&self) -> (reply: ErrorReply)
        ensures
            reply.status == self.spec_status(),
            reply.body.message@ == self.spec_reply_message(),
    {
        match self {
            Error::SerdeJsonError(_) => ErrorMessageResponse::response_with_message(
                STATUS_INTERNAL_SERVER_ERROR,
                String::from_str("Incorrect data, please check your request"),
            ),
            Error::JsonWebTokenError(_) => ErrorMessageResponse::response_with_message(
                STATUS_UNAUTHORIZED,
                String::from_str("Unauthorized"),
            ),
            Error::ToStrError(_) => ErrorMessageResponse::response_with_message(
                STATUS_UNAUTHORIZED,
                String::from_str("Unauthorized"),
            ),
            _ => ErrorMessageResponse::response_from(self.status(), self),
        }
    }
}

impl ErrorMessageResponse {
    /// A reply under `status` whose body carries the text of `err`.
    pub fn response_from(status: u16, err: &Error) -> (reply: ErrorReply)
        ensures
            reply.status == status,
            reply.body.message@ == err.spec_message(),
    {
        ErrorReply { status, body: ErrorMessageResponse { message: err.message() } }
    }

    /// A reply under `status` whose body carries `message`.
    pub fn response_with_message(status: u16, message: String) -> (reply: ErrorReply)
        ensures
            reply.status == status,
            reply.body.message == message,
    {
        ErrorReply { status, body: ErrorMessageResponse { message } }
    }
}

/// The reply to a failed verification does not show which check failed:
/// whatever two reasons the verifier gave, the replies are the same, status
/// and text.
pub proof fn law_failed_verification_is_one_reply(first: String, second: String)
    ensures
        Error::JsonWebTokenError(first).spec_status() == Error::JsonWebTokenError(
            second,
        ).spec_status(),
        Error::JsonWebTokenError(first).spec_reply_message() == Error::JsonWebTokenError(
            second,
        ).spec_reply_message(),
        Error::ToStrError(first).spec_status() == Error::JsonWebTokenError(second).spec_status(),
        Error::ToStrError(first).spec_reply_message() == Error::JsonWebTokenError(
            second,
        ).spec_reply_message(),
{
}

} // verus!
