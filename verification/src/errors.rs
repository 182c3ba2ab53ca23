//! The error taxonomy: typed error kinds, the application error carrying a
//! kind and a message, the classification of database failures, and the
//! mapping from each kind to its HTTP status code.

use vstd::prelude::*;
use crate::text::concat_strs;

verus! {

/// Authentication-level failures. No route in this service produces them;
/// they are reserved kinds that the rejection translator knows how to map.
#[derive(Clone, Copy, PartialEq, Eq, Structural, Debug)]
pub enum Error {
    JWTToken,
    JWTTokenCreation,
    NoAuthHeader,
    InvalidAuthHeader,
    NoPermission,
    ClientNotFound,
}

impl Error {
    /// The human-readable text of this failure.
    pub fn message(&self) -> (r: String)
        ensures
            r@ == self.message_spec(),
    {
        match self {
            Error::JWTToken => "jwt token not valid".to_owned(),
            Error::JWTTokenCreation => "jwt token creation error".to_owned(),
            Error::NoAuthHeader => "no auth header".to_owned(),
            Error::InvalidAuthHeader => "invalid auth header".to_owned(),
            Error::NoPermission => "no permission".to_owned(),
            Error::ClientNotFound => "client not found".to_owned(),
        }
    }

    /// The text that [`Error::message`] returns for each variant.
    pub open spec fn message_spec(self) -> Seq<char> {
        match self {
            Error::JWTToken => "jwt token not valid"@,
            Error::JWTTokenCreation => "jwt token creation error"@,
            Error::NoAuthHeader => "no auth header"@,
            Error::InvalidAuthHeader => "invalid auth header"@,
            Error::NoPermission => "no permission"@,
            Error::ClientNotFound => "client not found"@,
        }
    }
}

/// Classification of an application failure; each kind maps to exactly one
/// HTTP status code.
#[derive(Clone, Copy, PartialEq, Eq, Structural, Debug)]
pub enum ErrorType {
    BadRequest,
    NotFound,
    Internal,
    DistantServer,
    CacheError,
    Unauthorized,
    MissingRequiredField,
    AlreadyExists,
}

/// A typed application error: a kind that selects the HTTP status, and a
/// message describing the failure.
#[derive(Clone, Debug)]
pub struct AppError {
    pub err_type: ErrorType,
    pub message: String,
}

/// What a database failure is, as far as classification needs: a uniqueness
/// violation, a lookup that matched no row, or anything else.
#[derive(Clone, Copy, PartialEq, Eq, Structural, Debug)]
pub enum DbErrorKind {
    UniqueViolation,
    RecordNotFound,
    Other,
}

/// The error kind that each database failure classifies into: a uniqueness
/// violation is the caller's fault, a missing row is absence, and everything
/// else is internal.
pub open spec fn classify_db_error(kind: DbErrorKind) -> ErrorType {
    match kind {
        DbErrorKind::UniqueViolation => ErrorType::BadRequest,
        DbErrorKind::RecordNotFound => ErrorType::NotFound,
        DbErrorKind::Other => ErrorType::Internal,
    }
}

/// The HTTP status code that each error kind maps to.
pub open spec fn status_of(t: ErrorType) -> u16 {
    match t {
        ErrorType::BadRequest => 400,
        ErrorType::NotFound => 404,
        ErrorType::Internal => 500,
        ErrorType::DistantServer => 503,
        ErrorType::CacheError => 500,
        ErrorType::Unauthorized => 401,
        ErrorType::MissingRequiredField => 400,
        ErrorType::AlreadyExists => 409,
    }
}

impl AppError {
    /// A fresh application error with the given message and kind.
    pub fn new(message: &str, err_type: ErrorType) -> (r: AppError)
        ensures
            r.message@ == message@,
            r.err_type == err_type,
    {
        AppError { message: message.to_owned(), err_type }
    }

    /// Classify a database failure into an application error, prefixing the
    /// failure text with the operation that met it.
    pub fn from_db_error(kind: DbErrorKind, detail: &str, context: &str) -> (r: AppError)
        ensures
            r.err_type == classify_db_error(kind),
            r.message@ == context@ + ": "@ + detail@,
    {
        let prefix = concat_strs(context, ": ");
        let message = concat_strs(prefix.as_str(), detail);
        let err_type = match kind {
            DbErrorKind::UniqueViolation => ErrorType::BadRequest,
            DbErrorKind::RecordNotFound => ErrorType::NotFound,
            DbErrorKind::Other => ErrorType::Internal,
        };
        AppError { message, err_type }
    }

    /// The HTTP status code of this error's kind, per the taxonomy table.
    pub fn to_status_code(&self) -> (r: u16)
        ensures
            r == status_of(self.err_type),
    {
        match self.err_type {
            ErrorType::BadRequest => 400,
            ErrorType::NotFound => 404,
            ErrorType::Internal => 500,
            ErrorType::DistantServer => 503,
            ErrorType::CacheError => 500,
            ErrorType::Unauthorized => 401,
            ErrorType::MissingRequiredField => 400,
            ErrorType::AlreadyExists => 409,
        }
    }
}

} // verus!
