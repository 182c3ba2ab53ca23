//! HTTP response values: the reply bodies the service produces, the
//! `{message, status}` error shape, and the status line text of each code
//! the service uses.

use vstd::prelude::*;
use crate::date::Date;
use crate::domain::Card;

verus! {

/// The error body sent to clients: a message and the textual status line.
#[derive(Debug, Clone, PartialEq)]
pub struct ErrorResponse {
    pub message: String,
    pub status: String,
}

/// The reply to a duration query: the computed total and the queried date
/// echoed back.
#[derive(Debug, Clone, PartialEq)]
pub struct TotalReply {
    pub total: i64,
    pub date: Date,
}

/// Every body the service can answer with.
#[derive(Debug, Clone, PartialEq)]
pub enum ReplyBody {
    CardBody(Card),
    CardListBody(Vec<Card>),
    DeletedBody(usize),
    TotalBody(TotalReply),
    ErrorBody(ErrorResponse),
}

/// A complete response: the status code and the body to serialize.
#[derive(Debug, Clone, PartialEq)]
pub struct ApiResponse {
    pub status: u16,
    pub body: ReplyBody,
}

/// The textual status line of each status code the service uses.
pub open spec fn status_line_spec(code: u16) -> Seq<char> {
    if code == 200 {
        "200 OK"@
    } else if code == 201 {
        "201 Created"@
    } else if code == 202 {
        "202 Accepted"@
    } else if code == 400 {
        "400 Bad Request"@
    } else if code == 401 {
        "401 Unauthorized"@
    } else if code == 404 {
        "404 Not Found"@
    } else if code == 409 {
        "409 Conflict"@
    } else if code == 413 {
        "413 Payload Too Large"@
    } else if code == 500 {
        "500 Internal Server Error"@
    } else if code == 503 {
        "503 Service Unavailable"@
    } else {
        "unknown status"@
    }
}

/// The textual status line of a status code, per [`status_line_spec`].
pub fn status_line(code: u16) -> (r: String)
    ensures
        r@ == status_line_spec(code),
{
    if code == 200 {
        "200 OK".to_owned()
    } else if code == 201 {
        "201 Created".to_owned()
    } else if code == 202 {
        "202 Accepted".to_owned()
    } else if code == 400 {
        "400 Bad Request".to_owned()
    } else if code == 401 {
        "401 Unauthorized".to_owned()
    } else if code == 404 {
        "404 Not Found".to_owned()
    } else if code == 409 {
        "409 Conflict".to_owned()
    } else if code == 413 {
        "413 Payload Too Large".to_owned()
    } else if code == 500 {
        "500 Internal Server Error".to_owned()
    } else if code == 503 {
        "503 Service Unavailable".to_owned()
    } else {
        "unknown status".to_owned()
    }
}

/// An error response carrying the given status code, the given message, and
/// the code's status line.
pub fn error_response(code: u16, message: &str) -> (r: ApiResponse)
    ensures
        r.status == code,
        (r.body matches ReplyBody::ErrorBody(e) && e.message@ == message@ && e.status@
            == status_line_spec(code)),
{
    ApiResponse {
        status: code,
        body: ReplyBody::ErrorBody(
            ErrorResponse { message: message.to_owned(), status: status_line(code) },
        ),
    }
}

} // verus!
