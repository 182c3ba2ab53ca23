//! The boundary of the service: the translator from framework-level
//! rejections to `{message, status}` responses, and the full dispatch of one
//! request — route matching, the body size ceiling, and the handler call —
//! stated end to end.

use vstd::prelude::*;
use crate::domain::{card_of, CardData};
use crate::errors::{status_of, AppError, Error};
use crate::handlers;
use crate::http::{error_response, status_line_spec, ApiResponse, ReplyBody};
use crate::router::{match_route, match_route_spec, Route, RouteMatch};
use crate::store::{spec_get, sum_duration_spec, CardStore};
use crate::text::{concat_strs, contains_seq, contains_str};

verus! {

/// Largest request body the service accepts, in bytes.
pub const BODY_LIMIT: u64 = 16 * 1024;

/// Every failure the boundary can be asked to translate: a path no route
/// declares, a typed application error, an authentication failure, a
/// disallowed method, a body that would not deserialize (with the cause text
/// when one is known), an oversized payload, an unusable query string, or
/// anything else.
#[derive(Debug, Clone)]
pub enum Rejection {
    RouteNotFound,
    AppRejection(AppError),
    AuthRejection(Error),
    MethodNotAllowedRejection,
    BodyDeserializeRejection(Option<String>),
    PayloadTooLargeRejection,
    InvalidQueryRejection,
    UnhandledRejection,
}

/// The status code each rejection maps to.
pub open spec fn rejection_status(rej: Rejection) -> u16 {
    match rej {
        Rejection::RouteNotFound => 404,
        Rejection::AppRejection(e) => status_of(e.err_type),
        Rejection::AuthRejection(e) => match e {
            Error::JWTTokenCreation => 500,
            Error::ClientNotFound => 404,
            _ => 401,
        },
        Rejection::MethodNotAllowedRejection => 400,
        Rejection::BodyDeserializeRejection(_) => 400,
        Rejection::PayloadTooLargeRejection => 413,
        Rejection::InvalidQueryRejection => 400,
        Rejection::UnhandledRejection => 500,
    }
}

/// The message each rejection maps to. An application or authentication
/// error speaks with its own text; a failed body deserialization names the
/// offending type when its cause text does.
pub open spec fn rejection_message(rej: Rejection) -> Seq<char> {
    match rej {
        Rejection::RouteNotFound => "Not Found"@,
        Rejection::AppRejection(e) => e.message@,
        Rejection::AuthRejection(e) => if e == Error::JWTTokenCreation {
            "Internal Server Error"@
        } else {
            e.message_spec()
        },
        Rejection::MethodNotAllowedRejection => "Bad Request"@,
        Rejection::BodyDeserializeRejection(cause) => match cause {
            Some(c) => if contains_seq(c@, "invalid type"@) {
                "FIELD_ERROR: invalid type "@ + c@
            } else {
                "Bad Request"@
            },
            None => "Bad Request"@,
        },
        Rejection::PayloadTooLargeRejection => "Payload Too Large"@,
        Rejection::InvalidQueryRejection => "Missing field"@,
        Rejection::UnhandledRejection => "Internal Server Error"@,
    }
}

/// Translate a rejection into its `{message, status}` response, per
/// [`rejection_status`] and [`rejection_message`].
pub fn handle_rejection(rej: &Rejection) -> (r: ApiResponse)
    ensures
        r.status == rejection_status(*rej),
        (r.body matches ReplyBody::ErrorBody(e) && e.message@ == rejection_message(*rej)
            && e.status@ == status_line_spec(rejection_status(*rej))),
{
    match rej {
        Rejection::RouteNotFound => error_response(404, "Not Found"),
        Rejection::AppRejection(e) => error_response(e.to_status_code(), e.message.as_str()),
        Rejection::AuthRejection(e) => match e {
            Error::JWTTokenCreation => error_response(500, "Internal Server Error"),
            Error::ClientNotFound => error_response(404, e.message().as_str()),
            _ => {
                let message = e.message();
                let code: u16 = 401;
                error_response(code, message.as_str())
            },
        },
        Rejection::MethodNotAllowedRejection => error_response(400, "Bad Request"),
        Rejection::BodyDeserializeRejection(cause) => match cause {
            Some(c) => {
                if contains_str(c.as_str(), "invalid type") {
                    let message = concat_strs("FIELD_ERROR: invalid type ", c.as_str());
                    error_response(400, message.as_str())
                } else {
                    error_response(400, "Bad Request")
                }
            },
            None => error_response(400, "Bad Request"),
        },
        Rejection::PayloadTooLargeRejection => error_response(413, "Payload Too Large"),
        Rejection::InvalidQueryRejection => error_response(400, "Missing field"),
        Rejection::UnhandledRejection => error_response(500, "Internal Server Error"),
    }
}

/// A route that carries a request body.
pub open spec fn route_takes_body(route: Route) -> bool {
    route == Route::CreateCard || route matches Route::EditCard(_)
}

/// Dispatch one request against the table: match the route, enforce the
/// body size ceiling before any table access, and run the operation.
///
/// The contract covers the whole surface: unmatched paths answer 404 and
/// wrong methods 400; a body above the ceiling answers 413 with the table
/// untouched — no partial row is created; a body that did not deserialize
/// answers 400 with the table untouched; each matched operation answers as
/// its handler states.
pub fn handle_request(
    store: &mut CardStore,
    method: &str,
    segments: &Vec<String>,
    content_length: u64,
    body: Option<CardData>,
) -> (r: ApiResponse)
    requires
        old(store).wf(),
    ensures
        final(store).wf(),
        match_route_spec(method@, segments.deep_view()) == RouteMatch::PathNotFound ==> (r.status
            == 404 && final(store).rows() == old(store).rows()),
        match_route_spec(method@, segments.deep_view()) == RouteMatch::MethodNotAllowed ==> (
        r.status == 400 && final(store).rows() == old(store).rows()),
        (match_route_spec(method@, segments.deep_view()) matches RouteMatch::Matched(route)
            && route_takes_body(route) && content_length > BODY_LIMIT) ==> (r.status == 413
            && final(store).rows() == old(store).rows() && (r.body matches ReplyBody::ErrorBody(e)
            && e.message@ == "Payload Too Large"@)),
        (match_route_spec(method@, segments.deep_view()) matches RouteMatch::Matched(route)
            && route_takes_body(route) && content_length <= BODY_LIMIT && body is None) ==> (
        r.status == 400 && final(store).rows() == old(store).rows()),
        match_route_spec(method@, segments.deep_view()) == RouteMatch::Matched(Route::CreateCard)
            && content_length <= BODY_LIMIT && old(store).can_insert() ==> (body matches Some(d)
            ==> (r.status == 201 && (r.body matches ReplyBody::CardBody(c) && c@ == card_of(
            old(store).next_id_spec(),
            d@,
        ) && final(store).rows() == old(store).rows().push(c@) && spec_get(
            old(store).rows(),
            c@.id,
        ) is None))),
        (match_route_spec(method@, segments.deep_view()) == RouteMatch::Matched(Route::CreateCard)
            && content_length <= BODY_LIMIT && body is Some) ==> (!old(store).can_insert() ==> (
        r.status == 500 && final(store).rows() == old(store).rows())),
        match_route_spec(method@, segments.deep_view()) matches RouteMatch::Matched(
            Route::EditCard(id),
        ) ==> (content_length <= BODY_LIMIT ==> (body matches Some(d) ==> ((spec_get(
            old(store).rows(),
            id as int,
        ) is Some ==> (r.status == 200 && spec_get(final(store).rows(), id as int) == Some(
            card_of(id as int, d@),
        ))) && (spec_get(old(store).rows(), id as int) is None ==> (r.status == 404
            && final(store).rows() == old(store).rows()))))),
        match_route_spec(method@, segments.deep_view()) matches RouteMatch::Matched(
            Route::DeleteCard(id),
        ) ==> ((spec_get(old(store).rows(), id as int) is Some ==> (r.status == 202 && r.body
            == ReplyBody::DeletedBody(1usize) && spec_get(
            final(store).rows(),
            id as int,
        ) is None)) && (spec_get(old(store).rows(), id as int) is None ==> (r.status == 404
            && final(store).rows() == old(store).rows()))),
        match_route_spec(method@, segments.deep_view()) matches RouteMatch::Matched(
            Route::GetCardById(id),
        ) ==> (final(store).rows() == old(store).rows() && (spec_get(
            old(store).rows(),
            id as int,
        ) is Some ==> (r.status == 200 && (r.body matches ReplyBody::CardBody(c) && spec_get(
            old(store).rows(),
            id as int,
        ) == Some(c@)))) && (spec_get(old(store).rows(), id as int) is None ==> r.status == 404)),
        match_route_spec(method@, segments.deep_view()) == RouteMatch::Matched(Route::GetAllCards)
            ==> (r.status == 200 && final(store).rows() == old(store).rows() && (r.body
            matches ReplyBody::CardListBody(v) && v@.len() == old(store).rows().len() && (forall|
            i: int,
        |
            0 <= i < v@.len() ==> (#[trigger] v@[i])@ == old(store).rows()[i]))),
        match_route_spec(method@, segments.deep_view()) matches RouteMatch::Matched(
            Route::CheckTotalDurationOnDate(date),
        ) ==> (r.status == 200 && final(store).rows() == old(store).rows() && (r.body
            matches ReplyBody::TotalBody(t) && t.total == sum_duration_spec(
            old(store).rows(),
            date,
        ) && t.date == date)),
{
    match match_route(method, segments) {
        RouteMatch::PathNotFound => handle_rejection(&Rejection::RouteNotFound),
        RouteMatch::MethodNotAllowed => handle_rejection(&Rejection::MethodNotAllowedRejection),
        RouteMatch::Matched(route) => match route {
            Route::CreateCard => {
                if content_length > BODY_LIMIT {
                    handle_rejection(&Rejection::PayloadTooLargeRejection)
                } else {
                    match body {
                        Some(data) => handlers::create_card(store, data),
                        None => handle_rejection(&Rejection::BodyDeserializeRejection(None)),
                    }
                }
            },
            Route::EditCard(id) => {
                if content_length > BODY_LIMIT {
                    handle_rejection(&Rejection::PayloadTooLargeRejection)
                } else {
                    match body {
                        Some(data) => handlers::edit_card(id, store, data),
                        None => handle_rejection(&Rejection::BodyDeserializeRejection(None)),
                    }
                }
            },
            Route::DeleteCard(id) => handlers::delete_card(id, store),
            Route::GetCardById(id) => handlers::get_card_by_id(id, store),
            Route::GetAllCards => handlers::get_all_cards(store),
            Route::CheckTotalDurationOnDate(date) => handlers::check_total_duration_on_date(
                date,
                store,
            ),
        },
    }
}

} // verus!
