//! The handler layer: each operation binds a table call to an HTTP
//! response. Successes carry the operation's success status; failures are
//! re-labeled with the status their error kind maps to and a fixed generic
//! message, so no low-level failure text leaks to the client.

use vstd::prelude::*;
use crate::date::Date;
use crate::domain::{card_of, CardData};
use crate::errors::{status_of, AppError, ErrorType};
use crate::http::{error_response, status_line_spec, ApiResponse, ReplyBody, TotalReply};
use crate::store::{spec_get, sum_duration_spec, CardStore};

verus! {

/// The message the handler substitutes for a failure of the given kind:
/// fixed generic text for the internal and not-found kinds, the original
/// text for the kinds this service never produces here.
pub open spec fn handler_message_spec(t: ErrorType, original: Seq<char>) -> Seq<char> {
    if t == ErrorType::Internal {
        "Internal server error"@
    } else if t == ErrorType::NotFound {
        "Not found"@
    } else {
        original
    }
}

/// The error response for a failed operation: the status its kind maps to,
/// and the substituted message per [`handler_message_spec`].
pub fn respond_error(e: &AppError) -> (r: ApiResponse)
    ensures
        r.status == status_of(e.err_type),
        (r.body matches ReplyBody::ErrorBody(er) && er.message@ == handler_message_spec(
            e.err_type,
            e.message@,
        ) && er.status@ == status_line_spec(status_of(e.err_type))),
{
    let code = e.to_status_code();
    match e.err_type {
        ErrorType::Internal => error_response(code, "Internal server error"),
        ErrorType::NotFound => error_response(code, "Not found"),
        _ => error_response(code, e.message.as_str()),
    }
}

/// Create a card from the posted field set: 201 with the stored row on
/// success, the mapped error response otherwise.
pub fn create_card(store: &mut CardStore, data: CardData) -> (r: ApiResponse)
    requires
        old(store).wf(),
    ensures
        final(store).wf(),
        old(store).can_insert() ==> (r.status == 201 && (r.body matches ReplyBody::CardBody(c)
            && c@ == card_of(old(store).next_id_spec(), data@) && final(store).rows() == old(
            store,
        ).rows().push(c@) && spec_get(old(store).rows(), c@.id) is None)),
        !old(store).can_insert() ==> (r.status == 500 && (r.body matches ReplyBody::ErrorBody(e)
            && e.message@ == "Internal server error"@) && final(store).rows() == old(
            store,
        ).rows()),
{
    match store.create_card(data) {
        Ok(card) => ApiResponse { status: 201, body: ReplyBody::CardBody(card) },
        Err(e) => respond_error(&e),
    }
}

/// Overwrite the card carrying the identifier: 200 with the stored row on
/// success, 404 with the fixed not-found message when no row carries it.
pub fn edit_card(id: i64, store: &mut CardStore, data: CardData) -> (r: ApiResponse)
    requires
        old(store).wf(),
    ensures
        final(store).wf(),
        spec_get(old(store).rows(), id as int) is Some ==> (r.status == 200 && (r.body
            matches ReplyBody::CardBody(c) && c@ == card_of(id as int, data@)) && spec_get(
            final(store).rows(),
            id as int,
        ) == Some(card_of(id as int, data@))),
        spec_get(old(store).rows(), id as int) is None ==> (r.status == 404 && (r.body
            matches ReplyBody::ErrorBody(e) && e.message@ == "Not found"@) && final(store).rows()
            == old(store).rows()),
{
    match store.edit_card(id, data) {
        Ok(card) => ApiResponse { status: 200, body: ReplyBody::CardBody(card) },
        Err(e) => respond_error(&e),
    }
}

/// List every card: always 200 with the full table in storage order.
pub fn get_all_cards(store: &CardStore) -> (r: ApiResponse)
    ensures
        r.status == 200,
        (r.body matches ReplyBody::CardListBody(v) && v@.len() == store.rows().len() && (forall|
            i: int,
        |
            0 <= i < v@.len() ==> (#[trigger] v@[i])@ == store.rows()[i])),
{
    match store.get_all_cards() {
        Ok(cards) => ApiResponse { status: 200, body: ReplyBody::CardListBody(cards) },
        Err(e) => respond_error(&e),
    }
}

/// Fetch the card carrying the identifier: 200 with the row on success, 404
/// with the fixed not-found message when no row carries it.
pub fn get_card_by_id(id: i64, store: &CardStore) -> (r: ApiResponse)
    ensures
        spec_get(store.rows(), id as int) is Some ==> (r.status == 200 && (r.body
            matches ReplyBody::CardBody(c) && spec_get(store.rows(), id as int) == Some(c@))),
        spec_get(store.rows(), id as int) is None ==> (r.status == 404 && (r.body
            matches ReplyBody::ErrorBody(e) && e.message@ == "Not found"@ && e.status@
            == status_line_spec(404))),
{
    match store.get_card_by_id(id) {
        Ok(card) => ApiResponse { status: 200, body: ReplyBody::CardBody(card) },
        Err(e) => respond_error(&e),
    }
}

/// Sum the durations of the cards on the given date: always 200, the total
/// paired with the queried date echoed back — zero matching rows is a valid
/// total of 0, never an error and never absence.
pub fn check_total_duration_on_date(date: Date, store: &CardStore) -> (r: ApiResponse)
    requires
        store.wf(),
    ensures
        r.status == 200,
        (r.body matches ReplyBody::TotalBody(t) && t.total == sum_duration_spec(
            store.rows(),
            date,
        ) && t.date == date),
{
    match store.check_total_duration_on_date(date) {
        Ok(total) => ApiResponse {
            status: 200,
            body: ReplyBody::TotalBody(TotalReply { total, date }),
        },
        Err(e) => respond_error(&e),
    }
}

/// Delete the card carrying the identifier: 202 with the removed-row count
/// on success, 404 with the fixed not-found message when no row carries it —
/// in particular on every repeated delete of the same identifier.
pub fn delete_card(id: i64, store: &mut CardStore) -> (r: ApiResponse)
    requires
        old(store).wf(),
    ensures
        final(store).wf(),
        spec_get(old(store).rows(), id as int) is Some ==> (r.status == 202 && r.body
            == ReplyBody::DeletedBody(1usize) && spec_get(final(store).rows(), id as int) is None),
        spec_get(old(store).rows(), id as int) is None ==> (r.status == 404 && (r.body
            matches ReplyBody::ErrorBody(e) && e.message@ == "Not found"@) && final(store).rows()
            == old(store).rows()),
{
    match store.delete_card(id) {
        Ok(count) => ApiResponse { status: 202, body: ReplyBody::DeletedBody(count) },
        Err(e) => respond_error(&e),
    }
}

} // verus!
