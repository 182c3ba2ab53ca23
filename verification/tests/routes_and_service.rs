use card_service::date::Date;
use card_service::domain::CardData;
use card_service::errors::{AppError, Error, ErrorType};
use card_service::http::{status_line, ReplyBody};
use card_service::router::{match_route, Route, RouteMatch};
use card_service::service::{handle_rejection, handle_request, Rejection, BODY_LIMIT};
use card_service::store::CardStore;

fn segs(parts: &[&str]) -> Vec<String> {
    parts.iter().map(|s| s.to_string()).collect()
}

fn sample_data() -> CardData {
    CardData {
        title: "T".to_string(),
        description: "D".to_string(),
        date: Date { year: 2024, month: 1, day: 1 },
        priority: "low".to_string(),
        duration: 30,
        status: "todo".to_string(),
    }
}

#[test]
fn route_table() {
    assert_eq!(match_route("POST", &segs(&["api", "card"])), RouteMatch::Matched(Route::CreateCard));
    assert_eq!(match_route("GET", &segs(&["api", "card"])), RouteMatch::Matched(Route::GetAllCards));
    assert_eq!(match_route("PUT", &segs(&["api", "card", "7"])), RouteMatch::Matched(Route::EditCard(7)));
    assert_eq!(
        match_route("DELETE", &segs(&["api", "card", "-3"])),
        RouteMatch::Matched(Route::DeleteCard(-3))
    );
    assert_eq!(
        match_route("GET", &segs(&["api", "card", "42"])),
        RouteMatch::Matched(Route::GetCardById(42))
    );
    assert_eq!(
        match_route("GET", &segs(&["api", "card", "check", "2024-01-01"])),
        RouteMatch::Matched(Route::CheckTotalDurationOnDate(Date { year: 2024, month: 1, day: 1 }))
    );
}

#[test]
fn route_rejections() {
    assert_eq!(match_route("PATCH", &segs(&["api", "card"])), RouteMatch::MethodNotAllowed);
    assert_eq!(match_route("POST", &segs(&["api", "card", "7"])), RouteMatch::MethodNotAllowed);
    assert_eq!(
        match_route("PUT", &segs(&["api", "card", "check", "2024-01-01"])),
        RouteMatch::MethodNotAllowed
    );
    assert_eq!(match_route("GET", &segs(&["api", "nope"])), RouteMatch::PathNotFound);
    assert_eq!(match_route("GET", &segs(&["card"])), RouteMatch::PathNotFound);
    assert_eq!(match_route("GET", &segs(&["api", "card", "abc"])), RouteMatch::PathNotFound);
    assert_eq!(
        match_route("GET", &segs(&["api", "card", "check", "2024-13-01"])),
        RouteMatch::PathNotFound
    );
    assert_eq!(match_route("GET", &segs(&[])), RouteMatch::PathNotFound);
}

#[test]
fn status_lines() {
    assert_eq!(status_line(200), "200 OK");
    assert_eq!(status_line(404), "404 Not Found");
    assert_eq!(status_line(413), "413 Payload Too Large");
    assert_eq!(status_line(500), "500 Internal Server Error");
}

fn error_parts(rej: &Rejection) -> (u16, String, String) {
    let r = handle_rejection(rej);
    match r.body {
        ReplyBody::ErrorBody(e) => (r.status, e.message, e.status),
        _ => panic!("rejection must answer with an error body"),
    }
}

#[test]
fn rejection_translation_table() {
    assert_eq!(
        error_parts(&Rejection::RouteNotFound),
        (404, "Not Found".to_string(), "404 Not Found".to_string())
    );
    assert_eq!(
        error_parts(&Rejection::MethodNotAllowedRejection),
        (400, "Bad Request".to_string(), "400 Bad Request".to_string())
    );
    assert_eq!(
        error_parts(&Rejection::PayloadTooLargeRejection),
        (413, "Payload Too Large".to_string(), "413 Payload Too Large".to_string())
    );
    assert_eq!(
        error_parts(&Rejection::InvalidQueryRejection),
        (400, "Missing field".to_string(), "400 Bad Request".to_string())
    );
    assert_eq!(
        error_parts(&Rejection::UnhandledRejection),
        (500, "Internal Server Error".to_string(), "500 Internal Server Error".to_string())
    );
}

#[test]
fn rejection_forwards_app_error_text() {
    let rej = Rejection::AppRejection(AppError::new("pool exhausted", ErrorType::Internal));
    assert_eq!(error_parts(&rej), (
        500,
        "pool exhausted".to_string(),
        "500 Internal Server Error".to_string(),
    ));

    let rej = Rejection::AppRejection(AppError::new("no such row", ErrorType::NotFound));
    assert_eq!(error_parts(&rej).0, 404);
}

#[test]
fn rejection_auth_errors() {
    assert_eq!(
        error_parts(&Rejection::AuthRejection(Error::NoAuthHeader)),
        (401, "no auth header".to_string(), "401 Unauthorized".to_string())
    );
    assert_eq!(
        error_parts(&Rejection::AuthRejection(Error::JWTTokenCreation)).0,
        500
    );
    assert_eq!(
        error_parts(&Rejection::AuthRejection(Error::ClientNotFound)),
        (404, "client not found".to_string(), "404 Not Found".to_string())
    );
}

#[test]
fn rejection_body_deserialize_messages() {
    let with_cause = Rejection::BodyDeserializeRejection(Some(
        "invalid type: string \"x\", expected i32".to_string(),
    ));
    assert_eq!(
        error_parts(&with_cause).1,
        "FIELD_ERROR: invalid type invalid type: string \"x\", expected i32"
    );
    let other_cause = Rejection::BodyDeserializeRejection(Some("missing field `title`".to_string()));
    assert_eq!(error_parts(&other_cause).1, "Bad Request");
    let no_cause = Rejection::BodyDeserializeRejection(None);
    assert_eq!(error_parts(&no_cause), (
        400,
        "Bad Request".to_string(),
        "400 Bad Request".to_string(),
    ));
}

#[test]
fn post_card_creates_with_assigned_id() {
    let mut store = CardStore::new();
    let r = handle_request(&mut store, "POST", &segs(&["api", "card"]), 96, Some(sample_data()));
    assert_eq!(r.status, 201);
    match r.body {
        ReplyBody::CardBody(c) => {
            assert_eq!(c.id, 1);
            assert_eq!(c.title, "T");
            assert_eq!(c.description, "D");
            assert_eq!(c.date, Date { year: 2024, month: 1, day: 1 });
            assert_eq!(c.priority, "low");
            assert_eq!(c.duration, 30);
            assert_eq!(c.status, "todo");
        },
        _ => panic!("create must answer with the stored card"),
    }
}

#[test]
fn oversized_body_answers_413_and_stores_nothing() {
    let mut store = CardStore::new();
    let r = handle_request(
        &mut store,
        "POST",
        &segs(&["api", "card"]),
        BODY_LIMIT + 1,
        Some(sample_data()),
    );
    assert_eq!(r.status, 413);
    match r.body {
        ReplyBody::ErrorBody(e) => {
            assert_eq!(e.message, "Payload Too Large");
            assert_eq!(e.status, "413 Payload Too Large");
        },
        _ => panic!("an oversized body must answer with an error body"),
    }

    let all = handle_request(&mut store, "GET", &segs(&["api", "card"]), 0, None);
    match all.body {
        ReplyBody::CardListBody(v) => assert!(v.is_empty()),
        _ => panic!("listing must answer with the card list"),
    }

    let edit = handle_request(
        &mut store,
        "PUT",
        &segs(&["api", "card", "1"]),
        BODY_LIMIT + 1,
        Some(sample_data()),
    );
    assert_eq!(edit.status, 413);
}

#[test]
fn body_at_the_ceiling_is_accepted() {
    let mut store = CardStore::new();
    let r = handle_request(&mut store, "POST", &segs(&["api", "card"]), BODY_LIMIT, Some(sample_data()));
    assert_eq!(r.status, 201);
}

#[test]
fn undeserializable_body_answers_400() {
    let mut store = CardStore::new();
    let r = handle_request(&mut store, "POST", &segs(&["api", "card"]), 10, None);
    assert_eq!(r.status, 400);
    let all = handle_request(&mut store, "GET", &segs(&["api", "card"]), 0, None);
    match all.body {
        ReplyBody::CardListBody(v) => assert!(v.is_empty()),
        _ => panic!("listing must answer with the card list"),
    }
}

#[test]
fn check_duration_sums_created_cards() {
    let mut store = CardStore::new();
    let mut first = sample_data();
    first.duration = 30;
    let mut second = sample_data();
    second.duration = 45;
    assert_eq!(handle_request(&mut store, "POST", &segs(&["api", "card"]), 96, Some(first)).status, 201);
    assert_eq!(handle_request(&mut store, "POST", &segs(&["api", "card"]), 96, Some(second)).status, 201);

    let r = handle_request(&mut store, "GET", &segs(&["api", "card", "check", "2024-01-01"]), 0, None);
    assert_eq!(r.status, 200);
    match r.body {
        ReplyBody::TotalBody(t) => {
            assert_eq!(t.total, 75);
            assert_eq!(t.date, Date { year: 2024, month: 1, day: 1 });
        },
        _ => panic!("the duration check must answer with the total"),
    }
}

#[test]
fn check_duration_on_empty_date_is_zero_with_200() {
    let mut store = CardStore::new();
    let r = handle_request(&mut store, "GET", &segs(&["api", "card", "check", "2030-05-05"]), 0, None);
    assert_eq!(r.status, 200);
    match r.body {
        ReplyBody::TotalBody(t) => {
            assert_eq!(t.total, 0);
            assert_eq!(t.date, Date { year: 2030, month: 5, day: 5 });
        },
        _ => panic!("the duration check must answer with the total"),
    }
}

#[test]
fn full_crud_over_the_service() {
    let mut store = CardStore::new();
    let created = handle_request(&mut store, "POST", &segs(&["api", "card"]), 96, Some(sample_data()));
    assert_eq!(created.status, 201);

    let fetched = handle_request(&mut store, "GET", &segs(&["api", "card", "1"]), 0, None);
    assert_eq!(fetched.status, 200);

    let mut replacement = sample_data();
    replacement.title = "edited".to_string();
    let edited = handle_request(
        &mut store,
        "PUT",
        &segs(&["api", "card", "1"]),
        96,
        Some(replacement),
    );
    assert_eq!(edited.status, 200);
    match edited.body {
        ReplyBody::CardBody(c) => assert_eq!(c.title, "edited"),
        _ => panic!("edit must answer with the stored card"),
    }

    let deleted = handle_request(&mut store, "DELETE", &segs(&["api", "card", "1"]), 0, None);
    assert_eq!(deleted.status, 202);
    match deleted.body {
        ReplyBody::DeletedBody(count) => assert_eq!(count, 1),
        _ => panic!("delete must answer with the removed count"),
    }

    let gone = handle_request(&mut store, "GET", &segs(&["api", "card", "1"]), 0, None);
    assert_eq!(gone.status, 404);

    let again = handle_request(&mut store, "DELETE", &segs(&["api", "card", "1"]), 0, None);
    assert_eq!(again.status, 404);
}

#[test]
fn unmatched_requests_answer_404_and_400() {
    let mut store = CardStore::new();
    let missing = handle_request(&mut store, "GET", &segs(&["api", "nope"]), 0, None);
    assert_eq!(missing.status, 404);
    match missing.body {
        ReplyBody::ErrorBody(e) => {
            assert_eq!(e.message, "Not Found");
            assert_eq!(e.status, "404 Not Found");
        },
        _ => panic!("an unmatched path must answer with an error body"),
    }

    let wrong_method = handle_request(&mut store, "PATCH", &segs(&["api", "card"]), 0, None);
    assert_eq!(wrong_method.status, 400);
}

#[test]
fn handler_errors_use_fixed_generic_messages() {
    let mut store = CardStore::new();
    let r = handle_request(&mut store, "GET", &segs(&["api", "card", "5"]), 0, None);
    assert_eq!(r.status, 404);
    match r.body {
        ReplyBody::ErrorBody(e) => {
            assert_eq!(e.message, "Not found");
            assert_eq!(e.status, "404 Not Found");
        },
        _ => panic!("a miss must answer with an error body"),
    }
}
