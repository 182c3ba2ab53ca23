//! Route matching: which operation an HTTP method and path name, with the
//! typed path parameters parsed out of the segments.

use vstd::prelude::*;
use crate::date::{parse_date, parse_date_spec, Date};
use crate::text::{parse_i64, parse_i64_spec, str_eq};

verus! {

/// The operations of the API surface, with their typed path parameters.
#[derive(Clone, Copy, PartialEq, Eq, Structural, Debug)]
pub enum Route {
    CreateCard,
    EditCard(i64),
    DeleteCard(i64),
    GetCardById(i64),
    GetAllCards,
    CheckTotalDurationOnDate(Date),
}

/// Outcome of matching a request line: an operation, a path no route
/// declares, or a declared path asked with the wrong method.
#[derive(Clone, Copy, PartialEq, Eq, Structural, Debug)]
pub enum RouteMatch {
    Matched(Route),
    PathNotFound,
    MethodNotAllowed,
}

/// Which outcome a method and path segments name. The surface is, under the
/// `api` prefix: `card` (POST create, GET list), `card/{id}` (PUT edit,
/// DELETE delete, GET fetch), and `card/check/{date}` (GET total duration).
/// A path whose parameter does not parse matches no route.
pub open spec fn match_route_spec(method: Seq<char>, segs: Seq<Seq<char>>) -> RouteMatch {
    if segs.len() == 2 && segs[0] == "api"@ && segs[1] == "card"@ {
        if method == "POST"@ {
            RouteMatch::Matched(Route::CreateCard)
        } else if method == "GET"@ {
            RouteMatch::Matched(Route::GetAllCards)
        } else {
            RouteMatch::MethodNotAllowed
        }
    } else if segs.len() == 3 && segs[0] == "api"@ && segs[1] == "card"@ && parse_i64_spec(
        segs[2],
    ) is Some {
        let id = parse_i64_spec(segs[2]).unwrap();
        if method == "PUT"@ {
            RouteMatch::Matched(Route::EditCard(id))
        } else if method == "DELETE"@ {
            RouteMatch::Matched(Route::DeleteCard(id))
        } else if method == "GET"@ {
            RouteMatch::Matched(Route::GetCardById(id))
        } else {
            RouteMatch::MethodNotAllowed
        }
    } else if segs.len() == 4 && segs[0] == "api"@ && segs[1] == "card"@ && segs[2] == "check"@
        && parse_date_spec(segs[3]) is Some {
        let date = parse_date_spec(segs[3]).unwrap();
        if method == "GET"@ {
            RouteMatch::Matched(Route::CheckTotalDurationOnDate(date))
        } else {
            RouteMatch::MethodNotAllowed
        }
    } else {
        RouteMatch::PathNotFound
    }
}

/// Match a method and path segments against the declared routes, exactly as
/// [`match_route_spec`] names the outcome.
pub fn match_route(method: &str, segments: &Vec<String>) -> (r: RouteMatch)
    ensures
        r == match_route_spec(method@, segments.deep_view()),
{
    let n = segments.len();
    proof {
        assert(forall|i: int|
            0 <= i < segments@.len() ==> #[trigger] segments.deep_view()[i] == segments@[i]@);
    }
    if n == 2 && str_eq(segments[0].as_str(), "api") && str_eq(segments[1].as_str(), "card") {
        if str_eq(method, "POST") {
            RouteMatch::Matched(Route::CreateCard)
        } else if str_eq(method, "GET") {
            RouteMatch::Matched(Route::GetAllCards)
        } else {
            RouteMatch::MethodNotAllowed
        }
    } else if n == 3 && str_eq(segments[0].as_str(), "api") && str_eq(
        segments[1].as_str(),
        "card",
    ) {
        match parse_i64(segments[2].as_str()) {
            Some(id) => {
                if str_eq(method, "PUT") {
                    RouteMatch::Matched(Route::EditCard(id))
                } else if str_eq(method, "DELETE") {
                    RouteMatch::Matched(Route::DeleteCard(id))
                } else if str_eq(method, "GET") {
                    RouteMatch::Matched(Route::GetCardById(id))
                } else {
                    RouteMatch::MethodNotAllowed
                }
            },
            None => RouteMatch::PathNotFound,
        }
    } else if n == 4 && str_eq(segments[0].as_str(), "api") && str_eq(
        segments[1].as_str(),
        "card",
    ) && str_eq(segments[2].as_str(), "check") {
        match parse_date(segments[3].as_str()) {
            Some(date) => {
                if str_eq(method, "GET") {
                    RouteMatch::Matched(Route::CheckTotalDurationOnDate(date))
                } else {
                    RouteMatch::MethodNotAllowed
                }
            },
            None => RouteMatch::PathNotFound,
        }
    } else {
        RouteMatch::PathNotFound
    }
}

} // verus!
