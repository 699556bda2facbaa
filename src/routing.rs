//! Matching a request's method and path to one of the API's routes.
use vstd::prelude::*;

use crate::payload::{
    Payload, PayloadView, goodbye_handler, goodbye_payload, not_found_handler, not_found_payload,
    root_handler, root_payload,
};

verus! {

/// The routes of the API.
#[derive(Clone, Copy, Debug, PartialEq, Eq, Structural)]
pub enum Route {
    /// `GET /`: the welcome page.
    Root,
    /// `GET /goodbye`.
    Goodbye,
    /// Every other method and path.
    NotFound,
}

/// The route that a request with the given method and path goes to.
pub open spec fn route_of(method: Seq<char>, path: Seq<char>) -> Route {
    if method == "GET"@ && path == "/"@ {
        Route::Root
    } else if method == "GET"@ && path == "/goodbye"@ {
        Route::Goodbye
    } else {
        Route::NotFound
    }
}

/// The HTTP status code that a route answers with.
pub open spec fn status_of(route: Route) -> u16 {
    match route {
        Route::NotFound => 404,
        _ => 200,
    }
}

/// The payload that a route answers with.
pub open spec fn payload_of(route: Route) -> PayloadView {
    match route {
        Route::Root => root_payload(),
        Route::Goodbye => goodbye_payload(),
        Route::NotFound => not_found_payload(),
    }
}

/// Whether two strings hold the same characters.
fn same_text(a: &str, b: &str) -> (r: bool)
    ensures
        r == (a@ == b@),
{
    a.to_owned() == b.to_owned()
}

/// The route for a request's method (such as `GET`, case-sensitive) and
/// path (without the query string).
pub fn route(method: &str, path: &str) -> (r: Route)
    ensures
        r == route_of(method@, path@),
{
    if same_text(method, "GET") && same_text(path, "/") {
        Route::Root
    } else if same_text(method, "GET") && same_text(path, "/goodbye") {
        Route::Goodbye
    } else {
        Route::NotFound
    }
}

/// The HTTP status code that a route answers with.
pub fn status_code(route: Route) -> (r: u16)
    ensures
        r == status_of(route),
{
    match route {
        Route::NotFound => 404,
        _ => 200,
    }
}

/// The payload that a route answers with, from its handler.
pub fn handle(route: Route) -> (r: Payload)
    ensures
        r@ == payload_of(route),
{
    match route {
        Route::Root => root_handler(),
        Route::Goodbye => goodbye_handler(),
        Route::NotFound => not_found_handler(),
    }
}

} // verus!
