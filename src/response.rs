//! Whole responses: status code, content type and JSON body, for any request.
use vstd::prelude::*;

use crate::json::escaped;
use crate::payload::{payload_json, payload_members, root_payload};
use crate::routing::{Route, handle, payload_of, route, route_of, status_code, status_of};

verus! {

/// The media type of every response body.
pub open spec fn json_media_type() -> Seq<char> {
    "application/json"@
}

/// An HTTP response as the API sends it.
#[derive(Clone, Debug)]
pub struct Response {
    pub status: u16,
    pub content_type: String,
    pub body: String,
}

/// The contents of a [`Response`] as plain values.
pub struct ResponseView {
    pub status: u16,
    pub content_type: Seq<char>,
    pub body: Seq<char>,
}

impl View for Response {
    type V = ResponseView;

    open spec fn view(&self) -> ResponseView {
        ResponseView { status: self.status, content_type: self.content_type@, body: self.body@ }
    }
}

/// The response to a request with the given method and path.
pub open spec fn response_of(method: Seq<char>, path: Seq<char>) -> ResponseView {
    let route = route_of(method, path);
    ResponseView {
        status: status_of(route),
        content_type: json_media_type(),
        body: payload_json(payload_of(route)),
    }
}

/// Answers a request with the given method (such as `GET`) and path
/// (without the query string). Nothing else of the request matters.
pub fn respond(method: &str, path: &str) -> (r: Response)
    ensures
        r@ == response_of(method@, path@),
        r.content_type@ == "application/json"@,
{
    let route = route(method, path);
    let payload = handle(route);
    Response {
        status: status_code(route),
        content_type: "application/json".to_owned(),
        body: payload.to_json(),
    }
}

/// A string that holds no character that JSON escapes is its own escaped form.
pub proof fn lemma_escaped_plain(s: Seq<char>)
    requires
        forall|i: int|
            0 <= i < s.len() ==> s[i] != '"' && s[i] != '\\' && (s[i] as u32) >= 0x20,
    ensures
        escaped(s) == s,
    decreases s.len(),
{
    if s.len() > 0 {
        lemma_escaped_plain(s.drop_last());
        assert(escaped(s) =~= s);
    }
}

/// Every request other than `GET /` and `GET /goodbye` is answered with
/// status 404 and the not-found payload: status `error` and the same
/// endpoint list as the welcome page. Its body ends with the member
/// `"status":"error"`.
pub proof fn lemma_unmatched_request(method: Seq<char>, path: Seq<char>)
    requires
        !(method == "GET"@ && (path == "/"@ || path == "/goodbye"@)),
    ensures
        route_of(method, path) == Route::NotFound,
        response_of(method, path).status == 404,
        payload_of(route_of(method, path)).status == "error"@,
        payload_of(route_of(method, path)).available_endpoints
            == root_payload().available_endpoints,
        exists|prefix: Seq<char>|
            response_of(method, path).body == prefix + "\"status\":\"error\"}"@,
{
    let members = payload_members(payload_of(Route::NotFound));
    let body = response_of(method, path).body;
    reveal_strlit("status");
    reveal_strlit("error");
    reveal_strlit("\"status\":\"error\"}");
    lemma_escaped_plain("status"@);
    lemma_escaped_plain("error"@);
    assert(members.len() == 4);
    assert(members.drop_last().len() == 3);
    let prefix = seq!['{'] + crate::json::member_list(members.drop_last()) + seq![','];
    assert(body =~= prefix + "\"status\":\"error\"}"@);
}

/// The response depends on the method and path alone: the same request
/// always gets the same status, content type and body, whatever was
/// answered before.
pub proof fn lemma_same_request_same_response(
    method1: Seq<char>,
    path1: Seq<char>,
    method2: Seq<char>,
    path2: Seq<char>,
)
    requires
        method1 == method2,
        path1 == path2,
    ensures
        response_of(method1, path1) == response_of(method2, path2),
{
}

/// Every response declares its body as JSON.
pub proof fn lemma_json_content_type(method: Seq<char>, path: Seq<char>)
    ensures
        response_of(method, path).content_type == "application/json"@,
{
}

} // verus!
