//! The JSON payloads that the handlers answer with.
use vstd::prelude::*;

use crate::json::{object, object_text, string_array, array_text, quote, quoted};

verus! {

/// A response payload: a JSON object with a message and a status, and
/// optionally an error label and the list of available endpoints.
#[derive(Clone, Debug)]
pub struct Payload {
    pub message: String,
    pub status: String,
    pub error: Option<String>,
    pub available_endpoints: Option<Vec<String>>,
}

/// The contents of a [`Payload`] as characters.
pub struct PayloadView {
    pub message: Seq<char>,
    pub status: Seq<char>,
    pub error: Option<Seq<char>>,
    pub available_endpoints: Option<Seq<Seq<char>>>,
}

impl View for Payload {
    type V = PayloadView;

    open spec fn view(&self) -> PayloadView {
        PayloadView {
            message: self.message@,
            status: self.status@,
            error: match self.error {
                Some(e) => Some(e@),
                None => None,
            },
            available_endpoints: match self.available_endpoints {
                Some(v) => Some(v.deep_view()),
                None => None,
            },
        }
    }
}

/// The two endpoints that the API offers, as described to clients.
pub open spec fn endpoint_list() -> Seq<Seq<char>> {
    seq!["GET / - This help message"@, "GET /goodbye - Returns a goodbye message"@]
}

/// The payload of the welcome page.
pub open spec fn root_payload() -> PayloadView {
    PayloadView {
        message: "Welcome to the Goodbye World API!"@,
        status: "success"@,
        error: None,
        available_endpoints: Some(endpoint_list()),
    }
}

/// The payload of the goodbye page.
pub open spec fn goodbye_payload() -> PayloadView {
    PayloadView {
        message: "Goodbye, World!"@,
        status: "success"@,
        error: None,
        available_endpoints: None,
    }
}

/// The payload for a request that matches no route.
pub open spec fn not_found_payload() -> PayloadView {
    PayloadView {
        message: "The requested endpoint does not exist"@,
        status: "error"@,
        error: Some("Route not found"@),
        available_endpoints: Some(endpoint_list()),
    }
}

/// The members of a payload's JSON object, keys in ascending order; absent
/// optional fields are left out.
pub open spec fn payload_members(p: PayloadView) -> Seq<(Seq<char>, Seq<char>)> {
    let endpoints = match p.available_endpoints {
        Some(v) => seq![("available_endpoints"@, array_text(v))],
        None => Seq::empty(),
    };
    let error = match p.error {
        Some(e) => seq![("error"@, quoted(e))],
        None => Seq::empty(),
    };
    endpoints + error + seq![("message"@, quoted(p.message)), ("status"@, quoted(p.status))]
}

/// The JSON text of a payload.
pub open spec fn payload_json(p: PayloadView) -> Seq<char> {
    object_text(payload_members(p))
}

/// The descriptions of the two endpoints that the API offers.
pub fn available_endpoints() -> (r: Vec<String>)
    ensures
        r.deep_view() == endpoint_list(),
{
    let r = vec![
        "GET / - This help message".to_owned(),
        "GET /goodbye - Returns a goodbye message".to_owned(),
    ];
    assert(r.deep_view() =~= endpoint_list());
    r
}

/// The welcome page: a greeting, the endpoint list and status `success`.
pub fn root_handler() -> (r: Payload)
    ensures
        r@ == root_payload(),
{
    Payload {
        message: "Welcome to the Goodbye World API!".to_owned(),
        status: "success".to_owned(),
        error: None,
        available_endpoints: Some(available_endpoints()),
    }
}

/// The goodbye page: `Goodbye, World!` with status `success`.
pub fn goodbye_handler() -> (r: Payload)
    ensures
        r@ == goodbye_payload(),
{
    Payload {
        message: "Goodbye, World!".to_owned(),
        status: "success".to_owned(),
        error: None,
        available_endpoints: None,
    }
}

/// The answer to a request that matches no route: an error label, a
/// message, the endpoint list and status `error`.
pub fn not_found_handler() -> (r: Payload)
    ensures
        r@ == not_found_payload(),
{
    Payload {
        message: "The requested endpoint does not exist".to_owned(),
        status: "error".to_owned(),
        error: Some("Route not found".to_owned()),
        available_endpoints: Some(available_endpoints()),
    }
}

impl Payload {
    /// The payload as JSON text.
    pub fn to_json(&self) -> (r: String)
        ensures
            r@ == payload_json(self@),
    {
        let mut members: Vec<(String, String)> = Vec::new();
        match &self.available_endpoints {
            Some(v) => {
                members.push(("available_endpoints".to_owned(), string_array(v)));
            },
            None => {},
        }
        match &self.error {
            Some(e) => {
                members.push(("error".to_owned(), quote(e.as_str())));
            },
            None => {},
        }
        members.push(("message".to_owned(), quote(self.message.as_str())));
        members.push(("status".to_owned(), quote(self.status.as_str())));
        let r = object(&members);
        assert(crate::json::members_view(members@) =~= payload_members(self@));
        r
    }
}

} // verus!
