use goodbye::json::{object, quote, string_array};
use goodbye::payload::{available_endpoints, goodbye_handler, not_found_handler, root_handler};
use goodbye::response::respond;
use goodbye::routing::{handle, route, status_code, Route};

const WELCOME: &str = "{\"available_endpoints\":[\"GET / - This help message\",\"GET /goodbye - Returns a goodbye message\"],\"message\":\"Welcome to the Goodbye World API!\",\"status\":\"success\"}";
const GOODBYE: &str = "{\"message\":\"Goodbye, World!\",\"status\":\"success\"}";
const NOT_FOUND: &str = "{\"available_endpoints\":[\"GET / - This help message\",\"GET /goodbye - Returns a goodbye message\"],\"error\":\"Route not found\",\"message\":\"The requested endpoint does not exist\",\"status\":\"error\"}";

fn parse(text: &str) -> serde_json::Value {
    serde_json::from_str(text).unwrap()
}

#[test]
fn root_returns_welcome() {
    let r = respond("GET", "/");
    assert_eq!(r.status, 200);
    assert_eq!(r.content_type, "application/json");
    assert_eq!(r.body, WELCOME);
    let expected = parse(
        "{\"message\":\"Welcome to the Goodbye World API!\",\"available_endpoints\":[\"GET / - This help message\",\"GET /goodbye - Returns a goodbye message\"],\"status\":\"success\"}",
    );
    assert_eq!(parse(&r.body), expected);
}

#[test]
fn goodbye_returns_goodbye() {
    let r = respond("GET", "/goodbye");
    assert_eq!(r.status, 200);
    assert_eq!(r.content_type, "application/json");
    assert_eq!(r.body, GOODBYE);
    assert_eq!(parse(&r.body), parse("{\"message\":\"Goodbye, World!\",\"status\":\"success\"}"));
}

#[test]
fn unmatched_requests_get_not_found() {
    let cases = [
        ("GET", "/nonexistent"),
        ("POST", "/"),
        ("POST", "/goodbye"),
        ("DELETE", "/goodbye"),
        ("HEAD", "/"),
        ("get", "/"),
        ("GET", "/goodbye/"),
        ("GET", "/Goodbye"),
        ("GET", ""),
        ("", ""),
        ("PUT", "/anything/else"),
    ];
    let root = parse(&respond("GET", "/").body);
    for (method, path) in cases {
        let r = respond(method, path);
        assert_eq!(r.status, 404, "{} {}", method, path);
        assert_eq!(r.content_type, "application/json");
        assert_eq!(r.body, NOT_FOUND);
        assert!(r.body.contains("\"status\":\"error\""));
        let v = parse(&r.body);
        assert_eq!(v["status"], "error");
        assert_eq!(v["error"], "Route not found");
        assert_eq!(v["available_endpoints"], root["available_endpoints"]);
    }
}

#[test]
fn repeated_requests_give_identical_bodies() {
    for (method, path) in [("GET", "/"), ("GET", "/goodbye"), ("GET", "/missing")] {
        let first = respond(method, path);
        let second = respond(method, path);
        assert_eq!(first.status, second.status);
        assert_eq!(first.body, second.body);
    }
}

#[test]
fn every_response_is_json() {
    for (method, path) in [("GET", "/"), ("GET", "/goodbye"), ("PATCH", "/x")] {
        assert_eq!(respond(method, path).content_type, "application/json");
    }
}

#[test]
fn not_found_then_goodbye() {
    let missing = respond("GET", "/nonexistent");
    assert_eq!(missing.status, 404);
    assert_eq!(missing.body, NOT_FOUND);
    let bye = respond("GET", "/goodbye");
    assert_eq!(bye.status, 200);
    assert_eq!(bye.body, GOODBYE);
}

#[test]
fn routes_by_method_and_path() {
    assert_eq!(route("GET", "/"), Route::Root);
    assert_eq!(route("GET", "/goodbye"), Route::Goodbye);
    assert_eq!(route("POST", "/"), Route::NotFound);
    assert_eq!(route("GET", "/goodbye?x=1"), Route::NotFound);
    assert_eq!(status_code(Route::Root), 200);
    assert_eq!(status_code(Route::Goodbye), 200);
    assert_eq!(status_code(Route::NotFound), 404);
}

#[test]
fn handlers_build_their_payloads() {
    let root = root_handler();
    assert_eq!(root.message, "Welcome to the Goodbye World API!");
    assert_eq!(root.status, "success");
    assert_eq!(root.error, None);
    assert_eq!(root.available_endpoints, Some(available_endpoints()));
    let bye = goodbye_handler();
    assert_eq!(bye.message, "Goodbye, World!");
    assert_eq!(bye.available_endpoints, None);
    let missing = not_found_handler();
    assert_eq!(missing.status, "error");
    assert_eq!(missing.error, Some("Route not found".to_string()));
    assert_eq!(missing.to_json(), NOT_FOUND);
    assert_eq!(handle(Route::Goodbye).to_json(), GOODBYE);
    assert_eq!(handle(Route::Root).to_json(), WELCOME);
    assert_eq!(
        available_endpoints(),
        vec![
            "GET / - This help message".to_string(),
            "GET /goodbye - Returns a goodbye message".to_string()
        ]
    );
}

#[test]
fn quote_escapes_special_characters() {
    assert_eq!(quote(""), "\"\"");
    assert_eq!(quote("plain"), "\"plain\"");
    assert_eq!(quote("a\"b\\c"), "\"a\\\"b\\\\c\"");
    assert_eq!(quote("\n\t\r\u{8}\u{c}"), "\"\\n\\t\\r\\b\\f\"");
    assert_eq!(quote("\u{1}\u{1f}"), "\"\\u0001\\u001f\"");
    assert_eq!(quote("/é\u{7f}"), "\"/é\u{7f}\"");
}

#[test]
fn arrays_and_objects_frame_their_parts() {
    assert_eq!(string_array(&vec![]), "[]");
    assert_eq!(string_array(&vec!["a".to_string()]), "[\"a\"]");
    assert_eq!(string_array(&vec!["a".to_string(), "b\"".to_string()]), "[\"a\",\"b\\\"\"]");
    assert_eq!(object(&vec![]), "{}");
    assert_eq!(
        object(&vec![("k".to_string(), "1".to_string()), ("q\"".to_string(), "[]".to_string())]),
        "{\"k\":1,\"q\\\"\":[]}"
    );
}
