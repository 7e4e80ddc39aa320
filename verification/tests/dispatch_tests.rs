use mini_http::{
    dispatch, echo_response, greeting_response, needs_file, not_found_response, respond, route,
    static_file_response, ContentType, Method, RequestDescriptor, ResponseDescriptor, Route,
    STATIC_FILE_PATH, STATUS_NOT_FOUND, STATUS_OK,
};

const GREETING: &[u8] = b"{\"message\":\"Hello, welcome to our server!\"}";
const INVALID: &[u8] = b"{\"echoedMessage\":\"Invalid JSON\"}";

fn request(method: Method, path: &str, body: &[u8]) -> RequestDescriptor {
    RequestDescriptor { method, path: path.to_string(), body: body.to_vec() }
}

fn echoed(response: &ResponseDescriptor) -> String {
    let value: serde_json::Value = serde_json::from_slice(&response.body).unwrap();
    let object = value.as_object().unwrap();
    assert_eq!(object.len(), 1);
    object.get("echoedMessage").unwrap().as_str().unwrap().to_string()
}

#[test]
fn hello_returns_fixed_greeting() {
    let response = dispatch(&request(Method::Get, "/hello", b""), None);
    assert_eq!(response.status, 200);
    assert_eq!(response.body, GREETING.to_vec());
    assert_eq!(response.content_type, ContentType::Json);
}

#[test]
fn hello_ignores_body_and_file() {
    let plain = dispatch(&request(Method::Get, "/hello", b""), None);
    let loaded = dispatch(
        &request(Method::Get, "/hello", b"{\"message\":\"x\"}"),
        Some("hello".to_string()),
    );
    assert_eq!(plain, loaded);
    assert_eq!(loaded, greeting_response());
}

#[test]
fn greeting_is_what_the_encoder_writes() {
    let mut object = serde_json::Map::new();
    object.insert(
        "message".to_string(),
        serde_json::Value::String("Hello, welcome to our server!".to_string()),
    );
    let text = serde_json::Value::Object(object).to_string();
    assert_eq!(greeting_response().body, text.into_bytes());
}

#[test]
fn echo_repeats_message() {
    let response = dispatch(&request(Method::Post, "/echo", b"{\"message\": \"hi\"}"), None);
    assert_eq!(response.status, STATUS_OK);
    assert_eq!(response.body, b"{\"echoedMessage\":\"hi\"}".to_vec());
    assert_eq!(response.content_type, ContentType::Json);
}

#[test]
fn echo_round_trips_every_kind_of_character() {
    let samples = [
        "",
        "plain",
        "quote \" and backslash \\",
        "line\nbreak\ttab\r",
        "control \u{1} \u{1f} \u{7f}",
        "accents \u{e9}\u{fc} and \u{1f600}",
        "{\"message\":\"nested\"}",
    ];
    for sample in samples {
        let mut object = serde_json::Map::new();
        object.insert("message".to_string(), serde_json::Value::String(sample.to_string()));
        let body = serde_json::Value::Object(object).to_string().into_bytes();
        let response = dispatch(&request(Method::Post, "/echo", &body), None);
        assert_eq!(response.status, 200);
        assert_eq!(echoed(&response), sample);
    }
}

#[test]
fn echo_escapes_exactly() {
    let response = echo_response(b"{\"message\":\"a\\\"b\\\\c\\n\\u0001\"}");
    assert_eq!(response.body, b"{\"echoedMessage\":\"a\\\"b\\\\c\\n\\u0001\"}".to_vec());
}

#[test]
fn echo_ignores_other_members() {
    let response = echo_response(b" { \"x\": 1, \"message\": \"a\", \"y\": [true, null] } ");
    assert_eq!(response.body, b"{\"echoedMessage\":\"a\"}".to_vec());
}

#[test]
fn echo_not_json_gives_default() {
    let response = dispatch(&request(Method::Post, "/echo", b"not json"), None);
    assert_eq!(response.status, 200);
    assert_eq!(response.body, INVALID.to_vec());
}

#[test]
fn echo_empty_object_gives_default() {
    let response = dispatch(&request(Method::Post, "/echo", b"{}"), None);
    assert_eq!(response.status, 200);
    assert_eq!(response.body, INVALID.to_vec());
}

#[test]
fn echo_absent_body_gives_default() {
    let response = dispatch(&request(Method::Post, "/echo", b""), None);
    assert_eq!(response.status, 200);
    assert_eq!(response.body, INVALID.to_vec());
}

#[test]
fn echo_wrong_type_gives_default() {
    for body in [
        &b"{\"message\": 5}"[..],
        b"{\"message\": null}",
        b"{\"message\": [\"a\"]}",
        b"{\"message\": {\"message\": \"a\"}}",
        b"{\"Message\": \"a\"}",
        b"\"message\"",
        b"[\"a\"]",
        b"42",
        b"{\"message\": \"a\"",
        b"{\"message\": \"a\"} trailing",
        b"{\"message\": \"\xff\"}",
    ] {
        let response = echo_response(body);
        assert_eq!(response.status, 200);
        assert_eq!(response.body, INVALID.to_vec());
        assert_eq!(response.content_type, ContentType::Json);
    }
}

#[test]
fn static_file_is_served_raw() {
    let response = dispatch(
        &request(Method::Get, "/static/file.txt", b""),
        Some("hello".to_string()),
    );
    assert_eq!(response.status, 200);
    assert_eq!(response.body, b"hello".to_vec());
    assert_eq!(response.content_type, ContentType::Unspecified);
}

#[test]
fn static_file_keeps_json_looking_text_unwrapped() {
    let text = "{\"message\":\"x\"}\n\u{e9}";
    let response = static_file_response(Some(text.to_string()));
    assert_eq!(response.status, STATUS_OK);
    assert_eq!(response.body, text.as_bytes().to_vec());
}

#[test]
fn static_file_empty_is_served() {
    let response = static_file_response(Some(String::new()));
    assert_eq!(response.status, 200);
    assert_eq!(response.body, Vec::<u8>::new());
}

#[test]
fn static_file_missing_is_not_found() {
    let response = dispatch(&request(Method::Get, "/static/file.txt", b""), None);
    assert_eq!(response.status, 404);
    assert_eq!(response.body, b"File not found".to_vec());
    assert_eq!(response.content_type, ContentType::Unspecified);
}

#[test]
fn unknown_routes_are_not_found() {
    let cases = [
        (Method::Get, "/unknown"),
        (Method::Delete, "/hello"),
        (Method::Post, "/hello"),
        (Method::Get, "/echo"),
        (Method::Post, "/static/file.txt"),
        (Method::Head, "/hello"),
        (Method::Extension, "/echo"),
        (Method::Get, "/hello/"),
        (Method::Get, "/HELLO"),
        (Method::Get, "hello"),
        (Method::Get, "/static/other.txt"),
        (Method::Get, "/"),
        (Method::Get, ""),
        (Method::Put, "/echo"),
        (Method::Patch, "/echo"),
        (Method::Options, "/hello"),
        (Method::Connect, "/hello"),
        (Method::Trace, "/hello"),
    ];
    for (method, path) in cases {
        let response = dispatch(
            &request(method, path, b"{\"message\":\"x\"}"),
            Some("hello".to_string()),
        );
        assert_eq!(response.status, 404);
        assert_eq!(response.body, b"Route not found".to_vec());
        assert_eq!(response.content_type, ContentType::Unspecified);
        assert_eq!(response, not_found_response());
    }
}

#[test]
fn routing_table_rows() {
    assert_eq!(route(Method::Get, "/hello"), Route::Greeting);
    assert_eq!(route(Method::Post, "/echo"), Route::Echo);
    assert_eq!(route(Method::Get, "/static/file.txt"), Route::StaticFile);
    assert_eq!(route(Method::Get, "/echo"), Route::NotFound);
    assert_eq!(route(Method::Post, "/hello"), Route::NotFound);
    assert_eq!(route(Method::Get, "/static/file.txt/"), Route::NotFound);
}

#[test]
fn only_static_route_needs_file() {
    assert!(needs_file(Route::StaticFile));
    assert!(!needs_file(Route::Greeting));
    assert!(!needs_file(Route::Echo));
    assert!(!needs_file(Route::NotFound));
    assert_eq!(STATIC_FILE_PATH, "static/file.txt");
}

#[test]
fn respond_runs_each_handler() {
    let body = b"{\"message\":\"m\"}";
    let file = Some("f".to_string());
    assert_eq!(respond(Route::Greeting, body, file.clone()), greeting_response());
    assert_eq!(respond(Route::Echo, body, file.clone()), echo_response(body));
    assert_eq!(
        respond(Route::StaticFile, body, file.clone()),
        static_file_response(file.clone())
    );
    assert_eq!(respond(Route::NotFound, body, file), not_found_response());
    assert_eq!(not_found_response().status, STATUS_NOT_FOUND);
}

#[test]
fn status_is_always_200_or_404() {
    let methods = [Method::Get, Method::Post, Method::Delete, Method::Extension];
    let paths = ["/hello", "/echo", "/static/file.txt", "/nothing"];
    let bodies = [&b""[..], b"{}", b"{\"message\":\"z\"}", b"\xff\xfe"];
    for method in methods {
        for path in paths {
            for body in bodies {
                for file in [None, Some("text".to_string())] {
                    let response = dispatch(&request(method, path, body), file);
                    assert!(response.status == 200 || response.status == 404);
                }
            }
        }
    }
}

#[test]
fn repeated_requests_give_identical_replies() {
    for (method, path) in [
        (Method::Get, "/hello"),
        (Method::Get, "/static/file.txt"),
        (Method::Post, "/echo"),
        (Method::Get, "/unknown"),
    ] {
        let req = request(method, path, b"{\"message\":\"again\"}");
        let first = dispatch(&req, Some("hello".to_string()));
        let second = dispatch(&req, Some("hello".to_string()));
        assert_eq!(first, second);
        let missing_first = dispatch(&req, None);
        let missing_second = dispatch(&req, None);
        assert_eq!(missing_first, missing_second);
    }
}

#[test]
fn method_names_are_exact() {
    assert_eq!(Method::from_name("GET"), Method::Get);
    assert_eq!(Method::from_name("POST"), Method::Post);
    assert_eq!(Method::from_name("PUT"), Method::Put);
    assert_eq!(Method::from_name("DELETE"), Method::Delete);
    assert_eq!(Method::from_name("HEAD"), Method::Head);
    assert_eq!(Method::from_name("OPTIONS"), Method::Options);
    assert_eq!(Method::from_name("PATCH"), Method::Patch);
    assert_eq!(Method::from_name("CONNECT"), Method::Connect);
    assert_eq!(Method::from_name("TRACE"), Method::Trace);
    assert_eq!(Method::from_name("get"), Method::Extension);
    assert_eq!(Method::from_name("PROPFIND"), Method::Extension);
    assert_eq!(Method::from_name(""), Method::Extension);
    assert_eq!(Method::from_name("GET "), Method::Extension);
}

#[test]
fn media_type_only_for_json() {
    assert_eq!(ContentType::Json.media_type(), Some("application/json"));
    assert_eq!(ContentType::Unspecified.media_type(), None);
    assert_eq!(greeting_response().content_type.media_type(), Some("application/json"));
    assert_eq!(not_found_response().content_type.media_type(), None);
}
