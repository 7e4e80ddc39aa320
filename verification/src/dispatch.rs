use vstd::prelude::*;
use crate::handlers::{
    echo_reply, echo_response, greeting_reply, greeting_response, not_found_reply,
    not_found_response, static_file_reply, static_file_response, text_view,
};
use crate::json::{default_message, echo_body, json_object_members, string_member};
use crate::text::same_text;
use crate::types::{
    valid_status, ContentType, Method, RequestDescriptor, RequestView,
    ResponseDescriptor, ResponseView, Route, STATUS_NOT_FOUND, STATUS_OK,
};

verus! {

/// The routing table: the first row that matches both method and path
/// decides, and the last row matches everything.
pub open spec fn route_of(method: Method, path: Seq<char>) -> Route {
    if method == Method::Get && path == "/hello"@ {
        Route::Greeting
    } else if method == Method::Post && path == "/echo"@ {
        Route::Echo
    } else if method == Method::Get && path == "/static/file.txt"@ {
        Route::StaticFile
    } else {
        Route::NotFound
    }
}

/// What a handler replies, given the request body and what reading the
/// static file gave. Each handler reads only its own input.
pub open spec fn reply_of(route: Route, body: Seq<u8>, file: Option<Seq<char>>) -> ResponseView {
    match route {
        Route::Greeting => greeting_reply(),
        Route::Echo => echo_reply(body),
        Route::StaticFile => static_file_reply(file),
        Route::NotFound => not_found_reply(),
    }
}

/// The reply to a request.
pub open spec fn dispatch_reply(request: RequestView, file: Option<Seq<char>>) -> ResponseView {
    reply_of(route_of(request.method, request.path), request.body, file)
}

/// Whether a parse gave an object whose member `message` is the string
/// `message`.
pub open spec fn usable_message(
    parsed: Option<Seq<(Seq<char>, Option<Seq<char>>)>>,
    message: Seq<char>,
) -> bool {
    parsed matches Some(members) && string_member(members, "message"@) == Some(message)
}

/// Whether the handler of a route needs the static file to be read.
pub open spec fn reads_file(route: Route) -> bool {
    route == Route::StaticFile
}

/// Selects the handler for a method and a path by exact comparison.
pub fn route(method: Method, path: &str) -> (r: Route)
    ensures
        r == route_of(method, path@),
{
    if method == Method::Get && same_text(path, "/hello") {
        Route::Greeting
    } else if method == Method::Post && same_text(path, "/echo") {
        Route::Echo
    } else if method == Method::Get && same_text(path, "/static/file.txt") {
        Route::StaticFile
    } else {
        Route::NotFound
    }
}

/// Whether the caller has to read the static file before it asks for the
/// reply of this route.
pub fn needs_file(route: Route) -> (needed: bool)
    ensures
        needed == reads_file(route),
{
    route == Route::StaticFile
}

/// Runs the handler of a route. `file` is what reading the static file gave
/// and is looked at by the static route alone.
pub fn respond(route: Route, body: &[u8], file: Option<String>) -> (response: ResponseDescriptor)
    ensures
        response@ == reply_of(route, body@, text_view(file)),
        valid_status(response.status),
{
    match route {
        Route::Greeting => greeting_response(),
        Route::Echo => echo_response(body),
        Route::StaticFile => static_file_response(file),
        Route::NotFound => not_found_response(),
    }
}

/// Answers a request with exactly one response. `file` is what reading the
/// static file gave: its text, or `None` for any failure; a caller may pass
/// `None` unread for a request that is not routed to the static handler.
pub fn dispatch(request: &RequestDescriptor, file: Option<String>) -> (response:
    ResponseDescriptor)
    ensures
        response@ == dispatch_reply(request@, text_view(file)),
        valid_status(response.status),
        response.status == STATUS_OK || response.status == STATUS_NOT_FOUND,
{
    let chosen = route(request.method, request.path.as_str());
    respond(chosen, request.body.as_slice(), file)
}

/// Every reply carries a valid status code: 200 or 404.
pub proof fn reply_status_is_valid(request: RequestView, file: Option<Seq<char>>)
    ensures
        valid_status(dispatch_reply(request, file).status),
        dispatch_reply(request, file).status == STATUS_OK || dispatch_reply(request, file).status
            == STATUS_NOT_FOUND,
{
}

/// A `GET` of `/hello` is answered with the fixed greeting, whatever the body
/// holds and whatever the file read gave.
pub proof fn greeting_ignores_body(body: Seq<u8>, file: Option<Seq<char>>)
    ensures
        dispatch_reply(RequestView { method: Method::Get, path: "/hello"@, body }, file)
            == greeting_reply(),
        greeting_reply().status == STATUS_OK,
        greeting_reply().content_type == ContentType::Json,
{
}

/// A `POST` to `/echo` is answered with status 200 and a JSON body, whatever
/// the request body holds; where that body is a JSON object with the string
/// member `message`, the reply repeats that same message under
/// `echoedMessage`.
pub proof fn echo_repeats_message(body: Seq<u8>, message: Seq<char>, file: Option<Seq<char>>)
    ensures
        ({
            let reply = dispatch_reply(
                RequestView { method: Method::Post, path: "/echo"@, body },
                file,
            );
            &&& reply.status == STATUS_OK
            &&& reply.content_type == ContentType::Json
            &&& usable_message(json_object_members(body), message) ==> reply.body == echo_body(
                message,
            )
        }),
{
}

/// A `POST` to `/echo` whose body is no JSON object, or an object without a
/// string member `message`, is answered with status 200 and the default text
/// under `echoedMessage`.
pub proof fn echo_defaults_without_message(body: Seq<u8>, file: Option<Seq<char>>)
    ensures
        ({
            let reply = dispatch_reply(
                RequestView { method: Method::Post, path: "/echo"@, body },
                file,
            );
            let parsed = json_object_members(body);
            (parsed is None || string_member(parsed.unwrap(), "message"@) is None) ==> reply
                == (ResponseView {
                status: STATUS_OK,
                body: echo_body(default_message()),
                content_type: ContentType::Json,
            })
        }),
{
}

/// A `GET` of `/static/file.txt` is answered with the file's text and status
/// 200 when the read succeeded, and with a 404 otherwise, whatever the body.
pub proof fn static_route_serves_file(body: Seq<u8>, file: Option<Seq<char>>)
    ensures
        dispatch_reply(RequestView { method: Method::Get, path: "/static/file.txt"@, body }, file)
            == static_file_reply(file),
        file is Some ==> static_file_reply(file).status == STATUS_OK,
        file is None ==> static_file_reply(file).status == STATUS_NOT_FOUND,
{
    lemma_routes_differ();
}

/// A method and path that stand in no row of the routing table are answered
/// with status 404 and the not-found body.
pub proof fn unmatched_route_is_not_found(request: RequestView, file: Option<Seq<char>>)
    requires
        !(request.method == Method::Get && request.path == "/hello"@),
        !(request.method == Method::Post && request.path == "/echo"@),
        !(request.method == Method::Get && request.path == "/static/file.txt"@),
    ensures
        dispatch_reply(request, file) == not_found_reply(),
        not_found_reply().status == STATUS_NOT_FOUND,
{
}

/// Repeating a request gives the same reply, byte for byte, when the file
/// read gave the same both times. For every route but the echo the bodies
/// play no part: the same method and path are enough.
pub proof fn repeated_request_same_reply(
    first: RequestView,
    second: RequestView,
    file: Option<Seq<char>>,
)
    requires
        first.method == second.method,
        first.path == second.path,
        first.body == second.body || route_of(first.method, first.path) != Route::Echo,
    ensures
        dispatch_reply(first, file) == dispatch_reply(second, file),
{
}

/// Only the static route looks at the file: for a request routed elsewhere
/// the reply is the same whatever the read gave.
pub proof fn file_matters_to_static_route_only(
    request: RequestView,
    file: Option<Seq<char>>,
    other: Option<Seq<char>>,
)
    requires
        !reads_file(route_of(request.method, request.path)),
    ensures
        dispatch_reply(request, file) == dispatch_reply(request, other),
{
}

/// The three paths of the routing table are pairwise different.
proof fn lemma_routes_differ()
    ensures
        "/hello"@ != "/echo"@,
        "/hello"@ != "/static/file.txt"@,
        "/echo"@ != "/static/file.txt"@,
{
    reveal_strlit("/hello");
    reveal_strlit("/echo");
    reveal_strlit("/static/file.txt");
    assert("/hello"@.len() == 6);
    assert("/echo"@.len() == 5);
    assert("/static/file.txt"@.len() == 16);
}

} // verus!
