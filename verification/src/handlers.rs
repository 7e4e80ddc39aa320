use vstd::prelude::*;
use crate::json::{echo_body, echo_message, encode_echo, parse_message};
use crate::text::{bytes_of, text_bytes};
use crate::types::{
    ContentType, ResponseDescriptor, ResponseView, STATUS_NOT_FOUND, STATUS_OK,
};

verus! {

/// Text of the greeting reply: a JSON object with the one member `message`.
pub open spec fn greeting_text() -> Seq<char> {
    "{\"message\":\"Hello, welcome to our server!\"}"@
}

/// The reply of the greeting route.
pub open spec fn greeting_reply() -> ResponseView {
    ResponseView {
        status: STATUS_OK,
        body: text_bytes(greeting_text()),
        content_type: ContentType::Json,
    }
}

/// The reply of the echo route to a request body.
pub open spec fn echo_reply(body: Seq<u8>) -> ResponseView {
    ResponseView {
        status: STATUS_OK,
        body: echo_body(echo_message(body)),
        content_type: ContentType::Json,
    }
}

/// The reply of the static route, given what reading the file gave: its text,
/// or `None` for any failure.
pub open spec fn static_file_reply(file: Option<Seq<char>>) -> ResponseView {
    match file {
        Some(contents) => ResponseView {
            status: STATUS_OK,
            body: text_bytes(contents),
            content_type: ContentType::Unspecified,
        },
        None => ResponseView {
            status: STATUS_NOT_FOUND,
            body: text_bytes("File not found"@),
            content_type: ContentType::Unspecified,
        },
    }
}

/// The reply to a request that no route matches.
pub open spec fn not_found_reply() -> ResponseView {
    ResponseView {
        status: STATUS_NOT_FOUND,
        body: text_bytes("Route not found"@),
        content_type: ContentType::Unspecified,
    }
}

/// Model of an optional text.
pub open spec fn text_view(text: Option<String>) -> Option<Seq<char>> {
    match text {
        Some(t) => Some(t@),
        None => None,
    }
}

/// Greeting handler: a fixed JSON greeting, whatever the request holds.
pub fn greeting_response() -> (response: ResponseDescriptor)
    ensures
        response@ == greeting_reply(),
{
    ResponseDescriptor {
        status: STATUS_OK,
        body: bytes_of("{\"message\":\"Hello, welcome to our server!\"}"),
        content_type: ContentType::Json,
    }
}

/// Echo handler: repeats the `message` of the request body under the name
/// `echoedMessage`; a body without a usable message is answered with the
/// default text, never with an error status.
pub fn echo_response(body: &[u8]) -> (response: ResponseDescriptor)
    ensures
        response@ == echo_reply(body@),
{
    let message = parse_message(body);
    ResponseDescriptor {
        status: STATUS_OK,
        body: encode_echo(&message),
        content_type: ContentType::Json,
    }
}

/// Static file handler: the file's text as it is, or a 404 when the read
/// failed for any reason.
pub fn static_file_response(file: Option<String>) -> (response: ResponseDescriptor)
    ensures
        response@ == static_file_reply(text_view(file)),
{
    match file {
        Some(contents) => ResponseDescriptor {
            status: STATUS_OK,
            body: bytes_of(contents.as_str()),
            content_type: ContentType::Unspecified,
        },
        None => ResponseDescriptor {
            status: STATUS_NOT_FOUND,
            body: bytes_of("File not found"),
            content_type: ContentType::Unspecified,
        },
    }
}

/// Not-found handler: the reply for every unmatched method and path.
pub fn not_found_response() -> (response: ResponseDescriptor)
    ensures
        response@ == not_found_reply(),
{
    ResponseDescriptor {
        status: STATUS_NOT_FOUND,
        body: bytes_of("Route not found"),
        content_type: ContentType::Unspecified,
    }
}

} // verus!
