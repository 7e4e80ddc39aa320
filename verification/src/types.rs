use vstd::prelude::*;
use crate::text::same_text;

verus! {

/// Status of a successful reply.
pub const STATUS_OK: u16 = 200;

/// Status of a reply for a missing route or an unreadable file.
pub const STATUS_NOT_FOUND: u16 = 404;

/// Relative path of the one file that the static route serves.
pub const STATIC_FILE_PATH: &'static str = "static/file.txt";

/// Request method. Methods outside the standard set are all `Extension`.
#[derive(Clone, Copy, Debug, PartialEq, Eq, Structural)]
pub enum Method {
    Get,
    Post,
    Put,
    Delete,
    Head,
    Options,
    Patch,
    Connect,
    Trace,
    Extension,
}

/// The method that a token names. Tokens are compared as they stand: only
/// the upper-case names of the standard methods are recognised.
pub open spec fn method_named(name: Seq<char>) -> Method {
    if name == "GET"@ {
        Method::Get
    } else if name == "POST"@ {
        Method::Post
    } else if name == "PUT"@ {
        Method::Put
    } else if name == "DELETE"@ {
        Method::Delete
    } else if name == "HEAD"@ {
        Method::Head
    } else if name == "OPTIONS"@ {
        Method::Options
    } else if name == "PATCH"@ {
        Method::Patch
    } else if name == "CONNECT"@ {
        Method::Connect
    } else if name == "TRACE"@ {
        Method::Trace
    } else {
        Method::Extension
    }
}

impl Method {
    /// Reads a method from its token on the request line.
    pub fn from_name(name: &str) -> (method: Method)
        ensures
            method == method_named(name@),
    {
        if same_text(name, "GET") {
            Method::Get
        } else if same_text(name, "POST") {
            Method::Post
        } else if same_text(name, "PUT") {
            Method::Put
        } else if same_text(name, "DELETE") {
            Method::Delete
        } else if same_text(name, "HEAD") {
            Method::Head
        } else if same_text(name, "OPTIONS") {
            Method::Options
        } else if same_text(name, "PATCH") {
            Method::Patch
        } else if same_text(name, "CONNECT") {
            Method::Connect
        } else if same_text(name, "TRACE") {
            Method::Trace
        } else {
            Method::Extension
        }
    }
}

/// The handler that a request is routed to.
#[derive(Clone, Copy, Debug, PartialEq, Eq, Structural)]
pub enum Route {
    Greeting,
    Echo,
    StaticFile,
    NotFound,
}

/// Content type of a reply, where the handler sets one.
#[derive(Clone, Copy, Debug, PartialEq, Eq, Structural)]
pub enum ContentType {
    Json,
    Unspecified,
}

impl ContentType {
    /// The media type to announce, where there is one.
    pub open spec fn media_type_text(self) -> Option<Seq<char>> {
        match self {
            ContentType::Json => Some("application/json"@),
            ContentType::Unspecified => None,
        }
    }

    /// The media type to announce in a header; `None` leaves the header out.
    pub fn media_type(self) -> (name: Option<&'static str>)
        ensures
            match name {
                Some(text) => self.media_type_text() == Some(text@),
                None => self.media_type_text() is None,
            },
    {
        match self {
            ContentType::Json => Some("application/json"),
            ContentType::Unspecified => None,
        }
    }
}

/// An inbound request as the transport delivers it.
#[derive(Clone, Debug, PartialEq, Eq)]
pub struct RequestDescriptor {
    pub method: Method,
    pub path: String,
    pub body: Vec<u8>,
}

/// Mathematical model of a [`RequestDescriptor`].
pub ghost struct RequestView {
    pub method: Method,
    pub path: Seq<char>,
    pub body: Seq<u8>,
}

impl View for RequestDescriptor {
    type V = RequestView;

    open spec fn view(&self) -> RequestView {
        RequestView { method: self.method, path: self.path@, body: self.body@ }
    }
}

/// The single reply to a request.
#[derive(Clone, Debug, PartialEq, Eq)]
pub struct ResponseDescriptor {
    pub status: u16,
    pub body: Vec<u8>,
    pub content_type: ContentType,
}

/// Mathematical model of a [`ResponseDescriptor`].
pub ghost struct ResponseView {
    pub status: u16,
    pub body: Seq<u8>,
    pub content_type: ContentType,
}

impl View for ResponseDescriptor {
    type V = ResponseView;

    open spec fn view(&self) -> ResponseView {
        ResponseView { status: self.status, body: self.body@, content_type: self.content_type }
    }
}

/// A status code is valid when it lies in the range that HTTP assigns.
pub open spec fn valid_status(status: u16) -> bool {
    100 <= status <= 599
}

} // verus!
