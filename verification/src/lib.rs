//! Exact-match request dispatch for a small HTTP endpoint.
//!
//! A request is classified by its method and path, handed to one of four
//! handlers, and answered with exactly one response descriptor. Reading the
//! static file is left to the caller, who passes in what the read gave.

pub mod dispatch;
pub mod handlers;
pub mod json;
pub mod text;
pub mod types;

pub use dispatch::{dispatch, needs_file, respond, route};
pub use handlers::{
    echo_response, greeting_response, not_found_response, static_file_response,
};
pub use types::{
    ContentType, Method, RequestDescriptor, ResponseDescriptor, Route, STATIC_FILE_PATH,
    STATUS_NOT_FOUND, STATUS_OK,
};
