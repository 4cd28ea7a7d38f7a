//! Request construction and reply handling for a beacon node's light-client
//! REST interface.
//!
//! The library is free of I/O. It renders the URL of each operation from
//! the endpoint it was built with, and it turns the decoded reply of a
//! request into the payload the operation promises, or into an error
//! tagged with the operation's name. Sending the request, retrying it and
//! decoding JSON text are left to the caller.

pub mod constants;
pub mod text;
pub mod json;
pub mod error;
pub mod request;
pub mod reply;
pub mod retry;
pub mod nimbus;
