//! The closed taxonomy of failures this library can surface.

use vstd::prelude::*;

verus! {

/// Every failure a client call can produce.
///
/// - `Transport`: the underlying network or connection layer failed; the
///   detail string is propagated verbatim and nothing is retried here.
/// - `UrlConstruction`: the base address and a path could not be composed
///   into a valid request target; always a configuration bug.
/// - `Api`: the server answered with a non-success HTTP status; `message`
///   is taken from the server's structured error body when that body
///   parses, and synthesized from the status code alone otherwise.
/// - `Decode`: a success response body did not have the expected shape.
#[derive(Debug, Clone)]
pub enum KhromaError {
    Transport(String),
    UrlConstruction(String),
    Api { status: u16, message: String },
    Decode(String),
}

} // verus!
