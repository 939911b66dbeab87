use vstd::prelude::*;

verus! {

/// The shape a response value was expected to have.
#[derive(Clone, Copy, Debug, PartialEq, Eq, Structural)]
pub enum Expected {
    Text,
    Array,
    Element,
    Rect,
    Cookie,
    Base64,
}

/// Why an operation failed.
#[derive(Debug, PartialEq, Eq)]
pub enum WebDriverError {
    /// The request could not be carried out, or the response envelope is malformed.
    Transport(String),
    /// The server reported an error (its error code).
    Protocol(String),
    /// The response value does not have the shape the command returns.
    Decode(Expected),
    /// The new-session response named no session.
    Initialization,
}

} // verus!
