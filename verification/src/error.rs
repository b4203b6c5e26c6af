//! Errors of connection establishment.
//!
//! The driver reports an I/O failure as a plain code (as the OS hands
//! it out); the library never looks inside one, it only records and
//! surfaces them per the rules below.

use vstd::prelude::*;

verus! {

/// A transport-level failure reported by the driver, held as the
/// plain OS error code.
#[derive(Clone, Copy, PartialEq, Eq, Structural, Debug)]
pub struct IoError {
    pub code: i32,
}

/// A malformed destination, rejected before any I/O.
#[derive(Clone, Copy, PartialEq, Eq, Structural, Debug)]
pub enum InvalidUrl {
    /// The destination has no scheme at all.
    MissingScheme,
    /// Scheme enforcement is on and the scheme is not `http`.
    NotHttp,
    /// The destination has no host.
    MissingAuthority,
}

impl InvalidUrl {
    /// A human-readable description of the rejection.
    pub fn description(&self) -> (r: String)
        ensures
            *self is MissingScheme ==> r@ == "invalid URL, missing scheme"@,
            *self is NotHttp ==> r@ == "invalid URL, scheme must be http"@,
            *self is MissingAuthority ==> r@ == "invalid URL, missing domain"@,
    {
        match *self {
            InvalidUrl::MissingScheme => "invalid URL, missing scheme".to_owned(),
            InvalidUrl::NotHttp => "invalid URL, scheme must be http".to_owned(),
            InvalidUrl::MissingAuthority => "invalid URL, missing domain".to_owned(),
        }
    }
}

/// The single terminal error of one establishment attempt.
#[derive(Clone, Copy, PartialEq, Eq, Structural, Debug)]
pub enum ConnectError {
    /// The destination was rejected before any I/O.
    Invalid(InvalidUrl),
    /// The resolver failed; surfaced as reported.
    Resolve(IoError),
    /// Every address was dialed and failed; this is the error of the
    /// last attempt.
    Dial(IoError),
    /// There was no address to dial at all.
    NoAddresses,
    /// The socket connected but applying a post-connect option failed.
    SocketOption(IoError),
}

} // verus!
