//! The failure taxonomy of the activation pipeline.

use vstd::prelude::*;

verus! {

/// Why a `path` query value was rejected.
#[derive(Clone, Copy, Debug, PartialEq, Eq, Structural)]
pub enum PathFault {
    /// No `path` parameter was present in the query string.
    Missing,
    /// The `path` parameter was present but its value was empty.
    Empty,
    /// The path named by the parameter did not exist on disk when checked.
    NotFound,
}

/// Everything that can go wrong while handling one activation.
///
/// No variant is fatal to the process: the top-level handler logs the
/// failure and takes no further action.
#[derive(Clone, Debug)]
pub enum OpenerError {
    /// The raw string is not a syntactically valid URI.
    InvalidUrl,
    /// The URI is valid but its scheme is not `opener`.
    InvalidScheme,
    /// The `path` parameter is missing, empty, or names nothing on disk.
    InvalidPath(PathFault),
    /// The OS refused to open the path with its default handler.
    OpenFailed(String),
    /// The completion callback could not be delivered.
    CallbackFailed(String),
}

} // verus!
