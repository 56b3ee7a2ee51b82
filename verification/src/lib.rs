//! Handler core for the `opener://` URL scheme.
//!
//! An activation (a process launch, a relaunch forwarded by the
//! single-instance mechanism, or a deep-link event) carries a raw URL.
//! The library validates the URL, extracts the target filesystem path and
//! an optional callback URL, decides whether the path may be opened, and
//! decides whether a completion callback must be sent afterwards.  The
//! surrounding program performs the actual open and the HTTP request.

pub mod error;
pub mod instance;
pub mod parse;
pub mod pipeline;
pub mod resolve;
pub mod strutil;

use vstd::prelude::*;

verus! {

/// The one URL scheme this library accepts.
pub open spec fn opener_scheme() -> Seq<char> {
    "opener"@
}

} // verus!
