//! Extraction and validation of the target path of an activation.
//!
//! Whether a path exists is a property of the filesystem at the moment it
//! is asked, so the disk answer enters the verified logic as an explicit
//! argument: `validate_path_with` and `resolve_with` are exact functions
//! of their inputs, and `validate_path` and `resolve` merely feed them
//! the answer the filesystem gave.  The check is time-of-check only: the
//! open action must still cope with the path disappearing afterwards.

use vstd::prelude::*;

use crate::error::OpenerError;
use crate::error::PathFault;
use crate::parse::ParsedOpenerUrl;
use crate::parse::opt_str_view;

verus! {

/// Relies on `std::path::Path::exists`: whether the path exists on the
/// local filesystem right now.  The answer reflects the disk at call
/// time and nothing can be promised of it.
#[verifier::external_body]
fn path_exists_now(path: &str) -> bool {
    std::path::Path::new(path).exists()
}

/// The verdict on a candidate path, given the disk's answer `on_disk`.
pub open spec fn spec_validate(path: Seq<char>, on_disk: bool) -> Result<(), OpenerError> {
    if path.len() == 0 {
        Err(OpenerError::InvalidPath(PathFault::Empty))
    } else if !on_disk {
        Err(OpenerError::InvalidPath(PathFault::NotFound))
    } else {
        Ok(())
    }
}

/// Decides whether a path value may be opened, the disk's answer given.
pub fn validate_path_with(path: &str, on_disk: bool) -> (r: Result<(), OpenerError>)
    ensures
        r == spec_validate(path@, on_disk),
{
    if path.is_empty() {
        Err(OpenerError::InvalidPath(PathFault::Empty))
    } else if !on_disk {
        Err(OpenerError::InvalidPath(PathFault::NotFound))
    } else {
        Ok(())
    }
}

/// Decides whether a path value may be opened: empty values are
/// rejected, and so are paths that do not exist on disk at call time.
pub fn validate_path(path: &str) -> (r: Result<(), OpenerError>)
    ensures
        exists|on_disk: bool| r == spec_validate(path@, on_disk),
        path@.len() == 0 ==> r == Err::<(), OpenerError>(OpenerError::InvalidPath(
            PathFault::Empty,
        )),
        r is Ok ==> path@.len() > 0,
{
    let on_disk = if path.is_empty() {
        false
    } else {
        path_exists_now(path)
    };
    let r = validate_path_with(path, on_disk);
    assert(r == spec_validate(path@, on_disk));
    r
}

/// The resolved path of a parsed URL, given the disk's answer `on_disk`
/// for the path value it carries (ignored when no nonempty value is
/// present).
pub open spec fn spec_resolve(path: Option<Seq<char>>, on_disk: bool) -> Result<
    Seq<char>,
    OpenerError,
> {
    match path {
        None => Err(OpenerError::InvalidPath(PathFault::Missing)),
        Some(p) => {
            if p.len() == 0 {
                Err(OpenerError::InvalidPath(PathFault::Empty))
            } else if !on_disk {
                Err(OpenerError::InvalidPath(PathFault::NotFound))
            } else {
                Ok(p)
            }
        },
    }
}

/// The view of a resolution result.
pub open spec fn res_str_view(r: Result<String, OpenerError>) -> Result<Seq<char>, OpenerError> {
    match r {
        Ok(s) => Ok(s@),
        Err(e) => Err(e),
    }
}

/// Resolves the target path of a parsed URL, the disk's answer given:
/// the `path` parameter must be present, nonempty, and on disk, and is
/// then returned unchanged.
pub fn resolve_with(parsed: &ParsedOpenerUrl, on_disk: bool) -> (r: Result<String, OpenerError>)
    ensures
        res_str_view(r) == spec_resolve(opt_str_view(parsed.path), on_disk),
{
    match &parsed.path {
        None => Err(OpenerError::InvalidPath(PathFault::Missing)),
        Some(p) => {
            match validate_path_with(p.as_str(), on_disk) {
                Err(e) => Err(e),
                Ok(()) => Ok(p.clone()),
            }
        },
    }
}

/// Resolves the target path of a parsed URL against the filesystem.
pub fn resolve(parsed: &ParsedOpenerUrl) -> (r: Result<String, OpenerError>)
    ensures
        exists|on_disk: bool| res_str_view(r) == spec_resolve(opt_str_view(parsed.path), on_disk),
        parsed.path is None <==> r == Err::<String, OpenerError>(OpenerError::InvalidPath(
            PathFault::Missing,
        )),
        (parsed.path matches Some(p) && p@.len() == 0) <==> r == Err::<String, OpenerError>(
            OpenerError::InvalidPath(PathFault::Empty),
        ),
        r == Err::<String, OpenerError>(OpenerError::InvalidPath(PathFault::NotFound)) ==> (
        parsed.path matches Some(p) && p@.len() > 0),
        r matches Ok(s) ==> (parsed.path matches Some(p) && s@ == p@ && p@.len() > 0),
{
    let on_disk = match &parsed.path {
        None => false,
        Some(p) => if p.as_str().is_empty() {
            false
        } else {
            path_exists_now(p.as_str())
        },
    };
    let r = resolve_with(parsed, on_disk);
    assert(res_str_view(r) == spec_resolve(opt_str_view(parsed.path), on_disk));
    r
}

} // verus!
