//! The activation pipeline: parse, resolve, open, notify.
//!
//! Parsing and resolution run here in full.  The open action and the
//! callback HTTP request are side effects the surrounding program
//! performs; this module decides exactly what it must do (which path to
//! open, whether a callback is owed and to which URL) and classifies
//! what came back.

use vstd::prelude::*;

use crate::error::OpenerError;
use crate::error::PathFault;
use crate::parse::ParsedOpenerUrl;
use crate::parse::opt_str_view;
use crate::parse::parse;
use crate::parse::spec_callback_of;
use crate::parse::spec_path_of;
use crate::parse::uri_parses;
use crate::parse::uri_scheme;
use crate::resolve::res_str_view;
use crate::resolve::resolve;
use crate::resolve::resolve_with;
use crate::resolve::spec_resolve;

verus! {

/// What the open action reported.
pub struct OpenResult {
    /// Whether the OS opened the path.
    pub succeeded: bool,
    /// The failure, when it did not.
    pub error: Option<OpenerError>,
}

impl OpenResult {
    /// A result carries an error exactly when it failed.
    pub open spec fn wf(self) -> bool {
        self.succeeded <==> self.error is None
    }
}

/// What one activation asks of the surrounding program.
pub enum ActivationPlan {
    /// The activation is dropped; the error is only logged.
    Reject(OpenerError),
    /// Open `path` with the OS default handler; after a successful open,
    /// send a GET to `callback` if one was given.
    Open { path: String, callback: Option<String> },
}

/// The mathematical content of a plan: the path and callback to act on,
/// or the error that stopped the pipeline.
pub open spec fn plan_view(plan: ActivationPlan) -> Result<
    (Seq<char>, Option<Seq<char>>),
    OpenerError,
> {
    match plan {
        ActivationPlan::Reject(e) => Err(e),
        ActivationPlan::Open { path, callback } => Ok((path@, opt_str_view(callback))),
    }
}

/// The plan for a raw activation string, the disk's answer for its path
/// value given.
pub open spec fn spec_plan(raw: Seq<char>, on_disk: bool) -> Result<
    (Seq<char>, Option<Seq<char>>),
    OpenerError,
> {
    if !uri_parses(raw) {
        Err(OpenerError::InvalidUrl)
    } else if uri_scheme(raw) != crate::opener_scheme() {
        Err(OpenerError::InvalidScheme)
    } else {
        match spec_resolve(spec_path_of(raw), on_disk) {
            Err(e) => Err(e),
            Ok(p) => Ok((p, spec_callback_of(raw))),
        }
    }
}

/// Plans one activation, the disk's answer given: parse the raw string,
/// then resolve its path.
pub fn plan_activation_with(raw: &str, on_disk: bool) -> (r: ActivationPlan)
    ensures
        plan_view(r) == spec_plan(raw@, on_disk),
{
    match parse(raw) {
        Err(e) => ActivationPlan::Reject(e),
        Ok(p) => match resolve_with(&p, on_disk) {
            Err(e) => ActivationPlan::Reject(e),
            Ok(path) => ActivationPlan::Open { path, callback: p.callback },
        },
    }
}

/// Plans one activation against the filesystem.  Everything but the
/// disk's answer is pinned down: which error stops the pipeline on which
/// inputs, and that an accepted activation opens exactly the path the
/// query string carried, with exactly the callback it carried.
pub fn plan_activation(raw: &str) -> (r: ActivationPlan)
    ensures
        exists|on_disk: bool| plan_view(r) == spec_plan(raw@, on_disk),
        (r matches ActivationPlan::Reject(e) && e is InvalidUrl) <==> !uri_parses(raw@),
        (r matches ActivationPlan::Reject(e) && e is InvalidScheme) <==> (uri_parses(raw@)
            && uri_scheme(raw@) != crate::opener_scheme()),
        (r matches ActivationPlan::Reject(e) && e == OpenerError::InvalidPath(PathFault::Missing))
            <==> (uri_parses(raw@) && uri_scheme(raw@) == crate::opener_scheme() && spec_path_of(
            raw@,
        ) is None),
        (r matches ActivationPlan::Reject(e) && e == OpenerError::InvalidPath(PathFault::Empty))
            <==> (uri_parses(raw@) && uri_scheme(raw@) == crate::opener_scheme() && (spec_path_of(
            raw@,
        ) matches Some(p) && p.len() == 0)),
        r matches ActivationPlan::Open { path, callback } ==> (Some(path@) == spec_path_of(raw@)
            && path@.len() > 0 && opt_str_view(callback) == spec_callback_of(raw@)),
{
    match parse(raw) {
        Err(e) => {
            let r = ActivationPlan::Reject(e);
            proof {
                assert(plan_view(r) == spec_plan(raw@, true));
            }
            r
        },
        Ok(p) => {
            match resolve(&p) {
                Err(e) => {
                    let r = ActivationPlan::Reject(e);
                    proof {
                        let b = choose|b: bool|
                            res_str_view(Err::<String, OpenerError>(e)) == spec_resolve(
                                opt_str_view(p.path),
                                b,
                            );
                        assert(plan_view(r) == spec_plan(raw@, b));
                    }
                    r
                },
                Ok(path) => {
                    let r = ActivationPlan::Open { path, callback: p.callback };
                    proof {
                        let b = choose|b: bool|
                            res_str_view(Ok::<String, OpenerError>(path)) == spec_resolve(
                                opt_str_view(p.path),
                                b,
                            );
                        assert(plan_view(r) == spec_plan(raw@, b));
                    }
                    r
                },
            }
        },
    }
}

/// Classifies what the OS open capability reported: a failed open is a
/// normal outcome, reported and never fatal.
pub fn open_outcome(open_error: Option<String>) -> (r: OpenResult)
    ensures
        r.wf(),
        r.succeeded <==> open_error is None,
        open_error matches Some(m) ==> (r.error matches Some(e) && e matches
            OpenerError::OpenFailed(msg) && msg@ == m@),
{
    match open_error {
        None => OpenResult { succeeded: true, error: None },
        Some(m) => OpenResult { succeeded: false, error: Some(OpenerError::OpenFailed(m)) },
    }
}

/// Decides whether a completion callback must be sent: exactly when the
/// open succeeded and the activation carried a callback URL, and then to
/// that URL unchanged.  Absence of a callback is a no-op, not an error.
pub fn callback_request(result: &OpenResult, callback: &Option<String>) -> (r: Option<String>)
    ensures
        r is Some <==> (result.succeeded && callback is Some),
        r matches Some(u) ==> (callback matches Some(c) && u@ == c@),
{
    if result.succeeded {
        match callback {
            Some(c) => Some(c.clone()),
            None => None,
        }
    } else {
        None
    }
}

/// Classifies what callback delivery reported: a delivery failure is
/// logged as `CallbackFailed`, never retried and never surfaced.
pub fn callback_outcome(delivery_error: Option<String>) -> (r: Option<OpenerError>)
    ensures
        r is Some <==> delivery_error is Some,
        delivery_error matches Some(m) ==> (r matches Some(e) && e matches
            OpenerError::CallbackFailed(msg) && msg@ == m@),
{
    match delivery_error {
        None => None,
        Some(m) => Some(OpenerError::CallbackFailed(m)),
    }
}

/// An accepted activation opens exactly the path its query string
/// carried: for a parseable `opener` URL whose `path` parameter is
/// nonempty and whose path is on disk, the plan is to open that path
/// unchanged, with exactly the callback the query string carried.
pub proof fn lemma_existing_path_is_opened(raw: Seq<char>)
    requires
        uri_parses(raw),
        uri_scheme(raw) == crate::opener_scheme(),
        spec_path_of(raw) matches Some(p) && p.len() > 0,
    ensures
        (spec_plan(raw, true) matches Ok(open) && Some(open.0) == spec_path_of(raw) && open.1
            == spec_callback_of(raw)),
{
}

/// A parseable `opener` URL without a `path` parameter is rejected by
/// the resolver, whatever the disk holds.
pub proof fn lemma_missing_path_is_rejected(raw: Seq<char>, on_disk: bool)
    requires
        uri_parses(raw),
        uri_scheme(raw) == crate::opener_scheme(),
        spec_path_of(raw) is None,
    ensures
        spec_plan(raw, on_disk) == Err::<(Seq<char>, Option<Seq<char>>), OpenerError>(
            OpenerError::InvalidPath(PathFault::Missing),
        ),
{
}

/// The pipeline keeps no state between activations: two activations that
/// carry the same URL and are judged against the same disk answer are
/// planned identically, so a repeated valid activation with an existing
/// path leads to a second, independent open of the same path — nothing
/// deduplicates repeated activations.
pub proof fn lemma_activation_idempotent(
    raw: Seq<char>,
    on_disk: bool,
    first: Result<(Seq<char>, Option<Seq<char>>), OpenerError>,
    second: Result<(Seq<char>, Option<Seq<char>>), OpenerError>,
)
    requires
        first == spec_plan(raw, on_disk),
        second == spec_plan(raw, on_disk),
    ensures
        first == second,
        first matches Ok(open) ==> second == Ok::<(Seq<char>, Option<Seq<char>>), OpenerError>(
            open,
        ),
{
}

} // verus!
