//! Single-instance arbitration and the activation sources.
//!
//! Exactly one live process handles scheme activations.  At startup a
//! process tries to claim primary status through an OS-level singleton
//! mechanism (an external collaborator); the claim's outcome drives the
//! state machine here.  A Primary then receives activations from three
//! sources — its own startup argument list, argument lists forwarded by
//! later Secondary launches, and OS deep-link events — and every source
//! funnels into the same `HandleUrl` action, so the pipeline sees them
//! identically.

use vstd::prelude::*;

use crate::parse::opt_str_view;
use crate::strutil::spec_starts_with;
use crate::strutil::str_starts_with;

verus! {

/// The views of a list of owned strings.
pub open spec fn strings_view(ss: Seq<String>) -> Seq<Seq<char>> {
    ss.map_values(|s: String| s@)
}

/// Where this process stands in the single-instance arbitration.
///
/// `Unclaimed -> Primary` is terminal for the process lifetime;
/// `Unclaimed -> Secondary -> Terminated` is the path of a redundant
/// launch that forwards its arguments and exits.
#[derive(Clone, Copy, Debug, PartialEq, Eq, Structural)]
pub enum InstanceState {
    /// Startup: primary status not yet claimed.
    Unclaimed,
    /// The one live instance; it owns the UI and handles activations.
    Primary,
    /// A redundant launch; it must forward its arguments and exit.
    Secondary,
    /// A Secondary that has forwarded its arguments and is done.
    Terminated,
}

/// What the surrounding program must do next.
#[derive(Debug)]
pub enum InstanceAction {
    /// Create the window, the tray, and the activation handlers.
    StartUi,
    /// Forward this process's argument list to the running Primary
    /// through the singleton mechanism's channel, then exit without
    /// creating any UI.
    ForwardAndExit,
    /// Run the activation pipeline on this raw URL.
    HandleUrl(String),
    /// Reveal the main window if it is hidden.
    ShowWindow,
    /// Nothing to do for this event.
    Ignore,
}

/// The activation URL carried by an argument list: argument index 1,
/// when present and `opener`-prefixed.
pub open spec fn spec_activation_url(args: Seq<Seq<char>>) -> Option<Seq<char>> {
    if args.len() >= 2 && spec_starts_with(args[1], "opener://"@) {
        Some(args[1])
    } else {
        None
    }
}

/// The activation URL carried by a deep-link event: the first delivered
/// URL, when `opener`-prefixed.
pub open spec fn spec_deep_link_url(urls: Seq<Seq<char>>) -> Option<Seq<char>> {
    if urls.len() >= 1 && spec_starts_with(urls[0], "opener://"@) {
        Some(urls[0])
    } else {
        None
    }
}

/// Extracts the activation URL of an argument list, if it carries one.
pub fn activation_from_args(args: &Vec<String>) -> (r: Option<String>)
    ensures
        opt_str_view(r) == spec_activation_url(strings_view(args@)),
{
    if args.len() >= 2 && str_starts_with(args[1].as_str(), "opener://") {
        Some(args[1].clone())
    } else {
        None
    }
}

/// Extracts the activation URL of a deep-link event, if it carries one.
pub fn activation_from_deep_link(urls: &Vec<String>) -> (r: Option<String>)
    ensures
        opt_str_view(r) == spec_deep_link_url(strings_view(urls@)),
{
    if urls.len() >= 1 && str_starts_with(urls[0].as_str(), "opener://") {
        Some(urls[0].clone())
    } else {
        None
    }
}

/// Settles the claim on primary status: the winner becomes the Primary
/// and starts its UI; a loser becomes a Secondary that must forward its
/// arguments and terminate.
pub fn claim(state: InstanceState, won: bool) -> (r: (InstanceState, InstanceAction))
    requires
        state is Unclaimed,
    ensures
        won ==> (r.0 is Primary && r.1 is StartUi),
        !won ==> (r.0 is Secondary && r.1 is ForwardAndExit),
{
    if won {
        (InstanceState::Primary, InstanceAction::StartUi)
    } else {
        (InstanceState::Secondary, InstanceAction::ForwardAndExit)
    }
}

/// A Secondary that has forwarded its arguments terminates.
pub fn forwarded(state: InstanceState) -> (r: InstanceState)
    requires
        state is Secondary,
    ensures
        r is Terminated,
{
    InstanceState::Terminated
}

/// The Primary's handler for an argument list forwarded by a Secondary
/// relaunch: an activation URL goes to the pipeline; a bare relaunch
/// (no second argument) asks for the window instead; anything else is
/// ignored.  The Primary stays Primary whatever arrives.
pub fn on_relaunch_args(state: InstanceState, args: &Vec<String>) -> (r: InstanceAction)
    requires
        state is Primary,
    ensures
        spec_activation_url(strings_view(args@)) matches Some(u) ==> (r matches
            InstanceAction::HandleUrl(s) && s@ == u),
        (spec_activation_url(strings_view(args@)) is None && args@.len() <= 1)
            ==> r is ShowWindow,
        (spec_activation_url(strings_view(args@)) is None && args@.len() >= 2) ==> r is Ignore,
{
    match activation_from_args(args) {
        Some(u) => InstanceAction::HandleUrl(u),
        None => if args.len() <= 1 {
            InstanceAction::ShowWindow
        } else {
            InstanceAction::Ignore
        },
    }
}

/// The Primary's handler for its own startup argument list: an
/// activation URL goes to the pipeline; anything else is ignored.
pub fn on_startup_args(state: InstanceState, args: &Vec<String>) -> (r: InstanceAction)
    requires
        state is Primary,
    ensures
        spec_activation_url(strings_view(args@)) matches Some(u) ==> (r matches
            InstanceAction::HandleUrl(s) && s@ == u),
        spec_activation_url(strings_view(args@)) is None ==> r is Ignore,
{
    match activation_from_args(args) {
        Some(u) => InstanceAction::HandleUrl(u),
        None => InstanceAction::Ignore,
    }
}

/// The Primary's handler for an OS deep-link event: the first delivered
/// URL goes to the pipeline when it is an opener URL; anything else is
/// ignored.
pub fn on_deep_link(state: InstanceState, urls: &Vec<String>) -> (r: InstanceAction)
    requires
        state is Primary,
    ensures
        spec_deep_link_url(strings_view(urls@)) matches Some(u) ==> (r matches
            InstanceAction::HandleUrl(s) && s@ == u),
        spec_deep_link_url(strings_view(urls@)) is None ==> r is Ignore,
{
    match activation_from_deep_link(urls) {
        Some(u) => InstanceAction::HandleUrl(u),
        None => InstanceAction::Ignore,
    }
}

} // verus!
