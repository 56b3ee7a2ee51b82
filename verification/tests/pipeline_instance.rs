//! Tests of the activation pipeline and the single-instance arbiter.

use opener_lib::error::{OpenerError, PathFault};
use opener_lib::instance::{
    activation_from_args, activation_from_deep_link, claim, forwarded, on_deep_link,
    on_relaunch_args, on_startup_args, InstanceAction, InstanceState,
};
use opener_lib::pipeline::{
    callback_outcome, callback_request, open_outcome, plan_activation, plan_activation_with,
    ActivationPlan,
};

fn args(list: &[&str]) -> Vec<String> {
    list.iter().map(|s| s.to_string()).collect()
}

#[test]
fn scenario_open_existing_path_without_callback() {
    // `opener://x?path=/tmp/report.pdf` with the path on disk: the open
    // action gets `/tmp/report.pdf` and no callback is owed.
    let plan = plan_activation_with("opener://x?path=/tmp/report.pdf", true);
    match plan {
        ActivationPlan::Open { path, callback } => {
            assert_eq!(path, "/tmp/report.pdf");
            assert_eq!(callback, None);
            let result = open_outcome(None);
            assert!(result.succeeded);
            assert_eq!(callback_request(&result, &callback), None);
        }
        ActivationPlan::Reject(e) => panic!("unexpected rejection: {:?}", e),
    }
}

#[test]
fn scenario_missing_file_stops_before_open() {
    // The file does not exist: the pipeline stops at the path resolver
    // and the open action is never reached.
    let plan = plan_activation("opener://x?path=/tmp/opener-test-surely-missing-8c1f2/y.pdf");
    assert!(matches!(
        plan,
        ActivationPlan::Reject(OpenerError::InvalidPath(PathFault::NotFound))
    ));

    let plan = plan_activation_with("opener://x?path=/tmp/missing.pdf", false);
    assert!(matches!(
        plan,
        ActivationPlan::Reject(OpenerError::InvalidPath(PathFault::NotFound))
    ));
}

#[test]
fn scenario_successful_open_owes_one_callback() {
    // `opener://x?path=/tmp/a.txt&callback=http://localhost:9000/done`
    // with the path on disk and the open succeeding: exactly one GET is
    // owed, to the callback URL unchanged.
    let plan = plan_activation_with("opener://x?path=/tmp/a.txt&callback=http://localhost:9000/done", true);
    match plan {
        ActivationPlan::Open { path, callback } => {
            assert_eq!(path, "/tmp/a.txt");
            assert_eq!(callback.as_deref(), Some("http://localhost:9000/done"));
            let result = open_outcome(None);
            assert_eq!(
                callback_request(&result, &callback).as_deref(),
                Some("http://localhost:9000/done")
            );
        }
        ActivationPlan::Reject(e) => panic!("unexpected rejection: {:?}", e),
    }
}

#[test]
fn scenario_second_process_forwards_and_terminates() {
    // A second launch while a Primary runs: the Secondary forwards its
    // argument list and terminates without UI; the Primary routes the
    // forwarded list into the pipeline.
    let (state, action) = claim(InstanceState::Unclaimed, false);
    assert_eq!(state, InstanceState::Secondary);
    assert!(matches!(action, InstanceAction::ForwardAndExit));
    assert_eq!(forwarded(state), InstanceState::Terminated);

    let forwarded_args = args(&["app", "opener://x?path=/tmp/a.txt"]);
    match on_relaunch_args(InstanceState::Primary, &forwarded_args) {
        InstanceAction::HandleUrl(u) => assert_eq!(u, "opener://x?path=/tmp/a.txt"),
        other => panic!("unexpected action: {:?}", other),
    }
}

#[test]
fn scenario_wrong_scheme_is_rejected_without_open() {
    let plan = plan_activation("http://example.com");
    assert!(matches!(plan, ActivationPlan::Reject(OpenerError::InvalidScheme)));
}

#[test]
fn pipeline_is_not_deduplicating() {
    // The same valid activation handled twice yields two identical,
    // independent open plans.
    let raw = "opener://x?path=/tmp&callback=http://localhost:9000/done";
    for _ in 0..2 {
        match plan_activation(raw) {
            ActivationPlan::Open { path, callback } => {
                assert_eq!(path, "/tmp");
                assert_eq!(callback.as_deref(), Some("http://localhost:9000/done"));
            }
            ActivationPlan::Reject(e) => panic!("unexpected rejection: {:?}", e),
        }
    }
}

#[test]
fn rejections_name_the_stage() {
    assert!(matches!(
        plan_activation("not a url"),
        ActivationPlan::Reject(OpenerError::InvalidUrl)
    ));
    assert!(matches!(
        plan_activation("opener://x"),
        ActivationPlan::Reject(OpenerError::InvalidPath(PathFault::Missing))
    ));
    assert!(matches!(
        plan_activation("opener://x?path="),
        ActivationPlan::Reject(OpenerError::InvalidPath(PathFault::Empty))
    ));
}

#[test]
fn open_failure_is_reported_not_fatal() {
    let result = open_outcome(Some("no application is registered".to_string()));
    assert!(!result.succeeded);
    match &result.error {
        Some(OpenerError::OpenFailed(msg)) => assert_eq!(msg, "no application is registered"),
        other => panic!("unexpected error: {:?}", other),
    }
    // A failed open owes no callback even when one was requested.
    assert_eq!(
        callback_request(&result, &Some("http://localhost:9000/done".to_string())),
        None
    );
}

#[test]
fn callback_failure_is_classified() {
    assert!(callback_outcome(None).is_none());
    match callback_outcome(Some("connection refused".to_string())) {
        Some(OpenerError::CallbackFailed(msg)) => assert_eq!(msg, "connection refused"),
        other => panic!("unexpected outcome: {:?}", other),
    }
}

#[test]
fn claim_winner_becomes_primary() {
    let (state, action) = claim(InstanceState::Unclaimed, true);
    assert_eq!(state, InstanceState::Primary);
    assert!(matches!(action, InstanceAction::StartUi));
}

#[test]
fn activation_sources_extract_the_same_url() {
    let url = "opener://x?path=/tmp/a.txt";
    let argv = args(&["app", url]);
    assert_eq!(activation_from_args(&argv).as_deref(), Some(url));
    let urls = args(&[url, "http://other.example"]);
    assert_eq!(activation_from_deep_link(&urls).as_deref(), Some(url));
}

#[test]
fn non_opener_arguments_are_ignored() {
    assert_eq!(activation_from_args(&args(&["app"])), None);
    assert_eq!(activation_from_args(&args(&["app", "http://example.com"])), None);
    assert_eq!(activation_from_deep_link(&args(&[])), None);
    assert_eq!(
        activation_from_deep_link(&args(&["http://example.com", "opener://x?path=/tmp"])),
        None
    );
}

#[test]
fn relaunch_without_arguments_shows_window() {
    assert!(matches!(
        on_relaunch_args(InstanceState::Primary, &args(&["app"])),
        InstanceAction::ShowWindow
    ));
    assert!(matches!(
        on_relaunch_args(InstanceState::Primary, &args(&["app", "http://example.com"])),
        InstanceAction::Ignore
    ));
}

#[test]
fn startup_and_deep_link_route_into_the_pipeline() {
    match on_startup_args(InstanceState::Primary, &args(&["app", "opener://x?path=/tmp"])) {
        InstanceAction::HandleUrl(u) => assert_eq!(u, "opener://x?path=/tmp"),
        other => panic!("unexpected action: {:?}", other),
    }
    assert!(matches!(
        on_startup_args(InstanceState::Primary, &args(&["app"])),
        InstanceAction::Ignore
    ));
    match on_deep_link(InstanceState::Primary, &args(&["opener://x?path=/tmp"])) {
        InstanceAction::HandleUrl(u) => assert_eq!(u, "opener://x?path=/tmp"),
        other => panic!("unexpected action: {:?}", other),
    }
    assert!(matches!(
        on_deep_link(InstanceState::Primary, &args(&["https://example.com"])),
        InstanceAction::Ignore
    ));
}
