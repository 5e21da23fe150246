//! Endpoint resolution, profile planning and the close-retry loop.

use debugchrome::commands::{CloseOutcome, CloseRetry, CloseStatus, CLOSE_MAX_ATTEMPTS};
use debugchrome::endpoint::{
    chrome_launch_args, endpoint_reachable, profile_plan, Endpoint, Resolver, ResolveStep,
};

#[test]
fn http_success_statuses() {
    assert!(endpoint_reachable(200));
    assert!(endpoint_reachable(204));
    assert!(endpoint_reachable(299));
    assert!(!endpoint_reachable(199));
    assert!(!endpoint_reachable(300));
    assert!(!endpoint_reachable(404));
    assert!(!endpoint_reachable(500));
}

#[test]
fn unreachable_endpoint_launches_once_then_succeeds() {
    // The control plane answers only from the fourth poll on; the resolver
    // must launch exactly one browser with a fresh profile, back off while
    // polling, and succeed within the budget.
    let mut r = Resolver::new(10);
    let mut launches: u32 = 0;
    let mut step = r.on_poll(false);
    assert_eq!(step, ResolveStep::LaunchBrowser);
    launches += 1;

    // The launch prepares a dedicated copied profile, never the live one.
    let plan = profile_plan(true, "20250101120000123");
    assert_eq!(plan.dir_name.as_str(), "debugchrome-20250101120000123");
    assert_ne!(plan.dir_name.as_str(), "User Data");
    assert!(plan.copy_local_state);
    assert!(!plan.copy_default);

    // Two more failed polls, then the server answers.
    step = r.on_poll(false);
    assert_eq!(step, ResolveStep::Backoff);
    step = r.on_poll(false);
    assert_eq!(step, ResolveStep::Backoff);
    step = r.on_poll(true);
    assert_eq!(step, ResolveStep::FetchVersion);
    assert_eq!(launches, 1);
}

#[test]
fn exhausting_the_poll_budget_fails_distinctly() {
    let mut r = Resolver::new(3);
    assert_eq!(r.on_poll(false), ResolveStep::LaunchBrowser);
    assert_eq!(r.on_poll(false), ResolveStep::Backoff);
    assert_eq!(r.on_poll(false), ResolveStep::Backoff);
    assert_eq!(r.on_poll(false), ResolveStep::Fail);
}

#[test]
fn reachable_endpoint_never_launches() {
    let mut r = Resolver::new(5);
    assert_eq!(r.on_poll(true), ResolveStep::FetchVersion);
}

#[test]
fn rebuild_profile_copies_everything() {
    let plan = profile_plan(false, "unused");
    assert_eq!(plan.dir_name.as_str(), "debugchrome");
    assert!(plan.copy_local_state && plan.copy_default && plan.copy_sessions);
}

#[test]
fn launch_flags_are_the_documented_four() {
    let args = chrome_launch_args(9222, "/tmp/debugchrome-x");
    assert_eq!(args.len(), 4);
    assert_eq!(args[0].as_str(), "--remote-debugging-port=9222");
    assert_eq!(args[1].as_str(), "--enable-automation");
    assert_eq!(args[2].as_str(), "--no-first-run");
    assert_eq!(args[3].as_str(), "--user-data-dir=/tmp/debugchrome-x");
}

#[test]
fn stale_ws_url_is_discarded() {
    let mut e = Endpoint::new("http://localhost:9222".to_string());
    assert!(e.browser_ws_url.is_none());
    e.cache_ws_url("ws://localhost:9222/devtools/browser/1".to_string());
    assert!(e.browser_ws_url.is_some());
    e.invalidate_ws_url();
    assert!(e.browser_ws_url.is_none());
    assert_eq!(e.http_base.as_str(), "http://localhost:9222");
}

#[test]
fn closing_a_destroyed_target_never_hangs() {
    // The browser never acknowledges (the target is already gone): the
    // loop must give up after exactly the attempt budget.
    let mut retry = CloseRetry::new();
    let mut rounds: u32 = 0;
    loop {
        let status = retry.record(CloseOutcome::NoConfirmation);
        rounds += 1;
        match status {
            CloseStatus::Retry => {
                assert!(rounds < CLOSE_MAX_ATTEMPTS);
            }
            CloseStatus::GaveUp => break,
            CloseStatus::Closed => panic!("nothing ever confirmed"),
        }
    }
    assert_eq!(rounds, CLOSE_MAX_ATTEMPTS);
}

#[test]
fn a_confirming_response_ends_the_close_loop() {
    let mut retry = CloseRetry::new();
    assert_eq!(retry.record(CloseOutcome::NoConfirmation), CloseStatus::Retry);
    assert_eq!(retry.record(CloseOutcome::Confirmed), CloseStatus::Closed);
}
