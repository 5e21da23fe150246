//! Finding a tab by correlation id: fast path, probing, stamping.

use debugchrome::correlate::{
    apply_stamp, check_stamp, correlate_outcome, first_match, is_invalid_url, is_probeable,
    plan_probes, probe_on_value, probe_start, read_global, read_global_expression,
    session_probe_expression, set_global_script, set_hash_script, url_has_fragment, PageStore,
    ProbeResult, TabProbe, window_probe_expression,
};
use debugchrome::errors::CdpError;
use debugchrome::frame::TargetEntry;

fn tab(id: &str, url: &str, ws: Option<&str>) -> TargetEntry {
    TargetEntry {
        target_id: id.to_string(),
        url: url.to_string(),
        title: String::new(),
        kind: "page".to_string(),
        attached: None,
        browser_context_id: None,
        ws_url: ws.map(|w| w.to_string()),
    }
}

#[test]
fn invalid_url_prefixes_are_excluded() {
    assert!(is_invalid_url("ws://localhost:9222/devtools/page/A"));
    assert!(is_invalid_url("chrome-extension://abcdef/popup.html"));
    assert!(is_invalid_url("chrome://settings/"));
    assert!(is_invalid_url("chrome-untrusted://new-tab-page/"));
    assert!(is_invalid_url("about:blank"));
    assert!(is_invalid_url("file:///tmp/x.html"));
    assert!(is_invalid_url("data:text/html;base64,AA=="));
    assert!(is_invalid_url("javascript:void(0)"));
    assert!(!is_invalid_url("https://example.com/"));
    assert!(is_probeable("http://example.com/"));
}

#[test]
fn fragment_detection() {
    assert!(url_has_fragment("https://example.com/page#123", "123"));
    assert!(url_has_fragment("https://example.com/#123&more", "123"));
    assert!(!url_has_fragment("https://example.com/page?x=123", "123"));
    assert!(!url_has_fragment("https://example.com/page#12", "123"));
}

#[test]
fn fast_path_answers_without_any_probe() {
    // A tab already carries #id in its URL: the plan names it and opens
    // no probing socket at all.
    let tabs = vec![
        tab("A", "https://a.example/", Some("ws://x/a")),
        tab("B", "https://b.example/page#123", Some("ws://x/b")),
        tab("C", "https://c.example/", Some("ws://x/c")),
    ];
    let plan = plan_probes(&tabs, "123");
    assert_eq!(plan.fast, Some(1));
    assert_eq!(plan.probes.len(), 0);
}

#[test]
fn probe_plan_covers_exactly_the_candidates() {
    let tabs = vec![
        tab("A", "https://a.example/", Some("ws://x/a")),
        tab("B", "chrome://settings/", Some("ws://x/b")),
        tab("C", "https://c.example/", None),
        tab("D", "https://d.example/", Some("ws://x/d")),
    ];
    let plan = plan_probes(&tabs, "123");
    assert_eq!(plan.fast, None);
    assert_eq!(plan.probes, vec![0, 3]);
}

#[test]
fn probe_expressions_are_the_two_stores() {
    assert_eq!(window_probe_expression(), "window.bangId");
    assert_eq!(session_probe_expression(), "sessionStorage.getItem('bangId')");
}

#[test]
fn two_tabs_race_session_storage_wins() {
    // Tab A holds window.bangId = "alpha", tab B holds
    // sessionStorage.bangId = "beta"; searching "beta" must find B,
    // whichever tab is probed or completes first.
    let alpha = "alpha".to_string();
    let beta = "beta".to_string();

    // Probe of tab A (index 0), searching "beta".
    let a1 = probe_on_value(probe_start(), "beta", Some(&alpha));
    assert_eq!(a1, TabProbe::AwaitSessionValue);
    let a2 = probe_on_value(a1, "beta", None);
    assert_eq!(a2, TabProbe::Finished(false));

    // Probe of tab B (index 1).
    let b1 = probe_on_value(probe_start(), "beta", None);
    assert_eq!(b1, TabProbe::AwaitSessionValue);
    let b2 = probe_on_value(b1, "beta", Some(&beta));
    assert_eq!(b2, TabProbe::Finished(true));

    // A completes first.
    let results = vec![
        ProbeResult { tab_index: 0, matched: false },
        ProbeResult { tab_index: 1, matched: true },
    ];
    assert_eq!(first_match(&results), Some(1));

    // B completes first: the race returns as soon as it matches.
    let results_b_first = vec![
        ProbeResult { tab_index: 1, matched: true },
        ProbeResult { tab_index: 0, matched: false },
    ];
    assert_eq!(first_match(&results_b_first), Some(1));
}

#[test]
fn window_global_match_finishes_immediately() {
    let alpha = "alpha".to_string();
    let p = probe_on_value(probe_start(), "alpha", Some(&alpha));
    assert_eq!(p, TabProbe::Finished(true));
}

#[test]
fn no_match_anywhere_yields_none() {
    let tabs = vec![
        tab("A", "https://a.example/", Some("ws://x/a")),
        tab("B", "https://b.example/", Some("ws://x/b")),
    ];
    let plan = plan_probes(&tabs, "zzz");
    assert_eq!(plan.fast, None);
    let results = vec![
        ProbeResult { tab_index: 1, matched: false },
        ProbeResult { tab_index: 0, matched: false },
    ];
    assert_eq!(correlate_outcome(&plan, &results), None);
}

#[test]
fn stamp_scripts_have_the_documented_shape() {
    assert_eq!(set_hash_script("123").as_str(), "window.location.hash = '123';");
    assert_eq!(set_global_script("123").as_str(), "window.bangId='123';");
    assert_eq!(read_global_expression(), "window.bangId");
}

#[test]
fn stamp_then_read_back_observes_the_id() {
    let mut page = PageStore {
        hash: String::new(),
        global: None,
        session: Some("old".to_string()),
    };
    apply_stamp(&mut page, "id-77");
    let observed = read_global(&page);
    assert_eq!(observed.unwrap().as_str(), "id-77");
    assert!(check_stamp("id-77", read_global(&page)).is_ok());
    // Session storage was not touched.
    assert_eq!(page.session.as_ref().unwrap().as_str(), "old");
    assert_eq!(page.hash.as_str(), "id-77");
}

#[test]
fn stamp_verification_failures_are_classified() {
    let wrong = "other".to_string();
    assert_eq!(check_stamp("id-77", Some(&wrong)), Err(CdpError::VerificationMismatch));
    assert_eq!(check_stamp("id-77", None), Err(CdpError::RequestTimeout));
}
