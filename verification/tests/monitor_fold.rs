//! Folding target lifecycle events into the tab table.

use debugchrome::frame::{CdpEvent, TargetEntry};
use debugchrome::monitor::{start_monitoring, DisconnectLatch, MonitorAction, TabTable};

fn entry(id: &str, url: &str, kind: &str, attached: Option<bool>, ctx: Option<&str>) -> TargetEntry {
    TargetEntry {
        target_id: id.to_string(),
        url: url.to_string(),
        title: format!("title of {}", id),
        kind: kind.to_string(),
        attached,
        browser_context_id: ctx.map(|c| c.to_string()),
        ws_url: None,
    }
}

#[test]
fn created_page_targets_are_cached() {
    let mut table = TabTable::new();
    let act = table.apply_event(&CdpEvent::TargetCreated(entry(
        "T1",
        "https://a/",
        "page",
        None,
        None,
    )));
    assert!(matches!(act, MonitorAction::Nothing));
    assert_eq!(table.len(), 1);
    let t = table.get("T1").unwrap();
    assert_eq!(t.url.as_str(), "https://a/");
    assert_eq!(t.title.as_str(), "title of T1");
    assert_eq!(t.bang_id.as_str(), "");
}

#[test]
fn non_page_and_detached_targets_are_skipped() {
    let mut table = TabTable::new();
    table.apply_event(&CdpEvent::TargetCreated(entry(
        "W1",
        "https://w/",
        "service_worker",
        None,
        None,
    )));
    table.apply_event(&CdpEvent::TargetCreated(entry(
        "T2",
        "https://b/",
        "page",
        Some(false),
        None,
    )));
    assert_eq!(table.len(), 0);
    // attached == true is kept.
    table.apply_event(&CdpEvent::TargetCreated(entry("T3", "https://c/", "page", Some(true), None)));
    assert_eq!(table.len(), 1);
}

#[test]
fn created_twice_replaces_instead_of_duplicating() {
    let mut table = TabTable::new();
    table.apply_event(&CdpEvent::TargetCreated(entry("T1", "https://a/", "page", None, None)));
    table.apply_event(&CdpEvent::TargetCreated(entry("T1", "https://a2/", "page", None, None)));
    assert_eq!(table.len(), 1);
    assert_eq!(table.get("T1").unwrap().url.as_str(), "https://a2/");
}

#[test]
fn destroyed_targets_are_removed() {
    let mut table = TabTable::new();
    table.apply_event(&CdpEvent::TargetCreated(entry("T1", "https://a/", "page", None, None)));
    table.apply_event(&CdpEvent::TargetCreated(entry("T2", "https://b/", "page", None, None)));
    table.apply_event(&CdpEvent::TargetDestroyed { target_id: "T1".to_string() });
    assert_eq!(table.len(), 1);
    assert!(table.get("T1").is_none());
    assert!(table.get("T2").is_some());
    // Destroying an unknown target changes nothing.
    table.apply_event(&CdpEvent::TargetDestroyed { target_id: "T9".to_string() });
    assert_eq!(table.len(), 1);
}

#[test]
fn info_change_asks_for_a_fresh_title_then_updates() {
    let mut table = TabTable::new();
    table.apply_event(&CdpEvent::TargetCreated(entry("T1", "https://a/", "page", None, None)));
    let e = entry("T1", "https://a/next", "page", None, None);
    let act = table.apply_event(&CdpEvent::TargetInfoChanged(e.clone()));
    match act {
        MonitorAction::QueryTitle { target_id } => assert_eq!(target_id.as_str(), "T1"),
        _ => panic!("expected a title query"),
    }
    // The table is untouched until the queried title comes back.
    assert_eq!(table.get("T1").unwrap().url.as_str(), "https://a/");
    table.apply_info_changed(&e, "Fresh Title");
    let t = table.get("T1").unwrap();
    assert_eq!(t.url.as_str(), "https://a/next");
    assert_eq!(t.title.as_str(), "Fresh Title");
}

#[test]
fn info_change_for_an_unknown_tab_inserts_it() {
    let mut table = TabTable::new();
    table.apply_info_changed(&entry("T5", "https://n/", "page", None, None), "N");
    assert_eq!(table.len(), 1);
    assert_eq!(table.get("T5").unwrap().title.as_str(), "N");
}

#[test]
fn context_detach_drops_the_whole_partition() {
    let mut table = TabTable::new();
    table.apply_event(&CdpEvent::TargetCreated(entry("T1", "https://a/", "page", None, Some("C1"))));
    table.apply_event(&CdpEvent::TargetCreated(entry("T2", "https://b/", "page", None, Some("C2"))));
    table.apply_event(&CdpEvent::TargetCreated(entry("T3", "https://c/", "page", None, Some("C1"))));
    table.apply_event(&CdpEvent::DetachedFromTarget { browser_context_id: Some("C1".to_string()) });
    assert_eq!(table.len(), 1);
    assert!(table.get("T2").is_some());
    // Without a context id nothing is removed.
    table.apply_event(&CdpEvent::DetachedFromTarget { browser_context_id: None });
    assert_eq!(table.len(), 1);
}

#[test]
fn inspector_detached_probes_before_reporting() {
    let mut table = TabTable::new();
    let act = table.apply_event(&CdpEvent::InspectorDetached);
    assert!(matches!(act, MonitorAction::ProbeEndpoint));

    let mut latch = DisconnectLatch::new();
    assert!(latch.should_probe());
    // The control plane still answers: no disconnect is reported.
    assert!(!latch.on_probe(true));
    assert!(latch.should_probe());
    // It stopped answering: reported exactly once.
    assert!(latch.on_probe(false));
    assert!(!latch.should_probe());
    assert!(!latch.on_probe(false));
}

#[test]
fn a_new_monitor_session_starts_from_an_empty_table() {
    // Rows cached before a socket drop must not survive the reconnect:
    // the session start empties the table and hands back the discovery
    // subscription as the first command of the new connection.
    let mut table = TabTable::new();
    table.apply_event(&CdpEvent::TargetCreated(entry("T1", "https://a/", "page", None, None)));
    table.apply_event(&CdpEvent::TargetCreated(entry("T2", "https://b/", "page", None, None)));
    assert_eq!(table.len(), 2);
    let first = start_monitoring(&mut table, 1);
    assert_eq!(table.len(), 0);
    assert_eq!(
        first.as_str(),
        "{\"id\":1,\"method\":\"Target.setDiscoverTargets\",\"params\":{\"discover\":true}}"
    );
}

#[test]
fn rows_and_clear() {
    let mut table = TabTable::new();
    table.apply_event(&CdpEvent::TargetCreated(entry("T1", "https://a/", "page", None, None)));
    table.apply_event(&CdpEvent::TargetCreated(entry("T2", "https://b/", "page", None, None)));
    assert_eq!(table.rows().len(), 2);
    assert_eq!(table.rows()[0].target_id.as_str(), "T1");
    table.clear();
    assert_eq!(table.len(), 0);
}
