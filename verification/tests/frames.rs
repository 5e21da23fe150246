//! Decoding inbound frames and routing them against a pending request.

use debugchrome::channel::{route_frame, Disposition};
use debugchrome::frame::{CdpEvent, InboundFrame};
use debugchrome::json::{decode_frame, parse_browser_ws_url, parse_target_list};

#[test]
fn response_frame_with_result_fields() {
    let frame = decode_frame(
        "{\"id\":12,\"result\":{\"targetId\":\"T1\",\"browserContextId\":\"C1\"}}",
    );
    match frame {
        InboundFrame::Response { id, is_error, payload } => {
            assert_eq!(id, 12);
            assert!(!is_error);
            assert_eq!(payload.target_id.unwrap().as_str(), "T1");
            assert_eq!(payload.browser_context_id.unwrap().as_str(), "C1");
            assert!(payload.data.is_none());
            assert!(payload.eval_value.is_none());
        }
        _ => panic!("expected a response frame"),
    }
}

#[test]
fn response_frame_with_error_member() {
    let frame = decode_frame("{\"id\":3,\"error\":{\"code\":-32000,\"message\":\"no target\"}}");
    match frame {
        InboundFrame::Response { id, is_error, .. } => {
            assert_eq!(id, 3);
            assert!(is_error);
        }
        _ => panic!("expected a response frame"),
    }
}

#[test]
fn evaluate_value_is_extracted() {
    let frame = decode_frame("{\"id\":5,\"result\":{\"result\":{\"type\":\"string\",\"value\":\"alpha\"}}}");
    match frame {
        InboundFrame::Response { payload, .. } => {
            assert_eq!(payload.eval_value.unwrap().as_str(), "alpha");
        }
        _ => panic!("expected a response frame"),
    }
}

#[test]
fn window_id_is_extracted() {
    let frame = decode_frame("{\"id\":6,\"result\":{\"windowId\":42}}");
    match frame {
        InboundFrame::Response { payload, .. } => {
            assert_eq!(payload.window_id, Some(42));
        }
        _ => panic!("expected a response frame"),
    }
}

#[test]
fn event_frame_without_id() {
    let frame = decode_frame(
        "{\"method\":\"Target.targetCreated\",\"params\":{\"targetInfo\":{\
         \"targetId\":\"T7\",\"url\":\"https://example.com/\",\"title\":\"Example\",\
         \"type\":\"page\",\"attached\":false}}}",
    );
    match frame {
        InboundFrame::Event(CdpEvent::TargetCreated(e)) => {
            assert_eq!(e.target_id.as_str(), "T7");
            assert_eq!(e.url.as_str(), "https://example.com/");
            assert_eq!(e.title.as_str(), "Example");
            assert_eq!(e.kind.as_str(), "page");
            assert_eq!(e.attached, Some(false));
        }
        _ => panic!("expected a targetCreated event"),
    }
}

#[test]
fn destroyed_detached_and_unknown_events() {
    match decode_frame("{\"method\":\"Target.targetDestroyed\",\"params\":{\"targetId\":\"T1\"}}") {
        InboundFrame::Event(CdpEvent::TargetDestroyed { target_id }) => {
            assert_eq!(target_id.as_str(), "T1");
        }
        _ => panic!("expected a targetDestroyed event"),
    }
    match decode_frame("{\"method\":\"Inspector.detached\",\"params\":{\"reason\":\"x\"}}") {
        InboundFrame::Event(CdpEvent::InspectorDetached) => {}
        _ => panic!("expected Inspector.detached"),
    }
    match decode_frame(
        "{\"method\":\"Target.detachedFromTarget\",\"params\":{\"browserContextId\":\"C9\"}}",
    ) {
        InboundFrame::Event(CdpEvent::DetachedFromTarget { browser_context_id }) => {
            assert_eq!(browser_context_id.unwrap().as_str(), "C9");
        }
        _ => panic!("expected detachedFromTarget"),
    }
    match decode_frame("{\"method\":\"Page.loadEventFired\",\"params\":{}}") {
        InboundFrame::Event(CdpEvent::Other { method }) => {
            assert_eq!(method.as_str(), "Page.loadEventFired");
        }
        _ => panic!("expected an unknown event"),
    }
}

#[test]
fn malformed_text_is_skipped_not_fatal() {
    assert!(matches!(decode_frame("not json at all"), InboundFrame::Malformed));
    assert!(matches!(decode_frame("{\"neither\":\"id nor method\"}"), InboundFrame::Malformed));
}

#[test]
fn routing_delivers_only_the_matching_id() {
    let matching = decode_frame("{\"id\":12,\"result\":{\"targetId\":\"T1\"}}");
    assert!(matches!(route_frame(12, matching), Disposition::DeliverOk(_)));

    let other = decode_frame("{\"id\":13,\"result\":{\"targetId\":\"T2\"}}");
    assert!(matches!(route_frame(12, other), Disposition::Ignore));

    let error = decode_frame("{\"id\":12,\"error\":{\"code\":1}}");
    assert!(matches!(route_frame(12, error), Disposition::DeliverError(_)));

    let event = decode_frame("{\"method\":\"Target.targetDestroyed\",\"params\":{\"targetId\":\"T\"}}");
    assert!(matches!(route_frame(12, event), Disposition::RouteEvent(_)));

    assert!(matches!(route_frame(12, InboundFrame::Malformed), Disposition::Ignore));
}

#[test]
fn target_list_keeps_order_and_drops_idless_entries() {
    let body = "[\
        {\"id\":\"A\",\"url\":\"https://a/\",\"title\":\"a\",\"type\":\"page\",\
         \"webSocketDebuggerUrl\":\"ws://localhost:9222/devtools/page/A\"},\
        {\"url\":\"https://no-id/\",\"title\":\"x\",\"type\":\"page\"},\
        {\"id\":\"B\",\"url\":\"chrome://settings/\",\"title\":\"b\",\"type\":\"page\"}]";
    let tabs = parse_target_list(body).unwrap();
    assert_eq!(tabs.len(), 2);
    assert_eq!(tabs[0].target_id.as_str(), "A");
    assert_eq!(
        tabs[0].ws_url.as_ref().unwrap().as_str(),
        "ws://localhost:9222/devtools/page/A"
    );
    assert_eq!(tabs[1].target_id.as_str(), "B");
    assert!(tabs[1].ws_url.is_none());
    assert!(parse_target_list("{\"not\":\"an array\"}").is_none());
}

#[test]
fn browser_ws_url_is_read_from_version_body() {
    let body = "{\"Browser\":\"Chrome/120\",\"webSocketDebuggerUrl\":\"ws://localhost:9222/devtools/browser/xyz\"}";
    assert_eq!(
        parse_browser_ws_url(body).unwrap().as_str(),
        "ws://localhost:9222/devtools/browser/xyz"
    );
    assert!(parse_browser_ws_url("{}").is_none());
}
