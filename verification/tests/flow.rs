//! The tab-open flow: options, placeholder URLs, screenshots, errors.

use base64::Engine;
use debugchrome::bangs::split_and_process_url;
use debugchrome::commands::screenshot_from_response;
use debugchrome::errors::CdpError;
use debugchrome::frame::ResponsePayload;
use debugchrome::jokes::JokeList;
use debugchrome::session::{
    close_choice_for, direct_placeholder_url, effective_bang_id, open_config_from_params,
    open_step, placeholder_url, redirect_page_html, redirect_placeholder_url, title_from_eval,
    CloseChoice, OpenEvent, OpenPhase,
};

#[test]
fn options_are_read_from_the_bang_parameters() {
    let (_, params) = split_and_process_url(
        "https://e/!id=123&!openwindow&!screenshot&!timeout=30&!monitor=1&!dpi=TRUE&!keep_focus",
    );
    let c = open_config_from_params(&params);
    assert_eq!(c.bang_id.as_ref().unwrap().as_str(), "123");
    assert!(c.open_window);
    assert!(c.screenshot);
    assert!(!c.close);
    assert!(!c.refresh);
    assert!(c.keep_focus);
    assert_eq!(c.timeout_seconds, Some(30));
    assert_eq!(c.monitor_index, Some(1));
    assert!(c.dpi_scaling_enabled);
}

#[test]
fn bad_numbers_and_absent_keys_fall_back() {
    let (_, params) = split_and_process_url("https://e/!timeout=soon&!dpi=yes");
    let c = open_config_from_params(&params);
    assert!(c.bang_id.is_none());
    assert_eq!(c.timeout_seconds, None);
    assert_eq!(c.monitor_index, None);
    assert!(!c.dpi_scaling_enabled);
}

#[test]
fn an_empty_id_asks_for_a_generated_one() {
    let written = "abc".to_string();
    let empty = String::new();
    assert_eq!(
        effective_bang_id(Some(&written), "20250101").unwrap().as_str(),
        "abc"
    );
    assert_eq!(
        effective_bang_id(Some(&empty), "20250101").unwrap().as_str(),
        "20250101"
    );
    assert!(effective_bang_id(None, "20250101").is_none());
}

#[test]
fn direct_placeholder_carries_the_fragment() {
    assert_eq!(
        direct_placeholder_url("https://e/p", "123").as_str(),
        "https://e/p#123"
    );
    let via_choice = placeholder_url("https://e/p", "123", true, Some(9));
    assert_eq!(via_choice.as_str(), "https://e/p#123");
    let zero_delay = placeholder_url("https://e/p", "123", false, Some(0));
    assert_eq!(zero_delay.as_str(), "https://e/p#123");
}

#[test]
fn redirect_placeholder_embeds_the_encoded_page() {
    let html = redirect_page_html("123", "https://e/p", 2);
    assert!(html.contains("window.bangId='123'"));
    assert!(html.contains("sessionStorage.setItem('bangId','123')"));
    assert!(html.contains("window.location.replace('https://e/p')"));
    assert!(html.contains("},2*1000);"));

    let url = redirect_placeholder_url("123", "https://e/p", 2);
    let expected_b64 = base64::engine::general_purpose::STANDARD.encode(html.as_str());
    let expected = format!("data:text/html;base64,{}#123", expected_b64);
    assert_eq!(url.as_str(), expected.as_str());

    let via_choice = placeholder_url("https://e/p", "123", false, Some(2));
    assert_eq!(via_choice.as_str(), expected.as_str());
}

#[test]
fn screenshot_bytes_are_decoded_from_base64() {
    let payload = ResponsePayload {
        target_id: None,
        browser_context_id: None,
        data: Some("aGVsbG8=".to_string()),
        eval_value: None,
        window_id: None,
    };
    let bytes = screenshot_from_response(Some(payload)).unwrap();
    assert_eq!(bytes, b"hello".to_vec());
}

#[test]
fn screenshot_timeout_is_reported_not_hung() {
    // A tab that never answers Page.captureScreenshot: the bounded wait
    // hands in None, and the caller gets a timeout error, not a hang.
    assert_eq!(screenshot_from_response(None), Err(CdpError::ScreenshotTimeout));
}

#[test]
fn screenshot_protocol_failures_are_distinct() {
    let no_data = ResponsePayload {
        target_id: None,
        browser_context_id: None,
        data: None,
        eval_value: None,
        window_id: None,
    };
    assert_eq!(screenshot_from_response(Some(no_data)), Err(CdpError::ProtocolError));
    let bad_data = ResponsePayload {
        target_id: None,
        browser_context_id: None,
        data: Some("!!not base64!!".to_string()),
        eval_value: None,
        window_id: None,
    };
    assert_eq!(screenshot_from_response(Some(bad_data)), Err(CdpError::ProtocolError));
}

#[test]
fn profile_picker_closes_the_whole_browser() {
    assert_eq!(close_choice_for("chrome://profile-picker/"), CloseChoice::CloseBrowser);
    assert_eq!(close_choice_for("https://e/"), CloseChoice::CloseTarget);
}

#[test]
fn found_tab_path_through_the_flow() {
    let mut p = OpenPhase::Idle;
    p = open_step(p, OpenEvent::Submitted);
    assert_eq!(p, OpenPhase::ResolvingEndpoint);
    p = open_step(p, OpenEvent::EndpointReady);
    assert_eq!(p, OpenPhase::Correlating);
    p = open_step(p, OpenEvent::TabFound);
    assert_eq!(p, OpenPhase::Activating);
    p = open_step(p, OpenEvent::Activated);
    assert_eq!(p, OpenPhase::Positioning);
    p = open_step(p, OpenEvent::Positioned);
    assert_eq!(p, OpenPhase::Done);
}

#[test]
fn new_tab_path_through_the_flow() {
    let mut p = OpenPhase::Correlating;
    p = open_step(p, OpenEvent::TabNotFound);
    assert_eq!(p, OpenPhase::Creating);
    p = open_step(p, OpenEvent::Stamped);
    // A stray event changes nothing.
    assert_eq!(p, OpenPhase::Creating);
    p = open_step(p, OpenEvent::Created);
    assert_eq!(p, OpenPhase::Stamping);
    p = open_step(p, OpenEvent::Stamped);
    assert_eq!(p, OpenPhase::Positioning);
    p = open_step(p, OpenEvent::Positioned);
    assert_eq!(p, OpenPhase::Done);
    // A create failure ends the request: best-effort, reported, no retry.
    assert_eq!(open_step(OpenPhase::Creating, OpenEvent::CreateFailed), OpenPhase::Done);
}

#[test]
fn queried_title_wins_over_the_pushed_one() {
    assert_eq!(
        title_from_eval("stale", Some("fresh".to_string())).as_str(),
        "fresh"
    );
    assert_eq!(title_from_eval("stale", None).as_str(), "stale");
}

#[test]
fn error_descriptions_are_distinct() {
    let all = vec![
        CdpError::EndpointUnreachable,
        CdpError::LaunchFailure,
        CdpError::LaunchTimeout,
        CdpError::RequestTimeout,
        CdpError::ScreenshotTimeout,
        CdpError::SocketClosed,
        CdpError::ProtocolError,
        CdpError::VerificationMismatch,
    ];
    for i in 0..all.len() {
        for j in 0..all.len() {
            if i != j {
                assert_ne!(all[i], all[j]);
                assert_ne!(all[i].describe(), all[j].describe());
            }
        }
    }
    assert_eq!(CdpError::RequestTimeout.describe().as_str(), "request timed out");
}

#[test]
fn jokes_cycle_and_wrap() {
    let list = vec!["one".to_string(), "two".to_string(), "three".to_string()];
    let mut jokes = JokeList::new(list.clone());
    assert_eq!(jokes.get_curr_joke().as_str(), "one");
    assert_eq!(jokes.get_seq_joke().as_str(), "one");
    assert_eq!(jokes.get_curr_joke().as_str(), "two");
    assert_eq!(jokes.get_seq_joke().as_str(), "two");
    assert_eq!(jokes.get_seq_joke().as_str(), "three");
    // Wrapped around.
    assert_eq!(jokes.get_curr_joke().as_str(), "one");
    let picked = jokes.get_next_joke().clone();
    assert!(list.contains(&picked));
    assert_eq!(jokes.get_curr_joke().as_str(), picked.as_str());
}
