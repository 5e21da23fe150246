//! The exact frame text of each command builder.

use debugchrome::channel::CommandIdCounter;
use debugchrome::commands::{
    activate_target_command, attach_to_target_command, browser_close_command,
    capture_screenshot_command, close_target_command, create_browser_context_command,
    create_target_command, get_window_for_target_command, page_enable_command,
    page_reload_command, runtime_enable_command, runtime_evaluate_command,
    set_discover_targets_command, set_window_bounds_command, Bounds,
};

#[test]
fn create_target_without_bounds_omits_geometry() {
    let text = create_target_command(7, "https://example.com/", None, None, false);
    assert_eq!(
        text.as_str(),
        "{\"id\":7,\"method\":\"Target.createTarget\",\"params\":{\"url\":\"https://example.com/\"}}"
    );
    assert!(!text.contains("left"));
    assert!(!text.contains("width"));
}

#[test]
fn create_target_with_bounds_includes_all_four_fields() {
    let b = Bounds { x: 0, y: 0, w: 800, h: 600 };
    let text = create_target_command(2, "https://example.com/", Some("ctx-1"), Some(b), true);
    assert_eq!(
        text.as_str(),
        "{\"id\":2,\"method\":\"Target.createTarget\",\"params\":{\
         \"url\":\"https://example.com/\",\"browserContextId\":\"ctx-1\",\
         \"left\":0,\"top\":0,\"width\":800,\"height\":600,\"newWindow\":true}}"
    );
}

#[test]
fn create_target_with_negative_origin() {
    let b = Bounds { x: -100, y: -5, w: 640, h: 480 };
    let text = create_target_command(3, "https://example.com/", None, Some(b), true);
    assert!(text.contains("\"left\":-100,\"top\":-5,\"width\":640,\"height\":480"));
}

#[test]
fn activate_and_close_target_frames() {
    assert_eq!(
        activate_target_command(4, "AB12").as_str(),
        "{\"id\":4,\"method\":\"Target.activateTarget\",\"params\":{\"targetId\":\"AB12\"}}"
    );
    assert_eq!(
        close_target_command(5, "AB12").as_str(),
        "{\"id\":5,\"method\":\"Target.closeTarget\",\"params\":{\"targetId\":\"AB12\"}}"
    );
}

#[test]
fn context_and_browser_frames() {
    assert_eq!(
        create_browser_context_command(1).as_str(),
        "{\"id\":1,\"method\":\"Target.createBrowserContext\"}"
    );
    assert_eq!(browser_close_command(9).as_str(), "{\"id\":9,\"method\":\"Browser.close\"}");
    assert_eq!(
        get_window_for_target_command(6, "T").as_str(),
        "{\"id\":6,\"method\":\"Browser.getWindowForTarget\",\"params\":{\"targetId\":\"T\"}}"
    );
}

#[test]
fn page_frames() {
    assert_eq!(page_enable_command(1).as_str(), "{\"id\":1,\"method\":\"Page.enable\"}");
    assert_eq!(
        page_reload_command(2).as_str(),
        "{\"id\":2,\"method\":\"Page.reload\",\"params\":{}}"
    );
    assert_eq!(
        capture_screenshot_command(3).as_str(),
        "{\"id\":3,\"method\":\"Page.captureScreenshot\"}"
    );
    assert_eq!(runtime_enable_command(4).as_str(), "{\"id\":4,\"method\":\"Runtime.enable\"}");
}

#[test]
fn discover_and_attach_frames() {
    assert_eq!(
        set_discover_targets_command(1, true).as_str(),
        "{\"id\":1,\"method\":\"Target.setDiscoverTargets\",\"params\":{\"discover\":true}}"
    );
    assert_eq!(
        attach_to_target_command(2, "T9").as_str(),
        "{\"id\":2,\"method\":\"Target.attachToTarget\",\"params\":{\"targetId\":\"T9\",\"flatten\":true}}"
    );
}

#[test]
fn set_window_bounds_frame() {
    let b = Bounds { x: 10, y: 20, w: 300, h: 400 };
    assert_eq!(
        set_window_bounds_command(8, 77, b).as_str(),
        "{\"id\":8,\"method\":\"Browser.setWindowBounds\",\"params\":{\"windowId\":77,\
         \"bounds\":{\"left\":10,\"top\":20,\"width\":300,\"height\":400}}}"
    );
}

#[test]
fn evaluate_escapes_expression_text() {
    let text = runtime_evaluate_command(11, "window.bangId='a\"b\\c\n';", None);
    assert_eq!(
        text.as_str(),
        "{\"id\":11,\"method\":\"Runtime.evaluate\",\"params\":{\
         \"expression\":\"window.bangId='a\\\"b\\\\c\\u000a';\"}}"
    );
    let with_rbv = runtime_evaluate_command(12, "window.bangId", Some(true));
    assert_eq!(
        with_rbv.as_str(),
        "{\"id\":12,\"method\":\"Runtime.evaluate\",\"params\":{\
         \"expression\":\"window.bangId\",\"returnByValue\":true}}"
    );
}

#[test]
fn evaluate_frames_parse_back_as_json() {
    // The encoder's escaping must agree with a real JSON parser.
    let text = runtime_evaluate_command(13, "sessionStorage.getItem('bangId')\t\"x\"", Some(false));
    let v: serde_json::Value = serde_json::from_str(text.as_str()).unwrap();
    assert_eq!(v["id"], 13);
    assert_eq!(v["method"], "Runtime.evaluate");
    assert_eq!(v["params"]["expression"], "sessionStorage.getItem('bangId')\t\"x\"");
    assert_eq!(v["params"]["returnByValue"], false);
}

#[test]
fn command_ids_are_unique_and_increasing() {
    let mut c = CommandIdCounter::new();
    let a = c.get_unique_id();
    let b = c.get_unique_id();
    let d = c.get_unique_id();
    assert_eq!(a, 1);
    assert_eq!(b, 2);
    assert_eq!(d, 3);
    assert!(a < b && b < d);
}
