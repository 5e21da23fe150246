//! Bang-parameter URL splitting and dimension resolution.

use debugchrome::bangs::split_and_process_url;
use debugchrome::commands::Bounds;
use debugchrome::geometry::{
    adjust_bounds_to_monitor, get_screen_bounds, parse_dimension, MonitorRect,
};

#[test]
fn url_and_params_are_split_at_the_first_bang() {
    let (base, params) = split_and_process_url(
        "https://www.rust-lang.org?!x=0&!y=0&!w=800&!h=600&!id=123",
    );
    assert_eq!(base.as_str(), "https://www.rust-lang.org?");
    assert_eq!(params.len(), 5);
    assert_eq!(params.get("x").unwrap().as_str(), "0");
    assert_eq!(params.get("y").unwrap().as_str(), "0");
    assert_eq!(params.get("w").unwrap().as_str(), "800");
    assert_eq!(params.get("h").unwrap().as_str(), "600");
    assert_eq!(params.get("id").unwrap().as_str(), "123");
    assert!(params.get("close").is_none());
}

#[test]
fn url_without_bangs_has_no_params() {
    let (base, params) = split_and_process_url("https://example.com/path");
    assert_eq!(base.as_str(), "https://example.com/path");
    assert_eq!(params.len(), 0);
}

#[test]
fn flags_without_values_and_empty_values() {
    let (base, params) = split_and_process_url("https://e/!close&!id=&!screenshot");
    assert_eq!(base.as_str(), "https://e/");
    assert_eq!(params.get("close").unwrap().as_str(), "");
    assert_eq!(params.get("id").unwrap().as_str(), "");
    assert_eq!(params.get("screenshot").unwrap().as_str(), "");
    assert!(params.contains_key("close"));
    assert!(!params.contains_key("refresh"));
}

#[test]
fn later_occurrences_of_a_key_win() {
    let (_, params) = split_and_process_url("u!id=1&!id=2&id=3");
    assert_eq!(params.get("id").unwrap().as_str(), "3");
}

#[test]
fn values_may_contain_equals_signs() {
    let (_, params) = split_and_process_url("u!script=a=b=c");
    assert_eq!(params.get("script").unwrap().as_str(), "a=b=c");
}

#[test]
fn absolute_dimensions() {
    assert_eq!(parse_dimension("800", 1920), Some(800));
    assert_eq!(parse_dimension("-10", 1920), Some(-10));
    assert_eq!(parse_dimension("+25", 1920), Some(25));
    assert_eq!(parse_dimension("abc", 1920), None);
    assert_eq!(parse_dimension("", 1920), None);
    assert_eq!(parse_dimension("2147483647", 1920), Some(2147483647));
    assert_eq!(parse_dimension("2147483648", 1920), None);
    assert_eq!(parse_dimension("-2147483648", 1920), Some(-2147483648));
}

#[test]
fn percentage_dimensions() {
    assert_eq!(parse_dimension("50%", 1000), Some(500));
    assert_eq!(parse_dimension("100%", 1920), Some(1920));
    assert_eq!(parse_dimension("0%", 1920), Some(0));
    assert_eq!(parse_dimension("12.5%", 1000), Some(125));
    // 50% of 801 is 400.5: rounded half away from zero.
    assert_eq!(parse_dimension("50%", 801), Some(401));
    assert_eq!(parse_dimension("-50%", 1000), Some(-500));
    assert_eq!(parse_dimension("%", 1000), None);
    assert_eq!(parse_dimension("x%", 1000), None);
}

#[test]
fn bounds_shift_onto_the_chosen_monitor() {
    let monitors = vec![
        MonitorRect { left: 0, top: 0, right: 1920, bottom: 1080, dpi: 96 },
        MonitorRect { left: 1920, top: 0, right: 3840, bottom: 1080, dpi: 96 },
    ];
    let adjusted = adjust_bounds_to_monitor(&monitors, 1, 10, 20, 800, 600, false);
    assert_eq!(adjusted, Some((1930, 20, 800, 600)));
    assert_eq!(adjust_bounds_to_monitor(&monitors, 2, 0, 0, 1, 1, false), None);
}

#[test]
fn dpi_scaling_is_undone_when_asked() {
    let monitors = vec![MonitorRect { left: 1920, top: 0, right: 3840, bottom: 1080, dpi: 144 }];
    // x lands at 1930 on screen; 1930 * 96 / 144 = 1286.67, rounded 1287.
    let adjusted = adjust_bounds_to_monitor(&monitors, 0, 10, 0, 864, 600, true);
    assert_eq!(adjusted, Some((1287, 0, 576, 400)));
    // Without the flag nothing is scaled.
    let plain = adjust_bounds_to_monitor(&monitors, 0, 10, 0, 864, 600, false);
    assert_eq!(plain, Some((1930, 0, 864, 600)));
}

#[test]
fn screen_bounds_need_all_four_keys_without_a_monitor() {
    let (_, full) = split_and_process_url("u!x=0&!y=0&!w=800&!h=600");
    let none: Vec<MonitorRect> = Vec::new();
    let b = get_screen_bounds(&full, 1920, 1080, &none, None, false);
    assert_eq!(b, Some(Bounds { x: 0, y: 0, w: 800, h: 600 }));

    let (_, partial) = split_and_process_url("u!x=0&!y=0&!w=800");
    assert_eq!(get_screen_bounds(&partial, 1920, 1080, &none, None, false), None);
}

#[test]
fn screen_bounds_use_percentages_and_defaults() {
    let (_, params) = split_and_process_url("u!x=10%&!y=0&!w=50%&!h=100%");
    let none: Vec<MonitorRect> = Vec::new();
    let b = get_screen_bounds(&params, 1920, 1080, &none, None, false);
    assert_eq!(b, Some(Bounds { x: 192, y: 0, w: 960, h: 1080 }));
}

#[test]
fn screen_bounds_with_a_monitor_use_defaults_for_missing_keys() {
    let (_, params) = split_and_process_url("u!x=100");
    let monitors = vec![MonitorRect { left: 1920, top: 0, right: 3840, bottom: 1080, dpi: 96 }];
    let b = get_screen_bounds(&params, 1920, 1080, &monitors, Some(0), false);
    // y defaults to 0, w/h to the whole screen; x shifts onto the monitor.
    assert_eq!(b, Some(Bounds { x: 2020, y: 0, w: 1920, h: 1080 }));
}
