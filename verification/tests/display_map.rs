//! Where the pixels sit on the string.

use traffic_light_display::console::console_text;
use traffic_light_display::display::{DisplayDriver, MarqueeConfig, WifiTestResult, RGB8};
use traffic_light_display::display::{clamp_speed_ms, SACRIFICIAL_LEDS, STRIP_LEN};

fn idx(lx: usize, ly: usize) -> usize {
    DisplayDriver::get_pixel_index(lx, ly).unwrap()
}

#[test]
fn corners_land_where_the_camera_saw_them() {
    // red lamp (logical panel 0) is the tail of the string: columns 20..29
    assert_eq!(
        idx(0, 0),
        209,
        "red top-left: column 20 (even, bottom-up), top LED"
    );
    assert_eq!(idx(0, 9), 200, "red bottom-left");
    assert_eq!(
        idx(9, 0),
        290,
        "red top-right: column 29 (odd, top-down), first LED"
    );
    assert_eq!(idx(9, 9), 299, "red bottom-right");
    // amber lamp (panel 1): columns 10..19
    assert_eq!(idx(10, 0), 109, "amber top-left");
    assert_eq!(idx(19, 9), 199, "amber bottom-right");
    // blue lamp (panel 2) is the head of the string: columns 0..9
    assert_eq!(
        idx(20, 0),
        9,
        "blue top-left is the top of the first column"
    );
    assert_eq!(
        idx(20, 9),
        0,
        "blue bottom-left is the very first matrix LED"
    );
    assert_eq!(idx(29, 0), 90, "blue top-right");
    assert_eq!(idx(29, 9), 99, "blue bottom-right");
}

#[test]
fn every_panel_is_a_contiguous_block_with_x_running_left_to_right() {
    for panel in 0..3 {
        let base = (2 - panel) * 100;
        for lx in panel * 10..(panel + 1) * 10 {
            for ly in 0..10 {
                let i = idx(lx, ly);
                assert!(
                    i >= base && i < base + 100,
                    "({lx},{ly}) -> {i} outside panel block"
                );
                assert_eq!(i / 10, base / 10 + lx % 10, "column of ({lx},{ly})");
            }
        }
    }
}

#[test]
fn rows_are_horizontal_and_y_runs_top_to_bottom() {
    // moving one LED down a column must move one step along the string in
    // the direction that column is wired
    for lx in 0..30 {
        for ly in 0..9 {
            let step = idx(lx, ly + 1) as isize - idx(lx, ly) as isize;
            let expected = if (idx(lx, ly) / 10) % 2 == 0 { -1 } else { 1 };
            assert_eq!(step, expected, "({lx},{ly})");
        }
    }
}

#[test]
fn mapping_is_a_bijection_over_the_matrix() {
    let mut seen = [false; 300];
    for ly in 0..10 {
        for lx in 0..30 {
            let i = idx(lx, ly);
            assert!(!seen[i], "index {i} hit twice");
            seen[i] = true;
        }
    }
    assert!(seen.iter().all(|&s| s));
}

#[test]
fn out_of_range_is_none() {
    assert_eq!(DisplayDriver::get_pixel_index(30, 0), None);
    assert_eq!(DisplayDriver::get_pixel_index(0, 10), None);
}

#[test]
fn the_string_is_the_status_led_and_then_the_matrix() {
    let mut display = DisplayDriver::new_simulated();
    display.set_status_color(RGB8::new(200, 100, 50));
    let mut image = [0u8; 300];
    image[0] = 7; // top left of the first panel
    image[9 * 30 + 20] = 9; // bottom left of the last panel
    display.set_image(&image);
    let pixels = display.compose_strip(0);
    assert_eq!(pixels.len(), STRIP_LEN);
    assert_eq!(pixels[0], RGB8::new(24, 12, 6));
    assert_eq!(pixels[SACRIFICIAL_LEDS + 209], RGB8::new(7, 7, 7));
    assert_eq!(pixels[SACRIFICIAL_LEDS], RGB8::new(9, 9, 9));
    assert_eq!(pixels.iter().skip(1).filter(|p| **p != RGB8::default()).count(), 2);
}

#[test]
fn the_status_led_breathes() {
    let mut display = DisplayDriver::new_simulated();
    display.set_status_color(RGB8::new(100, 0, 0));
    let levels: Vec<u8> = (0..9).map(|tick| display.compose_strip(tick)[0].r).collect();
    assert_eq!(levels, vec![12, 100, 75, 56, 42, 31, 24, 18, 12]);
}

#[test]
fn colours_are_scaled_and_rounded_down() {
    assert_eq!(DisplayDriver::scale_color(RGB8::new(255, 99, 1), 50), RGB8::new(127, 49, 0));
    assert_eq!(DisplayDriver::scale_color(RGB8::new(255, 99, 1), 100), RGB8::new(255, 99, 1));
}

#[test]
fn an_update_is_shown_in_place_of_the_image() {
    let mut display = DisplayDriver::new_simulated();
    display.set_image(&[50; 300]);
    display.begin_update();
    assert_eq!(display.update_progress(), Some(0));
    assert_eq!(display.shown_image(), [0; 300]);
    display.set_update_progress(34);
    let shown = display.shown_image();
    // 34 percent of 30 columns, rounded down
    for y in 0..10 {
        for x in 0..30 {
            assert_eq!(shown[y * 30 + x], if x < 10 { 100 } else { 0 });
        }
    }
    display.set_update_progress(100);
    assert_eq!(display.shown_image(), [100; 300]);
    display.end_update();
    assert_eq!(display.update_progress(), None);
    assert_eq!(display.shown_image(), [50; 300]);
}

#[test]
fn settings_are_kept_in_range() {
    let mut display = DisplayDriver::new_simulated();
    let cfg = display.marquee_config();
    assert_eq!(cfg.text, "CAMBRIDGE HACKSPACE :)");
    assert_eq!((cfg.speed_ms, cfg.orientation, cfg.direction), (100, 0, 1));
    assert_eq!((cfg.panel_margin, cfg.margin_applies_streams), (0, false));

    display.set_marquee_text(&"\u{e9}".repeat(80));
    display.set_marquee_speed_ms(7);
    display.set_panel_margin(200);
    display.set_margin_applies_streams(true);
    display.set_direction(0);
    display.set_orientation(1);
    let cfg = display.marquee_config();
    assert_eq!(cfg.text, "\u{e9}".repeat(64));
    assert_eq!((cfg.speed_ms, cfg.orientation, cfg.direction), (20, 1, 2));
    assert_eq!((cfg.panel_margin, cfg.margin_applies_streams), (20, true));

    display.set_direction(3);
    assert_eq!(display.marquee_config().direction, 3);
    display.set_direction(0); // belongs to the other axis
    assert_eq!(display.marquee_config().direction, 2);
    display.set_orientation(9); // no such code
    let cfg = display.marquee_config();
    assert_eq!((cfg.orientation, cfg.direction), (0, 1));
    display.set_marquee_speed_ms(10_000);
    assert_eq!(display.marquee_config().speed_ms, 500);
}

#[test]
fn speeds_are_clamped() {
    assert_eq!(clamp_speed_ms(0), 20);
    assert_eq!(clamp_speed_ms(20), 20);
    assert_eq!(clamp_speed_ms(333), 333);
    assert_eq!(clamp_speed_ms(500), 500);
    assert_eq!(clamp_speed_ms(u16::MAX), 500);
}

#[test]
fn the_test_result_is_kept() {
    let mut display = DisplayDriver::new_simulated();
    assert_eq!(display.wifi_test(), WifiTestResult::Idle);
    display.set_wifi_test(WifiTestResult::Failed);
    assert_eq!(display.wifi_test(), WifiTestResult::Failed);
}

#[test]
fn the_fallback_settings_are_those_at_power_on() {
    let a = MarqueeConfig::defaults();
    let b = DisplayDriver::new_simulated().marquee_config();
    assert_eq!(a.text, b.text);
    assert_eq!((a.speed_ms, a.orientation, a.direction), (b.speed_ms, b.orientation, b.direction));
    assert_eq!(
        (a.panel_margin, a.margin_applies_streams),
        (b.panel_margin, b.margin_applies_streams)
    );
}

#[test]
fn the_console_shows_two_characters_a_pixel() {
    let mut image = [0u8; 300];
    image[0] = 6;
    image[1] = 5;
    image[299] = 255;
    let text = console_text(&image);
    let lines: Vec<&str> = text.split('\n').collect();
    let edge = format!("+{}+", "-".repeat(60));
    assert_eq!(lines.len(), 14);
    assert_eq!(lines[0], "");
    assert_eq!(lines[1], edge);
    assert_eq!(lines[2], format!("|\u{a6}\u{a6}{}|", " ".repeat(58)));
    assert_eq!(lines[3], format!("|{}|", " ".repeat(60)));
    assert_eq!(lines[11], format!("|{}\u{a6}\u{a6}|", " ".repeat(58)));
    assert_eq!(lines[12], edge);
    assert_eq!(lines[13], "");
}
