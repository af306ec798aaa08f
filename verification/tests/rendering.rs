//! The marquee, streamed frames and the panels they land on.

use traffic_light_display::animation::{Animation, MarqueeClock};
use traffic_light_display::display::{DisplayDriver, RGB8};
use traffic_light_display::font::normalize_char;
use traffic_light_display::frame::{apply_orientation, stream_frame_contiguous};
use traffic_light_display::frame::stream_frame_with_gaps;
use traffic_light_display::marquee::{marquee_span, render_marquee};
use traffic_light_display::panels::{clamp_direction, orientation_is_vertical, orientation_parts};
use traffic_light_display::panels::{virtual_major, virtual_to_physical_major};

const MS: u64 = 1_000_000;

fn marquee(text: &str, offset: usize, orientation: u8, direction: u8, margin: u8) -> [u8; 300] {
    let mut img = [7u8; 300];
    render_marquee(text, offset, orientation, direction, margin, &mut img);
    img
}

fn column(img: &[u8; 300], x: usize) -> Vec<u8> {
    (0..10).map(|y| img[y * 30 + x]).collect()
}

#[test]
fn gaps_lie_between_the_panels() {
    assert_eq!(virtual_major(0), 30);
    assert_eq!(virtual_major(20), 70);
    assert_eq!(virtual_major(255), 540);
    for v in 0..30 {
        assert_eq!(virtual_to_physical_major(v, 0), Some(v));
    }
    assert_eq!(virtual_to_physical_major(30, 0), None);
    assert_eq!(virtual_to_physical_major(9, 3), Some(9));
    assert_eq!(virtual_to_physical_major(10, 3), None);
    assert_eq!(virtual_to_physical_major(12, 3), None);
    assert_eq!(virtual_to_physical_major(13, 3), Some(10));
    assert_eq!(virtual_to_physical_major(22, 3), Some(19));
    assert_eq!(virtual_to_physical_major(25, 3), None);
    assert_eq!(virtual_to_physical_major(26, 3), Some(20));
    assert_eq!(virtual_to_physical_major(35, 3), Some(29));
    assert_eq!(virtual_to_physical_major(36, 3), None);
    assert_eq!(virtual_to_physical_major(usize::MAX, 3), None);
}

#[test]
fn mounts_have_an_axis_and_a_flip() {
    assert_eq!(orientation_parts(0), (false, false));
    assert_eq!(orientation_parts(1), (true, false));
    assert_eq!(orientation_parts(2), (false, true));
    assert_eq!(orientation_parts(3), (true, true));
    assert_eq!(orientation_parts(4), (false, false));
    assert!(!orientation_is_vertical(2));
    assert!(orientation_is_vertical(3));
    assert_eq!(clamp_direction(0, 0), 0);
    assert_eq!(clamp_direction(0, 2), 1);
    assert_eq!(clamp_direction(1, 3), 3);
    assert_eq!(clamp_direction(3, 1), 2);
    assert_eq!(clamp_direction(2, 200), 1);
}

#[test]
fn half_a_turn_undoes_itself() {
    let mut src = [0u8; 300];
    for (i, b) in src.iter_mut().enumerate() {
        *b = (i % 251) as u8;
    }
    let mut img = src;
    apply_orientation(&mut img, 2);
    assert_eq!(img[0], src[299]);
    assert_ne!(img, src);
    apply_orientation(&mut img, 2);
    assert_eq!(img, src);
    apply_orientation(&mut img, 0);
    assert_eq!(img, src);
    apply_orientation(&mut img, 77);
    assert_eq!(img, src);
}

#[test]
fn quarter_turns_put_the_first_pixel_in_a_corner() {
    let mut img = [0u8; 300];
    img[0] = 1;
    img[9] = 2; // end of the first row of a frame ten wide
    img[290] = 3; // start of its last row
    let mut one = img;
    apply_orientation(&mut one, 1);
    assert_eq!((one[29], one[299], one[0]), (1, 2, 3));
    let mut three = img;
    apply_orientation(&mut three, 3);
    assert_eq!((three[270], three[0], three[299]), (1, 2, 3));
}

#[test]
fn characters_are_mapped_onto_the_font() {
    assert_eq!(normalize_char(b'a'), b'A');
    assert_eq!(normalize_char(b'z'), b'Z');
    assert_eq!(normalize_char(b'`'), b'`');
    assert_eq!(normalize_char(b'{'), b' ');
    assert_eq!(normalize_char(0), b' ');
    assert_eq!(normalize_char(31), b' ');
    assert_eq!(normalize_char(200), b' ');
    assert_eq!(normalize_char(b' '), b' ');
}

#[test]
fn a_letter_is_drawn_upright() {
    let img = marquee("a", 0, 0, 1, 0);
    assert_eq!(column(&img, 0), vec![0, 0, 100, 100, 100, 100, 100, 100, 0, 0]);
    assert_eq!(column(&img, 1), vec![0, 100, 0, 0, 0, 100, 0, 0, 0, 0]);
    assert_eq!(column(&img, 5), vec![0; 10]);
    assert_eq!(column(&img, 6), column(&img, 0));
}

#[test]
fn scrolling_moves_one_column_a_step() {
    let text = "HI!";
    for step in 0..40 {
        let now = marquee(text, step, 0, 1, 0);
        let next = marquee(text, step + 1, 0, 1, 0);
        for x in 0..29 {
            assert_eq!(column(&next, x), column(&now, x + 1));
        }
        let back = marquee(text, step, 0, 0, 0);
        let back_next = marquee(text, step + 1, 0, 0, 0);
        for x in 0..29 {
            assert_eq!(column(&back_next, x + 1), column(&back, x));
        }
    }
}

// The picture as the viewer of a vertical mount sees it: ten wide, row 0 on top.
fn row(img: &[u8; 300], orientation: u8, r: usize) -> Vec<u8> {
    (0..10)
        .map(|x| match orientation {
            1 => img[x * 30 + 29 - r],
            _ => img[(9 - x) * 30 + r],
        })
        .collect()
}

#[test]
fn vertical_scrolling_goes_the_way_it_is_called() {
    let text = "Go 4";
    for orientation in [1, 3] {
        for step in 0..40 {
            let down = marquee(text, step, orientation, 2, 0);
            let down_next = marquee(text, step + 1, orientation, 2, 0);
            let up = marquee(text, step, orientation, 3, 0);
            let up_next = marquee(text, step + 1, orientation, 3, 0);
            for r in 1..30 {
                assert_eq!(row(&down_next, orientation, r), row(&down, orientation, r - 1));
                assert_eq!(row(&up_next, orientation, r - 1), row(&up, orientation, r));
            }
        }
        // a direction along the other axis counts as top to bottom
        assert_eq!(marquee(text, 3, orientation, 0, 0), marquee(text, 3, orientation, 2, 0));
    }
}

#[test]
fn a_gap_is_crossed_in_as_many_steps_as_it_is_wide() {
    for step in 0..40 {
        let now = marquee("Go 4", step, 1, 2, 5);
        let later = marquee("Go 4", step + 6, 1, 2, 5);
        assert_eq!(row(&later, 1, 10), row(&now, 1, 9));
        assert_eq!(row(&later, 1, 20), row(&now, 1, 19));
    }
}

#[test]
fn opposite_directions_run_the_same_pictures() {
    for (orientation, there, back) in [(0, 1, 0), (2, 0, 1), (1, 2, 3), (3, 3, 2)] {
        let span = marquee_span("ok?", orientation);
        for k in 0..=span {
            assert_eq!(
                marquee("ok?", k, orientation, there, 1),
                marquee("ok?", span - k, orientation, back, 1)
            );
        }
    }
}

#[test]
fn an_inverted_mount_is_half_a_turn() {
    for (upright, inverted) in [(0, 2), (1, 3)] {
        for direction in 0..4 {
            let mut turned = marquee("Ab", 7, upright, direction, 2);
            apply_orientation(&mut turned, 2);
            assert_eq!(marquee("Ab", 7, inverted, direction, 2), turned);
            assert!(turned.iter().all(|&b| b == 0 || b == 100));
            assert!(turned.iter().any(|&b| b == 100));
        }
    }
}

#[test]
fn the_marquee_repeats_after_its_span() {
    assert_eq!(marquee_span("", 0), 0);
    assert_eq!(marquee_span("abc", 0), 18);
    assert_eq!(marquee_span("abc", 2), 18);
    assert_eq!(marquee_span("abc", 1), 24);
    assert_eq!(marquee_span("\u{e9}", 3), 16);
    assert_eq!(marquee_span(&"x".repeat(100), 0), 384);
    for orientation in 0..4 {
        for direction in 0..4 {
            let span = marquee_span("A1", orientation);
            assert_eq!(
                marquee("A1", 5, orientation, direction, 2),
                marquee("A1", 5 + span, orientation, direction, 2)
            );
        }
    }
    assert_eq!(marquee("", 3, 0, 1, 0), [0; 300]);
}

#[test]
fn a_margin_hides_what_falls_between_the_panels() {
    let wide = marquee("TRAFFIC LIGHT", 0, 0, 1, 4);
    let plain = marquee("TRAFFIC LIGHT", 0, 0, 1, 0);
    let shifted = marquee("TRAFFIC LIGHT", 4, 0, 1, 0);
    for x in 0..10 {
        assert_eq!(column(&wide, x), column(&plain, x));
        assert_eq!(column(&wide, 10 + x), column(&shifted, 10 + x));
    }
}

#[test]
fn the_seams_of_streams_and_marquee_agree() {
    // draw the marquee column by column onto the canvas that holds the gaps
    let (text, margin) = ("TRAFFIC LIGHT", 3);
    let wide = virtual_major(margin);
    let mut canvas = vec![0u8; wide * 10];
    for v in 0..wide {
        let first = column(&marquee(text, 11 + v, 0, 1, 0), 0);
        for y in 0..10 {
            canvas[y * wide + v] = first[y];
        }
    }
    assert_eq!(stream_frame_with_gaps(&canvas, 0, margin), marquee(text, 11, 0, 1, margin));
}

#[test]
fn vertical_text_is_centred() {
    // Before it is turned the frame is ten wide: the glyph starts in column 2.
    let img = marquee("!", 0, 3, 2, 0);
    let mut back = [0u8; 300];
    for x in 0..30 {
        for y in 0..10 {
            back[x * 10 + (9 - y)] = img[y * 30 + x];
        }
    }
    for row in 0..30 {
        for col in 0..10 {
            let lit = col == 4 && [0, 1, 2, 3, 6].contains(&(row % 8));
            assert_eq!(back[row * 10 + col], if lit { 100 } else { 0 });
        }
    }
}

#[test]
fn short_frames_are_black_at_the_end_and_long_ones_cut_off() {
    let img = stream_frame_contiguous(&[1, 2, 3]);
    assert_eq!(&img[..4], &[1, 2, 3, 0]);
    assert_eq!(img[299], 0);
    let long: Vec<u8> = (0..400).map(|i| (i % 256) as u8).collect();
    let img = stream_frame_contiguous(&long);
    assert_eq!(img.to_vec(), long[..300].to_vec());
}

#[test]
fn gap_pixels_of_a_frame_are_dropped() {
    // 34 wide: two dead columns after each of the first two panels
    let frame: Vec<u8> = (0..340).map(|i| (i % 34) as u8).collect();
    let img = stream_frame_with_gaps(&frame, 0, 2);
    for y in 0..10 {
        for x in 0..30 {
            assert_eq!(img[y * 30 + x] as usize, x + 2 * (x / 10));
        }
    }
    // on a vertical mount the gaps are whole rows
    let frame: Vec<u8> = (0..340).map(|i| (i / 10) as u8).collect();
    let img = stream_frame_with_gaps(&frame, 1, 2);
    for row in 0..30 {
        for x in 0..10 {
            assert_eq!(img[row * 10 + x] as usize, row + 2 * (row / 10));
        }
    }
    assert_eq!(stream_frame_with_gaps(&frame, 1, 0), stream_frame_contiguous(&frame));
}

#[test]
fn a_stream_keeps_the_marquee_away() {
    let mut display = DisplayDriver::new_simulated();
    let mut animation = Animation::start(0);
    animation.packet(&mut display, &[0; 10], MS);
    assert_eq!(display.image(), &[0; 300]);
    let mut packet = vec![0xff; 10];
    packet.extend([1, 2, 3]);
    animation.packet(&mut display, &packet, 2 * MS);
    assert_eq!(&display.image()[..4], &[1, 2, 3, 0]);
    animation.tick(&mut display, 5002 * MS);
    assert_eq!(&display.image()[..4], &[1, 2, 3, 0]);
    animation.tick(&mut display, 5003 * MS);
    assert_eq!(display.image(), &marquee("CAMBRIDGE HACKSPACE :)", 0, 0, 1, 0));
}

#[test]
fn streams_are_turned_and_trimmed_as_the_settings_say() {
    let mut display = DisplayDriver::new_simulated();
    display.set_orientation(2);
    display.set_panel_margin(2);
    let mut animation = Animation::start(0);
    let mut packet = vec![0; 10];
    packet.extend((0..340).map(|i| (i % 34) as u8));
    animation.packet(&mut display, &packet, 1);
    let mut expected = stream_frame_contiguous(&packet[10..]);
    apply_orientation(&mut expected, 2);
    assert_eq!(display.image(), &expected);
    display.set_margin_applies_streams(true);
    animation.packet(&mut display, &packet, 2);
    let mut expected = stream_frame_with_gaps(&packet[10..], 0, 2);
    apply_orientation(&mut expected, 2);
    assert_eq!(display.image(), &expected);
}

#[test]
fn the_marquee_steps_when_its_delay_has_passed() {
    let mut display = DisplayDriver::new_simulated();
    display.set_marquee_text("AB");
    let mut animation = Animation::start(0);
    animation.tick(&mut display, 100 * MS);
    assert_eq!(display.image(), &[0; 300]);
    animation.tick(&mut display, 100 * MS + 1);
    assert_eq!(display.image(), &marquee("AB", 0, 0, 1, 0));
    animation.tick(&mut display, 200 * MS);
    assert_eq!(display.image(), &marquee("AB", 0, 0, 1, 0));
    animation.tick(&mut display, 201 * MS);
    assert_eq!(display.image(), &marquee("AB", 1, 0, 1, 0));
    display.set_marquee_text("");
    animation.tick(&mut display, 400 * MS);
    assert_eq!(display.image(), &[0; 300]);
    display.set_marquee_text("C");
    animation.tick(&mut display, 600 * MS);
    assert_eq!(display.image(), &marquee("C", 0, 0, 1, 0));
}

#[test]
fn status_colours_take_turns() {
    let mut display = DisplayDriver::new_simulated();
    let mut animation = Animation::start(0);
    let expected = [(195, 78, 75), (61, 132, 175), (216, 163, 0), (137, 177, 8), (195, 78, 75)];
    animation.tick(&mut display, 1000 * MS);
    assert_eq!(display.compose_strip(1)[0], RGB8::new(0, 0, 0));
    for (i, (r, g, b)) in expected.into_iter().enumerate() {
        animation.tick(&mut display, (1001 + 1001 * i as u64) * MS);
        assert_eq!(display.compose_strip(1)[0], RGB8::new(r, g, b));
    }
}

#[test]
fn the_setup_screen_stands_still_during_an_update() {
    let mut display = DisplayDriver::new_simulated();
    display.set_marquee_text("AB");
    let mut clock = MarqueeClock::start(0);
    display.begin_update();
    clock.setup_tick(&mut display, 500 * MS);
    assert_eq!(display.image(), &[0; 300]);
    display.end_update();
    clock.setup_tick(&mut display, 500 * MS);
    assert_eq!(display.image(), &marquee("AB", 0, 0, 1, 0));
    clock.hold(700 * MS);
    clock.setup_tick(&mut display, 750 * MS);
    assert_eq!(display.image(), &marquee("AB", 0, 0, 1, 0));
    clock.marquee_tick(&mut display, 801 * MS);
    assert_eq!(display.image(), &marquee("AB", 1, 0, 1, 0));
}
