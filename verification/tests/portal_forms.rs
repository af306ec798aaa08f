//! Forms, what they change, and what is stored.

use std::collections::HashMap;

use traffic_light_display::auth::AuthPolicy;
use traffic_light_display::boot::{boot_plan, finish_test, request_setup, show_joined};
use traffic_light_display::boot::{show_setup, show_trouble};
use traffic_light_display::boot::{BootPlan, Button, CredentialTest, Join, JoinStep};
use traffic_light_display::display::{DisplayDriver, WifiTestResult, RGB8};
use traffic_light_display::form::{body_read_len, body_text, parse_form, urldecode};
use traffic_light_display::html::{html_escape, js_string};
use traffic_light_display::networks::scan_ssids;
use traffic_light_display::portal::{direction_options_html, wifi_status_class, wifi_status_text};
use traffic_light_display::settings::{auth_change, network_change, preview, read_listen_port};
use traffic_light_display::settings::{save, seed_marquee_from_nvs, AuthChange, StoredDisplay};
use traffic_light_display::store::{needs_write, StoreOp, StoreValue};
use traffic_light_display::text::{eq_ignore_ascii_case, hex_val, is_white_space, parse_u16};
use traffic_light_display::text::{parse_u8, push_decimal, push_hex, same_text, split_once, trim};
use traffic_light_display::text::truncate_chars;
use traffic_light_display::version::{hex_string, version_body, VersionInfo};

fn shown(op: &StoreOp) -> String {
    let value = match &op.value {
        Some(StoreValue::Text(t)) => format!("text {}", t),
        Some(StoreValue::Byte(b)) => format!("byte {}", b),
        Some(StoreValue::Word(w)) => format!("word {}", w),
        None => "removed".to_string(),
    };
    format!("{}/{} = {}", op.namespace, op.key, value)
}

fn all_shown(ops: &[StoreOp]) -> Vec<String> {
    ops.iter().map(shown).collect()
}

fn open_policy() -> AuthPolicy {
    AuthPolicy::from_stored(None, None)
}

#[test]
fn tokens_are_percent_decoded() {
    assert_eq!(urldecode(""), "");
    assert_eq!(urldecode("a+b%20c"), "a b c");
    assert_eq!(urldecode("%41%6a%6A"), "Ajj");
    assert_eq!(urldecode("100%"), "100%");
    assert_eq!(urldecode("%4"), "%4");
    assert_eq!(urldecode("%zz%4g"), "%zz%4g");
    assert_eq!(urldecode("%%41"), "%A");
    assert_eq!(urldecode("caf%C3%A9"), "caf\u{e9}");
    assert_eq!(urldecode("\u{e9}%2B"), "\u{e9}+");
    // bytes that are not text are mended rather than refused
    assert_eq!(urldecode("a%FFb"), "a\u{fffd}b");
}

#[test]
fn any_text_survives_the_page() {
    for text in ["", "plain", "a&b=c+d%", "\u{1f6a6} \u{e9}\"<>'", "\u{0}\n\t"] {
        let mut sent = String::new();
        for b in text.bytes() {
            if b.is_ascii_alphanumeric() || b"-_.!~*'()".contains(&b) {
                sent.push(b as char);
            } else {
                sent.push_str(&format!("%{:02X}", b));
            }
        }
        assert_eq!(urldecode(&sent), text);
        let form = parse_form(&format!("x=1&{}v={}", sent, sent));
        assert_eq!(form.get(&format!("{}v", text)).unwrap(), text);
    }
}

#[test]
fn every_encoding_of_a_text_is_read_alike() {
    let text = "caf\u{e9} & co=1";
    for sent in [
        "caf%C3%A9+%26+co%3D1",
        "caf%c3%a9%20%26%20co%3d1",
        "caf\u{e9} %26 co=1",
        "%63%61%66\u{e9}+%26%20co=%31",
    ] {
        assert_eq!(urldecode(sent), text);
        assert_eq!(parse_form(&format!("a=1&v={}", sent)).get("v").unwrap(), text);
    }
}

#[test]
fn forms_are_split_into_fields() {
    let form = parse_form("a=1&b=2=3&&c&=no+name&d=&a=last&e%3D=f%26");
    assert_eq!(form.get("a").unwrap(), "last");
    assert_eq!(form.get("b").unwrap(), "2=3");
    assert_eq!(form.get("c").unwrap(), "");
    assert_eq!(form.get("d").unwrap(), "");
    assert_eq!(form.get("e=").unwrap(), "f&");
    assert!(form.get("").is_none());
    assert!(form.get("no name").is_none());
    assert!(parse_form("").get("").is_none());
}

#[test]
fn bodies_are_bounded_and_mended() {
    assert_eq!(body_read_len(None), 0);
    assert_eq!(body_read_len(Some(0)), 0);
    assert_eq!(body_read_len(Some(4095)), 4095);
    assert_eq!(body_read_len(Some(4096)), 4096);
    assert_eq!(body_read_len(Some(1 << 30)), 4096);
    assert_eq!(body_read_len(Some((1 << 32) + 5)), 4096);
    assert_eq!(body_read_len(Some(u64::MAX)), 4096);
    assert_eq!(body_text(b"a=b"), "a=b");
    assert_eq!(body_text(b"\xc3\xa9"), "\u{e9}");
    assert_eq!(body_text(b"a\xffb"), "a\u{fffd}b");
}

#[test]
fn a_preview_stores_nothing_and_shows_everything() {
    let mut display = DisplayDriver::new_simulated();
    let form = parse_form(
        "mq_text=hi+there&mq_speed_ms=50&mq_orient=3&mq_dir=3&panel_margin=99&margin_streams=1",
    );
    preview(&mut display, &form);
    let cfg = display.marquee_config();
    assert_eq!(cfg.text, "hi there");
    assert_eq!((cfg.speed_ms, cfg.orientation, cfg.direction), (50, 3, 3));
    assert_eq!((cfg.panel_margin, cfg.margin_applies_streams), (20, true));
    preview(&mut display, &parse_form("mq_speed_ms=fast&mq_orient=300&panel_margin=-1"));
    let cfg = display.marquee_config();
    assert_eq!((cfg.speed_ms, cfg.orientation, cfg.panel_margin), (50, 3, 20));
    preview(&mut display, &parse_form("margin_streams=yes&mq_orient=7"));
    let cfg = display.marquee_config();
    assert_eq!((cfg.orientation, cfg.direction, cfg.margin_applies_streams), (0, 1, false));
}

#[test]
fn a_save_stores_what_it_shows() {
    let mut display = DisplayDriver::new_simulated();
    let mut policy = open_policy();
    let form = parse_form(
        "mq_text=hi&mq_speed_ms=5&mq_orient=9&mq_dir=2&panel_margin=21&margin_streams=0&listen_port=5000",
    );
    let outcome = save(&form, &mut display, &mut policy, true, true);
    assert_eq!(
        all_shown(&outcome.ops),
        vec![
            "disp_cfg/mq_text = text hi",
            "disp_cfg/mq_speed_ms = word 20",
            "disp_cfg/mq_orient = byte 0",
            "disp_cfg/mq_dir = byte 1",
            "disp_cfg/panel_margin = byte 20",
            "disp_cfg/margin_strm = byte 0",
            "disp_cfg/listen_port = word 5000",
        ]
    );
    assert!(outcome.test.is_none());
    assert_eq!(outcome.reply, "saved");
    assert_eq!(display.wifi_test(), WifiTestResult::Idle);
    let mut previewed = DisplayDriver::new_simulated();
    preview(&mut previewed, &form);
    assert_eq!(previewed.marquee_config().text, display.marquee_config().text);
    assert_eq!(previewed.marquee_config().speed_ms, display.marquee_config().speed_ms);
}

#[test]
fn without_storage_the_settings_are_left_alone() {
    let mut display = DisplayDriver::new_simulated();
    let mut policy = open_policy();
    let outcome = save(&parse_form("mq_text=hi"), &mut display, &mut policy, false, false);
    assert!(outcome.ops.is_empty());
    assert_eq!(display.marquee_config().text, "CAMBRIDGE HACKSPACE :)");
}

#[test]
fn a_zero_port_is_not_stored() {
    let mut display = DisplayDriver::new_simulated();
    let mut policy = open_policy();
    let outcome = save(&parse_form("listen_port=0"), &mut display, &mut policy, true, false);
    assert!(outcome.ops.is_empty());
    assert_eq!(read_listen_port(Some(0)), 4048);
    assert_eq!(read_listen_port(None), 4048);
    assert_eq!(read_listen_port(Some(5000)), 5000);
}

#[test]
fn a_network_is_tested_only_where_there_is_someone_to_do_it() {
    let form = parse_form("ssid=+lab+&password=s%26cret");
    let stored = vec![
        "wifi_cfg/ssid = text lab",
        "wifi_cfg/pass = text s&cret",
        "wifi_cfg/wap_mode = byte 0",
    ];
    let mut display = DisplayDriver::new_simulated();
    let mut policy = open_policy();
    let outcome = save(&form, &mut display, &mut policy, true, true);
    assert_eq!(all_shown(&outcome.ops), stored);
    assert_eq!(outcome.test, Some(("lab".to_string(), "s&cret".to_string())));
    assert_eq!(outcome.reply, "saved-testing");
    assert_eq!(display.wifi_test(), WifiTestResult::Testing);

    let mut display = DisplayDriver::new_simulated();
    let outcome = save(&form, &mut display, &mut policy, true, false);
    assert_eq!(all_shown(&outcome.ops), stored);
    assert_eq!(outcome.test, None);
    assert_eq!(outcome.reply, "saved");
    assert_eq!(display.wifi_test(), WifiTestResult::Idle);
}

#[test]
fn a_blank_network_changes_nothing() {
    assert!(network_change(&parse_form("ssid=&password=x")).is_none());
    assert!(network_change(&parse_form("ssid=+%09+&password=x")).is_none());
    assert!(network_change(&parse_form("password=x")).is_none());
    assert_eq!(
        network_change(&parse_form("ssid=open")),
        Some(("open".to_string(), String::new()))
    );
}

#[test]
fn a_portal_password_takes_effect_at_once() {
    let mut display = DisplayDriver::new_simulated();
    let mut policy = open_policy();
    let form = parse_form("portal_user=+me+&portal_pass=+secret+");
    let outcome = save(&form, &mut display, &mut policy, true, true);
    assert_eq!(
        all_shown(&outcome.ops),
        vec!["sec_cfg/user = text me", "sec_cfg/pass = text  secret "]
    );
    assert_eq!((policy.user.as_str(), policy.pass.as_str()), ("me", " secret "));

    save(&parse_form("portal_user=x&portal_pass="), &mut display, &mut policy, true, true);
    assert_eq!((policy.user.as_str(), policy.pass.as_str()), ("me", " secret "));

    save(&parse_form("portal_user=+&portal_pass=p"), &mut display, &mut policy, true, true);
    assert_eq!((policy.user.as_str(), policy.pass.as_str()), ("admin", "p"));

    let outcome = save(
        &parse_form("portal_clear=1&portal_pass=q"),
        &mut display,
        &mut policy,
        true,
        true,
    );
    assert_eq!(all_shown(&outcome.ops), vec!["sec_cfg/user = removed", "sec_cfg/pass = removed"]);
    assert_eq!((policy.user.as_str(), policy.pass.as_str()), ("admin", ""));
    assert!(matches!(auth_change(&parse_form("portal_clear=2")), AuthChange::Keep));
}

#[test]
fn what_is_saved_is_what_boots() {
    let mut display = DisplayDriver::new_simulated();
    let mut policy = open_policy();
    let form = parse_form(
        "mq_text=%C3%A9&mq_speed_ms=30&mq_orient=1&mq_dir=3&panel_margin=4&margin_streams=1",
    );
    let outcome = save(&form, &mut display, &mut policy, true, true);
    let mut found = StoredDisplay {
        text: None,
        speed_ms: None,
        orientation: None,
        direction: None,
        panel_margin: None,
        margin_streams: None,
    };
    for op in outcome.ops {
        match (op.key, op.value) {
            ("mq_text", Some(StoreValue::Text(t))) => found.text = Some(t),
            ("mq_speed_ms", Some(StoreValue::Word(w))) => found.speed_ms = Some(w),
            ("mq_orient", Some(StoreValue::Byte(b))) => found.orientation = Some(b),
            ("mq_dir", Some(StoreValue::Byte(b))) => found.direction = Some(b),
            ("panel_margin", Some(StoreValue::Byte(b))) => found.panel_margin = Some(b),
            ("margin_strm", Some(StoreValue::Byte(b))) => found.margin_streams = Some(b),
            _ => panic!("unexpected key"),
        }
    }
    let mut booted = DisplayDriver::new_simulated();
    seed_marquee_from_nvs(&mut booted, &found);
    let (a, b) = (booted.marquee_config(), display.marquee_config());
    assert_eq!(a.text, b.text);
    assert_eq!((a.speed_ms, a.orientation, a.direction), (30, 1, 3));
    assert_eq!((b.speed_ms, b.orientation, b.direction), (30, 1, 3));
    assert_eq!((a.panel_margin, a.margin_applies_streams), (4, true));
    assert_eq!((b.panel_margin, b.margin_applies_streams), (4, true));
}

#[test]
fn a_full_form_boots_as_it_shows_whatever_was_live() {
    let form = parse_form(
        "mq_text=hi&mq_speed_ms=9&mq_orient=2&mq_dir=0&panel_margin=3&margin_streams=0\
         &ssid=home&password=secret&portal_user=me&portal_pass=pw",
    );
    // live settings that were only previewed, and others left in storage
    let mut display = DisplayDriver::new_simulated();
    display.set_orientation(1);
    display.set_direction(3);
    display.set_panel_margin(7);
    let mut policy = open_policy();
    let mut storage = HashMap::new();
    storage.insert(("disp_cfg", "mq_dir"), "byte 2".to_string());
    storage.insert(("disp_cfg", "mq_text"), "text old".to_string());
    for op in save(&form, &mut display, &mut policy, true, true).ops {
        let line = shown(&op);
        storage.insert((op.namespace, op.key), line.split_once(" = ").unwrap().1.to_string());
    }
    let number = |key| {
        let value: &String = &storage[&("disp_cfg", key)];
        value.split_once(' ').unwrap().1.parse::<u16>().unwrap()
    };
    let found = StoredDisplay {
        text: storage[&("disp_cfg", "mq_text")].strip_prefix("text ").map(str::to_string),
        speed_ms: Some(number("mq_speed_ms")),
        orientation: Some(number("mq_orient") as u8),
        direction: Some(number("mq_dir") as u8),
        panel_margin: Some(number("panel_margin") as u8),
        margin_streams: Some(number("margin_strm") as u8),
    };
    let mut booted = DisplayDriver::new_simulated();
    seed_marquee_from_nvs(&mut booted, &found);
    let (a, b) = (booted.marquee_config(), display.marquee_config());
    assert_eq!(a.text, "hi");
    assert_eq!(b.text, "hi");
    assert_eq!((a.speed_ms, a.orientation, a.direction), (b.speed_ms, 2, 0));
    assert_eq!((b.orientation, b.direction), (2, 0));
    assert_eq!((a.panel_margin, a.margin_applies_streams), (3, false));
    assert_eq!((b.panel_margin, b.margin_applies_streams), (3, false));
    // the same form's credentials are found under their own namespaces
    assert_eq!(storage[&("wifi_cfg", "ssid")], "text home");
    assert_eq!(storage[&("wifi_cfg", "pass")], "text secret");
    assert_eq!(storage[&("sec_cfg", "user")], "text me");
    assert_eq!(storage[&("sec_cfg", "pass")], "text pw");
}

#[test]
fn only_changed_values_are_written() {
    let text = |t: &str| StoreValue::Text(t.to_string());
    assert!(needs_write(&None, &text("a")));
    assert!(!needs_write(&Some(text("a")), &text("a")));
    assert!(needs_write(&Some(text("a")), &text("b")));
    assert!(!needs_write(&Some(StoreValue::Byte(1)), &StoreValue::Byte(1)));
    assert!(needs_write(&Some(StoreValue::Byte(1)), &StoreValue::Byte(2)));
    assert!(!needs_write(&Some(StoreValue::Word(1)), &StoreValue::Word(1)));
    assert!(needs_write(&Some(StoreValue::Word(1)), &StoreValue::Byte(1)));
}

#[test]
fn markup_and_scripts_are_escaped() {
    assert_eq!(html_escape("<a href=\"x\">&amp;'"), "&lt;a href=&quot;x&quot;&gt;&amp;amp;'");
    assert_eq!(html_escape(""), "");
    assert_eq!(js_string("plain"), "\"plain\"");
    assert_eq!(
        js_string("\"\\\n\r\t</script>&\u{1}\u{1f}\u{e9}"),
        "\"\\\"\\\\\\n\\r\\t\\u003c/script\\u003e\\u0026\\u0001\\u001f\u{e9}\""
    );
}

#[test]
fn direction_choices_follow_the_mount() {
    assert_eq!(
        direction_options_html(0, 1),
        "<option value=\"1\" selected>Right to left</option><option value=\"0\" >Left to right</option>"
    );
    assert_eq!(
        direction_options_html(3, 3),
        "<option value=\"2\" >Top to bottom</option><option value=\"3\" selected>Bottom to top</option>"
    );
}

#[test]
fn the_test_result_has_a_word_and_a_sentence() {
    let mut display = DisplayDriver::new_simulated();
    let all = [
        (WifiTestResult::Idle, "idle", "Connected network unchanged unless you pick a new one."),
        (WifiTestResult::Testing, "testing", "Testing connection..."),
        (WifiTestResult::Success, "success", "Last test: connected successfully."),
        (WifiTestResult::Failed, "failed", "Last test: connection failed."),
    ];
    for (result, word, sentence) in all {
        display.set_wifi_test(result);
        assert_eq!(wifi_status_class(&display), word);
        assert_eq!(wifi_status_text(&display), sentence);
    }
}

#[test]
fn networks_are_listed_once_and_in_order() {
    let found: Vec<String> = ["lab", "", "attic", "lab", "Lab", "\u{e9}t\u{e9}", "la", "\u{1f6a6}"]
        .iter()
        .map(|s| s.to_string())
        .collect();
    let mut expected: Vec<String> = Vec::new();
    for s in &found {
        if !s.is_empty() && !expected.contains(s) {
            expected.push(s.clone());
        }
    }
    expected.sort();
    assert_eq!(scan_ssids(&found), expected);
    assert_eq!(expected[0], "Lab");
    assert!(scan_ssids(&[]).is_empty());
}

#[test]
fn a_boot_joins_unless_setup_was_asked_for() {
    let some = |s: &str| Some(s.to_string());
    match boot_plan(some("lab"), some("pw"), None) {
        BootPlan::Join { ssid, pass } => assert_eq!((ssid.as_str(), pass.as_str()), ("lab", "pw")),
        BootPlan::Setup => panic!("should join"),
    }
    match boot_plan(some("lab"), None, Some(2)) {
        BootPlan::Join { ssid, pass } => assert_eq!((ssid.as_str(), pass.as_str()), ("lab", "")),
        BootPlan::Setup => panic!("should join"),
    }
    assert!(matches!(boot_plan(some("lab"), some("pw"), Some(1)), BootPlan::Setup));
    assert!(matches!(boot_plan(None, some("pw"), Some(0)), BootPlan::Setup));
}

#[test]
fn the_button_has_to_be_held() {
    let mut button = Button::new();
    for _ in 0..49 {
        assert!(!button.look(true));
    }
    assert!(!button.look(false));
    for _ in 0..49 {
        assert!(!button.look(true));
    }
    assert!(button.look(true));
    assert!(button.look(true));
    assert_eq!(
        all_shown(&request_setup()),
        vec!["wifi_cfg/wap_mode = byte 1", "sec_cfg/user = removed", "sec_cfg/pass = removed"]
    );
}

#[test]
fn joining_gets_three_attempts() {
    let mut join = Join::new();
    for n in 1..=300 {
        let step = join.look(false);
        let expected = if n == 300 {
            JoinStep::GiveUp
        } else if n % 100 == 0 {
            JoinStep::Retry
        } else {
            JoinStep::Wait
        };
        assert_eq!(step, expected);
    }
    assert_eq!(Join::new().look(true), JoinStep::Connected);
}

#[test]
fn a_credential_test_ends() {
    let mut test = CredentialTest::new();
    for _ in 0..79 {
        assert_eq!(test.look(false), None);
    }
    assert_eq!(test.look(true), Some(true));
    assert_eq!(test.look(false), Some(false));
    let mut display = DisplayDriver::new_simulated();
    finish_test(&mut display, true);
    assert_eq!(display.wifi_test(), WifiTestResult::Success);
    finish_test(&mut display, false);
    assert_eq!(display.wifi_test(), WifiTestResult::Failed);
}

#[test]
fn a_boot_shows_how_it_goes() {
    let mut display = DisplayDriver::new_simulated();
    show_trouble(&mut display);
    assert_eq!(display.compose_strip(1)[0], RGB8::new(50, 0, 0));
    show_setup(&mut display);
    assert_eq!(display.compose_strip(1)[0], RGB8::new(0, 0, 50));
    show_joined(&mut display);
    assert_eq!(display.compose_strip(1)[0], RGB8::new(0, 50, 0));
    assert_eq!(display.image(), &[100; 300]);
}

#[test]
fn the_version_is_a_json_object() {
    let info = VersionInfo {
        name: "traffic-light-display".to_string(),
        version: "0.3.0".to_string(),
        idf: "v5.3".to_string(),
        partition: "ota_0".to_string(),
        elf_sha256: hex_string(&[0x00, 0x0f, 0xa5, 0xff]),
        ota_state: "valid".to_string(),
        uptime_ms: 12_345,
    };
    assert_eq!(
        version_body(&info),
        concat_all(&[
            "{\"name\":\"traffic-light-display\",\"version\":\"0.3.0\",\"idf\":\"v5.3\",",
            "\"partition\":\"ota_0\",\"elf_sha256\":\"000fa5ff\",",
            "\"ota_state\":\"valid\",\"uptime_ms\":12345}",
        ])
    );
}

fn concat_all(parts: &[&str]) -> String {
    parts.concat()
}

#[test]
fn white_space_is_what_unicode_says() {
    for code in 0..=0x10_ffff_u32 {
        if let Some(c) = char::from_u32(code) {
            assert_eq!(is_white_space(c), c.is_whitespace(), "{:x}", code);
        }
    }
}

#[test]
fn texts_are_trimmed_split_and_cut() {
    for s in ["", " ", "  a b\t", "\u{3000}x\u{85}", "no", "\u{e9} "] {
        assert_eq!(trim(s), s.trim());
    }
    for s in ["", ":", "a:b", "a:b:c", ":x", "x:", "none", "\u{e9}:\u{1f6a6}"] {
        assert_eq!(split_once(s, ':'), s.split_once(':'));
    }
    assert_eq!(truncate_chars("h\u{e9}llo", 2), "h\u{e9}");
    assert_eq!(truncate_chars("h\u{e9}llo", 0), "");
    assert_eq!(truncate_chars("h\u{e9}llo", 9), "h\u{e9}llo");
    assert!(eq_ignore_ascii_case("BaSic", "basic"));
    assert!(!eq_ignore_ascii_case("basic", "basics"));
    assert!(!eq_ignore_ascii_case("\u{c9}", "\u{e9}"));
    assert!(same_text("\u{e9}", "\u{e9}"));
    assert!(!same_text("a", "b"));
}

#[test]
fn numbers_are_read_as_the_standard_library_reads_them() {
    let texts = [
        "", "+", "-1", "0", "+7", "007", "255", "256", "65535", "65536", "99999999999999999999",
        " 1", "1 ", "1a", "++1", "\u{661}", "0000000000000000000000001",
    ];
    for s in texts {
        assert_eq!(parse_u8(s), s.parse::<u8>().ok(), "{:?}", s);
        assert_eq!(parse_u16(s), s.parse::<u16>().ok(), "{:?}", s);
    }
}

#[test]
fn numbers_are_written_as_the_standard_library_writes_them() {
    for n in [0, 9, 10, 4048, u64::MAX] {
        let mut out = String::from("n=");
        push_decimal(&mut out, n);
        assert_eq!(out, format!("n={}", n));
    }
    for n in [0, 1, 15, 16, 255, 0xdead_beef] {
        let mut out = String::new();
        push_hex(&mut out, n, 4);
        assert_eq!(out, format!("{:04x}", n));
    }
    for b in 0..=255u8 {
        assert_eq!(hex_val(b).map(u32::from), (b as char).to_digit(16));
    }
}

#[test]
fn the_list_does_not_depend_on_the_order_of_the_scan() {
    let strings = |names: &[&str]| -> Vec<String> { names.iter().map(|s| s.to_string()).collect() };
    assert_eq!(
        scan_ssids(&strings(&["b", "a", "c", "a"])),
        scan_ssids(&strings(&["c", "b", "", "a"]))
    );
}

#[test]
fn a_saved_network_is_tried_and_the_button_takes_it_back() {
    let mut stored: Vec<(String, String)> = Vec::new();
    let apply = |stored: &mut Vec<(String, String)>, ops: &[StoreOp]| {
        for op in ops {
            let place = format!("{}/{}", op.namespace, op.key);
            stored.retain(|(p, _)| *p != place);
            match &op.value {
                Some(StoreValue::Text(t)) => stored.push((place, t.clone())),
                Some(StoreValue::Byte(b)) => stored.push((place, b.to_string())),
                Some(StoreValue::Word(w)) => stored.push((place, w.to_string())),
                None => {}
            }
        }
    };
    let find = |stored: &Vec<(String, String)>, place: &str| {
        stored.iter().find(|(p, _)| p == place).map(|(_, v)| v.clone())
    };
    let plan = |stored: &Vec<(String, String)>| {
        boot_plan(
            find(stored, "wifi_cfg/ssid"),
            find(stored, "wifi_cfg/pass"),
            find(stored, "wifi_cfg/wap_mode").map(|v| v.parse().unwrap()),
        )
    };
    let mut display = DisplayDriver::new_simulated();
    let mut policy = open_policy();

    apply(&mut stored, &request_setup());
    assert!(matches!(plan(&stored), BootPlan::Setup));
    let form = parse_form("ssid=lab&password=pw&portal_pass=secret");
    apply(&mut stored, &save(&form, &mut display, &mut policy, true, false).ops);
    assert!(matches!(plan(&stored), BootPlan::Join { ssid, pass } if ssid == "lab" && pass == "pw"));
    assert_eq!(find(&stored, "sec_cfg/pass").unwrap(), "secret");
    apply(&mut stored, &request_setup());
    assert!(matches!(plan(&stored), BootPlan::Setup));
    let policy = AuthPolicy::from_stored(find(&stored, "sec_cfg/user"), find(&stored, "sec_cfg/pass"));
    assert!(!policy.is_configured());
}
