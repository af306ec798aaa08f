//! The setup page.

use traffic_light_display::auth::{AuthPolicy, AUTH_USER_DEFAULT};
use traffic_light_display::display::DisplayDriver;
use traffic_light_display::portal::{render_portal, PortalMode, RunningFirmware};

fn locked() -> AuthPolicy {
    AuthPolicy {
        user: AUTH_USER_DEFAULT.to_string(),
        pass: "hunter2".to_string(),
    }
}

fn open() -> AuthPolicy {
    AuthPolicy {
        user: AUTH_USER_DEFAULT.to_string(),
        pass: String::new(),
    }
}

fn page(mode: PortalMode) -> String {
    page_with(mode, &locked())
}

fn page_with(mode: PortalMode, auth: &AuthPolicy) -> String {
    let display = DisplayDriver::new_simulated();
    let firmware = RunningFirmware {
        version: "9.9.9".to_string(),
        slot: "ota_1".to_string(),
    };
    render_portal(&["lab".to_string()], &display, 4048, &mode, auth, &firmware)
}

#[test]
fn connected_portal_says_where_it_is_served_from_and_what_a_reboot_does() {
    let p = page(PortalMode::Connected {
        ip: "192.168.1.110".to_string(),
    });
    assert!(p.contains("Serving from the network at 192.168.1.110"));
    assert!(p.contains("falls back to its own setup access point"));
    assert!(p.contains("Reboot now? The light will be back on the network"));
    assert!(!p.contains("The setup portal will close."));
}

#[test]
fn setup_portal_keeps_its_original_wording() {
    let p = page(PortalMode::Setup);
    assert!(!p.contains("Serving from the network"));
    assert!(p.contains("Reboot now? The setup portal will close."));
}

#[test]
fn connected_note_escapes_whatever_it_is_given() {
    let p = page(PortalMode::Connected {
        ip: "<script>".to_string(),
    });
    assert!(!p.contains("at <script>"));
    assert!(p.contains("at &lt;script&gt;"));
}

#[test]
fn the_page_shows_what_is_running_and_offers_an_upload() {
    let p = page_with(PortalMode::Setup, &locked());
    assert!(p.contains("9.9.9 from ota_1"));
    assert!(p.contains("id=\"fw\""));
    assert!(p.contains("xhr.open(\"POST\", \"/ota\", true)"));
}

#[test]
fn an_unprotected_portal_does_not_offer_firmware_upload() {
    // The endpoint refuses in this state anyway; not drawing the control
    // is so the page says why rather than failing when it is used.
    let p = page_with(PortalMode::Setup, &open());
    assert!(!p.contains("id=\"fw\""));
    assert!(p.contains("Set a portal password above before uploading firmware"));
}

#[test]
fn a_portal_with_no_password_says_so_loudly() {
    let p = page_with(PortalMode::Setup, &open());
    assert!(p.contains("No portal password is set"));
}

#[test]
fn a_portal_with_a_password_does_not_nag() {
    let p = page_with(PortalMode::Setup, &locked());
    assert!(!p.contains("No portal password is set"));
}

#[test]
fn the_page_never_echoes_the_stored_password_back() {
    // The password field is write-only by design: the page offers somewhere
    // to type a new one and nothing that would leak the current one to a
    // browser cache, a screenshot or a shoulder.
    let p = page_with(PortalMode::Setup, &locked());
    assert!(!p.contains("hunter2"));
    assert!(p.contains("id=\"portal_pass\""));
}

#[test]
fn the_username_is_escaped_like_everything_else() {
    let p = page_with(
        PortalMode::Setup,
        &AuthPolicy {
            user: "a\"><script>".to_string(),
            pass: "x".to_string(),
        },
    );
    assert!(!p.contains("a\"><script>"));
    assert!(p.contains("&lt;script&gt;"));
}

#[test]
fn the_page_shows_the_live_settings() {
    let mut display = DisplayDriver::new_simulated();
    display.set_marquee_text("a<b>\"&");
    display.set_marquee_speed_ms(250);
    display.set_orientation(3);
    display.set_direction(3);
    display.set_panel_margin(7);
    display.set_margin_applies_streams(true);
    let firmware = RunningFirmware {
        version: "9.9.9".to_string(),
        slot: "ota_1".to_string(),
    };
    let ssids = ["lab".to_string(), "<x>".to_string()];
    let p = render_portal(&ssids, &display, 5000, &PortalMode::Setup, &locked(), &firmware);
    assert!(p.starts_with("<!DOCTYPE html>\n<html>\n  <head>\n    <title>Traffic Light Setup</title>"));
    assert!(p.ends_with("<button onclick=\"doReboot()\">Reboot</button>\n    </div>\n  </body>\n</html>"));
    assert!(p.contains("mq_text: \"a\\u003cb\\u003e\\\"\\u0026\",\n        mq_speed_ms: \"250\","));
    assert!(p.contains("mq_orient: \"3\",\n        mq_dir: \"3\",\n        panel_margin: \"7\","));
    assert!(p.contains("margin_streams: \"1\",\n        listen_port: \"5000\"\n      };"));
    assert!(p.contains("class=\"status idle\">Connected network unchanged unless you pick a new one.</div>"));
    assert!(p.contains(
        "<select id=\"ssid\"><option value=\"\" selected>(keep current network)</option><option value=\"lab\">lab</option><option value=\"&lt;x&gt;\">&lt;x&gt;</option></select>"
    ));
    assert!(p.contains("(max 64 characters)"));
    assert!(p.contains("maxlength=\"64\" value=\"a&lt;b&gt;&quot;&amp;\" oninput"));
    assert!(p.contains("per pixel; 20&ndash;500, lower"));
    assert!(p.contains("min=\"20\" max=\"500\" value=\"250\""));
    assert!(p.contains("<option value=\"0\" >Horizontal</option>"));
    assert!(p.contains("<option value=\"1\" selected>Vertical</option>"));
    assert!(p.contains("<option value=\"0\" >Upright</option>"));
    assert!(p.contains("<option value=\"1\" selected>Inverted</option>"));
    assert!(p.contains("min=\"0\" max=\"20\" value=\"7\""));
    assert!(p.contains("id=\"margin_streams\" checked onchange"));
    assert!(p.contains("max=\"65535\" value=\"5000\""));
    assert!(p.contains("id=\"portal_user\" value=\"admin\""));
    // no brace of the template is left over
    assert!(!p.contains("{{") && !p.contains("}}"));
}

#[test]
fn the_page_is_the_same_for_every_password() {
    let with_pass = |pass: &str| {
        page_with(
            PortalMode::Setup,
            &AuthPolicy {
                user: "me".to_string(),
                pass: pass.to_string(),
            },
        )
    };
    assert_eq!(with_pass("hunter2"), with_pass("x"));
    assert_ne!(with_pass("hunter2"), with_pass(""));
}
