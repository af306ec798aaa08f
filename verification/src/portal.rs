//! The setup page: everything a browser is shown of the light.

use vstd::prelude::*;

use crate::auth::AuthPolicy;
use crate::display;
use crate::display::{DisplayDriver, MarqueeConfig, WifiTestResult};
use crate::display::{MARQUEE_SPEED_MS_MAX, MARQUEE_SPEED_MS_MIN};
use crate::html;
use crate::html::{html_escape, js_string};
use crate::marquee::MARQUEE_TEXT_MAX;
use crate::page::{PAGE_ACCESS, PAGE_ACTIONS, PAGE_ORIENT_CODE};
use crate::page::{PAGE_END, PAGE_FIRMWARE, PAGE_UPLOAD};
use crate::page::{PAGE_BETWEEN_NOTES, PAGE_BODY, PAGE_NETWORKS, PAGE_TEXT_HINT, PAGE_WIFI};
use crate::page::{PAGE_DIRECTIONS, PAGE_HORIZONTAL, PAGE_INVERTED, PAGE_UPRIGHT, PAGE_VERTICAL};
use crate::page::{PAGE_HEAD, PAGE_SAVED_DIR, PAGE_SAVED_MARGIN, PAGE_SAVED_ORIENT};
use crate::page::{PAGE_MARGIN, PAGE_MARGIN_HINT, PAGE_PORT, PAGE_STREAMS};
use crate::page::{PAGE_SAVED_PORT, PAGE_SAVED_SPEED, PAGE_SAVED_STREAMS, PAGE_SCRIPT};
use crate::page::{PAGE_SPEED, PAGE_SPEED_HINT, PAGE_TEXT};
use crate::panels;
use crate::panels::{orientation_is_vertical, orientation_parts, PANEL_MARGIN_MAX};
use crate::panels::{DIR_BOTTOM_TO_TOP, DIR_LEFT_TO_RIGHT, DIR_RIGHT_TO_LEFT, DIR_TOP_TO_BOTTOM};
use crate::text;
use crate::text::push_decimal;

verus! {

/// Where the setup portal is being served from. It decides what a network
/// credential change does: in setup mode the access point is torn down for a
/// test-in-place and restored afterwards; once the light is a client on a real
/// network the credentials are only stored and the reboot tries them, relying
/// on the boot-time fallback into setup mode if they do not work.
pub enum PortalMode {
    Setup,
    Connected { ip: String },
}

/// What the page says about the image it is being served by.
pub struct RunningFirmware {
    pub version: String,
    pub slot: String,
}

/// The word for the outcome of a network test.
pub open spec fn wifi_word(result: WifiTestResult) -> Seq<char> {
    match result {
        WifiTestResult::Idle => "idle"@,
        WifiTestResult::Testing => "testing"@,
        WifiTestResult::Success => "success"@,
        WifiTestResult::Failed => "failed"@,
    }
}

/// The sentence for the outcome of a network test.
pub open spec fn wifi_sentence(result: WifiTestResult) -> Seq<char> {
    match result {
        WifiTestResult::Idle => "Connected network unchanged unless you pick a new one."@,
        WifiTestResult::Testing => "Testing connection..."@,
        WifiTestResult::Success => "Last test: connected successfully."@,
        WifiTestResult::Failed => "Last test: connection failed."@,
    }
}

/// The class of the status box, which is also the answer to a status request.
pub fn wifi_status_class(display: &DisplayDriver) -> (word: &'static str)
    ensures
        word@ == wifi_word(display@.wifi_test),
{
    match display.wifi_test() {
        WifiTestResult::Idle => "idle",
        WifiTestResult::Testing => "testing",
        WifiTestResult::Success => "success",
        WifiTestResult::Failed => "failed",
    }
}

/// What the status box says.
pub fn wifi_status_text(display: &DisplayDriver) -> (sentence: &'static str)
    ensures
        sentence@ == wifi_sentence(display@.wifi_test),
{
    match display.wifi_test() {
        WifiTestResult::Idle => "Connected network unchanged unless you pick a new one.",
        WifiTestResult::Testing => "Testing connection...",
        WifiTestResult::Success => "Last test: connected successfully.",
        WifiTestResult::Failed => "Last test: connection failed.",
    }
}

/// `word` if `on`, else nothing.
pub open spec fn when(on: bool, word: Seq<char>) -> Seq<char> {
    if on {
        word
    } else {
        Seq::empty()
    }
}

fn push_when(out: &mut String, on: bool, word: &str)
    ensures
        final(out)@ == old(out)@ + when(on, word@),
{
    if on {
        out.append(word);
    }
    assert(out@ =~= old(out)@ + when(on, word@));
}

/// One choice of a scroll direction.
pub open spec fn direction_option(direction: u8, label: Seq<char>, current: u8) -> Seq<char> {
    "<option value=\""@ + text::decimal(direction as nat) + "\" "@ + when(
        direction == current,
        "selected"@,
    ) + ">"@ + label + "</option>"@
}

/// The choices of a scroll direction for a mount: the two along its axis.
pub open spec fn direction_options(orientation: u8, current: u8) -> Seq<char> {
    if panels::is_vertical(orientation) {
        direction_option(DIR_TOP_TO_BOTTOM, "Top to bottom"@, current) + direction_option(
            DIR_BOTTOM_TO_TOP,
            "Bottom to top"@,
            current,
        )
    } else {
        direction_option(DIR_RIGHT_TO_LEFT, "Right to left"@, current) + direction_option(
            DIR_LEFT_TO_RIGHT,
            "Left to right"@,
            current,
        )
    }
}

fn direction_option_html(direction: u8, label: &str, current: u8) -> (out: String)
    ensures
        out@ == direction_option(direction, label@, current),
{
    let mut out = "<option value=\"".to_owned();
    push_decimal(&mut out, direction as u64);
    out.append("\" ");
    push_when(&mut out, direction == current, "selected");
    out.append(">");
    out.append(label);
    out.append("</option>");
    out
}

/// The direction choices for the given orientation, with the current one
/// selected.
pub fn direction_options_html(orientation: u8, current: u8) -> (out: String)
    ensures
        out@ == direction_options(orientation, current),
{
    if orientation_is_vertical(orientation) {
        let mut out = direction_option_html(DIR_TOP_TO_BOTTOM, "Top to bottom", current);
        out.append(direction_option_html(DIR_BOTTOM_TO_TOP, "Bottom to top", current).as_str());
        out
    } else {
        let mut out = direction_option_html(DIR_RIGHT_TO_LEFT, "Right to left", current);
        out.append(direction_option_html(DIR_LEFT_TO_RIGHT, "Left to right", current).as_str());
        out
    }
}

/// One choice of a network.
pub open spec fn network_option(ssid: Seq<char>) -> Seq<char> {
    "<option value=\""@ + html::html_escaped(ssid) + "\">"@ + html::html_escaped(ssid)
        + "</option>"@
}

/// The first choice, which changes nothing, and the first `n` networks.
pub open spec fn network_options(ssids: Seq<String>, n: nat) -> Seq<char>
    decreases n,
{
    if n == 0 {
        "<option value=\"\" selected>(keep current network)</option>"@
    } else {
        network_options(ssids, (n - 1) as nat) + network_option(ssids[n - 1]@)
    }
}

fn network_option_html(ssid: &str) -> (out: String)
    ensures
        out@ == network_option(ssid@),
{
    let safe = html_escape(ssid);
    let mut out = "<option value=\"".to_owned();
    out.append(safe.as_str());
    out.append("\">");
    out.append(safe.as_str());
    out.append("</option>");
    out
}

fn network_options_html(ssids: &[String]) -> (out: String)
    ensures
        out@ == network_options(ssids@, ssids@.len()),
{
    let mut out = "<option value=\"\" selected>(keep current network)</option>".to_owned();
    let mut i: usize = 0;
    while i < ssids.len()
        invariant
            i <= ssids.len(),
            out@ == network_options(ssids@, i as nat),
        decreases ssids.len() - i,
    {
        out.append(network_option_html(ssids[i].as_str()).as_str());
        i = i + 1;
    }
    out
}

/// What the page says about where it is served from.
pub open spec fn mode_note(mode: PortalMode) -> Seq<char> {
    match mode {
        PortalMode::Setup => Seq::empty(),
        PortalMode::Connected { ip } =>
            "<div class=\"status success\">Serving from the network at "@ + html::html_escaped(ip@)
                + ". Marquee changes apply as soon as they are saved. A new Wi-Fi network is tried after the reboot; if it cannot be reached the light falls back to its own setup access point.</div>"@,
    }
}

/// What the page says a reboot does.
pub open spec fn reboot_note(mode: PortalMode) -> Seq<char> {
    match mode {
        PortalMode::Setup => "The setup portal will close."@,
        PortalMode::Connected { ip: _ } =>
            "The light will be back on the network in a few seconds."@,
    }
}

/// The warning that an open portal carries.
pub open spec fn auth_note(configured: bool) -> Seq<char> {
    when(
        !configured,
        "<div class=\"status failed\">No portal password is set, so anyone on this network can reconfigure this light. Firmware uploads stay disabled until you set one.</div>"@,
    )
}

/// The upload control. Uploading firmware runs whatever is uploaded, so unlike
/// the rest of the page it is not offered at all until there is a password to
/// protect it.
pub open spec fn upload_control(configured: bool) -> Seq<char> {
    if configured {
        "<div class=\"form-group\">\n        <input type=\"file\" id=\"fw\" accept=\".bin\" />\n      </div>\n               <div id=\"fw_status\" class=\"status idle\">Choose a .bin built by <code>cargo build --release</code>.</div>\n               <button onclick=\"uploadFirmware()\">Upload firmware</button>"@
    } else {
        "<div class=\"status failed\">Set a portal password above before uploading firmware.</div>"@
    }
}

fn mode_note_html(mode: &PortalMode) -> (out: String)
    ensures
        out@ == mode_note(*mode),
{
    match mode {
        PortalMode::Setup => String::new(),
        PortalMode::Connected { ip } => {
            let mut out = "<div class=\"status success\">Serving from the network at ".to_owned();
            out.append(html_escape(ip.as_str()).as_str());
            out.append(
                ". Marquee changes apply as soon as they are saved. A new Wi-Fi network is tried after the reboot; if it cannot be reached the light falls back to its own setup access point.</div>",
            );
            out
        },
    }
}

fn reboot_note_text(mode: &PortalMode) -> (note: &'static str)
    ensures
        note@ == reboot_note(*mode),
{
    match mode {
        PortalMode::Setup => "The setup portal will close.",
        PortalMode::Connected { ip: _ } =>
            "The light will be back on the network in a few seconds.",
    }
}

fn upload_control_html(configured: bool) -> (control: &'static str)
    ensures
        control@ == upload_control(configured),
{
    if configured {
        "<div class=\"form-group\">\n        <input type=\"file\" id=\"fw\" accept=\".bin\" />\n      </div>\n               <div id=\"fw_status\" class=\"status idle\">Choose a .bin built by <code>cargo build --release</code>.</div>\n               <button onclick=\"uploadFirmware()\">Upload firmware</button>"
    } else {
        "<div class=\"status failed\">Set a portal password above before uploading firmware.</div>"
    }
}

/// The head of the page with its script, up to the notes in the body.
pub open spec fn script_part(cfg: display::Settings, port: u16, mode: PortalMode) -> Seq<char> {
    PAGE_HEAD@ + html::js_literal(cfg.text) + PAGE_SAVED_SPEED@ + text::decimal(cfg.speed_ms as nat)
        + PAGE_SAVED_ORIENT@ + text::decimal(cfg.orientation as nat) + PAGE_SAVED_DIR@
        + text::decimal(cfg.direction as nat) + PAGE_SAVED_MARGIN@ + text::decimal(
        cfg.panel_margin as nat,
    ) + PAGE_SAVED_STREAMS@ + text::decimal(
        if cfg.margin_applies_streams {
            1
        } else {
            0
        },
    ) + PAGE_SAVED_PORT@ + text::decimal(port as nat) + PAGE_SCRIPT@ + PAGE_ORIENT_CODE@
        + PAGE_ACTIONS@ + reboot_note(mode) + PAGE_BODY@
}

/// The notes and the network settings.
pub open spec fn network_part(
    ssids: Seq<String>,
    wifi_test: WifiTestResult,
    mode: PortalMode,
    configured: bool,
) -> Seq<char> {
    mode_note(mode) + PAGE_BETWEEN_NOTES@ + auth_note(configured) + PAGE_WIFI@ + wifi_word(
        wifi_test,
    ) + "\">"@ + wifi_sentence(wifi_test) + PAGE_NETWORKS@ + network_options(ssids, ssids.len())
}

/// The text of the marquee.
pub open spec fn text_part(cfg: display::Settings) -> Seq<char> {
    PAGE_TEXT_HINT@ + text::decimal(MARQUEE_TEXT_MAX as nat) + PAGE_TEXT@ + text::decimal(
        MARQUEE_TEXT_MAX as nat,
    ) + "\" value=\""@ + html::html_escaped(cfg.text)
}

/// The delay of the marquee.
pub open spec fn speed_part(cfg: display::Settings) -> Seq<char> {
    PAGE_SPEED_HINT@ + text::decimal(MARQUEE_SPEED_MS_MIN as nat) + "&ndash;"@ + text::decimal(
        MARQUEE_SPEED_MS_MAX as nat,
    ) + PAGE_SPEED@ + text::decimal(MARQUEE_SPEED_MS_MIN as nat) + "\" max=\""@ + text::decimal(
        MARQUEE_SPEED_MS_MAX as nat,
    ) + "\" value=\""@ + text::decimal(cfg.speed_ms as nat)
}

/// How the light is mounted, and the direction that goes with it.
pub open spec fn mount_part(cfg: display::Settings) -> Seq<char> {
    PAGE_HORIZONTAL@ + when(!panels::is_vertical(cfg.orientation), "selected"@) + PAGE_VERTICAL@
        + when(panels::is_vertical(cfg.orientation), "selected"@) + PAGE_UPRIGHT@
        + when(!panels::is_inverted(cfg.orientation), "selected"@) + PAGE_INVERTED@ + when(
        panels::is_inverted(cfg.orientation),
        "selected"@,
    ) + PAGE_DIRECTIONS@ + direction_options(cfg.orientation, cfg.direction)
}

/// The gaps between the panels.
pub open spec fn margin_part(cfg: display::Settings) -> Seq<char> {
    PAGE_MARGIN_HINT@ + text::decimal(PANEL_MARGIN_MAX as nat) + PAGE_MARGIN@ + text::decimal(
        PANEL_MARGIN_MAX as nat,
    ) + "\" value=\""@ + text::decimal(cfg.panel_margin as nat) + PAGE_STREAMS@ + when(
        cfg.margin_applies_streams,
        "checked"@,
    )
}

/// The port that frames are streamed to.
pub open spec fn port_part(port: u16) -> Seq<char> {
    PAGE_PORT@ + text::decimal(port as nat)
}

/// The marquee settings.
pub open spec fn marquee_part(cfg: display::Settings, port: u16) -> Seq<char> {
    text_part(cfg) + speed_part(cfg) + mount_part(cfg) + margin_part(cfg) + port_part(port)
}

/// The access settings and the firmware.
pub open spec fn access_part(
    user: Seq<char>,
    configured: bool,
    version: Seq<char>,
    slot: Seq<char>,
) -> Seq<char> {
    PAGE_ACCESS@ + html::html_escaped(user) + PAGE_FIRMWARE@ + html::html_escaped(version)
        + " from "@ + html::html_escaped(slot) + PAGE_UPLOAD@ + upload_control(configured)
        + PAGE_END@
}

/// The whole page. It shows the settings that are live, whether they were saved
/// or only previewed.
pub open spec fn page(
    ssids: Seq<String>,
    display: display::DisplayView,
    port: u16,
    mode: PortalMode,
    auth: AuthPolicy,
    firmware: RunningFirmware,
) -> Seq<char> {
    let cfg = display.settings.with_direction(display.settings.direction);
    let configured = auth.pass@.len() > 0;
    script_part(cfg, port, mode) + network_part(ssids, display.wifi_test, mode, configured)
        + marquee_part(cfg, port) + access_part(
        auth.user@,
        configured,
        firmware.version@,
        firmware.slot@,
    )
}

fn script_html(cfg: &MarqueeConfig, port: u16, mode: &PortalMode) -> (out: String)
    ensures
        out@ == script_part(cfg@, port, *mode),
{
    let mut out = PAGE_HEAD.to_owned();
    out.append(js_string(cfg.text.as_str()).as_str());
    out.append(PAGE_SAVED_SPEED);
    push_decimal(&mut out, cfg.speed_ms as u64);
    out.append(PAGE_SAVED_ORIENT);
    push_decimal(&mut out, cfg.orientation as u64);
    out.append(PAGE_SAVED_DIR);
    push_decimal(&mut out, cfg.direction as u64);
    out.append(PAGE_SAVED_MARGIN);
    push_decimal(&mut out, cfg.panel_margin as u64);
    out.append(PAGE_SAVED_STREAMS);
    push_decimal(
        &mut out,
        if cfg.margin_applies_streams {
            1
        } else {
            0
        },
    );
    out.append(PAGE_SAVED_PORT);
    push_decimal(&mut out, port as u64);
    out.append(PAGE_SCRIPT);
    out.append(PAGE_ORIENT_CODE);
    out.append(PAGE_ACTIONS);
    out.append(reboot_note_text(mode));
    out.append(PAGE_BODY);
    out
}

fn network_html(
    ssids: &[String],
    display: &DisplayDriver,
    mode: &PortalMode,
    configured: bool,
) -> (out: String)
    ensures
        out@ == network_part(ssids@, display@.wifi_test, *mode, configured),
{
    let mut out = mode_note_html(mode);
    out.append(PAGE_BETWEEN_NOTES);
    push_when(
        &mut out,
        !configured,
        "<div class=\"status failed\">No portal password is set, so anyone on this network can reconfigure this light. Firmware uploads stay disabled until you set one.</div>",
    );
    out.append(PAGE_WIFI);
    out.append(wifi_status_class(display));
    out.append("\">");
    out.append(wifi_status_text(display));
    out.append(PAGE_NETWORKS);
    out.append(network_options_html(ssids).as_str());
    out
}

fn text_html(cfg: &MarqueeConfig) -> (out: String)
    ensures
        out@ == text_part(cfg@),
{
    let mut out = PAGE_TEXT_HINT.to_owned();
    push_decimal(&mut out, MARQUEE_TEXT_MAX as u64);
    out.append(PAGE_TEXT);
    push_decimal(&mut out, MARQUEE_TEXT_MAX as u64);
    out.append("\" value=\"");
    out.append(html_escape(cfg.text.as_str()).as_str());
    out
}

fn speed_html(cfg: &MarqueeConfig) -> (out: String)
    ensures
        out@ == speed_part(cfg@),
{
    let mut out = PAGE_SPEED_HINT.to_owned();
    push_decimal(&mut out, MARQUEE_SPEED_MS_MIN as u64);
    out.append("&ndash;");
    push_decimal(&mut out, MARQUEE_SPEED_MS_MAX as u64);
    out.append(PAGE_SPEED);
    push_decimal(&mut out, MARQUEE_SPEED_MS_MIN as u64);
    out.append("\" max=\"");
    push_decimal(&mut out, MARQUEE_SPEED_MS_MAX as u64);
    out.append("\" value=\"");
    push_decimal(&mut out, cfg.speed_ms as u64);
    out
}

fn mount_html(cfg: &MarqueeConfig) -> (out: String)
    ensures
        out@ == mount_part(cfg@),
{
    let (vertical, inverted) = orientation_parts(cfg.orientation);
    let mut out = PAGE_HORIZONTAL.to_owned();
    push_when(&mut out, !vertical, "selected");
    out.append(PAGE_VERTICAL);
    push_when(&mut out, vertical, "selected");
    out.append(PAGE_UPRIGHT);
    push_when(&mut out, !inverted, "selected");
    out.append(PAGE_INVERTED);
    push_when(&mut out, inverted, "selected");
    out.append(PAGE_DIRECTIONS);
    out.append(direction_options_html(cfg.orientation, cfg.direction).as_str());
    out
}

fn margin_html(cfg: &MarqueeConfig) -> (out: String)
    ensures
        out@ == margin_part(cfg@),
{
    let mut out = PAGE_MARGIN_HINT.to_owned();
    push_decimal(&mut out, PANEL_MARGIN_MAX as u64);
    out.append(PAGE_MARGIN);
    push_decimal(&mut out, PANEL_MARGIN_MAX as u64);
    out.append("\" value=\"");
    push_decimal(&mut out, cfg.panel_margin as u64);
    out.append(PAGE_STREAMS);
    push_when(&mut out, cfg.margin_applies_streams, "checked");
    out
}

fn marquee_html(cfg: &MarqueeConfig, port: u16) -> (out: String)
    ensures
        out@ == marquee_part(cfg@, port),
{
    let mut out = text_html(cfg);
    out.append(speed_html(cfg).as_str());
    out.append(mount_html(cfg).as_str());
    out.append(margin_html(cfg).as_str());
    out.append(PAGE_PORT);
    push_decimal(&mut out, port as u64);
    assert(out@ =~= marquee_part(cfg@, port));
    out
}

fn access_html(auth: &AuthPolicy, firmware: &RunningFirmware) -> (out: String)
    ensures
        out@ == access_part(
            auth.user@,
            auth.pass@.len() > 0,
            firmware.version@,
            firmware.slot@,
        ),
{
    let mut out = PAGE_ACCESS.to_owned();
    out.append(html_escape(auth.user.as_str()).as_str());
    out.append(PAGE_FIRMWARE);
    out.append(html_escape(firmware.version.as_str()).as_str());
    out.append(" from ");
    out.append(html_escape(firmware.slot.as_str()).as_str());
    out.append(PAGE_UPLOAD);
    out.append(upload_control_html(auth.is_configured()));
    out.append(PAGE_END);
    out
}

/// Build the setup page. Reflects the live settings so the form shows what the
/// device is actually doing (saved or previewed).
pub fn render_portal(
    ssids: &[String],
    display: &DisplayDriver,
    listen_port: u16,
    mode: &PortalMode,
    auth: &AuthPolicy,
    firmware: &RunningFirmware,
) -> (out: String)
    ensures
        out@ == page(ssids@, display@, listen_port, *mode, *auth, *firmware),
        display@.settings.in_range() ==> shows_the_settings(
            out@,
            display@.settings,
            listen_port,
        ),
        display@.settings.in_range() ==> exists|layout: int, flip: int|
            0 <= layout <= 1 && 0 <= flip <= 1 && code_of_choices(layout, flip)
                == display@.settings.orientation && holds(
                out@,
                #[trigger] mount_choices(layout, flip),
            ),
        says_how_things_stand(
            out@,
            display@.wifi_test,
            *mode,
            auth.user@,
            auth.pass@,
            firmware.version@,
            firmware.slot@,
        ),
{
    proof {
        if display@.settings.in_range() {
            the_page_shows_the_live_settings(
                ssids@,
                display@,
                listen_port,
                *mode,
                *auth,
                *firmware,
            );
            the_page_names_the_live_mount(ssids@, display@, listen_port, *mode, *auth, *firmware);
        }
        the_page_says_how_things_stand(ssids@, display@, listen_port, *mode, *auth, *firmware);
    }
    let cfg = display.marquee_config();
    let mut out = script_html(&cfg, listen_port, mode);
    out.append(network_html(ssids, display, mode, auth.is_configured()).as_str());
    out.append(marquee_html(&cfg, listen_port).as_str());
    out.append(access_html(auth, firmware).as_str());
    out
}

/// The page does not give the password away: it is the same page for every
/// password that could be set.
pub proof fn the_page_does_not_depend_on_the_password(
    ssids: Seq<String>,
    display: display::DisplayView,
    port: u16,
    mode: PortalMode,
    auth: AuthPolicy,
    other: AuthPolicy,
    firmware: RunningFirmware,
)
    requires
        auth.user@ == other.user@,
        auth.pass@.len() > 0 <==> other.pass@.len() > 0,
    ensures
        page(ssids, display, port, mode, auth, firmware) == page(
            ssids,
            display,
            port,
            mode,
            other,
            firmware,
        ),
{
}

/// The page has `part` somewhere in it.
pub open spec fn holds(page: Seq<char>, part: Seq<char>) -> bool {
    exists|before: Seq<char>, after: Seq<char>| page == #[trigger] (before + part + after)
}

proof fn a_part_is_held(before: Seq<char>, part: Seq<char>, after: Seq<char>)
    ensures
        holds(before + part + after, part),
{
}

proof fn what_a_part_holds_is_held(
    before: Seq<char>,
    part: Seq<char>,
    after: Seq<char>,
    inner: Seq<char>,
)
    requires
        holds(part, inner),
    ensures
        holds(before + part + after, inner),
{
    let (l, r) = choose|l: Seq<char>, r: Seq<char>| part == #[trigger] (l + inner + r);
    assert(before + part + after =~= (before + l) + inner + (r + after));
}

/// A page in seven parts, cut in two places in every way that a value and what
/// follows it need.
proof fn page_cuts(
    a: Seq<char>,
    t: Seq<char>,
    s: Seq<char>,
    m: Seq<char>,
    g: Seq<char>,
    p: Seq<char>,
    c: Seq<char>,
)
    ensures
        a + (t + s + m + g + p) + c == a + (t + s) + (m + g + p + c),
        a + (t + s + m + g + p) + c == (a + t) + (s + m) + (g + p + c),
        a + (t + s + m + g + p) + c == (a + t + s) + (m + g) + (p + c),
        a + (t + s + m + g + p) + c == (a + t + s + m) + (g + p) + c,
        a + (t + s + m + g + p) + c == (a + t + s + m + g) + (p + c) + Seq::empty(),
{
    let page = a + (t + s + m + g + p) + c;
    assert(page =~= a + (t + s) + (m + g + p + c));
    assert(page =~= (a + t) + (s + m) + (g + p + c));
    assert(page =~= (a + t + s) + (m + g) + (p + c));
    assert(page =~= (a + t + s + m) + (g + p) + c);
    assert(page =~= (a + t + s + m + g) + (p + c) + Seq::empty());
}

/// The mark of the choice that is made.
pub open spec fn chosen(on: bool) -> Seq<char> {
    if on {
        "selected"@
    } else {
        Seq::empty()
    }
}

/// The choices of a mount, with the layout and the flip that are chosen: 0 for
/// horizontal and 1 for vertical, 0 for upright and 1 for inverted.
pub open spec fn mount_choices(layout: int, flip: int) -> Seq<char> {
    r#"" oninput="preview()" />
      </div>
      <div class="form-group">
        <label>Layout</label>
        <select id="mq_layout" onchange="refreshDirections()">
          <option value="0" "#@
        + chosen(layout == 0) + r#">Horizontal</option>
          <option value="1" "#@
        + chosen(layout == 1) + r#">Vertical</option>
        </select>
      </div>
      <div class="form-group">
        <label>Flip</label>
        <select id="mq_flip" onchange="preview()">
          <option value="0" "#@
        + chosen(flip == 0) + r#">Upright</option>
          <option value="1" "#@
        + chosen(flip == 1) + r#">Inverted</option>
        </select>
      </div>
      <div class="form-group">
        <label>Scroll direction</label>
        <select id="mq_dir" onchange="preview()">"#@
}

/// The orientation code that a browser makes of the two choices.
pub open spec fn code_of_choices(layout: int, flip: int) -> int {
    if layout != 1 && flip != 1 {
        0
    } else if layout != 1 {
        2
    } else if flip != 1 {
        1
    } else {
        3
    }
}

/// The choice of a direction that goes with a mount: one of the two directions
/// of its axis.
pub open spec fn direction_choice(vertical: bool, direction: int) -> Seq<char> {
    r#">Inverted</option>
        </select>
      </div>
      <div class="form-group">
        <label>Scroll direction</label>
        <select id="mq_dir" onchange="preview()">"#@ + (if vertical {
        "<option value=\""@ + text::decimal(2) + "\" "@ + chosen(direction == 2)
            + ">"@ + "Top to bottom"@ + "</option>"@ + ("<option value=\""@ + text::decimal(3) + "\" "@
            + chosen(direction == 3) + ">"@ + "Bottom to top"@ + "</option>"@)
    } else {
        "<option value=\""@ + text::decimal(1) + "\" "@ + chosen(direction == 1)
            + ">"@ + "Right to left"@ + "</option>"@ + ("<option value=\""@ + text::decimal(0) + "\" "@
            + chosen(direction == 0) + ">"@ + "Left to right"@ + "</option>"@)
    }) + r#"</select>
      </div>
      <div class="form-group">
        <label>Panel margin <span class="hint">(dead pixels between the 3 lamps; 0&ndash;"#@
}

/// The page asks for the mount that the light has: the code that a browser makes
/// of what is chosen, by the rule that the page itself carries, is that of the
/// light, and the direction that is chosen is the one it scrolls in.
pub proof fn the_page_names_the_live_mount(
    ssids: Seq<String>,
    display: display::DisplayView,
    port: u16,
    mode: PortalMode,
    auth: AuthPolicy,
    firmware: RunningFirmware,
)
    requires
        display.settings.in_range(),
    ensures
        ({
            let shown = page(ssids, display, port, mode, auth, firmware);
            let set = display.settings;
            &&& holds(
                shown,
                r#"      // current orientation code from the two selects
      function orientCode() {
        var vertical = document.getElementById("mq_layout").value === "1";
        var inverted = document.getElementById("mq_flip").value === "1";
        if (!vertical && !inverted) return "0";
        if (!vertical && inverted)  return "2";
        if (vertical && !inverted)  return "1";
        return "3";
      }

"#@,
            )
            &&& exists|layout: int, flip: int|
                0 <= layout <= 1 && 0 <= flip <= 1 && code_of_choices(layout, flip)
                    == set.orientation && holds(shown, #[trigger] mount_choices(layout, flip))
            &&& holds(
                shown,
                direction_choice(
                    code_of_choices(1, 0) == set.orientation || code_of_choices(1, 1)
                        == set.orientation,
                    set.direction as int,
                ),
            )
        }),
{
    let set = display.settings;
    let configured = auth.pass@.len() > 0;
    let script = script_part(set, port, mode);
    let a = script + network_part(ssids, display.wifi_test, mode, configured);
    let t = text_part(set);
    let s = speed_part(set);
    let m = mount_part(set);
    let g = margin_part(set);
    let p = port_part(port);
    let c = access_part(auth.user@, configured, firmware.version@, firmware.slot@);
    let shown = page(ssids, display, port, mode, auth, firmware);
    page_cuts(a, t, s, m, g, p, c);
    assert(shown == a + (t + s + m + g + p) + c);
    let layout: int = if set.orientation == 1 || set.orientation == 3 {
        1
    } else {
        0
    };
    let flip: int = if set.orientation == 2 || set.orientation == 3 {
        1
    } else {
        0
    };
    assert(holds(shown, mount_choices(layout, flip))) by {
        let directions = direction_options(set.orientation, set.direction);
        assert(m == mount_choices(layout, flip) + directions);
        assert(m + g =~= Seq::<char>::empty() + mount_choices(layout, flip) + (directions + g));
        what_a_part_holds_is_held(a + t + s, m + g, p + c, mount_choices(layout, flip));
    }
    let choice = direction_choice(layout == 1, set.direction as int);
    assert(holds(shown, choice)) by {
        mount_then_direction(set);
        what_a_part_holds_is_held(a + t + s, m + g, p + c, choice);
    }
    assert(holds(shown, PAGE_ORIENT_CODE@)) by {
        script_holds_the_code(set, port, mode);
        what_a_part_holds_is_held(
            Seq::empty(),
            script,
            network_part(ssids, display.wifi_test, mode, configured) + (t + s + m + g + p) + c,
            PAGE_ORIENT_CODE@,
        );
        assert(shown =~= Seq::<char>::empty() + script + (network_part(
            ssids,
            display.wifi_test,
            mode,
            configured,
        ) + (t + s + m + g + p) + c));
    }
}

proof fn script_holds_the_code(set: display::Settings, port: u16, mode: PortalMode)
    ensures
        holds(script_part(set, port, mode), PAGE_ORIENT_CODE@),
{
    let before = PAGE_HEAD@ + html::js_literal(set.text) + PAGE_SAVED_SPEED@ + text::decimal(
        set.speed_ms as nat,
    ) + PAGE_SAVED_ORIENT@ + text::decimal(set.orientation as nat) + PAGE_SAVED_DIR@
        + text::decimal(set.direction as nat) + PAGE_SAVED_MARGIN@ + text::decimal(
        set.panel_margin as nat,
    ) + PAGE_SAVED_STREAMS@ + text::decimal(
        if set.margin_applies_streams {
            1
        } else {
            0
        },
    ) + PAGE_SAVED_PORT@ + text::decimal(port as nat) + PAGE_SCRIPT@;
    a_part_is_held(before, PAGE_ORIENT_CODE@, PAGE_ACTIONS@);
    what_a_part_holds_is_held(
        Seq::empty(),
        before + PAGE_ORIENT_CODE@ + PAGE_ACTIONS@,
        reboot_note(mode) + PAGE_BODY@,
        PAGE_ORIENT_CODE@,
    );
    assert(script_part(set, port, mode) =~= Seq::<char>::empty() + (before + PAGE_ORIENT_CODE@
        + PAGE_ACTIONS@) + (reboot_note(mode) + PAGE_BODY@));
}

proof fn mount_then_direction(set: display::Settings)
    requires
        set.in_range(),
    ensures
        holds(
            mount_part(set) + margin_part(set),
            direction_choice(
                set.orientation == 1 || set.orientation == 3,
                set.direction as int,
            ),
        ),
{
    let vertical = set.orientation == 1 || set.orientation == 3;
    let options = direction_options(set.orientation, set.direction);
    let choice = direction_choice(vertical, set.direction as int);
    let hint = PAGE_MARGIN_HINT@;
    assert(choice == PAGE_DIRECTIONS@ + options + hint);
    let before = PAGE_HORIZONTAL@ + when(!vertical, "selected"@) + PAGE_VERTICAL@ + when(
        vertical,
        "selected"@,
    ) + PAGE_UPRIGHT@ + when(!panels::is_inverted(set.orientation), "selected"@) + PAGE_INVERTED@
        + when(panels::is_inverted(set.orientation), "selected"@);
    let after = text::decimal(PANEL_MARGIN_MAX as nat) + PAGE_MARGIN@ + text::decimal(
        PANEL_MARGIN_MAX as nat,
    ) + "\" value=\""@ + text::decimal(set.panel_margin as nat) + PAGE_STREAMS@ + when(
        set.margin_applies_streams,
        "checked"@,
    );
    assert(margin_part(set) =~= hint + after);
    assert(mount_part(set) == before + PAGE_DIRECTIONS@ + options);
    rejoined(before, PAGE_DIRECTIONS@, options, hint, after);
}

proof fn rejoined(a: Seq<char>, b: Seq<char>, c: Seq<char>, d: Seq<char>, e: Seq<char>)
    ensures
        (a + b + c) + (d + e) == a + (b + c + d) + e,
{
    assert((a + b + c) + (d + e) =~= a + (b + c + d) + e);
}

/// The page shows the settings as they are: each of them in the field that
/// saves it, and all of them in the copy by which the script sees whether
/// anything was changed.
pub open spec fn shows_the_settings(shown: Seq<char>, set: display::Settings, port: u16) -> bool {
    &&& holds(
        shown,
        r#" characters)</span></label>
        <input type="text" id="mq_text" maxlength=""#@ + text::decimal(64) + "\" value=\""@ + html::html_escaped(set.text) + r#"" oninput="preview()" />
      </div>
      <div class="form-group">
        <label>Step delay <span class="hint">(milliseconds per pixel; "#@,
    )
    &&& holds(
        shown,
        r#", lower is faster)</span></label>
        <input type="number" id="mq_speed_ms" min=""#@ + text::decimal(20) + "\" max=\""@ + text::decimal(500) + "\" value=\""@
            + text::decimal(set.speed_ms as nat) + r#"" oninput="preview()" />
      </div>
      <div class="form-group">
        <label>Layout</label>
        <select id="mq_layout" onchange="refreshDirections()">
          <option value="0" "#@,
    )
    &&& holds(
        shown,
        r#")</span></label>
        <input type="number" id="panel_margin" min="0" max=""#@ + text::decimal(20) + "\" value=\""@ + text::decimal(set.panel_margin as nat) + r#"" oninput="preview()" />
      </div>
      <div class="form-group">
        <label style="font-weight:normal;">
          <input type="checkbox" id="margin_streams" "#@,
    )
    &&& holds(
        shown,
        r#"" oninput="preview()" />
      </div>
      <div class="form-group">
        <label style="font-weight:normal;">
          <input type="checkbox" id="margin_streams" "#@ + (if set.margin_applies_streams {
            "checked"@
        } else {
            Seq::empty()
        }) + r#" onchange="preview()" style="width:auto;" />
          Apply panel margin to incoming streams
        </label>
        <span class="hint">If on, streamed frames must include the gap pixels (they'll be dropped). If off, streams fill all 30&times;10 as one contiguous area.</span>
      </div>
      <div class="form-group">
        <label>Listening port <span class="hint">(applies after reboot)</span></label>
        <input type="number" id="listen_port" min="1" max="65535" value=""#@,
    )
    &&& holds(
        shown,
        r#" onchange="preview()" style="width:auto;" />
          Apply panel margin to incoming streams
        </label>
        <span class="hint">If on, streamed frames must include the gap pixels (they'll be dropped). If off, streams fill all 30&times;10 as one contiguous area.</span>
      </div>
      <div class="form-group">
        <label>Listening port <span class="hint">(applies after reboot)</span></label>
        <input type="number" id="listen_port" min="1" max="65535" value=""#@ + text::decimal(port as nat) + r#"" />
      </div>

      <h3>Portal access</h3>
      <div class="form-group">
        <label>Username</label>
        <input type="text" id="portal_user" value=""#@,
    )
    &&& holds(
        shown,
        html::js_literal(set.text) + r#",
        mq_speed_ms: ""#@ + text::decimal(set.speed_ms as nat)
            + r#"",
        mq_orient: ""#@ + text::decimal(set.orientation as nat)
            + r#"",
        mq_dir: ""#@ + text::decimal(set.direction as nat)
            + r#"",
        panel_margin: ""#@ + text::decimal(set.panel_margin as nat)
            + r#"",
        margin_streams: ""#@ + text::decimal(
            if set.margin_applies_streams {
                1
            } else {
                0
            },
        ) + r#"",
        listen_port: ""#@ + text::decimal(port as nat) + PAGE_SCRIPT@,
    )
}

/// Whatever the settings are, the page shows them.
pub proof fn the_page_shows_the_live_settings(
    ssids: Seq<String>,
    display: display::DisplayView,
    port: u16,
    mode: PortalMode,
    auth: AuthPolicy,
    firmware: RunningFirmware,
)
    requires
        display.settings.in_range(),
    ensures
        shows_the_settings(
            page(ssids, display, port, mode, auth, firmware),
            display.settings,
            port,
        ),
{
    let set = display.settings;
    let configured = auth.pass@.len() > 0;
    let script = script_part(set, port, mode);
    let network = network_part(ssids, display.wifi_test, mode, configured);
    let a = script + network;
    let t = text_part(set);
    let s = speed_part(set);
    let m = mount_part(set);
    let g = margin_part(set);
    let p = port_part(port);
    let c = access_part(auth.user@, configured, firmware.version@, firmware.slot@);
    let shown = page(ssids, display, port, mode, auth, firmware);
    page_cuts(a, t, s, m, g, p, c);
    assert(shown == a + (t + s + m + g + p) + c);
    text_then_speed(set);
    speed_then_mount(set);
    margin_then_port(set, port);
    port_then_access(port, auth.user@, configured, firmware.version@, firmware.slot@);
    script_holds_the_copy(set, port, mode);
    let quote = "\" value=\""@;
    what_a_part_holds_is_held(
        a,
        t + s,
        m + g + p + c,
        PAGE_TEXT@ + text::decimal(64) + quote + html::html_escaped(set.text) + PAGE_SPEED_HINT@,
    );
    what_a_part_holds_is_held(
        a + t,
        s + m,
        g + p + c,
        PAGE_SPEED@ + text::decimal(20) + "\" max=\""@ + text::decimal(500) + quote
            + text::decimal(set.speed_ms as nat) + PAGE_HORIZONTAL@,
    );
    what_a_part_holds_is_held(
        a + t + s + m,
        g + p,
        c,
        PAGE_MARGIN@ + text::decimal(20) + quote + text::decimal(set.panel_margin as nat)
            + PAGE_STREAMS@,
    );
    what_a_part_holds_is_held(
        a + t + s + m,
        g + p,
        c,
        PAGE_STREAMS@ + when(set.margin_applies_streams, "checked"@) + PAGE_PORT@,
    );
    what_a_part_holds_is_held(
        a + t + s + m + g,
        p + c,
        Seq::empty(),
        PAGE_PORT@ + text::decimal(port as nat) + PAGE_ACCESS@,
    );
    script_comes_first(script, network, t + s + m + g + p, c);
    what_a_part_holds_is_held(
        Seq::empty(),
        script,
        network + (t + s + m + g + p) + c,
        saved_copy(set, port),
    );
}

/// The settings as the script keeps them.
spec fn saved_copy(set: display::Settings, port: u16) -> Seq<char> {
    html::js_literal(set.text) + PAGE_SAVED_SPEED@ + text::decimal(set.speed_ms as nat)
        + PAGE_SAVED_ORIENT@ + text::decimal(set.orientation as nat) + PAGE_SAVED_DIR@
        + text::decimal(set.direction as nat) + PAGE_SAVED_MARGIN@ + text::decimal(
        set.panel_margin as nat,
    ) + PAGE_SAVED_STREAMS@ + text::decimal(
        if set.margin_applies_streams {
            1
        } else {
            0
        },
    ) + PAGE_SAVED_PORT@ + text::decimal(port as nat) + PAGE_SCRIPT@
}

proof fn script_comes_first(a: Seq<char>, b: Seq<char>, c: Seq<char>, d: Seq<char>)
    ensures
        a + b + c + d == Seq::<char>::empty() + a + (b + c + d),
{
    assert(a + b + c + d =~= Seq::<char>::empty() + a + (b + c + d));
}

proof fn text_then_speed(set: display::Settings)
    ensures
        holds(
            text_part(set) + speed_part(set),
            PAGE_TEXT@ + text::decimal(64) + "\" value=\""@ + html::html_escaped(set.text)
                + PAGE_SPEED_HINT@,
        ),
{
    let front = PAGE_TEXT_HINT@ + text::decimal(64);
    let limit = text::decimal(64);
    let low = text::decimal(20);
    let high = text::decimal(500);
    let quote = "\" value=\""@;
    chain_of_four(front, PAGE_TEXT@, limit, quote, html::html_escaped(set.text));
    let number = text::decimal(set.speed_ms as nat);
    chain_of_nine(
        PAGE_SPEED_HINT@,
        low,
        "&ndash;"@,
        high,
        PAGE_SPEED@,
        low,
        "\" max=\""@,
        high,
        quote,
        number,
    );
    four_rejoined(
        front,
        PAGE_TEXT@ + limit + quote + html::html_escaped(set.text),
        PAGE_SPEED_HINT@,
        low + "&ndash;"@ + high + PAGE_SPEED@ + low + "\" max=\""@ + high + quote + number,
    );
}

proof fn speed_then_mount(set: display::Settings)
    ensures
        holds(
            speed_part(set) + mount_part(set),
            PAGE_SPEED@ + text::decimal(20) + "\" max=\""@ + text::decimal(500) + "\" value=\""@
                + text::decimal(set.speed_ms as nat) + PAGE_HORIZONTAL@,
        ),
{
    let low = text::decimal(20);
    let high = text::decimal(500);
    let quote = "\" value=\""@;
    let number = text::decimal(set.speed_ms as nat);
    let front = PAGE_SPEED_HINT@ + low + "&ndash;"@ + high;
    chain_of_six(front, PAGE_SPEED@, low, "\" max=\""@, high, quote, number);
    let vertical = panels::is_vertical(set.orientation);
    let inverted = panels::is_inverted(set.orientation);
    let word = "selected"@;
    chain_of_nine(
        PAGE_HORIZONTAL@,
        when(!vertical, word),
        PAGE_VERTICAL@,
        when(vertical, word),
        PAGE_UPRIGHT@,
        when(!inverted, word),
        PAGE_INVERTED@,
        when(inverted, word),
        PAGE_DIRECTIONS@,
        direction_options(set.orientation, set.direction),
    );
    four_rejoined(
        front,
        PAGE_SPEED@ + low + "\" max=\""@ + high + quote + number,
        PAGE_HORIZONTAL@,
        when(!vertical, word) + PAGE_VERTICAL@ + when(vertical, word) + PAGE_UPRIGHT@ + when(
            !inverted,
            word,
        ) + PAGE_INVERTED@ + when(inverted, word) + PAGE_DIRECTIONS@ + direction_options(
            set.orientation,
            set.direction,
        ),
    );
}

proof fn margin_then_port(set: display::Settings, port: u16)
    ensures
        holds(
            margin_part(set) + port_part(port),
            PAGE_MARGIN@ + text::decimal(20) + "\" value=\""@ + text::decimal(
                set.panel_margin as nat,
            ) + PAGE_STREAMS@,
        ),
        holds(
            margin_part(set) + port_part(port),
            PAGE_STREAMS@ + when(set.margin_applies_streams, "checked"@) + PAGE_PORT@,
        ),
{
    let low = text::decimal(20);
    let quote = "\" value=\""@;
    let gap = text::decimal(set.panel_margin as nat);
    let front = PAGE_MARGIN_HINT@ + low;
    let checked = when(set.margin_applies_streams, "checked"@);
    let number = text::decimal(port as nat);
    let field = PAGE_MARGIN@ + low + quote + gap;
    chain_of_four(front, PAGE_MARGIN@, low, quote, gap);
    assert(margin_part(set) == front + field + PAGE_STREAMS@ + checked);
    assert(margin_part(set) + port_part(port) =~= front + (field + PAGE_STREAMS@) + (checked
        + port_part(port)));
    rejoined(front + field, PAGE_STREAMS@, checked, PAGE_PORT@, number);
}

proof fn port_then_access(
    port: u16,
    user: Seq<char>,
    configured: bool,
    version: Seq<char>,
    slot: Seq<char>,
)
    ensures
        holds(
            port_part(port) + access_part(user, configured, version, slot),
            PAGE_PORT@ + text::decimal(port as nat) + PAGE_ACCESS@,
        ),
{
    let user = html::html_escaped(user);
    let version = html::html_escaped(version);
    let slot = html::html_escaped(slot);
    let control = upload_control(configured);
    let rest = user + PAGE_FIRMWARE@ + version + " from "@ + slot + PAGE_UPLOAD@ + control
        + PAGE_END@;
    chain_of_eight(
        PAGE_ACCESS@,
        user,
        PAGE_FIRMWARE@,
        version,
        " from "@,
        slot,
        PAGE_UPLOAD@,
        control,
        PAGE_END@,
    );
    four_rejoined(Seq::empty(), port_part(port), PAGE_ACCESS@, rest);
    assert(Seq::empty() + port_part(port) =~= port_part(port));
}

proof fn script_holds_the_copy(set: display::Settings, port: u16, mode: PortalMode)
    ensures
        holds(script_part(set, port, mode), saved_copy(set, port)),
{
    let speed = text::decimal(set.speed_ms as nat);
    let orientation = text::decimal(set.orientation as nat);
    let direction = text::decimal(set.direction as nat);
    let gap = text::decimal(set.panel_margin as nat);
    let streams = text::decimal(
        if set.margin_applies_streams {
            1
        } else {
            0
        },
    );
    let number = text::decimal(port as nat);
    let copied = html::js_literal(set.text);
    chain_of_six(
        PAGE_HEAD@,
        copied,
        PAGE_SAVED_SPEED@,
        speed,
        PAGE_SAVED_ORIENT@,
        orientation,
        PAGE_SAVED_DIR@,
    );
    let first = copied + PAGE_SAVED_SPEED@ + speed + PAGE_SAVED_ORIENT@ + orientation
        + PAGE_SAVED_DIR@;
    chain_of_nine(
        PAGE_HEAD@,
        first,
        direction,
        PAGE_SAVED_MARGIN@,
        gap,
        PAGE_SAVED_STREAMS@,
        streams,
        PAGE_SAVED_PORT@,
        number,
        PAGE_SCRIPT@,
    );
    let copy = saved_copy(set, port);
    let note = reboot_note(mode);
    chain_of_four(PAGE_HEAD@ + copy, PAGE_ORIENT_CODE@, PAGE_ACTIONS@, note, PAGE_BODY@);
    assert(script_part(set, port, mode) == PAGE_HEAD@ + copy + (PAGE_ORIENT_CODE@ + PAGE_ACTIONS@
        + note + PAGE_BODY@));
}

proof fn chain_of_four(a: Seq<char>, b: Seq<char>, c: Seq<char>, d: Seq<char>, e: Seq<char>)
    ensures
        a + b + c + d + e == a + (b + c + d + e),
{
    assert(a + b + c + d + e =~= a + (b + c + d + e));
}

proof fn chain_of_six(
    a: Seq<char>,
    b: Seq<char>,
    c: Seq<char>,
    d: Seq<char>,
    e: Seq<char>,
    f: Seq<char>,
    g: Seq<char>,
)
    ensures
        a + b + c + d + e + f + g == a + (b + c + d + e + f + g),
{
    chain_of_four(a, b, c, d, e);
    chain_of_four(a, b + c + d + e, f, g, Seq::empty());
    assert(a + (b + c + d + e) + f + g + Seq::empty() =~= a + (b + c + d + e) + f + g);
    assert(b + c + d + e + f + g + Seq::empty() =~= b + c + d + e + f + g);
}

proof fn chain_of_eight(
    a: Seq<char>,
    b: Seq<char>,
    c: Seq<char>,
    d: Seq<char>,
    e: Seq<char>,
    f: Seq<char>,
    g: Seq<char>,
    h: Seq<char>,
    i: Seq<char>,
)
    ensures
        a + b + c + d + e + f + g + h + i == a + (b + c + d + e + f + g + h + i),
{
    chain_of_six(a, b, c, d, e, f, g);
    four_rejoined(a, b + c + d + e + f + g, h, i);
    assert((a + (b + c + d + e + f + g)) + h + i =~= (a + (b + c + d + e + f + g)) + (h + i));
    assert(a + (b + c + d + e + f + g + h) + i =~= a + (b + c + d + e + f + g + h + i));
}

proof fn chain_of_nine(
    a: Seq<char>,
    b: Seq<char>,
    c: Seq<char>,
    d: Seq<char>,
    e: Seq<char>,
    f: Seq<char>,
    g: Seq<char>,
    h: Seq<char>,
    i: Seq<char>,
    j: Seq<char>,
)
    ensures
        a + b + c + d + e + f + g + h + i + j == a + (b + c + d + e + f + g + h + i + j),
{
    chain_of_eight(a, b, c, d, e, f, g, h, i);
    let middle = b + c + d + e + f + g + h + i;
    assert(a + middle + j =~= a + (middle + j));
}

proof fn four_rejoined(a: Seq<char>, b: Seq<char>, c: Seq<char>, d: Seq<char>)
    ensures
        (a + b) + (c + d) == a + (b + c) + d,
{
    assert((a + b) + (c + d) =~= a + (b + c) + d);
}

/// The page says how things stand: where it is served from, that a portal
/// without a password is open, how the last network test went, whose portal it
/// is and what is running; and it offers an upload only behind a password.
pub open spec fn says_how_things_stand(
    shown: Seq<char>,
    wifi_test: WifiTestResult,
    mode: PortalMode,
    user: Seq<char>,
    pass: Seq<char>,
    version: Seq<char>,
    slot: Seq<char>,
) -> bool {
    &&& holds(
        shown,
        PAGE_ACTIONS@ + (match mode {
            PortalMode::Setup => "The setup portal will close."@,
            PortalMode::Connected { ip: _ } =>
                "The light will be back on the network in a few seconds."@,
        }) + PAGE_BODY@ + (match mode {
            PortalMode::Setup => Seq::empty(),
            PortalMode::Connected { ip } => "<div class=\"status success\">Serving from the network at "@ + html::html_escaped(ip@) + ". Marquee changes apply as soon as they are saved. A new Wi-Fi network is tried after the reboot; if it cannot be reached the light falls back to its own setup access point.</div>"@,
        }) + r#"
      "#@ + (if pass.len() == 0 {
            "<div class=\"status failed\">No portal password is set, so anyone on this network can reconfigure this light. Firmware uploads stay disabled until you set one.</div>"@
        } else {
            Seq::empty()
        }) + r#"

      <h3>Wi-Fi</h3>
      <div id="wifi_status" class="status "#@ + (match wifi_test {
            WifiTestResult::Idle => "idle"@,
            WifiTestResult::Testing => "testing"@,
            WifiTestResult::Success => "success"@,
            WifiTestResult::Failed => "failed"@,
        }) + "\">"@ + (match wifi_test {
            WifiTestResult::Idle => "Connected network unchanged unless you pick a new one."@,
            WifiTestResult::Testing => "Testing connection..."@,
            WifiTestResult::Success => "Last test: connected successfully."@,
            WifiTestResult::Failed => "Last test: connection failed."@,
        }) + r#"</div>
      <div class="form-group">
        <label>Network (SSID) <span class="hint">(leave as "keep current" to not change it)</span></label>
        <select id="ssid">"#@,
    )
    &&& holds(
        shown,
        r#"" />
      </div>

      <h3>Portal access</h3>
      <div class="form-group">
        <label>Username</label>
        <input type="text" id="portal_user" value=""#@ + html::html_escaped(user) + r#"" />
      </div>
      <div class="form-group">
        <label>New password <span class="hint">(leave blank to keep the current one)</span></label>
        <input type="password" id="portal_pass" />
      </div>
      <button onclick="savePortalAuth()">Set portal password</button>
      <button onclick="clearPortalAuth()">Remove password</button>

      <h3>Firmware</h3>
      <div class="form-group">
        <label>Running <span class="hint">(version, and which of the two slots it booted from)</span></label>
        <div>"#@ + html::html_escaped(version) + " from "@ + html::html_escaped(slot) + r#"</div>
      </div>
      "#@ + (if pass.len() > 0 {
            "<div class=\"form-group\">\n        <input type=\"file\" id=\"fw\" accept=\".bin\" />\n      </div>\n               <div id=\"fw_status\" class=\"status idle\">Choose a .bin built by <code>cargo build --release</code>.</div>\n               <button onclick=\"uploadFirmware()\">Upload firmware</button>"@
        } else {
            "<div class=\"status failed\">Set a portal password above before uploading firmware.</div>"@
        }) + r#"

      <button onclick="doReboot()">Reboot</button>
    </div>
  </body>
</html>"#@,
    )
}

/// Whatever the state of the light is, the page says so.
pub proof fn the_page_says_how_things_stand(
    ssids: Seq<String>,
    display: display::DisplayView,
    port: u16,
    mode: PortalMode,
    auth: AuthPolicy,
    firmware: RunningFirmware,
)
    ensures
        says_how_things_stand(
            page(ssids, display, port, mode, auth, firmware),
            display.wifi_test,
            mode,
            auth.user@,
            auth.pass@,
            firmware.version@,
            firmware.slot@,
        ),
        forall|i: int|
            0 <= i < ssids.len() ==> holds(
                page(ssids, display, port, mode, auth, firmware),
                "<option value=\""@ + html::html_escaped((#[trigger] ssids[i])@) + "\">"@
                    + html::html_escaped(ssids[i]@) + "</option>"@,
            ),
{
    let set = display.settings.with_direction(display.settings.direction);
    let configured = auth.pass@.len() > 0;
    let script = script_part(set, port, mode);
    let network = network_part(ssids, display.wifi_test, mode, configured);
    let settings = marquee_part(set, port);
    let access = access_part(auth.user@, configured, firmware.version@, firmware.slot@);
    let shown = page(ssids, display, port, mode, auth, firmware);
    let tail = settings + access;
    assert(shown =~= Seq::<char>::empty() + (script + network) + tail);
    assert(shown =~= (script + network + settings) + access + Seq::empty());
    script_then_network(set, port, ssids, display.wifi_test, mode, configured);
    what_a_part_holds_is_held(
        Seq::empty(),
        script + network,
        tail,
        notes(display.wifi_test, mode, configured),
    );
    assert(shown == (script + network + settings) + access + Seq::empty());
    a_part_is_held(script + network + settings, access, Seq::empty());
    assert(holds(shown, access));
    assert forall|i: int| 0 <= i < ssids.len() implies holds(
        shown,
        network_option((#[trigger] ssids[i])@),
    ) by {
        every_network_is_offered(ssids, ssids.len(), i);
        let options = network_options(ssids, ssids.len());
        let front = mode_note(mode) + PAGE_BETWEEN_NOTES@ + auth_note(configured) + PAGE_WIFI@
            + wifi_word(display.wifi_test) + "\">"@ + wifi_sentence(display.wifi_test)
            + PAGE_NETWORKS@;
        assert(network == front + options);
        assert(shown =~= (script + front) + options + tail);
        what_a_part_holds_is_held(script + front, options, tail, network_option(ssids[i]@));
    }
}

/// From the end of the script to the list of networks.
spec fn notes(wifi_test: WifiTestResult, mode: PortalMode, configured: bool) -> Seq<char> {
    PAGE_ACTIONS@ + reboot_note(mode) + PAGE_BODY@ + mode_note(mode) + PAGE_BETWEEN_NOTES@
        + auth_note(configured) + PAGE_WIFI@ + wifi_word(wifi_test) + "\">"@ + wifi_sentence(
        wifi_test,
    ) + PAGE_NETWORKS@
}

proof fn script_then_network(
    set: display::Settings,
    port: u16,
    ssids: Seq<String>,
    wifi_test: WifiTestResult,
    mode: PortalMode,
    configured: bool,
)
    ensures
        holds(
            script_part(set, port, mode) + network_part(ssids, wifi_test, mode, configured),
            notes(wifi_test, mode, configured),
        ),
{
    let front = script_front(set, port);
    let options = network_options(ssids, ssids.len());
    let note = reboot_note(mode);
    let word = wifi_word(wifi_test);
    let sentence = wifi_sentence(wifi_test);
    let served = mode_note(mode);
    let warning = auth_note(configured);
    let end = PAGE_ACTIONS@ + note + PAGE_BODY@;
    let start = served + PAGE_BETWEEN_NOTES@ + warning + PAGE_WIFI@ + word + "\">"@ + sentence
        + PAGE_NETWORKS@;
    assert(script_part(set, port, mode) == front + PAGE_ACTIONS@ + note + PAGE_BODY@);
    rejoined(front, PAGE_ACTIONS@, note, PAGE_BODY@, Seq::empty());
    assert(script_part(set, port, mode) =~= front + end);
    assert(network_part(ssids, wifi_test, mode, configured) == start + options);
    chain_of_eight(
        end,
        served,
        PAGE_BETWEEN_NOTES@,
        warning,
        PAGE_WIFI@,
        word,
        "\">"@,
        sentence,
        PAGE_NETWORKS@,
    );
    assert(notes(wifi_test, mode, configured) == end + start);
    four_rejoined(front, end, start, options);
}

/// The page up to what its script can do.
spec fn script_front(set: display::Settings, port: u16) -> Seq<char> {
    PAGE_HEAD@ + html::js_literal(set.text) + PAGE_SAVED_SPEED@ + text::decimal(set.speed_ms as nat)
        + PAGE_SAVED_ORIENT@ + text::decimal(set.orientation as nat) + PAGE_SAVED_DIR@
        + text::decimal(set.direction as nat) + PAGE_SAVED_MARGIN@ + text::decimal(
        set.panel_margin as nat,
    ) + PAGE_SAVED_STREAMS@ + text::decimal(
        if set.margin_applies_streams {
            1
        } else {
            0
        },
    ) + PAGE_SAVED_PORT@ + text::decimal(port as nat) + PAGE_SCRIPT@ + PAGE_ORIENT_CODE@
}

proof fn every_network_is_offered(ssids: Seq<String>, n: nat, i: int)
    requires
        0 <= i < n <= ssids.len(),
    ensures
        holds(network_options(ssids, n), network_option(ssids[i]@)),
    decreases n,
{
    let option = network_option(ssids[n - 1]@);
    let front = network_options(ssids, (n - 1) as nat);
    if i == n - 1 {
        a_part_is_held(front, option, Seq::empty());
        assert(front + option + Seq::empty() =~= front + option);
    } else {
        every_network_is_offered(ssids, (n - 1) as nat, i);
        what_a_part_holds_is_held(Seq::empty(), front, option, network_option(ssids[i]@));
        assert(Seq::empty() + front + option =~= front + option);
    }
}

} // verus!
