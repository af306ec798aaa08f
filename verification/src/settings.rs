//! What the portal's forms change: the live settings, what is stored, the
//! network credentials and the portal password.

use vstd::prelude::*;

use crate::auth;
use crate::auth::{AuthPolicy, AUTH_USER_DEFAULT};
use crate::display;
use crate::display::{clamp_speed_ms, DisplayDriver, WifiTestResult};
use crate::form;
use crate::form::Form;
use crate::marquee;
use crate::marquee::MARQUEE_TEXT_MAX;
use crate::panels;
use crate::panels::{clamp_direction, clamp_margin, clamp_orientation};
use crate::store;
use crate::store::{push_put, push_take_out, StoreOp, StoreValue};
use crate::store::{AUTH_PASS_BUF, AUTH_USER_BUF, MARQUEE_TEXT_BUF, SSID_BUF, WIFI_PASS_BUF};
use crate::store::{NS_AUTH, NS_DISPLAY, NS_WIFI};
use crate::text;
use crate::text::{parse_u16, parse_u8, same_text, trim, truncate_chars};

verus! {

/// UDP port that frames are taken on if none is stored.
pub const DEFAULT_LISTEN_PORT: u16 = 4048;

/// The number that a form gives for a field, if it gives one that fits.
pub open spec fn number(f: Map<Seq<char>, Seq<char>>, name: Seq<char>, max: nat) -> Option<nat> {
    match form::field(f, name) {
        Some(v) => text::parsed_number(v, max),
        None => None,
    }
}

/// Whether a form ticks a box, if it speaks of it.
pub open spec fn ticked(f: Map<Seq<char>, Seq<char>>, name: Seq<char>) -> Option<bool> {
    match form::field(f, name) {
        Some(v) => Some(v == "1"@),
        None => None,
    }
}

fn number_u16(f: &Form, name: &str) -> (n: Option<u16>)
    ensures
        match n {
            Some(v) => number(f@, name@, u16::MAX as nat) == Some(v as nat),
            None => number(f@, name@, u16::MAX as nat) is None,
        },
{
    match f.get(name) {
        Some(v) => parse_u16(v.as_str()),
        None => None,
    }
}

fn number_u8(f: &Form, name: &str) -> (n: Option<u8>)
    ensures
        match n {
            Some(v) => number(f@, name@, u8::MAX as nat) == Some(v as nat),
            None => number(f@, name@, u8::MAX as nat) is None,
        },
{
    match f.get(name) {
        Some(v) => parse_u8(v.as_str()),
        None => None,
    }
}

fn tick(f: &Form, name: &str) -> (on: Option<bool>)
    ensures
        on == ticked(f@, name@),
{
    match f.get(name) {
        Some(v) => Some(same_text(v.as_str(), "1")),
        None => None,
    }
}

/// The settings with the text that a form gives.
pub open spec fn text_step(
    s: display::Settings,
    f: Map<Seq<char>, Seq<char>>,
) -> display::Settings {
    match form::field(f, "mq_text"@) {
        Some(v) => s.with_text(v),
        None => s,
    }
}

/// The settings with the delay that a form gives.
pub open spec fn speed_step(
    s: display::Settings,
    f: Map<Seq<char>, Seq<char>>,
) -> display::Settings {
    match number(f, "mq_speed_ms"@, u16::MAX as nat) {
        Some(n) => s.with_speed(n as u16),
        None => s,
    }
}

/// The settings with the orientation that a form gives.
pub open spec fn orientation_step(
    s: display::Settings,
    f: Map<Seq<char>, Seq<char>>,
) -> display::Settings {
    match number(f, "mq_orient"@, u8::MAX as nat) {
        Some(n) => s.with_orientation(n as u8),
        None => s,
    }
}

/// The settings with the direction that a form gives.
pub open spec fn direction_step(
    s: display::Settings,
    f: Map<Seq<char>, Seq<char>>,
) -> display::Settings {
    match number(f, "mq_dir"@, u8::MAX as nat) {
        Some(n) => s.with_direction(n as u8),
        None => s,
    }
}

/// The settings with the margin that a form gives.
pub open spec fn margin_step(
    s: display::Settings,
    f: Map<Seq<char>, Seq<char>>,
) -> display::Settings {
    match number(f, "panel_margin"@, u8::MAX as nat) {
        Some(n) => s.with_margin(n as u8),
        None => s,
    }
}

/// The settings with what a form says of streams.
pub open spec fn streams_step(
    s: display::Settings,
    f: Map<Seq<char>, Seq<char>>,
) -> display::Settings {
    match ticked(f, "margin_streams"@) {
        Some(on) => s.with_streams(on),
        None => s,
    }
}

/// The settings that a form makes of `s`. A field that is missing, or does not
/// hold a number where one belongs, leaves its setting alone. The orientation
/// is taken before the direction, which has to fit it.
pub open spec fn previewed(
    s: display::Settings,
    f: Map<Seq<char>, Seq<char>>,
) -> display::Settings {
    streams_step(
        margin_step(
            direction_step(orientation_step(speed_step(text_step(s, f), f), f), f),
            f,
        ),
        f,
    )
}

/// Show what a form asks for, without storing any of it.
pub fn preview(display: &mut DisplayDriver, f: &Form)
    ensures
        final(display)@ == (display::DisplayView {
            settings: previewed(old(display)@.settings, f@),
            ..old(display)@
        }),
{
    if let Some(v) = f.get("mq_text") {
        display.set_marquee_text(v.as_str());
    }
    if let Some(ms) = number_u16(f, "mq_speed_ms") {
        display.set_marquee_speed_ms(ms);
    }
    if let Some(o) = number_u8(f, "mq_orient") {
        display.set_orientation(o);
    }
    if let Some(d) = number_u8(f, "mq_dir") {
        display.set_direction(d);
    }
    if let Some(m) = number_u8(f, "panel_margin") {
        display.set_panel_margin(m);
    }
    if let Some(on) = tick(f, "margin_streams") {
        display.set_margin_applies_streams(on);
    }
}

/// What a form has stored of the text.
pub open spec fn text_ops(f: Map<Seq<char>, Seq<char>>) -> Seq<store::Op> {
    match form::field(f, "mq_text"@) {
        Some(v) => seq![
            store::put_text(
                NS_DISPLAY@,
                "mq_text"@,
                text::truncated(v, MARQUEE_TEXT_MAX as int),
            ),
        ],
        None => Seq::empty(),
    }
}

/// What a form has stored of the delay.
pub open spec fn speed_ops(f: Map<Seq<char>, Seq<char>>) -> Seq<store::Op> {
    match number(f, "mq_speed_ms"@, u16::MAX as nat) {
        Some(n) => seq![
            store::put_word(NS_DISPLAY@, "mq_speed_ms"@, display::clamped_speed(n as u16)),
        ],
        None => Seq::empty(),
    }
}

/// What a form has stored of the orientation.
pub open spec fn orientation_ops(f: Map<Seq<char>, Seq<char>>) -> Seq<store::Op> {
    match number(f, "mq_orient"@, u8::MAX as nat) {
        Some(n) => seq![
            store::put_byte(NS_DISPLAY@, "mq_orient"@, panels::clamped_orientation(n as u8)),
        ],
        None => Seq::empty(),
    }
}

/// What a form has stored of the direction, on a light with the given
/// orientation.
pub open spec fn direction_ops(orientation: u8, f: Map<Seq<char>, Seq<char>>) -> Seq<store::Op> {
    match number(f, "mq_dir"@, u8::MAX as nat) {
        Some(n) => seq![
            store::put_byte(
                NS_DISPLAY@,
                "mq_dir"@,
                panels::clamped_direction(orientation, n as u8),
            ),
        ],
        None => Seq::empty(),
    }
}

/// What a form has stored of the margin.
pub open spec fn margin_ops(f: Map<Seq<char>, Seq<char>>) -> Seq<store::Op> {
    match number(f, "panel_margin"@, u8::MAX as nat) {
        Some(n) => seq![
            store::put_byte(NS_DISPLAY@, "panel_margin"@, panels::clamped_margin(n as u8)),
        ],
        None => Seq::empty(),
    }
}

/// What a form has stored of whether the margin applies to streams.
pub open spec fn streams_ops(f: Map<Seq<char>, Seq<char>>) -> Seq<store::Op> {
    match ticked(f, "margin_streams"@) {
        Some(on) => seq![
            store::put_byte(
                NS_DISPLAY@,
                "margin_strm"@,
                if on {
                    1
                } else {
                    0
                },
            ),
        ],
        None => Seq::empty(),
    }
}

/// What a form has stored of the port. A zero is no port.
pub open spec fn port_ops(f: Map<Seq<char>, Seq<char>>) -> Seq<store::Op> {
    match number(f, "listen_port"@, u16::MAX as nat) {
        Some(n) => if n == 0 {
            Seq::empty()
        } else {
            seq![store::put_word(NS_DISPLAY@, "listen_port"@, n as u16)]
        },
        None => Seq::empty(),
    }
}

/// What a form has stored of the settings, on a light with settings `s`.
pub open spec fn display_ops(s: display::Settings, f: Map<Seq<char>, Seq<char>>) -> Seq<store::Op> {
    text_ops(f) + speed_ops(f) + orientation_ops(f) + direction_ops(
        orientation_step(s, f).orientation,
        f,
    ) + margin_ops(f) + streams_ops(f) + port_ops(f)
}

fn save_text(ops: &mut Vec<StoreOp>, display: &mut DisplayDriver, f: &Form)
    ensures
        store::ops_of(final(ops)@) == store::ops_of(old(ops)@) + text_ops(f@),
        final(display)@ == (display::DisplayView {
            settings: text_step(old(display)@.settings, f@),
            ..old(display)@
        }),
{
    if let Some(v) = f.get("mq_text") {
        let v = truncate_chars(v.as_str(), MARQUEE_TEXT_MAX);
        proof {
            text::truncation_is_idempotent(
                form::field(f@, "mq_text"@)->0,
                MARQUEE_TEXT_MAX as int,
            );
        }
        display.set_marquee_text(v.as_str());
        push_put(ops, NS_DISPLAY, "mq_text", StoreValue::Text(v));
    }
    assert(store::ops_of(ops@) =~= store::ops_of(old(ops)@) + text_ops(f@));
}

fn save_speed(ops: &mut Vec<StoreOp>, display: &mut DisplayDriver, f: &Form)
    ensures
        store::ops_of(final(ops)@) == store::ops_of(old(ops)@) + speed_ops(f@),
        final(display)@ == (display::DisplayView {
            settings: speed_step(old(display)@.settings, f@),
            ..old(display)@
        }),
{
    if let Some(ms) = number_u16(f, "mq_speed_ms") {
        let ms: u16 = clamp_speed_ms(ms);
        display.set_marquee_speed_ms(ms);
        push_put(ops, NS_DISPLAY, "mq_speed_ms", StoreValue::Word(ms));
    }
    assert(store::ops_of(ops@) =~= store::ops_of(old(ops)@) + speed_ops(f@));
}

fn save_orientation(ops: &mut Vec<StoreOp>, display: &mut DisplayDriver, f: &Form)
    ensures
        store::ops_of(final(ops)@) == store::ops_of(old(ops)@) + orientation_ops(f@),
        final(display)@ == (display::DisplayView {
            settings: orientation_step(old(display)@.settings, f@),
            ..old(display)@
        }),
{
    if let Some(o) = number_u8(f, "mq_orient") {
        let o: u8 = clamp_orientation(o);
        display.set_orientation(o);
        push_put(ops, NS_DISPLAY, "mq_orient", StoreValue::Byte(o));
    }
    assert(store::ops_of(ops@) =~= store::ops_of(old(ops)@) + orientation_ops(f@));
}

fn save_direction(ops: &mut Vec<StoreOp>, display: &mut DisplayDriver, f: &Form)
    ensures
        store::ops_of(final(ops)@) == store::ops_of(old(ops)@) + direction_ops(
            old(display)@.settings.orientation,
            f@,
        ),
        final(display)@ == (display::DisplayView {
            settings: direction_step(old(display)@.settings, f@),
            ..old(display)@
        }),
{
    if let Some(d) = number_u8(f, "mq_dir") {
        // clamp against whatever orientation was just set
        let d: u8 = clamp_direction(display.marquee_config().orientation, d);
        display.set_direction(d);
        push_put(ops, NS_DISPLAY, "mq_dir", StoreValue::Byte(d));
    }
    assert(store::ops_of(ops@) =~= store::ops_of(old(ops)@) + direction_ops(
        old(display)@.settings.orientation,
        f@,
    ));
}

fn save_margin(ops: &mut Vec<StoreOp>, display: &mut DisplayDriver, f: &Form)
    ensures
        store::ops_of(final(ops)@) == store::ops_of(old(ops)@) + margin_ops(f@),
        final(display)@ == (display::DisplayView {
            settings: margin_step(old(display)@.settings, f@),
            ..old(display)@
        }),
{
    if let Some(m) = number_u8(f, "panel_margin") {
        let m: u8 = clamp_margin(m);
        display.set_panel_margin(m);
        push_put(ops, NS_DISPLAY, "panel_margin", StoreValue::Byte(m));
    }
    assert(store::ops_of(ops@) =~= store::ops_of(old(ops)@) + margin_ops(f@));
}

fn save_streams(ops: &mut Vec<StoreOp>, display: &mut DisplayDriver, f: &Form)
    ensures
        store::ops_of(final(ops)@) == store::ops_of(old(ops)@) + streams_ops(f@),
        final(display)@ == (display::DisplayView {
            settings: streams_step(old(display)@.settings, f@),
            ..old(display)@
        }),
{
    if let Some(on) = tick(f, "margin_streams") {
        display.set_margin_applies_streams(on);
        push_put(
            ops,
            NS_DISPLAY,
            "margin_strm",
            StoreValue::Byte(
                if on {
                    1
                } else {
                    0
                },
            ),
        );
    }
    assert(store::ops_of(ops@) =~= store::ops_of(old(ops)@) + streams_ops(f@));
}

fn save_port(ops: &mut Vec<StoreOp>, f: &Form)
    ensures
        store::ops_of(final(ops)@) == store::ops_of(old(ops)@) + port_ops(f@),
{
    if let Some(p) = number_u16(f, "listen_port") {
        if p != 0 {
            push_put(ops, NS_DISPLAY, "listen_port", StoreValue::Word(p));
        }
    }
    assert(store::ops_of(ops@) =~= store::ops_of(old(ops)@) + port_ops(f@));
}

/// Show what a form asks for, and say what is to be stored of it.
pub fn save_display(display: &mut DisplayDriver, f: &Form) -> (ops: Vec<StoreOp>)
    ensures
        store::ops_of(ops@) == display_ops(old(display)@.settings, f@),
        final(display)@ == (display::DisplayView {
            settings: previewed(old(display)@.settings, f@),
            ..old(display)@
        }),
{
    let mut ops: Vec<StoreOp> = Vec::new();
    save_text(&mut ops, display, f);
    assert(store::ops_of(ops@) =~= text_ops(f@));
    save_speed(&mut ops, display, f);
    save_orientation(&mut ops, display, f);
    save_direction(&mut ops, display, f);
    save_margin(&mut ops, display, f);
    save_streams(&mut ops, display, f);
    save_port(&mut ops, f);
    ops
}

/// The network and password that a form asks for. A blank name means that the
/// current network is kept.
pub open spec fn wanted_network(f: Map<Seq<char>, Seq<char>>) -> Option<(Seq<char>, Seq<char>)> {
    match form::field(f, "ssid"@) {
        Some(ssid) => if text::trimmed(ssid).len() == 0 {
            None
        } else {
            Some(
                (
                    text::trimmed(ssid),
                    match form::field(f, "password"@) {
                        Some(pass) => pass,
                        None => Seq::empty(),
                    },
                ),
            )
        },
        None => None,
    }
}

/// What a form has stored of the network. The next boot tries it rather than
/// entering setup mode.
pub open spec fn network_ops(f: Map<Seq<char>, Seq<char>>) -> Seq<store::Op> {
    match wanted_network(f) {
        Some((ssid, pass)) => seq![
            store::put_text(NS_WIFI@, "ssid"@, ssid),
            store::put_text(NS_WIFI@, "pass"@, pass),
            store::put_byte(NS_WIFI@, "wap_mode"@, 0),
        ],
        None => Seq::empty(),
    }
}

/// The network and password that a form asks for, if any.
pub fn network_change(f: &Form) -> (change: Option<(String, String)>)
    ensures
        match change {
            Some((ssid, pass)) => wanted_network(f@) == Some((ssid@, pass@)),
            None => wanted_network(f@) is None,
        },
{
    match f.get("ssid") {
        Some(ssid) => {
            let ssid = trim(ssid.as_str());
            if ssid.is_empty() {
                None
            } else {
                let pass = match f.get("password") {
                    Some(pass) => pass.clone(),
                    None => String::new(),
                };
                Some((ssid.to_owned(), pass))
            }
        },
        None => None,
    }
}

/// What a form does to the portal credentials.
pub enum AuthChange {
    Keep,
    Clear,
    Replace { user: String, pass: String },
}

/// What a form does to the portal credentials, by what it holds.
pub enum AuthWish {
    Keep,
    Clear,
    Replace { user: Seq<char>, pass: Seq<char> },
}

impl View for AuthChange {
    type V = AuthWish;

    open spec fn view(&self) -> AuthWish {
        match self {
            AuthChange::Keep => AuthWish::Keep,
            AuthChange::Clear => AuthWish::Clear,
            AuthChange::Replace { user, pass } => AuthWish::Replace { user: user@, pass: pass@ },
        }
    }
}

/// What a form asks for the portal credentials. Clearing them comes first. A
/// blank password means that they are kept; a blank username means the default.
pub open spec fn wanted_auth(f: Map<Seq<char>, Seq<char>>) -> AuthWish {
    if form::field(f, "portal_clear"@) == Some("1"@) {
        AuthWish::Clear
    } else {
        match form::field(f, "portal_pass"@) {
            Some(pass) => if pass.len() == 0 {
                AuthWish::Keep
            } else {
                AuthWish::Replace {
                    user: match form::field(f, "portal_user"@) {
                        Some(user) => if text::trimmed(user).len() == 0 {
                            AUTH_USER_DEFAULT@
                        } else {
                            text::trimmed(user)
                        },
                        None => AUTH_USER_DEFAULT@,
                    },
                    pass,
                }
            },
            None => AuthWish::Keep,
        }
    }
}

/// What is stored of the portal credentials.
pub open spec fn auth_ops(wish: AuthWish) -> Seq<store::Op> {
    match wish {
        AuthWish::Keep => Seq::empty(),
        AuthWish::Clear => seq![
            store::take_out(NS_AUTH@, "user"@),
            store::take_out(NS_AUTH@, "pass"@),
        ],
        AuthWish::Replace { user, pass } => seq![
            store::put_text(NS_AUTH@, "user"@, user),
            store::put_text(NS_AUTH@, "pass"@, pass),
        ],
    }
}

/// What a form asks for the portal credentials.
pub fn auth_change(f: &Form) -> (change: AuthChange)
    ensures
        change@ == wanted_auth(f@),
{
    if let Some(v) = f.get("portal_clear") {
        if same_text(v.as_str(), "1") {
            return AuthChange::Clear;
        }
    }
    match f.get("portal_pass") {
        Some(pass) => {
            if pass.as_str().is_empty() {
                AuthChange::Keep
            } else {
                let user = match f.get("portal_user") {
                    Some(user) => {
                        let user = trim(user.as_str());
                        if user.is_empty() {
                            AUTH_USER_DEFAULT.to_owned()
                        } else {
                            user.to_owned()
                        }
                    },
                    None => AUTH_USER_DEFAULT.to_owned(),
                };
                AuthChange::Replace { user, pass: pass.clone() }
            }
        },
        None => AuthChange::Keep,
    }
}

/// The username and password in force after a change.
pub open spec fn auth_after(user: Seq<char>, pass: Seq<char>, wish: AuthWish) -> (
    Seq<char>,
    Seq<char>,
) {
    match wish {
        AuthWish::Keep => (user, pass),
        AuthWish::Clear => (AUTH_USER_DEFAULT@, Seq::empty()),
        AuthWish::Replace { user, pass } => (user, pass),
    }
}

/// Apply a change to the running portal, so that the next request is already
/// challenged rather than waiting for a reboot, and say what is to be stored.
pub fn apply_auth(policy: &mut AuthPolicy, change: AuthChange) -> (ops: Vec<StoreOp>)
    ensures
        store::ops_of(ops@) == auth_ops(change@),
        (final(policy).user@, final(policy).pass@) == auth_after(
            old(policy).user@,
            old(policy).pass@,
            change@,
        ),
{
    let mut ops: Vec<StoreOp> = Vec::new();
    match change {
        AuthChange::Keep => {},
        AuthChange::Clear => {
            policy.user = AUTH_USER_DEFAULT.to_owned();
            policy.pass = String::new();
            push_take_out(&mut ops, NS_AUTH, "user");
            push_take_out(&mut ops, NS_AUTH, "pass");
        },
        AuthChange::Replace { user, pass } => {
            policy.user = user.clone();
            policy.pass = pass.clone();
            push_put(&mut ops, NS_AUTH, "user", StoreValue::Text(user));
            push_put(&mut ops, NS_AUTH, "pass", StoreValue::Text(pass));
        },
    }
    assert(store::ops_of(ops@) =~= auth_ops(change@));
    ops
}

/// All that a form has stored, in order: the settings if storage for them is
/// open, the network, and the portal credentials.
pub open spec fn save_ops(
    storage_open: bool,
    s: display::Settings,
    f: Map<Seq<char>, Seq<char>>,
) -> Seq<store::Op> {
    (if storage_open {
        display_ops(s, f)
    } else {
        Seq::empty()
    }) + network_ops(f) + auth_ops(wanted_auth(f))
}

/// What comes of saving a form: what is to be stored, in order, the network to
/// be tested now, and the answer.
pub struct SaveOutcome {
    pub ops: Vec<StoreOp>,
    pub test: Option<(String, String)>,
    pub reply: &'static str,
}

fn push_all(ops: &mut Vec<StoreOp>, more: Vec<StoreOp>)
    ensures
        store::ops_of(final(ops)@) == store::ops_of(old(ops)@) + store::ops_of(more@),
{
    let ghost added = more@;
    let mut more = more;
    ops.append(&mut more);
    assert(store::ops_of(ops@) =~= store::ops_of(old(ops)@) + store::ops_of(added));
}

/// Save a form. The settings are touched only if storage for them could be
/// opened. A network is tested in place only where there is someone to run the
/// test; otherwise it is stored and the next boot tries it.
pub fn save(
    f: &Form,
    display: &mut DisplayDriver,
    policy: &mut AuthPolicy,
    storage_open: bool,
    can_test: bool,
) -> (outcome: SaveOutcome)
    ensures
        store::ops_of(outcome.ops@) == save_ops(storage_open, old(display)@.settings, f@),
        final(display)@ == (display::DisplayView {
            settings: if storage_open {
                previewed(old(display)@.settings, f@)
            } else {
                old(display)@.settings
            },
            wifi_test: if can_test && wanted_network(f@) is Some {
                WifiTestResult::Testing
            } else {
                old(display)@.wifi_test
            },
            ..old(display)@
        }),
        (final(policy).user@, final(policy).pass@) == auth_after(
            old(policy).user@,
            old(policy).pass@,
            wanted_auth(f@),
        ),
        match outcome.test {
            Some((ssid, pass)) => can_test && wanted_network(f@) == Some((ssid@, pass@)),
            None => !can_test || wanted_network(f@) is None,
        },
        outcome.reply@ == (if outcome.test is Some {
            "saved-testing"@
        } else {
            "saved"@
        }),
{
    let mut ops: Vec<StoreOp> = if storage_open {
        save_display(display, f)
    } else {
        Vec::new()
    };
    let ghost of_display = store::ops_of(ops@);
    assert(!storage_open ==> of_display =~= Seq::empty());
    let mut test: Option<(String, String)> = None;
    if let Some((ssid, pass)) = network_change(f) {
        push_put(&mut ops, NS_WIFI, "ssid", StoreValue::Text(ssid.clone()));
        push_put(&mut ops, NS_WIFI, "pass", StoreValue::Text(pass.clone()));
        push_put(&mut ops, NS_WIFI, "wap_mode", StoreValue::Byte(0));
        if can_test {
            test = Some((ssid, pass));
        }
    }
    assert(store::ops_of(ops@) =~= of_display + network_ops(f@));
    push_all(&mut ops, apply_auth(policy, auth_change(f)));
    match test {
        Some(_) => {
            display.set_wifi_test(WifiTestResult::Testing);
            SaveOutcome { ops, test, reply: "saved-testing" }
        },
        None => SaveOutcome { ops, test, reply: "saved" },
    }
}

/// What was found in storage of the display settings.
pub struct StoredDisplay {
    pub text: Option<String>,
    pub speed_ms: Option<u16>,
    pub orientation: Option<u8>,
    pub direction: Option<u8>,
    pub panel_margin: Option<u8>,
    pub margin_streams: Option<u8>,
}

/// What was found in storage of the display settings, as values.
pub struct StoredView {
    pub text: Option<Seq<char>>,
    pub speed_ms: Option<u16>,
    pub orientation: Option<u8>,
    pub direction: Option<u8>,
    pub panel_margin: Option<u8>,
    pub margin_streams: Option<u8>,
}

impl View for StoredDisplay {
    type V = StoredView;

    open spec fn view(&self) -> StoredView {
        StoredView {
            text: text::held(self.text),
            speed_ms: self.speed_ms,
            orientation: self.orientation,
            direction: self.direction,
            panel_margin: self.panel_margin,
            margin_streams: self.margin_streams,
        }
    }
}

/// The settings that a light with settings `s` has once what was found in
/// storage is applied. What is missing leaves its setting alone.
pub open spec fn seeded(s: display::Settings, found: StoredView) -> display::Settings {
    let s = match found.text {
        Some(t) => s.with_text(t),
        None => s,
    };
    let s = match found.speed_ms {
        Some(ms) => s.with_speed(ms),
        None => s,
    };
    let s = match found.orientation {
        Some(o) => s.with_orientation(o),
        None => s,
    };
    let s = match found.direction {
        Some(d) => s.with_direction(d),
        None => s,
    };
    let s = match found.panel_margin {
        Some(m) => s.with_margin(m),
        None => s,
    };
    match found.margin_streams {
        Some(v) => s.with_streams(v != 0),
        None => s,
    }
}

/// Seed the live settings from storage at boot.
pub fn seed_marquee_from_nvs(display: &mut DisplayDriver, found: &StoredDisplay)
    ensures
        final(display)@ == (display::DisplayView {
            settings: seeded(old(display)@.settings, found@),
            ..old(display)@
        }),
{
    if let Some(t) = &found.text {
        display.set_marquee_text(t.as_str());
    }
    if let Some(ms) = found.speed_ms {
        display.set_marquee_speed_ms(ms);
    }
    if let Some(o) = found.orientation {
        display.set_orientation(o);
    }
    if let Some(d) = found.direction {
        display.set_direction(d);
    }
    if let Some(m) = found.panel_margin {
        display.set_panel_margin(m);
    }
    if let Some(v) = found.margin_streams {
        display.set_margin_applies_streams(v != 0);
    }
}

/// The port that frames are taken on, given what was found in storage.
pub open spec fn listen_port(found: Option<u16>) -> u16 {
    if found is Some && found != Some(0u16) {
        found->0
    } else {
        DEFAULT_LISTEN_PORT
    }
}

pub fn read_listen_port(found: Option<u16>) -> (port: u16)
    ensures
        port == listen_port(found),
        port != 0,
{
    match found {
        Some(p) => if p != 0 {
            p
        } else {
            DEFAULT_LISTEN_PORT
        },
        None => DEFAULT_LISTEN_PORT,
    }
}

/// What a boot finds in storage of the display settings.
pub open spec fn found_display(s: store::Store) -> StoredView {
    StoredView {
        text: store::found_text(s, NS_DISPLAY@, "mq_text"@, MARQUEE_TEXT_BUF),
        speed_ms: store::found_word(s, NS_DISPLAY@, "mq_speed_ms"@),
        orientation: store::found_byte(s, NS_DISPLAY@, "mq_orient"@),
        direction: store::found_byte(s, NS_DISPLAY@, "mq_dir"@),
        panel_margin: store::found_byte(s, NS_DISPLAY@, "panel_margin"@),
        margin_streams: store::found_byte(s, NS_DISPLAY@, "margin_strm"@),
    }
}

/// What a boot finds in storage of the port.
pub open spec fn found_port(s: store::Store) -> Option<u16> {
    store::found_word(s, NS_DISPLAY@, "listen_port"@)
}

proof fn display_keys_differ()
    ensures
        "mq_text"@ != "mq_speed_ms"@,
        "mq_text"@ != "mq_orient"@,
        "mq_text"@ != "mq_dir"@,
        "mq_text"@ != "panel_margin"@,
        "mq_text"@ != "margin_strm"@,
        "mq_text"@ != "listen_port"@,
        "mq_speed_ms"@ != "mq_orient"@,
        "mq_speed_ms"@ != "mq_dir"@,
        "mq_speed_ms"@ != "panel_margin"@,
        "mq_speed_ms"@ != "margin_strm"@,
        "mq_speed_ms"@ != "listen_port"@,
        "mq_orient"@ != "mq_dir"@,
        "mq_orient"@ != "panel_margin"@,
        "mq_orient"@ != "margin_strm"@,
        "mq_orient"@ != "listen_port"@,
        "mq_dir"@ != "panel_margin"@,
        "mq_dir"@ != "margin_strm"@,
        "mq_dir"@ != "listen_port"@,
        "panel_margin"@ != "margin_strm"@,
        "panel_margin"@ != "listen_port"@,
        "margin_strm"@ != "listen_port"@,
{
    reveal_strlit("mq_text");
    reveal_strlit("mq_speed_ms");
    reveal_strlit("mq_orient");
    reveal_strlit("mq_dir");
    reveal_strlit("panel_margin");
    reveal_strlit("margin_strm");
    reveal_strlit("listen_port");
    assert("mq_text"@.len() == 7);
    assert("mq_speed_ms"@.len() == 11);
    assert("mq_orient"@.len() == 9);
    assert("mq_dir"@.len() == 6);
    assert("panel_margin"@.len() == 12);
    assert("mq_speed_ms"@[1] == 'q');
    assert("margin_strm"@[1] == 'a');
    assert("listen_port"@[1] == 'i');
}

/// Storage after the settings of a form were stored in it.
pub open spec fn after_display(
    old_store: store::Store,
    s: display::Settings,
    f: Map<Seq<char>, Seq<char>>,
) -> store::Store {
    store::after(old_store, display_ops(s, f))
}

/// What lies under a key of the display settings after a form was saved.
proof fn display_key_after(
    old_store: store::Store,
    s: display::Settings,
    f: Map<Seq<char>, Seq<char>>,
    key: Seq<char>,
)
    ensures
        ({
            let place = (NS_DISPLAY@, key);
            let turned = direction_ops(orientation_step(s, f).orientation, f);
            let v = store::overridden(text_ops(f), place, store::lookup(old_store, place));
            let v = store::overridden(speed_ops(f), place, v);
            let v = store::overridden(orientation_ops(f), place, v);
            let v = store::overridden(turned, place, v);
            let v = store::overridden(margin_ops(f), place, v);
            let v = store::overridden(streams_ops(f), place, v);
            let v = store::overridden(port_ops(f), place, v);
            store::lookup(after_display(old_store, s, f), place) == v
        }),
{
    let place = (NS_DISPLAY@, key);
    let turned = direction_ops(orientation_step(s, f).orientation, f);
    let a = text_ops(f);
    let b = a + speed_ops(f);
    let c = b + orientation_ops(f);
    let d = c + turned;
    let e = d + margin_ops(f);
    let g = e + streams_ops(f);
    store::changes_add_up(old_store, a, speed_ops(f));
    store::changes_add_up(old_store, b, orientation_ops(f));
    store::changes_add_up(old_store, c, turned);
    store::changes_add_up(old_store, d, margin_ops(f));
    store::changes_add_up(old_store, e, streams_ops(f));
    store::changes_add_up(old_store, g, port_ops(f));
    store::at_most_one_change(old_store, a, place);
    store::at_most_one_change(store::after(old_store, a), speed_ops(f), place);
    store::at_most_one_change(store::after(old_store, b), orientation_ops(f), place);
    store::at_most_one_change(store::after(old_store, c), turned, place);
    store::at_most_one_change(store::after(old_store, d), margin_ops(f), place);
    store::at_most_one_change(store::after(old_store, e), streams_ops(f), place);
    store::at_most_one_change(store::after(old_store, g), port_ops(f), place);
}

proof fn found_after_display(
    old_store: store::Store,
    s: display::Settings,
    f: Map<Seq<char>, Seq<char>>,
)
    ensures
        ({
            let before = found_display(old_store);
            let now = found_display(after_display(old_store, s, f));
            &&& now.text == (match form::field(f, "mq_text"@) {
                Some(v) => if text::truncated(v, MARQUEE_TEXT_MAX as int).contains('\0') {
                    before.text
                } else {
                    Some(text::truncated(v, MARQUEE_TEXT_MAX as int))
                },
                None => before.text,
            })
            &&& now.speed_ms == (match number(f, "mq_speed_ms"@, u16::MAX as nat) {
                Some(n) => Some(display::clamped_speed(n as u16)),
                None => before.speed_ms,
            })
            &&& now.orientation == (match number(f, "mq_orient"@, u8::MAX as nat) {
                Some(n) => Some(panels::clamped_orientation(n as u8)),
                None => before.orientation,
            })
            &&& now.direction == (match number(f, "mq_dir"@, u8::MAX as nat) {
                Some(n) => Some(
                    panels::clamped_direction(orientation_step(s, f).orientation, n as u8),
                ),
                None => before.direction,
            })
            &&& now.panel_margin == (match number(f, "panel_margin"@, u8::MAX as nat) {
                Some(n) => Some(panels::clamped_margin(n as u8)),
                None => before.panel_margin,
            })
            &&& now.margin_streams == (match ticked(f, "margin_streams"@) {
                Some(on) => Some(
                    if on {
                        1u8
                    } else {
                        0u8
                    },
                ),
                None => before.margin_streams,
            })
        }),
        found_port(after_display(old_store, s, f)) == (match number(
            f,
            "listen_port"@,
            u16::MAX as nat,
        ) {
            Some(n) => if n == 0 {
                found_port(old_store)
            } else {
                Some(n as u16)
            },
            None => found_port(old_store),
        }),
{
    let before = found_display(old_store);
    let now = found_display(after_display(old_store, s, f));
    display_keys_differ();
    assert(now.text == (match form::field(f, "mq_text"@) {
        Some(v) => if text::truncated(v, MARQUEE_TEXT_MAX as int).contains('\0') {
            before.text
        } else {
            Some(text::truncated(v, MARQUEE_TEXT_MAX as int))
        },
        None => before.text,
    })) by {
        if let Some(v) = form::field(f, "mq_text"@) {
            marquee::train_is_bounded(v);
        }
        display_key_after(old_store, s, f, "mq_text"@);
    }
    assert(now.speed_ms == (match number(f, "mq_speed_ms"@, u16::MAX as nat) {
        Some(n) => Some(display::clamped_speed(n as u16)),
        None => before.speed_ms,
    })) by {
        display_key_after(old_store, s, f, "mq_speed_ms"@);
    }
    assert(now.orientation == (match number(f, "mq_orient"@, u8::MAX as nat) {
        Some(n) => Some(panels::clamped_orientation(n as u8)),
        None => before.orientation,
    })) by {
        display_key_after(old_store, s, f, "mq_orient"@);
    }
    assert(now.direction == (match number(f, "mq_dir"@, u8::MAX as nat) {
        Some(n) => Some(panels::clamped_direction(orientation_step(s, f).orientation, n as u8)),
        None => before.direction,
    })) by {
        display_key_after(old_store, s, f, "mq_dir"@);
    }
    assert(now.panel_margin == (match number(f, "panel_margin"@, u8::MAX as nat) {
        Some(n) => Some(panels::clamped_margin(n as u8)),
        None => before.panel_margin,
    })) by {
        display_key_after(old_store, s, f, "panel_margin"@);
    }
    assert(now.margin_streams == (match ticked(f, "margin_streams"@) {
        Some(on) => Some(
            if on {
                1u8
            } else {
                0u8
            },
        ),
        None => before.margin_streams,
    })) by {
        display_key_after(old_store, s, f, "margin_strm"@);
    }
    display_key_after(old_store, s, f, "listen_port"@);
}

/// A form that turns the light onto the other axis without naming a direction,
/// while an old direction along that axis lies in storage, other than the
/// default one. The live light takes the default; the next boot finds the old
/// one.
pub open spec fn recalls_an_old_direction(
    s: display::Settings,
    found: StoredView,
    f: Map<Seq<char>, Seq<char>>,
) -> bool {
    match (number(f, "mq_orient"@, u8::MAX as nat), found.direction) {
        (Some(o), Some(d)) => {
            let orientation = panels::clamped_orientation(o as u8);
            &&& number(f, "mq_dir"@, u8::MAX as nat) is None
            &&& panels::direction_fits(orientation, d)
            &&& d != panels::default_direction(orientation)
            &&& !panels::direction_fits(s.orientation, d)
        },
        _ => false,
    }
}

/// What each setting is after seeding.
proof fn seeded_parts(s: display::Settings, found: StoredView)
    ensures
        ({
            let r = seeded(s, found);
            &&& r.text == (match found.text {
                Some(t) => text::truncated(t, MARQUEE_TEXT_MAX as int),
                None => s.text,
            })
            &&& r.speed_ms == (match found.speed_ms {
                Some(ms) => display::clamped_speed(ms),
                None => s.speed_ms,
            })
            &&& r.orientation == (match found.orientation {
                Some(o) => panels::clamped_orientation(o),
                None => s.orientation,
            })
            &&& r.direction == (match (found.orientation, found.direction) {
                (_, Some(d)) => panels::clamped_direction(r.orientation, d),
                (Some(_), None) => panels::clamped_direction(r.orientation, s.direction),
                (None, None) => s.direction,
            })
            &&& r.panel_margin == (match found.panel_margin {
                Some(m) => panels::clamped_margin(m),
                None => s.panel_margin,
            })
            &&& r.margin_applies_streams == (match found.margin_streams {
                Some(v) => v != 0,
                None => s.margin_applies_streams,
            })
        }),
{
}

/// What each setting is after a form.
proof fn previewed_parts(s: display::Settings, f: Map<Seq<char>, Seq<char>>)
    ensures
        ({
            let r = previewed(s, f);
            let turned = number(f, "mq_orient"@, u8::MAX as nat);
            &&& r.text == (match form::field(f, "mq_text"@) {
                Some(t) => text::truncated(t, MARQUEE_TEXT_MAX as int),
                None => s.text,
            })
            &&& r.speed_ms == (match number(f, "mq_speed_ms"@, u16::MAX as nat) {
                Some(n) => display::clamped_speed(n as u16),
                None => s.speed_ms,
            })
            &&& r.orientation == orientation_step(s, f).orientation
            &&& r.orientation == (match turned {
                Some(n) => panels::clamped_orientation(n as u8),
                None => s.orientation,
            })
            &&& r.direction == (match (turned, number(f, "mq_dir"@, u8::MAX as nat)) {
                (_, Some(n)) => panels::clamped_direction(r.orientation, n as u8),
                (Some(_), None) => panels::clamped_direction(r.orientation, s.direction),
                (None, None) => s.direction,
            })
            &&& r.panel_margin == (match number(f, "panel_margin"@, u8::MAX as nat) {
                Some(n) => panels::clamped_margin(n as u8),
                None => s.panel_margin,
            })
            &&& r.margin_applies_streams == (match ticked(f, "margin_streams"@) {
                Some(on) => on,
                None => s.margin_applies_streams,
            })
        }),
{
}

/// Storage after a form was saved.
pub open spec fn after_save(
    old_store: store::Store,
    storage_open: bool,
    s: display::Settings,
    f: Map<Seq<char>, Seq<char>>,
) -> store::Store {
    store::after(old_store, save_ops(storage_open, s, f))
}

proof fn namespaces_differ()
    ensures
        NS_DISPLAY@ != NS_WIFI@,
        NS_DISPLAY@ != NS_AUTH@,
        NS_WIFI@ != NS_AUTH@,
{
    reveal_strlit("disp_cfg");
    reveal_strlit("wifi_cfg");
    reveal_strlit("sec_cfg");
    assert(NS_DISPLAY@[0] == 'd');
    assert(NS_WIFI@[0] == 'w');
    assert(NS_AUTH@[0] == 's');
}

/// Of all that a form has stored, only its own part shows in a namespace.
pub proof fn each_part_of_a_save_is_found(
    old_store: store::Store,
    storage_open: bool,
    s: display::Settings,
    f: Map<Seq<char>, Seq<char>>,
    place: (Seq<char>, Seq<char>),
)
    ensures
        ({
            let found = store::lookup(after_save(old_store, storage_open, s, f), place);
            &&& place.0 == NS_DISPLAY@ && storage_open ==> found == store::lookup(
                after_display(old_store, s, f),
                place,
            )
            &&& place.0 == NS_DISPLAY@ && !storage_open ==> found == store::lookup(
                old_store,
                place,
            )
            &&& place.0 == NS_WIFI@ ==> found == store::lookup(
                store::after(old_store, network_ops(f)),
                place,
            )
            &&& place.0 == NS_AUTH@ ==> found == store::lookup(
                store::after(old_store, auth_ops(wanted_auth(f))),
                place,
            )
        }),
{
    namespaces_differ();
    let nothing = Seq::<store::Op>::empty();
    let of_display = if storage_open {
        display_ops(s, f)
    } else {
        nothing
    };
    let of_network = network_ops(f);
    let of_auth = auth_ops(wanted_auth(f));
    let ops = save_ops(storage_open, s, f);
    assert(forall|i: int|
        0 <= i < of_display.len() ==> (#[trigger] of_display[i]).namespace == NS_DISPLAY@);
    assert(forall|i: int|
        0 <= i < of_network.len() ==> (#[trigger] of_network[i]).namespace == NS_WIFI@);
    assert(forall|i: int|
        0 <= i < of_auth.len() ==> (#[trigger] of_auth[i]).namespace == NS_AUTH@);
    if place.0 == NS_DISPLAY@ {
        let rest = of_network + of_auth;
        assert(ops =~= nothing + of_display + rest);
        assert forall|i: int| 0 <= i < rest.len() implies (#[trigger] rest[i]).namespace
            != place.0 by {
            if i < of_network.len() {
                assert(rest[i] == of_network[i]);
            } else {
                assert(rest[i] == of_auth[i - of_network.len()]);
            }
        }
        store::other_namespaces_do_not_show(old_store, nothing, of_display, rest, place);
    } else if place.0 == NS_WIFI@ {
        store::other_namespaces_do_not_show(old_store, of_display, of_network, of_auth, place);
    } else if place.0 == NS_AUTH@ {
        let rest = of_display + of_network;
        assert(ops =~= rest + of_auth + nothing);
        assert forall|i: int| 0 <= i < rest.len() implies (#[trigger] rest[i]).namespace
            != place.0 by {
            if i < of_display.len() {
                assert(rest[i] == of_display[i]);
            } else {
                assert(rest[i] == of_network[i - of_display.len()]);
            }
        }
        store::other_namespaces_do_not_show(old_store, rest, of_auth, nothing, place);
    }
}

/// What a boot finds of the settings after a save is what the part of it that
/// concerns them left.
proof fn found_after_save(
    old_store: store::Store,
    s: display::Settings,
    f: Map<Seq<char>, Seq<char>>,
)
    ensures
        found_display(after_save(old_store, true, s, f)) == found_display(
            after_display(old_store, s, f),
        ),
        found_port(after_save(old_store, true, s, f)) == found_port(
            after_display(old_store, s, f),
        ),
{
    each_part_of_a_save_is_found(old_store, true, s, f, (NS_DISPLAY@, "mq_text"@));
    each_part_of_a_save_is_found(old_store, true, s, f, (NS_DISPLAY@, "mq_speed_ms"@));
    each_part_of_a_save_is_found(old_store, true, s, f, (NS_DISPLAY@, "mq_orient"@));
    each_part_of_a_save_is_found(old_store, true, s, f, (NS_DISPLAY@, "mq_dir"@));
    each_part_of_a_save_is_found(old_store, true, s, f, (NS_DISPLAY@, "panel_margin"@));
    each_part_of_a_save_is_found(old_store, true, s, f, (NS_DISPLAY@, "margin_strm"@));
    each_part_of_a_save_is_found(old_store, true, s, f, (NS_DISPLAY@, "listen_port"@));
}

/// The text that a form gives, if it gives one, is one that storage takes.
pub open spec fn text_is_storable(f: Map<Seq<char>, Seq<char>>) -> bool {
    match form::field(f, "mq_text"@) {
        Some(v) => !text::truncated(v, MARQUEE_TEXT_MAX as int).contains('\0'),
        None => true,
    }
}

/// A form gives every one of the six settings, as the page does.
pub open spec fn names_every_setting(f: Map<Seq<char>, Seq<char>>) -> bool {
    &&& form::field(f, "mq_text"@) is Some
    &&& number(f, "mq_speed_ms"@, u16::MAX as nat) is Some
    &&& number(f, "mq_orient"@, u8::MAX as nat) is Some
    &&& number(f, "mq_dir"@, u8::MAX as nat) is Some
    &&& number(f, "panel_margin"@, u8::MAX as nat) is Some
    &&& ticked(f, "margin_streams"@) is Some
}

/// A form that gives every setting boots as it shows, whatever was live and
/// whatever was stored before it.
pub proof fn a_full_form_boots_as_it_shows(
    old_store: store::Store,
    s: display::Settings,
    f: Map<Seq<char>, Seq<char>>,
)
    requires
        names_every_setting(f),
        text_is_storable(f),
    ensures
        seeded(display::default_settings(), found_display(after_save(old_store, true, s, f)))
            == previewed(s, f),
{
    let now = found_display(after_save(old_store, true, s, f));
    let booted = seeded(display::default_settings(), now);
    let shown = previewed(s, f);
    found_after_save(old_store, s, f);
    found_after_display(old_store, s, f);
    seeded_parts(display::default_settings(), now);
    previewed_parts(s, f);
    assert(booted.text == shown.text) by {
        text::truncation_is_idempotent(form::field(f, "mq_text"@)->0, MARQUEE_TEXT_MAX as int);
    }
    assert(booted.speed_ms == shown.speed_ms);
    assert(booted.orientation == shown.orientation);
    assert(booted.direction == shown.direction);
    assert(booted.panel_margin == shown.panel_margin);
    assert(booted.margin_applies_streams == shown.margin_applies_streams);
}

/// What is saved is what boots: if storage held the settings `s`, then after a
/// form was saved, however few of them it gives, it holds what the form made of
/// them.
pub proof fn what_is_saved_is_what_boots(
    old_store: store::Store,
    s: display::Settings,
    f: Map<Seq<char>, Seq<char>>,
)
    requires
        seeded(display::default_settings(), found_display(old_store)) == s,
        !recalls_an_old_direction(s, found_display(old_store), f),
        text_is_storable(f),
    ensures
        seeded(display::default_settings(), found_display(after_save(old_store, true, s, f)))
            == previewed(s, f),
{
    let before = found_display(old_store);
    let now = found_display(after_save(old_store, true, s, f));
    let booted = seeded(display::default_settings(), now);
    let shown = previewed(s, f);
    found_after_save(old_store, s, f);
    found_after_display(old_store, s, f);
    seeded_parts(display::default_settings(), before);
    seeded_parts(display::default_settings(), now);
    previewed_parts(s, f);
    assert(booted.text == shown.text) by {
        if let Some(v) = form::field(f, "mq_text"@) {
            text::truncation_is_idempotent(v, MARQUEE_TEXT_MAX as int);
        }
    }
    assert(booted.speed_ms == shown.speed_ms);
    assert(booted.orientation == shown.orientation);
    assert(booted.direction == shown.direction);
    assert(booted.panel_margin == shown.panel_margin);
    assert(booted.margin_applies_streams == shown.margin_applies_streams);
}

/// A port that is saved is the one that the next boot takes; a form without one
/// leaves it alone.
pub proof fn a_saved_port_is_used(
    old_store: store::Store,
    s: display::Settings,
    f: Map<Seq<char>, Seq<char>>,
)
    ensures
        listen_port(found_port(after_save(old_store, true, s, f))) == (match number(
            f,
            "listen_port"@,
            u16::MAX as nat,
        ) {
            Some(n) => if n == 0 {
                listen_port(found_port(old_store))
            } else {
                n as u16
            },
            None => listen_port(found_port(old_store)),
        }),
{
    found_after_save(old_store, s, f);
    found_after_display(old_store, s, f);
}

/// Saving the settings never touches the credentials: a blank network and a
/// blank portal password leave both as they are stored.
pub proof fn a_marquee_save_keeps_the_credentials(
    old_store: store::Store,
    storage_open: bool,
    s: display::Settings,
    f: Map<Seq<char>, Seq<char>>,
    place: (Seq<char>, Seq<char>),
)
    requires
        wanted_network(f) is None,
        wanted_auth(f) == AuthWish::Keep,
        place.0 == NS_WIFI@ || place.0 == NS_AUTH@,
    ensures
        store::lookup(after_save(old_store, storage_open, s, f), place) == store::lookup(
            old_store,
            place,
        ),
{
    each_part_of_a_save_is_found(old_store, storage_open, s, f, place);
}

/// The credentials that a boot finds in storage.
pub open spec fn stored_credentials(s: store::Store) -> (Seq<char>, Seq<char>) {
    auth::stored(
        store::found_text(s, NS_AUTH@, "user"@, AUTH_USER_BUF),
        store::found_text(s, NS_AUTH@, "pass"@, AUTH_PASS_BUF),
    )
}

/// The portal credentials that a form asks for are found again at the next boot.
pub open spec fn auth_is_storable(wish: AuthWish) -> bool {
    match wish {
        AuthWish::Replace { user, pass } => store::fits(user, AUTH_USER_BUF) && store::fits(
            pass,
            AUTH_PASS_BUF,
        ),
        _ => true,
    }
}

/// The network that a form asks for is found again at the next boot.
pub open spec fn network_is_storable(f: Map<Seq<char>, Seq<char>>) -> bool {
    match wanted_network(f) {
        Some((ssid, pass)) => store::fits(ssid, SSID_BUF) && store::fits(pass, WIFI_PASS_BUF),
        None => true,
    }
}

/// The portal credentials that are saved are those that the next boot asks for,
/// as long as they are short enough to be found again. Storage held `user` and
/// `pass` before, in the way a boot reads them.
pub proof fn saved_credentials_are_asked_for(
    old_store: store::Store,
    user: Seq<char>,
    pass: Seq<char>,
    storage_open: bool,
    s: display::Settings,
    f: Map<Seq<char>, Seq<char>>,
)
    requires
        stored_credentials(old_store) == (user, pass),
        auth_is_storable(wanted_auth(f)),
    ensures
        stored_credentials(after_save(old_store, storage_open, s, f)) == auth_after(
            user,
            pass,
            wanted_auth(f),
        ),
{
    let ops = auth_ops(wanted_auth(f));
    reveal_strlit("user");
    reveal_strlit("pass");
    assert("user"@ != "pass"@) by {
        assert("user"@[0] == 'u');
        assert("pass"@[0] == 'p');
    }
    reveal_strlit("admin");
    let user_at = (NS_AUTH@, "user"@);
    let pass_at = (NS_AUTH@, "pass"@);
    each_part_of_a_save_is_found(old_store, storage_open, s, f, user_at);
    each_part_of_a_save_is_found(old_store, storage_open, s, f, pass_at);
    if wanted_auth(f) != AuthWish::Keep {
        let first = seq![ops[0]];
        let second = seq![ops[1]];
        assert(ops =~= first + second);
        store::changes_add_up(old_store, first, second);
        store::at_most_one_change(old_store, first, user_at);
        store::at_most_one_change(old_store, first, pass_at);
        store::at_most_one_change(store::after(old_store, first), second, user_at);
        store::at_most_one_change(store::after(old_store, first), second, pass_at);
    }
}

/// A form sets what it names and leaves the rest alone. A text is taken up to 64
/// characters of it; a delay is kept between 20 and 500 milliseconds and a margin
/// at 20 units; a code that is no mount is the upright horizontal one, and a
/// direction that the mount cannot be scrolled in is from right to left or from
/// top to bottom.
pub proof fn a_form_sets_what_it_names(
    s: display::Settings,
    f: Map<Seq<char>, Seq<char>>,
    speed: nat,
    orientation: nat,
    direction: nat,
    margin: nat,
)
    requires
        s.in_range(),
        speed <= 65535,
        orientation <= 255,
        direction <= 255,
        margin <= 255,
    ensures
        ({
            let r = previewed(s, f);
            let vertical = r.orientation == 1 || r.orientation == 3;
            &&& match form::field(f, "mq_text"@) {
                Some(t) => r.text == (if t.len() <= 64 {
                    t
                } else {
                    t.take(64)
                }),
                None => r.text == s.text,
            }
            &&& form::field(f, "mq_speed_ms"@) == Some(text::decimal(speed)) ==> r.speed_ms == (
            if speed < 20 {
                20
            } else if speed > 500 {
                500
            } else {
                speed
            })
            &&& form::field(f, "mq_speed_ms"@) is None ==> r.speed_ms == s.speed_ms
            &&& form::field(f, "mq_orient"@) == Some(text::decimal(orientation)) ==> r.orientation
                == (if orientation <= 3 {
                orientation
            } else {
                0
            })
            &&& form::field(f, "mq_orient"@) is None ==> r.orientation == s.orientation
            &&& form::field(f, "mq_dir"@) == Some(text::decimal(direction)) ==> r.direction == (
            if vertical {
                if direction == 3 {
                    3int
                } else {
                    2int
                }
            } else {
                if direction == 0 {
                    0int
                } else {
                    1int
                }
            })
            &&& form::field(f, "mq_dir"@) is None ==> r.direction == (if vertical {
                if s.direction == 3 {
                    3int
                } else {
                    2int
                }
            } else {
                if s.direction == 0 {
                    0int
                } else {
                    1int
                }
            })
            &&& form::field(f, "panel_margin"@) == Some(text::decimal(margin)) ==> r.panel_margin
                == (if margin <= 20 {
                margin
            } else {
                20
            })
            &&& form::field(f, "panel_margin"@) is None ==> r.panel_margin == s.panel_margin
            &&& match form::field(f, "margin_streams"@) {
                Some(v) => r.margin_applies_streams == (v == "1"@),
                None => r.margin_applies_streams == s.margin_applies_streams,
            }
        }),
{
    previewed_parts(s, f);
    text::decimal_is_read_back(speed, 65535);
    text::decimal_is_read_back(orientation, 255);
    text::decimal_is_read_back(direction, 255);
    text::decimal_is_read_back(margin, 255);
}

/// A field that holds no number where one belongs leaves its setting alone: one
/// that is empty, or has anything in it that is not a digit.
pub proof fn what_is_no_number_sets_nothing(
    s: display::Settings,
    f: Map<Seq<char>, Seq<char>>,
    v: Seq<char>,
    i: int,
)
    requires
        s.in_range(),
        v.len() == 0 || 0 <= i < v.len() && !('0' <= v[i] <= '9') && (i > 0 || v[0] != '+'),
    ensures
        ({
            let r = previewed(s, f);
            &&& form::field(f, "mq_speed_ms"@) == Some(v) ==> r.speed_ms == s.speed_ms
            &&& form::field(f, "mq_orient"@) == Some(v) ==> r.orientation == s.orientation
            &&& form::field(f, "panel_margin"@) == Some(v) ==> r.panel_margin == s.panel_margin
            &&& form::field(f, "mq_orient"@) is None && form::field(f, "mq_dir"@) == Some(v)
                ==> r.direction == s.direction
        }),
{
    previewed_parts(s, f);
    text::what_is_no_number_is_not_read(v, i, 65535, 0);
    text::what_is_no_number_is_not_read(v, i, 255, 0);
}

/// Saving a page that nobody has touched changes nothing: a form that gives back
/// every setting as the page shows it leaves them as they are.
pub proof fn an_untouched_page_changes_nothing(
    s: display::Settings,
    f: Map<Seq<char>, Seq<char>>,
)
    requires
        s.in_range(),
        form::field(f, "mq_text"@) == Some(s.text),
        form::field(f, "mq_speed_ms"@) == Some(text::decimal(s.speed_ms as nat)),
        form::field(f, "mq_orient"@) == Some(text::decimal(s.orientation as nat)),
        form::field(f, "mq_dir"@) == Some(text::decimal(s.direction as nat)),
        form::field(f, "panel_margin"@) == Some(text::decimal(s.panel_margin as nat)),
        form::field(f, "margin_streams"@) == Some(
            if s.margin_applies_streams {
                "1"@
            } else {
                "0"@
            },
        ),
    ensures
        previewed(s, f) == s,
{
    reveal_strlit("0");
    reveal_strlit("1");
    assert("0"@[0] != "1"@[0]);
    a_form_sets_what_it_names(
        s,
        f,
        s.speed_ms as nat,
        s.orientation as nat,
        s.direction as nat,
        s.panel_margin as nat,
    );
    assert(previewed(s, f).text == s.text);
    assert(previewed(s, f).direction == s.direction);
}

/// What was stored is what a boot takes up, setting by setting, and what was not
/// stored stays as it is.
pub proof fn a_boot_takes_up_what_was_stored(s: display::Settings, found: StoredView)
    requires
        s.in_range(),
    ensures
        ({
            let r = seeded(s, found);
            &&& match found.text {
                Some(t) => r.text == (if t.len() <= 64 {
                    t
                } else {
                    t.take(64)
                }),
                None => r.text == s.text,
            }
            &&& match found.speed_ms {
                Some(ms) => r.speed_ms == (if ms < 20 {
                    20
                } else if ms > 500 {
                    500
                } else {
                    ms
                }),
                None => r.speed_ms == s.speed_ms,
            }
            &&& match found.orientation {
                Some(o) => r.orientation == (if o <= 3 {
                    o
                } else {
                    0
                }),
                None => r.orientation == s.orientation,
            }
            &&& ({
                let d = match found.direction {
                    Some(d) => d,
                    None => s.direction,
                };
                r.direction == (if r.orientation == 1 || r.orientation == 3 {
                    if d == 3 {
                        3int
                    } else {
                        2int
                    }
                } else {
                    if d == 0 {
                        0int
                    } else {
                        1int
                    }
                })
            })
            &&& match found.panel_margin {
                Some(m) => r.panel_margin == (if m <= 20 {
                    m
                } else {
                    20
                }),
                None => r.panel_margin == s.panel_margin,
            }
            &&& match found.margin_streams {
                Some(v) => r.margin_applies_streams == (v != 0),
                None => r.margin_applies_streams == s.margin_applies_streams,
            }
        }),
{
    seeded_parts(s, found);
}

/// Frames are taken on the port that was stored, and on 4048 if none was, or
/// none that there is.
pub proof fn the_stored_port_is_listened_on(port: u16)
    ensures
        port > 0 ==> listen_port(Some(port)) == port,
        listen_port(Some(0)) == 4048,
        listen_port(None) == 4048,
{
}

/// A network is taken by the name that was typed, without the white space around
/// it, and with the password exactly as it was typed; without a password it is
/// an empty one. A form that names none, or nothing but white space, changes no
/// network.
pub proof fn a_network_is_taken_as_it_was_typed(
    f: Map<Seq<char>, Seq<char>>,
    before: Seq<char>,
    ssid: Seq<char>,
    after: Seq<char>,
)
    requires
        forall|i: int| 0 <= i < before.len() ==> text::is_space(#[trigger] before[i]),
        forall|i: int| 0 <= i < after.len() ==> text::is_space(#[trigger] after[i]),
        ssid.len() > 0 ==> !text::is_space(ssid[0]) && !text::is_space(ssid.last()),
    ensures
        form::field(f, "ssid"@) is None ==> wanted_network(f) is None,
        form::field(f, "ssid"@) == Some(before + ssid + after) ==> wanted_network(f) == (
        if ssid.len() == 0 {
            None
        } else {
            Some(
                (
                    ssid,
                    match form::field(f, "password"@) {
                        Some(pass) => pass,
                        None => Seq::empty(),
                    },
                ),
            )
        }),
{
    text::trimming_takes_the_white_space_around(before, ssid, after);
}

/// A portal password is taken exactly as it was typed, with the username that
/// was typed, but for white space around it, or with `admin` if there is none. A
/// blank password changes nothing, and asking to clear it comes before all else.
pub proof fn a_portal_password_is_taken_as_it_was_typed(
    f: Map<Seq<char>, Seq<char>>,
    before: Seq<char>,
    user: Seq<char>,
    after: Seq<char>,
    pass: Seq<char>,
)
    requires
        forall|i: int| 0 <= i < before.len() ==> text::is_space(#[trigger] before[i]),
        forall|i: int| 0 <= i < after.len() ==> text::is_space(#[trigger] after[i]),
        user.len() > 0 ==> !text::is_space(user[0]) && !text::is_space(user.last()),
        pass.len() > 0,
    ensures
        form::field(f, "portal_clear"@) == Some("1"@) ==> wanted_auth(f) == AuthWish::Clear,
        form::field(f, "portal_clear"@) != Some("1"@) ==> {
            &&& form::field(f, "portal_pass"@) is None ==> wanted_auth(f) == AuthWish::Keep
            &&& form::field(f, "portal_pass"@) == Some(Seq::<char>::empty()) ==> wanted_auth(f)
                == AuthWish::Keep
            &&& form::field(f, "portal_pass"@) == Some(pass) && form::field(f, "portal_user"@)
                is None ==> wanted_auth(f) == (AuthWish::Replace { user: "admin"@, pass })
            &&& form::field(f, "portal_pass"@) == Some(pass) && form::field(f, "portal_user"@)
                == Some(before + user + after) ==> wanted_auth(f) == (AuthWish::Replace {
                user: if user.len() == 0 {
                    "admin"@
                } else {
                    user
                },
                pass,
            })
        },
{
    text::trimming_takes_the_white_space_around(before, user, after);
}

/// A change of the portal password holds from the next request on: the new one
/// opens the portal and no other does, and once it is cleared everybody is let
/// in.
pub proof fn a_new_password_is_asked_for_at_once(
    user: Seq<char>,
    pass: Seq<char>,
    new_user: Seq<char>,
    new_pass: Seq<char>,
    scheme: Seq<char>,
    sent_user: Seq<char>,
    sent_pass: Seq<char>,
)
    requires
        new_pass.len() > 0,
        text::equal_ignoring_case(scheme, "basic"@),
        !sent_user.contains(':'),
        vstd::utf8::encode_utf8(sent_user.push(':') + sent_pass).len() <= 192,
    ensures
        ({
            let sent = Some(auth::basic_header(scheme, sent_user, sent_pass));
            let replaced = auth_after(
                user,
                pass,
                AuthWish::Replace { user: new_user, pass: new_pass },
            );
            let cleared = auth_after(user, pass, AuthWish::Clear);
            &&& auth::admitted(sent, replaced.0, replaced.1) <==> sent_user == new_user && sent_pass
                == new_pass
            &&& !auth::admitted(None, replaced.0, replaced.1)
            &&& auth::admitted(sent, cleared.0, cleared.1)
            &&& auth::admitted(None, cleared.0, cleared.1)
            &&& auth_after(user, pass, AuthWish::Keep) == (user, pass)
        }),
{
    auth::only_the_right_credentials_are_admitted(
        scheme,
        sent_user,
        sent_pass,
        new_user,
        new_pass,
    );
}

} // verus!
