//! What a boot does: join the stored network or open the setup portal, how long
//! it tries, and the button that asks for setup.

use vstd::prelude::*;

use crate::display;
use crate::display::{DisplayDriver, WifiTestResult, RGB8};
use crate::frame::Image;
use crate::settings;
use crate::store;
use crate::store::{push_put, push_take_out, StoreOp, StoreValue};
use crate::store::{NS_AUTH, NS_WIFI, SSID_BUF, WIFI_PASS_BUF};
use crate::text;

verus! {

/// How many association attempts a boot gets before it gives up and falls back
/// to setup mode. A single transient timeout is not enough evidence to act on,
/// now that a failure to connect can also mean rolling firmware back.
pub const WIFI_CONNECT_ATTEMPTS: u32 = 3;

/// How often each attempt looks whether it has succeeded.
pub const POLLS_PER_ATTEMPT: u32 = 100;

/// How often a test of new credentials looks. Enough to associate on a reachable
/// network without keeping the user's device off the access point for too long.
pub const POLLS_PER_TEST: u32 = 80;

/// The time between two looks, at a connection and at the button.
pub const POLL_MS: u32 = 100;

/// For how many looks in a row the button has to be held.
pub const BUTTON_POLLS: u32 = 50;

/// The name of the setup access point.
pub const AP_SSID: &'static str = "Traffic-Light";

pub const AP_CHANNEL: u8 = 1;

/// What a boot does about the network.
pub enum BootPlan {
    Join { ssid: String, pass: String },
    Setup,
}

/// What a boot does about the network, by what it holds.
pub enum Plan {
    Join { ssid: Seq<char>, pass: Seq<char> },
    Setup,
}

impl View for BootPlan {
    type V = Plan;

    open spec fn view(&self) -> Plan {
        match self {
            BootPlan::Join { ssid, pass } => Plan::Join { ssid: ssid@, pass: pass@ },
            BootPlan::Setup => Plan::Setup,
        }
    }
}

/// The stored network is joined, unless there is none or setup was asked for. A
/// missing password is an empty one.
pub open spec fn plan(
    ssid: Option<Seq<char>>,
    pass: Option<Seq<char>>,
    wap_mode: Option<u8>,
) -> Plan {
    match ssid {
        Some(ssid) => if wap_mode == Some(1u8) {
            Plan::Setup
        } else {
            Plan::Join {
                ssid,
                pass: match pass {
                    Some(pass) => pass,
                    None => Seq::empty(),
                },
            }
        },
        None => Plan::Setup,
    }
}

/// Decide what a boot does, given what was found in storage.
pub fn boot_plan(
    ssid: Option<String>,
    pass: Option<String>,
    wap_mode: Option<u8>,
) -> (out: BootPlan)
    ensures
        out@ == plan(text::held(ssid), text::held(pass), wap_mode),
{
    let setup_asked: bool = match wap_mode {
        Some(v) => v == 1,
        None => false,
    };
    match ssid {
        Some(ssid) => if setup_asked {
            BootPlan::Setup
        } else {
            BootPlan::Join {
                ssid,
                pass: match pass {
                    Some(pass) => pass,
                    None => String::new(),
                },
            }
        },
        None => BootPlan::Setup,
    }
}

/// The button that asks for setup. It has to be held for a while.
pub struct Button {
    held: u32,
}

impl View for Button {
    type V = nat;

    /// For how many looks in a row the button has been down, counted no further
    /// than it takes.
    closed spec fn view(&self) -> nat {
        self.held as nat
    }
}

impl Button {
    pub fn new() -> (button: Button)
        ensures
            button@ == 0,
    {
        Button { held: 0 }
    }

    /// Look at the button. Says whether it has been held long enough.
    pub fn look(&mut self, down: bool) -> (asked: bool)
        ensures
            final(self)@ == (if !down {
                0
            } else if old(self)@ < BUTTON_POLLS {
                old(self)@ + 1
            } else {
                old(self)@
            }),
            asked == (final(self)@ >= BUTTON_POLLS),
            asked ==> down && old(self)@ + 1 >= 50,
            down && old(self)@ + 1 >= 50 ==> asked,
    {
        if !down {
            self.held = 0;
        } else if self.held < BUTTON_POLLS {
            self.held = self.held + 1;
        }
        self.held >= BUTTON_POLLS
    }
}

/// What asking for setup changes in storage. Holding the button is the way back
/// in for someone who has lost the portal password: whoever can reach the button
/// can already rewrite the network settings, so this concedes nothing that was
/// being protected.
pub open spec fn setup_ops() -> Seq<store::Op> {
    seq![
        store::put_byte(NS_WIFI@, "wap_mode"@, 1),
        store::take_out(NS_AUTH@, "user"@),
        store::take_out(NS_AUTH@, "pass"@),
    ]
}

/// Ask for setup at the next boot.
pub fn request_setup() -> (ops: Vec<StoreOp>)
    ensures
        store::ops_of(ops@) == setup_ops(),
{
    let mut ops: Vec<StoreOp> = Vec::new();
    push_put(&mut ops, NS_WIFI, "wap_mode", StoreValue::Byte(1));
    push_take_out(&mut ops, NS_AUTH, "user");
    push_take_out(&mut ops, NS_AUTH, "pass");
    assert(store::ops_of(ops@) =~= setup_ops());
    ops
}

/// What to do after a look at the connection. Everything but `Connected` means
/// waiting for `POLL_MS` first.
#[derive(Clone, Copy, PartialEq, Eq, Debug, Structural)]
pub enum JoinStep {
    Connected,
    Wait,
    /// This attempt has timed out: connect again.
    Retry,
    GiveUp,
}

/// What is done after `n` looks in vain.
pub open spec fn step_after(n: nat) -> JoinStep {
    if n >= WIFI_CONNECT_ATTEMPTS * POLLS_PER_ATTEMPT {
        JoinStep::GiveUp
    } else if n % POLLS_PER_ATTEMPT as nat == 0 {
        JoinStep::Retry
    } else {
        JoinStep::Wait
    }
}

/// An attempt to join a network.
pub struct Join {
    failed: u32,
}

impl View for Join {
    type V = nat;

    /// How many looks were in vain.
    closed spec fn view(&self) -> nat {
        self.failed as nat
    }
}

impl Join {
    pub fn new() -> (join: Join)
        ensures
            join@ == 0,
    {
        Join { failed: 0 }
    }

    /// Look whether the network has been joined. Looks after giving up are not
    /// counted.
    pub fn look(&mut self, connected: bool) -> (step: JoinStep)
        ensures
            connected ==> step == JoinStep::Connected && final(self)@ == old(self)@,
            !connected ==> {
                &&& step == step_after(final(self)@)
                &&& final(self)@ == (if step_after(old(self)@) == JoinStep::GiveUp {
                    old(self)@
                } else {
                    old(self)@ + 1
                })
            },
    {
        if connected {
            return JoinStep::Connected;
        }
        if self.failed < WIFI_CONNECT_ATTEMPTS * POLLS_PER_ATTEMPT {
            self.failed = self.failed + 1;
        }
        if self.failed >= WIFI_CONNECT_ATTEMPTS * POLLS_PER_ATTEMPT {
            JoinStep::GiveUp
        } else if self.failed % POLLS_PER_ATTEMPT == 0 {
            JoinStep::Retry
        } else {
            JoinStep::Wait
        }
    }
}

/// A test of new credentials.
pub struct CredentialTest {
    failed: u32,
}

impl View for CredentialTest {
    type V = nat;

    /// How many looks were in vain.
    closed spec fn view(&self) -> nat {
        self.failed as nat
    }
}

impl CredentialTest {
    pub fn new() -> (test: CredentialTest)
        ensures
            test@ == 0,
    {
        CredentialTest { failed: 0 }
    }

    /// Look whether the network has been joined. Says how the test went once
    /// that is known; until then there is another look after `POLL_MS`.
    pub fn look(&mut self, connected: bool) -> (outcome: Option<bool>)
        ensures
            connected ==> outcome == Some(true) && final(self)@ == old(self)@,
            !connected ==> {
                &&& final(self)@ == (if old(self)@ < POLLS_PER_TEST {
                    old(self)@ + 1
                } else {
                    old(self)@
                })
                &&& outcome == (if final(self)@ >= POLLS_PER_TEST {
                    Some(false)
                } else {
                    None
                })
                &&& outcome is Some <==> old(self)@ + 1 >= 80
            },
    {
        if connected {
            return Some(true);
        }
        if self.failed < POLLS_PER_TEST {
            self.failed = self.failed + 1;
        }
        if self.failed >= POLLS_PER_TEST {
            Some(false)
        } else {
            None
        }
    }
}

/// Keep the outcome of a test for the page.
pub fn finish_test(display: &mut DisplayDriver, ok: bool)
    ensures
        final(display)@ == (display::DisplayView {
            wifi_test: if ok {
                WifiTestResult::Success
            } else {
                WifiTestResult::Failed
            },
            ..old(display)@
        }),
{
    display.set_wifi_test(
        if ok {
            WifiTestResult::Success
        } else {
            WifiTestResult::Failed
        },
    );
}

/// Show that something is missing that the light can do without.
pub fn show_trouble(display: &mut DisplayDriver)
    ensures
        final(display)@ == (display::DisplayView {
            status_color: RGB8 { r: 50, g: 0, b: 0 },
            ..old(display)@
        }),
{
    display.set_status_color(RGB8::new(50, 0, 0));
}

/// Show that the light is in setup mode.
pub fn show_setup(display: &mut DisplayDriver)
    ensures
        final(display)@ == (display::DisplayView {
            status_color: RGB8 { r: 0, g: 0, b: 50 },
            ..old(display)@
        }),
{
    display.set_status_color(RGB8::new(0, 0, 50));
}

/// Show that the network has been joined: the panels light up.
pub fn show_joined(display: &mut DisplayDriver)
    ensures
        final(display)@ == (display::DisplayView {
            status_color: RGB8 { r: 0, g: 50, b: 0 },
            image: Seq::new(300, |i: int| 100u8),
            ..old(display)@
        }),
{
    display.set_status_color(RGB8::new(0, 50, 0));
    let lit: Image = [100u8; 300];
    display.set_image(&lit);
    assert(lit@ =~= Seq::new(300, |i: int| 100u8));
}

/// What the next boot does, given what lies in storage.
pub open spec fn stored_plan(s: store::Store) -> Plan {
    plan(
        store::found_text(s, NS_WIFI@, "ssid"@, SSID_BUF),
        store::found_text(s, NS_WIFI@, "pass"@, WIFI_PASS_BUF),
        store::found_byte(s, NS_WIFI@, "wap_mode"@),
    )
}

proof fn wifi_keys_differ()
    ensures
        "ssid"@ != "pass"@,
        "ssid"@ != "wap_mode"@,
        "pass"@ != "wap_mode"@,
        "user"@ != "pass"@,
        NS_WIFI@ != NS_AUTH@,
{
    reveal_strlit("ssid");
    reveal_strlit("pass");
    reveal_strlit("user");
    reveal_strlit("wap_mode");
    reveal_strlit("wifi_cfg");
    reveal_strlit("sec_cfg");
    assert("ssid"@[0] == 's');
    assert("pass"@[0] == 'p');
    assert("user"@[0] == 'u');
    assert("wap_mode"@.len() == 8);
    assert(NS_WIFI@.len() == 8);
}

proof fn three_changes(before: store::Store, ops: Seq<store::Op>, place: (Seq<char>, Seq<char>))
    requires
        ops.len() == 3,
    ensures
        store::lookup(store::after(before, ops), place) == store::overridden(
            seq![ops[2]],
            place,
            store::overridden(
                seq![ops[1]],
                place,
                store::overridden(seq![ops[0]], place, store::lookup(before, place)),
            ),
        ),
{
    let a = seq![ops[0]];
    let b = seq![ops[1]];
    let c = seq![ops[2]];
    assert(ops =~= a + b + c);
    store::changes_add_up(before, a, b);
    store::changes_add_up(before, a + b, c);
    store::at_most_one_change(before, a, place);
    store::at_most_one_change(store::after(before, a), b, place);
    store::at_most_one_change(store::after(before, a + b), c, place);
}

/// A network that is saved is the one that the next boot tries, even on a light
/// that was asked into setup mode, as long as its name and password are short
/// enough to be found again.
pub proof fn a_saved_network_is_tried(
    before: store::Store,
    storage_open: bool,
    s: display::Settings,
    f: Map<Seq<char>, Seq<char>>,
)
    requires
        settings::wanted_network(f) is Some,
        settings::network_is_storable(f),
    ensures
        stored_plan(settings::after_save(before, storage_open, s, f)) == (Plan::Join {
            ssid: (settings::wanted_network(f)->0).0,
            pass: (settings::wanted_network(f)->0).1,
        }),
{
    wifi_keys_differ();
    let ops = settings::network_ops(f);
    let ssid_at = (NS_WIFI@, "ssid"@);
    let pass_at = (NS_WIFI@, "pass"@);
    let mode_at = (NS_WIFI@, "wap_mode"@);
    settings::each_part_of_a_save_is_found(before, storage_open, s, f, ssid_at);
    settings::each_part_of_a_save_is_found(before, storage_open, s, f, pass_at);
    settings::each_part_of_a_save_is_found(before, storage_open, s, f, mode_at);
    three_changes(before, ops, ssid_at);
    three_changes(before, ops, pass_at);
    three_changes(before, ops, mode_at);
}

/// Holding the button brings the light into setup mode with an open portal,
/// whatever was stored before.
pub proof fn the_button_is_a_way_back_in(before: store::Store)
    ensures
        stored_plan(store::after(before, setup_ops())) == Plan::Setup,
        settings::stored_credentials(store::after(before, setup_ops())).1.len() == 0,
{
    wifi_keys_differ();
    three_changes(before, setup_ops(), (NS_WIFI@, "wap_mode"@));
    three_changes(before, setup_ops(), (NS_AUTH@, "pass"@));
}

/// A boot joins the stored network with the stored password, and opens setup
/// only if there is no network or setup was asked for.
pub proof fn setup_is_opened_only_when_asked_for(
    ssid: Seq<char>,
    pass: Seq<char>,
    wap_mode: Option<u8>,
)
    ensures
        wap_mode != Some(1u8) ==> plan(Some(ssid), Some(pass), wap_mode) == (Plan::Join {
            ssid,
            pass,
        }),
        wap_mode != Some(1u8) ==> plan(Some(ssid), None, wap_mode) == (Plan::Join {
            ssid,
            pass: Seq::empty(),
        }),
        plan(Some(ssid), Some(pass), Some(1)) == Plan::Setup,
        plan(None, Some(pass), wap_mode) == Plan::Setup,
        plan(None, None, wap_mode) == Plan::Setup,
{
}

/// Joining gets three attempts of ten seconds, a look every tenth of a second:
/// it connects again after ten and after twenty seconds in vain and gives up
/// after thirty.
pub proof fn joining_takes_thirty_seconds_at_most(looks: nat)
    ensures
        step_after(looks) == JoinStep::GiveUp <==> looks * 100 >= 30_000,
        0 < looks < 300 ==> (step_after(looks) == JoinStep::Retry <==> looks == 100 || looks
            == 200),
        POLL_MS == 100,
{
}

/// Holding the button does not forget the network: its name and password stay
/// where they are.
pub proof fn the_button_keeps_the_network(before: store::Store)
    ensures
        ({
            let after = store::after(before, setup_ops());
            &&& store::lookup(after, (NS_WIFI@, "ssid"@)) == store::lookup(
                before,
                (NS_WIFI@, "ssid"@),
            )
            &&& store::lookup(after, (NS_WIFI@, "pass"@)) == store::lookup(
                before,
                (NS_WIFI@, "pass"@),
            )
        }),
{
    wifi_keys_differ();
    three_changes(before, setup_ops(), (NS_WIFI@, "ssid"@));
    three_changes(before, setup_ops(), (NS_WIFI@, "pass"@));
}

/// The button has to be held for five seconds, and a test of new credentials
/// takes no more than eight.
pub proof fn looks_add_up_to_seconds()
    ensures
        BUTTON_POLLS * POLL_MS == 5_000,
        POLLS_PER_TEST * POLL_MS == 8_000,
{
}

} // verus!
