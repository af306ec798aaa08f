//! Rollback: whether a freshly written image keeps its place.
//!
//! A new image boots in a provisional state and is reverted unless it says it
//! is working. What counts as working is whatever the light was already doing
//! when the update was accepted: an update delivered over the network has to
//! get back on the network, and one delivered through the setup access point
//! has to bring that access point back.

use vstd::prelude::*;

verus! {

/// What an image has to do to earn its place.
#[derive(Clone, Copy, PartialEq, Eq, Debug, Structural)]
pub enum OtaExpect {
    /// Nothing to prove: flashed over serial, or already confirmed.
    Nothing,
    Station,
    Ap,
}

/// How a boot went.
#[derive(Clone, Copy, PartialEq, Eq, Debug, Structural)]
pub enum BootOutcome {
    /// Joined the stored network and the portal is serving on it.
    Station,
    /// Joined, but the http server would not start.
    StationNoPortal,
    /// In setup mode because someone held BOOT, not because anything failed.
    ApRequested,
    /// In setup mode because the stored network could not be reached.
    ApFallback,
    /// Setup mode is up but its portal would not start.
    ApNoPortal,
}

#[derive(Clone, Copy, PartialEq, Eq, Debug, Structural)]
pub enum HealthVerdict {
    MarkValid,
    RollBack,
}

/// The expectation that a stored byte stands for. Anything unrecognised is
/// nothing to prove.
pub open spec fn stored_expectation(stored: Option<u8>) -> OtaExpect {
    if stored == Some(1u8) {
        OtaExpect::Station
    } else if stored == Some(2u8) {
        OtaExpect::Ap
    } else {
        OtaExpect::Nothing
    }
}

/// The byte stored for an expectation.
pub open spec fn expectation_code(expect: OtaExpect) -> u8 {
    match expect {
        OtaExpect::Nothing => 0,
        OtaExpect::Station => 1,
        OtaExpect::Ap => 2,
    }
}

impl OtaExpect {
    /// Anything unrecognised degrades to "nothing to prove". A value written by
    /// some future firmware, or a half-written byte, must never be read as a
    /// reason to roll back.
    pub fn from_nvs(stored: Option<u8>) -> (expect: Self)
        ensures
            expect == stored_expectation(stored),
    {
        match stored {
            Some(1) => OtaExpect::Station,
            Some(2) => OtaExpect::Ap,
            _ => OtaExpect::Nothing,
        }
    }

    pub fn as_u8(self) -> (code: u8)
        ensures
            code == expectation_code(self),
    {
        match self {
            OtaExpect::Nothing => 0,
            OtaExpect::Station => 1,
            OtaExpect::Ap => 2,
        }
    }
}

/// The whole rollback decision. An image that promised the network has to be
/// reachable on it, unless a person chose setup mode; one that promised the
/// access point has to serve a portal.
pub open spec fn verdict(expect: OtaExpect, outcome: BootOutcome) -> HealthVerdict {
    let failed = match expect {
        OtaExpect::Nothing => false,
        OtaExpect::Station => outcome != BootOutcome::Station && outcome
            != BootOutcome::ApRequested,
        OtaExpect::Ap => outcome == BootOutcome::ApNoPortal || outcome
            == BootOutcome::StationNoPortal,
    };
    if failed {
        HealthVerdict::RollBack
    } else {
        HealthVerdict::MarkValid
    }
}

/// Decide whether the running image is kept.
pub fn health_verdict(expect: OtaExpect, outcome: BootOutcome) -> (v: HealthVerdict)
    ensures
        v == verdict(expect, outcome),
{
    match (expect, outcome) {
        // Nothing was promised, so nothing can be broken.
        (OtaExpect::Nothing, _) => HealthVerdict::MarkValid,
        (OtaExpect::Station, BootOutcome::Station) => HealthVerdict::MarkValid,
        // Someone held the button; that is a person choosing setup mode.
        (OtaExpect::Station, BootOutcome::ApRequested) => HealthVerdict::MarkValid,
        // The boot-time fallback into setup mode would otherwise make an image
        // that cannot reach the network look perfectly healthy, forever.
        (OtaExpect::Station, BootOutcome::ApFallback) => HealthVerdict::RollBack,
        // On the network but unreachable: no way to replace it over the air.
        (OtaExpect::Station, BootOutcome::StationNoPortal) => HealthVerdict::RollBack,
        (OtaExpect::Station, BootOutcome::ApNoPortal) => HealthVerdict::RollBack,
        // An update delivered over the access point has no network to rejoin,
        // so only a portal that will not start counts as failure. Joining a
        // network makes up for it no more than the access point does.
        (OtaExpect::Ap, BootOutcome::ApNoPortal) => HealthVerdict::RollBack,
        (OtaExpect::Ap, BootOutcome::StationNoPortal) => HealthVerdict::RollBack,
        (OtaExpect::Ap, _) => HealthVerdict::MarkValid,
    }
}

/// What is known of the running image's health: whether a verdict has been
/// reached on this boot, and the byte in storage that says what the next image
/// to boot has to prove.
pub struct Health {
    settled: bool,
    stored: Option<u8>,
}

/// The health of the running image, as values.
pub struct HealthView {
    pub settled: bool,
    pub stored: Option<u8>,
}

impl View for Health {
    type V = HealthView;

    closed spec fn view(&self) -> HealthView {
        HealthView { settled: self.settled, stored: self.stored }
    }
}

/// What is left once a verdict has been reached: nothing to prove, and nothing
/// more to decide.
pub open spec fn settled_health() -> HealthView {
    HealthView { settled: true, stored: None }
}

impl Health {
    /// Start a boot with the byte found in storage.
    pub fn boot(stored: Option<u8>) -> (health: Health)
        ensures
            health@ == (HealthView { settled: false, stored }),
    {
        Health { settled: false, stored }
    }

    /// The byte that belongs in storage now.
    pub fn stored(&self) -> (stored: Option<u8>)
        ensures
            stored == self@.stored,
    {
        self.stored
    }

    pub fn is_settled(&self) -> (settled: bool)
        ensures
            settled == self@.settled,
    {
        self.settled
    }

    /// What the running image has to prove.
    pub fn expectation(&self) -> (expect: OtaExpect)
        ensures
            expect == stored_expectation(self@.stored),
    {
        OtaExpect::from_nvs(self.stored)
    }

    /// Reach the verdict on the running image. Only the first call on a boot
    /// does. Either way the stored byte is cleared before the verdict is acted
    /// on: after a rollback the previous image boots this same code, and a
    /// surviving expectation would make it roll back again the moment the
    /// network happened to be down.
    pub fn settle(&mut self, expect: OtaExpect, outcome: BootOutcome) -> (v: Option<HealthVerdict>)
        ensures
            old(self)@.settled ==> v is None && final(self)@ == old(self)@,
            !old(self)@.settled ==> v == Some(verdict(expect, outcome)) && final(self)@
                == settled_health(),
    {
        if self.settled {
            return None;
        }
        self.settled = true;
        self.stored = None;
        Some(health_verdict(expect, outcome))
    }

    /// Take the running image for good without waiting for a boot outcome.
    pub fn confirm(&mut self)
        ensures
            final(self)@ == settled_health(),
    {
        self.settled = true;
        self.stored = None;
    }

    /// Record what the image just written has to prove on its first boot.
    pub fn promise(&mut self, expect: OtaExpect)
        ensures
            final(self)@ == (HealthView { stored: Some(expectation_code(expect)), ..old(self)@ }),
    {
        self.stored = Some(expect.as_u8());
    }

    /// Take a promise back: the image it was made for will not be booted.
    pub fn withdraw(&mut self)
        ensures
            final(self)@ == (HealthView { stored: None, ..old(self)@ }),
    {
        self.stored = None;
    }
}

/// Whether a deadline has to be set for reaching a verdict. An image with
/// nothing to prove needs none.
pub fn arm_health_deadline(expect: OtaExpect) -> (arm: bool)
    ensures
        arm == (expect != OtaExpect::Nothing),
{
    match expect {
        OtaExpect::Nothing => false,
        _ => true,
    }
}

/// How long an image has to reach a verdict, in milliseconds.
pub const HEALTH_DEADLINE_MS: u32 = 180_000;

/// What passing the deadline without a verdict counts as: a boot on which
/// nothing came up.
pub fn deadline_outcome() -> (outcome: BootOutcome)
    ensures
        outcome == BootOutcome::ApNoPortal,
{
    BootOutcome::ApNoPortal
}

/// How a boot went that joined the stored network.
pub fn station_outcome(portal_up: bool) -> (outcome: BootOutcome)
    ensures
        outcome == (if portal_up {
            BootOutcome::Station
        } else {
            BootOutcome::StationNoPortal
        }),
{
    if portal_up {
        BootOutcome::Station
    } else {
        BootOutcome::StationNoPortal
    }
}

/// How a boot went that could not join the stored network and falls back to
/// setup mode.
pub fn fallback_outcome() -> (outcome: BootOutcome)
    ensures
        outcome == BootOutcome::ApFallback,
{
    BootOutcome::ApFallback
}

/// What setup mode still owes after a fallback: nothing, since the fallback has
/// already been judged.
pub fn fallback_expectation() -> (expect: OtaExpect)
    ensures
        expect == OtaExpect::Nothing,
{
    OtaExpect::Nothing
}

/// How a boot went that entered setup mode on purpose.
pub fn setup_outcome(portal_up: bool) -> (outcome: BootOutcome)
    ensures
        outcome == (if portal_up {
            BootOutcome::ApRequested
        } else {
            BootOutcome::ApNoPortal
        }),
{
    if portal_up {
        BootOutcome::ApRequested
    } else {
        BootOutcome::ApNoPortal
    }
}

/// An expectation survives being stored.
pub proof fn expectation_survives_storage(expect: OtaExpect)
    ensures
        stored_expectation(Some(expectation_code(expect))) == expect,
{
}

/// A byte that is not the code of a promise never causes a rollback, and
/// neither does a missing one.
pub proof fn an_unknown_expectation_rolls_nothing_back(stored: Option<u8>, outcome: BootOutcome)
    requires
        stored != Some(expectation_code(OtaExpect::Station)),
        stored != Some(expectation_code(OtaExpect::Ap)),
    ensures
        verdict(stored_expectation(stored), outcome) == HealthVerdict::MarkValid,
{
}

/// The image that boots after a verdict has been reached has nothing to prove
/// and is kept whatever happens, so that two images can never take turns
/// rejecting each other.
pub proof fn images_never_take_turns_rejecting_each_other(outcome: BootOutcome)
    ensures
        verdict(stored_expectation(settled_health().stored), outcome) == HealthVerdict::MarkValid,
{
}

/// An image that promised anything and serves no portal is rolled back, however
/// it booted: nobody could replace it over the air.
pub proof fn an_image_without_a_portal_is_rolled_back(expect: OtaExpect, outcome: BootOutcome)
    requires
        expect != OtaExpect::Nothing,
        outcome == BootOutcome::StationNoPortal || outcome == BootOutcome::ApNoPortal,
    ensures
        verdict(expect, outcome) == HealthVerdict::RollBack,
{
}

/// Whatever was promised, an image whose portal cannot be reached where it was
/// promised is rolled back when the deadline passes.
pub proof fn a_missed_deadline_rolls_back_every_promise(expect: OtaExpect)
    requires
        expect != OtaExpect::Nothing,
    ensures
        verdict(expect, BootOutcome::ApNoPortal) == HealthVerdict::RollBack,
{
}

/// An image is rolled back just if it promised something and did not keep it:
/// one that came over the network has to serve its portal there, unless someone
/// asked for setup, and one that came through the access point has to serve a
/// portal at all.
pub proof fn a_broken_promise_rolls_back(expect: OtaExpect, outcome: BootOutcome)
    ensures
        verdict(expect, outcome) == HealthVerdict::RollBack <==> {
            ||| expect == OtaExpect::Station && outcome != BootOutcome::Station && outcome
                != BootOutcome::ApRequested
            ||| expect == OtaExpect::Ap && (outcome == BootOutcome::ApNoPortal || outcome
                == BootOutcome::StationNoPortal)
        },
{
}

/// An image has three minutes to reach a verdict, and only one that promised
/// something is waited for; what happens to it after that is what happens to one
/// that serves no portal at all.
pub proof fn a_promise_is_waited_for(expect: OtaExpect)
    ensures
        HEALTH_DEADLINE_MS == 3 * 60 * 1000,
        expect != OtaExpect::Nothing <==> verdict(expect, BootOutcome::ApNoPortal)
            == HealthVerdict::RollBack,
{
}

} // verus!
