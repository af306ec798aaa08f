//! The portal's routes, every one of them behind the password.

use vstd::prelude::*;

use crate::auth;
use crate::auth::{guard, AuthPolicy};
use crate::text;

verus! {

/// The status of a challenge.
pub const CHALLENGE_STATUS: u16 = 401;

pub const CHALLENGE_REASON: &'static str = "Unauthorized";

/// What a browser is challenged with.
pub const CHALLENGE_SCHEME: &'static str = "Basic realm=\"traffic light\"";

pub const CHALLENGE_BODY: &'static str = "unauthorized\n";

/// Shown in place of the page if the portal's state cannot be read.
pub const PAGE_UNAVAILABLE: &'static str =
    "<html><body>portal state unavailable</body></html>";

pub const PREVIEW_REPLY: &'static str = "ok";

pub const REBOOT_REPLY: &'static str = "rebooting";

/// How long after its answer a reboot comes, so that the answer gets out.
pub const REBOOT_DELAY_MS: u32 = 1500;

/// The methods that the portal is asked by.
#[derive(Clone, Copy, PartialEq, Eq, Debug, Structural)]
pub enum Verb {
    Get,
    Post,
}

/// What the portal can be asked for.
#[derive(Clone, Copy, PartialEq, Eq, Debug, Structural)]
pub enum Route {
    /// The setup page.
    Page,
    /// Store changed settings and credentials.
    Save,
    /// Show settings without storing them.
    Preview,
    /// The outcome of the last network test.
    Status,
    Reboot,
    /// What is running.
    Version,
    /// A raw application image, straight into the spare slot.
    Ota,
}

/// The path of a route.
pub open spec fn path_of(route: Route) -> Seq<char> {
    match route {
        Route::Page => "/"@,
        Route::Save => "/save"@,
        Route::Preview => "/preview"@,
        Route::Status => "/status"@,
        Route::Reboot => "/reboot"@,
        Route::Version => "/version"@,
        Route::Ota => "/ota"@,
    }
}

/// The method of a route. What changes something is posted.
pub open spec fn verb_of(route: Route) -> Verb {
    match route {
        Route::Page => Verb::Get,
        Route::Save => Verb::Post,
        Route::Preview => Verb::Post,
        Route::Status => Verb::Get,
        Route::Reboot => Verb::Post,
        Route::Version => Verb::Get,
        Route::Ota => Verb::Post,
    }
}

/// What is done with a request.
#[derive(Clone, Copy, PartialEq, Eq, Debug, Structural)]
pub enum Entry {
    Handle(Route),
    Challenge,
}

impl Route {
    pub fn path(self) -> (path: &'static str)
        ensures
            path@ == path_of(self),
    {
        match self {
            Route::Page => "/",
            Route::Save => "/save",
            Route::Preview => "/preview",
            Route::Status => "/status",
            Route::Reboot => "/reboot",
            Route::Version => "/version",
            Route::Ota => "/ota",
        }
    }

    pub fn verb(self) -> (verb: Verb)
        ensures
            verb == verb_of(self),
    {
        match self {
            Route::Page => Verb::Get,
            Route::Save => Verb::Post,
            Route::Preview => Verb::Post,
            Route::Status => Verb::Get,
            Route::Reboot => Verb::Post,
            Route::Version => Verb::Get,
            Route::Ota => Verb::Post,
        }
    }

    /// Every route once.
    pub fn all() -> (routes: Vec<Route>)
        ensures
            routes@.no_duplicates(),
            forall|route: Route| #[trigger] routes@.contains(route),
    {
        let routes: Vec<Route> = vec![
            Route::Page,
            Route::Save,
            Route::Preview,
            Route::Status,
            Route::Reboot,
            Route::Version,
            Route::Ota,
        ];
        assert forall|route: Route| #[trigger] routes@.contains(route) by {
            match route {
                Route::Page => assert(routes@[0] == route),
                Route::Save => assert(routes@[1] == route),
                Route::Preview => assert(routes@[2] == route),
                Route::Status => assert(routes@[3] == route),
                Route::Reboot => assert(routes@[4] == route),
                Route::Version => assert(routes@[5] == route),
                Route::Ota => assert(routes@[6] == route),
            }
        }
        routes
    }

    /// Let a request through to its handler, or challenge it. No handler carries
    /// a copy of this check, and none is reached without it.
    pub fn enter(self, header: Option<&str>, policy: Option<&AuthPolicy>) -> (entry: Entry)
        ensures
            entry == (if admits(header, policy) {
                Entry::Handle(self)
            } else {
                Entry::Challenge
            }),
    {
        if guard(header, policy) {
            Entry::Handle(self)
        } else {
            Entry::Challenge
        }
    }
}

/// A request with the given header is let in. Without credentials to compare
/// with nobody is.
pub open spec fn admits(header: Option<&str>, policy: Option<&AuthPolicy>) -> bool {
    match policy {
        Some(p) => auth::admitted(auth::header_text(header), p.user@, p.pass@),
        None => false,
    }
}

/// No two routes are reached in the same way.
pub proof fn routes_are_distinct(a: Route, b: Route)
    requires
        path_of(a) == path_of(b),
    ensures
        a == b,
{
    reveal_strlit("/");
    reveal_strlit("/save");
    reveal_strlit("/preview");
    reveal_strlit("/status");
    reveal_strlit("/reboot");
    reveal_strlit("/version");
    reveal_strlit("/ota");
    assert("/"@.len() == 1);
    assert("/ota"@.len() == 4);
    assert("/save"@.len() == 5);
    assert("/status"@[1] == 's');
    assert("/reboot"@[1] == 'r');
    assert("/preview"@[1] == 'p');
    assert("/version"@[1] == 'v');
    assert("/save"@[1] == 's');
    assert("/status"@.len() == 7);
}

/// With a password set, a request without an `Authorization` header reaches no
/// handler, whatever it asks for.
pub proof fn a_locked_portal_challenges_strangers(policy: &AuthPolicy)
    requires
        policy.pass@.len() > 0,
    ensures
        !admits(None, Some(policy)),
{
}

/// Behind a password a request is let in just if it carries that password and
/// the username that goes with it, whichever route it asks for; without one
/// everybody is, and nobody while the credentials cannot be read.
pub proof fn the_right_credentials_open_every_route(
    scheme: Seq<char>,
    user: Seq<char>,
    pass: Seq<char>,
    header: &str,
    policy: &AuthPolicy,
)
    requires
        text::equal_ignoring_case(scheme, "basic"@),
        !user.contains(':'),
        vstd::utf8::encode_utf8(user.push(':') + pass).len() <= 192,
        header@ == auth::basic_header(scheme, user, pass),
    ensures
        policy.pass@.len() > 0 ==> (admits(Some(header), Some(policy)) <==> user == policy.user@
            && pass == policy.pass@),
        policy.pass@.len() > 0 ==> !admits(None, Some(policy)),
        policy.pass@.len() == 0 ==> admits(Some(header), Some(policy)) && admits(
            None,
            Some(policy),
        ),
        !admits(Some(header), None),
        !admits(None, None),
{
    if policy.pass@.len() > 0 {
        auth::only_the_right_credentials_are_admitted(
            scheme,
            user,
            pass,
            policy.user@,
            policy.pass@,
        );
    }
}

} // verus!
