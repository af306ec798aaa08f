//! Portal authentication.
//!
//! The portal can change the network credentials, reboot the light and replace
//! its firmware, so it sits behind HTTP Basic authentication.

use vstd::prelude::*;

use crate::base64;
use crate::base64::base64_decode;
use crate::text;
use crate::text::{eq_ignore_ascii_case, split_once, trim, utf8_text};

verus! {

/// Used when nobody has set a username. The password has no default: an unset
/// password means the portal is open.
pub const AUTH_USER_DEFAULT: &'static str = "admin";

/// The credentials that the portal asks for.
pub struct AuthPolicy {
    pub user: String,
    pub pass: String,
}

/// The username and password that were stored. A missing or empty username
/// means the default one, a missing password none.
pub open spec fn stored(user: Option<Seq<char>>, pass: Option<Seq<char>>) -> (
    Seq<char>,
    Seq<char>,
) {
    (
        match user {
            Some(u) => if u.len() > 0 {
                u
            } else {
                AUTH_USER_DEFAULT@
            },
            None => AUTH_USER_DEFAULT@,
        },
        match pass {
            Some(p) => p,
            None => Seq::empty(),
        },
    )
}

impl AuthPolicy {
    /// No stored password means nobody has set one yet, and the portal serves
    /// everyone. That keeps a firmware update from locking an existing light out
    /// of its own portal; the page nags about it instead, and the firmware
    /// upload endpoint refuses to run until a password exists.
    pub fn is_configured(&self) -> (configured: bool)
        ensures
            configured == (self.pass@.len() > 0),
    {
        !self.pass.as_str().is_empty()
    }

    /// The credentials as they were stored.
    pub fn from_stored(user: Option<String>, pass: Option<String>) -> (policy: AuthPolicy)
        ensures
            (policy.user@, policy.pass@) == stored(text::held(user), text::held(pass)),
    {
        let user = match user {
            Some(u) => if u.as_str().is_empty() {
                AUTH_USER_DEFAULT.to_owned()
            } else {
                u
            },
            None => AUTH_USER_DEFAULT.to_owned(),
        };
        let pass = match pass {
            Some(p) => p,
            None => String::new(),
        };
        AuthPolicy { user, pass }
    }
}

/// The user and password in an `Authorization: Basic <base64>` header. The
/// scheme is case-insensitive, and only the first colon separates the two, so a
/// password may itself contain colons.
pub open spec fn basic_credentials(header: Seq<char>) -> Option<(Seq<char>, Seq<char>)> {
    match text::split_first(header, ' ') {
        Some((scheme, rest)) => if text::equal_ignoring_case(scheme, "basic"@) {
            match base64::base64_decoded(vstd::utf8::encode_utf8(text::trimmed(rest))) {
                Some(bytes) => if vstd::utf8::valid_utf8(bytes) {
                    text::split_first(vstd::utf8::decode_utf8(bytes), ':')
                } else {
                    None
                },
                None => None,
            }
        } else {
            None
        },
        None => None,
    }
}

/// The whole access decision: a portal without a password admits everyone, one
/// with a password exactly those who present it with the right username.
pub open spec fn admitted(header: Option<Seq<char>>, user: Seq<char>, pass: Seq<char>) -> bool {
    pass.len() > 0 ==> match header {
        Some(h) => basic_credentials(h) == Some((user, pass)),
        None => false,
    }
}

/// The text of a header, if there is one.
pub open spec fn header_text(header: Option<&str>) -> Option<Seq<char>> {
    match header {
        Some(h) => Some(h@),
        None => None,
    }
}

/// Split an `Authorization: Basic <base64>` header into its user and password.
pub fn parse_basic_auth(header: &str) -> (credentials: Option<(String, String)>)
    ensures
        match credentials {
            Some((user, pass)) => basic_credentials(header@) == Some((user@, pass@)),
            None => basic_credentials(header@) is None,
        },
{
    let (scheme, rest) = match split_once(header, ' ') {
        Some(parts) => parts,
        None => return None,
    };
    if !eq_ignore_ascii_case(scheme, "basic") {
        return None;
    }
    let bytes = match base64_decode(trim(rest)) {
        Some(bytes) => bytes,
        None => return None,
    };
    let text = match utf8_text(bytes) {
        Some(text) => text,
        None => return None,
    };
    match split_once(text.as_str(), ':') {
        Some((user, pass)) => Some((user.to_owned(), pass.to_owned())),
        None => None,
    }
}

/// `core::hint::black_box` is the identity function; what it hides from the
/// optimiser does not change the value.
pub assume_specification<T>[ core::hint::black_box::<T> ](dummy: T) -> (out: T)
    ensures
        out == dummy,
;

/// Compare without letting the time taken depend on how much of the secret
/// matched: every byte is looked at, and the differences are accumulated. The
/// lengths are already observable from the wire, so only the content has to be
/// hidden.
pub fn ct_eq(a: &[u8], b: &[u8]) -> (same: bool)
    ensures
        same == (a@ == b@),
{
    let mut diff: u8 = if a.len() == b.len() {
        0
    } else {
        1
    };
    let shorter: usize = if a.len() < b.len() {
        a.len()
    } else {
        b.len()
    };
    let mut i: usize = 0;
    while i < shorter
        invariant
            i <= shorter,
            shorter <= a@.len(),
            shorter <= b@.len(),
            diff == 0 <==> (a@.len() == b@.len() && forall|j: int|
                0 <= j < i ==> a@[j] == b@[j]),
        decreases shorter - i,
    {
        let x: u8 = a[i];
        let y: u8 = b[i];
        assert((diff | (x ^ y)) == 0 <==> diff == 0 && x == y) by (bit_vector);
        diff = diff | (x ^ y);
        i = i + 1;
    }
    assert(diff == 0 <==> a@ =~= b@);
    core::hint::black_box(diff) == 0
}

proof fn same_bytes_same_text(a: Seq<char>, b: Seq<char>)
    ensures
        vstd::utf8::encode_utf8(a) == vstd::utf8::encode_utf8(b) <==> a == b,
{
    vstd::utf8::encode_utf8_decode_utf8(a);
    vstd::utf8::encode_utf8_decode_utf8(b);
}

/// Decide whether a request with the given `Authorization` header is allowed.
pub fn auth_ok(header: Option<&str>, policy: &AuthPolicy) -> (ok: bool)
    ensures
        ok == admitted(header_text(header), policy.user@, policy.pass@),
{
    if !policy.is_configured() {
        return true;
    }
    let header = match header {
        Some(header) => header,
        None => return false,
    };
    let (user, pass) = match parse_basic_auth(header) {
        Some(credentials) => credentials,
        None => return false,
    };
    // Check both halves unconditionally so a wrong username does not answer
    // faster than a wrong password.
    let user_ok: bool = ct_eq(user.as_str().as_bytes(), policy.user.as_str().as_bytes());
    let pass_ok: bool = ct_eq(pass.as_str().as_bytes(), policy.pass.as_str().as_bytes());
    proof {
        same_bytes_same_text(user@, policy.user@);
        same_bytes_same_text(pass@, policy.pass@);
    }
    user_ok && pass_ok
}

/// Decide whether a request is allowed, given the portal's credentials if they
/// could be read. When they cannot, the request is refused rather than guessed
/// about.
pub fn guard(header: Option<&str>, policy: Option<&AuthPolicy>) -> (allowed: bool)
    ensures
        allowed == (match policy {
            Some(p) => admitted(header_text(header), p.user@, p.pass@),
            None => false,
        }),
{
    match policy {
        Some(policy) => auth_ok(header, policy),
        None => false,
    }
}

/// The bytes of a pair of credentials as they go into a header.
pub open spec fn credential_bytes(user: Seq<char>, pass: Seq<char>) -> Seq<u8> {
    vstd::utf8::encode_utf8(user.push(':') + pass)
}

/// The header that a client sends for a pair of credentials, the scheme spelled
/// in its own way.
pub open spec fn basic_header(scheme: Seq<char>, user: Seq<char>, pass: Seq<char>) -> Seq<char> {
    let encoded = base64::base64_encoded(credential_bytes(user, pass));
    scheme.push(' ') + Seq::new(encoded.len(), |i: int| encoded[i] as char)
}

/// A header made for a pair of credentials is read back as that pair, whatever
/// the password holds and however capitals and small letters are mixed in the
/// scheme. The username must not contain a colon, and the pair must be short
/// enough to be decoded at all.
pub proof fn credentials_survive_the_header(
    scheme: Seq<char>,
    user: Seq<char>,
    pass: Seq<char>,
)
    requires
        text::equal_ignoring_case(scheme, "basic"@),
        !user.contains(':'),
        credential_bytes(user, pass).len() <= base64::BASE64_MAX_OUT,
    ensures
        basic_credentials(basic_header(scheme, user, pass)) == Some((user, pass)),
{
    let joined = user.push(':') + pass;
    let bytes = credential_bytes(user, pass);
    let encoded = base64::base64_encoded(bytes);
    let rest = Seq::new(encoded.len(), |i: int| encoded[i] as char);
    reveal_strlit("basic");
    assert forall|i: int| 0 <= i < scheme.len() implies #[trigger] scheme[i] != ' ' by {
        assert(text::ascii_lower(scheme[i]) == text::ascii_lower("basic"@[i]));
    }
    text::split_first_of_joined(scheme, ' ', rest);
    assert forall|i: int| 0 <= i < encoded.len() implies 43 <= #[trigger] encoded[i] <= 122 by {
        base64::encoding_stays_in_the_alphabet(bytes, i);
    }
    assert(text::trimmed(rest) == rest) by {
        if rest.len() > 0 {
            assert(43 <= encoded[0] <= 122);
            assert(43 <= encoded[encoded.len() - 1] <= 122);
        }
    }
    assert(vstd::utf8::is_ascii_chars(rest));
    vstd::utf8::is_ascii_chars_encode_utf8(rest);
    assert(vstd::utf8::encode_utf8(rest) =~= encoded) by {
        assert forall|i: int| 0 <= i < encoded.len() implies vstd::utf8::encode_utf8(rest)[i]
            == encoded[i] by {
            assert(rest[i] as u8 == vstd::utf8::encode_utf8(rest)[i]);
        }
    }
    base64::decoding_inverts_encoding(bytes);
    vstd::utf8::encode_utf8_valid_utf8(joined);
    vstd::utf8::encode_utf8_decode_utf8(joined);
    text::split_first_of_joined(user, ':', pass);
}

/// A portal with a password admits a client exactly if it presents the portal's
/// own username and password; a prefix of either, or more than either, is not
/// enough.
pub proof fn only_the_right_credentials_are_admitted(
    scheme: Seq<char>,
    sent_user: Seq<char>,
    sent_pass: Seq<char>,
    user: Seq<char>,
    pass: Seq<char>,
)
    requires
        pass.len() > 0,
        text::equal_ignoring_case(scheme, "basic"@),
        !sent_user.contains(':'),
        credential_bytes(sent_user, sent_pass).len() <= base64::BASE64_MAX_OUT,
    ensures
        admitted(Some(basic_header(scheme, sent_user, sent_pass)), user, pass) <==> sent_user
            == user && sent_pass == pass,
        !admitted(None, user, pass),
{
    credentials_survive_the_header(scheme, sent_user, sent_pass);
}

/// A portal without a password admits everyone.
pub proof fn an_open_portal_admits_everyone(header: Option<Seq<char>>, user: Seq<char>)
    ensures
        admitted(header, user, Seq::empty()),
{
}

/// What was stored is what is asked for. Without a username it is `admin`, and
/// without a password nothing is asked for.
pub proof fn stored_credentials_are_those_asked_for(user: Seq<char>, pass: Seq<char>)
    ensures
        user.len() > 0 ==> stored(Some(user), Some(pass)) == (user, pass),
        stored(Some(Seq::empty()), Some(pass)) == ("admin"@, pass),
        stored(None, Some(pass)) == ("admin"@, pass),
        stored(None, None) == ("admin"@, Seq::<char>::empty()),
        user.len() > 0 ==> stored(Some(user), None) == (user, Seq::<char>::empty()),
{
}

/// Credentials are read from headers of the basic scheme only: behind a password,
/// a header of another scheme, or of none, is refused whatever else it holds.
pub proof fn another_scheme_is_refused(
    scheme: Seq<char>,
    rest: Seq<char>,
    user: Seq<char>,
    pass: Seq<char>,
)
    requires
        pass.len() > 0,
        !scheme.contains(' '),
    ensures
        !admitted(Some(scheme), user, pass),
        !text::equal_ignoring_case(scheme, "basic"@) ==> !admitted(
            Some(scheme.push(' ') + rest),
            user,
            pass,
        ),
{
    text::first_at_is_first(scheme, ' ');
    text::split_first_of_joined(scheme, ' ', rest);
}

} // verus!
