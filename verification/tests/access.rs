//! Who is let into the portal.

use traffic_light_display::auth::{auth_ok, ct_eq, parse_basic_auth, AuthPolicy, AUTH_USER_DEFAULT};
use traffic_light_display::base64::base64_decode;
use traffic_light_display::routes::{Entry, Route, Verb, CHALLENGE_SCHEME, CHALLENGE_STATUS};

fn policy(user: &str, pass: &str) -> AuthPolicy {
    AuthPolicy {
        user: user.to_string(),
        pass: pass.to_string(),
    }
}

fn header(user: &str, pass: &str) -> String {
    // Encode with an independent implementation so the test is not just
    // base64_decode agreeing with itself.
    const ALPHABET: &[u8] = b"ABCDEFGHIJKLMNOPQRSTUVWXYZabcdefghijklmnopqrstuvwxyz0123456789+/";
    let raw = format!("{}:{}", user, pass).into_bytes();
    let mut out = String::from("Basic ");
    for chunk in raw.chunks(3) {
        let b = [
            chunk[0],
            *chunk.get(1).unwrap_or(&0),
            *chunk.get(2).unwrap_or(&0),
        ];
        let n = ((b[0] as u32) << 16) | ((b[1] as u32) << 8) | b[2] as u32;
        for i in 0..4 {
            if i <= chunk.len() {
                out.push(ALPHABET[((n >> (18 - 6 * i)) & 0x3f) as usize] as char);
            } else {
                out.push('=');
            }
        }
    }
    out
}

#[test]
fn base64_decodes_the_rfc4648_vectors() {
    assert_eq!(base64_decode("").unwrap(), b"");
    assert_eq!(base64_decode("Zg==").unwrap(), b"f");
    assert_eq!(base64_decode("Zm8=").unwrap(), b"fo");
    assert_eq!(base64_decode("Zm9v").unwrap(), b"foo");
    assert_eq!(base64_decode("Zm9vYg==").unwrap(), b"foob");
    assert_eq!(base64_decode("Zm9vYmE=").unwrap(), b"fooba");
    assert_eq!(base64_decode("Zm9vYmFy").unwrap(), b"foobar");
    assert_eq!(base64_decode("YWRtaW46c2VjcmV0").unwrap(), b"admin:secret");
}

#[test]
fn base64_rejects_what_is_not_base64() {
    assert!(base64_decode("Zm9").is_none(), "length not a multiple of 4");
    assert!(
        base64_decode("Zm9!").is_none(),
        "character outside alphabet"
    );
    assert!(base64_decode("Z=9v").is_none(), "padding in the middle");
    assert!(
        base64_decode("Zm==Zm9v").is_none(),
        "padding before the end"
    );
    assert!(base64_decode("Z===").is_none(), "three padding characters");
    // An over-long header must not make the device allocate for it.
    assert!(base64_decode(&"QUJD".repeat(200)).is_none());
}

#[test]
fn basic_auth_splits_the_header() {
    assert_eq!(
        parse_basic_auth("Basic YWRtaW46c2VjcmV0"),
        Some(("admin".to_string(), "secret".to_string()))
    );
}

#[test]
fn the_scheme_token_is_case_insensitive() {
    // The auth scheme is a case-insensitive token, and real
    // clients do send "basic".
    assert!(parse_basic_auth("basic YWRtaW46c2VjcmV0").is_some());
    assert!(parse_basic_auth("BASIC YWRtaW46c2VjcmV0").is_some());
    assert!(parse_basic_auth("Bearer YWRtaW46c2VjcmV0").is_none());
}

#[test]
fn a_password_may_contain_colons() {
    assert_eq!(
        parse_basic_auth(&header("admin", "a:b:c")),
        Some(("admin".to_string(), "a:b:c".to_string()))
    );
}

#[test]
fn malformed_headers_are_rejected_rather_than_guessed_at() {
    assert!(parse_basic_auth("Basic").is_none(), "no credential at all");
    assert!(parse_basic_auth("Basic !!!!").is_none(), "not base64");
    assert!(
        parse_basic_auth(&{
            let mut h = String::from("Basic ");
            h.push_str("bm9jb2xvbg==");
            h
        })
        .is_none(),
        "decodes, but has no colon"
    );
}

#[test]
fn ct_eq_agrees_with_ordinary_equality() {
    assert!(ct_eq(b"", b""));
    assert!(ct_eq(b"secret", b"secret"));
    assert!(!ct_eq(b"secret", b"secrer"), "differs in the last byte");
    assert!(!ct_eq(b"secret", b"tecret"), "differs in the first byte");
    assert!(!ct_eq(b"secret", b"secretx"), "prefix is not a match");
    assert!(!ct_eq(b"", b"x"));
}

#[test]
fn an_unconfigured_portal_lets_everyone_in() {
    // Deliberate: a firmware update must not lock an existing light out of
    // its own portal. The page nags and /ota refuses instead.
    let p = policy("admin", "");
    assert!(auth_ok(None, &p));
    assert!(auth_ok(Some(&header("nobody", "nothing")), &p));
}

#[test]
fn a_configured_portal_wants_the_right_credentials() {
    let p = policy(AUTH_USER_DEFAULT, "hunter2");
    assert!(auth_ok(Some(&header(AUTH_USER_DEFAULT, "hunter2")), &p));
    assert!(
        !auth_ok(Some(&header("admin", "hunter3")), &p),
        "wrong password"
    );
    assert!(!auth_ok(Some(&header("root", "hunter2")), &p), "wrong user");
    assert!(!auth_ok(None, &p), "no header");
    assert!(!auth_ok(Some("Basic !!!"), &p), "unparseable header");
    assert!(!auth_ok(Some(&header("admin", "")), &p), "empty password");
}

#[test]
fn every_route_goes_through_the_auth_guard() {
    // No handler carries its own copy of the auth check and none is reached
    // without it, whichever route is asked for.
    let p = policy(AUTH_USER_DEFAULT, "hunter2");
    let good = header(AUTH_USER_DEFAULT, "hunter2");
    let bad = header(AUTH_USER_DEFAULT, "hunter3");
    let routes = Route::all();
    assert_eq!(routes.len(), 7);
    for route in routes {
        assert_eq!(route.enter(None, Some(&p)), Entry::Challenge, "{:?}", route);
        assert_eq!(route.enter(Some(&bad), Some(&p)), Entry::Challenge, "{:?}", route);
        assert_eq!(route.enter(Some(&good), Some(&p)), Entry::Handle(route), "{:?}", route);
        assert_eq!(route.enter(Some(&good), None), Entry::Challenge, "{:?}", route);
    }
}

#[test]
fn a_password_that_is_a_prefix_of_the_real_one_is_not_enough() {
    // The bug this guards against is comparing only min(len) bytes.
    let p = policy("admin", "hunter2");
    assert!(!auth_ok(Some(&header("admin", "hunter")), &p));
    assert!(!auth_ok(Some(&header("admin", "hunter22")), &p));
}

#[test]
fn a_header_may_be_padded_with_white_space() {
    assert_eq!(
        parse_basic_auth("Basic \t YWRtaW46c2VjcmV0 \n"),
        Some(("admin".to_string(), "secret".to_string()))
    );
}

#[test]
fn credentials_that_are_not_utf8_are_refused() {
    // 0xff 0x3a 0x61: a colon, but no text before it
    assert_eq!(base64_decode("/zph").unwrap(), vec![0xff, 0x3a, 0x61]);
    assert!(parse_basic_auth("Basic /zph").is_none());
}

#[test]
fn credentials_survive_the_header() {
    for (user, pass) in [("admin", ""), ("caf\u{e9}", "p\u{e4}ss:w\u{f6}rd"), ("", "\u{1f6a6}")] {
        assert_eq!(
            parse_basic_auth(&header(user, pass)),
            Some((user.to_string(), pass.to_string()))
        );
    }
}

#[test]
fn the_scheme_may_be_spelled_in_any_case() {
    let p = policy("admin", "hunter2");
    for scheme in ["Basic", "basic", "BASIC", "bAsIc"] {
        let h = header("admin", "hunter2").replace("Basic", scheme);
        assert!(auth_ok(Some(&h), &p), "{}", scheme);
    }
}

#[test]
fn decoding_stops_at_the_cap() {
    // 64 groups of three bytes are exactly what is allowed
    assert_eq!(base64_decode(&"QUJD".repeat(64)).unwrap().len(), 192);
    assert!(base64_decode(&"QUJD".repeat(65)).is_none());
    assert!(base64_decode(&format!("{}QQ==", "QUJD".repeat(64))).is_none());
}

#[test]
fn stored_credentials_have_defaults() {
    let p = AuthPolicy::from_stored(None, None);
    assert_eq!((p.user.as_str(), p.pass.as_str()), ("admin", ""));
    assert!(!p.is_configured());
    let p = AuthPolicy::from_stored(Some(String::new()), Some("x".to_string()));
    assert_eq!((p.user.as_str(), p.pass.as_str()), ("admin", "x"));
    assert!(p.is_configured());
    let p = AuthPolicy::from_stored(Some("me".to_string()), Some("x".to_string()));
    assert_eq!(p.user, "me");
}

#[test]
fn routes_know_their_paths() {
    let seen: Vec<(&str, Verb)> = Route::all().iter().map(|r| (r.path(), r.verb())).collect();
    assert_eq!(
        seen,
        vec![
            ("/", Verb::Get),
            ("/save", Verb::Post),
            ("/preview", Verb::Post),
            ("/status", Verb::Get),
            ("/reboot", Verb::Post),
            ("/version", Verb::Get),
            ("/ota", Verb::Post),
        ]
    );
    assert_eq!(CHALLENGE_STATUS, 401);
    assert_eq!(CHALLENGE_SCHEME, "Basic realm=\"traffic light\"");
}
