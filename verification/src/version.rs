//! What is running, for a script to check.

use vstd::prelude::*;

use crate::text;
use crate::text::{push_decimal, push_hex};

verus! {

/// Bytes in hexadecimal, two digits each.
pub open spec fn hex_text(bytes: Seq<u8>) -> Seq<char>
    decreases bytes.len(),
{
    if bytes.len() == 0 {
        Seq::empty()
    } else {
        hex_text(bytes.drop_last()) + text::hexadecimal(bytes.last() as nat, 2)
    }
}

/// The hash that identifies a build, as text.
pub fn hex_string(bytes: &[u8]) -> (out: String)
    ensures
        out@ == hex_text(bytes@),
{
    let mut out = String::new();
    let mut i: usize = 0;
    while i < bytes.len()
        invariant
            i <= bytes.len(),
            out@ == hex_text(bytes@.take(i as int)),
        decreases bytes.len() - i,
    {
        push_hex(&mut out, bytes[i] as u32, 2);
        assert(bytes@.take(i + 1).drop_last() =~= bytes@.take(i as int));
        i = i + 1;
    }
    assert(bytes@.take(i as int) =~= bytes@);
    out
}

/// What is running.
pub struct VersionInfo {
    pub name: String,
    pub version: String,
    pub idf: String,
    pub partition: String,
    pub elf_sha256: String,
    pub ota_state: String,
    pub uptime_ms: u64,
}

/// What is running, as a JSON object. The texts stand in it as they are.
pub open spec fn version_text(info: VersionInfo) -> Seq<char> {
    "{\"name\":\""@ + info.name@ + "\",\"version\":\""@ + info.version@ + "\",\"idf\":\""@
        + info.idf@ + "\",\"partition\":\""@ + info.partition@ + "\",\"elf_sha256\":\""@
        + info.elf_sha256@ + "\",\"ota_state\":\""@ + info.ota_state@ + "\",\"uptime_ms\":"@
        + text::decimal(info.uptime_ms as nat) + "}"@
}

pub fn version_body(info: &VersionInfo) -> (out: String)
    ensures
        out@ == version_text(*info),
{
    let mut out = "{\"name\":\"".to_owned();
    out.append(info.name.as_str());
    out.append("\",\"version\":\"");
    out.append(info.version.as_str());
    out.append("\",\"idf\":\"");
    out.append(info.idf.as_str());
    out.append("\",\"partition\":\"");
    out.append(info.partition.as_str());
    out.append("\",\"elf_sha256\":\"");
    out.append(info.elf_sha256.as_str());
    out.append("\",\"ota_state\":\"");
    out.append(info.ota_state.as_str());
    out.append("\",\"uptime_ms\":");
    push_decimal(&mut out, info.uptime_ms);
    out.append("}");
    out
}

/// Two hashes look alike only if they are the same.
pub proof fn hex_text_tells_hashes_apart(a: Seq<u8>, b: Seq<u8>)
    requires
        hex_text(a) == hex_text(b),
    ensures
        a == b,
    decreases a.len(),
{
    hex_text_len(a);
    hex_text_len(b);
    if a.len() > 0 {
        two_digits(a.last());
        two_digits(b.last());
        let n = 2 * a.len();
        let x = hex_text(a);
        assert(hex_text(a.drop_last()) =~= x.take(n - 2)) by {
            hex_text_len(a.drop_last());
        }
        assert(hex_text(b.drop_last()) =~= x.take(n - 2)) by {
            hex_text_len(b.drop_last());
        }
        hex_text_len(a.drop_last());
        hex_text_len(b.drop_last());
        hex_text_tells_hashes_apart(a.drop_last(), b.drop_last());
        assert(text::hexadecimal(a.last() as nat, 2) =~= x.skip(n - 2));
        assert(text::hexadecimal(b.last() as nat, 2) =~= x.skip(n - 2));
        assert(text::hexadecimal(a.last() as nat, 2)[0] == text::hexadecimal(
            b.last() as nat,
            2,
        )[0]);
        assert(text::hexadecimal(a.last() as nat, 2)[1] == text::hexadecimal(
            b.last() as nat,
            2,
        )[1]);
        assert(a.last() == b.last());
        assert(a =~= a.drop_last().push(a.last()));
        assert(b =~= b.drop_last().push(b.last()));
    } else {
        assert(a =~= b);
    }
}

proof fn two_digits(b: u8)
    ensures
        text::hexadecimal(b as nat, 2) == seq![
            text::hex_digit((b / 16) as int),
            text::hex_digit((b % 16) as int),
        ],
{
    reveal_with_fuel(text::hexadecimal, 4);
    assert(text::hexadecimal(b as nat, 2) =~= seq![
        text::hex_digit((b / 16) as int),
        text::hex_digit((b % 16) as int),
    ]);
}

proof fn hex_text_len(bytes: Seq<u8>)
    ensures
        hex_text(bytes).len() == 2 * bytes.len(),
    decreases bytes.len(),
{
    if bytes.len() > 0 {
        hex_text_len(bytes.drop_last());
        two_digits(bytes.last());
    }
}

} // verus!
