//! Standard base64, without line breaks, as far as the portal needs it.

use vstd::prelude::*;

verus! {

/// Longest decoded text that is accepted. The only thing decoded here is a
/// "user:password" pair, and a long header should not make the portal allocate.
pub const BASE64_MAX_OUT: usize = 192;

/// The value of a character of the alphabet.
pub open spec fn sextet(b: u8) -> Option<int> {
    if 65 <= b <= 90 {
        Some(b - 65)
    } else if 97 <= b <= 122 {
        Some(b - 97 + 26)
    } else if 48 <= b <= 57 {
        Some(b - 48 + 52)
    } else if b == 43 {
        Some(62)
    } else if b == 47 {
        Some(63)
    } else {
        None
    }
}

/// How many padding characters end the text, two at most.
pub open spec fn padding(s: Seq<u8>) -> int {
    if s.len() < 2 || s[s.len() - 1] != 61 {
        0
    } else if s[s.len() - 2] != 61 {
        1
    } else {
        2
    }
}

/// Whole groups of four, all of the alphabet but for the padding at the end.
pub open spec fn well_formed(s: Seq<u8>) -> bool {
    &&& s.len() % 4 == 0
    &&& forall|i: int| 0 <= i < s.len() - padding(s) ==> sextet(#[trigger] s[i]) is Some
}

/// The six bits that the character at `i` stands for; padding stands for zeros.
pub open spec fn six_bits(s: Seq<u8>, i: int) -> int {
    if i < s.len() - padding(s) {
        sextet(s[i])->0
    } else {
        0
    }
}

/// The 24 bits of the group numbered `q`.
pub open spec fn group_bits(s: Seq<u8>, q: int) -> int {
    six_bits(s, 4 * q) * 262144 + six_bits(s, 4 * q + 1) * 4096 + six_bits(s, 4 * q + 2) * 64
        + six_bits(s, 4 * q + 3)
}

/// Byte number `k` of 24 bits.
pub open spec fn byte_of(bits: int, k: int) -> u8 {
    (if k == 0 {
        (bits / 65536) % 256
    } else if k == 1 {
        (bits / 256) % 256
    } else {
        bits % 256
    }) as u8
}

/// The bytes that a well-formed text stands for.
pub open spec fn decoded_bytes(s: Seq<u8>) -> Seq<u8> {
    Seq::new(
        (s.len() / 4 * 3 - padding(s)) as nat,
        |i: int| byte_of(group_bits(s, i / 3), i % 3),
    )
}

/// The bytes that a text stands for, if it is well formed and they are not too
/// many.
pub open spec fn base64_decoded(s: Seq<u8>) -> Option<Seq<u8>> {
    if well_formed(s) && decoded_bytes(s).len() <= BASE64_MAX_OUT {
        Some(decoded_bytes(s))
    } else {
        None
    }
}

fn sextet_of(b: u8) -> (v: Option<u32>)
    ensures
        match v {
            Some(n) => sextet(b) == Some(n as int) && n < 64,
            None => sextet(b) is None,
        },
{
    if 65 <= b && b <= 90 {
        Some((b - 65) as u32)
    } else if 97 <= b && b <= 122 {
        Some((b - 97) as u32 + 26)
    } else if 48 <= b && b <= 57 {
        Some((b - 48) as u32 + 52)
    } else if b == 43 {
        Some(62)
    } else if b == 47 {
        Some(63)
    } else {
        None
    }
}

/// Decode a text, or refuse it if it is not base64 or too long.
pub fn base64_decode(s: &str) -> (out: Option<Vec<u8>>)
    ensures
        match out {
            Some(v) => base64_decoded(vstd::utf8::encode_utf8(s@)) == Some(v@),
            None => base64_decoded(vstd::utf8::encode_utf8(s@)) is None,
        },
{
    let bytes = s.as_bytes();
    let len: usize = bytes.len();
    if len % 4 != 0 {
        return None;
    }
    let pad: usize = if len < 2 || bytes[len - 1] != 61 {
        0
    } else if bytes[len - 2] != 61 {
        1
    } else {
        2
    };
    let out_len: usize = len / 4 * 3 - pad;
    if out_len > BASE64_MAX_OUT {
        return None;
    }
    let mut out: Vec<u8> = Vec::with_capacity(out_len);
    let mut i: usize = 0;
    while i < len
        invariant
            bytes@ == vstd::utf8::encode_utf8(s@),
            len == bytes@.len(),
            len % 4 == 0,
            pad == padding(bytes@),
            out_len == len / 4 * 3 - pad,
            i % 4 == 0,
            i <= len,
            out@.len() == (if i < len { i / 4 * 3 } else { out_len as int }),
            forall|j: int| 0 <= j < i && j < len - pad ==> sextet(#[trigger] bytes@[j]) is Some,
            forall|j: int| 0 <= j < out@.len() ==> out@[j] == decoded_bytes(bytes@)[j],
        decreases len - i,
    {
        let mut acc: u32 = 0;
        let mut j: usize = 0;
        while j < 4
            invariant
                bytes@ == vstd::utf8::encode_utf8(s@),
                len == bytes@.len(),
                len % 4 == 0,
                pad == padding(bytes@),
                i % 4 == 0,
                i < len,
                j <= 4,
                forall|k: int|
                    0 <= k < i + j && k < len - pad ==> sextet(#[trigger] bytes@[k]) is Some,
                j == 0 ==> acc == 0,
                j == 1 ==> acc == six_bits(bytes@, i as int),
                j == 2 ==> acc == six_bits(bytes@, i as int) * 64 + six_bits(bytes@, i + 1),
                j == 3 ==> acc == six_bits(bytes@, i as int) * 4096 + six_bits(bytes@, i + 1) * 64
                    + six_bits(bytes@, i + 2),
                j == 4 ==> acc == group_bits(bytes@, i as int / 4),
                j < 4 ==> acc < 262144,
            decreases 4 - j,
        {
            let mut v: u32 = 0;
            if i + j < len - pad {
                match sextet_of(bytes[i + j]) {
                    Some(n) => {
                        v = n;
                    },
                    None => {
                        assert(sextet(bytes@[i + j]) is None);
                        return None;
                    },
                }
            }
            assert(v == six_bits(bytes@, i + j));
            acc = acc * 64 + v;
            j = j + 1;
        }
        let here: usize = if i + 4 == len {
            3 - pad
        } else {
            3
        };
        let mut k: usize = 0;
        while k < here
            invariant
                i % 4 == 0,
                i < len,
                len == bytes@.len(),
                len % 4 == 0,
                pad == padding(bytes@),
                k <= here,
                here <= 3,
                here == (if i + 4 == len { 3 - pad } else { 3 }),
                acc == group_bits(bytes@, i as int / 4),
                out@.len() == i / 4 * 3 + k,
                forall|j: int| 0 <= j < out@.len() ==> out@[j] == decoded_bytes(bytes@)[j],
            decreases here - k,
        {
            let b: u8 = if k == 0 {
                ((acc / 65536) % 256) as u8
            } else if k == 1 {
                ((acc / 256) % 256) as u8
            } else {
                (acc % 256) as u8
            };
            assert((i / 4 * 3 + k) / 3 == i / 4 && (i / 4 * 3 + k) % 3 == k as int);
            out.push(b);
            k = k + 1;
        }
        i = i + 4;
    }
    assert(out@ =~= decoded_bytes(bytes@));
    Some(out)
}

/// The character of the alphabet that stands for six bits.
pub open spec fn symbol(v: int) -> u8 {
    (if v < 26 {
        v + 65
    } else if v < 52 {
        v - 26 + 97
    } else if v < 62 {
        v - 52 + 48
    } else if v == 62 {
        43
    } else {
        47
    }) as u8
}

/// The byte at `i`, or zero beyond the end.
pub open spec fn byte_or_zero(b: Seq<u8>, i: int) -> int {
    if i < b.len() {
        b[i] as int
    } else {
        0
    }
}

/// The 24 bits of the three bytes from `3 * q` on.
pub open spec fn triple_bits(b: Seq<u8>, q: int) -> int {
    byte_or_zero(b, 3 * q) * 65536 + byte_or_zero(b, 3 * q + 1) * 256 + byte_or_zero(b, 3 * q + 2)
}

/// Six bits of 24, numbered from the highest.
pub open spec fn sextet_at(bits: int, k: int) -> int {
    if k == 0 {
        (bits / 262144) % 64
    } else if k == 1 {
        (bits / 4096) % 64
    } else if k == 2 {
        (bits / 64) % 64
    } else {
        bits % 64
    }
}

/// The standard encoding of a sequence of bytes.
pub open spec fn base64_encoded(b: Seq<u8>) -> Seq<u8> {
    Seq::new(
        ((b.len() + 2) / 3 * 4) as nat,
        |i: int|
            if i % 4 >= 2 && 3 * (i / 4) + i % 4 - 1 >= b.len() {
                61
            } else {
                symbol(sextet_at(triple_bits(b, i / 4), i % 4))
            },
    )
}

proof fn symbol_has_its_value(v: int)
    requires
        0 <= v < 64,
    ensures
        sextet(symbol(v)) == Some(v),
        symbol(v) != 61,
{
}

/// What is encoded holds nothing but the alphabet and padding.
pub proof fn encoding_stays_in_the_alphabet(b: Seq<u8>, i: int)
    requires
        0 <= i < base64_encoded(b).len(),
    ensures
        base64_encoded(b)[i] == 61 || sextet(base64_encoded(b)[i]) is Some,
        43 <= base64_encoded(b)[i] <= 122,
{
    symbol_has_its_value(sextet_at(triple_bits(b, i / 4), i % 4));
}

/// Cutting 24 bits into four times six and putting them together again.
proof fn bits_recombine(b0: int, b1: int, b2: int)
    requires
        0 <= b0 < 256,
        0 <= b1 < 256,
        0 <= b2 < 256,
    ensures
        ({
            let bits = b0 * 65536 + b1 * 256 + b2;
            &&& sextet_at(bits, 0) * 262144 + sextet_at(bits, 1) * 4096 + sextet_at(bits, 2) * 64
                + sextet_at(bits, 3) == bits
            &&& (b2 == 0 ==> sextet_at(bits, 3) == 0)
            &&& (b1 == 0 && b2 == 0 ==> sextet_at(bits, 2) == 0)
            &&& byte_of(bits, 0) == b0
            &&& byte_of(bits, 1) == b1
            &&& byte_of(bits, 2) == b2
        }),
{
    let bits: u32 = (b0 * 65536 + b1 * 256 + b2) as u32;
    let c0: u32 = b0 as u32;
    let c1: u32 = b1 as u32;
    let c2: u32 = b2 as u32;
    assert(bits == c0 * 65536 + c1 * 256 + c2);
    assert({
        &&& (bits / 262144) % 64 * 262144 + (bits / 4096) % 64 * 4096 + (bits / 64) % 64 * 64 + bits
            % 64 == bits
        &&& (c2 == 0 ==> bits % 64 == 0)
        &&& (c1 == 0 && c2 == 0 ==> (bits / 64) % 64 == 0)
        &&& (bits / 65536) % 256 == c0
        &&& (bits / 256) % 256 == c1
        &&& bits % 256 == c2
    }) by (bit_vector)
        requires
            c0 < 256,
            c1 < 256,
            c2 < 256,
            bits == c0 * 65536 + c1 * 256 + c2,
    ;
}

/// Decoding gives back what was encoded, as long as it is not too long.
pub proof fn decoding_inverts_encoding(b: Seq<u8>)
    requires
        b.len() <= BASE64_MAX_OUT,
    ensures
        base64_decoded(base64_encoded(b)) == Some(b),
{
    let s = base64_encoded(b);
    let n = b.len() as int;
    let groups = (n + 2) / 3;
    assert(s.len() == 4 * groups);
    assert forall|i: int| 0 <= i < s.len() implies (#[trigger] s[i] == 61 <==> i >= n + groups)
        && (i < n + groups ==> sextet(s[i]) == Some(
        sextet_at(triple_bits(b, i / 4), i % 4),
    )) by {
        symbol_has_its_value(sextet_at(triple_bits(b, i / 4), i % 4));
    }
    assert(padding(s) == s.len() - (n + groups)) by {
        if n > 0 {
            assert((s[s.len() - 1] == 61) == (s.len() - 1 >= n + groups));
            assert((s[s.len() - 2] == 61) == (s.len() - 2 >= n + groups));
        }
    }
    assert(decoded_bytes(s).len() == n);
    assert forall|i: int| 0 <= i < n implies decoded_bytes(s)[i] == b[i] by {
        let q = i / 3;
        let b0 = byte_or_zero(b, 3 * q);
        let b1 = byte_or_zero(b, 3 * q + 1);
        let b2 = byte_or_zero(b, 3 * q + 2);
        bits_recombine(b0, b1, b2);
        let bits = triple_bits(b, q);
        assert(six_bits(s, 4 * q) == sextet_at(bits, 0)) by {
            assert(s[4 * q] != 61);
        }
        assert(six_bits(s, 4 * q + 1) == sextet_at(bits, 1)) by {
            assert(s[4 * q + 1] != 61);
        }
        assert(six_bits(s, 4 * q + 2) == sextet_at(bits, 2)) by {
            assert((s[4 * q + 2] == 61) == (4 * q + 2 >= n + groups));
        }
        assert(six_bits(s, 4 * q + 3) == sextet_at(bits, 3)) by {
            assert((s[4 * q + 3] == 61) == (4 * q + 3 >= n + groups));
        }
        assert(group_bits(s, q) == bits);
    }
    assert(decoded_bytes(s) =~= b);
}

/// What is not base64 is refused: a text that is not made of groups of four, one
/// with a character in it that is no letter, digit, plus sign or slash, and one
/// that is padded anywhere but in its last two places.
pub proof fn what_is_not_base64_is_refused(s: Seq<u8>, i: int)
    ensures
        s.len() % 4 != 0 ==> base64_decoded(s) is None,
        0 <= i < s.len() && !(65 <= s[i] <= 90 || 97 <= s[i] <= 122 || 47 <= s[i] <= 57 || s[i]
            == 43 || s[i] == 61) ==> base64_decoded(s) is None,
        0 <= i < s.len() - 2 && s[i] == 61 ==> base64_decoded(s) is None,
        i == s.len() - 2 && 0 <= i && s[i] == 61 && s[i + 1] != 61 ==> base64_decoded(s) is None,
{
    if 0 <= i < s.len() - padding(s) {
        assert(well_formed(s) ==> sextet(s[i]) is Some);
    }
}

/// No more than 192 bytes are decoded.
pub proof fn too_much_is_refused(b: Seq<u8>)
    requires
        b.len() > 192,
    ensures
        base64_decoded(base64_encoded(b)) is None,
{
    let s = base64_encoded(b);
    let n = b.len() as int;
    let groups = (n + 2) / 3;
    assert(s.len() == 4 * groups);
    let last = s.len() - 1;
    symbol_has_its_value(sextet_at(triple_bits(b, last / 4), last % 4));
    symbol_has_its_value(sextet_at(triple_bits(b, (last - 1) / 4), (last - 1) % 4));
    assert((s[last] == 61) == (last >= n + groups));
    assert((s[last - 1] == 61) == (last - 1 >= n + groups));
    assert(decoded_bytes(s).len() == n);
}

} // verus!
