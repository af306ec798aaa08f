//! Text helpers: whole-character cuts, trimming, splitting, and decimal
//! numbers in and out.

use vstd::prelude::*;

verus! {

/// `String::push` appends one character.
pub assume_specification[ String::push ](s: &mut String, ch: char)
    ensures
        final(s)@ == old(s)@.push(ch),
;

/// `String::from_utf8` accepts exactly the well-formed UTF-8 sequences and gives
/// the characters that they encode.
#[verifier::external_body]
pub(crate) fn utf8_text(bytes: Vec<u8>) -> (out: Option<String>)
    ensures
        match out {
            Some(s) => vstd::utf8::valid_utf8(bytes@) && s@ == vstd::utf8::decode_utf8(bytes@),
            None => !vstd::utf8::valid_utf8(bytes@),
        },
{
    String::from_utf8(bytes).ok()
}

/// A text that may be missing, by what it holds.
pub open spec fn held(t: Option<String>) -> Option<Seq<char>> {
    match t {
        Some(t) => Some(t@),
        None => None,
    }
}

/// The first `max` elements, or all of them if there are fewer.
pub open spec fn truncated<T>(s: Seq<T>, max: int) -> Seq<T> {
    if s.len() <= max {
        s
    } else {
        s.take(max)
    }
}

/// Truncate a string to at most `max` characters (not bytes), preserving whole
/// UTF-8 characters. Used to bound marquee text everywhere it enters.
pub fn truncate_chars(s: &str, max: usize) -> (out: String)
    ensures
        out@ == truncated(s@, max as int),
{
    let mut out = String::new();
    let mut kept: usize = 0;
    for c in it: s.chars()
        invariant
            it.seq() == s@,
            kept <= max,
            kept == (if it.index() <= max { it.index() as int } else { max as int }),
            out@ == s@.take(kept as int),
    {
        if kept < max {
            assert(s@.take(kept + 1) =~= s@.take(kept as int).push(c));
            out.push(c);
            kept = kept + 1;
        }
    }
    assert(s@.take(s@.len() as int) =~= s@);
    out
}

/// Where `c` first occurs.
pub open spec fn first_at<T>(s: Seq<T>, c: T) -> Option<int>
    decreases s.len(),
{
    if s.len() == 0 {
        None
    } else if s[0] == c {
        Some(0)
    } else {
        match first_at(s.skip(1), c) {
            Some(i) => Some(i + 1),
            None => None,
        }
    }
}

/// `first_at` finds a place where `c` stands and before which it does not, and
/// finds none only if there is none.
pub proof fn first_at_is_first<T>(s: Seq<T>, c: T)
    ensures
        match first_at(s, c) {
            Some(i) => 0 <= i < s.len() && s[i] == c && (forall|j: int| 0 <= j < i ==> s[j] != c),
            None => !s.contains(c),
        },
    decreases s.len(),
{
    if s.len() > 0 && s[0] != c {
        first_at_is_first(s.skip(1), c);
        assert(forall|j: int| 0 < j < s.len() ==> s[j] == s.skip(1)[j - 1]);
    }
}

/// What stands before the first `c`, and what stands after it.
pub open spec fn split_first<T>(s: Seq<T>, c: T) -> Option<(Seq<T>, Seq<T>)> {
    match first_at(s, c) {
        Some(i) => Some((s.take(i), s.skip(i + 1))),
        None => None,
    }
}

/// A text without `c`, then `c`, then any text, splits into the two.
pub proof fn split_first_of_joined<T>(a: Seq<T>, c: T, b: Seq<T>)
    requires
        !a.contains(c),
    ensures
        split_first(a.push(c) + b, c) == Some((a, b)),
{
    let s = a.push(c) + b;
    first_at_is_first(s, c);
    assert(s[a.len() as int] == c);
    assert(s.contains(c));
    let i = first_at(s, c)->0;
    if i < a.len() {
        assert(a[i] == s[i]);
    }
    assert(s.take(i) =~= a);
    assert(s.skip(i + 1) =~= b);
}

/// Split at the first occurrence of `sep`, which belongs to neither part.
pub fn split_once(s: &str, sep: char) -> (parts: Option<(&str, &str)>)
    ensures
        match parts {
            Some((before, after)) => split_first(s@, sep) == Some((before@, after@)),
            None => split_first(s@, sep) is None,
        },
{
    let len: usize = s.unicode_len();
    let mut at: usize = 0;
    let mut found: bool = false;
    for c in it: s.chars()
        invariant
            it.seq() == s@,
            len == s@.len(),
            !found ==> forall|j: int| 0 <= j < it.index() ==> s@[j] != sep,
            found ==> at < it.index() && s@[at as int] == sep && forall|j: int|
                0 <= j < at ==> s@[j] != sep,
            !found ==> at == it.index(),
    {
        if !found {
            if c == sep {
                found = true;
            } else {
                at = at + 1;
            }
        }
    }
    proof {
        first_at_is_first(s@, sep);
    }
    if found {
        assert(s@.contains(sep));
        assert(s@.take(at as int) =~= s@.subrange(0, at as int));
        assert(s@.skip(at + 1) =~= s@.subrange(at + 1, len as int));
        Some((s.substring_char(0, at), s.substring_char(at + 1, len)))
    } else {
        None
    }
}

/// A character with the Unicode property `White_Space`.
pub open spec fn is_space(c: char) -> bool {
    ||| '\u{9}' <= c <= '\u{d}'
    ||| c == ' '
    ||| c == '\u{85}'
    ||| c == '\u{a0}'
    ||| c == '\u{1680}'
    ||| '\u{2000}' <= c <= '\u{200a}'
    ||| c == '\u{2028}'
    ||| c == '\u{2029}'
    ||| c == '\u{202f}'
    ||| c == '\u{205f}'
    ||| c == '\u{3000}'
}

/// The text without the white space at its ends.
pub open spec fn trimmed(s: Seq<char>) -> Seq<char>
    decreases s.len(),
{
    if s.len() > 0 && is_space(s[0]) {
        trimmed(s.skip(1))
    } else if s.len() > 0 && is_space(s.last()) {
        trimmed(s.drop_last())
    } else {
        s
    }
}

/// A text with nothing but white space outside `from..to` is trimmed to no
/// more than that range.
proof fn trimmed_within(s: Seq<char>, from: int, to: int)
    requires
        0 <= from <= to <= s.len(),
        forall|j: int| 0 <= j < from ==> is_space(s[j]),
        forall|j: int| to <= j < s.len() ==> is_space(s[j]),
        from < to ==> !is_space(s[from]) && !is_space(s[to - 1]),
    ensures
        trimmed(s) == s.subrange(from, to),
    decreases s.len(),
{
    if s.len() > 0 && is_space(s[0]) {
        let t = s.skip(1);
        if from > 0 {
            trimmed_within(t, from - 1, to - 1);
            assert(t.subrange(from - 1, to - 1) =~= s.subrange(from, to));
        } else {
            assert(from == to);
            trimmed_within(t, 0, 0);
            assert(t.subrange(0, 0) =~= s.subrange(from, to));
        }
    } else if s.len() > 0 && is_space(s.last()) {
        let t = s.drop_last();
        if to < s.len() {
            trimmed_within(t, from, to);
            assert(t.subrange(from, to) =~= s.subrange(from, to));
        } else {
            assert(from == to);
            assert(false);
        }
    } else {
        assert(from == 0 && to == s.len());
        assert(s.subrange(from, to) =~= s);
    }
}

/// Whether a character counts as white space.
pub fn is_white_space(c: char) -> (space: bool)
    ensures
        space == is_space(c),
{
    ('\u{9}' <= c && c <= '\u{d}') || c == ' ' || c == '\u{85}' || c == '\u{a0}' || c == '\u{1680}'
        || ('\u{2000}' <= c && c <= '\u{200a}') || c == '\u{2028}' || c == '\u{2029}' || c
        == '\u{202f}' || c == '\u{205f}' || c == '\u{3000}'
}

/// The text without the white space at its ends.
pub fn trim(s: &str) -> (out: &str)
    ensures
        out@ == trimmed(s@),
{
    let len: usize = s.unicode_len();
    let mut from: usize = 0;
    let mut to: usize = 0;
    let mut at: usize = 0;
    for c in it: s.chars()
        invariant
            it.seq() == s@,
            len == s@.len(),
            at == it.index(),
            from <= to <= at,
            forall|j: int| 0 <= j < from ==> is_space(s@[j]),
            forall|j: int| to <= j < at ==> is_space(s@[j]),
            from < to ==> !is_space(s@[from as int]) && !is_space(s@[to - 1]),
            from == to ==> to == 0,
    {
        if !is_white_space(c) {
            if from == to {
                from = at;
            }
            to = at + 1;
        }
        at = at + 1;
    }
    proof {
        trimmed_within(s@, from as int, to as int);
    }
    s.substring_char(from, to)
}

/// The lower-case form of an ASCII capital; any other character itself.
pub open spec fn ascii_lower(c: char) -> char {
    if 'A' <= c <= 'Z' {
        (c as u8 + 32) as char
    } else {
        c
    }
}

/// Equal but for the case of ASCII letters.
pub open spec fn equal_ignoring_case(a: Seq<char>, b: Seq<char>) -> bool {
    &&& a.len() == b.len()
    &&& forall|i: int| 0 <= i < a.len() ==> #[trigger] ascii_lower(a[i]) == ascii_lower(b[i])
}

fn lower(c: char) -> (l: char)
    ensures
        l == ascii_lower(c),
{
    if 'A' <= c && c <= 'Z' {
        (c as u8 + 32) as char
    } else {
        c
    }
}

/// Compare two texts, taking ASCII capitals and small letters for equal.
pub fn eq_ignore_ascii_case(a: &str, b: &str) -> (same: bool)
    ensures
        same == equal_ignoring_case(a@, b@),
{
    let x = chars_of(a);
    let y = chars_of(b);
    if x.len() != y.len() {
        return false;
    }
    let mut i: usize = 0;
    while i < x.len()
        invariant
            i <= x.len(),
            x@ == a@,
            y@ == b@,
            x.len() == y.len(),
            forall|j: int| 0 <= j < i ==> #[trigger] ascii_lower(a@[j]) == ascii_lower(b@[j]),
        decreases x.len() - i,
    {
        if lower(x[i]) != lower(y[i]) {
            return false;
        }
        i = i + 1;
    }
    true
}

/// The two texts hold the same characters.
pub fn same_text(a: &str, b: &str) -> (same: bool)
    ensures
        same == (a@ == b@),
{
    let len: usize = a.unicode_len();
    if len != b.unicode_len() {
        return false;
    }
    let bs = chars_of(b);
    let mut at: usize = 0;
    for c in it: a.chars()
        invariant
            it.seq() == a@,
            at == it.index(),
            bs@ == b@,
            len == a@.len(),
            len == b@.len(),
            forall|j: int| 0 <= j < at ==> a@[j] == b@[j],
    {
        if c != bs[at] {
            return false;
        }
        at = at + 1;
    }
    assert(a@ =~= b@);
    true
}

/// The characters of a text.
pub fn chars_of(s: &str) -> (chars: Vec<char>)
    ensures
        chars@ == s@,
{
    let mut chars: Vec<char> = Vec::new();
    for c in it: s.chars()
        invariant
            it.seq() == s@,
            chars@ == s@.take(it.index() as int),
    {
        assert(s@.take(it.index() + 1) =~= s@.take(it.index() as int).push(c));
        chars.push(c);
    }
    assert(s@.take(s@.len() as int) =~= s@);
    chars
}

/// A decimal digit.
pub open spec fn digit(d: int) -> char {
    (48 + d) as char
}

/// A number in decimal, without leading zeros.
pub open spec fn decimal(n: nat) -> Seq<char>
    decreases n,
{
    if n < 10 {
        seq![digit(n as int)]
    } else {
        decimal(n / 10).push(digit((n % 10) as int))
    }
}

/// Append a number in decimal.
pub fn push_decimal(out: &mut String, n: u64)
    ensures
        final(out)@ == old(out)@ + decimal(n as nat),
    decreases n,
{
    if n >= 10 {
        push_decimal(out, n / 10);
    }
    let d: u8 = (n % 10) as u8;
    out.push((48 + d) as char);
    assert(out@ =~= old(out)@ + decimal(n as nat));
}

/// A hexadecimal digit, in lower case.
pub open spec fn hex_digit(d: int) -> char {
    if d < 10 {
        (48 + d) as char
    } else {
        (87 + d) as char
    }
}

/// A number in hexadecimal, in lower case and at least `width` digits wide.
pub open spec fn hexadecimal(n: nat, width: nat) -> Seq<char>
    decreases n, width,
{
    if n == 0 && width == 0 {
        Seq::empty()
    } else {
        hexadecimal(n / 16, if width == 0 { 0 } else { (width - 1) as nat }).push(
            hex_digit((n % 16) as int),
        )
    }
}

/// Append a number in hexadecimal, at least `width` digits wide.
pub fn push_hex(out: &mut String, n: u32, width: u8)
    ensures
        final(out)@ == old(out)@ + hexadecimal(n as nat, width as nat),
    decreases n, width,
{
    if n != 0 || width != 0 {
        push_hex(out, n / 16, if width == 0 { 0 } else { width - 1 });
        let d: u8 = (n % 16) as u8;
        if d < 10 {
            out.push((48 + d) as char);
        } else {
            out.push((87 + d) as char);
        }
    }
    assert(out@ =~= old(out)@ + hexadecimal(n as nat, width as nat));
}

/// The value of a hexadecimal digit.
pub open spec fn hex_value(b: int) -> Option<int> {
    if 48 <= b <= 57 {
        Some(b - 48)
    } else if 97 <= b <= 102 {
        Some(b - 87)
    } else if 65 <= b <= 70 {
        Some(b - 55)
    } else {
        None
    }
}

/// The value of a hexadecimal digit, in upper or lower case.
pub fn hex_val(b: u8) -> (value: Option<u8>)
    ensures
        match value {
            Some(v) => v < 16 && hex_value(b as int) == Some(v as int),
            None => hex_value(b as int) is None,
        },
{
    if 48 <= b && b <= 57 {
        Some(b - 48)
    } else if 97 <= b && b <= 102 {
        Some(b - 87)
    } else if 65 <= b && b <= 70 {
        Some(b - 55)
    } else {
        None
    }
}

/// A text of decimal digits.
pub open spec fn all_digits(s: Seq<char>) -> bool {
    forall|i: int| 0 <= i < s.len() ==> '0' <= #[trigger] s[i] <= '9'
}

/// The value of a text of decimal digits.
pub open spec fn digits_value(s: Seq<char>) -> nat
    decreases s.len(),
{
    if s.len() == 0 {
        0
    } else {
        digits_value(s.drop_last()) * 10 + (s.last() as nat - 48) as nat
    }
}

/// The number that a text stands for, if it is an optional plus sign and one
/// or more decimal digits and the number is no more than `max`.
pub open spec fn parsed_number(s: Seq<char>, max: nat) -> Option<nat> {
    let digits = if s.len() > 0 && s[0] == '+' {
        s.skip(1)
    } else {
        s
    };
    if digits.len() > 0 && all_digits(digits) && digits_value(digits) <= max {
        Some(digits_value(digits))
    } else {
        None
    }
}

/// More digits never make a number smaller.
proof fn digits_value_grows(s: Seq<char>, n: int)
    requires
        0 <= n <= s.len(),
        all_digits(s),
    ensures
        digits_value(s.take(n)) <= digits_value(s),
    decreases s.len() - n,
{
    if n < s.len() {
        digits_value_grows(s, n + 1);
        assert(s.take(n + 1).drop_last() =~= s.take(n));
    } else {
        assert(s.take(n) =~= s);
    }
}

fn parse_number(s: &str, max: u32) -> (n: Option<u32>)
    ensures
        match n {
            Some(v) => parsed_number(s@, max as nat) == Some(v as nat),
            None => parsed_number(s@, max as nat) is None,
        },
{
    let chars = chars_of(s);
    let start: usize = if chars.len() > 0 && chars[0] == '+' {
        1
    } else {
        0
    };
    let ghost digits = if s@.len() > 0 && s@[0] == '+' {
        s@.skip(1)
    } else {
        s@
    };
    assert(digits =~= s@.skip(start as int));
    if start == chars.len() {
        return None;
    }
    let mut i: usize = start;
    let mut value: u64 = 0;
    while i < chars.len()
        invariant
            chars@ == s@,
            start <= i <= chars.len(),
            start < chars.len(),
            digits == s@.skip(start as int),
            digits == (if s@.len() > 0 && s@[0] == '+' {
                s@.skip(1)
            } else {
                s@
            }),
            forall|j: int| 0 <= j < i - start ==> '0' <= #[trigger] digits[j] <= '9',
            value == digits_value(digits.take(i - start)),
            value <= max,
        decreases chars.len() - i,
    {
        let c: char = chars[i];
        assert(c == digits[i - start]);
        if c < '0' || c > '9' {
            return None;
        }
        assert(digits.take(i - start + 1).drop_last() =~= digits.take(i - start));
        value = value * 10 + (c as u64 - 48);
        if value > max as u64 {
            proof {
                if all_digits(digits) {
                    digits_value_grows(digits, i - start + 1);
                }
            }
            return None;
        }
        i = i + 1;
    }
    assert(digits.take(digits.len() as int) =~= digits);
    Some(value as u32)
}

/// The number a text stands for, if it fits 16 bits.
pub fn parse_u16(s: &str) -> (n: Option<u16>)
    ensures
        match n {
            Some(v) => parsed_number(s@, u16::MAX as nat) == Some(v as nat),
            None => parsed_number(s@, u16::MAX as nat) is None,
        },
{
    match parse_number(s, 65535) {
        Some(v) => Some(v as u16),
        None => None,
    }
}

/// The number a text stands for, if it fits 8 bits.
pub fn parse_u8(s: &str) -> (n: Option<u8>)
    ensures
        match n {
            Some(v) => parsed_number(s@, u8::MAX as nat) == Some(v as nat),
            None => parsed_number(s@, u8::MAX as nat) is None,
        },
{
    match parse_number(s, 255) {
        Some(v) => Some(v as u8),
        None => None,
    }
}

proof fn decimal_digits(n: nat)
    ensures
        decimal(n).len() > 0,
        all_digits(decimal(n)),
        digits_value(decimal(n)) == n,
    decreases n,
{
    if n < 10 {
        assert(decimal(n).drop_last() =~= Seq::<char>::empty());
        assert(digits_value(Seq::<char>::empty()) == 0);
    } else {
        decimal_digits(n / 10);
        let front = decimal(n / 10);
        assert(decimal(n).drop_last() =~= front);
        assert forall|i: int| 0 <= i < decimal(n).len() implies '0' <= #[trigger] decimal(n)[i]
            <= '9' by {
            if i < front.len() {
                assert(decimal(n)[i] == front[i]);
            }
        }
    }
}

/// A number written in decimal is read back as itself.
pub proof fn decimal_is_read_back(n: nat, max: nat)
    requires
        n <= max,
    ensures
        parsed_number(decimal(n), max) == Some(n),
{
    decimal_digits(n);
    assert('0' <= decimal(n)[0] <= '9');
}

/// Cutting a text off twice is the same as cutting it off once.
pub proof fn truncation_is_idempotent(s: Seq<char>, max: int)
    requires
        0 <= max,
    ensures
        truncated(s, max).len() <= max,
        truncated(truncated(s, max), max) == truncated(s, max),
{
}

/// A text is cut off behind its first `max` characters, and only if it is
/// longer.
pub proof fn a_cut_keeps_the_start(s: Seq<char>, max: int, i: int)
    requires
        0 <= max,
    ensures
        truncated(s, max).len() == (if s.len() < max {
            s.len() as int
        } else {
            max
        }),
        0 <= i < truncated(s, max).len() ==> truncated(s, max)[i] == s[i],
{
}

/// Trimming takes white space from the ends of a text and nothing else: however
/// much of it stands around a text that neither starts nor ends with any, the
/// text is what is left.
pub proof fn trimming_takes_the_white_space_around(
    before: Seq<char>,
    s: Seq<char>,
    after: Seq<char>,
)
    requires
        forall|i: int| 0 <= i < before.len() ==> is_space(#[trigger] before[i]),
        forall|i: int| 0 <= i < after.len() ==> is_space(#[trigger] after[i]),
        s.len() > 0 ==> !is_space(s[0]) && !is_space(s.last()),
    ensures
        trimmed(before + s + after) == s,
{
    let whole = before + s + after;
    let from = before.len() as int;
    let to = from + s.len();
    assert forall|j: int| 0 <= j < from implies is_space(whole[j]) by {
        assert(whole[j] == before[j]);
    }
    assert forall|j: int| to <= j < whole.len() implies is_space(whole[j]) by {
        assert(whole[j] == after[j - to]);
    }
    trimmed_within(whole, from, to);
    assert(whole.subrange(from, to) =~= s);
}

/// Texts are equal but for case just if they are as long, and wherever they
/// differ there is a letter from A to Z in the one and the small form of it in
/// the other.
pub proof fn case_is_all_that_is_ignored(a: Seq<char>, b: Seq<char>)
    ensures
        equal_ignoring_case(a, b) <==> a.len() == b.len() && forall|i: int|
            0 <= i < a.len() ==> {
                ||| #[trigger] a[i] == b[i]
                ||| 'A' <= a[i] <= 'Z' && b[i] as int == a[i] as int + 32
                ||| 'A' <= b[i] <= 'Z' && a[i] as int == b[i] as int + 32
            },
{
    if equal_ignoring_case(a, b) {
        assert forall|i: int| 0 <= i < a.len() implies {
            ||| #[trigger] a[i] == b[i]
            ||| 'A' <= a[i] <= 'Z' && b[i] as int == a[i] as int + 32
            ||| 'A' <= b[i] <= 'Z' && a[i] as int == b[i] as int + 32
        } by {
            assert(ascii_lower(a[i]) == ascii_lower(b[i]));
        }
    }
    if a.len() == b.len() && forall|i: int|
        0 <= i < a.len() ==> {
            ||| #[trigger] a[i] == b[i]
            ||| 'A' <= a[i] <= 'Z' && b[i] as int == a[i] as int + 32
            ||| 'A' <= b[i] <= 'Z' && a[i] as int == b[i] as int + 32
        } {
        assert forall|i: int| 0 <= i < a.len() implies #[trigger] ascii_lower(a[i]) == ascii_lower(
            b[i],
        ) by {
            assert(a[i] == a[i]);
        }
    }
}

/// What is not a row of digits, with or without a plus sign before them, is no
/// number, and neither is anything that exceeds the limit.
pub proof fn what_is_no_number_is_not_read(s: Seq<char>, i: int, max: nat, n: nat)
    ensures
        s.len() == 0 ==> parsed_number(s, max) is None,
        0 <= i < s.len() && !('0' <= s[i] <= '9') && (i > 0 || s[0] != '+') ==> parsed_number(
            s,
            max,
        ) is None,
        n > max ==> parsed_number(decimal(n), max) is None,
{
    if 0 <= i < s.len() && !('0' <= s[i] <= '9') && (i > 0 || s[0] != '+') {
        if s[0] == '+' {
            assert(s.skip(1)[i - 1] == s[i]);
        }
    }
    decimal_digits(n);
    assert('0' <= decimal(n)[0] <= '9');
}

} // verus!
