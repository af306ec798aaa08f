//! Form bodies: percent-decoding, and the fields by name.

use vstd::prelude::*;
use vstd::hash_map::StringHashMap;

use crate::text;
use crate::text::{hex_val, split_once};

verus! {

/// The most of a body that is read, in bytes.
pub const BODY_MAX: usize = 4096;

/// What text `String::from_utf8_lossy` makes of bytes that are not well-formed
/// UTF-8.
pub uninterp spec fn mended_text(bytes: Seq<u8>) -> Seq<char>;

/// The text that bytes stand for: the characters they encode if they are
/// well-formed, else what is left of it after mending.
pub open spec fn lossy(bytes: Seq<u8>) -> Seq<char> {
    if vstd::utf8::valid_utf8(bytes) {
        vstd::utf8::decode_utf8(bytes)
    } else {
        mended_text(bytes)
    }
}

/// `String::from_utf8_lossy` gives the characters that well-formed UTF-8
/// encodes. Of other bytes nothing is said but that the text depends on them
/// alone.
#[verifier::external_body]
fn utf8_lossy(bytes: &[u8]) -> (out: String)
    ensures
        vstd::utf8::valid_utf8(bytes@) ==> out@ == vstd::utf8::decode_utf8(bytes@),
        !vstd::utf8::valid_utf8(bytes@) ==> out@ == mended_text(bytes@),
{
    String::from_utf8_lossy(bytes).into_owned()
}

/// How much of a body to read: what its length is announced to be, but no more
/// than this form can need.
pub fn body_read_len(content_len: Option<u64>) -> (len: usize)
    ensures
        len == (match content_len {
            Some(n) => if n < BODY_MAX {
                n as int
            } else {
                BODY_MAX as int
            },
            None => 0,
        }),
{
    match content_len {
        Some(n) => if n < BODY_MAX as u64 {
            n as usize
        } else {
            BODY_MAX
        },
        None => 0,
    }
}

/// The text of a body.
pub fn body_text(bytes: &[u8]) -> (out: String)
    ensures
        out@ == lossy(bytes@),
{
    utf8_lossy(bytes)
}

/// The byte that the escape at the start of `b` stands for: a percent sign and
/// two hexadecimal digits.
pub open spec fn escaped_byte(b: Seq<u8>) -> Option<u8> {
    if b.len() >= 3 && b[0] == 37 {
        match (text::hex_value(b[1] as int), text::hex_value(b[2] as int)) {
            (Some(h), Some(l)) => Some((h * 16 + l) as u8),
            _ => None,
        }
    } else {
        None
    }
}

/// A percent-encoded token decoded: a plus sign is a space, an escape is the
/// byte it stands for, and everything else, a stray percent sign too, is itself.
pub open spec fn percent_decoded(b: Seq<u8>) -> Seq<u8>
    decreases b.len(),
{
    if b.len() == 0 {
        Seq::empty()
    } else {
        match escaped_byte(b) {
            Some(byte) => seq![byte] + percent_decoded(b.skip(3)),
            None => seq![
                if b[0] == 43 {
                    32u8
                } else {
                    b[0]
                },
            ] + percent_decoded(b.skip(1)),
        }
    }
}

fn percent_decode(bytes: &[u8]) -> (out: Vec<u8>)
    ensures
        out@ == percent_decoded(bytes@),
{
    let mut out: Vec<u8> = Vec::new();
    let mut i: usize = 0;
    assert(bytes@.skip(0) =~= bytes@);
    assert(out@ + percent_decoded(bytes@) =~= percent_decoded(bytes@));
    while i < bytes.len()
        invariant
            i <= bytes.len(),
            out@ + percent_decoded(bytes@.skip(i as int)) == percent_decoded(bytes@),
        decreases bytes.len() - i,
    {
        let ghost rest = bytes@.skip(i as int);
        let ghost before = out@;
        assert(rest[0] == bytes@[i as int]);
        let mut step: usize = 1;
        if bytes[i] == 43 {
            out.push(32);
        } else if bytes[i] == 37 && bytes.len() - i >= 3 {
            match (hex_val(bytes[i + 1]), hex_val(bytes[i + 2])) {
                (Some(h), Some(l)) => {
                    out.push(h * 16 + l);
                    step = 3;
                },
                _ => {
                    out.push(37);
                },
            }
        } else {
            out.push(bytes[i]);
        }
        assert(rest.skip(step as int) =~= bytes@.skip(i + step));
        assert(percent_decoded(rest) == seq![out@.last()] + percent_decoded(rest.skip(step as int)));
        assert(out@ + percent_decoded(rest.skip(step as int)) =~= before + percent_decoded(rest));
        i = i + step;
    }
    assert(out@ + percent_decoded(bytes@.skip(i as int)) =~= out@);
    out
}

/// The text that a percent-encoded token stands for.
pub open spec fn url_decoded(token: Seq<char>) -> Seq<char> {
    lossy(percent_decoded(vstd::utf8::encode_utf8(token)))
}

/// Percent-decode a token of a form body. Bytes are accumulated and interpreted
/// as UTF-8 at the end, so multibyte characters in network names, passwords and
/// marquee text survive intact.
pub fn urldecode(input: &str) -> (out: String)
    ensures
        out@ == url_decoded(input@),
{
    let bytes = percent_decode(input.as_bytes());
    utf8_lossy(bytes.as_slice())
}

/// The fields of a form by name.
pub struct Form {
    fields: StringHashMap<String>,
}

impl View for Form {
    type V = Map<Seq<char>, Seq<char>>;

    closed spec fn view(&self) -> Map<Seq<char>, Seq<char>> {
        self.fields@.map_values(|v: String| v@)
    }
}

/// What a form says for a field.
pub open spec fn field(form: Map<Seq<char>, Seq<char>>, name: Seq<char>) -> Option<Seq<char>> {
    if form.contains_key(name) {
        Some(form[name])
    } else {
        None
    }
}

impl Form {
    pub fn new() -> (form: Form)
        ensures
            form@ == Map::<Seq<char>, Seq<char>>::empty(),
    {
        let form = Form { fields: StringHashMap::new() };
        assert(form@ =~= Map::<Seq<char>, Seq<char>>::empty());
        form
    }

    /// Set a field. The last value set for a name counts.
    pub fn insert(&mut self, name: String, value: String)
        ensures
            final(self)@ == old(self)@.insert(name@, value@),
    {
        self.fields.insert(name, value);
        assert(self@ =~= old(self)@.insert(name@, value@));
    }

    pub fn get(&self, name: &str) -> (value: Option<&String>)
        ensures
            match value {
                Some(v) => field(self@, name@) == Some(v@),
                None => field(self@, name@) is None,
            },
    {
        self.fields.get(name)
    }
}

/// The pieces of a text between the separators: one more than there are
/// separators.
pub open spec fn pieces(s: Seq<char>, sep: char) -> Seq<Seq<char>>
    decreases s.len(),
{
    proof {
        text::first_at_is_first(s, sep);
    }
    match text::split_first(s, sep) {
        Some((piece, rest)) => seq![piece] + pieces(rest, sep),
        None => seq![s],
    }
}

/// Name and value of a pair. Without an equals sign all of it is the name.
pub open spec fn name_and_value(pair: Seq<char>) -> (Seq<char>, Seq<char>) {
    match text::split_first(pair, '=') {
        Some((name, value)) => (name, value),
        None => (pair, Seq::empty()),
    }
}

/// A form with one more pair in it. A pair without a name adds nothing.
pub open spec fn with_pair(form: Map<Seq<char>, Seq<char>>, pair: Seq<char>) -> Map<
    Seq<char>,
    Seq<char>,
> {
    let (name, value) = name_and_value(pair);
    if name.len() == 0 {
        form
    } else {
        form.insert(url_decoded(name), url_decoded(value))
    }
}

/// The form that pairs make.
pub open spec fn form_of(pairs: Seq<Seq<char>>) -> Map<Seq<char>, Seq<char>>
    decreases pairs.len(),
{
    if pairs.len() == 0 {
        Map::empty()
    } else {
        with_pair(form_of(pairs.drop_last()), pairs.last())
    }
}

fn add_pair(form: &mut Form, pair: &str)
    ensures
        final(form)@ == with_pair(old(form)@, pair@),
{
    match split_once(pair, '=') {
        Some((name, value)) => {
            if !name.is_empty() {
                form.insert(urldecode(name), urldecode(value));
            }
        },
        None => {
            if !pair.is_empty() {
                proof {
                    reveal_strlit("");
                    assert(""@ =~= Seq::<char>::empty());
                }
                form.insert(urldecode(pair), urldecode(""));
            }
        },
    }
}

/// Parse a form body into its fields: pairs between ampersands, each a name, an
/// equals sign and a value.
pub fn parse_form(body: &str) -> (form: Form)
    ensures
        form@ == form_of(pieces(body@, '&')),
{
    let mut form = Form::new();
    let mut rest = body;
    let ghost mut done: Seq<Seq<char>> = Seq::empty();
    assert(done + pieces(rest@, '&') =~= pieces(body@, '&'));
    loop
        invariant
            form@ == form_of(done),
            done + pieces(rest@, '&') == pieces(body@, '&'),
        decreases rest@.len(),
    {
        proof {
            text::first_at_is_first(rest@, '&');
        }
        match split_once(rest, '&') {
            Some((pair, after)) => {
                add_pair(&mut form, pair);
                proof {
                    assert(done.push(pair@).drop_last() =~= done);
                    assert(done.push(pair@) + pieces(after@, '&') =~= done + pieces(rest@, '&'));
                    done = done.push(pair@);
                }
                rest = after;
            },
            None => {
                add_pair(&mut form, rest);
                assert(pieces(body@, '&') =~= done.push(rest@));
                assert(done.push(rest@).drop_last() =~= done);
                return form;
            },
        }
    }
}

/// `sent` is a form encoding of `bytes`. Each byte may be sent as itself, unless
/// it is a percent or a plus sign, as a percent sign and two hexadecimal digits
/// of either case, or, if it is a space, as a plus sign.
pub open spec fn encodes(sent: Seq<u8>, bytes: Seq<u8>) -> bool
    decreases bytes.len(),
{
    if bytes.len() == 0 {
        sent.len() == 0
    } else {
        let b = bytes[0];
        ||| sent.len() >= 1 && sent[0] == b && b != 37 && b != 43 && encodes(
            sent.skip(1),
            bytes.skip(1),
        )
        ||| sent.len() >= 1 && sent[0] == 43 && b == 32 && encodes(sent.skip(1), bytes.skip(1))
        ||| sent.len() >= 3 && sent[0] == 37 && text::hex_value(sent[1] as int) == Some(
            b as int / 16,
        ) && text::hex_value(sent[2] as int) == Some(b as int % 16) && encodes(
            sent.skip(3),
            bytes.skip(1),
        )
    }
}

/// `token` is a form encoding of the text `t`.
pub open spec fn spells(token: Seq<char>, t: Seq<char>) -> bool {
    encodes(vstd::utf8::encode_utf8(token), vstd::utf8::encode_utf8(t))
}

proof fn encoded_bytes_come_back(sent: Seq<u8>, bytes: Seq<u8>)
    requires
        encodes(sent, bytes),
    ensures
        percent_decoded(sent) == bytes,
        sent.len() >= bytes.len(),
    decreases bytes.len(),
{
    if bytes.len() > 0 {
        let b = bytes[0];
        let rest = bytes.skip(1);
        assert(seq![b] + rest =~= bytes);
        if sent[0] == 37 {
            encoded_bytes_come_back(sent.skip(3), rest);
            assert((b as int / 16) * 16 + b as int % 16 == b);
            assert(escaped_byte(sent) == Some(b));
            assert(percent_decoded(sent) =~= seq![b] + percent_decoded(sent.skip(3)));
        } else {
            encoded_bytes_come_back(sent.skip(1), rest);
            assert(percent_decoded(sent) =~= seq![b] + percent_decoded(sent.skip(1)));
        }
    } else {
        assert(percent_decoded(sent) =~= bytes);
    }
}

/// A text comes back as it went, every character of it, in whichever form
/// encoding it was sent.
pub proof fn a_text_survives_its_encoding(token: Seq<char>, t: Seq<char>)
    requires
        spells(token, t),
    ensures
        url_decoded(token) == t,
{
    encoded_bytes_come_back(vstd::utf8::encode_utf8(token), vstd::utf8::encode_utf8(t));
    vstd::utf8::encode_utf8_valid_utf8(t);
    vstd::utf8::encode_utf8_decode_utf8(t);
}

/// A field as it is sent: the encodings of its name and its value.
pub open spec fn sent_pair(f: (Seq<char>, Seq<char>)) -> Seq<char> {
    f.0.push('=') + f.1
}

/// A form as it is sent, given the encodings of its fields.
pub open spec fn sent_form(tokens: Seq<(Seq<char>, Seq<char>)>) -> Seq<char>
    decreases tokens.len(),
{
    if tokens.len() == 0 {
        Seq::empty()
    } else if tokens.len() == 1 {
        sent_pair(tokens[0])
    } else {
        sent_pair(tokens[0]).push('&') + sent_form(tokens.skip(1))
    }
}

/// The form that fields make, the last of a name counting.
pub open spec fn fields_by_name(fields: Seq<(Seq<char>, Seq<char>)>) -> Map<Seq<char>, Seq<char>>
    decreases fields.len(),
{
    if fields.len() == 0 {
        Map::empty()
    } else {
        fields_by_name(fields.drop_last()).insert(fields.last().0, fields.last().1)
    }
}

/// The separators of a form do not stand in an encoding as they are: no
/// ampersand in either, and no equals sign in a name.
pub open spec fn separable(token: (Seq<char>, Seq<char>)) -> bool {
    &&& !token.0.contains('&')
    &&& !token.0.contains('=')
    &&& !token.1.contains('&')
}

/// `token` is how a field with a name is sent.
pub open spec fn sends(token: (Seq<char>, Seq<char>), field: (Seq<char>, Seq<char>)) -> bool {
    &&& field.0.len() > 0
    &&& spells(token.0, field.0)
    &&& spells(token.1, field.1)
    &&& separable(token)
}

proof fn sent_form_pieces(tokens: Seq<(Seq<char>, Seq<char>)>)
    requires
        tokens.len() > 0,
        forall|i: int| 0 <= i < tokens.len() ==> separable(#[trigger] tokens[i]),
    ensures
        pieces(sent_form(tokens), '&') == tokens.map_values(
            |f: (Seq<char>, Seq<char>)| sent_pair(f),
        ),
    decreases tokens.len(),
{
    let pairs = tokens.map_values(|f: (Seq<char>, Seq<char>)| sent_pair(f));
    let first = sent_pair(tokens[0]);
    assert(separable(tokens[0]));
    assert(!first.contains('&')) by {
        if first.contains('&') {
            let i = choose|i: int| 0 <= i < first.len() && first[i] == '&';
            let name = tokens[0].0;
            let value = tokens[0].1;
            if i < name.len() {
                assert(name[i] == '&');
            } else if i > name.len() {
                assert(value[i - name.len() - 1] == '&');
            }
        }
    }
    text::first_at_is_first(sent_form(tokens), '&');
    if tokens.len() == 1 {
        assert(pieces(sent_form(tokens), '&') =~= pairs);
    } else {
        let rest = tokens.skip(1);
        assert forall|i: int| 0 <= i < rest.len() implies separable(#[trigger] rest[i]) by {
            assert(rest[i] == tokens[i + 1]);
        }
        sent_form_pieces(rest);
        text::split_first_of_joined(first, '&', sent_form(rest));
        assert(pieces(sent_form(tokens), '&') =~= pairs);
    }
}

proof fn sent_pairs_make_the_form(
    tokens: Seq<(Seq<char>, Seq<char>)>,
    fields: Seq<(Seq<char>, Seq<char>)>,
)
    requires
        tokens.len() == fields.len(),
        forall|i: int| 0 <= i < fields.len() ==> sends(#[trigger] tokens[i], fields[i]),
    ensures
        form_of(tokens.map_values(|f: (Seq<char>, Seq<char>)| sent_pair(f))) == fields_by_name(
            fields,
        ),
    decreases fields.len(),
{
    let pairs = tokens.map_values(|f: (Seq<char>, Seq<char>)| sent_pair(f));
    if fields.len() > 0 {
        let front = tokens.drop_last();
        assert forall|i: int| 0 <= i < front.len() implies sends(
            #[trigger] front[i],
            fields.drop_last()[i],
        ) by {
            assert(front[i] == tokens[i]);
        }
        sent_pairs_make_the_form(front, fields.drop_last());
        assert(pairs.drop_last() =~= front.map_values(
            |f: (Seq<char>, Seq<char>)| sent_pair(f),
        ));
        let token = tokens.last();
        let f = fields.last();
        assert(sends(token, f));
        a_text_survives_its_encoding(token.0, f.0);
        a_text_survives_its_encoding(token.1, f.1);
        text::split_first_of_joined(token.0, '=', token.1);
        assert(pairs.last() == sent_pair(token));
        assert(token.0.len() > 0) by {
            if token.0.len() == 0 {
                encoded_bytes_come_back(
                    vstd::utf8::encode_utf8(token.0),
                    vstd::utf8::encode_utf8(f.0),
                );
                encoding_is_no_shorter(f.0);
            }
        }
    }
}

proof fn encoding_is_no_shorter(t: Seq<char>)
    ensures
        vstd::utf8::encode_utf8(t).len() >= t.len(),
    decreases t.len(),
{
    if t.len() > 0 {
        encoding_is_no_shorter(t.drop_first());
    }
}

/// A form comes back as it went: whatever the names and values hold, in whichever
/// form encoding each was sent, and however many there are. Of two values for
/// one name the last counts.
pub proof fn a_form_survives_its_encoding(
    tokens: Seq<(Seq<char>, Seq<char>)>,
    fields: Seq<(Seq<char>, Seq<char>)>,
)
    requires
        tokens.len() == fields.len(),
        forall|i: int| 0 <= i < fields.len() ==> sends(#[trigger] tokens[i], fields[i]),
    ensures
        form_of(pieces(sent_form(tokens), '&')) == fields_by_name(fields),
{
    if fields.len() == 0 {
        let nothing = Seq::<char>::empty();
        text::first_at_is_first(nothing, '&');
        text::first_at_is_first(nothing, '=');
        assert(sent_form(tokens) == nothing);
        assert(pieces(nothing, '&') =~= seq![nothing]);
        assert(seq![nothing].drop_last() =~= Seq::empty());
        assert(form_of(seq![nothing].drop_last()) =~= Map::empty());
        assert(form_of(seq![nothing]) == with_pair(form_of(seq![nothing].drop_last()), nothing));
    } else {
        assert forall|i: int| 0 <= i < tokens.len() implies separable(#[trigger] tokens[i]) by {
            assert(sends(tokens[i], fields[i]));
        }
        sent_form_pieces(tokens);
        sent_pairs_make_the_form(tokens, fields);
    }
}

/// A byte that the page sends as it is: a letter, a digit or one of `-_.!~*'()`.
pub open spec fn sent_plain(b: u8) -> bool {
    ||| 48 <= b <= 57
    ||| 65 <= b <= 90
    ||| 97 <= b <= 122
    ||| b == 45
    ||| b == 95
    ||| b == 46
    ||| b == 33
    ||| b == 126
    ||| 39 <= b <= 42
}

/// A hexadecimal digit, in upper case.
pub open spec fn upper_hex(d: int) -> u8 {
    if d < 10 {
        (48 + d) as u8
    } else {
        (55 + d) as u8
    }
}

/// How the page sends a byte.
pub open spec fn sent_byte(b: u8) -> Seq<u8> {
    if sent_plain(b) {
        seq![b]
    } else {
        seq![37u8, upper_hex(b as int / 16), upper_hex(b as int % 16)]
    }
}

/// How the page sends bytes.
pub open spec fn sent_bytes(bytes: Seq<u8>) -> Seq<u8>
    decreases bytes.len(),
{
    if bytes.len() == 0 {
        Seq::empty()
    } else {
        sent_byte(bytes[0]) + sent_bytes(bytes.skip(1))
    }
}

/// How the page sends a text.
pub open spec fn url_encoded(t: Seq<char>) -> Seq<char> {
    sent_bytes(vstd::utf8::encode_utf8(t)).map_values(|b: u8| b as char)
}

proof fn sent_bytes_encode(bytes: Seq<u8>)
    ensures
        encodes(sent_bytes(bytes), bytes),
        forall|i: int|
            0 <= i < sent_bytes(bytes).len() ==> {
                let b = #[trigger] sent_bytes(bytes)[i];
                b < 128 && b != 38 && b != 61
            },
    decreases bytes.len(),
{
    if bytes.len() > 0 {
        let rest = bytes.skip(1);
        sent_bytes_encode(rest);
        let b = bytes[0];
        let head = sent_byte(b);
        let tail = sent_bytes(rest);
        let all = sent_bytes(bytes);
        assert(all =~= head + tail);
        assert(all.skip(head.len() as int) =~= tail);
        assert(text::hex_value(upper_hex(b as int / 16) as int) == Some(b as int / 16));
        assert(text::hex_value(upper_hex(b as int % 16) as int) == Some(b as int % 16));
        assert forall|i: int| 0 <= i < all.len() implies {
            let b = #[trigger] all[i];
            b < 128 && b != 38 && b != 61
        } by {
            if i < head.len() {
                assert(all[i] == head[i]);
            } else {
                assert(all[i] == tail[i - head.len()]);
            }
        }
    }
}

/// What the page sends of a text is a form encoding of it, with no separator of
/// the form in it, so that texts and forms survive the page.
pub proof fn the_page_sends_an_encoding(t: Seq<char>)
    ensures
        spells(url_encoded(t), t),
        !url_encoded(t).contains('&'),
        !url_encoded(t).contains('='),
{
    let bytes = vstd::utf8::encode_utf8(t);
    let sent = sent_bytes(bytes);
    let chars = url_encoded(t);
    sent_bytes_encode(bytes);
    assert(vstd::utf8::is_ascii_chars(chars));
    vstd::utf8::is_ascii_chars_encode_utf8(chars);
    assert(vstd::utf8::encode_utf8(chars) =~= sent);
    assert forall|i: int| 0 <= i < chars.len() implies {
        let c = #[trigger] chars[i];
        c != '&' && c != '='
    } by {
        assert(chars[i] == sent[i] as char);
    }
}

/// A field has the value that was last set for it, whatever that is, and setting
/// it leaves the others alone.
pub proof fn a_field_has_the_value_that_was_set(
    form: Map<Seq<char>, Seq<char>>,
    name: Seq<char>,
    value: Seq<char>,
    other: Seq<char>,
)
    ensures
        field(form.insert(name, value), name) == Some(value),
        other != name ==> field(form.insert(name, value), other) == field(form, other),
        field(Map::empty(), name) is None,
{
}

/// A percent sign that two hexadecimal digits do not follow stands for itself,
/// and so does every byte that is neither a percent nor a plus sign.
pub proof fn what_is_no_escape_stands_for_itself(b: Seq<u8>)
    requires
        b.len() > 0,
        b[0] != 43,
        b[0] != 37 || b.len() < 3 || !(48 <= b[1] <= 57 || 65 <= b[1] <= 70 || 97 <= b[1] <= 102)
            || !(48 <= b[2] <= 57 || 65 <= b[2] <= 70 || 97 <= b[2] <= 102),
    ensures
        percent_decoded(b) == seq![b[0]] + percent_decoded(b.skip(1)),
{
}

} // verus!
