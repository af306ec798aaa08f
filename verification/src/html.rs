//! Text made safe for the page: as markup, and as a string in a script.

use vstd::prelude::*;

use crate::text;
use crate::text::push_hex;

verus! {

/// How one character is written in markup.
pub open spec fn html_char(c: char) -> Seq<char> {
    if c == '&' {
        "&amp;"@
    } else if c == '<' {
        "&lt;"@
    } else if c == '>' {
        "&gt;"@
    } else if c == '"' {
        "&quot;"@
    } else {
        seq![c]
    }
}

/// A text written in markup, character by character.
pub open spec fn html_escaped(s: Seq<char>) -> Seq<char>
    decreases s.len(),
{
    if s.len() == 0 {
        Seq::empty()
    } else {
        html_char(s[0]) + html_escaped(s.skip(1))
    }
}

proof fn html_escaped_push(s: Seq<char>, c: char)
    ensures
        html_escaped(s.push(c)) == html_escaped(s) + html_char(c),
    decreases s.len(),
{
    if s.len() == 0 {
        assert(s.push(c).skip(1) =~= s);
        assert(html_escaped(s.push(c)) =~= html_escaped(s) + html_char(c));
    } else {
        html_escaped_push(s.skip(1), c);
        assert(s.push(c).skip(1) =~= s.skip(1).push(c));
        assert(html_escaped(s.push(c)) =~= html_escaped(s) + html_char(c));
    }
}

/// Write a text so that it can stand between tags and in a double-quoted
/// attribute.
pub fn html_escape(s: &str) -> (out: String)
    ensures
        out@ == html_escaped(s@),
{
    let mut out = String::new();
    for c in it: s.chars()
        invariant
            it.seq() == s@,
            out@ == html_escaped(s@.take(it.index() as int)),
    {
        proof {
            html_escaped_push(s@.take(it.index() as int), c);
            assert(s@.take(it.index() + 1) =~= s@.take(it.index() as int).push(c));
        }
        if c == '&' {
            out.append("&amp;");
        } else if c == '<' {
            out.append("&lt;");
        } else if c == '>' {
            out.append("&gt;");
        } else if c == '"' {
            out.append("&quot;");
        } else {
            out.push(c);
        }
    }
    assert(s@.take(s@.len() as int) =~= s@);
    out
}

/// How one character is written inside a string literal of a script. Angle
/// brackets are written as escapes so that no text can close the script early.
pub open spec fn js_char(c: char) -> Seq<char> {
    if c == '"' {
        "\\\""@
    } else if c == '\\' {
        "\\\\"@
    } else if c == '\n' {
        "\\n"@
    } else if c == '\r' {
        "\\r"@
    } else if c == '\t' {
        "\\t"@
    } else if c == '<' {
        "\\u003c"@
    } else if c == '>' {
        "\\u003e"@
    } else if c == '&' {
        "\\u0026"@
    } else if ' ' > c {
        "\\u"@ + text::hexadecimal(c as nat, 4)
    } else {
        seq![c]
    }
}

/// A text as it is written between the quotes.
pub open spec fn js_escaped(s: Seq<char>) -> Seq<char>
    decreases s.len(),
{
    if s.len() == 0 {
        Seq::empty()
    } else {
        js_char(s[0]) + js_escaped(s.skip(1))
    }
}

/// A text as a double-quoted string literal.
pub open spec fn js_literal(s: Seq<char>) -> Seq<char> {
    seq!['"'] + js_escaped(s) + seq!['"']
}

proof fn js_escaped_push(s: Seq<char>, c: char)
    ensures
        js_escaped(s.push(c)) == js_escaped(s) + js_char(c),
    decreases s.len(),
{
    if s.len() == 0 {
        assert(s.push(c).skip(1) =~= s);
        assert(js_escaped(s.push(c)) =~= js_escaped(s) + js_char(c));
    } else {
        js_escaped_push(s.skip(1), c);
        assert(s.push(c).skip(1) =~= s.skip(1).push(c));
        assert(js_escaped(s.push(c)) =~= js_escaped(s) + js_char(c));
    }
}

/// Append one character as it is written between the quotes.
fn push_js_char(out: &mut String, c: char)
    ensures
        final(out)@ == old(out)@ + js_char(c),
{
    if c == '"' {
        out.append("\\\"");
    } else if c == '\\' {
        out.append("\\\\");
    } else if c == '\n' {
        out.append("\\n");
    } else if c == '\r' {
        out.append("\\r");
    } else if c == '\t' {
        out.append("\\t");
    } else if c == '<' {
        out.append("\\u003c");
    } else if c == '>' {
        out.append("\\u003e");
    } else if c == '&' {
        out.append("\\u0026");
    } else if ' ' > c {
        out.append("\\u");
        push_hex(out, c as u32, 4);
    } else {
        out.push(c);
    }
    assert(out@ =~= old(out)@ + js_char(c));
}

/// Encode a text as a double-quoted string literal for embedding in a script
/// of the page.
pub fn js_string(s: &str) -> (out: String)
    ensures
        out@ == js_literal(s@),
{
    let mut out = String::new();
    out.push('"');
    assert(out@ =~= seq!['"'] + js_escaped(s@.take(0)));
    for c in it: s.chars()
        invariant
            it.seq() == s@,
            out@ == seq!['"'] + js_escaped(s@.take(it.index() as int)),
    {
        proof {
            js_escaped_push(s@.take(it.index() as int), c);
            assert(s@.take(it.index() + 1) =~= s@.take(it.index() as int).push(c));
        }
        push_js_char(&mut out, c);
        assert(out@ =~= seq!['"'] + js_escaped(s@.take(it.index() + 1)));
    }
    assert(s@.take(s@.len() as int) =~= s@);
    out.push('"');
    assert(out@ =~= js_literal(s@));
    out
}

/// Whatever a text holds, its markup has no angle bracket and no double quote:
/// it can neither open a tag nor end an attribute.
pub proof fn markup_is_inert(s: Seq<char>)
    ensures
        !html_escaped(s).contains('<'),
        !html_escaped(s).contains('>'),
        !html_escaped(s).contains('"'),
    decreases s.len(),
{
    if s.len() > 0 {
        markup_is_inert(s.skip(1));
        reveal_strlit("&amp;");
        reveal_strlit("&lt;");
        reveal_strlit("&gt;");
        reveal_strlit("&quot;");
        let head = html_char(s[0]);
        let tail = html_escaped(s.skip(1));
        assert forall|i: int| 0 <= i < html_escaped(s).len() implies {
            let c = #[trigger] html_escaped(s)[i];
            c != '<' && c != '>' && c != '"'
        } by {
            if i >= head.len() {
                assert(html_escaped(s)[i] == tail[i - head.len()]);
                assert(tail.contains(tail[i - head.len()]));
            }
        }
    }
}

/// The text begins with `start`.
pub open spec fn begins(t: Seq<char>, start: Seq<char>) -> bool {
    t.len() >= start.len() && t.take(start.len() as int) == start
}

/// The text that markup stands for, as a browser shows it.
pub open spec fn html_shown(t: Seq<char>) -> Seq<char>
    decreases t.len(),
{
    proof {
        reveal_strlit("&amp;");
        reveal_strlit("&lt;");
        reveal_strlit("&gt;");
        reveal_strlit("&quot;");
    }
    if t.len() == 0 {
        Seq::empty()
    } else if begins(t, "&amp;"@) {
        seq!['&'] + html_shown(t.skip(5))
    } else if begins(t, "&lt;"@) {
        seq!['<'] + html_shown(t.skip(4))
    } else if begins(t, "&gt;"@) {
        seq!['>'] + html_shown(t.skip(4))
    } else if begins(t, "&quot;"@) {
        seq!['"'] + html_shown(t.skip(6))
    } else {
        seq![t[0]] + html_shown(t.skip(1))
    }
}

/// The markup of a text is shown as that text, so no two texts look alike.
pub proof fn markup_shows_the_text(s: Seq<char>)
    ensures
        html_shown(html_escaped(s)) == s,
    decreases s.len(),
{
    if s.len() > 0 {
        markup_shows_the_text(s.skip(1));
        reveal_strlit("&amp;");
        reveal_strlit("&lt;");
        reveal_strlit("&gt;");
        reveal_strlit("&quot;");
        let c = s[0];
        let head = html_char(c);
        let tail = html_escaped(s.skip(1));
        let t = html_escaped(s);
        assert(t =~= head + tail);
        assert(t.take(head.len() as int) =~= head);
        assert(t.skip(head.len() as int) =~= tail);
        assert(s =~= seq![c] + s.skip(1));
        assert(t[0] == head[0]);
        if begins(t, "&amp;"@) {
            assert(t.take(5)[0] == '&' && t.take(5)[1] == 'a');
        } else if begins(t, "&lt;"@) {
            assert(t.take(4)[0] == '&' && t.take(4)[1] == 'l');
        } else if begins(t, "&gt;"@) {
            assert(t.take(4)[0] == '&' && t.take(4)[1] == 'g');
        } else if begins(t, "&quot;"@) {
            assert(t.take(6)[0] == '&' && t.take(6)[1] == 'q');
        }
        if c == '&' || c == '<' || c == '>' || c == '"' {
            assert(t[1] == head[1]);
        }
    }
}

/// The character that the escape at the start of `t` stands for, and how long
/// the escape is.
pub open spec fn js_escape(t: Seq<char>) -> Option<(char, int)> {
    if t.len() < 2 {
        None
    } else if t[1] == '"' || t[1] == '\\' {
        Some((t[1], 2))
    } else if t[1] == 'n' {
        Some(('\n', 2))
    } else if t[1] == 'r' {
        Some(('\r', 2))
    } else if t[1] == 't' {
        Some(('\t', 2))
    } else if t[1] == 'u' && t.len() >= 6 {
        match (
            text::hex_value(t[2] as int),
            text::hex_value(t[3] as int),
            text::hex_value(t[4] as int),
            text::hex_value(t[5] as int),
        ) {
            (Some(a), Some(b), Some(c), Some(d)) => Some(
                ((((a * 16 + b) * 16 + c) * 16 + d) as char, 6),
            ),
            _ => None,
        }
    } else {
        None
    }
}

/// Read a string literal whose opening quote has been read: the text it stands
/// for, and what follows its closing quote. A control character may not stand
/// in it.
pub open spec fn js_read(t: Seq<char>) -> Option<(Seq<char>, Seq<char>)>
    decreases t.len(),
{
    if t.len() == 0 || ' ' > t[0] {
        None
    } else if t[0] == '"' {
        Some((Seq::empty(), t.skip(1)))
    } else {
        let (c, n) = if t[0] == '\\' {
            match js_escape(t) {
                Some((c, n)) => (Some(c), n),
                None => (None::<char>, 1),
            }
        } else {
            (Some(t[0]), 1int)
        };
        if 1 <= n <= t.len() {
            match (c, js_read(t.skip(n))) {
                (Some(c), Some((value, rest))) => Some((seq![c] + value, rest)),
                _ => None,
            }
        } else {
            None
        }
    }
}

proof fn js_char_is_read(c: char, rest: Seq<char>)
    ensures
        js_read(js_char(c) + rest) == (match js_read(rest) {
            Some((value, after)) => Some((seq![c] + value, after)),
            None => None,
        }),
        forall|i: int|
            0 <= i < js_char(c).len() ==> {
                let d = #[trigger] js_char(c)[i];
                d != '<' && d != '>' && d != '&' && ' ' <= d
            },
{
    reveal_strlit("\\\"");
    reveal_strlit("\\\\");
    reveal_strlit("\\n");
    reveal_strlit("\\r");
    reveal_strlit("\\t");
    reveal_strlit("\\u003c");
    reveal_strlit("\\u003e");
    reveal_strlit("\\u0026");
    reveal_strlit("\\u");
    reveal_with_fuel(text::hexadecimal, 6);
    let head = js_char(c);
    let t = head + rest;
    assert(t.skip(head.len() as int) =~= rest);
    if ' ' > c && c != '\n' && c != '\r' && c != '\t' {
        let n = c as nat;
        assert(text::hexadecimal(n, 4) =~= seq![
            '0',
            '0',
            text::hex_digit((n / 16) as int),
            text::hex_digit((n % 16) as int),
        ]);
        assert(head.len() == 6);
    }
}

/// A literal reads back as the text that it was made from, whatever follows it.
pub proof fn a_literal_reads_back(s: Seq<char>, rest: Seq<char>)
    ensures
        js_read((js_literal(s) + rest).skip(1)) == Some((s, rest)),
{
    js_escaped_reads_back(s, rest);
    assert((js_literal(s) + rest).skip(1) =~= js_escaped(s) + (seq!['"'] + rest));
}

proof fn js_escaped_reads_back(s: Seq<char>, rest: Seq<char>)
    ensures
        js_read(js_escaped(s) + (seq!['"'] + rest)) == Some((s, rest)),
    decreases s.len(),
{
    let end = seq!['"'] + rest;
    if s.len() == 0 {
        assert(js_escaped(s) + end =~= end);
        assert(end.skip(1) =~= rest);
        assert(s =~= Seq::empty());
    } else {
        js_escaped_reads_back(s.skip(1), rest);
        js_char_is_read(s[0], js_escaped(s.skip(1)) + end);
        assert(js_escaped(s) + end =~= js_char(s[0]) + (js_escaped(s.skip(1)) + end));
        assert(s =~= seq![s[0]] + s.skip(1));
    }
}

/// A literal holds nothing that could close the script it stands in, nor a
/// control character.
pub proof fn a_literal_cannot_close_the_script(s: Seq<char>)
    ensures
        forall|i: int|
            0 <= i < js_literal(s).len() ==> {
                let c = #[trigger] js_literal(s)[i];
                c != '<' && c != '>' && c != '&' && ' ' <= c
            },
{
    js_escaped_is_inert(s);
    assert forall|i: int| 0 <= i < js_literal(s).len() implies {
        let c = #[trigger] js_literal(s)[i];
        c != '<' && c != '>' && c != '&' && ' ' <= c
    } by {
        if 0 < i < js_literal(s).len() - 1 {
            assert(js_literal(s)[i] == js_escaped(s)[i - 1]);
        }
    }
}

proof fn js_escaped_is_inert(s: Seq<char>)
    ensures
        forall|i: int|
            0 <= i < js_escaped(s).len() ==> {
                let c = #[trigger] js_escaped(s)[i];
                c != '<' && c != '>' && c != '&' && ' ' <= c
            },
    decreases s.len(),
{
    if s.len() > 0 {
        js_escaped_is_inert(s.skip(1));
        js_char_is_read(s[0], Seq::empty());
        let head = js_char(s[0]);
        let tail = js_escaped(s.skip(1));
        assert forall|i: int| 0 <= i < js_escaped(s).len() implies {
            let c = #[trigger] js_escaped(s)[i];
            c != '<' && c != '>' && c != '&' && ' ' <= c
        } by {
            if i < head.len() {
                assert(js_escaped(s)[i] == head[i]);
            } else {
                assert(js_escaped(s)[i] == tail[i - head.len()]);
            }
        }
    }
}

} // verus!
