//! JSON string literals: how a text is written into a JSON document.

use vstd::prelude::*;

verus! {

/// The lower-case hexadecimal digit that stands for `d`.
pub open spec fn hex_digit(d: nat) -> char
    recommends
        d < 16,
{
    if d < 10 {
        (('0' as u8) + (d as u8)) as char
    } else {
        (('a' as u8) + ((d - 10) as u8)) as char
    }
}

/// What stands for the one character `c` between the quotes of a JSON string:
/// the quote and the backslash behind a backslash, the control characters by
/// their short escape where JSON has one and as `\u00XX` otherwise, every
/// other character as itself.
pub open spec fn escape_char(c: char) -> Seq<char> {
    if c == '"' {
        seq!['\\', '"']
    } else if c == '\\' {
        seq!['\\', '\\']
    } else if c == '\u{8}' {
        seq!['\\', 'b']
    } else if c == '\u{c}' {
        seq!['\\', 'f']
    } else if c == '\n' {
        seq!['\\', 'n']
    } else if c == '\r' {
        seq!['\\', 'r']
    } else if c == '\t' {
        seq!['\\', 't']
    } else if (c as u32) < 0x20 {
        seq![
            '\\',
            'u',
            '0',
            '0',
            hex_digit((c as u32 / 16) as nat),
            hex_digit((c as u32 % 16) as nat),
        ]
    } else {
        seq![c]
    }
}

/// What stands for `text` between the quotes of a JSON string: the escapes of
/// its characters, in order.
pub open spec fn escape(text: Seq<char>) -> Seq<char>
    decreases text.len(),
{
    if text.len() == 0 {
        Seq::empty()
    } else {
        escape(text.drop_last()) + escape_char(text.last())
    }
}

/// Whether `c` is a hexadecimal digit, in either case.
pub open spec fn is_hex(c: char) -> bool {
    ||| '0' as u32 <= c as u32 <= '9' as u32
    ||| 'a' as u32 <= c as u32 <= 'f' as u32
    ||| 'A' as u32 <= c as u32 <= 'F' as u32
}

/// The number that the hexadecimal digit `c` stands for.
pub open spec fn hex_value(c: char) -> nat
    recommends
        is_hex(c),
{
    if '0' as u32 <= c as u32 <= '9' as u32 {
        (c as u32 - '0' as u32) as nat
    } else if 'a' as u32 <= c as u32 <= 'f' as u32 {
        (c as u32 - 'a' as u32 + 10) as nat
    } else {
        (c as u32 - 'A' as u32 + 10) as nat
    }
}

/// Whether a backslash and `c` form one of JSON's two-character escapes.
pub open spec fn is_short_escape(c: char) -> bool {
    c == '"' || c == '\\' || c == '/' || c == 'b' || c == 'f' || c == 'n' || c == 'r' || c == 't'
}

/// The character that a backslash and `c` stand for.
pub open spec fn short_escape_value(c: char) -> char
    recommends
        is_short_escape(c),
{
    if c == 'b' {
        '\u{8}'
    } else if c == 'f' {
        '\u{c}'
    } else if c == 'n' {
        '\n'
    } else if c == 'r' {
        '\r'
    } else if c == 't' {
        '\t'
    } else {
        c
    }
}

/// Whether `body` may stand between the quotes of a JSON string: no bare
/// quote, no bare control character, and every backslash begins a
/// two-character escape or `\u` with four hexadecimal digits.
pub open spec fn is_string_body(body: Seq<char>) -> bool
    decreases body.len(),
{
    if body.len() == 0 {
        true
    } else if body[0] == '\\' {
        if body.len() >= 2 && is_short_escape(body[1]) {
            is_string_body(body.skip(2))
        } else if body.len() >= 6 && body[1] == 'u' && is_hex(body[2]) && is_hex(body[3])
            && is_hex(body[4]) && is_hex(body[5]) {
            is_string_body(body.skip(6))
        } else {
            false
        }
    } else {
        body[0] != '"' && body[0] as u32 >= 0x20 && is_string_body(body.skip(1))
    }
}

/// The text that a string body stands for. A `\u` escape is read as the
/// character with that code; two such escapes are never joined into one
/// character, so a body that spells a character as a surrogate pair is not
/// read back by this function.
pub open spec fn unescape(body: Seq<char>) -> Seq<char>
    recommends
        is_string_body(body),
    decreases body.len(),
{
    if body.len() == 0 {
        Seq::empty()
    } else if body[0] == '\\' {
        if body.len() >= 2 && is_short_escape(body[1]) {
            seq![short_escape_value(body[1])] + unescape(body.skip(2))
        } else if body.len() >= 6 {
            let code = hex_value(body[2]) * 4096 + hex_value(body[3]) * 256 + hex_value(body[4])
                * 16 + hex_value(body[5]);
            seq![(code as u32) as char] + unescape(body.skip(6))
        } else {
            Seq::empty()
        }
    } else {
        seq![body[0]] + unescape(body.skip(1))
    }
}

/// The JSON object with one member, `name`, whose value is a string; `name`
/// and `value` are what stands between the quotes of the two strings.
pub open spec fn member_document(name: Seq<char>, value: Seq<char>) -> Seq<char> {
    seq!['{', '"'] + name + seq!['"', ':', '"'] + value + seq!['"', '}']
}

/// Whether `doc` is a JSON object with one member whose value is a string.
pub open spec fn is_member_document(doc: Seq<char>) -> bool {
    exists|name: Seq<char>, value: Seq<char>|
        is_string_body(name) && is_string_body(value) && doc == #[trigger] member_document(
            name,
            value,
        )
}

proof fn lemma_escape_char(c: char)
    ensures
        is_string_body(escape_char(c)),
        unescape(escape_char(c)) == seq![c],
{
    reveal_with_fuel(is_string_body, 3);
    reveal_with_fuel(unescape, 3);
    let e = escape_char(c);
    if c == '"' || c == '\\' || c == '\u{8}' || c == '\u{c}' || c == '\n' || c == '\r' || c
        == '\t' {
        assert(e.len() == 2);
        assert(e.skip(2).len() == 0);
        assert(unescape(e) =~= seq![c]);
    } else if (c as u32) < 0x20 {
        let hi = (c as u32 / 16) as nat;
        let lo = (c as u32 % 16) as nat;
        assert(e.len() == 6);
        assert(e.skip(6).len() == 0);
        assert(is_hex(e[2]) && is_hex(e[3]) && is_hex(e[4]) && is_hex(e[5]));
        assert(hex_value(e[2]) == 0 && hex_value(e[3]) == 0);
        assert(hex_value(e[4]) == hi && hex_value(e[5]) == lo);
        let code = hex_value(e[2]) * 4096 + hex_value(e[3]) * 256 + hex_value(e[4]) * 16
            + hex_value(e[5]);
        assert(code == c as u32);
        vstd::utf8::char_u32_cast(c, code as u32);
        assert(unescape(e) =~= seq![c]);
    } else {
        assert(e.len() == 1);
        assert(e.skip(1).len() == 0);
        assert(unescape(e) =~= seq![c]);
    }
}

/// Two string bodies in a row are a string body, and it stands for the two
/// texts in a row.
pub proof fn lemma_body_concat(a: Seq<char>, b: Seq<char>)
    requires
        is_string_body(a),
        is_string_body(b),
    ensures
        is_string_body(a + b),
        unescape(a + b) == unescape(a) + unescape(b),
    decreases a.len(),
{
    let ab = a + b;
    if a.len() == 0 {
        assert(ab =~= b);
        assert(unescape(a) + unescape(b) =~= unescape(b));
    } else if a[0] == '\\' {
        if a.len() >= 2 && is_short_escape(a[1]) {
            assert(ab.skip(2) =~= a.skip(2) + b);
            lemma_body_concat(a.skip(2), b);
            assert(unescape(ab) =~= unescape(a) + unescape(b));
        } else {
            assert(ab.skip(6) =~= a.skip(6) + b);
            lemma_body_concat(a.skip(6), b);
            assert(unescape(ab) =~= unescape(a) + unescape(b));
        }
    } else {
        assert(ab.skip(1) =~= a.skip(1) + b);
        lemma_body_concat(a.skip(1), b);
        assert(unescape(ab) =~= unescape(a) + unescape(b));
    }
}

/// What `escape` writes is always a well-formed string body.
pub proof fn lemma_escape_well_formed(text: Seq<char>)
    ensures
        is_string_body(escape(text)),
{
    lemma_escape_round_trip(text);
}

/// Reading back what `escape` wrote gives the text that was written: no
/// character is lost, added or changed.
pub proof fn lemma_escape_round_trip(text: Seq<char>)
    ensures
        is_string_body(escape(text)),
        unescape(escape(text)) == text,
    decreases text.len(),
{
    if text.len() > 0 {
        lemma_escape_round_trip(text.drop_last());
        lemma_escape_char(text.last());
        lemma_body_concat(escape(text.drop_last()), escape_char(text.last()));
        assert(text.drop_last() + seq![text.last()] =~= text);
    }
}

/// Two texts with the same escape are the same text.
pub proof fn lemma_escape_injective(a: Seq<char>, b: Seq<char>)
    requires
        escape(a) == escape(b),
    ensures
        a == b,
{
    lemma_escape_round_trip(a);
    lemma_escape_round_trip(b);
}

/// A text without quote, backslash or control character is its own escape.
pub proof fn lemma_escape_plain(text: Seq<char>)
    requires
        forall|i: int|
            0 <= i < text.len() ==> text[i] != '"' && text[i] != '\\' && #[trigger] text[i] as u32
                >= 0x20,
    ensures
        escape(text) == text,
    decreases text.len(),
{
    if text.len() > 0 {
        lemma_escape_plain(text.drop_last());
        assert(text.drop_last() + seq![text.last()] =~= text);
    }
}

/// Every member document whose name and value were written by `escape` is a
/// well-formed JSON object.
pub proof fn lemma_member_document_well_formed(name: Seq<char>, value: Seq<char>)
    ensures
        is_member_document(member_document(escape(name), escape(value))),
{
    lemma_escape_well_formed(name);
    lemma_escape_well_formed(value);
}

fn push_hex_digit(out: &mut String, d: u8)
    requires
        d < 16,
    ensures
        final(out)@ == old(out)@.push(hex_digit(d as nat)),
{
    let c: char = if d < 10 {
        (48u8 + d) as char
    } else {
        (97u8 + (d - 10)) as char
    };
    out.push(c);
}

/// Appends to `out` what stands for the character `c` in a JSON string.
pub fn push_escaped_char(out: &mut String, c: char)
    ensures
        final(out)@ == old(out)@ + escape_char(c),
{
    let ghost before = out@;
    if c == '"' {
        out.push('\\');
        out.push('"');
    } else if c == '\\' {
        out.push('\\');
        out.push('\\');
    } else if c == '\u{8}' {
        out.push('\\');
        out.push('b');
    } else if c == '\u{c}' {
        out.push('\\');
        out.push('f');
    } else if c == '\n' {
        out.push('\\');
        out.push('n');
    } else if c == '\r' {
        out.push('\\');
        out.push('r');
    } else if c == '\t' {
        out.push('\\');
        out.push('t');
    } else if (c as u32) < 0x20 {
        let code: u8 = c as u8;
        out.push('\\');
        out.push('u');
        out.push('0');
        out.push('0');
        push_hex_digit(out, code / 16);
        push_hex_digit(out, code % 16);
    } else {
        out.push(c);
    }
    assert(out@ =~= before + escape_char(c));
}

/// Appends to `out` what stands for `text` in a JSON string.
pub fn push_escaped(out: &mut String, text: &str)
    ensures
        final(out)@ == old(out)@ + escape(text@),
{
    let ghost before = out@;
    for c in it: text.chars()
        invariant
            it.seq() == text@,
            out@ == before + escape(text@.take(it.index() as int)),
    {
        proof {
            let i = it.index() as int;
            assert(text@.take(i + 1).drop_last() =~= text@.take(i));
            assert(text@.take(i + 1).last() == text@[i]);
        }
        push_escaped_char(out, c);
    }
    assert(text@.take(text@.len() as int) =~= text@);
}

/// The JSON object `{"<name>":"<value>"}`, with both texts escaped.
pub fn text_member(name: &str, value: &str) -> (doc: String)
    ensures
        doc@ == member_document(escape(name@), escape(value@)),
{
    let mut doc = String::new();
    doc.push('{');
    doc.push('"');
    push_escaped(&mut doc, name);
    doc.push('"');
    doc.push(':');
    doc.push('"');
    push_escaped(&mut doc, value);
    doc.push('"');
    doc.push('}');
    assert(doc@ =~= member_document(escape(name@), escape(value@)));
    doc
}

} // verus!
