//! The two JSON services the codec takes from `serde_json`: writing a string as
//! a JSON string literal, and reading the string members of a JSON object.

use vstd::prelude::*;

verus! {

/// `serde_json::Error`, of which nothing is read.
#[verifier::external_type_specification]
#[verifier::external_body]
pub struct ExJsonError(serde_json::Error);

/// The lower-case hexadecimal digit for a value below sixteen.
pub open spec fn hex_digit(d: int) -> char {
    if d == 0 {
        '0'
    } else if d == 1 {
        '1'
    } else if d == 2 {
        '2'
    } else if d == 3 {
        '3'
    } else if d == 4 {
        '4'
    } else if d == 5 {
        '5'
    } else if d == 6 {
        '6'
    } else if d == 7 {
        '7'
    } else if d == 8 {
        '8'
    } else if d == 9 {
        '9'
    } else if d == 10 {
        'a'
    } else if d == 11 {
        'b'
    } else if d == 12 {
        'c'
    } else if d == 13 {
        'd'
    } else if d == 14 {
        'e'
    } else {
        'f'
    }
}

/// How one character stands inside a JSON string literal: the quote, the
/// backslash and the control characters below U+0020 are escaped, every other
/// character stands for itself.
pub open spec fn escape(c: char) -> Seq<char> {
    if c == '"' {
        seq!['\\', '"']
    } else if c == '\\' {
        seq!['\\', '\\']
    } else if c == '\n' {
        seq!['\\', 'n']
    } else if c == '\r' {
        seq!['\\', 'r']
    } else if c == '\t' {
        seq!['\\', 't']
    } else if c == '\u{8}' {
        seq!['\\', 'b']
    } else if c == '\u{c}' {
        seq!['\\', 'f']
    } else if (c as u32) < 0x20 {
        let code = (c as u32) as int;
        seq!['\\', 'u', '0', '0', hex_digit(code / 16), hex_digit(code % 16)]
    } else {
        seq![c]
    }
}

/// The escapes of the characters of a text, one after the other.
pub open spec fn escaped(s: Seq<char>) -> Seq<char>
    decreases s.len(),
{
    if s.len() == 0 {
        Seq::empty()
    } else {
        escape(s.first()) + escaped(s.drop_first())
    }
}

/// A text as a JSON string literal, between double quotes.
pub open spec fn quoted(s: Seq<char>) -> Seq<char> {
    seq!['"'] + escaped(s) + seq!['"']
}

/// Whether a text is free of control characters, the line feed among them.
pub open spec fn is_single_line(s: Seq<char>) -> bool {
    forall|k: int| 0 <= k < s.len() ==> (#[trigger] s[k]) as u32 >= 0x20
}

/// The escape of a character holds no control character.
pub proof fn lemma_escape_single_line(c: char)
    ensures
        is_single_line(escape(c)),
{
}

/// The escapes of a text hold no control character.
pub proof fn lemma_escaped_single_line(s: Seq<char>)
    ensures
        is_single_line(escaped(s)),
    decreases s.len(),
{
    if s.len() > 0 {
        lemma_escape_single_line(s.first());
        lemma_escaped_single_line(s.drop_first());
    }
}

/// A JSON string literal holds no control character.
pub proof fn lemma_quoted_single_line(s: Seq<char>)
    ensures
        is_single_line(quoted(s)),
{
    lemma_escaped_single_line(s);
}

/// Two values below sixteen with the same hexadecimal digit are the same.
pub proof fn lemma_hex_digit_injective(a: int, b: int)
    requires
        0 <= a < 16,
        0 <= b < 16,
        hex_digit(a) == hex_digit(b),
    ensures
        a == b,
{
}

/// No escape is the beginning of another: where two escapes, each followed by
/// some text, give the same text, the two characters are the same and so is
/// what follows them.
pub proof fn lemma_escape_prefix_free(c: char, d: char, u: Seq<char>, v: Seq<char>)
    requires
        escape(c) + u == escape(d) + v,
    ensures
        c == d,
        u == v,
{
    let l = escape(c) + u;
    let r = escape(d) + v;
    assert(l[0] == escape(c)[0]);
    assert(r[0] == escape(d)[0]);
    if escape(c)[0] == '\\' && escape(c).len() >= 2 {
        assert(escape(d).len() >= 2);
        assert(l[1] == escape(c)[1]);
        assert(r[1] == escape(d)[1]);
        if escape(c)[1] == 'u' {
            assert(escape(c).len() == 6 && escape(d).len() == 6);
            assert(l[4] == escape(c)[4] && r[4] == escape(d)[4]);
            assert(l[5] == escape(c)[5] && r[5] == escape(d)[5]);
            let x = (c as u32) as int;
            let y = (d as u32) as int;
            lemma_hex_digit_injective(x / 16, y / 16);
            lemma_hex_digit_injective(x % 16, y % 16);
            assert(x == y);
        }
    }
    assert(c == d);
    assert(u == l.skip(escape(c).len() as int));
    assert(v == r.skip(escape(d).len() as int));
}

/// An escaped text ends where its closing quote stands: where two escaped
/// texts, each followed by a double quote and some text, give the same text,
/// the two texts are the same and so is what follows the quote.
pub proof fn lemma_escaped_prefix_free(a: Seq<char>, b: Seq<char>, x: Seq<char>, y: Seq<char>)
    requires
        escaped(a) + seq!['"'] + x == escaped(b) + seq!['"'] + y,
    ensures
        a == b,
        x == y,
    decreases a.len(),
{
    let l = escaped(a) + seq!['"'] + x;
    let r = escaped(b) + seq!['"'] + y;
    if a.len() == 0 || b.len() == 0 {
        if a.len() > 0 {
            assert(l[0] == escape(a.first())[0]);
            assert(r[0] == '"');
        }
        if b.len() > 0 {
            assert(r[0] == escape(b.first())[0]);
            assert(l[0] == '"');
        }
        assert(a == b);
        assert(x == l.skip(1));
        assert(y == r.skip(1));
    } else {
        let u = escaped(a.drop_first()) + seq!['"'] + x;
        let v = escaped(b.drop_first()) + seq!['"'] + y;
        assert(l == escape(a.first()) + u);
        assert(r == escape(b.first()) + v);
        lemma_escape_prefix_free(a.first(), b.first(), u, v);
        lemma_escaped_prefix_free(a.drop_first(), b.drop_first(), x, y);
        assert(a == seq![a.first()] + a.drop_first());
        assert(b == seq![b.first()] + b.drop_first());
    }
}

/// A JSON string literal says which text it stands for, and where it ends.
pub proof fn lemma_quoted_prefix_free(a: Seq<char>, b: Seq<char>, x: Seq<char>, y: Seq<char>)
    requires
        quoted(a) + x == quoted(b) + y,
    ensures
        a == b,
        x == y,
{
    let l = quoted(a) + x;
    let r = quoted(b) + y;
    assert(l.skip(1) == escaped(a) + seq!['"'] + x);
    assert(r.skip(1) == escaped(b) + seq!['"'] + y);
    lemma_escaped_prefix_free(a, b, x, y);
}

/// `serde_json::to_string` on a string slice. It writes the slice as a JSON
/// string literal into a buffer in memory: a double quote, the characters with
/// `"`, `\` and the controls below U+0020 escaped (`\b`, `\t`, `\n`, `\f`, `\r`
/// by letter, the others as `\u00` and two lower-case hexadecimal digits), and a
/// double quote. Neither the slice nor the buffer can refuse, so the call
/// succeeds.
#[verifier::external_body]
pub(crate) fn quote(s: &str) -> (r: Result<String, serde_json::Error>)
    ensures
        r is Ok,
        r->Ok_0@ == quoted(s@),
{
    serde_json::to_string(s)
}

/// `serde_json::Value`, one JSON value, of which only the string members are
/// read.
#[verifier::external_type_specification]
#[verifier::external_body]
pub struct ExJsonValue(serde_json::Value);

/// The string members of a JSON value: of an object, each member whose value
/// is a string, under its name; of any other value, none.
pub uninterp spec fn string_members(value: serde_json::Value) -> Map<Seq<char>, Seq<char>>;

/// What `serde_json` makes of a text: the string members of the value it
/// reads, or `None` where the text is no JSON document.
pub uninterp spec fn json_document(text: Seq<char>) -> Option<Map<Seq<char>, Seq<char>>>;

/// `serde_json::from_str` to a `serde_json::Value`: the value that the text
/// denotes, or the error where the text is no JSON document.
#[verifier::external_body]
pub(crate) fn read_value(text: &str) -> (r: Result<serde_json::Value, serde_json::Error>)
    ensures
        match r {
            Ok(value) => json_document(text@) == Some(string_members(value)),
            Err(_) => json_document(text@) is None,
        },
{
    serde_json::from_str::<serde_json::Value>(text)
}

/// `Value::get` with a name, then `Value::as_str`: the member of that name
/// where the value is an object that has it and the member is a string.
#[verifier::external_body]
pub(crate) fn string_member(value: &serde_json::Value, name: &str) -> (r: Option<String>)
    ensures
        match r {
            Some(text) => string_members(*value).contains_key(name@) && string_members(
                *value,
            )[name@] == text@,
            None => !string_members(*value).contains_key(name@),
        },
{
    let member = value.get(name)?;
    let text = member.as_str()?;
    Some(text.to_owned())
}

/// The string members `first` and `second` of the JSON object that a text
/// denotes: `None` where the text is no JSON document, where the document is
/// no object, or where one of the two is missing or is not a string.
pub open spec fn json_string_members(
    text: Seq<char>,
    first: Seq<char>,
    second: Seq<char>,
) -> Option<(Seq<char>, Seq<char>)> {
    match json_document(text) {
        Some(members) => if members.contains_key(first) && members.contains_key(second) {
            Some((members[first], members[second]))
        } else {
            None
        },
        None => None,
    }
}

/// Reads a text as JSON and asks for two string members of its object.
pub fn read_string_members(text: &str, first: &str, second: &str) -> (r: Option<
    (String, String),
>)
    ensures
        match r {
            Some(pair) => json_string_members(text@, first@, second@) == Some((pair.0@, pair.1@)),
            None => json_string_members(text@, first@, second@) is None,
        },
{
    let value = match read_value(text) {
        Ok(value) => value,
        Err(_) => { return None; },
    };
    let a = match string_member(&value, first) {
        Some(a) => a,
        None => { return None; },
    };
    match string_member(&value, second) {
        Some(b) => Some((a, b)),
        None => None,
    }
}

} // verus!
