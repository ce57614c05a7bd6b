use vstd::prelude::*;

verus! {

/// The lower-case hexadecimal digit for `n` (`0 <= n < 16`).
pub open spec fn hex_digit(n: int) -> char {
    if n < 10 {
        ((n + 48) as u32) as char
    } else {
        ((n + 87) as u32) as char
    }
}

/// How one character is written inside a JSON string literal: quote and
/// backslash are escaped, the control characters with a short escape use it,
/// the other control characters below `0x20` become `\u00XX`, and every other
/// character stands for itself.
pub open spec fn escape_char(c: char) -> Seq<char> {
    let code = c as int;
    if c == '"' {
        seq!['\\', '"']
    } else if c == '\\' {
        seq!['\\', '\\']
    } else if code == 0x08 {
        seq!['\\', 'b']
    } else if code == 0x09 {
        seq!['\\', 't']
    } else if code == 0x0a {
        seq!['\\', 'n']
    } else if code == 0x0c {
        seq!['\\', 'f']
    } else if code == 0x0d {
        seq!['\\', 'r']
    } else if code < 0x20 {
        seq!['\\', 'u', '0', '0', hex_digit(code / 16), hex_digit(code % 16)]
    } else {
        seq![c]
    }
}

/// The escaped contents of a JSON string literal, character by character.
pub open spec fn escape_chars(s: Seq<char>) -> Seq<char>
    decreases s.len(),
{
    if s.len() == 0 {
        Seq::empty()
    } else {
        escape_chars(s.drop_last()) + escape_char(s.last())
    }
}

/// The JSON string literal for `s`: the escaped characters between quotes.
pub open spec fn json_string(s: Seq<char>) -> Seq<char> {
    seq!['"'] + escape_chars(s) + seq!['"']
}

/// The value of a lower-case hexadecimal digit, or -1 for any other character.
pub open spec fn hex_value(c: char) -> int {
    let code = c as int;
    if 48 <= code <= 57 {
        code - 48
    } else if 97 <= code <= 102 {
        code - 87
    } else {
        -1
    }
}

/// The character a two-character escape `\e` stands for, if `e` is one.
pub open spec fn short_escape(e: char) -> Option<char> {
    if e == '"' {
        Some('"')
    } else if e == '\\' {
        Some('\\')
    } else if e == '/' {
        Some('/')
    } else if e == 'b' {
        Some(8int as char)
    } else if e == 't' {
        Some(9int as char)
    } else if e == 'n' {
        Some(10int as char)
    } else if e == 'f' {
        Some(12int as char)
    } else if e == 'r' {
        Some(13int as char)
    } else {
        None
    }
}

/// Whether `s` starts with a `\uXXXX` escape of four lower-case hex digits.
pub open spec fn starts_with_unicode_escape(s: Seq<char>) -> bool {
    &&& s.len() >= 6
    &&& s[0] == '\\'
    &&& s[1] == 'u'
    &&& hex_value(s[2]) >= 0
    &&& hex_value(s[3]) >= 0
    &&& hex_value(s[4]) >= 0
    &&& hex_value(s[5]) >= 0
}

/// Reads the inside of a JSON string literal, up to and including its
/// closing quote: the characters it stands for, and the text after the quote;
/// `None` if the text ends first or holds an escape that is not one.
pub open spec fn read_string_body(s: Seq<char>) -> Option<(Seq<char>, Seq<char>)>
    decreases s.len(),
{
    if s.len() == 0 {
        None
    } else if s[0] == '"' {
        Some((Seq::empty(), s.drop_first()))
    } else if s[0] == '\\' {
        if s.len() >= 2 && short_escape(s[1]) is Some {
            match read_string_body(s.skip(2)) {
                Some(p) => Some((seq![short_escape(s[1])->0] + p.0, p.1)),
                None => None,
            }
        } else if starts_with_unicode_escape(s) {
            let code = 4096 * hex_value(s[2]) + 256 * hex_value(s[3]) + 16 * hex_value(s[4])
                + hex_value(s[5]);
            match read_string_body(s.skip(6)) {
                Some(p) => Some((seq![code as char] + p.0, p.1)),
                None => None,
            }
        } else {
            None
        }
    } else {
        match read_string_body(s.drop_first()) {
            Some(p) => Some((seq![s[0]] + p.0, p.1)),
            None => None,
        }
    }
}

/// Reads a JSON string literal at the start of `s`: the characters it stands
/// for, and the text after it.
pub open spec fn read_json_string(s: Seq<char>) -> Option<(Seq<char>, Seq<char>)> {
    if s.len() > 0 && s[0] == '"' {
        read_string_body(s.drop_first())
    } else {
        None
    }
}

proof fn lemma_hex_round_trip(n: int)
    requires
        0 <= n < 16,
    ensures
        hex_value(hex_digit(n)) == n,
{
    if n < 10 {
        assert(hex_digit(n) as int == n + 48);
    } else {
        assert(hex_digit(n) as int == n + 87);
    }
}

proof fn lemma_escape_chars_cons(c: char, a: Seq<char>)
    ensures
        escape_chars(seq![c] + a) == escape_char(c) + escape_chars(a),
    decreases a.len(),
{
    let b = seq![c] + a;
    if a.len() == 0 {
        assert(b.drop_last() =~= Seq::<char>::empty());
        assert(escape_chars(Seq::<char>::empty()) == Seq::<char>::empty());
        assert(escape_chars(b) =~= escape_char(c) + escape_chars(a));
    } else {
        assert(b.drop_last() =~= seq![c] + a.drop_last());
        assert(b.last() == a.last());
        lemma_escape_chars_cons(c, a.drop_last());
        assert(escape_chars(b) =~= escape_char(c) + escape_chars(a));
    }
}

proof fn lemma_read_escape_step(c: char, t: Seq<char>, rest: Seq<char>)
    requires
        read_string_body(escape_chars(t) + seq!['"'] + rest) == Some((t, rest)),
    ensures
        read_string_body(escape_char(c) + (escape_chars(t) + seq!['"'] + rest)) == Some((seq![c] + t, rest)),
{
    let x = escape_chars(t) + seq!['"'] + rest;
    let e = escape_char(c);
    let s = e + x;
    let code = c as int;
    if c == '"' || c == '\\' || code == 0x08 || code == 0x09 || code == 0x0a || code == 0x0c
        || code == 0x0d {
        assert(e.len() == 2);
        assert(s[0] == '\\');
        assert(s.skip(2) =~= x);
        assert(short_escape(s[1]) == Some(c));
    } else if code < 0x20 {
        lemma_escape_unicode_step(c, x, t, rest);
    } else {
        assert(e == seq![c]);
        assert(s[0] == c);
        assert(s.drop_first() =~= x);
    }
}

proof fn lemma_escape_unicode_step(c: char, x: Seq<char>, t: Seq<char>, rest: Seq<char>)
    requires
        (c as int) < 0x20,
        c != '"',
        c != '\\',
        c as int != 0x08,
        c as int != 0x09,
        c as int != 0x0a,
        c as int != 0x0c,
        c as int != 0x0d,
        read_string_body(x) == Some((t, rest)),
    ensures
        read_string_body(escape_char(c) + x) == Some((seq![c] + t, rest)),
{
    let code = c as int;
    assert((c as u32) as int == code);
    assert(0 <= code);
    assert(0 <= code / 16 < 16);
    assert(0 <= code % 16 < 16);
    lemma_hex_round_trip(code / 16);
    lemma_hex_round_trip(code % 16);
    lemma_hex_round_trip(0);
    assert(hex_digit(0) == '0');
    let e = escape_char(c);
    let s = e + x;
    assert(e == seq!['\\', 'u', '0', '0', hex_digit(code / 16), hex_digit(code % 16)]);
    assert(s[0] == '\\');
    assert(s[1] == 'u');
    assert(short_escape(s[1]) is None);
    assert(s[2] == '0' && s[3] == '0');
    assert(s[4] == hex_digit(code / 16) && s[5] == hex_digit(code % 16));
    assert(starts_with_unicode_escape(s));
    assert(s.skip(6) =~= x);
    let d = 4096 * hex_value(s[2]) + 256 * hex_value(s[3]) + 16 * hex_value(s[4]) + hex_value(s[5]);
    assert(d == code);
    assert((d as char) == c);
}

/// Reading back the escaped characters of `a` and a closing quote gives `a`
/// and leaves the text after the quote.
pub proof fn lemma_read_escaped(a: Seq<char>, rest: Seq<char>)
    ensures
        read_string_body(escape_chars(a) + seq!['"'] + rest) == Some((a, rest)),
    decreases a.len(),
{
    if a.len() == 0 {
        assert(escape_chars(a) + seq!['"'] + rest =~= seq!['"'] + rest);
        assert((seq!['"'] + rest).drop_first() =~= rest);
    } else {
        let c = a[0];
        let t = a.drop_first();
        assert(a =~= seq![c] + t);
        lemma_escape_chars_cons(c, t);
        lemma_read_escaped(t, rest);
        lemma_read_escape_step(c, t, rest);
        assert(escape_chars(a) + seq!['"'] + rest =~= escape_char(c) + (escape_chars(t) + seq!['"'] + rest));
    }
}

/// A JSON string literal reads back as the text it was made from, and
/// leaves what follows it untouched.
pub proof fn lemma_read_json_string(a: Seq<char>, rest: Seq<char>)
    ensures
        read_json_string(json_string(a) + rest) == Some((a, rest)),
{
    let s = json_string(a) + rest;
    assert(s[0] == '"');
    assert(s.drop_first() =~= escape_chars(a) + seq!['"'] + rest);
    lemma_read_escaped(a, rest);
}

/// The error type of serde_json, carried opaquely.
#[verifier::external_type_specification]
#[verifier::external_body]
pub struct ExJsonError(serde_json::Error);

/// `serde_json::to_string` on a string slice. It writes the string between
/// quotes with serde_json's escape table (the compact formatter), into a
/// `Vec<u8>` writer, which cannot fail: the contract states the exact text
/// and that the call succeeds.
#[verifier::external_body]
fn serde_quote(s: &str) -> (r: Result<String, serde_json::Error>)
    ensures
        r is Ok,
        r is Ok ==> r->Ok_0@ == json_string(s@),
{
    serde_json::to_string(s)
}

/// The JSON string literal for `s`, as serde_json writes it.
pub fn quote_json(s: &String) -> (r: String)
    ensures
        r@ == json_string(s@),
{
    match serde_quote(s.as_str()) {
        Ok(t) => t,
        Err(_) => {
            proof {
                assert(false);
            }
            String::new()
        },
    }
}

} // verus!
