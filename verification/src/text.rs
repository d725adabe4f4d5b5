//! Verified text building: decimal rendering of numbers and JSON string
//! escaping, used to frame every envelope the bridge puts on the wire.

use vstd::prelude::*;

verus! {

/// The character for a single decimal digit.
pub open spec fn spec_digit_char(d: nat) -> char {
    if d == 0 { '0' }
    else if d == 1 { '1' }
    else if d == 2 { '2' }
    else if d == 3 { '3' }
    else if d == 4 { '4' }
    else if d == 5 { '5' }
    else if d == 6 { '6' }
    else if d == 7 { '7' }
    else if d == 8 { '8' }
    else { '9' }
}

/// The usual decimal rendering of `n`, most significant digit first,
/// with no leading zeros (and `0` rendered as "0").
pub open spec fn spec_dec_digits(n: nat) -> Seq<char>
    decreases n,
{
    if n < 10 {
        seq![spec_digit_char(n)]
    } else {
        spec_dec_digits(n / 10) + seq![spec_digit_char(n % 10)]
    }
}

/// The character for the low hex digit of a value below 16.
pub open spec fn spec_hex_char(d: nat) -> char {
    if d < 10 { spec_digit_char(d) }
    else if d == 10 { 'a' }
    else if d == 11 { 'b' }
    else if d == 12 { 'c' }
    else if d == 13 { 'd' }
    else if d == 14 { 'e' }
    else { 'f' }
}

/// How one character is written inside a JSON string literal: the two
/// standard short escapes for quote, backslash and common whitespace
/// controls, a `\u00..` escape for the remaining control characters,
/// and the character itself otherwise.
pub open spec fn spec_escape_char(c: char) -> Seq<char> {
    if c == '"' { seq!['\\', '"'] }
    else if c == '\\' { seq!['\\', '\\'] }
    else if c == '\n' { seq!['\\', 'n'] }
    else if c == '\r' { seq!['\\', 'r'] }
    else if c == '\t' { seq!['\\', 't'] }
    else if (c as u32) < 0x20 {
        seq!['\\', 'u', '0', '0',
            spec_hex_char(((c as u32) / 16) as nat),
            spec_hex_char(((c as u32) % 16) as nat)]
    } else {
        seq![c]
    }
}

/// The body of a JSON string literal holding exactly the characters of `s`.
pub open spec fn spec_json_escape(s: Seq<char>) -> Seq<char>
    decreases s.len(),
{
    if s.len() == 0 {
        Seq::<char>::empty()
    } else {
        spec_escape_char(s[0]) + spec_json_escape(s.drop_first())
    }
}

/// A complete JSON string literal for `s`: quotes around the escaped body.
pub open spec fn spec_json_string(s: Seq<char>) -> Seq<char> {
    seq!['"'] + spec_json_escape(s) + seq!['"']
}

/// Escaping a string one character at a time from the front is the same
/// as escaping all but the last character and then the last one.
pub proof fn lemma_json_escape_snoc(s: Seq<char>, c: char)
    ensures
        spec_json_escape(s.push(c)) == spec_json_escape(s) + spec_escape_char(c),
    decreases s.len(),
{
    if s.len() == 0 {
        assert(s.push(c).drop_first() =~= Seq::<char>::empty());
        assert(s.push(c)[0] == c);
        assert(spec_json_escape(s.push(c))
            == spec_escape_char(c) + spec_json_escape(Seq::<char>::empty()));
        assert(spec_escape_char(c) + spec_json_escape(Seq::<char>::empty())
            =~= spec_escape_char(c));
        assert(spec_json_escape(s) + spec_escape_char(c) =~= spec_escape_char(c));
    } else {
        assert(s.push(c).drop_first() =~= s.drop_first().push(c));
        lemma_json_escape_snoc(s.drop_first(), c);
        assert(spec_json_escape(s.push(c))
            == spec_escape_char(s[0]) + (spec_json_escape(s.drop_first()) + spec_escape_char(c)));
        assert(spec_escape_char(s[0]) + (spec_json_escape(s.drop_first()) + spec_escape_char(c))
            =~= (spec_escape_char(s[0]) + spec_json_escape(s.drop_first())) + spec_escape_char(c));
    }
}

/// Whether two string slices hold the same characters.
pub fn str_eq(a: &str, b: &str) -> (r: bool)
    ensures
        r == (a@ == b@),
{
    let oa = a.to_owned();
    let ob = b.to_owned();
    oa == ob
}

/// Relies on `String::push`, which appends the given character.
#[verifier::external_body]
pub(crate) fn push_char(s: &mut String, c: char)
    ensures
        final(s)@ == old(s)@.push(c),
{
    s.push(c);
}

/// The character for a decimal digit `d`.
fn digit_char(d: u32) -> (c: char)
    requires
        d < 10,
    ensures
        c == spec_digit_char(d as nat),
{
    match d {
        0 => '0',
        1 => '1',
        2 => '2',
        3 => '3',
        4 => '4',
        5 => '5',
        6 => '6',
        7 => '7',
        8 => '8',
        _ => '9',
    }
}

/// The character for a hex digit `d`.
fn hex_char(d: u32) -> (c: char)
    requires
        d < 16,
    ensures
        c == spec_hex_char(d as nat),
{
    if d < 10 {
        digit_char(d)
    } else {
        match d {
            10 => 'a',
            11 => 'b',
            12 => 'c',
            13 => 'd',
            14 => 'e',
            _ => 'f',
        }
    }
}

/// Renders `n` in decimal.
pub fn dec_string(n: u64) -> (r: String)
    ensures
        r@ == spec_dec_digits(n as nat),
    decreases n,
{
    if n < 10 {
        let mut s = String::new();
        push_char(&mut s, digit_char(n as u32));
        assert(s@ =~= spec_dec_digits(n as nat));
        s
    } else {
        let mut s = dec_string(n / 10);
        push_char(&mut s, digit_char((n % 10) as u32));
        assert(s@ =~= spec_dec_digits(n as nat));
        s
    }
}

/// Appends the JSON escape of one character to `out`.
fn push_escaped(out: &mut String, c: char)
    ensures
        final(out)@ == old(out)@ + spec_escape_char(c),
{
    if c == '"' {
        out.append("\\\"");
        assert(final(out)@ =~= old(out)@ + spec_escape_char(c)) by {
            reveal_strlit("\\\"");
        }
    } else if c == '\\' {
        out.append("\\\\");
        assert(final(out)@ =~= old(out)@ + spec_escape_char(c)) by {
            reveal_strlit("\\\\");
        }
    } else if c == '\n' {
        out.append("\\n");
        assert(final(out)@ =~= old(out)@ + spec_escape_char(c)) by {
            reveal_strlit("\\n");
        }
    } else if c == '\r' {
        out.append("\\r");
        assert(final(out)@ =~= old(out)@ + spec_escape_char(c)) by {
            reveal_strlit("\\r");
        }
    } else if c == '\t' {
        out.append("\\t");
        assert(final(out)@ =~= old(out)@ + spec_escape_char(c)) by {
            reveal_strlit("\\t");
        }
    } else if (c as u32) < 0x20 {
        out.append("\\u00");
        push_char(out, hex_char((c as u32) / 16));
        push_char(out, hex_char((c as u32) % 16));
        assert(final(out)@ =~= old(out)@ + spec_escape_char(c)) by {
            reveal_strlit("\\u00");
        }
    } else {
        push_char(out, c);
        assert(final(out)@ =~= old(out)@ + spec_escape_char(c));
    }
}

/// Appends the escaped body of a JSON string literal holding `s` to `out`.
pub fn append_json_escape(out: &mut String, s: &str)
    ensures
        final(out)@ == old(out)@ + spec_json_escape(s@),
{
    let n = s.unicode_len();
    let mut i: usize = 0;
    while i < n
        invariant
            n == s@.len(),
            i <= n,
            out@ == old(out)@ + spec_json_escape(s@.take(i as int)),
        decreases n - i,
    {
        let c = s.get_char(i);
        push_escaped(out, c);
        proof {
            lemma_json_escape_snoc(s@.take(i as int), c);
            assert(s@.take(i as int).push(s@[i as int]) =~= s@.take(i + 1 as int));
            assert(out@ =~= old(out)@ + spec_json_escape(s@.take(i + 1 as int)));
        }
        i = i + 1;
    }
    proof {
        assert(s@.take(n as int) =~= s@);
    }
}

/// Appends the full JSON string literal for `s` to `out`.
pub fn append_json_string(out: &mut String, s: &str)
    ensures
        final(out)@ == old(out)@ + spec_json_string(s@),
{
    push_char(out, '"');
    append_json_escape(out, s);
    push_char(out, '"');
    assert(final(out)@ =~= old(out)@ + spec_json_string(s@));
}

/// The JSON string literal for `s`, on its own.
pub fn json_string(s: &str) -> (r: String)
    ensures
        r@ == spec_json_string(s@),
{
    let mut out = String::new();
    append_json_string(&mut out, s);
    assert(out@ =~= spec_json_string(s@));
    out
}

} // verus!
