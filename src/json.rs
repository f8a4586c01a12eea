use crate::record::digit_char;
use vstd::prelude::*;

verus! {

/// The lower-case hexadecimal digit for `d < 16`.
pub open spec fn hex_char(d: nat) -> char {
    if d < 10 {
        digit_char(d)
    } else if d == 10 {
        'a'
    } else if d == 11 {
        'b'
    } else if d == 12 {
        'c'
    } else if d == 13 {
        'd'
    } else if d == 14 {
        'e'
    } else {
        'f'
    }
}

/// The value of a lower-case hexadecimal digit.
pub open spec fn hex_value(c: char) -> nat {
    if c == '1' {
        1
    } else if c == '2' {
        2
    } else if c == '3' {
        3
    } else if c == '4' {
        4
    } else if c == '5' {
        5
    } else if c == '6' {
        6
    } else if c == '7' {
        7
    } else if c == '8' {
        8
    } else if c == '9' {
        9
    } else if c == 'a' {
        10
    } else if c == 'b' {
        11
    } else if c == 'c' {
        12
    } else if c == 'd' {
        13
    } else if c == 'e' {
        14
    } else if c == 'f' {
        15
    } else {
        0
    }
}

/// How one character is written inside a JSON string: `"` and `\` and the
/// control characters are escaped (short forms where JSON has them, else
/// `\u00XX`); every other character is written as it is.
pub open spec fn escape_char(c: char) -> Seq<char> {
    if c == '"' {
        seq!['\\', '"']
    } else if c == '\\' {
        seq!['\\', '\\']
    } else if c == '\x08' {
        seq!['\\', 'b']
    } else if c == '\t' {
        seq!['\\', 't']
    } else if c == '\n' {
        seq!['\\', 'n']
    } else if c == '\x0C' {
        seq!['\\', 'f']
    } else if c == '\r' {
        seq!['\\', 'r']
    } else if (c as u32) < 0x20 {
        seq!['\\', 'u', '0', '0', hex_char((c as u32 / 16) as nat), hex_char((c as u32 % 16) as nat)]
    } else {
        seq![c]
    }
}

/// The escaped characters of a text, in order.
pub open spec fn json_escaped(s: Seq<char>) -> Seq<char>
    decreases s.len(),
{
    if s.len() == 0 {
        Seq::empty()
    } else {
        escape_char(s[0]) + json_escaped(s.drop_first())
    }
}

/// The JSON string literal for a text: quoted, with its characters escaped.
pub open spec fn json_text_of(s: Seq<char>) -> Seq<char> {
    seq!['"'] + json_escaped(s) + seq!['"']
}

/// The code point of a character.
pub open spec fn code_of(c: char) -> nat {
    c as u32 as nat
}

/// The character with the given code point.
pub open spec fn char_with_code(n: nat) -> char {
    choose|c: char| #[trigger] code_of(c) == n
}

/// The character that a two-character escape `\e` stands for.
pub open spec fn unescape_short(e: char) -> char {
    if e == 'b' {
        '\x08'
    } else if e == 't' {
        '\t'
    } else if e == 'n' {
        '\n'
    } else if e == 'f' {
        '\x0C'
    } else if e == 'r' {
        '\r'
    } else {
        e
    }
}

/// The text that the inside of a JSON string literal stands for.
pub open spec fn json_unescaped(t: Seq<char>) -> Seq<char>
    decreases t.len(),
{
    if t.len() == 0 {
        Seq::empty()
    } else if t[0] == '\\' && t.len() >= 6 && t[1] == 'u' {
        seq![char_with_code(16 * hex_value(t[4]) + hex_value(t[5]))] + json_unescaped(
            t.subrange(6, t.len() as int),
        )
    } else if t[0] == '\\' && t.len() >= 2 {
        seq![unescape_short(t[1])] + json_unescaped(t.subrange(2, t.len() as int))
    } else {
        seq![t[0]] + json_unescaped(t.drop_first())
    }
}

proof fn hex_round_trip(d: nat)
    requires
        d < 16,
    ensures
        hex_value(hex_char(d)) == d,
{
}

proof fn unescape_one(c: char, r: Seq<char>)
    ensures
        json_unescaped(escape_char(c) + r) == seq![c] + json_unescaped(r),
{
    let t = escape_char(c) + r;
    if c == '"' || c == '\\' || c == '\x08' || c == '\t' || c == '\n' || c == '\x0C' || c == '\r' {
        assert(t.subrange(2, t.len() as int) =~= r);
    } else if (c as u32) < 0x20 {
        let v = c as u32;
        hex_round_trip((v / 16) as nat);
        hex_round_trip((v % 16) as nat);
        assert(16 * hex_value(t[4]) + hex_value(t[5]) == v);
        assert(code_of(c) == v);
        assert(code_of(char_with_code(v as nat)) == v);
        assert(t.subrange(6, t.len() as int) =~= r);
    } else {
        assert(t.drop_first() =~= r);
    }
}

/// Escaping loses nothing: the inside of the JSON string literal for a text,
/// read back, is that text.
pub proof fn json_escape_round_trip(s: Seq<char>)
    ensures
        json_unescaped(json_escaped(s)) == s,
    decreases s.len(),
{
    if s.len() > 0 {
        json_escape_round_trip(s.drop_first());
        unescape_one(s[0], json_escaped(s.drop_first()));
        assert(s =~= seq![s[0]] + s.drop_first());
    }
}

} // verus!
