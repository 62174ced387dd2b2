//! The JSON string escape table, the escaped form of a byte sequence, and a
//! model of a conforming decoder, together with the proof that decoding the
//! encoded form of any byte sequence gives that sequence back.
//!
//! The table is exactly the one the JSON string grammar demands two-character
//! sequences for: `"`, `\`, backspace, form feed, line feed, carriage return
//! and tab. Every other byte value, raw UTF-8 continuation bytes included,
//! passes through unchanged.

use vstd::prelude::*;

verus! {

/// The second byte of the two-byte escape sequence for `b` (the byte that
/// follows the backslash), or 0 when `b` passes through unescaped.
pub open spec fn escape_code(b: u8) -> u8 {
    if b == 34 {
        34  // '"' escapes to backslash '"'
    } else if b == 92 {
        92  // '\' escapes to backslash '\'
    } else if b == 8 {
        98  // backspace escapes to backslash 'b'
    } else if b == 12 {
        102  // form feed escapes to backslash 'f'
    } else if b == 10 {
        110  // line feed escapes to backslash 'n'
    } else if b == 13 {
        114  // carriage return escapes to backslash 'r'
    } else if b == 9 {
        116  // tab escapes to backslash 't'
    } else {
        0
    }
}

/// Whether `b` must be written as a two-byte escape sequence.
pub open spec fn needs_escape(b: u8) -> bool {
    escape_code(b) != 0
}

/// What one input byte contributes to the escaped output: either the byte
/// itself, or a backslash followed by its escape code.
pub open spec fn escaped_byte(b: u8) -> Seq<u8> {
    if needs_escape(b) {
        seq![92u8, escape_code(b)]
    } else {
        seq![b]
    }
}

/// The escaped form of a whole byte sequence: each byte's contribution, in
/// order.
pub open spec fn escaped_bytes(s: Seq<u8>) -> Seq<u8>
    decreases s.len(),
{
    if s.len() == 0 {
        Seq::<u8>::empty()
    } else {
        escaped_byte(s[0]) + escaped_bytes(s.skip(1))
    }
}

/// A complete JSON string token for content `s`: an opening quote, the
/// escaped content, a closing quote.
pub open spec fn json_string(s: Seq<u8>) -> Seq<u8> {
    seq![34u8] + escaped_bytes(s) + seq![34u8]
}

/// Whether `c` is a valid second byte of an escape sequence in the table
/// this encoder emits.
pub open spec fn is_escape_code(c: u8) -> bool {
    c == 34 || c == 92 || c == 98 || c == 102 || c == 110 || c == 114 || c == 116
}

/// The byte a conforming decoder reads back from the escape code `c`.
pub open spec fn unescape_code(c: u8) -> u8 {
    if c == 34 {
        34
    } else if c == 92 {
        92
    } else if c == 98 {
        8
    } else if c == 102 {
        12
    } else if c == 110 {
        10
    } else if c == 114 {
        13
    } else if c == 116 {
        9
    } else {
        0
    }
}

/// A conforming decoder run over string content (the bytes between the
/// quotes): a backslash must be followed by a known escape code and yields
/// the escaped byte; an unescaped quote cannot occur inside content; every
/// other byte stands for itself.
pub open spec fn unescape_bytes(t: Seq<u8>) -> Option<Seq<u8>>
    decreases t.len(),
{
    if t.len() == 0 {
        Some(Seq::<u8>::empty())
    } else if t[0] == 92 {
        if t.len() >= 2 && is_escape_code(t[1]) {
            match unescape_bytes(t.skip(2)) {
                Some(rest) => Some(seq![unescape_code(t[1])] + rest),
                None => None,
            }
        } else {
            None
        }
    } else if t[0] == 34 {
        None
    } else {
        match unescape_bytes(t.skip(1)) {
            Some(rest) => Some(seq![t[0]] + rest),
            None => None,
        }
    }
}

/// What a conforming JSON parser makes of a whole string token: an opening
/// quote, decodable content, a closing quote.
pub open spec fn parse_json_string(t: Seq<u8>) -> Option<Seq<u8>> {
    if t.len() >= 2 && t[0] == 34 && t[t.len() - 1] == 34 {
        unescape_bytes(t.subrange(1, t.len() - 1))
    } else {
        None
    }
}

/// The executable form of `escape_code`: the second byte of the escape
/// sequence for `b`, or 0 when `b` passes through.
pub fn escape_code_of(b: u8) -> (c: u8)
    ensures
        c == escape_code(b),
{
    if b == 34 {
        34
    } else if b == 92 {
        92
    } else if b == 8 {
        98
    } else if b == 12 {
        102
    } else if b == 10 {
        110
    } else if b == 13 {
        114
    } else if b == 9 {
        116
    } else {
        0
    }
}

proof fn lemma_unescape_escaped(s: Seq<u8>)
    ensures
        unescape_bytes(escaped_bytes(s)) == Some(s),
    decreases s.len(),
{
    if s.len() == 0 {
    } else {
        lemma_unescape_escaped(s.skip(1));
        let e = escaped_bytes(s);
        if needs_escape(s[0]) {
            assert(e[0] == 92);
            assert(e[1] == escape_code(s[0]));
            assert(e.skip(2) =~= escaped_bytes(s.skip(1)));
            assert(unescape_code(escape_code(s[0])) == s[0]);
            assert(seq![s[0]] + s.skip(1) =~= s);
        } else {
            assert(e[0] == s[0]);
            assert(s[0] != 92 && s[0] != 34);
            assert(e.skip(1) =~= escaped_bytes(s.skip(1)));
            assert(seq![s[0]] + s.skip(1) =~= s);
        }
    }
}

/// LAW: for every byte sequence `s`, a conforming JSON parser decoding the
/// string token this encoder writes for `s` returns exactly `s`.
pub proof fn lemma_json_string_round_trip(s: Seq<u8>)
    ensures
        parse_json_string(json_string(s)) == Some(s),
{
    let t = json_string(s);
    assert(t[0] == 34);
    assert(t[t.len() - 1] == 34);
    assert(t.subrange(1, t.len() - 1) =~= escaped_bytes(s));
    lemma_unescape_escaped(s);
}

/// One byte escapes to exactly its contribution.
pub proof fn lemma_escaped_bytes_singleton(b: u8)
    ensures
        escaped_bytes(seq![b]) == escaped_byte(b),
{
    assert(seq![b].skip(1) =~= Seq::<u8>::empty());
    assert(escaped_bytes(Seq::<u8>::empty()) =~= Seq::<u8>::empty());
    assert(escaped_bytes(seq![b]) =~= escaped_byte(b));
}

/// Escaping distributes over concatenation: the escaped form of `s + t` is
/// the escaped form of `s` followed by that of `t`.
pub proof fn lemma_escaped_bytes_append(s: Seq<u8>, t: Seq<u8>)
    ensures
        escaped_bytes(s + t) == escaped_bytes(s) + escaped_bytes(t),
    decreases s.len(),
{
    if s.len() == 0 {
        assert(s + t =~= t);
        assert(escaped_bytes(s) + escaped_bytes(t) =~= escaped_bytes(t));
    } else {
        lemma_escaped_bytes_append(s.skip(1), t);
        assert((s + t).skip(1) =~= s.skip(1) + t);
        assert(escaped_byte(s[0]) + (escaped_bytes(s.skip(1)) + escaped_bytes(t))
            =~= (escaped_byte(s[0]) + escaped_bytes(s.skip(1))) + escaped_bytes(t));
    }
}

/// A run of bytes none of which needs escaping passes through unchanged.
pub proof fn lemma_escaped_bytes_plain(s: Seq<u8>)
    requires
        forall|j: int| 0 <= j < s.len() ==> !needs_escape(s[j]),
    ensures
        escaped_bytes(s) == s,
    decreases s.len(),
{
    if s.len() == 0 {
        assert(escaped_bytes(s) =~= s);
    } else {
        lemma_escaped_bytes_plain(s.skip(1));
        assert(escaped_bytes(s) =~= s);
    }
}

} // verus!
