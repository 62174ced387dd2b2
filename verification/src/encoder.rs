//! The encoder: owns one byte buffer and appends raw bytes, JSON string
//! tokens, and decimal or hexadecimal integer tokens to it.

use vstd::prelude::*;
use vstd::slice::slice_subrange;
use vstd::string::StringSliceAdditionalSpecFns;
use crate::buffer::Buffer;
use crate::escape::{escape_code_of, escaped_bytes, json_string};
use crate::escape::{lemma_escaped_bytes_append, lemma_escaped_bytes_plain};
use crate::escape::{lemma_escaped_bytes_singleton, needs_escape};
use crate::numbers::{dec_digits, hex_digits, hex_digits_fixed, int32_digits};
use crate::numbers::{push_dec_u64, push_hex_fixed, push_hex_u32};

verus! {

/// A streaming JSON encoder. It owns one growable byte buffer for its whole
/// lifetime; every `encode_*` call appends a fixed function of its arguments
/// to that buffer, and nothing else.
pub struct JsonEncoder {
    buffer: Buffer,
}

impl View for JsonEncoder {
    type V = Seq<u8>;

    closed spec fn view(&self) -> Seq<u8> {
        self.buffer@
    }
}

impl JsonEncoder {
    /// An encoder over an empty buffer.
    pub fn new() -> (js: JsonEncoder)
        ensures
            js@ == Seq::<u8>::empty(),
    {
        JsonEncoder { buffer: Buffer::new() }
    }

    /// An encoder over an empty buffer that has reserved `capa` bytes. The
    /// capacity hint never changes what is encoded.
    pub fn with_capacity(capa: usize) -> (js: JsonEncoder)
        ensures
            js@ == Seq::<u8>::empty(),
    {
        JsonEncoder { buffer: Buffer::with_capacity(capa) }
    }

    /// Empties the buffer, retaining its storage. An encoder that was
    /// cleared encodes exactly as a fresh one does.
    pub fn clear(&mut self)
        ensures
            final(self)@ == Seq::<u8>::empty(),
    {
        self.buffer.clear();
    }

    /// Consumes the encoder and hands out the encoded bytes.
    pub fn into_vec(self) -> (v: Vec<u8>)
        ensures
            v@ == self@,
    {
        self.buffer.into_vec()
    }

    /// Appends one structural byte (a brace, bracket, comma, colon or
    /// quote) for the builders.
    pub(crate) fn push_byte(&mut self, b: u8)
        ensures
            final(self)@ == old(self)@.push(b),
    {
        self.buffer.push(b);
    }

    /// The number of bytes encoded so far.
    pub(crate) fn byte_len(&self) -> (n: usize)
        ensures
            n == self@.len(),
    {
        self.buffer.get_current_position()
    }

    /// Truncates the buffer back to `pos` bytes, for rollback.
    pub(crate) fn truncate_to(&mut self, pos: usize)
        requires
            pos <= old(self)@.len(),
        ensures
            final(self)@ == old(self)@.subrange(0, pos as int),
    {
        self.buffer.set_current_position(pos);
    }

    /// Hands the underlying buffer to `f` for direct manipulation. What `f`
    /// did to the buffer is what happened to this encoder.
    pub fn with_buffer<F: FnOnce(&mut Buffer)>(&mut self, f: F)
        requires
            forall|b: &mut Buffer| call_requires(f, (b,)),
        ensures
            exists|b: &mut Buffer|
                {
                    &&& #[trigger] call_ensures(f, (b,), ())
                    &&& b@ == old(self)@
                    &&& final(self)@ == final(b)@
                },
    {
        f(&mut self.buffer);
    }

    /// Appends `raw` verbatim. The caller guarantees the bytes are already
    /// valid JSON content; nothing is escaped or validated.
    pub fn encode_raw(&mut self, raw: &[u8])
        ensures
            final(self)@ == old(self)@ + raw@,
    {
        self.buffer.push_all(raw);
    }

    /// Appends `around`, then `raw` verbatim, then `around` again.
    pub fn encode_raw_around(&mut self, around: u8, raw: &[u8])
        ensures
            final(self)@ == old(self)@ + seq![around] + raw@ + seq![around],
    {
        self.buffer.push_all_around(around, raw);
    }

    /// Appends `raw_str` between quotes without scanning it. The caller
    /// guarantees that no byte of `raw_str` needs escaping; on any other
    /// input the output is not a valid JSON string token.
    pub fn encode_str_noescape(&mut self, raw_str: &str)
        ensures
            final(self)@ == old(self)@ + seq![34u8] + raw_str.spec_bytes() + seq![34u8],
    {
        self.buffer.push_all_around(34, raw_str.as_bytes());
    }

    /// Appends the escaped form of `bytes`: runs of bytes that need no
    /// escaping are copied whole, and each escapable byte becomes its
    /// two-byte sequence.
    fn escape_bytes(&mut self, bytes: &[u8])
        ensures
            final(self)@ == old(self)@ + escaped_bytes(bytes@),
    {
        let n = bytes.len();
        let mut start: usize = 0;
        let mut i: usize = 0;
        proof {
            assert(old(self)@ + escaped_bytes(bytes@.subrange(0, 0)) =~= old(self)@);
        }
        while i < n
            invariant
                n == bytes@.len(),
                start <= i <= n,
                forall|j: int| start <= j < i ==> !needs_escape(bytes@[j]),
                self@ == old(self)@ + escaped_bytes(bytes@.subrange(0, start as int)),
            decreases n - i,
        {
            let b = bytes[i];
            let code = escape_code_of(b);
            if code != 0 {
                if start < i {
                    let run = slice_subrange(bytes, start, i);
                    self.buffer.push_all(run);
                }
                self.buffer.push(92);
                self.buffer.push(code);
                proof {
                    let pre = bytes@.subrange(0, start as int);
                    let run = bytes@.subrange(start as int, i as int);
                    lemma_escaped_bytes_plain(run);
                    lemma_escaped_bytes_append(pre, run);
                    assert(bytes@.subrange(0, i as int) =~= pre + run);
                    lemma_escaped_bytes_append(bytes@.subrange(0, i as int), seq![bytes@[i as int]]);
                    assert(bytes@.subrange(0, i + 1) =~= bytes@.subrange(0, i as int) + seq![
                        bytes@[i as int],
                    ]);
                    lemma_escaped_bytes_singleton(bytes@[i as int]);
                    assert(self@ =~= old(self)@ + escaped_bytes(bytes@.subrange(0, i + 1)));
                }
                start = i + 1;
            }
            i = i + 1;
        }
        if start < n {
            let run = slice_subrange(bytes, start, n);
            self.buffer.push_all(run);
        }
        proof {
            let pre = bytes@.subrange(0, start as int);
            let run = bytes@.subrange(start as int, n as int);
            lemma_escaped_bytes_plain(run);
            lemma_escaped_bytes_append(pre, run);
            assert(bytes@ =~= pre + run);
            assert(self@ =~= old(self)@ + escaped_bytes(bytes@));
        }
    }

    /// Appends the JSON string token for `s`, escaping one byte at a time:
    /// every byte is classified and either copied through or written as its
    /// two-byte escape sequence.
    pub fn encode_str(&mut self, s: &str)
        ensures
            final(self)@ == old(self)@ + json_string(s.spec_bytes()),
    {
        let bytes = s.as_bytes();
        let n = bytes.len();
        // Worst case every byte escapes: reserve once, commit what is used.
        let upper = if n <= (usize::MAX - 2) / 2 {
            2 * n + 2
        } else {
            usize::MAX
        };
        self.buffer.reserve(upper);
        self.buffer.push(34);
        let mut i: usize = 0;
        proof {
            assert(self@ =~= old(self)@ + seq![34u8] + escaped_bytes(bytes@.subrange(0, 0)));
        }
        while i < n
            invariant
                n == bytes@.len(),
                i <= n,
                self@ == old(self)@ + seq![34u8] + escaped_bytes(bytes@.subrange(0, i as int)),
            decreases n - i,
        {
            let b = bytes[i];
            let code = escape_code_of(b);
            if code != 0 {
                self.buffer.push(92);
                self.buffer.push(code);
            } else {
                self.buffer.push(b);
            }
            i = i + 1;
            proof {
                lemma_escaped_bytes_append(bytes@.subrange(0, i - 1), seq![bytes@[i - 1]]);
                assert(bytes@.subrange(0, i as int) =~= bytes@.subrange(0, i - 1) + seq![
                    bytes@[i - 1],
                ]);
                lemma_escaped_bytes_singleton(bytes@[i - 1]);
                assert(self@ =~= old(self)@ + seq![34u8] + escaped_bytes(
                    bytes@.subrange(0, i as int),
                ));
            }
        }
        self.buffer.push(34);
        proof {
            assert(bytes@.subrange(0, n as int) =~= bytes@);
            assert(self@ =~= old(self)@ + json_string(s.spec_bytes()));
        }
    }

    /// Appends the JSON string token for `s` by the segment-copy strategy:
    /// quote, escaped content, quote. Its output is byte-identical to
    /// `encode_str`.
    pub fn encode_str2(&mut self, s: &str)
        ensures
            final(self)@ == old(self)@ + json_string(s.spec_bytes()),
    {
        self.buffer.push(34);
        self.escape_bytes(s.as_bytes());
        self.buffer.push(34);
        proof {
            assert(self@ =~= old(self)@ + json_string(s.spec_bytes()));
        }
    }

    /// Appends the JSON string token for `s`. A historical variant of
    /// `encode_str`, kept for its callers; by construction the output is
    /// byte-identical.
    pub fn encode_str_(&mut self, s: &str)
        ensures
            final(self)@ == old(self)@ + json_string(s.spec_bytes()),
    {
        self.encode_str(s);
    }

    /// Appends the JSON string token for `s` by the segment-copy strategy.
    /// A historical variant of `encode_str2`, kept for its callers; by
    /// construction the output is byte-identical.
    pub fn encode_str3(&mut self, s: &str)
        ensures
            final(self)@ == old(self)@ + json_string(s.spec_bytes()),
    {
        self.encode_str2(s);
    }

    /// Appends the decimal digits of a 64-bit unsigned value between quotes:
    /// a JSON string, not a JSON number, so that full-width values survive
    /// consumers that read numbers as IEEE-754 doubles.
    pub fn encode_decimal_str(&mut self, value: u64)
        ensures
            final(self)@ == old(self)@ + seq![34u8] + dec_digits(value as nat) + seq![34u8],
    {
        self.buffer.push(34);
        push_dec_u64(&mut self.buffer, value);
        self.buffer.push(34);
        proof {
            assert(self@ =~= old(self)@ + seq![34u8] + dec_digits(value as nat) + seq![34u8]);
        }
    }

    /// Appends the decimal digits of a 32-bit unsigned value.
    pub fn encode_u32(&mut self, value: u32)
        ensures
            final(self)@ == old(self)@ + dec_digits(value as nat),
    {
        push_dec_u64(&mut self.buffer, value as u64);
    }

    /// Appends the decimal form of a 32-bit signed value: a minus sign and
    /// the digits of the magnitude when it is negative. The magnitude is
    /// taken after widening, so the minimum value is formatted correctly.
    pub fn encode_i32(&mut self, value: i32)
        ensures
            final(self)@ == old(self)@ + int32_digits(value),
    {
        if value >= 0 {
            self.encode_u32(value as u32);
        } else {
            self.buffer.push(45);
            let magnitude = (-(value as i64)) as u32;
            self.encode_u32(magnitude);
            proof {
                assert(magnitude as nat == (-(value as int)) as nat);
                assert(self@ =~= old(self)@ + int32_digits(value));
            }
        }
    }

    /// Appends the hexadecimal digits of `value`, upper case, leading zeros
    /// trimmed; 0 is the single digit 0.
    pub fn encode_hex_u32(&mut self, value: u32)
        ensures
            final(self)@ == old(self)@ + hex_digits(value as nat),
    {
        push_hex_u32(&mut self.buffer, value);
    }

    /// Appends exactly eight hexadecimal digits of `value`, upper case,
    /// leading zeros included.
    pub fn encode_hex_u32_fast(&mut self, value: u32)
        ensures
            final(self)@ == old(self)@ + hex_digits_fixed(value as nat, 8),
    {
        push_hex_fixed(&mut self.buffer, value, 8);
    }
}

/// A value with a JSON form that the encoder can append: what it appends is
/// `json_bytes`, a fixed function of the value.
pub trait JsonEncodable {
    /// The bytes that encoding this value appends.
    spec fn json_bytes(&self) -> Seq<u8>;

    /// Appends this value's JSON form to the encoder.
    fn encode(&self, js: &mut JsonEncoder)
        ensures
            final(js)@ == old(js)@ + self.json_bytes(),
    ;
}

impl<'a> JsonEncodable for &'a str {
    open spec fn json_bytes(&self) -> Seq<u8> {
        json_string(self.spec_bytes())
    }

    fn encode(&self, js: &mut JsonEncoder) {
        js.encode_str(self);
    }
}

impl JsonEncodable for i32 {
    open spec fn json_bytes(&self) -> Seq<u8> {
        int32_digits(*self)
    }

    fn encode(&self, js: &mut JsonEncoder) {
        js.encode_i32(*self);
    }
}

} // verus!
