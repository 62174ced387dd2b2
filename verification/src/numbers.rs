//! Decimal and hexadecimal digit sequences for unsigned and signed
//! integers, and the exec routines that append them to a buffer.

use vstd::prelude::*;
use crate::buffer::Buffer;

verus! {

/// The ASCII byte for the decimal digit `d`.
pub open spec fn digit_byte(d: nat) -> u8
    recommends
        d < 10,
{
    (48 + d) as u8
}

/// The ASCII byte for the hexadecimal digit `d`, upper case.
pub open spec fn hex_digit_byte(d: nat) -> u8
    recommends
        d < 16,
{
    if d < 10 {
        (48 + d) as u8
    } else {
        (55 + d) as u8
    }
}

/// The decimal digits of `n`, most significant first; `0` is the single
/// digit `"0"`.
pub open spec fn dec_digits(n: nat) -> Seq<u8>
    decreases n,
{
    if n < 10 {
        seq![digit_byte(n)]
    } else {
        dec_digits(n / 10) + seq![digit_byte(n % 10)]
    }
}

/// The hexadecimal digits of `n` with leading zeros trimmed; `0` is the
/// single digit `"0"`.
pub open spec fn hex_digits(n: nat) -> Seq<u8>
    decreases n,
{
    if n < 16 {
        seq![hex_digit_byte(n)]
    } else {
        hex_digits(n / 16) + seq![hex_digit_byte(n % 16)]
    }
}

/// The lowest `width` hexadecimal digits of `n`, leading zeros included.
pub open spec fn hex_digits_fixed(n: nat, width: nat) -> Seq<u8>
    decreases width,
{
    if width == 0 {
        Seq::<u8>::empty()
    } else {
        hex_digits_fixed(n / 16, (width - 1) as nat) + seq![hex_digit_byte(n % 16)]
    }
}

/// The decimal form of a signed 32-bit value: the digits of its magnitude,
/// preceded by a minus sign when it is negative.
pub open spec fn int32_digits(v: i32) -> Seq<u8> {
    if v >= 0 {
        dec_digits(v as nat)
    } else {
        seq![45u8] + dec_digits((-(v as int)) as nat)
    }
}

/// Appends the decimal digits of `n`, most significant first.
pub fn push_dec_u64(buf: &mut Buffer, n: u64)
    ensures
        final(buf)@ == old(buf)@ + dec_digits(n as nat),
    decreases n,
{
    if n < 10 {
        buf.push(48 + (n as u8));
    } else {
        proof {
            assert(n / 10 < n) by (nonlinear_arith)
                requires
                    n >= 10,
            ;
        }
        push_dec_u64(buf, n / 10);
        buf.push(48 + ((n % 10) as u8));
        proof {
            assert(old(buf)@ + dec_digits((n / 10) as nat) + seq![digit_byte((n % 10) as nat)]
                =~= old(buf)@ + dec_digits(n as nat));
        }
    }
}

/// Appends the hexadecimal digits of `n` with leading zeros trimmed.
pub fn push_hex_u32(buf: &mut Buffer, n: u32)
    ensures
        final(buf)@ == old(buf)@ + hex_digits(n as nat),
    decreases n,
{
    if n < 16 {
        buf.push(hex_digit_of(n as u8));
    } else {
        proof {
            assert(n / 16 < n) by (nonlinear_arith)
                requires
                    n >= 16,
            ;
        }
        push_hex_u32(buf, n / 16);
        buf.push(hex_digit_of((n % 16) as u8));
        proof {
            assert(old(buf)@ + hex_digits((n / 16) as nat) + seq![hex_digit_byte((n % 16) as nat)]
                =~= old(buf)@ + hex_digits(n as nat));
        }
    }
}

/// Appends exactly `width` hexadecimal digits of `n`, leading zeros
/// included.
pub fn push_hex_fixed(buf: &mut Buffer, n: u32, width: u8)
    ensures
        final(buf)@ == old(buf)@ + hex_digits_fixed(n as nat, width as nat),
    decreases width,
{
    if width > 0 {
        push_hex_fixed(buf, n / 16, width - 1);
        buf.push(hex_digit_of((n % 16) as u8));
        proof {
            assert(old(buf)@ + hex_digits_fixed((n / 16) as nat, (width - 1) as nat)
                + seq![hex_digit_byte((n % 16) as nat)]
                =~= old(buf)@ + hex_digits_fixed(n as nat, width as nat));
        }
    } else {
        proof {
            assert(old(buf)@ + hex_digits_fixed(n as nat, 0) =~= old(buf)@);
        }
    }
}

/// The ASCII byte for one hexadecimal digit, upper case.
pub fn hex_digit_of(d: u8) -> (c: u8)
    requires
        d < 16,
    ensures
        c == hex_digit_byte(d as nat),
{
    if d < 10 {
        48 + d
    } else {
        55 + d
    }
}

} // verus!
