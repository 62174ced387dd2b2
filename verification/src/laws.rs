//! The replay model: every mutating operation of the encoder appends a
//! fixed function of its arguments, and what a sequence of operations
//! appends does not depend on what the buffer already holds.

use vstd::prelude::*;
use crate::builders::{element_prefix, field_header};
use crate::escape::json_string;
use crate::numbers::{dec_digits, hex_digits, hex_digits_fixed, int32_digits};

verus! {

/// One encoding operation, abstracted to the arguments that determine the
/// bytes it appends. Each variant stands for one mutating call of the
/// encoder or of a builder, with `op_bytes` giving exactly the sequence
/// that call's contract appends.
pub enum EncodeOp {
    /// `encode_raw(b)`.
    Raw(Seq<u8>),
    /// `encode_raw_around(c, b)`.
    RawAround(u8, Seq<u8>),
    /// `encode_str_noescape(s)`, with `s`'s bytes.
    StrNoescape(Seq<u8>),
    /// `encode_str(s)` or `encode_str2(s)`, with `s`'s bytes.
    Str(Seq<u8>),
    /// `encode_decimal_str(v)`.
    DecimalStr(u64),
    /// `encode_u32(v)`.
    U32(u32),
    /// `encode_i32(v)`.
    I32(i32),
    /// `encode_hex_u32(v)`.
    HexU32(u32),
    /// `encode_hex_u32_fast(v)`.
    HexU32Fixed(u32),
    /// Opening an object scope.
    ObjOpen,
    /// Starting a field: whether it is the first of its object, and the
    /// name's bytes.
    Field(bool, Seq<u8>),
    /// Closing an object scope.
    ObjEnd,
    /// Opening an array scope.
    VecOpen,
    /// Starting an element: whether it is the first of its array.
    Element(bool),
    /// Closing an array scope.
    VecEnd,
}

/// The bytes one operation appends, matching the `ensures` of the
/// corresponding executable call.
pub open spec fn op_bytes(op: EncodeOp) -> Seq<u8> {
    match op {
        EncodeOp::Raw(b) => b,
        EncodeOp::RawAround(c, b) => seq![c] + b + seq![c],
        EncodeOp::StrNoescape(b) => seq![34u8] + b + seq![34u8],
        EncodeOp::Str(b) => json_string(b),
        EncodeOp::DecimalStr(v) => seq![34u8] + dec_digits(v as nat) + seq![34u8],
        EncodeOp::U32(v) => dec_digits(v as nat),
        EncodeOp::I32(v) => int32_digits(v),
        EncodeOp::HexU32(v) => hex_digits(v as nat),
        EncodeOp::HexU32Fixed(v) => hex_digits_fixed(v as nat, 8),
        EncodeOp::ObjOpen => seq![123u8],
        EncodeOp::Field(first, name) => field_header(first, name),
        EncodeOp::ObjEnd => seq![125u8],
        EncodeOp::VecOpen => seq![91u8],
        EncodeOp::Element(first) => element_prefix(first),
        EncodeOp::VecEnd => seq![93u8],
    }
}

/// The buffer contents after replaying `ops` over initial contents `init`.
pub open spec fn replay(ops: Seq<EncodeOp>, init: Seq<u8>) -> Seq<u8>
    decreases ops.len(),
{
    if ops.len() == 0 {
        init
    } else {
        replay(ops.skip(1), init + op_bytes(ops[0]))
    }
}

/// LAW: the bytes a sequence of operations appends depend only on the
/// operations, never on what the buffer already holds.
///
/// In particular: an encoder that was cleared, a fresh one, and one created
/// with any capacity hint all hold the empty sequence, so running the same
/// operations on any of them produces byte-identical output; and the same
/// operations replayed after earlier output simply append that same output.
pub proof fn lemma_output_depends_only_on_ops(ops: Seq<EncodeOp>, init: Seq<u8>)
    ensures
        replay(ops, init) == init + replay(ops, Seq::<u8>::empty()),
    decreases ops.len(),
{
    if ops.len() == 0 {
        assert(init + Seq::<u8>::empty() =~= init);
    } else {
        let rest = ops.skip(1);
        let head = op_bytes(ops[0]);
        lemma_output_depends_only_on_ops(rest, init + head);
        lemma_output_depends_only_on_ops(rest, Seq::<u8>::empty() + head);
        assert(Seq::<u8>::empty() + head =~= head);
        assert((init + head) + replay(rest, Seq::<u8>::empty()) =~= init + (head + replay(
            rest,
            Seq::<u8>::empty(),
        )));
    }
}

} // verus!
