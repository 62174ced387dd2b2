//! Structural builders: scoped handles that enforce the JSON grammar while
//! writing objects and arrays.
//!
//! A builder exclusively borrows the encoder between its opening call and
//! its terminal `end` call, so the borrow checker enforces the stack
//! discipline: a nested builder must be finished before its parent can be
//! used again. Each builder carries an element counter used only to decide
//! whether a separating comma is due.

use vstd::prelude::*;
use vstd::string::StringSliceAdditionalSpecFns;
use crate::encoder::{JsonEncodable, JsonEncoder};
use crate::escape::json_string;

verus! {

/// The bytes that introduce an object field: a separating comma unless the
/// field is the first, then the name between quotes, then a colon. The name
/// is written raw, not escaped; the caller guarantees it contains no byte
/// that needs escaping (field names are normally static literals).
pub open spec fn field_header(first: bool, name: Seq<u8>) -> Seq<u8> {
    (if first {
        Seq::<u8>::empty()
    } else {
        seq![44u8]
    }) + seq![34u8] + name + seq![34u8, 58u8]
}

/// The bytes that introduce an array element: a separating comma unless the
/// element is the first.
pub open spec fn element_prefix(first: bool) -> Seq<u8> {
    if first {
        Seq::<u8>::empty()
    } else {
        seq![44u8]
    }
}

/// Writes the bytes that introduce a field, `field_header`, straight
/// through the encoder.
pub(crate) fn push_field_header(js: &mut JsonEncoder, first: bool, name: &str)
    ensures
        final(js)@ == old(js)@ + field_header(first, name.spec_bytes()),
{
    if !first {
        js.push_byte(44);
    }
    js.push_byte(34);
    js.encode_raw(name.as_bytes());
    js.push_byte(34);
    js.push_byte(58);
    proof {
        assert(js@ =~= old(js)@ + field_header(first, name.spec_bytes()));
    }
}

/// An open JSON object scope. Created by an opening call that writes `{`;
/// its terminal `end` call writes `}` and gives the encoder back.
pub struct JsonObj<'a> {
    pub js: &'a mut JsonEncoder,
    pub elm_count: usize,
}

/// A one-shot slot for exactly one JSON value, issued for an object field
/// or an array element. It is consumed by writing a primitive value or by
/// opening a nested object or array in its place.
pub struct JsonVal<'a> {
    pub js: &'a mut JsonEncoder,
}

/// An open JSON array scope. Created by an opening call that writes `[`;
/// its terminal `end` call writes `]` and gives the encoder back.
pub struct JsonVec<'a> {
    pub js: &'a mut JsonEncoder,
    pub elm_count: usize,
}

/// A capture of an open array's element count and buffer position. Rolling
/// back to it discards every byte written since it was taken. It is valid
/// only while no other builder scope has opened or closed on the encoder in
/// between.
pub struct JsonVecSnapshot {
    pub elm_count: usize,
    pub pos: usize,
}

impl JsonEncoder {
    /// Opens an object at the top level: writes `{` and returns the object
    /// builder, which borrows this encoder until its `end` call.
    pub fn obj<'a>(&'a mut self) -> (o: JsonObj<'a>)
        ensures
            o.js@ == old(self)@ + seq![123u8],
            o.elm_count == 0,
            *final(self) == *final(o.js),
    {
        JsonObj::open(self)
    }

    /// Opens an array at the top level: writes `[` and returns the array
    /// builder, which borrows this encoder until its `end` call.
    pub fn vec<'a>(&'a mut self) -> (v: JsonVec<'a>)
        ensures
            v.js@ == old(self)@ + seq![91u8],
            v.elm_count == 0,
            *final(self) == *final(v.js),
    {
        JsonVec::open(self)
    }

    /// One object with one string-valued field, as a standalone byte
    /// vector.
    pub fn obj_single_str_field(name: &str, s: &str) -> (v: Vec<u8>)
        ensures
            v@ == seq![123u8] + field_header(true, name.spec_bytes()) + json_string(
                s.spec_bytes(),
            ) + seq![125u8],
    {
        let capa = name.len().saturating_add(s.len()).saturating_add(7);
        let mut js = JsonEncoder::with_capacity(capa);
        let mut obj = js.obj();
        obj.field(name).value(s);
        obj.end();
        proof {
            assert(js@ =~= seq![123u8] + field_header(true, name.spec_bytes()) + json_string(
                s.spec_bytes(),
            ) + seq![125u8]);
        }
        js.into_vec()
    }
}

impl<'a> JsonObj<'a> {
    fn open<'b>(js: &'b mut JsonEncoder) -> (o: JsonObj<'b>)
        ensures
            o.js@ == old(js)@ + seq![123u8],
            o.elm_count == 0,
            *final(js) == *final(o.js),
    {
        js.push_byte(123);
        proof {
            assert(js@ =~= old(js)@ + seq![123u8]);
        }
        JsonObj { js, elm_count: 0 }
    }

    /// Starts the next field: writes a comma when fields came before, then
    /// the raw name between quotes and a colon, and returns the one-shot
    /// slot for the field's value. The name is not escaped; the caller
    /// guarantees it contains no byte that needs escaping.
    pub fn field<'b>(&'b mut self, name: &str) -> (v: JsonVal<'b>)
        requires
            old(self).elm_count < usize::MAX,
        ensures
            v.js@ == old(self.js)@ + field_header(old(self).elm_count == 0, name.spec_bytes()),
            final(self).elm_count == old(self).elm_count + 1,
            old(final(self).js)@ == final(v.js)@,
            *final(final(self).js) == *final(old(self).js),
    {
        let first = self.elm_count == 0;
        push_field_header(self.js, first, name);
        self.elm_count = self.elm_count + 1;
        JsonVal { js: self.js }
    }

    /// Closes the object: writes `}` and releases the encoder.
    pub fn end(self)
        ensures
            final(self.js)@ == old(self.js)@ + seq![125u8],
    {
        self.js.push_byte(125);
        proof {
            assert(old(self.js)@.push(125u8) =~= old(self.js)@ + seq![125u8]);
        }
    }
}

impl<'a> JsonVal<'a> {
    /// Consumes the slot by writing one primitive value.
    pub fn value<T: JsonEncodable>(self, val: T)
        ensures
            final(self.js)@ == old(self.js)@ + val.json_bytes(),
    {
        val.encode(self.js);
    }

    /// Consumes the slot by opening a nested object in its place.
    pub fn obj(self) -> (o: JsonObj<'a>)
        ensures
            o.js@ == old(self.js)@ + seq![123u8],
            o.elm_count == 0,
            *final(self.js) == *final(o.js),
    {
        JsonObj::open(self.js)
    }

    /// Consumes the slot by opening a nested array in its place.
    pub fn vec(self) -> (v: JsonVec<'a>)
        ensures
            v.js@ == old(self.js)@ + seq![91u8],
            v.elm_count == 0,
            *final(self.js) == *final(v.js),
    {
        JsonVec::open(self.js)
    }
}

impl<'a> JsonVec<'a> {
    fn open<'b>(js: &'b mut JsonEncoder) -> (v: JsonVec<'b>)
        ensures
            v.js@ == old(js)@ + seq![91u8],
            v.elm_count == 0,
            *final(js) == *final(v.js),
    {
        js.push_byte(91);
        proof {
            assert(js@ =~= old(js)@ + seq![91u8]);
        }
        JsonVec { js, elm_count: 0 }
    }

    /// Captures the element count and the buffer position, so that
    /// everything written after this point can be discarded by `rollback`.
    pub fn snapshot(&self) -> (s: JsonVecSnapshot)
        ensures
            s.elm_count == self.elm_count,
            s.pos == old(self.js)@.len(),
    {
        JsonVecSnapshot { elm_count: self.elm_count, pos: self.js.byte_len() }
    }

    /// Restores the element count and truncates the buffer back to the
    /// captured position, discarding all bytes written since the snapshot
    /// was taken.
    pub fn rollback(&mut self, snapshot: JsonVecSnapshot)
        requires
            snapshot.pos <= old(self.js)@.len(),
        ensures
            final(self).elm_count == snapshot.elm_count,
            old(final(self).js)@ == old(self.js)@.subrange(0, snapshot.pos as int),
            *final(final(self).js) == *final(old(self).js),
    {
        self.elm_count = snapshot.elm_count;
        self.js.truncate_to(snapshot.pos);
    }

    /// Starts the next element: writes a comma when elements came before,
    /// and returns the one-shot slot for the element's value.
    pub fn element<'b>(&'b mut self) -> (v: JsonVal<'b>)
        requires
            old(self).elm_count < usize::MAX,
        ensures
            v.js@ == old(self.js)@ + element_prefix(old(self).elm_count == 0),
            final(self).elm_count == old(self).elm_count + 1,
            old(final(self).js)@ == final(v.js)@,
            *final(final(self).js) == *final(old(self).js),
    {
        if self.elm_count > 0 {
            self.js.push_byte(44);
        }
        self.elm_count = self.elm_count + 1;
        proof {
            assert(self.js@ =~= old(self.js)@ + element_prefix(old(self).elm_count == 0));
        }
        JsonVal { js: self.js }
    }

    /// Starts the next element and writes `val` into it.
    pub fn element_with_value<T: JsonEncodable>(&mut self, val: T)
        requires
            old(self).elm_count < usize::MAX,
        ensures
            final(self).elm_count == old(self).elm_count + 1,
            old(final(self).js)@ == old(self.js)@ + element_prefix(old(self).elm_count == 0)
                + val.json_bytes(),
            *final(final(self).js) == *final(old(self).js),
    {
        let v = self.element();
        v.value(val);
    }

    /// Closes the array: writes `]` and releases the encoder.
    pub fn end(self)
        ensures
            final(self.js)@ == old(self.js)@ + seq![93u8],
    {
        self.js.push_byte(93);
        proof {
            assert(old(self.js)@.push(93u8) =~= old(self.js)@ + seq![93u8]);
        }
    }
}

} // verus!
