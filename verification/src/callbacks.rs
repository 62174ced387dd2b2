//! Callback-scoped encoders: an object or array scope handed to a closure,
//! which fills it through the encoder it wraps.
//!
//! The contracts bind the closure's argument and frame: the scope the
//! closure receives starts right after the opening byte with no separator
//! due, and the closing byte follows exactly what was written through the
//! scope. What stands between is given by the closure's own contract,
//! through `call_ensures`.

use vstd::prelude::*;
use vstd::string::StringSliceAdditionalSpecFns;
use crate::builders::{element_prefix, field_header, push_field_header, JsonObj};
use crate::encoder::JsonEncoder;
use crate::escape::json_string;
use crate::numbers::int32_digits;

verus! {

/// An object scope handed to a callback: wraps the encoder and tracks
/// whether a separating comma is due before the next field.
pub struct JsonObjectEncoder<'a> {
    pub js: &'a mut JsonEncoder,
    pub needs_sep: bool,
}

/// An array scope handed to a callback: wraps the encoder and tracks
/// whether a separating comma is due before the next element.
pub struct JsonArrayEncoder<'a> {
    pub js: &'a mut JsonEncoder,
    pub needs_sep: bool,
}

impl JsonEncoder {
    /// Writes `{`, lets `f` fill the object through a callback scope, then
    /// writes `}`. Returns what `f` returned: the scope `f` received held
    /// exactly the output so far plus the opening brace, and the closing
    /// brace follows everything written through that scope.
    pub fn encode_obj<F: FnOnce(&mut JsonObjectEncoder) -> T, T>(&mut self, f: F) -> (t: T)
        requires
            forall|o: &mut JsonObjectEncoder| call_requires(f, (o,)),
        ensures
            exists|o: &mut JsonObjectEncoder|
                {
                    &&& #[trigger] call_ensures(f, (o,), t)
                    &&& o.needs_sep == false
                    &&& o.js@ == old(self)@ + seq![123u8]
                    &&& final(self)@ == final(o.js)@ + seq![125u8]
                },
    {
        self.push_byte(123);
        let mut jso = JsonObjectEncoder { js: self, needs_sep: false };
        let t = f(&mut jso);
        self.push_byte(125);
        t
    }

    /// Writes `[`, lets `f` fill the array through a callback scope, then
    /// writes `]`. Returns what `f` returned.
    pub fn encode_array<F: FnOnce(&mut JsonArrayEncoder) -> T, T>(&mut self, f: F) -> (t: T)
        requires
            forall|a: &mut JsonArrayEncoder| call_requires(f, (a,)),
        ensures
            exists|a: &mut JsonArrayEncoder|
                {
                    &&& #[trigger] call_ensures(f, (a,), t)
                    &&& a.needs_sep == false
                    &&& a.js@ == old(self)@ + seq![91u8]
                    &&& final(self)@ == final(a.js)@ + seq![93u8]
                },
    {
        self.push_byte(91);
        let mut jsa = JsonArrayEncoder { js: self, needs_sep: false };
        let t = f(&mut jsa);
        self.push_byte(93);
        t
    }

    /// Lets `f` write comma-separated elements through an array scope
    /// without surrounding brackets.
    pub fn encode_array_nobrackets<F: FnOnce(&mut JsonArrayEncoder) -> T, T>(
        &mut self,
        f: F,
    ) -> (t: T)
        requires
            forall|a: &mut JsonArrayEncoder| call_requires(f, (a,)),
        ensures
            exists|a: &mut JsonArrayEncoder|
                {
                    &&& #[trigger] call_ensures(f, (a,), t)
                    &&& a.needs_sep == false
                    &&& a.js@ == old(self)@
                    &&& final(self)@ == final(a.js)@
                },
    {
        let mut jsa = JsonArrayEncoder { js: self, needs_sep: false };
        f(&mut jsa)
    }
}

impl<'a> JsonObjectEncoder<'a> {
    /// Direct access to the encoder this scope wraps.
    pub fn get_json_encoder<'b>(&'b mut self) -> (r: &'b mut JsonEncoder)
        ensures
            r@ == old(self.js)@,
            final(self).needs_sep == old(self).needs_sep,
            old(final(self).js)@ == final(r)@,
            *final(final(self).js) == *final(old(self).js),
    {
        self.js
    }

    /// The same open object scope as a handle-style builder.
    pub fn to_json_obj<'b>(&'b mut self) -> (o: JsonObj<'b>)
        ensures
            o.js@ == old(self.js)@,
            o.elm_count == (if old(self).needs_sep {
                1usize
            } else {
                0usize
            }),
            final(self).needs_sep == old(self).needs_sep,
            old(final(self).js)@ == final(o.js)@,
            *final(final(self).js) == *final(old(self).js),
    {
        if self.needs_sep {
            JsonObj { js: self.js, elm_count: 1 }
        } else {
            JsonObj { js: self.js, elm_count: 0 }
        }
    }

    /// Starts the next field and lets `f` write its value straight through
    /// the encoder. The name is not escaped; the caller guarantees it
    /// contains no byte that needs escaping.
    pub fn encode_field<F: FnOnce(&mut JsonEncoder) -> T, T>(&mut self, name: &str, f: F) -> (t: T)
        requires
            forall|e: &mut JsonEncoder| call_requires(f, (e,)),
        ensures
            exists|e: &mut JsonEncoder|
                {
                    &&& #[trigger] call_ensures(f, (e,), t)
                    &&& e@ == old(self.js)@ + field_header(
                        !old(self).needs_sep,
                        name.spec_bytes(),
                    )
                    &&& final(self).needs_sep == true
                    &&& old(final(self).js)@ == final(e)@
                    &&& *final(final(self).js) == *final(old(self).js)
                },
    {
        if self.needs_sep {
            push_field_header(self.js, false, name);
        } else {
            push_field_header(self.js, true, name);
            self.needs_sep = true;
        }
        f(self.js)
    }

    /// Starts the next field and lets `f` fill an array in its place.
    pub fn encode_field_array<F: FnOnce(&mut JsonArrayEncoder) -> T, T>(
        &mut self,
        name: &str,
        f: F,
    ) -> (t: T)
        requires
            forall|a: &mut JsonArrayEncoder| call_requires(f, (a,)),
        ensures
            exists|a: &mut JsonArrayEncoder|
                {
                    &&& #[trigger] call_ensures(f, (a,), t)
                    &&& a.needs_sep == false
                    &&& a.js@ == old(self.js)@ + field_header(
                        !old(self).needs_sep,
                        name.spec_bytes(),
                    ) + seq![91u8]
                    &&& final(self).needs_sep == true
                    &&& old(final(self).js)@ == final(a.js)@ + seq![93u8]
                    &&& *final(final(self).js) == *final(old(self).js)
                },
    {
        if self.needs_sep {
            push_field_header(self.js, false, name);
        } else {
            push_field_header(self.js, true, name);
            self.needs_sep = true;
        }
        self.js.encode_array(f)
    }

    /// Starts the next field and lets `f` fill an object in its place.
    pub fn encode_field_obj<F: FnOnce(&mut JsonObjectEncoder) -> T, T>(
        &mut self,
        name: &str,
        f: F,
    ) -> (t: T)
        requires
            forall|o: &mut JsonObjectEncoder| call_requires(f, (o,)),
        ensures
            exists|o: &mut JsonObjectEncoder|
                {
                    &&& #[trigger] call_ensures(f, (o,), t)
                    &&& o.needs_sep == false
                    &&& o.js@ == old(self.js)@ + field_header(
                        !old(self).needs_sep,
                        name.spec_bytes(),
                    ) + seq![123u8]
                    &&& final(self).needs_sep == true
                    &&& old(final(self).js)@ == final(o.js)@ + seq![125u8]
                    &&& *final(final(self).js) == *final(old(self).js)
                },
    {
        if self.needs_sep {
            push_field_header(self.js, false, name);
        } else {
            push_field_header(self.js, true, name);
            self.needs_sep = true;
        }
        self.js.encode_obj(f)
    }

    /// Writes one integer-valued field.
    pub fn encode_field_i32(&mut self, name: &str, val: i32)
        ensures
            final(self).needs_sep == true,
            old(final(self).js)@ == old(self.js)@ + field_header(
                !old(self).needs_sep,
                name.spec_bytes(),
            ) + int32_digits(val),
            *final(final(self).js) == *final(old(self).js),
    {
        if self.needs_sep {
            push_field_header(self.js, false, name);
        } else {
            push_field_header(self.js, true, name);
            self.needs_sep = true;
        }
        self.js.encode_i32(val);
    }

    /// Writes one string-valued field, escaping the value.
    pub fn encode_field_str(&mut self, name: &str, s: &str)
        ensures
            final(self).needs_sep == true,
            old(final(self).js)@ == old(self.js)@ + field_header(
                !old(self).needs_sep,
                name.spec_bytes(),
            ) + json_string(s.spec_bytes()),
            *final(final(self).js) == *final(old(self).js),
    {
        if self.needs_sep {
            push_field_header(self.js, false, name);
        } else {
            push_field_header(self.js, true, name);
            self.needs_sep = true;
        }
        self.js.encode_str(s);
    }
}

impl<'a> JsonArrayEncoder<'a> {
    /// Starts the next element and lets `f` write its value straight
    /// through the encoder.
    pub fn encode_elm<F: FnOnce(&mut JsonEncoder) -> T, T>(&mut self, f: F) -> (t: T)
        requires
            forall|e: &mut JsonEncoder| call_requires(f, (e,)),
        ensures
            exists|e: &mut JsonEncoder|
                {
                    &&& #[trigger] call_ensures(f, (e,), t)
                    &&& e@ == old(self.js)@ + element_prefix(!old(self).needs_sep)
                    &&& final(self).needs_sep == true
                    &&& old(final(self).js)@ == final(e)@
                    &&& *final(final(self).js) == *final(old(self).js)
                },
    {
        if self.needs_sep {
            self.js.push_byte(44);
            proof {
                assert(self.js@ =~= old(self.js)@ + element_prefix(!old(self).needs_sep));
            }
        } else {
            self.needs_sep = true;
            proof {
                assert(self.js@ =~= old(self.js)@ + element_prefix(!old(self).needs_sep));
            }
        }
        f(self.js)
    }

    /// Writes one integer element.
    pub fn encode_elm_i32(&mut self, val: i32)
        ensures
            final(self).needs_sep == true,
            old(final(self).js)@ == old(self.js)@ + element_prefix(!old(self).needs_sep)
                + int32_digits(val),
            *final(final(self).js) == *final(old(self).js),
    {
        if self.needs_sep {
            self.js.push_byte(44);
        } else {
            self.needs_sep = true;
        }
        self.js.encode_i32(val);
        proof {
            assert(old(self.js)@ + element_prefix(!old(self).needs_sep) + int32_digits(val)
                =~= if old(self).needs_sep {
                    old(self.js)@.push(44u8) + int32_digits(val)
                } else {
                    old(self.js)@ + int32_digits(val)
                });
        }
    }

    /// Writes one string element, escaping the value.
    pub fn encode_elm_str(&mut self, s: &str)
        ensures
            final(self).needs_sep == true,
            old(final(self).js)@ == old(self.js)@ + element_prefix(!old(self).needs_sep)
                + json_string(s.spec_bytes()),
            *final(final(self).js) == *final(old(self).js),
    {
        if self.needs_sep {
            self.js.push_byte(44);
        } else {
            self.needs_sep = true;
        }
        self.js.encode_str(s);
        proof {
            assert(old(self.js)@ + element_prefix(!old(self).needs_sep) + json_string(
                s.spec_bytes(),
            ) =~= if old(self).needs_sep {
                old(self.js)@.push(44u8) + json_string(s.spec_bytes())
            } else {
                old(self.js)@ + json_string(s.spec_bytes())
            });
        }
    }

    /// Starts the next element and lets `f` fill an object in its place.
    pub fn encode_elm_obj<F: FnOnce(&mut JsonObjectEncoder) -> T, T>(&mut self, f: F) -> (t: T)
        requires
            forall|o: &mut JsonObjectEncoder| call_requires(f, (o,)),
        ensures
            exists|o: &mut JsonObjectEncoder|
                {
                    &&& #[trigger] call_ensures(f, (o,), t)
                    &&& o.needs_sep == false
                    &&& o.js@ == old(self.js)@ + element_prefix(!old(self).needs_sep) + seq![123u8]
                    &&& final(self).needs_sep == true
                    &&& old(final(self).js)@ == final(o.js)@ + seq![125u8]
                    &&& *final(final(self).js) == *final(old(self).js)
                },
    {
        if self.needs_sep {
            self.js.push_byte(44);
        } else {
            self.needs_sep = true;
        }
        self.js.encode_obj(f)
    }
}

} // verus!
