//! The encoder: appends the wire form of each value to a byte stream.

use crate::common::{CODE_INT16, CODE_INT32, CODE_INT64, CODE_NEG_INT8};
use crate::endian::{lemma_radix_values, push_le, twos_complemented};
use crate::error::BPErr;
use crate::wire::{
    bool_bytes, char_bytes, float_bytes, int_bytes, nat0_bytes, none_bytes, some_bytes, str_bytes,
    unit_bytes,
};
use vstd::prelude::*;

verus! {

/// An encoder over a byte stream held in memory. Its view is the stream:
/// every byte written so far, oldest first.
pub struct BPSerializer {
    writer: Vec<u8>,
}

impl View for BPSerializer {
    type V = Seq<u8>;

    closed spec fn view(&self) -> Seq<u8> {
        self.writer@
    }
}

impl BPSerializer {
    /// An encoder that appends to the stream `w`.
    pub fn new(w: Vec<u8>) -> (s: Self)
        ensures
            s@ == w@,
    {
        BPSerializer { writer: w }
    }

    /// Gives the stream back, with all that was written to it.
    pub fn into_inner(self) -> (w: Vec<u8>)
        ensures
            w@ == self@,
    {
        self.writer
    }

    /// Writes the unsigned magnitude `v`, as lengths are written.
    pub fn serialize_nat0(&mut self, v: u64) -> (r: Result<(), std::io::Error>)
        ensures
            r is Ok,
            final(self)@ == old(self)@ + nat0_bytes(v as nat),
    {
        if v < 0x80 {
            self.writer.push(v as u8);
        } else if v < 0x1_0000 {
            self.writer.push(CODE_INT16);
            push_le(&mut self.writer, v, 2);
        } else if v < 0x1_0000_0000 {
            self.writer.push(CODE_INT32);
            push_le(&mut self.writer, v, 4);
        } else {
            self.writer.push(CODE_INT64);
            push_le(&mut self.writer, v, 8);
        }
        Ok(())
    }

    /// Writes the signed integer `v`.
    pub fn serialize_i64(&mut self, v: i64) -> (r: Result<(), BPErr>)
        ensures
            r is Ok,
            final(self)@ == old(self)@ + int_bytes(v as int),
    {
        proof {
            lemma_radix_values();
        }
        if 0 <= v && v < 0x80 {
            self.writer.push(v as u8);
        } else if -0x80 <= v && v < 0 {
            self.writer.push(CODE_NEG_INT8);
            push_le(&mut self.writer, twos_complemented(v, 1), 1);
        } else if -0x8000 <= v && v < 0x8000 {
            self.writer.push(CODE_INT16);
            push_le(&mut self.writer, twos_complemented(v, 2), 2);
        } else if -0x8000_0000 <= v && v < 0x8000_0000 {
            self.writer.push(CODE_INT32);
            push_le(&mut self.writer, twos_complemented(v, 4), 4);
        } else {
            self.writer.push(CODE_INT64);
            push_le(&mut self.writer, twos_complemented(v, 8), 8);
        }
        Ok(())
    }

    /// Writes a boolean.
    pub fn serialize_bool(&mut self, v: bool) -> (r: Result<(), BPErr>)
        ensures
            r is Ok,
            final(self)@ == old(self)@ + bool_bytes(v),
    {
        let b: u8 = if v { 1 } else { 0 };
        self.writer.push(b);
        Ok(())
    }

    /// Writes an 8-bit signed integer, as every signed integer is written.
    pub fn serialize_i8(&mut self, v: i8) -> (r: Result<(), BPErr>)
        ensures
            r is Ok,
            final(self)@ == old(self)@ + int_bytes(v as int),
    {
        self.serialize_i64(v as i64)
    }

    /// Writes a 16-bit signed integer, as every signed integer is written.
    pub fn serialize_i16(&mut self, v: i16) -> (r: Result<(), BPErr>)
        ensures
            r is Ok,
            final(self)@ == old(self)@ + int_bytes(v as int),
    {
        self.serialize_i64(v as i64)
    }

    /// Writes a 32-bit signed integer, as every signed integer is written.
    pub fn serialize_i32(&mut self, v: i32) -> (r: Result<(), BPErr>)
        ensures
            r is Ok,
            final(self)@ == old(self)@ + int_bytes(v as int),
    {
        self.serialize_i64(v as i64)
    }

    /// The format has no unsigned scalars: always the unsupported-operation
    /// fault, and nothing is written.
    pub fn serialize_u8(&mut self, _v: u8) -> (r: Result<(), BPErr>)
        ensures
            r matches Err(BPErr::NotSpecified),
            final(self)@ == old(self)@,
    {
        Err(BPErr::NotSpecified)
    }

    /// The format has no unsigned scalars: always the unsupported-operation
    /// fault, and nothing is written.
    pub fn serialize_u16(&mut self, _v: u16) -> (r: Result<(), BPErr>)
        ensures
            r matches Err(BPErr::NotSpecified),
            final(self)@ == old(self)@,
    {
        Err(BPErr::NotSpecified)
    }

    /// The format has no unsigned scalars: always the unsupported-operation
    /// fault, and nothing is written.
    pub fn serialize_u32(&mut self, _v: u32) -> (r: Result<(), BPErr>)
        ensures
            r matches Err(BPErr::NotSpecified),
            final(self)@ == old(self)@,
    {
        Err(BPErr::NotSpecified)
    }

    /// The format has no unsigned scalars: always the unsupported-operation
    /// fault, and nothing is written.
    pub fn serialize_u64(&mut self, _v: u64) -> (r: Result<(), BPErr>)
        ensures
            r matches Err(BPErr::NotSpecified),
            final(self)@ == old(self)@,
    {
        Err(BPErr::NotSpecified)
    }

    /// Writes a 64-bit float, given by its IEEE-754 bit pattern.
    pub fn serialize_f64(&mut self, bits: u64) -> (r: Result<(), BPErr>)
        ensures
            r is Ok,
            final(self)@ == old(self)@ + float_bytes(bits),
    {
        push_le(&mut self.writer, bits, 8);
        Ok(())
    }

    /// Writes an ASCII character. Any other character has no wire form: it
    /// is refused and nothing is written.
    pub fn serialize_char(&mut self, v: char) -> (r: Result<(), BPErr>)
        ensures
            match r {
                Ok(_) => (v as u32) < 0x80 && final(self)@ == old(self)@ + char_bytes(v),
                Err(e) => (v as u32) >= 0x80 && e is NonAsciiChar && final(self)@ == old(self)@,
            },
    {
        let code = v as u32;
        if code < 0x80 {
            self.writer.push(code as u8);
            Ok(())
        } else {
            Err(BPErr::NonAsciiChar)
        }
    }

    /// Writes text: the length of its UTF-8 form, then the UTF-8 form.
    pub fn serialize_str(&mut self, v: &str) -> (r: Result<(), BPErr>)
        ensures
            r is Ok,
            final(self)@ == old(self)@ + str_bytes(v@),
    {
        let bytes = v.as_bytes();
        match self.serialize_nat0(bytes.len() as u64) {
            Ok(()) => {},
            Err(e) => {
                return Err(BPErr::from(e));
            },
        }
        self.writer.extend_from_slice(bytes);
        Ok(())
    }

    /// Raw byte buffers have no wire form: always the unsupported-operation
    /// fault, and nothing is written.
    pub fn serialize_bytes(&mut self, _v: &[u8]) -> (r: Result<(), BPErr>)
        ensures
            r matches Err(BPErr::NotSpecified),
            final(self)@ == old(self)@,
    {
        Err(BPErr::NotSpecified)
    }

    /// Writes the tag of an absent value.
    pub fn serialize_none(&mut self) -> (r: Result<(), BPErr>)
        ensures
            r is Ok,
            final(self)@ == old(self)@ + none_bytes(),
    {
        self.writer.push(0x00);
        Ok(())
    }

    /// Writes the tag of a present value. The value itself is written next,
    /// by the call that fits its kind.
    pub fn serialize_some(&mut self) -> (r: Result<(), BPErr>)
        ensures
            r is Ok,
            final(self)@ == old(self)@ + some_bytes(Seq::empty()),
    {
        self.writer.push(0x01);
        Ok(())
    }

    /// Writes the unit value.
    pub fn serialize_unit(&mut self) -> (r: Result<(), BPErr>)
        ensures
            r is Ok,
            final(self)@ == old(self)@ + unit_bytes(),
    {
        self.writer.push(0x00);
        Ok(())
    }

    /// Writes a named type without fields as the unit value is written; the
    /// name is not on the wire.
    pub fn serialize_unit_struct(&mut self, _name: &'static str) -> (r: Result<(), BPErr>)
        ensures
            r is Ok,
            final(self)@ == old(self)@ + unit_bytes(),
    {
        self.serialize_unit()
    }
}

} // verus!
