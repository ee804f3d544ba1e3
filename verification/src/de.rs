//! The decoder: reads the wire form of each value off a byte stream.

use crate::common::{int_payload_len, nat0_payload_len};
use crate::endian::{le_value, lemma_le_value_bound, read_le, sign_extended};
use crate::error::{BPErr, Fault};
use crate::std_specs::unexpected_eof;
use crate::wire::{
    parse_bool, parse_byte, parse_char, parse_float, parse_int, parse_int_within, parse_len,
    parse_nat0, parse_presence, parse_str, parse_unit, Parsed,
};
use vstd::prelude::*;
use vstd::slice::slice_subrange;
use vstd::utf8::encode_utf8_decode_utf8;

verus! {

/// A decoder over a byte stream held in memory. Its view is the stream:
/// the bytes not yet consumed, next one first. Bytes are consumed as they
/// are read: a byte that is read and then refused is gone like any other.
/// Where the stream ends before a value does, the read is a stream fault,
/// and what is left is some tail of what was there.
pub struct BPDeserializer {
    reader: Vec<u8>,
    pos: usize,
}

impl View for BPDeserializer {
    type V = Seq<u8>;

    closed spec fn view(&self) -> Seq<u8> {
        self.reader@.skip(self.pos as int)
    }
}

impl BPDeserializer {
    #[verifier::type_invariant]
    spec fn in_bounds(&self) -> bool {
        self.pos <= self.reader.len()
    }

    /// A decoder that reads `reader` from its first byte.
    pub fn new(reader: Vec<u8>) -> (d: Self)
        ensures
            d@ == reader@,
    {
        BPDeserializer { reader, pos: 0 }
    }

    /// The number of bytes not yet consumed.
    pub fn remaining(&self) -> (n: usize)
        ensures
            n == self@.len(),
    {
        proof {
            use_type_invariant(self);
        }
        self.reader.len() - self.pos
    }

    /// The stream fault for an input that ends too early.
    fn truncated() -> (e: BPErr)
        ensures
            e is IoErr,
    {
        BPErr::from(unexpected_eof())
    }

    /// Consumes the next `used` bytes.
    fn advance(&mut self, used: usize)
        requires
            used <= old(self)@.len(),
        ensures
            final(self)@ == old(self)@.skip(used as int),
    {
        proof {
            use_type_invariant(&*self);
        }
        self.pos = self.pos + used;
    }

    /// Reads the number that the next `width` bytes spell, least significant
    /// byte first. Where fewer are left it fails and takes none.
    fn take_le(&mut self, width: usize) -> (r: Result<u64, BPErr>)
        requires
            width <= 8,
        ensures
            match r {
                Ok(v) => width <= old(self)@.len() && v == le_value(
                    old(self)@.subrange(0, width as int),
                ) && final(self)@ == old(self)@.skip(width as int),
                Err(e) => old(self)@.len() < width && e@ == Fault::Stream && final(self)@ == old(
                    self,
                )@,
            },
    {
        if self.remaining() < width {
            return Err(Self::truncated());
        }
        proof {
            use_type_invariant(&*self);
            assert(self@.subrange(0, width as int) =~= self.reader@.subrange(
                self.pos as int,
                self.pos + width,
            ));
        }
        let v = read_le(self.reader.as_slice(), self.pos, width);
        self.advance(width);
        Ok(v)
    }

    /// Reads an unsigned magnitude of any size the format holds: the first
    /// byte, then the payload that it announces.
    fn read_magnitude(&mut self) -> (r: Result<u64, BPErr>)
        ensures
            match parse_nat0(old(self)@) {
                Parsed::Value(v, used) => r matches Ok(x) && x == v && final(self)@ == old(self)@.skip(
                    used as int,
                ),
                Parsed::Refused(fault, used) => r matches Err(e) && e@ == fault && final(self)@
                    == old(self)@.skip(used as int),
                Parsed::Short => r matches Err(e) && e@ == Fault::Stream && final(self)@.is_suffix_of(
                    old(self)@,
                ),
            },
    {
        let first = match self.read_byte() {
            Ok(b) => b,
            Err(e) => {
                return Err(e);
            },
        };
        let width = nat0_payload_len(first);
        if width == 0 {
            return Ok(first as u64);
        }
        proof {
            if width <= self@.len() {
                assert(self@.subrange(0, width as int) =~= old(self)@.subrange(1, 1 + width));
                assert(self@.skip(width as int) =~= old(self)@.skip(1 + width));
            }
        }
        self.take_le(width)
    }

    /// Reads one raw byte.
    pub fn read_byte(&mut self) -> (r: Result<u8, BPErr>)
        ensures
            match parse_byte(old(self)@) {
                Parsed::Value(v, used) => r == Ok::<u8, BPErr>(v) && final(self)@ == old(self)@.skip(
                    used as int,
                ),
                Parsed::Refused(fault, used) => r matches Err(e) && e@ == fault && final(self)@
                    == old(self)@.skip(used as int),
                Parsed::Short => r matches Err(e) && e@ == Fault::Stream && final(self)@.is_suffix_of(
                    old(self)@,
                ),
            },
    {
        if self.remaining() == 0 {
            return Err(Self::truncated());
        }
        proof {
            use_type_invariant(&*self);
        }
        let b = self.reader[self.pos];
        self.advance(1);
        Ok(b)
    }

    /// Reads an unsigned magnitude, as lengths are written. A magnitude that
    /// does not fit a `usize` is read whole before it is refused.
    pub fn read_nat0(&mut self) -> (r: Result<usize, BPErr>)
        ensures
            match parse_len(old(self)@) {
                Parsed::Value(v, used) => r == Ok::<usize, BPErr>(v) && final(self)@ == old(self)@.skip(
                    used as int,
                ),
                Parsed::Refused(fault, used) => r matches Err(e) && e@ == fault && final(self)@
                    == old(self)@.skip(used as int),
                Parsed::Short => r matches Err(e) && e@ == Fault::Stream && final(self)@.is_suffix_of(
                    old(self)@,
                ),
            },
    {
        let v = match self.read_magnitude() {
            Ok(v) => v,
            Err(e) => {
                return Err(e);
            },
        };
        match usize::try_from(v) {
            Ok(len) => Ok(len),
            Err(e) => Err(BPErr::from(e)),
        }
    }

    /// Reads a signed integer: the first byte, then the payload that it
    /// announces.
    pub fn read_i64(&mut self) -> (r: Result<i64, BPErr>)
        ensures
            match parse_int(old(self)@) {
                Parsed::Value(v, used) => r matches Ok(x) && x == v && final(self)@ == old(self)@.skip(
                    used as int,
                ),
                Parsed::Refused(fault, used) => r matches Err(e) && e@ == fault && final(self)@
                    == old(self)@.skip(used as int),
                Parsed::Short => r matches Err(e) && e@ == Fault::Stream && final(self)@.is_suffix_of(
                    old(self)@,
                ),
            },
    {
        let first = match self.read_byte() {
            Ok(b) => b,
            Err(e) => {
                return Err(e);
            },
        };
        let width = int_payload_len(first);
        if width == 0 {
            return Ok(first as i64);
        }
        proof {
            if width <= self@.len() {
                assert(self@.subrange(0, width as int) =~= old(self)@.subrange(1, 1 + width));
                assert(self@.skip(width as int) =~= old(self)@.skip(1 + width));
                lemma_le_value_bound(old(self)@.subrange(1, 1 + width));
            }
        }
        match self.take_le(width) {
            Ok(payload) => Ok(sign_extended(payload, width)),
            Err(e) => Err(e),
        }
    }

    /// Reads a boolean. The byte is read before it is judged.
    pub fn deserialize_bool(&mut self) -> (r: Result<bool, BPErr>)
        ensures
            match parse_bool(old(self)@) {
                Parsed::Value(v, used) => r == Ok::<bool, BPErr>(v) && final(self)@ == old(self)@.skip(
                    used as int,
                ),
                Parsed::Refused(fault, used) => r matches Err(e) && e@ == fault && final(self)@
                    == old(self)@.skip(used as int),
                Parsed::Short => r matches Err(e) && e@ == Fault::Stream && final(self)@.is_suffix_of(
                    old(self)@,
                ),
            },
    {
        let b = match self.read_byte() {
            Ok(b) => b,
            Err(e) => {
                return Err(e);
            },
        };
        if b == 0x00 {
            Ok(false)
        } else if b == 0x01 {
            Ok(true)
        } else {
            Err(BPErr::NotBool)
        }
    }

    /// Reads a signed integer that must fit in 8 bits. The integer is read
    /// whole before it is judged.
    pub fn deserialize_i8(&mut self) -> (r: Result<i8, BPErr>)
        ensures
            match parse_int_within(old(self)@, i8::MIN as int, i8::MAX as int) {
                Parsed::Value(v, used) => r matches Ok(x) && x == v && final(self)@ == old(self)@.skip(
                    used as int,
                ),
                Parsed::Refused(fault, used) => r matches Err(e) && e@ == fault && final(self)@
                    == old(self)@.skip(used as int),
                Parsed::Short => r matches Err(e) && e@ == Fault::Stream && final(self)@.is_suffix_of(
                    old(self)@,
                ),
            },
    {
        let v = match self.read_i64() {
            Ok(v) => v,
            Err(e) => {
                return Err(e);
            },
        };
        match i8::try_from(v) {
            Ok(x) => Ok(x),
            Err(e) => Err(BPErr::from(e)),
        }
    }

    /// Reads a signed integer that must fit in 16 bits. The integer is read
    /// whole before it is judged.
    pub fn deserialize_i16(&mut self) -> (r: Result<i16, BPErr>)
        ensures
            match parse_int_within(old(self)@, i16::MIN as int, i16::MAX as int) {
                Parsed::Value(v, used) => r matches Ok(x) && x == v && final(self)@ == old(self)@.skip(
                    used as int,
                ),
                Parsed::Refused(fault, used) => r matches Err(e) && e@ == fault && final(self)@
                    == old(self)@.skip(used as int),
                Parsed::Short => r matches Err(e) && e@ == Fault::Stream && final(self)@.is_suffix_of(
                    old(self)@,
                ),
            },
    {
        let v = match self.read_i64() {
            Ok(v) => v,
            Err(e) => {
                return Err(e);
            },
        };
        match i16::try_from(v) {
            Ok(x) => Ok(x),
            Err(e) => Err(BPErr::from(e)),
        }
    }

    /// Reads a signed integer that must fit in 32 bits. The integer is read
    /// whole before it is judged.
    pub fn deserialize_i32(&mut self) -> (r: Result<i32, BPErr>)
        ensures
            match parse_int_within(old(self)@, i32::MIN as int, i32::MAX as int) {
                Parsed::Value(v, used) => r matches Ok(x) && x == v && final(self)@ == old(self)@.skip(
                    used as int,
                ),
                Parsed::Refused(fault, used) => r matches Err(e) && e@ == fault && final(self)@
                    == old(self)@.skip(used as int),
                Parsed::Short => r matches Err(e) && e@ == Fault::Stream && final(self)@.is_suffix_of(
                    old(self)@,
                ),
            },
    {
        let v = match self.read_i64() {
            Ok(v) => v,
            Err(e) => {
                return Err(e);
            },
        };
        match i32::try_from(v) {
            Ok(x) => Ok(x),
            Err(e) => Err(BPErr::from(e)),
        }
    }

    /// Reads a signed integer of any size the format holds.
    pub fn deserialize_i64(&mut self) -> (r: Result<i64, BPErr>)
        ensures
            match parse_int(old(self)@) {
                Parsed::Value(v, used) => r matches Ok(x) && x == v && final(self)@ == old(self)@.skip(
                    used as int,
                ),
                Parsed::Refused(fault, used) => r matches Err(e) && e@ == fault && final(self)@
                    == old(self)@.skip(used as int),
                Parsed::Short => r matches Err(e) && e@ == Fault::Stream && final(self)@.is_suffix_of(
                    old(self)@,
                ),
            },
    {
        self.read_i64()
    }

    /// The format has no unsigned scalars: always the unsupported-operation
    /// fault, and the stream is not read.
    pub fn deserialize_u8(&mut self) -> (r: Result<u8, BPErr>)
        ensures
            r matches Err(BPErr::NotSpecified),
            final(self)@ == old(self)@,
    {
        Err(BPErr::NotSpecified)
    }

    /// The format has no unsigned scalars: always the unsupported-operation
    /// fault, and the stream is not read.
    pub fn deserialize_u16(&mut self) -> (r: Result<u16, BPErr>)
        ensures
            r matches Err(BPErr::NotSpecified),
            final(self)@ == old(self)@,
    {
        Err(BPErr::NotSpecified)
    }

    /// The format has no unsigned scalars: always the unsupported-operation
    /// fault, and the stream is not read.
    pub fn deserialize_u32(&mut self) -> (r: Result<u32, BPErr>)
        ensures
            r matches Err(BPErr::NotSpecified),
            final(self)@ == old(self)@,
    {
        Err(BPErr::NotSpecified)
    }

    /// The format has no unsigned scalars: always the unsupported-operation
    /// fault, and the stream is not read.
    pub fn deserialize_u64(&mut self) -> (r: Result<u64, BPErr>)
        ensures
            r matches Err(BPErr::NotSpecified),
            final(self)@ == old(self)@,
    {
        Err(BPErr::NotSpecified)
    }

    /// Reads a 64-bit float and gives its IEEE-754 bit pattern.
    pub fn deserialize_f64(&mut self) -> (r: Result<u64, BPErr>)
        ensures
            match parse_float(old(self)@) {
                Parsed::Value(v, used) => r == Ok::<u64, BPErr>(v) && final(self)@ == old(self)@.skip(
                    used as int,
                ),
                Parsed::Refused(fault, used) => r matches Err(e) && e@ == fault && final(self)@
                    == old(self)@.skip(used as int),
                Parsed::Short => r matches Err(e) && e@ == Fault::Stream && final(self)@.is_suffix_of(
                    old(self)@,
                ),
            },
    {
        self.take_le(8)
    }

    /// Reads an ASCII character. The byte is read before it is judged.
    pub fn deserialize_char(&mut self) -> (r: Result<char, BPErr>)
        ensures
            match parse_char(old(self)@) {
                Parsed::Value(v, used) => r == Ok::<char, BPErr>(v) && final(self)@ == old(self)@.skip(
                    used as int,
                ),
                Parsed::Refused(fault, used) => r matches Err(e) && e@ == fault && final(self)@
                    == old(self)@.skip(used as int),
                Parsed::Short => r matches Err(e) && e@ == Fault::Stream && final(self)@.is_suffix_of(
                    old(self)@,
                ),
            },
    {
        let b = match self.read_byte() {
            Ok(b) => b,
            Err(e) => {
                return Err(e);
            },
        };
        if b < 0x80 {
            Ok(b as char)
        } else {
            Err(BPErr::NonAsciiChar)
        }
    }

    /// Reads text.
    pub fn deserialize_str(&mut self) -> (r: Result<String, BPErr>)
        ensures
            match parse_str(old(self)@) {
                Parsed::Value(v, used) => r matches Ok(s) && s@ == v && final(self)@ == old(self)@.skip(
                    used as int,
                ),
                Parsed::Refused(fault, used) => r matches Err(e) && e@ == fault && final(self)@
                    == old(self)@.skip(used as int),
                Parsed::Short => r matches Err(e) && e@ == Fault::Stream && final(self)@.is_suffix_of(
                    old(self)@,
                ),
            },
    {
        self.deserialize_string()
    }

    /// Reads text into a string of its own: the length, then as many bytes,
    /// which are read before they are checked to be UTF-8.
    pub fn deserialize_string(&mut self) -> (r: Result<String, BPErr>)
        ensures
            match parse_str(old(self)@) {
                Parsed::Value(v, used) => r matches Ok(s) && s@ == v && final(self)@ == old(self)@.skip(
                    used as int,
                ),
                Parsed::Refused(fault, used) => r matches Err(e) && e@ == fault && final(self)@
                    == old(self)@.skip(used as int),
                Parsed::Short => r matches Err(e) && e@ == Fault::Stream && final(self)@.is_suffix_of(
                    old(self)@,
                ),
            },
    {
        let len = match self.read_magnitude() {
            Ok(len) => len,
            Err(e) => {
                return Err(e);
            },
        };
        if len > self.remaining() as u64 {
            return Err(Self::truncated());
        }
        let len = len as usize;
        proof {
            use_type_invariant(&*self);
        }
        let body = slice_subrange(self.reader.as_slice(), self.pos, self.pos + len);
        let ghost used = old(self)@.len() - self@.len();
        assert(body@ =~= old(self)@.subrange(used, used + len));
        assert(self@.skip(len as int) =~= old(self)@.skip(used + len));
        let outcome = match core::str::from_utf8(body) {
            Ok(text) => {
                proof {
                    encode_utf8_decode_utf8(text@);
                }
                Ok(text.to_owned())
            },
            Err(e) => Err(BPErr::from(e)),
        };
        self.advance(len);
        outcome
    }

    /// Reads a presence tag: `false` where the value is absent, `true` where
    /// it is present and its encoding starts at the next byte. The tag byte
    /// is read before it is judged.
    pub fn deserialize_option(&mut self) -> (r: Result<bool, BPErr>)
        ensures
            match parse_presence(old(self)@) {
                Parsed::Value(v, used) => r == Ok::<bool, BPErr>(v) && final(self)@ == old(self)@.skip(
                    used as int,
                ),
                Parsed::Refused(fault, used) => r matches Err(e) && e@ == fault && final(self)@
                    == old(self)@.skip(used as int),
                Parsed::Short => r matches Err(e) && e@ == Fault::Stream && final(self)@.is_suffix_of(
                    old(self)@,
                ),
            },
    {
        let header = match self.read_byte() {
            Ok(b) => b,
            Err(e) => {
                return Err(e);
            },
        };
        if header == 0x00 {
            Ok(false)
        } else if header == 0x01 {
            Ok(true)
        } else {
            Err(BPErr::NotOption)
        }
    }

    /// Reads the unit value. The byte is read before it is judged.
    pub fn deserialize_unit(&mut self) -> (r: Result<(), BPErr>)
        ensures
            match parse_unit(old(self)@) {
                Parsed::Value(v, used) => r is Ok && final(self)@ == old(self)@.skip(
                    used as int,
                ),
                Parsed::Refused(fault, used) => r matches Err(e) && e@ == fault && final(self)@
                    == old(self)@.skip(used as int),
                Parsed::Short => r matches Err(e) && e@ == Fault::Stream && final(self)@.is_suffix_of(
                    old(self)@,
                ),
            },
    {
        let b = match self.read_byte() {
            Ok(b) => b,
            Err(e) => {
                return Err(e);
            },
        };
        if b == 0x00 {
            Ok(())
        } else {
            Err(BPErr::NotUnit)
        }
    }

    /// Reads a named type without fields, which is written as the unit value
    /// is; the name is not on the wire.
    pub fn deserialize_unit_struct(&mut self, _name: &'static str) -> (r: Result<(), BPErr>)
        ensures
            match parse_unit(old(self)@) {
                Parsed::Value(v, used) => r is Ok && final(self)@ == old(self)@.skip(
                    used as int,
                ),
                Parsed::Refused(fault, used) => r matches Err(e) && e@ == fault && final(self)@
                    == old(self)@.skip(used as int),
                Parsed::Short => r matches Err(e) && e@ == Fault::Stream && final(self)@.is_suffix_of(
                    old(self)@,
                ),
            },
    {
        self.deserialize_unit()
    }
}

} // verus!
