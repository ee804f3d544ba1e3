//! The wire format, as functions on byte sequences.
//!
//! For every kind of scalar there is the sequence that encodes a value and a
//! parser that reads a value off the front of a sequence. A parser says what
//! a decoder gives on that input and how many bytes it takes: bytes are taken
//! as they are read, whether or not what they hold is accepted.

use crate::common::{
    int_payload_width, nat0_payload_width, CODE_INT16, CODE_INT32, CODE_INT64, CODE_NEG_INT8,
};
use crate::endian::{le_bytes, le_value, sign_extend, twos_complement};
use crate::error::Fault;
use vstd::prelude::*;
use vstd::utf8::{decode_utf8, encode_utf8, valid_utf8};

verus! {

/// The encoding of the unsigned magnitude `v`: a literal byte below 128,
/// else the header of the narrowest payload that holds `v`, and the payload.
pub open spec fn nat0_bytes(v: nat) -> Seq<u8> {
    if v < 0x80 {
        seq![v as u8]
    } else if v < 0x1_0000 {
        seq![CODE_INT16] + le_bytes(v, 2)
    } else if v < 0x1_0000_0000 {
        seq![CODE_INT32] + le_bytes(v, 4)
    } else {
        seq![CODE_INT64] + le_bytes(v, 8)
    }
}

/// The encoding of the signed integer `v`: a literal byte from 0 to 127, a
/// one-byte payload under its own header from -128 to -1, else the header of
/// the narrowest two's-complement payload that holds `v`, and the payload.
pub open spec fn int_bytes(v: int) -> Seq<u8> {
    if 0 <= v < 0x80 {
        seq![v as u8]
    } else if -0x80 <= v < 0 {
        seq![CODE_NEG_INT8] + le_bytes(twos_complement(v, 1), 1)
    } else if -0x8000 <= v < 0x8000 {
        seq![CODE_INT16] + le_bytes(twos_complement(v, 2), 2)
    } else if -0x8000_0000 <= v < 0x8000_0000 {
        seq![CODE_INT32] + le_bytes(twos_complement(v, 4), 4)
    } else {
        seq![CODE_INT64] + le_bytes(twos_complement(v, 8), 8)
    }
}

/// The encoding of a boolean: one byte, 0 or 1.
pub open spec fn bool_bytes(v: bool) -> Seq<u8> {
    seq![if v { 1u8 } else { 0u8 }]
}

/// The encoding of the unit value: one zero byte.
pub open spec fn unit_bytes() -> Seq<u8> {
    seq![0u8]
}

/// The encoding of an ASCII character: its code point in one byte.
pub open spec fn char_bytes(c: char) -> Seq<u8> {
    seq![c as u8]
}

/// The encoding of a 64-bit float, given by its IEEE-754 bit pattern: the
/// eight bytes of the pattern, least significant first.
pub open spec fn float_bytes(bits: u64) -> Seq<u8> {
    le_bytes(bits as nat, 8)
}

/// The encoding of text: the length of its UTF-8 form as an unsigned
/// magnitude, then the UTF-8 form.
pub open spec fn str_bytes(text: Seq<char>) -> Seq<u8> {
    nat0_bytes(encode_utf8(text).len()) + encode_utf8(text)
}

/// The encoding of an absent value: the tag 0.
pub open spec fn none_bytes() -> Seq<u8> {
    seq![0u8]
}

/// The encoding of a present value: the tag 1, then the value's own
/// encoding.
pub open spec fn some_bytes(inner: Seq<u8>) -> Seq<u8> {
    seq![1u8] + inner
}

/// What reading one value off the front of an input comes to.
pub enum Parsed<T> {
    /// A value, and the number of bytes it stood in.
    Value(T, nat),
    /// Bytes that were read and then refused: the fault, and the number of
    /// bytes that were read.
    Refused(Fault, nat),
    /// The input ends before the value does: a stream fault. How many of the
    /// bytes that were left are taken is open.
    Short,
}

/// Reads one raw byte.
pub open spec fn parse_byte(input: Seq<u8>) -> Parsed<u8> {
    if input.len() == 0 {
        Parsed::Short
    } else {
        Parsed::Value(input[0], 1)
    }
}

/// Reads an unsigned magnitude: the payload that a header announces, or the
/// first byte itself where it is no header.
pub open spec fn parse_nat0(input: Seq<u8>) -> Parsed<nat> {
    if input.len() == 0 {
        Parsed::Short
    } else {
        let width = nat0_payload_width(input[0]);
        if width == 0 {
            Parsed::Value(input[0] as nat, 1)
        } else if input.len() < 1 + width {
            Parsed::Short
        } else {
            Parsed::Value(le_value(input.subrange(1, (1 + width) as int)), 1 + width)
        }
    }
}

/// Reads an unsigned magnitude into a `usize`; one that does not fit is a
/// range fault, raised when the whole encoding has been read.
pub open spec fn parse_len(input: Seq<u8>) -> Parsed<usize> {
    match parse_nat0(input) {
        Parsed::Value(v, used) => if v <= usize::MAX {
            Parsed::Value(v as usize, used)
        } else {
            Parsed::Refused(Fault::Range, used)
        },
        Parsed::Refused(fault, used) => Parsed::Refused(fault, used),
        Parsed::Short => Parsed::Short,
    }
}

/// Reads a signed integer: the sign-extended payload that a header
/// announces, or the first byte itself, as a non-negative number, where it is
/// no header.
pub open spec fn parse_int(input: Seq<u8>) -> Parsed<int> {
    if input.len() == 0 {
        Parsed::Short
    } else {
        let width = int_payload_width(input[0]);
        if width == 0 {
            Parsed::Value(input[0] as int, 1)
        } else if input.len() < 1 + width {
            Parsed::Short
        } else {
            Parsed::Value(
                sign_extend(le_value(input.subrange(1, (1 + width) as int)), width),
                1 + width,
            )
        }
    }
}

/// Reads a signed integer that must lie between `min` and `max`; one that
/// does not is a range fault, raised when the whole encoding has been read.
pub open spec fn parse_int_within(input: Seq<u8>, min: int, max: int) -> Parsed<int> {
    match parse_int(input) {
        Parsed::Value(v, used) => if min <= v <= max {
            Parsed::Value(v, used)
        } else {
            Parsed::Refused(Fault::Range, used)
        },
        Parsed::Refused(fault, used) => Parsed::Refused(fault, used),
        Parsed::Short => Parsed::Short,
    }
}

/// Reads a boolean: one byte, refused unless it is 0 or 1.
pub open spec fn parse_bool(input: Seq<u8>) -> Parsed<bool> {
    if input.len() == 0 {
        Parsed::Short
    } else if input[0] == 0 {
        Parsed::Value(false, 1)
    } else if input[0] == 1 {
        Parsed::Value(true, 1)
    } else {
        Parsed::Refused(Fault::NotBool, 1)
    }
}

/// Reads the unit value: one byte, refused unless it is 0.
pub open spec fn parse_unit(input: Seq<u8>) -> Parsed<()> {
    if input.len() == 0 {
        Parsed::Short
    } else if input[0] == 0 {
        Parsed::Value((), 1)
    } else {
        Parsed::Refused(Fault::NotUnit, 1)
    }
}

/// Reads an ASCII character: one byte, refused from 128 on.
pub open spec fn parse_char(input: Seq<u8>) -> Parsed<char> {
    if input.len() == 0 {
        Parsed::Short
    } else if input[0] < 0x80 {
        Parsed::Value(input[0] as char, 1)
    } else {
        Parsed::Refused(Fault::NonAsciiChar, 1)
    }
}

/// Reads the bit pattern of a 64-bit float.
pub open spec fn parse_float(input: Seq<u8>) -> Parsed<u64> {
    if input.len() < 8 {
        Parsed::Short
    } else {
        Parsed::Value(le_value(input.subrange(0, 8)) as u64, 8)
    }
}

/// Reads text. A declared length that the input cannot cover is a stream
/// fault, whatever its size; bytes that are not UTF-8 are refused when the
/// length and all of them have been read.
pub open spec fn parse_str(input: Seq<u8>) -> Parsed<Seq<char>> {
    match parse_nat0(input) {
        Parsed::Value(len, used) => {
            if input.len() < used + len {
                Parsed::Short
            } else {
                let body = input.subrange(used as int, (used + len) as int);
                if valid_utf8(body) {
                    Parsed::Value(decode_utf8(body), used + len)
                } else {
                    Parsed::Refused(Fault::Utf8, used + len)
                }
            }
        },
        Parsed::Refused(fault, used) => Parsed::Refused(fault, used),
        Parsed::Short => Parsed::Short,
    }
}

/// Reads a presence tag, `false` for absent and `true` for present: one
/// byte, refused unless it is 0 or 1.
pub open spec fn parse_presence(input: Seq<u8>) -> Parsed<bool> {
    if input.len() == 0 {
        Parsed::Short
    } else if input[0] == 0 {
        Parsed::Value(false, 1)
    } else if input[0] == 1 {
        Parsed::Value(true, 1)
    } else {
        Parsed::Refused(Fault::NotOption, 1)
    }
}

/// Reads an optional value whose own parser is `inner`: the presence tag,
/// and behind the tag 1 the value, read from the byte after the tag. The tag
/// byte counts among the bytes taken in every case.
pub open spec fn parse_option<T>(input: Seq<u8>, inner: spec_fn(Seq<u8>) -> Parsed<T>) -> Parsed<
    Option<T>,
> {
    match parse_presence(input) {
        Parsed::Value(present, _) => if present {
            match inner(input.skip(1)) {
                Parsed::Value(v, used) => Parsed::Value(Some(v), 1 + used),
                Parsed::Refused(fault, used) => Parsed::Refused(fault, 1 + used),
                Parsed::Short => Parsed::Short,
            }
        } else {
            Parsed::Value(None, 1)
        },
        Parsed::Refused(fault, used) => Parsed::Refused(fault, used),
        Parsed::Short => Parsed::Short,
    }
}

} // verus!
