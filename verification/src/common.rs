//! The reserved header codes, and the one place that tells a header from a
//! literal byte.

use vstd::prelude::*;

verus! {

/// Header of a negative integer that fits in one payload byte.
pub const CODE_NEG_INT8: u8 = 0xff;

/// Header of a two-byte payload.
pub const CODE_INT16: u8 = 0xfe;

/// Header of a four-byte payload.
pub const CODE_INT32: u8 = 0xfd;

/// Header of an eight-byte payload.
pub const CODE_INT64: u8 = 0xfc;

/// A byte that can stand alone for a small non-negative number.
pub open spec fn is_literal(b: u8) -> bool {
    b < 0x80
}

/// A byte that is reserved to announce a payload.
pub open spec fn is_header_code(b: u8) -> bool {
    b == CODE_NEG_INT8 || b == CODE_INT16 || b == CODE_INT32 || b == CODE_INT64
}

/// How many payload bytes follow `first` when an unsigned magnitude is read.
/// The negative-integer header has no meaning there and counts as a plain
/// byte.
pub open spec fn nat0_payload_width(first: u8) -> nat {
    if first == CODE_INT16 {
        2
    } else if first == CODE_INT32 {
        4
    } else if first == CODE_INT64 {
        8
    } else {
        0
    }
}

/// How many payload bytes follow `first` when a signed integer is read.
pub open spec fn int_payload_width(first: u8) -> nat {
    if first == CODE_NEG_INT8 {
        1
    } else {
        nat0_payload_width(first)
    }
}

/// The number of payload bytes that follow `first` in an unsigned magnitude:
/// the length of a wire value is known from its first byte.
pub fn nat0_payload_len(first: u8) -> (width: usize)
    ensures
        width == nat0_payload_width(first),
{
    if first == CODE_INT16 {
        2
    } else if first == CODE_INT32 {
        4
    } else if first == CODE_INT64 {
        8
    } else {
        0
    }
}

/// The number of payload bytes that follow `first` in a signed integer.
pub fn int_payload_len(first: u8) -> (width: usize)
    ensures
        width == int_payload_width(first),
{
    if first == CODE_NEG_INT8 {
        1
    } else {
        nat0_payload_len(first)
    }
}

/// Header codes and literal bytes never meet: every header code lies above
/// the literal range, so a byte is at most one of the two, and only a header
/// code announces a payload.
pub proof fn lemma_header_codes_above_literals(b: u8)
    ensures
        is_header_code(b) ==> b >= 0x80,
        !(is_header_code(b) && is_literal(b)),
        int_payload_width(b) > 0 <==> is_header_code(b),
        nat0_payload_width(b) > 0 ==> is_header_code(b),
        is_literal(b) ==> int_payload_width(b) == 0 && nat0_payload_width(b) == 0,
{
}

} // verus!
