//! What holds of the wire format on every input: decoding undoes encoding,
//! each value takes the fewest bytes its tier allows, literal bytes and
//! header codes never collide, and an optional value takes its tag and the
//! bytes of the value, no more and no fewer.

use crate::common::{
    int_payload_width, is_header_code, is_literal, nat0_payload_width, CODE_INT16, CODE_INT32,
    CODE_INT64, CODE_NEG_INT8,
};
use crate::endian::{
    le_bytes, le_value, lemma_le_bytes_len, lemma_le_value_of_bytes, lemma_radix_values, radix,
    twos_complement,
};
use crate::error::Fault;
use crate::wire::{
    Parsed,
    bool_bytes, char_bytes, float_bytes, int_bytes, nat0_bytes, none_bytes, parse_bool,
    parse_char, parse_float, parse_int, parse_int_within, parse_len, parse_nat0, parse_option,
    parse_presence, parse_str, parse_unit, some_bytes, str_bytes, unit_bytes,
};
use vstd::prelude::*;
use vstd::utf8::{encode_utf8, encode_utf8_decode_utf8, encode_utf8_valid_utf8};

verus! {

/// A header, a payload of `width` bytes and whatever follows: the payload
/// sits right behind the header and spells the number it was made from.
proof fn lemma_payload_behind_header(header: u8, n: nat, width: nat, rest: Seq<u8>)
    requires
        n < radix(width),
    ensures
        ({
            let input = seq![header] + le_bytes(n, width) + rest;
            &&& input.len() == 1 + width + rest.len()
            &&& input[0] == header
            &&& input.subrange(1, (1 + width) as int) == le_bytes(n, width)
            &&& le_value(input.subrange(1, (1 + width) as int)) == n
        }),
{
    lemma_le_bytes_len(n, width);
    lemma_le_value_of_bytes(n, width);
}

/// Decoding undoes encoding for unsigned magnitudes: whatever follows the
/// encoding of `v`, the parser gives `v` back and stops where the encoding
/// ends. Encoding what was decoded gives the same bytes again.
pub proof fn lemma_nat0_round_trip(v: nat, rest: Seq<u8>)
    requires
        v <= u64::MAX,
    ensures
        parse_nat0(nat0_bytes(v) + rest) == Parsed::Value(v, nat0_bytes(v).len()),
        v <= usize::MAX ==> parse_len(nat0_bytes(v) + rest) == Parsed::Value(
            v as usize,
            nat0_bytes(v).len(),
        ),
        parse_nat0(nat0_bytes(v) + rest) matches Parsed::Value(back, _) && nat0_bytes(back)
            == nat0_bytes(v),
{
    lemma_radix_values();
    if 0x80 <= v < 0x1_0000 {
        lemma_payload_behind_header(CODE_INT16, v, 2, rest);
    } else if 0x1_0000 <= v < 0x1_0000_0000 {
        lemma_payload_behind_header(CODE_INT32, v, 4, rest);
    } else if 0x1_0000_0000 <= v {
        lemma_payload_behind_header(CODE_INT64, v, 8, rest);
    }
}

/// Decoding undoes encoding for signed integers over the whole 64-bit range:
/// whatever follows the encoding of `v`, the parser gives `v` back and stops
/// where the encoding ends. Encoding what was decoded gives the same bytes
/// again.
pub proof fn lemma_int_round_trip(v: int, rest: Seq<u8>)
    requires
        i64::MIN <= v <= i64::MAX,
    ensures
        parse_int(int_bytes(v) + rest) == Parsed::Value(v, int_bytes(v).len()),
        parse_int(int_bytes(v) + rest) matches Parsed::Value(back, _) && int_bytes(back)
            == int_bytes(v),
{
    lemma_radix_values();
    if -0x80 <= v < 0 {
        lemma_payload_behind_header(CODE_NEG_INT8, twos_complement(v, 1), 1, rest);
    } else if !(0 <= v < 0x80) {
        if -0x8000 <= v < 0x8000 {
            lemma_payload_behind_header(CODE_INT16, twos_complement(v, 2), 2, rest);
        } else if -0x8000_0000 <= v < 0x8000_0000 {
            lemma_payload_behind_header(CODE_INT32, twos_complement(v, 4), 4, rest);
        } else {
            lemma_payload_behind_header(CODE_INT64, twos_complement(v, 8), 8, rest);
        }
    }
}

/// A signed integer that fits the width asked for comes back through the
/// narrowing parser; one that does not is a range fault.
pub proof fn lemma_int_within_round_trip(v: int, min: int, max: int, rest: Seq<u8>)
    requires
        i64::MIN <= v <= i64::MAX,
    ensures
        min <= v <= max ==> parse_int_within(int_bytes(v) + rest, min, max) == Parsed::Value(
            v,
            int_bytes(v).len(),
        ),
        !(min <= v <= max) ==> parse_int_within(int_bytes(v) + rest, min, max)
            == Parsed::<int>::Refused(Fault::Range, int_bytes(v).len()),
{
    lemma_int_round_trip(v, rest);
}

/// Decoding undoes encoding for booleans, and encoding what was decoded
/// gives the same byte again.
pub proof fn lemma_bool_round_trip(v: bool, rest: Seq<u8>)
    ensures
        parse_bool(bool_bytes(v) + rest) == Parsed::Value(v, bool_bytes(v).len()),
        parse_bool(bool_bytes(v) + rest) matches Parsed::Value(back, _) && bool_bytes(back)
            == bool_bytes(v),
{
}

/// Decoding undoes encoding for the unit value.
pub proof fn lemma_unit_round_trip(rest: Seq<u8>)
    ensures
        parse_unit(unit_bytes() + rest) == Parsed::Value((), unit_bytes().len()),
{
}

/// Decoding undoes encoding for ASCII characters, and encoding what was
/// decoded gives the same byte again.
pub proof fn lemma_char_round_trip(c: char, rest: Seq<u8>)
    requires
        (c as u32) < 0x80,
    ensures
        parse_char(char_bytes(c) + rest) == Parsed::Value(c, char_bytes(c).len()),
        parse_char(char_bytes(c) + rest) matches Parsed::Value(back, _) && char_bytes(back)
            == char_bytes(c),
{
}

/// Decoding undoes encoding for floats, bit for bit: every pattern comes
/// back as it went in, whether it reads as zero, negative zero, an infinity
/// or a NaN.
pub proof fn lemma_float_round_trip(bits: u64, rest: Seq<u8>)
    ensures
        parse_float(float_bytes(bits) + rest) == Parsed::Value(bits, float_bytes(bits).len()),
        parse_float(float_bytes(bits) + rest) matches Parsed::Value(back, _) && float_bytes(back)
            == float_bytes(bits),
{
    lemma_radix_values();
    lemma_le_bytes_len(bits as nat, 8);
    lemma_le_value_of_bytes(bits as nat, 8);
    assert((float_bytes(bits) + rest).subrange(0, 8) =~= float_bytes(bits));
}

/// Decoding undoes encoding for text, empty or not, and encoding what was
/// decoded gives the same bytes again.
pub proof fn lemma_str_round_trip(text: Seq<char>, rest: Seq<u8>)
    requires
        encode_utf8(text).len() <= u64::MAX,
    ensures
        parse_str(str_bytes(text) + rest) == Parsed::Value(text, str_bytes(text).len()),
        parse_str(str_bytes(text) + rest) matches Parsed::Value(back, _) && str_bytes(back)
            == str_bytes(text),
{
    let body = encode_utf8(text);
    let head = nat0_bytes(body.len());
    let input = str_bytes(text) + rest;
    assert(input =~= head + (body + rest));
    lemma_nat0_round_trip(body.len(), body + rest);
    assert(input.subrange(head.len() as int, (head.len() + body.len()) as int) =~= body);
    encode_utf8_valid_utf8(text);
    encode_utf8_decode_utf8(text);
}

/// Decoding undoes encoding for optional values, given that it does for the
/// value inside: an absent value comes back absent, a present one comes back
/// with the value that its own parser reads behind the tag.
pub proof fn lemma_option_round_trip<T>(
    v: T,
    encoded: Seq<u8>,
    inner: spec_fn(Seq<u8>) -> Parsed<T>,
    rest: Seq<u8>,
)
    requires
        inner(encoded + rest) == Parsed::Value(v, encoded.len()),
    ensures
        parse_option(none_bytes() + rest, inner) == Parsed::Value(None::<T>, 1),
        parse_option(some_bytes(encoded) + rest, inner) == Parsed::Value(
            Some(v),
            some_bytes(encoded).len(),
        ),
{
    assert((some_bytes(encoded) + rest).skip(1) =~= encoded + rest);
}

/// An unsigned magnitude takes the fewest bytes its tier allows: one below
/// 128, three below 65536, five below 2^32, nine from there on.
pub proof fn lemma_nat0_len(v: nat)
    ensures
        nat0_bytes(v).len() == if v < 0x80 {
            1nat
        } else if v < 0x1_0000 {
            3nat
        } else if v < 0x1_0000_0000 {
            5nat
        } else {
            9nat
        },
{
    lemma_le_bytes_len(v, 2);
    lemma_le_bytes_len(v, 4);
    lemma_le_bytes_len(v, 8);
}

/// A signed integer takes the fewest bytes its tier allows: one from 0 to
/// 127, two from -128 to -1, three in the rest of the 16-bit range, five in
/// the rest of the 32-bit range, nine outside it.
pub proof fn lemma_int_len(v: int)
    ensures
        int_bytes(v).len() == if 0 <= v < 0x80 {
            1nat
        } else if -0x80 <= v < 0 {
            2nat
        } else if -0x8000 <= v < 0x8000 {
            3nat
        } else if -0x8000_0000 <= v < 0x8000_0000 {
            5nat
        } else {
            9nat
        },
{
    lemma_le_bytes_len(twos_complement(v, 1), 1);
    lemma_le_bytes_len(twos_complement(v, 2), 2);
    lemma_le_bytes_len(twos_complement(v, 4), 4);
    lemma_le_bytes_len(twos_complement(v, 8), 8);
}

/// Literal bytes and header codes never collide in what the encoder emits.
/// The first byte of an encoded integer is a literal exactly when the whole
/// encoding is that one byte, and then it is the value; in every other case
/// it is a header code, which is no literal.
pub proof fn lemma_first_byte_tells_form(v: int)
    ensures
        is_literal(int_bytes(v)[0]) <==> 0 <= v < 0x80,
        0 <= v < 0x80 ==> int_bytes(v) == seq![v as u8],
        !(0 <= v < 0x80) ==> is_header_code(int_bytes(v)[0]),
        v >= 0 ==> (is_literal(nat0_bytes(v as nat)[0]) <==> v < 0x80),
        v >= 0x80 ==> is_header_code(nat0_bytes(v as nat)[0]),
{
}

/// A parse never takes more bytes than its input has, whether it accepts
/// them or refuses them, and it takes at least one wherever the input has
/// enough for it.
pub proof fn lemma_parse_stays_within_input(input: Seq<u8>)
    ensures
        parse_nat0(input) matches Parsed::Value(_, used) ==> 1 <= used <= input.len(),
        parse_int(input) matches Parsed::Value(_, used) ==> 1 <= used <= input.len(),
        parse_float(input) matches Parsed::Value(_, used) ==> used == 8 <= input.len(),
        parse_bool(input) !is Short ==> input.len() >= 1,
        parse_bool(input) matches Parsed::Value(_, used) ==> used == 1,
        parse_bool(input) matches Parsed::Refused(_, used) ==> used == 1,
        parse_unit(input) !is Short ==> input.len() >= 1,
        parse_unit(input) matches Parsed::Value(_, used) ==> used == 1,
        parse_unit(input) matches Parsed::Refused(_, used) ==> used == 1,
        parse_char(input) !is Short ==> input.len() >= 1,
        parse_char(input) matches Parsed::Value(_, used) ==> used == 1,
        parse_char(input) matches Parsed::Refused(_, used) ==> used == 1,
        parse_presence(input) !is Short ==> input.len() >= 1,
        parse_presence(input) matches Parsed::Value(_, used) ==> used == 1,
        parse_presence(input) matches Parsed::Refused(_, used) ==> used == 1,
        parse_str(input) matches Parsed::Value(_, used) ==> 1 <= used <= input.len(),
        parse_str(input) matches Parsed::Refused(_, used) ==> 1 <= used <= input.len(),
        forall|min: int, max: int| #[trigger]
            parse_int_within(input, min, max) matches Parsed::Refused(_, used) ==> 1 <= used
                <= input.len(),
{
}

/// One-byte kinds take their byte whatever it holds: on an input that is
/// not empty a boolean, a character, a unit value and a presence tag each
/// take exactly one byte, accepted or refused, and a refusal says which
/// bytes are refused.
pub proof fn lemma_one_byte_is_taken(input: Seq<u8>)
    requires
        input.len() >= 1,
    ensures
        parse_bool(input) == (if input[0] <= 1 {
            Parsed::Value(input[0] == 1, 1)
        } else {
            Parsed::Refused(Fault::NotBool, 1)
        }),
        parse_char(input) == (if input[0] < 0x80 {
            Parsed::Value(input[0] as char, 1)
        } else {
            Parsed::Refused(Fault::NonAsciiChar, 1)
        }),
        parse_unit(input) == (if input[0] == 0 {
            Parsed::Value((), 1)
        } else {
            Parsed::Refused(Fault::NotUnit, 1)
        }),
        parse_presence(input) == (if input[0] <= 1 {
            Parsed::Value(input[0] == 1, 1)
        } else {
            Parsed::Refused(Fault::NotOption, 1)
        }),
{
}

/// An integer on the wire delimits itself: its first byte alone says how
/// many bytes it takes.
pub proof fn lemma_first_byte_gives_length(input: Seq<u8>)
    ensures
        parse_nat0(input) matches Parsed::Value(_, used) ==> used == 1 + nat0_payload_width(
            input[0],
        ),
        parse_int(input) matches Parsed::Value(_, used) ==> used == 1 + int_payload_width(
            input[0],
        ),
{
}

/// The option invariant. Reading an optional value takes the tag byte
/// wherever the input has one, whatever the byte holds. When the value is
/// absent it takes no more; when it is present it takes the tag byte and
/// exactly the bytes that the value's own parser takes from the byte after
/// the tag, also where that parser refuses them.
pub proof fn lemma_option_consumption<T>(input: Seq<u8>, inner: spec_fn(Seq<u8>) -> Parsed<T>)
    ensures
        match parse_option(input, inner) {
            Parsed::Value(None, used) => used == 1 && input.len() >= 1 && input[0] == 0,
            Parsed::Value(Some(v), used) => input.len() >= 1 && input[0] == 1 && used >= 1
                && inner(input.skip(1)) == Parsed::Value(v, (used - 1) as nat),
            Parsed::Refused(fault, used) => input.len() >= 1 && used >= 1 && (if input[0] == 1 {
                inner(input.skip(1)) == Parsed::<T>::Refused(fault, (used - 1) as nat)
            } else {
                input[0] > 1 && fault == Fault::NotOption && used == 1
            }),
            Parsed::Short => input.len() == 0 || (input[0] == 1 && inner(input.skip(1)) is Short),
        },
{
}

/// Reading an optional value in two steps is reading it at once: where the
/// presence tag says present and the value's own parser then reads `v` from
/// what the tag left, the whole is `Some(v)`, and what both steps leave of
/// the input is what the whole leaves.
pub proof fn lemma_option_by_steps<T>(
    input: Seq<u8>,
    inner: spec_fn(Seq<u8>) -> Parsed<T>,
    v: T,
    used: nat,
)
    requires
        parse_presence(input) == Parsed::Value(true, 1),
        inner(input.skip(1)) == Parsed::Value(v, used),
        used <= input.len() - 1,
    ensures
        parse_option(input, inner) == Parsed::Value(Some(v), 1 + used),
        input.skip(1).skip(used as int) == input.skip((1 + used) as int),
{
}

} // verus!
