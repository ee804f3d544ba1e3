//! Fixed-width little-endian numbers, and two's complement on top of them.

use vstd::prelude::*;

verus! {

/// `256^width`: how many values `width` bytes can tell apart.
pub open spec fn radix(width: nat) -> nat
    decreases width,
{
    if width == 0 {
        1
    } else {
        256 * radix((width - 1) as nat)
    }
}

/// The `width` low-order bytes of `v`, least significant first.
pub open spec fn le_bytes(v: nat, width: nat) -> Seq<u8>
    decreases width,
{
    if width == 0 {
        Seq::empty()
    } else {
        seq![(v % 256) as u8] + le_bytes(v / 256, (width - 1) as nat)
    }
}

/// The number that `bytes` spell, least significant byte first.
pub open spec fn le_value(bytes: Seq<u8>) -> nat
    decreases bytes.len(),
{
    if bytes.len() == 0 {
        0
    } else {
        bytes[0] as nat + 256 * le_value(bytes.skip(1))
    }
}

/// The payload that stands for `v` in `width` bytes: `v` itself when it is
/// not negative, `256^width + v` when it is.
pub open spec fn twos_complement(v: int, width: nat) -> nat {
    if v >= 0 {
        v as nat
    } else {
        (radix(width) + v) as nat
    }
}

/// The signed number that a `width`-byte payload `n` stands for: payloads in
/// the upper half of the range are negative.
pub open spec fn sign_extend(n: nat, width: nat) -> int {
    if 2 * n >= radix(width) {
        n - radix(width)
    } else {
        n as int
    }
}

/// The values of `radix` at the widths the wire format uses.
pub proof fn lemma_radix_values()
    ensures
        radix(0) == 1,
        radix(1) == 0x100,
        radix(2) == 0x1_0000,
        radix(4) == 0x1_0000_0000,
        radix(8) == 0x1_0000_0000_0000_0000,
{
    reveal_with_fuel(radix, 9);
}

/// `radix` grows with the width.
pub proof fn lemma_radix_monotonic(a: nat, b: nat)
    requires
        a <= b,
    ensures
        radix(a) <= radix(b),
        radix(a) >= 1,
    decreases b,
{
    if a < b {
        lemma_radix_monotonic(a, (b - 1) as nat);
    } else if a > 0 {
        lemma_radix_monotonic((a - 1) as nat, (a - 1) as nat);
    }
}

/// `le_bytes` yields exactly `width` bytes.
pub proof fn lemma_le_bytes_len(v: nat, width: nat)
    ensures
        le_bytes(v, width).len() == width,
    decreases width,
{
    if width > 0 {
        lemma_le_bytes_len(v / 256, (width - 1) as nat);
    }
}

/// A byte sequence spells a number below `256^len`.
pub proof fn lemma_le_value_bound(bytes: Seq<u8>)
    ensures
        le_value(bytes) < radix(bytes.len()),
    decreases bytes.len(),
{
    if bytes.len() > 0 {
        lemma_le_value_bound(bytes.skip(1));
    }
}

/// Reading back the bytes of a number that fits in `width` bytes gives the
/// number.
pub proof fn lemma_le_value_of_bytes(v: nat, width: nat)
    requires
        v < radix(width),
    ensures
        le_value(le_bytes(v, width)) == v,
    decreases width,
{
    if width > 0 {
        let rest = le_bytes(v / 256, (width - 1) as nat);
        let all = le_bytes(v, width);
        lemma_le_value_of_bytes(v / 256, (width - 1) as nat);
        assert(all.skip(1) =~= rest);
    }
}

/// Appends the `width` low-order bytes of `v` to `out`, least significant
/// first.
pub fn push_le(out: &mut Vec<u8>, v: u64, width: usize)
    ensures
        final(out)@ == old(out)@ + le_bytes(v as nat, width as nat),
{
    let mut rest: u64 = v;
    let mut left: usize = width;
    while left > 0
        invariant
            out@ + le_bytes(rest as nat, left as nat) == old(out)@ + le_bytes(
                v as nat,
                width as nat,
            ),
        decreases left,
    {
        let ghost before = out@;
        out.push((rest % 256) as u8);
        assert(out@ + le_bytes((rest / 256) as nat, (left - 1) as nat) =~= before + le_bytes(
            rest as nat,
            left as nat,
        ));
        rest = rest / 256;
        left = left - 1;
    }
}

/// Reads the number that the `width` bytes of `bytes` from index `at` on
/// spell, least significant byte first.
pub fn read_le(bytes: &[u8], at: usize, width: usize) -> (v: u64)
    requires
        width <= 8,
        at + width <= bytes.len(),
    ensures
        v == le_value(bytes@.subrange(at as int, at + width)),
{
    let mut acc: u64 = 0;
    let mut left: usize = width;
    while left > 0
        invariant
            left <= width <= 8,
            at + width <= bytes.len(),
            acc == le_value(bytes@.subrange(at + left, at + width)),
        decreases left,
    {
        left = left - 1;
        let ghost tail = bytes@.subrange(at + left + 1, at + width);
        let ghost span = bytes@.subrange(at + left, at + width);
        proof {
            assert(span.skip(1) =~= tail);
            lemma_le_value_bound(span);
            lemma_radix_values();
            lemma_radix_monotonic(span.len(), 8);
        }
        acc = acc * 256 + bytes[at + left] as u64;
    }
    acc
}

/// The `width`-byte payload that stands for `v`.
pub fn twos_complemented(v: i64, width: usize) -> (n: u64)
    requires
        width == 1 || width == 2 || width == 4 || width == 8,
        -(radix(width as nat) as int) <= 2 * v < radix(width as nat),
    ensures
        n == twos_complement(v as int, width as nat),
        n < radix(width as nat),
{
    proof {
        lemma_radix_values();
    }
    if v >= 0 {
        v as u64
    } else if width == 1 {
        (v + 0x100) as u64
    } else if width == 2 {
        (v + 0x1_0000) as u64
    } else if width == 4 {
        (v + 0x1_0000_0000) as u64
    } else {
        u64::MAX - ((-(v + 1)) as u64)
    }
}

/// The signed number that the `width`-byte payload `n` stands for.
pub fn sign_extended(n: u64, width: usize) -> (v: i64)
    requires
        width == 1 || width == 2 || width == 4 || width == 8,
        n < radix(width as nat),
    ensures
        v == sign_extend(n as nat, width as nat),
{
    proof {
        lemma_radix_values();
    }
    if width == 1 {
        if n >= 0x80 {
            n as i64 - 0x100
        } else {
            n as i64
        }
    } else if width == 2 {
        if n >= 0x8000 {
            n as i64 - 0x1_0000
        } else {
            n as i64
        }
    } else if width == 4 {
        if n >= 0x8000_0000 {
            n as i64 - 0x1_0000_0000
        } else {
            n as i64
        }
    } else {
        if n >= 0x8000_0000_0000_0000 {
            -((u64::MAX - n) as i64) - 1
        } else {
            n as i64
        }
    }
}

} // verus!
