//! Fixed-width byte encodings of integers.

use vstd::prelude::*;

verus! {

/// The `width` low-order base-256 digits of `value`, most significant first.
pub open spec fn be_bytes(value: nat, width: nat) -> Seq<u8>
    decreases width,
{
    if width == 0 {
        Seq::empty()
    } else {
        be_bytes(value / 256, (width - 1) as nat).push((value % 256) as u8)
    }
}

/// The `width` low-order base-256 digits of `value`, least significant first.
pub open spec fn le_bytes(value: nat, width: nat) -> Seq<u8>
    decreases width,
{
    if width == 0 {
        Seq::empty()
    } else {
        seq![(value % 256) as u8] + le_bytes(value / 256, (width - 1) as nat)
    }
}

/// `256^width`.
pub open spec fn radix(width: nat) -> nat
    decreases width,
{
    if width == 0 {
        1
    } else {
        256 * radix((width - 1) as nat)
    }
}

/// The unsigned 64-bit pattern of a signed value, in two's complement.
pub open spec fn twos_complement(value: i64) -> nat {
    if value >= 0 {
        value as nat
    } else {
        (value + 0x1_0000_0000_0000_0000) as nat
    }
}

/// `be_bytes` yields exactly `width` bytes.
pub proof fn lemma_be_bytes_len(value: nat, width: nat)
    ensures
        be_bytes(value, width).len() == width,
    decreases width,
{
    if width > 0 {
        lemma_be_bytes_len(value / 256, (width - 1) as nat);
    }
}

/// Two values that fit in `width` bytes and have the same big-endian
/// encoding are the same value.
pub proof fn lemma_be_bytes_injective(a: nat, b: nat, width: nat)
    requires
        a < radix(width),
        b < radix(width),
        be_bytes(a, width) == be_bytes(b, width),
    ensures
        a == b,
    decreases width,
{
    if width > 0 {
        let w = (width - 1) as nat;
        let da = be_bytes(a, width);
        let db = be_bytes(b, width);
        assert(da.last() == db.last());
        assert(da.drop_last() =~= be_bytes(a / 256, w));
        assert(db.drop_last() =~= be_bytes(b / 256, w));
        lemma_be_bytes_injective(a / 256, b / 256, w);
    }
}

/// Every `u64` fits in eight bytes.
pub proof fn lemma_u64_fits_eight_bytes(value: u64)
    ensures
        (value as nat) < radix(8),
{
    reveal_with_fuel(radix, 9);
}

/// The eight bytes of `value`, most significant first.
pub fn u64_be_bytes(value: u64) -> (out: [u8; 8])
    ensures
        out@ == be_bytes(value as nat, 8),
{
    let mut out = [0u8; 8];
    let mut rest: u64 = value;
    let mut i: usize = 0;
    while i < 8
        invariant
            i <= 8,
            be_bytes(value as nat, 8) =~= be_bytes(rest as nat, (8 - i) as nat) + out@.subrange(
                8 - i,
                8,
            ),
        decreases 8 - i,
    {
        let ghost before = out@;
        out[7 - i] = (rest % 256) as u8;
        proof {
            let shorter = be_bytes((rest / 256) as nat, (7 - i) as nat);
            assert(shorter.push((rest % 256) as u8) + before.subrange(8 - i, 8) =~= shorter
                + out@.subrange(7 - i, 8));
        }
        rest = rest / 256;
        i += 1;
    }
    out
}

/// The eight bytes of `value`, least significant first.
pub fn u64_le_bytes(value: u64) -> (out: [u8; 8])
    ensures
        out@ == le_bytes(value as nat, 8),
{
    let mut out = [0u8; 8];
    let mut rest: u64 = value;
    let mut i: usize = 0;
    while i < 8
        invariant
            i <= 8,
            le_bytes(value as nat, 8) =~= out@.subrange(0, i as int) + le_bytes(
                rest as nat,
                (8 - i) as nat,
            ),
        decreases 8 - i,
    {
        let ghost before = out@;
        out[i] = (rest % 256) as u8;
        proof {
            let shorter = le_bytes((rest / 256) as nat, (7 - i) as nat);
            assert(before.subrange(0, i as int) + (seq![(rest % 256) as u8] + shorter)
                =~= out@.subrange(0, i + 1) + shorter);
        }
        rest = rest / 256;
        i += 1;
    }
    out
}

/// The eight bytes of the two's complement pattern of `value`, least
/// significant first.
pub fn i64_le_bytes(value: i64) -> (out: [u8; 8])
    ensures
        out@ == le_bytes(twos_complement(value), 8),
{
    if value >= 0 {
        u64_le_bytes(value as u64)
    } else {
        let low: u64 = (value + i64::MAX + 1) as u64;
        u64_le_bytes(low + 0x8000_0000_0000_0000)
    }
}

} // verus!
