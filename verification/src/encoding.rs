//! Fixed-width byte encodings of integers.

use vstd::prelude::*;

verus! {

/// The `width` low-order bytes of `value`, least significant first.
pub open spec fn le_bytes(value: nat, width: nat) -> Seq<u8>
    decreases width,
{
    if width == 0 {
        Seq::empty()
    } else {
        seq![(value % 256) as u8] + le_bytes(value / 256, (width - 1) as nat)
    }
}

/// The `width` low-order bytes of `value`, most significant first.
pub open spec fn be_bytes(value: nat, width: nat) -> Seq<u8>
    decreases width,
{
    if width == 0 {
        Seq::empty()
    } else {
        be_bytes(value / 256, (width - 1) as nat).push((value % 256) as u8)
    }
}

/// The number that bytes stand for, least significant first.
pub open spec fn le_value(bytes: Seq<u8>) -> nat
    decreases bytes.len(),
{
    if bytes.len() == 0 {
        0
    } else {
        bytes[0] as nat + 256 * le_value(bytes.subrange(1, bytes.len() as int))
    }
}

/// The signed number that `value` stands for in 32-bit two's complement.
pub open spec fn signed_32(value: nat) -> int {
    if value < 0x8000_0000 {
        value as int
    } else {
        value - 0x1_0000_0000
    }
}

/// The unsigned number that stands for `value` in 32-bit two's complement.
pub open spec fn twos_complement_32(value: int) -> nat {
    if value >= 0 {
        value as nat
    } else {
        (value + 0x1_0000_0000) as nat
    }
}

pub proof fn lemma_le_bytes_len(value: nat, width: nat)
    ensures
        le_bytes(value, width).len() == width,
    decreases width,
{
    if width > 0 {
        lemma_le_bytes_len(value / 256, (width - 1) as nat);
    }
}

pub proof fn lemma_be_bytes_len(value: nat, width: nat)
    ensures
        be_bytes(value, width).len() == width,
    decreases width,
{
    if width > 0 {
        lemma_be_bytes_len(value / 256, (width - 1) as nat);
    }
}

/// A big-endian encoding is the little-endian one read backwards.
pub proof fn lemma_be_is_reversed_le(value: nat, width: nat)
    ensures
        be_bytes(value, width) == le_bytes(value, width).reverse(),
    decreases width,
{
    lemma_le_bytes_len(value, width);
    lemma_be_bytes_len(value, width);
    if width > 0 {
        let rest = (width - 1) as nat;
        lemma_be_is_reversed_le(value / 256, rest);
        lemma_le_bytes_len(value / 256, rest);
        lemma_be_bytes_len(value / 256, rest);
        let le = le_bytes(value, width);
        let be = be_bytes(value, width);
        assert forall|i: int| 0 <= i < width implies be[i] == le.reverse()[i] by {
            if i < width - 1 {
                assert(be[i] == be_bytes(value / 256, rest)[i]);
                assert(le_bytes(value / 256, rest).reverse()[i] == le_bytes(value / 256, rest)[rest - 1 - i]);
                assert(le[width - 1 - i] == le_bytes(value / 256, rest)[width - 2 - i]);
            }
        }
        assert(be =~= le.reverse());
    } else {
        assert(be_bytes(value, width) =~= le_bytes(value, width).reverse());
    }
}

/// Encodes the `width` low-order bytes of `value`, least significant first.
pub fn encode_le(value: u128, width: usize) -> (out: Vec<u8>)
    ensures
        out@ == le_bytes(value as nat, width as nat),
{
    let mut out: Vec<u8> = Vec::new();
    let mut rest: u128 = value;
    let mut i: usize = 0;
    while i < width
        invariant
            i <= width,
            out@.len() == i,
            out@ + le_bytes(rest as nat, (width - i) as nat) == le_bytes(value as nat, width as nat),
        decreases width - i,
    {
        let byte: u8 = (rest % 256) as u8;
        proof {
            let tail = le_bytes(rest as nat, (width - i) as nat);
            let next = le_bytes((rest / 256) as nat, (width - i - 1) as nat);
            assert(tail == seq![byte] + next);
            assert(out@.push(byte) + next =~= out@ + tail);
        }
        out.push(byte);
        rest = rest / 256;
        i += 1;
    }
    assert(out@ + Seq::<u8>::empty() =~= out@);
    out
}

/// Encodes the `width` low-order bytes of `value`, most significant first.
pub fn encode_be(value: u128, width: usize) -> (out: Vec<u8>)
    ensures
        out@ == be_bytes(value as nat, width as nat),
{
    let le = encode_le(value, width);
    proof {
        lemma_le_bytes_len(value as nat, width as nat);
        lemma_be_is_reversed_le(value as nat, width as nat);
    }
    let mut out: Vec<u8> = Vec::new();
    let mut i: usize = width;
    while i > 0
        invariant
            i <= width,
            le@.len() == width,
            out@.len() == width - i,
            forall|j: int| 0 <= j < out@.len() ==> out@[j] == le@[width - 1 - j],
        decreases i,
    {
        i -= 1;
        out.push(le[i]);
    }
    assert(out@ =~= le@.reverse());
    out
}

/// The big-endian bytes of a 16-bit unsigned number.
pub fn u16_be_bytes(value: u16) -> (out: Vec<u8>)
    ensures
        out@ == be_bytes(value as nat, 2),
{
    encode_be(value as u128, 2)
}

/// The big-endian two's-complement bytes of a 32-bit signed number.
pub fn i32_be_bytes(value: i32) -> (out: Vec<u8>)
    ensures
        out@ == be_bytes(twos_complement_32(value as int), 4),
{
    let wide: i64 = value as i64;
    let unsigned: u128 = if wide >= 0 {
        wide as u128
    } else {
        (wide + 0x1_0000_0000) as u128
    };
    encode_be(unsigned, 4)
}

/// The little-endian bytes of a 64-bit unsigned number.
pub fn u64_le_bytes(value: u64) -> (out: Vec<u8>)
    ensures
        out@ == le_bytes(value as nat, 8),
{
    encode_le(value as u128, 8)
}

/// The little-endian bytes of a 128-bit unsigned number.
pub fn u128_le_bytes(value: u128) -> (out: Vec<u8>)
    ensures
        out@ == le_bytes(value as nat, 16),
{
    encode_le(value, 16)
}

} // verus!
