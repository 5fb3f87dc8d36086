//! Big-endian integers as byte sequences.

use vstd::prelude::*;

verus! {

/// The low `width` bytes of `value`, most significant first.
pub open spec fn be_bytes(value: int, width: nat) -> Seq<u8>
    decreases width,
{
    if width == 0 {
        Seq::empty()
    } else {
        be_bytes(value / 256, (width - 1) as nat).push((value % 256) as u8)
    }
}

/// The integer whose big-endian bytes are `bytes`.
pub open spec fn be_value(bytes: Seq<u8>) -> int
    decreases bytes.len(),
{
    if bytes.len() == 0 {
        0
    } else {
        be_value(bytes.drop_last()) * 256 + bytes.last()
    }
}

/// One more than the largest integer that `width` bytes hold.
pub open spec fn byte_range(width: nat) -> int
    decreases width,
{
    if width == 0 {
        1
    } else {
        byte_range((width - 1) as nat) * 256
    }
}

pub(crate) proof fn lemma_be_bytes_len(value: int, width: nat)
    ensures
        be_bytes(value, width).len() == width,
    decreases width,
{
    if width != 0 {
        lemma_be_bytes_len(value / 256, (width - 1) as nat);
    }
}

/// Big-endian bytes have the asked width and read back as the integer they hold.
pub proof fn be_bytes_round_trip(value: int, width: nat)
    requires
        0 <= value < byte_range(width),
    ensures
        be_bytes(value, width).len() == width,
        be_value(be_bytes(value, width)) == value,
    decreases width,
{
    if width != 0 {
        be_bytes_round_trip(value / 256, (width - 1) as nat);
        assert(be_bytes(value, width).drop_last() == be_bytes(value / 256, (width - 1) as nat));
    }
}

/// Every sequence of bytes is the big-endian form of the integer it reads as.
pub proof fn be_value_round_trip(bytes: Seq<u8>)
    ensures
        0 <= be_value(bytes) < byte_range(bytes.len()),
        be_bytes(be_value(bytes), bytes.len()) == bytes,
    decreases bytes.len(),
{
    if bytes.len() != 0 {
        let head = bytes.drop_last();
        be_value_round_trip(head);
        let value = be_value(bytes);
        assert(value / 256 == be_value(head));
        assert(value % 256 == bytes.last());
        assert(bytes == head.push(bytes.last()));
    }
}

pub(crate) fn u16_be_bytes(value: u16) -> (bytes: [u8; 2])
    ensures
        bytes@ == be_bytes(value as int, 2),
{
    let bytes = [(value / 0x100) as u8, (value % 0x100) as u8];
    proof {
        reveal_with_fuel(be_bytes, 3);
        assert(bytes@ =~= be_bytes(value as int, 2));
    }
    bytes
}

pub(crate) fn u32_be_bytes(value: u32) -> (bytes: [u8; 4])
    ensures
        bytes@ == be_bytes(value as int, 4),
{
    let bytes = [
        (value / 0x100_0000) as u8,
        (value / 0x1_0000 % 0x100) as u8,
        (value / 0x100 % 0x100) as u8,
        (value % 0x100) as u8,
    ];
    proof {
        reveal_with_fuel(be_bytes, 5);
        assert(bytes@ =~= be_bytes(value as int, 4));
    }
    bytes
}

pub(crate) fn u64_be_bytes(value: u64) -> (bytes: [u8; 8])
    ensures
        bytes@ == be_bytes(value as int, 8),
{
    let mut bytes = [0u8; 8];
    let mut rest: u64 = value;
    let mut index: usize = 8;
    while index > 0
        invariant
            index <= 8,
            be_bytes(value as int, 8) == be_bytes(rest as int, index as nat) + bytes@.subrange(
                index as int,
                8,
            ),
        decreases index,
    {
        let ghost head = be_bytes((rest / 256) as int, (index - 1) as nat);
        let ghost tail = bytes@.subrange(index as int, 8);
        index -= 1;
        bytes[index] = (rest % 256) as u8;
        rest = rest / 256;
        assert(bytes@.subrange(index as int, 8) == seq![bytes@[index as int]] + tail);
        assert(head.push(bytes@[index as int]) + tail == head + (seq![bytes@[index as int]] + tail));
    }
    assert(bytes@.subrange(0, 8) == bytes@);
    bytes
}

/// Read a big-endian integer from four bytes.
pub(crate) fn u32_from_be_bytes(bytes: &[u8]) -> (value: u32)
    requires
        bytes@.len() == 4,
    ensures
        value == be_value(bytes@),
{
    proof {
        reveal_with_fuel(be_value, 5);
    }
    assert(bytes@.drop_last().drop_last().drop_last().drop_last().len() == 0);
    (bytes[0] as u32) * 0x100_0000 + (bytes[1] as u32) * 0x1_0000 + (bytes[2] as u32) * 0x100 + (
    bytes[3] as u32)
}

/// Read a big-endian integer from eight bytes.
pub(crate) fn u64_from_be_bytes(bytes: &[u8; 8]) -> (value: u64)
    ensures
        value == be_value(bytes@),
{
    proof {
        reveal_with_fuel(be_value, 9);
    }
    (bytes[0] as u64) * 0x100_0000_0000_0000 + (bytes[1] as u64) * 0x1_0000_0000_0000 + (
    bytes[2] as u64) * 0x100_0000_0000 + (bytes[3] as u64) * 0x1_0000_0000 + (bytes[4] as u64)
        * 0x100_0000 + (bytes[5] as u64) * 0x1_0000 + (bytes[6] as u64) * 0x100 + (bytes[7] as u64)
}

} // verus!
