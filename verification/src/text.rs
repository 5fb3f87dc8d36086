//! Decimal and hexadecimal text of build-time constants.

use vstd::prelude::*;

verus! {

pub open spec fn is_decimal_digit(byte: u8) -> bool {
    0x30 <= byte <= 0x39
}

/// Every byte is a decimal digit.
pub open spec fn is_decimal(bytes: Seq<u8>) -> bool {
    forall|i: int| 0 <= i < bytes.len() ==> is_decimal_digit(#[trigger] bytes[i])
}

/// The integer that decimal digits stand for; no digits stand for zero.
pub open spec fn decimal_value(bytes: Seq<u8>) -> int
    decreases bytes.len(),
{
    if bytes.len() == 0 {
        0
    } else {
        decimal_value(bytes.drop_last()) * 10 + (bytes.last() - 0x30)
    }
}

/// The value of a hexadecimal digit of either case; zero for any other byte.
pub open spec fn hex_digit(byte: u8) -> int {
    if 0x30 <= byte <= 0x39 {
        byte - 0x30
    } else if 0x61 <= byte <= 0x66 {
        byte - 0x61 + 10
    } else if 0x41 <= byte <= 0x46 {
        byte - 0x41 + 10
    } else {
        0
    }
}

/// The low 64 bits of the integer that hexadecimal digits stand for.
pub open spec fn hex_value(bytes: Seq<u8>) -> int
    decreases bytes.len(),
{
    if bytes.len() == 0 {
        0
    } else {
        (hex_value(bytes.drop_last()) * 16) % 0x1_0000_0000_0000_0000 + hex_digit(bytes.last())
    }
}

proof fn lemma_decimal_prefix(bytes: Seq<u8>, count: int)
    requires
        is_decimal(bytes),
        0 <= count <= bytes.len(),
    ensures
        0 <= decimal_value(bytes.take(count)) <= decimal_value(bytes),
    decreases bytes.len(),
{
    if count == bytes.len() {
        assert(bytes.take(count) == bytes);
        if count > 0 {
            assert(is_decimal_digit(bytes[count - 1]));
            lemma_decimal_prefix(bytes.drop_last(), count - 1);
            assert(bytes.drop_last().take(count - 1) == bytes.drop_last());
        }
    } else {
        assert(is_decimal_digit(bytes[bytes.len() - 1]));
        lemma_decimal_prefix(bytes.drop_last(), count);
        assert(bytes.drop_last().take(count) == bytes.take(count));
    }
}

/// Parse decimal digits whose value fits the wanted type.
pub(crate) fn parse_decimal(bytes: &[u8], limit: u32) -> (value: u32)
    requires
        is_decimal(bytes@),
        decimal_value(bytes@) <= limit,
    ensures
        value == decimal_value(bytes@),
{
    let mut parsed: u32 = 0;
    let mut index: usize = 0;
    while index < bytes.len()
        invariant
            index <= bytes.len(),
            is_decimal(bytes@),
            decimal_value(bytes@) <= limit,
            parsed == decimal_value(bytes@.take(index as int)),
        decreases bytes.len() - index,
    {
        proof {
            lemma_decimal_prefix(bytes@, index + 1);
            assert(bytes@.take(index + 1).drop_last() == bytes@.take(index as int));
            assert(is_decimal_digit(bytes@[index as int]));
        }
        parsed = parsed * 10 + (bytes[index] - 0x30) as u32;
        index += 1;
    }
    assert(bytes@.take(index as int) == bytes@);
    parsed
}

/// Parse hexadecimal digits, keeping the low 64 bits.
pub(crate) fn parse_hex(bytes: &[u8]) -> (value: u64)
    ensures
        value == hex_value(bytes@),
{
    let mut parsed: u64 = 0;
    let mut index: usize = 0;
    while index < bytes.len()
        invariant
            index <= bytes.len(),
            parsed == hex_value(bytes@.take(index as int)),
        decreases bytes.len() - index,
    {
        let byte: u8 = bytes[index];
        let digit: u8 = if 0x30 <= byte && byte <= 0x39 {
            byte - 0x30
        } else if 0x61 <= byte && byte <= 0x66 {
            byte - 0x61 + 10
        } else if 0x41 <= byte && byte <= 0x46 {
            byte - 0x41 + 10
        } else {
            0
        };
        let wide: u64 = digit as u64;
        proof {
            assert(bytes@.take(index + 1).drop_last() == bytes@.take(index as int));
            assert(((parsed << 4u64) | wide) == (parsed * 16) % 0x1_0000_0000_0000_0000 + wide)
                by (bit_vector)
                requires
                    wide < 16,
            ;
        }
        parsed = (parsed << 4u64) | wide;
        index += 1;
    }
    assert(bytes@.take(index as int) == bytes@);
    parsed
}

} // verus!
