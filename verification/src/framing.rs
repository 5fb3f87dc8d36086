//! Integrity-protected framing for the binary profile-v2 UART training stream.
//!
//! Each protocol record is followed by a big-endian CRC-32/ISO-HDLC value
//! (polynomial `0x04C11DB7`, reflected implementation `0xEDB88320`, init and
//! xorout `0xffffffff`), then COBS encoded and terminated by `0x00`.

use vstd::prelude::*;
use vstd::slice::slice_subrange;

use crate::bytes::{u32_be_bytes, u32_from_be_bytes};

verus! {

pub const MAX_PROTOCOL_FRAME_LEN: usize = 231;

const CRC_LEN: usize = 4;

/// 231 protocol bytes + CRC + worst-case COBS overhead + zero delimiter.
pub const MAX_COBS_FRAME_LEN: usize = 238;

#[derive(Clone, Copy, Debug, PartialEq, Eq, Structural)]
pub enum Error {
    InputTooLarge,
    OutputTooSmall,
    RecordTooShort,
    CrcMismatch,
}

/// One shift of the reflected CRC register.
pub open spec fn crc_shift(crc: u32) -> u32 {
    (crc >> 1) ^ (if crc & 1 == 1 {
        0xedb8_8320u32
    } else {
        0u32
    })
}

/// `count` shifts of the reflected CRC register.
pub open spec fn crc_shifts(crc: u32, count: nat) -> u32
    decreases count,
{
    if count == 0 {
        crc
    } else {
        crc_shift(crc_shifts(crc, (count - 1) as nat))
    }
}

/// The CRC register after it has absorbed `bytes`, starting from all ones.
pub open spec fn crc_register(bytes: Seq<u8>) -> u32
    decreases bytes.len(),
{
    if bytes.len() == 0 {
        0xffff_ffff
    } else {
        crc_shifts(crc_register(bytes.drop_last()) ^ (bytes.last() as u32), 8)
    }
}

/// CRC-32/ISO-HDLC of `bytes`.
pub open spec fn crc32_of(bytes: Seq<u8>) -> u32 {
    !crc_register(bytes)
}

/// A protocol record followed by its checksum.
pub open spec fn protected_record(record: Seq<u8>) -> Seq<u8> {
    record + crate::bytes::be_bytes(crc32_of(record) as int, 4)
}

/// CRC-32/ISO-HDLC (`CRC-32`, Ethernet/ZIP) in a table-free implementation.
#[must_use]
pub fn crc32(bytes: &[u8]) -> (crc: u32)
    ensures
        crc == crc32_of(bytes@),
{
    let mut crc: u32 = 0xffff_ffff;
    let mut index: usize = 0;
    while index < bytes.len()
        invariant
            index <= bytes.len(),
            crc == crc_register(bytes@.take(index as int)),
        decreases bytes.len() - index,
    {
        let ghost before = crc;
        crc = crc ^ (bytes[index] as u32);
        let ghost loaded = crc;
        let mut count: u8 = 0;
        while count < 8
            invariant
                count <= 8,
                crc == crc_shifts(loaded, count as nat),
            decreases 8 - count,
        {
            let feedback: u32 = if crc & 1 == 1 {
                0xedb8_8320
            } else {
                0
            };
            crc = (crc >> 1) ^ feedback;
            count += 1;
        }
        assert(bytes@.take(index + 1).drop_last() == bytes@.take(index as int));
        index += 1;
    }
    assert(bytes@.take(index as int) == bytes@);
    !crc
}

/// Number of bytes that stand before the first zero of `data`.
pub open spec fn nonzero_prefix(data: Seq<u8>) -> nat
    decreases data.len(),
{
    if data.len() == 0 || data[0] == 0 {
        0
    } else {
        nonzero_prefix(data.skip(1)) + 1
    }
}

/// Consistent-overhead byte stuffing of `data`, without the delimiter: each
/// group is its length plus one and then its nonzero bytes. A group of fewer
/// than 254 bytes also stands for the zero that ended it, except the last one.
pub open spec fn cobs(data: Seq<u8>) -> Seq<u8>
    decreases data.len(),
{
    let n = nonzero_prefix(data) as int;
    proof {
        nonzero_prefix_ends_at_first_zero(data);
    }
    if n >= 254 {
        seq![255u8] + data.take(254) + cobs(data.skip(254))
    } else if n == data.len() {
        seq![(n + 1) as u8] + data
    } else {
        seq![(n + 1) as u8] + data.take(n) + cobs(data.skip(n + 1))
    }
}

/// What a receiver makes of stuffed bytes: every group contributes its bytes,
/// and a zero follows unless the group is full or is the last one.
pub open spec fn cobs_decoded(encoded: Seq<u8>) -> Seq<u8>
    decreases encoded.len(),
{
    if encoded.len() == 0 || encoded[0] == 0 || encoded[0] > encoded.len() {
        Seq::empty()
    } else {
        let code = encoded[0] as int;
        let bytes = encoded.subrange(1, code);
        let rest = encoded.skip(code);
        if code != 255 && rest.len() != 0 {
            bytes.push(0u8) + cobs_decoded(rest)
        } else {
            bytes + cobs_decoded(rest)
        }
    }
}

/// The nonzero prefix holds no zero and ends at a zero or at the end of the data.
pub proof fn nonzero_prefix_ends_at_first_zero(data: Seq<u8>)
    ensures
        nonzero_prefix(data) <= data.len(),
        forall|i: int| 0 <= i < nonzero_prefix(data) ==> data[i] != 0,
        nonzero_prefix(data) < data.len() ==> data[nonzero_prefix(data) as int] == 0,
    decreases data.len(),
{
    if data.len() != 0 && data[0] != 0 {
        nonzero_prefix_ends_at_first_zero(data.skip(1));
        assert forall|i: int| 0 <= i < nonzero_prefix(data) implies data[i] != 0 by {
            if i > 0 {
                assert(data.skip(1)[i - 1] == data[i]);
            }
        }
    }
}

proof fn lemma_nonzero_prefix_at_least(data: Seq<u8>, n: int)
    requires
        0 <= n <= data.len(),
        forall|i: int| 0 <= i < n ==> data[i] != 0,
    ensures
        nonzero_prefix(data) >= n,
{
    nonzero_prefix_ends_at_first_zero(data);
}

proof fn lemma_cobs_len(data: Seq<u8>)
    ensures
        cobs(data).len() >= data.len() + 1,
        cobs(data).len() <= data.len() + 1 + data.len() / 254,
    decreases data.len(),
{
    nonzero_prefix_ends_at_first_zero(data);
    let n = nonzero_prefix(data) as int;
    if n >= 254 {
        lemma_cobs_len(data.skip(254));
    } else if n != data.len() {
        lemma_cobs_len(data.skip(n + 1));
    }
}

/// Stuffed bytes contain no zero, so the delimiter alone ends a frame.
pub proof fn stuffed_bytes_are_nonzero(data: Seq<u8>)
    ensures
        forall|i: int| 0 <= i < cobs(data).len() ==> cobs(data)[i] != 0,
    decreases data.len(),
{
    nonzero_prefix_ends_at_first_zero(data);
    let n = nonzero_prefix(data) as int;
    let group = if n >= 254 {
        254
    } else {
        n
    };
    if n >= 254 {
        stuffed_bytes_are_nonzero(data.skip(254));
    } else if n != data.len() {
        stuffed_bytes_are_nonzero(data.skip(n + 1));
    }
    assert forall|i: int| 0 <= i < cobs(data).len() implies cobs(data)[i] != 0 by {
        if i == 0 {
        } else if i <= group {
            assert(cobs(data)[i] == data[i - 1]);
        } else if n >= 254 {
            assert(cobs(data)[i] == cobs(data.skip(254))[i - 255]);
        } else {
            assert(cobs(data)[i] == cobs(data.skip(n + 1))[i - n - 1]);
        }
    }
}

/// Decoding stuffed bytes gives back exactly the bytes that were stuffed.
pub proof fn stuffing_round_trips(data: Seq<u8>)
    ensures
        cobs_decoded(cobs(data)) == data,
    decreases data.len(),
{
    nonzero_prefix_ends_at_first_zero(data);
    lemma_cobs_len(data);
    let n = nonzero_prefix(data) as int;
    let encoded = cobs(data);
    if n >= 254 {
        let rest = data.skip(254);
        stuffing_round_trips(rest);
        assert(encoded[0] == 255);
        assert(encoded.subrange(1, 255) == data.take(254));
        assert(encoded.skip(255) == cobs(rest));
        assert(cobs_decoded(encoded) == data.take(254) + rest);
    } else if n == data.len() {
        assert(encoded[0] == n + 1);
        assert(encoded.subrange(1, n + 1) == data);
        assert(encoded.skip(n + 1) == Seq::<u8>::empty());
        assert(cobs_decoded(encoded.skip(n + 1)) == Seq::<u8>::empty());
    } else {
        let rest = data.skip(n + 1);
        stuffing_round_trips(rest);
        lemma_cobs_len(rest);
        assert(encoded[0] == n + 1);
        assert(encoded.subrange(1, n + 1) == data.take(n));
        assert(encoded.skip(n + 1) == cobs(rest));
        assert(cobs_decoded(encoded) == data.take(n).push(0u8) + rest);
    }
}

/// Stuffing replaces every zero by the length of the group that it ends: bytes
/// without a zero are one group if they are fewer than 254, a zero splits the
/// data into the group before it and what is stuffed of the rest, and 254 bytes
/// without a zero are a full group that stands for no zero.
pub proof fn stuffing_splits_at_zeros(group: Seq<u8>, rest: Seq<u8>)
    requires
        forall|i: int| 0 <= i < group.len() ==> group[i] != 0,
    ensures
        group.len() < 254 ==> cobs(group) == seq![(group.len() + 1) as u8] + group,
        group.len() < 254 ==> cobs(group.push(0u8) + rest) == seq![(group.len() + 1) as u8] + group
            + cobs(rest),
        group.len() == 254 ==> cobs(group + rest) == seq![255u8] + group + cobs(rest),
{
    nonzero_prefix_ends_at_first_zero(group);
    lemma_nonzero_prefix_at_least(group, group.len() as int);
    let split = group.push(0u8) + rest;
    nonzero_prefix_ends_at_first_zero(split);
    lemma_nonzero_prefix_at_least(split, group.len() as int);
    assert(split[group.len() as int] == 0);
    assert(split.take(group.len() as int) == group);
    assert(split.skip(group.len() as int + 1) == rest);
    let full = group + rest;
    nonzero_prefix_ends_at_first_zero(full);
    lemma_nonzero_prefix_at_least(full, group.len() as int);
    assert(full.take(group.len() as int) == group);
    assert(full.skip(group.len() as int) == rest);
}

/// Stuff `input` and append the zero delimiter.
///
/// A receiver that removes the delimiter and decodes the rest gets back exactly
/// the input.
pub fn cobs_encode_delimited(input: &[u8], output: &mut [u8]) -> (result: Result<usize, Error>)
    ensures
        final(output)@.len() == old(output)@.len(),
        match result {
            Ok(len) => {
                &&& len == cobs(input@).len() + 1
                &&& 2 <= len <= old(output)@.len()
                &&& final(output)@ == cobs(input@).push(0u8) + old(output)@.skip(len as int)
                &&& final(output)@[len - 1] == 0
                &&& forall|i: int| 0 <= i < len - 1 ==> final(output)@[i] != 0
                &&& cobs_decoded(final(output)@.take(len - 1)) == input@
            },
            Err(error) => {
                &&& error == Error::OutputTooSmall
                &&& cobs(input@).len() + 1 > old(output)@.len()
                &&& written_prefix(cobs(input@), old(output)@, final(output)@)
            },
        },
{
    proof {
        lemma_cobs_len(input@);
    }
    if output.len() == 0 {
        return Err(Error::OutputTooSmall);
    }
    let mut read_index: usize = 0;
    let mut write_index: usize = 1;
    let mut code_index: usize = 0;
    let mut code: u8 = 1;

    assert(input@.skip(0) == input@);
    while read_index < input.len()
        invariant
            read_index <= input.len(),
            1 <= code < 255,
            code - 1 <= read_index,
            code_index < write_index,
            write_index == code_index + code,
            write_index <= output@.len(),
            output@.len() == old(output)@.len(),
            cobs(input@) == output@.take(code_index as int) + cobs(
                input@.skip(read_index - (code - 1)),
            ),
            forall|i: int|
                code_index < i < write_index ==> output@[i] == input@[read_index - write_index + i],
            forall|i: int| read_index - (code - 1) <= i < read_index ==> input@[i] != 0,
            output@[code_index as int] == old(output)@[code_index as int],
            forall|i: int| write_index <= i < output@.len() ==> output@[i] == old(output)@[i],
        decreases input.len() - read_index,
    {
        let byte: u8 = input[read_index];
        let ghost start = read_index - (code - 1);
        let ghost pending = input@.skip(start);
        let ghost held = (code - 1) as int;
        proof {
            lemma_cobs_len(pending);
            nonzero_prefix_ends_at_first_zero(pending);
            lemma_nonzero_prefix_at_least(pending, held);
        }
        read_index += 1;
        if byte == 0 {
            assert(pending[held] == 0);
            assert(nonzero_prefix(pending) == held);
            proof {
                lemma_cobs_len(pending.skip(held + 1));
            }
            if write_index >= output.len() {
                proof {
                    lemma_written_prefix(input@, output@, old(output)@, code_index as int, pending);
                }
                return Err(Error::OutputTooSmall);
            }
            let ghost before = output@;
            output[code_index] = code;
            assert(pending.skip(held + 1) == input@.skip(read_index as int));
            assert(output@.take(write_index as int) == before.take(code_index as int) + (seq![code]
                + pending.take(held)));
            code_index = write_index;
            write_index += 1;
            code = 1;
        } else {
            proof {
                lemma_nonzero_prefix_at_least(pending, held + 1);
            }
            if write_index >= output.len() {
                proof {
                    lemma_written_prefix(input@, output@, old(output)@, code_index as int, pending);
                }
                return Err(Error::OutputTooSmall);
            }
            let ghost before = output@;
            output[write_index] = byte;
            write_index += 1;
            code += 1;
            assert(output@.take(code_index as int) == before.take(code_index as int));
            if code == u8::MAX {
                proof {
                    lemma_cobs_len(pending.skip(254));
                }
                if write_index >= output.len() {
                    proof {
                        lemma_written_prefix(input@, output@, old(output)@, code_index as int, pending);
                    }
                    return Err(Error::OutputTooSmall);
                }
                let ghost filled = output@;
                output[code_index] = code;
                assert(pending.skip(254) == input@.skip(read_index as int));
                assert(output@.take(write_index as int) == filled.take(code_index as int) + (
                seq![code] + pending.take(254)));
                code_index = write_index;
                write_index += 1;
                code = 1;
            }
        }
    }

    let ghost start = read_index - (code - 1);
    let ghost pending = input@.skip(start);
    proof {
        nonzero_prefix_ends_at_first_zero(pending);
        lemma_nonzero_prefix_at_least(pending, code - 1);
    }
    if write_index >= output.len() {
        proof {
            lemma_written_prefix(input@, output@, old(output)@, code_index as int, pending);
        }
        return Err(Error::OutputTooSmall);
    }
    output[code_index] = code;
    output[write_index] = 0;
    assert(output@ == cobs(input@).push(0u8) + old(output)@.skip(write_index + 1));
    proof {
        stuffed_bytes_are_nonzero(input@);
        stuffing_round_trips(input@);
        assert(output@.take(write_index as int) == cobs(input@));
        assert forall|i: int| 0 <= i < write_index implies output@[i] != 0 by {
            assert(output@[i] == cobs(input@)[i]);
        }
    }
    Ok(write_index + 1)
}

/// What a buffer holds when it was too short for `encoded`: the bytes that fit,
/// except that the header of the last group begun was not written.
pub open spec fn written_prefix(encoded: Seq<u8>, before: Seq<u8>, after: Seq<u8>) -> bool {
    if before.len() == 0 {
        after == before
    } else {
        exists|header: int|
            0 <= header < before.len() && after == #[trigger] encoded.take(
                before.len() as int,
            ).update(header, before[header])
    }
}

proof fn lemma_written_prefix(
    input: Seq<u8>,
    now: Seq<u8>,
    before: Seq<u8>,
    code_index: int,
    pending: Seq<u8>,
)
    requires
        0 <= code_index < now.len(),
        now.len() == before.len(),
        cobs(input) == now.take(code_index) + cobs(pending),
        now[code_index] == before[code_index],
        now.len() - code_index - 1 <= nonzero_prefix(pending),
        now.len() - code_index - 1 <= 254,
        forall|i: int| code_index < i < now.len() ==> now[i] == pending[i - code_index - 1],
    ensures
        written_prefix(cobs(input), before, now),
{
    nonzero_prefix_ends_at_first_zero(pending);
    lemma_cobs_len(pending);
    let encoded = cobs(input);
    let expected = encoded.take(before.len() as int).update(code_index, before[code_index]);
    assert forall|i: int| 0 <= i < now.len() implies now[i] == expected[i] by {
        if i > code_index {
            assert(cobs(pending)[i - code_index] == pending[i - code_index - 1]);
        }
    }
    assert(now == expected);
}

/// The delimited frame that carries `record` on the wire.
pub open spec fn delimited_frame(record: Seq<u8>) -> Seq<u8> {
    cobs(protected_record(record)).push(0u8)
}

/// What verification makes of a decoded record: its payload, if the last four
/// bytes are the checksum of the bytes before them.
pub open spec fn verified_payload(record: Seq<u8>) -> Result<Seq<u8>, Error> {
    if record.len() < 4 {
        Err(Error::RecordTooShort)
    } else if crc32_of(record.take(record.len() - 4)) != crate::bytes::be_value(
        record.skip(record.len() - 4),
    ) {
        Err(Error::CrcMismatch)
    } else {
        Ok(record.take(record.len() - 4))
    }
}

/// A record of at most 231 bytes is framed as itself and its checksum, most
/// significant byte first, stuffed and ended by a zero. The checksum begins with
/// all bits set, shifts each byte out at its low end with the reflected
/// polynomial 0xEDB88320, and is inverted at the end.
pub proof fn frame_protects_its_record(record: Seq<u8>, byte: u8)
    ensures
        MAX_PROTOCOL_FRAME_LEN == 231,
        protected_record(record).len() == record.len() + 4,
        protected_record(record).take(record.len() as int) == record,
        crate::output::four_bytes(protected_record(record), record.len() as int) == crc32_of(
            record,
        ),
        delimited_frame(record) == cobs(protected_record(record)).push(0u8),
        crc32_of(Seq::<u8>::empty()) == 0,
        crc32_of(record.push(byte)) == !crc_shifts(!crc32_of(record) ^ (byte as u32), 8),
{
    let crc = crc32_of(record);
    crate::bytes::lemma_be_bytes_len(crc as int, 4);
    let protected = protected_record(record);
    assert(protected.subrange(record.len() as int, record.len() as int + 4)
        == crate::bytes::be_bytes(crc as int, 4));
    crate::output::lemma_four_bytes(protected, record.len() as int, crc);
    assert(protected.take(record.len() as int) == record);
    assert(!0xffff_ffffu32 == 0) by (bit_vector);
    let register = crc_register(record);
    assert(!(!register) == register) by (bit_vector);
    assert(record.push(byte).drop_last() == record);
}

/// One shift of the checksum register drops its lowest bit, and takes the
/// polynomial in exactly if that bit was set.
pub proof fn checksum_register_shifts_out_its_lowest_bit(crc: u32)
    ensures
        crc % 2 == 0 ==> crc_shift(crc) == crc / 2,
        crc % 2 == 1 ==> crc_shift(crc) == (crc / 2) ^ 0xedb8_8320,
        crc_shifts(crc, 0) == crc,
        crc_shifts(crc, 8) == crc_shift(crc_shifts(crc, 7)),
{
    assert(crc % 2 == 0 ==> ((crc >> 1) ^ (if crc & 1 == 1 {
        0xedb8_8320u32
    } else {
        0u32
    })) == crc / 2) by (bit_vector);
    assert(crc % 2 == 1 ==> ((crc >> 1) ^ (if crc & 1 == 1 {
        0xedb8_8320u32
    } else {
        0u32
    })) == (crc / 2) ^ 0xedb8_8320) by (bit_vector);
}

/// Encode one record and append a zero frame delimiter.
///
/// The returned length includes the trailing delimiter. The input may contain
/// arbitrary zero bytes and never allocates.
pub fn encode_delimited(input: &[u8], output: &mut [u8]) -> (result: Result<usize, Error>)
    ensures
        final(output)@.len() == old(output)@.len(),
        match result {
            Ok(len) => {
                &&& input@.len() <= MAX_PROTOCOL_FRAME_LEN
                &&& len == delimited_frame(input@).len()
                &&& len <= old(output)@.len()
                &&& final(output)@ == delimited_frame(input@) + old(output)@.skip(len as int)
            },
            Err(Error::InputTooLarge) => {
                &&& input@.len() > MAX_PROTOCOL_FRAME_LEN
                &&& final(output)@ == old(output)@
            },
            Err(error) => {
                &&& error == Error::OutputTooSmall
                &&& input@.len() <= MAX_PROTOCOL_FRAME_LEN
                &&& delimited_frame(input@).len() > old(output)@.len()
                &&& written_prefix(cobs(protected_record(input@)), old(output)@, final(output)@)
            },
        },
{
    if input.len() > MAX_PROTOCOL_FRAME_LEN {
        return Err(Error::InputTooLarge);
    }
    let mut protected = [0u8; 235];
    let len: usize = input.len();
    let mut index: usize = 0;
    while index < len
        invariant
            len == input@.len(),
            len <= 231,
            index <= len,
            protected@.take(index as int) == input@.take(index as int),
        decreases len - index,
    {
        let ghost before = protected@;
        protected[index] = input[index];
        index += 1;
        assert(protected@.take(index as int) == before.take(index - 1).push(input@[index - 1]));
        assert(input@.take(index as int) == input@.take(index - 1).push(input@[index - 1]));
    }
    assert(input@.take(len as int) == input@);
    let trailer = u32_be_bytes(crc32(input));
    protected[len] = trailer[0];
    protected[len + 1] = trailer[1];
    protected[len + 2] = trailer[2];
    protected[len + 3] = trailer[3];
    let record = slice_subrange(&protected, 0, len + CRC_LEN);
    assert(record@.take(len as int) == input@);
    assert(record@ == protected_record(input@));
    cobs_encode_delimited(record, output)
}

/// Verify a decoded UART record and return only its protocol bytes.
///
/// COBS decoding and delimiter removal happen receiver-side before this call.
pub fn verify_decoded_record(record: &[u8]) -> (result: Result<&[u8], Error>)
    ensures
        match result {
            Ok(payload) => verified_payload(record@) == Ok::<Seq<u8>, Error>(payload@),
            Err(error) => verified_payload(record@) == Err::<Seq<u8>, Error>(error),
        },
{
    if record.len() < CRC_LEN {
        return Err(Error::RecordTooShort);
    }
    let payload_len: usize = record.len() - CRC_LEN;
    let payload = slice_subrange(record, 0, payload_len);
    let trailer = slice_subrange(record, payload_len, record.len());
    assert(payload@ == record@.take(record@.len() - 4));
    assert(trailer@ == record@.skip(record@.len() - 4));
    let expected: u32 = u32_from_be_bytes(trailer);
    if crc32(payload) != expected {
        return Err(Error::CrcMismatch);
    }
    Ok(payload)
}

/// A decoded record is too short exactly if it cannot hold a checksum. Any other
/// is accepted exactly if its last four bytes, most significant first, are the
/// checksum of what stands before them, and that is what it is accepted as.
pub proof fn records_are_accepted_by_their_checksum(record: Seq<u8>)
    ensures
        verified_payload(record) == Err::<Seq<u8>, Error>(Error::RecordTooShort) <==> record.len()
            <= 3,
        record.len() >= 4 ==> {
            let payload = record.subrange(0, record.len() - 4);
            let matching = crate::output::four_bytes(record, record.len() - 4) == crc32_of(payload);
            &&& matching ==> verified_payload(record) == Ok::<Seq<u8>, Error>(payload)
            &&& !matching ==> verified_payload(record) == Err::<Seq<u8>, Error>(Error::CrcMismatch)
        },
{
    if record.len() >= 4 {
        let trailer = record.skip(record.len() - 4);
        reveal_with_fuel(crate::bytes::be_value, 5);
        assert(trailer.drop_last().drop_last().drop_last().drop_last().len() == 0);
        assert(crate::bytes::be_value(trailer) == crate::output::four_bytes(
            record,
            record.len() - 4,
        ));
        assert(record.subrange(0, record.len() - 4) == record.take(record.len() - 4));
    }
}

/// Removing the delimiter, decoding and verifying a frame gives back exactly
/// the record that was framed.
pub proof fn framed_records_round_trip(record: Seq<u8>)
    ensures
        verified_payload(cobs_decoded(delimited_frame(record).drop_last())) == Ok::<Seq<u8>, Error>(
            record,
        ),
{
    let protected = protected_record(record);
    let crc = crc32_of(record) as int;
    assert(delimited_frame(record).drop_last() == cobs(protected));
    stuffing_round_trips(protected);
    assert(crate::bytes::byte_range(4) == 0x1_0000_0000) by {
        reveal_with_fuel(crate::bytes::byte_range, 5);
    }
    crate::bytes::be_bytes_round_trip(crc, 4);
    assert(protected.take(protected.len() - 4) == record);
    assert(protected.skip(protected.len() - 4) == crate::bytes::be_bytes(crc, 4));
}

/// A frame ends in its only zero byte, so a receiver can split the stream at zeros.
pub proof fn only_the_delimiter_is_zero(record: Seq<u8>)
    ensures
        delimited_frame(record).last() == 0,
        forall|i: int|
            0 <= i < delimited_frame(record).len() - 1 ==> delimited_frame(record)[i] != 0,
{
    let encoded = cobs(protected_record(record));
    stuffed_bytes_are_nonzero(protected_record(record));
    assert forall|i: int| 0 <= i < delimited_frame(record).len() - 1 implies delimited_frame(
        record,
    )[i] != 0 by {
        assert(delimited_frame(record)[i] == encoded[i]);
    }
}

/// Every record that framing accepts fits in a buffer of `MAX_COBS_FRAME_LEN` bytes.
pub proof fn maximum_frame_fits_fixed_buffer(record: Seq<u8>)
    requires
        record.len() <= MAX_PROTOCOL_FRAME_LEN,
    ensures
        delimited_frame(record).len() <= MAX_COBS_FRAME_LEN,
{
    crate::bytes::lemma_be_bytes_len(crc32_of(record) as int, 4);
    lemma_cobs_len(protected_record(record));
}

proof fn lemma_crc_shift_injective(left: u32, right: u32)
    requires
        crc_shift(left) == crc_shift(right),
    ensures
        left == right,
{
    assert(crc_shift(left) == crc_shift(right) ==> left == right) by (bit_vector);
}

proof fn lemma_crc_shifts_injective(left: u32, right: u32, count: nat)
    requires
        crc_shifts(left, count) == crc_shifts(right, count),
    ensures
        left == right,
    decreases count,
{
    if count != 0 {
        let fewer = (count - 1) as nat;
        lemma_crc_shift_injective(crc_shifts(left, fewer), crc_shifts(right, fewer));
        lemma_crc_shifts_injective(left, right, fewer);
    }
}

/// Two records of one length that differ in exactly one byte have different
/// checksums.
pub proof fn checksum_detects_one_changed_byte(record: Seq<u8>, position: int, byte: u8)
    requires
        0 <= position < record.len(),
        byte != record[position],
    ensures
        crc32_of(record.update(position, byte)) != crc32_of(record),
{
    lemma_crc_register_differs(record, position, byte);
    let left = crc_register(record.update(position, byte));
    let right = crc_register(record);
    assert(left != right ==> !left != !right) by (bit_vector);
}

proof fn lemma_crc_register_differs(record: Seq<u8>, position: int, byte: u8)
    requires
        0 <= position < record.len(),
        byte != record[position],
    ensures
        crc_register(record.update(position, byte)) != crc_register(record),
    decreases record.len(),
{
    let changed = record.update(position, byte);
    let before = crc_register(record.drop_last());
    let before_changed = crc_register(changed.drop_last());
    let last = record.last() as u32;
    let last_changed = changed.last() as u32;
    if position == record.len() - 1 {
        assert(changed.drop_last() == record.drop_last());
        assert(last != last_changed ==> before ^ last != before ^ last_changed) by (bit_vector);
    } else {
        assert(changed.drop_last() == record.drop_last().update(position, byte));
        lemma_crc_register_differs(record.drop_last(), position, byte);
        assert(before != before_changed ==> before ^ last != before_changed ^ last)
            by (bit_vector);
    }
    if crc_register(changed) == crc_register(record) {
        lemma_crc_shifts_injective(before_changed ^ last_changed, before ^ last, 8);
    }
}

/// Changing any one byte of a protected record, in its payload or in its
/// checksum, makes verification fail with a checksum mismatch.
pub proof fn one_corrupted_byte_is_rejected(record: Seq<u8>, position: int, byte: u8)
    requires
        0 <= position < protected_record(record).len(),
        byte != protected_record(record)[position],
    ensures
        verified_payload(protected_record(record).update(position, byte)) == Err::<Seq<u8>, Error>(
            Error::CrcMismatch,
        ),
{
    let crc = crc32_of(record) as int;
    let trailer = crate::bytes::be_bytes(crc, 4);
    crate::bytes::lemma_be_bytes_len(crc, 4);
    assert(crate::bytes::byte_range(4) == 0x1_0000_0000) by {
        reveal_with_fuel(crate::bytes::byte_range, 5);
    }
    crate::bytes::be_bytes_round_trip(crc, 4);
    let corrupted = protected_record(record).update(position, byte);
    let payload = corrupted.take(corrupted.len() - 4);
    let checksum = corrupted.skip(corrupted.len() - 4);
    if position < record.len() {
        assert(payload == record.update(position, byte));
        assert(checksum == trailer);
        checksum_detects_one_changed_byte(record, position, byte);
    } else {
        assert(payload == record);
        assert(checksum == trailer.update(position - record.len(), byte));
        crate::bytes::be_value_round_trip(checksum);
        assert(checksum[position - record.len()] != trailer[position - record.len()]);
    }
}

} // verus!
