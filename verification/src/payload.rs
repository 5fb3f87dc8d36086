//! Versioned Vesta sensor frame codec.
//!
//! This module is deliberately target-independent. It can be compiled and
//! tested directly on a host without Embassy or STM32 hardware.

use vstd::prelude::*;

use crate::bytes::{u16_be_bytes, u32_be_bytes, u64_be_bytes};

verus! {

pub const FRAME_LEN: usize = 48;

/// `VS`.
pub const FRAME_MAGIC: [u8; 2] = [0x56, 0x53];

pub const FRAME_VERSION: u8 = 1;

/// Every compensated, raw, and heater-metadata value exposed for one BME68x
/// field. Units match the fixed-point `bme68x` API.
#[derive(Clone, Copy, Debug, PartialEq, Eq, Structural)]
pub struct SensorFrame {
    pub status: u8,
    pub temperature: i16,
    pub pressure: u32,
    pub humidity: u32,
    pub gas_resistance: u32,
    pub temperature_adc: u32,
    pub pressure_adc: u32,
    pub humidity_adc: u16,
    pub gas_resistance_adc: u16,
    pub gas_range: u8,
    pub gas_index: u8,
    pub measurement_index: u8,
    pub heater_resistance: u8,
    pub heater_current: u8,
    pub gas_wait: u8,
}

/// The unsigned integer whose sixteen bits are those of `value`.
pub open spec fn twos_complement(value: i16) -> int {
    if value < 0 {
        value + 0x1_0000
    } else {
        value as int
    }
}

/// The frame `>2sBBQIhIIIIIHH6B`, with every multi-byte integer big-endian.
pub open spec fn frame_of(node_id: u64, sequence: u32, measurement: SensorFrame) -> Seq<u8> {
    FRAME_MAGIC@ + seq![FRAME_VERSION, measurement.status] + crate::bytes::be_bytes(
        node_id as int,
        8,
    ) + crate::bytes::be_bytes(sequence as int, 4) + crate::bytes::be_bytes(
        twos_complement(measurement.temperature),
        2,
    ) + crate::bytes::be_bytes(measurement.pressure as int, 4) + crate::bytes::be_bytes(
        measurement.humidity as int,
        4,
    ) + crate::bytes::be_bytes(measurement.gas_resistance as int, 4) + crate::bytes::be_bytes(
        measurement.temperature_adc as int,
        4,
    ) + crate::bytes::be_bytes(measurement.pressure_adc as int, 4) + crate::bytes::be_bytes(
        measurement.humidity_adc as int,
        2,
    ) + crate::bytes::be_bytes(measurement.gas_resistance_adc as int, 2) + seq![
        measurement.gas_range,
        measurement.gas_index,
        measurement.measurement_index,
        measurement.heater_resistance,
        measurement.heater_current,
        measurement.gas_wait,
    ]
}

/// Write `bytes` into the frame from `start` on.
fn put(frame: &mut [u8; 48], start: usize, bytes: &[u8])
    requires
        start + bytes@.len() <= 48,
    ensures
        final(frame)@.take(start + bytes@.len()) == old(frame)@.take(start as int) + bytes@,
{
    let mut index: usize = 0;
    while index < bytes.len()
        invariant
            index <= bytes@.len(),
            start + bytes@.len() <= 48,
            frame@.take(start + index) == old(frame)@.take(start as int) + bytes@.take(
                index as int,
            ),
        decreases bytes.len() - index,
    {
        let ghost before = frame@;
        frame[start + index] = bytes[index];
        index += 1;
        assert(frame@.take(start + index) == before.take(start + index - 1).push(
            bytes@[index - 1],
        ));
        assert(bytes@.take(index as int) == bytes@.take(index - 1).push(bytes@[index - 1]));
    }
    assert(bytes@.take(index as int) == bytes@);
}

/// Encode `>2sBBQIhIIIIIHH6B`, with every multi-byte integer big-endian.
#[must_use]
pub fn encode(node_id: u64, sequence: u32, measurement: &SensorFrame) -> (frame: [u8; 48])
    ensures
        frame@ == frame_of(node_id, sequence, *measurement),
{
    let temperature: u16 = if measurement.temperature < 0 {
        (measurement.temperature as i32 + 0x1_0000) as u16
    } else {
        measurement.temperature as u16
    };
    proof {
        crate::bytes::lemma_be_bytes_len(node_id as int, 8);
        crate::bytes::lemma_be_bytes_len(sequence as int, 4);
        crate::bytes::lemma_be_bytes_len(temperature as int, 2);
        crate::bytes::lemma_be_bytes_len(measurement.pressure as int, 4);
        crate::bytes::lemma_be_bytes_len(measurement.humidity as int, 4);
        crate::bytes::lemma_be_bytes_len(measurement.gas_resistance as int, 4);
        crate::bytes::lemma_be_bytes_len(measurement.temperature_adc as int, 4);
        crate::bytes::lemma_be_bytes_len(measurement.pressure_adc as int, 4);
        crate::bytes::lemma_be_bytes_len(measurement.humidity_adc as int, 2);
        crate::bytes::lemma_be_bytes_len(measurement.gas_resistance_adc as int, 2);
    }
    let mut frame = [0u8; 48];
    put(&mut frame, 0, &FRAME_MAGIC);
    assert(frame@.take(2) == FRAME_MAGIC@);
    put(&mut frame, 2, &[FRAME_VERSION, measurement.status]);
    put(&mut frame, 4, &u64_be_bytes(node_id));
    put(&mut frame, 12, &u32_be_bytes(sequence));
    put(&mut frame, 16, &u16_be_bytes(temperature));
    put(&mut frame, 18, &u32_be_bytes(measurement.pressure));
    put(&mut frame, 22, &u32_be_bytes(measurement.humidity));
    put(&mut frame, 26, &u32_be_bytes(measurement.gas_resistance));
    put(&mut frame, 30, &u32_be_bytes(measurement.temperature_adc));
    put(&mut frame, 34, &u32_be_bytes(measurement.pressure_adc));
    put(&mut frame, 38, &u16_be_bytes(measurement.humidity_adc));
    put(&mut frame, 40, &u16_be_bytes(measurement.gas_resistance_adc));
    let tail = [
        measurement.gas_range,
        measurement.gas_index,
        measurement.measurement_index,
        measurement.heater_resistance,
        measurement.heater_current,
        measurement.gas_wait,
    ];
    put(&mut frame, 42, &tail);
    assert(tail@ == seq![
        measurement.gas_range,
        measurement.gas_index,
        measurement.measurement_index,
        measurement.heater_resistance,
        measurement.heater_current,
        measurement.gas_wait,
    ]);
    assert(frame@.take(48) == frame@);
    frame
}

/// Where each value stands in a frame.
pub proof fn frame_layout(node_id: u64, sequence: u32, measurement: SensorFrame)
    ensures
        ({
            let frame = frame_of(node_id, sequence, measurement);
            &&& frame.len() == FRAME_LEN
            &&& frame.subrange(0, 2) == FRAME_MAGIC@
            &&& frame[2] == FRAME_VERSION
            &&& frame[3] == measurement.status
            &&& frame.subrange(4, 12) == crate::bytes::be_bytes(node_id as int, 8)
            &&& frame.subrange(12, 16) == crate::bytes::be_bytes(sequence as int, 4)
            &&& frame.subrange(16, 18) == crate::bytes::be_bytes(
                twos_complement(measurement.temperature),
                2,
            )
            &&& frame.subrange(18, 22) == crate::bytes::be_bytes(measurement.pressure as int, 4)
            &&& frame.subrange(22, 26) == crate::bytes::be_bytes(measurement.humidity as int, 4)
            &&& frame.subrange(26, 30) == crate::bytes::be_bytes(
                measurement.gas_resistance as int,
                4,
            )
            &&& frame.subrange(30, 34) == crate::bytes::be_bytes(
                measurement.temperature_adc as int,
                4,
            )
            &&& frame.subrange(34, 38) == crate::bytes::be_bytes(measurement.pressure_adc as int, 4)
            &&& frame.subrange(38, 40) == crate::bytes::be_bytes(measurement.humidity_adc as int, 2)
            &&& frame.subrange(40, 42) == crate::bytes::be_bytes(
                measurement.gas_resistance_adc as int,
                2,
            )
            &&& frame[42] == measurement.gas_range
            &&& frame[43] == measurement.gas_index
            &&& frame[44] == measurement.measurement_index
            &&& frame[45] == measurement.heater_resistance
            &&& frame[46] == measurement.heater_current
            &&& frame[47] == measurement.gas_wait
        }),
{
    crate::bytes::lemma_be_bytes_len(node_id as int, 8);
    crate::bytes::lemma_be_bytes_len(sequence as int, 4);
    crate::bytes::lemma_be_bytes_len(twos_complement(measurement.temperature), 2);
    crate::bytes::lemma_be_bytes_len(measurement.pressure as int, 4);
    crate::bytes::lemma_be_bytes_len(measurement.humidity as int, 4);
    crate::bytes::lemma_be_bytes_len(measurement.gas_resistance as int, 4);
    crate::bytes::lemma_be_bytes_len(measurement.temperature_adc as int, 4);
    crate::bytes::lemma_be_bytes_len(measurement.pressure_adc as int, 4);
    crate::bytes::lemma_be_bytes_len(measurement.humidity_adc as int, 2);
    crate::bytes::lemma_be_bytes_len(measurement.gas_resistance_adc as int, 2);
}

/// A frame tells every value it was made from: two frames are equal only if
/// node, sequence and measurement are.
pub proof fn frames_determine_their_contents(
    node_id: u64,
    sequence: u32,
    measurement: SensorFrame,
    other_node_id: u64,
    other_sequence: u32,
    other_measurement: SensorFrame,
)
    requires
        frame_of(node_id, sequence, measurement) == frame_of(
            other_node_id,
            other_sequence,
            other_measurement,
        ),
    ensures
        node_id == other_node_id,
        sequence == other_sequence,
        measurement == other_measurement,
{
    frame_layout(node_id, sequence, measurement);
    frame_layout(other_node_id, other_sequence, other_measurement);
    lemma_be_bytes_injective(node_id as int, other_node_id as int, 8);
    lemma_be_bytes_injective(sequence as int, other_sequence as int, 4);
    lemma_be_bytes_injective(
        twos_complement(measurement.temperature),
        twos_complement(other_measurement.temperature),
        2,
    );
    lemma_be_bytes_injective(measurement.pressure as int, other_measurement.pressure as int, 4);
    lemma_be_bytes_injective(measurement.humidity as int, other_measurement.humidity as int, 4);
    lemma_be_bytes_injective(
        measurement.gas_resistance as int,
        other_measurement.gas_resistance as int,
        4,
    );
    lemma_be_bytes_injective(
        measurement.temperature_adc as int,
        other_measurement.temperature_adc as int,
        4,
    );
    lemma_be_bytes_injective(
        measurement.pressure_adc as int,
        other_measurement.pressure_adc as int,
        4,
    );
    lemma_be_bytes_injective(
        measurement.humidity_adc as int,
        other_measurement.humidity_adc as int,
        2,
    );
    lemma_be_bytes_injective(
        measurement.gas_resistance_adc as int,
        other_measurement.gas_resistance_adc as int,
        2,
    );
}

proof fn lemma_be_bytes_injective(left: int, right: int, width: nat)
    requires
        width == 2 || width == 4 || width == 8,
        0 <= left,
        0 <= right,
        width == 2 ==> left < 0x1_0000 && right < 0x1_0000,
        width == 4 ==> left < 0x1_0000_0000 && right < 0x1_0000_0000,
        width == 8 ==> left < 0x1_0000_0000_0000_0000 && right < 0x1_0000_0000_0000_0000,
    ensures
        crate::bytes::be_bytes(left, width) == crate::bytes::be_bytes(right, width) ==> left
            == right,
{
    reveal_with_fuel(crate::bytes::byte_range, 9);
    crate::bytes::be_bytes_round_trip(left, width);
    crate::bytes::be_bytes_round_trip(right, width);
}

} // verus!
