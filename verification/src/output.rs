//! Measurement output boundary of protocol v1.

use bme68x::Measurements;
use vstd::prelude::*;

use crate::driver::{Measurement, measurement_field};
use crate::payload::{self, SensorFrame};

verus! {

// `bme68x::Measurements` owns exactly three FIFO-style field slots.
pub const MAX_MEASUREMENT_FIELDS: usize = 3;

/// Stateful radio output. The radio hardware driver itself is intentionally
/// short-lived; only application metadata survives STOP2.
#[derive(Clone, Copy, Debug, PartialEq, Eq, Structural)]
pub struct RadioOutput {
    pub node_id: u64,
    pub sequence: u32,
}

/// The frames of one sensor read, oldest field first.
#[derive(Clone, Copy, Debug, PartialEq, Eq)]
pub struct FrameBatch {
    pub frames: [[u8; 48]; 3],
    pub count: usize,
}

/// A sensor read held more fields than the sensor has slots.
#[derive(Clone, Copy, Debug, PartialEq, Eq, Structural)]
pub struct PayloadSizeUnexpected {
    pub len: usize,
}

/// The sequence number `count` frames after `sequence`.
pub open spec fn sequence_after(sequence: u32, count: int) -> u32 {
    ((sequence + count) % 0x1_0000_0000) as u32
}

/// The frame contents of one field.
pub open spec fn contents_of(measurement: Measurement) -> SensorFrame {
    SensorFrame {
        status: measurement.status,
        temperature: measurement.values.temperature,
        pressure: measurement.values.pressure,
        humidity: measurement.values.humidity,
        gas_resistance: measurement.values.gas_resistance,
        temperature_adc: measurement.raw.temperature_adc,
        pressure_adc: measurement.raw.pressure_adc,
        humidity_adc: measurement.raw.humidity_adc,
        gas_resistance_adc: measurement.raw.gas_resistance_adc,
        gas_range: measurement.raw.gas_range,
        gas_index: measurement.gas_index,
        measurement_index: measurement.measurement_index,
        heater_resistance: measurement.heater_resistance,
        heater_current: measurement.heater_current,
        gas_wait: measurement.gas_wait,
    }
}

#[must_use]
pub fn sensor_frame(measurement: &Measurement) -> (frame: SensorFrame)
    ensures
        frame == contents_of(*measurement),
{
    SensorFrame {
        status: measurement.status,
        temperature: measurement.values.temperature,
        pressure: measurement.values.pressure,
        humidity: measurement.values.humidity,
        gas_resistance: measurement.values.gas_resistance,
        temperature_adc: measurement.raw.temperature_adc,
        pressure_adc: measurement.raw.pressure_adc,
        humidity_adc: measurement.raw.humidity_adc,
        gas_resistance_adc: measurement.raw.gas_resistance_adc,
        gas_range: measurement.raw.gas_range,
        gas_index: measurement.gas_index,
        measurement_index: measurement.measurement_index,
        heater_resistance: measurement.heater_resistance,
        heater_current: measurement.heater_current,
        gas_wait: measurement.gas_wait,
    }
}

impl RadioOutput {
    /// The fields of one sensor read were laid out, or refused as too many.
    pub open spec fn emits(
        self,
        before: Self,
        fields: Seq<Measurement>,
        result: Result<FrameBatch, PayloadSizeUnexpected>,
    ) -> bool {
        &&& match result {
            Ok(batch) => {
                &&& fields.len() <= MAX_MEASUREMENT_FIELDS
                &&& batch.count == fields.len()
                &&& forall|i: int|
                    0 <= i < batch.count ==> #[trigger] batch.frames@[i]@
                        == crate::payload::frame_of(
                        before.node_id,
                        sequence_after(before.sequence, i),
                        contents_of(fields[i]),
                    )
                &&& self.sequence == sequence_after(before.sequence, fields.len() as int)
            },
            Err(error) => {
                &&& fields.len() > MAX_MEASUREMENT_FIELDS
                &&& error.len == fields.len()
                &&& self.sequence == sequence_after(
                    before.sequence,
                    MAX_MEASUREMENT_FIELDS as int,
                )
            },
        }
        &&& self.node_id == before.node_id
    }

    #[must_use]
    pub fn new(node_id: u64) -> (output: Self)
        ensures
            output == (RadioOutput { node_id, sequence: 0 }),
    {
        RadioOutput { node_id, sequence: 0 }
    }

    /// The frame of one field, under the next sequence number.
    pub fn next_frame(&mut self, measurement: &Measurement) -> (frame: [u8; 48])
        ensures
            frame@ == crate::payload::frame_of(
                old(self).node_id,
                old(self).sequence,
                contents_of(*measurement),
            ),
            *final(self) == (RadioOutput {
                sequence: sequence_after(old(self).sequence, 1),
                ..*old(self)
            }),
    {
        let sequence: u32 = self.sequence;
        self.sequence = self.sequence.wrapping_add(1);
        payload::encode(self.node_id, sequence, &sensor_frame(measurement))
    }

    /// Lay out every new BME68x field as one fixed-width, versioned P2P frame.
    ///
    /// All fields from one sensor read share a single cold radio session. This
    /// avoids repeating reset, calibration, and TCXO startup if the sensor ever
    /// returns more than one of its three FIFO-style fields. More fields than
    /// that are refused instead of silently truncated.
    pub fn emit(&mut self, measurements: &Measurements) -> (result: Result<
        FrameBatch,
        PayloadSizeUnexpected,
    >)
        ensures
            final(self).emits(
                *old(self),
                crate::driver::measurement_fields(*measurements),
                result,
            ),
    {
        let len: usize = measurements.len();
        let mut batch = FrameBatch { frames: [[0u8; 48]; 3], count: 0 };
        while batch.count < len && batch.count < MAX_MEASUREMENT_FIELDS
            invariant
                len == crate::driver::measurement_fields(*measurements).len(),
                batch.count <= len,
                batch.count <= MAX_MEASUREMENT_FIELDS,
                self.node_id == old(self).node_id,
                self.sequence == sequence_after(old(self).sequence, batch.count as int),
                forall|i: int|
                    0 <= i < batch.count ==> #[trigger] batch.frames@[i]@
                        == crate::payload::frame_of(
                        old(self).node_id,
                        sequence_after(old(self).sequence, i),
                        contents_of(crate::driver::measurement_fields(*measurements)[i]),
                    ),
            decreases 3 - batch.count,
        {
            let frame = self.next_frame(&measurement_field(measurements, batch.count));
            batch.frames[batch.count] = frame;
            batch.count += 1;
        }
        if batch.count != len {
            return Err(PayloadSizeUnexpected { len });
        }
        Ok(batch)
    }
}

/// The integer that two bytes stand for from `at` on, the first one weighing most.
pub open spec fn two_bytes(frame: Seq<u8>, at: int) -> int {
    frame[at] * 0x100 + frame[at + 1]
}

/// The integer that four bytes stand for from `at` on, the first one weighing most.
pub open spec fn four_bytes(frame: Seq<u8>, at: int) -> int {
    two_bytes(frame, at) * 0x1_0000 + two_bytes(frame, at + 2)
}

/// The integer that eight bytes stand for from `at` on, the first one weighing most.
pub open spec fn eight_bytes(frame: Seq<u8>, at: int) -> int {
    four_bytes(frame, at) * 0x1_0000_0000 + four_bytes(frame, at + 4)
}

/// The frame of a field carries the field, each value at its documented offset:
/// the letters `VS`, version one and the status, node and sequence, the four
/// compensated values, the four raw values, and six bytes about gas and heater.
/// The temperature is signed, in two's complement.
pub open spec fn carries_field(
    frame: Seq<u8>,
    node_id: u64,
    sequence: int,
    field: Measurement,
) -> bool {
    &&& frame.len() == 48
    &&& frame[0] == 0x56
    &&& frame[1] == 0x53
    &&& frame[2] == 1
    &&& frame[3] == field.status
    &&& eight_bytes(frame, 4) == node_id
    &&& four_bytes(frame, 12) == sequence
    &&& two_bytes(frame, 16) == if field.values.temperature < 0 {
        0x1_0000 + field.values.temperature
    } else {
        field.values.temperature as int
    }
    &&& four_bytes(frame, 18) == field.values.pressure
    &&& four_bytes(frame, 22) == field.values.humidity
    &&& four_bytes(frame, 26) == field.values.gas_resistance
    &&& four_bytes(frame, 30) == field.raw.temperature_adc
    &&& four_bytes(frame, 34) == field.raw.pressure_adc
    &&& two_bytes(frame, 38) == field.raw.humidity_adc
    &&& two_bytes(frame, 40) == field.raw.gas_resistance_adc
    &&& frame[42] == field.raw.gas_range
    &&& frame[43] == field.gas_index
    &&& frame[44] == field.measurement_index
    &&& frame[45] == field.heater_resistance
    &&& frame[46] == field.heater_current
    &&& frame[47] == field.gas_wait
}

/// The frame that one field of a sensor read is laid out as carries that field
/// at the documented offsets, under the node and sequence number it was given.
pub proof fn frame_carries_its_field(node_id: u64, sequence: u32, field: Measurement)
    ensures
        ({
            let frame = crate::payload::frame_of(node_id, sequence, contents_of(field));
            &&& carries_field(frame, node_id, sequence as int, field)
            &&& crate::bytes::be_value(frame.subrange(18, 22)) == field.values.pressure
            &&& crate::bytes::be_value(frame.subrange(22, 26)) == field.values.humidity
        }),
{
    let contents = contents_of(field);
    let frame = crate::payload::frame_of(node_id, sequence, contents);
    crate::payload::frame_layout(node_id, sequence, contents);
    lemma_eight_bytes(frame, 4, node_id);
    lemma_four_bytes(frame, 12, sequence);
    lemma_two_bytes(frame, 16, crate::payload::twos_complement(field.values.temperature));
    lemma_four_bytes(frame, 18, contents.pressure);
    lemma_four_bytes(frame, 22, contents.humidity);
    lemma_four_bytes(frame, 26, contents.gas_resistance);
    lemma_four_bytes(frame, 30, contents.temperature_adc);
    lemma_four_bytes(frame, 34, contents.pressure_adc);
    lemma_two_bytes(frame, 38, contents.humidity_adc as int);
    lemma_two_bytes(frame, 40, contents.gas_resistance_adc as int);
    assert(crate::payload::FRAME_MAGIC@[0] == frame.subrange(0, 2)[0]);
    assert(crate::payload::FRAME_MAGIC@[1] == frame.subrange(0, 2)[1]);
}

proof fn lemma_two_bytes(frame: Seq<u8>, at: int, value: int)
    requires
        0 <= at <= frame.len() - 2,
        0 <= value < 0x1_0000,
        frame.subrange(at, at + 2) == crate::bytes::be_bytes(value, 2),
    ensures
        two_bytes(frame, at) == value,
{
    reveal_with_fuel(crate::bytes::be_bytes, 3);
    let bytes = crate::bytes::be_bytes(value, 2);
    assert(bytes[0] == frame[at] && bytes[1] == frame[at + 1]);
}

pub(crate) proof fn lemma_four_bytes(frame: Seq<u8>, at: int, value: u32)
    requires
        0 <= at <= frame.len() - 4,
        frame.subrange(at, at + 4) == crate::bytes::be_bytes(value as int, 4),
    ensures
        four_bytes(frame, at) == value,
        crate::bytes::be_value(frame.subrange(at, at + 4)) == value,
{
    reveal_with_fuel(crate::bytes::be_bytes, 5);
    reveal_with_fuel(crate::bytes::byte_range, 5);
    crate::bytes::be_bytes_round_trip(value as int, 4);
    let bytes = crate::bytes::be_bytes(value as int, 4);
    assert(bytes[0] == frame[at] && bytes[1] == frame[at + 1] && bytes[2] == frame[at + 2]
        && bytes[3] == frame[at + 3]);
}

proof fn lemma_eight_bytes(frame: Seq<u8>, at: int, value: u64)
    requires
        0 <= at <= frame.len() - 8,
        frame.subrange(at, at + 8) == crate::bytes::be_bytes(value as int, 8),
    ensures
        eight_bytes(frame, at) == value,
{
    let bytes = frame.subrange(at, at + 8);
    assert(crate::bytes::byte_range(8) == 0x1_0000_0000_0000_0000) by {
        reveal_with_fuel(crate::bytes::byte_range, 9);
    }
    crate::bytes::be_bytes_round_trip(value as int, 8);
    lemma_value_of_eight(bytes);
    assert(bytes[0] == frame[at] && bytes[1] == frame[at + 1] && bytes[2] == frame[at + 2]
        && bytes[3] == frame[at + 3] && bytes[4] == frame[at + 4] && bytes[5] == frame[at + 5]
        && bytes[6] == frame[at + 6] && bytes[7] == frame[at + 7]);
}

pub(crate) proof fn lemma_value_of_eight(bytes: Seq<u8>)
    requires
        bytes.len() == 8,
    ensures
        crate::bytes::be_value(bytes) == eight_bytes(bytes, 0),
{
    reveal_with_fuel(crate::bytes::be_value, 9);
}

/// An output begins with sequence number zero and keeps the node it was made for.
pub proof fn output_begins_at_zero(node_id: u64, output: RadioOutput)
    requires
        call_ensures(RadioOutput::new, (node_id,), output),
    ensures
        output.node_id == node_id,
        output.sequence == 0,
{
}

/// Every field of a sensor read is laid out as one frame, oldest first, under
/// consecutive sequence numbers that wrap after 32 bits and go on with the next
/// read. A read of more than three fields is refused.
pub proof fn every_field_gets_its_frame(
    before: RadioOutput,
    after: RadioOutput,
    fields: Seq<Measurement>,
    result: Result<FrameBatch, PayloadSizeUnexpected>,
)
    requires
        after.emits(before, fields, result),
    ensures
        result is Ok <==> fields.len() <= 3,
        result matches Ok(batch) ==> {
            &&& batch.count == fields.len()
            &&& forall|i: int|
                0 <= i < fields.len() ==> carries_field(
                    #[trigger] batch.frames@[i]@,
                    before.node_id,
                    (before.sequence + i) % 0x1_0000_0000,
                    fields[i],
                )
            &&& after.sequence as int == (before.sequence + fields.len()) % 0x1_0000_0000
        },
        result matches Err(error) ==> error.len == fields.len() && after.sequence as int == (
        before.sequence + 3) % 0x1_0000_0000,
        after.node_id == before.node_id,
{
    if let Ok(batch) = result {
        assert forall|i: int| 0 <= i < fields.len() implies carries_field(
            #[trigger] batch.frames@[i]@,
            before.node_id,
            (before.sequence + i) % 0x1_0000_0000,
            fields[i],
        ) by {
            frame_carries_its_field(
                before.node_id,
                sequence_after(before.sequence, i),
                fields[i],
            );
        }
    }
}

} // verus!
