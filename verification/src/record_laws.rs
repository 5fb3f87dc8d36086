//! What the records of a scan say, told by the sensor, the scan and the counts.

use vstd::prelude::*;

use crate::bme688_profile::{ProfileScan, ScanRun, Sensor, SensorMetadata};
use crate::board::ResetCause;
use crate::driver::{Filter, OperationMode, Oversampling, ProfileFinishReason, StandbyTime, Variant};
use crate::health::HealthCounters;
use crate::identity::DeviceIdentity;
use crate::protocol::{CodecError, Common, DeviceConfig, WireProfileScan};
use crate::runtime::Node;
use crate::telemetry_v2::{EncodedScan, Telemetry, TelemetrySettings};

verus! {

/// Microseconds of shared wait that a register stands for: its low six bits
/// count 477 us, four times as much for each step of its two high bits.
pub open spec fn wait_of_register(register: u8) -> int {
    let base = (register % 64) * 477;
    if register < 64 {
        base
    } else if register < 128 {
        4 * base
    } else if register < 192 {
        16 * base
    } else {
        64 * base
    }
}

/// A configuration record describes HP-354 as the heater is programmed with it:
/// ten steps with its ten targets and repetition counts, beside the registers
/// that were read back for them. Each repetition takes one shared wait and one
/// environmental measurement of 41,590 us, the seventy-seven repetitions of the
/// profile together take as long as the record says, and the record claims a
/// readback of exactly the ten steps.
pub proof fn configuration_describes_hp_354(
    config: DeviceConfig,
    metadata: SensorMetadata,
    settings: TelemetrySettings,
)
    requires
        crate::telemetry_v2::defines(config, metadata, settings),
    ensures
        config.profile_id == 0x0354,
        config.profile_version == 1,
        config.expected_step_count == 10,
        config.parallel_requested_shared_wait_ms == 99,
        config.tphg_duration_us == 41_590,
        config.operation_mode == 2,
        config.parallel_shared_wait_register
            == metadata.readback.heater.registers.shared_duration,
        config.parallel_quantized_shared_wait_us == wait_of_register(
            metadata.readback.heater.registers.shared_duration,
        ),
        forall|i: int|
            0 <= i < 10 ==> {
                &&& (#[trigger] config.steps@[i]).target_temperature_celsius
                    == crate::acquisition_laws::hp_354_targets()[i]
                &&& config.steps@[i].target_temperature_celsius
                    == crate::bme688_profile::programmed_profile().temperatures_celsius@[i]
                &&& config.steps@[i].repetition_multiplier
                    == crate::acquisition_laws::hp_354_repetitions()[i]
                &&& config.steps@[i].configured_duration_us
                    == crate::acquisition_laws::hp_354_repetitions()[i] * (
                config.parallel_quantized_shared_wait_us + 41_590)
                &&& config.steps@[i].readback_heater_current
                    == metadata.readback.heater.registers.current@[i]
                &&& config.steps@[i].programmed_heater_resistance
                    == metadata.readback.heater.registers.resistance@[i]
                &&& config.steps@[i].programmed_gas_wait
                    == metadata.readback.heater.registers.gas_wait@[i]
            },
        config.expected_profile_duration_us == 77 * (config.parallel_quantized_shared_wait_us
            + 41_590),
        forall|i: int|
            0 <= i < 10 ==> #[trigger] crate::driver::has_bit(
                config.heater_readback_valid_bitmap,
                i,
            ),
        config.heater_readback_valid_bitmap < 1024,
{
    let register = metadata.readback.heater.registers.shared_duration;
    let wait = crate::driver::shared_wait_us(register);
    lemma_wait(register);
    reveal_with_fuel(crate::profile_definition::steps_duration_us, 11);
    assert forall|i: int| 0 <= i < 10 implies {
        &&& (#[trigger] config.steps@[i]).target_temperature_celsius
            == crate::acquisition_laws::hp_354_targets()[i]
        &&& config.steps@[i].repetition_multiplier
            == crate::acquisition_laws::hp_354_repetitions()[i]
        &&& config.steps@[i].configured_duration_us
            == crate::acquisition_laws::hp_354_repetitions()[i] * (wait + 41_590)
        &&& config.steps@[i].readback_heater_current
            == metadata.readback.heater.registers.current@[i]
        &&& config.steps@[i].programmed_heater_resistance
            == metadata.readback.heater.registers.resistance@[i]
        &&& config.steps@[i].programmed_gas_wait
            == metadata.readback.heater.registers.gas_wait@[i]
    } by {
        assert(config.steps@[i] == crate::telemetry_v2::step_descriptor(metadata, i));
    }
    assert forall|i: int| 0 <= i < 10 implies #[trigger] crate::driver::has_bit(0x03ff, i) by {
        let k = i as u16;
        assert(0x03ffu16 & (1u16 << k) != 0) by (bit_vector)
            requires
                k < 10,
        ;
    }
}

proof fn lemma_wait(register: u8)
    ensures
        crate::driver::shared_wait_us(register) == wait_of_register(register),
        0 <= wait_of_register(register) <= 1_923_264,
{
}

/// Conversion cycles that an oversampling setting asks for.
pub open spec fn cycles_of(setting: Oversampling) -> int {
    match setting {
        Oversampling::Skipped => 0,
        Oversampling::X1 => 1,
        Oversampling::X2 => 2,
        Oversampling::X4 => 4,
        Oversampling::X8 => 8,
        Oversampling::X16 => 16,
    }
}

/// Samples that a filter setting remembers.
pub open spec fn memory_of(setting: Filter) -> int {
    match setting {
        Filter::Off => 0,
        Filter::Size1 => 1,
        Filter::Size3 => 3,
        Filter::Size7 => 7,
        Filter::Size15 => 15,
        Filter::Size31 => 31,
        Filter::Size63 => 63,
        Filter::Size127 => 127,
    }
}

/// Microseconds between two measurements that a standby setting asks for.
pub open spec fn standby_us(setting: StandbyTime) -> int {
    match setting {
        StandbyTime::Millis0_59 => 590,
        StandbyTime::Millis62_5 => 62_500,
        StandbyTime::Millis125 => 125_000,
        StandbyTime::Millis250 => 250_000,
        StandbyTime::Millis500 => 500_000,
        StandbyTime::Millis1000 => 1_000_000,
        StandbyTime::Millis10 => 10_000,
        StandbyTime::Millis20 => 20_000,
        StandbyTime::NoStandby => 0,
    }
}

/// Microseconds that a standby register value stands for.
pub open spec fn standby_register_us(register: u8) -> int {
    seq![590, 62_500, 125_000, 250_000, 500_000, 1_000_000, 10_000, 20_000, 0int][register as int]
}

/// Register values stand for the settings they are written for: an oversampling
/// field for its number of cycles, a filter field for one less than a power of
/// two samples, a standby value for its time, the mode bits for sleep, forced,
/// parallel and sequential operation in this order, and the variant ID for low
/// or high gas range.
pub proof fn register_values_stand_for_their_settings(
    oversampling: Oversampling,
    filter: Filter,
    standby: StandbyTime,
    mode: OperationMode,
    variant: Variant,
)
    ensures
        crate::driver::measurement_cycles(oversampling.spec_register_value()) == cycles_of(
            oversampling,
        ),
        oversampling.spec_register_value() <= 5,
        filter.spec_register_value() <= 7,
        memory_of(filter) + 1 == vstd::arithmetic::power2::pow2(
            filter.spec_register_value() as nat,
        ),
        standby.spec_register_value() <= 8,
        standby_register_us(standby.spec_register_value()) == standby_us(standby),
        mode is Sleep <==> mode.spec_register_value() == 0,
        mode is Forced <==> mode.spec_register_value() == 1,
        mode is Parallel <==> mode.spec_register_value() == 2,
        mode is Sequential <==> mode.spec_register_value() == 3,
        variant is GasLow <==> variant.spec_register_value() == 0,
        variant is GasHigh <==> variant.spec_register_value() == 1,
{
    vstd::arithmetic::power2::lemma2_to64();
}

/// A configuration record describes the sensor that was read back: its chip,
/// variant, address and calibration, the settings that its registers stand for,
/// and whether its heater-control bit leaves the heater on.
pub proof fn configuration_describes_its_sensor(
    config: DeviceConfig,
    metadata: SensorMetadata,
    settings: TelemetrySettings,
)
    requires
        crate::telemetry_v2::defines(config, metadata, settings),
    ensures
        config.sensor_chip_id == metadata.chip_id,
        config.sensor_variant == match metadata.variant {
            Variant::GasLow => 0int,
            Variant::GasHigh => 1,
        },
        config.sensor_i2c_address == metadata.address,
        config.calibration_hash == metadata.calibration_fingerprint,
        config.calibration_hash_algorithm == 1,
        config.flags.calibration_hash_valid,
        config.flags.sensor_config_read_back,
        crate::driver::measurement_cycles(config.temperature_oversampling) == cycles_of(
            metadata.readback.environmental.temperature_oversampling,
        ),
        crate::driver::measurement_cycles(config.pressure_oversampling) == cycles_of(
            metadata.readback.environmental.pressure_oversampling,
        ),
        crate::driver::measurement_cycles(config.humidity_oversampling) == cycles_of(
            metadata.readback.environmental.humidity_oversampling,
        ),
        memory_of(metadata.readback.environmental.filter) + 1 == vstd::arithmetic::power2::pow2(
            config.iir_filter as nat,
        ),
        standby_register_us(config.standby_time) == standby_us(
            metadata.readback.environmental.standby_time,
        ),
        config.heater_enabled == 1 - metadata.readback.heater.control_gas_0 / 8 % 2,
{
    register_values_stand_for_their_settings(
        metadata.readback.environmental.temperature_oversampling,
        metadata.readback.environmental.filter,
        metadata.readback.environmental.standby_time,
        metadata.readback.operation_mode,
        metadata.variant,
    );
    let control = metadata.readback.heater.control_gas_0;
    assert((control & 0x08 == 0) == (control / 8 % 2 == 0)) by (bit_vector);
}

/// A configuration record describes the build and the transport: the build ID
/// only if it is known, a radio node at 868.1 MHz with 5 dBm, spreading factor 7,
/// 125 kHz, coding rate 4/5, eight preamble symbols, explicit header, checksum,
/// normal IQ and sync word 0x1424, and a definition that is repeated every sixth
/// scan over the radio and every scan over the UART.
pub proof fn configuration_describes_build_and_transport(
    config: DeviceConfig,
    metadata: SensorMetadata,
    settings: TelemetrySettings,
)
    requires
        crate::telemetry_v2::defines(config, metadata, settings),
    ensures
        config.firmware_version == settings.build.version,
        config.firmware_build_flags.id_valid == settings.build.build_id_valid,
        config.firmware_build_flags.dirty == settings.build.dirty,
        config.firmware_build_flags.debug_sleep == settings.build.debug_sleep,
        settings.build.build_id_valid ==> config.firmware_build_id == settings.build.build_id,
        !settings.build.build_id_valid ==> config.firmware_build_id == 0,
        config.scan_interval_ms == settings.scan_interval_ms,
        config.output_routes == settings.route,
        settings.route is LoraP2p ==> config.config_repeat_interval_scans == 6,
        settings.route is UartCobsCrc32 ==> config.config_repeat_interval_scans == 1,
        config.max_frame_len == settings.max_frame_len,
        config.profile_steps_per_fragment == settings.steps_per_fragment,
        config.radio_frequency_hz == 868_100_000,
        config.radio_tx_power_dbm == 5,
        config.radio_spreading_factor == 7,
        config.radio_bandwidth_hz == 125_000,
        config.radio_coding_rate_numerator == 4,
        config.radio_coding_rate_denominator == 5,
        config.radio_preamble_symbols == 8,
        config.radio_header_mode == 0,
        config.radio_phy_crc_enabled == 1,
        config.radio_iq_inverted == 0,
        config.radio_sync_word == 0x1424,
{
}

/// The record of an exactly verified sensor shows the documented profile: the
/// settings it samples with, its register for the shared wait of 97,308 us, the
/// documented duration of every step and of the whole profile, and as gas waits
/// the repetition counts.
pub proof fn exact_configuration_shows_the_documented_profile(
    config: DeviceConfig,
    metadata: SensorMetadata,
    settings: TelemetrySettings,
    resistances: Seq<u8>,
)
    requires
        crate::telemetry_v2::defines(config, metadata, settings),
        crate::bme688_profile::holds_profile(metadata.readback, metadata.variant, resistances),
    ensures
        config.temperature_oversampling == 2,
        config.pressure_oversampling == 5,
        config.humidity_oversampling == 1,
        config.iir_filter == 0,
        config.standby_time == 8,
        config.heater_enabled == 1,
        config.parallel_shared_wait_register == 0x73,
        config.parallel_quantized_shared_wait_us == 97_308,
        config.expected_profile_duration_us == 10_695_146,
        forall|i: int|
            0 <= i < 10 ==> {
                &&& (#[trigger] config.steps@[i]).configured_duration_us == seq![
                    694_490int,
                    277_796,
                    1_388_980,
                    4_166_940,
                    694_490,
                    694_490,
                    694_490,
                    694_490,
                    694_490,
                    694_490,
                ][i]
                &&& config.steps@[i].programmed_gas_wait == config.steps@[i].repetition_multiplier
                &&& config.steps@[i].programmed_heater_resistance == resistances[i]
            },
{
    configuration_describes_hp_354(config, metadata, settings);
    let repetitions = crate::acquisition_laws::hp_354_repetitions();
    assert(config.parallel_quantized_shared_wait_us + 41_590 == 138_898);
    assert forall|i: int| 0 <= i < 10 implies (#[trigger] config.steps@[i]).configured_duration_us
        == repetitions[i] * 138_898 by {}
    assert forall|i: int| 0 <= i < 10 implies {
        &&& (#[trigger] config.steps@[i]).programmed_gas_wait
            == config.steps@[i].repetition_multiplier
        &&& config.steps@[i].programmed_heater_resistance == resistances[i]
    } by {
        assert(config.steps@[i] == crate::telemetry_v2::step_descriptor(metadata, i));
    }
    assert(config.steps@[0].configured_duration_us == 694_490);
    assert(config.steps@[1].configured_duration_us == 277_796);
    assert(config.steps@[2].configured_duration_us == 1_388_980);
    assert(config.steps@[3].configured_duration_us == 4_166_940);
    assert(forall|i: int|
        4 <= i < 10 ==> (#[trigger] config.steps@[i]).configured_duration_us == 694_490);
}

/// A canonical configuration is that of the readback in everything but its
/// heater currents, which are those captured at the start.
pub proof fn canonical_configuration_keeps_all_but_the_currents(
    config: DeviceConfig,
    metadata: SensorMetadata,
    settings: TelemetrySettings,
    idac: Seq<u8>,
    observed: DeviceConfig,
)
    requires
        crate::telemetry_v2::canonical_config(config, metadata, settings, idac),
        crate::telemetry_v2::defines(observed, metadata, settings),
    ensures
        config == (DeviceConfig { steps: config.steps, ..observed }),
        forall|i: int|
            0 <= i < 10 ==> {
                &&& (#[trigger] config.steps@[i]).readback_heater_current == idac[i]
                &&& config.steps@[i].target_temperature_celsius
                    == crate::acquisition_laws::hp_354_targets()[i]
                &&& config.steps@[i].repetition_multiplier
                    == crate::acquisition_laws::hp_354_repetitions()[i]
                &&& config.steps@[i].configured_duration_us
                    == observed.steps@[i].configured_duration_us
                &&& config.steps@[i].programmed_heater_resistance
                    == metadata.readback.heater.registers.resistance@[i]
                &&& config.steps@[i].programmed_gas_wait
                    == metadata.readback.heater.registers.gas_wait@[i]
            },
{
    let chosen = choose|chosen: DeviceConfig|
        #![trigger crate::telemetry_v2::defines(chosen, metadata, settings)]
        crate::telemetry_v2::defines(chosen, metadata, settings)
            && crate::profile_status::canonicalized(chosen, idac, config);
    configuration_describes_hp_354(chosen, metadata, settings);
    configuration_describes_hp_354(observed, metadata, settings);
    assert(chosen.steps =~= observed.steps) by {
        assert(chosen.steps@ =~= observed.steps@);
    }
    assert forall|i: int| 0 <= i < 10 implies #[trigger] config.steps@[i]
        == crate::profile_status::with_heater_current(observed.steps@[i], idac[i]) by {}
}

/// How many of the first `count` steps of a profile record are there.
pub open spec fn recorded_steps(wire: WireProfileScan, count: nat) -> nat
    decreases count,
{
    if count == 0 {
        0
    } else {
        recorded_steps(wire, (count - 1) as nat) + if wire.steps@[count - 1] is Some {
            1nat
        } else {
            0
        }
    }
}

/// The record of a scan misses exactly the steps that it does not carry: bit `i`
/// of its bitmap is set if and only if step `i` is not there, no bit stands for a
/// step beyond the tenth, and the record of a structurally complete scan misses
/// none. It counts the steps that are there.
pub proof fn record_maps_its_missing_steps(
    run: ScanRun,
    sensor: Sensor,
    scan: ProfileScan,
    config: DeviceConfig,
    wire: WireProfileScan,
)
    requires
        run.wf(),
        run.yields(sensor, scan),
        crate::telemetry_v2::records_scan(wire, scan, config),
    ensures
        forall|i: int|
            0 <= i < 10 ==> (#[trigger] crate::driver::has_bit(wire.missing_steps_bitmap, i)
                <==> wire.steps@[i] is None),
        wire.missing_steps_bitmap < 1024,
        scan.profile.structurally_complete <==> wire.missing_steps_bitmap == 0,
        scan.profile.structurally_complete <==> forall|i: int|
            0 <= i < 10 ==> #[trigger] wire.steps@[i] is Some,
        wire.observed_unique_step_count == recorded_steps(wire, 10),
        wire.expected_step_count == 10,
        wire.duplicate_steps_bitmap < 1024,
{
    let profile = scan.profile;
    crate::driver::report_maps_the_steps_it_holds(
        profile,
        crate::driver::collector_state(run.collector),
    );
    assert forall|i: int| 0 <= i < 10 implies {
        &&& #[trigger] wire.steps@[i] is Some <==> profile.steps@[i] is Some
        &&& crate::driver::has_bit(wire.missing_steps_bitmap, i) <==> wire.steps@[i] is None
    } by {
        assert(wire.steps@[i] == crate::telemetry_v2::wire_step(scan, config, i));
    }
    assert forall|i: int| 0 <= i < 10 implies (#[trigger] crate::driver::has_bit(
        wire.missing_steps_bitmap,
        i,
    ) <==> wire.steps@[i] is None) by {
        assert(wire.steps@[i] is Some <==> profile.steps@[i] is Some);
    }
    assert forall|i: int| 0 <= i < 10 implies (#[trigger] profile.steps@[i] is Some
        <==> wire.steps@[i] is Some) by {
        assert(wire.steps@[i] is Some <==> profile.steps@[i] is Some);
    }
    lemma_recorded_steps(wire, profile.steps@, 10);
}

proof fn lemma_recorded_steps(
    wire: WireProfileScan,
    steps: Seq<Option<crate::driver::ProfileStep>>,
    count: nat,
)
    requires
        count <= 10,
        forall|i: int| 0 <= i < 10 ==> (#[trigger] wire.steps@[i] is Some <==> steps[i] is Some),
    ensures
        recorded_steps(wire, count) == crate::driver::held_steps(steps, count),
        recorded_steps(wire, count) <= count,
    decreases count,
{
    if count != 0 {
        lemma_recorded_steps(wire, steps, (count - 1) as nat);
        assert(wire.steps@[count - 1] is Some <==> steps[count - 1] is Some);
    }
}

/// A recorded step carries the measurement that was retained for it, value for
/// value, with the offset it was read at, and beside it the target, duration and
/// repetition count that the configuration gives to the step of this number.
/// The heater current is the measurement's own, never that of the configuration.
pub proof fn recorded_step_carries_its_measurement(
    scan: ProfileScan,
    config: DeviceConfig,
    wire: WireProfileScan,
    i: int,
)
    requires
        0 <= i < 10,
        crate::telemetry_v2::records_scan(wire, scan, config),
    ensures
        wire.steps@[i] is Some <==> scan.profile.steps@[i] is Some,
        wire.steps@[i] matches Some(step) ==> {
            let held = scan.profile.steps@[i]->Some_0;
            let values = held.measurement.values;
            let raw = held.measurement.raw;
            &&& step.step_index == i
            &&& step.offset_us == held.observed_offset_us
            &&& step.gas_index == held.measurement.gas_index
            &&& step.measurement_index == held.measurement.measurement_index
            &&& step.status == held.measurement.status
            &&& step.raw_measurement_status == held.measurement.raw_field_status
            &&& step.raw_gas_status == held.measurement.raw_gas_status
            &&& step.temperature_centi_celsius == values.temperature
            &&& step.pressure_pascal == values.pressure
            &&& step.humidity_milli_percent_rh == values.humidity
            &&& step.gas_resistance_ohm == values.gas_resistance
            &&& step.temperature_adc == raw.temperature_adc
            &&& step.pressure_adc == raw.pressure_adc
            &&& step.humidity_adc == raw.humidity_adc
            &&& step.gas_resistance_adc == raw.gas_resistance_adc
            &&& step.gas_range == raw.gas_range
            &&& step.heater_resistance == held.measurement.heater_resistance
            &&& step.heater_current == held.measurement.heater_current
            &&& step.gas_wait == held.measurement.gas_wait
            &&& step.target_temperature_celsius == config.steps@[i].target_temperature_celsius
            &&& step.configured_duration_us == config.steps@[i].configured_duration_us
            &&& step.repetition_multiplier == config.steps@[i].repetition_multiplier
        },
{
    assert(wire.steps@[i] == crate::telemetry_v2::wire_step(scan, config, i));
}

/// In the record of a scan under the node's own configuration the step of gas
/// index `i` has the target that HP-354 gives to step `i`, its repetition count,
/// and a duration of that many repetitions.
pub proof fn recorded_step_has_its_target(
    run: ScanRun,
    sensor: Sensor,
    scan: ProfileScan,
    metadata: SensorMetadata,
    settings: TelemetrySettings,
    config: DeviceConfig,
    wire: WireProfileScan,
    i: int,
)
    requires
        0 <= i < 10,
        run.yields(sensor, scan),
        crate::telemetry_v2::defines(config, metadata, settings),
        crate::telemetry_v2::records_scan(wire, scan, config),
        wire.steps@[i] is Some,
    ensures
        wire.steps@[i]->Some_0.gas_index == i,
        wire.steps@[i]->Some_0.step_index == i,
        wire.steps@[i]->Some_0.target_temperature_celsius
            == crate::acquisition_laws::hp_354_targets()[i],
        wire.steps@[i]->Some_0.repetition_multiplier
            == crate::acquisition_laws::hp_354_repetitions()[i],
        wire.steps@[i]->Some_0.configured_duration_us
            == crate::acquisition_laws::hp_354_repetitions()[i] * (
        config.parallel_quantized_shared_wait_us + 41_590),
{
    recorded_step_carries_its_measurement(scan, config, wire, i);
    configuration_describes_hp_354(config, metadata, settings);
    assert(config.steps@[i].target_temperature_celsius
        == crate::acquisition_laws::hp_354_targets()[i]);
    assert(crate::driver::slot_agrees(
        scan.profile.steps@[i],
        i,
        scan.profile.observed_mask,
        scan.profile.gas_valid_mask,
        scan.profile.heater_stable_mask,
    ));
}

/// The counts of a record are those of the scan: each counter under its own
/// name, the discarded fields summed up to the largest 16-bit count, and the
/// duration up to the largest 32-bit one.
pub proof fn record_carries_the_counts_of_the_scan(
    scan: ProfileScan,
    config: DeviceConfig,
    wire: WireProfileScan,
)
    requires
        crate::telemetry_v2::records_scan(wire, scan, config),
    ensures
        wire.profile_id == 0x0354,
        wire.profile_version == 1,
        wire.expected_step_count == 10,
        wire.observed_field_count == scan.profile.observed_field_count,
        wire.duplicate_steps_bitmap == scan.profile.duplicate_mask,
        wire.duplicate_count == scan.profile.counters.duplicates,
        wire.overwritten_field_count == scan.profile.counters.overwritten_fields,
        wire.out_of_order_count == scan.profile.counters.out_of_order_fields,
        wire.ambiguous_index_jump_count == scan.profile.counters.ambiguous_index_jumps,
        wire.invalid_gas_index_count == scan.profile.counters.invalid_gas_indexes,
        wire.profile_rollover_count == scan.profile.counters.profile_rollovers,
        wire.fields_after_rollover_count == scan.profile.counters.fields_after_rollover,
        wire.intermediate_field_count as int == crate::acquisition_laws::at_most(
            scan.profile.counters.intermediate_fields + scan.pre_scan_discarded_fields,
            0xffff,
        ),
        wire.poll_count == scan.poll_count,
        wire.scan_duration_us as int == crate::acquisition_laws::at_most(
            scan.duration_us as int,
            0xffff_ffff,
        ),
{
}

/// The flags of a record agree with its counts and its steps: each count that
/// has a flag is flagged exactly if it is not zero, a lost or ambiguous order if
/// any of the four counts of it is not, no new data if no field was observed,
/// invalid gas and unstable heaters exactly if a recorded step says so.
pub proof fn flags_agree_with_the_record(
    run: ScanRun,
    sensor: Sensor,
    scan: ProfileScan,
    config: DeviceConfig,
    wire: WireProfileScan,
)
    requires
        run.wf(),
        run.yields(sensor, scan),
        crate::telemetry_v2::records_scan(wire, scan, config),
    ensures
        wire.collection_flags.duplicate <==> wire.duplicate_count != 0,
        wire.collection_flags.overwritten <==> wire.overwritten_field_count != 0,
        wire.collection_flags.gas_index_out_of_range <==> wire.invalid_gas_index_count != 0,
        wire.collection_flags.measurement_discontinuity <==> wire.out_of_order_count != 0
            || wire.ambiguous_index_jump_count != 0 || wire.profile_rollover_count != 0
            || wire.fields_after_rollover_count != 0,
        wire.collection_flags.no_new_data <==> wire.observed_field_count == 0,
        wire.collection_flags.invalid_gas <==> exists|i: int|
            0 <= i < 10 && (#[trigger] wire.steps@[i] matches Some(step) && step.status & 0x20
                == 0),
        wire.collection_flags.heater_unstable <==> exists|i: int|
            0 <= i < 10 && (#[trigger] wire.steps@[i] matches Some(step) && step.status & 0x10
                == 0),
{
    let profile = scan.profile;
    crate::driver::report_maps_the_steps_it_holds(
        profile,
        crate::driver::collector_state(run.collector),
    );
    assert forall|i: int| 0 <= i < 10 implies {
        &&& #[trigger] wire.steps@[i] is Some <==> profile.steps@[i] is Some
        &&& wire.steps@[i] matches Some(step) ==> step.status
            == profile.steps@[i]->Some_0.measurement.status
    } by {
        recorded_step_carries_its_measurement(scan, config, wire, i);
    }
    if profile.gas_invalid_mask != 0 {
        let i = choose|i: int|
            0 <= i < 10 && #[trigger] profile.steps@[i] is Some && !crate::driver::gas_valid_slot(
                profile.steps@[i],
            );
        assert(wire.steps@[i] is Some);
    }
    if !profile.heater_stable() {
        let i = choose|i: int|
            0 <= i < 10 && #[trigger] profile.steps@[i] is Some
                && !crate::driver::heater_stable_slot(profile.steps@[i]);
        assert(wire.steps@[i] is Some);
    }
    if exists|i: int|
        0 <= i < 10 && (#[trigger] wire.steps@[i] matches Some(step) && step.status & 0x20 == 0) {
        let i = choose|i: int|
            0 <= i < 10 && (#[trigger] wire.steps@[i] matches Some(step) && step.status & 0x20
                == 0);
        assert(profile.steps@[i] is Some && !crate::driver::gas_valid_slot(profile.steps@[i]));
    }
    if exists|i: int|
        0 <= i < 10 && (#[trigger] wire.steps@[i] matches Some(step) && step.status & 0x10 == 0) {
        let i = choose|i: int|
            0 <= i < 10 && (#[trigger] wire.steps@[i] matches Some(step) && step.status & 0x10
                == 0);
        assert(profile.steps@[i] is Some);
    }
}

/// What else the flags of a record say: a bus error if any was counted, drained
/// fields, an overflow if a field count does not fit, a mismatching or a
/// restored configuration. A timed-out collection is flagged once: as an
/// exhausted poll budget from 150 polls on, as a timeout below.
pub proof fn flags_tell_how_the_scan_went(
    scan: ProfileScan,
    config: DeviceConfig,
    wire: WireProfileScan,
)
    requires
        crate::telemetry_v2::records_scan(wire, scan, config),
    ensures
        wire.collection_flags.i2c_error <==> scan.configuration_i2c_errors != 0
            || scan.post_scan_configuration_i2c_errors != 0 || (
        scan.collection_error matches Some(error) && error.source is Bus) || (
        scan.sleep_error matches Some(error) && error.source is Bus),
        wire.collection_flags.stale_pre_scan_fields <==> scan.pre_scan_discarded_fields > 0,
        wire.collection_flags.observation_overflow
            <==> scan.profile.observed_field_count_overflowed
            || scan.profile.counters.intermediate_fields + scan.pre_scan_discarded_fields > 0xffff,
        wire.collection_flags.config_mismatch <==> !scan.configuration_verified,
        wire.collection_flags.sensor_reconfigured <==> scan.configuration_verified
            && scan.sensor_reconfigured,
        wire.collection_flags.timeout || wire.collection_flags.poll_budget_exhausted
            <==> scan.profile.finish_reason == Some(ProfileFinishReason::Timeout),
        wire.collection_flags.poll_budget_exhausted ==> wire.poll_count >= 150,
        wire.collection_flags.timeout ==> wire.poll_count < 150,
{
}

/// A record says that its scan completed only if nothing failed at the sensor
/// and collection completed; that it timed out, spent its polls or rolled over
/// under the same condition; and that the sensor failed in every other case.
pub proof fn record_says_how_the_scan_ended(
    scan: ProfileScan,
    config: DeviceConfig,
    wire: WireProfileScan,
)
    requires
        crate::telemetry_v2::records_scan(wire, scan, config),
    ensures
        ({
            let failed = !scan.configuration_verified || scan.collection_error is Some
                || scan.sleep_error is Some;
            let ended = |reason: ProfileFinishReason| scan.profile.finish_reason == Some(reason);
            &&& wire.finish_reason is Complete <==> !failed && ended(ProfileFinishReason::Complete)
            &&& wire.finish_reason is Timeout <==> !failed && ended(ProfileFinishReason::Timeout)
                && scan.poll_count < 150
            &&& wire.finish_reason is PollBudget <==> !failed && ended(ProfileFinishReason::Timeout)
                && scan.poll_count >= 150
            &&& wire.finish_reason is ProfileRollover <==> !failed && ended(
                ProfileFinishReason::ProfileRollover,
            )
            &&& wire.finish_reason is SensorError <==> failed || ended(
                ProfileFinishReason::BusError,
            ) || ended(ProfileFinishReason::SensorStopped) || scan.profile.finish_reason is None
        }),
{
}

/// The header names this boot: its node, its reset cause, and its boot ID only
/// if that is a nonce of the hardware generator.
pub open spec fn names_boot(
    common: Common,
    identity: DeviceIdentity,
    reset_cause: ResetCause,
) -> bool {
    let nonce = identity.boot_id_valid && identity.boot_id_from_hardware_rng;
    &&& common.node_id == identity.node_id
    &&& common.reset_cause_flags == reset_cause.flags
    &&& common.boot_id_valid <==> nonce
    &&& common.boot_id_from_hardware_rng <==> nonce
    &&& nonce ==> common.boot_id == identity.boot_id
    &&& !nonce ==> common.boot_id == 0
}

/// The records of a scan share one header but for their times and configuration
/// IDs. The profile record has the time of the heater trigger, the others the
/// time they were laid out at. The configuration record comes with a verified
/// scan if it is pending or its turn has come, which over the radio is every
/// sixth scan; health comes with every sixth scan, counted from scan zero. The
/// profile record names the configuration if its scan was verified, and health
/// if the configuration still describes the sensor.
pub proof fn records_share_their_header(
    telemetry: Telemetry,
    records: EncodedScan,
    scan: ProfileScan,
    counters: HealthCounters,
    config_uptime_ms: u64,
    health_uptime_ms: u64,
)
    requires
        telemetry.reports(records, scan, counters, config_uptime_ms, health_uptime_ms),
    ensures
        records.sequence == telemetry.next_scan_sequence,
        names_boot(records.profile.common, telemetry.identity, telemetry.reset_cause),
        records.profile.common.sequence == telemetry.next_scan_sequence,
        records.profile.common.uptime_ms == scan.started_at_ms,
        scan.configuration_verified ==> records.profile.common.config_id == telemetry.config_id,
        !scan.configuration_verified ==> records.profile.common.config_id == 0,
        crate::telemetry_v2::records_scan(records.profile.scan, scan, telemetry.config),
        records.config is Some <==> scan.configuration_verified && (
        telemetry.config_delivery@.pending || telemetry.settings.route is UartCobsCrc32
            || telemetry.next_scan_sequence as int % 6 == 0),
        records.config matches Some(frame) ==> {
            &&& names_boot(frame.common, telemetry.identity, telemetry.reset_cause)
            &&& frame.common.sequence == telemetry.next_scan_sequence
            &&& frame.common.uptime_ms == config_uptime_ms
            &&& frame.common.config_id == telemetry.config_id
            &&& frame.config == telemetry.config
            &&& frame.repeated == telemetry.config_delivery@.delivered
        },
        records.health is Some <==> telemetry.next_scan_sequence as int % 6 == 0,
        records.health matches Some(frame) ==> {
            &&& names_boot(frame.common, telemetry.identity, telemetry.reset_cause)
            &&& frame.common.sequence == telemetry.next_scan_sequence
            &&& frame.common.uptime_ms == health_uptime_ms
            &&& frame.common.config_id == if scan.spec_identity_available() {
                telemetry.config_id
            } else {
                0
            }
            &&& frame.health.successful_sensor_scans == counters.successful_sensor_scans
            &&& frame.health.failed_sensor_scans == counters.failed_sensor_scans
            &&& frame.health.incomplete_profiles == counters.incomplete_profiles
            &&& frame.health.i2c_errors == counters.i2c_errors
            &&& frame.health.radio_tx_errors == counters.radio_tx_errors
            &&& frame.health.dropped_profiles == counters.dropped_profiles
            &&& frame.health.dropped_fragments == counters.dropped_fragments
            &&& frame.health.overwritten_fields == counters.overwritten_fields
            &&& frame.health.reset_cause_raw == telemetry.reset_cause.raw
            &&& frame.health.current_sample_interval_ms == telemetry.settings.scan_interval_ms
            &&& frame.health.firmware_version == telemetry.settings.build.version
            &&& frame.health.flags.boot_id_unavailable == !telemetry.identity.boot_id_valid
        },
{
    assert(telemetry.next_scan_sequence as int % 1 == 0);
}

/// Laying out a scan leaves its configuration pending if a record of it went
/// into the batch or it was pending before, and changes nothing of what was
/// delivered; the next scan gets the next sequence number, wrapping.
pub proof fn laid_out_configuration_stays_pending(
    before: Node,
    after: Node,
    records: EncodedScan,
    scan: ProfileScan,
    counters: HealthCounters,
    config_uptime_ms: u64,
    health_uptime_ms: u64,
)
    requires
        after.laid_out(
            before,
            records,
            scan,
            counters,
            config_uptime_ms,
            health_uptime_ms,
        ),
    ensures
        after.telemetry.config_delivery@.pending <==> before.telemetry.config_delivery@.pending
            || records.config is Some,
        after.telemetry.config_delivery@.delivered == before.telemetry.config_delivery@.delivered,
        after.telemetry.next_scan_sequence as int == (before.telemetry.next_scan_sequence + 1)
            % 0x1_0000_0000,
        after.telemetry.config == before.telemetry.config,
        after.telemetry.config_id == before.telemetry.config_id,
        after.telemetry.identity == before.telemetry.identity,
        after.telemetry.reset_cause == before.telemetry.reset_cause,
        after.telemetry.settings == before.telemetry.settings,
        after.telemetry.canonical_idac == before.telemetry.canonical_idac,
        after.counters == counters,
        after.sensor == before.sensor,
{
}

/// A changed ID makes the configuration undelivered and pending again; the same
/// ID leaves configuration and delivery as they were. Neither touches the boot,
/// the captured heater currents or the sequence.
pub proof fn only_a_changed_id_redelivers(
    before: Node,
    refreshed: Node,
    metadata: SensorMetadata,
    id: u64,
)
    requires
        refreshed.refreshes(before, metadata, id),
    ensures
        refreshed.telemetry.config_id == id,
        id != before.telemetry.config_id ==> refreshed.telemetry.config_delivery@.pending
            && !refreshed.telemetry.config_delivery@.delivered,
        id == before.telemetry.config_id ==> refreshed.telemetry.config_delivery@
            == before.telemetry.config_delivery@ && refreshed.telemetry.config
            == before.telemetry.config,
        refreshed.telemetry.next_scan_sequence == before.telemetry.next_scan_sequence,
        refreshed.telemetry.identity == before.telemetry.identity,
        refreshed.telemetry.reset_cause == before.telemetry.reset_cause,
        refreshed.telemetry.settings == before.telemetry.settings,
        refreshed.telemetry.canonical_idac == before.telemetry.canonical_idac,
        refreshed.counters == before.counters,
        refreshed.sensor == before.sensor,
{
}

/// Telemetry that was established starts at sequence zero under the codec's ID,
/// with the configuration of its sensor pending and never delivered, and keeps
/// the heater currents of that first readback; what the codec refuses is not
/// established.
pub proof fn telemetry_starts_undelivered(
    identity: DeviceIdentity,
    reset_cause: ResetCause,
    settings: TelemetrySettings,
    metadata: SensorMetadata,
    config_id: Result<u64, CodecError>,
    result: Result<Telemetry, CodecError>,
)
    requires
        call_ensures(
            Telemetry::new,
            (identity, reset_cause, settings, &metadata, config_id),
            result,
        ),
    ensures
        result is Ok <==> config_id is Ok,
        result matches Ok(telemetry) ==> {
            &&& telemetry.config_id == config_id->Ok_0
            &&& telemetry.next_scan_sequence == 0
            &&& telemetry.config_delivery@.pending
            &&& !telemetry.config_delivery@.delivered
            &&& telemetry.identity == identity
            &&& telemetry.reset_cause == reset_cause
            &&& telemetry.settings == settings
            &&& forall|i: int|
                0 <= i < 10 ==> #[trigger] telemetry.canonical_idac@[i]
                    == metadata.readback.heater.registers.current@[i]
            &&& crate::telemetry_v2::defines(telemetry.config, metadata, settings)
        },
{
}

} // verus!
