//! What the protocol-v2 records of a scan say.
//!
//! This module decides what each record says. The codec, which turns records
//! into bytes and hashes a configuration into its ID, belongs to the
//! application, and its results come in as arguments.

use vstd::prelude::*;

use crate::bme688_profile::{MAX_POLL_COUNT, ProfileScan, SensorMetadata, elapsed_us_saturating};
use crate::board::ResetCause;
use crate::driver::{OperationMode, ProfileFinishReason};
use crate::health::{
    HealthCounters, heater_stable, measurement_discontinuity, observation_overflowed,
    scan_is_successful,
};
use crate::identity::{DeviceIdentity, FirmwareBuild};
use crate::profile_definition::{
    PROFILE_ID, PROFILE_REPETITION_MULTIPLIERS, PROFILE_STEP_COUNT, PROFILE_TEMPERATURES_CELSIUS,
    PROFILE_VERSION, REQUESTED_SHARED_DURATION_MS, TPHG_DURATION_US, TimeoutBound, timeout_bound,
};
use crate::profile_policy::{HEALTH_INTERVAL_SCANS, config_repeat_interval_scans};
use crate::profile_status::{
    CanonicalIdacSnapshot, DeviceConfigDeliveryState, configuration_check_due,
    configuration_collection_flags, total_discarded_field_count, wire_config_id, wire_profile_step,
};
use crate::protocol::{
    BuildFlags, CodecError, CollectionFlagBits, CollectionFlags, Common, ConfigFlags, DeviceConfig, DeviceHealth,
    FinishReason, HealthFlags, HeaterStepConfig, OutputRoute, WireProfileScan, WireProfileStep,
};

verus! {

pub const CALIBRATION_HASH_FNV1A64_CANONICAL_REGISTER_BYTES: u8 = 1;

/// Bitmap that claims every step descriptor was read back.
pub const ALL_STEPS_READ_BACK: u16 = 0x03ff;

/// What a build fixes of every record.
#[derive(Clone, Copy, Debug, PartialEq, Eq)]
pub struct TelemetrySettings {
    pub build: FirmwareBuild,
    pub route: OutputRoute,
    pub scan_interval_ms: u32,
    /// Longest frame that the codec produces.
    pub max_frame_len: u8,
    /// Heater steps that the codec puts into one fragment.
    pub steps_per_fragment: u8,
}

/// Descriptor of step `i` on a sensor with the given heater registers.
pub open spec fn step_descriptor(metadata: SensorMetadata, i: int) -> HeaterStepConfig {
    let registers = metadata.readback.heater.registers;
    HeaterStepConfig {
        target_temperature_celsius: PROFILE_TEMPERATURES_CELSIUS@[i],
        configured_duration_us: crate::driver::step_duration_us(
            PROFILE_REPETITION_MULTIPLIERS@[i],
            registers.shared_duration,
            TPHG_DURATION_US,
        ) as u32,
        repetition_multiplier: PROFILE_REPETITION_MULTIPLIERS@[i],
        readback_heater_current: registers.current@[i],
        programmed_heater_resistance: registers.resistance@[i],
        programmed_gas_wait: registers.gas_wait@[i],
    }
}

/// A microsecond count, held at the largest 32-bit value.
pub open spec fn saturated_duration(total: int) -> u32 {
    if total > u32::MAX {
        u32::MAX
    } else {
        total as u32
    }
}

/// `config` is the complete definition of a sensor read back as `metadata`,
/// running under the given settings.
pub open spec fn defines(
    config: DeviceConfig,
    metadata: SensorMetadata,
    settings: TelemetrySettings,
) -> bool {
    let readback = metadata.readback;
    let shared = readback.heater.registers.shared_duration;
    &&& config == (DeviceConfig {
        flags: ConfigFlags { calibration_hash_valid: true, sensor_config_read_back: true },
        firmware_version: settings.build.version,
        firmware_build_flags: BuildFlags {
            id_valid: settings.build.build_id_valid,
            dirty: settings.build.dirty,
            debug_sleep: settings.build.debug_sleep,
        },
        firmware_build_id: if settings.build.build_id_valid {
            settings.build.build_id
        } else {
            0
        },
        sensor_chip_id: metadata.chip_id,
        sensor_variant: metadata.variant.spec_register_value(),
        sensor_i2c_address: metadata.address,
        temperature_oversampling:
            readback.environmental.temperature_oversampling.spec_register_value(),
        humidity_oversampling: readback.environmental.humidity_oversampling.spec_register_value(),
        pressure_oversampling: readback.environmental.pressure_oversampling.spec_register_value(),
        iir_filter: readback.environmental.filter.spec_register_value(),
        standby_time: readback.environmental.standby_time.spec_register_value(),
        operation_mode: OperationMode::Parallel.spec_register_value(),
        heater_enabled: if readback.heater.spec_heater_enabled() {
            1
        } else {
            0
        },
        parallel_requested_shared_wait_ms: REQUESTED_SHARED_DURATION_MS,
        parallel_shared_wait_register: shared,
        parallel_quantized_shared_wait_us: crate::driver::shared_wait_us(shared) as u32,
        tphg_duration_us: TPHG_DURATION_US,
        expected_profile_duration_us: saturated_duration(
            crate::profile_definition::steps_duration_us(shared, 10),
        ),
        profile_id: PROFILE_ID,
        profile_version: PROFILE_VERSION,
        expected_step_count: PROFILE_STEP_COUNT,
        heater_readback_valid_bitmap: ALL_STEPS_READ_BACK,
        calibration_hash_algorithm: CALIBRATION_HASH_FNV1A64_CANONICAL_REGISTER_BYTES,
        calibration_hash: metadata.calibration_fingerprint,
        scan_interval_ms: settings.scan_interval_ms,
        config_repeat_interval_scans: crate::profile_policy::repeat_interval(settings.route),
        output_routes: settings.route,
        radio_frequency_hz: crate::radio_config::FREQUENCY_HZ,
        radio_tx_power_dbm: 5,
        radio_spreading_factor: crate::radio_config::SPREADING_FACTOR,
        radio_bandwidth_hz: crate::radio_config::BANDWIDTH_HZ,
        radio_coding_rate_numerator: crate::radio_config::CODING_RATE_NUMERATOR,
        radio_coding_rate_denominator: crate::radio_config::CODING_RATE_DENOMINATOR,
        radio_preamble_symbols: crate::radio_config::PREAMBLE_SYMBOLS,
        radio_header_mode: 0,
        radio_phy_crc_enabled: 1,
        radio_iq_inverted: 0,
        radio_sync_word: crate::radio_config::SYNC_WORD,
        max_frame_len: settings.max_frame_len,
        profile_steps_per_fragment: settings.steps_per_fragment,
        steps: config.steps,
    })
    &&& config.steps@ == Seq::new(10, |i: int| step_descriptor(metadata, i))
}

/// Time that the whole profile takes with the given shared-wait register.
#[must_use]
pub fn expected_profile_duration_us(shared_duration_register: u8) -> (duration_us: u32)
    ensures
        duration_us == saturated_duration(
            crate::profile_definition::steps_duration_us(shared_duration_register, 10),
        ),
{
    let mut total: u32 = 0;
    let mut index: usize = 0;
    while index < 10
        invariant
            index <= 10,
            total == saturated_duration(
                crate::profile_definition::steps_duration_us(
                    shared_duration_register,
                    index as nat,
                ),
            ),
            crate::profile_definition::steps_duration_us(shared_duration_register, index as nat)
                >= 0,
        decreases 10 - index,
    {
        let step_us: u32 = bme68x::compensation::parallel_step_duration_us(
            PROFILE_REPETITION_MULTIPLIERS[index],
            shared_duration_register,
            TPHG_DURATION_US,
        );
        total = total.saturating_add(step_us);
        index += 1;
    }
    total
}

/// The complete definition of a configured sensor.
#[must_use]
pub fn device_config(metadata: &SensorMetadata, settings: &TelemetrySettings) -> (config:
    DeviceConfig)
    ensures
        defines(config, *metadata, *settings),
{
    let build_flags = BuildFlags {
        id_valid: settings.build.build_id_valid,
        dirty: settings.build.dirty,
        debug_sleep: settings.build.debug_sleep,
    };
    let readback = &metadata.readback;
    let heater = &readback.heater.registers;
    let mut steps = [HeaterStepConfig::default(); 10];
    let mut index: usize = 0;
    while index < 10
        invariant
            index <= 10,
            heater == &metadata.readback.heater.registers,
            forall|i: int| 0 <= i < index ==> steps@[i] == step_descriptor(*metadata, i),
        decreases 10 - index,
    {
        steps[index] = HeaterStepConfig {
            target_temperature_celsius: PROFILE_TEMPERATURES_CELSIUS[index],
            configured_duration_us: bme68x::compensation::parallel_step_duration_us(
                PROFILE_REPETITION_MULTIPLIERS[index],
                heater.shared_duration,
                TPHG_DURATION_US,
            ),
            repetition_multiplier: PROFILE_REPETITION_MULTIPLIERS[index],
            readback_heater_current: heater.current[index],
            programmed_heater_resistance: heater.resistance[index],
            programmed_gas_wait: heater.gas_wait[index],
        };
        index += 1;
    }
    assert(steps@ =~= Seq::new(10, |i: int| step_descriptor(*metadata, i)));
    let heater_enabled: u8 = if readback.heater.heater_enabled() {
        1
    } else {
        0
    };
    DeviceConfig {
        flags: ConfigFlags { calibration_hash_valid: true, sensor_config_read_back: true },
        firmware_version: settings.build.version,
        firmware_build_flags: build_flags,
        firmware_build_id: if settings.build.build_id_valid {
            settings.build.build_id
        } else {
            0
        },
        sensor_chip_id: metadata.chip_id,
        sensor_variant: metadata.variant.register_value(),
        sensor_i2c_address: metadata.address,
        temperature_oversampling: readback.environmental.temperature_oversampling.register_value(),
        humidity_oversampling: readback.environmental.humidity_oversampling.register_value(),
        pressure_oversampling: readback.environmental.pressure_oversampling.register_value(),
        iir_filter: readback.environmental.filter.register_value(),
        standby_time: readback.environmental.standby_time.register_value(),
        operation_mode: OperationMode::Parallel.register_value(),
        heater_enabled,
        parallel_requested_shared_wait_ms: REQUESTED_SHARED_DURATION_MS,
        parallel_shared_wait_register: heater.shared_duration,
        parallel_quantized_shared_wait_us: bme68x::compensation::decode_shared_heater_duration_us(
            heater.shared_duration,
        ),
        tphg_duration_us: TPHG_DURATION_US,
        expected_profile_duration_us: expected_profile_duration_us(heater.shared_duration),
        profile_id: PROFILE_ID,
        profile_version: PROFILE_VERSION,
        expected_step_count: PROFILE_STEP_COUNT,
        // Every descriptor's raw IDAC/RES_HEAT/GAS_WAIT bytes came from a
        // successful readback. This does not claim IDAC matched a programmed
        // expectation: the driver preserves IDAC but does not program it.
        heater_readback_valid_bitmap: ALL_STEPS_READ_BACK,
        calibration_hash_algorithm: CALIBRATION_HASH_FNV1A64_CANONICAL_REGISTER_BYTES,
        calibration_hash: metadata.calibration_fingerprint,
        scan_interval_ms: settings.scan_interval_ms,
        config_repeat_interval_scans: config_repeat_interval_scans(settings.route),
        output_routes: settings.route,
        radio_frequency_hz: crate::radio_config::FREQUENCY_HZ,
        radio_tx_power_dbm: crate::radio_config::TX_POWER_DBM as i8,
        radio_spreading_factor: crate::radio_config::SPREADING_FACTOR,
        radio_bandwidth_hz: crate::radio_config::BANDWIDTH_HZ,
        radio_coding_rate_numerator: crate::radio_config::CODING_RATE_NUMERATOR,
        radio_coding_rate_denominator: crate::radio_config::CODING_RATE_DENOMINATOR,
        radio_preamble_symbols: crate::radio_config::PREAMBLE_SYMBOLS,
        radio_header_mode: 0,
        radio_phy_crc_enabled: 1,
        radio_iq_inverted: 0,
        radio_sync_word: crate::radio_config::SYNC_WORD,
        max_frame_len: settings.max_frame_len,
        profile_steps_per_fragment: settings.steps_per_fragment,
        steps,
    }
}

/// The quality flags of a scan.
pub open spec fn flags_of(scan: ProfileScan) -> CollectionFlags {
    let profile = scan.profile;
    let timed_out = profile.finish_reason == Some(ProfileFinishReason::Timeout);
    let bound = crate::profile_definition::spec_timeout_bound(scan.poll_count, MAX_POLL_COUNT);
    CollectionFlags {
        timeout: timed_out && bound == TimeoutBound::Deadline,
        poll_budget_exhausted: timed_out && bound == TimeoutBound::PollBudget,
        i2c_error: scan.spec_i2c_error_count() != 0,
        duplicate: profile.counters.duplicates != 0,
        overwritten: profile.counters.overwritten_fields != 0,
        gas_index_out_of_range: profile.counters.invalid_gas_indexes != 0,
        measurement_discontinuity: profile.discontinuous(),
        no_new_data: profile.observed_field_count == 0,
        invalid_gas: profile.gas_invalid_mask != 0,
        heater_unstable: !profile.heater_stable(),
        observation_overflow: crate::health::spec_observation_overflowed(scan),
        stale_pre_scan_fields: scan.pre_scan_discarded_fields != 0,
        config_mismatch: !scan.configuration_verified,
        sensor_reconfigured: scan.configuration_verified && scan.sensor_reconfigured,
    }
}

/// The quality flags of a scan.
#[must_use]
pub fn collection_flags(scan: &ProfileScan) -> (flags: CollectionFlags)
    ensures
        flags == flags_of(*scan),
{
    let profile = &scan.profile;
    let mut timeout = false;
    let mut poll_budget_exhausted = false;
    if let Some(ProfileFinishReason::Timeout) = profile.finish_reason {
        match timeout_bound(scan.poll_count, MAX_POLL_COUNT) {
            TimeoutBound::Deadline => {
                timeout = true;
            },
            TimeoutBound::PollBudget => {
                poll_budget_exhausted = true;
            },
        }
    }
    let configuration = configuration_collection_flags(
        scan.configuration_verified,
        scan.sensor_reconfigured,
    );
    CollectionFlags {
        timeout,
        poll_budget_exhausted,
        i2c_error: scan.i2c_error_count() != 0,
        duplicate: profile.counters.duplicates != 0,
        overwritten: profile.counters.overwritten_fields != 0,
        gas_index_out_of_range: profile.counters.invalid_gas_indexes != 0,
        measurement_discontinuity: measurement_discontinuity(scan),
        no_new_data: profile.observed_field_count == 0,
        invalid_gas: profile.gas_invalid_mask != 0,
        heater_unstable: !heater_stable(scan),
        observation_overflow: observation_overflowed(scan),
        stale_pre_scan_fields: scan.pre_scan_discarded_fields != 0,
        config_mismatch: configuration.config_mismatch,
        sensor_reconfigured: configuration.sensor_reconfigured,
    }
}

/// How a profile record says that a scan ended. A sensor failure outweighs
/// whatever the collector reports.
pub open spec fn finish_of(scan: ProfileScan) -> FinishReason {
    if scan.spec_sensor_failed() {
        FinishReason::SensorError
    } else {
        match scan.profile.finish_reason {
            Some(ProfileFinishReason::Complete) => FinishReason::Complete,
            Some(ProfileFinishReason::Timeout) => match crate::profile_definition::spec_timeout_bound(
                scan.poll_count,
                MAX_POLL_COUNT,
            ) {
                TimeoutBound::Deadline => FinishReason::Timeout,
                TimeoutBound::PollBudget => FinishReason::PollBudget,
            },
            Some(ProfileFinishReason::ProfileRollover) => FinishReason::ProfileRollover,
            _ => FinishReason::SensorError,
        }
    }
}

/// How a profile record says that a scan ended.
#[must_use]
pub fn finish_reason(scan: &ProfileScan) -> (reason: FinishReason)
    ensures
        reason == finish_of(*scan),
{
    if scan.sensor_failed() {
        return FinishReason::SensorError;
    }
    match scan.profile.finish_reason {
        Some(ProfileFinishReason::Complete) => FinishReason::Complete,
        Some(ProfileFinishReason::Timeout) => match timeout_bound(scan.poll_count, MAX_POLL_COUNT) {
            TimeoutBound::Deadline => FinishReason::Timeout,
            TimeoutBound::PollBudget => FinishReason::PollBudget,
        },
        Some(ProfileFinishReason::ProfileRollover) => FinishReason::ProfileRollover,
        Some(ProfileFinishReason::BusError) => FinishReason::SensorError,
        Some(ProfileFinishReason::SensorStopped) => FinishReason::SensorError,
        None => FinishReason::SensorError,
    }
}

/// Step `i` of a profile record: the retained field with the step's descriptor.
pub open spec fn wire_step(scan: ProfileScan, config: DeviceConfig, i: int) -> Option<
    WireProfileStep,
> {
    match scan.profile.steps@[i] {
        Some(step) => Some(
            crate::profile_status::spec_wire_profile_step(i as u8, step, config.steps@[i]),
        ),
        None => None,
    }
}

/// `wire` is the profile record of a scan made under `config`.
pub open spec fn records_scan(
    wire: WireProfileScan,
    scan: ProfileScan,
    config: DeviceConfig,
) -> bool {
    let profile = scan.profile;
    let discarded = crate::profile_status::discarded_total(
        profile.counters.intermediate_fields,
        scan.pre_scan_discarded_fields,
    );
    &&& wire == (WireProfileScan {
        profile_id: PROFILE_ID,
        profile_version: PROFILE_VERSION,
        expected_step_count: PROFILE_STEP_COUNT,
        observed_unique_step_count: if profile.observed_steps > u8::MAX {
            u8::MAX
        } else {
            profile.observed_steps as u8
        },
        observed_field_count: profile.observed_field_count,
        missing_steps_bitmap: profile.missing_mask,
        duplicate_steps_bitmap: profile.duplicate_mask,
        scan_duration_us: crate::bme688_profile::saturated_us(scan.duration_us),
        collection_flags: flags_of(scan),
        finish_reason: finish_of(scan),
        duplicate_count: profile.counters.duplicates,
        overwritten_field_count: profile.counters.overwritten_fields,
        out_of_order_count: profile.counters.out_of_order_fields,
        ambiguous_index_jump_count: profile.counters.ambiguous_index_jumps,
        invalid_gas_index_count: profile.counters.invalid_gas_indexes,
        intermediate_field_count: if discarded > u16::MAX {
            u16::MAX
        } else {
            discarded as u16
        },
        profile_rollover_count: profile.counters.profile_rollovers,
        fields_after_rollover_count: profile.counters.fields_after_rollover,
        poll_count: scan.poll_count,
        steps: wire.steps,
    })
    &&& wire.steps@ == Seq::new(10, |i: int| wire_step(scan, config, i))
}

/// The profile record of a scan made under `config`.
#[must_use]
pub fn wire_profile_scan(scan: &ProfileScan, config: &DeviceConfig) -> (wire: WireProfileScan)
    ensures
        records_scan(wire, *scan, *config),
{
    let profile = &scan.profile;
    let mut steps: [Option<WireProfileStep>; 10] = [None; 10];
    let mut index: usize = 0;
    while index < 10
        invariant
            index <= 10,
            profile == &scan.profile,
            forall|i: int| 0 <= i < index ==> steps@[i] == wire_step(*scan, *config, i),
            forall|i: int| index <= i < 10 ==> steps@[i] is None,
        decreases 10 - index,
    {
        if let Some(step) = profile.steps[index] {
            steps[index] = Some(wire_profile_step(index as u8, step, config.steps[index]));
        }
        index += 1;
    }
    assert(steps@ =~= Seq::new(10, |i: int| wire_step(*scan, *config, i)));
    let observed_unique_step_count: u8 = if profile.observed_steps > u8::MAX as u32 {
        u8::MAX
    } else {
        profile.observed_steps as u8
    };
    WireProfileScan {
        profile_id: PROFILE_ID,
        profile_version: PROFILE_VERSION,
        expected_step_count: PROFILE_STEP_COUNT,
        observed_unique_step_count,
        observed_field_count: profile.observed_field_count,
        missing_steps_bitmap: profile.missing_mask,
        duplicate_steps_bitmap: profile.duplicate_mask,
        scan_duration_us: elapsed_us_saturating(scan.duration_us),
        collection_flags: collection_flags(scan),
        finish_reason: finish_reason(scan),
        duplicate_count: profile.counters.duplicates,
        overwritten_field_count: profile.counters.overwritten_fields,
        out_of_order_count: profile.counters.out_of_order_fields,
        ambiguous_index_jump_count: profile.counters.ambiguous_index_jumps,
        invalid_gas_index_count: profile.counters.invalid_gas_indexes,
        intermediate_field_count: total_discarded_field_count(
            profile.counters.intermediate_fields,
            scan.pre_scan_discarded_fields,
        ),
        profile_rollover_count: profile.counters.profile_rollovers,
        fields_after_rollover_count: profile.counters.fields_after_rollover,
        poll_count: scan.poll_count,
        steps,
    }
}

/// The health record of a node after a scan.
pub open spec fn health_of(
    counters: HealthCounters,
    reset_cause_raw: u32,
    identity: DeviceIdentity,
    scan: ProfileScan,
    settings: TelemetrySettings,
) -> DeviceHealth {
    DeviceHealth {
        flags: HealthFlags {
            counters_saturated: counters.saturated(),
            boot_id_unavailable: !identity.boot_id_valid,
            config_mismatch: !scan.spec_identity_available(),
            last_scan_incomplete: !crate::health::successful(scan),
            sensor_error_seen: counters.sensor_errors_seen,
            radio_error_seen: counters.radio_tx_errors != 0,
        },
        reset_cause_raw,
        successful_sensor_scans: counters.successful_sensor_scans,
        failed_sensor_scans: counters.failed_sensor_scans,
        incomplete_profiles: counters.incomplete_profiles,
        i2c_errors: counters.i2c_errors,
        radio_tx_errors: counters.radio_tx_errors,
        dropped_profiles: counters.dropped_profiles,
        dropped_fragments: counters.dropped_fragments,
        overwritten_fields: counters.overwritten_fields,
        current_sample_interval_ms: settings.scan_interval_ms,
        firmware_version: settings.build.version,
        profile_id: PROFILE_ID,
        profile_version: PROFILE_VERSION,
        last_sensor_error: counters.last_sensor_error,
        last_radio_error: counters.last_radio_error,
        calibrated_mcu_temperature_centi_celsius: None,
        calibrated_vdd_millivolt: None,
    }
}

/// The health record of a node after a scan.
#[must_use]
pub fn device_health(
    counters: &HealthCounters,
    reset_cause_raw: u32,
    identity: DeviceIdentity,
    scan: &ProfileScan,
    settings: &TelemetrySettings,
) -> (health: DeviceHealth)
    ensures
        health == health_of(*counters, reset_cause_raw, identity, *scan, *settings),
{
    DeviceHealth {
        flags: HealthFlags {
            counters_saturated: counters.any_counter_saturated(),
            boot_id_unavailable: !identity.boot_id_valid,
            config_mismatch: !scan.health_configuration_identity_available(),
            last_scan_incomplete: !scan_is_successful(scan),
            sensor_error_seen: counters.sensor_errors_seen,
            radio_error_seen: counters.radio_tx_errors != 0,
        },
        reset_cause_raw,
        successful_sensor_scans: counters.successful_sensor_scans,
        failed_sensor_scans: counters.failed_sensor_scans,
        incomplete_profiles: counters.incomplete_profiles,
        i2c_errors: counters.i2c_errors,
        radio_tx_errors: counters.radio_tx_errors,
        dropped_profiles: counters.dropped_profiles,
        dropped_fragments: counters.dropped_fragments,
        overwritten_fields: counters.overwritten_fields,
        current_sample_interval_ms: settings.scan_interval_ms,
        firmware_version: settings.build.version,
        profile_id: PROFILE_ID,
        profile_version: PROFILE_VERSION,
        last_sensor_error: counters.last_sensor_error,
        last_radio_error: counters.last_radio_error,
        // BAT_RAW is not wired to an ADC, and this firmware has not yet
        // implemented factory-calibrated temperature/VREFINT conversion.
        calibrated_mcu_temperature_centi_celsius: None,
        calibrated_vdd_millivolt: None,
    }
}

/// A configuration record, ready for the codec.
#[derive(Clone, Copy, Debug, PartialEq, Eq)]
pub struct ConfigFrame {
    pub common: Common,
    pub config: DeviceConfig,
    /// This exact configuration ID has been delivered before.
    pub repeated: bool,
}

/// A profile record, ready for the codec.
#[derive(Clone, Copy, Debug, PartialEq, Eq)]
pub struct ProfileFrame {
    pub common: Common,
    pub scan: WireProfileScan,
}

/// A health record, ready for the codec.
#[derive(Clone, Copy, Debug, PartialEq, Eq)]
pub struct HealthFrame {
    pub common: Common,
    pub health: DeviceHealth,
}

/// The records of one scan.
#[derive(Clone, Copy, Debug, PartialEq, Eq)]
pub struct EncodedScan {
    pub sequence: u32,
    pub config: Option<ConfigFrame>,
    pub profile: ProfileFrame,
    pub health: Option<HealthFrame>,
}

/// Everything that records need beyond the scan itself.
#[derive(Clone, Copy, Debug, PartialEq, Eq)]
pub struct Telemetry {
    pub identity: DeviceIdentity,
    pub reset_cause: ResetCause,
    pub settings: TelemetrySettings,
    pub config: DeviceConfig,
    pub config_id: u64,
    pub canonical_idac: CanonicalIdacSnapshot,
    pub next_scan_sequence: u32,
    pub config_delivery: DeviceConfigDeliveryState,
}

/// The sequence number after `sequence`.
pub open spec fn next_sequence(sequence: u32) -> u32 {
    if sequence == u32::MAX {
        0
    } else {
        (sequence + 1) as u32
    }
}

/// Header of a record of this boot. A boot ID that is not a hardware nonce is
/// never presented as one.
pub open spec fn header_of(
    identity: DeviceIdentity,
    reset_cause: ResetCause,
    sequence: u32,
    uptime_ms: u64,
    config_id: u64,
) -> Common {
    let available = identity.boot_id_valid && identity.boot_id_from_hardware_rng;
    Common {
        node_id: identity.node_id,
        boot_id: if available {
            identity.boot_id
        } else {
            0
        },
        boot_id_valid: available,
        boot_id_from_hardware_rng: available,
        sequence,
        uptime_ms,
        config_id,
        reset_cause_flags: reset_cause.flags,
    }
}

/// `config` is the configuration read back as `metadata`, with the IDAC bytes
/// that were captured when telemetry was established.
pub open spec fn canonical_config(
    config: DeviceConfig,
    metadata: SensorMetadata,
    settings: TelemetrySettings,
    idac: Seq<u8>,
) -> bool {
    exists|observed: DeviceConfig|
        #![trigger defines(observed, metadata, settings)]
        defines(observed, metadata, settings) && crate::profile_status::canonicalized(
            observed,
            idac,
            config,
        )
}

impl Telemetry {
    /// Establish telemetry for a verified sensor. `config_id` is the codec's ID
    /// of [`device_config`] for this metadata, or its refusal.
    pub fn new(
        identity: DeviceIdentity,
        reset_cause: ResetCause,
        settings: TelemetrySettings,
        metadata: &SensorMetadata,
        config_id: Result<u64, CodecError>,
    ) -> (result: Result<Self, CodecError>)
        ensures
            match (result, config_id) {
                (Ok(telemetry), Ok(id)) => {
                    &&& telemetry.identity == identity
                    &&& telemetry.reset_cause == reset_cause
                    &&& telemetry.settings == settings
                    &&& defines(telemetry.config, *metadata, settings)
                    &&& telemetry.config_id == id
                    &&& telemetry.canonical_idac@ == metadata.readback.heater.registers.current@
                    &&& telemetry.next_scan_sequence == 0
                    &&& telemetry.config_delivery@
                        == crate::profile_status::ConfigDelivery::first()
                },
                (Err(error), Err(refused)) => error == refused,
                _ => false,
            },
    {
        let config_id: u64 = match config_id {
            Ok(id) => id,
            Err(error) => {
                return Err(error);
            },
        };
        let canonical_idac = CanonicalIdacSnapshot::capture(
            metadata.readback.heater.registers.current,
        );
        Ok(
            Telemetry {
                identity,
                reset_cause,
                settings,
                config: device_config(metadata, &settings),
                config_id,
                canonical_idac,
                next_scan_sequence: 0,
                config_delivery: DeviceConfigDeliveryState::new(),
            },
        )
    }

    /// The configuration that the codec has to identify before a refresh:
    /// volatile, unprogrammed IDAC bytes are restored from the canonical
    /// startup snapshot.
    #[must_use]
    pub fn canonical_configuration(&self, metadata: &SensorMetadata) -> (config: DeviceConfig)
        ensures
            canonical_config(config, *metadata, self.settings, self.canonical_idac@),
    {
        let mut config = device_config(metadata, &self.settings);
        assert(defines(config, *metadata, self.settings));
        self.canonical_idac.apply_to(&mut config);
        config
    }

    /// Refresh verified configuration metadata after mandatory per-scan
    /// validation. `config_id` is the codec's ID of
    /// [`Telemetry::canonical_configuration`] for this metadata, or its
    /// refusal. A genuine change forces the new definition into the same output
    /// batch; a refusal changes nothing.
    pub fn refresh_configuration(
        &mut self,
        metadata: &SensorMetadata,
        config_id: Result<u64, CodecError>,
    ) -> (result: Result<(), CodecError>)
        ensures
            match config_id {
                Err(error) => result == Err::<(), CodecError>(error) && *final(self) == *old(self),
                Ok(id) => {
                    &&& result == Ok::<(), CodecError>(())
                    &&& id == old(self).config_id ==> final(self).same_configuration(*old(self))
                    &&& id != old(self).config_id ==> {
                        &&& canonical_config(
                            final(self).config,
                            *metadata,
                            old(self).settings,
                            old(self).canonical_idac@,
                        )
                        &&& final(self).config_id == id
                        &&& final(self).config_delivery@ == old(self).config_delivery@.after(
                            crate::profile_status::ConfigDeliveryEvent::IdChanged,
                        )
                    }
                    &&& final(self).same_session(*old(self))
                },
            },
    {
        let next_id: u64 = match config_id {
            Ok(id) => id,
            Err(error) => {
                return Err(error);
            },
        };
        let config = self.canonical_configuration(metadata);
        if self.config_delivery.record_id_change_if_needed(self.config_id, next_id) {
            self.config = config;
            self.config_id = next_id;
        }
        Ok(())
    }

    /// The configuration and its delivery are those of `other`.
    pub open spec fn same_configuration(self, other: Self) -> bool {
        &&& self.config == other.config
        &&& self.config_id == other.config_id
        &&& self.config_delivery@ == other.config_delivery@
    }

    /// Boot, settings, IDAC snapshot and sequence are those of `other`.
    pub open spec fn same_session(self, other: Self) -> bool {
        &&& self.identity == other.identity
        &&& self.reset_cause == other.reset_cause
        &&& self.settings == other.settings
        &&& self.canonical_idac == other.canonical_idac
        &&& self.next_scan_sequence == other.next_scan_sequence
    }

    /// Preserve a visible sequence gap when a scheduled acquisition cannot be
    /// represented before `encode_scan` gets ownership of it.
    pub fn record_unencoded_scan(&mut self)
        ensures
            *final(self) == (Telemetry {
                next_scan_sequence: next_sequence(old(self).next_scan_sequence),
                ..*old(self)
            }),
    {
        self.next_scan_sequence = self.next_scan_sequence.wrapping_add(1);
    }

    /// A changed definition remains forced until transport confirms that the
    /// config-first batch completed its first record.
    pub fn record_config_transmitted(&mut self)
        ensures
            final(self).config_delivery@ == old(self).config_delivery@.after(
                crate::profile_status::ConfigDeliveryEvent::Completed,
            ),
            *final(self) == (Telemetry {
                config_delivery: final(self).config_delivery,
                ..*old(self)
            }),
    {
        self.config_delivery.record_completed();
    }

    fn common(&self, sequence: u32, uptime_ms: u64, configuration_verified: bool) -> (common:
        Common)
        ensures
            common == header_of(
                self.identity,
                self.reset_cause,
                sequence,
                uptime_ms,
                crate::profile_status::advertised_config_id(
                    self.config_id,
                    configuration_verified,
                ),
            ),
    {
        let config_id: u64 = wire_config_id(self.config_id, configuration_verified);
        if self.identity.boot_id_valid && self.identity.boot_id_from_hardware_rng {
            Common::production(
                self.identity.node_id,
                self.identity.boot_id,
                sequence,
                uptime_ms,
                config_id,
                self.reset_cause.flags,
            )
        } else {
            Common::boot_id_unavailable(
                self.identity.node_id,
                sequence,
                uptime_ms,
                config_id,
                self.reset_cause.flags,
            )
        }
    }

    /// A configuration record belongs to this scan.
    pub open spec fn sends_config(self, scan: ProfileScan) -> bool {
        crate::profile_status::config_included(
            self.config_delivery@.pending,
            crate::profile_status::check_due(
                self.next_scan_sequence,
                crate::profile_policy::repeat_interval(self.settings.route),
            ),
            scan.configuration_verified,
        )
    }

    /// `records` is what telemetry in this state says of a scan.
    pub open spec fn reports(
        self,
        records: EncodedScan,
        scan: ProfileScan,
        counters: HealthCounters,
        config_uptime_ms: u64,
        health_uptime_ms: u64,
    ) -> bool {
        let sequence = self.next_scan_sequence;
        &&& records.sequence == sequence
        &&& records.config == if self.sends_config(scan) {
            Some(
                ConfigFrame {
                    common: header_of(
                        self.identity,
                        self.reset_cause,
                        sequence,
                        config_uptime_ms,
                        self.config_id,
                    ),
                    config: self.config,
                    repeated: self.config_delivery@.delivered,
                },
            )
        } else {
            None
        }
        &&& records.profile.common == header_of(
            self.identity,
            self.reset_cause,
            sequence,
            scan.started_at_ms,
            crate::profile_status::advertised_config_id(
                self.config_id,
                scan.configuration_verified,
            ),
        )
        &&& records_scan(records.profile.scan, scan, self.config)
        &&& records.health == if sequence as int % HEALTH_INTERVAL_SCANS as int == 0 {
            Some(
                HealthFrame {
                    common: header_of(
                        self.identity,
                        self.reset_cause,
                        sequence,
                        health_uptime_ms,
                        crate::profile_status::advertised_config_id(
                            self.config_id,
                            scan.spec_identity_available(),
                        ),
                    ),
                    health: health_of(
                        counters,
                        self.reset_cause.raw,
                        self.identity,
                        scan,
                        self.settings,
                    ),
                },
            )
        } else {
            None
        }
    }

    /// Lay out the records of one logical scan. The sequence advances even if
    /// the codec later fails, so a subsequent valid frame exposes the dropped
    /// logical scan as a gap.
    pub fn encode_scan(
        &mut self,
        scan: &ProfileScan,
        counters: &HealthCounters,
        config_uptime_ms: u64,
        health_uptime_ms: u64,
    ) -> (records: EncodedScan)
        ensures
            old(self).reports(records, *scan, *counters, config_uptime_ms, health_uptime_ms),
            final(self).config_delivery@ == old(self).config_delivery@.after(
                crate::profile_status::ConfigDeliveryEvent::Prepared {
                    periodic_due: crate::profile_status::check_due(
                        old(self).next_scan_sequence,
                        crate::profile_policy::repeat_interval(old(self).settings.route),
                    ),
                    configuration_verified: scan.configuration_verified,
                },
            ),
            *final(self) == (Telemetry {
                next_scan_sequence: next_sequence(old(self).next_scan_sequence),
                config_delivery: final(self).config_delivery,
                ..*old(self)
            }),
    {
        let sequence: u32 = self.next_scan_sequence;
        self.next_scan_sequence = self.next_scan_sequence.wrapping_add(1);
        let repeat_interval: u16 = config_repeat_interval_scans(self.settings.route);
        let (config_due, repeated) = self.config_delivery.prepare_encode(
            configuration_check_due(sequence, repeat_interval),
            scan.configuration_verified,
        );
        let health_due = sequence % HEALTH_INTERVAL_SCANS == 0;
        let config = if config_due {
            Some(
                ConfigFrame {
                    common: self.common(sequence, config_uptime_ms, true),
                    config: self.config,
                    repeated,
                },
            )
        } else {
            None
        };
        let profile = ProfileFrame {
            common: self.common(sequence, scan.started_at_ms, scan.configuration_verified),
            scan: wire_profile_scan(scan, &self.config),
        };
        let health = if health_due {
            Some(
                HealthFrame {
                    common: self.common(
                        sequence,
                        health_uptime_ms,
                        scan.health_configuration_identity_available(),
                    ),
                    health: device_health(
                        counters,
                        self.reset_cause.raw,
                        self.identity,
                        scan,
                        &self.settings,
                    ),
                },
            )
        } else {
            None
        };
        EncodedScan { sequence, config, profile, health }
    }
}

/// Some flag of a profile record makes the profile unusable. Repeated
/// observations and a restored configuration do not.
pub open spec fn fatal(flags: CollectionFlags) -> bool {
    ||| flags.timeout
    ||| flags.poll_budget_exhausted
    ||| flags.i2c_error
    ||| flags.overwritten
    ||| flags.gas_index_out_of_range
    ||| flags.measurement_discontinuity
    ||| flags.heater_unstable
    ||| flags.observation_overflow
    ||| flags.stale_pre_scan_fields
    ||| flags.config_mismatch
}

/// A scan counts as successful exactly when its record says so to a receiver:
/// it ended completely, every step is there and gas-valid, and no fatal flag is
/// set. Duplicates and discarded dummy fields play no part.
pub proof fn health_and_record_agree_on_success(scan: ProfileScan)
    ensures
        crate::health::successful(scan) <==> {
            &&& finish_of(scan) == FinishReason::Complete
            &&& scan.profile.structurally_complete
            &&& scan.profile.all_steps_gas_valid
            &&& !fatal(flags_of(scan))
        },
{
}

/// A profile record has bit 13 of its flag word set exactly if fields were
/// drained before the heater trigger, and counts them among the discarded ones.
pub proof fn drained_fields_are_reported(
    wire: WireProfileScan,
    scan: ProfileScan,
    config: DeviceConfig,
    bits: CollectionFlagBits,
)
    requires
        records_scan(wire, scan, config),
        bits.stale_bit_is_separate(),
    ensures
        wire.collection_flags.spec_bits(bits) & (1u32 << 13) != 0
            <==> scan.pre_scan_discarded_fields != 0,
        wire.intermediate_field_count >= scan.pre_scan_discarded_fields,
{
    crate::protocol::drained_fields_set_their_bit(wire.collection_flags, bits);
}

/// An unverified scan carries no configuration: its profile record names none,
/// says so in its flags, never claims a restored configuration, and brings no
/// configuration record with it.
pub proof fn mismatching_scan_names_no_configuration(
    telemetry: Telemetry,
    records: EncodedScan,
    scan: ProfileScan,
    counters: HealthCounters,
    config_uptime_ms: u64,
    health_uptime_ms: u64,
)
    requires
        telemetry.reports(records, scan, counters, config_uptime_ms, health_uptime_ms),
        !scan.configuration_verified,
    ensures
        records.profile.common.config_id == 0,
        records.profile.scan.collection_flags.config_mismatch,
        !records.profile.scan.collection_flags.sensor_reconfigured,
        records.config is None,
        records.health matches Some(health) ==> health.common.config_id == 0
            && health.health.flags.config_mismatch,
{
}

/// A health record names the scan's configuration only if no recovery followed
/// the scan, or one that proved the very same configuration.
pub proof fn health_names_only_a_proven_configuration(
    telemetry: Telemetry,
    records: EncodedScan,
    scan: ProfileScan,
    counters: HealthCounters,
    config_uptime_ms: u64,
    health_uptime_ms: u64,
)
    requires
        telemetry.reports(records, scan, counters, config_uptime_ms, health_uptime_ms),
        telemetry.config_id != 0,
        records.health is Some,
        records.health->Some_0.common.config_id != 0,
    ensures
        scan.configuration_verified,
        scan.post_scan_configuration_checked ==> scan.post_scan_configuration_verified && match (
            scan.post_scan_metadata,
            scan.pre_trigger_metadata,
        ) {
            (Some(post), Some(pre)) => post.same_identity(pre),
            _ => false,
        },
{
}

/// Two readbacks of one sensor that differ in IDAC bytes alone lead to the same
/// canonical configuration, and so to the same configuration ID.
pub proof fn idac_drift_keeps_the_configuration(
    telemetry: Telemetry,
    earlier: SensorMetadata,
    later: SensorMetadata,
    earlier_config: DeviceConfig,
    later_config: DeviceConfig,
)
    requires
        earlier.same_identity(later),
        canonical_config(
            earlier_config,
            earlier,
            telemetry.settings,
            telemetry.canonical_idac@,
        ),
        canonical_config(later_config, later, telemetry.settings, telemetry.canonical_idac@),
    ensures
        earlier_config == later_config,
{
    let left = choose|observed: DeviceConfig|
        #![trigger defines(observed, earlier, telemetry.settings)]
        defines(observed, earlier, telemetry.settings) && crate::profile_status::canonicalized(
            observed,
            telemetry.canonical_idac@,
            earlier_config,
        );
    let right = choose|observed: DeviceConfig|
        #![trigger defines(observed, later, telemetry.settings)]
        defines(observed, later, telemetry.settings) && crate::profile_status::canonicalized(
            observed,
            telemetry.canonical_idac@,
            later_config,
        );
    assert forall|i: int|
        0 <= i < 10 implies #[trigger] crate::profile_status::same_step_except_idac(
        left.steps@[i],
        right.steps@[i],
    ) by {
        assert(left.steps@[i] == step_descriptor(earlier, i));
        assert(right.steps@[i] == step_descriptor(later, i));
    }
    crate::profile_status::canonical_configuration_ignores_only_idac(
        left,
        right,
        telemetry.canonical_idac@,
        earlier_config,
        later_config,
    );
}

/// A pending configuration is sent with the next verified scan, marked as a
/// repeat exactly if its ID has been delivered before.
pub proof fn pending_configuration_is_sent(
    telemetry: Telemetry,
    records: EncodedScan,
    scan: ProfileScan,
    counters: HealthCounters,
    config_uptime_ms: u64,
    health_uptime_ms: u64,
)
    requires
        telemetry.reports(records, scan, counters, config_uptime_ms, health_uptime_ms),
        telemetry.config_delivery@.pending,
        scan.configuration_verified,
    ensures
        records.config matches Some(frame) && frame.config == telemetry.config
            && frame.common.config_id == telemetry.config_id && frame.repeated
            == telemetry.config_delivery@.delivered,
{
}

/// Scan zero and every sixth scan carry health; a radio node repeats its
/// configuration with the same verified scans, and a training node with every
/// verified scan.
pub proof fn periodic_records_follow_the_cadence(
    telemetry: Telemetry,
    records: EncodedScan,
    scan: ProfileScan,
    counters: HealthCounters,
    config_uptime_ms: u64,
    health_uptime_ms: u64,
)
    requires
        telemetry.reports(records, scan, counters, config_uptime_ms, health_uptime_ms),
        scan.configuration_verified,
        !telemetry.config_delivery@.pending,
    ensures
        records.health is Some <==> records.sequence as int % 6 == 0,
        telemetry.settings.route is LoraP2p ==> (records.config is Some <==> records.sequence as int
            % 6 == 0),
        telemetry.settings.route is UartCobsCrc32 ==> records.config is Some,
{
    assert(records.sequence as int % 1 == 0);
}

/// A boot without a hardware nonce carries a zero boot ID in every record and
/// says so, instead of fabricating uniqueness.
pub proof fn missing_nonce_is_never_fabricated(
    telemetry: Telemetry,
    records: EncodedScan,
    scan: ProfileScan,
    counters: HealthCounters,
    config_uptime_ms: u64,
    health_uptime_ms: u64,
)
    requires
        telemetry.reports(records, scan, counters, config_uptime_ms, health_uptime_ms),
        !telemetry.identity.boot_id_valid,
    ensures
        records.profile.common.boot_id == 0,
        !records.profile.common.boot_id_valid,
        records.config matches Some(frame) ==> frame.common.boot_id == 0
            && !frame.common.boot_id_valid,
        records.health matches Some(frame) ==> frame.common.boot_id == 0
            && !frame.common.boot_id_valid && frame.health.flags.boot_id_unavailable,
{
}

} // verus!
