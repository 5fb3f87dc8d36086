//! Contents of the protocol-v2 records, before the codec turns them into bytes.

use vstd::prelude::*;

verus! {

/// Collection flag bit that reports fields drained before the heater trigger.
pub const COLLECTION_FLAG_STALE_PRE_SCAN_FIELDS: u32 = 0x2000;

/// `word` with the bits of one more flag, if the flag is set.
pub open spec fn word_with(word: u32, set: bool, mask: u32) -> u32 {
    if set {
        word | mask
    } else {
        word
    }
}

/// The bits that one flag contributes to a flag byte.
pub open spec fn flag_u8(set: bool, mask: u8) -> u8 {
    if set {
        mask
    } else {
        0
    }
}

fn add_flag(word: u32, set: bool, mask: u32) -> (with_flag: u32)
    ensures
        with_flag == word_with(word, set, mask),
{
    if set {
        word | mask
    } else {
        word
    }
}

fn select_u8(set: bool, mask: u8) -> (bits: u8)
    ensures
        bits == flag_u8(set, mask),
{
    if set {
        mask
    } else {
        0
    }
}

/// Header fields shared by every record.
#[derive(Clone, Copy, Debug, PartialEq, Eq, Structural)]
pub struct Common {
    pub node_id: u64,
    pub boot_id: u64,
    pub boot_id_valid: bool,
    pub boot_id_from_hardware_rng: bool,
    pub sequence: u32,
    pub uptime_ms: u64,
    pub config_id: u64,
    pub reset_cause_flags: u16,
}

impl Common {
    /// Header of a boot whose nonce came from the hardware generator.
    #[must_use]
    pub fn production(
        node_id: u64,
        boot_id: u64,
        sequence: u32,
        uptime_ms: u64,
        config_id: u64,
        reset_cause_flags: u16,
    ) -> (common: Self)
        ensures
            common == (Common {
                node_id,
                boot_id,
                boot_id_valid: true,
                boot_id_from_hardware_rng: true,
                sequence,
                uptime_ms,
                config_id,
                reset_cause_flags,
            }),
    {
        Common {
            node_id,
            boot_id,
            boot_id_valid: true,
            boot_id_from_hardware_rng: true,
            sequence,
            uptime_ms,
            config_id,
            reset_cause_flags,
        }
    }

    /// Header of a boot without a nonce: the boot ID is zero and flagged so.
    #[must_use]
    pub fn boot_id_unavailable(
        node_id: u64,
        sequence: u32,
        uptime_ms: u64,
        config_id: u64,
        reset_cause_flags: u16,
    ) -> (common: Self)
        ensures
            common == (Common {
                node_id,
                boot_id: 0,
                boot_id_valid: false,
                boot_id_from_hardware_rng: false,
                sequence,
                uptime_ms,
                config_id,
                reset_cause_flags,
            }),
    {
        Common {
            node_id,
            boot_id: 0,
            boot_id_valid: false,
            boot_id_from_hardware_rng: false,
            sequence,
            uptime_ms,
            config_id,
            reset_cause_flags,
        }
    }
}

/// Transport that a configuration record advertises.
#[derive(Clone, Copy, Debug, PartialEq, Eq, Structural)]
pub enum OutputRoute {
    LoraP2p,
    UartCobsCrc32,
}

/// Flags of a configuration record.
#[derive(Clone, Copy, Debug, PartialEq, Eq, Structural)]
pub struct ConfigFlags {
    pub calibration_hash_valid: bool,
    pub sensor_config_read_back: bool,
}

/// Bit that the protocol assigns to each configuration flag.
#[derive(Clone, Copy, Debug, PartialEq, Eq, Structural)]
pub struct ConfigFlagBits {
    pub calibration_hash_valid: u8,
    pub sensor_config_read_back: u8,
}

impl ConfigFlags {
    pub open spec fn spec_bits(self, bits: ConfigFlagBits) -> u8 {
        flag_u8(self.calibration_hash_valid, bits.calibration_hash_valid) | flag_u8(
            self.sensor_config_read_back,
            bits.sensor_config_read_back,
        )
    }

    /// The flag byte of a configuration record.
    #[must_use]
    pub fn bits(self, bits: ConfigFlagBits) -> (value: u8)
        ensures
            value == self.spec_bits(bits),
    {
        select_u8(self.calibration_hash_valid, bits.calibration_hash_valid) | select_u8(
            self.sensor_config_read_back,
            bits.sensor_config_read_back,
        )
    }
}

/// Provenance flags of a firmware build.
#[derive(Clone, Copy, Debug, PartialEq, Eq, Structural)]
pub struct BuildFlags {
    pub id_valid: bool,
    pub dirty: bool,
    pub debug_sleep: bool,
}

/// Bit that the protocol assigns to each build flag.
#[derive(Clone, Copy, Debug, PartialEq, Eq, Structural)]
pub struct BuildFlagBits {
    pub id_valid: u8,
    pub dirty: u8,
    pub debug_sleep: u8,
}

impl BuildFlags {
    pub open spec fn spec_bits(self, bits: BuildFlagBits) -> u8 {
        flag_u8(self.id_valid, bits.id_valid) | flag_u8(self.dirty, bits.dirty) | flag_u8(
            self.debug_sleep,
            bits.debug_sleep,
        )
    }

    /// The build-flag byte of a configuration record.
    #[must_use]
    pub fn bits(self, bits: BuildFlagBits) -> (value: u8)
        ensures
            value == self.spec_bits(bits),
    {
        select_u8(self.id_valid, bits.id_valid) | select_u8(self.dirty, bits.dirty) | select_u8(
            self.debug_sleep,
            bits.debug_sleep,
        )
    }
}

/// Descriptor of one heater step in a configuration record.
#[derive(Clone, Copy, Debug, PartialEq, Eq, Structural)]
pub struct HeaterStepConfig {
    pub target_temperature_celsius: u16,
    pub configured_duration_us: u32,
    pub repetition_multiplier: u8,
    pub readback_heater_current: u8,
    pub programmed_heater_resistance: u8,
    pub programmed_gas_wait: u8,
}

impl HeaterStepConfig {
    pub open spec fn empty() -> Self {
        HeaterStepConfig {
            target_temperature_celsius: 0,
            configured_duration_us: 0,
            repetition_multiplier: 0,
            readback_heater_current: 0,
            programmed_heater_resistance: 0,
            programmed_gas_wait: 0,
        }
    }
}

impl Default for HeaterStepConfig {
    fn default() -> (step: Self)
        ensures
            step == Self::empty(),
    {
        HeaterStepConfig {
            target_temperature_celsius: 0,
            configured_duration_us: 0,
            repetition_multiplier: 0,
            readback_heater_current: 0,
            programmed_heater_resistance: 0,
            programmed_gas_wait: 0,
        }
    }
}

/// Complete definition of one sensor, profile and transport configuration.
#[derive(Clone, Copy, Debug, PartialEq, Eq)]
pub struct DeviceConfig {
    pub flags: ConfigFlags,
    pub firmware_version: [u8; 3],
    pub firmware_build_flags: BuildFlags,
    pub firmware_build_id: u64,
    pub sensor_chip_id: u8,
    pub sensor_variant: u8,
    pub sensor_i2c_address: u8,
    pub temperature_oversampling: u8,
    pub humidity_oversampling: u8,
    pub pressure_oversampling: u8,
    pub iir_filter: u8,
    pub standby_time: u8,
    pub operation_mode: u8,
    pub heater_enabled: u8,
    pub parallel_requested_shared_wait_ms: u16,
    pub parallel_shared_wait_register: u8,
    pub parallel_quantized_shared_wait_us: u32,
    pub tphg_duration_us: u32,
    pub expected_profile_duration_us: u32,
    pub profile_id: u16,
    pub profile_version: u16,
    pub expected_step_count: u8,
    pub heater_readback_valid_bitmap: u16,
    pub calibration_hash_algorithm: u8,
    pub calibration_hash: u64,
    pub scan_interval_ms: u32,
    pub config_repeat_interval_scans: u16,
    pub output_routes: OutputRoute,
    pub radio_frequency_hz: u32,
    pub radio_tx_power_dbm: i8,
    pub radio_spreading_factor: u8,
    pub radio_bandwidth_hz: u32,
    pub radio_coding_rate_numerator: u8,
    pub radio_coding_rate_denominator: u8,
    pub radio_preamble_symbols: u16,
    pub radio_header_mode: u8,
    pub radio_phy_crc_enabled: u8,
    pub radio_iq_inverted: u8,
    pub radio_sync_word: u16,
    pub max_frame_len: u8,
    pub profile_steps_per_fragment: u8,
    pub steps: [HeaterStepConfig; 10],
}

/// Flags of a health record.
#[derive(Clone, Copy, Debug, PartialEq, Eq, Structural)]
pub struct HealthFlags {
    pub counters_saturated: bool,
    pub boot_id_unavailable: bool,
    pub config_mismatch: bool,
    pub last_scan_incomplete: bool,
    pub sensor_error_seen: bool,
    pub radio_error_seen: bool,
}

/// Bit that the protocol assigns to each health flag.
#[derive(Clone, Copy, Debug, PartialEq, Eq, Structural)]
pub struct HealthFlagBits {
    pub counters_saturated: u8,
    pub boot_id_unavailable: u8,
    pub config_mismatch: u8,
    pub last_scan_incomplete: u8,
    pub sensor_error_seen: u8,
    pub radio_error_seen: u8,
}

impl HealthFlags {
    pub open spec fn spec_bits(self, bits: HealthFlagBits) -> u8 {
        flag_u8(self.counters_saturated, bits.counters_saturated) | flag_u8(
            self.boot_id_unavailable,
            bits.boot_id_unavailable,
        ) | flag_u8(self.config_mismatch, bits.config_mismatch) | flag_u8(
            self.last_scan_incomplete,
            bits.last_scan_incomplete,
        ) | flag_u8(self.sensor_error_seen, bits.sensor_error_seen) | flag_u8(
            self.radio_error_seen,
            bits.radio_error_seen,
        )
    }

    /// The flag byte of a health record.
    #[must_use]
    pub fn bits(self, bits: HealthFlagBits) -> (value: u8)
        ensures
            value == self.spec_bits(bits),
    {
        select_u8(self.counters_saturated, bits.counters_saturated) | select_u8(
            self.boot_id_unavailable,
            bits.boot_id_unavailable,
        ) | select_u8(self.config_mismatch, bits.config_mismatch) | select_u8(
            self.last_scan_incomplete,
            bits.last_scan_incomplete,
        ) | select_u8(self.sensor_error_seen, bits.sensor_error_seen) | select_u8(
            self.radio_error_seen,
            bits.radio_error_seen,
        )
    }
}

/// Device state that a health record carries.
#[derive(Clone, Copy, Debug, PartialEq, Eq)]
pub struct DeviceHealth {
    pub flags: HealthFlags,
    pub reset_cause_raw: u32,
    pub successful_sensor_scans: u32,
    pub failed_sensor_scans: u32,
    pub incomplete_profiles: u32,
    pub i2c_errors: u32,
    pub radio_tx_errors: u32,
    pub dropped_profiles: u32,
    pub dropped_fragments: u32,
    pub overwritten_fields: u32,
    pub current_sample_interval_ms: u32,
    pub firmware_version: [u8; 3],
    pub profile_id: u16,
    pub profile_version: u16,
    pub last_sensor_error: u16,
    pub last_radio_error: u16,
    pub calibrated_mcu_temperature_centi_celsius: Option<i16>,
    pub calibrated_vdd_millivolt: Option<u16>,
}

/// Quality flags of one collected profile.
#[derive(Clone, Copy, Debug, PartialEq, Eq, Structural)]
pub struct CollectionFlags {
    pub timeout: bool,
    pub poll_budget_exhausted: bool,
    pub i2c_error: bool,
    pub duplicate: bool,
    pub overwritten: bool,
    pub gas_index_out_of_range: bool,
    pub measurement_discontinuity: bool,
    pub no_new_data: bool,
    pub invalid_gas: bool,
    pub heater_unstable: bool,
    pub observation_overflow: bool,
    pub stale_pre_scan_fields: bool,
    pub config_mismatch: bool,
    pub sensor_reconfigured: bool,
}

/// Bit that the protocol assigns to each collection flag.
#[derive(Clone, Copy, Debug, PartialEq, Eq, Structural)]
pub struct CollectionFlagBits {
    pub timeout: u32,
    pub poll_budget_exhausted: u32,
    pub i2c_error: u32,
    pub duplicate: u32,
    pub overwritten: u32,
    pub gas_index_out_of_range: u32,
    pub measurement_discontinuity: u32,
    pub no_new_data: u32,
    pub invalid_gas: u32,
    pub heater_unstable: u32,
    pub observation_overflow: u32,
    pub stale_pre_scan_fields: u32,
    pub config_mismatch: u32,
    pub sensor_reconfigured: u32,
}

impl CollectionFlags {
    pub open spec fn spec_bits(self, bits: CollectionFlagBits) -> u32 {
        let word = word_with(0, self.timeout, bits.timeout);
        let word = word_with(word, self.poll_budget_exhausted, bits.poll_budget_exhausted);
        let word = word_with(word, self.i2c_error, bits.i2c_error);
        let word = word_with(word, self.duplicate, bits.duplicate);
        let word = word_with(word, self.overwritten, bits.overwritten);
        let word = word_with(word, self.gas_index_out_of_range, bits.gas_index_out_of_range);
        let word = word_with(word, self.measurement_discontinuity, bits.measurement_discontinuity);
        let word = word_with(word, self.no_new_data, bits.no_new_data);
        let word = word_with(word, self.invalid_gas, bits.invalid_gas);
        let word = word_with(word, self.heater_unstable, bits.heater_unstable);
        let word = word_with(word, self.observation_overflow, bits.observation_overflow);
        let word = word_with(word, self.stale_pre_scan_fields, bits.stale_pre_scan_fields);
        let word = word_with(word, self.config_mismatch, bits.config_mismatch);
        word_with(word, self.sensor_reconfigured, bits.sensor_reconfigured)
    }

    /// The flag word of a profile record.
    #[must_use]
    pub fn bits(self, bits: CollectionFlagBits) -> (value: u32)
        ensures
            value == self.spec_bits(bits),
    {
        let word: u32 = add_flag(0, self.timeout, bits.timeout);
        let word: u32 = add_flag(word, self.poll_budget_exhausted, bits.poll_budget_exhausted);
        let word: u32 = add_flag(word, self.i2c_error, bits.i2c_error);
        let word: u32 = add_flag(word, self.duplicate, bits.duplicate);
        let word: u32 = add_flag(word, self.overwritten, bits.overwritten);
        let word: u32 = add_flag(word, self.gas_index_out_of_range, bits.gas_index_out_of_range);
        let word: u32 = add_flag(word, self.measurement_discontinuity, bits.measurement_discontinuity);
        let word: u32 = add_flag(word, self.no_new_data, bits.no_new_data);
        let word: u32 = add_flag(word, self.invalid_gas, bits.invalid_gas);
        let word: u32 = add_flag(word, self.heater_unstable, bits.heater_unstable);
        let word: u32 = add_flag(word, self.observation_overflow, bits.observation_overflow);
        let word: u32 = add_flag(word, self.stale_pre_scan_fields, bits.stale_pre_scan_fields);
        let word: u32 = add_flag(word, self.config_mismatch, bits.config_mismatch);
        add_flag(word, self.sensor_reconfigured, bits.sensor_reconfigured)
    }
}

/// The word has the bit of drained fields.
#[verifier::opaque]
pub open spec fn has_stale_bit(word: u32) -> bool {
    word & COLLECTION_FLAG_STALE_PRE_SCAN_FIELDS != 0
}

impl CollectionFlagBits {
    /// Drained fields have the bit that the protocol gives them to themselves.
    pub open spec fn stale_bit_is_separate(self) -> bool {
        &&& self.stale_pre_scan_fields == COLLECTION_FLAG_STALE_PRE_SCAN_FIELDS
        &&& !has_stale_bit(self.timeout)
        &&& !has_stale_bit(self.poll_budget_exhausted)
        &&& !has_stale_bit(self.i2c_error)
        &&& !has_stale_bit(self.duplicate)
        &&& !has_stale_bit(self.overwritten)
        &&& !has_stale_bit(self.gas_index_out_of_range)
        &&& !has_stale_bit(self.measurement_discontinuity)
        &&& !has_stale_bit(self.no_new_data)
        &&& !has_stale_bit(self.invalid_gas)
        &&& !has_stale_bit(self.heater_unstable)
        &&& !has_stale_bit(self.observation_overflow)
        &&& !has_stale_bit(self.config_mismatch)
        &&& !has_stale_bit(self.sensor_reconfigured)
    }
}

/// The flag word has the bit of drained fields, bit 13, exactly if fields were
/// drained before the heater trigger.
pub proof fn drained_fields_set_their_bit(flags: CollectionFlags, bits: CollectionFlagBits)
    requires
        bits.stale_bit_is_separate(),
    ensures
        has_stale_bit(flags.spec_bits(bits)) <==> flags.stale_pre_scan_fields,
        has_stale_bit(flags.spec_bits(bits)) <==> flags.spec_bits(bits) & (1u32 << 13) != 0,
{
    lemma_stale_bits();
    lemma_flag_adds_its_bits(0, flags.timeout, bits.timeout);
    let word = word_with(0, flags.timeout, bits.timeout);
    lemma_flag_adds_its_bits(word, flags.poll_budget_exhausted, bits.poll_budget_exhausted);
    let word = word_with(word, flags.poll_budget_exhausted, bits.poll_budget_exhausted);
    lemma_flag_adds_its_bits(word, flags.i2c_error, bits.i2c_error);
    let word = word_with(word, flags.i2c_error, bits.i2c_error);
    lemma_flag_adds_its_bits(word, flags.duplicate, bits.duplicate);
    let word = word_with(word, flags.duplicate, bits.duplicate);
    lemma_flag_adds_its_bits(word, flags.overwritten, bits.overwritten);
    let word = word_with(word, flags.overwritten, bits.overwritten);
    lemma_flag_adds_its_bits(word, flags.gas_index_out_of_range, bits.gas_index_out_of_range);
    let word = word_with(word, flags.gas_index_out_of_range, bits.gas_index_out_of_range);
    lemma_flag_adds_its_bits(word, flags.measurement_discontinuity, bits.measurement_discontinuity);
    let word = word_with(word, flags.measurement_discontinuity, bits.measurement_discontinuity);
    lemma_flag_adds_its_bits(word, flags.no_new_data, bits.no_new_data);
    let word = word_with(word, flags.no_new_data, bits.no_new_data);
    lemma_flag_adds_its_bits(word, flags.invalid_gas, bits.invalid_gas);
    let word = word_with(word, flags.invalid_gas, bits.invalid_gas);
    lemma_flag_adds_its_bits(word, flags.heater_unstable, bits.heater_unstable);
    let word = word_with(word, flags.heater_unstable, bits.heater_unstable);
    lemma_flag_adds_its_bits(word, flags.observation_overflow, bits.observation_overflow);
    let word = word_with(word, flags.observation_overflow, bits.observation_overflow);
    lemma_flag_adds_its_bits(word, flags.stale_pre_scan_fields, bits.stale_pre_scan_fields);
    let word = word_with(word, flags.stale_pre_scan_fields, bits.stale_pre_scan_fields);
    lemma_flag_adds_its_bits(word, flags.config_mismatch, bits.config_mismatch);
    let word = word_with(word, flags.config_mismatch, bits.config_mismatch);
    lemma_flag_adds_its_bits(word, flags.sensor_reconfigured, bits.sensor_reconfigured);
    lemma_stale_bit_is_bit_13(flags.spec_bits(bits));
}

proof fn lemma_stale_bit_is_bit_13(word: u32)
    ensures
        has_stale_bit(word) <==> word & (1u32 << 13) != 0,
{
    reveal(has_stale_bit);
    assert(0x2000u32 == 1u32 << 13) by (bit_vector);
}

proof fn lemma_stale_bits()
    ensures
        !has_stale_bit(0),
        has_stale_bit(COLLECTION_FLAG_STALE_PRE_SCAN_FIELDS),
{
    reveal(has_stale_bit);
    assert(0u32 & 0x2000 == 0) by (bit_vector);
    assert(0x2000u32 & 0x2000 == 0x2000) by (bit_vector);
}

proof fn lemma_flag_adds_its_bits(word: u32, set: bool, mask: u32)
    ensures
        has_stale_bit(word_with(word, set, mask)) <==> has_stale_bit(word) || (set
            && has_stale_bit(mask)),
{
    reveal(has_stale_bit);
    assert((word | mask) & 0x2000 == 0 <==> word & 0x2000 == 0 && mask & 0x2000 == 0)
        by (bit_vector);
}

/// How a profile record says that collection ended.
#[derive(Clone, Copy, Debug, PartialEq, Eq, Structural)]
pub enum FinishReason {
    Complete,
    Timeout,
    PollBudget,
    ProfileRollover,
    SensorError,
}

/// One heater step of a profile record.
#[derive(Clone, Copy, Debug, PartialEq, Eq, Structural)]
pub struct WireProfileStep {
    pub step_index: u8,
    pub gas_index: u8,
    pub measurement_index: u8,
    pub status: u8,
    pub raw_measurement_status: u8,
    pub raw_gas_status: u8,
    pub target_temperature_celsius: u16,
    pub configured_duration_us: u32,
    pub offset_us: u32,
    pub temperature_centi_celsius: i16,
    pub pressure_pascal: u32,
    pub humidity_milli_percent_rh: u32,
    pub gas_resistance_ohm: u32,
    pub temperature_adc: u32,
    pub pressure_adc: u32,
    pub humidity_adc: u16,
    pub gas_resistance_adc: u16,
    pub gas_range: u8,
    pub repetition_multiplier: u8,
    pub heater_resistance: u8,
    pub heater_current: u8,
    pub gas_wait: u8,
}

/// One collected profile, complete or partial.
#[derive(Clone, Copy, Debug, PartialEq, Eq)]
pub struct WireProfileScan {
    pub profile_id: u16,
    pub profile_version: u16,
    pub expected_step_count: u8,
    pub observed_unique_step_count: u8,
    pub observed_field_count: u16,
    pub missing_steps_bitmap: u16,
    pub duplicate_steps_bitmap: u16,
    pub scan_duration_us: u32,
    pub collection_flags: CollectionFlags,
    pub finish_reason: FinishReason,
    pub duplicate_count: u16,
    pub overwritten_field_count: u16,
    pub out_of_order_count: u16,
    pub ambiguous_index_jump_count: u16,
    pub invalid_gas_index_count: u16,
    pub intermediate_field_count: u16,
    pub profile_rollover_count: u16,
    pub fields_after_rollover_count: u16,
    pub poll_count: u16,
    pub steps: [Option<WireProfileStep>; 10],
}

/// The codec could not represent a record.
#[derive(Clone, Copy, Debug, PartialEq, Eq, Structural)]
pub struct CodecError;

} // verus!
