//! Target-independent profile outcome and configuration-check policy.

use vstd::prelude::*;

use crate::driver::{ProfileStep, SensorConfigurationReadback};
use crate::protocol::{DeviceConfig, HeaterStepConfig, WireProfileStep};

verus! {

/// Stable IDAC metadata used only by `DeviceConfig` identity.
///
/// The BME688 IDAC registers are read-only in this firmware and can drift even
/// though every programmed heater/configuration register is unchanged. Capture
/// them once when telemetry is established, then reuse those exact bytes when
/// refreshing the configuration record. Per-scan measurements retain their
/// current live IDAC observation independently.
#[derive(Clone, Copy, Debug, PartialEq, Eq)]
pub struct CanonicalIdacSnapshot {
    values: [u8; 10],
}

impl View for CanonicalIdacSnapshot {
    type V = Seq<u8>;

    closed spec fn view(&self) -> Seq<u8> {
        self.values@
    }
}

/// `step` with its IDAC byte replaced.
pub open spec fn with_heater_current(step: HeaterStepConfig, current: u8) -> HeaterStepConfig {
    HeaterStepConfig { readback_heater_current: current, ..step }
}

/// The step descriptors of a configuration whose first `count` IDAC bytes are
/// those of `idac`.
pub open spec fn canonical_steps(
    steps: Seq<HeaterStepConfig>,
    idac: Seq<u8>,
    count: int,
) -> Seq<HeaterStepConfig> {
    Seq::new(
        steps.len(),
        |i: int|
            if i < count {
                with_heater_current(steps[i], idac[i])
            } else {
                steps[i]
            },
    )
}

/// `after` is `before` with canonical IDAC bytes in its active steps, and
/// differs in nothing else.
pub open spec fn canonicalized(before: DeviceConfig, idac: Seq<u8>, after: DeviceConfig) -> bool {
    &&& after.steps@ == canonical_steps(before.steps@, idac, before.expected_step_count as int)
    &&& after == (DeviceConfig { steps: after.steps, ..before })
}

impl CanonicalIdacSnapshot {
    #[must_use]
    pub fn capture(values: [u8; 10]) -> (snapshot: Self)
        ensures
            snapshot@ == values@,
    {
        CanonicalIdacSnapshot { values }
    }

    /// Replace only active-step configuration IDAC metadata with the snapshot.
    pub fn apply_to(self, config: &mut DeviceConfig)
        ensures
            canonicalized(*old(config), self@, *final(config)),
    {
        let mut index: usize = 0;
        while index < 10 && index < config.expected_step_count as usize
            invariant
                index <= 10,
                index <= config.expected_step_count,
                config.steps@ == canonical_steps(old(config).steps@, self@, index as int),
                *config == (DeviceConfig { steps: config.steps, ..*old(config) }),
            ensures
                index == 10 || index == config.expected_step_count,
                index <= 10,
            decreases 10 - index,
        {
            let mut step = config.steps[index];
            step.readback_heater_current = self.values[index];
            config.steps[index] = step;
            index += 1;
            assert(config.steps@ == canonical_steps(old(config).steps@, self@, index as int));
        }
        assert(config.steps@ == canonical_steps(
            old(config).steps@,
            self@,
            config.expected_step_count as int,
        ));
    }
}

/// Two step descriptors agree in everything but their IDAC byte.
pub open spec fn same_step_except_idac(left: HeaterStepConfig, right: HeaterStepConfig) -> bool {
    with_heater_current(left, 0) == with_heater_current(right, 0)
}

/// Two configurations agree in everything but the IDAC bytes of active steps.
pub open spec fn same_except_idac(left: DeviceConfig, right: DeviceConfig) -> bool {
    &&& left == (DeviceConfig { steps: left.steps, ..right })
    &&& forall|i: int|
        0 <= i < 10 && i < left.expected_step_count ==> same_step_except_idac(
            left.steps@[i],
            right.steps@[i],
        )
    &&& forall|i: int| left.expected_step_count <= i < 10 ==> left.steps@[i] == right.steps@[i]
}

/// IDAC drift alone never changes a canonical configuration, and every other
/// difference between two configurations survives canonicalization.
pub proof fn canonical_configuration_ignores_only_idac(
    left: DeviceConfig,
    right: DeviceConfig,
    idac: Seq<u8>,
    canonical_left: DeviceConfig,
    canonical_right: DeviceConfig,
)
    requires
        canonicalized(left, idac, canonical_left),
        canonicalized(right, idac, canonical_right),
    ensures
        canonical_left == canonical_right <==> same_except_idac(left, right),
{
    let count = left.expected_step_count as int;
    if same_except_idac(left, right) {
        assert forall|i: int| 0 <= i < 10 implies canonical_left.steps@[i]
            == canonical_right.steps@[i] by {
            assert(i < count ==> same_step_except_idac(left.steps@[i], right.steps@[i]));
        }
        assert(canonical_left.steps =~= canonical_right.steps);
    }
    if canonical_left == canonical_right {
        assert forall|i: int| 0 <= i < 10 && i < count implies same_step_except_idac(
            left.steps@[i],
            right.steps@[i],
        ) by {
            assert(canonical_left.steps@[i] == canonical_right.steps@[i]);
        }
        assert forall|i: int| count <= i < 10 implies left.steps@[i] == right.steps@[i] by {
            assert(canonical_left.steps@[i] == canonical_right.steps@[i]);
        }
    }
}

pub open spec fn spec_wire_profile_step(
    step_index: u8,
    step: ProfileStep,
    config: HeaterStepConfig,
) -> WireProfileStep {
    WireProfileStep {
        step_index,
        gas_index: step.measurement.gas_index,
        measurement_index: step.measurement.measurement_index,
        status: step.measurement.status,
        raw_measurement_status: step.measurement.raw_field_status,
        raw_gas_status: step.measurement.raw_gas_status,
        target_temperature_celsius: config.target_temperature_celsius,
        configured_duration_us: config.configured_duration_us,
        offset_us: step.observed_offset_us,
        temperature_centi_celsius: step.measurement.values.temperature,
        pressure_pascal: step.measurement.values.pressure,
        humidity_milli_percent_rh: step.measurement.values.humidity,
        gas_resistance_ohm: step.measurement.values.gas_resistance,
        temperature_adc: step.measurement.raw.temperature_adc,
        pressure_adc: step.measurement.raw.pressure_adc,
        humidity_adc: step.measurement.raw.humidity_adc,
        gas_resistance_adc: step.measurement.raw.gas_resistance_adc,
        gas_range: step.measurement.raw.gas_range,
        repetition_multiplier: config.repetition_multiplier,
        heater_resistance: step.measurement.heater_resistance,
        heater_current: step.measurement.heater_current,
        gas_wait: step.measurement.gas_wait,
    }
}

/// The exact profile-wire record of one retained sensor field.
///
/// The heater current comes directly from this scan's measurement. It is
/// deliberately independent from the canonical IDAC bytes used by
/// `DeviceConfig` identity.
#[must_use]
pub fn wire_profile_step(step_index: u8, step: ProfileStep, config: HeaterStepConfig) -> (wire:
    WireProfileStep)
    ensures
        wire == spec_wire_profile_step(step_index, step, config),
{
    let measurement = step.measurement;
    WireProfileStep {
        step_index,
        gas_index: measurement.gas_index,
        measurement_index: measurement.measurement_index,
        status: measurement.status,
        raw_measurement_status: measurement.raw_field_status,
        raw_gas_status: measurement.raw_gas_status,
        target_temperature_celsius: config.target_temperature_celsius,
        configured_duration_us: config.configured_duration_us,
        offset_us: step.observed_offset_us,
        temperature_centi_celsius: measurement.values.temperature,
        pressure_pascal: measurement.values.pressure,
        humidity_milli_percent_rh: measurement.values.humidity,
        gas_resistance_ohm: measurement.values.gas_resistance,
        temperature_adc: measurement.raw.temperature_adc,
        pressure_adc: measurement.raw.pressure_adc,
        humidity_adc: measurement.raw.humidity_adc,
        gas_resistance_adc: measurement.raw.gas_resistance_adc,
        gas_range: measurement.raw.gas_range,
        repetition_multiplier: config.repetition_multiplier,
        heater_resistance: measurement.heater_resistance,
        heater_current: measurement.heater_current,
        gas_wait: measurement.gas_wait,
    }
}

/// Compare two ten-slot register arrays.
pub(crate) fn registers_equal(left: &[u8; 10], right: &[u8; 10]) -> (equal: bool)
    ensures
        equal == (left@ == right@),
{
    let mut index: usize = 0;
    while index < 10
        invariant
            index <= 10,
            forall|i: int| 0 <= i < index ==> left@[i] == right@[i],
        decreases 10 - index,
    {
        if left[index] != right[index] {
            assert(left@[index as int] != right@[index as int]);
            return false;
        }
        index += 1;
    }
    assert(left@ =~= right@);
    true
}

/// Two readbacks agree in every register but the unprogrammed IDAC array.
pub open spec fn same_readback_identity(
    left: SensorConfigurationReadback,
    right: SensorConfigurationReadback,
) -> bool {
    &&& left.operation_mode == right.operation_mode
    &&& left.environmental == right.environmental
    &&& left.heater.control_gas_0 == right.heater.control_gas_0
    &&& left.heater.control_gas_1 == right.heater.control_gas_1
    &&& left.heater.registers.resistance@ == right.heater.registers.resistance@
    &&& left.heater.registers.gas_wait@ == right.heater.registers.gas_wait@
    &&& left.heater.registers.shared_duration == right.heater.registers.shared_duration
}

/// Compare every sensor configuration field that contributes real identity,
/// deliberately excluding only the unprogrammed volatile IDAC array.
#[must_use]
pub fn sensor_readback_identity_eq(
    left: &SensorConfigurationReadback,
    right: &SensorConfigurationReadback,
) -> (equal: bool)
    ensures
        equal == same_readback_identity(*left, *right),
{
    left.operation_mode == right.operation_mode && left.environmental == right.environmental
        && left.heater.control_gas_0 == right.heater.control_gas_0 && left.heater.control_gas_1
        == right.heater.control_gas_1 && registers_equal(
        &left.heater.registers.resistance,
        &right.heater.registers.resistance,
    ) && registers_equal(&left.heater.registers.gas_wait, &right.heater.registers.gas_wait)
        && left.heater.registers.shared_duration == right.heater.registers.shared_duration
}

/// Silent BME resets must be detected before the next heater run, not merely
/// when the less-frequent `DeviceConfig` packet is due.
pub const VERIFY_CONFIGURATION_BEFORE_EVERY_SCAN: bool = true;

/// Production LoRa cadence for repeating an already delivered configuration.
pub const LORA_CONFIG_REPEAT_INTERVAL_SCANS: u16 = 6;

/// A failed post-Parallel Sleep/recovery gets only this many additional local
/// stop commands. The bound preserves prompt server-visible health instead of
/// allowing a faulty I2C bus to trap the node in an unbounded recovery loop.
pub const EMERGENCY_SLEEP_RETRY_LIMIT: u8 = 3;

#[derive(Clone, Copy, Debug, PartialEq, Eq, Structural)]
pub struct EmergencySleepRetryProgress {
    pub attempts: u8,
    pub i2c_errors: u32,
    pub confirmed: bool,
}

/// `value + amount`, held at the largest 32-bit count.
pub open spec fn saturating_u32(value: u32, amount: int) -> u32 {
    if value + amount > u32::MAX {
        u32::MAX
    } else {
        (value + amount) as u32
    }
}

impl Default for EmergencySleepRetryProgress {
    /// No stop command sent yet.
    fn default() -> (progress: Self)
        ensures
            progress == Self::none(),
    {
        EmergencySleepRetryProgress { attempts: 0, i2c_errors: 0, confirmed: false }
    }
}

impl EmergencySleepRetryProgress {
    pub open spec fn none() -> Self {
        EmergencySleepRetryProgress { attempts: 0, i2c_errors: 0, confirmed: false }
    }

    pub open spec fn spec_should_retry(self) -> bool {
        !self.confirmed && self.attempts < EMERGENCY_SLEEP_RETRY_LIMIT
    }

    pub open spec fn after_attempt(self, confirmed: bool, i2c_error: bool) -> Self {
        EmergencySleepRetryProgress {
            attempts: if self.attempts == u8::MAX {
                u8::MAX
            } else {
                (self.attempts + 1) as u8
            },
            i2c_errors: saturating_u32(self.i2c_errors, if i2c_error { 1 } else { 0 }),
            confirmed: self.confirmed || confirmed,
        }
    }

    #[must_use]
    pub fn should_retry(self) -> (retry: bool)
        ensures
            retry == self.spec_should_retry(),
    {
        !self.confirmed && self.attempts < EMERGENCY_SLEEP_RETRY_LIMIT
    }

    pub fn record_attempt(&mut self, confirmed: bool, i2c_error: bool)
        ensures
            *final(self) == old(self).after_attempt(confirmed, i2c_error),
    {
        self.attempts = self.attempts.saturating_add(1);
        self.confirmed = self.confirmed || confirmed;
        self.i2c_errors = self.i2c_errors.saturating_add(if i2c_error { 1 } else { 0 });
    }
}

/// The progress after a sequence of attempts, each given by whether it
/// confirmed Sleep and whether it failed on the bus.
pub open spec fn after_attempts(attempts: Seq<(bool, bool)>) -> EmergencySleepRetryProgress
    decreases attempts.len(),
{
    if attempts.len() == 0 {
        EmergencySleepRetryProgress::none()
    } else {
        after_attempts(attempts.drop_last()).after_attempt(attempts.last().0, attempts.last().1)
    }
}

/// Every attempt of a sequence was still called for when it was made.
pub open spec fn retried_while_allowed(attempts: Seq<(bool, bool)>) -> bool
    decreases attempts.len(),
{
    attempts.len() == 0 || (retried_while_allowed(attempts.drop_last()) && after_attempts(
        attempts.drop_last(),
    ).spec_should_retry())
}

/// Retrying only while it is called for sends at most three stop commands, and
/// stops earlier exactly when one of them confirmed Sleep.
pub proof fn emergency_retries_are_bounded(attempts: Seq<(bool, bool)>)
    requires
        retried_while_allowed(attempts),
    ensures
        attempts.len() <= EMERGENCY_SLEEP_RETRY_LIMIT,
        after_attempts(attempts).attempts == attempts.len(),
        after_attempts(attempts).confirmed == (attempts.len() != 0 && attempts.last().0),
        after_attempts(attempts).i2c_errors <= attempts.len(),
        !after_attempts(attempts).spec_should_retry() ==> attempts.len()
            == EMERGENCY_SLEEP_RETRY_LIMIT || attempts.last().0,
    decreases attempts.len(),
{
    if attempts.len() != 0 {
        emergency_retries_are_bounded(attempts.drop_last());
    }
}

/// Target-independent evidence used for firmware/server quality alignment.
#[derive(Clone, Copy, Debug, PartialEq, Eq, Structural)]
pub struct ProfileQualityEvidence {
    pub sensor_failed: bool,
    pub i2c_error_count: u32,
    pub structurally_complete: bool,
    pub finish_complete: bool,
    pub all_steps_gas_valid: bool,
    pub all_steps_heater_stable: bool,
    pub overwritten_field_count: u16,
    pub invalid_gas_index_count: u16,
    pub measurement_discontinuity: bool,
    pub observation_overflowed: bool,
    pub stale_pre_scan_field_count: u16,
}

impl ProfileQualityEvidence {
    /// Every condition required by receiver-side profile analysis holds.
    pub open spec fn flawless(self) -> bool {
        &&& !self.sensor_failed
        &&& self.i2c_error_count == 0
        &&& self.structurally_complete
        &&& self.finish_complete
        &&& self.all_steps_gas_valid
        &&& self.all_steps_heater_stable
        &&& self.overwritten_field_count == 0
        &&& self.invalid_gas_index_count == 0
        &&& !self.measurement_discontinuity
        &&& !self.observation_overflowed
        &&& self.stale_pre_scan_field_count == 0
    }
}

/// One logical profile is successful only when every condition required by
/// receiver-side profile analysis agrees. Expected repeated observations and
/// discarded Parallel-mode dummy fields are deliberately nonfatal.
#[must_use]
pub fn logical_profile_success(evidence: ProfileQualityEvidence) -> (successful: bool)
    ensures
        successful == evidence.flawless(),
{
    !evidence.sensor_failed && evidence.i2c_error_count == 0 && evidence.structurally_complete
        && evidence.finish_complete && evidence.all_steps_gas_valid
        && evidence.all_steps_heater_stable && evidence.overwritten_field_count == 0
        && evidence.invalid_gas_index_count == 0 && !evidence.measurement_discontinuity
        && !evidence.observation_overflowed && evidence.stale_pre_scan_field_count == 0
}

pub open spec fn check_due(sequence: u32, repeat_interval: u16) -> bool {
    repeat_interval != 0 && sequence as int % repeat_interval as int == 0
}

/// Decide the independent packet-level `DeviceConfig` repetition cadence.
#[must_use]
pub fn configuration_check_due(sequence: u32, repeat_interval: u16) -> (due: bool)
    ensures
        due == check_due(sequence, repeat_interval),
{
    repeat_interval != 0 && sequence % (repeat_interval as u32) == 0
}

/// A configuration is sent when it is pending or due and was just verified.
pub open spec fn config_included(
    pending: bool,
    periodic_due: bool,
    configuration_verified: bool,
) -> bool {
    configuration_verified && (pending || periodic_due)
}

/// Mark every due/forced config definition pending before encoding any later
/// record, so codec or transport failure retries it on the next verified scan.
/// Returns `(config_now, pending_after_encode_attempt)`.
#[must_use]
pub fn device_config_encode_state(
    pending: bool,
    periodic_due: bool,
    configuration_verified: bool,
) -> (state: (bool, bool))
    ensures
        state.0 == config_included(pending, periodic_due, configuration_verified),
        state.1 == (pending || state.0),
{
    let included = configuration_verified && (pending || periodic_due);
    (included, pending || included)
}

#[must_use]
pub fn device_config_pending_after_delivery(pending: bool, config_record_completed: bool) -> (still:
    bool)
    ensures
        still == (pending && !config_record_completed),
{
    pending && !config_record_completed
}

/// Delivery state belongs to one exact configuration ID, not to boot/scan
/// sequence. A changed ID therefore starts again as a first definition even
/// when it appears late in the same boot.
#[derive(Clone, Copy, Debug, PartialEq, Eq, Structural)]
pub struct DeviceConfigDeliveryState {
    pending: bool,
    current_id_transmitted: bool,
}

/// What is known of the delivery of the current configuration.
pub struct ConfigDelivery {
    /// The configuration still has to be sent.
    pub pending: bool,
    /// The current configuration ID has been delivered at least once.
    pub delivered: bool,
}

/// What can happen to the current configuration.
pub enum ConfigDeliveryEvent {
    /// A scan was about to be encoded.
    Prepared { periodic_due: bool, configuration_verified: bool },
    /// The configuration changed its ID.
    IdChanged,
    /// The configuration record was delivered.
    Completed,
}

impl ConfigDelivery {
    /// A configuration that was never sent.
    pub open spec fn first() -> Self {
        ConfigDelivery { pending: true, delivered: false }
    }

    pub open spec fn after(self, event: ConfigDeliveryEvent) -> Self {
        match event {
            ConfigDeliveryEvent::Prepared { periodic_due, configuration_verified } => {
                ConfigDelivery {
                    pending: self.pending || config_included(
                        self.pending,
                        periodic_due,
                        configuration_verified,
                    ),
                    delivered: self.delivered,
                }
            },
            ConfigDeliveryEvent::IdChanged => ConfigDelivery::first(),
            ConfigDeliveryEvent::Completed => ConfigDelivery { pending: false, delivered: true },
        }
    }

    pub open spec fn after_all(self, events: Seq<ConfigDeliveryEvent>) -> Self
        decreases events.len(),
    {
        if events.len() == 0 {
            self
        } else {
            self.after_all(events.drop_last()).after(events.last())
        }
    }
}

impl View for DeviceConfigDeliveryState {
    type V = ConfigDelivery;

    closed spec fn view(&self) -> ConfigDelivery {
        ConfigDelivery { pending: self.pending, delivered: self.current_id_transmitted }
    }
}

impl DeviceConfigDeliveryState {
    #[must_use]
    pub fn new() -> (state: Self)
        ensures
            state@ == ConfigDelivery::first(),
    {
        DeviceConfigDeliveryState { pending: true, current_id_transmitted: false }
    }

    pub fn record_id_change(&mut self)
        ensures
            final(self)@ == old(self)@.after(ConfigDeliveryEvent::IdChanged),
    {
        self.pending = true;
        self.current_id_transmitted = false;
    }

    /// Mark a genuinely changed canonical configuration and report the result.
    pub fn record_id_change_if_needed(&mut self, current_id: u64, next_id: u64) -> (changed: bool)
        ensures
            changed == (current_id != next_id),
            final(self)@ == if changed {
                old(self)@.after(ConfigDeliveryEvent::IdChanged)
            } else {
                old(self)@
            },
    {
        if current_id == next_id {
            false
        } else {
            self.record_id_change();
            true
        }
    }

    /// Latch a due definition before any later encoder can fail. Returns
    /// `(sent_now, repeated_for_this_exact_id)`.
    pub fn prepare_encode(&mut self, periodic_due: bool, configuration_verified: bool) -> (decision:
        (bool, bool))
        ensures
            decision.0 == config_included(
                old(self)@.pending,
                periodic_due,
                configuration_verified,
            ),
            decision.1 == old(self)@.delivered,
            final(self)@ == old(self)@.after(
                ConfigDeliveryEvent::Prepared { periodic_due, configuration_verified },
            ),
    {
        let (included, pending) = device_config_encode_state(
            self.pending,
            periodic_due,
            configuration_verified,
        );
        self.pending = pending;
        (included, self.current_id_transmitted)
    }

    pub fn record_completed(&mut self)
        ensures
            final(self)@ == old(self)@.after(ConfigDeliveryEvent::Completed),
    {
        self.pending = device_config_pending_after_delivery(self.pending, true);
        self.current_id_transmitted = true;
    }
}

impl Default for DeviceConfigDeliveryState {
    fn default() -> (state: Self)
        ensures
            state@ == ConfigDelivery::first(),
    {
        Self::new()
    }
}

/// A configuration that has to be sent stays so through codec errors,
/// mismatching scans and output failures, until its record is delivered.
pub proof fn config_stays_pending_until_delivered(
    state: ConfigDelivery,
    events: Seq<ConfigDeliveryEvent>,
)
    requires
        state.pending,
        forall|i: int| 0 <= i < events.len() ==> events[i] !is Completed,
    ensures
        state.after_all(events).pending,
    decreases events.len(),
{
    if events.len() != 0 {
        config_stays_pending_until_delivered(state, events.drop_last());
    }
}

/// The record of the current ID was delivered at event `i`: no later event
/// changed the ID.
pub open spec fn delivered_at(events: Seq<ConfigDeliveryEvent>, i: int) -> bool {
    &&& 0 <= i < events.len()
    &&& events[i] is Completed
    &&& forall|j: int| i < j < events.len() ==> events[j] !is IdChanged
}

/// The exact ID counts as delivered, and its next record as a repeat, if and
/// only if a delivery followed the last change of the ID.
pub proof fn repeat_follows_delivery_of_the_same_id(events: Seq<ConfigDeliveryEvent>)
    ensures
        ConfigDelivery::first().after_all(events).delivered <==> exists|i: int|
            delivered_at(events, i),
    decreases events.len(),
{
    if events.len() != 0 {
        let before = events.drop_last();
        let last = events.len() - 1;
        repeat_follows_delivery_of_the_same_id(before);
        if events[last] is Completed {
            assert(delivered_at(events, last));
        } else if events[last] is IdChanged {
            assert forall|i: int| !delivered_at(events, i) by {
                assert(i < last ==> events[last] is IdChanged);
            }
        } else {
            assert forall|i: int| delivered_at(events, i) == delivered_at(before, i) by {
                if delivered_at(before, i) {
                    assert forall|j: int| i < j < events.len() implies events[j] !is IdChanged by {
                        assert(j < last ==> before[j] == events[j]);
                    }
                }
            }
            if exists|i: int| delivered_at(before, i) {
                let i = choose|i: int| delivered_at(before, i);
                assert(delivered_at(events, i));
            }
            if exists|i: int| delivered_at(events, i) {
                let i = choose|i: int| delivered_at(events, i);
                assert(delivered_at(before, i));
            }
        }
    }
}

/// An unverified scan never advertises a configuration, and a verified scan
/// always sends one that is pending.
pub proof fn mismatch_is_never_advertised(state: ConfigDelivery, periodic_due: bool)
    ensures
        !config_included(state.pending, periodic_due, false),
        state.pending ==> config_included(state.pending, periodic_due, true),
{
}

/// Configuration flags of one scan.
#[derive(Clone, Copy, Debug, PartialEq, Eq, Structural)]
pub struct ConfigurationFlags {
    pub config_mismatch: bool,
    pub sensor_reconfigured: bool,
}

/// Protocol flags for the result of current readback/recovery, never startup
/// assumptions.
#[must_use]
pub fn configuration_collection_flags(verified: bool, reconfigured: bool) -> (flags:
    ConfigurationFlags)
    ensures
        flags.config_mismatch == !verified,
        flags.sensor_reconfigured == (verified && reconfigured),
{
    ConfigurationFlags {
        config_mismatch: !verified,
        sensor_reconfigured: verified && reconfigured,
    }
}

/// Any attempted runtime programming may have partially reset the BME688's
/// temporal state. Preserve a receiver-history marker even when immediate
/// verification/Sleep fails; a later exactly verified, usable profile carries
/// and acknowledges it.
#[must_use]
pub fn reconfiguration_marker_after_programming_attempt(
    pending: bool,
    programming_attempted: bool,
) -> (marker: bool)
    ensures
        marker == (pending || programming_attempted),
{
    pending || programming_attempted
}

/// The marker that a scan leaves pending, before any delivery.
pub open spec fn carried_marker(
    pending: bool,
    current_verified: bool,
    current_reconfigured: bool,
) -> bool {
    pending || (current_verified && current_reconfigured)
}

/// Carry a successful restore onto the next exactly verified profile whose
/// Parallel trigger actually succeeds, where the receiver can reset temporal
/// history without relabeling old/no-scan records.
/// Returns `(mark_current_scan, pending_after_current_scan)`. A successful
/// trigger marks the scan but deliberately leaves the marker pending until
/// transport delivery is acknowledged.
#[must_use]
pub fn carry_pending_reconfiguration(
    pending: bool,
    current_verified: bool,
    current_reconfigured: bool,
    trigger_succeeded: bool,
) -> (result: (bool, bool))
    ensures
        result.0 == (carried_marker(pending, current_verified, current_reconfigured)
            && current_verified && trigger_succeeded),
        result.1 == carried_marker(pending, current_verified, current_reconfigured),
{
    let marker = pending || (current_verified && current_reconfigured);
    if current_verified && trigger_succeeded {
        (marker, marker)
    } else {
        (false, marker)
    }
}

/// Every profile fragment is among the completed records, which start with the
/// configuration record where there is one. Record counts saturate at 255.
pub open spec fn fragments_delivered(
    config_included: bool,
    profile_fragment_count: u8,
    completed_records: u8,
) -> bool {
    profile_fragment_count != 0 && completed_records >= if config_included
        && profile_fragment_count < 255 {
        profile_fragment_count + 1
    } else {
        profile_fragment_count as int
    }
}

/// All profile fragments precede optional health in the deterministic output
/// batch. This detects delivery even when a later health record fails.
#[must_use]
pub fn profile_delivery_complete(
    config_included: bool,
    profile_fragment_count: u8,
    completed_records: u8,
) -> (complete: bool)
    ensures
        complete == fragments_delivered(
            config_included,
            profile_fragment_count,
            completed_records,
        ),
{
    let config_count: u8 = if config_included {
        1
    } else {
        0
    };
    profile_fragment_count != 0 && completed_records >= config_count.saturating_add(
        profile_fragment_count,
    )
}

/// Keep a temporal-history reset marker until one locally usable marked
/// profile has been delivered in full.
#[must_use]
pub fn reconfiguration_marker_after_delivery(
    pending: bool,
    scan_marked: bool,
    scan_locally_usable: bool,
    profile_fully_delivered: bool,
) -> (marker: bool)
    ensures
        marker == (pending && !(scan_marked && scan_locally_usable && profile_fully_delivered)),
{
    pending && !(scan_marked && scan_locally_usable && profile_fully_delivered)
}

/// The scan's configuration identity still describes the sensor after the scan.
pub open spec fn identity_available(
    pre_trigger_verified: bool,
    post_scan_checked: bool,
    post_scan_verified: bool,
    post_scan_matches_pre_trigger: bool,
) -> bool {
    pre_trigger_verified && (post_scan_checked ==> post_scan_verified
        && post_scan_matches_pre_trigger)
}

/// Health describes the sensor state after the scan. It may reuse the scan's
/// pre-trigger config ID only when any post-scan verification produced the
/// exact same metadata snapshot.
#[must_use]
pub fn health_configuration_identity_available(
    pre_trigger_verified: bool,
    post_scan_checked: bool,
    post_scan_verified: bool,
    post_scan_matches_pre_trigger: bool,
) -> (available: bool)
    ensures
        available == identity_available(
            pre_trigger_verified,
            post_scan_checked,
            post_scan_verified,
            post_scan_matches_pre_trigger,
        ),
{
    pre_trigger_verified && (!post_scan_checked || (post_scan_verified
        && post_scan_matches_pre_trigger))
}

pub open spec fn advertised_config_id(config_id: u64, identity_available: bool) -> u64 {
    if identity_available {
        config_id
    } else {
        0
    }
}

#[must_use]
pub fn wire_config_id(config_id: u64, identity_available: bool) -> (id: u64)
    ensures
        id == advertised_config_id(config_id, identity_available),
{
    if identity_available {
        config_id
    } else {
        0
    }
}

pub open spec fn discarded_total(intermediate_fields: u16, pre_scan_discarded_fields: u16) -> int {
    intermediate_fields + pre_scan_discarded_fields
}

/// Wire `intermediate_field_count` totals collector-discarded dummy fields and
/// stale pre-trigger NEW_DATA fields, with explicit saturation.
#[must_use]
pub fn total_discarded_field_count(
    intermediate_fields: u16,
    pre_scan_discarded_fields: u16,
) -> (total: u16)
    ensures
        total == if discarded_total(intermediate_fields, pre_scan_discarded_fields) > u16::MAX {
            u16::MAX as int
        } else {
            discarded_total(intermediate_fields, pre_scan_discarded_fields)
        },
{
    intermediate_fields.saturating_add(pre_scan_discarded_fields)
}

#[must_use]
pub fn discarded_field_count_overflowed(
    intermediate_fields: u16,
    pre_scan_discarded_fields: u16,
) -> (overflowed: bool)
    ensures
        overflowed == (discarded_total(intermediate_fields, pre_scan_discarded_fields) > u16::MAX),
{
    intermediate_fields.checked_add(pre_scan_discarded_fields).is_none()
}

/// How many of the attempts failed on the bus.
pub open spec fn failed_on_bus(attempts: Seq<(bool, bool)>) -> nat
    decreases attempts.len(),
{
    if attempts.len() == 0 {
        0
    } else {
        failed_on_bus(attempts.drop_last()) + if attempts.last().1 {
            1nat
        } else {
            0
        }
    }
}

/// Stop commands are counted up to the largest count of each kind: every one as
/// an attempt, those that failed on the bus as bus errors, and Sleep is confirmed
/// once any of them confirmed it. Another one is due exactly if none has and
/// fewer than three were sent.
pub proof fn stop_commands_are_counted(attempts: Seq<(bool, bool)>)
    requires
        attempts.len() <= 255,
    ensures
        ({
            let progress = after_attempts(attempts);
            &&& progress.attempts == attempts.len()
            &&& progress.i2c_errors == failed_on_bus(attempts)
            &&& progress.confirmed <==> exists|i: int|
                0 <= i < attempts.len() && (#[trigger] attempts[i]).0
            &&& progress.spec_should_retry() <==> !progress.confirmed && attempts.len() < 3
        }),
        failed_on_bus(attempts) <= attempts.len(),
    decreases attempts.len(),
{
    if attempts.len() != 0 {
        let before = attempts.drop_last();
        stop_commands_are_counted(before);
        let last = attempts.len() - 1;
        if exists|i: int| 0 <= i < before.len() && (#[trigger] before[i]).0 {
            let i = choose|i: int| 0 <= i < before.len() && (#[trigger] before[i]).0;
            assert(attempts[i].0);
        }
        if exists|i: int| 0 <= i < attempts.len() && (#[trigger] attempts[i]).0 {
            let i = choose|i: int| 0 <= i < attempts.len() && (#[trigger] attempts[i]).0;
            if i < last {
                assert(before[i].0);
            }
        }
        assert(attempts[last] == attempts.last());
    }
}

/// A periodic check is due with scan zero and with every multiple of its
/// interval, and never without an interval.
pub proof fn checks_are_due_at_multiples(sequence: u32, repeat_interval: u16, due: bool)
    requires
        call_ensures(configuration_check_due, (sequence, repeat_interval), due),
    ensures
        repeat_interval == 0 ==> !due,
        repeat_interval > 0 ==> (due <==> exists|k: int| sequence == #[trigger] (k
            * repeat_interval)),
{
    if repeat_interval > 0 {
        let interval = repeat_interval as int;
        let number = sequence as int;
        vstd::arithmetic::div_mod::lemma_fundamental_div_mod(number, interval);
        let quotient = number / interval;
        assert(quotient * interval == interval * quotient) by (nonlinear_arith);
        if due {
            assert(sequence == quotient * interval);
        }
        if exists|k: int| sequence == #[trigger] (k * repeat_interval) {
            let k = choose|k: int| sequence == #[trigger] (k * repeat_interval);
            vstd::arithmetic::div_mod::lemma_mod_multiples_basic(k, interval);
        }
    }
}

/// A configuration goes into the batch of a verified scan if it is pending or
/// due, and into no other; once it went in, or was pending before, it stays
/// pending until a record of it is completed.
pub proof fn configuration_is_sent_verified_and_kept_until_completed(
    pending: bool,
    periodic_due: bool,
    configuration_verified: bool,
    state: (bool, bool),
    completed: bool,
    still: bool,
)
    requires
        call_ensures(
            device_config_encode_state,
            (pending, periodic_due, configuration_verified),
            state,
        ),
        call_ensures(device_config_pending_after_delivery, (state.1, completed), still),
    ensures
        state.0 ==> configuration_verified,
        configuration_verified && (pending || periodic_due) ==> state.0,
        !pending && !periodic_due ==> !state.0,
        state.1 <==> pending || state.0,
        completed ==> !still,
        !completed ==> (still <==> pending || state.0),
{
}

/// Delivery of a configuration goes through three kinds of events: a change of
/// ID makes it undelivered and pending, a completed record makes it delivered and
/// no longer pending, and preparing a batch only ever adds to what is pending.
pub proof fn delivery_follows_its_events(state: ConfigDelivery, event: ConfigDeliveryEvent)
    ensures
        ConfigDelivery::first().pending,
        !ConfigDelivery::first().delivered,
        event is IdChanged ==> state.after(event).pending && !state.after(event).delivered,
        event is Completed ==> !state.after(event).pending && state.after(event).delivered,
        event matches ConfigDeliveryEvent::Prepared { periodic_due, configuration_verified } ==> {
            &&& state.after(event).delivered == state.delivered
            &&& state.after(event).pending <==> state.pending || (periodic_due
                && configuration_verified)
        },
{
}

/// The flags of a scan's configuration exclude each other: it is either flagged
/// as mismatching or, if it was restored, as reconfigured.
pub proof fn configuration_flags_exclude_each_other(
    verified: bool,
    reconfigured: bool,
    flags: ConfigurationFlags,
)
    requires
        call_ensures(configuration_collection_flags, (verified, reconfigured), flags),
    ensures
        flags.config_mismatch <==> !verified,
        flags.sensor_reconfigured <==> verified && reconfigured,
        !(flags.config_mismatch && flags.sensor_reconfigured),
{
}

/// The reconfiguration marker is set by any programming and by any restored
/// configuration, goes onto the next verified scan whose heater was triggered,
/// and stays until a usable scan that carries it was delivered in full.
pub proof fn marker_stays_until_it_is_delivered(
    pending: bool,
    programming_attempted: bool,
    marked: bool,
    verified: bool,
    reconfigured: bool,
    triggered: bool,
    carried: (bool, bool),
    usable: bool,
    delivered: bool,
    left: bool,
)
    requires
        call_ensures(
            reconfiguration_marker_after_programming_attempt,
            (pending, programming_attempted),
            marked,
        ),
        call_ensures(
            carry_pending_reconfiguration,
            (marked, verified, reconfigured, triggered),
            carried,
        ),
        call_ensures(
            reconfiguration_marker_after_delivery,
            (carried.1, carried.0, usable, delivered),
            left,
        ),
    ensures
        marked <==> pending || programming_attempted,
        carried.1 <==> pending || programming_attempted || (verified && reconfigured),
        carried.0 <==> carried.1 && verified && triggered,
        left <==> carried.1 && !(carried.0 && usable && delivered),
{
}

/// A profile is delivered exactly if every fragment is among the completed
/// records, which begin with the configuration record if there is one; as record
/// counts end at 255, 255 completed records deliver any profile. A profile
/// without fragments is never delivered.
pub proof fn profile_is_delivered_with_its_last_fragment(
    config_included: bool,
    profile_fragment_count: u8,
    completed_records: u8,
    complete: bool,
)
    requires
        call_ensures(
            profile_delivery_complete,
            (config_included, profile_fragment_count, completed_records),
            complete,
        ),
    ensures
        profile_fragment_count == 0 ==> !complete,
        profile_fragment_count > 0 ==> (complete <==> completed_records == 255
            || completed_records - (if config_included {
            1int
        } else {
            0
        }) >= profile_fragment_count),
{
}

/// Health names a configuration only if the scan's own check verified it and any
/// later check verified the very same one; otherwise the ID on the wire is zero.
pub proof fn named_configuration_was_verified(
    pre_trigger_verified: bool,
    post_scan_checked: bool,
    post_scan_verified: bool,
    post_scan_matches_pre_trigger: bool,
    available: bool,
    config_id: u64,
    id: u64,
)
    requires
        call_ensures(
            health_configuration_identity_available,
            (
                pre_trigger_verified,
                post_scan_checked,
                post_scan_verified,
                post_scan_matches_pre_trigger,
            ),
            available,
        ),
        call_ensures(wire_config_id, (config_id, available), id),
    ensures
        available ==> pre_trigger_verified,
        available && post_scan_checked ==> post_scan_verified && post_scan_matches_pre_trigger,
        pre_trigger_verified && !post_scan_checked ==> available,
        pre_trigger_verified && post_scan_verified && post_scan_matches_pre_trigger ==> available,
        available ==> id == config_id,
        !available ==> id == 0,
{
}

/// Discarded fields are summed up to the largest 16-bit count, and a larger sum
/// is reported as an overflow.
pub proof fn discarded_fields_are_summed(
    intermediate_fields: u16,
    pre_scan_discarded_fields: u16,
    total: u16,
    overflowed: bool,
)
    requires
        call_ensures(
            total_discarded_field_count,
            (intermediate_fields, pre_scan_discarded_fields),
            total,
        ),
        call_ensures(
            discarded_field_count_overflowed,
            (intermediate_fields, pre_scan_discarded_fields),
            overflowed,
        ),
    ensures
        !overflowed ==> total == intermediate_fields + pre_scan_discarded_fields,
        overflowed ==> total == 0xffff,
        overflowed <==> intermediate_fields + pre_scan_discarded_fields >= 0x1_0000,
{
}

} // verus!
