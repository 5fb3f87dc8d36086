//! Plain values of the BME68x driver and the driver computations this library
//! relies on.
//!
//! The register transactions themselves belong to the application. What it
//! reads from the sensor arrives here as the plain values of this module, or as
//! the driver's own field batches, which stay opaque and are read through the
//! functions below.

use bme68x::{Measurements, ProfileCollector};
use vstd::prelude::*;

verus! {

/// Number of heater-profile slots in the sensor's register map.
pub const MAX_PROFILE_STEPS: usize = 10;

/// Gas-resistance calculation variant reported by the sensor.
#[derive(Clone, Copy, Debug, PartialEq, Eq, Structural)]
pub enum Variant {
    GasLow,
    GasHigh,
}

impl Variant {
    pub open spec fn spec_register_value(self) -> u8 {
        match self {
            Variant::GasLow => 0,
            Variant::GasHigh => 1,
        }
    }

    /// Value stored in the variant-ID register.
    #[must_use]
    pub fn register_value(self) -> (value: u8)
        ensures
            value == self.spec_register_value(),
    {
        match self {
            Variant::GasLow => 0,
            Variant::GasHigh => 1,
        }
    }
}

/// Sensor operating mode.
#[derive(Clone, Copy, Debug, PartialEq, Eq, Structural)]
pub enum OperationMode {
    Sleep,
    Forced,
    Parallel,
    Sequential,
}

impl OperationMode {
    pub open spec fn spec_register_value(self) -> u8 {
        match self {
            OperationMode::Sleep => 0,
            OperationMode::Forced => 1,
            OperationMode::Parallel => 2,
            OperationMode::Sequential => 3,
        }
    }

    /// Mode bits written to the sensor.
    #[must_use]
    pub fn register_value(self) -> (value: u8)
        ensures
            value == self.spec_register_value(),
    {
        match self {
            OperationMode::Sleep => 0,
            OperationMode::Forced => 1,
            OperationMode::Parallel => 2,
            OperationMode::Sequential => 3,
        }
    }
}

/// Temperature, pressure, or humidity oversampling setting.
#[derive(Clone, Copy, Debug, PartialEq, Eq, Structural)]
pub enum Oversampling {
    Skipped,
    X1,
    X2,
    X4,
    X8,
    X16,
}

impl Oversampling {
    pub open spec fn spec_register_value(self) -> u8 {
        match self {
            Oversampling::Skipped => 0,
            Oversampling::X1 => 1,
            Oversampling::X2 => 2,
            Oversampling::X4 => 3,
            Oversampling::X8 => 4,
            Oversampling::X16 => 5,
        }
    }

    /// Oversampling register field.
    #[must_use]
    pub fn register_value(self) -> (value: u8)
        ensures
            value == self.spec_register_value(),
    {
        match self {
            Oversampling::Skipped => 0,
            Oversampling::X1 => 1,
            Oversampling::X2 => 2,
            Oversampling::X4 => 3,
            Oversampling::X8 => 4,
            Oversampling::X16 => 5,
        }
    }
}

/// IIR filter setting.
#[derive(Clone, Copy, Debug, PartialEq, Eq, Structural)]
pub enum Filter {
    Off,
    Size1,
    Size3,
    Size7,
    Size15,
    Size31,
    Size63,
    Size127,
}

impl Filter {
    pub open spec fn spec_register_value(self) -> u8 {
        match self {
            Filter::Off => 0,
            Filter::Size1 => 1,
            Filter::Size3 => 2,
            Filter::Size7 => 3,
            Filter::Size15 => 4,
            Filter::Size31 => 5,
            Filter::Size63 => 6,
            Filter::Size127 => 7,
        }
    }

    /// Filter register field.
    #[must_use]
    pub fn register_value(self) -> (value: u8)
        ensures
            value == self.spec_register_value(),
    {
        match self {
            Filter::Off => 0,
            Filter::Size1 => 1,
            Filter::Size3 => 2,
            Filter::Size7 => 3,
            Filter::Size15 => 4,
            Filter::Size31 => 5,
            Filter::Size63 => 6,
            Filter::Size127 => 7,
        }
    }
}

/// Standby time used between sequential-mode measurements.
#[derive(Clone, Copy, Debug, PartialEq, Eq, Structural)]
pub enum StandbyTime {
    Millis0_59,
    Millis62_5,
    Millis125,
    Millis250,
    Millis500,
    Millis1000,
    Millis10,
    Millis20,
    NoStandby,
}

impl StandbyTime {
    pub open spec fn spec_register_value(self) -> u8 {
        match self {
            StandbyTime::Millis0_59 => 0,
            StandbyTime::Millis62_5 => 1,
            StandbyTime::Millis125 => 2,
            StandbyTime::Millis250 => 3,
            StandbyTime::Millis500 => 4,
            StandbyTime::Millis1000 => 5,
            StandbyTime::Millis10 => 6,
            StandbyTime::Millis20 => 7,
            StandbyTime::NoStandby => 8,
        }
    }

    /// Logical output-data-rate value of the standby time.
    #[must_use]
    pub fn register_value(self) -> (value: u8)
        ensures
            value == self.spec_register_value(),
    {
        match self {
            StandbyTime::Millis0_59 => 0,
            StandbyTime::Millis62_5 => 1,
            StandbyTime::Millis125 => 2,
            StandbyTime::Millis250 => 3,
            StandbyTime::Millis500 => 4,
            StandbyTime::Millis1000 => 5,
            StandbyTime::Millis10 => 6,
            StandbyTime::Millis20 => 7,
            StandbyTime::NoStandby => 8,
        }
    }
}

/// Temperature, pressure, humidity, filter, and standby configuration.
#[derive(Clone, Copy, Debug, PartialEq, Eq, Structural)]
pub struct Configuration {
    pub humidity_oversampling: Oversampling,
    pub temperature_oversampling: Oversampling,
    pub pressure_oversampling: Oversampling,
    pub filter: Filter,
    pub standby_time: StandbyTime,
}

impl Default for Configuration {
    /// The sensor's power-on configuration: every measurement skipped.
    fn default() -> (configuration: Self)
        ensures
            configuration == (Configuration {
                humidity_oversampling: Oversampling::Skipped,
                temperature_oversampling: Oversampling::Skipped,
                pressure_oversampling: Oversampling::Skipped,
                filter: Filter::Off,
                standby_time: StandbyTime::NoStandby,
            }),
    {
        Configuration {
            humidity_oversampling: Oversampling::Skipped,
            temperature_oversampling: Oversampling::Skipped,
            pressure_oversampling: Oversampling::Skipped,
            filter: Filter::Off,
            standby_time: StandbyTime::NoStandby,
        }
    }
}

/// Raw heater profile registers read back from the sensor.
#[derive(Clone, Copy, Debug, PartialEq, Eq)]
pub struct HeaterRegisters {
    /// Raw `IDAC_HEAT0..9` values.
    pub current: [u8; 10],
    /// Raw `RES_HEAT0..9` values.
    pub resistance: [u8; 10],
    /// Raw `GAS_WAIT0..9` values.
    pub gas_wait: [u8; 10],
    /// Raw shared-heater-duration register.
    pub shared_duration: u8,
}

/// Complete raw gas-heater control and profile readback.
#[derive(Clone, Copy, Debug, PartialEq, Eq)]
pub struct HeaterConfigurationReadback {
    pub registers: HeaterRegisters,
    /// Exact `CTRL_GAS_0` register value.
    pub control_gas_0: u8,
    /// Exact `CTRL_GAS_1` register value.
    pub control_gas_1: u8,
}

impl HeaterConfigurationReadback {
    pub open spec fn spec_heater_enabled(self) -> bool {
        self.control_gas_0 & 0x08 == 0
    }

    pub open spec fn spec_run_gas(self) -> u8 {
        (self.control_gas_1 >> 4) & 0x03
    }

    pub open spec fn spec_profile_length(self) -> u8 {
        self.control_gas_1 & 0x0f
    }

    /// Whether the heater-control bit enables the heater.
    #[must_use]
    pub fn heater_enabled(self) -> (enabled: bool)
        ensures
            enabled == self.spec_heater_enabled(),
    {
        self.control_gas_0 & 0x08 == 0
    }

    /// Raw two-bit `run_gas` field.
    #[must_use]
    pub fn run_gas(self) -> (value: u8)
        ensures
            value == self.spec_run_gas(),
    {
        (self.control_gas_1 >> 4) & 0x03
    }

    /// Raw four-bit `nb_conv` profile-length field.
    #[must_use]
    pub fn profile_length(self) -> (value: u8)
        ensures
            value == self.spec_profile_length(),
    {
        self.control_gas_1 & 0x0f
    }
}

/// Environmental, operating-mode, and gas-heater register readback.
#[derive(Clone, Copy, Debug, PartialEq, Eq)]
pub struct SensorConfigurationReadback {
    pub operation_mode: OperationMode,
    pub environmental: Configuration,
    pub heater: HeaterConfigurationReadback,
}

/// The calibration coefficients that determine heater-resistance registers.
#[derive(Clone, Copy, Debug, PartialEq, Eq, Structural)]
pub struct HeaterCalibration {
    pub par_gh1: i8,
    pub par_gh2: i16,
    pub par_gh3: i8,
    pub res_heat_range: u8,
    pub res_heat_val: i8,
}

impl HeaterCalibration {
    /// Largest heater-resistance range for which the register value is defined.
    /// The sensor stores the range in two bits.
    pub open spec fn wf(self) -> bool {
        self.res_heat_range <= 251
    }
}

/// Raw ADC values of one sensor data field.
#[derive(Clone, Copy, Debug, PartialEq, Eq, Structural)]
pub struct RawMeasurement {
    pub temperature_adc: u32,
    pub pressure_adc: u32,
    pub humidity_adc: u16,
    pub gas_resistance_adc: u16,
    pub gas_range: u8,
}

/// Compensated fixed-point values of one sensor data field.
#[derive(Clone, Copy, Debug, PartialEq, Eq, Structural)]
pub struct FixedMeasurement {
    /// Hundredths of a degree Celsius.
    pub temperature: i16,
    /// Pascals.
    pub pressure: u32,
    /// Thousandths of a percent.
    pub humidity: u32,
    /// Ohms.
    pub gas_resistance: u32,
}

/// One complete sensor data field.
#[derive(Clone, Copy, Debug, PartialEq, Eq, Structural)]
pub struct Measurement {
    pub status: u8,
    pub raw_field_status: u8,
    pub raw_gas_status: u8,
    pub gas_index: u8,
    pub measurement_index: u8,
    pub heater_resistance: u8,
    pub heater_current: u8,
    pub gas_wait: u8,
    pub raw: RawMeasurement,
    pub values: FixedMeasurement,
}

/// One retained heater step and its host-observed offset from scan start.
#[derive(Clone, Copy, Debug, PartialEq, Eq, Structural)]
pub struct ProfileStep {
    pub measurement: Measurement,
    pub observed_offset_us: u32,
}

/// Collector accounting that makes loss and ambiguity explicit.
#[derive(Clone, Copy, Debug, PartialEq, Eq, Structural)]
pub struct ProfileCounters {
    pub duplicates: u16,
    pub overwritten_fields: u16,
    pub out_of_order_fields: u16,
    pub ambiguous_index_jumps: u16,
    pub invalid_gas_indexes: u16,
    pub intermediate_fields: u16,
    pub profile_rollovers: u16,
    pub fields_after_rollover: u16,
}

/// Why collection of one logical profile ended.
#[derive(Clone, Copy, Debug, PartialEq, Eq, Structural)]
pub enum ProfileFinishReason {
    Complete,
    Timeout,
    SensorStopped,
    BusError,
    ProfileRollover,
}

/// Invalid profile-collector construction.
#[derive(Clone, Copy, Debug, PartialEq, Eq, Structural)]
pub enum ProfileCollectorError {
    InvalidStepCount { steps: u8 },
    UnsupportedMode,
}

/// Driver failure, with the register-level details the application can log.
#[derive(Clone, Copy, Debug, PartialEq, Eq, Structural)]
pub enum DriverError {
    /// Communication with the sensor failed.
    Bus,
    UnexpectedChipId { found: u8 },
    InvalidRegisterValue { register: u8, value: u8 },
    InvalidConfiguration,
    SelfTestFailed,
    Timeout,
}

/// The driver's batch of new data fields from one hardware read.
#[verifier::external_type_specification]
#[verifier::external_body]
pub struct ExMeasurements(Measurements);

/// The driver's fixed-capacity reassembly of one heater profile.
#[verifier::external_type_specification]
#[verifier::external_body]
pub struct ExProfileCollector(ProfileCollector);

/// What a profile collector holds, as plain values.
pub struct CollectorState {
    pub expected_steps: u8,
    pub steps: Seq<Option<ProfileStep>>,
    pub observed_mask: u16,
    pub gas_valid_mask: u16,
    pub heater_stable_mask: u16,
    pub duplicate_mask: u16,
    pub observed_field_count: u16,
    pub observed_field_count_overflowed: bool,
    pub frozen: bool,
    pub finish_reason: Option<ProfileFinishReason>,
    pub counters: ProfileCounters,
}

/// Every bit of `before` is set in `after`.
pub open spec fn keeps_bits(before: u16, after: u16) -> bool {
    before & !after == 0
}

/// Bit `i` of `mask` is set.
pub open spec fn has_bit(mask: u16, i: int) -> bool {
    mask & (1u16 << (i as u16)) != 0
}

/// The slot holds a step whose heater was stable.
pub open spec fn heater_stable_slot(slot: Option<ProfileStep>) -> bool {
    slot matches Some(step) && step.measurement.status & 0x10 != 0
}

/// The bitmaps say of slot `i` what it holds, and what it holds is a field of
/// heater step `i`.
pub open spec fn slot_agrees(
    slot: Option<ProfileStep>,
    i: int,
    observed_mask: u16,
    gas_valid_mask: u16,
    heater_stable_mask: u16,
) -> bool {
    &&& slot is Some <==> has_bit(observed_mask, i)
    &&& gas_valid_slot(slot) <==> has_bit(gas_valid_mask, i)
    &&& heater_stable_slot(slot) <==> has_bit(heater_stable_mask, i)
    &&& slot matches Some(step) ==> step.measurement.gas_index == i
}

/// The slot holds a step with valid gas data.
pub open spec fn gas_valid_slot(slot: Option<ProfileStep>) -> bool {
    slot matches Some(step) && step.measurement.status & 0x20 != 0
}

/// A slot that held a step still holds one, with valid gas data if it had them.
pub open spec fn slot_retained(before: Option<ProfileStep>, after: Option<ProfileStep>) -> bool {
    &&& before is Some ==> after is Some
    &&& gas_valid_slot(before) ==> gas_valid_slot(after)
}

/// A slot with valid gas data is unchanged, or holds one of the fields with the
/// offset they were read at.
pub open spec fn gas_slot_from(
    before: Option<ProfileStep>,
    after: Option<ProfileStep>,
    fields: Seq<Measurement>,
    observed_offset_us: u32,
) -> bool {
    gas_valid_slot(after) ==> after == before || {
        &&& after->Some_0.observed_offset_us == observed_offset_us
        &&& fields.contains(after->Some_0.measurement)
    }
}

/// A slot with valid gas data is unchanged.
pub open spec fn gas_slot_unchanged(
    before: Option<ProfileStep>,
    after: Option<ProfileStep>,
) -> bool {
    gas_valid_slot(before) ==> after == before
}

impl CollectorState {
    /// A collector for `expected_steps` steps that has seen no field.
    pub open spec fn empty(expected_steps: u8) -> Self {
        CollectorState {
            expected_steps,
            steps: Seq::new(10, |i: int| None),
            observed_mask: 0,
            gas_valid_mask: 0,
            heater_stable_mask: 0,
            duplicate_mask: 0,
            observed_field_count: 0,
            observed_field_count_overflowed: false,
            frozen: false,
            finish_reason: None,
            counters: ProfileCounters {
                duplicates: 0,
                overwritten_fields: 0,
                out_of_order_fields: 0,
                ambiguous_index_jumps: 0,
                invalid_gas_indexes: 0,
                intermediate_fields: 0,
                profile_rollovers: 0,
                fields_after_rollover: 0,
            },
        }
    }

    /// Bitmap of the configured steps.
    pub open spec fn expected_mask(self) -> u16 {
        ((1u16 << self.expected_steps) - 1) as u16
    }

    /// Every configured step has a retained terminal field.
    pub open spec fn structurally_complete(self) -> bool {
        self.observed_mask == self.expected_mask()
    }

    /// Every configured step has yielded a gas-valid conversion.
    pub open spec fn all_gas_valid(self) -> bool {
        self.gas_valid_mask == self.expected_mask()
    }

    /// Nothing that `before` had collected is lost: its steps and the bits of its
    /// observed and gas-valid bitmaps are still there.
    pub open spec fn retains(self, before: Self) -> bool {
        &&& keeps_bits(before.observed_mask, self.observed_mask)
        &&& keeps_bits(before.gas_valid_mask, self.gas_valid_mask)
        &&& forall|i: int|
            0 <= i < 10 ==> #[trigger] slot_retained(before.steps[i], self.steps[i])
    }

    /// Every step of `before` with valid gas data is unchanged.
    pub open spec fn keeps_gas_valid_steps(self, before: Self) -> bool {
        forall|i: int|
            0 <= i < 10 ==> #[trigger] gas_slot_unchanged(before.steps[i], self.steps[i])
    }

    /// Fields were fed to `before`: the step count is the same, nothing that was
    /// collected is lost, a collector that had stopped keeps its profile, and
    /// one that stops now rolled over.
    pub open spec fn continues(self, before: Self) -> bool {
        &&& self.expected_steps == before.expected_steps
        &&& self.retains(before)
        &&& before.frozen ==> self.keeps_profile_of(before)
        &&& !before.frozen ==> self.finish_reason == if self.frozen {
            Some(ProfileFinishReason::ProfileRollover)
        } else {
            before.finish_reason
        }
    }

    /// Collection on `before` was ended: it has stopped for the first reason
    /// that was given, and nothing that was collected is lost. Steps with valid
    /// gas data, the field count, the repeated steps and every counter but that
    /// of intermediate fields are unchanged, and no step with valid gas data is
    /// added.
    pub open spec fn ends(self, before: Self, reason: ProfileFinishReason) -> bool {
        &&& self.frozen
        &&& self.finish_reason == match before.finish_reason {
            Some(first) => Some(first),
            None => Some(reason),
        }
        &&& self.expected_steps == before.expected_steps
        &&& self.gas_valid_mask == before.gas_valid_mask
        &&& self.observed_field_count == before.observed_field_count
        &&& self.observed_field_count_overflowed == before.observed_field_count_overflowed
        &&& self.duplicate_mask == before.duplicate_mask
        &&& self.counters == (ProfileCounters {
            intermediate_fields: self.counters.intermediate_fields,
            ..before.counters
        })
        &&& before.counters.intermediate_fields <= self.counters.intermediate_fields
            <= before.counters.intermediate_fields + 1
        &&& self.retains(before)
        &&& self.keeps_gas_valid_steps(before)
        &&& before.keeps_gas_valid_steps(self)
    }

    /// The retained profile of `self` is that of `before`: its steps, their
    /// bitmaps and the reason it ended.
    pub open spec fn keeps_profile_of(self, before: Self) -> bool {
        &&& self.expected_steps == before.expected_steps
        &&& self.steps == before.steps
        &&& self.observed_mask == before.observed_mask
        &&& self.gas_valid_mask == before.gas_valid_mask
        &&& self.heater_stable_mask == before.heater_stable_mask
        &&& self.duplicate_mask == before.duplicate_mask
        &&& self.frozen == before.frozen
        &&& self.finish_reason == before.finish_reason
    }
}

/// What is collected survives any number of further fields: what each state
/// retains of the one before it, the last retains of the first.
pub proof fn collected_steps_survive(states: Seq<CollectorState>)
    requires
        states.len() > 0,
        forall|i: int|
            0 <= i < states.len() - 1 ==> #[trigger] retained_at(states, i),
    ensures
        states.last().retains(states[0]),
    decreases states.len(),
{
    if states.len() == 1 {
        lemma_bits_kept(states[0].observed_mask, states[0].observed_mask, states[0].observed_mask);
        lemma_bits_kept(
            states[0].gas_valid_mask,
            states[0].gas_valid_mask,
            states[0].gas_valid_mask,
        );
    } else {
        let former = states.drop_last();
        assert forall|i: int| 0 <= i < former.len() - 1 implies #[trigger] retained_at(
            former,
            i,
        ) by {
            assert(retained_at(states, i));
        }
        collected_steps_survive(former);
        assert(retained_at(states, states.len() - 2));
        lemma_retention_chains(states[0], former.last(), states.last());
    }
}

/// State `i + 1` of a sequence retains what state `i` had collected.
pub open spec fn retained_at(states: Seq<CollectorState>, i: int) -> bool {
    states[i + 1].retains(states[i])
}

proof fn lemma_bits_kept(first: u16, second: u16, third: u16)
    ensures
        keeps_bits(first, first),
        keeps_bits(first, second) && keeps_bits(second, third) ==> keeps_bits(first, third),
{
    assert(first & !first == 0) by (bit_vector);
    assert(first & !second == 0 && second & !third == 0 ==> first & !third == 0) by (bit_vector);
}

pub(crate) proof fn lemma_retention_chains(
    first: CollectorState,
    second: CollectorState,
    third: CollectorState,
)
    ensures
        first.retains(first),
        first.keeps_gas_valid_steps(first),
        second.retains(first) && third.retains(second) ==> third.retains(first),
{
    lemma_bits_kept(first.observed_mask, second.observed_mask, third.observed_mask);
    lemma_bits_kept(first.gas_valid_mask, second.gas_valid_mask, third.gas_valid_mask);
    if second.retains(first) && third.retains(second) {
        assert forall|i: int| 0 <= i < 10 implies #[trigger] slot_retained(
            first.steps[i],
            third.steps[i],
        ) by {
            assert(slot_retained(first.steps[i], second.steps[i]));
            assert(slot_retained(second.steps[i], third.steps[i]));
        }
    }
}

/// Number of bits set in `mask`.
pub open spec fn ones(mask: nat) -> nat
    decreases mask,
{
    if mask == 0 {
        0
    } else {
        mask % 2 + ones(mask / 2)
    }
}

/// The new fields that a batch holds, oldest first.
pub uninterp spec fn measurement_fields(fields: Measurements) -> Seq<Measurement>;

/// What a collector holds.
pub uninterp spec fn collector_state(collector: ProfileCollector) -> CollectorState;

/// The collector that `ProfileCollector::new` makes for a profile mode, given by
/// its register value, and a number of steps.
pub uninterp spec fn fresh_collector(mode_register: u8, expected_steps: u8) -> ProfileCollector;

/// The collector that `ingest_batch` leaves behind.
pub uninterp spec fn after_ingest_batch(
    collector: ProfileCollector,
    fields: Seq<Measurement>,
    observed_offset_us: u32,
) -> ProfileCollector;

/// The collector that `finish` leaves behind.
pub uninterp spec fn after_finish(
    collector: ProfileCollector,
    reason: ProfileFinishReason,
) -> ProfileCollector;

/// The `RES_HEAT` register value that `calculate_heater_resistance` returns for
/// a target of at most 400 degrees Celsius.
pub uninterp spec fn heater_resistance_register(
    target_celsius: u16,
    ambient_celsius: i8,
    calibration: HeaterCalibration,
) -> u8;

/// `Measurements::len`: the number of new fields in the batch.
pub assume_specification[ Measurements::len ](fields: &Measurements) -> (len: usize)
    ensures
        len == measurement_fields(*fields).len(),
;

/// `Measurements::as_slice`: one field of the batch, its driver types replaced
/// by the plain ones of this module, field for field.
#[verifier::external_body]
pub(crate) fn measurement_field(fields: &Measurements, index: usize) -> (field: Measurement)
    requires
        index < measurement_fields(*fields).len(),
    ensures
        field == measurement_fields(*fields)[index as int],
{
    let m = &fields.as_slice()[index];
    let (r, v) = (m.raw, m.values);
    let raw = RawMeasurement {
        temperature_adc: r.temperature_adc, pressure_adc: r.pressure_adc,
        humidity_adc: r.humidity_adc, gas_resistance_adc: r.gas_resistance_adc,
        gas_range: r.gas_range };
    let values = FixedMeasurement { temperature: v.temperature, pressure: v.pressure,
        humidity: v.humidity, gas_resistance: v.gas_resistance };
    Measurement { status: m.status.bits(), raw_field_status: m.raw_field_status,
        raw_gas_status: m.raw_gas_status, gas_index: m.gas_index,
        measurement_index: m.measurement_index, heater_resistance: m.heater_resistance,
        heater_current: m.heater_current, gas_wait: m.gas_wait, raw, values }
}

/// `ProfileCollector::new`: an empty collector for one to ten steps of a
/// sequential or parallel profile; the step count is judged before the mode.
/// The collector depends on the mode and the step count alone.
#[verifier::external_body]
pub(crate) fn new_collector(mode_register: u8, expected_steps: u8) -> (result: Result<
    ProfileCollector,
    ProfileCollectorError,
>)
    requires
        mode_register <= 3,
    ensures
        match result {
            Ok(collector) => {
                &&& 1 <= expected_steps <= 10
                &&& mode_register >= 2
                &&& collector == fresh_collector(mode_register, expected_steps)
                &&& collector_state(collector) == CollectorState::empty(expected_steps)
            },
            Err(ProfileCollectorError::InvalidStepCount { steps }) => {
                &&& steps == expected_steps
                &&& expected_steps == 0 || expected_steps > 10
            },
            Err(ProfileCollectorError::UnsupportedMode) => {
                &&& 1 <= expected_steps <= 10
                &&& mode_register < 2
            },
        },
{
    let mode = bme68x::OperationMode::from_register(mode_register).unwrap_or_default();
    ProfileCollector::new(mode, expected_steps).map_err(|error| match error {
        bme68x::ProfileCollectorError::InvalidStepCount { steps } => {
            ProfileCollectorError::InvalidStepCount { steps }
        },
        bme68x::ProfileCollectorError::UnsupportedMode { .. } => {
            ProfileCollectorError::UnsupportedMode
        },
    })
}

/// `ProfileCollector::ingest_batch`: feeds every field of the batch, oldest
/// first, with one read offset. The resulting collector depends on the
/// collector before, the fields and the offset alone. An empty batch changes
/// nothing; the configured step count never changes; a step once retained is
/// only ever replaced, and one with valid gas data only by another such; a
/// collector that stopped accepting fields keeps its profile and stays stopped;
/// a collector that stops here stops because of a profile rollover; and a step
/// with valid gas data that was not there before is one of the fields, with the
/// given offset. A step without valid gas data may be a pending field of an
/// earlier batch, with the offset of that batch.
pub assume_specification[ ProfileCollector::ingest_batch ](
    collector: &mut ProfileCollector,
    fields: &Measurements,
    observed_offset_us: u32,
)
    ensures
        *final(collector) == after_ingest_batch(
            *old(collector),
            measurement_fields(*fields),
            observed_offset_us,
        ),
        measurement_fields(*fields).len() == 0 ==> *final(collector) == *old(collector),
        collector_state(*final(collector)).continues(collector_state(*old(collector))),
        forall|i: int|
            0 <= i < 10 ==> #[trigger] gas_slot_from(
                collector_state(*old(collector)).steps[i],
                collector_state(*final(collector)).steps[i],
                measurement_fields(*fields),
                observed_offset_us,
            ),
;

/// `ProfileCollector::finish`: commits a pending conversion and stops
/// collection. The resulting collector depends on the collector before and the
/// reason alone. The first reason given is kept. A pending conversion never has
/// valid gas data, never replaces one that has and never empties a slot, so the
/// gas-valid steps stay as they are. It can count as one more intermediate
/// field; nothing else is counted.
#[verifier::external_body]
pub(crate) fn finish_collector(collector: &mut ProfileCollector, reason: ProfileFinishReason)
    ensures
        *final(collector) == after_finish(*old(collector), reason),
        collector_state(*final(collector)).ends(collector_state(*old(collector)), reason),
{
    collector.finish(match reason {
        ProfileFinishReason::Complete => bme68x::ProfileFinishReason::Complete,
        ProfileFinishReason::Timeout => bme68x::ProfileFinishReason::Timeout,
        ProfileFinishReason::SensorStopped => bme68x::ProfileFinishReason::SensorStopped,
        ProfileFinishReason::BusError => bme68x::ProfileFinishReason::BusError,
        ProfileFinishReason::ProfileRollover => bme68x::ProfileFinishReason::ProfileRollover,
    })
}

/// `ProfileCollector::finish_reason`: why collection ended, if it has.
#[verifier::external_body]
pub(crate) fn collector_finish_reason(collector: &ProfileCollector) -> (reason: Option<
    ProfileFinishReason,
>)
    ensures
        reason == collector_state(*collector).finish_reason,
{
    collector.finish_reason().map(|reason| match reason {
        bme68x::ProfileFinishReason::Complete => ProfileFinishReason::Complete,
        bme68x::ProfileFinishReason::Timeout => ProfileFinishReason::Timeout,
        bme68x::ProfileFinishReason::SensorStopped => ProfileFinishReason::SensorStopped,
        bme68x::ProfileFinishReason::BusError => ProfileFinishReason::BusError,
        bme68x::ProfileFinishReason::ProfileRollover => ProfileFinishReason::ProfileRollover,
    })
}

/// `ProfileCollector::counters`: the loss and ambiguity accounting.
#[verifier::external_body]
pub(crate) fn collector_counters(collector: &ProfileCollector) -> (counters: ProfileCounters)
    ensures
        counters == collector_state(*collector).counters,
{
    let counters = collector.counters();
    ProfileCounters {
        duplicates: counters.duplicates,
        overwritten_fields: counters.overwritten_fields,
        out_of_order_fields: counters.out_of_order_fields,
        ambiguous_index_jumps: counters.ambiguous_index_jumps,
        invalid_gas_indexes: counters.invalid_gas_indexes,
        intermediate_fields: counters.intermediate_fields,
        profile_rollovers: counters.profile_rollovers,
        fields_after_rollover: counters.fields_after_rollover,
    }
}

/// `ProfileCollector::step`: the retained field of one of the ten slots, its
/// driver types replaced by the plain ones of this module, field for field. A
/// field is retained in the slot of its own gas index, and retaining it sets the
/// slot's bit in the observed bitmap and, by its status, sets or clears the bits
/// in the gas-valid and heater-stable bitmaps; nothing else touches those bits.
#[verifier::external_body]
pub(crate) fn collector_step(collector: &ProfileCollector, gas_index: u8) -> (step: Option<
    ProfileStep,
>)
    requires
        gas_index < 10,
    ensures
        step == collector_state(*collector).steps[gas_index as int],
        slot_agrees(
            step,
            gas_index as int,
            collector_state(*collector).observed_mask,
            collector_state(*collector).gas_valid_mask,
            collector_state(*collector).heater_stable_mask,
        ),
{
    let step = collector.step(gas_index)?;
    let (m, r, v) = (step.measurement, step.measurement.raw, step.measurement.values);
    let raw = RawMeasurement {
        temperature_adc: r.temperature_adc, pressure_adc: r.pressure_adc,
        humidity_adc: r.humidity_adc, gas_resistance_adc: r.gas_resistance_adc,
        gas_range: r.gas_range };
    let values = FixedMeasurement { temperature: v.temperature, pressure: v.pressure,
        humidity: v.humidity, gas_resistance: v.gas_resistance };
    Some(ProfileStep { observed_offset_us: step.observed_offset_us, measurement: Measurement {
        status: m.status.bits(), raw_field_status: m.raw_field_status,
        raw_gas_status: m.raw_gas_status, gas_index: m.gas_index,
        measurement_index: m.measurement_index, heater_resistance: m.heater_resistance,
        heater_current: m.heater_current, gas_wait: m.gas_wait, raw, values } })
}

/// `ProfileCollector::observed_steps`: how many bits of the observed bitmap are
/// set. The bitmap covers at most ten steps.
pub assume_specification[ ProfileCollector::observed_steps ](collector: &ProfileCollector) -> (count:
    u32)
    ensures
        count == ones(collector_state(*collector).observed_mask as nat),
        count <= 10,
;

/// `ProfileCollector::observed_mask`: the steps with a retained field. Only
/// configured steps have a bit.
pub assume_specification[ ProfileCollector::observed_mask ](collector: &ProfileCollector) -> (mask:
    u16)
    ensures
        mask == collector_state(*collector).observed_mask,
        keeps_bits(mask, collector_state(*collector).expected_mask()),
;

/// `ProfileCollector::gas_valid_mask`: the retained steps with valid gas data.
/// Only configured steps have a bit.
pub assume_specification[ ProfileCollector::gas_valid_mask ](collector: &ProfileCollector) -> (mask:
    u16)
    ensures
        mask == collector_state(*collector).gas_valid_mask,
        keeps_bits(mask, collector_state(*collector).expected_mask()),
;

/// `ProfileCollector::heater_stable_mask`: the retained steps whose heater was stable.
/// Only configured steps have a bit.
pub assume_specification[ ProfileCollector::heater_stable_mask ](
    collector: &ProfileCollector,
) -> (mask: u16)
    ensures
        mask == collector_state(*collector).heater_stable_mask,
        keeps_bits(mask, collector_state(*collector).expected_mask()),
;

/// `ProfileCollector::duplicate_mask`: the steps for which a field came twice.
/// Only configured steps have a bit.
pub assume_specification[ ProfileCollector::duplicate_mask ](collector: &ProfileCollector) -> (mask:
    u16)
    ensures
        mask == collector_state(*collector).duplicate_mask,
        keeps_bits(mask, collector_state(*collector).expected_mask()),
;

/// `ProfileCollector::observed_field_count`: the saturating count of new fields.
pub assume_specification[ ProfileCollector::observed_field_count ](
    collector: &ProfileCollector,
) -> (count: u16)
    ensures
        count == collector_state(*collector).observed_field_count,
;

/// `ProfileCollector::observed_field_count_overflowed`: whether that count saturated.
pub assume_specification[ ProfileCollector::observed_field_count_overflowed ](
    collector: &ProfileCollector,
) -> (overflowed: bool)
    ensures
        overflowed == collector_state(*collector).observed_field_count_overflowed,
;

/// `ProfileCollector::missing_mask`: the configured steps without a retained field.
pub assume_specification[ ProfileCollector::missing_mask ](collector: &ProfileCollector) -> (mask:
    u16)
    ensures
        mask == collector_state(*collector).expected_mask() & !collector_state(
            *collector,
        ).observed_mask,
;

/// `ProfileCollector::gas_invalid_mask`: the retained steps without valid gas data.
pub assume_specification[ ProfileCollector::gas_invalid_mask ](
    collector: &ProfileCollector,
) -> (mask: u16)
    ensures
        mask == collector_state(*collector).observed_mask & !collector_state(
            *collector,
        ).gas_valid_mask,
;

/// `ProfileCollector::is_structurally_complete`: whether every configured step
/// has a retained field.
pub assume_specification[ ProfileCollector::is_structurally_complete ](
    collector: &ProfileCollector,
) -> (complete: bool)
    ensures
        complete == collector_state(*collector).structurally_complete(),
;

/// `ProfileCollector::all_steps_gas_valid`: whether every configured step has
/// yielded a gas-valid conversion.
pub assume_specification[ ProfileCollector::all_steps_gas_valid ](
    collector: &ProfileCollector,
) -> (valid: bool)
    ensures
        valid == collector_state(*collector).all_gas_valid(),
;

/// `ProfileCollector::is_frozen`: whether the collector stopped accepting fields.
pub assume_specification[ ProfileCollector::is_frozen ](collector: &ProfileCollector) -> (frozen:
    bool)
    ensures
        frozen == collector_state(*collector).frozen,
;

/// What a finished collector says of its profile.
#[derive(Clone, Copy, Debug, PartialEq, Eq)]
pub struct ProfileReport {
    pub observed_steps: u32,
    pub observed_mask: u16,
    pub missing_mask: u16,
    pub gas_valid_mask: u16,
    pub gas_invalid_mask: u16,
    pub heater_stable_mask: u16,
    pub duplicate_mask: u16,
    pub observed_field_count: u16,
    pub observed_field_count_overflowed: bool,
    pub structurally_complete: bool,
    pub all_steps_gas_valid: bool,
    pub finish_reason: Option<ProfileFinishReason>,
    pub counters: ProfileCounters,
    pub steps: [Option<ProfileStep>; 10],
}

impl ProfileReport {
    /// The report says of a collector's state what the collector says.
    pub open spec fn describes(self, state: CollectorState) -> bool {
        &&& self.observed_steps == ones(state.observed_mask as nat)
        &&& self.observed_steps <= 10
        &&& self.observed_mask == state.observed_mask
        &&& self.missing_mask == state.expected_mask() & !state.observed_mask
        &&& self.gas_valid_mask == state.gas_valid_mask
        &&& self.gas_invalid_mask == state.observed_mask & !state.gas_valid_mask
        &&& self.heater_stable_mask == state.heater_stable_mask
        &&& self.duplicate_mask == state.duplicate_mask
        &&& self.observed_field_count == state.observed_field_count
        &&& self.observed_field_count_overflowed == state.observed_field_count_overflowed
        &&& self.structurally_complete == state.structurally_complete()
        &&& self.all_steps_gas_valid == state.all_gas_valid()
        &&& self.finish_reason == state.finish_reason
        &&& self.counters == state.counters
        &&& forall|i: int| 0 <= i < 10 ==> self.steps@[i] == #[trigger] state.steps[i]
        &&& self.agrees_with_its_steps(state.expected_mask())
    }

    /// The bitmaps say of each of the ten slots what it holds, and only the
    /// configured steps, whose bitmap is `expected_mask`, have a bit.
    pub open spec fn agrees_with_its_steps(self, expected_mask: u16) -> bool {
        &&& forall|i: int|
            0 <= i < 10 ==> slot_agrees(
                #[trigger] self.steps@[i],
                i,
                self.observed_mask,
                self.gas_valid_mask,
                self.heater_stable_mask,
            )
        &&& keeps_bits(self.observed_mask, expected_mask)
        &&& keeps_bits(self.gas_valid_mask, expected_mask)
        &&& keeps_bits(self.heater_stable_mask, expected_mask)
        &&& keeps_bits(self.duplicate_mask, expected_mask)
    }

    /// Every observed step reported heater stability.
    pub open spec fn heater_stable(self) -> bool {
        self.observed_mask & !self.heater_stable_mask == 0
    }

    /// Fields were lost or arrived in an order that leaves the scan ambiguous.
    pub open spec fn discontinuous(self) -> bool {
        ||| self.counters.out_of_order_fields != 0
        ||| self.counters.ambiguous_index_jumps != 0
        ||| self.counters.profile_rollovers != 0
        ||| self.counters.fields_after_rollover != 0
    }
}

/// Read everything that a collector says of its profile.
#[must_use]
pub fn profile_report(collector: &ProfileCollector) -> (report: ProfileReport)
    ensures
        report.describes(collector_state(*collector)),
{
    let mut steps: [Option<ProfileStep>; 10] = [None; 10];
    let mut index: u8 = 0;
    while index < 10
        invariant
            index <= 10,
            forall|i: int|
                0 <= i < index ==> steps@[i] == #[trigger] collector_state(*collector).steps[i],
            forall|i: int|
                0 <= i < index ==> slot_agrees(
                    #[trigger] steps@[i],
                    i,
                    collector_state(*collector).observed_mask,
                    collector_state(*collector).gas_valid_mask,
                    collector_state(*collector).heater_stable_mask,
                ),
        decreases 10 - index,
    {
        steps[index as usize] = collector_step(collector, index);
        index += 1;
    }
    ProfileReport {
        observed_steps: collector.observed_steps(),
        observed_mask: collector.observed_mask(),
        missing_mask: collector.missing_mask(),
        gas_valid_mask: collector.gas_valid_mask(),
        gas_invalid_mask: collector.gas_invalid_mask(),
        heater_stable_mask: collector.heater_stable_mask(),
        duplicate_mask: collector.duplicate_mask(),
        observed_field_count: collector.observed_field_count(),
        observed_field_count_overflowed: collector.observed_field_count_overflowed(),
        structurally_complete: collector.is_structurally_complete(),
        all_steps_gas_valid: collector.all_steps_gas_valid(),
        finish_reason: collector_finish_reason(collector),
        counters: collector_counters(collector),
        steps,
    }
}

/// How many of the first `count` slots hold a step.
pub open spec fn held_steps(steps: Seq<Option<ProfileStep>>, count: nat) -> nat
    decreases count,
{
    if count == 0 {
        0
    } else {
        held_steps(steps, (count - 1) as nat) + if steps[count - 1] is Some {
            1nat
        } else {
            0
        }
    }
}

/// The report of a ten-step profile counts and maps exactly the steps it holds.
/// A step is missing if and only if its slot is empty, and invalid if and only
/// if its slot holds a field without valid gas data. The profile is structurally
/// complete if and only if no slot is empty, gas-valid if and only if every slot
/// is, and heater-stable if and only if every field it holds is. No bitmap has a
/// bit beyond the ten steps.
pub proof fn report_maps_the_steps_it_holds(report: ProfileReport, state: CollectorState)
    requires
        report.describes(state),
        state.expected_steps == 10,
    ensures
        forall|i: int|
            0 <= i < 10 ==> {
                &&& has_bit(report.missing_mask, i) <==> #[trigger] report.steps@[i] is None
                &&& has_bit(report.observed_mask, i) <==> report.steps@[i] is Some
                &&& has_bit(report.gas_valid_mask, i) <==> gas_valid_slot(report.steps@[i])
                &&& has_bit(report.heater_stable_mask, i) <==> heater_stable_slot(report.steps@[i])
                &&& has_bit(report.gas_invalid_mask, i) <==> report.steps@[i] is Some
                    && !gas_valid_slot(report.steps@[i])
            },
        report.missing_mask < 1024,
        report.observed_mask < 1024,
        report.gas_valid_mask < 1024,
        report.gas_invalid_mask < 1024,
        report.duplicate_mask < 1024,
        report.observed_steps == held_steps(report.steps@, 10),
        report.structurally_complete <==> forall|i: int|
            0 <= i < 10 ==> #[trigger] report.steps@[i] is Some,
        report.structurally_complete <==> report.missing_mask == 0,
        report.all_steps_gas_valid <==> forall|i: int|
            0 <= i < 10 ==> gas_valid_slot(#[trigger] report.steps@[i]),
        report.heater_stable() <==> forall|i: int|
            0 <= i < 10 && #[trigger] report.steps@[i] is Some ==> heater_stable_slot(
                report.steps@[i],
            ),
        report.gas_invalid_mask != 0 <==> exists|i: int|
            0 <= i < 10 && #[trigger] report.steps@[i] is Some && !gas_valid_slot(
                report.steps@[i],
            ),
{
    let observed = report.observed_mask;
    let valid = report.gas_valid_mask;
    let stable = report.heater_stable_mask;
    let steps = report.steps@;
    assert(1u16 << 10u8 == 1024) by (bit_vector);
    assert(state.expected_mask() == 0x3ff);
    lemma_small_masks(observed, valid);
    lemma_small_masks(valid, valid);
    lemma_small_masks(report.duplicate_mask, valid);
    assert forall|i: int| 0 <= i < 10 implies {
        &&& has_bit(report.missing_mask, i) <==> #[trigger] steps[i] is None
        &&& has_bit(report.gas_invalid_mask, i) <==> steps[i] is Some && !gas_valid_slot(steps[i])
    } by {
        let k = i as u16;
        assert((0x3ffu16 & !observed) & (1u16 << k) != 0 <==> observed & (1u16 << k) == 0)
            by (bit_vector)
            requires
                k < 10,
        ;
        assert((observed & !valid) & (1u16 << k) != 0 <==> observed & (1u16 << k) != 0 && valid & (
        1u16 << k) == 0) by (bit_vector);
        assert(slot_agrees(steps[i], i, observed, valid, stable));
    }
    assert forall|i: int| 0 <= i < 10 implies {
        &&& #[trigger] has_bit(observed, i) <==> steps[i] is Some
        &&& has_bit(valid, i) <==> gas_valid_slot(steps[i])
        &&& has_bit(stable, i) <==> heater_stable_slot(steps[i])
    } by {
        assert(slot_agrees(steps[i], i, observed, valid, stable));
    }
    assert forall|i: int| 0 <= i < 10 implies (#[trigger] has_bit(valid, i) <==> gas_valid_slot(
        steps[i],
    )) by {
        assert(slot_agrees(steps[i], i, observed, valid, stable));
    }
    lemma_full_mask(observed);
    lemma_full_mask(valid);
    lemma_mask_within(observed, stable);
    lemma_mask_within(observed, valid);
    lemma_ones_count_slots(observed, steps, 0);
    assert(observed >> 0u16 == observed) by (bit_vector);
}

/// Bit `i` of a bitmap as a power of two.
proof fn lemma_ten_masks()
    ensures
        1u16 << 0u16 == 1,
        1u16 << 1u16 == 2,
        1u16 << 2u16 == 4,
        1u16 << 3u16 == 8,
        1u16 << 4u16 == 16,
        1u16 << 5u16 == 32,
        1u16 << 6u16 == 64,
        1u16 << 7u16 == 128,
        1u16 << 8u16 == 256,
        1u16 << 9u16 == 512,
{
    assert((1u16 << 0u16) == 1 && (1u16 << 1u16) == 2 && (1u16 << 2u16) == 4 && (1u16 << 3u16) == 8
        && (1u16 << 4u16) == 16 && (1u16 << 5u16) == 32 && (1u16 << 6u16) == 64 && (1u16 << 7u16)
        == 128 && (1u16 << 8u16) == 256 && (1u16 << 9u16) == 512) by (bit_vector);
}

proof fn lemma_small_masks(observed: u16, other: u16)
    requires
        keeps_bits(observed, 0x3ff),
    ensures
        observed < 1024,
        0x3ffu16 & !observed < 1024,
        observed & !other < 1024,
        0x3ffu16 & !observed == 0 <==> observed == 0x3ff,
{
    assert(observed < 1024 && 0x3ffu16 & !observed < 1024 && observed & !other < 1024 && (0x3ffu16
        & !observed == 0 <==> observed == 0x3ff)) by (bit_vector)
        requires
            observed & !0x3ffu16 == 0,
    ;
}

/// A bitmap of ten steps is full exactly if each of its ten bits is set.
proof fn lemma_full_mask(mask: u16)
    requires
        keeps_bits(mask, 0x3ff),
    ensures
        mask == 0x3ff <==> forall|i: int| 0 <= i < 10 ==> #[trigger] has_bit(mask, i),
{
    lemma_ten_masks();
    assert(mask == 0x3ff <==> mask & 1 != 0 && mask & 2 != 0 && mask & 4 != 0 && mask & 8 != 0
        && mask & 16 != 0 && mask & 32 != 0 && mask & 64 != 0 && mask & 128 != 0 && mask & 256 != 0
        && mask & 512 != 0) by (bit_vector)
        requires
            mask & !0x3ffu16 == 0,
    ;
    if forall|i: int| 0 <= i < 10 ==> #[trigger] has_bit(mask, i) {
        assert(has_bit(mask, 0) && has_bit(mask, 1) && has_bit(mask, 2) && has_bit(mask, 3)
            && has_bit(mask, 4) && has_bit(mask, 5) && has_bit(mask, 6) && has_bit(mask, 7)
            && has_bit(mask, 8) && has_bit(mask, 9));
    }
}

/// A bitmap of ten steps has no bit beyond those of another exactly if each of
/// its ten bits is set there too.
proof fn lemma_mask_within(mask: u16, other: u16)
    requires
        keeps_bits(mask, 0x3ff),
    ensures
        mask & !other == 0 <==> forall|i: int|
            0 <= i < 10 && #[trigger] has_bit(mask, i) ==> has_bit(other, i),
{
    lemma_ten_masks();
    assert(mask & !other == 0 <==> (mask & 1 != 0 ==> other & 1 != 0) && (mask & 2 != 0 ==> other
        & 2 != 0) && (mask & 4 != 0 ==> other & 4 != 0) && (mask & 8 != 0 ==> other & 8 != 0) && (
    mask & 16 != 0 ==> other & 16 != 0) && (mask & 32 != 0 ==> other & 32 != 0) && (mask & 64 != 0
        ==> other & 64 != 0) && (mask & 128 != 0 ==> other & 128 != 0) && (mask & 256 != 0 ==> other
        & 256 != 0) && (mask & 512 != 0 ==> other & 512 != 0)) by (bit_vector)
        requires
            mask & !0x3ffu16 == 0,
    ;
    let within = forall|i: int|
        0 <= i < 10 && #[trigger] has_bit(mask, i) ==> has_bit(other, i);
    if within {
        assert(has_bit(mask, 0) ==> has_bit(other, 0));
        assert(has_bit(mask, 1) ==> has_bit(other, 1));
        assert(has_bit(mask, 2) ==> has_bit(other, 2));
        assert(has_bit(mask, 3) ==> has_bit(other, 3));
        assert(has_bit(mask, 4) ==> has_bit(other, 4));
        assert(has_bit(mask, 5) ==> has_bit(other, 5));
        assert(has_bit(mask, 6) ==> has_bit(other, 6));
        assert(has_bit(mask, 7) ==> has_bit(other, 7));
        assert(has_bit(mask, 8) ==> has_bit(other, 8));
        assert(has_bit(mask, 9) ==> has_bit(other, 9));
    }
}

/// The bits of a mask from bit `from` on are as many as the slots that agree
/// with them.
proof fn lemma_ones_count_slots(mask: u16, steps: Seq<Option<ProfileStep>>, from: u16)
    requires
        mask < 1024,
        from <= 10,
        forall|i: int| 0 <= i < 10 ==> (#[trigger] steps[i] is Some <==> has_bit(mask, i)),
    ensures
        held_steps(steps, from as nat) + ones((mask >> from) as nat) == held_steps(steps, 10),
    decreases 10 - from,
{
    if from == 10 {
        assert(mask >> 10u16 == 0) by (bit_vector)
            requires
                mask < 1024,
        ;
    } else {
        let next = (from + 1) as u16;
        assert((mask >> from) % 2 == (if mask & (1u16 << from) != 0 {
            1u16
        } else {
            0u16
        }) && (mask >> from) / 2 == mask >> next) by (bit_vector)
            requires
                from < 10,
                next == from + 1,
        ;
        lemma_ones_count_slots(mask, steps, next);
        assert(steps[from as int] is Some <==> has_bit(mask, from as int));
    }
}

/// `compensation::calculate_heater_resistance`: the register value depends on
/// the target, the ambient temperature and five coefficients, and a target over
/// 400 degrees Celsius counts as 400.
#[verifier::external_body]
pub(crate) fn heater_resistance(
    target_celsius: u16,
    ambient_celsius: i8,
    calibration: HeaterCalibration,
) -> (register: u8)
    requires
        calibration.wf(),
    ensures
        register == heater_resistance_register(
            if target_celsius > 400 {
                400
            } else {
                target_celsius
            },
            ambient_celsius,
            calibration,
        ),
{
    let mut coefficients = bme68x::CalibrationData::default();
    coefficients.par_gh1 = calibration.par_gh1;
    coefficients.par_gh2 = calibration.par_gh2;
    coefficients.par_gh3 = calibration.par_gh3;
    coefficients.res_heat_range = calibration.res_heat_range;
    coefficients.res_heat_val = calibration.res_heat_val;
    bme68x::compensation::calculate_heater_resistance(
        target_celsius,
        ambient_celsius,
        &coefficients,
    )
}

/// Shared heater wait that a register value stands for: six bits of 477 us
/// steps, scaled by a power of four.
pub open spec fn shared_wait_us(register: u8) -> int {
    (register % 64) * 477 * match register / 64 {
        0 => 1int,
        1 => 4,
        2 => 16,
        _ => 64,
    }
}

/// `compensation::decode_shared_heater_duration_us`: the shared wait in
/// microseconds.
pub assume_specification[ bme68x::compensation::decode_shared_heater_duration_us ](
    register: u8,
) -> (duration_us: u32)
    ensures
        duration_us == shared_wait_us(register),
;

/// Time that one parallel step takes: each repetition is one shared wait plus
/// one environmental measurement, bounded by the largest representable value.
pub open spec fn step_duration_us(multiplier: u8, register: u8, tphg_us: u32) -> int {
    let repetition = if shared_wait_us(register) + tphg_us > u32::MAX {
        u32::MAX as int
    } else {
        shared_wait_us(register) + tphg_us
    };
    if multiplier == 0 {
        tphg_us as int
    } else if multiplier * repetition > u32::MAX {
        u32::MAX as int
    } else {
        multiplier * repetition
    }
}

/// `compensation::parallel_step_duration_us`: the duration of one parallel step
/// in microseconds, saturating.
pub assume_specification[ bme68x::compensation::parallel_step_duration_us ](
    repetition_multiplier: u8,
    shared_duration_register: u8,
    tphg_duration_us: u32,
) -> (duration_us: u32)
    ensures
        duration_us == step_duration_us(
            repetition_multiplier,
            shared_duration_register,
            tphg_duration_us,
        ),
;

/// ADC cycles that an oversampling register field asks for.
pub open spec fn measurement_cycles(oversampling_register: u8) -> int {
    match oversampling_register {
        0 => 0int,
        1 => 1,
        2 => 2,
        3 => 4,
        4 => 8,
        _ => 16,
    }
}

/// Time that the temperature, pressure and humidity conversions take: 1963 us a
/// cycle, nine switching periods of 477 us, and outside parallel mode 1 ms of
/// wake-up time.
pub open spec fn conversion_duration_us(
    mode_register: u8,
    temperature: u8,
    pressure: u8,
    humidity: u8,
) -> int {
    (measurement_cycles(temperature) + measurement_cycles(pressure) + measurement_cycles(humidity))
        * 1_963 + 9 * 477 + if mode_register == 2 {
        0int
    } else {
        1_000
    }
}

/// `compensation::measurement_duration_us`: the conversion time for a mode and
/// three oversampling settings, all given by their register fields.
#[verifier::external_body]
pub(crate) fn measurement_duration_us(
    mode_register: u8,
    temperature: u8,
    pressure: u8,
    humidity: u8,
) -> (duration_us: u32)
    requires
        mode_register <= 3,
        temperature <= 5,
        pressure <= 5,
        humidity <= 5,
    ensures
        duration_us == conversion_duration_us(mode_register, temperature, pressure, humidity),
{
    let configuration = bme68x::Configuration {
        temperature_oversampling: bme68x::Oversampling::from_register(temperature).unwrap_or_default(),
        pressure_oversampling: bme68x::Oversampling::from_register(pressure).unwrap_or_default(),
        humidity_oversampling: bme68x::Oversampling::from_register(humidity).unwrap_or_default(),
        ..bme68x::Configuration::default()
    };
    let mode = bme68x::OperationMode::from_register(mode_register).unwrap_or_default();
    bme68x::compensation::measurement_duration_us(mode, &configuration)
}

} // verus!
