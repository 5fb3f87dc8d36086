//! Complete, bounded Bosch HP-354 parallel-profile acquisition.
//!
//! This is the neutral exploratory 10-step profile published as HP-354 in
//! Bosch's BME AI-Studio Manual (BST-BME688-AN001-00, v1.6.0). It is not a
//! fire classifier or a fire-specific profile. The firmware retains every
//! raw/compensated field and leaves interpretation to the receiver.
//!
//! The application owns the register driver and the timers. A run of this
//! module says which command comes next, and the application answers with what
//! the command returned.

use bme68x::{Measurements, ProfileCollector};
use vstd::prelude::*;

use crate::driver::{
    Configuration, DriverError, Filter, HeaterCalibration, OperationMode, Oversampling,
    ProfileCollectorError, ProfileFinishReason, ProfileReport, SensorConfigurationReadback,
    StandbyTime, Variant, finish_collector, heater_resistance, measurement_duration_us,
    new_collector, profile_report,
};
use crate::profile_definition::{
    PROFILE_REPETITION_MULTIPLIERS, PROFILE_STEP_COUNT, PROFILE_TEMPERATURES_CELSIUS,
    PROGRAMMED_SHARED_DURATION_RAW, REQUESTED_SHARED_DURATION_MS, TPHG_DURATION_US,
};
use crate::profile_status::{
    EmergencySleepRetryProgress, carry_pending_reconfiguration,
    reconfiguration_marker_after_programming_attempt, registers_equal,
};

verus! {

pub const POLL_INTERVAL_MS: u64 = 100;

pub const COLLECTION_TIMEOUT_US: u64 = 15_000_000;

pub const MAX_POLL_COUNT: u16 = 150;

pub const EMERGENCY_SLEEP_RETRY_DELAY_MS: u64 = 10;

/// Driver operation that failed. This is retained in health accounting.
#[derive(Clone, Copy, Debug, PartialEq, Eq, Structural)]
pub enum Operation {
    Initialization,
    Configuration,
    HeaterConfiguration,
    ConfigurationReadback,
    ParallelModeTrigger,
    DataRead,
    ReturnToSleep,
    PreTriggerFieldDrain,
}

impl Operation {
    pub open spec fn spec_code(self) -> u16 {
        match self {
            Operation::Initialization => 1,
            Operation::Configuration => 2,
            Operation::HeaterConfiguration => 3,
            Operation::ConfigurationReadback => 4,
            Operation::ParallelModeTrigger => 5,
            Operation::DataRead => 6,
            Operation::ReturnToSleep => 7,
            Operation::PreTriggerFieldDrain => 8,
        }
    }

    #[must_use]
    pub fn code(self) -> (code: u16)
        ensures
            code == self.spec_code(),
    {
        match self {
            Operation::Initialization => 1,
            Operation::Configuration => 2,
            Operation::HeaterConfiguration => 3,
            Operation::ConfigurationReadback => 4,
            Operation::ParallelModeTrigger => 5,
            Operation::DataRead => 6,
            Operation::ReturnToSleep => 7,
            Operation::PreTriggerFieldDrain => 8,
        }
    }
}

/// A BME688 failure paired with the exact operation that failed.
#[derive(Clone, Copy, Debug, PartialEq, Eq, Structural)]
pub struct SensorError {
    pub operation: Operation,
    pub source: DriverError,
}

impl SensorError {
    pub open spec fn is_bus_error(self) -> bool {
        self.source == DriverError::Bus
    }

    /// One for a bus failure, zero for any other.
    pub open spec fn bus_errors(self) -> int {
        if self.is_bus_error() {
            1
        } else {
            0
        }
    }

    #[must_use]
    pub fn new(operation: Operation, source: DriverError) -> (error: Self)
        ensures
            error == (SensorError { operation, source }),
    {
        SensorError { operation, source }
    }

    #[must_use]
    pub fn operation(&self) -> (operation: Operation)
        ensures
            operation == self.operation,
    {
        self.operation
    }

    #[must_use]
    pub fn source(&self) -> (source: &DriverError)
        ensures
            *source == self.source,
    {
        &self.source
    }

    #[must_use]
    pub fn is_i2c_error(&self) -> (i2c: bool)
        ensures
            i2c == self.is_bus_error(),
    {
        match self.source {
            DriverError::Bus => true,
            _ => false,
        }
    }
}

/// Coherent readback and identity used by repeated DeviceConfig records.
#[derive(Clone, Copy, Debug, PartialEq, Eq)]
pub struct SensorMetadata {
    pub chip_id: u8,
    pub variant: Variant,
    pub address: u8,
    pub calibration_fingerprint: u64,
    pub readback: SensorConfigurationReadback,
    pub exact_configuration_verified: bool,
}

impl SensorMetadata {
    /// Two snapshots describe the same sensor with the same configuration.
    pub open spec fn same_identity(self, other: Self) -> bool {
        &&& self.chip_id == other.chip_id
        &&& self.variant == other.variant
        &&& self.address == other.address
        &&& self.calibration_fingerprint == other.calibration_fingerprint
        &&& self.exact_configuration_verified == other.exact_configuration_verified
        &&& crate::profile_status::same_readback_identity(self.readback, other.readback)
    }

    /// Compare the stable sensor/configuration identity while ignoring only
    /// unprogrammed volatile IDAC readback bytes.
    #[must_use]
    pub fn same_configuration_identity(&self, other: &Self) -> (same: bool)
        ensures
            same == self.same_identity(*other),
    {
        self.chip_id == other.chip_id && self.variant == other.variant && self.address
            == other.address && self.calibration_fingerprint == other.calibration_fingerprint
            && self.exact_configuration_verified == other.exact_configuration_verified
            && crate::profile_status::sensor_readback_identity_eq(&self.readback, &other.readback)
    }
}

/// The environmental settings that the profile asks for.
pub open spec fn profile_configuration() -> Configuration {
    Configuration {
        humidity_oversampling: Oversampling::X1,
        temperature_oversampling: Oversampling::X2,
        pressure_oversampling: Oversampling::X16,
        filter: Filter::Off,
        standby_time: StandbyTime::NoStandby,
    }
}

/// The environmental settings that the profile asks for.
#[must_use]
pub fn measurement_configuration() -> (configuration: Configuration)
    ensures
        configuration == profile_configuration(),
{
    Configuration {
        humidity_oversampling: Oversampling::X1,
        temperature_oversampling: Oversampling::X2,
        pressure_oversampling: Oversampling::X16,
        filter: Filter::Off,
        standby_time: StandbyTime::NoStandby,
    }
}

/// A heater profile for parallel mode, as the driver programs it.
#[derive(Clone, Copy, Debug, PartialEq, Eq)]
pub struct HeaterProfile {
    pub enabled: bool,
    pub temperatures_celsius: [u16; 10],
    pub repetition_multipliers: [u8; 10],
    pub shared_duration_ms: u16,
}

/// The heater profile that is programmed: HP-354, enabled.
pub open spec fn programmed_profile() -> HeaterProfile {
    HeaterProfile {
        enabled: true,
        temperatures_celsius: PROFILE_TEMPERATURES_CELSIUS,
        repetition_multipliers: PROFILE_REPETITION_MULTIPLIERS,
        shared_duration_ms: REQUESTED_SHARED_DURATION_MS,
    }
}

/// The heater profile that is programmed: HP-354, enabled.
#[must_use]
pub fn heater_profile() -> (profile: HeaterProfile)
    ensures
        profile == programmed_profile(),
        profile.enabled,
        profile.temperatures_celsius@ == PROFILE_TEMPERATURES_CELSIUS@,
        profile.repetition_multipliers@ == PROFILE_REPETITION_MULTIPLIERS@,
        profile.shared_duration_ms == REQUESTED_SHARED_DURATION_MS,
{
    HeaterProfile {
        enabled: true,
        temperatures_celsius: PROFILE_TEMPERATURES_CELSIUS,
        repetition_multipliers: PROFILE_REPETITION_MULTIPLIERS,
        shared_duration_ms: REQUESTED_SHARED_DURATION_MS,
    }
}

/// The `run_gas` bits that start a gas conversion on this variant.
pub open spec fn expected_run_gas(variant: Variant) -> u8 {
    match variant {
        Variant::GasLow => 1,
        Variant::GasHigh => 2,
    }
}

/// Every register that the firmware programs holds the profile, with the given
/// heater resistances, and the sensor is asleep. The IDAC bytes, which are never
/// programmed, play no part.
pub open spec fn holds_profile(
    readback: SensorConfigurationReadback,
    variant: Variant,
    resistances: Seq<u8>,
) -> bool {
    &&& readback.operation_mode == OperationMode::Sleep
    &&& readback.environmental == profile_configuration()
    &&& readback.heater.spec_heater_enabled()
    &&& readback.heater.spec_run_gas() == expected_run_gas(variant)
    &&& readback.heater.spec_profile_length() == PROFILE_STEP_COUNT
    &&& readback.heater.registers.shared_duration == PROGRAMMED_SHARED_DURATION_RAW
    &&& readback.heater.registers.resistance@ == resistances
    &&& readback.heater.registers.gas_wait@ == PROFILE_REPETITION_MULTIPLIERS@
}

/// The heater resistances of the profile on a sensor with these coefficients.
pub open spec fn profile_resistances(
    calibration: HeaterCalibration,
    ambient_celsius: i8,
) -> Seq<u8> {
    Seq::new(
        10,
        |i: int|
            crate::driver::heater_resistance_register(
                PROFILE_TEMPERATURES_CELSIUS@[i],
                ambient_celsius,
                calibration,
            ),
    )
}

/// The heater resistances of the profile on a sensor with these coefficients.
#[must_use]
pub fn expected_resistances(
    calibration: &HeaterCalibration,
    ambient_temperature_celsius: i8,
) -> (resistances: [u8; 10])
    requires
        calibration.wf(),
    ensures
        resistances@ == profile_resistances(*calibration, ambient_temperature_celsius),
{
    let mut resistances = [0u8; 10];
    let mut index: usize = 0;
    while index < 10
        invariant
            index <= 10,
            calibration.wf(),
            forall|i: int|
                0 <= i < index ==> resistances@[i] == profile_resistances(
                    *calibration,
                    ambient_temperature_celsius,
                )[i],
        decreases 10 - index,
    {
        resistances[index] = heater_resistance(
            PROFILE_TEMPERATURES_CELSIUS[index],
            ambient_temperature_celsius,
            *calibration,
        );
        index += 1;
    }
    assert(resistances@ =~= profile_resistances(*calibration, ambient_temperature_celsius));
    resistances
}

/// Whether the read-back registers hold exactly the profile with the given
/// heater resistances.
#[must_use]
pub fn verify_registers(
    readback: &SensorConfigurationReadback,
    variant: Variant,
    resistances: &[u8; 10],
) -> (exact: bool)
    ensures
        exact == holds_profile(*readback, variant, resistances@),
{
    let run_gas: u8 = match variant {
        Variant::GasLow => 1,
        Variant::GasHigh => 2,
    };
    let configuration = measurement_configuration();
    let tphg_us: u32 = measurement_duration_us(
        OperationMode::Parallel.register_value(),
        configuration.temperature_oversampling.register_value(),
        configuration.pressure_oversampling.register_value(),
        configuration.humidity_oversampling.register_value(),
    );
    readback.operation_mode == OperationMode::Sleep && readback.environmental == configuration
        && tphg_us == TPHG_DURATION_US && readback.heater.heater_enabled()
        && readback.heater.run_gas() == run_gas && readback.heater.profile_length()
        == PROFILE_STEP_COUNT && readback.heater.registers.shared_duration
        == PROGRAMMED_SHARED_DURATION_RAW && registers_equal(
        &readback.heater.registers.resistance,
        resistances,
    ) && registers_equal(&readback.heater.registers.gas_wait, &PROFILE_REPETITION_MULTIPLIERS)
}

/// Whether the read-back registers hold exactly the programmed profile.
#[must_use]
pub fn verify_readback(
    readback: &SensorConfigurationReadback,
    variant: Variant,
    calibration: &HeaterCalibration,
    ambient_temperature_celsius: i8,
) -> (exact: bool)
    requires
        calibration.wf(),
    ensures
        exact == holds_profile(
            *readback,
            variant,
            profile_resistances(*calibration, ambient_temperature_celsius),
        ),
{
    verify_registers(
        readback,
        variant,
        &expected_resistances(calibration, ambient_temperature_celsius),
    )
}

/// What the driver knows of the sensor once it is initialized, and where the
/// probe found it.
#[derive(Clone, Copy, Debug, PartialEq, Eq, Structural)]
pub struct SensorIdentity {
    pub address: u8,
    /// Chip ID that the address probe read.
    pub preflight_chip_id: u8,
    /// Chip ID that the driver read at initialization.
    pub chip_id: u8,
    pub variant: Variant,
    pub calibration_fingerprint: u64,
    pub calibration: HeaterCalibration,
    pub ambient_temperature_celsius: i8,
}

impl SensorIdentity {
    /// The metadata that a readback of this sensor amounts to.
    pub open spec fn observed(self, readback: SensorConfigurationReadback) -> SensorMetadata {
        SensorMetadata {
            chip_id: self.chip_id,
            variant: self.variant,
            address: self.address,
            calibration_fingerprint: self.calibration_fingerprint,
            readback,
            exact_configuration_verified: self.preflight_chip_id == self.chip_id
                && holds_profile(
                readback,
                self.variant,
                profile_resistances(self.calibration, self.ambient_temperature_celsius),
            ),
        }
    }

    /// Judge a readback of this sensor.
    #[must_use]
    pub fn read_metadata(&self, readback: SensorConfigurationReadback) -> (metadata: SensorMetadata)
        requires
            self.calibration.wf(),
        ensures
            metadata == self.observed(readback),
    {
        let exact = verify_readback(
            &readback,
            self.variant,
            &self.calibration,
            self.ambient_temperature_celsius,
        );
        SensorMetadata {
            chip_id: self.chip_id,
            variant: self.variant,
            address: self.address,
            calibration_fingerprint: self.calibration_fingerprint,
            readback,
            exact_configuration_verified: self.preflight_chip_id == self.chip_id && exact,
        }
    }
}

/// Command that the application carries out on the register driver. Those that
/// wait do so before they touch the sensor.
#[derive(Clone, Copy, Debug, PartialEq, Eq, Structural)]
pub enum SensorCommand {
    /// Read the whole configuration back.
    ReadConfiguration,
    /// Write [`measurement_configuration`].
    ProgramEnvironment,
    /// Write [`heater_profile`].
    ProgramHeater,
    /// Read all three field slots.
    ReadFields,
    /// Anchor the scan clock, then request Parallel mode.
    Trigger,
    /// Wait [`POLL_INTERVAL_MS`], then read all three field slots.
    WaitAndReadFields,
    /// Request Sleep mode.
    Sleep,
    /// Wait [`EMERGENCY_SLEEP_RETRY_DELAY_MS`], then request Sleep mode.
    WaitAndSleep,
}

/// What a command returned.
pub enum SensorReply {
    Done(Result<(), DriverError>),
    ReadBack(Result<SensorConfigurationReadback, DriverError>),
    Fields(Result<Measurements, DriverError>),
}

/// The command gives this kind of reply.
pub open spec fn answers(command: SensorCommand, reply: SensorReply) -> bool {
    match command {
        SensorCommand::ReadConfiguration => reply is ReadBack,
        SensorCommand::ReadFields => reply is Fields,
        SensorCommand::WaitAndReadFields => reply is Fields,
        _ => reply is Done,
    }
}

/// Monotonic times around one command.
#[derive(Clone, Copy, Debug, PartialEq, Eq, Structural)]
pub struct Clock {
    /// Uptime when the command was issued.
    pub uptime_ms: u64,
    /// Time from the scan anchor to the command.
    pub issued_us: u64,
    /// Time from the scan anchor to the reply.
    pub elapsed_us: u64,
}

/// Outcome of one readback and, where it was needed, of one reprogramming.
#[derive(Clone, Copy, Debug, PartialEq, Eq, Structural)]
pub struct ConfigurationCheck {
    pub verified: bool,
    pub reconfigured: bool,
    pub programming_attempted: bool,
    pub i2c_errors: u32,
    pub error: Option<SensorError>,
    pub last_error_code: u16,
}

impl ConfigurationCheck {
    pub open spec fn spec_assumed(verified: bool) -> Self {
        ConfigurationCheck {
            verified,
            reconfigured: false,
            programming_attempted: false,
            i2c_errors: 0,
            error: None,
            last_error_code: 0,
        }
    }

    /// The check after one more failed operation.
    pub open spec fn with_error(self, error: SensorError) -> Self {
        ConfigurationCheck {
            i2c_errors: crate::profile_status::saturating_u32(self.i2c_errors, error.bus_errors()),
            error: Some(error),
            last_error_code: error.operation.spec_code(),
            ..self
        }
    }

    #[must_use]
    pub fn assumed(verified: bool) -> (check: Self)
        ensures
            check == Self::spec_assumed(verified),
    {
        ConfigurationCheck {
            verified,
            reconfigured: false,
            programming_attempted: false,
            i2c_errors: 0,
            error: None,
            last_error_code: 0,
        }
    }

    fn record_error(&mut self, error: SensorError)
        ensures
            *final(self) == old(self).with_error(error),
    {
        self.i2c_errors = self.i2c_errors.saturating_add(if error.is_i2c_error() { 1 } else { 0 });
        self.last_error_code = error.operation().code();
        self.error = Some(error);
    }
}

/// Where a configuration check stands: which command it awaits.
#[derive(Clone, Copy, Debug, PartialEq, Eq, Structural)]
pub enum CheckStage {
    ReadBack,
    ProgramEnvironment,
    ProgramHeater,
    ReadProgrammed,
    Sleep,
}

impl CheckStage {
    pub open spec fn spec_command(self) -> SensorCommand {
        match self {
            CheckStage::ReadBack => SensorCommand::ReadConfiguration,
            CheckStage::ProgramEnvironment => SensorCommand::ProgramEnvironment,
            CheckStage::ProgramHeater => SensorCommand::ProgramHeater,
            CheckStage::ReadProgrammed => SensorCommand::ReadConfiguration,
            CheckStage::Sleep => SensorCommand::Sleep,
        }
    }

    fn command(self) -> (command: SensorCommand)
        ensures
            command == self.spec_command(),
    {
        match self {
            CheckStage::ReadBack => SensorCommand::ReadConfiguration,
            CheckStage::ProgramEnvironment => SensorCommand::ProgramEnvironment,
            CheckStage::ProgramHeater => SensorCommand::ProgramHeater,
            CheckStage::ReadProgrammed => SensorCommand::ReadConfiguration,
            CheckStage::Sleep => SensorCommand::Sleep,
        }
    }
}

/// What the library retains of the sensor between scans. The register driver
/// itself belongs to the application.
#[derive(Clone, Copy, Debug, PartialEq, Eq)]
pub struct Sensor {
    pub identity: SensorIdentity,
    pub metadata: Option<SensorMetadata>,
    pub reconfiguration_marker_pending: bool,
}

/// `metadata` with its claim of an exact configuration withdrawn.
pub open spec fn distrusted(metadata: Option<SensorMetadata>) -> Option<SensorMetadata> {
    match metadata {
        Some(metadata) => Some(
            SensorMetadata { exact_configuration_verified: false, ..metadata },
        ),
        None => None,
    }
}

/// What holds of a check that awaits the given stage.
pub open spec fn check_in_progress(
    check: ConfigurationCheck,
    stage: CheckStage,
    sensor: Sensor,
) -> bool {
    if stage is ReadBack {
        check == ConfigurationCheck::spec_assumed(false)
    } else {
        &&& check.programming_attempted
        &&& check.verified == check.reconfigured
        &&& check.verified ==> stage is Sleep && sensor.spec_configuration_verified()
    }
}

/// What holds of a check that is over: it verified the configuration that the
/// sensor's metadata now describes, by the first readback alone or by
/// reprogramming; where it did not, reprogramming was tried.
pub open spec fn check_is_over(check: ConfigurationCheck, sensor: Sensor) -> bool {
    &&& check.verified ==> sensor.spec_configuration_verified()
    &&& check.verified ==> check.reconfigured == check.programming_attempted
    &&& !check.verified ==> !check.reconfigured && check.programming_attempted
}

/// What one reply does to a configuration check: the metadata and the check
/// after it, and the stage that follows, or none when the check is over.
///
/// A readback that holds the exact profile ends the check. Anything else leads
/// to one reprogramming with its own readback, and that to a Sleep request
/// whatever came of it. The check verifies the configuration only if the second
/// readback holds the exact profile and the Sleep request succeeds.
pub open spec fn check_after(
    identity: SensorIdentity,
    metadata: Option<SensorMetadata>,
    check: ConfigurationCheck,
    stage: CheckStage,
    reply: SensorReply,
) -> (Option<SensorMetadata>, ConfigurationCheck, Option<CheckStage>) {
    match stage {
        CheckStage::ReadBack => match reply->ReadBack_0 {
            Ok(readback) => {
                let observed = identity.observed(readback);
                if observed.exact_configuration_verified {
                    (Some(observed), ConfigurationCheck::spec_assumed(true), None)
                } else {
                    (
                        Some(observed),
                        ConfigurationCheck {
                            last_error_code: Operation::ConfigurationReadback.spec_code(),
                            programming_attempted: true,
                            ..check
                        },
                        Some(CheckStage::ProgramEnvironment),
                    )
                }
            },
            Err(source) => (
                distrusted(metadata),
                ConfigurationCheck {
                    programming_attempted: true,
                    ..check.with_error(
                        SensorError { operation: Operation::ConfigurationReadback, source },
                    )
                },
                Some(CheckStage::ProgramEnvironment),
            ),
        },
        CheckStage::ProgramEnvironment => match reply->Done_0 {
            Ok(_) => (metadata, check, Some(CheckStage::ProgramHeater)),
            Err(source) => (
                distrusted(metadata),
                check.with_error(SensorError { operation: Operation::Configuration, source }),
                Some(CheckStage::Sleep),
            ),
        },
        CheckStage::ProgramHeater => match reply->Done_0 {
            Ok(_) => (metadata, check, Some(CheckStage::ReadProgrammed)),
            Err(source) => (
                distrusted(metadata),
                check.with_error(SensorError { operation: Operation::HeaterConfiguration, source }),
                Some(CheckStage::Sleep),
            ),
        },
        CheckStage::ReadProgrammed => match reply->ReadBack_0 {
            Ok(readback) => {
                let observed = identity.observed(readback);
                let exact = observed.exact_configuration_verified;
                (
                    Some(observed),
                    ConfigurationCheck {
                        verified: exact,
                        reconfigured: exact,
                        last_error_code: if exact {
                            check.last_error_code
                        } else {
                            Operation::ConfigurationReadback.spec_code()
                        },
                        ..check
                    },
                    Some(CheckStage::Sleep),
                )
            },
            Err(source) => (
                distrusted(metadata),
                check.with_error(
                    SensorError { operation: Operation::ConfigurationReadback, source },
                ),
                Some(CheckStage::Sleep),
            ),
        },
        CheckStage::Sleep => match reply->Done_0 {
            Ok(_) => (metadata, check, None),
            Err(source) => (
                distrusted(metadata),
                ConfigurationCheck {
                    verified: false,
                    reconfigured: false,
                    ..check.with_error(SensorError { operation: Operation::ReturnToSleep, source })
                },
                None,
            ),
        },
    }
}

impl Sensor {
    pub open spec fn wf(self) -> bool {
        self.identity.calibration.wf()
    }

    pub open spec fn spec_configuration_verified(self) -> bool {
        self.metadata matches Some(metadata) && metadata.exact_configuration_verified
    }

    /// A sensor that the driver has just initialized.
    #[must_use]
    pub fn new(identity: SensorIdentity) -> (sensor: Self)
        ensures
            sensor == (Sensor { identity, metadata: None, reconfiguration_marker_pending: false }),
    {
        Sensor { identity, metadata: None, reconfiguration_marker_pending: false }
    }

    #[must_use]
    pub fn metadata(&self) -> (metadata: Option<&SensorMetadata>)
        ensures
            match metadata {
                Some(found) => self.metadata == Some(*found),
                None => self.metadata is None,
            },
    {
        match &self.metadata {
            Some(metadata) => Some(metadata),
            None => None,
        }
    }

    #[must_use]
    pub fn configuration_verified(&self) -> (verified: bool)
        ensures
            verified == self.spec_configuration_verified(),
    {
        match &self.metadata {
            Some(metadata) => metadata.exact_configuration_verified,
            None => false,
        }
    }

    /// Clear the receiver-history reset marker only after the application has
    /// confirmed a locally usable marked profile was delivered in full.
    pub fn acknowledge_reconfiguration_marker(&mut self)
        ensures
            *final(self) == (Sensor { reconfiguration_marker_pending: false, ..*old(self) }),
    {
        self.reconfiguration_marker_pending = false;
    }

    fn distrust_metadata(&mut self)
        ensures
            *final(self) == (Sensor { metadata: distrusted(old(self).metadata), ..*old(self) }),
    {
        if let Some(metadata) = self.metadata {
            let mut metadata = metadata;
            metadata.exact_configuration_verified = false;
            self.metadata = Some(metadata);
        }
    }

    /// Take one reply into a configuration check, and say which stage follows,
    /// or that the check is over.
    ///
    /// A check re-reads the current registers and, on mismatch or read failure,
    /// makes one bounded reconfiguration/readback attempt.
    pub fn validate_or_reconfigure(
        &mut self,
        check: &mut ConfigurationCheck,
        stage: CheckStage,
        reply: SensorReply,
    ) -> (next: Option<CheckStage>)
        requires
            old(self).wf(),
            answers(stage.spec_command(), reply),
        ensures
            (final(self).metadata, *final(check), next) == check_after(
                old(self).identity,
                old(self).metadata,
                *old(check),
                stage,
                reply,
            ),
            *final(self) == (Sensor { metadata: final(self).metadata, ..*old(self) }),
    {
        match (stage, reply) {
            (CheckStage::ReadBack, SensorReply::ReadBack(Ok(readback))) => {
                let observed = self.identity.read_metadata(readback);
                self.metadata = Some(observed);
                if observed.exact_configuration_verified {
                    *check = ConfigurationCheck::assumed(true);
                    None
                } else {
                    check.last_error_code = Operation::ConfigurationReadback.code();
                    check.programming_attempted = true;
                    Some(CheckStage::ProgramEnvironment)
                }
            },
            (CheckStage::ReadBack, SensorReply::ReadBack(Err(source))) => {
                check.record_error(SensorError::new(Operation::ConfigurationReadback, source));
                check.programming_attempted = true;
                self.distrust_metadata();
                Some(CheckStage::ProgramEnvironment)
            },
            (CheckStage::ProgramEnvironment, SensorReply::Done(Ok(_))) => {
                Some(CheckStage::ProgramHeater)
            },
            (CheckStage::ProgramEnvironment, SensorReply::Done(Err(source))) => {
                check.record_error(SensorError::new(Operation::Configuration, source));
                self.distrust_metadata();
                Some(CheckStage::Sleep)
            },
            (CheckStage::ProgramHeater, SensorReply::Done(Ok(_))) => {
                Some(CheckStage::ReadProgrammed)
            },
            (CheckStage::ProgramHeater, SensorReply::Done(Err(source))) => {
                check.record_error(SensorError::new(Operation::HeaterConfiguration, source));
                self.distrust_metadata();
                Some(CheckStage::Sleep)
            },
            (CheckStage::ReadProgrammed, SensorReply::ReadBack(Ok(readback))) => {
                let observed = self.identity.read_metadata(readback);
                check.verified = observed.exact_configuration_verified;
                check.reconfigured = observed.exact_configuration_verified;
                self.metadata = Some(observed);
                if !check.verified {
                    check.last_error_code = Operation::ConfigurationReadback.code();
                }
                Some(CheckStage::Sleep)
            },
            (CheckStage::ReadProgrammed, SensorReply::ReadBack(Err(source))) => {
                check.record_error(SensorError::new(Operation::ConfigurationReadback, source));
                self.distrust_metadata();
                Some(CheckStage::Sleep)
            },
            (CheckStage::Sleep, SensorReply::Done(Ok(_))) => None,
            (CheckStage::Sleep, SensorReply::Done(Err(source))) => {
                check.record_error(SensorError::new(Operation::ReturnToSleep, source));
                check.verified = false;
                check.reconfigured = false;
                self.distrust_metadata();
                None
            },
            _ => None,
        }
    }
}

/// Where the initial configuration of a sensor stands.
#[derive(Clone, Copy, Debug, PartialEq, Eq)]
pub enum SetupStage {
    ProgramEnvironment,
    ProgramHeater,
    ReadProgrammed,
    /// The Sleep request that follows whatever the programming came to.
    Sleep { programmed: Result<SensorMetadata, SensorError> },
    /// The setup is over.
    Finished { result: Result<(), SensorError> },
}

impl SetupStage {
    /// The command that the stage awaits, unless the setup is over.
    pub open spec fn spec_command(self) -> Option<SensorCommand> {
        match self {
            SetupStage::ProgramEnvironment => Some(SensorCommand::ProgramEnvironment),
            SetupStage::ProgramHeater => Some(SensorCommand::ProgramHeater),
            SetupStage::ReadProgrammed => Some(SensorCommand::ReadConfiguration),
            SetupStage::Sleep { .. } => Some(SensorCommand::Sleep),
            SetupStage::Finished { .. } => None,
        }
    }

    #[must_use]
    pub fn command(&self) -> (command: Option<SensorCommand>)
        ensures
            command == self.spec_command(),
    {
        match self {
            SetupStage::ProgramEnvironment => Some(SensorCommand::ProgramEnvironment),
            SetupStage::ProgramHeater => Some(SensorCommand::ProgramHeater),
            SetupStage::ReadProgrammed => Some(SensorCommand::ReadConfiguration),
            SetupStage::Sleep { .. } => Some(SensorCommand::Sleep),
            SetupStage::Finished { .. } => None,
        }
    }
}

/// The stage that follows one reply. The first failed operation ends the
/// programming, a Sleep request follows in every case, and a programming
/// failure takes precedence over a Sleep failure.
pub open spec fn setup_after(
    identity: SensorIdentity,
    stage: SetupStage,
    reply: SensorReply,
) -> SetupStage {
    match stage {
        SetupStage::ProgramEnvironment => match reply->Done_0 {
            Ok(_) => SetupStage::ProgramHeater,
            Err(source) => SetupStage::Sleep {
                programmed: Err(SensorError { operation: Operation::Configuration, source }),
            },
        },
        SetupStage::ProgramHeater => match reply->Done_0 {
            Ok(_) => SetupStage::ReadProgrammed,
            Err(source) => SetupStage::Sleep {
                programmed: Err(SensorError { operation: Operation::HeaterConfiguration, source }),
            },
        },
        SetupStage::ReadProgrammed => match reply->ReadBack_0 {
            Ok(readback) => SetupStage::Sleep { programmed: Ok(identity.observed(readback)) },
            Err(source) => SetupStage::Sleep {
                programmed: Err(SensorError { operation: Operation::ConfigurationReadback, source }),
            },
        },
        SetupStage::Sleep { programmed } => SetupStage::Finished {
            result: match (programmed, reply->Done_0) {
                (Err(error), _) => Err(error),
                (Ok(_), Err(source)) => Err(
                    SensorError { operation: Operation::ReturnToSleep, source },
                ),
                (Ok(_), Ok(_)) => Ok(()),
            },
        },
        SetupStage::Finished { result } => SetupStage::Finished { result },
    }
}

impl Sensor {
    /// The sensor after the setup went from `stage` to `next`: only a setup that
    /// succeeds retains the metadata it read back.
    pub open spec fn set_up(self, stage: SetupStage, next: SetupStage) -> Self {
        Sensor {
            metadata: match (stage, next) {
                (
                    SetupStage::Sleep { programmed: Ok(metadata) },
                    SetupStage::Finished { result: Ok(_) },
                ) => Some(metadata),
                _ => self.metadata,
            },
            ..self
        }
    }

    /// Take one reply into the initial configuration, which programs HP-354,
    /// reads it back while asleep and retains the readback for the
    /// configuration record.
    #[must_use]
    pub fn configure(&mut self, stage: SetupStage, reply: SensorReply) -> (next: SetupStage)
        requires
            old(self).wf(),
            stage.spec_command() matches Some(command) ==> answers(command, reply),
        ensures
            next == setup_after(old(self).identity, stage, reply),
            *final(self) == old(self).set_up(stage, next),
    {
        match (stage, reply) {
            (SetupStage::ProgramEnvironment, SensorReply::Done(Ok(_))) => SetupStage::ProgramHeater,
            (SetupStage::ProgramEnvironment, SensorReply::Done(Err(source))) => SetupStage::Sleep {
                programmed: Err(SensorError::new(Operation::Configuration, source)),
            },
            (SetupStage::ProgramHeater, SensorReply::Done(Ok(_))) => SetupStage::ReadProgrammed,
            (SetupStage::ProgramHeater, SensorReply::Done(Err(source))) => SetupStage::Sleep {
                programmed: Err(SensorError::new(Operation::HeaterConfiguration, source)),
            },
            (SetupStage::ReadProgrammed, SensorReply::ReadBack(Ok(readback))) => SetupStage::Sleep {
                programmed: Ok(self.identity.read_metadata(readback)),
            },
            (SetupStage::ReadProgrammed, SensorReply::ReadBack(Err(source))) => SetupStage::Sleep {
                programmed: Err(SensorError::new(Operation::ConfigurationReadback, source)),
            },
            (SetupStage::Sleep { programmed: Err(error) }, _) => SetupStage::Finished {
                result: Err(error),
            },
            (SetupStage::Sleep { programmed: Ok(_) }, SensorReply::Done(Err(source))) => {
                SetupStage::Finished {
                    result: Err(SensorError::new(Operation::ReturnToSleep, source)),
                }
            },
            (SetupStage::Sleep { programmed: Ok(metadata) }, _) => {
                self.metadata = Some(metadata);
                SetupStage::Finished { result: Ok(()) }
            },
            (stage, _) => stage,
        }
    }
}

/// Where a scan stands: which command it awaits.
#[derive(Clone, Copy, Debug, PartialEq, Eq, Structural)]
pub enum ScanPhase {
    /// Configuration check before the heater is triggered.
    Preflight(CheckStage),
    /// Clearing fields that a former scan left behind.
    Drain,
    Trigger,
    Poll,
    /// The Sleep request that every scan makes.
    Sleep,
    /// Configuration check after a failed trigger, read or Sleep request.
    Recovery(CheckStage),
    /// Stop-only commands after Sleep could not be proved.
    EmergencySleep,
    Finished,
}

impl ScanPhase {
    pub open spec fn spec_command(self) -> Option<SensorCommand> {
        match self {
            ScanPhase::Preflight(stage) => Some(stage.spec_command()),
            ScanPhase::Drain => Some(SensorCommand::ReadFields),
            ScanPhase::Trigger => Some(SensorCommand::Trigger),
            ScanPhase::Poll => Some(SensorCommand::WaitAndReadFields),
            ScanPhase::Sleep => Some(SensorCommand::Sleep),
            ScanPhase::Recovery(stage) => Some(stage.spec_command()),
            ScanPhase::EmergencySleep => Some(SensorCommand::WaitAndSleep),
            ScanPhase::Finished => None,
        }
    }
}

/// One scan in progress.
pub struct ScanRun {
    pub phase: ScanPhase,
    pub collector: ProfileCollector,
    /// Uptime of the heater trigger, or of the attempt when none was made.
    pub started_at_ms: u64,
    pub duration_us: u64,
    pub poll_count: u16,
    pub collection_error: Option<SensorError>,
    pub sleep_error: Option<SensorError>,
    pub pre_trigger_metadata: Option<SensorMetadata>,
    pub configuration: ConfigurationCheck,
    pub recovery: Option<ConfigurationCheck>,
    pub emergency_sleep: EmergencySleepRetryProgress,
    pub pre_scan_discarded_fields: u16,
    pub parallel_triggered: bool,
}

/// Why a failed operation ends collection.
pub open spec fn failure_finish_reason(error: Option<SensorError>) -> ProfileFinishReason {
    if error matches Some(error) && error.is_bus_error() {
        ProfileFinishReason::BusError
    } else {
        ProfileFinishReason::SensorStopped
    }
}

fn error_finish_reason(error: Option<SensorError>) -> (reason: ProfileFinishReason)
    ensures
        reason == failure_finish_reason(error),
{
    match error {
        Some(error) => if error.is_i2c_error() {
            ProfileFinishReason::BusError
        } else {
            ProfileFinishReason::SensorStopped
        },
        None => ProfileFinishReason::SensorStopped,
    }
}

/// What to do after one poll.
#[derive(Clone, Copy, Debug, PartialEq, Eq, Structural)]
pub enum PollOutcome {
    /// Every step is gas-valid: the profile is complete.
    Complete,
    /// The collector stopped by itself.
    Frozen,
    /// The poll budget or the deadline is used up.
    TimedOut,
    PollAgain,
}

pub open spec fn spec_poll_outcome(
    all_steps_gas_valid: bool,
    frozen: bool,
    poll_count: u16,
    elapsed_us: u64,
) -> PollOutcome {
    if all_steps_gas_valid {
        PollOutcome::Complete
    } else if frozen {
        PollOutcome::Frozen
    } else if poll_count >= MAX_POLL_COUNT || elapsed_us >= COLLECTION_TIMEOUT_US {
        PollOutcome::TimedOut
    } else {
        PollOutcome::PollAgain
    }
}

/// Decide whether collection goes on after one poll.
#[must_use]
pub fn poll_outcome(
    all_steps_gas_valid: bool,
    frozen: bool,
    poll_count: u16,
    elapsed_us: u64,
) -> (outcome: PollOutcome)
    ensures
        outcome == spec_poll_outcome(all_steps_gas_valid, frozen, poll_count, elapsed_us),
{
    if all_steps_gas_valid {
        PollOutcome::Complete
    } else if frozen {
        PollOutcome::Frozen
    } else if poll_count >= MAX_POLL_COUNT || elapsed_us >= COLLECTION_TIMEOUT_US {
        PollOutcome::TimedOut
    } else {
        PollOutcome::PollAgain
    }
}

/// A duration as 32-bit microseconds, held at the largest value.
pub open spec fn saturated_us(elapsed_us: u64) -> u32 {
    if elapsed_us > u32::MAX {
        u32::MAX
    } else {
        elapsed_us as u32
    }
}

/// A duration as 32-bit microseconds, held at the largest value.
#[must_use]
pub fn elapsed_us_saturating(elapsed_us: u64) -> (us: u32)
    ensures
        us == saturated_us(elapsed_us),
{
    if elapsed_us > u32::MAX as u64 {
        u32::MAX
    } else {
        elapsed_us as u32
    }
}

impl ScanRun {
    /// The run with collection ended for the given reason.
    pub open spec fn finished_for(self, reason: ProfileFinishReason) -> Self {
        ScanRun {
            collector: crate::driver::after_finish(self.collector, reason),
            ..self
        }
    }

    /// The run with a failed operation recorded and collection ended for it.
    pub open spec fn failed(self, error: SensorError) -> Self {
        ScanRun { collection_error: Some(error), ..self }.finished_for(
            failure_finish_reason(Some(error)),
        )
    }

    /// The metadata that the check just made proves exact.
    pub open spec fn proven_metadata(self, sensor: Sensor) -> Option<SensorMetadata> {
        match sensor.metadata {
            Some(metadata) => if self.configuration.verified
                && metadata.exact_configuration_verified {
                Some(metadata)
            } else {
                None
            },
            None => None,
        }
    }

    /// Collection is over: the reconfiguration marker goes onto this scan if
    /// its heater ran, stays pending in any case, and Sleep is requested.
    pub open spec fn closed(self, sensor: Sensor) -> (Sensor, ScanRun) {
        let marker = crate::profile_status::carried_marker(
            sensor.reconfiguration_marker_pending,
            self.configuration.verified,
            self.configuration.reconfigured,
        );
        (
            Sensor { reconfiguration_marker_pending: marker, ..sensor },
            ScanRun {
                phase: ScanPhase::Sleep,
                configuration: ConfigurationCheck {
                    reconfigured: marker && self.configuration.verified && self.parallel_triggered,
                    ..self.configuration
                },
                ..self
            },
        )
    }

    /// The preflight is over: programming leaves the marker pending, the exact
    /// metadata is kept for this scan, and only then is the heater approached.
    pub open spec fn checked(self, sensor: Sensor) -> (Sensor, ScanRun) {
        let marked = Sensor {
            reconfiguration_marker_pending: sensor.reconfiguration_marker_pending
                || self.configuration.programming_attempted,
            ..sensor
        };
        let proven = self.proven_metadata(sensor);
        if proven is Some {
            (marked, ScanRun { phase: ScanPhase::Drain, pre_trigger_metadata: proven, ..self })
        } else {
            let configuration = if self.configuration.verified {
                ConfigurationCheck {
                    verified: false,
                    reconfigured: false,
                    last_error_code: Operation::ConfigurationReadback.spec_code(),
                    ..self.configuration
                }
            } else {
                self.configuration
            };
            ScanRun { configuration, pre_trigger_metadata: None, ..self }.finished_for(
                failure_finish_reason(configuration.error),
            ).closed(marked)
        }
    }

    /// Everything is done: what the recovery programmed leaves the marker pending.
    pub open spec fn settled(self, sensor: Sensor) -> (Sensor, ScanRun) {
        (
            Sensor {
                reconfiguration_marker_pending: sensor.reconfiguration_marker_pending || (
                self.recovery matches Some(check) && ((check.verified && check.reconfigured)
                    || check.programming_attempted)),
                ..sensor
            },
            ScanRun { phase: ScanPhase::Finished, ..self },
        )
    }

    /// The recovery is over: stop-only commands follow if Sleep failed and the
    /// recovery could not prove the sensor asleep either.
    pub open spec fn recovered(self, sensor: Sensor) -> (Sensor, ScanRun) {
        if self.sleep_error is Some && !(self.recovery matches Some(check) && check.verified)
            && self.emergency_sleep.spec_should_retry() {
            (sensor, ScanRun { phase: ScanPhase::EmergencySleep, ..self })
        } else {
            self.settled(sensor)
        }
    }

    /// The run after one poll that read `fields`.
    pub open spec fn polled(self, sensor: Sensor, fields: Measurements, clock: Clock) -> (
        Sensor,
        ScanRun,
    ) {
        let fed = ScanRun {
            collector: crate::driver::after_ingest_batch(
                self.collector,
                crate::driver::measurement_fields(fields),
                saturated_us(clock.issued_us),
            ),
            ..self
        };
        let state = crate::driver::collector_state(fed.collector);
        match spec_poll_outcome(state.all_gas_valid(), state.frozen, fed.poll_count, clock.elapsed_us)
        {
            PollOutcome::Complete => fed.finished_for(ProfileFinishReason::Complete).closed(sensor),
            PollOutcome::Frozen => fed.closed(sensor),
            PollOutcome::TimedOut => fed.finished_for(ProfileFinishReason::Timeout).closed(sensor),
            PollOutcome::PollAgain => (sensor, fed),
        }
    }

    /// What one reply does to a scan.
    #[verifier::opaque]
    pub open spec fn after(self, sensor: Sensor, reply: SensorReply, clock: Clock) -> (
        Sensor,
        ScanRun,
    ) {
        match self.phase {
            ScanPhase::Preflight(stage) => {
                let (metadata, configuration, next) = check_after(
                    sensor.identity,
                    sensor.metadata,
                    self.configuration,
                    stage,
                    reply,
                );
                let sensor = Sensor { metadata, ..sensor };
                let run = ScanRun { configuration, ..self };
                match next {
                    Some(stage) => (sensor, ScanRun { phase: ScanPhase::Preflight(stage), ..run }),
                    None => run.checked(sensor),
                }
            },
            ScanPhase::Drain => match reply->Fields_0 {
                Ok(fields) => {
                    let drained = crate::driver::measurement_fields(fields).len();
                    (
                        sensor,
                        ScanRun {
                            phase: ScanPhase::Trigger,
                            pre_scan_discarded_fields: if drained > u16::MAX {
                                u16::MAX
                            } else {
                                drained as u16
                            },
                            ..self
                        },
                    )
                },
                Err(source) => self.failed(
                    SensorError { operation: Operation::PreTriggerFieldDrain, source },
                ).closed(sensor),
            },
            ScanPhase::Trigger => {
                let anchored = ScanRun { started_at_ms: clock.uptime_ms, ..self };
                match reply->Done_0 {
                    Ok(_) => (
                        sensor,
                        ScanRun { phase: ScanPhase::Poll, parallel_triggered: true, ..anchored },
                    ),
                    Err(source) => anchored.failed(
                        SensorError { operation: Operation::ParallelModeTrigger, source },
                    ).closed(sensor),
                }
            },
            ScanPhase::Poll => {
                let counted = ScanRun {
                    poll_count: if self.poll_count == u16::MAX {
                        u16::MAX
                    } else {
                        (self.poll_count + 1) as u16
                    },
                    ..self
                };
                match reply->Fields_0 {
                    Ok(fields) => counted.polled(sensor, fields, clock),
                    Err(source) => counted.failed(
                        SensorError { operation: Operation::DataRead, source },
                    ).closed(sensor),
                }
            },
            ScanPhase::Sleep => {
                let timed = ScanRun {
                    duration_us: clock.elapsed_us,
                    sleep_error: match reply->Done_0 {
                        Ok(_) => None,
                        Err(source) => Some(
                            SensorError { operation: Operation::ReturnToSleep, source },
                        ),
                    },
                    ..self
                };
                if timed.collection_error is Some || timed.sleep_error is Some {
                    (
                        sensor,
                        ScanRun {
                            phase: ScanPhase::Recovery(CheckStage::ReadBack),
                            recovery: Some(ConfigurationCheck::spec_assumed(false)),
                            ..timed
                        },
                    )
                } else {
                    timed.settled(sensor)
                }
            },
            ScanPhase::Recovery(stage) => {
                let (metadata, check, next) = check_after(
                    sensor.identity,
                    sensor.metadata,
                    self.recovery->Some_0,
                    stage,
                    reply,
                );
                let sensor = Sensor { metadata, ..sensor };
                let run = ScanRun { recovery: Some(check), ..self };
                match next {
                    Some(stage) => (sensor, ScanRun { phase: ScanPhase::Recovery(stage), ..run }),
                    None => run.recovered(sensor),
                }
            },
            ScanPhase::EmergencySleep => {
                let attempted = match reply->Done_0 {
                    Ok(_) => ScanRun {
                        emergency_sleep: self.emergency_sleep.after_attempt(true, false),
                        ..self
                    },
                    Err(source) => {
                        let error = SensorError { operation: Operation::ReturnToSleep, source };
                        ScanRun {
                            emergency_sleep: self.emergency_sleep.after_attempt(
                                false,
                                error.is_bus_error(),
                            ),
                            recovery: Some(self.recovery->Some_0.with_error(error)),
                            ..self
                        }
                    },
                };
                if attempted.emergency_sleep.spec_should_retry() {
                    (sensor, attempted)
                } else {
                    attempted.settled(sensor)
                }
            },
            ScanPhase::Finished => (sensor, self),
        }
    }

    /// Collection is not over yet.
    pub open spec fn collecting(self) -> bool {
        ||| self.phase is Preflight
        ||| self.phase is Drain
        ||| self.phase is Trigger
        ||| self.phase is Poll
    }

    /// What holds of every scan in progress.
    pub open spec fn wf(self) -> bool {
        let state = crate::driver::collector_state(self.collector);
        &&& state.expected_steps == PROFILE_STEP_COUNT
        &&& self.poll_count <= MAX_POLL_COUNT
        &&& self.phase is Poll ==> self.poll_count < MAX_POLL_COUNT
        &&& self.poll_count != 0 ==> self.parallel_triggered
        &&& self.pre_scan_discarded_fields != 0 ==> self.configuration.verified && !(
        self.phase is Preflight || self.phase is Drain)
        &&& self.emergency_sleep.attempts <= crate::profile_status::EMERGENCY_SLEEP_RETRY_LIMIT
        &&& self.emergency_sleep.attempts == 0 ==> !self.emergency_sleep.confirmed
        &&& self.collecting() ==> {
            &&& !state.frozen
            &&& state.finish_reason is None
            &&& self.collection_error is None
            &&& self.sleep_error is None
            &&& self.recovery is None
            &&& self.emergency_sleep.attempts == 0
            &&& self.phase is Poll <==> self.parallel_triggered
        }
        &&& self.phase is Preflight ==> self.pre_trigger_metadata is None
        &&& self.phase is Drain || self.phase is Trigger || self.phase is Poll
            ==> self.configuration.verified
        &&& !(self.phase is Preflight) ==> {
            &&& self.configuration.verified <==> self.pre_trigger_metadata is Some
            &&& self.pre_trigger_metadata matches Some(metadata)
                ==> metadata.exact_configuration_verified
            &&& self.configuration.reconfigured ==> self.configuration.verified
        }
        &&& !self.collecting() ==> {
            &&& state.frozen
            &&& state.finish_reason is Some
            &&& state.finish_reason == Some(ProfileFinishReason::Complete) ==> state.all_gas_valid()
            &&& !self.configuration.verified ==> state.finish_reason == Some(
                failure_finish_reason(self.configuration.error),
            )
            &&& self.collection_error matches Some(error) ==> self.configuration.verified
                && state.finish_reason == Some(failure_finish_reason(Some(error)))
            &&& self.configuration.reconfigured ==> self.parallel_triggered
            &&& self.parallel_triggered ==> self.configuration.verified
            &&& self.parallel_triggered ==> self.poll_count != 0
        }
        &&& self.phase is Sleep ==> {
            &&& self.sleep_error is None
            &&& self.recovery is None
            &&& self.emergency_sleep.attempts == 0
        }
        &&& self.phase is Recovery ==> {
            &&& self.recovery is Some
            &&& self.emergency_sleep.attempts == 0
        }
        &&& self.phase is Recovery || self.phase is EmergencySleep || self.phase is Finished ==> (
        self.recovery is Some <==> self.collection_error is Some || self.sleep_error is Some)
        &&& self.phase is EmergencySleep ==> {
            &&& self.sleep_error is Some
            &&& self.recovery matches Some(check) && !check.verified
            &&& self.emergency_sleep.spec_should_retry()
        }
        &&& self.phase is Finished ==> {
            &&& self.sleep_error is Some && !(self.recovery matches Some(check) && check.verified)
                ==> !self.emergency_sleep.spec_should_retry()
            &&& self.emergency_sleep.attempts != 0 ==> self.sleep_error is Some && (
            self.recovery matches Some(check) && !check.verified)
        }
    }

    /// Nothing that the run had collected before is lost. Only fields that a poll
    /// read can replace a step with valid gas data: a failure never does.
    pub open spec fn collected_since(self, before: Self, reply: SensorReply) -> bool {
        let state = crate::driver::collector_state(self.collector);
        let state_before = crate::driver::collector_state(before.collector);
        &&& state.retains(state_before)
        &&& !(before.phase is Poll && reply matches SensorReply::Fields(Ok(_)))
            ==> state.keeps_gas_valid_steps(state_before)
    }

    /// A step with valid gas data that was not there before is one of the fields
    /// that the reply brought, and bears the time of the command that read it,
    /// in microseconds from the scan anchor and held at the largest 32-bit value.
    pub open spec fn stamped_since(self, before: Self, reply: SensorReply, clock: Clock) -> bool {
        let state = crate::driver::collector_state(self.collector);
        let state_before = crate::driver::collector_state(before.collector);
        forall|i: int|
            #![trigger state.steps[i]]
            0 <= i < 10 && crate::driver::gas_valid_slot(state.steps[i]) && state.steps[i]
                != state_before.steps[i] ==> {
                &&& before.phase is Poll
                &&& reply matches SensorReply::Fields(Ok(fields))
                    && crate::driver::measurement_fields(fields).contains(
                    state.steps[i]->Some_0.measurement,
                )
                &&& state.steps[i]->Some_0.observed_offset_us as int == if clock.issued_us
                    > 0xffff_ffff {
                    0xffff_ffff
                } else {
                    clock.issued_us as int
                }
            }
    }

    /// What holds between a scan in progress and the sensor it runs on.
    pub open spec fn fits(self, sensor: Sensor) -> bool {
        &&& sensor.wf()
        &&& self.phase matches ScanPhase::Preflight(stage) ==> check_in_progress(
            self.configuration,
            stage,
            sensor,
        )
        &&& self.phase matches ScanPhase::Recovery(stage) ==> check_in_progress(
            self.recovery->Some_0,
            stage,
            sensor,
        )
        &&& !(self.phase is Preflight) && self.configuration.programming_attempted
            ==> sensor.reconfiguration_marker_pending
        &&& !self.collecting() && self.configuration.reconfigured
            ==> sensor.reconfiguration_marker_pending
        &&& self.phase is EmergencySleep || self.phase is Finished ==> (
        self.recovery matches Some(check) ==> check_is_over(check, sensor))
        &&& self.phase is Finished ==> (self.recovery matches Some(check)
            ==> check.programming_attempted ==> sensor.reconfiguration_marker_pending)
    }

    /// The command that the scan awaits, or none when it is over.
    #[must_use]
    pub fn command(&self) -> (command: Option<SensorCommand>)
        ensures
            command == self.phase.spec_command(),
    {
        match self.phase {
            ScanPhase::Preflight(stage) => Some(stage.command()),
            ScanPhase::Drain => Some(SensorCommand::ReadFields),
            ScanPhase::Trigger => Some(SensorCommand::Trigger),
            ScanPhase::Poll => Some(SensorCommand::WaitAndReadFields),
            ScanPhase::Sleep => Some(SensorCommand::Sleep),
            ScanPhase::Recovery(stage) => Some(stage.command()),
            ScanPhase::EmergencySleep => Some(SensorCommand::WaitAndSleep),
            ScanPhase::Finished => None,
        }
    }

    fn finish(&mut self, reason: ProfileFinishReason)
        ensures
            *final(self) == old(self).finished_for(reason),
            crate::driver::collector_state(final(self).collector).ends(
                crate::driver::collector_state(old(self).collector),
                reason,
            ),
    {
        finish_collector(&mut self.collector, reason);
    }

    fn fail(&mut self, error: SensorError)
        ensures
            *final(self) == old(self).failed(error),
            crate::driver::collector_state(final(self).collector).ends(
                crate::driver::collector_state(old(self).collector),
                failure_finish_reason(Some(error)),
            ),
    {
        self.collection_error = Some(error);
        self.finish(error_finish_reason(Some(error)));
    }

    fn close(&mut self, sensor: &mut Sensor)
        ensures
            (*final(sensor), *final(self)) == old(self).closed(*old(sensor)),
    {
        let (mark_current_scan, marker_pending) = carry_pending_reconfiguration(
            sensor.reconfiguration_marker_pending,
            self.configuration.verified,
            self.configuration.reconfigured,
            self.parallel_triggered,
        );
        self.configuration.reconfigured = mark_current_scan;
        sensor.reconfiguration_marker_pending = marker_pending;
        self.phase = ScanPhase::Sleep;
    }

    fn settle(&mut self, sensor: &mut Sensor)
        ensures
            (*final(sensor), *final(self)) == old(self).settled(*old(sensor)),
    {
        if let Some(check) = self.recovery {
            if check.verified && check.reconfigured {
                sensor.reconfiguration_marker_pending = true;
            }
            sensor.reconfiguration_marker_pending =
            reconfiguration_marker_after_programming_attempt(
                sensor.reconfiguration_marker_pending,
                check.programming_attempted,
            );
        }
        self.phase = ScanPhase::Finished;
    }

    fn enter_acquisition(&mut self, sensor: &mut Sensor)
        requires
            old(self).wf(),
            old(self).phase is Preflight,
        ensures
            (*final(sensor), *final(self)) == old(self).checked(*old(sensor)),
            final(self).wf(),
            crate::driver::collector_state(final(self).collector).retains(
                crate::driver::collector_state(old(self).collector),
            ),
            crate::driver::collector_state(final(self).collector).keeps_gas_valid_steps(
                crate::driver::collector_state(old(self).collector),
            ),
            crate::driver::collector_state(old(self).collector).keeps_gas_valid_steps(
                crate::driver::collector_state(final(self).collector),
            ),
    {
        proof {
            let state = crate::driver::collector_state(self.collector);
            crate::driver::lemma_retention_chains(state, state, state);
        }
        sensor.reconfiguration_marker_pending =
        reconfiguration_marker_after_programming_attempt(
            sensor.reconfiguration_marker_pending,
            self.configuration.programming_attempted,
        );
        self.pre_trigger_metadata = match sensor.metadata {
            Some(metadata) => if self.configuration.verified
                && metadata.exact_configuration_verified {
                Some(metadata)
            } else {
                None
            },
            None => None,
        };
        if self.pre_trigger_metadata.is_some() {
            self.phase = ScanPhase::Drain;
        } else {
            if self.configuration.verified {
                self.configuration.verified = false;
                self.configuration.reconfigured = false;
                self.configuration.last_error_code = Operation::ConfigurationReadback.code();
            }
            self.finish(error_finish_reason(self.configuration.error));
            self.close(sensor);
        }
    }

    /// Take one reply into the scan. Runtime sensor failures do not erase
    /// measurements collected before the failure, and every way out of a scan
    /// goes through an explicit Sleep request.
    pub fn advance(&mut self, sensor: &mut Sensor, reply: SensorReply, clock: Clock)
        requires
            old(self).wf(),
            old(self).fits(*old(sensor)),
            old(self).phase.spec_command() matches Some(command) ==> answers(command, reply),
        ensures
            (*final(sensor), *final(self)) == old(self).after(*old(sensor), reply, clock),
            final(self).wf(),
            final(self).fits(*final(sensor)),
            final(self).collected_since(*old(self), reply),
            final(self).stamped_since(*old(self), reply, clock),
    {
        let ghost state_before = crate::driver::collector_state(self.collector);
        let ghost mut fed = state_before;
        proof {
            reveal(ScanRun::after);
            crate::driver::lemma_retention_chains(state_before, state_before, state_before);
        }
        match self.phase {
            ScanPhase::Preflight(stage) => {
                let mut check = self.configuration;
                let next = sensor.validate_or_reconfigure(&mut check, stage, reply);
                self.configuration = check;
                match next {
                    Some(stage) => {
                        self.phase = ScanPhase::Preflight(stage);
                    },
                    None => {
                        self.enter_acquisition(sensor);
                    },
                }
            },
            ScanPhase::Drain => match reply {
                SensorReply::Fields(Ok(fields)) => {
                    let drained: usize = fields.len();
                    self.pre_scan_discarded_fields = if drained > u16::MAX as usize {
                        u16::MAX
                    } else {
                        drained as u16
                    };
                    self.phase = ScanPhase::Trigger;
                },
                SensorReply::Fields(Err(source)) => {
                    self.fail(SensorError::new(Operation::PreTriggerFieldDrain, source));
                    self.close(sensor);
                },
                _ => {},
            },
            ScanPhase::Trigger => {
                self.started_at_ms = clock.uptime_ms;
                match reply {
                    SensorReply::Done(Ok(_)) => {
                        self.parallel_triggered = true;
                        self.phase = ScanPhase::Poll;
                    },
                    SensorReply::Done(Err(source)) => {
                        self.fail(SensorError::new(Operation::ParallelModeTrigger, source));
                        self.close(sensor);
                    },
                    _ => {},
                }
            },
            ScanPhase::Poll => {
                self.poll_count = self.poll_count.saturating_add(1);
                match reply {
                    SensorReply::Fields(Ok(fields)) => {
                        let offset_us: u32 = elapsed_us_saturating(clock.issued_us);
                        self.collector.ingest_batch(&fields, offset_us);
                        proof {
                            fed = crate::driver::collector_state(self.collector);
                        }
                        match poll_outcome(
                            self.collector.all_steps_gas_valid(),
                            self.collector.is_frozen(),
                            self.poll_count,
                            clock.elapsed_us,
                        ) {
                            PollOutcome::Complete => {
                                self.finish(ProfileFinishReason::Complete);
                                proof {
                                    crate::driver::lemma_retention_chains(
                                        state_before,
                                        fed,
                                        crate::driver::collector_state(self.collector),
                                    );
                                }
                                self.close(sensor);
                            },
                            PollOutcome::Frozen => {
                                self.close(sensor);
                            },
                            PollOutcome::TimedOut => {
                                self.finish(ProfileFinishReason::Timeout);
                                proof {
                                    crate::driver::lemma_retention_chains(
                                        state_before,
                                        fed,
                                        crate::driver::collector_state(self.collector),
                                    );
                                }
                                self.close(sensor);
                            },
                            PollOutcome::PollAgain => {},
                        }
                    },
                    SensorReply::Fields(Err(source)) => {
                        self.fail(SensorError::new(Operation::DataRead, source));
                        self.close(sensor);
                    },
                    _ => {},
                }
            },
            ScanPhase::Sleep => {
                self.duration_us = clock.elapsed_us;
                self.sleep_error = match reply {
                    SensorReply::Done(Err(source)) => Some(
                        SensorError::new(Operation::ReturnToSleep, source),
                    ),
                    _ => None,
                };
                if self.collection_error.is_some() || self.sleep_error.is_some() {
                    self.recovery = Some(ConfigurationCheck::assumed(false));
                    self.phase = ScanPhase::Recovery(CheckStage::ReadBack);
                } else {
                    self.settle(sensor);
                }
            },
            ScanPhase::Recovery(stage) => {
                if let Some(recovery) = self.recovery {
                    let mut check = recovery;
                    let next = sensor.validate_or_reconfigure(&mut check, stage, reply);
                    self.recovery = Some(check);
                    match next {
                        Some(stage) => {
                            self.phase = ScanPhase::Recovery(stage);
                        },
                        None => {
                            if self.sleep_error.is_some() && !check.verified
                                && self.emergency_sleep.should_retry() {
                                self.phase = ScanPhase::EmergencySleep;
                            } else {
                                self.settle(sensor);
                            }
                        },
                    }
                }
            },
            ScanPhase::EmergencySleep => {
                match reply {
                    SensorReply::Done(Err(source)) => {
                        let error = SensorError::new(Operation::ReturnToSleep, source);
                        self.emergency_sleep.record_attempt(false, error.is_i2c_error());
                        if let Some(recovery) = self.recovery {
                            let mut check = recovery;
                            check.record_error(error);
                            self.recovery = Some(check);
                        }
                    },
                    _ => {
                        self.emergency_sleep.record_attempt(true, false);
                    },
                }
                if !self.emergency_sleep.should_retry() {
                    self.settle(sensor);
                }
            },
            ScanPhase::Finished => {},
        }
        proof {
            let state = crate::driver::collector_state(self.collector);
            assert forall|i: int|
                #![trigger state.steps[i]]
                0 <= i < 10 && crate::driver::gas_valid_slot(state.steps[i]) && state.steps[i]
                    != state_before.steps[i] implies fed.steps[i] == state.steps[i]
                && fed.steps[i] != state_before.steps[i] by {
                assert(fed == state || crate::driver::gas_slot_unchanged(
                    state.steps[i],
                    fed.steps[i],
                ));
            }
            assert forall|i: int| 0 <= i < 10 implies #[trigger] fed.steps[i]
                == state_before.steps[i] || !crate::driver::gas_valid_slot(fed.steps[i]) || (
            crate::driver::gas_slot_from(
                state_before.steps[i],
                fed.steps[i],
                crate::driver::measurement_fields(reply->Fields_0->Ok_0),
                saturated_us(clock.issued_us),
            ) && old(self).phase is Poll && reply matches SensorReply::Fields(Ok(_))) by {}
        }
    }
}

/// The collector that every scan begins with: one for the parallel profile.
pub open spec fn profile_collector() -> ProfileCollector {
    crate::driver::fresh_collector(
        OperationMode::Parallel.spec_register_value(),
        PROFILE_STEP_COUNT,
    )
}

impl Sensor {
    /// The state of a scan that has just begun.
    pub open spec fn begun(
        self,
        verify_configuration_before_scan: bool,
        attempt_started_at_ms: u64,
        collector: ProfileCollector,
    ) -> (Sensor, ScanRun) {
        let run = ScanRun {
            phase: ScanPhase::Preflight(CheckStage::ReadBack),
            collector,
            started_at_ms: attempt_started_at_ms,
            duration_us: 0,
            poll_count: 0,
            collection_error: None,
            sleep_error: None,
            pre_trigger_metadata: None,
            configuration: ConfigurationCheck::spec_assumed(
                !verify_configuration_before_scan && self.spec_configuration_verified(),
            ),
            recovery: None,
            emergency_sleep: EmergencySleepRetryProgress::none(),
            pre_scan_discarded_fields: 0,
            parallel_triggered: false,
        };
        if verify_configuration_before_scan {
            (self, run)
        } else {
            run.checked(self)
        }
    }

    /// Begin to collect one complete profile or a bounded partial result.
    ///
    /// Once the driver exists, every exit path attempts an explicit transition
    /// to Sleep because BME688 Parallel mode otherwise repeats indefinitely.
    pub fn scan(
        &mut self,
        verify_configuration_before_scan: bool,
        attempt_started_at_ms: u64,
    ) -> (result: Result<ScanRun, ProfileCollectorError>)
        requires
            old(self).wf(),
        ensures
            result is Ok,
            (*final(self), result->Ok_0) == old(self).begun(
                verify_configuration_before_scan,
                attempt_started_at_ms,
                profile_collector(),
            ),
            crate::driver::collector_state(profile_collector())
                == crate::driver::CollectorState::empty(PROFILE_STEP_COUNT),
            result->Ok_0.wf(),
            result->Ok_0.fits(*final(self)),
    {
        let collector = match new_collector(
            OperationMode::Parallel.register_value(),
            PROFILE_STEP_COUNT,
        ) {
            Ok(collector) => collector,
            Err(error) => {
                return Err(error);
            },
        };
        let mut run = ScanRun {
            phase: ScanPhase::Preflight(CheckStage::ReadBack),
            collector,
            started_at_ms: attempt_started_at_ms,
            duration_us: 0,
            poll_count: 0,
            collection_error: None,
            sleep_error: None,
            pre_trigger_metadata: None,
            configuration: ConfigurationCheck::assumed(
                !verify_configuration_before_scan && self.configuration_verified(),
            ),
            recovery: None,
            emergency_sleep: EmergencySleepRetryProgress::default(),
            pre_scan_discarded_fields: 0,
            parallel_triggered: false,
        };
        if !verify_configuration_before_scan {
            run.enter_acquisition(self);
        }
        assert((*self, run) == old(self).begun(
            verify_configuration_before_scan,
            attempt_started_at_ms,
            profile_collector(),
        ));
        Ok(run)
    }
}

/// A complete or explicitly partial scan. Runtime sensor failures do not erase
/// measurements collected before the failure.
#[derive(Clone, Copy, Debug, PartialEq, Eq)]
pub struct ProfileScan {
    pub profile: ProfileReport,
    pub started_at_ms: u64,
    pub duration_us: u64,
    pub poll_count: u16,
    pub collection_error: Option<SensorError>,
    pub sleep_error: Option<SensorError>,
    /// Exact configuration snapshot captured after preflight and before the
    /// stale-slot drain/Parallel trigger. `None` means no heater scan began.
    pub pre_trigger_metadata: Option<SensorMetadata>,
    /// Result of the pre-trigger readback/recovery, never post-scan recovery.
    pub configuration_verified: bool,
    /// True only when programming plus readback restored the exact profile
    /// before this scan was triggered.
    pub sensor_reconfigured: bool,
    pub configuration_i2c_errors: u32,
    pub configuration_error: Option<SensorError>,
    pub configuration_error_code: u16,
    /// A trigger/read/sleep fault causes a separate recovery after the scan.
    /// These fields describe state for subsequent scans and must never relabel
    /// the current scan's configuration identity.
    pub post_scan_configuration_checked: bool,
    pub post_scan_configuration_verified: bool,
    pub post_scan_metadata: Option<SensorMetadata>,
    pub post_scan_sensor_reconfigured: bool,
    pub post_scan_configuration_i2c_errors: u32,
    pub post_scan_configuration_error: Option<SensorError>,
    pub post_scan_configuration_error_code: u16,
    /// Fixed-count stop-only recovery after both the normal Sleep request and
    /// post-scan configuration recovery failed to prove the sensor asleep.
    pub emergency_sleep_retry_attempts: u8,
    pub emergency_sleep_confirmed: bool,
    /// NEW_DATA fields drained while asleep immediately before this scan.
    pub pre_scan_discarded_fields: u16,
}

impl ScanRun {
    /// `scan` is the result of this run on the given sensor.
    pub open spec fn yields(self, sensor: Sensor, scan: ProfileScan) -> bool {
        let recovery = match self.recovery {
            Some(check) => check,
            None => ConfigurationCheck::spec_assumed(false),
        };
        &&& scan.profile.describes(crate::driver::collector_state(self.collector))
        &&& scan == (ProfileScan {
            profile: scan.profile,
            started_at_ms: self.started_at_ms,
            duration_us: self.duration_us,
            poll_count: self.poll_count,
            collection_error: self.collection_error,
            sleep_error: self.sleep_error,
            pre_trigger_metadata: self.pre_trigger_metadata,
            configuration_verified: self.configuration.verified,
            sensor_reconfigured: self.configuration.reconfigured,
            configuration_i2c_errors: self.configuration.i2c_errors,
            configuration_error: self.configuration.error,
            configuration_error_code: self.configuration.last_error_code,
            post_scan_configuration_checked: self.recovery is Some,
            post_scan_configuration_verified: recovery.verified,
            post_scan_metadata: match sensor.metadata {
                Some(metadata) => if recovery.verified && metadata.exact_configuration_verified {
                    Some(metadata)
                } else {
                    None
                },
                None => None,
            },
            post_scan_sensor_reconfigured: recovery.reconfigured,
            post_scan_configuration_i2c_errors: recovery.i2c_errors,
            post_scan_configuration_error: recovery.error,
            post_scan_configuration_error_code: recovery.last_error_code,
            emergency_sleep_retry_attempts: self.emergency_sleep.attempts,
            emergency_sleep_confirmed: self.emergency_sleep.confirmed,
            pre_scan_discarded_fields: self.pre_scan_discarded_fields,
        })
    }

    /// The result of a scan, as far as it has come. It is the scan's result
    /// once no command is left.
    #[must_use]
    pub fn result(&self, sensor: &Sensor) -> (scan: ProfileScan)
        ensures
            self.yields(*sensor, scan),
    {
        let recovery = match self.recovery {
            Some(check) => check,
            None => ConfigurationCheck::assumed(false),
        };
        let post_scan_metadata = match sensor.metadata {
            Some(metadata) => if recovery.verified && metadata.exact_configuration_verified {
                Some(metadata)
            } else {
                None
            },
            None => None,
        };
        ProfileScan {
            profile: profile_report(&self.collector),
            started_at_ms: self.started_at_ms,
            duration_us: self.duration_us,
            poll_count: self.poll_count,
            collection_error: self.collection_error,
            sleep_error: self.sleep_error,
            pre_trigger_metadata: self.pre_trigger_metadata,
            configuration_verified: self.configuration.verified,
            sensor_reconfigured: self.configuration.reconfigured,
            configuration_i2c_errors: self.configuration.i2c_errors,
            configuration_error: self.configuration.error,
            configuration_error_code: self.configuration.last_error_code,
            post_scan_configuration_checked: self.recovery.is_some(),
            post_scan_configuration_verified: recovery.verified,
            post_scan_metadata,
            post_scan_sensor_reconfigured: recovery.reconfigured,
            post_scan_configuration_i2c_errors: recovery.i2c_errors,
            post_scan_configuration_error: recovery.error,
            post_scan_configuration_error_code: recovery.last_error_code,
            emergency_sleep_retry_attempts: self.emergency_sleep.attempts,
            emergency_sleep_confirmed: self.emergency_sleep.confirmed,
            pre_scan_discarded_fields: self.pre_scan_discarded_fields,
        }
    }
}

/// Bus failures that an optional error stands for.
pub open spec fn bus_errors_of(error: Option<SensorError>) -> int {
    match error {
        Some(error) => error.bus_errors(),
        None => 0,
    }
}

fn count_bus_error(error: &Option<SensorError>) -> (count: u32)
    ensures
        count == bus_errors_of(*error),
{
    match error {
        Some(error) => if error.is_i2c_error() {
            1
        } else {
            0
        },
        None => 0,
    }
}

impl ProfileScan {
    pub open spec fn spec_sensor_failed(self) -> bool {
        !self.configuration_verified || self.collection_error is Some || self.sleep_error is Some
    }

    /// All bus failures before, during and after the scan, as long as the sum
    /// can be represented.
    pub open spec fn spec_i2c_error_count(self) -> u32 {
        crate::profile_status::saturating_u32(
            self.configuration_i2c_errors,
            self.post_scan_configuration_i2c_errors + bus_errors_of(self.collection_error)
                + bus_errors_of(self.sleep_error),
        )
    }

    /// The latest failure that health reports: of the recovery after the scan,
    /// else of the Sleep request, else of the collection, else of the preflight.
    pub open spec fn spec_last_error_code(self) -> u16 {
        if self.post_scan_configuration_error_code != 0 {
            self.post_scan_configuration_error_code
        } else {
            match (self.sleep_error, self.collection_error) {
                (Some(error), _) => error.operation.spec_code(),
                (None, Some(error)) => error.operation.spec_code(),
                (None, None) => self.configuration_error_code,
            }
        }
    }

    /// The configuration the scan was made with still describes the sensor.
    pub open spec fn spec_identity_available(self) -> bool {
        crate::profile_status::identity_available(
            self.configuration_verified,
            self.post_scan_configuration_checked,
            self.post_scan_configuration_verified,
            match (self.post_scan_metadata, self.pre_trigger_metadata) {
                (Some(post), Some(pre)) => post.same_identity(pre),
                _ => false,
            },
        )
    }

    #[must_use]
    pub fn sensor_failed(&self) -> (failed: bool)
        ensures
            failed == self.spec_sensor_failed(),
    {
        !self.configuration_verified || self.collection_error.is_some()
            || self.sleep_error.is_some()
    }

    #[must_use]
    pub fn i2c_error_count(&self) -> (count: u32)
        ensures
            count == self.spec_i2c_error_count(),
    {
        self.configuration_i2c_errors.saturating_add(
            self.post_scan_configuration_i2c_errors,
        ).saturating_add(count_bus_error(&self.collection_error)).saturating_add(
            count_bus_error(&self.sleep_error),
        )
    }

    #[must_use]
    pub fn last_error_code(&self) -> (code: u16)
        ensures
            code == self.spec_last_error_code(),
    {
        if self.post_scan_configuration_error_code != 0 {
            self.post_scan_configuration_error_code
        } else {
            match (self.sleep_error, self.collection_error) {
                (Some(error), _) => error.operation().code(),
                (None, Some(error)) => error.operation().code(),
                (None, None) => self.configuration_error_code,
            }
        }
    }

    #[must_use]
    pub fn health_configuration_identity_available(&self) -> (available: bool)
        ensures
            available == self.spec_identity_available(),
    {
        let matching = match (self.post_scan_metadata, self.pre_trigger_metadata) {
            (Some(post), Some(pre)) => post.same_configuration_identity(&pre),
            _ => false,
        };
        crate::profile_status::health_configuration_identity_available(
            self.configuration_verified,
            self.post_scan_configuration_checked,
            self.post_scan_configuration_verified,
            matching,
        )
    }
}

} // verus!
