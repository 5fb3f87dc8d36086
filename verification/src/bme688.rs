//! BME688 measurement policy of protocol v1.

use vstd::prelude::*;

use crate::driver::{
    Configuration, DriverError, Filter, OperationMode, Oversampling, StandbyTime,
    measurement_duration_us,
};

verus! {

pub const HEATER_TEMPERATURE_CELSIUS: u16 = 300;

pub const HEATER_DURATION_MS: u16 = 100;

pub const MEASUREMENT_MARGIN_US: u64 = 5_000;

/// The driver operation that produced an error.
#[derive(Clone, Copy, Debug, PartialEq, Eq, Structural)]
pub enum Operation {
    Initialization,
    Configuration,
    HeaterConfiguration,
    ForcedModeTrigger,
    DataRead,
}

impl Operation {
    #[must_use]
    pub fn label(self) -> (label: &'static str)
        ensures
            label@ == match self {
                Operation::Initialization => "initialization"@,
                Operation::Configuration => "configuration"@,
                Operation::HeaterConfiguration => "heater configuration"@,
                Operation::ForcedModeTrigger => "forced-mode trigger"@,
                Operation::DataRead => "data read"@,
            },
    {
        match self {
            Operation::Initialization => "initialization",
            Operation::Configuration => "configuration",
            Operation::HeaterConfiguration => "heater configuration",
            Operation::ForcedModeTrigger => "forced-mode trigger",
            Operation::DataRead => "data read",
        }
    }
}

/// A BME688 failure paired with the operation that failed.
#[derive(Clone, Copy, Debug, PartialEq, Eq, Structural)]
pub struct SensorError {
    pub operation: Operation,
    pub source: DriverError,
}

impl SensorError {
    #[must_use]
    pub fn new(operation: Operation, source: DriverError) -> (error: Self)
        ensures
            error == (SensorError { operation, source }),
    {
        SensorError { operation, source }
    }

    #[must_use]
    pub fn operation(&self) -> (operation: Operation)
        ensures
            operation == self.operation,
    {
        self.operation
    }

    #[must_use]
    pub fn source(&self) -> (source: &DriverError)
        ensures
            *source == self.source,
    {
        &self.source
    }
}

/// Bosch's official forced-mode example.
pub open spec fn forced_configuration() -> Configuration {
    Configuration {
        humidity_oversampling: Oversampling::X16,
        temperature_oversampling: Oversampling::X2,
        pressure_oversampling: Oversampling::X1,
        filter: Filter::Off,
        standby_time: StandbyTime::NoStandby,
    }
}

#[must_use]
pub fn measurement_configuration() -> (configuration: Configuration)
    ensures
        configuration == forced_configuration(),
{
    Configuration {
        humidity_oversampling: Oversampling::X16,
        temperature_oversampling: Oversampling::X2,
        pressure_oversampling: Oversampling::X1,
        filter: Filter::Off,
        standby_time: StandbyTime::NoStandby,
    }
}

/// Time from the forced-mode trigger to the read: the conversions, the heater
/// and a margin, 147,590 us in all.
#[must_use]
pub fn conversion_wait_us() -> (wait_us: u64)
    ensures
        wait_us == 147_590,
{
    let configuration = measurement_configuration();
    let conversion_us: u32 = measurement_duration_us(
        OperationMode::Forced.register_value(),
        configuration.temperature_oversampling.register_value(),
        configuration.pressure_oversampling.register_value(),
        configuration.humidity_oversampling.register_value(),
    );
    conversion_us as u64 + HEATER_DURATION_MS as u64 * 1_000 + MEASUREMENT_MARGIN_US
}

/// What the application does next with the sensor.
#[derive(Clone, Copy, Debug, PartialEq, Eq, Structural)]
pub enum SensorStage {
    /// Write [`measurement_configuration`].
    Configure,
    /// Write the enabled forced heater at [`HEATER_TEMPERATURE_CELSIUS`] for
    /// [`HEATER_DURATION_MS`].
    ConfigureHeater,
    /// Request one forced conversion.
    Trigger,
    /// Wait [`conversion_wait_us`], then read the fields.
    Read,
}

impl SensorStage {
    /// The operation that a failure of this stage is reported as.
    pub open spec fn spec_operation(self) -> Operation {
        match self {
            SensorStage::Configure => Operation::Configuration,
            SensorStage::ConfigureHeater => Operation::HeaterConfiguration,
            SensorStage::Trigger => Operation::ForcedModeTrigger,
            SensorStage::Read => Operation::DataRead,
        }
    }

    /// The stage that follows a failure of this one: the node goes on with the
    /// next scheduled trigger, unless the sensor could not be configured.
    #[must_use]
    pub fn after_failure(self) -> (next: Option<SensorStage>)
        ensures
            next == match self {
                SensorStage::Configure => None::<SensorStage>,
                SensorStage::ConfigureHeater => None,
                SensorStage::Trigger => Some(SensorStage::Trigger),
                SensorStage::Read => Some(SensorStage::Trigger),
            },
    {
        match self {
            SensorStage::Configure => None,
            SensorStage::ConfigureHeater => None,
            SensorStage::Trigger => Some(SensorStage::Trigger),
            SensorStage::Read => Some(SensorStage::Trigger),
        }
    }

    /// Take the outcome of this stage. Configuration leads to the heater, the
    /// heater to the first trigger, a trigger to its read, and a read back to
    /// the next trigger; a failure is reported with its operation.
    pub fn next(self, outcome: Result<(), DriverError>) -> (result: Result<Self, SensorError>)
        ensures
            result == match outcome {
                Ok(_) => Ok::<Self, SensorError>(
                    match self {
                        SensorStage::Configure => SensorStage::ConfigureHeater,
                        SensorStage::ConfigureHeater => SensorStage::Trigger,
                        SensorStage::Trigger => SensorStage::Read,
                        SensorStage::Read => SensorStage::Trigger,
                    },
                ),
                Err(source) => Err(SensorError { operation: self.spec_operation(), source }),
            },
    {
        match (self, outcome) {
            (SensorStage::Configure, Ok(_)) => Ok(SensorStage::ConfigureHeater),
            (SensorStage::ConfigureHeater, Ok(_)) => Ok(SensorStage::Trigger),
            (SensorStage::Trigger, Ok(_)) => Ok(SensorStage::Read),
            (SensorStage::Read, Ok(_)) => Ok(SensorStage::Trigger),
            (SensorStage::Configure, Err(source)) => Err(
                SensorError::new(Operation::Configuration, source),
            ),
            (SensorStage::ConfigureHeater, Err(source)) => Err(
                SensorError::new(Operation::HeaterConfiguration, source),
            ),
            (SensorStage::Trigger, Err(source)) => Err(
                SensorError::new(Operation::ForcedModeTrigger, source),
            ),
            (SensorStage::Read, Err(source)) => Err(SensorError::new(Operation::DataRead, source)),
        }
    }
}

} // verus!
