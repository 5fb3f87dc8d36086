use std::cell::RefCell;
use std::collections::VecDeque;
use std::rc::Rc;

use bme68x::blocking::Bme68x;
use bme68x::interface::RegisterInterface;
use embedded_hal::delay::DelayNs;
use vesta::bme688_profile::{
    Clock, Operation, PollOutcome, ProfileScan, Sensor, SensorCommand, SensorError,
    SensorIdentity, SensorReply, SetupStage, elapsed_us_saturating, expected_resistances,
    heater_profile, measurement_configuration, poll_outcome, verify_readback, verify_registers,
};
use vesta::driver::{
    Configuration, DriverError, Filter, HeaterCalibration, HeaterConfigurationReadback,
    HeaterRegisters, OperationMode, Oversampling, ProfileFinishReason,
    SensorConfigurationReadback, StandbyTime, Variant,
};
use vesta::health::scan_is_successful;
use vesta::profile_definition::{
    PROFILE_REPETITION_MULTIPLIERS, PROFILE_TEMPERATURES_CELSIUS,
};
use vesta::protocol::FinishReason;
use vesta::telemetry_v2::{collection_flags, finish_reason};

const FIELD_LEN: usize = 17;
const REG_FIELD0: u8 = 0x1d;
const REG_RES_HEAT0: usize = 0x5a;
const REG_IDAC0: usize = 0x50;

type Field = [u8; FIELD_LEN];

/// A register-level sensor whose field reads come from a queue.
struct Chip {
    memory: [u8; 256],
    batches: VecDeque<Vec<Field>>,
}

#[derive(Clone)]
struct Bus(Rc<RefCell<Chip>>);

impl RegisterInterface for Bus {
    type Error = ();

    fn read(&mut self, register: u8, data: &mut [u8]) -> Result<(), ()> {
        let mut chip = self.0.borrow_mut();
        if register == REG_FIELD0 && data.len() == 3 * FIELD_LEN {
            data.fill(0);
            let batch = chip.batches.pop_front().unwrap_or_default();
            for (slot, field) in data.chunks_mut(FIELD_LEN).zip(&batch) {
                slot.copy_from_slice(field);
            }
            return Ok(());
        }
        let start = usize::from(register);
        data.copy_from_slice(&chip.memory[start..start + data.len()]);
        Ok(())
    }

    fn write(&mut self, register: u8, data: &[u8]) -> Result<(), ()> {
        let start = usize::from(register);
        self.0.borrow_mut().memory[start..start + data.len()].copy_from_slice(data);
        Ok(())
    }
}

struct NoDelay;

impl DelayNs for NoDelay {
    fn delay_ns(&mut self, _nanoseconds: u32) {}
}

type Driver = Bme68x<Bus, NoDelay>;

fn coefficients() -> bme68x::CalibrationData {
    let mut calibration = bme68x::CalibrationData::default();
    calibration.par_t1 = 26_000;
    calibration.par_t2 = 26_470;
    calibration.par_t3 = 3;
    calibration.par_p1 = 36_400;
    calibration.par_p2 = -10_685;
    calibration.par_p3 = 88;
    calibration.par_gh1 = -30;
    calibration.par_gh2 = -2_500;
    calibration.par_gh3 = 4;
    calibration.res_heat_range = 1;
    calibration.res_heat_val = 40;
    calibration
}

fn heater_calibration() -> HeaterCalibration {
    HeaterCalibration {
        par_gh1: -30,
        par_gh2: -2_500,
        par_gh3: 4,
        res_heat_range: 1,
        res_heat_val: 40,
    }
}

fn chip() -> Rc<RefCell<Chip>> {
    let mut memory = [0_u8; 256];
    memory[0xd0] = 0x61;
    memory[0xf0] = 1;
    let bytes = coefficients().canonical_coefficient_bytes();
    memory[0x8a..0x8a + 23].copy_from_slice(&bytes[..23]);
    memory[0xe1..0xe1 + 14].copy_from_slice(&bytes[23..37]);
    memory[..5].copy_from_slice(&bytes[37..]);
    for (index, current) in memory[REG_IDAC0..REG_IDAC0 + 10].iter_mut().enumerate() {
        *current = 0x20 + index as u8;
    }
    Rc::new(RefCell::new(Chip {
        memory,
        batches: VecDeque::new(),
    }))
}

fn oversampling(value: bme68x::Oversampling) -> Oversampling {
    match value {
        bme68x::Oversampling::None => Oversampling::Skipped,
        bme68x::Oversampling::X1 => Oversampling::X1,
        bme68x::Oversampling::X2 => Oversampling::X2,
        bme68x::Oversampling::X4 => Oversampling::X4,
        bme68x::Oversampling::X8 => Oversampling::X8,
        bme68x::Oversampling::X16 => Oversampling::X16,
    }
}

fn readback(value: bme68x::SensorConfigurationReadback) -> SensorConfigurationReadback {
    let environmental = value.environmental;
    SensorConfigurationReadback {
        operation_mode: match value.operation_mode {
            bme68x::OperationMode::Sleep => OperationMode::Sleep,
            bme68x::OperationMode::Forced => OperationMode::Forced,
            bme68x::OperationMode::Parallel => OperationMode::Parallel,
            bme68x::OperationMode::Sequential => OperationMode::Sequential,
        },
        environmental: Configuration {
            humidity_oversampling: oversampling(environmental.humidity_oversampling),
            temperature_oversampling: oversampling(environmental.temperature_oversampling),
            pressure_oversampling: oversampling(environmental.pressure_oversampling),
            filter: match environmental.filter {
                bme68x::Filter::Off => Filter::Off,
                _ => Filter::Size127,
            },
            standby_time: match environmental.standby_time {
                bme68x::StandbyTime::None => StandbyTime::NoStandby,
                _ => StandbyTime::Millis1000,
            },
        },
        heater: HeaterConfigurationReadback {
            registers: HeaterRegisters {
                current: value.heater.registers.current,
                resistance: value.heater.registers.resistance,
                gas_wait: value.heater.registers.gas_wait,
                shared_duration: value.heater.registers.shared_duration,
            },
            control_gas_0: value.heater.control_gas_0,
            control_gas_1: value.heater.control_gas_1,
        },
    }
}

fn execute(driver: &mut Driver, command: SensorCommand) -> SensorReply {
    match command {
        SensorCommand::ReadConfiguration => SensorReply::ReadBack(
            driver
                .configuration_readback()
                .map(readback)
                .map_err(|_| DriverError::Bus),
        ),
        SensorCommand::ProgramEnvironment => SensorReply::Done(
            driver
                .set_configuration(&bme68x::Configuration {
                    humidity_oversampling: bme68x::Oversampling::X1,
                    temperature_oversampling: bme68x::Oversampling::X2,
                    pressure_oversampling: bme68x::Oversampling::X16,
                    filter: bme68x::Filter::Off,
                    standby_time: bme68x::StandbyTime::None,
                })
                .map_err(|_| DriverError::Bus),
        ),
        SensorCommand::ProgramHeater => {
            let profile = heater_profile();
            SensorReply::Done(
                driver
                    .set_heater_configuration(&bme68x::HeaterConfiguration::Parallel {
                        enabled: profile.enabled,
                        temperatures_celsius: &profile.temperatures_celsius,
                        repetition_multipliers: &profile.repetition_multipliers,
                        shared_duration_ms: profile.shared_duration_ms,
                    })
                    .map_err(|_| DriverError::Bus),
            )
        }
        SensorCommand::ReadFields | SensorCommand::WaitAndReadFields => SensorReply::Fields(
            driver
                .measurements(bme68x::OperationMode::Parallel)
                .map_err(|_| DriverError::Bus),
        ),
        SensorCommand::Trigger => SensorReply::Done(
            driver
                .set_operation_mode(bme68x::OperationMode::Parallel)
                .map_err(|_| DriverError::Bus),
        ),
        SensorCommand::Sleep | SensorCommand::WaitAndSleep => SensorReply::Done(
            driver
                .set_operation_mode(bme68x::OperationMode::Sleep)
                .map_err(|_| DriverError::Bus),
        ),
    }
}

fn failed(command: SensorCommand, error: DriverError) -> SensorReply {
    match command {
        SensorCommand::ReadConfiguration => SensorReply::ReadBack(Err(error)),
        SensorCommand::ReadFields | SensorCommand::WaitAndReadFields => {
            SensorReply::Fields(Err(error))
        }
        _ => SensorReply::Done(Err(error)),
    }
}

/// The occurrences of a command that fail, counted from one.
struct Fault {
    command: SensorCommand,
    occurrences: std::ops::RangeInclusive<usize>,
    error: DriverError,
}

fn bus_fault(command: SensorCommand, occurrences: std::ops::RangeInclusive<usize>) -> Fault {
    Fault {
        command,
        occurrences,
        error: DriverError::Bus,
    }
}

fn answer(
    driver: &mut Driver,
    command: SensorCommand,
    issued: &mut Vec<SensorCommand>,
    faults: &[Fault],
) -> SensorReply {
    issued.push(command);
    let occurrence = issued.iter().filter(|other| **other == command).count();
    for fault in faults {
        if fault.command == command && fault.occurrences.contains(&occurrence) {
            return failed(command, fault.error);
        }
    }
    execute(driver, command)
}

struct Bench {
    chip: Rc<RefCell<Chip>>,
    driver: Driver,
    sensor: Sensor,
    issued: Vec<SensorCommand>,
    /// Time that one command takes.
    cost_us: u64,
}

fn bench() -> Bench {
    let chip = chip();
    let driver = match Bme68x::new(Bus(chip.clone()), NoDelay) {
        Ok(driver) => driver,
        Err(_) => panic!("the sensor initializes"),
    };
    let identity = SensorIdentity {
        address: 0x76,
        preflight_chip_id: 0x61,
        chip_id: driver.chip_id(),
        variant: Variant::GasHigh,
        calibration_fingerprint: driver.calibration_fingerprint(),
        calibration: heater_calibration(),
        ambient_temperature_celsius: driver.ambient_temperature(),
    };
    assert_eq!(driver.calibration().par_gh2, identity.calibration.par_gh2);
    assert_eq!(driver.calibration().res_heat_range, 1);
    Bench {
        chip,
        driver,
        sensor: Sensor::new(identity),
        issued: Vec::new(),
        cost_us: 1_000,
    }
}

impl Bench {
    fn configure(&mut self, faults: &[Fault]) -> Result<(), SensorError> {
        self.issued.clear();
        let mut stage = SetupStage::ProgramEnvironment;
        while let Some(command) = stage.command() {
            let reply = answer(&mut self.driver, command, &mut self.issued, faults);
            stage = self.sensor.configure(stage, reply);
        }
        match stage {
            SetupStage::Finished { result } => result,
            _ => panic!("a setup without a command is over"),
        }
    }

    fn scan(&mut self, verify: bool, faults: &[Fault]) -> ProfileScan {
        self.issued.clear();
        let mut now_us: u64 = 7_000_000;
        let mut anchor_us = now_us;
        let mut run = match self.sensor.scan(verify, anchor_us / 1_000) {
            Ok(run) => run,
            Err(_) => panic!("the profile fits a collector"),
        };
        while let Some(command) = run.command() {
            match command {
                SensorCommand::WaitAndReadFields => now_us += 100_000,
                SensorCommand::WaitAndSleep => now_us += 10_000,
                SensorCommand::Trigger => anchor_us = now_us,
                _ => {}
            }
            let issued_us = now_us - anchor_us;
            let reply = answer(&mut self.driver, command, &mut self.issued, faults);
            now_us += self.cost_us;
            let clock = Clock {
                uptime_ms: anchor_us / 1_000,
                issued_us,
                elapsed_us: now_us - anchor_us,
            };
            run.advance(&mut self.sensor, reply, clock);
        }
        run.result(&self.sensor)
    }

    fn count(&self, command: SensorCommand) -> usize {
        self.issued.iter().filter(|issued| **issued == command).count()
    }

    fn queue(&self, batches: &[&[Field]]) {
        for batch in batches {
            self.chip.borrow_mut().batches.push_back(batch.to_vec());
        }
    }

    /// An empty drain followed by all ten steps in four polls.
    fn queue_complete_profile(&self) {
        self.queue(&[&[]]);
        for first in [0_u8, 3, 6, 9] {
            let batch: Vec<Field> = (first..(first + 3).min(10))
                .map(|step| field(step, step, true, true))
                .collect();
            self.queue(&[&batch]);
        }
    }
}

fn configured() -> Bench {
    let mut bench = bench();
    assert_eq!(bench.configure(&[]), Ok(()));
    assert!(bench.sensor.configuration_verified());
    bench
}

/// A new data field with fixed raw readings.
fn field(gas_index: u8, measurement_index: u8, gas_valid: bool, heater_stable: bool) -> Field {
    let mut data = [0_u8; FIELD_LEN];
    data[0] = 0x80 | gas_index;
    data[1] = measurement_index;
    data[2] = 0x59;
    data[3] = 0x02;
    data[4] = 0x00;
    data[5] = 0x7e;
    data[6] = 0xed;
    data[7] = 0x00;
    data[8] = 0x75;
    data[9] = 0x30;
    data[15] = 0xaf;
    data[16] = 0x08 | if gas_valid { 0x20 } else { 0 } | if heater_stable { 0x10 } else { 0 };
    data
}

#[test]
fn setup_programs_and_retains_the_exact_profile() {
    let mut bench = bench();
    assert!(!bench.sensor.configuration_verified());
    assert_eq!(bench.sensor.metadata(), None);
    assert_eq!(bench.configure(&[]), Ok(()));
    assert_eq!(
        bench.issued,
        vec![
            SensorCommand::ProgramEnvironment,
            SensorCommand::ProgramHeater,
            SensorCommand::ReadConfiguration,
            SensorCommand::Sleep,
        ]
    );
    let metadata = match bench.sensor.metadata() {
        Some(metadata) => *metadata,
        None => panic!("setup retains the readback"),
    };
    assert!(metadata.exact_configuration_verified);
    assert_eq!(metadata.chip_id, 0x61);
    assert_eq!(metadata.address, 0x76);
    assert_eq!(metadata.variant, Variant::GasHigh);
    assert_eq!(metadata.readback.operation_mode, OperationMode::Sleep);
    assert_eq!(metadata.readback.environmental, measurement_configuration());
    let registers = metadata.readback.heater.registers;
    assert_eq!(registers.shared_duration, 0x73);
    assert_eq!(registers.gas_wait, PROFILE_REPETITION_MULTIPLIERS);
    assert_eq!(
        registers.current,
        [0x20, 0x21, 0x22, 0x23, 0x24, 0x25, 0x26, 0x27, 0x28, 0x29]
    );
    assert_eq!(metadata.readback.heater.run_gas(), 2);
    assert_eq!(metadata.readback.heater.profile_length(), 10);
    assert!(metadata.readback.heater.heater_enabled());
}

#[test]
fn setup_failures_name_the_operation_and_still_request_sleep() {
    for (command, occurrences, operation) in [
        (SensorCommand::ProgramEnvironment, 1..=1, Operation::Configuration),
        (SensorCommand::ProgramHeater, 1..=1, Operation::HeaterConfiguration),
        (SensorCommand::ReadConfiguration, 1..=1, Operation::ConfigurationReadback),
        (SensorCommand::Sleep, 1..=1, Operation::ReturnToSleep),
    ] {
        let mut bench = bench();
        let expected = SensorError::new(operation, DriverError::Bus);
        assert_eq!(
            bench.configure(&[bus_fault(command, occurrences)]),
            Err(expected)
        );
        assert_eq!(bench.issued.last(), Some(&SensorCommand::Sleep));
        assert_eq!(bench.count(SensorCommand::Sleep), 1);
        assert_eq!(bench.sensor.metadata(), None);
    }
}

#[test]
fn setup_reports_programming_failure_before_sleep_failure() {
    let mut bench = bench();
    let result = bench.configure(&[
        Fault {
            command: SensorCommand::ProgramHeater,
            occurrences: 1..=1,
            error: DriverError::InvalidConfiguration,
        },
        bus_fault(SensorCommand::Sleep, 1..=1),
    ]);
    let error = match result {
        Err(error) => error,
        Ok(()) => panic!("the heater was refused"),
    };
    assert_eq!(error.operation(), Operation::HeaterConfiguration);
    assert_eq!(*error.source(), DriverError::InvalidConfiguration);
    assert!(!error.is_i2c_error());
}

#[test]
fn complete_profile_is_collected_in_order() {
    let mut bench = configured();
    bench.queue_complete_profile();
    let scan = bench.scan(true, &[]);

    assert_eq!(
        bench.issued,
        vec![
            SensorCommand::ReadConfiguration,
            SensorCommand::ReadFields,
            SensorCommand::Trigger,
            SensorCommand::WaitAndReadFields,
            SensorCommand::WaitAndReadFields,
            SensorCommand::WaitAndReadFields,
            SensorCommand::WaitAndReadFields,
            SensorCommand::Sleep,
        ]
    );
    assert!(scan_is_successful(&scan));
    assert!(!scan.sensor_failed());
    assert!(scan.configuration_verified);
    assert!(!scan.sensor_reconfigured);
    assert!(!scan.post_scan_configuration_checked);
    assert!(scan.health_configuration_identity_available());
    assert_eq!(scan.pre_trigger_metadata, bench.sensor.metadata().copied());
    assert_eq!(scan.poll_count, 4);
    assert_eq!(scan.pre_scan_discarded_fields, 0);
    // Preflight and drain take a millisecond each before the trigger anchors.
    assert_eq!(scan.started_at_ms, 7_002);
    assert_eq!(scan.duration_us, 406_000);
    assert_eq!(scan.i2c_error_count(), 0);
    assert_eq!(scan.last_error_code(), 0);

    let profile = scan.profile;
    assert_eq!(profile.finish_reason, Some(ProfileFinishReason::Complete));
    assert_eq!(profile.observed_steps, 10);
    assert_eq!(profile.observed_mask, 0x03ff);
    assert_eq!(profile.missing_mask, 0);
    assert_eq!(profile.gas_valid_mask, 0x03ff);
    assert_eq!(profile.gas_invalid_mask, 0);
    assert_eq!(profile.heater_stable_mask, 0x03ff);
    assert_eq!(profile.duplicate_mask, 0);
    assert_eq!(profile.observed_field_count, 10);
    assert!(!profile.observed_field_count_overflowed);
    assert!(profile.structurally_complete);
    assert!(profile.all_steps_gas_valid);
    assert_eq!(profile.counters.duplicates, 0);
    assert_eq!(profile.counters.overwritten_fields, 0);
    assert_eq!(profile.counters.out_of_order_fields, 0);
    assert_eq!(profile.counters.ambiguous_index_jumps, 0);
    assert_eq!(profile.counters.profile_rollovers, 0);

    let resistances = expected_resistances(&heater_calibration(), 25);
    for (index, step) in profile.steps.iter().enumerate() {
        let step = match step {
            Some(step) => step,
            None => panic!("step {index} was observed"),
        };
        let offset = [101_000, 202_000, 303_000, 404_000][index / 3];
        assert_eq!(step.observed_offset_us, offset);
        assert_eq!(step.measurement.gas_index, index as u8);
        assert_eq!(step.measurement.measurement_index, index as u8);
        assert_eq!(step.measurement.status, 0xb0);
        assert_eq!(step.measurement.raw_field_status, 0x80 | index as u8);
        assert_eq!(step.measurement.raw_gas_status, 0x38);
        assert_eq!(step.measurement.heater_current, 0x20 + index as u8);
        assert_eq!(step.measurement.heater_resistance, resistances[index]);
        assert_eq!(step.measurement.gas_wait, PROFILE_REPETITION_MULTIPLIERS[index]);
        assert_eq!(step.measurement.raw.temperature_adc, 519_888);
        assert_eq!(step.measurement.raw.pressure_adc, 364_576);
        assert_eq!(step.measurement.raw.humidity_adc, 30_000);
        assert_eq!(step.measurement.raw.gas_resistance_adc, 700);
        assert_eq!(step.measurement.raw.gas_range, 8);
    }
    assert_eq!(finish_reason(&scan), FinishReason::Complete);
}

#[test]
fn former_fields_are_drained_and_make_the_scan_unusable() {
    let mut bench = configured();
    bench.queue(&[&[field(7, 200, true, true), field(8, 201, true, true)]]);
    for first in [0_u8, 3, 6, 9] {
        let batch: Vec<Field> = (first..(first + 3).min(10))
            .map(|step| field(step, 202 + step, true, true))
            .collect();
        bench.queue(&[&batch]);
    }
    let scan = bench.scan(true, &[]);
    assert_eq!(scan.pre_scan_discarded_fields, 2);
    assert_eq!(scan.profile.observed_field_count, 10);
    assert_eq!(scan.profile.finish_reason, Some(ProfileFinishReason::Complete));
    assert!(collection_flags(&scan).stale_pre_scan_fields);
    assert!(!scan_is_successful(&scan));
}

#[test]
fn lost_configuration_is_restored_before_the_heater_runs() {
    let mut bench = configured();
    bench.chip.borrow_mut().memory[REG_RES_HEAT0 + 4] ^= 0x01;
    bench.queue_complete_profile();
    let scan = bench.scan(true, &[]);
    assert_eq!(
        bench.issued[..7],
        [
            SensorCommand::ReadConfiguration,
            SensorCommand::ProgramEnvironment,
            SensorCommand::ProgramHeater,
            SensorCommand::ReadConfiguration,
            SensorCommand::Sleep,
            SensorCommand::ReadFields,
            SensorCommand::Trigger,
        ]
    );
    assert!(scan.configuration_verified);
    assert!(scan.sensor_reconfigured);
    assert_eq!(scan.configuration_i2c_errors, 0);
    assert_eq!(scan.configuration_error, None);
    assert_eq!(scan.configuration_error_code, Operation::ConfigurationReadback.code());
    assert!(bench.sensor.reconfiguration_marker_pending);
    assert!(scan_is_successful(&scan));

    // Until it is acknowledged, the marker goes onto the next scan as well.
    bench.queue_complete_profile();
    assert!(bench.scan(true, &[]).sensor_reconfigured);
    bench.sensor.acknowledge_reconfiguration_marker();
    bench.queue_complete_profile();
    assert!(!bench.scan(true, &[]).sensor_reconfigured);
}

#[test]
fn current_readings_alone_are_no_configuration_change() {
    let mut bench = configured();
    let before = bench.sensor.metadata().copied();
    bench.chip.borrow_mut().memory[REG_IDAC0 + 3] = 0xee;
    bench.queue_complete_profile();
    let scan = bench.scan(true, &[]);
    assert!(scan.configuration_verified);
    assert!(!scan.sensor_reconfigured);
    assert_ne!(scan.pre_trigger_metadata, before);
    match (scan.pre_trigger_metadata, before) {
        (Some(now), Some(before)) => {
            assert!(now.same_configuration_identity(&before));
            let mut elsewhere = now;
            elsewhere.address = 0x77;
            assert!(!elsewhere.same_configuration_identity(&before));
        }
        _ => panic!("both readbacks were retained"),
    }
}

#[test]
fn no_heater_runs_without_an_exact_configuration() {
    let mut bench = configured();
    let scan = bench.scan(
        true,
        &[
            bus_fault(SensorCommand::ReadConfiguration, 1..=9),
            bus_fault(SensorCommand::ProgramEnvironment, 1..=9),
        ],
    );
    assert_eq!(
        bench.issued,
        vec![
            SensorCommand::ReadConfiguration,
            SensorCommand::ProgramEnvironment,
            SensorCommand::Sleep,
            SensorCommand::Sleep,
        ]
    );
    assert!(!scan.configuration_verified);
    assert!(!scan.sensor_reconfigured);
    assert_eq!(scan.pre_trigger_metadata, None);
    assert_eq!(scan.configuration_i2c_errors, 2);
    assert_eq!(
        scan.configuration_error,
        Some(SensorError::new(Operation::Configuration, DriverError::Bus))
    );
    assert_eq!(scan.last_error_code(), 2);
    assert_eq!(scan.i2c_error_count(), 2);
    assert_eq!(scan.profile.finish_reason, Some(ProfileFinishReason::BusError));
    assert_eq!(scan.poll_count, 0);
    assert_eq!(scan.pre_scan_discarded_fields, 0);
    assert_eq!(scan.started_at_ms, 7_000);
    assert!(!scan.post_scan_configuration_checked);
    assert!(!scan.health_configuration_identity_available());
    assert_eq!(finish_reason(&scan), FinishReason::SensorError);
    // An interrupted reprogramming is marked on the next scan that runs.
    assert!(bench.sensor.reconfiguration_marker_pending);
    assert!(!bench.sensor.configuration_verified());
    bench.queue_complete_profile();
    assert!(bench.scan(true, &[]).sensor_reconfigured);
}

#[test]
fn readback_that_stays_wrong_stops_the_scan_without_a_bus_error() {
    let mut bench = configured();
    // A chip ID that disagrees with the probe can never verify.
    bench.sensor.identity.preflight_chip_id = 0x60;
    let scan = bench.scan(true, &[]);
    assert!(!scan.configuration_verified);
    assert_eq!(scan.configuration_error, None);
    assert_eq!(scan.configuration_error_code, 4);
    assert_eq!(scan.profile.finish_reason, Some(ProfileFinishReason::SensorStopped));
    assert_eq!(scan.i2c_error_count(), 0);
    assert_eq!(bench.count(SensorCommand::Trigger), 0);
    assert_eq!(bench.count(SensorCommand::ProgramHeater), 1);
}

#[test]
fn heater_refusal_and_second_readback_failure_end_the_preflight() {
    let mut bench = configured();
    bench.chip.borrow_mut().memory[REG_RES_HEAT0] ^= 0x01;
    let scan = bench.scan(true, &[bus_fault(SensorCommand::ProgramHeater, 1..=1)]);
    assert_eq!(scan.configuration_error_code, Operation::HeaterConfiguration.code());
    assert!(!scan.configuration_verified);

    let mut bench = configured();
    bench.chip.borrow_mut().memory[REG_RES_HEAT0] ^= 0x01;
    let scan = bench.scan(true, &[bus_fault(SensorCommand::ReadConfiguration, 2..=2)]);
    assert_eq!(scan.configuration_error_code, Operation::ConfigurationReadback.code());
    assert_eq!(scan.configuration_i2c_errors, 1);
    assert!(!scan.configuration_verified);

    // A restored profile counts for nothing if the sensor would not sleep.
    let mut bench = configured();
    bench.chip.borrow_mut().memory[REG_RES_HEAT0] ^= 0x01;
    let scan = bench.scan(true, &[bus_fault(SensorCommand::Sleep, 1..=1)]);
    assert_eq!(scan.configuration_error_code, Operation::ReturnToSleep.code());
    assert!(!scan.configuration_verified);
    assert!(!scan.sensor_reconfigured);
    assert_eq!(scan.sleep_error, None);
}

#[test]
fn drain_failure_recovers_without_a_heater_run() {
    let mut bench = configured();
    let scan = bench.scan(true, &[bus_fault(SensorCommand::ReadFields, 1..=1)]);
    assert_eq!(
        bench.issued,
        vec![
            SensorCommand::ReadConfiguration,
            SensorCommand::ReadFields,
            SensorCommand::Sleep,
            SensorCommand::ReadConfiguration,
        ]
    );
    assert_eq!(
        scan.collection_error,
        Some(SensorError::new(Operation::PreTriggerFieldDrain, DriverError::Bus))
    );
    assert_eq!(scan.profile.finish_reason, Some(ProfileFinishReason::BusError));
    assert!(scan.configuration_verified);
    assert!(scan.post_scan_configuration_checked);
    assert!(scan.post_scan_configuration_verified);
    assert_eq!(scan.post_scan_metadata, scan.pre_trigger_metadata);
    assert!(scan.health_configuration_identity_available());
    assert_eq!(scan.i2c_error_count(), 1);
    assert_eq!(scan.last_error_code(), 8);
    assert_eq!(scan.poll_count, 0);
    assert_eq!(scan.started_at_ms, 7_000);
    assert!(!scan_is_successful(&scan));
}

#[test]
fn trigger_failure_is_no_bus_error_unless_the_bus_failed() {
    let mut bench = configured();
    let scan = bench.scan(
        true,
        &[Fault {
            command: SensorCommand::Trigger,
            occurrences: 1..=1,
            error: DriverError::Timeout,
        }],
    );
    assert_eq!(scan.profile.finish_reason, Some(ProfileFinishReason::SensorStopped));
    assert_eq!(scan.last_error_code(), 5);
    assert_eq!(scan.i2c_error_count(), 0);
    assert_eq!(scan.started_at_ms, 7_002);
    assert_eq!(bench.count(SensorCommand::WaitAndReadFields), 0);
    assert!(scan.sensor_failed());
}

#[test]
fn read_failure_keeps_what_was_collected() {
    let mut bench = configured();
    bench.queue_complete_profile();
    let scan = bench.scan(true, &[bus_fault(SensorCommand::WaitAndReadFields, 2..=2)]);
    assert_eq!(scan.profile.observed_steps, 3);
    assert_eq!(scan.profile.observed_mask, 0x0007);
    assert_eq!(scan.profile.missing_mask, 0x03f8);
    assert_eq!(scan.profile.finish_reason, Some(ProfileFinishReason::BusError));
    assert!(!scan.profile.structurally_complete);
    assert_eq!(scan.poll_count, 2);
    assert_eq!(scan.last_error_code(), 6);
    assert!(scan.profile.steps[2].is_some());
    assert!(scan.profile.steps[3].is_none());
    assert!(collection_flags(&scan).i2c_error);
}

#[test]
fn failure_commits_a_pending_step_and_keeps_the_valid_ones() {
    let mut bench = configured();
    bench.queue(&[
        &[],
        &[field(0, 0, true, true), field(1, 1, true, false), field(2, 2, false, true)],
    ]);
    let scan = bench.scan(true, &[bus_fault(SensorCommand::WaitAndReadFields, 2..=2)]);
    assert_eq!(scan.profile.observed_mask, 0x0007);
    assert_eq!(scan.profile.gas_valid_mask, 0x0003);
    assert_eq!(scan.profile.heater_stable_mask, 0x0005);
    assert_eq!(scan.profile.observed_field_count, 3);
    for (index, slot) in scan.profile.steps[..3].iter().enumerate() {
        match slot {
            Some(step) => {
                assert_eq!(step.measurement.measurement_index, index as u8);
                assert_eq!(step.observed_offset_us, 101_000);
            }
            None => panic!("step {index} was collected before the failure"),
        }
    }
    assert!(scan.poll_count > 0);
}

#[test]
fn failed_sleep_is_recovered_by_the_configuration_check() {
    let mut bench = configured();
    bench.queue_complete_profile();
    let scan = bench.scan(true, &[bus_fault(SensorCommand::Sleep, 1..=1)]);
    // The recovery finds the sensor in Parallel mode and reprograms it.
    assert_eq!(
        scan.sleep_error,
        Some(SensorError::new(Operation::ReturnToSleep, DriverError::Bus))
    );
    assert!(scan.post_scan_configuration_checked);
    assert!(scan.post_scan_configuration_verified);
    assert!(scan.post_scan_sensor_reconfigured);
    assert_eq!(scan.emergency_sleep_retry_attempts, 0);
    assert!(scan.configuration_verified);
    assert!(!scan.sensor_reconfigured);
    assert!(bench.sensor.reconfiguration_marker_pending);
    assert_eq!(scan.i2c_error_count(), 1);
    assert_eq!(scan.last_error_code(), 4);
    assert_eq!(scan.profile.finish_reason, Some(ProfileFinishReason::Complete));
    assert_eq!(finish_reason(&scan), FinishReason::SensorError);
}

#[test]
fn emergency_sleep_is_tried_three_times() {
    let mut bench = configured();
    bench.queue_complete_profile();
    let scan = bench.scan(
        true,
        &[
            bus_fault(SensorCommand::Sleep, 1..=9),
            bus_fault(SensorCommand::ReadConfiguration, 2..=9),
            bus_fault(SensorCommand::WaitAndSleep, 1..=9),
        ],
    );
    assert_eq!(bench.count(SensorCommand::WaitAndSleep), 3);
    assert_eq!(scan.emergency_sleep_retry_attempts, 3);
    assert!(!scan.emergency_sleep_confirmed);
    assert!(!scan.post_scan_configuration_verified);
    assert_eq!(scan.post_scan_metadata, None);
    assert!(!scan.health_configuration_identity_available());
    // Two readbacks, the recovery's Sleep and three stop-only commands.
    assert_eq!(scan.post_scan_configuration_i2c_errors, 6);
    assert_eq!(scan.i2c_error_count(), 7);
    assert_eq!(scan.last_error_code(), 7);
    assert!(bench.sensor.reconfiguration_marker_pending);
    // The scan itself keeps its own configuration.
    assert!(scan.configuration_verified);
    assert!(scan.pre_trigger_metadata.is_some());
}

#[test]
fn emergency_sleep_stops_once_it_is_confirmed() {
    let mut bench = configured();
    bench.queue_complete_profile();
    let scan = bench.scan(
        true,
        &[
            bus_fault(SensorCommand::Sleep, 1..=9),
            bus_fault(SensorCommand::ReadConfiguration, 2..=9),
            bus_fault(SensorCommand::WaitAndSleep, 1..=1),
        ],
    );
    assert_eq!(bench.count(SensorCommand::WaitAndSleep), 2);
    assert_eq!(scan.emergency_sleep_retry_attempts, 2);
    assert!(scan.emergency_sleep_confirmed);
    assert_eq!(scan.i2c_error_count(), 5);
}

#[test]
fn silent_sensor_uses_up_the_poll_budget() {
    let mut bench = configured();
    bench.cost_us = 0;
    let scan = bench.scan(true, &[]);
    // Readback, drain, trigger, 150 polls and Sleep.
    assert_eq!(bench.issued.len(), 154);
    assert_eq!(scan.poll_count, 150);
    assert_eq!(scan.profile.finish_reason, Some(ProfileFinishReason::Timeout));
    assert_eq!(finish_reason(&scan), FinishReason::PollBudget);
    let flags = collection_flags(&scan);
    assert!(flags.no_new_data);
    assert!(flags.poll_budget_exhausted);
    assert!(!flags.timeout);
    assert!(!scan.sensor_failed());
    assert!(!scan_is_successful(&scan));
}

#[test]
fn slow_bus_reaches_the_deadline_first() {
    let mut bench = configured();
    bench.cost_us = 2_900_000;
    let scan = bench.scan(true, &[]);
    // Trigger 2.9 s, then 3 s a poll: the fifth poll ends past 15 s.
    assert_eq!(scan.poll_count, 5);
    assert_eq!(finish_reason(&scan), FinishReason::Timeout);
    assert!(collection_flags(&scan).timeout);
    assert!(!collection_flags(&scan).poll_budget_exhausted);
}

#[test]
fn repeated_step_is_counted_and_a_second_cycle_ends_the_scan() {
    let mut bench = configured();
    bench.queue(&[
        &[],
        &[field(0, 0, true, true), field(1, 1, true, true), field(2, 2, true, true)],
        &[field(0, 3, true, true)],
    ]);
    let scan = bench.scan(true, &[]);
    assert_eq!(scan.profile.finish_reason, Some(ProfileFinishReason::ProfileRollover));
    assert_eq!(scan.profile.counters.profile_rollovers, 1);
    assert_eq!(scan.profile.observed_mask, 0x0007);
    assert_eq!(scan.poll_count, 2);
    assert!(collection_flags(&scan).measurement_discontinuity);
    assert_eq!(finish_reason(&scan), FinishReason::ProfileRollover);
}

#[test]
fn unstable_or_invalid_steps_are_reported() {
    let mut bench = configured();
    bench.queue(&[
        &[],
        &[field(0, 0, true, false), field(1, 1, false, true)],
    ]);
    bench.cost_us = 0;
    let scan = bench.scan(true, &[]);
    assert_eq!(scan.profile.observed_mask, 0x0003);
    assert_eq!(scan.profile.gas_valid_mask, 0x0001);
    assert_eq!(scan.profile.gas_invalid_mask, 0x0002);
    assert_eq!(scan.profile.heater_stable_mask, 0x0002);
    let flags = collection_flags(&scan);
    assert!(flags.invalid_gas);
    assert!(flags.heater_unstable);
    assert!(!flags.no_new_data);
}

#[test]
fn unchecked_scan_trusts_only_a_verified_configuration() {
    let mut bench = configured();
    bench.queue_complete_profile();
    let scan = bench.scan(false, &[]);
    assert_eq!(bench.count(SensorCommand::ReadConfiguration), 0);
    assert!(scan.configuration_verified);
    assert!(scan_is_successful(&scan));

    let mut bench = self::bench();
    let scan = bench.scan(false, &[]);
    assert_eq!(bench.issued, vec![SensorCommand::Sleep]);
    assert!(!scan.configuration_verified);
    assert_eq!(scan.configuration_error_code, 0);
    assert_eq!(scan.profile.finish_reason, Some(ProfileFinishReason::SensorStopped));
}

#[test]
fn marker_waits_for_a_scan_whose_heater_ran() {
    let mut bench = configured();
    bench.chip.borrow_mut().memory[REG_RES_HEAT0] ^= 0x01;
    let scan = bench.scan(true, &[bus_fault(SensorCommand::Trigger, 1..=1)]);
    assert!(!scan.sensor_reconfigured);
    assert!(bench.sensor.reconfiguration_marker_pending);
    bench.queue_complete_profile();
    let scan = bench.scan(true, &[]);
    assert!(scan.sensor_reconfigured);
    assert!(bench.sensor.reconfiguration_marker_pending);
}

#[test]
fn heater_resistances_come_from_the_calibration() {
    let resistances = expected_resistances(&heater_calibration(), 25);
    for (index, temperature) in PROFILE_TEMPERATURES_CELSIUS.into_iter().enumerate() {
        assert_eq!(
            resistances[index],
            bme68x::compensation::calculate_heater_resistance(temperature, 25, &coefficients())
        );
    }
    assert_eq!(resistances, [121, 61, 61, 61, 88, 88, 88, 121, 121, 121]);
    let mut other = heater_calibration();
    other.res_heat_val = -40;
    assert_ne!(expected_resistances(&other, 25), resistances);
    for ambient in [-128, -20, 0, 127] {
        let resistances = expected_resistances(&heater_calibration(), ambient);
        let first = bme68x::compensation::calculate_heater_resistance(
            PROFILE_TEMPERATURES_CELSIUS[0],
            ambient,
            &coefficients(),
        );
        assert_eq!(resistances[0], first);
    }
}

#[test]
fn every_programmed_register_is_verified() {
    let bench = configured();
    let exact = match bench.sensor.metadata() {
        Some(metadata) => metadata.readback,
        None => panic!("setup retains the readback"),
    };
    let resistances = expected_resistances(&heater_calibration(), 25);
    assert!(verify_registers(&exact, Variant::GasHigh, &resistances));
    assert!(verify_readback(&exact, Variant::GasHigh, &heater_calibration(), 25));
    assert!(!verify_registers(&exact, Variant::GasLow, &resistances));
    assert!(!verify_registers(&exact, Variant::GasHigh, &[0; 10]));

    let mut changed = exact;
    changed.operation_mode = OperationMode::Parallel;
    assert!(!verify_registers(&changed, Variant::GasHigh, &resistances));
    let mut changed = exact;
    changed.environmental.filter = Filter::Size1;
    assert!(!verify_registers(&changed, Variant::GasHigh, &resistances));
    let mut changed = exact;
    changed.heater.control_gas_0 = 0x08;
    assert!(!verify_registers(&changed, Variant::GasHigh, &resistances));
    let mut changed = exact;
    changed.heater.control_gas_1 ^= 0x01;
    assert!(!verify_registers(&changed, Variant::GasHigh, &resistances));
    let mut changed = exact;
    changed.heater.registers.shared_duration = 0x74;
    assert!(!verify_registers(&changed, Variant::GasHigh, &resistances));
    let mut changed = exact;
    changed.heater.registers.gas_wait[9] = 0;
    assert!(!verify_registers(&changed, Variant::GasHigh, &resistances));
    let mut changed = exact;
    changed.heater.registers.current = [0xff; 10];
    assert!(verify_registers(&changed, Variant::GasHigh, &resistances));
}

#[test]
fn programmed_heater_profile_is_hp_354() {
    let profile = heater_profile();
    assert!(profile.enabled);
    assert_eq!(
        profile.temperatures_celsius,
        [320, 100, 100, 100, 200, 200, 200, 320, 320, 320]
    );
    assert_eq!(profile.repetition_multipliers, [5, 2, 10, 30, 5, 5, 5, 5, 5, 5]);
    assert_eq!(profile.shared_duration_ms, 99);
}

#[test]
fn same_replies_give_the_same_profile() {
    let mut first = configured();
    first.queue_complete_profile();
    let mut second = configured();
    second.queue_complete_profile();
    assert_eq!(first.scan(true, &[]), second.scan(true, &[]));
}

#[test]
fn intermediate_conversions_give_way_to_the_valid_one() {
    // Parallel mode holds a conversion without valid gas data back until the
    // step moves on, and counts it once a valid one replaces it.
    let mut bench = configured();
    bench.queue(&[
        &[],
        &[field(0, 0, false, true), field(0, 1, false, true), field(0, 2, true, true)],
    ]);
    let scan = bench.scan(true, &[bus_fault(SensorCommand::WaitAndReadFields, 2..=2)]);
    assert_eq!(scan.profile.observed_mask, 0x0001);
    assert_eq!(scan.profile.gas_valid_mask, 0x0001);
    assert_eq!(scan.profile.counters.intermediate_fields, 2);
    match scan.profile.steps[0] {
        Some(step) => assert_eq!(step.measurement.measurement_index, 2),
        None => panic!("the valid conversion was retained"),
    }
}

#[test]
fn poll_decisions_have_a_fixed_precedence() {
    assert_eq!(poll_outcome(true, true, 150, 15_000_000), PollOutcome::Complete);
    assert_eq!(poll_outcome(false, true, 150, 15_000_000), PollOutcome::Frozen);
    assert_eq!(poll_outcome(false, false, 150, 0), PollOutcome::TimedOut);
    assert_eq!(poll_outcome(false, false, 1, 15_000_000), PollOutcome::TimedOut);
    assert_eq!(poll_outcome(false, false, 149, 14_999_999), PollOutcome::PollAgain);
    assert_eq!(elapsed_us_saturating(4_294_967_295), u32::MAX);
    assert_eq!(elapsed_us_saturating(4_294_967_296), u32::MAX);
    assert_eq!(elapsed_us_saturating(17), 17);
}

#[test]
fn operation_codes_are_stable() {
    let codes = [
        Operation::Initialization,
        Operation::Configuration,
        Operation::HeaterConfiguration,
        Operation::ConfigurationReadback,
        Operation::ParallelModeTrigger,
        Operation::DataRead,
        Operation::ReturnToSleep,
        Operation::PreTriggerFieldDrain,
    ]
    .map(Operation::code);
    assert_eq!(codes, [1, 2, 3, 4, 5, 6, 7, 8]);
}
