use std::cell::RefCell;
use std::rc::Rc;

use bme68x::blocking::Bme68x;
use bme68x::interface::RegisterInterface;
use embedded_hal::delay::DelayNs;
use vesta::bme688::{
    Operation, SensorError, SensorStage, conversion_wait_us, measurement_configuration,
};
use vesta::board::{ProbeStage, ResetCause, ResetStatus, SensorAddress};
use vesta::driver::{
    Configuration, DriverError, Filter, OperationMode, Oversampling, StandbyTime, Variant,
};
use vesta::identity::{
    FirmwareBuild, establish, nonce_attempt_due, parse_decimal_u8, parse_hex_u64, stable_node_id,
};
use vesta::output::RadioOutput;
use vesta::profile_policy::{
    ScanIntervalError, config_repeat_interval_scans, parse_decimal_u32, scan_interval,
    scan_interval_ms,
};
use vesta::protocol::OutputRoute;

const NO_RESET: ResetStatus = ResetStatus {
    radio_illegal: false,
    option_byte: false,
    pin: false,
    brown_out: false,
    software: false,
    independent_watchdog: false,
    window_watchdog: false,
    low_power: false,
};

#[test]
fn each_reset_flag_has_its_own_bit() {
    let flags = |status: ResetStatus| ResetCause::capture(7, status).flags;
    assert_eq!(flags(NO_RESET), 0);
    assert_eq!(flags(ResetStatus { radio_illegal: true, ..NO_RESET }), 0x01);
    assert_eq!(flags(ResetStatus { option_byte: true, ..NO_RESET }), 0x02);
    assert_eq!(flags(ResetStatus { pin: true, ..NO_RESET }), 0x04);
    assert_eq!(flags(ResetStatus { brown_out: true, ..NO_RESET }), 0x08);
    assert_eq!(flags(ResetStatus { software: true, ..NO_RESET }), 0x10);
    assert_eq!(flags(ResetStatus { independent_watchdog: true, ..NO_RESET }), 0x20);
    assert_eq!(flags(ResetStatus { window_watchdog: true, ..NO_RESET }), 0x40);
    assert_eq!(flags(ResetStatus { low_power: true, ..NO_RESET }), 0x80);
    assert_eq!(ResetCause::capture(7, NO_RESET).raw, 7);
}

#[test]
fn probe_tries_the_wired_address_first() {
    let stage: ProbeStage<u8> = ProbeStage::TryLow;
    assert_eq!(stage.address(), Some(SensorAddress::Low));
    assert_eq!(SensorAddress::Low.address_byte(), 0x76);
    let found = stage.probe_bme688(Ok(0x61));
    assert_eq!(found.address(), None);
    assert_eq!(
        found,
        ProbeStage::Found {
            address: SensorAddress::Low,
            chip_id: 0x61
        }
    );
}

#[test]
fn probe_falls_back_and_keeps_both_errors() {
    let stage: ProbeStage<u8> = ProbeStage::TryLow;
    let stage = stage.probe_bme688(Err(1));
    assert_eq!(stage.address(), Some(SensorAddress::High));
    assert_eq!(SensorAddress::High.address_byte(), 0x77);
    assert_eq!(
        stage.probe_bme688(Ok(0x61)),
        ProbeStage::Found {
            address: SensorAddress::High,
            chip_id: 0x61
        }
    );
    let stage: ProbeStage<u8> = ProbeStage::TryHigh { low_error: 1 };
    let failed = stage.probe_bme688(Err(2));
    assert_eq!(failed.address(), None);
    assert_eq!(
        failed.probe_bme688(Ok(3)),
        ProbeStage::Failed {
            low_error: 1,
            high_error: 2
        }
    );
}

#[test]
fn node_identifier_is_the_hash_of_the_hardware_identifier() {
    assert_eq!(stable_node_id(&[0; 12]), 0x5467_b0da_1d10_6495);
    assert_ne!(stable_node_id(&[0; 12]), stable_node_id(&[0, 0, 0, 0, 0, 0, 0, 0, 0, 0, 0, 1]));
}

#[test]
fn nonce_is_big_endian_and_never_made_up() {
    let identity = establish(&[0; 12], Some([1, 2, 3, 4, 5, 6, 7, 8]));
    assert_eq!(identity.boot_id, 0x0102_0304_0506_0708);
    assert!(identity.boot_id_valid);
    assert!(identity.boot_id_from_hardware_rng);
    assert_eq!(identity.node_id, stable_node_id(&[0; 12]));
    let identity = establish(&[9; 12], None);
    assert_eq!(identity.boot_id, 0);
    assert!(!identity.boot_id_valid);
    assert!(!identity.boot_id_from_hardware_rng);
}

#[test]
fn nonce_is_attempted_three_times() {
    assert!(nonce_attempt_due(0, false));
    assert!(nonce_attempt_due(2, false));
    assert!(!nonce_attempt_due(3, false));
    assert!(!nonce_attempt_due(1, true));
}

#[test]
fn build_text_is_parsed() {
    assert_eq!(parse_decimal_u8("0"), 0);
    assert_eq!(parse_decimal_u8("255"), 255);
    assert_eq!(parse_decimal_u8(""), 0);
    assert_eq!(parse_decimal_u32("4294967295"), u32::MAX);
    assert_eq!(parse_hex_u64("0123456789abcdef"), 0x0123_4567_89ab_cdef);
    assert_eq!(parse_hex_u64("ABCDEF"), 0x00ab_cdef);
    assert_eq!(parse_hex_u64(""), 0);
    assert_eq!(parse_hex_u64("f0123456789abcdef"), 0x0123_4567_89ab_cdef);
    assert_eq!(parse_hex_u64("1x2"), 0x0102);
}

#[test]
fn provenance_of_a_build_is_read_back() {
    let build = FirmwareBuild::from_build("0", "2", "17", "00ff", "1", true);
    assert_eq!(build.version, [0, 2, 17]);
    assert_eq!(build.build_id, 0xff);
    assert!(build.build_id_valid);
    assert!(build.dirty);
    assert!(build.debug_sleep);
    let build = FirmwareBuild::from_build("1", "0", "0", "", "0", false);
    assert!(!build.build_id_valid);
    assert!(!build.dirty);
    assert_eq!(build.build_id, 0);
}

#[test]
fn scan_interval_is_bounded_for_profile_builds() {
    assert_eq!(scan_interval(true, false, None), Ok(300));
    assert_eq!(scan_interval(true, true, None), Ok(15));
    assert_eq!(scan_interval(true, false, Some(180)), Ok(180));
    assert_eq!(
        scan_interval(true, false, Some(179)),
        Err(ScanIntervalError::BelowMinimum { minimum: 180 })
    );
    assert_eq!(
        scan_interval(true, true, Some(14)),
        Err(ScanIntervalError::BelowMinimum { minimum: 15 })
    );
    assert_eq!(scan_interval(true, false, Some(4_294_967)), Ok(4_294_967));
    assert_eq!(
        scan_interval(true, false, Some(4_294_968)),
        Err(ScanIntervalError::TooLarge)
    );
    assert_eq!(scan_interval(false, false, Some(1)), Ok(300));
    assert_eq!(scan_interval_ms(4_294_967), 4_294_967_000);
}

#[test]
fn configuration_repeats_more_often_in_training() {
    assert_eq!(config_repeat_interval_scans(OutputRoute::LoraP2p), 6);
    assert_eq!(config_repeat_interval_scans(OutputRoute::UartCobsCrc32), 1);
}

#[test]
fn forced_conversion_waits_for_conversions_heater_and_margin() {
    // 19 cycles of 1963 us, 9 switching periods of 477 us, 1 ms of wake-up.
    assert_eq!(conversion_wait_us(), 42_590 + 100_000 + 5_000);
    let configuration = measurement_configuration();
    assert_eq!(configuration.humidity_oversampling, Oversampling::X16);
    assert_eq!(configuration.temperature_oversampling, Oversampling::X2);
    assert_eq!(configuration.pressure_oversampling, Oversampling::X1);
}

#[test]
fn forced_stages_follow_each_other() {
    assert_eq!(SensorStage::Configure.next(Ok(())), Ok(SensorStage::ConfigureHeater));
    assert_eq!(SensorStage::ConfigureHeater.next(Ok(())), Ok(SensorStage::Trigger));
    assert_eq!(SensorStage::Trigger.next(Ok(())), Ok(SensorStage::Read));
    assert_eq!(SensorStage::Read.next(Ok(())), Ok(SensorStage::Trigger));
}

#[test]
fn failed_setup_halts_and_a_failed_sample_goes_on() {
    assert_eq!(SensorStage::Configure.after_failure(), None);
    assert_eq!(SensorStage::ConfigureHeater.after_failure(), None);
    assert_eq!(SensorStage::Trigger.after_failure(), Some(SensorStage::Trigger));
    assert_eq!(SensorStage::Read.after_failure(), Some(SensorStage::Trigger));
}

#[test]
fn forced_failures_are_labelled() {
    for (stage, label) in [
        (SensorStage::Configure, "configuration"),
        (SensorStage::ConfigureHeater, "heater configuration"),
        (SensorStage::Trigger, "forced-mode trigger"),
        (SensorStage::Read, "data read"),
    ] {
        let error = match stage.next(Err(DriverError::Timeout)) {
            Err(error) => error,
            Ok(_) => panic!("the stage failed"),
        };
        assert_eq!(error.operation().label(), label);
        assert_eq!(*error.source(), DriverError::Timeout);
    }
    let error = SensorError::new(Operation::Initialization, DriverError::Bus);
    assert_eq!(error.operation().label(), "initialization");
}

#[test]
fn settings_have_their_register_values() {
    assert_eq!(Variant::GasLow.register_value(), 0);
    assert_eq!(Variant::GasHigh.register_value(), 1);
    assert_eq!(OperationMode::Sequential.register_value(), 3);
    assert_eq!(Oversampling::X16.register_value(), 5);
    assert_eq!(Filter::Size15.register_value(), 4);
    assert_eq!(StandbyTime::NoStandby.register_value(), 8);
    let default = Configuration::default();
    assert_eq!(default.humidity_oversampling, Oversampling::Skipped);
    assert_eq!(default.standby_time, StandbyTime::NoStandby);
}

/// A sensor with three readable field slots.
struct Chip {
    memory: [u8; 256],
}

struct Bus(Rc<RefCell<Chip>>);

impl RegisterInterface for Bus {
    type Error = ();

    fn read(&mut self, register: u8, data: &mut [u8]) -> Result<(), ()> {
        let start = usize::from(register);
        data.copy_from_slice(&self.0.borrow().memory[start..start + data.len()]);
        Ok(())
    }

    fn write(&mut self, register: u8, data: &[u8]) -> Result<(), ()> {
        let start = usize::from(register);
        self.0.borrow_mut().memory[start..start + data.len()].copy_from_slice(data);
        Ok(())
    }
}

struct NoDelay;

impl DelayNs for NoDelay {
    fn delay_ns(&mut self, _nanoseconds: u32) {}
}

#[test]
fn every_new_field_becomes_one_frame() {
    let mut calibration = bme68x::CalibrationData::default();
    calibration.par_t1 = 26_000;
    calibration.par_t2 = 26_470;
    calibration.par_p1 = 36_400;
    let bytes = calibration.canonical_coefficient_bytes();
    let mut memory = [0_u8; 256];
    memory[0xd0] = 0x61;
    memory[0xf0] = 1;
    memory[0x8a..0x8a + 23].copy_from_slice(&bytes[..23]);
    memory[0xe1..0xe1 + 14].copy_from_slice(&bytes[23..37]);
    memory[..5].copy_from_slice(&bytes[37..]);
    let chip = Rc::new(RefCell::new(Chip { memory }));
    let mut driver = match Bme68x::new(Bus(chip.clone()), NoDelay) {
        Ok(driver) => driver,
        Err(_) => panic!("the sensor initializes"),
    };
    {
        let memory = &mut chip.borrow_mut().memory;
        for (slot, gas_index) in [2_u8, 5].into_iter().enumerate() {
            let start = 0x1d + slot * 17;
            memory[start] = 0x80 | gas_index;
            memory[start + 1] = 10 + slot as u8;
            memory[start + 8] = 0x75;
            memory[start + 9] = 0x30;
            memory[start + 16] = 0x30;
        }
        memory[0x5a + 2] = 0x77;
        memory[0x64 + 5] = 0x66;
    }
    let fields = match driver.measurements(bme68x::OperationMode::Parallel) {
        Ok(fields) => fields,
        Err(_) => panic!("the fields were read"),
    };
    assert_eq!(fields.len(), 2);

    let mut output = RadioOutput::new(0x0102_0304_0506_0708);
    output.sequence = u32::MAX;
    let batch = match output.emit(&fields) {
        Ok(batch) => batch,
        Err(_) => panic!("two fields fit"),
    };
    assert_eq!(batch.count, 2);
    assert_eq!(output.sequence, 1);
    let (first, second) = (batch.frames[0], batch.frames[1]);
    assert_eq!(first[4..12], [1, 2, 3, 4, 5, 6, 7, 8]);
    assert_eq!(first[12..16], [0xff, 0xff, 0xff, 0xff]);
    assert_eq!(second[12..16], [0, 0, 0, 0]);
    assert_eq!(batch.frames[2], [0; 48]);
    assert_ne!(first, second);

    // The oldest field comes first, with its own register readings.
    let oldest = fields.as_slice()[0];
    assert_eq!(oldest.gas_index, 2);
    assert_eq!(first[43..48], [2, 10, 0x77, 0, 0]);
    assert_eq!(second[43..48], [5, 11, 0, 0, 0x66]);
    assert_eq!(first[38..40], [0x75, 0x30]);
}
