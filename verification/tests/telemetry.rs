use vesta::bme688_profile::{
    Operation, ProfileScan, Sensor, SensorError, SensorIdentity, SensorMetadata,
    measurement_configuration,
};
use vesta::board::{ResetCause, ResetStatus};
use vesta::driver::{
    Configuration, DriverError, Filter, FixedMeasurement, HeaterCalibration,
    HeaterConfigurationReadback, HeaterRegisters, Measurement, OperationMode, Oversampling,
    ProfileCounters, ProfileFinishReason, ProfileReport, ProfileStep, RawMeasurement,
    SensorConfigurationReadback, StandbyTime, Variant,
};
use vesta::health::{HealthCounters, scan_is_successful};
use vesta::identity::{DeviceIdentity, FirmwareBuild};
use vesta::output_v2::{EmitError, EmitReport, Source};
use vesta::profile_definition::PROFILE_REPETITION_MULTIPLIERS;
use vesta::protocol::{
    BuildFlagBits, BuildFlags, CodecError, CollectionFlagBits, ConfigFlagBits, FinishReason,
    HealthFlagBits, OutputRoute,
};
use vesta::radio::TransmissionError;
use vesta::runtime::{
    CyclePhase, HealthDelivery, Node, Startup, StartupEvent, StartupStage, degraded_context,
};
use vesta::telemetry_v2::{
    Telemetry, TelemetrySettings, collection_flags, device_config, device_health,
    expected_profile_duration_us, finish_reason, wire_profile_scan,
};

const IDENTITY: DeviceIdentity = DeviceIdentity {
    node_id: 0x1122_3344_5566_7788,
    boot_id: 0x99aa_bbcc_ddee_ff00,
    boot_id_valid: true,
    boot_id_from_hardware_rng: true,
};

const RESET: ResetCause = ResetCause {
    raw: 0x0c00_0003,
    flags: 0x000c,
};

fn settings(route: OutputRoute) -> TelemetrySettings {
    TelemetrySettings {
        build: FirmwareBuild {
            version: [0, 2, 0],
            build_id: 0x0123_4567_89ab_cdef,
            build_id_valid: true,
            dirty: false,
            debug_sleep: false,
        },
        route,
        scan_interval_ms: 300_000,
        max_frame_len: 231,
        steps_per_fragment: 3,
    }
}

fn metadata() -> SensorMetadata {
    SensorMetadata {
        chip_id: 0x61,
        variant: Variant::GasHigh,
        address: 0x76,
        calibration_fingerprint: 0xfeed_f00d,
        readback: SensorConfigurationReadback {
            operation_mode: OperationMode::Sleep,
            environmental: measurement_configuration(),
            heater: HeaterConfigurationReadback {
                registers: HeaterRegisters {
                    current: [0x30; 10],
                    resistance: [121, 61, 61, 61, 88, 88, 88, 121, 121, 121],
                    gas_wait: PROFILE_REPETITION_MULTIPLIERS,
                    shared_duration: 0x73,
                },
                control_gas_0: 0,
                control_gas_1: 0x2a,
            },
        },
        exact_configuration_verified: true,
    }
}

fn step(index: u8) -> ProfileStep {
    ProfileStep {
        measurement: Measurement {
            status: 0xb0,
            raw_field_status: 0x80 | index,
            raw_gas_status: 0x38,
            gas_index: index,
            measurement_index: 40 + index,
            heater_resistance: 121,
            heater_current: 0x31,
            gas_wait: 5,
            raw: RawMeasurement {
                temperature_adc: 519_888,
                pressure_adc: 364_576,
                humidity_adc: 30_000,
                gas_resistance_adc: 700,
                gas_range: 8,
            },
            values: FixedMeasurement {
                temperature: 2_345,
                pressure: 100_653,
                humidity: 45_678,
                gas_resistance: 98_765,
            },
        },
        observed_offset_us: 1_000 * (1 + u32::from(index)),
    }
}

/// A complete, clean scan.
fn clean_scan() -> ProfileScan {
    let mut steps = [None; 10];
    for (index, slot) in steps.iter_mut().enumerate() {
        *slot = Some(step(index as u8));
    }
    ProfileScan {
        profile: ProfileReport {
            observed_steps: 10,
            observed_mask: 0x03ff,
            missing_mask: 0,
            gas_valid_mask: 0x03ff,
            gas_invalid_mask: 0,
            heater_stable_mask: 0x03ff,
            duplicate_mask: 0,
            observed_field_count: 10,
            observed_field_count_overflowed: false,
            structurally_complete: true,
            all_steps_gas_valid: true,
            finish_reason: Some(ProfileFinishReason::Complete),
            counters: ProfileCounters {
                duplicates: 0,
                overwritten_fields: 0,
                out_of_order_fields: 0,
                ambiguous_index_jumps: 0,
                invalid_gas_indexes: 0,
                intermediate_fields: 17,
                profile_rollovers: 0,
                fields_after_rollover: 0,
            },
            steps,
        },
        started_at_ms: 12_345,
        duration_us: 10_500_000,
        poll_count: 104,
        collection_error: None,
        sleep_error: None,
        pre_trigger_metadata: Some(metadata()),
        configuration_verified: true,
        sensor_reconfigured: false,
        configuration_i2c_errors: 0,
        configuration_error: None,
        configuration_error_code: 0,
        post_scan_configuration_checked: false,
        post_scan_configuration_verified: false,
        post_scan_metadata: None,
        post_scan_sensor_reconfigured: false,
        post_scan_configuration_i2c_errors: 0,
        post_scan_configuration_error: None,
        post_scan_configuration_error_code: 0,
        emergency_sleep_retry_attempts: 0,
        emergency_sleep_confirmed: false,
        pre_scan_discarded_fields: 0,
    }
}

/// A scan whose configuration could not be verified.
fn unverified_scan() -> ProfileScan {
    let mut scan = clean_scan();
    scan.configuration_verified = false;
    scan.pre_trigger_metadata = None;
    scan.profile.finish_reason = Some(ProfileFinishReason::SensorStopped);
    scan.configuration_error_code = 4;
    scan
}

fn telemetry(route: OutputRoute) -> Telemetry {
    match Telemetry::new(IDENTITY, RESET, settings(route), &metadata(), Ok(0xabcd)) {
        Ok(telemetry) => telemetry,
        Err(_) => panic!("the codec identified the configuration"),
    }
}

fn sensor() -> Sensor {
    let mut sensor = Sensor::new(SensorIdentity {
        address: 0x76,
        preflight_chip_id: 0x61,
        chip_id: 0x61,
        variant: Variant::GasHigh,
        calibration_fingerprint: 0xfeed_f00d,
        calibration: HeaterCalibration {
            par_gh1: -30,
            par_gh2: -2_500,
            par_gh3: 4,
            res_heat_range: 1,
            res_heat_val: 40,
        },
        ambient_temperature_celsius: 25,
    });
    sensor.metadata = Some(metadata());
    sensor
}

fn node(route: OutputRoute) -> Node {
    Node {
        sensor: sensor(),
        telemetry: telemetry(route),
        counters: HealthCounters::default(),
        expected_fragment_count: 4,
    }
}

#[test]
fn device_config_is_complete_and_exact() {
    let config = device_config(&metadata(), &settings(OutputRoute::LoraP2p));
    assert!(config.flags.calibration_hash_valid);
    assert!(config.flags.sensor_config_read_back);
    assert_eq!(config.firmware_version, [0, 2, 0]);
    assert!(config.firmware_build_flags.id_valid);
    assert_eq!(config.firmware_build_id, 0x0123_4567_89ab_cdef);
    assert_eq!(config.sensor_chip_id, 0x61);
    assert_eq!(config.sensor_variant, 1);
    assert_eq!(config.sensor_i2c_address, 0x76);
    assert_eq!(config.temperature_oversampling, 2);
    assert_eq!(config.humidity_oversampling, 1);
    assert_eq!(config.pressure_oversampling, 5);
    assert_eq!(config.iir_filter, 0);
    assert_eq!(config.standby_time, 8);
    assert_eq!(config.operation_mode, 2);
    assert_eq!(config.heater_enabled, 1);
    assert_eq!(config.parallel_shared_wait_register, 0x73);
    assert_eq!(config.parallel_quantized_shared_wait_us, 97_308);
    assert_eq!(config.tphg_duration_us, 41_590);
    // Every repetition takes 97,308 us plus 41,590 us.
    let repetitions: u32 = PROFILE_REPETITION_MULTIPLIERS.iter().map(|m| u32::from(*m)).sum();
    assert_eq!(config.expected_profile_duration_us, repetitions * 138_898);
    assert_eq!(expected_profile_duration_us(0x73), repetitions * 138_898);
    assert_eq!(config.heater_readback_valid_bitmap, 0x03ff);
    assert_eq!(config.calibration_hash_algorithm, 1);
    assert_eq!(config.calibration_hash, 0xfeed_f00d);
    assert_eq!(config.scan_interval_ms, 300_000);
    assert_eq!(config.config_repeat_interval_scans, 6);
    assert_eq!(config.radio_frequency_hz, 868_100_000);
    assert_eq!(config.radio_tx_power_dbm, 5);
    assert_eq!(config.radio_spreading_factor, 7);
    assert_eq!(config.radio_bandwidth_hz, 125_000);
    assert_eq!(config.radio_preamble_symbols, 8);
    assert_eq!(config.radio_sync_word, 0x1424);
    assert_eq!(config.max_frame_len, 231);
    assert_eq!(config.profile_steps_per_fragment, 3);
    assert_eq!(config.steps[0].target_temperature_celsius, 320);
    assert_eq!(
        config.steps[0].configured_duration_us,
        u32::from(PROFILE_REPETITION_MULTIPLIERS[0]) * 138_898
    );
    assert_eq!(config.steps[1].programmed_heater_resistance, 61);
    assert_eq!(config.steps[1].readback_heater_current, 0x30);

    let uart = device_config(&metadata(), &settings(OutputRoute::UartCobsCrc32));
    assert_eq!(uart.config_repeat_interval_scans, 1);
    assert_eq!(uart.output_routes, OutputRoute::UartCobsCrc32);
}

#[test]
fn unknown_build_id_is_reported_as_zero() {
    let mut settings = settings(OutputRoute::LoraP2p);
    settings.build.build_id_valid = false;
    settings.build.dirty = true;
    let config = device_config(&metadata(), &settings);
    assert_eq!(config.firmware_build_id, 0);
    assert!(!config.firmware_build_flags.id_valid);
    assert!(config.firmware_build_flags.dirty);
}

#[test]
fn disabled_heater_and_settings_are_read_back_as_they_are() {
    let mut metadata = metadata();
    metadata.readback.heater.control_gas_0 = 0x08;
    metadata.readback.environmental = Configuration {
        humidity_oversampling: Oversampling::X16,
        temperature_oversampling: Oversampling::X8,
        pressure_oversampling: Oversampling::X4,
        filter: Filter::Size127,
        standby_time: StandbyTime::Millis20,
    };
    let config = device_config(&metadata, &settings(OutputRoute::LoraP2p));
    assert_eq!(config.heater_enabled, 0);
    assert_eq!(config.humidity_oversampling, 5);
    assert_eq!(config.temperature_oversampling, 4);
    assert_eq!(config.pressure_oversampling, 3);
    assert_eq!(config.iir_filter, 7);
    assert_eq!(config.standby_time, 7);
}

#[test]
fn profile_record_carries_every_retained_value() {
    let config = device_config(&metadata(), &settings(OutputRoute::LoraP2p));
    let mut scan = clean_scan();
    scan.pre_scan_discarded_fields = 2;
    scan.profile.steps[9] = None;
    let wire = wire_profile_scan(&scan, &config);
    assert_eq!(wire.profile_id, 0x0354);
    assert_eq!(wire.expected_step_count, 10);
    assert_eq!(wire.observed_unique_step_count, 10);
    assert_eq!(wire.observed_field_count, 10);
    assert_eq!(wire.scan_duration_us, 10_500_000);
    assert_eq!(wire.poll_count, 104);
    // Dummy fields and drained fields share one count.
    assert_eq!(wire.intermediate_field_count, 19);
    assert!(wire.collection_flags.stale_pre_scan_fields);
    assert!(wire.steps[9].is_none());
    let step = match wire.steps[3] {
        Some(step) => step,
        None => panic!("the step was retained"),
    };
    assert_eq!(step.step_index, 3);
    assert_eq!(step.gas_index, 3);
    assert_eq!(step.measurement_index, 43);
    assert_eq!(step.offset_us, 4_000);
    assert_eq!(step.target_temperature_celsius, config.steps[3].target_temperature_celsius);
    assert_eq!(step.configured_duration_us, config.steps[3].configured_duration_us);
    assert_eq!(step.temperature_centi_celsius, 2_345);
    assert_eq!(step.pressure_pascal, 100_653);
    assert_eq!(step.humidity_milli_percent_rh, 45_678);
    assert_eq!(step.gas_resistance_ohm, 98_765);
    assert_eq!(step.gas_resistance_adc, 700);
    assert_eq!(step.heater_resistance, 121);

    scan.duration_us = u64::MAX;
    scan.profile.counters.intermediate_fields = u16::MAX;
    let wire = wire_profile_scan(&scan, &config);
    assert_eq!(wire.scan_duration_us, u32::MAX);
    assert_eq!(wire.intermediate_field_count, u16::MAX);
    assert!(wire.collection_flags.observation_overflow);
}

#[test]
fn every_quality_problem_sets_its_flag_and_ends_success() {
    assert!(scan_is_successful(&clean_scan()));
    let flags = collection_flags(&clean_scan());
    assert!(!flags.no_new_data && !flags.invalid_gas && !flags.config_mismatch);

    let mut scan = clean_scan();
    scan.profile.counters.overwritten_fields = 1;
    assert!(collection_flags(&scan).overwritten);
    assert!(!scan_is_successful(&scan));

    let mut scan = clean_scan();
    scan.profile.counters.invalid_gas_indexes = 1;
    assert!(collection_flags(&scan).gas_index_out_of_range);
    assert!(!scan_is_successful(&scan));

    for set in [
        (|c: &mut ProfileCounters| c.out_of_order_fields = 1) as fn(&mut ProfileCounters),
        |c| c.ambiguous_index_jumps = 1,
        |c| c.profile_rollovers = 1,
        |c| c.fields_after_rollover = 1,
    ] {
        let mut scan = clean_scan();
        set(&mut scan.profile.counters);
        assert!(collection_flags(&scan).measurement_discontinuity);
        assert!(!scan_is_successful(&scan));
    }

    let mut scan = clean_scan();
    scan.profile.heater_stable_mask = 0x01ff;
    assert!(collection_flags(&scan).heater_unstable);
    assert!(!scan_is_successful(&scan));

    let mut scan = clean_scan();
    scan.profile.observed_field_count_overflowed = true;
    assert!(collection_flags(&scan).observation_overflow);
    assert!(!scan_is_successful(&scan));

    let mut scan = clean_scan();
    scan.profile.gas_invalid_mask = 1;
    scan.profile.all_steps_gas_valid = false;
    assert!(collection_flags(&scan).invalid_gas);
    assert!(!scan_is_successful(&scan));

    // Repeated observations and a restored configuration stay usable.
    let mut scan = clean_scan();
    scan.profile.counters.duplicates = 3;
    scan.sensor_reconfigured = true;
    assert!(collection_flags(&scan).duplicate);
    assert!(collection_flags(&scan).sensor_reconfigured);
    assert!(scan_is_successful(&scan));
}

#[test]
fn finish_reasons_follow_the_collector_unless_the_sensor_failed() {
    let mut scan = clean_scan();
    assert_eq!(finish_reason(&scan), FinishReason::Complete);
    for (reason, expected) in [
        (Some(ProfileFinishReason::Timeout), FinishReason::Timeout),
        (Some(ProfileFinishReason::ProfileRollover), FinishReason::ProfileRollover),
        (Some(ProfileFinishReason::BusError), FinishReason::SensorError),
        (Some(ProfileFinishReason::SensorStopped), FinishReason::SensorError),
        (None, FinishReason::SensorError),
    ] {
        scan.profile.finish_reason = reason;
        assert_eq!(finish_reason(&scan), expected);
    }
    scan.profile.finish_reason = Some(ProfileFinishReason::Timeout);
    scan.poll_count = 150;
    assert_eq!(finish_reason(&scan), FinishReason::PollBudget);
    scan.sleep_error = Some(SensorError::new(Operation::ReturnToSleep, DriverError::Bus));
    assert_eq!(finish_reason(&scan), FinishReason::SensorError);
}

#[test]
fn first_scan_sends_configuration_profile_and_health() {
    let mut telemetry = telemetry(OutputRoute::LoraP2p);
    let counters = HealthCounters::default();
    let records = telemetry.encode_scan(&clean_scan(), &counters, 20_000, 20_001);
    assert_eq!(records.sequence, 0);
    let config = match records.config {
        Some(frame) => frame,
        None => panic!("the first configuration is pending"),
    };
    assert!(!config.repeated);
    assert_eq!(config.common.config_id, 0xabcd);
    assert_eq!(config.common.uptime_ms, 20_000);
    assert_eq!(records.profile.common.uptime_ms, 12_345);
    assert_eq!(records.profile.common.config_id, 0xabcd);
    assert_eq!(records.profile.common.boot_id, IDENTITY.boot_id);
    assert_eq!(records.profile.common.reset_cause_flags, 0x000c);
    let health = match records.health {
        Some(frame) => frame,
        None => panic!("the first scan carries health"),
    };
    assert_eq!(health.common.uptime_ms, 20_001);
    assert_eq!(health.health.reset_cause_raw, 0x0c00_0003);
    assert!(!health.health.flags.last_scan_incomplete);

    // Not delivered yet: the definition goes out again, still as a first one.
    let records = telemetry.encode_scan(&clean_scan(), &counters, 0, 0);
    assert_eq!(records.config.map(|frame| frame.repeated), Some(false));
    assert_eq!(records.health, None);
    telemetry.record_config_transmitted();
    let records = telemetry.encode_scan(&clean_scan(), &counters, 0, 0);
    assert_eq!(records.sequence, 2);
    assert_eq!(records.config, None);
    for expected in 3_u32..6 {
        let records = telemetry.encode_scan(&clean_scan(), &counters, 0, 0);
        assert_eq!(records.sequence, expected);
        assert_eq!(records.config, None);
        assert_eq!(records.health, None);
    }
    let records = telemetry.encode_scan(&clean_scan(), &counters, 0, 0);
    assert_eq!(records.sequence, 6);
    assert_eq!(records.config.map(|frame| frame.repeated), Some(true));
    assert!(records.health.is_some());
}

#[test]
fn training_stream_repeats_its_configuration_with_every_scan() {
    let mut telemetry = telemetry(OutputRoute::UartCobsCrc32);
    let counters = HealthCounters::default();
    telemetry.record_config_transmitted();
    for _ in 0..4 {
        let records = telemetry.encode_scan(&clean_scan(), &counters, 0, 0);
        assert_eq!(records.config.map(|frame| frame.repeated), Some(true));
    }
}

#[test]
fn unverified_scan_names_no_configuration() {
    let mut telemetry = telemetry(OutputRoute::LoraP2p);
    let records = telemetry.encode_scan(&unverified_scan(), &HealthCounters::default(), 0, 0);
    assert_eq!(records.config, None);
    assert_eq!(records.profile.common.config_id, 0);
    assert!(records.profile.scan.collection_flags.config_mismatch);
    match records.health {
        Some(frame) => {
            assert_eq!(frame.common.config_id, 0);
            assert!(frame.health.flags.config_mismatch);
            assert!(frame.health.flags.last_scan_incomplete);
        }
        None => panic!("scan zero carries health"),
    }
}

#[test]
fn health_names_the_configuration_only_after_a_matching_recovery() {
    let mut scan = clean_scan();
    scan.collection_error = Some(SensorError::new(Operation::DataRead, DriverError::Bus));
    scan.post_scan_configuration_checked = true;
    let counters = HealthCounters::default();
    let settings = settings(OutputRoute::LoraP2p);
    let health = device_health(&counters, 1, IDENTITY, &scan, &settings);
    assert!(health.flags.config_mismatch);

    scan.post_scan_configuration_verified = true;
    let mut drifted = metadata();
    drifted.readback.heater.registers.current = [0x55; 10];
    scan.post_scan_metadata = Some(drifted);
    let health = device_health(&counters, 1, IDENTITY, &scan, &settings);
    assert!(!health.flags.config_mismatch);

    drifted.calibration_fingerprint = 1;
    scan.post_scan_metadata = Some(drifted);
    let health = device_health(&counters, 1, IDENTITY, &scan, &settings);
    assert!(health.flags.config_mismatch);
}

#[test]
fn boot_without_a_nonce_reports_zero() {
    let identity = DeviceIdentity {
        boot_id: 0,
        boot_id_valid: false,
        boot_id_from_hardware_rng: false,
        ..IDENTITY
    };
    let settings = settings(OutputRoute::LoraP2p);
    let mut telemetry = match Telemetry::new(identity, RESET, settings, &metadata(), Ok(1)) {
        Ok(telemetry) => telemetry,
        Err(_) => panic!("the codec identified the configuration"),
    };
    let records = telemetry.encode_scan(&clean_scan(), &HealthCounters::default(), 0, 0);
    assert!(!records.profile.common.boot_id_valid);
    assert_eq!(records.profile.common.boot_id, 0);
    match records.health {
        Some(frame) => assert!(frame.health.flags.boot_id_unavailable),
        None => panic!("scan zero carries health"),
    }
}

#[test]
fn refused_configuration_establishes_nothing() {
    let settings = settings(OutputRoute::LoraP2p);
    assert_eq!(
        Telemetry::new(IDENTITY, RESET, settings, &metadata(), Err(CodecError)),
        Err(CodecError)
    );
    let mut telemetry = telemetry(OutputRoute::LoraP2p);
    let before = telemetry;
    assert_eq!(
        telemetry.refresh_configuration(&metadata(), Err(CodecError)),
        Err(CodecError)
    );
    assert_eq!(telemetry, before);
}

#[test]
fn drifting_currents_keep_the_canonical_configuration() {
    let telemetry = telemetry(OutputRoute::LoraP2p);
    let mut drifted = metadata();
    drifted.readback.heater.registers.current = [0x99; 10];
    assert_eq!(telemetry.canonical_configuration(&drifted), telemetry.config);
    assert_ne!(device_config(&drifted, &telemetry.settings), telemetry.config);
    drifted.readback.heater.registers.gas_wait[0] ^= 1;
    assert_ne!(telemetry.canonical_configuration(&drifted), telemetry.config);
}

#[test]
fn changed_configuration_is_sent_with_the_same_scan() {
    let mut node = node(OutputRoute::LoraP2p);
    node.telemetry.record_config_transmitted();
    node.telemetry.record_unencoded_scan();
    let mut changed = metadata();
    changed.calibration_fingerprint = 2;
    let mut scan = clean_scan();
    scan.pre_trigger_metadata = Some(changed);
    match node.scan_finished(&scan, 5, 6) {
        CyclePhase::Identify { config } => assert_eq!(config.calibration_hash, 2),
        _ => panic!("a verified scan is identified first"),
    }
    let records = match node.configuration_identified(&scan, &changed, Ok(0xdcba), 5, 6) {
        CyclePhase::Encode { records } => records,
        _ => panic!("an identified scan is encoded"),
    };
    assert_eq!(records.sequence, 1);
    match records.config {
        Some(frame) => {
            assert!(!frame.repeated);
            assert_eq!(frame.common.config_id, 0xdcba);
            assert_eq!(frame.config.calibration_hash, 2);
        }
        None => panic!("a new definition is forced"),
    }
    assert_eq!(records.profile.common.config_id, 0xdcba);
    assert_eq!(
        node.records_encoded(&records, Ok(4)),
        CyclePhase::Emit {
            config_included: true,
            fragment_count: 4
        }
    );
}

#[test]
fn refusals_and_failed_scans_leave_a_gap_in_the_sequence() {
    let mut node = node(OutputRoute::LoraP2p);
    node.record_collector_failure();
    assert_eq!(node.telemetry.next_scan_sequence, 1);
    assert_eq!(node.counters.failed_sensor_scans, 1);
    assert_eq!(node.counters.incomplete_profiles, 1);
    assert_eq!(node.counters.dropped_profiles, 1);
    assert_eq!(node.counters.dropped_fragments, 4);

    let scan = clean_scan();
    let metadata = metadata();
    assert!(matches!(node.scan_finished(&scan, 0, 0), CyclePhase::Identify { .. }));
    assert_eq!(
        node.configuration_identified(&scan, &metadata, Err(CodecError), 0, 0),
        CyclePhase::Wait
    );
    assert_eq!(node.telemetry.next_scan_sequence, 2);
    assert_eq!(node.counters.successful_sensor_scans, 1);
    assert_eq!(node.counters.dropped_profiles, 2);

    let records = match node.scan_finished(&unverified_scan(), 0, 0) {
        CyclePhase::Encode { records } => records,
        _ => panic!("an unverified scan is encoded as it is"),
    };
    assert_eq!(records.sequence, 2);
    assert_eq!(node.records_encoded(&records, Err(CodecError)), CyclePhase::Wait);
    assert_eq!(node.counters.dropped_fragments, 12);
    assert_eq!(node.telemetry.next_scan_sequence, 3);

    let mut orphan = clean_scan();
    orphan.pre_trigger_metadata = None;
    assert_eq!(node.scan_finished(&orphan, 0, 0), CyclePhase::Wait);
    assert_eq!(node.telemetry.next_scan_sequence, 4);
}

#[test]
fn marker_is_cleared_by_full_delivery_of_a_usable_profile_alone() {
    let mut marked = clean_scan();
    marked.sensor_reconfigured = true;
    let mut unusable = marked;
    unusable.profile.counters.overwritten_fields = 1;
    let delivered: Result<EmitReport, EmitError<u8>> = Ok(EmitReport {
        completed_records: 6,
        requested_records: 6,
    });
    let partial = |completed_records: u8| -> Result<EmitReport, EmitError<u8>> {
        Err(EmitError {
            completed_records,
            requested_records: 6,
            source: Source::Radio(TransmissionError {
                source: 9,
                completed_packets: completed_records,
            }),
        })
    };

    let mut node = node(OutputRoute::LoraP2p);
    node.sensor.reconfiguration_marker_pending = true;
    node.batch_emitted(&unusable, true, 4, &delivered);
    assert!(node.sensor.reconfiguration_marker_pending);
    node.batch_emitted(&marked, true, 4, &partial(4));
    assert!(node.sensor.reconfiguration_marker_pending);
    node.batch_emitted(&clean_scan(), true, 4, &delivered);
    assert!(node.sensor.reconfiguration_marker_pending);
    // Health alone was lost: the profile itself arrived.
    node.batch_emitted(&marked, true, 4, &partial(5));
    assert!(!node.sensor.reconfiguration_marker_pending);
    node.sensor.reconfiguration_marker_pending = true;
    node.batch_emitted(&marked, false, 4, &delivered);
    assert!(!node.sensor.reconfiguration_marker_pending);
}

#[test]
fn emitted_batches_are_accounted_exactly() {
    let mut node = node(OutputRoute::LoraP2p);
    let failed = |completed_records: u8| -> Result<EmitReport, EmitError<u8>> {
        Err(EmitError {
            completed_records,
            requested_records: 6,
            source: Source::Radio(TransmissionError {
                source: 9,
                completed_packets: completed_records,
            }),
        })
    };
    node.batch_emitted(&clean_scan(), true, 4, &failed(0));
    assert_eq!(node.counters.radio_tx_errors, 1);
    assert_eq!(node.counters.last_radio_error, 1);
    assert_eq!(node.counters.dropped_profiles, 1);
    assert_eq!(node.counters.dropped_fragments, 4);
    // The configuration went out with this one.
    node.batch_emitted(&clean_scan(), true, 4, &failed(3));
    assert_eq!(node.counters.dropped_fragments, 6);
    let records = node.telemetry.encode_scan(&clean_scan(), &node.counters, 0, 0);
    assert_eq!(records.config.map(|frame| frame.repeated), Some(true));
    // A periodic repeat stays due until it is delivered too.
    let records = node.telemetry.encode_scan(&clean_scan(), &node.counters, 0, 0);
    assert_eq!(records.config.map(|frame| frame.repeated), Some(true));
    node.telemetry.record_config_transmitted();
    let records = node.telemetry.encode_scan(&clean_scan(), &node.counters, 0, 0);
    assert_eq!(records.config, None);
    node.batch_emitted(&clean_scan(), false, 4, &failed(4));
    assert_eq!(node.counters.dropped_profiles, 2);
    assert_eq!(node.counters.radio_tx_errors, 3);
    let framing: Result<EmitReport, EmitError<u8>> = Err(EmitError {
        completed_records: 0,
        requested_records: 7,
        source: Source::TooManyRecords,
    });
    node.batch_emitted(&clean_scan(), false, 4, &framing);
    assert_eq!(node.counters.radio_tx_errors, 3);
    let delivered: Result<EmitReport, EmitError<u8>> = Ok(EmitReport {
        completed_records: 4,
        requested_records: 4,
    });
    node.batch_emitted(&clean_scan(), false, 4, &delivered);
    assert_eq!(node.counters.last_radio_error, 0);
    assert_eq!(node.counters.radio_tx_errors, 3);
}

#[test]
fn uart_build_never_accounts_to_the_radio() {
    let mut node = node(OutputRoute::UartCobsCrc32);
    let failed: Result<EmitReport, EmitError<u8>> = Err(EmitError {
        completed_records: 1,
        requested_records: 6,
        source: Source::UartWrite(3),
    });
    node.batch_emitted(&clean_scan(), true, 4, &failed);
    assert_eq!(node.counters.radio_tx_errors, 0);
    assert_eq!(node.counters.last_radio_error, 0);
    assert_eq!(node.counters.dropped_fragments, 4);
}

#[test]
fn every_scan_is_counted_once() {
    let mut counters = HealthCounters::default();
    counters.record_scan(&clean_scan());
    assert_eq!(counters.successful_sensor_scans, 1);
    assert!(!counters.sensor_errors_seen);
    let mut failed = clean_scan();
    failed.collection_error = Some(SensorError::new(Operation::DataRead, DriverError::Bus));
    failed.profile.counters.overwritten_fields = 7;
    failed.configuration_i2c_errors = 2;
    counters.record_scan(&failed);
    assert_eq!(counters.successful_sensor_scans, 1);
    assert_eq!(counters.failed_sensor_scans, 1);
    assert_eq!(counters.incomplete_profiles, 1);
    assert_eq!(counters.i2c_errors, 3);
    assert_eq!(counters.overwritten_fields, 7);
    assert_eq!(counters.last_sensor_error, 6);
    assert!(counters.sensor_errors_seen);

    counters.i2c_errors = u32::MAX - 1;
    assert!(!counters.any_counter_saturated());
    counters.record_scan(&failed);
    assert_eq!(counters.i2c_errors, u32::MAX);
    assert!(counters.any_counter_saturated());
    counters.record_codec_drop(4);
    assert_eq!(counters.dropped_profiles, 1);
    assert_eq!(counters.dropped_fragments, 4);
}

#[test]
fn latest_failure_outranks_earlier_ones() {
    let mut scan = clean_scan();
    scan.configuration_error_code = 4;
    assert_eq!(scan.last_error_code(), 4);
    scan.collection_error = Some(SensorError::new(Operation::DataRead, DriverError::Timeout));
    assert_eq!(scan.last_error_code(), 6);
    assert_eq!(scan.i2c_error_count(), 0);
    scan.sleep_error = Some(SensorError::new(Operation::ReturnToSleep, DriverError::Bus));
    assert_eq!(scan.last_error_code(), 7);
    scan.post_scan_configuration_error_code = 3;
    assert_eq!(scan.last_error_code(), 3);
    scan.configuration_i2c_errors = u32::MAX;
    assert_eq!(scan.i2c_error_count(), u32::MAX);
}

#[test]
fn startup_retries_until_the_configuration_is_exact() {
    let settings = settings(OutputRoute::LoraP2p);
    let context = degraded_context(IDENTITY, RESET, &settings);
    assert_eq!(context.sample_interval_ms, 300_000);
    assert_eq!(context.reset_cause_raw, RESET.raw);
    let mut startup = Startup::new(context, OutputRoute::LoraP2p);
    assert_eq!(startup.health_record(1), None);

    assert!(startup.advance(StartupEvent::ProbeFailed));
    assert_eq!(startup.stage, StartupStage::Probe);
    let record = match startup.health_record(77) {
        Some(record) => record,
        None => panic!("a failed startup reports health"),
    };
    assert_eq!(record.sequence, 0);
    assert_eq!(record.frame.common.uptime_ms, 77);
    assert_eq!(record.frame.health.i2c_errors, 2);
    startup.emit_degraded_health_once(HealthDelivery::Failed { radio: true });

    assert!(!startup.advance(StartupEvent::ProbeSucceeded));
    assert_eq!(startup.stage, StartupStage::Initialize);
    assert!(!startup.advance(StartupEvent::Initialized));
    let error = SensorError::new(Operation::HeaterConfiguration, DriverError::Bus);
    assert!(startup.advance(StartupEvent::ConfigurationFailed { error }));
    assert_eq!(startup.stage, StartupStage::Configure);
    assert!(startup.advance(StartupEvent::Configured { metadata: None }));
    let mut inexact = metadata();
    inexact.exact_configuration_verified = false;
    assert!(startup.advance(StartupEvent::Configured {
        metadata: Some(inexact)
    }));
    assert_eq!(startup.stage, StartupStage::Configure);
    assert!(!startup.advance(StartupEvent::Configured {
        metadata: Some(metadata())
    }));
    assert_eq!(startup.stage, StartupStage::Establish);
    assert!(startup.advance(StartupEvent::TelemetryRefused));
    assert_eq!(startup.stage, StartupStage::Configure);
    assert!(!startup.advance(StartupEvent::Configured {
        metadata: Some(metadata())
    }));
    assert!(!startup.advance(StartupEvent::TelemetryEstablished));
    assert_eq!(startup.stage, StartupStage::Running);

    let counters = startup.initial_counters();
    assert!(counters.sensor_errors_seen);
    assert_eq!(counters.i2c_errors, 3);
    assert_eq!(counters.radio_tx_errors, 1);
    assert_eq!(counters.last_radio_error, 1);
    assert_eq!(counters.last_sensor_error, 0x0202);
    assert_eq!(counters.failed_sensor_scans, 0);
}

#[test]
fn failed_initialization_needs_a_reset() {
    let settings = settings(OutputRoute::UartCobsCrc32);
    let context = degraded_context(IDENTITY, RESET, &settings);
    let mut startup = Startup::new(context, OutputRoute::UartCobsCrc32);
    assert_eq!(startup.initial_counters(), HealthCounters::default());
    startup.advance(StartupEvent::ProbeSucceeded);
    let error = SensorError::new(
        Operation::Initialization,
        DriverError::UnexpectedChipId { found: 0 },
    );
    assert!(startup.advance(StartupEvent::InitializationFailed { error }));
    assert_eq!(startup.stage, StartupStage::ResetRequired);
    let sequences: Vec<u32> = (0..3)
        .filter_map(|uptime| startup.health_record(uptime).map(|record| record.sequence))
        .collect();
    assert_eq!(sequences, vec![0, 1, 2]);
    // A training build has no radio to blame.
    startup.emit_degraded_health_once(HealthDelivery::Failed { radio: true });
    startup.emit_degraded_health_once(HealthDelivery::Refused);
    let counters = startup.initial_counters();
    assert_eq!(counters.radio_tx_errors, 0);
    assert_eq!(counters.last_sensor_error, 1);
    assert_eq!(startup.reporter.map(|reporter| reporter.output_failures()), Some(2));
}

#[test]
fn delivered_health_settles_the_radio_but_keeps_its_count() {
    let settings = settings(OutputRoute::LoraP2p);
    let context = degraded_context(IDENTITY, RESET, &settings);
    let mut startup = Startup::new(context, OutputRoute::LoraP2p);
    startup.advance(StartupEvent::ProbeFailed);
    startup.emit_degraded_health_once(HealthDelivery::Failed { radio: true });
    startup.emit_degraded_health_once(HealthDelivery::Delivered);
    let counters = startup.initial_counters();
    assert_eq!(counters.radio_tx_errors, 1);
    assert_eq!(counters.last_radio_error, 0);
}

#[test]
fn flag_words_hold_one_bit_for_each_condition() {
    let flags = BuildFlags {
        id_valid: true,
        dirty: false,
        debug_sleep: true,
    };
    let bits = BuildFlagBits {
        id_valid: 1,
        dirty: 2,
        debug_sleep: 4,
    };
    assert_eq!(flags.bits(bits), 5);

    let settings = settings(OutputRoute::LoraP2p);
    let config = device_config(&metadata(), &settings);
    let bits = ConfigFlagBits {
        calibration_hash_valid: 1,
        sensor_config_read_back: 4,
    };
    assert_eq!(config.flags.bits(bits), 5);
    let mut counters = HealthCounters::default();
    counters.sensor_errors_seen = true;
    counters.radio_tx_errors = u32::MAX;
    let health = device_health(&counters, 0, IDENTITY, &unverified_scan(), &settings);
    let bits = HealthFlagBits {
        counters_saturated: 1,
        boot_id_unavailable: 2,
        config_mismatch: 4,
        last_scan_incomplete: 8,
        sensor_error_seen: 16,
        radio_error_seen: 32,
    };
    assert_eq!(health.flags.bits(bits), 1 + 4 + 8 + 16 + 32);

    let mut scan = unverified_scan();
    scan.pre_scan_discarded_fields = 1;
    scan.profile.counters.duplicates = 1;
    let bits = CollectionFlagBits {
        timeout: 1,
        poll_budget_exhausted: 1 << 1,
        i2c_error: 1 << 2,
        duplicate: 1 << 3,
        overwritten: 1 << 4,
        gas_index_out_of_range: 1 << 5,
        measurement_discontinuity: 1 << 6,
        no_new_data: 1 << 7,
        invalid_gas: 1 << 8,
        heater_unstable: 1 << 9,
        observation_overflow: 1 << 10,
        stale_pre_scan_fields: 0x2000,
        config_mismatch: 1 << 11,
        sensor_reconfigured: 1 << 12,
    };
    assert_eq!(collection_flags(&scan).bits(bits), (1 << 3) | 0x2000 | (1 << 11));
}

#[test]
fn reset_flags_of_records_come_from_the_status_register() {
    let status = ResetStatus {
        radio_illegal: false,
        option_byte: false,
        pin: true,
        brown_out: true,
        software: false,
        independent_watchdog: false,
        window_watchdog: false,
        low_power: false,
    };
    assert_eq!(ResetCause::capture(0x0c00_0003, status), RESET);
}
