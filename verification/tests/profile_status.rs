use vesta::driver::{
    Configuration, FixedMeasurement, HeaterConfigurationReadback, HeaterRegisters,
    MAX_PROFILE_STEPS, Measurement, OperationMode, ProfileStep, RawMeasurement,
    SensorConfigurationReadback,
};
use vesta::profile_status::{
    CanonicalIdacSnapshot, ConfigurationFlags, DeviceConfigDeliveryState,
    EMERGENCY_SLEEP_RETRY_LIMIT, EmergencySleepRetryProgress, LORA_CONFIG_REPEAT_INTERVAL_SCANS,
    ProfileQualityEvidence, VERIFY_CONFIGURATION_BEFORE_EVERY_SCAN, carry_pending_reconfiguration,
    configuration_check_due, configuration_collection_flags, device_config_encode_state,
    device_config_pending_after_delivery, discarded_field_count_overflowed,
    health_configuration_identity_available, logical_profile_success, profile_delivery_complete,
    reconfiguration_marker_after_delivery, reconfiguration_marker_after_programming_attempt,
    sensor_readback_identity_eq, total_discarded_field_count, wire_config_id, wire_profile_step,
};
use vesta::protocol::{
    BuildFlags, COLLECTION_FLAG_STALE_PRE_SCAN_FIELDS, ConfigFlags, DeviceConfig, HeaterStepConfig,
    OutputRoute,
};

const GOOD: ProfileQualityEvidence = ProfileQualityEvidence {
    sensor_failed: false,
    i2c_error_count: 0,
    structurally_complete: true,
    finish_complete: true,
    all_steps_gas_valid: true,
    all_steps_heater_stable: true,
    overwritten_field_count: 0,
    invalid_gas_index_count: 0,
    measurement_discontinuity: false,
    observation_overflowed: false,
    stale_pre_scan_field_count: 0,
};

fn device_config_fixture() -> DeviceConfig {
    let mut steps = [HeaterStepConfig::default(); MAX_PROFILE_STEPS];
    for (index, step) in steps.iter_mut().enumerate() {
        let index = u8::try_from(index).unwrap();
        *step = HeaterStepConfig {
            target_temperature_celsius: 100 + u16::from(index) * 20,
            configured_duration_us: 138_898 * (u32::from(index) + 1),
            repetition_multiplier: index + 1,
            readback_heater_current: 95 + index,
            programmed_heater_resistance: 110 + index,
            programmed_gas_wait: 80 + index,
        };
    }
    DeviceConfig {
        flags: ConfigFlags {
            calibration_hash_valid: true,
            sensor_config_read_back: true,
        },
        firmware_version: [0, 2, 0],
        firmware_build_flags: BuildFlags {
            id_valid: true,
            dirty: false,
            debug_sleep: false,
        },
        firmware_build_id: 0xee37_2943_3e6a_79f7,
        sensor_chip_id: 0x61,
        sensor_variant: 1,
        sensor_i2c_address: 0x76,
        temperature_oversampling: 2,
        humidity_oversampling: 1,
        pressure_oversampling: 5,
        iir_filter: 0,
        standby_time: 0,
        operation_mode: 2,
        heater_enabled: 1,
        parallel_requested_shared_wait_ms: 99,
        parallel_shared_wait_register: 0x73,
        parallel_quantized_shared_wait_us: 97_308,
        tphg_duration_us: 41_590,
        expected_profile_duration_us: 10_695_146,
        profile_id: 0x0354,
        profile_version: 1,
        expected_step_count: 10,
        heater_readback_valid_bitmap: 0x03ff,
        calibration_hash_algorithm: 1,
        calibration_hash: 0xb0b1_b2b3_b4b5_b6b7,
        scan_interval_ms: 180_000,
        config_repeat_interval_scans: LORA_CONFIG_REPEAT_INTERVAL_SCANS,
        output_routes: OutputRoute::LoraP2p,
        radio_frequency_hz: 868_100_000,
        radio_tx_power_dbm: 5,
        radio_spreading_factor: 7,
        radio_bandwidth_hz: 125_000,
        radio_coding_rate_numerator: 4,
        radio_coding_rate_denominator: 5,
        radio_preamble_symbols: 8,
        radio_header_mode: 0,
        radio_phy_crc_enabled: 1,
        radio_iq_inverted: 0,
        radio_sync_word: 0x1424,
        max_frame_len: 231,
        profile_steps_per_fragment: 3,
        steps,
    }
}

/// Stands for the codec's configuration ID: equal for equal configurations, and
/// different for the ones compared here.
fn config_id(canonical: CanonicalIdacSnapshot, config: &mut DeviceConfig) -> u64 {
    canonical.apply_to(config);
    let mut hash = 0xcbf2_9ce4_8422_2325_u64;
    for byte in format!("{config:?}").bytes() {
        hash ^= u64::from(byte);
        hash = hash.wrapping_mul(0x0000_0100_0000_01b3);
    }
    hash
}

fn blank_measurement() -> Measurement {
    Measurement {
        status: 0,
        raw_field_status: 0,
        raw_gas_status: 0,
        gas_index: 0,
        measurement_index: 0,
        heater_resistance: 0,
        heater_current: 0,
        gas_wait: 0,
        raw: RawMeasurement {
            temperature_adc: 0,
            pressure_adc: 0,
            humidity_adc: 0,
            gas_resistance_adc: 0,
            gas_range: 0,
        },
        values: FixedMeasurement {
            temperature: 0,
            pressure: 0,
            humidity: 0,
            gas_resistance: 0,
        },
    }
}

fn idac_values(config: &DeviceConfig) -> [u8; MAX_PROFILE_STEPS] {
    std::array::from_fn(|index| config.steps[index].readback_heater_current)
}

#[test]
fn timeout_with_all_slots_is_still_incomplete() {
    assert!(!logical_profile_success(ProfileQualityEvidence {
        finish_complete: false,
        ..GOOD
    }));
}

#[test]
fn complete_profile_with_invalid_gas_is_still_incomplete() {
    assert!(!logical_profile_success(ProfileQualityEvidence {
        all_steps_gas_valid: false,
        ..GOOD
    }));
}

#[test]
fn only_exact_complete_valid_profile_is_successful() {
    assert!(logical_profile_success(GOOD));
    assert!(!logical_profile_success(ProfileQualityEvidence {
        sensor_failed: true,
        ..GOOD
    }));
    assert!(!logical_profile_success(ProfileQualityEvidence {
        structurally_complete: false,
        ..GOOD
    }));
}

#[test]
fn heater_unstable_profile_is_not_successful() {
    assert!(!logical_profile_success(ProfileQualityEvidence {
        all_steps_heater_stable: false,
        ..GOOD
    }));
}

#[test]
fn overwrite_or_discontinuity_is_not_successful() {
    assert!(!logical_profile_success(ProfileQualityEvidence {
        overwritten_field_count: 1,
        ..GOOD
    }));
    assert!(!logical_profile_success(ProfileQualityEvidence {
        measurement_discontinuity: true,
        ..GOOD
    }));
    assert!(!logical_profile_success(ProfileQualityEvidence {
        invalid_gas_index_count: 1,
        ..GOOD
    }));
    assert!(!logical_profile_success(ProfileQualityEvidence {
        observation_overflowed: true,
        ..GOOD
    }));
}

#[test]
fn recovered_preflight_i2c_error_is_not_successful() {
    assert!(!logical_profile_success(ProfileQualityEvidence {
        i2c_error_count: 1,
        ..GOOD
    }));
}

#[test]
fn stale_pre_scan_field_is_not_successful() {
    assert!(!logical_profile_success(ProfileQualityEvidence {
        stale_pre_scan_field_count: 1,
        ..GOOD
    }));
}

#[test]
fn config_record_is_due_on_each_repeat_boundary() {
    assert!(configuration_check_due(0, 6));
    assert!(!configuration_check_due(5, 6));
    assert!(configuration_check_due(6, 6));
    assert!(!configuration_check_due(6, 0));
}

#[test]
fn changed_verified_config_is_forced_but_mismatch_is_never_advertised() {
    assert_eq!(
        device_config_encode_state(true, configuration_check_due(5, 6), true),
        (true, true)
    );
    assert_eq!(
        device_config_encode_state(false, configuration_check_due(5, 6), true),
        (false, false)
    );
    assert_eq!(
        device_config_encode_state(true, configuration_check_due(6, 6), false),
        (false, true)
    );
}

#[test]
fn initial_config_failure_retries_until_first_record_completes() {
    let (included, pending) = device_config_encode_state(true, true, true);
    assert!(included);
    assert!(device_config_pending_after_delivery(pending, false));
    let (retry, pending) = device_config_encode_state(pending, false, true);
    assert!(retry);
    assert!(!device_config_pending_after_delivery(pending, true));
}

#[test]
fn cadence_or_later_codec_failure_keeps_config_pending() {
    let (included, pending) = device_config_encode_state(false, true, true);
    assert!(included);
    // No transport occurred after a later profile/health codec failure.
    assert!(pending);
    let (retry, _) = device_config_encode_state(pending, false, true);
    assert!(retry);
}

#[test]
fn pending_config_waits_through_config_mismatch() {
    let (included, pending) = device_config_encode_state(true, true, false);
    assert!(!included);
    assert!(pending);
}

#[test]
fn config_repeat_metadata_tracks_exact_id_delivery_not_scan_sequence() {
    let mut state = DeviceConfigDeliveryState::new();

    // Startup attempt and retry are both the first definition until the
    // config-first record actually completes.
    assert_eq!(state.prepare_encode(true, true), (true, false));
    assert_eq!(state.prepare_encode(false, true), (true, false));
    state.record_completed();

    // A periodic record of the same delivered ID is a repeat.
    assert_eq!(state.prepare_encode(true, true), (true, true));
    state.record_completed();

    // A changed mid-boot ID is new again. Codec/output failure leaves it
    // first/non-repeated on the retry despite a nonzero scan sequence.
    state.record_id_change();
    assert_eq!(state.prepare_encode(false, true), (true, false));
    assert_eq!(state.prepare_encode(false, true), (true, false));
    state.record_completed();
    assert_eq!(state.prepare_encode(true, true), (true, true));
}

#[test]
fn idac_only_drift_keeps_config_id_and_delivery_idle() {
    let mut initial = device_config_fixture();
    let canonical = CanonicalIdacSnapshot::capture(idac_values(&initial));
    let initial_id = config_id(canonical, &mut initial);

    let mut delivery = DeviceConfigDeliveryState::new();
    assert_eq!(delivery.prepare_encode(true, true), (true, false));
    delivery.record_completed();

    let mut later = initial;
    for (index, step) in later.steps.iter_mut().enumerate() {
        step.readback_heater_current = step
            .readback_heater_current
            .wrapping_add(u8::try_from(index % 3 + 1).unwrap());
    }
    let latest_raw_current = later.steps[1].readback_heater_current;
    let later_id = config_id(canonical, &mut later);

    assert_eq!(later_id, initial_id);
    assert_eq!(idac_values(&later), idac_values(&initial));
    assert!(!delivery.record_id_change_if_needed(initial_id, later_id));
    assert_eq!(delivery.prepare_encode(false, true), (false, true));
    let emitted = wire_profile_step(
        1,
        ProfileStep {
            measurement: Measurement {
                heater_current: latest_raw_current,
                ..blank_measurement()
            },
            observed_offset_us: 123_456,
        },
        later.steps[1],
    );
    assert_eq!(emitted.heater_current, latest_raw_current);
    assert_ne!(
        emitted.heater_current,
        later.steps[1].readback_heater_current
    );
}

#[test]
fn res_heat_or_gas_wait_change_forces_new_non_repeated_config() {
    for mutate in [
        |config: &mut DeviceConfig| {
            config.steps[0].programmed_heater_resistance ^= 1;
        },
        |config: &mut DeviceConfig| {
            config.steps[0].programmed_gas_wait ^= 1;
        },
    ] {
        let mut initial = device_config_fixture();
        let canonical = CanonicalIdacSnapshot::capture(idac_values(&initial));
        let initial_id = config_id(canonical, &mut initial);
        let mut changed = initial;
        mutate(&mut changed);
        let changed_id = config_id(canonical, &mut changed);

        assert_ne!(changed_id, initial_id);
        let mut delivery = DeviceConfigDeliveryState::new();
        delivery.record_completed();
        assert!(delivery.record_id_change_if_needed(initial_id, changed_id));
        assert_eq!(delivery.prepare_encode(false, true), (true, false));
    }
}

#[test]
fn unchanged_config_repeats_only_at_six_scan_boundary() {
    let mut delivery = DeviceConfigDeliveryState::new();
    assert_eq!(delivery.prepare_encode(true, true), (true, false));
    delivery.record_completed();

    for sequence in 1..LORA_CONFIG_REPEAT_INTERVAL_SCANS as u32 {
        assert_eq!(
            delivery.prepare_encode(
                configuration_check_due(sequence, LORA_CONFIG_REPEAT_INTERVAL_SCANS),
                true,
            ),
            (false, true)
        );
    }
    assert_eq!(
        delivery.prepare_encode(
            configuration_check_due(
                u32::from(LORA_CONFIG_REPEAT_INTERVAL_SCANS),
                LORA_CONFIG_REPEAT_INTERVAL_SCANS,
            ),
            true,
        ),
        (true, true)
    );
}

#[test]
fn sensor_readback_identity_ignores_only_idac() {
    let mut initial = SensorConfigurationReadback {
        operation_mode: OperationMode::Sleep,
        environmental: Configuration::default(),
        heater: HeaterConfigurationReadback {
            registers: HeaterRegisters {
                current: [0; MAX_PROFILE_STEPS],
                resistance: [0; MAX_PROFILE_STEPS],
                gas_wait: [0; MAX_PROFILE_STEPS],
                shared_duration: 0,
            },
            control_gas_0: 0,
            control_gas_1: 0,
        },
    };
    initial.heater.registers.current = [95; MAX_PROFILE_STEPS];
    initial.heater.registers.resistance = [110; MAX_PROFILE_STEPS];
    initial.heater.registers.gas_wait = [80; MAX_PROFILE_STEPS];
    initial.heater.registers.shared_duration = 0x73;

    let mut changed = initial;
    changed.heater.registers.current = [172; MAX_PROFILE_STEPS];
    assert!(sensor_readback_identity_eq(&initial, &changed));

    changed.heater.registers.resistance[0] ^= 1;
    assert!(!sensor_readback_identity_eq(&initial, &changed));
    changed = initial;
    changed.heater.registers.gas_wait[0] ^= 1;
    assert!(!sensor_readback_identity_eq(&initial, &changed));
}

#[test]
fn config_delivery_state_waits_through_unverified_scan() {
    let mut state = DeviceConfigDeliveryState::new();
    assert_eq!(state.prepare_encode(true, false), (false, false));
    assert_eq!(state.prepare_encode(false, true), (true, false));
}

#[test]
fn sensor_configuration_is_verified_before_every_scan() {
    assert!(std::hint::black_box(
        VERIFY_CONFIGURATION_BEFORE_EVERY_SCAN
    ));
}

#[test]
fn configuration_flags_do_not_claim_failed_recovery() {
    assert_eq!(
        configuration_collection_flags(false, true),
        ConfigurationFlags {
            config_mismatch: true,
            sensor_reconfigured: false,
        }
    );
    assert_eq!(
        configuration_collection_flags(true, true),
        ConfigurationFlags {
            config_mismatch: false,
            sensor_reconfigured: true,
        }
    );
    assert_eq!(
        configuration_collection_flags(true, false),
        ConfigurationFlags {
            config_mismatch: false,
            sensor_reconfigured: false,
        }
    );
}

#[test]
fn post_scan_reconfiguration_is_carried_only_by_next_verified_scan() {
    assert_eq!(
        carry_pending_reconfiguration(true, false, false, false),
        (false, true)
    );
    assert_eq!(
        carry_pending_reconfiguration(true, true, false, true),
        (true, true)
    );
    assert_eq!(
        carry_pending_reconfiguration(false, true, true, true),
        (true, true)
    );
}

#[test]
fn failed_programming_verification_preserves_future_history_marker() {
    assert!(reconfiguration_marker_after_programming_attempt(
        false, true
    ));
    assert!(reconfiguration_marker_after_programming_attempt(
        true, false
    ));
    assert!(!reconfiguration_marker_after_programming_attempt(
        false, false
    ));
}

#[test]
fn drain_or_trigger_failure_does_not_consume_reconfiguration_marker() {
    assert_eq!(
        carry_pending_reconfiguration(true, true, false, false),
        (false, true)
    );
    assert_eq!(
        carry_pending_reconfiguration(false, true, true, false),
        (false, true)
    );
}

#[test]
fn marker_survives_bad_or_partial_delivery_then_clears_after_full_good_profile() {
    let (bad_marked, pending) = carry_pending_reconfiguration(true, true, false, true);
    assert!(bad_marked);
    let pending = reconfiguration_marker_after_delivery(pending, bad_marked, false, true);
    assert!(pending);

    let (good_marked, pending) = carry_pending_reconfiguration(pending, true, false, true);
    assert!(good_marked);
    assert!(!reconfiguration_marker_after_delivery(
        pending,
        good_marked,
        true,
        true
    ));
}

#[test]
fn profile_delivery_accounts_for_optional_config_and_ignores_later_health() {
    assert!(!profile_delivery_complete(true, 4, 4));
    assert!(profile_delivery_complete(true, 4, 5));
    assert!(profile_delivery_complete(false, 4, 4));
    assert!(!profile_delivery_complete(false, 4, 3));
}

#[test]
fn health_config_identity_requires_matching_successful_postcheck() {
    assert!(health_configuration_identity_available(
        true, false, false, false
    ));
    assert!(!health_configuration_identity_available(
        true, true, false, false
    ));
    assert!(health_configuration_identity_available(
        true, true, true, true
    ));
    assert!(!health_configuration_identity_available(
        true, true, true, false
    ));

    let config_id = 0x9639_2f01_4bce_7745;
    assert_eq!(wire_config_id(config_id, true), config_id);
    assert_eq!(wire_config_id(config_id, false), 0);
}

#[test]
fn stale_pre_scan_fields_are_added_exactly_and_saturate() {
    assert_eq!(total_discarded_field_count(7, 3), 10);
    assert_eq!(total_discarded_field_count(u16::MAX - 1, 3), u16::MAX);
    assert!(!discarded_field_count_overflowed(7, 3));
    assert!(discarded_field_count_overflowed(u16::MAX - 1, 3));
    assert_eq!(COLLECTION_FLAG_STALE_PRE_SCAN_FIELDS, 1 << 13);
}

#[test]
fn emergency_sleep_retry_is_bounded_and_counts_each_i2c_failure() {
    let mut progress = EmergencySleepRetryProgress::default();
    while progress.should_retry() {
        progress.record_attempt(false, true);
    }
    assert_eq!(progress.attempts, EMERGENCY_SLEEP_RETRY_LIMIT);
    assert_eq!(progress.i2c_errors, u32::from(EMERGENCY_SLEEP_RETRY_LIMIT));
    assert!(!progress.confirmed);
    assert!(!progress.should_retry());

    let mut recovered = EmergencySleepRetryProgress::default();
    recovered.record_attempt(false, true);
    assert!(recovered.should_retry());
    recovered.record_attempt(true, false);
    assert!(recovered.confirmed);
    assert!(!recovered.should_retry());

    let mut saturated = EmergencySleepRetryProgress {
        i2c_errors: u32::MAX,
        ..EmergencySleepRetryProgress::default()
    };
    saturated.record_attempt(false, true);
    assert_eq!(saturated.i2c_errors, u32::MAX);
}

#[test]
fn readback_identity_sees_every_other_register() {
    let base = SensorConfigurationReadback {
        operation_mode: OperationMode::Sleep,
        environmental: Configuration::default(),
        heater: HeaterConfigurationReadback {
            registers: HeaterRegisters {
                current: [1; MAX_PROFILE_STEPS],
                resistance: [2; MAX_PROFILE_STEPS],
                gas_wait: [3; MAX_PROFILE_STEPS],
                shared_duration: 4,
            },
            control_gas_0: 5,
            control_gas_1: 6,
        },
    };
    let mut changed = base;
    changed.operation_mode = OperationMode::Parallel;
    assert!(!sensor_readback_identity_eq(&base, &changed));
    changed = base;
    changed.heater.control_gas_0 = 0;
    assert!(!sensor_readback_identity_eq(&base, &changed));
    changed = base;
    changed.heater.control_gas_1 = 0;
    assert!(!sensor_readback_identity_eq(&base, &changed));
    changed = base;
    changed.heater.registers.shared_duration = 0;
    assert!(!sensor_readback_identity_eq(&base, &changed));
    changed = base;
    changed.heater.registers.resistance[9] = 0;
    assert!(!sensor_readback_identity_eq(&base, &changed));
}

#[test]
fn snapshot_touches_active_steps_only() {
    let mut config = device_config_fixture();
    config.expected_step_count = 4;
    let before = config;
    CanonicalIdacSnapshot::capture([7; MAX_PROFILE_STEPS]).apply_to(&mut config);
    for index in 0..MAX_PROFILE_STEPS {
        let expected = if index < 4 {
            7
        } else {
            before.steps[index].readback_heater_current
        };
        assert_eq!(config.steps[index].readback_heater_current, expected);
        assert_eq!(
            config.steps[index].programmed_gas_wait,
            before.steps[index].programmed_gas_wait
        );
    }
}

#[test]
fn pending_config_survives_everything_but_delivery() {
    let mut state = DeviceConfigDeliveryState::default();
    state.prepare_encode(false, false);
    state.record_id_change();
    state.prepare_encode(true, false);
    assert_eq!(state.prepare_encode(false, true), (true, false));
    state.record_completed();
    assert_eq!(state.prepare_encode(false, true), (false, true));
}
