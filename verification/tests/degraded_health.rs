use vesta::degraded_health::{
    CONFIG_ID_UNAVAILABLE, Context, PROFILE_ID_UNAVAILABLE, PROFILE_VERSION_UNAVAILABLE, Reporter,
    STARTUP_ERROR_BME_PROBE, STARTUP_ERROR_SENSOR_METADATA, STARTUP_ERROR_TELEMETRY_SETUP,
    StartupFailure, TRANSMISSION_ERROR_PRESENT,
};

const CONTEXT: Context = Context {
    node_id: 0x4fe6_08a9_ee2f_303e,
    boot_id: 0x0123_4567_89ab_cdef,
    boot_id_valid: true,
    boot_id_from_hardware_rng: true,
    reset_cause_raw: 0x8400_0003,
    reset_cause_flags: 0x0084,
    sample_interval_ms: 300_000,
    firmware_version: [0, 2, 0],
};

#[test]
fn probe_failure_encodes_decodable_health_without_a_config_or_scan() {
    let mut reporter = Reporter::new(CONTEXT, StartupFailure::bme_probe());
    let encoded = reporter.encode_next(12_345);
    let common = encoded.frame.common;
    let health = encoded.frame.health;

    assert_eq!(encoded.sequence, 0);
    assert_eq!(common.node_id, CONTEXT.node_id);
    assert_eq!(common.boot_id, CONTEXT.boot_id);
    assert_eq!(common.uptime_ms, 12_345);
    assert_eq!(common.config_id, CONFIG_ID_UNAVAILABLE);
    assert_eq!(common.reset_cause_flags, CONTEXT.reset_cause_flags);
    assert!(common.boot_id_valid);
    assert!(common.boot_id_from_hardware_rng);
    assert_eq!(health.reset_cause_raw, CONTEXT.reset_cause_raw);
    assert_eq!(health.failed_sensor_scans, 0);
    assert_eq!(health.incomplete_profiles, 0);
    assert_eq!(health.i2c_errors, 2);
    assert_eq!(health.profile_id, PROFILE_ID_UNAVAILABLE);
    assert_eq!(health.profile_version, PROFILE_VERSION_UNAVAILABLE);
    assert_eq!(health.last_sensor_error, STARTUP_ERROR_BME_PROBE);
    assert!(health.flags.config_mismatch);
    assert!(health.flags.sensor_error_seen);
    assert!(!health.flags.last_scan_incomplete);
}

#[test]
fn unavailable_rng_identity_is_exactly_flagged() {
    let mut context = CONTEXT;
    context.boot_id = 0;
    context.boot_id_valid = false;
    context.boot_id_from_hardware_rng = false;
    let mut reporter = Reporter::new(context, StartupFailure::sensor_metadata_missing());
    let encoded = reporter.encode_next(7);

    assert!(!encoded.frame.common.boot_id_valid);
    assert!(!encoded.frame.common.boot_id_from_hardware_rng);
    assert_eq!(encoded.frame.common.boot_id, 0);
    assert!(encoded.frame.health.flags.boot_id_unavailable);
    assert_eq!(
        encoded.frame.health.last_sensor_error,
        STARTUP_ERROR_SENSOR_METADATA
    );
}

#[test]
fn recoverable_startup_retries_accumulate_i2c_errors_and_keep_sequence() {
    let mut reporter = Reporter::new(CONTEXT, StartupFailure::bme_probe());
    let first = reporter.encode_next(1);
    reporter.record_startup_failure(StartupFailure::sensor_operation(4, true));
    let second = reporter.encode_next(2);

    let health = second.frame.health;
    assert_eq!(first.sequence, 0);
    assert_eq!(second.sequence, 1);
    assert_eq!(health.i2c_errors, 3);
    assert_eq!(health.last_sensor_error, 4);
}

#[test]
fn radio_failure_is_visible_on_the_next_successful_retry() {
    let mut reporter = Reporter::new(CONTEXT, StartupFailure::sensor_operation(3, true));
    reporter.record_output_failure(true);
    assert_eq!(reporter.output_failures(), 1);
    let health = reporter.encode_next(20).frame.health;
    assert_eq!(health.i2c_errors, 1);
    assert_eq!(health.radio_tx_errors, 1);
    assert_eq!(health.last_radio_error, TRANSMISSION_ERROR_PRESENT);
    assert!(health.flags.radio_error_seen);

    reporter.record_output_success(true);
    let health = reporter.encode_next(30).frame.health;
    assert_eq!(health.radio_tx_errors, 1);
    assert_eq!(health.last_radio_error, 0);
    assert!(health.flags.radio_error_seen);
}

#[test]
fn non_radio_output_failure_is_retried_without_fabricating_radio_errors() {
    let mut reporter = Reporter::new(CONTEXT, StartupFailure::telemetry_setup());
    reporter.record_output_failure(false);
    assert_eq!(reporter.output_failures(), 1);
    let health = reporter.encode_next(44).frame.health;
    assert_eq!(health.radio_tx_errors, 0);
    assert_eq!(health.last_radio_error, 0);
    assert_eq!(health.last_sensor_error, STARTUP_ERROR_TELEMETRY_SETUP);
}

#[test]
fn retry_sequence_wrap_is_explicit() {
    let mut reporter = Reporter::new(CONTEXT, StartupFailure::telemetry_setup());
    reporter.next_sequence = u32::MAX;
    assert_eq!(reporter.encode_next(1).sequence, u32::MAX);
    assert_eq!(reporter.encode_next(2).sequence, 0);
}

#[test]
fn reporter_counters_saturate_and_are_flagged() {
    let mut reporter = Reporter::new(CONTEXT, StartupFailure::bme_probe());
    reporter.i2c_errors = u32::MAX - 1;
    assert!(!reporter.encode_next(1).frame.health.flags.counters_saturated);
    reporter.record_startup_failure(StartupFailure::bme_probe());
    assert_eq!(reporter.i2c_errors(), u32::MAX);
    assert!(reporter.encode_next(2).frame.health.flags.counters_saturated);
    assert_eq!(reporter.last_sensor_error(), STARTUP_ERROR_BME_PROBE);
    assert_eq!(reporter.radio_tx_errors(), 0);
    assert_eq!(reporter.last_radio_error(), 0);
}

#[test]
fn boot_id_needs_both_validity_and_hardware_origin() {
    let mut context = CONTEXT;
    assert!(context.boot_id_available());
    context.boot_id_from_hardware_rng = false;
    assert!(!context.boot_id_available());
    let mut reporter = Reporter::new(context, StartupFailure::bme_probe());
    assert_eq!(reporter.encode_next(0).frame.common.boot_id, 0);
}

#[test]
fn only_records_advance_the_sequence() {
    let mut reporter = Reporter::new(CONTEXT, StartupFailure::bme_probe());
    reporter.record_startup_failure(StartupFailure::telemetry_setup());
    reporter.record_output_failure(true);
    reporter.record_output_success(true);
    assert_eq!(reporter.encode_next(1).sequence, 0);
    reporter.record_output_failure(false);
    assert_eq!(reporter.encode_next(2).sequence, 1);
    reporter.next_sequence = u32::MAX;
    assert_eq!(reporter.encode_next(3).sequence, u32::MAX);
    assert_eq!(reporter.encode_next(4).sequence, 0);
}
