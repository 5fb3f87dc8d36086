//! Health-only telemetry used when profile-v2 cannot finish sensor startup.

use vstd::prelude::*;

use crate::protocol::{Common, DeviceHealth, HealthFlags};
use crate::telemetry_v2::HealthFrame;

verus! {

/// No verified sensor/profile configuration exists on a fatal startup path.
pub const CONFIG_ID_UNAVAILABLE: u64 = 0;

/// Health-only startup failures do not claim a heater profile.
pub const PROFILE_ID_UNAVAILABLE: u16 = 0;

pub const PROFILE_VERSION_UNAVAILABLE: u16 = 0;

/// Both supported BME688 addresses failed their concrete I2C probes.
pub const STARTUP_ERROR_BME_PROBE: u16 = 0x0101;

/// A configured sensor unexpectedly had no retained read-back metadata.
pub const STARTUP_ERROR_SENSOR_METADATA: u16 = 0x0201;

/// The verified sensor metadata could not form an encodable `DeviceConfig`.
pub const STARTUP_ERROR_TELEMETRY_SETUP: u16 = 0x0202;

pub const TRANSMISSION_ERROR_PRESENT: u16 = 1;

/// Stable boot/reset metadata retained even when sensor setup fails.
#[derive(Clone, Copy, Debug, PartialEq, Eq)]
pub struct Context {
    pub node_id: u64,
    pub boot_id: u64,
    pub boot_id_valid: bool,
    pub boot_id_from_hardware_rng: bool,
    pub reset_cause_raw: u32,
    pub reset_cause_flags: u16,
    pub sample_interval_ms: u32,
    pub firmware_version: [u8; 3],
}

impl Context {
    pub open spec fn has_boot_id(self) -> bool {
        self.boot_id_valid && self.boot_id_from_hardware_rng
    }

    #[must_use]
    pub fn boot_id_available(self) -> (available: bool)
        ensures
            available == self.has_boot_id(),
    {
        self.boot_id_valid && self.boot_id_from_hardware_rng
    }
}

/// Concrete startup failure in terms of protocol health accounting.
#[derive(Clone, Copy, Debug, PartialEq, Eq, Structural)]
pub struct StartupFailure {
    pub last_sensor_error: u16,
    pub i2c_errors: u32,
}

impl StartupFailure {
    pub open spec fn spec_bme_probe() -> Self {
        StartupFailure { last_sensor_error: STARTUP_ERROR_BME_PROBE, i2c_errors: 2 }
    }

    pub open spec fn spec_sensor_operation(operation_code: u16, is_i2c_error: bool) -> Self {
        StartupFailure {
            last_sensor_error: operation_code,
            i2c_errors: if is_i2c_error {
                1
            } else {
                0
            },
        }
    }

    pub open spec fn spec_sensor_metadata_missing() -> Self {
        StartupFailure { last_sensor_error: STARTUP_ERROR_SENSOR_METADATA, i2c_errors: 0 }
    }

    pub open spec fn spec_telemetry_setup() -> Self {
        StartupFailure { last_sensor_error: STARTUP_ERROR_TELEMETRY_SETUP, i2c_errors: 0 }
    }

    /// One failed transaction at each concrete address, 0x76 and 0x77.
    #[must_use]
    pub fn bme_probe() -> (failure: Self)
        ensures
            failure == Self::spec_bme_probe(),
    {
        StartupFailure { last_sensor_error: STARTUP_ERROR_BME_PROBE, i2c_errors: 2 }
    }

    #[must_use]
    pub fn sensor_operation(operation_code: u16, is_i2c_error: bool) -> (failure: Self)
        ensures
            failure == Self::spec_sensor_operation(operation_code, is_i2c_error),
    {
        StartupFailure {
            last_sensor_error: operation_code,
            i2c_errors: if is_i2c_error {
                1
            } else {
                0
            },
        }
    }

    #[must_use]
    pub fn sensor_metadata_missing() -> (failure: Self)
        ensures
            failure == Self::spec_sensor_metadata_missing(),
    {
        StartupFailure { last_sensor_error: STARTUP_ERROR_SENSOR_METADATA, i2c_errors: 0 }
    }

    #[must_use]
    pub fn telemetry_setup() -> (failure: Self)
        ensures
            failure == Self::spec_telemetry_setup(),
    {
        StartupFailure { last_sensor_error: STARTUP_ERROR_TELEMETRY_SETUP, i2c_errors: 0 }
    }
}

/// One retry's record and the sequence placed in its common header.
#[derive(Clone, Copy, Debug, PartialEq, Eq)]
pub struct EncodedHealth {
    pub sequence: u32,
    pub frame: HealthFrame,
}

/// Saturating state retained between health-only output attempts.
#[derive(Clone, Copy, Debug, PartialEq, Eq)]
pub struct Reporter {
    pub context: Context,
    pub failure: StartupFailure,
    pub i2c_errors: u32,
    pub next_sequence: u32,
    pub output_failures: u32,
    pub radio_tx_errors: u32,
    pub last_radio_error: u16,
}

impl Reporter {
    pub open spec fn started(context: Context, failure: StartupFailure) -> Self {
        Reporter {
            context,
            failure,
            i2c_errors: failure.i2c_errors,
            next_sequence: 0,
            output_failures: 0,
            radio_tx_errors: 0,
            last_radio_error: 0,
        }
    }

    pub open spec fn after_startup_failure(self, failure: StartupFailure) -> Self {
        Reporter {
            failure,
            i2c_errors: crate::profile_status::saturating_u32(
                self.i2c_errors,
                failure.i2c_errors as int,
            ),
            ..self
        }
    }

    pub open spec fn after_output_failure(self, radio_output: bool) -> Self {
        Reporter {
            output_failures: crate::profile_status::saturating_u32(self.output_failures, 1),
            radio_tx_errors: crate::profile_status::saturating_u32(
                self.radio_tx_errors,
                if radio_output { 1 } else { 0 },
            ),
            last_radio_error: if radio_output {
                TRANSMISSION_ERROR_PRESENT
            } else {
                self.last_radio_error
            },
            ..self
        }
    }

    pub open spec fn after_output_success(self, radio_output: bool) -> Self {
        Reporter {
            last_radio_error: if radio_output {
                0
            } else {
                self.last_radio_error
            },
            ..self
        }
    }

    /// The header of the next record: no configuration is named, and a boot ID
    /// that is not a hardware nonce is not presented as one.
    pub open spec fn header(self, uptime_ms: u64) -> Common {
        let available = self.context.has_boot_id();
        Common {
            node_id: self.context.node_id,
            boot_id: if available {
                self.context.boot_id
            } else {
                0
            },
            boot_id_valid: available,
            boot_id_from_hardware_rng: available,
            sequence: self.next_sequence,
            uptime_ms,
            config_id: CONFIG_ID_UNAVAILABLE,
            reset_cause_flags: self.context.reset_cause_flags,
        }
    }

    /// The health that a failed startup amounts to. No profile scan began, so
    /// scan and profile counters stay zero and no profile is claimed.
    pub open spec fn spec_snapshot(self) -> DeviceHealth {
        DeviceHealth {
            flags: HealthFlags {
                counters_saturated: self.i2c_errors == u32::MAX || self.radio_tx_errors == u32::MAX
                    || self.output_failures == u32::MAX,
                boot_id_unavailable: !self.context.has_boot_id(),
                config_mismatch: true,
                last_scan_incomplete: false,
                sensor_error_seen: true,
                radio_error_seen: self.radio_tx_errors != 0,
            },
            reset_cause_raw: self.context.reset_cause_raw,
            successful_sensor_scans: 0,
            failed_sensor_scans: 0,
            incomplete_profiles: 0,
            i2c_errors: self.i2c_errors,
            radio_tx_errors: self.radio_tx_errors,
            dropped_profiles: 0,
            dropped_fragments: 0,
            overwritten_fields: 0,
            current_sample_interval_ms: self.context.sample_interval_ms,
            firmware_version: self.context.firmware_version,
            profile_id: PROFILE_ID_UNAVAILABLE,
            profile_version: PROFILE_VERSION_UNAVAILABLE,
            last_sensor_error: self.failure.last_sensor_error,
            last_radio_error: self.last_radio_error,
            calibrated_mcu_temperature_centi_celsius: None,
            calibrated_vdd_millivolt: None,
        }
    }

    #[must_use]
    pub fn new(context: Context, failure: StartupFailure) -> (reporter: Self)
        ensures
            reporter == Self::started(context, failure),
    {
        Reporter {
            context,
            failure,
            i2c_errors: failure.i2c_errors,
            next_sequence: 0,
            output_failures: 0,
            radio_tx_errors: 0,
            last_radio_error: 0,
        }
    }

    /// Retain one more bounded startup attempt while preserving the reporter's
    /// sequence and output counters across recoverable-state retries.
    pub fn record_startup_failure(&mut self, failure: StartupFailure)
        ensures
            *final(self) == old(self).after_startup_failure(failure),
    {
        self.failure = failure;
        self.i2c_errors = self.i2c_errors.saturating_add(failure.i2c_errors);
    }

    /// Lay out a health-only record. Sequence advances even if the codec later
    /// fails, exposing a gap instead of silently reusing an attempted identity.
    pub fn encode_next(&mut self, uptime_ms: u64) -> (encoded: EncodedHealth)
        ensures
            encoded.sequence == old(self).next_sequence,
            encoded.frame.common == old(self).header(uptime_ms),
            encoded.frame.health == old(self).spec_snapshot(),
            *final(self) == (Reporter {
                next_sequence: crate::telemetry_v2::next_sequence(old(self).next_sequence),
                ..*old(self)
            }),
    {
        let sequence: u32 = self.next_sequence;
        self.next_sequence = self.next_sequence.wrapping_add(1);
        let common = if self.context.boot_id_available() {
            Common::production(
                self.context.node_id,
                self.context.boot_id,
                sequence,
                uptime_ms,
                CONFIG_ID_UNAVAILABLE,
                self.context.reset_cause_flags,
            )
        } else {
            Common::boot_id_unavailable(
                self.context.node_id,
                sequence,
                uptime_ms,
                CONFIG_ID_UNAVAILABLE,
                self.context.reset_cause_flags,
            )
        };
        EncodedHealth { sequence, frame: HealthFrame { common, health: self.snapshot() } }
    }

    /// Count every output failure locally; radio failures are additionally
    /// represented by the protocol's cumulative radio-error fields.
    pub fn record_output_failure(&mut self, radio_output: bool)
        ensures
            *final(self) == old(self).after_output_failure(radio_output),
    {
        self.output_failures = self.output_failures.saturating_add(1);
        if radio_output {
            self.radio_tx_errors = self.radio_tx_errors.saturating_add(1);
            self.last_radio_error = TRANSMISSION_ERROR_PRESENT;
        }
    }

    pub fn record_output_success(&mut self, radio_output: bool)
        ensures
            *final(self) == old(self).after_output_success(radio_output),
    {
        if radio_output {
            self.last_radio_error = 0;
        }
    }

    #[must_use]
    pub fn output_failures(&self) -> (count: u32)
        ensures
            count == self.output_failures,
    {
        self.output_failures
    }

    #[must_use]
    pub fn i2c_errors(&self) -> (count: u32)
        ensures
            count == self.i2c_errors,
    {
        self.i2c_errors
    }

    #[must_use]
    pub fn radio_tx_errors(&self) -> (count: u32)
        ensures
            count == self.radio_tx_errors,
    {
        self.radio_tx_errors
    }

    #[must_use]
    pub fn last_radio_error(&self) -> (code: u16)
        ensures
            code == self.last_radio_error,
    {
        self.last_radio_error
    }

    #[must_use]
    pub fn last_sensor_error(&self) -> (code: u16)
        ensures
            code == self.failure.last_sensor_error,
    {
        self.failure.last_sensor_error
    }

    fn snapshot(&self) -> (health: DeviceHealth)
        ensures
            health == self.spec_snapshot(),
    {
        DeviceHealth {
            flags: HealthFlags {
                counters_saturated: self.i2c_errors == u32::MAX || self.radio_tx_errors == u32::MAX
                    || self.output_failures == u32::MAX,
                boot_id_unavailable: !self.context.boot_id_available(),
                config_mismatch: true,
                last_scan_incomplete: false,
                sensor_error_seen: true,
                radio_error_seen: self.radio_tx_errors != 0,
            },
            reset_cause_raw: self.context.reset_cause_raw,
            // No profile scan began, so scan/profile counters deliberately stay
            // zero. The startup failure is carried by flags and error fields.
            successful_sensor_scans: 0,
            failed_sensor_scans: 0,
            incomplete_profiles: 0,
            i2c_errors: self.i2c_errors,
            radio_tx_errors: self.radio_tx_errors,
            dropped_profiles: 0,
            dropped_fragments: 0,
            overwritten_fields: 0,
            current_sample_interval_ms: self.context.sample_interval_ms,
            firmware_version: self.context.firmware_version,
            profile_id: PROFILE_ID_UNAVAILABLE,
            profile_version: PROFILE_VERSION_UNAVAILABLE,
            last_sensor_error: self.failure.last_sensor_error,
            last_radio_error: self.last_radio_error,
            calibrated_mcu_temperature_centi_celsius: None,
            calibrated_vdd_millivolt: None,
        }
    }
}

/// What can happen to a reporter between two records.
pub enum ReporterEvent {
    StartupFailed(StartupFailure),
    OutputFailed { radio_output: bool },
    OutputSucceeded { radio_output: bool },
    /// A record was laid out.
    Encoded,
}

impl Reporter {
    pub open spec fn after(self, event: ReporterEvent) -> Self {
        match event {
            ReporterEvent::StartupFailed(failure) => self.after_startup_failure(failure),
            ReporterEvent::OutputFailed { radio_output } => self.after_output_failure(radio_output),
            ReporterEvent::OutputSucceeded { radio_output } => self.after_output_success(
                radio_output,
            ),
            ReporterEvent::Encoded => Reporter {
                next_sequence: crate::telemetry_v2::next_sequence(self.next_sequence),
                ..self
            },
        }
    }

    pub open spec fn after_all(self, events: Seq<ReporterEvent>) -> Self
        decreases events.len(),
    {
        if events.len() == 0 {
            self
        } else {
            self.after_all(events.drop_last()).after(events.last())
        }
    }
}

/// How many records the events laid out.
pub open spec fn encoded_count(events: Seq<ReporterEvent>) -> nat
    decreases events.len(),
{
    if events.len() == 0 {
        0
    } else {
        encoded_count(events.drop_last()) + if events.last() is Encoded {
            1nat
        } else {
            0
        }
    }
}

/// Sequence, bus-error count and output counters survive every retry: the
/// sequence advances by one, wrapping, with every record and with nothing else,
/// none of the counters ever decreases, and the boot context never changes.
pub proof fn retries_keep_the_accounts(reporter: Reporter, events: Seq<ReporterEvent>)
    ensures
        ({
            let after = reporter.after_all(events);
            &&& after.context == reporter.context
            &&& after.next_sequence == (reporter.next_sequence + encoded_count(events))
                % 0x1_0000_0000
            &&& after.i2c_errors >= reporter.i2c_errors
            &&& after.output_failures >= reporter.output_failures
            &&& after.radio_tx_errors >= reporter.radio_tx_errors
        }),
    decreases events.len(),
{
    if events.len() != 0 {
        retries_keep_the_accounts(reporter, events.drop_last());
    }
}

/// Output failures outside the radio never show up as radio errors.
pub proof fn other_failures_are_not_radio_failures(reporter: Reporter, events: Seq<ReporterEvent>)
    requires
        forall|i: int| #![trigger events[i]] 0 <= i < events.len() ==> events[i] != (ReporterEvent::OutputFailed {
            radio_output: true,
        }),
    ensures
        reporter.after_all(events).radio_tx_errors == reporter.radio_tx_errors,
        reporter.last_radio_error == 0 ==> reporter.after_all(events).last_radio_error == 0,
    decreases events.len(),
{
    if events.len() != 0 {
        let before = events.drop_last();
        assert forall|i: int| #![trigger before[i]] 0 <= i < before.len() implies before[i] != (
        ReporterEvent::OutputFailed { radio_output: true }) by {
            assert(before[i] == events[i]);
        }
        other_failures_are_not_radio_failures(reporter, before);
        assert(events[events.len() - 1] != (ReporterEvent::OutputFailed { radio_output: true }));
    }
}

/// A radio failure stays visible in every later health record.
pub proof fn radio_failure_stays_visible(reporter: Reporter, events: Seq<ReporterEvent>)
    ensures
        reporter.after_output_failure(true).after_all(
            events,
        ).spec_snapshot().flags.radio_error_seen,
{
    retries_keep_the_accounts(reporter.after_output_failure(true), events);
}

/// A startup health record never claims a configuration, a profile or a scan.
pub proof fn degraded_health_claims_no_profile(reporter: Reporter, uptime_ms: u64)
    ensures
        reporter.header(uptime_ms).config_id == 0,
        reporter.spec_snapshot().profile_id == 0,
        reporter.spec_snapshot().profile_version == 0,
        reporter.spec_snapshot().flags.config_mismatch,
        reporter.spec_snapshot().flags.sensor_error_seen,
        !reporter.spec_snapshot().flags.last_scan_incomplete,
        reporter.spec_snapshot().successful_sensor_scans == 0,
        reporter.spec_snapshot().failed_sensor_scans == 0,
        reporter.spec_snapshot().incomplete_profiles == 0,
{
}

} // verus!
