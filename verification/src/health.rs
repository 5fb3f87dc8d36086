//! Saturating device-health accounting retained across scheduled scans.

use vstd::prelude::*;

use crate::bme688_profile::ProfileScan;
use crate::driver::ProfileFinishReason;
use crate::profile_status::{ProfileQualityEvidence, logical_profile_success};

verus! {

#[derive(Clone, Copy, Debug, PartialEq, Eq, Structural)]
pub struct HealthCounters {
    pub sensor_errors_seen: bool,
    pub successful_sensor_scans: u32,
    pub failed_sensor_scans: u32,
    pub incomplete_profiles: u32,
    pub i2c_errors: u32,
    pub radio_tx_errors: u32,
    pub dropped_profiles: u32,
    pub dropped_fragments: u32,
    pub overwritten_fields: u32,
    pub last_sensor_error: u16,
    pub last_radio_error: u16,
}

impl Default for HealthCounters {
    fn default() -> (counters: Self)
        ensures
            counters == Self::zero(),
    {
        HealthCounters {
            sensor_errors_seen: false,
            successful_sensor_scans: 0,
            failed_sensor_scans: 0,
            incomplete_profiles: 0,
            i2c_errors: 0,
            radio_tx_errors: 0,
            dropped_profiles: 0,
            dropped_fragments: 0,
            overwritten_fields: 0,
            last_sensor_error: 0,
            last_radio_error: 0,
        }
    }
}

/// What is known of the quality of one scan.
pub open spec fn quality_evidence(scan: ProfileScan) -> ProfileQualityEvidence {
    ProfileQualityEvidence {
        sensor_failed: scan.spec_sensor_failed(),
        i2c_error_count: scan.spec_i2c_error_count(),
        structurally_complete: scan.profile.structurally_complete,
        finish_complete: scan.profile.finish_reason == Some(ProfileFinishReason::Complete),
        all_steps_gas_valid: scan.profile.all_steps_gas_valid,
        all_steps_heater_stable: scan.profile.heater_stable(),
        overwritten_field_count: scan.profile.counters.overwritten_fields,
        invalid_gas_index_count: scan.profile.counters.invalid_gas_indexes,
        measurement_discontinuity: scan.profile.discontinuous(),
        observation_overflowed: spec_observation_overflowed(scan),
        stale_pre_scan_field_count: scan.pre_scan_discarded_fields,
    }
}

/// The scan is complete, error-free, gas-valid and unambiguous.
pub open spec fn successful(scan: ProfileScan) -> bool {
    quality_evidence(scan).flawless()
}

/// A field count of the scan no longer fits its record.
pub open spec fn spec_observation_overflowed(scan: ProfileScan) -> bool {
    scan.profile.observed_field_count_overflowed || crate::profile_status::discarded_total(
        scan.profile.counters.intermediate_fields,
        scan.pre_scan_discarded_fields,
    ) > u16::MAX
}

/// Whether a field count of the scan no longer fits its record.
#[must_use]
pub fn observation_overflowed(scan: &ProfileScan) -> (overflowed: bool)
    ensures
        overflowed == spec_observation_overflowed(*scan),
{
    scan.profile.observed_field_count_overflowed
        || crate::profile_status::discarded_field_count_overflowed(
        scan.profile.counters.intermediate_fields,
        scan.pre_scan_discarded_fields,
    )
}

/// Whether fields were lost or arrived in an order that leaves the scan ambiguous.
#[must_use]
pub fn measurement_discontinuity(scan: &ProfileScan) -> (discontinuous: bool)
    ensures
        discontinuous == scan.profile.discontinuous(),
{
    scan.profile.counters.out_of_order_fields != 0 || scan.profile.counters.ambiguous_index_jumps
        != 0 || scan.profile.counters.profile_rollovers != 0
        || scan.profile.counters.fields_after_rollover != 0
}

/// Whether the heater was stable in every observed step.
#[must_use]
pub fn heater_stable(scan: &ProfileScan) -> (stable: bool)
    ensures
        stable == scan.profile.heater_stable(),
{
    scan.profile.observed_mask & !scan.profile.heater_stable_mask == 0
}

#[must_use]
pub fn scan_is_successful(scan: &ProfileScan) -> (success: bool)
    ensures
        success == successful(*scan),
{
    let finish_complete = match scan.profile.finish_reason {
        Some(ProfileFinishReason::Complete) => true,
        _ => false,
    };
    logical_profile_success(
        ProfileQualityEvidence {
            sensor_failed: scan.sensor_failed(),
            i2c_error_count: scan.i2c_error_count(),
            structurally_complete: scan.profile.structurally_complete,
            finish_complete,
            all_steps_gas_valid: scan.profile.all_steps_gas_valid,
            all_steps_heater_stable: heater_stable(scan),
            overwritten_field_count: scan.profile.counters.overwritten_fields,
            invalid_gas_index_count: scan.profile.counters.invalid_gas_indexes,
            measurement_discontinuity: measurement_discontinuity(scan),
            observation_overflowed: observation_overflowed(scan),
            stale_pre_scan_field_count: scan.pre_scan_discarded_fields,
        },
    )
}

/// Profile fragments of a batch that were not among its completed records,
/// which start with the configuration record where there is one.
pub open spec fn missing_fragments(
    config_included: bool,
    profile_fragment_count: u8,
    completed_records: u8,
) -> int {
    let completed = completed_records - if config_included {
        1int
    } else {
        0
    };
    if completed < 0 {
        profile_fragment_count as int
    } else if completed > profile_fragment_count {
        0
    } else {
        profile_fragment_count - completed
    }
}

impl HealthCounters {
    pub open spec fn zero() -> Self {
        HealthCounters {
            sensor_errors_seen: false,
            successful_sensor_scans: 0,
            failed_sensor_scans: 0,
            incomplete_profiles: 0,
            i2c_errors: 0,
            radio_tx_errors: 0,
            dropped_profiles: 0,
            dropped_fragments: 0,
            overwritten_fields: 0,
            last_sensor_error: 0,
            last_radio_error: 0,
        }
    }

    pub open spec fn saturated(self) -> bool {
        ||| self.successful_sensor_scans == u32::MAX
        ||| self.failed_sensor_scans == u32::MAX
        ||| self.incomplete_profiles == u32::MAX
        ||| self.i2c_errors == u32::MAX
        ||| self.radio_tx_errors == u32::MAX
        ||| self.dropped_profiles == u32::MAX
        ||| self.dropped_fragments == u32::MAX
        ||| self.overwritten_fields == u32::MAX
    }

    pub open spec fn after_scan(self, scan: ProfileScan) -> Self {
        let counted = if successful(scan) {
            HealthCounters {
                successful_sensor_scans: crate::profile_status::saturating_u32(
                    self.successful_sensor_scans,
                    1,
                ),
                ..self
            }
        } else {
            HealthCounters {
                sensor_errors_seen: true,
                failed_sensor_scans: crate::profile_status::saturating_u32(
                    self.failed_sensor_scans,
                    1,
                ),
                incomplete_profiles: crate::profile_status::saturating_u32(
                    self.incomplete_profiles,
                    1,
                ),
                last_sensor_error: scan.spec_last_error_code(),
                ..self
            }
        };
        HealthCounters {
            i2c_errors: crate::profile_status::saturating_u32(
                self.i2c_errors,
                scan.spec_i2c_error_count() as int,
            ),
            overwritten_fields: crate::profile_status::saturating_u32(
                self.overwritten_fields,
                scan.profile.counters.overwritten_fields as int,
            ),
            ..counted
        }
    }

    pub open spec fn after_output_failure(
        self,
        config_included: bool,
        profile_fragment_count: u8,
        completed_records: u8,
        radio_failure: bool,
    ) -> Self {
        let missing = missing_fragments(config_included, profile_fragment_count, completed_records);
        HealthCounters {
            radio_tx_errors: crate::profile_status::saturating_u32(
                self.radio_tx_errors,
                if radio_failure { 1 } else { 0 },
            ),
            last_radio_error: if radio_failure {
                1
            } else {
                self.last_radio_error
            },
            dropped_profiles: crate::profile_status::saturating_u32(
                self.dropped_profiles,
                if missing != 0 { 1 } else { 0 },
            ),
            dropped_fragments: crate::profile_status::saturating_u32(
                self.dropped_fragments,
                missing,
            ),
            ..self
        }
    }

    pub open spec fn after_output_success(self, radio_output: bool) -> Self {
        HealthCounters {
            last_radio_error: if radio_output {
                0
            } else {
                self.last_radio_error
            },
            ..self
        }
    }

    pub open spec fn after_codec_drop(self, expected_fragments: u8) -> Self {
        HealthCounters {
            dropped_profiles: crate::profile_status::saturating_u32(self.dropped_profiles, 1),
            dropped_fragments: crate::profile_status::saturating_u32(
                self.dropped_fragments,
                expected_fragments as int,
            ),
            ..self
        }
    }

    #[must_use]
    pub fn any_counter_saturated(&self) -> (any: bool)
        ensures
            any == self.saturated(),
    {
        self.successful_sensor_scans == u32::MAX || self.failed_sensor_scans == u32::MAX
            || self.incomplete_profiles == u32::MAX || self.i2c_errors == u32::MAX
            || self.radio_tx_errors == u32::MAX || self.dropped_profiles == u32::MAX
            || self.dropped_fragments == u32::MAX || self.overwritten_fields == u32::MAX
    }

    pub fn record_scan(&mut self, scan: &ProfileScan)
        ensures
            *final(self) == old(self).after_scan(*scan),
    {
        let successful = scan_is_successful(scan);
        if successful {
            self.successful_sensor_scans = self.successful_sensor_scans.saturating_add(1);
        } else {
            self.sensor_errors_seen = true;
            self.failed_sensor_scans = self.failed_sensor_scans.saturating_add(1);
            self.last_sensor_error = scan.last_error_code();
            // `incomplete_profiles` means any logical scan not proven complete,
            // error-free, and gas-valid. It covers timeouts with all slots and
            // structurally complete profiles containing invalid gas readings.
            self.incomplete_profiles = self.incomplete_profiles.saturating_add(1);
        }
        self.i2c_errors = self.i2c_errors.saturating_add(scan.i2c_error_count());
        self.overwritten_fields =
        self.overwritten_fields.saturating_add(scan.profile.counters.overwritten_fields as u32);
    }

    /// Record one failed output batch. Fragment loss counts only profile
    /// fragments, not optional config/health records sharing the batch.
    pub fn record_output_failure(
        &mut self,
        config_included: bool,
        profile_fragment_count: u8,
        completed_records: u8,
        radio_failure: bool,
    )
        ensures
            *final(self) == old(self).after_output_failure(
                config_included,
                profile_fragment_count,
                completed_records,
                radio_failure,
            ),
    {
        if radio_failure {
            self.radio_tx_errors = self.radio_tx_errors.saturating_add(1);
            self.last_radio_error = 1;
        }
        let profile_start: u8 = if config_included {
            1
        } else {
            0
        };
        let completed: u8 = completed_records.saturating_sub(profile_start);
        let completed_profile_fragments: u8 = if completed > profile_fragment_count {
            profile_fragment_count
        } else {
            completed
        };
        let missing: u8 = profile_fragment_count.saturating_sub(completed_profile_fragments);
        if missing != 0 {
            self.dropped_profiles = self.dropped_profiles.saturating_add(1);
            self.dropped_fragments = self.dropped_fragments.saturating_add(missing as u32);
        }
    }

    pub fn record_output_success(&mut self, radio_output: bool)
        ensures
            *final(self) == old(self).after_output_success(radio_output),
    {
        if radio_output {
            self.last_radio_error = 0;
        }
    }

    pub fn record_codec_drop(&mut self, expected_fragments: u8)
        ensures
            *final(self) == old(self).after_codec_drop(expected_fragments),
    {
        self.dropped_profiles = self.dropped_profiles.saturating_add(1);
        self.dropped_fragments = self.dropped_fragments.saturating_add(expected_fragments as u32);
    }

    /// No cumulative counter of `self` is below that of `before`.
    pub open spec fn at_least(self, before: Self) -> bool {
        &&& before.sensor_errors_seen ==> self.sensor_errors_seen
        &&& self.successful_sensor_scans >= before.successful_sensor_scans
        &&& self.failed_sensor_scans >= before.failed_sensor_scans
        &&& self.incomplete_profiles >= before.incomplete_profiles
        &&& self.i2c_errors >= before.i2c_errors
        &&& self.radio_tx_errors >= before.radio_tx_errors
        &&& self.dropped_profiles >= before.dropped_profiles
        &&& self.dropped_fragments >= before.dropped_fragments
        &&& self.overwritten_fields >= before.overwritten_fields
    }
}

/// Every logical attempt counts either as one successful scan or as one failed
/// scan and one incomplete profile, never as both or neither.
pub proof fn every_scan_counts_once(counters: HealthCounters, scan: ProfileScan)
    requires
        !counters.saturated(),
    ensures
        ({
            let after = counters.after_scan(scan);
            let succeeded = if successful(scan) {
                1int
            } else {
                0
            };
            &&& after.successful_sensor_scans == counters.successful_sensor_scans + succeeded
            &&& after.failed_sensor_scans == counters.failed_sensor_scans + (1 - succeeded)
            &&& after.incomplete_profiles == counters.incomplete_profiles + (1 - succeeded)
        }),
{
}

/// Counters saturate: nothing that is recorded ever lowers one of them.
pub proof fn counters_never_decrease(
    counters: HealthCounters,
    scan: ProfileScan,
    config_included: bool,
    profile_fragment_count: u8,
    completed_records: u8,
    radio: bool,
)
    ensures
        counters.after_scan(scan).at_least(counters),
        counters.after_output_failure(
            config_included,
            profile_fragment_count,
            completed_records,
            radio,
        ).at_least(counters),
        counters.after_output_success(radio).at_least(counters),
        counters.after_codec_drop(profile_fragment_count).at_least(counters),
{
}

/// A batch that fails after its last profile fragment drops no profile, and a
/// failure outside the radio is never accounted to the radio.
pub proof fn fragment_loss_is_exact(
    counters: HealthCounters,
    config_included: bool,
    profile_fragment_count: u8,
    completed_records: u8,
)
    requires
        0 < profile_fragment_count < 255,
    ensures
        ({
            let after = counters.after_output_failure(
                config_included,
                profile_fragment_count,
                completed_records,
                false,
            );
            &&& after.radio_tx_errors == counters.radio_tx_errors
            &&& after.last_radio_error == counters.last_radio_error
            &&& crate::profile_status::fragments_delivered(
                config_included,
                profile_fragment_count,
                completed_records,
            ) ==> after == counters
            &&& !crate::profile_status::fragments_delivered(
                config_included,
                profile_fragment_count,
                completed_records,
            ) && !counters.saturated() ==> after.dropped_profiles == counters.dropped_profiles + 1
        }),
{
}

} // verus!
