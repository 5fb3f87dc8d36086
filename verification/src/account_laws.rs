//! What the accounts of a node count, told by what happened to it.

use vstd::prelude::*;

use crate::bme688_profile::{ProfileScan, SensorMetadata};
use crate::board::ResetCause;
use crate::degraded_health::{Context, EncodedHealth, Reporter, ReporterEvent, StartupFailure};
use crate::driver::ProfileFinishReason;
use crate::health::HealthCounters;
use crate::identity::DeviceIdentity;
use crate::output_v2::{EmitError, EmitReport};
use crate::protocol::{CodecError, DeviceHealth, OutputRoute};
use crate::runtime::{CyclePhase, HealthDelivery, Node, Startup, StartupEvent};
use crate::telemetry_v2::{EncodedScan, TelemetrySettings};

verus! {

/// Nothing is wrong with a scan: its configuration was verified, nothing failed
/// and no bus error came up, collection completed with every step there, valid
/// and stable, no field was lost, out of place, out of order or left over from
/// before, and every count fits its record.
pub open spec fn is_flawless(scan: ProfileScan) -> bool {
    &&& scan.configuration_verified
    &&& scan.collection_error is None
    &&& scan.sleep_error is None
    &&& scan.configuration_i2c_errors == 0
    &&& scan.post_scan_configuration_i2c_errors == 0
    &&& scan.profile.structurally_complete
    &&& scan.profile.finish_reason == Some(ProfileFinishReason::Complete)
    &&& scan.profile.all_steps_gas_valid
    &&& scan.profile.heater_stable()
    &&& scan.profile.counters.overwritten_fields == 0
    &&& scan.profile.counters.invalid_gas_indexes == 0
    &&& scan.profile.counters.out_of_order_fields == 0
    &&& scan.profile.counters.ambiguous_index_jumps == 0
    &&& scan.profile.counters.profile_rollovers == 0
    &&& scan.profile.counters.fields_after_rollover == 0
    &&& !scan.profile.observed_field_count_overflowed
    &&& scan.pre_scan_discarded_fields == 0
}

/// A scan is successful exactly if nothing is wrong with it. Repeated and
/// discarded fields are not wrong.
pub proof fn successful_means_flawless(scan: ProfileScan)
    ensures
        crate::health::successful(scan) <==> is_flawless(scan),
{
}

/// Fragments among `fragments` that do not stand among the first `completed`
/// records, of which the configuration record, if there is one, is the first.
pub open spec fn undelivered(config_included: bool, fragments: int, completed: int) -> int {
    let first = if config_included {
        1int
    } else {
        0
    };
    if completed <= first {
        fragments
    } else if completed >= first + fragments {
        0
    } else {
        first + fragments - completed
    }
}

/// What can happen to the accounts of a node.
pub enum AccountEvent {
    Scanned(ProfileScan),
    BatchFailed { config_included: bool, fragments: u8, completed: u8, radio: bool },
    BatchSent { radio: bool },
    /// The codec refused the records of a scan.
    Dropped { fragments: u8 },
}

/// The accounts after one event.
pub open spec fn account_after(counters: HealthCounters, event: AccountEvent) -> HealthCounters {
    match event {
        AccountEvent::Scanned(scan) => counters.after_scan(scan),
        AccountEvent::BatchFailed { config_included, fragments, completed, radio } => {
            counters.after_output_failure(config_included, fragments, completed, radio)
        },
        AccountEvent::BatchSent { radio } => counters.after_output_success(radio),
        AccountEvent::Dropped { fragments } => counters.after_codec_drop(fragments),
    }
}

/// The accounts after a sequence of events, from zero.
pub open spec fn accounts(events: Seq<AccountEvent>) -> HealthCounters
    decreases events.len(),
{
    if events.len() == 0 {
        HealthCounters::zero()
    } else {
        account_after(accounts(events.drop_last()), events.last())
    }
}

/// The sum of what each event counts for.
pub open spec fn tally(events: Seq<AccountEvent>, worth: spec_fn(AccountEvent) -> int) -> int
    decreases events.len(),
{
    if events.len() == 0 {
        0
    } else {
        tally(events.drop_last(), worth) + worth(events.last())
    }
}

pub open spec fn one_if(counts: bool) -> int {
    if counts {
        1
    } else {
        0
    }
}

/// Flawless scans count one.
pub open spec fn flawless_scans() -> spec_fn(AccountEvent) -> int {
    |event: AccountEvent| one_if(event matches AccountEvent::Scanned(scan) && is_flawless(scan))
}

/// Scans with anything wrong count one.
pub open spec fn flawed_scans() -> spec_fn(AccountEvent) -> int {
    |event: AccountEvent| one_if(event matches AccountEvent::Scanned(scan) && !is_flawless(scan))
}

/// Scans count their bus errors.
pub open spec fn bus_errors() -> spec_fn(AccountEvent) -> int {
    |event: AccountEvent|
        match event {
            AccountEvent::Scanned(scan) => scan.configuration_i2c_errors
                + scan.post_scan_configuration_i2c_errors + one_if(
                scan.collection_error matches Some(error) && error.source is Bus,
            ) + one_if(scan.sleep_error matches Some(error) && error.source is Bus),
            _ => 0,
        }
}

/// Scans count the fields that were overwritten before they were read.
pub open spec fn overwritten() -> spec_fn(AccountEvent) -> int {
    |event: AccountEvent|
        match event {
            AccountEvent::Scanned(scan) => scan.profile.counters.overwritten_fields as int,
            _ => 0,
        }
}

/// Batches that the radio failed count one.
pub open spec fn radio_failures() -> spec_fn(AccountEvent) -> int {
    |event: AccountEvent| one_if(event matches AccountEvent::BatchFailed { radio, .. } && radio)
}

/// Fragments count that a failed batch did not deliver or the codec refused.
pub open spec fn lost_fragments() -> spec_fn(AccountEvent) -> int {
    |event: AccountEvent|
        match event {
            AccountEvent::BatchFailed { config_included, fragments, completed, .. } => undelivered(
                config_included,
                fragments as int,
                completed as int,
            ),
            AccountEvent::Dropped { fragments } => fragments as int,
            _ => 0,
        }
}

/// Profiles count that lost a fragment in a failed batch or that the codec
/// refused.
pub open spec fn lost_profiles() -> spec_fn(AccountEvent) -> int {
    |event: AccountEvent|
        match event {
            AccountEvent::BatchFailed { config_included, fragments, completed, .. } => one_if(
                undelivered(config_included, fragments as int, completed as int) > 0,
            ),
            AccountEvent::Dropped { .. } => 1,
            _ => 0,
        }
}

/// No account has reached its largest value at any point.
pub open spec fn never_saturated(events: Seq<AccountEvent>) -> bool {
    forall|n: int| 0 <= n <= events.len() ==> !(#[trigger] accounts(events.take(n))).saturated()
}

/// Counted from zero and short of the largest count, every account is the tally
/// of the events it stands for: successes the flawless scans, failures and
/// incomplete profiles alike the scans with anything wrong, and so on. Sensor
/// errors were seen exactly if some scan was not flawless.
pub proof fn accounts_are_tallies(events: Seq<AccountEvent>)
    requires
        never_saturated(events),
    ensures
        accounts(events).successful_sensor_scans == tally(events, flawless_scans()),
        accounts(events).failed_sensor_scans == tally(events, flawed_scans()),
        accounts(events).incomplete_profiles == tally(events, flawed_scans()),
        accounts(events).i2c_errors == tally(events, bus_errors()),
        accounts(events).overwritten_fields == tally(events, overwritten()),
        accounts(events).radio_tx_errors == tally(events, radio_failures()),
        accounts(events).dropped_fragments == tally(events, lost_fragments()),
        accounts(events).dropped_profiles == tally(events, lost_profiles()),
        accounts(events).sensor_errors_seen <==> tally(events, flawed_scans()) > 0,
    decreases events.len(),
{
    if events.len() != 0 {
        let before = events.drop_last();
        assert forall|n: int| 0 <= n <= before.len() implies !(#[trigger] accounts(
            before.take(n),
        )).saturated() by {
            assert(before.take(n) == events.take(n));
        }
        accounts_are_tallies(before);
        assert(events.take(events.len() as int) == events);
        assert(!accounts(events).saturated());
        if events.last() is Scanned {
            successful_means_flawless(events.last()->Scanned_0);
        }
    }
}

/// The last sensor error is that of the latest scan that was not flawless, and
/// the last radio error is one exactly if the latest batch over the radio
/// failed; nothing else touches either of them.
pub proof fn last_errors_are_the_latest(counters: HealthCounters, event: AccountEvent)
    ensures
        account_after(counters, event).last_sensor_error == match event {
            AccountEvent::Scanned(scan) => if is_flawless(scan) {
                counters.last_sensor_error
            } else {
                scan.spec_last_error_code()
            },
            _ => counters.last_sensor_error,
        },
        account_after(counters, event).last_radio_error == match event {
            AccountEvent::BatchFailed { radio, .. } => if radio {
                1
            } else {
                counters.last_radio_error
            },
            AccountEvent::BatchSent { radio } => if radio {
                0
            } else {
                counters.last_radio_error
            },
            _ => counters.last_radio_error,
        },
{
    if event is Scanned {
        successful_means_flawless(event->Scanned_0);
    }
}

/// The counters are full exactly if one of the eight of them is.
pub proof fn saturation_is_any_full_counter(counters: HealthCounters)
    ensures
        !counters.saturated() <==> counters.successful_sensor_scans < 0xffff_ffff
            && counters.failed_sensor_scans < 0xffff_ffff && counters.incomplete_profiles
            < 0xffff_ffff && counters.i2c_errors < 0xffff_ffff && counters.radio_tx_errors
            < 0xffff_ffff && counters.dropped_profiles < 0xffff_ffff && counters.dropped_fragments
            < 0xffff_ffff && counters.overwritten_fields < 0xffff_ffff,
{
}

/// A health record carries the accounts, each under its own name, and the boot,
/// build and profile it belongs to.
pub proof fn health_record_carries_the_accounts(
    counters: HealthCounters,
    reset_cause_raw: u32,
    identity: DeviceIdentity,
    scan: ProfileScan,
    settings: TelemetrySettings,
    health: DeviceHealth,
)
    requires
        health == crate::telemetry_v2::health_of(
            counters,
            reset_cause_raw,
            identity,
            scan,
            settings,
        ),
    ensures
        health.successful_sensor_scans == counters.successful_sensor_scans,
        health.failed_sensor_scans == counters.failed_sensor_scans,
        health.incomplete_profiles == counters.incomplete_profiles,
        health.i2c_errors == counters.i2c_errors,
        health.radio_tx_errors == counters.radio_tx_errors,
        health.dropped_profiles == counters.dropped_profiles,
        health.dropped_fragments == counters.dropped_fragments,
        health.overwritten_fields == counters.overwritten_fields,
        health.last_sensor_error == counters.last_sensor_error,
        health.last_radio_error == counters.last_radio_error,
        health.reset_cause_raw == reset_cause_raw,
        health.current_sample_interval_ms == settings.scan_interval_ms,
        health.firmware_version == settings.build.version,
        health.profile_id == 0x0354,
        health.profile_version == 1,
        health.calibrated_mcu_temperature_centi_celsius is None,
        health.calibrated_vdd_millivolt is None,
        health.flags.counters_saturated <==> counters.saturated(),
        health.flags.boot_id_unavailable <==> !identity.boot_id_valid,
        health.flags.config_mismatch <==> !scan.spec_identity_available(),
        health.flags.last_scan_incomplete <==> !is_flawless(scan),
        health.flags.sensor_error_seen <==> counters.sensor_errors_seen,
        health.flags.radio_error_seen <==> counters.radio_tx_errors > 0,
{
}

/// Over a run that starts with zero counts, the health record after its events
/// reports as successful exactly the flawless scans and as failed and incomplete
/// exactly the others, and tallies everything else likewise.
pub proof fn health_record_tallies_the_run(
    events: Seq<AccountEvent>,
    reset_cause_raw: u32,
    identity: DeviceIdentity,
    scan: ProfileScan,
    settings: TelemetrySettings,
    health: DeviceHealth,
)
    requires
        never_saturated(events),
        health == crate::telemetry_v2::health_of(
            accounts(events),
            reset_cause_raw,
            identity,
            scan,
            settings,
        ),
    ensures
        health.successful_sensor_scans == tally(events, flawless_scans()),
        health.failed_sensor_scans == tally(events, flawed_scans()),
        health.incomplete_profiles == tally(events, flawed_scans()),
        health.i2c_errors == tally(events, bus_errors()),
        health.overwritten_fields == tally(events, overwritten()),
        health.radio_tx_errors == tally(events, radio_failures()),
        health.dropped_fragments == tally(events, lost_fragments()),
        health.dropped_profiles == tally(events, lost_profiles()),
        !health.flags.counters_saturated,
        health.flags.sensor_error_seen <==> health.failed_sensor_scans > 0,
        health.flags.radio_error_seen <==> health.radio_tx_errors > 0,
{
    accounts_are_tallies(events);
    assert(events.take(events.len() as int) == events);
}

/// One more scan changes the health record by one: a flawless scan raises the
/// successes and leaves the failures, any other raises the failures and the
/// incomplete profiles and leaves the successes.
pub proof fn one_scan_changes_the_health_record_by_one(
    counters: HealthCounters,
    reset_cause_raw: u32,
    identity: DeviceIdentity,
    scan: ProfileScan,
    settings: TelemetrySettings,
    health_before: DeviceHealth,
    health_after: DeviceHealth,
)
    requires
        !counters.saturated(),
        health_before == crate::telemetry_v2::health_of(
            counters,
            reset_cause_raw,
            identity,
            scan,
            settings,
        ),
        health_after == crate::telemetry_v2::health_of(
            counters.after_scan(scan),
            reset_cause_raw,
            identity,
            scan,
            settings,
        ),
    ensures
        is_flawless(scan) ==> {
            &&& health_after.successful_sensor_scans == health_before.successful_sensor_scans + 1
            &&& health_after.failed_sensor_scans == health_before.failed_sensor_scans
            &&& health_after.incomplete_profiles == health_before.incomplete_profiles
        },
        !is_flawless(scan) ==> {
            &&& health_after.successful_sensor_scans == health_before.successful_sensor_scans
            &&& health_after.failed_sensor_scans == health_before.failed_sensor_scans + 1
            &&& health_after.incomplete_profiles == health_before.incomplete_profiles + 1
            &&& health_after.last_sensor_error == scan.spec_last_error_code()
            &&& health_after.flags.sensor_error_seen
        },
        health_after.radio_tx_errors == health_before.radio_tx_errors,
        health_after.dropped_profiles == health_before.dropped_profiles,
        health_after.dropped_fragments == health_before.dropped_fragments,
        health_after.last_radio_error == health_before.last_radio_error,
{
    successful_means_flawless(scan);
}

/// The code and the bus errors that a startup event is reported with, if it is a
/// failure: two failed transactions for a probe of both addresses, the code of
/// the operation for a failed operation, and otherwise no bus error.
pub open spec fn startup_report(event: StartupEvent) -> Option<(int, int)> {
    match event {
        StartupEvent::ProbeFailed => Some((0x0101, 2)),
        StartupEvent::InitializationFailed { error } => Some(
            (error.operation.spec_code() as int, one_if(error.source is Bus)),
        ),
        StartupEvent::ConfigurationFailed { error } => Some(
            (error.operation.spec_code() as int, one_if(error.source is Bus)),
        ),
        StartupEvent::Configured { metadata: None } => Some((0x0201, 0)),
        StartupEvent::Configured { metadata: Some(found) } => if found.exact_configuration_verified {
            None
        } else {
            Some((4, 0))
        },
        StartupEvent::TelemetryRefused => Some((0x0202, 0)),
        _ => None,
    }
}

/// A startup event leads to its own stage. Each failure is retried from the last
/// stage that needs nothing lost, a failed initialization waits for a reset, and
/// each success leads to the next stage.
pub proof fn startup_event_leads_to_its_stage(startup: Startup, event: StartupEvent)
    ensures
        ({
            let after = startup.after(event);
            let failed = startup_report(event) is Some;
            &&& after.stage is Probe <==> event is ProbeFailed
            &&& after.stage is Initialize <==> event is ProbeSucceeded
            &&& after.stage is ResetRequired <==> event is InitializationFailed
            &&& after.stage is Configure <==> event is Initialized || event is ConfigurationFailed
                || event is TelemetryRefused || (event is Configured && failed)
            &&& after.stage is Establish <==> event is Configured && !failed
            &&& after.stage is Running <==> event is TelemetryEstablished
            &&& after.context == startup.context
            &&& after.route == startup.route
        }),
{
}

/// A startup failure is reported with its code and its bus errors. The first one
/// opens the accounts, which start at zero; each later one replaces the failure,
/// adds its bus errors and leaves every other account alone. Other events leave
/// the accounts alone.
pub proof fn startup_failures_are_accounted(startup: Startup, event: StartupEvent)
    requires
        startup.reporter matches Some(reporter) ==> reporter.i2c_errors < u32::MAX - 2,
    ensures
        crate::runtime::health_due(event) <==> startup_report(event) is Some,
        startup_report(event) is None ==> startup.after(event).reporter == startup.reporter,
        startup_report(event) matches Some(report) ==> (
        startup.after(event).reporter matches Some(after) && {
            &&& after.failure.last_sensor_error == report.0
            &&& after.failure.i2c_errors == report.1
            &&& startup.reporter is None ==> {
                &&& after.context == startup.context
                &&& after.i2c_errors == report.1
                &&& after.next_sequence == 0
                &&& after.output_failures == 0
                &&& after.radio_tx_errors == 0
                &&& after.last_radio_error == 0
            }
            &&& startup.reporter matches Some(before) ==> {
                &&& after.context == before.context
                &&& after.i2c_errors == before.i2c_errors + report.1
                &&& after.next_sequence == before.next_sequence
                &&& after.output_failures == before.output_failures
                &&& after.radio_tx_errors == before.radio_tx_errors
                &&& after.last_radio_error == before.last_radio_error
            }
        }),
{
}

/// A health record of a failed startup takes one sequence number, wrapping. A
/// refused or failed record counts as one output failure, and as a radio failure
/// exactly if the radio of a radio node failed; a record that a radio node
/// delivered clears the last radio error.
pub proof fn startup_records_are_accounted(startup: Startup, delivery: HealthDelivery)
    requires
        startup.reporter is Some,
        startup.reporter->Some_0.output_failures < u32::MAX,
        startup.reporter->Some_0.radio_tx_errors < u32::MAX,
    ensures
        ({
            let before = startup.reporter->Some_0;
            let over_radio = startup.route is LoraP2p;
            &&& startup.after_record().reporter matches Some(after) && {
                &&& after.next_sequence as int == (before.next_sequence + 1) % 0x1_0000_0000
                &&& after == (Reporter { next_sequence: after.next_sequence, ..before })
            }
            &&& startup.after_delivery(delivery).reporter matches Some(after) && {
                &&& after.output_failures == before.output_failures + one_if(
                    !(delivery is Delivered),
                )
                &&& after.radio_tx_errors == before.radio_tx_errors + one_if(
                    delivery == (HealthDelivery::Failed { radio: true }) && over_radio,
                )
                &&& after.last_radio_error == if over_radio && delivery is Delivered {
                    0
                } else if over_radio && delivery == (HealthDelivery::Failed { radio: true }) {
                    1
                } else {
                    before.last_radio_error as int
                }
                &&& after.next_sequence == before.next_sequence
                &&& after.i2c_errors == before.i2c_errors
                &&& after.failure == before.failure
                &&& after.context == before.context
            }
            &&& startup.after_record().stage == startup.stage
            &&& startup.after_delivery(delivery).stage == startup.stage
        }),
{
}

/// The sum of what each reporter event counts for.
pub open spec fn reported(
    events: Seq<ReporterEvent>,
    worth: spec_fn(ReporterEvent) -> int,
) -> int
    decreases events.len(),
{
    if events.len() == 0 {
        0
    } else {
        reported(events.drop_last(), worth) + worth(events.last())
    }
}

/// Every failed output counts one.
pub open spec fn failed_outputs() -> spec_fn(ReporterEvent) -> int {
    |event: ReporterEvent| one_if(event is OutputFailed)
}

/// Every output that the radio failed counts one.
pub open spec fn failed_radio_outputs() -> spec_fn(ReporterEvent) -> int {
    |event: ReporterEvent|
        one_if(event matches ReporterEvent::OutputFailed { radio_output } && radio_output)
}

/// Every startup failure counts its bus errors.
pub open spec fn startup_bus_errors() -> spec_fn(ReporterEvent) -> int {
    |event: ReporterEvent|
        match event {
            ReporterEvent::StartupFailed(failure) => failure.i2c_errors as int,
            _ => 0,
        }
}

/// The accounts of a failed startup are tallies too, short of the largest count:
/// its bus errors those of every failure, its output failures the failed outputs,
/// and its radio errors those of them that the radio failed.
pub proof fn startup_accounts_are_tallies(
    context: Context,
    failure: StartupFailure,
    events: Seq<ReporterEvent>,
)
    requires
        events.len() < u32::MAX,
        failure.i2c_errors + reported(events, startup_bus_errors()) <= u32::MAX,
    ensures
        ({
            let after = Reporter::started(context, failure).after_all(events);
            &&& after.i2c_errors == failure.i2c_errors + reported(events, startup_bus_errors())
            &&& after.output_failures == reported(events, failed_outputs())
            &&& after.radio_tx_errors == reported(events, failed_radio_outputs())
            &&& after.context == context
        }),
        0 <= reported(events, failed_outputs()) <= events.len(),
        0 <= reported(events, failed_radio_outputs()) <= events.len(),
        0 <= reported(events, startup_bus_errors()),
    decreases events.len(),
{
    if events.len() != 0 {
        let before = events.drop_last();
        lemma_reported_bus_errors(before);
        startup_accounts_are_tallies(context, failure, before);
    }
}

proof fn lemma_reported_bus_errors(events: Seq<ReporterEvent>)
    ensures
        0 <= reported(events, startup_bus_errors()),
    decreases events.len(),
{
    if events.len() != 0 {
        lemma_reported_bus_errors(events.drop_last());
    }
}

/// The health record of a failed startup carries its accounts, the failure's
/// code, and the boot it belongs to. It names the boot only if the hardware
/// generator gave its nonce, and claims no scan.
pub proof fn startup_record_carries_its_accounts(reporter: Reporter, uptime_ms: u64)
    ensures
        ({
            let context = reporter.context;
            let common = reporter.header(uptime_ms);
            let health = reporter.spec_snapshot();
            let nonce = context.boot_id_valid && context.boot_id_from_hardware_rng;
            &&& common.node_id == context.node_id
            &&& common.sequence == reporter.next_sequence
            &&& common.uptime_ms == uptime_ms
            &&& common.config_id == 0
            &&& common.reset_cause_flags == context.reset_cause_flags
            &&& common.boot_id_valid <==> nonce
            &&& common.boot_id_from_hardware_rng <==> nonce
            &&& nonce ==> common.boot_id == context.boot_id
            &&& !nonce ==> common.boot_id == 0
            &&& health.i2c_errors == reporter.i2c_errors
            &&& health.radio_tx_errors == reporter.radio_tx_errors
            &&& health.last_sensor_error == reporter.failure.last_sensor_error
            &&& health.last_radio_error == reporter.last_radio_error
            &&& health.reset_cause_raw == context.reset_cause_raw
            &&& health.current_sample_interval_ms == context.sample_interval_ms
            &&& health.firmware_version == context.firmware_version
            &&& health.dropped_profiles == 0
            &&& health.dropped_fragments == 0
            &&& health.overwritten_fields == 0
            &&& health.calibrated_mcu_temperature_centi_celsius is None
            &&& health.calibrated_vdd_millivolt is None
            &&& health.flags.boot_id_unavailable <==> !nonce
            &&& health.flags.radio_error_seen <==> reporter.radio_tx_errors > 0
            &&& health.flags.counters_saturated <==> !(reporter.i2c_errors < 0xffff_ffff
                && reporter.radio_tx_errors < 0xffff_ffff && reporter.output_failures
                < 0xffff_ffff)
        }),
{
}

/// Scanning takes over what startup counted: its bus and radio errors and the
/// latest of both, with sensor errors seen. Everything about scans and profiles
/// starts at zero, and so does everything after a startup without a failure.
pub proof fn scanning_takes_over_the_startup_accounts(startup: Startup)
    ensures
        ({
            let counters = startup.spec_initial_counters();
            &&& counters.successful_sensor_scans == 0
            &&& counters.failed_sensor_scans == 0
            &&& counters.incomplete_profiles == 0
            &&& counters.dropped_profiles == 0
            &&& counters.dropped_fragments == 0
            &&& counters.overwritten_fields == 0
            &&& counters.sensor_errors_seen <==> startup.reporter is Some
            &&& startup.reporter is None ==> counters.i2c_errors == 0 && counters.radio_tx_errors
                == 0 && counters.last_sensor_error == 0 && counters.last_radio_error == 0
            &&& startup.reporter matches Some(reporter) ==> {
                &&& counters.i2c_errors == reporter.i2c_errors
                &&& counters.radio_tx_errors == reporter.radio_tx_errors
                &&& counters.last_sensor_error == reporter.failure.last_sensor_error
                &&& counters.last_radio_error == reporter.last_radio_error
            }
        }),
{
}

/// Dropping a profile before it is encoded leaves out its sequence number,
/// wrapping, and counts one dropped profile and all its fragments. A scan that
/// could not begin counts as failed and incomplete besides.
pub proof fn dropped_profiles_leave_a_gap(before: Node, after: Node)
    requires
        after.could_not_scan(before),
        !before.counters.saturated(),
        before.counters.dropped_fragments + before.expected_fragment_count <= u32::MAX,
    ensures
        after.telemetry.next_scan_sequence as int == (before.telemetry.next_scan_sequence + 1)
            % 0x1_0000_0000,
        after.counters.dropped_profiles == before.counters.dropped_profiles + 1,
        after.counters.dropped_fragments == before.counters.dropped_fragments
            + before.expected_fragment_count,
        after.counters.failed_sensor_scans == before.counters.failed_sensor_scans + 1,
        after.counters.incomplete_profiles == before.counters.incomplete_profiles + 1,
        after.counters.successful_sensor_scans == before.counters.successful_sensor_scans,
        after.counters.i2c_errors == before.counters.i2c_errors,
        after.counters.radio_tx_errors == before.counters.radio_tx_errors,
        after.sensor == before.sensor,
        after.telemetry.config_id == before.telemetry.config_id,
        after.telemetry.config == before.telemetry.config,
        after.telemetry.config_delivery == before.telemetry.config_delivery,
        after.telemetry.identity == before.telemetry.identity,
        after.telemetry.reset_cause == before.telemetry.reset_cause,
        after.telemetry.settings == before.telemetry.settings,
        after.telemetry.canonical_idac == before.telemetry.canonical_idac,
        after.expected_fragment_count == before.expected_fragment_count,
{
}

/// A finished scan is counted once. One that was verified has the configuration
/// of its own metadata identified before anything is encoded; one that was not
/// is encoded at once, under the sequence number that is due.
pub proof fn finished_scan_is_counted_then_identified_or_encoded(
    before: Node,
    after: Node,
    scan: ProfileScan,
    config_uptime_ms: u64,
    health_uptime_ms: u64,
    phase: CyclePhase,
)
    requires
        after.took_scan(before, scan, config_uptime_ms, health_uptime_ms, phase),
        !before.counters.saturated(),
    ensures
        after.counters.successful_sensor_scans == before.counters.successful_sensor_scans + one_if(
            is_flawless(scan),
        ),
        after.counters.failed_sensor_scans == before.counters.failed_sensor_scans + one_if(
            !is_flawless(scan),
        ),
        after.sensor == before.sensor,
        phase is Identify <==> scan.configuration_verified && scan.pre_trigger_metadata is Some,
        phase is Encode <==> !scan.configuration_verified,
        phase is Wait <==> scan.configuration_verified && scan.pre_trigger_metadata is None,
        phase matches CyclePhase::Identify { config } ==> {
            &&& crate::telemetry_v2::canonical_config(
                config,
                scan.pre_trigger_metadata->Some_0,
                before.telemetry.settings,
                before.telemetry.canonical_idac@,
            )
            &&& after.telemetry == before.telemetry
        },
        phase matches CyclePhase::Encode { records } ==> {
            &&& records.sequence == before.telemetry.next_scan_sequence
            &&& before.telemetry.reports(
                records,
                scan,
                after.counters,
                config_uptime_ms,
                health_uptime_ms,
            )
        },
        !(phase is Identify) ==> after.telemetry.next_scan_sequence as int == (
        before.telemetry.next_scan_sequence + 1) % 0x1_0000_0000,
        phase is Wait ==> after.counters.dropped_profiles == before.counters.dropped_profiles + 1,
        !(phase is Wait) ==> after.counters.dropped_profiles == before.counters.dropped_profiles,
        after.expected_fragment_count == before.expected_fragment_count,
{
    successful_means_flawless(scan);
}

/// Once its configuration is identified, a verified scan is encoded under that
/// ID and nothing else is counted; if the codec refuses the configuration, the
/// profile is dropped and the configuration stays what it was.
pub proof fn identified_scan_is_encoded_under_its_id(
    before: Node,
    after: Node,
    scan: ProfileScan,
    metadata: SensorMetadata,
    config_id: Result<u64, CodecError>,
    config_uptime_ms: u64,
    health_uptime_ms: u64,
    phase: CyclePhase,
)
    requires
        after.took_id(
            before,
            scan,
            metadata,
            config_id,
            config_uptime_ms,
            health_uptime_ms,
            phase,
        ),
        scan.configuration_verified,
        !before.counters.saturated(),
    ensures
        after.telemetry.next_scan_sequence as int == (before.telemetry.next_scan_sequence + 1)
            % 0x1_0000_0000,
        after.sensor == before.sensor,
        after.expected_fragment_count == before.expected_fragment_count,
        config_id is Err <==> phase is Wait,
        config_id is Err ==> {
            &&& after.counters.dropped_profiles == before.counters.dropped_profiles + 1
            &&& after.telemetry.config_id == before.telemetry.config_id
            &&& after.telemetry.config == before.telemetry.config
            &&& after.telemetry.config_delivery == before.telemetry.config_delivery
        },
        config_id matches Ok(id) ==> {
            &&& phase matches CyclePhase::Encode { records } && {
                &&& records.sequence == before.telemetry.next_scan_sequence
                &&& records.profile.common.config_id == id
                &&& records.profile.common.uptime_ms == scan.started_at_ms
                &&& crate::telemetry_v2::records_scan(
                    records.profile.scan,
                    scan,
                    after.telemetry.config,
                )
                &&& records.config matches Some(frame) ==> frame.config == after.telemetry.config
                    && frame.common.config_id == id
            }
            &&& after.telemetry.config_id == id
            &&& after.counters == before.counters
            &&& id == before.telemetry.config_id ==> after.telemetry.config
                == before.telemetry.config
            &&& id != before.telemetry.config_id ==> crate::telemetry_v2::canonical_config(
                after.telemetry.config,
                metadata,
                before.telemetry.settings,
                before.telemetry.canonical_idac@,
            )
        },
{
}

/// Encoded records are emitted, with the configuration record exactly if there
/// is one; records that the codec refused are one dropped profile.
pub proof fn encoded_records_are_emitted_or_dropped(
    before: Node,
    after: Node,
    records: EncodedScan,
    fragment_count: Result<u8, CodecError>,
    phase: CyclePhase,
)
    requires
        after.took_encoding(before, records, fragment_count, phase),
        !before.counters.saturated(),
        before.counters.dropped_fragments + before.expected_fragment_count <= u32::MAX,
    ensures
        fragment_count matches Ok(count) ==> {
            &&& phase matches CyclePhase::Emit { config_included, fragment_count } && fragment_count
                == count && (config_included <==> records.config is Some)
            &&& after == before
        },
        fragment_count is Err ==> {
            &&& phase is Wait
            &&& after.counters.dropped_profiles == before.counters.dropped_profiles + 1
            &&& after.counters.dropped_fragments == before.counters.dropped_fragments
                + before.expected_fragment_count
            &&& after.telemetry == before.telemetry
            &&& after.sensor == before.sensor
            &&& after.expected_fragment_count == before.expected_fragment_count
        },
{
}

/// A batch that was sent settles its configuration record, clears the last radio
/// error of a radio node and counts nothing. A batch that failed settles the
/// configuration record exactly if it had one and got past it, counts the
/// fragments it did not deliver and one profile for them, and counts a radio
/// error exactly if the radio of a radio node failed. The reconfiguration marker
/// is cleared by a flawless scan that carries it and lost no fragment, and by
/// nothing else.
pub proof fn batch_is_accounted_by_what_was_delivered<E>(
    before: Node,
    after: Node,
    scan: ProfileScan,
    config_included: bool,
    fragment_count: u8,
    outcome: Result<EmitReport, EmitError<E>>,
)
    requires
        after.took_batch(before, scan, config_included, fragment_count, outcome),
        !before.counters.saturated(),
        before.counters.dropped_fragments + fragment_count <= u32::MAX,
        0 < fragment_count < 255,
    ensures
        ({
            let over_radio = before.telemetry.settings.route is LoraP2p;
            let lost = match outcome {
                Ok(_) => 0,
                Err(error) => undelivered(
                    config_included,
                    fragment_count as int,
                    error.completed_records as int,
                ),
            };
            let radio_failed = outcome matches Err(error) && error.source is Radio && over_radio;
            let settled = config_included && match outcome {
                Ok(_) => true,
                Err(error) => error.completed_records >= 1,
            };
            &&& after.counters.dropped_fragments == before.counters.dropped_fragments + lost
            &&& after.counters.dropped_profiles == before.counters.dropped_profiles + one_if(
                lost > 0,
            )
            &&& after.counters.radio_tx_errors == before.counters.radio_tx_errors + one_if(
                radio_failed,
            )
            &&& after.counters.last_radio_error == if radio_failed {
                1
            } else if outcome is Ok && over_radio {
                0
            } else {
                before.counters.last_radio_error as int
            }
            &&& after.counters.successful_sensor_scans == before.counters.successful_sensor_scans
            &&& after.counters.failed_sensor_scans == before.counters.failed_sensor_scans
            &&& after.counters.i2c_errors == before.counters.i2c_errors
            &&& after.counters.last_sensor_error == before.counters.last_sensor_error
            &&& settled ==> !after.telemetry.config_delivery@.pending
                && after.telemetry.config_delivery@.delivered
            &&& !settled ==> after.telemetry.config_delivery@ == before.telemetry.config_delivery@
            &&& after.telemetry.next_scan_sequence == before.telemetry.next_scan_sequence
            &&& after.telemetry.config_id == before.telemetry.config_id
            &&& after.telemetry.config == before.telemetry.config
            &&& after.telemetry.identity == before.telemetry.identity
            &&& after.telemetry.reset_cause == before.telemetry.reset_cause
            &&& after.telemetry.settings == before.telemetry.settings
            &&& after.telemetry.canonical_idac == before.telemetry.canonical_idac
            &&& before.sensor.reconfiguration_marker_pending
                && !after.sensor.reconfiguration_marker_pending
                <==> before.sensor.reconfiguration_marker_pending && scan.sensor_reconfigured
                && is_flawless(scan) && lost == 0
            &&& after.sensor.reconfiguration_marker_pending
                ==> before.sensor.reconfiguration_marker_pending
            &&& after.sensor.metadata == before.sensor.metadata
            &&& after.sensor.identity == before.sensor.identity
            &&& after.expected_fragment_count == before.expected_fragment_count
        }),
{
    successful_means_flawless(scan);
}

/// The startup context names the boot and the build it belongs to: node and
/// nonce, the reset cause as read and as flagged, the scan interval and the
/// firmware version.
pub proof fn startup_context_names_its_boot(
    identity: DeviceIdentity,
    reset_cause: ResetCause,
    settings: TelemetrySettings,
    context: Context,
)
    requires
        call_ensures(
            crate::runtime::degraded_context,
            (identity, reset_cause, &settings),
            context,
        ),
    ensures
        context.node_id == identity.node_id,
        context.boot_id == identity.boot_id,
        context.boot_id_valid <==> identity.boot_id_valid,
        context.boot_id_from_hardware_rng <==> identity.boot_id_from_hardware_rng,
        context.reset_cause_raw == reset_cause.raw,
        context.reset_cause_flags == reset_cause.flags,
        context.sample_interval_ms == settings.scan_interval_ms,
        context.firmware_version == settings.build.version,
{
}

/// A startup begins with the probe and without accounts, and a record of it
/// exists exactly from its first failure on: under the sequence number that is
/// due, at the time it was laid out, with the accounts as they are.
pub proof fn startup_record_takes_the_sequence_that_is_due(
    context: Context,
    route: OutputRoute,
    begun: Startup,
    before: Startup,
    after: Startup,
    uptime_ms: u64,
    record: Option<EncodedHealth>,
)
    requires
        call_ensures(Startup::new, (context, route), begun),
        after.recorded(before, uptime_ms, record),
    ensures
        begun.stage is Probe,
        begun.context == context,
        begun.route == route,
        begun.reporter is None,
        record is Some <==> before.reporter is Some,
        record is None ==> after == before,
        record matches Some(encoded) ==> {
            let reporter = before.reporter->Some_0;
            &&& encoded.sequence == reporter.next_sequence
            &&& encoded.frame.common.sequence == reporter.next_sequence
            &&& encoded.frame.common.uptime_ms == uptime_ms
            &&& encoded.frame.health.i2c_errors == reporter.i2c_errors
            &&& encoded.frame.health.last_sensor_error == reporter.failure.last_sensor_error
            &&& after.reporter matches Some(updated) && updated.next_sequence as int == (
            reporter.next_sequence + 1) % 0x1_0000_0000
            &&& after.stage == before.stage
        },
{
}

} // verus!
