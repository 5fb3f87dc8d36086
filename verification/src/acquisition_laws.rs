//! What one command of a scan does, told by its reply and its times.

use bme68x::{Measurements, ProfileCollector};
use vstd::prelude::*;

use crate::bme688_profile::{
    CheckStage, Clock, ConfigurationCheck, Operation, ProfileScan, ScanPhase, ScanRun, Sensor,
    SensorCommand, SensorError, SensorIdentity, SensorMetadata, SensorReply, SetupStage,
};
use crate::driver::{
    DriverError, HeaterCalibration, HeaterConfigurationReadback, HeaterRegisters, Measurement,
    ProfileFinishReason, SensorConfigurationReadback, Variant,
};

verus! {

/// `value`, or `bound` if the value is larger.
pub open spec fn at_most(value: int, bound: int) -> int {
    if value > bound {
        bound
    } else {
        value
    }
}

/// A poll hands its fields to the collector with the time of its command, held
/// at the largest 32-bit microsecond count, and counts once. Collection goes on
/// exactly while some step lacks valid gas data, the collector accepts fields,
/// fewer than 150 polls were made and fewer than 15 seconds have passed; it ends
/// as complete exactly if every step has valid gas data, and as timed out if
/// only a bound stopped it.
pub proof fn poll_feeds_its_fields_with_its_own_time(
    sensor: Sensor,
    run: ScanRun,
    fields: Measurements,
    clock: Clock,
    sensor_after: Sensor,
    after: ScanRun,
    offset_us: u32,
)
    requires
        run.wf(),
        run.phase is Poll,
        (sensor_after, after) == run.after(sensor, SensorReply::Fields(Ok(fields)), clock),
        offset_us as int == at_most(clock.issued_us as int, 0xffff_ffff),
    ensures
        ({
            let fed = crate::driver::after_ingest_batch(
                run.collector,
                crate::driver::measurement_fields(fields),
                offset_us,
            );
            let complete = crate::driver::collector_state(fed).all_gas_valid();
            let stopped = crate::driver::collector_state(fed).frozen;
            let spent = run.poll_count + 1 >= 150 || clock.elapsed_us >= 15_000_000;
            &&& after.poll_count == run.poll_count + 1
            &&& after.phase is Poll <==> !complete && !stopped && !spent
            &&& !(after.phase is Poll) ==> after.phase is Sleep
            &&& complete ==> after.collector == crate::driver::after_finish(
                fed,
                ProfileFinishReason::Complete,
            )
            &&& !complete && stopped ==> after.collector == fed
            &&& !complete && !stopped && spent ==> after.collector
                == crate::driver::after_finish(fed, ProfileFinishReason::Timeout)
            &&& !complete && !stopped && !spent ==> after.collector == fed
            &&& after.collection_error is None
            &&& sensor_after.metadata == sensor.metadata
            &&& sensor_after.identity == sensor.identity
        }),
{
    reveal(ScanRun::after);
}

/// What the driver does with the offset of a batch: a step with valid gas data
/// that a batch adds is one of its fields and bears the offset of the batch, and
/// ending collection adds no such step.
pub open spec fn driver_keeps_offsets(collector: ProfileCollector) -> bool {
    &&& forall|fields: Seq<Measurement>, offset_us: u32, i: int|
        #![trigger crate::driver::collector_state(
            crate::driver::after_ingest_batch(collector, fields, offset_us),
        ).steps[i]]
        0 <= i < 10 ==> crate::driver::gas_slot_from(
            crate::driver::collector_state(collector).steps[i],
            crate::driver::collector_state(
                crate::driver::after_ingest_batch(collector, fields, offset_us),
            ).steps[i],
            fields,
            offset_us,
        )
    &&& forall|ended: ProfileCollector, reason: ProfileFinishReason, i: int|
        #![trigger crate::driver::collector_state(
            crate::driver::after_finish(ended, reason),
        ).steps[i]]
        0 <= i < 10 ==> crate::driver::gas_slot_unchanged(
            crate::driver::collector_state(crate::driver::after_finish(ended, reason)).steps[i],
            crate::driver::collector_state(ended).steps[i],
        )
}

/// Slot `i` holds a step with valid gas data that it did not hold before.
pub open spec fn newly_stored(before: ScanRun, after: ScanRun, i: int) -> bool {
    &&& 0 <= i < 10
    &&& crate::driver::gas_valid_slot(crate::driver::collector_state(after.collector).steps[i])
    &&& crate::driver::collector_state(after.collector).steps[i]
        != crate::driver::collector_state(before.collector).steps[i]
}

/// The offset that slot `i` holds.
pub open spec fn offset_at(run: ScanRun, i: int) -> int {
    crate::driver::collector_state(run.collector).steps[i]->Some_0.observed_offset_us as int
}

/// Every step with valid gas data that a reply adds to a scan was read by that
/// poll and bears the time of the poll's command: exactly, up to the largest
/// 32-bit microsecond count, and at that count beyond it.
pub proof fn new_steps_bear_the_time_of_their_poll(
    sensor: Sensor,
    run: ScanRun,
    reply: SensorReply,
    clock: Clock,
    sensor_after: Sensor,
    after: ScanRun,
    i: int,
)
    requires
        (sensor_after, after) == run.after(sensor, reply, clock),
        run.phase.spec_command() matches Some(command) && crate::bme688_profile::answers(
            command,
            reply,
        ),
        driver_keeps_offsets(run.collector),
        newly_stored(run, after, i),
    ensures
        run.phase is Poll,
        reply matches SensorReply::Fields(Ok(fields)) && crate::driver::measurement_fields(
            fields,
        ).contains(crate::driver::collector_state(after.collector).steps[i]->Some_0.measurement),
        clock.issued_us <= 0xffff_ffff ==> offset_at(after, i) == clock.issued_us,
        clock.issued_us > 0xffff_ffff ==> offset_at(after, i) == 0xffff_ffff,
{
    reveal(ScanRun::after);
    let state = crate::driver::collector_state(after.collector);
    let held = state.steps[i];
    if run.phase is Poll {
        let fields = crate::driver::measurement_fields(reply->Fields_0->Ok_0);
        let fed = crate::driver::after_ingest_batch(
            run.collector,
            fields,
            crate::bme688_profile::saturated_us(clock.issued_us),
        );
        assert(crate::driver::gas_slot_from(
            crate::driver::collector_state(run.collector).steps[i],
            crate::driver::collector_state(fed).steps[i],
            fields,
            crate::bme688_profile::saturated_us(clock.issued_us),
        ));
    }
}

/// Of two polls the later never gives the smaller offset.
pub proof fn later_polls_give_no_smaller_offset(
    first_sensor: Sensor,
    first: ScanRun,
    first_reply: SensorReply,
    first_clock: Clock,
    i: int,
    second_sensor: Sensor,
    second: ScanRun,
    second_reply: SensorReply,
    second_clock: Clock,
    j: int,
)
    requires
        first.phase is Poll,
        first_reply is Fields,
        second.phase is Poll,
        second_reply is Fields,
        first_clock.issued_us <= second_clock.issued_us,
        driver_keeps_offsets(first.collector),
        driver_keeps_offsets(second.collector),
        newly_stored(first, first.after(first_sensor, first_reply, first_clock).1, i),
        newly_stored(second, second.after(second_sensor, second_reply, second_clock).1, j),
    ensures
        offset_at(first.after(first_sensor, first_reply, first_clock).1, i) <= offset_at(
            second.after(second_sensor, second_reply, second_clock).1,
            j,
        ),
{
    let (first_sensor_after, first_after) = first.after(first_sensor, first_reply, first_clock);
    let (second_sensor_after, second_after) = second.after(
        second_sensor,
        second_reply,
        second_clock,
    );
    new_steps_bear_the_time_of_their_poll(
        first_sensor,
        first,
        first_reply,
        first_clock,
        first_sensor_after,
        first_after,
        i,
    );
    new_steps_bear_the_time_of_their_poll(
        second_sensor,
        second,
        second_reply,
        second_clock,
        second_sensor_after,
        second_after,
        j,
    );
}

/// Why collection ends when an operation fails with `source`.
pub open spec fn reason_for(source: DriverError) -> ProfileFinishReason {
    match source {
        DriverError::Bus => ProfileFinishReason::BusError,
        _ => ProfileFinishReason::SensorStopped,
    }
}

/// A failed drain, trigger or read ends collection: the failure is kept with the
/// operation that failed, the collector is told whether the bus failed, nothing
/// collected is fed or dropped otherwise, and Sleep comes next.
pub proof fn failed_collection_names_its_operation(
    sensor: Sensor,
    run: ScanRun,
    reply: SensorReply,
    source: DriverError,
    clock: Clock,
    sensor_after: Sensor,
    after: ScanRun,
)
    requires
        run.wf(),
        (sensor_after, after) == run.after(sensor, reply, clock),
        match run.phase {
            ScanPhase::Drain => reply == SensorReply::Fields(Err(source)),
            ScanPhase::Trigger => reply == SensorReply::Done(Err(source)),
            ScanPhase::Poll => reply == SensorReply::Fields(Err(source)),
            _ => false,
        },
    ensures
        after.collection_error matches Some(error) && error.source == source
            && error.operation.spec_code() == match run.phase {
            ScanPhase::Drain => 8int,
            ScanPhase::Trigger => 5,
            _ => 6,
        },
        after.collector == crate::driver::after_finish(
            run.collector,
            reason_for(source),
        ),
        after.phase is Sleep,
        after.sleep_error is None,
        after.recovery is None,
        after.parallel_triggered == run.parallel_triggered,
        after.pre_scan_discarded_fields == run.pre_scan_discarded_fields,
        after.poll_count == run.poll_count + if run.phase is Poll {
            1int
        } else {
            0
        },
        sensor_after.metadata == sensor.metadata,
{
    reveal(ScanRun::after);
}

/// A drain that succeeds counts the fields it discards, up to the largest 16-bit
/// count, feeds none of them, and leads to the trigger. A trigger that succeeds
/// starts polling.
pub proof fn drain_leads_to_trigger_and_trigger_to_polling(
    sensor: Sensor,
    run: ScanRun,
    reply: SensorReply,
    clock: Clock,
    sensor_after: Sensor,
    after: ScanRun,
)
    requires
        run.wf(),
        (sensor_after, after) == run.after(sensor, reply, clock),
        match run.phase {
            ScanPhase::Drain => reply matches SensorReply::Fields(Ok(_)),
            ScanPhase::Trigger => reply matches SensorReply::Done(Ok(_)),
            _ => false,
        },
    ensures
        run.phase is Drain ==> {
            &&& after.phase.spec_command() == Some(SensorCommand::Trigger)
            &&& after.pre_scan_discarded_fields as int == at_most(
                crate::driver::measurement_fields(reply->Fields_0->Ok_0).len() as int,
                0xffff,
            )
            &&& after.started_at_ms == run.started_at_ms
            &&& !after.parallel_triggered
        },
        run.phase is Trigger ==> {
            &&& after.phase.spec_command() == Some(SensorCommand::WaitAndReadFields)
            &&& after.pre_scan_discarded_fields == run.pre_scan_discarded_fields
            &&& after.started_at_ms == clock.uptime_ms
            &&& after.parallel_triggered
        },
        after.collector == run.collector,
        after.poll_count == run.poll_count,
        after.collection_error is None,
        after.pre_trigger_metadata == run.pre_trigger_metadata,
        after.configuration == run.configuration,
        sensor_after == sensor,
{
    reveal(ScanRun::after);
}

/// The scan's own Sleep request ends it, unless the request or the collection
/// failed: then one recovery begins with a readback.
pub proof fn sleep_ends_the_scan_or_starts_recovery(
    sensor: Sensor,
    run: ScanRun,
    outcome: Result<(), DriverError>,
    clock: Clock,
    sensor_after: Sensor,
    after: ScanRun,
)
    requires
        run.wf(),
        run.phase is Sleep,
        (sensor_after, after) == run.after(sensor, SensorReply::Done(outcome), clock),
    ensures
        outcome is Ok ==> after.sleep_error is None,
        outcome matches Err(source) ==> (after.sleep_error matches Some(error)
            && error.source == source && error.operation.spec_code() == 7),
        after.collection_error == run.collection_error,
        after.duration_us == clock.elapsed_us,
        outcome is Ok && run.collection_error is None ==> {
            &&& after.phase.spec_command() is None
            &&& after.recovery is None
        },
        outcome is Err || run.collection_error is Some ==> {
            &&& after.phase.spec_command() == Some(SensorCommand::ReadConfiguration)
            &&& after.phase is Recovery
            &&& after.recovery matches Some(check) && !check.verified && !check.reconfigured
                && !check.programming_attempted && check.i2c_errors == 0 && check.error is None
                && check.last_error_code == 0
        },
        after.emergency_sleep.attempts == 0,
        sensor_after == sensor,
{
    reveal(ScanRun::after);
}

/// A stop-only command counts once. One that succeeds confirms Sleep and ends
/// the scan; one that fails is kept as a failed Sleep request, counted as a bus
/// error exactly if the bus failed, and the third failure ends the scan.
pub proof fn stop_commands_end_with_success_or_the_third_failure(
    sensor: Sensor,
    run: ScanRun,
    outcome: Result<(), DriverError>,
    clock: Clock,
    sensor_after: Sensor,
    after: ScanRun,
)
    requires
        run.wf(),
        run.phase is EmergencySleep,
        run.recovery->Some_0.i2c_errors < u32::MAX,
        (sensor_after, after) == run.after(sensor, SensorReply::Done(outcome), clock),
    ensures
        after.emergency_sleep.attempts == run.emergency_sleep.attempts + 1,
        after.emergency_sleep.confirmed <==> outcome is Ok,
        after.phase is Finished <==> outcome is Ok || run.emergency_sleep.attempts == 2,
        !(after.phase is Finished) ==> after.phase.spec_command() == Some(
            SensorCommand::WaitAndSleep,
        ),
        outcome is Ok ==> after.recovery == run.recovery,
        outcome matches Err(source) ==> {
            &&& after.recovery matches Some(check) && !check.verified && check.last_error_code
                == 7 && check.error == Some(
                SensorError { operation: Operation::ReturnToSleep, source },
            ) && check.i2c_errors == run.recovery->Some_0.i2c_errors + if source
                is Bus {
                1int
            } else {
                0
            }
        },
{
    reveal(ScanRun::after);
}

/// Stop-only commands follow a recovery exactly if the scan's own Sleep request
/// had failed and the recovery did not verify the configuration. Otherwise the
/// scan is over; in either case what the recovery reprogrammed leaves the
/// reconfiguration marker pending once the scan is over.
pub proof fn unproven_sleep_leads_to_stop_commands(
    sensor: Sensor,
    run: ScanRun,
    reply: SensorReply,
    clock: Clock,
    sensor_after: Sensor,
    after: ScanRun,
)
    requires
        run.wf(),
        run.fits(sensor),
        run.phase is Recovery,
        run.phase.spec_command() matches Some(command) && crate::bme688_profile::answers(
            command,
            reply,
        ),
        (sensor_after, after) == run.after(sensor, reply, clock),
        !(after.phase is Recovery),
    ensures
        after.phase is EmergencySleep <==> run.sleep_error is Some && !(after.recovery->Some_0.verified),
        !(after.phase is EmergencySleep) ==> after.phase is Finished,
        after.phase is Finished ==> (sensor_after.reconfiguration_marker_pending
            <==> sensor.reconfiguration_marker_pending
            || after.recovery->Some_0.programming_attempted),
        after.collector == run.collector,
        after.configuration == run.configuration,
        after.sleep_error == run.sleep_error,
{
    reveal(ScanRun::after);
}

/// Each reply changes only what its command is about: a drain the discarded
/// fields, a trigger whether the heater ran, a poll the poll count, the scan's
/// Sleep request its own failure, a stop-only command the stop commands, checks
/// the metadata. Only while collecting is the collector touched, and only its
/// end decides whether the scan carries the marker.
pub proof fn each_reply_changes_only_its_own_part(
    sensor: Sensor,
    run: ScanRun,
    reply: SensorReply,
    clock: Clock,
    sensor_after: Sensor,
    after: ScanRun,
)
    requires
        (sensor_after, after) == run.after(sensor, reply, clock),
    ensures
        !(run.phase is Drain) ==> after.pre_scan_discarded_fields == run.pre_scan_discarded_fields,
        !(run.phase is Trigger) ==> after.parallel_triggered == run.parallel_triggered
            && after.started_at_ms == run.started_at_ms,
        !(run.phase is Poll) ==> after.poll_count == run.poll_count,
        !(run.phase is Sleep) ==> after.sleep_error == run.sleep_error && after.duration_us
            == run.duration_us,
        !(run.phase is EmergencySleep) ==> after.emergency_sleep == run.emergency_sleep,
        !(run.phase is Drain || run.phase is Trigger || run.phase is Poll)
            ==> after.collection_error == run.collection_error,
        run.collecting() ==> after.recovery == run.recovery,
        !run.collecting() ==> after.collector == run.collector && after.configuration
            == run.configuration,
        !(run.phase is Preflight) ==> {
            &&& after.pre_trigger_metadata == run.pre_trigger_metadata
            &&& after.configuration == (ConfigurationCheck {
                reconfigured: after.configuration.reconfigured,
                ..run.configuration
            })
            &&& run.collecting() && after.collecting() ==> after.configuration == run.configuration
        },
        !(run.phase is Preflight || run.phase is Recovery) ==> sensor_after.metadata
            == sensor.metadata,
        sensor_after.identity == sensor.identity,
        run.phase is Finished ==> after == run && sensor_after == sensor,
{
    reveal(ScanRun::after);
}

/// When collection ends after the preflight, a configuration that was restored
/// for this scan leaves the marker pending, nothing else does, and the scan
/// carries a pending marker exactly if its heater ran.
pub proof fn ended_collection_keeps_the_restored_marker(
    sensor: Sensor,
    run: ScanRun,
    reply: SensorReply,
    clock: Clock,
    sensor_after: Sensor,
    after: ScanRun,
)
    requires
        run.wf(),
        run.phase is Drain || run.phase is Trigger || run.phase is Poll,
        (sensor_after, after) == run.after(sensor, reply, clock),
    ensures
        after.phase is Sleep ==> {
            &&& sensor_after.reconfiguration_marker_pending
                <==> sensor.reconfiguration_marker_pending || run.configuration.reconfigured
            &&& after.configuration.reconfigured <==> sensor_after.reconfiguration_marker_pending
                && run.parallel_triggered
        },
        !(after.phase is Sleep) ==> sensor_after.reconfiguration_marker_pending
            == sensor.reconfiguration_marker_pending,
{
    reveal(ScanRun::after);
}

/// A recovery is one configuration check: each reply does to it what it does to
/// a check, and it goes on with the stage that the check asks for. What a
/// recovery reprogrammed leaves the marker pending when the scan is over, also
/// after stop-only commands.
pub proof fn recovery_is_one_check(
    sensor: Sensor,
    run: ScanRun,
    reply: SensorReply,
    clock: Clock,
    sensor_after: Sensor,
    after: ScanRun,
)
    requires
        run.wf(),
        run.fits(sensor),
        (sensor_after, after) == run.after(sensor, reply, clock),
    ensures
        run.phase matches ScanPhase::Recovery(stage) ==> {
            let (metadata, check, next) = crate::bme688_profile::check_after(
                sensor.identity,
                sensor.metadata,
                run.recovery->Some_0,
                stage,
                reply,
            );
            &&& after.recovery == Some(check)
            &&& sensor_after.metadata == metadata
            &&& next matches Some(following) ==> after.phase == ScanPhase::Recovery(following)
            &&& next is None ==> !(after.phase is Recovery)
            &&& next is Some ==> sensor_after.reconfiguration_marker_pending
                == sensor.reconfiguration_marker_pending
        },
        run.phase is EmergencySleep && after.phase is Finished ==> (
        sensor_after.reconfiguration_marker_pending <==> sensor.reconfiguration_marker_pending
            || after.recovery->Some_0.programming_attempted),
        run.phase is EmergencySleep && !(after.phase is Finished) ==> sensor_after == sensor,
{
    reveal(ScanRun::after);
}

/// The reply is a failure with `source`.
pub open spec fn fails_with(reply: SensorReply, source: DriverError) -> bool {
    ||| reply == SensorReply::Done(Err(source))
    ||| reply == SensorReply::ReadBack(Err(source))
    ||| reply == SensorReply::Fields(Err(source))
}

/// A failed command of a configuration check is kept with the operation that
/// failed, under its code, and counted as a bus error exactly if the bus failed.
/// The metadata no longer counts as exact but is otherwise kept, nothing is
/// verified by a failure, and a failed readback leads to reprogramming, failed
/// programming to Sleep, and a failed Sleep request to the end of the check.
pub proof fn failed_check_names_its_operation(
    sensor: Sensor,
    check: ConfigurationCheck,
    stage: CheckStage,
    reply: SensorReply,
    source: DriverError,
    metadata_after: Option<SensorMetadata>,
    after: ConfigurationCheck,
    next: Option<CheckStage>,
)
    requires
        crate::bme688_profile::answers(stage.spec_command(), reply),
        fails_with(reply, source),
        check.i2c_errors < u32::MAX,
        crate::bme688_profile::check_in_progress(check, stage, sensor),
        (metadata_after, after, next) == crate::bme688_profile::check_after(
            sensor.identity,
            sensor.metadata,
            check,
            stage,
            reply,
        ),
    ensures
        after.error matches Some(error) && error.source == source && error.operation.spec_code()
            == after.last_error_code,
        after.last_error_code == match stage {
            CheckStage::ReadBack => 4int,
            CheckStage::ProgramEnvironment => 2,
            CheckStage::ProgramHeater => 3,
            CheckStage::ReadProgrammed => 4,
            CheckStage::Sleep => 7,
        },
        source is Bus ==> after.i2c_errors == check.i2c_errors + 1,
        !(source is Bus) ==> after.i2c_errors == check.i2c_errors,
        after.programming_attempted,
        !after.verified,
        !after.reconfigured,
        metadata_after is Some <==> sensor.metadata is Some,
        metadata_after matches Some(metadata) ==> !metadata.exact_configuration_verified
            && metadata.chip_id == sensor.metadata->Some_0.chip_id && metadata.variant
            == sensor.metadata->Some_0.variant && metadata.address
            == sensor.metadata->Some_0.address && metadata.calibration_fingerprint
            == sensor.metadata->Some_0.calibration_fingerprint && metadata.readback
            == sensor.metadata->Some_0.readback,
        next.is_some() <==> !(stage is Sleep),
        next matches Some(following) ==> following.spec_command() == match stage {
            CheckStage::ReadBack => SensorCommand::ProgramEnvironment,
            _ => SensorCommand::Sleep,
        },
{
}

/// A readback is kept as the sensor's metadata, whatever it holds. The first
/// one ends the check if it holds the exact profile and leads to reprogramming
/// otherwise; the one after reprogramming verifies the configuration exactly if
/// it holds the exact profile, and leads to Sleep either way. A readback that
/// does not hold the profile is reported under code 4 but is no bus error.
pub proof fn readback_decides_the_check(
    sensor: Sensor,
    check: ConfigurationCheck,
    stage: CheckStage,
    readback: SensorConfigurationReadback,
    metadata_after: Option<SensorMetadata>,
    after: ConfigurationCheck,
    next: Option<CheckStage>,
)
    requires
        stage is ReadBack || stage is ReadProgrammed,
        crate::bme688_profile::check_in_progress(check, stage, sensor),
        (metadata_after, after, next) == crate::bme688_profile::check_after(
            sensor.identity,
            sensor.metadata,
            check,
            stage,
            SensorReply::ReadBack(Ok(readback)),
        ),
    ensures
        metadata_after matches Some(metadata) && metadata.readback == readback
            && metadata.chip_id == sensor.identity.chip_id && metadata.variant
            == sensor.identity.variant && metadata.address == sensor.identity.address
            && metadata.calibration_fingerprint == sensor.identity.calibration_fingerprint && (
        metadata.exact_configuration_verified <==> sensor.identity.preflight_chip_id
            == sensor.identity.chip_id && crate::bme688_profile::holds_profile(
            readback,
            sensor.identity.variant,
            crate::bme688_profile::profile_resistances(
                sensor.identity.calibration,
                sensor.identity.ambient_temperature_celsius,
            ),
        )),
        after.verified == metadata_after->Some_0.exact_configuration_verified,
        after.reconfigured <==> after.verified && stage is ReadProgrammed,
        after.programming_attempted <==> !(after.verified && stage is ReadBack),
        after.i2c_errors == check.i2c_errors,
        after.error == check.error,
        !after.verified ==> after.last_error_code == 4,
        after.verified ==> after.last_error_code == check.last_error_code,
        next is None <==> after.verified && stage is ReadBack,
        next matches Some(following) ==> following.spec_command() == match stage {
            CheckStage::ReadBack => SensorCommand::ProgramEnvironment,
            _ => SensorCommand::Sleep,
        },
{
}

/// Reprogramming writes the environment, then the heater, then reads back; the
/// Sleep request after it ends the check. None of them changes the metadata or
/// the outcome when it succeeds.
pub proof fn reprogramming_keeps_its_order(
    sensor: Sensor,
    check: ConfigurationCheck,
    stage: CheckStage,
    metadata_after: Option<SensorMetadata>,
    after: ConfigurationCheck,
    next: Option<CheckStage>,
)
    requires
        !(stage is ReadBack) && !(stage is ReadProgrammed),
        (metadata_after, after, next) == crate::bme688_profile::check_after(
            sensor.identity,
            sensor.metadata,
            check,
            stage,
            SensorReply::Done(Ok(())),
        ),
    ensures
        metadata_after == sensor.metadata,
        after == check,
        stage.spec_command() == SensorCommand::ProgramEnvironment ==> (next matches Some(following)
            && following.spec_command() == SensorCommand::ProgramHeater),
        stage.spec_command() == SensorCommand::ProgramHeater ==> (next matches Some(following)
            && following.spec_command() == SensorCommand::ReadConfiguration && !(
        following is ReadBack)),
        stage.spec_command() == SensorCommand::Sleep ==> next is None,
{
}

/// While a configuration check goes on, a scan does nothing else. When the
/// preflight's check is over, the heater is approached exactly if the check
/// verified the configuration, with the metadata of the exact readback; without
/// it the scan ends unmarked and without metadata, and its collector is told
/// whether the bus failed. Reprogramming leaves the marker pending either way.
pub proof fn preflight_lets_only_verified_sensors_through(
    sensor: Sensor,
    run: ScanRun,
    reply: SensorReply,
    clock: Clock,
    sensor_after: Sensor,
    after: ScanRun,
)
    requires
        run.wf(),
        run.fits(sensor),
        run.phase is Preflight,
        run.phase.spec_command() matches Some(command) && crate::bme688_profile::answers(
            command,
            reply,
        ),
        (sensor_after, after) == run.after(sensor, reply, clock),
    ensures
        ({
            let (metadata, check, next) = crate::bme688_profile::check_after(
                sensor.identity,
                sensor.metadata,
                run.configuration,
                run.phase->Preflight_0,
                reply,
            );
            &&& sensor_after.metadata == metadata
            &&& sensor_after.identity == sensor.identity
            &&& next matches Some(stage) ==> {
                &&& after.phase == ScanPhase::Preflight(stage)
                &&& after.configuration == check
                &&& after.collector == run.collector
                &&& after.pre_trigger_metadata is None
                &&& sensor_after.reconfiguration_marker_pending
                    == sensor.reconfiguration_marker_pending
            }
            &&& next is None ==> {
                &&& sensor_after.reconfiguration_marker_pending
                    <==> sensor.reconfiguration_marker_pending || check.programming_attempted
                &&& check.verified ==> {
                    &&& after.phase.spec_command() == Some(SensorCommand::ReadFields)
                    &&& after.pre_trigger_metadata == metadata
                    &&& after.configuration == check
                    &&& after.collector == run.collector
                }
                &&& !check.verified ==> {
                    &&& after.phase.spec_command() == Some(SensorCommand::Sleep)
                    &&& after.phase is Sleep
                    &&& after.pre_trigger_metadata is None
                    &&& after.configuration == check
                    &&& after.collector == crate::driver::after_finish(
                        run.collector,
                        match check.error {
                            Some(error) => reason_for(error.source),
                            None => ProfileFinishReason::SensorStopped,
                        },
                    )
                }
            }
            &&& after.poll_count == 0
            &&& after.pre_scan_discarded_fields == 0
            &&& !after.parallel_triggered
            &&& after.collection_error is None
            &&& after.started_at_ms == run.started_at_ms
        }),
{
    reveal(ScanRun::after);
}

/// Each phase of a scan issues its own command: a readback, programming or
/// Sleep in a check, field reads while draining and polling, the trigger
/// between them, and Sleep at the end.
pub proof fn each_phase_issues_its_command(run: ScanRun, command: Option<SensorCommand>)
    requires
        command == run.phase.spec_command(),
    ensures
        command is None <==> run.phase is Finished,
        command == Some(SensorCommand::Trigger) <==> run.phase is Trigger,
        command == Some(SensorCommand::ReadFields) <==> run.phase is Drain,
        command == Some(SensorCommand::WaitAndReadFields) <==> run.phase is Poll,
        command == Some(SensorCommand::WaitAndSleep) <==> run.phase is EmergencySleep,
        command == Some(SensorCommand::Sleep) <==> run.phase is Sleep || run.phase
            == ScanPhase::Preflight(CheckStage::Sleep) || run.phase == ScanPhase::Recovery(
            CheckStage::Sleep,
        ),
        command == Some(SensorCommand::ProgramEnvironment) <==> run.phase
            == ScanPhase::Preflight(CheckStage::ProgramEnvironment) || run.phase
            == ScanPhase::Recovery(CheckStage::ProgramEnvironment),
        command == Some(SensorCommand::ProgramHeater) <==> run.phase == ScanPhase::Preflight(
            CheckStage::ProgramHeater,
        ) || run.phase == ScanPhase::Recovery(CheckStage::ProgramHeater),
{
}

/// The ten heater targets of HP-354, in degrees Celsius.
pub open spec fn hp_354_targets() -> Seq<int> {
    seq![320, 100, 100, 100, 200, 200, 200, 320, 320, 320]
}

/// How often each of the ten steps of HP-354 repeats its shared wait.
pub open spec fn hp_354_repetitions() -> Seq<int> {
    seq![5, 2, 10, 30, 5, 5, 5, 5, 5, 5]
}

/// The programmed heater profile is HP-354: enabled, with its ten targets, its
/// ten repetition counts and a shared wait of 99 ms, and it runs with double
/// temperature, sixteenfold pressure and single humidity sampling, unfiltered.
pub proof fn programmed_profile_is_hp_354()
    ensures
        ({
            let profile = crate::bme688_profile::programmed_profile();
            &&& profile.enabled
            &&& forall|i: int|
                0 <= i < 10 ==> #[trigger] profile.temperatures_celsius@[i] == hp_354_targets()[i]
            &&& forall|i: int|
                0 <= i < 10 ==> #[trigger] profile.repetition_multipliers@[i]
                    == hp_354_repetitions()[i]
            &&& profile.shared_duration_ms == 99
        }),
        ({
            let environment = crate::bme688_profile::profile_configuration();
            &&& environment.temperature_oversampling is X2
            &&& environment.pressure_oversampling is X16
            &&& environment.humidity_oversampling is X1
            &&& environment.filter is Off
            &&& environment.standby_time is NoStandby
            // Nineteen conversion cycles take the documented 41,590 us.
            &&& crate::driver::conversion_duration_us(
                2,
                environment.temperature_oversampling.spec_register_value(),
                environment.pressure_oversampling.spec_register_value(),
                environment.humidity_oversampling.spec_register_value(),
            ) == 41_590
        }),
{
}

/// A readback holds the profile exactly if every programmed register does: the
/// sensor sleeps, samples as asked for, has its heater on, starts gas conversions
/// the way its variant does, runs ten steps with the shared wait 0x73 and the
/// repetitions of HP-354, and has the heater resistances of the ten targets on
/// this sensor. The heater currents, which are never programmed, play no part.
pub proof fn exact_readback_holds_every_programmed_register(
    readback: SensorConfigurationReadback,
    variant: Variant,
    calibration: HeaterCalibration,
    ambient_celsius: i8,
)
    ensures
        crate::bme688_profile::holds_profile(
            readback,
            variant,
            crate::bme688_profile::profile_resistances(calibration, ambient_celsius),
        ) <==> {
            &&& readback.operation_mode is Sleep
            &&& readback.environmental.temperature_oversampling is X2
            &&& readback.environmental.pressure_oversampling is X16
            &&& readback.environmental.humidity_oversampling is X1
            &&& readback.environmental.filter is Off
            &&& readback.environmental.standby_time is NoStandby
            &&& readback.heater.control_gas_0 / 8 % 2 == 0
            &&& readback.heater.control_gas_1 / 16 % 4 == match variant {
                Variant::GasLow => 1int,
                Variant::GasHigh => 2,
            }
            &&& readback.heater.control_gas_1 % 16 == 10
            &&& readback.heater.registers.shared_duration == 0x73
            &&& forall|i: int|
                0 <= i < 10 ==> #[trigger] readback.heater.registers.gas_wait@[i]
                    == hp_354_repetitions()[i]
            &&& forall|i: int|
                0 <= i < 10 ==> #[trigger] readback.heater.registers.resistance@[i]
                    == crate::driver::heater_resistance_register(
                    hp_354_targets()[i] as u16,
                    ambient_celsius,
                    calibration,
                )
        },
{
    let control_0 = readback.heater.control_gas_0;
    let control_1 = readback.heater.control_gas_1;
    assert((control_0 & 0x08 == 0) == (control_0 / 8 % 2 == 0)) by (bit_vector);
    assert((control_1 >> 4) & 0x03 == control_1 / 16 % 4 && control_1 & 0x0f == control_1 % 16)
        by (bit_vector);
    let resistances = crate::bme688_profile::profile_resistances(calibration, ambient_celsius);
    let registers = readback.heater.registers;
    let multipliers = crate::profile_definition::PROFILE_REPETITION_MULTIPLIERS@;
    assert(registers.resistance@ == resistances <==> forall|i: int|
        0 <= i < 10 ==> #[trigger] registers.resistance@[i] == resistances[i]) by {
        if forall|i: int| 0 <= i < 10 ==> #[trigger] registers.resistance@[i] == resistances[i] {
            assert(registers.resistance@ =~= resistances);
        }
    }
    assert(registers.gas_wait@ == multipliers <==> forall|i: int|
        0 <= i < 10 ==> #[trigger] registers.gas_wait@[i] == multipliers[i]) by {
        if forall|i: int| 0 <= i < 10 ==> #[trigger] registers.gas_wait@[i] == multipliers[i] {
            assert(registers.gas_wait@ =~= multipliers);
        }
    }
    assert forall|i: int| 0 <= i < 10 implies #[trigger] resistances[i]
        == crate::driver::heater_resistance_register(
        hp_354_targets()[i] as u16,
        ambient_celsius,
        calibration,
    ) by {}
    assert forall|i: int| 0 <= i < 10 implies #[trigger] multipliers[i] == hp_354_repetitions()[i] by {}
}

/// `metadata` with its heater currents replaced by those of `other`.
pub open spec fn with_currents_of(metadata: SensorMetadata, other: SensorMetadata) -> SensorMetadata {
    SensorMetadata {
        readback: SensorConfigurationReadback {
            heater: HeaterConfigurationReadback {
                registers: HeaterRegisters {
                    current: other.readback.heater.registers.current,
                    ..metadata.readback.heater.registers
                },
                ..metadata.readback.heater
            },
            ..metadata.readback
        },
        ..metadata
    }
}

/// Two snapshots describe the same sensor and configuration exactly if they
/// become equal once the heater currents of one are given to the other.
pub proof fn identity_ignores_only_heater_currents(left: SensorMetadata, right: SensorMetadata)
    ensures
        left.same_identity(right) <==> with_currents_of(left, right) == right,
{
    let ours = left.readback.heater.registers;
    let theirs = right.readback.heater.registers;
    if left.same_identity(right) {
        assert(ours.resistance =~= theirs.resistance);
        assert(ours.gas_wait =~= theirs.gas_wait);
    }
}

/// A scan begins with nothing collected, counted or marked, at the time of its
/// scheduled attempt. With verification it first reads the configuration back;
/// without it, it goes straight to draining if the retained metadata is exact,
/// and otherwise straight to Sleep.
pub proof fn scan_begins_clean(
    sensor: Sensor,
    verify_configuration_before_scan: bool,
    attempt_started_at_ms: u64,
    collector: ProfileCollector,
    sensor_after: Sensor,
    run: ScanRun,
)
    requires
        (sensor_after, run) == sensor.begun(
            verify_configuration_before_scan,
            attempt_started_at_ms,
            collector,
        ),
    ensures
        run.started_at_ms == attempt_started_at_ms,
        run.duration_us == 0,
        run.poll_count == 0,
        run.collection_error is None,
        run.sleep_error is None,
        run.recovery is None,
        run.emergency_sleep.attempts == 0,
        run.emergency_sleep.i2c_errors == 0,
        !run.emergency_sleep.confirmed,
        run.pre_scan_discarded_fields == 0,
        !run.parallel_triggered,
        run.configuration.i2c_errors == 0,
        run.configuration.error is None,
        !run.configuration.programming_attempted,
        !run.configuration.reconfigured,
        sensor_after == sensor,
        verify_configuration_before_scan ==> {
            &&& run.phase.spec_command() == Some(SensorCommand::ReadConfiguration)
            &&& run.collector == collector
            &&& !run.configuration.verified
            &&& run.configuration.last_error_code == 0
            &&& run.pre_trigger_metadata is None
        },
        !verify_configuration_before_scan && sensor.spec_configuration_verified() ==> {
            &&& run.phase.spec_command() == Some(SensorCommand::ReadFields)
            &&& run.collector == collector
            &&& run.configuration.verified
            &&& run.configuration.last_error_code == 0
            &&& run.pre_trigger_metadata == sensor.metadata
        },
        !verify_configuration_before_scan && !sensor.spec_configuration_verified() ==> {
            &&& run.phase is Sleep
            &&& run.collector == crate::driver::after_finish(
                collector,
                ProfileFinishReason::SensorStopped,
            )
            &&& !run.configuration.verified
            &&& run.configuration.last_error_code == 0
            &&& run.pre_trigger_metadata is None
        },
{
}

/// The result of a scan tells what its run did and what its sensor now is: the
/// times, counts and failures of the run, the outcome of the preflight, and that
/// of the recovery if there was one. Metadata is passed on only if the check
/// that read it verified the configuration.
pub proof fn result_tells_what_the_run_did(run: ScanRun, sensor: Sensor, scan: ProfileScan)
    requires
        run.wf(),
        run.fits(sensor),
        run.phase is Finished,
        run.yields(sensor, scan),
    ensures
        scan.started_at_ms == run.started_at_ms,
        scan.duration_us == run.duration_us,
        scan.poll_count == run.poll_count,
        scan.pre_scan_discarded_fields == run.pre_scan_discarded_fields,
        scan.collection_error == run.collection_error,
        scan.sleep_error == run.sleep_error,
        scan.pre_trigger_metadata == run.pre_trigger_metadata,
        scan.configuration_verified == run.configuration.verified,
        scan.sensor_reconfigured == run.configuration.reconfigured,
        scan.configuration_i2c_errors == run.configuration.i2c_errors,
        scan.configuration_error == run.configuration.error,
        scan.configuration_error_code == run.configuration.last_error_code,
        scan.emergency_sleep_retry_attempts == run.emergency_sleep.attempts,
        scan.emergency_sleep_confirmed == run.emergency_sleep.confirmed,
        run.recovery is None ==> {
            &&& !scan.post_scan_configuration_checked
            &&& !scan.post_scan_configuration_verified
            &&& !scan.post_scan_sensor_reconfigured
            &&& scan.post_scan_metadata is None
            &&& scan.post_scan_configuration_i2c_errors == 0
            &&& scan.post_scan_configuration_error is None
            &&& scan.post_scan_configuration_error_code == 0
        },
        run.recovery matches Some(check) ==> {
            &&& scan.post_scan_configuration_checked
            &&& scan.post_scan_configuration_verified == check.verified
            &&& scan.post_scan_sensor_reconfigured == check.reconfigured
            &&& scan.post_scan_metadata == if check.verified {
                sensor.metadata
            } else {
                None
            }
            &&& scan.post_scan_configuration_i2c_errors == check.i2c_errors
            &&& scan.post_scan_configuration_error == check.error
            &&& scan.post_scan_configuration_error_code == check.last_error_code
        },
        scan.profile.finish_reason == crate::driver::collector_state(run.collector).finish_reason,
        scan.profile.counters == crate::driver::collector_state(run.collector).counters,
        scan.profile.observed_field_count == crate::driver::collector_state(
            run.collector,
        ).observed_field_count,
        scan.profile.observed_field_count_overflowed == crate::driver::collector_state(
            run.collector,
        ).observed_field_count_overflowed,
        scan.profile.duplicate_mask == crate::driver::collector_state(
            run.collector,
        ).duplicate_mask,
        scan.profile.observed_mask == crate::driver::collector_state(run.collector).observed_mask,
        scan.profile.gas_valid_mask == crate::driver::collector_state(
            run.collector,
        ).gas_valid_mask,
        scan.profile.heater_stable_mask == crate::driver::collector_state(
            run.collector,
        ).heater_stable_mask,
        forall|i: int|
            0 <= i < 10 ==> #[trigger] scan.profile.steps@[i] == crate::driver::collector_state(
                run.collector,
            ).steps[i],
{
    assert forall|i: int| 0 <= i < 10 implies #[trigger] scan.profile.steps@[i]
        == crate::driver::collector_state(run.collector).steps[i] by {
        assert(scan.profile.steps@[i] == crate::driver::collector_state(run.collector).steps[i]);
    }
}

/// The operation that the code stands for.
pub open spec fn operation_with_code(code: int) -> Operation {
    if code == 1 {
        Operation::Initialization
    } else if code == 2 {
        Operation::Configuration
    } else if code == 3 {
        Operation::HeaterConfiguration
    } else if code == 4 {
        Operation::ConfigurationReadback
    } else if code == 5 {
        Operation::ParallelModeTrigger
    } else if code == 6 {
        Operation::DataRead
    } else if code == 7 {
        Operation::ReturnToSleep
    } else {
        Operation::PreTriggerFieldDrain
    }
}

/// The codes of operations are the numbers from one to eight, and each code
/// stands for the operation it is given to.
pub proof fn operation_codes_are_stable(operation: Operation)
    ensures
        1 <= operation.spec_code() <= 8,
        operation_with_code(operation.spec_code() as int) == operation,
{
}

/// A scan failed at the sensor exactly if its configuration was not verified or
/// its collection or its Sleep request failed. Its bus errors are those of the
/// preflight and the recovery plus one each for a collection and a Sleep request
/// that the bus failed. Its last error is the latest one: of the recovery, else
/// of the Sleep request, else of the collection, else of the preflight.
pub proof fn scan_judges_its_failures(scan: ProfileScan)
    ensures
        !scan.spec_sensor_failed() <==> scan.configuration_verified && scan.collection_error is None
            && scan.sleep_error is None,
        ({
            let collection = if scan.collection_error matches Some(error) && error.source is Bus {
                1int
            } else {
                0
            };
            let sleep = if scan.sleep_error matches Some(error) && error.source is Bus {
                1int
            } else {
                0
            };
            scan.spec_i2c_error_count() as int == at_most(
                scan.configuration_i2c_errors + scan.post_scan_configuration_i2c_errors + collection
                    + sleep,
                0xffff_ffff,
            )
        }),
        scan.post_scan_configuration_error_code != 0 ==> scan.spec_last_error_code()
            == scan.post_scan_configuration_error_code,
        scan.post_scan_configuration_error_code == 0 ==> {
            &&& scan.sleep_error matches Some(error) ==> operation_with_code(
                scan.spec_last_error_code() as int,
            ) == error.operation
            &&& scan.sleep_error is None ==> (scan.collection_error matches Some(error)
                ==> operation_with_code(scan.spec_last_error_code() as int) == error.operation)
            &&& scan.sleep_error is None && scan.collection_error is None
                ==> scan.spec_last_error_code() == scan.configuration_error_code
        },
        scan.spec_identity_available() <==> scan.configuration_verified && (
        scan.post_scan_configuration_checked ==> scan.post_scan_configuration_verified
            && scan.post_scan_metadata is Some && scan.pre_trigger_metadata is Some
            && with_currents_of(
            scan.post_scan_metadata->Some_0,
            scan.pre_trigger_metadata->Some_0,
        ) == scan.pre_trigger_metadata->Some_0),
{
    if scan.post_scan_metadata is Some && scan.pre_trigger_metadata is Some {
        identity_ignores_only_heater_currents(
            scan.post_scan_metadata->Some_0,
            scan.pre_trigger_metadata->Some_0,
        );
    }
}

/// The initial configuration succeeds exactly if the environment, the heater,
/// the readback and the Sleep request all succeed, in this order; otherwise it
/// ends with the first of them that failed, but not before Sleep was requested.
pub proof fn setup_reports_its_first_failure(
    identity: SensorIdentity,
    environment: Result<(), DriverError>,
    heater: Result<(), DriverError>,
    readback: Result<SensorConfigurationReadback, DriverError>,
    sleep: Result<(), DriverError>,
)
    ensures
        ({
            let first = crate::bme688_profile::setup_after(
                identity,
                SetupStage::ProgramEnvironment,
                SensorReply::Done(environment),
            );
            let second = crate::bme688_profile::setup_after(
                identity,
                first,
                SensorReply::Done(heater),
            );
            let third = crate::bme688_profile::setup_after(
                identity,
                second,
                SensorReply::ReadBack(readback),
            );
            let over = |stage: SetupStage, failure: (u16, DriverError)|
                {
                    &&& stage.spec_command() == Some(SensorCommand::Sleep)
                    &&& crate::bme688_profile::setup_after(
                        identity,
                        stage,
                        SensorReply::Done(sleep),
                    ) matches SetupStage::Finished { result: Err(error) } && (
                        error.operation.spec_code(),
                        error.source,
                    ) == failure
                };
            &&& environment matches Err(source) ==> over(first, (2, source))
            &&& environment is Ok ==> first.spec_command() == Some(SensorCommand::ProgramHeater)
            &&& environment is Ok ==> (heater matches Err(source) ==> over(second, (3, source)))
            &&& environment is Ok && heater is Ok ==> second.spec_command() == Some(
                SensorCommand::ReadConfiguration,
            )
            &&& environment is Ok && heater is Ok ==> (readback matches Err(source) ==> over(
                third,
                (4, source),
            ))
            &&& environment is Ok && heater is Ok && readback is Ok ==> {
                &&& third.spec_command() == Some(SensorCommand::Sleep)
                &&& third matches SetupStage::Sleep { programmed: Ok(metadata) }
                    && metadata.readback == readback->Ok_0
                &&& sleep matches Err(source) ==> over(third, (7, source))
                &&& sleep is Ok ==> (crate::bme688_profile::setup_after(
                    identity,
                    third,
                    SensorReply::Done(sleep),
                ) matches SetupStage::Finished { result: Ok(_) })
            }
        }),
{
}

/// A sensor is initialized without metadata or marker. Its metadata becomes that
/// of the readback when the setup ends well, and nothing else of it changes in a
/// setup.
pub proof fn setup_retains_the_readback_it_ends_well_with(
    identity: SensorIdentity,
    fresh: Sensor,
    sensor: Sensor,
    stage: SetupStage,
    reply: SensorReply,
    next: SetupStage,
)
    requires
        call_ensures(Sensor::new, (identity,), fresh),
        stage.spec_command() matches Some(command) ==> crate::bme688_profile::answers(
            command,
            reply,
        ),
        next == crate::bme688_profile::setup_after(sensor.identity, stage, reply),
    ensures
        fresh.identity == identity,
        fresh.metadata is None,
        !fresh.reconfiguration_marker_pending,
        ({
            let after = sensor.set_up(stage, next);
            let ends_well = stage.spec_command() == Some(SensorCommand::Sleep)
                && stage->programmed is Ok && (reply matches SensorReply::Done(Ok(_)));
            &&& after.identity == sensor.identity
            &&& after.reconfiguration_marker_pending == sensor.reconfiguration_marker_pending
            &&& ends_well ==> after.metadata == Some(stage->programmed->Ok_0)
            &&& !ends_well ==> after.metadata == sensor.metadata
        }),
{
}

/// Polls every 100 ms fill the deadline of 15 seconds exactly, which leaves time
/// for the whole profile.
pub proof fn poll_budget_fills_the_deadline()
    ensures
        crate::bme688_profile::POLL_INTERVAL_MS == 100,
        crate::bme688_profile::MAX_POLL_COUNT * crate::bme688_profile::POLL_INTERVAL_MS * 1_000
            == crate::bme688_profile::COLLECTION_TIMEOUT_US,
        crate::bme688_profile::COLLECTION_TIMEOUT_US == 15_000_000,
        crate::profile_definition::steps_duration_us(
            crate::profile_definition::PROGRAMMED_SHARED_DURATION_RAW,
            10,
        ) < crate::bme688_profile::COLLECTION_TIMEOUT_US,
        crate::bme688_profile::EMERGENCY_SLEEP_RETRY_DELAY_MS == 10,
{
    crate::profile_definition::profile_timing_is_exact();
}

/// How many of the replies answered a poll.
pub open spec fn polls(sensor: Sensor, run: ScanRun, replies: Seq<(SensorReply, Clock)>) -> nat
    decreases replies.len(),
{
    if replies.len() == 0 {
        0
    } else {
        let before = replies.drop_last();
        polls(sensor, run, before) + if crate::scan_laws::run_after(
            sensor,
            run,
            before,
        ).1.phase.spec_command() == Some(SensorCommand::WaitAndReadFields) {
            1nat
        } else {
            0
        }
    }
}

/// A scan counts every poll once and nothing else as a poll.
pub proof fn poll_count_is_the_number_of_polls(
    sensor: Sensor,
    run: ScanRun,
    replies: Seq<(SensorReply, Clock)>,
)
    requires
        run.poll_count + replies.len() < 0xffff,
    ensures
        crate::scan_laws::run_after(sensor, run, replies).1.poll_count == run.poll_count + polls(
            sensor,
            run,
            replies,
        ),
        polls(sensor, run, replies) <= replies.len(),
    decreases replies.len(),
{
    reveal(ScanRun::after);
    if replies.len() != 0 {
        poll_count_is_the_number_of_polls(sensor, run, replies.drop_last());
    }
}

} // verus!
