//! What holds of every scan, whatever the sensor and the bus do.

use bme68x::ProfileCollector;
use vstd::prelude::*;

use crate::bme688_profile::{
    CheckStage, Clock, ProfileScan, ScanPhase, ScanRun, Sensor, SensorCommand,
    SensorIdentity, SensorReply, SetupStage,
};

verus! {

/// The sensor and the run after a sequence of replies.
pub open spec fn run_after(
    sensor: Sensor,
    run: ScanRun,
    replies: Seq<(SensorReply, Clock)>,
) -> (Sensor, ScanRun)
    decreases replies.len(),
{
    if replies.len() == 0 {
        (sensor, run)
    } else {
        let (sensor_before, run_before) = run_after(sensor, run, replies.drop_last());
        run_before.after(sensor_before, replies.last().0, replies.last().1)
    }
}

/// The phase that awaits reply `i` of a sequence.
pub open spec fn phase_at(
    sensor: Sensor,
    run: ScanRun,
    replies: Seq<(SensorReply, Clock)>,
    i: int,
) -> ScanPhase {
    run_after(sensor, run, replies.take(i)).1.phase
}

/// Reply `i` of the sequence answers the command that the run then awaited.
pub open spec fn answered_at(
    sensor: Sensor,
    run: ScanRun,
    replies: Seq<(SensorReply, Clock)>,
    i: int,
) -> bool {
    phase_at(sensor, run, replies, i).spec_command() matches Some(command)
        && crate::bme688_profile::answers(command, replies[i].0)
}

/// Every reply of the sequence answers the command that the run then awaited,
/// and none comes after the scan is over.
pub open spec fn answered(
    sensor: Sensor,
    run: ScanRun,
    replies: Seq<(SensorReply, Clock)>,
) -> bool {
    forall|i: int| 0 <= i < replies.len() ==> answered_at(sensor, run, replies, i)
}

/// Upper bound on the commands that a check still needs.
pub open spec fn check_budget(stage: CheckStage) -> int {
    match stage {
        CheckStage::ReadBack => 5,
        CheckStage::ProgramEnvironment => 4,
        CheckStage::ProgramHeater => 3,
        CheckStage::ReadProgrammed => 2,
        CheckStage::Sleep => 1,
    }
}

/// Upper bound on the commands that a scan still needs.
pub open spec fn command_budget(run: ScanRun) -> int {
    match run.phase {
        ScanPhase::Preflight(stage) => 161 + check_budget(stage),
        ScanPhase::Drain => 161,
        ScanPhase::Trigger => 160,
        ScanPhase::Poll => 9 + (150 - run.poll_count),
        ScanPhase::Sleep => 9,
        ScanPhase::Recovery(stage) => 3 + check_budget(stage),
        ScanPhase::EmergencySleep => 3 - run.emergency_sleep.attempts,
        ScanPhase::Finished => 0,
    }
}

/// The bounds that the phases of a run keep, apart from what its collector holds.
pub open spec fn within_bounds(run: ScanRun) -> bool {
    &&& run.phase is Poll ==> run.poll_count < 150
    &&& run.phase is Preflight || run.phase is Drain || run.phase is Trigger ==> run.poll_count == 0
    &&& run.phase is EmergencySleep ==> run.emergency_sleep.attempts < 3
    &&& !(run.phase is EmergencySleep || run.phase is Finished) ==> run.emergency_sleep.attempts
        == 0
}

proof fn lemma_step_spends_budget(run: ScanRun, sensor: Sensor, reply: SensorReply, clock: Clock)
    requires
        within_bounds(run),
        run.phase.spec_command() is Some,
    ensures
        within_bounds(run.after(sensor, reply, clock).1),
        0 <= command_budget(run.after(sensor, reply, clock).1) < command_budget(run),
        command_budget(run.after(sensor, reply, clock).1) < 9 ==> command_budget(run) <= 9,
{
    reveal(ScanRun::after);
}

/// Every scan ends after at most 166 commands, each reply bringing it at least
/// one command closer to its end.
pub proof fn scan_is_bounded(sensor: Sensor, run: ScanRun, replies: Seq<(SensorReply, Clock)>)
    requires
        run.wf(),
        answered(sensor, run, replies),
    ensures
        replies.len() + command_budget(run_after(sensor, run, replies).1) <= command_budget(run),
        command_budget(run_after(sensor, run, replies).1) >= 0,
        command_budget(run_after(sensor, run, replies).1) == 0 <==> run_after(
            sensor,
            run,
            replies,
        ).1.phase is Finished,
        command_budget(run) <= 166,
{
    lemma_budget(sensor, run, replies);
}

proof fn lemma_budget(sensor: Sensor, run: ScanRun, replies: Seq<(SensorReply, Clock)>)
    requires
        within_bounds(run),
        answered(sensor, run, replies),
    ensures
        within_bounds(run_after(sensor, run, replies).1),
        replies.len() + command_budget(run_after(sensor, run, replies).1) <= command_budget(run),
        command_budget(run_after(sensor, run, replies).1) >= 0,
        command_budget(run) <= 166,
    decreases replies.len(),
{
    if replies.len() != 0 {
        let before = replies.drop_last();
        lemma_answered_prefix(sensor, run, replies, replies.len() - 1);
        assert(before == replies.take(replies.len() - 1));
        lemma_budget(sensor, run, before);
        let (sensor_before, run_before) = run_after(sensor, run, before);
        let last = replies[replies.len() - 1];
        assert(answered_at(sensor, run, replies, replies.len() - 1));
        assert(phase_at(sensor, run, replies, replies.len() - 1) == run_before.phase);
        lemma_step_spends_budget(run_before, sensor_before, last.0, last.1);
    }
}

proof fn lemma_answered_prefix(
    sensor: Sensor,
    run: ScanRun,
    replies: Seq<(SensorReply, Clock)>,
    count: int,
)
    requires
        answered(sensor, run, replies),
        0 <= count <= replies.len(),
    ensures
        answered(sensor, run, replies.take(count)),
{
    let prefix = replies.take(count);
    assert forall|i: int| 0 <= i < prefix.len() implies answered_at(sensor, run, prefix, i) by {
        assert(answered_at(sensor, run, replies, i));
        assert(prefix.take(i) == replies.take(i));
    }
}

/// A Sleep request was made at reply `k`, and the heater was not triggered at
/// that or any later reply.
pub open spec fn slept_at(
    sensor: Sensor,
    run: ScanRun,
    replies: Seq<(SensorReply, Clock)>,
    k: int,
) -> bool {
    &&& 0 <= k < replies.len()
    &&& phase_at(sensor, run, replies, k) is Sleep
    &&& forall|i: int|
        #![trigger phase_at(sensor, run, replies, i)]
        k <= i < replies.len() ==> phase_at(sensor, run, replies, i).spec_command() != Some(
            SensorCommand::Trigger,
        )
}

/// Every scan that ends has requested Sleep after its last heater trigger,
/// whichever way it ended.
pub proof fn every_exit_requests_sleep(
    sensor: Sensor,
    run: ScanRun,
    replies: Seq<(SensorReply, Clock)>,
)
    requires
        run.wf(),
        run.collecting() || run.phase is Sleep,
        answered(sensor, run, replies),
        run_after(sensor, run, replies).1.phase is Finished,
    ensures
        exists|k: int| slept_at(sensor, run, replies, k),
{
    lemma_low_budget_follows_sleep(sensor, run, replies);
}

proof fn lemma_low_budget_follows_sleep(
    sensor: Sensor,
    run: ScanRun,
    replies: Seq<(SensorReply, Clock)>,
)
    requires
        within_bounds(run),
        command_budget(run) >= 9,
        answered(sensor, run, replies),
        command_budget(run_after(sensor, run, replies).1) < 9,
    ensures
        exists|k: int| slept_at(sensor, run, replies, k),
    decreases replies.len(),
{
    let last = replies.len() - 1;
    let before = replies.drop_last();
    assert(before == replies.take(last));
    lemma_answered_prefix(sensor, run, replies, last);
    lemma_budget(sensor, run, before);
    let (sensor_before, run_before) = run_after(sensor, run, before);
    assert(answered_at(sensor, run, replies, last));
    assert(phase_at(sensor, run, replies, last) == run_before.phase);
    lemma_step_spends_budget(run_before, sensor_before, replies[last].0, replies[last].1);
    if command_budget(run_before) < 9 {
        lemma_low_budget_follows_sleep(sensor, run, before);
        let k = choose|k: int| slept_at(sensor, run, before, k);
        assert forall|i: int|
            #![trigger phase_at(sensor, run, replies, i)]
            k <= i < replies.len() implies phase_at(sensor, run, replies, i).spec_command() != Some(
            SensorCommand::Trigger,
        ) by {
            if i < last {
                assert(before.take(i) == replies.take(i));
                assert(phase_at(sensor, run, before, i) == phase_at(sensor, run, replies, i));
            }
        }
        assert(before.take(k) == replies.take(k));
        assert(slept_at(sensor, run, replies, k));
    } else {
        assert(run_before.phase is Sleep);
        assert(slept_at(sensor, run, replies, last));
    }
}

/// The initial configuration never ends without a Sleep request, and a stage
/// leads to no stage before it.
pub proof fn setup_always_requests_sleep(
    identity: SensorIdentity,
    stage: SetupStage,
    reply: SensorReply,
)
    ensures
        crate::bme688_profile::setup_after(identity, stage, reply) is Finished ==> stage is Sleep || stage is Finished,
        crate::bme688_profile::setup_after(identity, stage, reply) is ProgramEnvironment ==> false,
        crate::bme688_profile::setup_after(identity, stage, reply) is ProgramHeater ==> stage is ProgramEnvironment,
        crate::bme688_profile::setup_after(identity, stage, reply) is ReadProgrammed ==> stage is ProgramHeater,
{
}

/// The heater is triggered and polled only after this scan's readback, or a
/// verified former one, proved the exact configuration.
pub proof fn heater_runs_only_on_exact_configuration(run: ScanRun)
    requires
        run.wf(),
    ensures
        run.phase.spec_command() == Some(SensorCommand::Trigger) || run.phase.spec_command()
            == Some(SensorCommand::WaitAndReadFields) || run.parallel_triggered ==> {
            &&& run.configuration.verified
            &&& run.pre_trigger_metadata is Some
            &&& run.pre_trigger_metadata->Some_0.exact_configuration_verified
        },
{
}

/// Once the preflight is over, nothing relabels the scan: its configuration
/// snapshot and the outcome of its preflight stay as they are, and only the end
/// of collection decides whether it carries the reconfiguration marker.
pub proof fn recovery_never_relabels_the_scan(
    sensor: Sensor,
    run: ScanRun,
    reply: SensorReply,
    clock: Clock,
)
    requires
        !(run.phase is Preflight),
    ensures
        ({
            let after = run.after(sensor, reply, clock).1;
            &&& after.pre_trigger_metadata == run.pre_trigger_metadata
            &&& after.configuration.verified == run.configuration.verified
            &&& after.configuration.programming_attempted
                == run.configuration.programming_attempted
            &&& after.configuration.i2c_errors == run.configuration.i2c_errors
            &&& after.configuration.error == run.configuration.error
            &&& after.configuration.last_error_code == run.configuration.last_error_code
            &&& !run.collecting() ==> {
                &&& after.configuration == run.configuration
                &&& after.collector == run.collector
                &&& after.collection_error == run.collection_error
                &&& after.started_at_ms == run.started_at_ms
                &&& after.poll_count == run.poll_count
                &&& after.pre_scan_discarded_fields == run.pre_scan_discarded_fields
            }
        }),
{
    reveal(ScanRun::after);
}

/// No reply to a scan ever clears a pending reconfiguration marker: drain,
/// trigger, read and Sleep failures all leave it pending.
pub proof fn scan_never_clears_the_marker(
    sensor: Sensor,
    run: ScanRun,
    reply: SensorReply,
    clock: Clock,
)
    requires
        sensor.reconfiguration_marker_pending,
    ensures
        run.after(sensor, reply, clock).0.reconfiguration_marker_pending,
{
    reveal(ScanRun::after);
}

/// What every finished scan satisfies.
pub open spec fn coherent(scan: ProfileScan, sensor: Sensor) -> bool {
    // The bounds of collection and of the stop-only commands.
    &&& scan.poll_count <= crate::bme688_profile::MAX_POLL_COUNT
    &&& scan.emergency_sleep_retry_attempts <= crate::profile_status::EMERGENCY_SLEEP_RETRY_LIMIT
    // Collection ended for a reason, and completely only with valid gas data.
    &&& scan.profile.finish_reason is Some
    &&& scan.profile.finish_reason == Some(crate::driver::ProfileFinishReason::Complete)
        ==> scan.profile.all_steps_gas_valid
    // The snapshot is there exactly when the configuration was proved exact.
    &&& scan.configuration_verified <==> scan.pre_trigger_metadata is Some
    &&& scan.pre_trigger_metadata matches Some(metadata) ==> metadata.exact_configuration_verified
    // Without an exact configuration no heater ran and nothing was polled.
    &&& !scan.configuration_verified ==> {
        &&& scan.poll_count == 0
        &&& scan.pre_scan_discarded_fields == 0
        &&& !scan.sensor_reconfigured
        &&& scan.collection_error is None
    }
    // A scan carries the marker only if its heater ran.
    &&& scan.sensor_reconfigured ==> scan.poll_count > 0
    // A recovery follows a failure and nothing else.
    &&& scan.post_scan_configuration_checked <==> scan.collection_error is Some
        || scan.sleep_error is Some
    &&& scan.post_scan_configuration_verified <==> scan.post_scan_metadata is Some
    // Where neither Sleep nor the recovery succeeded, a stop-only command did
    // or all of them were spent.
    &&& scan.sleep_error is Some && !scan.post_scan_configuration_verified
        ==> scan.emergency_sleep_confirmed || scan.emergency_sleep_retry_attempts
        == crate::profile_status::EMERGENCY_SLEEP_RETRY_LIMIT
    &&& scan.emergency_sleep_retry_attempts != 0 ==> scan.sleep_error is Some
        && !scan.post_scan_configuration_verified
    // A marked scan leaves the marker pending, and so does any restore after it.
    &&& scan.sensor_reconfigured || scan.post_scan_sensor_reconfigured
        ==> sensor.reconfiguration_marker_pending
}

/// Every scan that has run to its end is coherent, and it polled the sensor
/// exactly if its heater was triggered.
pub proof fn finished_scan_is_coherent(run: ScanRun, sensor: Sensor, scan: ProfileScan)
    requires
        run.wf(),
        run.fits(sensor),
        run.phase is Finished,
        run.yields(sensor, scan),
    ensures
        coherent(scan, sensor),
        scan.poll_count > 0 <==> run.parallel_triggered,
{
}

/// The replies and their times decide a scan: two scans that begin alike and get
/// the same replies at the same times give the same result.
pub proof fn same_replies_give_the_same_scan(
    sensor: Sensor,
    verify_configuration_before_scan: bool,
    attempt_started_at_ms: u64,
    replies: Seq<(SensorReply, Clock)>,
    first: ProfileScan,
    second: ProfileScan,
)
    requires
        ({
            let (begun_sensor, begun_run) = sensor.begun(
                verify_configuration_before_scan,
                attempt_started_at_ms,
                crate::bme688_profile::profile_collector(),
            );
            let (end_sensor, end_run) = run_after(begun_sensor, begun_run, replies);
            end_run.yields(end_sensor, first) && end_run.yields(end_sensor, second)
        }),
    ensures
        first == second,
{
    let (begun_sensor, begun_run) = sensor.begun(
        verify_configuration_before_scan,
        attempt_started_at_ms,
        crate::bme688_profile::profile_collector(),
    );
    let state = crate::driver::collector_state(
        run_after(begun_sensor, begun_run, replies).1.collector,
    );
    assert forall|i: int| 0 <= i < 10 implies first.profile.steps@[i] == second.profile.steps@[i] by {
        assert(first.profile.steps@[i] == state.steps[i]);
    }
    assert(first.profile.steps@ == second.profile.steps@);
    assert(first.profile.steps == second.profile.steps);
}

/// When collection ends, the scan carries the reconfiguration marker exactly if
/// its heater ran and the marker is pending; without a heater run the marker
/// waits for the next scan.
pub proof fn next_heater_run_carries_the_marker(
    sensor: Sensor,
    run: ScanRun,
    reply: SensorReply,
    clock: Clock,
)
    requires
        run.wf(),
        run.collecting(),
        run.after(sensor, reply, clock).1.phase is Sleep,
    ensures
        ({
            let (sensor_after, after) = run.after(sensor, reply, clock);
            &&& after.configuration.reconfigured <==> after.parallel_triggered
                && sensor_after.reconfiguration_marker_pending
            &&& sensor.reconfiguration_marker_pending
                ==> sensor_after.reconfiguration_marker_pending
        }),
{
    reveal(ScanRun::after);
}

/// Only the heater trigger anchors a scan in time: configuration checks before
/// it and everything after it leave the start as it is, so a scan without a
/// trigger keeps the time of its scheduled attempt. Only the scan's own Sleep
/// request measures its duration, so recovery after it does not count.
pub proof fn only_the_trigger_anchors_the_scan(
    sensor: Sensor,
    run: ScanRun,
    reply: SensorReply,
    clock: Clock,
)
    ensures
        run.after(sensor, reply, clock).1.started_at_ms == if run.phase is Trigger {
            clock.uptime_ms
        } else {
            run.started_at_ms
        },
        run.after(sensor, reply, clock).1.duration_us == if run.phase is Sleep {
            clock.elapsed_us
        } else {
            run.duration_us
        },
{
    reveal(ScanRun::after);
}

/// The reply is a failed bus transaction.
pub open spec fn is_bus_error(reply: SensorReply) -> bool {
    match reply {
        SensorReply::Done(Err(error)) => error == crate::driver::DriverError::Bus,
        SensorReply::ReadBack(Err(error)) => error == crate::driver::DriverError::Bus,
        SensorReply::Fields(Err(error)) => error == crate::driver::DriverError::Bus,
        _ => false,
    }
}

/// Number of failed bus transactions in a sequence of replies.
pub open spec fn bus_error_count(replies: Seq<(SensorReply, Clock)>) -> int
    decreases replies.len(),
{
    if replies.len() == 0 {
        0
    } else {
        bus_error_count(replies.drop_last()) + if is_bus_error(replies.last().0) {
            1int
        } else {
            0
        }
    }
}

/// Bus failures that a run has on its accounts.
pub open spec fn accounted_bus_errors(run: ScanRun) -> int {
    run.configuration.i2c_errors + match run.recovery {
        Some(check) => check.i2c_errors as int,
        None => 0,
    } + crate::bme688_profile::bus_errors_of(run.collection_error)
        + crate::bme688_profile::bus_errors_of(run.sleep_error)
}

/// The accounts that a phase has not opened yet are empty.
pub open spec fn accounts_in_order(run: ScanRun) -> bool {
    &&& run.collecting() ==> run.collection_error is None && run.sleep_error is None
        && run.recovery is None
    &&& run.phase is Sleep ==> run.sleep_error is None && run.recovery is None
    &&& run.phase is Recovery || run.phase is EmergencySleep ==> run.recovery is Some
    &&& run.phase matches ScanPhase::Preflight(stage) ==> (stage is ReadBack
        ==> run.configuration.i2c_errors == 0)
    &&& run.phase matches ScanPhase::Recovery(stage) ==> (stage is ReadBack
        ==> run.recovery->Some_0.i2c_errors == 0)
}

proof fn lemma_step_counts_bus_errors(
    sensor: Sensor,
    run: ScanRun,
    reply: SensorReply,
    clock: Clock,
)
    requires
        accounts_in_order(run),
        accounted_bus_errors(run) < u32::MAX,
        run.phase.spec_command() matches Some(command) && crate::bme688_profile::answers(
            command,
            reply,
        ),
    ensures
        accounts_in_order(run.after(sensor, reply, clock).1),
        accounted_bus_errors(run.after(sensor, reply, clock).1) == accounted_bus_errors(run)
            + if is_bus_error(reply) {
            1int
        } else {
            0
        },
{
    reveal(ScanRun::after);
}

/// A finished scan reports exactly as many bus errors as bus transactions
/// failed: before, during and after collection, and in every stop-only command.
pub proof fn every_bus_error_is_counted_once(
    sensor: Sensor,
    verify_configuration_before_scan: bool,
    attempt_started_at_ms: u64,
    collector: ProfileCollector,
    replies: Seq<(SensorReply, Clock)>,
    scan: ProfileScan,
)
    requires
        ({
            let (begun_sensor, begun_run) = sensor.begun(
                verify_configuration_before_scan,
                attempt_started_at_ms,
                collector,
            );
            &&& answered(begun_sensor, begun_run, replies)
            &&& run_after(begun_sensor, begun_run, replies).1.yields(
                run_after(begun_sensor, begun_run, replies).0,
                scan,
            )
        }),
    ensures
        scan.spec_i2c_error_count() == bus_error_count(replies),
        replies.len() <= 166,
{
    let (begun_sensor, begun_run) = sensor.begun(
        verify_configuration_before_scan,
        attempt_started_at_ms,
        collector,
    );
    lemma_budget(begun_sensor, begun_run, replies);
    lemma_bus_errors(begun_sensor, begun_run, replies);
}

proof fn lemma_bus_errors(sensor: Sensor, run: ScanRun, replies: Seq<(SensorReply, Clock)>)
    requires
        accounts_in_order(run),
        accounted_bus_errors(run) == 0,
        answered(sensor, run, replies),
        replies.len() <= 166,
    ensures
        accounts_in_order(run_after(sensor, run, replies).1),
        accounted_bus_errors(run_after(sensor, run, replies).1) == bus_error_count(replies),
        0 <= bus_error_count(replies) <= replies.len(),
    decreases replies.len(),
{
    if replies.len() != 0 {
        let last = replies.len() - 1;
        let before = replies.drop_last();
        assert(before == replies.take(last));
        lemma_answered_prefix(sensor, run, replies, last);
        lemma_bus_errors(sensor, run, before);
        let (sensor_before, run_before) = run_after(sensor, run, before);
        assert(answered_at(sensor, run, replies, last));
        assert(phase_at(sensor, run, replies, last) == run_before.phase);
        lemma_step_counts_bus_errors(
            sensor_before,
            run_before,
            replies[last].0,
            replies[last].1,
        );
    }
}

} // verus!
