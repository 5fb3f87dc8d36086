//! The node's course: startup with its retries, then one scan after another.
//!
//! The application performs each operation and reports how it ended. This
//! module decides what follows and keeps the accounts.

use vstd::prelude::*;

use crate::bme688_profile::{Operation, ProfileScan, Sensor, SensorError, SensorMetadata};
use crate::board::ResetCause;
use crate::degraded_health::{Context, EncodedHealth, Reporter, StartupFailure};
use crate::health::{HealthCounters, scan_is_successful};
use crate::identity::DeviceIdentity;
use crate::output_v2::{EmitError, EmitReport};
use crate::profile_status::{profile_delivery_complete, reconfiguration_marker_after_delivery};
use crate::protocol::{CodecError, DeviceConfig, OutputRoute};
use crate::telemetry_v2::{EncodedScan, Telemetry, TelemetrySettings};

verus! {

/// The boot and reset metadata that startup health reports.
#[must_use]
pub fn degraded_context(
    identity: DeviceIdentity,
    reset_cause: ResetCause,
    settings: &TelemetrySettings,
) -> (context: Context)
    ensures
        context == (Context {
            node_id: identity.node_id,
            boot_id: identity.boot_id,
            boot_id_valid: identity.boot_id_valid,
            boot_id_from_hardware_rng: identity.boot_id_from_hardware_rng,
            reset_cause_raw: reset_cause.raw,
            reset_cause_flags: reset_cause.flags,
            sample_interval_ms: settings.scan_interval_ms,
            firmware_version: settings.build.version,
        }),
{
    Context {
        node_id: identity.node_id,
        boot_id: identity.boot_id,
        boot_id_valid: identity.boot_id_valid,
        boot_id_from_hardware_rng: identity.boot_id_from_hardware_rng,
        reset_cause_raw: reset_cause.raw,
        reset_cause_flags: reset_cause.flags,
        sample_interval_ms: settings.scan_interval_ms,
        firmware_version: settings.build.version,
    }
}

/// The reporter after one more startup failure; the first failure creates it.
pub open spec fn reporter_after(
    reporter: Option<Reporter>,
    context: Context,
    failure: StartupFailure,
) -> Reporter {
    match reporter {
        Some(reporter) => reporter.after_startup_failure(failure),
        None => Reporter::started(context, failure),
    }
}

pub fn record_startup_failure(
    reporter: &mut Option<Reporter>,
    context: Context,
    failure: StartupFailure,
)
    ensures
        *final(reporter) == Some(reporter_after(*old(reporter), context, failure)),
{
    match *reporter {
        Some(existing) => {
            let mut updated = existing;
            updated.record_startup_failure(failure);
            *reporter = Some(updated);
        },
        None => {
            *reporter = Some(Reporter::new(context, failure));
        },
    }
}

/// What startup works on.
#[derive(Clone, Copy, Debug, PartialEq, Eq, Structural)]
pub enum StartupStage {
    /// Probe both sensor addresses.
    Probe,
    /// Initialize the register driver, which consumes the bus on failure.
    Initialize,
    /// Program and read back the profile.
    Configure,
    /// Identify the configuration and establish telemetry.
    Establish,
    /// Startup is over.
    Running,
    /// The sensor cannot be reached again before a reset; health goes on.
    ResetRequired,
}

/// How a startup operation ended.
#[derive(Clone, Copy, Debug, PartialEq, Eq)]
pub enum StartupEvent {
    ProbeFailed,
    ProbeSucceeded,
    InitializationFailed { error: SensorError },
    Initialized,
    ConfigurationFailed { error: SensorError },
    /// The sensor is configured, with the metadata it retained.
    Configured { metadata: Option<SensorMetadata> },
    TelemetryRefused,
    TelemetryEstablished,
}

/// The event ends the operation of the stage.
pub open spec fn ends_stage(stage: StartupStage, event: StartupEvent) -> bool {
    match stage {
        StartupStage::Probe => event is ProbeFailed || event is ProbeSucceeded,
        StartupStage::Initialize => event is InitializationFailed || event is Initialized,
        StartupStage::Configure => event is ConfigurationFailed || event is Configured,
        StartupStage::Establish => event is TelemetryRefused || event is TelemetryEstablished,
        _ => false,
    }
}

/// The startup failure that an event stands for, if it stands for one.
pub open spec fn failure_of(event: StartupEvent) -> Option<StartupFailure> {
    match event {
        StartupEvent::ProbeFailed => Some(StartupFailure::spec_bme_probe()),
        StartupEvent::InitializationFailed { error } => Some(
            StartupFailure::spec_sensor_operation(
                error.operation.spec_code(),
                error.is_bus_error(),
            ),
        ),
        StartupEvent::ConfigurationFailed { error } => Some(
            StartupFailure::spec_sensor_operation(
                error.operation.spec_code(),
                error.is_bus_error(),
            ),
        ),
        StartupEvent::Configured { metadata } => match metadata {
            None => Some(StartupFailure::spec_sensor_metadata_missing()),
            Some(metadata) => if metadata.exact_configuration_verified {
                None
            } else {
                Some(
                    StartupFailure::spec_sensor_operation(
                        Operation::ConfigurationReadback.spec_code(),
                        false,
                    ),
                )
            },
        },
        StartupEvent::TelemetryRefused => Some(StartupFailure::spec_telemetry_setup()),
        _ => None,
    }
}

/// The stage that follows an event. Every failure but one is retried from a
/// stage that still owns what it needs.
pub open spec fn stage_after(event: StartupEvent) -> StartupStage {
    match event {
        StartupEvent::ProbeFailed => StartupStage::Probe,
        StartupEvent::ProbeSucceeded => StartupStage::Initialize,
        StartupEvent::InitializationFailed { .. } => StartupStage::ResetRequired,
        StartupEvent::Initialized => StartupStage::Configure,
        StartupEvent::ConfigurationFailed { .. } => StartupStage::Configure,
        StartupEvent::Configured { .. } => if failure_of(event) is Some {
            StartupStage::Configure
        } else {
            StartupStage::Establish
        },
        StartupEvent::TelemetryRefused => StartupStage::Configure,
        StartupEvent::TelemetryEstablished => StartupStage::Running,
    }
}

/// A health record and one wait of the scan cadence are due after the event.
pub open spec fn health_due(event: StartupEvent) -> bool {
    failure_of(event) is Some
}

/// How an attempt to report startup health ended.
#[derive(Clone, Copy, Debug, PartialEq, Eq, Structural)]
pub enum HealthDelivery {
    /// The codec refused the record.
    Refused,
    Delivered,
    /// The transport failed, by the radio or otherwise.
    Failed { radio: bool },
}

/// Startup in progress.
#[derive(Clone, Copy, Debug, PartialEq, Eq)]
pub struct Startup {
    pub stage: StartupStage,
    pub context: Context,
    pub route: OutputRoute,
    /// Exists from the first failure on.
    pub reporter: Option<Reporter>,
}

impl Startup {
    /// The startup after how its current operation ended.
    pub open spec fn after(self, event: StartupEvent) -> Self {
        Startup {
            stage: stage_after(event),
            reporter: match failure_of(event) {
                Some(failure) => Some(reporter_after(self.reporter, self.context, failure)),
                None => self.reporter,
            },
            ..self
        }
    }

    /// The startup after a health record was laid out.
    pub open spec fn after_record(self) -> Self {
        Startup {
            reporter: match self.reporter {
                Some(reporter) => Some(
                    reporter.after(crate::degraded_health::ReporterEvent::Encoded),
                ),
                None => None,
            },
            ..self
        }
    }

    /// The health record that is due was laid out, if there are accounts.
    pub open spec fn recorded(
        self,
        before: Self,
        uptime_ms: u64,
        record: Option<EncodedHealth>,
    ) -> bool {
        match before.reporter {
            None => record is None && self == before,
            Some(reporter) => {
                &&& record matches Some(encoded) && encoded.sequence == reporter.next_sequence
                    && encoded.frame.common == reporter.header(uptime_ms)
                    && encoded.frame.health == reporter.spec_snapshot()
                &&& self == before.after_record()
            },
        }
    }

    /// The startup after its health record fared as told.
    pub open spec fn after_delivery(self, delivery: HealthDelivery) -> Self {
        Startup {
            reporter: match self.reporter {
                None => None,
                Some(reporter) => Some(
                    match delivery {
                        HealthDelivery::Refused => reporter.after_output_failure(false),
                        HealthDelivery::Delivered => reporter.after_output_success(
                            self.route == OutputRoute::LoraP2p,
                        ),
                        HealthDelivery::Failed { radio } => reporter.after_output_failure(
                            radio && self.route == OutputRoute::LoraP2p,
                        ),
                    },
                ),
            },
            ..self
        }
    }

    /// The accounts that scanning starts with.
    pub open spec fn spec_initial_counters(self) -> HealthCounters {
        match self.reporter {
            None => HealthCounters::zero(),
            Some(reporter) => HealthCounters {
                sensor_errors_seen: true,
                i2c_errors: reporter.i2c_errors,
                radio_tx_errors: reporter.radio_tx_errors,
                last_sensor_error: reporter.failure.last_sensor_error,
                last_radio_error: reporter.last_radio_error,
                ..HealthCounters::zero()
            },
        }
    }

    #[must_use]
    pub fn new(context: Context, route: OutputRoute) -> (startup: Self)
        ensures
            startup == (Startup { stage: StartupStage::Probe, context, route, reporter: None }),
    {
        Startup { stage: StartupStage::Probe, context, route, reporter: None }
    }

    /// Take how the current operation ended. The result says whether a health
    /// record and one wait of the scan cadence are due before the next stage.
    pub fn advance(&mut self, event: StartupEvent) -> (report_due: bool)
        requires
            ends_stage(old(self).stage, event),
        ensures
            report_due == health_due(event),
            *final(self) == old(self).after(event),
    {
        let (stage, failure) = match event {
            StartupEvent::ProbeFailed => (StartupStage::Probe, Some(StartupFailure::bme_probe())),
            StartupEvent::ProbeSucceeded => (StartupStage::Initialize, None),
            StartupEvent::InitializationFailed { error } => (
                StartupStage::ResetRequired,
                Some(
                    StartupFailure::sensor_operation(
                        error.operation().code(),
                        error.is_i2c_error(),
                    ),
                ),
            ),
            StartupEvent::Initialized => (StartupStage::Configure, None),
            StartupEvent::ConfigurationFailed { error } => (
                StartupStage::Configure,
                Some(
                    StartupFailure::sensor_operation(
                        error.operation().code(),
                        error.is_i2c_error(),
                    ),
                ),
            ),
            StartupEvent::Configured { metadata: None } => (
                StartupStage::Configure,
                Some(StartupFailure::sensor_metadata_missing()),
            ),
            StartupEvent::Configured { metadata: Some(metadata) } => {
                if metadata.exact_configuration_verified {
                    (StartupStage::Establish, None)
                } else {
                    (
                        StartupStage::Configure,
                        Some(
                            StartupFailure::sensor_operation(
                                Operation::ConfigurationReadback.code(),
                                false,
                            ),
                        ),
                    )
                }
            },
            StartupEvent::TelemetryRefused => (
                StartupStage::Configure,
                Some(StartupFailure::telemetry_setup()),
            ),
            StartupEvent::TelemetryEstablished => (StartupStage::Running, None),
        };
        self.stage = stage;
        match failure {
            Some(failure) => {
                record_startup_failure(&mut self.reporter, self.context, failure);
                true
            },
            None => false,
        }
    }

    /// Lay out the one health record that a failed startup attempt sends.
    pub fn health_record(&mut self, uptime_ms: u64) -> (record: Option<EncodedHealth>)
        ensures
            final(self).recorded(*old(self), uptime_ms, record),
    {
        match self.reporter {
            Some(reporter) => {
                let mut reporter = reporter;
                let encoded = reporter.encode_next(uptime_ms);
                self.reporter = Some(reporter);
                Some(encoded)
            },
            None => None,
        }
    }

    /// Account for how the health record fared. Only a radio build accounts a
    /// failure to the radio, and only where the radio failed.
    pub fn emit_degraded_health_once(&mut self, delivery: HealthDelivery)
        ensures
            *final(self) == old(self).after_delivery(delivery),
    {
        let over_radio = self.route == OutputRoute::LoraP2p;
        if let Some(reporter) = self.reporter {
            let mut reporter = reporter;
            match delivery {
                HealthDelivery::Refused => reporter.record_output_failure(false),
                HealthDelivery::Delivered => reporter.record_output_success(over_radio),
                HealthDelivery::Failed { radio } => reporter.record_output_failure(
                    radio && over_radio,
                ),
            }
            self.reporter = Some(reporter);
        }
    }

    /// The accounts that scanning starts with: those of a startup that failed
    /// before it succeeded are carried over.
    #[must_use]
    pub fn initial_counters(&self) -> (counters: HealthCounters)
        ensures
            counters == self.spec_initial_counters(),
    {
        let mut counters = HealthCounters::default();
        if let Some(reporter) = self.reporter {
            counters.sensor_errors_seen = true;
            counters.i2c_errors = reporter.i2c_errors();
            counters.radio_tx_errors = reporter.radio_tx_errors();
            counters.last_sensor_error = reporter.last_sensor_error();
            counters.last_radio_error = reporter.last_radio_error();
        }
        counters
    }
}

/// Scanning starts only after a probe, an initialization, an exactly verified
/// configuration and telemetry, in this order; every failure is reported, and
/// only a failed initialization cannot be retried.
pub proof fn startup_reaches_running_in_order(stage: StartupStage, event: StartupEvent)
    requires
        ends_stage(stage, event),
    ensures
        stage_after(event) is Running ==> stage is Establish && event is TelemetryEstablished,
        stage_after(event) is Establish ==> stage is Configure && (
        event matches StartupEvent::Configured { metadata } && metadata matches Some(found)
            && found.exact_configuration_verified),
        stage_after(event) is Initialize ==> stage is Probe,
        stage_after(event) is ResetRequired <==> event is InitializationFailed,
        failure_of(event) is Some && !(event is InitializationFailed) ==> stage_after(event)
            == stage || (stage is Establish && stage_after(event) is Configure),
{
}

/// Every profile fragment of a batch was delivered.
pub open spec fn profile_delivered<E>(
    config_included: bool,
    fragment_count: u8,
    outcome: Result<EmitReport, EmitError<E>>,
) -> bool {
    match outcome {
        Ok(_) => true,
        Err(error) => crate::profile_status::fragments_delivered(
            config_included,
            fragment_count,
            error.completed_records,
        ),
    }
}

/// The configuration record of a batch, if it had one, was delivered.
pub open spec fn config_delivered<E>(
    config_included: bool,
    outcome: Result<EmitReport, EmitError<E>>,
) -> bool {
    config_included && match outcome {
        Ok(_) => true,
        Err(error) => error.completed_records != 0,
    }
}

/// Whether the reconfiguration marker is still pending after a batch.
pub open spec fn marker_after_batch<E>(
    pending: bool,
    scan: ProfileScan,
    config_included: bool,
    fragment_count: u8,
    outcome: Result<EmitReport, EmitError<E>>,
) -> bool {
    pending && !(scan.sensor_reconfigured && crate::health::successful(scan) && profile_delivered(
        config_included,
        fragment_count,
        outcome,
    ))
}

/// What the application does next with a scan's records.
#[derive(Clone, Copy, Debug, PartialEq, Eq)]
pub enum CyclePhase {
    /// Let the codec identify this configuration.
    Identify { config: DeviceConfig },
    /// Let the codec encode these records.
    Encode { records: EncodedScan },
    /// Emit the encoded batch.
    Emit { config_included: bool, fragment_count: u8 },
    /// Wait for the next scheduled scan.
    Wait,
}

/// The node between and during scans.
#[derive(Clone, Copy, Debug, PartialEq, Eq)]
pub struct Node {
    pub sensor: Sensor,
    pub telemetry: Telemetry,
    pub counters: HealthCounters,
    /// Fragments that the codec makes of every profile.
    pub expected_fragment_count: u8,
}

impl Node {
    /// A profile was dropped before it could be encoded: its fragments count as
    /// dropped, and its sequence number is left out.
    pub open spec fn dropped_unencoded(self, before: Self, counters: HealthCounters) -> bool {
        &&& self.sensor == before.sensor
        &&& self.telemetry == (Telemetry {
            next_scan_sequence: crate::telemetry_v2::next_sequence(
                before.telemetry.next_scan_sequence,
            ),
            ..before.telemetry
        })
        &&& self.counters == counters.after_codec_drop(before.expected_fragment_count)
        &&& self.expected_fragment_count == before.expected_fragment_count
    }

    /// The records of `scan` were laid out under the next sequence number.
    pub open spec fn laid_out(
        self,
        before: Self,
        records: EncodedScan,
        scan: ProfileScan,
        counters: HealthCounters,
        config_uptime_ms: u64,
        health_uptime_ms: u64,
    ) -> bool {
        &&& before.telemetry.reports(records, scan, counters, config_uptime_ms, health_uptime_ms)
        &&& self.telemetry == (Telemetry {
            next_scan_sequence: crate::telemetry_v2::next_sequence(
                before.telemetry.next_scan_sequence,
            ),
            config_delivery: self.telemetry.config_delivery,
            ..before.telemetry
        })
        &&& self.telemetry.config_delivery@ == before.telemetry.config_delivery@.after(
            crate::profile_status::ConfigDeliveryEvent::Prepared {
                periodic_due: crate::profile_status::check_due(
                    before.telemetry.next_scan_sequence,
                    crate::profile_policy::repeat_interval(before.telemetry.settings.route),
                ),
                configuration_verified: scan.configuration_verified,
            },
        )
        &&& self.sensor == before.sensor
        &&& self.counters == counters
        &&& self.expected_fragment_count == before.expected_fragment_count
    }

    /// A scan could not even begin: it counts as failed and incomplete, and its
    /// profile as dropped.
    pub open spec fn could_not_scan(self, before: Self) -> bool {
        self.dropped_unencoded(
            before,
            (HealthCounters {
                failed_sensor_scans: crate::profile_status::saturating_u32(
                    before.counters.failed_sensor_scans,
                    1,
                ),
                incomplete_profiles: crate::profile_status::saturating_u32(
                    before.counters.incomplete_profiles,
                    1,
                ),
                ..before.counters
            }),
        )
    }

    /// A finished scan was taken, and `phase` comes next. A verified scan first
    /// has its configuration identified; an unverified one is encoded as it is.
    pub open spec fn took_scan(
        self,
        before: Self,
        scan: ProfileScan,
        config_uptime_ms: u64,
        health_uptime_ms: u64,
        phase: CyclePhase,
    ) -> bool {
        let counters = before.counters.after_scan(scan);
        match (scan.configuration_verified, scan.pre_trigger_metadata) {
            (true, Some(metadata)) => {
                &&& phase matches CyclePhase::Identify { config }
                    && crate::telemetry_v2::canonical_config(
                    config,
                    metadata,
                    before.telemetry.settings,
                    before.telemetry.canonical_idac@,
                )
                &&& self == (Node { counters, ..before })
            },
            (true, None) => {
                &&& phase is Wait
                &&& self.dropped_unencoded(before, counters)
            },
            (false, _) => {
                phase matches CyclePhase::Encode { records } && self.laid_out(
                    before,
                    records,
                    scan,
                    counters,
                    config_uptime_ms,
                    health_uptime_ms,
                )
            },
        }
    }

    /// The codec's ID of a verified scan's configuration was taken, or its
    /// refusal, and `phase` comes next.
    pub open spec fn took_id(
        self,
        before: Self,
        scan: ProfileScan,
        metadata: SensorMetadata,
        config_id: Result<u64, CodecError>,
        config_uptime_ms: u64,
        health_uptime_ms: u64,
        phase: CyclePhase,
    ) -> bool {
        match config_id {
            Err(_) => {
                &&& phase is Wait
                &&& self.dropped_unencoded(before, before.counters)
            },
            Ok(id) => phase matches CyclePhase::Encode { records } && exists|refreshed: Node|
                {
                    &&& #[trigger] refreshed.refreshes(before, metadata, id)
                    &&& self.laid_out(
                        refreshed,
                        records,
                        scan,
                        before.counters,
                        config_uptime_ms,
                        health_uptime_ms,
                    )
                },
        }
    }

    /// The end of encoding was taken, and `phase` comes next.
    pub open spec fn took_encoding(
        self,
        before: Self,
        records: EncodedScan,
        fragment_count: Result<u8, CodecError>,
        phase: CyclePhase,
    ) -> bool {
        match fragment_count {
            Ok(fragment_count) => {
                &&& phase == (CyclePhase::Emit {
                    config_included: records.config is Some,
                    fragment_count,
                })
                &&& self == before
            },
            Err(_) => {
                &&& phase is Wait
                &&& self == (Node {
                    counters: before.counters.after_codec_drop(before.expected_fragment_count),
                    ..before
                })
            },
        }
    }

    /// A batch was emitted and fared as told.
    pub open spec fn took_batch<E>(
        self,
        before: Self,
        scan: ProfileScan,
        config_included: bool,
        fragment_count: u8,
        outcome: Result<EmitReport, EmitError<E>>,
    ) -> bool {
        let over_radio = before.telemetry.settings.route == OutputRoute::LoraP2p;
        &&& self.sensor == (Sensor {
            reconfiguration_marker_pending: marker_after_batch(
                before.sensor.reconfiguration_marker_pending,
                scan,
                config_included,
                fragment_count,
                outcome,
            ),
            ..before.sensor
        })
        &&& self.telemetry == (Telemetry {
            config_delivery: self.telemetry.config_delivery,
            ..before.telemetry
        })
        &&& self.telemetry.config_delivery@ == if config_delivered(config_included, outcome) {
            before.telemetry.config_delivery@.after(
                crate::profile_status::ConfigDeliveryEvent::Completed,
            )
        } else {
            before.telemetry.config_delivery@
        }
        &&& self.counters == match outcome {
            Ok(_) => before.counters.after_output_success(over_radio),
            Err(error) => before.counters.after_output_failure(
                config_included,
                fragment_count,
                error.completed_records,
                error.source is Radio && over_radio,
            ),
        }
        &&& self.expected_fragment_count == before.expected_fragment_count
    }

    fn drop_unencoded(&mut self)
        ensures
            final(self).dropped_unencoded(*old(self), old(self).counters),
    {
        self.counters.record_codec_drop(self.expected_fragment_count);
        self.telemetry.record_unencoded_scan();
    }

    /// Account for a scan that could not even begin.
    pub fn record_collector_failure(&mut self)
        ensures
            final(self).could_not_scan(*old(self)),
    {
        self.counters.failed_sensor_scans = self.counters.failed_sensor_scans.saturating_add(1);
        self.counters.incomplete_profiles = self.counters.incomplete_profiles.saturating_add(1);
        self.drop_unencoded();
    }

    /// Take a finished scan. A verified scan first has its configuration
    /// identified; an unverified one is encoded as it is.
    pub fn scan_finished(
        &mut self,
        scan: &ProfileScan,
        config_uptime_ms: u64,
        health_uptime_ms: u64,
    ) -> (phase: CyclePhase)
        ensures
            final(self).took_scan(*old(self), *scan, config_uptime_ms, health_uptime_ms, phase),
    {
        self.counters.record_scan(scan);
        if scan.configuration_verified {
            match scan.pre_trigger_metadata {
                Some(metadata) => CyclePhase::Identify {
                    config: self.telemetry.canonical_configuration(&metadata),
                },
                None => {
                    self.drop_unencoded();
                    CyclePhase::Wait
                },
            }
        } else {
            CyclePhase::Encode {
                records: self.telemetry.encode_scan(
                    scan,
                    &self.counters,
                    config_uptime_ms,
                    health_uptime_ms,
                ),
            }
        }
    }

    /// Take the codec's ID of a verified scan's configuration, or its refusal.
    /// `metadata` is the scan's own snapshot.
    pub fn configuration_identified(
        &mut self,
        scan: &ProfileScan,
        metadata: &SensorMetadata,
        config_id: Result<u64, CodecError>,
        config_uptime_ms: u64,
        health_uptime_ms: u64,
    ) -> (phase: CyclePhase)
        requires
            scan.pre_trigger_metadata == Some(*metadata),
        ensures
            final(self).took_id(
                *old(self),
                *scan,
                *metadata,
                config_id,
                config_uptime_ms,
                health_uptime_ms,
                phase,
            ),
    {
        match self.telemetry.refresh_configuration(metadata, config_id) {
            Ok(_) => {
                let ghost refreshed = *self;
                assert(refreshed.refreshes(*old(self), *metadata, config_id->Ok_0));
                let records = self.telemetry.encode_scan(
                    scan,
                    &self.counters,
                    config_uptime_ms,
                    health_uptime_ms,
                );
                assert(self.laid_out(
                    refreshed,
                    records,
                    *scan,
                    old(self).counters,
                    config_uptime_ms,
                    health_uptime_ms,
                ));
                CyclePhase::Encode { records }
            },
            Err(_) => {
                self.drop_unencoded();
                CyclePhase::Wait
            },
        }
    }

    /// The node after its configuration was identified: a changed ID brings the
    /// new definition and forces its delivery, the same ID changes nothing.
    pub open spec fn refreshes(self, before: Self, metadata: SensorMetadata, id: u64) -> bool {
        &&& self.sensor == before.sensor
        &&& self.counters == before.counters
        &&& self.expected_fragment_count == before.expected_fragment_count
        &&& self.telemetry.same_session(before.telemetry)
        &&& id == before.telemetry.config_id ==> self.telemetry.same_configuration(
            before.telemetry,
        )
        &&& id != before.telemetry.config_id ==> {
            &&& crate::telemetry_v2::canonical_config(
                self.telemetry.config,
                metadata,
                before.telemetry.settings,
                before.telemetry.canonical_idac@,
            )
            &&& self.telemetry.config_id == id
            &&& self.telemetry.config_delivery@ == before.telemetry.config_delivery@.after(
                crate::profile_status::ConfigDeliveryEvent::IdChanged,
            )
        }
    }

    /// Take how encoding ended: the number of profile fragments, or the codec's
    /// refusal of some record.
    pub fn records_encoded(
        &mut self,
        records: &EncodedScan,
        fragment_count: Result<u8, CodecError>,
    ) -> (phase: CyclePhase)
        ensures
            final(self).took_encoding(*old(self), *records, fragment_count, phase),
    {
        match fragment_count {
            Ok(fragment_count) => CyclePhase::Emit {
                config_included: records.config.is_some(),
                fragment_count,
            },
            Err(_) => {
                self.counters.record_codec_drop(self.expected_fragment_count);
                CyclePhase::Wait
            },
        }
    }

    /// Take how the batch fared. The reconfiguration marker is cleared by a
    /// locally usable marked profile that was delivered in full, and by nothing
    /// else; a delivered configuration record settles the configuration.
    pub fn batch_emitted<E>(
        &mut self,
        scan: &ProfileScan,
        config_included: bool,
        fragment_count: u8,
        outcome: &Result<EmitReport, EmitError<E>>,
    )
        ensures
            final(self).took_batch(
                *old(self),
                *scan,
                config_included,
                fragment_count,
                *outcome,
            ),
    {
        let over_radio = self.telemetry.settings.route == OutputRoute::LoraP2p;
        let usable = scan_is_successful(scan);
        match outcome {
            Ok(_) => {
                if scan.sensor_reconfigured && !reconfiguration_marker_after_delivery(
                    true,
                    true,
                    usable,
                    true,
                ) {
                    self.sensor.acknowledge_reconfiguration_marker();
                }
                if config_included {
                    self.telemetry.record_config_transmitted();
                }
                self.counters.record_output_success(over_radio);
            },
            Err(error) => {
                let fully_delivered = profile_delivery_complete(
                    config_included,
                    fragment_count,
                    error.completed_records,
                );
                if scan.sensor_reconfigured && !reconfiguration_marker_after_delivery(
                    true,
                    true,
                    usable,
                    fully_delivered,
                ) {
                    self.sensor.acknowledge_reconfiguration_marker();
                }
                if config_included && error.completed_records != 0 {
                    self.telemetry.record_config_transmitted();
                }
                self.counters.record_output_failure(
                    config_included,
                    fragment_count,
                    error.completed_records,
                    error.source.is_radio() && over_radio,
                );
            },
        }
    }
}

/// A scan that carries the reconfiguration marker leaves it pending through
/// unusable profiles and partial output, and clears it exactly when the usable
/// profile was delivered in full; a scan without the marker never clears it.
pub proof fn only_full_delivery_clears_the_marker<E>(
    scan: ProfileScan,
    sensor: Sensor,
    config_included: bool,
    fragment_count: u8,
    outcome: Result<EmitReport, EmitError<E>>,
)
    requires
        crate::scan_laws::coherent(scan, sensor),
    ensures
        ({
            let after = marker_after_batch(
                sensor.reconfiguration_marker_pending,
                scan,
                config_included,
                fragment_count,
                outcome,
            );
            &&& scan.sensor_reconfigured ==> after == !(crate::health::successful(scan)
                && profile_delivered(config_included, fragment_count, outcome))
            &&& !scan.sensor_reconfigured ==> after == sensor.reconfiguration_marker_pending
            &&& outcome matches Err(error) ==> (error.completed_records < fragment_count ==> after
                == sensor.reconfiguration_marker_pending)
        }),
{
}

/// Every scheduled attempt takes exactly one sequence number, whether it is
/// dropped before encoding or encoded, with or without a refreshed
/// configuration.
pub proof fn every_attempt_takes_one_sequence_number(
    before: Node,
    refreshed: Node,
    after: Node,
    metadata: SensorMetadata,
    id: u64,
    records: EncodedScan,
    scan: ProfileScan,
    counters: HealthCounters,
    config_uptime_ms: u64,
    health_uptime_ms: u64,
)
    requires
        refreshed == before || refreshed.refreshes(before, metadata, id),
        after.dropped_unencoded(refreshed, counters) || after.laid_out(
            refreshed,
            records,
            scan,
            counters,
            config_uptime_ms,
            health_uptime_ms,
        ),
    ensures
        after.telemetry.next_scan_sequence == crate::telemetry_v2::next_sequence(
            before.telemetry.next_scan_sequence,
        ),
        after.laid_out(
            refreshed,
            records,
            scan,
            counters,
            config_uptime_ms,
            health_uptime_ms,
        ) ==> records.sequence == before.telemetry.next_scan_sequence,
{
}

/// A verified scan whose configuration changed its ID sends the new definition
/// in the same batch, as a first definition and under the new ID, and keeps it
/// pending until it is delivered.
pub proof fn changed_configuration_is_sent_at_once(
    before: Node,
    refreshed: Node,
    after: Node,
    metadata: SensorMetadata,
    id: u64,
    records: EncodedScan,
    scan: ProfileScan,
    counters: HealthCounters,
    config_uptime_ms: u64,
    health_uptime_ms: u64,
)
    requires
        refreshed.refreshes(before, metadata, id),
        id != before.telemetry.config_id,
        scan.configuration_verified,
        after.laid_out(
            refreshed,
            records,
            scan,
            counters,
            config_uptime_ms,
            health_uptime_ms,
        ),
    ensures
        records.config matches Some(frame) && !frame.repeated && frame.common.config_id == id
            && frame.config == refreshed.telemetry.config && frame.common.sequence
            == records.profile.common.sequence,
        records.profile.common.config_id == id,
        after.telemetry.config_delivery@.pending,
{
}

} // verus!
