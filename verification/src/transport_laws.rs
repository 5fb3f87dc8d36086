//! What flag words, batches and sessions carry, told by what was put into them.

use vstd::prelude::*;

use crate::output_v2::{
    EmitError, EmitReport, RecordBatch, Source, UartCommand, UartProgress, UartStage,
};
use crate::protocol::{
    BuildFlagBits, BuildFlags, CollectionFlagBits, CollectionFlags, ConfigFlagBits, ConfigFlags,
    HealthFlagBits, HealthFlags,
};
use crate::radio::{BusyWait, RadioCommand, RadioSession, RadioStage, TransmissionError};
use crate::rf_switch::{SwitchLevels, SwitchPath};

verus! {

/// The word and the mask have a bit in common.
#[verifier::opaque]
pub open spec fn shares(word: u32, mask: u32) -> bool {
    word & mask != 0
}

proof fn lemma_flag_shares(word: u32, set: bool, bits: u32, mask: u32)
    ensures
        shares(crate::protocol::word_with(word, set, bits), mask) <==> shares(word, mask) || (set
            && shares(bits, mask)),
        !shares(0, mask),
{
    reveal(shares);
    assert((word | bits) & mask == 0 <==> word & mask == 0 && bits & mask == 0) by (bit_vector);
    assert(0u32 & mask == 0) by (bit_vector);
}

/// The flag word of a profile record has a bit exactly if a flag with this bit
/// is set. So with a bit of its own each flag can be read back, and none hides
/// or forges another.
pub proof fn collection_word_has_the_bits_of_its_flags(
    flags: CollectionFlags,
    bits: CollectionFlagBits,
    mask: u32,
)
    ensures
        shares(flags.spec_bits(bits), mask) <==> {
            ||| flags.timeout && shares(bits.timeout, mask)
            ||| flags.poll_budget_exhausted && shares(bits.poll_budget_exhausted, mask)
            ||| flags.i2c_error && shares(bits.i2c_error, mask)
            ||| flags.duplicate && shares(bits.duplicate, mask)
            ||| flags.overwritten && shares(bits.overwritten, mask)
            ||| flags.gas_index_out_of_range && shares(bits.gas_index_out_of_range, mask)
            ||| flags.measurement_discontinuity && shares(bits.measurement_discontinuity, mask)
            ||| flags.no_new_data && shares(bits.no_new_data, mask)
            ||| flags.invalid_gas && shares(bits.invalid_gas, mask)
            ||| flags.heater_unstable && shares(bits.heater_unstable, mask)
            ||| flags.observation_overflow && shares(bits.observation_overflow, mask)
            ||| flags.stale_pre_scan_fields && shares(bits.stale_pre_scan_fields, mask)
            ||| flags.config_mismatch && shares(bits.config_mismatch, mask)
            ||| flags.sensor_reconfigured && shares(bits.sensor_reconfigured, mask)
        },
{
    lemma_flag_shares(0, flags.timeout, bits.timeout, mask);
    let word = crate::protocol::word_with(0, flags.timeout, bits.timeout);
    lemma_flag_shares(word, flags.poll_budget_exhausted, bits.poll_budget_exhausted, mask);
    let word = crate::protocol::word_with(
        word,
        flags.poll_budget_exhausted,
        bits.poll_budget_exhausted,
    );
    lemma_flag_shares(word, flags.i2c_error, bits.i2c_error, mask);
    let word = crate::protocol::word_with(word, flags.i2c_error, bits.i2c_error);
    lemma_flag_shares(word, flags.duplicate, bits.duplicate, mask);
    let word = crate::protocol::word_with(word, flags.duplicate, bits.duplicate);
    lemma_flag_shares(word, flags.overwritten, bits.overwritten, mask);
    let word = crate::protocol::word_with(word, flags.overwritten, bits.overwritten);
    lemma_flag_shares(word, flags.gas_index_out_of_range, bits.gas_index_out_of_range, mask);
    let word = crate::protocol::word_with(
        word,
        flags.gas_index_out_of_range,
        bits.gas_index_out_of_range,
    );
    lemma_flag_shares(word, flags.measurement_discontinuity, bits.measurement_discontinuity, mask);
    let word = crate::protocol::word_with(
        word,
        flags.measurement_discontinuity,
        bits.measurement_discontinuity,
    );
    lemma_flag_shares(word, flags.no_new_data, bits.no_new_data, mask);
    let word = crate::protocol::word_with(word, flags.no_new_data, bits.no_new_data);
    lemma_flag_shares(word, flags.invalid_gas, bits.invalid_gas, mask);
    let word = crate::protocol::word_with(word, flags.invalid_gas, bits.invalid_gas);
    lemma_flag_shares(word, flags.heater_unstable, bits.heater_unstable, mask);
    let word = crate::protocol::word_with(word, flags.heater_unstable, bits.heater_unstable);
    lemma_flag_shares(word, flags.observation_overflow, bits.observation_overflow, mask);
    let word = crate::protocol::word_with(
        word,
        flags.observation_overflow,
        bits.observation_overflow,
    );
    lemma_flag_shares(word, flags.stale_pre_scan_fields, bits.stale_pre_scan_fields, mask);
    let word = crate::protocol::word_with(
        word,
        flags.stale_pre_scan_fields,
        bits.stale_pre_scan_fields,
    );
    lemma_flag_shares(word, flags.config_mismatch, bits.config_mismatch, mask);
    let word = crate::protocol::word_with(word, flags.config_mismatch, bits.config_mismatch);
    lemma_flag_shares(word, flags.sensor_reconfigured, bits.sensor_reconfigured, mask);
}

/// The byte and the mask have a bit in common.
pub open spec fn byte_shares(byte: u8, mask: u8) -> bool {
    byte & mask != 0
}

proof fn lemma_byte_union(left: u8, right: u8, mask: u8)
    ensures
        byte_shares(left | right, mask) <==> byte_shares(left, mask) || byte_shares(right, mask),
        !byte_shares(0, mask),
{
    assert((left | right) & mask == 0 <==> left & mask == 0 && right & mask == 0) by (bit_vector);
    assert(0u8 & mask == 0) by (bit_vector);
}

/// The flag bytes of configuration and health records have a bit exactly if a
/// flag with this bit is set.
pub proof fn flag_bytes_have_the_bits_of_their_flags(
    config: ConfigFlags,
    config_bits: ConfigFlagBits,
    build: BuildFlags,
    build_bits: BuildFlagBits,
    health: HealthFlags,
    health_bits: HealthFlagBits,
    mask: u8,
)
    ensures
        byte_shares(config.spec_bits(config_bits), mask) <==> {
            ||| config.calibration_hash_valid && byte_shares(
                config_bits.calibration_hash_valid,
                mask,
            )
            ||| config.sensor_config_read_back && byte_shares(
                config_bits.sensor_config_read_back,
                mask,
            )
        },
        byte_shares(build.spec_bits(build_bits), mask) <==> {
            ||| build.id_valid && byte_shares(build_bits.id_valid, mask)
            ||| build.dirty && byte_shares(build_bits.dirty, mask)
            ||| build.debug_sleep && byte_shares(build_bits.debug_sleep, mask)
        },
        byte_shares(health.spec_bits(health_bits), mask) <==> {
            ||| health.counters_saturated && byte_shares(health_bits.counters_saturated, mask)
            ||| health.boot_id_unavailable && byte_shares(health_bits.boot_id_unavailable, mask)
            ||| health.config_mismatch && byte_shares(health_bits.config_mismatch, mask)
            ||| health.last_scan_incomplete && byte_shares(health_bits.last_scan_incomplete, mask)
            ||| health.sensor_error_seen && byte_shares(health_bits.sensor_error_seen, mask)
            ||| health.radio_error_seen && byte_shares(health_bits.radio_error_seen, mask)
        },
{
    let a = crate::protocol::flag_u8(
        config.calibration_hash_valid,
        config_bits.calibration_hash_valid,
    );
    let b = crate::protocol::flag_u8(
        config.sensor_config_read_back,
        config_bits.sensor_config_read_back,
    );
    lemma_byte_union(a, b, mask);
    let a = crate::protocol::flag_u8(build.id_valid, build_bits.id_valid);
    let b = crate::protocol::flag_u8(build.dirty, build_bits.dirty);
    lemma_byte_union(a, b, mask);
    lemma_byte_union(
        a | b,
        crate::protocol::flag_u8(build.debug_sleep, build_bits.debug_sleep),
        mask,
    );
    let a = crate::protocol::flag_u8(health.counters_saturated, health_bits.counters_saturated);
    let b = crate::protocol::flag_u8(health.boot_id_unavailable, health_bits.boot_id_unavailable);
    lemma_byte_union(a, b, mask);
    let c = crate::protocol::flag_u8(health.config_mismatch, health_bits.config_mismatch);
    lemma_byte_union(a | b, c, mask);
    let d = crate::protocol::flag_u8(
        health.last_scan_incomplete,
        health_bits.last_scan_incomplete,
    );
    lemma_byte_union(a | b | c, d, mask);
    let e = crate::protocol::flag_u8(health.sensor_error_seen, health_bits.sensor_error_seen);
    lemma_byte_union(a | b | c | d, e, mask);
    let f = crate::protocol::flag_u8(health.radio_error_seen, health_bits.radio_error_seen);
    lemma_byte_union(a | b | c | d | e, f, mask);
}

/// A batch holds the configuration first where there is one, then fragment after
/// fragment, and health last where there is one, and nothing else.
pub proof fn batch_holds_its_records_in_order(
    config: Option<&[u8]>,
    fragments: Seq<&[u8]>,
    health: Option<&[u8]>,
    batch: Seq<Seq<u8>>,
)
    requires
        batch == crate::output_v2::batch_order(config, fragments, health),
    ensures
        ({
            let first = if config is Some {
                1int
            } else {
                0
            };
            &&& config matches Some(record) ==> batch[0] == record@
            &&& forall|i: int|
                0 <= i < fragments.len() ==> batch[first + i] == #[trigger] fragments[i]@
            &&& health matches Some(record) ==> batch.last() == record@
            &&& batch.len() == first + fragments.len() + if health is Some {
                1int
            } else {
                0
            }
        }),
{
}

/// A batch is refused exactly if it would hold more than six records.
pub proof fn batch_of_more_than_six_is_refused<'a, E>(
    config: Option<&'a [u8]>,
    fragments: &[&'a [u8]],
    health: Option<&'a [u8]>,
    result: Result<RecordBatch<'a>, EmitError<E>>,
)
    requires
        call_ensures(crate::output_v2::emit::<E>, (config, fragments, health), result),
    ensures
        result is Ok <==> crate::output_v2::batch_order(config, fragments@, health).len() <= 6,
        result matches Ok(batch) ==> batch@ == crate::output_v2::batch_order(
            config,
            fragments@,
            health,
        ),
        result matches Err(error) ==> error.completed_records == 0 && error.requested_records == 7
            && error.source is TooManyRecords,
{
}

/// A radio batch reports what the radio completed, and both counts stop at 255.
pub proof fn radio_batch_reports_completed_packets<E>(
    requested: usize,
    transmitted: Result<u8, TransmissionError<E>>,
    result: Result<EmitReport, EmitError<E>>,
)
    requires
        call_ensures(
            crate::output_v2::emit_over_radio::<E>,
            (requested, transmitted),
            result,
        ),
    ensures
        result is Ok <==> transmitted is Ok,
        result matches Ok(report) ==> report.completed_records == transmitted->Ok_0
            && report.requested_records as int == crate::acquisition_laws::at_most(
            requested as int,
            255,
        ),
        result matches Err(error) ==> error.source == Source::Radio(transmitted->Err_0)
            && error.completed_records == transmitted->Err_0.completed_packets
            && error.requested_records as int == crate::acquisition_laws::at_most(
            requested as int,
            255,
        ),
{
}

/// A UART session configures first, then writes and flushes record after record.
/// It ends well after the last flush; its first failure ends it with that
/// failure, told apart by whether configuration, writing or framing failed.
pub proof fn uart_session_keeps_its_order<E>(
    session: UartProgress<E>,
    outcome: Result<(), E>,
    after: UartProgress<E>,
)
    requires
        session.wf(),
        session.spec_command() is Some,
        after == session.after(outcome),
    ensures
        after.payloads == session.payloads,
        session.spec_command() == Some(UartCommand::Configure) <==> session.stage is Configure,
        session.spec_command() == Some(UartCommand::Flush) <==> session.stage is Flush,
        session.stage matches UartStage::Write { len } ==> session.spec_command() == Some(
            UartCommand::Write { len },
        ) && len == crate::framing::delimited_frame(session.payloads[session.flushed as int]).len(),
        after.flushed == session.flushed + if session.stage is Flush && outcome is Ok {
            1int
        } else {
            0
        },
        session.stage is Write && outcome is Ok ==> after.stage is Flush,
        outcome matches Err(source) ==> (after.stage matches UartStage::Closed {
            result: Err(error),
        } && error.source == if session.stage is Configure {
            Source::UartConfiguration(source)
        } else {
            Source::UartWrite(source)
        }),
        outcome is Ok && !(session.stage is Write) ==> {
            &&& after.flushed == session.payloads.len() ==> (after.stage matches UartStage::Closed {
                result: Ok(_),
            })
            &&& after.flushed < session.payloads.len() ==> {
                let next = session.payloads[after.flushed as int];
                &&& next.len() <= 231 ==> after.stage is Write
                &&& next.len() > 231 ==> (after.stage matches UartStage::Closed {
                    result: Err(error),
                } && error.source == Source::<E>::Framing(crate::framing::Error::InputTooLarge))
            }
        },
        after.stage matches UartStage::Closed { result } ==> match result {
            Ok(report) => report.completed_records as int == crate::acquisition_laws::at_most(
                after.flushed as int,
                255,
            ) && report.requested_records as int == crate::acquisition_laws::at_most(
                session.payloads.len() as int,
                255,
            ),
            Err(error) => error.completed_records as int == crate::acquisition_laws::at_most(
                after.flushed as int,
                255,
            ) && error.requested_records as int == crate::acquisition_laws::at_most(
                session.payloads.len() as int,
                255,
            ),
        },
{
}

/// A radio session opens the radio, creates modulation and packet parameters,
/// then loads and transmits packet after packet, each loaded by its number, and
/// sleeps when all of them are out. A packet counts once its transmission ended
/// well. A failure to open ends the session at once with no packet; any other
/// leads to sleep.
pub proof fn radio_session_keeps_its_order<E>(
    session: RadioSession<E>,
    outcome: Result<(), E>,
    after: RadioSession<E>,
)
    requires
        session.wf(),
        after == session.after(outcome),
    ensures
        after.total == session.total,
        after.sent == session.sent + if session.stage is Transmit && outcome is Ok {
            1int
        } else {
            0
        },
        session.stage is Open ==> session.spec_command() == Some(RadioCommand::Open),
        session.stage is Prepare ==> session.spec_command() == Some(
            RadioCommand::Prepare { index: session.sent },
        ),
        session.stage is Transmit ==> session.spec_command() == Some(RadioCommand::Transmit),
        session.stage is Sleep ==> session.spec_command() == Some(RadioCommand::Sleep),
        outcome is Ok ==> match session.stage {
            RadioStage::Open => after.spec_command() == Some(RadioCommand::CreateModulation),
            RadioStage::Modulation => after.spec_command() == Some(RadioCommand::CreatePacket),
            RadioStage::Packet => after.spec_command() == Some(RadioCommand::Prepare { index: 0 }),
            RadioStage::Prepare => after.spec_command() == Some(RadioCommand::Transmit),
            RadioStage::Transmit => after.spec_command() == if after.sent < after.total {
                Some(RadioCommand::Prepare { index: after.sent })
            } else {
                Some(RadioCommand::Sleep)
            },
            _ => after.spec_command() is None,
        },
        outcome matches Err(source) ==> match session.stage {
            RadioStage::Open => after.stage matches RadioStage::Closed { result: Err(error) }
                && error.source == source && error.completed_packets == 0,
            RadioStage::Sleep { batch: Ok(_) } => after.stage matches RadioStage::Closed {
                result: Err(error),
            } && error.source == source && error.completed_packets as int
                == crate::acquisition_laws::at_most(session.sent as int, 255),
            RadioStage::Sleep { batch: Err(first) } => after.stage matches RadioStage::Closed {
                result: Err(error),
            } && error.source == first,
            RadioStage::Closed { .. } => after == session,
            _ => after.stage == (RadioStage::Sleep { batch: Err::<(), E>(source) }),
        },
        session.stage matches RadioStage::Sleep { batch: Err(first) } ==> (
        after.stage matches RadioStage::Closed { result: Err(error) } && error.source == first
            && error.completed_packets as int == crate::acquisition_laws::at_most(
            session.sent as int,
            255,
        )),
        session.stage matches RadioStage::Sleep { batch: Ok(_) } ==> (outcome is Ok ==> (
        after.stage matches RadioStage::Closed { result: Ok(count) } && count as int
            == crate::acquisition_laws::at_most(session.sent as int, 255))),
{
}

/// An empty batch never touches the radio, and a batch of fixed-width frames is
/// refused exactly if it holds more than three.
pub proof fn radio_batches_are_bounded<E>(
    total: usize,
    session: RadioSession<E>,
    result: Result<RadioSession<E>, usize>,
)
    requires
        call_ensures(RadioSession::<E>::transmit_payloads, (total,), session),
        call_ensures(RadioSession::<E>::transmit, (total,), result),
    ensures
        session.total == total,
        session.sent == 0,
        total == 0 <==> session.spec_command() is None,
        total == 0 ==> session.stage == (RadioStage::<E>::Closed { result: Ok(0) }),
        total > 0 ==> session.spec_command() == Some(RadioCommand::Open),
        result is Ok <==> total <= 3,
        result matches Ok(frames) ==> frames == session,
        result matches Err(len) ==> len == total,
{
}

/// A radio that is not busy is ready, whatever the time; a busy one is waited
/// for until the deadline.
pub proof fn busy_radio_is_waited_for_until_the_deadline(
    busy: bool,
    deadline_reached: bool,
    decision: BusyWait,
)
    requires
        call_ensures(crate::radio::wait_on_busy, (busy, deadline_reached), decision),
    ensures
        decision is Ready <==> !busy,
        decision is TimedOut <==> busy && deadline_reached,
        decision is Wait <==> busy && !deadline_reached,
{
}

/// The switch selects one path at most: receiving drives the receive control
/// alone, transmitting the transmit control alone, and off drives neither.
pub proof fn switch_selects_one_path(path: SwitchPath)
    ensures
        SwitchLevels::selecting(path).receive <==> path is Receive,
        SwitchLevels::selecting(path).transmit <==> path is Transmit,
        !(SwitchLevels::selecting(path).receive && SwitchLevels::selecting(path).transmit),
{
}

} // verus!
