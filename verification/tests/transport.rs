use vesta::framing;
use vesta::output_v2::{
    EmitError, EmitReport, MAX_RECORDS_PER_SCAN, RecordBatch, Source, UartCommand, UartSession,
    UartStage, emit, emit_over_radio,
};
use vesta::radio::{
    BusyWait, RadioCommand, RadioSession, RadioStage, TransmissionError, wait_on_busy,
};
use vesta::rf_switch::{PinWrite, SwitchPath, SwitchPin, switch_writes};

/// Run a session, failing the given operation with its error.
fn run(
    session: RadioSession<u8>,
    fails: &dyn Fn(RadioCommand, usize) -> Option<u8>,
) -> (Vec<RadioCommand>, Result<u8, TransmissionError<u8>>) {
    let mut session = session;
    let mut issued = Vec::new();
    while let Some(command) = session.command() {
        issued.push(command);
        let occurrence = issued.iter().filter(|other| **other == command).count();
        session = session.advance(match fails(command, occurrence) {
            Some(error) => Err(error),
            None => Ok(()),
        });
    }
    match session.stage {
        RadioStage::Closed { result } => (issued, result),
        _ => panic!("a session without a command is closed"),
    }
}

fn failure(source: u8, completed_packets: u8) -> Result<u8, TransmissionError<u8>> {
    Err(TransmissionError {
        source,
        completed_packets,
    })
}

#[test]
fn session_sends_every_payload_and_sleeps() {
    let (issued, result) = run(RadioSession::transmit_payloads(2), &|_, _| None);
    assert_eq!(
        issued,
        vec![
            RadioCommand::Open,
            RadioCommand::CreateModulation,
            RadioCommand::CreatePacket,
            RadioCommand::Prepare { index: 0 },
            RadioCommand::Transmit,
            RadioCommand::Prepare { index: 1 },
            RadioCommand::Transmit,
            RadioCommand::Sleep,
        ]
    );
    assert_eq!(result, Ok(2));
}

#[test]
fn empty_batch_never_touches_the_radio() {
    let (issued, result) = run(RadioSession::transmit_payloads(0), &|_, _| Some(1));
    assert_eq!(issued, vec![]);
    assert_eq!(result, Ok(0));
}

#[test]
fn failed_open_needs_no_sleep() {
    let (issued, result) = run(RadioSession::transmit_payloads(3), &|_, _| Some(4));
    assert_eq!(issued, vec![RadioCommand::Open]);
    assert_eq!(result, failure(4, 0));
}

#[test]
fn every_later_failure_still_puts_the_radio_to_sleep() {
    for failing in [
        RadioCommand::CreateModulation,
        RadioCommand::CreatePacket,
        RadioCommand::Prepare { index: 0 },
    ] {
        let (issued, result) = run(RadioSession::transmit_payloads(3), &|command, _| {
            if command == failing { Some(5) } else { None }
        });
        assert_eq!(issued.last(), Some(&RadioCommand::Sleep));
        assert_eq!(result, failure(5, 0));
    }
    let (_, result) = run(RadioSession::transmit_payloads(3), &|command, occurrence| {
        if command == RadioCommand::Transmit && occurrence == 3 { Some(6) } else { None }
    });
    assert_eq!(result, failure(6, 2));
}

#[test]
fn batch_failure_outweighs_sleep_failure() {
    let (_, result) = run(RadioSession::transmit_payloads(1), &|command, _| match command {
        RadioCommand::Transmit => Some(7),
        RadioCommand::Sleep => Some(8),
        _ => None,
    });
    assert_eq!(result, failure(7, 0));
    let (_, result) = run(RadioSession::transmit_payloads(1), &|command, _| {
        if command == RadioCommand::Sleep { Some(8) } else { None }
    });
    let error = match result {
        Err(error) => error,
        Ok(_) => panic!("sleep failed"),
    };
    assert_eq!(*error.source(), 8);
    assert_eq!(error.completed_packets(), 1);
}

#[test]
fn fixed_width_batch_holds_three_frames() {
    let three: Result<RadioSession<u8>, usize> = RadioSession::transmit(3);
    assert!(three.is_ok());
    let four: Result<RadioSession<u8>, usize> = RadioSession::transmit(4);
    assert_eq!(four, Err(4));
}

#[test]
fn long_batches_saturate_their_packet_count() {
    let (_, result) = run(RadioSession::transmit_payloads(300), &|_, _| None);
    assert_eq!(result, Ok(255));
}

#[test]
fn busy_radio_is_awaited_until_its_deadline() {
    assert_eq!(wait_on_busy(false, false), BusyWait::Ready);
    assert_eq!(wait_on_busy(false, true), BusyWait::Ready);
    assert_eq!(wait_on_busy(true, false), BusyWait::Wait);
    assert_eq!(wait_on_busy(true, true), BusyWait::TimedOut);
}

#[test]
fn switch_releases_one_control_before_it_drives_the_other() {
    assert_eq!(
        switch_writes(SwitchPath::Transmit),
        [
            PinWrite { pin: SwitchPin::Receive, high: false },
            PinWrite { pin: SwitchPin::Transmit, high: true },
        ]
    );
    assert_eq!(
        switch_writes(SwitchPath::Receive),
        [
            PinWrite { pin: SwitchPin::Transmit, high: false },
            PinWrite { pin: SwitchPin::Receive, high: true },
        ]
    );
    assert_eq!(
        switch_writes(SwitchPath::Off),
        [
            PinWrite { pin: SwitchPin::Receive, high: false },
            PinWrite { pin: SwitchPin::Transmit, high: false },
        ]
    );
}

#[test]
fn records_are_batched_in_their_order() {
    let config: &[u8] = &[1];
    let fragments: [&[u8]; 4] = [&[2], &[3, 3], &[4], &[5]];
    let health: &[u8] = &[6];
    let batch: Result<RecordBatch<'_>, EmitError<u8>> =
        emit(Some(config), &fragments, Some(health));
    let batch = match batch {
        Ok(batch) => batch,
        Err(_) => panic!("six records fit"),
    };
    assert_eq!(batch.count, MAX_RECORDS_PER_SCAN);
    let expected: [&[u8]; 6] = [&[1], &[2], &[3, 3], &[4], &[5], &[6]];
    assert_eq!(batch.payloads, expected);

    let batch: Result<RecordBatch<'_>, EmitError<u8>> = emit(None, &fragments[..1], None);
    match batch {
        Ok(batch) => {
            assert_eq!(batch.count, 1);
            assert_eq!(batch.payloads[0], &[2]);
        }
        Err(_) => panic!("one record fits"),
    }
}

#[test]
fn seventh_record_is_refused() {
    let fragments: [&[u8]; 6] = [&[1]; 6];
    let health: &[u8] = &[6];
    let batch: Result<RecordBatch<'_>, EmitError<u8>> = emit(None, &fragments, Some(health));
    match batch {
        Ok(_) => panic!("seven records do not fit"),
        Err(error) => {
            assert_eq!(error.completed_records, 0);
            assert_eq!(error.requested_records, 7);
            assert_eq!(error.source, Source::TooManyRecords);
            assert!(!error.source.is_radio());
        }
    }
}

#[test]
fn pushed_record_takes_one_slot_and_leaves_the_others() {
    let mut batch = RecordBatch::new();
    assert_eq!(batch.count, 0);
    batch.payloads = [&[1], &[2], &[3], &[4], &[5], &[6]];
    batch.count = 2;
    let pushed: Result<(), EmitError<u8>> = batch.push_payload(&[9]);
    assert_eq!(pushed, Ok(()));
    let expected: [&[u8]; 6] = [&[1], &[2], &[9], &[4], &[5], &[6]];
    assert_eq!(batch.payloads, expected);
    assert_eq!(batch.count, 3);

    for (count, requested_records) in [(6, 7), (300, 255)] {
        batch.count = count;
        assert_eq!(
            batch.push_payload(&[7]),
            Err(EmitError::<u8> {
                completed_records: 0,
                requested_records,
                source: Source::TooManyRecords,
            })
        );
        assert_eq!(batch.payloads, expected);
        assert_eq!(batch.count, count);
    }
}

#[test]
fn radio_outcome_becomes_a_batch_outcome() {
    assert_eq!(
        emit_over_radio::<u8>(5, Ok(5)),
        Ok(EmitReport {
            completed_records: 5,
            requested_records: 5
        })
    );
    let error = match emit_over_radio(5, failure(9, 2)) {
        Err(error) => error,
        Ok(_) => panic!("the radio failed"),
    };
    assert_eq!(error.completed_records, 2);
    assert_eq!(error.requested_records, 5);
    assert!(error.source.is_radio());
    match emit_over_radio::<u8>(300, Ok(255)) {
        Ok(report) => assert_eq!(report.requested_records, 255),
        Err(_) => panic!("the radio succeeded"),
    }
}

/// Run a UART session, failing the given operation with its error.
fn run_uart(
    payloads: &[&[u8]],
    fails: &dyn Fn(UartCommand, usize) -> Option<u8>,
) -> (Vec<u8>, usize, Result<EmitReport, EmitError<u8>>) {
    let mut session: UartSession<'_, u8> = UartSession::new(payloads);
    let mut wire = Vec::new();
    let mut issued = 0;
    while let Some(command) = session.command() {
        let outcome = match fails(command, issued) {
            Some(error) => Err(error),
            None => Ok(()),
        };
        issued += 1;
        if let (UartCommand::Write { len }, Ok(())) = (command, outcome) {
            wire.extend_from_slice(&session.encoded[..len]);
        }
        session.advance(outcome);
    }
    match session.stage {
        UartStage::Closed { result } => (wire, issued, result),
        _ => panic!("a session without a command is closed"),
    }
}

fn frame(payload: &[u8]) -> Vec<u8> {
    let mut encoded = [0_u8; framing::MAX_COBS_FRAME_LEN];
    match framing::encode_delimited(payload, &mut encoded) {
        Ok(len) => encoded[..len].to_vec(),
        Err(_) => panic!("the record fits"),
    }
}

fn uart_failure(completed_records: u8, source: Source<u8>) -> Result<EmitReport, EmitError<u8>> {
    Err(EmitError {
        completed_records,
        requested_records: 2,
        source,
    })
}

const RECORDS: [&[u8]; 2] = [&[0x11, 0x00, 0x22], &[0x33]];

#[test]
fn uart_batch_writes_and_flushes_every_record() {
    let (wire, issued, result) = run_uart(&RECORDS, &|_, _| None);
    // One configuration, then a write and a flush for each record.
    assert_eq!(issued, 5);
    assert_eq!(
        result,
        Ok(EmitReport {
            completed_records: 2,
            requested_records: 2
        })
    );
    let mut expected = frame(RECORDS[0]);
    expected.extend(frame(RECORDS[1]));
    assert_eq!(wire, expected);
    assert_eq!(wire.iter().filter(|byte| **byte == 0).count(), 2);
}

#[test]
fn uart_session_takes_its_operations_in_order() {
    let mut session: UartSession<'_, u8> = UartSession::new(&RECORDS[1..]);
    assert_eq!(session.command(), Some(UartCommand::Configure));
    session.advance(Ok(()));
    assert_eq!(session.command(), Some(UartCommand::Write { len: 7 }));
    session.advance(Ok(()));
    assert_eq!(session.flushed, 0);
    assert_eq!(session.command(), Some(UartCommand::Flush));
    session.advance(Ok(()));
    assert_eq!(session.flushed, 1);
    assert_eq!(session.command(), None);
    session.advance(Err(1));
    assert_eq!(
        session.stage,
        UartStage::Closed {
            result: Ok(EmitReport {
                completed_records: 1,
                requested_records: 1
            })
        }
    );
}

#[test]
fn uart_failure_reports_the_flushed_records() {
    let (wire, issued, result) = run_uart(&RECORDS, &|_, _| Some(4));
    assert_eq!((wire.len(), issued), (0, 1));
    assert_eq!(result, uart_failure(0, Source::UartConfiguration(4)));

    // Failures of the first write, its flush, the second write and its flush.
    for (failing, completed) in [(1, 0), (2, 0), (3, 1), (4, 1)] {
        let (wire, issued, result) = run_uart(&RECORDS, &|_, issued| {
            if issued == failing { Some(3) } else { None }
        });
        assert_eq!(issued, failing + 1);
        assert_eq!(result, uart_failure(completed, Source::UartWrite(3)));
        let whole = wire.iter().filter(|byte| **byte == 0).count();
        assert_eq!(whole, failing / 2);
    }
}

#[test]
fn uart_refuses_an_oversized_record_after_the_ones_before_it() {
    let oversized = [0_u8; 232];
    let (wire, _, result) = run_uart(&[RECORDS[0], &oversized], &|_, _| None);
    assert_eq!(wire, frame(RECORDS[0]));
    assert_eq!(
        result,
        uart_failure(1, Source::Framing(framing::Error::InputTooLarge))
    );
    let (_, issued, result) = run_uart(&[], &|_, _| None);
    assert_eq!(issued, 1);
    assert_eq!(
        result,
        Ok(EmitReport {
            completed_records: 0,
            requested_records: 0
        })
    );
}
