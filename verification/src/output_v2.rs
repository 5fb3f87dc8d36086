//! Transport boundary of protocol v2.
//!
//! Production uses one variable-length LoRa batch. Laboratory training uses
//! the same protocol records over COBS-delimited USART2/PA2, so transport does
//! not change the decoder or sensor semantics.

use vstd::prelude::*;

use crate::framing;
use crate::radio::TransmissionError;

verus! {

// One config + four 3/3/3/1 profile fragments + one health record.
pub const MAX_RECORDS_PER_SCAN: usize = 6;

pub const TRAINING_UART_BAUD: u32 = 115_200;

#[derive(Clone, Copy, Debug, PartialEq, Eq, Structural)]
pub struct EmitReport {
    pub completed_records: u8,
    pub requested_records: u8,
}

#[derive(Debug, PartialEq, Eq)]
pub struct EmitError<E> {
    pub completed_records: u8,
    pub requested_records: u8,
    pub source: Source<E>,
}

/// Why a batch failed; `E` is the error of the transport's own driver.
#[derive(Debug, PartialEq, Eq)]
pub enum Source<E> {
    TooManyRecords,
    Radio(TransmissionError<E>),
    UartConfiguration(E),
    UartWrite(E),
    Framing(framing::Error),
}

impl<E> Source<E> {
    #[must_use]
    pub fn is_radio(&self) -> (radio: bool)
        ensures
            radio == (self is Radio),
    {
        match self {
            Source::Radio(_) => true,
            _ => false,
        }
    }
}

/// A record count, held at the largest 8-bit value.
pub open spec fn record_count(count: int) -> u8 {
    if count > u8::MAX {
        u8::MAX
    } else {
        count as u8
    }
}

/// The records of one batch, in the order in which they are sent.
pub struct RecordBatch<'a> {
    pub payloads: [&'a [u8]; 6],
    pub count: usize,
}

impl<'a> View for RecordBatch<'a> {
    type V = Seq<Seq<u8>>;

    open spec fn view(&self) -> Seq<Seq<u8>> {
        Seq::new(self.count as nat, |i: int| self.payloads@[i]@)
    }
}

impl<'a> RecordBatch<'a> {
    pub open spec fn wf(&self) -> bool {
        self.count <= MAX_RECORDS_PER_SCAN
    }

    /// No slot behind the records holds anything.
    pub open spec fn rest_is_empty(&self) -> bool {
        forall|i: int|
            self.count <= i < MAX_RECORDS_PER_SCAN ==> (#[trigger] self.payloads@[i])@
                == Seq::<u8>::empty()
    }

    #[must_use]
    pub fn new() -> (batch: Self)
        ensures
            batch.wf(),
            batch@ == Seq::<Seq<u8>>::empty(),
            batch.rest_is_empty(),
    {
        let empty: &'a [u8] = &[];
        assert(empty@ == Seq::<u8>::empty());
        RecordBatch { payloads: [empty; 6], count: 0 }
    }

    /// Append one record, unless the batch is full. Every other slot keeps its
    /// record.
    pub fn push_payload<E>(&mut self, payload: &'a [u8]) -> (result: Result<(), EmitError<E>>)
        ensures
            match result {
                Ok(_) => {
                    &&& old(self).count < MAX_RECORDS_PER_SCAN
                    &&& final(self).count == old(self).count + 1
                    &&& final(self).payloads@ == old(self).payloads@.update(
                        old(self).count as int,
                        payload,
                    )
                    &&& final(self)@ == old(self)@.push(payload@)
                },
                Err(error) => {
                    &&& old(self).count >= MAX_RECORDS_PER_SCAN
                    &&& *final(self) == *old(self)
                    &&& error == (EmitError {
                        completed_records: 0,
                        requested_records: record_count(old(self).count + 1),
                        source: Source::<E>::TooManyRecords,
                    })
                },
            },
    {
        if self.count >= MAX_RECORDS_PER_SCAN {
            let requested_records: u8 = if self.count >= u8::MAX as usize {
                u8::MAX
            } else {
                (self.count + 1) as u8
            };
            return Err(
                EmitError {
                    completed_records: 0,
                    requested_records,
                    source: Source::TooManyRecords,
                },
            );
        }
        let ghost before = self@;
        self.payloads[self.count] = payload;
        self.count += 1;
        assert(self@ =~= before.push(payload@));
        Ok(())
    }
}

/// The record that an optional slot contributes.
pub open spec fn optional_record(record: Option<&[u8]>) -> Seq<Seq<u8>> {
    match record {
        Some(bytes) => seq![bytes@],
        None => Seq::empty(),
    }
}

/// The records of a scan in their order: the configuration first where there is
/// one, then every profile fragment, then health where there is one.
pub open spec fn batch_order(
    config: Option<&[u8]>,
    fragments: Seq<&[u8]>,
    health: Option<&[u8]>,
) -> Seq<Seq<u8>> {
    optional_record(config) + Seq::new(fragments.len(), |i: int| fragments[i]@) + optional_record(
        health,
    )
}

/// Put optional repeated config, every profile fragment, and optional health
/// into one transport batch in deterministic record order.
pub fn emit<'a, E>(
    config: Option<&'a [u8]>,
    fragments: &[&'a [u8]],
    health: Option<&'a [u8]>,
) -> (result: Result<RecordBatch<'a>, EmitError<E>>)
    ensures
        match result {
            Ok(batch) => {
                &&& batch.wf()
                &&& batch@ == batch_order(config, fragments@, health)
                &&& batch.rest_is_empty()
            },
            Err(error) => {
                &&& batch_order(config, fragments@, health).len() > MAX_RECORDS_PER_SCAN
                &&& error == (EmitError {
                    completed_records: 0,
                    requested_records: 7,
                    source: Source::<E>::TooManyRecords,
                })
            },
        },
{
    let mut batch = RecordBatch::new();
    if let Some(config) = config {
        match batch.push_payload::<E>(config) {
            Ok(_) => {},
            Err(error) => {
                return Err(error);
            },
        }
    }
    assert(batch@ =~= optional_record(config));
    let mut index: usize = 0;
    while index < fragments.len()
        invariant
            index <= fragments@.len(),
            batch.wf(),
            batch.rest_is_empty(),
            batch@ == optional_record(config) + Seq::new(
                index as nat,
                |i: int| fragments@[i]@,
            ),
        decreases fragments.len() - index,
    {
        match batch.push_payload::<E>(fragments[index]) {
            Ok(_) => {},
            Err(error) => {
                return Err(error);
            },
        }
        index += 1;
        assert(batch@ =~= optional_record(config) + Seq::new(
            index as nat,
            |i: int| fragments@[i]@,
        ));
    }
    if let Some(health) = health {
        match batch.push_payload::<E>(health) {
            Ok(_) => {},
            Err(error) => {
                return Err(error);
            },
        }
    }
    assert(batch@ =~= batch_order(config, fragments@, health));
    Ok(batch)
}

/// What a LoRa batch amounts to.
pub fn emit_over_radio<E>(
    requested: usize,
    transmitted: Result<u8, TransmissionError<E>>,
) -> (result: Result<EmitReport, EmitError<E>>)
    ensures
        result == match transmitted {
            Ok(completed_records) => Ok::<EmitReport, EmitError<E>>(
                EmitReport {
                    completed_records,
                    requested_records: record_count(requested as int),
                },
            ),
            Err(source) => Err(
                EmitError {
                    completed_records: source.completed_packets,
                    requested_records: record_count(requested as int),
                    source: Source::Radio(source),
                },
            ),
        },
{
    let requested_records: u8 = if requested > u8::MAX as usize {
        u8::MAX
    } else {
        requested as u8
    };
    match transmitted {
        Ok(completed_records) => Ok(EmitReport { completed_records, requested_records }),
        Err(source) => Err(
            EmitError {
                completed_records: source.completed_packets,
                requested_records,
                source: Source::Radio(source),
            },
        ),
    }
}

/// Operation on the training UART that the application carries out.
#[derive(Clone, Copy, Debug, PartialEq, Eq, Structural)]
pub enum UartCommand {
    /// Configure the transmitter for the batch.
    Configure,
    /// Write the first `len` bytes of the encoded frame.
    Write { len: usize },
    /// Flush the written frame. A flushed record is complete.
    Flush,
}

/// Where a UART session stands.
#[derive(Debug, PartialEq, Eq)]
pub enum UartStage<E> {
    Configure,
    Write { len: usize },
    Flush,
    Closed { result: Result<EmitReport, EmitError<E>> },
}

/// One batch of records over the training UART.
#[derive(Debug, PartialEq, Eq)]
pub struct UartSession<'a, E> {
    pub stage: UartStage<E>,
    pub payloads: &'a [&'a [u8]],
    /// Records that were flushed, which are the leading ones of the batch.
    pub flushed: usize,
    /// The frame of the record that is being written.
    pub encoded: [u8; 238],
}

/// What decides the course of a UART session.
pub struct UartProgress<E> {
    pub stage: UartStage<E>,
    pub payloads: Seq<Seq<u8>>,
    pub flushed: nat,
}

impl<E> UartProgress<E> {
    /// A session that has not touched the UART yet.
    pub open spec fn start(payloads: Seq<Seq<u8>>) -> Self {
        UartProgress { stage: UartStage::Configure, payloads, flushed: 0 }
    }

    pub open spec fn wf(self) -> bool {
        &&& self.flushed <= self.payloads.len()
        &&& self.stage is Configure ==> self.flushed == 0
        &&& self.stage matches UartStage::Write { len } ==> {
            &&& self.flushed < self.payloads.len()
            &&& len == framing::delimited_frame(self.payloads[self.flushed as int]).len()
        }
        &&& self.stage is Flush ==> self.flushed < self.payloads.len()
    }

    pub open spec fn spec_command(self) -> Option<UartCommand> {
        match self.stage {
            UartStage::Configure => Some(UartCommand::Configure),
            UartStage::Write { len } => Some(UartCommand::Write { len }),
            UartStage::Flush => Some(UartCommand::Flush),
            UartStage::Closed { .. } => None,
        }
    }

    /// The report that counts the flushed records.
    pub open spec fn report(self) -> EmitReport {
        EmitReport {
            completed_records: record_count(self.flushed as int),
            requested_records: record_count(self.payloads.len() as int),
        }
    }

    /// The session ended by a failure; the flushed records stay complete.
    pub open spec fn failed(self, source: Source<E>) -> Self {
        UartProgress {
            stage: UartStage::Closed {
                result: Err(
                    EmitError {
                        completed_records: self.report().completed_records,
                        requested_records: self.report().requested_records,
                        source,
                    },
                ),
            },
            ..self
        }
    }

    /// The session turned to its next record: one that fits the protocol is
    /// written, a longer one ends the session, and without one it succeeds.
    pub open spec fn next_record(self) -> Self {
        if self.flushed == self.payloads.len() {
            UartProgress { stage: UartStage::Closed { result: Ok(self.report()) }, ..self }
        } else if self.payloads[self.flushed as int].len() > framing::MAX_PROTOCOL_FRAME_LEN {
            self.failed(Source::Framing(framing::Error::InputTooLarge))
        } else {
            UartProgress {
                stage: UartStage::Write {
                    len: framing::delimited_frame(
                        self.payloads[self.flushed as int],
                    ).len() as usize,
                },
                ..self
            }
        }
    }

    /// The session after an operation ended.
    pub open spec fn after(self, outcome: Result<(), E>) -> Self {
        match (self.stage, outcome) {
            (UartStage::Closed { .. }, _) => self,
            (UartStage::Configure, Err(source)) => self.failed(Source::UartConfiguration(source)),
            (_, Err(source)) => self.failed(Source::UartWrite(source)),
            (UartStage::Configure, Ok(_)) => self.next_record(),
            (UartStage::Write { .. }, Ok(_)) => UartProgress { stage: UartStage::Flush, ..self },
            (UartStage::Flush, Ok(_)) => UartProgress {
                flushed: self.flushed + 1,
                ..self
            }.next_record(),
        }
    }

    /// The session after a sequence of outcomes.
    pub open spec fn after_all(self, outcomes: Seq<Result<(), E>>) -> Self
        decreases outcomes.len(),
    {
        if outcomes.len() == 0 {
            self
        } else {
            self.after_all(outcomes.drop_last()).after(outcomes.last())
        }
    }

    /// The bytes that successful writes have put on the wire.
    pub open spec fn written(self, outcomes: Seq<Result<(), E>>) -> Seq<u8>
        decreases outcomes.len(),
    {
        if outcomes.len() == 0 {
            Seq::empty()
        } else {
            let before = self.after_all(outcomes.drop_last());
            self.written(outcomes.drop_last()) + if before.stage is Write && outcomes.last() is Ok {
                framing::delimited_frame(before.payloads[before.flushed as int])
            } else {
                Seq::empty()
            }
        }
    }

    /// How many flushes have succeeded.
    pub open spec fn flushes(self, outcomes: Seq<Result<(), E>>) -> nat
        decreases outcomes.len(),
    {
        if outcomes.len() == 0 {
            0
        } else {
            let before = self.after_all(outcomes.drop_last());
            self.flushes(outcomes.drop_last()) + if before.stage is Flush && outcomes.last() is Ok {
                1nat
            } else {
                0
            }
        }
    }

    /// Upper bound on the operations that the session still needs.
    pub open spec fn budget(self) -> int {
        match self.stage {
            UartStage::Configure => 2 * (self.payloads.len() as int) + 1,
            UartStage::Write { .. } => 2 * (self.payloads.len() - self.flushed),
            UartStage::Flush => 2 * (self.payloads.len() - self.flushed) - 1,
            UartStage::Closed { .. } => 0,
        }
    }
}

impl<'a, E> View for UartSession<'a, E> {
    type V = UartProgress<E>;

    open spec fn view(&self) -> UartProgress<E> {
        UartProgress {
            stage: self.stage,
            payloads: Seq::new(self.payloads@.len(), |i: int| self.payloads@[i]@),
            flushed: self.flushed as nat,
        }
    }
}

impl<'a, E> UartSession<'a, E> {
    /// A stage that writes has the frame of its record at hand.
    pub open spec fn wf(&self) -> bool {
        &&& self@.wf()
        &&& self.stage matches UartStage::Write { len } ==> len <= 238 && self.encoded@.take(
            len as int,
        ) == framing::delimited_frame(self@.payloads[self.flushed as int])
    }

    #[must_use]
    pub fn new(payloads: &'a [&'a [u8]]) -> (session: Self)
        ensures
            session.wf(),
            session@ == UartProgress::<E>::start(
                Seq::new(payloads@.len(), |i: int| payloads@[i]@),
            ),
    {
        UartSession { stage: UartStage::Configure, payloads, flushed: 0, encoded: [0u8; 238] }
    }

    /// The operation that comes next, or none when the session is over.
    #[must_use]
    pub fn command(&self) -> (command: Option<UartCommand>)
        ensures
            command == self@.spec_command(),
    {
        match &self.stage {
            UartStage::Configure => Some(UartCommand::Configure),
            UartStage::Write { len } => Some(UartCommand::Write { len: *len }),
            UartStage::Flush => Some(UartCommand::Flush),
            UartStage::Closed { .. } => None,
        }
    }

    fn report(&self) -> (report: EmitReport)
        ensures
            report == self@.report(),
    {
        EmitReport {
            completed_records: if self.flushed > u8::MAX as usize {
                u8::MAX
            } else {
                self.flushed as u8
            },
            requested_records: if self.payloads.len() > u8::MAX as usize {
                u8::MAX
            } else {
                self.payloads.len() as u8
            },
        }
    }

    fn fail(&mut self, source: Source<E>)
        ensures
            final(self)@ == old(self)@.failed(source),
    {
        let report = self.report();
        self.stage = UartStage::Closed {
            result: Err(
                EmitError {
                    completed_records: report.completed_records,
                    requested_records: report.requested_records,
                    source,
                },
            ),
        };
    }

    fn begin_record(&mut self)
        requires
            old(self).flushed <= old(self).payloads@.len(),
        ensures
            final(self)@ == old(self)@.next_record(),
            final(self).wf(),
    {
        if self.flushed == self.payloads.len() {
            let report = self.report();
            self.stage = UartStage::Closed { result: Ok(report) };
            return;
        }
        let payload: &[u8] = self.payloads[self.flushed];
        proof {
            if payload@.len() <= framing::MAX_PROTOCOL_FRAME_LEN {
                framing::maximum_frame_fits_fixed_buffer(payload@);
            }
        }
        match framing::encode_delimited(payload, &mut self.encoded) {
            Ok(len) => {
                assert(self.encoded@.take(len as int) == framing::delimited_frame(payload@));
                self.stage = UartStage::Write { len };
            },
            Err(error) => {
                self.fail(Source::Framing(error));
            },
        }
    }

    /// Take the outcome of the current operation. A record counts as completed
    /// only once it was flushed, and the first failure ends the session.
    pub fn advance(&mut self, outcome: Result<(), E>)
        requires
            old(self).wf(),
        ensures
            final(self)@ == old(self)@.after(outcome),
            final(self).wf(),
    {
        match outcome {
            Ok(_) => match &self.stage {
                UartStage::Configure => {
                    self.begin_record();
                },
                UartStage::Write { .. } => {
                    self.stage = UartStage::Flush;
                },
                UartStage::Flush => {
                    assert(self.flushed < self.payloads.len());
                    self.flushed += 1;
                    self.begin_record();
                },
                UartStage::Closed { .. } => {},
            },
            Err(source) => match &self.stage {
                UartStage::Configure => {
                    self.fail(Source::UartConfiguration(source));
                },
                UartStage::Closed { .. } => {},
                _ => {
                    self.fail(Source::UartWrite(source));
                },
            },
        }
    }
}

/// A UART session leads to its end in a bounded number of operations.
pub proof fn uart_session_is_bounded<E>(session: UartProgress<E>, outcome: Result<(), E>)
    requires
        session.wf(),
        session.spec_command() is Some,
    ensures
        0 <= session.after(outcome).budget() < session.budget(),
{
}

/// The frames of the first `count` records, one after another.
pub open spec fn frames_of(payloads: Seq<Seq<u8>>, count: nat) -> Seq<u8>
    decreases count,
{
    if count == 0 {
        Seq::empty()
    } else {
        frames_of(payloads, (count - 1) as nat) + framing::delimited_frame(
            payloads[count - 1],
        )
    }
}

/// A UART batch succeeds only if every record was flushed, and then the wire
/// carries the frames of all records in their order. A failed batch reports
/// exactly the leading records that were flushed; beyond their frames the wire
/// carries at most that of the record whose flush failed.
pub proof fn uart_report_counts_flushed_records<E>(
    payloads: Seq<Seq<u8>>,
    outcomes: Seq<Result<(), E>>,
)
    ensures
        ({
            let start = UartProgress::<E>::start(payloads);
            let session = start.after_all(outcomes);
            let wire = start.written(outcomes);
            &&& session.wf()
            &&& session.payloads == payloads
            &&& session.flushed == start.flushes(outcomes)
            &&& session.stage matches UartStage::Closed { result } ==> match result {
                Ok(report) => {
                    &&& report == session.report()
                    &&& session.flushed == payloads.len()
                    &&& wire == frames_of(payloads, payloads.len())
                },
                Err(error) => {
                    &&& error.completed_records == record_count(session.flushed as int)
                    &&& error.requested_records == record_count(payloads.len() as int)
                    &&& wire == frames_of(payloads, session.flushed) || (error.source is UartWrite
                        && session.flushed < payloads.len() && wire == frames_of(
                        payloads,
                        session.flushed + 1,
                    ))
                },
            }
            &&& session.stage is Configure || session.stage is Write ==> wire == frames_of(
                payloads,
                session.flushed,
            )
            &&& session.stage is Flush ==> wire == frames_of(payloads, session.flushed + 1)
        }),
    decreases outcomes.len(),
{
    if outcomes.len() != 0 {
        uart_report_counts_flushed_records::<E>(payloads, outcomes.drop_last());
        let start = UartProgress::<E>::start(payloads);
        let before = start.after_all(outcomes.drop_last());
        assert(start.written(outcomes.drop_last()) + Seq::<u8>::empty() == start.written(
            outcomes.drop_last(),
        ));
        lemma_next_record_is_wf(before);
        if before.stage is Flush {
            lemma_next_record_is_wf(UartProgress { flushed: before.flushed + 1, ..before });
        }
    }
}

proof fn lemma_next_record_is_wf<E>(session: UartProgress<E>)
    requires
        session.flushed <= session.payloads.len(),
    ensures
        session.next_record().wf(),
{
    if session.flushed < session.payloads.len() {
        let record = session.payloads[session.flushed as int];
        if record.len() <= framing::MAX_PROTOCOL_FRAME_LEN {
            framing::maximum_frame_fits_fixed_buffer(record);
        }
    }
}

/// One configuration, four fragments and one health record always fit a batch,
/// and a delivered prefix of a batch that covers the configuration slot and all
/// fragments is a delivered profile, whatever becomes of the health record.
pub proof fn scan_records_fit_one_batch(
    config: Option<&[u8]>,
    fragments: Seq<&[u8]>,
    health: Option<&[u8]>,
    completed: u8,
)
    requires
        0 < fragments.len() <= 4,
    ensures
        batch_order(config, fragments, health).len() <= MAX_RECORDS_PER_SCAN,
        crate::profile_status::fragments_delivered(
            config is Some,
            fragments.len() as u8,
            completed,
        ) <==> completed >= (optional_record(config) + Seq::new(
            fragments.len(),
            |i: int| fragments[i]@,
        )).len(),
{
}

} // verus!
