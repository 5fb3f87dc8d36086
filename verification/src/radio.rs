//! Decisions of one cold radio session.
//!
//! The application owns the radio driver. A session says which operation comes
//! next, and the application answers with how the operation ended.

use vstd::prelude::*;

verus! {

pub const RADIO_BUSY_TIMEOUT_MS: u64 = 100;

pub const TX_COMPLETION_TIMEOUT_MS: u64 = 2_000;

/// Largest batch of fixed-width frames in one session.
pub const MAX_FRAMES_PER_SESSION: usize = 3;

/// Batch failure plus the exact number of packets whose TX-completion IRQ was
/// observed before the failure. Callers can account for unsent fragments
/// without assuming an all-or-nothing radio batch.
#[derive(Debug, PartialEq, Eq)]
pub struct TransmissionError<E> {
    pub source: E,
    pub completed_packets: u8,
}

impl<E> TransmissionError<E> {
    #[must_use]
    pub fn source(&self) -> (source: &E)
        ensures
            *source == self.source,
    {
        &self.source
    }

    #[must_use]
    pub fn completed_packets(&self) -> (count: u8)
        ensures
            count == self.completed_packets,
    {
        self.completed_packets
    }
}

/// Radio operation that the application carries out.
#[derive(Clone, Copy, Debug, PartialEq, Eq, Structural)]
pub enum RadioCommand {
    /// Reset and initialize the radio.
    Open,
    CreateModulation,
    CreatePacket,
    /// Load payload `index` for transmission.
    Prepare { index: usize },
    /// Transmit the loaded payload and await its completion.
    Transmit,
    /// Put the radio to sleep.
    Sleep,
}

/// Where a session stands.
#[derive(Debug, PartialEq, Eq)]
pub enum RadioStage<E> {
    Open,
    Modulation,
    Packet,
    Prepare,
    Transmit,
    /// The radio is put to sleep whatever the batch came to.
    Sleep { batch: Result<(), E> },
    Closed { result: Result<u8, TransmissionError<E>> },
}

/// One batch of packets in one cold radio session.
#[derive(Debug, PartialEq, Eq)]
pub struct RadioSession<E> {
    pub stage: RadioStage<E>,
    pub total: usize,
    pub sent: usize,
}

/// A packet count, held at the largest 8-bit value.
pub open spec fn packet_count(sent: usize) -> u8 {
    if sent > u8::MAX {
        u8::MAX
    } else {
        sent as u8
    }
}

impl<E> RadioSession<E> {
    /// A stage that handles packets has one left to handle.
    pub open spec fn wf(self) -> bool {
        &&& self.sent <= self.total
        &&& self.stage is Prepare || self.stage is Transmit ==> self.sent < self.total
        &&& self.stage is Open || self.stage is Modulation || self.stage is Packet ==> self.sent
            == 0 && self.total > 0
        &&& self.stage matches RadioStage::Sleep { batch } ==> (batch is Ok ==> self.sent
            == self.total)
    }

    pub open spec fn spec_command(self) -> Option<RadioCommand> {
        match self.stage {
            RadioStage::Open => Some(RadioCommand::Open),
            RadioStage::Modulation => Some(RadioCommand::CreateModulation),
            RadioStage::Packet => Some(RadioCommand::CreatePacket),
            RadioStage::Prepare => Some(RadioCommand::Prepare { index: self.sent }),
            RadioStage::Transmit => Some(RadioCommand::Transmit),
            RadioStage::Sleep { .. } => Some(RadioCommand::Sleep),
            RadioStage::Closed { .. } => None,
        }
    }

    /// The session after an operation ended. A radio that could not be opened
    /// needs no sleep; every other failure still puts the radio to sleep, and
    /// outweighs a failure of that.
    pub open spec fn after(self, outcome: Result<(), E>) -> Self {
        let stage = match (self.stage, outcome) {
            (RadioStage::Closed { result }, _) => RadioStage::Closed { result },
            (RadioStage::Open, Err(source)) => RadioStage::Closed {
                result: Err(TransmissionError { source, completed_packets: 0 }),
            },
            (RadioStage::Sleep { batch: Err(source) }, _) => RadioStage::Closed {
                result: Err(
                    TransmissionError { source, completed_packets: packet_count(self.sent) },
                ),
            },
            (RadioStage::Sleep { batch: Ok(_) }, Err(source)) => RadioStage::Closed {
                result: Err(
                    TransmissionError { source, completed_packets: packet_count(self.sent) },
                ),
            },
            (RadioStage::Sleep { batch: Ok(_) }, Ok(_)) => RadioStage::Closed {
                result: Ok(packet_count(self.sent)),
            },
            (_, Err(source)) => RadioStage::Sleep { batch: Err(source) },
            (RadioStage::Open, Ok(_)) => RadioStage::Modulation,
            (RadioStage::Modulation, Ok(_)) => RadioStage::Packet,
            (RadioStage::Packet, Ok(_)) => RadioStage::Prepare,
            (RadioStage::Prepare, Ok(_)) => RadioStage::Transmit,
            (RadioStage::Transmit, Ok(_)) => if self.sent + 1 < self.total {
                RadioStage::Prepare
            } else {
                RadioStage::Sleep { batch: Ok(()) }
            },
        };
        RadioSession {
            stage,
            total: self.total,
            sent: if self.stage is Transmit && outcome is Ok {
                (self.sent + 1) as usize
            } else {
                self.sent
            },
        }
    }

    /// A session for `total` payloads. An empty batch never touches the radio.
    #[must_use]
    pub fn transmit_payloads(total: usize) -> (session: Self)
        ensures
            session.wf(),
            session == (RadioSession {
                stage: if total == 0 {
                    RadioStage::<E>::Closed { result: Ok(0) }
                } else {
                    RadioStage::Open
                },
                total,
                sent: 0,
            }),
    {
        if total == 0 {
            RadioSession { stage: RadioStage::Closed { result: Ok(0) }, total, sent: 0 }
        } else {
            RadioSession { stage: RadioStage::Open, total, sent: 0 }
        }
    }

    /// A session for fixed-width frames, of which one batch holds at most three.
    pub fn transmit(total: usize) -> (result: Result<Self, usize>)
        ensures
            match result {
                Ok(session) => {
                    &&& total <= MAX_FRAMES_PER_SESSION
                    &&& session.wf()
                    &&& session == (RadioSession {
                        stage: if total == 0 {
                            RadioStage::<E>::Closed { result: Ok(0) }
                        } else {
                            RadioStage::Open
                        },
                        total,
                        sent: 0,
                    })
                },
                Err(len) => total > MAX_FRAMES_PER_SESSION && len == total,
            },
    {
        if total > MAX_FRAMES_PER_SESSION {
            return Err(total);
        }
        Ok(Self::transmit_payloads(total))
    }

    /// The operation that comes next, or none when the session is over.
    #[must_use]
    pub fn command(&self) -> (command: Option<RadioCommand>)
        ensures
            command == self.spec_command(),
    {
        match &self.stage {
            RadioStage::Open => Some(RadioCommand::Open),
            RadioStage::Modulation => Some(RadioCommand::CreateModulation),
            RadioStage::Packet => Some(RadioCommand::CreatePacket),
            RadioStage::Prepare => Some(RadioCommand::Prepare { index: self.sent }),
            RadioStage::Transmit => Some(RadioCommand::Transmit),
            RadioStage::Sleep { .. } => Some(RadioCommand::Sleep),
            RadioStage::Closed { .. } => None,
        }
    }

    /// Take the outcome of the current operation. A packet counts as completed
    /// only once its transmission did.
    #[must_use]
    pub fn advance(self, outcome: Result<(), E>) -> (next: Self)
        requires
            self.wf(),
        ensures
            next == self.after(outcome),
            next.wf(),
    {
        let total: usize = self.total;
        let sent: usize = self.sent;
        let completed_packets: u8 = if sent > u8::MAX as usize {
            u8::MAX
        } else {
            sent as u8
        };
        match (self.stage, outcome) {
            (RadioStage::Closed { result }, _) => RadioSession {
                stage: RadioStage::Closed { result },
                total,
                sent,
            },
            (RadioStage::Open, Err(source)) => RadioSession {
                stage: RadioStage::Closed {
                    result: Err(TransmissionError { source, completed_packets: 0 }),
                },
                total,
                sent,
            },
            (RadioStage::Sleep { batch: Err(source) }, _) => RadioSession {
                stage: RadioStage::Closed {
                    result: Err(TransmissionError { source, completed_packets }),
                },
                total,
                sent,
            },
            (RadioStage::Sleep { batch: Ok(_) }, Err(source)) => RadioSession {
                stage: RadioStage::Closed {
                    result: Err(TransmissionError { source, completed_packets }),
                },
                total,
                sent,
            },
            (RadioStage::Sleep { batch: Ok(_) }, Ok(_)) => RadioSession {
                stage: RadioStage::Closed { result: Ok(completed_packets) },
                total,
                sent,
            },
            (_, Err(source)) => RadioSession {
                stage: RadioStage::Sleep { batch: Err(source) },
                total,
                sent,
            },
            (RadioStage::Open, Ok(_)) => RadioSession { stage: RadioStage::Modulation, total, sent },
            (RadioStage::Modulation, Ok(_)) => RadioSession {
                stage: RadioStage::Packet,
                total,
                sent,
            },
            (RadioStage::Packet, Ok(_)) => RadioSession { stage: RadioStage::Prepare, total, sent },
            (RadioStage::Prepare, Ok(_)) => RadioSession {
                stage: RadioStage::Transmit,
                total,
                sent,
            },
            (RadioStage::Transmit, Ok(_)) => RadioSession {
                stage: if sent + 1 < total {
                    RadioStage::Prepare
                } else {
                    RadioStage::Sleep { batch: Ok(()) }
                },
                total,
                sent: sent + 1,
            },
        }
    }

    /// The session after a sequence of outcomes.
    pub open spec fn after_all(self, outcomes: Seq<Result<(), E>>) -> Self
        decreases outcomes.len(),
    {
        if outcomes.len() == 0 {
            self
        } else {
            self.after_all(outcomes.drop_last()).after(outcomes.last())
        }
    }

    /// Upper bound on the operations that the session still needs.
    pub open spec fn budget(self) -> int {
        match self.stage {
            RadioStage::Open => 2 * self.total + 4,
            RadioStage::Modulation => 2 * self.total + 3,
            RadioStage::Packet => 2 * self.total + 2,
            RadioStage::Prepare => 2 * (self.total - self.sent) + 1,
            RadioStage::Transmit => 2 * (self.total - self.sent),
            RadioStage::Sleep { .. } => 1,
            RadioStage::Closed { .. } => 0,
        }
    }
}

/// A session leads to its end in a bounded number of operations, and a radio
/// that was opened is never left without a sleep request.
pub proof fn opened_radio_is_put_to_sleep<E>(session: RadioSession<E>, outcome: Result<(), E>)
    requires
        session.wf(),
        session.spec_command() is Some,
    ensures
        session.after(outcome).wf(),
        0 <= session.after(outcome).budget() < session.budget(),
        session.after(outcome).stage is Closed ==> session.stage is Sleep || (session.stage is Open
            && outcome is Err),
{
}

/// A batch succeeds only if every packet was transmitted, and a failed batch
/// reports no more packets than were.
pub proof fn success_means_every_packet<E>(total: usize, outcomes: Seq<Result<(), E>>)
    requires
        0 < total <= u8::MAX,
    ensures
        ({
            let start = RadioSession { stage: RadioStage::<E>::Open, total, sent: 0 };
            let session = start.after_all(outcomes);
            &&& session.wf()
            &&& session.total == total
            &&& session.stage matches RadioStage::Closed { result } ==> match result {
                Ok(count) => count == total && session.sent == total,
                Err(error) => error.completed_packets == session.sent,
            }
        }),
    decreases outcomes.len(),
{
    if outcomes.len() != 0 {
        success_means_every_packet::<E>(total, outcomes.drop_last());
    }
}

/// What to do about a busy radio.
#[derive(Clone, Copy, Debug, PartialEq, Eq, Structural)]
pub enum BusyWait {
    Ready,
    TimedOut,
    Wait,
}

/// Decide one round of waiting for the radio to become ready.
#[must_use]
pub fn wait_on_busy(busy: bool, deadline_reached: bool) -> (decision: BusyWait)
    ensures
        decision == if !busy {
            BusyWait::Ready
        } else if deadline_reached {
            BusyWait::TimedOut
        } else {
            BusyWait::Wait
        },
{
    if !busy {
        BusyWait::Ready
    } else if deadline_reached {
        BusyWait::TimedOut
    } else {
        BusyWait::Wait
    }
}

} // verus!
