//! The receive sequence as a state machine.
//!
//! Receiving a packet alternates bus work with decisions that depend on what
//! the chip reports: whether the RX FIFO overflowed, how long the packet is,
//! and whether its CRC was good. [`Receiver`] makes those decisions. The
//! caller issues each [`Command`] the receiver asks for, reports back how it
//! went as an [`RxEvent`], and repeats until the receiver finishes with the
//! packet or an error. A bus error ends the receive at once; the caller
//! returns it as [`Error::Spi`].

use vstd::prelude::*;

use crate::config::{PacketLength, RadioConfig};
use crate::driver::{rssi_dbm_value, rssi_raw_to_dbm, Command, ReceivedPacket};
use crate::error::Error;
use crate::regs;

verus! {

/// Where a receive stands: what the last command issued was.
#[derive(Clone, Copy, Debug, PartialEq, Eq, Structural)]
pub enum RxStage {
    /// The SRX strobe has been issued.
    StrobingRx,
    /// Waiting for GDO0 to go high (sync word received).
    AwaitingSync,
    /// Waiting for GDO0 to go low (end of packet).
    AwaitingEnd,
    /// Reading the RXBYTES status register.
    ReadingRxBytes,
    /// The RX FIFO overflowed; the SFRX flush strobe has been issued.
    FlushingFifo,
    /// After the flush, the SIDLE strobe has been issued.
    ReturningToIdle,
    /// Reading the length byte of a variable-length packet.
    ReadingLength,
    /// Reading `read_len` payload bytes into the caller's buffer.
    ReadingPayload { read_len: usize },
    /// Reading the appended RSSI byte.
    ReadingRssi { read_len: usize },
    /// Reading the appended LQI/CRC status byte.
    ReadingStatus { read_len: usize, rssi_raw: u8 },
    /// Something unexpected happened; reading MARCSTATE to report the
    /// chip's state.
    ReadingMarcState,
    /// The receive has finished.
    Finished,
}

/// How the last command went.
#[derive(Clone, Copy, Debug, PartialEq, Eq, Structural)]
pub enum RxEvent {
    /// A strobe, wait or burst read completed.
    Completed,
    /// A single-byte read returned this byte.
    Byte(u8),
    /// Waiting on the GDO0 pin failed.
    WaitFailed,
}

/// What the receiver asks for next.
#[derive(Debug)]
pub enum RxAction<E> {
    /// Issue this command, then report how it went.
    Issue(Command),
    /// The receive is over, with this result.
    Finish(Result<ReceivedPacket, Error<E>>),
}

/// The receive state machine.
#[derive(Clone, Copy, Debug)]
pub struct Receiver {
    /// The current stage.
    pub stage: RxStage,
    /// The length of the caller's buffer.
    pub buf_len: usize,
    /// The packet length in fixed-length mode; `None` in variable-length mode.
    pub fixed_len: Option<u8>,
    /// Whether RSSI and LQI/CRC status bytes follow the payload.
    pub append_status: bool,
    /// Whether a packet whose CRC failed is rejected.
    pub crc_enable: bool,
}

/// The RXBYTES overflow flag is set.
pub open spec fn rx_overflowed(rxbytes: u8) -> bool {
    rxbytes & regs::RXFIFO_OVERFLOW != 0
}

/// The number of bytes in the RX FIFO, from RXBYTES.
pub open spec fn rx_available(rxbytes: u8) -> u8 {
    rxbytes & 0x7F
}

/// The CRC_OK flag of the appended status byte.
pub open spec fn status_crc_ok(status: u8) -> bool {
    status & 0x80 != 0
}

/// The LQI field of the appended status byte.
pub open spec fn status_lqi(status: u8) -> u8 {
    status & 0x7F
}

/// The number of payload bytes read: the packet length, capped at the
/// buffer's length.
pub open spec fn capped_len(payload_len: u8, buf_len: usize) -> usize {
    if (payload_len as usize) < buf_len {
        payload_len as usize
    } else {
        buf_len
    }
}

impl Receiver {
    /// A receiver for a buffer of `buf_len` bytes under `config`, which has
    /// just issued the SRX strobe. Before any configuration, variable-length
    /// packets with status bytes and CRC are assumed.
    pub open spec fn initial(config: Option<RadioConfig>, buf_len: usize) -> Receiver {
        Receiver {
            stage: RxStage::StrobingRx,
            buf_len,
            fixed_len: match config {
                Some(c) => match c.packet_length {
                    PacketLength::Fixed(n) => Some(n),
                    PacketLength::Variable(_) => None,
                },
                None => None,
            },
            append_status: match config {
                Some(c) => c.append_status,
                None => true,
            },
            crc_enable: match config {
                Some(c) => c.crc_enable,
                None => true,
            },
        }
    }

    /// This receiver moved to `stage`.
    pub open spec fn at(self, stage: RxStage) -> Receiver {
        Receiver { stage, ..self }
    }

    /// The result of a packet whose status bytes are `rssi_raw` and `status`:
    /// a CRC error where CRC is enabled and the CRC_OK flag is clear, else
    /// the packet with its RSSI in dBm, LQI and CRC flag.
    pub open spec fn packet_result<E>(self, read_len: usize, rssi_raw: u8, status: u8) -> Result<
        ReceivedPacket,
        Error<E>,
    > {
        if self.crc_enable && !status_crc_ok(status) {
            Err(Error::CrcError)
        } else {
            Ok(
                ReceivedPacket {
                    len: read_len,
                    rssi_dbm: rssi_dbm_value(rssi_raw) as i16,
                    lqi: status_lqi(status),
                    crc_ok: status_crc_ok(status),
                },
            )
        }
    }

    /// The step from reading `read_len` payload bytes to what follows them.
    pub open spec fn after_payload<E>(self, read_len: usize) -> (Receiver, RxAction<E>) {
        if self.append_status {
            (
                self.at(RxStage::ReadingRssi { read_len }),
                RxAction::Issue(Command::ReadReg(regs::RXFIFO)),
            )
        } else {
            (
                self.at(RxStage::Finished),
                RxAction::Finish(
                    Ok(ReceivedPacket { len: read_len, rssi_dbm: 0, lqi: 0, crc_ok: true }),
                ),
            )
        }
    }

    /// The step that reads `payload_len` bytes of payload, capped at the
    /// buffer's length.
    pub open spec fn read_payload<E>(self, payload_len: u8) -> (Receiver, RxAction<E>) {
        let read_len = capped_len(payload_len, self.buf_len);
        (
            self.at(RxStage::ReadingPayload { read_len }),
            RxAction::Issue(Command::ReadBurst(regs::RXFIFO, read_len)),
        )
    }

    /// The step that reads MARCSTATE, to report the chip's state.
    pub open spec fn read_state<E>(self) -> (Receiver, RxAction<E>) {
        (
            self.at(RxStage::ReadingMarcState),
            RxAction::Issue(Command::ReadStatus(regs::STATUS_MARCSTATE)),
        )
    }

    /// The next receiver and action, given how the last command went. A
    /// failed GDO0 wait, an RX FIFO that holds no data, an event the stage
    /// does not expect, or any event after the receive has finished, leads
    /// to a read of MARCSTATE; the byte it returns ends the receive with
    /// `UnexpectedState` carrying that state.
    pub open spec fn transition<E>(self, ev: RxEvent) -> (Receiver, RxAction<E>) {
        match (self.stage, ev) {
            (RxStage::StrobingRx, RxEvent::Completed) => (
                self.at(RxStage::AwaitingSync),
                RxAction::Issue(Command::WaitHigh),
            ),
            (RxStage::AwaitingSync, RxEvent::Completed) => (
                self.at(RxStage::AwaitingEnd),
                RxAction::Issue(Command::WaitLow),
            ),
            (RxStage::AwaitingEnd, RxEvent::Completed) => (
                self.at(RxStage::ReadingRxBytes),
                RxAction::Issue(Command::ReadStatus(regs::STATUS_RXBYTES)),
            ),
            (RxStage::ReadingRxBytes, RxEvent::Byte(rxbytes)) => {
                if rx_overflowed(rxbytes) {
                    (self.at(RxStage::FlushingFifo), RxAction::Issue(Command::Strobe(regs::SFRX)))
                } else if rx_available(rxbytes) == 0 {
                    self.read_state()
                } else {
                    match self.fixed_len {
                        Some(n) => self.read_payload(n),
                        None => (
                            self.at(RxStage::ReadingLength),
                            RxAction::Issue(Command::ReadReg(regs::RXFIFO)),
                        ),
                    }
                }
            },
            (RxStage::FlushingFifo, RxEvent::Completed) => (
                self.at(RxStage::ReturningToIdle),
                RxAction::Issue(Command::Strobe(regs::SIDLE)),
            ),
            (RxStage::ReturningToIdle, RxEvent::Completed) => (
                self.at(RxStage::Finished),
                RxAction::Finish(Err(Error::RxFifoOverflow)),
            ),
            (RxStage::ReadingLength, RxEvent::Byte(len)) => self.read_payload(len),
            (RxStage::ReadingPayload { read_len }, RxEvent::Completed) => self.after_payload(
                read_len,
            ),
            (RxStage::ReadingRssi { read_len }, RxEvent::Byte(rssi_raw)) => (
                self.at(RxStage::ReadingStatus { read_len, rssi_raw }),
                RxAction::Issue(Command::ReadReg(regs::RXFIFO)),
            ),
            (RxStage::ReadingStatus { read_len, rssi_raw }, RxEvent::Byte(status)) => (
                self.at(RxStage::Finished),
                RxAction::Finish(self.packet_result(read_len, rssi_raw, status)),
            ),
            (RxStage::ReadingMarcState, RxEvent::Byte(state)) => (
                self.at(RxStage::Finished),
                RxAction::Finish(Err(Error::UnexpectedState { state })),
            ),
            _ => self.read_state(),
        }
    }

    /// Starts a receive into a buffer of `buf_len` bytes under `config`:
    /// returns the receiver and its first command, the SRX strobe that puts
    /// the chip into RX mode.
    pub fn begin(config: Option<RadioConfig>, buf_len: usize) -> (r: (Receiver, Command))
        ensures
            r.0 == Receiver::initial(config, buf_len),
            r.1 == Command::Strobe(regs::SRX),
    {
        let fixed_len = match config {
            Some(c) => match c.packet_length {
                PacketLength::Fixed(n) => Some(n),
                PacketLength::Variable(_) => None,
            },
            None => None,
        };
        let append_status = match config {
            Some(c) => c.append_status,
            None => true,
        };
        let crc_enable = match config {
            Some(c) => c.crc_enable,
            None => true,
        };
        let rx = Receiver {
            stage: RxStage::StrobingRx,
            buf_len,
            fixed_len,
            append_status,
            crc_enable,
        };
        (rx, Command::Strobe(regs::SRX))
    }

    fn read_payload_step<E>(&mut self, payload_len: u8) -> (a: RxAction<E>)
        ensures
            (*final(self), a) == old(self).read_payload::<E>(payload_len),
    {
        let read_len: usize = if (payload_len as usize) < self.buf_len {
            payload_len as usize
        } else {
            self.buf_len
        };
        self.stage = RxStage::ReadingPayload { read_len };
        RxAction::Issue(Command::ReadBurst(regs::RXFIFO, read_len))
    }

    fn read_state_step<E>(&mut self) -> (a: RxAction<E>)
        ensures
            (*final(self), a) == old(self).read_state::<E>(),
    {
        self.stage = RxStage::ReadingMarcState;
        RxAction::Issue(Command::ReadStatus(regs::STATUS_MARCSTATE))
    }

    /// Advances the receive by one event and returns what to do next.
    pub fn step<E>(&mut self, ev: RxEvent) -> (a: RxAction<E>)
        ensures
            (*final(self), a) == old(self).transition::<E>(ev),
    {
        match (self.stage, ev) {
            (RxStage::StrobingRx, RxEvent::Completed) => {
                self.stage = RxStage::AwaitingSync;
                // Wait for a complete packet: GDO0 high (sync received) ...
                RxAction::Issue(Command::WaitHigh)
            },
            (RxStage::AwaitingSync, RxEvent::Completed) => {
                self.stage = RxStage::AwaitingEnd;
                // ... then low (end of packet)
                RxAction::Issue(Command::WaitLow)
            },
            (RxStage::AwaitingEnd, RxEvent::Completed) => {
                self.stage = RxStage::ReadingRxBytes;
                // Check for FIFO overflow
                RxAction::Issue(Command::ReadStatus(regs::STATUS_RXBYTES))
            },
            (RxStage::ReadingRxBytes, RxEvent::Byte(rxbytes)) => {
                if rxbytes & regs::RXFIFO_OVERFLOW != 0 {
                    self.stage = RxStage::FlushingFifo;
                    RxAction::Issue(Command::Strobe(regs::SFRX))
                } else if rxbytes & 0x7F == 0 {
                    // No data: report the chip's state
                    self.read_state_step()
                } else {
                    match self.fixed_len {
                        // Fixed length: the length comes from the configuration
                        Some(n) => self.read_payload_step(n),
                        // Variable length: read the length byte first
                        None => {
                            self.stage = RxStage::ReadingLength;
                            RxAction::Issue(Command::ReadReg(regs::RXFIFO))
                        },
                    }
                }
            },
            (RxStage::FlushingFifo, RxEvent::Completed) => {
                self.stage = RxStage::ReturningToIdle;
                RxAction::Issue(Command::Strobe(regs::SIDLE))
            },
            (RxStage::ReturningToIdle, RxEvent::Completed) => {
                self.stage = RxStage::Finished;
                RxAction::Finish(Err(Error::RxFifoOverflow))
            },
            (RxStage::ReadingLength, RxEvent::Byte(len)) => self.read_payload_step(len),
            (RxStage::ReadingPayload { read_len }, RxEvent::Completed) => {
                // Read appended status bytes if configured (RSSI + LQI/CRC)
                if self.append_status {
                    self.stage = RxStage::ReadingRssi { read_len };
                    RxAction::Issue(Command::ReadReg(regs::RXFIFO))
                } else {
                    self.stage = RxStage::Finished;
                    RxAction::Finish(
                        Ok(ReceivedPacket { len: read_len, rssi_dbm: 0, lqi: 0, crc_ok: true }),
                    )
                }
            },
            (RxStage::ReadingRssi { read_len }, RxEvent::Byte(rssi_raw)) => {
                self.stage = RxStage::ReadingStatus { read_len, rssi_raw };
                RxAction::Issue(Command::ReadReg(regs::RXFIFO))
            },
            (RxStage::ReadingStatus { read_len, rssi_raw }, RxEvent::Byte(status)) => {
                self.stage = RxStage::Finished;
                let crc_ok = (status & 0x80) != 0;
                let lqi = status & 0x7F;
                if self.crc_enable && !crc_ok {
                    RxAction::Finish(Err(Error::CrcError))
                } else {
                    let rssi_dbm = rssi_raw_to_dbm(rssi_raw);
                    RxAction::Finish(Ok(ReceivedPacket { len: read_len, rssi_dbm, lqi, crc_ok }))
                }
            },
            (RxStage::ReadingMarcState, RxEvent::Byte(state)) => {
                self.stage = RxStage::Finished;
                RxAction::Finish(Err(Error::UnexpectedState { state }))
            },
            _ => self.read_state_step(),
        }
    }
}

// ---- Whole receives -----------------------------------------------------------

/// The actions a receiver asks for as it is fed `events` one by one.
pub open spec fn run<E>(rx: Receiver, events: Seq<RxEvent>) -> Seq<RxAction<E>>
    decreases events.len(),
{
    if events.len() == 0 {
        seq![]
    } else {
        let (next, a) = rx.transition::<E>(events[0]);
        seq![a] + run::<E>(next, events.drop_first())
    }
}

/// The payload length of a packet: the fixed length, or the length byte.
pub open spec fn payload_len(rx: Receiver, length_byte: u8) -> u8 {
    match rx.fixed_len {
        Some(n) => n,
        None => length_byte,
    }
}

/// The events of a receive on a chip whose RXBYTES register reads
/// `rxbytes` and whose RX FIFO then yields `length_byte` (variable-length
/// mode only), the payload, `rssi_raw` and `status` (with status bytes
/// appended only), and whose MARCSTATE register reads `marcstate`, every
/// command completing.
pub open spec fn receive_events(
    rx: Receiver,
    rxbytes: u8,
    length_byte: u8,
    rssi_raw: u8,
    status: u8,
    marcstate: u8,
) -> Seq<RxEvent> {
    let head = seq![
        RxEvent::Completed,
        RxEvent::Completed,
        RxEvent::Completed,
        RxEvent::Byte(rxbytes),
    ];
    if rx_overflowed(rxbytes) {
        head + seq![RxEvent::Completed, RxEvent::Completed]
    } else if rx_available(rxbytes) == 0 {
        head + seq![RxEvent::Byte(marcstate)]
    } else {
        head + (if rx.fixed_len is None {
            seq![RxEvent::Byte(length_byte)]
        } else {
            seq![]
        }) + seq![RxEvent::Completed] + (if rx.append_status {
            seq![RxEvent::Byte(rssi_raw), RxEvent::Byte(status)]
        } else {
            seq![]
        })
    }
}

/// The commands such a receive issues after the SRX strobe: wait for GDO0
/// high then low, read RXBYTES; on overflow flush the RX FIFO and return to
/// IDLE; when the FIFO is empty read MARCSTATE; otherwise read the length byte (variable-length mode), burst-read
/// the payload (capped at the buffer's length), and read the two status
/// bytes where they are appended.
pub open spec fn receive_commands(
    rx: Receiver,
    rxbytes: u8,
    length_byte: u8,
) -> Seq<Command> {
    let head = seq![
        Command::WaitHigh,
        Command::WaitLow,
        Command::ReadStatus(regs::STATUS_RXBYTES),
    ];
    if rx_overflowed(rxbytes) {
        head + seq![Command::Strobe(regs::SFRX), Command::Strobe(regs::SIDLE)]
    } else if rx_available(rxbytes) == 0 {
        head + seq![Command::ReadStatus(regs::STATUS_MARCSTATE)]
    } else {
        head + (if rx.fixed_len is None {
            seq![Command::ReadReg(regs::RXFIFO)]
        } else {
            seq![]
        }) + seq![
            Command::ReadBurst(
                regs::RXFIFO,
                capped_len(payload_len(rx, length_byte), rx.buf_len),
            ),
        ] + (if rx.append_status {
            seq![Command::ReadReg(regs::RXFIFO), Command::ReadReg(regs::RXFIFO)]
        } else {
            seq![]
        })
    }
}

/// The result of such a receive: `RxFifoOverflow` on overflow,
/// `UnexpectedState` with the MARCSTATE byte when the FIFO is empty,
/// `CrcError` when CRC is enabled,
/// status bytes are appended and their CRC_OK flag is clear; otherwise the
/// packet, whose length is the payload length capped at the buffer's length.
pub open spec fn receive_outcome<E>(
    rx: Receiver,
    rxbytes: u8,
    length_byte: u8,
    rssi_raw: u8,
    status: u8,
    marcstate: u8,
) -> Result<ReceivedPacket, Error<E>> {
    let read_len = capped_len(payload_len(rx, length_byte), rx.buf_len);
    if rx_overflowed(rxbytes) {
        Err(Error::RxFifoOverflow)
    } else if rx_available(rxbytes) == 0 {
        Err(Error::UnexpectedState { state: marcstate })
    } else if rx.append_status {
        rx.packet_result(read_len, rssi_raw, status)
    } else {
        Ok(ReceivedPacket { len: read_len, rssi_dbm: 0, lqi: 0, crc_ok: true })
    }
}

/// The action that issues `cmd`.
pub open spec fn issue<E>(cmd: Command) -> RxAction<E> {
    RxAction::Issue(cmd)
}

/// Feeding one event and then the rest: the action of the first event,
/// then the run of the rest from the receiver it leaves.
pub proof fn lemma_run_cons<E>(rx: Receiver, ev: RxEvent, rest: Seq<RxEvent>)
    ensures
        run::<E>(rx, seq![ev] + rest) == seq![rx.transition::<E>(ev).1] + run::<E>(
            rx.transition::<E>(ev).0,
            rest,
        ),
{
    assert((seq![ev] + rest).drop_first() =~= rest);
    assert((seq![ev] + rest)[0] == ev);
}

/// A whole receive: started under any configuration with any buffer, and fed
/// the chip's responses, the receiver issues exactly the receive commands and
/// then finishes with the receive outcome.
#[verifier::rlimit(50)]
pub proof fn lemma_receive_run<E>(
    config: Option<RadioConfig>,
    buf_len: usize,
    rxbytes: u8,
    length_byte: u8,
    rssi_raw: u8,
    status: u8,
    marcstate: u8,
)
    ensures
        ({
            let rx = Receiver::initial(config, buf_len);
            run::<E>(rx, receive_events(rx, rxbytes, length_byte, rssi_raw, status, marcstate))
                == receive_commands(rx, rxbytes, length_byte).map_values(|c: Command| issue::<E>(c))
                + seq![RxAction::Finish(receive_outcome::<E>(rx, rxbytes, length_byte, rssi_raw, status, marcstate))]
        }),
{
    let rx = Receiver::initial(config, buf_len);
    let cmds = receive_commands(rx, rxbytes, length_byte);
    let fin = RxAction::<E>::Finish(receive_outcome::<E>(rx, rxbytes, length_byte, rssi_raw, status, marcstate));
    let expected = cmds.map_values(|c: Command| issue::<E>(c)) + seq![fin];
    let c = RxEvent::Completed;
    let r1 = rx.at(RxStage::AwaitingSync);
    let r2 = rx.at(RxStage::AwaitingEnd);
    let r3 = rx.at(RxStage::ReadingRxBytes);
    let head_actions = seq![
        issue::<E>(Command::WaitHigh),
        issue::<E>(Command::WaitLow),
        issue::<E>(Command::ReadStatus(regs::STATUS_RXBYTES)),
    ];
    // the part of the run after RXBYTES has been read
    let tail: Seq<RxEvent>;
    let tail_actions: Seq<RxAction<E>>;
    if rx_overflowed(rxbytes) {
        tail = seq![c, c];
        let r4 = rx.at(RxStage::FlushingFifo);
        let r5 = rx.at(RxStage::ReturningToIdle);
        lemma_run_cons::<E>(r5, c, seq![]);
        lemma_run_cons::<E>(r4, c, seq![c]);
        assert(seq![c] + seq![c] =~= tail);
        lemma_run_cons::<E>(r3, RxEvent::Byte(rxbytes), tail);
        tail_actions = seq![issue::<E>(Command::Strobe(regs::SFRX)), issue::<E>(Command::Strobe(regs::SIDLE)), fin];
        assert(run::<E>(r3, seq![RxEvent::Byte(rxbytes)] + tail) =~= tail_actions);
    } else if rx_available(rxbytes) == 0 {
        tail = seq![RxEvent::Byte(marcstate)];
        let rm = rx.at(RxStage::ReadingMarcState);
        lemma_run_cons::<E>(rm, RxEvent::Byte(marcstate), seq![]);
        assert(seq![RxEvent::Byte(marcstate)] + seq![] =~= tail);
        lemma_run_cons::<E>(r3, RxEvent::Byte(rxbytes), tail);
        tail_actions = seq![issue::<E>(Command::ReadStatus(regs::STATUS_MARCSTATE)), fin];
        assert(run::<E>(r3, seq![RxEvent::Byte(rxbytes)] + tail) =~= tail_actions);
    } else {
        let read_len = capped_len(payload_len(rx, length_byte), rx.buf_len);
        let rp = rx.at(RxStage::ReadingPayload { read_len });
        // events after the payload has been read
        let status_events: Seq<RxEvent> = if rx.append_status {
            seq![RxEvent::Byte(rssi_raw), RxEvent::Byte(status)]
        } else {
            seq![]
        };
        let status_actions: Seq<RxAction<E>> = if rx.append_status {
            seq![issue::<E>(Command::ReadReg(regs::RXFIFO)), issue::<E>(Command::ReadReg(regs::RXFIFO)), fin]
        } else {
            seq![fin]
        };
        if rx.append_status {
            let rr = rx.at(RxStage::ReadingRssi { read_len });
            let rs = rx.at(RxStage::ReadingStatus { read_len, rssi_raw });
            lemma_run_cons::<E>(rs, RxEvent::Byte(status), seq![]);
            lemma_run_cons::<E>(rr, RxEvent::Byte(rssi_raw), seq![RxEvent::Byte(status)]);
            assert(seq![RxEvent::Byte(rssi_raw)] + seq![RxEvent::Byte(status)] =~= status_events);
            lemma_run_cons::<E>(rp, c, status_events);
        } else {
            lemma_run_cons::<E>(rp, c, status_events);
        }
        let after_payload = seq![c] + status_events;
        assert(run::<E>(rp, after_payload) =~= status_actions);
        let burst = issue::<E>(Command::ReadBurst(regs::RXFIFO, read_len));
        if rx.fixed_len is None {
            let rl = rx.at(RxStage::ReadingLength);
            lemma_run_cons::<E>(rl, RxEvent::Byte(length_byte), after_payload);
            tail = seq![RxEvent::Byte(length_byte)] + after_payload;
            lemma_run_cons::<E>(r3, RxEvent::Byte(rxbytes), tail);
            tail_actions = seq![issue::<E>(Command::ReadReg(regs::RXFIFO)), burst] + status_actions;
        } else {
            tail = after_payload;
            lemma_run_cons::<E>(r3, RxEvent::Byte(rxbytes), tail);
            tail_actions = seq![burst] + status_actions;
        }
        assert(run::<E>(r3, seq![RxEvent::Byte(rxbytes)] + tail) =~= tail_actions);
    }
    let rest = seq![RxEvent::Byte(rxbytes)] + tail;
    lemma_run_cons::<E>(r2, c, rest);
    lemma_run_cons::<E>(r1, c, seq![c] + rest);
    lemma_run_cons::<E>(rx, c, seq![c] + (seq![c] + rest));
    let evs = receive_events(rx, rxbytes, length_byte, rssi_raw, status, marcstate);
    assert(evs =~= seq![c] + (seq![c] + (seq![c] + rest)));
    assert(run::<E>(rx, evs) =~= head_actions + tail_actions);
    assert(head_actions + tail_actions =~= expected);
}

/// A receive whose GDO0 wait fails, while waiting for the sync word
/// (`at_end` false) or for the end of the packet (`at_end` true): the
/// receiver reads MARCSTATE and finishes with `UnexpectedState` carrying the
/// byte read, with no FIFO access.
pub proof fn lemma_receive_wait_failed<E>(
    config: Option<RadioConfig>,
    buf_len: usize,
    at_end: bool,
    marcstate: u8,
)
    ensures
        ({
            let rx = Receiver::initial(config, buf_len);
            let c = RxEvent::Completed;
            let waits = if at_end {
                seq![issue::<E>(Command::WaitHigh), issue::<E>(Command::WaitLow)]
            } else {
                seq![issue::<E>(Command::WaitHigh)]
            };
            run::<E>(
                rx,
                (if at_end { seq![c, c] } else { seq![c] }) + seq![
                    RxEvent::WaitFailed,
                    RxEvent::Byte(marcstate),
                ],
            ) == waits + seq![
                issue::<E>(Command::ReadStatus(regs::STATUS_MARCSTATE)),
                RxAction::<E>::Finish(Err(Error::UnexpectedState { state: marcstate })),
            ]
        }),
{
    let rx = Receiver::initial(config, buf_len);
    let c = RxEvent::Completed;
    let m = RxEvent::Byte(marcstate);
    let f = RxEvent::WaitFailed;
    let rm = rx.at(RxStage::ReadingMarcState);
    let waiting = if at_end {
        rx.at(RxStage::AwaitingEnd)
    } else {
        rx.at(RxStage::AwaitingSync)
    };
    lemma_run_cons::<E>(rm, m, seq![]);
    lemma_run_cons::<E>(waiting, f, seq![m]);
    assert(seq![m] + seq![] =~= seq![m]);
    let tail = seq![f] + seq![m];
    if at_end {
        let r1 = rx.at(RxStage::AwaitingSync);
        lemma_run_cons::<E>(r1, c, tail);
        lemma_run_cons::<E>(rx, c, seq![c] + tail);
        assert(seq![c] + (seq![c] + tail) =~= seq![c, c] + seq![f, m]);
    } else {
        lemma_run_cons::<E>(rx, c, tail);
        assert(seq![c] + tail =~= seq![c] + seq![f, m]);
    }
    assert(tail =~= seq![f, m]);
    let waits = if at_end {
        seq![issue::<E>(Command::WaitHigh), issue::<E>(Command::WaitLow)]
    } else {
        seq![issue::<E>(Command::WaitHigh)]
    };
    let expected = waits + seq![
        issue::<E>(Command::ReadStatus(regs::STATUS_MARCSTATE)),
        RxAction::<E>::Finish(Err(Error::UnexpectedState { state: marcstate })),
    ];
    let evs = (if at_end { seq![c, c] } else { seq![c] }) + seq![f, m];
    assert(run::<E>(rx, evs) =~= expected);
}

/// Decoding the appended status byte `status`: its bit 7 alone is the CRC
/// flag and its low seven bits the LQI. With CRC enabled, a byte below 128
/// (CRC flag clear) ends the receive in `CrcError` whatever its LQI bits;
/// otherwise the packet reports `crc_ok` exactly when the byte is 128 or
/// more, and an LQI of the byte modulo 128 (so at most 127).
pub proof fn lemma_status_byte_decoding<E>(rx: Receiver, read_len: usize, rssi_raw: u8, status: u8)
    requires
        rx.stage == (RxStage::ReadingStatus { read_len, rssi_raw }),
    ensures
        rx.crc_enable && status < 128 ==> rx.transition::<E>(RxEvent::Byte(status)).1 == RxAction::<
            E,
        >::Finish(Err(Error::CrcError)),
        !(rx.crc_enable && status < 128) ==> rx.transition::<E>(RxEvent::Byte(status)).1
            == RxAction::<E>::Finish(
            Ok(
                ReceivedPacket {
                    len: read_len,
                    rssi_dbm: rssi_dbm_value(rssi_raw) as i16,
                    lqi: (status % 128) as u8,
                    crc_ok: status >= 128,
                },
            ),
        ),
        rx.transition::<E>(RxEvent::Byte(status)).0.stage == RxStage::Finished,
{
    assert((status & 0x80 != 0) == (status >= 128)) by (bit_vector);
    assert(status & 0x7F == status % 128) by (bit_vector);
}

/// Starting a receive: without a configuration, variable-length packets
/// with appended status bytes and CRC checking are assumed; with one, its
/// packet format is followed. The buffer length is kept.
pub proof fn lemma_receiver_defaults(cfg: RadioConfig, buf_len: usize)
    ensures
        Receiver::initial(None, buf_len).fixed_len is None,
        Receiver::initial(None, buf_len).append_status,
        Receiver::initial(None, buf_len).crc_enable,
        Receiver::initial(None, buf_len).buf_len == buf_len,
        Receiver::initial(Some(cfg), buf_len).append_status == cfg.append_status,
        Receiver::initial(Some(cfg), buf_len).crc_enable == cfg.crc_enable,
        Receiver::initial(Some(cfg), buf_len).buf_len == buf_len,
        (Receiver::initial(Some(cfg), buf_len).fixed_len is Some) <==> (cfg.packet_length is Fixed),
{
}

/// RXBYTES decoding: bit 7 is the overflow flag and the low seven bits the
/// byte count. Reading it, the receiver flushes the RX FIFO (SFRX, 0x3A)
/// exactly when the byte is 128 or more, reads MARCSTATE (0x35) when the
/// count is zero, and otherwise goes on to read the packet.
pub proof fn lemma_rxbytes_decoding<E>(rx: Receiver, rxbytes: u8)
    requires
        rx.stage == RxStage::ReadingRxBytes,
    ensures
        rxbytes >= 128 ==> rx.transition::<E>(RxEvent::Byte(rxbytes)).1 == RxAction::<E>::Issue(
            Command::Strobe(0x3A),
        ),
        rxbytes < 128 && rxbytes % 128 == 0 ==> rx.transition::<E>(RxEvent::Byte(rxbytes)).1
            == RxAction::<E>::Issue(Command::ReadStatus(0x35)),
        rxbytes < 128 && rxbytes % 128 != 0 && rx.fixed_len is None ==> rx.transition::<E>(
            RxEvent::Byte(rxbytes),
        ).1 == RxAction::<E>::Issue(Command::ReadReg(0x3F)),
        rxbytes < 128 && rxbytes % 128 != 0 && rx.fixed_len is Some ==> rx.transition::<E>(
            RxEvent::Byte(rxbytes),
        ).1 is Issue,
{
    assert((rxbytes & 0x80 != 0) == (rxbytes >= 128)) by (bit_vector);
    assert(rxbytes & 0x7F == rxbytes % 128) by (bit_vector);
}

/// The payload read: after a variable-length packet's length byte `len`,
/// the receiver burst-reads the RX FIFO (0x3F) for `len` bytes, or as many as
/// the buffer holds where that is fewer.
pub proof fn lemma_payload_read<E>(rx: Receiver, len: u8)
    requires
        rx.stage == RxStage::ReadingLength,
    ensures
        rx.transition::<E>(RxEvent::Byte(len)).1 matches RxAction::Issue(Command::ReadBurst(a, n))
            && a == 0x3F && n <= len && n <= rx.buf_len && (n == len || n == rx.buf_len),
{
}

/// Without appended status bytes, the packet is accepted once its payload is
/// read, with CRC taken as good, RSSI 0 dBm and LQI 0.
pub proof fn lemma_no_status_packet<E>(rx: Receiver, read_len: usize)
    requires
        rx.stage == (RxStage::ReadingPayload { read_len }),
        !rx.append_status,
    ensures
        rx.transition::<E>(RxEvent::Completed).1 == RxAction::<E>::Finish(
            Ok(ReceivedPacket { len: read_len, rssi_dbm: 0, lqi: 0, crc_ok: true }),
        ),
{
}

} // verus!
