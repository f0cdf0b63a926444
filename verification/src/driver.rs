//! The CC1101 driver core: the SPI command model, the chip-identity check,
//! the configure and transmit sequences, and RSSI conversion.
//!
//! The driver does not touch the bus itself. Each operation is planned here
//! as a sequence of [`Command`]s; the caller executes them in order on its SPI
//! device and GDO0 pin, stopping at the first bus error.

use vstd::prelude::*;

use crate::config::{
    deviatn_value, freq_word, mdmcfg2_value, mdmcfg3_value, mdmcfg4_value, PacketLength,
    RadioConfig,
};
use crate::error::Error;
use crate::regs;

verus! {

// ---- Public types -----------------------------------------------------------

/// A received packet, produced by the receive sequence.
#[derive(Debug)]
pub struct ReceivedPacket {
    /// Number of payload bytes written into the caller's buffer.
    pub len: usize,
    /// Received signal strength in dBm.
    /// Only valid when `append_status` is enabled in the radio configuration.
    pub rssi_dbm: i16,
    /// Link quality indicator (0–127; higher is better).
    /// Only valid when `append_status` is enabled in the radio configuration.
    pub lqi: u8,
    /// Whether the hardware CRC was OK.
    /// Always `true` when `crc_enable` is set: packets failing CRC are dropped.
    pub crc_ok: bool,
}

/// One bus operation of the CC1101 protocol.
///
/// Every SPI command is one `SpiDevice` transaction (chip select asserted for
/// its whole length); the wait commands wait on the GDO0 pin.
#[derive(Clone, Copy, Debug, PartialEq, Eq, Structural)]
pub enum Command {
    /// Strobe command: writes the single byte `cmd`.
    Strobe(u8),
    /// Single-register write of `value` at `addr`.
    WriteReg(u8, u8),
    /// Single-register read at `addr`: writes the header, then reads one byte.
    ReadReg(u8),
    /// Status-register read at `addr`: writes the header, then reads one byte.
    ReadStatus(u8),
    /// Writes entry 0 of the PA table.
    WritePatable(u8),
    /// Burst write at `addr`: writes the header, then the caller's payload.
    WriteBurst(u8),
    /// Burst read at `addr`: writes the header, then reads `len` bytes into
    /// the start of the caller's buffer.
    ReadBurst(u8, usize),
    /// Waits until GDO0 is high.
    WaitHigh,
    /// Waits until GDO0 is low.
    WaitLow,
}

impl Command {
    /// The bytes a command writes before any payload or read: the header byte
    /// is the address with the read flag (bit 7) and burst flag (bit 6) set as
    /// the access requires, followed by the value for single writes.
    pub open spec fn header(self) -> Seq<u8> {
        match self {
            Command::Strobe(cmd) => seq![cmd],
            Command::WriteReg(addr, value) => seq![addr & 0x3F, value],
            Command::ReadReg(addr) => seq![addr | regs::READ],
            Command::ReadStatus(addr) => seq![addr | regs::READ | regs::BURST],
            Command::WritePatable(value) => seq![regs::PATABLE | regs::BURST, value],
            Command::WriteBurst(addr) => seq![addr | regs::BURST],
            Command::ReadBurst(addr, _) => seq![addr | regs::READ | regs::BURST],
            Command::WaitHigh => seq![],
            Command::WaitLow => seq![],
        }
    }

    /// How many bytes a command reads back after its header.
    pub open spec fn read_len(self) -> nat {
        match self {
            Command::ReadReg(_) => 1,
            Command::ReadStatus(_) => 1,
            Command::ReadBurst(_, len) => len as nat,
            _ => 0,
        }
    }

    /// The header bytes of this command, to be written on the bus.
    pub fn header_bytes(&self) -> (bytes: Vec<u8>)
        ensures
            bytes@ == self.header(),
    {
        let mut v: Vec<u8> = Vec::new();
        match *self {
            // Header byte: write (bit 7 = 0), single (bit 6 = 0), address [5:0]
            Command::Strobe(cmd) => {
                v.push(cmd);
            },
            Command::WriteReg(addr, value) => {
                v.push(addr & 0x3F);
                v.push(value);
            },
            Command::ReadReg(addr) => {
                v.push(addr | regs::READ);
            },
            Command::ReadStatus(addr) => {
                v.push(addr | regs::READ | regs::BURST);
            },
            Command::WritePatable(value) => {
                v.push(regs::PATABLE | regs::BURST);
                v.push(value);
            },
            Command::WriteBurst(addr) => {
                v.push(addr | regs::BURST);
            },
            Command::ReadBurst(addr, _) => {
                v.push(addr | regs::READ | regs::BURST);
            },
            Command::WaitHigh => {},
            Command::WaitLow => {},
        }
        assert(v@ =~= self.header());
        v
    }
}

// ---- Register model of the driver --------------------------------------------

/// RSSI offset of the CC1101, in dB.
pub const RSSI_OFFSET: i16 = 74;

/// The RSSI in dBm that a raw RSSI register byte stands for: the byte is a
/// two's-complement value in half-dB steps, halved with truncation toward
/// zero, less the 74 dB offset.
pub open spec fn rssi_dbm_value(raw: u8) -> int {
    if raw >= 128 {
        -(((256 - raw) / 2) as int) - 74
    } else {
        (raw / 2) as int - 74
    }
}

/// PKTLEN for a configuration: the fixed length, or the maximum variable
/// length.
pub open spec fn pktlen_value(cfg: RadioConfig) -> u8 {
    match cfg.packet_length {
        PacketLength::Fixed(n) => n,
        PacketLength::Variable(n) => n,
    }
}

/// PKTCTRL0 for a configuration: CRC enable in bit 2, LENGTH_CONFIG in bits
/// 1:0 (0 fixed, 1 variable); whitening off and normal packet format.
pub open spec fn pktctrl0_value(cfg: RadioConfig) -> int {
    (if cfg.crc_enable { 4int } else { 0int }) + (if cfg.packet_length is Variable {
        1int
    } else {
        0int
    })
}

/// PKTCTRL1 for a configuration: APPEND_STATUS in bit 2, no address check.
pub open spec fn pktctrl1_value(cfg: RadioConfig) -> u8 {
    if cfg.append_status {
        0x04
    } else {
        0x00
    }
}

/// The commands that reset the chip and read its identity: the SRES strobe,
/// then the PARTNUM and VERSION status registers.
pub open spec fn identify_sequence() -> Seq<Command> {
    seq![
        Command::Strobe(regs::SRES),
        Command::ReadStatus(regs::STATUS_PARTNUM),
        Command::ReadStatus(regs::STATUS_VERSION),
    ]
}

/// A CC1101 reports PARTNUM 0x00 and VERSION 0x04 or 0x14.
pub open spec fn is_cc1101(part: u8, version: u8) -> bool {
    part == 0x00 && (version == 0x04 || version == 0x14)
}

/// The register writes that apply a configuration, in bus order: IDLE strobe,
/// frequency, data rate and channel filter, modulation and sync mode, sync
/// word, deviation, packet format, channel, PA table entry 0, GDO0 on sync
/// word, GDO2 on RX FIFO threshold, the datasheet's recommended AGC, test and
/// calibration values, auto-calibration from IDLE, and IDLE after RX and TX.
pub open spec fn configure_sequence(cfg: RadioConfig) -> Seq<Command> {
    let fw = freq_word(cfg.frequency_hz);
    seq![
        Command::Strobe(regs::SIDLE),
        Command::WriteReg(regs::FREQ2, (fw / 0x1_0000) as u8),
        Command::WriteReg(regs::FREQ1, ((fw / 0x100) % 0x100) as u8),
        Command::WriteReg(regs::FREQ0, (fw % 0x100) as u8),
        Command::WriteReg(regs::MDMCFG4, mdmcfg4_value(cfg) as u8),
        Command::WriteReg(regs::MDMCFG3, mdmcfg3_value(cfg) as u8),
        Command::WriteReg(regs::MDMCFG2, mdmcfg2_value(cfg.modulation, cfg.sync_mode) as u8),
        Command::WriteReg(regs::SYNC1, (cfg.sync_word / 0x100) as u8),
        Command::WriteReg(regs::SYNC0, (cfg.sync_word % 0x100) as u8),
        Command::WriteReg(regs::DEVIATN, deviatn_value(cfg.deviation_hz) as u8),
        Command::WriteReg(regs::PKTLEN, pktlen_value(cfg)),
        Command::WriteReg(regs::PKTCTRL0, pktctrl0_value(cfg) as u8),
        Command::WriteReg(regs::PKTCTRL1, pktctrl1_value(cfg)),
        Command::WriteReg(regs::CHANNR, cfg.channel),
        Command::WriteReg(regs::FREND0, 0x10),
        Command::WritePatable(cfg.tx_power.pa_setting()),
        Command::WriteReg(regs::IOCFG0, regs::GDO_SYNC_WORD),
        Command::WriteReg(regs::IOCFG2, regs::GDO_RX_FIFO_THRESHOLD),
        Command::WriteReg(regs::AGCCTRL2, 0x43),
        Command::WriteReg(regs::TEST2, 0x81),
        Command::WriteReg(regs::TEST1, 0x35),
        Command::WriteReg(regs::TEST0, 0x09),
        Command::WriteReg(regs::FSCAL3, 0xE9),
        Command::WriteReg(regs::FSCAL2, 0x2A),
        Command::WriteReg(regs::FSCAL1, 0x00),
        Command::WriteReg(regs::FSCAL0, 0x1F),
        Command::WriteReg(regs::MCSM0, 0x18),
        Command::WriteReg(regs::MCSM1, 0x00),
    ]
}

/// The most payload bytes a variable-length packet can carry: 61 when the
/// RSSI and LQI status bytes are appended, 63 when they are not.
pub open spec fn variable_limit(append_status: bool) -> nat {
    if append_status {
        PacketLength::MAX_VARIABLE as nat
    } else {
        PacketLength::MAX_VARIABLE_WITHOUT_STATUS as nat
    }
}

/// The largest payload a transmit accepts: the configured fixed length; in
/// variable-length mode the configured maximum, capped at the variable-length
/// limit; 61 bytes before any configuration.
pub open spec fn max_payload(config: Option<RadioConfig>) -> nat {
    match config {
        Some(c) => match c.packet_length {
            PacketLength::Variable(n) => if (n as nat) < variable_limit(c.append_status) {
                n as nat
            } else {
                variable_limit(c.append_status)
            },
            PacketLength::Fixed(n) => n as nat,
        },
        None => PacketLength::MAX_VARIABLE as nat,
    }
}

/// Whether packets carry a length byte: in variable-length mode, which is
/// also assumed before any configuration.
pub open spec fn uses_length_byte(config: Option<RadioConfig>) -> bool {
    match config {
        Some(c) => c.packet_length is Variable,
        None => true,
    }
}

/// The commands that send a payload of `len` bytes: IDLE and TX FIFO flush
/// strobes, the length byte in variable-length mode, the payload as a burst
/// into the TX FIFO, the TX strobe, then GDO0 high (sync word sent) and low
/// (packet complete).
pub open spec fn transmit_sequence(config: Option<RadioConfig>, len: nat) -> Seq<Command> {
    seq![Command::Strobe(regs::SIDLE), Command::Strobe(regs::SFTX)] + (if uses_length_byte(
        config,
    ) {
        seq![Command::WriteReg(regs::TXFIFO, len as u8)]
    } else {
        seq![]
    }) + seq![
        Command::WriteBurst(regs::TXFIFO),
        Command::Strobe(regs::STX),
        Command::WaitHigh,
        Command::WaitLow,
    ]
}

// ---- Driver struct ----------------------------------------------------------

/// CC1101 driver state.
///
/// `spi` is the SPI device (which manages chip select itself); `gdo0` and
/// `gdo2` are the GDO input pins. GDO2 is configured as the RX FIFO threshold
/// output but not yet awaited: the receive sequence polls RXBYTES instead.
pub struct Cc1101<SPI, GDO0, GDO2> {
    /// The SPI device.
    pub spi: SPI,
    /// The GDO0 pin: sync word sent/received, de-asserts at end of packet.
    pub gdo0: GDO0,
    /// The GDO2 pin, reserved for the RX FIFO threshold.
    pub gdo2: GDO2,
    /// The configuration last applied, if any.
    pub config: Option<RadioConfig>,
}

impl<SPI, GDO0, GDO2> Cc1101<SPI, GDO0, GDO2> {
    /// Wraps the bus handles in a driver with no configuration applied yet.
    pub fn from_parts(spi: SPI, gdo0: GDO0, gdo2: GDO2) -> (dev: Self)
        ensures
            dev.spi == spi,
            dev.gdo0 == gdo0,
            dev.gdo2 == gdo2,
            dev.config == None::<RadioConfig>,
    {
        Cc1101 { spi, gdo0, gdo2, config: None }
    }

    /// The configuration last applied, if any.
    pub fn config(&self) -> (c: Option<RadioConfig>)
        ensures
            c == self.config,
    {
        self.config
    }

    /// Records that `config` has been written to the chip.
    pub fn set_config(&mut self, config: &RadioConfig)
        ensures
            final(self).config == Some(*config),
            final(self).spi == old(self).spi,
            final(self).gdo0 == old(self).gdo0,
            final(self).gdo2 == old(self).gdo2,
    {
        self.config = Some(*config);
    }

    /// Ends a configure, given how performing its commands went: where every
    /// command succeeded, `config` becomes the applied configuration; where
    /// one failed (performing stops at the first failure), the configuration
    /// applied before stays recorded. The outcome is returned as it is.
    pub fn finish_configure<E>(&mut self, config: &RadioConfig, outcome: Result<(), Error<E>>) -> (r:
        Result<(), Error<E>>)
        ensures
            r == outcome,
            outcome is Ok ==> final(self).config == Some(*config),
            outcome is Err ==> final(self).config == old(self).config,
            final(self).spi == old(self).spi,
            final(self).gdo0 == old(self).gdo0,
            final(self).gdo2 == old(self).gdo2,
    {
        if outcome.is_ok() {
            self.config = Some(*config);
        }
        outcome
    }

    /// The commands that reset the chip and read its identity registers.
    pub fn identify_commands() -> (cmds: Vec<Command>)
        ensures
            cmds@ == identify_sequence(),
    {
        let mut v: Vec<Command> = Vec::new();
        v.push(Command::Strobe(regs::SRES));
        v.push(Command::ReadStatus(regs::STATUS_PARTNUM));
        v.push(Command::ReadStatus(regs::STATUS_VERSION));
        assert(v@ =~= identify_sequence());
        v
    }

    /// The command that puts the chip into RX mode.
    pub fn start_rx_command() -> (cmd: Command)
        ensures
            cmd == Command::Strobe(regs::SRX),
    {
        Command::Strobe(regs::SRX)
    }

    /// The command that puts the chip into IDLE mode.
    pub fn idle_command() -> (cmd: Command)
        ensures
            cmd == Command::Strobe(regs::SIDLE),
    {
        Command::Strobe(regs::SIDLE)
    }

    /// The command that reads the received signal strength (valid in RX
    /// mode); [`Cc1101::rssi_dbm`] converts the byte it returns.
    pub fn read_rssi_command() -> (cmd: Command)
        ensures
            cmd == Command::ReadStatus(regs::STATUS_RSSI),
    {
        Command::ReadStatus(regs::STATUS_RSSI)
    }

    /// The command to issue when a GDO0 wait fails: it reads MARCSTATE, the
    /// state of the chip's main radio control state machine.
    pub fn wait_failure_command() -> (cmd: Command)
        ensures
            cmd == Command::ReadStatus(regs::STATUS_MARCSTATE),
    {
        Command::ReadStatus(regs::STATUS_MARCSTATE)
    }

    /// The error a failed GDO0 wait ends in, given the MARCSTATE byte read
    /// after it.
    pub fn wait_failure_error<E>(marcstate: u8) -> (e: Error<E>)
        ensures
            e == (Error::<E>::UnexpectedState { state: marcstate }),
    {
        Error::UnexpectedState { state: marcstate }
    }

    /// Checks the identity registers read after reset.
    ///
    /// # Errors
    /// Returns [`Error::InvalidChip`] if the part number or version register
    /// doesn't match a CC1101, indicating a wiring problem.
    pub fn check_chip_id<E>(part: u8, version: u8) -> (r: Result<(), Error<E>>)
        ensures
            (r is Ok) <==> is_cc1101(part, version),
            (r is Ok) <==> (part == 0x00 && (version == 0x04 || version == 0x14)),
            r matches Err(e) ==> e == (Error::<E>::InvalidChip { part, version }),
    {
        // CC1101 always returns 0x00 for PARTNUM; VERSION is typically 0x04 or 0x14
        if part != 0x00 || (version != 0x04 && version != 0x14) {
            return Err(Error::InvalidChip { part, version });
        }
        Ok(())
    }

    /// The commands that apply `config` to the chip.
    ///
    /// Can be run any number of times to reconfigure the chip.
    pub fn configure_commands(config: &RadioConfig) -> (cmds: Vec<Command>)
        ensures
            cmds@ == configure_sequence(*config),
    {
        let mut v: Vec<Command> = Vec::new();
        // Strobe IDLE first: most registers can only be written in IDLE state
        v.push(Command::Strobe(regs::SIDLE));

        // Frequency
        let (freq2, freq1, freq0) = config.freq_registers();
        v.push(Command::WriteReg(regs::FREQ2, freq2));
        v.push(Command::WriteReg(regs::FREQ1, freq1));
        v.push(Command::WriteReg(regs::FREQ0, freq0));

        // Baud rate
        let (mdmcfg4, mdmcfg3) = config.baud_rate_registers();
        v.push(Command::WriteReg(regs::MDMCFG4, mdmcfg4));
        v.push(Command::WriteReg(regs::MDMCFG3, mdmcfg3));

        // Modulation and sync mode
        v.push(Command::WriteReg(regs::MDMCFG2, config.mdmcfg2()));

        // Sync word
        let word = config.sync_word;
        proof {
            assert(word >> 8 == word / 0x100) by (bit_vector);
            assert(word & 0xFF == word % 0x100) by (bit_vector);
        }
        v.push(Command::WriteReg(regs::SYNC1, (word >> 8) as u8));
        v.push(Command::WriteReg(regs::SYNC0, (word & 0xFF) as u8));

        // Deviation (FSK/GFSK only: OOK ignores this)
        v.push(Command::WriteReg(regs::DEVIATN, config.deviation_register()));

        // Packet format
        let (pktlen, pktctrl0) = Self::packet_registers(config);
        v.push(Command::WriteReg(regs::PKTLEN, pktlen));
        v.push(Command::WriteReg(regs::PKTCTRL0, pktctrl0));

        // PKTCTRL1: append status bytes, no address check
        let pktctrl1: u8 = if config.append_status {
            0x04
        } else {
            0x00
        };
        v.push(Command::WriteReg(regs::PKTCTRL1, pktctrl1));

        // Channel
        v.push(Command::WriteReg(regs::CHANNR, config.channel));

        // TX power: load PA table index 0 only (simple non-ASK use)
        v.push(Command::WriteReg(regs::FREND0, 0x10));
        v.push(Command::WritePatable(config.tx_power.patable_byte()));

        // GDO0: assert when sync word received, de-assert at end of packet.
        // This gives a clean falling edge to wait on after TX/RX completes.
        v.push(Command::WriteReg(regs::IOCFG0, regs::GDO_SYNC_WORD));

        // GDO2: assert when RX FIFO at or above threshold
        v.push(Command::WriteReg(regs::IOCFG2, regs::GDO_RX_FIFO_THRESHOLD));

        // Recommended register values from the datasheet; they improve
        // sensitivity and should always be applied.
        v.push(Command::WriteReg(regs::AGCCTRL2, 0x43));
        v.push(Command::WriteReg(regs::TEST2, 0x81));
        v.push(Command::WriteReg(regs::TEST1, 0x35));
        v.push(Command::WriteReg(regs::TEST0, 0x09));
        v.push(Command::WriteReg(regs::FSCAL3, 0xE9));
        v.push(Command::WriteReg(regs::FSCAL2, 0x2A));
        v.push(Command::WriteReg(regs::FSCAL1, 0x00));
        v.push(Command::WriteReg(regs::FSCAL0, 0x1F));

        // Auto-calibrate when going from IDLE to RX/TX
        v.push(Command::WriteReg(regs::MCSM0, 0x18));

        // After RX: stay in IDLE. After TX: go to IDLE.
        // This keeps state simple: the driver always commands the next action.
        v.push(Command::WriteReg(regs::MCSM1, 0x00));

        assert(v@ =~= configure_sequence(*config));
        v
    }

    /// The commands that transmit a payload of `len` bytes, or
    /// [`Error::PayloadTooLong`] where it exceeds the packet length: in
    /// variable-length mode the configured maximum, but never more than 61
    /// bytes (63 without appended status bytes); in fixed-length mode the
    /// configured length; 61 bytes before any configuration. No command is
    /// issued for a payload that is too long.
    pub fn transmit_commands<E>(&self, len: usize) -> (r: Result<Vec<Command>, Error<E>>)
        ensures
            (r is Err) <==> len > max_payload(self.config),
            r matches Err(e) ==> (e is PayloadTooLong),
            r matches Ok(cmds) ==> cmds@ == transmit_sequence(self.config, len as nat),
    {
        let max_len: usize = match self.config {
            Some(c) => match c.packet_length {
                PacketLength::Variable(n) => {
                    let limit = if c.append_status {
                        PacketLength::MAX_VARIABLE
                    } else {
                        PacketLength::MAX_VARIABLE_WITHOUT_STATUS
                    };
                    if n < limit {
                        n as usize
                    } else {
                        limit as usize
                    }
                },
                PacketLength::Fixed(n) => n as usize,
            },
            None => PacketLength::MAX_VARIABLE as usize,
        };

        if len > max_len {
            return Err(Error::PayloadTooLong);
        }

        let mut v: Vec<Command> = Vec::new();
        // Ensure the chip is in IDLE before touching the FIFO
        v.push(Command::Strobe(regs::SIDLE));
        v.push(Command::Strobe(regs::SFTX));

        // Write length byte (variable mode) then payload
        let variable = match self.config {
            Some(c) => match c.packet_length {
                PacketLength::Variable(_) => true,
                PacketLength::Fixed(_) => false,
            },
            None => true,
        };
        if variable {
            v.push(Command::WriteReg(regs::TXFIFO, len as u8));
        }
        v.push(Command::WriteBurst(regs::TXFIFO));

        // Strobe TX: the chip calibrates, then transmits
        v.push(Command::Strobe(regs::STX));

        // GDO0 is configured as SYNC_WORD: it goes high when the sync word
        // has been sent and low when the packet is complete.
        v.push(Command::WaitHigh);
        v.push(Command::WaitLow);

        assert(v@ =~= transmit_sequence(self.config, len as nat));
        Ok(v)
    }

    // ---- RSSI conversion ----------------------------------------------------

    /// Convert raw RSSI byte to dBm.
    pub fn rssi_dbm(raw: u8) -> (dbm: i16)
        ensures
            dbm == rssi_dbm_value(raw),
    {
        rssi_raw_to_dbm(raw)
    }

    // ---- Packet register helpers --------------------------------------------

    /// PKTLEN and PKTCTRL0 for a configuration.
    pub fn packet_registers(config: &RadioConfig) -> (r: (u8, u8))
        ensures
            r.0 == pktlen_value(*config),
            r.1 == pktctrl0_value(*config),
    {
        // PKTLEN: the length byte
        // PKTCTRL0 bits: [6:5] = packet format, [2] = CRC enable, [1:0] = length config
        let (pktlen, len_config) = match config.packet_length {
            PacketLength::Fixed(n) => (n, 0b00u8),  // fixed length
            PacketLength::Variable(n) => (n, 0b01u8),  // variable length
        };

        let crc_bit: u8 = if config.crc_enable {
            0b0100
        } else {
            0b0000
        };
        proof {
            assert(crc_bit | len_config == crc_bit + len_config) by (bit_vector)
                requires
                    crc_bit == 0 || crc_bit == 4,
                    len_config <= 1,
            ;
        }
        // Normal packet format (no serial or random TX): bits [6:5] = 00
        // Data whitening off: bit 6 = 0
        let pktctrl0 = crc_bit | len_config;

        (pktlen, pktctrl0)
    }
}

// ---- Free functions ---------------------------------------------------------

/// Convert raw CC1101 RSSI register byte to dBm.
///
/// Formula from the datasheet:
///   if RSSI_dec >= 128: RSSI_dBm = (RSSI_dec - 256) / 2 - RSSI_offset
///   else:               RSSI_dBm = RSSI_dec / 2 - RSSI_offset
/// RSSI_offset = 74 dB (typical for CC1101)
pub fn rssi_raw_to_dbm(raw: u8) -> (dbm: i16)
    ensures
        dbm == rssi_dbm_value(raw),
        -138 <= dbm <= -11,
{
    if raw >= 128 {
        // (raw - 256) / 2 rounds toward zero, i.e. -((256 - raw) / 2)
        let half: i16 = ((256u16 - raw as u16) / 2) as i16;
        -half - RSSI_OFFSET
    } else {
        (raw as i16 / 2) - RSSI_OFFSET
    }
}

// ---- Laws -------------------------------------------------------------------

/// For a register address (six bits), the header byte of every access
/// carries the address in bits 5:0 and the access kind in bits 7:6: single
/// writes 00, single reads 10, burst writes 01, status and burst reads 11.
pub proof fn lemma_header_flags(addr: u8, value: u8, len: usize)
    requires
        addr < 0x40,
    ensures
        Command::WriteReg(addr, value).header()[0] & 0xC0 == 0x00,
        Command::ReadReg(addr).header()[0] & 0xC0 == 0x80,
        Command::WriteBurst(addr).header()[0] & 0xC0 == 0x40,
        Command::ReadStatus(addr).header()[0] & 0xC0 == 0xC0,
        Command::ReadBurst(addr, len).header()[0] & 0xC0 == 0xC0,
        Command::WriteReg(addr, value).header()[0] & 0x3F == addr,
        Command::ReadReg(addr).header()[0] & 0x3F == addr,
        Command::WriteBurst(addr).header()[0] & 0x3F == addr,
        Command::ReadStatus(addr).header()[0] & 0x3F == addr,
        Command::ReadBurst(addr, len).header()[0] & 0x3F == addr,
{
    assert((addr & 0x3F) & 0xC0 == 0x00 && (addr & 0x3F) & 0x3F == addr) by (bit_vector)
        requires
            addr < 0x40,
    ;
    assert((addr | 0x80) & 0xC0 == 0x80 && (addr | 0x80) & 0x3F == addr) by (bit_vector)
        requires
            addr < 0x40,
    ;
    assert((addr | 0x40) & 0xC0 == 0x40 && (addr | 0x40) & 0x3F == addr) by (bit_vector)
        requires
            addr < 0x40,
    ;
    assert((addr | 0x80 | 0x40) & 0xC0 == 0xC0 && (addr | 0x80 | 0x40) & 0x3F == addr)
        by (bit_vector)
        requires
            addr < 0x40,
    ;
}

/// Configuring issues the IDLE strobe first and then only writes: every
/// write goes to a configuration register (0x00–0x2E) or to the PA table.
pub proof fn lemma_configure_only_writes_config(cfg: RadioConfig)
    ensures
        configure_sequence(cfg).len() == 28,
        configure_sequence(cfg)[0] == Command::Strobe(regs::SIDLE),
        forall|i: int|
            1 <= i < 28 ==> match #[trigger] configure_sequence(cfg)[i] {
                Command::WriteReg(addr, _) => addr <= regs::TEST0,
                Command::WritePatable(_) => true,
                _ => false,
            },
{
}

/// The limits a transmit enforces agree with what configure writes to the
/// chip: the largest payload never exceeds PKTLEN, equals it for fixed-length
/// packets, and for variable-length packets is PKTLEN capped at 61 bytes (63
/// when PKTCTRL1 appends no status bytes); a length byte is sent exactly when
/// PKTCTRL0 selects variable-length packets.
pub proof fn lemma_transmit_matches_packet_registers(cfg: RadioConfig)
    ensures
        max_payload(Some(cfg)) <= pktlen_value(cfg),
        pktctrl0_value(cfg) % 4 == 0 ==> max_payload(Some(cfg)) == pktlen_value(cfg),
        pktctrl0_value(cfg) % 4 == 1 ==> max_payload(Some(cfg)) == if pktlen_value(cfg) as nat
            <= variable_limit(pktctrl1_value(cfg) == 0x04) {
            pktlen_value(cfg) as nat
        } else {
            variable_limit(pktctrl1_value(cfg) == 0x04)
        },
        pktctrl0_value(cfg) % 4 == 1 ==> max_payload(Some(cfg)) <= 63,
        pktctrl1_value(cfg) == 0x04 && pktctrl0_value(cfg) % 4 == 1 ==> max_payload(Some(cfg))
            <= 61,
        uses_length_byte(Some(cfg)) <==> pktctrl0_value(cfg) % 4 == 1,
{
}

/// A receive under a configuration reads packets the way configure set the
/// chip up to send them: it takes the length from PKTLEN exactly when
/// PKTCTRL0 selects fixed-length packets, reads status bytes exactly when
/// PKTCTRL1 appends them, and checks CRC exactly when PKTCTRL0 enables it.
pub proof fn lemma_receiver_matches_packet_registers(cfg: RadioConfig, buf_len: usize)
    ensures
        ({
            let rx = crate::rx::Receiver::initial(Some(cfg), buf_len);
            &&& (rx.fixed_len is Some) <==> pktctrl0_value(cfg) % 4 == 0
            &&& rx.fixed_len matches Some(n) ==> n == pktlen_value(cfg)
            &&& rx.append_status <==> pktctrl1_value(cfg) == 0x04
            &&& rx.crc_enable <==> pktctrl0_value(cfg) / 4 == 1
        }),
{
}

/// Within each half of the raw range (the two's-complement signs), a larger
/// raw RSSI byte never reads as a weaker signal.
pub proof fn lemma_rssi_monotone(a: u8, b: u8)
    requires
        a <= b,
        (a < 128) == (b < 128),
    ensures
        rssi_dbm_value(a) <= rssi_dbm_value(b),
{
}

/// The chip identity check accepts exactly a PARTNUM of 0x00 with a VERSION
/// of 0x04 or 0x14; any other readback, an all-zero or all-one one from a
/// silent bus among them, is rejected.
pub proof fn lemma_chip_id_accepts(part: u8, version: u8)
    ensures
        is_cc1101(part, version) <==> (part == 0x00 && (version == 0x04 || version == 0x14)),
        !is_cc1101(0x00, 0x00),
        !is_cc1101(0xFF, 0xFF),
{
}

/// The PA table write sends the burst PA table header 0x7E and the value; a
/// strobe sends the strobe byte alone; waits send nothing.
pub proof fn lemma_header_patable_strobe(value: u8, cmd: u8)
    ensures
        Command::WritePatable(value).header() == seq![0x7Eu8, value],
        Command::Strobe(cmd).header() == seq![cmd],
        Command::WaitHigh.header().len() == 0,
        Command::WaitLow.header().len() == 0,
{
    assert(0x3Eu8 | 0x40u8 == 0x7Eu8) by (bit_vector);
}

/// The raw RSSI byte is a two's-complement count of half-dB steps: the
/// reported dBm plus the 74 dB offset is that count halved, rounded toward
/// zero.
pub proof fn lemma_rssi_half_steps(raw: u8)
    ensures
        ({
            let x = if raw >= 128 { raw as int - 256 } else { raw as int };
            let h = rssi_dbm_value(raw) + 74;
            &&& x >= 0 ==> 0 <= x - 2 * h <= 1
            &&& x < 0 ==> 0 <= 2 * h - x <= 1
        }),
{
}

/// Whatever the configuration, configure writes the documented registers in
/// order, with the sync word split high byte first, the channel and PA entry
/// as configured, and the fixed recommended values.
pub proof fn lemma_configure_registers(cfg: RadioConfig)
    ensures
        ({
            let s = configure_sequence(cfg);
            &&& s[0] == Command::Strobe(0x36)
            &&& s[1] matches Command::WriteReg(a1, f2) && a1 == 0x0D
            &&& s[2] matches Command::WriteReg(a2, f1) && a2 == 0x0E
            &&& s[3] matches Command::WriteReg(a3, f0) && a3 == 0x0F
            &&& s[1] matches Command::WriteReg(_, f2) && s[2] matches Command::WriteReg(_, f1)
                && s[3] matches Command::WriteReg(_, f0) && f2 * 0x1_0000 + f1 * 0x100 + f0
                == freq_word(cfg.frequency_hz)
            &&& s[7] matches Command::WriteReg(a7, hi) && a7 == 0x04
            &&& s[8] matches Command::WriteReg(a8, lo) && a8 == 0x05
            &&& s[7] matches Command::WriteReg(_, hi) && s[8] matches Command::WriteReg(_, lo) && hi
                * 0x100 + lo == cfg.sync_word
            &&& s[13] == Command::WriteReg(0x0A, cfg.channel)
            &&& s[14] == Command::WriteReg(0x22, 0x10)
            &&& s[15] == Command::WritePatable(cfg.tx_power.pa_setting())
            &&& s[16] == Command::WriteReg(0x02, 0x06)
            &&& s[17] == Command::WriteReg(0x00, 0x00)
            &&& s[18] == Command::WriteReg(0x1B, 0x43)
            &&& s[19] == Command::WriteReg(0x2C, 0x81)
            &&& s[20] == Command::WriteReg(0x2D, 0x35)
            &&& s[21] == Command::WriteReg(0x2E, 0x09)
            &&& s[22] == Command::WriteReg(0x23, 0xE9)
            &&& s[23] == Command::WriteReg(0x24, 0x2A)
            &&& s[24] == Command::WriteReg(0x25, 0x00)
            &&& s[25] == Command::WriteReg(0x26, 0x1F)
            &&& s[26] == Command::WriteReg(0x18, 0x18)
            &&& s[27] == Command::WriteReg(0x17, 0x00)
        }),
{
    crate::config::lemma_freq_registers_recombine(cfg.frequency_hz);
}

/// Reset and identification: the SRES strobe (0x30), then status reads of
/// PARTNUM (0x30) and VERSION (0x31), whose headers are 0xF0 and 0xF1.
pub proof fn lemma_identify_bytes()
    ensures
        identify_sequence() == seq![
            Command::Strobe(0x30),
            Command::ReadStatus(0x30),
            Command::ReadStatus(0x31),
        ],
        Command::ReadStatus(0x30).header() == seq![0xF0u8],
        Command::ReadStatus(0x31).header() == seq![0xF1u8],
{
    assert(0x30u8 | 0x80u8 | 0x40u8 == 0xF0u8) by (bit_vector);
    assert(0x31u8 | 0x80u8 | 0x40u8 == 0xF1u8) by (bit_vector);
}

/// A transmit of `len` bytes: IDLE (0x36) and TX FIFO flush (0x3B) strobes,
/// the length byte into the TX FIFO (0x3F) exactly in variable-length mode
/// (and before any configuration), the payload as a burst into the TX FIFO,
/// the TX strobe (0x35), then GDO0 high and low.
pub proof fn lemma_transmit_bytes(config: Option<RadioConfig>, len: nat)
    ensures
        ({
            let s = transmit_sequence(config, len);
            let variable = match config {
                Some(c) => c.packet_length is Variable,
                None => true,
            };
            let k: int = if variable { 1 } else { 0 };
            &&& s.len() == 6 + k
            &&& s[0] == Command::Strobe(0x36)
            &&& s[1] == Command::Strobe(0x3B)
            &&& variable ==> s[2] == Command::WriteReg(0x3F, len as u8)
            &&& s[2 + k] == Command::WriteBurst(0x3F)
            &&& s[3 + k] == Command::Strobe(0x35)
            &&& s[4 + k] == Command::WaitHigh
            &&& s[5 + k] == Command::WaitLow
        }),
{
}

/// The payload limits: 61 bytes before any configuration; in
/// variable-length mode the configured maximum where it is at most 61 (63
/// without appended status bytes), else that cap; in fixed-length mode the
/// configured length.
pub proof fn lemma_payload_limits(cfg: RadioConfig, n: u8)
    ensures
        max_payload(None) == 61,
        max_payload(Some(RadioConfig { packet_length: PacketLength::Fixed(n), ..cfg })) == n,
        max_payload(
            Some(RadioConfig { packet_length: PacketLength::Variable(n), append_status: true, ..cfg }),
        ) == if n <= 61 {
            n as nat
        } else {
            61
        },
        max_payload(
            Some(
                RadioConfig { packet_length: PacketLength::Variable(n), append_status: false, ..cfg },
            ),
        ) == if n <= 63 {
            n as nat
        } else {
            63
        },
{
}

/// Configure's data-rate, modulation, deviation and packet-format writes go
/// to MDMCFG4 (0x10), MDMCFG3 (0x11), MDMCFG2 (0x12), DEVIATN (0x15), PKTLEN
/// (0x06), PKTCTRL0 (0x08) and PKTCTRL1 (0x07), in that order; PKTLEN is the
/// configured length, PKTCTRL0 holds CRC enable in bit 2 and variable length
/// in bits 1:0, PKTCTRL1 holds APPEND_STATUS in bit 2.
pub proof fn lemma_configure_modem_and_packet(cfg: RadioConfig)
    ensures
        ({
            let s = configure_sequence(cfg);
            &&& s[4] matches Command::WriteReg(a, _) && a == 0x10
            &&& s[5] matches Command::WriteReg(a, _) && a == 0x11
            &&& s[6] == Command::WriteReg(
                0x12,
                mdmcfg2_value(cfg.modulation, cfg.sync_mode) as u8,
            )
            &&& s[9] matches Command::WriteReg(a, _) && a == 0x15
            &&& s[10] == Command::WriteReg(
                0x06,
                match cfg.packet_length {
                    PacketLength::Fixed(n) => n,
                    PacketLength::Variable(n) => n,
                },
            )
            &&& s[11] matches Command::WriteReg(a, v) && a == 0x08 && v < 8 && (v / 4 == 1
                <==> cfg.crc_enable) && (v % 4 == 1 <==> cfg.packet_length is Variable) && (v
                % 4 == 0 <==> cfg.packet_length is Fixed)
            &&& s[12] == Command::WriteReg(0x07, if cfg.append_status { 4u8 } else { 0u8 })
        }),
{
}

} // verus!
