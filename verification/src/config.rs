//! High-level radio configuration for the CC1101.
//!
//! Rather than exposing raw register values, [`RadioConfig`] provides a
//! builder that accepts human-readable parameters (frequency in Hz, baud rate
//! in bps, etc.) and computes the register values from them.

use vstd::prelude::*;
use vstd::arithmetic::power2::{pow2, lemma2_to64, lemma_pow2_strictly_increases};
use vstd::arithmetic::mul::lemma_mul_upper_bound;
use vstd::arithmetic::div_mod::lemma_div_is_ordered;

verus! {

/// Crystal oscillator frequency of the CC1101 reference design, in Hz.
pub const F_XOSC: u64 = 26_000_000;

// ---- Modulation format ------------------------------------------------------

/// Modulation scheme for the radio link.
///
/// 2-FSK and GFSK are the most common choices for simple packet links.
/// OOK/ASK is useful for receiving from simple doorbell-type transmitters.
#[derive(Clone, Copy, Debug, PartialEq, Eq, Structural)]
pub enum Modulation {
    /// 2-level frequency-shift keying: simple, robust, good range
    Fsk2,
    /// Gaussian-filtered FSK: same as 2FSK but with a smoother spectrum;
    /// recommended for most new designs
    Gfsk,
    /// On-off keying / amplitude-shift keying: compatible with simple
    /// transmitters (doorbells, weather stations, etc.)
    Ook,
    /// 4-level FSK: higher data rate for the same bandwidth as 2FSK
    Fsk4,
    /// Minimum-shift keying: constant envelope, excellent spectral efficiency
    Msk,
}

impl Modulation {
    /// The MOD_FORMAT field of MDMCFG2 (three bits) that selects this scheme.
    pub open spec fn mod_format(self) -> u8 {
        match self {
            Modulation::Fsk2 => 0b000,
            Modulation::Gfsk => 0b001,
            Modulation::Ook => 0b011,
            Modulation::Fsk4 => 0b100,
            Modulation::Msk => 0b111,
        }
    }

    /// Returns the MDMCFG2 MOD_FORMAT bits.
    pub fn mdmcfg2_bits(self) -> (bits: u8)
        ensures
            bits == self.mod_format(),
            bits < 8,
    {
        match self {
            Modulation::Fsk2 => 0b000,
            Modulation::Gfsk => 0b001,
            Modulation::Ook => 0b011,
            Modulation::Fsk4 => 0b100,
            Modulation::Msk => 0b111,
        }
    }
}

// ---- Sync word mode ---------------------------------------------------------

/// How strictly the sync word must match before a packet is accepted.
#[derive(Clone, Copy, Debug, PartialEq, Eq, Structural)]
pub enum SyncMode {
    /// No preamble or sync word: raw data mode
    NoSync,
    /// 15 of 16 bits of the sync word must match
    Match15of16,
    /// All 16 bits of the sync word must match (default, recommended)
    Match16of16,
    /// 30 of 32 bits (sync word repeated twice) must match
    Match30of32,
    /// No sync word, but carrier sense must exceed threshold
    CarrierSense,
    /// 15/16 bits AND carrier sense
    Match15of16AndCs,
    /// 16/16 bits AND carrier sense
    Match16of16AndCs,
    /// 30/32 bits AND carrier sense
    Match30of32AndCs,
}

impl SyncMode {
    /// The SYNC_MODE field of MDMCFG2 (three bits) that selects this mode.
    pub open spec fn sync_field(self) -> u8 {
        match self {
            SyncMode::NoSync => 0b000,
            SyncMode::Match15of16 => 0b001,
            SyncMode::Match16of16 => 0b010,
            SyncMode::Match30of32 => 0b011,
            SyncMode::CarrierSense => 0b100,
            SyncMode::Match15of16AndCs => 0b101,
            SyncMode::Match16of16AndCs => 0b110,
            SyncMode::Match30of32AndCs => 0b111,
        }
    }

    /// Returns the MDMCFG2 SYNC_MODE bits.
    pub fn mdmcfg2_bits(self) -> (bits: u8)
        ensures
            bits == self.sync_field(),
            bits < 8,
    {
        match self {
            SyncMode::NoSync => 0b000,
            SyncMode::Match15of16 => 0b001,
            SyncMode::Match16of16 => 0b010,
            SyncMode::Match30of32 => 0b011,
            SyncMode::CarrierSense => 0b100,
            SyncMode::Match15of16AndCs => 0b101,
            SyncMode::Match16of16AndCs => 0b110,
            SyncMode::Match30of32AndCs => 0b111,
        }
    }
}

// ---- Packet length ----------------------------------------------------------

/// Fixed or variable length packet mode.
///
/// Variable length prepends a one-byte length field; max payload is 61 bytes
/// (62 byte packet - 1 length byte) when status bytes are appended, or 63 if
/// not. Fixed length has no length field and the receiver must know the size.
#[derive(Clone, Copy, Debug, PartialEq, Eq, Structural)]
pub enum PacketLength {
    /// Fixed packet length: receiver must know the expected size
    Fixed(u8),
    /// Variable packet length: a length byte is prepended to each packet
    Variable(u8),
}

impl PacketLength {
    /// Max payload bytes for variable-length mode (with status bytes appended)
    pub const MAX_VARIABLE: u8 = 61;
    /// Max payload bytes for variable-length mode without status bytes
    pub const MAX_VARIABLE_WITHOUT_STATUS: u8 = 63;
    /// Max payload bytes for fixed-length mode
    pub const MAX_FIXED: u8 = 64;
}

// ---- TX power ---------------------------------------------------------------

/// TX output power level for 433 MHz operation.
///
/// Values follow the 433 MHz PA table of the CC1101 datasheet.
/// For UK/EU ISM band use, 10 mW (10 dBm) is the maximum permitted for
/// unlicensed use.
#[derive(Clone, Copy, Debug, PartialEq, Eq, Structural)]
pub enum TxPower {
    /// -30 dBm (1 µW): useful for very short range bench testing
    DbmMinus30,
    /// -20 dBm (10 µW)
    DbmMinus20,
    /// -15 dBm
    DbmMinus15,
    /// -10 dBm (100 µW)
    DbmMinus10,
    /// 0 dBm (1 mW)
    Dbm0,
    /// +5 dBm (~3 mW)
    Dbm5,
    /// +7 dBm (~5 mW)
    Dbm7,
    /// +10 dBm (10 mW): ISM band maximum for unlicensed use in UK/EU
    Dbm10,
}

impl TxPower {
    /// The 433 MHz PA table entry for this power level.
    pub open spec fn pa_setting(self) -> u8 {
        match self {
            TxPower::DbmMinus30 => 0x12,
            TxPower::DbmMinus20 => 0x0E,
            TxPower::DbmMinus15 => 0x1D,
            TxPower::DbmMinus10 => 0x34,
            TxPower::Dbm0 => 0x60,
            TxPower::Dbm5 => 0x84,
            TxPower::Dbm7 => 0xC8,
            TxPower::Dbm10 => 0xC0,
        }
    }

    /// Returns the PATABLE byte for 433 MHz operation.
    pub fn patable_byte(self) -> (b: u8)
        ensures
            b == self.pa_setting(),
    {
        match self {
            TxPower::DbmMinus30 => 0x12,
            TxPower::DbmMinus20 => 0x0E,
            TxPower::DbmMinus15 => 0x1D,
            TxPower::DbmMinus10 => 0x34,
            TxPower::Dbm0 => 0x60,
            TxPower::Dbm5 => 0x84,
            TxPower::Dbm7 => 0xC8,
            TxPower::Dbm10 => 0xC0,
        }
    }
}

// ---- RadioConfig ------------------------------------------------------------

/// Complete radio configuration. Build with [`RadioConfig::new()`] and the
/// builder methods, then apply it to the chip with the configure sequence.
///
/// All fields have sensible defaults for 433 MHz GFSK operation at 38.4 kbps,
/// a common, well-tested starting point.
#[derive(Clone, Copy, Debug)]
pub struct RadioConfig {
    /// Carrier frequency in Hz (default: 433.920 MHz, EU ISM centre)
    pub frequency_hz: u32,
    /// Data rate in bps (default: 38_400)
    pub baud_rate: u32,
    /// Modulation format (default: GFSK)
    pub modulation: Modulation,
    /// Sync word matching mode (default: 16/16 bits)
    pub sync_mode: SyncMode,
    /// 16-bit sync word (default: 0xD391, the CC1101 default)
    pub sync_word: u16,
    /// Packet length mode (default: Variable, max 61 bytes)
    pub packet_length: PacketLength,
    /// Whether to append RSSI and LQI status bytes after each packet
    pub append_status: bool,
    /// Whether to enable hardware CRC generation and checking
    pub crc_enable: bool,
    /// TX output power (default: 0 dBm, safe for bench testing)
    pub tx_power: TxPower,
    /// Channel bandwidth in kHz (default: 203 kHz, suits 38.4 kbps GFSK)
    pub channel_bandwidth_khz: u32,
    /// Channel number (0–255, added to base frequency via CHANNR)
    pub channel: u8,
    /// Deviation for FSK/GFSK in Hz (default: 20_630 Hz)
    pub deviation_hz: u32,
}

impl RadioConfig {
    /// The default configuration: 433.920 MHz, 38.4 kbps GFSK, 16/16 sync on
    /// 0xD391, variable-length packets of up to 61 bytes, status bytes
    /// appended, CRC on, 0 dBm, 203 kHz channel filter, channel 0 and
    /// 20.63 kHz deviation.
    pub open spec fn default_config() -> RadioConfig {
        RadioConfig {
            frequency_hz: 433_920_000,
            baud_rate: 38_400,
            modulation: Modulation::Gfsk,
            sync_mode: SyncMode::Match16of16,
            sync_word: 0xD391,
            packet_length: PacketLength::Variable(61),
            append_status: true,
            crc_enable: true,
            tx_power: TxPower::Dbm0,
            channel_bandwidth_khz: 203,
            channel: 0,
            deviation_hz: 20_630,
        }
    }
}

impl Default for RadioConfig {
    fn default() -> (r: Self)
        ensures
            r == RadioConfig::default_config(),
    {
        RadioConfig {
            frequency_hz: 433_920_000,
            baud_rate: 38_400,
            modulation: Modulation::Gfsk,
            sync_mode: SyncMode::Match16of16,
            sync_word: 0xD391,
            packet_length: PacketLength::Variable(PacketLength::MAX_VARIABLE),
            append_status: true,
            crc_enable: true,
            tx_power: TxPower::Dbm0,
            channel_bandwidth_khz: 203,
            channel: 0,
            deviation_hz: 20_630,
        }
    }
}

impl RadioConfig {
    /// Create a new config with sensible defaults for 433 MHz GFSK operation.
    pub fn new() -> (r: Self)
        ensures
            r == RadioConfig::default_config(),
    {
        Self::default()
    }

    /// Set carrier frequency in Hz.
    ///
    /// Must be in the range 300–348 MHz, 387–464 MHz, or 779–928 MHz.
    /// For EU ISM 433 MHz unlicensed use, set to 433_920_000.
    pub fn frequency_hz(self, hz: u32) -> (r: Self)
        ensures
            r == (RadioConfig { frequency_hz: hz, ..self }),
    {
        let mut c = self;
        c.frequency_hz = hz;
        c
    }

    /// Set data rate in bps.
    ///
    /// Practical range with the CC1101 is roughly 600 bps to 500 kbps.
    /// Common values: 4_800, 9_600, 38_400, 115_200.
    pub fn baud_rate(self, bps: u32) -> (r: Self)
        ensures
            r == (RadioConfig { baud_rate: bps, ..self }),
    {
        let mut c = self;
        c.baud_rate = bps;
        c
    }

    /// Set modulation format.
    pub fn modulation(self, m: Modulation) -> (r: Self)
        ensures
            r == (RadioConfig { modulation: m, ..self }),
    {
        let mut c = self;
        c.modulation = m;
        c
    }

    /// Set sync word detection mode.
    pub fn sync_mode(self, mode: SyncMode) -> (r: Self)
        ensures
            r == (RadioConfig { sync_mode: mode, ..self }),
    {
        let mut c = self;
        c.sync_mode = mode;
        c
    }

    /// Set the 16-bit sync word.
    ///
    /// Both transmitter and receiver must use the same value. Avoid all-zero
    /// or all-one patterns; the default 0xD391 is a good choice.
    pub fn sync_word(self, word: u16) -> (r: Self)
        ensures
            r == (RadioConfig { sync_word: word, ..self }),
    {
        let mut c = self;
        c.sync_word = word;
        c
    }

    /// Set packet length mode.
    pub fn packet_length(self, len: PacketLength) -> (r: Self)
        ensures
            r == (RadioConfig { packet_length: len, ..self }),
    {
        let mut c = self;
        c.packet_length = len;
        c
    }

    /// Enable or disable hardware CRC.
    ///
    /// Enabled by default. Disable only if you need to receive packets from
    /// devices that don't use CRC (e.g. some OOK remotes).
    pub fn crc_enable(self, enable: bool) -> (r: Self)
        ensures
            r == (RadioConfig { crc_enable: enable, ..self }),
    {
        let mut c = self;
        c.crc_enable = enable;
        c
    }

    /// Enable or disable appending RSSI/LQI status bytes to received packets.
    ///
    /// When enabled, the receive sequence strips these bytes from the payload
    /// and exposes them via [`crate::driver::ReceivedPacket`].
    pub fn append_status(self, enable: bool) -> (r: Self)
        ensures
            r == (RadioConfig { append_status: enable, ..self }),
    {
        let mut c = self;
        c.append_status = enable;
        c
    }

    /// Set TX power level.
    pub fn tx_power(self, power: TxPower) -> (r: Self)
        ensures
            r == (RadioConfig { tx_power: power, ..self }),
    {
        let mut c = self;
        c.tx_power = power;
        c
    }

    /// Set channel number (0–255).
    pub fn channel(self, ch: u8) -> (r: Self)
        ensures
            r == (RadioConfig { channel: ch, ..self }),
    {
        let mut c = self;
        c.channel = ch;
        c
    }

    /// Set FSK/GFSK frequency deviation in Hz (default: 20_630 Hz).
    pub fn deviation_hz(self, hz: u32) -> (r: Self)
        ensures
            r == (RadioConfig { deviation_hz: hz, ..self }),
    {
        let mut c = self;
        c.deviation_hz = hz;
        c
    }
}

// ---- Register model ---------------------------------------------------------

/// The distance between two integers.
pub open spec fn abs_diff(a: int, b: int) -> nat {
    if a >= b {
        (a - b) as nat
    } else {
        (b - a) as nat
    }
}

/// The 24-bit FREQ word for a carrier of `hz` Hz: the datasheet gives
/// `f_carrier = f_xosc / 2^16 * FREQ`, so `FREQ = floor(hz * 2^16 / f_xosc)`.
pub open spec fn freq_word(hz: u32) -> nat {
    (hz as nat * 0x1_0000) / (F_XOSC as nat)
}

/// DRATE_M before the implicit 256 is taken off, for exponent `e`: the
/// datasheet gives `R = f_xosc * (256 + M) * 2^E / 2^28`.
pub open spec fn drate_m_raw(target: u32, e: nat) -> nat {
    (target as nat * 0x1000_0000) / (F_XOSC as nat * pow2(e))
}

/// Whether exponent `e` (of the sixteen the register holds) gives a mantissa
/// that fits in DRATE_M for the target rate.
pub open spec fn drate_candidate(target: u32, e: nat) -> bool {
    &&& e < 16
    &&& 256 <= drate_m_raw(target, e) <= 511
}

/// The DRATE_M value chosen for exponent `e`.
pub open spec fn drate_mantissa(target: u32, e: nat) -> nat {
    (drate_m_raw(target, e) - 256) as nat
}

/// The data rate, in bps, that exponent `e` and its mantissa produce.
pub open spec fn drate_actual(target: u32, e: nat) -> nat {
    F_XOSC as nat * (256 + drate_mantissa(target, e)) * pow2(e) / 0x1000_0000
}

/// How far the rate produced by exponent `e` is from the target rate.
pub open spec fn drate_error(target: u32, e: nat) -> nat {
    abs_diff(target as int, drate_actual(target, e) as int)
}

/// Some exponent yields a mantissa that fits.
pub open spec fn has_drate(target: u32) -> bool {
    exists|e: nat| #[trigger] drate_candidate(target, e)
}

/// `e` is the exponent with the smallest rate error; among exponents with
/// equal error, the smallest.
pub open spec fn is_best_drate(target: u32, e: nat) -> bool {
    &&& drate_candidate(target, e)
    &&& forall|e2: nat| #[trigger]
        drate_candidate(target, e2) ==> drate_error(target, e) <= drate_error(target, e2)
    &&& forall|e2: nat|
        e2 < e && #[trigger] drate_candidate(target, e2) ==> drate_error(target, e) < drate_error(
            target,
            e2,
        )
}

/// The channel filter bandwidth, in whole kHz (rounded down), of the 4-bit
/// field [CHANBW_E:CHANBW_M]: `BW = f_xosc / (8 * (4 + CHANBW_M) * 2^CHANBW_E)`.
pub open spec fn chanbw_khz(field: u8) -> nat {
    F_XOSC as nat / (8 * (4 + (field % 4) as nat) * pow2((field / 4) as nat)) / 1000
}

/// The 4-bit channel bandwidth field [CHANBW_E:CHANBW_M] for a requested
/// bandwidth in kHz, by table: the narrowest setting whose bandwidth in whole
/// kHz is at least the request, or the widest where none is
/// (`lemma_chanbw_narrowest`).
pub open spec fn chanbw_field(bw_khz: u32) -> u8 {
    if bw_khz <= 58 {
        0b1111
    } else if bw_khz <= 67 {
        0b1110
    } else if bw_khz <= 81 {
        0b1101
    } else if bw_khz <= 101 {
        0b1100
    } else if bw_khz <= 116 {
        0b1011
    } else if bw_khz <= 135 {
        0b1010
    } else if bw_khz <= 162 {
        0b1001
    } else if bw_khz <= 203 {
        0b1000
    } else if bw_khz <= 232 {
        0b0111
    } else if bw_khz <= 270 {
        0b0110
    } else if bw_khz <= 325 {
        0b0101
    } else if bw_khz <= 406 {
        0b0100
    } else if bw_khz <= 464 {
        0b0011
    } else if bw_khz <= 541 {
        0b0010
    } else if bw_khz <= 650 {
        0b0001
    } else {
        0b0000
    }
}

/// The frequency deviation, in Hz, of DEVIATION_E = `e` and DEVIATION_M = `m`:
/// `f_dev = f_xosc / 2^17 * (8 + m) * 2^e`.
pub open spec fn deviation_actual(e: nat, m: nat) -> nat {
    F_XOSC as nat * (8 + m) * pow2(e) / 0x2_0000
}

/// How far the deviation of (`e`, `m`) is from the target.
pub open spec fn deviation_error(target: u32, e: nat, m: nat) -> nat {
    abs_diff(target as int, deviation_actual(e, m) as int)
}

/// (`e2`, `m2`) comes before (`e`, `m`) in exponent-then-mantissa order.
pub open spec fn precedes(e2: nat, m2: nat, e: nat, m: nat) -> bool {
    e2 < e || (e2 == e && m2 < m)
}

/// (`e`, `m`) is the deviation setting closest to the target; among settings
/// equally close, the first in exponent-then-mantissa order.
pub open spec fn is_best_deviation(target: u32, e: nat, m: nat) -> bool {
    &&& e < 8
    &&& m < 8
    &&& forall|e2: nat, m2: nat|
        e2 < 8 && m2 < 8 ==> deviation_error(target, e, m) <= #[trigger] deviation_error(
            target,
            e2,
            m2,
        )
    &&& forall|e2: nat, m2: nat|
        m2 < 8 && precedes(e2, m2, e, m) ==> deviation_error(target, e, m)
            < #[trigger] deviation_error(target, e2, m2)
}

/// The MDMCFG2 value for a modulation and sync mode: DC blocking filter on
/// (bit 7), MOD_FORMAT in bits 6:4, Manchester off (bit 3), SYNC_MODE in
/// bits 2:0.
pub open spec fn mdmcfg2_value(modulation: Modulation, sync_mode: SyncMode) -> int {
    0x80 + modulation.mod_format() * 16 + sync_mode.sync_field()
}

/// The DRATE exponent that the register computation selects: the best one
/// where some exponent fits, else 0.
pub open spec fn best_drate_exponent(target: u32) -> nat {
    if has_drate(target) {
        choose|e: nat| is_best_drate(target, e)
    } else {
        0
    }
}

/// MDMCFG4 for a configuration: CHANBW in bits 7:4, DRATE_E in bits 3:0.
pub open spec fn mdmcfg4_value(cfg: RadioConfig) -> int {
    chanbw_field(cfg.channel_bandwidth_khz) * 16 + best_drate_exponent(cfg.baud_rate)
}

/// MDMCFG3 (DRATE_M) for a configuration: the mantissa of the selected
/// exponent where some exponent fits, else 0.
pub open spec fn mdmcfg3_value(cfg: RadioConfig) -> int {
    if has_drate(cfg.baud_rate) {
        drate_mantissa(cfg.baud_rate, best_drate_exponent(cfg.baud_rate)) as int
    } else {
        0
    }
}

/// DEVIATN for a target deviation: the best (exponent, mantissa) pair,
/// exponent in bits 6:4 and mantissa in bits 2:0.
pub open spec fn deviatn_value(target: u32) -> int {
    let (e, m) = choose|e: nat, m: nat| is_best_deviation(target, e, m);
    (e * 16 + m) as int
}

/// The best candidate exponent below `k`, if any candidate is below `k`.
spec fn best_drate_below(target: u32, k: nat) -> Option<nat>
    decreases k,
{
    if k == 0 {
        None
    } else {
        let prev = best_drate_below(target, (k - 1) as nat);
        let e = (k - 1) as nat;
        if drate_candidate(target, e) && (prev is None || drate_error(target, e)
            < drate_error(target, prev->0)) {
            Some(e)
        } else {
            prev
        }
    }
}

proof fn lemma_best_drate_below(target: u32, k: nat)
    ensures
        best_drate_below(target, k) is None ==> forall|e: nat|
            e < k ==> !#[trigger] drate_candidate(target, e),
        best_drate_below(target, k) matches Some(b) ==> {
            &&& b < k
            &&& drate_candidate(target, b)
            &&& forall|e: nat|
                e < k && #[trigger] drate_candidate(target, e) ==> drate_error(target, b)
                    <= drate_error(target, e)
            &&& forall|e: nat|
                e < b && #[trigger] drate_candidate(target, e) ==> drate_error(target, b)
                    < drate_error(target, e)
        },
    decreases k,
{
    if k > 0 {
        lemma_best_drate_below(target, (k - 1) as nat);
    }
}

/// Where some exponent fits, a best one exists.
proof fn lemma_best_drate_exists(target: u32)
    requires
        has_drate(target),
    ensures
        exists|e: nat| is_best_drate(target, e),
{
    lemma_best_drate_below(target, 16);
    let w = choose|e: nat| drate_candidate(target, e);
    assert(drate_candidate(target, w));
    let b = best_drate_below(target, 16)->0;
    assert(is_best_drate(target, b));
}

/// There is at most one best exponent.
pub proof fn lemma_best_drate_unique(target: u32, e1: nat, e2: nat)
    requires
        is_best_drate(target, e1),
        is_best_drate(target, e2),
    ensures
        e1 == e2,
{
    if e1 < e2 {
        assert(drate_candidate(target, e1));
    } else if e2 < e1 {
        assert(drate_candidate(target, e2));
    }
}

/// There is at most one best deviation setting.
pub proof fn lemma_best_deviation_unique(target: u32, e1: nat, m1: nat, e2: nat, m2: nat)
    requires
        is_best_deviation(target, e1, m1),
        is_best_deviation(target, e2, m2),
    ensures
        e1 == e2 && m1 == m2,
{
    let d1 = deviation_error(target, e1, m1);
    let d2 = deviation_error(target, e2, m2);
    if precedes(e1, m1, e2, m2) {
        assert(d2 < d1);
    } else if precedes(e2, m2, e1, m1) {
        assert(d1 < d2);
    }
}

/// 2^e as a machine word.
fn pow2_u64(e: u8) -> (p: u64)
    requires
        e < 64,
    ensures
        p == pow2(e as nat),
{
    proof {
        vstd::bits::lemma_u64_pow2_no_overflow(e as nat);
        vstd::bits::lemma_u64_shl_is_mul(1, e as u64);
    }
    1u64 << (e as u64)
}

/// The distance between two machine words.
fn abs_diff_u64(a: u64, b: u64) -> (d: u64)
    ensures
        d == abs_diff(a as int, b as int),
{
    if a >= b {
        a - b
    } else {
        b - a
    }
}

proof fn lemma_pow2_le(e: nat, bound: nat)
    requires
        e <= bound,
        bound < 64,
    ensures
        pow2(e) <= pow2(bound),
{
    if e < bound {
        lemma_pow2_strictly_increases(e, bound);
    }
}

impl RadioConfig {
    // ---- Register computation -----------------------------------------------

    /// Compute FREQ2:FREQ1:FREQ0 register values for the configured frequency.
    ///
    /// Formula from the datasheet: f_carrier = f_xosc / 2^16 * FREQ[23:0]
    /// With f_xosc = 26 MHz: FREQ = frequency_hz * 2^16 / 26_000_000
    pub fn freq_registers(&self) -> (r: (u8, u8, u8))
        ensures
            r.0 == freq_word(self.frequency_hz) / 0x1_0000,
            r.1 == (freq_word(self.frequency_hz) / 0x100) % 0x100,
            r.2 == freq_word(self.frequency_hz) % 0x100,
    {
        let scaled: u64 = self.frequency_hz as u64 * 0x1_0000;
        let freq: u64 = scaled / F_XOSC;
        proof {
            lemma_div_is_ordered(scaled as int, 0xFFFF_FFFF_0000int, F_XOSC as int);
            assert(freq < 0x100_0000);
            assert((freq >> 16) & 0xFF == freq / 0x1_0000) by (bit_vector)
                requires
                    freq < 0x100_0000,
            ;
            assert((freq >> 8) & 0xFF == (freq / 0x100) % 0x100) by (bit_vector);
            assert(freq & 0xFF == freq % 0x100) by (bit_vector);
        }
        (((freq >> 16) & 0xFF) as u8, ((freq >> 8) & 0xFF) as u8, (freq & 0xFF) as u8)
    }

    /// Compute MDMCFG4 (channel BW + exponent) and MDMCFG3 (mantissa) for
    /// the configured baud rate.
    ///
    /// Datasheet formula: R_data = f_xosc * (256 + DRATE_M) * 2^DRATE_E / 2^28
    /// Rearranging: DRATE_M = R_data * 2^28 / (f_xosc * 2^DRATE_E) - 256.
    /// Of the exponents whose mantissa fits, the one whose rate is closest to
    /// the target is chosen (the smallest on a tie); where none fits, both
    /// fields are 0.
    pub fn baud_rate_registers(&self) -> (r: (u8, u8))
        ensures
            r.0 / 16 == chanbw_field(self.channel_bandwidth_khz),
            has_drate(self.baud_rate) ==> is_best_drate(self.baud_rate, (r.0 % 16) as nat)
                && r.1 == drate_mantissa(self.baud_rate, (r.0 % 16) as nat),
            !has_drate(self.baud_rate) ==> r.0 % 16 == 0 && r.1 == 0,
            r.0 == mdmcfg4_value(*self),
            r.1 == mdmcfg3_value(*self),
    {
        let target = self.baud_rate as u64;
        let ghost baud = self.baud_rate;

        let mut best_e: u8 = 0;
        let mut best_m: u8 = 0;
        let mut best_err: u64 = u64::MAX;

        let mut e: u8 = 0;
        while e < 16
            invariant
                e <= 16,
                target == baud,
                best_err == u64::MAX ==> best_e == 0 && best_m == 0 && forall|e2: nat|
                    e2 < e ==> !#[trigger] drate_candidate(baud, e2),
                best_err != u64::MAX ==> {
                    &&& best_e < e
                    &&& drate_candidate(baud, best_e as nat)
                    &&& best_m == drate_mantissa(baud, best_e as nat)
                    &&& best_err == drate_error(baud, best_e as nat)
                    &&& forall|e2: nat|
                        e2 < e && #[trigger] drate_candidate(baud, e2) ==> best_err
                            <= drate_error(baud, e2)
                    &&& forall|e2: nat|
                        e2 < best_e && #[trigger] drate_candidate(baud, e2) ==> best_err
                            < drate_error(baud, e2)
                },
            decreases 16 - e,
        {
            let p = pow2_u64(e);
            proof {
                lemma2_to64();
                lemma_pow2_le(e as nat, 15);
            }
            // M = target * 2^28 / (f_xosc * 2^e) - 256, valid when in [0, 255]
            let m_raw = (target * 0x1000_0000) / (F_XOSC * p);
            assert(m_raw == drate_m_raw(baud, e as nat));
            if 256 <= m_raw && m_raw <= 511 {
                let m = (m_raw - 256) as u8;
                let base: u64 = F_XOSC * (256 + m as u64);
                proof {
                    lemma_mul_upper_bound(base as int, F_XOSC * 511int, p as int, 0x8000);
                }
                let actual = base * p / 0x1000_0000;
                assert(actual == drate_actual(baud, e as nat));
                let err = abs_diff_u64(target, actual);
                if err < best_err {
                    best_err = err;
                    best_e = e;
                    best_m = m;
                }
            }
            e = e + 1;
        }

        // MDMCFG4: [7:4] = channel BW setting, [3:0] = DRATE_E
        let bw_bits = Self::bw_bits(self.channel_bandwidth_khz);
        let mdmcfg4 = (bw_bits << 4) | (best_e & 0x0F);
        proof {
            assert((bw_bits << 4) | (best_e & 0x0F) == bw_bits * 16 + best_e) by (bit_vector)
                requires
                    bw_bits < 16,
                    best_e < 16,
            ;
        }
        proof {
            if has_drate(baud) {
                let w = choose|e2: nat| is_best_drate(baud, e2);
                assert(is_best_drate(baud, best_e as nat));
                lemma_best_drate_unique(baud, w, best_e as nat);
            }
        }
        (mdmcfg4, best_m)
    }

    /// Returns the 4-bit CHANBW field [CHANBW_E:CHANBW_M] packed into [3:0]
    /// for storage in MDMCFG4[7:4].
    ///
    /// BW = f_xosc / (8 * (4 + CHANBW_M) * 2^CHANBW_E)
    pub fn bw_bits(bw_khz: u32) -> (bits: u8)
        ensures
            bits == chanbw_field(bw_khz),
            bits < 16,
    {
        // CHANBW_E in bits [3:2], CHANBW_M in bits [1:0] of the 4-bit field.
        // Settings for a 26 MHz crystal:
        //   0b00_00 -> BW = 26M/(8*4*1)   = 812.5 kHz
        //   0b00_01 -> BW = 26M/(8*5*1)   = 650 kHz
        //   0b00_10 -> BW = 26M/(8*6*1)   = 541 kHz
        //   0b00_11 -> BW = 26M/(8*7*1)   = 464 kHz
        //   0b01_00 -> BW = 26M/(8*4*2)   = 406 kHz
        //   0b01_01 -> BW = 26M/(8*5*2)   = 325 kHz
        //   0b01_10 -> BW = 26M/(8*6*2)   = 270 kHz
        //   0b01_11 -> BW = 26M/(8*7*2)   = 232 kHz
        //   0b10_00 -> BW = 26M/(8*4*4)   = 203 kHz  <- default
        //   0b10_01 -> BW = 26M/(8*5*4)   = 162 kHz
        //   0b10_10 -> BW = 26M/(8*6*4)   = 135 kHz
        //   0b10_11 -> BW = 26M/(8*7*4)   = 116 kHz
        //   0b11_00 -> BW = 26M/(8*4*8)   = 101 kHz
        //   0b11_01 -> BW = 26M/(8*5*8)   =  81 kHz
        //   0b11_10 -> BW = 26M/(8*6*8)   =  67 kHz
        //   0b11_11 -> BW = 26M/(8*7*8)   =  58 kHz
        match bw_khz {
            0..=58 => 0b1111,
            59..=67 => 0b1110,
            68..=81 => 0b1101,
            82..=101 => 0b1100,
            102..=116 => 0b1011,
            117..=135 => 0b1010,
            136..=162 => 0b1001,
            163..=203 => 0b1000,
            204..=232 => 0b0111,
            233..=270 => 0b0110,
            271..=325 => 0b0101,
            326..=406 => 0b0100,
            407..=464 => 0b0011,
            465..=541 => 0b0010,
            542..=650 => 0b0001,
            _ => 0b0000,
        }
    }

    /// Compute the DEVIATN register for FSK/GFSK deviation.
    ///
    /// Formula: f_dev = f_xosc / 2^17 * (8 + DEVIATION_M) * 2^DEVIATION_E.
    /// The setting closest to the target is chosen (the first in
    /// exponent-then-mantissa order on a tie); DEVIATION_E goes in bits 6:4
    /// and DEVIATION_M in bits 2:0.
    pub fn deviation_register(&self) -> (r: u8)
        ensures
            r / 16 < 8,
            r % 16 < 8,
            is_best_deviation(self.deviation_hz, (r / 16) as nat, (r % 16) as nat),
            r == deviatn_value(self.deviation_hz),
    {
        let target = self.deviation_hz as u64;
        let ghost dev = self.deviation_hz;

        let mut best_e: u8 = 0;
        let mut best_m: u8 = 0;
        let mut best_err: u64 = u64::MAX;

        let mut e: u8 = 0;
        while e < 8
            invariant
                e <= 8,
                target == dev,
                best_err == u64::MAX ==> e == 0,
                best_err != u64::MAX ==> {
                    &&& best_e < e
                    &&& best_m < 8
                    &&& best_err == deviation_error(dev, best_e as nat, best_m as nat)
                    &&& forall|e2: nat, m2: nat|
                        e2 < e && m2 < 8 ==> best_err <= #[trigger] deviation_error(dev, e2, m2)
                    &&& forall|e2: nat, m2: nat|
                        m2 < 8 && precedes(e2, m2, best_e as nat, best_m as nat) ==> best_err
                            < #[trigger] deviation_error(dev, e2, m2)
                },
            decreases 8 - e,
        {
            let p = pow2_u64(e);
            proof {
                lemma2_to64();
                lemma_pow2_le(e as nat, 7);
            }
            let mut m: u8 = 0;
            while m < 8
                invariant
                    e < 8,
                    m <= 8,
                    target == dev,
                    p == pow2(e as nat),
                    p <= 128,
                    best_err == u64::MAX ==> e == 0 && m == 0,
                    best_err != u64::MAX ==> {
                        &&& precedes(best_e as nat, best_m as nat, e as nat, m as nat)
                        &&& best_e <= e
                        &&& best_m < 8
                        &&& best_err == deviation_error(dev, best_e as nat, best_m as nat)
                        &&& forall|e2: nat, m2: nat|
                            m2 < 8 && precedes(e2, m2, e as nat, m as nat) ==> best_err
                                <= #[trigger] deviation_error(dev, e2, m2)
                        &&& forall|e2: nat, m2: nat|
                            m2 < 8 && precedes(e2, m2, best_e as nat, best_m as nat) ==> best_err
                                < #[trigger] deviation_error(dev, e2, m2)
                    },
                decreases 8 - m,
            {
                let base: u64 = F_XOSC * (8 + m as u64);
                proof {
                    lemma_mul_upper_bound(base as int, F_XOSC * 15int, p as int, 128);
                }
                let actual = base * p / 0x2_0000;
                assert(actual == deviation_actual(e as nat, m as nat));
                let err = abs_diff_u64(target, actual);
                assert(err == deviation_error(dev, e as nat, m as nat));
                if err < best_err {
                    best_err = err;
                    best_e = e;
                    best_m = m;
                }
                m = m + 1;
            }
            e = e + 1;
        }

        proof {
            assert((best_e << 4) | best_m == best_e * 16 + best_m) by (bit_vector)
                requires
                    best_e < 8,
                    best_m < 8,
            ;
            assert(is_best_deviation(dev, best_e as nat, best_m as nat));
            let (we, wm) = choose|e2: nat, m2: nat| is_best_deviation(dev, e2, m2);
            lemma_best_deviation_unique(dev, we, wm, best_e as nat, best_m as nat);
        }
        (best_e << 4) | best_m
    }

    /// Compute the MDMCFG2 register: modulation format and sync mode.
    pub fn mdmcfg2(&self) -> (r: u8)
        ensures
            r == mdmcfg2_value(self.modulation, self.sync_mode),
    {
        let format = self.modulation.mdmcfg2_bits();
        let sync_bits = self.sync_mode.mdmcfg2_bits();
        let mod_bits = format << 4;
        proof {
            assert(0x80 | (format << 4) | sync_bits == 0x80 + format * 16 + sync_bits)
                by (bit_vector)
                requires
                    format < 8,
                    sync_bits < 8,
            ;
        }
        // Bit 3: manchester encoding disabled (0)
        // Bit 7: DC blocking filter enabled (1), left on for all practical use
        0x80 | mod_bits | sync_bits
    }
}

// ---- Laws -------------------------------------------------------------------

/// The three FREQ bytes put back together give the FREQ word, which fits in
/// 24 bits, and the carrier it programs is the largest FREQ step not above
/// the requested frequency: `FREQ * f_xosc <= hz * 2^16 < (FREQ + 1) * f_xosc`.
pub proof fn lemma_freq_registers_recombine(hz: u32)
    ensures
        ({
            let fw = freq_word(hz);
            &&& fw < 0x100_0000
            &&& (fw / 0x1_0000) * 0x1_0000 + ((fw / 0x100) % 0x100) * 0x100 + fw % 0x100 == fw
            &&& fw * F_XOSC <= hz * 0x1_0000
            &&& hz * 0x1_0000 < (fw + 1) * F_XOSC
        }),
{
    let fw = freq_word(hz);
    let scaled = hz * 0x1_0000;
    lemma_div_is_ordered(scaled as int, 0xFFFF_FFFF_0000int, F_XOSC as int);
    vstd::arithmetic::div_mod::lemma_fundamental_div_mod(scaled as int, F_XOSC as int);
    vstd::arithmetic::div_mod::lemma_fundamental_div_mod(fw as int, 0x100);
    vstd::arithmetic::div_mod::lemma_fundamental_div_mod(fw as int / 0x100, 0x100);
    vstd::arithmetic::div_mod::lemma_div_denominator(fw as int, 0x100, 0x100);
    assert(fw * F_XOSC + scaled % (F_XOSC as int) == scaled);
}

/// MDMCFG2 reads back as its fields: bit 7 (DC blocking filter) set, the
/// modulation format in bits 6:4, bit 3 (Manchester) clear, the sync mode in
/// bits 2:0.
pub proof fn lemma_mdmcfg2_fields(modulation: Modulation, sync_mode: SyncMode)
    ensures
        ({
            let v = mdmcfg2_value(modulation, sync_mode);
            &&& 0x80 <= v < 0x100
            &&& (v as u8) & 0x80 == 0x80
            &&& (v as u8) & 0x08 == 0
            &&& ((v as u8) >> 4) & 0x07 == modulation.mod_format()
            &&& (v as u8) & 0x07 == sync_mode.sync_field()
        }),
{
    let f = modulation.mod_format();
    let y = sync_mode.sync_field();
    let v = (0x80 + f * 16 + y) as u8;
    assert(v & 0x80 == 0x80 && v & 0x08 == 0 && (v >> 4) & 0x07 == f && v & 0x07 == y)
        by (bit_vector)
        requires
            f < 8,
            y < 8,
            v == 0x80 + f * 16 + y,
    ;
}

/// Different modulation formats or sync modes give different MDMCFG2 values.
pub proof fn lemma_mdmcfg2_injective(m1: Modulation, s1: SyncMode, m2: Modulation, s2: SyncMode)
    requires
        mdmcfg2_value(m1, s1) == mdmcfg2_value(m2, s2),
    ensures
        m1 == m2,
        s1 == s2,
{
}

/// MDMCFG4 reads back as its fields: the channel filter in bits 7:4 and the
/// data rate exponent in bits 3:0.
pub proof fn lemma_mdmcfg4_fields(cfg: RadioConfig)
    ensures
        0 <= mdmcfg4_value(cfg) < 0x100,
        mdmcfg4_value(cfg) / 16 == chanbw_field(cfg.channel_bandwidth_khz),
        mdmcfg4_value(cfg) % 16 == best_drate_exponent(cfg.baud_rate),
{
    if has_drate(cfg.baud_rate) {
        lemma_best_drate_exists(cfg.baud_rate);
        let e = choose|e: nat| is_best_drate(cfg.baud_rate, e);
        assert(drate_candidate(cfg.baud_rate, e));
    }
}

/// A wider requested channel bandwidth never selects a narrower filter: the
/// CHANBW field does not increase as the request grows.
pub proof fn lemma_chanbw_monotone(a: u32, b: u32)
    requires
        a <= b,
    ensures
        chanbw_field(b) <= chanbw_field(a),
{
}

/// Different power levels have different PA table entries.
pub proof fn lemma_pa_setting_injective(p1: TxPower, p2: TxPower)
    requires
        p1.pa_setting() == p2.pa_setting(),
    ensures
        p1 == p2,
{
}

/// The bandwidth of the channel filter setting with CHANBW_E = `e` and
/// CHANBW_M = `m`, given the divisor `d = 8 * (4 + m) * 2^e`.
proof fn lemma_chanbw_setting(field: u8, e: nat, m: nat, d: nat)
    requires
        field == 4 * e + m,
        m < 4,
        d == 8 * (4 + m) * pow2(e),
    ensures
        chanbw_khz(field) == F_XOSC as nat / d / 1000,
{
    assert(field % 4 == m && field / 4 == e);
}

/// The bandwidth of each channel filter setting, in whole kHz.
pub proof fn lemma_chanbw_table()
    ensures
        chanbw_khz(0b0000) == 812,
        chanbw_khz(0b0001) == 650,
        chanbw_khz(0b0010) == 541,
        chanbw_khz(0b0011) == 464,
        chanbw_khz(0b0100) == 406,
        chanbw_khz(0b0101) == 325,
        chanbw_khz(0b0110) == 270,
        chanbw_khz(0b0111) == 232,
        chanbw_khz(0b1000) == 203,
        chanbw_khz(0b1001) == 162,
        chanbw_khz(0b1010) == 135,
        chanbw_khz(0b1011) == 116,
        chanbw_khz(0b1100) == 101,
        chanbw_khz(0b1101) == 81,
        chanbw_khz(0b1110) == 67,
        chanbw_khz(0b1111) == 58,
{
    lemma2_to64();
    assert(pow2(0) == 1 && pow2(1) == 2 && pow2(2) == 4 && pow2(3) == 8);
    lemma_chanbw_setting(0, 0, 0, 32);
    lemma_chanbw_setting(1, 0, 1, 40);
    lemma_chanbw_setting(2, 0, 2, 48);
    lemma_chanbw_setting(3, 0, 3, 56);
    lemma_chanbw_setting(4, 1, 0, 64);
    lemma_chanbw_setting(5, 1, 1, 80);
    lemma_chanbw_setting(6, 1, 2, 96);
    lemma_chanbw_setting(7, 1, 3, 112);
    lemma_chanbw_setting(8, 2, 0, 128);
    lemma_chanbw_setting(9, 2, 1, 160);
    lemma_chanbw_setting(10, 2, 2, 192);
    lemma_chanbw_setting(11, 2, 3, 224);
    lemma_chanbw_setting(12, 3, 0, 256);
    lemma_chanbw_setting(13, 3, 1, 320);
    lemma_chanbw_setting(14, 3, 2, 384);
    lemma_chanbw_setting(15, 3, 3, 448);
}

/// The channel filter chosen for a request is the narrowest setting whose
/// bandwidth (in whole kHz) is at least the request; where no setting is that
/// wide, it is the widest.
pub proof fn lemma_chanbw_narrowest(bw_khz: u32)
    ensures
        chanbw_field(bw_khz) < 16,
        bw_khz <= chanbw_khz(0) ==> chanbw_khz(chanbw_field(bw_khz)) >= bw_khz,
        forall|g: u8|
            g < 16 && #[trigger] chanbw_khz(g) >= bw_khz ==> chanbw_khz(g) >= chanbw_khz(
                chanbw_field(bw_khz),
            ),
        bw_khz > chanbw_khz(0) ==> chanbw_field(bw_khz) == 0,
        forall|g: u8| g < 16 ==> #[trigger] chanbw_khz(g) <= chanbw_khz(0),
{
    lemma_chanbw_table();
    assert forall|g: u8| g < 16 && #[trigger] chanbw_khz(g) >= bw_khz implies chanbw_khz(g)
        >= chanbw_khz(chanbw_field(bw_khz)) by {
        lemma_chanbw_table();
    }
    assert forall|g: u8| g < 16 implies #[trigger] chanbw_khz(g) <= chanbw_khz(0) by {
        lemma_chanbw_table();
    }
}

/// Deviation settings taken in exponent-then-mantissa order give strictly
/// increasing deviations.
pub proof fn lemma_deviation_increasing(e2: nat, m2: nat, e: nat, m: nat)
    requires
        e2 < 8,
        m2 < 8,
        e < 8,
        m < 8,
        precedes(e2, m2, e, m),
    ensures
        deviation_actual(e2, m2) < deviation_actual(e, m),
{
    let p2 = pow2(e2);
    let p = pow2(e);
    vstd::arithmetic::power2::lemma_pow2_pos(e2);
    if e2 < e {
        vstd::arithmetic::power2::lemma_pow2_adds(e2, 1);
        lemma2_to64();
        lemma_pow2_le(e2 + 1, e);
        assert(2 * p2 <= p);
    }
    let f = F_XOSC as int;
    let x = f * (8 + m2) * p2;
    let y = f * (8 + m) * p;
    assert(x + f <= y) by (nonlinear_arith)
        requires
            f == 26_000_000,
            x == f * (8 + m2) * p2,
            y == f * (8 + m) * p,
            p2 >= 1,
            m2 < 8,
            m < 8,
            (e2 < e && 2 * p2 <= p) || (e2 == e && m2 < m && p2 == p),
    ;
    assert(x / 0x2_0000 < y / 0x2_0000) by (nonlinear_arith)
        requires
            x + 26_000_000 <= y,
            x >= 0,
    ;
}

/// The best deviation setting among the first `k` in exponent-then-mantissa
/// order, if `k` is positive.
spec fn best_deviation_below(target: u32, k: nat) -> Option<(nat, nat)>
    decreases k,
{
    if k == 0 {
        None
    } else {
        let prev = best_deviation_below(target, (k - 1) as nat);
        let e = ((k - 1) as nat / 8) as nat;
        let m = ((k - 1) as nat % 8) as nat;
        match prev {
            Some((pe, pm)) => if deviation_error(target, e, m) < deviation_error(target, pe, pm) {
                Some((e, m))
            } else {
                prev
            },
            None => Some((e, m)),
        }
    }
}

proof fn lemma_best_deviation_below(target: u32, k: nat)
    requires
        k <= 64,
    ensures
        k > 0 ==> best_deviation_below(target, k) is Some,
        best_deviation_below(target, k) matches Some((be, bm)) ==> {
            &&& be * 8 + bm < k
            &&& bm < 8
            &&& forall|e2: nat, m2: nat|
                m2 < 8 && e2 * 8 + m2 < k ==> deviation_error(target, be, bm)
                    <= #[trigger] deviation_error(target, e2, m2)
            &&& forall|e2: nat, m2: nat|
                m2 < 8 && precedes(e2, m2, be, bm) ==> deviation_error(target, be, bm)
                    < #[trigger] deviation_error(target, e2, m2)
        },
    decreases k,
{
    if k > 0 {
        lemma_best_deviation_below(target, (k - 1) as nat);
        let i = (k - 1) as nat;
        let e = (i / 8) as nat;
        let m = (i % 8) as nat;
        assert(e * 8 + m == i);
    }
}

/// A best deviation setting exists for every target.
proof fn lemma_best_deviation_exists(target: u32)
    ensures
        exists|e: nat, m: nat| is_best_deviation(target, e, m),
{
    lemma_best_deviation_below(target, 64);
    let (be, bm) = best_deviation_below(target, 64)->0;
    assert(is_best_deviation(target, be, bm));
}

/// DEVIATN never decreases as the requested deviation grows.
pub proof fn lemma_deviatn_monotone(a: u32, b: u32)
    requires
        a <= b,
    ensures
        deviatn_value(a) <= deviatn_value(b),
{
    lemma_best_deviation_exists(a);
    lemma_best_deviation_exists(b);
    let (ea, ma) = choose|e: nat, m: nat| is_best_deviation(a, e, m);
    let (eb, mb) = choose|e: nat, m: nat| is_best_deviation(b, e, m);
    assert(is_best_deviation(a, ea, ma));
    assert(is_best_deviation(b, eb, mb));
    if precedes(eb, mb, ea, ma) {
        lemma_deviation_increasing(eb, mb, ea, ma);
        let vi = deviation_actual(ea, ma);
        let vj = deviation_actual(eb, mb);
        assert(deviation_error(a, ea, ma) < deviation_error(a, eb, mb));
        assert(deviation_error(b, eb, mb) <= deviation_error(b, ea, ma));
        assert(false);
    }
}

/// The ends of the DEVIATN range: a request of 0 Hz gives 0x00, the smallest
/// setting, and any request of at least 380_859 Hz (the largest deviation,
/// 26 MHz * 15 * 2^7 / 2^17, rounded down) gives 0x77, the largest.
pub proof fn lemma_deviatn_ends(b: u32)
    ensures
        deviatn_value(0) == 0x00,
        b >= 380_859 ==> deviatn_value(b) == 0x77,
{
    lemma_best_deviation_exists(0);
    let (e0, m0) = choose|e: nat, m: nat| is_best_deviation(0, e, m);
    assert(is_best_deviation(0, e0, m0));
    if e0 != 0 || m0 != 0 {
        lemma_deviation_increasing(0, 0, e0, m0);
        assert(deviation_error(0, e0, m0) <= deviation_error(0, 0, 0));
    }
    if b >= 380_859 {
        lemma2_to64();
        assert(deviation_actual(7, 7) == 380_859);
        lemma_best_deviation_exists(b);
        let (e1, m1) = choose|e: nat, m: nat| is_best_deviation(b, e, m);
        assert(is_best_deviation(b, e1, m1));
        if e1 != 7 || m1 != 7 {
            lemma_deviation_increasing(e1, m1, 7, 7);
            assert(deviation_error(b, e1, m1) <= deviation_error(b, 7, 7));
        }
    }
}

/// The MOD_FORMAT code of each modulation is the datasheet's: 2-FSK 000,
/// GFSK 001, ASK/OOK 011, 4-FSK 100, MSK 111; with bit 7 set and the sync
/// field clear, MDMCFG2 reads 0x80, 0x90, 0xB0, 0xC0 and 0xF0.
pub proof fn lemma_mod_format_codes()
    ensures
        Modulation::Fsk2.mod_format() == 0,
        Modulation::Gfsk.mod_format() == 1,
        Modulation::Ook.mod_format() == 3,
        Modulation::Fsk4.mod_format() == 4,
        Modulation::Msk.mod_format() == 7,
        mdmcfg2_value(Modulation::Fsk2, SyncMode::NoSync) == 0x80,
        mdmcfg2_value(Modulation::Gfsk, SyncMode::NoSync) == 0x90,
        mdmcfg2_value(Modulation::Ook, SyncMode::NoSync) == 0xB0,
        mdmcfg2_value(Modulation::Fsk4, SyncMode::NoSync) == 0xC0,
        mdmcfg2_value(Modulation::Msk, SyncMode::NoSync) == 0xF0,
{
}

/// The SYNC_MODE code of each sync mode is the datasheet's: none 000,
/// 15/16 001, 16/16 010, 30/32 011, carrier sense alone 100, and the three
/// sync modes with carrier sense 101, 110 and 111; with 2-FSK, MDMCFG2 reads
/// 0x80 to 0x87 in that order.
pub proof fn lemma_sync_field_codes()
    ensures
        SyncMode::NoSync.sync_field() == 0,
        SyncMode::Match15of16.sync_field() == 1,
        SyncMode::Match16of16.sync_field() == 2,
        SyncMode::Match30of32.sync_field() == 3,
        SyncMode::CarrierSense.sync_field() == 4,
        SyncMode::Match15of16AndCs.sync_field() == 5,
        SyncMode::Match16of16AndCs.sync_field() == 6,
        SyncMode::Match30of32AndCs.sync_field() == 7,
        mdmcfg2_value(Modulation::Fsk2, SyncMode::Match15of16) == 0x81,
        mdmcfg2_value(Modulation::Fsk2, SyncMode::Match16of16) == 0x82,
        mdmcfg2_value(Modulation::Fsk2, SyncMode::Match30of32) == 0x83,
        mdmcfg2_value(Modulation::Fsk2, SyncMode::CarrierSense) == 0x84,
        mdmcfg2_value(Modulation::Fsk2, SyncMode::Match15of16AndCs) == 0x85,
        mdmcfg2_value(Modulation::Fsk2, SyncMode::Match16of16AndCs) == 0x86,
        mdmcfg2_value(Modulation::Fsk2, SyncMode::Match30of32AndCs) == 0x87,
{
}

/// The PA table entries of the 433 MHz power levels are the datasheet's.
pub proof fn lemma_pa_table()
    ensures
        TxPower::DbmMinus30.pa_setting() == 0x12,
        TxPower::DbmMinus20.pa_setting() == 0x0E,
        TxPower::DbmMinus15.pa_setting() == 0x1D,
        TxPower::DbmMinus10.pa_setting() == 0x34,
        TxPower::Dbm0.pa_setting() == 0x60,
        TxPower::Dbm5.pa_setting() == 0x84,
        TxPower::Dbm7.pa_setting() == 0xC8,
        TxPower::Dbm10.pa_setting() == 0xC0,
{
}

/// The default configuration: 433.920 MHz, 38.4 kbps GFSK, 16/16 sync on
/// 0xD391, variable-length packets of up to 61 bytes, status bytes appended,
/// CRC on, 0 dBm, 203 kHz channel filter, channel 0, 20.63 kHz deviation.
pub proof fn lemma_default_values()
    ensures
        ({
            let c = RadioConfig::default_config();
            &&& c.frequency_hz == 433_920_000
            &&& c.baud_rate == 38_400
            &&& c.modulation == Modulation::Gfsk
            &&& c.sync_mode == SyncMode::Match16of16
            &&& c.sync_word == 0xD391
            &&& c.packet_length == PacketLength::Variable(61)
            &&& c.append_status
            &&& c.crc_enable
            &&& c.tx_power == TxPower::Dbm0
            &&& c.channel_bandwidth_khz == 203
            &&& c.channel == 0
            &&& c.deviation_hz == 20_630
        }),
{
}

/// The data rate of any fitting exponent `e` is the target rounded down to
/// a mantissa step: never above the target, and short of it by less than one
/// step of `f_xosc * 2^e / 2^28` (plus the final rounding).
pub proof fn lemma_drate_bracket(target: u32, e: nat)
    requires
        drate_candidate(target, e),
    ensures
        drate_actual(target, e) <= target,
        target * 0x1000_0000 < (drate_actual(target, e) + 1) * 0x1000_0000 + F_XOSC * pow2(e),
{
    let t = target as int;
    let d = F_XOSC as int * pow2(e);
    let q = drate_m_raw(target, e) as int;
    let act = drate_actual(target, e) as int;
    vstd::arithmetic::power2::lemma_pow2_pos(e);
    assert(q == (t * 0x1000_0000) / d);
    vstd::arithmetic::div_mod::lemma_fundamental_div_mod(t * 0x1000_0000, d);
    assert(q * d <= t * 0x1000_0000 < q * d + d) by (nonlinear_arith)
        requires
            d > 0,
            t >= 0,
            q == (t * 0x1000_0000) / d,
    ;
    assert(F_XOSC as int * (256 + drate_mantissa(target, e)) * pow2(e) == q * d) by (
    nonlinear_arith)
        requires
            256 + drate_mantissa(target, e) == q,
            d == F_XOSC as int * pow2(e),
    ;
    assert(act == (q * d) / 0x1000_0000);
    assert(act * 0x1000_0000 <= q * d < (act + 1) * 0x1000_0000) by (nonlinear_arith)
        requires
            q * d >= 0,
            act == (q * d) / 0x1000_0000,
    ;
    assert(act <= t) by (nonlinear_arith)
        requires
            act * 0x1000_0000 <= q * d,
            q * d <= t * 0x1000_0000,
    ;
}

} // verus!
