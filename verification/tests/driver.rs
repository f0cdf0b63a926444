use cc1101_embassy::config::{Modulation, PacketLength, RadioConfig, SyncMode, TxPower};
use cc1101_embassy::driver::rssi_raw_to_dbm;
use cc1101_embassy::rx::{Receiver, RxAction, RxEvent};
use cc1101_embassy::{Cc1101, Command, Error};

type Radio = Cc1101<(), (), ()>;

#[test]
fn rssi_positive_raw() {
    // raw=0x72 (114 decimal): 114/2 - 74 = -17 dBm
    assert_eq!(rssi_raw_to_dbm(0x72), -17);
}

#[test]
fn rssi_negative_raw() {
    // raw=0xEC (236 decimal): (236-256)/2 - 74 = -10 - 74 = -84 dBm
    assert_eq!(rssi_raw_to_dbm(0xEC), -84);
}

#[test]
fn rssi_boundary_128() {
    // raw=0x80 (128): (128-256)/2 - 74 = -64 - 74 = -138 dBm (noise floor)
    assert_eq!(rssi_raw_to_dbm(0x80), -138);
}

#[test]
fn rssi_zero() {
    // raw=0x00: 0/2 - 74 = -74 dBm
    assert_eq!(rssi_raw_to_dbm(0x00), -74);
}

// ---- bus transcripts ---------------------------------------------------------

/// The bytes each command writes, in order.
fn written(cmds: &[Command]) -> Vec<Vec<u8>> {
    cmds.iter().map(|c| c.header_bytes()).collect()
}

/// Expected writes for applying `config`, derived from its public fields.
fn configure_writes(config: &RadioConfig) -> Vec<Vec<u8>> {
    let freq_word = (config.frequency_hz as u64 * (1 << 16)) / 26_000_000u64;
    let freq2 = ((freq_word >> 16) & 0xFF) as u8;
    let freq1 = ((freq_word >> 8) & 0xFF) as u8;
    let freq0 = (freq_word & 0xFF) as u8;

    let (mdmcfg4, mdmcfg3) = {
        let target = config.baud_rate as u64;
        let mut best_e = 0u8;
        let mut best_m = 0u8;
        let mut best_err = u64::MAX;
        for e in 0u8..16 {
            let m_raw = (target * (1u64 << 28)) / (26_000_000u64 * (1u64 << e));
            if m_raw < 256 || m_raw > 511 {
                continue;
            }
            let m = (m_raw - 256) as u8;
            let actual = 26_000_000u64 * (256 + m as u64) * (1u64 << e) / (1u64 << 28);
            let err = target.abs_diff(actual);
            if err < best_err {
                best_err = err;
                best_e = e;
                best_m = m;
            }
        }
        let bw_bits: u8 = match config.channel_bandwidth_khz {
            0..=58 => 0b1111,
            59..=67 => 0b1110,
            68..=81 => 0b1101,
            82..=101 => 0b1100,
            102..=116 => 0b1011,
            117..=135 => 0b1010,
            136..=162 => 0b1001,
            163..=203 => 0b1000,
            204..=232 => 0b0111,
            233..=270 => 0b0110,
            271..=325 => 0b0101,
            326..=406 => 0b0100,
            407..=464 => 0b0011,
            465..=541 => 0b0010,
            542..=650 => 0b0001,
            _ => 0b0000,
        };
        ((bw_bits << 4) | (best_e & 0x0F), best_m)
    };

    let mod_bits: u8 = match config.modulation {
        Modulation::Fsk2 => 0b000,
        Modulation::Gfsk => 0b001,
        Modulation::Ook => 0b011,
        Modulation::Fsk4 => 0b100,
        Modulation::Msk => 0b111,
    };
    let sync_bits: u8 = match config.sync_mode {
        SyncMode::NoSync => 0b000,
        SyncMode::Match15of16 => 0b001,
        SyncMode::Match16of16 => 0b010,
        SyncMode::Match30of32 => 0b011,
        SyncMode::CarrierSense => 0b100,
        SyncMode::Match15of16AndCs => 0b101,
        SyncMode::Match16of16AndCs => 0b110,
        SyncMode::Match30of32AndCs => 0b111,
    };
    let mdmcfg2 = 0x80 | (mod_bits << 4) | sync_bits;

    let deviatn = {
        let target = config.deviation_hz as u64;
        let mut best_e = 0u8;
        let mut best_m = 0u8;
        let mut best_err = u64::MAX;
        for e in 0u8..8 {
            for m in 0u8..8 {
                let actual = 26_000_000u64 * (8 + m as u64) * (1u64 << e) / (1u64 << 17);
                let err = target.abs_diff(actual);
                if err < best_err {
                    best_err = err;
                    best_e = e;
                    best_m = m;
                }
            }
        }
        (best_e << 4) | best_m
    };

    let (pktlen, len_config) = match config.packet_length {
        PacketLength::Fixed(n) => (n, 0b00u8),
        PacketLength::Variable(n) => (n, 0b01u8),
    };
    let crc_bit = if config.crc_enable { 0b0100 } else { 0b0000 };
    let pktctrl0 = crc_bit | len_config;
    let pktctrl1 = if config.append_status { 0x04 } else { 0x00 };

    let patable = match config.tx_power {
        TxPower::DbmMinus30 => 0x12u8,
        TxPower::DbmMinus20 => 0x0E,
        TxPower::DbmMinus15 => 0x1D,
        TxPower::DbmMinus10 => 0x34,
        TxPower::Dbm0 => 0x60,
        TxPower::Dbm5 => 0x84,
        TxPower::Dbm7 => 0xC8,
        TxPower::Dbm10 => 0xC0,
    };

    let w = |addr: u8, val: u8| vec![addr & 0x3F, val];
    vec![
        vec![0x36],
        w(0x0D, freq2),
        w(0x0E, freq1),
        w(0x0F, freq0),
        w(0x10, mdmcfg4),
        w(0x11, mdmcfg3),
        w(0x12, mdmcfg2),
        w(0x04, (config.sync_word >> 8) as u8),
        w(0x05, (config.sync_word & 0xFF) as u8),
        w(0x15, deviatn),
        w(0x06, pktlen),
        w(0x08, pktctrl0),
        w(0x07, pktctrl1),
        w(0x0A, config.channel),
        w(0x22, 0x10),
        vec![0x3E | 0x40, patable],
        w(0x02, 0x06),
        w(0x00, 0x00),
        w(0x1B, 0x43),
        w(0x2C, 0x81),
        w(0x2D, 0x35),
        w(0x2E, 0x09),
        w(0x23, 0xE9),
        w(0x24, 0x2A),
        w(0x25, 0x00),
        w(0x26, 0x1F),
        w(0x18, 0x18),
        w(0x17, 0x00),
    ]
}

fn configured(config: &RadioConfig) -> Radio {
    let mut radio = Radio::from_parts((), (), ());
    radio.set_config(config);
    radio
}

#[test]
fn new_resets_and_verifies_chip_id() {
    let cmds = Radio::identify_commands();
    // SRES strobe, then PARTNUM (0x30 | 0x80 | 0x40) and VERSION (0x31 | 0xC0)
    assert_eq!(written(&cmds), vec![vec![0x30], vec![0xF0], vec![0xF1]]);
    assert_eq!(cmds[1], Command::ReadStatus(0x30));
    assert!(Radio::check_chip_id::<()>(0x00, 0x04).is_ok());
    let radio = Radio::from_parts((), (), ());
    assert!(radio.config().is_none());
}

#[test]
fn new_rejects_wrong_part_number() {
    let result = Radio::check_chip_id::<()>(0x01, 0x04);
    assert!(result.is_err(), "Cc1101::new should reject wrong PARTNUM");
    assert!(matches!(result, Err(Error::InvalidChip { part: 0x01, version: 0x04 })));
}

#[test]
fn new_accepts_version_0x14() {
    assert!(Radio::check_chip_id::<()>(0x00, 0x14).is_ok(), "VERSION 0x14 should be accepted");
    assert!(matches!(
        Radio::check_chip_id::<()>(0x00, 0x05),
        Err(Error::InvalidChip { part: 0x00, version: 0x05 })
    ));
}

#[test]
fn configure_default_writes_correct_register_sequence() {
    let config = RadioConfig::default();
    let cmds = Radio::configure_commands(&config);
    assert_eq!(written(&cmds), configure_writes(&config));
    let radio = configured(&config);
    assert_eq!(radio.config().map(|c| c.packet_length), Some(PacketLength::Variable(61)));
}

#[test]
fn configure_868mhz_writes_correct_freq_registers() {
    let config = RadioConfig::new().frequency_hz(868_000_000);
    let freq_word = (868_000_000u64 * (1 << 16)) / 26_000_000u64;
    assert_eq!((freq_word >> 16) as u8, 0x21);
    assert_eq!(((freq_word >> 8) & 0xFF) as u8, 0x62);
    assert_eq!((freq_word & 0xFF) as u8, 0x76);
    let cmds = Radio::configure_commands(&config);
    assert_eq!(written(&cmds), configure_writes(&config));
    assert_eq!(cmds[1], Command::WriteReg(0x0D, 0x21));
    assert_eq!(cmds[2], Command::WriteReg(0x0E, 0x62));
    assert_eq!(cmds[3], Command::WriteReg(0x0F, 0x76));
}

#[test]
fn configure_other_settings_write_correct_sequence() {
    let config = RadioConfig::new()
        .baud_rate(115_200)
        .modulation(Modulation::Ook)
        .sync_mode(SyncMode::Match30of32AndCs)
        .sync_word(0xABCD)
        .packet_length(PacketLength::Fixed(16))
        .crc_enable(false)
        .append_status(false)
        .tx_power(TxPower::Dbm10)
        .channel(3)
        .deviation_hz(47_607);
    let cmds = Radio::configure_commands(&config);
    assert_eq!(written(&cmds), configure_writes(&config));
    assert_eq!(cmds[11], Command::WriteReg(0x08, 0x00));
    assert_eq!(cmds[12], Command::WriteReg(0x07, 0x00));
}

#[test]
fn transmit_writes_fifo_and_waits_for_gdo0() {
    let config = RadioConfig::default();
    let payload: &[u8] = b"PING\x01";
    let radio = configured(&config);
    let cmds = radio.transmit_commands::<()>(payload.len()).expect("transmit should succeed");
    assert_eq!(
        cmds,
        vec![
            Command::Strobe(0x36),
            Command::Strobe(0x3B),
            Command::WriteReg(0x3F, 5),
            Command::WriteBurst(0x3F),
            Command::Strobe(0x35),
            Command::WaitHigh,
            Command::WaitLow,
        ]
    );
    assert_eq!(
        written(&cmds),
        vec![vec![0x36], vec![0x3B], vec![0x3F, 5], vec![0x7F], vec![0x35], vec![], vec![]]
    );
}

#[test]
fn transmit_rejects_payload_too_long() {
    let radio = configured(&RadioConfig::default()); // variable mode, max 61 bytes
    let result = radio.transmit_commands::<()>(62);
    assert!(result.is_err(), "62-byte payload should be rejected");
    assert!(matches!(result, Err(Error::PayloadTooLong)));
    assert!(radio.transmit_commands::<()>(61).is_ok());
}

#[test]
fn transmit_fixed_length_sends_no_length_byte() {
    let radio = configured(&RadioConfig::new().packet_length(PacketLength::Fixed(5)));
    let cmds = radio.transmit_commands::<()>(5).unwrap();
    assert_eq!(
        cmds,
        vec![
            Command::Strobe(0x36),
            Command::Strobe(0x3B),
            Command::WriteBurst(0x3F),
            Command::Strobe(0x35),
            Command::WaitHigh,
            Command::WaitLow,
        ]
    );
    assert!(matches!(radio.transmit_commands::<()>(6), Err(Error::PayloadTooLong)));
}

#[test]
fn transmit_before_configure_uses_variable_61() {
    let radio = Radio::from_parts((), (), ());
    let cmds = radio.transmit_commands::<()>(61).unwrap();
    assert_eq!(cmds[2], Command::WriteReg(0x3F, 61));
    assert!(radio.transmit_commands::<()>(62).is_err());
}

/// Runs a receiver against scripted chip replies; returns the commands it
/// issued (after SRX) and its result.
fn drive(
    rx: &mut Receiver,
    replies: &[u8],
) -> (Vec<Command>, Result<cc1101_embassy::ReceivedPacket, Error<()>>) {
    drive_into(rx, replies, &[], &mut [])
}

/// Like `drive`, with a scripted RX FIFO payload: each burst read copies the
/// payload's first `len` bytes into the start of `buf`, as the bus does
/// (an empty `buf` records nothing).
fn drive_into(
    rx: &mut Receiver,
    replies: &[u8],
    fifo: &[u8],
    buf: &mut [u8],
) -> (Vec<Command>, Result<cc1101_embassy::ReceivedPacket, Error<()>>) {
    let mut issued = Vec::new();
    let mut replies = replies.iter();
    let mut ev = RxEvent::Completed;
    loop {
        match rx.step::<()>(ev) {
            RxAction::Issue(cmd) => {
                issued.push(cmd);
                ev = match cmd {
                    Command::ReadReg(_) | Command::ReadStatus(_) => RxEvent::Byte(*replies.next().unwrap()),
                    Command::ReadBurst(_, len) => {
                        if !buf.is_empty() {
                            buf[..len].copy_from_slice(&fifo[..len]);
                        }
                        RxEvent::Completed
                    }
                    _ => RxEvent::Completed,
                };
            }
            RxAction::Finish(r) => return (issued, r),
        }
    }
}

#[test]
fn receive_reads_packet_with_status_bytes() {
    let config = RadioConfig::default();
    let payload = b"PING\x01";
    let rssi_raw: u8 = 0xA0;
    let status_byte: u8 = 0x80 | 42; // CRC ok, LQI=42
    let radio = configured(&config);
    let mut buf = [0u8; 64];
    let (mut rx, first) = Receiver::begin(radio.config(), buf.len());
    assert_eq!(first, Command::Strobe(0x34));
    // RXBYTES = payload(5) + length(1) + rssi(1) + status(1) = 8
    let (issued, result) =
        drive_into(&mut rx, &[8, payload.len() as u8, rssi_raw, status_byte], payload, &mut buf);
    assert_eq!(
        issued,
        vec![
            Command::WaitHigh,
            Command::WaitLow,
            Command::ReadStatus(0x3B),
            Command::ReadReg(0x3F),
            Command::ReadBurst(0x3F, 5),
            Command::ReadReg(0x3F),
            Command::ReadReg(0x3F),
        ]
    );
    assert_eq!(
        written(&issued),
        vec![vec![], vec![], vec![0xFB], vec![0xBF], vec![0xFF], vec![0xBF], vec![0xBF]]
    );
    let pkt = result.expect("receive should succeed");
    assert_eq!(pkt.len, payload.len());
    assert_eq!(&buf[..pkt.len], payload);
    assert_eq!(pkt.lqi, 42);
    assert!(pkt.crc_ok);
    assert_eq!(pkt.rssi_dbm, -122);
}

#[test]
fn receive_returns_crc_error_when_crc_bit_clear() {
    let radio = configured(&RadioConfig::default()); // crc_enable=true
    let (mut rx, _) = Receiver::begin(radio.config(), 64);
    // RXBYTES 7, length 4, RSSI 0x80, status 0x1E (CRC bit clear)
    let (issued, result) = drive(&mut rx, &[7, 4, 0x80, 0x1E]);
    // both status bytes are read before the error
    assert_eq!(
        issued,
        vec![
            Command::WaitHigh,
            Command::WaitLow,
            Command::ReadStatus(0x3B),
            Command::ReadReg(0x3F),
            Command::ReadBurst(0x3F, 4),
            Command::ReadReg(0x3F),
            Command::ReadReg(0x3F),
        ]
    );
    assert_eq!(
        written(&issued),
        vec![vec![], vec![], vec![0xFB], vec![0xBF], vec![0xFF], vec![0xBF], vec![0xBF]]
    );
    assert!(result.is_err(), "CRC failure should return error");
    assert!(matches!(result, Err(Error::CrcError)));
}

#[test]
fn receive_crc_failure_accepted_when_crc_disabled() {
    let radio = configured(&RadioConfig::new().crc_enable(false));
    let (mut rx, _) = Receiver::begin(radio.config(), 64);
    let (_, result) = drive(&mut rx, &[7, 4, 0x50, 0x1E]);
    let pkt = result.unwrap();
    assert!(!pkt.crc_ok);
    assert_eq!(pkt.lqi, 0x1E);
    assert_eq!(pkt.rssi_dbm, -34);
}

#[test]
fn receive_overflow_flushes_and_idles() {
    let (mut rx, _) = Receiver::begin(Some(RadioConfig::default()), 64);
    let (issued, result) = drive(&mut rx, &[0x80 | 12]);
    assert_eq!(
        issued,
        vec![
            Command::WaitHigh,
            Command::WaitLow,
            Command::ReadStatus(0x3B),
            Command::Strobe(0x3A),
            Command::Strobe(0x36),
        ]
    );
    assert!(matches!(result, Err(Error::RxFifoOverflow)));
}

#[test]
fn receive_empty_fifo_is_unexpected_state() {
    let (mut rx, _) = Receiver::begin(None, 64);
    // RXBYTES reads 0; MARCSTATE then reads IDLE (0x01)
    let (issued, result) = drive(&mut rx, &[0, 0x01]);
    assert_eq!(
        issued,
        vec![
            Command::WaitHigh,
            Command::WaitLow,
            Command::ReadStatus(0x3B),
            Command::ReadStatus(0x35),
        ]
    );
    assert_eq!(written(&issued[3..]), vec![vec![0xF5]]);
    assert!(matches!(result, Err(Error::UnexpectedState { state: 0x01 })));
}

#[test]
fn receive_wait_failure_is_unexpected_state() {
    let (mut rx, _) = Receiver::begin(None, 64);
    assert!(matches!(rx.step::<()>(RxEvent::Completed), RxAction::Issue(Command::WaitHigh)));
    assert!(matches!(
        rx.step::<()>(RxEvent::WaitFailed),
        RxAction::Issue(Command::ReadStatus(0x35))
    ));
    assert!(matches!(
        rx.step::<()>(RxEvent::Byte(0x0D)),
        RxAction::Finish(Err(Error::UnexpectedState { state: 0x0D }))
    ));
    // once finished, a further event asks for the chip's state again
    assert!(matches!(
        rx.step::<()>(RxEvent::Completed),
        RxAction::Issue(Command::ReadStatus(0x35))
    ));
    assert!(matches!(
        rx.step::<()>(RxEvent::Byte(0x01)),
        RxAction::Finish(Err(Error::UnexpectedState { state: 0x01 }))
    ));
}

#[test]
fn receive_end_of_packet_wait_failure_reads_state() {
    let (mut rx, _) = Receiver::begin(Some(RadioConfig::default()), 64);
    assert!(matches!(rx.step::<()>(RxEvent::Completed), RxAction::Issue(Command::WaitHigh)));
    assert!(matches!(rx.step::<()>(RxEvent::Completed), RxAction::Issue(Command::WaitLow)));
    assert!(matches!(
        rx.step::<()>(RxEvent::WaitFailed),
        RxAction::Issue(Command::ReadStatus(0x35))
    ));
    assert!(matches!(
        rx.step::<()>(RxEvent::Byte(0x11)),
        RxAction::Finish(Err(Error::UnexpectedState { state: 0x11 }))
    ));
}

#[test]
fn receive_caps_payload_at_buffer_length() {
    let (mut rx, _) = Receiver::begin(None, 3);
    let (issued, result) = drive(&mut rx, &[10, 7, 0x00, 0x80]);
    assert_eq!(issued[4], Command::ReadBurst(0x3F, 3));
    assert_eq!(result.unwrap().len, 3);
}

#[test]
fn receive_fixed_length_without_status() {
    let config = RadioConfig::new().packet_length(PacketLength::Fixed(5)).append_status(false);
    let (mut rx, _) = Receiver::begin(Some(config), 64);
    let (issued, result) = drive(&mut rx, &[5]);
    assert_eq!(
        issued,
        vec![Command::WaitHigh, Command::WaitLow, Command::ReadStatus(0x3B), Command::ReadBurst(0x3F, 5)]
    );
    let pkt = result.unwrap();
    assert_eq!(pkt.len, 5);
    assert_eq!(pkt.rssi_dbm, 0);
    assert_eq!(pkt.lqi, 0);
    assert!(pkt.crc_ok);
}

#[test]
fn read_rssi_converts_raw_value_correctly() {
    // start_rx strobes SRX; read_rssi reads STATUS_RSSI (0x34 | 0xC0 = 0xF4)
    assert_eq!(Command::Strobe(0x34).header_bytes(), vec![0x34]);
    assert_eq!(Command::ReadStatus(0x34).header_bytes(), vec![0xF4]);
    // raw = 0x50 = 80 -> (80/2) - 74 = -34 dBm
    assert_eq!(Radio::rssi_dbm(0x50), -34);
}

#[test]
fn rssi_range_and_odd_negative_values() {
    assert_eq!(rssi_raw_to_dbm(0xFF), -74); // (255-256)/2 rounds toward zero
    assert_eq!(rssi_raw_to_dbm(0x7F), -11);
    for raw in 0..=255u8 {
        let dbm = rssi_raw_to_dbm(raw);
        assert!((-138..=-11).contains(&dbm));
    }
}

#[test]
fn packet_registers_for_each_mode() {
    let v = RadioConfig::new();
    assert_eq!(Radio::packet_registers(&v), (61, 0b0101));
    let f = RadioConfig::new().packet_length(PacketLength::Fixed(16)).crc_enable(false);
    assert_eq!(Radio::packet_registers(&f), (16, 0b0000));
}

#[test]
fn header_flags() {
    assert_eq!(Command::WriteReg(0x7F, 9).header_bytes(), vec![0x3F, 9]);
    assert_eq!(Command::ReadReg(0x3F).header_bytes(), vec![0xBF]);
    assert_eq!(Command::WriteBurst(0x3F).header_bytes(), vec![0x7F]);
    assert_eq!(Command::ReadBurst(0x3F, 4).header_bytes(), vec![0xFF]);
    assert_eq!(Command::WritePatable(0x60).header_bytes(), vec![0x7E, 0x60]);
}

#[test]
fn spi_error_converts_into_error() {
    let e: Error<u32> = Error::from(7u32);
    assert!(matches!(e, Error::Spi(7)));
}

#[test]
fn transmit_variable_limit_is_61_with_status_bytes() {
    let radio = configured(&RadioConfig::new().packet_length(PacketLength::Variable(63)));
    assert!(matches!(radio.transmit_commands::<()>(62), Err(Error::PayloadTooLong)));
    assert!(radio.transmit_commands::<()>(61).is_ok());
    let small = configured(&RadioConfig::new().packet_length(PacketLength::Variable(20)));
    assert!(small.transmit_commands::<()>(20).is_ok());
    assert!(matches!(small.transmit_commands::<()>(21), Err(Error::PayloadTooLong)));
}

#[test]
fn transmit_variable_limit_is_63_without_status_bytes() {
    let radio = configured(
        &RadioConfig::new().packet_length(PacketLength::Variable(255)).append_status(false),
    );
    assert!(radio.transmit_commands::<()>(63).is_ok());
    assert!(matches!(radio.transmit_commands::<()>(64), Err(Error::PayloadTooLong)));
}

#[test]
fn single_commands() {
    assert_eq!(Radio::start_rx_command(), Command::Strobe(0x34));
    assert_eq!(Radio::idle_command(), Command::Strobe(0x36));
    assert_eq!(Radio::read_rssi_command(), Command::ReadStatus(0x34));
    assert_eq!(Radio::read_rssi_command().header_bytes(), vec![0xF4]);
    assert_eq!(Radio::wait_failure_command(), Command::ReadStatus(0x35));
    assert!(matches!(Radio::wait_failure_error::<()>(0x13), Error::UnexpectedState { state: 0x13 }));
}

#[test]
fn failed_configure_keeps_previous_config() {
    let first = RadioConfig::new().channel(1);
    let second = RadioConfig::new().channel(2);
    let mut radio = Radio::from_parts((), (), ());
    assert!(radio.finish_configure::<u8>(&first, Ok(())).is_ok());
    assert_eq!(radio.config().map(|c| c.channel), Some(1));
    let r = radio.finish_configure::<u8>(&second, Err(Error::Spi(9)));
    assert!(matches!(r, Err(Error::Spi(9))));
    assert_eq!(radio.config().map(|c| c.channel), Some(1));
    let mut fresh = Radio::from_parts((), (), ());
    assert!(fresh.finish_configure::<u8>(&second, Err(Error::UnexpectedState { state: 1 })).is_err());
    assert!(fresh.config().is_none());
}
