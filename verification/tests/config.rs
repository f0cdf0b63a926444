use cc1101_embassy::config::{Modulation, PacketLength, RadioConfig, SyncMode, TxPower};

#[test]
fn freq_registers_433mhz() {
    let cfg = RadioConfig::new().frequency_hz(433_920_000);
    let (f2, f1, f0) = cfg.freq_registers();
    // 433.92 MHz -> FREQ = 433_920_000 * 65536 / 26_000_000 = 0x10B071
    assert_eq!(f2, 0x10, "FREQ2");
    assert_eq!(f1, 0xB0, "FREQ1");
    assert_eq!(f0, 0x71, "FREQ0");
}

#[test]
fn freq_registers_868mhz() {
    let cfg = RadioConfig::new().frequency_hz(868_000_000);
    let (f2, f1, f0) = cfg.freq_registers();
    // 868 MHz -> FREQ = 868_000_000 * 65536 / 26_000_000 = 0x216276
    assert_eq!(f2, 0x21, "FREQ2");
    assert_eq!(f1, 0x62, "FREQ1");
    assert_eq!(f0, 0x76, "FREQ0");
}

#[test]
fn baud_rate_38400() {
    let cfg = RadioConfig::new().baud_rate(38_400);
    let (_mdmcfg4, mdmcfg3) = cfg.baud_rate_registers();
    // DRATE_E=10, DRATE_M=131 -> 38383.5 bps (0.04% error)
    assert_eq!(mdmcfg3, 131, "DRATE_M for 38.4 kbps");
}

#[test]
fn baud_rate_9600() {
    let cfg = RadioConfig::new().baud_rate(9_600);
    let (_mdmcfg4, mdmcfg3) = cfg.baud_rate_registers();
    // DRATE_E=8, DRATE_M=131 -> 9595.9 bps (0.04% error)
    assert_eq!(mdmcfg3, 131, "DRATE_M for 9.6 kbps");
}

#[test]
fn mdmcfg2_gfsk_16of16() {
    let cfg = RadioConfig::new()
        .modulation(Modulation::Gfsk)
        .sync_mode(SyncMode::Match16of16);
    // Bit 7: DC block on, bits [6:4]: GFSK = 001, bits [2:0]: 16/16 = 010
    assert_eq!(cfg.mdmcfg2(), 0b1001_0010);
}

#[test]
fn mdmcfg2_ook_no_sync() {
    let cfg = RadioConfig::new()
        .modulation(Modulation::Ook)
        .sync_mode(SyncMode::NoSync);
    // Bit 7: DC block on, bits [6:4]: OOK = 011, bits [2:0]: none = 000
    assert_eq!(cfg.mdmcfg2(), 0b1011_0000);
}

#[test]
fn deviation_register_20khz() {
    let cfg = RadioConfig::new().deviation_hz(20_630);
    let dev = cfg.deviation_register();
    // Should be non-zero and in a sensible range
    assert_ne!(dev, 0);
    // E is in upper nibble [6:4], M is in lower [2:0]
    let e = (dev >> 4) & 0x07;
    let m = dev & 0x07;
    let actual = 26_000_000u32 * (8 + m as u32) * (1u32 << e) / (1u32 << 17);
    let err = (actual as i32 - 20_630i32).unsigned_abs();
    assert!(err < 2_000, "deviation error too large: {} Hz off", err);
}

// ---- further cases ------------------------------------------------------------

#[test]
fn default_and_new_agree() {
    let a = RadioConfig::new();
    let b = RadioConfig::default();
    assert_eq!(a.frequency_hz, 433_920_000);
    assert_eq!(a.baud_rate, 38_400);
    assert_eq!(a.modulation, Modulation::Gfsk);
    assert_eq!(a.sync_mode, SyncMode::Match16of16);
    assert_eq!(a.sync_word, 0xD391);
    assert_eq!(a.packet_length, PacketLength::Variable(61));
    assert!(a.append_status);
    assert!(a.crc_enable);
    assert_eq!(a.tx_power, TxPower::Dbm0);
    assert_eq!(a.channel_bandwidth_khz, 203);
    assert_eq!(a.channel, 0);
    assert_eq!(a.deviation_hz, 20_630);
    assert_eq!(b.frequency_hz, a.frequency_hz);
    assert_eq!(b.packet_length, a.packet_length);
    assert_eq!(b.deviation_hz, a.deviation_hz);
}

#[test]
fn builders_change_only_their_field() {
    let base = RadioConfig::new();
    let c = base
        .sync_word(0x1234)
        .packet_length(PacketLength::Fixed(16))
        .crc_enable(false)
        .append_status(false)
        .tx_power(TxPower::Dbm10)
        .channel(7)
        .baud_rate(4_800);
    assert_eq!(c.sync_word, 0x1234);
    assert_eq!(c.packet_length, PacketLength::Fixed(16));
    assert!(!c.crc_enable);
    assert!(!c.append_status);
    assert_eq!(c.tx_power, TxPower::Dbm10);
    assert_eq!(c.channel, 7);
    assert_eq!(c.baud_rate, 4_800);
    // untouched fields keep their defaults
    assert_eq!(c.frequency_hz, base.frequency_hz);
    assert_eq!(c.modulation, base.modulation);
    assert_eq!(c.sync_mode, base.sync_mode);
    assert_eq!(c.channel_bandwidth_khz, base.channel_bandwidth_khz);
    assert_eq!(c.deviation_hz, base.deviation_hz);
}

#[test]
fn freq_bytes_recombine_to_word() {
    for hz in [300_000_000u32, 433_920_000, 868_000_000, 915_000_000, u32::MAX] {
        let (f2, f1, f0) = RadioConfig::new().frequency_hz(hz).freq_registers();
        let word = ((f2 as u64) << 16) | ((f1 as u64) << 8) | f0 as u64;
        assert_eq!(word, hz as u64 * 65536 / 26_000_000);
        assert!(word * 26_000_000 <= hz as u64 * 65536);
        assert!(hz as u64 * 65536 < (word + 1) * 26_000_000);
    }
}

#[test]
fn baud_rate_38400_exponent_and_filter() {
    let (mdmcfg4, mdmcfg3) = RadioConfig::new().baud_rate(38_400).baud_rate_registers();
    // 203 kHz filter -> CHANBW field 0b1000; DRATE_E = 10
    assert_eq!(mdmcfg4, 0x8A);
    assert_eq!(mdmcfg3, 131);
}

#[test]
fn baud_rate_with_no_fitting_exponent() {
    // Below the smallest rate the exponents reach, no mantissa fits.
    let (mdmcfg4, mdmcfg3) = RadioConfig::new().baud_rate(10).baud_rate_registers();
    assert_eq!(mdmcfg4 & 0x0F, 0);
    assert_eq!(mdmcfg3, 0);
    assert_eq!(mdmcfg4 >> 4, 0b1000);
}

#[test]
fn bw_bits_table_edges() {
    assert_eq!(RadioConfig::bw_bits(0), 0b1111);
    assert_eq!(RadioConfig::bw_bits(58), 0b1111);
    assert_eq!(RadioConfig::bw_bits(59), 0b1110);
    assert_eq!(RadioConfig::bw_bits(203), 0b1000);
    assert_eq!(RadioConfig::bw_bits(204), 0b0111);
    assert_eq!(RadioConfig::bw_bits(650), 0b0001);
    assert_eq!(RadioConfig::bw_bits(651), 0b0000);
    assert_eq!(RadioConfig::bw_bits(u32::MAX), 0b0000);
    // a wider request never selects a narrower filter
    let mut last = 0xFF;
    for bw in 0..1000u32 {
        let b = RadioConfig::bw_bits(bw);
        assert!(b <= last);
        last = b;
    }
}

#[test]
fn deviation_default_is_0x35() {
    // E=3, M=5 -> 26e6 * 13 * 8 / 2^17 = 20629 Hz
    assert_eq!(RadioConfig::new().deviation_register(), 0x35);
}

#[test]
fn deviation_is_the_closest_setting() {
    for target in [0u32, 1_000, 5_000, 20_630, 47_607, 100_000, 380_859, 1_000_000] {
        let dev = RadioConfig::new().deviation_hz(target).deviation_register();
        let actual = |e: u64, m: u64| 26_000_000u64 * (8 + m) * (1u64 << e) / (1u64 << 17);
        let chosen = actual((dev >> 4) as u64, (dev & 0x0F) as u64).abs_diff(target as u64);
        for e in 0..8u64 {
            for m in 0..8u64 {
                assert!(chosen <= actual(e, m).abs_diff(target as u64));
            }
        }
    }
}

#[test]
fn mdmcfg2_fields_read_back() {
    let mods = [Modulation::Fsk2, Modulation::Gfsk, Modulation::Ook, Modulation::Fsk4, Modulation::Msk];
    let syncs = [
        SyncMode::NoSync,
        SyncMode::Match15of16,
        SyncMode::Match16of16,
        SyncMode::Match30of32,
        SyncMode::CarrierSense,
        SyncMode::Match15of16AndCs,
        SyncMode::Match16of16AndCs,
        SyncMode::Match30of32AndCs,
    ];
    let mut seen = Vec::new();
    for m in mods {
        for s in syncs {
            let v = RadioConfig::new().modulation(m).sync_mode(s).mdmcfg2();
            assert_eq!(v & 0x80, 0x80);
            assert_eq!(v & 0x08, 0);
            assert_eq!((v >> 4) & 0x07, m.mdmcfg2_bits());
            assert_eq!(v & 0x07, s.mdmcfg2_bits());
            assert!(!seen.contains(&v));
            seen.push(v);
        }
    }
    assert_eq!(Modulation::Msk.mdmcfg2_bits(), 0b111);
    assert_eq!(SyncMode::Match30of32AndCs.mdmcfg2_bits(), 0b111);
}

#[test]
fn patable_bytes() {
    assert_eq!(TxPower::DbmMinus30.patable_byte(), 0x12);
    assert_eq!(TxPower::DbmMinus20.patable_byte(), 0x0E);
    assert_eq!(TxPower::DbmMinus15.patable_byte(), 0x1D);
    assert_eq!(TxPower::DbmMinus10.patable_byte(), 0x34);
    assert_eq!(TxPower::Dbm0.patable_byte(), 0x60);
    assert_eq!(TxPower::Dbm5.patable_byte(), 0x84);
    assert_eq!(TxPower::Dbm7.patable_byte(), 0xC8);
    assert_eq!(TxPower::Dbm10.patable_byte(), 0xC0);
}

#[test]
fn bw_bits_is_narrowest_wide_enough() {
    // whole-kHz bandwidth of each CHANBW setting
    let khz = |f: u8| 26_000_000u32 / (8 * (4 + (f & 3) as u32) * (1 << (f >> 2))) / 1000;
    assert_eq!(khz(0b0000), 812);
    assert_eq!(khz(0b1000), 203);
    assert_eq!(khz(0b1111), 58);
    for bw in 0..1000u32 {
        let f = RadioConfig::bw_bits(bw);
        if bw <= 812 {
            assert!(khz(f) >= bw);
            for g in 0..16u8 {
                if khz(g) >= bw {
                    assert!(khz(g) >= khz(f));
                }
            }
        } else {
            assert_eq!(f, 0);
        }
    }
}

#[test]
fn deviation_register_never_decreases() {
    let mut last = 0u8;
    let mut hz = 0u32;
    while hz <= 400_000 {
        let dev = RadioConfig::new().deviation_hz(hz).deviation_register();
        assert!(dev >= last);
        last = dev;
        hz += 97;
    }
    assert_eq!(RadioConfig::new().deviation_hz(0).deviation_register(), 0x00);
    assert_eq!(RadioConfig::new().deviation_hz(380_859).deviation_register(), 0x77);
    assert_eq!(RadioConfig::new().deviation_hz(u32::MAX).deviation_register(), 0x77);
}
