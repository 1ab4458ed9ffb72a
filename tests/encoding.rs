use rfm69::encoding::{
    be16_bytes, be24_bytes, bit_rate_register, dio_register, fdev_register, frequency_register,
    packet_config1, packet_config2, sync_config,
};
use rfm69::registers::{
    DataMode, DioMapping, DioMode, DioPin, DioType, InterPacketRxDelay, Mode, Modulation,
    ModulationShaping, ModulationType, PacketConfig, PacketDc, PacketFiltering, PacketFormat,
    Registers,
};

#[test]
fn bit_rate_rounds_to_nearest() {
    assert_eq!(bit_rate_register(1200), 26667);
    assert_eq!(bit_rate_register(4800), 6667);
    assert_eq!(bit_rate_register(250_000), 128);
    assert_eq!(bit_rate_register(15_000), 2133);
}

#[test]
fn bit_rate_decodes_within_half_a_unit() {
    for b in [600u32, 1200, 9600, 38_400, 55_555, 100_000, 300_000] {
        let reg = bit_rate_register(b) as i64;
        let err = 32_000_000i64 - reg * b as i64;
        assert!(2 * err.abs() <= b as i64, "bit rate {}", b);
    }
}

#[test]
fn bit_rate_wraps_when_the_divisor_overflows() {
    assert_eq!(bit_rate_register(1), (32_000_000u32 % 65536) as u16);
}

#[test]
fn frequency_word_is_rounded_frequency_over_step() {
    assert_eq!(frequency_register(915_000_000), 0xE4_C000);
    assert_eq!(frequency_register(433_850_000), 7_108_198);
    assert_eq!(frequency_register(868_000_000), 0xD9_0000);
    assert_eq!(be24_bytes(0xE4_C000), [0xE4, 0xC0, 0x00]);
}

#[test]
fn frequency_rederived_within_half_a_step() {
    for f in [433_000_000u32, 433_850_000, 868_300_000, 915_123_457] {
        let w = frequency_register(f) as i128;
        let err = w * 32_000_000 - f as i128 * 524_288;
        assert!(2 * err.abs() <= 32_000_000, "frequency {}", f);
    }
}

#[test]
fn frequency_word_wraps_to_24_bits() {
    let f: u32 = 4_000_000_000;
    let full = (f as u64 * 524_288 * 2 + 32_000_000) / 64_000_000;
    assert_eq!(frequency_register(f) as u64, full % 0x100_0000);
}

#[test]
fn fdev_is_rounded() {
    assert_eq!(fdev_register(5000), 82);
    assert_eq!(fdev_register(50_000), 819);
    assert_eq!(be16_bytes(0x1234), [0x12, 0x34]);
}

#[test]
fn sync_config_holds_enable_bit_and_length() {
    for len in 1usize..=8 {
        let b = sync_config(len);
        assert_eq!(b & 0x80, 0x80);
        assert_eq!((b >> 3) & 0x07, (len - 1) as u8);
        assert_eq!(b & 0x47, 0);
    }
}

#[test]
fn packet_config_bytes() {
    let p = PacketConfig {
        format: PacketFormat::Variable(66),
        dc: PacketDc::Whitening,
        filtering: PacketFiltering::Broadcast,
        crc: true,
        interpacket_rx_delay: InterPacketRxDelay::Delay2Bits,
        auto_rx_restart: true,
    };
    assert_eq!(packet_config1(p), [0x80 | 0x40 | 0x04 | 0x10, 66]);
    assert_eq!(packet_config2(p), 0x12);
    let q = PacketConfig {
        format: PacketFormat::Fixed(0),
        dc: PacketDc::Off,
        filtering: PacketFiltering::Off,
        crc: false,
        interpacket_rx_delay: InterPacketRxDelay::Delay2048Bits,
        auto_rx_restart: false,
    };
    assert_eq!(packet_config1(q), [0x00, 0]);
    assert_eq!(packet_config2(q), 0xB0);
}

#[test]
fn modulation_byte() {
    let m = Modulation {
        data_mode: DataMode::Packet,
        modulation_type: ModulationType::Ook,
        shaping: ModulationShaping::Shaping01,
    };
    assert_eq!(m.value(), 0x09);
}

#[test]
fn dio_word_keeps_only_mappings_of_the_mode() {
    let mut slots: [Option<DioMapping>; 6] = [None; 6];
    slots[2] = Some(DioMapping { pin: DioPin::Dio2, dio_type: DioType::Dio01, dio_mode: DioMode::Rx });
    slots[3] = Some(DioMapping { pin: DioPin::Dio3, dio_type: DioType::Dio11, dio_mode: DioMode::Rx });
    slots[0] = Some(DioMapping { pin: DioPin::Dio0, dio_type: DioType::Dio10, dio_mode: DioMode::Tx });
    assert_eq!(dio_register(Mode::Receiver, &slots), 0x07 | (1 << 10) | (3 << 8));
    assert_eq!(dio_register(Mode::Transmitter, &slots), 0x07 | (2 << 14));
    assert_eq!(dio_register(Mode::Standby, &slots), 0x07);
}

#[test]
fn dio_word_of_no_mapping_is_clock_off() {
    assert_eq!(dio_register(Mode::Sleep, &[None; 6]), 0x0007);
}

#[test]
fn register_addresses() {
    assert_eq!(Registers::OpMode.addr(), 0x01);
    assert_eq!(Registers::DioMapping1.addr(), 0x25);
    assert_eq!(Registers::SyncValue8.addr(), 0x36);
    assert_eq!(Registers::AesKey16.addr(), 0x4D);
    assert_eq!(Registers::Temp2.addr(), 0x4F);
    assert_eq!(Registers::Fifo.write_address(), 0x80);
    assert_eq!(Registers::IrqFlags2.read_address(), 0x28);
}
