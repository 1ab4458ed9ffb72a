use std::collections::VecDeque;

use rfm69::registers::{
    DioMapping, DioMode, DioPin, DioType, FifoMode, LnaConfig, LnaGain, LnaImpedance, Mode,
    PacketConfig, PacketDc, PacketFiltering, PacketFormat, InterPacketRxDelay, Registers, RxBw,
    RxBwOok, DccCutoff,
};
use rfm69::registers::{
    ContinuousDagc, DataMode, Modulation, ModulationShaping, ModulationType, Pa13dBm1, Pa13dBm2,
    RxBwFsk, SensitivityBoost,
};
use rfm69::{DelayMs, Error, NoCs, ReadWrite, Rfm69};

#[derive(Debug, Clone, Copy, PartialEq)]
struct BusFault;

#[derive(Debug, Clone, PartialEq)]
enum Op {
    Read(u8, Vec<u8>),
    Write(u8, Vec<u8>),
}

/// A chip stand-in: a register file, a FIFO and the flags the driver polls.
struct Sim {
    regs: [u8; 0x80],
    rx_fifo: VecDeque<u8>,
    tx_fifo: Vec<u8>,
    mode_ready: bool,
    packet_ready: bool,
    packet_sent: bool,
    log: Vec<Op>,
    fail: bool,
}

impl Sim {
    fn new() -> Self {
        Sim {
            regs: [0; 0x80],
            rx_fifo: VecDeque::new(),
            tx_fifo: Vec::new(),
            mode_ready: true,
            packet_ready: true,
            packet_sent: true,
            log: Vec::new(),
            fail: false,
        }
    }

    fn writes_to(&self, reg: Registers) -> Vec<Vec<u8>> {
        self.log
            .iter()
            .filter_map(|op| match op {
                Op::Write(a, d) if *a == reg.addr() => Some(d.clone()),
                _ => None,
            })
            .collect()
    }

    fn reads_of(&self, reg: Registers) -> usize {
        self.log.iter().filter(|op| matches!(op, Op::Read(a, _) if *a == reg.addr())).count()
    }
}

impl ReadWrite for Sim {
    type Error = BusFault;

    fn write_many(&mut self, reg: Registers, data: &[u8]) -> Result<(), BusFault> {
        self.log.push(Op::Write(reg.addr(), data.to_vec()));
        if self.fail {
            return Err(BusFault);
        }
        if reg == Registers::Fifo {
            self.tx_fifo.extend_from_slice(data);
        } else if reg == Registers::IrqFlags2 && data == [0x10] {
            self.tx_fifo.clear();
        } else {
            for (i, b) in data.iter().enumerate() {
                self.regs[reg.addr() as usize + i] = *b;
            }
        }
        Ok(())
    }

    fn read_many(&mut self, reg: Registers, buffer: &mut [u8]) -> Result<(), BusFault> {
        if self.fail {
            self.log.push(Op::Read(reg.addr(), buffer.to_vec()));
            return Err(BusFault);
        }
        for (i, b) in buffer.iter_mut().enumerate() {
            *b = match reg {
                Registers::Fifo => self.rx_fifo.pop_front().unwrap_or(0),
                Registers::IrqFlags1 => {
                    let ready = if self.mode_ready { 0x80 } else { 0x00 };
                    ready | (self.regs[0x27] & 0x7F)
                }
                Registers::IrqFlags2 => {
                    let mut f = 0;
                    if !self.rx_fifo.is_empty() {
                        f |= 0x40;
                    }
                    if self.packet_ready {
                        f |= 0x04;
                    }
                    if self.packet_sent {
                        f |= 0x08;
                    }
                    f
                }
                _ => self.regs[reg.addr() as usize + i],
            };
        }
        self.log.push(Op::Read(reg.addr(), buffer.to_vec()));
        Ok(())
    }
}

#[derive(Default)]
struct CountingDelay {
    calls: usize,
    total_ms: u32,
}

impl DelayMs for CountingDelay {
    fn delay_ms(&mut self, ms: u8) {
        self.calls += 1;
        self.total_ms += ms as u32;
    }
}

type Radio = Rfm69<NoCs, Sim, CountingDelay>;

fn radio(sim: Sim) -> Radio {
    Rfm69::new_without_cs(sim, CountingDelay::default())
}

fn sim_of(r: &Radio) -> &Sim {
    r.bus()
}

#[test]
fn sync_empty_clears_enable_bit_only() {
    let mut sim = Sim::new();
    sim.regs[0x2E] = 0x98;
    sim.regs[0x2F] = 0xAB;
    let mut r = radio(sim);
    r.sync(&[]).unwrap();
    let s = sim_of(&r);
    assert_eq!(s.regs[0x2E], 0x18);
    assert_eq!(s.regs[0x2F], 0xAB);
    assert_eq!(s.writes_to(Registers::SyncValue1).len(), 0);
}

#[test]
fn sync_of_one_to_eight_bytes_sets_length_field() {
    for len in 1..=8usize {
        let word: Vec<u8> = (1..=len as u8).collect();
        let mut r = radio(Sim::new());
        r.sync(&word).unwrap();
        let s = sim_of(&r);
        assert_eq!(s.regs[0x2E], 0x80 | ((len as u8 - 1) << 3));
        assert_eq!(&s.regs[0x2F..0x2F + len], &word[..]);
    }
}

#[test]
fn sync_of_nine_bytes_is_refused_without_bus_traffic() {
    let mut r = radio(Sim::new());
    assert_eq!(r.sync(&[1; 9]), Err(Error::SyncSize));
    assert!(sim_of(&r).log.is_empty());
}

#[test]
fn aes_empty_clears_enable_bit_only() {
    let mut sim = Sim::new();
    sim.regs[0x3D] = 0x13;
    let mut r = radio(sim);
    r.aes(&[]).unwrap();
    let s = sim_of(&r);
    assert_eq!(s.regs[0x3D], 0x12);
    assert_eq!(s.writes_to(Registers::AesKey1).len(), 0);
}

#[test]
fn aes_sixteen_byte_key_enables_and_is_written() {
    let key: Vec<u8> = (0..16).collect();
    let mut sim = Sim::new();
    sim.regs[0x3D] = 0x02;
    let mut r = radio(sim);
    r.aes(&key).unwrap();
    let s = sim_of(&r);
    assert_eq!(s.regs[0x3D], 0x03);
    assert_eq!(&s.regs[0x3E..0x4E], &key[..]);
}

#[test]
fn aes_key_of_five_bytes_is_refused_without_bus_traffic() {
    let mut r = radio(Sim::new());
    assert_eq!(r.aes(&[0; 5]), Err(Error::AesKeySize));
    assert!(sim_of(&r).log.is_empty());
}

#[test]
fn mode_keeps_other_bits_and_rewrites_dio() {
    let mut sim = Sim::new();
    sim.regs[0x01] = 0xE4;
    let mut r = radio(sim);
    r.dio_mapping(DioMapping { pin: DioPin::Dio2, dio_type: DioType::Dio01, dio_mode: DioMode::Rx })
        .unwrap();
    r.dio_mapping(DioMapping { pin: DioPin::Dio0, dio_type: DioType::Dio11, dio_mode: DioMode::Tx })
        .unwrap();
    assert_eq!(sim_of(&r).writes_to(Registers::DioMapping1).last().unwrap(), &vec![0x00, 0x07]);
    r.mode(Mode::Receiver).unwrap();
    let s = sim_of(&r);
    assert_eq!(s.regs[0x01], 0xE0 | 0x10);
    assert_eq!(s.writes_to(Registers::DioMapping1).last().unwrap(), &vec![0x04, 0x07]);
    r.mode(Mode::Transmitter).unwrap();
    let s = sim_of(&r);
    assert_eq!(s.regs[0x01], 0xE0 | 0x0C);
    assert_eq!(s.writes_to(Registers::DioMapping1).last().unwrap(), &vec![0xC0, 0x07]);
}

#[test]
fn clearing_a_mapping_rewrites_dio_at_once() {
    let mut r = radio(Sim::new());
    r.mode(Mode::Receiver).unwrap();
    r.dio_mapping(DioMapping { pin: DioPin::Dio5, dio_type: DioType::Dio10, dio_mode: DioMode::Rx })
        .unwrap();
    assert_eq!(sim_of(&r).writes_to(Registers::DioMapping1).last().unwrap(), &vec![0x00, 0x27]);
    r.clear_dio(DioPin::Dio5).unwrap();
    assert_eq!(sim_of(&r).writes_to(Registers::DioMapping1).last().unwrap(), &vec![0x00, 0x07]);
}

#[test]
fn send_large_refuses_256_bytes_without_bus_traffic() {
    let mut r = radio(Sim::new());
    assert_eq!(r.send_large(&[0u8; 256]), Err(Error::PacketTooLarge));
    assert!(sim_of(&r).log.is_empty());
}

#[test]
fn send_large_writes_length_then_bytes() {
    let payload: Vec<u8> = (0..100).collect();
    let mut r = radio(Sim::new());
    r.send_large(&payload).unwrap();
    let s = sim_of(&r);
    let mut expected = vec![100u8];
    expected.extend_from_slice(&payload);
    assert_eq!(s.tx_fifo, expected);
    assert_eq!(s.regs[0x01] & 0x1C, 0x04);
}

#[test]
fn send_writes_buffer_in_one_transaction() {
    let mut r = radio(Sim::new());
    r.send(&[1, 2, 3]).unwrap();
    let s = sim_of(&r);
    assert_eq!(s.writes_to(Registers::Fifo), vec![vec![1, 2, 3]]);
    assert_eq!(s.tx_fifo, vec![1, 2, 3]);
    assert_eq!(s.regs[0x01] & 0x1C, 0x04);
}

#[test]
fn send_of_nothing_is_a_no_op() {
    let mut r = radio(Sim::new());
    r.send(&[]).unwrap();
    assert!(sim_of(&r).log.is_empty());
}

#[test]
fn send_times_out_when_packet_never_leaves() {
    let mut sim = Sim::new();
    sim.packet_sent = false;
    let mut r = radio(sim);
    assert_eq!(r.send(&[9]), Err(Error::Timeout));
}

#[test]
fn recv_large_drains_an_oversized_packet() {
    let mut sim = Sim::new();
    sim.rx_fifo.push_back(50);
    for i in 0..50u8 {
        sim.rx_fifo.push_back(i);
    }
    sim.rx_fifo.push_back(0xEE);
    let mut r = radio(sim);
    let mut buffer = [0xAAu8; 10];
    assert_eq!(r.recv_large(&mut buffer), Err(Error::BufferTooSmall));
    assert_eq!(buffer, [0xAA; 10]);
    let s = sim_of(&r);
    assert_eq!(s.reads_of(Registers::Fifo), 51);
    assert_eq!(s.rx_fifo, VecDeque::from(vec![0xEE]));
}

#[test]
fn recv_large_reads_the_payload() {
    let mut sim = Sim::new();
    sim.rx_fifo.extend([3u8, 7, 8, 9, 0xEE]);
    sim.regs[0x24] = 80;
    let mut r = radio(sim);
    let mut buffer = [0u8; 5];
    assert_eq!(r.recv_large(&mut buffer), Ok(3));
    assert_eq!(buffer, [7, 8, 9, 0, 0]);
    assert_eq!(r.rssi(), -80);
    assert_eq!(sim_of(&r).regs[0x01] & 0x1C, 0x04);
}

#[test]
fn recv_reads_whole_buffer_and_rssi() {
    let mut sim = Sim::new();
    sim.rx_fifo.extend([1u8, 2, 3, 4]);
    sim.regs[0x24] = 120;
    let mut r = radio(sim);
    let mut buffer = [0u8; 4];
    r.recv(&mut buffer).unwrap();
    assert_eq!(buffer, [1, 2, 3, 4]);
    assert_eq!(r.rssi(), -120);
}

#[test]
fn wait_mode_ready_gives_up_after_21_checks() {
    let mut sim = Sim::new();
    sim.mode_ready = false;
    let mut r = radio(sim);
    assert_eq!(r.wait_mode_ready(), Err(Error::Timeout));
    assert_eq!(sim_of(&r).reads_of(Registers::IrqFlags1), 21);
    assert_eq!(r.delay_source().calls, 20);
    assert_eq!(r.delay_source().total_ms, 100);
}

#[test]
fn wait_mode_ready_with_other_timeout() {
    let mut sim = Sim::new();
    sim.mode_ready = false;
    let mut r = radio(sim);
    r.set_timeout(10, 3);
    assert_eq!(r.wait_mode_ready(), Err(Error::Timeout));
    assert_eq!(sim_of(&r).reads_of(Registers::IrqFlags1), 5);
}

#[test]
fn wait_mode_ready_succeeds_at_once() {
    let mut r = radio(Sim::new());
    assert_eq!(r.wait_mode_ready(), Ok(()));
    assert_eq!(sim_of(&r).reads_of(Registers::IrqFlags1), 1);
    assert_eq!(r.delay_source().calls, 0);
}

#[test]
fn bus_fault_is_reported() {
    let mut sim = Sim::new();
    sim.fail = true;
    let mut r = radio(sim);
    assert_eq!(r.node_address(3), Err(Error::Spi(BusFault)));
}

#[test]
fn simple_setters_write_their_registers() {
    let mut r = radio(Sim::new());
    r.bit_rate(4800).unwrap();
    r.frequency(915_000_000).unwrap();
    r.fdev(5000).unwrap();
    r.preamble(0x0102).unwrap();
    r.node_address(0x11).unwrap();
    r.broadcast_address(0xFF).unwrap();
    r.rssi_threshold(175).unwrap();
    r.fifo_mode(FifoMode::Level(0x85)).unwrap();
    r.rx_bw(RxBw { dcc_cutoff: DccCutoff::Percent4, rx_bw: RxBwOok::Khz200dot0 }).unwrap();
    let s = sim_of(&r);
    assert_eq!(&s.regs[0x03..0x05], &[0x1A, 0x0B]);
    assert_eq!(&s.regs[0x07..0x0A], &[0xE4, 0xC0, 0x00]);
    assert_eq!(&s.regs[0x05..0x07], &[0x00, 82]);
    assert_eq!(&s.regs[0x2C..0x2E], &[0x01, 0x02]);
    assert_eq!(s.regs[0x39], 0x11);
    assert_eq!(s.regs[0x3A], 0xFF);
    assert_eq!(s.regs[0x29], 175);
    assert_eq!(s.regs[0x3C], 0x05);
    assert_eq!(s.regs[0x19], 0x48);
}

#[test]
fn read_modify_write_setters_keep_other_bits() {
    let mut sim = Sim::new();
    sim.regs[0x18] = 0xFF;
    sim.regs[0x3C] = 0x0F;
    sim.regs[0x3D] = 0xFF;
    let mut r = radio(sim);
    r.lna(LnaConfig { zin: LnaImpedance::Ohm200, gain_select: LnaGain::G6 }).unwrap();
    r.fifo_mode(FifoMode::NotEmpty).unwrap();
    r.packet(PacketConfig {
        format: PacketFormat::Fixed(8),
        dc: PacketDc::Manchester,
        filtering: PacketFiltering::Address,
        crc: true,
        interpacket_rx_delay: InterPacketRxDelay::Delay4Bits,
        auto_rx_restart: true,
    })
    .unwrap();
    let s = sim_of(&r);
    assert_eq!(s.regs[0x18], 0x78 | 0x80 | 0x02);
    assert_eq!(s.regs[0x3C], 0x8F);
    assert_eq!(&s.regs[0x37..0x39], &[0x20 | 0x02 | 0x10, 8]);
    assert_eq!(s.regs[0x3D], 0x0D | 0x20 | 0x02);
}

#[derive(Debug, Clone, Copy, PartialEq)]
struct PinFault;

struct BrokenPin;

impl rfm69::ChipSelect for BrokenPin {
    type Error = PinFault;

    fn set_low(&mut self) -> Result<(), PinFault> {
        Err(PinFault)
    }

    fn set_high(&mut self) -> Result<(), PinFault> {
        Ok(())
    }
}

#[test]
fn chip_select_fault_is_reported_before_any_transaction() {
    let mut r = Rfm69::new(Sim::new(), BrokenPin, CountingDelay::default());
    assert_eq!(r.preamble(8), Err(Error::Cs(PinFault)));
    assert!(r.bus().log.is_empty());
}

#[test]
fn test_register_setters() {
    let mut r = radio(Sim::new());
    r.modulation(Modulation {
        data_mode: DataMode::Continuous,
        modulation_type: ModulationType::Fsk,
        shaping: ModulationShaping::Shaping10,
    })
    .unwrap();
    r.sensitivity_boost(SensitivityBoost::HighSensitivity).unwrap();
    r.pa13_dbm1(Pa13dBm1::High20dBm).unwrap();
    r.pa13_dbm2(Pa13dBm2::High20dBm).unwrap();
    r.continuous_dagc(ContinuousDagc::ImprovedMarginAfcLowBetaOn0).unwrap();
    r.rx_afc_bw(RxBw { dcc_cutoff: DccCutoff::Percent1, rx_bw: RxBwFsk::Khz2dot6 })
        .unwrap();
    let s = sim_of(&r);
    assert_eq!(s.regs[0x02], 0x62);
    assert_eq!(s.regs[0x58], 0x2D);
    assert_eq!(s.regs[0x5A], 0x5D);
    assert_eq!(s.regs[0x5C], 0x7C);
    assert_eq!(s.regs[0x6F], 0x30);
    assert_eq!(s.regs[0x1A], 0x80 | 0x17);
}

#[test]
fn irq_flag_queries() {
    let mut sim = Sim::new();
    sim.regs[0x27] = 0x01;
    sim.rx_fifo.push_back(1);
    sim.packet_ready = false;
    let mut r = radio(sim);
    assert_eq!(r.is_sync_address_match(), Ok(true));
    assert_eq!(r.is_fifo_empty(), Ok(false));
    assert_eq!(r.is_fifo_full(), Ok(false));
    assert_eq!(r.is_packet_ready(), Ok(false));
}

#[test]
fn read_all_regs_reads_from_op_mode() {
    let mut sim = Sim::new();
    sim.regs[0x01] = 0x04;
    sim.regs[0x4F] = 0x99;
    let mut r = radio(sim);
    let all = r.read_all_regs().unwrap();
    assert_eq!(all[0], 0x04);
    assert_eq!(all[78], 0x99);
    assert_eq!(sim_of(&r).log.len(), 1);
}

struct CountingPin {
    calls: usize,
}

impl rfm69::ChipSelect for CountingPin {
    type Error = PinFault;

    fn set_low(&mut self) -> Result<(), PinFault> {
        self.calls += 1;
        Ok(())
    }

    fn set_high(&mut self) -> Result<(), PinFault> {
        self.calls += 1;
        Ok(())
    }
}

#[test]
fn refused_inputs_touch_neither_pin_nor_bus_nor_delay() {
    let mut r = Rfm69::new(Sim::new(), CountingPin { calls: 0 }, CountingDelay::default());
    assert_eq!(r.sync(&[1; 9]), Err(Error::SyncSize));
    assert_eq!(r.aes(&[1, 2, 3, 4, 5]), Err(Error::AesKeySize));
    assert_eq!(r.send_large(&[0u8; 256]), Err(Error::PacketTooLarge));
    assert!(r.bus().log.is_empty());
    assert_eq!(r.delay_source().calls, 0);
    assert_eq!(r.chip_select().calls, 0);
    r.node_address(1).unwrap();
    assert_eq!(r.bus().log.len(), 1);
    assert_eq!(r.chip_select().calls, 2);
}

#[test]
fn packet_stops_when_first_write_fails() {
    let mut sim = Sim::new();
    sim.fail = true;
    let mut r = radio(sim);
    let p = PacketConfig {
        format: PacketFormat::Fixed(4),
        dc: PacketDc::Off,
        filtering: PacketFiltering::Off,
        crc: false,
        interpacket_rx_delay: InterPacketRxDelay::Delay1Bit,
        auto_rx_restart: false,
    };
    assert_eq!(r.packet(p), Err(Error::Spi(BusFault)));
    assert_eq!(sim_of(&r).log.len(), 1);
}
