//! Register map of the chip and the typed settings that are encoded into it.
use vstd::prelude::*;

verus! {

/// Registers of the chip, each with its address.
#[derive(Clone, Copy, Debug, PartialEq, Eq, Structural)]
pub enum Registers {
    Fifo,
    OpMode,
    DataModul,
    BitrateMsb,
    BitrateLsb,
    FdevMsb,
    FdevLsb,
    FrfMsb,
    FrfMid,
    FrfLsb,
    Osc1,
    AfcCtrl,
    Listen1,
    Listen2,
    Listen3,
    Version,
    PaLevel,
    PaRamp,
    Ocp,
    Lna,
    RxBw,
    AfcBw,
    OokPeak,
    OokAvg,
    OokFix,
    AfcFei,
    AfcMsb,
    AfcLsb,
    FeiMsb,
    FeiLsb,
    RssiConfig,
    RssiValue,
    DioMapping1,
    DioMapping2,
    IrqFlags1,
    IrqFlags2,
    RssiThresh,
    RxTimeout1,
    RxTimeout2,
    PreambleMsb,
    PreambleLsb,
    SyncConfig,
    SyncValue1,
    SyncValue2,
    SyncValue3,
    SyncValue4,
    SyncValue5,
    SyncValue6,
    SyncValue7,
    SyncValue8,
    PacketConfig1,
    PayloadLength,
    NodeAddrs,
    BroadcastAddrs,
    AutoModes,
    FifoThresh,
    PacketConfig2,
    AesKey1,
    AesKey2,
    AesKey3,
    AesKey4,
    AesKey5,
    AesKey6,
    AesKey7,
    AesKey8,
    AesKey9,
    AesKey10,
    AesKey11,
    AesKey12,
    AesKey13,
    AesKey14,
    AesKey15,
    AesKey16,
    Temp1,
    Temp2,
    TestLna,
    TestPa1,
    TestPa2,
    TestDagc,
    TestAfc,
}

impl Registers {
    /// Address of the register.
    pub open spec fn spec_addr(self) -> u8 {
        match self {
            Registers::Fifo => 0x00,
            Registers::OpMode => 0x01,
            Registers::DataModul => 0x02,
            Registers::BitrateMsb => 0x03,
            Registers::BitrateLsb => 0x04,
            Registers::FdevMsb => 0x05,
            Registers::FdevLsb => 0x06,
            Registers::FrfMsb => 0x07,
            Registers::FrfMid => 0x08,
            Registers::FrfLsb => 0x09,
            Registers::Osc1 => 0x0a,
            Registers::AfcCtrl => 0x0b,
            Registers::Listen1 => 0x0d,
            Registers::Listen2 => 0x0e,
            Registers::Listen3 => 0x0f,
            Registers::Version => 0x10,
            Registers::PaLevel => 0x11,
            Registers::PaRamp => 0x12,
            Registers::Ocp => 0x13,
            Registers::Lna => 0x18,
            Registers::RxBw => 0x19,
            Registers::AfcBw => 0x1a,
            Registers::OokPeak => 0x1b,
            Registers::OokAvg => 0x1c,
            Registers::OokFix => 0x1d,
            Registers::AfcFei => 0x1e,
            Registers::AfcMsb => 0x1f,
            Registers::AfcLsb => 0x20,
            Registers::FeiMsb => 0x21,
            Registers::FeiLsb => 0x22,
            Registers::RssiConfig => 0x23,
            Registers::RssiValue => 0x24,
            Registers::DioMapping1 => 0x25,
            Registers::DioMapping2 => 0x26,
            Registers::IrqFlags1 => 0x27,
            Registers::IrqFlags2 => 0x28,
            Registers::RssiThresh => 0x29,
            Registers::RxTimeout1 => 0x2a,
            Registers::RxTimeout2 => 0x2b,
            Registers::PreambleMsb => 0x2c,
            Registers::PreambleLsb => 0x2d,
            Registers::SyncConfig => 0x2e,
            Registers::SyncValue1 => 0x2f,
            Registers::SyncValue2 => 0x30,
            Registers::SyncValue3 => 0x31,
            Registers::SyncValue4 => 0x32,
            Registers::SyncValue5 => 0x33,
            Registers::SyncValue6 => 0x34,
            Registers::SyncValue7 => 0x35,
            Registers::SyncValue8 => 0x36,
            Registers::PacketConfig1 => 0x37,
            Registers::PayloadLength => 0x38,
            Registers::NodeAddrs => 0x39,
            Registers::BroadcastAddrs => 0x3a,
            Registers::AutoModes => 0x3b,
            Registers::FifoThresh => 0x3c,
            Registers::PacketConfig2 => 0x3d,
            Registers::AesKey1 => 0x3e,
            Registers::AesKey2 => 0x3f,
            Registers::AesKey3 => 0x40,
            Registers::AesKey4 => 0x41,
            Registers::AesKey5 => 0x42,
            Registers::AesKey6 => 0x43,
            Registers::AesKey7 => 0x44,
            Registers::AesKey8 => 0x45,
            Registers::AesKey9 => 0x46,
            Registers::AesKey10 => 0x47,
            Registers::AesKey11 => 0x48,
            Registers::AesKey12 => 0x49,
            Registers::AesKey13 => 0x4a,
            Registers::AesKey14 => 0x4b,
            Registers::AesKey15 => 0x4c,
            Registers::AesKey16 => 0x4d,
            Registers::Temp1 => 0x4e,
            Registers::Temp2 => 0x4f,
            Registers::TestLna => 0x58,
            Registers::TestPa1 => 0x5a,
            Registers::TestPa2 => 0x5c,
            Registers::TestDagc => 0x6f,
            Registers::TestAfc => 0x71,
        }
    }

    /// Address of the register.
    pub fn addr(self) -> (r: u8)
        ensures
            r == self.spec_addr(),
    {
        match self {
            Registers::Fifo => 0x00,
            Registers::OpMode => 0x01,
            Registers::DataModul => 0x02,
            Registers::BitrateMsb => 0x03,
            Registers::BitrateLsb => 0x04,
            Registers::FdevMsb => 0x05,
            Registers::FdevLsb => 0x06,
            Registers::FrfMsb => 0x07,
            Registers::FrfMid => 0x08,
            Registers::FrfLsb => 0x09,
            Registers::Osc1 => 0x0a,
            Registers::AfcCtrl => 0x0b,
            Registers::Listen1 => 0x0d,
            Registers::Listen2 => 0x0e,
            Registers::Listen3 => 0x0f,
            Registers::Version => 0x10,
            Registers::PaLevel => 0x11,
            Registers::PaRamp => 0x12,
            Registers::Ocp => 0x13,
            Registers::Lna => 0x18,
            Registers::RxBw => 0x19,
            Registers::AfcBw => 0x1a,
            Registers::OokPeak => 0x1b,
            Registers::OokAvg => 0x1c,
            Registers::OokFix => 0x1d,
            Registers::AfcFei => 0x1e,
            Registers::AfcMsb => 0x1f,
            Registers::AfcLsb => 0x20,
            Registers::FeiMsb => 0x21,
            Registers::FeiLsb => 0x22,
            Registers::RssiConfig => 0x23,
            Registers::RssiValue => 0x24,
            Registers::DioMapping1 => 0x25,
            Registers::DioMapping2 => 0x26,
            Registers::IrqFlags1 => 0x27,
            Registers::IrqFlags2 => 0x28,
            Registers::RssiThresh => 0x29,
            Registers::RxTimeout1 => 0x2a,
            Registers::RxTimeout2 => 0x2b,
            Registers::PreambleMsb => 0x2c,
            Registers::PreambleLsb => 0x2d,
            Registers::SyncConfig => 0x2e,
            Registers::SyncValue1 => 0x2f,
            Registers::SyncValue2 => 0x30,
            Registers::SyncValue3 => 0x31,
            Registers::SyncValue4 => 0x32,
            Registers::SyncValue5 => 0x33,
            Registers::SyncValue6 => 0x34,
            Registers::SyncValue7 => 0x35,
            Registers::SyncValue8 => 0x36,
            Registers::PacketConfig1 => 0x37,
            Registers::PayloadLength => 0x38,
            Registers::NodeAddrs => 0x39,
            Registers::BroadcastAddrs => 0x3a,
            Registers::AutoModes => 0x3b,
            Registers::FifoThresh => 0x3c,
            Registers::PacketConfig2 => 0x3d,
            Registers::AesKey1 => 0x3e,
            Registers::AesKey2 => 0x3f,
            Registers::AesKey3 => 0x40,
            Registers::AesKey4 => 0x41,
            Registers::AesKey5 => 0x42,
            Registers::AesKey6 => 0x43,
            Registers::AesKey7 => 0x44,
            Registers::AesKey8 => 0x45,
            Registers::AesKey9 => 0x46,
            Registers::AesKey10 => 0x47,
            Registers::AesKey11 => 0x48,
            Registers::AesKey12 => 0x49,
            Registers::AesKey13 => 0x4a,
            Registers::AesKey14 => 0x4b,
            Registers::AesKey15 => 0x4c,
            Registers::AesKey16 => 0x4d,
            Registers::Temp1 => 0x4e,
            Registers::Temp2 => 0x4f,
            Registers::TestLna => 0x58,
            Registers::TestPa1 => 0x5a,
            Registers::TestPa2 => 0x5c,
            Registers::TestDagc => 0x6f,
            Registers::TestAfc => 0x71,
        }
    }

    /// First byte of a write transaction: the address with the write bit set.
    pub fn write_address(self) -> (r: u8)
        ensures
            r == (self.spec_addr() | 0x80),
    {
        self.addr() | 0x80
    }

    /// First byte of a read transaction: the address with the write bit cleared.
    pub fn read_address(self) -> (r: u8)
        ensures
            r == (self.spec_addr() & 0x7f),
    {
        self.addr() & 0x7f
    }
}

/// Operating mode of the chip, held in bits 4..2 of `RegOpMode`.
#[derive(Clone, Copy, Debug, PartialEq, Eq, Structural)]
pub enum Mode {
    Sleep,
    Standby,
    FrequencySynthesizer,
    Transmitter,
    Receiver,
}

impl Mode {
    /// The bits of this setting, in place in its register.
    pub open spec fn code(self) -> u8 {
        match self {
            Mode::Sleep => 0x00,
            Mode::Standby => 0x04,
            Mode::FrequencySynthesizer => 0x08,
            Mode::Transmitter => 0x0c,
            Mode::Receiver => 0x10,
        }
    }

    /// The bits of this setting, in place in its register.
    pub fn value(self) -> (r: u8)
        ensures
            r == self.code(),
    {
        match self {
            Mode::Sleep => 0x00,
            Mode::Standby => 0x04,
            Mode::FrequencySynthesizer => 0x08,
            Mode::Transmitter => 0x0c,
            Mode::Receiver => 0x10,
        }
    }
}

/// Data processing mode, bits 6..5 of `RegDataModul`.
#[derive(Clone, Copy, Debug, PartialEq, Eq, Structural)]
pub enum DataMode {
    Packet,
    ContinuousBitSync,
    Continuous,
}

impl DataMode {
    /// The bits of this setting, in place in its register.
    pub open spec fn code(self) -> u8 {
        match self {
            DataMode::Packet => 0x00,
            DataMode::ContinuousBitSync => 0x40,
            DataMode::Continuous => 0x60,
        }
    }

    /// The bits of this setting, in place in its register.
    pub fn value(self) -> (r: u8)
        ensures
            r == self.code(),
    {
        match self {
            DataMode::Packet => 0x00,
            DataMode::ContinuousBitSync => 0x40,
            DataMode::Continuous => 0x60,
        }
    }
}

/// Modulation scheme, bits 4..3 of `RegDataModul`.
#[derive(Clone, Copy, Debug, PartialEq, Eq, Structural)]
pub enum ModulationType {
    Fsk,
    Ook,
}

impl ModulationType {
    /// The bits of this setting, in place in its register.
    pub open spec fn code(self) -> u8 {
        match self {
            ModulationType::Fsk => 0x00,
            ModulationType::Ook => 0x08,
        }
    }

    /// The bits of this setting, in place in its register.
    pub fn value(self) -> (r: u8)
        ensures
            r == self.code(),
    {
        match self {
            ModulationType::Fsk => 0x00,
            ModulationType::Ook => 0x08,
        }
    }
}

/// Data shaping, bits 1..0 of `RegDataModul`.
#[derive(Clone, Copy, Debug, PartialEq, Eq, Structural)]
pub enum ModulationShaping {
    Shaping00,
    Shaping01,
    Shaping10,
    Shaping11,
}

impl ModulationShaping {
    /// The bits of this setting, in place in its register.
    pub open spec fn code(self) -> u8 {
        match self {
            ModulationShaping::Shaping00 => 0x00,
            ModulationShaping::Shaping01 => 0x01,
            ModulationShaping::Shaping10 => 0x02,
            ModulationShaping::Shaping11 => 0x03,
        }
    }

    /// The bits of this setting, in place in its register.
    pub fn value(self) -> (r: u8)
        ensures
            r == self.code(),
    {
        match self {
            ModulationShaping::Shaping00 => 0x00,
            ModulationShaping::Shaping01 => 0x01,
            ModulationShaping::Shaping10 => 0x02,
            ModulationShaping::Shaping11 => 0x03,
        }
    }
}

/// Two-bit signal selection of a DIO pin.
#[derive(Clone, Copy, Debug, PartialEq, Eq, Structural)]
pub enum DioType {
    Dio00,
    Dio01,
    Dio10,
    Dio11,
}

impl DioType {
    /// The bits of this setting, in place in its register.
    pub open spec fn code(self) -> u8 {
        match self {
            DioType::Dio00 => 0x00,
            DioType::Dio01 => 0x01,
            DioType::Dio10 => 0x02,
            DioType::Dio11 => 0x03,
        }
    }

    /// The bits of this setting, in place in its register.
    pub fn value(self) -> (r: u8)
        ensures
            r == self.code(),
    {
        match self {
            DioType::Dio00 => 0x00,
            DioType::Dio01 => 0x01,
            DioType::Dio10 => 0x02,
            DioType::Dio11 => 0x03,
        }
    }
}

/// DC-free encoding, bits 6..5 of `RegPacketConfig1`.
#[derive(Clone, Copy, Debug, PartialEq, Eq, Structural)]
pub enum PacketDc {
    Off,
    Manchester,
    Whitening,
}

impl PacketDc {
    /// The bits of this setting, in place in its register.
    pub open spec fn code(self) -> u8 {
        match self {
            PacketDc::Off => 0x00,
            PacketDc::Manchester => 0x20,
            PacketDc::Whitening => 0x40,
        }
    }

    /// The bits of this setting, in place in its register.
    pub fn value(self) -> (r: u8)
        ensures
            r == self.code(),
    {
        match self {
            PacketDc::Off => 0x00,
            PacketDc::Manchester => 0x20,
            PacketDc::Whitening => 0x40,
        }
    }
}

/// Address filtering, bits 2..1 of `RegPacketConfig1`.
#[derive(Clone, Copy, Debug, PartialEq, Eq, Structural)]
pub enum PacketFiltering {
    Off,
    Address,
    Broadcast,
}

impl PacketFiltering {
    /// The bits of this setting, in place in its register.
    pub open spec fn code(self) -> u8 {
        match self {
            PacketFiltering::Off => 0x00,
            PacketFiltering::Address => 0x02,
            PacketFiltering::Broadcast => 0x04,
        }
    }

    /// The bits of this setting, in place in its register.
    pub fn value(self) -> (r: u8)
        ensures
            r == self.code(),
    {
        match self {
            PacketFiltering::Off => 0x00,
            PacketFiltering::Address => 0x02,
            PacketFiltering::Broadcast => 0x04,
        }
    }
}

/// Delay before a restart of the receiver, bits 7..4 of `RegPacketConfig2`.
#[derive(Clone, Copy, Debug, PartialEq, Eq, Structural)]
pub enum InterPacketRxDelay {
    Delay1Bit,
    Delay2Bits,
    Delay4Bits,
    Delay8Bits,
    Delay16Bits,
    Delay32Bits,
    Delay64Bits,
    Delay128Bits,
    Delay256Bits,
    Delay512Bits,
    Delay1024Bits,
    Delay2048Bits,
}

impl InterPacketRxDelay {
    /// The bits of this setting, in place in its register.
    pub open spec fn code(self) -> u8 {
        match self {
            InterPacketRxDelay::Delay1Bit => 0x00,
            InterPacketRxDelay::Delay2Bits => 0x10,
            InterPacketRxDelay::Delay4Bits => 0x20,
            InterPacketRxDelay::Delay8Bits => 0x30,
            InterPacketRxDelay::Delay16Bits => 0x40,
            InterPacketRxDelay::Delay32Bits => 0x50,
            InterPacketRxDelay::Delay64Bits => 0x60,
            InterPacketRxDelay::Delay128Bits => 0x70,
            InterPacketRxDelay::Delay256Bits => 0x80,
            InterPacketRxDelay::Delay512Bits => 0x90,
            InterPacketRxDelay::Delay1024Bits => 0xa0,
            InterPacketRxDelay::Delay2048Bits => 0xb0,
        }
    }

    /// The bits of this setting, in place in its register.
    pub fn value(self) -> (r: u8)
        ensures
            r == self.code(),
    {
        match self {
            InterPacketRxDelay::Delay1Bit => 0x00,
            InterPacketRxDelay::Delay2Bits => 0x10,
            InterPacketRxDelay::Delay4Bits => 0x20,
            InterPacketRxDelay::Delay8Bits => 0x30,
            InterPacketRxDelay::Delay16Bits => 0x40,
            InterPacketRxDelay::Delay32Bits => 0x50,
            InterPacketRxDelay::Delay64Bits => 0x60,
            InterPacketRxDelay::Delay128Bits => 0x70,
            InterPacketRxDelay::Delay256Bits => 0x80,
            InterPacketRxDelay::Delay512Bits => 0x90,
            InterPacketRxDelay::Delay1024Bits => 0xa0,
            InterPacketRxDelay::Delay2048Bits => 0xb0,
        }
    }
}

/// Input impedance of the LNA, bit 7 of `RegLna`.
#[derive(Clone, Copy, Debug, PartialEq, Eq, Structural)]
pub enum LnaImpedance {
    Ohm50,
    Ohm200,
}

impl LnaImpedance {
    /// The bits of this setting, in place in its register.
    pub open spec fn code(self) -> u8 {
        match self {
            LnaImpedance::Ohm50 => 0x00,
            LnaImpedance::Ohm200 => 0x80,
        }
    }

    /// The bits of this setting, in place in its register.
    pub fn value(self) -> (r: u8)
        ensures
            r == self.code(),
    {
        match self {
            LnaImpedance::Ohm50 => 0x00,
            LnaImpedance::Ohm200 => 0x80,
        }
    }
}

/// Gain selection of the LNA, bits 2..0 of `RegLna`.
#[derive(Clone, Copy, Debug, PartialEq, Eq, Structural)]
pub enum LnaGain {
    AgcLoop,
    G0,
    G6,
    G12,
    G24,
    G36,
    G48,
}

impl LnaGain {
    /// The bits of this setting, in place in its register.
    pub open spec fn code(self) -> u8 {
        match self {
            LnaGain::AgcLoop => 0x00,
            LnaGain::G0 => 0x01,
            LnaGain::G6 => 0x02,
            LnaGain::G12 => 0x03,
            LnaGain::G24 => 0x04,
            LnaGain::G36 => 0x05,
            LnaGain::G48 => 0x06,
        }
    }

    /// The bits of this setting, in place in its register.
    pub fn value(self) -> (r: u8)
        ensures
            r == self.code(),
    {
        match self {
            LnaGain::AgcLoop => 0x00,
            LnaGain::G0 => 0x01,
            LnaGain::G6 => 0x02,
            LnaGain::G12 => 0x03,
            LnaGain::G24 => 0x04,
            LnaGain::G36 => 0x05,
            LnaGain::G48 => 0x06,
        }
    }
}

/// Value of `RegTestLna`.
#[derive(Clone, Copy, Debug, PartialEq, Eq, Structural)]
pub enum SensitivityBoost {
    Normal,
    HighSensitivity,
}

impl SensitivityBoost {
    /// The bits of this setting, in place in its register.
    pub open spec fn code(self) -> u8 {
        match self {
            SensitivityBoost::Normal => 0x1b,
            SensitivityBoost::HighSensitivity => 0x2d,
        }
    }

    /// The bits of this setting, in place in its register.
    pub fn value(self) -> (r: u8)
        ensures
            r == self.code(),
    {
        match self {
            SensitivityBoost::Normal => 0x1b,
            SensitivityBoost::HighSensitivity => 0x2d,
        }
    }
}

/// Value of `RegTestPa1`.
#[derive(Clone, Copy, Debug, PartialEq, Eq, Structural)]
pub enum Pa13dBm1 {
    Normal,
    High20dBm,
}

impl Pa13dBm1 {
    /// The bits of this setting, in place in its register.
    pub open spec fn code(self) -> u8 {
        match self {
            Pa13dBm1::Normal => 0x55,
            Pa13dBm1::High20dBm => 0x5d,
        }
    }

    /// The bits of this setting, in place in its register.
    pub fn value(self) -> (r: u8)
        ensures
            r == self.code(),
    {
        match self {
            Pa13dBm1::Normal => 0x55,
            Pa13dBm1::High20dBm => 0x5d,
        }
    }
}

/// Value of `RegTestPa2`.
#[derive(Clone, Copy, Debug, PartialEq, Eq, Structural)]
pub enum Pa13dBm2 {
    Normal,
    High20dBm,
}

impl Pa13dBm2 {
    /// The bits of this setting, in place in its register.
    pub open spec fn code(self) -> u8 {
        match self {
            Pa13dBm2::Normal => 0x70,
            Pa13dBm2::High20dBm => 0x7c,
        }
    }

    /// The bits of this setting, in place in its register.
    pub fn value(self) -> (r: u8)
        ensures
            r == self.code(),
    {
        match self {
            Pa13dBm2::Normal => 0x70,
            Pa13dBm2::High20dBm => 0x7c,
        }
    }
}

/// Value of `RegTestDagc`.
#[derive(Clone, Copy, Debug, PartialEq, Eq, Structural)]
pub enum ContinuousDagc {
    Normal,
    ImprovedMarginAfcLowBetaOn1,
    ImprovedMarginAfcLowBetaOn0,
}

impl ContinuousDagc {
    /// The bits of this setting, in place in its register.
    pub open spec fn code(self) -> u8 {
        match self {
            ContinuousDagc::Normal => 0x00,
            ContinuousDagc::ImprovedMarginAfcLowBetaOn1 => 0x20,
            ContinuousDagc::ImprovedMarginAfcLowBetaOn0 => 0x30,
        }
    }

    /// The bits of this setting, in place in its register.
    pub fn value(self) -> (r: u8)
        ensures
            r == self.code(),
    {
        match self {
            ContinuousDagc::Normal => 0x00,
            ContinuousDagc::ImprovedMarginAfcLowBetaOn1 => 0x20,
            ContinuousDagc::ImprovedMarginAfcLowBetaOn0 => 0x30,
        }
    }
}

/// Cut-off of the DC offset canceller, bits 7..5 of `RegRxBw` and `RegAfcBw`.
#[derive(Clone, Copy, Debug, PartialEq, Eq, Structural)]
pub enum DccCutoff {
    Percent16,
    Percent8,
    Percent4,
    Percent2,
    Percent1,
    Percent0dot5,
    Percent0dot25,
    Percent0dot125,
}

impl DccCutoff {
    /// The bits of this setting, in place in its register.
    pub open spec fn code(self) -> u8 {
        match self {
            DccCutoff::Percent16 => 0x00,
            DccCutoff::Percent8 => 0x20,
            DccCutoff::Percent4 => 0x40,
            DccCutoff::Percent2 => 0x60,
            DccCutoff::Percent1 => 0x80,
            DccCutoff::Percent0dot5 => 0xa0,
            DccCutoff::Percent0dot25 => 0xc0,
            DccCutoff::Percent0dot125 => 0xe0,
        }
    }

    /// The bits of this setting, in place in its register.
    pub fn value(self) -> (r: u8)
        ensures
            r == self.code(),
    {
        match self {
            DccCutoff::Percent16 => 0x00,
            DccCutoff::Percent8 => 0x20,
            DccCutoff::Percent4 => 0x40,
            DccCutoff::Percent2 => 0x60,
            DccCutoff::Percent1 => 0x80,
            DccCutoff::Percent0dot5 => 0xa0,
            DccCutoff::Percent0dot25 => 0xc0,
            DccCutoff::Percent0dot125 => 0xe0,
        }
    }
}

/// Channel filter bandwidth in FSK mode: mantissa in bits 4..3, exponent in bits 2..0.
#[derive(Clone, Copy, Debug, PartialEq, Eq, Structural)]
pub enum RxBwFsk {
    Khz500dot0,
    Khz400dot0,
    Khz333dot3,
    Khz250dot0,
    Khz200dot0,
    Khz166dot7,
    Khz125dot0,
    Khz100dot0,
    Khz83dot3,
    Khz62dot5,
    Khz50dot0,
    Khz41dot7,
    Khz31dot3,
    Khz25dot0,
    Khz20dot8,
    Khz15dot6,
    Khz12dot5,
    Khz10dot4,
    Khz7dot8,
    Khz6dot3,
    Khz5dot2,
    Khz3dot9,
    Khz3dot1,
    Khz2dot6,
}

impl RxBwFreq for RxBwFsk {
    open spec fn code(&self) -> u8 {
        match *self {
            RxBwFsk::Khz500dot0 => 0x00,
            RxBwFsk::Khz400dot0 => 0x08,
            RxBwFsk::Khz333dot3 => 0x10,
            RxBwFsk::Khz250dot0 => 0x01,
            RxBwFsk::Khz200dot0 => 0x09,
            RxBwFsk::Khz166dot7 => 0x11,
            RxBwFsk::Khz125dot0 => 0x02,
            RxBwFsk::Khz100dot0 => 0x0a,
            RxBwFsk::Khz83dot3 => 0x12,
            RxBwFsk::Khz62dot5 => 0x03,
            RxBwFsk::Khz50dot0 => 0x0b,
            RxBwFsk::Khz41dot7 => 0x13,
            RxBwFsk::Khz31dot3 => 0x04,
            RxBwFsk::Khz25dot0 => 0x0c,
            RxBwFsk::Khz20dot8 => 0x14,
            RxBwFsk::Khz15dot6 => 0x05,
            RxBwFsk::Khz12dot5 => 0x0d,
            RxBwFsk::Khz10dot4 => 0x15,
            RxBwFsk::Khz7dot8 => 0x06,
            RxBwFsk::Khz6dot3 => 0x0e,
            RxBwFsk::Khz5dot2 => 0x16,
            RxBwFsk::Khz3dot9 => 0x07,
            RxBwFsk::Khz3dot1 => 0x0f,
            RxBwFsk::Khz2dot6 => 0x17,
        }
    }

    fn value(&self) -> (r: u8) {
        match *self {
            RxBwFsk::Khz500dot0 => 0x00,
            RxBwFsk::Khz400dot0 => 0x08,
            RxBwFsk::Khz333dot3 => 0x10,
            RxBwFsk::Khz250dot0 => 0x01,
            RxBwFsk::Khz200dot0 => 0x09,
            RxBwFsk::Khz166dot7 => 0x11,
            RxBwFsk::Khz125dot0 => 0x02,
            RxBwFsk::Khz100dot0 => 0x0a,
            RxBwFsk::Khz83dot3 => 0x12,
            RxBwFsk::Khz62dot5 => 0x03,
            RxBwFsk::Khz50dot0 => 0x0b,
            RxBwFsk::Khz41dot7 => 0x13,
            RxBwFsk::Khz31dot3 => 0x04,
            RxBwFsk::Khz25dot0 => 0x0c,
            RxBwFsk::Khz20dot8 => 0x14,
            RxBwFsk::Khz15dot6 => 0x05,
            RxBwFsk::Khz12dot5 => 0x0d,
            RxBwFsk::Khz10dot4 => 0x15,
            RxBwFsk::Khz7dot8 => 0x06,
            RxBwFsk::Khz6dot3 => 0x0e,
            RxBwFsk::Khz5dot2 => 0x16,
            RxBwFsk::Khz3dot9 => 0x07,
            RxBwFsk::Khz3dot1 => 0x0f,
            RxBwFsk::Khz2dot6 => 0x17,
        }
    }
}

/// Channel filter bandwidth in OOK mode: mantissa in bits 4..3, exponent in bits 2..0.
#[derive(Clone, Copy, Debug, PartialEq, Eq, Structural)]
pub enum RxBwOok {
    Khz250dot0,
    Khz200dot0,
    Khz166dot7,
    Khz125dot0,
    Khz100dot0,
    Khz83dot3,
    Khz62dot5,
    Khz50dot0,
    Khz41dot7,
    Khz31dot3,
    Khz25dot0,
    Khz20dot8,
    Khz15dot6,
    Khz12dot5,
    Khz10dot4,
    Khz7dot8,
    Khz6dot3,
    Khz5dot2,
    Khz3dot9,
    Khz3dot1,
    Khz2dot6,
    Khz2dot0,
    Khz1dot6,
    Khz1dot3,
}

impl RxBwFreq for RxBwOok {
    open spec fn code(&self) -> u8 {
        match *self {
            RxBwOok::Khz250dot0 => 0x00,
            RxBwOok::Khz200dot0 => 0x08,
            RxBwOok::Khz166dot7 => 0x10,
            RxBwOok::Khz125dot0 => 0x01,
            RxBwOok::Khz100dot0 => 0x09,
            RxBwOok::Khz83dot3 => 0x11,
            RxBwOok::Khz62dot5 => 0x02,
            RxBwOok::Khz50dot0 => 0x0a,
            RxBwOok::Khz41dot7 => 0x12,
            RxBwOok::Khz31dot3 => 0x03,
            RxBwOok::Khz25dot0 => 0x0b,
            RxBwOok::Khz20dot8 => 0x13,
            RxBwOok::Khz15dot6 => 0x04,
            RxBwOok::Khz12dot5 => 0x0c,
            RxBwOok::Khz10dot4 => 0x14,
            RxBwOok::Khz7dot8 => 0x05,
            RxBwOok::Khz6dot3 => 0x0d,
            RxBwOok::Khz5dot2 => 0x15,
            RxBwOok::Khz3dot9 => 0x06,
            RxBwOok::Khz3dot1 => 0x0e,
            RxBwOok::Khz2dot6 => 0x16,
            RxBwOok::Khz2dot0 => 0x07,
            RxBwOok::Khz1dot6 => 0x0f,
            RxBwOok::Khz1dot3 => 0x17,
        }
    }

    fn value(&self) -> (r: u8) {
        match *self {
            RxBwOok::Khz250dot0 => 0x00,
            RxBwOok::Khz200dot0 => 0x08,
            RxBwOok::Khz166dot7 => 0x10,
            RxBwOok::Khz125dot0 => 0x01,
            RxBwOok::Khz100dot0 => 0x09,
            RxBwOok::Khz83dot3 => 0x11,
            RxBwOok::Khz62dot5 => 0x02,
            RxBwOok::Khz50dot0 => 0x0a,
            RxBwOok::Khz41dot7 => 0x12,
            RxBwOok::Khz31dot3 => 0x03,
            RxBwOok::Khz25dot0 => 0x0b,
            RxBwOok::Khz20dot8 => 0x13,
            RxBwOok::Khz15dot6 => 0x04,
            RxBwOok::Khz12dot5 => 0x0c,
            RxBwOok::Khz10dot4 => 0x14,
            RxBwOok::Khz7dot8 => 0x05,
            RxBwOok::Khz6dot3 => 0x0d,
            RxBwOok::Khz5dot2 => 0x15,
            RxBwOok::Khz3dot9 => 0x06,
            RxBwOok::Khz3dot1 => 0x0e,
            RxBwOok::Khz2dot6 => 0x16,
            RxBwOok::Khz2dot0 => 0x07,
            RxBwOok::Khz1dot6 => 0x0f,
            RxBwOok::Khz1dot3 => 0x17,
        }
    }
}

/// One of the six DIO pins of the chip.
#[derive(Clone, Copy, Debug, PartialEq, Eq, Structural)]
pub enum DioPin {
    Dio0,
    Dio1,
    Dio2,
    Dio3,
    Dio4,
    Dio5,
}

impl DioPin {
    /// Position of the pin among the mapping slots.
    pub open spec fn slot(self) -> nat {
        match self {
            DioPin::Dio0 => 0,
            DioPin::Dio1 => 1,
            DioPin::Dio2 => 2,
            DioPin::Dio3 => 3,
            DioPin::Dio4 => 4,
            DioPin::Dio5 => 5,
        }
    }

    /// Position of the pin among the mapping slots.
    pub fn index(self) -> (r: usize)
        ensures
            r == self.slot(),
    {
        match self {
            DioPin::Dio0 => 0,
            DioPin::Dio1 => 1,
            DioPin::Dio2 => 2,
            DioPin::Dio3 => 3,
            DioPin::Dio4 => 4,
            DioPin::Dio5 => 5,
        }
    }
}

/// Offset of the two-bit field of the pin in slot `i` within the 16-bit word
/// `RegDioMapping1:RegDioMapping2`.
pub open spec fn slot_shift(i: nat) -> u16 {
    (14 - 2 * i) as u16
}

/// The mode in which a DIO mapping takes effect.
#[derive(Clone, Copy, Debug, PartialEq, Eq, Structural)]
pub enum DioMode {
    Sleep,
    Standby,
    FrequencySynthesizer,
    Tx,
    Rx,
}

impl DioMode {
    /// The operating mode that this mapping mode stands for.
    pub open spec fn mode(self) -> Mode {
        match self {
            DioMode::Sleep => Mode::Sleep,
            DioMode::Standby => Mode::Standby,
            DioMode::FrequencySynthesizer => Mode::FrequencySynthesizer,
            DioMode::Tx => Mode::Transmitter,
            DioMode::Rx => Mode::Receiver,
        }
    }

    /// Whether a mapping in this mode takes effect in operating mode `mode`.
    pub fn is_active_in(self, mode: Mode) -> (r: bool)
        ensures
            r == (self.mode() == mode),
    {
        match self {
            DioMode::Sleep => mode == Mode::Sleep,
            DioMode::Standby => mode == Mode::Standby,
            DioMode::FrequencySynthesizer => mode == Mode::FrequencySynthesizer,
            DioMode::Tx => mode == Mode::Transmitter,
            DioMode::Rx => mode == Mode::Receiver,
        }
    }
}

/// Binds a DIO pin to a signal, valid in one operating mode.
#[derive(Clone, Copy, Debug, PartialEq, Eq, Structural)]
pub struct DioMapping {
    pub pin: DioPin,
    pub dio_type: DioType,
    pub dio_mode: DioMode,
}

/// Content of `RegDataModul`.
#[derive(Clone, Copy, Debug, PartialEq, Eq, Structural)]
pub struct Modulation {
    pub data_mode: DataMode,
    pub modulation_type: ModulationType,
    pub shaping: ModulationShaping,
}

impl Modulation {
    pub open spec fn code(self) -> u8 {
        self.data_mode.code() | self.modulation_type.code() | self.shaping.code()
    }

    /// The byte written to `RegDataModul`.
    pub fn value(self) -> (r: u8)
        ensures
            r == self.code(),
    {
        self.data_mode.value() | self.modulation_type.value() | self.shaping.value()
    }
}

/// Frame length mode, with the length (fixed) or the largest length (variable).
#[derive(Clone, Copy, Debug, PartialEq, Eq, Structural)]
pub enum PacketFormat {
    Fixed(u8),
    Variable(u8),
}

/// Packet framing, spread over `RegPacketConfig1`, `RegPayloadLength` and
/// `RegPacketConfig2`.
#[derive(Clone, Copy, Debug, PartialEq, Eq, Structural)]
pub struct PacketConfig {
    pub format: PacketFormat,
    pub dc: PacketDc,
    pub filtering: PacketFiltering,
    pub crc: bool,
    pub interpacket_rx_delay: InterPacketRxDelay,
    pub auto_rx_restart: bool,
}

/// When the FIFO level interrupt fires.
#[derive(Clone, Copy, Debug, PartialEq, Eq, Structural)]
pub enum FifoMode {
    /// As soon as the FIFO holds one byte.
    NotEmpty,
    /// When the FIFO holds more than the given number of bytes (7 bits).
    Level(u8),
}

/// Content of `RegLna` that can be set.
#[derive(Clone, Copy, Debug, PartialEq, Eq, Structural)]
pub struct LnaConfig {
    pub zin: LnaImpedance,
    pub gain_select: LnaGain,
}

/// A channel filter bandwidth, for FSK or for OOK.
pub trait RxBwFreq {
    /// Mantissa and exponent bits of the bandwidth.
    spec fn code(&self) -> u8;

    fn value(&self) -> (r: u8)
        ensures
            r == self.code(),
    ;
}

/// Content of `RegRxBw` or `RegAfcBw`.
#[derive(Clone, Copy, Debug, PartialEq, Eq)]
pub struct RxBw<T: RxBwFreq> {
    pub dcc_cutoff: DccCutoff,
    pub rx_bw: T,
}

} // verus!
