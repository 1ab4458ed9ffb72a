//! Pure encodings of settings into register bytes.
use vstd::prelude::*;
use crate::registers::{DioMapping, Mode, PacketConfig, PacketFormat, slot_shift};

verus! {

/// Frequency of the crystal oscillator, in Hz.
pub const FOSC: u64 = 32_000_000;

/// Frequencies are counted in steps of `FOSC / 2^19` Hz.
pub const FSTEP_DENOM: u64 = 524_288;

/// `n / d` rounded to the nearest integer, halves rounded up.
pub open spec fn round_div(n: nat, d: nat) -> nat
    recommends
        d > 0,
{
    (2 * n + d) / (2 * d)
}

/// The 16-bit bit rate divisor for `bit_rate` Hz: `round(FOSC / bit_rate)`,
/// wrapped to 16 bits.
pub open spec fn bit_rate_word(bit_rate: nat) -> u16 {
    (round_div(FOSC as nat, bit_rate) % 0x1_0000) as u16
}

/// The 24-bit carrier frequency word for `freq` Hz: `round(freq / FSTEP)`,
/// wrapped to 24 bits.
pub open spec fn frequency_word(freq: nat) -> nat {
    round_div(freq * FSTEP_DENOM as nat, FOSC as nat) % 0x100_0000
}

/// The 16-bit frequency deviation word for `fdev` Hz: `round(fdev / FSTEP)`,
/// wrapped to 16 bits.
pub open spec fn fdev_word(fdev: nat) -> u16 {
    (round_div(fdev * FSTEP_DENOM as nat, FOSC as nat) % 0x1_0000) as u16
}

/// Two bytes, most significant first.
pub open spec fn be16(w: u16) -> Seq<u8> {
    seq![(w / 256) as u8, (w % 256) as u8]
}

/// The three low bytes of `w`, most significant first.
pub open spec fn be24(w: nat) -> Seq<u8> {
    seq![((w / 0x1_0000) % 256) as u8, ((w / 256) % 256) as u8, (w % 256) as u8]
}

/// Computes the bit rate divisor.
pub fn bit_rate_register(bit_rate: u32) -> (r: u16)
    requires
        bit_rate > 0,
    ensures
        r == bit_rate_word(bit_rate as nat),
{
    let b: u64 = bit_rate as u64;
    let q: u64 = (2 * FOSC + b) / (2 * b);
    (q % 0x1_0000) as u16
}

/// Computes the carrier frequency word.
pub fn frequency_register(freq: u32) -> (r: u32)
    ensures
        r == frequency_word(freq as nat),
        r < 0x100_0000,
{
    let n: u64 = freq as u64 * FSTEP_DENOM;
    let q: u64 = (2 * n + FOSC) / (2 * FOSC);
    (q % 0x100_0000) as u32
}

/// Computes the frequency deviation word.
pub fn fdev_register(fdev: u32) -> (r: u16)
    ensures
        r == fdev_word(fdev as nat),
{
    let n: u64 = fdev as u64 * FSTEP_DENOM;
    let q: u64 = (2 * n + FOSC) / (2 * FOSC);
    (q % 0x1_0000) as u16
}

/// Splits a 16-bit word into two bytes, most significant first.
pub fn be16_bytes(w: u16) -> (r: [u8; 2])
    ensures
        r@ == be16(w),
{
    let r = [(w / 256) as u8, (w % 256) as u8];
    assert(r@ =~= be16(w));
    r
}

/// Splits the low 24 bits of a word into three bytes, most significant first.
pub fn be24_bytes(w: u32) -> (r: [u8; 3])
    ensures
        r@ == be24(w as nat),
{
    let r = [((w / 0x1_0000) % 256) as u8, ((w / 256) % 256) as u8, (w % 256) as u8];
    assert(r@ =~= be24(w as nat));
    r
}

/// A register byte after a read-modify-write that keeps the bits of `keep`
/// and sets the bits of `set`.
pub open spec fn merge(old: u8, keep: u8, set: u8) -> u8 {
    (old & keep) | set
}

/// `RegSyncConfig` for a sync word of `len` bytes, `1 <= len <= 8`: the
/// enable bit, and `len - 1` in bits 5..3.
pub open spec fn sync_config_byte(len: nat) -> u8 {
    (0x80u8 | (((len - 1) as u8) << 3u8)) as u8
}

/// Computes `RegSyncConfig` for a sync word of `len` bytes.
pub fn sync_config(len: usize) -> (r: u8)
    requires
        1 <= len <= 8,
    ensures
        r == sync_config_byte(len as nat),
{
    let n: u8 = (len - 1) as u8;
    0x80u8 | (n << 3u8)
}

/// `RegPacketConfig1` for a packet configuration.
pub open spec fn packet_config1_byte(p: PacketConfig) -> u8 {
    (match p.format {
        PacketFormat::Fixed(_) => 0x00u8,
        PacketFormat::Variable(_) => 0x80u8,
    }) | p.dc.code() | p.filtering.code() | (if p.crc { 0x10u8 } else { 0x00u8 })
}

/// `RegPayloadLength` for a packet configuration.
pub open spec fn payload_length_byte(p: PacketConfig) -> u8 {
    match p.format {
        PacketFormat::Fixed(n) => n,
        PacketFormat::Variable(n) => n,
    }
}

/// The bits of `RegPacketConfig2` that a packet configuration sets.
pub open spec fn packet_config2_bits(p: PacketConfig) -> u8 {
    p.interpacket_rx_delay.code() | (if p.auto_rx_restart { 0x02u8 } else { 0x00u8 })
}

/// Computes `RegPacketConfig1` and `RegPayloadLength`.
pub fn packet_config1(p: PacketConfig) -> (r: [u8; 2])
    ensures
        r@ == seq![packet_config1_byte(p), payload_length_byte(p)],
{
    let (format, len): (u8, u8) = match p.format {
        PacketFormat::Fixed(n) => (0x00, n),
        PacketFormat::Variable(n) => (0x80, n),
    };
    let crc: u8 = if p.crc { 0x10 } else { 0x00 };
    let r = [format | p.dc.value() | p.filtering.value() | crc, len];
    assert(r@ =~= seq![packet_config1_byte(p), payload_length_byte(p)]);
    r
}

/// Computes the bits of `RegPacketConfig2` that a packet configuration sets.
pub fn packet_config2(p: PacketConfig) -> (r: u8)
    ensures
        r == packet_config2_bits(p),
{
    let restart: u8 = if p.auto_rx_restart { 0x02 } else { 0x00 };
    p.interpacket_rx_delay.value() | restart
}

/// The contribution of one mapping slot to the DIO word in operating mode
/// `mode`: the signal code when the slot holds a mapping for that mode, else 0.
pub open spec fn slot_code(mode: Mode, slot: Option<DioMapping>) -> u16 {
    match slot {
        Some(m) => if m.dio_mode.mode() == mode { m.dio_type.code() as u16 } else { 0 },
        None => 0,
    }
}

/// The 16-bit word `RegDioMapping1:RegDioMapping2` in operating mode `mode`:
/// the clock output off (`0x07`), and in the two-bit field of each pin the code
/// of its slot.
pub open spec fn dio_word(mode: Mode, slots: Seq<Option<DioMapping>>) -> u16 {
    0x07u16 | (slot_code(mode, slots[0]) << 14u16) | (slot_code(mode, slots[1]) << 12u16) | (
    slot_code(mode, slots[2]) << 10u16) | (slot_code(mode, slots[3]) << 8u16) | (slot_code(
        mode,
        slots[4],
    ) << 6u16) | (slot_code(mode, slots[5]) << 4u16)
}

/// Mapping slots are well formed when slot `i` is empty or maps pin `i`.
pub open spec fn slots_wf(slots: Seq<Option<DioMapping>>) -> bool {
    &&& slots.len() == 6
    &&& forall|i: int|
        0 <= i < 6 ==> match #[trigger] slots[i] {
            Some(m) => m.pin.slot() == i,
            None => true,
        }
}

/// Computes the code of one slot.
fn slot_value(mode: Mode, slot: Option<DioMapping>) -> (r: u16)
    ensures
        r == slot_code(mode, slot),
        r < 4,
{
    match slot {
        Some(m) => if m.dio_mode.is_active_in(mode) {
            m.dio_type.value() as u16
        } else {
            0
        },
        None => 0,
    }
}

/// Computes the DIO word from the current mode and the six mapping slots.
pub fn dio_register(mode: Mode, slots: &[Option<DioMapping>; 6]) -> (r: u16)
    ensures
        r == dio_word(mode, slots@),
{
    let c0 = slot_value(mode, slots[0]);
    let c1 = slot_value(mode, slots[1]);
    let c2 = slot_value(mode, slots[2]);
    let c3 = slot_value(mode, slots[3]);
    let c4 = slot_value(mode, slots[4]);
    let c5 = slot_value(mode, slots[5]);
    0x07u16 | (c0 << 14u16) | (c1 << 12u16) | (c2 << 10u16) | (c3 << 8u16) | (c4 << 6u16) | (c5
        << 4u16)
}


/// `2·d·round_div(n, d)` lies within `[2n - d, 2n + d)`.
proof fn lemma_round_div(n: nat, d: nat)
    requires
        d > 0,
    ensures
        2 * d * round_div(n, d) <= 2 * n + d,
        2 * n + d < 2 * d * round_div(n, d) + 2 * d,
{
    let q = round_div(n, d);
    vstd::arithmetic::div_mod::lemma_fundamental_div_mod((2 * n + d) as int, (2 * d) as int);
    vstd::arithmetic::div_mod::lemma_mod_bound((2 * n + d) as int, (2 * d) as int);
}

/// Decoding the bit rate divisor `w` as `FOSC / w` gives back the requested
/// rate up to the rounding of the divisor: `|FOSC / bit_rate - w| <= 1/2`, which
/// is `2·|FOSC - w·bit_rate| <= bit_rate`. This holds whenever the rounded
/// divisor fits in 16 bits.
pub proof fn lemma_bit_rate_round_trip(bit_rate: nat)
    requires
        bit_rate > 0,
        round_div(FOSC as nat, bit_rate) < 0x1_0000,
    ensures
        bit_rate_word(bit_rate) as nat == round_div(FOSC as nat, bit_rate),
        -(bit_rate as int) <= 2 * (FOSC - bit_rate_word(bit_rate) * bit_rate) <= bit_rate,
{
    let q = round_div(FOSC as nat, bit_rate);
    lemma_round_div(FOSC as nat, bit_rate);
    assert(2 * bit_rate * q == 2 * (q * bit_rate)) by (nonlinear_arith);
}

/// The carrier frequency word is `round(freq / FSTEP)` with
/// `FSTEP = FOSC / 2^19`, and re-deriving the frequency as `word · FSTEP` lands
/// within half a step of `freq`: `2·|word·FOSC - freq·2^19| <= FOSC`. This
/// holds whenever the rounded word fits in 24 bits.
pub proof fn lemma_frequency_round_trip(freq: nat)
    requires
        round_div(freq * FSTEP_DENOM as nat, FOSC as nat) < 0x100_0000,
    ensures
        frequency_word(freq) == round_div(freq * FSTEP_DENOM as nat, FOSC as nat),
        -(FOSC as int) <= 2 * (frequency_word(freq) * FOSC - freq * FSTEP_DENOM) <= FOSC,
{
    let q = round_div(freq * FSTEP_DENOM as nat, FOSC as nat);
    lemma_round_div(freq * FSTEP_DENOM as nat, FOSC as nat);
    assert(2 * FOSC * q == 2 * (q * FOSC)) by (nonlinear_arith);
}

/// A sync configuration byte has the enable bit set and `len - 1` in its
/// three-bit length field.
pub proof fn lemma_sync_config_fields(len: nat)
    requires
        1 <= len <= 8,
    ensures
        sync_config_byte(len) & 0x80 == 0x80,
        (sync_config_byte(len) >> 3u8) & 0x07 == (len - 1) as u8,
{
    let n: u8 = (len - 1) as u8;
    assert(n < 8);
    assert(((0x80u8 | (n << 3u8)) & 0x80 == 0x80) && (((0x80u8 | (n << 3u8)) >> 3u8) & 0x07 == n))
        by (bit_vector)
        requires
            n < 8,
    ;
}

/// In the DIO word of mode `mode`, the two-bit field of each pin holds the
/// signal code of the mapping stored for that pin when the mapping's mode is
/// `mode`, and 0 when its mode differs or no mapping is stored; the clock
/// output bits stay off.
pub proof fn lemma_dio_word_fields(mode: Mode, slots: Seq<Option<DioMapping>>)
    requires
        slots_wf(slots),
    ensures
        dio_word(mode, slots) & 0x0f == 0x07,
        forall|i: int|
            0 <= i < 6 ==> (dio_word(mode, slots) >> slot_shift(i as nat)) & 0x03 == slot_code(
                mode,
                #[trigger] slots[i],
            ),
        forall|i: int|
            0 <= i < 6 ==> match #[trigger] slots[i] {
                Some(m) => (dio_word(mode, slots) >> slot_shift(m.pin.slot())) & 0x03 == if m.dio_mode.mode()
                    == mode {
                    m.dio_type.code() as u16
                } else {
                    0u16
                },
                None => (dio_word(mode, slots) >> slot_shift(i as nat)) & 0x03 == 0,
            },
{
    let c0 = slot_code(mode, slots[0]);
    let c1 = slot_code(mode, slots[1]);
    let c2 = slot_code(mode, slots[2]);
    let c3 = slot_code(mode, slots[3]);
    let c4 = slot_code(mode, slots[4]);
    let c5 = slot_code(mode, slots[5]);
    let w = dio_word(mode, slots);
    assert(w == 0x07u16 | (c0 << 14u16) | (c1 << 12u16) | (c2 << 10u16) | (c3 << 8u16) | (c4
        << 6u16) | (c5 << 4u16));
    assert({
        let w = 0x07u16 | (c0 << 14u16) | (c1 << 12u16) | (c2 << 10u16) | (c3 << 8u16) | (c4
            << 6u16) | (c5 << 4u16);
        &&& w & 0x0f == 0x07
        &&& (w >> 14u16) & 0x03 == c0
        &&& (w >> 12u16) & 0x03 == c1
        &&& (w >> 10u16) & 0x03 == c2
        &&& (w >> 8u16) & 0x03 == c3
        &&& (w >> 6u16) & 0x03 == c4
        &&& (w >> 4u16) & 0x03 == c5
    }) by (bit_vector)
        requires
            c0 < 4,
            c1 < 4,
            c2 < 4,
            c3 < 4,
            c4 < 4,
            c5 < 4,
    ;
    assert forall|i: int| 0 <= i < 6 implies (w >> slot_shift(i as nat)) & 0x03 == slot_code(
        mode,
        #[trigger] slots[i],
    ) by {
        assert(slot_shift(i as nat) == (14 - 2 * i) as u16);
    }
}

} // verus!
