//! The radio controller: register setters, mode and DIO state, and the
//! send and receive primitives.
use vstd::prelude::*;
use crate::bus::{
    BusOp, ChipSelect, DelayMs, NoCs, ReadWrite, flag_of, gave_up, polled, fifo_read, fifo_read_by, fifo_written,
    fifo_written_by, first_byte, lemma_fifo_push, reads_byte, update_failed, updated_then, write_op,
};
use crate::encoding::{
    be16, be16_bytes, be24, be24_bytes, bit_rate_register, bit_rate_word, dio_register, dio_word,
    fdev_register, fdev_word, frequency_register, frequency_word, lemma_dio_word_fields, slot_code,
    packet_config1,
    packet_config1_byte, packet_config2, packet_config2_bits, payload_length_byte, slots_wf,
    sync_config, sync_config_byte,
};
use crate::error::Error;
use crate::registers::{
    slot_shift, ContinuousDagc, DioMapping, DioPin, FifoMode, LnaConfig, Mode, Modulation, Pa13dBm1, Pa13dBm2,
    PacketConfig, Registers, RxBw, RxBwFreq, SensitivityBoost,
};

verus! {

/// `after` is `before` followed by the transactions of a change to `mode`
/// with the mapping slots `slots`: the read-modify-write of `RegOpMode`, then
/// the DIO word.
pub open spec fn mode_changed(
    before: Seq<BusOp>,
    after: Seq<BusOp>,
    mode: Mode,
    slots: Seq<Option<DioMapping>>,
) -> bool {
    updated_then(
        before,
        after,
        Registers::OpMode,
        0xe3,
        mode.code(),
        seq![BusOp::Write { reg: Registers::DioMapping1, data: be16(dio_word(mode, slots)) }],
    )
}

/// Default budget of a bounded wait, in milliseconds.
pub const DEFAULT_TIMEOUT_MS: u8 = 100;

/// Default pause between two checks of a bounded wait, in milliseconds.
pub const DEFAULT_STEP_MS: u8 = 5;

/// A transaction that touches no FIFO byte leaves both FIFO streams as they were.
proof fn lemma_no_fifo(ops: Seq<BusOp>, op: BusOp)
    requires
        fifo_read_by(op) == Seq::<u8>::empty(),
        fifo_written_by(op) == Seq::<u8>::empty(),
    ensures
        fifo_read(ops.push(op)) == fifo_read(ops),
        fifo_written(ops.push(op)) == fifo_written(ops),
{
    lemma_fifo_push(ops, op);
    assert(fifo_read(ops) + Seq::<u8>::empty() =~= fifo_read(ops));
    assert(fifo_written(ops) + Seq::<u8>::empty() =~= fifo_written(ops));
}

/// Controller of one RFM69 chip, owning its bus `S`, its chip select line `T`
/// and its delay source `D`.
pub struct Rfm69<T, S, D> {
    spi: S,
    cs: T,
    delay: D,
    mode: Mode,
    dio: [Option<DioMapping>; 6],
    rssi: u8,
    timeout: u8,
    step: u8,
    log: Ghost<Seq<BusOp>>,
    outcome_log: Ghost<Seq<bool>>,
    cs_log: Ghost<Seq<bool>>,
    delay_log: Ghost<Seq<u8>>,
}

impl<T, S, D> Rfm69<T, S, D> {
    /// Every bus transaction issued so far, in order.
    pub closed spec fn ops(&self) -> Seq<BusOp> {
        self.log@
    }

    /// The mode last written to the chip.
    pub closed spec fn current_mode(&self) -> Mode {
        self.mode
    }

    /// The DIO mapping slots, one per pin.
    pub closed spec fn mappings(&self) -> Seq<Option<DioMapping>> {
        self.dio@
    }

    /// The raw `RegRssiValue` read by the last receive.
    pub closed spec fn last_rssi(&self) -> u8 {
        self.rssi
    }

    /// Budget of the bounded waits, in milliseconds.
    pub closed spec fn timeout_ms(&self) -> u8 {
        self.timeout
    }

    /// Pause between two checks of a bounded wait, in milliseconds.
    pub closed spec fn step_ms(&self) -> u8 {
        self.step
    }

    /// For each transaction of `ops()`, whether the bus reported success.
    pub closed spec fn outcomes(&self) -> Seq<bool> {
        self.outcome_log@
    }

    /// Every call on the chip select line, in order: `true` for driving it low
    /// (select), `false` for driving it high (release).
    pub closed spec fn cs_calls(&self) -> Seq<bool> {
        self.cs_log@
    }

    /// Every pause taken, in milliseconds, in order.
    pub closed spec fn delays(&self) -> Seq<u8> {
        self.delay_log@
    }

    /// Slot `i` maps pin `i` or nothing, and waits make progress.
    pub open spec fn wf(&self) -> bool {
        slots_wf(self.mappings()) && self.step_ms() > 0
    }

    /// The DIO word that a mode change to `mode` writes (see `mode`) holds, in
    /// the field of each pin, the signal code of the pin's mapping when that
    /// mapping is for `mode`, and 0 when it is for another mode or the pin has
    /// no mapping.
    pub proof fn lemma_mode_dio_fields(&self, mode: Mode)
        requires
            self.wf(),
        ensures
            forall|i: int|
                0 <= i < 6 ==> (dio_word(mode, self.mappings()) >> slot_shift(i as nat)) & 0x03
                    == slot_code(mode, #[trigger] self.mappings()[i]),
            forall|i: int|
                0 <= i < 6 ==> match #[trigger] self.mappings()[i] {
                    Some(m) => m.pin.slot() == i && (dio_word(mode, self.mappings()) >> slot_shift(
                        i as nat,
                    )) & 0x03 == if m.dio_mode.mode() == mode {
                        m.dio_type.code() as u16
                    } else {
                        0u16
                    },
                    None => (dio_word(mode, self.mappings()) >> slot_shift(i as nat)) & 0x03 == 0,
                },
    {
        lemma_dio_word_fields(mode, self.mappings());
    }

    /// `self` holds the same mappings and wait settings as `other`.
    pub open spec fn keeps(&self, other: &Self) -> bool {
        &&& self.mappings() == other.mappings()
        &&& self.timeout_ms() == other.timeout_ms()
        &&& self.step_ms() == other.step_ms()
    }

    /// `self` differs from `other` at most in the calls made on the bus, the
    /// chip select line and the delay source.
    pub open spec fn same_state(&self, other: &Self) -> bool {
        &&& self.keeps(other)
        &&& self.current_mode() == other.current_mode()
        &&& self.last_rssi() == other.last_rssi()
    }

    /// No call was made on the bus, the chip select line or the delay source
    /// between `other` and `self`.
    pub open spec fn quiet(&self, other: &Self) -> bool {
        &&& self.ops() == other.ops()
        &&& self.outcomes() == other.outcomes()
        &&& self.cs_calls() == other.cs_calls()
        &&& self.delays() == other.delays()
    }
}

impl<S: ReadWrite, D: DelayMs> Rfm69<NoCs, S, D> {
    /// Creates a controller whose bus drives the chip select line itself.
    pub fn new_without_cs(spi: S, delay: D) -> (r: Self)
        ensures
            r.wf(),
            r.ops() == Seq::<BusOp>::empty(),
            r.outcomes() == Seq::<bool>::empty(),
            r.cs_calls() == Seq::<bool>::empty(),
            r.delays() == Seq::<u8>::empty(),
            r.current_mode() == Mode::Standby,
            r.mappings() == seq![None::<DioMapping>, None, None, None, None, None],
            r.timeout_ms() == DEFAULT_TIMEOUT_MS,
            r.step_ms() == DEFAULT_STEP_MS,
    {
        Self::new(spi, NoCs, delay)
    }
}

impl<T: ChipSelect, S: ReadWrite, D: DelayMs> Rfm69<T, S, D> {
    /// Creates a controller with the state that the chip has after a reset.
    pub fn new(spi: S, cs: T, delay: D) -> (r: Self)
        ensures
            r.wf(),
            r.ops() == Seq::<BusOp>::empty(),
            r.outcomes() == Seq::<bool>::empty(),
            r.cs_calls() == Seq::<bool>::empty(),
            r.delays() == Seq::<u8>::empty(),
            r.current_mode() == Mode::Standby,
            r.mappings() == seq![None::<DioMapping>, None, None, None, None, None],
            r.last_rssi() == 0,
            r.timeout_ms() == DEFAULT_TIMEOUT_MS,
            r.step_ms() == DEFAULT_STEP_MS,
    {
        let r = Rfm69 {
            spi,
            cs,
            delay,
            mode: Mode::Standby,
            dio: [None, None, None, None, None, None],
            rssi: 0,
            timeout: DEFAULT_TIMEOUT_MS,
            step: DEFAULT_STEP_MS,
            log: Ghost(Seq::empty()),
            outcome_log: Ghost(Seq::empty()),
            cs_log: Ghost(Seq::empty()),
            delay_log: Ghost(Seq::empty()),
        };
        assert(r.dio@ =~= seq![None::<DioMapping>, None, None, None, None, None]);
        r
    }

    /// The register bus.
    pub fn bus(&self) -> &S {
        &self.spi
    }

    /// The chip select line.
    pub fn chip_select(&self) -> &T {
        &self.cs
    }

    /// The delay source.
    pub fn delay_source(&self) -> &D {
        &self.delay
    }

    /// Sets the budget of the bounded waits and the pause between two checks.
    pub fn set_timeout(&mut self, timeout: u8, step: u8)
        requires
            step > 0,
        ensures
            final(self).timeout_ms() == timeout,
            final(self).step_ms() == step,
            final(self).ops() == old(self).ops(),
            final(self).current_mode() == old(self).current_mode(),
            final(self).mappings() == old(self).mappings(),
            old(self).wf() ==> final(self).wf(),
    {
        self.timeout = timeout;
        self.step = step;
    }

    /// Direct write to consecutive registers starting at `reg`.
    pub fn write_many(&mut self, reg: Registers, data: &[u8]) -> (r: Result<
        (),
        Error<T::Error, S::Error>,
    >)
        ensures
            final(self).same_state(old(self)),
            final(self).delays() == old(self).delays(),
            old(self).ops().len() <= final(self).ops().len(),
            r is Err && r->Err_0 is Cs ==> final(self).ops() == old(self).ops()
                && final(self).outcomes() == old(self).outcomes()
                && final(self).cs_calls() == old(self).cs_calls().push(true),
            !(r is Err && r->Err_0 is Cs) ==> final(self).ops() == old(self).ops().push(
                BusOp::Write { reg, data: data@ },
            ) && final(self).outcomes() == old(self).outcomes().push(r is Ok)
                && final(self).cs_calls() == old(self).cs_calls() + seq![true, false],
            r is Err ==> r->Err_0 is Cs || r->Err_0 is Spi,
    {
        let c = self.cs.set_low();
        proof {
            self.cs_log = Ghost(self.cs_log@.push(true));
        }
        match c {
            Err(e) => {
                return Err(Error::Cs(e));
            },
            Ok(()) => {},
        }
        let r = self.spi.write_many(reg, data);
        proof {
            self.log = Ghost(self.log@.push(BusOp::Write { reg, data: data@ }));
            self.outcome_log = Ghost(self.outcome_log@.push(r is Ok));
        }
        let _ = self.cs.set_high();
        proof {
            self.cs_log = Ghost(self.cs_log@.push(false));
            assert(self.cs_log@ =~= old(self).cs_log@ + seq![true, false]);
        }
        match r {
            Ok(()) => Ok(()),
            Err(e) => Err(Error::Spi(e)),
        }
    }

    /// Direct read from consecutive registers starting at `reg`.
    pub fn read_many(&mut self, reg: Registers, buffer: &mut [u8]) -> (r: Result<
        (),
        Error<T::Error, S::Error>,
    >)
        ensures
            final(self).same_state(old(self)),
            final(self).delays() == old(self).delays(),
            final(buffer)@.len() == old(buffer)@.len(),
            old(self).ops().len() <= final(self).ops().len(),
            r is Err && r->Err_0 is Cs ==> final(self).ops() == old(self).ops()
                && final(self).outcomes() == old(self).outcomes()
                && final(self).cs_calls() == old(self).cs_calls().push(true)
                && final(buffer)@ == old(buffer)@,
            !(r is Err && r->Err_0 is Cs) ==> final(self).ops() == old(self).ops().push(
                BusOp::Read { reg, data: final(buffer)@ },
            ) && final(self).outcomes() == old(self).outcomes().push(r is Ok)
                && final(self).cs_calls() == old(self).cs_calls() + seq![true, false],
            r is Err ==> r->Err_0 is Cs || r->Err_0 is Spi,
    {
        let c = self.cs.set_low();
        proof {
            self.cs_log = Ghost(self.cs_log@.push(true));
        }
        match c {
            Err(e) => {
                return Err(Error::Cs(e));
            },
            Ok(()) => {},
        }
        let r = self.spi.read_many(reg, buffer);
        proof {
            self.log = Ghost(self.log@.push(BusOp::Read { reg, data: buffer@ }));
            self.outcome_log = Ghost(self.outcome_log@.push(r is Ok));
        }
        let _ = self.cs.set_high();
        proof {
            self.cs_log = Ghost(self.cs_log@.push(false));
            assert(self.cs_log@ =~= old(self).cs_log@ + seq![true, false]);
        }
        match r {
            Ok(()) => Ok(()),
            Err(e) => Err(Error::Spi(e)),
        }
    }

    /// Direct write of one register.
    pub fn write(&mut self, reg: Registers, val: u8) -> (r: Result<(), Error<T::Error, S::Error>>)
        ensures
            final(self).same_state(old(self)),
            final(self).delays() == old(self).delays(),
            old(self).ops().len() <= final(self).ops().len(),
            r is Err && r->Err_0 is Cs ==> final(self).ops() == old(self).ops()
                && final(self).outcomes() == old(self).outcomes()
                && final(self).cs_calls() == old(self).cs_calls().push(true),
            !(r is Err && r->Err_0 is Cs) ==> final(self).ops() == old(self).ops().push(
                write_op(reg, val),
            ) && final(self).outcomes() == old(self).outcomes().push(r is Ok)
                && final(self).cs_calls() == old(self).cs_calls() + seq![true, false],
            r is Ok ==> final(self).ops() == old(self).ops().push(write_op(reg, val)),
            r is Err ==> r->Err_0 is Cs || r->Err_0 is Spi,
    {
        let data = [val];
        assert(data@ =~= seq![val]);
        self.write_many(reg, &data)
    }

    /// Direct read of one register.
    pub fn read(&mut self, reg: Registers) -> (r: Result<u8, Error<T::Error, S::Error>>)
        ensures
            final(self).same_state(old(self)),
            final(self).delays() == old(self).delays(),
            old(self).ops().len() <= final(self).ops().len(),
            r is Err && r->Err_0 is Cs ==> final(self).ops() == old(self).ops()
                && final(self).outcomes() == old(self).outcomes()
                && final(self).cs_calls() == old(self).cs_calls().push(true),
            !(r is Err && r->Err_0 is Cs) ==> final(self).ops().len() == old(self).ops().len() + 1
                && final(self).ops().drop_last() == old(self).ops() && reads_byte(
                final(self).ops().last(),
                reg,
            ) && final(self).outcomes() == old(self).outcomes().push(r is Ok)
                && final(self).cs_calls() == old(self).cs_calls() + seq![true, false],
            r is Ok ==> final(self).ops() == old(self).ops().push(
                BusOp::Read { reg, data: seq![r->Ok_0] },
            ),
            r is Err ==> r->Err_0 is Cs || r->Err_0 is Spi,
    {
        let mut buffer = [0u8; 1];
        let r = self.read_many(reg, &mut buffer);
        proof {
            if !(r is Err && r->Err_0 is Cs) {
                assert(self.ops().drop_last() =~= old(self).ops());
            }
        }
        match r {
            Ok(()) => {
                assert(buffer@ =~= seq![buffer[0]]);
                Ok(buffer[0])
            },
            Err(e) => Err(e),
        }
    }

    /// Reads all registers from `RegOpMode` to `RegTemp2`.
    pub fn read_all_regs(&mut self) -> (r: Result<[u8; 79], Error<T::Error, S::Error>>)
        ensures
            final(self).same_state(old(self)),
            final(self).delays() == old(self).delays(),
            r is Ok ==> final(self).ops() == old(self).ops().push(
                BusOp::Read { reg: Registers::OpMode, data: r->Ok_0@ },
            ),
            r is Ok ==> final(self).cs_calls() == old(self).cs_calls() + seq![true, false],
            r is Err ==> final(self).ops() == old(self).ops() || (final(self).ops().len()
                == old(self).ops().len() + 1 && final(self).ops().drop_last() == old(self).ops()
                && final(self).ops().last() is Read),
            r is Err ==> r->Err_0.is_bus(),
    {
        let mut buffer = [0u8; 79];
        let r = self.read_many(Registers::OpMode, &mut buffer);
        proof {
            if !(r is Err && r->Err_0 is Cs) {
                assert(self.ops().drop_last() =~= old(self).ops());
            }
        }
        match r {
            Ok(()) => Ok(buffer),
            Err(e) => Err(e),
        }
    }
}


impl<T: ChipSelect, S: ReadWrite, D: DelayMs> Rfm69<T, S, D> {
    /// Read-modify-write of one register: keeps the bits of `keep`, sets those
    /// of `set`.
    fn update(&mut self, reg: Registers, keep: u8, set: u8) -> (r: Result<
        (),
        Error<T::Error, S::Error>,
    >)
        ensures
            final(self).same_state(old(self)),
            final(self).delays() == old(self).delays(),
            old(self).ops().len() <= final(self).ops().len(),
            r is Ok ==> updated_then(old(self).ops(), final(self).ops(), reg, keep, set, seq![]),
            r is Ok ==> final(self).outcomes() == old(self).outcomes() + seq![true, true],
            r is Err ==> update_failed(old(self).ops(), final(self).ops(), old(self).outcomes(), final(self).outcomes(), reg, keep, set),
            r is Err ==> r->Err_0.is_bus(),
    {
        let val = match self.read(reg) {
            Ok(v) => v,
            Err(e) => {
                proof {
                    if !(e is Cs) {
                        assert(self.outcomes().drop_last() =~= old(self).outcomes());
                    }
                }
                return Err(e);
            },
        };
        let ghost mid = self.ops();
        let r = self.write(reg, (val & keep) | set);
        proof {
            if r is Ok {
                assert(self.outcomes() =~= old(self).outcomes() + seq![true, true]);
            }
            if r is Err && !(r->Err_0 is Cs) {
                assert(self.outcomes() =~= old(self).outcomes() + seq![true, false]);
            }
            if r is Err && r->Err_0 is Cs {
                assert(self.outcomes().drop_last() =~= old(self).outcomes());
            }
            if !(r is Err && r->Err_0 is Cs) {
                let n = old(self).ops().len() as int;
                assert(self.ops().subrange(0, n) =~= old(self).ops());
                assert(self.ops().subrange(n + 2, self.ops().len() as int) =~= Seq::<BusOp>::empty());
                assert(self.ops()[n] == mid[n]);
            }
        }
        r
    }

    /// Writes the DIO word for the current mode and mappings.
    fn dio(&mut self) -> (r: Result<(), Error<T::Error, S::Error>>)
        ensures
            final(self).same_state(old(self)),
            final(self).delays() == old(self).delays(),
            old(self).ops().len() <= final(self).ops().len(),
            r is Ok ==> final(self).ops() == old(self).ops().push(
                BusOp::Write {
                    reg: Registers::DioMapping1,
                    data: be16(dio_word(old(self).current_mode(), old(self).mappings())),
                },
            ),
            r is Err && r->Err_0 is Cs ==> final(self).ops() == old(self).ops()
                && final(self).outcomes() == old(self).outcomes(),
            !(r is Err && r->Err_0 is Cs) ==> final(self).ops() == old(self).ops().push(
                BusOp::Write {
                    reg: Registers::DioMapping1,
                    data: be16(dio_word(old(self).current_mode(), old(self).mappings())),
                },
            ) && final(self).outcomes() == old(self).outcomes().push(r is Ok),
            r is Err ==> r->Err_0.is_bus(),
    {
        proof {
            assert(old(self).ops().len() <= old(self).ops().len());
        }
        let reg = dio_register(self.mode, &self.dio);
        let bytes = be16_bytes(reg);
        self.write_many(Registers::DioMapping1, &bytes)
    }

    /// Sets the operating mode in `RegOpMode`, then rewrites the DIO word for
    /// the new mode.
    pub fn mode(&mut self, mode: Mode) -> (r: Result<(), Error<T::Error, S::Error>>)
        ensures
            final(self).keeps(old(self)),
            final(self).last_rssi() == old(self).last_rssi(),
            final(self).delays() == old(self).delays(),
            old(self).ops().len() <= final(self).ops().len(),
            r is Ok ==> final(self).current_mode() == mode,
            r is Ok ==> mode_changed(old(self).ops(), final(self).ops(), mode, old(self).mappings()),
            r is Err ==> (final(self).current_mode() == old(self).current_mode() && update_failed(
                old(self).ops(),
                final(self).ops(),
                old(self).outcomes(),
                final(self).outcomes(),
                Registers::OpMode,
                0xe3,
                mode.code(),
            )) || (final(self).current_mode() == mode && final(self).ops().len() == old(
                self,
            ).ops().len() + 3 && updated_then(
                old(self).ops(),
                final(self).ops(),
                Registers::OpMode,
                0xe3,
                mode.code(),
                seq![final(self).ops().last()],
            ) && final(self).outcomes() == old(self).outcomes() + seq![true, true, false]) || (
            final(self).current_mode() == mode && final(self).ops().len() == old(self).ops().len()
                + 2 && updated_then(
                old(self).ops(),
                final(self).ops(),
                Registers::OpMode,
                0xe3,
                mode.code(),
                seq![],
            ) && final(self).outcomes() == old(self).outcomes() + seq![true, true]),
            r is Ok ==> fifo_read(final(self).ops()) == fifo_read(old(self).ops()),
            r is Ok ==> fifo_written(final(self).ops()) == fifo_written(old(self).ops()),
            r is Err ==> r->Err_0.is_bus(),
    {
        let val = mode.value();
        match self.update(Registers::OpMode, 0xe3, val) {
            Ok(()) => {},
            Err(e) => {
                return Err(e);
            },
        }
        let ghost mid = self.ops();
        self.mode = mode;
        let r = self.dio();
        proof {
            let n = old(self).ops().len() as int;
            if r is Err && r->Err_0 is Cs {
                assert(self.ops().subrange(n + 2, self.ops().len() as int) =~= Seq::<BusOp>::empty());
            }
            if r is Err && !(r->Err_0 is Cs) {
                assert(self.ops().subrange(0, n) =~= mid.subrange(0, n));
                assert(self.ops()[n] == mid[n]);
                assert(self.ops()[n + 1] == mid[n + 1]);
                assert(self.ops().subrange(n + 2, self.ops().len() as int) =~= seq![self.ops().last()]);
                assert(self.outcomes() =~= old(self).outcomes() + seq![true, true, false]);
            }
            if r is Ok {
                let o = old(self).ops();
                let n = o.len() as int;
                let w = BusOp::Write {
                    reg: Registers::DioMapping1,
                    data: be16(dio_word(mode, old(self).mappings())),
                };
                assert(self.ops().subrange(0, n) =~= o);
                assert(self.ops().subrange(n + 2, self.ops().len() as int) =~= seq![w]);
                assert(self.ops()[n] == mid[n]);
                assert(self.ops()[n + 1] == mid[n + 1]);
                assert(mid =~= o.push(mid[n]).push(mid[n + 1]));
                lemma_no_fifo(o, mid[n]);
                lemma_no_fifo(o.push(mid[n]), mid[n + 1]);
                lemma_no_fifo(mid, w);
            }
        }
        r
    }

    /// Stores a DIO mapping in the slot of its pin, then rewrites the DIO word
    /// for the current mode.
    pub fn dio_mapping(&mut self, mapping: DioMapping) -> (r: Result<
        (),
        Error<T::Error, S::Error>,
    >)
        requires
            old(self).wf(),
        ensures
            final(self).wf(),
            final(self).mappings() == old(self).mappings().update(
                mapping.pin.slot() as int,
                Some(mapping),
            ),
            final(self).current_mode() == old(self).current_mode(),
            final(self).last_rssi() == old(self).last_rssi(),
            final(self).timeout_ms() == old(self).timeout_ms(),
            final(self).step_ms() == old(self).step_ms(),
            r is Ok ==> final(self).ops() == old(self).ops().push(
                BusOp::Write {
                    reg: Registers::DioMapping1,
                    data: be16(dio_word(final(self).current_mode(), final(self).mappings())),
                },
            ),
            r is Err ==> r->Err_0.is_bus(),
    {
        let i = mapping.pin.index();
        self.dio[i] = Some(mapping);
        proof {
            assert forall|j: int| 0 <= j < 6 implies match #[trigger] self.dio@[j] {
                Some(m) => m.pin.slot() == j,
                None => true,
            } by {
                if j != i as int {
                    assert(self.dio@[j] == old(self).dio@[j]);
                }
            }
        }
        self.dio()
    }

    /// Clears the DIO mapping of `pin`, then rewrites the DIO word for the
    /// current mode.
    pub fn clear_dio(&mut self, pin: DioPin) -> (r: Result<(), Error<T::Error, S::Error>>)
        requires
            old(self).wf(),
        ensures
            final(self).wf(),
            final(self).mappings() == old(self).mappings().update(pin.slot() as int, None),
            final(self).current_mode() == old(self).current_mode(),
            final(self).last_rssi() == old(self).last_rssi(),
            final(self).timeout_ms() == old(self).timeout_ms(),
            final(self).step_ms() == old(self).step_ms(),
            r is Ok ==> final(self).ops() == old(self).ops().push(
                BusOp::Write {
                    reg: Registers::DioMapping1,
                    data: be16(dio_word(final(self).current_mode(), final(self).mappings())),
                },
            ),
            r is Err ==> r->Err_0.is_bus(),
    {
        let i = pin.index();
        self.dio[i] = None;
        proof {
            assert forall|j: int| 0 <= j < 6 implies match #[trigger] self.dio@[j] {
                Some(m) => m.pin.slot() == j,
                None => true,
            } by {
                if j != i as int {
                    assert(self.dio@[j] == old(self).dio@[j]);
                }
            }
        }
        self.dio()
    }
}

impl<T: ChipSelect, S: ReadWrite, D: DelayMs> Rfm69<T, S, D> {
    /// Sets the modulation in `RegDataModul`.
    pub fn modulation(&mut self, modulation: Modulation) -> (r: Result<(), Error<T::Error, S::Error>>)
        ensures
            final(self).same_state(old(self)),
            final(self).delays() == old(self).delays(),
            r is Ok ==> final(self).ops() == old(self).ops().push(write_op(Registers::DataModul, modulation.code())),
            r is Err ==> r->Err_0.is_bus(),
    {
        self.write(Registers::DataModul, modulation.value())
    }

    /// Sets the bit rate, in bits per second, as the divisor `round(FOSC / bit_rate)` in
    /// `RegBitrateMsb` and `RegBitrateLsb`.
    pub fn bit_rate(&mut self, bit_rate: u32) -> (r: Result<(), Error<T::Error, S::Error>>)
        requires
            bit_rate > 0,
        ensures
            final(self).same_state(old(self)),
            final(self).delays() == old(self).delays(),
            r is Ok ==> final(self).ops() == old(self).ops().push(
                BusOp::Write { reg: Registers::BitrateMsb, data: be16(bit_rate_word(bit_rate as nat)) },
            ),
            r is Err ==> r->Err_0.is_bus(),
    {
        let bytes = be16_bytes(bit_rate_register(bit_rate));
        self.write_many(Registers::BitrateMsb, &bytes)
    }

    /// Sets the frequency deviation, in Hz, as `round(fdev / FSTEP)` in `RegFdevMsb`
    /// and `RegFdevLsb`.
    pub fn fdev(&mut self, fdev: u32) -> (r: Result<(), Error<T::Error, S::Error>>)
        ensures
            final(self).same_state(old(self)),
            final(self).delays() == old(self).delays(),
            r is Ok ==> final(self).ops() == old(self).ops().push(
                BusOp::Write { reg: Registers::FdevMsb, data: be16(fdev_word(fdev as nat)) },
            ),
            r is Err ==> r->Err_0.is_bus(),
    {
        let bytes = be16_bytes(fdev_register(fdev));
        self.write_many(Registers::FdevMsb, &bytes)
    }

    /// Sets the carrier frequency, in Hz, as `round(frequency / FSTEP)` in
    /// `RegFrfMsb`, `RegFrfMid` and `RegFrfLsb`.
    pub fn frequency(&mut self, frequency: u32) -> (r: Result<(), Error<T::Error, S::Error>>)
        ensures
            final(self).same_state(old(self)),
            final(self).delays() == old(self).delays(),
            r is Ok ==> final(self).ops() == old(self).ops().push(
                BusOp::Write { reg: Registers::FrfMsb, data: be24(frequency_word(frequency as nat)) },
            ),
            r is Err ==> r->Err_0.is_bus(),
    {
        let bytes = be24_bytes(frequency_register(frequency));
        self.write_many(Registers::FrfMsb, &bytes)
    }

    /// Sets the preamble length in `RegPreambleMsb` and `RegPreambleLsb`.
    pub fn preamble(&mut self, reg: u16) -> (r: Result<(), Error<T::Error, S::Error>>)
        ensures
            final(self).same_state(old(self)),
            final(self).delays() == old(self).delays(),
            r is Ok ==> final(self).ops() == old(self).ops().push(
                BusOp::Write { reg: Registers::PreambleMsb, data: be16(reg) },
            ),
            r is Err ==> r->Err_0.is_bus(),
    {
        let bytes = be16_bytes(reg);
        self.write_many(Registers::PreambleMsb, &bytes)
    }

    /// Sets the node address in `RegNodeAdrs`.
    pub fn node_address(&mut self, a: u8) -> (r: Result<(), Error<T::Error, S::Error>>)
        ensures
            final(self).same_state(old(self)),
            final(self).delays() == old(self).delays(),
            r is Ok ==> final(self).ops() == old(self).ops().push(write_op(Registers::NodeAddrs, a)),
            r is Err ==> r->Err_0.is_bus(),
    {
        self.write(Registers::NodeAddrs, a)
    }

    /// Sets the broadcast address in `RegBroadcastAdrs`.
    pub fn broadcast_address(&mut self, a: u8) -> (r: Result<(), Error<T::Error, S::Error>>)
        ensures
            final(self).same_state(old(self)),
            final(self).delays() == old(self).delays(),
            r is Ok ==> final(self).ops() == old(self).ops().push(write_op(Registers::BroadcastAddrs, a)),
            r is Err ==> r->Err_0.is_bus(),
    {
        self.write(Registers::BroadcastAddrs, a)
    }

    /// Sets the RSSI threshold in `RegRssiThresh`.
    pub fn rssi_threshold(&mut self, threshold: u8) -> (r: Result<(), Error<T::Error, S::Error>>)
        ensures
            final(self).same_state(old(self)),
            final(self).delays() == old(self).delays(),
            r is Ok ==> final(self).ops() == old(self).ops().push(write_op(Registers::RssiThresh, threshold)),
            r is Err ==> r->Err_0.is_bus(),
    {
        self.write(Registers::RssiThresh, threshold)
    }

    /// Sets `RegTestLna`.
    pub fn sensitivity_boost(&mut self, boost: SensitivityBoost) -> (r: Result<(), Error<T::Error, S::Error>>)
        ensures
            final(self).same_state(old(self)),
            final(self).delays() == old(self).delays(),
            r is Ok ==> final(self).ops() == old(self).ops().push(write_op(Registers::TestLna, boost.code())),
            r is Err ==> r->Err_0.is_bus(),
    {
        self.write(Registers::TestLna, boost.value())
    }

    /// Sets `RegTestPa1`.
    pub fn pa13_dbm1(&mut self, pa13: Pa13dBm1) -> (r: Result<(), Error<T::Error, S::Error>>)
        ensures
            final(self).same_state(old(self)),
            final(self).delays() == old(self).delays(),
            r is Ok ==> final(self).ops() == old(self).ops().push(write_op(Registers::TestPa1, pa13.code())),
            r is Err ==> r->Err_0.is_bus(),
    {
        self.write(Registers::TestPa1, pa13.value())
    }

    /// Sets `RegTestPa2`.
    pub fn pa13_dbm2(&mut self, pa13: Pa13dBm2) -> (r: Result<(), Error<T::Error, S::Error>>)
        ensures
            final(self).same_state(old(self)),
            final(self).delays() == old(self).delays(),
            r is Ok ==> final(self).ops() == old(self).ops().push(write_op(Registers::TestPa2, pa13.code())),
            r is Err ==> r->Err_0.is_bus(),
    {
        self.write(Registers::TestPa2, pa13.value())
    }

    /// Sets `RegTestDagc`.
    pub fn continuous_dagc(&mut self, cdagc: ContinuousDagc) -> (r: Result<(), Error<T::Error, S::Error>>)
        ensures
            final(self).same_state(old(self)),
            final(self).delays() == old(self).delays(),
            r is Ok ==> final(self).ops() == old(self).ops().push(write_op(Registers::TestDagc, cdagc.code())),
            r is Err ==> r->Err_0.is_bus(),
    {
        self.write(Registers::TestDagc, cdagc.value())
    }

    /// Sets the channel filter bandwidth in `RegRxBw`.
    pub fn rx_bw<B: RxBwFreq>(&mut self, rx_bw: RxBw<B>) -> (r: Result<(), Error<T::Error, S::Error>>)
        ensures
            final(self).same_state(old(self)),
            final(self).delays() == old(self).delays(),
            r is Ok ==> final(self).ops() == old(self).ops().push(write_op(Registers::RxBw, (rx_bw.dcc_cutoff.code() | rx_bw.rx_bw.code()) as u8)),
            r is Err ==> r->Err_0.is_bus(),
    {
        self.write(Registers::RxBw, rx_bw.dcc_cutoff.value() | rx_bw.rx_bw.value())
    }

    /// Sets the AFC channel filter bandwidth in `RegAfcBw`.
    pub fn rx_afc_bw<B: RxBwFreq>(&mut self, rx_bw: RxBw<B>) -> (r: Result<(), Error<T::Error, S::Error>>)
        ensures
            final(self).same_state(old(self)),
            final(self).delays() == old(self).delays(),
            r is Ok ==> final(self).ops() == old(self).ops().push(write_op(Registers::AfcBw, (rx_bw.dcc_cutoff.code() | rx_bw.rx_bw.code()) as u8)),
            r is Err ==> r->Err_0.is_bus(),
    {
        self.write(Registers::AfcBw, rx_bw.dcc_cutoff.value() | rx_bw.rx_bw.value())
    }

    /// Whether the IRQ flag `FifoNotEmpty` is clear.
    pub fn is_fifo_empty(&mut self) -> (r: Result<bool, Error<T::Error, S::Error>>)
        ensures
            final(self).same_state(old(self)),
            final(self).delays() == old(self).delays(),
            r is Ok ==> final(self).ops().len() == old(self).ops().len() + 1,
            r is Ok ==> final(self).ops().drop_last() == old(self).ops(),
            r is Ok ==> reads_byte(final(self).ops().last(), Registers::IrqFlags2),
            r is Ok ==> r->Ok_0 == (first_byte(final(self).ops().last()) & 0x40 == 0),
            r is Err ==> r->Err_0.is_bus(),
    {
        match self.read(Registers::IrqFlags2) {
            Ok(v) => {
                assert(self.ops().drop_last() =~= old(self).ops());
                Ok(v & 0x40 == 0)
            },
            Err(e) => Err(e),
        }
    }

    /// Whether the IRQ flag `FifoFull` is set.
    pub fn is_fifo_full(&mut self) -> (r: Result<bool, Error<T::Error, S::Error>>)
        ensures
            final(self).same_state(old(self)),
            final(self).delays() == old(self).delays(),
            r is Ok ==> final(self).ops().len() == old(self).ops().len() + 1,
            r is Ok ==> final(self).ops().drop_last() == old(self).ops(),
            r is Ok ==> reads_byte(final(self).ops().last(), Registers::IrqFlags2),
            r is Ok ==> r->Ok_0 == (first_byte(final(self).ops().last()) & 0x80 != 0),
            r is Err ==> r->Err_0.is_bus(),
    {
        match self.read(Registers::IrqFlags2) {
            Ok(v) => {
                assert(self.ops().drop_last() =~= old(self).ops());
                Ok(v & 0x80 != 0)
            },
            Err(e) => Err(e),
        }
    }

    /// Whether the IRQ flag `PayloadReady` is set.
    pub fn is_packet_ready(&mut self) -> (r: Result<bool, Error<T::Error, S::Error>>)
        ensures
            final(self).same_state(old(self)),
            final(self).delays() == old(self).delays(),
            r is Ok ==> final(self).ops().len() == old(self).ops().len() + 1,
            r is Ok ==> final(self).ops().drop_last() == old(self).ops(),
            r is Ok ==> reads_byte(final(self).ops().last(), Registers::IrqFlags2),
            r is Ok ==> r->Ok_0 == (first_byte(final(self).ops().last()) & 0x04 != 0),
            r is Err ==> r->Err_0.is_bus(),
    {
        match self.read(Registers::IrqFlags2) {
            Ok(v) => {
                assert(self.ops().drop_last() =~= old(self).ops());
                Ok(v & 0x04 != 0)
            },
            Err(e) => Err(e),
        }
    }

    /// Whether the IRQ flag `SyncAddressMatch` is set.
    pub fn is_sync_address_match(&mut self) -> (r: Result<bool, Error<T::Error, S::Error>>)
        ensures
            final(self).same_state(old(self)),
            final(self).delays() == old(self).delays(),
            r is Ok ==> final(self).ops().len() == old(self).ops().len() + 1,
            r is Ok ==> final(self).ops().drop_last() == old(self).ops(),
            r is Ok ==> reads_byte(final(self).ops().last(), Registers::IrqFlags1),
            r is Ok ==> r->Ok_0 == (first_byte(final(self).ops().last()) & 0x01 != 0),
            r is Err ==> r->Err_0.is_bus(),
    {
        match self.read(Registers::IrqFlags1) {
            Ok(v) => {
                assert(self.ops().drop_last() =~= old(self).ops());
                Ok(v & 0x01 != 0)
            },
            Err(e) => Err(e),
        }
    }

    /// Sets the LNA input impedance and gain in `RegLna`, keeping its other bits.
    pub fn lna(&mut self, lna: LnaConfig) -> (r: Result<(), Error<T::Error, S::Error>>)
        ensures
            final(self).same_state(old(self)),
            final(self).delays() == old(self).delays(),
            r is Ok ==> updated_then(
                old(self).ops(),
                final(self).ops(),
                Registers::Lna,
                0x78,
                lna.zin.code() | lna.gain_select.code(),
                seq![],
            ),
            r is Err ==> r->Err_0.is_bus(),
    {
        let reg = lna.zin.value() | lna.gain_select.value();
        self.update(Registers::Lna, 0x78, reg)
    }

    /// Sets the FIFO threshold mode in `RegFifoThresh`: `NotEmpty` sets bit 7 and
    /// keeps the rest, `Level(n)` writes `n` masked to 7 bits.
    pub fn fifo_mode(&mut self, mode: FifoMode) -> (r: Result<(), Error<T::Error, S::Error>>)
        ensures
            final(self).same_state(old(self)),
            final(self).delays() == old(self).delays(),
            r is Ok ==> match mode {
                FifoMode::NotEmpty => updated_then(
                    old(self).ops(),
                    final(self).ops(),
                    Registers::FifoThresh,
                    0xff,
                    0x80,
                    seq![],
                ),
                FifoMode::Level(level) => final(self).ops() == old(self).ops().push(
                    write_op(Registers::FifoThresh, level & 0x7f),
                ),
            },
            r is Err ==> r->Err_0.is_bus(),
    {
        match mode {
            FifoMode::NotEmpty => self.update(Registers::FifoThresh, 0xff, 0x80),
            FifoMode::Level(level) => self.write(Registers::FifoThresh, level & 0x7f),
        }
    }

    /// Sets the sync word in `RegSyncConfig` and `RegSyncValue1..8`. An empty
    /// word clears the enable bit only; a word of 1 to 8 bytes sets the enable
    /// bit and the length, then writes the bytes; a longer one is refused.
    pub fn sync(&mut self, sync: &[u8]) -> (r: Result<(), Error<T::Error, S::Error>>)
        ensures
            final(self).same_state(old(self)),
            final(self).delays() == old(self).delays(),
            sync@.len() > 8 <==> r == Err::<(), Error<T::Error, S::Error>>(Error::SyncSize),
            sync@.len() > 8 ==> final(self).quiet(old(self)),
            r is Ok && sync@.len() == 0 ==> updated_then(
                old(self).ops(),
                final(self).ops(),
                Registers::SyncConfig,
                0x7f,
                0x00,
                seq![],
            ),
            r is Ok && sync@.len() > 0 ==> final(self).ops() == old(self).ops() + seq![
                write_op(Registers::SyncConfig, sync_config_byte(sync@.len())),
                BusOp::Write { reg: Registers::SyncValue1, data: sync@ },
            ],
            r is Err && sync@.len() <= 8 ==> r->Err_0.is_bus(),
    {
        let len = sync.len();
        if len == 0 {
            return self.update(Registers::SyncConfig, 0x7f, 0x00);
        } else if len > 8 {
            return Err(Error::SyncSize);
        }
        match self.write(Registers::SyncConfig, sync_config(len)) {
            Ok(()) => {},
            Err(e) => {
                return Err(e);
            },
        }
        let r = self.write_many(Registers::SyncValue1, sync);
        assert(r is Ok ==> self.ops() =~= old(self).ops() + seq![
            write_op(Registers::SyncConfig, sync_config_byte(sync@.len())),
            BusOp::Write { reg: Registers::SyncValue1, data: sync@ },
        ]);
        r
    }

    /// Sets the AES key in `RegAesKey1..16` and the enable bit in
    /// `RegPacketConfig2`. An empty key clears the enable bit only; a 16-byte
    /// key sets it and is written; any other length is refused.
    pub fn aes(&mut self, key: &[u8]) -> (r: Result<(), Error<T::Error, S::Error>>)
        ensures
            final(self).same_state(old(self)),
            final(self).delays() == old(self).delays(),
            (key@.len() != 0 && key@.len() != 16) <==> r == Err::<(), Error<T::Error, S::Error>>(
                Error::AesKeySize,
            ),
            (key@.len() != 0 && key@.len() != 16) ==> final(self).quiet(old(self)),
            r is Ok && key@.len() == 0 ==> updated_then(
                old(self).ops(),
                final(self).ops(),
                Registers::PacketConfig2,
                0xfe,
                0x00,
                seq![],
            ),
            r is Ok && key@.len() == 16 ==> updated_then(
                old(self).ops(),
                final(self).ops(),
                Registers::PacketConfig2,
                0xff,
                0x01,
                seq![BusOp::Write { reg: Registers::AesKey1, data: key@ }],
            ),
            r is Err && (key@.len() == 0 || key@.len() == 16) ==> r->Err_0.is_bus(),
    {
        let len = key.len();
        if len == 0 {
            return self.update(Registers::PacketConfig2, 0xfe, 0x00);
        } else if len == 16 {
            match self.update(Registers::PacketConfig2, 0xff, 0x01) {
                Ok(()) => {},
                Err(e) => {
                    return Err(e);
                },
            }
            let ghost mid = self.ops();
            let r = self.write_many(Registers::AesKey1, key);
            proof {
                if r is Ok {
                    let n = old(self).ops().len() as int;
                    assert(self.ops().subrange(0, n) =~= mid.subrange(0, n));
                    assert(self.ops().subrange(n + 2, self.ops().len() as int) =~= seq![
                        BusOp::Write { reg: Registers::AesKey1, data: key@ },
                    ]);
                    assert(self.ops()[n] == mid[n]);
                    assert(self.ops()[n + 1] == mid[n + 1]);
                }
            }
            return r;
        }
        Err(Error::AesKeySize)
    }

    /// Sets the packet framing: `RegPacketConfig1` and `RegPayloadLength` in one
    /// write, then the delay and auto-restart bits of `RegPacketConfig2`, keeping
    /// its bits `0x0d`.
    pub fn packet(&mut self, packet_config: PacketConfig) -> (r: Result<
        (),
        Error<T::Error, S::Error>,
    >)
        ensures
            final(self).same_state(old(self)),
            final(self).delays() == old(self).delays(),
            r is Ok ==> updated_then(
                old(self).ops().push(
                    BusOp::Write {
                        reg: Registers::PacketConfig1,
                        data: seq![
                            packet_config1_byte(packet_config),
                            payload_length_byte(packet_config),
                        ],
                    },
                ),
                final(self).ops(),
                Registers::PacketConfig2,
                0x0d,
                packet_config2_bits(packet_config),
                seq![],
            ),
            r is Err ==> final(self).ops() == old(self).ops() || (final(self).ops() == old(
                self,
            ).ops().push(BusOp::Write {
                    reg: Registers::PacketConfig1,
                    data: seq![packet_config1_byte(packet_config), payload_length_byte(packet_config)],
                }) && final(self).outcomes() == old(self).outcomes().push(false))
                || update_failed(
                old(self).ops().push(BusOp::Write {
                    reg: Registers::PacketConfig1,
                    data: seq![packet_config1_byte(packet_config), payload_length_byte(packet_config)],
                }),
                final(self).ops(),
                old(self).outcomes().push(true),
                final(self).outcomes(),
                Registers::PacketConfig2,
                0x0d,
                packet_config2_bits(packet_config),
            ),
            r is Err ==> r->Err_0.is_bus(),
    {
        let bytes = packet_config1(packet_config);
        match self.write_many(Registers::PacketConfig1, &bytes) {
            Ok(()) => {},
            Err(e) => {
                return Err(e);
            },
        }
        let reg = packet_config2(packet_config);
        self.update(Registers::PacketConfig2, 0x0d, reg)
    }

    /// The RSSI measured by the last receive, in steps of -0.5 dBm: the signal
    /// strength in dBm is half the returned value.
    pub fn rssi(&self) -> (r: i16)
        ensures
            r == -(self.last_rssi() as int),
    {
        -(self.rssi as i16)
    }
}


/// Number of checks that a bounded wait makes before it gives up: one at once,
/// then one after each pause of `step` until the pauses add up to `timeout`.
pub open spec fn timeout_polls(timeout: nat, step: nat) -> nat
    recommends
        step > 0,
{
    1 + ((timeout + step - 1) as nat) / step
}

/// A wait whose `k` pauses of `step` reached `timeout`, and whose `k - 1`
/// first pauses did not, checked `timeout_polls(timeout, step)` times.
proof fn lemma_polls(k: nat, timeout: nat, step: nat)
    requires
        step > 0,
        k * step >= timeout,
        k > 0 ==> (k - 1) * step < timeout,
    ensures
        k + 1 == timeout_polls(timeout, step),
{
    let n = (timeout + step - 1) as nat;
    let q = n / step;
    vstd::arithmetic::div_mod::lemma_fundamental_div_mod(n as int, step as int);
    vstd::arithmetic::div_mod::lemma_mod_bound(n as int, step as int);
    assert(step * q <= n < step * q + step);
    if q > k {
        vstd::arithmetic::mul::lemma_mul_inequality((k + 1) as int, q as int, step as int);
        assert(k * step + step == (k + 1) * step) by (nonlinear_arith);
        assert(false);
    }
    if q < k {
        vstd::arithmetic::mul::lemma_mul_inequality((q + 1) as int, k as int, step as int);
        assert(q * step + step == (q + 1) * step) by (nonlinear_arith);
        assert((k - 1) * step == k * step - step) by (nonlinear_arith);
        assert(step * q == q * step) by (nonlinear_arith);
        assert(false);
    }
}

/// A wait whose first `k - 1` pauses of `step` stayed below `timeout` made at
/// most `timeout_polls(timeout, step)` checks.
proof fn lemma_polls_bound(k: nat, timeout: nat, step: nat)
    requires
        step > 0,
        k > 0 ==> (k - 1) * step < timeout,
    ensures
        k + 1 <= timeout_polls(timeout, step),
{
    if k > 0 {
        let n = (timeout + step - 1) as nat;
        let q = n / step;
        vstd::arithmetic::div_mod::lemma_fundamental_div_mod(n as int, step as int);
        vstd::arithmetic::div_mod::lemma_mod_bound(n as int, step as int);
        if k > q {
            vstd::arithmetic::mul::lemma_mul_inequality((q + 1) as int, k as int, step as int);
            assert((q + 1) * step == q * step + step) by (nonlinear_arith);
            assert(k * step == (k - 1) * step + step) by (nonlinear_arith);
            assert(step * q == q * step) by (nonlinear_arith);
            assert(false);
        }
    }
}

impl<T: ChipSelect, S: ReadWrite, D: DelayMs> Rfm69<T, S, D> {
    /// Reads `reg` once and tells whether a bit of `mask` is set.
    fn check_flag(&mut self, reg: Registers, mask: u8) -> (r: Result<bool, Error<T::Error, S::Error>>)
        requires
            reg != Registers::Fifo,
        ensures
            final(self).same_state(old(self)),
            final(self).delays() == old(self).delays(),
            old(self).ops().len() <= final(self).ops().len(),
            fifo_read(final(self).ops()) == fifo_read(old(self).ops()),
            fifo_written(final(self).ops()) == fifo_written(old(self).ops()),
            final(self).ops() == old(self).ops() || (final(self).ops() == old(self).ops().push(
                final(self).ops().last(),
            ) && reads_byte(final(self).ops().last(), reg)),
            r is Ok ==> final(self).ops() == old(self).ops().push(final(self).ops().last()),
            r is Ok ==> r->Ok_0 == (first_byte(final(self).ops().last()) & mask != 0),
            r is Err ==> r->Err_0.is_bus(),
    {
        let r = self.read(reg);
        proof {
            if self.ops() != old(self).ops() {
                assert(self.ops() =~= old(self).ops().push(self.ops().last()));
                lemma_no_fifo(old(self).ops(), self.ops().last());
            }
        }
        match r {
            Ok(v) => Ok(v & mask != 0),
            Err(e) => Err(e),
        }
    }

    /// Checks `reg` until a bit of `mask` is set, pausing `step` milliseconds
    /// between two checks, and gives up with `Timeout` once the pauses add up
    /// to `timeout`. An error of a check is handed on as it came.
    fn with_timeout(&mut self, timeout: u8, step: u8, reg: Registers, mask: u8) -> (r: Result<
        (),
        Error<T::Error, S::Error>,
    >)
        requires
            step > 0,
            reg != Registers::Fifo,
        ensures
            final(self).same_state(old(self)),
            fifo_read(final(self).ops()) == fifo_read(old(self).ops()),
            fifo_written(final(self).ops()) == fifo_written(old(self).ops()),
            old(self).ops().len() <= final(self).ops().len(),
            final(self).ops().subrange(0, old(self).ops().len() as int) == old(self).ops(),
            r is Ok ==> polled(old(self).ops(), final(self).ops(), reg, mask, true)
                && final(self).ops().len() <= old(self).ops().len() + timeout_polls(
                timeout as nat,
                step as nat,
            ),
            r is Err && r->Err_0 is Timeout ==> final(self).ops().len() == old(self).ops().len()
                + timeout_polls(timeout as nat, step as nat) && gave_up(
                old(self).ops().len(),
                final(self).ops(),
                reg,
                mask,
                true,
                timeout_polls(timeout as nat, step as nat),
            ),
            r is Ok || r->Err_0 is Timeout ==> final(self).delays() == old(self).delays() + Seq::new(
                (final(self).ops().len() - old(self).ops().len() - 1) as nat,
                |_i: int| step,
            ),
            r is Err ==> r->Err_0 is Timeout || r->Err_0.is_bus(),
    {
        let ghost start = self.ops().len();
        let mut done = match self.check_flag(reg, mask) {
            Ok(b) => b,
            Err(e) => {
                assert(self.ops().subrange(0, start as int) =~= old(self).ops());
                return Err(e);
            },
        };
        assert(self.ops().subrange(0, start as int) =~= old(self).ops());
        assert(self.delays() =~= old(self).delays() + Seq::new(0, |_i: int| step));
        let mut count: u16 = 0;
        let ghost mut k: nat = 0;
        while !done && count < timeout as u16
            invariant
                step > 0,
                reg != Registers::Fifo,
                self.same_state(old(self)),
                self.ops().len() == start + k + 1,
                start == old(self).ops().len(),
                self.ops().subrange(0, start as int) == old(self).ops(),
                fifo_read(self.ops()) == fifo_read(old(self).ops()),
                fifo_written(self.ops()) == fifo_written(old(self).ops()),
                self.delays() == old(self).delays() + Seq::new(k, |_i: int| step),
                forall|i: int|
                    start <= i < self.ops().len() ==> reads_byte(#[trigger] self.ops()[i], reg),
                forall|i: int|
                    start <= i < self.ops().len() - 1 ==> !flag_of(#[trigger] self.ops()[i], mask),
                done == flag_of(self.ops().last(), mask),
                count as nat == k * step,
                k > 0 ==> (k - 1) * step < timeout,
                count <= timeout as u16 + step as u16,
            decreases timeout as int + step as int - count as int,
        {
            self.delay.delay_ms(step);
            proof {
                self.delay_log = Ghost(self.delay_log@.push(step));
                assert(Seq::new(k + 1, |_i: int| step) =~= Seq::new(k, |_i: int| step).push(step));
                assert(old(self).delays() + Seq::new(k + 1, |_i: int| step) =~= (old(self).delays()
                    + Seq::new(k, |_i: int| step)).push(step));
                assert((k + 1) * step == k * step + step) by (nonlinear_arith);
            }
            count = count + step as u16;
            let ghost before = self.ops();
            let r = self.check_flag(reg, mask);
            proof {
                assert(self.ops().subrange(0, start as int) =~= before.subrange(0, start as int));
            }
            match r {
                Ok(b) => {
                    done = b;
                },
                Err(e) => {
                    return Err(e);
                },
            }
            proof {
                k = k + 1;
            }
        }
        if !done {
            proof {
                lemma_polls(k, timeout as nat, step as nat);
            }
            return Err(Error::Timeout);
        }
        proof {
            lemma_polls_bound(k, timeout as nat, step as nat);
        }
        Ok(())
    }

    /// Checks `reg` until the flag of `mask` (some bit of it set) equals `set`.
    /// The chip is expected to get there; the wait gives up with `Timeout` only
    /// after `u64::MAX + 1` checks that all found the flag otherwise.
    fn poll_until(&mut self, reg: Registers, mask: u8, set: bool) -> (r: Result<
        (),
        Error<T::Error, S::Error>,
    >)
        requires
            reg != Registers::Fifo,
        ensures
            final(self).same_state(old(self)),
            final(self).delays() == old(self).delays(),
            fifo_read(final(self).ops()) == fifo_read(old(self).ops()),
            fifo_written(final(self).ops()) == fifo_written(old(self).ops()),
            old(self).ops().len() <= final(self).ops().len(),
            final(self).ops().subrange(0, old(self).ops().len() as int) == old(self).ops(),
            r is Ok ==> polled(old(self).ops(), final(self).ops(), reg, mask, set),
            r is Err && r->Err_0 is Timeout ==> gave_up(
                old(self).ops().len(),
                final(self).ops(),
                reg,
                mask,
                set,
                u64::MAX as nat + 1,
            ),
            r is Err ==> r->Err_0 is Timeout || r->Err_0.is_bus(),
    {
        let ghost start = self.ops().len();
        let mut polls: u64 = 0;
        assert(self.ops().subrange(0, start as int) =~= old(self).ops());
        loop
            invariant
                reg != Registers::Fifo,
                start == old(self).ops().len(),
                self.same_state(old(self)),
                self.delays() == old(self).delays(),
                fifo_read(self.ops()) == fifo_read(old(self).ops()),
                fifo_written(self.ops()) == fifo_written(old(self).ops()),
                self.ops().len() == start + polls,
                self.ops().subrange(0, start as int) == old(self).ops(),
                forall|i: int|
                    start <= i < self.ops().len() ==> reads_byte(#[trigger] self.ops()[i], reg)
                        && flag_of(self.ops()[i], mask) != set,
            decreases u64::MAX - polls,
        {
            let ghost before = self.ops();
            let r = self.check_flag(reg, mask);
            proof {
                assert(self.ops().subrange(0, start as int) =~= before.subrange(0, start as int));
            }
            match r {
                Ok(b) => {
                    if b == set {
                        return Ok(());
                    }
                },
                Err(e) => {
                    return Err(e);
                },
            }
            if polls == u64::MAX {
                return Err(Error::Timeout);
            }
            polls = polls + 1;
        }
    }

    /// Waits for the IRQ flag `ModeReady`, within the configured timeout.
    pub fn wait_mode_ready(&mut self) -> (r: Result<(), Error<T::Error, S::Error>>)
        requires
            old(self).wf(),
        ensures
            final(self).same_state(old(self)),
            fifo_read(final(self).ops()) == fifo_read(old(self).ops()),
            fifo_written(final(self).ops()) == fifo_written(old(self).ops()),
            old(self).ops().len() <= final(self).ops().len(),
            r is Ok ==> polled(old(self).ops(), final(self).ops(), Registers::IrqFlags1, 0x80, true)
                && final(self).ops().len() <= old(self).ops().len() + timeout_polls(
                old(self).timeout_ms() as nat,
                old(self).step_ms() as nat,
            ),
            r is Err && r->Err_0 is Timeout ==> final(self).ops().len() == old(self).ops().len()
                + timeout_polls(old(self).timeout_ms() as nat, old(self).step_ms() as nat)
                && gave_up(
                old(self).ops().len(),
                final(self).ops(),
                Registers::IrqFlags1,
                0x80,
                true,
                timeout_polls(old(self).timeout_ms() as nat, old(self).step_ms() as nat),
            ),
            r is Ok || r->Err_0 is Timeout ==> final(self).delays() == old(self).delays() + Seq::new(
                (final(self).ops().len() - old(self).ops().len() - 1) as nat,
                |_i: int| old(self).step_ms(),
            ),
            r is Err ==> r->Err_0 is Timeout || r->Err_0.is_bus(),
    {
        self.with_timeout(self.timeout, self.step, Registers::IrqFlags1, 0x80)
    }

    /// Waits for the IRQ flag `PacketSent`, within the configured timeout.
    pub fn wait_packet_sent(&mut self) -> (r: Result<(), Error<T::Error, S::Error>>)
        requires
            old(self).wf(),
        ensures
            final(self).same_state(old(self)),
            fifo_read(final(self).ops()) == fifo_read(old(self).ops()),
            fifo_written(final(self).ops()) == fifo_written(old(self).ops()),
            old(self).ops().len() <= final(self).ops().len(),
            r is Ok ==> polled(old(self).ops(), final(self).ops(), Registers::IrqFlags2, 0x08, true)
                && final(self).ops().len() <= old(self).ops().len() + timeout_polls(
                old(self).timeout_ms() as nat,
                old(self).step_ms() as nat,
            ),
            r is Err && r->Err_0 is Timeout ==> final(self).ops().len() == old(self).ops().len()
                + timeout_polls(old(self).timeout_ms() as nat, old(self).step_ms() as nat)
                && gave_up(
                old(self).ops().len(),
                final(self).ops(),
                Registers::IrqFlags2,
                0x08,
                true,
                timeout_polls(old(self).timeout_ms() as nat, old(self).step_ms() as nat),
            ),
            r is Ok || r->Err_0 is Timeout ==> final(self).delays() == old(self).delays() + Seq::new(
                (final(self).ops().len() - old(self).ops().len() - 1) as nat,
                |_i: int| old(self).step_ms(),
            ),
            r is Err ==> r->Err_0 is Timeout || r->Err_0.is_bus(),
    {
        self.with_timeout(self.timeout, self.step, Registers::IrqFlags2, 0x08)
    }

    /// Flushes the FIFO by setting the `FifoOverrun` flag.
    fn reset_fifo(&mut self) -> (r: Result<(), Error<T::Error, S::Error>>)
        ensures
            final(self).same_state(old(self)),
            final(self).delays() == old(self).delays(),
            old(self).ops().len() <= final(self).ops().len(),
            r is Ok ==> final(self).ops() == old(self).ops().push(
                write_op(Registers::IrqFlags2, 0x10),
            ),
            r is Ok ==> fifo_read(final(self).ops()) == fifo_read(old(self).ops()),
            r is Ok ==> fifo_written(final(self).ops()) == fifo_written(old(self).ops()),
            r is Err ==> r->Err_0.is_bus(),
    {
        let r = self.write(Registers::IrqFlags2, 0x10);
        proof {
            lemma_no_fifo(old(self).ops(), write_op(Registers::IrqFlags2, 0x10));
        }
        r
    }
}


/// `after` is `before` followed by the transactions of `send` for `data`:
/// Standby, the `ModeReady` checks, the FIFO flush, the whole of `data` in one
/// FIFO write, Transmitter, the `PacketSent` checks, Standby.
pub open spec fn send_trace(
    before: Seq<BusOp>,
    after: Seq<BusOp>,
    data: Seq<u8>,
    slots: Seq<Option<DioMapping>>,
) -> bool {
    exists|a: Seq<BusOp>, b: Seq<BusOp>, c: Seq<BusOp>, d: Seq<BusOp>|
        #![trigger polled(a, b, Registers::IrqFlags1, 0x80, true), polled(c, d, Registers::IrqFlags2, 0x08, true)]
        {
            &&& mode_changed(before, a, Mode::Standby, slots)
            &&& polled(a, b, Registers::IrqFlags1, 0x80, true)
            &&& mode_changed(
                b.push(write_op(Registers::IrqFlags2, 0x10)).push(
                    BusOp::Write { reg: Registers::Fifo, data },
                ),
                c,
                Mode::Transmitter,
                slots,
            )
            &&& polled(c, d, Registers::IrqFlags2, 0x08, true)
            &&& mode_changed(d, after, Mode::Standby, slots)
        }
}

/// `after` is `before` followed, for each byte of `data` in order, by the
/// checks until the FIFO is not full and a one-byte FIFO write of the byte.
pub open spec fn fed(before: Seq<BusOp>, after: Seq<BusOp>, data: Seq<u8>) -> bool
    decreases data.len(),
{
    if data.len() == 0 {
        after == before
    } else {
        exists|m: Seq<BusOp>, p: Seq<BusOp>|
            #![trigger polled(m, p, Registers::IrqFlags2, 0x80, false)]
            {
                &&& fed(before, m, data.drop_last())
                &&& polled(m, p, Registers::IrqFlags2, 0x80, false)
                &&& after == p.push(write_op(Registers::Fifo, data.last()))
            }
    }
}

/// `after` is `before` followed by the transactions of `send_large` for
/// `data`: Standby, the `ModeReady` checks, the FIFO flush, the length byte,
/// Transmitter, each byte after its `FifoFull` checks, the `PacketSent`
/// checks, Standby.
pub open spec fn send_large_trace(
    before: Seq<BusOp>,
    after: Seq<BusOp>,
    data: Seq<u8>,
    slots: Seq<Option<DioMapping>>,
) -> bool {
    exists|a: Seq<BusOp>, b: Seq<BusOp>, c: Seq<BusOp>, d: Seq<BusOp>, e: Seq<BusOp>|
        #![trigger polled(a, b, Registers::IrqFlags1, 0x80, true), fed(c, d, data), polled(d, e, Registers::IrqFlags2, 0x08, true)]
        {
            &&& mode_changed(before, a, Mode::Standby, slots)
            &&& polled(a, b, Registers::IrqFlags1, 0x80, true)
            &&& mode_changed(
                b.push(write_op(Registers::IrqFlags2, 0x10)).push(
                    write_op(Registers::Fifo, data.len() as u8),
                ),
                c,
                Mode::Transmitter,
                slots,
            )
            &&& fed(c, d, data)
            &&& polled(d, e, Registers::IrqFlags2, 0x08, true)
            &&& mode_changed(e, after, Mode::Standby, slots)
        }
}

/// `after` is `before` followed by the transactions of `recv` reading `data`:
/// Receiver, the `ModeReady` checks, the `PayloadReady` checks, Standby, one
/// FIFO read of `data`, one read of `RegRssiValue`.
pub open spec fn recv_trace(
    before: Seq<BusOp>,
    after: Seq<BusOp>,
    data: Seq<u8>,
    slots: Seq<Option<DioMapping>>,
) -> bool {
    exists|a: Seq<BusOp>, b: Seq<BusOp>, c: Seq<BusOp>, d: Seq<BusOp>|
        #![trigger polled(a, b, Registers::IrqFlags1, 0x80, true), polled(b, c, Registers::IrqFlags2, 0x04, true), mode_changed(c, d, Mode::Standby, slots)]
        {
            &&& mode_changed(before, a, Mode::Receiver, slots)
            &&& polled(a, b, Registers::IrqFlags1, 0x80, true)
            &&& polled(b, c, Registers::IrqFlags2, 0x04, true)
            &&& mode_changed(c, d, Mode::Standby, slots)
            &&& after.len() == d.len() + 2
            &&& after.drop_last() == d.push(BusOp::Read { reg: Registers::Fifo, data })
            &&& reads_byte(after.last(), Registers::RssiValue)
        }
}

/// `after` is `before` followed, for each byte of `data` in order, by the
/// checks until the FIFO is not empty and a one-byte FIFO read of the byte.
pub open spec fn drained(before: Seq<BusOp>, after: Seq<BusOp>, data: Seq<u8>) -> bool
    decreases data.len(),
{
    if data.len() == 0 {
        after == before
    } else {
        exists|m: Seq<BusOp>, p: Seq<BusOp>|
            #![trigger polled(m, p, Registers::IrqFlags2, 0x40, true)]
            {
                &&& drained(before, m, data.drop_last())
                &&& polled(m, p, Registers::IrqFlags2, 0x40, true)
                &&& after == p.push(BusOp::Read { reg: Registers::Fifo, data: seq![data.last()] })
            }
    }
}

/// `after` is `before` followed by the transactions of `recv_large` for a
/// packet of length byte `len` and payload `payload`: Receiver, the
/// `FifoNotEmpty` checks, the length byte, each payload byte after its
/// `FifoNotEmpty` checks, Standby, one read of `RegRssiValue`.
pub open spec fn recv_large_trace(
    before: Seq<BusOp>,
    after: Seq<BusOp>,
    len: u8,
    payload: Seq<u8>,
    slots: Seq<Option<DioMapping>>,
) -> bool {
    exists|a: Seq<BusOp>, b: Seq<BusOp>, c: Seq<BusOp>, d: Seq<BusOp>|
        #![trigger polled(a, b, Registers::IrqFlags2, 0x40, true), drained(b.push(BusOp::Read { reg: Registers::Fifo, data: seq![len] }), c, payload), mode_changed(c, d, Mode::Standby, slots)]
        {
            &&& mode_changed(before, a, Mode::Receiver, slots)
            &&& polled(a, b, Registers::IrqFlags2, 0x40, true)
            &&& drained(b.push(BusOp::Read { reg: Registers::Fifo, data: seq![len] }), c, payload)
            &&& payload.len() == len
            &&& mode_changed(c, d, Mode::Standby, slots)
            &&& after.len() == d.len() + 1
            &&& after.drop_last() == d
            &&& reads_byte(after.last(), Registers::RssiValue)
        }
}

impl<T: ChipSelect, S: ReadWrite, D: DelayMs> Rfm69<T, S, D> {
    /// Sends a packet that fits in the FIFO: Standby, wait for mode ready, flush
    /// the FIFO, write the whole buffer to it in one transaction, Transmitter,
    /// wait for the packet to be sent, Standby. An empty buffer sends nothing.
    pub fn send(&mut self, buffer: &[u8]) -> (r: Result<(), Error<T::Error, S::Error>>)
        requires
            old(self).wf(),
        ensures
            final(self).keeps(old(self)),
            final(self).last_rssi() == old(self).last_rssi(),
            old(self).ops().len() <= final(self).ops().len(),
            buffer@.len() == 0 ==> r is Ok && final(self).quiet(old(self))
                && final(self).current_mode() == old(self).current_mode(),
            r is Ok && buffer@.len() > 0 ==> final(self).current_mode() == Mode::Standby
                && send_trace(old(self).ops(), final(self).ops(), buffer@, old(self).mappings()),
            r is Ok ==> fifo_written(final(self).ops()) == fifo_written(old(self).ops()) + buffer@,
            r is Ok ==> fifo_read(final(self).ops()) == fifo_read(old(self).ops()),
            r is Err && r->Err_0 is Timeout ==> gave_up(
                old(self).ops().len(),
                final(self).ops(),
                Registers::IrqFlags1,
                0x80,
                true,
                timeout_polls(old(self).timeout_ms() as nat, old(self).step_ms() as nat),
            ) || gave_up(
                old(self).ops().len(),
                final(self).ops(),
                Registers::IrqFlags2,
                0x08,
                true,
                timeout_polls(old(self).timeout_ms() as nat, old(self).step_ms() as nat),
            ),
            r is Err ==> r->Err_0 is Timeout || r->Err_0.is_bus(),
    {
        if buffer.len() == 0 {
            assert(fifo_written(old(self).ops()) + buffer@ =~= fifo_written(old(self).ops()));
            return Ok(());
        }
        match self.mode(Mode::Standby) {
            Ok(()) => {},
            Err(e) => {
                return Err(e);
            },
        }
        let ghost a = self.ops();
        match self.wait_mode_ready() {
            Ok(()) => {},
            Err(e) => {
                return Err(e);
            },
        }
        let ghost b = self.ops();
        match self.reset_fifo() {
            Ok(()) => {},
            Err(e) => {
                return Err(e);
            },
        }
        let ghost before = self.ops();
        match self.write_many(Registers::Fifo, buffer) {
            Ok(()) => {},
            Err(e) => {
                return Err(e);
            },
        }
        proof {
            lemma_fifo_push(before, BusOp::Write { reg: Registers::Fifo, data: buffer@ });
            assert(fifo_read(before) + Seq::<u8>::empty() =~= fifo_read(before));
        }
        match self.mode(Mode::Transmitter) {
            Ok(()) => {},
            Err(e) => {
                return Err(e);
            },
        }
        let ghost c = self.ops();
        match self.wait_packet_sent() {
            Ok(()) => {},
            Err(e) => {
                return Err(e);
            },
        }
        let ghost d = self.ops();
        let r = self.mode(Mode::Standby);
        proof {
            if r is Ok {
                assert(polled(a, b, Registers::IrqFlags1, 0x80, true));
                assert(polled(c, d, Registers::IrqFlags2, 0x08, true));
            }
        }
        r
    }

    /// Sends a packet of up to 255 bytes, larger than the FIFO if need be:
    /// Standby, wait for mode ready, flush the FIFO, write the length byte,
    /// Transmitter, then each byte as soon as the FIFO is not full, wait for the
    /// packet to be sent, Standby. A longer buffer is refused before any call.
    /// The checks for a FIFO that is not full have no timeout; they give up only
    /// after `u64::MAX + 1` checks. FIFO underruns are not detected.
    pub fn send_large(&mut self, buffer: &[u8]) -> (r: Result<(), Error<T::Error, S::Error>>)
        requires
            old(self).wf(),
        ensures
            final(self).keeps(old(self)),
            final(self).last_rssi() == old(self).last_rssi(),
            old(self).ops().len() <= final(self).ops().len(),
            buffer@.len() > 255 <==> r == Err::<(), Error<T::Error, S::Error>>(
                Error::PacketTooLarge,
            ),
            buffer@.len() > 255 ==> final(self).quiet(old(self))
                && final(self).current_mode() == old(self).current_mode(),
            r is Ok ==> final(self).current_mode() == Mode::Standby && send_large_trace(
                old(self).ops(),
                final(self).ops(),
                buffer@,
                old(self).mappings(),
            ),
            r is Ok ==> fifo_written(final(self).ops()) == fifo_written(old(self).ops()) + seq![
                buffer@.len() as u8,
            ] + buffer@,
            r is Ok ==> fifo_read(final(self).ops()) == fifo_read(old(self).ops()),
            r is Err && r->Err_0 is Timeout ==> gave_up(
                old(self).ops().len(),
                final(self).ops(),
                Registers::IrqFlags1,
                0x80,
                true,
                timeout_polls(old(self).timeout_ms() as nat, old(self).step_ms() as nat),
            ) || gave_up(
                old(self).ops().len(),
                final(self).ops(),
                Registers::IrqFlags2,
                0x08,
                true,
                timeout_polls(old(self).timeout_ms() as nat, old(self).step_ms() as nat),
            ) || gave_up(
                old(self).ops().len(),
                final(self).ops(),
                Registers::IrqFlags2,
                0x80,
                false,
                u64::MAX as nat + 1,
            ),
            r is Err ==> r->Err_0 is PacketTooLarge || r->Err_0 is Timeout || r->Err_0.is_bus(),
    {
        if buffer.len() > 255 {
            return Err(Error::PacketTooLarge);
        }
        let packet_size = buffer.len() as u8;
        match self.mode(Mode::Standby) {
            Ok(()) => {},
            Err(e) => {
                return Err(e);
            },
        }
        let ghost a = self.ops();
        match self.wait_mode_ready() {
            Ok(()) => {},
            Err(e) => {
                return Err(e);
            },
        }
        let ghost b = self.ops();
        match self.reset_fifo() {
            Ok(()) => {},
            Err(e) => {
                return Err(e);
            },
        }
        let ghost before = self.ops();
        match self.write(Registers::Fifo, packet_size) {
            Ok(()) => {},
            Err(e) => {
                return Err(e);
            },
        }
        proof {
            lemma_fifo_push(before, write_op(Registers::Fifo, packet_size));
            assert(fifo_read(before) + Seq::<u8>::empty() =~= fifo_read(before));
        }
        match self.mode(Mode::Transmitter) {
            Ok(()) => {},
            Err(e) => {
                return Err(e);
            },
        }
        let ghost c = self.ops();
        let ghost base = fifo_written(self.ops());
        let mut i: usize = 0;
        assert(buffer@.take(0) =~= Seq::<u8>::empty());
        while i < buffer.len()
            invariant
                self.wf(),
                self.keeps(old(self)),
                self.last_rssi() == old(self).last_rssi(),
                i <= buffer@.len(),
                buffer@.len() <= 255,
                old(self).ops().len() <= self.ops().len(),
                base == fifo_written(old(self).ops()) + seq![packet_size],
                packet_size == buffer@.len() as u8,
                fifo_written(self.ops()) == base + buffer@.take(i as int),
                fifo_read(self.ops()) == fifo_read(old(self).ops()),
                fed(c, self.ops(), buffer@.take(i as int)),
            decreases buffer@.len() - i,
        {
            let ghost m = self.ops();
            match self.poll_until(Registers::IrqFlags2, 0x80, false) {
                Ok(()) => {},
                Err(e) => {
                    return Err(e);
                },
            }
            let ghost p = self.ops();
            match self.write(Registers::Fifo, buffer[i]) {
                Ok(()) => {},
                Err(e) => {
                    return Err(e);
                },
            }
            proof {
                lemma_fifo_push(p, write_op(Registers::Fifo, buffer[i as int]));
                assert(fifo_read(p) + Seq::<u8>::empty() =~= fifo_read(p));
                assert(buffer@.take(i + 1) =~= buffer@.take(i as int) + seq![buffer[i as int]]);
                assert(base + buffer@.take(i + 1) =~= base + buffer@.take(i as int) + seq![
                    buffer[i as int],
                ]);
                assert(buffer@.take(i + 1).drop_last() =~= buffer@.take(i as int));
                assert(polled(m, p, Registers::IrqFlags2, 0x80, false));
                assert(fed(c, self.ops(), buffer@.take(i + 1)));
            }
            i = i + 1;
        }
        let ghost d = self.ops();
        match self.wait_packet_sent() {
            Ok(()) => {},
            Err(e) => {
                return Err(e);
            },
        }
        let ghost e = self.ops();
        let r = self.mode(Mode::Standby);
        assert(buffer@.take(i as int) =~= buffer@);
        proof {
            if r is Ok {
                assert(polled(a, b, Registers::IrqFlags1, 0x80, true));
                assert(fed(c, d, buffer@));
                assert(polled(d, e, Registers::IrqFlags2, 0x08, true));
            }
        }
        r
    }

    /// Receives a packet that fits in the FIFO, into the whole of `buffer`:
    /// Receiver, wait for mode ready, wait for the packet to be ready, Standby,
    /// read `buffer.len()` bytes from the FIFO in one transaction, then record
    /// the RSSI. An empty buffer receives nothing. The wait for the packet has no
    /// timeout: call this once the chip has signalled `PayloadReady`; it gives
    /// up only after `u64::MAX + 1` checks.
    pub fn recv(&mut self, buffer: &mut [u8]) -> (r: Result<(), Error<T::Error, S::Error>>)
        requires
            old(self).wf(),
        ensures
            final(self).keeps(old(self)),
            final(buffer)@.len() == old(buffer)@.len(),
            old(self).ops().len() <= final(self).ops().len(),
            old(buffer)@.len() == 0 ==> r is Ok && final(self).quiet(old(self))
                && final(self).current_mode() == old(self).current_mode()
                && final(self).last_rssi() == old(self).last_rssi()
                && final(buffer)@ == old(buffer)@,
            r is Ok && old(buffer)@.len() > 0 ==> final(self).current_mode() == Mode::Standby
                && recv_trace(old(self).ops(), final(self).ops(), final(buffer)@, old(self).mappings())
                && final(self).last_rssi() == first_byte(final(self).ops().last()),
            r is Ok ==> fifo_read(final(self).ops()) == fifo_read(old(self).ops()) + final(buffer)@,
            r is Ok ==> fifo_written(final(self).ops()) == fifo_written(old(self).ops()),
            r is Err && r->Err_0 is Timeout ==> gave_up(
                old(self).ops().len(),
                final(self).ops(),
                Registers::IrqFlags1,
                0x80,
                true,
                timeout_polls(old(self).timeout_ms() as nat, old(self).step_ms() as nat),
            ) || gave_up(
                old(self).ops().len(),
                final(self).ops(),
                Registers::IrqFlags2,
                0x04,
                true,
                u64::MAX as nat + 1,
            ),
            r is Err ==> r->Err_0 is Timeout || r->Err_0.is_bus(),
    {
        if buffer.len() == 0 {
            assert(fifo_read(old(self).ops()) + buffer@ =~= fifo_read(old(self).ops()));
            return Ok(());
        }
        match self.mode(Mode::Receiver) {
            Ok(()) => {},
            Err(e) => {
                return Err(e);
            },
        }
        let ghost a = self.ops();
        match self.wait_mode_ready() {
            Ok(()) => {},
            Err(e) => {
                return Err(e);
            },
        }
        let ghost b = self.ops();
        match self.poll_until(Registers::IrqFlags2, 0x04, true) {
            Ok(()) => {},
            Err(e) => {
                return Err(e);
            },
        }
        let ghost c = self.ops();
        match self.mode(Mode::Standby) {
            Ok(()) => {},
            Err(e) => {
                return Err(e);
            },
        }
        let ghost d = self.ops();
        match self.read_many(Registers::Fifo, buffer) {
            Ok(()) => {},
            Err(e) => {
                return Err(e);
            },
        }
        proof {
            lemma_fifo_push(d, BusOp::Read { reg: Registers::Fifo, data: buffer@ });
            assert(fifo_written(d) + Seq::<u8>::empty() =~= fifo_written(d));
        }
        let ghost mid = self.ops();
        match self.read(Registers::RssiValue) {
            Ok(v) => {
                self.rssi = v;
                proof {
                    lemma_no_fifo(mid, BusOp::Read { reg: Registers::RssiValue, data: seq![v] });
                    assert(self.ops().drop_last() =~= mid);
                    assert(polled(a, b, Registers::IrqFlags1, 0x80, true));
                    assert(polled(b, c, Registers::IrqFlags2, 0x04, true));
                    assert(mode_changed(c, d, Mode::Standby, old(self).mappings()));
                }
                Ok(())
            },
            Err(e) => Err(e),
        }
    }

    /// Receives a packet that may be larger than the FIFO, for the
    /// `Variable(255)` format without address or CRC filtering: Receiver, read
    /// the length byte as soon as the FIFO is not empty, then each payload byte
    /// as soon as the FIFO is not empty, Standby, record the RSSI. Returns the
    /// payload length. When the length byte exceeds `buffer.len()`, the payload
    /// is still drained from the FIFO, `buffer` is left as it was and the result
    /// is `BufferTooSmall`. The waits have no timeout: call this once the chip
    /// has signalled `SyncAddressMatch`; a wait gives up only after
    /// `u64::MAX + 1` checks. FIFO overruns are not detected.
    pub fn recv_large(&mut self, buffer: &mut [u8]) -> (r: Result<usize, Error<T::Error, S::Error>>)
        requires
            old(self).wf(),
        ensures
            final(self).keeps(old(self)),
            final(buffer)@.len() == old(buffer)@.len(),
            old(self).ops().len() <= final(self).ops().len(),
            r is Ok ==> r->Ok_0 <= old(buffer)@.len(),
            r is Ok ==> recv_large_trace(
                old(self).ops(),
                final(self).ops(),
                r->Ok_0 as u8,
                final(buffer)@.take(r->Ok_0 as int),
                old(self).mappings(),
            ),
            r is Ok ==> fifo_read(final(self).ops()) == fifo_read(old(self).ops()) + seq![
                r->Ok_0 as u8,
            ] + final(buffer)@.take(r->Ok_0 as int),
            r is Ok ==> final(buffer)@.skip(r->Ok_0 as int) == old(buffer)@.skip(r->Ok_0 as int),
            (r is Ok || r->Err_0 is BufferTooSmall) ==> final(self).current_mode() == Mode::Standby
                && reads_byte(final(self).ops().last(), Registers::RssiValue)
                && final(self).last_rssi() == first_byte(final(self).ops().last())
                && fifo_written(final(self).ops()) == fifo_written(old(self).ops()),
            r is Err && r->Err_0 is BufferTooSmall ==> {
                let before = fifo_read(old(self).ops());
                let after = fifo_read(final(self).ops());
                let k = before.len() as int;
                &&& after.subrange(0, k) == before
                &&& after.len() == k + 1 + after[k]
                &&& after[k] > old(buffer)@.len()
                &&& final(buffer)@ == old(buffer)@
                &&& recv_large_trace(
                    old(self).ops(),
                    final(self).ops(),
                    after[k],
                    after.skip(k + 1),
                    old(self).mappings(),
                )
            },
            r is Err && r->Err_0 is Timeout ==> gave_up(
                old(self).ops().len(),
                final(self).ops(),
                Registers::IrqFlags2,
                0x40,
                true,
                u64::MAX as nat + 1,
            ),
            r is Err ==> r->Err_0 is BufferTooSmall || r->Err_0 is Timeout || r->Err_0.is_bus(),
    {
        match self.mode(Mode::Receiver) {
            Ok(()) => {},
            Err(e) => {
                return Err(e);
            },
        }
        let ghost a = self.ops();
        match self.poll_until(Registers::IrqFlags2, 0x40, true) {
            Ok(()) => {},
            Err(e) => {
                return Err(e);
            },
        }
        let ghost b = self.ops();
        let prefix = match self.read(Registers::Fifo) {
            Ok(v) => v,
            Err(e) => {
                return Err(e);
            },
        };
        proof {
            lemma_fifo_push(b, BusOp::Read { reg: Registers::Fifo, data: seq![prefix] });
            assert(fifo_written(b) + Seq::<u8>::empty() =~= fifo_written(b));
        }
        let ghost start = self.ops();
        let ghost pre = fifo_read(self.ops());
        let len: usize = prefix as usize;
        if len > buffer.len() {
            let ghost mut got: Seq<u8> = seq![];
            let mut i: usize = 0;
            while i < len
                invariant
                    self.wf(),
                    self.keeps(old(self)),
                    i <= len,
                    len == prefix as usize,
                    got.len() == i,
                    old(self).ops().len() <= self.ops().len(),
                    pre == fifo_read(old(self).ops()) + seq![prefix],
                    fifo_read(self.ops()) == pre + got,
                    fifo_written(self.ops()) == fifo_written(old(self).ops()),
                    drained(start, self.ops(), got),
                decreases len - i,
            {
                let ghost m = self.ops();
                match self.poll_until(Registers::IrqFlags2, 0x40, true) {
                    Ok(()) => {},
                    Err(e) => {
                        return Err(e);
                    },
                }
                let ghost p = self.ops();
                let v = match self.read(Registers::Fifo) {
                    Ok(v) => v,
                    Err(e) => {
                        return Err(e);
                    },
                };
                proof {
                    lemma_fifo_push(p, BusOp::Read { reg: Registers::Fifo, data: seq![v] });
                    assert(fifo_written(p) + Seq::<u8>::empty() =~= fifo_written(p));
                    assert(pre + got + seq![v] =~= pre + got.push(v));
                    assert(got.push(v).drop_last() =~= got);
                    assert(polled(m, p, Registers::IrqFlags2, 0x40, true));
                    assert(drained(start, self.ops(), got.push(v)));
                    got = got.push(v);
                }
                i = i + 1;
            }
            let ghost c = self.ops();
            match self.mode(Mode::Standby) {
                Ok(()) => {},
                Err(e) => {
                    return Err(e);
                },
            }
            let ghost d = self.ops();
            match self.read(Registers::RssiValue) {
                Ok(v) => {
                    self.rssi = v;
                    proof {
                        lemma_no_fifo(d, BusOp::Read { reg: Registers::RssiValue, data: seq![v] });
                        let k = fifo_read(old(self).ops()).len() as int;
                        let after = fifo_read(self.ops());
                        assert(after.subrange(0, k) =~= fifo_read(old(self).ops()));
                        assert(after[k] == prefix);
                        assert(after.skip(k + 1) =~= got);
                        assert(self.ops().drop_last() =~= d);
                        assert(polled(a, b, Registers::IrqFlags2, 0x40, true));
                        assert(drained(start, c, got));
                        assert(mode_changed(c, d, Mode::Standby, old(self).mappings()));
                        assert(recv_large_trace(
                            old(self).ops(),
                            self.ops(),
                            prefix,
                            got,
                            old(self).mappings(),
                        ));
                    }
                },
                Err(e) => {
                    return Err(e);
                },
            }
            return Err(Error::BufferTooSmall);
        }
        let mut i: usize = 0;
        assert(buffer@.take(0) =~= Seq::<u8>::empty());
        while i < len
            invariant
                self.wf(),
                self.keeps(old(self)),
                i <= len,
                len <= buffer@.len(),
                len == prefix as usize,
                buffer@.len() == old(buffer)@.len(),
                old(self).ops().len() <= self.ops().len(),
                pre == fifo_read(old(self).ops()) + seq![prefix],
                fifo_read(self.ops()) == pre + buffer@.take(i as int),
                fifo_written(self.ops()) == fifo_written(old(self).ops()),
                buffer@.skip(i as int) == old(buffer)@.skip(i as int),
                drained(start, self.ops(), buffer@.take(i as int)),
            decreases len - i,
        {
            let ghost m = self.ops();
            match self.poll_until(Registers::IrqFlags2, 0x40, true) {
                Ok(()) => {},
                Err(e) => {
                    return Err(e);
                },
            }
            let ghost p = self.ops();
            let v = match self.read(Registers::Fifo) {
                Ok(v) => v,
                Err(e) => {
                    return Err(e);
                },
            };
            proof {
                lemma_fifo_push(p, BusOp::Read { reg: Registers::Fifo, data: seq![v] });
                assert(fifo_written(p) + Seq::<u8>::empty() =~= fifo_written(p));
            }
            let ghost old_buf = buffer@;
            buffer[i] = v;
            proof {
                assert(buffer@.take(i + 1) =~= old_buf.take(i as int) + seq![v]);
                assert(pre + buffer@.take(i + 1) =~= pre + old_buf.take(i as int) + seq![v]);
                assert(buffer@.skip(i + 1) =~= old_buf.skip(i + 1));
                assert(old_buf.skip(i + 1) =~= old_buf.skip(i as int).skip(1));
                assert(old(buffer)@.skip(i + 1) =~= old(buffer)@.skip(i as int).skip(1));
                assert(buffer@.take(i + 1).drop_last() =~= old_buf.take(i as int));
                assert(buffer@.take(i + 1).last() == v);
                assert(polled(m, p, Registers::IrqFlags2, 0x40, true));
                assert(drained(start, self.ops(), buffer@.take(i + 1)));
            }
            i = i + 1;
        }
        let ghost c = self.ops();
        match self.mode(Mode::Standby) {
            Ok(()) => {},
            Err(e) => {
                return Err(e);
            },
        }
        let ghost d = self.ops();
        match self.read(Registers::RssiValue) {
            Ok(v) => {
                self.rssi = v;
                proof {
                    lemma_no_fifo(d, BusOp::Read { reg: Registers::RssiValue, data: seq![v] });
                    assert(self.ops().drop_last() =~= d);
                    assert(polled(a, b, Registers::IrqFlags2, 0x40, true));
                    assert(drained(start, c, buffer@.take(len as int)));
                    assert(mode_changed(c, d, Mode::Standby, old(self).mappings()));
                }
            },
            Err(e) => {
                return Err(e);
            },
        }
        Ok(len)
    }
}

} // verus!
