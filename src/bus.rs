//! The capabilities the driver is built on: the register bus, the chip
//! select line and a millisecond delay; and the model of bus traffic.
use vstd::prelude::*;
use crate::registers::Registers;

verus! {

/// The register bus of the chip. One call is one transaction.
pub trait ReadWrite {
    type Error;

    /// Writes `data` to consecutive registers starting at `reg`.
    fn write_many(&mut self, reg: Registers, data: &[u8]) -> Result<(), Self::Error>;

    /// Reads `buffer.len()` bytes from consecutive registers starting at `reg`.
    fn read_many(&mut self, reg: Registers, buffer: &mut [u8]) -> (r: Result<(), Self::Error>)
        ensures
            final(buffer)@.len() == old(buffer)@.len(),
    ;
}

/// The chip select line, driven low for the length of each transaction.
pub trait ChipSelect {
    type Error;

    fn set_low(&mut self) -> Result<(), Self::Error>;

    fn set_high(&mut self) -> Result<(), Self::Error>;
}

/// A blocking delay in milliseconds.
pub trait DelayMs {
    fn delay_ms(&mut self, ms: u8);
}

/// A chip select line that the bus drives by itself.
#[derive(Clone, Copy, Debug, PartialEq, Eq)]
pub struct NoCs;

impl ChipSelect for NoCs {
    type Error = ();

    fn set_low(&mut self) -> Result<(), ()> {
        Ok(())
    }

    fn set_high(&mut self) -> Result<(), ()> {
        Ok(())
    }
}

/// One bus transaction: the register it starts at and the bytes that went
/// over the bus.
pub enum BusOp {
    Read { reg: Registers, data: Seq<u8> },
    Write { reg: Registers, data: Seq<u8> },
}

/// The bytes that a transaction took out of the FIFO.
pub open spec fn fifo_read_by(op: BusOp) -> Seq<u8> {
    match op {
        BusOp::Read { reg, data } => if reg == Registers::Fifo {
            data
        } else {
            seq![]
        },
        BusOp::Write { .. } => seq![],
    }
}

/// The bytes that a transaction put into the FIFO.
pub open spec fn fifo_written_by(op: BusOp) -> Seq<u8> {
    match op {
        BusOp::Write { reg, data } => if reg == Registers::Fifo {
            data
        } else {
            seq![]
        },
        BusOp::Read { .. } => seq![],
    }
}

/// All the bytes that a run of transactions took out of the FIFO, in order.
pub open spec fn fifo_read(ops: Seq<BusOp>) -> Seq<u8>
    decreases ops.len(),
{
    if ops.len() == 0 {
        seq![]
    } else {
        fifo_read(ops.drop_last()) + fifo_read_by(ops.last())
    }
}

/// All the bytes that a run of transactions put into the FIFO, in order.
pub open spec fn fifo_written(ops: Seq<BusOp>) -> Seq<u8>
    decreases ops.len(),
{
    if ops.len() == 0 {
        seq![]
    } else {
        fifo_written(ops.drop_last()) + fifo_written_by(ops.last())
    }
}

/// One more transaction adds its own FIFO bytes.
pub proof fn lemma_fifo_push(ops: Seq<BusOp>, op: BusOp)
    ensures
        fifo_read(ops.push(op)) == fifo_read(ops) + fifo_read_by(op),
        fifo_written(ops.push(op)) == fifo_written(ops) + fifo_written_by(op),
{
    assert(ops.push(op).drop_last() =~= ops);
}

/// The transaction is a one-byte read of `reg`; `byte` is what it read.
pub open spec fn reads_byte(op: BusOp, reg: Registers) -> bool {
    match op {
        BusOp::Read { reg: r, data } => r == reg && data.len() == 1,
        BusOp::Write { .. } => false,
    }
}

/// The first byte that a transaction carried.
pub open spec fn first_byte(op: BusOp) -> u8 {
    match op {
        BusOp::Read { data, .. } => data[0],
        BusOp::Write { data, .. } => data[0],
    }
}

/// A one-byte write of `v` to `reg`.
pub open spec fn write_op(reg: Registers, v: u8) -> BusOp {
    BusOp::Write { reg, data: seq![v] }
}

/// `ops` is `before` followed by a read-modify-write of `reg` that keeps the
/// bits of `keep` and sets those of `set`, and then by `rest`.
pub open spec fn updated_then(
    before: Seq<BusOp>,
    ops: Seq<BusOp>,
    reg: Registers,
    keep: u8,
    set: u8,
    rest: Seq<BusOp>,
) -> bool {
    let n = before.len() as int;
    &&& ops.len() == n + 2 + rest.len()
    &&& ops.subrange(0, n) == before
    &&& reads_byte(ops[n], reg)
    &&& ops[n + 1] == write_op(reg, crate::encoding::merge(first_byte(ops[n]), keep, set))
    &&& ops.subrange(n + 2, ops.len() as int) == rest
}


/// Whether a bit of `mask` is set in the first byte of the transaction.
pub open spec fn flag_of(op: BusOp, mask: u8) -> bool {
    first_byte(op) & mask != 0
}

/// `after` is `before` followed by one or more one-byte reads of `reg`: the
/// last finds the flag of `mask` equal to `want`, the earlier ones do not.
pub open spec fn polled(before: Seq<BusOp>, after: Seq<BusOp>, reg: Registers, mask: u8, want: bool) -> bool {
    &&& after.len() > before.len()
    &&& after.subrange(0, before.len() as int) == before
    &&& forall|i: int| before.len() <= i < after.len() ==> reads_byte(#[trigger] after[i], reg)
    &&& forall|i: int|
        before.len() <= i < after.len() - 1 ==> flag_of(#[trigger] after[i], mask) != want
    &&& flag_of(after.last(), mask) == want
}

/// `after` holds at least `start + n` transactions and ends with `n` one-byte
/// reads of `reg`, none of which finds the flag of `mask` equal to `want`.
pub open spec fn gave_up(start: nat, after: Seq<BusOp>, reg: Registers, mask: u8, want: bool, n: nat) -> bool {
    &&& after.len() >= start + n
    &&& forall|i: int|
        after.len() - n <= i < after.len() ==> reads_byte(#[trigger] after[i], reg) && flag_of(
            after[i],
            mask,
        ) != want
}


/// A read-modify-write of `reg` that failed: either the read was refused or
/// failed, and nothing was written, or the read succeeded and the write of the
/// merged byte failed. `oa` and `ob` are the outcomes before and after.
pub open spec fn update_failed(
    before: Seq<BusOp>,
    after: Seq<BusOp>,
    oa: Seq<bool>,
    ob: Seq<bool>,
    reg: Registers,
    keep: u8,
    set: u8,
) -> bool {
    ||| (after == before && ob == oa)
    ||| (after.len() == before.len() + 1 && after.drop_last() == before && reads_byte(
        after.last(),
        reg,
    ) && ob.len() == oa.len() + 1 && ob.drop_last() == oa)
    ||| (updated_then(before, after, reg, keep, set, seq![]) && ob == oa + seq![true, false])
}

} // verus!
