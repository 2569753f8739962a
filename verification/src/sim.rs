//! An in-memory register transport, verified against the same contract a
//! bus-backed transport is trusted to meet.
//!
//! [`SimTransport`] holds the sixteen register bytes directly and can be told
//! to start failing after a chosen number of reads or writes, so callers can
//! exercise transport-fault paths deterministically. It also counts the
//! read and write transactions attempted, so a caller can check that an
//! operation issued no bus traffic at all.

use vstd::prelude::*;

use crate::RtcError;
use crate::regmap::REGISTER_COUNT;
use crate::transport::Transport;

verus! {

/// The bus error a [`SimTransport`] reports once its budget is exhausted.
#[derive(Debug, Clone, Copy, PartialEq, Eq)]
pub struct SimFault;

/// An in-memory register file with optional failure injection.
pub struct SimTransport {
    registers: Vec<u8>,
    read_budget: Option<u32>,
    write_budget: Option<u32>,
    transactions: Ghost<nat>,
    /// Number of read transactions attempted, failed ones included.
    pub reads_attempted: u64,
    /// Number of write transactions attempted, failed ones included.
    pub writes_attempted: u64,
}

impl SimTransport {
    /// A register file of sixteen zero bytes that never fails.
    pub fn new() -> (r: Self)
        ensures
            r.inv(),
            r.regs().len() == REGISTER_COUNT,
            forall|i: int| 0 <= i < r.regs().len() ==> r.regs()[i] == 0,
    {
        let mut registers: Vec<u8> = Vec::new();
        let mut i: usize = 0;
        while i < REGISTER_COUNT
            invariant
                i <= REGISTER_COUNT,
                registers@.len() == i,
                forall|j: int| 0 <= j < i ==> registers@[j] == 0,
            decreases REGISTER_COUNT - i,
        {
            registers.push(0);
            i = i + 1;
        }
        SimTransport {
            registers,
            read_budget: None,
            write_budget: None,
            transactions: Ghost(0),
            reads_attempted: 0,
            writes_attempted: 0,
        }
    }

    /// Set a register byte directly, bypassing the transport.
    pub fn poke(&mut self, address: u8, value: u8)
        requires
            old(self).inv(),
            address < old(self).regs().len(),
        ensures
            final(self).inv(),
            final(self).regs() == old(self).regs().update(address as int, value),
            final(self).txns() == old(self).txns(),
    {
        self.registers[address as usize] = value;
    }

    /// Read a register byte directly, bypassing the transport.
    pub fn peek(&self, address: u8) -> (r: u8)
        requires
            self.inv(),
            address < self.regs().len(),
        ensures
            r == self.regs()[address as int],
    {
        self.registers[address as usize]
    }

    /// Let the next `n` reads succeed and every later one fail.
    pub fn fail_reads_after(&mut self, n: u32)
        requires
            old(self).inv(),
        ensures
            final(self).inv(),
            final(self).regs() == old(self).regs(),
            final(self).txns() == old(self).txns(),
    {
        self.read_budget = Some(n);
    }

    /// Let the next `n` writes succeed and every later one fail.
    pub fn fail_writes_after(&mut self, n: u32)
        requires
            old(self).inv(),
        ensures
            final(self).inv(),
            final(self).regs() == old(self).regs(),
            final(self).txns() == old(self).txns(),
    {
        self.write_budget = Some(n);
    }
}

impl Transport for SimTransport {
    type BusError = SimFault;

    closed spec fn regs(&self) -> Seq<u8> {
        self.registers@
    }

    closed spec fn inv(&self) -> bool {
        self.registers@.len() == REGISTER_COUNT
    }

    closed spec fn txns(&self) -> nat {
        self.transactions@
    }

    fn read_register(&mut self, address: u8) -> (r: Result<u8, RtcError<SimFault>>) {
        self.transactions = Ghost(self.transactions@ + 1);
        if self.reads_attempted != u64::MAX {
            self.reads_attempted = self.reads_attempted + 1;
        }
        match self.read_budget {
            Some(n) => {
                if n == 0 {
                    Err(RtcError::I2c(SimFault))
                } else {
                    self.read_budget = Some(n - 1);
                    Ok(self.registers[address as usize])
                }
            },
            None => Ok(self.registers[address as usize]),
        }
    }

    fn write_register(&mut self, address: u8, value: u8) -> (r: Result<(), RtcError<SimFault>>) {
        self.transactions = Ghost(self.transactions@ + 1);
        if self.writes_attempted != u64::MAX {
            self.writes_attempted = self.writes_attempted + 1;
        }
        match self.write_budget {
            Some(n) => {
                if n == 0 {
                    Err(RtcError::I2c(SimFault))
                } else {
                    self.write_budget = Some(n - 1);
                    self.registers[address as usize] = value;
                    Ok(())
                }
            },
            None => {
                self.registers[address as usize] = value;
                Ok(())
            },
        }
    }
}

} // verus!
