//! The abstract register transport: the capability the driver needs from the
//! bus, stated over a model of the device's register file.
//!
//! A transport carries single-register reads and writes to the device. Its
//! ghost view [`Transport::regs`] models the register file as a sequence of
//! bytes; the driver's contracts are stated over that sequence. A bus-backed
//! implementation performs real I/O; [`crate::sim::SimTransport`] is an
//! in-memory implementation, verified against the same contract.

use vstd::prelude::*;

use crate::RtcError;

verus! {

/// A fallible single-register transport to the device.
///
/// `regs()` is the model of the device's register file. A read returns the
/// modelled byte and leaves the file unchanged; a write either updates
/// exactly the addressed byte or fails leaving the file unchanged. Every
/// failure carries the transport's own error inside [`RtcError::I2c`];
/// nothing obliges a transport to succeed, so callers state what holds
/// whichever way a call went.
pub trait Transport: Sized {
    /// The bus-level error type carried by [`RtcError::I2c`].
    type BusError;

    /// Model of the device's register file. The default stands for an
    /// implementation the verifier has not seen (a real bus, written outside
    /// its reach): no registers, and `inv` never established, so no contract
    /// of the driver is claimed over it. A verified implementation overrides
    /// both with its real model.
    open spec fn regs(&self) -> Seq<u8> {
        Seq::empty()
    }

    /// Well-formedness of the transport.
    open spec fn inv(&self) -> bool {
        false
    }

    /// Number of bus transactions the transport has carried, attempted
    /// failures included: each read and each write adds exactly one, and
    /// nothing else moves it. An operation that promises this count
    /// unchanged promises that it issued no bus traffic at all. The
    /// default, like `regs`, stands for an implementation outside the
    /// verifier's reach.
    open spec fn txns(&self) -> nat {
        0
    }

    /// Read the register byte at `address`.
    fn read_register(&mut self, address: u8) -> (r: Result<u8, RtcError<Self::BusError>>)
        requires
            old(self).inv(),
            address < old(self).regs().len(),
        ensures
            final(self).inv(),
            final(self).regs() == old(self).regs(),
            final(self).txns() == old(self).txns() + 1,
            r matches Ok(v) ==> v == old(self).regs()[address as int],
            r matches Err(e) ==> e matches RtcError::I2c(_),
    ;

    /// Write `value` to the register byte at `address`.
    fn write_register(&mut self, address: u8, value: u8) -> (r: Result<
        (),
        RtcError<Self::BusError>,
    >)
        requires
            old(self).inv(),
            address < old(self).regs().len(),
        ensures
            final(self).inv(),
            final(self).txns() == old(self).txns() + 1,
            r matches Ok(_) ==> final(self).regs() == old(self).regs().update(
                address as int,
                value,
            ),
            r matches Err(e) ==> final(self).regs() == old(self).regs() && e matches RtcError::I2c(
                _,
            ),
    ;
}

/// Frame a register write for the wire: the register address byte followed
/// by the payload, as one buffer.
///
/// Payloads longer than 8 bytes are refused — a defensive bound sized to the
/// largest multi-register burst the driver issues, not a hardware limit. A
/// bus-backed transport sends the returned buffer as a single transaction
/// and maps `None` to [`RtcError::InvalidInputData`] before touching the bus.
pub fn frame_register_write(address: u8, data: &[u8]) -> (r: Option<Vec<u8>>)
    ensures
        data@.len() <= 8 ==> (r matches Some(v) && v@ == seq![address] + data@),
        data@.len() > 8 ==> r is None,
{
    if data.len() > 8 {
        return None;
    }
    let mut buf: Vec<u8> = Vec::new();
    buf.push(address);
    let mut i: usize = 0;
    while i < data.len()
        invariant
            i <= data@.len(),
            buf@ == seq![address] + data@.take(i as int),
        decreases data@.len() - i,
    {
        buf.push(data[i]);
        assert(seq![address] + data@.take(i as int) + seq![data@[i as int]] =~= seq![address]
            + data@.take(i + 1));
        i = i + 1;
    }
    assert(data@.take(data@.len() as int) =~= data@);
    Some(buf)
}

} // verus!
