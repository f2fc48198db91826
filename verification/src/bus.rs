//! Capability traits the driver is built on: a blocking two-wire bus
//! transport and a blocking delay source.
//!
//! Each carries a ghost history — the sequence of transactions (or waits)
//! performed so far — and every operation states exactly how it extends that
//! history. The driver's own contracts are phrased over these histories, so
//! a caller can read off precisely which register traffic a method causes.

use vstd::prelude::*;

verus! {

/// One completed transaction on the two-wire bus, oldest-first in a
/// transport's history.
pub enum BusEvent {
    /// `data` was written to the peripheral at seven-bit address `addr`.
    Write { addr: u8, data: Seq<u8> },
    /// `reg` was written to the peripheral at `addr`, then `data` was read
    /// back in the same transaction.
    WriteRead { addr: u8, reg: Seq<u8>, data: Seq<u8> },
}

/// Blocking two-wire bus transport.
///
/// A failed transaction leaves no trace: the history records completed
/// transactions only, so an implementation must not report success for a
/// transfer that did not happen.
pub trait BusTransport: Sized {
    /// Transport-level fault carried out of a failed transaction.
    type BusError;

    /// Ghost history of every completed transaction, oldest first.
    spec fn history(&self) -> Seq<BusEvent>;

    /// Write `bytes` to the peripheral at seven-bit address `addr`.
    fn write(&mut self, addr: u8, bytes: &[u8]) -> (r: Result<(), Self::BusError>)
        ensures
            r is Ok ==> final(self).history() == old(self).history().push(
                BusEvent::Write { addr, data: bytes@ },
            ),
            r is Err ==> final(self).history() == old(self).history(),
    ;

    /// Write the register selector `reg` to the peripheral at `addr`, then
    /// read `read_len` bytes back in the same transaction.
    fn write_read(&mut self, addr: u8, reg: &[u8], read_len: usize) -> (r: Result<
        Vec<u8>,
        Self::BusError,
    >)
        ensures
            match r {
                Ok(data) => data@.len() == read_len && final(self).history() == old(
                    self,
                ).history().push(BusEvent::WriteRead { addr, reg: reg@, data: data@ }),
                Err(_) => final(self).history() == old(self).history(),
            },
    ;
}

/// Blocking delay source; assumed infallible.
pub trait DelaySource: Sized {
    /// Ghost history of every wait performed, in milliseconds, oldest first.
    spec fn delays(&self) -> Seq<u32>;

    /// Block the calling context for at least `ms` milliseconds.
    fn delay_ms(&mut self, ms: u32)
        ensures
            final(self).delays() == old(self).delays().push(ms),
    ;
}

} // verus!
