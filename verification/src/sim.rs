//! Verified in-memory doubles for the bus transport and the delay source.
//!
//! [`ScriptedBus`] answers reads from a scripted byte sequence, keeps an
//! inspectable log of every transaction, and can be told to start failing
//! after a given number of transactions; [`RecordingDelay`] records the
//! requested waits instead of blocking. Both satisfy the capability
//! traits' contracts, so the driver verified against those contracts runs
//! unchanged on top of them.

use vstd::prelude::*;

use crate::bus::BusEvent;
use crate::bus::BusTransport;
use crate::bus::DelaySource;
use vstd::slice::slice_to_vec;

verus! {

/// Transport fault injected by [`ScriptedBus`] once its transaction
/// budget is used up.
#[derive(Debug, Clone, Copy, PartialEq, Eq, Structural)]
pub struct BusFault;

/// One logged transaction, the executable mirror of [`BusEvent`].
#[derive(Debug, PartialEq, Eq)]
pub enum Transaction {
    /// `data` was written to the peripheral at `addr`.
    Write { addr: u8, data: Vec<u8> },
    /// `reg` was written to the peripheral at `addr`, then `data` was
    /// read back.
    WriteRead { addr: u8, reg: Vec<u8>, data: Vec<u8> },
}

impl View for Transaction {
    type V = BusEvent;

    open spec fn view(&self) -> BusEvent {
        match self {
            Transaction::Write { addr, data } => BusEvent::Write { addr: *addr, data: data@ },
            Transaction::WriteRead { addr, reg, data } => BusEvent::WriteRead {
                addr: *addr,
                reg: reg@,
                data: data@,
            },
        }
    }
}

/// In-memory bus: reads are answered from a script of bytes, handed out
/// one at a time (and as zero once the script is exhausted); every
/// transaction is logged; after `budget` successful transactions every
/// further one fails with [`BusFault`].
#[derive(Debug)]
pub struct ScriptedBus {
    responses: Vec<u8>,
    cursor: usize,
    budget: usize,
    log: Vec<Transaction>,
}

impl ScriptedBus {
    /// A bus that never fails, answering reads from `responses`.
    pub fn new(responses: Vec<u8>) -> (r: Self)
        ensures
            r.history() == Seq::<BusEvent>::empty(),
    {
        let r = ScriptedBus { responses, cursor: 0, budget: usize::MAX, log: Vec::new() };
        proof {
            assert(r.log@.map_values(|t: Transaction| t@) =~= Seq::<BusEvent>::empty());
        }
        r
    }

    /// A bus whose first `budget` transactions succeed and whose later
    /// ones all fail.
    pub fn failing_after(responses: Vec<u8>, budget: usize) -> (r: Self)
        ensures
            r.history() == Seq::<BusEvent>::empty(),
    {
        let r = ScriptedBus { responses, cursor: 0, budget, log: Vec::new() };
        proof {
            assert(r.log@.map_values(|t: Transaction| t@) =~= Seq::<BusEvent>::empty());
        }
        r
    }

    /// The logged transactions, oldest first.
    pub fn log(&self) -> (r: &Vec<Transaction>)
        ensures
            r@.map_values(|t: Transaction| t@) == self.history(),
    {
        &self.log
    }

    /// The next byte of the script, or zero once it is exhausted.
    fn next_byte(&mut self) -> (r: u8)
        ensures
            final(self).log == old(self).log,
            final(self).budget == old(self).budget,
            final(self).responses == old(self).responses,
    {
        if self.cursor < self.responses.len() {
            let b = self.responses[self.cursor];
            self.cursor = self.cursor + 1;
            b
        } else {
            0
        }
    }
}

impl BusTransport for ScriptedBus {
    type BusError = BusFault;

    closed spec fn history(&self) -> Seq<BusEvent> {
        self.log@.map_values(|t: Transaction| t@)
    }

    fn write(&mut self, addr: u8, bytes: &[u8]) -> (r: Result<(), BusFault>) {
        if self.budget == 0 {
            return Err(BusFault);
        }
        self.budget = self.budget - 1;
        let data = slice_to_vec(bytes);
        self.log.push(Transaction::Write { addr, data });
        proof {
            assert(self.log@.map_values(|t: Transaction| t@) =~= old(self).log@.map_values(
                |t: Transaction| t@,
            ).push(BusEvent::Write { addr, data: bytes@ }));
        }
        Ok(())
    }

    fn write_read(&mut self, addr: u8, reg: &[u8], read_len: usize) -> (r: Result<
        Vec<u8>,
        BusFault,
    >) {
        if self.budget == 0 {
            return Err(BusFault);
        }
        self.budget = self.budget - 1;
        let mut data: Vec<u8> = Vec::new();
        let mut copy: Vec<u8> = Vec::new();
        let mut i: usize = 0;
        while i < read_len
            invariant
                i <= read_len,
                data@.len() == i,
                data@ == copy@,
                self.log == old(self).log,
            decreases read_len - i,
        {
            let b = self.next_byte();
            data.push(b);
            copy.push(b);
            i = i + 1;
        }
        self.log.push(Transaction::WriteRead { addr, reg: slice_to_vec(reg), data: copy });
        proof {
            assert(self.log@.map_values(|t: Transaction| t@) =~= old(self).log@.map_values(
                |t: Transaction| t@,
            ).push(BusEvent::WriteRead { addr, reg: reg@, data: data@ }));
        }
        Ok(data)
    }
}

/// Delay source that records each requested wait instead of blocking.
#[derive(Debug)]
pub struct RecordingDelay {
    log: Vec<u32>,
}

impl RecordingDelay {
    /// A recorder with an empty history.
    pub fn new() -> (r: Self)
        ensures
            r.delays() == Seq::<u32>::empty(),
    {
        RecordingDelay { log: Vec::new() }
    }

    /// The recorded waits in milliseconds, oldest first.
    pub fn log(&self) -> (r: &Vec<u32>)
        ensures
            r@ == self.delays(),
    {
        &self.log
    }
}

impl DelaySource for RecordingDelay {
    closed spec fn delays(&self) -> Seq<u32> {
        self.log@
    }

    fn delay_ms(&mut self, ms: u32) {
        self.log.push(ms);
    }
}

} // verus!
