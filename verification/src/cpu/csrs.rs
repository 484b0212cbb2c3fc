//! The control and status register file.
//!
//! Three 64-bit counters (cycle, time, retired instructions) are readable as
//! 32-bit halves at the standard addresses and never writable.  One
//! implementation-defined scratch register at address 0x1 is both readable
//! and writable; it does not overlap the standard numbers.

use vstd::prelude::*;

verus! {

/// Error from the CSR file: a reserved address, or a write to a read-only
/// counter.
#[derive(Clone, Copy, Debug, PartialEq, Eq)]
pub struct IllegalCsrAddress;

/// The CSR file: the three standard counters and the scratch register.
#[derive(Debug)]
pub struct Csrs {
    /// Cycle counter, addresses 0xC00 (low half) and 0xC80 (high half).
    pub rdcycle: u64,
    /// Retired-instruction counter, addresses 0xC02 and 0xC82.
    pub instret: u64,
    /// Wall-clock counter, addresses 0xC01 and 0xC81.
    pub rdtime: u64,
    /// Implementation-defined scratch register at address 0x1.
    pub test: u32,
}

/// The low 32 bits of a 64-bit counter.
fn lower(x: u64) -> (r: u32)
    ensures
        r == x as u32,
{
    x as u32
}

/// The high 32 bits of a 64-bit counter.
fn upper(x: u64) -> (r: u32)
    ensures
        r == (x >> 32) as u32,
{
    (x >> 32u32) as u32
}

impl Csrs {
    /// The value a read of `address` returns, or `None` where a read traps.
    pub open spec fn spec_read(self, address: int) -> Option<u32> {
        if address == 0xC00 {
            Some(self.rdcycle as u32)
        } else if address == 0xC80 {
            Some((self.rdcycle >> 32) as u32)
        } else if address == 0xC01 {
            Some(self.rdtime as u32)
        } else if address == 0xC81 {
            Some((self.rdtime >> 32) as u32)
        } else if address == 0xC02 {
            Some(self.instret as u32)
        } else if address == 0xC82 {
            Some((self.instret >> 32) as u32)
        } else if address == 0x1 {
            Some(self.test)
        } else {
            None
        }
    }

    /// Create a CSR file with every counter and the scratch register zero.
    pub fn new() -> (r: Self)
        ensures
            r.rdcycle == 0,
            r.instret == 0,
            r.rdtime == 0,
            r.test == 0,
    {
        Csrs { rdcycle: 0, instret: 0, rdtime: 0, test: 0 }
    }

    /// Read the CSR at `address`: the counters are served as 32-bit halves,
    /// the scratch register whole; every other address traps.
    pub fn get(&self, address: usize) -> (r: Result<u32, IllegalCsrAddress>)
        ensures
            r == match self.spec_read(address as int) {
                Some(v) => Ok::<u32, IllegalCsrAddress>(v),
                None => Err::<u32, IllegalCsrAddress>(IllegalCsrAddress),
            },
    {
        match address {
            0xC00 => Ok(lower(self.rdcycle)),
            0xC80 => Ok(upper(self.rdcycle)),
            0xC01 => Ok(lower(self.rdtime)),
            0xC81 => Ok(upper(self.rdtime)),
            0xC02 => Ok(lower(self.instret)),
            0xC82 => Ok(upper(self.instret)),
            0x1 => Ok(self.test),
            _ => Err(IllegalCsrAddress),
        }
    }

    /// Write the CSR at `address`: only the scratch register accepts a
    /// write; the counters and every reserved address trap.
    pub fn set(&mut self, address: usize, value: u32) -> (r: Result<(), IllegalCsrAddress>)
        ensures
            address == 0x1 ==> r == Ok::<(), IllegalCsrAddress>(()) && final(self).test == value
                && final(self).rdcycle == old(self).rdcycle && final(self).instret == old(
                self,
            ).instret && final(self).rdtime == old(self).rdtime,
            address != 0x1 ==> r == Err::<(), IllegalCsrAddress>(IllegalCsrAddress) && *final(self)
                == *old(self),
    {
        match address {
            0x1 => {
                self.test = value;
                Ok(())
            },
            _ => Err(IllegalCsrAddress),
        }
    }
}

} // verus!
