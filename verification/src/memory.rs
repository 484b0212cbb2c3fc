//! A flat byte-addressable memory of fixed size with little-endian 1-, 2-
//! and 4-byte accessors.
//!
//! Multi-byte accessors need no alignment.  A multi-byte access whose range
//! reaches outside the memory fails with `OutOfBounds`; the bounds are
//! checked before any byte is written, so a failing store leaves the memory
//! unchanged.

use vstd::prelude::*;

verus! {

/// Error from the memory layer: the address, or part of a multi-byte access,
/// lies outside the memory.
#[derive(Clone, Copy, Debug, PartialEq, Eq)]
pub enum MemoryError {
    /// The access reached outside the memory.
    OutOfBounds,
}

/// A flat byte array of fixed size.
pub struct Memory(pub Vec<u8>);

impl View for Memory {
    type V = Seq<u8>;

    open spec fn view(&self) -> Seq<u8> {
        self.0@
    }
}

/// The little-endian 16-bit value stored at `a`.
pub open spec fn spec_get16(m: Seq<u8>, a: int) -> u16
    recommends
        0 <= a,
        a + 2 <= m.len(),
{
    (m[a] as u16) | ((m[a + 1] as u16) << 8)
}

/// The little-endian 32-bit value stored at `a`.
pub open spec fn spec_get32(m: Seq<u8>, a: int) -> u32
    recommends
        0 <= a,
        a + 4 <= m.len(),
{
    (m[a] as u32) | ((m[a + 1] as u32) << 8) | ((m[a + 2] as u32) << 16) | ((m[a + 3] as u32)
        << 24)
}

/// The memory after storing `v` at `a`, little-endian, 16 bits.
pub open spec fn spec_set16(m: Seq<u8>, a: int, v: u16) -> Seq<u8>
    recommends
        0 <= a,
        a + 2 <= m.len(),
{
    m.update(a, v as u8).update(a + 1, (v >> 8) as u8)
}

/// The memory after storing `v` at `a`, little-endian, 32 bits.
pub open spec fn spec_set32(m: Seq<u8>, a: int, v: u32) -> Seq<u8>
    recommends
        0 <= a,
        a + 4 <= m.len(),
{
    m.update(a, v as u8).update(a + 1, (v >> 8) as u8).update(a + 2, (v >> 16) as u8).update(
        a + 3,
        (v >> 24) as u8,
    )
}

impl Memory {
    /// Create a memory of `sz` zeroed bytes.
    pub fn new(sz: usize) -> (r: Self)
        ensures
            r@.len() == sz,
            forall|i: int| 0 <= i < sz ==> r@[i] == 0u8,
    {
        let mut bytes: Vec<u8> = Vec::new();
        while bytes.len() < sz
            invariant
                bytes@.len() <= sz,
                forall|i: int| 0 <= i < bytes@.len() ==> bytes@[i] == 0u8,
            decreases sz - bytes@.len(),
        {
            bytes.push(0);
        }
        Memory(bytes)
    }

    /// Read the byte at `addr`.
    pub fn get8(&self, addr: usize) -> (r: Result<u8, MemoryError>)
        ensures
            addr < self@.len() ==> r == Ok::<u8, MemoryError>(self@[addr as int]),
            addr >= self@.len() ==> r == Err::<u8, MemoryError>(MemoryError::OutOfBounds),
    {
        if addr < self.0.len() {
            Ok(self.0[addr])
        } else {
            Err(MemoryError::OutOfBounds)
        }
    }

    /// Write the byte at `addr`.
    pub fn set8(&mut self, addr: usize, val: u8) -> (r: Result<(), MemoryError>)
        ensures
            addr < old(self)@.len() ==> r == Ok::<(), MemoryError>(()) && final(self)@ == old(
                self,
            )@.update(addr as int, val),
            addr >= old(self)@.len() ==> r == Err::<(), MemoryError>(MemoryError::OutOfBounds)
                && final(self)@ == old(self)@,
    {
        if addr < self.0.len() {
            self.0[addr] = val;
            Ok(())
        } else {
            Err(MemoryError::OutOfBounds)
        }
    }

    /// Read the little-endian 16-bit value at `addr`.
    pub fn get16(&self, addr: usize) -> (r: Result<u16, MemoryError>)
        ensures
            addr + 2 <= self@.len() ==> r == Ok::<u16, MemoryError>(
                spec_get16(self@, addr as int),
            ),
            addr + 2 > self@.len() ==> r == Err::<u16, MemoryError>(MemoryError::OutOfBounds),
    {
        if addr < self.0.len() && self.0.len() - addr >= 2 {
            let b0 = self.0[addr];
            let b1 = self.0[addr + 1];
            Ok((b0 as u16) | ((b1 as u16) << 8u32))
        } else {
            Err(MemoryError::OutOfBounds)
        }
    }

    /// Write the little-endian 16-bit value at `addr`.  The bounds are
    /// checked first: a failing write leaves the memory unchanged.
    pub fn set16(&mut self, addr: usize, val: u16) -> (r: Result<(), MemoryError>)
        ensures
            addr + 2 <= old(self)@.len() ==> r == Ok::<(), MemoryError>(()) && final(self)@ == spec_set16(
                old(self)@,
                addr as int,
                val,
            ),
            addr + 2 > old(self)@.len() ==> r == Err::<(), MemoryError>(MemoryError::OutOfBounds)
                && final(self)@ == old(self)@,
    {
        if addr < self.0.len() && self.0.len() - addr >= 2 {
            self.0[addr] = val as u8;
            self.0[addr + 1] = (val >> 8u32) as u8;
            Ok(())
        } else {
            Err(MemoryError::OutOfBounds)
        }
    }

    /// Read the little-endian 32-bit value at `addr`.
    pub fn get32(&self, addr: usize) -> (r: Result<u32, MemoryError>)
        ensures
            addr + 4 <= self@.len() ==> r == Ok::<u32, MemoryError>(
                spec_get32(self@, addr as int),
            ),
            addr + 4 > self@.len() ==> r == Err::<u32, MemoryError>(MemoryError::OutOfBounds),
    {
        if addr < self.0.len() && self.0.len() - addr >= 4 {
            let b0 = self.0[addr];
            let b1 = self.0[addr + 1];
            let b2 = self.0[addr + 2];
            let b3 = self.0[addr + 3];
            Ok((b0 as u32) | ((b1 as u32) << 8u32) | ((b2 as u32) << 16u32) | ((b3 as u32)
                << 24u32))
        } else {
            Err(MemoryError::OutOfBounds)
        }
    }

    /// Write the little-endian 32-bit value at `addr`.  The bounds are
    /// checked first: a failing write leaves the memory unchanged.
    pub fn set32(&mut self, addr: usize, val: u32) -> (r: Result<(), MemoryError>)
        ensures
            addr + 4 <= old(self)@.len() ==> r == Ok::<(), MemoryError>(()) && final(self)@ == spec_set32(
                old(self)@,
                addr as int,
                val,
            ),
            addr + 4 > old(self)@.len() ==> r == Err::<(), MemoryError>(MemoryError::OutOfBounds)
                && final(self)@ == old(self)@,
    {
        if addr < self.0.len() && self.0.len() - addr >= 4 {
            self.0[addr] = val as u8;
            self.0[addr + 1] = (val >> 8u32) as u8;
            self.0[addr + 2] = (val >> 16u32) as u8;
            self.0[addr + 3] = (val >> 24u32) as u8;
            Ok(())
        } else {
            Err(MemoryError::OutOfBounds)
        }
    }
}

/// Storing a byte and loading from the same address yields the stored value.
pub proof fn lemma_store_load_8(m: Seq<u8>, a: int, v: u8)
    requires
        0 <= a < m.len(),
    ensures
        m.update(a, v)[a] == v,
{
}

/// Storing a 16-bit value and loading from the same address with the same
/// width yields the stored value.
pub proof fn lemma_store_load_16(m: Seq<u8>, a: int, v: u16)
    requires
        0 <= a,
        a + 2 <= m.len(),
    ensures
        spec_get16(spec_set16(m, a, v), a) == v,
{
    assert(((v as u8) as u16) | ((((v >> 8) as u8) as u16) << 8) == v) by (bit_vector);
}

/// Storing a 32-bit value and loading from the same address with the same
/// width yields the stored value.
pub proof fn lemma_store_load_32(m: Seq<u8>, a: int, v: u32)
    requires
        0 <= a,
        a + 4 <= m.len(),
    ensures
        spec_get32(spec_set32(m, a, v), a) == v,
{
    assert(((v as u8) as u32) | ((((v >> 8) as u8) as u32) << 8) | ((((v >> 16) as u8) as u32)
        << 16) | ((((v >> 24) as u8) as u32) << 24) == v) by (bit_vector);
}

} // verus!
