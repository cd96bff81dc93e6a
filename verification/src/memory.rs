//! Main memory: a flat, byte-addressable store of fixed size.

use vstd::prelude::*;

verus! {

/// Number of addressable bytes.
pub const MEMORY_SIZE: usize = 4096;

/// Number of bytes shown on one line of a memory dump.
pub const DUMP_ROW_BYTES: usize = 16;

/// The interface the processor uses to reach memory.
///
/// The view of a memory is the sequence of its bytes, indexed by address.
pub trait MemoryTrait: View<V = Seq<u8>> {
    /// Hands out the whole store for batch access. Whatever the caller leaves
    /// in the returned cells is the content of the memory afterwards.
    fn get_cells(&mut self) -> (cells: &mut [u8; MEMORY_SIZE])
        ensures
            cells@ == old(self)@,
            final(self)@ == final(cells)@,
    ;

    /// Reads the byte at `index`.
    fn read(&self, index: usize) -> (value: u8)
        requires
            index < self@.len(),
        ensures
            value == self@[index as int],
    ;

    /// Stores `value` at `index` and leaves every other byte alone.
    fn write(&mut self, index: usize, value: u8)
        requires
            index < old(self)@.len(),
        ensures
            final(self)@ == old(self)@.update(index as int, value),
    ;

    /// Sets every byte to zero; the size stays.
    fn clear(&mut self)
        ensures
            final(self)@ == zeroed(old(self)@.len()),
    ;

    /// The number of addressable bytes.
    fn get_size(&self) -> (size: usize)
        ensures
            size == self@.len(),
    ;
}

/// A memory of `len` bytes that are all zero.
pub open spec fn zeroed(len: nat) -> Seq<u8> {
    Seq::new(len, |i: int| 0u8)
}

/// The memory of the machine: `MEMORY_SIZE` bytes.
pub struct Memory {
    cells: [u8; MEMORY_SIZE],
}

impl View for Memory {
    type V = Seq<u8>;

    closed spec fn view(&self) -> Seq<u8> {
        self.cells@
    }
}

impl MemoryTrait for Memory {
    fn get_cells(&mut self) -> (cells: &mut [u8; MEMORY_SIZE]) {
        &mut self.cells
    }

    fn read(&self, index: usize) -> (value: u8) {
        self.cells[index]
    }

    fn write(&mut self, index: usize, value: u8) {
        self.cells[index] = value;
    }

    fn clear(&mut self) {
        self.cells = [0; MEMORY_SIZE];
    }

    fn get_size(&self) -> (size: usize) {
        proof {
            self.lemma_size();
        }
        MEMORY_SIZE
    }
}

impl Memory {
    /// A memory with every byte zero.
    pub fn new() -> (memory: Memory)
        ensures
            memory@ == zeroed(MEMORY_SIZE as nat),
    {
        Memory { cells: [0; MEMORY_SIZE] }
    }

    /// Every `Memory` holds exactly `MEMORY_SIZE` bytes.
    pub proof fn lemma_size(&self)
        ensures
            self@.len() == MEMORY_SIZE,
    {
    }

    /// The remainder of `n1` divided by `n2`, computed from the quotient.
    pub fn modulo(n1: usize, n2: usize) -> (remainder: usize)
        requires
            n2 != 0,
        ensures
            remainder == n1 % n2,
    {
        let quotient: usize = n1 / n2;
        proof {
            vstd::arithmetic::div_mod::lemma_fundamental_div_mod(n1 as int, n2 as int);
            vstd::arithmetic::div_mod::lemma_mod_bound(n1 as int, n2 as int);
        }
        n1 - n2 * quotient
    }

    /// Whether a dump prints the address label before the byte at `index`:
    /// it does so at the start of every row.
    pub fn starts_dump_row(index: usize) -> (starts: bool)
        ensures
            starts == (index % DUMP_ROW_BYTES == 0),
    {
        index == 0 || (index > 1 && Memory::modulo(index, DUMP_ROW_BYTES) == 0)
    }

    /// Whether a dump breaks the line after the byte at `index`: it does so
    /// after the last byte of every row.
    pub fn ends_dump_row(index: usize) -> (ends: bool)
        ensures
            ends == (index % DUMP_ROW_BYTES == DUMP_ROW_BYTES - 1),
    {
        index > 0 && Memory::modulo(index, DUMP_ROW_BYTES) == DUMP_ROW_BYTES - 1
    }
}

} // verus!
