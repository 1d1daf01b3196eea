//! The 4 KiB address space.
use vstd::prelude::*;

verus! {

/// Number of addressable bytes.
pub const MAX_MEM: usize = 4096;

/// The machine's memory: `MAX_MEM` bytes at addresses `0x000..=0xFFF`.
pub struct Memory {
    data: [u8; 4096],
}

impl View for Memory {
    type V = Seq<u8>;

    closed spec fn view(&self) -> Seq<u8> {
        self.data@
    }
}

/// A memory image in which every byte is zero.
pub open spec fn zeroed() -> Seq<u8> {
    Seq::new(MAX_MEM as nat, |a: int| 0u8)
}

impl Memory {
    /// Every value of the type holds exactly `MAX_MEM` bytes.
    pub proof fn lemma_len(&self)
        ensures
            self@.len() == MAX_MEM,
    {
    }

    /// Creates a memory filled with zeros.
    pub fn new() -> (m: Memory)
        ensures
            m@ == zeroed(),
    {
        let m = Memory { data: [0u8; 4096] };
        assert(m@ =~= zeroed());
        m
    }

    /// Reads the byte at `addr`.
    pub fn read(&self, addr: usize) -> (byte: u8)
        requires
            addr < MAX_MEM,
        ensures
            byte == self@[addr as int],
        no_unwind
    {
        self.data[addr]
    }

    /// Stores `value` at `addr` and leaves every other byte as it was.
    pub fn write(&mut self, addr: usize, value: u8)
        requires
            addr < MAX_MEM,
        ensures
            final(self)@ == old(self)@.update(addr as int, value),
        no_unwind
    {
        self.data[addr] = value;
    }
}

} // verus!
