use vstd::prelude::*;

verus! {

/// Capacity of the memory image in bytes.
pub const MEMORY_SIZE: usize = 0x5000;

/// Where the 16-bit address `address` (taken modulo 2^16) lands in the image:
/// addresses past the capacity wrap around it.
pub open spec fn slot(address: int) -> int {
    (address % 0x10000) % (MEMORY_SIZE as int)
}

/// The byte at `address`.
pub open spec fn mem_read8(m: Seq<u8>, address: u16) -> u8 {
    m[slot(address as int)]
}

/// The little-endian word at `address`.
pub open spec fn mem_read16(m: Seq<u8>, address: u16) -> u16 {
    (m[slot(address as int)] as int + 256 * m[slot(address + 1)] as int) as u16
}

/// `len` bytes from `address` on.
pub open spec fn mem_read(m: Seq<u8>, address: u16, len: nat) -> Seq<u8> {
    Seq::new(len, |i: int| m[slot(address + i)])
}

/// The image after storing `value` at `address`.
pub open spec fn mem_write8(m: Seq<u8>, address: u16, value: u8) -> Seq<u8> {
    m.update(slot(address as int), value)
}

/// The image after storing `value` little-endian at `address`.
pub open spec fn mem_write16(m: Seq<u8>, address: u16, value: u16) -> Seq<u8> {
    m.update(slot(address as int), (value % 256) as u8).update(
        slot(address + 1),
        (value / 256) as u8,
    )
}

/// The image after storing `bytes` one after another from `address` on.
pub open spec fn mem_write(m: Seq<u8>, address: u16, bytes: Seq<u8>) -> Seq<u8>
    decreases bytes.len(),
{
    if bytes.len() == 0 {
        m
    } else {
        mem_write(m, address, bytes.drop_last()).update(
            slot(address + bytes.len() - 1),
            bytes.last(),
        )
    }
}

/// The flat byte image that the processor addresses.
pub struct Memory {
    memory: Vec<u8>,
}

impl View for Memory {
    type V = Seq<u8>;

    closed spec fn view(&self) -> Seq<u8> {
        self.memory@
    }
}

impl Memory {
    /// The image holds exactly `MEMORY_SIZE` bytes.
    pub open spec fn wf(&self) -> bool {
        self@.len() == MEMORY_SIZE
    }

    /// An image of `MEMORY_SIZE` zero bytes.
    pub fn new() -> (r: Memory)
        ensures
            r.wf(),
            r@.len() == MEMORY_SIZE,
            forall|i: int| 0 <= i < MEMORY_SIZE ==> r@[i] == 0,
    {
        let mut memory: Vec<u8> = Vec::new();
        while memory.len() < MEMORY_SIZE
            invariant
                memory.len() <= MEMORY_SIZE,
                forall|i: int| 0 <= i < memory.len() ==> memory@[i] == 0,
            decreases MEMORY_SIZE - memory.len(),
        {
            memory.push(0);
        }
        Memory { memory }
    }

    fn index_of(address: u16) -> (r: usize)
        ensures
            r == slot(address as int),
            r < MEMORY_SIZE,
    {
        (address as usize) % MEMORY_SIZE
    }

    /// A copy of `len` bytes from `address` on.
    pub fn read(&self, address: u16, len: usize) -> (r: Vec<u8>)
        requires
            self.wf(),
        ensures
            r@ == mem_read(self@, address, len as nat),
    {
        let mut out: Vec<u8> = Vec::new();
        let mut at: u16 = address;
        let mut i: usize = 0;
        while i < len
            invariant
                i <= len,
                self.memory.len() == MEMORY_SIZE,
                at as int == (address + i) % 0x10000,
                out@ =~= mem_read(self@, address, i as nat),
            decreases len - i,
        {
            out.push(self.memory[Self::index_of(at)]);
            at = ((at as u32 + 1) % 0x10000) as u16;
            i = i + 1;
        }
        out
    }

    pub fn read8(&self, address: u16) -> (r: u8)
        requires
            self.wf(),
        ensures
            r == mem_read8(self@, address),
    {
        self.memory[Self::index_of(address)]
    }

    /// The little-endian word at `address`; the second byte is at `address + 1` modulo 2^16.
    pub fn read16(&self, address: u16) -> (r: u16)
        requires
            self.wf(),
        ensures
            r == mem_read16(self@, address),
    {
        let low = self.read8(address);
        let high = self.read8(((address as u32 + 1) % 0x10000) as u16);
        (high as u16) * 256 + (low as u16)
    }

    /// Stores `bytes` one after another from `address` on.
    pub fn write(&mut self, address: u16, bytes: &[u8])
        requires
            old(self).wf(),
        ensures
            final(self).wf(),
            final(self)@ == mem_write(old(self)@, address, bytes@),
    {
        let mut at: u16 = address;
        let mut i: usize = 0;
        while i < bytes.len()
            invariant
                i <= bytes.len(),
                self.memory.len() == MEMORY_SIZE,
                at as int == (address + i) % 0x10000,
                self@ == mem_write(old(self)@, address, bytes@.subrange(0, i as int)),
            decreases bytes.len() - i,
        {
            proof {
                let next = bytes@.subrange(0, i + 1);
                assert(next.drop_last() =~= bytes@.subrange(0, i as int));
            }
            self.memory.set(Self::index_of(at), bytes[i]);
            at = ((at as u32 + 1) % 0x10000) as u16;
            i = i + 1;
        }
        proof {
            assert(bytes@.subrange(0, bytes@.len() as int) =~= bytes@);
        }
    }

    pub fn write8(&mut self, address: u16, data: u8)
        requires
            old(self).wf(),
        ensures
            final(self).wf(),
            final(self)@ == mem_write8(old(self)@, address, data),
    {
        self.memory.set(Self::index_of(address), data);
    }

    /// Stores `data` little-endian: the low byte at `address`, the high byte at
    /// `address + 1` modulo 2^16.
    pub fn write16(&mut self, address: u16, data: u16)
        requires
            old(self).wf(),
        ensures
            final(self).wf(),
            final(self)@ == mem_write16(old(self)@, address, data),
    {
        self.write8(address, (data % 256) as u8);
        self.write8(((address as u32 + 1) % 0x10000) as u16, (data / 256) as u8);
    }
}

} // verus!
