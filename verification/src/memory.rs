use vstd::prelude::*;
use crate::types::{Address, Instruction, Word};

verus! {

/// Number of bytes of installed memory.
pub const MEMORY_SIZE: u32 = 0x0100_0000;

/// The byte at address `a`; addresses beyond the installed memory read as zero.
pub open spec fn byte_at(mem: Seq<u8>, a: int) -> u8 {
    if 0 <= a < mem.len() {
        mem[a]
    } else {
        0
    }
}

/// The big-endian word whose first byte is at address `a`.
pub open spec fn word_at(mem: Seq<u8>, a: int) -> Word {
    (byte_at(mem, a) * 0x100_0000 + byte_at(mem, a + 1) * 0x1_0000 + byte_at(mem, a + 2) * 0x100
        + byte_at(mem, a + 3)) as Word
}

/// The big-endian instruction whose first byte is at address `a`.
pub open spec fn instruction_at(mem: Seq<u8>, a: int) -> Instruction {
    (word_at(mem, a) * 0x1_0000_0000 + word_at(mem, a + 4)) as Instruction
}

/// Memory after storing byte `b` at address `a`; a store beyond the installed
/// memory changes nothing.
pub open spec fn with_byte(mem: Seq<u8>, a: int, b: u8) -> Seq<u8> {
    if 0 <= a < mem.len() {
        mem.update(a, b)
    } else {
        mem
    }
}

/// Memory after storing word `w` big-endian at address `a`.
pub open spec fn with_word(mem: Seq<u8>, a: int, w: Word) -> Seq<u8> {
    let m1 = with_byte(mem, a, (w / 0x100_0000) as u8);
    let m2 = with_byte(m1, a + 1, ((w / 0x1_0000) % 0x100) as u8);
    let m3 = with_byte(m2, a + 2, ((w / 0x100) % 0x100) as u8);
    with_byte(m3, a + 3, (w % 0x100) as u8)
}

/// Memory after storing instruction `i` big-endian at address `a`.
pub open spec fn with_instruction(mem: Seq<u8>, a: int, i: Instruction) -> Seq<u8> {
    with_word(with_word(mem, a, (i / 0x1_0000_0000) as Word), a + 4, (i % 0x1_0000_0000) as Word)
}

/// Memory after storing `bytes` one after the other from address `a`; bytes
/// that fall beyond the installed memory are dropped.
pub open spec fn with_bytes(mem: Seq<u8>, a: int, bytes: Seq<u8>) -> Seq<u8> {
    Seq::new(mem.len(), |i: int| if a <= i < a + bytes.len() { bytes[i - a] } else { mem[i] })
}

/// Byte-addressed memory of `MEMORY_SIZE` bytes.
pub struct Memory {
    data: Vec<u8>,
}

impl View for Memory {
    type V = Seq<u8>;

    closed spec fn view(&self) -> Seq<u8> {
        self.data@
    }
}

impl Memory {
    /// The memory holds exactly `MEMORY_SIZE` bytes.
    pub open spec fn wf(&self) -> bool {
        self@.len() == MEMORY_SIZE
    }

    /// Zero-filled memory.
    pub fn new() -> (memory: Self)
        ensures
            memory.wf(),
            forall|i: int| 0 <= i < MEMORY_SIZE ==> #[trigger] memory@[i] == 0,
    {
        let mut data: Vec<u8> = Vec::with_capacity(MEMORY_SIZE as usize);
        let mut i: u32 = 0;
        while i < MEMORY_SIZE
            invariant
                i <= MEMORY_SIZE,
                data@.len() == i,
                forall|j: int| 0 <= j < i ==> #[trigger] data@[j] == 0,
            decreases MEMORY_SIZE - i,
        {
            data.push(0);
            i = i + 1;
        }
        Memory { data }
    }

    pub(crate) fn read_byte(&self, a: u64) -> (b: u8)
        ensures
            b == byte_at(self@, a as int),
    {
        if a < self.data.len() as u64 {
            self.data[a as usize]
        } else {
            0
        }
    }

    fn write_byte(&mut self, a: u64, b: u8)
        ensures
            final(self)@ == with_byte(old(self)@, a as int, b),
    {
        if a < self.data.len() as u64 {
            self.data.set(a as usize, b);
        }
    }

    fn read_word(&self, a: u64) -> (w: Word)
        requires
            a <= u32::MAX + 4,
        ensures
            w == word_at(self@, a as int),
    {
        let b0 = self.read_byte(a) as u32;
        let b1 = self.read_byte(a + 1) as u32;
        let b2 = self.read_byte(a + 2) as u32;
        let b3 = self.read_byte(a + 3) as u32;
        b0 * 0x100_0000 + b1 * 0x1_0000 + b2 * 0x100 + b3
    }

    fn write_word(&mut self, a: u64, w: Word)
        requires
            a <= u32::MAX + 4,
        ensures
            final(self)@ == with_word(old(self)@, a as int, w),
    {
        self.write_byte(a, (w / 0x100_0000) as u8);
        self.write_byte(a + 1, ((w / 0x1_0000) % 0x100) as u8);
        self.write_byte(a + 2, ((w / 0x100) % 0x100) as u8);
        self.write_byte(a + 3, (w % 0x100) as u8);
    }

    /// Reads the big-endian word at `address`.
    pub fn read_data(&self, address: Address) -> (w: Word)
        ensures
            w == word_at(self@, address as int),
    {
        self.read_word(address as u64)
    }

    /// Stores `w` big-endian at `address`; bytes that fall beyond the
    /// installed memory are dropped.
    pub fn write_data(&mut self, address: Address, w: Word)
        requires
            old(self).wf(),
        ensures
            final(self).wf(),
            final(self)@ == with_word(old(self)@, address as int, w),
    {
        self.write_word(address as u64, w);
    }

    /// Stores `bytes` one after the other from `address` on, as a program
    /// image is loaded; bytes that fall beyond the installed memory are
    /// dropped.
    pub fn write_bytes(&mut self, address: Address, bytes: &[u8])
        requires
            old(self).wf(),
        ensures
            final(self).wf(),
            final(self)@ == with_bytes(old(self)@, address as int, bytes@),
    {
        let mut k: usize = 0;
        while k < bytes.len()
            invariant
                k <= bytes@.len(),
                self.wf(),
                self@ == with_bytes(old(self)@, address as int, bytes@.take(k as int)),
            decreases bytes@.len() - k,
        {
            if (k as u64) < MEMORY_SIZE as u64 && (address as u64) < MEMORY_SIZE as u64 - k as u64 {
                self.write_byte(address as u64 + k as u64, bytes[k]);
            }
            k = k + 1;
            assert(self@ =~= with_bytes(old(self)@, address as int, bytes@.take(k as int)));
        }
        assert(bytes@.take(k as int) =~= bytes@);
    }

    /// Reads the big-endian instruction at `address`.
    pub fn read_instruction(&self, address: Address) -> (i: Instruction)
        ensures
            i == instruction_at(self@, address as int),
    {
        let high = self.read_word(address as u64) as u64;
        let low = self.read_word(address as u64 + 4) as u64;
        high * 0x1_0000_0000 + low
    }

    /// Stores `i` big-endian at `address`; bytes that fall beyond the
    /// installed memory are dropped.
    pub fn write_instruction(&mut self, address: Address, i: Instruction)
        requires
            old(self).wf(),
        ensures
            final(self).wf(),
            final(self)@ == with_instruction(old(self)@, address as int, i),
    {
        self.write_word(address as u64, (i / 0x1_0000_0000) as Word);
        self.write_word(address as u64 + 4, (i % 0x1_0000_0000) as Word);
    }
}

/// Reading the word just written at an address inside memory gives it back.
pub proof fn lemma_read_data_after_write(mem: Seq<u8>, a: int, w: Word)
    requires
        0 <= a,
        a + 4 <= mem.len(),
    ensures
        word_at(with_word(mem, a, w), a) == w,
        with_word(mem, a, w).len() == mem.len(),
{
    assert(w == (w / 0x100_0000) * 0x100_0000 + ((w / 0x1_0000) % 0x100) * 0x1_0000 + ((w / 0x100)
        % 0x100) * 0x100 + w % 0x100) by (nonlinear_arith);
}

/// A word store changes no byte outside the four bytes it writes, and keeps
/// the memory's size.
pub proof fn lemma_write_data_frame(mem: Seq<u8>, a: int, w: Word, b: int)
    requires
        b < a || a + 4 <= b,
    ensures
        byte_at(with_word(mem, a, w), b) == byte_at(mem, b),
        with_word(mem, a, w).len() == mem.len(),
{
}

/// A word store leaves every word that does not overlap it unchanged.
pub proof fn lemma_read_data_after_disjoint_write(mem: Seq<u8>, a: int, w: Word, b: int)
    requires
        b + 4 <= a || a + 4 <= b,
    ensures
        word_at(with_word(mem, a, w), b) == word_at(mem, b),
{
    lemma_write_data_frame(mem, a, w, b);
    lemma_write_data_frame(mem, a, w, b + 1);
    lemma_write_data_frame(mem, a, w, b + 2);
    lemma_write_data_frame(mem, a, w, b + 3);
}

/// Reading the instruction just written at an address inside memory gives it
/// back.
pub proof fn lemma_read_instruction_after_write(mem: Seq<u8>, a: int, i: Instruction)
    requires
        0 <= a,
        a + 8 <= mem.len(),
    ensures
        instruction_at(with_instruction(mem, a, i), a) == i,
        with_instruction(mem, a, i).len() == mem.len(),
{
    let hi = (i / 0x1_0000_0000) as Word;
    let lo = (i % 0x1_0000_0000) as Word;
    let m1 = with_word(mem, a, hi);
    lemma_read_data_after_write(mem, a, hi);
    lemma_read_data_after_write(m1, a + 4, lo);
    lemma_read_data_after_disjoint_write(m1, a + 4, lo, a);
    assert(i == hi * 0x1_0000_0000 + lo) by (nonlinear_arith)
        requires
            hi == i / 0x1_0000_0000,
            lo == i % 0x1_0000_0000,
    ;
}

/// An instruction store changes no byte outside the eight bytes it writes.
pub proof fn lemma_write_instruction_frame(mem: Seq<u8>, a: int, i: Instruction, b: int)
    requires
        b < a || a + 8 <= b,
    ensures
        byte_at(with_instruction(mem, a, i), b) == byte_at(mem, b),
        with_instruction(mem, a, i).len() == mem.len(),
{
    let m1 = with_word(mem, a, (i / 0x1_0000_0000) as Word);
    lemma_write_data_frame(mem, a, (i / 0x1_0000_0000) as Word, b);
    lemma_write_data_frame(m1, a + 4, (i % 0x1_0000_0000) as Word, b);
}

/// Loading bytes puts byte `i` of them at address `a + i`, inside memory,
/// and leaves every other address and the memory's size as they were.
pub proof fn lemma_write_bytes_law(mem: Seq<u8>, a: int, bytes: Seq<u8>, b: int)
    requires
        0 <= a,
    ensures
        with_bytes(mem, a, bytes).len() == mem.len(),
        a <= b < a + bytes.len() && b < mem.len() ==> byte_at(with_bytes(mem, a, bytes), b) == bytes[b - a],
        !(a <= b < a + bytes.len()) ==> byte_at(with_bytes(mem, a, bytes), b) == byte_at(mem, b),
{
}

} // verus!
