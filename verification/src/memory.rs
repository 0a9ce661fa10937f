//! The address space: 65,536 byte cells.

use vstd::prelude::*;

verus! {

/// The number of cells of the address space.
pub const MEMORY_SIZE: usize = 0x1_0000;

/// The address that follows `addr`; the last address is followed by 0.
pub open spec fn next_address(addr: u16) -> u16 {
    if addr == 0xffff {
        0
    } else {
        (addr + 1) as u16
    }
}

/// The 16-bit word whose low byte is `lo` and whose high byte is `hi`.
pub open spec fn word(lo: u8, hi: u8) -> u16 {
    (hi * 256 + lo) as u16
}

/// The low byte of `w`.
pub open spec fn low_byte(w: u16) -> u8 {
    (w % 256) as u8
}

/// The high byte of `w`.
pub open spec fn high_byte(w: u16) -> u8 {
    (w / 256) as u8
}

/// The little-endian word in `cells` at `addr`: low byte at `addr`, high
/// byte at the address that follows it.
pub open spec fn word_at(cells: Seq<u8>, addr: u16) -> u16 {
    word(cells[addr as int], cells[next_address(addr) as int])
}

/// `cells` with the little-endian word `w` written at `addr`.
pub open spec fn with_word(cells: Seq<u8>, addr: u16, w: u16) -> Seq<u8> {
    cells.update(addr as int, low_byte(w)).update(next_address(addr) as int, high_byte(w))
}

/// A flat memory in which every 16-bit address has a cell.
///
/// Its view is the sequence of its 65,536 cells.
pub struct Memory {
    cells: [u8; 0x1_0000],
}

impl View for Memory {
    type V = Seq<u8>;

    closed spec fn view(&self) -> Seq<u8> {
        self.cells@
    }
}

impl Memory {
    /// Every memory has 65,536 cells.
    pub proof fn lemma_size(&self)
        ensures
            self@.len() == MEMORY_SIZE,
    {
    }

    /// A memory whose cells are all 0.
    pub fn new() -> (m: Self)
        ensures
            m@ == Seq::new(MEMORY_SIZE as nat, |i: int| 0u8),
    {
        Memory { cells: [0u8; 0x1_0000] }
    }

    /// The byte at `addr`.
    pub fn read8(&self, addr: u16) -> (b: u8)
        ensures
            b == self@[addr as int],
    {
        self.cells[addr as usize]
    }

    /// Stores `b` at `addr`.
    pub fn write8(&mut self, addr: u16, b: u8)
        ensures
            final(self)@ == old(self)@.update(addr as int, b),
    {
        self.cells[addr as usize] = b;
    }

    /// The little-endian word at `addr`. At the last address the high byte
    /// comes from address 0.
    pub fn read16(&self, addr: u16) -> (w: u16)
        ensures
            w == word_at(self@, addr),
    {
        let lo = self.read8(addr);
        let hi = self.read8(addr.wrapping_add(1));
        make_word(lo, hi)
    }

    /// Stores `w` at `addr`, low byte first. At the last address the high
    /// byte goes to address 0.
    pub fn write16(&mut self, addr: u16, w: u16)
        ensures
            final(self)@ == with_word(old(self)@, addr, w),
    {
        let hi = (w >> 8) as u8;
        let lo = (w & 0xff) as u8;
        proof {
            lemma_split_word(w);
        }
        self.write8(addr, lo);
        self.write8(addr.wrapping_add(1), hi);
    }
}

/// The word with low byte `lo` and high byte `hi`.
pub fn make_word(lo: u8, hi: u8) -> (w: u16)
    ensures
        w == word(lo, hi),
{
    proof {
        lemma_join_word(lo, hi);
    }
    ((hi as u16) << 8) | (lo as u16)
}

/// Shifting the high byte up and or-ing the low byte in is `hi * 256 + lo`.
pub proof fn lemma_join_word(lo: u8, hi: u8)
    ensures
        ((hi as u16) << 8) | (lo as u16) == hi * 256 + lo,
{
    assert(((hi as u16) << 8) | (lo as u16) == hi * 256 + lo) by (bit_vector);
}

/// Shifting down by 8 and masking with 255 split a word into its bytes.
pub proof fn lemma_split_word(w: u16)
    ensures
        w >> 8 == w / 256,
        w & 0xff == w % 256,
{
    assert(w >> 8 == w / 256) by (bit_vector);
    assert(w & 0xff == w % 256) by (bit_vector);
}

} // verus!
