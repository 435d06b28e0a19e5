//! The flat memory image: a fixed number of bytes mapped from a fixed base
//! address, read and written as little-endian 32-bit words.

use vstd::prelude::*;

verus! {

/// The number of bytes of memory.
pub const MEMORY_SIZE: u64 = 0x10_0000;

/// The address of the first byte of memory.
pub const MEMORY_BASE_ADDRESS: u64 = 0x8000_0000;

/// Whether the four bytes of a word at `address` all lie in memory.
pub open spec fn word_in_range(address: u64) -> bool {
    MEMORY_BASE_ADDRESS <= address && address + 4 <= MEMORY_BASE_ADDRESS + MEMORY_SIZE
}

/// The little-endian word made of `b0` (lowest) to `b3` (highest).
pub open spec fn word_of_bytes(b0: u8, b1: u8, b2: u8, b3: u8) -> u32 {
    (b0 as u32) | ((b1 as u32) << 8) | ((b2 as u32) << 16) | ((b3 as u32) << 24)
}

/// Byte `i` of `value`, counting from the lowest.
pub open spec fn byte_of_word(value: u32, i: u32) -> u8 {
    (value >> (8 * i) as u32) as u8
}

/// The word held in the four bytes of `bytes` from `offset` on.
pub open spec fn word_at(bytes: Seq<u8>, offset: int) -> u32 {
    word_of_bytes(bytes[offset], bytes[offset + 1], bytes[offset + 2], bytes[offset + 3])
}

/// `bytes` with the four bytes from `offset` on replaced by those of `value`.
pub open spec fn with_word(bytes: Seq<u8>, offset: int, value: u32) -> Seq<u8> {
    bytes.update(offset, byte_of_word(value, 0)).update(offset + 1, byte_of_word(value, 1)).update(
        offset + 2,
        byte_of_word(value, 2),
    ).update(offset + 3, byte_of_word(value, 3))
}

/// `bytes` with its first bytes replaced by those of `image`.
pub open spec fn with_image(bytes: Seq<u8>, image: Seq<u8>) -> Seq<u8> {
    image + bytes.subrange(image.len() as int, bytes.len() as int)
}

pub struct Memory {
    memory: Vec<u8>,
}

impl View for Memory {
    type V = Seq<u8>;

    /// The bytes of memory, the first being the one at the base address.
    closed spec fn view(&self) -> Seq<u8> {
        self.memory@
    }
}

impl Memory {
    #[verifier::type_invariant]
    spec fn well_formed(&self) -> bool {
        self.memory@.len() == MEMORY_SIZE
    }

    /// The first address past the end of memory. Memory always holds the
    /// same number of bytes.
    pub fn size(&self) -> (end: u64)
        ensures
            end == MEMORY_BASE_ADDRESS + MEMORY_SIZE,
            self@.len() == MEMORY_SIZE,
    {
        proof {
            use_type_invariant(self);
        }
        MEMORY_BASE_ADDRESS + MEMORY_SIZE
    }

    /// Whether a word at `address` can be loaded or stored.
    pub fn contains_word(&self, address: u64) -> (yes: bool)
        ensures
            yes == word_in_range(address),
    {
        MEMORY_BASE_ADDRESS <= address && address <= MEMORY_BASE_ADDRESS + MEMORY_SIZE - 4
    }

    /// The little-endian word at `address`.
    pub fn load(&self, address: u64) -> (value: u32)
        requires
            word_in_range(address),
        ensures
            value == word_at(self@, address - MEMORY_BASE_ADDRESS),
    {
        proof {
            use_type_invariant(self);
        }
        let offset: usize = (address - MEMORY_BASE_ADDRESS) as usize;
        let b0: u8 = self.memory[offset];
        let b1: u8 = self.memory[offset + 1];
        let b2: u8 = self.memory[offset + 2];
        let b3: u8 = self.memory[offset + 3];
        (b0 as u32) | ((b1 as u32) << 8) | ((b2 as u32) << 16) | ((b3 as u32) << 24)
    }

    /// Stores `value` at `address`, lowest byte first.
    pub fn store(&mut self, address: u64, value: u32)
        requires
            word_in_range(address),
        ensures
            final(self)@ == with_word(old(self)@, address - MEMORY_BASE_ADDRESS, value),
    {
        proof {
            use_type_invariant(&*self);
        }
        let offset: usize = (address - MEMORY_BASE_ADDRESS) as usize;
        let b0: u8 = #[verifier::truncate] (value as u8);
        let b1: u8 = #[verifier::truncate] ((value >> 8) as u8);
        let b2: u8 = #[verifier::truncate] ((value >> 16) as u8);
        let b3: u8 = #[verifier::truncate] ((value >> 24) as u8);
        assert(b0 == byte_of_word(value, 0) && b1 == byte_of_word(value, 1) && b2 == byte_of_word(
            value,
            2,
        ) && b3 == byte_of_word(value, 3)) by (bit_vector)
            requires
                b0 == value as u8,
                b1 == (value >> 8) as u8,
                b2 == (value >> 16) as u8,
                b3 == (value >> 24) as u8,
        ;
        self.memory[offset] = b0;
        self.memory[offset + 1] = b1;
        self.memory[offset + 2] = b2;
        self.memory[offset + 3] = b3;
        assert(self@ =~= with_word(old(self)@, address - MEMORY_BASE_ADDRESS, value));
    }
}

impl Memory {
    /// Copies a binary image into memory, byte for byte, from the base
    /// address on.
    pub fn load_image(&mut self, image: &[u8])
        requires
            image@.len() <= MEMORY_SIZE,
        ensures
            final(self)@ == with_image(old(self)@, image@),
    {
        proof {
            use_type_invariant(&*self);
        }
        let mut i: usize = 0;
        while i < image.len()
            invariant
                i <= image@.len() <= MEMORY_SIZE,
                self.memory@.len() == MEMORY_SIZE,
                old(self)@.len() == MEMORY_SIZE,
                self.memory@ =~= with_image(old(self)@, image@.subrange(0, i as int)),
            decreases image@.len() - i,
        {
            self.memory[i] = image[i];
            i += 1;
        }
        assert(image@.subrange(0, i as int) =~= image@);
    }
}

impl Default for Memory {
    /// Memory after reset: every byte is zero.
    fn default() -> (memory: Self)
        ensures
            memory@ == Seq::new(MEMORY_SIZE as nat, |i: int| 0u8),
    {
        let bytes: Vec<u8> = vec![0u8; 0x10_0000];
        assert(bytes@ =~= Seq::new(MEMORY_SIZE as nat, |i: int| 0u8));
        Memory { memory: bytes }
    }
}

/// A word that was stored is the word that is loaded from the same place.
pub proof fn lemma_load_after_store(bytes: Seq<u8>, offset: int, value: u32)
    requires
        0 <= offset,
        offset + 4 <= bytes.len(),
    ensures
        word_at(with_word(bytes, offset, value), offset) == value,
{
    assert(word_of_bytes(
        byte_of_word(value, 0),
        byte_of_word(value, 1),
        byte_of_word(value, 2),
        byte_of_word(value, 3),
    ) == value) by (bit_vector);
}

} // verus!
