//! The memory: one byte for each address of the 16-bit address space.

use vstd::prelude::*;
use crate::bits::{high_byte, low_byte, u16_to_u8, u8_to_u16, word};

verus! {

/// Number of bytes in the address space.
pub const RAM_SIZE: usize = 0x10000;

/// The last address at which a whole word fits: a word at 0xFFFF would reach
/// past the address space.
pub const LAST_WORD_ADDRESS: u16 = 0xFFFE;

/// The word stored at `address`: low byte there, high byte at the next address.
pub open spec fn word_at(mem: Seq<u8>, address: u16) -> u16 {
    word(mem[address as int], mem[address + 1])
}

/// `mem` with the word `value` stored at `address`, low byte first.
pub open spec fn store_word(mem: Seq<u8>, address: u16, value: u16) -> Seq<u8> {
    mem.update(address as int, low_byte(value)).update(address + 1, high_byte(value))
}

/// `mem` with `image` copied in from address `offset` on.
pub open spec fn loaded(mem: Seq<u8>, image: Seq<u8>, offset: int) -> Seq<u8> {
    Seq::new(
        mem.len(),
        |i: int|
            if offset <= i < offset + image.len() {
                image[i - offset]
            } else {
                mem[i]
            },
    )
}

/// An access that would reach past the last address: `len` bytes from
/// `offset` on.
#[derive(Debug, Clone, Copy, PartialEq, Eq, Structural)]
pub enum MemoryError {
    OutOfRange { offset: u16, len: usize },
}

/// The full address space as a byte array.
pub struct Sram {
    pub bytes: Vec<u8>,
}

impl Sram {
    /// The array spans exactly the address space.
    pub open spec fn wf(&self) -> bool {
        self.bytes@.len() == RAM_SIZE
    }

    /// A memory that holds zero at every address.
    pub fn new() -> (r: Sram)
        ensures
            r.wf(),
            forall|i: int| 0 <= i < RAM_SIZE ==> r.bytes@[i] == 0,
    {
        let bytes: Vec<u8> = vec![0; RAM_SIZE];
        Sram { bytes: bytes }
    }

    /// Copies `image` into memory from address `offset` on. An image that
    /// would reach past the last address is refused and memory is left as it was.
    pub fn load_offset(&mut self, image: &[u8], offset: u16) -> (r: Result<(), MemoryError>)
        requires
            old(self).wf(),
        ensures
            final(self).wf(),
            r.is_ok() <==> offset + image@.len() <= RAM_SIZE,
            r.is_ok() ==> final(self).bytes@ == loaded(old(self).bytes@, image@, offset as int),
            r.is_err() ==> final(self).bytes@ == old(self).bytes@,
            r.is_err() ==> r == Err::<(), MemoryError>(
                MemoryError::OutOfRange { offset: offset, len: image@.len() as usize },
            ),
    {
        let start = offset as usize;
        if image.len() > RAM_SIZE - start {
            return Err(MemoryError::OutOfRange { offset: offset, len: image.len() });
        }
        let mut i: usize = 0;
        while i < image.len()
            invariant
                self.wf(),
                start == offset,
                start + image@.len() <= RAM_SIZE,
                i <= image@.len(),
                forall|j: int|
                    0 <= j < RAM_SIZE ==> self.bytes@[j] == (if start <= j < start + i {
                        image@[j - start]
                    } else {
                        old(self).bytes@[j]
                    }),
            decreases image@.len() - i,
        {
            self.bytes.set(start + i, image[i]);
            i = i + 1;
        }
        assert(self.bytes@ =~= loaded(old(self).bytes@, image@, offset as int));
        Ok(())
    }

    /// Copies `image` into memory from address zero on.
    pub fn load(&mut self, image: &[u8]) -> (r: Result<(), MemoryError>)
        requires
            old(self).wf(),
        ensures
            final(self).wf(),
            r.is_ok() <==> image@.len() <= RAM_SIZE,
            r.is_ok() ==> final(self).bytes@ == loaded(old(self).bytes@, image@, 0),
            r.is_err() ==> final(self).bytes@ == old(self).bytes@,
    {
        self.load_offset(image, 0x00)
    }

    /// The byte at `address`.
    pub fn read_byte(&self, address: u16) -> (r: u8)
        requires
            self.wf(),
        ensures
            r == self.bytes@[address as int],
    {
        self.bytes[address as usize]
    }

    /// The word at `address`: low byte there, high byte at the next
    /// address. A word at 0xFFFF would reach past the address space and is
    /// refused.
    pub fn read_dword(&self, address: u16) -> (r: Result<u16, MemoryError>)
        requires
            self.wf(),
        ensures
            r is Ok <==> address <= LAST_WORD_ADDRESS,
            r is Ok ==> r == Ok::<u16, MemoryError>(word_at(self.bytes@, address)),
            r is Err ==> r == Err::<u16, MemoryError>(
                MemoryError::OutOfRange { offset: address, len: 2 },
            ),
    {
        if address > LAST_WORD_ADDRESS {
            return Err(MemoryError::OutOfRange { offset: address, len: 2 });
        }
        let i = address as usize;
        Ok(u8_to_u16(self.bytes[i], self.bytes[i + 1]))
    }

    /// Stores `value` at `address`.
    pub fn write_byte(&mut self, address: u16, value: u8)
        requires
            old(self).wf(),
        ensures
            final(self).wf(),
            final(self).bytes@ == old(self).bytes@.update(address as int, value),
    {
        self.bytes.set(address as usize, value);
    }

    /// Stores the word `value` at `address`, low byte first. A word at
    /// 0xFFFF is refused and memory is left as it was.
    pub fn write_dword(&mut self, address: u16, value: u16) -> (r: Result<(), MemoryError>)
        requires
            old(self).wf(),
        ensures
            final(self).wf(),
            r is Ok <==> address <= LAST_WORD_ADDRESS,
            r is Ok ==> final(self).bytes@ == store_word(old(self).bytes@, address, value),
            r is Err ==> final(self).bytes@ == old(self).bytes@ && r == Err::<(), MemoryError>(
                MemoryError::OutOfRange { offset: address, len: 2 },
            ),
    {
        if address > LAST_WORD_ADDRESS {
            return Err(MemoryError::OutOfRange { offset: address, len: 2 });
        }
        let (upper, lower) = u16_to_u8(value);
        let i = address as usize;
        self.bytes.set(i, lower);
        self.bytes.set(i + 1, upper);
        Ok(())
    }

    /// Stores a word pushed on the stack at `address`, the stack pointer
    /// after the push: the high byte first, above `address`, then the low
    /// byte at `address`, so that a pop reads the low byte first from the
    /// lower address. A word at 0xFFFF is refused and memory is left as it was.
    pub fn write_dword_stack(&mut self, address: u16, value: u16) -> (r: Result<(), MemoryError>)
        requires
            old(self).wf(),
        ensures
            final(self).wf(),
            r is Ok <==> address <= LAST_WORD_ADDRESS,
            r is Ok ==> final(self).bytes@ == store_word(old(self).bytes@, address, value),
            r is Err ==> final(self).bytes@ == old(self).bytes@ && r == Err::<(), MemoryError>(
                MemoryError::OutOfRange { offset: address, len: 2 },
            ),
    {
        if address > LAST_WORD_ADDRESS {
            return Err(MemoryError::OutOfRange { offset: address, len: 2 });
        }
        let (upper, lower) = u16_to_u8(value);
        let i = address as usize;
        self.bytes.set(i + 1, upper);
        self.bytes.set(i, lower);
        Ok(())
    }
}

} // verus!
