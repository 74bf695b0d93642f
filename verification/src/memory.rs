use vstd::prelude::*;
use crate::error::EmuError;
use crate::text::{hexadecimal_list, push_hexadecimal_list};

verus! {

/// Number of addressable bytes.
pub const MEMORY_SIZE: usize = 0xFFFF;
/// Base of the cartridge ROM region.
pub const ROM: usize = 0x0000;
/// Base of video RAM; also the exclusive upper bound of an image load.
pub const VRAM: usize = 0x8000;
/// Base of external (cartridge) RAM.
pub const EXTERNAL_RAM: usize = 0xA000;
/// Base of work RAM.
pub const RAM: usize = 0xC000;
/// Base of object attribute memory.
pub const OAM_RAM: usize = 0xFE00;
/// Base of the I/O register page.
pub const IO: usize = 0xFF00;
/// Base of high RAM.
pub const HRAM: usize = 0xFF80;

/// What a full-length byte sequence `mem` holds after `image` was loaded at
/// address 0: the first `min(image.len(), VRAM)` bytes come from the image,
/// every other byte is kept.
pub open spec fn loaded(mem: Seq<u8>, image: Seq<u8>) -> Seq<u8> {
    Seq::new(
        mem.len(),
        |i: int| if i < image.len() && i < VRAM { image[i] } else { mem[i] },
    )
}

/// Loading keeps the length, copies the image up to the video RAM boundary
/// and leaves every byte from there on, or beyond the image, as it was.
pub proof fn law_loaded(mem: Seq<u8>, image: Seq<u8>)
    ensures
        loaded(mem, image).len() == mem.len(),
        forall|i: int|
            0 <= i < mem.len() && i < image.len() && i < VRAM ==> loaded(mem, image)[i] == image[i],
        forall|i: int|
            0 <= i < mem.len() && (i >= image.len() || i >= VRAM) ==> loaded(mem, image)[i]
                == mem[i],
{
}

/// The diagnostic dump of a byte sequence: a tag, then every byte in
/// hexadecimal between square brackets.
pub open spec fn dump_text(bytes: Seq<u8>) -> Seq<char> {
    "Memory | ["@ + hexadecimal_list(bytes) + "]"@
}

/// The address space: `MEMORY_SIZE` bytes, all individually addressable.
pub struct Memory {
    mem_space: Vec<u8>,
}

impl View for Memory {
    type V = Seq<u8>;

    closed spec fn view(&self) -> Seq<u8> {
        self.mem_space@
    }
}

impl Memory {
    /// Well-formedness: the address space has exactly `MEMORY_SIZE` bytes.
    pub open spec fn wf(&self) -> bool {
        self@.len() == MEMORY_SIZE
    }

    /// A zero-filled address space.
    pub fn new() -> (mem: Memory)
        ensures
            mem.wf(),
            forall|i: int| 0 <= i < MEMORY_SIZE ==> mem@[i] == 0u8,
    {
        let mem_space: Vec<u8> = vec![0u8; MEMORY_SIZE];
        Memory { mem_space }
    }

    /// The byte at `pointer`, or `OutOfRange(pointer)` when `pointer` lies
    /// outside the address space.
    pub fn read_bytes(&self, pointer: usize) -> (byte: Result<u8, EmuError>)
        requires
            self.wf(),
        ensures
            pointer < MEMORY_SIZE ==> byte == Ok::<u8, EmuError>(self@[pointer as int]),
            pointer >= MEMORY_SIZE ==> byte == Err::<u8, EmuError>(EmuError::OutOfRange(pointer)),
    {
        if pointer < MEMORY_SIZE {
            Ok(self.mem_space[pointer])
        } else {
            Err(EmuError::OutOfRange(pointer))
        }
    }

    /// Stores `value` at `pointer` and touches no other byte, or fails with
    /// `OutOfRange(pointer)` and changes nothing.
    pub fn write_bytes(&mut self, pointer: usize, value: u8) -> (done: Result<(), EmuError>)
        requires
            old(self).wf(),
        ensures
            final(self).wf(),
            pointer < MEMORY_SIZE ==> done is Ok && final(self)@ == old(self)@.update(
                pointer as int,
                value,
            ),
            pointer >= MEMORY_SIZE ==> done == Err::<(), EmuError>(EmuError::OutOfRange(pointer))
                && final(self)@ == old(self)@,
    {
        if pointer < MEMORY_SIZE {
            self.mem_space.set(pointer, value);
            Ok(())
        } else {
            Err(EmuError::OutOfRange(pointer))
        }
    }

    /// Copies `bytes` to address 0 onwards, stopping at the video RAM
    /// boundary. Returns whether the image was longer than that and so was
    /// cut short.
    pub fn load_rom(&mut self, bytes: &Vec<u8>) -> (truncated: bool)
        requires
            old(self).wf(),
        ensures
            final(self).wf(),
            final(self)@ == loaded(old(self)@, bytes@),
            truncated == (bytes@.len() > VRAM),
    {
        let limit: usize = if bytes.len() < VRAM { bytes.len() } else { VRAM };
        let mut i: usize = 0;
        while i < limit
            invariant
                i <= limit,
                limit <= VRAM,
                limit <= bytes@.len(),
                self.wf(),
                forall|j: int| 0 <= j < i ==> self@[j] == bytes@[j],
                forall|j: int| i <= j < MEMORY_SIZE ==> self@[j] == old(self)@[j],
            decreases limit - i,
        {
            self.mem_space.set(i, bytes[i]);
            i = i + 1;
        }
        assert(self@ =~= loaded(old(self)@, bytes@));
        bytes.len() > VRAM
    }

    /// Diagnostic rendering of the whole address space.
    pub fn to_string(&self) -> (text: String)
        ensures
            text@ == dump_text(self@),
    {
        let mut text: String = String::new();
        text.push_str("Memory | [");
        push_hexadecimal_list(&mut text, &self.mem_space);
        text.push_str("]");
        assert(text@ =~= dump_text(self@));
        text
    }
}

} // verus!
