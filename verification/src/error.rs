use vstd::prelude::*;

verus! {

/// The fatal conditions that stop the fetch-decode-execute loop.
#[derive(Clone, Copy, Debug, PartialEq, Eq, Structural)]
pub enum EmuError {
    /// Decoding found no instruction registered for `opcode`, fetched at `pc`.
    UnknownOpcode { opcode: u8, pc: u16 },
    /// A read or write addressed a byte outside the address space.
    OutOfRange(usize),
}

} // verus!
