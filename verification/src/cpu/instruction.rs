use vstd::prelude::*;
use crate::cpu::registers::{Reg16, Reg8};

verus! {

/// Direction in which `HL` moves after an auto-stepping memory access.
#[derive(Clone, Copy, Debug, PartialEq, Eq, Structural)]
pub enum Step {
    Decrement,
    Increment,
}

/// The semantic effect of an instruction. The set is closed: the table maps
/// opcodes to one of these, and the engine interprets it.
#[derive(Clone, Copy, Debug, PartialEq, Eq, Structural)]
pub enum Handler {
    /// `LD r, n`: the operand byte goes to `r`.
    LoadImmediate(Reg8),
    /// `LD (HL), n`: the operand byte goes to the address in `HL`.
    StoreImmediate,
    /// `LD r1, r2`: `r1` takes the value of `r2`.
    Move(Reg8, Reg8),
    /// `LD r, (rr)`: `r` takes the byte at the address in `rr`.
    LoadIndirect(Reg8, Reg16),
    /// `LD (rr), r`: the byte at the address in `rr` takes the value of `r`.
    StoreIndirect(Reg16, Reg8),
    /// `LD A, (nn)`: `A` takes the byte at the operand address.
    LoadAbsolute,
    /// `LD (nn), A`: the byte at the operand address takes the value of `A`.
    StoreAbsolute,
    /// `LD A, (C)`: `A` takes the byte at `0xFF00 + C`.
    LoadHighC,
    /// `LD (C), A`: the byte at `0xFF00 + C` takes the value of `A`.
    StoreHighC,
    /// `LDD A, (HL)` and `LDI A, (HL)`: `A` takes the byte at the address in
    /// `HL`, then `HL` steps.
    LoadStepping(Step),
    /// `LDD (HL), A` and `LDI (HL), A`: the byte at the address in `HL` takes
    /// the value of `A`, then `HL` steps.
    StoreStepping(Step),
    /// `LDH A, (n)`: `A` takes the byte at `0xFF00 +` the operand byte.
    LoadHighImmediate,
    /// `LDH (n), A`: the byte at `0xFF00 +` the operand byte takes the value
    /// of `A`.
    StoreHighImmediate,
    /// `LD rr, nn`: the operand word, low byte first, goes to `rr`.
    LoadImmediateWord(Reg16),
    /// `LD SP, HL`.
    MoveHlToSp,
    /// `LDHL SP, n`: `HL` takes `SP` plus the operand read as a signed byte.
    LoadHlFromSpOffset,
    /// `LD (nn), SP`: the stack pointer is stored at the operand address,
    /// low byte first.
    StoreSp,
    /// `PUSH rr`.
    Push(Reg16),
    /// `POP rr`.
    Pop(Reg16),
    /// `HALT`: the engine stops fetching.
    Halt,
}

impl Handler {
    /// How many operand bytes follow the opcode.
    pub open spec fn operand_count_spec(self) -> u8 {
        match self {
            Handler::LoadImmediate(_) => 1,
            Handler::StoreImmediate => 1,
            Handler::LoadHighImmediate => 1,
            Handler::StoreHighImmediate => 1,
            Handler::LoadHlFromSpOffset => 1,
            Handler::LoadAbsolute => 2,
            Handler::StoreAbsolute => 2,
            Handler::LoadImmediateWord(_) => 2,
            Handler::StoreSp => 2,
            _ => 0,
        }
    }

    /// How many operand bytes follow the opcode.
    #[verifier::when_used_as_spec(operand_count_spec)]
    pub fn operand_count(self) -> (count: u8)
        ensures
            count == self.operand_count_spec(),
    {
        match self {
            Handler::LoadImmediate(_)
            | Handler::StoreImmediate
            | Handler::LoadHighImmediate
            | Handler::StoreHighImmediate
            | Handler::LoadHlFromSpOffset => 1,
            Handler::LoadAbsolute
            | Handler::StoreAbsolute
            | Handler::LoadImmediateWord(_)
            | Handler::StoreSp => 2,
            _ => 0,
        }
    }
}

/// One entry of the opcode table.
pub struct Instruction {
    /// The byte that selects this instruction.
    pub op_code: u8,
    /// Base cycle cost.
    pub cycles: u8,
    /// Number of operand bytes the handler consumes.
    pub operands: u8,
    /// Human-readable name, for diagnostics only.
    pub mnemonic: String,
    /// What the instruction does.
    pub execute: Handler,
}

impl Instruction {
    /// The operand count agrees with the handler.
    pub open spec fn wf(&self) -> bool {
        self.operands == self.execute.operand_count()
    }

    /// The record for `op_code`; the operand count is the handler's.
    pub fn new(op_code: u8, cycles: u8, mnemonic: &str, execute: Handler) -> (ins: Instruction)
        ensures
            ins.wf(),
            ins.op_code == op_code,
            ins.cycles == cycles,
            ins.mnemonic@ == mnemonic@,
            ins.execute == execute,
    {
        Instruction {
            op_code,
            cycles,
            operands: execute.operand_count(),
            mnemonic: mnemonic.to_owned(),
            execute,
        }
    }
}

} // verus!
