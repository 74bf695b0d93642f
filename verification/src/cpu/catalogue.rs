use vstd::prelude::*;
use crate::cpu::registers::{Reg16, Reg8};
use crate::cpu::instruction::{Handler, Step};

verus! {

/// The instruction set the engine is built with: for each opcode its
/// handler, cycle cost and mnemonic, or `None` where the opcode is not
/// supported.
pub open spec fn catalogue(op_code: u8) -> Option<(Handler, u8, Seq<char>)> {
    match op_code {
        0x01 => Some((Handler::LoadImmediateWord(Reg16::BC), 12, "LD BC, nn"@)),
        0x02 => Some((Handler::StoreIndirect(Reg16::BC, Reg8::A), 8, "LD (BC), A"@)),
        0x06 => Some((Handler::LoadImmediate(Reg8::B), 8, "LD B, n"@)),
        0x08 => Some((Handler::StoreSp, 20, "LD (nn), SP"@)),
        0x0A => Some((Handler::LoadIndirect(Reg8::A, Reg16::BC), 8, "LD A, (BC)"@)),
        0x0E => Some((Handler::LoadImmediate(Reg8::C), 8, "LD C, n"@)),
        0x11 => Some((Handler::LoadImmediateWord(Reg16::DE), 12, "LD DE, nn"@)),
        0x12 => Some((Handler::StoreIndirect(Reg16::DE, Reg8::A), 8, "LD (DE), A"@)),
        0x16 => Some((Handler::LoadImmediate(Reg8::D), 8, "LD D, n"@)),
        0x1A => Some((Handler::LoadIndirect(Reg8::A, Reg16::DE), 8, "LD A, (DE)"@)),
        0x1E => Some((Handler::LoadImmediate(Reg8::E), 8, "LD E, n"@)),
        0x21 => Some((Handler::LoadImmediateWord(Reg16::HL), 12, "LD HL, nn"@)),
        0x22 => Some((Handler::StoreStepping(Step::Increment), 8, "LDI (HL), A"@)),
        0x26 => Some((Handler::LoadImmediate(Reg8::H), 8, "LD H, n"@)),
        0x2A => Some((Handler::LoadStepping(Step::Increment), 8, "LDI A, (HL)"@)),
        0x2E => Some((Handler::LoadImmediate(Reg8::L), 8, "LD L, n"@)),
        0x31 => Some((Handler::LoadImmediateWord(Reg16::SP), 12, "LD SP, nn"@)),
        0x32 => Some((Handler::StoreStepping(Step::Decrement), 8, "LDD (HL), A"@)),
        0x36 => Some((Handler::StoreImmediate, 12, "LD (HL), n"@)),
        0x3A => Some((Handler::LoadStepping(Step::Decrement), 8, "LDD A, (HL)"@)),
        0x3E => Some((Handler::LoadImmediate(Reg8::A), 8, "LD A, #"@)),
        0x40 => Some((Handler::Move(Reg8::B, Reg8::B), 4, "LD B, B"@)),
        0x41 => Some((Handler::Move(Reg8::B, Reg8::C), 4, "LD B, C"@)),
        0x42 => Some((Handler::Move(Reg8::B, Reg8::D), 4, "LD B, D"@)),
        0x43 => Some((Handler::Move(Reg8::B, Reg8::E), 4, "LD B, E"@)),
        0x44 => Some((Handler::Move(Reg8::B, Reg8::H), 4, "LD B, H"@)),
        0x45 => Some((Handler::Move(Reg8::B, Reg8::L), 4, "LD B, L"@)),
        0x46 => Some((Handler::LoadIndirect(Reg8::B, Reg16::HL), 8, "LD B, (HL)"@)),
        0x47 => Some((Handler::Move(Reg8::B, Reg8::A), 4, "LD B, A"@)),
        0x48 => Some((Handler::Move(Reg8::C, Reg8::B), 4, "LD C, B"@)),
        0x49 => Some((Handler::Move(Reg8::C, Reg8::C), 4, "LD C, C"@)),
        0x4A => Some((Handler::Move(Reg8::C, Reg8::D), 4, "LD C, D"@)),
        0x4B => Some((Handler::Move(Reg8::C, Reg8::E), 4, "LD C, E"@)),
        0x4C => Some((Handler::Move(Reg8::C, Reg8::H), 4, "LD C, H"@)),
        0x4D => Some((Handler::Move(Reg8::C, Reg8::L), 4, "LD C, L"@)),
        0x4E => Some((Handler::LoadIndirect(Reg8::C, Reg16::HL), 8, "LD C, (HL)"@)),
        0x4F => Some((Handler::Move(Reg8::C, Reg8::A), 4, "LD C, A"@)),
        0x50 => Some((Handler::Move(Reg8::D, Reg8::B), 4, "LD D, B"@)),
        0x51 => Some((Handler::Move(Reg8::D, Reg8::C), 4, "LD D, C"@)),
        0x52 => Some((Handler::Move(Reg8::D, Reg8::D), 4, "LD D, D"@)),
        0x53 => Some((Handler::Move(Reg8::D, Reg8::E), 4, "LD D, E"@)),
        0x54 => Some((Handler::Move(Reg8::D, Reg8::H), 4, "LD D, H"@)),
        0x55 => Some((Handler::Move(Reg8::D, Reg8::L), 4, "LD D, L"@)),
        0x56 => Some((Handler::LoadIndirect(Reg8::D, Reg16::HL), 8, "LD D, (HL)"@)),
        0x57 => Some((Handler::Move(Reg8::D, Reg8::A), 4, "LD D, A"@)),
        0x58 => Some((Handler::Move(Reg8::E, Reg8::B), 4, "LD E, B"@)),
        0x59 => Some((Handler::Move(Reg8::E, Reg8::C), 4, "LD E, C"@)),
        0x5A => Some((Handler::Move(Reg8::E, Reg8::D), 4, "LD E, D"@)),
        0x5B => Some((Handler::Move(Reg8::E, Reg8::E), 4, "LD E, E"@)),
        0x5C => Some((Handler::Move(Reg8::E, Reg8::H), 4, "LD E, H"@)),
        0x5D => Some((Handler::Move(Reg8::E, Reg8::L), 4, "LD E, L"@)),
        0x5E => Some((Handler::LoadIndirect(Reg8::E, Reg16::HL), 8, "LD E, (HL)"@)),
        0x5F => Some((Handler::Move(Reg8::E, Reg8::A), 4, "LD E, A"@)),
        0x60 => Some((Handler::Move(Reg8::H, Reg8::B), 4, "LD H, B"@)),
        0x61 => Some((Handler::Move(Reg8::H, Reg8::C), 4, "LD H, C"@)),
        0x62 => Some((Handler::Move(Reg8::H, Reg8::D), 4, "LD H, D"@)),
        0x63 => Some((Handler::Move(Reg8::H, Reg8::E), 4, "LD H, E"@)),
        0x64 => Some((Handler::Move(Reg8::H, Reg8::H), 4, "LD H, H"@)),
        0x65 => Some((Handler::Move(Reg8::H, Reg8::L), 4, "LD H, L"@)),
        0x66 => Some((Handler::LoadIndirect(Reg8::H, Reg16::HL), 8, "LD H, (HL)"@)),
        0x67 => Some((Handler::Move(Reg8::H, Reg8::A), 4, "LD H, A"@)),
        0x68 => Some((Handler::Move(Reg8::L, Reg8::B), 4, "LD L, B"@)),
        0x69 => Some((Handler::Move(Reg8::L, Reg8::C), 4, "LD L, C"@)),
        0x6A => Some((Handler::Move(Reg8::L, Reg8::D), 4, "LD L, D"@)),
        0x6B => Some((Handler::Move(Reg8::L, Reg8::E), 4, "LD L, E"@)),
        0x6C => Some((Handler::Move(Reg8::L, Reg8::H), 4, "LD L, H"@)),
        0x6D => Some((Handler::Move(Reg8::L, Reg8::L), 4, "LD L, L"@)),
        0x6E => Some((Handler::LoadIndirect(Reg8::L, Reg16::HL), 8, "LD L, (HL)"@)),
        0x6F => Some((Handler::Move(Reg8::L, Reg8::A), 4, "LD L, A"@)),
        0x70 => Some((Handler::StoreIndirect(Reg16::HL, Reg8::B), 8, "LD (HL), B"@)),
        0x71 => Some((Handler::StoreIndirect(Reg16::HL, Reg8::C), 8, "LD (HL), C"@)),
        0x72 => Some((Handler::StoreIndirect(Reg16::HL, Reg8::D), 8, "LD (HL), D"@)),
        0x73 => Some((Handler::StoreIndirect(Reg16::HL, Reg8::E), 8, "LD (HL), E"@)),
        0x74 => Some((Handler::StoreIndirect(Reg16::HL, Reg8::H), 8, "LD (HL), H"@)),
        0x75 => Some((Handler::StoreIndirect(Reg16::HL, Reg8::L), 8, "LD (HL), L"@)),
        0x76 => Some((Handler::Halt, 4, "HALT"@)),
        0x77 => Some((Handler::StoreIndirect(Reg16::HL, Reg8::A), 8, "LD (HL), A"@)),
        0x78 => Some((Handler::Move(Reg8::A, Reg8::B), 4, "LD A, B"@)),
        0x79 => Some((Handler::Move(Reg8::A, Reg8::C), 4, "LD A, C"@)),
        0x7A => Some((Handler::Move(Reg8::A, Reg8::D), 4, "LD A, D"@)),
        0x7B => Some((Handler::Move(Reg8::A, Reg8::E), 4, "LD A, E"@)),
        0x7C => Some((Handler::Move(Reg8::A, Reg8::H), 4, "LD A, H"@)),
        0x7D => Some((Handler::Move(Reg8::A, Reg8::L), 4, "LD A, L"@)),
        0x7E => Some((Handler::LoadIndirect(Reg8::A, Reg16::HL), 8, "LD A, (HL)"@)),
        0x7F => Some((Handler::Move(Reg8::A, Reg8::A), 4, "LD A, A"@)),
        0xC1 => Some((Handler::Pop(Reg16::BC), 12, "POP BC"@)),
        0xC5 => Some((Handler::Push(Reg16::BC), 16, "PUSH BC"@)),
        0xD1 => Some((Handler::Pop(Reg16::DE), 12, "POP DE"@)),
        0xD5 => Some((Handler::Push(Reg16::DE), 16, "PUSH DE"@)),
        0xE0 => Some((Handler::StoreHighImmediate, 12, "LDH (n), A"@)),
        0xE1 => Some((Handler::Pop(Reg16::HL), 12, "POP HL"@)),
        0xE2 => Some((Handler::StoreHighC, 8, "LD (C), A"@)),
        0xE5 => Some((Handler::Push(Reg16::HL), 16, "PUSH HL"@)),
        0xEA => Some((Handler::StoreAbsolute, 16, "LD (nn), A"@)),
        0xF0 => Some((Handler::LoadHighImmediate, 12, "LDH A, (n)"@)),
        0xF1 => Some((Handler::Pop(Reg16::AF), 12, "POP AF"@)),
        0xF2 => Some((Handler::LoadHighC, 8, "LD A, (C)"@)),
        0xF5 => Some((Handler::Push(Reg16::AF), 16, "PUSH AF"@)),
        0xF8 => Some((Handler::LoadHlFromSpOffset, 12, "LDHL SP, n"@)),
        0xF9 => Some((Handler::MoveHlToSp, 8, "LD SP, HL"@)),
        0xFA => Some((Handler::LoadAbsolute, 16, "LD A, (nn)"@)),
        _ => None,
    }
}

/// Handler and cost of an opcode of the catalogue.
pub open spec fn handler_and_cost(op_code: u8) -> Option<(Handler, u8)> {
    match catalogue(op_code) {
        Some((handler, cost, _)) => Some((handler, cost)),
        None => None,
    }
}

/// An operand position in the opcode encoding: a register, or the byte
/// that `HL` addresses.
pub enum Slot {
    Register(Reg8),
    AtHl,
}

/// The operand that a three-bit field of an opcode selects.
pub open spec fn slot(field: int) -> Slot {
    if field == 0 {
        Slot::Register(Reg8::B)
    } else if field == 1 {
        Slot::Register(Reg8::C)
    } else if field == 2 {
        Slot::Register(Reg8::D)
    } else if field == 3 {
        Slot::Register(Reg8::E)
    } else if field == 4 {
        Slot::Register(Reg8::H)
    } else if field == 5 {
        Slot::Register(Reg8::L)
    } else if field == 6 {
        Slot::AtHl
    } else {
        Slot::Register(Reg8::A)
    }
}

/// Handler and cost of a load between two operand positions.
pub open spec fn load_between(target: Slot, source: Slot) -> (Handler, u8) {
    match (target, source) {
        (Slot::Register(r1), Slot::Register(r2)) => (Handler::Move(r1, r2), 4),
        (Slot::Register(r), Slot::AtHl) => (Handler::LoadIndirect(r, Reg16::HL), 8),
        (Slot::AtHl, Slot::Register(r)) => (Handler::StoreIndirect(Reg16::HL, r), 8),
        (Slot::AtHl, Slot::AtHl) => (Handler::Halt, 4),
    }
}

/// Handler and cost of an immediate load into an operand position.
pub open spec fn load_immediate_into(target: Slot) -> (Handler, u8) {
    match target {
        Slot::Register(r) => (Handler::LoadImmediate(r), 8),
        Slot::AtHl => (Handler::StoreImmediate, 12),
    }
}

/// The quarter of the opcode map from `0x40` to `0x7F` is regular: bits 3
/// to 5 of the opcode select the target, bits 0 to 2 the source, and the
/// one opcode that would load `(HL)` from itself halts instead.
pub proof fn law_register_block(op_code: u8)
    requires
        0x40 <= op_code <= 0x7F,
    ensures
        handler_and_cost(op_code) == Some(
            load_between(slot((op_code - 0x40) / 8), slot(op_code as int % 8)),
        ),
{
}

/// The immediate loads are regular too: they are the opcodes below `0x40`
/// whose low three bits are 6, and bits 3 to 5 select the target.
pub proof fn law_immediate_loads(op_code: u8)
    requires
        op_code < 0x40,
        op_code % 8 == 6,
    ensures
        handler_and_cost(op_code) == Some(load_immediate_into(slot(op_code as int / 8))),
{
}

/// Every instruction of the catalogue declares a cost that is a positive
/// multiple of four.
pub proof fn law_costs(op_code: u8)
    ensures
        handler_and_cost(op_code) matches Some((_, cost)) ==> cost > 0 && cost % 4 == 0,
{
}

} // verus!
