pub mod registers;
pub mod instruction;
pub mod model;
pub mod catalogue;
pub mod laws;

use vstd::prelude::*;
use crate::error::EmuError;
use crate::memory::{Memory, MEMORY_SIZE, loaded};
use crate::cpu::registers::{Reg16, Reg8, displace, make_word, split_word};
use crate::cpu::instruction::{Handler, Instruction, Step};
use crate::cpu::model::{State, stepped};
use crate::cpu::catalogue::catalogue;
use crate::text::push_decimal;

verus! {

/// What the table says of one opcode, as plain values: handler, cycle cost
/// and mnemonic.
pub open spec fn described(entry: Option<Instruction>) -> Option<(Handler, u8, Seq<char>)> {
    match entry {
        Some(ins) => Some((ins.execute, ins.cycles, ins.mnemonic@)),
        None => None,
    }
}

/// An opcode table is well formed when it has one slot per opcode and every
/// record sits in the slot of its own opcode.
pub open spec fn table_wf(table: Seq<Option<Instruction>>) -> bool {
    &&& table.len() == 256
    &&& forall|op: int|
        0 <= op < 256 && (#[trigger] table[op]) is Some ==> table[op]->0.op_code == op
            && table[op]->0.wf()
}

/// How a fallible operation relates the machine before and after it: when the
/// model says `Ok(s)`, the operation succeeds and the machine is `s`; when
/// the model says `Err(e)`, the operation fails with `e` and the machine is
/// as before. The opcode table never changes.
pub open spec fn transition(
    pre: CPU,
    post: CPU,
    outcome: Result<(), EmuError>,
    expected: Result<State, EmuError>,
) -> bool {
    &&& post.wf()
    &&& post.table() == pre.table()
    &&& match expected {
        Ok(s) => outcome is Ok && post@ == s,
        Err(e) => outcome == Err::<(), EmuError>(e) && post@ == pre@,
    }
}

/// The engine: register file, address space, opcode table and cycle counter.
pub struct CPU {
    instruction_set: Vec<Option<Instruction>>,
    memory: Memory,
    a: u8,
    b: u8,
    c: u8,
    d: u8,
    e: u8,
    f: u8,
    h: u8,
    l: u8,
    sp: u16,
    pc: u16,
    cycles: u64,
    halted: bool,
}

impl View for CPU {
    type V = State;

    closed spec fn view(&self) -> State {
        State {
            a: self.a,
            b: self.b,
            c: self.c,
            d: self.d,
            e: self.e,
            f: self.f,
            h: self.h,
            l: self.l,
            sp: self.sp,
            pc: self.pc,
            cycles: self.cycles,
            halted: self.halted,
            mem: self.memory@,
        }
    }
}

impl CPU {
    /// The opcode table, one slot per opcode.
    pub closed spec fn table(&self) -> Seq<Option<Instruction>> {
        self.instruction_set@
    }

    /// Well-formedness of the engine: full-length memory, well-formed table.
    pub open spec fn wf(&self) -> bool {
        self@.wf() && table_wf(self.table())
    }

    /// A machine with zeroed registers and memory and no instruction
    /// registered.
    fn blank() -> (cpu: CPU)
        ensures
            cpu.wf(),
            cpu@ == State::initial(),
            forall|op: int| 0 <= op < 256 ==> (#[trigger] cpu.table()[op]) is None,
    {
        let mut instruction_set: Vec<Option<Instruction>> = Vec::new();
        let mut op: usize = 0;
        while op < 256
            invariant
                op <= 256,
                instruction_set@.len() == op,
                forall|i: int| 0 <= i < op ==> (#[trigger] instruction_set@[i]) is None,
            decreases 256 - op,
        {
            instruction_set.push(None);
            op = op + 1;
        }
        let memory: Memory = Memory::new();
        assert(memory@ =~= State::initial().mem);
        CPU {
            instruction_set,
            memory,
            a: 0,
            b: 0,
            c: 0,
            d: 0,
            e: 0,
            f: 0,
            h: 0,
            l: 0,
            sp: 0,
            pc: 0,
            cycles: 0,
            halted: false,
        }
    }

    /// Opcodes `0x00` to `0x3F`: immediates, indirect accumulator loads and
    /// stores, 16-bit loads.
    fn register_first_quarter(&mut self)
        requires
            old(self).wf(),
            forall|op: int| 0x00 <= op <= 0x3F ==> (#[trigger] old(self).table()[op]) is None,
        ensures
            final(self).wf(),
            final(self)@ == old(self)@,
            forall|op: u8|
                0x00 <= op <= 0x3F ==> described(#[trigger] final(self).table()[op as int])
                    == catalogue(op),
            forall|op: int|
                0 <= op < 256 && !(0x00 <= op <= 0x3F) ==> #[trigger] final(self).table()[op]
                    == old(self).table()[op],
    {
        self.store_instructions(0x06, 8, "LD B, n", Handler::LoadImmediate(Reg8::B));
        self.store_instructions(0x0E, 8, "LD C, n", Handler::LoadImmediate(Reg8::C));
        self.store_instructions(0x16, 8, "LD D, n", Handler::LoadImmediate(Reg8::D));
        self.store_instructions(0x1E, 8, "LD E, n", Handler::LoadImmediate(Reg8::E));
        self.store_instructions(0x26, 8, "LD H, n", Handler::LoadImmediate(Reg8::H));
        self.store_instructions(0x2E, 8, "LD L, n", Handler::LoadImmediate(Reg8::L));
        self.store_instructions(0x36, 12, "LD (HL), n", Handler::StoreImmediate);
        self.store_instructions(0x3E, 8, "LD A, #", Handler::LoadImmediate(Reg8::A));
        self.store_instructions(0x0A, 8, "LD A, (BC)", Handler::LoadIndirect(Reg8::A, Reg16::BC));
        self.store_instructions(0x1A, 8, "LD A, (DE)", Handler::LoadIndirect(Reg8::A, Reg16::DE));
        self.store_instructions(0x02, 8, "LD (BC), A", Handler::StoreIndirect(Reg16::BC, Reg8::A));
        self.store_instructions(0x12, 8, "LD (DE), A", Handler::StoreIndirect(Reg16::DE, Reg8::A));
        self.store_instructions(0x3A, 8, "LDD A, (HL)", Handler::LoadStepping(Step::Decrement));
        self.store_instructions(0x32, 8, "LDD (HL), A", Handler::StoreStepping(Step::Decrement));
        self.store_instructions(0x2A, 8, "LDI A, (HL)", Handler::LoadStepping(Step::Increment));
        self.store_instructions(0x22, 8, "LDI (HL), A", Handler::StoreStepping(Step::Increment));
        self.store_instructions(0x01, 12, "LD BC, nn", Handler::LoadImmediateWord(Reg16::BC));
        self.store_instructions(0x11, 12, "LD DE, nn", Handler::LoadImmediateWord(Reg16::DE));
        self.store_instructions(0x21, 12, "LD HL, nn", Handler::LoadImmediateWord(Reg16::HL));
        self.store_instructions(0x31, 12, "LD SP, nn", Handler::LoadImmediateWord(Reg16::SP));
        self.store_instructions(0x08, 20, "LD (nn), SP", Handler::StoreSp);
    }

    /// Opcodes `0x40` to `0x7F`: the register-to-register block, with `HALT`
    /// in the slot where both operands would be `(HL)`.
    fn register_second_quarter(&mut self)
        requires
            old(self).wf(),
            forall|op: int| 0x40 <= op <= 0x7F ==> (#[trigger] old(self).table()[op]) is None,
        ensures
            final(self).wf(),
            final(self)@ == old(self)@,
            forall|op: u8|
                0x40 <= op <= 0x7F ==> described(#[trigger] final(self).table()[op as int])
                    == catalogue(op),
            forall|op: int|
                0 <= op < 256 && !(0x40 <= op <= 0x7F) ==> #[trigger] final(self).table()[op]
                    == old(self).table()[op],
    {
        self.store_instructions(0x40, 4, "LD B, B", Handler::Move(Reg8::B, Reg8::B));
        self.store_instructions(0x41, 4, "LD B, C", Handler::Move(Reg8::B, Reg8::C));
        self.store_instructions(0x42, 4, "LD B, D", Handler::Move(Reg8::B, Reg8::D));
        self.store_instructions(0x43, 4, "LD B, E", Handler::Move(Reg8::B, Reg8::E));
        self.store_instructions(0x44, 4, "LD B, H", Handler::Move(Reg8::B, Reg8::H));
        self.store_instructions(0x45, 4, "LD B, L", Handler::Move(Reg8::B, Reg8::L));
        self.store_instructions(0x46, 8, "LD B, (HL)", Handler::LoadIndirect(Reg8::B, Reg16::HL));
        self.store_instructions(0x47, 4, "LD B, A", Handler::Move(Reg8::B, Reg8::A));
        self.store_instructions(0x48, 4, "LD C, B", Handler::Move(Reg8::C, Reg8::B));
        self.store_instructions(0x49, 4, "LD C, C", Handler::Move(Reg8::C, Reg8::C));
        self.store_instructions(0x4A, 4, "LD C, D", Handler::Move(Reg8::C, Reg8::D));
        self.store_instructions(0x4B, 4, "LD C, E", Handler::Move(Reg8::C, Reg8::E));
        self.store_instructions(0x4C, 4, "LD C, H", Handler::Move(Reg8::C, Reg8::H));
        self.store_instructions(0x4D, 4, "LD C, L", Handler::Move(Reg8::C, Reg8::L));
        self.store_instructions(0x4E, 8, "LD C, (HL)", Handler::LoadIndirect(Reg8::C, Reg16::HL));
        self.store_instructions(0x4F, 4, "LD C, A", Handler::Move(Reg8::C, Reg8::A));
        self.store_instructions(0x50, 4, "LD D, B", Handler::Move(Reg8::D, Reg8::B));
        self.store_instructions(0x51, 4, "LD D, C", Handler::Move(Reg8::D, Reg8::C));
        self.store_instructions(0x52, 4, "LD D, D", Handler::Move(Reg8::D, Reg8::D));
        self.store_instructions(0x53, 4, "LD D, E", Handler::Move(Reg8::D, Reg8::E));
        self.store_instructions(0x54, 4, "LD D, H", Handler::Move(Reg8::D, Reg8::H));
        self.store_instructions(0x55, 4, "LD D, L", Handler::Move(Reg8::D, Reg8::L));
        self.store_instructions(0x56, 8, "LD D, (HL)", Handler::LoadIndirect(Reg8::D, Reg16::HL));
        self.store_instructions(0x57, 4, "LD D, A", Handler::Move(Reg8::D, Reg8::A));
        self.store_instructions(0x58, 4, "LD E, B", Handler::Move(Reg8::E, Reg8::B));
        self.store_instructions(0x59, 4, "LD E, C", Handler::Move(Reg8::E, Reg8::C));
        self.store_instructions(0x5A, 4, "LD E, D", Handler::Move(Reg8::E, Reg8::D));
        self.store_instructions(0x5B, 4, "LD E, E", Handler::Move(Reg8::E, Reg8::E));
        self.store_instructions(0x5C, 4, "LD E, H", Handler::Move(Reg8::E, Reg8::H));
        self.store_instructions(0x5D, 4, "LD E, L", Handler::Move(Reg8::E, Reg8::L));
        self.store_instructions(0x5E, 8, "LD E, (HL)", Handler::LoadIndirect(Reg8::E, Reg16::HL));
        self.store_instructions(0x5F, 4, "LD E, A", Handler::Move(Reg8::E, Reg8::A));
        self.store_instructions(0x60, 4, "LD H, B", Handler::Move(Reg8::H, Reg8::B));
        self.store_instructions(0x61, 4, "LD H, C", Handler::Move(Reg8::H, Reg8::C));
        self.store_instructions(0x62, 4, "LD H, D", Handler::Move(Reg8::H, Reg8::D));
        self.store_instructions(0x63, 4, "LD H, E", Handler::Move(Reg8::H, Reg8::E));
        self.store_instructions(0x64, 4, "LD H, H", Handler::Move(Reg8::H, Reg8::H));
        self.store_instructions(0x65, 4, "LD H, L", Handler::Move(Reg8::H, Reg8::L));
        self.store_instructions(0x66, 8, "LD H, (HL)", Handler::LoadIndirect(Reg8::H, Reg16::HL));
        self.store_instructions(0x67, 4, "LD H, A", Handler::Move(Reg8::H, Reg8::A));
        self.store_instructions(0x68, 4, "LD L, B", Handler::Move(Reg8::L, Reg8::B));
        self.store_instructions(0x69, 4, "LD L, C", Handler::Move(Reg8::L, Reg8::C));
        self.store_instructions(0x6A, 4, "LD L, D", Handler::Move(Reg8::L, Reg8::D));
        self.store_instructions(0x6B, 4, "LD L, E", Handler::Move(Reg8::L, Reg8::E));
        self.store_instructions(0x6C, 4, "LD L, H", Handler::Move(Reg8::L, Reg8::H));
        self.store_instructions(0x6D, 4, "LD L, L", Handler::Move(Reg8::L, Reg8::L));
        self.store_instructions(0x6E, 8, "LD L, (HL)", Handler::LoadIndirect(Reg8::L, Reg16::HL));
        self.store_instructions(0x6F, 4, "LD L, A", Handler::Move(Reg8::L, Reg8::A));
        self.store_instructions(0x70, 8, "LD (HL), B", Handler::StoreIndirect(Reg16::HL, Reg8::B));
        self.store_instructions(0x71, 8, "LD (HL), C", Handler::StoreIndirect(Reg16::HL, Reg8::C));
        self.store_instructions(0x72, 8, "LD (HL), D", Handler::StoreIndirect(Reg16::HL, Reg8::D));
        self.store_instructions(0x73, 8, "LD (HL), E", Handler::StoreIndirect(Reg16::HL, Reg8::E));
        self.store_instructions(0x74, 8, "LD (HL), H", Handler::StoreIndirect(Reg16::HL, Reg8::H));
        self.store_instructions(0x75, 8, "LD (HL), L", Handler::StoreIndirect(Reg16::HL, Reg8::L));
        self.store_instructions(0x76, 4, "HALT", Handler::Halt);
        self.store_instructions(0x77, 8, "LD (HL), A", Handler::StoreIndirect(Reg16::HL, Reg8::A));
        self.store_instructions(0x78, 4, "LD A, B", Handler::Move(Reg8::A, Reg8::B));
        self.store_instructions(0x79, 4, "LD A, C", Handler::Move(Reg8::A, Reg8::C));
        self.store_instructions(0x7A, 4, "LD A, D", Handler::Move(Reg8::A, Reg8::D));
        self.store_instructions(0x7B, 4, "LD A, E", Handler::Move(Reg8::A, Reg8::E));
        self.store_instructions(0x7C, 4, "LD A, H", Handler::Move(Reg8::A, Reg8::H));
        self.store_instructions(0x7D, 4, "LD A, L", Handler::Move(Reg8::A, Reg8::L));
        self.store_instructions(0x7E, 8, "LD A, (HL)", Handler::LoadIndirect(Reg8::A, Reg16::HL));
        self.store_instructions(0x7F, 4, "LD A, A", Handler::Move(Reg8::A, Reg8::A));
    }

    /// Opcodes `0xC0` to `0xFF`: stack, I/O page and absolute accesses.
    fn register_last_quarter(&mut self)
        requires
            old(self).wf(),
            forall|op: int| 0xC0 <= op <= 0xFF ==> (#[trigger] old(self).table()[op]) is None,
        ensures
            final(self).wf(),
            final(self)@ == old(self)@,
            forall|op: u8|
                0xC0 <= op <= 0xFF ==> described(#[trigger] final(self).table()[op as int])
                    == catalogue(op),
            forall|op: int|
                0 <= op < 256 && !(0xC0 <= op <= 0xFF) ==> #[trigger] final(self).table()[op]
                    == old(self).table()[op],
    {
        self.store_instructions(0xFA, 16, "LD A, (nn)", Handler::LoadAbsolute);
        self.store_instructions(0xEA, 16, "LD (nn), A", Handler::StoreAbsolute);
        self.store_instructions(0xF2, 8, "LD A, (C)", Handler::LoadHighC);
        self.store_instructions(0xE2, 8, "LD (C), A", Handler::StoreHighC);
        self.store_instructions(0xE0, 12, "LDH (n), A", Handler::StoreHighImmediate);
        self.store_instructions(0xF0, 12, "LDH A, (n)", Handler::LoadHighImmediate);
        self.store_instructions(0xF9, 8, "LD SP, HL", Handler::MoveHlToSp);
        self.store_instructions(0xF8, 12, "LDHL SP, n", Handler::LoadHlFromSpOffset);
        self.store_instructions(0xF5, 16, "PUSH AF", Handler::Push(Reg16::AF));
        self.store_instructions(0xC5, 16, "PUSH BC", Handler::Push(Reg16::BC));
        self.store_instructions(0xD5, 16, "PUSH DE", Handler::Push(Reg16::DE));
        self.store_instructions(0xE5, 16, "PUSH HL", Handler::Push(Reg16::HL));
        self.store_instructions(0xF1, 12, "POP AF", Handler::Pop(Reg16::AF));
        self.store_instructions(0xC1, 12, "POP BC", Handler::Pop(Reg16::BC));
        self.store_instructions(0xD1, 12, "POP DE", Handler::Pop(Reg16::DE));
        self.store_instructions(0xE1, 12, "POP HL", Handler::Pop(Reg16::HL));
    }

    /// The machine at power-on: registers, counters and memory are zero, and
    /// the table holds the catalogue, each opcode registered once.
    pub fn new() -> (cpu: CPU)
        ensures
            cpu.wf(),
            cpu@ == State::initial(),
            forall|op: u8| described(#[trigger] cpu.table()[op as int]) == catalogue(op),
    {
        let mut cpu: CPU = CPU::blank();
        cpu.register_first_quarter();
        cpu.register_second_quarter();
        cpu.register_last_quarter();
        cpu
    }

    /// The instruction registered for `op_code`, by reference, or
    /// `UnknownOpcode` with the current program counter.
    pub fn lookup(&self, op_code: u8) -> (found: Result<&Instruction, EmuError>)
        requires
            self.wf(),
        ensures
            match self.table()[op_code as int] {
                Some(ins) => found == Ok::<&Instruction, EmuError>(&ins),
                None => found == Err::<&Instruction, EmuError>(
                    EmuError::UnknownOpcode { opcode: op_code, pc: self@.pc },
                ),
            },
    {
        match &self.instruction_set[op_code as usize] {
            Some(ins) => Ok(ins),
            None => Err(EmuError::UnknownOpcode { opcode: op_code, pc: self.pc }),
        }
    }

    /// Whether an instruction is registered for `op_code`.
    pub fn is_registered(&self, op_code: u8) -> (yes: bool)
        requires
            self.wf(),
        ensures
            yes == (self.table()[op_code as int] is Some),
    {
        self.instruction_set[op_code as usize].is_some()
    }

    /// Registers an instruction for an opcode that has none yet. Nothing
    /// else changes.
    pub fn store_instructions(&mut self, op_code: u8, cycles: u8, mnemonic: &str, execute: Handler)
        requires
            old(self).wf(),
            old(self).table()[op_code as int] is None,
        ensures
            final(self).wf(),
            final(self)@ == old(self)@,
            described(final(self).table()[op_code as int]) == Some((execute, cycles, mnemonic@)),
            forall|op: int|
                0 <= op < 256 && op != op_code ==> #[trigger] final(self).table()[op] == old(
                    self,
                ).table()[op],
    {
        let ins: Instruction = Instruction::new(op_code, cycles, mnemonic, execute);
        self.instruction_set.set(op_code as usize, Some(ins));
    }

    /// The value of an 8-bit register.
    pub fn get_register_value_u8(&self, register: Reg8) -> (value: u8)
        ensures
            value == self@.get8(register),
    {
        match register {
            Reg8::A => self.a,
            Reg8::B => self.b,
            Reg8::C => self.c,
            Reg8::D => self.d,
            Reg8::E => self.e,
            Reg8::F => self.f,
            Reg8::H => self.h,
            Reg8::L => self.l,
        }
    }

    /// The value of a 16-bit register.
    pub fn get_register_value_u16(&self, register: Reg16) -> (value: u16)
        ensures
            value == self@.get16(register),
    {
        match register {
            Reg16::AF => make_word(self.a, self.f),
            Reg16::BC => make_word(self.b, self.c),
            Reg16::DE => make_word(self.d, self.e),
            Reg16::HL => make_word(self.h, self.l),
            Reg16::SP => self.sp,
        }
    }

    /// Sets an 8-bit register and nothing else.
    pub fn set_register_value_u8(&mut self, register: Reg8, value: u8)
        ensures
            final(self)@ == old(self)@.set8(register, value),
            final(self).table() == old(self).table(),
    {
        match register {
            Reg8::A => self.a = value,
            Reg8::B => self.b = value,
            Reg8::C => self.c = value,
            Reg8::D => self.d = value,
            Reg8::E => self.e = value,
            Reg8::F => self.f = value,
            Reg8::H => self.h = value,
            Reg8::L => self.l = value,
        }
    }

    /// Sets a 16-bit register and nothing else.
    pub fn set_register_value_u16(&mut self, register: Reg16, value: u16)
        ensures
            final(self)@ == old(self)@.set16(register, value),
            final(self).table() == old(self).table(),
    {
        let (high, low): (u8, u8) = split_word(value);
        match register {
            Reg16::AF => {
                self.set_register_value_u8(Reg8::A, high);
                self.set_register_value_u8(Reg8::F, low);
            },
            Reg16::BC => {
                self.set_register_value_u8(Reg8::B, high);
                self.set_register_value_u8(Reg8::C, low);
            },
            Reg16::DE => {
                self.set_register_value_u8(Reg8::D, high);
                self.set_register_value_u8(Reg8::E, low);
            },
            Reg16::HL => {
                self.set_register_value_u8(Reg8::H, high);
                self.set_register_value_u8(Reg8::L, low);
            },
            Reg16::SP => self.sp = value,
        }
    }

    /// The byte at a 16-bit address.
    fn load_at(&self, address: u16) -> (byte: Result<u8, EmuError>)
        requires
            self.wf(),
        ensures
            byte == self@.load(address),
    {
        self.memory.read_bytes(address as usize)
    }

    /// Stores a byte at a 16-bit address.
    fn store_at(&mut self, address: u16, value: u8) -> (done: Result<(), EmuError>)
        requires
            old(self).wf(),
        ensures
            transition(*old(self), *final(self), done, old(self)@.store(address, value)),
    {
        self.memory.write_bytes(address as usize, value)
    }

    /// Consumes the next operand byte: moves the program counter on by one
    /// and returns the byte it then addresses.
    pub fn read_next_opcode(&mut self) -> (byte: Result<u8, EmuError>)
        requires
            old(self).wf(),
        ensures
            final(self).wf(),
            final(self).table() == old(self).table(),
            match old(self)@.fetch() {
                Ok((s, b)) => byte == Ok::<u8, EmuError>(b) && final(self)@ == s,
                Err(e) => byte == Err::<u8, EmuError>(e) && final(self)@ == old(self)@,
            },
    {
        let next: u16 = self.pc.wrapping_add(1);
        match self.load_at(next) {
            Ok(b) => {
                self.pc = next;
                Ok(b)
            },
            Err(e) => Err(e),
        }
    }

    /// Consumes two operand bytes and packs them low byte first.
    fn read_next_word(&mut self) -> (value: Result<u16, EmuError>)
        requires
            old(self).wf(),
        ensures
            final(self).wf(),
            final(self).table() == old(self).table(),
            match old(self)@.fetch_word() {
                Ok((s, w)) => value == Ok::<u16, EmuError>(w) && final(self)@ == s,
                Err(e) => value == Err::<u16, EmuError>(e) && final(self)@ == old(self)@,
            },
    {
        let start: u16 = self.pc;
        match self.read_next_opcode() {
            Ok(low) => match self.read_next_opcode() {
                Ok(high) => Ok(make_word(high, low)),
                Err(e) => {
                    self.pc = start;
                    Err(e)
                },
            },
            Err(e) => Err(e),
        }
    }

    /// `LD r, n`: loads the operand byte into `register`.
    pub fn nn_n(&mut self, register: Reg8) -> (done: Result<(), EmuError>)
        requires
            old(self).wf(),
        ensures
            transition(
                *old(self),
                *final(self),
                done,
                old(self)@.apply(Handler::LoadImmediate(register)),
            ),
    {
        match self.read_next_opcode() {
            Ok(n) => {
                self.set_register_value_u8(register, n);
                Ok(())
            },
            Err(e) => Err(e),
        }
    }

    /// `LD A, (C)`: loads the byte at `0xFF00 + C` into `A`.
    pub fn a_c(&mut self) -> (done: Result<(), EmuError>)
        requires
            old(self).wf(),
        ensures
            transition(*old(self), *final(self), done, old(self)@.apply(Handler::LoadHighC)),
    {
        let address: u16 = 0xFF00u16 + (self.c as u16);
        self.load_into(Reg8::A, address)
    }

    /// `LD r1, r2`: copies `r2` into `r1`; every other register is kept.
    pub fn r2_to_r1(&mut self, r1: Reg8, r2: Reg8)
        ensures
            final(self)@ == old(self)@.set8(r1, old(self)@.get8(r2)),
            final(self).table() == old(self).table(),
    {
        let value: u8 = self.get_register_value_u8(r2);
        self.set_register_value_u8(r1, value);
    }

    /// `PUSH rr`: the stack grows downward by two bytes, the high byte of
    /// the pair ending up at the lower address.
    pub fn push_stack(&mut self, register: Reg16) -> (done: Result<(), EmuError>)
        requires
            old(self).wf(),
        ensures
            transition(*old(self), *final(self), done, old(self)@.push(register)),
    {
        let value: u16 = self.get_register_value_u16(register);
        let (high, low): (u8, u8) = split_word(value);
        let first: u16 = self.sp.wrapping_sub(1);
        let second: u16 = first.wrapping_sub(1);
        match self.store_pair(first, low, second, high) {
            Ok(()) => {
                self.sp = second;
                Ok(())
            },
            Err(e) => Err(e),
        }
    }

    /// `POP rr`: the exact inverse of `push_stack`.
    pub fn pop_stack(&mut self, register: Reg16) -> (done: Result<(), EmuError>)
        requires
            old(self).wf(),
        ensures
            transition(*old(self), *final(self), done, old(self)@.pop(register)),
    {
        let first: u16 = self.sp;
        let second: u16 = first.wrapping_add(1);
        match self.load_at(first) {
            Ok(high) => match self.load_at(second) {
                Ok(low) => {
                    self.sp = second.wrapping_add(1);
                    self.set_register_value_u16(register, make_word(high, low));
                    Ok(())
                },
                Err(e) => Err(e),
            },
            Err(e) => Err(e),
        }
    }

    /// Loads the byte at `address` into `register`.
    fn load_into(&mut self, register: Reg8, address: u16) -> (done: Result<(), EmuError>)
        requires
            old(self).wf(),
        ensures
            final(self).wf(),
            final(self).table() == old(self).table(),
            match old(self)@.load(address) {
                Ok(byte) => done is Ok && final(self)@ == old(self)@.set8(register, byte),
                Err(e) => done == Err::<(), EmuError>(e) && final(self)@ == old(self)@,
            },
    {
        match self.load_at(address) {
            Ok(byte) => {
                self.set_register_value_u8(register, byte);
                Ok(())
            },
            Err(e) => Err(e),
        }
    }

    /// Stores two bytes, `a` at `first` and then `b` at `second`; nothing is
    /// written unless both addresses are in range.
    fn store_pair(&mut self, first: u16, a: u8, second: u16, b: u8) -> (done: Result<
        (),
        EmuError,
    >)
        requires
            old(self).wf(),
        ensures
            final(self).wf(),
            final(self).table() == old(self).table(),
            match old(self)@.store(first, a) {
                Ok(s1) => match s1.store(second, b) {
                    Ok(s2) => done is Ok && final(self)@ == s2,
                    Err(e) => done == Err::<(), EmuError>(e) && final(self)@ == old(self)@,
                },
                Err(e) => done == Err::<(), EmuError>(e) && final(self)@ == old(self)@,
            },
    {
        if first as usize >= MEMORY_SIZE {
            return Err(EmuError::OutOfRange(first as usize));
        }
        if second as usize >= MEMORY_SIZE {
            return Err(EmuError::OutOfRange(second as usize));
        }
        let _ = self.store_at(first, a);
        let _ = self.store_at(second, b);
        Ok(())
    }

    /// Puts the program counter back after a failure, so that a failed
    /// instruction leaves no trace.
    fn rewind(&mut self, pc: u16)
        ensures
            final(self)@ == (State { pc, ..old(self)@ }),
            final(self).table() == old(self).table(),
    {
        self.pc = pc;
    }

    /// `LD (HL), n`.
    fn store_immediate(&mut self) -> (done: Result<(), EmuError>)
        requires
            old(self).wf(),
        ensures
            transition(*old(self), *final(self), done, old(self)@.apply(Handler::StoreImmediate)),
    {
        let start: u16 = self.pc;
        match self.read_next_opcode() {
            Ok(n) => {
                let hl: u16 = self.get_register_value_u16(Reg16::HL);
                let done: Result<(), EmuError> = self.store_at(hl, n);
                if done.is_err() {
                    self.rewind(start);
                }
                done
            },
            Err(e) => Err(e),
        }
    }

    /// `LD r, (rr)`.
    fn load_indirect(&mut self, r: Reg8, p: Reg16) -> (done: Result<(), EmuError>)
        requires
            old(self).wf(),
        ensures
            transition(*old(self), *final(self), done, old(self)@.apply(Handler::LoadIndirect(r, p))),
    {
        let address: u16 = self.get_register_value_u16(p);
        self.load_into(r, address)
    }

    /// `LD (rr), r`.
    fn store_indirect(&mut self, p: Reg16, r: Reg8) -> (done: Result<(), EmuError>)
        requires
            old(self).wf(),
        ensures
            transition(*old(self), *final(self), done, old(self)@.apply(Handler::StoreIndirect(p, r))),
    {
        let address: u16 = self.get_register_value_u16(p);
        let value: u8 = self.get_register_value_u8(r);
        self.store_at(address, value)
    }

    /// `LD A, (nn)`.
    fn load_absolute(&mut self) -> (done: Result<(), EmuError>)
        requires
            old(self).wf(),
        ensures
            transition(*old(self), *final(self), done, old(self)@.apply(Handler::LoadAbsolute)),
    {
        let start: u16 = self.pc;
        match self.read_next_word() {
            Ok(nn) => {
                let done: Result<(), EmuError> = self.load_into(Reg8::A, nn);
                if done.is_err() {
                    self.rewind(start);
                }
                done
            },
            Err(e) => Err(e),
        }
    }

    /// `LD (nn), A`.
    fn store_absolute(&mut self) -> (done: Result<(), EmuError>)
        requires
            old(self).wf(),
        ensures
            transition(*old(self), *final(self), done, old(self)@.apply(Handler::StoreAbsolute)),
    {
        let start: u16 = self.pc;
        match self.read_next_word() {
            Ok(nn) => {
                let value: u8 = self.a;
                let done: Result<(), EmuError> = self.store_at(nn, value);
                if done.is_err() {
                    self.rewind(start);
                }
                done
            },
            Err(e) => Err(e),
        }
    }

    /// `LD (C), A`.
    fn store_high_c(&mut self) -> (done: Result<(), EmuError>)
        requires
            old(self).wf(),
        ensures
            transition(*old(self), *final(self), done, old(self)@.apply(Handler::StoreHighC)),
    {
        let address: u16 = 0xFF00u16 + (self.c as u16);
        let value: u8 = self.a;
        self.store_at(address, value)
    }

    /// `LDD A, (HL)` and `LDI A, (HL)`.
    fn load_stepping(&mut self, step: Step) -> (done: Result<(), EmuError>)
        requires
            old(self).wf(),
        ensures
            transition(*old(self), *final(self), done, old(self)@.apply(Handler::LoadStepping(step))),
    {
        let hl: u16 = self.get_register_value_u16(Reg16::HL);
        match self.load_into(Reg8::A, hl) {
            Ok(()) => {
                self.set_register_value_u16(Reg16::HL, step_word(hl, step));
                Ok(())
            },
            Err(e) => Err(e),
        }
    }

    /// `LDD (HL), A` and `LDI (HL), A`.
    fn store_stepping(&mut self, step: Step) -> (done: Result<(), EmuError>)
        requires
            old(self).wf(),
        ensures
            transition(*old(self), *final(self), done, old(self)@.apply(Handler::StoreStepping(step))),
    {
        let hl: u16 = self.get_register_value_u16(Reg16::HL);
        let value: u8 = self.a;
        match self.store_at(hl, value) {
            Ok(()) => {
                self.set_register_value_u16(Reg16::HL, step_word(hl, step));
                Ok(())
            },
            Err(e) => Err(e),
        }
    }

    /// `LDH A, (n)`.
    fn load_high_immediate(&mut self) -> (done: Result<(), EmuError>)
        requires
            old(self).wf(),
        ensures
            transition(*old(self), *final(self), done, old(self)@.apply(Handler::LoadHighImmediate)),
    {
        let start: u16 = self.pc;
        match self.read_next_opcode() {
            Ok(n) => {
                let done: Result<(), EmuError> = self.load_into(Reg8::A, 0xFF00u16 + (n as u16));
                if done.is_err() {
                    self.rewind(start);
                }
                done
            },
            Err(e) => Err(e),
        }
    }

    /// `LDH (n), A`.
    fn store_high_immediate(&mut self) -> (done: Result<(), EmuError>)
        requires
            old(self).wf(),
        ensures
            transition(*old(self), *final(self), done, old(self)@.apply(Handler::StoreHighImmediate)),
    {
        let start: u16 = self.pc;
        match self.read_next_opcode() {
            Ok(n) => {
                let value: u8 = self.a;
                let done: Result<(), EmuError> = self.store_at(0xFF00u16 + (n as u16), value);
                if done.is_err() {
                    self.rewind(start);
                }
                done
            },
            Err(e) => Err(e),
        }
    }

    /// `LD rr, nn`.
    fn load_immediate_word(&mut self, p: Reg16) -> (done: Result<(), EmuError>)
        requires
            old(self).wf(),
        ensures
            transition(*old(self), *final(self), done, old(self)@.apply(Handler::LoadImmediateWord(p))),
    {
        match self.read_next_word() {
            Ok(nn) => {
                self.set_register_value_u16(p, nn);
                Ok(())
            },
            Err(e) => Err(e),
        }
    }

    /// `LDHL SP, n`.
    fn load_hl_from_sp_offset(&mut self) -> (done: Result<(), EmuError>)
        requires
            old(self).wf(),
        ensures
            transition(*old(self), *final(self), done, old(self)@.apply(Handler::LoadHlFromSpOffset)),
    {
        match self.read_next_opcode() {
            Ok(n) => {
                let value: u16 = displace(self.sp, n);
                self.set_register_value_u16(Reg16::HL, value);
                Ok(())
            },
            Err(e) => Err(e),
        }
    }

    /// `LD (nn), SP`.
    fn store_sp(&mut self) -> (done: Result<(), EmuError>)
        requires
            old(self).wf(),
        ensures
            transition(*old(self), *final(self), done, old(self)@.apply(Handler::StoreSp)),
    {
        let start: u16 = self.pc;
        match self.read_next_word() {
            Ok(nn) => {
                let (high, low): (u8, u8) = split_word(self.sp);
                let done: Result<(), EmuError> = self.store_pair(
                    nn,
                    low,
                    nn.wrapping_add(1),
                    high,
                );
                if done.is_err() {
                    self.rewind(start);
                }
                done
            },
            Err(e) => Err(e),
        }
    }

    /// Performs the effect of `handler`, or fails and changes nothing.
    pub fn execute(&mut self, handler: Handler) -> (done: Result<(), EmuError>)
        requires
            old(self).wf(),
        ensures
            transition(*old(self), *final(self), done, old(self)@.apply(handler)),
    {
        match handler {
            Handler::LoadImmediate(r) => self.nn_n(r),
            Handler::StoreImmediate => self.store_immediate(),
            Handler::Move(r1, r2) => {
                self.r2_to_r1(r1, r2);
                Ok(())
            },
            Handler::LoadIndirect(r, p) => self.load_indirect(r, p),
            Handler::StoreIndirect(p, r) => self.store_indirect(p, r),
            Handler::LoadAbsolute => self.load_absolute(),
            Handler::StoreAbsolute => self.store_absolute(),
            Handler::LoadHighC => self.a_c(),
            Handler::StoreHighC => self.store_high_c(),
            Handler::LoadStepping(step) => self.load_stepping(step),
            Handler::StoreStepping(step) => self.store_stepping(step),
            Handler::LoadHighImmediate => self.load_high_immediate(),
            Handler::StoreHighImmediate => self.store_high_immediate(),
            Handler::LoadImmediateWord(p) => self.load_immediate_word(p),
            Handler::MoveHlToSp => {
                let hl: u16 = self.get_register_value_u16(Reg16::HL);
                self.set_register_value_u16(Reg16::SP, hl);
                Ok(())
            },
            Handler::LoadHlFromSpOffset => self.load_hl_from_sp_offset(),
            Handler::StoreSp => self.store_sp(),
            Handler::Push(p) => self.push_stack(p),
            Handler::Pop(p) => self.pop_stack(p),
            Handler::Halt => {
                self.halt();
                Ok(())
            },
        }
    }

    /// One fetch-decode-execute-advance cycle. On failure the machine is
    /// left exactly as it was, so the error's context still describes it.
    pub fn execute_instruction(&mut self) -> (done: Result<(), EmuError>)
        requires
            old(self).wf(),
        ensures
            transition(*old(self), *final(self), done, old(self)@.step(old(self).table())),
    {
        if self.halted {
            return Ok(());
        }
        let opcode: u8 = match self.load_at(self.pc) {
            Ok(byte) => byte,
            Err(e) => {
                return Err(e);
            },
        };
        let (handler, cost): (Handler, u8) = match self.lookup(opcode) {
            Ok(ins) => (ins.execute, ins.cycles),
            Err(e) => {
                return Err(e);
            },
        };
        match self.execute(handler) {
            Ok(()) => {
                self.pc = self.pc.wrapping_add(1);
                self.cycles = self.cycles.saturating_add(cost as u64);
                Ok(())
            },
            Err(e) => Err(e),
        }
    }

    /// Runs cycles until the machine halts, a cycle fails, or `max_steps`
    /// cycles are done. Returns the number of cycles completed, or the error
    /// of the cycle that failed; the machine is then as the last completed
    /// cycle left it.
    pub fn run(&mut self, max_steps: u64) -> (outcome: Result<u64, EmuError>)
        requires
            old(self).wf(),
        ensures
            final(self).wf(),
            final(self).table() == old(self).table(),
            final(self)@ == old(self)@.run(old(self).table(), max_steps as nat),
            outcome == run_outcome(old(self)@, old(self).table(), max_steps as nat),
    {
        let mut steps: u64 = 0;
        while steps < max_steps
            invariant
                steps <= max_steps,
                self.wf(),
                self.table() == old(self).table(),
                self@.run(self.table(), (max_steps - steps) as nat) == old(self)@.run(
                    old(self).table(),
                    max_steps as nat,
                ),
                steps + self@.run_length(self.table(), (max_steps - steps) as nat) == old(
                    self,
                )@.run_length(old(self).table(), max_steps as nat),
            decreases max_steps - steps,
        {
            if self.halted {
                return Ok(steps);
            }
            match self.execute_instruction() {
                Ok(()) => {
                    steps = steps + 1;
                },
                Err(e) => {
                    return Err(e);
                },
            }
        }
        Ok(steps)
    }

    /// Requests a stop: the engine executes nothing more.
    pub fn halt(&mut self)
        ensures
            final(self)@ == (State { halted: true, ..old(self)@ }),
            final(self).table() == old(self).table(),
    {
        self.halted = true;
    }

    /// Whether the engine has stopped.
    pub fn is_halted(&self) -> (yes: bool)
        ensures
            yes == self@.halted,
    {
        self.halted
    }

    /// The program counter.
    pub fn pc(&self) -> (value: u16)
        ensures
            value == self@.pc,
    {
        self.pc
    }

    /// The stack pointer.
    pub fn sp(&self) -> (value: u16)
        ensures
            value == self@.sp,
    {
        self.sp
    }

    /// Total cycle cost of the instructions executed so far.
    pub fn cycles(&self) -> (value: u64)
        ensures
            value == self@.cycles,
    {
        self.cycles
    }

    /// The address space.
    pub fn memory(&self) -> (mem: &Memory)
        ensures
            mem@ == self@.mem,
    {
        &self.memory
    }

    /// Loads an image at address 0; see `Memory::load_rom`.
    pub fn load_rom(&mut self, bytes: &Vec<u8>) -> (truncated: bool)
        requires
            old(self).wf(),
        ensures
            final(self).wf(),
            final(self).table() == old(self).table(),
            final(self)@ == (State { mem: loaded(old(self)@.mem, bytes@), ..old(self)@ }),
            truncated == (bytes@.len() > crate::memory::VRAM),
    {
        self.memory.load_rom(bytes)
    }

    /// Appends the register dump to `text`.
    fn push_registers(&self, text: &mut String)
        ensures
            final(text)@ == self@.dump_after(old(text)@),
    {
        text.push_str("Registers state:\n(a: ");
        push_decimal(text, self.a as u16);
        text.push_str(") (b: ");
        push_decimal(text, self.b as u16);
        text.push_str(") (c: ");
        push_decimal(text, self.c as u16);
        text.push_str(") (d: ");
        push_decimal(text, self.d as u16);
        text.push_str(")\n(e: ");
        push_decimal(text, self.e as u16);
        text.push_str(") (f: ");
        push_decimal(text, self.f as u16);
        text.push_str(") (h: ");
        push_decimal(text, self.h as u16);
        text.push_str(") (l: ");
        push_decimal(text, self.l as u16);
        text.push_str(")\n(sp: ");
        push_decimal(text, self.sp);
        text.push_str(") (pc: ");
        push_decimal(text, self.pc);
        text.push_str(")");
    }

    /// Diagnostic rendering of the registers.
    pub fn registers_to_string(&self) -> (text: String)
        ensures
            text@ == self@.registers_text(),
    {
        let mut text: String = String::new();
        self.push_registers(&mut text);
        text
    }

    /// Diagnostic rendering of the engine: the register dump behind a tag.
    pub fn to_string(&self) -> (text: String)
        ensures
            text@ == self@.dump_after("CPU | "@),
    {
        let mut text: String = String::new();
        text.push_str("CPU | ");
        self.push_registers(&mut text);
        assert(text@ =~= self@.dump_after("CPU | "@));
        text
    }
}

/// What `run` reports: the number of completed cycles when the machine
/// halted or the budget ran out, else the error of the failing cycle.
pub open spec fn run_outcome(start: State, table: Seq<Option<Instruction>>, budget: nat) -> Result<
    u64,
    EmuError,
> {
    let end = start.run(table, budget);
    let done = start.run_length(table, budget);
    if done < budget && !end.halted {
        Err(end.step(table)->Err_0)
    } else {
        Ok(done as u64)
    }
}

/// Moves a word one step in the given direction, modulo 65536.
pub fn step_word(value: u16, step: Step) -> (moved: u16)
    ensures
        moved == stepped(value, step),
{
    match step {
        Step::Decrement => value.wrapping_sub(1),
        Step::Increment => value.wrapping_add(1),
    }
}

} // verus!
