use vstd::prelude::*;
use crate::error::EmuError;
use crate::memory::MEMORY_SIZE;
use crate::cpu::registers::{Reg16, Reg8, word, high_byte, low_byte, displaced};
use crate::cpu::instruction::{Handler, Instruction, Step};
use crate::text::decimal;

verus! {

/// The machine as a mathematical value: what every contract of the engine
/// speaks about.
pub struct State {
    pub a: u8,
    pub b: u8,
    pub c: u8,
    pub d: u8,
    pub e: u8,
    pub f: u8,
    pub h: u8,
    pub l: u8,
    pub sp: u16,
    pub pc: u16,
    pub cycles: u64,
    pub halted: bool,
    pub mem: Seq<u8>,
}

/// The address `0xFF00 + offset` in the I/O page.
pub open spec fn high_page(offset: u8) -> u16 {
    (0xFF00 + offset) as u16
}

/// `value` moved one step in the given direction, modulo 65536.
pub open spec fn stepped(value: u16, step: Step) -> u16 {
    match step {
        Step::Decrement => value.wrapping_sub(1),
        Step::Increment => value.wrapping_add(1),
    }
}

impl State {
    /// The machine at power-on: everything is zero and the engine runs.
    pub open spec fn initial() -> State {
        State {
            a: 0,
            b: 0,
            c: 0,
            d: 0,
            e: 0,
            f: 0,
            h: 0,
            l: 0,
            sp: 0,
            pc: 0,
            cycles: 0,
            halted: false,
            mem: Seq::new(MEMORY_SIZE as nat, |i: int| 0u8),
        }
    }

    /// `prefix` followed by the diagnostic dump of the registers, every
    /// value in decimal.
    pub open spec fn dump_after(self, prefix: Seq<char>) -> Seq<char> {
        prefix + "Registers state:\n(a: "@ + decimal(self.a as nat) + ") (b: "@ + decimal(
            self.b as nat,
        ) + ") (c: "@ + decimal(self.c as nat) + ") (d: "@ + decimal(self.d as nat) + ")\n(e: "@
            + decimal(self.e as nat) + ") (f: "@ + decimal(self.f as nat) + ") (h: "@ + decimal(
            self.h as nat,
        ) + ") (l: "@ + decimal(self.l as nat) + ")\n(sp: "@ + decimal(self.sp as nat)
            + ") (pc: "@ + decimal(self.pc as nat) + ")"@
    }

    /// The diagnostic dump of the registers.
    pub open spec fn registers_text(self) -> Seq<char> {
        self.dump_after(Seq::empty())
    }

    /// The memory has its full length.
    pub open spec fn wf(self) -> bool {
        self.mem.len() == MEMORY_SIZE
    }

    /// The value of an 8-bit register.
    pub open spec fn get8(self, r: Reg8) -> u8 {
        match r {
            Reg8::A => self.a,
            Reg8::B => self.b,
            Reg8::C => self.c,
            Reg8::D => self.d,
            Reg8::E => self.e,
            Reg8::F => self.f,
            Reg8::H => self.h,
            Reg8::L => self.l,
        }
    }

    /// The state with the 8-bit register `r` set to `value`.
    pub open spec fn set8(self, r: Reg8, value: u8) -> State {
        match r {
            Reg8::A => State { a: value, ..self },
            Reg8::B => State { b: value, ..self },
            Reg8::C => State { c: value, ..self },
            Reg8::D => State { d: value, ..self },
            Reg8::E => State { e: value, ..self },
            Reg8::F => State { f: value, ..self },
            Reg8::H => State { h: value, ..self },
            Reg8::L => State { l: value, ..self },
        }
    }

    /// The value of a 16-bit register: a pair packs its first-named register
    /// as the high byte and its second-named as the low byte.
    pub open spec fn get16(self, p: Reg16) -> u16 {
        match p {
            Reg16::AF => word(self.a, self.f),
            Reg16::BC => word(self.b, self.c),
            Reg16::DE => word(self.d, self.e),
            Reg16::HL => word(self.h, self.l),
            Reg16::SP => self.sp,
        }
    }

    /// The state with the 16-bit register `p` set to `value`: for a pair, the
    /// high half is written, then the low half.
    pub open spec fn set16(self, p: Reg16, value: u16) -> State {
        match p {
            Reg16::AF => self.set8(Reg8::A, high_byte(value)).set8(Reg8::F, low_byte(value)),
            Reg16::BC => self.set8(Reg8::B, high_byte(value)).set8(Reg8::C, low_byte(value)),
            Reg16::DE => self.set8(Reg8::D, high_byte(value)).set8(Reg8::E, low_byte(value)),
            Reg16::HL => self.set8(Reg8::H, high_byte(value)).set8(Reg8::L, low_byte(value)),
            Reg16::SP => State { sp: value, ..self },
        }
    }

    /// The byte at `address`, or `OutOfRange`.
    pub open spec fn load(self, address: u16) -> Result<u8, EmuError> {
        if address < MEMORY_SIZE {
            Ok(self.mem[address as int])
        } else {
            Err(EmuError::OutOfRange(address as usize))
        }
    }

    /// The state with `value` stored at `address`, or `OutOfRange`.
    pub open spec fn store(self, address: u16, value: u8) -> Result<State, EmuError> {
        if address < MEMORY_SIZE {
            Ok(State { mem: self.mem.update(address as int, value), ..self })
        } else {
            Err(EmuError::OutOfRange(address as usize))
        }
    }

    /// Consumes one operand byte: the program counter moves on by one and the
    /// byte it then addresses is read.
    pub open spec fn fetch(self) -> Result<(State, u8), EmuError> {
        let next = State { pc: self.pc.wrapping_add(1), ..self };
        match next.load(next.pc) {
            Ok(byte) => Ok((next, byte)),
            Err(e) => Err(e),
        }
    }

    /// Consumes two operand bytes and packs them low byte first.
    pub open spec fn fetch_word(self) -> Result<(State, u16), EmuError> {
        match self.fetch() {
            Ok((s1, low)) => match s1.fetch() {
                Ok((s2, high)) => Ok((s2, word(high, low))),
                Err(e) => Err(e),
            },
            Err(e) => Err(e),
        }
    }

    /// Pushes the value of `p`: the stack pointer drops by one and the low
    /// byte is written there, then it drops again and the high byte is
    /// written there.
    pub open spec fn push(self, p: Reg16) -> Result<State, EmuError> {
        let value = self.get16(p);
        let first = self.sp.wrapping_sub(1);
        let second = first.wrapping_sub(1);
        match self.store(first, low_byte(value)) {
            Ok(s1) => match s1.store(second, high_byte(value)) {
                Ok(s2) => Ok(State { sp: second, ..s2 }),
                Err(e) => Err(e),
            },
            Err(e) => Err(e),
        }
    }

    /// Pops into `p`: the high byte is read at the stack pointer, the low
    /// byte one above it, the stack pointer rises by two, and `p` takes the
    /// word read.
    pub open spec fn pop(self, p: Reg16) -> Result<State, EmuError> {
        let first = self.sp;
        let second = first.wrapping_add(1);
        match self.load(first) {
            Ok(high) => match self.load(second) {
                Ok(low) => Ok(
                    (State { sp: second.wrapping_add(1), ..self }).set16(p, word(high, low)),
                ),
                Err(e) => Err(e),
            },
            Err(e) => Err(e),
        }
    }

    /// The effect of a handler: the state it leaves, or the error it stops
    /// with.
    pub open spec fn apply(self, handler: Handler) -> Result<State, EmuError> {
        match handler {
            Handler::LoadImmediate(r) => match self.fetch() {
                Ok((s, n)) => Ok(s.set8(r, n)),
                Err(e) => Err(e),
            },
            Handler::StoreImmediate => match self.fetch() {
                Ok((s, n)) => s.store(s.get16(Reg16::HL), n),
                Err(e) => Err(e),
            },
            Handler::Move(r1, r2) => Ok(self.set8(r1, self.get8(r2))),
            Handler::LoadIndirect(r, p) => match self.load(self.get16(p)) {
                Ok(byte) => Ok(self.set8(r, byte)),
                Err(e) => Err(e),
            },
            Handler::StoreIndirect(p, r) => self.store(self.get16(p), self.get8(r)),
            Handler::LoadAbsolute => match self.fetch_word() {
                Ok((s, nn)) => match s.load(nn) {
                    Ok(byte) => Ok(s.set8(Reg8::A, byte)),
                    Err(e) => Err(e),
                },
                Err(e) => Err(e),
            },
            Handler::StoreAbsolute => match self.fetch_word() {
                Ok((s, nn)) => s.store(nn, s.a),
                Err(e) => Err(e),
            },
            Handler::LoadHighC => match self.load(high_page(self.c)) {
                Ok(byte) => Ok(self.set8(Reg8::A, byte)),
                Err(e) => Err(e),
            },
            Handler::StoreHighC => self.store(high_page(self.c), self.a),
            Handler::LoadStepping(step) => {
                let hl = self.get16(Reg16::HL);
                match self.load(hl) {
                    Ok(byte) => Ok(self.set8(Reg8::A, byte).set16(Reg16::HL, stepped(hl, step))),
                    Err(e) => Err(e),
                }
            },
            Handler::StoreStepping(step) => {
                let hl = self.get16(Reg16::HL);
                match self.store(hl, self.a) {
                    Ok(s) => Ok(s.set16(Reg16::HL, stepped(hl, step))),
                    Err(e) => Err(e),
                }
            },
            Handler::LoadHighImmediate => match self.fetch() {
                Ok((s, n)) => match s.load(high_page(n)) {
                    Ok(byte) => Ok(s.set8(Reg8::A, byte)),
                    Err(e) => Err(e),
                },
                Err(e) => Err(e),
            },
            Handler::StoreHighImmediate => match self.fetch() {
                Ok((s, n)) => s.store(high_page(n), s.a),
                Err(e) => Err(e),
            },
            Handler::LoadImmediateWord(p) => match self.fetch_word() {
                Ok((s, nn)) => Ok(s.set16(p, nn)),
                Err(e) => Err(e),
            },
            Handler::MoveHlToSp => Ok(self.set16(Reg16::SP, self.get16(Reg16::HL))),
            Handler::LoadHlFromSpOffset => match self.fetch() {
                Ok((s, n)) => Ok(s.set16(Reg16::HL, displaced(s.sp, n))),
                Err(e) => Err(e),
            },
            Handler::StoreSp => match self.fetch_word() {
                Ok((s, nn)) => match s.store(nn, low_byte(s.sp)) {
                    Ok(s1) => s1.store(nn.wrapping_add(1), high_byte(s.sp)),
                    Err(e) => Err(e),
                },
                Err(e) => Err(e),
            },
            Handler::Push(p) => self.push(p),
            Handler::Pop(p) => self.pop(p),
            Handler::Halt => Ok(State { halted: true, ..self }),
        }
    }

    /// One fetch-decode-execute-advance cycle against `table`. A halted
    /// machine stays as it is. Otherwise the opcode is read at the program
    /// counter and looked up, its handler is applied, the program counter
    /// moves past the opcode and the cycle counter grows by the instruction's
    /// cost, stopping at its maximum.
    pub open spec fn step(self, table: Seq<Option<Instruction>>) -> Result<State, EmuError> {
        if self.halted {
            Ok(self)
        } else {
            match self.load(self.pc) {
                Ok(opcode) => match table[opcode as int] {
                    Some(ins) => match self.apply(ins.execute) {
                        Ok(s) => Ok(
                            State {
                                pc: s.pc.wrapping_add(1),
                                cycles: s.cycles.saturating_add(ins.cycles as u64),
                                ..s
                            },
                        ),
                        Err(e) => Err(e),
                    },
                    None => Err(EmuError::UnknownOpcode { opcode, pc: self.pc }),
                },
                Err(e) => Err(e),
            }
        }
    }

    /// Whether the loop goes on from this state: it is not halted and its
    /// next cycle succeeds.
    pub open spec fn can_step(self, table: Seq<Option<Instruction>>) -> bool {
        !self.halted && self.step(table) is Ok
    }

    /// The state the loop reaches within `budget` cycles: it stops early
    /// when the machine halts or a cycle fails.
    pub open spec fn run(self, table: Seq<Option<Instruction>>, budget: nat) -> State
        decreases budget,
    {
        if budget == 0 || !self.can_step(table) {
            self
        } else {
            self.step(table)->Ok_0.run(table, (budget - 1) as nat)
        }
    }

    /// How many cycles the loop completes within `budget`.
    pub open spec fn run_length(self, table: Seq<Option<Instruction>>, budget: nat) -> nat
        decreases budget,
    {
        if budget == 0 || !self.can_step(table) {
            0
        } else {
            1 + self.step(table)->Ok_0.run_length(table, (budget - 1) as nat)
        }
    }
}

} // verus!
