use vstd::prelude::*;
use crate::error::EmuError;
use crate::memory::MEMORY_SIZE;
use crate::cpu::registers::{Reg16, Reg8, high_byte, low_byte, lemma_word_bytes, word};
use crate::cpu::instruction::{Handler, Instruction};
use crate::cpu::model::State;

verus! {

/// Writing an 8-bit register and reading it back gives the value written;
/// every other register, both counters and the memory are untouched.
pub proof fn law_set8_get8(s: State, r: Reg8, value: u8)
    ensures
        s.set8(r, value).get8(r) == value,
        forall|other: Reg8| other != r ==> s.set8(r, value).get8(other) == s.get8(other),
        s.set8(r, value).sp == s.sp,
        s.set8(r, value).pc == s.pc,
        s.set8(r, value).cycles == s.cycles,
        s.set8(r, value).halted == s.halted,
        s.set8(r, value).mem == s.mem,
{
}

/// Writing a 16-bit register and reading it back gives the value written.
pub proof fn law_set16_get16(s: State, p: Reg16, value: u16)
    ensures
        s.set16(p, value).get16(p) == value,
{
    lemma_word_bytes(0, 0, value);
}

/// Reading a 16-bit register and writing the value back changes nothing.
pub proof fn law_get16_set16(s: State, p: Reg16)
    ensures
        s.set16(p, s.get16(p)) == s,
{
    lemma_word_bytes(s.a, s.f, 0);
    lemma_word_bytes(s.b, s.c, 0);
    lemma_word_bytes(s.d, s.e, 0);
    lemma_word_bytes(s.h, s.l, 0);
}

/// A store that succeeds is read back by a load of the same address, and
/// changes no other byte and no register.
pub proof fn law_store_load(s: State, address: u16, value: u8)
    requires
        s.wf(),
        s.store(address, value) is Ok,
    ensures
        s.store(address, value)->Ok_0.load(address) == Ok::<u8, EmuError>(value),
        forall|other: u16|
            other != address ==> s.store(address, value)->Ok_0.load(other) == s.load(other),
        s.store(address, value)->Ok_0 == (State { mem: s.store(address, value)->Ok_0.mem, ..s }),
        s.store(address, value)->Ok_0.wf(),
{
}

/// A load or a store fails exactly on the one 16-bit address that lies
/// outside the address space, and reports it.
pub proof fn law_address_range(s: State, address: u16, value: u8)
    ensures
        s.load(address) is Err <==> address == 0xFFFF,
        s.store(address, value) is Err <==> address == 0xFFFF,
        address == 0xFFFF ==> s.load(address) == Err::<u8, EmuError>(EmuError::OutOfRange(0xFFFF)),
        address == 0xFFFF ==> s.store(address, value) == Err::<State, EmuError>(
            EmuError::OutOfRange(0xFFFF),
        ),
{
}

/// A register-to-register move always succeeds, gives the destination the
/// prior value of the source, and leaves every other register, both
/// counters and the memory as they were.
pub proof fn law_move(s: State, r1: Reg8, r2: Reg8)
    ensures
        s.apply(Handler::Move(r1, r2)) is Ok,
        s.apply(Handler::Move(r1, r2))->Ok_0.get8(r1) == s.get8(r2),
        forall|other: Reg8|
            other != r1 ==> s.apply(Handler::Move(r1, r2))->Ok_0.get8(other) == s.get8(other),
        s.apply(Handler::Move(r1, r2))->Ok_0.sp == s.sp,
        s.apply(Handler::Move(r1, r2))->Ok_0.pc == s.pc,
        s.apply(Handler::Move(r1, r2))->Ok_0.cycles == s.cycles,
        s.apply(Handler::Move(r1, r2))->Ok_0.halted == s.halted,
        s.apply(Handler::Move(r1, r2))->Ok_0.mem == s.mem,
{
}

/// A cycle whose opcode decodes to a register-to-register move succeeds: the
/// destination takes the prior value of the source, every other register,
/// the stack pointer and the memory are kept, and the program counter moves
/// past the opcode.
pub proof fn law_move_instruction(
    s: State,
    table: Seq<Option<Instruction>>,
    r1: Reg8,
    r2: Reg8,
)
    requires
        !s.halted,
        s.pc < MEMORY_SIZE,
        table[s.mem[s.pc as int] as int] is Some,
        table[s.mem[s.pc as int] as int]->0.execute == Handler::Move(r1, r2),
    ensures
        s.step(table) is Ok,
        s.step(table)->Ok_0.get8(r1) == s.get8(r2),
        forall|other: Reg8| other != r1 ==> s.step(table)->Ok_0.get8(other) == s.get8(other),
        s.step(table)->Ok_0.sp == s.sp,
        s.step(table)->Ok_0.mem == s.mem,
        s.step(table)->Ok_0.pc == s.pc.wrapping_add(1),
{
}

/// An 8-bit immediate load takes the byte that follows the opcode and
/// leaves the program counter on it.
pub proof fn law_load_immediate(s: State, r: Reg8)
    requires
        s.pc.wrapping_add(1) < MEMORY_SIZE,
    ensures
        s.apply(Handler::LoadImmediate(r)) is Ok,
        s.apply(Handler::LoadImmediate(r))->Ok_0.get8(r) == s.mem[s.pc.wrapping_add(1) as int],
        s.apply(Handler::LoadImmediate(r))->Ok_0.pc == s.pc.wrapping_add(1),
        s.apply(Handler::LoadImmediate(r))->Ok_0.mem == s.mem,
{
}

/// A 16-bit immediate load reads its operand low byte first: the byte
/// right after the opcode is the low half, the next one the high half.
pub proof fn law_load_immediate_word(s: State, p: Reg16)
    requires
        s.pc.wrapping_add(1) < MEMORY_SIZE,
        s.pc.wrapping_add(2) < MEMORY_SIZE,
    ensures
        s.apply(Handler::LoadImmediateWord(p)) is Ok,
        s.apply(Handler::LoadImmediateWord(p))->Ok_0.get16(p) == word(
            s.mem[s.pc.wrapping_add(2) as int],
            s.mem[s.pc.wrapping_add(1) as int],
        ),
        s.apply(Handler::LoadImmediateWord(p))->Ok_0.pc == s.pc.wrapping_add(2),
        s.apply(Handler::LoadImmediateWord(p))->Ok_0.mem == s.mem,
{
    let low = s.mem[s.pc.wrapping_add(1) as int];
    let high = s.mem[s.pc.wrapping_add(2) as int];
    lemma_word_bytes(high, low, 0);
    let fetched = s.fetch_word()->Ok_0.0;
    law_set16_get16(fetched, p, word(high, low));
}

/// A push that succeeds, followed at once by a pop of the same register,
/// succeeds too and restores that register, the stack pointer and every
/// other register.
pub proof fn law_push_pop(s: State, p: Reg16)
    requires
        s.wf(),
        s.push(p) is Ok,
    ensures
        s.push(p)->Ok_0.pop(p) is Ok,
        s.push(p)->Ok_0.pop(p)->Ok_0.get16(p) == s.get16(p),
        s.push(p)->Ok_0.pop(p)->Ok_0.sp == s.sp,
        forall|r: Reg8| s.push(p)->Ok_0.pop(p)->Ok_0.get8(r) == s.get8(r),
{
    lemma_word_bytes(0, 0, s.get16(p));
    law_get16_set16(s, p);
    let pushed = s.push(p)->Ok_0;
    let high = pushed.load(pushed.sp)->Ok_0;
    let low = pushed.load(pushed.sp.wrapping_add(1))->Ok_0;
    assert(word(high, low) == s.get16(p));
}

/// A push moves the stack pointer down by two and writes the low byte just
/// below the old top and the high byte below that.
pub proof fn law_push_layout(s: State, p: Reg16)
    requires
        s.wf(),
        s.push(p) is Ok,
    ensures
        s.push(p)->Ok_0.sp == s.sp.wrapping_sub(2),
        s.push(p)->Ok_0.mem[s.sp.wrapping_sub(1) as int] == low_byte(s.get16(p)),
        s.push(p)->Ok_0.mem[s.sp.wrapping_sub(2) as int] == high_byte(s.get16(p)),
{
}

/// A handler that succeeds has moved the program counter past exactly as
/// many operand bytes as it declares, and keeps the memory at full length.
pub proof fn law_operands_consumed(s: State, handler: Handler)
    requires
        s.wf(),
        s.apply(handler) is Ok,
    ensures
        s.apply(handler)->Ok_0.pc == s.pc.wrapping_add(handler.operand_count() as u16),
        s.apply(handler)->Ok_0.wf(),
{
}

/// A cycle that succeeds never lowers the cycle counter, and raises it by
/// the instruction's cost unless the counter is at its maximum.
pub proof fn law_cycles_grow(s: State, table: Seq<Option<Instruction>>)
    requires
        s.step(table) is Ok,
    ensures
        s.step(table)->Ok_0.cycles >= s.cycles,
        !s.halted ==> s.step(table)->Ok_0.cycles == s.cycles.saturating_add(
            table[s.mem[s.pc as int] as int]->0.cycles as u64,
        ),
{
    if !s.halted {
        let ins = table[s.mem[s.pc as int] as int]->0;
        lemma_cycles_kept(s, ins.execute);
    }
}

/// No handler touches the cycle counter.
pub proof fn lemma_cycles_kept(s: State, handler: Handler)
    requires
        s.apply(handler) is Ok,
    ensures
        s.apply(handler)->Ok_0.cycles == s.cycles,
{
}

/// Over a whole run the cycle counter never decreases.
pub proof fn law_run_cycles_grow(s: State, table: Seq<Option<Instruction>>, budget: nat)
    ensures
        s.run(table, budget).cycles >= s.cycles,
    decreases budget,
{
    if budget > 0 && s.can_step(table) {
        law_cycles_grow(s, table);
        law_run_cycles_grow(s.step(table)->Ok_0, table, (budget - 1) as nat);
    }
}

/// A run never exceeds its budget, and when it ends before the budget is
/// spent the machine has halted or its next cycle fails.
pub proof fn law_run_stops(s: State, table: Seq<Option<Instruction>>, budget: nat)
    ensures
        s.run_length(table, budget) <= budget,
        s.run_length(table, budget) < budget ==> !s.run(table, budget).can_step(table),
    decreases budget,
{
    if budget > 0 && s.can_step(table) {
        law_run_stops(s.step(table)->Ok_0, table, (budget - 1) as nat);
    }
}

/// A run can be split: running `first + second` cycles is running `first`
/// and then `second` more from where that ended.
pub proof fn law_run_splits(s: State, table: Seq<Option<Instruction>>, first: nat, second: nat)
    ensures
        s.run(table, first + second) == s.run(table, first).run(table, second),
    decreases first,
{
    if first > 0 && s.can_step(table) {
        law_run_splits(s.step(table)->Ok_0, table, (first - 1) as nat, second);
    } else if first > 0 {
        law_stuck_stays(s, table, second);
        law_stuck_stays(s, table, first + second);
    }
}

/// A machine that cannot complete a cycle is left as it is by any run.
pub proof fn law_stuck_stays(s: State, table: Seq<Option<Instruction>>, budget: nat)
    requires
        !s.can_step(table),
    ensures
        s.run(table, budget) == s,
        s.run_length(table, budget) == 0,
{
}

/// An opcode without an instruction stops the loop: the cycle fails with
/// `UnknownOpcode` carrying that opcode and the program counter it was
/// fetched at, and a run from there completes no cycle and leaves the
/// machine as it is.
pub proof fn law_unknown_opcode(s: State, table: Seq<Option<Instruction>>, budget: nat)
    requires
        !s.halted,
        s.pc < MEMORY_SIZE,
        table[s.mem[s.pc as int] as int] is None,
    ensures
        s.step(table) == Err::<State, EmuError>(
            EmuError::UnknownOpcode { opcode: s.mem[s.pc as int], pc: s.pc },
        ),
        s.run(table, budget) == s,
        s.run_length(table, budget) == 0,
{
}

/// A halted machine completes no further cycle.
pub proof fn law_halted_stays(s: State, table: Seq<Option<Instruction>>, budget: nat)
    requires
        s.halted,
    ensures
        s.step(table) == Ok::<State, EmuError>(s),
        s.run(table, budget) == s,
        s.run_length(table, budget) == 0,
{
}

} // verus!
