//! Laws of the processor that relate several instructions or steps.

use vstd::prelude::*;
use crate::bits::even_parity;
use crate::cpu::{
    check_interrupt_spec, flags_after, put_flag, wrap16, CpuState, InterruptCheck, CYCLE_CEILING,
    FLAG_AC, FLAG_C, FLAG_INT, FLAG_P, FLAG_S, FLAG_Z, INT_END, INT_MID,
};
use crate::engine::{access_ok, execute, lemma_execute_keeps_controller_state, step_spec};
use crate::ram::LAST_WORD_ADDRESS;
use crate::instructions::{
    call_if, return_if, cc_spec, cm_spec, cnc_spec, cnz_spec, cp_spec, cpe_spec, cpo_spec, cz_spec,
    rc_spec, rm_spec, rnc_spec, rnz_spec, rp_spec, rpe_spec, rpo_spec, rz_spec, dcr_spec, inr_spec, mem_extra, pop_spec, push_spec, stack_pair, INC_FLAGS,
};
use crate::opcode::{instruction_of, Instr};

verus! {

proof fn lemma_flag_bit_facts(f: u8, bit: u8, mask: u8)
    by (bit_vector)
    ensures
        mask & FLAG_Z != 0 && bit & mask == 0 ==> ((f | FLAG_Z) & bit == f & bit && (f & !FLAG_Z)
            & bit == f & bit),
        mask & FLAG_C != 0 && bit & mask == 0 ==> ((f | FLAG_C) & bit == f & bit && (f & !FLAG_C)
            & bit == f & bit),
        mask & FLAG_P != 0 && bit & mask == 0 ==> ((f | FLAG_P) & bit == f & bit && (f & !FLAG_P)
            & bit == f & bit),
        mask & FLAG_S != 0 && bit & mask == 0 ==> ((f | FLAG_S) & bit == f & bit && (f & !FLAG_S)
            & bit == f & bit),
        mask & FLAG_AC != 0 && bit & mask == 0 ==> ((f | FLAG_AC) & bit == f & bit && (f
            & !FLAG_AC) & bit == f & bit),
{
}

/// An operation leaves every flag bit outside its mask as it was.
pub proof fn lemma_flags_outside_mask(f: u8, mask: u8, initial: u16, result: u16, bit: u8)
    requires
        bit & mask == 0,
    ensures
        flags_after(f, mask, initial, result) & bit == f & bit,
{
    let f1 = if mask & FLAG_Z != 0 { put_flag(f, FLAG_Z, result % 256 == 0) } else { f };
    let f2 = if mask & FLAG_C != 0 { put_flag(f1, FLAG_C, result > 255) } else { f1 };
    let f3 = if mask & FLAG_P != 0 {
        put_flag(f2, FLAG_P, even_parity((result % 256) as u8))
    } else {
        f2
    };
    let f4 = if mask & FLAG_S != 0 { put_flag(f3, FLAG_S, result & 0x80 != 0) } else { f3 };
    lemma_flag_bit_facts(f, bit, mask);
    lemma_flag_bit_facts(f1, bit, mask);
    lemma_flag_bit_facts(f2, bit, mask);
    lemma_flag_bit_facts(f3, bit, mask);
    lemma_flag_bit_facts(f4, bit, mask);
}

proof fn lemma_zero_flag_facts(f: u8)
    by (bit_vector)
    ensures
        (f | FLAG_Z) & FLAG_Z != 0,
        (f & !FLAG_Z) & FLAG_Z == 0,
        (f | FLAG_P) & FLAG_Z == f & FLAG_Z,
        (f & !FLAG_P) & FLAG_Z == f & FLAG_Z,
        (f | FLAG_S) & FLAG_Z == f & FLAG_Z,
        (f & !FLAG_S) & FLAG_Z == f & FLAG_Z,
        (f | FLAG_AC) & FLAG_Z == f & FLAG_Z,
        (f & !FLAG_AC) & FLAG_Z == f & FLAG_Z,
        INC_FLAGS & FLAG_Z != 0,
        INC_FLAGS & FLAG_C == 0,
        INC_FLAGS & FLAG_P != 0,
        INC_FLAGS & FLAG_S != 0,
        INC_FLAGS & FLAG_AC != 0,
        (FLAG_C | FLAG_INT) & INC_FLAGS == 0,
{
}

/// Increment and decrement set zero exactly when the low byte of their
/// result is 0.
proof fn lemma_inc_zero_flag(f: u8, initial: u16, result: u16)
    ensures
        (flags_after(f, INC_FLAGS, initial, result) & FLAG_Z != 0) == (result % 256 == 0),
{
    let f1 = put_flag(f, FLAG_Z, result % 256 == 0);
    let f3 = put_flag(f1, FLAG_P, even_parity((result % 256) as u8));
    let f4 = put_flag(f3, FLAG_S, result & 0x80 != 0);
    lemma_zero_flag_facts(f);
    lemma_zero_flag_facts(f1);
    lemma_zero_flag_facts(f3);
    lemma_zero_flag_facts(f4);
}

proof fn lemma_opcode_fields(r: u8, p: u8)
    by (bit_vector)
    requires
        r < 8,
        p < 4,
    ensures
        (((r * 8 + 4) as u8) >> 3u8) & 0x07 == r,
        (((r * 8 + 5) as u8) >> 3u8) & 0x07 == r,
        (((p * 16 + 0xC5) as u8) >> 4u8) & 0x03 == p,
        (((p * 16 + 0xC1) as u8) >> 4u8) & 0x03 == p,
{
}

proof fn lemma_reg_after_write(t: CpuState, r: u8, v: u8)
    requires
        t.mem.len() == 0x10000,
        r < 8,
    ensures
        t.set_reg(r, v).reg(r) == v,
        t.set_reg(r, v).mem.len() == 0x10000,
{
}

proof fn lemma_reg_ignores_opcode(s: CpuState, op: u8, r: u8)
    ensures
        (CpuState { current_opcode: op, ..s }).reg(r) == s.reg(r),
        (CpuState { current_opcode: op, ..s }).mem.len() == s.mem.len(),
{
}

proof fn lemma_inr_effect(s: CpuState, r: u8)
    requires
        s.mem.len() == 0x10000,
        r < 8,
        s.dst() == r,
    ensures
        inr_spec(s).reg(r) == (s.reg(r) + 1) % 256,
        inr_spec(s).flag(FLAG_Z) == (inr_spec(s).reg(r) == 0),
        inr_spec(s).mem.len() == 0x10000,
        inr_spec(s).f & (FLAG_C | FLAG_INT) == s.f & (FLAG_C | FLAG_INT),
{
    let curr = s.reg(r) as u16;
    let res = (curr + 1) as u16;
    let t = mem_extra(s, r, 5);
    assert(t.reg(r) == s.reg(r) && t.mem.len() == 0x10000);
    let t1 = t.set_reg(r, (res % 256) as u8);
    lemma_reg_after_write(t, r, (res % 256) as u8);
    lemma_inc_zero_flag(t1.f, curr, res);
    lemma_zero_flag_facts(s.f);
    lemma_flags_outside_mask(t1.f, INC_FLAGS, curr, res, FLAG_C | FLAG_INT);
    assert(inr_spec(s) == t1.update_flags(INC_FLAGS, curr, res));
}

proof fn lemma_dcr_effect(s: CpuState, r: u8)
    requires
        s.mem.len() == 0x10000,
        r < 8,
        s.dst() == r,
    ensures
        dcr_spec(s).reg(r) == (s.reg(r) + 255) % 256,
        dcr_spec(s).f & (FLAG_C | FLAG_INT) == s.f & (FLAG_C | FLAG_INT),
{
    let curr = s.reg(r) as u16;
    let res = wrap16(curr - 1);
    assert(res == if curr == 0 { 0xFFFFu16 } else { (curr - 1) as u16 });
    assert((res % 256) as u8 == (s.reg(r) + 255) % 256);
    let t = mem_extra(s, r, 5);
    assert(t.reg(r) == s.reg(r) && t.mem.len() == 0x10000);
    lemma_reg_after_write(t, r, (res % 256) as u8);
    lemma_zero_flag_facts(s.f);
    lemma_flags_outside_mask(
        t.set_reg(r, (res % 256) as u8).f,
        INC_FLAGS,
        curr,
        res,
        FLAG_C | FLAG_INT,
    );
    assert(dcr_spec(s) == t.set_reg(r, (res % 256) as u8).update_flags(INC_FLAGS, curr, res));
}

/// Incrementing any register, or the byte at HL, and then decrementing it
/// gives back the value it had; the increment wraps 0xFF to 0 and sets zero
/// exactly when its result is 0. Neither touches carry or interrupt enable.
#[verifier::rlimit(50)]
pub proof fn lemma_increment_then_decrement(s: CpuState, r: u8)
    requires
        s.mem.len() == 0x10000,
        r < 8,
    ensures
        ({
            let inc = inr_spec(CpuState { current_opcode: (r * 8 + 4) as u8, ..s });
            let dec = dcr_spec(CpuState { current_opcode: (r * 8 + 5) as u8, ..inc });
            &&& inc.reg(r) == (s.reg(r) + 1) % 256
            &&& inc.flag(FLAG_Z) == (inc.reg(r) == 0)
            &&& dec.reg(r) == s.reg(r)
            &&& inc.f & (FLAG_C | FLAG_INT) == s.f & (FLAG_C | FLAG_INT)
            &&& dec.f & (FLAG_C | FLAG_INT) == s.f & (FLAG_C | FLAG_INT)
        }),
{
    lemma_opcode_fields(r, 0);
    let s1 = CpuState { current_opcode: (r * 8 + 4) as u8, ..s };
    lemma_reg_ignores_opcode(s, (r * 8 + 4) as u8, r);
    lemma_inr_effect(s1, r);
    let inc = inr_spec(s1);
    let s2 = CpuState { current_opcode: (r * 8 + 5) as u8, ..inc };
    lemma_reg_ignores_opcode(inc, (r * 8 + 5) as u8, r);
    lemma_dcr_effect(s2, r);
    let v = s.reg(r);
    assert(((v + 1) % 256 + 255) % 256 == v);
}

/// Pushing any register pair, or the accumulator with the flags, and then
/// popping it gives back every register and the stack pointer. Left out is
/// a stack pointer of 1, where the push would write a word at 0xFFFF and
/// faults.
#[verifier::rlimit(50)]
pub proof fn lemma_push_then_pop(s: CpuState, p: u8)
    requires
        s.mem.len() == 0x10000,
        p < 4,
        s.sp != 1,
    ensures
        ({
            let pushed = push_spec(CpuState { current_opcode: (p * 16 + 0xC5) as u8, ..s });
            let popped = pop_spec(CpuState { current_opcode: (p * 16 + 0xC1) as u8, ..pushed });
            &&& popped.pair(stack_pair(p)) == s.pair(stack_pair(p))
            &&& popped.sp == s.sp
            &&& popped == CpuState { mem: popped.mem, current_opcode: popped.current_opcode, ..s }
        }),
{
    lemma_opcode_fields(0, p);
}

/// From reset, where no interrupt came before, the first interrupt
/// dispatched goes to the end-of-screen vector, however many instructions
/// ran before it.
pub proof fn lemma_first_interrupt_is_end(s: CpuState, n: nat, t: CpuState)
    requires
        s.last_interrupt == INT_MID,
        steps(s, n) == Some(t),
        check_interrupt_spec(t).1 is Fired,
    ensures
        check_interrupt_spec(t).1 == InterruptCheck::Fired(INT_END),
        check_interrupt_spec(t).0.pc == INT_END,
{
    lemma_steps_keep_phase(s, n);
}

/// The interrupt dispatched after any one goes to the other vector, however
/// many instructions ran between them: end of screen and mid screen
/// alternate. Checks that dispatch nothing keep the phase too (see
/// `lemma_phase_kept_between_interrupts`).
pub proof fn lemma_interrupts_alternate(s: CpuState, n: nat, t: CpuState)
    requires
        check_interrupt_spec(s).1 is Fired,
        steps(check_interrupt_spec(s).0, n) == Some(t),
        check_interrupt_spec(t).1 is Fired,
    ensures
        check_interrupt_spec(s).0.pc == INT_END || check_interrupt_spec(s).0.pc == INT_MID,
        check_interrupt_spec(t).0.pc == INT_END || check_interrupt_spec(t).0.pc == INT_MID,
        check_interrupt_spec(t).0.pc != check_interrupt_spec(s).0.pc,
        check_interrupt_spec(s).1 == InterruptCheck::Fired(check_interrupt_spec(s).0.pc),
        check_interrupt_spec(t).1 == InterruptCheck::Fired(check_interrupt_spec(t).0.pc),
{
    lemma_steps_keep_phase(check_interrupt_spec(s).0, n);
}

/// Instructions, and checks that dispatch no interrupt, keep the phase of
/// the interrupt alternation.
pub proof fn lemma_phase_kept_between_interrupts(s: CpuState)
    ensures
        step_spec(s) matches Ok(t) ==> t.last_interrupt == s.last_interrupt,
        !(check_interrupt_spec(s).1 is Fired) ==> check_interrupt_spec(s).0.last_interrupt
            == s.last_interrupt,
{
    let op = s.mem[s.pc as int];
    if let Some((i, cost)) = instruction_of(op) {
        lemma_execute_keeps_controller_state(CpuState { current_opcode: op, ..s.skip(1) }, i);
    }
}

/// The state after `n` instructions, or `None` when one of them meets an
/// opcode with no instruction assigned.
pub open spec fn steps(s: CpuState, n: nat) -> Option<CpuState>
    decreases n,
{
    if n == 0 {
        Some(s)
    } else {
        match step_spec(s) {
            Ok(t) => steps(t, (n - 1) as nat),
            Err(_) => None,
        }
    }
}

/// Any number of instructions keeps the phase of the interrupt alternation.
pub proof fn lemma_steps_keep_phase(s: CpuState, n: nat)
    ensures
        steps(s, n) matches Some(t) ==> t.last_interrupt == s.last_interrupt,
    decreases n,
{
    if n > 0 {
        lemma_phase_kept_between_interrupts(s);
        if let Ok(t) = step_spec(s) {
            lemma_steps_keep_phase(t, (n - 1) as nat);
        }
    }
}

/// A conditional call: bits 0 to 2 of the opcode read 4.
pub open spec fn is_conditional_call(op: u8) -> bool {
    op >= 0xC0 && op % 8 == 4
}

/// A conditional return: bits 0 to 2 of the opcode read 0.
pub open spec fn is_conditional_return(op: u8) -> bool {
    op >= 0xC0 && op % 8 == 0
}

/// The condition that bits 3 to 5 of a conditional opcode name, in order:
/// not zero, zero, no carry, carry, parity odd, parity even, plus, minus.
pub open spec fn condition_holds(op: u8, f: u8) -> bool {
    let cc = (op / 8) % 8;
    let flag = if cc / 2 == 0 {
        FLAG_Z
    } else if cc / 2 == 1 {
        FLAG_C
    } else if cc / 2 == 2 {
        FLAG_P
    } else {
        FLAG_S
    };
    (f & flag != 0) == (cc % 2 == 1)
}

/// The effect of a conditional call or return on a state whose program
/// counter is past the opcode.
pub open spec fn conditional_effect(x: CpuState, op: u8) -> CpuState {
    if is_conditional_call(op) {
        call_if(x, condition_holds(op, x.f))
    } else {
        return_if(x, condition_holds(op, x.f))
    }
}

#[verifier::rlimit(50)]
proof fn lemma_conditional_entry(x: CpuState, op: u8)
    requires
        is_conditional_call(op) || is_conditional_return(op),
    ensures
        instruction_of(op) matches Some((i, cost)) && execute(x, i) == conditional_effect(x, op)
            && cost == (if is_conditional_call(op) {
            11u32
        } else {
            5u32
        }) && access_ok(x, i) == conditional_access_ok(x, op),
{
    reveal(instruction_of);
    reveal(execute);
    if is_conditional_call(op) {
        assert(op == 0xC4 || op == 0xCC || op == 0xD4 || op == 0xDC || op == 0xE4 || op == 0xEC
            || op == 0xF4 || op == 0xFC);
    } else {
        assert(op == 0xC0 || op == 0xC8 || op == 0xD0 || op == 0xD8 || op == 0xE0 || op == 0xE8
            || op == 0xF0 || op == 0xF8);
    }
    if op == 0xC4 {
        assert(instruction_of(op) == Some((Instr::Cnz, 11u32)));
        assert(execute(x, Instr::Cnz) == cnz_spec(x));
    } else if op == 0xCC {
        assert(instruction_of(op) == Some((Instr::Cz, 11u32)));
        assert(execute(x, Instr::Cz) == cz_spec(x));
    } else if op == 0xD4 {
        assert(instruction_of(op) == Some((Instr::Cnc, 11u32)));
        assert(execute(x, Instr::Cnc) == cnc_spec(x));
    } else if op == 0xDC {
        assert(instruction_of(op) == Some((Instr::Cc, 11u32)));
        assert(execute(x, Instr::Cc) == cc_spec(x));
    } else if op == 0xE4 {
        assert(instruction_of(op) == Some((Instr::Cpo, 11u32)));
        assert(execute(x, Instr::Cpo) == cpo_spec(x));
    } else if op == 0xEC {
        assert(instruction_of(op) == Some((Instr::Cpe, 11u32)));
        assert(execute(x, Instr::Cpe) == cpe_spec(x));
    } else if op == 0xF4 {
        assert(instruction_of(op) == Some((Instr::Cp, 11u32)));
        assert(execute(x, Instr::Cp) == cp_spec(x));
    } else if op == 0xFC {
        assert(instruction_of(op) == Some((Instr::Cm, 11u32)));
        assert(execute(x, Instr::Cm) == cm_spec(x));
    } else if op == 0xC0 {
        assert(instruction_of(op) == Some((Instr::Rnz, 5u32)));
        assert(execute(x, Instr::Rnz) == rnz_spec(x));
    } else if op == 0xC8 {
        assert(instruction_of(op) == Some((Instr::Rz, 5u32)));
        assert(execute(x, Instr::Rz) == rz_spec(x));
    } else if op == 0xD0 {
        assert(instruction_of(op) == Some((Instr::Rnc, 5u32)));
        assert(execute(x, Instr::Rnc) == rnc_spec(x));
    } else if op == 0xD8 {
        assert(instruction_of(op) == Some((Instr::Rc, 5u32)));
        assert(execute(x, Instr::Rc) == rc_spec(x));
    } else if op == 0xE0 {
        assert(instruction_of(op) == Some((Instr::Rpo, 5u32)));
        assert(execute(x, Instr::Rpo) == rpo_spec(x));
    } else if op == 0xE8 {
        assert(instruction_of(op) == Some((Instr::Rpe, 5u32)));
        assert(execute(x, Instr::Rpe) == rpe_spec(x));
    } else if op == 0xF0 {
        assert(instruction_of(op) == Some((Instr::Rp, 5u32)));
        assert(execute(x, Instr::Rp) == rp_spec(x));
    } else if op == 0xF8 {
        assert(instruction_of(op) == Some((Instr::Rm, 5u32)));
        assert(execute(x, Instr::Rm) == rm_spec(x));
    }
}

/// Whether the words a conditional call or return touches lie in the
/// address space: a call reads its immediate word, and pushes only when
/// its condition holds; a return pops only when its condition holds.
pub open spec fn conditional_access_ok(x: CpuState, op: u8) -> bool {
    if is_conditional_call(op) {
        x.pc <= LAST_WORD_ADDRESS && (condition_holds(op, x.f) ==> x.sp != 1)
    } else {
        condition_holds(op, x.f) ==> x.sp <= LAST_WORD_ADDRESS
    }
}

/// Every conditional call and return, as the dispatch table runs it, costs
/// six cycles more when its condition holds than when it does not: 17
/// against 11 for a call, 11 against 5 for a return.
pub proof fn lemma_conditional_instruction_cost(x: CpuState, op: u8)
    requires
        x.cycles <= CYCLE_CEILING,
        is_conditional_call(op) || is_conditional_return(op),
    ensures
        instruction_of(op) matches Some((i, cost)) && execute(x, i).add_cycles(cost).cycles
            == x.cycles + (if is_conditional_call(op) {
            11int
        } else {
            5int
        }) + (if condition_holds(op, x.f) {
            6int
        } else {
            0int
        }),
{
    lemma_conditional_entry(x, op);
}

/// The same at the level of one step: the whole step, fetch included, costs
/// six cycles more when the condition holds. Left out are only the states
/// in which the step faults because a word it touches would lie at 0xFFFF.
pub proof fn lemma_conditional_cost(s: CpuState, op: u8)
    requires
        s.mem.len() == 0x10000,
        s.mem[s.pc as int] == op,
        s.cycles <= CYCLE_CEILING,
        is_conditional_call(op) || is_conditional_return(op),
        conditional_access_ok(CpuState { current_opcode: op, ..s.skip(1) }, op),
    ensures
        step_spec(s) matches Ok(t) && t.cycles == s.cycles + (if is_conditional_call(op) {
            11int
        } else {
            5int
        }) + (if condition_holds(op, s.f) {
            6int
        } else {
            0int
        }),
{
    let x = CpuState { current_opcode: op, ..s.skip(1) };
    lemma_conditional_entry(x, op);
}

/// The opcodes with no instruction assigned: 0x76, and from 0xC0 on the
/// eight whose low three bits are all set.
#[verifier::rlimit(50)]
pub proof fn lemma_unassigned_opcodes(op: u8)
    ensures
        instruction_of(op) is None <==> (op == 0x76 || (op >= 0xC0 && op % 8 == 7)),
{
    reveal(instruction_of);
}

} // verus!
