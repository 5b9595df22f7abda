//! The instruction set. Each instruction runs with the program counter just
//! past its opcode, and its effect on the processor state is stated by a
//! spec function over `CpuState` of the same name with `_spec` appended.

use vstd::prelude::*;
use crate::bits::{u8_to_u16, word};
use crate::cpu::{
    flags_after, put_flag, wrap16, Cpu, CpuState, CYCLE_CEILING, FLAG_AC, FLAG_C, FLAG_INT, FLAG_P,
    FLAG_S, FLAG_Z, REG_A, REG_DE, REG_HL, REG_M, REG_PSW, REG_SP,
};
use crate::opcode::Opcode;
use crate::ram::{store_word, word_at, LAST_WORD_ADDRESS};

verus! {

/// Flags of the arithmetic and logical group.
pub const ARITH_FLAGS: u8 = FLAG_S | FLAG_AC | FLAG_Z | FLAG_P | FLAG_C;
/// Flags of increment and decrement: all but carry.
pub const INC_FLAGS: u8 = FLAG_S | FLAG_AC | FLAG_Z | FLAG_P;
/// Flags of decimal adjust that follow its final byte.
pub const DAA_FLAGS: u8 = FLAG_S | FLAG_Z | FLAG_P;
/// Flags of exclusive-or with an immediate that follow its result.
pub const XRI_FLAGS: u8 = FLAG_S | FLAG_Z | FLAG_P;

/// Extra cycles an instruction takes when its register `r` is memory.
pub open spec fn mem_extra(s: CpuState, r: u8, n: u32) -> CpuState {
    if r == REG_M {
        s.add_cycles(n)
    } else {
        s
    }
}

/// The byte read from the shift register: eight bits of the 16-bit value
/// `hi:lo`, starting `amount` bits below its top.
pub open spec fn shift_read(hi: u8, lo: u8, amount: u8) -> u8 {
    ((word(lo, hi) >> ((8 - amount) as u16)) % 256) as u8
}

// ---- Misc ----

pub open spec fn nop_spec(s: CpuState) -> CpuState {
    s
}

pub fn nop(state: &mut Cpu)
    requires
        old(state).wf(),
    ensures
        final(state).wf(),
        final(state)@ == nop_spec(old(state)@),
{
}

pub open spec fn ei_spec(s: CpuState) -> CpuState {
    s.with_f(put_flag(s.f, FLAG_INT, true))
}

/// Enables interrupts.
pub fn ei(state: &mut Cpu)
    requires
        old(state).wf(),
    ensures
        final(state).wf(),
        final(state)@ == ei_spec(old(state)@),
{
    state.f = state.f | FLAG_INT;
}

pub open spec fn di_spec(s: CpuState) -> CpuState {
    s.with_f(put_flag(s.f, FLAG_INT, false))
}

/// Disables interrupts.
pub fn di(state: &mut Cpu)
    requires
        old(state).wf(),
    ensures
        final(state).wf(),
        final(state)@ == di_spec(old(state)@),
{
    state.f = state.f & !FLAG_INT;
}

// ---- Input and output ----

/// Port 1 and 2 read the switch bytes, port 3 the shift register; the
/// others read nothing.
pub open spec fn inp_spec(s: CpuState) -> CpuState {
    let port = s.imm8();
    let t = s.skip(1);
    if port == 1 {
        t.with_a(s.inp1)
    } else if port == 2 {
        t.with_a(s.inp2)
    } else if port == 3 {
        t.with_a(shift_read(s.port4hi, s.port4lo, s.port2 % 8))
    } else {
        t
    }
}

pub fn inp(state: &mut Cpu)
    requires
        old(state).wf(),
    ensures
        final(state).wf(),
        final(state)@ == inp_spec(old(state)@),
{
    let port = state.read_im_byte();
    match port {
        0x01 => {
            let inp1 = state.inp1;
            state.write_byte(REG_A, inp1);
        },
        0x02 => {
            let inp2 = state.inp2;
            state.write_byte(REG_A, inp2);
        },
        0x03 => {
            let shift = state.port2 % 8;
            let value = u8_to_u16(state.port4lo, state.port4hi);
            let result = ((value >> (8 - shift) as u16) % 256) as u8;
            state.write_byte(REG_A, result);
        },
        _ => {},
    }
}

/// Port 2 latches the shift amount, port 4 shifts a byte into the high half
/// of the shift register, ports 3 and 5 take the sound bits; the others
/// take nothing.
pub open spec fn out_spec(s: CpuState) -> CpuState {
    let port = s.imm8();
    let t = s.skip(1);
    if port == 2 {
        CpuState { port2: s.a % 8, ..t }
    } else if port == 3 {
        CpuState { port3o: s.a, ..t }
    } else if port == 4 {
        CpuState { port4lo: s.port4hi, port4hi: s.a, ..t }
    } else if port == 5 {
        CpuState { port5o: s.a, ..t }
    } else {
        t
    }
}

pub fn out(state: &mut Cpu)
    requires
        old(state).wf(),
    ensures
        final(state).wf(),
        final(state)@ == out_spec(old(state)@),
{
    let port = state.read_im_byte();
    match port {
        0x02 => {
            state.port2 = state.a % 8;
        },
        0x03 => {
            state.port3o = state.a;
        },
        0x04 => {
            let port4hi = state.port4hi;
            let a = state.a;
            state.port4lo = port4hi;
            state.port4hi = a;
        },
        0x05 => {
            state.port5o = state.a;
        },
        _ => {},
    }
}

// ---- Jumps ----

/// A jump to the immediate address when `cond` holds; the address is
/// consumed either way.
pub open spec fn jump_if(s: CpuState, cond: bool) -> CpuState {
    if cond {
        s.with_pc(s.imm16())
    } else {
        s.skip(2)
    }
}

pub open spec fn jmp_spec(s: CpuState) -> CpuState {
    jump_if(s, true)
}

pub fn jmp(state: &mut Cpu)
    requires
        old(state).wf(),
        old(state).pc <= LAST_WORD_ADDRESS,
    ensures
        final(state).wf(),
        final(state)@ == jmp_spec(old(state)@),
{
    let dest = state.read_im_dword();
    state.pc = dest;
}

/// Jumps when `flag` reads `when`.
fn jump_on(state: &mut Cpu, flag: u8, when: bool)
    requires
        old(state).wf(),
        flag == FLAG_Z || flag == FLAG_C || flag == FLAG_P || flag == FLAG_S,
        old(state).pc <= LAST_WORD_ADDRESS,
    ensures
        final(state).wf(),
        final(state)@ == jump_if(old(state)@, old(state)@.flag(flag) == when),
{
    let address = state.read_im_dword();
    if state.read_flag(flag) == when {
        state.pc = address;
    }
}

pub open spec fn jm_spec(s: CpuState) -> CpuState {
    jump_if(s, s.flag(FLAG_S))
}

pub fn jm(state: &mut Cpu)
    requires
        old(state).wf(),
        old(state).pc <= LAST_WORD_ADDRESS,
    ensures
        final(state).wf(),
        final(state)@ == jm_spec(old(state)@),
{
    jump_on(state, FLAG_S, true);
}

pub open spec fn jp_spec(s: CpuState) -> CpuState {
    jump_if(s, !s.flag(FLAG_S))
}

pub fn jp(state: &mut Cpu)
    requires
        old(state).wf(),
        old(state).pc <= LAST_WORD_ADDRESS,
    ensures
        final(state).wf(),
        final(state)@ == jp_spec(old(state)@),
{
    jump_on(state, FLAG_S, false);
}

pub open spec fn jnz_spec(s: CpuState) -> CpuState {
    jump_if(s, !s.flag(FLAG_Z))
}

pub fn jnz(state: &mut Cpu)
    requires
        old(state).wf(),
        old(state).pc <= LAST_WORD_ADDRESS,
    ensures
        final(state).wf(),
        final(state)@ == jnz_spec(old(state)@),
{
    jump_on(state, FLAG_Z, false);
}

pub open spec fn jz_spec(s: CpuState) -> CpuState {
    jump_if(s, s.flag(FLAG_Z))
}

pub fn jz(state: &mut Cpu)
    requires
        old(state).wf(),
        old(state).pc <= LAST_WORD_ADDRESS,
    ensures
        final(state).wf(),
        final(state)@ == jz_spec(old(state)@),
{
    jump_on(state, FLAG_Z, true);
}

pub open spec fn jc_spec(s: CpuState) -> CpuState {
    jump_if(s, s.flag(FLAG_C))
}

pub fn jc(state: &mut Cpu)
    requires
        old(state).wf(),
        old(state).pc <= LAST_WORD_ADDRESS,
    ensures
        final(state).wf(),
        final(state)@ == jc_spec(old(state)@),
{
    jump_on(state, FLAG_C, true);
}

pub open spec fn jnc_spec(s: CpuState) -> CpuState {
    jump_if(s, !s.flag(FLAG_C))
}

pub fn jnc(state: &mut Cpu)
    requires
        old(state).wf(),
        old(state).pc <= LAST_WORD_ADDRESS,
    ensures
        final(state).wf(),
        final(state)@ == jnc_spec(old(state)@),
{
    jump_on(state, FLAG_C, false);
}

pub open spec fn jpe_spec(s: CpuState) -> CpuState {
    jump_if(s, s.flag(FLAG_P))
}

pub fn jpe(state: &mut Cpu)
    requires
        old(state).wf(),
        old(state).pc <= LAST_WORD_ADDRESS,
    ensures
        final(state).wf(),
        final(state)@ == jpe_spec(old(state)@),
{
    jump_on(state, FLAG_P, true);
}

pub open spec fn jpo_spec(s: CpuState) -> CpuState {
    jump_if(s, !s.flag(FLAG_P))
}

pub fn jpo(state: &mut Cpu)
    requires
        old(state).wf(),
        old(state).pc <= LAST_WORD_ADDRESS,
    ensures
        final(state).wf(),
        final(state)@ == jpo_spec(old(state)@),
{
    jump_on(state, FLAG_P, false);
}

// ---- Calls ----

/// A call to the immediate address: the address of the next instruction is
/// pushed first.
pub open spec fn call_to(s: CpuState) -> CpuState {
    let next = s.skip(2);
    next.push(next.pc).with_pc(s.imm16())
}

/// A call when `cond` holds, which then takes six more cycles.
pub open spec fn call_if(s: CpuState, cond: bool) -> CpuState {
    if cond {
        call_to(s).add_cycles(6)
    } else {
        s.skip(2)
    }
}

pub open spec fn call_spec(s: CpuState) -> CpuState {
    call_to(s)
}

pub fn call(state: &mut Cpu)
    requires
        old(state).wf(),
        old(state).pc <= LAST_WORD_ADDRESS,
        old(state).sp != 1,
    ensures
        final(state).wf(),
        final(state)@ == call_spec(old(state)@),
{
    let address = state.read_im_dword();
    let pc = state.pc;
    state.push_stack(pc);
    state.pc = address;
}

/// Calls when `flag` reads `when`.
fn call_on(state: &mut Cpu, flag: u8, when: bool)
    requires
        old(state).wf(),
        old(state).cycles <= CYCLE_CEILING,
        flag == FLAG_Z || flag == FLAG_C || flag == FLAG_P || flag == FLAG_S,
        old(state).pc <= LAST_WORD_ADDRESS,
        old(state)@.flag(flag) == when ==> old(state).sp != 1,
    ensures
        final(state).wf(),
        final(state)@ == call_if(old(state)@, old(state)@.flag(flag) == when),
{
    let address = state.read_im_dword();
    if state.read_flag(flag) == when {
        let pc = state.pc;
        state.push_stack(pc);
        state.pc = address;
        state.cycles = state.cycles + 6;
    }
}

pub open spec fn cnz_spec(s: CpuState) -> CpuState {
    call_if(s, !s.flag(FLAG_Z))
}

pub fn cnz(state: &mut Cpu)
    requires
        old(state).wf(),
        old(state).cycles <= CYCLE_CEILING,
        old(state).pc <= LAST_WORD_ADDRESS,
        !old(state)@.flag(FLAG_Z) ==> old(state).sp != 1,
    ensures
        final(state).wf(),
        final(state)@ == cnz_spec(old(state)@),
{
    call_on(state, FLAG_Z, false);
}

pub open spec fn cz_spec(s: CpuState) -> CpuState {
    call_if(s, s.flag(FLAG_Z))
}

pub fn cz(state: &mut Cpu)
    requires
        old(state).wf(),
        old(state).cycles <= CYCLE_CEILING,
        old(state).pc <= LAST_WORD_ADDRESS,
        old(state)@.flag(FLAG_Z) ==> old(state).sp != 1,
    ensures
        final(state).wf(),
        final(state)@ == cz_spec(old(state)@),
{
    call_on(state, FLAG_Z, true);
}

pub open spec fn cnc_spec(s: CpuState) -> CpuState {
    call_if(s, !s.flag(FLAG_C))
}

pub fn cnc(state: &mut Cpu)
    requires
        old(state).wf(),
        old(state).cycles <= CYCLE_CEILING,
        old(state).pc <= LAST_WORD_ADDRESS,
        !old(state)@.flag(FLAG_C) ==> old(state).sp != 1,
    ensures
        final(state).wf(),
        final(state)@ == cnc_spec(old(state)@),
{
    call_on(state, FLAG_C, false);
}

pub open spec fn cc_spec(s: CpuState) -> CpuState {
    call_if(s, s.flag(FLAG_C))
}

pub fn cc(state: &mut Cpu)
    requires
        old(state).wf(),
        old(state).cycles <= CYCLE_CEILING,
        old(state).pc <= LAST_WORD_ADDRESS,
        old(state)@.flag(FLAG_C) ==> old(state).sp != 1,
    ensures
        final(state).wf(),
        final(state)@ == cc_spec(old(state)@),
{
    call_on(state, FLAG_C, true);
}

pub open spec fn cpo_spec(s: CpuState) -> CpuState {
    call_if(s, !s.flag(FLAG_P))
}

pub fn cpo(state: &mut Cpu)
    requires
        old(state).wf(),
        old(state).cycles <= CYCLE_CEILING,
        old(state).pc <= LAST_WORD_ADDRESS,
        !old(state)@.flag(FLAG_P) ==> old(state).sp != 1,
    ensures
        final(state).wf(),
        final(state)@ == cpo_spec(old(state)@),
{
    call_on(state, FLAG_P, false);
}

pub open spec fn cpe_spec(s: CpuState) -> CpuState {
    call_if(s, s.flag(FLAG_P))
}

pub fn cpe(state: &mut Cpu)
    requires
        old(state).wf(),
        old(state).cycles <= CYCLE_CEILING,
        old(state).pc <= LAST_WORD_ADDRESS,
        old(state)@.flag(FLAG_P) ==> old(state).sp != 1,
    ensures
        final(state).wf(),
        final(state)@ == cpe_spec(old(state)@),
{
    call_on(state, FLAG_P, true);
}

pub open spec fn cp_spec(s: CpuState) -> CpuState {
    call_if(s, !s.flag(FLAG_S))
}

pub fn cp(state: &mut Cpu)
    requires
        old(state).wf(),
        old(state).cycles <= CYCLE_CEILING,
        old(state).pc <= LAST_WORD_ADDRESS,
        !old(state)@.flag(FLAG_S) ==> old(state).sp != 1,
    ensures
        final(state).wf(),
        final(state)@ == cp_spec(old(state)@),
{
    call_on(state, FLAG_S, false);
}

pub open spec fn cm_spec(s: CpuState) -> CpuState {
    call_if(s, s.flag(FLAG_S))
}

pub fn cm(state: &mut Cpu)
    requires
        old(state).wf(),
        old(state).cycles <= CYCLE_CEILING,
        old(state).pc <= LAST_WORD_ADDRESS,
        old(state)@.flag(FLAG_S) ==> old(state).sp != 1,
    ensures
        final(state).wf(),
        final(state)@ == cm_spec(old(state)@),
{
    call_on(state, FLAG_S, true);
}

// ---- Returns ----

/// A return: the program counter is popped.
pub open spec fn ret_spec(s: CpuState) -> CpuState {
    s.popped().with_pc(s.top())
}

/// A return when `cond` holds, which then takes six more cycles.
pub open spec fn return_if(s: CpuState, cond: bool) -> CpuState {
    if cond {
        ret_spec(s).add_cycles(6)
    } else {
        s
    }
}

pub fn ret(state: &mut Cpu)
    requires
        old(state).wf(),
        old(state).sp <= LAST_WORD_ADDRESS,
    ensures
        final(state).wf(),
        final(state)@ == ret_spec(old(state)@),
{
    let address = state.pop_stack();
    state.pc = address;
}

/// Returns when `flag` reads `when`.
fn return_on(state: &mut Cpu, flag: u8, when: bool)
    requires
        old(state).wf(),
        old(state).cycles <= CYCLE_CEILING,
        flag == FLAG_Z || flag == FLAG_C || flag == FLAG_P || flag == FLAG_S,
        old(state)@.flag(flag) == when ==> old(state).sp <= LAST_WORD_ADDRESS,
    ensures
        final(state).wf(),
        final(state)@ == return_if(old(state)@, old(state)@.flag(flag) == when),
{
    if state.read_flag(flag) == when {
        let address = state.pop_stack();
        state.pc = address;
        state.cycles = state.cycles + 6;
    }
}

pub open spec fn rz_spec(s: CpuState) -> CpuState {
    return_if(s, s.flag(FLAG_Z))
}

pub fn rz(state: &mut Cpu)
    requires
        old(state).wf(),
        old(state).cycles <= CYCLE_CEILING,
        old(state)@.flag(FLAG_Z) ==> old(state).sp <= LAST_WORD_ADDRESS,
    ensures
        final(state).wf(),
        final(state)@ == rz_spec(old(state)@),
{
    return_on(state, FLAG_Z, true);
}

pub open spec fn rnz_spec(s: CpuState) -> CpuState {
    return_if(s, !s.flag(FLAG_Z))
}

pub fn rnz(state: &mut Cpu)
    requires
        old(state).wf(),
        old(state).cycles <= CYCLE_CEILING,
        !old(state)@.flag(FLAG_Z) ==> old(state).sp <= LAST_WORD_ADDRESS,
    ensures
        final(state).wf(),
        final(state)@ == rnz_spec(old(state)@),
{
    return_on(state, FLAG_Z, false);
}

pub open spec fn rc_spec(s: CpuState) -> CpuState {
    return_if(s, s.flag(FLAG_C))
}

pub fn rc(state: &mut Cpu)
    requires
        old(state).wf(),
        old(state).cycles <= CYCLE_CEILING,
        old(state)@.flag(FLAG_C) ==> old(state).sp <= LAST_WORD_ADDRESS,
    ensures
        final(state).wf(),
        final(state)@ == rc_spec(old(state)@),
{
    return_on(state, FLAG_C, true);
}

pub open spec fn rnc_spec(s: CpuState) -> CpuState {
    return_if(s, !s.flag(FLAG_C))
}

pub fn rnc(state: &mut Cpu)
    requires
        old(state).wf(),
        old(state).cycles <= CYCLE_CEILING,
        !old(state)@.flag(FLAG_C) ==> old(state).sp <= LAST_WORD_ADDRESS,
    ensures
        final(state).wf(),
        final(state)@ == rnc_spec(old(state)@),
{
    return_on(state, FLAG_C, false);
}

pub open spec fn rpe_spec(s: CpuState) -> CpuState {
    return_if(s, s.flag(FLAG_P))
}

pub fn rpe(state: &mut Cpu)
    requires
        old(state).wf(),
        old(state).cycles <= CYCLE_CEILING,
        old(state)@.flag(FLAG_P) ==> old(state).sp <= LAST_WORD_ADDRESS,
    ensures
        final(state).wf(),
        final(state)@ == rpe_spec(old(state)@),
{
    return_on(state, FLAG_P, true);
}

pub open spec fn rpo_spec(s: CpuState) -> CpuState {
    return_if(s, !s.flag(FLAG_P))
}

pub fn rpo(state: &mut Cpu)
    requires
        old(state).wf(),
        old(state).cycles <= CYCLE_CEILING,
        !old(state)@.flag(FLAG_P) ==> old(state).sp <= LAST_WORD_ADDRESS,
    ensures
        final(state).wf(),
        final(state)@ == rpo_spec(old(state)@),
{
    return_on(state, FLAG_P, false);
}

pub open spec fn rm_spec(s: CpuState) -> CpuState {
    return_if(s, s.flag(FLAG_S))
}

pub fn rm(state: &mut Cpu)
    requires
        old(state).wf(),
        old(state).cycles <= CYCLE_CEILING,
        old(state)@.flag(FLAG_S) ==> old(state).sp <= LAST_WORD_ADDRESS,
    ensures
        final(state).wf(),
        final(state)@ == rm_spec(old(state)@),
{
    return_on(state, FLAG_S, true);
}

pub open spec fn rp_spec(s: CpuState) -> CpuState {
    return_if(s, !s.flag(FLAG_S))
}

pub fn rp(state: &mut Cpu)
    requires
        old(state).wf(),
        old(state).cycles <= CYCLE_CEILING,
        !old(state)@.flag(FLAG_S) ==> old(state).sp <= LAST_WORD_ADDRESS,
    ensures
        final(state).wf(),
        final(state)@ == rp_spec(old(state)@),
{
    return_on(state, FLAG_S, false);
}

// ---- Loads and stores ----

pub open spec fn lxi_spec(s: CpuState) -> CpuState {
    s.skip(2).set_pair(s.rp(), s.imm16())
}

/// Loads a register pair, or the stack pointer, with the immediate word.
pub fn lxi(state: &mut Cpu)
    requires
        old(state).wf(),
        old(state).pc <= LAST_WORD_ADDRESS,
    ensures
        final(state).wf(),
        final(state)@ == lxi_spec(old(state)@),
{
    let im = state.read_im_dword();
    let dst = Opcode::new(state.current_opcode).pair();
    state.write_dword(dst, im);
}

pub open spec fn mvi_spec(s: CpuState) -> CpuState {
    mem_extra(s.skip(1), s.dst(), 3).set_reg(s.dst(), s.imm8())
}

/// Loads a register, or memory at HL, with the immediate byte.
pub fn mvi(state: &mut Cpu)
    requires
        old(state).wf(),
        old(state).cycles <= CYCLE_CEILING,
    ensures
        final(state).wf(),
        final(state)@ == mvi_spec(old(state)@),
{
    let im = state.read_im_byte();
    let dst = Opcode::new(state.current_opcode).dst();
    if dst == REG_M {
        state.cycles = state.cycles + 3;
    }
    state.write_byte(dst, im);
}

pub open spec fn shld_spec(s: CpuState) -> CpuState {
    CpuState { mem: store_word(s.mem, s.imm16(), s.hl()), ..s.skip(2) }
}

/// Stores HL at the immediate address.
pub fn shld(state: &mut Cpu)
    requires
        old(state).wf(),
        old(state).pc <= LAST_WORD_ADDRESS,
        old(state)@.imm16() <= LAST_WORD_ADDRESS,
    ensures
        final(state).wf(),
        final(state)@ == shld_spec(old(state)@),
{
    let address = state.read_im_dword();
    let value = state.read_dword(REG_HL);
    let _ = state.ram.write_dword(address, value);
}

pub open spec fn lhld_spec(s: CpuState) -> CpuState {
    s.skip(2).set_pair(REG_HL, word_at(s.mem, s.imm16()))
}

/// Loads HL from the immediate address.
pub fn lhld(state: &mut Cpu)
    requires
        old(state).wf(),
        old(state).pc <= LAST_WORD_ADDRESS,
        old(state)@.imm16() <= LAST_WORD_ADDRESS,
    ensures
        final(state).wf(),
        final(state)@ == lhld_spec(old(state)@),
{
    let address = state.read_im_dword();
    let value = match state.ram.read_dword(address) {
        Ok(value) => value,
        Err(_) => 0,  // not reached: the word lies in the address space
    };
    state.write_dword(REG_HL, value);
}

pub open spec fn ldax_spec(s: CpuState) -> CpuState {
    s.with_a(s.mem[s.pair(s.rp()) as int])
}

/// Loads the accumulator from the address in a register pair.
pub fn ldax(state: &mut Cpu)
    requires
        old(state).wf(),
    ensures
        final(state).wf(),
        final(state)@ == ldax_spec(old(state)@),
{
    let src = Opcode::new(state.current_opcode).pair();
    let address = state.read_dword(src);
    let value = state.ram.read_byte(address);
    state.write_byte(REG_A, value);
}

pub open spec fn stax_spec(s: CpuState) -> CpuState {
    CpuState { mem: s.mem.update(s.pair(s.rp()) as int, s.a), ..s }
}

/// Stores the accumulator at the address in a register pair.
pub fn stax(state: &mut Cpu)
    requires
        old(state).wf(),
    ensures
        final(state).wf(),
        final(state)@ == stax_spec(old(state)@),
{
    let src = Opcode::new(state.current_opcode).pair();
    let address = state.read_dword(src);
    let value = state.read_byte(REG_A);
    state.ram.write_byte(address, value);
}

pub open spec fn lda_spec(s: CpuState) -> CpuState {
    s.skip(2).with_a(s.mem[s.imm16() as int])
}

/// Loads the accumulator from the immediate address.
pub fn lda(state: &mut Cpu)
    requires
        old(state).wf(),
        old(state).pc <= LAST_WORD_ADDRESS,
    ensures
        final(state).wf(),
        final(state)@ == lda_spec(old(state)@),
{
    let address = state.read_im_dword();
    let value = state.ram.read_byte(address);
    state.write_byte(REG_A, value);
}

pub open spec fn sta_spec(s: CpuState) -> CpuState {
    CpuState { mem: s.mem.update(s.imm16() as int, s.a), ..s.skip(2) }
}

/// Stores the accumulator at the immediate address.
pub fn sta(state: &mut Cpu)
    requires
        old(state).wf(),
        old(state).pc <= LAST_WORD_ADDRESS,
    ensures
        final(state).wf(),
        final(state)@ == sta_spec(old(state)@),
{
    let address = state.read_im_dword();
    let value = state.read_byte(REG_A);
    state.ram.write_byte(address, value);
}

pub open spec fn mov_spec(s: CpuState) -> CpuState {
    let t = if s.src() == REG_M || s.dst() == REG_M {
        s.add_cycles(2)
    } else {
        s
    };
    t.set_reg(s.dst(), s.reg(s.src()))
}

/// Copies one register, or memory at HL, into another.
pub fn mov(state: &mut Cpu)
    requires
        old(state).wf(),
        old(state).cycles <= CYCLE_CEILING,
    ensures
        final(state).wf(),
        final(state)@ == mov_spec(old(state)@),
{
    let op = Opcode::new(state.current_opcode);
    let src = op.src();
    let dst = op.dst();
    if src == REG_M || dst == REG_M {
        state.cycles = state.cycles + 2;
    }
    let value = state.read_byte(src);
    state.write_byte(dst, value);
}

pub open spec fn xchg_spec(s: CpuState) -> CpuState {
    s.set_pair(REG_DE, s.hl()).set_pair(REG_HL, s.pair(REG_DE))
}

/// Exchanges DE and HL.
pub fn xchg(state: &mut Cpu)
    requires
        old(state).wf(),
    ensures
        final(state).wf(),
        final(state)@ == xchg_spec(old(state)@),
{
    let de = state.read_dword(REG_DE);
    let hl = state.read_dword(REG_HL);
    state.write_dword(REG_DE, hl);
    state.write_dword(REG_HL, de);
}

pub open spec fn xthl_spec(s: CpuState) -> CpuState {
    s.popped().push(s.hl()).set_pair(REG_HL, s.top())
}

/// Exchanges HL and the word on top of the stack.
pub fn xthl(state: &mut Cpu)
    requires
        old(state).wf(),
        old(state).sp <= LAST_WORD_ADDRESS,
    ensures
        final(state).wf(),
        final(state)@ == xthl_spec(old(state)@),
{
    let value = state.pop_stack();
    let hl = state.read_dword(REG_HL);
    state.push_stack(hl);
    state.write_dword(REG_HL, value);
}

pub open spec fn pchl_spec(s: CpuState) -> CpuState {
    s.with_pc(s.hl())
}

/// Jumps to the address in HL.
pub fn pchl(state: &mut Cpu)
    requires
        old(state).wf(),
    ensures
        final(state).wf(),
        final(state)@ == pchl_spec(old(state)@),
{
    state.pc = state.read_dword(REG_HL);
}

pub open spec fn sphl_spec(s: CpuState) -> CpuState {
    CpuState { sp: s.hl(), ..s }
}

/// Loads the stack pointer from HL.
pub fn sphl(state: &mut Cpu)
    requires
        old(state).wf(),
    ensures
        final(state).wf(),
        final(state)@ == sphl_spec(old(state)@),
{
    let value = state.read_dword(REG_HL);
    state.sp = value;
}

// ---- Stack ----

/// The pair a stack instruction names: BC, DE, HL, or for the last
/// selector the accumulator with the flags.
pub open spec fn stack_pair(rp: u8) -> u8 {
    if rp == REG_SP {
        REG_PSW
    } else {
        rp
    }
}

pub open spec fn push_spec(s: CpuState) -> CpuState {
    s.push(s.pair(stack_pair(s.rp())))
}

pub fn push(state: &mut Cpu)
    requires
        old(state).wf(),
        old(state).sp != 1,
    ensures
        final(state).wf(),
        final(state)@ == push_spec(old(state)@),
{
    let src = Opcode::new(state.current_opcode).pair();
    if src == REG_SP {
        let value = state.read_dword(REG_PSW);
        state.push_stack(value);
    } else {
        let value = state.read_dword(src);
        state.push_stack(value);
    }
}

pub open spec fn pop_spec(s: CpuState) -> CpuState {
    s.popped().set_pair(stack_pair(s.rp()), s.top())
}

pub fn pop(state: &mut Cpu)
    requires
        old(state).wf(),
        old(state).sp <= LAST_WORD_ADDRESS,
    ensures
        final(state).wf(),
        final(state)@ == pop_spec(old(state)@),
{
    let dst = Opcode::new(state.current_opcode).pair();
    let value = state.pop_stack();
    if dst == REG_SP {
        state.write_dword(REG_PSW, value);
    } else {
        state.write_dword(dst, value);
    }
}

// ---- Register pair arithmetic ----

pub open spec fn inx_spec(s: CpuState) -> CpuState {
    s.set_pair(s.rp(), wrap16(s.pair(s.rp()) + 1))
}

/// Increments a register pair, or the stack pointer; no flag changes.
pub fn inx(state: &mut Cpu)
    requires
        old(state).wf(),
    ensures
        final(state).wf(),
        final(state)@ == inx_spec(old(state)@),
{
    let dst = Opcode::new(state.current_opcode).pair();
    let curr = state.read_dword(dst);
    let res = curr.wrapping_add(1);
    assert(res == wrap16(curr + 1));
    state.write_dword(dst, res);
}

pub open spec fn dcx_spec(s: CpuState) -> CpuState {
    s.set_pair(s.rp(), wrap16(s.pair(s.rp()) - 1))
}

/// Decrements a register pair, or the stack pointer; no flag changes.
pub fn dcx(state: &mut Cpu)
    requires
        old(state).wf(),
    ensures
        final(state).wf(),
        final(state)@ == dcx_spec(old(state)@),
{
    let dst = Opcode::new(state.current_opcode).pair();
    let curr = state.read_dword(dst);
    let res = curr.wrapping_sub(1);
    assert(res == wrap16(curr - 1));
    state.write_dword(dst, res);
}

pub open spec fn dad_spec(s: CpuState) -> CpuState {
    let sum = s.pair(s.rp()) + s.hl();
    s.with_f(put_flag(s.f, FLAG_C, sum > 0xffff)).set_pair(REG_HL, wrap16(sum))
}

/// Adds a register pair, or the stack pointer, to HL; carry tells of a
/// sum past 0xFFFF.
pub fn dad(state: &mut Cpu)
    requires
        old(state).wf(),
    ensures
        final(state).wf(),
        final(state)@ == dad_spec(old(state)@),
{
    let src = Opcode::new(state.current_opcode).pair();
    let value = state.read_dword(src) as u32;
    let result: u32 = value + state.read_dword(REG_HL) as u32;
    if result > 0xffff {
        state.f = state.f | FLAG_C;
    } else {
        state.f = state.f & !FLAG_C;
    }
    state.write_dword(REG_HL, (result % 0x10000) as u16);
}

// ---- Increment and decrement ----

pub open spec fn inr_spec(s: CpuState) -> CpuState {
    let r = s.dst();
    let curr = s.reg(r) as u16;
    let res = (curr + 1) as u16;
    mem_extra(s, r, 5).set_reg(r, (res % 256) as u8).update_flags(INC_FLAGS, curr, res)
}

/// Increments a register, or memory at HL; all flags but carry follow.
#[verifier::rlimit(50)]
pub fn inr(state: &mut Cpu)
    requires
        old(state).wf(),
        old(state).cycles <= CYCLE_CEILING,
    ensures
        final(state).wf(),
        final(state)@ == inr_spec(old(state)@),
{
    let dst = Opcode::new(state.current_opcode).dst();
    let curr = state.read_byte(dst) as u16;
    let res = curr + 1;
    if dst == REG_M {
        state.cycles = state.cycles + 5;
    }
    state.write_byte(dst, (res % 256) as u8);
    state.set_flags(INC_FLAGS, curr, res);
}

pub open spec fn dcr_spec(s: CpuState) -> CpuState {
    let r = s.dst();
    let curr = s.reg(r) as u16;
    let res = wrap16(curr - 1);
    mem_extra(s, r, 5).set_reg(r, (res % 256) as u8).update_flags(INC_FLAGS, curr, res)
}

/// Decrements a register, or memory at HL; all flags but carry follow.
#[verifier::rlimit(50)]
pub fn dcr(state: &mut Cpu)
    requires
        old(state).wf(),
        old(state).cycles <= CYCLE_CEILING,
    ensures
        final(state).wf(),
        final(state)@ == dcr_spec(old(state)@),
{
    let dst = Opcode::new(state.current_opcode).dst();
    let curr = state.read_byte(dst) as u16;
    if dst == REG_M {
        state.cycles = state.cycles + 5;
    }
    let res = curr.wrapping_sub(1);
    assert(res == wrap16(curr - 1));
    state.write_byte(dst, (res % 256) as u8);
    state.set_flags(INC_FLAGS, curr, res);
}

// ---- Accumulator arithmetic ----

/// The accumulator set to the low byte of `result`, the flags in
/// `ARITH_FLAGS` following `initial` and `result`.
pub open spec fn arith_result(s: CpuState, initial: u16, result: u16) -> CpuState {
    s.update_flags(ARITH_FLAGS, initial, result).with_a((result % 256) as u8)
}

pub open spec fn add_spec(s: CpuState) -> CpuState {
    let v = s.reg(s.src());
    arith_result(mem_extra(s, s.src(), 3), s.a as u16, (s.a + v) as u16)
}

pub fn add(state: &mut Cpu)
    requires
        old(state).wf(),
        old(state).cycles <= CYCLE_CEILING,
    ensures
        final(state).wf(),
        final(state)@ == add_spec(old(state)@),
{
    let src = Opcode::new(state.current_opcode).src();
    if src == REG_M {
        state.cycles = state.cycles + 3;
    }
    let value = state.read_byte(src) as u16;
    let a = state.a as u16;
    let result = a + value;
    state.set_flags(ARITH_FLAGS, a, result);
    state.write_byte(REG_A, (result % 256) as u8);
}

pub open spec fn adi_spec(s: CpuState) -> CpuState {
    let im = s.imm8();
    arith_result(s.skip(1), im as u16, (s.a + im) as u16)
}

pub fn adi(state: &mut Cpu)
    requires
        old(state).wf(),
    ensures
        final(state).wf(),
        final(state)@ == adi_spec(old(state)@),
{
    let im = state.read_im_byte() as u16;
    let a = state.read_byte(REG_A) as u16;
    let result = a + im;
    state.set_flags(ARITH_FLAGS, im, result);
    state.write_byte(REG_A, (result % 256) as u8);
}

pub open spec fn adc_spec(s: CpuState) -> CpuState {
    let v = s.reg(s.src());
    arith_result(mem_extra(s, s.src(), 3), v as u16, (s.a + v + s.carry()) as u16)
}

/// Adds a register, or memory at HL, and the carry to the accumulator.
#[verifier::rlimit(50)]
pub fn adc(state: &mut Cpu)
    requires
        old(state).wf(),
        old(state).cycles <= CYCLE_CEILING,
    ensures
        final(state).wf(),
        final(state)@ == adc_spec(old(state)@),
{
    let src = Opcode::new(state.current_opcode).src();
    let value = state.read_byte(src) as u16;
    let a = state.read_byte(REG_A) as u16;
    if src == REG_M {
        state.cycles = state.cycles + 3;
    }
    let carry: u16 = if state.read_flag(FLAG_C) { 1 } else { 0 };
    let result = a + value + carry;
    state.set_flags(ARITH_FLAGS, value, result);
    state.write_byte(REG_A, (result % 256) as u8);
}

pub open spec fn aci_spec(s: CpuState) -> CpuState {
    let im = s.imm8();
    arith_result(s.skip(1), im as u16, (s.a + im + s.carry()) as u16)
}

/// Adds the immediate byte and the carry to the accumulator.
pub fn aci(state: &mut Cpu)
    requires
        old(state).wf(),
    ensures
        final(state).wf(),
        final(state)@ == aci_spec(old(state)@),
{
    let value = state.read_im_byte() as u16;
    let a = state.read_byte(REG_A) as u16;
    let carry: u16 = if state.read_flag(FLAG_C) { 1 } else { 0 };
    let result = a + value + carry;
    state.set_flags(ARITH_FLAGS, value, result);
    state.write_byte(REG_A, (result % 256) as u8);
}

pub open spec fn sub_spec(s: CpuState) -> CpuState {
    let v = s.reg(s.src());
    arith_result(mem_extra(s, s.src(), 3), s.a as u16, wrap16(s.a - v))
}

pub fn sub(state: &mut Cpu)
    requires
        old(state).wf(),
        old(state).cycles <= CYCLE_CEILING,
    ensures
        final(state).wf(),
        final(state)@ == sub_spec(old(state)@),
{
    let src = Opcode::new(state.current_opcode).src();
    if src == REG_M {
        state.cycles = state.cycles + 3;
    }
    let value = state.read_byte(src) as u16;
    let a = state.a as u16;
    let result = a.wrapping_sub(value);
    assert(result == wrap16(a - value));
    state.set_flags(ARITH_FLAGS, a, result);
    state.write_byte(REG_A, (result % 256) as u8);
}

pub open spec fn sui_spec(s: CpuState) -> CpuState {
    arith_result(s.skip(1), s.a as u16, wrap16(s.a - s.imm8()))
}

pub fn sui(state: &mut Cpu)
    requires
        old(state).wf(),
    ensures
        final(state).wf(),
        final(state)@ == sui_spec(old(state)@),
{
    let value = state.read_im_byte() as u16;
    let a = state.a as u16;
    let result = a.wrapping_sub(value);
    assert(result == wrap16(a - value));
    state.set_flags(ARITH_FLAGS, a, result);
    state.write_byte(REG_A, (result % 256) as u8);
}

pub open spec fn sbb_spec(s: CpuState) -> CpuState {
    let v = s.reg(s.src());
    arith_result(mem_extra(s, s.src(), 3), s.a as u16, wrap16(s.a - (v + s.carry())))
}

/// Subtracts a register, or memory at HL, and the carry from the accumulator.
#[verifier::rlimit(50)]
pub fn sbb(state: &mut Cpu)
    requires
        old(state).wf(),
        old(state).cycles <= CYCLE_CEILING,
    ensures
        final(state).wf(),
        final(state)@ == sbb_spec(old(state)@),
{
    let src = Opcode::new(state.current_opcode).src();
    if src == REG_M {
        state.cycles = state.cycles + 3;
    }
    let carry: u16 = if state.read_flag(FLAG_C) { 1 } else { 0 };
    let rhs = state.read_byte(src) as u16 + carry;
    let a = state.a as u16;
    let answer = a.wrapping_sub(rhs);
    assert(answer == wrap16(a - rhs));
    state.set_flags(ARITH_FLAGS, a, answer);
    state.a = (answer % 256) as u8;
}

pub open spec fn sbi_spec(s: CpuState) -> CpuState {
    arith_result(s.skip(1), s.a as u16, wrap16(s.a - (s.imm8() + s.carry())))
}

/// Subtracts the immediate byte and the carry from the accumulator.
#[verifier::rlimit(50)]
pub fn sbi(state: &mut Cpu)
    requires
        old(state).wf(),
    ensures
        final(state).wf(),
        final(state)@ == sbi_spec(old(state)@),
{
    let carry: u16 = if state.read_flag(FLAG_C) { 1 } else { 0 };
    let rhs = state.read_im_byte() as u16 + carry;
    let a = state.a as u16;
    let answer = a.wrapping_sub(rhs);
    assert(answer == wrap16(a - rhs));
    state.set_flags(ARITH_FLAGS, a, answer);
    state.a = (answer % 256) as u8;
}

pub open spec fn cmp_spec(s: CpuState) -> CpuState {
    let v = s.reg(s.src());
    mem_extra(s, s.src(), 3).update_flags(ARITH_FLAGS, s.a as u16, wrap16(s.a - v))
}

/// Compares a register, or memory at HL, with the accumulator: the flags
/// of the subtraction, the accumulator unchanged.
pub fn cmp(state: &mut Cpu)
    requires
        old(state).wf(),
        old(state).cycles <= CYCLE_CEILING,
    ensures
        final(state).wf(),
        final(state)@ == cmp_spec(old(state)@),
{
    let src = Opcode::new(state.current_opcode).src();
    if src == REG_M {
        state.cycles = state.cycles + 3;
    }
    let value = state.read_byte(src) as u16;
    let a = state.a as u16;
    let result = a.wrapping_sub(value);
    assert(result == wrap16(a - value));
    state.set_flags(ARITH_FLAGS, a, result);
}

pub open spec fn cpi_spec(s: CpuState) -> CpuState {
    let rhs = s.imm8() as u16;
    s.skip(1).update_flags(ARITH_FLAGS, rhs, wrap16(s.a - rhs))
}

/// Compares the immediate byte with the accumulator.
pub fn cpi(state: &mut Cpu)
    requires
        old(state).wf(),
    ensures
        final(state).wf(),
        final(state)@ == cpi_spec(old(state)@),
{
    let rhs = state.read_im_byte() as u16;
    let lhs = state.read_byte(REG_A) as u16;
    let result = lhs.wrapping_sub(rhs);
    assert(result == wrap16(lhs - rhs));
    state.set_flags(ARITH_FLAGS, rhs, result);
}

/// Decimal adjust: with the low nibble past 9 or auxiliary carry set, 6 is
/// added to the accumulator (auxiliary carry set when the low nibble
/// overflows, its carry going on into the high nibble); then, with that high
/// nibble past 9 or carry set, 6 is added to the high nibble. Carry stays
/// set when it was, and is set when the result passes 0xFF; sign, zero and
/// parity follow the final byte.
pub open spec fn daa_spec(s: CpuState) -> CpuState {
    let least = s.a % 16;
    let adjust_low = s.flag(FLAG_AC) || least > 9;
    let r1 = if adjust_low { s.a + 6 } else { s.a as int };
    let f1 = if adjust_low && r1 % 16 < least { s.f | FLAG_AC } else { s.f };
    let carry_in = f1 & FLAG_C != 0;
    let result = (if carry_in || r1 / 16 > 9 { r1 + 0x60 } else { r1 }) as u16;
    let f2 = flags_after(f1, DAA_FLAGS, s.a as u16, result);
    s.with_f(put_flag(f2, FLAG_C, carry_in || result > 255)).with_a((result % 256) as u8)
}

#[verifier::rlimit(50)]
pub fn daa(state: &mut Cpu)
    requires
        old(state).wf(),
    ensures
        final(state).wf(),
        final(state)@ == daa_spec(old(state)@),
{
    let mut result = state.a as u16;
    let least = result % 16;
    if state.read_flag(FLAG_AC) || least > 9 {
        result = result + 6;
        if result % 16 < least {
            state.f = state.f | FLAG_AC;
        }
    }
    let carry_in = state.read_flag(FLAG_C);
    if carry_in || result / 16 > 9 {
        result = result + 0x60;
    }
    let a = state.a as u16;
    state.set_flags(DAA_FLAGS, a, result);
    if carry_in || result > 255 {
        state.f = state.f | FLAG_C;
    } else {
        state.f = state.f & !FLAG_C;
    }
    state.a = (result % 256) as u8;
}

// ---- Logical ----

pub open spec fn ana_spec(s: CpuState) -> CpuState {
    let v = s.reg(s.src());
    arith_result(mem_extra(s, s.src(), 3), s.a as u16, (v & s.a) as u16)
}

/// Ands a register, or memory at HL, into the accumulator.
pub fn ana(state: &mut Cpu)
    requires
        old(state).wf(),
        old(state).cycles <= CYCLE_CEILING,
    ensures
        final(state).wf(),
        final(state)@ == ana_spec(old(state)@),
{
    let src = Opcode::new(state.current_opcode).src();
    let value = state.read_byte(src);
    let a = state.a as u16;
    let result = (value & state.a) as u16;
    if src == REG_M {
        state.cycles = state.cycles + 3;
    }
    state.set_flags(ARITH_FLAGS, a, result);
    state.write_byte(REG_A, (result % 256) as u8);
}

pub open spec fn ani_spec(s: CpuState) -> CpuState {
    let im = s.imm8();
    arith_result(s.skip(1), im as u16, (s.a & im) as u16)
}

/// Ands the immediate byte into the accumulator.
pub fn ani(state: &mut Cpu)
    requires
        old(state).wf(),
    ensures
        final(state).wf(),
        final(state)@ == ani_spec(old(state)@),
{
    let im = state.read_im_byte();
    let result = (state.a & im) as u16;
    state.set_flags(ARITH_FLAGS, im as u16, result);
    state.write_byte(REG_A, (result % 256) as u8);
}

pub open spec fn ora_spec(s: CpuState) -> CpuState {
    let v = s.reg(s.src());
    arith_result(mem_extra(s, s.src(), 3), s.a as u16, (v | s.a) as u16)
}

/// Ors a register, or memory at HL, into the accumulator.
pub fn ora(state: &mut Cpu)
    requires
        old(state).wf(),
        old(state).cycles <= CYCLE_CEILING,
    ensures
        final(state).wf(),
        final(state)@ == ora_spec(old(state)@),
{
    let src = Opcode::new(state.current_opcode).src();
    let value = state.read_byte(src);
    let a = state.a as u16;
    let result = (value | state.a) as u16;
    if src == REG_M {
        state.cycles = state.cycles + 3;
    }
    state.set_flags(ARITH_FLAGS, a, result);
    state.write_byte(REG_A, (result % 256) as u8);
}

pub open spec fn ori_spec(s: CpuState) -> CpuState {
    let im = s.imm8();
    arith_result(s.skip(1), s.a as u16, (im | s.a) as u16)
}

/// Ors the immediate byte into the accumulator.
pub fn ori(state: &mut Cpu)
    requires
        old(state).wf(),
    ensures
        final(state).wf(),
        final(state)@ == ori_spec(old(state)@),
{
    let value = state.read_im_byte();
    let result = (value | state.a) as u16;
    let a = state.a;
    state.set_flags(ARITH_FLAGS, a as u16, result);
    state.write_byte(REG_A, (result % 256) as u8);
}

pub open spec fn xra_spec(s: CpuState) -> CpuState {
    let v = s.reg(s.src());
    arith_result(mem_extra(s, s.src(), 3), s.a as u16, (s.a ^ v) as u16)
}

/// Exclusive-ors a register, or memory at HL, into the accumulator.
pub fn xra(state: &mut Cpu)
    requires
        old(state).wf(),
        old(state).cycles <= CYCLE_CEILING,
    ensures
        final(state).wf(),
        final(state)@ == xra_spec(old(state)@),
{
    let src = Opcode::new(state.current_opcode).src();
    let value = state.read_byte(src);
    let a = state.a as u16;
    let result = (state.a ^ value) as u16;
    if src == REG_M {
        state.cycles = state.cycles + 3;
    }
    state.set_flags(ARITH_FLAGS, a, result);
    state.write_byte(REG_A, (result % 256) as u8);
}

pub open spec fn xri_spec(s: CpuState) -> CpuState {
    let result = s.a ^ s.imm8();
    s.skip(1).with_f(put_flag(s.f, FLAG_C, false)).update_flags(
        XRI_FLAGS,
        s.a as u16,
        result as u16,
    ).with_a(result)
}

/// Exclusive-ors the immediate byte into the accumulator; carry is cleared.
pub fn xri(state: &mut Cpu)
    requires
        old(state).wf(),
    ensures
        final(state).wf(),
        final(state)@ == xri_spec(old(state)@),
{
    let value = state.read_im_byte();
    let a = state.a;
    let result = state.a ^ value;
    state.f = state.f & !FLAG_C;
    state.set_flags(XRI_FLAGS, a as u16, result as u16);
    state.write_byte(REG_A, result);
}

pub open spec fn cma_spec(s: CpuState) -> CpuState {
    s.with_a((255 - s.a) as u8)
}

/// Complements the accumulator.
pub fn cma(state: &mut Cpu)
    requires
        old(state).wf(),
    ensures
        final(state).wf(),
        final(state)@ == cma_spec(old(state)@),
{
    let result = 255 - state.read_byte(REG_A);
    state.write_byte(REG_A, result);
}

pub open spec fn stc_spec(s: CpuState) -> CpuState {
    s.with_f(put_flag(s.f, FLAG_C, true))
}

/// Sets the carry.
pub fn stc(state: &mut Cpu)
    requires
        old(state).wf(),
    ensures
        final(state).wf(),
        final(state)@ == stc_spec(old(state)@),
{
    state.f = state.f | FLAG_C;
}

pub open spec fn cmc_spec(s: CpuState) -> CpuState {
    s.with_f(put_flag(s.f, FLAG_C, !s.flag(FLAG_C)))
}

/// Complements the carry.
pub fn cmc(state: &mut Cpu)
    requires
        old(state).wf(),
    ensures
        final(state).wf(),
        final(state)@ == cmc_spec(old(state)@),
{
    if state.read_flag(FLAG_C) {
        state.f = state.f & !FLAG_C;
    } else {
        state.f = state.f | FLAG_C;
    }
}

// ---- Rotates ----

pub open spec fn rlc_spec(s: CpuState) -> CpuState {
    let high = s.a / 128;
    s.with_f(put_flag(s.f, FLAG_C, high == 1)).with_a(((s.a * 2) % 256 + high) as u8)
}

/// Rotates the accumulator left; the bit that leaves is the new bit 0 and
/// the new carry.
pub fn rlc(state: &mut Cpu)
    requires
        old(state).wf(),
    ensures
        final(state).wf(),
        final(state)@ == rlc_spec(old(state)@),
{
    let high = state.a / 128;
    if high != 0 {
        state.f = state.f | FLAG_C;
    } else {
        state.f = state.f & !FLAG_C;
    }
    let result = ((state.a as u16 * 2) % 256) as u8 + high;
    state.write_byte(REG_A, result);
}

pub open spec fn rrc_spec(s: CpuState) -> CpuState {
    let low = s.a % 2;
    s.with_f(put_flag(s.f, FLAG_C, low == 1)).with_a((s.a / 2 + low * 128) as u8)
}

/// Rotates the accumulator right; the bit that leaves is the new bit 7 and
/// the new carry.
pub fn rrc(state: &mut Cpu)
    requires
        old(state).wf(),
    ensures
        final(state).wf(),
        final(state)@ == rrc_spec(old(state)@),
{
    let low = state.a % 2;
    if low != 0 {
        state.f = state.f | FLAG_C;
    } else {
        state.f = state.f & !FLAG_C;
    }
    let result = state.a / 2 + low * 128;
    state.write_byte(REG_A, result);
}

pub open spec fn ral_spec(s: CpuState) -> CpuState {
    let tmp = s.a;
    let shifted = ((tmp * 2) % 256 + s.carry()) as u8;
    s.with_a(shifted).with_f(put_flag(s.f, FLAG_C, tmp >= 128))
}

/// Rotates the accumulator left through the carry: the old carry enters
/// bit 0, the bit that leaves becomes the carry.
pub fn ral(state: &mut Cpu)
    requires
        old(state).wf(),
    ensures
        final(state).wf(),
        final(state)@ == ral_spec(old(state)@),
{
    let tmp = state.a;
    state.a = ((tmp as u16 * 2) % 256) as u8;
    if state.read_flag(FLAG_C) {
        state.a = state.a + 1;
    }
    if tmp >= 0x80 {
        state.f = state.f | FLAG_C;
    } else {
        state.f = state.f & !FLAG_C;
    }
}

pub open spec fn rar_spec(s: CpuState) -> CpuState {
    let tmp = s.a;
    let shifted = (tmp / 2 + s.carry() * 128) as u8;
    s.with_a(shifted).with_f(put_flag(s.f, FLAG_C, tmp % 2 == 1))
}

/// Rotates the accumulator right through the carry: the old carry enters
/// bit 7, the bit that leaves becomes the carry.
pub fn rar(state: &mut Cpu)
    requires
        old(state).wf(),
    ensures
        final(state).wf(),
        final(state)@ == rar_spec(old(state)@),
{
    let tmp = state.a;
    state.a = tmp / 2;
    if state.read_flag(FLAG_C) {
        state.a = state.a + 0x80;
    }
    if tmp % 2 == 1 {
        state.f = state.f | FLAG_C;
    } else {
        state.f = state.f & !FLAG_C;
    }
}

} // verus!
