//! The execution engine: one instruction fetched, decoded and performed,
//! and the fault that an unassigned opcode raises.

use vstd::prelude::*;
use crate::cpu::{
    fault_of, Cpu, CpuState, Fault, FaultKind, CYCLE_CEILING, FLAG_C, FLAG_P, FLAG_S, FLAG_Z,
};
use crate::ram::LAST_WORD_ADDRESS;
use crate::instructions::{
    aci, adc, adi, ana, ani, call, cc, cm, cma, cmc, cmp, cnc, cnz, cp, cpe, cpi, cpo, cz, daa,
    dad, dcr, dcx, di, ei, inp, inr, inx, jc, jm, jmp, jnc, jnz, jp, jpe, jpo, jz, lda, ldax,
    lhld, lxi, mov, mvi, nop, ora, ori, out, pchl, pop, push, ral, rar, rc, ret, rlc, rm, rnc,
    rnz, rp, rpe, rpo, rrc, rz, sbb, sbi, shld, sphl, sta, stax, stc, sui, xchg, xra, xri, xthl,
    aci_spec, adc_spec, add_spec, adi_spec, ana_spec, ani_spec, call_spec, cc_spec, cm_spec,
    cma_spec, cmc_spec, cmp_spec, cnc_spec, cnz_spec, cp_spec, cpe_spec, cpi_spec, cpo_spec,
    cz_spec, daa_spec, dad_spec, dcr_spec, dcx_spec, di_spec, ei_spec, inp_spec, inr_spec,
    inx_spec, jc_spec, jm_spec, jmp_spec, jnc_spec, jnz_spec, jp_spec, jpe_spec, jpo_spec,
    jz_spec, lda_spec, ldax_spec, lhld_spec, lxi_spec, mov_spec, mvi_spec, nop_spec, ora_spec,
    ori_spec, out_spec, pchl_spec, pop_spec, push_spec, ral_spec, rar_spec, rc_spec, ret_spec,
    rlc_spec, rm_spec, rnc_spec, rnz_spec, rp_spec, rpe_spec, rpo_spec, rrc_spec, rz_spec,
    sbb_spec, sbi_spec, shld_spec, sphl_spec, sta_spec, stax_spec, stc_spec, sub_spec, sui_spec,
    xchg_spec, xra_spec, xri_spec, xthl_spec,
};
use crate::opcode::{decode, instruction_of, Instr, Opcode};

verus! {

/// The effect of `i` on a state whose program counter is past the opcode,
/// before the base cycle cost is added.
#[verifier::opaque]
pub open spec fn execute(s: CpuState, i: Instr) -> CpuState {
    match i {
        Instr::Nop => nop_spec(s),
        Instr::Jmp => jmp_spec(s),
        Instr::Lxi => lxi_spec(s),
        Instr::Mvi => mvi_spec(s),
        Instr::Call => call_spec(s),
        Instr::Ldax => ldax_spec(s),
        Instr::Mov => mov_spec(s),
        Instr::Inx => inx_spec(s),
        Instr::Dcr => dcr_spec(s),
        Instr::Jnz => jnz_spec(s),
        Instr::Sta => sta_spec(s),
        Instr::Ret => ret_spec(s),
        Instr::Cpi => cpi_spec(s),
        Instr::Push => push_spec(s),
        Instr::Dad => dad_spec(s),
        Instr::Xchg => xchg_spec(s),
        Instr::Pop => pop_spec(s),
        Instr::Out => out_spec(s),
        Instr::Inr => inr_spec(s),
        Instr::Rrc => rrc_spec(s),
        Instr::Ani => ani_spec(s),
        Instr::Adi => adi_spec(s),
        Instr::Adc => adc_spec(s),
        Instr::Lda => lda_spec(s),
        Instr::Xra => xra_spec(s),
        Instr::Ei => ei_spec(s),
        Instr::Ana => ana_spec(s),
        Instr::Jz => jz_spec(s),
        Instr::Inp => inp_spec(s),
        Instr::Rz => rz_spec(s),
        Instr::Jc => jc_spec(s),
        Instr::Jnc => jnc_spec(s),
        Instr::Stc => stc_spec(s),
        Instr::Rc => rc_spec(s),
        Instr::Ora => ora_spec(s),
        Instr::Rlc => rlc_spec(s),
        Instr::Cnz => cnz_spec(s),
        Instr::Lhld => lhld_spec(s),
        Instr::Rar => rar_spec(s),
        Instr::Ori => ori_spec(s),
        Instr::Xthl => xthl_spec(s),
        Instr::Pchl => pchl_spec(s),
        Instr::Rnz => rnz_spec(s),
        Instr::Rnc => rnc_spec(s),
        Instr::Daa => daa_spec(s),
        Instr::Cz => cz_spec(s),
        Instr::Dcx => dcx_spec(s),
        Instr::Jm => jm_spec(s),
        Instr::Shld => shld_spec(s),
        Instr::Sui => sui_spec(s),
        Instr::Sbi => sbi_spec(s),
        Instr::Add => add_spec(s),
        Instr::Cma => cma_spec(s),
        Instr::Cmp => cmp_spec(s),
        Instr::Cnc => cnc_spec(s),
        Instr::Sub => sub_spec(s),
        Instr::Jpe => jpe_spec(s),
        Instr::Jpo => jpo_spec(s),
        Instr::Jp => jp_spec(s),
        Instr::Aci => aci_spec(s),
        Instr::Stax => stax_spec(s),
        Instr::Xri => xri_spec(s),
        Instr::Cc => cc_spec(s),
        Instr::Cpo => cpo_spec(s),
        Instr::Cm => cm_spec(s),
        Instr::Cpe => cpe_spec(s),
        Instr::Cp => cp_spec(s),
        Instr::Rpe => rpe_spec(s),
        Instr::Rpo => rpo_spec(s),
        Instr::Rp => rp_spec(s),
        Instr::Rm => rm_spec(s),
        Instr::Sbb => sbb_spec(s),
        Instr::Cmc => cmc_spec(s),
        Instr::Ral => ral_spec(s),
        Instr::Sphl => sphl_spec(s),
        Instr::Di => di_spec(s),
    }
}

/// No instruction touches the interrupt phase or the instruction count.
pub proof fn lemma_execute_keeps_controller_state(s: CpuState, i: Instr)
    ensures
        execute(s, i).last_interrupt == s.last_interrupt,
        execute(s, i).instruction_count == s.instruction_count,
{
    reveal(execute);
}

/// Whether every word that instruction `i` reads or writes lies in the
/// address space, for a state whose program counter is past the opcode: the
/// immediate word, the words at the immediate address, and the stack words,
/// where a call or return whose condition fails touches no stack word.
pub open spec fn access_ok(x: CpuState, i: Instr) -> bool {
    let imm = x.pc <= LAST_WORD_ADDRESS;
    let push = x.sp != 1;
    let pop = x.sp <= LAST_WORD_ADDRESS;
    match i {
        Instr::Jmp | Instr::Jnz | Instr::Jz | Instr::Jnc | Instr::Jc | Instr::Jpo | Instr::Jpe
        | Instr::Jp | Instr::Jm | Instr::Lxi | Instr::Lda | Instr::Sta => imm,
        Instr::Shld | Instr::Lhld => imm && x.imm16() <= LAST_WORD_ADDRESS,
        Instr::Call => imm && push,
        Instr::Cnz => imm && (!x.flag(FLAG_Z) ==> push),
        Instr::Cz => imm && (x.flag(FLAG_Z) ==> push),
        Instr::Cnc => imm && (!x.flag(FLAG_C) ==> push),
        Instr::Cc => imm && (x.flag(FLAG_C) ==> push),
        Instr::Cpo => imm && (!x.flag(FLAG_P) ==> push),
        Instr::Cpe => imm && (x.flag(FLAG_P) ==> push),
        Instr::Cp => imm && (!x.flag(FLAG_S) ==> push),
        Instr::Cm => imm && (x.flag(FLAG_S) ==> push),
        Instr::Ret | Instr::Pop | Instr::Xthl => pop,
        Instr::Rnz => !x.flag(FLAG_Z) ==> pop,
        Instr::Rz => x.flag(FLAG_Z) ==> pop,
        Instr::Rnc => !x.flag(FLAG_C) ==> pop,
        Instr::Rc => x.flag(FLAG_C) ==> pop,
        Instr::Rpo => !x.flag(FLAG_P) ==> pop,
        Instr::Rpe => x.flag(FLAG_P) ==> pop,
        Instr::Rp => !x.flag(FLAG_S) ==> pop,
        Instr::Rm => x.flag(FLAG_S) ==> pop,
        Instr::Push => push,
        _ => true,
    }
}

/// The state after one instruction: the opcode at the program counter is
/// fetched and recorded, the program counter moves past it, the instruction
/// runs, its base cost is added to the cycles and the instruction count
/// grows by one. An unassigned opcode, or an instruction that would touch a
/// word at 0xFFFF, gives the kind of fault instead.
pub open spec fn step_spec(s: CpuState) -> Result<CpuState, FaultKind> {
    let op = s.mem[s.pc as int];
    let fetched = CpuState { current_opcode: op, ..s.skip(1) };
    match instruction_of(op) {
        None => Err(FaultKind::UnassignedOpcode),
        Some((i, cost)) => {
            if !access_ok(fetched, i) {
                Err(FaultKind::AddressOutOfRange)
            } else {
                let t = execute(fetched, i).add_cycles(cost);
                let count = if s.instruction_count == u64::MAX {
                    0
                } else {
                    s.instruction_count + 1
                };
                Ok(CpuState { instruction_count: count as u64, ..t })
            }
        },
    }
}

impl Cpu {
    /// Performs `instr` on this processor, whose program counter is past the opcode.
    pub fn execute(&mut self, instr: Instr)
        requires
            old(self).wf(),
            old(self).cycles <= CYCLE_CEILING,
            access_ok(old(self)@, instr),
        ensures
            final(self).wf(),
            final(self)@ == execute(old(self)@, instr),
            final(self).cycles <= old(self).cycles + 6,
    {
        reveal(execute);
        match instr {
            Instr::Nop => nop(self),
            Instr::Jmp => jmp(self),
            Instr::Lxi => lxi(self),
            Instr::Mvi => mvi(self),
            Instr::Call => call(self),
            Instr::Ldax => ldax(self),
            Instr::Mov => mov(self),
            Instr::Inx => inx(self),
            Instr::Dcr => dcr(self),
            Instr::Jnz => jnz(self),
            Instr::Sta => sta(self),
            Instr::Ret => ret(self),
            Instr::Cpi => cpi(self),
            Instr::Push => push(self),
            Instr::Dad => dad(self),
            Instr::Xchg => xchg(self),
            Instr::Pop => pop(self),
            Instr::Out => out(self),
            Instr::Inr => inr(self),
            Instr::Rrc => rrc(self),
            Instr::Ani => ani(self),
            Instr::Adi => adi(self),
            Instr::Adc => adc(self),
            Instr::Lda => lda(self),
            Instr::Xra => xra(self),
            Instr::Ei => ei(self),
            Instr::Ana => ana(self),
            Instr::Jz => jz(self),
            Instr::Inp => inp(self),
            Instr::Rz => rz(self),
            Instr::Jc => jc(self),
            Instr::Jnc => jnc(self),
            Instr::Stc => stc(self),
            Instr::Rc => rc(self),
            Instr::Ora => ora(self),
            Instr::Rlc => rlc(self),
            Instr::Cnz => cnz(self),
            Instr::Lhld => lhld(self),
            Instr::Rar => rar(self),
            Instr::Ori => ori(self),
            Instr::Xthl => xthl(self),
            Instr::Pchl => pchl(self),
            Instr::Rnz => rnz(self),
            Instr::Rnc => rnc(self),
            Instr::Daa => daa(self),
            Instr::Cz => cz(self),
            Instr::Dcx => dcx(self),
            Instr::Jm => jm(self),
            Instr::Shld => shld(self),
            Instr::Sui => sui(self),
            Instr::Sbi => sbi(self),
            Instr::Add => crate::instructions::add(self),
            Instr::Cma => cma(self),
            Instr::Cmp => cmp(self),
            Instr::Cnc => cnc(self),
            Instr::Sub => crate::instructions::sub(self),
            Instr::Jpe => jpe(self),
            Instr::Jpo => jpo(self),
            Instr::Jp => jp(self),
            Instr::Aci => aci(self),
            Instr::Stax => stax(self),
            Instr::Xri => xri(self),
            Instr::Cc => cc(self),
            Instr::Cpo => cpo(self),
            Instr::Cm => cm(self),
            Instr::Cpe => cpe(self),
            Instr::Cp => cp(self),
            Instr::Rpe => rpe(self),
            Instr::Rpo => rpo(self),
            Instr::Rp => rp(self),
            Instr::Rm => rm(self),
            Instr::Sbb => sbb(self),
            Instr::Cmc => cmc(self),
            Instr::Ral => ral(self),
            Instr::Sphl => sphl(self),
            Instr::Di => di(self),
        }
    }

    /// Whether every word that `instr` would read or write lies in the
    /// address space.
    pub fn accesses_in_range(&self, instr: Instr) -> (r: bool)
        requires
            self.wf(),
        ensures
            r == access_ok(self@, instr),
    {
        let imm = self.pc <= LAST_WORD_ADDRESS;
        let push = self.sp != 1;
        let pop = self.sp <= LAST_WORD_ADDRESS;
        match instr {
            Instr::Jmp | Instr::Jnz | Instr::Jz | Instr::Jnc | Instr::Jc | Instr::Jpo | Instr::Jpe
            | Instr::Jp | Instr::Jm | Instr::Lxi | Instr::Lda | Instr::Sta => imm,
            Instr::Shld | Instr::Lhld => match self.ram.read_dword(self.pc) {
                Ok(address) => address <= LAST_WORD_ADDRESS,
                Err(_) => false,
            },
            Instr::Call => imm && push,
            Instr::Cnz => imm && (self.read_flag(FLAG_Z) || push),
            Instr::Cz => imm && (!self.read_flag(FLAG_Z) || push),
            Instr::Cnc => imm && (self.read_flag(FLAG_C) || push),
            Instr::Cc => imm && (!self.read_flag(FLAG_C) || push),
            Instr::Cpo => imm && (self.read_flag(FLAG_P) || push),
            Instr::Cpe => imm && (!self.read_flag(FLAG_P) || push),
            Instr::Cp => imm && (self.read_flag(FLAG_S) || push),
            Instr::Cm => imm && (!self.read_flag(FLAG_S) || push),
            Instr::Ret | Instr::Pop | Instr::Xthl => pop,
            Instr::Rnz => self.read_flag(FLAG_Z) || pop,
            Instr::Rz => !self.read_flag(FLAG_Z) || pop,
            Instr::Rnc => self.read_flag(FLAG_C) || pop,
            Instr::Rc => !self.read_flag(FLAG_C) || pop,
            Instr::Rpo => self.read_flag(FLAG_P) || pop,
            Instr::Rpe => !self.read_flag(FLAG_P) || pop,
            Instr::Rp => self.read_flag(FLAG_S) || pop,
            Instr::Rm => !self.read_flag(FLAG_S) || pop,
            Instr::Push => push,
            _ => true,
        }
    }

    /// Performs the instruction that `opcode` encodes, with the program
    /// counter already past it, and adds its base cycle cost. An opcode with
    /// no instruction assigned, or an instruction that would touch a word at
    /// 0xFFFF, changes nothing and gives the kind of fault.
    #[verifier::rlimit(50)]
    pub fn run_instruction(&mut self, opcode: Opcode) -> (r: Result<(), FaultKind>)
        requires
            old(self).wf(),
            old(self).cycles <= CYCLE_CEILING,
        ensures
            final(self).wf(),
            match instruction_of(opcode.opcode) {
                Some((i, cost)) => if access_ok(old(self)@, i) {
                    r is Ok && final(self)@ == execute(old(self)@, i).add_cycles(cost)
                } else {
                    r == Err::<(), FaultKind>(FaultKind::AddressOutOfRange) && final(self)@ == old(
                        self,
                    )@
                },
                None => r == Err::<(), FaultKind>(FaultKind::UnassignedOpcode) && final(self)@
                    == old(self)@,
            },
    {
        match decode(opcode.opcode) {
            Some((instr, cost)) => {
                if !self.accesses_in_range(instr) {
                    return Err(FaultKind::AddressOutOfRange);
                }
                self.execute(instr);
                self.cycles = self.cycles + cost;
                Ok(())
            },
            None => Err(FaultKind::UnassignedOpcode),
        }
    }

    /// Runs one instruction. An opcode with no instruction assigned, or an
    /// instruction that would touch a word at 0xFFFF, leaves the processor
    /// as it was and gives the fault, which names the address of that
    /// instruction.
    #[verifier::rlimit(50)]
    pub fn step(&mut self) -> (r: Result<(), Fault>)
        requires
            old(self).wf(),
            old(self).cycles <= CYCLE_CEILING,
        ensures
            final(self).wf(),
            match step_spec(old(self)@) {
                Ok(t) => r is Ok && final(self)@ == t,
                Err(kind) => r == Err::<(), Fault>(fault_of(old(self)@, kind)) && final(self)@
                    == old(self)@,
            },
    {
        let at = self.pc;
        let op = self.ram.read_byte(at);
        let previous = self.current_opcode;
        self.current_opcode = op;
        self.pc = at.wrapping_add(1);
        proof {
            if let Some((i, _)) = instruction_of(op) {
                lemma_execute_keeps_controller_state(self@, i);
            }
        }
        match self.run_instruction(Opcode::new(op)) {
            Ok(()) => {
                self.instruction_count = self.instruction_count.wrapping_add(1);
                Ok(())
            },
            Err(kind) => {
                self.pc = at;
                self.current_opcode = previous;
                Err(self.fault_report(kind))
            },
        }
    }
}

} // verus!
