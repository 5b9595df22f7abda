//! The instruction decoder: a fetched byte and the register fields it selects.

use vstd::prelude::*;

verus! {

/// Bits 3 to 5 of an opcode: the destination register (6 selects memory at HL).
pub open spec fn dst_of(op: u8) -> u8 {
    (op >> 3u8) & 0x07
}

/// Bits 0 to 2 of an opcode: the source register (6 selects memory at HL).
pub open spec fn src_of(op: u8) -> u8 {
    op & 0x07
}

/// Bits 4 and 5 of an opcode: the register pair (BC, DE, HL, then SP or PSW).
pub open spec fn pair_of(op: u8) -> u8 {
    (op >> 4u8) & 0x03
}

/// The selectors always name a register, or a pair.
pub proof fn lemma_selector_ranges(op: u8)
    ensures
        dst_of(op) < 8,
        src_of(op) < 8,
        pair_of(op) < 4,
{
    assert((op >> 3u8) & 0x07 < 8 && op & 0x07 < 8 && (op >> 4u8) & 0x03 < 4) by (bit_vector);
}

/// One fetched instruction byte.
#[derive(Debug, Clone, Copy, PartialEq, Eq, Structural)]
pub struct Opcode {
    pub opcode: u8,
}

impl Opcode {
    pub fn new(opcode: u8) -> (r: Opcode)
        ensures
            r.opcode == opcode,
    {
        Opcode { opcode: opcode }
    }

    /// The destination register selector.
    pub fn dst(&self) -> (r: u8)
        ensures
            r == dst_of(self.opcode),
            r < 8,
    {
        proof {
            lemma_selector_ranges(self.opcode);
        }
        (self.opcode >> 3) & 0x07
    }

    /// The source register selector.
    pub fn src(&self) -> (r: u8)
        ensures
            r == src_of(self.opcode),
            r < 8,
    {
        proof {
            lemma_selector_ranges(self.opcode);
        }
        self.opcode & 0x07
    }

    /// The register pair selector.
    pub fn pair(&self) -> (r: u8)
        ensures
            r == pair_of(self.opcode),
            r < 4,
    {
        proof {
            lemma_selector_ranges(self.opcode);
        }
        (self.opcode >> 4) & 0x03
    }
}

/// The instructions of the set, one for each group of opcodes that share
/// their effect.
#[derive(Debug, Clone, Copy, PartialEq, Eq, Structural)]
pub enum Instr {
    Nop,
    Jmp,
    Lxi,
    Mvi,
    Call,
    Ldax,
    Mov,
    Inx,
    Dcr,
    Jnz,
    Sta,
    Ret,
    Cpi,
    Push,
    Dad,
    Xchg,
    Pop,
    Out,
    Inr,
    Rrc,
    Ani,
    Adi,
    Adc,
    Lda,
    Xra,
    Ei,
    Ana,
    Jz,
    Inp,
    Rz,
    Jc,
    Jnc,
    Stc,
    Rc,
    Ora,
    Rlc,
    Cnz,
    Lhld,
    Rar,
    Ori,
    Xthl,
    Pchl,
    Rnz,
    Rnc,
    Daa,
    Cz,
    Dcx,
    Jm,
    Shld,
    Sui,
    Sbi,
    Add,
    Cma,
    Cmp,
    Cnc,
    Sub,
    Jpe,
    Jpo,
    Jp,
    Aci,
    Stax,
    Xri,
    Cc,
    Cpo,
    Cm,
    Cpe,
    Cp,
    Rpe,
    Rpo,
    Rp,
    Rm,
    Sbb,
    Cmc,
    Ral,
    Sphl,
    Di,
}

/// The dispatch table: the instruction each opcode encodes and its base
/// cycle cost, or `None` for an opcode with no instruction assigned.
#[verifier::opaque]
pub open spec fn instruction_of(op: u8) -> Option<(Instr, u32)> {
    match op {
        0x00 | 0x10 | 0x20 | 0x30 | 0x08 | 0x18 | 0x28 | 0x38 => Some((Instr::Nop, 4)),
        0xC3 | 0xCB => Some((Instr::Jmp, 10)),
        0x01 | 0x11 | 0x21 | 0x31 => Some((Instr::Lxi, 10)),
        0x06 | 0x16 | 0x26 | 0x36 | 0x0E | 0x1E | 0x2E | 0x3E => Some((Instr::Mvi, 7)),
        0xCD | 0xDD | 0xED | 0xFD => Some((Instr::Call, 17)),
        0x0A | 0x1A => Some((Instr::Ldax, 7)),
        0x40 | 0x50 | 0x60 | 0x70 | 0x41 | 0x51 | 0x61 | 0x71 |
        0x42 | 0x52 | 0x62 | 0x72 | 0x43 | 0x53 | 0x63 | 0x73 |
        0x44 | 0x54 | 0x64 | 0x74 | 0x45 | 0x55 | 0x65 | 0x75 |
        0x46 | 0x56 | 0x66 | 0x47 | 0x57 | 0x67 | 0x77 | 0x48 |
        0x58 | 0x68 | 0x78 | 0x49 | 0x59 | 0x69 | 0x79 | 0x4A |
        0x5A | 0x6A | 0x7A | 0x4B | 0x5B | 0x6B | 0x7B | 0x4C |
        0x5C | 0x6C | 0x7C | 0x4D | 0x5D | 0x6D | 0x7D | 0x4E |
        0x5E | 0x6E | 0x7E | 0x4F | 0x5F | 0x6F | 0x7F => Some((Instr::Mov, 5)),
        0x03 | 0x13 | 0x23 | 0x33 => Some((Instr::Inx, 5)),
        0x05 | 0x15 | 0x25 | 0x35 | 0x0D | 0x1D | 0x2D | 0x3D => Some((Instr::Dcr, 5)),
        0xC2 => Some((Instr::Jnz, 10)),
        0x32 => Some((Instr::Sta, 13)),
        0xC9 | 0xD9 => Some((Instr::Ret, 10)),
        0xFE => Some((Instr::Cpi, 7)),
        0xC5 | 0xD5 | 0xE5 | 0xF5 => Some((Instr::Push, 11)),
        0x09 | 0x19 | 0x29 | 0x39 => Some((Instr::Dad, 10)),
        0xEB => Some((Instr::Xchg, 5)),
        0xC1 | 0xD1 | 0xE1 | 0xF1 => Some((Instr::Pop, 10)),
        0xD3 => Some((Instr::Out, 10)),
        0x04 | 0x14 | 0x24 | 0x34 | 0x0C | 0x1C | 0x2C | 0x3C => Some((Instr::Inr, 5)),
        0x0F => Some((Instr::Rrc, 4)),
        0xE6 => Some((Instr::Ani, 7)),
        0xC6 => Some((Instr::Adi, 7)),
        0x88 | 0x89 | 0x8A | 0x8B | 0x8C | 0x8D | 0x8E | 0x8F => Some((Instr::Adc, 4)),
        0x3A => Some((Instr::Lda, 13)),
        0xA8 | 0xA9 | 0xAA | 0xAB | 0xAC | 0xAD | 0xAE | 0xAF => Some((Instr::Xra, 4)),
        0xFB => Some((Instr::Ei, 4)),
        0xA0 | 0xA1 | 0xA2 | 0xA3 | 0xA4 | 0xA5 | 0xA6 | 0xA7 => Some((Instr::Ana, 4)),
        0xCA => Some((Instr::Jz, 10)),
        0xDB => Some((Instr::Inp, 10)),
        0xC8 => Some((Instr::Rz, 5)),
        0xDA => Some((Instr::Jc, 10)),
        0xD2 => Some((Instr::Jnc, 10)),
        0x37 => Some((Instr::Stc, 4)),
        0xD8 => Some((Instr::Rc, 5)),
        0xB0 | 0xB1 | 0xB2 | 0xB3 | 0xB4 | 0xB5 | 0xB6 | 0xB7 => Some((Instr::Ora, 4)),
        0x07 => Some((Instr::Rlc, 4)),
        0xC4 => Some((Instr::Cnz, 11)),
        0x2A => Some((Instr::Lhld, 16)),
        0x1F => Some((Instr::Rar, 4)),
        0xF6 => Some((Instr::Ori, 7)),
        0xE3 => Some((Instr::Xthl, 18)),
        0xE9 => Some((Instr::Pchl, 5)),
        0xC0 => Some((Instr::Rnz, 5)),
        0xD0 => Some((Instr::Rnc, 5)),
        0x27 => Some((Instr::Daa, 4)),
        0xCC => Some((Instr::Cz, 11)),
        0x0B | 0x1B | 0x2B | 0x3B => Some((Instr::Dcx, 5)),
        0xFA => Some((Instr::Jm, 10)),
        0x22 => Some((Instr::Shld, 16)),
        0xD6 => Some((Instr::Sui, 7)),
        0xDE => Some((Instr::Sbi, 7)),
        0x80 | 0x81 | 0x82 | 0x83 | 0x84 | 0x85 | 0x86 | 0x87 => Some((Instr::Add, 4)),
        0x2F => Some((Instr::Cma, 4)),
        0xB8 | 0xB9 | 0xBA | 0xBB | 0xBC | 0xBD | 0xBE | 0xBF => Some((Instr::Cmp, 4)),
        0xD4 => Some((Instr::Cnc, 11)),
        0x90 | 0x91 | 0x92 | 0x93 | 0x94 | 0x95 | 0x96 | 0x97 => Some((Instr::Sub, 4)),
        0xEA => Some((Instr::Jpe, 10)),
        0xE2 => Some((Instr::Jpo, 10)),
        0xF2 => Some((Instr::Jp, 10)),
        0xCE => Some((Instr::Aci, 7)),
        0x02 | 0x12 => Some((Instr::Stax, 7)),
        0xEE => Some((Instr::Xri, 7)),
        0xDC => Some((Instr::Cc, 11)),
        0xE4 => Some((Instr::Cpo, 11)),
        0xFC => Some((Instr::Cm, 11)),
        0xEC => Some((Instr::Cpe, 11)),
        0xF4 => Some((Instr::Cp, 11)),
        0xE8 => Some((Instr::Rpe, 5)),
        0xE0 => Some((Instr::Rpo, 5)),
        0xF0 => Some((Instr::Rp, 5)),
        0xF8 => Some((Instr::Rm, 5)),
        0x98 | 0x99 | 0x9A | 0x9B | 0x9C | 0x9D | 0x9E | 0x9F => Some((Instr::Sbb, 4)),
        0x3F => Some((Instr::Cmc, 4)),
        0x17 => Some((Instr::Ral, 4)),
        0xF9 => Some((Instr::Sphl, 5)),
        0xF3 => Some((Instr::Di, 4)),
        _ => None,
    }
}

/// Looks an opcode up in the dispatch table.
pub fn decode(op: u8) -> (r: Option<(Instr, u32)>)
    ensures
        r == instruction_of(op),
        r matches Some((_, cost)) ==> cost <= 18,
{
    reveal(instruction_of);
    match op {
        0x00 | 0x10 | 0x20 | 0x30 | 0x08 | 0x18 | 0x28 | 0x38 => Some((Instr::Nop, 4)),
        0xC3 | 0xCB => Some((Instr::Jmp, 10)),
        0x01 | 0x11 | 0x21 | 0x31 => Some((Instr::Lxi, 10)),
        0x06 | 0x16 | 0x26 | 0x36 | 0x0E | 0x1E | 0x2E | 0x3E => Some((Instr::Mvi, 7)),
        0xCD | 0xDD | 0xED | 0xFD => Some((Instr::Call, 17)),
        0x0A | 0x1A => Some((Instr::Ldax, 7)),
        0x40 | 0x50 | 0x60 | 0x70 | 0x41 | 0x51 | 0x61 | 0x71 |
        0x42 | 0x52 | 0x62 | 0x72 | 0x43 | 0x53 | 0x63 | 0x73 |
        0x44 | 0x54 | 0x64 | 0x74 | 0x45 | 0x55 | 0x65 | 0x75 |
        0x46 | 0x56 | 0x66 | 0x47 | 0x57 | 0x67 | 0x77 | 0x48 |
        0x58 | 0x68 | 0x78 | 0x49 | 0x59 | 0x69 | 0x79 | 0x4A |
        0x5A | 0x6A | 0x7A | 0x4B | 0x5B | 0x6B | 0x7B | 0x4C |
        0x5C | 0x6C | 0x7C | 0x4D | 0x5D | 0x6D | 0x7D | 0x4E |
        0x5E | 0x6E | 0x7E | 0x4F | 0x5F | 0x6F | 0x7F => Some((Instr::Mov, 5)),
        0x03 | 0x13 | 0x23 | 0x33 => Some((Instr::Inx, 5)),
        0x05 | 0x15 | 0x25 | 0x35 | 0x0D | 0x1D | 0x2D | 0x3D => Some((Instr::Dcr, 5)),
        0xC2 => Some((Instr::Jnz, 10)),
        0x32 => Some((Instr::Sta, 13)),
        0xC9 | 0xD9 => Some((Instr::Ret, 10)),
        0xFE => Some((Instr::Cpi, 7)),
        0xC5 | 0xD5 | 0xE5 | 0xF5 => Some((Instr::Push, 11)),
        0x09 | 0x19 | 0x29 | 0x39 => Some((Instr::Dad, 10)),
        0xEB => Some((Instr::Xchg, 5)),
        0xC1 | 0xD1 | 0xE1 | 0xF1 => Some((Instr::Pop, 10)),
        0xD3 => Some((Instr::Out, 10)),
        0x04 | 0x14 | 0x24 | 0x34 | 0x0C | 0x1C | 0x2C | 0x3C => Some((Instr::Inr, 5)),
        0x0F => Some((Instr::Rrc, 4)),
        0xE6 => Some((Instr::Ani, 7)),
        0xC6 => Some((Instr::Adi, 7)),
        0x88 | 0x89 | 0x8A | 0x8B | 0x8C | 0x8D | 0x8E | 0x8F => Some((Instr::Adc, 4)),
        0x3A => Some((Instr::Lda, 13)),
        0xA8 | 0xA9 | 0xAA | 0xAB | 0xAC | 0xAD | 0xAE | 0xAF => Some((Instr::Xra, 4)),
        0xFB => Some((Instr::Ei, 4)),
        0xA0 | 0xA1 | 0xA2 | 0xA3 | 0xA4 | 0xA5 | 0xA6 | 0xA7 => Some((Instr::Ana, 4)),
        0xCA => Some((Instr::Jz, 10)),
        0xDB => Some((Instr::Inp, 10)),
        0xC8 => Some((Instr::Rz, 5)),
        0xDA => Some((Instr::Jc, 10)),
        0xD2 => Some((Instr::Jnc, 10)),
        0x37 => Some((Instr::Stc, 4)),
        0xD8 => Some((Instr::Rc, 5)),
        0xB0 | 0xB1 | 0xB2 | 0xB3 | 0xB4 | 0xB5 | 0xB6 | 0xB7 => Some((Instr::Ora, 4)),
        0x07 => Some((Instr::Rlc, 4)),
        0xC4 => Some((Instr::Cnz, 11)),
        0x2A => Some((Instr::Lhld, 16)),
        0x1F => Some((Instr::Rar, 4)),
        0xF6 => Some((Instr::Ori, 7)),
        0xE3 => Some((Instr::Xthl, 18)),
        0xE9 => Some((Instr::Pchl, 5)),
        0xC0 => Some((Instr::Rnz, 5)),
        0xD0 => Some((Instr::Rnc, 5)),
        0x27 => Some((Instr::Daa, 4)),
        0xCC => Some((Instr::Cz, 11)),
        0x0B | 0x1B | 0x2B | 0x3B => Some((Instr::Dcx, 5)),
        0xFA => Some((Instr::Jm, 10)),
        0x22 => Some((Instr::Shld, 16)),
        0xD6 => Some((Instr::Sui, 7)),
        0xDE => Some((Instr::Sbi, 7)),
        0x80 | 0x81 | 0x82 | 0x83 | 0x84 | 0x85 | 0x86 | 0x87 => Some((Instr::Add, 4)),
        0x2F => Some((Instr::Cma, 4)),
        0xB8 | 0xB9 | 0xBA | 0xBB | 0xBC | 0xBD | 0xBE | 0xBF => Some((Instr::Cmp, 4)),
        0xD4 => Some((Instr::Cnc, 11)),
        0x90 | 0x91 | 0x92 | 0x93 | 0x94 | 0x95 | 0x96 | 0x97 => Some((Instr::Sub, 4)),
        0xEA => Some((Instr::Jpe, 10)),
        0xE2 => Some((Instr::Jpo, 10)),
        0xF2 => Some((Instr::Jp, 10)),
        0xCE => Some((Instr::Aci, 7)),
        0x02 | 0x12 => Some((Instr::Stax, 7)),
        0xEE => Some((Instr::Xri, 7)),
        0xDC => Some((Instr::Cc, 11)),
        0xE4 => Some((Instr::Cpo, 11)),
        0xFC => Some((Instr::Cm, 11)),
        0xEC => Some((Instr::Cpe, 11)),
        0xF4 => Some((Instr::Cp, 11)),
        0xE8 => Some((Instr::Rpe, 5)),
        0xE0 => Some((Instr::Rpo, 5)),
        0xF0 => Some((Instr::Rp, 5)),
        0xF8 => Some((Instr::Rm, 5)),
        0x98 | 0x99 | 0x9A | 0x9B | 0x9C | 0x9D | 0x9E | 0x9F => Some((Instr::Sbb, 4)),
        0x3F => Some((Instr::Cmc, 4)),
        0x17 => Some((Instr::Ral, 4)),
        0xF9 => Some((Instr::Sphl, 5)),
        0xF3 => Some((Instr::Di, 4)),
        _ => None,
    }
}

} // verus!
