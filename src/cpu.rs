//! The processor: register file, flag byte, stack, port bank and the
//! interrupt controller, with a mathematical model of the whole state.

use vstd::prelude::*;
use crate::bits::{even_parity, high_byte, is_even_parity, low_byte, u16_to_u8, u8_to_u16, word};
use crate::opcode::{dst_of, pair_of, src_of};
use crate::ram::{store_word, word_at, Sram, LAST_WORD_ADDRESS};

verus! {

pub const REG_BC: u8 = 0;
pub const REG_DE: u8 = 1;
pub const REG_HL: u8 = 2;
pub const REG_SP: u8 = 3;
/// The accumulator and the flag byte as one pair.
pub const REG_PSW: u8 = 4;

/// Register selector of the accumulator.
pub const REG_A: u8 = 7;
/// Register selector that stands for the byte in memory at HL.
pub const REG_M: u8 = 6;

pub const FLAG_C: u8 = 0x01;
pub const FLAG_P: u8 = 0x04;
pub const FLAG_AC: u8 = 0x10;
/// Interrupt enable.
pub const FLAG_INT: u8 = 0x20;
pub const FLAG_Z: u8 = 0x40;
pub const FLAG_S: u8 = 0x80;

/// Vector of the end-of-screen interrupt.
pub const INT_END: u16 = 0x08;
/// Vector of the mid-screen interrupt.
pub const INT_MID: u16 = 0x10;

/// Cycles between two interrupts: a 2 MHz clock, two interrupts per frame at 60 Hz.
pub const CYCLES_PER_INTERRUPT: u32 = 16667;

/// The cycle counter must stay below this for an instruction to run; the
/// interrupt controller keeps it far lower.
pub const CYCLE_CEILING: u32 = 0xFFFF_0000;

/// Stack pointer at reset: the top of the cabinet's working memory.
pub const STACK_TOP: u16 = 0x2400;

/// The first and one past the last address of video memory.
pub const VRAM_START: usize = 0x2400;
pub const VRAM_END: usize = 0x4000;

/// `x` reduced into the 16-bit range.
pub open spec fn wrap16(x: int) -> u16 {
    (x % 0x10000) as u16
}

/// The flag byte `f` with the bits of `flag` set when `on`, cleared otherwise.
pub open spec fn put_flag(f: u8, flag: u8, on: bool) -> u8 {
    if on {
        f | flag
    } else {
        f & !flag
    }
}

/// The flag byte after an operation that took `initial` to `result`, widened
/// to 16 bits: only the flags in `mask` change.
pub open spec fn flags_after(f: u8, mask: u8, initial: u16, result: u16) -> u8 {
    let f1 = if mask & FLAG_Z != 0 { put_flag(f, FLAG_Z, result % 256 == 0) } else { f };
    let f2 = if mask & FLAG_C != 0 { put_flag(f1, FLAG_C, result > 255) } else { f1 };
    let f3 = if mask & FLAG_P != 0 {
        put_flag(f2, FLAG_P, even_parity((result % 256) as u8))
    } else {
        f2
    };
    let f4 = if mask & FLAG_S != 0 { put_flag(f3, FLAG_S, result & 0x80 != 0) } else { f3 };
    if mask & FLAG_AC != 0 {
        put_flag(f4, FLAG_AC, (initial & 0xf) > (result & 0xf))
    } else {
        f4
    }
}

/// The interrupt vector that follows one to `last`: the phases alternate,
/// and with no end-of-screen interrupt before, the end-of-screen one comes.
pub open spec fn next_vector(last: u16) -> u16 {
    if last == INT_END {
        INT_MID
    } else {
        INT_END
    }
}

/// The whole processor state as plain values.
pub struct CpuState {
    pub a: u8,
    pub f: u8,
    pub b: u8,
    pub c: u8,
    pub d: u8,
    pub e: u8,
    pub h: u8,
    pub l: u8,
    pub sp: u16,
    pub pc: u16,
    pub mem: Seq<u8>,
    pub cycles: u32,
    pub instruction_count: u64,
    pub current_opcode: u8,
    pub last_interrupt: u16,
    pub port4hi: u8,
    pub port4lo: u8,
    pub port2: u8,
    pub inp1: u8,
    pub inp2: u8,
    pub port3o: u8,
    pub port5o: u8,
    pub interrupt_in_progress: bool,
}

impl CpuState {
    pub open spec fn hl(self) -> u16 {
        word(self.l, self.h)
    }

    pub open spec fn flag(self, flag: u8) -> bool {
        self.f & flag != 0
    }

    /// The carry flag as a number.
    pub open spec fn carry(self) -> u16 {
        if self.flag(FLAG_C) {
            1
        } else {
            0
        }
    }

    pub open spec fn dst(self) -> u8 {
        dst_of(self.current_opcode)
    }

    pub open spec fn src(self) -> u8 {
        src_of(self.current_opcode)
    }

    pub open spec fn rp(self) -> u8 {
        pair_of(self.current_opcode)
    }

    /// The register that selector `r` names; 6 is the byte in memory at HL.
    pub open spec fn reg(self, r: u8) -> u8 {
        if r == 0 {
            self.b
        } else if r == 1 {
            self.c
        } else if r == 2 {
            self.d
        } else if r == 3 {
            self.e
        } else if r == 4 {
            self.h
        } else if r == 5 {
            self.l
        } else if r == 6 {
            self.mem[self.hl() as int]
        } else {
            self.a
        }
    }

    pub open spec fn set_reg(self, r: u8, v: u8) -> CpuState {
        if r == 0 {
            CpuState { b: v, ..self }
        } else if r == 1 {
            CpuState { c: v, ..self }
        } else if r == 2 {
            CpuState { d: v, ..self }
        } else if r == 3 {
            CpuState { e: v, ..self }
        } else if r == 4 {
            CpuState { h: v, ..self }
        } else if r == 5 {
            CpuState { l: v, ..self }
        } else if r == 6 {
            CpuState { mem: self.mem.update(self.hl() as int, v), ..self }
        } else {
            CpuState { a: v, ..self }
        }
    }

    /// The register pair that selector `p` names: BC, DE, HL, SP, then PSW.
    pub open spec fn pair(self, p: u8) -> u16 {
        if p == 0 {
            word(self.c, self.b)
        } else if p == 1 {
            word(self.e, self.d)
        } else if p == 2 {
            self.hl()
        } else if p == 3 {
            self.sp
        } else {
            word(self.f, self.a)
        }
    }

    pub open spec fn set_pair(self, p: u8, v: u16) -> CpuState {
        if p == 0 {
            CpuState { b: high_byte(v), c: low_byte(v), ..self }
        } else if p == 1 {
            CpuState { d: high_byte(v), e: low_byte(v), ..self }
        } else if p == 2 {
            CpuState { h: high_byte(v), l: low_byte(v), ..self }
        } else if p == 3 {
            CpuState { sp: v, ..self }
        } else {
            CpuState { a: high_byte(v), f: low_byte(v), ..self }
        }
    }

    pub open spec fn with_pc(self, pc: u16) -> CpuState {
        CpuState { pc: pc, ..self }
    }

    pub open spec fn with_f(self, f: u8) -> CpuState {
        CpuState { f: f, ..self }
    }

    pub open spec fn with_a(self, a: u8) -> CpuState {
        CpuState { a: a, ..self }
    }

    pub open spec fn add_cycles(self, n: u32) -> CpuState {
        CpuState { cycles: (self.cycles + n) as u32, ..self }
    }

    /// The byte after the opcode.
    pub open spec fn imm8(self) -> u8 {
        self.mem[self.pc as int]
    }

    /// The word after the opcode.
    pub open spec fn imm16(self) -> u16 {
        word_at(self.mem, self.pc)
    }

    /// The program counter moved past `n` operand bytes.
    pub open spec fn skip(self, n: int) -> CpuState {
        self.with_pc(wrap16(self.pc + n))
    }

    /// `v` pushed: the stack pointer moves down two bytes, then the word is stored there.
    pub open spec fn push(self, v: u16) -> CpuState {
        let sp = wrap16(self.sp - 2);
        CpuState { sp: sp, mem: store_word(self.mem, sp, v), ..self }
    }

    /// The word on top of the stack.
    pub open spec fn top(self) -> u16 {
        word_at(self.mem, self.sp)
    }

    /// The stack with its top word removed.
    pub open spec fn popped(self) -> CpuState {
        CpuState { sp: wrap16(self.sp + 2), ..self }
    }

    pub open spec fn update_flags(self, mask: u8, initial: u16, result: u16) -> CpuState {
        self.with_f(flags_after(self.f, mask, initial, result))
    }

    /// The six flags by name.
    pub open spec fn flag_dump(self) -> FlagDump {
        FlagDump {
            zero: self.flag(FLAG_Z),
            aux_carry: self.flag(FLAG_AC),
            carry: self.flag(FLAG_C),
            parity: self.flag(FLAG_P),
            sign: self.flag(FLAG_S),
            interrupt: self.flag(FLAG_INT),
        }
    }

    /// The effect of an interrupt: the program counter is pushed and the
    /// next vector of the alternation is entered.
    pub open spec fn interrupted(self) -> CpuState {
        let vector = next_vector(self.last_interrupt);
        CpuState {
            pc: vector,
            last_interrupt: vector,
            interrupt_in_progress: true,
            ..self.push(self.pc)
        }
    }
}

/// Why the processor stopped.
#[derive(Debug, Clone, Copy, PartialEq, Eq, Structural)]
pub enum FaultKind {
    /// The opcode at the program counter has no instruction assigned.
    UnassignedOpcode,
    /// The instruction, or an interrupt, would read or write a word at
    /// 0xFFFF, which reaches past the address space.
    AddressOutOfRange,
}

/// Everything known of the processor when it stopped; `pc` is the address
/// of the instruction that could not run. The stack top is `None` when the
/// stack pointer is 0xFFFF, where no whole word lies.
#[derive(Debug, Clone, Copy, PartialEq, Eq, Structural)]
pub struct Fault {
    pub kind: FaultKind,
    pub pc: u16,
    pub opcode: u8,
    pub sp: u16,
    pub stack_top: Option<u16>,
    pub a: u8,
    pub b: u8,
    pub c: u8,
    pub d: u8,
    pub e: u8,
    pub h: u8,
    pub l: u8,
    pub f: u8,
    pub flags: FlagDump,
    pub instruction_count: u64,
}

/// The report of a fault of kind `kind` in state `s`.
pub open spec fn fault_of(s: CpuState, kind: FaultKind) -> Fault {
    Fault {
        kind: kind,
        pc: s.pc,
        opcode: s.mem[s.pc as int],
        sp: s.sp,
        stack_top: if s.sp <= LAST_WORD_ADDRESS {
            Some(s.top())
        } else {
            None
        },
        a: s.a,
        b: s.b,
        c: s.c,
        d: s.d,
        e: s.e,
        h: s.h,
        l: s.l,
        f: s.f,
        flags: s.flag_dump(),
        instruction_count: s.instruction_count,
    }
}

/// What the interrupt controller did at one check.
#[derive(Debug, Clone, Copy, PartialEq, Eq, Structural)]
pub enum InterruptCheck {
    /// Fewer cycles than one interrupt interval have run.
    NotDue,
    /// An interval has run, but interrupts are disabled.
    Masked,
    /// An interval has run and the interrupt with this vector was dispatched.
    Fired(u16),
    /// An interrupt was due, but pushing the program counter would write a
    /// word at 0xFFFF; nothing changed.
    Faulted(Fault),
}

/// The interrupt controller at one check: once more cycles than one
/// interval have run, the interval is taken off the count, and with
/// interrupts enabled the next interrupt of the alternation is dispatched.
/// A dispatch whose push would write a word at 0xFFFF faults instead and
/// changes nothing.
pub open spec fn check_interrupt_spec(s: CpuState) -> (CpuState, InterruptCheck) {
    if s.cycles > CYCLES_PER_INTERRUPT {
        let t = CpuState { cycles: (s.cycles - CYCLES_PER_INTERRUPT) as u32, ..s };
        if s.flag(FLAG_INT) && s.sp == 1 {
            (s, InterruptCheck::Faulted(fault_of(s, FaultKind::AddressOutOfRange)))
        } else if s.flag(FLAG_INT) {
            (t.interrupted(), InterruptCheck::Fired(next_vector(s.last_interrupt)))
        } else {
            (t, InterruptCheck::Masked)
        }
    } else {
        (s, InterruptCheck::NotDue)
    }
}

/// The six flags, each by name.
#[derive(Debug, Clone, Copy, PartialEq, Eq, Structural)]
pub struct FlagDump {
    pub zero: bool,
    pub aux_carry: bool,
    pub carry: bool,
    pub parity: bool,
    pub sign: bool,
    pub interrupt: bool,
}

/// The cabinet's buttons, each held down or not.
#[derive(Debug, Clone, Copy, PartialEq, Eq, Structural)]
pub struct Buttons {
    pub coin: bool,
    pub start: bool,
    pub fire: bool,
    pub left: bool,
    pub right: bool,
}

impl Buttons {
    /// The switch byte: coin is bit 0, start bit 2, fire bit 4, left bit 5
    /// and right bit 6; the bits of buttons not held are clear.
    pub open spec fn bits(self) -> u8 {
        let coin = if self.coin { 0x01int } else { 0 };
        let start = if self.start { 0x04int } else { 0 };
        let fire = if self.fire { 0x10int } else { 0 };
        let left = if self.left { 0x20int } else { 0 };
        let right = if self.right { 0x40int } else { 0 };
        (coin + start + fire + left + right) as u8
    }

    pub fn to_bits(&self) -> (r: u8)
        ensures
            r == self.bits(),
    {
        let mut bits: u8 = 0;
        if self.coin {
            bits = bits + 0x01;
        }
        if self.start {
            bits = bits + 0x04;
        }
        if self.fire {
            bits = bits + 0x10;
        }
        if self.left {
            bits = bits + 0x20;
        }
        if self.right {
            bits = bits + 0x40;
        }
        bits
    }
}

/// The processor with its memory and port bank.
pub struct Cpu {
    pub a: u8,
    pub f: u8,
    pub b: u8,
    pub c: u8,
    pub d: u8,
    pub e: u8,
    pub h: u8,
    pub l: u8,
    pub sp: u16,
    pub pc: u16,
    pub ram: Sram,
    /// Cycles run since the last interrupt was due.
    pub cycles: u32,
    pub instruction_count: u64,
    pub current_opcode: u8,
    /// The vector of the last interrupt.
    pub last_interrupt: u16,
    /// High and low half of the shift register.
    pub port4hi: u8,
    pub port4lo: u8,
    /// The shift amount of the shift register.
    pub port2: u8,
    /// The two switch bytes.
    pub inp1: u8,
    pub inp2: u8,
    /// The sound ports.
    pub port3o: u8,
    pub port5o: u8,
    pub interrupt_in_progress: bool,
}

impl View for Cpu {
    type V = CpuState;

    open spec fn view(&self) -> CpuState {
        CpuState {
            a: self.a,
            f: self.f,
            b: self.b,
            c: self.c,
            d: self.d,
            e: self.e,
            h: self.h,
            l: self.l,
            sp: self.sp,
            pc: self.pc,
            mem: self.ram.bytes@,
            cycles: self.cycles,
            instruction_count: self.instruction_count,
            current_opcode: self.current_opcode,
            last_interrupt: self.last_interrupt,
            port4hi: self.port4hi,
            port4lo: self.port4lo,
            port2: self.port2,
            inp1: self.inp1,
            inp2: self.inp2,
            port3o: self.port3o,
            port5o: self.port5o,
            interrupt_in_progress: self.interrupt_in_progress,
        }
    }
}

impl Cpu {
    pub open spec fn wf(&self) -> bool {
        self.ram.wf()
    }

    /// A processor at reset over `ram`: registers and ports zero, the stack
    /// at the top of working memory, no interrupt before.
    pub fn new(ram: Sram) -> (r: Cpu)
        requires
            ram.wf(),
        ensures
            r.wf(),
            r@ == (CpuState {
                a: 0,
                f: 0,
                b: 0,
                c: 0,
                d: 0,
                e: 0,
                h: 0,
                l: 0,
                sp: STACK_TOP,
                pc: 0,
                mem: ram.bytes@,
                cycles: 0,
                instruction_count: 0,
                current_opcode: 0,
                last_interrupt: INT_MID,
                port4hi: 0,
                port4lo: 0,
                port2: 0,
                inp1: 0,
                inp2: 0,
                port3o: 0,
                port5o: 0,
                interrupt_in_progress: false,
            }),
    {
        Cpu {
            a: 0x00,
            f: 0x00,
            b: 0x00,
            c: 0x00,
            d: 0x00,
            e: 0x00,
            h: 0x00,
            l: 0x00,
            sp: STACK_TOP,
            pc: 0x0000,
            ram: ram,
            cycles: 0,
            instruction_count: 0,
            current_opcode: 0x00,
            last_interrupt: INT_MID,
            port4hi: 0x00,
            port4lo: 0x00,
            port2: 0x00,
            inp1: 0x00,
            inp2: 0x00,
            port3o: 0x00,
            port5o: 0x00,
            interrupt_in_progress: false,
        }
    }

    /// The register that `index` selects; 6 is the byte in memory at HL.
    pub fn read_byte(&self, index: u8) -> (r: u8)
        requires
            self.wf(),
            index < 8,
        ensures
            r == self@.reg(index),
    {
        match index {
            0 => self.b,
            1 => self.c,
            2 => self.d,
            3 => self.e,
            4 => self.h,
            5 => self.l,
            6 => self.ram.read_byte(self.read_dword(REG_HL)),
            _ => self.a,
        }
    }

    /// The word on top of the stack, left in place. The whole word must lie
    /// in the address space.
    pub fn read_stack(&self) -> (r: u16)
        requires
            self.wf(),
            self.sp <= LAST_WORD_ADDRESS,
        ensures
            r == self@.top(),
    {
        match self.ram.read_dword(self.sp) {
            Ok(value) => value,
            Err(_) => 0,  // not reached: the word lies in the address space
        }
    }

    /// Removes the word on top of the stack and returns it.
    pub fn pop_stack(&mut self) -> (r: u16)
        requires
            old(self).wf(),
            old(self).sp <= LAST_WORD_ADDRESS,
        ensures
            final(self).wf(),
            r == old(self)@.top(),
            final(self)@ == old(self)@.popped(),
    {
        let value = self.read_stack();
        self.sp = self.sp.wrapping_add(2);
        value
    }

    /// Pushes `value`: the stack pointer moves down two bytes first. The
    /// word must then lie in the address space, so the stack pointer is not 1.
    pub fn push_stack(&mut self, value: u16)
        requires
            old(self).wf(),
            old(self).sp != 1,
        ensures
            final(self).wf(),
            final(self)@ == old(self)@.push(value),
    {
        self.sp = self.sp.wrapping_sub(2);
        let _ = self.ram.write_dword_stack(self.sp, value);
    }

    /// The register pair that `index` selects: BC, DE, HL, SP, then PSW.
    pub fn read_dword(&self, index: u8) -> (r: u16)
        requires
            index < 5,
        ensures
            r == self@.pair(index),
    {
        match index {
            0 => u8_to_u16(self.c, self.b),
            1 => u8_to_u16(self.e, self.d),
            2 => u8_to_u16(self.l, self.h),
            3 => self.sp,
            _ => u8_to_u16(self.f, self.a),
        }
    }

    /// Stores `value` in the register that `index` selects.
    pub fn write_byte(&mut self, index: u8, value: u8)
        requires
            old(self).wf(),
            index < 8,
        ensures
            final(self).wf(),
            final(self)@ == old(self)@.set_reg(index, value),
    {
        match index {
            0 => self.b = value,
            1 => self.c = value,
            2 => self.d = value,
            3 => self.e = value,
            4 => self.h = value,
            5 => self.l = value,
            6 => {
                let hl: u16 = self.read_dword(REG_HL);
                self.ram.write_byte(hl, value)
            },
            _ => self.a = value,
        }
    }

    /// Stores `value` in the register pair that `index` selects.
    pub fn write_dword(&mut self, index: u8, value: u16)
        requires
            old(self).wf(),
            index < 5,
        ensures
            final(self).wf(),
            final(self)@ == old(self)@.set_pair(index, value),
    {
        let (upper, lower) = u16_to_u8(value);
        match index {
            0 => {
                self.b = upper;
                self.c = lower;
            },
            1 => {
                self.d = upper;
                self.e = lower;
            },
            2 => {
                self.h = upper;
                self.l = lower;
            },
            3 => {
                self.sp = value;
            },
            _ => {
                self.a = upper;
                self.f = lower;
            },
        }
    }

    /// The byte after the opcode; the program counter moves past it.
    pub fn read_im_byte(&mut self) -> (r: u8)
        requires
            old(self).wf(),
        ensures
            final(self).wf(),
            r == old(self)@.imm8(),
            final(self)@ == old(self)@.skip(1),
    {
        let im = self.ram.read_byte(self.pc);
        self.pc = self.pc.wrapping_add(1);
        im
    }

    /// The word after the opcode; the program counter moves past it. The
    /// whole word must lie in the address space.
    pub fn read_im_dword(&mut self) -> (r: u16)
        requires
            old(self).wf(),
            old(self).pc <= LAST_WORD_ADDRESS,
        ensures
            final(self).wf(),
            r == old(self)@.imm16(),
            final(self)@ == old(self)@.skip(2),
    {
        let im = match self.ram.read_dword(self.pc) {
            Ok(value) => value,
            Err(_) => 0,  // not reached: the word lies in the address space
        };
        self.pc = self.pc.wrapping_add(2);
        im
    }

    /// Updates the flags in `mask` for an operation that took `initial` to
    /// `result`: zero and parity of the low byte, carry when the result
    /// passed 0xFF, sign from bit 7, auxiliary carry when the low nibble
    /// fell below that of `initial`. The other flags stay.
    pub fn set_flags(&mut self, mask: u8, initial: u16, result: u16)
        requires
            old(self).wf(),
        ensures
            final(self).wf(),
            final(self)@ == old(self)@.update_flags(mask, initial, result),
    {
        if (mask & FLAG_Z) != 0 {
            if result % 256 == 0 {
                self.f = self.f | FLAG_Z;
            } else {
                self.f = self.f & !FLAG_Z;
            }
        }
        if (mask & FLAG_C) != 0 {
            if result > 255 {
                self.f = self.f | FLAG_C;
            } else {
                self.f = self.f & !FLAG_C;
            }
        }
        if (mask & FLAG_P) != 0 {
            if is_even_parity((result % 256) as u8) {
                self.f = self.f | FLAG_P;
            } else {
                self.f = self.f & !FLAG_P;
            }
        }
        if (mask & FLAG_S) != 0 {
            if result & 0x80 != 0 {
                self.f = self.f | FLAG_S;
            } else {
                self.f = self.f & !FLAG_S;
            }
        }
        if (mask & FLAG_AC) != 0 {
            if (initial & 0xf) > (result & 0xf) {
                self.f = self.f | FLAG_AC;
            } else {
                self.f = self.f & !FLAG_AC;
            }
        }
    }

    /// Whether `flag` is set.
    pub fn read_flag(&self, flag: u8) -> (r: bool)
        requires
            flag == FLAG_AC || flag == FLAG_C || flag == FLAG_Z || flag == FLAG_P || flag
                == FLAG_S || flag == FLAG_INT,
        ensures
            r == self@.flag(flag),
    {
        (self.f & flag) != 0
    }

    /// Continues execution at `address`.
    pub fn move_pc(&mut self, address: u16)
        ensures
            final(self)@ == old(self)@.with_pc(address),
            final(self).ram == old(self).ram,
    {
        self.pc = address;
    }

    /// Dispatches an interrupt: pushes the program counter and enters the
    /// vector that follows the last one. Returns that vector; for the
    /// end-of-screen vector the caller samples input and presents video.
    pub fn interrupt(&mut self) -> (r: u16)
        requires
            old(self).wf(),
            old(self).sp != 1,
        ensures
            final(self).wf(),
            r == next_vector(old(self).last_interrupt),
            final(self)@ == old(self)@.interrupted(),
    {
        self.interrupt_in_progress = true;
        let address: u16 = if self.last_interrupt == INT_END {
            INT_MID
        } else {
            INT_END
        };
        let pc = self.pc;
        self.push_stack(pc);
        self.pc = address;
        self.last_interrupt = address;
        address
    }

    /// Checks the cycle count against the interrupt interval and dispatches
    /// an interrupt when one is due and interrupts are enabled. With
    /// interrupts disabled the phase of the alternation is kept.
    pub fn check_interrupt(&mut self) -> (r: InterruptCheck)
        requires
            old(self).wf(),
        ensures
            final(self).wf(),
            (final(self)@, r) == check_interrupt_spec(old(self)@),
    {
        if self.cycles > CYCLES_PER_INTERRUPT {
            let enabled = self.read_flag(FLAG_INT);
            if enabled && self.sp == 1 {
                return InterruptCheck::Faulted(self.fault_report(FaultKind::AddressOutOfRange));
            }
            self.cycles = self.cycles - CYCLES_PER_INTERRUPT;
            if enabled {
                let vector = self.interrupt();
                InterruptCheck::Fired(vector)
            } else {
                InterruptCheck::Masked
            }
        } else {
            InterruptCheck::NotDue
        }
    }

    /// The video memory: one bit for each pixel.
    pub fn get_vram(&self) -> (r: &[u8])
        requires
            self.wf(),
        ensures
            r@ == self@.mem.subrange(VRAM_START as int, VRAM_END as int),
    {
        vstd::slice::slice_subrange(self.ram.bytes.as_slice(), VRAM_START, VRAM_END)
    }

    /// Sets the first switch byte from the buttons held down.
    pub fn handle_input(&mut self, buttons: Buttons)
        ensures
            final(self)@ == (CpuState { inp1: buttons.bits(), ..old(self)@ }),
            final(self).ram == old(self).ram,
    {
        self.inp1 = buttons.to_bits();
    }

    /// The report of a fault of kind `kind` at the instruction that the
    /// program counter addresses.
    pub fn fault_report(&self, kind: FaultKind) -> (r: Fault)
        requires
            self.wf(),
        ensures
            r == fault_of(self@, kind),
    {
        let stack_top = if self.sp <= LAST_WORD_ADDRESS {
            Some(self.read_stack())
        } else {
            None
        };
        Fault {
            kind: kind,
            pc: self.pc,
            opcode: self.ram.read_byte(self.pc),
            sp: self.sp,
            stack_top: stack_top,
            a: self.a,
            b: self.b,
            c: self.c,
            d: self.d,
            e: self.e,
            h: self.h,
            l: self.l,
            f: self.f,
            flags: self.dump_flags(),
            instruction_count: self.instruction_count,
        }
    }

    /// The six flags by name.
    pub fn dump_flags(&self) -> (r: FlagDump)
        ensures
            r == self@.flag_dump(),
    {
        FlagDump {
            zero: self.read_flag(FLAG_Z),
            aux_carry: self.read_flag(FLAG_AC),
            carry: self.read_flag(FLAG_C),
            parity: self.read_flag(FLAG_P),
            sign: self.read_flag(FLAG_S),
            interrupt: self.read_flag(FLAG_INT),
        }
    }
}

} // verus!
