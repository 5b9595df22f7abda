use invaders::cpu::{
    Buttons, Cpu, Fault, FaultKind, InterruptCheck, CYCLES_PER_INTERRUPT, FLAG_AC, FLAG_C, FLAG_INT, FLAG_P, FLAG_S,
    FLAG_Z, INT_END, INT_MID, STACK_TOP,
};
use invaders::opcode::{decode, Instr, Opcode};
use invaders::ram::Sram;

fn cpu_with(program: &[u8]) -> Cpu {
    let mut ram = Sram::new();
    ram.load(program).unwrap();
    Cpu::new(ram)
}

fn run(cpu: &mut Cpu, n: usize) {
    for _ in 0..n {
        cpu.step().unwrap();
    }
}

#[test]
fn reset_state() {
    let cpu = cpu_with(&[]);
    assert_eq!(cpu.pc, 0);
    assert_eq!(cpu.sp, STACK_TOP);
    assert_eq!(cpu.sp, 0x2400);
    assert_eq!(cpu.last_interrupt, INT_MID);
    assert_eq!(cpu.cycles, 0);
}

#[test]
fn load_immediate_then_add_immediate() {
    // MVI A,0x0F ; ADI 0x01
    let mut cpu = cpu_with(&[0x3E, 0x0F, 0xC6, 0x01]);
    run(&mut cpu, 2);
    assert_eq!(cpu.a, 0x10);
    assert!(cpu.f & FLAG_AC != 0);
    assert!(cpu.f & FLAG_C == 0);
    assert!(cpu.f & FLAG_Z == 0);
    assert_eq!(cpu.pc, 4);
    assert_eq!(cpu.cycles, 14);
    assert_eq!(cpu.instruction_count, 2);
}

#[test]
fn decimal_adjust_overflow_wraps_with_carry() {
    let mut cpu = cpu_with(&[0x27]);
    cpu.a = 0x9A;
    cpu.f = 0;
    run(&mut cpu, 1);
    assert_eq!(cpu.a, 0x00);
    assert!(cpu.f & FLAG_C != 0);
    assert!(cpu.f & FLAG_Z != 0);
}

#[test]
fn decimal_adjust_low_nibble() {
    // 0x0B: low nibble past 9, 6 added.
    let mut cpu = cpu_with(&[0x27]);
    cpu.a = 0x0B;
    run(&mut cpu, 1);
    assert_eq!(cpu.a, 0x11);
    assert!(cpu.f & FLAG_C == 0);
    assert!(cpu.f & FLAG_AC != 0);
}

#[test]
fn increment_then_decrement_every_value() {
    for v in 0..=255u8 {
        // INR B ; DCR B
        let mut cpu = cpu_with(&[0x04, 0x05]);
        cpu.b = v;
        run(&mut cpu, 1);
        assert_eq!(cpu.b, v.wrapping_add(1));
        assert_eq!(cpu.f & FLAG_Z != 0, cpu.b == 0);
        run(&mut cpu, 1);
        assert_eq!(cpu.b, v);
    }
}

#[test]
fn increment_memory_costs_more() {
    // INR M with HL = 0x3000
    let mut cpu = cpu_with(&[0x34]);
    cpu.h = 0x30;
    cpu.l = 0x00;
    cpu.ram.write_byte(0x3000, 0xFF);
    run(&mut cpu, 1);
    assert_eq!(cpu.ram.read_byte(0x3000), 0x00);
    assert!(cpu.f & FLAG_Z != 0);
    assert_eq!(cpu.cycles, 10);
}

#[test]
fn push_then_pop_every_pair() {
    // PUSH B/D/H/PSW then POP the same
    for (push, pop) in [(0xC5u8, 0xC1u8), (0xD5, 0xD1), (0xE5, 0xE1), (0xF5, 0xF1)] {
        let mut cpu = cpu_with(&[push, 0x01, 0x00, 0x00, 0x11, 0x00, 0x00, 0x21, 0x00, 0x00, pop]);
        cpu.a = 0x12;
        cpu.f = 0x83;
        cpu.b = 0x34;
        cpu.c = 0x56;
        cpu.d = 0x78;
        cpu.e = 0x9A;
        cpu.h = 0xBC;
        cpu.l = 0xDE;
        run(&mut cpu, 1);
        assert_eq!(cpu.sp, STACK_TOP - 2);
        // LXI B,0 ; LXI D,0 ; LXI H,0 clear the pairs
        run(&mut cpu, 3);
        cpu.a = 0;
        cpu.f = 0;
        run(&mut cpu, 1);
        assert_eq!(cpu.sp, STACK_TOP);
        match push {
            0xC5 => assert_eq!((cpu.b, cpu.c), (0x34, 0x56)),
            0xD5 => assert_eq!((cpu.d, cpu.e), (0x78, 0x9A)),
            0xE5 => assert_eq!((cpu.h, cpu.l), (0xBC, 0xDE)),
            _ => assert_eq!((cpu.a, cpu.f), (0x12, 0x83)),
        }
    }
}

#[test]
fn push_writes_high_byte_above() {
    let mut cpu = cpu_with(&[0xC5]);
    cpu.b = 0xAB;
    cpu.c = 0xCD;
    run(&mut cpu, 1);
    assert_eq!(cpu.ram.read_byte(0x23FF), 0xAB);
    assert_eq!(cpu.ram.read_byte(0x23FE), 0xCD);
    assert_eq!(cpu.read_stack(), 0xABCD);
}

#[test]
fn call_then_return() {
    // CALL 0x0010 ; at 0x10: RET
    let mut program = vec![0u8; 0x11];
    program[0] = 0xCD;
    program[1] = 0x10;
    program[2] = 0x00;
    program[0x10] = 0xC9;
    let mut cpu = cpu_with(&program);
    run(&mut cpu, 1);
    assert_eq!(cpu.pc, 0x10);
    assert_eq!(cpu.read_stack(), 0x0003);
    assert_eq!(cpu.cycles, 17);
    run(&mut cpu, 1);
    assert_eq!(cpu.pc, 0x0003);
    assert_eq!(cpu.sp, STACK_TOP);
    assert_eq!(cpu.cycles, 27);
}

fn flag_for(op: u8) -> (u8, bool) {
    let cc = (op >> 3) & 7;
    let flag = [FLAG_Z, FLAG_C, FLAG_P, FLAG_S][(cc / 2) as usize];
    (flag, cc % 2 == 1)
}

#[test]
fn conditional_calls_cost_more_when_taken() {
    for op in [0xC4u8, 0xCC, 0xD4, 0xDC, 0xE4, 0xEC, 0xF4, 0xFC] {
        let (flag, when_set) = flag_for(op);
        let mut costs = Vec::new();
        for set in [false, true] {
            let mut cpu = cpu_with(&[op, 0x00, 0x30]);
            cpu.f = if set { flag } else { 0 };
            run(&mut cpu, 1);
            let taken = set == when_set;
            assert_eq!(cpu.pc, if taken { 0x3000 } else { 3 });
            costs.push((taken, cpu.cycles));
        }
        for (taken, cost) in costs {
            assert_eq!(cost, if taken { 17 } else { 11 });
        }
    }
}

#[test]
fn conditional_returns_cost_more_when_taken() {
    for op in [0xC0u8, 0xC8, 0xD0, 0xD8, 0xE0, 0xE8, 0xF0, 0xF8] {
        let (flag, when_set) = flag_for(op);
        for set in [false, true] {
            let mut cpu = cpu_with(&[op]);
            cpu.sp = 0x2000;
            cpu.ram.write_dword(0x2000, 0x1234).unwrap();
            cpu.f = if set { flag } else { 0 };
            run(&mut cpu, 1);
            let taken = set == when_set;
            assert_eq!(cpu.pc, if taken { 0x1234 } else { 1 });
            assert_eq!(cpu.cycles, if taken { 11 } else { 5 });
            assert_eq!(cpu.sp, if taken { 0x2002 } else { 0x2000 });
        }
    }
}

#[test]
fn conditional_jump_consumes_address() {
    // JZ 0x1234 with zero clear
    let mut cpu = cpu_with(&[0xCA, 0x34, 0x12]);
    run(&mut cpu, 1);
    assert_eq!(cpu.pc, 3);
    let mut cpu = cpu_with(&[0xCA, 0x34, 0x12]);
    cpu.f = FLAG_Z;
    run(&mut cpu, 1);
    assert_eq!(cpu.pc, 0x1234);
}

#[test]
fn unassigned_opcode_reports_its_address() {
    let mut cpu = cpu_with(&[0x00, 0x00, 0x76]);
    run(&mut cpu, 2);
    let fault: Fault = cpu.step().unwrap_err();
    assert_eq!(fault.kind, FaultKind::UnassignedOpcode);
    assert_eq!(fault.stack_top, Some(0x0000));
    assert_eq!(fault.pc, 0x0002);
    assert_eq!(fault.opcode, 0x76);
    assert_eq!(fault.sp, STACK_TOP);
    assert_eq!(fault.instruction_count, 2);
    assert_eq!(cpu.pc, 0x0002);
    assert_eq!(cpu.instruction_count, 2);
}

#[test]
fn every_unassigned_opcode_faults() {
    for op in 0..=255u8 {
        let unassigned = op == 0x76 || (op >= 0xC0 && op % 8 == 7);
        assert_eq!(decode(op).is_none(), unassigned);
        if unassigned {
            let mut cpu = cpu_with(&[op]);
            let fault = cpu.step().unwrap_err();
            assert_eq!(fault.pc, 0);
            assert_eq!(fault.opcode, op);
        }
    }
}

#[test]
fn synonyms_share_an_instruction() {
    for op in [0x00u8, 0x08, 0x10, 0x18, 0x20, 0x28, 0x30, 0x38] {
        assert_eq!(decode(op), Some((Instr::Nop, 4)));
    }
    assert_eq!(decode(0xCB), Some((Instr::Jmp, 10)));
    assert_eq!(decode(0xD9), Some((Instr::Ret, 10)));
    assert_eq!(decode(0xFD), Some((Instr::Call, 17)));
}

#[test]
fn opcode_fields() {
    let op = Opcode::new(0x7E);
    assert_eq!(op.dst(), 7);
    assert_eq!(op.src(), 6);
    assert_eq!(Opcode::new(0xE5).pair(), 2);
}

#[test]
fn interrupts_alternate_from_end() {
    let mut cpu = cpu_with(&[]);
    cpu.f = FLAG_INT;
    cpu.pc = 0x1234;
    cpu.cycles = CYCLES_PER_INTERRUPT + 5;
    assert_eq!(cpu.check_interrupt(), InterruptCheck::Fired(INT_END));
    assert_eq!(cpu.pc, INT_END);
    assert_eq!(cpu.cycles, 5);
    assert_eq!(cpu.read_stack(), 0x1234);
    assert!(cpu.interrupt_in_progress);
    cpu.cycles = CYCLES_PER_INTERRUPT + 1;
    assert_eq!(cpu.check_interrupt(), InterruptCheck::Fired(INT_MID));
    assert_eq!(cpu.pc, INT_MID);
    cpu.cycles = CYCLES_PER_INTERRUPT + 1;
    assert_eq!(cpu.check_interrupt(), InterruptCheck::Fired(INT_END));
}

#[test]
fn masked_interrupt_keeps_phase() {
    let mut cpu = cpu_with(&[]);
    cpu.f = FLAG_INT;
    cpu.cycles = CYCLES_PER_INTERRUPT + 1;
    assert_eq!(cpu.check_interrupt(), InterruptCheck::Fired(INT_END));
    cpu.f = 0;
    cpu.cycles = CYCLES_PER_INTERRUPT + 7;
    let pc = cpu.pc;
    assert_eq!(cpu.check_interrupt(), InterruptCheck::Masked);
    assert_eq!(cpu.cycles, 7);
    assert_eq!(cpu.pc, pc);
    assert_eq!(cpu.last_interrupt, INT_END);
    cpu.f = FLAG_INT;
    cpu.cycles = CYCLES_PER_INTERRUPT + 1;
    assert_eq!(cpu.check_interrupt(), InterruptCheck::Fired(INT_MID));
}

#[test]
fn interrupt_not_due_at_threshold() {
    let mut cpu = cpu_with(&[]);
    cpu.f = FLAG_INT;
    cpu.cycles = CYCLES_PER_INTERRUPT;
    assert_eq!(cpu.check_interrupt(), InterruptCheck::NotDue);
    assert_eq!(cpu.cycles, CYCLES_PER_INTERRUPT);
}

#[test]
fn ei_and_di_toggle_interrupt_enable() {
    let mut cpu = cpu_with(&[0xFB, 0xF3]);
    run(&mut cpu, 1);
    assert!(cpu.dump_flags().interrupt);
    run(&mut cpu, 1);
    assert!(!cpu.dump_flags().interrupt);
}

#[test]
fn shift_register_ports() {
    // MVI A,0xAB ; OUT 4 ; MVI A,0xCD ; OUT 4 ; MVI A,3 ; OUT 2 ; IN 3
    let mut cpu = cpu_with(&[0x3E, 0xAB, 0xD3, 0x04, 0x3E, 0xCD, 0xD3, 0x04, 0x3E, 0x03, 0xD3, 0x02, 0xDB, 0x03]);
    run(&mut cpu, 7);
    assert_eq!(cpu.port4hi, 0xCD);
    assert_eq!(cpu.port4lo, 0xAB);
    assert_eq!(cpu.port2, 3);
    assert_eq!(cpu.a, 0x6D);
}

#[test]
fn input_ports_and_unassigned_ports() {
    // IN 1 ; IN 2 ; IN 7 ; OUT 9
    let mut cpu = cpu_with(&[0xDB, 0x01, 0xDB, 0x02, 0xDB, 0x07, 0xD3, 0x09]);
    cpu.inp1 = 0x11;
    cpu.inp2 = 0x22;
    run(&mut cpu, 1);
    assert_eq!(cpu.a, 0x11);
    run(&mut cpu, 1);
    assert_eq!(cpu.a, 0x22);
    run(&mut cpu, 2);
    assert_eq!(cpu.a, 0x22);
    assert_eq!(cpu.pc, 8);
}

#[test]
fn buttons_set_switch_bits() {
    let mut cpu = cpu_with(&[]);
    cpu.inp1 = 0xFF;
    cpu.handle_input(Buttons { coin: true, start: false, fire: true, left: false, right: true });
    assert_eq!(cpu.inp1, 0x01 | 0x10 | 0x40);
    cpu.handle_input(Buttons { coin: false, start: false, fire: false, left: false, right: false });
    assert_eq!(cpu.inp1, 0);
}

#[test]
fn arithmetic_flags() {
    // MVI A,0x10 ; SUI 0x20 -> borrow
    let mut cpu = cpu_with(&[0x3E, 0x10, 0xD6, 0x20]);
    run(&mut cpu, 2);
    assert_eq!(cpu.a, 0xF0);
    assert!(cpu.f & FLAG_C != 0);
    assert!(cpu.f & FLAG_S != 0);
    assert!(cpu.f & FLAG_P != 0);
    // MVI A,0xFF ; ADI 0x01 -> carry and zero
    let mut cpu = cpu_with(&[0x3E, 0xFF, 0xC6, 0x01]);
    run(&mut cpu, 2);
    assert_eq!(cpu.a, 0x00);
    assert!(cpu.f & FLAG_C != 0);
    assert!(cpu.f & FLAG_Z != 0);
}

#[test]
fn compare_leaves_accumulator() {
    // MVI A,5 ; CPI 5
    let mut cpu = cpu_with(&[0x3E, 0x05, 0xFE, 0x05]);
    run(&mut cpu, 2);
    assert_eq!(cpu.a, 5);
    assert!(cpu.f & FLAG_Z != 0);
    assert!(cpu.f & FLAG_C == 0);
}

#[test]
fn add_with_carry_and_subtract_with_borrow() {
    // STC ; MVI A,1 ; MVI B,1 ; ADC B -> 3 ; STC ; SBB B -> 1
    let mut cpu = cpu_with(&[0x37, 0x3E, 0x01, 0x06, 0x01, 0x88, 0x37, 0x98]);
    run(&mut cpu, 4);
    assert_eq!(cpu.a, 3);
    run(&mut cpu, 2);
    assert_eq!(cpu.a, 1);
}

#[test]
fn logical_operations_clear_carry() {
    // STC ; MVI A,0xF0 ; ANI 0x3C
    let mut cpu = cpu_with(&[0x37, 0x3E, 0xF0, 0xE6, 0x3C]);
    run(&mut cpu, 3);
    assert_eq!(cpu.a, 0x30);
    assert!(cpu.f & FLAG_C == 0);
    // STC ; MVI A,0x0F ; XRI 0xFF
    let mut cpu = cpu_with(&[0x37, 0x3E, 0x0F, 0xEE, 0xFF]);
    run(&mut cpu, 3);
    assert_eq!(cpu.a, 0xF0);
    assert!(cpu.f & FLAG_C == 0);
}

#[test]
fn rotates() {
    // MVI A,0x81 ; RLC -> 0x03, carry
    let mut cpu = cpu_with(&[0x3E, 0x81, 0x07]);
    run(&mut cpu, 2);
    assert_eq!(cpu.a, 0x03);
    assert!(cpu.f & FLAG_C != 0);
    // MVI A,0x01 ; RRC -> 0x80, carry
    let mut cpu = cpu_with(&[0x3E, 0x01, 0x0F]);
    run(&mut cpu, 2);
    assert_eq!(cpu.a, 0x80);
    assert!(cpu.f & FLAG_C != 0);
    // MVI A,0x80 ; RAL with carry clear -> 0x00, carry ; RAL -> 0x01, no carry
    let mut cpu = cpu_with(&[0x3E, 0x80, 0x17, 0x17]);
    run(&mut cpu, 2);
    assert_eq!(cpu.a, 0x00);
    assert!(cpu.f & FLAG_C != 0);
    run(&mut cpu, 1);
    assert_eq!(cpu.a, 0x01);
    assert!(cpu.f & FLAG_C == 0);
    // STC ; MVI A,0x02 ; RAR -> 0x81, no carry
    let mut cpu = cpu_with(&[0x37, 0x3E, 0x02, 0x1F]);
    run(&mut cpu, 3);
    assert_eq!(cpu.a, 0x81);
    assert!(cpu.f & FLAG_C == 0);
}

#[test]
fn double_add_carry() {
    // LXI H,0xFFFF ; LXI B,0x0002 ; DAD B
    let mut cpu = cpu_with(&[0x21, 0xFF, 0xFF, 0x01, 0x02, 0x00, 0x09]);
    run(&mut cpu, 3);
    assert_eq!((cpu.h, cpu.l), (0x00, 0x01));
    assert!(cpu.f & FLAG_C != 0);
}

#[test]
fn memory_moves_and_exchanges() {
    // LXI H,0x3000 ; MVI M,0x42 ; MOV A,M ; XCHG ; SHLD 0x3100 ; LHLD 0x3100 ; STA 0x3200 ; LDA 0x3200
    let mut cpu = cpu_with(&[
        0x21, 0x00, 0x30, 0x36, 0x42, 0x7E, 0xEB, 0x22, 0x00, 0x31, 0x2A, 0x00, 0x31, 0x32, 0x00, 0x32, 0x3A,
        0x00, 0x32,
    ]);
    run(&mut cpu, 3);
    assert_eq!(cpu.a, 0x42);
    assert_eq!(cpu.cycles, 10 + 10 + 7);
    run(&mut cpu, 1);
    assert_eq!((cpu.d, cpu.e), (0x30, 0x00));
    assert_eq!((cpu.h, cpu.l), (0x00, 0x00));
    run(&mut cpu, 2);
    assert_eq!(cpu.ram.read_dword(0x3100), Ok(0x0000));
    run(&mut cpu, 2);
    assert_eq!(cpu.ram.read_byte(0x3200), 0x42);
    assert_eq!(cpu.a, 0x42);
}

#[test]
fn register_pair_increment_wraps() {
    // LXI SP,0xFFFF ; INX SP ; DCX SP
    let mut cpu = cpu_with(&[0x31, 0xFF, 0xFF, 0x33, 0x3B]);
    run(&mut cpu, 2);
    assert_eq!(cpu.sp, 0x0000);
    run(&mut cpu, 1);
    assert_eq!(cpu.sp, 0xFFFF);
}

#[test]
fn complement_and_carry_toggles() {
    // MVI A,0x0F ; CMA ; STC ; CMC
    let mut cpu = cpu_with(&[0x3E, 0x0F, 0x2F, 0x37, 0x3F]);
    run(&mut cpu, 3);
    assert_eq!(cpu.a, 0xF0);
    assert!(cpu.f & FLAG_C != 0);
    run(&mut cpu, 1);
    assert!(cpu.f & FLAG_C == 0);
}

#[test]
fn exchange_top_of_stack_and_jump_to_hl() {
    // LXI H,0x1234 ; PUSH H ; LXI H,0x0040 ; XTHL ; PCHL
    let mut cpu = cpu_with(&[0x21, 0x34, 0x12, 0xE5, 0x21, 0x40, 0x00, 0xE3, 0xE9]);
    run(&mut cpu, 4);
    assert_eq!((cpu.h, cpu.l), (0x12, 0x34));
    assert_eq!(cpu.read_stack(), 0x0040);
    run(&mut cpu, 1);
    assert_eq!(cpu.pc, 0x1234);
}

#[test]
fn stack_pointer_from_hl() {
    let mut cpu = cpu_with(&[0xF9]);
    cpu.h = 0x20;
    cpu.l = 0x10;
    run(&mut cpu, 1);
    assert_eq!(cpu.sp, 0x2010);
}

#[test]
fn flags_by_name() {
    let mut cpu = cpu_with(&[]);
    cpu.f = FLAG_Z | FLAG_P;
    let flags = cpu.dump_flags();
    assert!(flags.zero && flags.parity);
    assert!(!flags.carry && !flags.sign && !flags.aux_carry && !flags.interrupt);
    assert!(cpu.read_flag(FLAG_Z));
    assert!(!cpu.read_flag(FLAG_C));
}

#[test]
fn set_flags_keeps_flags_outside_mask() {
    let mut cpu = cpu_with(&[]);
    cpu.f = FLAG_C | FLAG_INT;
    cpu.set_flags(FLAG_Z | FLAG_S, 0, 0x80);
    assert_eq!(cpu.f, FLAG_C | FLAG_INT | FLAG_S);
}

#[test]
fn interrupt_pushes_program_counter() {
    let mut cpu = cpu_with(&[]);
    cpu.move_pc(0x0100);
    assert_eq!(cpu.interrupt(), INT_END);
    assert_eq!(cpu.pc, INT_END);
    assert_eq!(cpu.sp, STACK_TOP - 2);
    assert_eq!(cpu.pop_stack(), 0x0100);
    assert_eq!(cpu.sp, STACK_TOP);
    assert_eq!(cpu.interrupt(), INT_MID);
}

#[test]
fn register_pairs() {
    let mut cpu = cpu_with(&[]);
    cpu.write_dword(0, 0x1234);
    assert_eq!((cpu.b, cpu.c), (0x12, 0x34));
    cpu.write_dword(4, 0xABCD);
    assert_eq!((cpu.a, cpu.f), (0xAB, 0xCD));
    assert_eq!(cpu.read_dword(4), 0xABCD);
    cpu.write_dword(3, 0x3000);
    assert_eq!(cpu.sp, 0x3000);
    cpu.write_dword(2, 0x2500);
    cpu.write_byte(6, 0x77);
    assert_eq!(cpu.ram.read_byte(0x2500), 0x77);
    assert_eq!(cpu.read_byte(6), 0x77);
    cpu.push_stack(0xBEEF);
    assert_eq!(cpu.sp, 0x2FFE);
    assert_eq!(cpu.read_stack(), 0xBEEF);
}

#[test]
fn immediate_operands_advance_program_counter() {
    let mut cpu = cpu_with(&[0x11, 0x22, 0x33]);
    assert_eq!(cpu.read_im_byte(), 0x11);
    assert_eq!(cpu.pc, 1);
    assert_eq!(cpu.read_im_dword(), 0x3322);
    assert_eq!(cpu.pc, 3);
}

#[test]
fn video_memory_region() {
    let mut cpu = cpu_with(&[]);
    cpu.ram.write_byte(0x2400, 0x5A);
    cpu.ram.write_byte(0x3FFF, 0xA5);
    let vram = cpu.get_vram();
    assert_eq!(vram.len(), 0x1C00);
    assert_eq!(vram[0], 0x5A);
    assert_eq!(vram[0x1BFF], 0xA5);
}

#[test]
fn decimal_adjust_carries_out_of_low_nibble() {
    let mut cpu = cpu_with(&[0x27]);
    cpu.a = 0xFA;
    run(&mut cpu, 1);
    assert_eq!(cpu.a, 0x60);
    assert!(cpu.f & FLAG_C != 0);
}

#[test]
fn decimal_adjust_keeps_incoming_carry() {
    let mut cpu = cpu_with(&[0x27]);
    cpu.a = 0x00;
    cpu.f = FLAG_C;
    run(&mut cpu, 1);
    assert_eq!(cpu.a, 0x60);
    assert!(cpu.f & FLAG_C != 0);
}

#[test]
fn immediate_word_at_last_address_faults() {
    // JMP at 0xFFFE: its address word would start at 0xFFFF.
    let mut cpu = cpu_with(&[]);
    cpu.ram.write_byte(0xFFFE, 0xC3);
    cpu.pc = 0xFFFE;
    let fault = cpu.step().unwrap_err();
    assert_eq!(fault.kind, FaultKind::AddressOutOfRange);
    assert_eq!(fault.pc, 0xFFFE);
    assert_eq!(fault.opcode, 0xC3);
    assert_eq!(cpu.pc, 0xFFFE);
    assert_eq!(cpu.instruction_count, 0);
}

#[test]
fn stack_words_at_last_address_fault() {
    // PUSH B with SP = 1 would write the word at 0xFFFF.
    let mut cpu = cpu_with(&[0xC5]);
    cpu.sp = 1;
    let fault = cpu.step().unwrap_err();
    assert_eq!(fault.kind, FaultKind::AddressOutOfRange);
    assert_eq!(fault.pc, 0);
    assert_eq!(cpu.sp, 1);
    // RET with SP = 0xFFFF would read the word at 0xFFFF.
    let mut cpu = cpu_with(&[0xC9]);
    cpu.sp = 0xFFFF;
    let fault = cpu.step().unwrap_err();
    assert_eq!(fault.kind, FaultKind::AddressOutOfRange);
    assert_eq!(fault.stack_top, None);
    // A return whose condition fails touches no stack word.
    let mut cpu = cpu_with(&[0xC8]);
    cpu.sp = 0xFFFF;
    run(&mut cpu, 1);
    assert_eq!(cpu.pc, 1);
}

#[test]
fn store_word_at_last_address_faults() {
    // SHLD 0xFFFF
    let mut cpu = cpu_with(&[0x22, 0xFF, 0xFF]);
    let fault = cpu.step().unwrap_err();
    assert_eq!(fault.kind, FaultKind::AddressOutOfRange);
    assert_eq!(cpu.ram.read_byte(0xFFFF), 0);
}

#[test]
fn interrupt_push_at_last_address_faults() {
    let mut cpu = cpu_with(&[]);
    cpu.f = FLAG_INT;
    cpu.sp = 1;
    cpu.cycles = CYCLES_PER_INTERRUPT + 1;
    match cpu.check_interrupt() {
        InterruptCheck::Faulted(fault) => assert_eq!(fault.kind, FaultKind::AddressOutOfRange),
        other => panic!("expected a fault, got {:?}", other),
    }
    assert_eq!(cpu.cycles, CYCLES_PER_INTERRUPT + 1);
    assert_eq!(cpu.last_interrupt, INT_MID);
}
