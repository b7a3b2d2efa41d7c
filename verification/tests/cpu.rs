use gameboy::{Fault, FlagsReg, GBEmulator};

/// A machine whose boot program is `bytes`, with the stack in work RAM.
fn program(bytes: &[u8]) -> GBEmulator {
    let mut gb = GBEmulator::new(bytes.to_vec(), Vec::new());
    gb.regs.sp = 0xD000;
    gb
}

fn flags(zero: bool, negative: bool, half_carry: bool, carry: bool) -> FlagsReg {
    FlagsReg { zero, negative, half_carry, carry }
}

fn step(gb: &mut GBEmulator) -> u32 {
    match gb.cpu_run_op() {
        Ok(cycles) => cycles,
        Err(fault) => panic!("unexpected fault {:?}", fault),
    }
}

#[test]
fn two_nops_take_eight_cycles() {
    let mut gb = GBEmulator::new(vec![0x00, 0x00], Vec::new());
    assert_eq!(gb.cpu_run_op(), Ok(4));
    assert_eq!(gb.cpu_run_op(), Ok(4));
    assert_eq!(gb.regs.pc, 0x0002);
}

#[test]
fn load_immediate_then_nop() {
    let mut gb = GBEmulator::new(vec![0x3E, 0x42, 0x00], Vec::new());
    let first = step(&mut gb);
    let second = step(&mut gb);
    assert_eq!(gb.regs.a, 0x42);
    assert!(!gb.regs.flags.zero);
    assert_eq!(first, 8);
    assert_eq!(second, 4);
    assert_eq!(first + second, 12);
    assert_eq!(gb.regs.pc, 3);
}

#[test]
fn daa_corrects_a_half_carry() {
    let mut gb = program(&[0x27]);
    gb.regs.a = 0x0F;
    gb.regs.flags = flags(false, false, true, false);
    assert_eq!(step(&mut gb), 4);
    assert_eq!(gb.regs.a, 0x15);
    assert!(!gb.regs.flags.carry);
    assert!(!gb.regs.flags.half_carry);
    assert!(!gb.regs.flags.zero);
}

#[test]
fn push_then_pop_restores_pair_and_stack_pointer() {
    for (push, pop) in [(0xC5u8, 0xC1u8), (0xD5, 0xD1), (0xE5, 0xE1), (0xF5, 0xF1)] {
        let mut gb = program(&[push, pop]);
        gb.regs.set_bc(0x1234);
        gb.regs.set_de(0x5678);
        gb.regs.set_hl(0x9ABC);
        gb.regs.set_af(0xDE90);
        let before = gb.regs;
        assert_eq!(step(&mut gb), 16);
        assert_eq!(gb.regs.sp, 0xCFFE);
        let pushed = gb.mmu_read16(0xCFFE);
        let expected = match push {
            0xC5 => 0x1234,
            0xD5 => 0x5678,
            0xE5 => 0x9ABC,
            _ => 0xDE90,
        };
        assert_eq!(pushed, expected);
        assert_eq!(gb.mmu_read8(0xCFFE), (expected & 0xFF) as u8);
        assert_eq!(gb.mmu_read8(0xCFFF), (expected >> 8) as u8);
        gb.regs.set_bc(0);
        gb.regs.set_de(0);
        gb.regs.set_hl(0);
        gb.regs.set_af(0);
        assert_eq!(step(&mut gb), 12);
        assert_eq!(gb.regs.sp, before.sp);
        match push {
            0xC5 => assert_eq!(gb.regs.get_bc(), 0x1234),
            0xD5 => assert_eq!(gb.regs.get_de(), 0x5678),
            0xE5 => assert_eq!(gb.regs.get_hl(), 0x9ABC),
            _ => assert_eq!(gb.regs.get_af(), 0xDE90),
        }
    }
}

#[test]
fn pop_af_drops_the_low_nibble() {
    let mut gb = program(&[0xF1]);
    gb.mmu_write16(0xD000, 0x12FF);
    assert_eq!(step(&mut gb), 12);
    assert_eq!(gb.regs.a, 0x12);
    assert_eq!(gb.regs.flags, flags(true, true, true, true));
    assert_eq!(gb.regs.get_af(), 0x12F0);
    assert_eq!(gb.regs.sp, 0xD002);
}

#[test]
fn stack_push_and_pop() {
    let mut gb = program(&[]);
    gb.stack_push(0xBEEF);
    assert_eq!(gb.regs.sp, 0xCFFE);
    assert_eq!(gb.mmu_read8(0xCFFE), 0xEF);
    assert_eq!(gb.mmu_read8(0xCFFF), 0xBE);
    gb.stack_push(0x0102);
    assert_eq!(gb.regs.sp, 0xCFFC);
    assert_eq!(gb.stack_pop(), 0x0102);
    assert_eq!(gb.stack_pop(), 0xBEEF);
    assert_eq!(gb.regs.sp, 0xD000);
    gb.regs.sp = 0x0001;
    gb.stack_push(0x1111);
    assert_eq!(gb.regs.sp, 0xFFFF);
}

#[test]
fn relative_jumps_are_signed_and_count_from_behind_the_operand() {
    let mut gb = program(&[0x18, 0xFE]);
    assert_eq!(step(&mut gb), 12);
    assert_eq!(gb.regs.pc, 0x0000);

    let mut gb = program(&[0x18, 0x05]);
    assert_eq!(step(&mut gb), 12);
    assert_eq!(gb.regs.pc, 0x0007);

    let mut gb = program(&[0x18, 0x80]);
    assert_eq!(step(&mut gb), 12);
    assert_eq!(gb.regs.pc, 0xFF82);

    let mut gb = program(&[0x18, 0x7F]);
    assert_eq!(step(&mut gb), 12);
    assert_eq!(gb.regs.pc, 0x0081);
}

#[test]
fn jump_moves_the_program_counter_both_ways() {
    let mut gb = program(&[]);
    gb.regs.pc = 0x0100;
    gb.jump(-1);
    assert_eq!(gb.regs.pc, 0x00FF);
    gb.jump(127);
    assert_eq!(gb.regs.pc, 0x017E);
    gb.jump(-128);
    assert_eq!(gb.regs.pc, 0x00FE);
    gb.regs.pc = 0x0005;
    gb.jump(-6);
    assert_eq!(gb.regs.pc, 0xFFFF);
    gb.jump(1);
    assert_eq!(gb.regs.pc, 0x0000);
}

#[test]
fn conditional_relative_jumps_cost_less_when_not_taken() {
    let cases = [
        (0x20u8, flags(false, false, false, false), true),
        (0x20, flags(true, false, false, false), false),
        (0x28, flags(true, false, false, false), true),
        (0x28, flags(false, false, false, true), false),
        (0x30, flags(true, false, false, false), true),
        (0x30, flags(false, false, false, true), false),
        (0x38, flags(false, false, false, true), true),
        (0x38, flags(true, false, false, false), false),
    ];
    for (op, state, taken) in cases {
        let mut gb = program(&[op, 0x05]);
        gb.regs.flags = state;
        let cycles = step(&mut gb);
        if taken {
            assert_eq!((cycles, gb.regs.pc), (12, 0x0007));
        } else {
            assert_eq!((cycles, gb.regs.pc), (8, 0x0002));
        }
        assert_eq!(gb.regs.flags, state);
    }
}

#[test]
fn absolute_jumps() {
    let mut gb = program(&[0xC3, 0x34, 0x12]);
    assert_eq!(step(&mut gb), 16);
    assert_eq!(gb.regs.pc, 0x1234);

    let cases = [
        (0xC2u8, flags(false, false, false, false), true),
        (0xC2, flags(true, false, false, false), false),
        (0xCA, flags(true, false, false, false), true),
        (0xCA, flags(false, false, false, true), false),
        (0xD2, flags(true, false, false, false), true),
        (0xD2, flags(false, false, false, true), false),
        (0xDA, flags(false, false, false, true), true),
        (0xDA, flags(true, false, false, false), false),
    ];
    for (op, state, taken) in cases {
        let mut gb = program(&[op, 0x34, 0x12]);
        gb.regs.flags = state;
        let cycles = step(&mut gb);
        if taken {
            assert_eq!((cycles, gb.regs.pc), (16, 0x1234));
        } else {
            assert_eq!((cycles, gb.regs.pc), (12, 0x0003));
        }
    }

    let mut gb = program(&[0xE9]);
    gb.regs.set_hl(0x4321);
    assert_eq!(step(&mut gb), 4);
    assert_eq!(gb.regs.pc, 0x4321);
}

#[test]
fn call_and_return() {
    let mut bios = vec![0u8; 0x20];
    bios[0] = 0xCD;
    bios[1] = 0x10;
    bios[2] = 0x00;
    bios[0x10] = 0xC9;
    let mut gb = program(&bios);
    assert_eq!(step(&mut gb), 24);
    assert_eq!(gb.regs.pc, 0x0010);
    assert_eq!(gb.regs.sp, 0xCFFE);
    assert_eq!(gb.mmu_read16(0xCFFE), 0x0003);
    assert_eq!(step(&mut gb), 16);
    assert_eq!(gb.regs.pc, 0x0003);
    assert_eq!(gb.regs.sp, 0xD000);
}

#[test]
fn call_method_pushes_the_program_counter() {
    let mut gb = program(&[]);
    gb.regs.pc = 0x0150;
    gb.call(0x4000);
    assert_eq!(gb.regs.pc, 0x4000);
    assert_eq!(gb.regs.sp, 0xCFFE);
    assert_eq!(gb.mmu_read16(0xCFFE), 0x0150);
    gb.ret();
    assert_eq!(gb.regs.pc, 0x0150);
    assert_eq!(gb.regs.sp, 0xD000);
}

#[test]
fn conditional_calls_and_returns() {
    let cases = [
        (0xC4u8, 0xC0u8, flags(false, false, false, false), true),
        (0xC4, 0xC0, flags(true, false, false, false), false),
        (0xCC, 0xC8, flags(true, false, false, false), true),
        (0xCC, 0xC8, flags(false, false, false, true), false),
        (0xD4, 0xD0, flags(true, false, false, false), true),
        (0xD4, 0xD0, flags(false, false, false, true), false),
        (0xDC, 0xD8, flags(false, false, false, true), true),
        (0xDC, 0xD8, flags(true, false, false, false), false),
    ];
    for (call, ret, state, taken) in cases {
        let mut gb = program(&[call, 0x34, 0x12]);
        gb.regs.flags = state;
        let cycles = step(&mut gb);
        if taken {
            assert_eq!((cycles, gb.regs.pc, gb.regs.sp), (24, 0x1234, 0xCFFE));
            assert_eq!(gb.mmu_read16(0xCFFE), 0x0003);
        } else {
            assert_eq!((cycles, gb.regs.pc, gb.regs.sp), (12, 0x0003, 0xD000));
        }

        let mut gb = program(&[ret]);
        gb.regs.flags = state;
        gb.stack_push(0x2345);
        let cycles = step(&mut gb);
        if taken {
            assert_eq!((cycles, gb.regs.pc, gb.regs.sp), (20, 0x2345, 0xD000));
        } else {
            assert_eq!((cycles, gb.regs.pc, gb.regs.sp), (8, 0x0001, 0xCFFE));
        }
    }
}

#[test]
fn restarts_call_the_fixed_addresses() {
    for n in 0u8..8 {
        let mut gb = program(&[0xC7 + 8 * n]);
        assert_eq!(step(&mut gb), 16);
        assert_eq!(gb.regs.pc, 8 * n as u16);
        assert_eq!(gb.regs.sp, 0xCFFE);
        assert_eq!(gb.mmu_read16(0xCFFE), 0x0001);
    }
}

#[test]
fn interrupt_switches() {
    let mut gb = program(&[0xFB, 0xF3, 0xD9]);
    assert_eq!(step(&mut gb), 4);
    assert!(gb.interrupts_en);
    assert_eq!(step(&mut gb), 4);
    assert!(!gb.interrupts_en);
    gb.stack_push(0x0777);
    assert_eq!(step(&mut gb), 16);
    assert!(gb.interrupts_en);
    assert_eq!(gb.regs.pc, 0x0777);
    assert_eq!(gb.regs.sp, 0xD000);
}

#[test]
fn illegal_opcodes_fault_and_all_others_run() {
    let illegal = [0xD3u8, 0xDB, 0xDD, 0xE3, 0xE4, 0xEB, 0xEC, 0xED, 0xF4, 0xFC, 0xFD];
    for op in 0u8..=255 {
        let mut gb = program(&[0x00, op, 0x55, 0x66]);
        gb.mmu_write8(0xFFFF, 0x44);
        assert_eq!(gb.cpu_run_op(), Ok(4));
        let before = gb.regs;
        let result = gb.cpu_run_op();
        if illegal.contains(&op) {
            let mut regs = before;
            regs.pc = 0x0002;
            assert_eq!(
                result,
                Err(Fault::IllegalOpcode {
                    opcode: op,
                    preceding: (0x44, 0x00),
                    following: (0x55, 0x66),
                    regs
                })
            );
            assert_eq!(gb.regs, regs);
        } else {
            assert!(result.is_ok());
        }
    }
}

#[test]
fn fault_carries_the_bytes_around_the_opcode() {
    let mut gb = program(&[]);
    gb.mmu_write8(0xC0FE, 0x10);
    gb.mmu_write8(0xC0FF, 0x11);
    gb.mmu_write8(0xC100, 0xED);
    gb.mmu_write8(0xC101, 0x22);
    gb.mmu_write8(0xC102, 0x23);
    gb.regs.pc = 0xC100;
    gb.regs.a = 0x5A;
    let result = gb.cpu_run_op();
    let mut regs = gb.regs;
    assert_eq!(regs.pc, 0xC101);
    assert_eq!(regs.a, 0x5A);
    regs.pc = 0xC101;
    assert_eq!(
        result,
        Err(Fault::IllegalOpcode {
            opcode: 0xED,
            preceding: (0x10, 0x11),
            following: (0x22, 0x23),
            regs
        })
    );
}

#[test]
fn halt_waits_for_an_interrupt() {
    let mut gb = program(&[0x76, 0x3C]);
    assert_eq!(step(&mut gb), 4);
    assert!(gb.halted);
    assert_eq!(gb.regs.pc, 1);
    for _ in 0..3 {
        assert_eq!(step(&mut gb), 4);
        assert!(gb.halted);
        assert_eq!(gb.regs.pc, 1);
        assert_eq!(gb.regs.a, 0);
    }
    gb.mmu_write8(0xFF0F, 0x01);
    assert_eq!(step(&mut gb), 4);
    assert!(gb.halted);
    assert_eq!(gb.regs.a, 0);
    gb.mmu_write8(0xFFFF, 0x01);
    assert_eq!(step(&mut gb), 4);
    assert!(!gb.halted);
    assert_eq!(gb.regs.a, 1);
    assert_eq!(gb.regs.pc, 2);
}

#[test]
fn stop_sets_its_flag() {
    let mut gb = program(&[0x10, 0x3C]);
    assert_eq!(step(&mut gb), 4);
    assert!(gb.stopped);
    assert_eq!(gb.regs.pc, 1);
    assert_eq!(step(&mut gb), 4);
    assert_eq!(gb.regs.a, 1);
}

#[test]
fn stack_pointer_adjustment() {
    let mut gb = program(&[0xE8, 0x08]);
    gb.regs.sp = 0xFFF8;
    gb.regs.flags = flags(true, true, false, false);
    assert_eq!(step(&mut gb), 16);
    assert_eq!(gb.regs.sp, 0x0000);
    assert_eq!(gb.regs.flags, flags(false, false, true, true));

    let mut gb = program(&[0xE8, 0xFF]);
    gb.regs.sp = 0x0001;
    assert_eq!(step(&mut gb), 16);
    assert_eq!(gb.regs.sp, 0x0000);
    assert_eq!(gb.regs.flags, flags(false, false, true, true));

    let mut gb = program(&[0xE8, 0xFF]);
    gb.regs.sp = 0x0000;
    assert_eq!(step(&mut gb), 16);
    assert_eq!(gb.regs.sp, 0xFFFF);
    assert_eq!(gb.regs.flags, flags(false, false, false, false));

    let mut gb = program(&[0xE8, 0x02]);
    assert_eq!(step(&mut gb), 16);
    assert_eq!(gb.regs.sp, 0xD002);
    assert_eq!(gb.regs.flags, flags(false, false, false, false));
}

#[test]
fn load_hl_from_adjusted_stack_pointer() {
    let mut gb = program(&[0xF8, 0x02]);
    gb.regs.flags = flags(true, true, true, true);
    assert_eq!(step(&mut gb), 12);
    assert_eq!(gb.regs.get_hl(), 0xD002);
    assert_eq!(gb.regs.sp, 0xD000);
    assert_eq!(gb.regs.flags, flags(false, false, false, false));

    let mut gb = program(&[0xF8, 0xFE]);
    assert_eq!(step(&mut gb), 12);
    assert_eq!(gb.regs.get_hl(), 0xCFFE);
    assert_eq!(gb.regs.sp, 0xD000);

    let mut gb = program(&[0xF9]);
    gb.regs.set_hl(0xC123);
    assert_eq!(step(&mut gb), 8);
    assert_eq!(gb.regs.sp, 0xC123);
    assert_eq!(gb.regs.get_hl(), 0xC123);
}

#[test]
fn add_to_hl() {
    let mut gb = program(&[0x09]);
    gb.regs.set_hl(0x0FFF);
    gb.regs.set_bc(0x0001);
    gb.regs.flags = flags(true, true, false, true);
    assert_eq!(step(&mut gb), 8);
    assert_eq!(gb.regs.get_hl(), 0x1000);
    assert_eq!(gb.regs.flags, flags(false, false, true, false));

    let mut gb = program(&[0x19]);
    gb.regs.set_hl(0xF000);
    gb.regs.set_de(0x1000);
    assert_eq!(step(&mut gb), 8);
    assert_eq!(gb.regs.get_hl(), 0x0000);
    assert_eq!(gb.regs.flags, flags(false, false, false, true));

    let mut gb = program(&[0x29]);
    gb.regs.set_hl(0x8800);
    assert_eq!(step(&mut gb), 8);
    assert_eq!(gb.regs.get_hl(), 0x1000);
    assert_eq!(gb.regs.flags, flags(false, false, true, true));

    let mut gb = program(&[0x39]);
    gb.regs.set_hl(0x0001);
    assert_eq!(step(&mut gb), 8);
    assert_eq!(gb.regs.get_hl(), 0xD001);
    assert_eq!(gb.regs.sp, 0xD000);
}

#[test]
fn accumulator_rotates_clear_zero() {
    let mut gb = program(&[0x07, 0x07]);
    gb.regs.a = 0x80;
    gb.regs.flags = flags(true, true, true, false);
    assert_eq!(step(&mut gb), 4);
    assert_eq!(gb.regs.a, 0x01);
    assert_eq!(gb.regs.flags, flags(false, false, false, true));
    gb.regs.a = 0x00;
    assert_eq!(step(&mut gb), 4);
    assert_eq!(gb.regs.a, 0x00);
    assert_eq!(gb.regs.flags, flags(false, false, false, false));

    let mut gb = program(&[0x0F]);
    gb.regs.a = 0x01;
    assert_eq!(step(&mut gb), 4);
    assert_eq!(gb.regs.a, 0x80);
    assert_eq!(gb.regs.flags, flags(false, false, false, true));

    let mut gb = program(&[0x17]);
    gb.regs.a = 0x80;
    assert_eq!(step(&mut gb), 4);
    assert_eq!(gb.regs.a, 0x00);
    assert_eq!(gb.regs.flags, flags(false, false, false, true));

    let mut gb = program(&[0x1F]);
    gb.regs.a = 0x01;
    gb.regs.flags.carry = true;
    assert_eq!(step(&mut gb), 4);
    assert_eq!(gb.regs.a, 0x80);
    assert_eq!(gb.regs.flags, flags(false, false, false, true));
}

#[test]
fn complement_and_carry_operations() {
    let mut gb = program(&[0x2F, 0x37, 0x3F, 0x3F]);
    gb.regs.a = 0x35;
    gb.regs.flags = flags(true, false, false, false);
    assert_eq!(step(&mut gb), 4);
    assert_eq!(gb.regs.a, 0xCA);
    assert_eq!(gb.regs.flags, flags(true, true, true, false));
    assert_eq!(step(&mut gb), 4);
    assert_eq!(gb.regs.flags, flags(true, false, false, true));
    assert_eq!(step(&mut gb), 4);
    assert_eq!(gb.regs.flags, flags(true, false, false, false));
    gb.regs.flags = flags(false, true, true, false);
    assert_eq!(step(&mut gb), 4);
    assert_eq!(gb.regs.flags, flags(false, false, false, true));
}

#[test]
fn loads_through_register_pairs() {
    let mut gb = program(&[0x02, 0x12, 0x0A, 0x1A]);
    gb.regs.a = 0x5A;
    gb.regs.set_bc(0xC000);
    gb.regs.set_de(0xC001);
    assert_eq!(step(&mut gb), 8);
    assert_eq!(gb.mmu_read8(0xC000), 0x5A);
    gb.regs.a = 0xA5;
    assert_eq!(step(&mut gb), 8);
    assert_eq!(gb.mmu_read8(0xC001), 0xA5);
    assert_eq!(step(&mut gb), 8);
    assert_eq!(gb.regs.a, 0x5A);
    assert_eq!(step(&mut gb), 8);
    assert_eq!(gb.regs.a, 0xA5);
}

#[test]
fn loads_that_move_hl() {
    let mut gb = program(&[0x22, 0x32, 0x2A, 0x3A, 0x32]);
    gb.regs.a = 0x5A;
    gb.regs.set_hl(0xC000);
    assert_eq!(step(&mut gb), 8);
    assert_eq!(gb.mmu_read8(0xC000), 0x5A);
    assert_eq!(gb.regs.get_hl(), 0xC001);
    gb.regs.a = 0x6B;
    assert_eq!(step(&mut gb), 8);
    assert_eq!(gb.mmu_read8(0xC001), 0x6B);
    assert_eq!(gb.regs.get_hl(), 0xC000);
    gb.regs.a = 0;
    assert_eq!(step(&mut gb), 8);
    assert_eq!(gb.regs.a, 0x5A);
    assert_eq!(gb.regs.get_hl(), 0xC001);
    assert_eq!(step(&mut gb), 8);
    assert_eq!(gb.regs.a, 0x6B);
    assert_eq!(gb.regs.get_hl(), 0xC000);
    gb.regs.set_hl(0x0000);
    assert_eq!(step(&mut gb), 8);
    assert_eq!(gb.regs.get_hl(), 0xFFFF);
    assert_eq!(gb.mmu_read8(0x0000), 0x22);
}

#[test]
fn loads_through_the_last_page_and_absolute_addresses() {
    let mut gb = program(&[0xE0, 0x80, 0xF0, 0x80, 0xE2, 0xF2, 0xEA, 0x00, 0xC0, 0xFA, 0x00, 0xC0]);
    gb.regs.a = 0x77;
    assert_eq!(step(&mut gb), 12);
    assert_eq!(gb.mmu_read8(0xFF80), 0x77);
    gb.regs.a = 0;
    assert_eq!(step(&mut gb), 12);
    assert_eq!(gb.regs.a, 0x77);
    gb.regs.c = 0x81;
    gb.regs.a = 0x88;
    assert_eq!(step(&mut gb), 8);
    assert_eq!(gb.mmu_read8(0xFF81), 0x88);
    gb.regs.a = 0;
    assert_eq!(step(&mut gb), 8);
    assert_eq!(gb.regs.a, 0x88);
    gb.regs.a = 0x99;
    assert_eq!(step(&mut gb), 16);
    assert_eq!(gb.mmu_read8(0xC000), 0x99);
    gb.regs.a = 0;
    assert_eq!(step(&mut gb), 16);
    assert_eq!(gb.regs.a, 0x99);
    assert_eq!(gb.regs.pc, 12);
}

#[test]
fn store_stack_pointer() {
    let mut gb = program(&[0x08, 0x00, 0xC0]);
    gb.regs.sp = 0xD123;
    assert_eq!(step(&mut gb), 20);
    assert_eq!(gb.mmu_read8(0xC000), 0x23);
    assert_eq!(gb.mmu_read8(0xC001), 0xD1);
    assert_eq!(gb.regs.sp, 0xD123);
    assert_eq!(gb.regs.pc, 3);
}

#[test]
fn wide_immediates_and_wide_steps() {
    let mut gb = program(&[0x01, 0x34, 0x12, 0x11, 0x78, 0x56, 0x21, 0xBC, 0x9A, 0x31, 0xF0, 0xDE]);
    gb.regs.flags = flags(true, true, true, true);
    for _ in 0..4 {
        assert_eq!(step(&mut gb), 12);
    }
    assert_eq!(gb.regs.get_bc(), 0x1234);
    assert_eq!(gb.regs.get_de(), 0x5678);
    assert_eq!(gb.regs.get_hl(), 0x9ABC);
    assert_eq!(gb.regs.sp, 0xDEF0);

    let mut gb = program(&[0x03, 0x13, 0x23, 0x33, 0x0B, 0x1B, 0x2B, 0x3B]);
    gb.regs.set_bc(0xFFFF);
    gb.regs.set_de(0x00FF);
    gb.regs.set_hl(0x1234);
    gb.regs.sp = 0xFFFF;
    gb.regs.flags = flags(true, false, true, false);
    for _ in 0..4 {
        assert_eq!(step(&mut gb), 8);
    }
    assert_eq!(gb.regs.get_bc(), 0x0000);
    assert_eq!(gb.regs.get_de(), 0x0100);
    assert_eq!(gb.regs.get_hl(), 0x1235);
    assert_eq!(gb.regs.sp, 0x0000);
    for _ in 0..4 {
        assert_eq!(step(&mut gb), 8);
    }
    assert_eq!(gb.regs.get_bc(), 0xFFFF);
    assert_eq!(gb.regs.get_de(), 0x00FF);
    assert_eq!(gb.regs.get_hl(), 0x1234);
    assert_eq!(gb.regs.sp, 0xFFFF);
    assert_eq!(gb.regs.flags, flags(true, false, true, false));
}

#[test]
fn increments_and_decrements_of_operands() {
    let mut gb = program(&[0x04, 0x05, 0x34, 0x35, 0x36, 0x7E]);
    gb.regs.b = 0x0F;
    gb.regs.flags = flags(false, true, false, true);
    assert_eq!(step(&mut gb), 4);
    assert_eq!(gb.regs.b, 0x10);
    assert_eq!(gb.regs.flags, flags(false, false, true, true));
    assert_eq!(step(&mut gb), 4);
    assert_eq!(gb.regs.b, 0x0F);
    assert_eq!(gb.regs.flags, flags(false, true, true, true));
    gb.regs.set_hl(0xC000);
    gb.mmu_write8(0xC000, 0xFF);
    gb.regs.flags = flags(false, true, false, false);
    assert_eq!(step(&mut gb), 12);
    assert_eq!(gb.mmu_read8(0xC000), 0x00);
    assert_eq!(gb.regs.flags, flags(true, false, true, false));
    assert_eq!(step(&mut gb), 12);
    assert_eq!(gb.mmu_read8(0xC000), 0xFF);
    assert_eq!(gb.regs.flags, flags(false, true, true, false));
    assert_eq!(step(&mut gb), 12);
    assert_eq!(gb.mmu_read8(0xC000), 0x7E);
    assert_eq!(gb.regs.pc, 6);
}

fn operand(gb: &GBEmulator, index: u8) -> u8 {
    match index {
        0 => gb.regs.b,
        1 => gb.regs.c,
        2 => gb.regs.d,
        3 => gb.regs.e,
        4 => gb.regs.h,
        5 => gb.regs.l,
        6 => gb.mmu_read8(gb.regs.get_hl()),
        _ => gb.regs.a,
    }
}

fn prepared(bytes: &[u8]) -> GBEmulator {
    let mut gb = program(bytes);
    gb.regs.b = 0x1B;
    gb.regs.c = 0x2C;
    gb.regs.d = 0x3D;
    gb.regs.e = 0x4E;
    gb.regs.h = 0xC0;
    gb.regs.l = 0x10;
    gb.regs.a = 0x7A;
    gb.mmu_write8(0xC010, 0x96);
    gb
}

#[test]
fn every_load_between_operands() {
    for op in 0x40u8..0x80 {
        if op == 0x76 {
            continue;
        }
        let target = (op >> 3) & 7;
        let source = op & 7;
        let mut gb = prepared(&[op]);
        let before = prepared(&[op]);
        let value = operand(&before, source);
        let cycles = step(&mut gb);
        assert_eq!(cycles, if target == 6 || source == 6 { 8 } else { 4 });
        if target == 6 {
            assert_eq!(gb.mmu_read8(0xC010), value);
            assert_eq!(gb.regs.get_hl(), 0xC010);
        } else {
            assert_eq!(operand_register(&gb, target), value);
        }
        for other in 0u8..8 {
            if other != target && other != 6 {
                assert_eq!(operand_register(&gb, other), operand_register(&before, other));
            }
        }
        if target != 6 {
            assert_eq!(gb.mmu_read8(0xC010), 0x96);
        }
        assert_eq!(gb.regs.flags, before.regs.flags);
        assert_eq!(gb.regs.pc, 1);
    }
}

fn operand_register(gb: &GBEmulator, index: u8) -> u8 {
    match index {
        0 => gb.regs.b,
        1 => gb.regs.c,
        2 => gb.regs.d,
        3 => gb.regs.e,
        4 => gb.regs.h,
        5 => gb.regs.l,
        _ => gb.regs.a,
    }
}

#[test]
fn load_immediate_into_every_operand() {
    for target in 0u8..8 {
        let mut gb = prepared(&[0x06 + 8 * target, 0xE7]);
        let cycles = step(&mut gb);
        assert_eq!(cycles, if target == 6 { 12 } else { 8 });
        if target == 6 {
            assert_eq!(gb.mmu_read8(0xC010), 0xE7);
        } else {
            assert_eq!(operand_register(&gb, target), 0xE7);
        }
        assert_eq!(gb.regs.pc, 2);
    }
}

#[test]
fn arithmetic_between_accumulator_and_every_operand() {
    for op in 0x80u8..0xC0 {
        for carry in [false, true] {
            let kind = (op >> 3) & 7;
            let source = op & 7;
            let mut gb = prepared(&[op]);
            gb.regs.flags = flags(false, false, false, carry);
            let a = gb.regs.a;
            let v = operand(&gb, source);
            let c = carry as u8;
            let cycles = step(&mut gb);
            assert_eq!(cycles, if source == 6 { 8 } else { 4 });
            let (result, expected) = match kind {
                0 => {
                    let r = a.wrapping_add(v);
                    (r, flags(r == 0, false, (a & 0xF) + (v & 0xF) > 0xF, (a as u16 + v as u16) > 0xFF))
                },
                1 => {
                    let r = a.wrapping_add(v).wrapping_add(c);
                    (
                        r,
                        flags(
                            r == 0,
                            false,
                            (a & 0xF) + (v & 0xF) + c > 0xF,
                            (a as u16 + v as u16 + c as u16) > 0xFF,
                        ),
                    )
                },
                2 => {
                    let r = a.wrapping_sub(v);
                    (r, flags(r == 0, true, (a & 0xF) < (v & 0xF), a < v))
                },
                3 => {
                    let r = a.wrapping_sub(v).wrapping_sub(c);
                    (
                        r,
                        flags(
                            r == 0,
                            true,
                            (a & 0xF) < (v & 0xF) + c,
                            (a as u16) < (v as u16 + c as u16),
                        ),
                    )
                },
                4 => (a & v, flags(a & v == 0, false, true, false)),
                5 => (a ^ v, flags(a ^ v == 0, false, false, false)),
                6 => (a | v, flags(a | v == 0, false, false, false)),
                _ => (a, flags(a == v, true, (a & 0xF) < (v & 0xF), a < v)),
            };
            assert_eq!(gb.regs.a, result);
            assert_eq!(gb.regs.flags, expected);
            assert_eq!(gb.regs.b, 0x1B);
            assert_eq!(gb.regs.c, 0x2C);
            assert_eq!(gb.mmu_read8(0xC010), 0x96);
        }
    }
}

#[test]
fn arithmetic_with_immediates() {
    let mut gb = program(&[0xC6, 0xC6]);
    gb.regs.a = 0x3A;
    assert_eq!(step(&mut gb), 8);
    assert_eq!(gb.regs.a, 0x00);
    assert_eq!(gb.regs.flags, flags(true, false, true, true));

    let mut gb = program(&[0xCE, 0x00]);
    gb.regs.a = 0xFF;
    gb.regs.flags.carry = true;
    assert_eq!(step(&mut gb), 8);
    assert_eq!(gb.regs.a, 0x00);
    assert_eq!(gb.regs.flags, flags(true, false, true, true));

    let mut gb = program(&[0xD6, 0x01]);
    gb.regs.a = 0x10;
    assert_eq!(step(&mut gb), 8);
    assert_eq!(gb.regs.a, 0x0F);
    assert_eq!(gb.regs.flags, flags(false, true, true, false));

    let mut gb = program(&[0xDE, 0x0F]);
    gb.regs.a = 0x10;
    gb.regs.flags.carry = true;
    assert_eq!(step(&mut gb), 8);
    assert_eq!(gb.regs.a, 0x00);
    assert_eq!(gb.regs.flags, flags(true, true, true, false));

    let mut gb = program(&[0xE6, 0x0F]);
    gb.regs.a = 0xF0;
    assert_eq!(step(&mut gb), 8);
    assert_eq!(gb.regs.a, 0x00);
    assert_eq!(gb.regs.flags, flags(true, false, true, false));

    let mut gb = program(&[0xEE, 0xFF]);
    gb.regs.a = 0x0F;
    assert_eq!(step(&mut gb), 8);
    assert_eq!(gb.regs.a, 0xF0);
    assert_eq!(gb.regs.flags, flags(false, false, false, false));

    let mut gb = program(&[0xF6, 0x01]);
    gb.regs.a = 0x80;
    assert_eq!(step(&mut gb), 8);
    assert_eq!(gb.regs.a, 0x81);
    assert_eq!(gb.regs.flags, flags(false, false, false, false));

    let mut gb = program(&[0xFE, 0x90]);
    gb.regs.a = 0x80;
    assert_eq!(step(&mut gb), 8);
    assert_eq!(gb.regs.a, 0x80);
    assert_eq!(gb.regs.flags, flags(false, true, false, true));
    assert_eq!(gb.regs.pc, 2);
}

/// Cycles of each opcode with every flag clear; 0 marks the illegal opcodes
/// and the prefix.
const CYCLES_FLAGS_CLEAR: [u32; 256] = [
    4, 12, 8, 8, 4, 4, 8, 4, 20, 8, 8, 8, 4, 4, 8, 4, //
    4, 12, 8, 8, 4, 4, 8, 4, 12, 8, 8, 8, 4, 4, 8, 4, //
    12, 12, 8, 8, 4, 4, 8, 4, 8, 8, 8, 8, 4, 4, 8, 4, //
    12, 12, 8, 8, 12, 12, 12, 4, 8, 8, 8, 8, 4, 4, 8, 4, //
    4, 4, 4, 4, 4, 4, 8, 4, 4, 4, 4, 4, 4, 4, 8, 4, //
    4, 4, 4, 4, 4, 4, 8, 4, 4, 4, 4, 4, 4, 4, 8, 4, //
    4, 4, 4, 4, 4, 4, 8, 4, 4, 4, 4, 4, 4, 4, 8, 4, //
    8, 8, 8, 8, 8, 8, 4, 8, 4, 4, 4, 4, 4, 4, 8, 4, //
    4, 4, 4, 4, 4, 4, 8, 4, 4, 4, 4, 4, 4, 4, 8, 4, //
    4, 4, 4, 4, 4, 4, 8, 4, 4, 4, 4, 4, 4, 4, 8, 4, //
    4, 4, 4, 4, 4, 4, 8, 4, 4, 4, 4, 4, 4, 4, 8, 4, //
    4, 4, 4, 4, 4, 4, 8, 4, 4, 4, 4, 4, 4, 4, 8, 4, //
    20, 12, 16, 16, 24, 16, 8, 16, 8, 16, 12, 0, 12, 24, 8, 16, //
    20, 12, 16, 0, 24, 16, 8, 16, 8, 16, 12, 0, 12, 0, 8, 16, //
    12, 12, 8, 0, 0, 16, 8, 16, 16, 4, 16, 0, 0, 0, 8, 16, //
    12, 12, 8, 4, 0, 16, 8, 16, 12, 8, 16, 4, 0, 0, 8, 16, //
];

#[test]
fn cycle_cost_of_every_opcode() {
    for op in 0u8..=255 {
        let expected = CYCLES_FLAGS_CLEAR[op as usize];
        if expected == 0 {
            continue;
        }
        let mut gb = prepared(&[op, 0x02, 0x00]);
        assert_eq!(gb.cpu_run_op(), Ok(expected), "opcode {:#04X}", op);

        let set = match op {
            0x20 | 0x30 => 8,
            0x28 | 0x38 => 12,
            0xC0 | 0xD0 => 8,
            0xC8 | 0xD8 => 20,
            0xC2 | 0xD2 => 12,
            0xCA | 0xDA => 16,
            0xC4 | 0xD4 => 12,
            0xCC | 0xDC => 24,
            _ => expected,
        };
        let mut gb = prepared(&[op, 0x02, 0x00]);
        gb.regs.flags = flags(true, false, false, true);
        assert_eq!(gb.cpu_run_op(), Ok(set), "opcode {:#04X}", op);
    }
}

#[test]
fn every_prefixed_instruction() {
    for sub in 0u8..=255 {
        for carry in [false, true] {
            let index = (sub >> 3) & 7;
            let target = sub & 7;
            let mut gb = prepared(&[0xCB, sub]);
            gb.regs.flags = flags(false, true, false, carry);
            let before = operand(&gb, target);
            let c = carry as u8;
            let cycles = step(&mut gb);
            let after = operand(&gb, target);
            assert_eq!(gb.regs.pc, 2);
            match sub >> 6 {
                0 => {
                    assert_eq!(cycles, if target == 6 { 20 } else { 12 });
                    let (result, out) = match index {
                        0 => (before.rotate_left(1), before & 0x80 != 0),
                        1 => (before.rotate_right(1), before & 0x01 != 0),
                        2 => ((before << 1) | c, before & 0x80 != 0),
                        3 => ((before >> 1) | (c << 7), before & 0x01 != 0),
                        4 => (before << 1, before & 0x80 != 0),
                        5 => ((before >> 1) | (before & 0x80), before & 0x01 != 0),
                        6 => ((before << 4) | (before >> 4), false),
                        _ => (before >> 1, before & 0x01 != 0),
                    };
                    assert_eq!(after, result, "sub-opcode {:#04X}", sub);
                    assert_eq!(gb.regs.flags, flags(result == 0, false, false, out));
                },
                1 => {
                    assert_eq!(cycles, if target == 6 { 16 } else { 12 });
                    assert_eq!(after, before);
                    assert_eq!(
                        gb.regs.flags,
                        flags(before & (1 << index) == 0, false, true, carry)
                    );
                },
                2 => {
                    assert_eq!(cycles, if target == 6 { 20 } else { 12 });
                    assert_eq!(after, before & !(1 << index));
                    assert_eq!(gb.regs.flags, flags(false, true, false, carry));
                },
                _ => {
                    assert_eq!(cycles, if target == 6 { 20 } else { 12 });
                    assert_eq!(after, before | (1 << index));
                    assert_eq!(gb.regs.flags, flags(false, true, false, carry));
                },
            }
        }
    }
}

#[test]
fn prefixed_exact_values() {
    let mut gb = program(&[0xCB, 0x37, 0xCB, 0x7F, 0xCB, 0xBF, 0xCB, 0xC7]);
    gb.regs.a = 0xF0;
    assert_eq!(step(&mut gb), 12);
    assert_eq!(gb.regs.a, 0x0F);
    assert_eq!(step(&mut gb), 12);
    assert!(gb.regs.flags.zero);
    gb.regs.a = 0xFF;
    assert_eq!(step(&mut gb), 12);
    assert_eq!(gb.regs.a, 0x7F);
    gb.regs.a = 0x00;
    assert_eq!(step(&mut gb), 12);
    assert_eq!(gb.regs.a, 0x01);
}

#[test]
fn operand_fields() {
    let mut gb = prepared(&[]);
    for index in 0u8..8 {
        assert_eq!(gb.read_r8(index), operand(&gb, index));
    }
    gb.write_r8(6, 0x44);
    assert_eq!(gb.mmu_read8(0xC010), 0x44);
    gb.write_r8(0, 0x55);
    assert_eq!(gb.regs.b, 0x55);
    gb.write_r8(7, 0x66);
    assert_eq!(gb.regs.a, 0x66);
    gb.regs.set_af(0x12B0);
    assert_eq!(gb.read_r16(0), gb.regs.get_bc());
    assert_eq!(gb.read_r16(1), gb.regs.get_de());
    assert_eq!(gb.read_r16(2), 0xC010);
    assert_eq!(gb.read_r16(3), 0xD000);
    assert_eq!(gb.read_stack_pair(3), 0x12B0);
    gb.write_r16(3, 0xC800);
    assert_eq!(gb.regs.sp, 0xC800);
    gb.write_stack_pair(3, 0x34FF);
    assert_eq!(gb.regs.get_af(), 0x34F0);
    gb.write_r16(1, 0xABCD);
    assert_eq!(gb.regs.get_de(), 0xABCD);
    gb.regs.flags = flags(true, false, false, false);
    assert!(!gb.condition(0));
    assert!(gb.condition(1));
    assert!(gb.condition(2));
    assert!(!gb.condition(3));
}

#[test]
fn displacement_bytes() {
    assert_eq!(gameboy::cpu::to_signed(0x00), 0);
    assert_eq!(gameboy::cpu::to_signed(0x7F), 127);
    assert_eq!(gameboy::cpu::to_signed(0x80), -128);
    assert_eq!(gameboy::cpu::to_signed(0xFF), -1);
    assert_eq!(gameboy::cpu::sign_extend(0x7F), 0x007F);
    assert_eq!(gameboy::cpu::sign_extend(0x80), 0xFF80);
    assert_eq!(gameboy::cpu::sign_extend(0xFF), 0xFFFF);
    assert!(gameboy::cpu::illegal(0xD3));
    assert!(!gameboy::cpu::illegal(0xD2));
}

#[test]
fn program_runs_past_the_boot_program_into_the_cartridge() {
    let mut rom = vec![0u8; 0x200];
    rom[0x100] = 0x3E;
    rom[0x101] = 0x99;
    let mut bios = vec![0u8; 256];
    bios[0xFD] = 0x3E;
    bios[0xFE] = 0x01;
    bios[0xFF] = 0x00;
    let mut gb = GBEmulator::new(bios, rom);
    gb.regs.pc = 0xFD;
    assert_eq!(step(&mut gb), 8);
    assert_eq!(gb.regs.a, 0x01);
    assert_eq!(step(&mut gb), 4);
    assert_eq!(gb.regs.pc, 0x100);
    assert_eq!(step(&mut gb), 8);
    assert_eq!(gb.regs.a, 0x99);
}
