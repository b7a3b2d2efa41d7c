use gameboy::{FlagsReg, GBEmulator};

const EDGES: [u8; 7] = [0x00, 0x01, 0x0F, 0x10, 0x7F, 0x80, 0xFF];

fn machine() -> GBEmulator {
    GBEmulator::new(Vec::new(), Vec::new())
}

fn flags(zero: bool, negative: bool, half_carry: bool, carry: bool) -> FlagsReg {
    FlagsReg { zero, negative, half_carry, carry }
}

#[test]
fn add_matches_the_truth_table_on_the_edges() {
    for &a in EDGES.iter() {
        for &b in EDGES.iter() {
            let mut gb = machine();
            gb.regs.flags = flags(true, true, true, true);
            let result = gb.add_u8(a, b);
            let wide = a as u16 + b as u16;
            assert_eq!(result, wide as u8);
            assert_eq!(gb.regs.flags.zero, wide as u8 == 0);
            assert!(!gb.regs.flags.negative);
            assert_eq!(gb.regs.flags.half_carry, ((a & 0xF) + (b & 0xF)) & 0x10 != 0);
            assert_eq!(gb.regs.flags.carry, wide & 0x100 != 0);
        }
    }
}

#[test]
fn adc_matches_the_truth_table_on_the_edges() {
    for &a in EDGES.iter() {
        for &b in EDGES.iter() {
            for carry in [false, true] {
                let mut gb = machine();
                gb.regs.a = a;
                gb.regs.flags = flags(false, true, false, carry);
                let result = gb.adc(b);
                let wide = a as u16 + b as u16 + carry as u16;
                assert_eq!(result, wide as u8);
                assert_eq!(gb.regs.flags.zero, wide as u8 == 0);
                assert!(!gb.regs.flags.negative);
                assert_eq!(
                    gb.regs.flags.half_carry,
                    ((a & 0xF) + (b & 0xF) + carry as u8) & 0x10 != 0
                );
                assert_eq!(gb.regs.flags.carry, wide & 0x100 != 0);
                assert_eq!(gb.regs.a, a);
            }
        }
    }
}

#[test]
fn sub_matches_the_truth_table_on_the_edges() {
    for &a in EDGES.iter() {
        for &b in EDGES.iter() {
            let mut gb = machine();
            gb.regs.a = a;
            let result = gb.sub(b);
            assert_eq!(result, a.wrapping_sub(b));
            assert_eq!(gb.regs.flags.zero, a == b);
            assert!(gb.regs.flags.negative);
            assert_eq!(gb.regs.flags.half_carry, (a & 0xF) < (b & 0xF));
            assert_eq!(gb.regs.flags.carry, a < b);
        }
    }
}

#[test]
fn sbc_matches_the_truth_table_on_the_edges() {
    for &a in EDGES.iter() {
        for &b in EDGES.iter() {
            for carry in [false, true] {
                let mut gb = machine();
                gb.regs.a = a;
                gb.regs.flags = flags(false, false, false, carry);
                let result = gb.sbc(b);
                let c = carry as u8;
                assert_eq!(result, a.wrapping_sub(b).wrapping_sub(c));
                assert_eq!(gb.regs.flags.zero, result == 0);
                assert!(gb.regs.flags.negative);
                assert_eq!(
                    gb.regs.flags.half_carry,
                    ((a & 0xF) as i16) - ((b & 0xF) as i16) - (c as i16) < 0
                );
                assert_eq!(gb.regs.flags.carry, (a as i16) - (b as i16) - (c as i16) < 0);
            }
        }
    }
}

#[test]
fn inc_and_dec_match_the_truth_table_and_keep_carry() {
    for &v in EDGES.iter() {
        for carry in [false, true] {
            let mut gb = machine();
            gb.regs.flags = flags(false, true, false, carry);
            let up = gb.increment_u8(v);
            assert_eq!(up, v.wrapping_add(1));
            assert_eq!(gb.regs.flags, flags(up == 0, false, v & 0xF == 0xF, carry));

            let mut gb = machine();
            gb.regs.flags = flags(false, false, false, carry);
            let down = gb.decrement_u8(v);
            assert_eq!(down, v.wrapping_sub(1));
            assert_eq!(gb.regs.flags, flags(down == 0, true, v & 0xF == 0x0, carry));
        }
    }
}

#[test]
fn logic_matches_the_truth_table_on_the_edges() {
    for &a in EDGES.iter() {
        for &b in EDGES.iter() {
            let mut gb = machine();
            gb.regs.a = a;
            gb.regs.flags = flags(false, true, false, true);
            assert_eq!(gb.and(b), a & b);
            assert_eq!(gb.regs.flags, flags(a & b == 0, false, true, false));

            gb.regs.flags = flags(false, true, true, true);
            assert_eq!(gb.or(b), a | b);
            assert_eq!(gb.regs.flags, flags(a | b == 0, false, false, false));

            gb.regs.flags = flags(false, true, true, true);
            assert_eq!(gb.xor(b), a ^ b);
            assert_eq!(gb.regs.flags, flags(a ^ b == 0, false, false, false));
        }
    }
}

#[test]
fn add_exact_values() {
    let mut gb = machine();
    assert_eq!(gb.add_u8(0x0F, 0x01), 0x10);
    assert_eq!(gb.regs.flags, flags(false, false, true, false));
    assert_eq!(gb.add_u8(0xFF, 0x01), 0x00);
    assert_eq!(gb.regs.flags, flags(true, false, true, true));
    assert_eq!(gb.add_u8(0x80, 0x80), 0x00);
    assert_eq!(gb.regs.flags, flags(true, false, false, true));
    assert_eq!(gb.add_u8(0x10, 0x10), 0x20);
    assert_eq!(gb.regs.flags, flags(false, false, false, false));
    assert_eq!(gb.add_u8(0x00, 0x00), 0x00);
    assert_eq!(gb.regs.flags, flags(true, false, false, false));
}

#[test]
fn half_carry_comes_from_the_operands_not_the_result() {
    let mut gb = machine();
    assert_eq!(gb.add_u8(0x10, 0x00), 0x10);
    assert!(!gb.regs.flags.half_carry);
    assert_eq!(gb.add_u8(0x08, 0x09), 0x11);
    assert!(gb.regs.flags.half_carry);
    assert_eq!(gb.increment_u8(0x1F), 0x20);
    assert!(gb.regs.flags.half_carry);
    assert_eq!(gb.increment_u8(0x20), 0x21);
    assert!(!gb.regs.flags.half_carry);
}

#[test]
fn add_u16_matches_the_truth_table() {
    let edges: [u16; 8] = [0x0000, 0x0001, 0x0FFF, 0x1000, 0x7FFF, 0x8000, 0xF000, 0xFFFF];
    for &a in edges.iter() {
        for &b in edges.iter() {
            let mut gb = machine();
            gb.regs.flags = flags(true, true, false, false);
            let result = gb.add_u16(a, b);
            assert_eq!(result, a.wrapping_add(b));
            assert!(!gb.regs.flags.zero);
            assert!(!gb.regs.flags.negative);
            assert_eq!(gb.regs.flags.half_carry, (a & 0xFFF) + (b & 0xFFF) > 0xFFF);
            assert_eq!(gb.regs.flags.carry, a as u32 + b as u32 > 0xFFFF);
        }
    }
}

#[test]
fn add_u16_exact_values() {
    let mut gb = machine();
    assert_eq!(gb.add_u16(0x0FFF, 0x0001), 0x1000);
    assert_eq!(gb.regs.flags, flags(false, false, true, false));
    assert_eq!(gb.add_u16(0xFFFF, 0x0001), 0x0000);
    assert_eq!(gb.regs.flags, flags(false, false, true, true));
    assert_eq!(gb.add_u16(0x8000, 0x8000), 0x0000);
    assert_eq!(gb.regs.flags, flags(false, false, false, true));
}

#[test]
fn wide_increment_and_decrement_wrap_without_flags() {
    let mut gb = machine();
    gb.regs.flags = flags(true, false, true, false);
    assert_eq!(gb.increment_u16(0xFFFF), 0x0000);
    assert_eq!(gb.increment_u16(0x00FF), 0x0100);
    assert_eq!(gb.decrement_u16(0x0000), 0xFFFF);
    assert_eq!(gb.decrement_u16(0x0100), 0x00FF);
    assert_eq!(gb.regs.flags, flags(true, false, true, false));
}

#[test]
fn rotates_and_shifts_on_every_byte() {
    for v in 0u8..=255 {
        for carry in [false, true] {
            let mut gb = machine();
            gb.regs.flags = flags(false, true, true, carry);
            let r = gb.rotate_left(v);
            assert_eq!(r, v.rotate_left(1));
            assert_eq!(gb.regs.flags, flags(r == 0, false, false, v & 0x80 != 0));

            gb.regs.flags = flags(false, true, true, carry);
            let r = gb.rotate_right(v);
            assert_eq!(r, v.rotate_right(1));
            assert_eq!(gb.regs.flags, flags(r == 0, false, false, v & 0x01 != 0));

            gb.regs.flags = flags(false, true, true, carry);
            let r = gb.rotate_left_carry(v);
            assert_eq!(r, (v << 1) | carry as u8);
            assert_eq!(gb.regs.flags, flags(r == 0, false, false, v & 0x80 != 0));

            gb.regs.flags = flags(false, true, true, carry);
            let r = gb.rotate_right_carry(v);
            assert_eq!(r, (v >> 1) | ((carry as u8) << 7));
            assert_eq!(gb.regs.flags, flags(r == 0, false, false, v & 0x01 != 0));

            gb.regs.flags = flags(false, true, true, carry);
            let r = gb.sla(v);
            assert_eq!(r, v << 1);
            assert_eq!(gb.regs.flags, flags(r == 0, false, false, v & 0x80 != 0));

            gb.regs.flags = flags(false, true, true, carry);
            let r = gb.sra(v);
            assert_eq!(r, ((v as i8) >> 1) as u8);
            assert_eq!(gb.regs.flags, flags(r == 0, false, false, v & 0x01 != 0));

            gb.regs.flags = flags(false, true, true, carry);
            let r = gb.srl(v);
            assert_eq!(r, v >> 1);
            assert_eq!(gb.regs.flags, flags(r == 0, false, false, v & 0x01 != 0));

            gb.regs.flags = flags(false, true, true, carry);
            let r = gb.swap(v);
            assert_eq!(r, (v << 4) | (v >> 4));
            assert_eq!(gb.regs.flags, flags(r == 0, false, false, false));
        }
    }
}

#[test]
fn shifts_exact_values() {
    let mut gb = machine();
    assert_eq!(gb.sra(0x81), 0xC0);
    assert!(gb.regs.flags.carry);
    assert_eq!(gb.srl(0x81), 0x40);
    assert!(gb.regs.flags.carry);
    assert_eq!(gb.sla(0x81), 0x02);
    assert!(gb.regs.flags.carry);
    assert_eq!(gb.swap(0xA5), 0x5A);
    assert!(!gb.regs.flags.carry);
    gb.regs.flags.carry = true;
    assert_eq!(gb.rotate_right_carry(0x00), 0x80);
    assert!(!gb.regs.flags.carry);
    assert!(!gb.regs.flags.zero);
    gb.regs.flags.carry = false;
    assert_eq!(gb.rotate_left_carry(0x80), 0x00);
    assert!(gb.regs.flags.carry);
    assert!(gb.regs.flags.zero);
}

#[test]
fn bit_test_sets_zero_for_a_clear_bit_and_keeps_carry() {
    for v in [0x00u8, 0x01, 0x80, 0xA5, 0xFF] {
        for bit in 0u8..8 {
            for carry in [false, true] {
                let mut gb = machine();
                gb.regs.a = 0x77;
                gb.regs.flags = flags(false, true, false, carry);
                gb.bit(v, bit);
                assert_eq!(gb.regs.flags, flags(v & (1 << bit) == 0, false, true, carry));
                assert_eq!(gb.regs.a, 0x77);
            }
        }
    }
}

#[test]
fn daa_after_additions_gives_packed_decimal() {
    for x in 0u8..100 {
        for y in 0u8..100 {
            let bcd_x = (x / 10) * 16 + x % 10;
            let bcd_y = (y / 10) * 16 + y % 10;
            let mut gb = machine();
            let sum = gb.add_u8(bcd_x, bcd_y);
            gb.regs.a = sum;
            let fixed = gb.daa();
            let total = x + y;
            assert_eq!(fixed, ((total % 100) / 10) * 16 + total % 10);
            assert_eq!(gb.regs.flags.carry, total >= 100);
            assert_eq!(gb.regs.flags.zero, total % 100 == 0);
            assert!(!gb.regs.flags.half_carry);
            assert!(!gb.regs.flags.negative);
        }
    }
}

#[test]
fn daa_after_subtractions_gives_packed_decimal() {
    for x in 0u8..100 {
        for y in 0u8..100 {
            let bcd_x = (x / 10) * 16 + x % 10;
            let bcd_y = (y / 10) * 16 + y % 10;
            let mut gb = machine();
            gb.regs.a = bcd_x;
            let diff = gb.sub(bcd_y);
            gb.regs.a = diff;
            let fixed = gb.daa();
            let total = (100 + x - y) % 100;
            assert_eq!(fixed, (total / 10) * 16 + total % 10);
            assert_eq!(gb.regs.flags.carry, x < y);
            assert!(gb.regs.flags.negative);
            assert!(!gb.regs.flags.half_carry);
        }
    }
}

#[test]
fn daa_exact_values() {
    let mut gb = machine();
    gb.regs.a = 0x0F;
    gb.regs.flags = flags(false, false, true, false);
    assert_eq!(gb.daa(), 0x15);
    assert_eq!(gb.regs.flags, flags(false, false, false, false));

    gb.regs.a = 0x9A;
    gb.regs.flags = flags(false, false, false, false);
    assert_eq!(gb.daa(), 0x00);
    assert_eq!(gb.regs.flags, flags(true, false, false, true));

    gb.regs.a = 0x00;
    gb.regs.flags = flags(false, true, true, true);
    assert_eq!(gb.daa(), 0x9A);
    assert_eq!(gb.regs.flags, flags(false, true, false, true));
}
