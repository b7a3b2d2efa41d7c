//! The two opcode tables of the processor, row by row: for each opcode the
//! instruction that it names, proved of the decoder. Every instruction is
//! stated on the machine `m` as it is after the fetch of its opcode.

use vstd::prelude::*;
use crate::alu::{clear_bit, rl, rlc, rr, rrc, set_bit, sla, sra, srl, swap};
use crate::decode::{run, run_prefixed};
use crate::isa::{
    adc_a, add_a, add_hl, add_sp_e8, and_a, call_if, complement, cp_a, dec_r, dec_rr,
    decimal_adjust, di, ei, flip_carry, halt, high_page, inc_r, inc_rr, jp_hl, jp_if, jr_if,
    ld_a16_a, ld_a16_sp, ld_a_a16, ld_a_at, ld_a_hl_dec, ld_a_hl_inc, ld_at_a, ld_hl_dec_a,
    ld_hl_inc_a, ld_hl_sp_e8, ld_r_d8, ld_r_r, ld_rr_d16, ld_sp_hl, ldh_a8_a, ldh_a_a8, or_a,
    pop_rr, prefix, push_rr, ret, ret_if, reti, rla, rlca, rra, rrca, rst, sbc_a, set_carry,
    shift_r, stop, store_r, sub_a, test_bit, xor_a, A, AF, AT_HL, B, BC, C, D, DE, E, H, HL, L,
    SP,
};
use crate::machine::Machine;
use crate::registers::Registers;

verus! {

/// The operands, register pairs and conditions that the fields of an opcode
/// name, by their numbers.
pub proof fn lemma_operands(m: Machine, value: u8, wide: u16)
    ensures
        m.r8(B) == m.regs.b,
        m.r8(C) == m.regs.c,
        m.r8(D) == m.regs.d,
        m.r8(E) == m.regs.e,
        m.r8(H) == m.regs.h,
        m.r8(L) == m.regs.l,
        m.r8(AT_HL) == m.read(m.regs.hl()),
        m.r8(A) == m.regs.a,
        m.with_r8(B, value) == m.with_regs(Registers { b: value, ..m.regs }),
        m.with_r8(C, value) == m.with_regs(Registers { c: value, ..m.regs }),
        m.with_r8(D, value) == m.with_regs(Registers { d: value, ..m.regs }),
        m.with_r8(E, value) == m.with_regs(Registers { e: value, ..m.regs }),
        m.with_r8(H, value) == m.with_regs(Registers { h: value, ..m.regs }),
        m.with_r8(L, value) == m.with_regs(Registers { l: value, ..m.regs }),
        m.with_r8(AT_HL, value) == m.write(m.regs.hl(), value),
        m.with_r8(A, value) == m.with_regs(Registers { a: value, ..m.regs }),
        m.r16(BC) == m.regs.bc(),
        m.r16(DE) == m.regs.de(),
        m.r16(HL) == m.regs.hl(),
        m.r16(SP) == m.regs.sp,
        m.with_r16(BC, wide).regs == m.regs.with_bc(wide),
        m.with_r16(DE, wide).regs == m.regs.with_de(wide),
        m.with_r16(HL, wide).regs == m.regs.with_hl(wide),
        m.with_r16(SP, wide).regs == (Registers { sp: wide, ..m.regs }),
        m.stack_pair(BC) == m.regs.bc(),
        m.stack_pair(DE) == m.regs.de(),
        m.stack_pair(HL) == m.regs.hl(),
        m.stack_pair(AF) == m.regs.af(),
        m.with_stack_pair(BC, wide).regs == m.regs.with_bc(wide),
        m.with_stack_pair(DE, wide).regs == m.regs.with_de(wide),
        m.with_stack_pair(HL, wide).regs == m.regs.with_hl(wide),
        m.with_stack_pair(AF, wide).regs == m.regs.with_af(wide),
        m.condition(0) == !m.regs.flags.zero,
        m.condition(1) == m.regs.flags.zero,
        m.condition(2) == !m.regs.flags.carry,
        m.condition(3) == m.regs.flags.carry,
{
}

/// Row 0x00 of the primary table: loads, increments and rotates around BC.
pub proof fn lemma_row_00(m: Machine)
    ensures
        run(m, 0x00) == (m, 4u32),
        run(m, 0x01) == ld_rr_d16(m, BC),
        run(m, 0x02) == ld_at_a(m, m.regs.bc()),
        run(m, 0x03) == inc_rr(m, BC),
        run(m, 0x04) == inc_r(m, B),
        run(m, 0x05) == dec_r(m, B),
        run(m, 0x06) == ld_r_d8(m, B),
        run(m, 0x07) == rlca(m),
        run(m, 0x08) == ld_a16_sp(m),
        run(m, 0x09) == add_hl(m, m.regs.bc()),
        run(m, 0x0A) == ld_a_at(m, m.regs.bc()),
        run(m, 0x0B) == dec_rr(m, BC),
        run(m, 0x0C) == inc_r(m, C),
        run(m, 0x0D) == dec_r(m, C),
        run(m, 0x0E) == ld_r_d8(m, C),
        run(m, 0x0F) == rrca(m),
{
}

/// Row 0x10 of the primary table: `STOP`, `JR`, and loads, increments and
/// rotates around DE.
pub proof fn lemma_row_10(m: Machine)
    ensures
        run(m, 0x10) == stop(m),
        run(m, 0x11) == ld_rr_d16(m, DE),
        run(m, 0x12) == ld_at_a(m, m.regs.de()),
        run(m, 0x13) == inc_rr(m, DE),
        run(m, 0x14) == inc_r(m, D),
        run(m, 0x15) == dec_r(m, D),
        run(m, 0x16) == ld_r_d8(m, D),
        run(m, 0x17) == rla(m),
        run(m, 0x18) == jr_if(m, true),
        run(m, 0x19) == add_hl(m, m.regs.de()),
        run(m, 0x1A) == ld_a_at(m, m.regs.de()),
        run(m, 0x1B) == dec_rr(m, DE),
        run(m, 0x1C) == inc_r(m, E),
        run(m, 0x1D) == dec_r(m, E),
        run(m, 0x1E) == ld_r_d8(m, E),
        run(m, 0x1F) == rra(m),
{
}

/// Row 0x20 of the primary table: `JR NZ`, `JR Z`, `DAA`, `CPL`, and loads and
/// increments around HL.
pub proof fn lemma_row_20(m: Machine)
    ensures
        run(m, 0x20) == jr_if(m, !m.regs.flags.zero),
        run(m, 0x21) == ld_rr_d16(m, HL),
        run(m, 0x22) == ld_hl_inc_a(m),
        run(m, 0x23) == inc_rr(m, HL),
        run(m, 0x24) == inc_r(m, H),
        run(m, 0x25) == dec_r(m, H),
        run(m, 0x26) == ld_r_d8(m, H),
        run(m, 0x27) == decimal_adjust(m),
        run(m, 0x28) == jr_if(m, m.regs.flags.zero),
        run(m, 0x29) == add_hl(m, m.regs.hl()),
        run(m, 0x2A) == ld_a_hl_inc(m),
        run(m, 0x2B) == dec_rr(m, HL),
        run(m, 0x2C) == inc_r(m, L),
        run(m, 0x2D) == dec_r(m, L),
        run(m, 0x2E) == ld_r_d8(m, L),
        run(m, 0x2F) == complement(m),
{
}

/// Row 0x30 of the primary table: `JR NC`, `JR C`, `SCF`, `CCF`, and loads and
/// increments around SP and the byte at HL.
pub proof fn lemma_row_30(m: Machine)
    ensures
        run(m, 0x30) == jr_if(m, !m.regs.flags.carry),
        run(m, 0x31) == ld_rr_d16(m, SP),
        run(m, 0x32) == ld_hl_dec_a(m),
        run(m, 0x33) == inc_rr(m, SP),
        run(m, 0x34) == inc_r(m, AT_HL),
        run(m, 0x35) == dec_r(m, AT_HL),
        run(m, 0x36) == ld_r_d8(m, AT_HL),
        run(m, 0x37) == set_carry(m),
        run(m, 0x38) == jr_if(m, m.regs.flags.carry),
        run(m, 0x39) == add_hl(m, m.regs.sp),
        run(m, 0x3A) == ld_a_hl_dec(m),
        run(m, 0x3B) == dec_rr(m, SP),
        run(m, 0x3C) == inc_r(m, A),
        run(m, 0x3D) == dec_r(m, A),
        run(m, 0x3E) == ld_r_d8(m, A),
        run(m, 0x3F) == flip_carry(m),
{
}

/// Row 0x40 of the primary table: loads into B and C.
pub proof fn lemma_row_40(m: Machine)
    ensures
        run(m, 0x40) == ld_r_r(m, B, B),
        run(m, 0x41) == ld_r_r(m, B, C),
        run(m, 0x42) == ld_r_r(m, B, D),
        run(m, 0x43) == ld_r_r(m, B, E),
        run(m, 0x44) == ld_r_r(m, B, H),
        run(m, 0x45) == ld_r_r(m, B, L),
        run(m, 0x46) == ld_r_r(m, B, AT_HL),
        run(m, 0x47) == ld_r_r(m, B, A),
        run(m, 0x48) == ld_r_r(m, C, B),
        run(m, 0x49) == ld_r_r(m, C, C),
        run(m, 0x4A) == ld_r_r(m, C, D),
        run(m, 0x4B) == ld_r_r(m, C, E),
        run(m, 0x4C) == ld_r_r(m, C, H),
        run(m, 0x4D) == ld_r_r(m, C, L),
        run(m, 0x4E) == ld_r_r(m, C, AT_HL),
        run(m, 0x4F) == ld_r_r(m, C, A),
{
}

/// Row 0x50 of the primary table: loads into D and E.
pub proof fn lemma_row_50(m: Machine)
    ensures
        run(m, 0x50) == ld_r_r(m, D, B),
        run(m, 0x51) == ld_r_r(m, D, C),
        run(m, 0x52) == ld_r_r(m, D, D),
        run(m, 0x53) == ld_r_r(m, D, E),
        run(m, 0x54) == ld_r_r(m, D, H),
        run(m, 0x55) == ld_r_r(m, D, L),
        run(m, 0x56) == ld_r_r(m, D, AT_HL),
        run(m, 0x57) == ld_r_r(m, D, A),
        run(m, 0x58) == ld_r_r(m, E, B),
        run(m, 0x59) == ld_r_r(m, E, C),
        run(m, 0x5A) == ld_r_r(m, E, D),
        run(m, 0x5B) == ld_r_r(m, E, E),
        run(m, 0x5C) == ld_r_r(m, E, H),
        run(m, 0x5D) == ld_r_r(m, E, L),
        run(m, 0x5E) == ld_r_r(m, E, AT_HL),
        run(m, 0x5F) == ld_r_r(m, E, A),
{
}

/// Row 0x60 of the primary table: loads into H and L.
pub proof fn lemma_row_60(m: Machine)
    ensures
        run(m, 0x60) == ld_r_r(m, H, B),
        run(m, 0x61) == ld_r_r(m, H, C),
        run(m, 0x62) == ld_r_r(m, H, D),
        run(m, 0x63) == ld_r_r(m, H, E),
        run(m, 0x64) == ld_r_r(m, H, H),
        run(m, 0x65) == ld_r_r(m, H, L),
        run(m, 0x66) == ld_r_r(m, H, AT_HL),
        run(m, 0x67) == ld_r_r(m, H, A),
        run(m, 0x68) == ld_r_r(m, L, B),
        run(m, 0x69) == ld_r_r(m, L, C),
        run(m, 0x6A) == ld_r_r(m, L, D),
        run(m, 0x6B) == ld_r_r(m, L, E),
        run(m, 0x6C) == ld_r_r(m, L, H),
        run(m, 0x6D) == ld_r_r(m, L, L),
        run(m, 0x6E) == ld_r_r(m, L, AT_HL),
        run(m, 0x6F) == ld_r_r(m, L, A),
{
}

/// Row 0x70 of the primary table: loads into the byte at HL and into A, and
/// `HALT`.
pub proof fn lemma_row_70(m: Machine)
    ensures
        run(m, 0x70) == ld_r_r(m, AT_HL, B),
        run(m, 0x71) == ld_r_r(m, AT_HL, C),
        run(m, 0x72) == ld_r_r(m, AT_HL, D),
        run(m, 0x73) == ld_r_r(m, AT_HL, E),
        run(m, 0x74) == ld_r_r(m, AT_HL, H),
        run(m, 0x75) == ld_r_r(m, AT_HL, L),
        run(m, 0x76) == halt(m),
        run(m, 0x77) == ld_r_r(m, AT_HL, A),
        run(m, 0x78) == ld_r_r(m, A, B),
        run(m, 0x79) == ld_r_r(m, A, C),
        run(m, 0x7A) == ld_r_r(m, A, D),
        run(m, 0x7B) == ld_r_r(m, A, E),
        run(m, 0x7C) == ld_r_r(m, A, H),
        run(m, 0x7D) == ld_r_r(m, A, L),
        run(m, 0x7E) == ld_r_r(m, A, AT_HL),
        run(m, 0x7F) == ld_r_r(m, A, A),
{
}

/// Row 0x80 of the primary table: `ADD` and `ADC`.
pub proof fn lemma_row_80(m: Machine)
    ensures
        run(m, 0x80) == add_a(m, m.regs.b, 4),
        run(m, 0x81) == add_a(m, m.regs.c, 4),
        run(m, 0x82) == add_a(m, m.regs.d, 4),
        run(m, 0x83) == add_a(m, m.regs.e, 4),
        run(m, 0x84) == add_a(m, m.regs.h, 4),
        run(m, 0x85) == add_a(m, m.regs.l, 4),
        run(m, 0x86) == add_a(m, m.read(m.regs.hl()), 8),
        run(m, 0x87) == add_a(m, m.regs.a, 4),
        run(m, 0x88) == adc_a(m, m.regs.b, 4),
        run(m, 0x89) == adc_a(m, m.regs.c, 4),
        run(m, 0x8A) == adc_a(m, m.regs.d, 4),
        run(m, 0x8B) == adc_a(m, m.regs.e, 4),
        run(m, 0x8C) == adc_a(m, m.regs.h, 4),
        run(m, 0x8D) == adc_a(m, m.regs.l, 4),
        run(m, 0x8E) == adc_a(m, m.read(m.regs.hl()), 8),
        run(m, 0x8F) == adc_a(m, m.regs.a, 4),
{
}

/// Row 0x90 of the primary table: `SUB` and `SBC`.
pub proof fn lemma_row_90(m: Machine)
    ensures
        run(m, 0x90) == sub_a(m, m.regs.b, 4),
        run(m, 0x91) == sub_a(m, m.regs.c, 4),
        run(m, 0x92) == sub_a(m, m.regs.d, 4),
        run(m, 0x93) == sub_a(m, m.regs.e, 4),
        run(m, 0x94) == sub_a(m, m.regs.h, 4),
        run(m, 0x95) == sub_a(m, m.regs.l, 4),
        run(m, 0x96) == sub_a(m, m.read(m.regs.hl()), 8),
        run(m, 0x97) == sub_a(m, m.regs.a, 4),
        run(m, 0x98) == sbc_a(m, m.regs.b, 4),
        run(m, 0x99) == sbc_a(m, m.regs.c, 4),
        run(m, 0x9A) == sbc_a(m, m.regs.d, 4),
        run(m, 0x9B) == sbc_a(m, m.regs.e, 4),
        run(m, 0x9C) == sbc_a(m, m.regs.h, 4),
        run(m, 0x9D) == sbc_a(m, m.regs.l, 4),
        run(m, 0x9E) == sbc_a(m, m.read(m.regs.hl()), 8),
        run(m, 0x9F) == sbc_a(m, m.regs.a, 4),
{
}

/// Row 0xA0 of the primary table: `AND` and `XOR`.
pub proof fn lemma_row_a0(m: Machine)
    ensures
        run(m, 0xA0) == and_a(m, m.regs.b, 4),
        run(m, 0xA1) == and_a(m, m.regs.c, 4),
        run(m, 0xA2) == and_a(m, m.regs.d, 4),
        run(m, 0xA3) == and_a(m, m.regs.e, 4),
        run(m, 0xA4) == and_a(m, m.regs.h, 4),
        run(m, 0xA5) == and_a(m, m.regs.l, 4),
        run(m, 0xA6) == and_a(m, m.read(m.regs.hl()), 8),
        run(m, 0xA7) == and_a(m, m.regs.a, 4),
        run(m, 0xA8) == xor_a(m, m.regs.b, 4),
        run(m, 0xA9) == xor_a(m, m.regs.c, 4),
        run(m, 0xAA) == xor_a(m, m.regs.d, 4),
        run(m, 0xAB) == xor_a(m, m.regs.e, 4),
        run(m, 0xAC) == xor_a(m, m.regs.h, 4),
        run(m, 0xAD) == xor_a(m, m.regs.l, 4),
        run(m, 0xAE) == xor_a(m, m.read(m.regs.hl()), 8),
        run(m, 0xAF) == xor_a(m, m.regs.a, 4),
{
}

/// Row 0xB0 of the primary table: `OR` and `CP`.
pub proof fn lemma_row_b0(m: Machine)
    ensures
        run(m, 0xB0) == or_a(m, m.regs.b, 4),
        run(m, 0xB1) == or_a(m, m.regs.c, 4),
        run(m, 0xB2) == or_a(m, m.regs.d, 4),
        run(m, 0xB3) == or_a(m, m.regs.e, 4),
        run(m, 0xB4) == or_a(m, m.regs.h, 4),
        run(m, 0xB5) == or_a(m, m.regs.l, 4),
        run(m, 0xB6) == or_a(m, m.read(m.regs.hl()), 8),
        run(m, 0xB7) == or_a(m, m.regs.a, 4),
        run(m, 0xB8) == cp_a(m, m.regs.b, 4),
        run(m, 0xB9) == cp_a(m, m.regs.c, 4),
        run(m, 0xBA) == cp_a(m, m.regs.d, 4),
        run(m, 0xBB) == cp_a(m, m.regs.e, 4),
        run(m, 0xBC) == cp_a(m, m.regs.h, 4),
        run(m, 0xBD) == cp_a(m, m.regs.l, 4),
        run(m, 0xBE) == cp_a(m, m.read(m.regs.hl()), 8),
        run(m, 0xBF) == cp_a(m, m.regs.a, 4),
{
}

/// Row 0xC0 of the primary table: returns, jumps and calls on the zero flag,
/// BC on the stack, `ADD` and `ADC` of an immediate, the prefix.
pub proof fn lemma_row_c0(m: Machine)
    ensures
        run(m, 0xC0) == ret_if(m, !m.regs.flags.zero),
        run(m, 0xC1) == pop_rr(m, BC),
        run(m, 0xC2) == jp_if(m, !m.regs.flags.zero),
        run(m, 0xC3) == jp_if(m, true),
        run(m, 0xC4) == call_if(m, !m.regs.flags.zero),
        run(m, 0xC5) == push_rr(m, BC),
        run(m, 0xC6) == add_a(m.skip(1), m.imm8(), 8),
        run(m, 0xC7) == rst(m, 0x00),
        run(m, 0xC8) == ret_if(m, m.regs.flags.zero),
        run(m, 0xC9) == ret(m),
        run(m, 0xCA) == jp_if(m, m.regs.flags.zero),
        run(m, 0xCB) == prefix(m, run_prefixed(m.skip(1), m.imm8())),
        run(m, 0xCC) == call_if(m, m.regs.flags.zero),
        run(m, 0xCD) == call_if(m, true),
        run(m, 0xCE) == adc_a(m.skip(1), m.imm8(), 8),
        run(m, 0xCF) == rst(m, 0x08),
{
}

/// Row 0xD0 of the primary table: returns, jumps and calls on the carry flag,
/// DE on the stack, `SUB` and `SBC` of an immediate, `RETI`.
pub proof fn lemma_row_d0(m: Machine)
    ensures
        run(m, 0xD0) == ret_if(m, !m.regs.flags.carry),
        run(m, 0xD1) == pop_rr(m, DE),
        run(m, 0xD2) == jp_if(m, !m.regs.flags.carry),
        run(m, 0xD4) == call_if(m, !m.regs.flags.carry),
        run(m, 0xD5) == push_rr(m, DE),
        run(m, 0xD6) == sub_a(m.skip(1), m.imm8(), 8),
        run(m, 0xD7) == rst(m, 0x10),
        run(m, 0xD8) == ret_if(m, m.regs.flags.carry),
        run(m, 0xD9) == reti(m),
        run(m, 0xDA) == jp_if(m, m.regs.flags.carry),
        run(m, 0xDC) == call_if(m, m.regs.flags.carry),
        run(m, 0xDE) == sbc_a(m.skip(1), m.imm8(), 8),
        run(m, 0xDF) == rst(m, 0x18),
{
}

/// Row 0xE0 of the primary table: stores through the last page, HL on the
/// stack, `AND` and `XOR` of an immediate, `ADD SP`, `JP HL`.
pub proof fn lemma_row_e0(m: Machine)
    ensures
        run(m, 0xE0) == ldh_a8_a(m),
        run(m, 0xE1) == pop_rr(m, HL),
        run(m, 0xE2) == ld_at_a(m, high_page(m.regs.c)),
        run(m, 0xE5) == push_rr(m, HL),
        run(m, 0xE6) == and_a(m.skip(1), m.imm8(), 8),
        run(m, 0xE7) == rst(m, 0x20),
        run(m, 0xE8) == add_sp_e8(m),
        run(m, 0xE9) == jp_hl(m),
        run(m, 0xEA) == ld_a16_a(m),
        run(m, 0xEE) == xor_a(m.skip(1), m.imm8(), 8),
        run(m, 0xEF) == rst(m, 0x28),
{
}

/// Row 0xF0 of the primary table: loads through the last page, AF on the
/// stack, `OR` and `CP` of an immediate, `LD HL,SP+e8`, `DI`, `EI`.
pub proof fn lemma_row_f0(m: Machine)
    ensures
        run(m, 0xF0) == ldh_a_a8(m),
        run(m, 0xF1) == pop_rr(m, AF),
        run(m, 0xF2) == ld_a_at(m, high_page(m.regs.c)),
        run(m, 0xF3) == di(m),
        run(m, 0xF5) == push_rr(m, AF),
        run(m, 0xF6) == or_a(m.skip(1), m.imm8(), 8),
        run(m, 0xF7) == rst(m, 0x30),
        run(m, 0xF8) == ld_hl_sp_e8(m),
        run(m, 0xF9) == ld_sp_hl(m),
        run(m, 0xFA) == ld_a_a16(m),
        run(m, 0xFB) == ei(m),
        run(m, 0xFE) == cp_a(m.skip(1), m.imm8(), 8),
        run(m, 0xFF) == rst(m, 0x38),
{
}

/// Row 0x00 of the prefixed table: `RLC` and `RRC`.
pub proof fn lemma_prefixed_row_00(m: Machine)
    ensures
        run_prefixed(m, 0x00) == shift_r(m, B, rlc(m.regs.b)),
        run_prefixed(m, 0x01) == shift_r(m, C, rlc(m.regs.c)),
        run_prefixed(m, 0x02) == shift_r(m, D, rlc(m.regs.d)),
        run_prefixed(m, 0x03) == shift_r(m, E, rlc(m.regs.e)),
        run_prefixed(m, 0x04) == shift_r(m, H, rlc(m.regs.h)),
        run_prefixed(m, 0x05) == shift_r(m, L, rlc(m.regs.l)),
        run_prefixed(m, 0x06) == shift_r(m, AT_HL, rlc(m.read(m.regs.hl()))),
        run_prefixed(m, 0x07) == shift_r(m, A, rlc(m.regs.a)),
        run_prefixed(m, 0x08) == shift_r(m, B, rrc(m.regs.b)),
        run_prefixed(m, 0x09) == shift_r(m, C, rrc(m.regs.c)),
        run_prefixed(m, 0x0A) == shift_r(m, D, rrc(m.regs.d)),
        run_prefixed(m, 0x0B) == shift_r(m, E, rrc(m.regs.e)),
        run_prefixed(m, 0x0C) == shift_r(m, H, rrc(m.regs.h)),
        run_prefixed(m, 0x0D) == shift_r(m, L, rrc(m.regs.l)),
        run_prefixed(m, 0x0E) == shift_r(m, AT_HL, rrc(m.read(m.regs.hl()))),
        run_prefixed(m, 0x0F) == shift_r(m, A, rrc(m.regs.a)),
{
}

/// Row 0x10 of the prefixed table: `RL` and `RR`.
pub proof fn lemma_prefixed_row_10(m: Machine)
    ensures
        run_prefixed(m, 0x10) == shift_r(m, B, rl(m.regs.b, m.regs.flags.carry)),
        run_prefixed(m, 0x11) == shift_r(m, C, rl(m.regs.c, m.regs.flags.carry)),
        run_prefixed(m, 0x12) == shift_r(m, D, rl(m.regs.d, m.regs.flags.carry)),
        run_prefixed(m, 0x13) == shift_r(m, E, rl(m.regs.e, m.regs.flags.carry)),
        run_prefixed(m, 0x14) == shift_r(m, H, rl(m.regs.h, m.regs.flags.carry)),
        run_prefixed(m, 0x15) == shift_r(m, L, rl(m.regs.l, m.regs.flags.carry)),
        run_prefixed(m, 0x16) == shift_r(m, AT_HL, rl(m.read(m.regs.hl()), m.regs.flags.carry)),
        run_prefixed(m, 0x17) == shift_r(m, A, rl(m.regs.a, m.regs.flags.carry)),
        run_prefixed(m, 0x18) == shift_r(m, B, rr(m.regs.b, m.regs.flags.carry)),
        run_prefixed(m, 0x19) == shift_r(m, C, rr(m.regs.c, m.regs.flags.carry)),
        run_prefixed(m, 0x1A) == shift_r(m, D, rr(m.regs.d, m.regs.flags.carry)),
        run_prefixed(m, 0x1B) == shift_r(m, E, rr(m.regs.e, m.regs.flags.carry)),
        run_prefixed(m, 0x1C) == shift_r(m, H, rr(m.regs.h, m.regs.flags.carry)),
        run_prefixed(m, 0x1D) == shift_r(m, L, rr(m.regs.l, m.regs.flags.carry)),
        run_prefixed(m, 0x1E) == shift_r(m, AT_HL, rr(m.read(m.regs.hl()), m.regs.flags.carry)),
        run_prefixed(m, 0x1F) == shift_r(m, A, rr(m.regs.a, m.regs.flags.carry)),
{
}

/// Row 0x20 of the prefixed table: `SLA` and `SRA`.
pub proof fn lemma_prefixed_row_20(m: Machine)
    ensures
        run_prefixed(m, 0x20) == shift_r(m, B, sla(m.regs.b)),
        run_prefixed(m, 0x21) == shift_r(m, C, sla(m.regs.c)),
        run_prefixed(m, 0x22) == shift_r(m, D, sla(m.regs.d)),
        run_prefixed(m, 0x23) == shift_r(m, E, sla(m.regs.e)),
        run_prefixed(m, 0x24) == shift_r(m, H, sla(m.regs.h)),
        run_prefixed(m, 0x25) == shift_r(m, L, sla(m.regs.l)),
        run_prefixed(m, 0x26) == shift_r(m, AT_HL, sla(m.read(m.regs.hl()))),
        run_prefixed(m, 0x27) == shift_r(m, A, sla(m.regs.a)),
        run_prefixed(m, 0x28) == shift_r(m, B, sra(m.regs.b)),
        run_prefixed(m, 0x29) == shift_r(m, C, sra(m.regs.c)),
        run_prefixed(m, 0x2A) == shift_r(m, D, sra(m.regs.d)),
        run_prefixed(m, 0x2B) == shift_r(m, E, sra(m.regs.e)),
        run_prefixed(m, 0x2C) == shift_r(m, H, sra(m.regs.h)),
        run_prefixed(m, 0x2D) == shift_r(m, L, sra(m.regs.l)),
        run_prefixed(m, 0x2E) == shift_r(m, AT_HL, sra(m.read(m.regs.hl()))),
        run_prefixed(m, 0x2F) == shift_r(m, A, sra(m.regs.a)),
{
}

/// Row 0x30 of the prefixed table: `SWAP` and `SRL`.
pub proof fn lemma_prefixed_row_30(m: Machine)
    ensures
        run_prefixed(m, 0x30) == shift_r(m, B, swap(m.regs.b)),
        run_prefixed(m, 0x31) == shift_r(m, C, swap(m.regs.c)),
        run_prefixed(m, 0x32) == shift_r(m, D, swap(m.regs.d)),
        run_prefixed(m, 0x33) == shift_r(m, E, swap(m.regs.e)),
        run_prefixed(m, 0x34) == shift_r(m, H, swap(m.regs.h)),
        run_prefixed(m, 0x35) == shift_r(m, L, swap(m.regs.l)),
        run_prefixed(m, 0x36) == shift_r(m, AT_HL, swap(m.read(m.regs.hl()))),
        run_prefixed(m, 0x37) == shift_r(m, A, swap(m.regs.a)),
        run_prefixed(m, 0x38) == shift_r(m, B, srl(m.regs.b)),
        run_prefixed(m, 0x39) == shift_r(m, C, srl(m.regs.c)),
        run_prefixed(m, 0x3A) == shift_r(m, D, srl(m.regs.d)),
        run_prefixed(m, 0x3B) == shift_r(m, E, srl(m.regs.e)),
        run_prefixed(m, 0x3C) == shift_r(m, H, srl(m.regs.h)),
        run_prefixed(m, 0x3D) == shift_r(m, L, srl(m.regs.l)),
        run_prefixed(m, 0x3E) == shift_r(m, AT_HL, srl(m.read(m.regs.hl()))),
        run_prefixed(m, 0x3F) == shift_r(m, A, srl(m.regs.a)),
{
}

/// Row 0x40 of the prefixed table: `BIT 0` and `BIT 1`.
pub proof fn lemma_prefixed_row_40(m: Machine)
    ensures
        run_prefixed(m, 0x40) == test_bit(m, 0, m.regs.b, 8),
        run_prefixed(m, 0x41) == test_bit(m, 0, m.regs.c, 8),
        run_prefixed(m, 0x42) == test_bit(m, 0, m.regs.d, 8),
        run_prefixed(m, 0x43) == test_bit(m, 0, m.regs.e, 8),
        run_prefixed(m, 0x44) == test_bit(m, 0, m.regs.h, 8),
        run_prefixed(m, 0x45) == test_bit(m, 0, m.regs.l, 8),
        run_prefixed(m, 0x46) == test_bit(m, 0, m.read(m.regs.hl()), 12),
        run_prefixed(m, 0x47) == test_bit(m, 0, m.regs.a, 8),
        run_prefixed(m, 0x48) == test_bit(m, 1, m.regs.b, 8),
        run_prefixed(m, 0x49) == test_bit(m, 1, m.regs.c, 8),
        run_prefixed(m, 0x4A) == test_bit(m, 1, m.regs.d, 8),
        run_prefixed(m, 0x4B) == test_bit(m, 1, m.regs.e, 8),
        run_prefixed(m, 0x4C) == test_bit(m, 1, m.regs.h, 8),
        run_prefixed(m, 0x4D) == test_bit(m, 1, m.regs.l, 8),
        run_prefixed(m, 0x4E) == test_bit(m, 1, m.read(m.regs.hl()), 12),
        run_prefixed(m, 0x4F) == test_bit(m, 1, m.regs.a, 8),
{
}

/// Row 0x50 of the prefixed table: `BIT 2` and `BIT 3`.
pub proof fn lemma_prefixed_row_50(m: Machine)
    ensures
        run_prefixed(m, 0x50) == test_bit(m, 2, m.regs.b, 8),
        run_prefixed(m, 0x51) == test_bit(m, 2, m.regs.c, 8),
        run_prefixed(m, 0x52) == test_bit(m, 2, m.regs.d, 8),
        run_prefixed(m, 0x53) == test_bit(m, 2, m.regs.e, 8),
        run_prefixed(m, 0x54) == test_bit(m, 2, m.regs.h, 8),
        run_prefixed(m, 0x55) == test_bit(m, 2, m.regs.l, 8),
        run_prefixed(m, 0x56) == test_bit(m, 2, m.read(m.regs.hl()), 12),
        run_prefixed(m, 0x57) == test_bit(m, 2, m.regs.a, 8),
        run_prefixed(m, 0x58) == test_bit(m, 3, m.regs.b, 8),
        run_prefixed(m, 0x59) == test_bit(m, 3, m.regs.c, 8),
        run_prefixed(m, 0x5A) == test_bit(m, 3, m.regs.d, 8),
        run_prefixed(m, 0x5B) == test_bit(m, 3, m.regs.e, 8),
        run_prefixed(m, 0x5C) == test_bit(m, 3, m.regs.h, 8),
        run_prefixed(m, 0x5D) == test_bit(m, 3, m.regs.l, 8),
        run_prefixed(m, 0x5E) == test_bit(m, 3, m.read(m.regs.hl()), 12),
        run_prefixed(m, 0x5F) == test_bit(m, 3, m.regs.a, 8),
{
}

/// Row 0x60 of the prefixed table: `BIT 4` and `BIT 5`.
pub proof fn lemma_prefixed_row_60(m: Machine)
    ensures
        run_prefixed(m, 0x60) == test_bit(m, 4, m.regs.b, 8),
        run_prefixed(m, 0x61) == test_bit(m, 4, m.regs.c, 8),
        run_prefixed(m, 0x62) == test_bit(m, 4, m.regs.d, 8),
        run_prefixed(m, 0x63) == test_bit(m, 4, m.regs.e, 8),
        run_prefixed(m, 0x64) == test_bit(m, 4, m.regs.h, 8),
        run_prefixed(m, 0x65) == test_bit(m, 4, m.regs.l, 8),
        run_prefixed(m, 0x66) == test_bit(m, 4, m.read(m.regs.hl()), 12),
        run_prefixed(m, 0x67) == test_bit(m, 4, m.regs.a, 8),
        run_prefixed(m, 0x68) == test_bit(m, 5, m.regs.b, 8),
        run_prefixed(m, 0x69) == test_bit(m, 5, m.regs.c, 8),
        run_prefixed(m, 0x6A) == test_bit(m, 5, m.regs.d, 8),
        run_prefixed(m, 0x6B) == test_bit(m, 5, m.regs.e, 8),
        run_prefixed(m, 0x6C) == test_bit(m, 5, m.regs.h, 8),
        run_prefixed(m, 0x6D) == test_bit(m, 5, m.regs.l, 8),
        run_prefixed(m, 0x6E) == test_bit(m, 5, m.read(m.regs.hl()), 12),
        run_prefixed(m, 0x6F) == test_bit(m, 5, m.regs.a, 8),
{
}

/// Row 0x70 of the prefixed table: `BIT 6` and `BIT 7`.
pub proof fn lemma_prefixed_row_70(m: Machine)
    ensures
        run_prefixed(m, 0x70) == test_bit(m, 6, m.regs.b, 8),
        run_prefixed(m, 0x71) == test_bit(m, 6, m.regs.c, 8),
        run_prefixed(m, 0x72) == test_bit(m, 6, m.regs.d, 8),
        run_prefixed(m, 0x73) == test_bit(m, 6, m.regs.e, 8),
        run_prefixed(m, 0x74) == test_bit(m, 6, m.regs.h, 8),
        run_prefixed(m, 0x75) == test_bit(m, 6, m.regs.l, 8),
        run_prefixed(m, 0x76) == test_bit(m, 6, m.read(m.regs.hl()), 12),
        run_prefixed(m, 0x77) == test_bit(m, 6, m.regs.a, 8),
        run_prefixed(m, 0x78) == test_bit(m, 7, m.regs.b, 8),
        run_prefixed(m, 0x79) == test_bit(m, 7, m.regs.c, 8),
        run_prefixed(m, 0x7A) == test_bit(m, 7, m.regs.d, 8),
        run_prefixed(m, 0x7B) == test_bit(m, 7, m.regs.e, 8),
        run_prefixed(m, 0x7C) == test_bit(m, 7, m.regs.h, 8),
        run_prefixed(m, 0x7D) == test_bit(m, 7, m.regs.l, 8),
        run_prefixed(m, 0x7E) == test_bit(m, 7, m.read(m.regs.hl()), 12),
        run_prefixed(m, 0x7F) == test_bit(m, 7, m.regs.a, 8),
{
}

/// Row 0x80 of the prefixed table: `RES 0` and `RES 1`.
pub proof fn lemma_prefixed_row_80(m: Machine)
    ensures
        run_prefixed(m, 0x80) == store_r(m, B, clear_bit(m.regs.b, 0)),
        run_prefixed(m, 0x81) == store_r(m, C, clear_bit(m.regs.c, 0)),
        run_prefixed(m, 0x82) == store_r(m, D, clear_bit(m.regs.d, 0)),
        run_prefixed(m, 0x83) == store_r(m, E, clear_bit(m.regs.e, 0)),
        run_prefixed(m, 0x84) == store_r(m, H, clear_bit(m.regs.h, 0)),
        run_prefixed(m, 0x85) == store_r(m, L, clear_bit(m.regs.l, 0)),
        run_prefixed(m, 0x86) == store_r(m, AT_HL, clear_bit(m.read(m.regs.hl()), 0)),
        run_prefixed(m, 0x87) == store_r(m, A, clear_bit(m.regs.a, 0)),
        run_prefixed(m, 0x88) == store_r(m, B, clear_bit(m.regs.b, 1)),
        run_prefixed(m, 0x89) == store_r(m, C, clear_bit(m.regs.c, 1)),
        run_prefixed(m, 0x8A) == store_r(m, D, clear_bit(m.regs.d, 1)),
        run_prefixed(m, 0x8B) == store_r(m, E, clear_bit(m.regs.e, 1)),
        run_prefixed(m, 0x8C) == store_r(m, H, clear_bit(m.regs.h, 1)),
        run_prefixed(m, 0x8D) == store_r(m, L, clear_bit(m.regs.l, 1)),
        run_prefixed(m, 0x8E) == store_r(m, AT_HL, clear_bit(m.read(m.regs.hl()), 1)),
        run_prefixed(m, 0x8F) == store_r(m, A, clear_bit(m.regs.a, 1)),
{
}

/// Row 0x90 of the prefixed table: `RES 2` and `RES 3`.
pub proof fn lemma_prefixed_row_90(m: Machine)
    ensures
        run_prefixed(m, 0x90) == store_r(m, B, clear_bit(m.regs.b, 2)),
        run_prefixed(m, 0x91) == store_r(m, C, clear_bit(m.regs.c, 2)),
        run_prefixed(m, 0x92) == store_r(m, D, clear_bit(m.regs.d, 2)),
        run_prefixed(m, 0x93) == store_r(m, E, clear_bit(m.regs.e, 2)),
        run_prefixed(m, 0x94) == store_r(m, H, clear_bit(m.regs.h, 2)),
        run_prefixed(m, 0x95) == store_r(m, L, clear_bit(m.regs.l, 2)),
        run_prefixed(m, 0x96) == store_r(m, AT_HL, clear_bit(m.read(m.regs.hl()), 2)),
        run_prefixed(m, 0x97) == store_r(m, A, clear_bit(m.regs.a, 2)),
        run_prefixed(m, 0x98) == store_r(m, B, clear_bit(m.regs.b, 3)),
        run_prefixed(m, 0x99) == store_r(m, C, clear_bit(m.regs.c, 3)),
        run_prefixed(m, 0x9A) == store_r(m, D, clear_bit(m.regs.d, 3)),
        run_prefixed(m, 0x9B) == store_r(m, E, clear_bit(m.regs.e, 3)),
        run_prefixed(m, 0x9C) == store_r(m, H, clear_bit(m.regs.h, 3)),
        run_prefixed(m, 0x9D) == store_r(m, L, clear_bit(m.regs.l, 3)),
        run_prefixed(m, 0x9E) == store_r(m, AT_HL, clear_bit(m.read(m.regs.hl()), 3)),
        run_prefixed(m, 0x9F) == store_r(m, A, clear_bit(m.regs.a, 3)),
{
}

/// Row 0xA0 of the prefixed table: `RES 4` and `RES 5`.
pub proof fn lemma_prefixed_row_a0(m: Machine)
    ensures
        run_prefixed(m, 0xA0) == store_r(m, B, clear_bit(m.regs.b, 4)),
        run_prefixed(m, 0xA1) == store_r(m, C, clear_bit(m.regs.c, 4)),
        run_prefixed(m, 0xA2) == store_r(m, D, clear_bit(m.regs.d, 4)),
        run_prefixed(m, 0xA3) == store_r(m, E, clear_bit(m.regs.e, 4)),
        run_prefixed(m, 0xA4) == store_r(m, H, clear_bit(m.regs.h, 4)),
        run_prefixed(m, 0xA5) == store_r(m, L, clear_bit(m.regs.l, 4)),
        run_prefixed(m, 0xA6) == store_r(m, AT_HL, clear_bit(m.read(m.regs.hl()), 4)),
        run_prefixed(m, 0xA7) == store_r(m, A, clear_bit(m.regs.a, 4)),
        run_prefixed(m, 0xA8) == store_r(m, B, clear_bit(m.regs.b, 5)),
        run_prefixed(m, 0xA9) == store_r(m, C, clear_bit(m.regs.c, 5)),
        run_prefixed(m, 0xAA) == store_r(m, D, clear_bit(m.regs.d, 5)),
        run_prefixed(m, 0xAB) == store_r(m, E, clear_bit(m.regs.e, 5)),
        run_prefixed(m, 0xAC) == store_r(m, H, clear_bit(m.regs.h, 5)),
        run_prefixed(m, 0xAD) == store_r(m, L, clear_bit(m.regs.l, 5)),
        run_prefixed(m, 0xAE) == store_r(m, AT_HL, clear_bit(m.read(m.regs.hl()), 5)),
        run_prefixed(m, 0xAF) == store_r(m, A, clear_bit(m.regs.a, 5)),
{
}

/// Row 0xB0 of the prefixed table: `RES 6` and `RES 7`.
pub proof fn lemma_prefixed_row_b0(m: Machine)
    ensures
        run_prefixed(m, 0xB0) == store_r(m, B, clear_bit(m.regs.b, 6)),
        run_prefixed(m, 0xB1) == store_r(m, C, clear_bit(m.regs.c, 6)),
        run_prefixed(m, 0xB2) == store_r(m, D, clear_bit(m.regs.d, 6)),
        run_prefixed(m, 0xB3) == store_r(m, E, clear_bit(m.regs.e, 6)),
        run_prefixed(m, 0xB4) == store_r(m, H, clear_bit(m.regs.h, 6)),
        run_prefixed(m, 0xB5) == store_r(m, L, clear_bit(m.regs.l, 6)),
        run_prefixed(m, 0xB6) == store_r(m, AT_HL, clear_bit(m.read(m.regs.hl()), 6)),
        run_prefixed(m, 0xB7) == store_r(m, A, clear_bit(m.regs.a, 6)),
        run_prefixed(m, 0xB8) == store_r(m, B, clear_bit(m.regs.b, 7)),
        run_prefixed(m, 0xB9) == store_r(m, C, clear_bit(m.regs.c, 7)),
        run_prefixed(m, 0xBA) == store_r(m, D, clear_bit(m.regs.d, 7)),
        run_prefixed(m, 0xBB) == store_r(m, E, clear_bit(m.regs.e, 7)),
        run_prefixed(m, 0xBC) == store_r(m, H, clear_bit(m.regs.h, 7)),
        run_prefixed(m, 0xBD) == store_r(m, L, clear_bit(m.regs.l, 7)),
        run_prefixed(m, 0xBE) == store_r(m, AT_HL, clear_bit(m.read(m.regs.hl()), 7)),
        run_prefixed(m, 0xBF) == store_r(m, A, clear_bit(m.regs.a, 7)),
{
}

/// Row 0xC0 of the prefixed table: `SET 0` and `SET 1`.
pub proof fn lemma_prefixed_row_c0(m: Machine)
    ensures
        run_prefixed(m, 0xC0) == store_r(m, B, set_bit(m.regs.b, 0)),
        run_prefixed(m, 0xC1) == store_r(m, C, set_bit(m.regs.c, 0)),
        run_prefixed(m, 0xC2) == store_r(m, D, set_bit(m.regs.d, 0)),
        run_prefixed(m, 0xC3) == store_r(m, E, set_bit(m.regs.e, 0)),
        run_prefixed(m, 0xC4) == store_r(m, H, set_bit(m.regs.h, 0)),
        run_prefixed(m, 0xC5) == store_r(m, L, set_bit(m.regs.l, 0)),
        run_prefixed(m, 0xC6) == store_r(m, AT_HL, set_bit(m.read(m.regs.hl()), 0)),
        run_prefixed(m, 0xC7) == store_r(m, A, set_bit(m.regs.a, 0)),
        run_prefixed(m, 0xC8) == store_r(m, B, set_bit(m.regs.b, 1)),
        run_prefixed(m, 0xC9) == store_r(m, C, set_bit(m.regs.c, 1)),
        run_prefixed(m, 0xCA) == store_r(m, D, set_bit(m.regs.d, 1)),
        run_prefixed(m, 0xCB) == store_r(m, E, set_bit(m.regs.e, 1)),
        run_prefixed(m, 0xCC) == store_r(m, H, set_bit(m.regs.h, 1)),
        run_prefixed(m, 0xCD) == store_r(m, L, set_bit(m.regs.l, 1)),
        run_prefixed(m, 0xCE) == store_r(m, AT_HL, set_bit(m.read(m.regs.hl()), 1)),
        run_prefixed(m, 0xCF) == store_r(m, A, set_bit(m.regs.a, 1)),
{
}

/// Row 0xD0 of the prefixed table: `SET 2` and `SET 3`.
pub proof fn lemma_prefixed_row_d0(m: Machine)
    ensures
        run_prefixed(m, 0xD0) == store_r(m, B, set_bit(m.regs.b, 2)),
        run_prefixed(m, 0xD1) == store_r(m, C, set_bit(m.regs.c, 2)),
        run_prefixed(m, 0xD2) == store_r(m, D, set_bit(m.regs.d, 2)),
        run_prefixed(m, 0xD3) == store_r(m, E, set_bit(m.regs.e, 2)),
        run_prefixed(m, 0xD4) == store_r(m, H, set_bit(m.regs.h, 2)),
        run_prefixed(m, 0xD5) == store_r(m, L, set_bit(m.regs.l, 2)),
        run_prefixed(m, 0xD6) == store_r(m, AT_HL, set_bit(m.read(m.regs.hl()), 2)),
        run_prefixed(m, 0xD7) == store_r(m, A, set_bit(m.regs.a, 2)),
        run_prefixed(m, 0xD8) == store_r(m, B, set_bit(m.regs.b, 3)),
        run_prefixed(m, 0xD9) == store_r(m, C, set_bit(m.regs.c, 3)),
        run_prefixed(m, 0xDA) == store_r(m, D, set_bit(m.regs.d, 3)),
        run_prefixed(m, 0xDB) == store_r(m, E, set_bit(m.regs.e, 3)),
        run_prefixed(m, 0xDC) == store_r(m, H, set_bit(m.regs.h, 3)),
        run_prefixed(m, 0xDD) == store_r(m, L, set_bit(m.regs.l, 3)),
        run_prefixed(m, 0xDE) == store_r(m, AT_HL, set_bit(m.read(m.regs.hl()), 3)),
        run_prefixed(m, 0xDF) == store_r(m, A, set_bit(m.regs.a, 3)),
{
}

/// Row 0xE0 of the prefixed table: `SET 4` and `SET 5`.
pub proof fn lemma_prefixed_row_e0(m: Machine)
    ensures
        run_prefixed(m, 0xE0) == store_r(m, B, set_bit(m.regs.b, 4)),
        run_prefixed(m, 0xE1) == store_r(m, C, set_bit(m.regs.c, 4)),
        run_prefixed(m, 0xE2) == store_r(m, D, set_bit(m.regs.d, 4)),
        run_prefixed(m, 0xE3) == store_r(m, E, set_bit(m.regs.e, 4)),
        run_prefixed(m, 0xE4) == store_r(m, H, set_bit(m.regs.h, 4)),
        run_prefixed(m, 0xE5) == store_r(m, L, set_bit(m.regs.l, 4)),
        run_prefixed(m, 0xE6) == store_r(m, AT_HL, set_bit(m.read(m.regs.hl()), 4)),
        run_prefixed(m, 0xE7) == store_r(m, A, set_bit(m.regs.a, 4)),
        run_prefixed(m, 0xE8) == store_r(m, B, set_bit(m.regs.b, 5)),
        run_prefixed(m, 0xE9) == store_r(m, C, set_bit(m.regs.c, 5)),
        run_prefixed(m, 0xEA) == store_r(m, D, set_bit(m.regs.d, 5)),
        run_prefixed(m, 0xEB) == store_r(m, E, set_bit(m.regs.e, 5)),
        run_prefixed(m, 0xEC) == store_r(m, H, set_bit(m.regs.h, 5)),
        run_prefixed(m, 0xED) == store_r(m, L, set_bit(m.regs.l, 5)),
        run_prefixed(m, 0xEE) == store_r(m, AT_HL, set_bit(m.read(m.regs.hl()), 5)),
        run_prefixed(m, 0xEF) == store_r(m, A, set_bit(m.regs.a, 5)),
{
}

/// Row 0xF0 of the prefixed table: `SET 6` and `SET 7`.
pub proof fn lemma_prefixed_row_f0(m: Machine)
    ensures
        run_prefixed(m, 0xF0) == store_r(m, B, set_bit(m.regs.b, 6)),
        run_prefixed(m, 0xF1) == store_r(m, C, set_bit(m.regs.c, 6)),
        run_prefixed(m, 0xF2) == store_r(m, D, set_bit(m.regs.d, 6)),
        run_prefixed(m, 0xF3) == store_r(m, E, set_bit(m.regs.e, 6)),
        run_prefixed(m, 0xF4) == store_r(m, H, set_bit(m.regs.h, 6)),
        run_prefixed(m, 0xF5) == store_r(m, L, set_bit(m.regs.l, 6)),
        run_prefixed(m, 0xF6) == store_r(m, AT_HL, set_bit(m.read(m.regs.hl()), 6)),
        run_prefixed(m, 0xF7) == store_r(m, A, set_bit(m.regs.a, 6)),
        run_prefixed(m, 0xF8) == store_r(m, B, set_bit(m.regs.b, 7)),
        run_prefixed(m, 0xF9) == store_r(m, C, set_bit(m.regs.c, 7)),
        run_prefixed(m, 0xFA) == store_r(m, D, set_bit(m.regs.d, 7)),
        run_prefixed(m, 0xFB) == store_r(m, E, set_bit(m.regs.e, 7)),
        run_prefixed(m, 0xFC) == store_r(m, H, set_bit(m.regs.h, 7)),
        run_prefixed(m, 0xFD) == store_r(m, L, set_bit(m.regs.l, 7)),
        run_prefixed(m, 0xFE) == store_r(m, AT_HL, set_bit(m.read(m.regs.hl()), 7)),
        run_prefixed(m, 0xFF) == store_r(m, A, set_bit(m.regs.a, 7)),
{
}

} // verus!
