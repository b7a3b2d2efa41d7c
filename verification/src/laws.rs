//! Laws that relate several operations of the machine.

use vstd::prelude::*;
use crate::alu::{
    add8, bit_of, clear_bit, dec8, inc8, rl, rlc, rr, rrc, set_bit, sla, sra, srl, sub8, swap,
};
use crate::decode::{
    is_illegal, rotate, run, run_block0, run_block3, run_load, run_prefixed, step,
};
use crate::interrupts::{first_line, vector};
use crate::isa::{high_page, pop_rr, push_rr};
use crate::machine::{region, stores, Bus, Machine, Region, FRAME_SIZE, IE, IF, LCDC, LY};
use crate::registers::{high_byte, low_byte, pair, FlagsReg};

verus! {

/// The machine after each byte of `values` was written to `addr`, in order.
pub open spec fn write_each(m: Machine, addr: u16, values: Seq<u8>) -> Machine
    decreases values.len(),
{
    if values.len() == 0 {
        m
    } else {
        write_each(m, addr, values.drop_last()).write(addr, values.last())
    }
}

/// A write changes neither the boot program nor the cartridge image, and
/// keeps the sizes of the byte spaces.
pub proof fn lemma_write_keeps_images(bus: Bus, addr: u16, value: u8)
    requires
        bus.wf(),
    ensures
        bus.write(addr, value).bios == bus.bios,
        bus.write(addr, value).rom == bus.rom,
        bus.write(addr, value).wf(),
{
}

/// A byte written where the bus stores is the byte that a read finds there,
/// and a write that the cartridge or the unusable block receives leaves every
/// read as it was.
pub proof fn lemma_write_then_read(bus: Bus, addr: u16, value: u8, other: u16)
    requires
        bus.wf(),
    ensures
        stores(addr) ==> bus.write(addr, value).read(addr) == value,
        region(addr) is Cartridge || region(addr) is Unusable ==> bus.write(addr, value).read(other)
            == bus.read(other),
{
}

/// A 16-bit value written at an address where both of its bytes are stored is
/// the value that a 16-bit read finds there.
pub proof fn lemma_write16_then_read16(m: Machine, addr: u16, value: u16)
    requires
        m.wf(),
        stores(addr),
        stores(addr.wrapping_add(1)),
    ensures
        m.write16(addr, value).read16(addr) == value,
{
}

/// A read of a mirrored address finds what a read of the address 0x2000
/// below it finds, in every state of the machine.
pub proof fn lemma_mirror_reads_alike(m: Machine, addr: u16)
    requires
        region(addr) is Mirror,
    ensures
        m.read(addr) == m.read((addr - 0x2000) as u16),
{
}

/// After any sequence of writes to the address that a mirrored address
/// stands for, a read of the mirrored address finds what a read of that
/// address finds: the byte written last, if any was written.
pub proof fn lemma_mirror_follows_writes(m: Machine, addr: u16, values: Seq<u8>)
    requires
        m.wf(),
        region(addr) is Mirror,
    ensures
        write_each(m, (addr - 0x2000) as u16, values).read(addr) == write_each(
            m,
            (addr - 0x2000) as u16,
            values,
        ).read((addr - 0x2000) as u16),
        values.len() > 0 ==> write_each(m, (addr - 0x2000) as u16, values).read(addr)
            == values.last(),
{
    let target = (addr - 0x2000) as u16;
    if values.len() > 0 {
        let before = write_each(m, target, values.drop_last());
        lemma_write_each_wf(m, target, values.drop_last());
        assert(write_each(m, target, values) == before.write(target, values.last()));
    }
}

/// Writes keep the machine well formed.
pub proof fn lemma_write_each_wf(m: Machine, addr: u16, values: Seq<u8>)
    requires
        m.wf(),
    ensures
        write_each(m, addr, values).wf(),
    decreases values.len(),
{
    if values.len() > 0 {
        lemma_write_each_wf(m, addr, values.drop_last());
    }
}

/// A value pushed where the stack stores both of its bytes is the value on
/// top of the stack, and a pop then brings the stack pointer back.
pub proof fn lemma_push_then_pop(m: Machine, value: u16)
    requires
        m.wf(),
        stores(m.regs.sp.wrapping_sub(2)),
        stores(m.regs.sp.wrapping_sub(1)),
    ensures
        m.push(value).regs.sp == m.regs.sp.wrapping_sub(2),
        m.push(value).top() == value,
        m.push(value).pop().regs == m.regs,
{
}

/// The opcode of `PUSH` for the register pair that `pair` numbers: BC, DE, HL
/// and AF from 0.
pub open spec fn push_opcode(pair: u8) -> u8 {
    match pair {
        0 => 0xC5,
        1 => 0xD5,
        2 => 0xE5,
        _ => 0xF5,
    }
}

/// The opcode of `POP` for the register pair that `pair` numbers.
pub open spec fn pop_opcode(pair: u8) -> u8 {
    match pair {
        0 => 0xC1,
        1 => 0xD1,
        2 => 0xE1,
        _ => 0xF1,
    }
}

/// `PUSH` pushes its register pair and takes 16 cycles.
pub proof fn lemma_push_instruction(m: Machine, pair: u8)
    requires
        pair < 4,
    ensures
        run(m, push_opcode(pair)) == push_rr(m, pair),
        run(m, push_opcode(pair)) == (m.push(m.stack_pair(pair)), 16u32),
{
    let op = push_opcode(pair);
    assert(op % 8 == 5 && op / 8 % 8 % 2 == 0 && op / 8 % 8 / 2 == pair && op / 64 == 3);
}

/// `POP` pops into its register pair and takes 12 cycles.
pub proof fn lemma_pop_instruction(m: Machine, pair: u8)
    requires
        pair < 4,
    ensures
        run(m, pop_opcode(pair)) == pop_rr(m, pair),
        run(m, pop_opcode(pair)) == (m.pop().with_stack_pair(pair, m.top()), 12u32),
{
    let op = pop_opcode(pair);
    assert(op % 8 == 1 && op / 8 % 8 % 2 == 0 && op / 8 % 8 / 2 == pair && op / 64 == 3);
}

/// A register pair that takes its own value keeps the registers as they
/// are.
pub proof fn lemma_stack_pair_round_trip(m: Machine, pair: u8)
    ensures
        m.with_stack_pair(pair, m.stack_pair(pair)).regs == m.regs,
{
    crate::registers::lemma_flags_round_trip(m.regs.flags);
    let flags = m.regs.flags;
    assert(low_byte(m.regs.af()) == flags.bits());
    assert(high_byte(m.regs.af()) == m.regs.a);
}

/// `PUSH` of a register pair and `POP` of the same pair, where the stack
/// stores both bytes, take the stack pointer down by two and back, and leave
/// every register as it was.
pub proof fn lemma_push_pop_restores(m: Machine, pair: u8)
    requires
        m.wf(),
        pair < 4,
        stores(m.regs.sp.wrapping_sub(2)),
        stores(m.regs.sp.wrapping_sub(1)),
    ensures
        ({
            let pushed = run(m, push_opcode(pair)).0;
            let popped = run(pushed, pop_opcode(pair)).0;
            &&& pushed.regs.sp == m.regs.sp.wrapping_sub(2)
            &&& popped.regs == m.regs
        }),
{
    let value = m.stack_pair(pair);
    let pushed = m.push(value);
    lemma_push_instruction(m, pair);
    lemma_pop_instruction(pushed, pair);
    lemma_push_then_pop(m, value);
    let popped = pushed.pop();
    assert(popped.regs == m.regs);
    assert(pushed.top() == value);
    lemma_stack_pair_round_trip(m, pair);
    assert(popped.with_stack_pair(pair, value).regs == m.with_stack_pair(pair, value).regs);
}

/// While the control register keeps the display off, the pixel pipeline
/// leaves the scanline counter at 0, whatever it held, however many cycles
/// have passed and whatever was left of the scanline budget.
pub proof fn lemma_display_off_holds_line(m: Machine, cycles: u32)
    requires
        m.wf(),
        m.read(LCDC) & 0x80 == 0,
    ensures
        m.run_display(cycles).read(LY) == 0,
        m.run_display(cycles).read(LCDC) & 0x80 == 0,
{
}

/// The line that delivery picks is requested and enabled, and no line below
/// it is.
pub proof fn lemma_first_line_is_lowest(bits: u8, from: u8)
    requires
        from <= 8,
    ensures
        from <= first_line(bits, from) <= 8,
        first_line(bits, from) < 8 ==> bits & (1u8 << first_line(bits, from)) != 0,
        forall|j: u8| from <= j < first_line(bits, from) ==> bits & (1u8 << j) == 0,
    decreases 8 - from,
{
    if from < 8 && bits & (1u8 << from) == 0 {
        lemma_first_line_is_lowest(bits, (from + 1) as u8);
    }
}

/// A step that ends in a fault has fetched an illegal opcode and changed
/// nothing but the program counter and the halt.
pub proof fn lemma_fault_keeps_state(m: Machine)
    requires
        step(m).1 is Err,
    ensures
        step(m).0 == (Machine { halted: false, ..m }).skip(1),
{
}

/// What an instruction leaves alone: the boot program, the cartridge image,
/// the frame buffer, the scanline budget and the frame rate, and the sizes of
/// the byte spaces.
pub open spec fn keeps_surroundings(before: Machine, after: Machine) -> bool {
    &&& after.bus.bios == before.bus.bios
    &&& after.bus.rom == before.bus.rom
    &&& after.frame == before.frame
    &&& after.budget == before.budget
    &&& after.frame_hz == before.frame_hz
    &&& before.wf() ==> after.wf()
}

/// A write leaves the surroundings alone.
pub proof fn lemma_write_keeps_surroundings(m: Machine, addr: u16, value: u8)
    ensures
        keeps_surroundings(m, m.write(addr, value)),
        m.write(addr, value).regs == m.regs,
{
}

/// A 16-bit write leaves the surroundings alone.
pub proof fn lemma_write16_keeps_surroundings(m: Machine, addr: u16, value: u16)
    ensures
        keeps_surroundings(m, m.write16(addr, value)),
        m.write16(addr, value).regs == m.regs,
{
    let first = m.write(addr, low_byte(value) as u8);
    lemma_write_keeps_surroundings(m, addr, low_byte(value) as u8);
    lemma_write_keeps_surroundings(first, addr.wrapping_add(1), high_byte(value) as u8);
    assert(m.write16(addr, value) == first.write(addr.wrapping_add(1), high_byte(value) as u8));
}

/// A store into an operand leaves the surroundings alone.
pub proof fn lemma_operand_keeps_surroundings(m: Machine, index: u8, value: u8)
    ensures
        keeps_surroundings(m, m.with_r8(index, value)),
{
    lemma_write_keeps_surroundings(m, m.regs.hl(), value);
}

/// A push leaves the surroundings alone.
pub proof fn lemma_push_keeps_surroundings(m: Machine, value: u16)
    ensures
        keeps_surroundings(m, m.push(value)),
        keeps_surroundings(m, m.call(value)),
{
    let sp = m.regs.sp.wrapping_sub(2);
    lemma_write16_keeps_surroundings(m.with_sp(sp), sp, value);
    lemma_write16_keeps_surroundings(m.with_sp(sp), sp, m.regs.pc);
}

/// An instruction of the first quarter of the table leaves the surroundings
/// alone.
pub proof fn lemma_block0_keeps_surroundings(m: Machine, op: u8)
    requires
        op < 0x40,
    ensures
        keeps_surroundings(m, run_block0(m, op).0),
        4 <= run_block0(m, op).1 <= 24,
        run_block0(m, op).1 % 4 == 0,
{
    let y = op / 8 % 8;
    match op % 8 {
        0 => {
            lemma_write16_keeps_surroundings(m.skip(2), m.imm16(), m.regs.sp);
        },
        2 => {
            lemma_write_keeps_surroundings(m, m.regs.bc(), m.regs.a);
            lemma_write_keeps_surroundings(m, m.regs.de(), m.regs.a);
            lemma_write_keeps_surroundings(m, m.regs.hl(), m.regs.a);
        },
        4 => {
            let (value, flags) = inc8(m.r8(y), m.regs.flags);
            lemma_operand_keeps_surroundings(m.with_flags(flags), y, value);
        },
        5 => {
            let (value, flags) = dec8(m.r8(y), m.regs.flags);
            lemma_operand_keeps_surroundings(m.with_flags(flags), y, value);
        },
        6 => {
            lemma_operand_keeps_surroundings(m.skip(1), y, m.imm8());
        },
        _ => {},
    }
}

/// A load between operands leaves the surroundings alone.
pub proof fn lemma_load_keeps_surroundings(m: Machine, op: u8)
    ensures
        keeps_surroundings(m, run_load(m, op).0),
        run_load(m, op).1 == 4 || run_load(m, op).1 == 8,
{
    lemma_operand_keeps_surroundings(m, op / 8 % 8, m.r8(op % 8));
}

/// A prefixed instruction leaves the surroundings alone and costs 8, 12 or 16
/// cycles of its own.
pub proof fn lemma_prefixed_keeps_surroundings(m: Machine, sub: u8)
    ensures
        keeps_surroundings(m, run_prefixed(m, sub).0),
        run_prefixed(m, sub).1 == 8 || run_prefixed(m, sub).1 == 12 || run_prefixed(m, sub).1
            == 16,
{
    let index = sub / 8 % 8;
    let operand = sub % 8;
    let value = m.r8(operand);
    let (result, flags) = rotate(index, value, m.regs.flags);
    lemma_operand_keeps_surroundings(m.with_flags(flags), operand, result);
    lemma_operand_keeps_surroundings(m, operand, clear_bit(value, index));
    lemma_operand_keeps_surroundings(m, operand, set_bit(value, index));
}

/// A defined instruction of the last quarter of the table leaves the
/// surroundings alone.
pub proof fn lemma_block3_keeps_surroundings(m: Machine, op: u8)
    requires
        op >= 0xC0,
        !is_illegal(op),
    ensures
        keeps_surroundings(m, run_block3(m, op).0),
        4 <= run_block3(m, op).1 <= 24,
        run_block3(m, op).1 % 4 == 0,
{
    let y = op / 8 % 8;
    match op % 8 {
        0 => {
            lemma_write_keeps_surroundings(m.skip(1), high_page(m.imm8()), m.regs.a);
        },
        2 => {
            lemma_write_keeps_surroundings(m, high_page(m.regs.c), m.regs.a);
            lemma_write_keeps_surroundings(m.skip(2), m.imm16(), m.regs.a);
        },
        3 => {
            lemma_prefixed_keeps_surroundings(m.skip(1), m.imm8());
        },
        4 => {
            lemma_push_keeps_surroundings(m.skip(2), m.imm16());
        },
        5 => {
            lemma_push_keeps_surroundings(m, m.stack_pair(y / 2));
            lemma_push_keeps_surroundings(m.skip(2), m.imm16());
        },
        7 => {
            lemma_push_keeps_surroundings(m, (y * 8) as u16);
        },
        _ => {},
    }
}

/// No instruction changes the boot program, the cartridge image or anything
/// of the display, and each costs a multiple of four cycles between 4 and 24.
pub proof fn lemma_run_keeps_surroundings(m: Machine, op: u8)
    requires
        !is_illegal(op),
    ensures
        keeps_surroundings(m, run(m, op).0),
        4 <= run(m, op).1 <= 24,
        run(m, op).1 % 4 == 0,
{
    if op < 0x40 {
        lemma_block0_keeps_surroundings(m, op);
    } else if op < 0x80 {
        lemma_load_keeps_surroundings(m, op);
    } else if op < 0xC0 {
    } else {
        lemma_block3_keeps_surroundings(m, op);
    }
}

/// A step, whether it ends in a fault or not, changes neither the boot
/// program nor the cartridge image nor anything of the display; one that does
/// not end in a fault costs a multiple of four cycles between 4 and 24.
pub proof fn lemma_step_keeps_surroundings(m: Machine)
    ensures
        keeps_surroundings(m, step(m).0),
        step(m).1 matches Ok(cycles) ==> 4 <= cycles <= 24 && cycles % 4 == 0,
{
    let op = m.imm8();
    let fetched = (Machine { halted: false, ..m }).skip(1);
    if !is_illegal(op) {
        lemma_run_keeps_surroundings(fetched, op);
    }
}

/// The rotates and shifts of the model, read as operations on bits: which
/// bit leaves into carry, and what fills the bit that was vacated.
pub proof fn lemma_rotates_move_bits(value: u8, carry_in: bool)
    ensures
        rlc(value).0 == (value << 1) | (value >> 7),
        rrc(value).0 == (value >> 1) | (value << 7),
        rl(value, carry_in).0 == (value << 1) | (if carry_in { 0x01u8 } else { 0u8 }),
        rr(value, carry_in).0 == (value >> 1) | (if carry_in { 0x80u8 } else { 0u8 }),
        sla(value).0 == value << 1,
        sra(value).0 == (value >> 1) | (value & 0x80),
        srl(value).0 == value >> 1,
        swap(value).0 == (value << 4) | (value >> 4),
        rlc(value).1.carry == (value & 0x80 != 0),
        rl(value, carry_in).1.carry == (value & 0x80 != 0),
        sla(value).1.carry == (value & 0x80 != 0),
        rrc(value).1.carry == (value & 0x01 != 0),
        rr(value, carry_in).1.carry == (value & 0x01 != 0),
        sra(value).1.carry == (value & 0x01 != 0),
        srl(value).1.carry == (value & 0x01 != 0),
{
    assert((value % 128) * 2 + value / 128 == (value << 1) | (value >> 7)) by (bit_vector);
    assert(value / 2 + (value % 2) * 128 == (value >> 1) | (value << 7)) by (bit_vector);
    assert((value % 128) * 2 + 1 == (value << 1) | 0x01u8) by (bit_vector);
    assert((value % 128) * 2 == (value << 1) | 0u8) by (bit_vector);
    assert((value % 128) * 2 == value << 1) by (bit_vector);
    assert(value / 2 == value >> 1) by (bit_vector);
    assert(value / 2 + 128 == (value >> 1) | 0x80u8) by (bit_vector);
    assert(value / 2 == (value >> 1) | 0u8) by (bit_vector);
    assert(value / 2 + (value / 128) * 128 == (value >> 1) | (value & 0x80)) by (bit_vector);
    assert((value % 16) * 16 + value / 16 == (value << 4) | (value >> 4)) by (bit_vector);
    assert((value >= 128) == (value & 0x80 != 0)) by (bit_vector);
    assert((value % 2 == 1) == (value & 0x01 != 0)) by (bit_vector);
}

/// The half-carry of the model, read as the standard definition: the carry
/// out of the low nibbles of the operands in an addition, the borrow that
/// they need in a subtraction; and the results as wrapping arithmetic.
pub proof fn lemma_half_carry_of_low_nibbles(a: u8, b: u8, carry_in: bool)
    ensures
        add8(a, b, carry_in).1.half_carry == ((a & 0x0F) + (b & 0x0F) + bit_of(carry_in) > 0x0F),
        sub8(a, b, carry_in).1.half_carry == ((a & 0x0F) < (b & 0x0F) + bit_of(carry_in)),
        add8(a, b, carry_in).0 == a.wrapping_add(b).wrapping_add(bit_of(carry_in) as u8),
        sub8(a, b, carry_in).0 == a.wrapping_sub(b).wrapping_sub(bit_of(carry_in) as u8),
{
    assert(a % 16 == a & 0x0F) by (bit_vector);
    assert(b % 16 == b & 0x0F) by (bit_vector);
}

/// The register pairs and the flag byte of the model, read as operations on
/// bits.
pub proof fn lemma_pairs_are_shifts(hi: u8, lo: u8, value: u16, byte: u8)
    ensures
        pair(hi, lo) == ((hi as u16) << 8) | (lo as u16),
        high_byte(value) == value >> 8,
        low_byte(value) == value & 0xFF,
        FlagsReg::of_bits(byte).zero == (byte & 0x80 != 0),
        FlagsReg::of_bits(byte).negative == (byte & 0x40 != 0),
        FlagsReg::of_bits(byte).half_carry == (byte & 0x20 != 0),
        FlagsReg::of_bits(byte).carry == (byte & 0x10 != 0),
{
    assert((hi as u16) * 256 + (lo as u16) == ((hi as u16) << 8) | (lo as u16)) by (bit_vector);
    assert(value / 256 == value >> 8) by (bit_vector);
    assert(value % 256 == value & 0xFF) by (bit_vector);
    assert((byte / 128 == 1) == (byte & 0x80 != 0)) by (bit_vector);
    assert(((byte / 64) % 2 == 1) == (byte & 0x40 != 0)) by (bit_vector);
    assert(((byte / 32) % 2 == 1) == (byte & 0x20 != 0)) by (bit_vector);
    assert(((byte / 16) % 2 == 1) == (byte & 0x10 != 0)) by (bit_vector);
}

/// A request sets the bit of its line and no other; the delivery of a line
/// clears the bit of that line and no other.
pub proof fn lemma_request_and_serve_touch_one_bit(pending: u8, line: u8, other: u8)
    requires
        line < 8,
        other < 8,
        other != line,
    ensures
        (pending | (1u8 << line)) & (1u8 << line) != 0,
        (pending | (1u8 << line)) & (1u8 << other) == pending & (1u8 << other),
        (pending & !(1u8 << line)) & (1u8 << line) == 0,
        (pending & !(1u8 << line)) & (1u8 << other) == pending & (1u8 << other),
{
    assert((pending | (1u8 << line)) & (1u8 << line) != 0) by (bit_vector)
        requires
            line < 8,
    ;
    assert((pending | (1u8 << line)) & (1u8 << other) == pending & (1u8 << other))
        by (bit_vector)
        requires
            line < 8,
            other < 8,
            other != line,
    ;
    assert((pending & !(1u8 << line)) & (1u8 << line) == 0) by (bit_vector)
        requires
            line < 8,
    ;
    assert((pending & !(1u8 << line)) & (1u8 << other) == pending & (1u8 << other))
        by (bit_vector)
        requires
            line < 8,
            other < 8,
            other != line,
    ;
}

/// The update of the mode bits puts the mode into the two lowest bits of the
/// display status and leaves the six bits above them alone.
pub proof fn lemma_mode_bits(stat: u8, mode: u8)
    requires
        mode < 4,
    ensures
        ((stat & 0xFC) | mode) & 0x03 == mode,
        ((stat & 0xFC) | mode) & 0xFC == stat & 0xFC,
{
    assert(((stat & 0xFC) | mode) & 0x03 == mode) by (bit_vector)
        requires
            mode < 4,
    ;
    assert(((stat & 0xFC) | mode) & 0xFC == stat & 0xFC) by (bit_vector)
        requires
            mode < 4,
    ;
}

/// With interrupts enabled and a line from 0 to 3 ready, delivery serves the
/// lowest ready line: no lower line is ready, the program counter is pushed
/// and set to the line's vector, interrupts are disabled, the request of
/// that line is cleared, and the request of every other line stays as it was.
pub proof fn lemma_delivery_serves_lowest(m: Machine, other: u8)
    requires
        m.wf(),
        m.ime,
        m.ready_line() <= 3,
        other < 8,
        other != m.ready_line(),
    ensures
        ({
            let line = m.ready_line();
            let after = m.deliver().0;
            &&& m.deliver().1 is Ok
            &&& m.read(IF) & m.read(IE) & (1u8 << line) != 0
            &&& other < line ==> m.read(IF) & m.read(IE) & (1u8 << other) == 0
            &&& after.regs.pc == vector(line)
            &&& after.regs.sp == m.regs.sp.wrapping_sub(2)
            &&& !after.ime
            &&& after.read(IF) & (1u8 << line) == 0
            &&& after.read(IF) & (1u8 << other) == m.read(IF) & (1u8 << other)
        }),
{
    let line = m.ready_line();
    let pending = m.read(IF);
    lemma_first_line_is_lowest(pending & m.read(IE), 0);
    lemma_request_and_serve_touch_one_bit(pending, line, other);
    let pushed = m.push(m.regs.pc);
    lemma_push_keeps_surroundings(m, m.regs.pc);
    let jumped = Machine { ime: false, halted: false, ..pushed.with_pc(vector(line)) };
    assert(jumped.wf());
    assert(m.deliver().0 == jumped.write(IF, pending & !(1u8 << line)));
    lemma_write_then_read(jumped.bus, IF, pending & !(1u8 << line), IF);
}

/// A request of a line from 0 to 3 is pending afterwards, and the request of
/// every other line stays as it was.
pub proof fn lemma_request_is_pending(m: Machine, line: u8, other: u8)
    requires
        m.wf(),
        line <= 3,
        other < 8,
        other != line,
    ensures
        m.request(line).1 is Ok,
        m.request(line).0.read(IF) & (1u8 << line) != 0,
        m.request(line).0.read(IF) & (1u8 << other) == m.read(IF) & (1u8 << other),
{
    lemma_request_and_serve_touch_one_bit(m.read(IF), line, other);
    lemma_write_then_read(m.bus, IF, m.read(IF) | (1u8 << line), IF);
}

/// The rendering of a scanline writes the 640 bytes of its own row of the
/// frame buffer, each pixel opaque, and leaves every other byte as it was.
pub proof fn lemma_scanline_writes_its_row(m: Machine, i: int)
    requires
        m.wf(),
        0 <= i < FRAME_SIZE,
    ensures
        m.draw_scanline().wf(),
        m.draw_scanline().bus == m.bus,
        !(m.read(LY) * 640 <= i < (m.read(LY) + 1) * 640) ==> m.draw_scanline().frame[i]
            == m.frame[i],
        m.read(LCDC) & 0x01 != 0 && m.read(LY) * 640 <= i < (m.read(LY) + 1) * 640 && i % 4 == 3
            ==> m.draw_scanline().frame[i] == 255,
{
}

/// The conditional jumps, calls and returns: `JR cc` in the first quarter of
/// the table, `RET cc`, `JP cc` and `CALL cc` in the last.
pub open spec fn is_conditional(op: u8) -> bool {
    let y = op / 8 % 8;
    ||| op < 0x40 && op % 8 == 0 && y >= 4
    ||| op >= 0xC0 && y < 4 && (op % 8 == 0 || op % 8 == 2 || op % 8 == 4)
}

/// A conditional jump, call or return costs fewer cycles where its condition
/// fails than where it holds.
pub proof fn lemma_branch_not_taken_costs_less(taken: Machine, passed: Machine, op: u8)
    requires
        is_conditional(op),
        taken.condition(op / 8 % 4),
        !passed.condition(op / 8 % 4),
    ensures
        run(passed, op).1 < run(taken, op).1,
{
    let y = op / 8 % 8;
    if op < 0x40 {
        assert(y - 4 == op / 8 % 4);
        assert(run(taken, op) == run_block0(taken, op));
        assert(run(passed, op) == run_block0(passed, op));
    } else {
        assert(y == op / 8 % 4);
        assert(!is_illegal(op));
        assert(run(taken, op) == run_block3(taken, op));
        assert(run(passed, op) == run_block3(passed, op));
    }
}

/// `BIT` changes nothing but the zero, negative and half-carry flags: the
/// operand, the carry flag and the rest of the machine stay as they were.
/// `RES` and `SET` change no flag.
pub proof fn lemma_bit_instructions(m: Machine, sub: u8)
    requires
        sub >= 0x40,
    ensures
        sub < 0x80 ==> run_prefixed(m, sub).0 == m.with_flags(run_prefixed(m, sub).0.regs.flags),
        sub < 0x80 ==> run_prefixed(m, sub).0.regs.flags.carry == m.regs.flags.carry,
        sub < 0x80 ==> run_prefixed(m, sub).0.regs.flags.half_carry,
        sub < 0x80 ==> !run_prefixed(m, sub).0.regs.flags.negative,
        sub >= 0x80 ==> run_prefixed(m, sub).0.regs.flags == m.regs.flags,
{
    lemma_write_keeps_surroundings(m, m.regs.hl(), clear_bit(m.r8(sub % 8), sub / 8 % 8));
    lemma_write_keeps_surroundings(m, m.regs.hl(), set_bit(m.r8(sub % 8), sub / 8 % 8));
}

/// The pixel pipeline, the timer and the interrupt controller change neither
/// the boot program nor the cartridge image, and keep the sizes of the byte
/// spaces and of the frame buffer; the pixel pipeline and the timer leave the
/// registers and the processor's flags alone.
pub proof fn lemma_components_keep_images(m: Machine, cycles: u32)
    requires
        m.wf(),
    ensures
        m.run_display(cycles).wf(),
        m.run_display(cycles).bus.bios == m.bus.bios,
        m.run_display(cycles).bus.rom == m.bus.rom,
        m.run_display(cycles).regs == m.regs,
        m.run_display(cycles).ime == m.ime,
        m.run_display(cycles).halted == m.halted,
        m.tick(cycles).wf(),
        m.tick(cycles).bus.bios == m.bus.bios,
        m.tick(cycles).bus.rom == m.bus.rom,
        m.tick(cycles).regs == m.regs,
        m.tick(cycles).frame == m.frame,
        m.deliver().0.wf(),
        m.deliver().0.bus.bios == m.bus.bios,
        m.deliver().0.bus.rom == m.bus.rom,
        m.deliver().0.frame == m.frame,
{
    let line = m.ready_line();
    lemma_push_keeps_surroundings(m, m.regs.pc);
    let jumped = Machine { ime: false, halted: false, ..m.push(m.regs.pc).with_pc(vector(line)) };
    lemma_write_keeps_surroundings(jumped, IF, m.read(IF) & !(1u8 << line));
    lemma_display_keeps_images(m, cycles);
}

/// The pixel pipeline changes neither the boot program nor the cartridge
/// image nor the processor, and keeps the machine well formed.
pub proof fn lemma_display_keeps_images(m: Machine, cycles: u32)
    requires
        m.wf(),
    ensures
        m.run_display(cycles).wf(),
        m.run_display(cycles).bus.bios == m.bus.bios,
        m.run_display(cycles).bus.rom == m.bus.rom,
        m.run_display(cycles).regs == m.regs,
        m.run_display(cycles).ime == m.ime,
        m.run_display(cycles).halted == m.halted,
{
    let entered = m.enter_mode();
    assert(entered.wf() && entered.bus.bios == m.bus.bios && entered.bus.rom == m.bus.rom
        && entered.regs == m.regs && entered.ime == m.ime && entered.halted == m.halted);
    let advanced = entered.advance_line(cycles);
    assert(advanced.wf() && advanced.bus.bios == m.bus.bios && advanced.bus.rom == m.bus.rom
        && advanced.regs == m.regs && advanced.ime == m.ime && advanced.halted == m.halted);
}

} // verus!
