//! What each data-processing format computes, stated in plain arithmetic over
//! the opcode's numeric fields and the registers: quotients by powers of two for
//! shifts, sums and differences modulo 2^32, and the unsigned comparisons behind
//! the condition flags.

use vstd::prelude::*;

use vstd::arithmetic::div_mod::lemma_mul_mod_noop_left;
use vstd::arithmetic::power2::{lemma2_to64, lemma_pow2_pos, lemma_pow2_unfold, pow2};
use vstd::bits::lemma_u32_shr_is_div;

use crate::bus::{
    lemma_read_after_write_16,
    lemma_read_after_write_32,
    lemma_read_after_write_8,
    BusView,
    BIOS_ROM_SIZE,
};
use crate::cpu::{lemma_register_read_after_write, Cpu};
use crate::program_status_register::lemma_with_keeps_other_fields;
use crate::semantics::{field_hd, field_hs, field_hi_op, low_byte, low_half, wrap};
use crate::thumb::{bit_set, field_imm5, field_imm8, field_op2, field_rd, field_rd_high, field_rn, field_rs};

verus! {

/// The operand fields of an opcode as quotients and remainders.
proof fn lemma_fields_as_numbers(opcode: u16)
    by (bit_vector)
    ensures
        opcode & 0x0007 == opcode % 8,
        (opcode & 0x0038) >> 3 == (opcode / 8) % 8,
        (opcode & 0x01C0) >> 6 == (opcode / 64) % 8,
        (opcode & 0x07C0) >> 6 == (opcode / 64) % 32,
        (opcode & 0x0700) >> 8 == (opcode / 256) % 8,
        opcode & 0x00FF == opcode % 256,
        (opcode & 0x1800) >> 11 == (opcode / 2048) % 4,
        (opcode & 0x0300) >> 8 == (opcode / 256) % 4,
        bit_set(opcode, 7) == ((opcode / 128) % 2 == 1),
        bit_set(opcode, 9) == ((opcode / 512) % 2 == 1),
        bit_set(opcode, 10) == ((opcode / 1024) % 2 == 1),
        bit_set(opcode, 11) == ((opcode / 2048) % 2 == 1),
        bit_set(opcode, 12) == ((opcode / 4096) % 2 == 1),
        opcode & 0x007F == opcode % 128,
        opcode & 0x07FF == opcode % 2048,
        (opcode & 0x0007) | (((opcode & 0x0080) >> 7) << 3) == opcode % 8 + 8 * ((opcode / 128)
            % 2),
        ((opcode & 0x0038) >> 3) | (((opcode & 0x0040) >> 6) << 3) == (opcode / 8) % 8 + 8 * ((
        opcode / 64) % 2),
{
}

/// An arithmetic right shift of a word with bit 31 clear is the logical one; with
/// bit 31 set it is the complement of the logical shift of the complement.
proof fn lemma_arithmetic_shift_bits(d: u32, s: u32)
    by (bit_vector)
    requires
        s < 32,
    ensures
        d < 0x8000_0000 ==> ((d as i32) >> s) as u32 == d >> s,
        d >= 0x8000_0000 ==> ((d as i32) >> s) as u32 == !((!d) >> s),
        !d == 0xFFFF_FFFF - d,
        !((!d) >> s) == 0xFFFF_FFFF - ((!d) >> s),
{
}

/// A logical right shift by `s < 32` is division by 2^s.
pub proof fn lemma_logical_shift_right(d: u32, s: u32)
    requires
        s < 32,
    ensures
        (d >> s) as int == d as int / pow2(s as nat) as int,
{
    lemma_u32_shr_is_div(d, s);
}

/// An arithmetic right shift by `s < 32` divides a word with bit 31 clear by 2^s;
/// a word with bit 31 set it maps to the complement of the complement's quotient,
/// so the vacated top bits are ones.
pub proof fn lemma_arithmetic_shift_right(d: u32, s: u32)
    requires
        s < 32,
    ensures
        d < 0x8000_0000 ==> ((d as i32) >> s) as u32 as int == d as int / pow2(s as nat) as int,
        d >= 0x8000_0000 ==> ((d as i32) >> s) as u32 as int == 0xFFFF_FFFF - (0xFFFF_FFFF
            - d as int) / pow2(s as nat) as int,
{
    lemma_arithmetic_shift_bits(d, s);
    lemma_u32_shr_is_div(d, s);
    let nd: u32 = !d;
    lemma_u32_shr_is_div(nd, s);
    if d >= 0x8000_0000 {
        assert(nd as int == 0xFFFF_FFFF - d as int);
        assert((nd >> s) as int == nd as int / pow2(s as nat) as int);
        assert(((d as i32) >> s) as u32 as int == 0xFFFF_FFFF - (nd >> s) as int);
    }
}

/// A left shift by `s < 32` is multiplication by 2^s modulo 2^32.
pub proof fn lemma_shift_left(d: u32, s: u32)
    requires
        s < 32,
    ensures
        (d << s) as int == (d as int * pow2(s as nat) as int) % 0x1_0000_0000,
    decreases s,
{
    if s == 0 {
        assert(d << 0u32 == d) by (bit_vector);
        lemma2_to64();
        assert(d as int * pow2(0) as int == d as int);
    } else {
        let t: u32 = (s - 1) as u32;
        lemma_shift_left(d, t);
        assert((d << s) == ((d << t) as int * 2) % 0x1_0000_0000) by (bit_vector)
            requires
                0 < s < 32,
                t == s - 1,
        ;
        lemma_pow2_unfold(s as nat);
        lemma_mul_mod_noop_left(d as int * pow2(t as nat) as int, 2, 0x1_0000_0000);
        let x = d as int * pow2(t as nat) as int;
        assert(x * 2 == d as int * pow2(s as nat) as int) by (nonlinear_arith)
            requires
                x == d as int * pow2(t as nat) as int,
                pow2(s as nat) == 2 * pow2(t as nat),
        ;
        assert((d << t) as int == x % 0x1_0000_0000);
        assert(((x % 0x1_0000_0000) * 2) % 0x1_0000_0000 == (x * 2) % 0x1_0000_0000);
        assert((d << s) as int == ((d << t) as int * 2) % 0x1_0000_0000);
    }
}

/// Subtracting and then adding the same word, or adding and then subtracting it,
/// modulo 2^32, gives back the word.
proof fn lemma_wrap_inverse(s: u32, operand: u32)
    ensures
        (wrap(s - operand) + operand) % 0x1_0000_0000 == s,
        (wrap(s + operand) - operand) % 0x1_0000_0000 == s,
{
    if s >= operand {
        assert(wrap(s - operand) == s - operand);
    } else {
        assert(wrap(s - operand) == s - operand + 0x1_0000_0000);
    }
    if s + operand < 0x1_0000_0000 {
        assert(wrap(s + operand) == s + operand);
    } else {
        assert(wrap(s + operand) == s + operand - 0x1_0000_0000);
    }
}

/// The shift amounts of the immediate shifts as words.
proof fn lemma_shift_by_halfword_amount(d: u32, n: u16)
    by (bit_vector)
    requires
        n < 32,
    ensures
        d >> n == d >> (n as u32),
        d << n == d << (n as u32),
        (d as i32) >> n == (d as i32) >> (n as u32),
{
}

/// Format 1, move shifted register, on Rd = bits 0..2, Rs = bits 3..5 and the
/// amount n = bits 6..10: LSL (operation 0) makes Rd = Rs * 2^n modulo 2^32; LSR
/// (1) makes Rd = Rs / 2^n, the vacated top bits zero; ASR (2) divides Rs by 2^n
/// when its bit 31 is clear and fills the vacated top bits with ones when it is
/// set. No other register and no flag changes.
pub proof fn lemma_move_shifted_register_law(cpu: Cpu, opcode: u16, r: u16)
    requires
        (opcode / 2048) % 4 < 3,
        r < 16,
    ensures
        ({
            let rd = opcode % 8;
            let s = cpu.reg((opcode / 8) % 8);
            let n = ((opcode / 64) % 32) as nat;
            let after = cpu.move_shifted_register_result(opcode);
            &&& (opcode / 2048) % 4 == 0 ==> after.reg(rd) as int == (s as int * pow2(n) as int)
                % 0x1_0000_0000
            &&& (opcode / 2048) % 4 == 1 ==> after.reg(rd) as int == s as int / pow2(n) as int
            &&& (opcode / 2048) % 4 == 2 && s < 0x8000_0000 ==> after.reg(rd) as int == s as int
                / pow2(n) as int
            &&& (opcode / 2048) % 4 == 2 && s >= 0x8000_0000 ==> after.reg(rd) as int
                == 0xFFFF_FFFF - (0xFFFF_FFFF - s as int) / pow2(n) as int
            &&& r != rd ==> after.reg(r) == cpu.reg(r)
            &&& after.program_status_register == cpu.program_status_register
        }),
{
    lemma_fields_as_numbers(opcode);
    let s = cpu.reg(field_rs(opcode));
    let n = field_imm5(opcode);
    assert(n < 32);
    lemma_shift_by_halfword_amount(s, n);
    lemma_shift_left(s, n as u32);
    lemma_logical_shift_right(s, n as u32);
    lemma_arithmetic_shift_right(s, n as u32);
}

/// Format 2, add/subtract, on Rd = bits 0..2, Rs = bits 3..5 and the operand in
/// bits 6..8 (the number itself when bit 10 is set, else that register): ADD
/// (bit 9 clear) gives a Rd from which subtracting the operand gives Rs back, and
/// SUB (bit 9 set) a Rd to which adding the operand gives Rs back, modulo 2^32;
/// Rs is the minuend. No other register and no flag changes.
pub proof fn lemma_add_subtract_law(cpu: Cpu, opcode: u16, r: u16)
    requires
        r < 16,
    ensures
        ({
            let rd = opcode % 8;
            let s = cpu.reg((opcode / 8) % 8);
            let operand: int = if (opcode / 1024) % 2 == 1 {
                ((opcode / 64) % 8) as int
            } else {
                cpu.reg((opcode / 64) % 8) as int
            };
            let after = cpu.add_subtract_result(opcode);
            &&& (opcode / 512) % 2 == 1 ==> (after.reg(rd) + operand) % 0x1_0000_0000 == s
            &&& (opcode / 512) % 2 == 0 ==> (after.reg(rd) - operand) % 0x1_0000_0000 == s
            &&& r != rd ==> after.reg(r) == cpu.reg(r)
            &&& after.program_status_register == cpu.program_status_register
        }),
{
    lemma_fields_as_numbers(opcode);
    let rd = field_rd(opcode);
    let s = cpu.reg(field_rs(opcode));
    let operand: u32 = if bit_set(opcode, 10) {
        field_rn(opcode) as u32
    } else {
        cpu.reg(field_rn(opcode))
    };
    let v = if bit_set(opcode, 9) {
        wrap(s - operand)
    } else {
        wrap(s + operand)
    };
    assert(cpu.add_subtract_result(opcode) == cpu.with_reg(rd, v));
    lemma_register_read_after_write(cpu, rd, r, v);
    lemma_wrap_inverse(s, operand);
}

/// Format 3, move/compare/add/subtract immediate, on Rd = bits 8..10 and the
/// 8-bit immediate: MOV sets Rd to the immediate; ADD gives a Rd from which
/// subtracting the immediate gives the old Rd back, SUB one to which adding it
/// does, modulo 2^32; CMP changes no register and sets C exactly when Rd >= imm,
/// Z exactly when Rd == imm, V exactly when Rd < imm, N from bit 31 of
/// Rd - imm modulo 2^32, keeping the interrupt masks and the state bit. MOV, ADD
/// and SUB change no other register and no flag.
pub proof fn lemma_move_compare_add_subtract_immediate_law(cpu: Cpu, opcode: u16, r: u16)
    requires
        r < 16,
    ensures
        ({
            let rd = (opcode / 256) % 8;
            let d = cpu.reg(rd);
            let imm = (opcode % 256) as int;
            let op = (opcode / 2048) % 4;
            let after = cpu.move_compare_add_subtract_immediate_result(opcode);
            let psr = after.program_status_register;
            &&& op == 0 ==> after.reg(rd) == imm
            &&& op == 2 ==> (after.reg(rd) - imm) % 0x1_0000_0000 == d
            &&& op == 3 ==> (after.reg(rd) + imm) % 0x1_0000_0000 == d
            &&& op != 1 ==> psr == cpu.program_status_register
            &&& op != 1 && r != rd ==> after.reg(r) == cpu.reg(r)
            &&& op == 1 ==> {
                &&& after.reg(r) == cpu.reg(r)
                &&& psr.carry() == (d >= imm)
                &&& psr.zero() == (d == imm)
                &&& psr.overflow() == (d < imm)
                &&& psr.negative() == ((d - imm) % 0x1_0000_0000 >= 0x8000_0000)
                &&& psr.irq_disable() == cpu.program_status_register.irq_disable()
                &&& psr.fiq_disable() == cpu.program_status_register.fiq_disable()
                &&& psr.state_bit() == cpu.program_status_register.state_bit()
            }
        }),
{
    lemma_fields_as_numbers(opcode);
    let rd = field_rd_high(opcode);
    let p = cpu.program_status_register;
    let d = cpu.reg(rd);
    let imm = field_imm8(opcode);
    let op = field_op2(opcode);
    let after = cpu.move_compare_add_subtract_immediate_result(opcode);
    if op == 0 {
        lemma_register_read_after_write(cpu, rd, r, imm as u32);
    } else if op == 2 {
        lemma_register_read_after_write(cpu, rd, r, wrap(d + imm));
        lemma_wrap_inverse(d, imm as u32);
    } else if op == 3 {
        lemma_register_read_after_write(cpu, rd, r, wrap(d - imm));
        lemma_wrap_inverse(d, imm as u32);
    }
    let v = wrap(d - imm);
    lemma_with_keeps_other_fields(p, v >= 0x8000_0000);
    lemma_with_keeps_other_fields(p.with_negative(v >= 0x8000_0000), v == 0);
    lemma_with_keeps_other_fields(p.with_negative(v >= 0x8000_0000).with_zero(v == 0), d >= imm);
    lemma_with_keeps_other_fields(
        p.with_negative(v >= 0x8000_0000).with_zero(v == 0).with_carry(d >= imm),
        d < imm,
    );
    if d >= imm {
        assert(v == d - imm);
    } else {
        assert(v == d - imm + 0x1_0000_0000);
    }
}

/// Format 5, hi register operations, on Hd = bits 0..2 with bit 7 as bit 3 and
/// Hs = bits 3..5 with bit 6 as bit 3, so that either may name r8..r15: ADD makes
/// Hd = Hd + Hs modulo 2^32; CMP changes no register and sets C exactly when
/// Hd >= Hs, Z exactly when Hd == Hs, V exactly when Hd < Hs; MOV copies Hs into
/// Hd; BX on an odd target moves the program counter to the target less one.
/// ADD, MOV and BX leave the flags alone.
pub proof fn lemma_hi_register_operations_law(cpu: Cpu, opcode: u16, r: u16)
    requires
        r < 16,
    ensures
        ({
            let hd = (opcode % 8 + 8 * ((opcode / 128) % 2)) as u16;
            let hs = ((opcode / 8) % 8 + 8 * ((opcode / 64) % 2)) as u16;
            let d = cpu.reg(hd);
            let s = cpu.reg(hs);
            let op = (opcode / 256) % 4;
            let after = cpu.hi_register_operations_branch_exchange_result(opcode);
            let psr = after.program_status_register;
            &&& hd < 16 && hs < 16
            &&& op == 0 ==> after.reg(hd) == (d + s) % 0x1_0000_0000
            &&& op == 2 ==> after.reg(hd) == s
            &&& (op == 0 || op == 2) && r != hd ==> after.reg(r) == cpu.reg(r)
            &&& op == 1 ==> {
                &&& after.reg(r) == cpu.reg(r)
                &&& psr.carry() == (d >= s)
                &&& psr.zero() == (d == s)
                &&& psr.overflow() == (d < s)
            }
            &&& op == 3 && s % 2 == 1 ==> after.program_counter == s - 1
            &&& op == 3 && r != 15 ==> after.reg(r) == cpu.reg(r)
            &&& op != 1 ==> psr == cpu.program_status_register
        }),
{
    lemma_fields_as_numbers(opcode);
    assert(field_hd(opcode) == opcode % 8 + 8 * ((opcode / 128) % 2));
    assert(field_hs(opcode) == (opcode / 8) % 8 + 8 * ((opcode / 64) % 2));
    let p = cpu.program_status_register;
    let d = cpu.reg(field_hd(opcode));
    let s = cpu.reg(field_hs(opcode));
    let v = ((d - s) % 0x1_0000_0000) as u32;
    lemma_with_keeps_other_fields(p, v >= 0x8000_0000);
    lemma_with_keeps_other_fields(p.with_negative(v >= 0x8000_0000), v == 0);
    lemma_with_keeps_other_fields(p.with_negative(v >= 0x8000_0000).with_zero(v == 0), d >= s);
    lemma_with_keeps_other_fields(
        p.with_negative(v >= 0x8000_0000).with_zero(v == 0).with_carry(d >= s),
        d < s,
    );
}

/// Format 4 shifts by a register, on Rd = bits 0..2 and the amount s held in Rs
/// (bits 3..5), for s < 32: LSL (operation 2) makes Rd = Rd * 2^s modulo 2^32;
/// LSR (3) makes Rd = Rd / 2^s, the vacated top bits zero; ASR (4) divides Rd by
/// 2^s when its bit 31 is clear and fills the vacated top bits with ones when it
/// is set. No other register and no flag changes.
pub proof fn lemma_alu_shift_law(cpu: Cpu, opcode: u16, r: u16)
    requires
        r < 16,
        cpu.reg((opcode / 8) % 8) < 32,
        2 <= (opcode / 64) % 32 <= 4,
    ensures
        ({
            let rd = opcode % 8;
            let d = cpu.reg(rd);
            let s = cpu.reg((opcode / 8) % 8) as nat;
            let op = (opcode / 64) % 32;
            let after = cpu.alu_operations_result(opcode);
            &&& op == 2 ==> after.reg(rd) as int == (d as int * pow2(s) as int) % 0x1_0000_0000
            &&& op == 3 ==> after.reg(rd) as int == d as int / pow2(s) as int
            &&& op == 4 && d < 0x8000_0000 ==> after.reg(rd) as int == d as int / pow2(s) as int
            &&& op == 4 && d >= 0x8000_0000 ==> after.reg(rd) as int == 0xFFFF_FFFF - (0xFFFF_FFFF
                - d as int) / pow2(s) as int
            &&& r != rd ==> after.reg(r) == cpu.reg(r)
            &&& after.program_status_register == cpu.program_status_register
        }),
{
    lemma_fields_as_numbers(opcode);
    let rd = field_rd(opcode);
    let d = cpu.reg(rd);
    let s = cpu.reg(field_rs(opcode));
    lemma_shift_left(d, s);
    lemma_logical_shift_right(d, s);
    lemma_arithmetic_shift_right(d, s);
    let op = field_imm5(opcode);
    let v: u32 = if op == 2 {
        d << s
    } else if op == 3 {
        d >> s
    } else {
        ((d as i32) >> s) as u32
    };
    assert(cpu.alu_operations_result(opcode) == cpu.with_reg(rd, v));
    lemma_register_read_after_write(cpu, rd, r, v);
}

/// Format 4 add and subtract with carry on Rd = bits 0..2 and Rs = bits 3..5,
/// with c the carry flag as 0 or 1: ADC makes Rd = Rd + Rs + c modulo 2^32, and
/// SBC makes Rd = Rd - Rs - (1 - c) modulo 2^32, so that adding Rs and 1 - c back
/// gives the old Rd. No other register and no flag changes.
pub proof fn lemma_alu_carry_arithmetic_law(cpu: Cpu, opcode: u16, r: u16)
    requires
        r < 16,
        (opcode / 64) % 32 == 5 || (opcode / 64) % 32 == 6,
    ensures
        ({
            let rd = opcode % 8;
            let d = cpu.reg(rd) as int;
            let s = cpu.reg((opcode / 8) % 8) as int;
            let c: int = if cpu.program_status_register.carry() {
                1
            } else {
                0
            };
            let after = cpu.alu_operations_result(opcode);
            &&& (opcode / 64) % 32 == 5 ==> after.reg(rd) == (d + s + c) % 0x1_0000_0000
            &&& (opcode / 64) % 32 == 6 ==> (after.reg(rd) + s + (1 - c)) % 0x1_0000_0000 == d
            &&& r != rd ==> after.reg(r) == cpu.reg(r)
            &&& after.program_status_register == cpu.program_status_register
        }),
{
    lemma_fields_as_numbers(opcode);
    let rd = field_rd(opcode);
    let d = cpu.reg(rd);
    let s = cpu.reg(field_rs(opcode));
    let c = cpu.carry_value();
    let v: u32 = if field_imm5(opcode) == 5 {
        wrap(d + s + c)
    } else {
        wrap(d - s - (1 - c))
    };
    assert(cpu.alu_operations_result(opcode) == cpu.with_reg(rd, v));
    lemma_register_read_after_write(cpu, rd, r, v);
    lemma_wrap_borrow(d, s, c);
}

/// Subtracting a word and a borrow of 0 or 1 modulo 2^32, then adding them back,
/// gives the word back.
proof fn lemma_wrap_borrow(d: u32, s: u32, c: u32)
    requires
        c <= 1,
    ensures
        (wrap(d - s - (1 - c)) + s + (1 - c)) % 0x1_0000_0000 == d,
        wrap(d + s + c) == (d + s + c) % 0x1_0000_0000,
{
    let x = d - s - (1 - c);
    if x >= 0 {
        assert(wrap(x) == x);
    } else {
        assert(wrap(x) == x + 0x1_0000_0000);
    }
}

/// Format 4 NEG and MUL on Rd = bits 0..2 and Rs = bits 3..5: NEG makes
/// Rd = 0 - Rs modulo 2^32, so adding Rs gives 0; MUL makes Rd = Rd * Rs modulo
/// 2^32. No other register and no flag changes.
pub proof fn lemma_alu_negate_multiply_law(cpu: Cpu, opcode: u16, r: u16)
    requires
        r < 16,
        (opcode / 64) % 32 == 9 || (opcode / 64) % 32 == 13,
    ensures
        ({
            let rd = opcode % 8;
            let d = cpu.reg(rd) as int;
            let s = cpu.reg((opcode / 8) % 8) as int;
            let after = cpu.alu_operations_result(opcode);
            &&& (opcode / 64) % 32 == 9 ==> (after.reg(rd) + s) % 0x1_0000_0000 == 0
            &&& (opcode / 64) % 32 == 13 ==> after.reg(rd) == (d * s) % 0x1_0000_0000
            &&& r != rd ==> after.reg(r) == cpu.reg(r)
            &&& after.program_status_register == cpu.program_status_register
        }),
{
    lemma_fields_as_numbers(opcode);
    let rd = field_rd(opcode);
    let d = cpu.reg(rd);
    let s = cpu.reg(field_rs(opcode));
    let v: u32 = if field_imm5(opcode) == 9 {
        wrap(0 - s)
    } else {
        wrap(d * s)
    };
    assert(cpu.alu_operations_result(opcode) == cpu.with_reg(rd, v));
    lemma_register_read_after_write(cpu, rd, r, v);
    if field_imm5(opcode) == 9 {
        if s == 0 {
            assert(v == 0);
        } else {
            assert(v == 0x1_0000_0000 - s);
        }
    }
}

/// Format 4 comparisons on Rd = bits 0..2 and Rs = bits 3..5 change no register:
/// TST sets Z exactly when Rd & Rs is 0 and N from its bit 31; CMP sets C exactly
/// when Rd >= Rs, Z exactly when Rd == Rs and V exactly when Rd < Rs; CMN sets C
/// and V exactly when Rd + Rs exceeds 2^32 - 1 and Z exactly when Rd + Rs is 0
/// modulo 2^32. All three keep the interrupt masks and the state bit.
pub proof fn lemma_alu_compare_law(cpu: Cpu, opcode: u16, r: u16)
    requires
        r < 16,
        8 <= (opcode / 64) % 32 <= 11,
        (opcode / 64) % 32 != 9,
    ensures
        ({
            let d = cpu.reg(opcode % 8) as int;
            let s = cpu.reg((opcode / 8) % 8) as int;
            let op = (opcode / 64) % 32;
            let after = cpu.alu_operations_result(opcode);
            let psr = after.program_status_register;
            let old_psr = cpu.program_status_register;
            &&& after.reg(r) == cpu.reg(r)
            &&& op == 8 ==> psr.zero() == (cpu.reg(opcode % 8) & cpu.reg((opcode / 8) % 8) == 0)
            &&& op == 8 ==> psr.negative() == (cpu.reg(opcode % 8) & cpu.reg((opcode / 8) % 8)
                >= 0x8000_0000)
            &&& op == 8 ==> psr.carry() == old_psr.carry() && psr.overflow() == old_psr.overflow()
            &&& op == 10 ==> psr.carry() == (d >= s) && psr.zero() == (d == s) && psr.overflow()
                == (d < s)
            &&& op == 11 ==> psr.carry() == (d + s > 0xFFFF_FFFF) && psr.overflow() == (d + s
                > 0xFFFF_FFFF) && psr.zero() == ((d + s) % 0x1_0000_0000 == 0)
            &&& psr.irq_disable() == old_psr.irq_disable()
            &&& psr.fiq_disable() == old_psr.fiq_disable()
            &&& psr.state_bit() == old_psr.state_bit()
        }),
{
    lemma_fields_as_numbers(opcode);
    let rd = field_rd(opcode);
    let d = cpu.reg(rd);
    let s = cpu.reg(field_rs(opcode));
    let p = cpu.program_status_register;
    let op = field_imm5(opcode);
    let v: u32 = if op == 8 {
        d & s
    } else if op == 10 {
        wrap(d - s)
    } else {
        wrap(d + s)
    };
    let nflag = v >= 0x8000_0000;
    let cflag = if op == 10 {
        d >= s
    } else {
        d + s > u32::MAX
    };
    let vflag = if op == 10 {
        d < s
    } else {
        d + s > u32::MAX
    };
    lemma_with_keeps_other_fields(p, nflag);
    lemma_with_keeps_other_fields(p.with_negative(nflag), v == 0);
    lemma_with_keeps_other_fields(p.with_negative(nflag).with_zero(v == 0), cflag);
    lemma_with_keeps_other_fields(p.with_negative(nflag).with_zero(v == 0).with_carry(cflag), vflag);
    if op == 10 {
        if d >= s {
            assert(v == d - s);
        } else {
            assert(v == d - s + 0x1_0000_0000);
        }
    }
}

/// Format 4 logical operations and the rotate, on Rd = bits 0..2 and Rs = bits
/// 3..5: AND gives a word below both operands whose sum with their OR is
/// Rd + Rs; OR (1) and ORR (12) give a word above both whose sum with their AND
/// is Rd + Rs; BIC gives a word below Rd sharing no bit with Rs; MVN gives
/// 2^32 - 1 - Rs; the rotate through carry (7) gives Rs / 2 plus 2^31 when the
/// carry was set, and leaves the carry equal to bit 0 of Rs. Only the rotate
/// changes a flag, and only the carry.
pub proof fn lemma_alu_logical_law(cpu: Cpu, opcode: u16, r: u16)
    requires
        r < 16,
        ({
            let op = (opcode / 64) % 32;
            op == 0 || op == 1 || op == 7 || op == 12 || op == 14 || op == 15
        }),
    ensures
        ({
            let rd = opcode % 8;
            let d = cpu.reg(rd);
            let s = cpu.reg((opcode / 8) % 8);
            let op = (opcode / 64) % 32;
            let after = cpu.alu_operations_result(opcode);
            let v = after.reg(rd);
            let psr = after.program_status_register;
            let old_psr = cpu.program_status_register;
            &&& op == 0 ==> v <= d && v <= s && v + (d | s) == d + s && v == d & s
            &&& (op == 1 || op == 12) ==> v >= d && v >= s && v + (d & s) == d + s && v == d | s
            &&& op == 14 ==> v <= d && v & s == 0 && v + (d & s) == d
            &&& op == 15 ==> v == 0xFFFF_FFFF - s
            &&& op == 7 ==> v == s / 2 + (if old_psr.carry() {
                0x8000_0000int
            } else {
                0
            })
            &&& op == 7 ==> psr.carry() == (s % 2 == 1) && psr.negative() == old_psr.negative()
                && psr.zero() == old_psr.zero() && psr.overflow() == old_psr.overflow()
            &&& op != 7 ==> psr == old_psr
            &&& r != rd ==> after.reg(r) == cpu.reg(r)
        }),
{
    lemma_fields_as_numbers(opcode);
    let rd = field_rd(opcode);
    let d = cpu.reg(rd);
    let s = cpu.reg(field_rs(opcode));
    let op = field_imm5(opcode);
    lemma_bitwise_sums(d, s);
    let c = cpu.carry_value();
    let v: u32 = if op == 0 {
        d & s
    } else if op == 1 || op == 12 {
        d | s
    } else if op == 14 {
        d & !s
    } else if op == 15 {
        !s
    } else {
        (s / 2 + c * 0x8000_0000) as u32
    };
    if op == 7 {
        let p = cpu.program_status_register;
        let q = p.with_carry(s % 2 == 1);
        lemma_with_keeps_other_fields(p, s % 2 == 1);
        assert(cpu.alu_operations_result(opcode) == cpu.with_psr(q).with_reg(rd, v));
        lemma_register_read_after_write(cpu.with_psr(q), rd, r, v);
    } else {
        assert(cpu.alu_operations_result(opcode) == cpu.with_reg(rd, v));
        lemma_register_read_after_write(cpu, rd, r, v);
    }
}

/// Sums and orderings of bitwise combinations of two words.
proof fn lemma_bitwise_sums(d: u32, s: u32)
    by (bit_vector)
    ensures
        (d & s) + (d | s) == d + s,
        d & s <= d,
        d & s <= s,
        d | s >= d,
        d | s >= s,
        d & !s <= d,
        (d & !s) & s == 0,
        (d & !s) + (d & s) == d,
        !s == 0xFFFF_FFFF - s,
{
}

/// Format 18: an unconditional branch moves the program counter forward by twice
/// the 11-bit field (bits 0..10), modulo 2^32, and changes nothing else.
pub proof fn lemma_unconditional_branch_law(cpu: Cpu, opcode: u16, r: u16)
    requires
        r < 15,
    ensures
        cpu.unconditional_branch_result(opcode).program_counter == (cpu.program_counter + 2 * (
        opcode % 2048)) % 0x1_0000_0000,
        cpu.unconditional_branch_result(opcode).reg(r) == cpu.reg(r),
        cpu.unconditional_branch_result(opcode).program_status_register
            == cpu.program_status_register,
{
    lemma_fields_as_numbers(opcode);
}

/// Format 13: the stack pointer moves by four times the 7-bit field (bits 0..6),
/// up when bit 7 is clear and down when it is set, modulo 2^32, and nothing else
/// changes.
pub proof fn lemma_add_offset_to_stack_pointer_law(cpu: Cpu, opcode: u16, r: u16)
    requires
        r < 16,
        r != 13,
    ensures
        (opcode / 128) % 2 == 0 ==> cpu.add_offset_to_stack_pointer_result(opcode).stack_pointer
            == (cpu.stack_pointer + 4 * (opcode % 128)) % 0x1_0000_0000,
        (opcode / 128) % 2 == 1 ==> cpu.add_offset_to_stack_pointer_result(opcode).stack_pointer
            == (cpu.stack_pointer - 4 * (opcode % 128)) % 0x1_0000_0000,
        cpu.add_offset_to_stack_pointer_result(opcode).reg(r) == cpu.reg(r),
        cpu.add_offset_to_stack_pointer_result(opcode).program_status_register
            == cpu.program_status_register,
{
    lemma_fields_as_numbers(opcode);
}

/// Format 10, on Rd = bits 0..2 and base Rb = bits 3..5, at the address
/// Rb + 2 * (bits 6..10) modulo 2^32: a load (bit 11 set) puts the halfword read
/// there in Rd and leaves memory alone; a store writes the low 16 bits of Rd
/// there and changes no register. Where the four bytes from the address lie in
/// the BIOS ROM, loading after storing gives the stored halfword back.
pub proof fn lemma_load_store_halfword_law(cpu: Cpu, mem: BusView, opcode: u16, r: u16)
    requires
        mem.wf(),
        r < 16,
    ensures
        ({
            let rd = opcode % 8;
            let address = (cpu.reg((opcode / 8) % 8) + 2 * ((opcode / 64) % 32)) % 0x1_0000_0000;
            let after = cpu.load_store_halfword_result(mem, opcode);
            &&& (opcode / 2048) % 2 == 1 ==> {
                &&& after.0.reg(rd) == mem.halfword_at(address)
                &&& r != rd ==> after.0.reg(r) == cpu.reg(r)
                &&& after.0.program_status_register == cpu.program_status_register
                &&& after.1 == mem
            }
            &&& (opcode / 2048) % 2 == 0 ==> {
                &&& after.0 == cpu
                &&& after.1 == mem.after_write_16(address, (cpu.reg(rd) % 0x1_0000) as u16)
                &&& address + 4 <= BIOS_ROM_SIZE ==> after.1.halfword_at(address) == cpu.reg(rd)
                    % 0x1_0000
            }
        }),
{
    lemma_fields_as_numbers(opcode);
    let address = cpu.load_store_halfword_address(opcode);
    if !bit_set(opcode, 11) {
        if address + 4 <= BIOS_ROM_SIZE {
            lemma_read_after_write_16(mem, address, low_half(cpu.reg(field_rd(opcode))));
        }
    } else {
        lemma_register_read_after_write(
            cpu,
            field_rd(opcode),
            r,
            mem.halfword_at(address) as u32,
        );
    }
}

/// Format 9, on Rd = bits 0..2, base Rb = bits 3..5 and the field n = bits
/// 6..10: a byte transfer (bit 12 set) uses the address Rb + n, a word transfer
/// Rb + 4 * n, modulo 2^32. A load (bit 11 set) puts the byte or word read there
/// in Rd and leaves memory alone; a store writes the low 8 bits of Rd, or all of
/// Rd, there and changes no register. Where the four bytes from the address lie
/// in the BIOS ROM, loading after storing gives the stored value back.
pub proof fn lemma_load_store_with_immediate_offset_law(
    cpu: Cpu,
    mem: BusView,
    opcode: u16,
    r: u16,
)
    requires
        mem.wf(),
        r < 16,
    ensures
        ({
            let rd = opcode % 8;
            let n = (opcode / 64) % 32;
            let byte = (opcode / 4096) % 2 == 1;
            let base = cpu.reg((opcode / 8) % 8);
            let address = if byte {
                (base + n) % 0x1_0000_0000
            } else {
                (base + 4 * n) % 0x1_0000_0000
            };
            let after = cpu.load_store_with_immediate_offset_result(mem, opcode);
            &&& (opcode / 2048) % 2 == 1 ==> {
                &&& byte ==> after.0.reg(rd) == mem.top_byte_at(address)
                &&& !byte ==> after.0.reg(rd) == mem.word_at(address)
                &&& r != rd ==> after.0.reg(r) == cpu.reg(r)
                &&& after.0.program_status_register == cpu.program_status_register
                &&& after.1 == mem
            }
            &&& (opcode / 2048) % 2 == 0 ==> {
                &&& after.0 == cpu
                &&& byte ==> after.1 == mem.after_write_8(address, (cpu.reg(rd) % 0x100) as u8)
                &&& !byte ==> after.1 == mem.after_write_32(address, cpu.reg(rd))
                &&& byte && address + 4 <= BIOS_ROM_SIZE ==> after.1.top_byte_at(address)
                    == cpu.reg(rd) % 0x100
                &&& !byte && address + 4 <= BIOS_ROM_SIZE ==> after.1.word_at(address) == cpu.reg(
                    rd,
                )
            }
        }),
{
    lemma_fields_as_numbers(opcode);
    let rd = field_rd(opcode);
    let byte_address = cpu.immediate_offset_byte_address(opcode);
    let word_address = cpu.immediate_offset_word_address(opcode);
    if !bit_set(opcode, 11) {
        if byte_address + 4 <= BIOS_ROM_SIZE {
            lemma_read_after_write_8(mem, byte_address, low_byte(cpu.reg(rd)));
        }
        if word_address + 4 <= BIOS_ROM_SIZE {
            lemma_read_after_write_32(mem, word_address, cpu.reg(rd));
        }
    } else if bit_set(opcode, 12) {
        lemma_register_read_after_write(cpu, rd, r, mem.top_byte_at(byte_address) as u32);
    } else {
        lemma_register_read_after_write(cpu, rd, r, mem.word_at(word_address));
    }
}

/// Formats 7 and 8 address Rb + Ro modulo 2^32 (base Rb = bits 3..5, offset Ro =
/// bits 6..8). Format 7: a load (bit 11 set) puts the byte (bit 10 set) or word
/// read there in Rd and leaves memory alone; a store writes the low 8 bits of Rd,
/// or all of Rd, there and changes no register. Format 8: with bits 10 and 11
/// clear the low 16 bits of Rd are stored there; otherwise Rd gets the byte
/// (bit 10 alone) or the halfword read there, zero-extended.
pub proof fn lemma_register_offset_transfer_law(cpu: Cpu, mem: BusView, opcode: u16, r: u16)
    requires
        mem.wf(),
        r < 16,
    ensures
        ({
            let rd = opcode % 8;
            let address = (cpu.reg((opcode / 8) % 8) + cpu.reg((opcode / 64) % 8))
                % 0x1_0000_0000;
            let load = (opcode / 2048) % 2 == 1;
            let b10 = (opcode / 1024) % 2 == 1;
            let word = cpu.load_store_with_register_offset_result(mem, opcode);
            let half = cpu.load_store_sign_extended_byte_halfword_result(mem, opcode);
            &&& load && b10 ==> word.0.reg(rd) == mem.top_byte_at(address) && word.1 == mem
            &&& load && !b10 ==> word.0.reg(rd) == mem.word_at(address) && word.1 == mem
            &&& load && r != rd ==> word.0.reg(r) == cpu.reg(r)
            &&& !load && b10 ==> word.0 == cpu && word.1 == mem.after_write_8(
                address,
                (cpu.reg(rd) % 0x100) as u8,
            )
            &&& !load && !b10 ==> word.0 == cpu && word.1 == mem.after_write_32(
                address,
                cpu.reg(rd),
            )
            &&& !load && !b10 ==> half.0 == cpu && half.1 == mem.after_write_16(
                address,
                (cpu.reg(rd) % 0x1_0000) as u16,
            )
            &&& b10 && !load ==> half.0.reg(rd) == mem.top_byte_at(address) && half.1 == mem
            &&& load ==> half.0.reg(rd) == mem.halfword_at(address) && half.1 == mem
            &&& (load || b10) && r != rd ==> half.0.reg(r) == cpu.reg(r)
        }),
{
    lemma_fields_as_numbers(opcode);
    let rd = field_rd(opcode);
    let address = cpu.register_offset_address(opcode);
    lemma_register_read_after_write(cpu, rd, r, mem.top_byte_at(address) as u32);
    lemma_register_read_after_write(cpu, rd, r, mem.word_at(address));
    lemma_register_read_after_write(cpu, rd, r, mem.halfword_at(address) as u32);
}

/// Formats 6 and 12 load a word into Rd = bits 8..10 from the address made of
/// four times the 8-bit field plus the program counter (format 6, and format 12
/// with bit 11 clear) or the stack pointer (format 12 with bit 11 set), modulo
/// 2^32; no other register and no flag changes.
pub proof fn lemma_pc_and_sp_relative_load_law(cpu: Cpu, mem: BusView, opcode: u16, r: u16)
    requires
        r < 16,
    ensures
        ({
            let rd = (opcode / 256) % 8;
            let offset = 4 * (opcode % 256);
            let pc_address = (cpu.program_counter + offset) % 0x1_0000_0000;
            let base = if (opcode / 2048) % 2 == 1 {
                cpu.stack_pointer
            } else {
                cpu.program_counter
            };
            let load_address = (base + offset) % 0x1_0000_0000;
            &&& cpu.pc_relative_load_result(mem, opcode).reg(rd) == mem.word_at(pc_address)
            &&& cpu.load_address_result(mem, opcode).reg(rd) == mem.word_at(load_address)
            &&& r != rd ==> cpu.pc_relative_load_result(mem, opcode).reg(r) == cpu.reg(r)
            &&& r != rd ==> cpu.load_address_result(mem, opcode).reg(r) == cpu.reg(r)
            &&& cpu.pc_relative_load_result(mem, opcode).program_status_register
                == cpu.program_status_register
            &&& cpu.load_address_result(mem, opcode).program_status_register
                == cpu.program_status_register
        }),
{
    lemma_fields_as_numbers(opcode);
    let rd = field_rd_high(opcode);
    lemma_register_read_after_write(
        cpu,
        rd,
        r,
        mem.word_at(cpu.pc_relative_address(opcode)),
    );
    lemma_register_read_after_write(
        cpu,
        rd,
        r,
        mem.word_at(cpu.load_address_address(opcode)),
    );
}

} // verus!
