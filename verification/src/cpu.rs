use vstd::prelude::*;

use crate::bus::{word_readable, Bus};
use crate::program_status_register::{lemma_reset_value_fields, ProgramStatusRegister};
use crate::semantics::{add_flags, logic_flags, sub_flags, wrap};
use crate::thumb::{
    bit_set,
    decode,
    decode_instruction,
    field_op2,
    lemma_field_bounds,
    ThumbInstruction,
};

verus! {

/// The facts about opcode arithmetic that the handlers rely on.
pub(crate) proof fn lemma_opcode_arith(opcode: u16)
    by (bit_vector)
    ensures
        ((opcode & 0x007F) << 2) == (opcode & 0x007F) * 4,
        ((opcode & 0x00FF) << 2) == (opcode & 0x00FF) * 4,
        ((opcode & 0x07C0) >> 6) << 1 == ((opcode & 0x07C0) >> 6) * 2,
        ((opcode & 0x07C0) >> 6) << 2 == ((opcode & 0x07C0) >> 6) * 4,
        (opcode & 0x0007) | (((opcode & 0x0080) >> 7) << 3) < 16,
        ((opcode & 0x0038) >> 3) | (((opcode & 0x0040) >> 6) << 3) < 16,
        ((opcode & 0x0080) >> 7 == 1) == bit_set(opcode, 7),
        (opcode & 0x07FF) << 1 == (opcode & 0x07FF) * 2,
{
}

/// Truncations and bit tests of words, written as arithmetic.
pub(crate) proof fn lemma_word_arith(value: u32, t: u32)
    by (bit_vector)
    ensures
        value as u16 == value % 0x1_0000,
        value as u8 == value % 0x100,
        (value & 0x01 == 0x01) == (value % 2 == 1),
        (value & 0x01 == 0x00) == (value % 2 == 0),
        t <= 1 ==> (value >> 1u32) | (t << 31u32) == value / 2 + t * 0x8000_0000,
        value & 0xFFFF_FFFE == value / 2 * 2,
{
}

/// Bit 31 of a word is set exactly when the word is at least 2^31.
proof fn lemma_sign_bit(value: u32)
    by (bit_vector)
    ensures
        (value & 0x8000_0000 == 0x8000_0000) == (value >= 0x8000_0000),
{
}

/// `u32::overflowing_add`: the sum modulo 2^32, and whether the true sum exceeds
/// `u32::MAX`.
#[verifier::external_body]
fn overflowing_add_u32(a: u32, b: u32) -> (r: (u32, bool))
    ensures
        r.0 == wrap(a + b),
        r.1 == (a + b > u32::MAX),
{
    a.overflowing_add(b)
}

/// `u32::overflowing_sub`: the difference modulo 2^32, and whether the true
/// difference is below zero.
#[verifier::external_body]
fn overflowing_sub_u32(a: u32, b: u32) -> (r: (u32, bool))
    ensures
        r.0 == wrap(a - b),
        r.1 == (a < b),
{
    a.overflowing_sub(b)
}

/// Widening of a loaded value to a register word. The test for the sign bit
/// compares against a value that the masked sign bit never takes, so the value
/// is always zero-extended.
trait Extendable {
    fn sign_extend(self) -> u32;
}

impl Extendable for u8 {
    fn sign_extend(self) -> (r: u32)
        ensures
            r == self as u32,
    {
        proof {
            let x = self;
            assert(x & 0x80u8 != 0x10u8) by (bit_vector);
        }
        if self & 0x80 == 0x10 {
            0xFFFF_FF00 + self as u32
        } else {
            self as u32
        }
    }
}

impl Extendable for u16 {
    fn sign_extend(self) -> (r: u32)
        ensures
            r == self as u32,
    {
        proof {
            let x = self;
            assert(x & 0x8000u16 != 0x1000u16) by (bit_vector);
        }
        if self & 0x8000 == 0x1000 {
            0xFFFF_0000 + self as u32
        } else {
            self as u32
        }
    }
}

/// The ARM7TDMI register file: r0..r12, the stack pointer (r13), the link
/// register (r14), the program counter (r15) and the status register.
pub struct Cpu {
    pub r00: u32,
    pub r01: u32,
    pub r02: u32,
    pub r03: u32,
    pub r04: u32,
    pub r05: u32,
    pub r06: u32,
    pub r07: u32,
    pub r08: u32,
    pub r09: u32,
    pub r10: u32,
    pub r11: u32,
    pub r12: u32,
    pub stack_pointer: u32,
    pub link_register: u32,
    pub program_counter: u32,
    pub program_status_register: ProgramStatusRegister,
}

impl Cpu {
    /// The value of register `r` (13 is the stack pointer, 14 the link register,
    /// 15 the program counter).
    pub open spec fn reg(self, r: u16) -> u32 {
        if r == 0 {
            self.r00
        } else if r == 1 {
            self.r01
        } else if r == 2 {
            self.r02
        } else if r == 3 {
            self.r03
        } else if r == 4 {
            self.r04
        } else if r == 5 {
            self.r05
        } else if r == 6 {
            self.r06
        } else if r == 7 {
            self.r07
        } else if r == 8 {
            self.r08
        } else if r == 9 {
            self.r09
        } else if r == 10 {
            self.r10
        } else if r == 11 {
            self.r11
        } else if r == 12 {
            self.r12
        } else if r == 13 {
            self.stack_pointer
        } else if r == 14 {
            self.link_register
        } else {
            self.program_counter
        }
    }

    /// The register file with register `r` set to `value` and all else kept.
    pub open spec fn with_reg(self, r: u16, value: u32) -> Cpu {
        if r == 0 {
            Cpu { r00: value, ..self }
        } else if r == 1 {
            Cpu { r01: value, ..self }
        } else if r == 2 {
            Cpu { r02: value, ..self }
        } else if r == 3 {
            Cpu { r03: value, ..self }
        } else if r == 4 {
            Cpu { r04: value, ..self }
        } else if r == 5 {
            Cpu { r05: value, ..self }
        } else if r == 6 {
            Cpu { r06: value, ..self }
        } else if r == 7 {
            Cpu { r07: value, ..self }
        } else if r == 8 {
            Cpu { r08: value, ..self }
        } else if r == 9 {
            Cpu { r09: value, ..self }
        } else if r == 10 {
            Cpu { r10: value, ..self }
        } else if r == 11 {
            Cpu { r11: value, ..self }
        } else if r == 12 {
            Cpu { r12: value, ..self }
        } else if r == 13 {
            Cpu { stack_pointer: value, ..self }
        } else if r == 14 {
            Cpu { link_register: value, ..self }
        } else {
            Cpu { program_counter: value, ..self }
        }
    }

    /// The register file with the status register replaced.
    pub open spec fn with_psr(self, psr: ProgramStatusRegister) -> Cpu {
        Cpu { program_status_register: psr, ..self }
    }

    /// The register file at reset: every register zero, the status register reset.
    pub open spec fn reset_value() -> Cpu {
        Cpu {
            r00: 0,
            r01: 0,
            r02: 0,
            r03: 0,
            r04: 0,
            r05: 0,
            r06: 0,
            r07: 0,
            r08: 0,
            r09: 0,
            r10: 0,
            r11: 0,
            r12: 0,
            stack_pointer: 0,
            link_register: 0,
            program_counter: 0,
            program_status_register: ProgramStatusRegister::reset_value(),
        }
    }

    /// 1 when the carry flag is set, else 0.
    pub open spec fn carry_value(self) -> u32 {
        if self.program_status_register.carry() {
            1
        } else {
            0
        }
    }
}

impl Default for Cpu {
    fn default() -> (cpu: Self)
        ensures
            cpu == Cpu::reset_value(),
            !cpu.program_status_register.negative(),
            !cpu.program_status_register.zero(),
            !cpu.program_status_register.carry(),
            !cpu.program_status_register.overflow(),
            !cpu.program_status_register.irq_disable(),
            !cpu.program_status_register.fiq_disable(),
            !cpu.program_status_register.state_bit(),
            cpu.program_status_register.mode_bits() == 0,
            cpu.program_status_register.packed() == 0,
    {
        proof {
            lemma_reset_value_fields();
        }
        Cpu {
            r00: 0,
            r01: 0,
            r02: 0,
            r03: 0,
            r04: 0,
            r05: 0,
            r06: 0,
            r07: 0,
            r08: 0,
            r09: 0,
            r10: 0,
            r11: 0,
            r12: 0,
            stack_pointer: 0,
            link_register: 0,
            program_counter: 0,
            program_status_register: ProgramStatusRegister::default(),
        }
    }
}

/// Setting a register to the value it holds leaves the register file as it is.
proof fn lemma_with_reg_same(cpu: Cpu, r: u16)
    ensures
        cpu.with_reg(r, cpu.reg(r)) == cpu,
{
}

impl Cpu {
    pub fn get_r00(&self) -> (r: u32)
        ensures
            r == self.r00,
    {
        self.r00
    }

    pub fn get_r01(&self) -> (r: u32)
        ensures
            r == self.r01,
    {
        self.r01
    }

    pub fn set_r00(&mut self, value: u32)
        ensures
            *final(self) == old(self).with_reg(0, value),
    {
        self.r00 = value;
    }

    pub fn get_program_counter(&self) -> (r: u32)
        ensures
            r == self.program_counter,
    {
        self.program_counter
    }

    /// The value of register `register`.
    pub fn get_register(&self, register: u16) -> (r: u32)
        requires
            register < 16,
        ensures
            r == self.reg(register),
    {
        match register {
            0 => self.r00,
            1 => self.r01,
            2 => self.r02,
            3 => self.r03,
            4 => self.r04,
            5 => self.r05,
            6 => self.r06,
            7 => self.r07,
            8 => self.r08,
            9 => self.r09,
            10 => self.r10,
            11 => self.r11,
            12 => self.r12,
            13 => self.stack_pointer,
            14 => self.link_register,
            _ => self.program_counter,
        }
    }

    /// Sets register `register` to `value`.
    pub fn store(&mut self, value: u32, register: u16)
        requires
            register < 16,
        ensures
            *final(self) == old(self).with_reg(register, value),
    {
        match register {
            0 => self.r00 = value,
            1 => self.r01 = value,
            2 => self.r02 = value,
            3 => self.r03 = value,
            4 => self.r04 = value,
            5 => self.r05 = value,
            6 => self.r06 = value,
            7 => self.r07 = value,
            8 => self.r08 = value,
            9 => self.r09 = value,
            10 => self.r10 = value,
            11 => self.r11 = value,
            12 => self.r12 = value,
            13 => self.stack_pointer = value,
            14 => self.link_register = value,
            _ => self.program_counter = value,
        }
    }

    fn get_carry_flag(&self) -> (r: u32)
        ensures
            r == self.carry_value(),
    {
        if self.program_status_register.get_carry() {
            1
        } else {
            0
        }
    }

    fn get_not_carry_flag(&self) -> (r: u32)
        ensures
            r == 1 - self.carry_value(),
    {
        if self.program_status_register.get_carry() {
            0
        } else {
            1
        }
    }

    /// Rotates the source register right by one through the carry flag: the carry
    /// becomes bit 0 of the source and the old carry enters at bit 31.
    fn ror(&mut self, source_register: u16) -> (rotated: u32)
        requires
            source_register < 16,
        ensures
            *final(self) == old(self).with_psr(
                old(self).program_status_register.with_carry(
                    old(self).reg(source_register) % 2 == 1,
                ),
            ),
            rotated == old(self).reg(source_register) / 2 + old(self).carry_value()
                * 0x8000_0000,
    {
        let temp = self.get_carry_flag();
        let source = self.get_register(source_register);
        proof {
            lemma_word_arith(source, temp);
        }
        self.program_status_register.set_carry(source & 0x01 == 0x01);
        let rotated = (self.get_register(source_register) >> 1) | (temp << 31);
        rotated
    }

    fn test_and(&mut self, source_register: u16, destination_register: u16)
        requires
            source_register < 16,
            destination_register < 16,
        ensures
            *final(self) == old(self).with_psr(
                logic_flags(
                    old(self).program_status_register,
                    old(self).reg(source_register) & old(self).reg(
                        destination_register,
                    ),
                ),
            ),
    {
        let temp = self.get_register(source_register) & self.get_register(destination_register);
        proof {
            lemma_sign_bit(temp);
        }
        self.program_status_register.set_negative(temp & 0x8000_0000 == 0x8000_0000);
        self.program_status_register.set_zero(temp == 0x0000_0000);
    }

    fn test_add(&mut self, source_register: u16, destination_register: u16)
        requires
            source_register < 16,
            destination_register < 16,
        ensures
            *final(self) == old(self).with_psr(
                add_flags(
                    old(self).program_status_register,
                    old(self).reg(source_register),
                    old(self).reg(destination_register),
                ),
            ),
    {
        let (temp, carry) = overflowing_add_u32(
            self.get_register(source_register),
            self.get_register(destination_register),
        );
        proof {
            lemma_sign_bit(temp);
        }
        self.program_status_register.set_negative(temp & 0x8000_0000 == 0x8000_0000);
        self.program_status_register.set_zero(temp == 0x0000_0000);
        self.program_status_register.set_carry(carry);
        self.program_status_register.set_overflow(carry);
    }

    fn test_sub(&mut self, source_register: u16, destination_register: u16)
        requires
            source_register < 16,
            destination_register < 16,
        ensures
            *final(self) == old(self).with_psr(
                sub_flags(
                    old(self).program_status_register,
                    old(self).reg(source_register),
                    old(self).reg(destination_register),
                ),
            ),
    {
        let source = self.get_register(source_register);
        let destination = self.get_register(destination_register);
        let (temp, overflow) = overflowing_sub_u32(source, destination);
        proof {
            lemma_sign_bit(temp);
        }
        self.program_status_register.set_negative(temp & 0x8000_0000 == 0x8000_0000);
        self.program_status_register.set_zero(temp == 0x0000_0000);
        let carry = source >= destination;
        self.program_status_register.set_carry(carry);
        self.program_status_register.set_overflow(overflow);
    }

    fn test_cmp(&mut self, source_register: u16, immediate: u32)
        requires
            source_register < 16,
        ensures
            *final(self) == old(self).with_psr(
                sub_flags(
                    old(self).program_status_register,
                    old(self).reg(source_register),
                    immediate,
                ),
            ),
    {
        let source = self.get_register(source_register);
        let (temp, overflow) = overflowing_sub_u32(source, immediate);
        proof {
            lemma_sign_bit(temp);
        }
        self.program_status_register.set_negative(temp & 0x8000_0000 == 0x8000_0000);
        self.program_status_register.set_zero(temp == 0x0000_0000);
        let carry = source >= immediate;
        self.program_status_register.set_carry(carry);
        self.program_status_register.set_overflow(overflow);
    }
}

impl Cpu {
    fn software_interrupt(&mut self, opcode: u16)
        ensures
            *final(self) == *old(self),
    {
        let _value = opcode & 0x00FF;
    }

    fn unconditional_branch(&mut self, opcode: u16)
        ensures
            *final(self) == old(self).unconditional_branch_result(opcode),
    {
        proof {
            lemma_opcode_arith(opcode);
        }
        // Offset is a 12 bit value, but is stored as 11 bits (lsb is dropped)
        // because it must be halfword aligned.
        let offset = ((opcode & 0x07FF) << 1) as i32;
        self.program_counter = self.program_counter.wrapping_add_signed(offset);
    }

    fn add_offset_to_stack_pointer(&mut self, opcode: u16)
        ensures
            *final(self) == old(self).add_offset_to_stack_pointer_result(opcode),
    {
        proof {
            lemma_field_bounds(opcode);
            lemma_opcode_arith(opcode);
        }
        let sign = (opcode & 0x0080) >> 7 == 0x01;
        let word = (opcode & 0x007F) << 2;
        if sign {
            self.stack_pointer = self.stack_pointer.wrapping_sub(u32::from(word));
        } else {
            self.stack_pointer = self.stack_pointer.wrapping_add(u32::from(word));
        }
    }

    fn hi_register_operations_branch_exchange(&mut self, opcode: u16)
        requires
            old(self).hi_register_operations_branch_exchange_defined(opcode),
        ensures
            *final(self) == old(self).hi_register_operations_branch_exchange_result(opcode),
    {
        proof {
            lemma_field_bounds(opcode);
            lemma_opcode_arith(opcode);
        }
        let sub_opcode = (opcode & 0x0300) >> 8;
        let h1 = (opcode & 0x0080) >> 7;
        let h2 = (opcode & 0x0040) >> 6;
        let source_register = (opcode & 0x0038) >> 3;
        let destination_register = opcode & 0x0007;
        match sub_opcode {
            0b00 => self.hi_register_operations_branch_exchange_add(
                destination_register | h1 << 3,
                source_register | h2 << 3,
            ),
            0b01 => self.hi_register_operations_branch_exchange_cmp(
                destination_register | h1 << 3,
                source_register | h2 << 3,
            ),
            0b10 => self.hi_register_operations_branch_exchange_mov(
                destination_register | h1 << 3,
                source_register | h2 << 3,
            ),
            _ => self.hi_register_operations_branch_exchange_bx(source_register | h2 << 3),
        }
    }

    fn hi_register_operations_branch_exchange_add(
        &mut self,
        destination_register: u16,
        source_register: u16,
    )
        requires
            destination_register < 16,
            source_register < 16,
        ensures
            *final(self) == old(self).with_reg(
                destination_register,
                wrap(old(self).reg(destination_register) + old(self).reg(source_register)),
            ),
    {
        let value = self.get_register(destination_register).wrapping_add(
            self.get_register(source_register),
        );
        self.store(value, destination_register);
    }

    fn hi_register_operations_branch_exchange_cmp(
        &mut self,
        destination_register: u16,
        source_register: u16,
    )
        requires
            destination_register < 16,
            source_register < 16,
        ensures
            *final(self) == old(self).with_psr(
                sub_flags(
                    old(self).program_status_register,
                    old(self).reg(destination_register),
                    old(self).reg(source_register),
                ),
            ),
    {
        self.test_sub(destination_register, source_register);
    }

    fn hi_register_operations_branch_exchange_mov(
        &mut self,
        destination_register: u16,
        source_register: u16,
    )
        requires
            destination_register < 16,
            source_register < 16,
        ensures
            *final(self) == old(self).with_reg(
                destination_register,
                old(self).reg(source_register),
            ),
    {
        let value = self.get_register(source_register);
        self.store(value, destination_register);
    }

    /// Branches to the source register with bit 0 cleared for alignment. Bit 0
    /// selects the state to continue in; only THUMB (bit 0 set) is executed here.
    fn hi_register_operations_branch_exchange_bx(&mut self, source_register: u16)
        requires
            source_register < 16,
            old(self).reg(source_register) % 2 == 1,
        ensures
            *final(self) == old(self).with_reg(15, (old(self).reg(source_register) / 2 * 2) as u32),
    {
        let value = self.get_register(source_register);
        proof {
            lemma_word_arith(value, 0);
        }
        self.program_counter = value & 0xFFFF_FFFE;
    }

    fn alu_operations(&mut self, opcode: u16)
        requires
            old(self).alu_operations_defined(opcode),
        ensures
            *final(self) == old(self).alu_operations_result(opcode),
    {
        proof {
            lemma_field_bounds(opcode);
        }
        let sub_opcode = (opcode & 0x07C0) >> 6;
        let source_register = (opcode & 0x0038) >> 3;
        let destination_register = opcode & 0x0007;
        let value = match sub_opcode {
            0x00 => self.get_register(destination_register) & self.get_register(source_register),
            0x01 => self.get_register(destination_register) | self.get_register(source_register),
            0x02 => self.get_register(destination_register) << self.get_register(source_register),
            0x03 => self.get_register(destination_register) >> self.get_register(source_register),
            0x04 => (self.get_register(destination_register) as i32 >> self.get_register(
                source_register,
            )) as u32,
            0x05 => self.get_register(destination_register).wrapping_add(
                self.get_register(source_register),
            ).wrapping_add(self.get_carry_flag()),
            0x06 => self.get_register(destination_register).wrapping_sub(
                self.get_register(source_register),
            ).wrapping_sub(self.get_not_carry_flag()),
            0x07 => self.ror(source_register),
            0x08 => {
                self.test_and(destination_register, source_register);
                self.get_register(destination_register)
            },
            0x09 => 0u32.wrapping_sub(self.get_register(source_register)),
            0x0A => {
                self.test_sub(destination_register, source_register);
                self.get_register(destination_register)
            },
            0x0B => {
                self.test_add(destination_register, source_register);
                self.get_register(destination_register)
            },
            0x0C => self.get_register(destination_register) | self.get_register(source_register),
            0x0D => self.get_register(destination_register).wrapping_mul(
                self.get_register(source_register),
            ),
            0x0E => self.get_register(destination_register) & !self.get_register(source_register),
            _ => !self.get_register(source_register),
        };
        proof {
            lemma_with_reg_same(*self, destination_register);
        }
        self.store(value, destination_register);
    }

    fn move_compare_add_subtract_immediate(&mut self, opcode: u16)
        ensures
            *final(self) == old(self).move_compare_add_subtract_immediate_result(opcode),
    {
        proof {
            lemma_field_bounds(opcode);
        }
        let sub_opcode = (opcode & 0x1800) >> 11;
        let destination_register = (opcode & 0x0700) >> 8;
        let immediate_value = opcode & 0x00FF;
        match sub_opcode {
            0b00 => self.store(u32::from(immediate_value), destination_register),
            0b01 => self.test_cmp(destination_register, u32::from(immediate_value)),
            0b10 => {
                let value = self.get_register(destination_register).wrapping_add(
                    u32::from(immediate_value),
                );
                self.store(value, destination_register)
            },
            _ => {
                let value = self.get_register(destination_register).wrapping_sub(
                    u32::from(immediate_value),
                );
                self.store(value, destination_register)
            },
        };
    }

    fn add_subtract(&mut self, opcode: u16)
        ensures
            *final(self) == old(self).add_subtract_result(opcode),
    {
        proof {
            lemma_field_bounds(opcode);
        }
        let i = (opcode & 0x0400) >> 10 == 1;
        let sub_opcode = (opcode & 0x0200) >> 9 == 1;
        let r3 = (opcode & 0x01C0) >> 6;
        let immediate_value = (opcode & 0x01C0) >> 6;
        let source_register = (opcode & 0x0038) >> 3;
        let destination_register = opcode & 0x0007;
        let value = match (sub_opcode, i) {
            (false, false) => self.get_register(source_register).wrapping_add(
                self.get_register(r3),
            ),
            (false, true) => self.get_register(source_register).wrapping_add(
                u32::from(immediate_value),
            ),
            (true, false) => self.get_register(source_register).wrapping_sub(
                self.get_register(r3),
            ),
            (true, true) => self.get_register(source_register).wrapping_sub(
                u32::from(immediate_value),
            ),
        };
        self.store(value, destination_register);
    }

    fn move_shifted_register(&mut self, opcode: u16)
        requires
            field_op2(opcode) < 3,
        ensures
            *final(self) == old(self).move_shifted_register_result(opcode),
    {
        proof {
            lemma_field_bounds(opcode);
        }
        let sub_opcode = (opcode & 0x1800) >> 11;
        let immediate_value = (opcode & 0x07C0) >> 6;
        let source_register = (opcode & 0x0038) >> 3;
        let destination_register = opcode & 0x0007;
        let value = match sub_opcode {
            0b00 => self.get_register(source_register) << immediate_value,
            0b01 => self.get_register(source_register) >> immediate_value,
            // Arithmetic shift (signed right shift)
            _ => (self.get_register(source_register) as i32 >> immediate_value) as u32,
        };
        self.store(value, destination_register);
    }
}

impl Cpu {
    /// The opcode at the program counter and its decoded format.
    pub fn get_next_instruction(&self, bus: &Bus) -> (r: (u16, ThumbInstruction))
        requires
            bus.wf(),
            word_readable(self.program_counter as int),
        ensures
            r.0 == self.fetch(bus@),
            r.1 == decode(r.0),
    {
        let opcode = bus.read_16(self.program_counter as usize);
        let instruction = decode_instruction(opcode);
        (opcode, instruction)
    }

    /// Runs one cycle: fetches the opcode at the program counter, moves the
    /// program counter on by 2 and executes the decoded instruction.
    pub fn cpu_cycle(&mut self, bus: &mut Bus)
        requires
            old(bus).wf(),
            old(self).cycle_defined(old(bus)@),
        ensures
            final(bus).wf(),
            *final(self) == old(self).cycle_result(old(bus)@).0,
            final(bus)@ == old(self).cycle_result(old(bus)@).1,
    {
        let opcode = bus.read_16(self.program_counter as usize);
        let instruction = decode_instruction(opcode);
        self.program_counter = self.program_counter.wrapping_add(2);
        assert(*self == old(self).advanced());
        self.run_instruction(instruction, opcode, bus);
    }

    fn run_instruction(&mut self, instruction: ThumbInstruction, opcode: u16, bus: &mut Bus)
        requires
            old(bus).wf(),
            old(self).executable(instruction, opcode),
        ensures
            final(bus).wf(),
            *final(self) == old(self).execute(old(bus)@, instruction, opcode).0,
            final(bus)@ == old(self).execute(old(bus)@, instruction, opcode).1,
    {
        match instruction {
            ThumbInstruction::SoftwareInterrupt => self.software_interrupt(opcode),
            ThumbInstruction::UnconditionalBranch => self.unconditional_branch(opcode),
            ThumbInstruction::AddOffsetToStackPointer => self.add_offset_to_stack_pointer(opcode),
            // Only an empty register list with the PC/LR bit clear is admitted,
            // and it transfers nothing.
            ThumbInstruction::PushPopRegisters => {},
            ThumbInstruction::LoadStoreHalfword => self.load_store_halfword(opcode, bus),
            ThumbInstruction::LoadAddress => self.load_address(opcode, bus),
            ThumbInstruction::LoadStoreWithImmediateOffset => self.load_store_with_immediate_offset(
                opcode,
                bus,
            ),
            ThumbInstruction::LoadStoreWithRegisterOffset => self.load_store_with_register_offset(
                opcode,
                bus,
            ),
            ThumbInstruction::LoadStoreSignExtendedByteHalfword => self.load_store_sign_extended_byte_halfword(
                opcode,
                bus,
            ),
            ThumbInstruction::PCRelativeLoad => self.pc_relative_load(opcode, bus),
            ThumbInstruction::HiRegisterOperationsBranchExchange => self.hi_register_operations_branch_exchange(
                opcode,
            ),
            ThumbInstruction::ALUOperations => self.alu_operations(opcode),
            ThumbInstruction::MoveCompareAddSubtractImmediate => self.move_compare_add_subtract_immediate(
                opcode,
            ),
            ThumbInstruction::AddSubtract => self.add_subtract(opcode),
            ThumbInstruction::MoveShiftedRegister => self.move_shifted_register(opcode),
            // The formats that are not executed are excluded by the precondition.
            _ => {},
        }
    }

    fn load_store_halfword(&mut self, opcode: u16, bus: &mut Bus)
        requires
            old(bus).wf(),
            old(self).load_store_halfword_defined(opcode),
        ensures
            final(bus).wf(),
            *final(self) == old(self).load_store_halfword_result(old(bus)@, opcode).0,
            final(bus)@ == old(self).load_store_halfword_result(old(bus)@, opcode).1,
    {
        proof {
            lemma_field_bounds(opcode);
            lemma_opcode_arith(opcode);
        }
        let load = (opcode & 0x0800) >> 11 == 0x01;
        // 6 bit immediate offset stored as 5 bits
        let offset = (opcode & 0x07C0) >> 6 << 1;
        let base_register = (opcode & 0x0038) >> 3;
        let source_destination_register = opcode & 0x0007;
        let address = self.get_register(base_register).wrapping_add(offset as u32) as usize;
        assert(address == old(self).load_store_halfword_address(opcode));
        if load {
            let value = bus.read_16(address);
            self.store(value as u32, source_destination_register);
        } else {
            let value = self.get_register(source_destination_register);
            proof {
                lemma_word_arith(value, 0);
            }
            bus.write_16(address, value as u16);
        }
    }

    fn load_address(&mut self, opcode: u16, bus: &Bus)
        requires
            bus.wf(),
            word_readable(old(self).load_address_address(opcode)),
        ensures
            *final(self) == old(self).load_address_result(bus@, opcode),
    {
        proof {
            lemma_field_bounds(opcode);
            lemma_opcode_arith(opcode);
        }
        let source = (opcode & 0x0800) >> 11 == 0x01;
        let destination_register = (opcode & 0x0700) >> 8;
        let word = (opcode & 0x00FF) << 2;
        let address = if source {
            self.stack_pointer.wrapping_add(word as u32)
        } else {
            self.program_counter.wrapping_add(word as u32)
        };
        assert(address == old(self).load_address_address(opcode));
        let value = bus.read_32(address as usize);
        self.store(value, destination_register);
    }

    fn load_store_with_immediate_offset(&mut self, opcode: u16, bus: &mut Bus)
        requires
            old(bus).wf(),
            old(self).load_store_with_immediate_offset_defined(opcode),
        ensures
            final(bus).wf(),
            *final(self) == old(self).load_store_with_immediate_offset_result(old(bus)@, opcode).0,
            final(bus)@ == old(self).load_store_with_immediate_offset_result(old(bus)@, opcode).1,
    {
        proof {
            lemma_field_bounds(opcode);
            lemma_opcode_arith(opcode);
        }
        let load = (opcode & 0x0800) >> 11 == 0x01;
        let byte = (opcode & 0x1000) >> 12 == 0x01;
        let offset = (opcode & 0x07C0) >> 6;
        let base_register = (opcode & 0x0038) >> 3;
        let source_destination_register = opcode & 0x0007;
        let byte_address = self.get_register(base_register).wrapping_add(offset as u32) as usize;
        let word_address = self.get_register(base_register).wrapping_add((offset << 2) as u32)
            as usize;
        assert(byte_address == old(self).immediate_offset_byte_address(opcode));
        assert(word_address == old(self).immediate_offset_word_address(opcode));
        match (load, byte) {
            (true, true) => {
                let value = bus.read_8(byte_address);
                self.store(value as u32, source_destination_register)
            },
            (true, false) => {
                let value = bus.read_32(word_address);
                self.store(value, source_destination_register)
            },
            (false, true) => {
                let value = self.get_register(source_destination_register);
                proof {
                    lemma_word_arith(value, 0);
                }
                bus.write_8(byte_address, value as u8)
            },
            (false, false) => {
                let value = self.get_register(source_destination_register);
                bus.write_32(word_address, value)
            },
        }
    }

    fn load_store_with_register_offset(&mut self, opcode: u16, bus: &mut Bus)
        requires
            old(bus).wf(),
            old(self).load_store_with_register_offset_defined(opcode),
        ensures
            final(bus).wf(),
            *final(self) == old(self).load_store_with_register_offset_result(old(bus)@, opcode).0,
            final(bus)@ == old(self).load_store_with_register_offset_result(old(bus)@, opcode).1,
    {
        proof {
            lemma_field_bounds(opcode);
        }
        let load = (opcode & 0x0800) >> 11 == 0x01;
        let byte = (opcode & 0x0400) >> 10 == 0x01;
        let offset_register = (opcode & 0x01C0) >> 6;
        let base_register = (opcode & 0x0038) >> 3;
        let source_destination_register = opcode & 0x0007;
        let address = self.get_register(base_register).wrapping_add(
            self.get_register(offset_register),
        ) as usize;
        assert(address == old(self).register_offset_address(opcode));
        match (load, byte) {
            (true, true) => {
                let value = bus.read_8(address);
                self.store(value as u32, source_destination_register)
            },
            (true, false) => {
                let value = bus.read_32(address);
                self.store(value, source_destination_register)
            },
            (false, true) => {
                let value = self.get_register(source_destination_register);
                proof {
                    lemma_word_arith(value, 0);
                }
                bus.write_8(address, value as u8)
            },
            (false, false) => {
                let value = self.get_register(source_destination_register);
                bus.write_32(address, value)
            },
        }
    }

    fn load_store_sign_extended_byte_halfword(&mut self, opcode: u16, bus: &mut Bus)
        requires
            old(bus).wf(),
            old(self).load_store_sign_extended_byte_halfword_defined(opcode),
        ensures
            final(bus).wf(),
            *final(self) == old(self).load_store_sign_extended_byte_halfword_result(
                old(bus)@,
                opcode,
            ).0,
            final(bus)@ == old(self).load_store_sign_extended_byte_halfword_result(
                old(bus)@,
                opcode,
            ).1,
    {
        proof {
            lemma_field_bounds(opcode);
        }
        let h_flag = (opcode & 0x0800) >> 11 == 0x01;
        let sign_extend_flag = (opcode & 0x0400) >> 10 == 0x01;
        let offset_register = (opcode & 0x01C0) >> 6;
        let base_register = (opcode & 0x0038) >> 3;
        let source_destination_register = opcode & 0x0007;
        let address = self.get_register(base_register).wrapping_add(
            self.get_register(offset_register),
        ) as usize;
        assert(address == old(self).register_offset_address(opcode));
        match (sign_extend_flag, h_flag) {
            (false, false) => {
                let value = self.get_register(source_destination_register);
                proof {
                    lemma_word_arith(value, 0);
                }
                bus.write_16(address, value as u16)
            },
            (false, true) => {
                let value = bus.read_16(address);
                self.store(value as u32, source_destination_register)
            },
            (true, false) => {
                let value = bus.read_8(address).sign_extend();
                self.store(value, source_destination_register)
            },
            (true, true) => {
                let value = bus.read_16(address).sign_extend();
                self.store(value, source_destination_register)
            },
        }
    }

    fn pc_relative_load(&mut self, opcode: u16, bus: &Bus)
        requires
            bus.wf(),
            word_readable(old(self).pc_relative_address(opcode)),
        ensures
            *final(self) == old(self).pc_relative_load_result(bus@, opcode),
    {
        proof {
            lemma_field_bounds(opcode);
            lemma_opcode_arith(opcode);
        }
        let destination_register = (opcode & 0x0700) >> 8;
        // The offset is a word-aligned 10-bit value stored in 8 bits.
        let offset = (opcode & 0x00FF) << 2;
        let address = self.program_counter.wrapping_add(u32::from(offset));
        assert(address == old(self).pc_relative_address(opcode));
        let value = bus.read_32(address as usize);
        self.store(value, destination_register);
    }
}

/// Writing a register and reading it back gives the value written; every other
/// register and the status register keep their values.
pub proof fn lemma_register_read_after_write(cpu: Cpu, r: u16, q: u16, value: u32)
    requires
        r < 16,
        q < 16,
    ensures
        cpu.with_reg(r, value).reg(r) == value,
        q != r ==> cpu.with_reg(r, value).reg(q) == cpu.reg(q),
        cpu.with_reg(r, value).program_status_register == cpu.program_status_register,
{
}

} // verus!
