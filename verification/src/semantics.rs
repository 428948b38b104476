//! What each THUMB instruction does: for every format, the register file and
//! memory it leaves behind, given a register file whose program counter already
//! points past the opcode, and the inputs on which it is defined; then a whole
//! cycle (fetch, advance, execute) and the laws that cycles keep.

use vstd::prelude::*;

use crate::bus::{word_readable, BusView, BIOS_ROM_SIZE};
use crate::cpu::Cpu;
use crate::program_status_register::ProgramStatusRegister;
use crate::thumb::{
    bit_set,
    decode,
    field_imm5,
    field_imm8,
    field_op2,
    field_rd,
    field_rd_high,
    field_rn,
    field_rs,
    lemma_field_bounds,
    ThumbInstruction,
};

verus! {

/// `x` reduced modulo 2^32: the result of 32-bit wrapping arithmetic.
pub open spec fn wrap(x: int) -> u32 {
    (x % 0x1_0000_0000) as u32
}

/// The low 16 bits of a word.
pub open spec fn low_half(value: u32) -> u16 {
    (value % 0x1_0000) as u16
}

/// The low 8 bits of a word.
pub open spec fn low_byte(value: u32) -> u8 {
    (value % 0x100) as u8
}

/// Whether a word is negative read as two's complement: its bit 31 is set.
pub open spec fn is_negative(value: u32) -> bool {
    value >= 0x8000_0000
}

/// The status register after a logical result: N from bit 31, Z from zero.
pub open spec fn logic_flags(psr: ProgramStatusRegister, value: u32) -> ProgramStatusRegister {
    psr.with_negative(is_negative(value)).with_zero(value == 0)
}

/// The status register after the comparison `a + b`: N and Z of the wrapped sum;
/// C and V both set exactly when the sum exceeds `u32::MAX`.
pub open spec fn add_flags(psr: ProgramStatusRegister, a: u32, b: u32) -> ProgramStatusRegister {
    logic_flags(psr, wrap(a + b)).with_carry(a + b > u32::MAX).with_overflow(a + b > u32::MAX)
}

/// The status register after the comparison `a - b`: N and Z of the wrapped
/// difference; C set when `a >= b`; V set when the unsigned difference borrows.
pub open spec fn sub_flags(psr: ProgramStatusRegister, a: u32, b: u32) -> ProgramStatusRegister {
    logic_flags(psr, wrap(a - b)).with_carry(a >= b).with_overflow(a < b)
}

/// The register number named by bits 0..2 with H1 (bit 7) as bit 3.
pub open spec fn field_hd(opcode: u16) -> u16 {
    (opcode & 0x0007) | (((opcode & 0x0080) >> 7) << 3)
}

/// The register number named by bits 3..5 with H2 (bit 6) as bit 3.
pub open spec fn field_hs(opcode: u16) -> u16 {
    ((opcode & 0x0038) >> 3) | (((opcode & 0x0040) >> 6) << 3)
}

/// Bits 8..9: the operation of the hi register format.
pub open spec fn field_hi_op(opcode: u16) -> u16 {
    (opcode & 0x0300) >> 8
}

impl Cpu {
    /// Format 18, unconditional branch: the program counter moves forward by the
    /// 11-bit offset field (bits 0..10) shifted left by one, wrapping.
    pub open spec fn unconditional_branch_result(self, opcode: u16) -> Cpu {
        self.with_reg(15, wrap(self.program_counter + (opcode & 0x07FF) * 2))
    }

    /// Format 13: the stack pointer moves by four times the 7-bit field, down when
    /// bit 7 is set, up otherwise, wrapping.
    pub open spec fn add_offset_to_stack_pointer_result(self, opcode: u16) -> Cpu {
        let word = (opcode & 0x007F) * 4;
        if bit_set(opcode, 7) {
            self.with_reg(13, wrap(self.stack_pointer - word))
        } else {
            self.with_reg(13, wrap(self.stack_pointer + word))
        }
    }

    /// Whether a push/pop opcode names no register to transfer; transfers of
    /// registers are outside what this core executes.
    pub open spec fn push_pop_registers_defined(opcode: u16) -> bool {
        opcode & 0x01FF == 0
    }

    /// The address of a format 10 transfer: the base register plus twice the
    /// 5-bit field.
    pub open spec fn load_store_halfword_address(self, opcode: u16) -> int {
        wrap(self.reg(field_rs(opcode)) + field_imm5(opcode) * 2) as int
    }

    /// Format 10: with bit 11 set, the halfword read at the address goes to the
    /// low register; otherwise the low half of that register is written there.
    pub open spec fn load_store_halfword_result(self, mem: BusView, opcode: u16) -> (Cpu, BusView) {
        let address = self.load_store_halfword_address(opcode);
        let rd = field_rd(opcode);
        if bit_set(opcode, 11) {
            (self.with_reg(rd, mem.halfword_at(address) as u32), mem)
        } else {
            (self, mem.after_write_16(address, low_half(self.reg(rd))))
        }
    }

    pub open spec fn load_store_halfword_defined(self, opcode: u16) -> bool {
        let address = self.load_store_halfword_address(opcode);
        if bit_set(opcode, 11) {
            word_readable(address)
        } else {
            address + 1 < BIOS_ROM_SIZE
        }
    }

    /// The address of a format 12 load: the stack pointer (bit 11 set) or the
    /// program counter, plus four times the 8-bit field.
    pub open spec fn load_address_address(self, opcode: u16) -> int {
        let base = if bit_set(opcode, 11) {
            self.stack_pointer
        } else {
            self.program_counter
        };
        wrap(base + field_imm8(opcode) * 4) as int
    }

    /// Format 12: the word read at the address goes to the register in bits 8..10.
    pub open spec fn load_address_result(self, mem: BusView, opcode: u16) -> Cpu {
        self.with_reg(
            field_rd_high(opcode),
            mem.word_at(self.load_address_address(opcode)),
        )
    }

    /// The byte address of a format 9 transfer: base register plus the 5-bit field.
    pub open spec fn immediate_offset_byte_address(self, opcode: u16) -> int {
        wrap(self.reg(field_rs(opcode)) + field_imm5(opcode)) as int
    }

    /// The word address of a format 9 transfer: base register plus four times the
    /// 5-bit field.
    pub open spec fn immediate_offset_word_address(self, opcode: u16) -> int {
        wrap(self.reg(field_rs(opcode)) + field_imm5(opcode) * 4) as int
    }

    /// Format 9: bit 11 chooses load or store, bit 12 byte or word. A byte load
    /// puts the byte read at the byte address in the low register, a word load the
    /// word at the word address; stores write the register's low byte, or the
    /// whole register, there.
    pub open spec fn load_store_with_immediate_offset_result(
        self,
        mem: BusView,
        opcode: u16,
    ) -> (Cpu, BusView) {
        let rd = field_rd(opcode);
        let byte_address = self.immediate_offset_byte_address(opcode);
        let word_address = self.immediate_offset_word_address(opcode);
        if bit_set(opcode, 11) {
            if bit_set(opcode, 12) {
                (self.with_reg(rd, mem.top_byte_at(byte_address) as u32), mem)
            } else {
                (self.with_reg(rd, mem.word_at(word_address)), mem)
            }
        } else {
            if bit_set(opcode, 12) {
                (self, mem.after_write_8(byte_address, low_byte(self.reg(rd))))
            } else {
                (self, mem.after_write_32(word_address, self.reg(rd)))
            }
        }
    }

    pub open spec fn load_store_with_immediate_offset_defined(self, opcode: u16) -> bool {
        let byte_address = self.immediate_offset_byte_address(opcode);
        let word_address = self.immediate_offset_word_address(opcode);
        if bit_set(opcode, 11) {
            if bit_set(opcode, 12) {
                word_readable(byte_address)
            } else {
                word_readable(word_address)
            }
        } else {
            if bit_set(opcode, 12) {
                byte_address < BIOS_ROM_SIZE
            } else {
                word_address + 3 < BIOS_ROM_SIZE
            }
        }
    }

    /// The address of a format 7 or 8 transfer: base register plus offset register.
    pub open spec fn register_offset_address(self, opcode: u16) -> int {
        wrap(self.reg(field_rs(opcode)) + self.reg(field_rn(opcode))) as int
    }

    /// Format 7: bit 11 chooses load or store, bit 10 byte or word, all at the
    /// register offset address.
    pub open spec fn load_store_with_register_offset_result(
        self,
        mem: BusView,
        opcode: u16,
    ) -> (Cpu, BusView) {
        let rd = field_rd(opcode);
        let address = self.register_offset_address(opcode);
        if bit_set(opcode, 11) {
            if bit_set(opcode, 10) {
                (self.with_reg(rd, mem.top_byte_at(address) as u32), mem)
            } else {
                (self.with_reg(rd, mem.word_at(address)), mem)
            }
        } else {
            if bit_set(opcode, 10) {
                (self, mem.after_write_8(address, low_byte(self.reg(rd))))
            } else {
                (self, mem.after_write_32(address, self.reg(rd)))
            }
        }
    }

    pub open spec fn load_store_with_register_offset_defined(self, opcode: u16) -> bool {
        let address = self.register_offset_address(opcode);
        if bit_set(opcode, 11) {
            word_readable(address)
        } else {
            if bit_set(opcode, 10) {
                address < BIOS_ROM_SIZE
            } else {
                address + 3 < BIOS_ROM_SIZE
            }
        }
    }

    /// Format 8: with S (bit 10) and H (bit 11) both clear, the low half of the
    /// low register is written at the register offset address; with H alone, the
    /// halfword read there is loaded; with S alone, the byte read there; with both,
    /// the halfword. Loaded values are zero-extended.
    pub open spec fn load_store_sign_extended_byte_halfword_result(
        self,
        mem: BusView,
        opcode: u16,
    ) -> (Cpu, BusView) {
        let rd = field_rd(opcode);
        let address = self.register_offset_address(opcode);
        if !bit_set(opcode, 10) {
            if !bit_set(opcode, 11) {
                (self, mem.after_write_16(address, low_half(self.reg(rd))))
            } else {
                (self.with_reg(rd, mem.halfword_at(address) as u32), mem)
            }
        } else {
            if !bit_set(opcode, 11) {
                (self.with_reg(rd, mem.top_byte_at(address) as u32), mem)
            } else {
                (self.with_reg(rd, mem.halfword_at(address) as u32), mem)
            }
        }
    }

    pub open spec fn load_store_sign_extended_byte_halfword_defined(self, opcode: u16) -> bool {
        let address = self.register_offset_address(opcode);
        if !bit_set(opcode, 10) && !bit_set(opcode, 11) {
            address + 1 < BIOS_ROM_SIZE
        } else {
            word_readable(address)
        }
    }

    /// The address of a format 6 load: program counter plus four times the 8-bit
    /// field.
    pub open spec fn pc_relative_address(self, opcode: u16) -> int {
        wrap(self.program_counter + field_imm8(opcode) * 4) as int
    }

    /// Format 6: the word read at the address goes to the register in bits 8..10.
    pub open spec fn pc_relative_load_result(self, mem: BusView, opcode: u16) -> Cpu {
        self.with_reg(field_rd_high(opcode), mem.word_at(self.pc_relative_address(opcode)))
    }

    /// Format 5: ADD (0) adds the source to the destination, wrapping; CMP (1) sets
    /// the flags of destination minus source; MOV (2) copies the source; BX (3)
    /// jumps to the source value with bit 0 cleared.
    pub open spec fn hi_register_operations_branch_exchange_result(self, opcode: u16) -> Cpu {
        let rd = field_hd(opcode);
        let rs = field_hs(opcode);
        let op = field_hi_op(opcode);
        if op == 0 {
            self.with_reg(rd, wrap(self.reg(rd) + self.reg(rs)))
        } else if op == 1 {
            self.with_psr(sub_flags(self.program_status_register, self.reg(rd), self.reg(rs)))
        } else if op == 2 {
            self.with_reg(rd, self.reg(rs))
        } else {
            self.with_reg(15, (self.reg(rs) / 2 * 2) as u32)
        }
    }

    /// A branch and exchange stays in THUMB state only when bit 0 of the target is
    /// set; a switch to ARM state is outside what this core executes.
    pub open spec fn hi_register_operations_branch_exchange_defined(self, opcode: u16) -> bool {
        field_hi_op(opcode) == 3 ==> self.reg(field_hs(opcode)) % 2 == 1
    }

    /// Format 4, on destination d (bits 0..2) and source s (bits 3..5), by the
    /// operation in bits 6..9: AND, OR (1), LSL, LSR, ASR, ADC, SBC, rotate right
    /// by one through carry (7), TST, NEG, CMP, CMN, ORR, MUL, BIC, MVN.
    pub open spec fn alu_operations_result(self, opcode: u16) -> Cpu {
        let rd = field_rd(opcode);
        let d = self.reg(rd);
        let s = self.reg(field_rs(opcode));
        let psr = self.program_status_register;
        let c = self.carry_value();
        let op = field_imm5(opcode);
        if op == 0 {
            self.with_reg(rd, d & s)
        } else if op == 1 {
            self.with_reg(rd, d | s)
        } else if op == 2 {
            self.with_reg(rd, d << s)
        } else if op == 3 {
            self.with_reg(rd, d >> s)
        } else if op == 4 {
            self.with_reg(rd, ((d as i32) >> s) as u32)
        } else if op == 5 {
            self.with_reg(rd, wrap(d + s + c))
        } else if op == 6 {
            self.with_reg(rd, wrap(d - s - (1 - c)))
        } else if op == 7 {
            self.with_psr(psr.with_carry(s % 2 == 1)).with_reg(rd, (s / 2 + c * 0x8000_0000) as u32)
        } else if op == 8 {
            self.with_psr(logic_flags(psr, d & s))
        } else if op == 9 {
            self.with_reg(rd, wrap(0 - s))
        } else if op == 10 {
            self.with_psr(sub_flags(psr, d, s))
        } else if op == 11 {
            self.with_psr(add_flags(psr, d, s))
        } else if op == 12 {
            self.with_reg(rd, d | s)
        } else if op == 13 {
            self.with_reg(rd, wrap(d * s))
        } else if op == 14 {
            self.with_reg(rd, d & !s)
        } else {
            self.with_reg(rd, !s)
        }
    }

    /// The operation field is four bits wide, and the register-specified shifts
    /// shift by less than 32.
    pub open spec fn alu_operations_defined(self, opcode: u16) -> bool {
        let op = field_imm5(opcode);
        &&& op < 16
        &&& (op == 2 || op == 3 || op == 4) ==> self.reg(field_rs(opcode)) < 32
    }

    /// Format 3, on the register in bits 8..10 and the 8-bit immediate: MOV (0),
    /// CMP (1, flags of register minus immediate), ADD (2), SUB (3), wrapping.
    pub open spec fn move_compare_add_subtract_immediate_result(self, opcode: u16) -> Cpu {
        let rd = field_rd_high(opcode);
        let imm = field_imm8(opcode);
        let op = field_op2(opcode);
        if op == 0 {
            self.with_reg(rd, imm as u32)
        } else if op == 1 {
            self.with_psr(sub_flags(self.program_status_register, self.reg(rd), imm as u32))
        } else if op == 2 {
            self.with_reg(rd, wrap(self.reg(rd) + imm))
        } else {
            self.with_reg(rd, wrap(self.reg(rd) - imm))
        }
    }

    /// Format 2: the low register gets the source register (bits 3..5) plus, or
    /// minus when bit 9 is set, the operand in bits 6..8 (an immediate when bit 10
    /// is set, else a register), wrapping.
    pub open spec fn add_subtract_result(self, opcode: u16) -> Cpu {
        let s = self.reg(field_rs(opcode));
        let operand: u32 = if bit_set(opcode, 10) {
            field_rn(opcode) as u32
        } else {
            self.reg(field_rn(opcode))
        };
        let value = if bit_set(opcode, 9) {
            wrap(s - operand)
        } else {
            wrap(s + operand)
        };
        self.with_reg(field_rd(opcode), value)
    }

    /// Format 1: the low register gets the source register shifted by the 5-bit
    /// immediate: left (0), logically right (1) or arithmetically right (2).
    pub open spec fn move_shifted_register_result(self, opcode: u16) -> Cpu {
        let s = self.reg(field_rs(opcode));
        let amount = field_imm5(opcode);
        let op = field_op2(opcode);
        let value = if op == 0 {
            s << amount
        } else if op == 1 {
            s >> amount
        } else {
            ((s as i32) >> amount) as u32
        };
        self.with_reg(field_rd(opcode), value)
    }

    /// Whether executing `instruction` on `opcode` is defined: the formats the core
    /// does not execute (conditional branch, multiple load/store, long branch with
    /// link, SP-relative load/store and undecodable opcodes) are not, nor are
    /// accesses outside memory, transfers that the push/pop and branch-exchange
    /// rules above exclude, or shifts by 32 or more.
    pub open spec fn executable(self, instruction: ThumbInstruction, opcode: u16) -> bool {
        match instruction {
            ThumbInstruction::SoftwareInterrupt => true,
            ThumbInstruction::UnconditionalBranch => true,
            ThumbInstruction::AddOffsetToStackPointer => true,
            ThumbInstruction::PushPopRegisters => Cpu::push_pop_registers_defined(opcode),
            ThumbInstruction::LoadStoreHalfword => self.load_store_halfword_defined(opcode),
            ThumbInstruction::LoadAddress => word_readable(self.load_address_address(opcode)),
            ThumbInstruction::LoadStoreWithImmediateOffset => self.load_store_with_immediate_offset_defined(opcode),
            ThumbInstruction::LoadStoreWithRegisterOffset => self.load_store_with_register_offset_defined(opcode),
            ThumbInstruction::LoadStoreSignExtendedByteHalfword => self.load_store_sign_extended_byte_halfword_defined(opcode),
            ThumbInstruction::PCRelativeLoad => word_readable(self.pc_relative_address(opcode)),
            ThumbInstruction::HiRegisterOperationsBranchExchange => self.hi_register_operations_branch_exchange_defined(opcode),
            ThumbInstruction::ALUOperations => self.alu_operations_defined(opcode),
            ThumbInstruction::MoveCompareAddSubtractImmediate => true,
            ThumbInstruction::AddSubtract => true,
            ThumbInstruction::MoveShiftedRegister => field_op2(opcode) < 3,
            _ => false,
        }
    }

    /// The register file and memory after executing `instruction` on `opcode`.
    pub open spec fn execute(self, mem: BusView, instruction: ThumbInstruction, opcode: u16) -> (Cpu, BusView) {
        match instruction {
            ThumbInstruction::UnconditionalBranch => (self.unconditional_branch_result(opcode), mem),
            ThumbInstruction::AddOffsetToStackPointer => (self.add_offset_to_stack_pointer_result(opcode), mem),
            ThumbInstruction::LoadStoreHalfword => self.load_store_halfword_result(mem, opcode),
            ThumbInstruction::LoadAddress => (self.load_address_result(mem, opcode), mem),
            ThumbInstruction::LoadStoreWithImmediateOffset => self.load_store_with_immediate_offset_result(mem, opcode),
            ThumbInstruction::LoadStoreWithRegisterOffset => self.load_store_with_register_offset_result(mem, opcode),
            ThumbInstruction::LoadStoreSignExtendedByteHalfword => self.load_store_sign_extended_byte_halfword_result(mem, opcode),
            ThumbInstruction::PCRelativeLoad => (self.pc_relative_load_result(mem, opcode), mem),
            ThumbInstruction::HiRegisterOperationsBranchExchange => (self.hi_register_operations_branch_exchange_result(opcode), mem),
            ThumbInstruction::ALUOperations => (self.alu_operations_result(opcode), mem),
            ThumbInstruction::MoveCompareAddSubtractImmediate => (self.move_compare_add_subtract_immediate_result(opcode), mem),
            ThumbInstruction::AddSubtract => (self.add_subtract_result(opcode), mem),
            ThumbInstruction::MoveShiftedRegister => (self.move_shifted_register_result(opcode), mem),
            // A software interrupt and an empty push/pop change nothing.
            _ => (self, mem),
        }
    }

    /// The opcode at the program counter.
    pub open spec fn fetch(self, mem: BusView) -> u16 {
        mem.halfword_at(self.program_counter as int)
    }

    /// The register file with the program counter moved past the fetched opcode.
    pub open spec fn advanced(self) -> Cpu {
        self.with_reg(15, wrap(self.program_counter + 2))
    }

    /// Whether a cycle is defined: the opcode can be fetched and its instruction
    /// executed.
    pub open spec fn cycle_defined(self, mem: BusView) -> bool {
        &&& word_readable(self.program_counter as int)
        &&& self.advanced().executable(decode(self.fetch(mem)), self.fetch(mem))
    }

    /// The register file and memory after one cycle: fetch the opcode at the
    /// program counter, move the program counter on by 2, execute the decoded
    /// instruction.
    pub open spec fn cycle_result(self, mem: BusView) -> (Cpu, BusView) {
        self.advanced().execute(mem, decode(self.fetch(mem)), self.fetch(mem))
    }
}

/// A cycle moves the program counter on by 2, wrapping, unless the instruction
/// is an unconditional branch or a hi register operation (which may write r15).
pub proof fn lemma_cycle_advances_program_counter(cpu: Cpu, mem: BusView)
    requires
        cpu.cycle_defined(mem),
        decode(cpu.fetch(mem)) != ThumbInstruction::UnconditionalBranch,
        decode(cpu.fetch(mem)) != ThumbInstruction::HiRegisterOperationsBranchExchange,
    ensures
        cpu.cycle_result(mem).0.program_counter == wrap(cpu.program_counter + 2),
{
    lemma_field_bounds(cpu.fetch(mem));
}

/// A cycle changes the status register only for the ALU, hi register and
/// move/compare/add/subtract immediate formats.
pub proof fn lemma_cycle_preserves_flags(cpu: Cpu, mem: BusView)
    requires
        cpu.cycle_defined(mem),
        decode(cpu.fetch(mem)) != ThumbInstruction::ALUOperations,
        decode(cpu.fetch(mem)) != ThumbInstruction::HiRegisterOperationsBranchExchange,
        decode(cpu.fetch(mem)) != ThumbInstruction::MoveCompareAddSubtractImmediate,
    ensures
        cpu.cycle_result(mem).0.program_status_register == cpu.program_status_register,
{
    lemma_field_bounds(cpu.fetch(mem));
}

/// Whether `instruction` on `opcode` is a store: a format 7, 9 or 10 transfer
/// with bit 11 clear, or a format 8 transfer with bits 10 and 11 clear.
pub open spec fn is_store(instruction: ThumbInstruction, opcode: u16) -> bool {
    match instruction {
        ThumbInstruction::LoadStoreHalfword => !bit_set(opcode, 11),
        ThumbInstruction::LoadStoreWithImmediateOffset => !bit_set(opcode, 11),
        ThumbInstruction::LoadStoreWithRegisterOffset => !bit_set(opcode, 11),
        ThumbInstruction::LoadStoreSignExtendedByteHalfword => !bit_set(opcode, 10) && !bit_set(
            opcode,
            11,
        ),
        _ => false,
    }
}

/// Only stores change memory, and a store changes no register: its cycle only
/// moves the program counter on.
pub proof fn lemma_cycle_memory_effects(cpu: Cpu, mem: BusView)
    requires
        cpu.cycle_defined(mem),
    ensures
        !is_store(decode(cpu.fetch(mem)), cpu.fetch(mem)) ==> cpu.cycle_result(mem).1 == mem,
        is_store(decode(cpu.fetch(mem)), cpu.fetch(mem)) ==> cpu.cycle_result(mem).0
            == cpu.advanced(),
{
}

/// Moving the stack pointer up by a 7-bit offset field (bit 7 clear) and then
/// down by the same field (bit 7 set) restores the register file, and so does
/// the reverse order.
pub proof fn lemma_stack_offset_round_trip(cpu: Cpu, w: u16)
    requires
        w < 0x80,
    ensures
        cpu.add_offset_to_stack_pointer_result(0xB000 | w).add_offset_to_stack_pointer_result(
            0xB080 | w,
        ) == cpu,
        cpu.add_offset_to_stack_pointer_result(0xB080 | w).add_offset_to_stack_pointer_result(
            0xB000 | w,
        ) == cpu,
{
    assert((0xB000u16 | w) & 0x007F == w && !bit_set(0xB000u16 | w, 7) && (0xB080u16 | w) & 0x007F
        == w && bit_set(0xB080u16 | w, 7)) by (bit_vector)
        requires
            w < 0x80u16,
    ;
}

} // verus!
