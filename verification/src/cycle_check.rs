//! Executable tests of whether the next cycle is defined, for callers that must
//! establish that before they run one.

use vstd::prelude::*;

use crate::bus::{is_word_readable, word_readable, Bus, BIOS_ROM_SIZE};
use crate::cpu::{lemma_opcode_arith, lemma_word_arith, Cpu};
use crate::thumb::{decode_instruction, lemma_field_bounds, ThumbInstruction};

verus! {

impl Cpu {
    /// Register `register` as an instruction sees it once the program counter has
    /// moved past the opcode.
    fn register_after_fetch(&self, register: u16) -> (r: u32)
        requires
            register < 16,
        ensures
            r == self.advanced().reg(register),
    {
        if register == 15 {
            self.program_counter.wrapping_add(2)
        } else {
            self.get_register(register)
        }
    }

    /// Whether a format 10 transfer of `opcode` stays inside memory once the
    /// program counter has moved past the opcode.
    fn halfword_transfer_defined(&self, opcode: u16) -> (r: bool)
        ensures
            r == self.advanced().load_store_halfword_defined(opcode),
    {
        proof {
            lemma_field_bounds(opcode);
            lemma_opcode_arith(opcode);
        }
        let rs = (opcode & 0x0038) >> 3;
        let imm5 = (opcode & 0x07C0) >> 6;
        let address = self.register_after_fetch(rs).wrapping_add(u32::from(imm5) * 2) as usize;
        if (opcode & 0x0800) >> 11 == 1 {
            is_word_readable(address)
        } else {
            address < BIOS_ROM_SIZE - 1
        }
    }

    /// Whether a format 12 load of `opcode` reads inside memory.
    fn load_address_defined(&self, opcode: u16) -> (r: bool)
        ensures
            r == word_readable(self.advanced().load_address_address(opcode)),
    {
        proof {
            lemma_field_bounds(opcode);
        }
        let base = if (opcode & 0x0800) >> 11 == 1 {
            self.stack_pointer
        } else {
            self.program_counter.wrapping_add(2)
        };
        is_word_readable(base.wrapping_add(u32::from(opcode & 0x00FF) * 4) as usize)
    }

    /// Whether a format 9 transfer of `opcode` stays inside memory.
    fn immediate_offset_transfer_defined(&self, opcode: u16) -> (r: bool)
        ensures
            r == self.advanced().load_store_with_immediate_offset_defined(opcode),
    {
        proof {
            lemma_field_bounds(opcode);
        }
        let base = self.register_after_fetch((opcode & 0x0038) >> 3);
        let imm5 = (opcode & 0x07C0) >> 6;
        let byte_address = base.wrapping_add(u32::from(imm5)) as usize;
        let word_address = base.wrapping_add(u32::from(imm5) * 4) as usize;
        assert(byte_address == self.advanced().immediate_offset_byte_address(opcode));
        assert(word_address == self.advanced().immediate_offset_word_address(opcode));
        let load = (opcode & 0x0800) >> 11 == 1;
        let byte = (opcode & 0x1000) >> 12 == 1;
        if load {
            if byte {
                is_word_readable(byte_address)
            } else {
                is_word_readable(word_address)
            }
        } else {
            if byte {
                byte_address < BIOS_ROM_SIZE
            } else {
                word_address < BIOS_ROM_SIZE - 3
            }
        }
    }

    /// The address of a format 7 or 8 transfer once the program counter has moved
    /// past the opcode.
    fn register_offset_address_after_fetch(&self, opcode: u16) -> (r: usize)
        ensures
            r == self.advanced().register_offset_address(opcode),
    {
        proof {
            lemma_field_bounds(opcode);
        }
        self.register_after_fetch((opcode & 0x0038) >> 3).wrapping_add(
            self.register_after_fetch((opcode & 0x01C0) >> 6),
        ) as usize
    }

    /// Whether a format 7 transfer of `opcode` stays inside memory.
    fn register_offset_transfer_defined(&self, opcode: u16) -> (r: bool)
        ensures
            r == self.advanced().load_store_with_register_offset_defined(opcode),
    {
        proof {
            lemma_field_bounds(opcode);
        }
        let address = self.register_offset_address_after_fetch(opcode);
        if (opcode & 0x0800) >> 11 == 1 {
            is_word_readable(address)
        } else if (opcode & 0x0400) >> 10 == 1 {
            address < BIOS_ROM_SIZE
        } else {
            address < BIOS_ROM_SIZE - 3
        }
    }

    /// Whether a format 8 transfer of `opcode` stays inside memory.
    fn sign_extended_transfer_defined(&self, opcode: u16) -> (r: bool)
        ensures
            r == self.advanced().load_store_sign_extended_byte_halfword_defined(opcode),
    {
        proof {
            lemma_field_bounds(opcode);
        }
        let address = self.register_offset_address_after_fetch(opcode);
        if (opcode & 0x0400) >> 10 != 1 && (opcode & 0x0800) >> 11 != 1 {
            address < BIOS_ROM_SIZE - 1
        } else {
            is_word_readable(address)
        }
    }

    /// Whether a format 6 load of `opcode` reads inside memory.
    fn pc_relative_load_defined(&self, opcode: u16) -> (r: bool)
        ensures
            r == word_readable(self.advanced().pc_relative_address(opcode)),
    {
        proof {
            lemma_field_bounds(opcode);
        }
        let next = self.program_counter.wrapping_add(2);
        let address = next.wrapping_add(u32::from(opcode & 0x00FF) * 4) as usize;
        assert(next == self.advanced().program_counter);
        assert(address == self.advanced().pc_relative_address(opcode));
        is_word_readable(address)
    }

    /// Whether a format 5 operation of `opcode` stays in THUMB state.
    fn hi_register_operation_defined(&self, opcode: u16) -> (r: bool)
        ensures
            r == self.advanced().hi_register_operations_branch_exchange_defined(opcode),
    {
        proof {
            lemma_field_bounds(opcode);
            lemma_opcode_arith(opcode);
        }
        let hs = ((opcode & 0x0038) >> 3) | ((opcode & 0x0040) >> 6) << 3;
        let target = self.register_after_fetch(hs);
        proof {
            lemma_word_arith(target, 0);
        }
        (opcode & 0x0300) >> 8 != 3 || target & 1 == 1
    }

    /// Whether a format 4 operation of `opcode` has a four-bit operation field and,
    /// for a register-specified shift, an amount below 32.
    fn alu_operation_defined(&self, opcode: u16) -> (r: bool)
        ensures
            r == self.advanced().alu_operations_defined(opcode),
    {
        proof {
            lemma_field_bounds(opcode);
        }
        let op = (opcode & 0x07C0) >> 6;
        op < 16 && (!(op == 2 || op == 3 || op == 4) || self.register_after_fetch(
            (opcode & 0x0038) >> 3,
        ) < 32)
    }

    /// Whether executing `instruction` on `opcode` is defined once the program
    /// counter has moved past the opcode.
    fn instruction_defined(&self, instruction: ThumbInstruction, opcode: u16) -> (r: bool)
        ensures
            r == self.advanced().executable(instruction, opcode),
    {
        match instruction {
            ThumbInstruction::SoftwareInterrupt => true,
            ThumbInstruction::UnconditionalBranch => true,
            ThumbInstruction::AddOffsetToStackPointer => true,
            ThumbInstruction::MoveCompareAddSubtractImmediate => true,
            ThumbInstruction::AddSubtract => true,
            ThumbInstruction::PushPopRegisters => opcode & 0x01FF == 0,
            ThumbInstruction::LoadStoreHalfword => self.halfword_transfer_defined(opcode),
            ThumbInstruction::LoadAddress => self.load_address_defined(opcode),
            ThumbInstruction::LoadStoreWithImmediateOffset => self.immediate_offset_transfer_defined(
                opcode,
            ),
            ThumbInstruction::LoadStoreWithRegisterOffset => self.register_offset_transfer_defined(
                opcode,
            ),
            ThumbInstruction::LoadStoreSignExtendedByteHalfword => self.sign_extended_transfer_defined(
                opcode,
            ),
            ThumbInstruction::PCRelativeLoad => self.pc_relative_load_defined(opcode),
            ThumbInstruction::HiRegisterOperationsBranchExchange => self.hi_register_operation_defined(
                opcode,
            ),
            ThumbInstruction::ALUOperations => self.alu_operation_defined(opcode),
            ThumbInstruction::MoveShiftedRegister => {
                proof {
                    lemma_field_bounds(opcode);
                }
                (opcode & 0x1800) >> 11 < 3
            },
            _ => false,
        }
    }

    /// Whether the next cycle is defined: the opcode at the program counter can be
    /// fetched, and the instruction it decodes to can be executed.
    pub fn can_cycle(&self, bus: &Bus) -> (r: bool)
        requires
            bus.wf(),
        ensures
            r == self.cycle_defined(bus@),
    {
        if !is_word_readable(self.program_counter as usize) {
            return false;
        }
        let opcode = bus.read_16(self.program_counter as usize);
        self.instruction_defined(decode_instruction(opcode), opcode)
    }
}

} // verus!
