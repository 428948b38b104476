use vstd::prelude::*;

verus! {

/// The THUMB instruction formats of the ARM7TDMI that the decoder tells apart.
#[derive(Debug, Clone, Copy, PartialEq, Eq, Structural)]
pub enum ThumbInstruction {
    SoftwareInterrupt,
    UnconditionalBranch,
    ConditionalBranch,
    MultipleLoadstore,
    LongBranchWithLink,
    AddOffsetToStackPointer,
    PushPopRegisters,
    LoadStoreHalfword,
    SPRelativeLoadStore,
    LoadAddress,
    LoadStoreWithImmediateOffset,
    LoadStoreWithRegisterOffset,
    LoadStoreSignExtendedByteHalfword,
    PCRelativeLoad,
    HiRegisterOperationsBranchExchange,
    ALUOperations,
    MoveCompareAddSubtractImmediate,
    AddSubtract,
    MoveShiftedRegister,
    Unimplemented,
}

/// Whether the bits of `opcode` selected by `mask` equal `pattern`.
pub open spec fn matches_format(opcode: u16, mask: u16, pattern: u16) -> bool {
    opcode & mask == pattern
}

/// The format of `opcode`: the first format, in the order below, whose fixed bits
/// the opcode carries; `Unimplemented` if none.
pub open spec fn decode(opcode: u16) -> ThumbInstruction {
    if matches_format(opcode, 0xFF00, 0xDF00) {
        ThumbInstruction::SoftwareInterrupt
    } else if matches_format(opcode, 0xF800, 0xE000) {
        ThumbInstruction::UnconditionalBranch
    } else if matches_format(opcode, 0xF000, 0xD000) {
        ThumbInstruction::ConditionalBranch
    } else if matches_format(opcode, 0xF000, 0xC000) {
        ThumbInstruction::MultipleLoadstore
    } else if matches_format(opcode, 0xF000, 0xF000) {
        ThumbInstruction::LongBranchWithLink
    } else if matches_format(opcode, 0xFF00, 0xB000) {
        ThumbInstruction::AddOffsetToStackPointer
    } else if matches_format(opcode, 0xF600, 0xB600) {
        ThumbInstruction::PushPopRegisters
    } else if matches_format(opcode, 0xF000, 0x8000) {
        ThumbInstruction::LoadStoreHalfword
    } else if matches_format(opcode, 0xF000, 0x9000) {
        ThumbInstruction::SPRelativeLoadStore
    } else if matches_format(opcode, 0xF000, 0xA000) {
        ThumbInstruction::LoadAddress
    } else if matches_format(opcode, 0xE000, 0x6000) {
        ThumbInstruction::LoadStoreWithImmediateOffset
    } else if matches_format(opcode, 0xF200, 0x5000) {
        ThumbInstruction::LoadStoreWithRegisterOffset
    } else if matches_format(opcode, 0xF200, 0x5200) {
        ThumbInstruction::LoadStoreSignExtendedByteHalfword
    } else if matches_format(opcode, 0xF800, 0x4800) {
        ThumbInstruction::PCRelativeLoad
    } else if matches_format(opcode, 0xFC00, 0x4400) {
        ThumbInstruction::HiRegisterOperationsBranchExchange
    } else if matches_format(opcode, 0xFC00, 0x4000) {
        ThumbInstruction::ALUOperations
    } else if matches_format(opcode, 0xE000, 0x2000) {
        ThumbInstruction::MoveCompareAddSubtractImmediate
    } else if matches_format(opcode, 0xF800, 0x1800) {
        ThumbInstruction::AddSubtract
    } else if matches_format(opcode, 0xE000, 0x0000) {
        ThumbInstruction::MoveShiftedRegister
    } else {
        ThumbInstruction::Unimplemented
    }
}

// Operand fields of a THUMB opcode.
/// Bits 0..2: the low destination (or source/destination) register.
pub open spec fn field_rd(opcode: u16) -> u16 {
    opcode & 0x0007
}

/// Bits 3..5: the source or base register.
pub open spec fn field_rs(opcode: u16) -> u16 {
    (opcode & 0x0038) >> 3
}

/// Bits 6..8: the second operand register, offset register or 3-bit immediate.
pub open spec fn field_rn(opcode: u16) -> u16 {
    (opcode & 0x01C0) >> 6
}

/// Bits 6..10: the 5-bit immediate (shift amount or offset).
pub open spec fn field_imm5(opcode: u16) -> u16 {
    (opcode & 0x07C0) >> 6
}

/// Bits 8..10: the destination register of the formats with an 8-bit immediate.
pub open spec fn field_rd_high(opcode: u16) -> u16 {
    (opcode & 0x0700) >> 8
}

/// Bits 0..7: the 8-bit immediate.
pub open spec fn field_imm8(opcode: u16) -> u16 {
    opcode & 0x00FF
}

/// Bits 11..12: the operation of the shift and immediate formats.
pub open spec fn field_op2(opcode: u16) -> u16 {
    (opcode & 0x1800) >> 11
}

/// Whether bit `n` of `opcode` is set.
pub open spec fn bit_set(opcode: u16, n: u16) -> bool {
    (opcode >> n) & 1 == 1
}

/// Ranges of the operand fields, and the single-bit tests written with masks.
pub proof fn lemma_field_bounds(opcode: u16)
    by (bit_vector)
    ensures
        opcode & 0x0007 < 8,
        (opcode & 0x0038) >> 3 < 8,
        (opcode & 0x01C0) >> 6 < 8,
        (opcode & 0x07C0) >> 6 < 32,
        (opcode & 0x0700) >> 8 < 8,
        opcode & 0x00FF < 256,
        (opcode & 0x1800) >> 11 < 4,
        (opcode & 0x0300) >> 8 < 4,
        (opcode & 0x0080) >> 7 < 2,
        (opcode & 0x0040) >> 6 < 2,
        ((opcode & 0x0800) >> 11 == 1) == bit_set(opcode, 11),
        ((opcode & 0x1000) >> 12 == 1) == bit_set(opcode, 12),
        ((opcode & 0x0400) >> 10 == 1) == bit_set(opcode, 10),
        ((opcode & 0x0200) >> 9 == 1) == bit_set(opcode, 9),
        ((opcode & 0x0100) >> 8 == 1) == bit_set(opcode, 8),
        ((opcode & 0x0080) >> 7 == 1) == bit_set(opcode, 7),
        opcode & 0xFC00 == 0x4000 ==> (opcode & 0x07C0) >> 6 < 16,
        opcode & 0xE000 == 0 && opcode & 0xF800 != 0x1800 ==> (opcode & 0x1800) >> 11 < 3,
{
}

/// Every format the decoder names carries that format's fixed bits, and an
/// opcode decodes as `Unimplemented` exactly when it carries the fixed bits of no
/// format.
pub proof fn lemma_decode_matches_format(opcode: u16)
    ensures
        decode(opcode) == ThumbInstruction::SoftwareInterrupt ==> matches_format(
            opcode,
            0xFF00,
            0xDF00,
        ),
        decode(opcode) == ThumbInstruction::UnconditionalBranch ==> matches_format(
            opcode,
            0xF800,
            0xE000,
        ),
        decode(opcode) == ThumbInstruction::ConditionalBranch ==> matches_format(
            opcode,
            0xF000,
            0xD000,
        ),
        decode(opcode) == ThumbInstruction::MultipleLoadstore ==> matches_format(
            opcode,
            0xF000,
            0xC000,
        ),
        decode(opcode) == ThumbInstruction::LongBranchWithLink ==> matches_format(
            opcode,
            0xF000,
            0xF000,
        ),
        decode(opcode) == ThumbInstruction::AddOffsetToStackPointer ==> matches_format(
            opcode,
            0xFF00,
            0xB000,
        ),
        decode(opcode) == ThumbInstruction::PushPopRegisters ==> matches_format(
            opcode,
            0xF600,
            0xB600,
        ),
        decode(opcode) == ThumbInstruction::LoadStoreHalfword ==> matches_format(
            opcode,
            0xF000,
            0x8000,
        ),
        decode(opcode) == ThumbInstruction::SPRelativeLoadStore ==> matches_format(
            opcode,
            0xF000,
            0x9000,
        ),
        decode(opcode) == ThumbInstruction::LoadAddress ==> matches_format(
            opcode,
            0xF000,
            0xA000,
        ),
        decode(opcode) == ThumbInstruction::LoadStoreWithImmediateOffset ==> matches_format(
            opcode,
            0xE000,
            0x6000,
        ),
        decode(opcode) == ThumbInstruction::LoadStoreWithRegisterOffset ==> matches_format(
            opcode,
            0xF200,
            0x5000,
        ),
        decode(opcode) == ThumbInstruction::LoadStoreSignExtendedByteHalfword ==> matches_format(
            opcode,
            0xF200,
            0x5200,
        ),
        decode(opcode) == ThumbInstruction::PCRelativeLoad ==> matches_format(
            opcode,
            0xF800,
            0x4800,
        ),
        decode(opcode) == ThumbInstruction::HiRegisterOperationsBranchExchange ==> matches_format(
            opcode,
            0xFC00,
            0x4400,
        ),
        decode(opcode) == ThumbInstruction::ALUOperations ==> matches_format(
            opcode,
            0xFC00,
            0x4000,
        ),
        decode(opcode) == ThumbInstruction::MoveCompareAddSubtractImmediate ==> matches_format(
            opcode,
            0xE000,
            0x2000,
        ),
        decode(opcode) == ThumbInstruction::AddSubtract ==> matches_format(
            opcode,
            0xF800,
            0x1800,
        ),
        decode(opcode) == ThumbInstruction::MoveShiftedRegister ==> matches_format(
            opcode,
            0xE000,
            0x0000,
        ),
        (decode(opcode) == ThumbInstruction::Unimplemented) <==> !(matches_format(
            opcode,
            0xFF00,
            0xDF00,
        ) || matches_format(opcode, 0xF800, 0xE000) || matches_format(opcode, 0xF000, 0xD000)
            || matches_format(opcode, 0xF000, 0xC000) || matches_format(opcode, 0xF000, 0xF000)
            || matches_format(opcode, 0xFF00, 0xB000) || matches_format(opcode, 0xF600, 0xB600)
            || matches_format(opcode, 0xF000, 0x8000) || matches_format(opcode, 0xF000, 0x9000)
            || matches_format(opcode, 0xF000, 0xA000) || matches_format(opcode, 0xE000, 0x6000)
            || matches_format(opcode, 0xF200, 0x5000) || matches_format(opcode, 0xF200, 0x5200)
            || matches_format(opcode, 0xF800, 0x4800) || matches_format(opcode, 0xFC00, 0x4400)
            || matches_format(opcode, 0xFC00, 0x4000) || matches_format(opcode, 0xE000, 0x2000)
            || matches_format(opcode, 0xF800, 0x1800) || matches_format(opcode, 0xE000, 0x0000)),
{
}

/// Decodes the format of a THUMB opcode.
pub fn decode_instruction(opcode: u16) -> (r: ThumbInstruction)
    ensures
        r == decode(opcode),
{
    if is_software_interrupt(opcode) {
        ThumbInstruction::SoftwareInterrupt
    } else if is_unconditional_branch(opcode) {
        ThumbInstruction::UnconditionalBranch
    } else if is_conditional_branch(opcode) {
        ThumbInstruction::ConditionalBranch
    } else if is_multiple_loadstore(opcode) {
        ThumbInstruction::MultipleLoadstore
    } else if is_long_branch_with_link(opcode) {
        ThumbInstruction::LongBranchWithLink
    } else if is_add_offset_to_stack_pointer(opcode) {
        ThumbInstruction::AddOffsetToStackPointer
    } else if is_push_pop_registers(opcode) {
        ThumbInstruction::PushPopRegisters
    } else if is_load_store_halfword(opcode) {
        ThumbInstruction::LoadStoreHalfword
    } else if is_sp_relative_load_store(opcode) {
        ThumbInstruction::SPRelativeLoadStore
    } else if is_load_address(opcode) {
        ThumbInstruction::LoadAddress
    } else if is_load_store_with_immediate_offset(opcode) {
        ThumbInstruction::LoadStoreWithImmediateOffset
    } else if is_load_store_with_register_offset(opcode) {
        ThumbInstruction::LoadStoreWithRegisterOffset
    } else if is_load_store_sign_extended_byte_halfword(opcode) {
        ThumbInstruction::LoadStoreSignExtendedByteHalfword
    } else if is_pc_relative_load(opcode) {
        ThumbInstruction::PCRelativeLoad
    } else if is_hi_register_operations_branch_exchange(opcode) {
        ThumbInstruction::HiRegisterOperationsBranchExchange
    } else if is_alu_operations(opcode) {
        ThumbInstruction::ALUOperations
    } else if is_move_compare_add_subtract_immediate(opcode) {
        ThumbInstruction::MoveCompareAddSubtractImmediate
    } else if is_add_subtract(opcode) {
        ThumbInstruction::AddSubtract
    } else if is_move_shifted_register(opcode) {
        ThumbInstruction::MoveShiftedRegister
    } else {
        ThumbInstruction::Unimplemented
    }
}

fn is_software_interrupt(opcode: u16) -> (r: bool)
    ensures
        r == matches_format(opcode, 0xFF00, 0xDF00),
{
    opcode & 0xFF00 == 0xDF00
}

fn is_unconditional_branch(opcode: u16) -> (r: bool)
    ensures
        r == matches_format(opcode, 0xF800, 0xE000),
{
    opcode & 0xF800 == 0xE000
}

fn is_conditional_branch(opcode: u16) -> (r: bool)
    ensures
        r == matches_format(opcode, 0xF000, 0xD000),
{
    opcode & 0xF000 == 0xD000
}

fn is_multiple_loadstore(opcode: u16) -> (r: bool)
    ensures
        r == matches_format(opcode, 0xF000, 0xC000),
{
    opcode & 0xF000 == 0xC000
}

fn is_long_branch_with_link(opcode: u16) -> (r: bool)
    ensures
        r == matches_format(opcode, 0xF000, 0xF000),
{
    opcode & 0xF000 == 0xF000
}

fn is_add_offset_to_stack_pointer(opcode: u16) -> (r: bool)
    ensures
        r == matches_format(opcode, 0xFF00, 0xB000),
{
    opcode & 0xFF00 == 0xB000
}

fn is_push_pop_registers(opcode: u16) -> (r: bool)
    ensures
        r == matches_format(opcode, 0xF600, 0xB600),
{
    opcode & 0xF600 == 0xB600
}

fn is_load_store_halfword(opcode: u16) -> (r: bool)
    ensures
        r == matches_format(opcode, 0xF000, 0x8000),
{
    opcode & 0xF000 == 0x8000
}

fn is_sp_relative_load_store(opcode: u16) -> (r: bool)
    ensures
        r == matches_format(opcode, 0xF000, 0x9000),
{
    opcode & 0xF000 == 0x9000
}

fn is_load_address(opcode: u16) -> (r: bool)
    ensures
        r == matches_format(opcode, 0xF000, 0xA000),
{
    opcode & 0xF000 == 0xA000
}

fn is_load_store_with_immediate_offset(opcode: u16) -> (r: bool)
    ensures
        r == matches_format(opcode, 0xE000, 0x6000),
{
    opcode & 0xE000 == 0x6000
}

fn is_load_store_with_register_offset(opcode: u16) -> (r: bool)
    ensures
        r == matches_format(opcode, 0xF200, 0x5000),
{
    opcode & 0xF200 == 0x5000
}

fn is_load_store_sign_extended_byte_halfword(opcode: u16) -> (r: bool)
    ensures
        r == matches_format(opcode, 0xF200, 0x5200),
{
    opcode & 0xF200 == 0x5200
}

fn is_pc_relative_load(opcode: u16) -> (r: bool)
    ensures
        r == matches_format(opcode, 0xF800, 0x4800),
{
    opcode & 0xF800 == 0x4800
}

fn is_hi_register_operations_branch_exchange(opcode: u16) -> (r: bool)
    ensures
        r == matches_format(opcode, 0xFC00, 0x4400),
{
    opcode & 0xFC00 == 0x4400
}

fn is_alu_operations(opcode: u16) -> (r: bool)
    ensures
        r == matches_format(opcode, 0xFC00, 0x4000),
{
    opcode & 0xFC00 == 0x4000
}

fn is_move_compare_add_subtract_immediate(opcode: u16) -> (r: bool)
    ensures
        r == matches_format(opcode, 0xE000, 0x2000),
{
    opcode & 0xE000 == 0x2000
}

fn is_add_subtract(opcode: u16) -> (r: bool)
    ensures
        r == matches_format(opcode, 0xF800, 0x1800),
{
    opcode & 0xF800 == 0x1800
}

fn is_move_shifted_register(opcode: u16) -> (r: bool)
    ensures
        r == matches_format(opcode, 0xE000, 0x0000),
{
    opcode & 0xE000 == 0x0000
}

} // verus!
