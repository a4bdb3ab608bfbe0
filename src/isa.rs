//! Instruction catalogue: operand fields, modifiers, operand forms and the opcode table.
use vstd::prelude::*;

use crate::args::{
    co_reg_of, endian_of, register_of, shift_of, status_reg_of, Argument, CoReg, CpsrFlags, CpsrMode,
    Endian, OffsetImm, OffsetReg, Reg, RegList, Register, Shift, ShiftImm, ShiftReg, StatusMask, StatusReg,
};
use crate::bits::lemma_mask_bounds;

verus! {

/// Architecture versions, oldest first.
#[derive(Clone, Copy, PartialEq, Eq, Structural, Debug)]
pub enum Arch {
    /// ARMv4T
    V4T,
    /// ARMv5TE
    V5TE,
    /// ARMv6
    V6,
    /// ARMv6K
    V6K,
}

impl Arch {
    /// Rank of the version: a version has every opcode of a lower rank.
    pub open spec fn spec_level(self) -> u8 {
        match self {
            Arch::V4T => 0,
            Arch::V5TE => 1,
            Arch::V6 => 2,
            Arch::V6K => 3,
        }
    }

    /// Rank of the version.
    #[verifier::when_used_as_spec(spec_level)]
    pub fn level(self) -> (r: u8)
        ensures
            r == self.spec_level(),
    {
        match self {
            Arch::V4T => 0,
            Arch::V5TE => 1,
            Arch::V6 => 2,
            Arch::V6K => 3,
        }
    }
}

/// Instruction set of an opcode.
#[derive(Clone, Copy, PartialEq, Eq, Structural, Debug)]
pub enum Isa {
    /// 32-bit ARM instructions
    Arm,
    /// 16-bit Thumb instructions
    Thumb,
}

/// Assembler syntax in which an opcode exists.
#[derive(Clone, Copy, PartialEq, Eq, Structural, Debug)]
pub enum Flavour {
    /// Both syntaxes
    Both,
    /// Unified assembler language only (aliases such as `push`, `lsl`, `svc`)
    Ual,
    /// Divided (pre-UAL) syntax only
    Divided,
}

/// `x` rotated right by `r` bits.
pub open spec fn spec_rotate_right(x: u32, r: u32) -> u32 {
    if r == 0 {
        x
    } else {
        (x >> r) | (x << ((32 - r) as u32))
    }
}

/// `x` rotated right by `r` bits.
#[verifier::when_used_as_spec(spec_rotate_right)]
pub fn rotate_right(x: u32, r: u32) -> (v: u32)
    requires
        r < 32,
    ensures
        v == spec_rotate_right(x, r),
{
    if r == 0 {
        x
    } else {
        (x >> r) | (x << (32 - r))
    }
}

/// Amount of an immediate shift (bits 7..12); for LSR and ASR an amount of 0 stands for 32.
pub open spec fn spec_shift_amount(code: u32) -> u32 {
    let amount = (code >> 7) & 0x1f;
    let op = (code >> 5) & 3;
    if amount == 0 && (op == 1 || op == 2) {
        32
    } else {
        amount
    }
}

/// Amount of an immediate shift.
#[verifier::when_used_as_spec(spec_shift_amount)]
pub fn shift_amount(code: u32) -> (r: u32)
    ensures
        r == spec_shift_amount(code),
{
    let amount = (code >> 7) & 0x1f;
    let op = (code >> 5) & 3;
    if amount == 0 && (op == 1 || op == 2) {
        32
    } else {
        amount
    }
}

/// `v` when `add`, else `-v`.
pub open spec fn spec_signed_offset(v: u32, add: bool) -> i32 {
    (if add {
        v as int
    } else {
        -(v as int)
    }) as i32
}

/// `v` when `add`, else `-v`.
#[verifier::when_used_as_spec(spec_signed_offset)]
pub fn signed_offset(v: u32, add: bool) -> (r: i32)
    requires
        v <= 0x7fffffff,
    ensures
        r == spec_signed_offset(v, add),
{
    if add {
        v as i32
    } else {
        -(v as i32)
    }
}

/// Value of the 24-bit two's complement number `imm`.
pub open spec fn sign_extend24(imm: u32) -> int {
    if imm >= 0x800000 {
        imm as int - 0x1000000
    } else {
        imm as int
    }
}

/// Branch offset from the instruction's address: four times the signed word offset `imm`,
/// plus 2 for a halfword target `h`, plus 8 for the pipeline.
pub open spec fn spec_branch_offset(imm: u32, h: bool) -> i32 {
    (sign_extend24(imm) * 4 + 8 + if h {
        2int
    } else {
        0int
    }) as i32
}

/// Branch offset from the instruction's address.
#[verifier::when_used_as_spec(spec_branch_offset)]
pub fn branch_offset(imm: u32, h: bool) -> (r: i32)
    requires
        imm <= 0xffffff,
    ensures
        r == spec_branch_offset(imm, h),
{
    let s: i32 = if imm >= 0x800000 {
        (imm as i32) - 0x1000000
    } else {
        imm as i32
    };
    let half: i32 = if h {
        2
    } else {
        0
    };
    s * 4 + 8 + half
}

/// Amount of a Thumb immediate shift (bits 6..11); for LSR and ASR an amount of 0 stands for 32.
pub open spec fn spec_thumb_shift_amount(code: u32) -> u32 {
    let amount = (code >> 6) & 0x1f;
    let op = (code >> 11) & 3;
    if amount == 0 && (op == 1 || op == 2) {
        32
    } else {
        amount
    }
}

/// Amount of a Thumb immediate shift.
#[verifier::when_used_as_spec(spec_thumb_shift_amount)]
pub fn thumb_shift_amount(code: u32) -> (r: u32)
    ensures
        r == spec_thumb_shift_amount(code),
{
    let amount = (code >> 6) & 0x1f;
    let op = (code >> 11) & 3;
    if amount == 0 && (op == 1 || op == 2) {
        32
    } else {
        amount
    }
}

/// Thumb branch offset from the instruction's address: twice the two's complement value of
/// `v`, whose sign bit is `top`, plus 4 for the pipeline.
pub open spec fn spec_thumb_branch(v: u32, top: u32) -> i32 {
    ((if v >= top {
        v as int - 2 * top as int
    } else {
        v as int
    }) * 2 + 4) as i32
}

/// Thumb branch offset from the instruction's address.
#[verifier::when_used_as_spec(spec_thumb_branch)]
pub fn thumb_branch(v: u32, top: u32) -> (r: i32)
    requires
        v < 2 * top,
        top <= 0x200000,
    ensures
        r == spec_thumb_branch(v, top),
{
    let s: i32 = if v >= top {
        v as i32 - 2 * (top as i32)
    } else {
        v as i32
    };
    s * 2 + 4
}


/// How an operand is read from the instruction bits.
#[derive(Clone, Copy, PartialEq, Eq, Structural, Debug)]
pub enum Field {
    /// Register in bits 0..4
    Reg0,
    /// Register in bits 8..12
    Reg8,
    /// Register in bits 12..16
    Reg12,
    /// Register in bits 16..20
    Reg16,
    /// Register in bits 16..20, written back when bit 21 is set
    Reg16Wb,
    /// Base register in bits 16..20
    Base16,
    /// Base register in bits 16..20, written back when bit 21 is set
    Base16Wb,
    /// Register list in bits 0..16, user-mode registers when bit 22 is set
    RegList,
    /// Register list of the one register in bits 12..16
    RegList12,
    /// Immediate of bits 0..8 rotated right by twice bits 8..12
    RotImm,
    /// Shift of bits 5..7 by the amount of bits 7..12
    ShiftImm,
    /// Shift amount of bits 7..12
    ShiftAmount,
    /// Right rotation by eight times bits 10..12
    Rotation,
    /// Shift of bits 5..7 by the register in bits 8..12
    ShiftReg,
    /// Rotate right with extend
    Rrx,
    /// Offset of bits 0..12, added when bit 23 is set, post-indexed when bit 24 is clear
    OffImm12,
    /// Offset of bits 8..12 and 0..4, added when bit 23 is set, post-indexed when bit 24 is clear
    OffImm8,
    /// Offset of four times bits 0..8, added when bit 23 is set, post-indexed when bit 24 is clear
    OffImm8x4,
    /// Offset register in bits 0..4, added when bit 23 is set, post-indexed when bit 24 is clear
    OffReg,
    /// Status register of bit 22
    StatusReg,
    /// Status register of bit 22 with the field mask of bits 16..20
    StatusMask,
    /// Immediate of bits 0..24
    Imm24,
    /// Immediate of bits 8..20 and 0..4
    BkptImm,
    /// Branch offset of four times the signed bits 0..24, from the instruction address plus 8
    BranchDest,
    /// Branch offset of four times the signed bits 0..24 plus twice bit 24, from the instruction address plus 8
    BlxDest,
    /// Coprocessor number of bits 8..12
    CoprocNum,
    /// Coprocessor opcode of bits 20..24
    CoOpc20,
    /// Coprocessor opcode of bits 21..24
    CoOpc21,
    /// Coprocessor opcode of bits 4..8
    CoOpc4,
    /// Coprocessor opcode of bits 5..8
    CoOpc5,
    /// Coprocessor register in bits 0..4
    CoReg0,
    /// Coprocessor register in bits 12..16
    CoReg12,
    /// Coprocessor register in bits 16..20
    CoReg16,
    /// Coprocessor option of bits 0..8
    CoOption,
    /// Saturation position of bits 16..21 plus one
    SatImmS,
    /// Saturation position of bits 16..21
    SatImmU,
    /// Saturation position of bits 16..20 plus one
    SatImm16S,
    /// Saturation position of bits 16..20
    SatImm16U,
    /// Interrupt flags of bits 6..9
    CpsFlags,
    /// Processor mode of bits 0..5
    CpsMode,
    /// Endianness of bit 9
    EndianE,
    /// Low register in bits 0..3
    TReg0,
    /// Low register in bits 3..6
    TReg3,
    /// Low register in bits 6..9
    TReg6,
    /// Low register in bits 8..11
    TReg8,
    /// Register in bits 0..3 with bit 7 on top
    THi0,
    /// Register in bits 3..7
    THi3,
    /// Shift amount of bits 6..11; for LSR and ASR an amount of 0 stands for 32
    TShiftAmount,
    /// Immediate of bits 6..9
    TImm3,
    /// Immediate of bits 0..8
    TImm8,
    /// Four times the immediate of bits 0..8
    TImm8x4,
    /// Four times the immediate of bits 0..7
    TImm7x4,
    /// Base register in bits 3..6
    TBase3,
    /// Offset register in bits 6..9, added
    TOffReg6,
    /// Offset of bits 6..11
    TOffImm5,
    /// Offset of twice bits 6..11
    TOffImm5x2,
    /// Offset of four times bits 6..11
    TOffImm5x4,
    /// Offset of four times bits 0..8
    TOffImm8x4,
    /// The program counter as base register
    TPcBase,
    /// The stack pointer as base register
    TSpBase,
    /// The program counter
    TPc,
    /// The stack pointer
    TSp,
    /// Register list of bits 0..8, with LR when bit 8 is set
    TPushList,
    /// Register list of bits 0..8, with PC when bit 8 is set
    TPopList,
    /// Register list of bits 0..8
    TRegList8,
    /// Base register in bits 8..11, written back
    TBaseWb,
    /// Base register in bits 8..11, written back when it is not in the list
    TBaseWbUnlisted,
    /// Branch offset of twice the signed bits 0..8, from the instruction address plus 4
    TBranch8,
    /// Branch offset of twice the signed bits 0..11, from the instruction address plus 4
    TBranch11,
    /// Branch offset that the upper half of a long branch gives with a lower half of zero
    TBlHigh,
    /// Branch offset of a long branch: bits 16..27 on top of bits 0..11
    TBlLong,
    /// Interrupt flags of bits 0..3
    TCpsFlags,
    /// Endianness of bit 3
    TEndian,
}

/// The operand that field `f` reads from `code`.
pub open spec fn field_value(f: Field, code: u32) -> Argument {
    match f {
        Field::Reg0 => Argument::Reg(Reg { deref: false, reg: register_of((code >> 0) & 0xf), writeback: false }),
        Field::Reg8 => Argument::Reg(Reg { deref: false, reg: register_of((code >> 8) & 0xf), writeback: false }),
        Field::Reg12 => Argument::Reg(Reg { deref: false, reg: register_of((code >> 12) & 0xf), writeback: false }),
        Field::Reg16 => Argument::Reg(Reg { deref: false, reg: register_of((code >> 16) & 0xf), writeback: false }),
        Field::Reg16Wb => Argument::Reg(Reg { deref: false, reg: register_of((code >> 16) & 0xf), writeback: (code >> 21) & 1 == 1 }),
        Field::Base16 => Argument::Reg(Reg { deref: true, reg: register_of((code >> 16) & 0xf), writeback: false }),
        Field::Base16Wb => Argument::Reg(Reg { deref: true, reg: register_of((code >> 16) & 0xf), writeback: (code >> 21) & 1 == 1 }),
        Field::RegList => Argument::RegList(RegList { regs: code & 0xffff, user_mode: (code >> 22) & 1 == 1 }),
        Field::RegList12 => Argument::RegList(RegList { regs: 1u32 << ((code >> 12) & 0xf), user_mode: false }),
        Field::RotImm => Argument::UImm(rotate_right(code & 0xff, (((code >> 8) & 0xf) * 2) as u32)),
        Field::ShiftImm => Argument::ShiftImm(ShiftImm { op: shift_of((code >> 5) & 3), imm: shift_amount(code) }),
        Field::ShiftAmount => Argument::UImm(shift_amount(code)),
        Field::Rotation => Argument::ShiftImm(ShiftImm { op: Shift::Ror, imm: (((code >> 10) & 3) * 8) as u32 }),
        Field::ShiftReg => Argument::ShiftReg(ShiftReg { op: shift_of((code >> 5) & 3), reg: register_of((code >> 8) & 0xf) }),
        Field::Rrx => Argument::Shift(Shift::Rrx),
        Field::OffImm12 => Argument::OffsetImm(OffsetImm { post_indexed: !((code >> 24) & 1 == 1), value: signed_offset(code & 0xfff, (code >> 23) & 1 == 1) }),
        Field::OffImm8 => Argument::OffsetImm(OffsetImm { post_indexed: !((code >> 24) & 1 == 1), value: signed_offset(((code >> 4) & 0xf0) | (code & 0xf), (code >> 23) & 1 == 1) }),
        Field::OffImm8x4 => Argument::OffsetImm(OffsetImm { post_indexed: !((code >> 24) & 1 == 1), value: signed_offset(((code & 0xff) * 4) as u32, (code >> 23) & 1 == 1) }),
        Field::OffReg => Argument::OffsetReg(OffsetReg { add: (code >> 23) & 1 == 1, post_indexed: !((code >> 24) & 1 == 1), reg: register_of(code & 0xf) }),
        Field::StatusReg => Argument::StatusReg(status_reg_of((code >> 22) & 1)),
        Field::StatusMask => Argument::StatusMask(StatusMask { control: (code >> 16) & 1 == 1, extension: (code >> 17) & 1 == 1, flags: (code >> 19) & 1 == 1, reg: status_reg_of((code >> 22) & 1), status: (code >> 18) & 1 == 1 }),
        Field::Imm24 => Argument::UImm(code & 0xffffff),
        Field::BkptImm => Argument::UImm(((code >> 4) & 0xfff0) | (code & 0xf)),
        Field::BranchDest => Argument::BranchDest(branch_offset(code & 0xffffff, false)),
        Field::BlxDest => Argument::BranchDest(branch_offset(code & 0xffffff, (code >> 24) & 1 == 1)),
        Field::CoprocNum => Argument::CoprocNum((code >> 8) & 0xf),
        Field::CoOpc20 => Argument::CoOpcode((code >> 20) & 0xf),
        Field::CoOpc21 => Argument::CoOpcode((code >> 21) & 7),
        Field::CoOpc4 => Argument::CoOpcode((code >> 4) & 0xf),
        Field::CoOpc5 => Argument::CoOpcode((code >> 5) & 7),
        Field::CoReg0 => Argument::CoReg(co_reg_of(code & 0xf)),
        Field::CoReg12 => Argument::CoReg(co_reg_of((code >> 12) & 0xf)),
        Field::CoReg16 => Argument::CoReg(co_reg_of((code >> 16) & 0xf)),
        Field::CoOption => Argument::CoOption(code & 0xff),
        Field::SatImmS => Argument::SatImm((((code >> 16) & 0x1f) + 1) as u32),
        Field::SatImmU => Argument::SatImm((code >> 16) & 0x1f),
        Field::SatImm16S => Argument::SatImm((((code >> 16) & 0xf) + 1) as u32),
        Field::SatImm16U => Argument::SatImm((code >> 16) & 0xf),
        Field::CpsFlags => Argument::CpsrFlags(CpsrFlags { a: (code >> 8) & 1 == 1, i: (code >> 7) & 1 == 1, f: (code >> 6) & 1 == 1 }),
        Field::CpsMode => Argument::CpsrMode(CpsrMode { mode: code & 0x1f, writeback: false }),
        Field::EndianE => Argument::Endian(endian_of((code >> 9) & 1)),
        Field::TReg0 => Argument::Reg(Reg { deref: false, reg: register_of((code >> 0) & 7), writeback: false }),
        Field::TReg3 => Argument::Reg(Reg { deref: false, reg: register_of((code >> 3) & 7), writeback: false }),
        Field::TReg6 => Argument::Reg(Reg { deref: false, reg: register_of((code >> 6) & 7), writeback: false }),
        Field::TReg8 => Argument::Reg(Reg { deref: false, reg: register_of((code >> 8) & 7), writeback: false }),
        Field::THi0 => Argument::Reg(Reg { deref: false, reg: register_of(((code >> 4) & 8) | (code & 7)), writeback: false }),
        Field::THi3 => Argument::Reg(Reg { deref: false, reg: register_of((code >> 3) & 0xf), writeback: false }),
        Field::TShiftAmount => Argument::UImm(thumb_shift_amount(code)),
        Field::TImm3 => Argument::UImm((code >> 6) & 7),
        Field::TImm8 => Argument::UImm(code & 0xff),
        Field::TImm8x4 => Argument::UImm(((code & 0xff) * 4) as u32),
        Field::TImm7x4 => Argument::UImm(((code & 0x7f) * 4) as u32),
        Field::TBase3 => Argument::Reg(Reg { deref: true, reg: register_of((code >> 3) & 7), writeback: false }),
        Field::TOffReg6 => Argument::OffsetReg(OffsetReg { add: true, post_indexed: false, reg: register_of((code >> 6) & 7) }),
        Field::TOffImm5 => Argument::OffsetImm(OffsetImm { post_indexed: false, value: ((code >> 6) & 0x1f) as i32 }),
        Field::TOffImm5x2 => Argument::OffsetImm(OffsetImm { post_indexed: false, value: (((code >> 6) & 0x1f) * 2) as i32 }),
        Field::TOffImm5x4 => Argument::OffsetImm(OffsetImm { post_indexed: false, value: (((code >> 6) & 0x1f) * 4) as i32 }),
        Field::TOffImm8x4 => Argument::OffsetImm(OffsetImm { post_indexed: false, value: ((code & 0xff) * 4) as i32 }),
        Field::TPcBase => Argument::Reg(Reg { deref: true, reg: Register::Pc, writeback: false }),
        Field::TSpBase => Argument::Reg(Reg { deref: true, reg: Register::Sp, writeback: false }),
        Field::TPc => Argument::Reg(Reg { deref: false, reg: Register::Pc, writeback: false }),
        Field::TSp => Argument::Reg(Reg { deref: false, reg: Register::Sp, writeback: false }),
        Field::TPushList => Argument::RegList(RegList { regs: (code & 0xff) | (((code >> 8) & 1) << 14), user_mode: false }),
        Field::TPopList => Argument::RegList(RegList { regs: (code & 0xff) | (((code >> 8) & 1) << 15), user_mode: false }),
        Field::TRegList8 => Argument::RegList(RegList { regs: code & 0xff, user_mode: false }),
        Field::TBaseWb => Argument::Reg(Reg { deref: false, reg: register_of((code >> 8) & 7), writeback: true }),
        Field::TBaseWbUnlisted => Argument::Reg(Reg { deref: false, reg: register_of((code >> 8) & 7), writeback: (code & 0xff) & (1u32 << ((code >> 8) & 7)) == 0 }),
        Field::TBranch8 => Argument::BranchDest(thumb_branch(code & 0xff, 0x80)),
        Field::TBranch11 => Argument::BranchDest(thumb_branch(code & 0x7ff, 0x400)),
        Field::TBlHigh => Argument::BranchDest(thumb_branch((code & 0x7ff) << 11, 0x200000)),
        Field::TBlLong => Argument::BranchDest(thumb_branch((((code >> 16) & 0x7ff) << 11) | (code & 0x7ff), 0x200000)),
        Field::TCpsFlags => Argument::CpsrFlags(CpsrFlags { a: (code >> 2) & 1 == 1, i: (code >> 1) & 1 == 1, f: code & 1 == 1 }),
        Field::TEndian => Argument::Endian(endian_of((code >> 3) & 1)),
    }
}

/// Reads the operand of field `f` from `code`.
pub fn read_field(f: Field, code: u32) -> (a: Argument)
    ensures
        a == field_value(f, code),
{
    proof {
        lemma_mask_bounds();
    }
    match f {
        Field::Reg0 => Argument::Reg(Reg { deref: false, reg: Register::parse((code >> 0) & 0xf), writeback: false }),
        Field::Reg8 => Argument::Reg(Reg { deref: false, reg: Register::parse((code >> 8) & 0xf), writeback: false }),
        Field::Reg12 => Argument::Reg(Reg { deref: false, reg: Register::parse((code >> 12) & 0xf), writeback: false }),
        Field::Reg16 => Argument::Reg(Reg { deref: false, reg: Register::parse((code >> 16) & 0xf), writeback: false }),
        Field::Reg16Wb => Argument::Reg(Reg { deref: false, reg: Register::parse((code >> 16) & 0xf), writeback: (code >> 21) & 1 == 1 }),
        Field::Base16 => Argument::Reg(Reg { deref: true, reg: Register::parse((code >> 16) & 0xf), writeback: false }),
        Field::Base16Wb => Argument::Reg(Reg { deref: true, reg: Register::parse((code >> 16) & 0xf), writeback: (code >> 21) & 1 == 1 }),
        Field::RegList => Argument::RegList(RegList { regs: code & 0xffff, user_mode: (code >> 22) & 1 == 1 }),
        Field::RegList12 => Argument::RegList(RegList { regs: 1u32 << ((code >> 12) & 0xf), user_mode: false }),
        Field::RotImm => Argument::UImm(rotate_right(code & 0xff, (((code >> 8) & 0xf) * 2) as u32)),
        Field::ShiftImm => Argument::ShiftImm(ShiftImm { op: Shift::parse((code >> 5) & 3), imm: shift_amount(code) }),
        Field::ShiftAmount => Argument::UImm(shift_amount(code)),
        Field::Rotation => Argument::ShiftImm(ShiftImm { op: Shift::Ror, imm: (((code >> 10) & 3) * 8) as u32 }),
        Field::ShiftReg => Argument::ShiftReg(ShiftReg { op: Shift::parse((code >> 5) & 3), reg: Register::parse((code >> 8) & 0xf) }),
        Field::Rrx => Argument::Shift(Shift::Rrx),
        Field::OffImm12 => Argument::OffsetImm(OffsetImm { post_indexed: !((code >> 24) & 1 == 1), value: signed_offset(code & 0xfff, (code >> 23) & 1 == 1) }),
        Field::OffImm8 => Argument::OffsetImm(OffsetImm { post_indexed: !((code >> 24) & 1 == 1), value: signed_offset(((code >> 4) & 0xf0) | (code & 0xf), (code >> 23) & 1 == 1) }),
        Field::OffImm8x4 => Argument::OffsetImm(OffsetImm { post_indexed: !((code >> 24) & 1 == 1), value: signed_offset(((code & 0xff) * 4) as u32, (code >> 23) & 1 == 1) }),
        Field::OffReg => Argument::OffsetReg(OffsetReg { add: (code >> 23) & 1 == 1, post_indexed: !((code >> 24) & 1 == 1), reg: Register::parse(code & 0xf) }),
        Field::StatusReg => Argument::StatusReg(StatusReg::parse((code >> 22) & 1)),
        Field::StatusMask => Argument::StatusMask(StatusMask { control: (code >> 16) & 1 == 1, extension: (code >> 17) & 1 == 1, flags: (code >> 19) & 1 == 1, reg: StatusReg::parse((code >> 22) & 1), status: (code >> 18) & 1 == 1 }),
        Field::Imm24 => Argument::UImm(code & 0xffffff),
        Field::BkptImm => Argument::UImm(((code >> 4) & 0xfff0) | (code & 0xf)),
        Field::BranchDest => Argument::BranchDest(branch_offset(code & 0xffffff, false)),
        Field::BlxDest => Argument::BranchDest(branch_offset(code & 0xffffff, (code >> 24) & 1 == 1)),
        Field::CoprocNum => Argument::CoprocNum((code >> 8) & 0xf),
        Field::CoOpc20 => Argument::CoOpcode((code >> 20) & 0xf),
        Field::CoOpc21 => Argument::CoOpcode((code >> 21) & 7),
        Field::CoOpc4 => Argument::CoOpcode((code >> 4) & 0xf),
        Field::CoOpc5 => Argument::CoOpcode((code >> 5) & 7),
        Field::CoReg0 => Argument::CoReg(CoReg::parse(code & 0xf)),
        Field::CoReg12 => Argument::CoReg(CoReg::parse((code >> 12) & 0xf)),
        Field::CoReg16 => Argument::CoReg(CoReg::parse((code >> 16) & 0xf)),
        Field::CoOption => Argument::CoOption(code & 0xff),
        Field::SatImmS => Argument::SatImm(((code >> 16) & 0x1f) + 1),
        Field::SatImmU => Argument::SatImm((code >> 16) & 0x1f),
        Field::SatImm16S => Argument::SatImm(((code >> 16) & 0xf) + 1),
        Field::SatImm16U => Argument::SatImm((code >> 16) & 0xf),
        Field::CpsFlags => Argument::CpsrFlags(CpsrFlags { a: (code >> 8) & 1 == 1, i: (code >> 7) & 1 == 1, f: (code >> 6) & 1 == 1 }),
        Field::CpsMode => Argument::CpsrMode(CpsrMode { mode: code & 0x1f, writeback: false }),
        Field::EndianE => Argument::Endian(Endian::parse((code >> 9) & 1)),
        Field::TReg0 => Argument::Reg(Reg { deref: false, reg: Register::parse((code >> 0) & 7), writeback: false }),
        Field::TReg3 => Argument::Reg(Reg { deref: false, reg: Register::parse((code >> 3) & 7), writeback: false }),
        Field::TReg6 => Argument::Reg(Reg { deref: false, reg: Register::parse((code >> 6) & 7), writeback: false }),
        Field::TReg8 => Argument::Reg(Reg { deref: false, reg: Register::parse((code >> 8) & 7), writeback: false }),
        Field::THi0 => Argument::Reg(Reg { deref: false, reg: Register::parse(((code >> 4) & 8) | (code & 7)), writeback: false }),
        Field::THi3 => Argument::Reg(Reg { deref: false, reg: Register::parse((code >> 3) & 0xf), writeback: false }),
        Field::TShiftAmount => Argument::UImm(thumb_shift_amount(code)),
        Field::TImm3 => Argument::UImm((code >> 6) & 7),
        Field::TImm8 => Argument::UImm(code & 0xff),
        Field::TImm8x4 => Argument::UImm(((code & 0xff) * 4) as u32),
        Field::TImm7x4 => Argument::UImm(((code & 0x7f) * 4) as u32),
        Field::TBase3 => Argument::Reg(Reg { deref: true, reg: Register::parse((code >> 3) & 7), writeback: false }),
        Field::TOffReg6 => Argument::OffsetReg(OffsetReg { add: true, post_indexed: false, reg: Register::parse((code >> 6) & 7) }),
        Field::TOffImm5 => Argument::OffsetImm(OffsetImm { post_indexed: false, value: ((code >> 6) & 0x1f) as i32 }),
        Field::TOffImm5x2 => Argument::OffsetImm(OffsetImm { post_indexed: false, value: (((code >> 6) & 0x1f) * 2) as i32 }),
        Field::TOffImm5x4 => Argument::OffsetImm(OffsetImm { post_indexed: false, value: (((code >> 6) & 0x1f) * 4) as i32 }),
        Field::TOffImm8x4 => Argument::OffsetImm(OffsetImm { post_indexed: false, value: ((code & 0xff) * 4) as i32 }),
        Field::TPcBase => Argument::Reg(Reg { deref: true, reg: Register::Pc, writeback: false }),
        Field::TSpBase => Argument::Reg(Reg { deref: true, reg: Register::Sp, writeback: false }),
        Field::TPc => Argument::Reg(Reg { deref: false, reg: Register::Pc, writeback: false }),
        Field::TSp => Argument::Reg(Reg { deref: false, reg: Register::Sp, writeback: false }),
        Field::TPushList => Argument::RegList(RegList { regs: (code & 0xff) | (((code >> 8) & 1) << 14), user_mode: false }),
        Field::TPopList => Argument::RegList(RegList { regs: (code & 0xff) | (((code >> 8) & 1) << 15), user_mode: false }),
        Field::TRegList8 => Argument::RegList(RegList { regs: code & 0xff, user_mode: false }),
        Field::TBaseWb => Argument::Reg(Reg { deref: false, reg: Register::parse((code >> 8) & 7), writeback: true }),
        Field::TBaseWbUnlisted => Argument::Reg(Reg { deref: false, reg: Register::parse((code >> 8) & 7), writeback: (code & 0xff) & (1u32 << ((code >> 8) & 7)) == 0 }),
        Field::TBranch8 => Argument::BranchDest(thumb_branch(code & 0xff, 0x80)),
        Field::TBranch11 => Argument::BranchDest(thumb_branch(code & 0x7ff, 0x400)),
        Field::TBlHigh => Argument::BranchDest(thumb_branch((code & 0x7ff) << 11, 0x200000)),
        Field::TBlLong => Argument::BranchDest(thumb_branch((((code >> 16) & 0x7ff) << 11) | (code & 0x7ff), 0x200000)),
        Field::TCpsFlags => Argument::CpsrFlags(CpsrFlags { a: (code >> 2) & 1 == 1, i: (code >> 1) & 1 == 1, f: code & 1 == 1 }),
        Field::TEndian => Argument::Endian(Endian::parse((code >> 3) & 1)),
    }
}

/// A named predicate on the instruction bits that selects a mnemonic suffix and extra operands.
#[derive(Clone, Copy, PartialEq, Eq, Structural, Debug)]
pub enum Modifier {
    /// Condition code of bits 28..32
    Cond,
    /// `s` when bit 20 updates the flags
    SetFlags,
    /// Addressing mode of bits 23..25; UAL leaves out the default `ia`
    LdmMode,
    /// Addressing mode of bits 23..25
    RfeMode,
    /// `l` for a long coprocessor transfer (bit 22)
    LongCo,
    /// Second operand of a data-processing instruction
    Op2,
    /// Word and unsigned byte addressing of base and offset
    Addr2,
    /// Halfword, signed byte and doubleword addressing of base and offset
    Addr3,
    /// Coprocessor addressing of base and offset
    Addr5,
    /// Shift of a register operand, left out when it is a left shift by zero
    OptShift,
    /// Rotation of the extended operand, left out when it is zero
    Rotate,
    /// `x` when bit 5 exchanges the halfwords of the second operand
    Exchange,
    /// `r` when bit 5 rounds the result
    Round,
    /// Half of the first operand: `t` for the top one when bit 5 is set, else `b`
    HalfX,
    /// Half of the second operand: `t` for the top one when bit 6 is set, else `b`
    HalfY,
    /// Interrupt enable (`ie`) or disable (`id`) of bits 18..20 with its flags
    CpsEffect,
    /// Processor mode, present when bit 17 is set
    CpsModeOpt,
    /// `s` of flag-setting low-register operations in the unified syntax
    ThumbS,
    /// `ia` of multiple loads and stores in the divided syntax
    ThumbIa,
    /// Condition code of bits 8..12
    ThumbCond,
    /// Interrupt disable (`id`, bit 4) or enable (`ie`) with its flags
    ThumbCpsEffect,
}

/// The case of modifier `m` that `code` selects: its suffix and its extra operand fields, or
/// `None` when no case matches. `ual` selects the unified assembler spelling.
pub open spec fn modifier_case(m: Modifier, code: u32, ual: bool) -> Option<(Seq<char>, Seq<Field>)> {
    match m {
        Modifier::Cond => {
            if code & 0xf0000000 == 0x00000000 {
                Some(("eq"@, Seq::empty()))
            } else if code & 0xf0000000 == 0x10000000 {
                Some(("ne"@, Seq::empty()))
            } else if code & 0xf0000000 == 0x20000000 {
                Some(("hs"@, Seq::empty()))
            } else if code & 0xf0000000 == 0x30000000 {
                Some(("lo"@, Seq::empty()))
            } else if code & 0xf0000000 == 0x40000000 {
                Some(("mi"@, Seq::empty()))
            } else if code & 0xf0000000 == 0x50000000 {
                Some(("pl"@, Seq::empty()))
            } else if code & 0xf0000000 == 0x60000000 {
                Some(("vs"@, Seq::empty()))
            } else if code & 0xf0000000 == 0x70000000 {
                Some(("vc"@, Seq::empty()))
            } else if code & 0xf0000000 == 0x80000000 {
                Some(("hi"@, Seq::empty()))
            } else if code & 0xf0000000 == 0x90000000 {
                Some(("ls"@, Seq::empty()))
            } else if code & 0xf0000000 == 0xa0000000 {
                Some(("ge"@, Seq::empty()))
            } else if code & 0xf0000000 == 0xb0000000 {
                Some(("lt"@, Seq::empty()))
            } else if code & 0xf0000000 == 0xc0000000 {
                Some(("gt"@, Seq::empty()))
            } else if code & 0xf0000000 == 0xd0000000 {
                Some(("le"@, Seq::empty()))
            } else if code & 0xf0000000 == 0xe0000000 {
                Some((""@, Seq::empty()))
            } else {
                None
            }
        },
        Modifier::SetFlags => {
            if code & 0x00100000 == 0x00100000 {
                Some(("s"@, Seq::empty()))
            } else if code & 0x00100000 == 0x00000000 {
                Some((""@, Seq::empty()))
            } else {
                None
            }
        },
        Modifier::LdmMode => {
            if code & 0x01800000 == 0x00000000 {
                Some(("da"@, Seq::empty()))
            } else if code & 0x01800000 == 0x00800000 {
                Some(((if ual { ""@ } else { "ia"@ }), Seq::empty()))
            } else if code & 0x01800000 == 0x01000000 {
                Some(("db"@, Seq::empty()))
            } else if code & 0x01800000 == 0x01800000 {
                Some(("ib"@, Seq::empty()))
            } else {
                None
            }
        },
        Modifier::RfeMode => {
            if code & 0x01800000 == 0x00000000 {
                Some(("da"@, Seq::empty()))
            } else if code & 0x01800000 == 0x00800000 {
                Some(("ia"@, Seq::empty()))
            } else if code & 0x01800000 == 0x01000000 {
                Some(("db"@, Seq::empty()))
            } else if code & 0x01800000 == 0x01800000 {
                Some(("ib"@, Seq::empty()))
            } else {
                None
            }
        },
        Modifier::LongCo => {
            if code & 0x00400000 == 0x00400000 {
                Some(("l"@, Seq::empty()))
            } else if code & 0x00400000 == 0x00000000 {
                Some((""@, Seq::empty()))
            } else {
                None
            }
        },
        Modifier::Op2 => {
            if code & 0x02000ff0 == 0x00000000 {
                Some((""@, seq![Field::Reg0]))
            } else if code & 0x02000ff0 == 0x00000060 {
                Some((""@, seq![Field::Reg0, Field::Rrx]))
            } else if code & 0x02000090 == 0x00000010 {
                Some((""@, seq![Field::Reg0, Field::ShiftReg]))
            } else if code & 0x02000010 == 0x00000000 {
                Some((""@, seq![Field::Reg0, Field::ShiftImm]))
            } else if code & 0x02000000 == 0x02000000 {
                Some((""@, seq![Field::RotImm]))
            } else {
                None
            }
        },
        Modifier::Addr2 => {
            if code & 0x03000ff0 == 0x03000000 {
                Some((""@, seq![Field::Base16Wb, Field::OffReg]))
            } else if code & 0x03000ff0 == 0x03000060 {
                Some((""@, seq![Field::Base16Wb, Field::OffReg, Field::Rrx]))
            } else if code & 0x03000ff0 == 0x02000000 {
                Some((""@, seq![Field::Base16, Field::OffReg]))
            } else if code & 0x03000ff0 == 0x02000060 {
                Some((""@, seq![Field::Base16, Field::OffReg, Field::Rrx]))
            } else if code & 0x03000010 == 0x03000000 {
                Some((""@, seq![Field::Base16Wb, Field::OffReg, Field::ShiftImm]))
            } else if code & 0x03000010 == 0x02000000 {
                Some((""@, seq![Field::Base16, Field::OffReg, Field::ShiftImm]))
            } else if code & 0x03000000 == 0x01000000 {
                Some((""@, seq![Field::Base16Wb, Field::OffImm12]))
            } else if code & 0x03000000 == 0x00000000 {
                Some((""@, seq![Field::Base16, Field::OffImm12]))
            } else {
                None
            }
        },
        Modifier::Addr3 => {
            if code & 0x01400000 == 0x01400000 {
                Some((""@, seq![Field::Base16Wb, Field::OffImm8]))
            } else if code & 0x01400000 == 0x00400000 {
                Some((""@, seq![Field::Base16, Field::OffImm8]))
            } else if code & 0x01400000 == 0x01000000 {
                Some((""@, seq![Field::Base16Wb, Field::OffReg]))
            } else if code & 0x01400000 == 0x00000000 {
                Some((""@, seq![Field::Base16, Field::OffReg]))
            } else {
                None
            }
        },
        Modifier::Addr5 => {
            if code & 0x01a00000 == 0x00a00000 {
                Some((""@, seq![Field::Base16, Field::OffImm8x4]))
            } else if code & 0x01a00000 == 0x00200000 {
                Some((""@, seq![Field::Base16, Field::OffImm8x4]))
            } else if code & 0x01a00000 == 0x00800000 {
                Some((""@, seq![Field::Base16, Field::CoOption]))
            } else if code & 0x01000000 == 0x01000000 {
                Some((""@, seq![Field::Base16Wb, Field::OffImm8x4]))
            } else {
                None
            }
        },
        Modifier::OptShift => {
            if code & 0x00000fc0 == 0x00000000 {
                Some((""@, Seq::empty()))
            } else {
                Some((""@, seq![Field::ShiftImm]))
            }
        },
        Modifier::Rotate => {
            if code & 0x00000c00 == 0x00000000 {
                Some((""@, Seq::empty()))
            } else {
                Some((""@, seq![Field::Rotation]))
            }
        },
        Modifier::Exchange => {
            if code & 0x00000020 == 0x00000020 {
                Some(("x"@, Seq::empty()))
            } else if code & 0x00000020 == 0x00000000 {
                Some((""@, Seq::empty()))
            } else {
                None
            }
        },
        Modifier::Round => {
            if code & 0x00000020 == 0x00000020 {
                Some(("r"@, Seq::empty()))
            } else if code & 0x00000020 == 0x00000000 {
                Some((""@, Seq::empty()))
            } else {
                None
            }
        },
        Modifier::HalfX => {
            if code & 0x00000020 == 0x00000020 {
                Some(("t"@, Seq::empty()))
            } else if code & 0x00000020 == 0x00000000 {
                Some(("b"@, Seq::empty()))
            } else {
                None
            }
        },
        Modifier::HalfY => {
            if code & 0x00000040 == 0x00000040 {
                Some(("t"@, Seq::empty()))
            } else if code & 0x00000040 == 0x00000000 {
                Some(("b"@, Seq::empty()))
            } else {
                None
            }
        },
        Modifier::CpsEffect => {
            if code & 0x000c0000 == 0x00000000 {
                Some((""@, Seq::empty()))
            } else if code & 0x000c0000 == 0x00080000 {
                Some(("ie"@, seq![Field::CpsFlags]))
            } else if code & 0x000c0000 == 0x000c0000 {
                Some(("id"@, seq![Field::CpsFlags]))
            } else {
                None
            }
        },
        Modifier::CpsModeOpt => {
            if code & 0x00020000 == 0x00020000 {
                Some((""@, seq![Field::CpsMode]))
            } else if code & 0x00020000 == 0x00000000 {
                Some((""@, Seq::empty()))
            } else {
                None
            }
        },
        Modifier::ThumbS => Some(((if ual { "s"@ } else { ""@ }), Seq::empty())),
        Modifier::ThumbIa => Some(((if ual { ""@ } else { "ia"@ }), Seq::empty())),
        Modifier::ThumbCond => {
            if code & 0x00000f00 == 0x00000000 {
                Some(("eq"@, Seq::empty()))
            } else if code & 0x00000f00 == 0x00000100 {
                Some(("ne"@, Seq::empty()))
            } else if code & 0x00000f00 == 0x00000200 {
                Some(("hs"@, Seq::empty()))
            } else if code & 0x00000f00 == 0x00000300 {
                Some(("lo"@, Seq::empty()))
            } else if code & 0x00000f00 == 0x00000400 {
                Some(("mi"@, Seq::empty()))
            } else if code & 0x00000f00 == 0x00000500 {
                Some(("pl"@, Seq::empty()))
            } else if code & 0x00000f00 == 0x00000600 {
                Some(("vs"@, Seq::empty()))
            } else if code & 0x00000f00 == 0x00000700 {
                Some(("vc"@, Seq::empty()))
            } else if code & 0x00000f00 == 0x00000800 {
                Some(("hi"@, Seq::empty()))
            } else if code & 0x00000f00 == 0x00000900 {
                Some(("ls"@, Seq::empty()))
            } else if code & 0x00000f00 == 0x00000a00 {
                Some(("ge"@, Seq::empty()))
            } else if code & 0x00000f00 == 0x00000b00 {
                Some(("lt"@, Seq::empty()))
            } else if code & 0x00000f00 == 0x00000c00 {
                Some(("gt"@, Seq::empty()))
            } else if code & 0x00000f00 == 0x00000d00 {
                Some(("le"@, Seq::empty()))
            } else {
                None
            }
        },
        Modifier::ThumbCpsEffect => {
            if code & 0x00000010 == 0x00000010 {
                Some(("id"@, seq![Field::TCpsFlags]))
            } else if code & 0x00000010 == 0x00000000 {
                Some(("ie"@, seq![Field::TCpsFlags]))
            } else {
                None
            }
        },
    }
}

/// Evaluates modifier `m` on `code`.
pub fn eval_modifier(m: Modifier, code: u32, ual: bool) -> (r: Option<(&'static str, Vec<Field>)>)
    ensures
        match r {
            Some(c) => modifier_case(m, code, ual) == Some((c.0@, c.1@)),
            None => modifier_case(m, code, ual).is_none(),
        },
{
    match m {
        Modifier::Cond => {
            if code & 0xf0000000 == 0x00000000 {
                Some(("eq", Vec::new()))
            } else if code & 0xf0000000 == 0x10000000 {
                Some(("ne", Vec::new()))
            } else if code & 0xf0000000 == 0x20000000 {
                Some(("hs", Vec::new()))
            } else if code & 0xf0000000 == 0x30000000 {
                Some(("lo", Vec::new()))
            } else if code & 0xf0000000 == 0x40000000 {
                Some(("mi", Vec::new()))
            } else if code & 0xf0000000 == 0x50000000 {
                Some(("pl", Vec::new()))
            } else if code & 0xf0000000 == 0x60000000 {
                Some(("vs", Vec::new()))
            } else if code & 0xf0000000 == 0x70000000 {
                Some(("vc", Vec::new()))
            } else if code & 0xf0000000 == 0x80000000 {
                Some(("hi", Vec::new()))
            } else if code & 0xf0000000 == 0x90000000 {
                Some(("ls", Vec::new()))
            } else if code & 0xf0000000 == 0xa0000000 {
                Some(("ge", Vec::new()))
            } else if code & 0xf0000000 == 0xb0000000 {
                Some(("lt", Vec::new()))
            } else if code & 0xf0000000 == 0xc0000000 {
                Some(("gt", Vec::new()))
            } else if code & 0xf0000000 == 0xd0000000 {
                Some(("le", Vec::new()))
            } else if code & 0xf0000000 == 0xe0000000 {
                Some(("", Vec::new()))
            } else {
                None
            }
        },
        Modifier::SetFlags => {
            if code & 0x00100000 == 0x00100000 {
                Some(("s", Vec::new()))
            } else if code & 0x00100000 == 0x00000000 {
                Some(("", Vec::new()))
            } else {
                None
            }
        },
        Modifier::LdmMode => {
            if code & 0x01800000 == 0x00000000 {
                Some(("da", Vec::new()))
            } else if code & 0x01800000 == 0x00800000 {
                Some(((if ual { "" } else { "ia" }), Vec::new()))
            } else if code & 0x01800000 == 0x01000000 {
                Some(("db", Vec::new()))
            } else if code & 0x01800000 == 0x01800000 {
                Some(("ib", Vec::new()))
            } else {
                None
            }
        },
        Modifier::RfeMode => {
            if code & 0x01800000 == 0x00000000 {
                Some(("da", Vec::new()))
            } else if code & 0x01800000 == 0x00800000 {
                Some(("ia", Vec::new()))
            } else if code & 0x01800000 == 0x01000000 {
                Some(("db", Vec::new()))
            } else if code & 0x01800000 == 0x01800000 {
                Some(("ib", Vec::new()))
            } else {
                None
            }
        },
        Modifier::LongCo => {
            if code & 0x00400000 == 0x00400000 {
                Some(("l", Vec::new()))
            } else if code & 0x00400000 == 0x00000000 {
                Some(("", Vec::new()))
            } else {
                None
            }
        },
        Modifier::Op2 => {
            if code & 0x02000ff0 == 0x00000000 {
                Some(("", vec![Field::Reg0]))
            } else if code & 0x02000ff0 == 0x00000060 {
                Some(("", vec![Field::Reg0, Field::Rrx]))
            } else if code & 0x02000090 == 0x00000010 {
                Some(("", vec![Field::Reg0, Field::ShiftReg]))
            } else if code & 0x02000010 == 0x00000000 {
                Some(("", vec![Field::Reg0, Field::ShiftImm]))
            } else if code & 0x02000000 == 0x02000000 {
                Some(("", vec![Field::RotImm]))
            } else {
                None
            }
        },
        Modifier::Addr2 => {
            if code & 0x03000ff0 == 0x03000000 {
                Some(("", vec![Field::Base16Wb, Field::OffReg]))
            } else if code & 0x03000ff0 == 0x03000060 {
                Some(("", vec![Field::Base16Wb, Field::OffReg, Field::Rrx]))
            } else if code & 0x03000ff0 == 0x02000000 {
                Some(("", vec![Field::Base16, Field::OffReg]))
            } else if code & 0x03000ff0 == 0x02000060 {
                Some(("", vec![Field::Base16, Field::OffReg, Field::Rrx]))
            } else if code & 0x03000010 == 0x03000000 {
                Some(("", vec![Field::Base16Wb, Field::OffReg, Field::ShiftImm]))
            } else if code & 0x03000010 == 0x02000000 {
                Some(("", vec![Field::Base16, Field::OffReg, Field::ShiftImm]))
            } else if code & 0x03000000 == 0x01000000 {
                Some(("", vec![Field::Base16Wb, Field::OffImm12]))
            } else if code & 0x03000000 == 0x00000000 {
                Some(("", vec![Field::Base16, Field::OffImm12]))
            } else {
                None
            }
        },
        Modifier::Addr3 => {
            if code & 0x01400000 == 0x01400000 {
                Some(("", vec![Field::Base16Wb, Field::OffImm8]))
            } else if code & 0x01400000 == 0x00400000 {
                Some(("", vec![Field::Base16, Field::OffImm8]))
            } else if code & 0x01400000 == 0x01000000 {
                Some(("", vec![Field::Base16Wb, Field::OffReg]))
            } else if code & 0x01400000 == 0x00000000 {
                Some(("", vec![Field::Base16, Field::OffReg]))
            } else {
                None
            }
        },
        Modifier::Addr5 => {
            if code & 0x01a00000 == 0x00a00000 {
                Some(("", vec![Field::Base16, Field::OffImm8x4]))
            } else if code & 0x01a00000 == 0x00200000 {
                Some(("", vec![Field::Base16, Field::OffImm8x4]))
            } else if code & 0x01a00000 == 0x00800000 {
                Some(("", vec![Field::Base16, Field::CoOption]))
            } else if code & 0x01000000 == 0x01000000 {
                Some(("", vec![Field::Base16Wb, Field::OffImm8x4]))
            } else {
                None
            }
        },
        Modifier::OptShift => {
            if code & 0x00000fc0 == 0x00000000 {
                Some(("", Vec::new()))
            } else {
                Some(("", vec![Field::ShiftImm]))
            }
        },
        Modifier::Rotate => {
            if code & 0x00000c00 == 0x00000000 {
                Some(("", Vec::new()))
            } else {
                Some(("", vec![Field::Rotation]))
            }
        },
        Modifier::Exchange => {
            if code & 0x00000020 == 0x00000020 {
                Some(("x", Vec::new()))
            } else if code & 0x00000020 == 0x00000000 {
                Some(("", Vec::new()))
            } else {
                None
            }
        },
        Modifier::Round => {
            if code & 0x00000020 == 0x00000020 {
                Some(("r", Vec::new()))
            } else if code & 0x00000020 == 0x00000000 {
                Some(("", Vec::new()))
            } else {
                None
            }
        },
        Modifier::HalfX => {
            if code & 0x00000020 == 0x00000020 {
                Some(("t", Vec::new()))
            } else if code & 0x00000020 == 0x00000000 {
                Some(("b", Vec::new()))
            } else {
                None
            }
        },
        Modifier::HalfY => {
            if code & 0x00000040 == 0x00000040 {
                Some(("t", Vec::new()))
            } else if code & 0x00000040 == 0x00000000 {
                Some(("b", Vec::new()))
            } else {
                None
            }
        },
        Modifier::CpsEffect => {
            if code & 0x000c0000 == 0x00000000 {
                Some(("", Vec::new()))
            } else if code & 0x000c0000 == 0x00080000 {
                Some(("ie", vec![Field::CpsFlags]))
            } else if code & 0x000c0000 == 0x000c0000 {
                Some(("id", vec![Field::CpsFlags]))
            } else {
                None
            }
        },
        Modifier::CpsModeOpt => {
            if code & 0x00020000 == 0x00020000 {
                Some(("", vec![Field::CpsMode]))
            } else if code & 0x00020000 == 0x00000000 {
                Some(("", Vec::new()))
            } else {
                None
            }
        },
        Modifier::ThumbS => Some(((if ual { "s" } else { "" }), Vec::new())),
        Modifier::ThumbIa => Some(((if ual { "" } else { "ia" }), Vec::new())),
        Modifier::ThumbCond => {
            if code & 0x00000f00 == 0x00000000 {
                Some(("eq", Vec::new()))
            } else if code & 0x00000f00 == 0x00000100 {
                Some(("ne", Vec::new()))
            } else if code & 0x00000f00 == 0x00000200 {
                Some(("hs", Vec::new()))
            } else if code & 0x00000f00 == 0x00000300 {
                Some(("lo", Vec::new()))
            } else if code & 0x00000f00 == 0x00000400 {
                Some(("mi", Vec::new()))
            } else if code & 0x00000f00 == 0x00000500 {
                Some(("pl", Vec::new()))
            } else if code & 0x00000f00 == 0x00000600 {
                Some(("vs", Vec::new()))
            } else if code & 0x00000f00 == 0x00000700 {
                Some(("vc", Vec::new()))
            } else if code & 0x00000f00 == 0x00000800 {
                Some(("hi", Vec::new()))
            } else if code & 0x00000f00 == 0x00000900 {
                Some(("ls", Vec::new()))
            } else if code & 0x00000f00 == 0x00000a00 {
                Some(("ge", Vec::new()))
            } else if code & 0x00000f00 == 0x00000b00 {
                Some(("lt", Vec::new()))
            } else if code & 0x00000f00 == 0x00000c00 {
                Some(("gt", Vec::new()))
            } else if code & 0x00000f00 == 0x00000d00 {
                Some(("le", Vec::new()))
            } else {
                None
            }
        },
        Modifier::ThumbCpsEffect => {
            if code & 0x00000010 == 0x00000010 {
                Some(("id", vec![Field::TCpsFlags]))
            } else if code & 0x00000010 == 0x00000000 {
                Some(("ie", vec![Field::TCpsFlags]))
            } else {
                None
            }
        },
    }
}

/// Operand layout shared by a group of opcodes: positional fields and modifiers.
#[derive(Clone, Copy, PartialEq, Eq, Structural, Debug)]
pub enum Form {
    /// Destination, first operand and second operand
    DpRdRn,
    /// Destination and second operand
    DpRd,
    /// Comparison of a register with the second operand
    DpRn,
    /// Destination and source register
    MoveReg,
    /// Destination, source and shift amount
    ShiftByImm,
    /// Destination, source and shift register
    ShiftByReg,
    /// Multiply: destination, operands
    Mul,
    /// Multiply-accumulate: destination, operands, accumulator
    Mla,
    /// Long multiply: low and high destination, operands
    MulLong,
    /// Long multiply with two accumulators
    MulLongAcc,
    /// Halfword multiply-accumulate
    SmlaXy,
    /// Word by halfword multiply-accumulate
    SmlawY,
    /// Halfword multiply
    SmulXy,
    /// Word by halfword multiply
    SmulwY,
    /// Halfword long multiply-accumulate
    SmlalXy,
    /// Dual multiply-accumulate with optional exchange
    DualMulAcc,
    /// Dual multiply with optional exchange
    DualMul,
    /// Dual long multiply-accumulate with optional exchange
    DualMulLong,
    /// Most significant word multiply-accumulate with optional rounding
    MostSigAcc,
    /// Most significant word multiply with optional rounding
    MostSig,
    /// Sum of absolute differences with accumulator
    SadAcc,
    /// Sum of absolute differences
    Sad,
    /// Conditional branch
    Branch,
    /// Branch with exchange to an immediate destination
    BranchX,
    /// Branch to a register
    BranchReg,
    /// Coprocessor data operation
    Cdp,
    /// Unconditional coprocessor data operation
    Cdp2,
    /// Move between a register and a coprocessor
    CoMove,
    /// Unconditional move between a register and a coprocessor
    CoMove2,
    /// Move between two registers and a coprocessor
    CoMoveDouble,
    /// Unconditional move between two registers and a coprocessor
    CoMoveDouble2,
    /// Coprocessor load or store
    CoLoad,
    /// Unconditional coprocessor load or store
    CoLoad2,
    /// Load or store of a register list
    Multiple,
    /// Push or pop of a register list
    Stack,
    /// Push or pop of one register
    StackOne,
    /// Word or unsigned byte load or store
    Word,
    /// Halfword, signed byte or doubleword load or store
    Half,
    /// Preload of an address
    Preload,
    /// Swap or exclusive store: destination, source, base
    Swap,
    /// Exclusive load
    LoadEx,
    /// Move from a status register
    Mrs,
    /// Move an immediate to status register fields
    MsrImm,
    /// Move a register to status register fields
    MsrReg,
    /// Supervisor call
    Svc,
    /// Breakpoint
    Bkpt,
    /// Destination and source register
    RdRm,
    /// Destination and two operands, the second one in bits 16..20
    RdRmRn,
    /// Destination and two operands, the first one in bits 16..20
    RdRnRm,
    /// Halfword pack with an optional shift
    Pack,
    /// Signed saturation with an optional shift
    SatS,
    /// Unsigned saturation with an optional shift
    SatU,
    /// Signed halfword saturation
    Sat16S,
    /// Unsigned halfword saturation
    Sat16U,
    /// Extend and add: destination, addend, rotated source
    ExtendAdd,
    /// Extend: destination, rotated source
    Extend,
    /// No operands
    Bare,
    /// Conditional hint without operands
    Hint,
    /// Change of processor state
    Cps,
    /// Set endianness
    Setend,
    /// Return from exception
    Rfe,
    /// Store return state
    Srs,
    /// Thumb shift by immediate
    TShiftImm,
    /// Thumb destination and two low registers
    TRegs3,
    /// Thumb destination, low register and three-bit immediate
    TImm3,
    /// Thumb register and eight-bit immediate
    TImm8,
    /// Thumb comparison with an eight-bit immediate
    TCmpImm,
    /// Thumb flag-setting operation on two low registers
    TAlu,
    /// Thumb comparison of two low registers
    TTest,
    /// Thumb operation on any two registers
    THiRegs,
    /// Thumb branch to a register
    TBranchReg,
    /// Thumb load relative to the program counter
    TLoadPc,
    /// Thumb load or store with a register offset
    TMemReg,
    /// Thumb word load or store with an immediate offset
    TMemWord,
    /// Thumb byte load or store with an immediate offset
    TMemByte,
    /// Thumb halfword load or store with an immediate offset
    TMemHalf,
    /// Thumb load or store relative to the stack pointer
    TMemSp,
    /// Thumb address relative to the program counter
    TAddPc,
    /// Thumb address relative to the stack pointer
    TAddSp,
    /// Thumb stack pointer adjustment
    TAdjustSp,
    /// Thumb push
    TPush,
    /// Thumb pop
    TPop,
    /// Thumb multiple store
    TStm,
    /// Thumb multiple load
    TLdm,
    /// Thumb conditional branch
    TBranchCond,
    /// Thumb unconditional branch
    TBranch,
    /// Thumb eight-bit immediate
    TImmOnly,
    /// Upper half of a Thumb long branch
    TBlHalf,
    /// Thumb long branch of two halves
    TBlLong,
    /// Thumb change of processor state
    TCps,
    /// Thumb destination and source low register
    TRegs2,
    /// Thumb set endianness
    TSetend,
}

/// Positional operand fields of a form.
pub open spec fn form_fields(f: Form) -> Seq<Field> {
    match f {
        Form::DpRdRn => seq![Field::Reg12, Field::Reg16],
        Form::DpRd => seq![Field::Reg12],
        Form::DpRn => seq![Field::Reg16],
        Form::MoveReg => seq![Field::Reg12, Field::Reg0],
        Form::ShiftByImm => seq![Field::Reg12, Field::Reg0, Field::ShiftAmount],
        Form::ShiftByReg => seq![Field::Reg12, Field::Reg0, Field::Reg8],
        Form::Mul => seq![Field::Reg16, Field::Reg0, Field::Reg8],
        Form::Mla => seq![Field::Reg12, Field::Reg0, Field::Reg8, Field::Reg16],
        Form::MulLong => seq![Field::Reg12, Field::Reg16, Field::Reg0, Field::Reg8],
        Form::MulLongAcc => seq![Field::Reg12, Field::Reg16, Field::Reg0, Field::Reg8],
        Form::SmlaXy => seq![Field::Reg12, Field::Reg0, Field::Reg8, Field::Reg16],
        Form::SmlawY => seq![Field::Reg12, Field::Reg0, Field::Reg8, Field::Reg16],
        Form::SmulXy => seq![Field::Reg16, Field::Reg0, Field::Reg8],
        Form::SmulwY => seq![Field::Reg16, Field::Reg0, Field::Reg8],
        Form::SmlalXy => seq![Field::Reg12, Field::Reg16, Field::Reg0, Field::Reg8],
        Form::DualMulAcc => seq![Field::Reg16, Field::Reg0, Field::Reg8, Field::Reg12],
        Form::DualMul => seq![Field::Reg16, Field::Reg0, Field::Reg8],
        Form::DualMulLong => seq![Field::Reg12, Field::Reg16, Field::Reg0, Field::Reg8],
        Form::MostSigAcc => seq![Field::Reg16, Field::Reg0, Field::Reg8, Field::Reg12],
        Form::MostSig => seq![Field::Reg16, Field::Reg0, Field::Reg8],
        Form::SadAcc => seq![Field::Reg16, Field::Reg0, Field::Reg8, Field::Reg12],
        Form::Sad => seq![Field::Reg16, Field::Reg0, Field::Reg8],
        Form::Branch => seq![Field::BranchDest],
        Form::BranchX => seq![Field::BlxDest],
        Form::BranchReg => seq![Field::Reg0],
        Form::Cdp => seq![Field::CoprocNum, Field::CoOpc20, Field::CoReg12, Field::CoReg16, Field::CoReg0, Field::CoOpc5],
        Form::Cdp2 => seq![Field::CoprocNum, Field::CoOpc20, Field::CoReg12, Field::CoReg16, Field::CoReg0, Field::CoOpc5],
        Form::CoMove => seq![Field::CoprocNum, Field::CoOpc21, Field::Reg12, Field::CoReg16, Field::CoReg0, Field::CoOpc5],
        Form::CoMove2 => seq![Field::CoprocNum, Field::CoOpc21, Field::Reg12, Field::CoReg16, Field::CoReg0, Field::CoOpc5],
        Form::CoMoveDouble => seq![Field::CoprocNum, Field::CoOpc4, Field::Reg12, Field::Reg16, Field::CoReg0],
        Form::CoMoveDouble2 => seq![Field::CoprocNum, Field::CoOpc4, Field::Reg12, Field::Reg16, Field::CoReg0],
        Form::CoLoad => seq![Field::CoprocNum, Field::CoReg12],
        Form::CoLoad2 => seq![Field::CoprocNum, Field::CoReg12],
        Form::Multiple => seq![Field::Reg16Wb, Field::RegList],
        Form::Stack => seq![Field::RegList],
        Form::StackOne => seq![Field::RegList12],
        Form::Word => seq![Field::Reg12],
        Form::Half => seq![Field::Reg12],
        Form::Preload => Seq::empty(),
        Form::Swap => seq![Field::Reg12, Field::Reg0, Field::Base16],
        Form::LoadEx => seq![Field::Reg12, Field::Base16],
        Form::Mrs => seq![Field::Reg12, Field::StatusReg],
        Form::MsrImm => seq![Field::StatusMask, Field::RotImm],
        Form::MsrReg => seq![Field::StatusMask, Field::Reg0],
        Form::Svc => seq![Field::Imm24],
        Form::Bkpt => seq![Field::BkptImm],
        Form::RdRm => seq![Field::Reg12, Field::Reg0],
        Form::RdRmRn => seq![Field::Reg12, Field::Reg0, Field::Reg16],
        Form::RdRnRm => seq![Field::Reg12, Field::Reg16, Field::Reg0],
        Form::Pack => seq![Field::Reg12, Field::Reg16, Field::Reg0],
        Form::SatS => seq![Field::Reg12, Field::SatImmS, Field::Reg0],
        Form::SatU => seq![Field::Reg12, Field::SatImmU, Field::Reg0],
        Form::Sat16S => seq![Field::Reg12, Field::SatImm16S, Field::Reg0],
        Form::Sat16U => seq![Field::Reg12, Field::SatImm16U, Field::Reg0],
        Form::ExtendAdd => seq![Field::Reg12, Field::Reg16, Field::Reg0],
        Form::Extend => seq![Field::Reg12, Field::Reg0],
        Form::Bare => Seq::empty(),
        Form::Hint => Seq::empty(),
        Form::Cps => Seq::empty(),
        Form::Setend => seq![Field::EndianE],
        Form::Rfe => seq![Field::Reg16Wb],
        Form::Srs => seq![Field::Reg16Wb, Field::CpsMode],
        Form::TShiftImm => seq![Field::TReg0, Field::TReg3, Field::TShiftAmount],
        Form::TRegs3 => seq![Field::TReg0, Field::TReg3, Field::TReg6],
        Form::TImm3 => seq![Field::TReg0, Field::TReg3, Field::TImm3],
        Form::TImm8 => seq![Field::TReg8, Field::TImm8],
        Form::TCmpImm => seq![Field::TReg8, Field::TImm8],
        Form::TAlu => seq![Field::TReg0, Field::TReg3],
        Form::TTest => seq![Field::TReg0, Field::TReg3],
        Form::THiRegs => seq![Field::THi0, Field::THi3],
        Form::TBranchReg => seq![Field::THi3],
        Form::TLoadPc => seq![Field::TReg8, Field::TPcBase, Field::TOffImm8x4],
        Form::TMemReg => seq![Field::TReg0, Field::TBase3, Field::TOffReg6],
        Form::TMemWord => seq![Field::TReg0, Field::TBase3, Field::TOffImm5x4],
        Form::TMemByte => seq![Field::TReg0, Field::TBase3, Field::TOffImm5],
        Form::TMemHalf => seq![Field::TReg0, Field::TBase3, Field::TOffImm5x2],
        Form::TMemSp => seq![Field::TReg8, Field::TSpBase, Field::TOffImm8x4],
        Form::TAddPc => seq![Field::TReg8, Field::TPc, Field::TImm8x4],
        Form::TAddSp => seq![Field::TReg8, Field::TSp, Field::TImm8x4],
        Form::TAdjustSp => seq![Field::TSp, Field::TImm7x4],
        Form::TPush => seq![Field::TPushList],
        Form::TPop => seq![Field::TPopList],
        Form::TStm => seq![Field::TBaseWb, Field::TRegList8],
        Form::TLdm => seq![Field::TBaseWbUnlisted, Field::TRegList8],
        Form::TBranchCond => seq![Field::TBranch8],
        Form::TBranch => seq![Field::TBranch11],
        Form::TImmOnly => seq![Field::TImm8],
        Form::TBlHalf => seq![Field::TBlHigh],
        Form::TBlLong => seq![Field::TBlLong],
        Form::TCps => Seq::empty(),
        Form::TRegs2 => seq![Field::TReg0, Field::TReg3],
        Form::TSetend => seq![Field::TEndian],
    }
}

/// Positional operand fields of a form.
pub fn fields_of(f: Form) -> (r: Vec<Field>)
    ensures
        r@ == form_fields(f),
{
    match f {
        Form::DpRdRn => vec![Field::Reg12, Field::Reg16],
        Form::DpRd => vec![Field::Reg12],
        Form::DpRn => vec![Field::Reg16],
        Form::MoveReg => vec![Field::Reg12, Field::Reg0],
        Form::ShiftByImm => vec![Field::Reg12, Field::Reg0, Field::ShiftAmount],
        Form::ShiftByReg => vec![Field::Reg12, Field::Reg0, Field::Reg8],
        Form::Mul => vec![Field::Reg16, Field::Reg0, Field::Reg8],
        Form::Mla => vec![Field::Reg12, Field::Reg0, Field::Reg8, Field::Reg16],
        Form::MulLong => vec![Field::Reg12, Field::Reg16, Field::Reg0, Field::Reg8],
        Form::MulLongAcc => vec![Field::Reg12, Field::Reg16, Field::Reg0, Field::Reg8],
        Form::SmlaXy => vec![Field::Reg12, Field::Reg0, Field::Reg8, Field::Reg16],
        Form::SmlawY => vec![Field::Reg12, Field::Reg0, Field::Reg8, Field::Reg16],
        Form::SmulXy => vec![Field::Reg16, Field::Reg0, Field::Reg8],
        Form::SmulwY => vec![Field::Reg16, Field::Reg0, Field::Reg8],
        Form::SmlalXy => vec![Field::Reg12, Field::Reg16, Field::Reg0, Field::Reg8],
        Form::DualMulAcc => vec![Field::Reg16, Field::Reg0, Field::Reg8, Field::Reg12],
        Form::DualMul => vec![Field::Reg16, Field::Reg0, Field::Reg8],
        Form::DualMulLong => vec![Field::Reg12, Field::Reg16, Field::Reg0, Field::Reg8],
        Form::MostSigAcc => vec![Field::Reg16, Field::Reg0, Field::Reg8, Field::Reg12],
        Form::MostSig => vec![Field::Reg16, Field::Reg0, Field::Reg8],
        Form::SadAcc => vec![Field::Reg16, Field::Reg0, Field::Reg8, Field::Reg12],
        Form::Sad => vec![Field::Reg16, Field::Reg0, Field::Reg8],
        Form::Branch => vec![Field::BranchDest],
        Form::BranchX => vec![Field::BlxDest],
        Form::BranchReg => vec![Field::Reg0],
        Form::Cdp => vec![Field::CoprocNum, Field::CoOpc20, Field::CoReg12, Field::CoReg16, Field::CoReg0, Field::CoOpc5],
        Form::Cdp2 => vec![Field::CoprocNum, Field::CoOpc20, Field::CoReg12, Field::CoReg16, Field::CoReg0, Field::CoOpc5],
        Form::CoMove => vec![Field::CoprocNum, Field::CoOpc21, Field::Reg12, Field::CoReg16, Field::CoReg0, Field::CoOpc5],
        Form::CoMove2 => vec![Field::CoprocNum, Field::CoOpc21, Field::Reg12, Field::CoReg16, Field::CoReg0, Field::CoOpc5],
        Form::CoMoveDouble => vec![Field::CoprocNum, Field::CoOpc4, Field::Reg12, Field::Reg16, Field::CoReg0],
        Form::CoMoveDouble2 => vec![Field::CoprocNum, Field::CoOpc4, Field::Reg12, Field::Reg16, Field::CoReg0],
        Form::CoLoad => vec![Field::CoprocNum, Field::CoReg12],
        Form::CoLoad2 => vec![Field::CoprocNum, Field::CoReg12],
        Form::Multiple => vec![Field::Reg16Wb, Field::RegList],
        Form::Stack => vec![Field::RegList],
        Form::StackOne => vec![Field::RegList12],
        Form::Word => vec![Field::Reg12],
        Form::Half => vec![Field::Reg12],
        Form::Preload => Vec::new(),
        Form::Swap => vec![Field::Reg12, Field::Reg0, Field::Base16],
        Form::LoadEx => vec![Field::Reg12, Field::Base16],
        Form::Mrs => vec![Field::Reg12, Field::StatusReg],
        Form::MsrImm => vec![Field::StatusMask, Field::RotImm],
        Form::MsrReg => vec![Field::StatusMask, Field::Reg0],
        Form::Svc => vec![Field::Imm24],
        Form::Bkpt => vec![Field::BkptImm],
        Form::RdRm => vec![Field::Reg12, Field::Reg0],
        Form::RdRmRn => vec![Field::Reg12, Field::Reg0, Field::Reg16],
        Form::RdRnRm => vec![Field::Reg12, Field::Reg16, Field::Reg0],
        Form::Pack => vec![Field::Reg12, Field::Reg16, Field::Reg0],
        Form::SatS => vec![Field::Reg12, Field::SatImmS, Field::Reg0],
        Form::SatU => vec![Field::Reg12, Field::SatImmU, Field::Reg0],
        Form::Sat16S => vec![Field::Reg12, Field::SatImm16S, Field::Reg0],
        Form::Sat16U => vec![Field::Reg12, Field::SatImm16U, Field::Reg0],
        Form::ExtendAdd => vec![Field::Reg12, Field::Reg16, Field::Reg0],
        Form::Extend => vec![Field::Reg12, Field::Reg0],
        Form::Bare => Vec::new(),
        Form::Hint => Vec::new(),
        Form::Cps => Vec::new(),
        Form::Setend => vec![Field::EndianE],
        Form::Rfe => vec![Field::Reg16Wb],
        Form::Srs => vec![Field::Reg16Wb, Field::CpsMode],
        Form::TShiftImm => vec![Field::TReg0, Field::TReg3, Field::TShiftAmount],
        Form::TRegs3 => vec![Field::TReg0, Field::TReg3, Field::TReg6],
        Form::TImm3 => vec![Field::TReg0, Field::TReg3, Field::TImm3],
        Form::TImm8 => vec![Field::TReg8, Field::TImm8],
        Form::TCmpImm => vec![Field::TReg8, Field::TImm8],
        Form::TAlu => vec![Field::TReg0, Field::TReg3],
        Form::TTest => vec![Field::TReg0, Field::TReg3],
        Form::THiRegs => vec![Field::THi0, Field::THi3],
        Form::TBranchReg => vec![Field::THi3],
        Form::TLoadPc => vec![Field::TReg8, Field::TPcBase, Field::TOffImm8x4],
        Form::TMemReg => vec![Field::TReg0, Field::TBase3, Field::TOffReg6],
        Form::TMemWord => vec![Field::TReg0, Field::TBase3, Field::TOffImm5x4],
        Form::TMemByte => vec![Field::TReg0, Field::TBase3, Field::TOffImm5],
        Form::TMemHalf => vec![Field::TReg0, Field::TBase3, Field::TOffImm5x2],
        Form::TMemSp => vec![Field::TReg8, Field::TSpBase, Field::TOffImm8x4],
        Form::TAddPc => vec![Field::TReg8, Field::TPc, Field::TImm8x4],
        Form::TAddSp => vec![Field::TReg8, Field::TSp, Field::TImm8x4],
        Form::TAdjustSp => vec![Field::TSp, Field::TImm7x4],
        Form::TPush => vec![Field::TPushList],
        Form::TPop => vec![Field::TPopList],
        Form::TStm => vec![Field::TBaseWb, Field::TRegList8],
        Form::TLdm => vec![Field::TBaseWbUnlisted, Field::TRegList8],
        Form::TBranchCond => vec![Field::TBranch8],
        Form::TBranch => vec![Field::TBranch11],
        Form::TImmOnly => vec![Field::TImm8],
        Form::TBlHalf => vec![Field::TBlHigh],
        Form::TBlLong => vec![Field::TBlLong],
        Form::TCps => Vec::new(),
        Form::TRegs2 => vec![Field::TReg0, Field::TReg3],
        Form::TSetend => vec![Field::TEndian],
    }
}

/// Modifiers of a form in suffix order; the divided syntax puts the condition first.
pub open spec fn form_modifiers(f: Form, ual: bool) -> Seq<Modifier> {
    match f {
        Form::DpRdRn => if ual { seq![Modifier::SetFlags, Modifier::Cond, Modifier::Op2] } else { seq![Modifier::Cond, Modifier::SetFlags, Modifier::Op2] },
        Form::DpRd => if ual { seq![Modifier::SetFlags, Modifier::Cond, Modifier::Op2] } else { seq![Modifier::Cond, Modifier::SetFlags, Modifier::Op2] },
        Form::DpRn => seq![Modifier::Cond, Modifier::Op2],
        Form::MoveReg => if ual { seq![Modifier::SetFlags, Modifier::Cond] } else { seq![Modifier::Cond, Modifier::SetFlags] },
        Form::ShiftByImm => if ual { seq![Modifier::SetFlags, Modifier::Cond] } else { seq![Modifier::Cond, Modifier::SetFlags] },
        Form::ShiftByReg => if ual { seq![Modifier::SetFlags, Modifier::Cond] } else { seq![Modifier::Cond, Modifier::SetFlags] },
        Form::Mul => if ual { seq![Modifier::SetFlags, Modifier::Cond] } else { seq![Modifier::Cond, Modifier::SetFlags] },
        Form::Mla => if ual { seq![Modifier::SetFlags, Modifier::Cond] } else { seq![Modifier::Cond, Modifier::SetFlags] },
        Form::MulLong => if ual { seq![Modifier::SetFlags, Modifier::Cond] } else { seq![Modifier::Cond, Modifier::SetFlags] },
        Form::MulLongAcc => seq![Modifier::Cond],
        Form::SmlaXy => seq![Modifier::HalfX, Modifier::HalfY, Modifier::Cond],
        Form::SmlawY => seq![Modifier::HalfY, Modifier::Cond],
        Form::SmulXy => seq![Modifier::HalfX, Modifier::HalfY, Modifier::Cond],
        Form::SmulwY => seq![Modifier::HalfY, Modifier::Cond],
        Form::SmlalXy => seq![Modifier::HalfX, Modifier::HalfY, Modifier::Cond],
        Form::DualMulAcc => seq![Modifier::Exchange, Modifier::Cond],
        Form::DualMul => seq![Modifier::Exchange, Modifier::Cond],
        Form::DualMulLong => seq![Modifier::Exchange, Modifier::Cond],
        Form::MostSigAcc => seq![Modifier::Round, Modifier::Cond],
        Form::MostSig => seq![Modifier::Round, Modifier::Cond],
        Form::SadAcc => seq![Modifier::Cond],
        Form::Sad => seq![Modifier::Cond],
        Form::Branch => seq![Modifier::Cond],
        Form::BranchX => Seq::empty(),
        Form::BranchReg => seq![Modifier::Cond],
        Form::Cdp => seq![Modifier::Cond],
        Form::Cdp2 => Seq::empty(),
        Form::CoMove => seq![Modifier::Cond],
        Form::CoMove2 => Seq::empty(),
        Form::CoMoveDouble => seq![Modifier::Cond],
        Form::CoMoveDouble2 => Seq::empty(),
        Form::CoLoad => if ual { seq![Modifier::LongCo, Modifier::Cond, Modifier::Addr5] } else { seq![Modifier::Cond, Modifier::LongCo, Modifier::Addr5] },
        Form::CoLoad2 => seq![Modifier::LongCo, Modifier::Addr5],
        Form::Multiple => if ual { seq![Modifier::LdmMode, Modifier::Cond] } else { seq![Modifier::Cond, Modifier::LdmMode] },
        Form::Stack => seq![Modifier::Cond],
        Form::StackOne => seq![Modifier::Cond],
        Form::Word => seq![Modifier::Cond, Modifier::Addr2],
        Form::Half => seq![Modifier::Cond, Modifier::Addr3],
        Form::Preload => seq![Modifier::Addr2],
        Form::Swap => seq![Modifier::Cond],
        Form::LoadEx => seq![Modifier::Cond],
        Form::Mrs => seq![Modifier::Cond],
        Form::MsrImm => seq![Modifier::Cond],
        Form::MsrReg => seq![Modifier::Cond],
        Form::Svc => seq![Modifier::Cond],
        Form::Bkpt => Seq::empty(),
        Form::RdRm => seq![Modifier::Cond],
        Form::RdRmRn => seq![Modifier::Cond],
        Form::RdRnRm => seq![Modifier::Cond],
        Form::Pack => seq![Modifier::Cond, Modifier::OptShift],
        Form::SatS => seq![Modifier::Cond, Modifier::OptShift],
        Form::SatU => seq![Modifier::Cond, Modifier::OptShift],
        Form::Sat16S => seq![Modifier::Cond],
        Form::Sat16U => seq![Modifier::Cond],
        Form::ExtendAdd => seq![Modifier::Cond, Modifier::Rotate],
        Form::Extend => seq![Modifier::Cond, Modifier::Rotate],
        Form::Bare => Seq::empty(),
        Form::Hint => seq![Modifier::Cond],
        Form::Cps => seq![Modifier::CpsEffect, Modifier::CpsModeOpt],
        Form::Setend => Seq::empty(),
        Form::Rfe => seq![Modifier::RfeMode],
        Form::Srs => seq![Modifier::RfeMode],
        Form::TShiftImm => seq![Modifier::ThumbS],
        Form::TRegs3 => seq![Modifier::ThumbS],
        Form::TImm3 => seq![Modifier::ThumbS],
        Form::TImm8 => seq![Modifier::ThumbS],
        Form::TCmpImm => Seq::empty(),
        Form::TAlu => seq![Modifier::ThumbS],
        Form::TTest => Seq::empty(),
        Form::THiRegs => Seq::empty(),
        Form::TBranchReg => Seq::empty(),
        Form::TLoadPc => Seq::empty(),
        Form::TMemReg => Seq::empty(),
        Form::TMemWord => Seq::empty(),
        Form::TMemByte => Seq::empty(),
        Form::TMemHalf => Seq::empty(),
        Form::TMemSp => Seq::empty(),
        Form::TAddPc => Seq::empty(),
        Form::TAddSp => Seq::empty(),
        Form::TAdjustSp => Seq::empty(),
        Form::TPush => Seq::empty(),
        Form::TPop => Seq::empty(),
        Form::TStm => seq![Modifier::ThumbIa],
        Form::TLdm => seq![Modifier::ThumbIa],
        Form::TBranchCond => seq![Modifier::ThumbCond],
        Form::TBranch => Seq::empty(),
        Form::TImmOnly => Seq::empty(),
        Form::TBlHalf => Seq::empty(),
        Form::TBlLong => Seq::empty(),
        Form::TCps => seq![Modifier::ThumbCpsEffect],
        Form::TRegs2 => Seq::empty(),
        Form::TSetend => Seq::empty(),
    }
}

/// Modifiers of a form in suffix order.
pub fn modifiers_of(f: Form, ual: bool) -> (r: Vec<Modifier>)
    ensures
        r@ == form_modifiers(f, ual),
{
    match f {
        Form::DpRdRn => if ual { vec![Modifier::SetFlags, Modifier::Cond, Modifier::Op2] } else { vec![Modifier::Cond, Modifier::SetFlags, Modifier::Op2] },
        Form::DpRd => if ual { vec![Modifier::SetFlags, Modifier::Cond, Modifier::Op2] } else { vec![Modifier::Cond, Modifier::SetFlags, Modifier::Op2] },
        Form::DpRn => vec![Modifier::Cond, Modifier::Op2],
        Form::MoveReg => if ual { vec![Modifier::SetFlags, Modifier::Cond] } else { vec![Modifier::Cond, Modifier::SetFlags] },
        Form::ShiftByImm => if ual { vec![Modifier::SetFlags, Modifier::Cond] } else { vec![Modifier::Cond, Modifier::SetFlags] },
        Form::ShiftByReg => if ual { vec![Modifier::SetFlags, Modifier::Cond] } else { vec![Modifier::Cond, Modifier::SetFlags] },
        Form::Mul => if ual { vec![Modifier::SetFlags, Modifier::Cond] } else { vec![Modifier::Cond, Modifier::SetFlags] },
        Form::Mla => if ual { vec![Modifier::SetFlags, Modifier::Cond] } else { vec![Modifier::Cond, Modifier::SetFlags] },
        Form::MulLong => if ual { vec![Modifier::SetFlags, Modifier::Cond] } else { vec![Modifier::Cond, Modifier::SetFlags] },
        Form::MulLongAcc => vec![Modifier::Cond],
        Form::SmlaXy => vec![Modifier::HalfX, Modifier::HalfY, Modifier::Cond],
        Form::SmlawY => vec![Modifier::HalfY, Modifier::Cond],
        Form::SmulXy => vec![Modifier::HalfX, Modifier::HalfY, Modifier::Cond],
        Form::SmulwY => vec![Modifier::HalfY, Modifier::Cond],
        Form::SmlalXy => vec![Modifier::HalfX, Modifier::HalfY, Modifier::Cond],
        Form::DualMulAcc => vec![Modifier::Exchange, Modifier::Cond],
        Form::DualMul => vec![Modifier::Exchange, Modifier::Cond],
        Form::DualMulLong => vec![Modifier::Exchange, Modifier::Cond],
        Form::MostSigAcc => vec![Modifier::Round, Modifier::Cond],
        Form::MostSig => vec![Modifier::Round, Modifier::Cond],
        Form::SadAcc => vec![Modifier::Cond],
        Form::Sad => vec![Modifier::Cond],
        Form::Branch => vec![Modifier::Cond],
        Form::BranchX => Vec::new(),
        Form::BranchReg => vec![Modifier::Cond],
        Form::Cdp => vec![Modifier::Cond],
        Form::Cdp2 => Vec::new(),
        Form::CoMove => vec![Modifier::Cond],
        Form::CoMove2 => Vec::new(),
        Form::CoMoveDouble => vec![Modifier::Cond],
        Form::CoMoveDouble2 => Vec::new(),
        Form::CoLoad => if ual { vec![Modifier::LongCo, Modifier::Cond, Modifier::Addr5] } else { vec![Modifier::Cond, Modifier::LongCo, Modifier::Addr5] },
        Form::CoLoad2 => vec![Modifier::LongCo, Modifier::Addr5],
        Form::Multiple => if ual { vec![Modifier::LdmMode, Modifier::Cond] } else { vec![Modifier::Cond, Modifier::LdmMode] },
        Form::Stack => vec![Modifier::Cond],
        Form::StackOne => vec![Modifier::Cond],
        Form::Word => vec![Modifier::Cond, Modifier::Addr2],
        Form::Half => vec![Modifier::Cond, Modifier::Addr3],
        Form::Preload => vec![Modifier::Addr2],
        Form::Swap => vec![Modifier::Cond],
        Form::LoadEx => vec![Modifier::Cond],
        Form::Mrs => vec![Modifier::Cond],
        Form::MsrImm => vec![Modifier::Cond],
        Form::MsrReg => vec![Modifier::Cond],
        Form::Svc => vec![Modifier::Cond],
        Form::Bkpt => Vec::new(),
        Form::RdRm => vec![Modifier::Cond],
        Form::RdRmRn => vec![Modifier::Cond],
        Form::RdRnRm => vec![Modifier::Cond],
        Form::Pack => vec![Modifier::Cond, Modifier::OptShift],
        Form::SatS => vec![Modifier::Cond, Modifier::OptShift],
        Form::SatU => vec![Modifier::Cond, Modifier::OptShift],
        Form::Sat16S => vec![Modifier::Cond],
        Form::Sat16U => vec![Modifier::Cond],
        Form::ExtendAdd => vec![Modifier::Cond, Modifier::Rotate],
        Form::Extend => vec![Modifier::Cond, Modifier::Rotate],
        Form::Bare => Vec::new(),
        Form::Hint => vec![Modifier::Cond],
        Form::Cps => vec![Modifier::CpsEffect, Modifier::CpsModeOpt],
        Form::Setend => Vec::new(),
        Form::Rfe => vec![Modifier::RfeMode],
        Form::Srs => vec![Modifier::RfeMode],
        Form::TShiftImm => vec![Modifier::ThumbS],
        Form::TRegs3 => vec![Modifier::ThumbS],
        Form::TImm3 => vec![Modifier::ThumbS],
        Form::TImm8 => vec![Modifier::ThumbS],
        Form::TCmpImm => Vec::new(),
        Form::TAlu => vec![Modifier::ThumbS],
        Form::TTest => Vec::new(),
        Form::THiRegs => Vec::new(),
        Form::TBranchReg => Vec::new(),
        Form::TLoadPc => Vec::new(),
        Form::TMemReg => Vec::new(),
        Form::TMemWord => Vec::new(),
        Form::TMemByte => Vec::new(),
        Form::TMemHalf => Vec::new(),
        Form::TMemSp => Vec::new(),
        Form::TAddPc => Vec::new(),
        Form::TAddSp => Vec::new(),
        Form::TAdjustSp => Vec::new(),
        Form::TPush => Vec::new(),
        Form::TPop => Vec::new(),
        Form::TStm => vec![Modifier::ThumbIa],
        Form::TLdm => vec![Modifier::ThumbIa],
        Form::TBranchCond => vec![Modifier::ThumbCond],
        Form::TBranch => Vec::new(),
        Form::TImmOnly => Vec::new(),
        Form::TBlHalf => Vec::new(),
        Form::TBlLong => Vec::new(),
        Form::TCps => vec![Modifier::ThumbCpsEffect],
        Form::TRegs2 => Vec::new(),
        Form::TSetend => Vec::new(),
    }
}

/// Number of opcodes in the catalogue, `Illegal` left out.
pub const OPCODE_COUNT: usize = 253;

/// Instruction class, identified by a mask and pattern on the instruction bits.
#[derive(Clone, Copy, PartialEq, Eq, Structural, Debug)]
pub enum Opcode {
    /// Illegal or unknown
    Illegal,
    And,
    Eor,
    Sub,
    Rsb,
    Add,
    Adc,
    Sbc,
    Rsc,
    Tst,
    Teq,
    Cmp,
    Cmn,
    Orr,
    Mov,
    Bic,
    Mvn,
    MovReg,
    LslImm,
    LslReg,
    LsrImm,
    LsrReg,
    AsrImm,
    AsrReg,
    RorImm,
    RorReg,
    Rrx,
    Mul,
    Mla,
    Umaal,
    Umull,
    Umlal,
    Smull,
    Smlal,
    SmlaXy,
    SmlawY,
    SmulwY,
    SmlalXy,
    SmulXy,
    Smlad,
    Smlsd,
    Smuad,
    Smusd,
    Smlald,
    Smlsld,
    Smmla,
    Smmls,
    Smmul,
    Usada8,
    Usad8,
    B,
    Bl,
    BlxImm,
    Bx,
    Bxj,
    BlxReg,
    Cdp,
    Cdp2,
    Mcr,
    Mrc,
    Mcr2,
    Mrc2,
    Mcrr,
    Mrrc,
    Mcrr2,
    Mrrc2,
    Ldc,
    Stc,
    Ldc2,
    Stc2,
    Ldm,
    Stm,
    Pop,
    Push,
    PopOne,
    PushOne,
    Ldr,
    Ldrb,
    Str,
    Strb,
    Ldrt,
    Ldrbt,
    Strt,
    Strbt,
    Ldrh,
    Strh,
    Ldrsb,
    Ldrsh,
    Ldrd,
    Strd,
    Pld,
    Swp,
    Swpb,
    Ldrex,
    Strex,
    Mrs,
    MsrReg,
    MsrImm,
    Svc,
    Swi,
    Bkpt,
    Clz,
    Qadd,
    Qsub,
    Qdadd,
    Qdsub,
    Sadd16,
    Saddsubx,
    Ssubaddx,
    Ssub16,
    Sadd8,
    Ssub8,
    Qadd16,
    Qaddsubx,
    Qsubaddx,
    Qsub16,
    Qadd8,
    Qsub8,
    Shadd16,
    Shaddsubx,
    Shsubaddx,
    Shsub16,
    Shadd8,
    Shsub8,
    Uadd16,
    Uaddsubx,
    Usubaddx,
    Usub16,
    Uadd8,
    Usub8,
    Uqadd16,
    Uqaddsubx,
    Uqsubaddx,
    Uqsub16,
    Uqadd8,
    Uqsub8,
    Uhadd16,
    Uhaddsubx,
    Uhsubaddx,
    Uhsub16,
    Uhadd8,
    Uhsub8,
    Sel,
    Rev,
    Rev16,
    Revsh,
    Pkhbt,
    Pkhtb,
    Ssat,
    Usat,
    Ssat16,
    Usat16,
    Sxtab16,
    Sxtb16,
    Sxtab,
    Sxtb,
    Sxtah,
    Sxth,
    Uxtab16,
    Uxtb16,
    Uxtab,
    Uxtb,
    Uxtah,
    Uxth,
    Clrex,
    Ldrexd,
    Ldrexb,
    Ldrexh,
    Strexd,
    Strexb,
    Strexh,
    Nop,
    Yield,
    Wfe,
    Wfi,
    Sev,
    Cps,
    Setend,
    Rfe,
    Srs,
    TLslImm,
    TLsrImm,
    TAsrImm,
    TAddReg,
    TSubReg,
    TAddImm3,
    TSubImm3,
    TMovImm,
    TCmpImm,
    TAddImm8,
    TSubImm8,
    TAnd,
    TEor,
    TLslReg,
    TLsrReg,
    TAsrReg,
    TAdc,
    TSbc,
    TRorReg,
    TTst,
    TNeg,
    TCmpReg,
    TCmn,
    TOrr,
    TMul,
    TBic,
    TMvn,
    TAddHi,
    TCmpHi,
    TMovHi,
    TBx,
    TBlxReg,
    TLdrPc,
    TStrReg,
    TStrhReg,
    TStrbReg,
    TLdrsbReg,
    TLdrReg,
    TLdrhReg,
    TLdrbReg,
    TLdrshReg,
    TStrImm,
    TLdrImm,
    TStrbImm,
    TLdrbImm,
    TStrhImm,
    TLdrhImm,
    TStrSp,
    TLdrSp,
    TAddPc,
    TAddSp,
    TAddSpImm,
    TSubSpImm,
    TSxth,
    TSxtb,
    TUxth,
    TUxtb,
    TPush,
    TPop,
    TSetend,
    TCps,
    TRev,
    TRev16,
    TRevsh,
    TBkpt,
    TStm,
    TLdm,
    TBCond,
    TSvc,
    TSwi,
    TB,
    BlH,
    TBl,
    TBlx,
}

/// Encoding signature of an opcode and how its operands are read.
#[derive(Clone, Copy, PartialEq, Eq, Structural, Debug)]
pub struct Descriptor {
    /// Bits that identify the opcode
    pub mask: u32,
    /// Value of those bits
    pub pattern: u32,
    /// First architecture with the opcode
    pub arch: Arch,
    /// Instruction set
    pub isa: Isa,
    /// Assembler syntax the opcode belongs to
    pub flavour: Flavour,
    /// Operand layout
    pub form: Form,
}

impl Opcode {
    /// Signature and operand layout of this opcode.
    pub open spec fn spec_descriptor(self) -> Descriptor {
        match self {
            Opcode::Illegal => Descriptor { mask: 0, pattern: 0, arch: Arch::V4T, isa: Isa::Arm, flavour: Flavour::Both, form: Form::Bkpt },
            Opcode::And => Descriptor { mask: 0x0de00000, pattern: 0x00000000, arch: Arch::V4T, isa: Isa::Arm, flavour: Flavour::Both, form: Form::DpRdRn },
            Opcode::Eor => Descriptor { mask: 0x0de00000, pattern: 0x00200000, arch: Arch::V4T, isa: Isa::Arm, flavour: Flavour::Both, form: Form::DpRdRn },
            Opcode::Sub => Descriptor { mask: 0x0de00000, pattern: 0x00400000, arch: Arch::V4T, isa: Isa::Arm, flavour: Flavour::Both, form: Form::DpRdRn },
            Opcode::Rsb => Descriptor { mask: 0x0de00000, pattern: 0x00600000, arch: Arch::V4T, isa: Isa::Arm, flavour: Flavour::Both, form: Form::DpRdRn },
            Opcode::Add => Descriptor { mask: 0x0de00000, pattern: 0x00800000, arch: Arch::V4T, isa: Isa::Arm, flavour: Flavour::Both, form: Form::DpRdRn },
            Opcode::Adc => Descriptor { mask: 0x0de00000, pattern: 0x00a00000, arch: Arch::V4T, isa: Isa::Arm, flavour: Flavour::Both, form: Form::DpRdRn },
            Opcode::Sbc => Descriptor { mask: 0x0de00000, pattern: 0x00c00000, arch: Arch::V4T, isa: Isa::Arm, flavour: Flavour::Both, form: Form::DpRdRn },
            Opcode::Rsc => Descriptor { mask: 0x0de00000, pattern: 0x00e00000, arch: Arch::V4T, isa: Isa::Arm, flavour: Flavour::Both, form: Form::DpRdRn },
            Opcode::Tst => Descriptor { mask: 0x0df00000, pattern: 0x01100000, arch: Arch::V4T, isa: Isa::Arm, flavour: Flavour::Both, form: Form::DpRn },
            Opcode::Teq => Descriptor { mask: 0x0df00000, pattern: 0x01300000, arch: Arch::V4T, isa: Isa::Arm, flavour: Flavour::Both, form: Form::DpRn },
            Opcode::Cmp => Descriptor { mask: 0x0df00000, pattern: 0x01500000, arch: Arch::V4T, isa: Isa::Arm, flavour: Flavour::Both, form: Form::DpRn },
            Opcode::Cmn => Descriptor { mask: 0x0df00000, pattern: 0x01700000, arch: Arch::V4T, isa: Isa::Arm, flavour: Flavour::Both, form: Form::DpRn },
            Opcode::Orr => Descriptor { mask: 0x0de00000, pattern: 0x01800000, arch: Arch::V4T, isa: Isa::Arm, flavour: Flavour::Both, form: Form::DpRdRn },
            Opcode::Mov => Descriptor { mask: 0x0de00000, pattern: 0x01a00000, arch: Arch::V4T, isa: Isa::Arm, flavour: Flavour::Both, form: Form::DpRd },
            Opcode::Bic => Descriptor { mask: 0x0de00000, pattern: 0x01c00000, arch: Arch::V4T, isa: Isa::Arm, flavour: Flavour::Both, form: Form::DpRdRn },
            Opcode::Mvn => Descriptor { mask: 0x0de00000, pattern: 0x01e00000, arch: Arch::V4T, isa: Isa::Arm, flavour: Flavour::Both, form: Form::DpRd },
            Opcode::MovReg => Descriptor { mask: 0x0fe00ff0, pattern: 0x01a00000, arch: Arch::V4T, isa: Isa::Arm, flavour: Flavour::Ual, form: Form::MoveReg },
            Opcode::LslImm => Descriptor { mask: 0x0fe00070, pattern: 0x01a00000, arch: Arch::V4T, isa: Isa::Arm, flavour: Flavour::Ual, form: Form::ShiftByImm },
            Opcode::LslReg => Descriptor { mask: 0x0fe000f0, pattern: 0x01a00010, arch: Arch::V4T, isa: Isa::Arm, flavour: Flavour::Ual, form: Form::ShiftByReg },
            Opcode::LsrImm => Descriptor { mask: 0x0fe00070, pattern: 0x01a00020, arch: Arch::V4T, isa: Isa::Arm, flavour: Flavour::Ual, form: Form::ShiftByImm },
            Opcode::LsrReg => Descriptor { mask: 0x0fe000f0, pattern: 0x01a00030, arch: Arch::V4T, isa: Isa::Arm, flavour: Flavour::Ual, form: Form::ShiftByReg },
            Opcode::AsrImm => Descriptor { mask: 0x0fe00070, pattern: 0x01a00040, arch: Arch::V4T, isa: Isa::Arm, flavour: Flavour::Ual, form: Form::ShiftByImm },
            Opcode::AsrReg => Descriptor { mask: 0x0fe000f0, pattern: 0x01a00050, arch: Arch::V4T, isa: Isa::Arm, flavour: Flavour::Ual, form: Form::ShiftByReg },
            Opcode::RorImm => Descriptor { mask: 0x0fe00070, pattern: 0x01a00060, arch: Arch::V4T, isa: Isa::Arm, flavour: Flavour::Ual, form: Form::ShiftByImm },
            Opcode::RorReg => Descriptor { mask: 0x0fe000f0, pattern: 0x01a00070, arch: Arch::V4T, isa: Isa::Arm, flavour: Flavour::Ual, form: Form::ShiftByReg },
            Opcode::Rrx => Descriptor { mask: 0x0fe00ff0, pattern: 0x01a00060, arch: Arch::V4T, isa: Isa::Arm, flavour: Flavour::Ual, form: Form::MoveReg },
            Opcode::Mul => Descriptor { mask: 0x0fe000f0, pattern: 0x00000090, arch: Arch::V4T, isa: Isa::Arm, flavour: Flavour::Both, form: Form::Mul },
            Opcode::Mla => Descriptor { mask: 0x0fe000f0, pattern: 0x00200090, arch: Arch::V4T, isa: Isa::Arm, flavour: Flavour::Both, form: Form::Mla },
            Opcode::Umaal => Descriptor { mask: 0x0ff000f0, pattern: 0x00400090, arch: Arch::V6, isa: Isa::Arm, flavour: Flavour::Both, form: Form::MulLongAcc },
            Opcode::Umull => Descriptor { mask: 0x0fe000f0, pattern: 0x00800090, arch: Arch::V4T, isa: Isa::Arm, flavour: Flavour::Both, form: Form::MulLong },
            Opcode::Umlal => Descriptor { mask: 0x0fe000f0, pattern: 0x00a00090, arch: Arch::V4T, isa: Isa::Arm, flavour: Flavour::Both, form: Form::MulLong },
            Opcode::Smull => Descriptor { mask: 0x0fe000f0, pattern: 0x00c00090, arch: Arch::V4T, isa: Isa::Arm, flavour: Flavour::Both, form: Form::MulLong },
            Opcode::Smlal => Descriptor { mask: 0x0fe000f0, pattern: 0x00e00090, arch: Arch::V4T, isa: Isa::Arm, flavour: Flavour::Both, form: Form::MulLong },
            Opcode::SmlaXy => Descriptor { mask: 0x0ff00090, pattern: 0x01000080, arch: Arch::V5TE, isa: Isa::Arm, flavour: Flavour::Both, form: Form::SmlaXy },
            Opcode::SmlawY => Descriptor { mask: 0x0ff000b0, pattern: 0x01200080, arch: Arch::V5TE, isa: Isa::Arm, flavour: Flavour::Both, form: Form::SmlawY },
            Opcode::SmulwY => Descriptor { mask: 0x0ff000b0, pattern: 0x012000a0, arch: Arch::V5TE, isa: Isa::Arm, flavour: Flavour::Both, form: Form::SmulwY },
            Opcode::SmlalXy => Descriptor { mask: 0x0ff00090, pattern: 0x01400080, arch: Arch::V5TE, isa: Isa::Arm, flavour: Flavour::Both, form: Form::SmlalXy },
            Opcode::SmulXy => Descriptor { mask: 0x0ff00090, pattern: 0x01600080, arch: Arch::V5TE, isa: Isa::Arm, flavour: Flavour::Both, form: Form::SmulXy },
            Opcode::Smlad => Descriptor { mask: 0x0ff000d0, pattern: 0x07000010, arch: Arch::V6, isa: Isa::Arm, flavour: Flavour::Both, form: Form::DualMulAcc },
            Opcode::Smlsd => Descriptor { mask: 0x0ff000d0, pattern: 0x07000050, arch: Arch::V6, isa: Isa::Arm, flavour: Flavour::Both, form: Form::DualMulAcc },
            Opcode::Smuad => Descriptor { mask: 0x0ff0f0d0, pattern: 0x0700f010, arch: Arch::V6, isa: Isa::Arm, flavour: Flavour::Both, form: Form::MostSig },
            Opcode::Smusd => Descriptor { mask: 0x0ff0f0d0, pattern: 0x0700f050, arch: Arch::V6, isa: Isa::Arm, flavour: Flavour::Both, form: Form::DualMul },
            Opcode::Smlald => Descriptor { mask: 0x0ff000d0, pattern: 0x07400010, arch: Arch::V6, isa: Isa::Arm, flavour: Flavour::Both, form: Form::DualMulLong },
            Opcode::Smlsld => Descriptor { mask: 0x0ff000d0, pattern: 0x07400050, arch: Arch::V6, isa: Isa::Arm, flavour: Flavour::Both, form: Form::DualMulLong },
            Opcode::Smmla => Descriptor { mask: 0x0ff000d0, pattern: 0x07500010, arch: Arch::V6, isa: Isa::Arm, flavour: Flavour::Both, form: Form::MostSigAcc },
            Opcode::Smmls => Descriptor { mask: 0x0ff000d0, pattern: 0x075000d0, arch: Arch::V6, isa: Isa::Arm, flavour: Flavour::Both, form: Form::MostSigAcc },
            Opcode::Smmul => Descriptor { mask: 0x0ff0f0d0, pattern: 0x0750f010, arch: Arch::V6, isa: Isa::Arm, flavour: Flavour::Both, form: Form::MostSig },
            Opcode::Usada8 => Descriptor { mask: 0x0ff000f0, pattern: 0x07800010, arch: Arch::V6, isa: Isa::Arm, flavour: Flavour::Both, form: Form::SadAcc },
            Opcode::Usad8 => Descriptor { mask: 0x0ff0f0f0, pattern: 0x0780f010, arch: Arch::V6, isa: Isa::Arm, flavour: Flavour::Both, form: Form::Sad },
            Opcode::B => Descriptor { mask: 0x0f000000, pattern: 0x0a000000, arch: Arch::V4T, isa: Isa::Arm, flavour: Flavour::Both, form: Form::Branch },
            Opcode::Bl => Descriptor { mask: 0x0f000000, pattern: 0x0b000000, arch: Arch::V4T, isa: Isa::Arm, flavour: Flavour::Both, form: Form::Branch },
            Opcode::BlxImm => Descriptor { mask: 0xfe000000, pattern: 0xfa000000, arch: Arch::V5TE, isa: Isa::Arm, flavour: Flavour::Both, form: Form::BranchX },
            Opcode::Bx => Descriptor { mask: 0x0ffffff0, pattern: 0x012fff10, arch: Arch::V4T, isa: Isa::Arm, flavour: Flavour::Both, form: Form::BranchReg },
            Opcode::Bxj => Descriptor { mask: 0x0ffffff0, pattern: 0x012fff20, arch: Arch::V6, isa: Isa::Arm, flavour: Flavour::Both, form: Form::BranchReg },
            Opcode::BlxReg => Descriptor { mask: 0x0ffffff0, pattern: 0x012fff30, arch: Arch::V5TE, isa: Isa::Arm, flavour: Flavour::Both, form: Form::BranchReg },
            Opcode::Cdp => Descriptor { mask: 0x0f000010, pattern: 0x0e000000, arch: Arch::V4T, isa: Isa::Arm, flavour: Flavour::Both, form: Form::Cdp },
            Opcode::Cdp2 => Descriptor { mask: 0xff000010, pattern: 0xfe000000, arch: Arch::V5TE, isa: Isa::Arm, flavour: Flavour::Both, form: Form::Cdp2 },
            Opcode::Mcr => Descriptor { mask: 0x0f100010, pattern: 0x0e000010, arch: Arch::V4T, isa: Isa::Arm, flavour: Flavour::Both, form: Form::CoMove },
            Opcode::Mrc => Descriptor { mask: 0x0f100010, pattern: 0x0e100010, arch: Arch::V4T, isa: Isa::Arm, flavour: Flavour::Both, form: Form::CoMove },
            Opcode::Mcr2 => Descriptor { mask: 0xff100010, pattern: 0xfe000010, arch: Arch::V5TE, isa: Isa::Arm, flavour: Flavour::Both, form: Form::CoMove2 },
            Opcode::Mrc2 => Descriptor { mask: 0xff100010, pattern: 0xfe100010, arch: Arch::V5TE, isa: Isa::Arm, flavour: Flavour::Both, form: Form::CoMove2 },
            Opcode::Mcrr => Descriptor { mask: 0x0ff00000, pattern: 0x0c400000, arch: Arch::V5TE, isa: Isa::Arm, flavour: Flavour::Both, form: Form::CoMoveDouble },
            Opcode::Mrrc => Descriptor { mask: 0x0ff00000, pattern: 0x0c500000, arch: Arch::V5TE, isa: Isa::Arm, flavour: Flavour::Both, form: Form::CoMoveDouble },
            Opcode::Mcrr2 => Descriptor { mask: 0xfff00000, pattern: 0xfc400000, arch: Arch::V6, isa: Isa::Arm, flavour: Flavour::Both, form: Form::CoMoveDouble2 },
            Opcode::Mrrc2 => Descriptor { mask: 0xfff00000, pattern: 0xfc500000, arch: Arch::V6, isa: Isa::Arm, flavour: Flavour::Both, form: Form::CoMoveDouble2 },
            Opcode::Ldc => Descriptor { mask: 0x0e100000, pattern: 0x0c100000, arch: Arch::V4T, isa: Isa::Arm, flavour: Flavour::Both, form: Form::CoLoad },
            Opcode::Stc => Descriptor { mask: 0x0e100000, pattern: 0x0c000000, arch: Arch::V4T, isa: Isa::Arm, flavour: Flavour::Both, form: Form::CoLoad },
            Opcode::Ldc2 => Descriptor { mask: 0xfe100000, pattern: 0xfc100000, arch: Arch::V5TE, isa: Isa::Arm, flavour: Flavour::Both, form: Form::CoLoad2 },
            Opcode::Stc2 => Descriptor { mask: 0xfe100000, pattern: 0xfc000000, arch: Arch::V5TE, isa: Isa::Arm, flavour: Flavour::Both, form: Form::CoLoad2 },
            Opcode::Ldm => Descriptor { mask: 0x0e100000, pattern: 0x08100000, arch: Arch::V4T, isa: Isa::Arm, flavour: Flavour::Both, form: Form::Multiple },
            Opcode::Stm => Descriptor { mask: 0x0e100000, pattern: 0x08000000, arch: Arch::V4T, isa: Isa::Arm, flavour: Flavour::Both, form: Form::Multiple },
            Opcode::Pop => Descriptor { mask: 0x0fff0000, pattern: 0x08bd0000, arch: Arch::V4T, isa: Isa::Arm, flavour: Flavour::Ual, form: Form::Stack },
            Opcode::Push => Descriptor { mask: 0x0fff0000, pattern: 0x092d0000, arch: Arch::V4T, isa: Isa::Arm, flavour: Flavour::Ual, form: Form::Stack },
            Opcode::PopOne => Descriptor { mask: 0x0fff0fff, pattern: 0x049d0004, arch: Arch::V4T, isa: Isa::Arm, flavour: Flavour::Ual, form: Form::StackOne },
            Opcode::PushOne => Descriptor { mask: 0x0fff0fff, pattern: 0x052d0004, arch: Arch::V4T, isa: Isa::Arm, flavour: Flavour::Ual, form: Form::StackOne },
            Opcode::Ldr => Descriptor { mask: 0x0c500000, pattern: 0x04100000, arch: Arch::V4T, isa: Isa::Arm, flavour: Flavour::Both, form: Form::Word },
            Opcode::Ldrb => Descriptor { mask: 0x0c500000, pattern: 0x04500000, arch: Arch::V4T, isa: Isa::Arm, flavour: Flavour::Both, form: Form::Word },
            Opcode::Str => Descriptor { mask: 0x0c500000, pattern: 0x04000000, arch: Arch::V4T, isa: Isa::Arm, flavour: Flavour::Both, form: Form::Word },
            Opcode::Strb => Descriptor { mask: 0x0c500000, pattern: 0x04400000, arch: Arch::V4T, isa: Isa::Arm, flavour: Flavour::Both, form: Form::Word },
            Opcode::Ldrt => Descriptor { mask: 0x0d700000, pattern: 0x04300000, arch: Arch::V4T, isa: Isa::Arm, flavour: Flavour::Both, form: Form::Word },
            Opcode::Ldrbt => Descriptor { mask: 0x0d700000, pattern: 0x04700000, arch: Arch::V4T, isa: Isa::Arm, flavour: Flavour::Both, form: Form::Word },
            Opcode::Strt => Descriptor { mask: 0x0d700000, pattern: 0x04200000, arch: Arch::V4T, isa: Isa::Arm, flavour: Flavour::Both, form: Form::Word },
            Opcode::Strbt => Descriptor { mask: 0x0d700000, pattern: 0x04600000, arch: Arch::V4T, isa: Isa::Arm, flavour: Flavour::Both, form: Form::Word },
            Opcode::Ldrh => Descriptor { mask: 0x0e1000f0, pattern: 0x001000b0, arch: Arch::V4T, isa: Isa::Arm, flavour: Flavour::Both, form: Form::Half },
            Opcode::Strh => Descriptor { mask: 0x0e1000f0, pattern: 0x000000b0, arch: Arch::V4T, isa: Isa::Arm, flavour: Flavour::Both, form: Form::Half },
            Opcode::Ldrsb => Descriptor { mask: 0x0e1000f0, pattern: 0x001000d0, arch: Arch::V4T, isa: Isa::Arm, flavour: Flavour::Both, form: Form::Half },
            Opcode::Ldrsh => Descriptor { mask: 0x0e1000f0, pattern: 0x001000f0, arch: Arch::V4T, isa: Isa::Arm, flavour: Flavour::Both, form: Form::Half },
            Opcode::Ldrd => Descriptor { mask: 0x0e1000f0, pattern: 0x000000d0, arch: Arch::V5TE, isa: Isa::Arm, flavour: Flavour::Both, form: Form::Half },
            Opcode::Strd => Descriptor { mask: 0x0e1000f0, pattern: 0x000000f0, arch: Arch::V5TE, isa: Isa::Arm, flavour: Flavour::Both, form: Form::Half },
            Opcode::Pld => Descriptor { mask: 0xfd70f000, pattern: 0xf550f000, arch: Arch::V5TE, isa: Isa::Arm, flavour: Flavour::Both, form: Form::Preload },
            Opcode::Swp => Descriptor { mask: 0x0ff00ff0, pattern: 0x01000090, arch: Arch::V4T, isa: Isa::Arm, flavour: Flavour::Both, form: Form::Swap },
            Opcode::Swpb => Descriptor { mask: 0x0ff00ff0, pattern: 0x01400090, arch: Arch::V4T, isa: Isa::Arm, flavour: Flavour::Both, form: Form::Swap },
            Opcode::Ldrex => Descriptor { mask: 0x0ff00fff, pattern: 0x01900f9f, arch: Arch::V6, isa: Isa::Arm, flavour: Flavour::Both, form: Form::LoadEx },
            Opcode::Strex => Descriptor { mask: 0x0ff00ff0, pattern: 0x01800f90, arch: Arch::V6, isa: Isa::Arm, flavour: Flavour::Both, form: Form::Swap },
            Opcode::Mrs => Descriptor { mask: 0x0fbf0fff, pattern: 0x010f0000, arch: Arch::V4T, isa: Isa::Arm, flavour: Flavour::Both, form: Form::Mrs },
            Opcode::MsrReg => Descriptor { mask: 0x0fb0fff0, pattern: 0x0120f000, arch: Arch::V4T, isa: Isa::Arm, flavour: Flavour::Both, form: Form::MsrReg },
            Opcode::MsrImm => Descriptor { mask: 0x0fb0f000, pattern: 0x0320f000, arch: Arch::V4T, isa: Isa::Arm, flavour: Flavour::Both, form: Form::MsrImm },
            Opcode::Svc => Descriptor { mask: 0x0f000000, pattern: 0x0f000000, arch: Arch::V4T, isa: Isa::Arm, flavour: Flavour::Ual, form: Form::Svc },
            Opcode::Swi => Descriptor { mask: 0x0f000000, pattern: 0x0f000000, arch: Arch::V4T, isa: Isa::Arm, flavour: Flavour::Divided, form: Form::Svc },
            Opcode::Bkpt => Descriptor { mask: 0xfff000f0, pattern: 0xe1200070, arch: Arch::V5TE, isa: Isa::Arm, flavour: Flavour::Both, form: Form::Bkpt },
            Opcode::Clz => Descriptor { mask: 0x0fff0ff0, pattern: 0x016f0f10, arch: Arch::V5TE, isa: Isa::Arm, flavour: Flavour::Both, form: Form::RdRm },
            Opcode::Qadd => Descriptor { mask: 0x0ff00ff0, pattern: 0x01000050, arch: Arch::V5TE, isa: Isa::Arm, flavour: Flavour::Both, form: Form::RdRmRn },
            Opcode::Qsub => Descriptor { mask: 0x0ff00ff0, pattern: 0x01200050, arch: Arch::V5TE, isa: Isa::Arm, flavour: Flavour::Both, form: Form::RdRmRn },
            Opcode::Qdadd => Descriptor { mask: 0x0ff00ff0, pattern: 0x01400050, arch: Arch::V5TE, isa: Isa::Arm, flavour: Flavour::Both, form: Form::RdRmRn },
            Opcode::Qdsub => Descriptor { mask: 0x0ff00ff0, pattern: 0x01600050, arch: Arch::V5TE, isa: Isa::Arm, flavour: Flavour::Both, form: Form::RdRmRn },
            Opcode::Sadd16 => Descriptor { mask: 0x0ff00ff0, pattern: 0x06100f10, arch: Arch::V6, isa: Isa::Arm, flavour: Flavour::Both, form: Form::RdRnRm },
            Opcode::Saddsubx => Descriptor { mask: 0x0ff00ff0, pattern: 0x06100f30, arch: Arch::V6, isa: Isa::Arm, flavour: Flavour::Both, form: Form::RdRnRm },
            Opcode::Ssubaddx => Descriptor { mask: 0x0ff00ff0, pattern: 0x06100f50, arch: Arch::V6, isa: Isa::Arm, flavour: Flavour::Both, form: Form::RdRnRm },
            Opcode::Ssub16 => Descriptor { mask: 0x0ff00ff0, pattern: 0x06100f70, arch: Arch::V6, isa: Isa::Arm, flavour: Flavour::Both, form: Form::RdRnRm },
            Opcode::Sadd8 => Descriptor { mask: 0x0ff00ff0, pattern: 0x06100f90, arch: Arch::V6, isa: Isa::Arm, flavour: Flavour::Both, form: Form::RdRnRm },
            Opcode::Ssub8 => Descriptor { mask: 0x0ff00ff0, pattern: 0x06100ff0, arch: Arch::V6, isa: Isa::Arm, flavour: Flavour::Both, form: Form::RdRnRm },
            Opcode::Qadd16 => Descriptor { mask: 0x0ff00ff0, pattern: 0x06200f10, arch: Arch::V6, isa: Isa::Arm, flavour: Flavour::Both, form: Form::RdRnRm },
            Opcode::Qaddsubx => Descriptor { mask: 0x0ff00ff0, pattern: 0x06200f30, arch: Arch::V6, isa: Isa::Arm, flavour: Flavour::Both, form: Form::RdRnRm },
            Opcode::Qsubaddx => Descriptor { mask: 0x0ff00ff0, pattern: 0x06200f50, arch: Arch::V6, isa: Isa::Arm, flavour: Flavour::Both, form: Form::RdRnRm },
            Opcode::Qsub16 => Descriptor { mask: 0x0ff00ff0, pattern: 0x06200f70, arch: Arch::V6, isa: Isa::Arm, flavour: Flavour::Both, form: Form::RdRnRm },
            Opcode::Qadd8 => Descriptor { mask: 0x0ff00ff0, pattern: 0x06200f90, arch: Arch::V6, isa: Isa::Arm, flavour: Flavour::Both, form: Form::RdRnRm },
            Opcode::Qsub8 => Descriptor { mask: 0x0ff00ff0, pattern: 0x06200ff0, arch: Arch::V6, isa: Isa::Arm, flavour: Flavour::Both, form: Form::RdRnRm },
            Opcode::Shadd16 => Descriptor { mask: 0x0ff00ff0, pattern: 0x06300f10, arch: Arch::V6, isa: Isa::Arm, flavour: Flavour::Both, form: Form::RdRnRm },
            Opcode::Shaddsubx => Descriptor { mask: 0x0ff00ff0, pattern: 0x06300f30, arch: Arch::V6, isa: Isa::Arm, flavour: Flavour::Both, form: Form::RdRnRm },
            Opcode::Shsubaddx => Descriptor { mask: 0x0ff00ff0, pattern: 0x06300f50, arch: Arch::V6, isa: Isa::Arm, flavour: Flavour::Both, form: Form::RdRnRm },
            Opcode::Shsub16 => Descriptor { mask: 0x0ff00ff0, pattern: 0x06300f70, arch: Arch::V6, isa: Isa::Arm, flavour: Flavour::Both, form: Form::RdRnRm },
            Opcode::Shadd8 => Descriptor { mask: 0x0ff00ff0, pattern: 0x06300f90, arch: Arch::V6, isa: Isa::Arm, flavour: Flavour::Both, form: Form::RdRnRm },
            Opcode::Shsub8 => Descriptor { mask: 0x0ff00ff0, pattern: 0x06300ff0, arch: Arch::V6, isa: Isa::Arm, flavour: Flavour::Both, form: Form::RdRnRm },
            Opcode::Uadd16 => Descriptor { mask: 0x0ff00ff0, pattern: 0x06500f10, arch: Arch::V6, isa: Isa::Arm, flavour: Flavour::Both, form: Form::RdRnRm },
            Opcode::Uaddsubx => Descriptor { mask: 0x0ff00ff0, pattern: 0x06500f30, arch: Arch::V6, isa: Isa::Arm, flavour: Flavour::Both, form: Form::RdRnRm },
            Opcode::Usubaddx => Descriptor { mask: 0x0ff00ff0, pattern: 0x06500f50, arch: Arch::V6, isa: Isa::Arm, flavour: Flavour::Both, form: Form::RdRnRm },
            Opcode::Usub16 => Descriptor { mask: 0x0ff00ff0, pattern: 0x06500f70, arch: Arch::V6, isa: Isa::Arm, flavour: Flavour::Both, form: Form::RdRnRm },
            Opcode::Uadd8 => Descriptor { mask: 0x0ff00ff0, pattern: 0x06500f90, arch: Arch::V6, isa: Isa::Arm, flavour: Flavour::Both, form: Form::RdRnRm },
            Opcode::Usub8 => Descriptor { mask: 0x0ff00ff0, pattern: 0x06500ff0, arch: Arch::V6, isa: Isa::Arm, flavour: Flavour::Both, form: Form::RdRnRm },
            Opcode::Uqadd16 => Descriptor { mask: 0x0ff00ff0, pattern: 0x06600f10, arch: Arch::V6, isa: Isa::Arm, flavour: Flavour::Both, form: Form::RdRnRm },
            Opcode::Uqaddsubx => Descriptor { mask: 0x0ff00ff0, pattern: 0x06600f30, arch: Arch::V6, isa: Isa::Arm, flavour: Flavour::Both, form: Form::RdRnRm },
            Opcode::Uqsubaddx => Descriptor { mask: 0x0ff00ff0, pattern: 0x06600f50, arch: Arch::V6, isa: Isa::Arm, flavour: Flavour::Both, form: Form::RdRnRm },
            Opcode::Uqsub16 => Descriptor { mask: 0x0ff00ff0, pattern: 0x06600f70, arch: Arch::V6, isa: Isa::Arm, flavour: Flavour::Both, form: Form::RdRnRm },
            Opcode::Uqadd8 => Descriptor { mask: 0x0ff00ff0, pattern: 0x06600f90, arch: Arch::V6, isa: Isa::Arm, flavour: Flavour::Both, form: Form::RdRnRm },
            Opcode::Uqsub8 => Descriptor { mask: 0x0ff00ff0, pattern: 0x06600ff0, arch: Arch::V6, isa: Isa::Arm, flavour: Flavour::Both, form: Form::RdRnRm },
            Opcode::Uhadd16 => Descriptor { mask: 0x0ff00ff0, pattern: 0x06700f10, arch: Arch::V6, isa: Isa::Arm, flavour: Flavour::Both, form: Form::RdRnRm },
            Opcode::Uhaddsubx => Descriptor { mask: 0x0ff00ff0, pattern: 0x06700f30, arch: Arch::V6, isa: Isa::Arm, flavour: Flavour::Both, form: Form::RdRnRm },
            Opcode::Uhsubaddx => Descriptor { mask: 0x0ff00ff0, pattern: 0x06700f50, arch: Arch::V6, isa: Isa::Arm, flavour: Flavour::Both, form: Form::RdRnRm },
            Opcode::Uhsub16 => Descriptor { mask: 0x0ff00ff0, pattern: 0x06700f70, arch: Arch::V6, isa: Isa::Arm, flavour: Flavour::Both, form: Form::RdRnRm },
            Opcode::Uhadd8 => Descriptor { mask: 0x0ff00ff0, pattern: 0x06700f90, arch: Arch::V6, isa: Isa::Arm, flavour: Flavour::Both, form: Form::RdRnRm },
            Opcode::Uhsub8 => Descriptor { mask: 0x0ff00ff0, pattern: 0x06700ff0, arch: Arch::V6, isa: Isa::Arm, flavour: Flavour::Both, form: Form::RdRnRm },
            Opcode::Sel => Descriptor { mask: 0x0ff00ff0, pattern: 0x06800fb0, arch: Arch::V6, isa: Isa::Arm, flavour: Flavour::Both, form: Form::RdRnRm },
            Opcode::Rev => Descriptor { mask: 0x0fff0ff0, pattern: 0x06bf0f30, arch: Arch::V6, isa: Isa::Arm, flavour: Flavour::Both, form: Form::RdRm },
            Opcode::Rev16 => Descriptor { mask: 0x0fff0ff0, pattern: 0x06bf0fb0, arch: Arch::V6, isa: Isa::Arm, flavour: Flavour::Both, form: Form::RdRm },
            Opcode::Revsh => Descriptor { mask: 0x0fff0ff0, pattern: 0x06ff0f30, arch: Arch::V6, isa: Isa::Arm, flavour: Flavour::Both, form: Form::RdRm },
            Opcode::Pkhbt => Descriptor { mask: 0x0ff00070, pattern: 0x06800010, arch: Arch::V6, isa: Isa::Arm, flavour: Flavour::Both, form: Form::Pack },
            Opcode::Pkhtb => Descriptor { mask: 0x0ff00070, pattern: 0x06800050, arch: Arch::V6, isa: Isa::Arm, flavour: Flavour::Both, form: Form::Pack },
            Opcode::Ssat => Descriptor { mask: 0x0fe00030, pattern: 0x06a00010, arch: Arch::V6, isa: Isa::Arm, flavour: Flavour::Both, form: Form::SatS },
            Opcode::Usat => Descriptor { mask: 0x0fe00030, pattern: 0x06e00010, arch: Arch::V6, isa: Isa::Arm, flavour: Flavour::Both, form: Form::SatU },
            Opcode::Ssat16 => Descriptor { mask: 0x0ff00ff0, pattern: 0x06a00f30, arch: Arch::V6, isa: Isa::Arm, flavour: Flavour::Both, form: Form::Sat16S },
            Opcode::Usat16 => Descriptor { mask: 0x0ff00ff0, pattern: 0x06e00f30, arch: Arch::V6, isa: Isa::Arm, flavour: Flavour::Both, form: Form::Sat16U },
            Opcode::Sxtab16 => Descriptor { mask: 0x0ff003f0, pattern: 0x06800070, arch: Arch::V6, isa: Isa::Arm, flavour: Flavour::Both, form: Form::ExtendAdd },
            Opcode::Sxtb16 => Descriptor { mask: 0x0fff03f0, pattern: 0x068f0070, arch: Arch::V6, isa: Isa::Arm, flavour: Flavour::Both, form: Form::Extend },
            Opcode::Sxtab => Descriptor { mask: 0x0ff003f0, pattern: 0x06a00070, arch: Arch::V6, isa: Isa::Arm, flavour: Flavour::Both, form: Form::ExtendAdd },
            Opcode::Sxtb => Descriptor { mask: 0x0fff03f0, pattern: 0x06af0070, arch: Arch::V6, isa: Isa::Arm, flavour: Flavour::Both, form: Form::Extend },
            Opcode::Sxtah => Descriptor { mask: 0x0ff003f0, pattern: 0x06b00070, arch: Arch::V6, isa: Isa::Arm, flavour: Flavour::Both, form: Form::ExtendAdd },
            Opcode::Sxth => Descriptor { mask: 0x0fff03f0, pattern: 0x06bf0070, arch: Arch::V6, isa: Isa::Arm, flavour: Flavour::Both, form: Form::Extend },
            Opcode::Uxtab16 => Descriptor { mask: 0x0ff003f0, pattern: 0x06c00070, arch: Arch::V6, isa: Isa::Arm, flavour: Flavour::Both, form: Form::ExtendAdd },
            Opcode::Uxtb16 => Descriptor { mask: 0x0fff03f0, pattern: 0x06cf0070, arch: Arch::V6, isa: Isa::Arm, flavour: Flavour::Both, form: Form::Extend },
            Opcode::Uxtab => Descriptor { mask: 0x0ff003f0, pattern: 0x06e00070, arch: Arch::V6, isa: Isa::Arm, flavour: Flavour::Both, form: Form::ExtendAdd },
            Opcode::Uxtb => Descriptor { mask: 0x0fff03f0, pattern: 0x06ef0070, arch: Arch::V6, isa: Isa::Arm, flavour: Flavour::Both, form: Form::Extend },
            Opcode::Uxtah => Descriptor { mask: 0x0ff003f0, pattern: 0x06f00070, arch: Arch::V6, isa: Isa::Arm, flavour: Flavour::Both, form: Form::ExtendAdd },
            Opcode::Uxth => Descriptor { mask: 0x0fff03f0, pattern: 0x06ff0070, arch: Arch::V6, isa: Isa::Arm, flavour: Flavour::Both, form: Form::Extend },
            Opcode::Clrex => Descriptor { mask: 0xffffffff, pattern: 0xf57ff01f, arch: Arch::V6K, isa: Isa::Arm, flavour: Flavour::Both, form: Form::Bare },
            Opcode::Ldrexd => Descriptor { mask: 0x0ff00fff, pattern: 0x01b00f9f, arch: Arch::V6K, isa: Isa::Arm, flavour: Flavour::Both, form: Form::LoadEx },
            Opcode::Ldrexb => Descriptor { mask: 0x0ff00fff, pattern: 0x01d00f9f, arch: Arch::V6K, isa: Isa::Arm, flavour: Flavour::Both, form: Form::LoadEx },
            Opcode::Ldrexh => Descriptor { mask: 0x0ff00fff, pattern: 0x01f00f9f, arch: Arch::V6K, isa: Isa::Arm, flavour: Flavour::Both, form: Form::LoadEx },
            Opcode::Strexd => Descriptor { mask: 0x0ff00ff0, pattern: 0x01a00f90, arch: Arch::V6K, isa: Isa::Arm, flavour: Flavour::Both, form: Form::Swap },
            Opcode::Strexb => Descriptor { mask: 0x0ff00ff0, pattern: 0x01c00f90, arch: Arch::V6K, isa: Isa::Arm, flavour: Flavour::Both, form: Form::Swap },
            Opcode::Strexh => Descriptor { mask: 0x0ff00ff0, pattern: 0x01e00f90, arch: Arch::V6K, isa: Isa::Arm, flavour: Flavour::Both, form: Form::Swap },
            Opcode::Nop => Descriptor { mask: 0x0fffffff, pattern: 0x0320f000, arch: Arch::V6K, isa: Isa::Arm, flavour: Flavour::Both, form: Form::Hint },
            Opcode::Yield => Descriptor { mask: 0x0fffffff, pattern: 0x0320f001, arch: Arch::V6K, isa: Isa::Arm, flavour: Flavour::Both, form: Form::Hint },
            Opcode::Wfe => Descriptor { mask: 0x0fffffff, pattern: 0x0320f002, arch: Arch::V6K, isa: Isa::Arm, flavour: Flavour::Both, form: Form::Hint },
            Opcode::Wfi => Descriptor { mask: 0x0fffffff, pattern: 0x0320f003, arch: Arch::V6K, isa: Isa::Arm, flavour: Flavour::Both, form: Form::Hint },
            Opcode::Sev => Descriptor { mask: 0x0fffffff, pattern: 0x0320f004, arch: Arch::V6K, isa: Isa::Arm, flavour: Flavour::Both, form: Form::Hint },
            Opcode::Cps => Descriptor { mask: 0xfff1fe20, pattern: 0xf1000000, arch: Arch::V6, isa: Isa::Arm, flavour: Flavour::Both, form: Form::Cps },
            Opcode::Setend => Descriptor { mask: 0xfffffdff, pattern: 0xf1010000, arch: Arch::V6, isa: Isa::Arm, flavour: Flavour::Both, form: Form::Setend },
            Opcode::Rfe => Descriptor { mask: 0xfe50ffff, pattern: 0xf8100a00, arch: Arch::V6, isa: Isa::Arm, flavour: Flavour::Both, form: Form::Rfe },
            Opcode::Srs => Descriptor { mask: 0xfe5fffe0, pattern: 0xf84d0500, arch: Arch::V6, isa: Isa::Arm, flavour: Flavour::Both, form: Form::Srs },
            Opcode::TLslImm => Descriptor { mask: 0x0000f800, pattern: 0x00000000, arch: Arch::V4T, isa: Isa::Thumb, flavour: Flavour::Both, form: Form::TShiftImm },
            Opcode::TLsrImm => Descriptor { mask: 0x0000f800, pattern: 0x00000800, arch: Arch::V4T, isa: Isa::Thumb, flavour: Flavour::Both, form: Form::TShiftImm },
            Opcode::TAsrImm => Descriptor { mask: 0x0000f800, pattern: 0x00001000, arch: Arch::V4T, isa: Isa::Thumb, flavour: Flavour::Both, form: Form::TShiftImm },
            Opcode::TAddReg => Descriptor { mask: 0x0000fe00, pattern: 0x00001800, arch: Arch::V4T, isa: Isa::Thumb, flavour: Flavour::Both, form: Form::TRegs3 },
            Opcode::TSubReg => Descriptor { mask: 0x0000fe00, pattern: 0x00001a00, arch: Arch::V4T, isa: Isa::Thumb, flavour: Flavour::Both, form: Form::TRegs3 },
            Opcode::TAddImm3 => Descriptor { mask: 0x0000fe00, pattern: 0x00001c00, arch: Arch::V4T, isa: Isa::Thumb, flavour: Flavour::Both, form: Form::TImm3 },
            Opcode::TSubImm3 => Descriptor { mask: 0x0000fe00, pattern: 0x00001e00, arch: Arch::V4T, isa: Isa::Thumb, flavour: Flavour::Both, form: Form::TImm3 },
            Opcode::TMovImm => Descriptor { mask: 0x0000f800, pattern: 0x00002000, arch: Arch::V4T, isa: Isa::Thumb, flavour: Flavour::Both, form: Form::TImm8 },
            Opcode::TCmpImm => Descriptor { mask: 0x0000f800, pattern: 0x00002800, arch: Arch::V4T, isa: Isa::Thumb, flavour: Flavour::Both, form: Form::TCmpImm },
            Opcode::TAddImm8 => Descriptor { mask: 0x0000f800, pattern: 0x00003000, arch: Arch::V4T, isa: Isa::Thumb, flavour: Flavour::Both, form: Form::TImm8 },
            Opcode::TSubImm8 => Descriptor { mask: 0x0000f800, pattern: 0x00003800, arch: Arch::V4T, isa: Isa::Thumb, flavour: Flavour::Both, form: Form::TImm8 },
            Opcode::TAnd => Descriptor { mask: 0x0000ffc0, pattern: 0x00004000, arch: Arch::V4T, isa: Isa::Thumb, flavour: Flavour::Both, form: Form::TAlu },
            Opcode::TEor => Descriptor { mask: 0x0000ffc0, pattern: 0x00004040, arch: Arch::V4T, isa: Isa::Thumb, flavour: Flavour::Both, form: Form::TAlu },
            Opcode::TLslReg => Descriptor { mask: 0x0000ffc0, pattern: 0x00004080, arch: Arch::V4T, isa: Isa::Thumb, flavour: Flavour::Both, form: Form::TAlu },
            Opcode::TLsrReg => Descriptor { mask: 0x0000ffc0, pattern: 0x000040c0, arch: Arch::V4T, isa: Isa::Thumb, flavour: Flavour::Both, form: Form::TAlu },
            Opcode::TAsrReg => Descriptor { mask: 0x0000ffc0, pattern: 0x00004100, arch: Arch::V4T, isa: Isa::Thumb, flavour: Flavour::Both, form: Form::TAlu },
            Opcode::TAdc => Descriptor { mask: 0x0000ffc0, pattern: 0x00004140, arch: Arch::V4T, isa: Isa::Thumb, flavour: Flavour::Both, form: Form::TAlu },
            Opcode::TSbc => Descriptor { mask: 0x0000ffc0, pattern: 0x00004180, arch: Arch::V4T, isa: Isa::Thumb, flavour: Flavour::Both, form: Form::TAlu },
            Opcode::TRorReg => Descriptor { mask: 0x0000ffc0, pattern: 0x000041c0, arch: Arch::V4T, isa: Isa::Thumb, flavour: Flavour::Both, form: Form::TAlu },
            Opcode::TTst => Descriptor { mask: 0x0000ffc0, pattern: 0x00004200, arch: Arch::V4T, isa: Isa::Thumb, flavour: Flavour::Both, form: Form::TTest },
            Opcode::TNeg => Descriptor { mask: 0x0000ffc0, pattern: 0x00004240, arch: Arch::V4T, isa: Isa::Thumb, flavour: Flavour::Both, form: Form::TAlu },
            Opcode::TCmpReg => Descriptor { mask: 0x0000ffc0, pattern: 0x00004280, arch: Arch::V4T, isa: Isa::Thumb, flavour: Flavour::Both, form: Form::TTest },
            Opcode::TCmn => Descriptor { mask: 0x0000ffc0, pattern: 0x000042c0, arch: Arch::V4T, isa: Isa::Thumb, flavour: Flavour::Both, form: Form::TTest },
            Opcode::TOrr => Descriptor { mask: 0x0000ffc0, pattern: 0x00004300, arch: Arch::V4T, isa: Isa::Thumb, flavour: Flavour::Both, form: Form::TAlu },
            Opcode::TMul => Descriptor { mask: 0x0000ffc0, pattern: 0x00004340, arch: Arch::V4T, isa: Isa::Thumb, flavour: Flavour::Both, form: Form::TAlu },
            Opcode::TBic => Descriptor { mask: 0x0000ffc0, pattern: 0x00004380, arch: Arch::V4T, isa: Isa::Thumb, flavour: Flavour::Both, form: Form::TAlu },
            Opcode::TMvn => Descriptor { mask: 0x0000ffc0, pattern: 0x000043c0, arch: Arch::V4T, isa: Isa::Thumb, flavour: Flavour::Both, form: Form::TAlu },
            Opcode::TAddHi => Descriptor { mask: 0x0000ff00, pattern: 0x00004400, arch: Arch::V4T, isa: Isa::Thumb, flavour: Flavour::Both, form: Form::THiRegs },
            Opcode::TCmpHi => Descriptor { mask: 0x0000ff00, pattern: 0x00004500, arch: Arch::V4T, isa: Isa::Thumb, flavour: Flavour::Both, form: Form::THiRegs },
            Opcode::TMovHi => Descriptor { mask: 0x0000ff00, pattern: 0x00004600, arch: Arch::V4T, isa: Isa::Thumb, flavour: Flavour::Both, form: Form::THiRegs },
            Opcode::TBx => Descriptor { mask: 0x0000ff87, pattern: 0x00004700, arch: Arch::V4T, isa: Isa::Thumb, flavour: Flavour::Both, form: Form::TBranchReg },
            Opcode::TBlxReg => Descriptor { mask: 0x0000ff87, pattern: 0x00004780, arch: Arch::V5TE, isa: Isa::Thumb, flavour: Flavour::Both, form: Form::TBranchReg },
            Opcode::TLdrPc => Descriptor { mask: 0x0000f800, pattern: 0x00004800, arch: Arch::V4T, isa: Isa::Thumb, flavour: Flavour::Both, form: Form::TLoadPc },
            Opcode::TStrReg => Descriptor { mask: 0x0000fe00, pattern: 0x00005000, arch: Arch::V4T, isa: Isa::Thumb, flavour: Flavour::Both, form: Form::TMemReg },
            Opcode::TStrhReg => Descriptor { mask: 0x0000fe00, pattern: 0x00005200, arch: Arch::V4T, isa: Isa::Thumb, flavour: Flavour::Both, form: Form::TMemReg },
            Opcode::TStrbReg => Descriptor { mask: 0x0000fe00, pattern: 0x00005400, arch: Arch::V4T, isa: Isa::Thumb, flavour: Flavour::Both, form: Form::TMemReg },
            Opcode::TLdrsbReg => Descriptor { mask: 0x0000fe00, pattern: 0x00005600, arch: Arch::V4T, isa: Isa::Thumb, flavour: Flavour::Both, form: Form::TMemReg },
            Opcode::TLdrReg => Descriptor { mask: 0x0000fe00, pattern: 0x00005800, arch: Arch::V4T, isa: Isa::Thumb, flavour: Flavour::Both, form: Form::TMemReg },
            Opcode::TLdrhReg => Descriptor { mask: 0x0000fe00, pattern: 0x00005a00, arch: Arch::V4T, isa: Isa::Thumb, flavour: Flavour::Both, form: Form::TMemReg },
            Opcode::TLdrbReg => Descriptor { mask: 0x0000fe00, pattern: 0x00005c00, arch: Arch::V4T, isa: Isa::Thumb, flavour: Flavour::Both, form: Form::TMemReg },
            Opcode::TLdrshReg => Descriptor { mask: 0x0000fe00, pattern: 0x00005e00, arch: Arch::V4T, isa: Isa::Thumb, flavour: Flavour::Both, form: Form::TMemReg },
            Opcode::TStrImm => Descriptor { mask: 0x0000f800, pattern: 0x00006000, arch: Arch::V4T, isa: Isa::Thumb, flavour: Flavour::Both, form: Form::TMemWord },
            Opcode::TLdrImm => Descriptor { mask: 0x0000f800, pattern: 0x00006800, arch: Arch::V4T, isa: Isa::Thumb, flavour: Flavour::Both, form: Form::TMemWord },
            Opcode::TStrbImm => Descriptor { mask: 0x0000f800, pattern: 0x00007000, arch: Arch::V4T, isa: Isa::Thumb, flavour: Flavour::Both, form: Form::TMemByte },
            Opcode::TLdrbImm => Descriptor { mask: 0x0000f800, pattern: 0x00007800, arch: Arch::V4T, isa: Isa::Thumb, flavour: Flavour::Both, form: Form::TMemByte },
            Opcode::TStrhImm => Descriptor { mask: 0x0000f800, pattern: 0x00008000, arch: Arch::V4T, isa: Isa::Thumb, flavour: Flavour::Both, form: Form::TMemHalf },
            Opcode::TLdrhImm => Descriptor { mask: 0x0000f800, pattern: 0x00008800, arch: Arch::V4T, isa: Isa::Thumb, flavour: Flavour::Both, form: Form::TMemHalf },
            Opcode::TStrSp => Descriptor { mask: 0x0000f800, pattern: 0x00009000, arch: Arch::V4T, isa: Isa::Thumb, flavour: Flavour::Both, form: Form::TMemSp },
            Opcode::TLdrSp => Descriptor { mask: 0x0000f800, pattern: 0x00009800, arch: Arch::V4T, isa: Isa::Thumb, flavour: Flavour::Both, form: Form::TMemSp },
            Opcode::TAddPc => Descriptor { mask: 0x0000f800, pattern: 0x0000a000, arch: Arch::V4T, isa: Isa::Thumb, flavour: Flavour::Both, form: Form::TAddPc },
            Opcode::TAddSp => Descriptor { mask: 0x0000f800, pattern: 0x0000a800, arch: Arch::V4T, isa: Isa::Thumb, flavour: Flavour::Both, form: Form::TAddSp },
            Opcode::TAddSpImm => Descriptor { mask: 0x0000ff80, pattern: 0x0000b000, arch: Arch::V4T, isa: Isa::Thumb, flavour: Flavour::Both, form: Form::TAdjustSp },
            Opcode::TSubSpImm => Descriptor { mask: 0x0000ff80, pattern: 0x0000b080, arch: Arch::V4T, isa: Isa::Thumb, flavour: Flavour::Both, form: Form::TAdjustSp },
            Opcode::TSxth => Descriptor { mask: 0x0000ffc0, pattern: 0x0000b200, arch: Arch::V6, isa: Isa::Thumb, flavour: Flavour::Both, form: Form::TRegs2 },
            Opcode::TSxtb => Descriptor { mask: 0x0000ffc0, pattern: 0x0000b240, arch: Arch::V6, isa: Isa::Thumb, flavour: Flavour::Both, form: Form::TRegs2 },
            Opcode::TUxth => Descriptor { mask: 0x0000ffc0, pattern: 0x0000b280, arch: Arch::V6, isa: Isa::Thumb, flavour: Flavour::Both, form: Form::TRegs2 },
            Opcode::TUxtb => Descriptor { mask: 0x0000ffc0, pattern: 0x0000b2c0, arch: Arch::V6, isa: Isa::Thumb, flavour: Flavour::Both, form: Form::TRegs2 },
            Opcode::TPush => Descriptor { mask: 0x0000fe00, pattern: 0x0000b400, arch: Arch::V4T, isa: Isa::Thumb, flavour: Flavour::Both, form: Form::TPush },
            Opcode::TPop => Descriptor { mask: 0x0000fe00, pattern: 0x0000bc00, arch: Arch::V4T, isa: Isa::Thumb, flavour: Flavour::Both, form: Form::TPop },
            Opcode::TSetend => Descriptor { mask: 0x0000fff7, pattern: 0x0000b650, arch: Arch::V6, isa: Isa::Thumb, flavour: Flavour::Both, form: Form::TSetend },
            Opcode::TCps => Descriptor { mask: 0x0000ffe8, pattern: 0x0000b660, arch: Arch::V6, isa: Isa::Thumb, flavour: Flavour::Both, form: Form::TCps },
            Opcode::TRev => Descriptor { mask: 0x0000ffc0, pattern: 0x0000ba00, arch: Arch::V6, isa: Isa::Thumb, flavour: Flavour::Both, form: Form::TRegs2 },
            Opcode::TRev16 => Descriptor { mask: 0x0000ffc0, pattern: 0x0000ba40, arch: Arch::V6, isa: Isa::Thumb, flavour: Flavour::Both, form: Form::TRegs2 },
            Opcode::TRevsh => Descriptor { mask: 0x0000ffc0, pattern: 0x0000bac0, arch: Arch::V6, isa: Isa::Thumb, flavour: Flavour::Both, form: Form::TRegs2 },
            Opcode::TBkpt => Descriptor { mask: 0x0000ff00, pattern: 0x0000be00, arch: Arch::V5TE, isa: Isa::Thumb, flavour: Flavour::Both, form: Form::TImmOnly },
            Opcode::TStm => Descriptor { mask: 0x0000f800, pattern: 0x0000c000, arch: Arch::V4T, isa: Isa::Thumb, flavour: Flavour::Both, form: Form::TStm },
            Opcode::TLdm => Descriptor { mask: 0x0000f800, pattern: 0x0000c800, arch: Arch::V4T, isa: Isa::Thumb, flavour: Flavour::Both, form: Form::TLdm },
            Opcode::TBCond => Descriptor { mask: 0x0000f000, pattern: 0x0000d000, arch: Arch::V4T, isa: Isa::Thumb, flavour: Flavour::Both, form: Form::TBranchCond },
            Opcode::TSvc => Descriptor { mask: 0x0000ff00, pattern: 0x0000df00, arch: Arch::V4T, isa: Isa::Thumb, flavour: Flavour::Ual, form: Form::TImmOnly },
            Opcode::TSwi => Descriptor { mask: 0x0000ff00, pattern: 0x0000df00, arch: Arch::V4T, isa: Isa::Thumb, flavour: Flavour::Divided, form: Form::TImmOnly },
            Opcode::TB => Descriptor { mask: 0x0000f800, pattern: 0x0000e000, arch: Arch::V4T, isa: Isa::Thumb, flavour: Flavour::Both, form: Form::TBranch },
            Opcode::BlH => Descriptor { mask: 0x0000f800, pattern: 0x0000f000, arch: Arch::V4T, isa: Isa::Thumb, flavour: Flavour::Both, form: Form::TBlHalf },
            Opcode::TBl => Descriptor { mask: 0xf800f800, pattern: 0xf000f800, arch: Arch::V4T, isa: Isa::Thumb, flavour: Flavour::Both, form: Form::TBlLong },
            Opcode::TBlx => Descriptor { mask: 0xf800f801, pattern: 0xf000e800, arch: Arch::V5TE, isa: Isa::Thumb, flavour: Flavour::Both, form: Form::TBlLong },
        }
    }

    /// Signature and operand layout of this opcode.
    #[verifier::when_used_as_spec(spec_descriptor)]
    pub fn descriptor(self) -> (r: Descriptor)
        ensures
            r == self.spec_descriptor(),
    {
        match self {
            Opcode::Illegal => Descriptor { mask: 0, pattern: 0, arch: Arch::V4T, isa: Isa::Arm, flavour: Flavour::Both, form: Form::Bkpt },
            Opcode::And => Descriptor { mask: 0x0de00000, pattern: 0x00000000, arch: Arch::V4T, isa: Isa::Arm, flavour: Flavour::Both, form: Form::DpRdRn },
            Opcode::Eor => Descriptor { mask: 0x0de00000, pattern: 0x00200000, arch: Arch::V4T, isa: Isa::Arm, flavour: Flavour::Both, form: Form::DpRdRn },
            Opcode::Sub => Descriptor { mask: 0x0de00000, pattern: 0x00400000, arch: Arch::V4T, isa: Isa::Arm, flavour: Flavour::Both, form: Form::DpRdRn },
            Opcode::Rsb => Descriptor { mask: 0x0de00000, pattern: 0x00600000, arch: Arch::V4T, isa: Isa::Arm, flavour: Flavour::Both, form: Form::DpRdRn },
            Opcode::Add => Descriptor { mask: 0x0de00000, pattern: 0x00800000, arch: Arch::V4T, isa: Isa::Arm, flavour: Flavour::Both, form: Form::DpRdRn },
            Opcode::Adc => Descriptor { mask: 0x0de00000, pattern: 0x00a00000, arch: Arch::V4T, isa: Isa::Arm, flavour: Flavour::Both, form: Form::DpRdRn },
            Opcode::Sbc => Descriptor { mask: 0x0de00000, pattern: 0x00c00000, arch: Arch::V4T, isa: Isa::Arm, flavour: Flavour::Both, form: Form::DpRdRn },
            Opcode::Rsc => Descriptor { mask: 0x0de00000, pattern: 0x00e00000, arch: Arch::V4T, isa: Isa::Arm, flavour: Flavour::Both, form: Form::DpRdRn },
            Opcode::Tst => Descriptor { mask: 0x0df00000, pattern: 0x01100000, arch: Arch::V4T, isa: Isa::Arm, flavour: Flavour::Both, form: Form::DpRn },
            Opcode::Teq => Descriptor { mask: 0x0df00000, pattern: 0x01300000, arch: Arch::V4T, isa: Isa::Arm, flavour: Flavour::Both, form: Form::DpRn },
            Opcode::Cmp => Descriptor { mask: 0x0df00000, pattern: 0x01500000, arch: Arch::V4T, isa: Isa::Arm, flavour: Flavour::Both, form: Form::DpRn },
            Opcode::Cmn => Descriptor { mask: 0x0df00000, pattern: 0x01700000, arch: Arch::V4T, isa: Isa::Arm, flavour: Flavour::Both, form: Form::DpRn },
            Opcode::Orr => Descriptor { mask: 0x0de00000, pattern: 0x01800000, arch: Arch::V4T, isa: Isa::Arm, flavour: Flavour::Both, form: Form::DpRdRn },
            Opcode::Mov => Descriptor { mask: 0x0de00000, pattern: 0x01a00000, arch: Arch::V4T, isa: Isa::Arm, flavour: Flavour::Both, form: Form::DpRd },
            Opcode::Bic => Descriptor { mask: 0x0de00000, pattern: 0x01c00000, arch: Arch::V4T, isa: Isa::Arm, flavour: Flavour::Both, form: Form::DpRdRn },
            Opcode::Mvn => Descriptor { mask: 0x0de00000, pattern: 0x01e00000, arch: Arch::V4T, isa: Isa::Arm, flavour: Flavour::Both, form: Form::DpRd },
            Opcode::MovReg => Descriptor { mask: 0x0fe00ff0, pattern: 0x01a00000, arch: Arch::V4T, isa: Isa::Arm, flavour: Flavour::Ual, form: Form::MoveReg },
            Opcode::LslImm => Descriptor { mask: 0x0fe00070, pattern: 0x01a00000, arch: Arch::V4T, isa: Isa::Arm, flavour: Flavour::Ual, form: Form::ShiftByImm },
            Opcode::LslReg => Descriptor { mask: 0x0fe000f0, pattern: 0x01a00010, arch: Arch::V4T, isa: Isa::Arm, flavour: Flavour::Ual, form: Form::ShiftByReg },
            Opcode::LsrImm => Descriptor { mask: 0x0fe00070, pattern: 0x01a00020, arch: Arch::V4T, isa: Isa::Arm, flavour: Flavour::Ual, form: Form::ShiftByImm },
            Opcode::LsrReg => Descriptor { mask: 0x0fe000f0, pattern: 0x01a00030, arch: Arch::V4T, isa: Isa::Arm, flavour: Flavour::Ual, form: Form::ShiftByReg },
            Opcode::AsrImm => Descriptor { mask: 0x0fe00070, pattern: 0x01a00040, arch: Arch::V4T, isa: Isa::Arm, flavour: Flavour::Ual, form: Form::ShiftByImm },
            Opcode::AsrReg => Descriptor { mask: 0x0fe000f0, pattern: 0x01a00050, arch: Arch::V4T, isa: Isa::Arm, flavour: Flavour::Ual, form: Form::ShiftByReg },
            Opcode::RorImm => Descriptor { mask: 0x0fe00070, pattern: 0x01a00060, arch: Arch::V4T, isa: Isa::Arm, flavour: Flavour::Ual, form: Form::ShiftByImm },
            Opcode::RorReg => Descriptor { mask: 0x0fe000f0, pattern: 0x01a00070, arch: Arch::V4T, isa: Isa::Arm, flavour: Flavour::Ual, form: Form::ShiftByReg },
            Opcode::Rrx => Descriptor { mask: 0x0fe00ff0, pattern: 0x01a00060, arch: Arch::V4T, isa: Isa::Arm, flavour: Flavour::Ual, form: Form::MoveReg },
            Opcode::Mul => Descriptor { mask: 0x0fe000f0, pattern: 0x00000090, arch: Arch::V4T, isa: Isa::Arm, flavour: Flavour::Both, form: Form::Mul },
            Opcode::Mla => Descriptor { mask: 0x0fe000f0, pattern: 0x00200090, arch: Arch::V4T, isa: Isa::Arm, flavour: Flavour::Both, form: Form::Mla },
            Opcode::Umaal => Descriptor { mask: 0x0ff000f0, pattern: 0x00400090, arch: Arch::V6, isa: Isa::Arm, flavour: Flavour::Both, form: Form::MulLongAcc },
            Opcode::Umull => Descriptor { mask: 0x0fe000f0, pattern: 0x00800090, arch: Arch::V4T, isa: Isa::Arm, flavour: Flavour::Both, form: Form::MulLong },
            Opcode::Umlal => Descriptor { mask: 0x0fe000f0, pattern: 0x00a00090, arch: Arch::V4T, isa: Isa::Arm, flavour: Flavour::Both, form: Form::MulLong },
            Opcode::Smull => Descriptor { mask: 0x0fe000f0, pattern: 0x00c00090, arch: Arch::V4T, isa: Isa::Arm, flavour: Flavour::Both, form: Form::MulLong },
            Opcode::Smlal => Descriptor { mask: 0x0fe000f0, pattern: 0x00e00090, arch: Arch::V4T, isa: Isa::Arm, flavour: Flavour::Both, form: Form::MulLong },
            Opcode::SmlaXy => Descriptor { mask: 0x0ff00090, pattern: 0x01000080, arch: Arch::V5TE, isa: Isa::Arm, flavour: Flavour::Both, form: Form::SmlaXy },
            Opcode::SmlawY => Descriptor { mask: 0x0ff000b0, pattern: 0x01200080, arch: Arch::V5TE, isa: Isa::Arm, flavour: Flavour::Both, form: Form::SmlawY },
            Opcode::SmulwY => Descriptor { mask: 0x0ff000b0, pattern: 0x012000a0, arch: Arch::V5TE, isa: Isa::Arm, flavour: Flavour::Both, form: Form::SmulwY },
            Opcode::SmlalXy => Descriptor { mask: 0x0ff00090, pattern: 0x01400080, arch: Arch::V5TE, isa: Isa::Arm, flavour: Flavour::Both, form: Form::SmlalXy },
            Opcode::SmulXy => Descriptor { mask: 0x0ff00090, pattern: 0x01600080, arch: Arch::V5TE, isa: Isa::Arm, flavour: Flavour::Both, form: Form::SmulXy },
            Opcode::Smlad => Descriptor { mask: 0x0ff000d0, pattern: 0x07000010, arch: Arch::V6, isa: Isa::Arm, flavour: Flavour::Both, form: Form::DualMulAcc },
            Opcode::Smlsd => Descriptor { mask: 0x0ff000d0, pattern: 0x07000050, arch: Arch::V6, isa: Isa::Arm, flavour: Flavour::Both, form: Form::DualMulAcc },
            Opcode::Smuad => Descriptor { mask: 0x0ff0f0d0, pattern: 0x0700f010, arch: Arch::V6, isa: Isa::Arm, flavour: Flavour::Both, form: Form::MostSig },
            Opcode::Smusd => Descriptor { mask: 0x0ff0f0d0, pattern: 0x0700f050, arch: Arch::V6, isa: Isa::Arm, flavour: Flavour::Both, form: Form::DualMul },
            Opcode::Smlald => Descriptor { mask: 0x0ff000d0, pattern: 0x07400010, arch: Arch::V6, isa: Isa::Arm, flavour: Flavour::Both, form: Form::DualMulLong },
            Opcode::Smlsld => Descriptor { mask: 0x0ff000d0, pattern: 0x07400050, arch: Arch::V6, isa: Isa::Arm, flavour: Flavour::Both, form: Form::DualMulLong },
            Opcode::Smmla => Descriptor { mask: 0x0ff000d0, pattern: 0x07500010, arch: Arch::V6, isa: Isa::Arm, flavour: Flavour::Both, form: Form::MostSigAcc },
            Opcode::Smmls => Descriptor { mask: 0x0ff000d0, pattern: 0x075000d0, arch: Arch::V6, isa: Isa::Arm, flavour: Flavour::Both, form: Form::MostSigAcc },
            Opcode::Smmul => Descriptor { mask: 0x0ff0f0d0, pattern: 0x0750f010, arch: Arch::V6, isa: Isa::Arm, flavour: Flavour::Both, form: Form::MostSig },
            Opcode::Usada8 => Descriptor { mask: 0x0ff000f0, pattern: 0x07800010, arch: Arch::V6, isa: Isa::Arm, flavour: Flavour::Both, form: Form::SadAcc },
            Opcode::Usad8 => Descriptor { mask: 0x0ff0f0f0, pattern: 0x0780f010, arch: Arch::V6, isa: Isa::Arm, flavour: Flavour::Both, form: Form::Sad },
            Opcode::B => Descriptor { mask: 0x0f000000, pattern: 0x0a000000, arch: Arch::V4T, isa: Isa::Arm, flavour: Flavour::Both, form: Form::Branch },
            Opcode::Bl => Descriptor { mask: 0x0f000000, pattern: 0x0b000000, arch: Arch::V4T, isa: Isa::Arm, flavour: Flavour::Both, form: Form::Branch },
            Opcode::BlxImm => Descriptor { mask: 0xfe000000, pattern: 0xfa000000, arch: Arch::V5TE, isa: Isa::Arm, flavour: Flavour::Both, form: Form::BranchX },
            Opcode::Bx => Descriptor { mask: 0x0ffffff0, pattern: 0x012fff10, arch: Arch::V4T, isa: Isa::Arm, flavour: Flavour::Both, form: Form::BranchReg },
            Opcode::Bxj => Descriptor { mask: 0x0ffffff0, pattern: 0x012fff20, arch: Arch::V6, isa: Isa::Arm, flavour: Flavour::Both, form: Form::BranchReg },
            Opcode::BlxReg => Descriptor { mask: 0x0ffffff0, pattern: 0x012fff30, arch: Arch::V5TE, isa: Isa::Arm, flavour: Flavour::Both, form: Form::BranchReg },
            Opcode::Cdp => Descriptor { mask: 0x0f000010, pattern: 0x0e000000, arch: Arch::V4T, isa: Isa::Arm, flavour: Flavour::Both, form: Form::Cdp },
            Opcode::Cdp2 => Descriptor { mask: 0xff000010, pattern: 0xfe000000, arch: Arch::V5TE, isa: Isa::Arm, flavour: Flavour::Both, form: Form::Cdp2 },
            Opcode::Mcr => Descriptor { mask: 0x0f100010, pattern: 0x0e000010, arch: Arch::V4T, isa: Isa::Arm, flavour: Flavour::Both, form: Form::CoMove },
            Opcode::Mrc => Descriptor { mask: 0x0f100010, pattern: 0x0e100010, arch: Arch::V4T, isa: Isa::Arm, flavour: Flavour::Both, form: Form::CoMove },
            Opcode::Mcr2 => Descriptor { mask: 0xff100010, pattern: 0xfe000010, arch: Arch::V5TE, isa: Isa::Arm, flavour: Flavour::Both, form: Form::CoMove2 },
            Opcode::Mrc2 => Descriptor { mask: 0xff100010, pattern: 0xfe100010, arch: Arch::V5TE, isa: Isa::Arm, flavour: Flavour::Both, form: Form::CoMove2 },
            Opcode::Mcrr => Descriptor { mask: 0x0ff00000, pattern: 0x0c400000, arch: Arch::V5TE, isa: Isa::Arm, flavour: Flavour::Both, form: Form::CoMoveDouble },
            Opcode::Mrrc => Descriptor { mask: 0x0ff00000, pattern: 0x0c500000, arch: Arch::V5TE, isa: Isa::Arm, flavour: Flavour::Both, form: Form::CoMoveDouble },
            Opcode::Mcrr2 => Descriptor { mask: 0xfff00000, pattern: 0xfc400000, arch: Arch::V6, isa: Isa::Arm, flavour: Flavour::Both, form: Form::CoMoveDouble2 },
            Opcode::Mrrc2 => Descriptor { mask: 0xfff00000, pattern: 0xfc500000, arch: Arch::V6, isa: Isa::Arm, flavour: Flavour::Both, form: Form::CoMoveDouble2 },
            Opcode::Ldc => Descriptor { mask: 0x0e100000, pattern: 0x0c100000, arch: Arch::V4T, isa: Isa::Arm, flavour: Flavour::Both, form: Form::CoLoad },
            Opcode::Stc => Descriptor { mask: 0x0e100000, pattern: 0x0c000000, arch: Arch::V4T, isa: Isa::Arm, flavour: Flavour::Both, form: Form::CoLoad },
            Opcode::Ldc2 => Descriptor { mask: 0xfe100000, pattern: 0xfc100000, arch: Arch::V5TE, isa: Isa::Arm, flavour: Flavour::Both, form: Form::CoLoad2 },
            Opcode::Stc2 => Descriptor { mask: 0xfe100000, pattern: 0xfc000000, arch: Arch::V5TE, isa: Isa::Arm, flavour: Flavour::Both, form: Form::CoLoad2 },
            Opcode::Ldm => Descriptor { mask: 0x0e100000, pattern: 0x08100000, arch: Arch::V4T, isa: Isa::Arm, flavour: Flavour::Both, form: Form::Multiple },
            Opcode::Stm => Descriptor { mask: 0x0e100000, pattern: 0x08000000, arch: Arch::V4T, isa: Isa::Arm, flavour: Flavour::Both, form: Form::Multiple },
            Opcode::Pop => Descriptor { mask: 0x0fff0000, pattern: 0x08bd0000, arch: Arch::V4T, isa: Isa::Arm, flavour: Flavour::Ual, form: Form::Stack },
            Opcode::Push => Descriptor { mask: 0x0fff0000, pattern: 0x092d0000, arch: Arch::V4T, isa: Isa::Arm, flavour: Flavour::Ual, form: Form::Stack },
            Opcode::PopOne => Descriptor { mask: 0x0fff0fff, pattern: 0x049d0004, arch: Arch::V4T, isa: Isa::Arm, flavour: Flavour::Ual, form: Form::StackOne },
            Opcode::PushOne => Descriptor { mask: 0x0fff0fff, pattern: 0x052d0004, arch: Arch::V4T, isa: Isa::Arm, flavour: Flavour::Ual, form: Form::StackOne },
            Opcode::Ldr => Descriptor { mask: 0x0c500000, pattern: 0x04100000, arch: Arch::V4T, isa: Isa::Arm, flavour: Flavour::Both, form: Form::Word },
            Opcode::Ldrb => Descriptor { mask: 0x0c500000, pattern: 0x04500000, arch: Arch::V4T, isa: Isa::Arm, flavour: Flavour::Both, form: Form::Word },
            Opcode::Str => Descriptor { mask: 0x0c500000, pattern: 0x04000000, arch: Arch::V4T, isa: Isa::Arm, flavour: Flavour::Both, form: Form::Word },
            Opcode::Strb => Descriptor { mask: 0x0c500000, pattern: 0x04400000, arch: Arch::V4T, isa: Isa::Arm, flavour: Flavour::Both, form: Form::Word },
            Opcode::Ldrt => Descriptor { mask: 0x0d700000, pattern: 0x04300000, arch: Arch::V4T, isa: Isa::Arm, flavour: Flavour::Both, form: Form::Word },
            Opcode::Ldrbt => Descriptor { mask: 0x0d700000, pattern: 0x04700000, arch: Arch::V4T, isa: Isa::Arm, flavour: Flavour::Both, form: Form::Word },
            Opcode::Strt => Descriptor { mask: 0x0d700000, pattern: 0x04200000, arch: Arch::V4T, isa: Isa::Arm, flavour: Flavour::Both, form: Form::Word },
            Opcode::Strbt => Descriptor { mask: 0x0d700000, pattern: 0x04600000, arch: Arch::V4T, isa: Isa::Arm, flavour: Flavour::Both, form: Form::Word },
            Opcode::Ldrh => Descriptor { mask: 0x0e1000f0, pattern: 0x001000b0, arch: Arch::V4T, isa: Isa::Arm, flavour: Flavour::Both, form: Form::Half },
            Opcode::Strh => Descriptor { mask: 0x0e1000f0, pattern: 0x000000b0, arch: Arch::V4T, isa: Isa::Arm, flavour: Flavour::Both, form: Form::Half },
            Opcode::Ldrsb => Descriptor { mask: 0x0e1000f0, pattern: 0x001000d0, arch: Arch::V4T, isa: Isa::Arm, flavour: Flavour::Both, form: Form::Half },
            Opcode::Ldrsh => Descriptor { mask: 0x0e1000f0, pattern: 0x001000f0, arch: Arch::V4T, isa: Isa::Arm, flavour: Flavour::Both, form: Form::Half },
            Opcode::Ldrd => Descriptor { mask: 0x0e1000f0, pattern: 0x000000d0, arch: Arch::V5TE, isa: Isa::Arm, flavour: Flavour::Both, form: Form::Half },
            Opcode::Strd => Descriptor { mask: 0x0e1000f0, pattern: 0x000000f0, arch: Arch::V5TE, isa: Isa::Arm, flavour: Flavour::Both, form: Form::Half },
            Opcode::Pld => Descriptor { mask: 0xfd70f000, pattern: 0xf550f000, arch: Arch::V5TE, isa: Isa::Arm, flavour: Flavour::Both, form: Form::Preload },
            Opcode::Swp => Descriptor { mask: 0x0ff00ff0, pattern: 0x01000090, arch: Arch::V4T, isa: Isa::Arm, flavour: Flavour::Both, form: Form::Swap },
            Opcode::Swpb => Descriptor { mask: 0x0ff00ff0, pattern: 0x01400090, arch: Arch::V4T, isa: Isa::Arm, flavour: Flavour::Both, form: Form::Swap },
            Opcode::Ldrex => Descriptor { mask: 0x0ff00fff, pattern: 0x01900f9f, arch: Arch::V6, isa: Isa::Arm, flavour: Flavour::Both, form: Form::LoadEx },
            Opcode::Strex => Descriptor { mask: 0x0ff00ff0, pattern: 0x01800f90, arch: Arch::V6, isa: Isa::Arm, flavour: Flavour::Both, form: Form::Swap },
            Opcode::Mrs => Descriptor { mask: 0x0fbf0fff, pattern: 0x010f0000, arch: Arch::V4T, isa: Isa::Arm, flavour: Flavour::Both, form: Form::Mrs },
            Opcode::MsrReg => Descriptor { mask: 0x0fb0fff0, pattern: 0x0120f000, arch: Arch::V4T, isa: Isa::Arm, flavour: Flavour::Both, form: Form::MsrReg },
            Opcode::MsrImm => Descriptor { mask: 0x0fb0f000, pattern: 0x0320f000, arch: Arch::V4T, isa: Isa::Arm, flavour: Flavour::Both, form: Form::MsrImm },
            Opcode::Svc => Descriptor { mask: 0x0f000000, pattern: 0x0f000000, arch: Arch::V4T, isa: Isa::Arm, flavour: Flavour::Ual, form: Form::Svc },
            Opcode::Swi => Descriptor { mask: 0x0f000000, pattern: 0x0f000000, arch: Arch::V4T, isa: Isa::Arm, flavour: Flavour::Divided, form: Form::Svc },
            Opcode::Bkpt => Descriptor { mask: 0xfff000f0, pattern: 0xe1200070, arch: Arch::V5TE, isa: Isa::Arm, flavour: Flavour::Both, form: Form::Bkpt },
            Opcode::Clz => Descriptor { mask: 0x0fff0ff0, pattern: 0x016f0f10, arch: Arch::V5TE, isa: Isa::Arm, flavour: Flavour::Both, form: Form::RdRm },
            Opcode::Qadd => Descriptor { mask: 0x0ff00ff0, pattern: 0x01000050, arch: Arch::V5TE, isa: Isa::Arm, flavour: Flavour::Both, form: Form::RdRmRn },
            Opcode::Qsub => Descriptor { mask: 0x0ff00ff0, pattern: 0x01200050, arch: Arch::V5TE, isa: Isa::Arm, flavour: Flavour::Both, form: Form::RdRmRn },
            Opcode::Qdadd => Descriptor { mask: 0x0ff00ff0, pattern: 0x01400050, arch: Arch::V5TE, isa: Isa::Arm, flavour: Flavour::Both, form: Form::RdRmRn },
            Opcode::Qdsub => Descriptor { mask: 0x0ff00ff0, pattern: 0x01600050, arch: Arch::V5TE, isa: Isa::Arm, flavour: Flavour::Both, form: Form::RdRmRn },
            Opcode::Sadd16 => Descriptor { mask: 0x0ff00ff0, pattern: 0x06100f10, arch: Arch::V6, isa: Isa::Arm, flavour: Flavour::Both, form: Form::RdRnRm },
            Opcode::Saddsubx => Descriptor { mask: 0x0ff00ff0, pattern: 0x06100f30, arch: Arch::V6, isa: Isa::Arm, flavour: Flavour::Both, form: Form::RdRnRm },
            Opcode::Ssubaddx => Descriptor { mask: 0x0ff00ff0, pattern: 0x06100f50, arch: Arch::V6, isa: Isa::Arm, flavour: Flavour::Both, form: Form::RdRnRm },
            Opcode::Ssub16 => Descriptor { mask: 0x0ff00ff0, pattern: 0x06100f70, arch: Arch::V6, isa: Isa::Arm, flavour: Flavour::Both, form: Form::RdRnRm },
            Opcode::Sadd8 => Descriptor { mask: 0x0ff00ff0, pattern: 0x06100f90, arch: Arch::V6, isa: Isa::Arm, flavour: Flavour::Both, form: Form::RdRnRm },
            Opcode::Ssub8 => Descriptor { mask: 0x0ff00ff0, pattern: 0x06100ff0, arch: Arch::V6, isa: Isa::Arm, flavour: Flavour::Both, form: Form::RdRnRm },
            Opcode::Qadd16 => Descriptor { mask: 0x0ff00ff0, pattern: 0x06200f10, arch: Arch::V6, isa: Isa::Arm, flavour: Flavour::Both, form: Form::RdRnRm },
            Opcode::Qaddsubx => Descriptor { mask: 0x0ff00ff0, pattern: 0x06200f30, arch: Arch::V6, isa: Isa::Arm, flavour: Flavour::Both, form: Form::RdRnRm },
            Opcode::Qsubaddx => Descriptor { mask: 0x0ff00ff0, pattern: 0x06200f50, arch: Arch::V6, isa: Isa::Arm, flavour: Flavour::Both, form: Form::RdRnRm },
            Opcode::Qsub16 => Descriptor { mask: 0x0ff00ff0, pattern: 0x06200f70, arch: Arch::V6, isa: Isa::Arm, flavour: Flavour::Both, form: Form::RdRnRm },
            Opcode::Qadd8 => Descriptor { mask: 0x0ff00ff0, pattern: 0x06200f90, arch: Arch::V6, isa: Isa::Arm, flavour: Flavour::Both, form: Form::RdRnRm },
            Opcode::Qsub8 => Descriptor { mask: 0x0ff00ff0, pattern: 0x06200ff0, arch: Arch::V6, isa: Isa::Arm, flavour: Flavour::Both, form: Form::RdRnRm },
            Opcode::Shadd16 => Descriptor { mask: 0x0ff00ff0, pattern: 0x06300f10, arch: Arch::V6, isa: Isa::Arm, flavour: Flavour::Both, form: Form::RdRnRm },
            Opcode::Shaddsubx => Descriptor { mask: 0x0ff00ff0, pattern: 0x06300f30, arch: Arch::V6, isa: Isa::Arm, flavour: Flavour::Both, form: Form::RdRnRm },
            Opcode::Shsubaddx => Descriptor { mask: 0x0ff00ff0, pattern: 0x06300f50, arch: Arch::V6, isa: Isa::Arm, flavour: Flavour::Both, form: Form::RdRnRm },
            Opcode::Shsub16 => Descriptor { mask: 0x0ff00ff0, pattern: 0x06300f70, arch: Arch::V6, isa: Isa::Arm, flavour: Flavour::Both, form: Form::RdRnRm },
            Opcode::Shadd8 => Descriptor { mask: 0x0ff00ff0, pattern: 0x06300f90, arch: Arch::V6, isa: Isa::Arm, flavour: Flavour::Both, form: Form::RdRnRm },
            Opcode::Shsub8 => Descriptor { mask: 0x0ff00ff0, pattern: 0x06300ff0, arch: Arch::V6, isa: Isa::Arm, flavour: Flavour::Both, form: Form::RdRnRm },
            Opcode::Uadd16 => Descriptor { mask: 0x0ff00ff0, pattern: 0x06500f10, arch: Arch::V6, isa: Isa::Arm, flavour: Flavour::Both, form: Form::RdRnRm },
            Opcode::Uaddsubx => Descriptor { mask: 0x0ff00ff0, pattern: 0x06500f30, arch: Arch::V6, isa: Isa::Arm, flavour: Flavour::Both, form: Form::RdRnRm },
            Opcode::Usubaddx => Descriptor { mask: 0x0ff00ff0, pattern: 0x06500f50, arch: Arch::V6, isa: Isa::Arm, flavour: Flavour::Both, form: Form::RdRnRm },
            Opcode::Usub16 => Descriptor { mask: 0x0ff00ff0, pattern: 0x06500f70, arch: Arch::V6, isa: Isa::Arm, flavour: Flavour::Both, form: Form::RdRnRm },
            Opcode::Uadd8 => Descriptor { mask: 0x0ff00ff0, pattern: 0x06500f90, arch: Arch::V6, isa: Isa::Arm, flavour: Flavour::Both, form: Form::RdRnRm },
            Opcode::Usub8 => Descriptor { mask: 0x0ff00ff0, pattern: 0x06500ff0, arch: Arch::V6, isa: Isa::Arm, flavour: Flavour::Both, form: Form::RdRnRm },
            Opcode::Uqadd16 => Descriptor { mask: 0x0ff00ff0, pattern: 0x06600f10, arch: Arch::V6, isa: Isa::Arm, flavour: Flavour::Both, form: Form::RdRnRm },
            Opcode::Uqaddsubx => Descriptor { mask: 0x0ff00ff0, pattern: 0x06600f30, arch: Arch::V6, isa: Isa::Arm, flavour: Flavour::Both, form: Form::RdRnRm },
            Opcode::Uqsubaddx => Descriptor { mask: 0x0ff00ff0, pattern: 0x06600f50, arch: Arch::V6, isa: Isa::Arm, flavour: Flavour::Both, form: Form::RdRnRm },
            Opcode::Uqsub16 => Descriptor { mask: 0x0ff00ff0, pattern: 0x06600f70, arch: Arch::V6, isa: Isa::Arm, flavour: Flavour::Both, form: Form::RdRnRm },
            Opcode::Uqadd8 => Descriptor { mask: 0x0ff00ff0, pattern: 0x06600f90, arch: Arch::V6, isa: Isa::Arm, flavour: Flavour::Both, form: Form::RdRnRm },
            Opcode::Uqsub8 => Descriptor { mask: 0x0ff00ff0, pattern: 0x06600ff0, arch: Arch::V6, isa: Isa::Arm, flavour: Flavour::Both, form: Form::RdRnRm },
            Opcode::Uhadd16 => Descriptor { mask: 0x0ff00ff0, pattern: 0x06700f10, arch: Arch::V6, isa: Isa::Arm, flavour: Flavour::Both, form: Form::RdRnRm },
            Opcode::Uhaddsubx => Descriptor { mask: 0x0ff00ff0, pattern: 0x06700f30, arch: Arch::V6, isa: Isa::Arm, flavour: Flavour::Both, form: Form::RdRnRm },
            Opcode::Uhsubaddx => Descriptor { mask: 0x0ff00ff0, pattern: 0x06700f50, arch: Arch::V6, isa: Isa::Arm, flavour: Flavour::Both, form: Form::RdRnRm },
            Opcode::Uhsub16 => Descriptor { mask: 0x0ff00ff0, pattern: 0x06700f70, arch: Arch::V6, isa: Isa::Arm, flavour: Flavour::Both, form: Form::RdRnRm },
            Opcode::Uhadd8 => Descriptor { mask: 0x0ff00ff0, pattern: 0x06700f90, arch: Arch::V6, isa: Isa::Arm, flavour: Flavour::Both, form: Form::RdRnRm },
            Opcode::Uhsub8 => Descriptor { mask: 0x0ff00ff0, pattern: 0x06700ff0, arch: Arch::V6, isa: Isa::Arm, flavour: Flavour::Both, form: Form::RdRnRm },
            Opcode::Sel => Descriptor { mask: 0x0ff00ff0, pattern: 0x06800fb0, arch: Arch::V6, isa: Isa::Arm, flavour: Flavour::Both, form: Form::RdRnRm },
            Opcode::Rev => Descriptor { mask: 0x0fff0ff0, pattern: 0x06bf0f30, arch: Arch::V6, isa: Isa::Arm, flavour: Flavour::Both, form: Form::RdRm },
            Opcode::Rev16 => Descriptor { mask: 0x0fff0ff0, pattern: 0x06bf0fb0, arch: Arch::V6, isa: Isa::Arm, flavour: Flavour::Both, form: Form::RdRm },
            Opcode::Revsh => Descriptor { mask: 0x0fff0ff0, pattern: 0x06ff0f30, arch: Arch::V6, isa: Isa::Arm, flavour: Flavour::Both, form: Form::RdRm },
            Opcode::Pkhbt => Descriptor { mask: 0x0ff00070, pattern: 0x06800010, arch: Arch::V6, isa: Isa::Arm, flavour: Flavour::Both, form: Form::Pack },
            Opcode::Pkhtb => Descriptor { mask: 0x0ff00070, pattern: 0x06800050, arch: Arch::V6, isa: Isa::Arm, flavour: Flavour::Both, form: Form::Pack },
            Opcode::Ssat => Descriptor { mask: 0x0fe00030, pattern: 0x06a00010, arch: Arch::V6, isa: Isa::Arm, flavour: Flavour::Both, form: Form::SatS },
            Opcode::Usat => Descriptor { mask: 0x0fe00030, pattern: 0x06e00010, arch: Arch::V6, isa: Isa::Arm, flavour: Flavour::Both, form: Form::SatU },
            Opcode::Ssat16 => Descriptor { mask: 0x0ff00ff0, pattern: 0x06a00f30, arch: Arch::V6, isa: Isa::Arm, flavour: Flavour::Both, form: Form::Sat16S },
            Opcode::Usat16 => Descriptor { mask: 0x0ff00ff0, pattern: 0x06e00f30, arch: Arch::V6, isa: Isa::Arm, flavour: Flavour::Both, form: Form::Sat16U },
            Opcode::Sxtab16 => Descriptor { mask: 0x0ff003f0, pattern: 0x06800070, arch: Arch::V6, isa: Isa::Arm, flavour: Flavour::Both, form: Form::ExtendAdd },
            Opcode::Sxtb16 => Descriptor { mask: 0x0fff03f0, pattern: 0x068f0070, arch: Arch::V6, isa: Isa::Arm, flavour: Flavour::Both, form: Form::Extend },
            Opcode::Sxtab => Descriptor { mask: 0x0ff003f0, pattern: 0x06a00070, arch: Arch::V6, isa: Isa::Arm, flavour: Flavour::Both, form: Form::ExtendAdd },
            Opcode::Sxtb => Descriptor { mask: 0x0fff03f0, pattern: 0x06af0070, arch: Arch::V6, isa: Isa::Arm, flavour: Flavour::Both, form: Form::Extend },
            Opcode::Sxtah => Descriptor { mask: 0x0ff003f0, pattern: 0x06b00070, arch: Arch::V6, isa: Isa::Arm, flavour: Flavour::Both, form: Form::ExtendAdd },
            Opcode::Sxth => Descriptor { mask: 0x0fff03f0, pattern: 0x06bf0070, arch: Arch::V6, isa: Isa::Arm, flavour: Flavour::Both, form: Form::Extend },
            Opcode::Uxtab16 => Descriptor { mask: 0x0ff003f0, pattern: 0x06c00070, arch: Arch::V6, isa: Isa::Arm, flavour: Flavour::Both, form: Form::ExtendAdd },
            Opcode::Uxtb16 => Descriptor { mask: 0x0fff03f0, pattern: 0x06cf0070, arch: Arch::V6, isa: Isa::Arm, flavour: Flavour::Both, form: Form::Extend },
            Opcode::Uxtab => Descriptor { mask: 0x0ff003f0, pattern: 0x06e00070, arch: Arch::V6, isa: Isa::Arm, flavour: Flavour::Both, form: Form::ExtendAdd },
            Opcode::Uxtb => Descriptor { mask: 0x0fff03f0, pattern: 0x06ef0070, arch: Arch::V6, isa: Isa::Arm, flavour: Flavour::Both, form: Form::Extend },
            Opcode::Uxtah => Descriptor { mask: 0x0ff003f0, pattern: 0x06f00070, arch: Arch::V6, isa: Isa::Arm, flavour: Flavour::Both, form: Form::ExtendAdd },
            Opcode::Uxth => Descriptor { mask: 0x0fff03f0, pattern: 0x06ff0070, arch: Arch::V6, isa: Isa::Arm, flavour: Flavour::Both, form: Form::Extend },
            Opcode::Clrex => Descriptor { mask: 0xffffffff, pattern: 0xf57ff01f, arch: Arch::V6K, isa: Isa::Arm, flavour: Flavour::Both, form: Form::Bare },
            Opcode::Ldrexd => Descriptor { mask: 0x0ff00fff, pattern: 0x01b00f9f, arch: Arch::V6K, isa: Isa::Arm, flavour: Flavour::Both, form: Form::LoadEx },
            Opcode::Ldrexb => Descriptor { mask: 0x0ff00fff, pattern: 0x01d00f9f, arch: Arch::V6K, isa: Isa::Arm, flavour: Flavour::Both, form: Form::LoadEx },
            Opcode::Ldrexh => Descriptor { mask: 0x0ff00fff, pattern: 0x01f00f9f, arch: Arch::V6K, isa: Isa::Arm, flavour: Flavour::Both, form: Form::LoadEx },
            Opcode::Strexd => Descriptor { mask: 0x0ff00ff0, pattern: 0x01a00f90, arch: Arch::V6K, isa: Isa::Arm, flavour: Flavour::Both, form: Form::Swap },
            Opcode::Strexb => Descriptor { mask: 0x0ff00ff0, pattern: 0x01c00f90, arch: Arch::V6K, isa: Isa::Arm, flavour: Flavour::Both, form: Form::Swap },
            Opcode::Strexh => Descriptor { mask: 0x0ff00ff0, pattern: 0x01e00f90, arch: Arch::V6K, isa: Isa::Arm, flavour: Flavour::Both, form: Form::Swap },
            Opcode::Nop => Descriptor { mask: 0x0fffffff, pattern: 0x0320f000, arch: Arch::V6K, isa: Isa::Arm, flavour: Flavour::Both, form: Form::Hint },
            Opcode::Yield => Descriptor { mask: 0x0fffffff, pattern: 0x0320f001, arch: Arch::V6K, isa: Isa::Arm, flavour: Flavour::Both, form: Form::Hint },
            Opcode::Wfe => Descriptor { mask: 0x0fffffff, pattern: 0x0320f002, arch: Arch::V6K, isa: Isa::Arm, flavour: Flavour::Both, form: Form::Hint },
            Opcode::Wfi => Descriptor { mask: 0x0fffffff, pattern: 0x0320f003, arch: Arch::V6K, isa: Isa::Arm, flavour: Flavour::Both, form: Form::Hint },
            Opcode::Sev => Descriptor { mask: 0x0fffffff, pattern: 0x0320f004, arch: Arch::V6K, isa: Isa::Arm, flavour: Flavour::Both, form: Form::Hint },
            Opcode::Cps => Descriptor { mask: 0xfff1fe20, pattern: 0xf1000000, arch: Arch::V6, isa: Isa::Arm, flavour: Flavour::Both, form: Form::Cps },
            Opcode::Setend => Descriptor { mask: 0xfffffdff, pattern: 0xf1010000, arch: Arch::V6, isa: Isa::Arm, flavour: Flavour::Both, form: Form::Setend },
            Opcode::Rfe => Descriptor { mask: 0xfe50ffff, pattern: 0xf8100a00, arch: Arch::V6, isa: Isa::Arm, flavour: Flavour::Both, form: Form::Rfe },
            Opcode::Srs => Descriptor { mask: 0xfe5fffe0, pattern: 0xf84d0500, arch: Arch::V6, isa: Isa::Arm, flavour: Flavour::Both, form: Form::Srs },
            Opcode::TLslImm => Descriptor { mask: 0x0000f800, pattern: 0x00000000, arch: Arch::V4T, isa: Isa::Thumb, flavour: Flavour::Both, form: Form::TShiftImm },
            Opcode::TLsrImm => Descriptor { mask: 0x0000f800, pattern: 0x00000800, arch: Arch::V4T, isa: Isa::Thumb, flavour: Flavour::Both, form: Form::TShiftImm },
            Opcode::TAsrImm => Descriptor { mask: 0x0000f800, pattern: 0x00001000, arch: Arch::V4T, isa: Isa::Thumb, flavour: Flavour::Both, form: Form::TShiftImm },
            Opcode::TAddReg => Descriptor { mask: 0x0000fe00, pattern: 0x00001800, arch: Arch::V4T, isa: Isa::Thumb, flavour: Flavour::Both, form: Form::TRegs3 },
            Opcode::TSubReg => Descriptor { mask: 0x0000fe00, pattern: 0x00001a00, arch: Arch::V4T, isa: Isa::Thumb, flavour: Flavour::Both, form: Form::TRegs3 },
            Opcode::TAddImm3 => Descriptor { mask: 0x0000fe00, pattern: 0x00001c00, arch: Arch::V4T, isa: Isa::Thumb, flavour: Flavour::Both, form: Form::TImm3 },
            Opcode::TSubImm3 => Descriptor { mask: 0x0000fe00, pattern: 0x00001e00, arch: Arch::V4T, isa: Isa::Thumb, flavour: Flavour::Both, form: Form::TImm3 },
            Opcode::TMovImm => Descriptor { mask: 0x0000f800, pattern: 0x00002000, arch: Arch::V4T, isa: Isa::Thumb, flavour: Flavour::Both, form: Form::TImm8 },
            Opcode::TCmpImm => Descriptor { mask: 0x0000f800, pattern: 0x00002800, arch: Arch::V4T, isa: Isa::Thumb, flavour: Flavour::Both, form: Form::TCmpImm },
            Opcode::TAddImm8 => Descriptor { mask: 0x0000f800, pattern: 0x00003000, arch: Arch::V4T, isa: Isa::Thumb, flavour: Flavour::Both, form: Form::TImm8 },
            Opcode::TSubImm8 => Descriptor { mask: 0x0000f800, pattern: 0x00003800, arch: Arch::V4T, isa: Isa::Thumb, flavour: Flavour::Both, form: Form::TImm8 },
            Opcode::TAnd => Descriptor { mask: 0x0000ffc0, pattern: 0x00004000, arch: Arch::V4T, isa: Isa::Thumb, flavour: Flavour::Both, form: Form::TAlu },
            Opcode::TEor => Descriptor { mask: 0x0000ffc0, pattern: 0x00004040, arch: Arch::V4T, isa: Isa::Thumb, flavour: Flavour::Both, form: Form::TAlu },
            Opcode::TLslReg => Descriptor { mask: 0x0000ffc0, pattern: 0x00004080, arch: Arch::V4T, isa: Isa::Thumb, flavour: Flavour::Both, form: Form::TAlu },
            Opcode::TLsrReg => Descriptor { mask: 0x0000ffc0, pattern: 0x000040c0, arch: Arch::V4T, isa: Isa::Thumb, flavour: Flavour::Both, form: Form::TAlu },
            Opcode::TAsrReg => Descriptor { mask: 0x0000ffc0, pattern: 0x00004100, arch: Arch::V4T, isa: Isa::Thumb, flavour: Flavour::Both, form: Form::TAlu },
            Opcode::TAdc => Descriptor { mask: 0x0000ffc0, pattern: 0x00004140, arch: Arch::V4T, isa: Isa::Thumb, flavour: Flavour::Both, form: Form::TAlu },
            Opcode::TSbc => Descriptor { mask: 0x0000ffc0, pattern: 0x00004180, arch: Arch::V4T, isa: Isa::Thumb, flavour: Flavour::Both, form: Form::TAlu },
            Opcode::TRorReg => Descriptor { mask: 0x0000ffc0, pattern: 0x000041c0, arch: Arch::V4T, isa: Isa::Thumb, flavour: Flavour::Both, form: Form::TAlu },
            Opcode::TTst => Descriptor { mask: 0x0000ffc0, pattern: 0x00004200, arch: Arch::V4T, isa: Isa::Thumb, flavour: Flavour::Both, form: Form::TTest },
            Opcode::TNeg => Descriptor { mask: 0x0000ffc0, pattern: 0x00004240, arch: Arch::V4T, isa: Isa::Thumb, flavour: Flavour::Both, form: Form::TAlu },
            Opcode::TCmpReg => Descriptor { mask: 0x0000ffc0, pattern: 0x00004280, arch: Arch::V4T, isa: Isa::Thumb, flavour: Flavour::Both, form: Form::TTest },
            Opcode::TCmn => Descriptor { mask: 0x0000ffc0, pattern: 0x000042c0, arch: Arch::V4T, isa: Isa::Thumb, flavour: Flavour::Both, form: Form::TTest },
            Opcode::TOrr => Descriptor { mask: 0x0000ffc0, pattern: 0x00004300, arch: Arch::V4T, isa: Isa::Thumb, flavour: Flavour::Both, form: Form::TAlu },
            Opcode::TMul => Descriptor { mask: 0x0000ffc0, pattern: 0x00004340, arch: Arch::V4T, isa: Isa::Thumb, flavour: Flavour::Both, form: Form::TAlu },
            Opcode::TBic => Descriptor { mask: 0x0000ffc0, pattern: 0x00004380, arch: Arch::V4T, isa: Isa::Thumb, flavour: Flavour::Both, form: Form::TAlu },
            Opcode::TMvn => Descriptor { mask: 0x0000ffc0, pattern: 0x000043c0, arch: Arch::V4T, isa: Isa::Thumb, flavour: Flavour::Both, form: Form::TAlu },
            Opcode::TAddHi => Descriptor { mask: 0x0000ff00, pattern: 0x00004400, arch: Arch::V4T, isa: Isa::Thumb, flavour: Flavour::Both, form: Form::THiRegs },
            Opcode::TCmpHi => Descriptor { mask: 0x0000ff00, pattern: 0x00004500, arch: Arch::V4T, isa: Isa::Thumb, flavour: Flavour::Both, form: Form::THiRegs },
            Opcode::TMovHi => Descriptor { mask: 0x0000ff00, pattern: 0x00004600, arch: Arch::V4T, isa: Isa::Thumb, flavour: Flavour::Both, form: Form::THiRegs },
            Opcode::TBx => Descriptor { mask: 0x0000ff87, pattern: 0x00004700, arch: Arch::V4T, isa: Isa::Thumb, flavour: Flavour::Both, form: Form::TBranchReg },
            Opcode::TBlxReg => Descriptor { mask: 0x0000ff87, pattern: 0x00004780, arch: Arch::V5TE, isa: Isa::Thumb, flavour: Flavour::Both, form: Form::TBranchReg },
            Opcode::TLdrPc => Descriptor { mask: 0x0000f800, pattern: 0x00004800, arch: Arch::V4T, isa: Isa::Thumb, flavour: Flavour::Both, form: Form::TLoadPc },
            Opcode::TStrReg => Descriptor { mask: 0x0000fe00, pattern: 0x00005000, arch: Arch::V4T, isa: Isa::Thumb, flavour: Flavour::Both, form: Form::TMemReg },
            Opcode::TStrhReg => Descriptor { mask: 0x0000fe00, pattern: 0x00005200, arch: Arch::V4T, isa: Isa::Thumb, flavour: Flavour::Both, form: Form::TMemReg },
            Opcode::TStrbReg => Descriptor { mask: 0x0000fe00, pattern: 0x00005400, arch: Arch::V4T, isa: Isa::Thumb, flavour: Flavour::Both, form: Form::TMemReg },
            Opcode::TLdrsbReg => Descriptor { mask: 0x0000fe00, pattern: 0x00005600, arch: Arch::V4T, isa: Isa::Thumb, flavour: Flavour::Both, form: Form::TMemReg },
            Opcode::TLdrReg => Descriptor { mask: 0x0000fe00, pattern: 0x00005800, arch: Arch::V4T, isa: Isa::Thumb, flavour: Flavour::Both, form: Form::TMemReg },
            Opcode::TLdrhReg => Descriptor { mask: 0x0000fe00, pattern: 0x00005a00, arch: Arch::V4T, isa: Isa::Thumb, flavour: Flavour::Both, form: Form::TMemReg },
            Opcode::TLdrbReg => Descriptor { mask: 0x0000fe00, pattern: 0x00005c00, arch: Arch::V4T, isa: Isa::Thumb, flavour: Flavour::Both, form: Form::TMemReg },
            Opcode::TLdrshReg => Descriptor { mask: 0x0000fe00, pattern: 0x00005e00, arch: Arch::V4T, isa: Isa::Thumb, flavour: Flavour::Both, form: Form::TMemReg },
            Opcode::TStrImm => Descriptor { mask: 0x0000f800, pattern: 0x00006000, arch: Arch::V4T, isa: Isa::Thumb, flavour: Flavour::Both, form: Form::TMemWord },
            Opcode::TLdrImm => Descriptor { mask: 0x0000f800, pattern: 0x00006800, arch: Arch::V4T, isa: Isa::Thumb, flavour: Flavour::Both, form: Form::TMemWord },
            Opcode::TStrbImm => Descriptor { mask: 0x0000f800, pattern: 0x00007000, arch: Arch::V4T, isa: Isa::Thumb, flavour: Flavour::Both, form: Form::TMemByte },
            Opcode::TLdrbImm => Descriptor { mask: 0x0000f800, pattern: 0x00007800, arch: Arch::V4T, isa: Isa::Thumb, flavour: Flavour::Both, form: Form::TMemByte },
            Opcode::TStrhImm => Descriptor { mask: 0x0000f800, pattern: 0x00008000, arch: Arch::V4T, isa: Isa::Thumb, flavour: Flavour::Both, form: Form::TMemHalf },
            Opcode::TLdrhImm => Descriptor { mask: 0x0000f800, pattern: 0x00008800, arch: Arch::V4T, isa: Isa::Thumb, flavour: Flavour::Both, form: Form::TMemHalf },
            Opcode::TStrSp => Descriptor { mask: 0x0000f800, pattern: 0x00009000, arch: Arch::V4T, isa: Isa::Thumb, flavour: Flavour::Both, form: Form::TMemSp },
            Opcode::TLdrSp => Descriptor { mask: 0x0000f800, pattern: 0x00009800, arch: Arch::V4T, isa: Isa::Thumb, flavour: Flavour::Both, form: Form::TMemSp },
            Opcode::TAddPc => Descriptor { mask: 0x0000f800, pattern: 0x0000a000, arch: Arch::V4T, isa: Isa::Thumb, flavour: Flavour::Both, form: Form::TAddPc },
            Opcode::TAddSp => Descriptor { mask: 0x0000f800, pattern: 0x0000a800, arch: Arch::V4T, isa: Isa::Thumb, flavour: Flavour::Both, form: Form::TAddSp },
            Opcode::TAddSpImm => Descriptor { mask: 0x0000ff80, pattern: 0x0000b000, arch: Arch::V4T, isa: Isa::Thumb, flavour: Flavour::Both, form: Form::TAdjustSp },
            Opcode::TSubSpImm => Descriptor { mask: 0x0000ff80, pattern: 0x0000b080, arch: Arch::V4T, isa: Isa::Thumb, flavour: Flavour::Both, form: Form::TAdjustSp },
            Opcode::TSxth => Descriptor { mask: 0x0000ffc0, pattern: 0x0000b200, arch: Arch::V6, isa: Isa::Thumb, flavour: Flavour::Both, form: Form::TRegs2 },
            Opcode::TSxtb => Descriptor { mask: 0x0000ffc0, pattern: 0x0000b240, arch: Arch::V6, isa: Isa::Thumb, flavour: Flavour::Both, form: Form::TRegs2 },
            Opcode::TUxth => Descriptor { mask: 0x0000ffc0, pattern: 0x0000b280, arch: Arch::V6, isa: Isa::Thumb, flavour: Flavour::Both, form: Form::TRegs2 },
            Opcode::TUxtb => Descriptor { mask: 0x0000ffc0, pattern: 0x0000b2c0, arch: Arch::V6, isa: Isa::Thumb, flavour: Flavour::Both, form: Form::TRegs2 },
            Opcode::TPush => Descriptor { mask: 0x0000fe00, pattern: 0x0000b400, arch: Arch::V4T, isa: Isa::Thumb, flavour: Flavour::Both, form: Form::TPush },
            Opcode::TPop => Descriptor { mask: 0x0000fe00, pattern: 0x0000bc00, arch: Arch::V4T, isa: Isa::Thumb, flavour: Flavour::Both, form: Form::TPop },
            Opcode::TSetend => Descriptor { mask: 0x0000fff7, pattern: 0x0000b650, arch: Arch::V6, isa: Isa::Thumb, flavour: Flavour::Both, form: Form::TSetend },
            Opcode::TCps => Descriptor { mask: 0x0000ffe8, pattern: 0x0000b660, arch: Arch::V6, isa: Isa::Thumb, flavour: Flavour::Both, form: Form::TCps },
            Opcode::TRev => Descriptor { mask: 0x0000ffc0, pattern: 0x0000ba00, arch: Arch::V6, isa: Isa::Thumb, flavour: Flavour::Both, form: Form::TRegs2 },
            Opcode::TRev16 => Descriptor { mask: 0x0000ffc0, pattern: 0x0000ba40, arch: Arch::V6, isa: Isa::Thumb, flavour: Flavour::Both, form: Form::TRegs2 },
            Opcode::TRevsh => Descriptor { mask: 0x0000ffc0, pattern: 0x0000bac0, arch: Arch::V6, isa: Isa::Thumb, flavour: Flavour::Both, form: Form::TRegs2 },
            Opcode::TBkpt => Descriptor { mask: 0x0000ff00, pattern: 0x0000be00, arch: Arch::V5TE, isa: Isa::Thumb, flavour: Flavour::Both, form: Form::TImmOnly },
            Opcode::TStm => Descriptor { mask: 0x0000f800, pattern: 0x0000c000, arch: Arch::V4T, isa: Isa::Thumb, flavour: Flavour::Both, form: Form::TStm },
            Opcode::TLdm => Descriptor { mask: 0x0000f800, pattern: 0x0000c800, arch: Arch::V4T, isa: Isa::Thumb, flavour: Flavour::Both, form: Form::TLdm },
            Opcode::TBCond => Descriptor { mask: 0x0000f000, pattern: 0x0000d000, arch: Arch::V4T, isa: Isa::Thumb, flavour: Flavour::Both, form: Form::TBranchCond },
            Opcode::TSvc => Descriptor { mask: 0x0000ff00, pattern: 0x0000df00, arch: Arch::V4T, isa: Isa::Thumb, flavour: Flavour::Ual, form: Form::TImmOnly },
            Opcode::TSwi => Descriptor { mask: 0x0000ff00, pattern: 0x0000df00, arch: Arch::V4T, isa: Isa::Thumb, flavour: Flavour::Divided, form: Form::TImmOnly },
            Opcode::TB => Descriptor { mask: 0x0000f800, pattern: 0x0000e000, arch: Arch::V4T, isa: Isa::Thumb, flavour: Flavour::Both, form: Form::TBranch },
            Opcode::BlH => Descriptor { mask: 0x0000f800, pattern: 0x0000f000, arch: Arch::V4T, isa: Isa::Thumb, flavour: Flavour::Both, form: Form::TBlHalf },
            Opcode::TBl => Descriptor { mask: 0xf800f800, pattern: 0xf000f800, arch: Arch::V4T, isa: Isa::Thumb, flavour: Flavour::Both, form: Form::TBlLong },
            Opcode::TBlx => Descriptor { mask: 0xf800f801, pattern: 0xf000e800, arch: Arch::V5TE, isa: Isa::Thumb, flavour: Flavour::Both, form: Form::TBlLong },
        }
    }

    /// Base mnemonic of this opcode.
    pub open spec fn spec_mnemonic(self) -> Seq<char> {
        match self {
            Opcode::Illegal => "<illegal>"@,
            Opcode::And => "and"@,
            Opcode::Eor => "eor"@,
            Opcode::Sub => "sub"@,
            Opcode::Rsb => "rsb"@,
            Opcode::Add => "add"@,
            Opcode::Adc => "adc"@,
            Opcode::Sbc => "sbc"@,
            Opcode::Rsc => "rsc"@,
            Opcode::Tst => "tst"@,
            Opcode::Teq => "teq"@,
            Opcode::Cmp => "cmp"@,
            Opcode::Cmn => "cmn"@,
            Opcode::Orr => "orr"@,
            Opcode::Mov => "mov"@,
            Opcode::Bic => "bic"@,
            Opcode::Mvn => "mvn"@,
            Opcode::MovReg => "mov"@,
            Opcode::LslImm => "lsl"@,
            Opcode::LslReg => "lsl"@,
            Opcode::LsrImm => "lsr"@,
            Opcode::LsrReg => "lsr"@,
            Opcode::AsrImm => "asr"@,
            Opcode::AsrReg => "asr"@,
            Opcode::RorImm => "ror"@,
            Opcode::RorReg => "ror"@,
            Opcode::Rrx => "rrx"@,
            Opcode::Mul => "mul"@,
            Opcode::Mla => "mla"@,
            Opcode::Umaal => "umaal"@,
            Opcode::Umull => "umull"@,
            Opcode::Umlal => "umlal"@,
            Opcode::Smull => "smull"@,
            Opcode::Smlal => "smlal"@,
            Opcode::SmlaXy => "smla"@,
            Opcode::SmlawY => "smlaw"@,
            Opcode::SmulwY => "smulw"@,
            Opcode::SmlalXy => "smlal"@,
            Opcode::SmulXy => "smul"@,
            Opcode::Smlad => "smlad"@,
            Opcode::Smlsd => "smlsd"@,
            Opcode::Smuad => "smuad"@,
            Opcode::Smusd => "smusd"@,
            Opcode::Smlald => "smlald"@,
            Opcode::Smlsld => "smlsld"@,
            Opcode::Smmla => "smmla"@,
            Opcode::Smmls => "smmls"@,
            Opcode::Smmul => "smmul"@,
            Opcode::Usada8 => "usada8"@,
            Opcode::Usad8 => "usad8"@,
            Opcode::B => "b"@,
            Opcode::Bl => "bl"@,
            Opcode::BlxImm => "blx"@,
            Opcode::Bx => "bx"@,
            Opcode::Bxj => "bxj"@,
            Opcode::BlxReg => "blx"@,
            Opcode::Cdp => "cdp"@,
            Opcode::Cdp2 => "cdp2"@,
            Opcode::Mcr => "mcr"@,
            Opcode::Mrc => "mrc"@,
            Opcode::Mcr2 => "mcr2"@,
            Opcode::Mrc2 => "mrc2"@,
            Opcode::Mcrr => "mcrr"@,
            Opcode::Mrrc => "mrrc"@,
            Opcode::Mcrr2 => "mcrr2"@,
            Opcode::Mrrc2 => "mrrc2"@,
            Opcode::Ldc => "ldc"@,
            Opcode::Stc => "stc"@,
            Opcode::Ldc2 => "ldc2"@,
            Opcode::Stc2 => "stc2"@,
            Opcode::Ldm => "ldm"@,
            Opcode::Stm => "stm"@,
            Opcode::Pop => "pop"@,
            Opcode::Push => "push"@,
            Opcode::PopOne => "pop"@,
            Opcode::PushOne => "push"@,
            Opcode::Ldr => "ldr"@,
            Opcode::Ldrb => "ldrb"@,
            Opcode::Str => "str"@,
            Opcode::Strb => "strb"@,
            Opcode::Ldrt => "ldrt"@,
            Opcode::Ldrbt => "ldrbt"@,
            Opcode::Strt => "strt"@,
            Opcode::Strbt => "strbt"@,
            Opcode::Ldrh => "ldrh"@,
            Opcode::Strh => "strh"@,
            Opcode::Ldrsb => "ldrsb"@,
            Opcode::Ldrsh => "ldrsh"@,
            Opcode::Ldrd => "ldrd"@,
            Opcode::Strd => "strd"@,
            Opcode::Pld => "pld"@,
            Opcode::Swp => "swp"@,
            Opcode::Swpb => "swpb"@,
            Opcode::Ldrex => "ldrex"@,
            Opcode::Strex => "strex"@,
            Opcode::Mrs => "mrs"@,
            Opcode::MsrReg => "msr"@,
            Opcode::MsrImm => "msr"@,
            Opcode::Svc => "svc"@,
            Opcode::Swi => "swi"@,
            Opcode::Bkpt => "bkpt"@,
            Opcode::Clz => "clz"@,
            Opcode::Qadd => "qadd"@,
            Opcode::Qsub => "qsub"@,
            Opcode::Qdadd => "qdadd"@,
            Opcode::Qdsub => "qdsub"@,
            Opcode::Sadd16 => "sadd16"@,
            Opcode::Saddsubx => "saddsubx"@,
            Opcode::Ssubaddx => "ssubaddx"@,
            Opcode::Ssub16 => "ssub16"@,
            Opcode::Sadd8 => "sadd8"@,
            Opcode::Ssub8 => "ssub8"@,
            Opcode::Qadd16 => "qadd16"@,
            Opcode::Qaddsubx => "qaddsubx"@,
            Opcode::Qsubaddx => "qsubaddx"@,
            Opcode::Qsub16 => "qsub16"@,
            Opcode::Qadd8 => "qadd8"@,
            Opcode::Qsub8 => "qsub8"@,
            Opcode::Shadd16 => "shadd16"@,
            Opcode::Shaddsubx => "shaddsubx"@,
            Opcode::Shsubaddx => "shsubaddx"@,
            Opcode::Shsub16 => "shsub16"@,
            Opcode::Shadd8 => "shadd8"@,
            Opcode::Shsub8 => "shsub8"@,
            Opcode::Uadd16 => "uadd16"@,
            Opcode::Uaddsubx => "uaddsubx"@,
            Opcode::Usubaddx => "usubaddx"@,
            Opcode::Usub16 => "usub16"@,
            Opcode::Uadd8 => "uadd8"@,
            Opcode::Usub8 => "usub8"@,
            Opcode::Uqadd16 => "uqadd16"@,
            Opcode::Uqaddsubx => "uqaddsubx"@,
            Opcode::Uqsubaddx => "uqsubaddx"@,
            Opcode::Uqsub16 => "uqsub16"@,
            Opcode::Uqadd8 => "uqadd8"@,
            Opcode::Uqsub8 => "uqsub8"@,
            Opcode::Uhadd16 => "uhadd16"@,
            Opcode::Uhaddsubx => "uhaddsubx"@,
            Opcode::Uhsubaddx => "uhsubaddx"@,
            Opcode::Uhsub16 => "uhsub16"@,
            Opcode::Uhadd8 => "uhadd8"@,
            Opcode::Uhsub8 => "uhsub8"@,
            Opcode::Sel => "sel"@,
            Opcode::Rev => "rev"@,
            Opcode::Rev16 => "rev16"@,
            Opcode::Revsh => "revsh"@,
            Opcode::Pkhbt => "pkhbt"@,
            Opcode::Pkhtb => "pkhtb"@,
            Opcode::Ssat => "ssat"@,
            Opcode::Usat => "usat"@,
            Opcode::Ssat16 => "ssat16"@,
            Opcode::Usat16 => "usat16"@,
            Opcode::Sxtab16 => "sxtab16"@,
            Opcode::Sxtb16 => "sxtb16"@,
            Opcode::Sxtab => "sxtab"@,
            Opcode::Sxtb => "sxtb"@,
            Opcode::Sxtah => "sxtah"@,
            Opcode::Sxth => "sxth"@,
            Opcode::Uxtab16 => "uxtab16"@,
            Opcode::Uxtb16 => "uxtb16"@,
            Opcode::Uxtab => "uxtab"@,
            Opcode::Uxtb => "uxtb"@,
            Opcode::Uxtah => "uxtah"@,
            Opcode::Uxth => "uxth"@,
            Opcode::Clrex => "clrex"@,
            Opcode::Ldrexd => "ldrexd"@,
            Opcode::Ldrexb => "ldrexb"@,
            Opcode::Ldrexh => "ldrexh"@,
            Opcode::Strexd => "strexd"@,
            Opcode::Strexb => "strexb"@,
            Opcode::Strexh => "strexh"@,
            Opcode::Nop => "nop"@,
            Opcode::Yield => "yield"@,
            Opcode::Wfe => "wfe"@,
            Opcode::Wfi => "wfi"@,
            Opcode::Sev => "sev"@,
            Opcode::Cps => "cps"@,
            Opcode::Setend => "setend"@,
            Opcode::Rfe => "rfe"@,
            Opcode::Srs => "srs"@,
            Opcode::TLslImm => "lsl"@,
            Opcode::TLsrImm => "lsr"@,
            Opcode::TAsrImm => "asr"@,
            Opcode::TAddReg => "add"@,
            Opcode::TSubReg => "sub"@,
            Opcode::TAddImm3 => "add"@,
            Opcode::TSubImm3 => "sub"@,
            Opcode::TMovImm => "mov"@,
            Opcode::TCmpImm => "cmp"@,
            Opcode::TAddImm8 => "add"@,
            Opcode::TSubImm8 => "sub"@,
            Opcode::TAnd => "and"@,
            Opcode::TEor => "eor"@,
            Opcode::TLslReg => "lsl"@,
            Opcode::TLsrReg => "lsr"@,
            Opcode::TAsrReg => "asr"@,
            Opcode::TAdc => "adc"@,
            Opcode::TSbc => "sbc"@,
            Opcode::TRorReg => "ror"@,
            Opcode::TTst => "tst"@,
            Opcode::TNeg => "neg"@,
            Opcode::TCmpReg => "cmp"@,
            Opcode::TCmn => "cmn"@,
            Opcode::TOrr => "orr"@,
            Opcode::TMul => "mul"@,
            Opcode::TBic => "bic"@,
            Opcode::TMvn => "mvn"@,
            Opcode::TAddHi => "add"@,
            Opcode::TCmpHi => "cmp"@,
            Opcode::TMovHi => "mov"@,
            Opcode::TBx => "bx"@,
            Opcode::TBlxReg => "blx"@,
            Opcode::TLdrPc => "ldr"@,
            Opcode::TStrReg => "str"@,
            Opcode::TStrhReg => "strh"@,
            Opcode::TStrbReg => "strb"@,
            Opcode::TLdrsbReg => "ldrsb"@,
            Opcode::TLdrReg => "ldr"@,
            Opcode::TLdrhReg => "ldrh"@,
            Opcode::TLdrbReg => "ldrb"@,
            Opcode::TLdrshReg => "ldrsh"@,
            Opcode::TStrImm => "str"@,
            Opcode::TLdrImm => "ldr"@,
            Opcode::TStrbImm => "strb"@,
            Opcode::TLdrbImm => "ldrb"@,
            Opcode::TStrhImm => "strh"@,
            Opcode::TLdrhImm => "ldrh"@,
            Opcode::TStrSp => "str"@,
            Opcode::TLdrSp => "ldr"@,
            Opcode::TAddPc => "add"@,
            Opcode::TAddSp => "add"@,
            Opcode::TAddSpImm => "add"@,
            Opcode::TSubSpImm => "sub"@,
            Opcode::TSxth => "sxth"@,
            Opcode::TSxtb => "sxtb"@,
            Opcode::TUxth => "uxth"@,
            Opcode::TUxtb => "uxtb"@,
            Opcode::TPush => "push"@,
            Opcode::TPop => "pop"@,
            Opcode::TSetend => "setend"@,
            Opcode::TCps => "cps"@,
            Opcode::TRev => "rev"@,
            Opcode::TRev16 => "rev16"@,
            Opcode::TRevsh => "revsh"@,
            Opcode::TBkpt => "bkpt"@,
            Opcode::TStm => "stm"@,
            Opcode::TLdm => "ldm"@,
            Opcode::TBCond => "b"@,
            Opcode::TSvc => "svc"@,
            Opcode::TSwi => "swi"@,
            Opcode::TB => "b"@,
            Opcode::BlH => "bl"@,
            Opcode::TBl => "bl"@,
            Opcode::TBlx => "blx"@,
        }
    }

    /// Base mnemonic of this opcode.
    pub fn mnemonic(self) -> (r: &'static str)
        ensures
            r@ == self.spec_mnemonic(),
    {
        match self {
            Opcode::Illegal => "<illegal>",
            Opcode::And => "and",
            Opcode::Eor => "eor",
            Opcode::Sub => "sub",
            Opcode::Rsb => "rsb",
            Opcode::Add => "add",
            Opcode::Adc => "adc",
            Opcode::Sbc => "sbc",
            Opcode::Rsc => "rsc",
            Opcode::Tst => "tst",
            Opcode::Teq => "teq",
            Opcode::Cmp => "cmp",
            Opcode::Cmn => "cmn",
            Opcode::Orr => "orr",
            Opcode::Mov => "mov",
            Opcode::Bic => "bic",
            Opcode::Mvn => "mvn",
            Opcode::MovReg => "mov",
            Opcode::LslImm => "lsl",
            Opcode::LslReg => "lsl",
            Opcode::LsrImm => "lsr",
            Opcode::LsrReg => "lsr",
            Opcode::AsrImm => "asr",
            Opcode::AsrReg => "asr",
            Opcode::RorImm => "ror",
            Opcode::RorReg => "ror",
            Opcode::Rrx => "rrx",
            Opcode::Mul => "mul",
            Opcode::Mla => "mla",
            Opcode::Umaal => "umaal",
            Opcode::Umull => "umull",
            Opcode::Umlal => "umlal",
            Opcode::Smull => "smull",
            Opcode::Smlal => "smlal",
            Opcode::SmlaXy => "smla",
            Opcode::SmlawY => "smlaw",
            Opcode::SmulwY => "smulw",
            Opcode::SmlalXy => "smlal",
            Opcode::SmulXy => "smul",
            Opcode::Smlad => "smlad",
            Opcode::Smlsd => "smlsd",
            Opcode::Smuad => "smuad",
            Opcode::Smusd => "smusd",
            Opcode::Smlald => "smlald",
            Opcode::Smlsld => "smlsld",
            Opcode::Smmla => "smmla",
            Opcode::Smmls => "smmls",
            Opcode::Smmul => "smmul",
            Opcode::Usada8 => "usada8",
            Opcode::Usad8 => "usad8",
            Opcode::B => "b",
            Opcode::Bl => "bl",
            Opcode::BlxImm => "blx",
            Opcode::Bx => "bx",
            Opcode::Bxj => "bxj",
            Opcode::BlxReg => "blx",
            Opcode::Cdp => "cdp",
            Opcode::Cdp2 => "cdp2",
            Opcode::Mcr => "mcr",
            Opcode::Mrc => "mrc",
            Opcode::Mcr2 => "mcr2",
            Opcode::Mrc2 => "mrc2",
            Opcode::Mcrr => "mcrr",
            Opcode::Mrrc => "mrrc",
            Opcode::Mcrr2 => "mcrr2",
            Opcode::Mrrc2 => "mrrc2",
            Opcode::Ldc => "ldc",
            Opcode::Stc => "stc",
            Opcode::Ldc2 => "ldc2",
            Opcode::Stc2 => "stc2",
            Opcode::Ldm => "ldm",
            Opcode::Stm => "stm",
            Opcode::Pop => "pop",
            Opcode::Push => "push",
            Opcode::PopOne => "pop",
            Opcode::PushOne => "push",
            Opcode::Ldr => "ldr",
            Opcode::Ldrb => "ldrb",
            Opcode::Str => "str",
            Opcode::Strb => "strb",
            Opcode::Ldrt => "ldrt",
            Opcode::Ldrbt => "ldrbt",
            Opcode::Strt => "strt",
            Opcode::Strbt => "strbt",
            Opcode::Ldrh => "ldrh",
            Opcode::Strh => "strh",
            Opcode::Ldrsb => "ldrsb",
            Opcode::Ldrsh => "ldrsh",
            Opcode::Ldrd => "ldrd",
            Opcode::Strd => "strd",
            Opcode::Pld => "pld",
            Opcode::Swp => "swp",
            Opcode::Swpb => "swpb",
            Opcode::Ldrex => "ldrex",
            Opcode::Strex => "strex",
            Opcode::Mrs => "mrs",
            Opcode::MsrReg => "msr",
            Opcode::MsrImm => "msr",
            Opcode::Svc => "svc",
            Opcode::Swi => "swi",
            Opcode::Bkpt => "bkpt",
            Opcode::Clz => "clz",
            Opcode::Qadd => "qadd",
            Opcode::Qsub => "qsub",
            Opcode::Qdadd => "qdadd",
            Opcode::Qdsub => "qdsub",
            Opcode::Sadd16 => "sadd16",
            Opcode::Saddsubx => "saddsubx",
            Opcode::Ssubaddx => "ssubaddx",
            Opcode::Ssub16 => "ssub16",
            Opcode::Sadd8 => "sadd8",
            Opcode::Ssub8 => "ssub8",
            Opcode::Qadd16 => "qadd16",
            Opcode::Qaddsubx => "qaddsubx",
            Opcode::Qsubaddx => "qsubaddx",
            Opcode::Qsub16 => "qsub16",
            Opcode::Qadd8 => "qadd8",
            Opcode::Qsub8 => "qsub8",
            Opcode::Shadd16 => "shadd16",
            Opcode::Shaddsubx => "shaddsubx",
            Opcode::Shsubaddx => "shsubaddx",
            Opcode::Shsub16 => "shsub16",
            Opcode::Shadd8 => "shadd8",
            Opcode::Shsub8 => "shsub8",
            Opcode::Uadd16 => "uadd16",
            Opcode::Uaddsubx => "uaddsubx",
            Opcode::Usubaddx => "usubaddx",
            Opcode::Usub16 => "usub16",
            Opcode::Uadd8 => "uadd8",
            Opcode::Usub8 => "usub8",
            Opcode::Uqadd16 => "uqadd16",
            Opcode::Uqaddsubx => "uqaddsubx",
            Opcode::Uqsubaddx => "uqsubaddx",
            Opcode::Uqsub16 => "uqsub16",
            Opcode::Uqadd8 => "uqadd8",
            Opcode::Uqsub8 => "uqsub8",
            Opcode::Uhadd16 => "uhadd16",
            Opcode::Uhaddsubx => "uhaddsubx",
            Opcode::Uhsubaddx => "uhsubaddx",
            Opcode::Uhsub16 => "uhsub16",
            Opcode::Uhadd8 => "uhadd8",
            Opcode::Uhsub8 => "uhsub8",
            Opcode::Sel => "sel",
            Opcode::Rev => "rev",
            Opcode::Rev16 => "rev16",
            Opcode::Revsh => "revsh",
            Opcode::Pkhbt => "pkhbt",
            Opcode::Pkhtb => "pkhtb",
            Opcode::Ssat => "ssat",
            Opcode::Usat => "usat",
            Opcode::Ssat16 => "ssat16",
            Opcode::Usat16 => "usat16",
            Opcode::Sxtab16 => "sxtab16",
            Opcode::Sxtb16 => "sxtb16",
            Opcode::Sxtab => "sxtab",
            Opcode::Sxtb => "sxtb",
            Opcode::Sxtah => "sxtah",
            Opcode::Sxth => "sxth",
            Opcode::Uxtab16 => "uxtab16",
            Opcode::Uxtb16 => "uxtb16",
            Opcode::Uxtab => "uxtab",
            Opcode::Uxtb => "uxtb",
            Opcode::Uxtah => "uxtah",
            Opcode::Uxth => "uxth",
            Opcode::Clrex => "clrex",
            Opcode::Ldrexd => "ldrexd",
            Opcode::Ldrexb => "ldrexb",
            Opcode::Ldrexh => "ldrexh",
            Opcode::Strexd => "strexd",
            Opcode::Strexb => "strexb",
            Opcode::Strexh => "strexh",
            Opcode::Nop => "nop",
            Opcode::Yield => "yield",
            Opcode::Wfe => "wfe",
            Opcode::Wfi => "wfi",
            Opcode::Sev => "sev",
            Opcode::Cps => "cps",
            Opcode::Setend => "setend",
            Opcode::Rfe => "rfe",
            Opcode::Srs => "srs",
            Opcode::TLslImm => "lsl",
            Opcode::TLsrImm => "lsr",
            Opcode::TAsrImm => "asr",
            Opcode::TAddReg => "add",
            Opcode::TSubReg => "sub",
            Opcode::TAddImm3 => "add",
            Opcode::TSubImm3 => "sub",
            Opcode::TMovImm => "mov",
            Opcode::TCmpImm => "cmp",
            Opcode::TAddImm8 => "add",
            Opcode::TSubImm8 => "sub",
            Opcode::TAnd => "and",
            Opcode::TEor => "eor",
            Opcode::TLslReg => "lsl",
            Opcode::TLsrReg => "lsr",
            Opcode::TAsrReg => "asr",
            Opcode::TAdc => "adc",
            Opcode::TSbc => "sbc",
            Opcode::TRorReg => "ror",
            Opcode::TTst => "tst",
            Opcode::TNeg => "neg",
            Opcode::TCmpReg => "cmp",
            Opcode::TCmn => "cmn",
            Opcode::TOrr => "orr",
            Opcode::TMul => "mul",
            Opcode::TBic => "bic",
            Opcode::TMvn => "mvn",
            Opcode::TAddHi => "add",
            Opcode::TCmpHi => "cmp",
            Opcode::TMovHi => "mov",
            Opcode::TBx => "bx",
            Opcode::TBlxReg => "blx",
            Opcode::TLdrPc => "ldr",
            Opcode::TStrReg => "str",
            Opcode::TStrhReg => "strh",
            Opcode::TStrbReg => "strb",
            Opcode::TLdrsbReg => "ldrsb",
            Opcode::TLdrReg => "ldr",
            Opcode::TLdrhReg => "ldrh",
            Opcode::TLdrbReg => "ldrb",
            Opcode::TLdrshReg => "ldrsh",
            Opcode::TStrImm => "str",
            Opcode::TLdrImm => "ldr",
            Opcode::TStrbImm => "strb",
            Opcode::TLdrbImm => "ldrb",
            Opcode::TStrhImm => "strh",
            Opcode::TLdrhImm => "ldrh",
            Opcode::TStrSp => "str",
            Opcode::TLdrSp => "ldr",
            Opcode::TAddPc => "add",
            Opcode::TAddSp => "add",
            Opcode::TAddSpImm => "add",
            Opcode::TSubSpImm => "sub",
            Opcode::TSxth => "sxth",
            Opcode::TSxtb => "sxtb",
            Opcode::TUxth => "uxth",
            Opcode::TUxtb => "uxtb",
            Opcode::TPush => "push",
            Opcode::TPop => "pop",
            Opcode::TSetend => "setend",
            Opcode::TCps => "cps",
            Opcode::TRev => "rev",
            Opcode::TRev16 => "rev16",
            Opcode::TRevsh => "revsh",
            Opcode::TBkpt => "bkpt",
            Opcode::TStm => "stm",
            Opcode::TLdm => "ldm",
            Opcode::TBCond => "b",
            Opcode::TSvc => "svc",
            Opcode::TSwi => "swi",
            Opcode::TB => "b",
            Opcode::BlH => "bl",
            Opcode::TBl => "bl",
            Opcode::TBlx => "blx",
        }
    }

    /// Position of this opcode in the catalogue; `Illegal` comes after all others.
    pub open spec fn index(self) -> nat {
        match self {
            Opcode::And => 0,
            Opcode::Eor => 1,
            Opcode::Sub => 2,
            Opcode::Rsb => 3,
            Opcode::Add => 4,
            Opcode::Adc => 5,
            Opcode::Sbc => 6,
            Opcode::Rsc => 7,
            Opcode::Tst => 8,
            Opcode::Teq => 9,
            Opcode::Cmp => 10,
            Opcode::Cmn => 11,
            Opcode::Orr => 12,
            Opcode::Mov => 13,
            Opcode::Bic => 14,
            Opcode::Mvn => 15,
            Opcode::MovReg => 16,
            Opcode::LslImm => 17,
            Opcode::LslReg => 18,
            Opcode::LsrImm => 19,
            Opcode::LsrReg => 20,
            Opcode::AsrImm => 21,
            Opcode::AsrReg => 22,
            Opcode::RorImm => 23,
            Opcode::RorReg => 24,
            Opcode::Rrx => 25,
            Opcode::Mul => 26,
            Opcode::Mla => 27,
            Opcode::Umaal => 28,
            Opcode::Umull => 29,
            Opcode::Umlal => 30,
            Opcode::Smull => 31,
            Opcode::Smlal => 32,
            Opcode::SmlaXy => 33,
            Opcode::SmlawY => 34,
            Opcode::SmulwY => 35,
            Opcode::SmlalXy => 36,
            Opcode::SmulXy => 37,
            Opcode::Smlad => 38,
            Opcode::Smlsd => 39,
            Opcode::Smuad => 40,
            Opcode::Smusd => 41,
            Opcode::Smlald => 42,
            Opcode::Smlsld => 43,
            Opcode::Smmla => 44,
            Opcode::Smmls => 45,
            Opcode::Smmul => 46,
            Opcode::Usada8 => 47,
            Opcode::Usad8 => 48,
            Opcode::B => 49,
            Opcode::Bl => 50,
            Opcode::BlxImm => 51,
            Opcode::Bx => 52,
            Opcode::Bxj => 53,
            Opcode::BlxReg => 54,
            Opcode::Cdp => 55,
            Opcode::Cdp2 => 56,
            Opcode::Mcr => 57,
            Opcode::Mrc => 58,
            Opcode::Mcr2 => 59,
            Opcode::Mrc2 => 60,
            Opcode::Mcrr => 61,
            Opcode::Mrrc => 62,
            Opcode::Mcrr2 => 63,
            Opcode::Mrrc2 => 64,
            Opcode::Ldc => 65,
            Opcode::Stc => 66,
            Opcode::Ldc2 => 67,
            Opcode::Stc2 => 68,
            Opcode::Ldm => 69,
            Opcode::Stm => 70,
            Opcode::Pop => 71,
            Opcode::Push => 72,
            Opcode::PopOne => 73,
            Opcode::PushOne => 74,
            Opcode::Ldr => 75,
            Opcode::Ldrb => 76,
            Opcode::Str => 77,
            Opcode::Strb => 78,
            Opcode::Ldrt => 79,
            Opcode::Ldrbt => 80,
            Opcode::Strt => 81,
            Opcode::Strbt => 82,
            Opcode::Ldrh => 83,
            Opcode::Strh => 84,
            Opcode::Ldrsb => 85,
            Opcode::Ldrsh => 86,
            Opcode::Ldrd => 87,
            Opcode::Strd => 88,
            Opcode::Pld => 89,
            Opcode::Swp => 90,
            Opcode::Swpb => 91,
            Opcode::Ldrex => 92,
            Opcode::Strex => 93,
            Opcode::Mrs => 94,
            Opcode::MsrReg => 95,
            Opcode::MsrImm => 96,
            Opcode::Svc => 97,
            Opcode::Swi => 98,
            Opcode::Bkpt => 99,
            Opcode::Clz => 100,
            Opcode::Qadd => 101,
            Opcode::Qsub => 102,
            Opcode::Qdadd => 103,
            Opcode::Qdsub => 104,
            Opcode::Sadd16 => 105,
            Opcode::Saddsubx => 106,
            Opcode::Ssubaddx => 107,
            Opcode::Ssub16 => 108,
            Opcode::Sadd8 => 109,
            Opcode::Ssub8 => 110,
            Opcode::Qadd16 => 111,
            Opcode::Qaddsubx => 112,
            Opcode::Qsubaddx => 113,
            Opcode::Qsub16 => 114,
            Opcode::Qadd8 => 115,
            Opcode::Qsub8 => 116,
            Opcode::Shadd16 => 117,
            Opcode::Shaddsubx => 118,
            Opcode::Shsubaddx => 119,
            Opcode::Shsub16 => 120,
            Opcode::Shadd8 => 121,
            Opcode::Shsub8 => 122,
            Opcode::Uadd16 => 123,
            Opcode::Uaddsubx => 124,
            Opcode::Usubaddx => 125,
            Opcode::Usub16 => 126,
            Opcode::Uadd8 => 127,
            Opcode::Usub8 => 128,
            Opcode::Uqadd16 => 129,
            Opcode::Uqaddsubx => 130,
            Opcode::Uqsubaddx => 131,
            Opcode::Uqsub16 => 132,
            Opcode::Uqadd8 => 133,
            Opcode::Uqsub8 => 134,
            Opcode::Uhadd16 => 135,
            Opcode::Uhaddsubx => 136,
            Opcode::Uhsubaddx => 137,
            Opcode::Uhsub16 => 138,
            Opcode::Uhadd8 => 139,
            Opcode::Uhsub8 => 140,
            Opcode::Sel => 141,
            Opcode::Rev => 142,
            Opcode::Rev16 => 143,
            Opcode::Revsh => 144,
            Opcode::Pkhbt => 145,
            Opcode::Pkhtb => 146,
            Opcode::Ssat => 147,
            Opcode::Usat => 148,
            Opcode::Ssat16 => 149,
            Opcode::Usat16 => 150,
            Opcode::Sxtab16 => 151,
            Opcode::Sxtb16 => 152,
            Opcode::Sxtab => 153,
            Opcode::Sxtb => 154,
            Opcode::Sxtah => 155,
            Opcode::Sxth => 156,
            Opcode::Uxtab16 => 157,
            Opcode::Uxtb16 => 158,
            Opcode::Uxtab => 159,
            Opcode::Uxtb => 160,
            Opcode::Uxtah => 161,
            Opcode::Uxth => 162,
            Opcode::Clrex => 163,
            Opcode::Ldrexd => 164,
            Opcode::Ldrexb => 165,
            Opcode::Ldrexh => 166,
            Opcode::Strexd => 167,
            Opcode::Strexb => 168,
            Opcode::Strexh => 169,
            Opcode::Nop => 170,
            Opcode::Yield => 171,
            Opcode::Wfe => 172,
            Opcode::Wfi => 173,
            Opcode::Sev => 174,
            Opcode::Cps => 175,
            Opcode::Setend => 176,
            Opcode::Rfe => 177,
            Opcode::Srs => 178,
            Opcode::TLslImm => 179,
            Opcode::TLsrImm => 180,
            Opcode::TAsrImm => 181,
            Opcode::TAddReg => 182,
            Opcode::TSubReg => 183,
            Opcode::TAddImm3 => 184,
            Opcode::TSubImm3 => 185,
            Opcode::TMovImm => 186,
            Opcode::TCmpImm => 187,
            Opcode::TAddImm8 => 188,
            Opcode::TSubImm8 => 189,
            Opcode::TAnd => 190,
            Opcode::TEor => 191,
            Opcode::TLslReg => 192,
            Opcode::TLsrReg => 193,
            Opcode::TAsrReg => 194,
            Opcode::TAdc => 195,
            Opcode::TSbc => 196,
            Opcode::TRorReg => 197,
            Opcode::TTst => 198,
            Opcode::TNeg => 199,
            Opcode::TCmpReg => 200,
            Opcode::TCmn => 201,
            Opcode::TOrr => 202,
            Opcode::TMul => 203,
            Opcode::TBic => 204,
            Opcode::TMvn => 205,
            Opcode::TAddHi => 206,
            Opcode::TCmpHi => 207,
            Opcode::TMovHi => 208,
            Opcode::TBx => 209,
            Opcode::TBlxReg => 210,
            Opcode::TLdrPc => 211,
            Opcode::TStrReg => 212,
            Opcode::TStrhReg => 213,
            Opcode::TStrbReg => 214,
            Opcode::TLdrsbReg => 215,
            Opcode::TLdrReg => 216,
            Opcode::TLdrhReg => 217,
            Opcode::TLdrbReg => 218,
            Opcode::TLdrshReg => 219,
            Opcode::TStrImm => 220,
            Opcode::TLdrImm => 221,
            Opcode::TStrbImm => 222,
            Opcode::TLdrbImm => 223,
            Opcode::TStrhImm => 224,
            Opcode::TLdrhImm => 225,
            Opcode::TStrSp => 226,
            Opcode::TLdrSp => 227,
            Opcode::TAddPc => 228,
            Opcode::TAddSp => 229,
            Opcode::TAddSpImm => 230,
            Opcode::TSubSpImm => 231,
            Opcode::TSxth => 232,
            Opcode::TSxtb => 233,
            Opcode::TUxth => 234,
            Opcode::TUxtb => 235,
            Opcode::TPush => 236,
            Opcode::TPop => 237,
            Opcode::TSetend => 238,
            Opcode::TCps => 239,
            Opcode::TRev => 240,
            Opcode::TRev16 => 241,
            Opcode::TRevsh => 242,
            Opcode::TBkpt => 243,
            Opcode::TStm => 244,
            Opcode::TLdm => 245,
            Opcode::TBCond => 246,
            Opcode::TSvc => 247,
            Opcode::TSwi => 248,
            Opcode::TB => 249,
            Opcode::BlH => 250,
            Opcode::TBl => 251,
            Opcode::TBlx => 252,
            Opcode::Illegal => 253,
        }
    }

    /// The opcode at position `i` of the catalogue; `Illegal` past the end.
    pub fn at(i: usize) -> (r: Opcode)
        ensures
            r.index() == if i < OPCODE_COUNT { i as nat } else { OPCODE_COUNT as nat },
    {
        if i < 40 {
            Opcode::at_from_0(i)
        } else if i < 80 {
            Opcode::at_from_40(i)
        } else if i < 120 {
            Opcode::at_from_80(i)
        } else if i < 160 {
            Opcode::at_from_120(i)
        } else if i < 200 {
            Opcode::at_from_160(i)
        } else if i < 240 {
            Opcode::at_from_200(i)
        } else if i < 253 {
            Opcode::at_from_240(i)
        } else {
            Opcode::Illegal
        }
    }

    fn at_from_0(i: usize) -> (r: Opcode)
        requires
            0 <= i < 40,
        ensures
            r.index() == i as nat,
    {
        match i {
            0 => Opcode::And,
            1 => Opcode::Eor,
            2 => Opcode::Sub,
            3 => Opcode::Rsb,
            4 => Opcode::Add,
            5 => Opcode::Adc,
            6 => Opcode::Sbc,
            7 => Opcode::Rsc,
            8 => Opcode::Tst,
            9 => Opcode::Teq,
            10 => Opcode::Cmp,
            11 => Opcode::Cmn,
            12 => Opcode::Orr,
            13 => Opcode::Mov,
            14 => Opcode::Bic,
            15 => Opcode::Mvn,
            16 => Opcode::MovReg,
            17 => Opcode::LslImm,
            18 => Opcode::LslReg,
            19 => Opcode::LsrImm,
            20 => Opcode::LsrReg,
            21 => Opcode::AsrImm,
            22 => Opcode::AsrReg,
            23 => Opcode::RorImm,
            24 => Opcode::RorReg,
            25 => Opcode::Rrx,
            26 => Opcode::Mul,
            27 => Opcode::Mla,
            28 => Opcode::Umaal,
            29 => Opcode::Umull,
            30 => Opcode::Umlal,
            31 => Opcode::Smull,
            32 => Opcode::Smlal,
            33 => Opcode::SmlaXy,
            34 => Opcode::SmlawY,
            35 => Opcode::SmulwY,
            36 => Opcode::SmlalXy,
            37 => Opcode::SmulXy,
            38 => Opcode::Smlad,
            _ => Opcode::Smlsd,
        }
    }

    fn at_from_40(i: usize) -> (r: Opcode)
        requires
            40 <= i < 80,
        ensures
            r.index() == i as nat,
    {
        match i {
            40 => Opcode::Smuad,
            41 => Opcode::Smusd,
            42 => Opcode::Smlald,
            43 => Opcode::Smlsld,
            44 => Opcode::Smmla,
            45 => Opcode::Smmls,
            46 => Opcode::Smmul,
            47 => Opcode::Usada8,
            48 => Opcode::Usad8,
            49 => Opcode::B,
            50 => Opcode::Bl,
            51 => Opcode::BlxImm,
            52 => Opcode::Bx,
            53 => Opcode::Bxj,
            54 => Opcode::BlxReg,
            55 => Opcode::Cdp,
            56 => Opcode::Cdp2,
            57 => Opcode::Mcr,
            58 => Opcode::Mrc,
            59 => Opcode::Mcr2,
            60 => Opcode::Mrc2,
            61 => Opcode::Mcrr,
            62 => Opcode::Mrrc,
            63 => Opcode::Mcrr2,
            64 => Opcode::Mrrc2,
            65 => Opcode::Ldc,
            66 => Opcode::Stc,
            67 => Opcode::Ldc2,
            68 => Opcode::Stc2,
            69 => Opcode::Ldm,
            70 => Opcode::Stm,
            71 => Opcode::Pop,
            72 => Opcode::Push,
            73 => Opcode::PopOne,
            74 => Opcode::PushOne,
            75 => Opcode::Ldr,
            76 => Opcode::Ldrb,
            77 => Opcode::Str,
            78 => Opcode::Strb,
            _ => Opcode::Ldrt,
        }
    }

    fn at_from_80(i: usize) -> (r: Opcode)
        requires
            80 <= i < 120,
        ensures
            r.index() == i as nat,
    {
        match i {
            80 => Opcode::Ldrbt,
            81 => Opcode::Strt,
            82 => Opcode::Strbt,
            83 => Opcode::Ldrh,
            84 => Opcode::Strh,
            85 => Opcode::Ldrsb,
            86 => Opcode::Ldrsh,
            87 => Opcode::Ldrd,
            88 => Opcode::Strd,
            89 => Opcode::Pld,
            90 => Opcode::Swp,
            91 => Opcode::Swpb,
            92 => Opcode::Ldrex,
            93 => Opcode::Strex,
            94 => Opcode::Mrs,
            95 => Opcode::MsrReg,
            96 => Opcode::MsrImm,
            97 => Opcode::Svc,
            98 => Opcode::Swi,
            99 => Opcode::Bkpt,
            100 => Opcode::Clz,
            101 => Opcode::Qadd,
            102 => Opcode::Qsub,
            103 => Opcode::Qdadd,
            104 => Opcode::Qdsub,
            105 => Opcode::Sadd16,
            106 => Opcode::Saddsubx,
            107 => Opcode::Ssubaddx,
            108 => Opcode::Ssub16,
            109 => Opcode::Sadd8,
            110 => Opcode::Ssub8,
            111 => Opcode::Qadd16,
            112 => Opcode::Qaddsubx,
            113 => Opcode::Qsubaddx,
            114 => Opcode::Qsub16,
            115 => Opcode::Qadd8,
            116 => Opcode::Qsub8,
            117 => Opcode::Shadd16,
            118 => Opcode::Shaddsubx,
            _ => Opcode::Shsubaddx,
        }
    }

    fn at_from_120(i: usize) -> (r: Opcode)
        requires
            120 <= i < 160,
        ensures
            r.index() == i as nat,
    {
        match i {
            120 => Opcode::Shsub16,
            121 => Opcode::Shadd8,
            122 => Opcode::Shsub8,
            123 => Opcode::Uadd16,
            124 => Opcode::Uaddsubx,
            125 => Opcode::Usubaddx,
            126 => Opcode::Usub16,
            127 => Opcode::Uadd8,
            128 => Opcode::Usub8,
            129 => Opcode::Uqadd16,
            130 => Opcode::Uqaddsubx,
            131 => Opcode::Uqsubaddx,
            132 => Opcode::Uqsub16,
            133 => Opcode::Uqadd8,
            134 => Opcode::Uqsub8,
            135 => Opcode::Uhadd16,
            136 => Opcode::Uhaddsubx,
            137 => Opcode::Uhsubaddx,
            138 => Opcode::Uhsub16,
            139 => Opcode::Uhadd8,
            140 => Opcode::Uhsub8,
            141 => Opcode::Sel,
            142 => Opcode::Rev,
            143 => Opcode::Rev16,
            144 => Opcode::Revsh,
            145 => Opcode::Pkhbt,
            146 => Opcode::Pkhtb,
            147 => Opcode::Ssat,
            148 => Opcode::Usat,
            149 => Opcode::Ssat16,
            150 => Opcode::Usat16,
            151 => Opcode::Sxtab16,
            152 => Opcode::Sxtb16,
            153 => Opcode::Sxtab,
            154 => Opcode::Sxtb,
            155 => Opcode::Sxtah,
            156 => Opcode::Sxth,
            157 => Opcode::Uxtab16,
            158 => Opcode::Uxtb16,
            _ => Opcode::Uxtab,
        }
    }

    fn at_from_160(i: usize) -> (r: Opcode)
        requires
            160 <= i < 200,
        ensures
            r.index() == i as nat,
    {
        match i {
            160 => Opcode::Uxtb,
            161 => Opcode::Uxtah,
            162 => Opcode::Uxth,
            163 => Opcode::Clrex,
            164 => Opcode::Ldrexd,
            165 => Opcode::Ldrexb,
            166 => Opcode::Ldrexh,
            167 => Opcode::Strexd,
            168 => Opcode::Strexb,
            169 => Opcode::Strexh,
            170 => Opcode::Nop,
            171 => Opcode::Yield,
            172 => Opcode::Wfe,
            173 => Opcode::Wfi,
            174 => Opcode::Sev,
            175 => Opcode::Cps,
            176 => Opcode::Setend,
            177 => Opcode::Rfe,
            178 => Opcode::Srs,
            179 => Opcode::TLslImm,
            180 => Opcode::TLsrImm,
            181 => Opcode::TAsrImm,
            182 => Opcode::TAddReg,
            183 => Opcode::TSubReg,
            184 => Opcode::TAddImm3,
            185 => Opcode::TSubImm3,
            186 => Opcode::TMovImm,
            187 => Opcode::TCmpImm,
            188 => Opcode::TAddImm8,
            189 => Opcode::TSubImm8,
            190 => Opcode::TAnd,
            191 => Opcode::TEor,
            192 => Opcode::TLslReg,
            193 => Opcode::TLsrReg,
            194 => Opcode::TAsrReg,
            195 => Opcode::TAdc,
            196 => Opcode::TSbc,
            197 => Opcode::TRorReg,
            198 => Opcode::TTst,
            _ => Opcode::TNeg,
        }
    }

    fn at_from_200(i: usize) -> (r: Opcode)
        requires
            200 <= i < 240,
        ensures
            r.index() == i as nat,
    {
        match i {
            200 => Opcode::TCmpReg,
            201 => Opcode::TCmn,
            202 => Opcode::TOrr,
            203 => Opcode::TMul,
            204 => Opcode::TBic,
            205 => Opcode::TMvn,
            206 => Opcode::TAddHi,
            207 => Opcode::TCmpHi,
            208 => Opcode::TMovHi,
            209 => Opcode::TBx,
            210 => Opcode::TBlxReg,
            211 => Opcode::TLdrPc,
            212 => Opcode::TStrReg,
            213 => Opcode::TStrhReg,
            214 => Opcode::TStrbReg,
            215 => Opcode::TLdrsbReg,
            216 => Opcode::TLdrReg,
            217 => Opcode::TLdrhReg,
            218 => Opcode::TLdrbReg,
            219 => Opcode::TLdrshReg,
            220 => Opcode::TStrImm,
            221 => Opcode::TLdrImm,
            222 => Opcode::TStrbImm,
            223 => Opcode::TLdrbImm,
            224 => Opcode::TStrhImm,
            225 => Opcode::TLdrhImm,
            226 => Opcode::TStrSp,
            227 => Opcode::TLdrSp,
            228 => Opcode::TAddPc,
            229 => Opcode::TAddSp,
            230 => Opcode::TAddSpImm,
            231 => Opcode::TSubSpImm,
            232 => Opcode::TSxth,
            233 => Opcode::TSxtb,
            234 => Opcode::TUxth,
            235 => Opcode::TUxtb,
            236 => Opcode::TPush,
            237 => Opcode::TPop,
            238 => Opcode::TSetend,
            _ => Opcode::TCps,
        }
    }

    fn at_from_240(i: usize) -> (r: Opcode)
        requires
            240 <= i < 253,
        ensures
            r.index() == i as nat,
    {
        match i {
            240 => Opcode::TRev,
            241 => Opcode::TRev16,
            242 => Opcode::TRevsh,
            243 => Opcode::TBkpt,
            244 => Opcode::TStm,
            245 => Opcode::TLdm,
            246 => Opcode::TBCond,
            247 => Opcode::TSvc,
            248 => Opcode::TSwi,
            249 => Opcode::TB,
            250 => Opcode::BlH,
            251 => Opcode::TBl,
            _ => Opcode::TBlx,
        }
    }

    /// Number of opcodes, `Illegal` left out.
    pub fn count() -> (r: usize)
        ensures
            r == OPCODE_COUNT,
    {
        OPCODE_COUNT
    }
}

/// Every mnemonic has at least one character.
pub proof fn lemma_mnemonic_nonempty(op: Opcode)
    ensures
        op.spec_mnemonic().len() > 0,
{
    match op {
        Opcode::Illegal => reveal_strlit("<illegal>"),
        Opcode::And => reveal_strlit("and"),
        Opcode::Eor => reveal_strlit("eor"),
        Opcode::Sub => reveal_strlit("sub"),
        Opcode::Rsb => reveal_strlit("rsb"),
        Opcode::Add => reveal_strlit("add"),
        Opcode::Adc => reveal_strlit("adc"),
        Opcode::Sbc => reveal_strlit("sbc"),
        Opcode::Rsc => reveal_strlit("rsc"),
        Opcode::Tst => reveal_strlit("tst"),
        Opcode::Teq => reveal_strlit("teq"),
        Opcode::Cmp => reveal_strlit("cmp"),
        Opcode::Cmn => reveal_strlit("cmn"),
        Opcode::Orr => reveal_strlit("orr"),
        Opcode::Mov => reveal_strlit("mov"),
        Opcode::Bic => reveal_strlit("bic"),
        Opcode::Mvn => reveal_strlit("mvn"),
        Opcode::MovReg => reveal_strlit("mov"),
        Opcode::LslImm => reveal_strlit("lsl"),
        Opcode::LslReg => reveal_strlit("lsl"),
        Opcode::LsrImm => reveal_strlit("lsr"),
        Opcode::LsrReg => reveal_strlit("lsr"),
        Opcode::AsrImm => reveal_strlit("asr"),
        Opcode::AsrReg => reveal_strlit("asr"),
        Opcode::RorImm => reveal_strlit("ror"),
        Opcode::RorReg => reveal_strlit("ror"),
        Opcode::Rrx => reveal_strlit("rrx"),
        Opcode::Mul => reveal_strlit("mul"),
        Opcode::Mla => reveal_strlit("mla"),
        Opcode::Umaal => reveal_strlit("umaal"),
        Opcode::Umull => reveal_strlit("umull"),
        Opcode::Umlal => reveal_strlit("umlal"),
        Opcode::Smull => reveal_strlit("smull"),
        Opcode::Smlal => reveal_strlit("smlal"),
        Opcode::SmlaXy => reveal_strlit("smla"),
        Opcode::SmlawY => reveal_strlit("smlaw"),
        Opcode::SmulwY => reveal_strlit("smulw"),
        Opcode::SmlalXy => reveal_strlit("smlal"),
        Opcode::SmulXy => reveal_strlit("smul"),
        Opcode::Smlad => reveal_strlit("smlad"),
        Opcode::Smlsd => reveal_strlit("smlsd"),
        Opcode::Smuad => reveal_strlit("smuad"),
        Opcode::Smusd => reveal_strlit("smusd"),
        Opcode::Smlald => reveal_strlit("smlald"),
        Opcode::Smlsld => reveal_strlit("smlsld"),
        Opcode::Smmla => reveal_strlit("smmla"),
        Opcode::Smmls => reveal_strlit("smmls"),
        Opcode::Smmul => reveal_strlit("smmul"),
        Opcode::Usada8 => reveal_strlit("usada8"),
        Opcode::Usad8 => reveal_strlit("usad8"),
        Opcode::B => reveal_strlit("b"),
        Opcode::Bl => reveal_strlit("bl"),
        Opcode::BlxImm => reveal_strlit("blx"),
        Opcode::Bx => reveal_strlit("bx"),
        Opcode::Bxj => reveal_strlit("bxj"),
        Opcode::BlxReg => reveal_strlit("blx"),
        Opcode::Cdp => reveal_strlit("cdp"),
        Opcode::Cdp2 => reveal_strlit("cdp2"),
        Opcode::Mcr => reveal_strlit("mcr"),
        Opcode::Mrc => reveal_strlit("mrc"),
        Opcode::Mcr2 => reveal_strlit("mcr2"),
        Opcode::Mrc2 => reveal_strlit("mrc2"),
        Opcode::Mcrr => reveal_strlit("mcrr"),
        Opcode::Mrrc => reveal_strlit("mrrc"),
        Opcode::Mcrr2 => reveal_strlit("mcrr2"),
        Opcode::Mrrc2 => reveal_strlit("mrrc2"),
        Opcode::Ldc => reveal_strlit("ldc"),
        Opcode::Stc => reveal_strlit("stc"),
        Opcode::Ldc2 => reveal_strlit("ldc2"),
        Opcode::Stc2 => reveal_strlit("stc2"),
        Opcode::Ldm => reveal_strlit("ldm"),
        Opcode::Stm => reveal_strlit("stm"),
        Opcode::Pop => reveal_strlit("pop"),
        Opcode::Push => reveal_strlit("push"),
        Opcode::PopOne => reveal_strlit("pop"),
        Opcode::PushOne => reveal_strlit("push"),
        Opcode::Ldr => reveal_strlit("ldr"),
        Opcode::Ldrb => reveal_strlit("ldrb"),
        Opcode::Str => reveal_strlit("str"),
        Opcode::Strb => reveal_strlit("strb"),
        Opcode::Ldrt => reveal_strlit("ldrt"),
        Opcode::Ldrbt => reveal_strlit("ldrbt"),
        Opcode::Strt => reveal_strlit("strt"),
        Opcode::Strbt => reveal_strlit("strbt"),
        Opcode::Ldrh => reveal_strlit("ldrh"),
        Opcode::Strh => reveal_strlit("strh"),
        Opcode::Ldrsb => reveal_strlit("ldrsb"),
        Opcode::Ldrsh => reveal_strlit("ldrsh"),
        Opcode::Ldrd => reveal_strlit("ldrd"),
        Opcode::Strd => reveal_strlit("strd"),
        Opcode::Pld => reveal_strlit("pld"),
        Opcode::Swp => reveal_strlit("swp"),
        Opcode::Swpb => reveal_strlit("swpb"),
        Opcode::Ldrex => reveal_strlit("ldrex"),
        Opcode::Strex => reveal_strlit("strex"),
        Opcode::Mrs => reveal_strlit("mrs"),
        Opcode::MsrReg => reveal_strlit("msr"),
        Opcode::MsrImm => reveal_strlit("msr"),
        Opcode::Svc => reveal_strlit("svc"),
        Opcode::Swi => reveal_strlit("swi"),
        Opcode::Bkpt => reveal_strlit("bkpt"),
        Opcode::Clz => reveal_strlit("clz"),
        Opcode::Qadd => reveal_strlit("qadd"),
        Opcode::Qsub => reveal_strlit("qsub"),
        Opcode::Qdadd => reveal_strlit("qdadd"),
        Opcode::Qdsub => reveal_strlit("qdsub"),
        Opcode::Sadd16 => reveal_strlit("sadd16"),
        Opcode::Saddsubx => reveal_strlit("saddsubx"),
        Opcode::Ssubaddx => reveal_strlit("ssubaddx"),
        Opcode::Ssub16 => reveal_strlit("ssub16"),
        Opcode::Sadd8 => reveal_strlit("sadd8"),
        Opcode::Ssub8 => reveal_strlit("ssub8"),
        Opcode::Qadd16 => reveal_strlit("qadd16"),
        Opcode::Qaddsubx => reveal_strlit("qaddsubx"),
        Opcode::Qsubaddx => reveal_strlit("qsubaddx"),
        Opcode::Qsub16 => reveal_strlit("qsub16"),
        Opcode::Qadd8 => reveal_strlit("qadd8"),
        Opcode::Qsub8 => reveal_strlit("qsub8"),
        Opcode::Shadd16 => reveal_strlit("shadd16"),
        Opcode::Shaddsubx => reveal_strlit("shaddsubx"),
        Opcode::Shsubaddx => reveal_strlit("shsubaddx"),
        Opcode::Shsub16 => reveal_strlit("shsub16"),
        Opcode::Shadd8 => reveal_strlit("shadd8"),
        Opcode::Shsub8 => reveal_strlit("shsub8"),
        Opcode::Uadd16 => reveal_strlit("uadd16"),
        Opcode::Uaddsubx => reveal_strlit("uaddsubx"),
        Opcode::Usubaddx => reveal_strlit("usubaddx"),
        Opcode::Usub16 => reveal_strlit("usub16"),
        Opcode::Uadd8 => reveal_strlit("uadd8"),
        Opcode::Usub8 => reveal_strlit("usub8"),
        Opcode::Uqadd16 => reveal_strlit("uqadd16"),
        Opcode::Uqaddsubx => reveal_strlit("uqaddsubx"),
        Opcode::Uqsubaddx => reveal_strlit("uqsubaddx"),
        Opcode::Uqsub16 => reveal_strlit("uqsub16"),
        Opcode::Uqadd8 => reveal_strlit("uqadd8"),
        Opcode::Uqsub8 => reveal_strlit("uqsub8"),
        Opcode::Uhadd16 => reveal_strlit("uhadd16"),
        Opcode::Uhaddsubx => reveal_strlit("uhaddsubx"),
        Opcode::Uhsubaddx => reveal_strlit("uhsubaddx"),
        Opcode::Uhsub16 => reveal_strlit("uhsub16"),
        Opcode::Uhadd8 => reveal_strlit("uhadd8"),
        Opcode::Uhsub8 => reveal_strlit("uhsub8"),
        Opcode::Sel => reveal_strlit("sel"),
        Opcode::Rev => reveal_strlit("rev"),
        Opcode::Rev16 => reveal_strlit("rev16"),
        Opcode::Revsh => reveal_strlit("revsh"),
        Opcode::Pkhbt => reveal_strlit("pkhbt"),
        Opcode::Pkhtb => reveal_strlit("pkhtb"),
        Opcode::Ssat => reveal_strlit("ssat"),
        Opcode::Usat => reveal_strlit("usat"),
        Opcode::Ssat16 => reveal_strlit("ssat16"),
        Opcode::Usat16 => reveal_strlit("usat16"),
        Opcode::Sxtab16 => reveal_strlit("sxtab16"),
        Opcode::Sxtb16 => reveal_strlit("sxtb16"),
        Opcode::Sxtab => reveal_strlit("sxtab"),
        Opcode::Sxtb => reveal_strlit("sxtb"),
        Opcode::Sxtah => reveal_strlit("sxtah"),
        Opcode::Sxth => reveal_strlit("sxth"),
        Opcode::Uxtab16 => reveal_strlit("uxtab16"),
        Opcode::Uxtb16 => reveal_strlit("uxtb16"),
        Opcode::Uxtab => reveal_strlit("uxtab"),
        Opcode::Uxtb => reveal_strlit("uxtb"),
        Opcode::Uxtah => reveal_strlit("uxtah"),
        Opcode::Uxth => reveal_strlit("uxth"),
        Opcode::Clrex => reveal_strlit("clrex"),
        Opcode::Ldrexd => reveal_strlit("ldrexd"),
        Opcode::Ldrexb => reveal_strlit("ldrexb"),
        Opcode::Ldrexh => reveal_strlit("ldrexh"),
        Opcode::Strexd => reveal_strlit("strexd"),
        Opcode::Strexb => reveal_strlit("strexb"),
        Opcode::Strexh => reveal_strlit("strexh"),
        Opcode::Nop => reveal_strlit("nop"),
        Opcode::Yield => reveal_strlit("yield"),
        Opcode::Wfe => reveal_strlit("wfe"),
        Opcode::Wfi => reveal_strlit("wfi"),
        Opcode::Sev => reveal_strlit("sev"),
        Opcode::Cps => reveal_strlit("cps"),
        Opcode::Setend => reveal_strlit("setend"),
        Opcode::Rfe => reveal_strlit("rfe"),
        Opcode::Srs => reveal_strlit("srs"),
        Opcode::TLslImm => reveal_strlit("lsl"),
        Opcode::TLsrImm => reveal_strlit("lsr"),
        Opcode::TAsrImm => reveal_strlit("asr"),
        Opcode::TAddReg => reveal_strlit("add"),
        Opcode::TSubReg => reveal_strlit("sub"),
        Opcode::TAddImm3 => reveal_strlit("add"),
        Opcode::TSubImm3 => reveal_strlit("sub"),
        Opcode::TMovImm => reveal_strlit("mov"),
        Opcode::TCmpImm => reveal_strlit("cmp"),
        Opcode::TAddImm8 => reveal_strlit("add"),
        Opcode::TSubImm8 => reveal_strlit("sub"),
        Opcode::TAnd => reveal_strlit("and"),
        Opcode::TEor => reveal_strlit("eor"),
        Opcode::TLslReg => reveal_strlit("lsl"),
        Opcode::TLsrReg => reveal_strlit("lsr"),
        Opcode::TAsrReg => reveal_strlit("asr"),
        Opcode::TAdc => reveal_strlit("adc"),
        Opcode::TSbc => reveal_strlit("sbc"),
        Opcode::TRorReg => reveal_strlit("ror"),
        Opcode::TTst => reveal_strlit("tst"),
        Opcode::TNeg => reveal_strlit("neg"),
        Opcode::TCmpReg => reveal_strlit("cmp"),
        Opcode::TCmn => reveal_strlit("cmn"),
        Opcode::TOrr => reveal_strlit("orr"),
        Opcode::TMul => reveal_strlit("mul"),
        Opcode::TBic => reveal_strlit("bic"),
        Opcode::TMvn => reveal_strlit("mvn"),
        Opcode::TAddHi => reveal_strlit("add"),
        Opcode::TCmpHi => reveal_strlit("cmp"),
        Opcode::TMovHi => reveal_strlit("mov"),
        Opcode::TBx => reveal_strlit("bx"),
        Opcode::TBlxReg => reveal_strlit("blx"),
        Opcode::TLdrPc => reveal_strlit("ldr"),
        Opcode::TStrReg => reveal_strlit("str"),
        Opcode::TStrhReg => reveal_strlit("strh"),
        Opcode::TStrbReg => reveal_strlit("strb"),
        Opcode::TLdrsbReg => reveal_strlit("ldrsb"),
        Opcode::TLdrReg => reveal_strlit("ldr"),
        Opcode::TLdrhReg => reveal_strlit("ldrh"),
        Opcode::TLdrbReg => reveal_strlit("ldrb"),
        Opcode::TLdrshReg => reveal_strlit("ldrsh"),
        Opcode::TStrImm => reveal_strlit("str"),
        Opcode::TLdrImm => reveal_strlit("ldr"),
        Opcode::TStrbImm => reveal_strlit("strb"),
        Opcode::TLdrbImm => reveal_strlit("ldrb"),
        Opcode::TStrhImm => reveal_strlit("strh"),
        Opcode::TLdrhImm => reveal_strlit("ldrh"),
        Opcode::TStrSp => reveal_strlit("str"),
        Opcode::TLdrSp => reveal_strlit("ldr"),
        Opcode::TAddPc => reveal_strlit("add"),
        Opcode::TAddSp => reveal_strlit("add"),
        Opcode::TAddSpImm => reveal_strlit("add"),
        Opcode::TSubSpImm => reveal_strlit("sub"),
        Opcode::TSxth => reveal_strlit("sxth"),
        Opcode::TSxtb => reveal_strlit("sxtb"),
        Opcode::TUxth => reveal_strlit("uxth"),
        Opcode::TUxtb => reveal_strlit("uxtb"),
        Opcode::TPush => reveal_strlit("push"),
        Opcode::TPop => reveal_strlit("pop"),
        Opcode::TSetend => reveal_strlit("setend"),
        Opcode::TCps => reveal_strlit("cps"),
        Opcode::TRev => reveal_strlit("rev"),
        Opcode::TRev16 => reveal_strlit("rev16"),
        Opcode::TRevsh => reveal_strlit("revsh"),
        Opcode::TBkpt => reveal_strlit("bkpt"),
        Opcode::TStm => reveal_strlit("stm"),
        Opcode::TLdm => reveal_strlit("ldm"),
        Opcode::TBCond => reveal_strlit("b"),
        Opcode::TSvc => reveal_strlit("svc"),
        Opcode::TSwi => reveal_strlit("swi"),
        Opcode::TB => reveal_strlit("b"),
        Opcode::BlH => reveal_strlit("bl"),
        Opcode::TBl => reveal_strlit("bl"),
        Opcode::TBlx => reveal_strlit("blx"),
    }
}

/// Every opcode but `Illegal` has a position below `OPCODE_COUNT`, and positions tell opcodes apart.
pub proof fn lemma_index_bound(op: Opcode)
    ensures
        op.index() <= OPCODE_COUNT,
        op.index() == OPCODE_COUNT <==> op == Opcode::Illegal,
{
}

/// Positions tell opcodes apart.
pub proof fn lemma_index_injective(a: Opcode, b: Opcode)
    requires
        a.index() == b.index(),
    ensures
        a == b,
{
}

} // verus!
