//! Operand model shared by every decoder: primitive register enums, operand
//! payloads, the `Argument` union and the decoded instruction `ParsedIns`.
use vstd::prelude::*;

verus! {

/// Number of operand slots of a decoded instruction.
pub const ARGS_LEN: usize = 6;

/// General-purpose register
#[derive(Clone, Copy, PartialEq, Eq, Structural, Debug)]
pub enum Register {
    /// Out-of-range encoding
    Illegal,
    R0,
    R1,
    R2,
    R3,
    R4,
    R5,
    R6,
    R7,
    R8,
    R9,
    R10,
    /// Frame pointer
    Fp,
    /// Intra-procedure-call scratch register
    Ip,
    /// Stack pointer
    Sp,
    /// Link register
    Lr,
    /// Program counter
    Pc,
}

/// The register that the field value `v` encodes: values from 0 to 15 in order, `Illegal` above.
pub open spec fn register_of(v: u32) -> Register {
    match v {
        0 => Register::R0,
        1 => Register::R1,
        2 => Register::R2,
        3 => Register::R3,
        4 => Register::R4,
        5 => Register::R5,
        6 => Register::R6,
        7 => Register::R7,
        8 => Register::R8,
        9 => Register::R9,
        10 => Register::R10,
        11 => Register::Fp,
        12 => Register::Ip,
        13 => Register::Sp,
        14 => Register::Lr,
        15 => Register::Pc,
        _ => Register::Illegal,
    }
}

impl Register {
    /// Field value of this register; `Illegal` has the reserved value 0xff.
    pub open spec fn value(self) -> nat {
        match self {
            Register::R0 => 0,
            Register::R1 => 1,
            Register::R2 => 2,
            Register::R3 => 3,
            Register::R4 => 4,
            Register::R5 => 5,
            Register::R6 => 6,
            Register::R7 => 7,
            Register::R8 => 8,
            Register::R9 => 9,
            Register::R10 => 10,
            Register::Fp => 11,
            Register::Ip => 12,
            Register::Sp => 13,
            Register::Lr => 14,
            Register::Pc => 15,
            Register::Illegal => 0xff,
        }
    }

    /// Decodes a field value; values above 15 give `Illegal`.
    pub fn parse(value: u32) -> (r: Self)
        ensures
            r == register_of(value),
            value <= 15 ==> r.value() == value,
            value > 15 <==> r == Register::Illegal,
    {
        match value {
            0 => Register::R0,
            1 => Register::R1,
            2 => Register::R2,
            3 => Register::R3,
            4 => Register::R4,
            5 => Register::R5,
            6 => Register::R6,
            7 => Register::R7,
            8 => Register::R8,
            9 => Register::R9,
            10 => Register::R10,
            11 => Register::Fp,
            12 => Register::Ip,
            13 => Register::Sp,
            14 => Register::Lr,
            15 => Register::Pc,
            _ => Register::Illegal,
        }
    }
}

/// Program status register
#[derive(Clone, Copy, PartialEq, Eq, Structural, Debug)]
pub enum StatusReg {
    /// Out-of-range encoding
    Illegal,
    Cpsr,
    Spsr,
}

/// The statusreg that the field value `v` encodes: values from 0 to 1 in order, `Illegal` above.
pub open spec fn status_reg_of(v: u32) -> StatusReg {
    match v {
        0 => StatusReg::Cpsr,
        1 => StatusReg::Spsr,
        _ => StatusReg::Illegal,
    }
}

impl StatusReg {
    /// Field value of this statusreg; `Illegal` has the reserved value 0xff.
    pub open spec fn value(self) -> nat {
        match self {
            StatusReg::Cpsr => 0,
            StatusReg::Spsr => 1,
            StatusReg::Illegal => 0xff,
        }
    }

    /// Decodes a field value; values above 1 give `Illegal`.
    pub fn parse(value: u32) -> (r: Self)
        ensures
            r == status_reg_of(value),
            value <= 1 ==> r.value() == value,
            value > 1 <==> r == StatusReg::Illegal,
    {
        match value {
            0 => StatusReg::Cpsr,
            1 => StatusReg::Spsr,
            _ => StatusReg::Illegal,
        }
    }
}

/// Shift operation
#[derive(Clone, Copy, PartialEq, Eq, Structural, Debug)]
pub enum Shift {
    /// Out-of-range encoding
    Illegal,
    /// Logical shift left
    Lsl,
    /// Logical shift right
    Lsr,
    /// Arithmetic shift right
    Asr,
    /// Rotate right
    Ror,
    /// Rotate right and extend
    Rrx,
}

/// The shift that the field value `v` encodes: values from 0 to 4 in order, `Illegal` above.
pub open spec fn shift_of(v: u32) -> Shift {
    match v {
        0 => Shift::Lsl,
        1 => Shift::Lsr,
        2 => Shift::Asr,
        3 => Shift::Ror,
        4 => Shift::Rrx,
        _ => Shift::Illegal,
    }
}

impl Shift {
    /// Field value of this shift; `Illegal` has the reserved value 0xff.
    pub open spec fn value(self) -> nat {
        match self {
            Shift::Lsl => 0,
            Shift::Lsr => 1,
            Shift::Asr => 2,
            Shift::Ror => 3,
            Shift::Rrx => 4,
            Shift::Illegal => 0xff,
        }
    }

    /// Decodes a field value; values above 4 give `Illegal`.
    pub fn parse(value: u32) -> (r: Self)
        ensures
            r == shift_of(value),
            value <= 4 ==> r.value() == value,
            value > 4 <==> r == Shift::Illegal,
    {
        match value {
            0 => Shift::Lsl,
            1 => Shift::Lsr,
            2 => Shift::Asr,
            3 => Shift::Ror,
            4 => Shift::Rrx,
            _ => Shift::Illegal,
        }
    }
}

/// Coprocessor register
#[derive(Clone, Copy, PartialEq, Eq, Structural, Debug)]
pub enum CoReg {
    /// Out-of-range encoding
    Illegal,
    C0,
    C1,
    C2,
    C3,
    C4,
    C5,
    C6,
    C7,
    C8,
    C9,
    C10,
    C11,
    C12,
    C13,
    C14,
    C15,
}

/// The coreg that the field value `v` encodes: values from 0 to 15 in order, `Illegal` above.
pub open spec fn co_reg_of(v: u32) -> CoReg {
    match v {
        0 => CoReg::C0,
        1 => CoReg::C1,
        2 => CoReg::C2,
        3 => CoReg::C3,
        4 => CoReg::C4,
        5 => CoReg::C5,
        6 => CoReg::C6,
        7 => CoReg::C7,
        8 => CoReg::C8,
        9 => CoReg::C9,
        10 => CoReg::C10,
        11 => CoReg::C11,
        12 => CoReg::C12,
        13 => CoReg::C13,
        14 => CoReg::C14,
        15 => CoReg::C15,
        _ => CoReg::Illegal,
    }
}

impl CoReg {
    /// Field value of this coreg; `Illegal` has the reserved value 0xff.
    pub open spec fn value(self) -> nat {
        match self {
            CoReg::C0 => 0,
            CoReg::C1 => 1,
            CoReg::C2 => 2,
            CoReg::C3 => 3,
            CoReg::C4 => 4,
            CoReg::C5 => 5,
            CoReg::C6 => 6,
            CoReg::C7 => 7,
            CoReg::C8 => 8,
            CoReg::C9 => 9,
            CoReg::C10 => 10,
            CoReg::C11 => 11,
            CoReg::C12 => 12,
            CoReg::C13 => 13,
            CoReg::C14 => 14,
            CoReg::C15 => 15,
            CoReg::Illegal => 0xff,
        }
    }

    /// Decodes a field value; values above 15 give `Illegal`.
    pub fn parse(value: u32) -> (r: Self)
        ensures
            r == co_reg_of(value),
            value <= 15 ==> r.value() == value,
            value > 15 <==> r == CoReg::Illegal,
    {
        match value {
            0 => CoReg::C0,
            1 => CoReg::C1,
            2 => CoReg::C2,
            3 => CoReg::C3,
            4 => CoReg::C4,
            5 => CoReg::C5,
            6 => CoReg::C6,
            7 => CoReg::C7,
            8 => CoReg::C8,
            9 => CoReg::C9,
            10 => CoReg::C10,
            11 => CoReg::C11,
            12 => CoReg::C12,
            13 => CoReg::C13,
            14 => CoReg::C14,
            15 => CoReg::C15,
            _ => CoReg::Illegal,
        }
    }
}

/// Data endianness
#[derive(Clone, Copy, PartialEq, Eq, Structural, Debug)]
pub enum Endian {
    /// Out-of-range encoding
    Illegal,
    /// Little-endian
    Le,
    /// Big-endian
    Be,
}

/// The endian that the field value `v` encodes: values from 0 to 1 in order, `Illegal` above.
pub open spec fn endian_of(v: u32) -> Endian {
    match v {
        0 => Endian::Le,
        1 => Endian::Be,
        _ => Endian::Illegal,
    }
}

impl Endian {
    /// Field value of this endian; `Illegal` has the reserved value 0xff.
    pub open spec fn value(self) -> nat {
        match self {
            Endian::Le => 0,
            Endian::Be => 1,
            Endian::Illegal => 0xff,
        }
    }

    /// Decodes a field value; values above 1 give `Illegal`.
    pub fn parse(value: u32) -> (r: Self)
        ensures
            r == endian_of(value),
            value <= 1 ==> r.value() == value,
            value > 1 <==> r == Endian::Illegal,
    {
        match value {
            0 => Endian::Le,
            1 => Endian::Be,
            _ => Endian::Illegal,
        }
    }
}

/// General-purpose register operand
#[derive(Clone, Copy, PartialEq, Eq, Structural, Debug)]
pub struct Reg {
    /// Use as base register
    pub deref: bool,
    /// Register
    pub reg: Register,
    /// When used as a base register, update this register's value
    pub writeback: bool,
}

/// List of general-purpose registers
#[derive(Clone, Copy, PartialEq, Eq, Structural, Debug)]
pub struct RegList {
    /// Bitfield of registers, bit `i` standing for register `i`
    pub regs: u32,
    /// Access user-mode registers from elevated mode
    pub user_mode: bool,
}

/// Status register with a field mask
#[derive(Clone, Copy, PartialEq, Eq, Structural, Debug)]
pub struct StatusMask {
    /// Control field mask (c)
    pub control: bool,
    /// Extension field mask (x)
    pub extension: bool,
    /// Flags field mask (f)
    pub flags: bool,
    /// Status register
    pub reg: StatusReg,
    /// Status field mask (s)
    pub status: bool,
}

/// Shift by an immediate amount
#[derive(Clone, Copy, PartialEq, Eq, Structural, Debug)]
pub struct ShiftImm {
    /// Shift amount
    pub imm: u32,
    /// Shift operation
    pub op: Shift,
}

/// Shift by the amount held in a register
#[derive(Clone, Copy, PartialEq, Eq, Structural, Debug)]
pub struct ShiftReg {
    /// Shift operation
    pub op: Shift,
    /// Register holding the shift amount
    pub reg: Register,
}

/// Signed immediate offset from a base register
#[derive(Clone, Copy, PartialEq, Eq, Structural, Debug)]
pub struct OffsetImm {
    /// If true, add the offset to the base register and write back after dereferencing it
    pub post_indexed: bool,
    /// Offset value
    pub value: i32,
}

/// Register offset from a base register
#[derive(Clone, Copy, PartialEq, Eq, Structural, Debug)]
pub struct OffsetReg {
    /// If true, add the offset to the base register, otherwise subtract
    pub add: bool,
    /// If true, add the offset to the base register and write back after dereferencing it
    pub post_indexed: bool,
    /// Offset register
    pub reg: Register,
}

/// Processor mode operand of CPS and SRS
#[derive(Clone, Copy, PartialEq, Eq, Structural, Debug)]
pub struct CpsrMode {
    /// Mode number
    pub mode: u32,
    /// Update the base register
    pub writeback: bool,
}

/// Interrupt flags operand of CPS
#[derive(Clone, Copy, PartialEq, Eq, Structural, Debug)]
pub struct CpsrFlags {
    /// Imprecise data abort
    pub a: bool,
    /// IRQ interrupt
    pub i: bool,
    /// FIQ interrupt
    pub f: bool,
}

/// One operand of a decoded instruction
#[derive(Clone, Copy, PartialEq, Eq, Structural, Debug)]
pub enum Argument {
    /// Empty slot
    Empty,
    /// General-purpose register
    Reg(Reg),
    /// List of general-purpose registers
    RegList(RegList),
    /// Coprocessor register
    CoReg(CoReg),
    /// Status register
    StatusReg(StatusReg),
    /// Status register mask
    StatusMask(StatusMask),
    /// Shift operation
    Shift(Shift),
    /// Immediate shift offset
    ShiftImm(ShiftImm),
    /// Register shift offset
    ShiftReg(ShiftReg),
    /// Unsigned immediate
    UImm(u32),
    /// Signed immediate
    SImm(i32),
    /// Signed immediate offset
    OffsetImm(OffsetImm),
    /// Register offset
    OffsetReg(OffsetReg),
    /// Branch destination offset
    BranchDest(i32),
    /// Additional instruction options for a coprocessor
    CoOption(u32),
    /// Coprocessor operation to perform
    CoOpcode(u32),
    /// Coprocessor number
    CoprocNum(u32),
    /// Saturation bit position
    SatImm(u32),
    /// Processor mode
    CpsrMode(CpsrMode),
    /// Interrupt flags
    CpsrFlags(CpsrFlags),
    /// Data endianness
    Endian(Endian),
}

/// A decoded instruction: mnemonic and operands in textual order.
#[derive(Clone, Debug)]
pub struct ParsedIns {
    /// Mnemonic with all suffixes
    pub mnemonic: String,
    /// Operands; unused slots hold `Argument::Empty`
    pub args: [Argument; ARGS_LEN],
}

/// Operands fill a prefix of the slots: after the first empty slot all slots are empty.
pub open spec fn args_packed(args: Seq<Argument>) -> bool {
    forall|i: int, j: int|
        0 <= i < j < args.len() && args[i] == Argument::Empty ==> args[j] == Argument::Empty
}

impl ParsedIns {
    /// Holds its operands packed at the front.
    pub open spec fn wf(&self) -> bool {
        &&& self.args@.len() == ARGS_LEN
        &&& args_packed(self.args@)
    }

    /// The result for an encoding that does not decode.
    pub open spec fn is_illegal(&self) -> bool {
        &&& self.mnemonic@ == "<illegal>"@
        &&& self.args@ == Seq::new(ARGS_LEN as nat, |i: int| Argument::Empty)
    }

    /// The decoded form of an encoding that does not decode.
    pub fn illegal() -> (r: ParsedIns)
        ensures
            r.is_illegal(),
            r.wf(),
    {
        let args = [Argument::Empty; ARGS_LEN];
        assert(args@ =~= Seq::new(ARGS_LEN as nat, |i: int| Argument::Empty));
        ParsedIns { mnemonic: String::from_str("<illegal>"), args }
    }
}

} // verus!
