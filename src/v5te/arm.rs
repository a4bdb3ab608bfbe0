//! ARMv5TE ARM instruction decoder.
use vstd::prelude::*;

use crate::args::ParsedIns;
use crate::decode::{find, is_found, is_parsed, parse, ParseFlags};
use crate::isa::{Arch, Isa, Opcode};

verus! {

/// An ARMv5TE ARM instruction word and its opcode.
#[derive(Clone, Copy, Debug)]
pub struct Ins {
    /// Instruction word
    pub code: u32,
    /// Opcode that the word decodes to
    pub op: Opcode,
    /// Syntax of the mnemonics
    pub flags: ParseFlags,
}

impl Ins {
    /// Classifies `code`, with mnemonics in the unified assembler language.
    pub fn new(code: u32) -> (r: Ins)
        ensures
            r.code == code,
            r.flags == (ParseFlags { ual: true }),
            is_found(r.op, code, Arch::V5TE, Isa::Arm, true),
    {
        Ins::with_flags(code, ParseFlags { ual: true })
    }

    /// Classifies `code` for the syntax that `flags` selects.
    pub fn with_flags(code: u32, flags: ParseFlags) -> (r: Ins)
        ensures
            r.code == code,
            r.flags == flags,
            is_found(r.op, code, Arch::V5TE, Isa::Arm, flags.ual),
    {
        Ins { code, op: find(code, Arch::V5TE, Isa::Arm, flags.ual), flags }
    }

    /// Mnemonic and operands of this instruction.
    pub fn parse(self) -> (r: ParsedIns)
        ensures
            r.wf(),
            is_parsed(r, self.op, self.code, self.flags.ual),
    {
        parse(self.op, self.code, self.flags.ual)
    }
}

} // verus!
