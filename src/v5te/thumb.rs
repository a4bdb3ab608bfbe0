//! ARMv5TE Thumb instruction decoder.
use vstd::prelude::*;

use crate::args::ParsedIns;
use crate::decode::{find, is_found, is_parsed, parse, ParseFlags};
use crate::isa::{Arch, Isa, Opcode};

verus! {

/// An ARMv5TE Thumb instruction and its opcode. A halfword is given in bits 0..16; the two
/// halves of a long branch are given together, the first one in bits 16..32.
#[derive(Clone, Copy, Debug)]
pub struct Ins {
    /// Instruction halfword, or both halves of a long branch
    pub code: u32,
    /// Opcode that the code decodes to
    pub op: Opcode,
    /// Syntax of the mnemonics
    pub flags: ParseFlags,
}

impl Ins {
    /// Classifies `code`, with mnemonics in the unified assembler language.
    pub fn new(code: u32) -> (r: Ins)
        ensures
            r.code == code,
            r.flags == (ParseFlags { ual: true }),
            is_found(r.op, code, Arch::V5TE, Isa::Thumb, true),
    {
        Ins::with_flags(code, ParseFlags { ual: true })
    }

    /// Classifies `code` for the syntax that `flags` selects.
    pub fn with_flags(code: u32, flags: ParseFlags) -> (r: Ins)
        ensures
            r.code == code,
            r.flags == flags,
            is_found(r.op, code, Arch::V5TE, Isa::Thumb, flags.ual),
    {
        Ins { code, op: find(code, Arch::V5TE, Isa::Thumb, flags.ual), flags }
    }

    /// Whether this is the first half of a long branch, to be combined with the next halfword.
    pub fn is_half_bl(&self) -> (r: bool)
        ensures
            r == (self.op == Opcode::BlH),
    {
        self.op == Opcode::BlH
    }

    /// Mnemonic and operands of this instruction.
    pub fn parse(self) -> (r: ParsedIns)
        ensures
            r.wf(),
            is_parsed(r, self.op, self.code, self.flags.ual),
    {
        parse(self.op, self.code, self.flags.ual)
    }
}

} // verus!
