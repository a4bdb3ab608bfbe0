//! Disassembler for 32-bit ARM and 16-bit Thumb instructions of the ARMv4T, ARMv5TE, ARMv6
//! and ARMv6K architectures.
//!
//! - `args`: the operand model and the decoded form `ParsedIns`.
//! - `isa`: the instruction catalogue: operand fields, modifiers, operand forms and the
//!   opcode table with each opcode's mask and pattern.
//! - `decode`: classification of a word by the catalogue (`find`) and assembly of its
//!   `ParsedIns` (`parse`), with the laws they obey.
//! - `display`: assembler text of a `ParsedIns`.
//! - `v4t`, `v5te`, `v6`, `v6k`: an `Ins` type per architecture and instruction set.
//! - `bits`: population count and bounds of masked fields.

pub mod args;
pub mod bits;
pub mod decode;
pub mod display;
pub mod isa;
pub mod v4t;
pub mod v5te;
pub mod v6;
pub mod v6k;
