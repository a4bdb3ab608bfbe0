//! Text formatter: renders a `ParsedIns` in assembler syntax.
use vstd::prelude::*;

use crate::args::{
    args_packed, register_of, Argument, ARGS_LEN, CoReg, CpsrFlags, CpsrMode, Endian, OffsetImm, OffsetReg, ParsedIns, Reg,
    RegList, Register, Shift, ShiftImm, ShiftReg, StatusMask, StatusReg,
};

verus! {

/// How R9 should be displayed
#[derive(Clone, Copy, PartialEq, Eq, Structural, Debug, Default)]
pub enum R9Use {
    /// R9 or V6.
    #[default]
    GeneralPurpose,
    /// Position-independent data: R9 displays as SB (static base).
    Pid,
    /// Thread-local storage: R9 displays as TR (TLS register).
    Tls,
}

/// Customizes the display of register names.
#[derive(Clone, Copy, PartialEq, Eq, Structural, Debug, Default)]
pub struct RegNames {
    /// If true, R0-R3 and R4-R11 display as A1-A4 and V1-V8.
    pub av_registers: bool,
    /// How R9 should be displayed.
    pub r9_use: R9Use,
    /// If true, R10 displays as SL (stack limit).
    pub explicit_stack_limit: bool,
    /// If true, R11 displays as FP (frame pointer).
    pub frame_pointer: bool,
    /// If true, R12 displays as IP (intra-procedure-call scratch register).
    pub ip: bool,
}

/// Options of the text formatter.
#[derive(Clone, Copy, PartialEq, Eq, Structural, Debug, Default)]
pub struct DisplayOptions {
    /// Register naming policy
    pub reg_names: RegNames,
}

/// `s` where `b` holds, else nothing.
pub open spec fn opt(b: bool, s: Seq<char>) -> Seq<char> {
    if b {
        s
    } else {
        Seq::empty()
    }
}

/// Lower-case hexadecimal digit of `d` (below 16).
pub open spec fn hex_digit(d: nat) -> Seq<char> {
    if d == 0 { "0"@ } else if d == 1 { "1"@ } else if d == 2 { "2"@ } else if d == 3 { "3"@ } else if d == 4 { "4"@ } else if d == 5 { "5"@ } else if d == 6 { "6"@ } else if d == 7 { "7"@ } else if d == 8 { "8"@ } else if d == 9 { "9"@ } else if d == 10 { "a"@ } else if d == 11 { "b"@ } else if d == 12 { "c"@ } else if d == 13 { "d"@ } else if d == 14 { "e"@ } else { "f"@ }
}

/// Hexadecimal digits of `n`, most significant first, without leading zeros.
pub open spec fn hex(n: nat) -> Seq<char>
    decreases n,
{
    if n < 16 {
        hex_digit(n)
    } else {
        hex(n / 16) + hex_digit(n % 16)
    }
}

/// Decimal digits of `n`, most significant first, without leading zeros.
pub open spec fn dec(n: nat) -> Seq<char>
    decreases n,
{
    if n < 10 {
        hex_digit(n)
    } else {
        dec(n / 10) + hex_digit(n % 10)
    }
}

/// Magnitude of a signed value.
pub open spec fn magnitude(x: i32) -> nat {
    if x < 0 {
        (-x) as nat
    } else {
        x as nat
    }
}

/// `#0x..` for a non-negative value, `#-0x..` for a negative one.
pub open spec fn signed_hex(x: i32) -> Seq<char> {
    "#"@ + opt(x < 0, "-"@) + "0x"@ + hex(magnitude(x))
}

/// Name of a register under a naming policy.
pub open spec fn reg_text(r: Register, names: RegNames) -> Seq<char> {
        match r {
            Register::Illegal => "<illegal>"@,
            Register::R0 => if names.av_registers { "a1"@ } else { "r0"@ },
            Register::R1 => if names.av_registers { "a2"@ } else { "r1"@ },
            Register::R2 => if names.av_registers { "a3"@ } else { "r2"@ },
            Register::R3 => if names.av_registers { "a4"@ } else { "r3"@ },
            Register::R4 => if names.av_registers { "v1"@ } else { "r4"@ },
            Register::R5 => if names.av_registers { "v2"@ } else { "r5"@ },
            Register::R6 => if names.av_registers { "v3"@ } else { "r6"@ },
            Register::R7 => if names.av_registers { "v4"@ } else { "r7"@ },
            Register::R8 => if names.av_registers { "v5"@ } else { "r8"@ },
            Register::R9 => match names.r9_use { R9Use::GeneralPurpose => if names.av_registers { "v6"@ } else { "r9"@ }, R9Use::Pid => "sb"@, R9Use::Tls => "tr"@ },
            Register::R10 => if names.explicit_stack_limit { "sl"@ } else if names.av_registers { "v7"@ } else { "r10"@ },
            Register::Fp => if names.frame_pointer { "fp"@ } else if names.av_registers { "v8"@ } else { "r11"@ },
            Register::Ip => if names.ip { "ip"@ } else { "r12"@ },
            Register::Sp => "sp"@,
            Register::Lr => "lr"@,
            Register::Pc => "pc"@,
        }
}

/// Name of a coprocessor register.
pub open spec fn co_reg_text(x: CoReg) -> Seq<char> {
        match x {
            CoReg::Illegal => "<illegal>"@,
            CoReg::C0 => "c0"@,
            CoReg::C1 => "c1"@,
            CoReg::C2 => "c2"@,
            CoReg::C3 => "c3"@,
            CoReg::C4 => "c4"@,
            CoReg::C5 => "c5"@,
            CoReg::C6 => "c6"@,
            CoReg::C7 => "c7"@,
            CoReg::C8 => "c8"@,
            CoReg::C9 => "c9"@,
            CoReg::C10 => "c10"@,
            CoReg::C11 => "c11"@,
            CoReg::C12 => "c12"@,
            CoReg::C13 => "c13"@,
            CoReg::C14 => "c14"@,
            CoReg::C15 => "c15"@,
        }
}

/// Name of a shift operation.
pub open spec fn shift_text(x: Shift) -> Seq<char> {
        match x {
            Shift::Illegal => "<illegal>"@,
            Shift::Lsl => "lsl"@,
            Shift::Lsr => "lsr"@,
            Shift::Asr => "asr"@,
            Shift::Ror => "ror"@,
            Shift::Rrx => "rrx"@,
        }
}

/// Name of a status register.
pub open spec fn status_reg_text(x: StatusReg) -> Seq<char> {
        match x {
            StatusReg::Illegal => "<illegal>"@,
            StatusReg::Cpsr => "cpsr"@,
            StatusReg::Spsr => "spsr"@,
        }
}

/// Name of an endianness.
pub open spec fn endian_text(x: Endian) -> Seq<char> {
        match x {
            Endian::Illegal => "<illegal>"@,
            Endian::Le => "le"@,
            Endian::Be => "be"@,
        }
}

/// Status register followed by `_` and the selected fields in the order f, s, x, c.
pub open spec fn status_mask_text(m: StatusMask) -> Seq<char> {
    status_reg_text(m.reg) + opt(m.flags || m.status || m.extension || m.control, "_"@) + opt(
        m.flags,
        "f"@,
    ) + opt(m.status, "s"@) + opt(m.extension, "x"@) + opt(m.control, "c"@)
}

/// Selected interrupt flags in the order a, i, f, or `none`.
pub open spec fn cpsr_flags_text(x: CpsrFlags) -> Seq<char> {
    opt(x.a, "a"@) + opt(x.i, "i"@) + opt(x.f, "f"@) + opt(!x.a && !x.i && !x.f, "none"@)
}

/// Whether register `i` is in the bitfield `regs`.
pub open spec fn in_list(regs: u32, i: u32) -> bool {
    regs & (1u32 << i) != 0
}

/// Registers `i..16` of a register list, comma separated; `first` when none was written yet.
pub open spec fn list_text(regs: u32, i: u32, first: bool, names: RegNames) -> Seq<char>
    decreases 16 - i,
{
    if i >= 16 {
        Seq::empty()
    } else if in_list(regs, i) {
        opt(!first, ", "@) + reg_text(register_of(i), names) + list_text(regs, (i + 1) as u32, false, names)
    } else {
        list_text(regs, (i + 1) as u32, first, names)
    }
}

/// A register operand: its name, then `!` when it writes back.
pub open spec fn reg_arg_text(r: Reg, names: RegNames) -> Seq<char> {
    reg_text(r.reg, names) + opt(r.writeback, "!"@)
}

/// A register list: `{r0, r2}`, then `^` for user-mode registers.
pub open spec fn reg_list_text(l: RegList, names: RegNames) -> Seq<char> {
    "{"@ + list_text(l.regs, 0, true, names) + "}"@ + opt(l.user_mode, "^"@)
}

/// `<op> #0x<amount>`
pub open spec fn shift_imm_text(x: ShiftImm) -> Seq<char> {
    shift_text(x.op) + " #0x"@ + hex(x.imm as nat)
}

/// `<op> <reg>`
pub open spec fn shift_reg_text(x: ShiftReg, names: RegNames) -> Seq<char> {
    shift_text(x.op) + " "@ + reg_text(x.reg, names)
}

/// `#0x<value>`
pub open spec fn imm_text(x: u32) -> Seq<char> {
    "#0x"@ + hex(x as nat)
}

/// The register, after `-` when the offset is subtracted.
pub open spec fn offset_reg_text(x: OffsetReg, names: RegNames) -> Seq<char> {
    opt(!x.add, "-"@) + reg_text(x.reg, names)
}

/// `{0x<value>}`
pub open spec fn co_option_text(x: u32) -> Seq<char> {
    "{0x"@ + hex(x as nat) + "}"@
}

/// `#<decimal value>`
pub open spec fn co_opcode_text(x: u32) -> Seq<char> {
    "#"@ + dec(x as nat)
}

/// `p<decimal number>`
pub open spec fn coproc_text(x: u32) -> Seq<char> {
    "p"@ + dec(x as nat)
}

/// `#0x<mode>`, then `!` when it writes back.
pub open spec fn cpsr_mode_text(x: CpsrMode) -> Seq<char> {
    "#0x"@ + hex(x.mode as nat) + opt(x.writeback, "!"@)
}

/// Text of one operand, a base register written without its bracket.
#[verifier::opaque]
pub open spec fn arg_text(a: Argument, options: DisplayOptions) -> Seq<char> {
    let names = options.reg_names;
    match a {
        Argument::Empty => Seq::empty(),
        Argument::Reg(r) => reg_arg_text(r, names),
        Argument::RegList(l) => reg_list_text(l, names),
        Argument::CoReg(x) => co_reg_text(x),
        Argument::StatusReg(x) => status_reg_text(x),
        Argument::StatusMask(x) => status_mask_text(x),
        Argument::Shift(x) => shift_text(x),
        Argument::ShiftImm(x) => shift_imm_text(x),
        Argument::ShiftReg(x) => shift_reg_text(x, names),
        Argument::UImm(x) => imm_text(x),
        Argument::SImm(x) => signed_hex(x),
        Argument::OffsetImm(x) => signed_hex(x.value),
        Argument::OffsetReg(x) => offset_reg_text(x, names),
        Argument::BranchDest(x) => signed_hex(x),
        Argument::CoOption(x) => co_option_text(x),
        Argument::CoOpcode(x) => co_opcode_text(x),
        Argument::CoprocNum(x) => coproc_text(x),
        Argument::SatImm(x) => imm_text(x),
        Argument::CpsrMode(x) => cpsr_mode_text(x),
        Argument::CpsrFlags(x) => cpsr_flags_text(x),
        Argument::Endian(x) => endian_text(x),
    }
}

/// Operands that close a pending `[`: post-indexed offsets and coprocessor options.
pub open spec fn closes_bracket(a: Argument) -> bool {
    match a {
        Argument::OffsetImm(x) => x.post_indexed,
        Argument::OffsetReg(x) => x.post_indexed,
        Argument::CoOption(_) => true,
        _ => false,
    }
}

/// `]`, then `!` when the base register writes back.
pub open spec fn close_text(writeback: bool) -> Seq<char> {
    "]"@ + opt(writeback, "!"@)
}

/// Whether `a` is a base register, written as `[reg`.
pub open spec fn is_base(a: Argument) -> bool {
    match a {
        Argument::Reg(r) => r.deref,
        _ => false,
    }
}

/// Text of operands `i..` up to the first empty slot; `open` when a `[` is pending,
/// `writeback` when its register writes back.
pub open spec fn args_text(
    args: Seq<Argument>,
    i: nat,
    open: bool,
    writeback: bool,
    options: DisplayOptions,
) -> Seq<char>
    decreases args.len() - i,
{
    if i >= args.len() || args[i as int] == Argument::Empty {
        opt(open, close_text(writeback))
    } else {
        let a = args[i as int];
        let close_now = open && closes_bracket(a);
        let head = opt(close_now, close_text(writeback)) + opt(i > 0, ", "@);
        match a {
            Argument::Reg(r) if r.deref => head + "["@ + reg_text(r.reg, options.reg_names)
                + args_text(args, i + 1, true, r.writeback, options),
            _ => head + arg_text(a, options) + args_text(
                args,
                i + 1,
                open && !close_now,
                writeback && !close_now,
                options,
            ),
        }
    }
}

/// Text of a decoded instruction: the mnemonic, a space when there is an operand, the operands.
pub open spec fn ins_text(mnemonic: Seq<char>, args: Seq<Argument>, options: DisplayOptions) -> Seq<
    char,
> {
    mnemonic + opt(args.len() > 0 && args[0] != Argument::Empty, " "@) + args_text(
        args,
        0,
        false,
        false,
        options,
    )
}

fn digit_str(d: u32) -> (r: &'static str)
    requires
        d < 16,
    ensures
        r@ == hex_digit(d as nat),
{
        match d {
            0 => "0",
            1 => "1",
            2 => "2",
            3 => "3",
            4 => "4",
            5 => "5",
            6 => "6",
            7 => "7",
            8 => "8",
            9 => "9",
            10 => "a",
            11 => "b",
            12 => "c",
            13 => "d",
            14 => "e",
            _ => "f",
        }
}

fn write_hex(out: &mut String, n: u32)
    ensures
        final(out)@ == old(out)@ + hex(n as nat),
    decreases n,
{
    let ghost start = out@;
    if n >= 16 {
        write_hex(out, n / 16);
    }
    out.append(digit_str(n % 16));
    assert(out@ =~= start + hex(n as nat));
}

fn write_dec(out: &mut String, n: u32)
    ensures
        final(out)@ == old(out)@ + dec(n as nat),
    decreases n,
{
    let ghost start = out@;
    if n >= 10 {
        write_dec(out, n / 10);
    }
    out.append(digit_str(n % 10));
    assert(out@ =~= start + dec(n as nat));
}

fn write_signed_hex(out: &mut String, x: i32)
    ensures
        final(out)@ == old(out)@ + signed_hex(x),
{
    let ghost start = out@;
    out.append("#");
    if x < 0 {
        out.append("-");
    }
    out.append("0x");
    let m: u32 = if x < 0 {
        (-(x as i64)) as u32
    } else {
        x as u32
    };
    write_hex(out, m);
    assert(out@ =~= start + signed_hex(x));
}

fn reg_name(r: Register, names: RegNames) -> (s: &'static str)
    ensures
        s@ == reg_text(r, names),
{
        match r {
            Register::Illegal => "<illegal>",
            Register::R0 => if names.av_registers { "a1" } else { "r0" },
            Register::R1 => if names.av_registers { "a2" } else { "r1" },
            Register::R2 => if names.av_registers { "a3" } else { "r2" },
            Register::R3 => if names.av_registers { "a4" } else { "r3" },
            Register::R4 => if names.av_registers { "v1" } else { "r4" },
            Register::R5 => if names.av_registers { "v2" } else { "r5" },
            Register::R6 => if names.av_registers { "v3" } else { "r6" },
            Register::R7 => if names.av_registers { "v4" } else { "r7" },
            Register::R8 => if names.av_registers { "v5" } else { "r8" },
            Register::R9 => match names.r9_use { R9Use::GeneralPurpose => if names.av_registers { "v6" } else { "r9" }, R9Use::Pid => "sb", R9Use::Tls => "tr" },
            Register::R10 => if names.explicit_stack_limit { "sl" } else if names.av_registers { "v7" } else { "r10" },
            Register::Fp => if names.frame_pointer { "fp" } else if names.av_registers { "v8" } else { "r11" },
            Register::Ip => if names.ip { "ip" } else { "r12" },
            Register::Sp => "sp",
            Register::Lr => "lr",
            Register::Pc => "pc",
        }
}

fn co_reg_name(x: CoReg) -> (s: &'static str)
    ensures
        s@ == co_reg_text(x),
{
        match x {
            CoReg::Illegal => "<illegal>",
            CoReg::C0 => "c0",
            CoReg::C1 => "c1",
            CoReg::C2 => "c2",
            CoReg::C3 => "c3",
            CoReg::C4 => "c4",
            CoReg::C5 => "c5",
            CoReg::C6 => "c6",
            CoReg::C7 => "c7",
            CoReg::C8 => "c8",
            CoReg::C9 => "c9",
            CoReg::C10 => "c10",
            CoReg::C11 => "c11",
            CoReg::C12 => "c12",
            CoReg::C13 => "c13",
            CoReg::C14 => "c14",
            CoReg::C15 => "c15",
        }
}

fn shift_name(x: Shift) -> (s: &'static str)
    ensures
        s@ == shift_text(x),
{
        match x {
            Shift::Illegal => "<illegal>",
            Shift::Lsl => "lsl",
            Shift::Lsr => "lsr",
            Shift::Asr => "asr",
            Shift::Ror => "ror",
            Shift::Rrx => "rrx",
        }
}

fn status_reg_name(x: StatusReg) -> (s: &'static str)
    ensures
        s@ == status_reg_text(x),
{
        match x {
            StatusReg::Illegal => "<illegal>",
            StatusReg::Cpsr => "cpsr",
            StatusReg::Spsr => "spsr",
        }
}

fn endian_name(x: Endian) -> (s: &'static str)
    ensures
        s@ == endian_text(x),
{
        match x {
            Endian::Illegal => "<illegal>",
            Endian::Le => "le",
            Endian::Be => "be",
        }
}

fn write_opt(out: &mut String, b: bool, s: &str)
    ensures
        final(out)@ == old(out)@ + opt(b, s@),
{
    if b {
        out.append(s);
    } else {
        assert(out@ =~= out@ + opt(b, s@));
    }
}

fn write_reg_list(out: &mut String, list: RegList, names: RegNames)
    ensures
        final(out)@ == old(out)@ + list_text(list.regs, 0, true, names),
{
    let ghost start = out@;
    let mut i: u32 = 0;
    let mut first = true;
    while i < 16
        invariant
            i <= 16,
            out@ + list_text(list.regs, i, first, names) == start + list_text(list.regs, 0, true, names),
        decreases 16 - i,
    {
        let ghost before = out@;
        let ghost was_first = first;
        if list.regs & (1u32 << i) != 0 {
            write_opt(out, !first, ", ");
            out.append(reg_name(Register::parse(i), names));
            first = false;
        }
        assert(out@ + list_text(list.regs, (i + 1) as u32, first, names) =~= before + list_text(list.regs, i, was_first, names));
        i += 1;
    }
    assert(out@ =~= start + list_text(list.regs, 0, true, names));
}

fn write_reg_arg(out: &mut String, r: Reg, names: RegNames)
    ensures
        final(out)@ == old(out)@ + reg_arg_text(r, names),
{
    let ghost start = out@;
    out.append(reg_name(r.reg, names));
    write_opt(out, r.writeback, "!");
    assert(out@ =~= start + reg_arg_text(r, names));
}

fn write_list_arg(out: &mut String, l: RegList, names: RegNames)
    ensures
        final(out)@ == old(out)@ + reg_list_text(l, names),
{
    let ghost start = out@;
    out.append("{");
    write_reg_list(out, l, names);
    out.append("}");
    write_opt(out, l.user_mode, "^");
    assert(out@ =~= start + reg_list_text(l, names));
}

fn write_status_mask(out: &mut String, x: StatusMask)
    ensures
        final(out)@ == old(out)@ + status_mask_text(x),
{
    let ghost start = out@;
    out.append(status_reg_name(x.reg));
    write_opt(out, x.flags || x.status || x.extension || x.control, "_");
    write_opt(out, x.flags, "f");
    write_opt(out, x.status, "s");
    write_opt(out, x.extension, "x");
    write_opt(out, x.control, "c");
    assert(out@ =~= start + status_mask_text(x));
}

fn write_shift_imm(out: &mut String, x: ShiftImm)
    ensures
        final(out)@ == old(out)@ + shift_imm_text(x),
{
    let ghost start = out@;
    out.append(shift_name(x.op));
    out.append(" #0x");
    write_hex(out, x.imm);
    assert(out@ =~= start + shift_imm_text(x));
}

fn write_shift_reg(out: &mut String, x: ShiftReg, names: RegNames)
    ensures
        final(out)@ == old(out)@ + shift_reg_text(x, names),
{
    let ghost start = out@;
    out.append(shift_name(x.op));
    out.append(" ");
    out.append(reg_name(x.reg, names));
    assert(out@ =~= start + shift_reg_text(x, names));
}

fn write_imm(out: &mut String, x: u32)
    ensures
        final(out)@ == old(out)@ + imm_text(x),
{
    let ghost start = out@;
    out.append("#0x");
    write_hex(out, x);
    assert(out@ =~= start + imm_text(x));
}

fn write_offset_reg(out: &mut String, x: OffsetReg, names: RegNames)
    ensures
        final(out)@ == old(out)@ + offset_reg_text(x, names),
{
    let ghost start = out@;
    write_opt(out, !x.add, "-");
    out.append(reg_name(x.reg, names));
    assert(out@ =~= start + offset_reg_text(x, names));
}

fn write_co_option(out: &mut String, x: u32)
    ensures
        final(out)@ == old(out)@ + co_option_text(x),
{
    let ghost start = out@;
    out.append("{0x");
    write_hex(out, x);
    out.append("}");
    assert(out@ =~= start + co_option_text(x));
}

fn write_co_opcode(out: &mut String, x: u32)
    ensures
        final(out)@ == old(out)@ + co_opcode_text(x),
{
    let ghost start = out@;
    out.append("#");
    write_dec(out, x);
    assert(out@ =~= start + co_opcode_text(x));
}

fn write_coproc(out: &mut String, x: u32)
    ensures
        final(out)@ == old(out)@ + coproc_text(x),
{
    let ghost start = out@;
    out.append("p");
    write_dec(out, x);
    assert(out@ =~= start + coproc_text(x));
}

fn write_cpsr_mode(out: &mut String, x: CpsrMode)
    ensures
        final(out)@ == old(out)@ + cpsr_mode_text(x),
{
    let ghost start = out@;
    out.append("#0x");
    write_hex(out, x.mode);
    write_opt(out, x.writeback, "!");
    assert(out@ =~= start + cpsr_mode_text(x));
}

fn write_cpsr_flags(out: &mut String, x: CpsrFlags)
    ensures
        final(out)@ == old(out)@ + cpsr_flags_text(x),
{
    let ghost start = out@;
    write_opt(out, x.a, "a");
    write_opt(out, x.i, "i");
    write_opt(out, x.f, "f");
    write_opt(out, !x.a && !x.i && !x.f, "none");
    assert(out@ =~= start + cpsr_flags_text(x));
}

fn write_str(out: &mut String, s: &str)
    ensures
        final(out)@ == old(out)@ + s@,
{
    out.append(s);
}

fn write_arg(out: &mut String, a: Argument, options: DisplayOptions)
    ensures
        final(out)@ == old(out)@ + arg_text(a, options),
{
    let ghost start = out@;
    let names = options.reg_names;
    proof {
        reveal(arg_text);
    }
    match a {
        Argument::Empty => {
            assert(out@ =~= start + arg_text(a, options));
        },
        Argument::Reg(r) => write_reg_arg(out, r, names),
        Argument::RegList(l) => write_list_arg(out, l, names),
        Argument::CoReg(x) => write_str(out, co_reg_name(x)),
        Argument::StatusReg(x) => write_str(out, status_reg_name(x)),
        Argument::StatusMask(x) => write_status_mask(out, x),
        Argument::Shift(x) => write_str(out, shift_name(x)),
        Argument::ShiftImm(x) => write_shift_imm(out, x),
        Argument::ShiftReg(x) => write_shift_reg(out, x, names),
        Argument::UImm(x) => write_imm(out, x),
        Argument::SImm(x) => write_signed_hex(out, x),
        Argument::OffsetImm(x) => write_signed_hex(out, x.value),
        Argument::OffsetReg(x) => write_offset_reg(out, x, names),
        Argument::BranchDest(x) => write_signed_hex(out, x),
        Argument::CoOption(x) => write_co_option(out, x),
        Argument::CoOpcode(x) => write_co_opcode(out, x),
        Argument::CoprocNum(x) => write_coproc(out, x),
        Argument::SatImm(x) => write_imm(out, x),
        Argument::CpsrMode(x) => write_cpsr_mode(out, x),
        Argument::CpsrFlags(x) => write_cpsr_flags(out, x),
        Argument::Endian(x) => write_str(out, endian_name(x)),
    }
}

fn closes(a: Argument) -> (r: bool)
    ensures
        r == closes_bracket(a),
{
    match a {
        Argument::OffsetImm(x) => x.post_indexed,
        Argument::OffsetReg(x) => x.post_indexed,
        Argument::CoOption(_) => true,
        _ => false,
    }
}

fn is_empty(a: Argument) -> (r: bool)
    ensures
        r == (a == Argument::Empty),
{
    match a {
        Argument::Empty => true,
        _ => false,
    }
}

fn write_piece(
    out: &mut String,
    a: Argument,
    i: usize,
    open: bool,
    writeback: bool,
    options: DisplayOptions,
) -> (state: (bool, bool))
    ensures
        final(out)@ == old(out)@ + piece_text(a, i as nat, open, writeback, options),
        state == (open_after(a, open), writeback_after(a, open, writeback)),
{
    let ghost start = out@;
    let close_now = open && closes(a);
    if close_now {
        out.append("]");
        write_opt(out, writeback, "!");
    }
    if i > 0 {
        out.append(", ");
    }
    match a {
        Argument::Reg(r) if r.deref => {
            out.append("[");
            out.append(reg_name(r.reg, options.reg_names));
            assert(out@ =~= start + piece_text(a, i as nat, open, writeback, options));
            (true, r.writeback)
        },
        _ => {
            write_arg(out, a, options);
            assert(out@ =~= start + piece_text(a, i as nat, open, writeback, options));
            (open && !close_now, writeback && !close_now)
        },
    }
}

impl Register {
    /// Name of this register under a naming policy.
    pub fn display(self, names: RegNames) -> (r: String)
        ensures
            r@ == reg_text(self, names),
    {
        String::from_str(reg_name(self, names))
    }
}

impl ShiftReg {
    /// `<op> <reg>`
    pub fn display(self, names: RegNames) -> (r: String)
        ensures
            r@ == shift_reg_text(self, names),
    {
        let mut out = String::new();
        write_arg(&mut out, Argument::ShiftReg(self), DisplayOptions { reg_names: names });
        proof {
            reveal(arg_text);
        }
        out
    }
}

impl OffsetReg {
    /// The register, after `-` when the offset is subtracted.
    pub fn display(self, names: RegNames) -> (r: String)
        ensures
            r@ == offset_reg_text(self, names),
    {
        let mut out = String::new();
        write_arg(&mut out, Argument::OffsetReg(self), DisplayOptions { reg_names: names });
        proof {
            reveal(arg_text);
        }
        out
    }
}

impl Argument {
    /// Text of this operand; a base register is written without its bracket.
    pub fn display(&self, options: DisplayOptions) -> (r: String)
        ensures
            r@ == arg_text(*self, options),
    {
        let mut out = String::new();
        write_arg(&mut out, *self, options);
        out
    }
}

impl ParsedIns {
    /// Assembler text of this instruction.
    pub fn display(&self, options: DisplayOptions) -> (r: String)
        ensures
            r@ == ins_text(self.mnemonic@, self.args@, options),
    {
        let args = &self.args;
        let mut out = String::new();
        out.append(self.mnemonic.as_str());
        if !is_empty(args[0]) {
            out.append(" ");
        }
        let ghost total = ins_text(self.mnemonic@, args@, options);
        assert(out@ + args_text(args@, 0, false, false, options) =~= total);
        let mut i: usize = 0;
        let mut open = false;
        let mut writeback = false;
        while i < ARGS_LEN && !is_empty(args[i])
            invariant
                i <= ARGS_LEN,
                args@.len() == ARGS_LEN,
                out@ + args_text(args@, i as nat, open, writeback, options) == total,
            decreases ARGS_LEN - i,
        {
            let ghost before = out@;
            let a = args[i];
            proof {
                lemma_args_text_step(args@, i as nat, open, writeback, options);
            }
            let (o, w) = write_piece(&mut out, a, i, open, writeback, options);
            assert(out@ + args_text(args@, (i + 1) as nat, o, w, options) =~= total);
            open = o;
            writeback = w;
            i += 1;
        }
        if open {
            out.append("]");
            write_opt(&mut out, writeback, "!");
        }
        assert(out@ =~= total);
        out
    }

    /// Assembler text with the conventional names `fp` for R11 and `ip` for R12.
    pub fn to_string(&self) -> (r: String)
        ensures
            r@ == ins_text(self.mnemonic@, self.args@, conventional_names()),
    {
        self.display(DisplayOptions {
            reg_names: RegNames {
                av_registers: false,
                r9_use: R9Use::GeneralPurpose,
                explicit_stack_limit: false,
                frame_pointer: true,
                ip: true,
            },
        })
    }
}

/// Display options that name R11 `fp` and R12 `ip`, all other registers `rN`.
pub open spec fn conventional_names() -> DisplayOptions {
    DisplayOptions {
        reg_names: RegNames {
            av_registers: false,
            r9_use: R9Use::GeneralPurpose,
            explicit_stack_limit: false,
            frame_pointer: true,
            ip: true,
        },
    }
}

/// Display is a function of the decoded form: instructions with equal mnemonics and equal
/// operands render to the same text under the same options.
pub proof fn lemma_display_idempotent(a: ParsedIns, b: ParsedIns, options: DisplayOptions)
    requires
        a.mnemonic@ == b.mnemonic@,
        a.args@ == b.args@,
    ensures
        ins_text(a.mnemonic@, a.args@, options) == ins_text(b.mnemonic@, b.args@, options),
{
}

/// Operands that neither open nor close a bracket: their text depends on them alone.
pub open spec fn plain_operand(a: Argument) -> bool {
    a != Argument::Empty && !closes_bracket(a) && !is_base(a)
}

/// Text of operand `i` itself, with the bracket it closes and the separator before it.
pub open spec fn piece_text(x: Argument, i: nat, open: bool, writeback: bool, options: DisplayOptions) -> Seq<
    char,
> {
    let close_now = open && closes_bracket(x);
    let head = opt(close_now, close_text(writeback)) + opt(i > 0, ", "@);
    match x {
        Argument::Reg(r) if r.deref => head + "["@ + reg_text(r.reg, options.reg_names),
        _ => head + arg_text(x, options),
    }
}

/// Whether a `[` is pending after operand `x`.
pub open spec fn open_after(x: Argument, open: bool) -> bool {
    match x {
        Argument::Reg(r) if r.deref => true,
        _ => open && !closes_bracket(x),
    }
}

/// Whether the pending `[` writes back after operand `x`.
pub open spec fn writeback_after(x: Argument, open: bool, writeback: bool) -> bool {
    match x {
        Argument::Reg(r) if r.deref => r.writeback,
        _ => writeback && !(open && closes_bracket(x)),
    }
}

proof fn lemma_args_text_step(
    a: Seq<Argument>,
    i: nat,
    open: bool,
    writeback: bool,
    options: DisplayOptions,
)
    requires
        i < a.len(),
        a[i as int] != Argument::Empty,
    ensures
        args_text(a, i, open, writeback, options) == piece_text(a[i as int], i, open, writeback, options)
            + args_text(
            a,
            i + 1,
            open_after(a[i as int], open),
            writeback_after(a[i as int], open, writeback),
            options,
        ),
{
    let x = a[i as int];
    match x {
        Argument::Reg(r) if r.deref => {
            assert(args_text(a, i, open, writeback, options) =~= piece_text(x, i, open, writeback, options)
                + args_text(a, i + 1, true, r.writeback, options));
        },
        _ => {
            assert(args_text(a, i, open, writeback, options) =~= piece_text(x, i, open, writeback, options)
                + args_text(a, i + 1, open_after(x, open), writeback_after(x, open, writeback), options));
        },
    }
}

proof fn lemma_concat_assoc(b: Seq<char>, p: Seq<char>, m: Seq<char>, s: Seq<char>)
    ensures
        b + (p + m + s) == (b + p) + m + s,
{
    assert(b + (p + m + s) =~= (b + p) + m + s);
}

/// The text of operands `i..` depends only on those operands.
proof fn lemma_args_text_agree(
    a: Seq<Argument>,
    b: Seq<Argument>,
    i: nat,
    open: bool,
    writeback: bool,
    options: DisplayOptions,
)
    requires
        a.len() == b.len(),
        forall|j: int| i <= j < a.len() ==> a[j] == b[j],
    ensures
        args_text(a, i, open, writeback, options) == args_text(b, i, open, writeback, options),
    decreases a.len() - i,
{
    if i < a.len() && a[i as int] != Argument::Empty {
        let x = a[i as int];
        lemma_args_text_step(a, i, open, writeback, options);
        lemma_args_text_step(b, i, open, writeback, options);
        lemma_args_text_agree(
            a,
            b,
            i + 1,
            open_after(x, open),
            writeback_after(x, open, writeback),
            options,
        );
    }
}

/// Two operand lists that differ only in a plain operand at `k` render, from `i` on, to
/// the same text around that operand's text.
proof fn lemma_slot_text(
    a: Seq<Argument>,
    b: Seq<Argument>,
    k: nat,
    i: nat,
    open: bool,
    writeback: bool,
    options: DisplayOptions,
) -> (around: (Seq<char>, Seq<char>))
    requires
        a.len() == b.len(),
        i <= k < a.len(),
        forall|j: int| 0 <= j < a.len() && j != k ==> a[j] == b[j],
        forall|j: int| i <= j < k ==> a[j] != Argument::Empty,
        plain_operand(a[k as int]),
        plain_operand(b[k as int]),
    ensures
        args_text(a, i, open, writeback, options) == around.0 + arg_text(a[k as int], options)
            + around.1,
        args_text(b, i, open, writeback, options) == around.0 + arg_text(b[k as int], options)
            + around.1,
    decreases k - i,
{
    let x = a[i as int];
    lemma_args_text_step(a, i, open, writeback, options);
    lemma_args_text_step(b, i, open, writeback, options);
    let o2 = open_after(x, open);
    let w2 = writeback_after(x, open, writeback);
    if i == k {
        let y = b[i as int];
        assert(o2 == open && open_after(y, open) == open);
        assert(w2 == writeback && writeback_after(y, open, writeback) == writeback);
        lemma_args_text_agree(a, b, k + 1, open, writeback, options);
        let head = opt(open && closes_bracket(x), close_text(writeback)) + opt(i > 0, ", "@);
        let rest = args_text(a, k + 1, open, writeback, options);
        assert(piece_text(x, i, open, writeback, options) == head + arg_text(x, options));
        assert(piece_text(y, i, open, writeback, options) == head + arg_text(y, options));
        (head, rest)
    } else {
        let body = piece_text(x, i, open, writeback, options);
        let (p, s) = lemma_slot_text(a, b, k, i + 1, o2, w2, options);
        lemma_concat_assoc(body, p, arg_text(a[k as int], options), s);
        lemma_concat_assoc(body, p, arg_text(b[k as int], options), s);
        (body + p, s)
    }
}

/// An illegal coprocessor register renders `<illegal>` in its own slot only: with any
/// coprocessor register in that slot instead, the rest of the text stays the same.
pub proof fn lemma_illegal_co_reg_slot(
    mnemonic: Seq<char>,
    args: Seq<Argument>,
    k: int,
    x: CoReg,
    options: DisplayOptions,
)
    requires
        args_packed(args),
        0 <= k < args.len(),
        args[k] == Argument::CoReg(CoReg::Illegal),
    ensures
        exists|pre: Seq<char>, post: Seq<char>|
            ins_text(mnemonic, args, options) == pre + "<illegal>"@ + post && ins_text(
                mnemonic,
                args.update(k, Argument::CoReg(x)),
                options,
            ) == pre + co_reg_text(x) + post,
{
    reveal(arg_text);
    let other = args.update(k, Argument::CoReg(x));
    assert forall|j: int| 0 <= j < k implies args[j] != Argument::Empty by {
        if args[j] == Argument::Empty {
            assert(args[k] == Argument::Empty);
        }
    }
    assert(plain_operand(args[k]) && plain_operand(other[k]));
    let (p, s) = lemma_slot_text(args, other, k as nat, 0, false, false, options);
    let space = opt(args.len() > 0 && args[0] != Argument::Empty, " "@);
    assert(other.len() > 0 && other[0] != Argument::Empty);
    let pre = mnemonic + space + p;
    assert(arg_text(args[k], options) == "<illegal>"@);
    assert(arg_text(other[k], options) == co_reg_text(x));
    lemma_concat_assoc(mnemonic + space, p, "<illegal>"@, s);
    lemma_concat_assoc(mnemonic + space, p, co_reg_text(x), s);
}

} // verus!

