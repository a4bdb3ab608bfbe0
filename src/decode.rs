//! Decoder: classifies an instruction word by the catalogue and assembles its `ParsedIns`.
use vstd::prelude::*;

use crate::args::{
    args_packed, co_reg_of, endian_of, register_of, status_reg_of, Argument, ParsedIns, ARGS_LEN,
};
use crate::bits::{count_ones, lemma_popcount_superset, popcount, strict_superset};
use crate::display::{ins_text, DisplayOptions};
use crate::isa::{
    eval_modifier, field_value, fields_of, form_fields, form_modifiers, lemma_index_bound,
    lemma_index_injective, lemma_mnemonic_nonempty, modifier_case, modifiers_of, read_field,
    Arch, Descriptor, Field, Flavour, Isa, Modifier, Opcode, OPCODE_COUNT,
};

verus! {

/// Decoder settings.
#[derive(Clone, Copy, PartialEq, Eq, Structural, Debug)]
pub struct ParseFlags {
    /// Spell mnemonics in the unified assembler language instead of the divided syntax
    pub ual: bool,
}

/// Whether a descriptor belongs to this architecture, instruction set and syntax.
pub open spec fn descriptor_available(d: Descriptor, arch: Arch, isa: Isa, ual: bool) -> bool {
    &&& d.arch.spec_level() <= arch.spec_level()
    &&& d.isa == isa
    &&& match d.flavour {
        Flavour::Both => true,
        Flavour::Ual => ual,
        Flavour::Divided => !ual,
    }
}

/// Whether `op` can be decoded for this architecture, instruction set and syntax.
pub open spec fn available(op: Opcode, arch: Arch, isa: Isa, ual: bool) -> bool {
    op != Opcode::Illegal && descriptor_available(op.spec_descriptor(), arch, isa, ual)
}

/// Whether `code` holds the signature bits of `op`.
pub open spec fn matches(op: Opcode, code: u32) -> bool {
    code & op.spec_descriptor().mask == op.spec_descriptor().pattern
}

/// Whether `op` is available and matches `code`.
pub open spec fn candidate(op: Opcode, code: u32, arch: Arch, isa: Isa, ual: bool) -> bool {
    available(op, arch, isa, ual) && matches(op, code)
}

/// Number of signature bits of `op`.
pub open spec fn specificity(op: Opcode) -> nat {
    popcount(op.spec_descriptor().mask)
}

/// The classification rule: `r` is `Illegal` exactly when no opcode matches; otherwise it
/// matches, no matching opcode has more signature bits, and every matching opcode listed
/// before it has fewer.
pub open spec fn is_found(r: Opcode, code: u32, arch: Arch, isa: Isa, ual: bool) -> bool {
    &&& (r == Opcode::Illegal <==> forall|op: Opcode| !candidate(op, code, arch, isa, ual))
    &&& (r != Opcode::Illegal ==> candidate(r, code, arch, isa, ual))
    &&& forall|op: Opcode| #[trigger]
        candidate(op, code, arch, isa, ual) ==> specificity(op) <= specificity(r)
    &&& forall|op: Opcode|
        #[trigger] candidate(op, code, arch, isa, ual) && op.index() < r.index() ==> specificity(op)
            < specificity(r)
}

fn is_available(d: Descriptor, arch: Arch, isa: Isa, ual: bool) -> (r: bool)
    ensures
        r == descriptor_available(d, arch, isa, ual),
{
    let flavour_ok = match d.flavour {
        Flavour::Both => true,
        Flavour::Ual => ual,
        Flavour::Divided => !ual,
    };
    d.arch.level() <= arch.level() && d.isa == isa && flavour_ok
}

/// Classifies `code`: the most specific matching opcode, the first listed among equals.
pub fn find(code: u32, arch: Arch, isa: Isa, ual: bool) -> (r: Opcode)
    ensures
        is_found(r, code, arch, isa, ual),
{
    let mut best = Opcode::Illegal;
    let mut best_count: u32 = 0;
    let mut i: usize = 0;
    while i < OPCODE_COUNT
        invariant
            i <= OPCODE_COUNT,
            best == Opcode::Illegal || (candidate(best, code, arch, isa, ual) && best.index() < i),
            best != Opcode::Illegal ==> best_count == specificity(best),
            forall|op: Opcode|
                #[trigger] candidate(op, code, arch, isa, ual) && op.index() < i ==> best
                    != Opcode::Illegal && specificity(op) <= specificity(best),
            forall|op: Opcode|
                #[trigger] candidate(op, code, arch, isa, ual) && op.index() < i && op.index()
                    < best.index() ==> specificity(op) < specificity(best),
        decreases OPCODE_COUNT - i,
    {
        let op = Opcode::at(i);
        proof {
            lemma_index_bound(op);
        }
        let d = op.descriptor();
        if is_available(d, arch, isa, ual) && code & d.mask == d.pattern {
            assert(candidate(op, code, arch, isa, ual));
            let c = count_ones(d.mask);
            if best == Opcode::Illegal || c > best_count {
                best = op;
                best_count = c;
            }
        } else {
            assert(!candidate(op, code, arch, isa, ual));
        }
        proof {
            assert forall|o: Opcode| #[trigger] candidate(o, code, arch, isa, ual) && o.index() < i + 1 implies o.index() < i || o == op by {
                if o.index() == i {
                    lemma_index_injective(o, op);
                }
            }
        }
        i += 1;
    }
    proof {
        lemma_index_bound(best);
        assert forall|o: Opcode| #[trigger] candidate(o, code, arch, isa, ual) implies o.index() < OPCODE_COUNT by {
            lemma_index_bound(o);
        }
    }
    best
}

/// Suffixes that modifiers `mods[0..n]` select for `code`.
pub open spec fn suffixes(mods: Seq<Modifier>, code: u32, ual: bool, n: nat) -> Seq<char>
    decreases n,
{
    if n == 0 || n > mods.len() {
        Seq::empty()
    } else {
        suffixes(mods, code, ual, (n - 1) as nat) + modifier_case(
            mods[n - 1],
            code,
            ual,
        ).unwrap().0
    }
}

/// Extra operand fields that modifiers `mods[0..n]` select for `code`.
pub open spec fn extras(mods: Seq<Modifier>, code: u32, ual: bool, n: nat) -> Seq<Field>
    decreases n,
{
    if n == 0 || n > mods.len() {
        Seq::empty()
    } else {
        extras(mods, code, ual, (n - 1) as nat) + modifier_case(mods[n - 1], code, ual).unwrap().1
    }
}

/// Whether every modifier in `mods` has a case for `code`.
pub open spec fn all_cases(mods: Seq<Modifier>, code: u32, ual: bool) -> bool {
    forall|i: int| 0 <= i < mods.len() ==> (#[trigger] modifier_case(mods[i], code, ual)).is_some()
}

/// Mnemonic and operand fields of `code` decoded as `op`: the base mnemonic followed by the
/// modifiers' suffixes, the positional fields followed by the modifiers' extra fields.
/// `None` for `Illegal` and when a modifier has no case for `code`.
pub open spec fn decoded(op: Opcode, code: u32, ual: bool) -> Option<(Seq<char>, Seq<Field>)> {
    let form = op.spec_descriptor().form;
    let mods = form_modifiers(form, ual);
    if op == Opcode::Illegal || !all_cases(mods, code, ual) {
        None
    } else {
        Some(
            (
                op.spec_mnemonic() + suffixes(mods, code, ual, mods.len()),
                form_fields(form) + extras(mods, code, ual, mods.len()),
            ),
        )
    }
}

/// Operand slots holding the values of `fields` read from `code`, then empty slots.
pub open spec fn slots(fields: Seq<Field>, code: u32) -> Seq<Argument> {
    Seq::new(
        ARGS_LEN as nat,
        |i: int|
            if i < fields.len() {
                field_value(fields[i], code)
            } else {
                Argument::Empty
            },
    )
}

/// Mnemonic of `code` decoded as `op`; `<illegal>` when it does not decode.
pub open spec fn parsed_mnemonic(op: Opcode, code: u32, ual: bool) -> Seq<char> {
    match decoded(op, code, ual) {
        None => "<illegal>"@,
        Some(d) => d.0,
    }
}

/// Operand slots of `code` decoded as `op`; all empty when it does not decode.
pub open spec fn parsed_args(op: Opcode, code: u32, ual: bool) -> Seq<Argument> {
    match decoded(op, code, ual) {
        None => Seq::new(ARGS_LEN as nat, |i: int| Argument::Empty),
        Some(d) => slots(d.1, code),
    }
}

/// Whether `r` is what `parse` gives for `code` decoded as `op`.
pub open spec fn is_parsed(r: ParsedIns, op: Opcode, code: u32, ual: bool) -> bool {
    r.mnemonic@ == parsed_mnemonic(op, code, ual) && r.args@ == parsed_args(op, code, ual)
}

/// No field reads as an empty slot.
pub proof fn lemma_field_present(f: Field, code: u32)
    ensures
        field_value(f, code) != Argument::Empty,
{
}

/// Assembles the decoded instruction of `code` as `op`.
pub fn parse(op: Opcode, code: u32, ual: bool) -> (r: ParsedIns)
    ensures
        r.wf(),
        is_parsed(r, op, code, ual),
{
    if op == Opcode::Illegal {
        return ParsedIns::illegal();
    }
    let d = op.descriptor();
    let mods = modifiers_of(d.form, ual);
    let mut mnemonic = String::from_str(op.mnemonic());
    let mut fields = fields_of(d.form);
    let mut k: usize = 0;
    while k < mods.len()
        invariant
            k <= mods.len(),
            d == op.spec_descriptor(),
            mods@ == form_modifiers(d.form, ual),
            forall|i: int| 0 <= i < k ==> (#[trigger] modifier_case(mods@[i], code, ual)).is_some(),
            mnemonic@ == op.spec_mnemonic() + suffixes(mods@, code, ual, k as nat),
            fields@ == form_fields(d.form) + extras(mods@, code, ual, k as nat),
        decreases mods.len() - k,
    {
        match eval_modifier(mods[k], code, ual) {
            None => {
                assert(!all_cases(mods@, code, ual));
                return ParsedIns::illegal();
            },
            Some(c) => {
                let (s, extra) = c;
                let mut extra = extra;
                mnemonic.append(s);
                fields.append(&mut extra);
                assert(mnemonic@ =~= op.spec_mnemonic() + suffixes(mods@, code, ual, (k + 1) as nat));
                assert(fields@ =~= form_fields(d.form) + extras(mods@, code, ual, (k + 1) as nat));
            },
        }
        k += 1;
    }
    assert(all_cases(mods@, code, ual));
    let ghost target = slots(fields@, code);
    let mut args = [Argument::Empty; ARGS_LEN];
    let mut j: usize = 0;
    while j < ARGS_LEN
        invariant
            j <= ARGS_LEN,
            target == slots(fields@, code),
            forall|m: int|
                0 <= m < ARGS_LEN ==> args@[m] == if m < j {
                    target[m]
                } else {
                    Argument::Empty
                },
        decreases ARGS_LEN - j,
    {
        if j < fields.len() {
            args[j] = read_field(fields[j], code);
        }
        j += 1;
    }
    assert(args@ =~= target);
    proof {
        lemma_slots_packed(fields@, code);
    }
    ParsedIns { mnemonic, args }
}

/// Operand slots read from fields are packed at the front.
pub proof fn lemma_slots_packed(fields: Seq<Field>, code: u32)
    ensures
        slots(fields, code).len() == ARGS_LEN,
        args_packed(slots(fields, code)),
{
    let s = slots(fields, code);
    assert forall|a: int, b: int| 0 <= a < b < s.len() && s[a] == Argument::Empty implies s[b]
        == Argument::Empty by {
        if a < fields.len() {
            lemma_field_present(fields[a], code);
        }
    }
}

/// Decoding is total: every word decodes, as any opcode, to a non-empty mnemonic and
/// `ARGS_LEN` operand slots filled from the front.
pub proof fn lemma_parse_total(op: Opcode, code: u32, ual: bool)
    ensures
        parsed_mnemonic(op, code, ual).len() > 0,
        parsed_args(op, code, ual).len() == ARGS_LEN,
        args_packed(parsed_args(op, code, ual)),
{
    reveal_strlit("<illegal>");
    lemma_mnemonic_nonempty(op);
    match decoded(op, code, ual) {
        None => {
            assert(args_packed(parsed_args(op, code, ual)));
        },
        Some(d) => {
            lemma_slots_packed(d.1, code);
        },
    }
}

/// Specificity: when two matching opcodes have signatures one of which holds the other and
/// more, classification never picks the one with fewer signature bits.
pub proof fn lemma_specificity(
    code: u32,
    arch: Arch,
    isa: Isa,
    ual: bool,
    r: Opcode,
    wide: Opcode,
    narrow: Opcode,
)
    requires
        is_found(r, code, arch, isa, ual),
        candidate(wide, code, arch, isa, ual),
        candidate(narrow, code, arch, isa, ual),
        strict_superset(wide.spec_descriptor().mask, narrow.spec_descriptor().mask),
    ensures
        r != narrow,
{
    lemma_popcount_superset(wide.spec_descriptor().mask, narrow.spec_descriptor().mask);
}

/// Determinism of classification: one word has one classification.
pub proof fn lemma_find_deterministic(
    code: u32,
    arch: Arch,
    isa: Isa,
    ual: bool,
    r1: Opcode,
    r2: Opcode,
)
    requires
        is_found(r1, code, arch, isa, ual),
        is_found(r2, code, arch, isa, ual),
    ensures
        r1 == r2,
{
    if r1 != r2 && r1 != Opcode::Illegal && r2 != Opcode::Illegal {
        assert(specificity(r1) <= specificity(r2));
        assert(specificity(r2) <= specificity(r1));
        if r1.index() == r2.index() {
            lemma_index_injective(r1, r2);
        }
    }
}

/// Determinism of parsing: one opcode and word give one mnemonic and one operand list.
pub proof fn lemma_parse_deterministic(
    op: Opcode,
    code: u32,
    ual: bool,
    first: ParsedIns,
    second: ParsedIns,
)
    requires
        is_parsed(first, op, code, ual),
        is_parsed(second, op, code, ual),
    ensures
        first.mnemonic@ == second.mnemonic@,
        first.args@ == second.args@,
{
}

/// `code` with the bits that `mask` covers once shifted left by `lo` replaced by `v`.
pub open spec fn with_field(code: u32, lo: u32, mask: u32, v: u32) -> u32 {
    (code & !(mask << lo)) | (v << lo)
}

/// Lowest bit and mask of the bit range that `f` reads unchanged, for fields that read one
/// such range (registers, coprocessor fields, register lists, plain immediates, modes).
pub open spec fn field_range(f: Field) -> Option<(u32, u32)> {
    match f {
        Field::Reg0 | Field::CoReg0 => Some((0, 0xf)),
        Field::Reg8 | Field::CoprocNum => Some((8, 0xf)),
        Field::Reg12 | Field::CoReg12 => Some((12, 0xf)),
        Field::Reg16 | Field::Reg16Wb | Field::Base16 | Field::Base16Wb | Field::CoReg16 => Some(
            (16, 0xf),
        ),
        Field::RegList => Some((0, 0xffff)),
        Field::StatusReg => Some((22, 1)),
        Field::Imm24 => Some((0, 0xffffff)),
        Field::CoOpc20 => Some((20, 0xf)),
        Field::CoOpc21 => Some((21, 7)),
        Field::CoOpc4 => Some((4, 0xf)),
        Field::CoOpc5 => Some((5, 7)),
        Field::CoOption => Some((0, 0xff)),
        Field::SatImmU => Some((16, 0x1f)),
        Field::SatImm16U => Some((16, 0xf)),
        Field::CpsMode => Some((0, 0x1f)),
        Field::EndianE => Some((9, 1)),
        Field::TReg0 => Some((0, 7)),
        Field::TReg3 | Field::TBase3 => Some((3, 7)),
        Field::TReg6 | Field::TImm3 => Some((6, 7)),
        Field::TReg8 | Field::TBaseWb => Some((8, 7)),
        Field::THi3 => Some((3, 0xf)),
        Field::TImm8 | Field::TRegList8 => Some((0, 0xff)),
        Field::TEndian => Some((3, 1)),
        _ => None,
    }
}

/// The number that an operand read from one bit range stands for.
pub open spec fn field_number(a: Argument) -> nat {
    match a {
        Argument::Reg(r) => r.reg.value(),
        Argument::RegList(l) => l.regs as nat,
        Argument::CoReg(c) => c.value(),
        Argument::StatusReg(x) => x.value(),
        Argument::UImm(n) => n as nat,
        Argument::CoOption(n) => n as nat,
        Argument::CoOpcode(n) => n as nat,
        Argument::CoprocNum(n) => n as nat,
        Argument::SatImm(n) => n as nat,
        Argument::CpsrMode(m) => m.mode as nat,
        Argument::Endian(x) => x.value(),
        _ => 0,
    }
}

proof fn lemma_bits_round_trip(code: u32, lo: u32, mask: u32, v: u32)
    by (bit_vector)
    requires
        (mask == 1 && lo <= 31) || (mask == 7 && lo <= 29) || (mask == 0xf && lo <= 28) || (mask
            == 0x1f && lo <= 27) || (mask == 0xff && lo <= 24) || (mask == 0xffff && lo <= 16) || (
        mask == 0xffffff && lo <= 8),
        v <= mask,
    ensures
        (with_field(code, lo, mask, v) >> lo) & mask == v,
        lo == 0 ==> with_field(code, lo, mask, v) & mask == v,
{
}

/// Field round trip: writing `v` into the bit range of a field that reads one range, and
/// reading the field back, gives `v`; enumerated operands give the enumerator of number `v`.
pub proof fn lemma_field_round_trip(f: Field, code: u32, v: u32)
    requires
        field_range(f).is_some(),
        v <= field_range(f).unwrap().1,
    ensures
        field_number(
            field_value(f, with_field(code, field_range(f).unwrap().0, field_range(f).unwrap().1, v)),
        ) == v,
{
    let (lo, mask) = field_range(f).unwrap();
    let c = with_field(code, lo, mask, v);
    lemma_bits_round_trip(code, lo, mask, v);
    if v <= 0xf {
        assert(register_of(v).value() == v);
        assert(co_reg_of(v).value() == v);
    }
    if v <= 1 {
        assert(endian_of(v).value() == v);
        assert(status_reg_of(v).value() == v);
    }
}

/// Formatter stability: the text of the parse of one word, under one set of options, is one
/// text whichever call produced the parse.
pub proof fn lemma_render_stable(
    op: Opcode,
    code: u32,
    ual: bool,
    first: ParsedIns,
    second: ParsedIns,
    options: DisplayOptions,
)
    requires
        is_parsed(first, op, code, ual),
        is_parsed(second, op, code, ual),
    ensures
        ins_text(first.mnemonic@, first.args@, options) == ins_text(second.mnemonic@, second.args@, options),
{
}

} // verus!

