use unarm::args::{Argument, CoReg, OffsetReg, Register, Shift, ShiftReg, ARGS_LEN};
use unarm::decode::ParseFlags;
use unarm::display::{DisplayOptions, R9Use, RegNames};
use unarm::isa::Opcode;
use unarm::{v4t, v5te, v6};

fn v4t_text(code: u32) -> String {
    v4t::arm::Ins::new(code).parse().display(DisplayOptions::default())
}

#[test]
fn zero_word_is_conditional_and() {
    let ins = v4t::arm::Ins::new(0x00000000);
    assert_eq!(ins.op, Opcode::And);
    assert_eq!(ins.parse().display(DisplayOptions::default()), "andeq r0, r0, r0");
}

#[test]
fn never_condition_is_illegal_before_v5te() {
    let parsed = v4t::arm::Ins::new(0xf0000000).parse();
    assert_eq!(parsed.mnemonic, "<illegal>");
    assert!(parsed.args.iter().all(|a| *a == Argument::Empty));
    assert_eq!(parsed.args.len(), ARGS_LEN);
    assert_eq!(v4t_text(0xfa000000), "<illegal>");
    assert_eq!(v5te::arm::Ins::new(0xfa000000).parse().to_string(), "blx #0x8");
}

#[test]
fn unmatched_word_is_illegal_opcode() {
    assert_eq!(v4t::arm::Ins::new(0xe7f000f0).parse().mnemonic, "<illegal>");
    assert_eq!(v4t::arm::Ins::new(0x06000010).op, Opcode::Str);
}

#[test]
fn more_specific_encoding_wins() {
    assert_eq!(v4t::arm::Ins::new(0xe0010293).op, Opcode::Mul);
    assert_eq!(v4t::arm::Ins::new(0xe1a02003).op, Opcode::MovReg);
    assert_eq!(v6::arm::Ins::new(0xe1a02003).op, Opcode::Mov);
    assert_eq!(v4t::arm::Ins::new(0xe12fff10).op, Opcode::Bx);
}

#[test]
fn illegal_coprocessor_register_renders_illegal() {
    assert_eq!(CoReg::parse(16), CoReg::Illegal);
    assert_eq!(CoReg::parse(15), CoReg::C15);
    let arg = Argument::CoReg(CoReg::parse(16));
    assert_eq!(arg.display(DisplayOptions::default()), "<illegal>");
}

#[test]
fn register_parse_range() {
    assert_eq!(Register::parse(0), Register::R0);
    assert_eq!(Register::parse(15), Register::Pc);
    assert_eq!(Register::parse(16), Register::Illegal);
    assert_eq!(Shift::parse(4), Shift::Rrx);
    assert_eq!(Shift::parse(5), Shift::Illegal);
}

#[test]
fn register_naming_policies() {
    let av = RegNames { av_registers: true, ..RegNames::default() };
    assert_eq!(Register::R0.display(av), "a1");
    assert_eq!(Register::R4.display(av), "v1");
    assert_eq!(Register::R9.display(av), "v6");
    assert_eq!(Register::Fp.display(av), "v8");
    let pid = RegNames { r9_use: R9Use::Pid, ..RegNames::default() };
    assert_eq!(Register::R9.display(pid), "sb");
    let tls = RegNames { r9_use: R9Use::Tls, ..RegNames::default() };
    assert_eq!(Register::R9.display(tls), "tr");
    let sl = RegNames { explicit_stack_limit: true, av_registers: true, ..RegNames::default() };
    assert_eq!(Register::R10.display(sl), "sl");
    assert_eq!(Register::Fp.display(RegNames::default()), "r11");
    assert_eq!(Register::Ip.display(RegNames { ip: true, ..RegNames::default() }), "ip");
    assert_eq!(Register::Sp.display(av), "sp");
}

#[test]
fn display_with_options() {
    let options = DisplayOptions { reg_names: RegNames { av_registers: true, ..RegNames::default() } };
    let parsed = v4t::arm::Ins::new(0xe0a12003).parse();
    assert_eq!(parsed.display(options), "adc a3, a2, a4");
}

#[test]
fn shift_and_offset_registers() {
    let names = RegNames::default();
    assert_eq!(ShiftReg { op: Shift::Asr, reg: Register::R3 }.display(names), "asr r3");
    assert_eq!(OffsetReg { add: false, post_indexed: false, reg: Register::R2 }.display(names), "-r2");
    assert_eq!(OffsetReg { add: true, post_indexed: true, reg: Register::Lr }.display(names), "lr");
}

#[test]
fn immediates_render_in_hex_and_decimal() {
    let options = DisplayOptions::default();
    assert_eq!(Argument::SImm(i32::MIN).display(options), "#-0x80000000");
    assert_eq!(Argument::SImm(255).display(options), "#0xff");
    assert_eq!(Argument::UImm(0).display(options), "#0x0");
    assert_eq!(Argument::UImm(u32::MAX).display(options), "#0xffffffff");
    assert_eq!(Argument::CoOpcode(12).display(options), "#12");
    assert_eq!(Argument::CoprocNum(15).display(options), "p15");
    assert_eq!(Argument::CoOption(0xab).display(options), "{0xab}");
    assert_eq!(Argument::Empty.display(options), "");
}

#[test]
fn largest_immediates() {
    assert_eq!(v4t_text(0xefffffff), "svc #0xffffff");
    assert_eq!(v4t_text(0xeaffffff), "b #0x4");
    assert_eq!(v4t_text(0xea7fffff), "b #0x2000004");
    assert_eq!(v4t_text(0xea800000), "b #-0x1fffff8");
}

#[test]
fn syntax_flag_selects_spelling() {
    let ual = v6::arm::Ins::with_flags(0x10110293, ParseFlags { ual: true });
    assert_eq!(ual.parse().to_string(), "mulsne r1, r3, r2");
    let divided = v4t::arm::Ins::with_flags(0x10110293, ParseFlags { ual: false });
    assert_eq!(divided.parse().to_string(), "mulnes r1, r3, r2");
    let push = v4t::arm::Ins::with_flags(0xe92d0505, ParseFlags { ual: false });
    assert_eq!(push.parse().display(DisplayOptions::default()), "stmdb sp!, {r0, r2, r8, r10}");
}

#[test]
fn display_is_repeatable() {
    let parsed = v4t::arm::Ins::new(0xe4912fff).parse();
    let again = v4t::arm::Ins::new(0xe4912fff).parse();
    assert_eq!(parsed.display(DisplayOptions::default()), again.display(DisplayOptions::default()));
    assert_eq!(parsed.display(DisplayOptions::default()), "ldr r2, [r1], #0xfff");
}

#[test]
fn structurally_equal_parses_render_equally() {
    let a = v4t::arm::Ins::new(0xe0a12003).parse();
    let b = v5te::arm::Ins::new(0xe0a12003).parse();
    assert_eq!(a.mnemonic, b.mnemonic);
    assert_eq!(a.args, b.args);
    assert_eq!(a.display(DisplayOptions::default()), b.display(DisplayOptions::default()));
}

#[test]
fn field_round_trip_on_words() {
    for v in 0..16u32 {
        let code = (0xe0a12003 & !(0xf << 12)) | (v << 12);
        let parsed = v4t::arm::Ins::new(code).parse();
        assert_eq!(parsed.args[0], Argument::Reg(unarm::args::Reg { deref: false, reg: Register::parse(v), writeback: false }));
    }
}

#[test]
fn opcode_table_size() {
    assert_eq!(Opcode::count(), unarm::isa::OPCODE_COUNT);
    assert_eq!(Opcode::at(0), Opcode::And);
    assert_eq!(Opcode::at(Opcode::count()), Opcode::Illegal);
    assert_eq!(Opcode::Adc.mnemonic(), "adc");
    assert_eq!(Opcode::Illegal.mnemonic(), "<illegal>");
}

#[test]
fn v6k_additions() {
    let text = |code: u32| unarm::v6k::arm::Ins::new(code).parse().to_string();
    assert_eq!(text(0xf57ff01f), "clrex");
    assert_eq!(text(0xe1d12f9f), "ldrexb r2, [r1]");
    assert_eq!(text(0xe1e12f93), "strexh r2, r3, [r1]");
    assert_eq!(text(0xe320f003), "wfi");
    assert_eq!(text(0x0320f000), "nopeq");
    assert_eq!(v6::arm::Ins::new(0xe320f003).parse().to_string(), "msr cpsr, #0x3");
}

#[test]
fn illegal_coprocessor_register_only_in_its_slot() {
    let mut args = [
        Argument::CoprocNum(4),
        Argument::CoOpcode(1),
        Argument::CoReg(CoReg::Illegal),
        Argument::CoReg(CoReg::C2),
        Argument::CoReg(CoReg::C6),
        Argument::CoOpcode(5),
    ];
    let parsed = unarm::args::ParsedIns { mnemonic: String::from("cdp"), args };
    assert_eq!(parsed.display(DisplayOptions::default()), "cdp p4, #1, <illegal>, c2, c6, #5");
    args[2] = Argument::CoReg(CoReg::C3);
    let legal = unarm::args::ParsedIns { mnemonic: String::from("cdp"), args };
    assert_eq!(legal.display(DisplayOptions::default()), "cdp p4, #1, c3, c2, c6, #5");
}
