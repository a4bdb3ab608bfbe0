use unarm::display::DisplayOptions;
use unarm::isa::Opcode;
use unarm::{v4t, v5te, v6};

fn v5te_text(code: u32) -> String {
    v5te::thumb::Ins::new(code).parse().display(DisplayOptions::default())
}

fn v6_text(code: u32) -> String {
    v6::thumb::Ins::new(code).parse().display(DisplayOptions::default())
}

#[test]
fn thumb_add_imm3() {
    assert_eq!(v5te_text(0x1c08), "adds r0, r1, #0x0");
}

#[test]
fn thumb_shift_by_immediate() {
    assert_eq!(v5te_text(0x0048), "lsls r0, r1, #0x1");
    assert_eq!(v6_text(0x0048), "lsl r0, r1, #0x1");
    assert_eq!(v5te_text(0x0808), "lsrs r0, r1, #0x20");
}

#[test]
fn thumb_push_pop() {
    assert_eq!(v5te_text(0xb500), "push {lr}");
    assert_eq!(v5te_text(0xbd00), "pop {pc}");
    assert_eq!(v5te_text(0xb503), "push {r0, r1, lr}");
}

#[test]
fn thumb_branches() {
    assert_eq!(v5te_text(0x4770), "bx lr");
    assert_eq!(v5te_text(0xd0fe), "beq #0x0");
    assert_eq!(v5te_text(0xe7fe), "b #0x0");
    assert_eq!(v5te_text(0xd001), "beq #0x6");
    assert_eq!(v5te_text(0xde00), "<illegal>");
}

#[test]
fn thumb_loads() {
    assert_eq!(v5te_text(0x6848), "ldr r0, [r1, #0x4]");
    assert_eq!(v5te_text(0x4801), "ldr r0, [pc, #0x4]");
    assert_eq!(v5te_text(0x5888), "ldr r0, [r1, r2]");
    assert_eq!(v5te_text(0x9801), "ldr r0, [sp, #0x4]");
}

#[test]
fn thumb_multiple() {
    assert_eq!(v5te_text(0xc802), "ldm r0!, {r1}");
    assert_eq!(v5te_text(0xc801), "ldm r0, {r0}");
    assert_eq!(v6_text(0xc802), "ldmia r0!, {r1}");
}

#[test]
fn thumb_supervisor_call() {
    assert_eq!(v5te_text(0xdf12), "svc #0x12");
    assert_eq!(v6_text(0xdf12), "swi #0x12");
}

#[test]
fn thumb_half_bl() {
    let half = v5te::thumb::Ins::new(0xf000);
    assert!(half.is_half_bl());
    assert_eq!(half.op, Opcode::BlH);
    assert!(!v5te::thumb::Ins::new(0xf800).is_half_bl());
    assert!(!v5te::thumb::Ins::new(0x4770).is_half_bl());
    assert!(v4t::thumb::Ins::new(0xf7ff).is_half_bl());
}

#[test]
fn thumb_long_branch() {
    assert_eq!(v5te_text(0xf000f800), "bl #0x4");
    assert_eq!(v5te_text(0xf7fffffe), "bl #0x0");
    assert_eq!(v5te_text(0xf000e800), "blx #0x4");
    assert_eq!(v4t::thumb::Ins::new(0xf000e800).parse().mnemonic, "<illegal>");
}

#[test]
fn thumb_v6_only() {
    assert_eq!(v6_text(0xb662), "cpsie i");
    assert_eq!(v6_text(0xb677), "cpsid aif");
    assert_eq!(v6_text(0xba08), "rev r0, r1");
    assert_eq!(v6_text(0xb658), "setend be");
    assert_eq!(v5te_text(0xba08), "<illegal>");
}

#[test]
fn thumb_breakpoint() {
    assert_eq!(v5te_text(0xbe05), "bkpt #0x5");
    assert_eq!(v4t::thumb::Ins::new(0xbe05).parse().display(DisplayOptions::default()), "<illegal>");
}
