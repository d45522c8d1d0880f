use kira::emitter::{AsmBuilder, AsmLine, Label, NameHint, Reg};

#[test]
fn li_is_always_one_line() {
    let mut b = AsmBuilder::new();
    b.li(Reg::T0, 42);
    b.li(Reg::T1, 1000000);
    assert_eq!(
        b.lines,
        vec![
            AsmLine::Li { dest: Reg::T0, imm: 42 },
            AsmLine::Li { dest: Reg::T1, imm: 1000000 },
        ]
    );
}

#[test]
fn addi_in_range_is_one_instruction() {
    let mut b = AsmBuilder::new();
    b.addi(Reg::Sp, Reg::Sp, -2048, Reg::T0);
    b.addi(Reg::Sp, Reg::Sp, 2047, Reg::T0);
    assert_eq!(
        b.lines,
        vec![
            AsmLine::Addi { dest: Reg::Sp, opr: Reg::Sp, imm: -2048 },
            AsmLine::Addi { dest: Reg::Sp, opr: Reg::Sp, imm: 2047 },
        ]
    );
}

#[test]
fn addi_out_of_range_is_load_immediate_then_register_op() {
    let mut b = AsmBuilder::new();
    b.addi(Reg::Sp, Reg::Sp, 2048, Reg::T0);
    assert_eq!(
        b.lines,
        vec![
            AsmLine::Li { dest: Reg::T0, imm: 2048 },
            AsmLine::Add { dest: Reg::Sp, opr1: Reg::Sp, opr2: Reg::T0 },
        ]
    );
    let mut b2 = AsmBuilder::new();
    b2.addi(Reg::T1, Reg::Sp, -2049, Reg::T2);
    assert_eq!(
        b2.lines,
        vec![
            AsmLine::Li { dest: Reg::T2, imm: -2049 },
            AsmLine::Add { dest: Reg::T1, opr1: Reg::Sp, opr2: Reg::T2 },
        ]
    );
}

#[test]
fn move_into_itself_is_elided() {
    let mut b = AsmBuilder::new();
    b.mv(Reg::T0, Reg::T0);
    assert_eq!(b.lines, vec![]);
    b.mv(Reg::A(3), Reg::A(3));
    assert_eq!(b.lines, vec![]);
}

#[test]
fn move_between_distinct_registers_is_one_line() {
    let mut b = AsmBuilder::new();
    b.mv(Reg::T0, Reg::T1);
    assert_eq!(b.lines, vec![AsmLine::Mv { dest: Reg::T0, src: Reg::T1 }]);
}

#[test]
fn store_word_in_range_is_direct() {
    let mut b = AsmBuilder::new();
    b.sw(Reg::T0, Reg::Sp, 100, Reg::T1);
    assert_eq!(
        b.lines,
        vec![AsmLine::Sw { src: Reg::T0, addr: Reg::Sp, offset: 100 }]
    );
}

#[test]
fn store_word_offset_3000_goes_through_scratch() {
    let mut b = AsmBuilder::new();
    b.sw(Reg::T0, Reg::Sp, 3000, Reg::T1);
    assert_eq!(
        b.lines,
        vec![
            AsmLine::Li { dest: Reg::T1, imm: 3000 },
            AsmLine::Add { dest: Reg::T1, opr1: Reg::Sp, opr2: Reg::T1 },
            AsmLine::Sw { src: Reg::T0, addr: Reg::T1, offset: 0 },
        ]
    );
}

#[test]
fn load_word_offset_3000_goes_through_scratch() {
    let mut b = AsmBuilder::new();
    b.lw(Reg::T0, Reg::Sp, 3000, Reg::T1);
    assert_eq!(
        b.lines,
        vec![
            AsmLine::Li { dest: Reg::T1, imm: 3000 },
            AsmLine::Add { dest: Reg::T1, opr1: Reg::Sp, opr2: Reg::T1 },
            AsmLine::Lw { dest: Reg::T0, addr: Reg::T1, offset: 0 },
        ]
    );
}

#[test]
fn no_emitted_memory_line_embeds_an_out_of_range_offset() {
    let mut b = AsmBuilder::new();
    b.sw(Reg::T0, Reg::Sp, 3000, Reg::T1);
    b.sw(Reg::T0, Reg::Sp, -4096, Reg::T1);
    b.lw(Reg::T0, Reg::Sp, 123456, Reg::T1);
    b.addi(Reg::Sp, Reg::Sp, 99999, Reg::T0);
    for line in &b.lines {
        match line {
            AsmLine::Sw { offset, .. } => assert!(-2048 <= *offset && *offset <= 2047),
            AsmLine::Lw { offset, .. } => assert!(-2048 <= *offset && *offset <= 2047),
            AsmLine::Addi { imm, .. } => assert!(-2048 <= *imm && *imm <= 2047),
            _ => {}
        }
    }
}

#[test]
fn jump_emits_the_target_label() {
    let mut b = AsmBuilder::new();
    let target = Label { hint: NameHint::End, id: 7 };
    b.j(target);
    assert_eq!(b.lines, vec![AsmLine::J { target }]);
}
