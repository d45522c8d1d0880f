use kira::emitter::{AsmBuilder, AsmLine, Reg};
use kira::values::{AsmValue, Slot};

#[test]
fn is_ptr_only_for_flagged_local_slots() {
    assert!(AsmValue::Local(Slot { offset: 4, is_ptr: true }).is_ptr());
    assert!(!AsmValue::Local(Slot { offset: 4, is_ptr: false }).is_ptr());
    assert!(!AsmValue::Const(3).is_ptr());
    assert!(!AsmValue::Global("x".to_string()).is_ptr());
    assert!(!AsmValue::Arg(0).is_ptr());
    assert!(!AsmValue::Void.is_ptr());
}

#[test]
fn write_to_const_materializes_a_load_immediate() {
    let mut b = AsmBuilder::new();
    AsmValue::Const(42).write_to(&mut b, Reg::A(0));
    assert_eq!(b.lines, vec![AsmLine::Li { dest: Reg::A(0), imm: 42 }]);
}

#[test]
fn write_to_local_loads_from_its_stack_slot() {
    let mut b = AsmBuilder::new();
    AsmValue::Local(Slot { offset: 8, is_ptr: false }).write_to(&mut b, Reg::T0);
    assert_eq!(
        b.lines,
        vec![AsmLine::Lw { dest: Reg::T0, addr: Reg::Sp, offset: 8 }]
    );
}

#[test]
fn write_to_global_addresses_then_loads() {
    let mut b = AsmBuilder::new();
    AsmValue::Global("counter".to_string()).write_to(&mut b, Reg::T0);
    assert_eq!(
        b.lines,
        vec![
            AsmLine::La { dest: Reg::T0, symbol: "counter".to_string() },
            AsmLine::Lw { dest: Reg::T0, addr: Reg::T0, offset: 0 },
        ]
    );
}

#[test]
fn read_from_global_addresses_through_scratch_then_stores() {
    let mut b = AsmBuilder::new();
    AsmValue::Global("counter".to_string()).read_from(&mut b, Reg::T0, Reg::T1);
    assert_eq!(
        b.lines,
        vec![
            AsmLine::La { dest: Reg::T1, symbol: "counter".to_string() },
            AsmLine::Sw { src: Reg::T0, addr: Reg::T1, offset: 0 },
        ]
    );
}

#[test]
fn read_from_void_emits_nothing() {
    let mut b = AsmBuilder::new();
    AsmValue::Void.read_from(&mut b, Reg::T0, Reg::T1);
    assert_eq!(b.lines, vec![]);
}

#[test]
fn arguments_below_eight_are_written_into_their_registers() {
    for i in 0..8 {
        let mut b = AsmBuilder::new();
        AsmValue::Arg(i).read_from(&mut b, Reg::T0, Reg::T1);
        assert_eq!(
            b.lines,
            vec![AsmLine::Mv { dest: Reg::A(i as u8), src: Reg::T0 }]
        );
    }
}

#[test]
fn arguments_from_eight_spill_to_increasing_caller_frame_offsets() {
    let mut last = -1;
    for i in 8..12 {
        let mut b = AsmBuilder::new();
        AsmValue::Arg(i).read_from(&mut b, Reg::T0, Reg::T1);
        let expected = ((i - 8) * 4) as i32;
        assert_eq!(
            b.lines,
            vec![AsmLine::Sw { src: Reg::T0, addr: Reg::Sp, offset: expected }]
        );
        assert!(expected > last);
        last = expected;
    }
}

#[test]
fn incoming_register_arguments_move_from_their_register() {
    let mut b = AsmBuilder::new();
    AsmValue::Arg(2).write_arg_to(&mut b, Reg::T0, 16);
    assert_eq!(b.lines, vec![AsmLine::Mv { dest: Reg::T0, src: Reg::A(2) }]);
}

#[test]
fn incoming_spilled_arguments_load_from_above_the_frame() {
    let mut b = AsmBuilder::new();
    AsmValue::Arg(8).write_arg_to(&mut b, Reg::T0, 16);
    assert_eq!(
        b.lines,
        vec![AsmLine::Lw { dest: Reg::T0, addr: Reg::Sp, offset: 16 }]
    );
    let mut b2 = AsmBuilder::new();
    AsmValue::Arg(10).write_arg_to(&mut b2, Reg::T0, 16);
    assert_eq!(
        b2.lines,
        vec![AsmLine::Lw { dest: Reg::T0, addr: Reg::Sp, offset: 24 }]
    );
}

#[test]
fn a_present_slot_converts_to_a_local_and_an_absent_one_to_void() {
    let slot = Slot { offset: 12, is_ptr: false };
    assert_eq!(AsmValue::from(Some(slot)), AsmValue::Local(slot));
    assert_eq!(AsmValue::from(None), AsmValue::Void);
}
