use kira::emitter::{AsmBuilder, AsmLine, NameHint, Reg};
use kira::frame::build_function_info;
use kira::ir::{BasicBlockData, FunctionData, ValueKind};
use kira::values::Slot;

fn bb(insts: Vec<usize>) -> BasicBlockData {
    BasicBlockData { name_hint: NameHint::Anon, insts }
}

/// A function whose body stores a constant into an allocation and calls
/// another function with ten arguments.
fn calling_function() -> FunctionData {
    FunctionData {
        name: "f".to_string(),
        ret_int: false,
        values: vec![
            ValueKind::Alloc,
            ValueKind::Integer { value: 5 },
            ValueKind::Store { value: 1, dest: 0 },
            ValueKind::Load { src: 0 },
            ValueKind::Call { callee: 0, args: vec![3; 10] },
            ValueKind::Return { value: None },
        ],
        bbs: vec![bb(vec![2, 3, 4, 5])],
        layout: vec![0],
    }
}

#[test]
fn slots_go_only_to_used_local_instructions() {
    let f = calling_function();
    let (info, _) = build_function_info(&f, 0);
    // The allocation is used by the store and the load; the load by the call.
    assert!(info.slots[0].is_some());
    assert!(info.slots[3].is_some());
    // The constant is not a local instruction; store, call and return
    // produce no used value.
    assert_eq!(info.slots[1], None);
    assert_eq!(info.slots[2], None);
    assert_eq!(info.slots[4], None);
    assert_eq!(info.slots[5], None);
    assert_eq!(info.slot_count, 2);
}

#[test]
fn slot_offsets_are_distinct_and_increase_in_allocation_order() {
    let f = calling_function();
    let (info, _) = build_function_info(&f, 0);
    let offsets: Vec<u32> = info.slots.iter().filter_map(|s| *s).collect();
    assert_eq!(offsets, vec![0, 4]);
    for w in offsets.windows(2) {
        assert!(w[0] < w[1]);
    }
}

#[test]
fn calls_make_a_function_non_leaf_and_log_the_argument_maximum() {
    let f = calling_function();
    let (info, _) = build_function_info(&f, 0);
    assert!(!info.is_leaf());
    assert_eq!(info.max_args, 10);
    // Two slots, a return-address cell, and two spilled outgoing arguments,
    // rounded up to 16 bytes: 8 + 4 + 8 = 20 -> 32.
    assert_eq!(info.sp_offset(), 32);
    // Local slots sit just above the outgoing-argument area of 8 bytes.
    assert_eq!(
        info.slot_offset(0),
        Some(Slot { offset: 8, is_ptr: false })
    );
    assert_eq!(
        info.slot_offset(3),
        Some(Slot { offset: 12, is_ptr: false })
    );
}

#[test]
fn a_function_without_calls_is_a_leaf() {
    let f = FunctionData {
        name: "g".to_string(),
        ret_int: false,
        values: vec![
            ValueKind::Alloc,
            ValueKind::Integer { value: 1 },
            ValueKind::Store { value: 1, dest: 0 },
            ValueKind::Return { value: None },
        ],
        bbs: vec![bb(vec![2, 3])],
        layout: vec![0],
    };
    let (info, _) = build_function_info(&f, 0);
    assert!(info.is_leaf());
    assert_eq!(info.max_args, 0);
    // One slot and no return-address cell: 4 rounded up to 16.
    assert_eq!(info.sp_offset(), 16);
}

#[test]
fn a_function_with_no_storage_has_a_zero_frame() {
    let f = FunctionData {
        name: "h".to_string(),
        ret_int: false,
        values: vec![ValueKind::Return { value: None }],
        bbs: vec![bb(vec![0])],
        layout: vec![0],
    };
    let (info, _) = build_function_info(&f, 0);
    assert!(info.is_leaf());
    assert_eq!(info.sp_offset(), 0);
}

#[test]
fn labels_are_cached_per_block_and_globally_unique() {
    let f = FunctionData {
        name: "g".to_string(),
        ret_int: false,
        values: vec![],
        bbs: vec![
            BasicBlockData { name_hint: NameHint::Entry, insts: vec![] },
            BasicBlockData { name_hint: NameHint::End, insts: vec![] },
            bb(vec![]),
        ],
        layout: vec![0, 2, 1],
    };
    let (info, next) = build_function_info(&f, 40);
    assert_eq!(next, 43);
    assert_eq!(info.bb_name(0).hint, NameHint::Entry);
    assert_eq!(info.bb_name(0).id, 40);
    assert_eq!(info.bb_name(1).hint, NameHint::End);
    assert_eq!(info.bb_name(1).id, 41);
    assert_eq!(info.bb_name(2).hint, NameHint::Anon);
    assert_eq!(info.bb_name(2).id, 42);
}

#[test]
fn a_leaf_prologue_and_epilogue_never_touch_the_return_address() {
    let f = FunctionData {
        name: "g".to_string(),
        ret_int: false,
        values: vec![
            ValueKind::Alloc,
            ValueKind::Integer { value: 1 },
            ValueKind::Store { value: 1, dest: 0 },
            ValueKind::Return { value: None },
        ],
        bbs: vec![bb(vec![2, 3])],
        layout: vec![0],
    };
    let (info, _) = build_function_info(&f, 0);
    let mut b = AsmBuilder::new();
    b.prologue(&"g".to_string(), &info, Reg::T0);
    b.epilogue(&info, Reg::T0);
    for line in &b.lines {
        match line {
            AsmLine::Sw { src, .. } => assert_ne!(*src, Reg::Ra),
            AsmLine::Lw { dest, .. } => assert_ne!(*dest, Reg::Ra),
            _ => {}
        }
    }
}

#[test]
fn a_non_leaf_function_saves_and_restores_the_return_address_once() {
    let f = calling_function();
    let (info, _) = build_function_info(&f, 0);
    let mut b = AsmBuilder::new();
    b.prologue(&"f".to_string(), &info, Reg::T0);
    let saves = b
        .lines
        .iter()
        .filter(|l| matches!(l, AsmLine::Sw { src: Reg::Ra, .. }))
        .count();
    assert_eq!(saves, 1);
    // The save sits at the frame's highest offset.
    assert!(b
        .lines
        .contains(&AsmLine::Sw { src: Reg::Ra, addr: Reg::Sp, offset: 28 }));
    let mut e = AsmBuilder::new();
    e.epilogue(&info, Reg::T0);
    let restores = e
        .lines
        .iter()
        .filter(|l| matches!(l, AsmLine::Lw { dest: Reg::Ra, .. }))
        .count();
    assert_eq!(restores, 1);
    // The restore happens before the frame is deallocated, and `ret` is last.
    assert_eq!(
        e.lines,
        vec![
            AsmLine::Lw { dest: Reg::Ra, addr: Reg::Sp, offset: 28 },
            AsmLine::Addi { dest: Reg::Sp, opr: Reg::Sp, imm: 32 },
            AsmLine::Ret,
        ]
    );
}

#[test]
fn a_zero_frame_prologue_skips_the_stack_adjustment() {
    let f = FunctionData {
        name: "h".to_string(),
        ret_int: false,
        values: vec![ValueKind::Return { value: None }],
        bbs: vec![bb(vec![0])],
        layout: vec![0],
    };
    let (info, _) = build_function_info(&f, 0);
    let mut b = AsmBuilder::new();
    b.prologue(&"h".to_string(), &info, Reg::T0);
    assert_eq!(
        b.lines,
        vec![
            AsmLine::DirText,
            AsmLine::DirGlobl { symbol: "h".to_string() },
            AsmLine::NamedLabel { symbol: "h".to_string() },
        ]
    );
    let mut e = AsmBuilder::new();
    e.epilogue(&info, Reg::T0);
    assert_eq!(e.lines, vec![AsmLine::Ret]);
}
