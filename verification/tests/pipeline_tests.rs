use kira::ast::{Block, CompUnit, FuncDef, FuncType, Return, Stmt};
use kira::codegen::generate_asm;
use kira::emitter::{AsmBuilder, AsmLine, Label, NameHint, Reg};
use kira::values::{AsmValue, Slot};
use kira::ir::{BasicBlockData, FunctionData, GlobalData, Program, ValueKind};
use kira::irgen::generate_program;

fn main_ast(num: i32) -> CompUnit {
    CompUnit {
        func_def: FuncDef {
            func_type: FuncType::Int,
            ident: "main".to_string(),
            block: Block { stmt: Stmt::Return(Return { num }) },
        },
    }
}

#[test]
fn return_42_builds_the_sealed_ir() {
    let program = generate_program(&main_ast(42)).ok().unwrap();
    assert_eq!(program.globals.len(), 0);
    assert_eq!(program.funcs.len(), 1);
    let f = &program.funcs[0];
    assert_eq!(f.name, "main");
    assert!(f.ret_int);
    // One allocation for the return slot, a store of the constant 42 into
    // it, a jump to the end block, the entry seal, and the end block's load
    // and return.
    assert_eq!(
        f.values,
        vec![
            ValueKind::Alloc,
            ValueKind::Integer { value: 42 },
            ValueKind::Store { value: 1, dest: 0 },
            ValueKind::Jump { target: 1 },
            ValueKind::Jump { target: 2 },
            ValueKind::Load { src: 0 },
            ValueKind::Return { value: Some(5) },
        ]
    );
    assert_eq!(f.bbs.len(), 4);
    assert_eq!(f.bbs[0].name_hint, NameHint::Entry);
    assert_eq!(f.bbs[0].insts, vec![0, 4]);
    assert_eq!(f.bbs[1].name_hint, NameHint::End);
    assert_eq!(f.bbs[1].insts, vec![5, 6]);
    assert_eq!(f.bbs[2].name_hint, NameHint::Anon);
    assert_eq!(f.bbs[2].insts, vec![2, 3]);
    // The dangling block pushed after the return stays, empty and
    // unreachable, so a later statement would still have a target.
    assert_eq!(f.bbs[3].name_hint, NameHint::Anon);
    assert_eq!(f.bbs[3].insts, vec![]);
    assert_eq!(f.layout, vec![0, 2, 3, 1]);
}

#[test]
fn return_42_lowers_to_the_full_assembly() {
    let program = generate_program(&main_ast(42)).ok().unwrap();
    let out = generate_asm(&program);
    let entry = Label { hint: NameHint::Entry, id: 0 };
    let end = Label { hint: NameHint::End, id: 1 };
    let work = Label { hint: NameHint::Anon, id: 2 };
    let dangling = Label { hint: NameHint::Anon, id: 3 };
    assert_eq!(
        out.lines,
        vec![
            AsmLine::DirText,
            AsmLine::DirGlobl { symbol: "main".to_string() },
            AsmLine::NamedLabel { symbol: "main".to_string() },
            // Two slots: the return cell and the end block's load.
            AsmLine::Addi { dest: Reg::Sp, opr: Reg::Sp, imm: -16 },
            AsmLine::BlockLabel { label: entry },
            AsmLine::J { target: work },
            AsmLine::BlockLabel { label: work },
            AsmLine::Li { dest: Reg::T0, imm: 42 },
            AsmLine::Sw { src: Reg::T0, addr: Reg::Sp, offset: 0 },
            AsmLine::J { target: end },
            AsmLine::BlockLabel { label: dangling },
            AsmLine::BlockLabel { label: end },
            AsmLine::Lw { dest: Reg::T0, addr: Reg::Sp, offset: 0 },
            AsmLine::Sw { src: Reg::T0, addr: Reg::Sp, offset: 4 },
            // The returned value is materialized into a0 before the ret.
            AsmLine::Lw { dest: Reg::A(0), addr: Reg::Sp, offset: 4 },
            AsmLine::Addi { dest: Reg::Sp, opr: Reg::Sp, imm: 16 },
            AsmLine::Ret,
        ]
    );
}

#[test]
fn the_returned_literal_flows_into_the_emitted_store() {
    let program = generate_program(&main_ast(7)).ok().unwrap();
    let out = generate_asm(&program);
    assert!(out.lines.contains(&AsmLine::Li { dest: Reg::T0, imm: 7 }));
    assert!(!out.lines.contains(&AsmLine::Li { dest: Reg::T0, imm: 42 }));
    assert_eq!(out.lines.last(), Some(&AsmLine::Ret));
}

#[test]
fn globals_are_emitted_before_functions_under_data_directives() {
    let program = Program {
        globals: vec![GlobalData { name: "counter".to_string(), init: 7 }],
        funcs: vec![],
    };
    let out = generate_asm(&program);
    assert_eq!(
        out.lines,
        vec![
            AsmLine::DirData,
            AsmLine::DirGlobl { symbol: "counter".to_string() },
            AsmLine::NamedLabel { symbol: "counter".to_string() },
            AsmLine::Word { value: 7 },
            AsmLine::Blank,
        ]
    );
}

#[test]
fn a_function_declaration_produces_no_code() {
    let program = Program {
        globals: vec![],
        funcs: vec![FunctionData {
            name: "external".to_string(),
            ret_int: true,
            values: vec![],
            bbs: vec![],
            layout: vec![],
        }],
    };
    let out = generate_asm(&program);
    assert_eq!(out.lines, vec![]);
}

#[test]
fn storing_a_spilled_argument_reads_it_from_above_the_frame() {
    // One block: store incoming argument number 9 into a local cell.
    let program = Program {
        globals: vec![],
        funcs: vec![FunctionData {
            name: "f".to_string(),
            ret_int: false,
            values: vec![
                ValueKind::Alloc,
                ValueKind::FuncArgRef { index: 9 },
                ValueKind::Store { value: 1, dest: 0 },
                ValueKind::Return { value: None },
            ],
            bbs: vec![BasicBlockData { name_hint: NameHint::Anon, insts: vec![2, 3] }],
            layout: vec![0],
        }],
    };
    let out = generate_asm(&program);
    assert_eq!(
        out.lines,
        vec![
            AsmLine::DirText,
            AsmLine::DirGlobl { symbol: "f".to_string() },
            AsmLine::NamedLabel { symbol: "f".to_string() },
            AsmLine::Addi { dest: Reg::Sp, opr: Reg::Sp, imm: -16 },
            AsmLine::BlockLabel { label: Label { hint: NameHint::Anon, id: 0 } },
            // Argument 9 lives in the caller's frame, one word above this
            // function's 16-byte frame.
            AsmLine::Lw { dest: Reg::T0, addr: Reg::Sp, offset: 20 },
            AsmLine::Sw { src: Reg::T0, addr: Reg::Sp, offset: 0 },
            AsmLine::Addi { dest: Reg::Sp, opr: Reg::Sp, imm: 16 },
            AsmLine::Ret,
        ]
    );
}

#[test]
fn a_call_marks_the_function_non_leaf_and_saves_the_return_address() {
    let program = Program {
        globals: vec![],
        funcs: vec![FunctionData {
            name: "f".to_string(),
            ret_int: false,
            values: vec![
                ValueKind::Call { callee: 0, args: vec![] },
                ValueKind::Return { value: None },
            ],
            bbs: vec![BasicBlockData { name_hint: NameHint::Anon, insts: vec![0, 1] }],
            layout: vec![0],
        }],
    };
    let out = generate_asm(&program);
    assert_eq!(
        out.lines,
        vec![
            AsmLine::DirText,
            AsmLine::DirGlobl { symbol: "f".to_string() },
            AsmLine::NamedLabel { symbol: "f".to_string() },
            AsmLine::Addi { dest: Reg::Sp, opr: Reg::Sp, imm: -16 },
            AsmLine::Sw { src: Reg::Ra, addr: Reg::Sp, offset: 12 },
            AsmLine::BlockLabel { label: Label { hint: NameHint::Anon, id: 0 } },
            AsmLine::Lw { dest: Reg::Ra, addr: Reg::Sp, offset: 12 },
            AsmLine::Addi { dest: Reg::Sp, opr: Reg::Sp, imm: 16 },
            AsmLine::Ret,
        ]
    );
}

#[test]
fn a_large_outgoing_argument_area_forces_scratch_register_addressing() {
    // A call with 800 arguments reserves (800 - 8) * 4 = 3168 bytes of
    // outgoing-argument area, pushing every local slot past the 12-bit
    // immediate range.
    let program = Program {
        globals: vec![],
        funcs: vec![FunctionData {
            name: "f".to_string(),
            ret_int: false,
            values: vec![
                ValueKind::Alloc,
                ValueKind::Integer { value: 5 },
                ValueKind::Store { value: 1, dest: 0 },
                ValueKind::Call { callee: 0, args: vec![0; 800] },
                ValueKind::Return { value: None },
            ],
            bbs: vec![BasicBlockData { name_hint: NameHint::Anon, insts: vec![2, 3, 4] }],
            layout: vec![0],
        }],
    };
    let out = generate_asm(&program);
    // Frame: 3168 + 4 (slot) + 4 (return address), rounded to 3184.
    assert_eq!(
        out.lines,
        vec![
            AsmLine::DirText,
            AsmLine::DirGlobl { symbol: "f".to_string() },
            AsmLine::NamedLabel { symbol: "f".to_string() },
            AsmLine::Li { dest: Reg::T0, imm: -3184 },
            AsmLine::Add { dest: Reg::Sp, opr1: Reg::Sp, opr2: Reg::T0 },
            AsmLine::Li { dest: Reg::T0, imm: 3180 },
            AsmLine::Add { dest: Reg::T0, opr1: Reg::Sp, opr2: Reg::T0 },
            AsmLine::Sw { src: Reg::Ra, addr: Reg::T0, offset: 0 },
            AsmLine::BlockLabel { label: Label { hint: NameHint::Anon, id: 0 } },
            AsmLine::Li { dest: Reg::T0, imm: 5 },
            AsmLine::Li { dest: Reg::T1, imm: 3168 },
            AsmLine::Add { dest: Reg::T1, opr1: Reg::Sp, opr2: Reg::T1 },
            AsmLine::Sw { src: Reg::T0, addr: Reg::T1, offset: 0 },
            AsmLine::Li { dest: Reg::T0, imm: 3180 },
            AsmLine::Add { dest: Reg::T0, opr1: Reg::Sp, opr2: Reg::T0 },
            AsmLine::Lw { dest: Reg::Ra, addr: Reg::T0, offset: 0 },
            AsmLine::Li { dest: Reg::T0, imm: 3184 },
            AsmLine::Add { dest: Reg::Sp, opr1: Reg::Sp, opr2: Reg::T0 },
            AsmLine::Ret,
        ]
    );
    for line in &out.lines {
        match line {
            AsmLine::Sw { offset, .. } => assert!(-2048 <= *offset && *offset <= 2047),
            AsmLine::Lw { offset, .. } => assert!(-2048 <= *offset && *offset <= 2047),
            AsmLine::Addi { imm, .. } => assert!(-2048 <= *imm && *imm <= 2047),
            _ => {}
        }
    }
}

#[test]
fn loading_through_a_pointer_dereferences_once_more() {
    // A hand-marked pointer slot goes through one extra indirection.
    let mut b = AsmBuilder::new();
    let ptr = AsmValue::Local(Slot { offset: 4, is_ptr: true });
    ptr.write_to(&mut b, Reg::T0);
    if ptr.is_ptr() {
        b.lw(Reg::T0, Reg::T0, 0, Reg::T1);
    }
    assert_eq!(
        b.lines,
        vec![
            AsmLine::Lw { dest: Reg::T0, addr: Reg::Sp, offset: 4 },
            AsmLine::Lw { dest: Reg::T0, addr: Reg::T0, offset: 0 },
        ]
    );
}
