use kira::emitter::NameHint;
use kira::ir::{FunctionData, Program, ValueKind};
use kira::irgen::{FunctionInfo, Scopes};

#[test]
fn scopes_start_in_global_scope() {
    let s = Scopes::new();
    assert!(s.cur_func.is_none());
    assert!(s._is_global());
}

#[test]
fn an_open_function_context_leaves_global_scope() {
    let data = FunctionData::new("f".to_string(), true);
    let s = Scopes { cur_func: Some(FunctionInfo::new(data, 0, 1, None)) };
    assert!(!s._is_global());
}

#[test]
fn a_new_program_is_empty() {
    let p = Program::new();
    assert!(p.globals.is_empty());
    assert!(p.funcs.is_empty());
}

#[test]
fn the_builder_allocates_blocks_and_values_in_order() {
    let mut data = FunctionData::new("f".to_string(), true);
    assert_eq!(data.new_bb(NameHint::Entry), 0);
    assert_eq!(data.new_bb(NameHint::End), 1);
    assert_eq!(data.new_value(ValueKind::Alloc), 0);
    assert_eq!(data.new_value(ValueKind::Integer { value: 3 }), 1);
    assert_eq!(data.bbs.len(), 2);
    assert_eq!(data.bbs[0].name_hint, NameHint::Entry);
    assert!(data.bbs[0].insts.is_empty());
    assert_eq!(
        data.values,
        vec![ValueKind::Alloc, ValueKind::Integer { value: 3 }]
    );
    // Fresh blocks are not part of the layout until pushed.
    assert!(data.layout.is_empty());
}

#[test]
fn pushing_a_block_lays_it_out_and_makes_it_current() {
    let mut data = FunctionData::new("f".to_string(), true);
    let entry = data.new_bb(NameHint::Entry);
    let end = data.new_bb(NameHint::End);
    let mut info = FunctionInfo::new(data, entry, end, None);
    info.push_bb(entry);
    assert_eq!(info.cur, entry);
    let inst = info.new_value(ValueKind::Return { value: None });
    info.push_inst(inst);
    assert_eq!(info.data.layout, vec![entry]);
    assert_eq!(info.data.bbs[entry].insts, vec![inst]);
}

#[test]
fn sealing_the_entry_jumps_to_the_first_working_block() {
    let mut data = FunctionData::new("f".to_string(), true);
    let entry = data.new_bb(NameHint::Entry);
    let end = data.new_bb(NameHint::End);
    let work = data.new_bb(NameHint::Anon);
    let mut info = FunctionInfo::new(data, entry, end, None);
    info.push_bb(entry);
    info.push_bb(work);
    info.seal_entry(work);
    let jump = info.data.bbs[entry].insts[0];
    assert_eq!(info.data.values[jump], ValueKind::Jump { target: work });
}

#[test]
fn sealing_the_function_appends_the_end_block_with_load_and_return() {
    let mut data = FunctionData::new("f".to_string(), true);
    let entry = data.new_bb(NameHint::Entry);
    let end = data.new_bb(NameHint::End);
    let ret_val = data.new_value(ValueKind::Alloc);
    let mut info = FunctionInfo::new(data, entry, end, Some(ret_val));
    info.push_bb(entry);
    info.seal_func();
    assert_eq!(info.data.layout.last(), Some(&end));
    let insts = &info.data.bbs[end].insts;
    assert_eq!(insts.len(), 2);
    assert_eq!(info.data.values[insts[0]], ValueKind::Load { src: ret_val });
    assert_eq!(
        info.data.values[insts[1]],
        ValueKind::Return { value: Some(insts[0]) }
    );
}

#[test]
fn sealing_a_function_without_a_return_slot_returns_nothing() {
    let mut data = FunctionData::new("p".to_string(), false);
    let entry = data.new_bb(NameHint::Entry);
    let end = data.new_bb(NameHint::End);
    let mut info = FunctionInfo::new(data, entry, end, None);
    info.push_bb(entry);
    info.seal_func();
    let insts = &info.data.bbs[end].insts;
    assert_eq!(insts.len(), 1);
    assert_eq!(info.data.values[insts[0]], ValueKind::Return { value: None });
}
