//! The IR builder and block sealer: consumes one source statement at a time
//! against an open function context and never leaves a block without a
//! terminator. Malformed input is not a runtime condition here — the front
//! end guarantees only well-formed constructs arrive — so this layer has no
//! recoverable failures.

use vstd::prelude::*;

use crate::ast::{stmt_num, Block, CompUnit, FuncDef, FuncType, Stmt};
use crate::emitter::NameHint;
use crate::ir::{BasicBlockData, FunctionData, Program, ValueKind};

verus! {

/// Error returned by the IR generator. No failure is recoverable at this
/// layer — the front end guarantees that only well-formed constructs arrive
/// — so no generator function ever constructs this type.
#[derive(Clone, Copy, PartialEq, Eq, Structural, Debug)]
pub enum Error {
    /// A condition that the front end rules out by construction.
    Unreachable,
}

/// Per-function bookkeeping of the builder: the function under
/// construction, its distinguished entry and end blocks, the current
/// insertion block, and the return-value storage, if any.
pub struct FunctionInfo {
    /// The function under construction.
    pub data: FunctionData,
    /// Handle of the entry block.
    pub entry: usize,
    /// Handle of the end block.
    pub end: usize,
    /// Handle of the block that new instructions attach to.
    pub cur: usize,
    /// Handle of the stack cell for the return value, if the function
    /// returns an integer.
    pub ret_val: Option<usize>,
}

impl FunctionInfo {
    /// Opens a function context over freshly created blocks.
    pub fn new(data: FunctionData, entry: usize, end: usize, ret_val: Option<usize>) -> (r:
        FunctionInfo)
        ensures
            r.data == data,
            r.entry == entry,
            r.end == end,
            r.cur == entry,
            r.ret_val == ret_val,
    {
        FunctionInfo { data, entry, end, cur: entry, ret_val }
    }

    /// Appends the block to the function's layout and makes it current.
    pub fn push_bb(&mut self, bb: usize)
        requires
            bb < old(self).data.bbs.len(),
        ensures
            final(self).data.layout@ == old(self).data.layout@.push(bb),
            final(self).cur == bb,
            final(self).data.name == old(self).data.name,
            final(self).data.ret_int == old(self).data.ret_int,
            final(self).data.values == old(self).data.values,
            final(self).data.bbs == old(self).data.bbs,
            final(self).entry == old(self).entry,
            final(self).end == old(self).end,
            final(self).ret_val == old(self).ret_val,
    {
        self.data.layout.push(bb);
        self.cur = bb;
    }

    /// Appends the instruction to the current block.
    pub fn push_inst(&mut self, inst: usize)
        requires
            old(self).cur < old(self).data.bbs.len(),
        ensures
            final(self).data.bbs.len() == old(self).data.bbs.len(),
            final(self).data.bbs@[old(self).cur as int].insts@ == old(self).data.bbs@[old(self).cur as int].insts@.push(inst),
            final(self).data.bbs@[old(self).cur as int].name_hint == old(self).data.bbs@[old(self).cur as int].name_hint,
            forall|k: int|
                0 <= k < old(self).data.bbs.len() && k != old(self).cur ==> final(self).data.bbs@[k] == old(self).data.bbs@[k],
            final(self).data.name == old(self).data.name,
            final(self).data.ret_int == old(self).data.ret_int,
            final(self).data.values == old(self).data.values,
            final(self).data.layout == old(self).data.layout,
            final(self).entry == old(self).entry,
            final(self).end == old(self).end,
            final(self).cur == old(self).cur,
            final(self).ret_val == old(self).ret_val,
    {
        let bbref = &mut self.data.bbs[self.cur];
        bbref.insts.push(inst);
    }

    /// Allocates a fresh block in the arena, not yet laid out.
    pub fn new_bb(&mut self, hint: NameHint) -> (bb: usize)
        ensures
            bb == old(self).data.bbs.len(),
            final(self).data.bbs.len() == old(self).data.bbs.len() + 1,
            final(self).data.bbs@[bb as int].name_hint == hint,
            final(self).data.bbs@[bb as int].insts@ == Seq::<usize>::empty(),
            forall|k: int| 0 <= k < bb ==> final(self).data.bbs@[k] == old(self).data.bbs@[k],
            final(self).data.name == old(self).data.name,
            final(self).data.ret_int == old(self).data.ret_int,
            final(self).data.values == old(self).data.values,
            final(self).data.layout == old(self).data.layout,
            final(self).entry == old(self).entry,
            final(self).end == old(self).end,
            final(self).cur == old(self).cur,
            final(self).ret_val == old(self).ret_val,
    {
        self.data.new_bb(hint)
    }

    /// Allocates a fresh value in the arena.
    pub fn new_value(&mut self, k: ValueKind) -> (v: usize)
        ensures
            v == old(self).data.values.len(),
            final(self).data.values@ == old(self).data.values@.push(k),
            final(self).data.name == old(self).data.name,
            final(self).data.ret_int == old(self).data.ret_int,
            final(self).data.bbs == old(self).data.bbs,
            final(self).data.layout == old(self).data.layout,
            final(self).entry == old(self).entry,
            final(self).end == old(self).end,
            final(self).cur == old(self).cur,
            final(self).ret_val == old(self).ret_val,
    {
        self.data.new_value(k)
    }

    /// Seals the entry block: connects it to the original working block
    /// with an unconditional jump, so the entry ends in a terminator.
    pub fn seal_entry(&mut self, first: usize)
        requires
            old(self).entry < old(self).data.bbs.len(),
        ensures
            final(self).data.values@ == old(self).data.values@.push(
                ValueKind::Jump { target: first },
            ),
            final(self).data.bbs.len() == old(self).data.bbs.len(),
            final(self).data.bbs@[old(self).entry as int].insts@ == old(self).data.bbs@[old(self).entry as int].insts@.push(old(self).data.values.len()),
            final(self).data.bbs@[old(self).entry as int].name_hint == old(self).data.bbs@[old(self).entry as int].name_hint,
            forall|k: int|
                0 <= k < old(self).data.bbs.len() && k != old(self).entry ==> final(self).data.bbs@[k] == old(self).data.bbs@[k],
            final(self).data.name == old(self).data.name,
            final(self).data.ret_int == old(self).data.ret_int,
            final(self).data.layout == old(self).data.layout,
            final(self).entry == old(self).entry,
            final(self).end == old(self).end,
            final(self).cur == old(self).cur,
            final(self).ret_val == old(self).ret_val,
    {
        let jump = self.data.new_value(ValueKind::Jump { target: first });
        let bbref = &mut self.data.bbs[self.entry];
        bbref.insts.push(jump);
    }

    /// Seals the function: appends the end block as the final block of the
    /// layout and fills it with the return-value load (when the function
    /// returns an integer) and the return instruction.
    pub fn seal_func(&mut self)
        requires
            old(self).end < old(self).data.bbs.len(),
            old(self).ret_val matches Some(rv) ==> rv < old(self).data.values.len(),
        ensures
            final(self).data.layout@ == old(self).data.layout@.push(old(self).end),
            final(self).data.bbs.len() == old(self).data.bbs.len(),
            final(self).data.bbs@[old(self).end as int].name_hint == old(self).data.bbs@[old(self).end as int].name_hint,
            forall|k: int|
                0 <= k < old(self).data.bbs.len() && k != old(self).end ==> final(self).data.bbs@[k] == old(self).data.bbs@[k],
            (match old(self).ret_val {
                Some(rv) => {
                    &&& final(self).data.values@ == old(self).data.values@.push(
                        ValueKind::Load { src: rv },
                    ).push(
                        ValueKind::Return {
                            value: Some((old(self).data.values.len()) as usize),
                        },
                    )
                    &&& final(self).data.bbs@[old(self).end as int].insts@ == old(self).data.bbs@[old(self).end as int].insts@.push(old(self).data.values.len()).push(
                        (old(self).data.values.len() + 1) as usize,
                    )
                },
                None => {
                    &&& final(self).data.values@ == old(self).data.values@.push(
                        ValueKind::Return { value: None },
                    )
                    &&& final(self).data.bbs@[old(self).end as int].insts@ == old(self).data.bbs@[old(self).end as int].insts@.push(old(self).data.values.len())
                },
            }),
            final(self).data.name == old(self).data.name,
            final(self).data.ret_int == old(self).data.ret_int,
            final(self).entry == old(self).entry,
            final(self).end == old(self).end,
            final(self).ret_val == old(self).ret_val,
    {
        let end = self.end;
        self.push_bb(end);
        match self.ret_val {
            Some(rv) => {
                let load = self.data.new_value(ValueKind::Load { src: rv });
                self.push_inst(load);
                let ret = self.data.new_value(ValueKind::Return { value: Some(load) });
                self.push_inst(ret);
            },
            None => {
                let ret = self.data.new_value(ValueKind::Return { value: None });
                self.push_inst(ret);
            },
        }
    }
}

/// The exact function that the builder protocol produces for a definition
/// `ident` whose body is a single return of `num`: the entry block holds the
/// return-slot allocation and the jump that seals it into the first working
/// block; the working block stores the literal into the slot and jumps to
/// the end block; one fresh working block is left dangling — intentionally
/// unreachable, so any further statement still has a target — and the end
/// block loads the slot and returns it.
pub open spec fn main_ir_shape(fd: FunctionData, ident: String, num: i32) -> bool {
    &&& fd.name == ident
    &&& fd.ret_int == true
    &&& fd.values@ == seq![
        ValueKind::Alloc,
        ValueKind::Integer { value: num },
        ValueKind::Store { value: 1usize, dest: 0usize },
        ValueKind::Jump { target: 1usize },
        ValueKind::Jump { target: 2usize },
        ValueKind::Load { src: 0usize },
        ValueKind::Return { value: Some(5usize) },
    ]
    &&& fd.bbs.len() == 4
    &&& fd.bbs@[0].name_hint == NameHint::Entry
    &&& fd.bbs@[0].insts@ == seq![0usize, 4usize]
    &&& fd.bbs@[1].name_hint == NameHint::End
    &&& fd.bbs@[1].insts@ == seq![5usize, 6usize]
    &&& fd.bbs@[2].name_hint == NameHint::Anon
    &&& fd.bbs@[2].insts@ == seq![2usize, 3usize]
    &&& fd.bbs@[3].name_hint == NameHint::Anon
    &&& fd.bbs@[3].insts@ == Seq::<usize>::empty()
    &&& fd.layout@ == seq![0usize, 2usize, 3usize, 1usize]
}

/// Generates the type a function returns. The only source-level type is the
/// integer.
pub fn generate_func_type(ft: &FuncType) -> (r: bool)
    ensures
        r == true,
{
    match ft {
        FuncType::Int => true,
    }
}

/// Lowers a return statement: stores the returned literal into the return
/// slot (when one exists), always jumps to the end block, and pushes a new
/// working block as current — even though it is provably unreachable — so
/// that any subsequent statement still has somewhere to attach.
pub fn generate_return(r: &crate::ast::Return, scopes: &mut Scopes)
    requires
        old(scopes).cur_func matches Some(o) && o.cur < o.data.bbs.len() && o.end
            < o.data.bbs.len() && (o.ret_val matches Some(rv) ==> rv < o.data.values.len()),
    ensures
        old(scopes).cur_func matches Some(o) ==> (final(scopes).cur_func matches Some(n) && {
            let vlen = o.data.values.len() as usize;
            let nb = o.data.bbs.len() as usize;
            &&& n.data.name == o.data.name
            &&& n.data.ret_int == o.data.ret_int
            &&& n.entry == o.entry
            &&& n.end == o.end
            &&& n.ret_val == o.ret_val
            &&& n.cur == nb
            &&& n.data.layout@ == o.data.layout@.push(nb)
            &&& n.data.bbs.len() == o.data.bbs.len() + 1
            &&& n.data.bbs@[nb as int].name_hint == NameHint::Anon
            &&& n.data.bbs@[nb as int].insts@ == Seq::<usize>::empty()
            &&& forall|k: int|
                0 <= k < o.data.bbs.len() && k != o.cur ==> n.data.bbs@[k] == o.data.bbs@[k]
            &&& n.data.bbs@[o.cur as int].name_hint == o.data.bbs@[o.cur as int].name_hint
            &&& (match o.ret_val {
                Some(rv) => {
                    &&& n.data.values@ == o.data.values@ + seq![
                        ValueKind::Integer { value: r.num },
                        ValueKind::Store { value: vlen, dest: rv },
                        ValueKind::Jump { target: o.end },
                    ]
                    &&& n.data.bbs@[o.cur as int].insts@ == o.data.bbs@[o.cur as int].insts@
                        + seq![(vlen + 1) as usize, (vlen + 2) as usize]
                },
                None => {
                    &&& n.data.values@ == o.data.values@ + seq![
                        ValueKind::Jump { target: o.end },
                    ]
                    &&& n.data.bbs@[o.cur as int].insts@ == o.data.bbs@[o.cur as int].insts@.push(
                        vlen,
                    )
                },
            })
        }),
{
    match &mut scopes.cur_func {
        Some(info) => {
            match info.ret_val {
                Some(rv) => {
                    let value = info.new_value(ValueKind::Integer { value: r.num });
                    let store = info.new_value(ValueKind::Store { value, dest: rv });
                    info.push_inst(store);
                },
                None => {},
            }
            let end = info.end;
            let jump = info.new_value(ValueKind::Jump { target: end });
            info.push_inst(jump);
            let next = info.new_bb(NameHint::Anon);
            info.push_bb(next);
            proof {
                let o = old(scopes).cur_func->Some_0;
                match o.ret_val {
                    Some(rv) => {
                        assert(info.data.values@ =~= o.data.values@ + seq![
                            ValueKind::Integer { value: r.num },
                            ValueKind::Store { value: o.data.values.len() as usize, dest: rv },
                            ValueKind::Jump { target: o.end },
                        ]);
                        assert(info.data.bbs@[o.cur as int].insts@ =~= o.data.bbs@[o.cur as int].insts@
                            + seq![
                            (o.data.values.len() + 1) as usize,
                            (o.data.values.len() + 2) as usize,
                        ]);
                    },
                    None => {},
                }
            }
        },
        None => {
            proof {
                assert(false);
            }
        },
    }
}

/// Lowers a statement against the open function context.
pub fn generate_stmt(s: &Stmt, scopes: &mut Scopes)
    requires
        old(scopes).cur_func matches Some(o) && o.cur < o.data.bbs.len() && o.end
            < o.data.bbs.len() && (o.ret_val matches Some(rv) ==> rv < o.data.values.len()),
    ensures
        old(scopes).cur_func matches Some(o) ==> (final(scopes).cur_func matches Some(n) && {
            let vlen = o.data.values.len() as usize;
            let nb = o.data.bbs.len() as usize;
            &&& n.data.name == o.data.name
            &&& n.data.ret_int == o.data.ret_int
            &&& n.entry == o.entry
            &&& n.end == o.end
            &&& n.ret_val == o.ret_val
            &&& n.cur == nb
            &&& n.data.layout@ == o.data.layout@.push(nb)
            &&& n.data.bbs.len() == o.data.bbs.len() + 1
            &&& n.data.bbs@[nb as int].name_hint == NameHint::Anon
            &&& n.data.bbs@[nb as int].insts@ == Seq::<usize>::empty()
            &&& forall|k: int|
                0 <= k < o.data.bbs.len() && k != o.cur ==> n.data.bbs@[k] == o.data.bbs@[k]
            &&& n.data.bbs@[o.cur as int].name_hint == o.data.bbs@[o.cur as int].name_hint
            &&& (match o.ret_val {
                Some(rv) => {
                    &&& n.data.values@ == o.data.values@ + seq![
                        ValueKind::Integer { value: stmt_num(*s) },
                        ValueKind::Store { value: vlen, dest: rv },
                        ValueKind::Jump { target: o.end },
                    ]
                    &&& n.data.bbs@[o.cur as int].insts@ == o.data.bbs@[o.cur as int].insts@
                        + seq![(vlen + 1) as usize, (vlen + 2) as usize]
                },
                None => {
                    &&& n.data.values@ == o.data.values@ + seq![
                        ValueKind::Jump { target: o.end },
                    ]
                    &&& n.data.bbs@[o.cur as int].insts@ == o.data.bbs@[o.cur as int].insts@.push(
                        vlen,
                    )
                },
            })
        }),
{
    match s {
        Stmt::Return(r) => generate_return(r, scopes),
    }
}

/// Lowers a braced block: its one statement.
pub fn generate_block(b: &Block, scopes: &mut Scopes)
    requires
        old(scopes).cur_func matches Some(o) && o.cur < o.data.bbs.len() && o.end
            < o.data.bbs.len() && (o.ret_val matches Some(rv) ==> rv < o.data.values.len()),
    ensures
        old(scopes).cur_func matches Some(o) ==> (final(scopes).cur_func matches Some(n) && {
            let vlen = o.data.values.len() as usize;
            let nb = o.data.bbs.len() as usize;
            &&& n.data.name == o.data.name
            &&& n.data.ret_int == o.data.ret_int
            &&& n.entry == o.entry
            &&& n.end == o.end
            &&& n.ret_val == o.ret_val
            &&& n.cur == nb
            &&& n.data.layout@ == o.data.layout@.push(nb)
            &&& n.data.bbs.len() == o.data.bbs.len() + 1
            &&& n.data.bbs@[nb as int].name_hint == NameHint::Anon
            &&& n.data.bbs@[nb as int].insts@ == Seq::<usize>::empty()
            &&& forall|k: int|
                0 <= k < o.data.bbs.len() && k != o.cur ==> n.data.bbs@[k] == o.data.bbs@[k]
            &&& n.data.bbs@[o.cur as int].name_hint == o.data.bbs@[o.cur as int].name_hint
            &&& (match o.ret_val {
                Some(rv) => {
                    &&& n.data.values@ == o.data.values@ + seq![
                        ValueKind::Integer { value: stmt_num(b.stmt) },
                        ValueKind::Store { value: vlen, dest: rv },
                        ValueKind::Jump { target: o.end },
                    ]
                    &&& n.data.bbs@[o.cur as int].insts@ == o.data.bbs@[o.cur as int].insts@
                        + seq![(vlen + 1) as usize, (vlen + 2) as usize]
                },
                None => {
                    &&& n.data.values@ == o.data.values@ + seq![
                        ValueKind::Jump { target: o.end },
                    ]
                    &&& n.data.bbs@[o.cur as int].insts@ == o.data.bbs@[o.cur as int].insts@.push(
                        vlen,
                    )
                },
            })
        }),
{
    generate_stmt(&b.stmt, scopes);
}

/// Lowers a function definition: creates the entry, end and first working
/// blocks, allocates the return-value cell, lowers the body, then seals the
/// entry block and the function so no block in the layout is left without a
/// terminator.
pub fn generate_func_def(f: &FuncDef, program: &mut Program, scopes: &mut Scopes) -> (r: Result<
    (),
    Error,
>)
    ensures
        r matches Ok(u) && u == (),
        final(program).globals == old(program).globals,
        final(program).funcs.len() == old(program).funcs.len() + 1,
        forall|k: int|
            0 <= k < old(program).funcs.len() ==> final(program).funcs@[k] == old(
                program,
            ).funcs@[k],
        main_ir_shape(
            final(program).funcs@[old(program).funcs.len() as int],
            f.ident,
            stmt_num(f.block.stmt),
        ),
        final(scopes).cur_func is None,
{
    // Create the new function.
    let ret_int = generate_func_type(&f.func_type);
    let mut data = FunctionData::new(f.ident.clone(), ret_int);

    // Generate the entry/end/current blocks, in that order.
    let entry = data.new_bb(NameHint::Entry);
    let end = data.new_bb(NameHint::End);
    let cur = data.new_bb(NameHint::Anon);

    // Generate the return value's stack cell.
    let mut ret_val: Option<usize> = None;
    if matches!(f.func_type, FuncType::Int) {
        let alloc = data.new_value(ValueKind::Alloc);
        ret_val = Some(alloc);
    }

    // Update the function information.
    let mut info = FunctionInfo::new(data, entry, end, ret_val);
    info.push_bb(entry);
    match info.ret_val {
        Some(rv) => info.push_inst(rv),
        None => {},
    }
    info.push_bb(cur);

    // Update the scope and generate the function body.
    scopes.cur_func = Some(info);
    generate_block(&f.block, scopes);

    // Handle the entry and end basic blocks.
    let info_opt = scopes.cur_func.take();
    let mut info = match info_opt {
        Some(i) => i,
        None => vstd::pervasive::unreached(),
    };
    info.seal_entry(cur);
    info.seal_func();
    let FunctionInfo { data, .. } = info;
    proof {
        assert(main_ir_shape(data, f.ident, stmt_num(f.block.stmt))) by {
            assert(data.values@ =~= seq![
                ValueKind::Alloc,
                ValueKind::Integer { value: stmt_num(f.block.stmt) },
                ValueKind::Store { value: 1usize, dest: 0usize },
                ValueKind::Jump { target: 1usize },
                ValueKind::Jump { target: 2usize },
                ValueKind::Load { src: 0usize },
                ValueKind::Return { value: Some(5usize) },
            ]);
            assert(data.bbs@[0].insts@ =~= seq![0usize, 4usize]);
            assert(data.bbs@[1].insts@ =~= seq![5usize, 6usize]);
            assert(data.bbs@[2].insts@ =~= seq![2usize, 3usize]);
            assert(data.bbs@[3].insts@ =~= Seq::<usize>::empty());
            assert(data.layout@ =~= seq![0usize, 2usize, 3usize, 1usize]);
        };
    }
    program.funcs.push(data);
    Ok(())
}

/// Lowers a whole compile unit: its one function definition.
pub fn generate_comp_unit(c: &CompUnit, program: &mut Program, scopes: &mut Scopes) -> (r: Result<
    (),
    Error,
>)
    ensures
        r matches Ok(u) && u == (),
        final(program).globals == old(program).globals,
        final(program).funcs.len() == old(program).funcs.len() + 1,
        forall|k: int|
            0 <= k < old(program).funcs.len() ==> final(program).funcs@[k] == old(
                program,
            ).funcs@[k],
        main_ir_shape(
            final(program).funcs@[old(program).funcs.len() as int],
            c.func_def.ident,
            stmt_num(c.func_def.block.stmt),
        ),
        final(scopes).cur_func is None,
{
    generate_func_def(&c.func_def, program, scopes)
}

/// The produced function is well-formed, safe for the generator's dispatch,
/// and a leaf whose two stored values give it a 16-byte frame.
pub proof fn lemma_main_shape_wf(fd: FunctionData, ident: String, num: i32, n_globals: int, n_funcs: int)
    requires
        main_ir_shape(fd, ident, num),
        n_globals >= 0,
        n_funcs >= 0,
    ensures
        crate::ir::func_wf(fd, n_globals, n_funcs),
        crate::ir::codegen_safe(fd),
{
    assert forall|v: int| 0 <= v < fd.values.len() implies crate::ir::kind_wf(
        #[trigger] fd.values@[v],
        fd.values.len() as int,
        fd.bbs.len() as int,
        n_globals,
        n_funcs,
    ) by {
        if v == 0 {
        } else if v == 1 {
        } else if v == 2 {
        } else if v == 3 {
        } else if v == 4 {
        } else if v == 5 {
        } else {
            assert(v == 6);
        }
    }
    assert forall|b: int, i: int|
        0 <= b < fd.bbs.len() && 0 <= i < fd.bbs@[b].insts.len() implies #[trigger] fd.bbs@[b].insts@[i]
        < fd.values.len() by {
        if b == 0 {
        } else if b == 1 {
        } else if b == 2 {
        } else {
            assert(b == 3);
        }
    }
    assert forall|v: int| 0 <= v < fd.values.len() implies #[trigger] crate::ir::safe_inst(
        fd,
        v,
    ) by {
        if v == 0 {
        } else if v == 1 {
        } else if v == 2 {
        } else if v == 3 {
        } else if v == 4 {
        } else if v == 5 {
        } else {
            assert(v == 6);
        }
    }
}

/// Generates the IR program for the given compile unit. The produced
/// program holds exactly one function of the shape the builder protocol
/// gives a single-return definition, is well-formed, and is safe for the
/// generator's dispatch.
pub fn generate_program(comp_unit: &CompUnit) -> (r: Result<Program, Error>)
    ensures
        r matches Ok(p) && {
            &&& p.globals.len() == 0
            &&& p.funcs.len() == 1
            &&& main_ir_shape(
                p.funcs@[0],
                comp_unit.func_def.ident,
                stmt_num(comp_unit.func_def.block.stmt),
            )
            &&& crate::ir::program_wf(p)
            &&& crate::ir::codegen_safe(p.funcs@[0])
        },
{
    let mut program = Program::new();
    let mut scopes = Scopes::new();
    let res = generate_comp_unit(comp_unit, &mut program, &mut scopes);
    match res {
        Ok(_) => {},
        Err(_) => {
            proof {
                assert(false);
            }
        },
    }
    proof {
        lemma_main_shape_wf(
            program.funcs@[0],
            comp_unit.func_def.ident,
            stmt_num(comp_unit.func_def.block.stmt),
            program.globals.len() as int,
            program.funcs.len() as int,
        );
    }
    Ok(program)
}

/// The open scopes of the traversal: the function context currently under
/// construction, if any.
pub struct Scopes {
    pub cur_func: Option<FunctionInfo>,
}

impl Scopes {
    /// Creates a new `Scopes`.
    pub fn new() -> (r: Scopes)
        ensures
            r.cur_func is None,
    {
        Scopes { cur_func: None }
    }

    /// Returns `true` if is currently in global scope.
    pub fn _is_global(&self) -> (r: bool)
        ensures
            r == (self.cur_func is None),
    {
        match &self.cur_func {
            None => true,
            Some(_) => false,
        }
    }
}

} // verus!
