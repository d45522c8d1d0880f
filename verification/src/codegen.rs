//! The generator dispatch: traverses the finished IR per function, block and
//! instruction, resolving operands and emitting instructions. Each
//! instruction kind maps to exactly one emission rule; kinds that produce no
//! code (bare allocations, constants, calls at the current coverage) emit
//! nothing. Blocks are emitted in their function's layout order, each under
//! its cached label.

use vstd::prelude::*;

use crate::emitter::{lw_lines, sw_lines, AsmBuilder, AsmLine, Label, Reg};
use crate::frame::{
    args_area, build_function_info, epilogue_lines, frame_size, info_matches,
    lemma_info_bounds, lemma_num_slots_le, prologue_lines, spec_leaf, spec_max_args,
    spec_rel_slot, spec_slot_count, FunctionInfo,
};
use crate::ir::{
    codegen_safe, func_wf, program_wf, spec_used, uses_value, FunctionData, GlobalData, Program,
    ValueKind, MAX_BBS, MAX_VALUES,
};
use crate::values::{read_from_lines, write_arg_to_lines, write_to_lines, AsmValue, Slot};

verus! {

/// The resolved form of the value `v` in the context of its function's
/// bookkeeping: a pure function of the value and the frame layout.
pub open spec fn spec_resolve(p: Program, f: FunctionData, v: int) -> AsmValue {
    match f.values@[v] {
        ValueKind::Integer { value } => AsmValue::Const(value),
        ValueKind::FuncArgRef { index } => AsmValue::Arg(index),
        ValueKind::GlobalRef { id } => AsmValue::Global(p.globals@[id as int].name),
        _ => match spec_rel_slot(f, v) {
            Some(rel) => AsmValue::Local(
                Slot { offset: (args_area(spec_max_args(f)) + rel) as u32, is_ptr: false },
            ),
            None => AsmValue::Void,
        },
    }
}

/// Resolves one value handle to its assembly value.
pub fn resolve(program: &Program, f: &FunctionData, info: &FunctionInfo, v: usize, base: Ghost<
    u64,
>) -> (r: AsmValue)
    requires
        func_wf(*f, program.globals.len() as int, program.funcs.len() as int),
        info_matches(*info, *f, base@),
        v < f.values.len(),
    ensures
        r == spec_resolve(*program, *f, v as int),
        r matches AsmValue::Local(slot) ==> slot.offset <= 8 * MAX_VALUES,
        !(r matches AsmValue::Local(slot) && slot.is_ptr),
    {
    proof {
        lemma_info_bounds(*info, *f, base@, program.globals.len() as int,
            program.funcs.len() as int);
        lemma_num_slots_le(*f, v as int);
    }
    match &f.values[v] {
        ValueKind::Integer { value } => AsmValue::Const(*value),
        ValueKind::FuncArgRef { index } => AsmValue::Arg(*index),
        ValueKind::GlobalRef { id } => AsmValue::Global(program.globals[*id].name.clone()),
        _ => AsmValue::from(info.slot_offset(v)),
    }
}

/// The lines emitted for a load instruction.
pub open spec fn load_lines(p: Program, f: FunctionData, v: int, src: int) -> Seq<AsmLine> {
    write_to_lines(spec_resolve(p, f, src), Reg::T0) + (if spec_resolve(
        p,
        f,
        src,
    ).spec_is_ptr() {
        lw_lines(Reg::T0, Reg::T0, 0, Reg::T1)
    } else {
        Seq::<AsmLine>::empty()
    }) + read_from_lines(spec_resolve(p, f, v), Reg::T0, Reg::T1)
}

/// The lines emitted for a store instruction.
pub open spec fn store_lines(p: Program, f: FunctionData, value: int, dest: int) -> Seq<AsmLine> {
    (match spec_resolve(p, f, value) {
        AsmValue::Arg(index) => write_arg_to_lines(
            index,
            Reg::T0,
            frame_size(spec_slot_count(f), spec_leaf(f), spec_max_args(f)) as u32,
        ),
        _ => write_to_lines(spec_resolve(p, f, value), Reg::T0),
    }) + (if spec_resolve(p, f, dest).spec_is_ptr() {
        write_to_lines(spec_resolve(p, f, dest), Reg::T1) + sw_lines(Reg::T0, Reg::T1, 0, Reg::T2)
    } else {
        read_from_lines(spec_resolve(p, f, dest), Reg::T0, Reg::T1)
    })
}

/// The lines emitted for a return instruction.
pub open spec fn return_lines(p: Program, f: FunctionData, value: Option<usize>) -> Seq<AsmLine> {
    (match value {
        Some(rv) => write_to_lines(spec_resolve(p, f, rv as int), Reg::A(0)),
        None => Seq::<AsmLine>::empty(),
    }) + epilogue_lines(
        frame_size(spec_slot_count(f), spec_leaf(f), spec_max_args(f)),
        spec_leaf(f),
        Reg::T0,
    )
}

/// The lines emitted for instruction `v`, as a function of the program, the
/// function, and the label numbering base.
pub open spec fn inst_lines(p: Program, f: FunctionData, base: int, v: int) -> Seq<AsmLine> {
    match f.values@[v] {
        ValueKind::Load { src } => load_lines(p, f, v, src as int),
        ValueKind::Store { value, dest } => store_lines(p, f, value as int, dest as int),
        ValueKind::Jump { target } => seq![
            AsmLine::J {
                target: Label { hint: f.bbs@[target as int].name_hint, id: (base + target) as u64 },
            },
        ],
        ValueKind::Return { value } => return_lines(p, f, value),
        _ => Seq::<AsmLine>::empty(),
    }
}

/// The lines of the first `i` instructions of a block's instruction list.
pub open spec fn insts_lines(p: Program, f: FunctionData, base: int, insts: Seq<usize>, i: int) -> Seq<
    AsmLine,
>
    decreases i,
{
    if i <= 0 {
        Seq::<AsmLine>::empty()
    } else {
        insts_lines(p, f, base, insts, i - 1) + inst_lines(p, f, base, insts[i - 1] as int)
    }
}

/// The lines of one basic block: its cached label, then its instructions.
pub open spec fn block_lines(p: Program, f: FunctionData, base: int, b: int) -> Seq<AsmLine> {
    seq![
        AsmLine::BlockLabel {
            label: Label { hint: f.bbs@[b].name_hint, id: (base + b) as u64 },
        },
    ] + insts_lines(p, f, base, f.bbs@[b].insts@, f.bbs@[b].insts.len() as int)
}

/// The lines of the first `j` blocks of the function's layout.
pub open spec fn blocks_lines(p: Program, f: FunctionData, base: int, j: int) -> Seq<AsmLine>
    decreases j,
{
    if j <= 0 {
        Seq::<AsmLine>::empty()
    } else {
        blocks_lines(p, f, base, j - 1) + block_lines(p, f, base, f.layout@[j - 1] as int)
    }
}

/// The lines of one defined function: its prologue, then its blocks in
/// layout order.
pub open spec fn func_lines(p: Program, f: FunctionData, base: int) -> Seq<AsmLine> {
    prologue_lines(
        f.name,
        frame_size(spec_slot_count(f), spec_leaf(f), spec_max_args(f)),
        spec_leaf(f),
        Reg::T0,
    ) + blocks_lines(p, f, base, f.layout.len() as int)
}

/// The lines of one global data declaration.
pub open spec fn global_lines(g: GlobalData) -> Seq<AsmLine> {
    seq![
        AsmLine::DirData,
        AsmLine::DirGlobl { symbol: g.name },
        AsmLine::NamedLabel { symbol: g.name },
        AsmLine::Word { value: g.init },
        AsmLine::Blank,
    ]
}

/// The lines of the first `i` global declarations.
pub open spec fn globals_lines(p: Program, i: int) -> Seq<AsmLine>
    decreases i,
{
    if i <= 0 {
        Seq::<AsmLine>::empty()
    } else {
        globals_lines(p, i - 1) + global_lines(p.globals@[i - 1])
    }
}

/// The label numbering base of function `i`: one label was drawn from the
/// process-wide counter for each block of each defined function before it.
/// Declarations produce no code and no labels.
pub open spec fn base_at(p: Program, i: int) -> int
    decreases i,
{
    if i <= 0 {
        0
    } else {
        base_at(p, i - 1) + if p.funcs@[i - 1].layout.len() == 0 {
            0int
        } else {
            p.funcs@[i - 1].bbs.len() as int
        }
    }
}

/// The lines of the first `i` functions of the program.
pub open spec fn all_funcs_lines(p: Program, i: int) -> Seq<AsmLine>
    decreases i,
{
    if i <= 0 {
        Seq::<AsmLine>::empty()
    } else {
        all_funcs_lines(p, i - 1) + if p.funcs@[i - 1].layout.len() == 0 {
            Seq::<AsmLine>::empty()
        } else {
            func_lines(p, p.funcs@[i - 1], base_at(p, i - 1))
        }
    }
}

/// The whole program's assembly: its globals, then its functions.
pub open spec fn program_lines(p: Program) -> Seq<AsmLine> {
    globals_lines(p, p.globals.len() as int) + all_funcs_lines(p, p.funcs.len() as int)
}

/// The label counter never exceeds one block budget per function passed.
pub proof fn lemma_base_at_bound(p: Program, i: int)
    requires
        program_wf(p),
        0 <= i <= p.funcs.len(),
    ensures
        0 <= base_at(p, i) <= i * (MAX_BBS as int),
    decreases i,
{
    if i > 0 {
        lemma_base_at_bound(p, i - 1);
        assert((i - 1) * (MAX_BBS as int) + (MAX_BBS as int) == i * (MAX_BBS as int))
            by (nonlinear_arith);
    }
}

/// Emits a load: resolves the source, dereferences once more when the
/// source is a pointer, and writes the result into the load's own storage.
#[verifier::rlimit(100)]
#[verifier::spinoff_prover]
fn gen_load(
    program: &Program,
    f: &FunctionData,
    info: &FunctionInfo,
    b: &mut AsmBuilder,
    v: usize,
    src: usize,
    base: Ghost<u64>,
)
    requires
        func_wf(*f, program.globals.len() as int, program.funcs.len() as int),
        codegen_safe(*f),
        info_matches(*info, *f, base@),
        v < f.values.len(),
        f.values@[v as int] == (ValueKind::Load { src }),
    ensures
        final(b).lines@ == old(b).lines@ + inst_lines(*program, *f, base@ as int, v as int),
{
    proof {
        assert(crate::ir::safe_inst(*f, v as int));
        assert(spec_used(*f, src)) by {
            reveal(crate::ir::spec_used);
            assert(uses_value(f.values@[v as int], src));
        };
    }
    let s = resolve(program, f, info, src, base);
    s.write_to(b, Reg::T0);
    if s.is_ptr() {
        b.lw(Reg::T0, Reg::T0, 0, Reg::T1);
    }
    let d = resolve(program, f, info, v, base);
    d.read_from(b, Reg::T0, Reg::T1);
    proof {
        let p0 = old(b).lines@;
        let la = write_to_lines(spec_resolve(*program, *f, src as int), Reg::T0);
        let lb = if spec_resolve(*program, *f, src as int).spec_is_ptr() {
            lw_lines(Reg::T0, Reg::T0, 0, Reg::T1)
        } else {
            Seq::<AsmLine>::empty()
        };
        let lc = read_from_lines(spec_resolve(*program, *f, v as int), Reg::T0, Reg::T1);
        if spec_resolve(*program, *f, src as int).spec_is_ptr() {
            vstd::seq_lib::lemma_concat_associative(p0, la, lb);
            vstd::seq_lib::lemma_concat_associative(p0, la + lb, lc);
        } else {
            Seq::add_empty_right(la, lb);
            vstd::seq_lib::lemma_concat_associative(p0, la, lc);
        }
        assert(final(b).lines@ == p0 + load_lines(*program, *f, v as int, src as int));
    }
}

/// Emits a store: an argument-class operand takes the argument-aware write
/// path; a pointer destination is addressed first and stored through.
#[verifier::rlimit(100)]
#[verifier::spinoff_prover]
fn gen_store(
    program: &Program,
    f: &FunctionData,
    info: &FunctionInfo,
    b: &mut AsmBuilder,
    v: usize,
    value: usize,
    dest: usize,
    base: Ghost<u64>,
)
    requires
        func_wf(*f, program.globals.len() as int, program.funcs.len() as int),
        codegen_safe(*f),
        info_matches(*info, *f, base@),
        v < f.values.len(),
        f.values@[v as int] == (ValueKind::Store { value, dest }),
    ensures
        final(b).lines@ == old(b).lines@ + inst_lines(*program, *f, base@ as int, v as int),
{
    proof {
        lemma_info_bounds(*info, *f, base@, program.globals.len() as int,
            program.funcs.len() as int);
        assert(crate::ir::safe_inst(*f, v as int));
        assert(spec_used(*f, value) && spec_used(*f, dest)) by {
            reveal(crate::ir::spec_used);
            assert(uses_value(f.values@[v as int], value));
        };
    }
    let sp = info.sp_offset();
    let val = resolve(program, f, info, value, base);
    let is_arg = matches!(val, AsmValue::Arg(_));
    if is_arg {
        val.write_arg_to(b, Reg::T0, sp);
    } else {
        val.write_to(b, Reg::T0);
    }
    let d = resolve(program, f, info, dest, base);
    if d.is_ptr() {
        d.write_to(b, Reg::T1);
        b.sw(Reg::T0, Reg::T1, 0, Reg::T2);
    } else {
        d.read_from(b, Reg::T0, Reg::T1);
    }
    proof {
        let p0 = old(b).lines@;
        let la = match spec_resolve(*program, *f, value as int) {
            AsmValue::Arg(index) => write_arg_to_lines(
                index,
                Reg::T0,
                frame_size(spec_slot_count(*f), spec_leaf(*f), spec_max_args(*f)) as u32,
            ),
            _ => write_to_lines(spec_resolve(*program, *f, value as int), Reg::T0),
        };
        let lb = if spec_resolve(*program, *f, dest as int).spec_is_ptr() {
            write_to_lines(spec_resolve(*program, *f, dest as int), Reg::T1) + sw_lines(
                Reg::T0,
                Reg::T1,
                0,
                Reg::T2,
            )
        } else {
            read_from_lines(spec_resolve(*program, *f, dest as int), Reg::T0, Reg::T1)
        };
        if spec_resolve(*program, *f, dest as int).spec_is_ptr() {
            let lb1 = write_to_lines(spec_resolve(*program, *f, dest as int), Reg::T1);
            let lb2 = sw_lines(Reg::T0, Reg::T1, 0, Reg::T2);
            vstd::seq_lib::lemma_concat_associative(p0 + la, lb1, lb2);
        }
        vstd::seq_lib::lemma_concat_associative(p0, la, lb);
        assert(final(b).lines@ == p0 + store_lines(*program, *f, value as int, dest as int));
    }
}

/// Emits a return: materializes the returned value into the return-value
/// register when one is present, then always emits the epilogue.
#[verifier::rlimit(100)]
#[verifier::spinoff_prover]
fn gen_return(
    program: &Program,
    f: &FunctionData,
    info: &FunctionInfo,
    b: &mut AsmBuilder,
    v: usize,
    value: Option<usize>,
    base: Ghost<u64>,
)
    requires
        func_wf(*f, program.globals.len() as int, program.funcs.len() as int),
        codegen_safe(*f),
        info_matches(*info, *f, base@),
        v < f.values.len(),
        f.values@[v as int] == (ValueKind::Return { value }),
    ensures
        final(b).lines@ == old(b).lines@ + inst_lines(*program, *f, base@ as int, v as int),
{
    proof {
        assert(crate::ir::safe_inst(*f, v as int));
        lemma_info_bounds(*info, *f, base@, program.globals.len() as int,
            program.funcs.len() as int);
    }
    match value {
        Some(rv) => {
            proof {
                assert(spec_used(*f, rv)) by {
                    reveal(crate::ir::spec_used);
                    assert(uses_value(f.values@[v as int], rv));
                };
            }
            let rvv = resolve(program, f, info, rv, base);
            rvv.write_to(b, Reg::A(0));
        },
        None => {},
    }
    b.epilogue(info, Reg::T0);
    proof {
        let p0 = old(b).lines@;
        let la = match value {
            Some(rv) => write_to_lines(spec_resolve(*program, *f, rv as int), Reg::A(0)),
            None => Seq::<AsmLine>::empty(),
        };
        let lb = epilogue_lines(
            frame_size(spec_slot_count(*f), spec_leaf(*f), spec_max_args(*f)),
            spec_leaf(*f),
            Reg::T0,
        );
        if value is None {
            Seq::add_empty_right(p0, la);
        }
        vstd::seq_lib::lemma_concat_associative(p0, la, lb);
        assert(final(b).lines@ == p0 + return_lines(*program, *f, value));
    }
}

/// Emits one instruction by its kind's single emission rule; kinds that
/// produce no code emit nothing.
#[verifier::spinoff_prover]
fn generate_inst(
    program: &Program,
    f: &FunctionData,
    info: &FunctionInfo,
    b: &mut AsmBuilder,
    v: usize,
    base: Ghost<u64>,
)
    requires
        func_wf(*f, program.globals.len() as int, program.funcs.len() as int),
        codegen_safe(*f),
        info_matches(*info, *f, base@),
        v < f.values.len(),
    ensures
        final(b).lines@ == old(b).lines@ + inst_lines(*program, *f, base@ as int, v as int),
{
    match &f.values[v] {
        ValueKind::Load { src } => gen_load(program, f, info, b, v, *src, base),
        ValueKind::Store { value, dest } => gen_store(program, f, info, b, v, *value, *dest, base),
        ValueKind::Jump { target } => {
            let label = info.bb_name(*target);
            b.j(label);
            proof {
                assert(final(b).lines@ =~= old(b).lines@ + inst_lines(
                    *program,
                    *f,
                    base@ as int,
                    v as int,
                )) by {
                    assert(final(b).lines@ =~= old(b).lines@ + seq![
                        AsmLine::J { target: label },
                    ]);
                };
            }
        },
        ValueKind::Return { value } => gen_return(program, f, info, b, v, *value, base),
        _ => {
            proof {
                Seq::add_empty_right(
                    old(b).lines@,
                    inst_lines(*program, *f, base@ as int, v as int),
                );
            }
        },
    }
}

/// Emits one defined function: builds its bookkeeping in the single
/// allocator pass, emits its prologue, then its blocks in layout order.
/// Returns the advanced label counter.
fn generate_function(program: &Program, fidx: usize, b: &mut AsmBuilder, next_label: u64) -> (r:
    u64)
    requires
        program_wf(*program),
        fidx < program.funcs.len(),
        codegen_safe(program.funcs@[fidx as int]),
        program.funcs@[fidx as int].layout.len() != 0,
        next_label + program.funcs@[fidx as int].bbs.len() <= u64::MAX,
    ensures
        final(b).lines@ == old(b).lines@ + func_lines(
            *program,
            program.funcs@[fidx as int],
            next_label as int,
        ),
        r == next_label + program.funcs@[fidx as int].bbs.len(),
{
    let f = &program.funcs[fidx];
    let res = build_function_info(f, next_label);
    let info = res.0;
    let next = res.1;
    proof {
        lemma_info_bounds(info, *f, next_label, program.globals.len() as int,
            program.funcs.len() as int);
    }
    b.prologue(&f.name, &info, Reg::T0);
    let ghost start = b.lines@;
    proof {
        Seq::add_empty_right(start, blocks_lines(*program, *f, next_label as int, 0));
    }
    let mut j: usize = 0;
    while j < f.layout.len()
        invariant
            program_wf(*program),
            fidx < program.funcs.len(),
            f == &program.funcs@[fidx as int],
            codegen_safe(*f),
            info_matches(info, *f, next_label),
            j <= f.layout.len(),
            b.lines@ == start + blocks_lines(*program, *f, next_label as int, j as int),
        decreases f.layout.len() - j,
    {
        let bb = f.layout[j];
        let label = info.bb_name(bb);
        b.block_label(label);
        let ghost bstart = b.lines@;
        proof {
            Seq::add_empty_right(
                bstart,
                insts_lines(*program, *f, next_label as int, f.bbs@[bb as int].insts@, 0),
            );
        }
        let insts = &f.bbs[bb].insts;
        let mut k: usize = 0;
        while k < insts.len()
            invariant
                program_wf(*program),
                fidx < program.funcs.len(),
                f == &program.funcs@[fidx as int],
                codegen_safe(*f),
                info_matches(info, *f, next_label),
                bb < f.bbs.len(),
                insts == &f.bbs@[bb as int].insts,
                k <= insts.len(),
                b.lines@ == bstart + insts_lines(
                    *program,
                    *f,
                    next_label as int,
                    insts@,
                    k as int,
                ),
            decreases insts.len() - k,
        {
            let inst = insts[k];
            generate_inst(program, f, &info, b, inst, Ghost(next_label));
            proof {
                vstd::seq_lib::lemma_concat_associative(
                    bstart,
                    insts_lines(*program, *f, next_label as int, insts@, k as int),
                    inst_lines(*program, *f, next_label as int, inst as int),
                );
            }
            k = k + 1;
        }
        proof {
            let bl = blocks_lines(*program, *f, next_label as int, j as int);
            let lbl = seq![AsmLine::BlockLabel { label }];
            let il = insts_lines(
                *program,
                *f,
                next_label as int,
                f.bbs@[bb as int].insts@,
                f.bbs@[bb as int].insts.len() as int,
            );
            assert(bstart == (start + bl) + lbl) by {
                assert((start + bl).push(AsmLine::BlockLabel { label }) =~= (start + bl) + lbl);
            };
            vstd::seq_lib::lemma_concat_associative(start + bl, lbl, il);
            vstd::seq_lib::lemma_concat_associative(start, bl, lbl + il);
            assert(b.lines@ == start + blocks_lines(*program, *f, next_label as int, j + 1));
        }
        j = j + 1;
    }
    next
}

/// Generates the whole program: the globals under their data directives,
/// then each defined function — the allocator pass and the generator pass
/// of one function both complete before the next function is considered.
/// The result is the program's full assembly, line for line.
pub fn generate_asm(program: &Program) -> (b: AsmBuilder)
    requires
        program_wf(*program),
        forall|i: int| 0 <= i < program.funcs.len() ==> codegen_safe(#[trigger] program.funcs@[i]),
    ensures
        b.lines@ == program_lines(*program),
{
    let mut b = AsmBuilder::new();

    // Generate the global allocations.
    let mut g: usize = 0;
    while g < program.globals.len()
        invariant
            g <= program.globals.len(),
            b.lines@ == globals_lines(*program, g as int),
        decreases program.globals.len() - g,
    {
        let name = &program.globals[g].name;
        b.lines.push(AsmLine::DirData);
        b.lines.push(AsmLine::DirGlobl { symbol: name.clone() });
        b.lines.push(AsmLine::NamedLabel { symbol: name.clone() });
        b.lines.push(AsmLine::Word { value: program.globals[g].init });
        b.lines.push(AsmLine::Blank);
        proof {
            assert(b.lines@ =~= globals_lines(*program, g + 1));
        }
        g = g + 1;
    }

    // Generate the functions, one at a time.
    let ghost gdone = b.lines@;
    let mut next_label: u64 = 0;
    let mut i: usize = 0;
    while i < program.funcs.len()
        invariant
            program_wf(*program),
            forall|k: int|
                0 <= k < program.funcs.len() ==> codegen_safe(#[trigger] program.funcs@[k]),
            i <= program.funcs.len(),
            gdone == globals_lines(*program, program.globals.len() as int),
            next_label as int == base_at(*program, i as int),
            b.lines@ == gdone + all_funcs_lines(*program, i as int),
        decreases program.funcs.len() - i,
    {
        proof {
            lemma_base_at_bound(*program, i as int);
            lemma_base_at_bound(*program, i + 1);
        }
        let has_body = program.funcs[i].layout.len() != 0;
        if has_body {
            next_label = generate_function(program, i, &mut b, next_label);
        }
        proof {
            let af = all_funcs_lines(*program, i as int);
            if program.funcs@[i as int].layout.len() == 0 {
                Seq::add_empty_right(af, Seq::<AsmLine>::empty());
                assert(all_funcs_lines(*program, i + 1) == af);
            } else {
                vstd::seq_lib::lemma_concat_associative(
                    gdone,
                    af,
                    func_lines(
                        *program,
                        program.funcs@[i as int],
                        base_at(*program, i as int),
                    ),
                );
            }
            assert(b.lines@ == gdone + all_funcs_lines(*program, i + 1));
        }
        i = i + 1;
    }
    proof {
        assert(b.lines@ == program_lines(*program));
    }
    b
}

} // verus!
