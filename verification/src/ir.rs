//! The intermediate representation: a whole compilation unit held in
//! index-based arenas. Values and basic blocks are referenced by their index
//! into their function's arenas, so handle lookup is constant-time and the
//! graph holds no pointers. Identity of a value is handle identity, not
//! structural equality.

use vstd::prelude::*;

use crate::emitter::NameHint;

verus! {

/// Bound on the number of values in one function, so that frame offsets fit
/// the 32-bit immediate domain of the target.
pub const MAX_VALUES: usize = 0x100000;

/// Bound on the number of basic blocks in one function.
pub const MAX_BBS: usize = 0x100000;

/// Bound on the number of arguments of one call and on argument indices, so
/// that spill offsets fit the 32-bit immediate domain of the target.
pub const MAX_ARGS: usize = 0x100000;

/// Bound on the number of functions of one program, so that the label
/// counter cannot wrap.
pub const MAX_FUNCS: usize = 0x100000;

/// The kind tag of an IR value: an operand or an instruction result.
#[derive(Clone, PartialEq, Debug)]
pub enum ValueKind {
    /// An integer constant; materialized lazily at point of use.
    Integer { value: i32 },
    /// A memory allocation: one stack cell.
    Alloc,
    /// A load out of the value `src`.
    Load { src: usize },
    /// A store of the value `value` into the value `dest`.
    Store { value: usize, dest: usize },
    /// An unconditional jump to the basic block `target`.
    Jump { target: usize },
    /// A return, with an optional returned value.
    Return { value: Option<usize> },
    /// A reference to the function's argument number `index`.
    FuncArgRef { index: usize },
    /// A reference to the program's global number `id`.
    GlobalRef { id: usize },
    /// A call of the function `callee` with the given argument values.
    Call { callee: usize, args: Vec<usize> },
}

/// A basic block: a straight-line run of instructions, given by their value
/// handles, plus the hint its label is generated from.
#[derive(Clone, PartialEq, Debug)]
pub struct BasicBlockData {
    pub name_hint: NameHint,
    pub insts: Vec<usize>,
}

/// One subroutine: its value and basic-block arenas and the order in which
/// its blocks are laid out. A function whose layout is empty is a
/// declaration and produces no code.
#[derive(Clone, PartialEq, Debug)]
pub struct FunctionData {
    pub name: String,
    /// Whether the function returns an integer.
    pub ret_int: bool,
    pub values: Vec<ValueKind>,
    pub bbs: Vec<BasicBlockData>,
    pub layout: Vec<usize>,
}

/// One global scalar: its symbol name and initial value.
#[derive(Clone, PartialEq, Debug)]
pub struct GlobalData {
    pub name: String,
    pub init: i32,
}

/// A whole compilation unit: its global data declarations, emitted before
/// its functions.
#[derive(Clone, PartialEq, Debug)]
pub struct Program {
    pub globals: Vec<GlobalData>,
    pub funcs: Vec<FunctionData>,
}

impl Program {
    /// Creates an empty program.
    pub fn new() -> (r: Program)
        ensures
            r.globals@ == Seq::<GlobalData>::empty(),
            r.funcs@ == Seq::<FunctionData>::empty(),
    {
        Program { globals: Vec::new(), funcs: Vec::new() }
    }
}

impl FunctionData {
    /// Creates a function with empty arenas and an empty layout.
    pub fn new(name: String, ret_int: bool) -> (r: FunctionData)
        ensures
            r.name == name,
            r.ret_int == ret_int,
            r.values@ == Seq::<ValueKind>::empty(),
            r.bbs@ == Seq::<BasicBlockData>::empty(),
            r.layout@ == Seq::<usize>::empty(),
    {
        FunctionData {
            name,
            ret_int,
            values: Vec::new(),
            bbs: Vec::new(),
            layout: Vec::new(),
        }
    }

    /// Allocates a fresh, empty basic block in the arena and returns its
    /// handle. The block is not yet part of the layout.
    pub fn new_bb(&mut self, hint: NameHint) -> (bb: usize)
        ensures
            bb == old(self).bbs.len(),
            final(self).bbs.len() == old(self).bbs.len() + 1,
            final(self).bbs@[bb as int].name_hint == hint,
            final(self).bbs@[bb as int].insts@ == Seq::<usize>::empty(),
            forall|k: int| 0 <= k < bb ==> final(self).bbs@[k] == old(self).bbs@[k],
            final(self).name == old(self).name,
            final(self).ret_int == old(self).ret_int,
            final(self).values == old(self).values,
            final(self).layout == old(self).layout,
    {
        let bb = self.bbs.len();
        self.bbs.push(BasicBlockData { name_hint: hint, insts: Vec::new() });
        bb
    }

    /// Allocates a fresh value in the arena and returns its handle.
    pub fn new_value(&mut self, k: ValueKind) -> (v: usize)
        ensures
            v == old(self).values.len(),
            final(self).values@ == old(self).values@.push(k),
            final(self).name == old(self).name,
            final(self).ret_int == old(self).ret_int,
            final(self).bbs == old(self).bbs,
            final(self).layout == old(self).layout,
    {
        let v = self.values.len();
        self.values.push(k);
        v
    }
}

/// Whether a value kind is produced by a local instruction: not a constant,
/// not a function-argument reference, not a global reference. Only such
/// values may need a stack slot.
pub open spec fn spec_is_local_inst(k: ValueKind) -> bool {
    match k {
        ValueKind::Integer { .. } => false,
        ValueKind::FuncArgRef { .. } => false,
        ValueKind::GlobalRef { .. } => false,
        _ => true,
    }
}

/// Executable form of `spec_is_local_inst`.
pub fn is_local_inst(k: &ValueKind) -> (r: bool)
    ensures
        r == spec_is_local_inst(*k),
{
    match k {
        ValueKind::Integer { .. } => false,
        ValueKind::FuncArgRef { .. } => false,
        ValueKind::GlobalRef { .. } => false,
        _ => true,
    }
}

/// Whether the instruction kind `k` uses the value `v` as an operand.
pub open spec fn uses_value(k: ValueKind, v: usize) -> bool {
    match k {
        ValueKind::Load { src } => src == v,
        ValueKind::Store { value, dest } => value == v || dest == v,
        ValueKind::Return { value } => value == Some(v),
        ValueKind::Call { args, .. } => args@.contains(v),
        _ => false,
    }
}

/// Whether the value `v` has at least one use elsewhere in the function.
#[verifier::opaque]
pub open spec fn spec_used(f: FunctionData, v: usize) -> bool {
    exists|j: int| 0 <= j < f.values.len() && uses_value(#[trigger] f.values@[j], v)
}

/// Whether one value kind keeps every handle it holds inside the arenas it
/// indexes and every count inside the fixed bounds.
pub open spec fn kind_wf(k: ValueKind, n_values: int, n_bbs: int, n_globals: int, n_funcs: int) -> bool {
    match k {
        ValueKind::Load { src } => src < n_values,
        ValueKind::Store { value, dest } => value < n_values && dest < n_values,
        ValueKind::Jump { target } => target < n_bbs,
        ValueKind::Return { value } => value matches Some(v) ==> v < n_values,
        ValueKind::FuncArgRef { index } => index <= MAX_ARGS,
        ValueKind::GlobalRef { id } => id < n_globals,
        ValueKind::Call { callee, args } => callee < n_funcs && args.len() <= MAX_ARGS
            && forall|i: int| 0 <= i < args.len() ==> args@[i] < n_values,
        _ => true,
    }
}

/// Well-formedness of one function against the program that holds it:
/// every handle in range, every arena within the fixed bounds.
pub open spec fn func_wf(f: FunctionData, n_globals: int, n_funcs: int) -> bool {
    &&& f.values.len() <= MAX_VALUES
    &&& f.bbs.len() <= MAX_BBS
    &&& forall|v: int|
        0 <= v < f.values.len() ==> kind_wf(
            #[trigger] f.values@[v],
            f.values.len() as int,
            f.bbs.len() as int,
            n_globals,
            n_funcs,
        )
    &&& forall|b: int, i: int|
        0 <= b < f.bbs.len() && 0 <= i < f.bbs@[b].insts.len() ==> #[trigger] f.bbs@[b].insts@[i]
            < f.values.len()
    &&& forall|i: int| 0 <= i < f.layout.len() ==> #[trigger] f.layout@[i] < f.bbs.len()
}

/// Well-formedness of a whole program.
pub open spec fn program_wf(p: Program) -> bool {
    &&& p.funcs.len() <= MAX_FUNCS
    &&& forall|i: int|
        0 <= i < p.funcs.len() ==> func_wf(
            #[trigger] p.funcs@[i],
            p.globals.len() as int,
            p.funcs.len() as int,
        )
}

/// Whether one instruction leaves the generator's dispatch defined: a load
/// does not read an argument reference directly, a store does not write
/// into a constant or an argument reference's storage, and a return does
/// not hand back an argument reference.
pub open spec fn safe_inst(f: FunctionData, v: int) -> bool {
    match f.values@[v] {
        ValueKind::Load { src } => !(f.values@[src as int] matches ValueKind::FuncArgRef {
            ..
        }),
        ValueKind::Store { value, dest } => !(f.values@[dest as int] matches ValueKind::Integer {
            ..
        }) && !(f.values@[dest as int] matches ValueKind::FuncArgRef { .. }),
        ValueKind::Return { value } => value matches Some(rv) ==> !(f.values@[rv as int]
            matches ValueKind::FuncArgRef { .. }),
        _ => true,
    }
}

/// The conditions under which the generator's dispatch is defined, which the
/// front end guarantees by construction. Violating them would resolve a
/// constant as a write target or an argument outside the argument-aware
/// path — programming errors, not runtime conditions.
pub open spec fn codegen_safe(f: FunctionData) -> bool {
    forall|v: int| 0 <= v < f.values.len() ==> #[trigger] safe_inst(f, v)
}

} // verus!
