//! The stack frame allocator: one forward pass over a function's
//! instructions decides which values need a stack slot, assigns offsets in
//! strict traversal order, records whether the function is a leaf and the
//! maximum outgoing-argument count, caches basic-block labels, and derives
//! the total frame size. The frame layout, from the stack pointer upward, is
//! the outgoing-argument area, then the local slots, then — at the highest
//! offset, `frame size - 4` — the return-address slot of a non-leaf
//! function. The total frame size is rounded up to 16 bytes; the rounding
//! rule is this implementation's fixed choice.

use vstd::prelude::*;

use crate::emitter::{
    addi_lines, imm_ok, lw_lines, sw_lines, AsmBuilder, AsmLine, Label, Reg,
};
use crate::ir::{
    is_local_inst, kind_wf, spec_is_local_inst, spec_used, uses_value, FunctionData, ValueKind,
    MAX_ARGS, MAX_VALUES,
};
use crate::values::Slot;

verus! {

/// Whether the value `v` of `f` requires a stack slot: it is produced by a
/// local instruction kind and has at least one use elsewhere in the
/// function. Values with zero uses get no storage.
pub open spec fn needs_slot(f: FunctionData, v: usize) -> bool {
    v < f.values.len() && spec_is_local_inst(f.values@[v as int]) && spec_used(f, v)
}

/// How many of the values below `v` require a stack slot.
pub open spec fn num_slots_before(f: FunctionData, v: int) -> int
    decreases v,
{
    if v <= 0 {
        0
    } else {
        num_slots_before(f, v - 1) + if needs_slot(f, (v - 1) as usize) {
            1int
        } else {
            0int
        }
    }
}

/// The number of stack slots of the whole function.
pub open spec fn spec_slot_count(f: FunctionData) -> int {
    num_slots_before(f, f.values.len() as int)
}

/// Whether the function is a leaf: it contains no call instruction.
pub open spec fn spec_leaf(f: FunctionData) -> bool {
    forall|v: int| 0 <= v < f.values.len() ==> !(#[trigger] f.values@[v] matches ValueKind::Call { .. })
}

/// The maximum argument count over the calls among the first `v` values.
pub open spec fn max_args_upto(f: FunctionData, v: int) -> int
    decreases v,
{
    if v <= 0 {
        0
    } else {
        let here = match f.values@[v - 1] {
            ValueKind::Call { args, .. } => args.len() as int,
            _ => 0,
        };
        let prev = max_args_upto(f, v - 1);
        if here > prev {
            here
        } else {
            prev
        }
    }
}

/// The maximum argument count over all calls of the function.
pub open spec fn spec_max_args(f: FunctionData) -> int {
    max_args_upto(f, f.values.len() as int)
}

/// The bytes reserved at the bottom of the frame for outgoing arguments
/// beyond the eight that pass in registers.
pub open spec fn args_area(max_args: int) -> int {
    if max_args > 8 {
        4 * (max_args - 8)
    } else {
        0
    }
}

/// Rounds a byte count up to a multiple of 16.
pub open spec fn round16(x: int) -> int {
    ((x + 15) / 16) * 16
}

/// The total frame size: the outgoing-argument area, the local slots, and 4
/// more bytes for the return address when the function is not a leaf,
/// rounded up to 16 bytes.
pub open spec fn frame_size(slot_count: int, leaf: bool, max_args: int) -> int {
    round16(args_area(max_args) + 4 * slot_count + if leaf { 0int } else { 4int })
}

/// The slot-relative offset assigned to value `v`, when it requires one:
/// slots are packed contiguously, 4 bytes each, in traversal order.
pub open spec fn spec_rel_slot(f: FunctionData, v: int) -> Option<u32> {
    if needs_slot(f, v as usize) {
        Some((4 * num_slots_before(f, v)) as u32)
    } else {
        None
    }
}

/// Per-function compilation bookkeeping, built once per function before any
/// instruction is emitted and immutable to the generator afterwards.
pub struct FunctionInfo {
    /// For each value handle, its slot-relative offset, if it has storage.
    pub slots: Vec<Option<u32>>,
    /// How many slots were allocated.
    pub slot_count: u32,
    /// Whether the function contains no call instruction.
    pub leaf: bool,
    /// The maximum argument count over the function's calls.
    pub max_args: usize,
    /// The cached label of each basic block, by block handle.
    pub labels: Vec<Label>,
}

/// The bounds under which the frame arithmetic cannot overflow.
pub open spec fn info_bounds(info: FunctionInfo) -> bool {
    &&& info.slot_count <= MAX_VALUES
    &&& info.max_args <= MAX_ARGS
    &&& forall|v: int|
        0 <= v < info.slots.len() ==> ((#[trigger] info.slots@[v]) matches Some(rel) ==> rel
            <= 4 * MAX_VALUES)
}

/// Whether `info` is exactly the bookkeeping that the single allocator pass
/// derives from `f`, with block labels numbered from `label_base`.
pub open spec fn info_matches(info: FunctionInfo, f: FunctionData, label_base: u64) -> bool {
    &&& info.slots.len() == f.values.len()
    &&& forall|v: int| 0 <= v < f.values.len() ==> #[trigger] info.slots@[v] == spec_rel_slot(f, v)
    &&& info.slot_count == spec_slot_count(f)
    &&& info.leaf == spec_leaf(f)
    &&& info.max_args == spec_max_args(f)
    &&& info.labels.len() == f.bbs.len()
    &&& forall|b: int|
        0 <= b < f.bbs.len() ==> #[trigger] info.labels@[b] == (Label {
            hint: f.bbs@[b].name_hint,
            id: (label_base + b) as u64,
        })
}

/// There are never more slots than values.
pub proof fn lemma_num_slots_le(f: FunctionData, v: int)
    requires
        0 <= v <= f.values.len(),
    ensures
        0 <= num_slots_before(f, v) <= v,
    decreases v,
{
    if v > 0 {
        lemma_num_slots_le(f, v - 1);
    }
}

/// Slot counts are monotone in the traversal order, and strictly so across
/// a value that requires a slot.
pub proof fn lemma_num_slots_monotone(f: FunctionData, a: int, b: int)
    requires
        0 <= a <= b,
    ensures
        num_slots_before(f, a) <= num_slots_before(f, b),
        a < b && needs_slot(f, a as usize) ==> num_slots_before(f, a) + 1 <= num_slots_before(
            f,
            b,
        ),
    decreases b - a,
{
    if a < b {
        lemma_num_slots_monotone(f, a + 1, b);
    }
}

/// The maximum argument count never exceeds any single call's bound.
pub proof fn lemma_max_args_le(f: FunctionData, v: int, n_globals: int, n_funcs: int)
    requires
        0 <= v <= f.values.len(),
        forall|i: int|
            0 <= i < f.values.len() ==> kind_wf(
                #[trigger] f.values@[i],
                f.values.len() as int,
                f.bbs.len() as int,
                n_globals,
                n_funcs,
            ),
    ensures
        0 <= max_args_upto(f, v) <= MAX_ARGS,
    decreases v,
{
    if v > 0 {
        lemma_max_args_le(f, v - 1, n_globals, n_funcs);
    }
}

/// Slot uniqueness law: within one function, every two values that require
/// storage are assigned distinct offsets, and the offsets are strictly
/// increasing in allocation order.
pub proof fn lemma_slot_uniqueness(f: FunctionData, v1: int, v2: int)
    requires
        0 <= v1 < v2 < f.values.len(),
        needs_slot(f, v1 as usize),
        needs_slot(f, v2 as usize),
        f.values.len() <= MAX_VALUES,
    ensures
        spec_rel_slot(f, v1) matches Some(o1) && spec_rel_slot(f, v2) matches Some(o2) && o1 < o2,
{
    lemma_num_slots_le(f, v1);
    lemma_num_slots_le(f, v2);
    lemma_num_slots_monotone(f, v1, v2);
}

impl FunctionInfo {
    /// Whether the function is a leaf, hence needs no return-address save.
    pub fn is_leaf(&self) -> (r: bool)
        ensures
            r == self.leaf,
    {
        self.leaf
    }

    /// The total frame size in bytes.
    pub fn sp_offset(&self) -> (r: u32)
        requires
            info_bounds(*self),
        ensures
            r == frame_size(self.slot_count as int, self.leaf, self.max_args as int),
            r <= 16 + 4 * MAX_VALUES + 4 + 4 * MAX_ARGS,
    {
        let area: u32 = if self.max_args > 8 {
            4 * (self.max_args as u32 - 8)
        } else {
            0
        };
        let ra: u32 = if self.leaf {
            0
        } else {
            4
        };
        let base: u32 = area + 4 * self.slot_count + ra;
        let r = ((base + 15) / 16) * 16;
        proof {
            assert(area == args_area(self.max_args as int));
            assert(r == round16(base as int));
            assert(round16(base as int) < base + 16) by {
                assert((base as int + 15) / 16 * 16 <= base as int + 15) by (nonlinear_arith);
            };
            assert(round16(base as int) >= 0) by {
                assert((base as int + 15) / 16 * 16 >= 0) by (nonlinear_arith);
            };
        }
        r
    }

    /// The stack slot of the given value handle, if it has storage: its
    /// final byte offset from the stack pointer places the local slots just
    /// above the outgoing-argument area. The current instruction kinds all
    /// store scalars, so no slot is flagged as a pointer.
    pub fn slot_offset(&self, v: usize) -> (r: Option<Slot>)
        requires
            info_bounds(*self),
            v < self.slots.len(),
        ensures
            r == (match self.slots@[v as int] {
                Some(rel) => Some(
                    Slot {
                        offset: (args_area(self.max_args as int) + rel) as u32,
                        is_ptr: false,
                    },
                ),
                None => None::<Slot>,
            }),
    {
        let area: u32 = if self.max_args > 8 {
            4 * (self.max_args as u32 - 8)
        } else {
            0
        };
        match self.slots[v] {
            Some(rel) => Some(Slot { offset: area + rel, is_ptr: false }),
            None => None,
        }
    }

    /// The cached label of the given basic block handle.
    pub fn bb_name(&self, bb: usize) -> (r: Label)
        requires
            bb < self.labels.len(),
        ensures
            r == self.labels@[bb as int],
    {
        self.labels[bb]
    }
}

/// The single allocator pass: walks the function's values once, assigning
/// monotonically increasing slot offsets to the values that need storage,
/// logging calls for leaf detection and the outgoing-argument maximum, and
/// caching one label per basic block, numbered from the process-wide
/// counter `next_label`. Returns the bookkeeping and the advanced counter.
pub fn build_function_info(f: &FunctionData, next_label: u64) -> (r: (FunctionInfo, u64))
    requires
        f.values.len() <= MAX_VALUES,
        f.bbs.len() <= crate::ir::MAX_BBS,
        next_label + f.bbs.len() <= u64::MAX,
    ensures
        info_matches(r.0, *f, next_label),
        r.1 == next_label + f.bbs.len(),
{
    let n = f.values.len();

    // First, find which values have at least one use elsewhere.
    let mut used: Vec<bool> = Vec::new();
    let mut v: usize = 0;
    while v < n
        invariant
            used.len() == v <= n,
            forall|k: int| 0 <= k < v ==> !used@[k],
        decreases n - v,
    {
        used.push(false);
        v = v + 1;
    }
    let mut j: usize = 0;
    while j < n
        invariant
            j <= n == f.values.len(),
            used.len() == n,
            forall|k: usize|
                k < n ==> (used@[k as int] <==> exists|w: int|
                    0 <= w < j && uses_value(#[trigger] f.values@[w], k)),
        decreases n - j,
    {
        match &f.values[j] {
            ValueKind::Load { src } => {
                if *src < n {
                    used[*src] = true;
                }
            },
            ValueKind::Store { value, dest } => {
                if *value < n {
                    used[*value] = true;
                }
                if *dest < n {
                    used[*dest] = true;
                }
            },
            ValueKind::Return { value } => {
                match value {
                    Some(rv) => {
                        if *rv < n {
                            used[*rv] = true;
                        }
                    },
                    None => {},
                }
            },
            ValueKind::Call { args, .. } => {
                let mut a: usize = 0;
                while a < args.len()
                    invariant
                        a <= args.len(),
                        used.len() == n,
                        f.values@[j as int] matches ValueKind::Call { args: cargs, .. }
                            && cargs@ == args@,
                        j < n == f.values.len(),
                        forall|k: usize|
                            k < n ==> (used@[k as int] <==> (exists|w: int|
                                0 <= w < j && uses_value(#[trigger] f.values@[w], k)) || (
                            exists|x: int| 0 <= x < a && args@[x] == k)),
                    decreases args.len() - a,
                {
                    let arg = args[a];
                    if arg < n {
                        used[arg] = true;
                    }
                    a = a + 1;
                }
            },
            _ => {},
        }
        proof {
            assert forall|k: usize| k < n implies (used@[k as int] <==> exists|w: int|
                0 <= w < j + 1 && uses_value(#[trigger] f.values@[w], k)) by {
                if used@[k as int] {
                    assert(exists|w: int| 0 <= w < j + 1 && uses_value(#[trigger] f.values@[w], k));
                } else {
                    assert(!uses_value(f.values@[j as int], k));
                }
            }
        }
        j = j + 1;
    }

    proof {
        reveal(crate::ir::spec_used);
        assert forall|k: usize| k < n implies (used@[k as int] <==> spec_used(*f, k)) by {}
    }

    // One forward pass: assign slots in traversal order and log calls.
    let mut slots: Vec<Option<u32>> = Vec::new();
    let mut count: u32 = 0;
    let mut leaf: bool = true;
    let mut max_args: usize = 0;
    let mut v: usize = 0;
    while v < n
        invariant
            v <= n == f.values.len(),
            n <= MAX_VALUES,
            used.len() == n,
            forall|k: usize| k < n ==> (used@[k as int] <==> spec_used(*f, k)),
            slots.len() == v,
            count as int == num_slots_before(*f, v as int),
            forall|k: int| 0 <= k < v ==> #[trigger] slots@[k] == spec_rel_slot(*f, k),
            leaf <==> forall|k: int|
                0 <= k < v ==> !(#[trigger] f.values@[k] matches ValueKind::Call { .. }),
            max_args as int == max_args_upto(*f, v as int),
        decreases n - v,
    {
        proof {
            lemma_num_slots_le(*f, v as int);
        }
        if is_local_inst(&f.values[v]) && used[v] {
            slots.push(Some(4 * count));
            count = count + 1;
        } else {
            slots.push(None);
        }
        match &f.values[v] {
            ValueKind::Call { args, .. } => {
                leaf = false;
                if args.len() > max_args {
                    max_args = args.len();
                }
            },
            _ => {},
        }
        v = v + 1;
    }

    // Generate the basic-block labels in the same pass over the blocks.
    let mut labels: Vec<Label> = Vec::new();
    let mut id: u64 = next_label;
    let mut b: usize = 0;
    while b < f.bbs.len()
        invariant
            b <= f.bbs.len(),
            next_label + f.bbs.len() <= u64::MAX,
            id == next_label + b,
            labels.len() == b,
            forall|k: int|
                0 <= k < b ==> #[trigger] labels@[k] == (Label {
                    hint: f.bbs@[k].name_hint,
                    id: (next_label + k) as u64,
                }),
        decreases f.bbs.len() - b,
    {
        labels.push(Label { hint: f.bbs[b].name_hint, id });
        id = id + 1;
        b = b + 1;
    }

    (FunctionInfo { slots, slot_count: count, leaf, max_args, labels }, id)
}

/// Lines emitted for a function prologue: the text directives and the
/// function's named label, then — only for a nonzero frame — the stack
/// adjustment through the immediate-aware add, and, for a non-leaf
/// function, the return-address save at the frame's highest offset.
pub open spec fn prologue_lines(name: String, sp_off: int, leaf: bool, temp: Reg) -> Seq<AsmLine> {
    seq![
        AsmLine::DirText,
        AsmLine::DirGlobl { symbol: name },
        AsmLine::NamedLabel { symbol: name },
    ] + if sp_off == 0 {
        Seq::<AsmLine>::empty()
    } else {
        addi_lines(Reg::Sp, Reg::Sp, (-sp_off) as i32, temp) + if !leaf {
            sw_lines(Reg::Ra, Reg::Sp, (sp_off - 4) as i32, temp)
        } else {
            Seq::<AsmLine>::empty()
        }
    }
}

/// Lines emitted for a function epilogue: the mirror of the prologue — the
/// return address is reloaded (if non-leaf) before the frame is
/// deallocated — followed by the return instruction.
pub open spec fn epilogue_lines(sp_off: int, leaf: bool, temp: Reg) -> Seq<AsmLine> {
    (if sp_off == 0 {
        Seq::<AsmLine>::empty()
    } else {
        (if !leaf {
            lw_lines(Reg::Ra, Reg::Sp, (sp_off - 4) as i32, temp)
        } else {
            Seq::<AsmLine>::empty()
        }) + addi_lines(Reg::Sp, Reg::Sp, sp_off as i32, temp)
    }).push(AsmLine::Ret)
}

impl AsmBuilder {
    /// Emits the declaration and prologue of the function: a frame size of
    /// exactly zero skips the stack adjustment and the return-address save.
    pub fn prologue(&mut self, func_name: &String, info: &FunctionInfo, temp: Reg)
        requires
            info_bounds(*info),
        ensures
            final(self).lines@ == old(self).lines@ + prologue_lines(
                *func_name,
                frame_size(info.slot_count as int, info.leaf, info.max_args as int),
                info.leaf,
                temp,
            ),
    {
        self.lines.push(AsmLine::DirText);
        self.lines.push(AsmLine::DirGlobl { symbol: func_name.clone() });
        self.lines.push(AsmLine::NamedLabel { symbol: func_name.clone() });
        let offset = info.sp_offset();
        if offset != 0 {
            let o = offset as i32;
            self.addi(Reg::Sp, Reg::Sp, -o, temp);
            if !info.is_leaf() {
                self.sw(Reg::Ra, Reg::Sp, o - 4, temp);
            }
        }
        proof {
            assert(final(self).lines@ =~= old(self).lines@ + prologue_lines(
                *func_name,
                frame_size(info.slot_count as int, info.leaf, info.max_args as int),
                info.leaf,
                temp,
            ));
        }
    }

    /// Emits the function epilogue: restores the return address (if
    /// non-leaf) before growing the stack pointer back, then returns.
    pub fn epilogue(&mut self, info: &FunctionInfo, temp: Reg)
        requires
            info_bounds(*info),
        ensures
            final(self).lines@ == old(self).lines@ + epilogue_lines(
                frame_size(info.slot_count as int, info.leaf, info.max_args as int),
                info.leaf,
                temp,
            ),
    {
        let offset = info.sp_offset();
        if offset != 0 {
            let o = offset as i32;
            if !info.is_leaf() {
                self.lw(Reg::Ra, Reg::Sp, o - 4, temp);
            }
            self.addi(Reg::Sp, Reg::Sp, o, temp);
        }
        self.lines.push(AsmLine::Ret);
        proof {
            assert(final(self).lines@ =~= old(self).lines@ + epilogue_lines(
                frame_size(info.slot_count as int, info.leaf, info.max_args as int),
                info.leaf,
                temp,
            ));
        }
    }
}

/// Whether a line saves the return address to memory.
pub open spec fn is_ra_save(l: AsmLine) -> bool {
    l matches AsmLine::Sw { src: Reg::Ra, .. }
}

/// Whether a line restores the return address from memory.
pub open spec fn is_ra_restore(l: AsmLine) -> bool {
    l matches AsmLine::Lw { dest: Reg::Ra, .. }
}

/// How many lines of `s` satisfy `p`.
pub open spec fn count_lines(s: Seq<AsmLine>, p: spec_fn(AsmLine) -> bool) -> int
    decreases s.len(),
{
    if s.len() == 0 {
        0
    } else {
        count_lines(s.drop_last(), p) + if p(s.last()) {
            1int
        } else {
            0int
        }
    }
}

proof fn lemma_count_push(s: Seq<AsmLine>, x: AsmLine, p: spec_fn(AsmLine) -> bool)
    ensures
        count_lines(s.push(x), p) == count_lines(s, p) + if p(x) {
            1int
        } else {
            0int
        },
{
    assert(s.push(x).drop_last() =~= s);
}

proof fn lemma_count_add(a: Seq<AsmLine>, b: Seq<AsmLine>, p: spec_fn(AsmLine) -> bool)
    ensures
        count_lines(a + b, p) == count_lines(a, p) + count_lines(b, p),
    decreases b.len(),
{
    if b.len() == 0 {
        assert(a + b =~= a);
    } else {
        assert(a + b =~= (a + b.drop_last()).push(b.last()));
        lemma_count_add(a, b.drop_last(), p);
        lemma_count_push(a + b.drop_last(), b.last(), p);
        assert(count_lines(b, p) == count_lines(b.drop_last(), p) + if p(b.last()) {
            1int
        } else {
            0int
        });
    }
}

proof fn lemma_count1(x: AsmLine, p: spec_fn(AsmLine) -> bool)
    ensures
        count_lines(seq![x], p) == if p(x) {
            1int
        } else {
            0int
        },
{
    reveal_with_fuel(count_lines, 3);
    assert(seq![x].drop_last() =~= Seq::<AsmLine>::empty());
    assert(seq![x].last() == x);
}

proof fn lemma_count2(x: AsmLine, y: AsmLine, p: spec_fn(AsmLine) -> bool)
    ensures
        count_lines(seq![x, y], p) == (if p(x) {
            1int
        } else {
            0int
        }) + (if p(y) {
            1int
        } else {
            0int
        }),
{
    assert(seq![x, y] =~= seq![x] + seq![y]);
    lemma_count_add(seq![x], seq![y], p);
    lemma_count1(x, p);
    lemma_count1(y, p);
}

proof fn lemma_count_addi(dest: Reg, opr: Reg, imm: i32, temp: Reg, p: spec_fn(AsmLine) -> bool)
    requires
        !p(AsmLine::Li { dest: temp, imm }),
        !p(AsmLine::Addi { dest, opr, imm }),
        !p(AsmLine::Add { dest, opr1: opr, opr2: temp }),
    ensures
        count_lines(addi_lines(dest, opr, imm, temp), p) == 0,
{
    if imm_ok(imm as int) {
        lemma_count1(AsmLine::Addi { dest, opr, imm }, p);
    } else {
        lemma_count2(
            AsmLine::Li { dest: temp, imm },
            AsmLine::Add { dest, opr1: opr, opr2: temp },
            p,
        );
    }
}

proof fn lemma_count_sw(src: Reg, addr: Reg, offset: i32, temp: Reg, p: spec_fn(AsmLine) -> bool)
    requires
        !p(AsmLine::Li { dest: temp, imm: offset }),
        !p(AsmLine::Add { dest: temp, opr1: addr, opr2: temp }),
        p(AsmLine::Sw { src, addr, offset }),
        p(AsmLine::Sw { src, addr: temp, offset: 0 }),
    ensures
        count_lines(sw_lines(src, addr, offset, temp), p) == 1,
{
    if imm_ok(offset as int) {
        lemma_count1(AsmLine::Sw { src, addr, offset }, p);
    } else {
        assert(count_lines(addi_lines(temp, addr, offset, temp), p) == 0) by {
            lemma_count2(
                AsmLine::Li { dest: temp, imm: offset },
                AsmLine::Add { dest: temp, opr1: addr, opr2: temp },
                p,
            );
        };
        lemma_count_add(
            addi_lines(temp, addr, offset, temp),
            seq![AsmLine::Sw { src, addr: temp, offset: 0 }],
            p,
        );
        lemma_count1(AsmLine::Sw { src, addr: temp, offset: 0 }, p);
    }
}

proof fn lemma_count_lw(dest: Reg, addr: Reg, offset: i32, temp: Reg, p: spec_fn(AsmLine) -> bool)
    requires
        !p(AsmLine::Li { dest: temp, imm: offset }),
        !p(AsmLine::Add { dest: temp, opr1: addr, opr2: temp }),
        p(AsmLine::Lw { dest, addr, offset }),
        p(AsmLine::Lw { dest, addr: temp, offset: 0 }),
    ensures
        count_lines(lw_lines(dest, addr, offset, temp), p) == 1,
{
    if imm_ok(offset as int) {
        lemma_count1(AsmLine::Lw { dest, addr, offset }, p);
    } else {
        assert(count_lines(addi_lines(temp, addr, offset, temp), p) == 0) by {
            lemma_count2(
                AsmLine::Li { dest: temp, imm: offset },
                AsmLine::Add { dest: temp, opr1: addr, opr2: temp },
                p,
            );
        };
        lemma_count_add(
            addi_lines(temp, addr, offset, temp),
            seq![AsmLine::Lw { dest, addr: temp, offset: 0 }],
            p,
        );
        lemma_count1(AsmLine::Lw { dest, addr: temp, offset: 0 }, p);
    }
}

/// Leaf detection law: a leaf function's prologue and epilogue hold no
/// return-address save or restore; a non-leaf function with a nonzero frame
/// emits exactly one save in the prologue and exactly one restore in the
/// epilogue. Together with the allocator's bookkeeping, a function is a
/// leaf exactly when it contains zero call instructions.
pub proof fn lemma_leaf_detection(name: String, sp_off: int, leaf: bool, temp: Reg)
    requires
        0 <= sp_off <= i32::MAX,
        temp != Reg::Ra,
    ensures
        count_lines(prologue_lines(name, sp_off, leaf, temp), |l: AsmLine| is_ra_save(l)) == (
        if !leaf && sp_off != 0 {
            1int
        } else {
            0int
        }),
        count_lines(epilogue_lines(sp_off, leaf, temp), |l: AsmLine| is_ra_restore(l)) == (
        if !leaf && sp_off != 0 {
            1int
        } else {
            0int
        }),
{
    let save = |l: AsmLine| is_ra_save(l);
    let restore = |l: AsmLine| is_ra_restore(l);
    let head = seq![
        AsmLine::DirText,
        AsmLine::DirGlobl { symbol: name },
        AsmLine::NamedLabel { symbol: name },
    ];
    assert(count_lines(head, save) == 0) by {
        assert(head =~= seq![AsmLine::DirText] + seq![
            AsmLine::DirGlobl { symbol: name },
            AsmLine::NamedLabel { symbol: name },
        ]);
        lemma_count_add(
            seq![AsmLine::DirText],
            seq![
                AsmLine::DirGlobl { symbol: name },
                AsmLine::NamedLabel { symbol: name },
            ],
            save,
        );
        lemma_count1(AsmLine::DirText, save);
        lemma_count2(
            AsmLine::DirGlobl { symbol: name },
            AsmLine::NamedLabel { symbol: name },
            save,
        );
    };
    if sp_off == 0 {
        lemma_count_add(head, Seq::<AsmLine>::empty(), save);
        lemma_count_add(Seq::<AsmLine>::empty(), Seq::<AsmLine>::empty(), restore);
        lemma_count_push(Seq::<AsmLine>::empty(), AsmLine::Ret, restore);
    } else {
        let adj = addi_lines(Reg::Sp, Reg::Sp, (-sp_off) as i32, temp);
        lemma_count_addi(Reg::Sp, Reg::Sp, (-sp_off) as i32, temp, save);
        if !leaf {
            let savelines = sw_lines(Reg::Ra, Reg::Sp, (sp_off - 4) as i32, temp);
            lemma_count_sw(Reg::Ra, Reg::Sp, (sp_off - 4) as i32, temp, save);
            lemma_count_add(adj, savelines, save);
            lemma_count_add(head, adj + savelines, save);
            let restorelines = lw_lines(Reg::Ra, Reg::Sp, (sp_off - 4) as i32, temp);
            lemma_count_lw(Reg::Ra, Reg::Sp, (sp_off - 4) as i32, temp, restore);
            let grow = addi_lines(Reg::Sp, Reg::Sp, sp_off as i32, temp);
            lemma_count_addi(Reg::Sp, Reg::Sp, sp_off as i32, temp, restore);
            lemma_count_add(restorelines, grow, restore);
            lemma_count_push(restorelines + grow, AsmLine::Ret, restore);
        } else {
            lemma_count_add(adj, Seq::<AsmLine>::empty(), save);
            lemma_count_add(head, adj + Seq::<AsmLine>::empty(), save);
            let grow = addi_lines(Reg::Sp, Reg::Sp, sp_off as i32, temp);
            lemma_count_addi(Reg::Sp, Reg::Sp, sp_off as i32, temp, restore);
            lemma_count_add(Seq::<AsmLine>::empty(), grow, restore);
            lemma_count_push(Seq::<AsmLine>::empty() + grow, AsmLine::Ret, restore);
        }
    }
}

/// The allocator's bookkeeping stays inside the overflow bounds whenever the
/// function is well-formed.
pub proof fn lemma_info_bounds(info: FunctionInfo, f: FunctionData, label_base: u64, n_globals: int, n_funcs: int)
    requires
        info_matches(info, f, label_base),
        crate::ir::func_wf(f, n_globals, n_funcs),
    ensures
        info_bounds(info),
{
    lemma_num_slots_le(f, f.values.len() as int);
    lemma_max_args_le(f, f.values.len() as int, n_globals, n_funcs);
    assert forall|v: int|
        0 <= v < info.slots.len() && (#[trigger] info.slots@[v]) matches Some(rel) implies (
    info.slots@[v] matches Some(rel) && rel <= 4 * MAX_VALUES) by {
        assert(info.slots@[v] == spec_rel_slot(f, v));
        lemma_num_slots_le(f, v);
    }
}

} // verus!
