//! The instruction emitter: a thin assembly writer that encapsulates the
//! RISC-V 12-bit signed-immediate constraint. Every operation that would
//! embed an out-of-range immediate is rewritten into a load-immediate plus
//! register-form sequence using one scratch register.

use vstd::prelude::*;

verus! {

/// A general-purpose register of the target machine.
#[derive(Clone, Copy, PartialEq, Eq, Structural, Debug)]
pub enum Reg {
    /// Stack pointer.
    Sp,
    /// Return address.
    Ra,
    /// Argument register `a0`..`a7` (the index must be below 8).
    A(u8),
    /// Scratch register `t0`.
    T0,
    /// Scratch register `t1`.
    T1,
    /// Scratch register `t2`.
    T2,
}

/// The naming hint a basic block was created with.
#[derive(Clone, Copy, PartialEq, Eq, Structural, Debug)]
pub enum NameHint {
    /// The function's entry block.
    Entry,
    /// The function's end block.
    End,
    /// An anonymous block.
    Anon,
}

/// A basic-block label: its naming hint together with an identifier drawn
/// from a process-wide counter, which keeps labels globally unique.
#[derive(Clone, Copy, PartialEq, Eq, Structural, Debug)]
pub struct Label {
    pub hint: NameHint,
    pub id: u64,
}

/// One line of the output assembly.
#[derive(Clone, PartialEq, Debug)]
pub enum AsmLine {
    /// `li dest, imm`
    Li { dest: Reg, imm: i32 },
    /// `la dest, symbol`
    La { dest: Reg, symbol: String },
    /// `addi dest, opr, imm`
    Addi { dest: Reg, opr: Reg, imm: i32 },
    /// `add dest, opr1, opr2`
    Add { dest: Reg, opr1: Reg, opr2: Reg },
    /// `mv dest, src`
    Mv { dest: Reg, src: Reg },
    /// `sw src, offset(addr)`
    Sw { src: Reg, addr: Reg, offset: i32 },
    /// `lw dest, offset(addr)`
    Lw { dest: Reg, addr: Reg, offset: i32 },
    /// `j target`
    J { target: Label },
    /// `ret`
    Ret,
    /// A basic-block label followed by a colon.
    BlockLabel { label: Label },
    /// `.text`
    DirText,
    /// `.data`
    DirData,
    /// `.globl symbol`
    DirGlobl { symbol: String },
    /// A named label (function or global symbol) followed by a colon.
    NamedLabel { symbol: String },
    /// `.word value`
    Word { value: i32 },
    /// An empty separator line.
    Blank,
}

/// Whether `imm` fits the signed 12-bit immediate field of the target's
/// immediate instruction forms.
pub open spec fn imm_ok(imm: int) -> bool {
    -2048 <= imm <= 2047
}

/// Lines emitted for an add-with-immediate: a single immediate form when the
/// immediate is encodable, otherwise a load-immediate into the scratch
/// register followed by the register-register form.
pub open spec fn addi_lines(dest: Reg, opr: Reg, imm: i32, temp: Reg) -> Seq<AsmLine> {
    if imm_ok(imm as int) {
        seq![AsmLine::Addi { dest, opr, imm }]
    } else {
        seq![
            AsmLine::Li { dest: temp, imm },
            AsmLine::Add { dest, opr1: opr, opr2: temp },
        ]
    }
}

/// Lines emitted for a register move; a move of a register into itself is
/// elided.
pub open spec fn mv_lines(dest: Reg, src: Reg) -> Seq<AsmLine> {
    if dest == src {
        Seq::<AsmLine>::empty()
    } else {
        seq![AsmLine::Mv { dest, src }]
    }
}

/// Lines emitted for a store-word at `offset(addr)`: direct when the offset
/// is encodable, otherwise the address is first materialized into the
/// scratch register and the store uses a zero offset against it.
pub open spec fn sw_lines(src: Reg, addr: Reg, offset: i32, temp: Reg) -> Seq<AsmLine> {
    if imm_ok(offset as int) {
        seq![AsmLine::Sw { src, addr, offset }]
    } else {
        addi_lines(temp, addr, offset, temp) + seq![AsmLine::Sw { src, addr: temp, offset: 0 }]
    }
}

/// Lines emitted for a load-word at `offset(addr)`, mirroring `sw_lines`.
pub open spec fn lw_lines(dest: Reg, addr: Reg, offset: i32, temp: Reg) -> Seq<AsmLine> {
    if imm_ok(offset as int) {
        seq![AsmLine::Lw { dest, addr, offset }]
    } else {
        addi_lines(temp, addr, offset, temp) + seq![AsmLine::Lw { dest, addr: temp, offset: 0 }]
    }
}

/// The assembly writer. It accumulates output lines; the order of the
/// accumulated lines is the order of the final text.
pub struct AsmBuilder {
    pub lines: Vec<AsmLine>,
}

impl AsmBuilder {
    /// Creates an empty assembly writer.
    pub fn new() -> (r: AsmBuilder)
        ensures
            r.lines@ == Seq::<AsmLine>::empty(),
    {
        AsmBuilder { lines: Vec::new() }
    }

    /// Emits `li dest, imm`; always a single line, every 32-bit immediate is
    /// legal in this form.
    pub fn li(&mut self, dest: Reg, imm: i32)
        ensures
            final(self).lines@ == old(self).lines@.push(AsmLine::Li { dest, imm }),
    {
        self.lines.push(AsmLine::Li { dest, imm });
    }

    /// Emits `la dest, symbol`; always a single line.
    pub fn la(&mut self, dest: Reg, symbol: String)
        ensures
            final(self).lines@ == old(self).lines@.push(AsmLine::La { dest, symbol }),
    {
        self.lines.push(AsmLine::La { dest, symbol });
    }

    /// Emits an add-with-immediate, rewriting an out-of-range immediate into
    /// a load-immediate through `temp` followed by a register-register add.
    pub fn addi(&mut self, dest: Reg, opr: Reg, imm: i32, temp: Reg)
        ensures
            final(self).lines@ == old(self).lines@ + addi_lines(dest, opr, imm, temp),
    {
        if -2048 <= imm && imm <= 2047 {
            self.lines.push(AsmLine::Addi { dest, opr, imm });
        } else {
            self.lines.push(AsmLine::Li { dest: temp, imm });
            self.lines.push(AsmLine::Add { dest, opr1: opr, opr2: temp });
        }
        proof {
            assert(final(self).lines@ =~= old(self).lines@ + addi_lines(dest, opr, imm, temp));
        }
    }

    /// Emits `mv dest, src`, elided when the two registers are equal.
    pub fn mv(&mut self, dest: Reg, src: Reg)
        ensures
            final(self).lines@ == old(self).lines@ + mv_lines(dest, src),
    {
        if dest != src {
            self.lines.push(AsmLine::Mv { dest, src });
        }
        proof {
            assert(final(self).lines@ =~= old(self).lines@ + mv_lines(dest, src));
        }
    }

    /// Emits a store-word, materializing the address through `temp` when the
    /// offset is out of immediate range.
    pub fn sw(&mut self, src: Reg, addr: Reg, offset: i32, temp: Reg)
        ensures
            final(self).lines@ == old(self).lines@ + sw_lines(src, addr, offset, temp),
    {
        if -2048 <= offset && offset <= 2047 {
            self.lines.push(AsmLine::Sw { src, addr, offset });
        } else {
            self.addi(temp, addr, offset, temp);
            self.lines.push(AsmLine::Sw { src, addr: temp, offset: 0 });
        }
        proof {
            assert(final(self).lines@ =~= old(self).lines@ + sw_lines(src, addr, offset, temp));
        }
    }

    /// Emits a load-word, materializing the address through `temp` when the
    /// offset is out of immediate range.
    pub fn lw(&mut self, dest: Reg, addr: Reg, offset: i32, temp: Reg)
        ensures
            final(self).lines@ == old(self).lines@ + lw_lines(dest, addr, offset, temp),
    {
        if -2048 <= offset && offset <= 2047 {
            self.lines.push(AsmLine::Lw { dest, addr, offset });
        } else {
            self.addi(temp, addr, offset, temp);
            self.lines.push(AsmLine::Lw { dest, addr: temp, offset: 0 });
        }
        proof {
            assert(final(self).lines@ =~= old(self).lines@ + lw_lines(dest, addr, offset, temp));
        }
    }

    /// Emits an unconditional jump to the block with the given label.
    pub fn j(&mut self, target: Label)
        ensures
            final(self).lines@ == old(self).lines@.push(AsmLine::J { target }),
    {
        self.lines.push(AsmLine::J { target });
    }

    /// Emits a basic-block label line.
    pub fn block_label(&mut self, label: Label)
        ensures
            final(self).lines@ == old(self).lines@.push(AsmLine::BlockLabel { label }),
    {
        self.lines.push(AsmLine::BlockLabel { label });
    }
}

/// Immediate range law: an add-with-immediate of `v` is a single instruction
/// exactly when `-2048 <= v <= 2047`, and exactly two instructions — a load
/// of `v` into the scratch register followed by the register-register form —
/// otherwise.
pub proof fn lemma_immediate_range(dest: Reg, opr: Reg, imm: i32, temp: Reg)
    ensures
        imm_ok(imm as int) ==> addi_lines(dest, opr, imm, temp) == seq![
            AsmLine::Addi { dest, opr, imm },
        ],
        !imm_ok(imm as int) ==> addi_lines(dest, opr, imm, temp) == seq![
            AsmLine::Li { dest: temp, imm },
            AsmLine::Add { dest, opr1: opr, opr2: temp },
        ],
        addi_lines(dest, opr, imm, temp).len() == if imm_ok(imm as int) { 1int } else { 2int },
{
}

/// Move elision law: moving a register into itself emits no line, and moving
/// between distinct registers emits exactly the one move line.
pub proof fn lemma_move_elision(dest: Reg, src: Reg)
    ensures
        dest == src ==> mv_lines(dest, src).len() == 0,
        dest != src ==> mv_lines(dest, src) == seq![AsmLine::Mv { dest, src }],
{
}

/// Whether a line is a memory access whose embedded offset breaks the
/// signed 12-bit immediate limit.
pub open spec fn line_breaks_imm_limit(line: AsmLine) -> bool {
    match line {
        AsmLine::Sw { offset, .. } => !imm_ok(offset as int),
        AsmLine::Lw { offset, .. } => !imm_ok(offset as int),
        AsmLine::Addi { imm, .. } => !imm_ok(imm as int),
        _ => false,
    }
}

/// Encoding-limit law for memory operations: whatever offset is requested,
/// no emitted store, load, or add-with-immediate line embeds an out-of-range
/// immediate; an out-of-range offset is realized through a load-immediate
/// into the scratch register and a register-form memory instruction.
pub proof fn lemma_memory_offsets_encodable(src: Reg, addr: Reg, offset: i32, temp: Reg)
    ensures
        forall|i: int| 0 <= i < sw_lines(src, addr, offset, temp).len()
            ==> !line_breaks_imm_limit(#[trigger] sw_lines(src, addr, offset, temp)[i]),
        forall|i: int| 0 <= i < lw_lines(src, addr, offset, temp).len()
            ==> !line_breaks_imm_limit(#[trigger] lw_lines(src, addr, offset, temp)[i]),
        !imm_ok(offset as int) ==> sw_lines(src, addr, offset, temp) == seq![
            AsmLine::Li { dest: temp, imm: offset },
            AsmLine::Add { dest: temp, opr1: addr, opr2: temp },
            AsmLine::Sw { src, addr: temp, offset: 0 },
        ],
        !imm_ok(offset as int) ==> lw_lines(src, addr, offset, temp) == seq![
            AsmLine::Li { dest: temp, imm: offset },
            AsmLine::Add { dest: temp, opr1: addr, opr2: temp },
            AsmLine::Lw { dest: src, addr: temp, offset: 0 },
        ],
{
    if !imm_ok(offset as int) {
        assert(sw_lines(src, addr, offset, temp) =~= seq![
            AsmLine::Li { dest: temp, imm: offset },
            AsmLine::Add { dest: temp, opr1: addr, opr2: temp },
            AsmLine::Sw { src, addr: temp, offset: 0 },
        ]);
        assert(lw_lines(src, addr, offset, temp) =~= seq![
            AsmLine::Li { dest: temp, imm: offset },
            AsmLine::Add { dest: temp, opr1: addr, opr2: temp },
            AsmLine::Lw { dest: src, addr: temp, offset: 0 },
        ]);
    }
}

} // verus!
