//! The operand resolver's value forms: the resolved shape of an IR value for
//! code generation, and the uniform read/write emission protocol for each
//! form, including the stack-based calling convention for arguments beyond
//! the eight argument registers.

use vstd::prelude::*;

use crate::emitter::{imm_ok, lw_lines, mv_lines, sw_lines, AsmBuilder, AsmLine, Reg};

verus! {

/// A stack-resident storage location: a byte offset from the stack pointer
/// and a flag telling a stored address apart from a stored scalar.
#[derive(Clone, Copy, PartialEq, Eq, Structural, Debug)]
pub struct Slot {
    /// Byte offset from the stack pointer.
    pub offset: u32,
    /// Whether the slot holds an address rather than a scalar, so that
    /// access through it takes one extra indirection.
    pub is_ptr: bool,
}

/// A global/local value: the resolved form of an IR value for code
/// generation.
#[derive(Clone, PartialEq, Debug)]
pub enum AsmValue {
    /// A global symbol, addressed by name.
    Global(String),
    /// A stack-resident local.
    Local(Slot),
    /// A compile-time constant; never a write target.
    Const(i32),
    /// A function argument, by index.
    Arg(usize),
    /// No value.
    Void,
}

/// Lines that read the given assembly value into `reg`: a global is
/// addressed then loaded, a local is loaded from its stack slot, and a
/// constant is materialized by a load-immediate.
pub open spec fn write_to_lines(v: AsmValue, reg: Reg) -> Seq<AsmLine> {
    match v {
        AsmValue::Global(symbol) => seq![AsmLine::La { dest: reg, symbol }] + lw_lines(
            reg,
            reg,
            0,
            reg,
        ),
        AsmValue::Local(slot) => lw_lines(reg, Reg::Sp, slot.offset as i32, reg),
        AsmValue::Const(num) => seq![AsmLine::Li { dest: reg, imm: num }],
        _ => Seq::<AsmLine>::empty(),
    }
}

/// Lines that read an incoming argument into `reg`: the first eight
/// arguments come from the argument registers, the rest from the caller's
/// outgoing-argument area just above this function's frame of size
/// `sp_offset`.
pub open spec fn write_arg_to_lines(index: usize, reg: Reg, sp_offset: u32) -> Seq<AsmLine> {
    if index < 8 {
        mv_lines(reg, Reg::A(index as u8))
    } else {
        lw_lines(reg, Reg::Sp, (sp_offset + (index - 8) * 4) as i32, reg)
    }
}

/// Lines that store the contents of `reg` into the given assembly value: a
/// global is addressed through `temp` then stored, a local is stored into
/// its stack slot, an argument goes to its register or to the
/// outgoing-argument area at the bottom of the frame, and no value emits
/// nothing.
pub open spec fn read_from_lines(v: AsmValue, reg: Reg, temp: Reg) -> Seq<AsmLine> {
    match v {
        AsmValue::Global(symbol) => seq![AsmLine::La { dest: temp, symbol }] + sw_lines(
            reg,
            temp,
            0,
            temp,
        ),
        AsmValue::Local(slot) => sw_lines(reg, Reg::Sp, slot.offset as i32, temp),
        AsmValue::Arg(index) => if index < 8 {
            mv_lines(Reg::A(index as u8), reg)
        } else {
            sw_lines(reg, Reg::Sp, ((index - 8) * 4) as i32, temp)
        },
        AsmValue::Void => Seq::<AsmLine>::empty(),
        _ => Seq::<AsmLine>::empty(),
    }
}

impl AsmValue {
    /// Returns `true` if the value is a pointer.
    pub fn is_ptr(&self) -> (r: bool)
        ensures
            r == self.spec_is_ptr(),
    {
        match self {
            AsmValue::Local(slot) => slot.is_ptr,
            _ => false,
        }
    }

    /// Whether the value is a stack-resident local whose slot holds an
    /// address rather than a scalar.
    pub open spec fn spec_is_ptr(&self) -> bool {
        match *self {
            AsmValue::Local(slot) => slot.is_ptr,
            _ => false,
        }
    }

    /// Writes the assembly value to the given register. A constant is
    /// read-only and an argument takes the argument-aware path, so only
    /// globals, locals and constants may reach this; the resolver never
    /// hands an out-of-range slot offset in a well-formed frame.
    pub fn write_to(&self, b: &mut AsmBuilder, reg: Reg)
        requires
            !(self matches AsmValue::Arg(_)),
            !(self matches AsmValue::Void),
            self matches AsmValue::Local(slot) ==> slot.offset <= i32::MAX,
        ensures
            final(b).lines@ == old(b).lines@ + write_to_lines(*self, reg),
    {
        match self {
            AsmValue::Global(symbol) => {
                b.la(reg, symbol.clone());
                b.lw(reg, reg, 0, reg);
                proof {
                    assert(final(b).lines@ =~= old(b).lines@ + write_to_lines(*self, reg));
                }
            },
            AsmValue::Local(slot) => {
                b.lw(reg, Reg::Sp, slot.offset as i32, reg);
            },
            AsmValue::Const(num) => {
                b.li(reg, *num);
                proof {
                    assert(final(b).lines@ =~= old(b).lines@ + write_to_lines(*self, reg));
                }
            },
            _ => {
                proof {
                    assert(false);
                }
            },
        }
    }

    /// Writes the assembly value (argument) to the given register, reading
    /// an argument past the eighth from the caller's frame just above this
    /// function's frame of size `sp_offset`.
    pub fn write_arg_to(&self, b: &mut AsmBuilder, reg: Reg, sp_offset: u32)
        requires
            self matches AsmValue::Arg(index) && (index >= 8 ==> sp_offset + (index - 8) * 4
                <= i32::MAX),
        ensures
            final(b).lines@ == old(b).lines@ + write_arg_to_lines(self->Arg_0, reg, sp_offset),
    {
        match self {
            AsmValue::Arg(index) => {
                if *index < 8 {
                    b.mv(reg, Reg::A(*index as u8));
                } else {
                    b.lw(reg, Reg::Sp, (sp_offset + ((*index - 8) * 4) as u32) as i32, reg);
                }
            },
            _ => {
                proof {
                    assert(false);
                }
            },
        }
    }

    /// Reads the value of the given register into the assembly value. A
    /// constant is never a write target.
    pub fn read_from(&self, b: &mut AsmBuilder, reg: Reg, temp: Reg)
        requires
            !(self matches AsmValue::Const(_)),
            self matches AsmValue::Local(slot) ==> slot.offset <= i32::MAX,
            self matches AsmValue::Arg(index) ==> (index - 8) * 4 <= i32::MAX,
        ensures
            final(b).lines@ == old(b).lines@ + read_from_lines(*self, reg, temp),
    {
        match self {
            AsmValue::Global(symbol) => {
                b.la(temp, symbol.clone());
                b.sw(reg, temp, 0, temp);
                proof {
                    assert(final(b).lines@ =~= old(b).lines@ + read_from_lines(*self, reg, temp));
                }
            },
            AsmValue::Local(slot) => {
                b.sw(reg, Reg::Sp, slot.offset as i32, temp);
            },
            AsmValue::Arg(index) => {
                if *index < 8 {
                    b.mv(Reg::A(*index as u8), reg);
                } else {
                    b.sw(reg, Reg::Sp, ((*index - 8) * 4) as i32, temp);
                }
            },
            AsmValue::Void => {
                proof {
                    assert(final(b).lines@ =~= old(b).lines@ + read_from_lines(*self, reg, temp));
                }
            },
            _ => {
                proof {
                    assert(false);
                }
            },
        }
    }
}

impl From<Option<Slot>> for AsmValue {
    /// A present slot resolves to a stack-resident local; an absent one to
    /// no value.
    fn from(v: Option<Slot>) -> (r: AsmValue) {
        match v {
            Some(slot) => AsmValue::Local(slot),
            None => AsmValue::Void,
        }
    }
}

impl vstd::std_specs::convert::FromSpecImpl<Option<Slot>> for AsmValue {
    open spec fn obeys_from_spec() -> bool {
        true
    }

    open spec fn from_spec(v: Option<Slot>) -> AsmValue {
        match v {
            Some(slot) => AsmValue::Local(slot),
            None => AsmValue::Void,
        }
    }
}

/// Argument spill law: storing call argument `index` places arguments below
/// index 8 in argument register `a0`..`a7` by a single move, and arguments
/// at index 8 and above at the caller-frame stack offset `(index - 8) * 4`,
/// which is strictly increasing with the index; a spill offset that is
/// itself encodable is a single store at exactly that offset.
pub proof fn lemma_argument_spill(index: usize, reg: Reg, temp: Reg)
    requires
        (index - 8) * 4 <= i32::MAX,
    ensures
        index < 8 ==> read_from_lines(AsmValue::Arg(index), reg, temp) == mv_lines(
            Reg::A(index as u8),
            reg,
        ),
        index >= 8 ==> read_from_lines(AsmValue::Arg(index), reg, temp) == sw_lines(
            reg,
            Reg::Sp,
            spill_offset(index) as i32,
            temp,
        ),
        index >= 8 && imm_ok(spill_offset(index)) ==> read_from_lines(
            AsmValue::Arg(index),
            reg,
            temp,
        ) == seq![
            AsmLine::Sw { src: reg, addr: Reg::Sp, offset: spill_offset(index) as i32 },
        ],
        forall|j: usize|
            8 <= index < j && (j - 8) * 4 <= i32::MAX ==> spill_offset(index) < spill_offset(j),
{
}

/// The caller-frame stack offset that receives a spilled argument.
pub open spec fn spill_offset(index: usize) -> int {
    (index - 8) * 4
}

} // verus!
