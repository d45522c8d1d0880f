//! Backend of a small compiler: lowers an abstract syntax tree into a
//! graph-structured intermediate representation held in index-based arenas,
//! and lowers that representation into RISC-V assembly, modelled as a
//! sequence of instruction lines.

pub mod emitter;
pub mod ast;
pub mod codegen;
pub mod frame;
pub mod ir;
pub mod irgen;
pub mod values;
