//! The abstract syntax tree handed over by the front end. The current
//! source coverage is a single function with a single return statement; the
//! shape mirrors the grammar so that richer constructs extend it without
//! reshaping it.

use vstd::prelude::*;

verus! {

/// A whole compile unit: one function definition.
#[derive(Clone, PartialEq, Debug)]
pub struct CompUnit {
    pub func_def: FuncDef,
}

/// A function definition.
#[derive(Clone, PartialEq, Debug)]
pub struct FuncDef {
    pub func_type: FuncType,
    pub ident: String,
    pub block: Block,
}

/// A function's return type.
#[derive(Clone, Copy, PartialEq, Eq, Structural, Debug)]
pub enum FuncType {
    Int,
}

/// A braced block: one statement.
#[derive(Clone, PartialEq, Debug)]
pub struct Block {
    pub stmt: Stmt,
}

/// A statement.
#[derive(Clone, PartialEq, Debug)]
pub enum Stmt {
    Return(Return),
}

/// A return statement with its integer literal.
#[derive(Clone, Copy, PartialEq, Eq, Structural, Debug)]
pub struct Return {
    pub num: i32,
}

/// The literal returned by the given statement.
pub open spec fn stmt_num(s: Stmt) -> i32 {
    match s {
        Stmt::Return(r) => r.num,
    }
}

} // verus!
