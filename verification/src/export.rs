//! Exported functions after lowering: the steps that turn the numbers of a C
//! call into the library's values and its results back into numbers.

use vstd::prelude::*;
use crate::abi::{AbiType, FunctionType, NumType, Var};

verus! {

/// One step of an exported function's body.
#[derive(Debug)]
pub enum Instr {
    LiftNum(Var, Var),
    LiftIsize(Var, Var),
    LiftUsize(Var, Var),
    /// Low half, high half, result, type of the result.
    LiftNumAsU32Tuple(Var, Var, Var, NumType),
    /// Value, low half, high half, type of the value.
    LowerNumAsU32Tuple(Var, Var, Var, NumType),
    LowerNum(Var, Var),
    LowerIsize(Var, Var),
    LowerUsize(Var, Var),
    LiftBool(Var, Var),
    LowerBool(Var, Var),
    /// Pointer, length, result.
    LiftStr(Var, Var, Var),
    /// Value, pointer, length.
    LowerStr(Var, Var, Var),
    /// Pointer, length, capacity, result.
    LiftString(Var, Var, Var, Var),
    /// Value, pointer, length, capacity.
    LowerString(Var, Var, Var, Var),
    /// Value, pointer, length, capacity, element type.
    LowerVec(Var, Var, Var, Var, NumType),
    /// Pointer, length, result, element type.
    LiftSlice(Var, Var, Var, NumType),
    /// Value, pointer, length, element type.
    LowerSlice(Var, Var, Var, NumType),
    /// Pointer, length, capacity, result, element type.
    LiftVec(Var, Var, Var, Var, NumType),
    /// Handle, result, object type.
    LiftRefObject(Var, Var, String),
    LowerRefObject(Var, Var),
    /// Handle, result, object type.
    LiftObject(Var, Var, String),
    LowerObject(Var, Var),
    LiftRefIter(Var, Var, AbiType),
    LowerRefIter(Var, Var, AbiType),
    LiftIter(Var, Var, AbiType),
    LowerIter(Var, Var, AbiType),
    LiftRefFuture(Var, Var, AbiType),
    LowerRefFuture(Var, Var, AbiType),
    LiftFuture(Var, Var, AbiType),
    LowerFuture(Var, Var, AbiType),
    LiftRefStream(Var, Var, AbiType),
    LowerRefStream(Var, Var, AbiType),
    LiftStream(Var, Var, AbiType),
    LowerStream(Var, Var, AbiType),
    /// Flag, result, inner value, steps that lift the inner value.
    LiftOption(Var, Var, Var, Vec<Instr>),
    /// Value, flag, inner value, steps that lower the inner value.
    LowerOption(Var, Var, Var, Vec<Instr>),
    /// Value, flag, ok value, steps for it, error value, steps for it.
    LowerResult(Var, Var, Var, Vec<Instr>, Var, Vec<Instr>),
    /// Elements, result.
    LiftTuple(Vec<Var>, Var),
    /// Tuple, elements.
    LowerTuple(Var, Vec<Var>),
    /// Kind of callee, receiver, name, result, arguments.
    CallAbi(FunctionType, Option<Var>, String, Option<Var>, Vec<Var>),
    /// Declares the temporaries that hold the results.
    DefineRets(Vec<Var>),
    /// Checks at compile time that a temporary has the named type.
    AssertType(Var, String),
}

/// How an exported function hands back its result.
#[derive(Debug)]
pub enum Return {
    Void,
    Num(Var),
    /// Several numbers, in a `#[repr(C)]` struct of the given name.
    Struct(Vec<Var>, String),
}

/// An exported function: its symbol, its parameters, its result and the
/// steps of its body.
#[derive(Debug)]
pub struct Export {
    pub symbol: String,
    pub ffi_args: Vec<Var>,
    pub ffi_ret: Return,
    pub instr: Vec<Instr>,
}

/// An exported object: its methods and its destructor.
#[derive(Debug)]
pub struct ObjectExport {
    pub name: String,
    pub methods: Vec<Export>,
}

/// An iterator, future or stream that crosses the boundary boxed: its symbol,
/// its item type and its exported step function.
#[derive(Debug)]
pub struct StepExport {
    pub symbol: String,
    pub ty: AbiType,
    pub step: Export,
}

/// One variant of an enum of the interface.
#[derive(Debug)]
pub struct EnumEntry {
    pub name: String,
    pub inner: Option<AbiType>,
}

/// An enum of the interface.
#[derive(Debug)]
pub struct Enum {
    pub ident: String,
    pub entries: Vec<EnumEntry>,
}

/// Everything the Rust side exports.
#[derive(Debug)]
pub struct ExportedInterface {
    pub functions: Vec<Export>,
    pub objects: Vec<ObjectExport>,
    pub iterators: Vec<StepExport>,
    pub futures: Vec<StepExport>,
    pub streams: Vec<StepExport>,
    pub listed_types: Vec<String>,
    pub enums: Vec<Enum>,
}

} // verus!
