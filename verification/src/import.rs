//! Imported functions after lowering: the steps that turn Dart values into
//! the numbers of a C call and the results back into Dart values.

use vstd::prelude::*;
use crate::abi::{AbiType, FunctionType, NumType};

verus! {

/// One step of the body of a Dart wrapper. Temporaries are numbered.
#[derive(Debug)]
pub enum Instr {
    /// The handle of `this`, borrowed.
    BorrowSelf(u32),
    /// Object, handle.
    BorrowObject(u32, u32),
    /// Object, handle; the object gives up its handle.
    MoveObject(u32, u32),
    MoveFuture(u32, u32),
    MoveStream(u32, u32),
    /// Class, handle, destructor symbol, result.
    MakeObject(String, u32, String, u32),
    /// Parameter name, result.
    BindArg(String, u32),
    /// Result struct, field index, result.
    BindRet(u32, usize, u32),
    LowerNum(u32, u32, NumType),
    LiftNum(u32, u32, NumType),
    LowerBool(u32, u32),
    LiftBool(u32, u32),
    StrLen(u32, u32),
    VecLen(u32, u32),
    /// Pointer, length, element size, alignment.
    Allocate(u32, u32, usize, usize),
    /// Pointer, length, element size, alignment.
    Deallocate(u32, u32, usize, usize),
    /// String, pointer, length.
    LowerString(u32, u32, u32),
    /// Pointer, length, result.
    LiftString(u32, u32, u32),
    /// List, pointer, length, element type.
    LowerVec(u32, u32, u32, NumType),
    /// Pointer, length, result, element type.
    LiftVec(u32, u32, u32, NumType),
    /// Symbol, result, arguments.
    Call(String, u32, Vec<u32>),
    ReturnValue(u32),
    ReturnVoid,
}

/// A native symbol that Dart looks up: its parameters and its results, all
/// numbers.
#[derive(Debug)]
pub struct Import {
    pub symbol: String,
    pub args: Vec<(String, NumType)>,
    pub ret: Vec<NumType>,
}

/// A function of the interface as Dart offers it, with the steps of its body.
#[derive(Debug)]
pub struct ImportedFunction {
    pub ty: FunctionType,
    pub name: String,
    pub args: Vec<(String, AbiType)>,
    pub ret: Option<AbiType>,
    pub instr: Vec<Instr>,
}

/// A Dart class that wraps an object of the library.
#[derive(Debug)]
pub struct ImportedObject {
    pub name: String,
    pub methods: Vec<ImportedFunction>,
}

/// Everything the Dart side imports.
#[derive(Debug)]
pub struct ImportedInterface {
    pub functions: Vec<ImportedFunction>,
    pub objects: Vec<ImportedObject>,
    pub imports: Vec<Import>,
}

} // verus!
