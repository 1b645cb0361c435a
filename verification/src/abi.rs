//! The data that both generators read: numeric types, target ABIs and the
//! types that cross the boundary.

use vstd::prelude::*;

verus! {

/// A numeric type that crosses the boundary as a single value.
#[derive(Clone, Copy, Debug, PartialEq, Eq, Structural)]
pub enum NumType {
    U8,
    U16,
    U32,
    U64,
    I8,
    I16,
    I32,
    I64,
    F32,
    F64,
}

/// Whether a number is an unsigned integer.
pub open spec fn num_is_unsigned(t: NumType) -> bool {
    t is U8 || t is U16 || t is U32 || t is U64
}

/// Whether a number is a float.
pub open spec fn num_is_float(t: NumType) -> bool {
    t is F32 || t is F64
}

/// The width of a number in bits.
pub open spec fn num_bits(t: NumType) -> nat {
    match t {
        NumType::U8 | NumType::I8 => 8,
        NumType::U16 | NumType::I16 => 16,
        NumType::U32 | NumType::I32 | NumType::F32 => 32,
        NumType::U64 | NumType::I64 | NumType::F64 => 64,
    }
}

/// The target of the generated code.
#[derive(Clone, Copy, Debug, PartialEq, Eq, Structural)]
pub enum Abi {
    Native32,
    Native64,
    Wasm32,
    Wasm64,
}

impl Abi {
    /// Whether the target is WebAssembly.
    pub open spec fn spec_is_wasm(self) -> bool {
        self is Wasm32 || self is Wasm64
    }

    /// Whether the target is WebAssembly.
    pub fn is_wasm(&self) -> (r: bool)
        ensures
            r == self.spec_is_wasm(),
    {
        match self {
            Abi::Wasm32 | Abi::Wasm64 => true,
            _ => false,
        }
    }

    /// The signed integer type of a pointer's width.
    pub open spec fn spec_iptr(self) -> NumType {
        match self {
            Abi::Native32 | Abi::Wasm32 => NumType::I32,
            Abi::Native64 | Abi::Wasm64 => NumType::I64,
        }
    }

    /// The signed integer type of a pointer's width.
    pub fn iptr(&self) -> (r: NumType)
        ensures
            r == self.spec_iptr(),
    {
        match self {
            Abi::Native32 | Abi::Wasm32 => NumType::I32,
            Abi::Native64 | Abi::Wasm64 => NumType::I64,
        }
    }
}

/// A type as it appears in a signature of the interface.
#[derive(Debug)]
pub enum AbiType {
    Num(NumType),
    Isize,
    Usize,
    Bool,
    RefStr,
    String,
    RefSlice(NumType),
    Vec(NumType),
    Option(Box<AbiType>),
    Result(Box<AbiType>),
    Object(String),
    RefObject(String),
    Tuple(Vec<AbiType>),
    RefIter(Box<AbiType>),
    Iter(Box<AbiType>),
    RefFuture(Box<AbiType>),
    Future(Box<AbiType>),
    RefStream(Box<AbiType>),
    Stream(Box<AbiType>),
    Buffer(NumType),
    List(String),
    RefEnum(String),
}

/// What kind of callable a function of the interface is.
#[derive(Debug)]
pub enum FunctionType {
    /// A static constructor of the named object.
    Constructor(String),
    /// A method of the named object.
    Method(String),
    /// The step function of the iterator with the given symbol and item type.
    NextIter(String, AbiType),
    /// The poll function of the future with the given symbol and output type.
    PollFuture(String, AbiType),
    /// The poll function of the stream with the given symbol and item type.
    PollStream(String, AbiType),
    /// A free function.
    Function,
}

/// A numbered temporary of the generated code, with its type.
#[derive(Debug)]
pub struct Var {
    pub binding: u32,
    pub ty: AbiType,
}

} // verus!
