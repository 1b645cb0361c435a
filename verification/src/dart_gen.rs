//! The Dart side of the bindings: a class `Api` whose methods lower their
//! arguments, call the native symbols and lift the results.

use vstd::prelude::*;
use crate::abi::{num_bits, num_is_float, num_is_unsigned, AbiType, FunctionType, NumType};
use crate::import::{Import, ImportedFunction, ImportedObject, Instr};
use crate::text;

verus! {

/// The Dart type of a number: `double` for floats, `int` for the rest.
pub open spec fn dart_wrapped_num_type(t: NumType) -> Seq<char> {
    match t {
        NumType::F32 | NumType::F64 => "double"@,
        _ => "int"@,
    }
}

/// The `dart:ffi` type of a number.
pub open spec fn dart_native_num_type(t: NumType) -> Seq<char> {
    match t {
        NumType::I8 => "ffi.Int8"@,
        NumType::I16 => "ffi.Int16"@,
        NumType::I32 => "ffi.Int32"@,
        NumType::I64 => "ffi.Int64"@,
        NumType::U8 => "ffi.Uint8"@,
        NumType::U16 => "ffi.Uint16"@,
        NumType::U32 => "ffi.Uint32"@,
        NumType::U64 => "ffi.Uint64"@,
        NumType::F32 => "ffi.Float"@,
        NumType::F64 => "ffi.Double"@,
    }
}

proof fn lemma_width_digits()
    ensures
        text::decimal(8) == seq!['8'],
        text::decimal(16) == seq!['1', '6'],
        text::decimal(32) == seq!['3', '2'],
        text::decimal(64) == seq!['6', '4'],
{
    reveal_with_fuel(text::decimal, 2);
    assert(text::decimal(16) =~= seq!['1', '6']);
    assert(text::decimal(32) =~= seq!['3', '2']);
    assert(text::decimal(64) =~= seq!['6', '4']);
}

/// The `dart:ffi` type of a number keeps its signedness and width: an
/// unsigned integer of `n` bits is `ffi.Uint<n>`, a signed one `ffi.Int<n>`;
/// floats of 32 and 64 bits are `ffi.Float` and `ffi.Double`.
pub proof fn lemma_native_num_type_keeps_sign_and_width(t: NumType)
    ensures
        !num_is_float(t) ==> dart_native_num_type(t) == (if num_is_unsigned(t) {
            "ffi.Uint"@
        } else {
            "ffi.Int"@
        }) + text::decimal(num_bits(t)),
        num_is_float(t) && num_bits(t) == 32 ==> dart_native_num_type(t) == "ffi.Float"@,
        num_is_float(t) && num_bits(t) == 64 ==> dart_native_num_type(t) == "ffi.Double"@,
{
    lemma_width_digits();
    reveal_strlit("ffi.Uint");
    reveal_strlit("ffi.Int");
    reveal_strlit("ffi.Uint8");
    reveal_strlit("ffi.Uint16");
    reveal_strlit("ffi.Uint32");
    reveal_strlit("ffi.Uint64");
    reveal_strlit("ffi.Int8");
    reveal_strlit("ffi.Int16");
    reveal_strlit("ffi.Int32");
    reveal_strlit("ffi.Int64");
    match t {
        NumType::U8 => assert("ffi.Uint8"@ =~= "ffi.Uint"@ + seq!['8']),
        NumType::U16 => assert("ffi.Uint16"@ =~= "ffi.Uint"@ + seq!['1', '6']),
        NumType::U32 => assert("ffi.Uint32"@ =~= "ffi.Uint"@ + seq!['3', '2']),
        NumType::U64 => assert("ffi.Uint64"@ =~= "ffi.Uint"@ + seq!['6', '4']),
        NumType::I8 => assert("ffi.Int8"@ =~= "ffi.Int"@ + seq!['8']),
        NumType::I16 => assert("ffi.Int16"@ =~= "ffi.Int"@ + seq!['1', '6']),
        NumType::I32 => assert("ffi.Int32"@ =~= "ffi.Int"@ + seq!['3', '2']),
        NumType::I64 => assert("ffi.Int64"@ =~= "ffi.Int"@ + seq!['6', '4']),
        _ => {},
    }
}

/// The Dart type of a number is `double` exactly for floats and `int` for
/// every integer.
pub proof fn lemma_wrapped_num_type_by_kind(t: NumType)
    ensures
        dart_wrapped_num_type(t) == (if num_is_float(t) {
            "double"@
        } else {
            "int"@
        }),
{
}

/// The name of the struct through which `symbol` returns several numbers.
pub open spec fn dart_return_struct_name(symbol: Seq<char>) -> Seq<char> {
    symbol + "Return"@
}

/// The native result type of `symbol`: `ffi.Void`, the one number, or its
/// result struct.
pub open spec fn dart_native_return_type(symbol: Seq<char>, ret: Seq<NumType>) -> Seq<char> {
    if ret.len() == 0 {
        "ffi.Void"@
    } else if ret.len() == 1 {
        dart_native_num_type(ret[0])
    } else {
        dart_return_struct_name(symbol)
    }
}

/// The Dart result type of `symbol`: `void`, the one number, or its result
/// struct.
pub open spec fn dart_wrapped_return_type(symbol: Seq<char>, ret: Seq<NumType>) -> Seq<char> {
    if ret.len() == 0 {
        "void"@
    } else if ret.len() == 1 {
        dart_wrapped_num_type(ret[0])
    } else {
        dart_return_struct_name(symbol)
    }
}

/// The field `arg<i>` of a result struct.
pub open spec fn dart_return_struct_field(i: nat, t: NumType) -> Seq<char> {
    "@"@ + dart_native_num_type(t) + "()\nexternal "@ + dart_wrapped_num_type(t) + " arg"@ + text::decimal(i) + ";\n"@
}

/// The fields of a result struct, numbered from zero.
pub open spec fn dart_return_struct_fields(ret: Seq<NumType>) -> Seq<char>
    decreases ret.len(),
{
    if ret.len() == 0 {
        Seq::empty()
    } else {
        dart_return_struct_fields(ret.drop_last()) + dart_return_struct_field((ret.len() - 1) as nat, ret.last())
    }
}

/// The result struct of `symbol` when it returns several numbers; nothing
/// otherwise.
pub open spec fn dart_return_struct(symbol: Seq<char>, ret: Seq<NumType>) -> Seq<char> {
    if ret.len() < 2 {
        Seq::empty()
    } else {
        "class "@ + dart_return_struct_name(symbol) + " extends ffi.Struct {\n"@ + dart_return_struct_fields(ret) + "}\n"@
    }
}

/// The native types of parameters, each followed by a comma.
pub open spec fn dart_native_args(args: Seq<(String, NumType)>) -> Seq<char>
    decreases args.len(),
{
    if args.len() == 0 {
        Seq::empty()
    } else {
        dart_native_args(args.drop_last()) + dart_native_num_type(args.last().1) + ","@
    }
}

/// The Dart types of parameters, each followed by a comma.
pub open spec fn dart_wrapped_args(args: Seq<(String, NumType)>) -> Seq<char>
    decreases args.len(),
{
    if args.len() == 0 {
        Seq::empty()
    } else {
        dart_wrapped_args(args.drop_last()) + dart_wrapped_num_type(args.last().1) + ","@
    }
}

/// The lookup of a native symbol and its conversion to a Dart function.
pub open spec fn dart_wrapper(func: Import) -> Seq<char> {
    "late final "@ + func.symbol@ + "Ptr =\n_lookup<ffi.NativeFunction<"@
        + dart_native_return_type(func.symbol@, func.ret@) + " Function("@ + dart_native_args(func.args@) + ")>>(\""@
        + func.symbol@ + "\");\n\nlate final "@ + func.symbol@ + " =\n"@ + func.symbol@ + "Ptr.asFunction<"@
        + dart_wrapped_return_type(func.symbol@, func.ret@) + " Function("@ + dart_wrapped_args(func.args@) + ")>();\n"@
}

/// A symbol is looked up under its own name with its native signature (native result and parameter types), and converted to a Dart function with its Dart signature.
pub proof fn lemma_wrapper_shape(func: Import)
    ensures
        text::has_sub(dart_wrapper(func), (func.symbol@ + "Ptr =\n_lookup<ffi.NativeFunction<"@ + dart_native_return_type(func.symbol@, func.ret@) + " Function("@ + dart_native_args(func.args@) + ")>>(\""@ + func.symbol@)),
        text::has_sub(dart_wrapper(func), (func.symbol@ + " =\n"@ + func.symbol@ + "Ptr.asFunction<"@ + dart_wrapped_return_type(func.symbol@, func.ret@) + " Function("@ + dart_wrapped_args(func.args@) + ")>();\n"@)),
{
    let whole = dart_wrapper(func);
    assert(whole =~= ("late final "@) + (func.symbol@ + "Ptr =\n_lookup<ffi.NativeFunction<"@ + dart_native_return_type(func.symbol@, func.ret@) + " Function("@ + dart_native_args(func.args@) + ")>>(\""@ + func.symbol@) + ("\");\n\nlate final "@ + func.symbol@ + " =\n"@ + func.symbol@ + "Ptr.asFunction<"@ + dart_wrapped_return_type(func.symbol@, func.ret@) + " Function("@ + dart_wrapped_args(func.args@) + ")>();\n"@)) by {}
    text::lemma_has_sub_middle(("late final "@), (func.symbol@ + "Ptr =\n_lookup<ffi.NativeFunction<"@ + dart_native_return_type(func.symbol@, func.ret@) + " Function("@ + dart_native_args(func.args@) + ")>>(\""@ + func.symbol@), ("\");\n\nlate final "@ + func.symbol@ + " =\n"@ + func.symbol@ + "Ptr.asFunction<"@ + dart_wrapped_return_type(func.symbol@, func.ret@) + " Function("@ + dart_wrapped_args(func.args@) + ")>();\n"@));
    assert(whole =~= ("late final "@ + func.symbol@ + "Ptr =\n_lookup<ffi.NativeFunction<"@ + dart_native_return_type(func.symbol@, func.ret@) + " Function("@ + dart_native_args(func.args@) + ")>>(\""@ + func.symbol@ + "\");\n\nlate final "@) + (func.symbol@ + " =\n"@ + func.symbol@ + "Ptr.asFunction<"@ + dart_wrapped_return_type(func.symbol@, func.ret@) + " Function("@ + dart_wrapped_args(func.args@) + ")>();\n"@) + Seq::<char>::empty()) by {}
    text::lemma_has_sub_middle(("late final "@ + func.symbol@ + "Ptr =\n_lookup<ffi.NativeFunction<"@ + dart_native_return_type(func.symbol@, func.ret@) + " Function("@ + dart_native_args(func.args@) + ")>>(\""@ + func.symbol@ + "\");\n\nlate final "@), (func.symbol@ + " =\n"@ + func.symbol@ + "Ptr.asFunction<"@ + dart_wrapped_return_type(func.symbol@, func.ret@) + " Function("@ + dart_wrapped_args(func.args@) + ")>();\n"@), Seq::<char>::empty());
}

/// Field `arg<i>` of a result struct is annotated with the native type of its number and declared with its Dart type.
pub proof fn lemma_return_struct_field_shape(i: nat, t: NumType)
    ensures
        text::has_sub(dart_return_struct_field(i, t), ("@"@ + dart_native_num_type(t) + "()\nexternal "@ + dart_wrapped_num_type(t) + " arg"@ + text::decimal(i) + ";\n"@)),
{
    let whole = dart_return_struct_field(i, t);
    assert(whole =~= Seq::<char>::empty() + ("@"@ + dart_native_num_type(t) + "()\nexternal "@ + dart_wrapped_num_type(t) + " arg"@ + text::decimal(i) + ";\n"@) + Seq::<char>::empty()) by {}
    text::lemma_has_sub_middle(Seq::<char>::empty(), ("@"@ + dart_native_num_type(t) + "()\nexternal "@ + dart_wrapped_num_type(t) + " arg"@ + text::decimal(i) + ";\n"@), Seq::<char>::empty());
}

/// Whether the Dart side has a spelling for `ty`.
pub open spec fn dart_type_ok(ty: AbiType) -> bool {
    match ty {
        AbiType::Num(_) | AbiType::Isize | AbiType::Usize | AbiType::Bool | AbiType::RefStr | AbiType::String
        | AbiType::RefSlice(_) | AbiType::Vec(_) | AbiType::Object(_) | AbiType::RefObject(_) => true,
        _ => false,
    }
}

/// The Dart spelling of an interface type.
pub open spec fn dart_type(ty: AbiType) -> Seq<char> {
    match ty {
        AbiType::Num(t) => dart_wrapped_num_type(t),
        AbiType::Isize | AbiType::Usize => "int"@,
        AbiType::Bool => "bool"@,
        AbiType::RefStr | AbiType::String => "String"@,
        AbiType::RefSlice(t) | AbiType::Vec(t) => "List<"@ + dart_wrapped_num_type(t) + ">"@,
        AbiType::Object(t) | AbiType::RefObject(t) => t@,
        _ => Seq::empty(),
    }
}

/// The name of a temporary.
pub open spec fn dart_ident(n: u32) -> Seq<char> {
    "tmp"@ + text::decimal(n as nat)
}

/// Temporaries, each followed by a comma.
pub open spec fn dart_ident_list(ns: Seq<u32>) -> Seq<char>
    decreases ns.len(),
{
    if ns.len() == 0 {
        Seq::empty()
    } else {
        dart_ident_list(ns.drop_last()) + dart_ident(ns.last()) + ","@
    }
}

/// The Dart code of one step of a wrapper's body; `api` is the expression
/// through which the wrapper reaches the `Api` instance.
pub open spec fn dart_instr(api: Seq<char>, instr: Instr) -> Seq<char> {
    match instr {
        Instr::BorrowSelf(o) => "final "@ + dart_ident(o) + " = this._box.borrow();\n"@,
        Instr::BorrowObject(i, o) => "final "@ + dart_ident(o) + " = "@ + dart_ident(i) + "._box.borrow();\n"@,
        Instr::MoveObject(i, o) | Instr::MoveFuture(i, o) | Instr::MoveStream(i, o) => "final "@ + dart_ident(o) + " = "@ + dart_ident(i) + "._box.move();\n"@,
        Instr::MakeObject(obj, bx, drop, o) => "final ffi.Pointer<ffi.Void> "@ + dart_ident(bx) + "_0 = ffi.Pointer.fromAddress("@ + dart_ident(bx) + ");\nfinal "@ + dart_ident(bx) + "_1 = new Box("@ + api + ", "@ + dart_ident(bx) + "_0, \""@ + drop@ + "\");\n"@ + dart_ident(bx) + "_1._finalizer = _registerFinalizer("@ + dart_ident(bx) + "_1);\nfinal "@ + dart_ident(o) + " = new "@ + obj@ + "._("@ + api + ", "@ + dart_ident(bx) + "_1);\n"@,
        Instr::BindArg(arg, o) => "final "@ + dart_ident(o) + " = "@ + arg@ + ";\n"@,
        Instr::BindRet(ret, idx, o) => "final "@ + dart_ident(o) + " = "@ + dart_ident(ret) + ".arg"@ + crate::text::decimal(idx as nat) + ";\n"@,
        Instr::LowerNum(i, o, _) | Instr::LiftNum(i, o, _) => "final int "@ + dart_ident(o) + " = "@ + dart_ident(i) + ";\n"@,
        Instr::LowerBool(i, o) => "final "@ + dart_ident(o) + " = "@ + dart_ident(i) + " ? 1 : 0;\n"@,
        Instr::LiftBool(i, o) => "final "@ + dart_ident(o) + " = "@ + dart_ident(i) + " > 0;\n"@,
        Instr::StrLen(i, o) | Instr::VecLen(i, o) => "final "@ + dart_ident(o) + " = "@ + dart_ident(i) + ".length;\n"@,
        Instr::Allocate(ptr, len, size, align) => "final "@ + dart_ident(ptr) + " = "@ + api + ".allocate("@ + dart_ident(len) + " * "@ + crate::text::decimal(size as nat) + ", "@ + crate::text::decimal(align as nat) + ").address;\n"@,
        Instr::Deallocate(ptr, len, size, align) => "if ("@ + dart_ident(len) + " > 0) {\nfinal ffi.Pointer<ffi.Void> "@ + dart_ident(ptr) + "_0;\n"@ + dart_ident(ptr) + "_0 = ffi.Pointer.fromAddress("@ + dart_ident(ptr) + ");\n"@ + api + ".deallocate("@ + dart_ident(ptr) + "_0, "@ + dart_ident(len) + " * "@ + crate::text::decimal(size as nat) + ", "@ + crate::text::decimal(align as nat) + ");\n}\n"@,
        Instr::LowerString(i, ptr, len) => "final ffi.Pointer<ffi.Uint8> "@ + dart_ident(ptr) + "_0 = ffi.Pointer.fromAddress("@ + dart_ident(ptr) + ");\nfinal "@ + dart_ident(i) + "_0 = utf8.encode("@ + dart_ident(i) + ");\nfinal Uint8List "@ + dart_ident(i) + "_1 = "@ + dart_ident(ptr) + "_0.asTypedList("@ + dart_ident(len) + ");\n"@ + dart_ident(i) + "_1.setAll(0, "@ + dart_ident(i) + "_0);\n"@,
        Instr::LiftString(ptr, len, o) => "final ffi.Pointer<ffi.Uint8> "@ + dart_ident(ptr) + "_0 = ffi.Pointer.fromAddress("@ + dart_ident(ptr) + ");\nfinal "@ + dart_ident(o) + " = utf8.decode("@ + dart_ident(ptr) + "_0.asTypedList("@ + dart_ident(len) + "));\n"@,
        Instr::LowerVec(i, ptr, len, t) => "final ffi.Pointer<"@ + dart_native_num_type(t) + "> "@ + dart_ident(ptr) + "_0 =\nffi.Pointer.fromAddress("@ + dart_ident(ptr) + ");\nfinal "@ + dart_ident(i) + "_1 = "@ + dart_ident(ptr) + "_0.asTypedList("@ + dart_ident(len) + ");\n"@ + dart_ident(i) + "_1.setAll(0, "@ + dart_ident(i) + ");\n"@,
        Instr::LiftVec(ptr, len, o, t) => "final ffi.Pointer<"@ + dart_native_num_type(t) + "> "@ + dart_ident(ptr) + "_0 =\nffi.Pointer.fromAddress("@ + dart_ident(ptr) + ");\nfinal "@ + dart_ident(o) + " = "@ + dart_ident(ptr) + "_0.asTypedList("@ + dart_ident(len) + ").toList();\n"@,
        Instr::Call(symbol, ret, args) => "final "@ + dart_ident(ret) + " = "@ + api + "."@ + symbol@ + "("@ + dart_ident_list(args@) + ");\n"@,
        Instr::ReturnValue(ret) => "return "@ + dart_ident(ret) + ";\n"@,
        Instr::ReturnVoid => "return;\n"@,
    }
}

/// A new object wraps its handle in a `Box` whose destructor is the named symbol, and becomes an instance of the named class.
pub proof fn lemma_make_object(api: Seq<char>, obj: String, bx: u32, drop: String, o: u32)
    ensures
        text::has_sub(dart_instr(api, Instr::MakeObject(obj, bx, drop, o)), ("_1 = new Box("@ + api + ", "@ + dart_ident(bx) + "_0, \""@ + drop@)),
        text::has_sub(dart_instr(api, Instr::MakeObject(obj, bx, drop, o)), (" = new "@ + obj@ + "._("@ + api + ", "@ + dart_ident(bx) + "_1);\n"@)),
{
    let whole = dart_instr(api, Instr::MakeObject(obj, bx, drop, o));
    assert(whole =~= ("final ffi.Pointer<ffi.Void> "@ + dart_ident(bx) + "_0 = ffi.Pointer.fromAddress("@ + dart_ident(bx) + ");\nfinal "@ + dart_ident(bx)) + ("_1 = new Box("@ + api + ", "@ + dart_ident(bx) + "_0, \""@ + drop@) + ("\");\n"@ + dart_ident(bx) + "_1._finalizer = _registerFinalizer("@ + dart_ident(bx) + "_1);\nfinal "@ + dart_ident(o) + " = new "@ + obj@ + "._("@ + api + ", "@ + dart_ident(bx) + "_1);\n"@)) by {}
    text::lemma_has_sub_middle(("final ffi.Pointer<ffi.Void> "@ + dart_ident(bx) + "_0 = ffi.Pointer.fromAddress("@ + dart_ident(bx) + ");\nfinal "@ + dart_ident(bx)), ("_1 = new Box("@ + api + ", "@ + dart_ident(bx) + "_0, \""@ + drop@), ("\");\n"@ + dart_ident(bx) + "_1._finalizer = _registerFinalizer("@ + dart_ident(bx) + "_1);\nfinal "@ + dart_ident(o) + " = new "@ + obj@ + "._("@ + api + ", "@ + dart_ident(bx) + "_1);\n"@));
    assert(whole =~= ("final ffi.Pointer<ffi.Void> "@ + dart_ident(bx) + "_0 = ffi.Pointer.fromAddress("@ + dart_ident(bx) + ");\nfinal "@ + dart_ident(bx) + "_1 = new Box("@ + api + ", "@ + dart_ident(bx) + "_0, \""@ + drop@ + "\");\n"@ + dart_ident(bx) + "_1._finalizer = _registerFinalizer("@ + dart_ident(bx) + "_1);\nfinal "@ + dart_ident(o)) + (" = new "@ + obj@ + "._("@ + api + ", "@ + dart_ident(bx) + "_1);\n"@) + Seq::<char>::empty()) by {}
    text::lemma_has_sub_middle(("final ffi.Pointer<ffi.Void> "@ + dart_ident(bx) + "_0 = ffi.Pointer.fromAddress("@ + dart_ident(bx) + ");\nfinal "@ + dart_ident(bx) + "_1 = new Box("@ + api + ", "@ + dart_ident(bx) + "_0, \""@ + drop@ + "\");\n"@ + dart_ident(bx) + "_1._finalizer = _registerFinalizer("@ + dart_ident(bx) + "_1);\nfinal "@ + dart_ident(o)), (" = new "@ + obj@ + "._("@ + api + ", "@ + dart_ident(bx) + "_1);\n"@), Seq::<char>::empty());
}

/// A result is read from field `arg<idx>` of the result struct.
pub proof fn lemma_bind_ret(api: Seq<char>, ret: u32, idx: usize, o: u32)
    ensures
        text::has_sub(dart_instr(api, Instr::BindRet(ret, idx, o)), (dart_ident(ret) + ".arg"@ + crate::text::decimal(idx as nat) + ";\n"@)),
{
    let whole = dart_instr(api, Instr::BindRet(ret, idx, o));
    assert(whole =~= ("final "@ + dart_ident(o) + " = "@) + (dart_ident(ret) + ".arg"@ + crate::text::decimal(idx as nat) + ";\n"@) + Seq::<char>::empty()) by {}
    text::lemma_has_sub_middle(("final "@ + dart_ident(o) + " = "@), (dart_ident(ret) + ".arg"@ + crate::text::decimal(idx as nat) + ";\n"@), Seq::<char>::empty());
}

/// A `bool` lowers to 1 for `true` and 0 for `false`.
pub proof fn lemma_dart_lower_bool(api: Seq<char>, i: u32, o: u32)
    ensures
        text::has_sub(dart_instr(api, Instr::LowerBool(i, o)), (dart_ident(o) + " = "@ + dart_ident(i) + " ? 1 : 0;\n"@)),
{
    let whole = dart_instr(api, Instr::LowerBool(i, o));
    assert(whole =~= ("final "@) + (dart_ident(o) + " = "@ + dart_ident(i) + " ? 1 : 0;\n"@) + Seq::<char>::empty()) by {}
    text::lemma_has_sub_middle(("final "@), (dart_ident(o) + " = "@ + dart_ident(i) + " ? 1 : 0;\n"@), Seq::<char>::empty());
}

/// A flag lifts to `true` exactly when it is positive.
pub proof fn lemma_dart_lift_bool(api: Seq<char>, i: u32, o: u32)
    ensures
        text::has_sub(dart_instr(api, Instr::LiftBool(i, o)), (dart_ident(o) + " = "@ + dart_ident(i) + " > 0;\n"@)),
{
    let whole = dart_instr(api, Instr::LiftBool(i, o));
    assert(whole =~= ("final "@) + (dart_ident(o) + " = "@ + dart_ident(i) + " > 0;\n"@) + Seq::<char>::empty()) by {}
    text::lemma_has_sub_middle(("final "@), (dart_ident(o) + " = "@ + dart_ident(i) + " > 0;\n"@), Seq::<char>::empty());
}

/// An allocation asks for `len * size` bytes with the given alignment and keeps the address.
pub proof fn lemma_allocate(api: Seq<char>, ptr: u32, len: u32, size: usize, align: usize)
    ensures
        text::has_sub(dart_instr(api, Instr::Allocate(ptr, len, size, align)), (dart_ident(ptr) + " = "@ + api + ".allocate("@ + dart_ident(len) + " * "@ + crate::text::decimal(size as nat) + ", "@ + crate::text::decimal(align as nat) + ").address;\n"@)),
{
    let whole = dart_instr(api, Instr::Allocate(ptr, len, size, align));
    assert(whole =~= ("final "@) + (dart_ident(ptr) + " = "@ + api + ".allocate("@ + dart_ident(len) + " * "@ + crate::text::decimal(size as nat) + ", "@ + crate::text::decimal(align as nat) + ").address;\n"@) + Seq::<char>::empty()) by {}
    text::lemma_has_sub_middle(("final "@), (dart_ident(ptr) + " = "@ + api + ".allocate("@ + dart_ident(len) + " * "@ + crate::text::decimal(size as nat) + ", "@ + crate::text::decimal(align as nat) + ").address;\n"@), Seq::<char>::empty());
}

/// A deallocation happens only for a positive length, and frees `len * size` bytes with the given alignment.
pub proof fn lemma_deallocate(api: Seq<char>, ptr: u32, len: u32, size: usize, align: usize)
    ensures
        text::has_sub(dart_instr(api, Instr::Deallocate(ptr, len, size, align)), ("if ("@ + dart_ident(len))),
        text::has_sub(dart_instr(api, Instr::Deallocate(ptr, len, size, align)), (".deallocate("@ + dart_ident(ptr) + "_0, "@ + dart_ident(len) + " * "@ + crate::text::decimal(size as nat) + ", "@ + crate::text::decimal(align as nat) + ");\n}\n"@)),
{
    let whole = dart_instr(api, Instr::Deallocate(ptr, len, size, align));
    assert(whole =~= Seq::<char>::empty() + ("if ("@ + dart_ident(len)) + (" > 0) {\nfinal ffi.Pointer<ffi.Void> "@ + dart_ident(ptr) + "_0;\n"@ + dart_ident(ptr) + "_0 = ffi.Pointer.fromAddress("@ + dart_ident(ptr) + ");\n"@ + api + ".deallocate("@ + dart_ident(ptr) + "_0, "@ + dart_ident(len) + " * "@ + crate::text::decimal(size as nat) + ", "@ + crate::text::decimal(align as nat) + ");\n}\n"@)) by {}
    text::lemma_has_sub_middle(Seq::<char>::empty(), ("if ("@ + dart_ident(len)), (" > 0) {\nfinal ffi.Pointer<ffi.Void> "@ + dart_ident(ptr) + "_0;\n"@ + dart_ident(ptr) + "_0 = ffi.Pointer.fromAddress("@ + dart_ident(ptr) + ");\n"@ + api + ".deallocate("@ + dart_ident(ptr) + "_0, "@ + dart_ident(len) + " * "@ + crate::text::decimal(size as nat) + ", "@ + crate::text::decimal(align as nat) + ");\n}\n"@));
    assert(whole =~= ("if ("@ + dart_ident(len) + " > 0) {\nfinal ffi.Pointer<ffi.Void> "@ + dart_ident(ptr) + "_0;\n"@ + dart_ident(ptr) + "_0 = ffi.Pointer.fromAddress("@ + dart_ident(ptr) + ");\n"@ + api) + (".deallocate("@ + dart_ident(ptr) + "_0, "@ + dart_ident(len) + " * "@ + crate::text::decimal(size as nat) + ", "@ + crate::text::decimal(align as nat) + ");\n}\n"@) + Seq::<char>::empty()) by {}
    text::lemma_has_sub_middle(("if ("@ + dart_ident(len) + " > 0) {\nfinal ffi.Pointer<ffi.Void> "@ + dart_ident(ptr) + "_0;\n"@ + dart_ident(ptr) + "_0 = ffi.Pointer.fromAddress("@ + dart_ident(ptr) + ");\n"@ + api), (".deallocate("@ + dart_ident(ptr) + "_0, "@ + dart_ident(len) + " * "@ + crate::text::decimal(size as nat) + ", "@ + crate::text::decimal(align as nat) + ");\n}\n"@), Seq::<char>::empty());
}

/// A string is encoded as UTF-8 and copied into `len` bytes at the pointer.
pub proof fn lemma_dart_lower_string(api: Seq<char>, i: u32, ptr: u32, len: u32)
    ensures
        text::has_sub(dart_instr(api, Instr::LowerString(i, ptr, len)), (");\nfinal "@ + dart_ident(i) + "_0 = utf8.encode("@ + dart_ident(i) + ");\nfinal Uint8List "@)),
        text::has_sub(dart_instr(api, Instr::LowerString(i, ptr, len)), (dart_ident(i) + "_1 = "@ + dart_ident(ptr) + "_0.asTypedList("@ + dart_ident(len) + ");\n"@ + dart_ident(i) + "_1.setAll(0, "@ + dart_ident(i) + "_0);\n"@)),
{
    let whole = dart_instr(api, Instr::LowerString(i, ptr, len));
    assert(whole =~= ("final ffi.Pointer<ffi.Uint8> "@ + dart_ident(ptr) + "_0 = ffi.Pointer.fromAddress("@ + dart_ident(ptr)) + (");\nfinal "@ + dart_ident(i) + "_0 = utf8.encode("@ + dart_ident(i) + ");\nfinal Uint8List "@) + (dart_ident(i) + "_1 = "@ + dart_ident(ptr) + "_0.asTypedList("@ + dart_ident(len) + ");\n"@ + dart_ident(i) + "_1.setAll(0, "@ + dart_ident(i) + "_0);\n"@)) by {}
    text::lemma_has_sub_middle(("final ffi.Pointer<ffi.Uint8> "@ + dart_ident(ptr) + "_0 = ffi.Pointer.fromAddress("@ + dart_ident(ptr)), (");\nfinal "@ + dart_ident(i) + "_0 = utf8.encode("@ + dart_ident(i) + ");\nfinal Uint8List "@), (dart_ident(i) + "_1 = "@ + dart_ident(ptr) + "_0.asTypedList("@ + dart_ident(len) + ");\n"@ + dart_ident(i) + "_1.setAll(0, "@ + dart_ident(i) + "_0);\n"@));
    assert(whole =~= ("final ffi.Pointer<ffi.Uint8> "@ + dart_ident(ptr) + "_0 = ffi.Pointer.fromAddress("@ + dart_ident(ptr) + ");\nfinal "@ + dart_ident(i) + "_0 = utf8.encode("@ + dart_ident(i) + ");\nfinal Uint8List "@) + (dart_ident(i) + "_1 = "@ + dart_ident(ptr) + "_0.asTypedList("@ + dart_ident(len) + ");\n"@ + dart_ident(i) + "_1.setAll(0, "@ + dart_ident(i) + "_0);\n"@) + Seq::<char>::empty()) by {}
    text::lemma_has_sub_middle(("final ffi.Pointer<ffi.Uint8> "@ + dart_ident(ptr) + "_0 = ffi.Pointer.fromAddress("@ + dart_ident(ptr) + ");\nfinal "@ + dart_ident(i) + "_0 = utf8.encode("@ + dart_ident(i) + ");\nfinal Uint8List "@), (dart_ident(i) + "_1 = "@ + dart_ident(ptr) + "_0.asTypedList("@ + dart_ident(len) + ");\n"@ + dart_ident(i) + "_1.setAll(0, "@ + dart_ident(i) + "_0);\n"@), Seq::<char>::empty());
}

/// A string is decoded as UTF-8 from `len` bytes at the pointer.
pub proof fn lemma_dart_lift_string(api: Seq<char>, ptr: u32, len: u32, o: u32)
    ensures
        text::has_sub(dart_instr(api, Instr::LiftString(ptr, len, o)), (");\nfinal "@ + dart_ident(o) + " = utf8.decode("@ + dart_ident(ptr) + "_0.asTypedList("@ + dart_ident(len) + "));\n"@)),
{
    let whole = dart_instr(api, Instr::LiftString(ptr, len, o));
    assert(whole =~= ("final ffi.Pointer<ffi.Uint8> "@ + dart_ident(ptr) + "_0 = ffi.Pointer.fromAddress("@ + dart_ident(ptr)) + (");\nfinal "@ + dart_ident(o) + " = utf8.decode("@ + dart_ident(ptr) + "_0.asTypedList("@ + dart_ident(len) + "));\n"@) + Seq::<char>::empty()) by {}
    text::lemma_has_sub_middle(("final ffi.Pointer<ffi.Uint8> "@ + dart_ident(ptr) + "_0 = ffi.Pointer.fromAddress("@ + dart_ident(ptr)), (");\nfinal "@ + dart_ident(o) + " = utf8.decode("@ + dart_ident(ptr) + "_0.asTypedList("@ + dart_ident(len) + "));\n"@), Seq::<char>::empty());
}

/// A list is copied into `len` elements of its native type at the pointer.
pub proof fn lemma_dart_lower_vec(api: Seq<char>, i: u32, ptr: u32, len: u32, t: NumType)
    ensures
        text::has_sub(dart_instr(api, Instr::LowerVec(i, ptr, len, t)), ("final ffi.Pointer<"@ + dart_native_num_type(t) + "> "@ + dart_ident(ptr) + "_0 =\nffi.Pointer.fromAddress("@ + dart_ident(ptr))),
        text::has_sub(dart_instr(api, Instr::LowerVec(i, ptr, len, t)), (");\nfinal "@ + dart_ident(i) + "_1 = "@ + dart_ident(ptr) + "_0.asTypedList("@ + dart_ident(len) + ");\n"@ + dart_ident(i) + "_1.setAll(0, "@ + dart_ident(i) + ");\n"@)),
{
    let whole = dart_instr(api, Instr::LowerVec(i, ptr, len, t));
    assert(whole =~= Seq::<char>::empty() + ("final ffi.Pointer<"@ + dart_native_num_type(t) + "> "@ + dart_ident(ptr) + "_0 =\nffi.Pointer.fromAddress("@ + dart_ident(ptr)) + (");\nfinal "@ + dart_ident(i) + "_1 = "@ + dart_ident(ptr) + "_0.asTypedList("@ + dart_ident(len) + ");\n"@ + dart_ident(i) + "_1.setAll(0, "@ + dart_ident(i) + ");\n"@)) by {}
    text::lemma_has_sub_middle(Seq::<char>::empty(), ("final ffi.Pointer<"@ + dart_native_num_type(t) + "> "@ + dart_ident(ptr) + "_0 =\nffi.Pointer.fromAddress("@ + dart_ident(ptr)), (");\nfinal "@ + dart_ident(i) + "_1 = "@ + dart_ident(ptr) + "_0.asTypedList("@ + dart_ident(len) + ");\n"@ + dart_ident(i) + "_1.setAll(0, "@ + dart_ident(i) + ");\n"@));
    assert(whole =~= ("final ffi.Pointer<"@ + dart_native_num_type(t) + "> "@ + dart_ident(ptr) + "_0 =\nffi.Pointer.fromAddress("@ + dart_ident(ptr)) + (");\nfinal "@ + dart_ident(i) + "_1 = "@ + dart_ident(ptr) + "_0.asTypedList("@ + dart_ident(len) + ");\n"@ + dart_ident(i) + "_1.setAll(0, "@ + dart_ident(i) + ");\n"@) + Seq::<char>::empty()) by {}
    text::lemma_has_sub_middle(("final ffi.Pointer<"@ + dart_native_num_type(t) + "> "@ + dart_ident(ptr) + "_0 =\nffi.Pointer.fromAddress("@ + dart_ident(ptr)), (");\nfinal "@ + dart_ident(i) + "_1 = "@ + dart_ident(ptr) + "_0.asTypedList("@ + dart_ident(len) + ");\n"@ + dart_ident(i) + "_1.setAll(0, "@ + dart_ident(i) + ");\n"@), Seq::<char>::empty());
}

/// A list is read from `len` elements of its native type at the pointer.
pub proof fn lemma_dart_lift_vec(api: Seq<char>, ptr: u32, len: u32, o: u32, t: NumType)
    ensures
        text::has_sub(dart_instr(api, Instr::LiftVec(ptr, len, o, t)), ("final ffi.Pointer<"@ + dart_native_num_type(t) + "> "@ + dart_ident(ptr) + "_0 =\nffi.Pointer.fromAddress("@ + dart_ident(ptr))),
        text::has_sub(dart_instr(api, Instr::LiftVec(ptr, len, o, t)), (");\nfinal "@ + dart_ident(o) + " = "@ + dart_ident(ptr) + "_0.asTypedList("@ + dart_ident(len) + ").toList();\n"@)),
{
    let whole = dart_instr(api, Instr::LiftVec(ptr, len, o, t));
    assert(whole =~= Seq::<char>::empty() + ("final ffi.Pointer<"@ + dart_native_num_type(t) + "> "@ + dart_ident(ptr) + "_0 =\nffi.Pointer.fromAddress("@ + dart_ident(ptr)) + (");\nfinal "@ + dart_ident(o) + " = "@ + dart_ident(ptr) + "_0.asTypedList("@ + dart_ident(len) + ").toList();\n"@)) by {}
    text::lemma_has_sub_middle(Seq::<char>::empty(), ("final ffi.Pointer<"@ + dart_native_num_type(t) + "> "@ + dart_ident(ptr) + "_0 =\nffi.Pointer.fromAddress("@ + dart_ident(ptr)), (");\nfinal "@ + dart_ident(o) + " = "@ + dart_ident(ptr) + "_0.asTypedList("@ + dart_ident(len) + ").toList();\n"@));
    assert(whole =~= ("final ffi.Pointer<"@ + dart_native_num_type(t) + "> "@ + dart_ident(ptr) + "_0 =\nffi.Pointer.fromAddress("@ + dart_ident(ptr)) + (");\nfinal "@ + dart_ident(o) + " = "@ + dart_ident(ptr) + "_0.asTypedList("@ + dart_ident(len) + ").toList();\n"@) + Seq::<char>::empty()) by {}
    text::lemma_has_sub_middle(("final ffi.Pointer<"@ + dart_native_num_type(t) + "> "@ + dart_ident(ptr) + "_0 =\nffi.Pointer.fromAddress("@ + dart_ident(ptr)), (");\nfinal "@ + dart_ident(o) + " = "@ + dart_ident(ptr) + "_0.asTypedList("@ + dart_ident(len) + ").toList();\n"@), Seq::<char>::empty());
}

/// A call invokes the named symbol through the `Api` instance with the argument temporaries in order, and keeps its result.
pub proof fn lemma_dart_call(api: Seq<char>, symbol: String, ret: u32, args: Vec<u32>)
    ensures
        text::has_sub(dart_instr(api, Instr::Call(symbol, ret, args)), ("final "@ + dart_ident(ret) + " = "@ + api + "."@ + symbol@ + "("@ + dart_ident_list(args@) + ");\n"@)),
{
    let whole = dart_instr(api, Instr::Call(symbol, ret, args));
    assert(whole =~= Seq::<char>::empty() + ("final "@ + dart_ident(ret) + " = "@ + api + "."@ + symbol@ + "("@ + dart_ident_list(args@) + ");\n"@) + Seq::<char>::empty()) by {}
    text::lemma_has_sub_middle(Seq::<char>::empty(), ("final "@ + dart_ident(ret) + " = "@ + api + "."@ + symbol@ + "("@ + dart_ident_list(args@) + ");\n"@), Seq::<char>::empty());
}

/// A return hands back the named temporary.
pub proof fn lemma_dart_return_value(api: Seq<char>, ret: u32)
    ensures
        text::has_sub(dart_instr(api, Instr::ReturnValue(ret)), ("return "@ + dart_ident(ret) + ";\n"@)),
{
    let whole = dart_instr(api, Instr::ReturnValue(ret));
    assert(whole =~= Seq::<char>::empty() + ("return "@ + dart_ident(ret) + ";\n"@) + Seq::<char>::empty()) by {}
    text::lemma_has_sub_middle(Seq::<char>::empty(), ("return "@ + dart_ident(ret) + ";\n"@), Seq::<char>::empty());
}

/// The steps of a wrapper's body, one after another.
pub open spec fn dart_instrs(api: Seq<char>, instrs: Seq<Instr>) -> Seq<char>
    decreases instrs.len(),
{
    if instrs.len() == 0 {
        Seq::empty()
    } else {
        dart_instrs(api, instrs.drop_last()) + dart_instr(api, instrs.last())
    }
}

/// The parameters of a Dart function, each a type and a name followed by a
/// comma.
pub open spec fn dart_params(args: Seq<(String, AbiType)>) -> Seq<char>
    decreases args.len(),
{
    if args.len() == 0 {
        Seq::empty()
    } else {
        dart_params(args.drop_last()) + dart_type(args.last().1) + " "@ + args.last().0@ + ","@
    }
}

/// The parameters of a Dart function are declared in the order of its
/// arguments: the declaration of `a + b` is that of `a` followed by that of
/// `b`, and one argument `(name, ty)` is declared as its Dart type, a space,
/// its name and a comma. So the `k`-th declared parameter is `args[k]`.
pub proof fn lemma_dart_params_in_order(a: Seq<(String, AbiType)>, b: Seq<(String, AbiType)>)
    ensures
        dart_params(a + b) == dart_params(a) + dart_params(b),
        b.len() == 1 ==> dart_params(b) == dart_type(b[0].1) + " "@ + b[0].0@ + ","@,
    decreases b.len(),
{
    if b.len() == 0 {
        assert(a + b =~= a);
        assert(dart_params(b) =~= Seq::<char>::empty());
    } else {
        lemma_dart_params_in_order(a, b.drop_last());
        assert((a + b).drop_last() =~= a + b.drop_last());
        assert((a + b).last() == b.last());
        if b.len() == 1 {
            assert(b.drop_last() =~= Seq::<(String, AbiType)>::empty());
        }
    }
}

/// The steps of a Dart body come out in their order: the code of `a + b` is that of `a` followed by that of `b`.
pub proof fn lemma_instrs_in_order(api: Seq<char>, a: Seq<Instr>, b: Seq<Instr>)
    ensures
        dart_instrs(api, a + b) == dart_instrs(api, a) + dart_instrs(api, b),
    decreases b.len(),
{
    if b.len() == 0 {
        assert(a + b =~= a);
        assert(dart_instrs(api, b) =~= Seq::<char>::empty());
    } else {
        lemma_instrs_in_order(api, a, b.drop_last());
        assert((a + b).drop_last() =~= a + b.drop_last());
        assert((a + b).last() == b.last());
    }
}

/// The arguments of a native call keep their order.
pub proof fn lemma_ident_list_in_order(a: Seq<u32>, b: Seq<u32>)
    ensures
        dart_ident_list(a + b) == dart_ident_list(a) + dart_ident_list(b),
    decreases b.len(),
{
    if b.len() == 0 {
        assert(a + b =~= a);
        assert(dart_ident_list(b) =~= Seq::<char>::empty());
    } else {
        lemma_ident_list_in_order(a, b.drop_last());
        assert((a + b).drop_last() =~= a + b.drop_last());
        assert((a + b).last() == b.last());
    }
}

/// The native parameter types of a symbol keep the order of its arguments.
pub proof fn lemma_native_args_in_order(a: Seq<(String, NumType)>, b: Seq<(String, NumType)>)
    ensures
        dart_native_args(a + b) == dart_native_args(a) + dart_native_args(b),
    decreases b.len(),
{
    if b.len() == 0 {
        assert(a + b =~= a);
        assert(dart_native_args(b) =~= Seq::<char>::empty());
    } else {
        lemma_native_args_in_order(a, b.drop_last());
        assert((a + b).drop_last() =~= a + b.drop_last());
        assert((a + b).last() == b.last());
    }
}

/// The Dart parameter types of a symbol keep the order of its arguments.
pub proof fn lemma_wrapped_args_in_order(a: Seq<(String, NumType)>, b: Seq<(String, NumType)>)
    ensures
        dart_wrapped_args(a + b) == dart_wrapped_args(a) + dart_wrapped_args(b),
    decreases b.len(),
{
    if b.len() == 0 {
        assert(a + b =~= a);
        assert(dart_wrapped_args(b) =~= Seq::<char>::empty());
    } else {
        lemma_wrapped_args_in_order(a, b.drop_last());
        assert((a + b).drop_last() =~= a + b.drop_last());
        assert((a + b).last() == b.last());
    }
}

/// Dart functions come out in their order.
pub proof fn lemma_functions_in_order(a: Seq<ImportedFunction>, b: Seq<ImportedFunction>)
    ensures
        dart_functions(a + b) == dart_functions(a) + dart_functions(b),
    decreases b.len(),
{
    if b.len() == 0 {
        assert(a + b =~= a);
        assert(dart_functions(b) =~= Seq::<char>::empty());
    } else {
        lemma_functions_in_order(a, b.drop_last());
        assert((a + b).drop_last() =~= a + b.drop_last());
        assert((a + b).last() == b.last());
    }
}

/// Field `arg<k>` of a Dart result struct has the types of the `k`-th result.
pub proof fn lemma_return_struct_field_at(s: Seq<NumType>, k: int)
    requires
        0 <= k < s.len(),
    ensures
        text::has_sub(dart_return_struct_fields(s), dart_return_struct_field(k as nat, s[k])),
    decreases s.len(),
{
    let last = dart_return_struct_field((s.len() - 1) as nat, s.last());
    assert(dart_return_struct_fields(s) =~= dart_return_struct_fields(s.drop_last()) + last);
    if k == s.len() - 1 {
        text::lemma_has_sub_self(last);
        text::lemma_has_sub_prepend(dart_return_struct_fields(s.drop_last()), last, last);
    } else {
        lemma_return_struct_field_at(s.drop_last(), k);
        assert(s.drop_last()[k] == s[k]);
        text::lemma_has_sub_append(dart_return_struct_fields(s.drop_last()), last, dart_return_struct_field(k as nat, s[k]));
    }
}

/// Whether the Dart side can write `func`: a free function, a method or a
/// constructor whose parameter and result types it can spell.
pub open spec fn dart_function_ok(func: ImportedFunction) -> bool {
    &&& (func.ty is Constructor || func.ty is Method || func.ty is Function)
    &&& forall|k: int| 0 <= k < func.args@.len() ==> #[trigger] dart_type_ok(func.args@[k].1)
    &&& (func.ret matches Some(t) ==> dart_type_ok(t))
}

/// The expression through which a function reaches the `Api` instance.
pub open spec fn dart_api_expr(ty: FunctionType) -> Seq<char> {
    match ty {
        FunctionType::Constructor(_) => "api"@,
        FunctionType::Method(_) => "this._api"@,
        _ => "this"@,
    }
}

/// A Dart function of the interface: a factory for a constructor, a method
/// or a function of `Api` otherwise.
pub open spec fn dart_function(func: ImportedFunction) -> Seq<char> {
    let body = dart_instrs(dart_api_expr(func.ty), func.instr@);
    match func.ty {
        FunctionType::Constructor(object) => "factory "@ + object@ + "."@ + func.name@ + "(Api api, "@
            + dart_params(func.args@) + ") {\n"@ + body + "}\n"@,
        _ => (match func.ret {
            Some(t) => dart_type(t),
            None => "void"@,
        }) + " "@ + func.name@ + "("@ + dart_params(func.args@) + ") {\n"@ + body + "}\n"@,
    }
}

/// A constructor is a factory of its object's class taking the `Api`
/// instance `api`, which its steps use; a method's steps reach the `Api`
/// instance through `this._api`, and a free function's through `this`, the
/// `Api` itself. Either way the parameters follow in order.
pub proof fn lemma_function_reaches_api(func: ImportedFunction)
    ensures
        func.ty matches FunctionType::Constructor(object) ==> {
            &&& text::has_sub(
                dart_function(func),
                "factory "@ + object@ + "."@ + func.name@ + "(Api api, "@ + dart_params(func.args@),
            )
            &&& text::has_sub(dart_function(func), dart_instrs("api"@, func.instr@))
        },
        func.ty is Method ==> text::has_sub(dart_function(func), dart_instrs("this._api"@, func.instr@)),
        func.ty is Function ==> text::has_sub(dart_function(func), dart_instrs("this"@, func.instr@)),
        !(func.ty is Constructor) ==> text::has_sub(
            dart_function(func),
            " "@ + func.name@ + "("@ + dart_params(func.args@) + ") {\n"@,
        ),
{
    let p = dart_params(func.args@);
    match func.ty {
        FunctionType::Constructor(object) => {
            let body = dart_instrs("api"@, func.instr@);
            let head = "factory "@ + object@ + "."@ + func.name@ + "(Api api, "@ + p;
            assert(dart_function(func) =~= head + (") {\n"@ + body + "}\n"@));
            text::lemma_has_sub_middle(Seq::empty(), head, ") {\n"@ + body + "}\n"@);
            assert(Seq::<char>::empty() + head + (") {\n"@ + body + "}\n"@) =~= head + (") {\n"@ + body + "}\n"@));
            assert(dart_function(func) =~= (head + ") {\n"@) + body + "}\n"@);
            text::lemma_has_sub_middle(head + ") {\n"@, body, "}\n"@);
        },
        _ => {
            let body = dart_instrs(dart_api_expr(func.ty), func.instr@);
            let ret = match func.ret {
                Some(t) => dart_type(t),
                None => "void"@,
            };
            let mid = " "@ + func.name@ + "("@ + p + ") {\n"@;
            assert(dart_function(func) =~= ret + mid + (body + "}\n"@));
            text::lemma_has_sub_middle(ret, mid, body + "}\n"@);
            assert(dart_function(func) =~= (ret + mid) + body + "}\n"@);
            text::lemma_has_sub_middle(ret + mid, body, "}\n"@);
        },
    }
}

/// Dart functions, one after another.
pub open spec fn dart_functions(fs: Seq<ImportedFunction>) -> Seq<char>
    decreases fs.len(),
{
    if fs.len() == 0 {
        Seq::empty()
    } else {
        dart_functions(fs.drop_last()) + dart_function(fs.last())
    }
}

/// Whether each of `fs` satisfies `dart_function_ok`.
pub open spec fn dart_functions_ok(fs: Seq<ImportedFunction>) -> bool {
    forall|k: int| 0 <= k < fs.len() ==> #[trigger] dart_function_ok(fs[k])
}

/// The Dart class of an object: its handle, its methods and `drop`.
pub open spec fn dart_object(obj: ImportedObject) -> Seq<char> {
    "class "@ + obj.name@ + " {\nfinal Api _api;\nfinal Box _box;\n\n"@ + obj.name@ + "._(this._api, this._box);\n\n"@
        + dart_functions(obj.methods@) + "\nvoid drop() {\nthis._box.drop();\n}\n}\n"@
}

/// A native symbol's result type names its result struct exactly when it
/// returns two or more numbers, and exactly then the struct is generated,
/// under that name; with no result the types are `ffi.Void` and `void`, and
/// with one they are that number's types.
pub proof fn lemma_return_struct_consistent(symbol: Seq<char>, ret: Seq<NumType>)
    ensures
        ret.len() >= 2 ==> {
            &&& dart_native_return_type(symbol, ret) == dart_return_struct_name(symbol)
            &&& dart_wrapped_return_type(symbol, ret) == dart_return_struct_name(symbol)
            &&& dart_return_struct(symbol, ret).take((6 + dart_return_struct_name(symbol).len()) as int)
                == "class "@ + dart_return_struct_name(symbol)
        },
        ret.len() < 2 ==> dart_return_struct(symbol, ret).len() == 0,
        ret.len() == 0 ==> dart_native_return_type(symbol, ret) == "ffi.Void"@ && dart_wrapped_return_type(
            symbol,
            ret,
        ) == "void"@,
        ret.len() == 1 ==> dart_native_return_type(symbol, ret) == dart_native_num_type(ret[0])
            && dart_wrapped_return_type(symbol, ret) == dart_wrapped_num_type(ret[0]),
{
    if ret.len() >= 2 {
        reveal_strlit("class ");
        let name = dart_return_struct_name(symbol);
        let full = dart_return_struct(symbol, ret);
        assert(full.take((6 + name.len()) as int) =~= "class "@ + name);
    }
}

/// Temporaries with different numbers have different names.
pub proof fn lemma_dart_idents_distinct(a: u32, b: u32)
    requires
        a != b,
    ensures
        dart_ident(a) != dart_ident(b),
{
    if dart_ident(a) == dart_ident(b) {
        reveal_strlit("tmp");
        assert(dart_ident(a).skip(3) =~= text::decimal(a as nat));
        assert(dart_ident(b).skip(3) =~= text::decimal(b as nat));
        text::lemma_decimal_injective(a as nat, b as nat);
    }
}

/// Generates the Dart half of the bindings.
pub struct DartGenerator {
    cdylib_name: String,
}

impl DartGenerator {
    /// The name of the native library, without prefix or extension.
    pub closed spec fn spec_cdylib_name(&self) -> Seq<char> {
        self.cdylib_name@
    }

    /// A generator for the native library `cdylib_name`.
    pub fn new(cdylib_name: String) -> (r: Self)
        ensures
            r.spec_cdylib_name() == cdylib_name@,
    {
        DartGenerator { cdylib_name }
    }

    /// The name of the native library.
    pub fn cdylib_name(&self) -> (r: &str)
        ensures
            r@ == self.spec_cdylib_name(),
    {
        self.cdylib_name.as_str()
    }

    /// The Dart type of a number.
    pub fn generate_wrapped_num_type(&self, t: NumType) -> (r: String)
        ensures
            r@ == dart_wrapped_num_type(t),
    {
        match t {
            NumType::F32 | NumType::F64 => String::from_str("double"),
            _ => String::from_str("int"),
        }
    }

    /// The `dart:ffi` type of a number.
    pub fn generate_native_num_type(&self, t: NumType) -> (r: String)
        ensures
            r@ == dart_native_num_type(t),
    {
        match t {
            NumType::I8 => String::from_str("ffi.Int8"),
            NumType::I16 => String::from_str("ffi.Int16"),
            NumType::I32 => String::from_str("ffi.Int32"),
            NumType::I64 => String::from_str("ffi.Int64"),
            NumType::U8 => String::from_str("ffi.Uint8"),
            NumType::U16 => String::from_str("ffi.Uint16"),
            NumType::U32 => String::from_str("ffi.Uint32"),
            NumType::U64 => String::from_str("ffi.Uint64"),
            NumType::F32 => String::from_str("ffi.Float"),
            NumType::F64 => String::from_str("ffi.Double"),
        }
    }

    /// The native result type of `symbol`.
    pub fn generate_native_return_type(&self, symbol: &str, ret: &Vec<NumType>) -> (r: String)
        ensures
            r@ == dart_native_return_type(symbol@, ret@),
    {
        if ret.len() == 0 {
            String::from_str("ffi.Void")
        } else if ret.len() == 1 {
            self.generate_native_num_type(ret[0])
        } else {
            text::join2(symbol, "Return")
        }
    }

    /// The Dart result type of `symbol`.
    pub fn generate_wrapped_return_type(&self, symbol: &str, ret: &Vec<NumType>) -> (r: String)
        ensures
            r@ == dart_wrapped_return_type(symbol@, ret@),
    {
        if ret.len() == 0 {
            String::from_str("void")
        } else if ret.len() == 1 {
            self.generate_wrapped_num_type(ret[0])
        } else {
            text::join2(symbol, "Return")
        }
    }

    /// The field `arg<i>` of a result struct.
    pub fn generate_return_struct_field(&self, i: usize, t: NumType) -> (r: String)
        ensures
            r@ == dart_return_struct_field(i as nat, t),
    {
        let mut buf = String::new();
        buf.append("@");
        buf.append(self.generate_native_num_type(t).as_str());
        buf.append("()\nexternal ");
        buf.append(self.generate_wrapped_num_type(t).as_str());
        buf.append(" arg");
        buf.append(text::fmt_decimal(i as u64).as_str());
        buf.append(";\n");
        buf
    }

    /// The result struct of `symbol`, or nothing when it returns at most one
    /// number.
    pub fn generate_return_struct(&self, symbol: &str, ret: &Vec<NumType>) -> (r: String)
        ensures
            r@ == dart_return_struct(symbol@, ret@),
    {
        if ret.len() < 2 {
            return String::new();
        }
        let mut fields = String::new();
        let mut i: usize = 0;
        while i < ret.len()
            invariant
                i <= ret@.len(),
                fields@ == dart_return_struct_fields(ret@.take(i as int)),
            decreases ret@.len() - i,
        {
            assert(ret@.take(i + 1).drop_last() =~= ret@.take(i as int));
            fields.append(self.generate_return_struct_field(i, ret[i]).as_str());
            i = i + 1;
        }
        assert(ret@.take(ret@.len() as int) =~= ret@);
        let mut buf = String::new();
        buf.append("class ");
        buf.append(text::join2(symbol, "Return").as_str());
        buf.append(" extends ffi.Struct {\n");
        buf.append(fields.as_str());
        buf.append("}\n");
        buf
    }

    fn native_args(&self, args: &Vec<(String, NumType)>) -> (r: String)
        ensures
            r@ == dart_native_args(args@),
    {
        let mut buf = String::new();
        let mut i: usize = 0;
        while i < args.len()
            invariant
                i <= args@.len(),
                buf@ == dart_native_args(args@.take(i as int)),
            decreases args@.len() - i,
        {
            assert(args@.take(i + 1).drop_last() =~= args@.take(i as int));
            buf.append(self.generate_native_num_type(args[i].1).as_str());
            buf.append(",");
            i = i + 1;
        }
        assert(args@.take(args@.len() as int) =~= args@);
        buf
    }

    fn wrapped_args(&self, args: &Vec<(String, NumType)>) -> (r: String)
        ensures
            r@ == dart_wrapped_args(args@),
    {
        let mut buf = String::new();
        let mut i: usize = 0;
        while i < args.len()
            invariant
                i <= args@.len(),
                buf@ == dart_wrapped_args(args@.take(i as int)),
            decreases args@.len() - i,
        {
            assert(args@.take(i + 1).drop_last() =~= args@.take(i as int));
            buf.append(self.generate_wrapped_num_type(args[i].1).as_str());
            buf.append(",");
            i = i + 1;
        }
        assert(args@.take(args@.len() as int) =~= args@);
        buf
    }

    /// The lookup of a native symbol and its conversion to a Dart function.
    pub fn generate_wrapper(&self, func: &Import) -> (r: String)
        ensures
            r@ == dart_wrapper(*func),
    {
        let symbol = func.symbol.as_str();
        let mut buf = String::new();
        buf.append("late final ");
        buf.append(symbol);
        buf.append("Ptr =\n_lookup<ffi.NativeFunction<");
        buf.append(self.generate_native_return_type(symbol, &func.ret).as_str());
        buf.append(" Function(");
        buf.append(self.native_args(&func.args).as_str());
        buf.append(")>>(\"");
        buf.append(symbol);
        buf.append("\");\n\nlate final ");
        buf.append(symbol);
        buf.append(" =\n");
        buf.append(symbol);
        buf.append("Ptr.asFunction<");
        buf.append(self.generate_wrapped_return_type(symbol, &func.ret).as_str());
        buf.append(" Function(");
        buf.append(self.wrapped_args(&func.args).as_str());
        buf.append(")>();\n");
        buf
    }

    /// Whether the Dart side has a spelling for `ty`.
    pub fn type_ok(&self, ty: &AbiType) -> (r: bool)
        ensures
            r == dart_type_ok(*ty),
    {
        match ty {
            AbiType::Num(_) | AbiType::Isize | AbiType::Usize | AbiType::Bool | AbiType::RefStr | AbiType::String
            | AbiType::RefSlice(_) | AbiType::Vec(_) | AbiType::Object(_) | AbiType::RefObject(_) => true,
            _ => false,
        }
    }

    /// Whether `func` satisfies `dart_function_ok`, which `generate_function`
    /// asks of it.
    pub fn function_ok(&self, func: &ImportedFunction) -> (r: bool)
        ensures
            r == dart_function_ok(*func),
    {
        let kind_ok = match &func.ty {
            FunctionType::Constructor(_) | FunctionType::Method(_) | FunctionType::Function => true,
            _ => false,
        };
        if !kind_ok {
            return false;
        }
        let mut i: usize = 0;
        while i < func.args.len()
            invariant
                i <= func.args@.len(),
                forall|k: int| 0 <= k < i ==> #[trigger] dart_type_ok(func.args@[k].1),
            decreases func.args@.len() - i,
        {
            if !self.type_ok(&func.args[i].1) {
                assert(!dart_type_ok(func.args@[i as int].1));
                return false;
            }
            i = i + 1;
        }
        match &func.ret {
            Some(t) => self.type_ok(t),
            None => true,
        }
    }

    /// Whether each of `fs` satisfies `dart_function_ok`.
    pub fn functions_ok(&self, fs: &Vec<ImportedFunction>) -> (r: bool)
        ensures
            r == dart_functions_ok(fs@),
    {
        let mut i: usize = 0;
        while i < fs.len()
            invariant
                i <= fs@.len(),
                forall|k: int| 0 <= k < i ==> #[trigger] dart_function_ok(fs@[k]),
            decreases fs@.len() - i,
        {
            if !self.function_ok(&fs[i]) {
                assert(!dart_function_ok(fs@[i as int]));
                return false;
            }
            i = i + 1;
        }
        true
    }

    /// The Dart spelling of an interface type.
    pub fn generate_type(&self, ty: &AbiType) -> (r: String)
        requires
            dart_type_ok(*ty),
        ensures
            r@ == dart_type(*ty),
    {
        match ty {
            AbiType::Num(t) => self.generate_wrapped_num_type(*t),
            AbiType::Isize | AbiType::Usize => String::from_str("int"),
            AbiType::Bool => String::from_str("bool"),
            AbiType::RefStr | AbiType::String => String::from_str("String"),
            AbiType::RefSlice(t) | AbiType::Vec(t) => {
                text::wrap("List<", self.generate_wrapped_num_type(*t).as_str(), ">")
            },
            AbiType::Object(t) | AbiType::RefObject(t) => String::from_str(t.as_str()),
            _ => String::new(),
        }
    }

    /// The name of a temporary.
    pub fn ident(&self, n: u32) -> (r: String)
        ensures
            r@ == dart_ident(n),
    {
        text::join2("tmp", text::fmt_decimal(n as u64).as_str())
    }

    fn ident_list(&self, ns: &Vec<u32>) -> (r: String)
        ensures
            r@ == dart_ident_list(ns@),
    {
        let mut buf = String::new();
        let mut i: usize = 0;
        while i < ns.len()
            invariant
                i <= ns@.len(),
                buf@ == dart_ident_list(ns@.take(i as int)),
            decreases ns@.len() - i,
        {
            assert(ns@.take(i + 1).drop_last() =~= ns@.take(i as int));
            buf.append(self.ident(ns[i]).as_str());
            buf.append(",");
            i = i + 1;
        }
        assert(ns@.take(ns@.len() as int) =~= ns@);
        buf
    }

    /// The Dart code of one step of a wrapper's body.
    pub fn generate_instr(&self, api: &str, instr: &Instr) -> (r: String)
        ensures
            r@ == dart_instr(api@, *instr),
    {
        match instr {
            Instr::BorrowSelf(o) => {
                let mut buf = String::new();
                buf.append("final ");
                buf.append(self.ident(*o).as_str());
                buf.append(" = this._box.borrow();\n");
                buf
            },
            Instr::BorrowObject(i, o) => {
                let mut buf = String::new();
                buf.append("final ");
                buf.append(self.ident(*o).as_str());
                buf.append(" = ");
                buf.append(self.ident(*i).as_str());
                buf.append("._box.borrow();\n");
                buf
            },
            Instr::MoveObject(i, o) | Instr::MoveFuture(i, o) | Instr::MoveStream(i, o) => {
                let mut buf = String::new();
                buf.append("final ");
                buf.append(self.ident(*o).as_str());
                buf.append(" = ");
                buf.append(self.ident(*i).as_str());
                buf.append("._box.move();\n");
                buf
            },
            Instr::MakeObject(obj, bx, drop, o) => {
                let mut buf = String::new();
                buf.append("final ffi.Pointer<ffi.Void> ");
                buf.append(self.ident(*bx).as_str());
                buf.append("_0 = ffi.Pointer.fromAddress(");
                buf.append(self.ident(*bx).as_str());
                buf.append(");\nfinal ");
                buf.append(self.ident(*bx).as_str());
                buf.append("_1 = new Box(");
                buf.append(api);
                buf.append(", ");
                buf.append(self.ident(*bx).as_str());
                buf.append("_0, \"");
                buf.append(drop.as_str());
                buf.append("\");\n");
                buf.append(self.ident(*bx).as_str());
                buf.append("_1._finalizer = _registerFinalizer(");
                buf.append(self.ident(*bx).as_str());
                buf.append("_1);\nfinal ");
                buf.append(self.ident(*o).as_str());
                buf.append(" = new ");
                buf.append(obj.as_str());
                buf.append("._(");
                buf.append(api);
                buf.append(", ");
                buf.append(self.ident(*bx).as_str());
                buf.append("_1);\n");
                buf
            },
            Instr::BindArg(arg, o) => {
                let mut buf = String::new();
                buf.append("final ");
                buf.append(self.ident(*o).as_str());
                buf.append(" = ");
                buf.append(arg.as_str());
                buf.append(";\n");
                buf
            },
            Instr::BindRet(ret, idx, o) => {
                let mut buf = String::new();
                buf.append("final ");
                buf.append(self.ident(*o).as_str());
                buf.append(" = ");
                buf.append(self.ident(*ret).as_str());
                buf.append(".arg");
                buf.append(crate::text::fmt_decimal(*idx as u64).as_str());
                buf.append(";\n");
                buf
            },
            Instr::LowerNum(i, o, _) | Instr::LiftNum(i, o, _) => {
                let mut buf = String::new();
                buf.append("final int ");
                buf.append(self.ident(*o).as_str());
                buf.append(" = ");
                buf.append(self.ident(*i).as_str());
                buf.append(";\n");
                buf
            },
            Instr::LowerBool(i, o) => {
                let mut buf = String::new();
                buf.append("final ");
                buf.append(self.ident(*o).as_str());
                buf.append(" = ");
                buf.append(self.ident(*i).as_str());
                buf.append(" ? 1 : 0;\n");
                buf
            },
            Instr::LiftBool(i, o) => {
                let mut buf = String::new();
                buf.append("final ");
                buf.append(self.ident(*o).as_str());
                buf.append(" = ");
                buf.append(self.ident(*i).as_str());
                buf.append(" > 0;\n");
                buf
            },
            Instr::StrLen(i, o) | Instr::VecLen(i, o) => {
                let mut buf = String::new();
                buf.append("final ");
                buf.append(self.ident(*o).as_str());
                buf.append(" = ");
                buf.append(self.ident(*i).as_str());
                buf.append(".length;\n");
                buf
            },
            Instr::Allocate(ptr, len, size, align) => {
                let mut buf = String::new();
                buf.append("final ");
                buf.append(self.ident(*ptr).as_str());
                buf.append(" = ");
                buf.append(api);
                buf.append(".allocate(");
                buf.append(self.ident(*len).as_str());
                buf.append(" * ");
                buf.append(crate::text::fmt_decimal(*size as u64).as_str());
                buf.append(", ");
                buf.append(crate::text::fmt_decimal(*align as u64).as_str());
                buf.append(").address;\n");
                buf
            },
            Instr::Deallocate(ptr, len, size, align) => {
                let mut buf = String::new();
                buf.append("if (");
                buf.append(self.ident(*len).as_str());
                buf.append(" > 0) {\nfinal ffi.Pointer<ffi.Void> ");
                buf.append(self.ident(*ptr).as_str());
                buf.append("_0;\n");
                buf.append(self.ident(*ptr).as_str());
                buf.append("_0 = ffi.Pointer.fromAddress(");
                buf.append(self.ident(*ptr).as_str());
                buf.append(");\n");
                buf.append(api);
                buf.append(".deallocate(");
                buf.append(self.ident(*ptr).as_str());
                buf.append("_0, ");
                buf.append(self.ident(*len).as_str());
                buf.append(" * ");
                buf.append(crate::text::fmt_decimal(*size as u64).as_str());
                buf.append(", ");
                buf.append(crate::text::fmt_decimal(*align as u64).as_str());
                buf.append(");\n}\n");
                buf
            },
            Instr::LowerString(i, ptr, len) => {
                let mut buf = String::new();
                buf.append("final ffi.Pointer<ffi.Uint8> ");
                buf.append(self.ident(*ptr).as_str());
                buf.append("_0 = ffi.Pointer.fromAddress(");
                buf.append(self.ident(*ptr).as_str());
                buf.append(");\nfinal ");
                buf.append(self.ident(*i).as_str());
                buf.append("_0 = utf8.encode(");
                buf.append(self.ident(*i).as_str());
                buf.append(");\nfinal Uint8List ");
                buf.append(self.ident(*i).as_str());
                buf.append("_1 = ");
                buf.append(self.ident(*ptr).as_str());
                buf.append("_0.asTypedList(");
                buf.append(self.ident(*len).as_str());
                buf.append(");\n");
                buf.append(self.ident(*i).as_str());
                buf.append("_1.setAll(0, ");
                buf.append(self.ident(*i).as_str());
                buf.append("_0);\n");
                buf
            },
            Instr::LiftString(ptr, len, o) => {
                let mut buf = String::new();
                buf.append("final ffi.Pointer<ffi.Uint8> ");
                buf.append(self.ident(*ptr).as_str());
                buf.append("_0 = ffi.Pointer.fromAddress(");
                buf.append(self.ident(*ptr).as_str());
                buf.append(");\nfinal ");
                buf.append(self.ident(*o).as_str());
                buf.append(" = utf8.decode(");
                buf.append(self.ident(*ptr).as_str());
                buf.append("_0.asTypedList(");
                buf.append(self.ident(*len).as_str());
                buf.append("));\n");
                buf
            },
            Instr::LowerVec(i, ptr, len, t) => {
                let mut buf = String::new();
                buf.append("final ffi.Pointer<");
                buf.append(self.generate_native_num_type(*t).as_str());
                buf.append("> ");
                buf.append(self.ident(*ptr).as_str());
                buf.append("_0 =\nffi.Pointer.fromAddress(");
                buf.append(self.ident(*ptr).as_str());
                buf.append(");\nfinal ");
                buf.append(self.ident(*i).as_str());
                buf.append("_1 = ");
                buf.append(self.ident(*ptr).as_str());
                buf.append("_0.asTypedList(");
                buf.append(self.ident(*len).as_str());
                buf.append(");\n");
                buf.append(self.ident(*i).as_str());
                buf.append("_1.setAll(0, ");
                buf.append(self.ident(*i).as_str());
                buf.append(");\n");
                buf
            },
            Instr::LiftVec(ptr, len, o, t) => {
                let mut buf = String::new();
                buf.append("final ffi.Pointer<");
                buf.append(self.generate_native_num_type(*t).as_str());
                buf.append("> ");
                buf.append(self.ident(*ptr).as_str());
                buf.append("_0 =\nffi.Pointer.fromAddress(");
                buf.append(self.ident(*ptr).as_str());
                buf.append(");\nfinal ");
                buf.append(self.ident(*o).as_str());
                buf.append(" = ");
                buf.append(self.ident(*ptr).as_str());
                buf.append("_0.asTypedList(");
                buf.append(self.ident(*len).as_str());
                buf.append(").toList();\n");
                buf
            },
            Instr::Call(symbol, ret, args) => {
                let mut buf = String::new();
                buf.append("final ");
                buf.append(self.ident(*ret).as_str());
                buf.append(" = ");
                buf.append(api);
                buf.append(".");
                buf.append(symbol.as_str());
                buf.append("(");
                buf.append(self.ident_list(args).as_str());
                buf.append(");\n");
                buf
            },
            Instr::ReturnValue(ret) => {
                let mut buf = String::new();
                buf.append("return ");
                buf.append(self.ident(*ret).as_str());
                buf.append(";\n");
                buf
            },
            Instr::ReturnVoid => {
                let mut buf = String::new();
                buf.append("return;\n");
                buf
            },
        }
    }

    fn generate_instrs(&self, api: &str, v: &Vec<Instr>) -> (r: String)
        ensures
            r@ == dart_instrs(api@, v@),
    {
        let mut buf = String::new();
        let mut i: usize = 0;
        while i < v.len()
            invariant
                i <= v@.len(),
                buf@ == dart_instrs(api@, v@.take(i as int)),
            decreases v@.len() - i,
        {
            assert(v@.take(i + 1).drop_last() =~= v@.take(i as int));
            buf.append(self.generate_instr(api, &v[i]).as_str());
            i = i + 1;
        }
        assert(v@.take(v@.len() as int) =~= v@);
        buf
    }

    fn params(&self, args: &Vec<(String, AbiType)>) -> (r: String)
        requires
            forall|k: int| 0 <= k < args@.len() ==> #[trigger] dart_type_ok(args@[k].1),
        ensures
            r@ == dart_params(args@),
    {
        let mut buf = String::new();
        let mut i: usize = 0;
        while i < args.len()
            invariant
                i <= args@.len(),
                forall|k: int| 0 <= k < args@.len() ==> #[trigger] dart_type_ok(args@[k].1),
                buf@ == dart_params(args@.take(i as int)),
            decreases args@.len() - i,
        {
            assert(args@.take(i + 1).drop_last() =~= args@.take(i as int));
            assert(dart_type_ok(args@[i as int].1));
            buf.append(self.generate_type(&args[i].1).as_str());
            buf.append(" ");
            buf.append(args[i].0.as_str());
            buf.append(",");
            i = i + 1;
        }
        assert(args@.take(args@.len() as int) =~= args@);
        buf
    }

    /// A Dart function of the interface.
    pub fn generate_function(&self, func: &ImportedFunction) -> (r: String)
        requires
            dart_function_ok(*func),
        ensures
            r@ == dart_function(*func),
    {
        let api = match &func.ty {
            FunctionType::Constructor(_) => "api",
            FunctionType::Method(_) => "this._api",
            _ => "this",
        };
        proof {
            reveal_strlit("api");
            reveal_strlit("this._api");
            reveal_strlit("this");
        }
        let body = self.generate_instrs(api, &func.instr);
        let args = self.params(&func.args);
        let mut buf = String::new();
        match &func.ty {
            FunctionType::Constructor(object) => {
                buf.append("factory ");
                buf.append(object.as_str());
                buf.append(".");
                buf.append(func.name.as_str());
                buf.append("(Api api, ");
            },
            _ => {
                match &func.ret {
                    Some(t) => buf.append(self.generate_type(t).as_str()),
                    None => buf.append("void"),
                }
                buf.append(" ");
                buf.append(func.name.as_str());
                buf.append("(");
            },
        }
        buf.append(args.as_str());
        buf.append(") {\n");
        buf.append(body.as_str());
        buf.append("}\n");
        buf
    }

    /// Dart functions, one after another.
    pub fn generate_functions(&self, fs: &Vec<ImportedFunction>) -> (r: String)
        requires
            dart_functions_ok(fs@),
        ensures
            r@ == dart_functions(fs@),
    {
        let mut buf = String::new();
        let mut i: usize = 0;
        while i < fs.len()
            invariant
                i <= fs@.len(),
                dart_functions_ok(fs@),
                buf@ == dart_functions(fs@.take(i as int)),
            decreases fs@.len() - i,
        {
            assert(fs@.take(i + 1).drop_last() =~= fs@.take(i as int));
            assert(dart_function_ok(fs@[i as int]));
            buf.append(self.generate_function(&fs[i]).as_str());
            i = i + 1;
        }
        assert(fs@.take(fs@.len() as int) =~= fs@);
        buf
    }

    /// The Dart class of an object.
    pub fn generate_object(&self, obj: &ImportedObject) -> (r: String)
        requires
            dart_functions_ok(obj.methods@),
        ensures
            r@ == dart_object(*obj),
    {
        let mut buf = String::new();
        buf.append("class ");
        buf.append(obj.name.as_str());
        buf.append(" {\nfinal Api _api;\nfinal Box _box;\n\n");
        buf.append(obj.name.as_str());
        buf.append("._(this._api, this._box);\n\n");
        buf.append(self.generate_functions(&obj.methods).as_str());
        buf.append("\nvoid drop() {\nthis._box.drop();\n}\n}\n");
        buf
    }
}

} // verus!
