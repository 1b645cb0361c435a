//! The Rust side of the bindings: `extern "C"` functions that lower the
//! library's values to numbers and lift numbers back into values.

use vstd::prelude::*;
use crate::abi::{num_bits, num_is_float, num_is_unsigned, Abi, AbiType, FunctionType, NumType, Var};
use crate::export::Instr;
use crate::text;

verus! {

/// The Rust spelling of a numeric type.
pub open spec fn rs_num_type(t: NumType) -> Seq<char> {
    match t {
        NumType::U8 => "u8"@,
        NumType::U16 => "u16"@,
        NumType::U32 => "u32"@,
        NumType::U64 => "u64"@,
        NumType::I8 => "i8"@,
        NumType::I16 => "i16"@,
        NumType::I32 => "i32"@,
        NumType::I64 => "i64"@,
        NumType::F32 => "f32"@,
        NumType::F64 => "f64"@,
    }
}

/// The numeric type that a value of type `t` has on the boundary: WebAssembly
/// has no integers narrower than 32 bits, so those widen there.
pub open spec fn rs_ffi_num_type(abi: Abi, t: NumType) -> Seq<char> {
    if abi.spec_is_wasm() {
        match t {
            NumType::U8 | NumType::U16 => "u32"@,
            NumType::I8 | NumType::I16 => "i32"@,
            _ => rs_num_type(t),
        }
    } else {
        rs_num_type(t)
    }
}

/// The Rust spelling of an interface type in an exported signature.
pub open spec fn rs_ty(abi: Abi, t: AbiType) -> Seq<char>
    decreases t,
{
    match t {
        AbiType::Num(n) => rs_ffi_num_type(abi, n),
        AbiType::Isize => "isize"@,
        AbiType::Usize => "usize"@,
        AbiType::Bool => "bool"@,
        AbiType::RefStr => "&str"@,
        AbiType::String => "String"@,
        AbiType::RefSlice(n) => "&["@ + rs_num_type(n) + "]"@,
        AbiType::Vec(n) => "Vec<"@ + rs_num_type(n) + ">"@,
        AbiType::Option(inner) => "Option<"@ + rs_ty(abi, *inner) + ">"@,
        AbiType::Result(inner) => "Result<"@ + rs_ty(abi, *inner) + ">"@,
        AbiType::Object(ident) => ident@,
        AbiType::RefObject(ident) => "&"@ + ident@,
        AbiType::Tuple(tys) => "("@ + rs_ty_list(abi, tys@) + ")"@,
        AbiType::RefIter(inner) => "&Vec<"@ + rs_ty(abi, *inner) + ">"@,
        AbiType::Iter(inner) => "Vec<"@ + rs_ty(abi, *inner) + ">"@,
        AbiType::RefFuture(inner) => "&impl Future<Output = "@ + rs_ty(abi, *inner) + ">"@,
        AbiType::Future(inner) => "impl Future<Output = "@ + rs_ty(abi, *inner) + ">"@,
        AbiType::RefStream(inner) => "&impl Stream<Item = "@ + rs_ty(abi, *inner) + ">"@,
        AbiType::Stream(inner) => "impl Stream<Item = "@ + rs_ty(abi, *inner) + ">"@,
        AbiType::Buffer(n) => "FfiBuffer<"@ + rs_num_type(n) + ">"@,
        AbiType::List(ident) => "Vec<"@ + ident@ + ">"@,
        AbiType::RefEnum(ident) => ident@ + "_Wrapper"@,
    }
}

/// The element types of a tuple, each followed by a comma.
pub open spec fn rs_ty_list(abi: Abi, tys: Seq<AbiType>) -> Seq<char>
    decreases tys,
{
    if tys.len() == 0 {
        Seq::empty()
    } else {
        rs_ty_list(abi, tys.drop_last()) + rs_ty(abi, tys.last()) + ","@
    }
}

/// The name of a temporary in the generated code.
pub open spec fn rs_var(v: Var) -> Seq<char> {
    "tmp"@ + text::decimal(v.binding as nat)
}

/// The code of one step of an exported function's body.
pub open spec fn rs_instr(abi: Abi, instr: Instr) -> Seq<char>
    decreases instr,
{
    match instr {
        Instr::LiftNum(i, o) | Instr::LiftIsize(i, o) | Instr::LiftUsize(i, o) => "let "@ + rs_var(o) + " = "@ + rs_var(i) + " as _;\n"@,
        Instr::LiftNumAsU32Tuple(low, high, o, t) => "let "@ + rs_var(o) + " = "@ + rs_num_type(t) + "::from("@ + rs_var(low) + ") | ("@ + rs_num_type(t) + "::from("@ + rs_var(high) + ") << 32);\n"@,
        Instr::LowerNumAsU32Tuple(i, low, high, _t) => rs_var(low) + " = "@ + rs_var(i) + " as u32;\n"@ + rs_var(high) + " = ("@ + rs_var(i) + " >> 32) as u32;\n"@,
        Instr::LowerNum(i, o) | Instr::LowerIsize(i, o) | Instr::LowerUsize(i, o) => rs_var(o) + " = "@ + rs_var(i) + " as _;\n"@,
        Instr::LiftBool(i, o) => "let "@ + rs_var(o) + " = "@ + rs_var(i) + " > 0;\n"@,
        Instr::LowerBool(i, o) => rs_var(o) + " = if "@ + rs_var(i) + " { 1 } else { 0 };\n"@,
        Instr::LiftStr(ptr, len, o) => "let "@ + rs_var(o) + "_0: &[u8] = unsafe { core::slice::from_raw_parts("@ + rs_var(ptr) + " as _, "@ + rs_var(len) + " as _) };\nlet "@ + rs_var(o) + ": &str = unsafe { std::str::from_utf8_unchecked("@ + rs_var(o) + "_0) };\n"@,
        Instr::LowerStr(i, ptr, len) | Instr::LowerSlice(i, ptr, len, _) => rs_var(ptr) + " = "@ + rs_var(i) + ".as_ptr() as _;\n"@ + rs_var(len) + " = "@ + rs_var(i) + ".len() as _;\n"@,
        Instr::LiftString(ptr, len, cap, o) => "let "@ + rs_var(o) + " = unsafe { String::from_raw_parts("@ + rs_var(ptr) + " as _, "@ + rs_var(len) + " as _, "@ + rs_var(cap) + " as _) };\n"@,
        Instr::LowerString(i, ptr, len, cap) | Instr::LowerVec(i, ptr, len, cap, _) => "let "@ + rs_var(i) + "_0 = ManuallyDrop::new("@ + rs_var(i) + ");\n"@ + rs_var(ptr) + " = "@ + rs_var(i) + "_0.as_ptr() as _;\n"@ + rs_var(len) + " = "@ + rs_var(i) + "_0.len() as _;\n"@ + rs_var(cap) + " = "@ + rs_var(i) + "_0.capacity() as _;\n"@,
        Instr::LiftSlice(ptr, len, o, t) => "let "@ + rs_var(o) + ": &["@ + rs_num_type(t) + "] = unsafe { core::slice::from_raw_parts("@ + rs_var(ptr) + " as _, "@ + rs_var(len) + " as _) };\n"@,
        Instr::LiftVec(ptr, len, cap, o, t) => "let "@ + rs_var(o) + " = unsafe { Vec::<"@ + rs_num_type(t) + ">::from_raw_parts("@ + rs_var(ptr) + " as _, "@ + rs_var(len) + " as _, "@ + rs_var(cap) + " as _) };\n"@,
        Instr::LiftRefObject(i, o, obj) => "let "@ + rs_var(o) + " = unsafe { &mut *("@ + rs_var(i) + " as *mut "@ + obj@ + ") };\n"@,
        Instr::LowerRefObject(i, o) | Instr::LowerRefIter(i, o, _) | Instr::LowerRefFuture(i, o, _) | Instr::LowerRefStream(i, o, _) => rs_var(o) + " = "@ + rs_var(i) + " as *const _ as _;\n"@,
        Instr::LiftObject(i, o, obj) => "let "@ + rs_var(o) + " = unsafe { Box::from_raw("@ + rs_var(i) + " as *mut "@ + obj@ + ") };\n"@,
        Instr::LowerObject(i, o) => "let "@ + rs_var(i) + "_0 = assert_send_static("@ + rs_var(i) + ");\n"@ + rs_var(o) + " = Box::into_raw(Box::new("@ + rs_var(i) + "_0)) as _;\n"@,
        Instr::LiftRefIter(i, o, ty) => "let "@ + rs_var(o) + " = unsafe { &mut *("@ + rs_var(i) + " as *mut FfiIter<"@ + rs_ty(abi, ty) + ">) };\n"@,
        Instr::LiftIter(i, o, ty) => "let "@ + rs_var(o) + " = unsafe { Box::from_raw("@ + rs_var(i) + " as *mut FfiIter<"@ + rs_ty(abi, ty) + ">) };\n"@,
        Instr::LiftRefFuture(i, o, ty) => "let "@ + rs_var(o) + " = unsafe { &mut *("@ + rs_var(i) + " as *mut FfiFuture<"@ + rs_ty(abi, ty) + ">) };\n"@,
        Instr::LiftFuture(i, o, ty) => "let "@ + rs_var(o) + " = unsafe { Box::from_raw("@ + rs_var(i) + " as *mut FfiFuture<"@ + rs_ty(abi, ty) + ">) };\n"@,
        Instr::LiftRefStream(i, o, ty) => "let "@ + rs_var(o) + " = unsafe { &mut *("@ + rs_var(i) + " as *mut FfiStream<"@ + rs_ty(abi, ty) + ">) };\n"@,
        Instr::LiftStream(i, o, ty) => "let "@ + rs_var(o) + " = unsafe { Box::from_raw("@ + rs_var(i) + " as *mut FfiStream<"@ + rs_ty(abi, ty) + ">) };\n"@,
        Instr::LiftOption(var, o, inner, steps) => "let "@ + rs_var(o) + " = if "@ + rs_var(var) + " == 0 {\nNone\n} else {\n"@ + rs_instrs(abi, steps@) + "Some("@ + rs_var(inner) + ")\n};\n"@,
        Instr::LowerOption(i, var, some, steps) => "if let Some("@ + rs_var(some) + ") = "@ + rs_var(i) + " {\n"@ + rs_var(var) + " = 1;\n"@ + rs_instrs(abi, steps@) + "} else {\n"@ + rs_var(var) + " = 0;\n}\n"@,
        Instr::LowerResult(i, var, ok, ok_steps, err, err_steps) => "match "@ + rs_var(i) + " {\nOk("@ + rs_var(ok) + ") => {\n"@ + rs_var(var) + " = 1;\n"@ + rs_instrs(abi, ok_steps@) + "}\nErr("@ + rs_var(err) + "_0) => {\n"@ + rs_var(var) + " = 0;\nlet "@ + rs_var(err) + " = "@ + rs_var(err) + "_0.to_string();\n"@ + rs_instrs(abi, err_steps@) + "}\n};\n"@,
        Instr::AssertType(var, ty) => "let "@ + rs_var(var) + "_type_test: &"@ + ty@ + " = &"@ + rs_var(var) + ";\n"@,
        Instr::LowerIter(i, o, ty) => "let "@ + rs_var(o) + "_0 = "@ + rs_lower_iter_source(i, ty) + ";\nlet "@ + rs_var(o) + "_1: FfiIter<"@ + rs_ty(abi, ty) + "> = FfiIter::new("@ + rs_var(o) + "_0);\n"@ + rs_var(o) + " = Box::into_raw(Box::new("@ + rs_var(o) + "_1)) as _;\n"@,
        Instr::LowerFuture(i, o, ty) => "let "@ + rs_var(o) + "_0 = "@ + rs_lower_future_source(i, ty) + ";\nlet "@ + rs_var(o) + "_1: FfiFuture<"@ + rs_ty(abi, ty) + "> = FfiFuture::new("@ + rs_var(o) + "_0);\n"@ + rs_var(o) + " = Box::into_raw(Box::new("@ + rs_var(o) + "_1)) as _;\n"@,
        Instr::LowerStream(i, o, ty) => "let "@ + rs_var(o) + "_0: FfiStream<"@ + rs_ty(abi, ty) + "> = FfiStream::new("@ + rs_var(i) + rs_map_err_suffix(ty) + ");\n"@ + rs_var(o) + " = Box::into_raw(Box::new("@ + rs_var(o) + "_0)) as _;\n"@,
        Instr::LiftTuple(vars, o) => "let "@ + rs_var(o) + " = ("@ + rs_var_list(vars@) + ");\n"@,
        Instr::LowerTuple(ret, vars) => rs_tuple_fields(ret, vars@),
        Instr::CallAbi(fty, recv, name, ret, args) => rs_call(fty, recv, name@, ret, args@),
        Instr::DefineRets(vars) => rs_define_rets(vars@),
    }
}

/// The code of a sequence of steps, one after another.
pub open spec fn rs_instrs(abi: Abi, instrs: Seq<Instr>) -> Seq<char>
    decreases instrs,
{
    if instrs.len() == 0 {
        Seq::empty()
    } else {
        rs_instrs(abi, instrs.drop_last()) + rs_instr(abi, instrs.last())
    }
}

/// Whether every call to a method, or to the step of an iterator, future or
/// stream, names the temporary that holds its receiver.
pub open spec fn rs_instr_ok(instr: Instr) -> bool
    decreases instr,
{
    match instr {
        Instr::LiftOption(_, _, _, steps) => rs_instrs_ok(steps@),
        Instr::LowerOption(_, _, _, steps) => rs_instrs_ok(steps@),
        Instr::LowerResult(_, _, _, ok_steps, _, err_steps) => rs_instrs_ok(ok_steps@) && rs_instrs_ok(err_steps@),
        Instr::CallAbi(fty, recv, _, _, _) => (fty is Constructor || fty is Function) || recv is Some,
        _ => true,
    }
}

/// Whether each of `instrs` satisfies `rs_instr_ok`.
pub open spec fn rs_instrs_ok(instrs: Seq<Instr>) -> bool
    decreases instrs,
{
    if instrs.len() == 0 {
        true
    } else {
        rs_instrs_ok(instrs.drop_last()) && rs_instr_ok(instrs.last())
    }
}

proof fn lemma_instrs_ok_at(instrs: Seq<Instr>, k: int)
    requires
        rs_instrs_ok(instrs),
        0 <= k < instrs.len(),
    ensures
        rs_instr_ok(instrs[k]),
    decreases instrs.len(),
{
    if k < instrs.len() - 1 {
        lemma_instrs_ok_at(instrs.drop_last(), k);
    }
}

/// Whether `ty` is a `Result`, whose error crosses the boundary as a string.
pub open spec fn is_result(ty: AbiType) -> bool {
    ty is Result
}

/// The value that an iterator is built from: the errors of a `Result` item
/// are turned into strings first.
pub open spec fn rs_lower_iter_source(v: Var, ty: AbiType) -> Seq<char> {
    if is_result(ty) {
        rs_var(v) + ".map_err(|err| err.to_string())"@
    } else {
        rs_var(v)
    }
}

/// The future that is boxed: the error of a `Result` output is turned into a
/// string first.
pub open spec fn rs_lower_future_source(v: Var, ty: AbiType) -> Seq<char> {
    if is_result(ty) {
        "async move { "@ + rs_var(v) + ".await.map_err(|err| err.to_string()) }"@
    } else {
        rs_var(v)
    }
}

/// What follows a stream before it is boxed: a conversion of the errors of
/// `Result` items into strings, or nothing.
pub open spec fn rs_map_err_suffix(ty: AbiType) -> Seq<char> {
    if is_result(ty) {
        ".map_err(|err| err.to_string())"@
    } else {
        Seq::empty()
    }
}

/// Temporaries, each followed by a comma.
pub open spec fn rs_var_list(vars: Seq<Var>) -> Seq<char>
    decreases vars.len(),
{
    if vars.len() == 0 {
        Seq::empty()
    } else {
        rs_var_list(vars.drop_last()) + rs_var(vars.last()) + ","@
    }
}

/// Binds each of `vars` to the field of the tuple `ret` at its position.
pub open spec fn rs_tuple_fields(ret: Var, vars: Seq<Var>) -> Seq<char>
    decreases vars.len(),
{
    if vars.len() == 0 {
        Seq::empty()
    } else {
        rs_tuple_fields(ret, vars.drop_last()) + "let "@ + rs_var(vars.last()) + " = "@ + rs_var(ret) + "."@
            + crate::text::decimal((vars.len() - 1) as nat) + ";\n"@
    }
}

/// Declares each of `vars` with a default value.
pub open spec fn rs_define_rets(vars: Seq<Var>) -> Seq<char>
    decreases vars.len(),
{
    if vars.len() == 0 {
        Seq::empty()
    } else {
        rs_define_rets(vars.drop_last()) + "#[allow(unused_assignments)] let mut "@ + rs_var(vars.last())
            + " = Default::default();\n"@
    }
}

/// The callee of a call: an associated function of an object, a method of the
/// receiver, or a free function.
pub open spec fn rs_callee(fty: FunctionType, recv: Option<Var>, name: Seq<char>) -> Seq<char> {
    match fty {
        FunctionType::Constructor(object) => object@ + "::"@ + name,
        FunctionType::Function => name,
        _ => rs_var(recv.unwrap()) + "."@ + name,
    }
}

/// A call into the library, binding its result where there is one.
pub open spec fn rs_call(
    fty: FunctionType,
    recv: Option<Var>,
    name: Seq<char>,
    ret: Option<Var>,
    args: Seq<Var>,
) -> Seq<char> {
    match ret {
        Some(r) => "let "@ + rs_var(r) + " = "@ + rs_callee(fty, recv, name) + "("@ + rs_var_list(args) + ");\n"@,
        None => rs_callee(fty, recv, name) + "("@ + rs_var_list(args) + ");\n"@,
    }
}

/// The Rust spelling of a number keeps its kind and width: `u<n>` for an
/// unsigned integer of `n` bits, `i<n>` for a signed one, `f<n>` for a float.
pub proof fn lemma_num_type_keeps_sign_and_width(t: NumType)
    ensures
        rs_num_type(t) == (if num_is_float(t) {
            "f"@
        } else if num_is_unsigned(t) {
            "u"@
        } else {
            "i"@
        }) + text::decimal(num_bits(t)),
{
    reveal_with_fuel(text::decimal, 2);
    reveal_strlit("u");
    reveal_strlit("i");
    reveal_strlit("f");
    reveal_strlit("u8");
    reveal_strlit("u16");
    reveal_strlit("u32");
    reveal_strlit("u64");
    reveal_strlit("i8");
    reveal_strlit("i16");
    reveal_strlit("i32");
    reveal_strlit("i64");
    reveal_strlit("f32");
    reveal_strlit("f64");
    assert(text::decimal(16) =~= seq!['1', '6']);
    assert(text::decimal(32) =~= seq!['3', '2']);
    assert(text::decimal(64) =~= seq!['6', '4']);
    match t {
        NumType::U8 => assert("u8"@ =~= "u"@ + seq!['8']),
        NumType::U16 => assert("u16"@ =~= "u"@ + seq!['1', '6']),
        NumType::U32 => assert("u32"@ =~= "u"@ + seq!['3', '2']),
        NumType::U64 => assert("u64"@ =~= "u"@ + seq!['6', '4']),
        NumType::I8 => assert("i8"@ =~= "i"@ + seq!['8']),
        NumType::I16 => assert("i16"@ =~= "i"@ + seq!['1', '6']),
        NumType::I32 => assert("i32"@ =~= "i"@ + seq!['3', '2']),
        NumType::I64 => assert("i64"@ =~= "i"@ + seq!['6', '4']),
        NumType::F32 => assert("f32"@ =~= "f"@ + seq!['3', '2']),
        NumType::F64 => assert("f64"@ =~= "f"@ + seq!['6', '4']),
    }
}

/// The steps of a body come out in their order: the code of `a + b` is that of `a` followed by that of `b`.
pub proof fn lemma_instrs_in_order(abi: Abi, a: Seq<Instr>, b: Seq<Instr>)
    ensures
        rs_instrs(abi, a + b) == rs_instrs(abi, a) + rs_instrs(abi, b),
    decreases b.len(),
{
    if b.len() == 0 {
        assert(a + b =~= a);
        assert(rs_instrs(abi, b) =~= Seq::<char>::empty());
    } else {
        lemma_instrs_in_order(abi, a, b.drop_last());
        assert((a + b).drop_last() =~= a + b.drop_last());
        assert((a + b).last() == b.last());
    }
}

/// A list of temporaries, such as the arguments of a call, keeps its order: the text of `a + b` is that of `a` followed by that of `b`.
pub proof fn lemma_var_list_in_order(a: Seq<Var>, b: Seq<Var>)
    ensures
        rs_var_list(a + b) == rs_var_list(a) + rs_var_list(b),
    decreases b.len(),
{
    if b.len() == 0 {
        assert(a + b =~= a);
        assert(rs_var_list(b) =~= Seq::<char>::empty());
    } else {
        lemma_var_list_in_order(a, b.drop_last());
        assert((a + b).drop_last() =~= a + b.drop_last());
        assert((a + b).last() == b.last());
    }
}

/// The result temporaries are declared in their order.
pub proof fn lemma_define_rets_in_order(a: Seq<Var>, b: Seq<Var>)
    ensures
        rs_define_rets(a + b) == rs_define_rets(a) + rs_define_rets(b),
    decreases b.len(),
{
    if b.len() == 0 {
        assert(a + b =~= a);
        assert(rs_define_rets(b) =~= Seq::<char>::empty());
    } else {
        lemma_define_rets_in_order(a, b.drop_last());
        assert((a + b).drop_last() =~= a + b.drop_last());
        assert((a + b).last() == b.last());
    }
}

/// Destructuring a tuple binds the `k`-th temporary to field `k` of the tuple.
pub proof fn lemma_tuple_field_at(ret: Var, s: Seq<Var>, k: int)
    requires
        0 <= k < s.len(),
    ensures
        text::has_sub(rs_tuple_fields(ret, s), "let "@ + rs_var(s[k]) + " = "@ + rs_var(ret) + "."@ + text::decimal(k as nat) + ";\n"@),
    decreases s.len(),
{
    let last = "let "@ + rs_var(s.last()) + " = "@ + rs_var(ret) + "."@ + text::decimal((s.len() - 1) as nat) + ";\n"@;
    assert(rs_tuple_fields(ret, s) =~= rs_tuple_fields(ret, s.drop_last()) + last);
    if k == s.len() - 1 {
        text::lemma_has_sub_self(last);
        text::lemma_has_sub_prepend(rs_tuple_fields(ret, s.drop_last()), last, last);
    } else {
        lemma_tuple_field_at(ret, s.drop_last(), k);
        assert(s.drop_last()[k] == s[k]);
        text::lemma_has_sub_append(rs_tuple_fields(ret, s.drop_last()), last, "let "@ + rs_var(s[k]) + " = "@ + rs_var(ret) + "."@ + text::decimal(k as nat) + ";\n"@);
    }
}

/// A borrowed object, iterator, future or stream is spelled as a reference
/// to the owned spelling; an option or result wraps the spelling of its
/// inner type; a number is spelled as it crosses the boundary.
pub proof fn lemma_ty_borrow_and_wrap(abi: Abi, t: AbiType, ident: String, n: NumType)
    ensures
        rs_ty(abi, AbiType::RefObject(ident)) == "&"@ + rs_ty(abi, AbiType::Object(ident)),
        rs_ty(abi, AbiType::RefIter(Box::new(t))) == "&"@ + rs_ty(abi, AbiType::Iter(Box::new(t))),
        rs_ty(abi, AbiType::RefFuture(Box::new(t))) == "&"@ + rs_ty(abi, AbiType::Future(Box::new(t))),
        rs_ty(abi, AbiType::RefStream(Box::new(t))) == "&"@ + rs_ty(abi, AbiType::Stream(Box::new(t))),
        rs_ty(abi, AbiType::Option(Box::new(t))) == "Option<"@ + rs_ty(abi, t) + ">"@,
        rs_ty(abi, AbiType::Result(Box::new(t))) == "Result<"@ + rs_ty(abi, t) + ">"@,
        rs_ty(abi, AbiType::Num(n)) == rs_ffi_num_type(abi, n),
{
    reveal_strlit("&");
    reveal_strlit("&Vec<");
    reveal_strlit("Vec<");
    reveal_strlit("&impl Future<Output = ");
    reveal_strlit("impl Future<Output = ");
    reveal_strlit("&impl Stream<Item = ");
    reveal_strlit("impl Stream<Item = ");
    let x = rs_ty(abi, t);
    assert("&Vec<"@ + x + ">"@ =~= "&"@ + ("Vec<"@ + x + ">"@));
    assert("&impl Future<Output = "@ + x + ">"@ =~= "&"@ + ("impl Future<Output = "@ + x + ">"@));
    assert("&impl Stream<Item = "@ + x + ">"@ =~= "&"@ + ("impl Stream<Item = "@ + x + ">"@));
}

/// Off WebAssembly a number crosses the boundary as its own type; on
/// WebAssembly the same holds for 32- and 64-bit numbers and floats, while
/// 8- and 16-bit integers widen to the 32-bit integer of the same signedness.
pub proof fn lemma_ffi_num_type_widening(abi: Abi, t: NumType)
    ensures
        !abi.spec_is_wasm() ==> rs_ffi_num_type(abi, t) == rs_num_type(t),
        abi.spec_is_wasm() ==> rs_ffi_num_type(abi, t) == (match t {
            NumType::U8 | NumType::U16 => rs_num_type(NumType::U32),
            NumType::I8 | NumType::I16 => rs_num_type(NumType::I32),
            _ => rs_num_type(t),
        }),
{
}

/// Lowering a `Vec` into pointer, length and capacity temporaries is the same
/// code as lowering a `String`: the length temporary (the third field)
/// receives the value's `len()` and the capacity temporary (the fourth
/// field) its `capacity()`.
pub proof fn lemma_lower_vec_len_and_capacity(abi: Abi, i: Var, ptr: Var, len: Var, cap: Var, t: NumType)
    ensures
        rs_instr(abi, Instr::LowerVec(i, ptr, len, cap, t)) == rs_instr(abi, Instr::LowerString(i, ptr, len, cap)),
        text::has_sub(
            rs_instr(abi, Instr::LowerVec(i, ptr, len, cap, t)),
            rs_var(len) + " = "@ + rs_var(i) + "_0.len() as _;\n"@,
        ),
        text::has_sub(
            rs_instr(abi, Instr::LowerVec(i, ptr, len, cap, t)),
            rs_var(cap) + " = "@ + rs_var(i) + "_0.capacity() as _;\n"@,
        ),
        text::has_sub(
            rs_instr(abi, Instr::LowerString(i, ptr, len, cap)),
            rs_var(len) + " = "@ + rs_var(i) + "_0.len() as _;\n"@,
        ),
        text::has_sub(
            rs_instr(abi, Instr::LowerString(i, ptr, len, cap)),
            rs_var(cap) + " = "@ + rs_var(i) + "_0.capacity() as _;\n"@,
        ),
{
    let whole = rs_instr(abi, Instr::LowerString(i, ptr, len, cap));
    let head = "let "@ + rs_var(i) + "_0 = ManuallyDrop::new("@ + rs_var(i) + ");\n"@ + rs_var(ptr) + " = "@ + rs_var(i)
        + "_0.as_ptr() as _;\n"@;
    let l = rs_var(len) + " = "@ + rs_var(i) + "_0.len() as _;\n"@;
    let c = rs_var(cap) + " = "@ + rs_var(i) + "_0.capacity() as _;\n"@;
    assert(whole =~= head + l + c);
    assert(whole =~= (head + l) + c + Seq::empty());
    text::lemma_has_sub_middle(head, l, c);
    text::lemma_has_sub_middle(head + l, c, Seq::empty());
}

/// Joining two 32-bit halves keeps the low half as it is and shifts the high half up by 32 bits.
pub proof fn lemma_lift_u32_halves(abi: Abi, low: Var, high: Var, o: Var, t: NumType)
    ensures
        text::has_sub(rs_instr(abi, Instr::LiftNumAsU32Tuple(low, high, o, t)), ("::from("@ + rs_var(low) + ") | ("@ + rs_num_type(t) + "::from("@ + rs_var(high) + ") << 32);\n"@)),
{
    let whole = rs_instr(abi, Instr::LiftNumAsU32Tuple(low, high, o, t));
    assert(whole =~= ("let "@ + rs_var(o) + " = "@ + rs_num_type(t)) + ("::from("@ + rs_var(low) + ") | ("@ + rs_num_type(t) + "::from("@ + rs_var(high) + ") << 32);\n"@) + Seq::<char>::empty());
    text::lemma_has_sub_middle(("let "@ + rs_var(o) + " = "@ + rs_num_type(t)), ("::from("@ + rs_var(low) + ") | ("@ + rs_num_type(t) + "::from("@ + rs_var(high) + ") << 32);\n"@), Seq::<char>::empty());
}

/// Splitting a number into 32-bit halves puts its low 32 bits in the low temporary and the bits above them in the high one.
pub proof fn lemma_lower_u32_halves(abi: Abi, i: Var, low: Var, high: Var, t: NumType)
    ensures
        text::has_sub(rs_instr(abi, Instr::LowerNumAsU32Tuple(i, low, high, t)), (rs_var(low) + " = "@ + rs_var(i) + " as u32;\n"@)),
        text::has_sub(rs_instr(abi, Instr::LowerNumAsU32Tuple(i, low, high, t)), (rs_var(high) + " = ("@ + rs_var(i) + " >> 32) as u32;\n"@)),
{
    let whole = rs_instr(abi, Instr::LowerNumAsU32Tuple(i, low, high, t));
    assert(whole =~= Seq::<char>::empty() + (rs_var(low) + " = "@ + rs_var(i) + " as u32;\n"@) + (rs_var(high) + " = ("@ + rs_var(i) + " >> 32) as u32;\n"@));
    text::lemma_has_sub_middle(Seq::<char>::empty(), (rs_var(low) + " = "@ + rs_var(i) + " as u32;\n"@), (rs_var(high) + " = ("@ + rs_var(i) + " >> 32) as u32;\n"@));
    assert(whole =~= (rs_var(low) + " = "@ + rs_var(i) + " as u32;\n"@) + (rs_var(high) + " = ("@ + rs_var(i) + " >> 32) as u32;\n"@) + Seq::<char>::empty());
    text::lemma_has_sub_middle((rs_var(low) + " = "@ + rs_var(i) + " as u32;\n"@), (rs_var(high) + " = ("@ + rs_var(i) + " >> 32) as u32;\n"@), Seq::<char>::empty());
}

/// A flag lifts to `true` exactly when it is positive.
pub proof fn lemma_lift_bool(abi: Abi, i: Var, o: Var)
    ensures
        text::has_sub(rs_instr(abi, Instr::LiftBool(i, o)), (rs_var(o) + " = "@ + rs_var(i) + " > 0;\n"@)),
{
    let whole = rs_instr(abi, Instr::LiftBool(i, o));
    assert(whole =~= ("let "@) + (rs_var(o) + " = "@ + rs_var(i) + " > 0;\n"@) + Seq::<char>::empty());
    text::lemma_has_sub_middle(("let "@), (rs_var(o) + " = "@ + rs_var(i) + " > 0;\n"@), Seq::<char>::empty());
}

/// A `bool` lowers to 1 for `true` and 0 for `false`.
pub proof fn lemma_lower_bool(abi: Abi, i: Var, o: Var)
    ensures
        text::has_sub(rs_instr(abi, Instr::LowerBool(i, o)), (rs_var(o) + " = if "@ + rs_var(i) + " { 1 } else { 0 };\n"@)),
{
    let whole = rs_instr(abi, Instr::LowerBool(i, o));
    assert(whole =~= Seq::<char>::empty() + (rs_var(o) + " = if "@ + rs_var(i) + " { 1 } else { 0 };\n"@) + Seq::<char>::empty());
    text::lemma_has_sub_middle(Seq::<char>::empty(), (rs_var(o) + " = if "@ + rs_var(i) + " { 1 } else { 0 };\n"@), Seq::<char>::empty());
}

/// A borrowed string is read from its pointer and length temporaries, in that order.
pub proof fn lemma_lift_str_ptr_len(abi: Abi, ptr: Var, len: Var, o: Var)
    ensures
        text::has_sub(rs_instr(abi, Instr::LiftStr(ptr, len, o)), ("_0: &[u8] = unsafe { core::slice::from_raw_parts("@ + rs_var(ptr) + " as _, "@ + rs_var(len))),
{
    let whole = rs_instr(abi, Instr::LiftStr(ptr, len, o));
    assert(whole =~= ("let "@ + rs_var(o)) + ("_0: &[u8] = unsafe { core::slice::from_raw_parts("@ + rs_var(ptr) + " as _, "@ + rs_var(len)) + (" as _) };\nlet "@ + rs_var(o) + ": &str = unsafe { std::str::from_utf8_unchecked("@ + rs_var(o) + "_0) };\n"@));
    text::lemma_has_sub_middle(("let "@ + rs_var(o)), ("_0: &[u8] = unsafe { core::slice::from_raw_parts("@ + rs_var(ptr) + " as _, "@ + rs_var(len)), (" as _) };\nlet "@ + rs_var(o) + ": &str = unsafe { std::str::from_utf8_unchecked("@ + rs_var(o) + "_0) };\n"@));
}

/// Lowering a borrowed string puts its address in the pointer temporary and its `len()` in the length temporary.
pub proof fn lemma_lower_str_ptr_len(abi: Abi, i: Var, ptr: Var, len: Var)
    ensures
        text::has_sub(rs_instr(abi, Instr::LowerStr(i, ptr, len)), (rs_var(ptr) + " = "@ + rs_var(i) + ".as_ptr() as _;\n"@)),
        text::has_sub(rs_instr(abi, Instr::LowerStr(i, ptr, len)), (rs_var(len) + " = "@ + rs_var(i) + ".len() as _;\n"@)),
{
    let whole = rs_instr(abi, Instr::LowerStr(i, ptr, len));
    assert(whole =~= Seq::<char>::empty() + (rs_var(ptr) + " = "@ + rs_var(i) + ".as_ptr() as _;\n"@) + (rs_var(len) + " = "@ + rs_var(i) + ".len() as _;\n"@));
    text::lemma_has_sub_middle(Seq::<char>::empty(), (rs_var(ptr) + " = "@ + rs_var(i) + ".as_ptr() as _;\n"@), (rs_var(len) + " = "@ + rs_var(i) + ".len() as _;\n"@));
    assert(whole =~= (rs_var(ptr) + " = "@ + rs_var(i) + ".as_ptr() as _;\n"@) + (rs_var(len) + " = "@ + rs_var(i) + ".len() as _;\n"@) + Seq::<char>::empty());
    text::lemma_has_sub_middle((rs_var(ptr) + " = "@ + rs_var(i) + ".as_ptr() as _;\n"@), (rs_var(len) + " = "@ + rs_var(i) + ".len() as _;\n"@), Seq::<char>::empty());
}

/// Lowering a slice puts its address in the pointer temporary and its `len()` in the length temporary.
pub proof fn lemma_lower_slice_ptr_len(abi: Abi, i: Var, ptr: Var, len: Var, t: NumType)
    ensures
        text::has_sub(rs_instr(abi, Instr::LowerSlice(i, ptr, len, t)), (rs_var(ptr) + " = "@ + rs_var(i) + ".as_ptr() as _;\n"@)),
        text::has_sub(rs_instr(abi, Instr::LowerSlice(i, ptr, len, t)), (rs_var(len) + " = "@ + rs_var(i) + ".len() as _;\n"@)),
{
    let whole = rs_instr(abi, Instr::LowerSlice(i, ptr, len, t));
    assert(whole =~= Seq::<char>::empty() + (rs_var(ptr) + " = "@ + rs_var(i) + ".as_ptr() as _;\n"@) + (rs_var(len) + " = "@ + rs_var(i) + ".len() as _;\n"@));
    text::lemma_has_sub_middle(Seq::<char>::empty(), (rs_var(ptr) + " = "@ + rs_var(i) + ".as_ptr() as _;\n"@), (rs_var(len) + " = "@ + rs_var(i) + ".len() as _;\n"@));
    assert(whole =~= (rs_var(ptr) + " = "@ + rs_var(i) + ".as_ptr() as _;\n"@) + (rs_var(len) + " = "@ + rs_var(i) + ".len() as _;\n"@) + Seq::<char>::empty());
    text::lemma_has_sub_middle((rs_var(ptr) + " = "@ + rs_var(i) + ".as_ptr() as _;\n"@), (rs_var(len) + " = "@ + rs_var(i) + ".len() as _;\n"@), Seq::<char>::empty());
}

/// An owned string is rebuilt from its pointer, length and capacity temporaries, in that order.
pub proof fn lemma_lift_string_parts(abi: Abi, ptr: Var, len: Var, cap: Var, o: Var)
    ensures
        text::has_sub(rs_instr(abi, Instr::LiftString(ptr, len, cap, o)), (" = unsafe { String::from_raw_parts("@ + rs_var(ptr) + " as _, "@ + rs_var(len) + " as _, "@ + rs_var(cap) + " as _) };\n"@)),
{
    let whole = rs_instr(abi, Instr::LiftString(ptr, len, cap, o));
    assert(whole =~= ("let "@ + rs_var(o)) + (" = unsafe { String::from_raw_parts("@ + rs_var(ptr) + " as _, "@ + rs_var(len) + " as _, "@ + rs_var(cap) + " as _) };\n"@) + Seq::<char>::empty());
    text::lemma_has_sub_middle(("let "@ + rs_var(o)), (" = unsafe { String::from_raw_parts("@ + rs_var(ptr) + " as _, "@ + rs_var(len) + " as _, "@ + rs_var(cap) + " as _) };\n"@), Seq::<char>::empty());
}

/// A slice is read from its pointer and length temporaries, in that order.
pub proof fn lemma_lift_slice_ptr_len(abi: Abi, ptr: Var, len: Var, o: Var, t: NumType)
    ensures
        text::has_sub(rs_instr(abi, Instr::LiftSlice(ptr, len, o, t)), ("] = unsafe { core::slice::from_raw_parts("@ + rs_var(ptr) + " as _, "@ + rs_var(len) + " as _) };\n"@)),
{
    let whole = rs_instr(abi, Instr::LiftSlice(ptr, len, o, t));
    assert(whole =~= ("let "@ + rs_var(o) + ": &["@ + rs_num_type(t)) + ("] = unsafe { core::slice::from_raw_parts("@ + rs_var(ptr) + " as _, "@ + rs_var(len) + " as _) };\n"@) + Seq::<char>::empty());
    text::lemma_has_sub_middle(("let "@ + rs_var(o) + ": &["@ + rs_num_type(t)), ("] = unsafe { core::slice::from_raw_parts("@ + rs_var(ptr) + " as _, "@ + rs_var(len) + " as _) };\n"@), Seq::<char>::empty());
}

/// A vector is rebuilt from its pointer, length and capacity temporaries, in that order, with its element type.
pub proof fn lemma_lift_vec_parts(abi: Abi, ptr: Var, len: Var, cap: Var, o: Var, t: NumType)
    ensures
        text::has_sub(rs_instr(abi, Instr::LiftVec(ptr, len, cap, o, t)), (" = unsafe { Vec::<"@ + rs_num_type(t) + ">::from_raw_parts("@ + rs_var(ptr) + " as _, "@ + rs_var(len) + " as _, "@ + rs_var(cap) + " as _) };\n"@)),
{
    let whole = rs_instr(abi, Instr::LiftVec(ptr, len, cap, o, t));
    assert(whole =~= ("let "@ + rs_var(o)) + (" = unsafe { Vec::<"@ + rs_num_type(t) + ">::from_raw_parts("@ + rs_var(ptr) + " as _, "@ + rs_var(len) + " as _, "@ + rs_var(cap) + " as _) };\n"@) + Seq::<char>::empty());
    text::lemma_has_sub_middle(("let "@ + rs_var(o)), (" = unsafe { Vec::<"@ + rs_num_type(t) + ">::from_raw_parts("@ + rs_var(ptr) + " as _, "@ + rs_var(len) + " as _, "@ + rs_var(cap) + " as _) };\n"@), Seq::<char>::empty());
}

/// A borrowed object is the handle read as a mutable reference to the named object type.
pub proof fn lemma_lift_ref_object(abi: Abi, i: Var, o: Var, obj: String)
    ensures
        text::has_sub(rs_instr(abi, Instr::LiftRefObject(i, o, obj)), (rs_var(o) + " = unsafe { &mut *("@ + rs_var(i) + " as *mut "@ + obj@ + ") };\n"@)),
{
    let whole = rs_instr(abi, Instr::LiftRefObject(i, o, obj));
    assert(whole =~= ("let "@) + (rs_var(o) + " = unsafe { &mut *("@ + rs_var(i) + " as *mut "@ + obj@ + ") };\n"@) + Seq::<char>::empty());
    text::lemma_has_sub_middle(("let "@), (rs_var(o) + " = unsafe { &mut *("@ + rs_var(i) + " as *mut "@ + obj@ + ") };\n"@), Seq::<char>::empty());
}

/// An owned object is the handle taken back as a box of the named object type.
pub proof fn lemma_lift_object(abi: Abi, i: Var, o: Var, obj: String)
    ensures
        text::has_sub(rs_instr(abi, Instr::LiftObject(i, o, obj)), (rs_var(o) + " = unsafe { Box::from_raw("@ + rs_var(i) + " as *mut "@ + obj@ + ") };\n"@)),
{
    let whole = rs_instr(abi, Instr::LiftObject(i, o, obj));
    assert(whole =~= ("let "@) + (rs_var(o) + " = unsafe { Box::from_raw("@ + rs_var(i) + " as *mut "@ + obj@ + ") };\n"@) + Seq::<char>::empty());
    text::lemma_has_sub_middle(("let "@), (rs_var(o) + " = unsafe { Box::from_raw("@ + rs_var(i) + " as *mut "@ + obj@ + ") };\n"@), Seq::<char>::empty());
}

/// An owned object is handed out as the address of a new box holding it.
pub proof fn lemma_lower_object(abi: Abi, i: Var, o: Var)
    ensures
        text::has_sub(rs_instr(abi, Instr::LowerObject(i, o)), (rs_var(o) + " = Box::into_raw(Box::new("@ + rs_var(i) + "_0)) as _;\n"@)),
{
    let whole = rs_instr(abi, Instr::LowerObject(i, o));
    assert(whole =~= ("let "@ + rs_var(i) + "_0 = assert_send_static("@ + rs_var(i) + ");\n"@) + (rs_var(o) + " = Box::into_raw(Box::new("@ + rs_var(i) + "_0)) as _;\n"@) + Seq::<char>::empty());
    text::lemma_has_sub_middle(("let "@ + rs_var(i) + "_0 = assert_send_static("@ + rs_var(i) + ");\n"@), (rs_var(o) + " = Box::into_raw(Box::new("@ + rs_var(i) + "_0)) as _;\n"@), Seq::<char>::empty());
}

/// A borrowed iterator handle is read as a mutable reference to an `FfiIter` of its item type.
pub proof fn lemma_lift_ref_iter(abi: Abi, i: Var, o: Var, ty: AbiType)
    ensures
        text::has_sub(rs_instr(abi, Instr::LiftRefIter(i, o, ty)), (rs_var(o) + " = unsafe { &mut *("@ + rs_var(i) + " as *mut FfiIter<"@ + rs_ty(abi, ty) + ">) };\n"@)),
{
    let whole = rs_instr(abi, Instr::LiftRefIter(i, o, ty));
    assert(whole =~= ("let "@) + (rs_var(o) + " = unsafe { &mut *("@ + rs_var(i) + " as *mut FfiIter<"@ + rs_ty(abi, ty) + ">) };\n"@) + Seq::<char>::empty());
    text::lemma_has_sub_middle(("let "@), (rs_var(o) + " = unsafe { &mut *("@ + rs_var(i) + " as *mut FfiIter<"@ + rs_ty(abi, ty) + ">) };\n"@), Seq::<char>::empty());
}

/// An iterator handle is taken back as a box of an `FfiIter` of its item type.
pub proof fn lemma_lift_iter(abi: Abi, i: Var, o: Var, ty: AbiType)
    ensures
        text::has_sub(rs_instr(abi, Instr::LiftIter(i, o, ty)), (rs_var(o) + " = unsafe { Box::from_raw("@ + rs_var(i) + " as *mut FfiIter<"@ + rs_ty(abi, ty) + ">) };\n"@)),
{
    let whole = rs_instr(abi, Instr::LiftIter(i, o, ty));
    assert(whole =~= ("let "@) + (rs_var(o) + " = unsafe { Box::from_raw("@ + rs_var(i) + " as *mut FfiIter<"@ + rs_ty(abi, ty) + ">) };\n"@) + Seq::<char>::empty());
    text::lemma_has_sub_middle(("let "@), (rs_var(o) + " = unsafe { Box::from_raw("@ + rs_var(i) + " as *mut FfiIter<"@ + rs_ty(abi, ty) + ">) };\n"@), Seq::<char>::empty());
}

/// A borrowed future handle is read as a mutable reference to an `FfiFuture` of its output type.
pub proof fn lemma_lift_ref_future(abi: Abi, i: Var, o: Var, ty: AbiType)
    ensures
        text::has_sub(rs_instr(abi, Instr::LiftRefFuture(i, o, ty)), (rs_var(o) + " = unsafe { &mut *("@ + rs_var(i) + " as *mut FfiFuture<"@ + rs_ty(abi, ty) + ">) };\n"@)),
{
    let whole = rs_instr(abi, Instr::LiftRefFuture(i, o, ty));
    assert(whole =~= ("let "@) + (rs_var(o) + " = unsafe { &mut *("@ + rs_var(i) + " as *mut FfiFuture<"@ + rs_ty(abi, ty) + ">) };\n"@) + Seq::<char>::empty());
    text::lemma_has_sub_middle(("let "@), (rs_var(o) + " = unsafe { &mut *("@ + rs_var(i) + " as *mut FfiFuture<"@ + rs_ty(abi, ty) + ">) };\n"@), Seq::<char>::empty());
}

/// A future handle is taken back as a box of an `FfiFuture` of its output type.
pub proof fn lemma_lift_future(abi: Abi, i: Var, o: Var, ty: AbiType)
    ensures
        text::has_sub(rs_instr(abi, Instr::LiftFuture(i, o, ty)), (rs_var(o) + " = unsafe { Box::from_raw("@ + rs_var(i) + " as *mut FfiFuture<"@ + rs_ty(abi, ty) + ">) };\n"@)),
{
    let whole = rs_instr(abi, Instr::LiftFuture(i, o, ty));
    assert(whole =~= ("let "@) + (rs_var(o) + " = unsafe { Box::from_raw("@ + rs_var(i) + " as *mut FfiFuture<"@ + rs_ty(abi, ty) + ">) };\n"@) + Seq::<char>::empty());
    text::lemma_has_sub_middle(("let "@), (rs_var(o) + " = unsafe { Box::from_raw("@ + rs_var(i) + " as *mut FfiFuture<"@ + rs_ty(abi, ty) + ">) };\n"@), Seq::<char>::empty());
}

/// A borrowed stream handle is read as a mutable reference to an `FfiStream` of its item type.
pub proof fn lemma_lift_ref_stream(abi: Abi, i: Var, o: Var, ty: AbiType)
    ensures
        text::has_sub(rs_instr(abi, Instr::LiftRefStream(i, o, ty)), (rs_var(o) + " = unsafe { &mut *("@ + rs_var(i) + " as *mut FfiStream<"@ + rs_ty(abi, ty) + ">) };\n"@)),
{
    let whole = rs_instr(abi, Instr::LiftRefStream(i, o, ty));
    assert(whole =~= ("let "@) + (rs_var(o) + " = unsafe { &mut *("@ + rs_var(i) + " as *mut FfiStream<"@ + rs_ty(abi, ty) + ">) };\n"@) + Seq::<char>::empty());
    text::lemma_has_sub_middle(("let "@), (rs_var(o) + " = unsafe { &mut *("@ + rs_var(i) + " as *mut FfiStream<"@ + rs_ty(abi, ty) + ">) };\n"@), Seq::<char>::empty());
}

/// A stream handle is taken back as a box of an `FfiStream` of its item type.
pub proof fn lemma_lift_stream(abi: Abi, i: Var, o: Var, ty: AbiType)
    ensures
        text::has_sub(rs_instr(abi, Instr::LiftStream(i, o, ty)), (rs_var(o) + " = unsafe { Box::from_raw("@ + rs_var(i) + " as *mut FfiStream<"@ + rs_ty(abi, ty) + ">) };\n"@)),
{
    let whole = rs_instr(abi, Instr::LiftStream(i, o, ty));
    assert(whole =~= ("let "@) + (rs_var(o) + " = unsafe { Box::from_raw("@ + rs_var(i) + " as *mut FfiStream<"@ + rs_ty(abi, ty) + ">) };\n"@) + Seq::<char>::empty());
    text::lemma_has_sub_middle(("let "@), (rs_var(o) + " = unsafe { Box::from_raw("@ + rs_var(i) + " as *mut FfiStream<"@ + rs_ty(abi, ty) + ">) };\n"@), Seq::<char>::empty());
}

/// An option lifts to `None` when its flag is 0 and otherwise to `Some` of its lifted inner value.
pub proof fn lemma_lift_option(abi: Abi, var: Var, o: Var, inner: Var, steps: Vec<Instr>)
    ensures
        text::has_sub(rs_instr(abi, Instr::LiftOption(var, o, inner, steps)), (" = if "@ + rs_var(var) + " == 0 {\nNone\n} else {\n"@)),
        text::has_sub(rs_instr(abi, Instr::LiftOption(var, o, inner, steps)), ("Some("@ + rs_var(inner) + ")\n};\n"@)),
{
    let whole = rs_instr(abi, Instr::LiftOption(var, o, inner, steps));
    assert(whole =~= ("let "@ + rs_var(o)) + (" = if "@ + rs_var(var) + " == 0 {\nNone\n} else {\n"@) + (rs_instrs(abi, steps@) + "Some("@ + rs_var(inner) + ")\n};\n"@));
    text::lemma_has_sub_middle(("let "@ + rs_var(o)), (" = if "@ + rs_var(var) + " == 0 {\nNone\n} else {\n"@), (rs_instrs(abi, steps@) + "Some("@ + rs_var(inner) + ")\n};\n"@));
    assert(whole =~= ("let "@ + rs_var(o) + " = if "@ + rs_var(var) + " == 0 {\nNone\n} else {\n"@ + rs_instrs(abi, steps@)) + ("Some("@ + rs_var(inner) + ")\n};\n"@) + Seq::<char>::empty());
    text::lemma_has_sub_middle(("let "@ + rs_var(o) + " = if "@ + rs_var(var) + " == 0 {\nNone\n} else {\n"@ + rs_instrs(abi, steps@)), ("Some("@ + rs_var(inner) + ")\n};\n"@), Seq::<char>::empty());
}

/// `Some` lowers with flag 1 followed by the steps of its inner value; `None` with flag 0.
pub proof fn lemma_lower_option(abi: Abi, i: Var, var: Var, some: Var, steps: Vec<Instr>)
    ensures
        text::has_sub(rs_instr(abi, Instr::LowerOption(i, var, some, steps)), ("if let Some("@ + rs_var(some) + ") = "@ + rs_var(i) + " {\n"@ + rs_var(var) + " = 1;\n"@)),
        text::has_sub(rs_instr(abi, Instr::LowerOption(i, var, some, steps)), ("} else {\n"@ + rs_var(var) + " = 0;\n}\n"@)),
{
    let whole = rs_instr(abi, Instr::LowerOption(i, var, some, steps));
    assert(whole =~= Seq::<char>::empty() + ("if let Some("@ + rs_var(some) + ") = "@ + rs_var(i) + " {\n"@ + rs_var(var) + " = 1;\n"@) + (rs_instrs(abi, steps@) + "} else {\n"@ + rs_var(var) + " = 0;\n}\n"@));
    text::lemma_has_sub_middle(Seq::<char>::empty(), ("if let Some("@ + rs_var(some) + ") = "@ + rs_var(i) + " {\n"@ + rs_var(var) + " = 1;\n"@), (rs_instrs(abi, steps@) + "} else {\n"@ + rs_var(var) + " = 0;\n}\n"@));
    assert(whole =~= ("if let Some("@ + rs_var(some) + ") = "@ + rs_var(i) + " {\n"@ + rs_var(var) + " = 1;\n"@ + rs_instrs(abi, steps@)) + ("} else {\n"@ + rs_var(var) + " = 0;\n}\n"@) + Seq::<char>::empty());
    text::lemma_has_sub_middle(("if let Some("@ + rs_var(some) + ") = "@ + rs_var(i) + " {\n"@ + rs_var(var) + " = 1;\n"@ + rs_instrs(abi, steps@)), ("} else {\n"@ + rs_var(var) + " = 0;\n}\n"@), Seq::<char>::empty());
}

/// `Ok` lowers with flag 1 followed by the steps of its value.
#[verifier::rlimit(100)]
#[verifier::spinoff_prover]
pub proof fn lemma_lower_result_ok(abi: Abi, i: Var, var: Var, ok: Var, ok_steps: Vec<Instr>, err: Var, err_steps: Vec<Instr>)
    ensures
        text::has_sub(rs_instr(abi, Instr::LowerResult(i, var, ok, ok_steps, err, err_steps)), (" {\nOk("@ + rs_var(ok) + ") => {\n"@ + rs_var(var) + " = 1;\n"@)),
{
    let whole = rs_instr(abi, Instr::LowerResult(i, var, ok, ok_steps, err, err_steps));
    assert(whole =~= ("match "@ + rs_var(i)) + (" {\nOk("@ + rs_var(ok) + ") => {\n"@ + rs_var(var) + " = 1;\n"@) + (rs_instrs(abi, ok_steps@) + "}\nErr("@ + rs_var(err) + "_0) => {\n"@ + rs_var(var) + " = 0;\nlet "@ + rs_var(err) + " = "@ + rs_var(err) + "_0.to_string();\n"@ + rs_instrs(abi, err_steps@) + "}\n};\n"@)) by {
    }
    text::lemma_has_sub_middle(("match "@ + rs_var(i)), (" {\nOk("@ + rs_var(ok) + ") => {\n"@ + rs_var(var) + " = 1;\n"@), (rs_instrs(abi, ok_steps@) + "}\nErr("@ + rs_var(err) + "_0) => {\n"@ + rs_var(var) + " = 0;\nlet "@ + rs_var(err) + " = "@ + rs_var(err) + "_0.to_string();\n"@ + rs_instrs(abi, err_steps@) + "}\n};\n"@));
}

/// `Err` lowers with flag 0, its error turned into a string, followed by the steps of that string.
#[verifier::rlimit(100)]
#[verifier::spinoff_prover]
pub proof fn lemma_lower_result_err(abi: Abi, i: Var, var: Var, ok: Var, ok_steps: Vec<Instr>, err: Var, err_steps: Vec<Instr>)
    ensures
        text::has_sub(rs_instr(abi, Instr::LowerResult(i, var, ok, ok_steps, err, err_steps)), ("}\nErr("@ + rs_var(err) + "_0) => {\n"@ + rs_var(var) + " = 0;\nlet "@ + rs_var(err) + " = "@ + rs_var(err) + "_0.to_string();\n"@)),
{
    let whole = rs_instr(abi, Instr::LowerResult(i, var, ok, ok_steps, err, err_steps));
    assert(whole =~= ("match "@ + rs_var(i) + " {\nOk("@ + rs_var(ok) + ") => {\n"@ + rs_var(var) + " = 1;\n"@ + rs_instrs(abi, ok_steps@)) + ("}\nErr("@ + rs_var(err) + "_0) => {\n"@ + rs_var(var) + " = 0;\nlet "@ + rs_var(err) + " = "@ + rs_var(err) + "_0.to_string();\n"@) + (rs_instrs(abi, err_steps@) + "}\n};\n"@)) by {
    }
    text::lemma_has_sub_middle(("match "@ + rs_var(i) + " {\nOk("@ + rs_var(ok) + ") => {\n"@ + rs_var(var) + " = 1;\n"@ + rs_instrs(abi, ok_steps@)), ("}\nErr("@ + rs_var(err) + "_0) => {\n"@ + rs_var(var) + " = 0;\nlet "@ + rs_var(err) + " = "@ + rs_var(err) + "_0.to_string();\n"@), (rs_instrs(abi, err_steps@) + "}\n};\n"@));
}

/// An iterator is handed out as an `FfiIter` of its item type.
pub proof fn lemma_lower_iter(abi: Abi, i: Var, o: Var, ty: AbiType)
    ensures
        text::has_sub(rs_instr(abi, Instr::LowerIter(i, o, ty)), (rs_var(o) + "_1: FfiIter<"@ + rs_ty(abi, ty) + "> = FfiIter::new("@ + rs_var(o) + "_0);\n"@)),
{
    let whole = rs_instr(abi, Instr::LowerIter(i, o, ty));
    assert(whole =~= ("let "@ + rs_var(o) + "_0 = "@ + rs_lower_iter_source(i, ty) + ";\nlet "@) + (rs_var(o) + "_1: FfiIter<"@ + rs_ty(abi, ty) + "> = FfiIter::new("@ + rs_var(o) + "_0);\n"@) + (rs_var(o) + " = Box::into_raw(Box::new("@ + rs_var(o) + "_1)) as _;\n"@));
    text::lemma_has_sub_middle(("let "@ + rs_var(o) + "_0 = "@ + rs_lower_iter_source(i, ty) + ";\nlet "@), (rs_var(o) + "_1: FfiIter<"@ + rs_ty(abi, ty) + "> = FfiIter::new("@ + rs_var(o) + "_0);\n"@), (rs_var(o) + " = Box::into_raw(Box::new("@ + rs_var(o) + "_1)) as _;\n"@));
}

/// A future is handed out as an `FfiFuture` of its output type.
pub proof fn lemma_lower_future(abi: Abi, i: Var, o: Var, ty: AbiType)
    ensures
        text::has_sub(rs_instr(abi, Instr::LowerFuture(i, o, ty)), (rs_var(o) + "_1: FfiFuture<"@ + rs_ty(abi, ty) + "> = FfiFuture::new("@ + rs_var(o) + "_0);\n"@)),
{
    let whole = rs_instr(abi, Instr::LowerFuture(i, o, ty));
    assert(whole =~= ("let "@ + rs_var(o) + "_0 = "@ + rs_lower_future_source(i, ty) + ";\nlet "@) + (rs_var(o) + "_1: FfiFuture<"@ + rs_ty(abi, ty) + "> = FfiFuture::new("@ + rs_var(o) + "_0);\n"@) + (rs_var(o) + " = Box::into_raw(Box::new("@ + rs_var(o) + "_1)) as _;\n"@));
    text::lemma_has_sub_middle(("let "@ + rs_var(o) + "_0 = "@ + rs_lower_future_source(i, ty) + ";\nlet "@), (rs_var(o) + "_1: FfiFuture<"@ + rs_ty(abi, ty) + "> = FfiFuture::new("@ + rs_var(o) + "_0);\n"@), (rs_var(o) + " = Box::into_raw(Box::new("@ + rs_var(o) + "_1)) as _;\n"@));
}

/// A stream is handed out as an `FfiStream` of its item type.
pub proof fn lemma_lower_stream(abi: Abi, i: Var, o: Var, ty: AbiType)
    ensures
        text::has_sub(rs_instr(abi, Instr::LowerStream(i, o, ty)), (rs_var(o) + "_0: FfiStream<"@ + rs_ty(abi, ty) + "> = FfiStream::new("@ + rs_var(i) + rs_map_err_suffix(ty) + ");\n"@)),
{
    let whole = rs_instr(abi, Instr::LowerStream(i, o, ty));
    assert(whole =~= ("let "@) + (rs_var(o) + "_0: FfiStream<"@ + rs_ty(abi, ty) + "> = FfiStream::new("@ + rs_var(i) + rs_map_err_suffix(ty) + ");\n"@) + (rs_var(o) + " = Box::into_raw(Box::new("@ + rs_var(o) + "_0)) as _;\n"@));
    text::lemma_has_sub_middle(("let "@), (rs_var(o) + "_0: FfiStream<"@ + rs_ty(abi, ty) + "> = FfiStream::new("@ + rs_var(i) + rs_map_err_suffix(ty) + ");\n"@), (rs_var(o) + " = Box::into_raw(Box::new("@ + rs_var(o) + "_0)) as _;\n"@));
}

/// Temporaries with different numbers have different names.
pub proof fn lemma_var_names_distinct(a: Var, b: Var)
    requires
        a.binding != b.binding,
    ensures
        rs_var(a) != rs_var(b),
{
    if rs_var(a) == rs_var(b) {
        reveal_strlit("tmp");
        assert(rs_var(a).skip(3) =~= text::decimal(a.binding as nat));
        assert(rs_var(b).skip(3) =~= text::decimal(b.binding as nat));
        text::lemma_decimal_injective(a.binding as nat, b.binding as nat);
    }
}

/// Generates the Rust half of the bindings for one target.
pub struct RustGenerator {
    abi: Abi,
    wasm_bindgen: bool,
}

impl RustGenerator {
    /// The target the generator writes for.
    pub closed spec fn spec_abi(&self) -> Abi {
        self.abi
    }

    /// Whether the generated notifier is exported through `wasm-bindgen`.
    pub closed spec fn spec_wasm_bindgen(&self) -> bool {
        self.wasm_bindgen
    }

    /// A generator for `abi`.
    pub fn new(abi: Abi) -> (r: Self)
        ensures
            r.spec_abi() == abi,
            !r.spec_wasm_bindgen(),
    {
        RustGenerator { abi, wasm_bindgen: false }
    }

    /// A generator for `abi` that also declares the notifier callback through
    /// `wasm-bindgen` when `wasm_bindgen` is set.
    pub fn with_wasm_bindgen(abi: Abi, wasm_bindgen: bool) -> (r: Self)
        ensures
            r.spec_abi() == abi,
            r.spec_wasm_bindgen() == wasm_bindgen,
    {
        RustGenerator { abi, wasm_bindgen }
    }

    /// The Rust spelling of a numeric type.
    pub fn num_type(&self, t: NumType) -> (r: String)
        ensures
            r@ == rs_num_type(t),
    {
        match t {
            NumType::U8 => String::from_str("u8"),
            NumType::U16 => String::from_str("u16"),
            NumType::U32 => String::from_str("u32"),
            NumType::U64 => String::from_str("u64"),
            NumType::I8 => String::from_str("i8"),
            NumType::I16 => String::from_str("i16"),
            NumType::I32 => String::from_str("i32"),
            NumType::I64 => String::from_str("i64"),
            NumType::F32 => String::from_str("f32"),
            NumType::F64 => String::from_str("f64"),
        }
    }

    /// The numeric type of `t` on the boundary of this generator's target.
    pub fn ffi_num_type(&self, t: NumType) -> (r: String)
        ensures
            r@ == rs_ffi_num_type(self.spec_abi(), t),
    {
        let is_wasm = self.abi.is_wasm();
        match t {
            NumType::U8 if !is_wasm => String::from_str("u8"),
            NumType::U16 if !is_wasm => String::from_str("u16"),
            NumType::U8 | NumType::U16 | NumType::U32 => String::from_str("u32"),
            NumType::U64 => String::from_str("u64"),
            NumType::I8 if !is_wasm => String::from_str("i8"),
            NumType::I16 if !is_wasm => String::from_str("i16"),
            NumType::I8 | NumType::I16 | NumType::I32 => String::from_str("i32"),
            NumType::I64 => String::from_str("i64"),
            NumType::F32 => String::from_str("f32"),
            NumType::F64 => String::from_str("f64"),
        }
    }

    /// The pointer-sized integer type of the target, as it appears on the
    /// boundary.
    pub fn iptr_type(&self) -> (r: String)
        ensures
            r@ == rs_ffi_num_type(self.spec_abi(), self.spec_abi().spec_iptr()),
    {
        self.ffi_num_type(self.abi.iptr())
    }

    /// Whether the notifier is declared through `wasm-bindgen`.
    pub fn uses_wasm_bindgen(&self) -> (r: bool)
        ensures
            r == self.spec_wasm_bindgen(),
    {
        self.wasm_bindgen
    }

    /// The name of a temporary.
    pub fn var(&self, v: &Var) -> (r: String)
        ensures
            r@ == rs_var(*v),
    {
        let mut s = String::from_str("tmp");
        let d = text::fmt_decimal(v.binding as u64);
        s.append(d.as_str());
        s
    }

    /// Whether `instr` satisfies `rs_instr_ok`.
    pub fn instr_ok(&self, instr: &Instr) -> (r: bool)
        ensures
            r == rs_instr_ok(*instr),
        decreases instr,
    {
        match instr {
            Instr::LiftOption(_, _, _, steps) => {
                proof {
                    assert(decreases_to!(*instr => (*instr)->LiftOption_3));
                    assert(decreases_to!((*instr)->LiftOption_3 => (*instr)->LiftOption_3@));
                }
                self.instrs_ok(steps)
            },
            Instr::LowerOption(_, _, _, steps) => {
                proof {
                    assert(decreases_to!(*instr => (*instr)->LowerOption_3));
                    assert(decreases_to!((*instr)->LowerOption_3 => (*instr)->LowerOption_3@));
                }
                self.instrs_ok(steps)
            },
            Instr::LowerResult(_, _, _, ok_steps, _, err_steps) => {
                proof {
                    assert(decreases_to!(*instr => (*instr)->LowerResult_3));
                    assert(decreases_to!((*instr)->LowerResult_3 => (*instr)->LowerResult_3@));
                    assert(decreases_to!(*instr => (*instr)->LowerResult_5));
                    assert(decreases_to!((*instr)->LowerResult_5 => (*instr)->LowerResult_5@));
                }
                let a = self.instrs_ok(ok_steps);
                let b = self.instrs_ok(err_steps);
                a && b
            },
            Instr::CallAbi(fty, recv, _, _, _) => {
                match fty {
                    FunctionType::Constructor(_) | FunctionType::Function => true,
                    _ => recv.is_some(),
                }
            },
            _ => true,
        }
    }

    /// Whether `v` satisfies `rs_instrs_ok`.
    pub fn instrs_ok(&self, v: &Vec<Instr>) -> (r: bool)
        ensures
            r == rs_instrs_ok(v@),
        decreases v@,
    {
        let mut all = true;
        let mut i: usize = 0;
        while i < v.len()
            invariant
                i <= v@.len(),
                all == rs_instrs_ok(v@.take(i as int)),
            decreases v@.len() - i,
        {
            proof {
                assert(v@.take(i + 1).drop_last() =~= v@.take(i as int));
                assert(decreases_to!(v@ => v@[i as int]));
            }
            let ok = self.instr_ok(&v[i]);
            all = all && ok;
            i = i + 1;
        }
        assert(v@.take(v@.len() as int) =~= v@);
        all
    }

    /// The code of one step of an exported function's body.
    pub fn instr(&self, instr: &Instr) -> (r: String)
        requires
            rs_instr_ok(*instr),
        ensures
            r@ == rs_instr(self.spec_abi(), *instr),
        decreases instr,
    {
        match instr {
            Instr::LiftNum(i, o) | Instr::LiftIsize(i, o) | Instr::LiftUsize(i, o) => {
                let mut buf = String::new();
                buf.append("let ");
                buf.append(self.var(o).as_str());
                buf.append(" = ");
                buf.append(self.var(i).as_str());
                buf.append(" as _;\n");
                buf
            },
            Instr::LiftNumAsU32Tuple(low, high, o, t) => {
                let mut buf = String::new();
                buf.append("let ");
                buf.append(self.var(o).as_str());
                buf.append(" = ");
                buf.append(self.num_type(*t).as_str());
                buf.append("::from(");
                buf.append(self.var(low).as_str());
                buf.append(") | (");
                buf.append(self.num_type(*t).as_str());
                buf.append("::from(");
                buf.append(self.var(high).as_str());
                buf.append(") << 32);\n");
                buf
            },
            Instr::LowerNumAsU32Tuple(i, low, high, _t) => {
                let mut buf = String::new();
                buf.append(self.var(low).as_str());
                buf.append(" = ");
                buf.append(self.var(i).as_str());
                buf.append(" as u32;\n");
                buf.append(self.var(high).as_str());
                buf.append(" = (");
                buf.append(self.var(i).as_str());
                buf.append(" >> 32) as u32;\n");
                buf
            },
            Instr::LowerNum(i, o) | Instr::LowerIsize(i, o) | Instr::LowerUsize(i, o) => {
                let mut buf = String::new();
                buf.append(self.var(o).as_str());
                buf.append(" = ");
                buf.append(self.var(i).as_str());
                buf.append(" as _;\n");
                buf
            },
            Instr::LiftBool(i, o) => {
                let mut buf = String::new();
                buf.append("let ");
                buf.append(self.var(o).as_str());
                buf.append(" = ");
                buf.append(self.var(i).as_str());
                buf.append(" > 0;\n");
                buf
            },
            Instr::LowerBool(i, o) => {
                let mut buf = String::new();
                buf.append(self.var(o).as_str());
                buf.append(" = if ");
                buf.append(self.var(i).as_str());
                buf.append(" { 1 } else { 0 };\n");
                buf
            },
            Instr::LiftStr(ptr, len, o) => {
                let mut buf = String::new();
                buf.append("let ");
                buf.append(self.var(o).as_str());
                buf.append("_0: &[u8] = unsafe { core::slice::from_raw_parts(");
                buf.append(self.var(ptr).as_str());
                buf.append(" as _, ");
                buf.append(self.var(len).as_str());
                buf.append(" as _) };\nlet ");
                buf.append(self.var(o).as_str());
                buf.append(": &str = unsafe { std::str::from_utf8_unchecked(");
                buf.append(self.var(o).as_str());
                buf.append("_0) };\n");
                buf
            },
            Instr::LowerStr(i, ptr, len) | Instr::LowerSlice(i, ptr, len, _) => {
                let mut buf = String::new();
                buf.append(self.var(ptr).as_str());
                buf.append(" = ");
                buf.append(self.var(i).as_str());
                buf.append(".as_ptr() as _;\n");
                buf.append(self.var(len).as_str());
                buf.append(" = ");
                buf.append(self.var(i).as_str());
                buf.append(".len() as _;\n");
                buf
            },
            Instr::LiftString(ptr, len, cap, o) => {
                let mut buf = String::new();
                buf.append("let ");
                buf.append(self.var(o).as_str());
                buf.append(" = unsafe { String::from_raw_parts(");
                buf.append(self.var(ptr).as_str());
                buf.append(" as _, ");
                buf.append(self.var(len).as_str());
                buf.append(" as _, ");
                buf.append(self.var(cap).as_str());
                buf.append(" as _) };\n");
                buf
            },
            Instr::LowerString(i, ptr, len, cap) | Instr::LowerVec(i, ptr, len, cap, _) => {
                let mut buf = String::new();
                buf.append("let ");
                buf.append(self.var(i).as_str());
                buf.append("_0 = ManuallyDrop::new(");
                buf.append(self.var(i).as_str());
                buf.append(");\n");
                buf.append(self.var(ptr).as_str());
                buf.append(" = ");
                buf.append(self.var(i).as_str());
                buf.append("_0.as_ptr() as _;\n");
                buf.append(self.var(len).as_str());
                buf.append(" = ");
                buf.append(self.var(i).as_str());
                buf.append("_0.len() as _;\n");
                buf.append(self.var(cap).as_str());
                buf.append(" = ");
                buf.append(self.var(i).as_str());
                buf.append("_0.capacity() as _;\n");
                buf
            },
            Instr::LiftSlice(ptr, len, o, t) => {
                let mut buf = String::new();
                buf.append("let ");
                buf.append(self.var(o).as_str());
                buf.append(": &[");
                buf.append(self.num_type(*t).as_str());
                buf.append("] = unsafe { core::slice::from_raw_parts(");
                buf.append(self.var(ptr).as_str());
                buf.append(" as _, ");
                buf.append(self.var(len).as_str());
                buf.append(" as _) };\n");
                buf
            },
            Instr::LiftVec(ptr, len, cap, o, t) => {
                let mut buf = String::new();
                buf.append("let ");
                buf.append(self.var(o).as_str());
                buf.append(" = unsafe { Vec::<");
                buf.append(self.num_type(*t).as_str());
                buf.append(">::from_raw_parts(");
                buf.append(self.var(ptr).as_str());
                buf.append(" as _, ");
                buf.append(self.var(len).as_str());
                buf.append(" as _, ");
                buf.append(self.var(cap).as_str());
                buf.append(" as _) };\n");
                buf
            },
            Instr::LiftRefObject(i, o, obj) => {
                let mut buf = String::new();
                buf.append("let ");
                buf.append(self.var(o).as_str());
                buf.append(" = unsafe { &mut *(");
                buf.append(self.var(i).as_str());
                buf.append(" as *mut ");
                buf.append(obj.as_str());
                buf.append(") };\n");
                buf
            },
            Instr::LowerRefObject(i, o) | Instr::LowerRefIter(i, o, _) | Instr::LowerRefFuture(i, o, _) | Instr::LowerRefStream(i, o, _) => {
                let mut buf = String::new();
                buf.append(self.var(o).as_str());
                buf.append(" = ");
                buf.append(self.var(i).as_str());
                buf.append(" as *const _ as _;\n");
                buf
            },
            Instr::LiftObject(i, o, obj) => {
                let mut buf = String::new();
                buf.append("let ");
                buf.append(self.var(o).as_str());
                buf.append(" = unsafe { Box::from_raw(");
                buf.append(self.var(i).as_str());
                buf.append(" as *mut ");
                buf.append(obj.as_str());
                buf.append(") };\n");
                buf
            },
            Instr::LowerObject(i, o) => {
                let mut buf = String::new();
                buf.append("let ");
                buf.append(self.var(i).as_str());
                buf.append("_0 = assert_send_static(");
                buf.append(self.var(i).as_str());
                buf.append(");\n");
                buf.append(self.var(o).as_str());
                buf.append(" = Box::into_raw(Box::new(");
                buf.append(self.var(i).as_str());
                buf.append("_0)) as _;\n");
                buf
            },
            Instr::LiftRefIter(i, o, ty) => {
                let mut buf = String::new();
                buf.append("let ");
                buf.append(self.var(o).as_str());
                buf.append(" = unsafe { &mut *(");
                buf.append(self.var(i).as_str());
                buf.append(" as *mut FfiIter<");
                buf.append(self.ty(ty).as_str());
                buf.append(">) };\n");
                buf
            },
            Instr::LiftIter(i, o, ty) => {
                let mut buf = String::new();
                buf.append("let ");
                buf.append(self.var(o).as_str());
                buf.append(" = unsafe { Box::from_raw(");
                buf.append(self.var(i).as_str());
                buf.append(" as *mut FfiIter<");
                buf.append(self.ty(ty).as_str());
                buf.append(">) };\n");
                buf
            },
            Instr::LiftRefFuture(i, o, ty) => {
                let mut buf = String::new();
                buf.append("let ");
                buf.append(self.var(o).as_str());
                buf.append(" = unsafe { &mut *(");
                buf.append(self.var(i).as_str());
                buf.append(" as *mut FfiFuture<");
                buf.append(self.ty(ty).as_str());
                buf.append(">) };\n");
                buf
            },
            Instr::LiftFuture(i, o, ty) => {
                let mut buf = String::new();
                buf.append("let ");
                buf.append(self.var(o).as_str());
                buf.append(" = unsafe { Box::from_raw(");
                buf.append(self.var(i).as_str());
                buf.append(" as *mut FfiFuture<");
                buf.append(self.ty(ty).as_str());
                buf.append(">) };\n");
                buf
            },
            Instr::LiftRefStream(i, o, ty) => {
                let mut buf = String::new();
                buf.append("let ");
                buf.append(self.var(o).as_str());
                buf.append(" = unsafe { &mut *(");
                buf.append(self.var(i).as_str());
                buf.append(" as *mut FfiStream<");
                buf.append(self.ty(ty).as_str());
                buf.append(">) };\n");
                buf
            },
            Instr::LiftStream(i, o, ty) => {
                let mut buf = String::new();
                buf.append("let ");
                buf.append(self.var(o).as_str());
                buf.append(" = unsafe { Box::from_raw(");
                buf.append(self.var(i).as_str());
                buf.append(" as *mut FfiStream<");
                buf.append(self.ty(ty).as_str());
                buf.append(">) };\n");
                buf
            },
            Instr::LiftOption(var, o, inner, steps) => {
                let mut buf = String::new();
                buf.append("let ");
                buf.append(self.var(o).as_str());
                buf.append(" = if ");
                buf.append(self.var(var).as_str());
                buf.append(" == 0 {\nNone\n} else {\n");
                proof {
                    assert(decreases_to!(*instr => (*instr)->LiftOption_3));
                    assert(decreases_to!((*instr)->LiftOption_3 => (*instr)->LiftOption_3@));
                }
                buf.append(self.instrs(steps).as_str());
                buf.append("Some(");
                buf.append(self.var(inner).as_str());
                buf.append(")\n};\n");
                buf
            },
            Instr::LowerOption(i, var, some, steps) => {
                let mut buf = String::new();
                buf.append("if let Some(");
                buf.append(self.var(some).as_str());
                buf.append(") = ");
                buf.append(self.var(i).as_str());
                buf.append(" {\n");
                buf.append(self.var(var).as_str());
                buf.append(" = 1;\n");
                proof {
                    assert(decreases_to!(*instr => (*instr)->LowerOption_3));
                    assert(decreases_to!((*instr)->LowerOption_3 => (*instr)->LowerOption_3@));
                }
                buf.append(self.instrs(steps).as_str());
                buf.append("} else {\n");
                buf.append(self.var(var).as_str());
                buf.append(" = 0;\n}\n");
                buf
            },
            Instr::LowerResult(i, var, ok, ok_steps, err, err_steps) => {
                let mut buf = String::new();
                buf.append("match ");
                buf.append(self.var(i).as_str());
                buf.append(" {\nOk(");
                buf.append(self.var(ok).as_str());
                buf.append(") => {\n");
                buf.append(self.var(var).as_str());
                buf.append(" = 1;\n");
                proof {
                    assert(decreases_to!(*instr => (*instr)->LowerResult_3));
                    assert(decreases_to!((*instr)->LowerResult_3 => (*instr)->LowerResult_3@));
                }
                buf.append(self.instrs(ok_steps).as_str());
                buf.append("}\nErr(");
                buf.append(self.var(err).as_str());
                buf.append("_0) => {\n");
                buf.append(self.var(var).as_str());
                buf.append(" = 0;\nlet ");
                buf.append(self.var(err).as_str());
                buf.append(" = ");
                buf.append(self.var(err).as_str());
                buf.append("_0.to_string();\n");
                proof {
                    assert(decreases_to!(*instr => (*instr)->LowerResult_5));
                    assert(decreases_to!((*instr)->LowerResult_5 => (*instr)->LowerResult_5@));
                }
                buf.append(self.instrs(err_steps).as_str());
                buf.append("}\n};\n");
                buf
            },
            Instr::AssertType(var, ty) => {
                let mut buf = String::new();
                buf.append("let ");
                buf.append(self.var(var).as_str());
                buf.append("_type_test: &");
                buf.append(ty.as_str());
                buf.append(" = &");
                buf.append(self.var(var).as_str());
                buf.append(";\n");
                buf
            },
            Instr::LowerIter(i, o, ty) => {
                let mut buf = String::new();
                buf.append("let ");
                buf.append(self.var(o).as_str());
                buf.append("_0 = ");
                buf.append(self.lower_iter_source(i, ty).as_str());
                buf.append(";\nlet ");
                buf.append(self.var(o).as_str());
                buf.append("_1: FfiIter<");
                buf.append(self.ty(ty).as_str());
                buf.append("> = FfiIter::new(");
                buf.append(self.var(o).as_str());
                buf.append("_0);\n");
                buf.append(self.var(o).as_str());
                buf.append(" = Box::into_raw(Box::new(");
                buf.append(self.var(o).as_str());
                buf.append("_1)) as _;\n");
                buf
            },
            Instr::LowerFuture(i, o, ty) => {
                let mut buf = String::new();
                buf.append("let ");
                buf.append(self.var(o).as_str());
                buf.append("_0 = ");
                buf.append(self.lower_future_source(i, ty).as_str());
                buf.append(";\nlet ");
                buf.append(self.var(o).as_str());
                buf.append("_1: FfiFuture<");
                buf.append(self.ty(ty).as_str());
                buf.append("> = FfiFuture::new(");
                buf.append(self.var(o).as_str());
                buf.append("_0);\n");
                buf.append(self.var(o).as_str());
                buf.append(" = Box::into_raw(Box::new(");
                buf.append(self.var(o).as_str());
                buf.append("_1)) as _;\n");
                buf
            },
            Instr::LowerStream(i, o, ty) => {
                let mut buf = String::new();
                buf.append("let ");
                buf.append(self.var(o).as_str());
                buf.append("_0: FfiStream<");
                buf.append(self.ty(ty).as_str());
                buf.append("> = FfiStream::new(");
                buf.append(self.var(i).as_str());
                buf.append(self.map_err_suffix(ty).as_str());
                buf.append(");\n");
                buf.append(self.var(o).as_str());
                buf.append(" = Box::into_raw(Box::new(");
                buf.append(self.var(o).as_str());
                buf.append("_0)) as _;\n");
                buf
            },
            Instr::LiftTuple(vars, o) => {
                let mut buf = String::new();
                buf.append("let ");
                buf.append(self.var(o).as_str());
                buf.append(" = (");
                buf.append(self.var_list(vars).as_str());
                buf.append(");\n");
                buf
            },
            Instr::LowerTuple(ret, vars) => {
                let mut buf = String::new();
                buf.append(self.tuple_fields(ret, vars).as_str());
                buf
            },
            Instr::CallAbi(fty, recv, name, ret, args) => {
                let mut buf = String::new();
                buf.append(self.call(fty, recv, name, ret, args).as_str());
                buf
            },
            Instr::DefineRets(vars) => {
                let mut buf = String::new();
                buf.append(self.define_rets(vars).as_str());
                buf
            },
        }
    }

    /// The code of a sequence of steps.
    pub fn instrs(&self, v: &Vec<Instr>) -> (r: String)
        requires
            rs_instrs_ok(v@),
        ensures
            r@ == rs_instrs(self.spec_abi(), v@),
        decreases v@,
    {
        let mut buf = String::new();
        let mut i: usize = 0;
        while i < v.len()
            invariant
                i <= v@.len(),
                rs_instrs_ok(v@),
                buf@ == rs_instrs(self.spec_abi(), v@.take(i as int)),
            decreases v@.len() - i,
        {
            proof {
                assert(v@.take(i + 1).drop_last() =~= v@.take(i as int));
                assert(decreases_to!(v@ => v@[i as int]));
                lemma_instrs_ok_at(v@, i as int);
            }
            buf.append(self.instr(&v[i]).as_str());
            i = i + 1;
        }
        assert(v@.take(v@.len() as int) =~= v@);
        buf
    }

    fn lower_iter_source(&self, v: &Var, ty: &AbiType) -> (r: String)
        ensures
            r@ == rs_lower_iter_source(*v, *ty),
    {
        if let AbiType::Result(_) = ty {
            text::join2(self.var(v).as_str(), ".map_err(|err| err.to_string())")
        } else {
            self.var(v)
        }
    }

    fn lower_future_source(&self, v: &Var, ty: &AbiType) -> (r: String)
        ensures
            r@ == rs_lower_future_source(*v, *ty),
    {
        if let AbiType::Result(_) = ty {
            text::wrap("async move { ", self.var(v).as_str(), ".await.map_err(|err| err.to_string()) }")
        } else {
            self.var(v)
        }
    }

    fn map_err_suffix(&self, ty: &AbiType) -> (r: String)
        ensures
            r@ == rs_map_err_suffix(*ty),
    {
        if let AbiType::Result(_) = ty {
            String::from_str(".map_err(|err| err.to_string())")
        } else {
            String::new()
        }
    }

    /// Temporaries, each followed by a comma.
    pub fn var_list(&self, vars: &Vec<Var>) -> (r: String)
        ensures
            r@ == rs_var_list(vars@),
    {
        let mut buf = String::new();
        let mut i: usize = 0;
        while i < vars.len()
            invariant
                i <= vars@.len(),
                buf@ == rs_var_list(vars@.take(i as int)),
            decreases vars@.len() - i,
        {
            assert(vars@.take(i + 1).drop_last() =~= vars@.take(i as int));
            buf.append(self.var(&vars[i]).as_str());
            buf.append(",");
            i = i + 1;
        }
        assert(vars@.take(vars@.len() as int) =~= vars@);
        buf
    }

    fn tuple_fields(&self, ret: &Var, vars: &Vec<Var>) -> (r: String)
        ensures
            r@ == rs_tuple_fields(*ret, vars@),
    {
        let mut buf = String::new();
        let mut i: usize = 0;
        while i < vars.len()
            invariant
                i <= vars@.len(),
                buf@ == rs_tuple_fields(*ret, vars@.take(i as int)),
            decreases vars@.len() - i,
        {
            assert(vars@.take(i + 1).drop_last() =~= vars@.take(i as int));
            buf.append("let ");
            buf.append(self.var(&vars[i]).as_str());
            buf.append(" = ");
            buf.append(self.var(ret).as_str());
            buf.append(".");
            buf.append(crate::text::fmt_decimal(i as u64).as_str());
            buf.append(";\n");
            i = i + 1;
        }
        assert(vars@.take(vars@.len() as int) =~= vars@);
        buf
    }

    fn define_rets(&self, vars: &Vec<Var>) -> (r: String)
        ensures
            r@ == rs_define_rets(vars@),
    {
        let mut buf = String::new();
        let mut i: usize = 0;
        while i < vars.len()
            invariant
                i <= vars@.len(),
                buf@ == rs_define_rets(vars@.take(i as int)),
            decreases vars@.len() - i,
        {
            assert(vars@.take(i + 1).drop_last() =~= vars@.take(i as int));
            buf.append("#[allow(unused_assignments)] let mut ");
            buf.append(self.var(&vars[i]).as_str());
            buf.append(" = Default::default();\n");
            i = i + 1;
        }
        assert(vars@.take(vars@.len() as int) =~= vars@);
        buf
    }

    fn callee(&self, fty: &FunctionType, recv: &Option<Var>, name: &String) -> (r: String)
        requires
            (fty is Constructor || fty is Function) || recv is Some,
        ensures
            r@ == rs_callee(*fty, *recv, name@),
    {
        match fty {
            FunctionType::Constructor(object) => text::wrap(object.as_str(), "::", name.as_str()),
            FunctionType::Function => String::from_str(name.as_str()),
            _ => {
                let v = match recv {
                    Some(v) => v,
                    None => {
                        assert(false);
                        return String::new();
                    },
                };
                text::wrap(self.var(v).as_str(), ".", name.as_str())
            },
        }
    }

    fn call(
        &self,
        fty: &FunctionType,
        recv: &Option<Var>,
        name: &String,
        ret: &Option<Var>,
        args: &Vec<Var>,
    ) -> (r: String)
        requires
            (fty is Constructor || fty is Function) || recv is Some,
        ensures
            r@ == rs_call(*fty, *recv, name@, *ret, args@),
    {
        let mut buf = String::new();
        match ret {
            Some(rv) => {
                buf.append("let ");
                buf.append(self.var(rv).as_str());
                buf.append(" = ");
            },
            None => {},
        }
        buf.append(self.callee(fty, recv, name).as_str());
        buf.append("(");
        buf.append(self.var_list(args).as_str());
        buf.append(");\n");
        buf
    }

    /// The Rust spelling of an interface type.
    pub fn ty(&self, t: &AbiType) -> (r: String)
        ensures
            r@ == rs_ty(self.spec_abi(), *t),
        decreases t,
    {
        match t {
            AbiType::Num(n) => self.ffi_num_type(*n),
            AbiType::Isize => String::from_str("isize"),
            AbiType::Usize => String::from_str("usize"),
            AbiType::Bool => String::from_str("bool"),
            AbiType::RefStr => String::from_str("&str"),
            AbiType::String => String::from_str("String"),
            AbiType::RefSlice(n) => text::wrap("&[", self.num_type(*n).as_str(), "]"),
            AbiType::Vec(n) => text::wrap("Vec<", self.num_type(*n).as_str(), ">"),
            AbiType::Option(inner) => text::wrap("Option<", self.ty(inner).as_str(), ">"),
            AbiType::Result(inner) => text::wrap("Result<", self.ty(inner).as_str(), ">"),
            AbiType::Object(ident) => String::from_str(ident.as_str()),
            AbiType::RefObject(ident) => text::join2("&", ident.as_str()),
            AbiType::Tuple(tys) => {
                let mut s = String::from_str("(");
                let mut i: usize = 0;
                while i < tys.len()
                    invariant
                        i <= tys@.len(),
                        *t == AbiType::Tuple(*tys),
                        s@ == "("@ + rs_ty_list(self.spec_abi(), tys@.take(i as int)),
                    decreases tys@.len() - i,
                {
                    proof {
                        assert(tys@.take(i + 1).drop_last() =~= tys@.take(i as int));
                        assert(decreases_to!(*t => (*t)->Tuple_0));
                        assert(decreases_to!((*t)->Tuple_0 => (*t)->Tuple_0@));
                        assert(decreases_to!((*t)->Tuple_0@ => (*t)->Tuple_0@[i as int]));
                    }
                    let e = self.ty(&tys[i]);
                    s.append(e.as_str());
                    s.append(",");
                    i = i + 1;
                }
                assert(tys@.take(tys@.len() as int) =~= tys@);
                s.append(")");
                s
            },
            AbiType::RefIter(inner) => text::wrap("&Vec<", self.ty(inner).as_str(), ">"),
            AbiType::Iter(inner) => text::wrap("Vec<", self.ty(inner).as_str(), ">"),
            AbiType::RefFuture(inner) => text::wrap("&impl Future<Output = ", self.ty(inner).as_str(), ">"),
            AbiType::Future(inner) => text::wrap("impl Future<Output = ", self.ty(inner).as_str(), ">"),
            AbiType::RefStream(inner) => text::wrap("&impl Stream<Item = ", self.ty(inner).as_str(), ">"),
            AbiType::Stream(inner) => text::wrap("impl Stream<Item = ", self.ty(inner).as_str(), ">"),
            AbiType::Buffer(n) => text::wrap("FfiBuffer<", self.num_type(*n).as_str(), ">"),
            AbiType::List(ident) => text::wrap("Vec<", ident.as_str(), ">"),
            AbiType::RefEnum(ident) => text::join2(ident.as_str(), "_Wrapper"),
        }
    }
}

} // verus!
