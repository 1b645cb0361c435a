//! The items of the Rust side: exported functions with their result structs,
//! destructors, and the helpers for lists and enums.

use vstd::prelude::*;
use crate::abi::{Abi, Var};
use crate::export::{Enum, EnumEntry, Export, ObjectExport, Return, StepExport};
use crate::rust_gen::{rs_ffi_num_type, rs_instrs, rs_instrs_ok, rs_ty, rs_var, RustGenerator};
use crate::text;

verus! {

/// The parameters of an exported function, each followed by a comma.
pub open spec fn rs_params(abi: Abi, vars: Seq<Var>) -> Seq<char>
    decreases vars.len(),
{
    if vars.len() == 0 {
        Seq::empty()
    } else {
        rs_params(abi, vars.drop_last()) + rs_var(vars.last()) + ": "@ + rs_ty(abi, vars.last().ty) + ","@
    }
}

/// The result type of an exported function, with its arrow, or nothing.
pub open spec fn rs_ret_type(abi: Abi, ret: Return) -> Seq<char> {
    match ret {
        Return::Void => Seq::empty(),
        Return::Num(v) => " -> "@ + rs_ty(abi, v.ty),
        Return::Struct(_, name) => " -> "@ + name@,
    }
}

/// The fields of a result struct literal: `retI: tmpN,` for each result.
pub open spec fn rs_ret_values(vars: Seq<Var>) -> Seq<char>
    decreases vars.len(),
{
    if vars.len() == 0 {
        Seq::empty()
    } else {
        rs_ret_values(vars.drop_last()) + "ret"@ + text::decimal((vars.len() - 1) as nat) + ": "@
            + rs_var(vars.last()) + ",\n"@
    }
}

/// The value an exported function returns.
pub open spec fn rs_return_value(ret: Return) -> Seq<char> {
    match ret {
        Return::Void => Seq::empty(),
        Return::Num(v) => rs_var(v) + "\n"@,
        Return::Struct(vars, name) => name@ + " {\n"@ + rs_ret_values(vars@) + "}\n"@,
    }
}

/// The field declarations of a result struct: `pub retI: T,` for each result.
pub open spec fn rs_ret_fields(abi: Abi, vars: Seq<Var>) -> Seq<char>
    decreases vars.len(),
{
    if vars.len() == 0 {
        Seq::empty()
    } else {
        rs_ret_fields(abi, vars.drop_last()) + "pub ret"@ + text::decimal((vars.len() - 1) as nat) + ": "@
            + rs_ty(abi, vars.last().ty) + ",\n"@
    }
}

/// The `#[repr(C)]` struct through which an exported function returns several
/// numbers; nothing when it returns at most one.
pub open spec fn rs_return_struct(abi: Abi, ret: Return) -> Seq<char> {
    match ret {
        Return::Struct(vars, name) => "#[repr(C)]\npub struct "@ + name@ + " {\n"@ + rs_ret_fields(abi, vars@) + "}\n"@,
        _ => Seq::empty(),
    }
}

/// Whether the steps of an exported function satisfy `rs_instrs_ok`.
pub open spec fn rs_export_ok(e: Export) -> bool {
    rs_instrs_ok(e.instr@)
}

/// An exported function: a `#[no_mangle] extern "C"` function that runs its
/// steps inside `panic_abort`, followed by its result struct where it has one.
pub open spec fn rs_function(abi: Abi, e: Export) -> Seq<char> {
    "#[no_mangle]\npub extern \"C\" fn "@ + e.symbol@ + "("@ + rs_params(abi, e.ffi_args@) + ")"@
        + rs_ret_type(abi, e.ffi_ret) + " {\npanic_abort(move || {\n"@ + rs_instrs(abi, e.instr@)
        + rs_return_value(e.ffi_ret) + "})\n}\n"@ + rs_return_struct(abi, e.ffi_ret)
}

/// A destructor for a boxed value of the type spelled `ty`. Its first
/// parameter is unused: it takes the place of the isolate callback data that
/// Dart finalizers pass.
pub open spec fn rs_destructor(abi: Abi, name: Seq<char>, ty: Seq<char>) -> Seq<char> {
    "#[no_mangle]\npub extern \"C\" fn "@ + name + "(_: "@ + rs_ffi_num_type(abi, abi.spec_iptr()) + ", boxed: "@
        + rs_ffi_num_type(abi, abi.spec_iptr()) + ") {\npanic_abort(move || {\nunsafe { Box::<"@ + ty
        + ">::from_raw(boxed as *mut _) };\n});\n}\n"@
}

/// An exported function is declared under its symbol with its parameters and result type, runs its steps and then hands back its result, all inside `panic_abort`, and is followed by its result struct.
pub proof fn lemma_function_shape(abi: Abi, e: Export)
    ensures
        text::has_sub(rs_function(abi, e), (e.symbol@ + "("@ + rs_params(abi, e.ffi_args@) + ")"@ + rs_ret_type(abi, e.ffi_ret))),
        text::has_sub(rs_function(abi, e), (" {\npanic_abort(move || {\n"@ + rs_instrs(abi, e.instr@) + rs_return_value(e.ffi_ret))),
        text::has_sub(rs_function(abi, e), (rs_return_struct(abi, e.ffi_ret))),
{
    let whole = rs_function(abi, e);
    assert(whole =~= ("#[no_mangle]\npub extern \"C\" fn "@) + (e.symbol@ + "("@ + rs_params(abi, e.ffi_args@) + ")"@ + rs_ret_type(abi, e.ffi_ret)) + (" {\npanic_abort(move || {\n"@ + rs_instrs(abi, e.instr@) + rs_return_value(e.ffi_ret) + "})\n}\n"@ + rs_return_struct(abi, e.ffi_ret))) by {}
    text::lemma_has_sub_middle(("#[no_mangle]\npub extern \"C\" fn "@), (e.symbol@ + "("@ + rs_params(abi, e.ffi_args@) + ")"@ + rs_ret_type(abi, e.ffi_ret)), (" {\npanic_abort(move || {\n"@ + rs_instrs(abi, e.instr@) + rs_return_value(e.ffi_ret) + "})\n}\n"@ + rs_return_struct(abi, e.ffi_ret)));
    assert(whole =~= ("#[no_mangle]\npub extern \"C\" fn "@ + e.symbol@ + "("@ + rs_params(abi, e.ffi_args@) + ")"@ + rs_ret_type(abi, e.ffi_ret)) + (" {\npanic_abort(move || {\n"@ + rs_instrs(abi, e.instr@) + rs_return_value(e.ffi_ret)) + ("})\n}\n"@ + rs_return_struct(abi, e.ffi_ret))) by {}
    text::lemma_has_sub_middle(("#[no_mangle]\npub extern \"C\" fn "@ + e.symbol@ + "("@ + rs_params(abi, e.ffi_args@) + ")"@ + rs_ret_type(abi, e.ffi_ret)), (" {\npanic_abort(move || {\n"@ + rs_instrs(abi, e.instr@) + rs_return_value(e.ffi_ret)), ("})\n}\n"@ + rs_return_struct(abi, e.ffi_ret)));
    assert(whole =~= ("#[no_mangle]\npub extern \"C\" fn "@ + e.symbol@ + "("@ + rs_params(abi, e.ffi_args@) + ")"@ + rs_ret_type(abi, e.ffi_ret) + " {\npanic_abort(move || {\n"@ + rs_instrs(abi, e.instr@) + rs_return_value(e.ffi_ret) + "})\n}\n"@) + (rs_return_struct(abi, e.ffi_ret)) + Seq::<char>::empty()) by {}
    text::lemma_has_sub_middle(("#[no_mangle]\npub extern \"C\" fn "@ + e.symbol@ + "("@ + rs_params(abi, e.ffi_args@) + ")"@ + rs_ret_type(abi, e.ffi_ret) + " {\npanic_abort(move || {\n"@ + rs_instrs(abi, e.instr@) + rs_return_value(e.ffi_ret) + "})\n}\n"@), (rs_return_struct(abi, e.ffi_ret)), Seq::<char>::empty());
}

/// A destructor is named as asked, takes two pointer-sized integers (the unused isolate data and the handle), and drops the handle as a `Box` of the given type.
pub proof fn lemma_destructor_shape(abi: Abi, name: Seq<char>, ty: Seq<char>)
    ensures
        text::has_sub(rs_destructor(abi, name, ty), (name + "(_: "@ + rs_ffi_num_type(abi, abi.spec_iptr()) + ", boxed: "@ + rs_ffi_num_type(abi, abi.spec_iptr()))),
        text::has_sub(rs_destructor(abi, name, ty), (") {\npanic_abort(move || {\nunsafe { Box::<"@ + ty + ">::from_raw(boxed as *mut _) };\n});\n}\n"@)),
{
    let whole = rs_destructor(abi, name, ty);
    assert(whole =~= ("#[no_mangle]\npub extern \"C\" fn "@) + (name + "(_: "@ + rs_ffi_num_type(abi, abi.spec_iptr()) + ", boxed: "@ + rs_ffi_num_type(abi, abi.spec_iptr())) + (") {\npanic_abort(move || {\nunsafe { Box::<"@ + ty + ">::from_raw(boxed as *mut _) };\n});\n}\n"@)) by {}
    text::lemma_has_sub_middle(("#[no_mangle]\npub extern \"C\" fn "@), (name + "(_: "@ + rs_ffi_num_type(abi, abi.spec_iptr()) + ", boxed: "@ + rs_ffi_num_type(abi, abi.spec_iptr())), (") {\npanic_abort(move || {\nunsafe { Box::<"@ + ty + ">::from_raw(boxed as *mut _) };\n});\n}\n"@));
    assert(whole =~= ("#[no_mangle]\npub extern \"C\" fn "@ + name + "(_: "@ + rs_ffi_num_type(abi, abi.spec_iptr()) + ", boxed: "@ + rs_ffi_num_type(abi, abi.spec_iptr())) + (") {\npanic_abort(move || {\nunsafe { Box::<"@ + ty + ">::from_raw(boxed as *mut _) };\n});\n}\n"@) + Seq::<char>::empty()) by {}
    text::lemma_has_sub_middle(("#[no_mangle]\npub extern \"C\" fn "@ + name + "(_: "@ + rs_ffi_num_type(abi, abi.spec_iptr()) + ", boxed: "@ + rs_ffi_num_type(abi, abi.spec_iptr())), (") {\npanic_abort(move || {\nunsafe { Box::<"@ + ty + ">::from_raw(boxed as *mut _) };\n});\n}\n"@), Seq::<char>::empty());
}

/// Exported functions, one after another.
pub open spec fn rs_functions(abi: Abi, fs: Seq<Export>) -> Seq<char>
    decreases fs.len(),
{
    if fs.len() == 0 {
        Seq::empty()
    } else {
        rs_functions(abi, fs.drop_last()) + rs_function(abi, fs.last())
    }
}

/// Whether each of `fs` satisfies `rs_export_ok`.
pub open spec fn rs_exports_ok(fs: Seq<Export>) -> bool {
    forall|k: int| 0 <= k < fs.len() ==> #[trigger] rs_export_ok(fs[k])
}

/// An object's methods and its destructor `drop_box_<name>`.
pub open spec fn rs_object(abi: Abi, obj: ObjectExport) -> Seq<char> {
    rs_functions(abi, obj.methods@) + rs_destructor(abi, "drop_box_"@ + obj.name@, obj.name@)
}

/// The step function of a boxed iterator, future or stream, and its
/// destructor `<symbol><suffix>` for the boxed value of type `<wrapper><T>`.
pub open spec fn rs_step(abi: Abi, st: StepExport, suffix: Seq<char>, wrapper: Seq<char>) -> Seq<char> {
    rs_function(abi, st.step) + rs_destructor(abi, st.symbol@ + suffix, wrapper + "<"@ + rs_ty(abi, st.ty) + ">"@)
}

/// The four functions through which the other side reaches a `Vec<ty>`:
/// create, drop, length and element access.
pub open spec fn rs_list_type_methods(ty: Seq<char>) -> Seq<char> {
    "#[no_mangle]\npub extern \"C\" fn __FfiList"@ + ty + "Create() -> usize {\npanic_abort(move || unsafe {\nlet list = Box::new(Vec::<"@
        + ty + ">::new());\nBox::into_raw(list) as _\n})\n}\n"@
    + "#[no_mangle]\npub extern \"C\" fn drop_box_FfiList"@ + ty + "(_: i64, boxed: i64) {\npanic_abort(move || unsafe {\nBox::<Vec<"@
        + ty + ">>::from_raw(boxed as _);\n})\n}\n"@
    + "#[no_mangle]\npub extern \"C\" fn __FfiList"@ + ty + "Len(boxed: usize) -> u32 {\npanic_abort(move || unsafe {\nlet list = Box::<Vec<"@
        + ty + ">>::from_raw(boxed as _);\nlet result = list.len() as u32;\nBox::into_raw(list);\nresult as _\n})\n}\n"@
    + "#[no_mangle]\npub extern \"C\" fn __FfiList"@ + ty
        + "ElementAt(boxed: usize, index: u32) -> usize {\npanic_abort(move || unsafe {\nlet list = Box::<Vec<"@ + ty
        + ">>::from_raw(boxed as _);\nlet result = list.get(index as usize).unwrap() as *const _;\nBox::into_raw(list);\nresult as _\n})\n}\n"@
}

/// The element-at helper of a listed type hands out element `index` of the
/// list itself: the function `__FfiList<ty>ElementAt(boxed, index)` takes
/// the boxed `Vec<ty>` and reads `list.get(index as usize)`, no other index.
pub proof fn lemma_list_element_at_reads_index(ty: Seq<char>)
    ensures
        text::has_sub(
            rs_list_type_methods(ty),
            "pub extern \"C\" fn __FfiList"@ + ty + "ElementAt(boxed: usize, index: u32) -> usize {\n"@
                + "panic_abort(move || unsafe {\nlet list = Box::<Vec<"@ + ty + ">>::from_raw(boxed as _);\n"@
                + "let result = list.get(index as usize).unwrap() as *const _;\n"@,
        ),
{
    let a1 = "#[no_mangle]\npub extern \"C\" fn __FfiList"@;
    let a2 = "ElementAt(boxed: usize, index: u32) -> usize {\npanic_abort(move || unsafe {\nlet list = Box::<Vec<"@;
    let a3 = ">>::from_raw(boxed as _);\nlet result = list.get(index as usize).unwrap() as *const _;\nBox::into_raw(list);\nresult as _\n})\n}\n"@;
    let b1 = "pub extern \"C\" fn __FfiList"@;
    let b2 = "ElementAt(boxed: usize, index: u32) -> usize {\n"@;
    let b3 = "panic_abort(move || unsafe {\nlet list = Box::<Vec<"@;
    let b4 = ">>::from_raw(boxed as _);\n"@;
    let b5 = "let result = list.get(index as usize).unwrap() as *const _;\n"@;
    let tail = "Box::into_raw(list);\nresult as _\n})\n}\n"@;
    reveal_strlit("#[no_mangle]\npub extern \"C\" fn __FfiList");
    reveal_strlit("ElementAt(boxed: usize, index: u32) -> usize {\npanic_abort(move || unsafe {\nlet list = Box::<Vec<");
    reveal_strlit(">>::from_raw(boxed as _);\nlet result = list.get(index as usize).unwrap() as *const _;\nBox::into_raw(list);\nresult as _\n})\n}\n");
    reveal_strlit("pub extern \"C\" fn __FfiList");
    reveal_strlit("ElementAt(boxed: usize, index: u32) -> usize {\n");
    reveal_strlit("panic_abort(move || unsafe {\nlet list = Box::<Vec<");
    reveal_strlit(">>::from_raw(boxed as _);\n");
    reveal_strlit("let result = list.get(index as usize).unwrap() as *const _;\n");
    reveal_strlit("Box::into_raw(list);\nresult as _\n})\n}\n");
    reveal_strlit("#[no_mangle]\n");
    let nm = "#[no_mangle]\n"@;
    assert(a1 =~= nm + b1);
    assert(a2 =~= b2 + b3);
    assert(a3 =~= b4 + b5 + tail);
    let t = b1 + ty + b2 + b3 + ty + b4 + b5;
    let part = a1 + ty + a2 + ty + a3;
    assert(part =~= nm + t + tail);
    text::lemma_has_sub_middle(nm, t, tail);
    let whole = rs_list_type_methods(ty);
    let front = whole.take(whole.len() - part.len());
    assert(whole =~= front + part);
    text::lemma_has_sub_prepend(front, part, t);
    assert(t =~= "pub extern \"C\" fn __FfiList"@ + ty + "ElementAt(boxed: usize, index: u32) -> usize {\n"@
        + "panic_abort(move || unsafe {\nlet list = Box::<Vec<"@ + ty + ">>::from_raw(boxed as _);\n"@
        + "let result = list.get(index as usize).unwrap() as *const _;\n"@);
}

/// The parameters of an exported function are declared in their order: the text of `a + b` is that of `a` followed by that of `b`.
pub proof fn lemma_params_in_order(abi: Abi, a: Seq<Var>, b: Seq<Var>)
    ensures
        rs_params(abi, a + b) == rs_params(abi, a) + rs_params(abi, b),
    decreases b.len(),
{
    if b.len() == 0 {
        assert(a + b =~= a);
        assert(rs_params(abi, b) =~= Seq::<char>::empty());
    } else {
        lemma_params_in_order(abi, a, b.drop_last());
        assert((a + b).drop_last() =~= a + b.drop_last());
        assert((a + b).last() == b.last());
    }
}

/// Exported functions come out in their order.
pub proof fn lemma_functions_in_order(abi: Abi, a: Seq<Export>, b: Seq<Export>)
    ensures
        rs_functions(abi, a + b) == rs_functions(abi, a) + rs_functions(abi, b),
    decreases b.len(),
{
    if b.len() == 0 {
        assert(a + b =~= a);
        assert(rs_functions(abi, b) =~= Seq::<char>::empty());
    } else {
        lemma_functions_in_order(abi, a, b.drop_last());
        assert((a + b).drop_last() =~= a + b.drop_last());
        assert((a + b).last() == b.last());
    }
}

/// The match arm of an enum's destructuring function for its variant at
/// position `tag`: the tag and, where the variant holds a value, that value
/// boxed.
pub open spec fn rs_enum_arm(ident: Seq<char>, entry: EnumEntry, tag: nat) -> Seq<char> {
    if entry.inner is Some {
        ident + "::"@ + entry.name@ + "(inner) => ("@ + text::decimal(tag) + ", Box::into_raw(Box::new(inner)) as _),\n"@
    } else {
        ident + "::"@ + entry.name@ + " => ("@ + text::decimal(tag) + ", 0 as _),\n"@
    }
}

/// The match arms for the variants of an enum, numbered from zero.
pub open spec fn rs_enum_arms(ident: Seq<char>, entries: Seq<EnumEntry>) -> Seq<char>
    decreases entries.len(),
{
    if entries.len() == 0 {
        Seq::empty()
    } else {
        rs_enum_arms(ident, entries.drop_last()) + rs_enum_arm(ident, entries.last(), (entries.len() - 1) as nat)
    }
}

/// The destructuring function `destructure_enum_<ident>`, which splits an
/// enum into its tag and its boxed contents, and the destructor
/// `drop_box_<ident>`.
pub open spec fn rs_enum_helpers(e: Enum) -> Seq<char> {
    "#[no_mangle]\npub unsafe fn destructure_enum_"@ + e.ident@ + "(ptr: *mut c_void) -> EnumWrapper {\nlet e = &*(ptr as *mut "@
        + e.ident@ + ").clone();\nlet (tag, inner) = match *e {\n"@ + rs_enum_arms(e.ident@, e.entries@)
        + "};\nEnumWrapper {\ntag,\ninner,\n}\n}\n"@
    + "#[no_mangle]\npub extern \"C\" fn drop_box_"@ + e.ident@ + "(_: i64, boxed: i64) {\npanic_abort(move || {\nunsafe { Box::<"@
        + e.ident@ + ">::from_raw(boxed as *mut _) };\n});\n}\n"@
}

/// An exported function declares a struct as its result type exactly when it
/// returns several numbers, and exactly then the struct follows it, under the
/// same name.
pub proof fn lemma_return_struct_matches_signature(abi: Abi, ret: Return)
    ensures
        ret is Struct <==> rs_return_struct(abi, ret).len() > 0,
        ret matches Return::Struct(_, name) ==> {
            &&& rs_ret_type(abi, ret) == " -> "@ + name@
            &&& rs_return_struct(abi, ret).take(("#[repr(C)]\npub struct "@.len() + name@.len()) as int)
                == "#[repr(C)]\npub struct "@ + name@
        },
{
    reveal_strlit("#[repr(C)]\npub struct ");
    if let Return::Struct(vars, name) = ret {
        let full = rs_return_struct(abi, ret);
        assert(full.take(("#[repr(C)]\npub struct "@.len() + name@.len()) as int) =~= "#[repr(C)]\npub struct "@ + name@);
    }
}

/// A result struct literal sets field `ret<k>` to the `k`-th result temporary.
pub proof fn lemma_ret_value_at(s: Seq<Var>, k: int)
    requires
        0 <= k < s.len(),
    ensures
        text::has_sub(rs_ret_values(s), "ret"@ + text::decimal(k as nat) + ": "@ + rs_var(s[k]) + ",\n"@),
    decreases s.len(),
{
    let last = "ret"@ + text::decimal((s.len() - 1) as nat) + ": "@ + rs_var(s.last()) + ",\n"@;
    assert(rs_ret_values(s) =~= rs_ret_values(s.drop_last()) + last);
    if k == s.len() - 1 {
        text::lemma_has_sub_self(last);
        text::lemma_has_sub_prepend(rs_ret_values(s.drop_last()), last, last);
    } else {
        lemma_ret_value_at(s.drop_last(), k);
        assert(s.drop_last()[k] == s[k]);
        text::lemma_has_sub_append(rs_ret_values(s.drop_last()), last, "ret"@ + text::decimal(k as nat) + ": "@ + rs_var(s[k]) + ",\n"@);
    }
}

/// A result struct declares field `ret<k>` with the type of the `k`-th result.
pub proof fn lemma_ret_field_at(abi: Abi, s: Seq<Var>, k: int)
    requires
        0 <= k < s.len(),
    ensures
        text::has_sub(rs_ret_fields(abi, s), "pub ret"@ + text::decimal(k as nat) + ": "@ + rs_ty(abi, s[k].ty) + ",\n"@),
    decreases s.len(),
{
    let last = "pub ret"@ + text::decimal((s.len() - 1) as nat) + ": "@ + rs_ty(abi, s.last().ty) + ",\n"@;
    assert(rs_ret_fields(abi, s) =~= rs_ret_fields(abi, s.drop_last()) + last);
    if k == s.len() - 1 {
        text::lemma_has_sub_self(last);
        text::lemma_has_sub_prepend(rs_ret_fields(abi, s.drop_last()), last, last);
    } else {
        lemma_ret_field_at(abi, s.drop_last(), k);
        assert(s.drop_last()[k] == s[k]);
        text::lemma_has_sub_append(rs_ret_fields(abi, s.drop_last()), last, "pub ret"@ + text::decimal(k as nat) + ": "@ + rs_ty(abi, s[k].ty) + ",\n"@);
    }
}

/// The variant at position `k` of an enum is destructured with tag `k`.
pub proof fn lemma_enum_arm_at(ident: Seq<char>, s: Seq<EnumEntry>, k: int)
    requires
        0 <= k < s.len(),
    ensures
        text::has_sub(rs_enum_arms(ident, s), rs_enum_arm(ident, s[k], k as nat)),
    decreases s.len(),
{
    let last = rs_enum_arm(ident, s.last(), (s.len() - 1) as nat);
    assert(rs_enum_arms(ident, s) =~= rs_enum_arms(ident, s.drop_last()) + last);
    if k == s.len() - 1 {
        text::lemma_has_sub_self(last);
        text::lemma_has_sub_prepend(rs_enum_arms(ident, s.drop_last()), last, last);
    } else {
        lemma_enum_arm_at(ident, s.drop_last(), k);
        assert(s.drop_last()[k] == s[k]);
        text::lemma_has_sub_append(rs_enum_arms(ident, s.drop_last()), last, rs_enum_arm(ident, s[k], k as nat));
    }
}

impl RustGenerator {
    /// Whether each of `fs` satisfies `rs_export_ok`.
    pub fn exports_ok(&self, fs: &Vec<Export>) -> (r: bool)
        ensures
            r == rs_exports_ok(fs@),
    {
        let mut i: usize = 0;
        while i < fs.len()
            invariant
                i <= fs@.len(),
                forall|k: int| 0 <= k < i ==> #[trigger] rs_export_ok(fs@[k]),
            decreases fs@.len() - i,
        {
            if !self.instrs_ok(&fs[i].instr) {
                assert(!rs_export_ok(fs@[i as int]));
                return false;
            }
            i = i + 1;
        }
        true
    }

    /// The parameters of an exported function.
    pub fn params(&self, vars: &Vec<Var>) -> (r: String)
        ensures
            r@ == rs_params(self.spec_abi(), vars@),
    {
        let mut buf = String::new();
        let mut i: usize = 0;
        while i < vars.len()
            invariant
                i <= vars@.len(),
                buf@ == rs_params(self.spec_abi(), vars@.take(i as int)),
            decreases vars@.len() - i,
        {
            assert(vars@.take(i + 1).drop_last() =~= vars@.take(i as int));
            buf.append(self.var(&vars[i]).as_str());
            buf.append(": ");
            buf.append(self.ty(&vars[i].ty).as_str());
            buf.append(",");
            i = i + 1;
        }
        assert(vars@.take(vars@.len() as int) =~= vars@);
        buf
    }

    fn ret_type(&self, ret: &Return) -> (r: String)
        ensures
            r@ == rs_ret_type(self.spec_abi(), *ret),
    {
        match ret {
            Return::Void => String::new(),
            Return::Num(v) => text::join2(" -> ", self.ty(&v.ty).as_str()),
            Return::Struct(_, name) => text::join2(" -> ", name.as_str()),
        }
    }

    fn ret_values(&self, vars: &Vec<Var>) -> (r: String)
        ensures
            r@ == rs_ret_values(vars@),
    {
        let mut buf = String::new();
        let mut i: usize = 0;
        while i < vars.len()
            invariant
                i <= vars@.len(),
                buf@ == rs_ret_values(vars@.take(i as int)),
            decreases vars@.len() - i,
        {
            assert(vars@.take(i + 1).drop_last() =~= vars@.take(i as int));
            buf.append("ret");
            buf.append(text::fmt_decimal(i as u64).as_str());
            buf.append(": ");
            buf.append(self.var(&vars[i]).as_str());
            buf.append(",\n");
            i = i + 1;
        }
        assert(vars@.take(vars@.len() as int) =~= vars@);
        buf
    }

    fn return_value(&self, ret: &Return) -> (r: String)
        ensures
            r@ == rs_return_value(*ret),
    {
        match ret {
            Return::Void => String::new(),
            Return::Num(v) => text::join2(self.var(v).as_str(), "\n"),
            Return::Struct(vars, name) => {
                let mut buf = String::new();
                buf.append(name.as_str());
                buf.append(" {\n");
                buf.append(self.ret_values(vars).as_str());
                buf.append("}\n");
                buf
            },
        }
    }

    fn ret_fields(&self, vars: &Vec<Var>) -> (r: String)
        ensures
            r@ == rs_ret_fields(self.spec_abi(), vars@),
    {
        let mut buf = String::new();
        let mut i: usize = 0;
        while i < vars.len()
            invariant
                i <= vars@.len(),
                buf@ == rs_ret_fields(self.spec_abi(), vars@.take(i as int)),
            decreases vars@.len() - i,
        {
            assert(vars@.take(i + 1).drop_last() =~= vars@.take(i as int));
            buf.append("pub ret");
            buf.append(text::fmt_decimal(i as u64).as_str());
            buf.append(": ");
            buf.append(self.ty(&vars[i].ty).as_str());
            buf.append(",\n");
            i = i + 1;
        }
        assert(vars@.take(vars@.len() as int) =~= vars@);
        buf
    }

    /// The result struct of an exported function, or nothing.
    pub fn generate_return_struct(&self, e: &Export) -> (r: String)
        ensures
            r@ == rs_return_struct(self.spec_abi(), e.ffi_ret),
    {
        match &e.ffi_ret {
            Return::Struct(vars, name) => {
                let mut buf = String::new();
                buf.append("#[repr(C)]\npub struct ");
                buf.append(name.as_str());
                buf.append(" {\n");
                buf.append(self.ret_fields(vars).as_str());
                buf.append("}\n");
                buf
            },
            _ => String::new(),
        }
    }

    /// An exported function and, where it returns several numbers, its result
    /// struct.
    pub fn generate_function(&self, e: &Export) -> (r: String)
        requires
            rs_export_ok(*e),
        ensures
            r@ == rs_function(self.spec_abi(), *e),
    {
        let mut buf = String::new();
        buf.append("#[no_mangle]\npub extern \"C\" fn ");
        buf.append(e.symbol.as_str());
        buf.append("(");
        buf.append(self.params(&e.ffi_args).as_str());
        buf.append(")");
        buf.append(self.ret_type(&e.ffi_ret).as_str());
        buf.append(" {\npanic_abort(move || {\n");
        buf.append(self.instrs(&e.instr).as_str());
        buf.append(self.return_value(&e.ffi_ret).as_str());
        buf.append("})\n}\n");
        buf.append(self.generate_return_struct(e).as_str());
        buf
    }

    /// A destructor named `name` for a boxed value of the type spelled `ty`.
    pub fn generate_destructor(&self, name: &str, ty: &str) -> (r: String)
        ensures
            r@ == rs_destructor(self.spec_abi(), name@, ty@),
    {
        let iptr = self.iptr_type();
        let mut buf = String::new();
        buf.append("#[no_mangle]\npub extern \"C\" fn ");
        buf.append(name);
        buf.append("(_: ");
        buf.append(iptr.as_str());
        buf.append(", boxed: ");
        buf.append(iptr.as_str());
        buf.append(") {\npanic_abort(move || {\nunsafe { Box::<");
        buf.append(ty);
        buf.append(">::from_raw(boxed as *mut _) };\n});\n}\n");
        buf
    }

    /// Exported functions, one after another.
    pub fn generate_functions(&self, fs: &Vec<Export>) -> (r: String)
        requires
            rs_exports_ok(fs@),
        ensures
            r@ == rs_functions(self.spec_abi(), fs@),
    {
        let mut buf = String::new();
        let mut i: usize = 0;
        while i < fs.len()
            invariant
                i <= fs@.len(),
                rs_exports_ok(fs@),
                buf@ == rs_functions(self.spec_abi(), fs@.take(i as int)),
            decreases fs@.len() - i,
        {
            assert(fs@.take(i + 1).drop_last() =~= fs@.take(i as int));
            assert(rs_export_ok(fs@[i as int]));
            buf.append(self.generate_function(&fs[i]).as_str());
            i = i + 1;
        }
        assert(fs@.take(fs@.len() as int) =~= fs@);
        buf
    }

    /// An object's methods and its destructor.
    pub fn generate_object(&self, obj: &ObjectExport) -> (r: String)
        requires
            rs_exports_ok(obj.methods@),
        ensures
            r@ == rs_object(self.spec_abi(), *obj),
    {
        let name = text::join2("drop_box_", obj.name.as_str());
        let mut buf = self.generate_functions(&obj.methods);
        buf.append(self.generate_destructor(name.as_str(), obj.name.as_str()).as_str());
        buf
    }

    fn generate_step(&self, st: &StepExport, suffix: &str, wrapper: &str) -> (r: String)
        requires
            rs_export_ok(st.step),
        ensures
            r@ == rs_step(self.spec_abi(), *st, suffix@, wrapper@),
    {
        let name = text::join2(st.symbol.as_str(), suffix);
        let ty = text::wrap(wrapper, "<", self.ty(&st.ty).as_str());
        let mut ty2 = ty;
        ty2.append(">");
        let mut buf = self.generate_function(&st.step);
        buf.append(self.generate_destructor(name.as_str(), ty2.as_str()).as_str());
        buf
    }

    /// An iterator's step function and its destructor `<symbol>_iter_drop`.
    pub fn generate_iterator(&self, st: &StepExport) -> (r: String)
        requires
            rs_export_ok(st.step),
        ensures
            r@ == rs_step(self.spec_abi(), *st, "_iter_drop"@, "FfiIter"@),
    {
        self.generate_step(st, "_iter_drop", "FfiIter")
    }

    /// A future's poll function and its destructor `<symbol>_future_drop`.
    pub fn generate_future(&self, st: &StepExport) -> (r: String)
        requires
            rs_export_ok(st.step),
        ensures
            r@ == rs_step(self.spec_abi(), *st, "_future_drop"@, "FfiFuture"@),
    {
        self.generate_step(st, "_future_drop", "FfiFuture")
    }

    /// A stream's poll function and its destructor `<symbol>_stream_drop`.
    pub fn generate_stream(&self, st: &StepExport) -> (r: String)
        requires
            rs_export_ok(st.step),
        ensures
            r@ == rs_step(self.spec_abi(), *st, "_stream_drop"@, "FfiStream"@),
    {
        self.generate_step(st, "_stream_drop", "FfiStream")
    }

    /// The functions through which the other side reaches a `Vec<ty>`.
    pub fn generate_list_type_methods(&self, ty: &str) -> (r: String)
        ensures
            r@ == rs_list_type_methods(ty@),
    {
        let mut buf = String::new();
        buf.append("#[no_mangle]\npub extern \"C\" fn __FfiList");
        buf.append(ty);
        buf.append("Create() -> usize {\npanic_abort(move || unsafe {\nlet list = Box::new(Vec::<");
        buf.append(ty);
        buf.append(">::new());\nBox::into_raw(list) as _\n})\n}\n");
        buf.append("#[no_mangle]\npub extern \"C\" fn drop_box_FfiList");
        buf.append(ty);
        buf.append("(_: i64, boxed: i64) {\npanic_abort(move || unsafe {\nBox::<Vec<");
        buf.append(ty);
        buf.append(">>::from_raw(boxed as _);\n})\n}\n");
        buf.append("#[no_mangle]\npub extern \"C\" fn __FfiList");
        buf.append(ty);
        buf.append("Len(boxed: usize) -> u32 {\npanic_abort(move || unsafe {\nlet list = Box::<Vec<");
        buf.append(ty);
        buf.append(">>::from_raw(boxed as _);\nlet result = list.len() as u32;\nBox::into_raw(list);\nresult as _\n})\n}\n");
        buf.append("#[no_mangle]\npub extern \"C\" fn __FfiList");
        buf.append(ty);
        buf.append("ElementAt(boxed: usize, index: u32) -> usize {\npanic_abort(move || unsafe {\nlet list = Box::<Vec<");
        buf.append(ty);
        buf.append(">>::from_raw(boxed as _);\nlet result = list.get(index as usize).unwrap() as *const _;\nBox::into_raw(list);\nresult as _\n})\n}\n");
        buf
    }

    /// The destructuring function and the destructor of an enum.
    pub fn generate_enum_helpers(&self, e: &Enum) -> (r: String)
        ensures
            r@ == rs_enum_helpers(*e),
    {
        let mut arms = String::new();
        let mut i: usize = 0;
        while i < e.entries.len()
            invariant
                i <= e.entries@.len(),
                arms@ == rs_enum_arms(e.ident@, e.entries@.take(i as int)),
            decreases e.entries@.len() - i,
        {
            assert(e.entries@.take(i + 1).drop_last() =~= e.entries@.take(i as int));
            let entry: &EnumEntry = &e.entries[i];
            arms.append(e.ident.as_str());
            arms.append("::");
            arms.append(entry.name.as_str());
            if entry.inner.is_some() {
                arms.append("(inner) => (");
                arms.append(text::fmt_decimal(i as u64).as_str());
                arms.append(", Box::into_raw(Box::new(inner)) as _),\n");
            } else {
                arms.append(" => (");
                arms.append(text::fmt_decimal(i as u64).as_str());
                arms.append(", 0 as _),\n");
            }
            i = i + 1;
        }
        assert(e.entries@.take(e.entries@.len() as int) =~= e.entries@);
        let mut buf = String::new();
        buf.append("#[no_mangle]\npub unsafe fn destructure_enum_");
        buf.append(e.ident.as_str());
        buf.append("(ptr: *mut c_void) -> EnumWrapper {\nlet e = &*(ptr as *mut ");
        buf.append(e.ident.as_str());
        buf.append(").clone();\nlet (tag, inner) = match *e {\n");
        buf.append(arms.as_str());
        buf.append("};\nEnumWrapper {\ntag,\ninner,\n}\n}\n");
        buf.append("#[no_mangle]\npub extern \"C\" fn drop_box_");
        buf.append(e.ident.as_str());
        buf.append("(_: i64, boxed: i64) {\npanic_abort(move || {\nunsafe { Box::<");
        buf.append(e.ident.as_str());
        buf.append(">::from_raw(boxed as *mut _) };\n});\n}\n");
        buf
    }
}

} // verus!
