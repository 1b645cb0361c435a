use ffi_gen::abi::{Abi, AbiType, FunctionType, NumType, Var};
use ffi_gen::export::{Enum, EnumEntry, Export, ExportedInterface, Instr, ObjectExport, Return, StepExport};
use ffi_gen::rust_api::{RUST_API_HEAD, RUST_API_TAIL, RUST_WASM_BINDGEN_ATTR};
use ffi_gen::rust_gen::RustGenerator;
use ffi_gen::text::fmt_decimal;

fn v(binding: u32, ty: AbiType) -> Var {
    Var { binding, ty }
}

fn n(binding: u32) -> Var {
    v(binding, AbiType::Num(NumType::U32))
}

#[test]
fn decimal_formatting() {
    assert_eq!(fmt_decimal(0), "0");
    assert_eq!(fmt_decimal(7), "7");
    assert_eq!(fmt_decimal(10), "10");
    assert_eq!(fmt_decimal(12345), "12345");
    assert_eq!(fmt_decimal(u64::MAX), "18446744073709551615");
}

#[test]
fn num_types_widen_only_on_wasm() {
    let native = RustGenerator::new(Abi::Native64);
    let wasm = RustGenerator::new(Abi::Wasm32);
    assert_eq!(native.num_type(NumType::U8), "u8");
    assert_eq!(native.ffi_num_type(NumType::U8), "u8");
    assert_eq!(native.ffi_num_type(NumType::I16), "i16");
    assert_eq!(wasm.ffi_num_type(NumType::U8), "u32");
    assert_eq!(wasm.ffi_num_type(NumType::U16), "u32");
    assert_eq!(wasm.ffi_num_type(NumType::I8), "i32");
    assert_eq!(wasm.ffi_num_type(NumType::I16), "i32");
    assert_eq!(wasm.ffi_num_type(NumType::U64), "u64");
    assert_eq!(wasm.ffi_num_type(NumType::F32), "f32");
    assert_eq!(wasm.ffi_num_type(NumType::F64), "f64");
    assert_eq!(wasm.num_type(NumType::U8), "u8");
}

#[test]
fn pointer_width_follows_the_target() {
    assert_eq!(RustGenerator::new(Abi::Native64).iptr_type(), "i64");
    assert_eq!(RustGenerator::new(Abi::Wasm64).iptr_type(), "i64");
    assert_eq!(RustGenerator::new(Abi::Native32).iptr_type(), "i32");
    assert_eq!(RustGenerator::new(Abi::Wasm32).iptr_type(), "i32");
}

#[test]
fn type_spellings() {
    let g = RustGenerator::new(Abi::Wasm32);
    assert_eq!(g.ty(&AbiType::Num(NumType::I8)), "i32");
    assert_eq!(g.ty(&AbiType::RefSlice(NumType::I8)), "&[i8]");
    assert_eq!(g.ty(&AbiType::Vec(NumType::U16)), "Vec<u16>");
    assert_eq!(g.ty(&AbiType::Option(Box::new(AbiType::String))), "Option<String>");
    assert_eq!(g.ty(&AbiType::Result(Box::new(AbiType::Bool))), "Result<bool>");
    assert_eq!(g.ty(&AbiType::RefObject("Obj".to_string())), "&Obj");
    assert_eq!(g.ty(&AbiType::Object("Obj".to_string())), "Obj");
    assert_eq!(
        g.ty(&AbiType::Tuple(vec![AbiType::Usize, AbiType::RefStr])),
        "(usize,&str,)"
    );
    assert_eq!(g.ty(&AbiType::Tuple(vec![])), "()");
    assert_eq!(
        g.ty(&AbiType::Future(Box::new(AbiType::Num(NumType::U64)))),
        "impl Future<Output = u64>"
    );
    assert_eq!(
        g.ty(&AbiType::RefStream(Box::new(AbiType::Isize))),
        "&impl Stream<Item = isize>"
    );
    assert_eq!(g.ty(&AbiType::Iter(Box::new(AbiType::String))), "Vec<String>");
    assert_eq!(g.ty(&AbiType::RefIter(Box::new(AbiType::String))), "&Vec<String>");
    assert_eq!(g.ty(&AbiType::Buffer(NumType::F64)), "FfiBuffer<f64>");
    assert_eq!(g.ty(&AbiType::List("Obj".to_string())), "Vec<Obj>");
    assert_eq!(g.ty(&AbiType::RefEnum("Shape".to_string())), "Shape_Wrapper");
}

#[test]
fn temporaries_are_numbered() {
    let g = RustGenerator::new(Abi::Native64);
    assert_eq!(g.var(&n(0)), "tmp0");
    assert_eq!(g.var(&n(42)), "tmp42");
}

#[test]
fn scalar_steps() {
    let g = RustGenerator::new(Abi::Native64);
    assert_eq!(g.instr(&Instr::LiftNum(n(1), n(0))), "let tmp0 = tmp1 as _;\n");
    assert_eq!(g.instr(&Instr::LowerUsize(n(2), n(3))), "tmp3 = tmp2 as _;\n");
    assert_eq!(g.instr(&Instr::LiftBool(n(1), n(2))), "let tmp2 = tmp1 > 0;\n");
    assert_eq!(g.instr(&Instr::LowerBool(n(1), n(2))), "tmp2 = if tmp1 { 1 } else { 0 };\n");
    assert_eq!(
        g.instr(&Instr::LiftNumAsU32Tuple(n(1), n(2), n(3), NumType::U64)),
        "let tmp3 = u64::from(tmp1) | (u64::from(tmp2) << 32);\n"
    );
    assert_eq!(
        g.instr(&Instr::LowerNumAsU32Tuple(n(1), n(2), n(3), NumType::I64)),
        "tmp2 = tmp1 as u32;\ntmp3 = (tmp1 >> 32) as u32;\n"
    );
}

#[test]
fn string_and_vec_steps() {
    let g = RustGenerator::new(Abi::Native64);
    assert_eq!(
        g.instr(&Instr::LiftStr(n(1), n(2), n(0))),
        "let tmp0_0: &[u8] = unsafe { core::slice::from_raw_parts(tmp1 as _, tmp2 as _) };\nlet tmp0: &str = unsafe { std::str::from_utf8_unchecked(tmp0_0) };\n"
    );
    assert_eq!(
        g.instr(&Instr::LowerString(n(0), n(1), n(2), n(3))),
        "let tmp0_0 = ManuallyDrop::new(tmp0);\ntmp1 = tmp0_0.as_ptr() as _;\ntmp2 = tmp0_0.len() as _;\ntmp3 = tmp0_0.capacity() as _;\n"
    );
    assert_eq!(
        g.instr(&Instr::LiftVec(n(1), n(2), n(3), n(0), NumType::I16)),
        "let tmp0 = unsafe { Vec::<i16>::from_raw_parts(tmp1 as _, tmp2 as _, tmp3 as _) };\n"
    );
    assert_eq!(
        g.instr(&Instr::LowerSlice(n(0), n(1), n(2), NumType::U8)),
        "tmp1 = tmp0.as_ptr() as _;\ntmp2 = tmp0.len() as _;\n"
    );
}

#[test]
fn object_steps() {
    let g = RustGenerator::new(Abi::Native64);
    assert_eq!(
        g.instr(&Instr::LiftRefObject(n(1), n(0), "Obj".to_string())),
        "let tmp0 = unsafe { &mut *(tmp1 as *mut Obj) };\n"
    );
    assert_eq!(
        g.instr(&Instr::LowerObject(n(0), n(1))),
        "let tmp0_0 = assert_send_static(tmp0);\ntmp1 = Box::into_raw(Box::new(tmp0_0)) as _;\n"
    );
    assert_eq!(
        g.instr(&Instr::LowerRefFuture(n(0), n(1), AbiType::Bool)),
        "tmp1 = tmp0 as *const _ as _;\n"
    );
}

#[test]
fn results_turn_errors_into_strings() {
    let g = RustGenerator::new(Abi::Native64);
    let res = AbiType::Result(Box::new(AbiType::Num(NumType::U32)));
    assert_eq!(
        g.instr(&Instr::LowerIter(n(0), n(1), AbiType::String)),
        "let tmp1_0 = tmp0;\nlet tmp1_1: FfiIter<String> = FfiIter::new(tmp1_0);\ntmp1 = Box::into_raw(Box::new(tmp1_1)) as _;\n"
    );
    assert_eq!(
        g.instr(&Instr::LowerFuture(n(0), n(1), res)),
        "let tmp1_0 = async move { tmp0.await.map_err(|err| err.to_string()) };\nlet tmp1_1: FfiFuture<Result<u32>> = FfiFuture::new(tmp1_0);\ntmp1 = Box::into_raw(Box::new(tmp1_1)) as _;\n"
    );
    let res = AbiType::Result(Box::new(AbiType::Bool));
    assert_eq!(
        g.instr(&Instr::LowerStream(n(0), n(1), res)),
        "let tmp1_0: FfiStream<Result<bool>> = FfiStream::new(tmp0.map_err(|err| err.to_string()));\ntmp1 = Box::into_raw(Box::new(tmp1_0)) as _;\n"
    );
}

#[test]
fn nested_steps() {
    let g = RustGenerator::new(Abi::Native64);
    let lift = Instr::LiftOption(n(1), n(0), n(2), vec![Instr::LiftNum(n(3), n(2))]);
    assert_eq!(
        g.instr(&lift),
        "let tmp0 = if tmp1 == 0 {\nNone\n} else {\nlet tmp2 = tmp3 as _;\nSome(tmp2)\n};\n"
    );
    let lower = Instr::LowerResult(
        n(0),
        n(1),
        n(2),
        vec![Instr::LowerNum(n(2), n(3))],
        n(4),
        vec![],
    );
    assert_eq!(
        g.instr(&lower),
        "match tmp0 {\nOk(tmp2) => {\ntmp1 = 1;\ntmp3 = tmp2 as _;\n}\nErr(tmp4_0) => {\ntmp1 = 0;\nlet tmp4 = tmp4_0.to_string();\n}\n};\n"
    );
    let opt = Instr::LowerOption(n(0), n(1), n(2), vec![]);
    assert_eq!(g.instr(&opt), "if let Some(tmp2) = tmp0 {\ntmp1 = 1;\n} else {\ntmp1 = 0;\n}\n");
}

#[test]
fn tuple_and_call_steps() {
    let g = RustGenerator::new(Abi::Native64);
    assert_eq!(g.instr(&Instr::LiftTuple(vec![n(1), n(2)], n(0))), "let tmp0 = (tmp1,tmp2,);\n");
    assert_eq!(
        g.instr(&Instr::LowerTuple(n(0), vec![n(1), n(2)])),
        "let tmp1 = tmp0.0;\nlet tmp2 = tmp0.1;\n"
    );
    assert_eq!(
        g.instr(&Instr::CallAbi(FunctionType::Function, None, "f".to_string(), Some(n(3)), vec![n(1), n(2)])),
        "let tmp3 = f(tmp1,tmp2,);\n"
    );
    assert_eq!(
        g.instr(&Instr::CallAbi(
            FunctionType::Constructor("Obj".to_string()),
            None,
            "create".to_string(),
            None,
            vec![]
        )),
        "Obj::create();\n"
    );
    assert_eq!(
        g.instr(&Instr::CallAbi(
            FunctionType::Method("Obj".to_string()),
            Some(n(0)),
            "do_something".to_string(),
            Some(n(1)),
            vec![]
        )),
        "let tmp1 = tmp0.do_something();\n"
    );
    assert_eq!(
        g.instr(&Instr::DefineRets(vec![n(5)])),
        "#[allow(unused_assignments)] let mut tmp5 = Default::default();\n"
    );
    assert_eq!(
        g.instr(&Instr::AssertType(n(0), "u32".to_string())),
        "let tmp0_type_test: &u32 = &tmp0;\n"
    );
}

fn create_export() -> Export {
    Export {
        symbol: "__create".to_string(),
        ffi_args: vec![v(1, AbiType::Num(NumType::U64))],
        ffi_ret: Return::Num(v(3, AbiType::Num(NumType::I64))),
        instr: vec![
            Instr::LiftNum(n(1), n(0)),
            Instr::CallAbi(FunctionType::Function, None, "create".to_string(), Some(n(2)), vec![n(0)]),
            Instr::DefineRets(vec![n(3)]),
            Instr::LowerObject(n(2), n(3)),
        ],
    }
}

#[test]
fn exported_function_with_one_result() {
    let g = RustGenerator::new(Abi::Native64);
    assert_eq!(
        g.generate_function(&create_export()),
        "#[no_mangle]\npub extern \"C\" fn __create(tmp1: u64,) -> i64 {\npanic_abort(move || {\nlet tmp0 = tmp1 as _;\nlet tmp2 = create(tmp0,);\n#[allow(unused_assignments)] let mut tmp3 = Default::default();\nlet tmp2_0 = assert_send_static(tmp2);\ntmp3 = Box::into_raw(Box::new(tmp2_0)) as _;\ntmp3\n})\n}\n"
    );
}

#[test]
fn exported_function_with_result_struct() {
    let g = RustGenerator::new(Abi::Native64);
    let e = Export {
        symbol: "__get_copy".to_string(),
        ffi_args: vec![],
        ffi_ret: Return::Struct(
            vec![v(3, AbiType::Num(NumType::I64)), v(4, AbiType::Num(NumType::U64))],
            "__get_copyReturn".to_string(),
        ),
        instr: vec![],
    };
    let expected_struct = "#[repr(C)]\npub struct __get_copyReturn {\npub ret0: i64,\npub ret1: u64,\n}\n";
    assert_eq!(g.generate_return_struct(&e), expected_struct);
    assert_eq!(
        g.generate_function(&e),
        format!(
            "#[no_mangle]\npub extern \"C\" fn __get_copy() -> __get_copyReturn {{\npanic_abort(move || {{\n__get_copyReturn {{\nret0: tmp3,\nret1: tmp4,\n}}\n}})\n}}\n{}",
            expected_struct
        )
    );
    assert_eq!(g.generate_return_struct(&create_export()), "");
}

#[test]
fn void_exported_function() {
    let g = RustGenerator::new(Abi::Native64);
    let e = Export { symbol: "__f".to_string(), ffi_args: vec![], ffi_ret: Return::Void, instr: vec![] };
    assert_eq!(
        g.generate_function(&e),
        "#[no_mangle]\npub extern \"C\" fn __f() {\npanic_abort(move || {\n})\n}\n"
    );
}

#[test]
fn destructors_take_pointer_sized_integers() {
    let g = RustGenerator::new(Abi::Wasm32);
    assert_eq!(
        g.generate_destructor("drop_box_Obj", "Obj"),
        "#[no_mangle]\npub extern \"C\" fn drop_box_Obj(_: i32, boxed: i32) {\npanic_abort(move || {\nunsafe { Box::<Obj>::from_raw(boxed as *mut _) };\n});\n}\n"
    );
}

#[test]
fn objects_and_steps_get_destructors() {
    let g = RustGenerator::new(Abi::Native64);
    let obj = ObjectExport { name: "Obj".to_string(), methods: vec![] };
    assert_eq!(g.generate_object(&obj), g.generate_destructor("drop_box_Obj", "Obj"));
    let st = StepExport {
        symbol: "__vec_str".to_string(),
        ty: AbiType::String,
        step: Export { symbol: "__vec_str_iter_next".to_string(), ffi_args: vec![], ffi_ret: Return::Void, instr: vec![] },
    };
    let step_fn = g.generate_function(&st.step);
    assert_eq!(
        g.generate_iterator(&st),
        format!("{}{}", step_fn, g.generate_destructor("__vec_str_iter_drop", "FfiIter<String>"))
    );
    assert_eq!(
        g.generate_future(&st),
        format!("{}{}", step_fn, g.generate_destructor("__vec_str_future_drop", "FfiFuture<String>"))
    );
    assert_eq!(
        g.generate_stream(&st),
        format!("{}{}", step_fn, g.generate_destructor("__vec_str_stream_drop", "FfiStream<String>"))
    );
}

#[test]
fn list_helpers() {
    let g = RustGenerator::new(Abi::Native64);
    let out = g.generate_list_type_methods("Obj");
    assert!(out.starts_with("#[no_mangle]\npub extern \"C\" fn __FfiListObjCreate() -> usize {\n"));
    assert!(out.contains("pub extern \"C\" fn drop_box_FfiListObj(_: i64, boxed: i64) {\n"));
    assert!(out.contains("pub extern \"C\" fn __FfiListObjLen(boxed: usize) -> u32 {\n"));
    assert!(out.contains("pub extern \"C\" fn __FfiListObjElementAt(boxed: usize, index: u32) -> usize {\n"));
    assert!(out.contains("let list = Box::<Vec<Obj>>::from_raw(boxed as _);\n"));
    assert_eq!(out.matches("#[no_mangle]").count(), 4);
}

#[test]
fn enum_helpers_number_the_variants() {
    let g = RustGenerator::new(Abi::Native64);
    let e = Enum {
        ident: "Shape".to_string(),
        entries: vec![
            EnumEntry { name: "Square".to_string(), inner: Some(AbiType::Object("Vector2".to_string())) },
            EnumEntry { name: "Cube".to_string(), inner: Some(AbiType::Object("Vector3".to_string())) },
            EnumEntry { name: "None".to_string(), inner: None },
        ],
    };
    let out = g.generate_enum_helpers(&e);
    assert!(out.starts_with(
        "#[no_mangle]\npub unsafe fn destructure_enum_Shape(ptr: *mut c_void) -> EnumWrapper {\nlet e = &*(ptr as *mut Shape).clone();\nlet (tag, inner) = match *e {\n"
    ));
    assert!(out.contains(
        "Shape::Square(inner) => (0, Box::into_raw(Box::new(inner)) as _),\nShape::Cube(inner) => (1, Box::into_raw(Box::new(inner)) as _),\nShape::None => (2, 0 as _),\n};\n"
    ));
    assert!(out.ends_with(
        "pub extern \"C\" fn drop_box_Shape(_: i64, boxed: i64) {\npanic_abort(move || {\nunsafe { Box::<Shape>::from_raw(boxed as *mut _) };\n});\n}\n"
    ));
}

fn empty_interface() -> ExportedInterface {
    ExportedInterface {
        functions: vec![],
        objects: vec![],
        iterators: vec![],
        futures: vec![],
        streams: vec![],
        listed_types: vec![],
        enums: vec![],
    }
}

#[test]
fn empty_interface_gives_the_runtime() {
    let g = RustGenerator::new(Abi::Native64);
    let out = g.generate(&empty_interface());
    assert_eq!(out, format!("{}{}}}\n", RUST_API_HEAD, RUST_API_TAIL));
    assert!(out.starts_with("#[allow(unused)]\npub mod api {\n"));
    assert!(!out.contains("wasm_bindgen::prelude::wasm_bindgen"));
    let g = RustGenerator::with_wasm_bindgen(Abi::Wasm32, true);
    let out = g.generate(&empty_interface());
    assert_eq!(out, format!("{}{}{}}}\n", RUST_API_HEAD, RUST_WASM_BINDGEN_ATTR, RUST_API_TAIL));
}

#[test]
fn interface_items_follow_the_runtime_in_order() {
    let g = RustGenerator::new(Abi::Native64);
    let mut iface = empty_interface();
    iface.functions.push(create_export());
    iface.objects.push(ObjectExport { name: "DataTest".to_string(), methods: vec![] });
    iface.listed_types.push("Obj".to_string());
    let out = g.generate(&iface);
    let expected = format!(
        "{}{}{}{}{}}}\n",
        RUST_API_HEAD,
        RUST_API_TAIL,
        g.generate_function(&create_export()),
        g.generate_destructor("drop_box_DataTest", "DataTest"),
        g.generate_list_type_methods("Obj")
    );
    assert_eq!(out, expected);
}
