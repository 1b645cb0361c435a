use ffi_gen::abi::{AbiType, FunctionType, NumType};
use ffi_gen::dart_api::{DART_ALLOC_LOOKUPS, DART_HEAD};
use ffi_gen::dart_gen::DartGenerator;
use ffi_gen::import::{Import, ImportedFunction, ImportedInterface, ImportedObject, Instr};

fn gen() -> DartGenerator {
    DartGenerator::new("api".to_string())
}

#[test]
fn number_types() {
    let g = gen();
    assert_eq!(g.generate_wrapped_num_type(NumType::F32), "double");
    assert_eq!(g.generate_wrapped_num_type(NumType::F64), "double");
    assert_eq!(g.generate_wrapped_num_type(NumType::U8), "int");
    assert_eq!(g.generate_wrapped_num_type(NumType::I64), "int");
    assert_eq!(g.generate_native_num_type(NumType::I8), "ffi.Int8");
    assert_eq!(g.generate_native_num_type(NumType::U32), "ffi.Uint32");
    assert_eq!(g.generate_native_num_type(NumType::F32), "ffi.Float");
    assert_eq!(g.generate_native_num_type(NumType::F64), "ffi.Double");
}

#[test]
fn return_types_by_arity() {
    let g = gen();
    assert_eq!(g.generate_native_return_type("f", &vec![]), "ffi.Void");
    assert_eq!(g.generate_wrapped_return_type("f", &vec![]), "void");
    assert_eq!(g.generate_native_return_type("f", &vec![NumType::U16]), "ffi.Uint16");
    assert_eq!(g.generate_wrapped_return_type("f", &vec![NumType::F64]), "double");
    assert_eq!(g.generate_native_return_type("f", &vec![NumType::U8, NumType::U8]), "fReturn");
    assert_eq!(g.generate_wrapped_return_type("f", &vec![NumType::U8, NumType::U8]), "fReturn");
}

#[test]
fn return_structs_only_for_several_results() {
    let g = gen();
    assert_eq!(g.generate_return_struct("f", &vec![]), "");
    assert_eq!(g.generate_return_struct("f", &vec![NumType::I64]), "");
    assert_eq!(
        g.generate_return_struct("__get", &vec![NumType::I64, NumType::F32]),
        "class __getReturn extends ffi.Struct {\n@ffi.Int64()\nexternal int arg0;\n@ffi.Float()\nexternal double arg1;\n}\n"
    );
}

#[test]
fn wrapper_looks_up_the_symbol() {
    let g = gen();
    let f = Import {
        symbol: "__create".to_string(),
        args: vec![("a".to_string(), NumType::U64), ("b".to_string(), NumType::F32)],
        ret: vec![NumType::I64],
    };
    assert_eq!(
        g.generate_wrapper(&f),
        "late final __createPtr =\n_lookup<ffi.NativeFunction<ffi.Int64 Function(ffi.Uint64,ffi.Float,)>>(\"__create\");\n\nlate final __create =\n__createPtr.asFunction<int Function(int,double,)>();\n"
    );
}

#[test]
fn dart_type_spellings() {
    let g = gen();
    assert_eq!(g.generate_type(&AbiType::Num(NumType::F64)), "double");
    assert_eq!(g.generate_type(&AbiType::Usize), "int");
    assert_eq!(g.generate_type(&AbiType::Bool), "bool");
    assert_eq!(g.generate_type(&AbiType::RefStr), "String");
    assert_eq!(g.generate_type(&AbiType::Vec(NumType::U8)), "List<int>");
    assert_eq!(g.generate_type(&AbiType::RefObject("Obj".to_string())), "Obj");
}

#[test]
fn steps() {
    let g = gen();
    assert_eq!(g.generate_instr("this", &Instr::BorrowSelf(0)), "final tmp0 = this._box.borrow();\n");
    assert_eq!(g.generate_instr("this", &Instr::MoveObject(1, 2)), "final tmp2 = tmp1._box.move();\n");
    assert_eq!(g.generate_instr("this", &Instr::BindArg("value".to_string(), 3)), "final tmp3 = value;\n");
    assert_eq!(g.generate_instr("this", &Instr::BindRet(4, 1, 5)), "final tmp5 = tmp4.arg1;\n");
    assert_eq!(g.generate_instr("this", &Instr::LowerNum(1, 2, NumType::U8)), "final int tmp2 = tmp1;\n");
    assert_eq!(g.generate_instr("this", &Instr::LowerBool(1, 2)), "final tmp2 = tmp1 ? 1 : 0;\n");
    assert_eq!(g.generate_instr("this", &Instr::LiftBool(1, 2)), "final tmp2 = tmp1 > 0;\n");
    assert_eq!(g.generate_instr("this", &Instr::StrLen(1, 2)), "final tmp2 = tmp1.length;\n");
    assert_eq!(
        g.generate_instr("this._api", &Instr::Allocate(1, 2, 8, 4)),
        "final tmp1 = this._api.allocate(tmp2 * 8, 4).address;\n"
    );
    assert_eq!(
        g.generate_instr("api", &Instr::Deallocate(1, 2, 1, 1)),
        "if (tmp2 > 0) {\nfinal ffi.Pointer<ffi.Void> tmp1_0;\ntmp1_0 = ffi.Pointer.fromAddress(tmp1);\napi.deallocate(tmp1_0, tmp2 * 1, 1);\n}\n"
    );
    assert_eq!(
        g.generate_instr("this", &Instr::LiftString(1, 2, 3)),
        "final ffi.Pointer<ffi.Uint8> tmp1_0 = ffi.Pointer.fromAddress(tmp1);\nfinal tmp3 = utf8.decode(tmp1_0.asTypedList(tmp2));\n"
    );
    assert_eq!(
        g.generate_instr("this", &Instr::LiftVec(1, 2, 3, NumType::I32)),
        "final ffi.Pointer<ffi.Int32> tmp1_0 =\nffi.Pointer.fromAddress(tmp1);\nfinal tmp3 = tmp1_0.asTypedList(tmp2).toList();\n"
    );
    assert_eq!(
        g.generate_instr("this", &Instr::Call("__f".to_string(), 9, vec![1, 2])),
        "final tmp9 = this.__f(tmp1,tmp2,);\n"
    );
    assert_eq!(
        g.generate_instr("api", &Instr::MakeObject("Obj".to_string(), 1, "drop_box_Obj".to_string(), 2)),
        "final ffi.Pointer<ffi.Void> tmp1_0 = ffi.Pointer.fromAddress(tmp1);\nfinal tmp1_1 = new Box(api, tmp1_0, \"drop_box_Obj\");\ntmp1_1._finalizer = _registerFinalizer(tmp1_1);\nfinal tmp2 = new Obj._(api, tmp1_1);\n"
    );
    assert_eq!(g.generate_instr("this", &Instr::ReturnValue(7)), "return tmp7;\n");
    assert_eq!(g.generate_instr("this", &Instr::ReturnVoid), "return;\n");
}

fn do_something() -> ImportedFunction {
    ImportedFunction {
        ty: FunctionType::Method("CustomType".to_string()),
        name: "doSomething".to_string(),
        args: vec![],
        ret: Some(AbiType::Num(NumType::U32)),
        instr: vec![
            Instr::BorrowSelf(0),
            Instr::Call("__CustomType_do_something".to_string(), 1, vec![0]),
            Instr::LiftNum(1, 2, NumType::U32),
            Instr::ReturnValue(2),
        ],
    }
}

#[test]
fn methods_reach_the_api_through_their_object() {
    let g = gen();
    assert_eq!(
        g.generate_function(&do_something()),
        "int doSomething() {\nfinal tmp0 = this._box.borrow();\nfinal tmp1 = this._api.__CustomType_do_something(tmp0,);\nfinal int tmp2 = tmp1;\nreturn tmp2;\n}\n"
    );
}

#[test]
fn constructors_are_factories() {
    let g = gen();
    let f = ImportedFunction {
        ty: FunctionType::Constructor("CustomType".to_string()),
        name: "create".to_string(),
        args: vec![("value".to_string(), AbiType::Num(NumType::U32))],
        ret: Some(AbiType::Object("CustomType".to_string())),
        instr: vec![Instr::BindArg("value".to_string(), 0), Instr::ReturnValue(0)],
    };
    assert_eq!(
        g.generate_function(&f),
        "factory CustomType.create(Api api, int value,) {\nfinal tmp0 = value;\nreturn tmp0;\n}\n"
    );
}

#[test]
fn free_functions_without_result_are_void() {
    let g = gen();
    let f = ImportedFunction {
        ty: FunctionType::Function,
        name: "helloWorld".to_string(),
        args: vec![],
        ret: None,
        instr: vec![Instr::Call("__hello_world".to_string(), 0, vec![]), Instr::ReturnVoid],
    };
    assert_eq!(
        g.generate_function(&f),
        "void helloWorld() {\nfinal tmp0 = this.__hello_world();\nreturn;\n}\n"
    );
}

#[test]
fn object_class() {
    let g = gen();
    let obj = ImportedObject { name: "CustomType".to_string(), methods: vec![do_something()] };
    assert_eq!(
        g.generate_object(&obj),
        format!(
            "class CustomType {{\nfinal Api _api;\nfinal Box _box;\n\nCustomType._(this._api, this._box);\n\n{}\nvoid drop() {{\nthis._box.drop();\n}}\n}}\n",
            g.generate_function(&do_something())
        )
    );
}

#[test]
fn loader_names_the_library_per_platform() {
    let g = DartGenerator::new("example".to_string());
    let iface = ImportedInterface { functions: vec![], objects: vec![], imports: vec![] };
    let out = g.generate(&iface);
    assert!(out.starts_with(DART_HEAD));
    assert!(out.starts_with("// AUTO GENERATED FILE, DO NOT EDIT.\n"));
    assert!(out.contains("if (Platform.isLinux) name = \"libexample.so\";\n"));
    assert!(out.contains("if (Platform.isAndroid) name = \"libexample.so\";\n"));
    assert!(out.contains("if (Platform.isMacOS) name = \"libexample.dylib\";\n"));
    assert!(out.contains("if (Platform.isIOS) name = \"\";\n"));
    assert!(out.contains("if (Platform.isWindows) name = \"example.dll\";\n"));
    assert!(out.ends_with(&format!("{}}}\n\n\n", DART_ALLOC_LOOKUPS)));
}

#[test]
fn interface_items_in_order() {
    let g = gen();
    let import = Import { symbol: "__get".to_string(), args: vec![], ret: vec![NumType::I64, NumType::I64] };
    let obj = ImportedObject { name: "CustomType".to_string(), methods: vec![] };
    let empty = ImportedInterface { functions: vec![], objects: vec![], imports: vec![] };
    let base = g.generate(&empty);
    let iface = ImportedInterface { functions: vec![], objects: vec![obj], imports: vec![import] };
    let out = g.generate(&iface);
    let import = Import { symbol: "__get".to_string(), args: vec![], ret: vec![NumType::I64, NumType::I64] };
    let obj = ImportedObject { name: "CustomType".to_string(), methods: vec![] };
    let prefix_len = base.len() - "}\n\n\n".len();
    let expected = format!(
        "{}{}}}\n\n{}\n{}",
        &base[..prefix_len],
        g.generate_wrapper(&import),
        g.generate_object(&obj),
        g.generate_return_struct("__get", &import.ret)
    );
    assert_eq!(out, expected);
}
