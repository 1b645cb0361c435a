//! The complete Dart side of the bindings: the `Box` and `Api` classes with
//! the library loader, followed by the items of the interface.

use vstd::prelude::*;
use crate::dart_gen::{dart_functions, dart_functions_ok, dart_object, dart_return_struct, dart_wrapper, DartGenerator};
use crate::import::{Import, ImportedInterface, ImportedObject};
use crate::text;

verus! {

/// The header, the finalizer helpers, the class `Box` and the start of the
/// class `Api`, up to the choice of the library file in `Api.load`.
pub const DART_HEAD: &'static str = r#"// AUTO GENERATED FILE, DO NOT EDIT.
//
// Generated by "ffi-gen".

import "dart:convert";
import "dart:ffi" as ffi;
import "dart:io" show Platform;
import "dart:typed_data";

ffi.Pointer<ffi.Void> _registerFinalizer(Box boxed) {
    final dart = ffi.DynamicLibrary.executable();
    final registerPtr = dart.lookup<ffi.NativeFunction<ffi.Pointer<ffi.Void> Function(
        ffi.Handle, ffi.Pointer<ffi.Void>, ffi.IntPtr, ffi.Pointer<ffi.Void>)>>("Dart_NewFinalizableHandle");
    final register = registerPtr
        .asFunction<ffi.Pointer<ffi.Void> Function(
            Object, ffi.Pointer<ffi.Void>, int, ffi.Pointer<ffi.Void>)>();
    return register(boxed, boxed._ptr, 42, boxed._dropPtr.cast());
}

void _unregisterFinalizer(Box boxed) {
    final dart = ffi.DynamicLibrary.executable();
    final unregisterPtr = dart.lookup<ffi.NativeFunction<ffi.Void Function(
        ffi.Pointer<ffi.Void>, ffi.Handle)>>("Dart_DeleteFinalizableHandle");
    final unregister = unregisterPtr
        .asFunction<void Function(ffi.Pointer<ffi.Void>, Box)>();
    unregister(boxed._finalizer, boxed);
}

class Box {
    final Api _api;
    final ffi.Pointer<ffi.Void> _ptr;
    final String _drop_symbol;
    bool _dropped;
    bool _moved;
    ffi.Pointer<ffi.Void> _finalizer = ffi.Pointer.fromAddress(0);

    Box(this._api, this._ptr, this._drop_symbol) : _dropped = false, _moved = false;

    late final _dropPtr = this._api._lookup<
        ffi.NativeFunction<
            ffi.Void Function(ffi.Pointer<ffi.Void>, ffi.Pointer<ffi.Void>)>>(this._drop_symbol);

    late final _drop = _dropPtr.asFunction<
        void Function(ffi.Pointer<ffi.Void>, ffi.Pointer<ffi.Void>)>();

    int borrow() {
        if (this._dropped) {
            throw new StateError("use after free");
        }
        if (this._moved) {
            throw new StateError("use after move");
        }
        return this._ptr.address;
    }

    int move() {
        if (this._dropped) {
            throw new StateError("use after free");
        }
        if (this._moved) {
            throw new StateError("can't move value twice");
        }
        this._moved = true;
        _unregisterFinalizer(this);
        return this._ptr.address;
    }

    void drop() {
        if (this._dropped) {
            throw new StateError("double free");
        }
        if (this._moved) {
            throw new StateError("can't drop moved value");
        }
        this._dropped = true;
        _unregisterFinalizer(this);
        this._drop(ffi.Pointer.fromAddress(0), this._ptr);
    }
}

class Api {
    /// Holds the symbol lookup function.
    final ffi.Pointer<T> Function<T extends ffi.NativeType>(String symbolName)
        _lookup;

    /// The symbols are looked up in [dynamicLibrary].
    Api(ffi.DynamicLibrary dynamicLibrary)
        : _lookup = dynamicLibrary.lookup;

    /// The symbols are looked up with [lookup].
    Api.fromLookup(
        ffi.Pointer<T> Function<T extends ffi.NativeType>(String symbolName)
            lookup)
        : _lookup = lookup;

    /// The library is loaded from the executable.
    factory Api.loadStatic() {
        return Api(ffi.DynamicLibrary.executable());
    }

    /// The library is dynamically loaded.
    factory Api.loadDynamic(String name) {
        return Api(ffi.DynamicLibrary.open(name));
    }

    /// The library is loaded based on platform conventions.
    factory Api.load() {
        String? name;
"#;

/// The rest of `Api.load` after the choice of the library file, and the
/// allocation methods of `Api`.
pub const DART_LOADER_TAIL: &'static str = r#"        if (name == null) {
            throw UnsupportedError("This platform is not supported.");
        }
        if (name == "") {
            return Api.loadStatic();
        } else {
            return Api.loadDynamic(name);
        }
    }

    ffi.Pointer<T> allocate<T extends ffi.NativeType>(int byteCount, int alignment) {
        return _allocate(byteCount, alignment).cast();
    }

    void deallocate<T extends ffi.NativeType>(ffi.Pointer pointer, int byteCount, int alignment) {
        this._deallocate(pointer.cast(), byteCount, alignment);
    }
"#;

/// The lookups of the allocation symbols.
pub const DART_ALLOC_LOOKUPS: &'static str = r#"

    late final _allocatePtr = _lookup<
        ffi.NativeFunction<
            ffi.Pointer<ffi.Uint8> Function(ffi.IntPtr, ffi.IntPtr)>>("allocate");

    late final _allocate = _allocatePtr.asFunction<
        ffi.Pointer<ffi.Uint8> Function(int, int)>();

    late final _deallocatePtr = _lookup<
        ffi.NativeFunction<
            ffi.Void Function(ffi.Pointer<ffi.Uint8>, ffi.IntPtr, ffi.IntPtr)>>("deallocate");

    late final _deallocate = _deallocatePtr.asFunction<
        Function(ffi.Pointer<ffi.Uint8>, int, int)>();

"#;

/// The lookups of native symbols, one after another.
pub open spec fn dart_wrappers(fs: Seq<Import>) -> Seq<char>
    decreases fs.len(),
{
    if fs.len() == 0 {
        Seq::empty()
    } else {
        dart_wrappers(fs.drop_last()) + dart_wrapper(fs.last())
    }
}

/// The result structs of native symbols, one after another.
pub open spec fn dart_return_structs(fs: Seq<Import>) -> Seq<char>
    decreases fs.len(),
{
    if fs.len() == 0 {
        Seq::empty()
    } else {
        dart_return_structs(fs.drop_last()) + dart_return_struct(fs.last().symbol@, fs.last().ret@)
    }
}

/// Dart classes of objects, one after another.
pub open spec fn dart_objects(objs: Seq<ImportedObject>) -> Seq<char>
    decreases objs.len(),
{
    if objs.len() == 0 {
        Seq::empty()
    } else {
        dart_objects(objs.drop_last()) + dart_object(objs.last())
    }
}

/// Whether the Dart side can write every function and method of `iface`.
pub open spec fn dart_interface_ok(iface: ImportedInterface) -> bool {
    &&& dart_functions_ok(iface.functions@)
    &&& forall|k: int| 0 <= k < iface.objects@.len() ==> #[trigger] dart_functions_ok(iface.objects@[k].methods@)
}

/// The loader and allocation part of `Api` for the native library `name`.
pub open spec fn dart_loader(name: Seq<char>) -> Seq<char> {
    DART_HEAD@ + "        if (Platform.isLinux) name = \"lib"@ + name + ".so\";\n"@
        + "        if (Platform.isAndroid) name = \"lib"@ + name + ".so\";\n"@
        + "        if (Platform.isMacOS) name = \"lib"@ + name + ".dylib\";\n"@
        + "        if (Platform.isIOS) name = \"\";\n"@ + "        if (Platform.isWindows) name = \""@ + name
        + ".dll\";\n"@ + DART_LOADER_TAIL@
}

/// `Api.load` picks the library file by platform: `lib<name>.so` on Linux
/// and Android, `lib<name>.dylib` on macOS, the executable itself (the empty
/// name) on iOS, and `<name>.dll` on Windows; each is assigned to `name`.
pub proof fn lemma_loader_names_by_platform(name: Seq<char>)
    ensures
        text::has_sub(dart_loader(name), "        if (Platform.isLinux) name = \"lib"@ + name + ".so\";\n"@),
        text::has_sub(dart_loader(name), "        if (Platform.isAndroid) name = \"lib"@ + name + ".so\";\n"@),
        text::has_sub(dart_loader(name), "        if (Platform.isMacOS) name = \"lib"@ + name + ".dylib\";\n"@),
        text::has_sub(dart_loader(name), "        if (Platform.isIOS) name = \"\";\n"@),
        text::has_sub(dart_loader(name), "        if (Platform.isWindows) name = \""@ + name + ".dll\";\n"@),
{
    let l = "        if (Platform.isLinux) name = \"lib"@ + name + ".so\";\n"@;
    let a = "        if (Platform.isAndroid) name = \"lib"@ + name + ".so\";\n"@;
    let m = "        if (Platform.isMacOS) name = \"lib"@ + name + ".dylib\";\n"@;
    let i = "        if (Platform.isIOS) name = \"\";\n"@;
    let w = "        if (Platform.isWindows) name = \""@ + name + ".dll\";\n"@;
    let h = DART_HEAD@;
    let t = DART_LOADER_TAIL@;
    assert(dart_loader(name) =~= h + l + (a + m + i + w + t));
    text::lemma_has_sub_middle(h, l, a + m + i + w + t);
    assert(dart_loader(name) =~= (h + l) + a + (m + i + w + t));
    text::lemma_has_sub_middle(h + l, a, m + i + w + t);
    assert(dart_loader(name) =~= (h + l + a) + m + (i + w + t));
    text::lemma_has_sub_middle(h + l + a, m, i + w + t);
    assert(dart_loader(name) =~= (h + l + a + m) + i + (w + t));
    text::lemma_has_sub_middle(h + l + a + m, i, w + t);
    assert(dart_loader(name) =~= (h + l + a + m + i) + w + t);
    text::lemma_has_sub_middle(h + l + a + m + i, w, t);
}

/// The complete Dart side: the runtime classes, `Api` with the interface's
/// functions and the lookups of the native symbols, the classes of the
/// objects, and the result structs.
pub open spec fn dart_generate(name: Seq<char>, iface: ImportedInterface) -> Seq<char> {
    dart_loader(name) + dart_functions(iface.functions@) + DART_ALLOC_LOOKUPS@ + dart_wrappers(iface.imports@) + "}\n\n"@
        + dart_objects(iface.objects@) + "\n"@ + dart_return_structs(iface.imports@)
}

impl DartGenerator {
    fn generate_wrappers(&self, fs: &Vec<Import>) -> (r: String)
        ensures
            r@ == dart_wrappers(fs@),
    {
        let mut buf = String::new();
        let mut i: usize = 0;
        while i < fs.len()
            invariant
                i <= fs@.len(),
                buf@ == dart_wrappers(fs@.take(i as int)),
            decreases fs@.len() - i,
        {
            assert(fs@.take(i + 1).drop_last() =~= fs@.take(i as int));
            buf.append(self.generate_wrapper(&fs[i]).as_str());
            i = i + 1;
        }
        assert(fs@.take(fs@.len() as int) =~= fs@);
        buf
    }

    fn generate_return_structs(&self, fs: &Vec<Import>) -> (r: String)
        ensures
            r@ == dart_return_structs(fs@),
    {
        let mut buf = String::new();
        let mut i: usize = 0;
        while i < fs.len()
            invariant
                i <= fs@.len(),
                buf@ == dart_return_structs(fs@.take(i as int)),
            decreases fs@.len() - i,
        {
            assert(fs@.take(i + 1).drop_last() =~= fs@.take(i as int));
            buf.append(self.generate_return_struct(fs[i].symbol.as_str(), &fs[i].ret).as_str());
            i = i + 1;
        }
        assert(fs@.take(fs@.len() as int) =~= fs@);
        buf
    }

    fn generate_objects(&self, objs: &Vec<ImportedObject>) -> (r: String)
        requires
            forall|k: int| 0 <= k < objs@.len() ==> #[trigger] dart_functions_ok(objs@[k].methods@),
        ensures
            r@ == dart_objects(objs@),
    {
        let mut buf = String::new();
        let mut i: usize = 0;
        while i < objs.len()
            invariant
                i <= objs@.len(),
                forall|k: int| 0 <= k < objs@.len() ==> #[trigger] dart_functions_ok(objs@[k].methods@),
                buf@ == dart_objects(objs@.take(i as int)),
            decreases objs@.len() - i,
        {
            assert(objs@.take(i + 1).drop_last() =~= objs@.take(i as int));
            assert(dart_functions_ok(objs@[i as int].methods@));
            buf.append(self.generate_object(&objs[i]).as_str());
            i = i + 1;
        }
        assert(objs@.take(objs@.len() as int) =~= objs@);
        buf
    }

    /// Whether the Dart side can write every function and method of `iface`,
    /// which `generate` asks of it.
    pub fn interface_ok(&self, iface: &ImportedInterface) -> (r: bool)
        ensures
            r == dart_interface_ok(*iface),
    {
        if !self.functions_ok(&iface.functions) {
            return false;
        }
        let mut i: usize = 0;
        while i < iface.objects.len()
            invariant
                i <= iface.objects@.len(),
                forall|k: int| 0 <= k < i ==> #[trigger] dart_functions_ok(iface.objects@[k].methods@),
            decreases iface.objects@.len() - i,
        {
            if !self.functions_ok(&iface.objects[i].methods) {
                assert(!dart_functions_ok(iface.objects@[i as int].methods@));
                return false;
            }
            i = i + 1;
        }
        true
    }

    /// The complete Dart side of the bindings for `iface`.
    pub fn generate(&self, iface: &ImportedInterface) -> (r: String)
        requires
            dart_interface_ok(*iface),
        ensures
            r@ == dart_generate(self.spec_cdylib_name(), *iface),
    {
        let name = self.cdylib_name();
        let mut buf = String::from_str(DART_HEAD);
        buf.append("        if (Platform.isLinux) name = \"lib");
        buf.append(name);
        buf.append(".so\";\n");
        buf.append("        if (Platform.isAndroid) name = \"lib");
        buf.append(name);
        buf.append(".so\";\n");
        buf.append("        if (Platform.isMacOS) name = \"lib");
        buf.append(name);
        buf.append(".dylib\";\n");
        buf.append("        if (Platform.isIOS) name = \"\";\n");
        buf.append("        if (Platform.isWindows) name = \"");
        buf.append(name);
        buf.append(".dll\";\n");
        buf.append(DART_LOADER_TAIL);
        buf.append(self.generate_functions(&iface.functions).as_str());
        buf.append(DART_ALLOC_LOOKUPS);
        buf.append(self.generate_wrappers(&iface.imports).as_str());
        buf.append("}\n\n");
        buf.append(self.generate_objects(&iface.objects).as_str());
        buf.append("\n");
        buf.append(self.generate_return_structs(&iface.imports).as_str());
        buf
    }
}

} // verus!
