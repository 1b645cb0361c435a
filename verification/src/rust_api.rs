//! The complete Rust side of the bindings: the runtime that the exported
//! functions rely on, followed by the items of the interface.

use vstd::prelude::*;
use crate::export::{Enum, ExportedInterface, ObjectExport, StepExport};
use crate::rust_gen::RustGenerator;
use crate::rust_items::{
    rs_enum_helpers, rs_exports_ok, rs_export_ok, rs_functions, rs_list_type_methods, rs_object, rs_step,
};
use crate::abi::Abi;
use crate::rust_gen::{rs_ffi_num_type, rs_ty};
use crate::rust_items::rs_function;
use crate::text;

verus! {

/// The runtime of the generated module up to the declaration of the notifier
/// callback: panic containment, allocation, buffers, wakers.
pub const RUST_API_HEAD: &'static str = r#"#[allow(unused)]
pub mod api {
    #![allow(clippy::all)]
    use core::future::Future;
    use core::mem::ManuallyDrop;
    use core::pin::Pin;
    use core::task::{Context, Poll, RawWaker, RawWakerVTable, Waker};
    use std::sync::Arc;
    use std::ffi::c_void;
    use super::*;

    type FfiString = String;

    /// Try to execute some function, catching any panics and aborting to make sure Rust
    /// doesn't unwind across the FFI boundary.
    pub fn panic_abort<R>(func: impl FnOnce() -> R + std::panic::UnwindSafe) -> R {
        match std::panic::catch_unwind(func) {
            Ok(res) => res,
            Err(_) => {
                std::process::abort();
            }
        }
    }

    #[inline(always)]
    pub fn assert_send_static<T: Send + 'static>(t: T) -> T {
        t
    }

    pub type Result<T, E = String> = core::result::Result<T, E>;

    #[no_mangle]
    pub unsafe extern "C" fn allocate(size: usize, align: usize) -> *mut u8 {
        let layout = std::alloc::Layout::from_size_align_unchecked(size, align);
        let ptr = std::alloc::alloc(layout);
        if ptr.is_null() {
            std::alloc::handle_alloc_error(layout);
        }
        ptr
    }

    #[no_mangle]
    pub unsafe extern "C" fn deallocate(ptr: *mut u8, size: usize, align: usize) {
        let layout = std::alloc::Layout::from_size_align_unchecked(size, align);
        std::alloc::dealloc(ptr, layout);
    }

    #[derive(Debug)]
    pub struct FfiBuffer<T> {
        pub addr: usize,
        pub size: usize,
        pub alloc: usize,
        pub phantom: std::marker::PhantomData<T>
    }

    impl<T> FfiBuffer<T> {
        pub fn new(data: Vec<T>) -> FfiBuffer<T> {
            unsafe {
                let (addr, size, alloc) = data.into_raw_parts();
                FfiBuffer {
                    addr: std::mem::transmute(addr),
                    size: size * std::mem::size_of::<T>(),
                    alloc: alloc * std::mem::size_of::<T>(),
                    phantom: Default::default(),
                }
            }
        }
    }

    impl<T> Drop for FfiBuffer<T> {
        fn drop(&mut self) {
            unsafe {
                Vec::from_raw_parts(self.addr as *mut u8, self.size, self.alloc);
            }
        }
    }

    #[no_mangle]
    pub unsafe extern "C" fn __ffi_buffer_address(ptr: *mut c_void) -> *mut c_void {
        let buffer = &*(ptr as *mut FfiBuffer<u8>);
        buffer.addr as _
    }

    #[no_mangle]
    pub unsafe extern "C" fn __ffi_buffer_size(ptr: *mut c_void) -> u64 {
        let buffer = &*(ptr as *mut FfiBuffer<u8>);
        buffer.size as _
    }

    #[repr(C)]
    pub struct _FfiStringParts {
        ptr: i64,
        len: u64,
        capacity: u64,
    }

    #[no_mangle]
    pub unsafe extern "C" fn __ffi_string_into_parts(ptr: *mut c_void) -> _FfiStringParts {
        let s = &*(ptr as *mut FfiString);
        let obj = ManuallyDrop::new(s);
        _FfiStringParts {
            ptr: obj.as_ptr() as _,
            len: obj.len() as _,
            capacity: obj.capacity() as _,
        }
    }

    #[no_mangle]
    pub extern "C" fn drop_box_FfiBuffer(_: i64, boxed: i64) {
        panic_abort(move || {
            unsafe { Box::<FfiBuffer<u8>>::from_raw(boxed as *mut _) };
        });
    }

    #[no_mangle]
    pub extern "C" fn drop_box_Leak(_: i64, boxed: i64) {
    }

    #[repr(C)]
    pub struct EnumWrapper {
        tag: u32,
        inner: *mut c_void,
    }

    #[repr(transparent)]
    pub struct FfiIter<T: Send + 'static>(Box<dyn Iterator<Item = T> + Send + 'static>);

    impl<T: Send + 'static> FfiIter<T> {
        pub fn new<I>(iter: I) -> Self
        where
            I: IntoIterator<Item = T>,
            I::IntoIter: Send + 'static,
        {
            Self(Box::new(iter.into_iter()))
        }

        pub fn next(&mut self) -> Option<T> {
            self.0.next()
        }
    }

    /// Converts a closure into a [`Waker`].
    ///
    /// The closure gets called every time the waker is woken.
    pub fn waker_fn<F: Fn() + Send + Sync + 'static>(f: F) -> Waker {
        let raw = Arc::into_raw(Arc::new(f)) as *const ();
        let vtable = &Helper::<F>::VTABLE;
        unsafe { Waker::from_raw(RawWaker::new(raw, vtable)) }
    }

    struct Helper<F>(F);

    impl<F: Fn() + Send + Sync + 'static> Helper<F> {
        const VTABLE: RawWakerVTable = RawWakerVTable::new(
            Self::clone_waker,
            Self::wake,
            Self::wake_by_ref,
            Self::drop_waker,
        );

        unsafe fn clone_waker(ptr: *const ()) -> RawWaker {
            let arc = ManuallyDrop::new(Arc::from_raw(ptr as *const F));
            core::mem::forget(arc.clone());
            RawWaker::new(ptr, &Self::VTABLE)
        }

        unsafe fn wake(ptr: *const ()) {
            let arc = Arc::from_raw(ptr as *const F);
            (arc)();
        }

        unsafe fn wake_by_ref(ptr: *const ()) {
            let arc = ManuallyDrop::new(Arc::from_raw(ptr as *const F));
            (arc)();
        }

        unsafe fn drop_waker(ptr: *const ()) {
            drop(Arc::from_raw(ptr as *const F));
        }
    }

    fn ffi_waker(_post_cobject: isize, port: i64) -> Waker {
        waker_fn(move || unsafe {
            if cfg!(target_family = "wasm") {
"#;

/// The attribute that declares the notifier callback through `wasm-bindgen`.
pub const RUST_WASM_BINDGEN_ATTR: &'static str = r#"                #[cfg_attr(target_family = "wasm", wasm_bindgen::prelude::wasm_bindgen(js_namespace = window, js_name = __notifier_callback))]
"#;

/// The runtime after the declaration of the notifier callback: futures and
/// streams.
pub const RUST_API_TAIL: &'static str = r#"                extern "C" {
                    fn __notifier_callback(idx: i32);
                }
                __notifier_callback(port as _);
            } else {
                let post_cobject: extern "C" fn(i64, *const core::ffi::c_void) =
                    core::mem::transmute(_post_cobject);
                let obj: i32 = 0;
                post_cobject(port, &obj as *const _ as *const _);
            }
        })
    }

    #[repr(transparent)]
    pub struct FfiFuture<T: Send + 'static>(Pin<Box<dyn Future<Output = T> + Send + 'static>>);

    impl<T: Send + 'static> FfiFuture<T> {
        pub fn new(f: impl Future<Output = T> + Send + 'static) -> Self {
            Self(Box::pin(f))
        }

        pub fn poll(&mut self, post_cobject: isize, port: i64) -> Option<T> {
            let waker = ffi_waker(post_cobject, port);
            let mut ctx = Context::from_waker(&waker);
            match Pin::new(&mut self.0).poll(&mut ctx) {
                Poll::Ready(res) => Some(res),
                Poll::Pending => None,
            }
        }
    }

    #[cfg(feature = "test_runner")]
    pub trait Stream {
        type Item;

        fn poll_next(self: Pin<&mut Self>, cx: &mut Context) -> Poll<Option<Self::Item>>;
    }

    #[cfg(feature = "test_runner")]
    impl<T> Stream for Pin<T>
    where
        T: core::ops::DerefMut + Unpin,
        T::Target: Stream,
    {
        type Item = <T::Target as Stream>::Item;

        fn poll_next(self: Pin<&mut Self>, cx: &mut Context) -> Poll<Option<Self::Item>> {
            self.get_mut().as_mut().poll_next(cx)
        }
    }

    #[repr(transparent)]
    pub struct FfiStream<T: Send + 'static>(Pin<Box<dyn Stream<Item = T> + Send + 'static>>);

    impl<T: Send + 'static> FfiStream<T> {
        pub fn new(f: impl Stream<Item = T> + Send + 'static) -> Self {
            Self(Box::pin(f))
        }

        pub fn poll(&mut self, post_cobject: isize, port: i64, done: i64) -> Option<T> {
            let waker = ffi_waker(post_cobject, port);
            let mut ctx = Context::from_waker(&waker);
            match Pin::new(&mut self.0).poll_next(&mut ctx) {
                Poll::Ready(Some(res)) => {
                    ffi_waker(post_cobject, port).wake();
                    Some(res)
                }
                Poll::Ready(None) => {
                    ffi_waker(post_cobject, done).wake();
                    None
                }
                Poll::Pending => None,
            }
        }
    }

"#;

/// Objects, one after another.
pub open spec fn rs_objects(abi: Abi, objs: Seq<ObjectExport>) -> Seq<char>
    decreases objs.len(),
{
    if objs.len() == 0 {
        Seq::empty()
    } else {
        rs_objects(abi, objs.drop_last()) + rs_object(abi, objs.last())
    }
}

/// Iterators, futures or streams, one after another.
pub open spec fn rs_steps(abi: Abi, sts: Seq<StepExport>, suffix: Seq<char>, wrapper: Seq<char>) -> Seq<char>
    decreases sts.len(),
{
    if sts.len() == 0 {
        Seq::empty()
    } else {
        rs_steps(abi, sts.drop_last(), suffix, wrapper) + rs_step(abi, sts.last(), suffix, wrapper)
    }
}

/// The list helpers of each listed type, one after another.
pub open spec fn rs_list_types(tys: Seq<String>) -> Seq<char>
    decreases tys.len(),
{
    if tys.len() == 0 {
        Seq::empty()
    } else {
        rs_list_types(tys.drop_last()) + rs_list_type_methods(tys.last()@)
    }
}

/// The helpers of each enum, one after another.
pub open spec fn rs_enums(es: Seq<Enum>) -> Seq<char>
    decreases es.len(),
{
    if es.len() == 0 {
        Seq::empty()
    } else {
        rs_enums(es.drop_last()) + rs_enum_helpers(es.last())
    }
}

/// Whether every exported function of the interface satisfies `rs_export_ok`.
pub open spec fn rs_interface_ok(iface: ExportedInterface) -> bool {
    &&& rs_exports_ok(iface.functions@)
    &&& forall|k: int| 0 <= k < iface.objects@.len() ==> #[trigger] rs_exports_ok(iface.objects@[k].methods@)
    &&& forall|k: int| 0 <= k < iface.iterators@.len() ==> #[trigger] rs_export_ok(iface.iterators@[k].step)
    &&& forall|k: int| 0 <= k < iface.futures@.len() ==> #[trigger] rs_export_ok(iface.futures@[k].step)
    &&& forall|k: int| 0 <= k < iface.streams@.len() ==> #[trigger] rs_export_ok(iface.streams@[k].step)
}

/// The runtime, with the notifier declared through `wasm-bindgen` or not.
pub open spec fn rs_runtime(wasm_bindgen: bool) -> Seq<char> {
    RUST_API_HEAD@ + (if wasm_bindgen { RUST_WASM_BINDGEN_ATTR@ } else { Seq::empty() }) + RUST_API_TAIL@
}

/// The module `api`: the runtime, then the functions, objects, iterators,
/// futures, streams, list helpers and enum helpers of the interface.
pub open spec fn rs_generate(abi: Abi, wasm_bindgen: bool, iface: ExportedInterface) -> Seq<char> {
    rs_runtime(wasm_bindgen) + rs_functions(abi, iface.functions@) + rs_objects(abi, iface.objects@)
        + rs_steps(abi, iface.iterators@, "_iter_drop"@, "FfiIter"@)
        + rs_steps(abi, iface.futures@, "_future_drop"@, "FfiFuture"@)
        + rs_steps(abi, iface.streams@, "_stream_drop"@, "FfiStream"@) + rs_list_types(iface.listed_types@)
        + rs_enums(iface.enums@) + "}\n"@
}

/// The destructor that frees a boxed `<wrapper><T>` under the name
/// `<symbol><suffix>`, spelled out: its two pointer-sized parameters, and the
/// `Box::<wrapper<T>>::from_raw` that drops the value, with `T` the Rust
/// spelling of `ty`.
pub open spec fn boxed_destructor_text(
    abi: Abi,
    symbol: Seq<char>,
    suffix: Seq<char>,
    wrapper: Seq<char>,
    ty: crate::abi::AbiType,
) -> Seq<char> {
    "#[no_mangle]\npub extern \"C\" fn "@ + symbol + suffix + "(_: "@ + rs_ffi_num_type(abi, abi.spec_iptr()) + ", boxed: "@
        + rs_ffi_num_type(abi, abi.spec_iptr()) + ") {\npanic_abort(move || {\nunsafe { Box::<"@ + wrapper + "<"@
        + rs_ty(abi, ty) + ">"@ + ">::from_raw(boxed as *mut _) };\n});\n}\n"@
}

proof fn lemma_steps_contain(abi: Abi, sts: Seq<StepExport>, suffix: Seq<char>, wrapper: Seq<char>, k: int)
    requires
        0 <= k < sts.len(),
    ensures
        text::has_sub(
            rs_steps(abi, sts, suffix, wrapper),
            rs_function(abi, sts[k].step) + boxed_destructor_text(abi, sts[k].symbol@, suffix, wrapper, sts[k].ty),
        ),
    decreases sts.len(),
{
    let t = rs_function(abi, sts[k].step) + boxed_destructor_text(abi, sts[k].symbol@, suffix, wrapper, sts[k].ty);
    if k == sts.len() - 1 {
        assert(rs_step(abi, sts[k], suffix, wrapper) =~= t);
        text::lemma_has_sub_self(t);
        text::lemma_has_sub_prepend(rs_steps(abi, sts.drop_last(), suffix, wrapper), rs_step(abi, sts[k], suffix, wrapper), t);
    } else {
        lemma_steps_contain(abi, sts.drop_last(), suffix, wrapper, k);
        assert(sts.drop_last()[k] == sts[k]);
        text::lemma_has_sub_append(
            rs_steps(abi, sts.drop_last(), suffix, wrapper),
            rs_step(abi, sts.last(), suffix, wrapper),
            t,
        );
    }
}

/// What occurs in the iterators', futures' or streams' part of the module
/// occurs in the module.
proof fn lemma_generate_contains_part(abi: Abi, wasm_bindgen: bool, iface: ExportedInterface, kind: int, t: Seq<char>)
    requires
        kind == 0 ==> text::has_sub(rs_steps(abi, iface.iterators@, "_iter_drop"@, "FfiIter"@), t),
        kind == 1 ==> text::has_sub(rs_steps(abi, iface.futures@, "_future_drop"@, "FfiFuture"@), t),
        kind == 2 ==> text::has_sub(rs_steps(abi, iface.streams@, "_stream_drop"@, "FfiStream"@), t),
        0 <= kind < 3,
    ensures
        text::has_sub(rs_generate(abi, wasm_bindgen, iface), t),
{
    let r = rs_runtime(wasm_bindgen);
    let f = rs_functions(abi, iface.functions@);
    let o = rs_objects(abi, iface.objects@);
    let it = rs_steps(abi, iface.iterators@, "_iter_drop"@, "FfiIter"@);
    let fu = rs_steps(abi, iface.futures@, "_future_drop"@, "FfiFuture"@);
    let st = rs_steps(abi, iface.streams@, "_stream_drop"@, "FfiStream"@);
    let lt = rs_list_types(iface.listed_types@);
    let en = rs_enums(iface.enums@);
    if kind == 0 {
        text::lemma_has_sub_prepend(r + f + o, it, t);
        text::lemma_has_sub_append(r + f + o + it, fu, t);
    } else if kind == 1 {
        text::lemma_has_sub_prepend(r + f + o + it, fu, t);
    }
    if kind <= 1 {
        text::lemma_has_sub_append(r + f + o + it + fu, st, t);
    } else {
        text::lemma_has_sub_prepend(r + f + o + it + fu, st, t);
    }
    text::lemma_has_sub_append(r + f + o + it + fu + st, lt, t);
    text::lemma_has_sub_append(r + f + o + it + fu + st + lt, en, t);
    text::lemma_has_sub_append(r + f + o + it + fu + st + lt + en, "}\n"@, t);
}

/// Each iterator of the interface gets its step function followed by the
/// destructor `<symbol>_iter_drop`, which frees a `Box<FfiIter<T>>` with `T`
/// the Rust spelling of its item type.
pub proof fn lemma_generate_iterator_destructor(abi: Abi, wasm_bindgen: bool, iface: ExportedInterface, k: int)
    requires
        0 <= k < iface.iterators@.len(),
    ensures
        text::has_sub(
            rs_generate(abi, wasm_bindgen, iface),
            rs_function(abi, iface.iterators@[k].step) + boxed_destructor_text(
                abi,
                iface.iterators@[k].symbol@,
                "_iter_drop"@,
                "FfiIter"@,
                iface.iterators@[k].ty,
            ),
        ),
{
    lemma_steps_contain(abi, iface.iterators@, "_iter_drop"@, "FfiIter"@, k);
    lemma_generate_contains_part(
        abi,
        wasm_bindgen,
        iface,
        0,
        rs_function(abi, iface.iterators@[k].step) + boxed_destructor_text(
            abi,
            iface.iterators@[k].symbol@,
            "_iter_drop"@,
            "FfiIter"@,
            iface.iterators@[k].ty,
        ),
    );
}

/// Each future of the interface gets its poll function followed by the
/// destructor `<symbol>_future_drop`, which frees a `Box<FfiFuture<T>>` with
/// `T` the Rust spelling of its output type.
pub proof fn lemma_generate_future_destructor(abi: Abi, wasm_bindgen: bool, iface: ExportedInterface, k: int)
    requires
        0 <= k < iface.futures@.len(),
    ensures
        text::has_sub(
            rs_generate(abi, wasm_bindgen, iface),
            rs_function(abi, iface.futures@[k].step) + boxed_destructor_text(
                abi,
                iface.futures@[k].symbol@,
                "_future_drop"@,
                "FfiFuture"@,
                iface.futures@[k].ty,
            ),
        ),
{
    lemma_steps_contain(abi, iface.futures@, "_future_drop"@, "FfiFuture"@, k);
    lemma_generate_contains_part(
        abi,
        wasm_bindgen,
        iface,
        1,
        rs_function(abi, iface.futures@[k].step) + boxed_destructor_text(
            abi,
            iface.futures@[k].symbol@,
            "_future_drop"@,
            "FfiFuture"@,
            iface.futures@[k].ty,
        ),
    );
}

/// Each stream of the interface gets its poll function followed by the
/// destructor `<symbol>_stream_drop`, which frees a `Box<FfiStream<T>>` with
/// `T` the Rust spelling of its item type.
pub proof fn lemma_generate_stream_destructor(abi: Abi, wasm_bindgen: bool, iface: ExportedInterface, k: int)
    requires
        0 <= k < iface.streams@.len(),
    ensures
        text::has_sub(
            rs_generate(abi, wasm_bindgen, iface),
            rs_function(abi, iface.streams@[k].step) + boxed_destructor_text(
                abi,
                iface.streams@[k].symbol@,
                "_stream_drop"@,
                "FfiStream"@,
                iface.streams@[k].ty,
            ),
        ),
{
    lemma_steps_contain(abi, iface.streams@, "_stream_drop"@, "FfiStream"@, k);
    lemma_generate_contains_part(
        abi,
        wasm_bindgen,
        iface,
        2,
        rs_function(abi, iface.streams@[k].step) + boxed_destructor_text(
            abi,
            iface.streams@[k].symbol@,
            "_stream_drop"@,
            "FfiStream"@,
            iface.streams@[k].ty,
        ),
    );
}

impl RustGenerator {
    fn generate_objects(&self, objs: &Vec<ObjectExport>) -> (r: String)
        requires
            forall|k: int| 0 <= k < objs@.len() ==> #[trigger] rs_exports_ok(objs@[k].methods@),
        ensures
            r@ == rs_objects(self.spec_abi(), objs@),
    {
        let mut buf = String::new();
        let mut i: usize = 0;
        while i < objs.len()
            invariant
                i <= objs@.len(),
                forall|k: int| 0 <= k < objs@.len() ==> #[trigger] rs_exports_ok(objs@[k].methods@),
                buf@ == rs_objects(self.spec_abi(), objs@.take(i as int)),
            decreases objs@.len() - i,
        {
            assert(objs@.take(i + 1).drop_last() =~= objs@.take(i as int));
            assert(rs_exports_ok(objs@[i as int].methods@));
            buf.append(self.generate_object(&objs[i]).as_str());
            i = i + 1;
        }
        assert(objs@.take(objs@.len() as int) =~= objs@);
        buf
    }

    fn generate_steps(&self, sts: &Vec<StepExport>, kind: u8) -> (r: String)
        requires
            forall|k: int| 0 <= k < sts@.len() ==> #[trigger] rs_export_ok(sts@[k].step),
            kind < 3,
        ensures
            kind == 0 ==> r@ == rs_steps(self.spec_abi(), sts@, "_iter_drop"@, "FfiIter"@),
            kind == 1 ==> r@ == rs_steps(self.spec_abi(), sts@, "_future_drop"@, "FfiFuture"@),
            kind == 2 ==> r@ == rs_steps(self.spec_abi(), sts@, "_stream_drop"@, "FfiStream"@),
    {
        let mut buf = String::new();
        let mut i: usize = 0;
        while i < sts.len()
            invariant
                i <= sts@.len(),
                kind < 3,
                forall|k: int| 0 <= k < sts@.len() ==> #[trigger] rs_export_ok(sts@[k].step),
                kind == 0 ==> buf@ == rs_steps(self.spec_abi(), sts@.take(i as int), "_iter_drop"@, "FfiIter"@),
                kind == 1 ==> buf@ == rs_steps(self.spec_abi(), sts@.take(i as int), "_future_drop"@, "FfiFuture"@),
                kind == 2 ==> buf@ == rs_steps(self.spec_abi(), sts@.take(i as int), "_stream_drop"@, "FfiStream"@),
            decreases sts@.len() - i,
        {
            assert(sts@.take(i + 1).drop_last() =~= sts@.take(i as int));
            assert(rs_export_ok(sts@[i as int].step));
            let item = if kind == 0 {
                self.generate_iterator(&sts[i])
            } else if kind == 1 {
                self.generate_future(&sts[i])
            } else {
                self.generate_stream(&sts[i])
            };
            buf.append(item.as_str());
            i = i + 1;
        }
        assert(sts@.take(sts@.len() as int) =~= sts@);
        buf
    }

    fn generate_list_types(&self, tys: &Vec<String>) -> (r: String)
        ensures
            r@ == rs_list_types(tys@),
    {
        let mut buf = String::new();
        let mut i: usize = 0;
        while i < tys.len()
            invariant
                i <= tys@.len(),
                buf@ == rs_list_types(tys@.take(i as int)),
            decreases tys@.len() - i,
        {
            assert(tys@.take(i + 1).drop_last() =~= tys@.take(i as int));
            buf.append(self.generate_list_type_methods(tys[i].as_str()).as_str());
            i = i + 1;
        }
        assert(tys@.take(tys@.len() as int) =~= tys@);
        buf
    }

    fn generate_enums(&self, es: &Vec<Enum>) -> (r: String)
        ensures
            r@ == rs_enums(es@),
    {
        let mut buf = String::new();
        let mut i: usize = 0;
        while i < es.len()
            invariant
                i <= es@.len(),
                buf@ == rs_enums(es@.take(i as int)),
            decreases es@.len() - i,
        {
            assert(es@.take(i + 1).drop_last() =~= es@.take(i as int));
            buf.append(self.generate_enum_helpers(&es[i]).as_str());
            i = i + 1;
        }
        assert(es@.take(es@.len() as int) =~= es@);
        buf
    }

    /// Whether every exported function of `iface` satisfies `rs_export_ok`,
    /// which `generate` asks of it.
    pub fn interface_ok(&self, iface: &ExportedInterface) -> (r: bool)
        ensures
            r == rs_interface_ok(*iface),
    {
        if !self.exports_ok(&iface.functions) {
            return false;
        }
        let mut i: usize = 0;
        while i < iface.objects.len()
            invariant
                i <= iface.objects@.len(),
                forall|k: int| 0 <= k < i ==> #[trigger] rs_exports_ok(iface.objects@[k].methods@),
            decreases iface.objects@.len() - i,
        {
            if !self.exports_ok(&iface.objects[i].methods) {
                assert(!rs_exports_ok(iface.objects@[i as int].methods@));
                return false;
            }
            i = i + 1;
        }
        self.steps_ok(&iface.iterators) && self.steps_ok(&iface.futures) && self.steps_ok(&iface.streams)
    }

    fn steps_ok(&self, sts: &Vec<StepExport>) -> (r: bool)
        ensures
            r == (forall|k: int| 0 <= k < sts@.len() ==> #[trigger] rs_export_ok(sts@[k].step)),
    {
        let mut i: usize = 0;
        while i < sts.len()
            invariant
                i <= sts@.len(),
                forall|k: int| 0 <= k < i ==> #[trigger] rs_export_ok(sts@[k].step),
            decreases sts@.len() - i,
        {
            if !self.instrs_ok(&sts[i].step.instr) {
                assert(!rs_export_ok(sts@[i as int].step));
                return false;
            }
            i = i + 1;
        }
        true
    }

    /// The complete Rust side of the bindings for `iface`.
    pub fn generate(&self, iface: &ExportedInterface) -> (r: String)
        requires
            rs_interface_ok(*iface),
        ensures
            r@ == rs_generate(self.spec_abi(), self.spec_wasm_bindgen(), *iface),
    {
        let mut buf = String::from_str(RUST_API_HEAD);
        if self.uses_wasm_bindgen() {
            buf.append(RUST_WASM_BINDGEN_ATTR);
        }
        buf.append(RUST_API_TAIL);
        buf.append(self.generate_functions(&iface.functions).as_str());
        buf.append(self.generate_objects(&iface.objects).as_str());
        buf.append(self.generate_steps(&iface.iterators, 0).as_str());
        buf.append(self.generate_steps(&iface.futures, 1).as_str());
        buf.append(self.generate_steps(&iface.streams, 2).as_str());
        buf.append(self.generate_list_types(&iface.listed_types).as_str());
        buf.append(self.generate_enums(&iface.enums).as_str());
        buf.append("}\n");
        buf
    }
}

} // verus!
