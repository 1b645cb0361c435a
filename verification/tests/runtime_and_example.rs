use ffi_gen::example::{
    create, create_list, get_shape, get_shapes, hello_world, i16, i8, s, ss, sum_list, u16, u64, u8, CustomType, Shape,
};
use ffi_gen::harness::{dart_runner_program, dart_test_library, dart_test_program, rust_quoted, rust_test_program, DART_LIST_EQUALS};
use ffi_gen::runtime::{assert_send_static, future_poll_result, stream_poll_result, FfiBuffer, FfiIter, PollState};

#[test]
fn iterator_gives_items_in_order_then_nothing() {
    let mut it = FfiIter::new(vec!["hello".to_string(), "world".to_string()]);
    assert_eq!(it.next(), Some("hello".to_string()));
    assert_eq!(it.next(), Some("world".to_string()));
    assert_eq!(it.next(), None);
    assert_eq!(it.next(), None);
}

#[test]
fn empty_iterator() {
    let mut it: FfiIter<u8> = FfiIter::new(vec![]);
    assert_eq!(it.next(), None);
}

#[test]
fn buffers_hold_their_data() {
    let b = FfiBuffer::new(vec![1u16, 2, 3]);
    assert_eq!(b.len(), 3);
    assert_eq!(b.as_slice(), &[1, 2, 3]);
    assert_eq!(b.byte_size(), Some(6));
    assert_eq!(FfiBuffer::new(vec![0u64; 5]).byte_size(), Some(40));
    assert_eq!(FfiBuffer::<u8>::new(vec![]).byte_size(), Some(0));
}

#[test]
fn send_static_is_identity() {
    assert_eq!(assert_send_static(42u32), 42);
    assert_eq!(assert_send_static("x".to_string()), "x");
}

#[test]
fn polls() {
    assert_eq!(future_poll_result(PollState::Ready(42u64)), Some(42));
    assert_eq!(future_poll_result::<u64>(PollState::Pending), None);
    assert_eq!(stream_poll_result(PollState::Ready(Some(7u8)), 10, 20), (Some(7), Some(10)));
    assert_eq!(stream_poll_result::<u8>(PollState::Ready(None), 10, 20), (None, Some(20)));
    assert_eq!(stream_poll_result::<u8>(PollState::Pending, 10, 20), (None, None));
}

#[test]
fn example_strings() {
    assert_eq!(hello_world(), "hello world");
    assert_eq!(s(), "string from rust");
    assert_eq!(ss(), vec!["first".to_string(), "second".to_string(), "third".to_string()]);
}

#[test]
fn data_test_bytes() {
    let d = create(4);
    assert_eq!(d.get_copy(), vec![42, 42, 42, 42]);
    assert_eq!(d.get_shmem().as_slice(), &[42, 42, 42, 42]);
    assert_eq!(create(0).get_copy(), Vec::<u8>::new());
}

#[test]
fn list_sum() {
    let l = create_list();
    let ns: Vec<i32> = l.iter().map(|c| c.get_n()).collect();
    assert_eq!(ns, vec![5, 4, 3, 2, 1]);
    assert_eq!(sum_list(&l), 15);
    assert_eq!(sum_list(&[]), 0);
    assert_eq!(sum_list(&[CustomType { n: -1 }]), u32::MAX);
    assert_eq!(sum_list(&[CustomType { n: i32::MAX }, CustomType { n: -5 }]), (i32::MAX - 5) as u32);
}

#[test]
fn list_sum_ignores_order() {
    let mut l = create_list();
    let forward = sum_list(&l);
    l.reverse();
    assert_eq!(sum_list(&l), forward);
    let a = [CustomType { n: -7 }, CustomType { n: 3 }, CustomType { n: 10 }];
    let b = [CustomType { n: 10 }, CustomType { n: -7 }, CustomType { n: 3 }];
    assert_eq!(sum_list(&a), sum_list(&b));
    assert_eq!(sum_list(&a), 6);
}

#[test]
fn shapes() {
    match get_shape() {
        Shape::Square(v) => {
            assert_eq!(v.x(), 0);
            assert_eq!(v.y(), 5);
        }
        _ => panic!("expected a square"),
    }
    let shapes = get_shapes();
    assert_eq!(shapes.len(), 8);
    for i in [0usize, 3, 6] {
        match shapes[i] {
            Shape::Square(v) => assert_eq!((v.x(), v.y()), (5, 3)),
            _ => panic!("expected a square"),
        }
    }
    for i in [2usize, 7] {
        match shapes[i] {
            Shape::Cube(v) => assert_eq!((v.x(), v.y(), v.z()), (4, 0, 1)),
            _ => panic!("expected a cube"),
        }
    }
    for i in [1usize, 4, 5] {
        assert!(matches!(shapes[i], Shape::Empty));
    }
}

#[test]
fn counting_buffers_wrap_like_as() {
    assert_eq!(u8(3).as_slice(), &[0, 1, 2]);
    assert_eq!(u8(258).as_slice()[256..], [0, 1]);
    assert_eq!(i8(130).as_slice()[127..], [127, -128, -127]);
    assert_eq!(u16(2).as_slice(), &[0, 1]);
    assert_eq!(i16(0).len(), 0);
    assert_eq!(u64(4).as_slice(), &[0, 1, 2, 3]);
}

#[test]
fn quoting_escapes() {
    assert_eq!(rust_quoted("/tmp/a.rs"), "\"/tmp/a.rs\"");
    assert_eq!(rust_quoted("a\"b\\c\nd\te\r"), "\"a\\\"b\\\\c\\nd\\te\\r\"");
    assert_eq!(rust_quoted(""), "\"\"");
    assert_eq!(rust_quoted("é"), "\"é\"");
}

#[test]
fn test_programs() {
    assert_eq!(
        rust_test_program("mod api {}\n", "fn f() {}\n", "f();\n"),
        "#![feature(vec_into_raw_parts)]\n#![feature(once_cell)]\nmod api {}\nfn f() {}\nfn main() {\nuse api::*;\nf();\n}\n"
    );
    assert_eq!(dart_test_library("A", "B"), "AB");
    assert_eq!(
        dart_test_program("G\n", "assert(true);\n"),
        format!("G\n{}void main() {{\nfinal api = Api.load();\nassert(true);\n}}\n", DART_LIST_EQUALS)
    );
    let runner = dart_runner_program("/l/lib.so", "/r.rs", "/l", "/d.dart");
    assert!(runner.starts_with("fn main() {\nuse std::process::Command;\n"));
    assert!(runner.contains(".arg(\"-o\")\n.arg(\"/l/lib.so\")\n.arg(\"/r.rs\")\n"));
    assert!(runner.contains(".env(\"LD_LIBRARY_PATH\", \"/l\")\n.arg(\"--enable-asserts\")\n.arg(\"/d.dart\")\n"));
}
