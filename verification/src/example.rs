//! The example library that the bindings are exercised with: buffers, lists
//! of objects, strings and shapes.

use vstd::prelude::*;
use crate::runtime::FfiBuffer;

verus! {

/// The message that `hello_world` logs.
pub fn hello_world() -> (r: String)
    ensures
        r@ == "hello world"@,
{
    String::from_str("hello world")
}

/// An object that holds a number.
#[derive(Debug)]
pub struct CustomType {
    pub n: i32,
}

impl CustomType {
    /// The number it holds.
    pub fn get_n(&self) -> (r: i32)
        ensures
            r == self.n,
    {
        self.n
    }
}

/// An object that holds bytes.
#[derive(Debug)]
pub struct DataTest {
    pub bytes: Vec<u8>,
}

/// `n` bytes, each 42.
pub open spec fn filled_42(n: nat) -> Seq<u8> {
    Seq::new(n, |_i: int| 42u8)
}

/// An object holding `n` bytes, each 42.
pub fn create(n: usize) -> (r: DataTest)
    ensures
        r.bytes@ == filled_42(n as nat),
{
    let mut bytes: Vec<u8> = Vec::new();
    let mut i: usize = 0;
    while i < n
        invariant
            i <= n,
            bytes@ == filled_42(i as nat),
        decreases n - i,
    {
        bytes.push(42);
        i = i + 1;
    }
    DataTest { bytes }
}

fn copy_bytes(v: &Vec<u8>) -> (r: Vec<u8>)
    ensures
        r@ == v@,
{
    let mut r: Vec<u8> = Vec::new();
    let mut i: usize = 0;
    while i < v.len()
        invariant
            i <= v@.len(),
            r@ == v@.take(i as int),
        decreases v@.len() - i,
    {
        r.push(v[i]);
        i = i + 1;
        assert(r@ =~= v@.take(i as int));
    }
    assert(v@.take(v@.len() as int) =~= v@);
    r
}

impl DataTest {
    /// A copy of the bytes.
    pub fn get_copy(&self) -> (r: Vec<u8>)
        ensures
            r@ == self.bytes@,
    {
        copy_bytes(&self.bytes)
    }

    /// A copy of the bytes in a buffer that the other side reads in place.
    pub fn get_shmem(&self) -> (r: FfiBuffer<u8>)
        ensures
            r@ == self.bytes@,
    {
        FfiBuffer::new(copy_bytes(&self.bytes))
    }
}

/// Five objects holding 5, 4, 3, 2 and 1.
pub fn create_list() -> (r: Vec<CustomType>)
    ensures
        r@.len() == 5,
        forall|i: int| 0 <= i < 5 ==> #[trigger] r@[i].n == 5 - i,
{
    let mut v: Vec<CustomType> = Vec::new();
    v.push(CustomType { n: 5 });
    v.push(CustomType { n: 4 });
    v.push(CustomType { n: 3 });
    v.push(CustomType { n: 2 });
    v.push(CustomType { n: 1 });
    v
}

/// The sum of the numbers held by `l`.
pub open spec fn sum_n(l: Seq<CustomType>) -> int
    decreases l.len(),
{
    if l.len() == 0 {
        0
    } else {
        sum_n(l.drop_last()) + l.last().n
    }
}

/// Whether adding up the numbers of `l` from the first on never leaves the
/// range of `i32`.
pub open spec fn sum_fits_i32(l: Seq<CustomType>) -> bool {
    forall|k: int| 0 <= k <= l.len() ==> i32::MIN <= #[trigger] sum_n(l.take(k)) <= i32::MAX
}

proof fn lemma_sum_n_remove(s: Seq<CustomType>, j: int)
    requires
        0 <= j < s.len(),
    ensures
        sum_n(s) == sum_n(s.remove(j)) + s[j].n,
    decreases s.len(),
{
    if j == s.len() - 1 {
        assert(s.remove(j) =~= s.drop_last());
    } else {
        lemma_sum_n_remove(s.drop_last(), j);
        assert(s.remove(j).drop_last() =~= s.drop_last().remove(j));
        assert(s.remove(j).last() == s.last());
    }
}

/// The sum does not depend on the order of the list: two lists that hold
/// the same objects, each as often, have the same sum. So `sum_list` gives
/// the same result for any reordering of a list (on which it does not
/// overflow).
pub proof fn lemma_sum_n_order_independent(l: Seq<CustomType>, p: Seq<CustomType>)
    requires
        l.to_multiset() == p.to_multiset(),
    ensures
        sum_n(l) == sum_n(p),
    decreases l.len(),
{
    broadcast use vstd::seq_lib::group_to_multiset_ensures;
    broadcast use vstd::multiset::group_multiset_axioms;

    if l.len() == 0 {
        assert(p.to_multiset().len() == 0);
        assert(p =~= Seq::<CustomType>::empty());
    } else {
        let x = l.last();
        let rest = l.drop_last();
        assert(l =~= rest.push(x));
        assert(l.to_multiset() =~= rest.to_multiset().insert(x));
        assert(l.contains(x)) by {
            assert(l[l.len() - 1] == x);
        }
        assert(p.to_multiset().count(x) > 0);
        assert(p.contains(x));
        let j = choose|j: int| 0 <= j < p.len() && p[j] == x;
        assert(p.remove(j).to_multiset() =~= p.to_multiset().remove(x));
        assert(rest.to_multiset() =~= rest.to_multiset().insert(x).remove(x));
        lemma_sum_n_order_independent(rest, p.remove(j));
        lemma_sum_n_remove(p, j);
    }
}

/// The sum of the numbers held by `l`, as an `i32` reinterpreted as a `u32`.
pub fn sum_list(l: &[CustomType]) -> (r: u32)
    requires
        sum_fits_i32(l@),
    ensures
        r == (sum_n(l@) as i32) as u32,
{
    let mut acc: i32 = 0;
    let mut i: usize = 0;
    assert(l@.take(0) =~= Seq::<CustomType>::empty());
    while i < l.len()
        invariant
            i <= l@.len(),
            sum_fits_i32(l@),
            acc == sum_n(l@.take(i as int)),
        decreases l@.len() - i,
    {
        assert(l@.take(i + 1).drop_last() =~= l@.take(i as int));
        assert(i32::MIN <= sum_n(l@.take(i + 1)) <= i32::MAX);
        acc = acc + l[i].n;
        i = i + 1;
    }
    assert(l@.take(l@.len() as int) =~= l@);
    acc as u32
}

/// A string made on the Rust side.
pub fn s() -> (r: String)
    ensures
        r@ == "string from rust"@,
{
    String::from_str("string from rust")
}

/// Three strings made on the Rust side.
pub fn ss() -> (r: Vec<String>)
    ensures
        r@.len() == 3,
        r@[0]@ == "first"@,
        r@[1]@ == "second"@,
        r@[2]@ == "third"@,
{
    let mut v: Vec<String> = Vec::new();
    v.push(String::from_str("first"));
    v.push(String::from_str("second"));
    v.push(String::from_str("third"));
    v
}

/// A vector in the plane.
#[derive(Debug, Clone, Copy)]
pub struct Vector2 {
    x: u64,
    y: u64,
}

impl Vector2 {
    /// Its first coordinate.
    pub closed spec fn spec_x(&self) -> u64 {
        self.x
    }

    /// Its second coordinate.
    pub closed spec fn spec_y(&self) -> u64 {
        self.y
    }

    /// Its first coordinate.
    pub fn x(&self) -> (r: u64)
        ensures
            r == self.spec_x(),
    {
        self.x
    }

    /// Its second coordinate.
    pub fn y(&self) -> (r: u64)
        ensures
            r == self.spec_y(),
    {
        self.y
    }
}

/// A vector in space.
#[derive(Debug, Clone, Copy)]
pub struct Vector3 {
    x: u64,
    y: u64,
    z: u64,
}

impl Vector3 {
    /// Its first coordinate.
    pub closed spec fn spec_x(&self) -> u64 {
        self.x
    }

    /// Its second coordinate.
    pub closed spec fn spec_y(&self) -> u64 {
        self.y
    }

    /// Its third coordinate.
    pub closed spec fn spec_z(&self) -> u64 {
        self.z
    }

    /// Its first coordinate.
    pub fn x(&self) -> (r: u64)
        ensures
            r == self.spec_x(),
    {
        self.x
    }

    /// Its second coordinate.
    pub fn y(&self) -> (r: u64)
        ensures
            r == self.spec_y(),
    {
        self.y
    }

    /// Its third coordinate.
    pub fn z(&self) -> (r: u64)
        ensures
            r == self.spec_z(),
    {
        self.z
    }
}

/// A shape: a square with its side vector, a cube with its edge vector, or
/// nothing.
#[derive(Debug, Clone, Copy)]
pub enum Shape {
    Square(Vector2),
    Cube(Vector3),
    Empty,
}

/// Whether `s` is a square whose vector is `(x, y)`.
pub open spec fn is_square(s: Shape, x: u64, y: u64) -> bool {
    s matches Shape::Square(v) && v.spec_x() == x && v.spec_y() == y
}

/// Whether `s` is a cube whose vector is `(x, y, z)`.
pub open spec fn is_cube(s: Shape, x: u64, y: u64, z: u64) -> bool {
    s matches Shape::Cube(v) && v.spec_x() == x && v.spec_y() == y && v.spec_z() == z
}

/// The square with vector `(0, 5)`.
pub fn get_shape() -> (r: Shape)
    ensures
        is_square(r, 0, 5),
{
    Shape::Square(Vector2 { x: 0, y: 5 })
}

/// Eight shapes: squares `(5, 3)` at 0, 3 and 6, cubes `(4, 0, 1)` at 2 and
/// 7, and no shape at 1, 4 and 5.
pub fn get_shapes() -> (r: Vec<Shape>)
    ensures
        r@.len() == 8,
        is_square(r@[0], 5, 3),
        r@[1] is Empty,
        is_cube(r@[2], 4, 0, 1),
        is_square(r@[3], 5, 3),
        r@[4] is Empty,
        r@[5] is Empty,
        is_square(r@[6], 5, 3),
        is_cube(r@[7], 4, 0, 1),
{
    let mut v: Vec<Shape> = Vec::new();
    v.push(Shape::Square(Vector2 { x: 5, y: 3 }));
    v.push(Shape::Empty);
    v.push(Shape::Cube(Vector3 { x: 4, y: 0, z: 1 }));
    v.push(Shape::Square(Vector2 { x: 5, y: 3 }));
    v.push(Shape::Empty);
    v.push(Shape::Empty);
    v.push(Shape::Square(Vector2 { x: 5, y: 3 }));
    v.push(Shape::Cube(Vector3 { x: 4, y: 0, z: 1 }));
    v
}

/// A buffer of the numbers `0, 1, ..., n - 1`, each converted to `u8` as
/// `as` does.
pub fn u8(n: usize) -> (r: FfiBuffer<u8>)
    ensures
        r@.len() == n,
        forall|i: int| 0 <= i < n ==> #[trigger] r@[i] == i as u8,
{
    let mut v: Vec<u8> = Vec::new();
    let mut i: usize = 0;
    while i < n
        invariant
            i <= n,
            v@.len() == i,
            forall|k: int| 0 <= k < i ==> #[trigger] v@[k] == k as u8,
        decreases n - i,
    {
        v.push(i as u8);
        i = i + 1;
    }
    FfiBuffer::new(v)
}

/// A buffer of the numbers `0, 1, ..., n - 1`, each converted to `u16` as
/// `as` does.
pub fn u16(n: usize) -> (r: FfiBuffer<u16>)
    ensures
        r@.len() == n,
        forall|i: int| 0 <= i < n ==> #[trigger] r@[i] == i as u16,
{
    let mut v: Vec<u16> = Vec::new();
    let mut i: usize = 0;
    while i < n
        invariant
            i <= n,
            v@.len() == i,
            forall|k: int| 0 <= k < i ==> #[trigger] v@[k] == k as u16,
        decreases n - i,
    {
        v.push(i as u16);
        i = i + 1;
    }
    FfiBuffer::new(v)
}

/// A buffer of the numbers `0, 1, ..., n - 1`, each converted to `u32` as
/// `as` does.
pub fn u32(n: usize) -> (r: FfiBuffer<u32>)
    ensures
        r@.len() == n,
        forall|i: int| 0 <= i < n ==> #[trigger] r@[i] == i as u32,
{
    let mut v: Vec<u32> = Vec::new();
    let mut i: usize = 0;
    while i < n
        invariant
            i <= n,
            v@.len() == i,
            forall|k: int| 0 <= k < i ==> #[trigger] v@[k] == k as u32,
        decreases n - i,
    {
        v.push(i as u32);
        i = i + 1;
    }
    FfiBuffer::new(v)
}

/// A buffer of the numbers `0, 1, ..., n - 1`, each converted to `u64` as
/// `as` does.
pub fn u64(n: usize) -> (r: FfiBuffer<u64>)
    ensures
        r@.len() == n,
        forall|i: int| 0 <= i < n ==> #[trigger] r@[i] == i as u64,
{
    let mut v: Vec<u64> = Vec::new();
    let mut i: usize = 0;
    while i < n
        invariant
            i <= n,
            v@.len() == i,
            forall|k: int| 0 <= k < i ==> #[trigger] v@[k] == k as u64,
        decreases n - i,
    {
        v.push(i as u64);
        i = i + 1;
    }
    FfiBuffer::new(v)
}

/// A buffer of the numbers `0, 1, ..., n - 1`, each converted to `i8` as
/// `as` does.
pub fn i8(n: usize) -> (r: FfiBuffer<i8>)
    ensures
        r@.len() == n,
        forall|i: int| 0 <= i < n ==> #[trigger] r@[i] == i as i8,
{
    let mut v: Vec<i8> = Vec::new();
    let mut i: usize = 0;
    while i < n
        invariant
            i <= n,
            v@.len() == i,
            forall|k: int| 0 <= k < i ==> #[trigger] v@[k] == k as i8,
        decreases n - i,
    {
        v.push(i as i8);
        i = i + 1;
    }
    FfiBuffer::new(v)
}

/// A buffer of the numbers `0, 1, ..., n - 1`, each converted to `i16` as
/// `as` does.
pub fn i16(n: usize) -> (r: FfiBuffer<i16>)
    ensures
        r@.len() == n,
        forall|i: int| 0 <= i < n ==> #[trigger] r@[i] == i as i16,
{
    let mut v: Vec<i16> = Vec::new();
    let mut i: usize = 0;
    while i < n
        invariant
            i <= n,
            v@.len() == i,
            forall|k: int| 0 <= k < i ==> #[trigger] v@[k] == k as i16,
        decreases n - i,
    {
        v.push(i as i16);
        i = i + 1;
    }
    FfiBuffer::new(v)
}

/// A buffer of the numbers `0, 1, ..., n - 1`, each converted to `i32` as
/// `as` does.
pub fn i32(n: usize) -> (r: FfiBuffer<i32>)
    ensures
        r@.len() == n,
        forall|i: int| 0 <= i < n ==> #[trigger] r@[i] == i as i32,
{
    let mut v: Vec<i32> = Vec::new();
    let mut i: usize = 0;
    while i < n
        invariant
            i <= n,
            v@.len() == i,
            forall|k: int| 0 <= k < i ==> #[trigger] v@[k] == k as i32,
        decreases n - i,
    {
        v.push(i as i32);
        i = i + 1;
    }
    FfiBuffer::new(v)
}

/// A buffer of the numbers `0, 1, ..., n - 1`, each converted to `i64` as
/// `as` does.
pub fn i64(n: usize) -> (r: FfiBuffer<i64>)
    ensures
        r@.len() == n,
        forall|i: int| 0 <= i < n ==> #[trigger] r@[i] == i as i64,
{
    let mut v: Vec<i64> = Vec::new();
    let mut i: usize = 0;
    while i < n
        invariant
            i <= n,
            v@.len() == i,
            forall|k: int| 0 <= k < i ==> #[trigger] v@[k] == k as i64,
        decreases n - i,
    {
        v.push(i as i64);
        i = i + 1;
    }
    FfiBuffer::new(v)
}

} // verus!
