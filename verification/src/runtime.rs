//! The runtime that generated Rust bindings rely on, as far as it is logic:
//! buffers handed to the other side, iterators stepped from the other side,
//! and what a poll of a boxed future or stream reports back.

use vstd::prelude::*;

verus! {

/// Hands `t` back unchanged; a call of it checks at compile time that the
/// value may move to another thread and borrows nothing.
pub fn assert_send_static<T: Send + 'static>(t: T) -> (r: T)
    ensures
        r == t,
{
    t
}

/// A buffer of numbers that the other side reads in place. Besides its
/// elements it records the size of one element in bytes, so that its size in
/// bytes can be read without knowing the element type.
pub struct FfiBuffer<T> {
    data: Vec<T>,
    elem_size: usize,
}

impl<T> View for FfiBuffer<T> {
    type V = Seq<T>;

    closed spec fn view(&self) -> Seq<T> {
        self.data@
    }
}

impl<T> FfiBuffer<T> {
    #[verifier::type_invariant]
    spec fn elem_size_matches(self) -> bool {
        self.elem_size as nat == vstd::layout::size_of::<T>()
    }

    /// A buffer that holds `data`.
    pub fn new(data: Vec<T>) -> (r: Self)
        ensures
            r@ == data@,
    {
        FfiBuffer { data, elem_size: core::mem::size_of::<T>() }
    }

    /// The number of elements.
    pub fn len(&self) -> (r: usize)
        ensures
            r == self@.len(),
    {
        self.data.len()
    }

    /// The size of the elements in bytes, or `None` where it does not fit in
    /// a `usize`.
    pub fn byte_size(&self) -> (r: Option<usize>)
        ensures
            r matches Some(b) ==> b == self@.len() * vstd::layout::size_of::<T>(),
            r is None <==> self@.len() * vstd::layout::size_of::<T>() > usize::MAX,
    {
        proof {
            use_type_invariant(self);
        }
        self.data.len().checked_mul(self.elem_size)
    }

    /// The elements.
    pub fn as_slice(&self) -> (r: &[T])
        ensures
            r@ == self@,
    {
        self.data.as_slice()
    }
}

/// What one step of an iterator gives: its next item, if any, and the items
/// that remain after it.
pub open spec fn iter_step<T>(remaining: Seq<T>) -> (Option<T>, Seq<T>) {
    if remaining.len() == 0 {
        (None, remaining)
    } else {
        (Some(remaining[0]), remaining.drop_first())
    }
}

/// The items given by `k` steps of an iterator over `s`, and what remains.
pub open spec fn iter_run<T>(s: Seq<T>, k: nat) -> (Seq<T>, Seq<T>)
    decreases k,
{
    if k == 0 {
        (Seq::empty(), s)
    } else {
        let (given, rest) = iter_run(s, (k - 1) as nat);
        match iter_step(rest).0 {
            Some(x) => (given.push(x), iter_step(rest).1),
            None => (given, rest),
        }
    }
}

/// An iterator that the other side steps through its exported `next`
/// function.
pub struct FfiIter<T: Send + 'static> {
    rev: Vec<T>,
}

impl<T: Send + 'static> View for FfiIter<T> {
    type V = Seq<T>;

    /// The items that are still to come, in order.
    closed spec fn view(&self) -> Seq<T> {
        self.rev@.reverse()
    }
}

impl<T: Send + 'static> FfiIter<T> {
    /// An iterator over `items`, in order.
    pub fn new(items: Vec<T>) -> (r: Self)
        ensures
            r@ == items@,
    {
        let mut items = items;
        let ghost orig = items@;
        let mut rev: Vec<T> = Vec::new();
        while items.len() > 0
            invariant
                items@ + rev@.reverse() == orig,
            decreases items@.len(),
        {
            let ghost before = items@;
            let x = items.pop().unwrap();
            let ghost old_rev = rev@;
            rev.push(x);
            proof {
                assert(rev@.reverse() =~= seq![x] + old_rev.reverse());
                assert(before =~= items@.push(x));
                assert(items@ + rev@.reverse() =~= before + old_rev.reverse());
            }
        }
        assert(items@ =~= Seq::<T>::empty());
        assert(items@ + rev@.reverse() =~= rev@.reverse());
        FfiIter { rev }
    }

    /// The next item, or `None` once all have been given.
    pub fn next(&mut self) -> (r: Option<T>)
        ensures
            (r, final(self)@) == iter_step(old(self)@),
    {
        let ghost before = self.rev@;
        let r = self.rev.pop();
        proof {
            if before.len() > 0 {
                assert(before.reverse()[0] == before.last());
                assert(self.rev@.reverse() =~= before.reverse().drop_first());
            } else {
                assert(before.reverse() =~= before);
            }
        }
        r
    }
}

/// Stepping an iterator made from `s` gives the items of `s` in order, one
/// per step, and then nothing: after `k` steps it has given the first `k`
/// items and the rest remain.
pub proof fn lemma_iter_gives_items_in_order<T>(s: Seq<T>, k: nat)
    requires
        k <= s.len(),
    ensures
        iter_run(s, k) == (s.take(k as int), s.skip(k as int)),
    decreases k,
{
    if k > 0 {
        lemma_iter_gives_items_in_order(s, (k - 1) as nat);
        let rest = s.skip(k - 1);
        assert(rest[0] == s[k - 1]);
        assert(s.take(k - 1).push(s[k - 1]) =~= s.take(k as int));
        assert(rest.drop_first() =~= s.skip(k as int));
    } else {
        assert(s.take(0) =~= Seq::<T>::empty());
        assert(s.skip(0) =~= s);
    }
}

/// Once every item has been given, a step gives nothing and changes nothing.
pub proof fn lemma_iter_exhausted<T>(s: Seq<T>)
    ensures
        iter_step(s.skip(s.len() as int)) == (None::<T>, s.skip(s.len() as int)),
{
    assert(s.skip(s.len() as int).len() == 0);
}

/// The state of a future or stream after one poll.
pub enum PollState<T> {
    Ready(T),
    Pending,
}

/// What the poll function of a boxed future hands back: the output once the
/// future is ready, nothing while it is pending.
pub fn future_poll_result<T>(p: PollState<T>) -> (r: Option<T>)
    ensures
        match p {
            PollState::Ready(x) => r == Some(x),
            PollState::Pending => r is None,
        },
{
    match p {
        PollState::Ready(x) => Some(x),
        PollState::Pending => None,
    }
}

/// What the poll function of a boxed stream hands back, and which port it
/// wakes: an item wakes `port` so that the other side polls again, the end
/// of the stream wakes `done`, and a pending stream wakes nothing.
pub fn stream_poll_result<T>(p: PollState<Option<T>>, port: i64, done: i64) -> (r: (Option<T>, Option<i64>))
    ensures
        match p {
            PollState::Ready(Some(x)) => r == (Some(x), Some(port)),
            PollState::Ready(None) => r == (None::<T>, Some(done)),
            PollState::Pending => r == (None::<T>, None::<i64>),
        },
{
    match p {
        PollState::Ready(Some(x)) => (Some(x), Some(port)),
        PollState::Ready(None) => (None, Some(done)),
        PollState::Pending => (None, None),
    }
}

} // verus!
