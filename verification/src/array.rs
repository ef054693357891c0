use vstd::prelude::*;

verus! {

/// A growable array: a buffer of `capacity` slots, of which the first
/// `length` hold a live value.  A vacant slot stands for raw, uninitialized
/// storage; a live slot is written once ("move-in") and read out at most
/// once ("move-out"), so no value is ever dropped twice or leaked.
pub struct Vec<T> {
    buf: std::vec::Vec<Option<T>>,
    len: usize,
}

impl<T> Vec<T> {
    /// The first `len` slots hold a live value; `len` never exceeds the
    /// number of allocated slots.
    pub closed spec fn wf(self) -> bool {
        &&& self.len <= self.buf@.len()
        &&& forall|i: int| 0 <= i < self.len ==> (#[trigger] self.buf@[i]) is Some
    }

    /// The number of allocated slots.
    pub closed spec fn spec_capacity(self) -> nat {
        self.buf@.len()
    }

    /// Allocates room for one element when no slots exist yet, and doubles
    /// the slot count otherwise.  The live values and their order are
    /// untouched.  Doubling past `usize::MAX` slots would be a size
    /// overflow, which the caller must rule out.
    fn grow(&mut self)
        requires
            old(self).wf(),
            old(self).spec_capacity() * 2 <= usize::MAX,
        ensures
            final(self).wf(),
            final(self)@ == old(self)@,
            final(self).spec_capacity() == if old(self).spec_capacity() == 0 {
                1nat
            } else {
                old(self).spec_capacity() * 2
            },
    {
        let new_cap: usize = if self.buf.len() == 0 {
            1
        } else {
            2 * self.buf.len()
        };
        while self.buf.len() < new_cap
            invariant
                self.len == old(self).len,
                old(self).buf@.len() <= self.buf@.len() <= new_cap,
                self.buf@.subrange(0, old(self).buf@.len() as int) == old(self).buf@,
            decreases new_cap - self.buf@.len(),
        {
            self.buf.push(None);
        }
        proof {
            assert forall|i: int| 0 <= i < self.len implies (#[trigger] self.buf@[i]) is Some by {
                assert(self.buf@.subrange(0, old(self).buf@.len() as int)[i] == self.buf@[i]);
            }
            assert(self@ =~= old(self)@);
        }
    }

    /// Appends `value` at the end.  The length grows by one; the capacity is
    /// unchanged while a vacant slot remains, and otherwise grows from zero
    /// to one slot or doubles.
    pub fn push(&mut self, value: T)
        requires
            old(self).wf(),
            old(self)@.len() == old(self).spec_capacity() ==> old(self).spec_capacity() * 2
                <= usize::MAX,
        ensures
            final(self).wf(),
            final(self)@ == old(self)@.push(value),
            final(self)@.len() == old(self)@.len() + 1,
            final(self).spec_capacity() == crate::growth::grown_capacity(
                old(self)@.len(),
                old(self).spec_capacity(),
            ),
    {
        if self.len == self.buf.len() {
            self.grow();
            proof {
                assert(self@.len() == old(self)@.len());
            }
        }
        proof {
            assert(self.len < self.buf@.len());
        }
        self.buf[self.len] = Some(value);
        self.len = self.len + 1;
        proof {
            assert(self@ =~= old(self)@.push(value));
        }
    }

    /// Creates an empty array: no allocation, zero slots.
    pub fn new() -> (a: Self)
        ensures
            a.wf(),
            a@ == Seq::<T>::empty(),
            a.spec_capacity() == 0,
    {
        Vec { buf: std::vec::Vec::new(), len: 0 }
    }

    /// The number of live values.
    pub fn len(&self) -> (n: usize)
        ensures
            n == self@.len(),
    {
        self.len
    }

    /// The number of allocated slots.
    pub fn capacity(&self) -> (c: usize)
        ensures
            c == self.spec_capacity(),
    {
        self.buf.len()
    }

    /// Consumes the array into an iterator over its values.  The buffer
    /// moves to the iterator whole, so the array's own teardown can never
    /// run on it again: exactly one owner frees it.
    pub fn into_iter(self) -> (it: crate::iter::IntoIter<T>)
        requires
            self.wf(),
        ensures
            it.wf(),
            it@ == self@,
            it.spec_capacity() == self.spec_capacity(),
    {
        let Vec { buf, len } = self;
        crate::iter::IntoIter::from_parts(buf, len)
    }
}

/// The length never exceeds the capacity, whatever pushes led to the array.
pub proof fn lemma_length_within_capacity<T>(a: Vec<T>)
    requires
        a.wf(),
    ensures
        a@.len() <= a.spec_capacity(),
{
}

impl<T> View for Vec<T> {
    type V = Seq<T>;

    /// The live values, in index order.
    closed spec fn view(&self) -> Seq<T> {
        Seq::new(self.len as nat, |i: int| self.buf@[i].unwrap())
    }
}

} // verus!
