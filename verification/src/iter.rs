use vstd::prelude::*;

verus! {

/// A consuming iterator over the buffer of an array.  It owns the whole
/// allocation; the live region is the slots in `[start, end)`, which shrinks
/// from the front on forward consumption and from the back on backward
/// consumption.  Slots outside the region have been retired and are never
/// read as live again.
pub struct IntoIter<T> {
    buf: std::vec::Vec<Option<T>>,
    start: usize,
    end: usize,
}

impl<T> IntoIter<T> {
    /// The region `[start, end)` lies within the buffer and every slot in it
    /// holds a live value.
    pub closed spec fn wf(self) -> bool {
        &&& self.start <= self.end <= self.buf@.len()
        &&& forall|i: int|
            self.start <= i < self.end ==> (#[trigger] self.buf@[i]) is Some
    }

    /// The number of allocated slots.
    pub closed spec fn spec_capacity(self) -> nat {
        self.buf@.len()
    }

    /// Takes over a buffer whose first `len` slots are live: the region
    /// starts at the front and ends after the last live slot.
    pub(crate) fn from_parts(buf: std::vec::Vec<Option<T>>, len: usize) -> (it: Self)
        requires
            len <= buf@.len(),
            forall|i: int| 0 <= i < len ==> (#[trigger] buf@[i]) is Some,
        ensures
            it.wf(),
            it@ == Seq::new(len as nat, |i: int| buf@[i].unwrap()),
            it.spec_capacity() == buf@.len(),
    {
        let it = IntoIter { buf, start: 0, end: len };
        proof {
            assert(it@ =~= Seq::new(len as nat, |i: int| it.buf@[i].unwrap()));
        }
        it
    }

    /// Forward consumption: yields the front value of the region and
    /// advances past its slot, or yields nothing once the region is empty.
    pub fn next(&mut self) -> (r: Option<T>)
        requires
            old(self).wf(),
        ensures
            final(self).wf(),
            final(self).spec_capacity() == old(self).spec_capacity(),
            old(self)@.len() == 0 ==> r is None && final(self)@ == old(self)@,
            old(self)@.len() > 0 ==> r == Some(old(self)@.first()) && final(self)@ == old(
                self,
            )@.drop_first(),
    {
        if self.start == self.end {
            None
        } else {
            let v = self.buf[self.start].take();
            self.start = self.start + 1;
            proof {
                assert(self@ =~= old(self)@.drop_first());
            }
            v
        }
    }

    /// Backward consumption: retreats the end of the region by one slot and
    /// yields the value there, or yields nothing once the region is empty.
    pub fn next_back(&mut self) -> (r: Option<T>)
        requires
            old(self).wf(),
        ensures
            final(self).wf(),
            final(self).spec_capacity() == old(self).spec_capacity(),
            old(self)@.len() == 0 ==> r is None && final(self)@ == old(self)@,
            old(self)@.len() > 0 ==> r == Some(old(self)@.last()) && final(self)@ == old(
                self,
            )@.drop_last(),
    {
        if self.start == self.end {
            None
        } else {
            self.end = self.end - 1;
            let v = self.buf[self.end].take();
            proof {
                assert(self@ =~= old(self)@.drop_last());
            }
            v
        }
    }

    /// The exact number of values still to be yielded: both bounds agree.
    pub fn size_hint(&self) -> (r: (usize, Option<usize>))
        requires
            self.wf(),
        ensures
            r.0 == self@.len(),
            r.1 == Some(r.0),
    {
        let n = self.end - self.start;
        (n, Some(n))
    }

    /// Draining front to back returns exactly the remaining values, in
    /// order, and leaves nothing behind: forward consumption round-trips
    /// the whole view.
    pub fn collect_forward(self) -> (out: std::vec::Vec<T>)
        requires
            self.wf(),
        ensures
            out@ == self@,
    {
        let ghost orig = self;
        let mut it = self;
        let mut out: std::vec::Vec<T> = std::vec::Vec::new();
        loop
            invariant
                it.wf(),
                out@ + it@ == orig@,
            ensures
                out@ + it@ == orig@,
                it@.len() == 0,
            decreases it@.len(),
        {
            match it.next() {
                Some(v) => {
                    out.push(v);
                    proof {
                        assert(out@ + it@ =~= orig@);
                    }
                },
                None => { break },
            }
        }
        proof {
            assert(out@ =~= orig@);
        }
        out
    }

    /// Draining back to front returns exactly the remaining values in
    /// reverse order.
    pub fn collect_backward(self) -> (out: std::vec::Vec<T>)
        requires
            self.wf(),
        ensures
            out@ == self@.reverse(),
    {
        let ghost orig = self;
        let mut it = self;
        let mut out: std::vec::Vec<T> = std::vec::Vec::new();
        loop
            invariant
                it.wf(),
                out@ + it@.reverse() == orig@.reverse(),
            ensures
                out@ + it@.reverse() == orig@.reverse(),
                it@.len() == 0,
            decreases it@.len(),
        {
            match it.next_back() {
                Some(v) => {
                    out.push(v);
                    proof {
                        assert(out@ + it@.reverse() =~= orig@.reverse());
                    }
                },
                None => { break },
            }
        }
        proof {
            assert(out@ =~= orig@.reverse());
        }
        out
    }
}

impl<T> View for IntoIter<T> {
    type V = Seq<T>;

    /// The values not yet yielded, front to back.
    closed spec fn view(&self) -> Seq<T> {
        Seq::new((self.end - self.start) as nat, |i: int| self.buf@[self.start + i].unwrap())
    }
}

} // verus!
