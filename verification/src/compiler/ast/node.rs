use vstd::prelude::*;

verus! {

/// A piece of syntax with the line and the column where it stands.
pub struct Node<T> {
    pub lineinfo: (u32, u32),
    pub inner: T,
}

impl<T> Node<T> {
    pub fn new(inner: T) -> (r: Node<T>)
        ensures
            r.inner == inner,
            r.lineinfo == (0u32, 0u32),
    {
        Node { inner, lineinfo: (0, 0) }
    }

    pub fn inner(&self) -> (r: &T)
        ensures
            *r == self.inner,
    {
        &self.inner
    }

    pub fn mut_inner(&mut self) -> (r: &mut T)
        ensures
            *r == old(self).inner,
            final(self).inner == *final(r),
            final(self).lineinfo == old(self).lineinfo,
    {
        &mut self.inner
    }
}

} // verus!
