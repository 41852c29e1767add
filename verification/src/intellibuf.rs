//! A fixed-size buffer that is filled from the front: the bytes up to a
//! watermark are meaningful, the rest is free space.

use vstd::prelude::*;

verus! {

/// A buffer of `N` bytes of which the first `current_slice_end` are
/// meaningful.
pub struct Intellibuf<const N: usize> {
    buffer: [u8; N],
    current_slice_end: usize,
}

impl<const N: usize> Intellibuf<N> {
    /// The meaningful prefix, as contracts see it.
    pub closed spec fn filled(&self) -> Seq<u8> {
        self.buffer@.take(self.current_slice_end as int)
    }

    /// Whether the watermark lies within the buffer.
    pub closed spec fn wf(&self) -> bool {
        self.current_slice_end <= N
    }

    /// A buffer whose meaningful prefix is the first `filled` bytes of
    /// `buffer`.
    pub fn new(buffer: [u8; N], filled: usize) -> (b: Self)
        requires
            filled <= N,
        ensures
            b.wf(),
            b.filled() == buffer@.take(filled as int),
    {
        Intellibuf { buffer, current_slice_end: filled }
    }

    /// The meaningful prefix of the buffer.
    pub fn current_slice<'a>(&'a self) -> (s: &'a [u8])
        requires
            self.wf(),
        ensures
            s@ == self.filled(),
    {
        let whole: &[u8] = self.buffer.as_slice();
        let s = vstd::slice::slice_subrange(whole, 0, self.current_slice_end);
        proof {
            assert(s@ =~= self.filled());
        }
        s
    }
}

} // verus!
