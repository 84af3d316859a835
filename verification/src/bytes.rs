//! A fixed-length inline byte buffer.

use vstd::prelude::*;

verus! {

/// Exactly `N` bytes, held inline.
#[derive(Debug, Clone, Copy, Hash)]
pub struct GCBytes<const N: usize> {
    bytes: [u8; N],
}

impl<const N: usize> View for GCBytes<N> {
    type V = Seq<u8>;

    closed spec fn view(&self) -> Seq<u8> {
        self.bytes@
    }
}

impl<const N: usize> GCBytes<N> {
    /// Copies the `N` bytes of `bytes` into a new buffer, in order.
    pub fn new(bytes: Vec<u8>) -> (out: GCBytes<N>)
        requires
            bytes@.len() == N,
        ensures
            out@ == bytes@,
    {
        let mut buffer = [0u8; N];
        let mut i: usize = 0;
        while i < N
            invariant
                i <= N,
                bytes@.len() == N,
                forall|j: int| 0 <= j < i ==> buffer@[j] == bytes@[j],
            decreases N - i,
        {
            buffer[i] = bytes[i];
            i += 1;
        }
        assert(buffer@ =~= bytes@);
        GCBytes { bytes: buffer }
    }

    /// The stored bytes.
    pub fn as_slice(&self) -> (out: &[u8])
        ensures
            out@ == self@,
    {
        self.bytes.as_slice()
    }

    /// A buffer of `N` bytes has a view of length `N`.
    pub proof fn lemma_len(self)
        ensures
            self@.len() == N,
    {
    }

    /// Two buffers with the same bytes are the same buffer.
    pub proof fn lemma_view_injective(self, other: GCBytes<N>)
        requires
            self@ == other@,
        ensures
            self == other,
    {
        assert(self.bytes =~= other.bytes);
    }
}

} // verus!
