//! A byte buffer with a cursor that is drained in fixed-size slices.

use vstd::prelude::*;

verus! {

/// What one call of [`Sliceable::get_slice`] produced: the number of payload
/// bytes written and whether the buffer is exhausted with them.
#[derive(Debug, Clone, Copy, PartialEq, Eq, Structural)]
pub struct SliceMeta {
    pub len: u16,
    pub last: bool,
}

/// The mathematical content of a [`Sliceable`]: the bytes and how many of them
/// have been handed out.
pub struct SliceableView {
    pub cursor: nat,
    pub data: Seq<u8>,
}

impl SliceableView {
    /// The cursor never runs past the end of the data.
    pub open spec fn wf(self) -> bool {
        self.cursor <= self.data.len()
    }

    /// Payload length of the next slice when slices hold up to `size` bytes.
    pub open spec fn next_len(self, size: nat) -> nat {
        if self.data.len() - self.cursor < size {
            (self.data.len() - self.cursor) as nat
        } else {
            size
        }
    }

    /// Whether the next slice is the one that exhausts the buffer.
    pub open spec fn next_last(self, size: nat) -> bool {
        self.cursor + self.next_len(size) == self.data.len()
    }

    /// The bytes the next slice carries.
    pub open spec fn next_payload(self, size: nat) -> Seq<u8> {
        self.data.subrange(self.cursor as int, (self.cursor + self.next_len(size)) as int)
    }

    /// The buffer after the next slice has been taken.
    pub open spec fn advance(self, size: nat) -> SliceableView {
        SliceableView { cursor: self.cursor + self.next_len(size), data: self.data }
    }

    /// Concatenation of the payloads of successive slices, up to and including
    /// the first one that is marked last.
    pub open spec fn drain(self, size: nat) -> Seq<u8>
        decreases self.data.len() - self.cursor,
    {
        if self.wf() && size > 0 && !self.next_last(size) {
            self.next_payload(size) + self.advance(size).drain(size)
        } else {
            self.next_payload(size)
        }
    }
}

/// Data that has to be sent to the peer, one slice at a time.
#[derive(Debug)]
pub struct Sliceable {
    it: usize,
    data: Vec<u8>,
}

impl View for Sliceable {
    type V = SliceableView;

    closed spec fn view(&self) -> SliceableView {
        SliceableView { cursor: self.it as nat, data: self.data@ }
    }
}

impl Sliceable {
    #[verifier::type_invariant]
    spec fn cursor_in_bounds(&self) -> bool {
        self.it <= self.data.len()
    }

    pub fn new(data: Vec<u8>) -> (s: Sliceable)
        ensures
            s@ == (SliceableView { cursor: 0, data: data@ }),
    {
        Sliceable { it: 0, data }
    }

    /// Copies the next slice into the front of `data_slice`, leaves the rest of
    /// `data_slice` as it was, and advances the cursor past the slice.
    pub fn get_slice<const N: usize>(&mut self, data_slice: &mut [u8; N]) -> (meta: SliceMeta)
        requires
            N <= u16::MAX,
        ensures
            old(self)@.wf(),
            meta.len == old(self)@.next_len(N as nat),
            meta.last == old(self)@.next_last(N as nat),
            final(self)@ == old(self)@.advance(N as nat),
            final(data_slice)@ == old(self)@.next_payload(N as nat) + old(data_slice)@.subrange(
                meta.len as int,
                N as int,
            ),
    {
        proof {
            use_type_invariant(&*self);
        }
        let remaining: usize = self.data.len() - self.it;
        let len: usize = if remaining < N { remaining } else { N };
        let last: bool = self.it + len == self.data.len();
        let start: usize = self.it;
        let mut i: usize = 0;
        while i < len
            invariant
                0 <= i <= len <= N,
                start + len <= self.data.len(),
                self.it == start,
                self.data@ == old(self).data@,
                data_slice@ == self.data@.subrange(start as int, start + i) + old(
                    data_slice,
                )@.subrange(i as int, N as int),
            decreases len - i,
        {
            data_slice[i] = self.data[start + i];
            i += 1;
        }
        self.it = start + len;
        SliceMeta { len: len as u16, last }
    }
}

/// Slicing loses nothing: with a positive slice size, the payloads of the
/// slices taken from a fresh buffer, up to and including the first one marked
/// last, concatenate to exactly the buffer's data.
pub proof fn lemma_slices_reproduce_data(data: Seq<u8>, size: nat)
    requires
        size > 0,
    ensures
        (SliceableView { cursor: 0, data }).drain(size) == data,
{
    lemma_drain_is_rest(SliceableView { cursor: 0, data }, size);
}

/// From any position, draining yields exactly the bytes not yet handed out.
pub proof fn lemma_drain_is_rest(v: SliceableView, size: nat)
    requires
        v.wf(),
        size > 0,
    ensures
        v.drain(size) == v.data.subrange(v.cursor as int, v.data.len() as int),
    decreases v.data.len() - v.cursor,
{
    if !v.next_last(size) {
        lemma_drain_is_rest(v.advance(size), size);
    }
}

/// Once a slice was marked last the buffer is exhausted, and every further
/// slice is empty, marked last, and leaves the buffer as it is.
pub proof fn lemma_exhausted_stays_exhausted(v: SliceableView, size: nat)
    requires
        v.wf(),
        v.next_last(size),
    ensures
        v.advance(size).next_len(size) == 0,
        v.advance(size).next_last(size),
        v.advance(size).next_payload(size) == Seq::<u8>::empty(),
        v.advance(size).advance(size) == v.advance(size),
{
}

} // verus!
