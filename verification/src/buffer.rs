//! Regions that take the coder's output.
//!
//! A buffer tells how many bytes it can take, and later commits the bytes
//! that were written for it. Three kinds of region are buffers: a slice of
//! bytes, a slice of bytes that are not yet initialized, and a vector, which
//! takes bytes behind those it holds. No buffer ever gives out a byte that was
//! not committed to it.

use core::mem::MaybeUninit;
use vstd::prelude::*;
use vstd::std_specs::maybe_uninit::MaybeUninitAdditionalSpecFns;

verus! {

/// The number of bytes by which a vector's capacity grows when it is used
/// up, and that a writer's buffer can take unless told otherwise.
pub const DEFAULT_BUFFER_SIZE: usize = 8192;

/// A region that takes output.
pub trait Buffer: View {
    /// The most bytes that one write to this buffer can commit.
    spec fn limit(&self) -> nat;

    /// Whether this buffer can report `span` as the number of bytes that may
    /// be written for it.
    spec fn is_span(&self, span: usize) -> bool;

    /// Whether this buffer is `before` with `data` committed to it.
    spec fn holds_write(&self, before: &Self, data: Seq<u8>) -> bool;

    /// The number of bytes that may be written for this buffer.
    fn write_info(&self) -> (span: usize)
        ensures
            self.is_span(span),
            span <= self.limit(),
    ;

    /// Commits `data`, the bytes that were written for this buffer, and
    /// returns their number.
    fn write_data(&mut self, data: &[u8]) -> (amt: usize)
        requires
            data@.len() <= old(self).limit(),
        ensures
            amt == data@.len(),
            final(self).holds_write(old(self), data@),
    ;
}

/// A slice of bytes takes a write at its start: the span is the whole slice,
/// and the bytes behind the write stay as they were.
impl Buffer for [u8] {
    open spec fn limit(&self) -> nat {
        self@.len()
    }

    open spec fn is_span(&self, span: usize) -> bool {
        span == self@.len()
    }

    open spec fn holds_write(&self, before: &Self, data: Seq<u8>) -> bool {
        self@ == data + before@.skip(data.len() as int)
    }

    fn write_info(&self) -> (span: usize) {
        self.len()
    }

    fn write_data(&mut self, data: &[u8]) -> (amt: usize) {
        let amt: usize = data.len();
        let mut i: usize = 0;
        while i < amt
            invariant
                amt == data@.len(),
                i <= amt <= self@.len(),
                self@.len() == old(self)@.len(),
                forall|k: int| 0 <= k < i ==> self@[k] == data@[k],
                forall|k: int| i <= k < self@.len() ==> self@[k] == old(self)@[k],
            decreases amt - i,
        {
            self[i] = data[i];
            i += 1;
        }
        assert(self@ =~= data@ + old(self)@.skip(data@.len() as int));
        amt
    }
}

/// A slice of bytes that are not yet initialized takes a write at its start:
/// the span is the whole slice, the written cells are initialized from then
/// on, and the cells behind the write stay as they were.
impl Buffer for [MaybeUninit<u8>] {
    open spec fn limit(&self) -> nat {
        self@.len()
    }

    open spec fn is_span(&self, span: usize) -> bool {
        span == self@.len()
    }

    open spec fn holds_write(&self, before: &Self, data: Seq<u8>) -> bool {
        &&& self@.len() == before@.len()
        &&& forall|k: int| 0 <= k < data.len() ==> (#[trigger] self@[k]).as_option() == Some(data[k])
        &&& forall|k: int| data.len() <= k < self@.len() ==> #[trigger] self@[k] == before@[k]
    }

    fn write_info(&self) -> (span: usize) {
        self.len()
    }

    fn write_data(&mut self, data: &[u8]) -> (amt: usize) {
        let amt: usize = data.len();
        let mut i: usize = 0;
        while i < amt
            invariant
                amt == data@.len(),
                i <= amt <= self@.len(),
                self@.len() == old(self)@.len(),
                forall|k: int| 0 <= k < i ==> (#[trigger] self@[k]).as_option() == Some(data@[k]),
                forall|k: int| i <= k < self@.len() ==> #[trigger] self@[k] == old(self)@[k],
            decreases amt - i,
        {
            self[i] = MaybeUninit::new(data[i]);
            i += 1;
        }
        amt
    }
}

/// A vector takes a write behind the bytes it holds: the span is the unused
/// part of its capacity, and the bytes it held stay as they were.
impl Buffer for Vec<u8> {
    open spec fn limit(&self) -> nat {
        (usize::MAX - self@.len()) as nat
    }

    open spec fn is_span(&self, span: usize) -> bool {
        span <= usize::MAX - self@.len()
    }

    open spec fn holds_write(&self, before: &Self, data: Seq<u8>) -> bool {
        self@ == before@ + data
    }

    fn write_info(&self) -> (span: usize) {
        unused(self.len(), capacity(self))
    }

    fn write_data(&mut self, data: &[u8]) -> (amt: usize) {
        self.extend_from_slice(data);
        assert(self@ =~= old(self)@ + data@);
        data.len()
    }
}

/// The unused part of a vector's capacity: the number of bytes that a
/// vector of `len` bytes and of capacity `capacity` takes without growing.
pub fn unused(len: usize, capacity: usize) -> (span: usize)
    requires
        len <= capacity,
    ensures
        span == capacity - len,
{
    capacity - len
}

/// Calls `Vec::capacity`. The capacity is what the allocator gave, so this
/// claims only what holds of every vector: it is no less than the length.
#[verifier::external_body]
pub(crate) fn capacity(bytes: &Vec<u8>) -> (capacity: usize)
    ensures
        capacity >= bytes@.len(),
{
    bytes.capacity()
}

/// A write to a vector leaves every byte that the vector held where it was,
/// and the bytes behind them are the write.
pub proof fn lemma_vec_write_keeps_prefix(after: &Vec<u8>, before: &Vec<u8>, data: Seq<u8>)
    requires
        after.holds_write(before, data),
    ensures
        after@.len() == before@.len() + data.len(),
        after@.take(before@.len() as int) == before@,
        after@.skip(before@.len() as int) == data,
{
    assert(after@.take(before@.len() as int) =~= before@);
    assert(after@.skip(before@.len() as int) =~= data);
}

} // verus!
