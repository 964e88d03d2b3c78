//! Views over the one bounded scratch region through which all bytes are
//! exchanged with the host.
//!
//! An [`EncodeScope`] is a sink for the canonical encoder that writes into a
//! borrowed region. A [`ScopedBuffer`] is a cursor over a region: it hands
//! out disjoint sub-regions front to back and never takes one back.

use vstd::prelude::*;
use crate::codec::Encode;

verus! {

/// What holds of a scope after `bytes` were written to it, in one write or
/// in several: the region keeps its size, what was written stays in front,
/// and an overflow mark stays; where `bytes` fit, they follow what was
/// written before; where they do not, the scope is marked as overflowed.
pub open spec fn written_to(before: EncodeScope<'_>, after: EncodeScope<'_>, bytes: Seq<u8>) -> bool {
    &&& after.spec_capacity() == before.spec_capacity()
    &&& before.written().len() <= after.written().len()
    &&& after.written().take(before.written().len() as int) == before.written()
    &&& before.overflowed() ==> after.overflowed()
    &&& bytes.len() <= before.unwritten().len() ==> {
        &&& after.written() == before.written() + bytes
        &&& after.unwritten() == before.unwritten().skip(bytes.len() as int)
        &&& after.overflowed() == before.overflowed()
    }
    &&& bytes.len() > before.unwritten().len() ==> after.overflowed()
}

/// Writing nothing leaves a scope as it is.
pub proof fn lemma_written_to_nothing(scope: EncodeScope<'_>)
    ensures
        written_to(scope, scope, Seq::<u8>::empty()),
{
    assert(scope.written().take(scope.written().len() as int) =~= scope.written());
    assert(scope.written() + Seq::<u8>::empty() =~= scope.written());
    assert(scope.unwritten().skip(0) =~= scope.unwritten());
}

/// Writing `first` and then `second` is writing `first + second`.
pub proof fn lemma_written_to_chain(
    before: EncodeScope<'_>,
    between: EncodeScope<'_>,
    after: EncodeScope<'_>,
    first: Seq<u8>,
    second: Seq<u8>,
)
    requires
        written_to(before, between, first),
        written_to(between, after, second),
    ensures
        written_to(before, after, first + second),
{
    let n = before.written().len() as int;
    assert(after.written().take(n) =~= after.written().take(between.written().len() as int).take(n));
    if (first + second).len() <= before.unwritten().len() {
        assert(after.written() =~= before.written() + (first + second));
        assert(after.unwritten() =~= before.unwritten().skip((first + second).len() as int));
    }
}

/// A sink for encoded bytes that fills a borrowed region from its start.
///
/// A write that does not fit writes nothing and marks the scope as
/// overflowed; the mark is never cleared.
pub struct EncodeScope<'a> {
    buffer: &'a mut [u8],
    len: usize,
    overflowed: bool,
}

impl<'a> EncodeScope<'a> {
    #[verifier::type_invariant]
    spec fn well_formed(&self) -> bool {
        self.len <= self.buffer@.len()
    }

    /// The bytes written so far.
    pub closed spec fn written(&self) -> Seq<u8> {
        self.buffer@.subrange(0, self.len as int)
    }

    /// The bytes of the region that no write has reached yet.
    pub closed spec fn unwritten(&self) -> Seq<u8> {
        self.buffer@.subrange(self.len as int, self.buffer@.len() as int)
    }

    /// Whether some write did not fit.
    pub closed spec fn overflowed(&self) -> bool {
        self.overflowed
    }

    /// The size of the region.
    pub open spec fn spec_capacity(&self) -> nat {
        self.written().len() + self.unwritten().len()
    }

    /// Starts an empty scope over `buffer`.
    pub fn from(buffer: &'a mut [u8]) -> (scope: Self)
        ensures
            scope.written() == Seq::<u8>::empty(),
            scope.unwritten() == old(buffer)@,
            !scope.overflowed(),
    {
        let scope = EncodeScope { buffer, len: 0, overflowed: false };
        assert(scope.written() =~= Seq::<u8>::empty());
        assert(scope.unwritten() =~= scope.buffer@);
        scope
    }

    /// Starts a scope over `buffer` whose first `len` bytes count as
    /// written already.
    pub fn resume(buffer: &'a mut [u8], len: usize) -> (scope: Self)
        requires
            len <= old(buffer)@.len(),
        ensures
            scope.written() == old(buffer)@.take(len as int),
            scope.unwritten() == old(buffer)@.skip(len as int),
            !scope.overflowed(),
    {
        EncodeScope { buffer, len, overflowed: false }
    }

    /// Returns the size of the region.
    pub fn capacity(&self) -> (n: usize)
        ensures
            n == self.spec_capacity(),
    {
        proof {
            use_type_invariant(self);
        }
        self.buffer.len()
    }

    /// Returns the number of bytes written so far.
    pub fn len(&self) -> (n: usize)
        ensures
            n == self.written().len(),
    {
        proof {
            use_type_invariant(self);
        }
        self.len
    }

    /// Returns whether some write did not fit.
    pub fn has_overflowed(&self) -> (b: bool)
        ensures
            b == self.overflowed(),
    {
        self.overflowed
    }

    /// Gives the whole region back, the written bytes at its front.
    pub fn into_buffer(self) -> (buffer: &'a mut [u8])
        ensures
            buffer@ == self.written() + self.unwritten(),
    {
        proof {
            use_type_invariant(&self);
            assert(self.buffer@ =~= self.written() + self.unwritten());
        }
        let EncodeScope { buffer, len: _, overflowed: _ } = self;
        buffer
    }

    /// Appends `bytes` to what was written, if they fit. If they do not,
    /// none of them is written.
    pub fn write_bytes(&mut self, bytes: &[u8])
        ensures
            written_to(*old(self), *final(self), bytes@),
            bytes@.len() > old(self).unwritten().len() ==> {
                &&& final(self).written() == old(self).written()
                &&& final(self).unwritten() == old(self).unwritten()
            },
    {
        proof {
            use_type_invariant(&*self);
        }
        let n = bytes.len();
        let capacity = self.buffer.len();
        let start = self.len;
        if n <= capacity - start {
            let ghost before = self.buffer@;
            let mut i: usize = 0;
            while i < n
                invariant
                    i <= n,
                    n == bytes@.len(),
                    start == self.len,
                    start + n <= capacity,
                    capacity == before.len(),
                    self.buffer@.len() == before.len(),
                    self.overflowed == old(self).overflowed,
                    forall|j: int| 0 <= j < start ==> self.buffer@[j] == before[j],
                    forall|j: int| 0 <= j < i ==> self.buffer@[start + j] == bytes@[j],
                    forall|j: int| start + i <= j < capacity ==> self.buffer@[j] == before[j],
                decreases n - i,
            {
                self.buffer[start + i] = bytes[i];
                i += 1;
            }
            self.len = start + n;
            assert(self.written() =~= old(self).written() + bytes@);
            assert(self.unwritten() =~= old(self).unwritten().skip(n as int));
            assert(self.written().take(start as int) =~= old(self).written());
        } else {
            self.overflowed = true;
            assert(self.written().take(start as int) =~= old(self).written());
        }
    }

    /// Appends one byte to what was written, if it fits.
    pub fn write_byte(&mut self, byte: u8)
        ensures
            written_to(*old(self), *final(self), seq![byte]),
            old(self).unwritten().len() == 0 ==> {
                &&& final(self).written() == old(self).written()
                &&& final(self).unwritten() == old(self).unwritten()
            },
    {
        proof {
            use_type_invariant(&*self);
        }
        if self.len < self.buffer.len() {
            let start = self.len;
            self.buffer[start] = byte;
            self.len = start + 1;
            assert(self.written() =~= old(self).written() + seq![byte]);
            assert(self.unwritten() =~= old(self).unwritten().skip(1));
            assert(self.written().take(start as int) =~= old(self).written());
        } else {
            self.overflowed = true;
            assert(self.written().take(self.len as int) =~= old(self).written());
        }
    }
}

impl<'a> parity_scale_codec::Output for EncodeScope<'a> {
    /// Appends `bytes` to what was written, if they fit. If they do not,
    /// none of them is written and the scope is marked as overflowed.
    fn write(&mut self, bytes: &[u8])
        ensures
            written_to(*old(self), *final(self), bytes@),
            bytes@.len() > old(self).unwritten().len() ==> {
                &&& final(self).written() == old(self).written()
                &&& final(self).unwritten() == old(self).unwritten()
            },
    {
        self.write_bytes(bytes);
    }

    /// Appends one byte to what was written, if it fits. If it does not,
    /// nothing is written and the scope is marked as overflowed.
    fn push_byte(&mut self, byte: u8)
        ensures
            written_to(*old(self), *final(self), seq![byte]),
            old(self).unwritten().len() == 0 ==> {
                &&& final(self).written() == old(self).written()
                &&& final(self).unwritten() == old(self).unwritten()
            },
    {
        self.write_byte(byte);
    }
}

/// `<[u8]>::split_at_mut`: divides a region in two at `mid`. The first half
/// holds the bytes before `mid` and the second the rest; what is written
/// through the halves is written to the region, and neither half can change
/// its length.
#[verifier::external_body]
fn split_region<'b>(region: &'b mut [u8], mid: usize) -> (halves: (&'b mut [u8], &'b mut [u8]))
    requires
        mid <= old(region)@.len(),
    ensures
        halves.0@ == old(region)@.subrange(0, mid as int),
        halves.1@ == old(region)@.subrange(mid as int, old(region)@.len() as int),
        final(region)@ == final(halves.0)@ + final(halves.1)@,
        final(halves.0)@.len() == halves.0@.len(),
        final(halves.1)@.len() == halves.1@.len(),
    no_unwind
{
    region.split_at_mut(mid)
}

/// A cursor over a borrowed region that hands out the region piece by piece.
///
/// Pieces are handed out from the front; what is handed out is gone from the
/// buffer for good, so no two pieces overlap. Between two pieces a run of
/// encodings can be appended one after another and then be taken as a single
/// piece.
pub struct ScopedBuffer<'a> {
    offset: usize,
    buffer: &'a mut [u8],
}

impl<'a> ScopedBuffer<'a> {
    #[verifier::type_invariant]
    spec fn well_formed(&self) -> bool {
        self.offset <= self.buffer@.len()
    }

    /// The encodings appended since the last piece was taken.
    pub closed spec fn appended(&self) -> Seq<u8> {
        self.buffer@.subrange(0, self.offset as int)
    }

    /// The bytes that are neither handed out nor appended to.
    pub closed spec fn unused(&self) -> Seq<u8> {
        self.buffer@.subrange(self.offset as int, self.buffer@.len() as int)
    }

    /// Starts a cursor over the whole of `buffer`.
    pub fn from(buffer: &'a mut [u8]) -> (scoped: Self)
        ensures
            scoped.appended() == Seq::<u8>::empty(),
            scoped.unused() == old(buffer)@,
    {
        let scoped = ScopedBuffer { offset: 0, buffer };
        assert(scoped.appended() =~= Seq::<u8>::empty());
        assert(scoped.unused() =~= scoped.buffer@);
        scoped
    }

    /// Returns the number of bytes that are neither handed out nor appended
    /// to.
    pub fn remaining(&self) -> (n: usize)
        ensures
            n == self.unused().len(),
    {
        proof {
            use_type_invariant(self);
        }
        self.buffer.len() - self.offset
    }

    /// Splits off a cursor over the unused bytes, to work on them for a
    /// while. When the child is gone, this buffer has what it had appended
    /// and as many unused bytes as before; what the unused bytes hold is up
    /// to the child.
    pub fn split(&mut self) -> (child: ScopedBuffer<'_>)
        ensures
            child.appended() == Seq::<u8>::empty(),
            child.unused() == old(self).unused(),
            final(self).appended() == old(self).appended(),
            final(self).unused().len() == old(self).unused().len(),
    {
        proof {
            use_type_invariant(&*self);
        }
        let offset = self.offset;
        let (_, tail) = split_region(self.buffer, offset);
        let child = ScopedBuffer { offset: 0, buffer: tail };
        assert(child.appended() =~= Seq::<u8>::empty());
        assert(child.unused() =~= old(self).unused());
        child
    }

    /// Hands out the next `len` bytes. No appended run may be pending.
    pub fn take(&mut self, len: usize) -> (region: &'a mut [u8])
        requires
            old(self).appended().len() == 0,
            len <= old(self).unused().len(),
        ensures
            region@ == old(self).unused().take(len as int),
            final(self).unused() == old(self).unused().skip(len as int),
            final(self).appended() == Seq::<u8>::empty(),
    {
        proof {
            use_type_invariant(&*self);
        }
        let mut buffer: &'a mut [u8] = &mut [];
        core::mem::swap(&mut self.buffer, &mut buffer);
        let (lhs, rhs) = buffer.split_at_mut(len);
        self.buffer = rhs;
        assert(lhs@ =~= old(self).unused().take(len as int));
        assert(self.unused() =~= old(self).unused().skip(len as int));
        assert(self.appended() =~= Seq::<u8>::empty());
        lhs
    }

    /// Hands out the next bytes, as many as `bytes` has, filled with `bytes`.
    /// No appended run may be pending.
    pub fn take_bytes(&mut self, bytes: &[u8]) -> (region: &'a mut [u8])
        requires
            old(self).appended().len() == 0,
            bytes@.len() <= old(self).unused().len(),
        ensures
            region@ == bytes@,
            final(self).unused() == old(self).unused().skip(bytes@.len() as int),
            final(self).appended() == Seq::<u8>::empty(),
    {
        let n = bytes.len();
        let region = self.take(n);
        let mut i: usize = 0;
        while i < n
            invariant
                i <= n,
                n == bytes@.len(),
                region@.len() == n,
                forall|j: int| 0 <= j < i ==> region@[j] == bytes@[j],
            decreases n - i,
        {
            region[i] = bytes[i];
            i += 1;
        }
        assert(region@ =~= bytes@);
        region
    }

    /// Encodes `value` into the next bytes and hands out exactly the bytes
    /// that hold the encoding. No appended run may be pending.
    pub fn take_encoded<T: Encode>(&mut self, value: &T) -> (region: &'a mut [u8])
        requires
            old(self).appended().len() == 0,
            value.encoding().len() <= old(self).unused().len(),
        ensures
            region@ == value.encoding(),
            final(self).unused() == old(self).unused().skip(value.encoding().len() as int),
            final(self).appended() == Seq::<u8>::empty(),
    {
        proof {
            use_type_invariant(&*self);
        }
        let mut buffer: &'a mut [u8] = &mut [];
        core::mem::swap(&mut self.buffer, &mut buffer);
        assert(buffer@ =~= old(self).unused());
        let mut scope = EncodeScope::from(buffer);
        value.encode_to(&mut scope);
        let encode_len = scope.len();
        self.buffer = scope.into_buffer();
        assert(self.unused() =~= value.encoding() + old(self).unused().skip(encode_len as int));
        assert(self.appended() =~= Seq::<u8>::empty());
        let region = self.take(encode_len);
        assert(region@ =~= value.encoding());
        assert(self.unused() =~= old(self).unused().skip(encode_len as int));
        region
    }

    /// Encodes `value` into the next bytes and hands out exactly the bytes
    /// that hold the encoding, or `None` where the encoding does not fit
    /// into what is left. No appended run may be pending.
    pub fn try_take_encoded<T: Encode>(&mut self, value: &T) -> (region: Option<&'a mut [u8]>)
        requires
            old(self).appended().len() == 0,
        ensures
            final(self).appended() == Seq::<u8>::empty(),
            match region {
                Some(region) => {
                    &&& value.encoding().len() <= old(self).unused().len()
                    &&& region@ == value.encoding()
                    &&& final(self).unused() == old(self).unused().skip(
                        value.encoding().len() as int,
                    )
                },
                None => {
                    &&& value.encoding().len() > old(self).unused().len()
                    &&& final(self).unused().len() == old(self).unused().len()
                },
            },
    {
        proof {
            use_type_invariant(&*self);
        }
        let mut buffer: &'a mut [u8] = &mut [];
        core::mem::swap(&mut self.buffer, &mut buffer);
        assert(buffer@ =~= old(self).unused());
        let mut scope = EncodeScope::from(buffer);
        value.encode_to(&mut scope);
        let overflowed = scope.has_overflowed();
        let encode_len = scope.len();
        self.buffer = scope.into_buffer();
        assert(self.appended() =~= Seq::<u8>::empty());
        if overflowed {
            assert(self.unused() =~= self.buffer@);
            None
        } else {
            assert(self.unused() =~= value.encoding() + old(self).unused().skip(encode_len as int));
            let region = self.take(encode_len);
            assert(region@ =~= value.encoding());
            assert(self.unused() =~= old(self).unused().skip(encode_len as int));
            Some(region)
        }
    }

    /// Appends the encoding of `value` to the pending run. The run is handed
    /// out as one piece by [`Self::take_appended`].
    pub fn append_encoded<T: Encode>(&mut self, value: &T)
        requires
            value.encoding().len() <= old(self).unused().len(),
        ensures
            final(self).appended() == old(self).appended() + value.encoding(),
            final(self).unused() == old(self).unused().skip(value.encoding().len() as int),
    {
        proof {
            use_type_invariant(&*self);
        }
        let offset = self.offset;
        self.offset = 0;
        let mut buffer: &'a mut [u8] = &mut [];
        core::mem::swap(&mut self.buffer, &mut buffer);
        let mut scope = EncodeScope::resume(buffer, offset);
        value.encode_to(&mut scope);
        let len = scope.len();
        self.buffer = scope.into_buffer();
        self.offset = len;
        assert(self.appended() =~= old(self).appended() + value.encoding());
        assert(self.unused() =~= old(self).unused().skip(value.encoding().len() as int));
    }

    /// Appends the encoding of `value` to the pending run and returns `true`,
    /// or returns `false` where the encoding does not fit into what is left;
    /// the pending run is then as it was.
    pub fn try_append_encoded<T: Encode>(&mut self, value: &T) -> (fits: bool)
        ensures
            fits == (value.encoding().len() <= old(self).unused().len()),
            fits ==> {
                &&& final(self).appended() == old(self).appended() + value.encoding()
                &&& final(self).unused() == old(self).unused().skip(value.encoding().len() as int)
            },
            !fits ==> {
                &&& final(self).appended() == old(self).appended()
                &&& final(self).unused().len() == old(self).unused().len()
            },
    {
        proof {
            use_type_invariant(&*self);
        }
        let offset = self.offset;
        self.offset = 0;
        let mut buffer: &'a mut [u8] = &mut [];
        core::mem::swap(&mut self.buffer, &mut buffer);
        let mut scope = EncodeScope::resume(buffer, offset);
        value.encode_to(&mut scope);
        let overflowed = scope.has_overflowed();
        let len = scope.len();
        self.buffer = scope.into_buffer();
        if overflowed {
            self.offset = offset;
            assert(self.appended() =~= old(self).appended());
            false
        } else {
            self.offset = len;
            assert(self.appended() =~= old(self).appended() + value.encoding());
            assert(self.unused() =~= old(self).unused().skip(value.encoding().len() as int));
            true
        }
    }

    /// Hands out the pending run as one piece and starts a new, empty run.
    pub fn take_appended(&mut self) -> (region: &'a mut [u8])
        ensures
            region@ == old(self).appended(),
            final(self).unused() == old(self).unused(),
            final(self).appended() == Seq::<u8>::empty(),
    {
        proof {
            use_type_invariant(&*self);
        }
        let offset = self.offset;
        self.offset = 0;
        assert(self.appended() =~= Seq::<u8>::empty());
        assert(self.unused() =~= old(self).appended() + old(self).unused());
        let region = self.take(offset);
        assert(region@ =~= old(self).appended());
        assert(self.unused() =~= old(self).unused());
        region
    }

    /// Hands out all the bytes that are left. No appended run may be
    /// pending.
    pub fn take_rest(self) -> (region: &'a mut [u8])
        requires
            self.appended().len() == 0,
        ensures
            region@ == self.unused(),
    {
        proof {
            use_type_invariant(&self);
        }
        let ScopedBuffer { offset: _, buffer } = self;
        assert(buffer@ =~= self.unused());
        buffer
    }
}

} // verus!
