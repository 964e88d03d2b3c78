//! The list of topics that goes with an emitted event.
//!
//! The list is a compact count followed by the topics, each exactly as wide
//! as a hash of the deployment target: a topic whose encoding is no longer
//! than that is embedded as it is, padded with zeros, and a longer one is
//! replaced by its hash.

use vstd::prelude::*;
use core::marker::PhantomData;
use crate::buffer::ScopedBuffer;
use crate::codec::{compact_encoding, Compact, Encode};
use crate::types::{zeros, Environment, HashBytes};

verus! {

/// The number of bytes of the hash that folds a long topic.
pub const TOPIC_DIGEST_LEN: usize = 32;

/// `bytes` cut to at most `width` bytes and filled up with zeros to exactly
/// `width` bytes.
pub open spec fn zero_padded(bytes: Seq<u8>, width: nat) -> Seq<u8> {
    if bytes.len() <= width {
        bytes + zeros((width - bytes.len()) as nat)
    } else {
        bytes.take(width as int)
    }
}

/// Every topic is exactly as wide as a hash, however long the encoding of
/// the value is that it stands for.
pub proof fn lemma_topic_width<F: FnOnce(&[u8]) -> [u8; 32]>(
    topic: Seq<u8>,
    encoded: Seq<u8>,
    hash: F,
    width: nat,
)
    requires
        is_topic_of(topic, encoded, hash, width),
    ensures
        topic.len() == width,
{
}

/// Whether `topic` is a topic that may stand for a value with the encoding
/// `encoded`, given the function `hash` to fold long encodings with: the
/// zero-padded encoding where that is no longer than `width`, otherwise the
/// zero-padded result of `hash` on the encoding.
pub open spec fn is_topic_of<F: FnOnce(&[u8]) -> [u8; 32]>(
    topic: Seq<u8>,
    encoded: Seq<u8>,
    hash: F,
    width: nat,
) -> bool {
    if encoded.len() <= width {
        topic == zero_padded(encoded, width)
    } else {
        exists|input: &[u8], digest: [u8; 32]|
            {
                &&& input@ == encoded
                &&& #[trigger] call_ensures(hash, (input,), digest)
                &&& topic == zero_padded(digest@, width)
            }
    }
}

/// The head of a list of `expected_topics` topics: the number, cut to its
/// low 32 bits, in compact form.
pub open spec fn topic_count(expected_topics: usize) -> Seq<u8> {
    compact_encoding(expected_topics as u32)
}

/// Copies `src` over the first bytes of `dst`.
fn copy_to_front(dst: &mut [u8], src: &[u8])
    requires
        src@.len() <= old(dst)@.len(),
    ensures
        final(dst)@ == src@ + old(dst)@.skip(src@.len() as int),
{
    let n = src.len();
    let mut i: usize = 0;
    while i < n
        invariant
            i <= n,
            n == src@.len(),
            dst@.len() == old(dst)@.len(),
            n <= dst@.len(),
            forall|j: int| 0 <= j < i ==> dst@[j] == src@[j],
            forall|j: int| i <= j < dst@.len() ==> dst@[j] == old(dst)@[j],
        decreases n - i,
    {
        dst[i] = src[i];
        i += 1;
    }
    assert(dst@ =~= src@ + old(dst)@.skip(n as int));
}

/// Turns the encoding of a topic value into the hash-wide topic that is
/// embedded in the event: the encoding itself, padded with zeros, where it
/// is no longer than a hash, and otherwise what `hash` makes of it, cut or
/// padded to the width of a hash.
pub fn topic_hash<E: Environment, F: FnOnce(&[u8]) -> [u8; 32]>(encoded: &[u8], hash: F) -> (topic:
    E::Hash)
    requires
        encoded@.len() > E::Hash::width() ==> call_requires(hash, (encoded,)),
    ensures
        is_topic_of(topic.bytes(), encoded@, hash, E::Hash::width()),
{
    let len_encoded = encoded.len();
    let mut result = E::Hash::clear();
    proof {
        result.lemma_bytes();
    }
    let len_result = result.as_ref().len();
    if len_encoded <= len_result {
        copy_to_front(result.as_mut(), encoded);
        assert(result.bytes() =~= zero_padded(encoded@, E::Hash::width()));
    } else {
        let hash_output = hash(encoded);
        let copy_len = if TOPIC_DIGEST_LEN <= len_result {
            TOPIC_DIGEST_LEN
        } else {
            len_result
        };
        let digest = vstd::slice::slice_subrange(hash_output.as_slice(), 0, copy_len);
        copy_to_front(result.as_mut(), digest);
        assert(result.bytes() =~= zero_padded(hash_output@, E::Hash::width()));
    }
    result
}

/// Builds the list of topics of one event in a scoped buffer.
pub struct TopicsBuilder<'a, E> {
    scoped_buffer: ScopedBuffer<'a>,
    marker: PhantomData<E>,
}

impl<'a, E: Environment> TopicsBuilder<'a, E> {
    /// The encoded list as far as it is built.
    pub closed spec fn encoded(&self) -> Seq<u8> {
        self.scoped_buffer.appended()
    }

    /// The number of bytes that the list can still grow by.
    pub closed spec fn room(&self) -> nat {
        self.scoped_buffer.unused().len()
    }

    /// Starts a list in `scoped_buffer`, behind what is appended there.
    pub fn from(scoped_buffer: ScopedBuffer<'a>) -> (builder: Self)
        ensures
            builder.encoded() == scoped_buffer.appended(),
            builder.room() == scoped_buffer.unused().len(),
    {
        Self { scoped_buffer, marker: PhantomData }
    }

    /// Writes the number of topics that will follow, in compact form.
    /// Returns `false`, and leaves the list as it is, where the buffer has
    /// no room for the number.
    pub fn expect(&mut self, expected_topics: usize) -> (fits: bool)
        ensures
            fits == (topic_count(expected_topics).len() <= old(self).room()),
            fits ==> {
                &&& final(self).encoded() == old(self).encoded() + topic_count(expected_topics)
                &&& final(self).room() == old(self).room() - topic_count(expected_topics).len()
            },
            !fits ==> {
                &&& final(self).encoded() == old(self).encoded()
                &&& final(self).room() == old(self).room()
            },
    {
        let count = Compact(#[verifier::truncate] (expected_topics as u32));
        self.scoped_buffer.try_append_encoded(&count)
    }

    /// Appends the topic that stands for `topic_value`; `hash` is called on
    /// the encoding of the value where that is longer than a hash. The
    /// encoding is laid out in the unused part of the buffer for the time
    /// of the call. Returns `false`, and leaves the list as it is, where the
    /// buffer has no room for the encoding or for the topic.
    pub fn push_topic<T: Encode, F: FnOnce(&[u8]) -> [u8; 32]>(
        &mut self,
        topic_value: &T,
        hash: F,
    ) -> (fits: bool)
        requires
            forall|input: &[u8]| input@ == topic_value.encoding() ==> call_requires(hash, (input,)),
        ensures
            fits == (topic_value.encoding().len() <= old(self).room() && E::Hash::width() <= old(
                self,
            ).room()),
            fits ==> {
                &&& final(self).room() == old(self).room() - E::Hash::width()
                &&& final(self).encoded().len() == old(self).encoded().len() + E::Hash::width()
                &&& final(self).encoded().take(old(self).encoded().len() as int) == old(
                    self,
                ).encoded()
                &&& is_topic_of(
                    final(self).encoded().skip(old(self).encoded().len() as int),
                    topic_value.encoding(),
                    hash,
                    E::Hash::width(),
                )
            },
            !fits ==> {
                &&& final(self).encoded() == old(self).encoded()
                &&& final(self).room() == old(self).room()
            },
    {
        let mut split = self.scoped_buffer.split();
        let result = match split.try_take_encoded(topic_value) {
            Some(encoded) => topic_hash::<E, F>(encoded, hash),
            None => {
                return false;
            },
        };
        proof {
            result.lemma_bytes();
        }
        let fits = self.scoped_buffer.try_append_encoded(&result);
        proof {
            if fits {
                let before = old(self).encoded();
                let after = self.encoded();
                assert(after.take(before.len() as int) =~= before);
                assert(after.skip(before.len() as int) =~= result.bytes());
            }
        }
        fits
    }

    /// Ends the list: returns the buffer behind the list, and the encoded
    /// list as one region.
    pub fn output(self) -> (output: (ScopedBuffer<'a>, &'a mut [u8]))
        ensures
            output.0.appended() == Seq::<u8>::empty(),
            output.0.unused().len() == self.room(),
            output.1@ == self.encoded(),
    {
        let TopicsBuilder { mut scoped_buffer, marker: _ } = self;
        let encoded_topics = scoped_buffer.take_appended();
        (scoped_buffer, encoded_topics)
    }
}

} // verus!
