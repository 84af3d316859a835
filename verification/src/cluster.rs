//! The grapheme cluster value and its construction.

use crate::bytes::GCBytes;
use crate::error::ClusterError;
use crate::segment::{clusters, lemma_no_part_iff_empty, segments, texts};
use crate::text::{decode_lossy, lemma_rendered_encoding, rendered};
use vstd::pervasive::unreached;
use vstd::prelude::*;
use vstd::slice::slice_to_vec;
use vstd::utf8::*;

verus! {

/// The longest encoding, in bytes, that a cluster value can hold.
pub const MAX_CLUSTER_BYTES: usize = 6;

/// One extended grapheme cluster, stored as its encoded bytes.
///
/// The variant is the length: a cluster of three bytes is always `B3`.
#[derive(Debug, Clone, Copy, Hash)]
pub enum GraphemeCluster {
    B1(GCBytes<1>),
    B2(GCBytes<2>),
    B3(GCBytes<3>),
    B4(GCBytes<4>),
    B5(GCBytes<5>),
    B6(GCBytes<6>),
}

impl View for GraphemeCluster {
    type V = Seq<u8>;

    open spec fn view(&self) -> Seq<u8> {
        match *self {
            GraphemeCluster::B1(b) => b@,
            GraphemeCluster::B2(b) => b@,
            GraphemeCluster::B3(b) => b@,
            GraphemeCluster::B4(b) => b@,
            GraphemeCluster::B5(b) => b@,
            GraphemeCluster::B6(b) => b@,
        }
    }
}

/// The error, if any, that stands in the way of storing `bytes`.
pub open spec fn encoding_error(bytes: Seq<u8>) -> Option<ClusterError> {
    if bytes.len() == 0 {
        Some(ClusterError::EmptyClusterInput)
    } else if bytes.len() > MAX_CLUSTER_BYTES {
        Some(ClusterError::ClusterTooLong { len: bytes.len() as usize })
    } else {
        None
    }
}

/// The encoding of the first grapheme cluster of `text`.
pub open spec fn first_cluster_bytes(text: Seq<char>) -> Seq<u8>
    recommends
        clusters(text).len() > 0,
{
    encode_utf8(clusters(text)[0])
}

/// The error, if any, that stands in the way of making a value from `text`:
/// the text is empty, or its first cluster is too long.
pub open spec fn construction_error(text: Seq<char>) -> Option<ClusterError> {
    if text.len() == 0 {
        Some(ClusterError::EmptyClusterInput)
    } else {
        encoding_error(first_cluster_bytes(text))
    }
}

/// A value can be made from `text`.
pub open spec fn constructible(text: Seq<char>) -> bool {
    construction_error(text) is None
}

/// Each of `parts` can be made into a value.
pub open spec fn all_constructible(parts: Seq<Seq<char>>) -> bool {
    forall|i: int| 0 <= i < parts.len() ==> constructible(#[trigger] parts[i])
}

/// `values` holds, in order, the value made from each of `parts`.
pub open spec fn encodes_each(values: Seq<GraphemeCluster>, parts: Seq<Seq<char>>) -> bool {
    &&& values.len() == parts.len()
    &&& forall|i: int|
        0 <= i < values.len() ==> (#[trigger] values[i])@ == first_cluster_bytes(parts[i])
}

/// Part `k` is the first of `parts` that cannot be made into a value, and
/// `e` is why.
pub open spec fn fails_first_at(parts: Seq<Seq<char>>, k: int, e: ClusterError) -> bool {
    &&& 0 <= k < parts.len()
    &&& all_constructible(parts.take(k))
    &&& construction_error(parts[k]) == Some(e)
}

impl GraphemeCluster {
    /// The number of bytes that the occupied variant holds.
    pub open spec fn width(self) -> nat {
        match self {
            GraphemeCluster::B1(_) => 1,
            GraphemeCluster::B2(_) => 2,
            GraphemeCluster::B3(_) => 3,
            GraphemeCluster::B4(_) => 4,
            GraphemeCluster::B5(_) => 5,
            GraphemeCluster::B6(_) => 6,
        }
    }

    /// The stored bytes are exactly as many as the variant says, and
    /// between one and six.
    pub proof fn lemma_len_is_width(self)
        ensures
            self@.len() == self.width(),
            1 <= self@.len() <= MAX_CLUSTER_BYTES,
    {
        match self {
            GraphemeCluster::B1(b) => b.lemma_len(),
            GraphemeCluster::B2(b) => b.lemma_len(),
            GraphemeCluster::B3(b) => b.lemma_len(),
            GraphemeCluster::B4(b) => b.lemma_len(),
            GraphemeCluster::B5(b) => b.lemma_len(),
            GraphemeCluster::B6(b) => b.lemma_len(),
        }
    }

    /// Stores `bytes` verbatim in the variant of their length.
    ///
    /// Fails on no bytes and on more than six; nothing is cut off or padded.
    pub fn from_bytes(bytes: Vec<u8>) -> (out: Result<GraphemeCluster, ClusterError>)
        ensures
            match out {
                Ok(c) => encoding_error(bytes@) is None && c@ == bytes@,
                Err(e) => encoding_error(bytes@) == Some(e),
            },
    {
        let len: usize = bytes.len();
        if len == 1 {
            Ok(GraphemeCluster::B1(GCBytes::<1>::new(bytes)))
        } else if len == 2 {
            Ok(GraphemeCluster::B2(GCBytes::<2>::new(bytes)))
        } else if len == 3 {
            Ok(GraphemeCluster::B3(GCBytes::<3>::new(bytes)))
        } else if len == 4 {
            Ok(GraphemeCluster::B4(GCBytes::<4>::new(bytes)))
        } else if len == 5 {
            Ok(GraphemeCluster::B5(GCBytes::<5>::new(bytes)))
        } else if len == 6 {
            Ok(GraphemeCluster::B6(GCBytes::<6>::new(bytes)))
        } else if len == 0 {
            Err(ClusterError::EmptyClusterInput)
        } else {
            Err(ClusterError::ClusterTooLong { len })
        }
    }

    /// The stored bytes, whichever variant holds them.
    pub fn as_bytes(&self) -> (out: &[u8])
        ensures
            out@ == self@,
    {
        match self {
            GraphemeCluster::B1(gc_bytes) => gc_bytes.as_slice(),
            GraphemeCluster::B2(gc_bytes) => gc_bytes.as_slice(),
            GraphemeCluster::B3(gc_bytes) => gc_bytes.as_slice(),
            GraphemeCluster::B4(gc_bytes) => gc_bytes.as_slice(),
            GraphemeCluster::B5(gc_bytes) => gc_bytes.as_slice(),
            GraphemeCluster::B6(gc_bytes) => gc_bytes.as_slice(),
        }
    }

    /// The encoded bytes of the first grapheme cluster of `input`.
    pub fn to_vec(input: &str) -> (bytes: Vec<u8>)
        requires
            input@.len() > 0,
        ensures
            bytes@ == first_cluster_bytes(input@),
            bytes@.len() > 0,
    {
        let parts = segments(input);
        proof {
            lemma_no_part_iff_empty(texts(parts@), input@);
            assert(texts(parts@)[0] == parts@[0]@);
            lemma_encoding_len(parts@[0]@);
        }
        let first_gc: &str = parts[0];
        slice_to_vec(first_gc.as_bytes())
    }

    /// The value of the first grapheme cluster of `input`. What follows
    /// that cluster in `input` is left aside.
    pub fn new(input: &str) -> (out: GraphemeCluster)
        requires
            constructible(input@),
        ensures
            out@ == first_cluster_bytes(input@),
    {
        let bytes = Self::to_vec(input);
        match Self::from_bytes(bytes) {
            Ok(gc) => gc,
            Err(_) => unreached(),
        }
    }

    /// The value of the first grapheme cluster of `input`, or the reason
    /// why there is none: `input` is empty, or that cluster's encoding has
    /// more than six bytes.
    pub fn try_new(input: &str) -> (out: Result<GraphemeCluster, ClusterError>)
        ensures
            match out {
                Ok(gc) => constructible(input@) && gc@ == first_cluster_bytes(input@),
                Err(e) => construction_error(input@) == Some(e),
            },
    {
        if input.is_empty() {
            return Err(ClusterError::EmptyClusterInput);
        }
        let len: usize = Self::to_vec(input).len();
        if len > MAX_CLUSTER_BYTES {
            return Err(ClusterError::ClusterTooLong { len });
        }
        Ok(Self::new(input))
    }

    /// The value of each grapheme cluster of `input`, in textual order.
    /// There are no values exactly when `input` is empty.
    pub fn graphemes(input: &str) -> (out: Vec<GraphemeCluster>)
        requires
            all_constructible(clusters(input@)),
        ensures
            encodes_each(out@, clusters(input@)),
            out@.len() == 0 <==> input@.len() == 0,
    {
        let parts = segments(input);
        proof {
            lemma_no_part_iff_empty(texts(parts@), input@);
        }
        let mut out: Vec<GraphemeCluster> = Vec::new();
        let mut i: usize = 0;
        while i < parts.len()
            invariant
                i <= parts@.len(),
                texts(parts@) == clusters(input@),
                all_constructible(clusters(input@)),
                encodes_each(out@, clusters(input@).take(i as int)),
            decreases parts@.len() - i,
        {
            assert(texts(parts@)[i as int] == parts@[i as int]@);
            let gc = Self::new(parts[i]);
            out.push(gc);
            i += 1;
        }
        assert(clusters(input@).take(i as int) =~= clusters(input@));
        out
    }

    /// The value of each grapheme cluster of `input`, in textual order, or
    /// the reason why the first cluster that has no value has none. There
    /// is no partial result.
    pub fn try_graphemes(input: &str) -> (out: Result<Vec<GraphemeCluster>, ClusterError>)
        ensures
            match out {
                Ok(values) => {
                    &&& all_constructible(clusters(input@))
                    &&& encodes_each(values@, clusters(input@))
                    &&& (values@.len() == 0 <==> input@.len() == 0)
                },
                Err(e) => exists|k: int| fails_first_at(clusters(input@), k, e),
            },
    {
        let parts = segments(input);
        let mut i: usize = 0;
        while i < parts.len()
            invariant
                i <= parts@.len(),
                texts(parts@) == clusters(input@),
                forall|j: int| 0 <= j < parts@.len() ==> (#[trigger] parts@[j])@.len() > 0,
                all_constructible(clusters(input@).take(i as int)),
            decreases parts@.len() - i,
        {
            assert(texts(parts@)[i as int] == parts@[i as int]@);
            let len: usize = Self::to_vec(parts[i]).len();
            if len > MAX_CLUSTER_BYTES {
                let e = ClusterError::ClusterTooLong { len };
                assert(fails_first_at(clusters(input@), i as int, e));
                return Err(e);
            }
            assert forall|j: int| 0 <= j < i + 1 implies constructible(
                #[trigger] clusters(input@).take(i + 1)[j],
            ) by {
                if j < i {
                    assert(clusters(input@).take(i as int)[j] == clusters(input@)[j]);
                }
            }
            i += 1;
        }
        assert(clusters(input@).take(i as int) =~= clusters(input@));
        Ok(Self::graphemes(input))
    }

    /// The stored bytes as text, decoded as far as they can be: valid UTF-8
    /// gives the text it encodes, and anything malformed is replaced.
    pub fn to_string_lossy(self) -> (out: String)
        ensures
            out@ == rendered(self@),
    {
        decode_lossy(self.as_bytes())
    }
}

/// A value made from `text` is rendered as the first grapheme cluster of
/// `text`, unchanged.
pub proof fn lemma_constructed_renders_cluster(gc: GraphemeCluster, text: Seq<char>)
    requires
        gc@ == first_cluster_bytes(text),
    ensures
        rendered(gc@) == clusters(text)[0],
{
    lemma_rendered_encoding(clusters(text)[0]);
}

/// The encoding of text that is not empty is not empty.
pub proof fn lemma_encoding_len(text: Seq<char>)
    requires
        text.len() > 0,
    ensures
        encode_utf8(text).len() > 0,
{
    assert(encode_utf8(text) == encode_scalar(text[0] as u32) + encode_utf8(text.drop_first()));
}

} // verus!
