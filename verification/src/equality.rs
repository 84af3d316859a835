//! Equality of cluster values: by their bytes, across all variants.

use crate::bytes::GCBytes;
use crate::cluster::{first_cluster_bytes, GraphemeCluster};
use vstd::prelude::*;
use vstd::std_specs::cmp::PartialEqSpec;

verus! {

/// Whether two slices hold the same bytes in the same order.
fn same_bytes(a: &[u8], b: &[u8]) -> (same: bool)
    ensures
        same == (a@ == b@),
{
    if a.len() != b.len() {
        return false;
    }
    let mut i: usize = 0;
    while i < a.len()
        invariant
            i <= a@.len(),
            a@.len() == b@.len(),
            forall|j: int| 0 <= j < i ==> a@[j] == b@[j],
        decreases a@.len() - i,
    {
        if a[i] != b[i] {
            return false;
        }
        i += 1;
    }
    assert(a@ =~= b@);
    true
}

impl<const N: usize> PartialEq for GCBytes<N> {
    fn eq(&self, other: &GCBytes<N>) -> (same: bool) {
        same_bytes(self.as_slice(), other.as_slice())
    }
}

impl<const N: usize> vstd::std_specs::cmp::PartialEqSpecImpl for GCBytes<N> {
    open spec fn obeys_eq_spec() -> bool {
        true
    }

    open spec fn eq_spec(&self, other: &GCBytes<N>) -> bool {
        self@ == other@
    }
}

impl<const N: usize> Eq for GCBytes<N> {}

impl PartialEq for GraphemeCluster {
    fn eq(&self, other: &GraphemeCluster) -> (same: bool) {
        same_bytes(self.as_bytes(), other.as_bytes())
    }
}

impl vstd::std_specs::cmp::PartialEqSpecImpl for GraphemeCluster {
    open spec fn obeys_eq_spec() -> bool {
        true
    }

    open spec fn eq_spec(&self, other: &GraphemeCluster) -> bool {
        self@ == other@
    }
}

impl Eq for GraphemeCluster {}

/// Every value equals itself.
pub proof fn lemma_eq_reflexive(a: GraphemeCluster)
    ensures
        a.eq_spec(&a),
{
}

/// Equality does not depend on the side a value stands on.
pub proof fn lemma_eq_symmetric(a: GraphemeCluster, b: GraphemeCluster)
    ensures
        a.eq_spec(&b) == b.eq_spec(&a),
{
}

/// Values equal to a common third are equal to each other.
pub proof fn lemma_eq_transitive(a: GraphemeCluster, b: GraphemeCluster, c: GraphemeCluster)
    requires
        a.eq_spec(&b),
        b.eq_spec(&c),
    ensures
        a.eq_spec(&c),
{
}

/// Values that compare equal are one and the same value: the same variant
/// holding the same bytes. Nothing that is computed from a value alone can
/// tell them apart.
pub proof fn lemma_equal_values_identical(a: GraphemeCluster, b: GraphemeCluster)
    ensures
        a.eq_spec(&b) <==> a == b,
{
    if a.eq_spec(&b) {
        a.lemma_len_is_width();
        b.lemma_len_is_width();
        match (a, b) {
            (GraphemeCluster::B1(x), GraphemeCluster::B1(y)) => x.lemma_view_injective(y),
            (GraphemeCluster::B2(x), GraphemeCluster::B2(y)) => x.lemma_view_injective(y),
            (GraphemeCluster::B3(x), GraphemeCluster::B3(y)) => x.lemma_view_injective(y),
            (GraphemeCluster::B4(x), GraphemeCluster::B4(y)) => x.lemma_view_injective(y),
            (GraphemeCluster::B5(x), GraphemeCluster::B5(y)) => x.lemma_view_injective(y),
            (GraphemeCluster::B6(x), GraphemeCluster::B6(y)) => x.lemma_view_injective(y),
            _ => {},
        }
    }
}

/// Construction is a function of the text: two values made from the same
/// text are equal, byte for byte and as values.
pub proof fn lemma_construction_deterministic(
    text: Seq<char>,
    a: GraphemeCluster,
    b: GraphemeCluster,
)
    requires
        a@ == first_cluster_bytes(text),
        b@ == first_cluster_bytes(text),
    ensures
        a.eq_spec(&b),
        a == b,
{
    lemma_equal_values_identical(a, b);
}

/// Values in variants of different lengths are never equal, whatever their
/// bytes.
pub proof fn lemma_widths_differ_not_equal(a: GraphemeCluster, b: GraphemeCluster)
    requires
        a.width() != b.width(),
    ensures
        !a.eq_spec(&b),
        a != b,
{
    a.lemma_len_is_width();
    b.lemma_len_is_width();
}

} // verus!
