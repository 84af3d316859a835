//! The boundary provider: where one grapheme cluster ends and the next begins.
//!
//! The Unicode segmentation rules are not part of this crate. They are
//! consumed from `unicode_segmentation`, and what is assumed of them is
//! stated here and nowhere else.

use unicode_segmentation::UnicodeSegmentation;
use vstd::prelude::*;

verus! {

/// The extended grapheme clusters of `text`, in textual order.
///
/// This stands for what `UnicodeSegmentation::graphemes(text, true)` yields.
/// It has no definition here: the boundary rules are those of the outside
/// crate.
pub uninterp spec fn clusters(text: Seq<char>) -> Seq<Seq<char>>;

/// The text of each part, in order.
pub open spec fn texts(parts: Seq<&str>) -> Seq<Seq<char>> {
    Seq::new(parts.len(), |i: int| parts[i]@)
}

/// Splits `input` into its extended grapheme clusters.
///
/// Calls `UnicodeSegmentation::graphemes(input, true)` and collects what the
/// iterator yields. Nothing of this is proved. It is assumed that the parts
/// are the clusters of `input`; that no part is empty, since the iterator
/// moves past at least one character before it yields; and that the parts,
/// joined in order, give `input` back, since each part is the slice from the
/// end of the one before to the next boundary, from the start of the text to
/// its end.
#[verifier::external_body]
pub(crate) fn segments<'a>(input: &'a str) -> (parts: Vec<&'a str>)
    ensures
        texts(parts@) == clusters(input@),
        forall|i: int| 0 <= i < parts@.len() ==> (#[trigger] parts@[i])@.len() > 0,
        texts(parts@).flatten() == input@,
{
    UnicodeSegmentation::graphemes(input, true).collect()
}

/// A segmentation into non-empty parts that joins to `text` has no part
/// exactly when `text` is empty.
pub proof fn lemma_no_part_iff_empty(parts: Seq<Seq<char>>, text: Seq<char>)
    requires
        parts.flatten() == text,
        forall|i: int| 0 <= i < parts.len() ==> (#[trigger] parts[i]).len() > 0,
    ensures
        parts.len() == 0 <==> text.len() == 0,
{
    if parts.len() > 0 {
        assert(parts.first().len() > 0);
        assert(parts.flatten() == parts.first().add(parts.drop_first().flatten()));
    }
}

} // verus!
