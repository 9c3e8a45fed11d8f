//! The integer-tag codec.
//!
//! The host engine distinguishes emitter kinds and render-group kinds by
//! 32-bit integer tags.  A plugin declares a finite tag set; the codec maps
//! each declared tag to its index in declaration order (a total map) and maps
//! an incoming integer back to the declared tag (a partial map, defined
//! exactly on `0..N` for a set of `N` tags).

use vstd::prelude::*;

verus! {

/// Error returned when an incoming 32-bit identifier does not name a
/// declared tag.
#[derive(Clone, Copy, Debug, PartialEq, Eq, Structural)]
pub struct TagDecodeError;

/// A finite, author-declared set of tags with a total encoding into `u32`
/// and a partial decoding defined exactly on `0..Self::tag_count()`.
///
/// Declaration order defines the indices; there are no duplicates and no
/// gaps.  `lemma_tag_codec` obliges every implementation to prove exactly
/// that.
pub trait TagSet: Sized + Copy {
    /// The number of declared tags.
    spec fn tag_count() -> u32;

    /// The index of this tag in declaration order.
    spec fn tag_index(self) -> u32;

    /// The tag declared at the given index, if the index is in range.
    spec fn tag_at(id: u32) -> Option<Self>;

    /// The declaration is coherent: every index is in range, `tag_at`
    /// inverts `tag_index`, and `tag_at` is defined exactly on the range
    /// `0..tag_count()`.
    proof fn lemma_tag_codec(t: Self, id: u32)
        ensures
            t.tag_index() < Self::tag_count(),
            Self::tag_at(t.tag_index()) == Some(t),
            Self::tag_at(id) is Some <==> id < Self::tag_count(),
            match Self::tag_at(id) {
                Some(u) => u.tag_index() == id,
                None => true,
            },
    ;

    /// Encode this tag as its 32-bit index.
    fn encode(self) -> (id: u32)
        ensures
            id == self.tag_index(),
    ;

    /// Decode a 32-bit index into the declared tag at that index; an
    /// out-of-range index is a decode failure.
    fn decode(id: u32) -> (r: Result<Self, TagDecodeError>)
        ensures
            r == match Self::tag_at(id) {
                Some(t) => Result::<Self, TagDecodeError>::Ok(t),
                None => Result::<Self, TagDecodeError>::Err(TagDecodeError),
            },
    ;
}

/// For every declared tag set: decoding the encoding of a tag yields that
/// tag again, and decoding fails exactly on the integers outside the
/// declared range `0..tag_count()`.
pub proof fn lemma_tag_round_trip<T: TagSet>(t: T, id: u32)
    ensures
        T::tag_at(t.tag_index()) == Some(t),
        T::tag_at(id) is Some <==> id < T::tag_count(),
        match T::tag_at(id) {
            Some(u) => u.tag_index() == id,
            None => true,
        },
{
    T::lemma_tag_codec(t, id);
}

} // verus!
