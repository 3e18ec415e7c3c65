use crate::database::Database;
use crate::encode::{Encode, IsNull};
use vstd::prelude::*;

verus! {

/// A copy-on-write wrapper: either a borrowed view or an owned value of
/// the same underlying type, exposed uniformly through its borrowed
/// view.
pub enum MaybeOwned<'a, T> {
    /// A borrowed view of the value.
    Borrowed(&'a T),
    /// An owned value.
    Owned(T),
}

impl<'a, T> MaybeOwned<'a, T> {
    /// The logical value the wrapper holds, whichever variant it is.
    pub open spec fn spec_value(&self) -> T {
        match self {
            MaybeOwned::Borrowed(b) => **b,
            MaybeOwned::Owned(o) => *o,
        }
    }

    /// The borrowed view: a reference to the held value, obtained
    /// uniformly whether the wrapper holds borrowed or owned data.
    pub fn as_value(&self) -> (r: &T)
        ensures
            *r == self.spec_value(),
    {
        match self {
            MaybeOwned::Borrowed(b) => b,
            MaybeOwned::Owned(o) => o,
        }
    }
}

/// Copy-on-write adapter: every operation delegates to the held value's
/// implementation through the borrowed view, without branching on which
/// variant is held. In particular `encode` routes through
/// `encode_by_ref` on the view, never through `encode` on the owned
/// value: consuming the wrapper does not mean the underlying owned data
/// may be consumed.
impl<'a, DB: Database, T: Encode<DB>> Encode<DB> for MaybeOwned<'a, T> {
    open spec fn spec_encoding(&self) -> Seq<u8> {
        self.spec_value().spec_encoding()
    }

    open spec fn spec_is_null(&self) -> bool {
        self.spec_value().spec_is_null()
    }

    open spec fn spec_produces(&self) -> Option<DB::TypeInfo> {
        self.spec_value().spec_produces()
    }

    open spec fn spec_size_hint(&self) -> usize {
        self.spec_value().spec_size_hint()
    }

    proof fn lemma_null_encodes_empty(&self) {
        match self {
            MaybeOwned::Borrowed(b) => b.lemma_null_encodes_empty(),
            MaybeOwned::Owned(o) => o.lemma_null_encodes_empty(),
        }
    }

    fn encode(self, buf: &mut DB::ArgumentBuffer) -> (r: IsNull) {
        T::encode_by_ref(self.as_value(), buf)
    }

    fn encode_by_ref(&self, buf: &mut DB::ArgumentBuffer) -> (r: IsNull) {
        T::encode_by_ref(self.as_value(), buf)
    }

    fn produces(&self) -> (r: Option<DB::TypeInfo>) {
        T::produces(self.as_value())
    }

    fn size_hint(&self) -> (r: usize) {
        T::size_hint(self.as_value())
    }
}

} // verus!
