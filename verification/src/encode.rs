use crate::database::{Database, Type};
use vstd::prelude::*;

verus! {

/// The result of [`Encode::encode`]: whether the value wrote no data
/// because it is logically absent (SQL NULL).
#[derive(Clone, Copy, Debug, PartialEq, Eq, Structural)]
pub enum IsNull {
    /// The value is null; no data was written.
    Yes,
    /// The value is not null.
    ///
    /// This does not mean that data was written: a zero-length non-null
    /// value is legal.
    No,
}

/// Encode a single value to be sent to the database.
///
/// An implementation describes itself with three spec functions: the
/// bytes the value appends ([`Encode::spec_encoding`]), whether it
/// signals null ([`Encode::spec_is_null`]), and the descriptor it
/// reports ([`Encode::spec_produces`]). Both encoding methods promise
/// the same appended bytes and the same signal, so encoding by value
/// and by reference can never be observed to differ.
pub trait Encode<DB: Database>: Sized {
    /// The bytes this value appends to the buffer.
    spec fn spec_encoding(&self) -> Seq<u8>;

    /// Whether this value signals SQL NULL.
    spec fn spec_is_null(&self) -> bool;

    /// The value-dependent type descriptor `produces` reports; by
    /// default there is none.
    open spec fn spec_produces(&self) -> Option<DB::TypeInfo> {
        None
    }

    /// The size estimate `size_hint` reports; by default the in-memory
    /// size of the value.
    open spec fn spec_size_hint(&self) -> usize {
        vstd::layout::size_of_as_usize::<Self>()
    }

    /// A value that signals null appends no bytes: an implementation
    /// must not both signal null and write data.
    proof fn lemma_null_encodes_empty(&self)
        ensures
            self.spec_is_null() ==> self.spec_encoding().len() == 0,
    ;

    /// Writes the value of `self` into `buf` without moving `self`,
    /// appending exactly `self.spec_encoding()` and leaving the prior
    /// contents untouched.
    fn encode_by_ref(&self, buf: &mut DB::ArgumentBuffer) -> (r: IsNull)
        ensures
            DB::buffer_view(*final(buf)) == DB::buffer_view(*old(buf)) + self.spec_encoding(),
            r is Yes <==> self.spec_is_null(),
    ;

    /// Writes the value of `self` into `buf`. Its contract is the same
    /// as that of `encode_by_ref`: on equal inputs the two append equal
    /// bytes and return equal signals, and an implementation that
    /// overrides this method for move-based reuse must preserve that.
    fn encode(self, buf: &mut DB::ArgumentBuffer) -> (r: IsNull)
        ensures
            DB::buffer_view(*final(buf)) == DB::buffer_view(*old(buf)) + self.spec_encoding(),
            r is Yes <==> self.spec_is_null(),
    {
        self.encode_by_ref(buf)
    }

    /// Reports a value-dependent type descriptor, for backends that
    /// need explicit out-of-band parameter typing. Side-effect-free and
    /// callable any number of times.
    fn produces(&self) -> (r: Option<DB::TypeInfo>)
        ensures
            r == self.spec_produces(),
    ;

    /// An estimate used to pre-size the buffer: a hint only, never an
    /// exact byte count of the wire format.
    fn size_hint(&self) -> (r: usize)
        ensures
            r == self.spec_size_hint(),
    ;
}

/// Reference delegation: a reference to an encodable value is itself
/// encodable. Every method forwards to the referent's `encode_by_ref` —
/// never back through the reference's own `encode` — since the
/// reference does not own the referent and must not consume it.
impl<'a, DB: Database, T: Encode<DB>> Encode<DB> for &'a T {
    open spec fn spec_encoding(&self) -> Seq<u8> {
        (**self).spec_encoding()
    }

    open spec fn spec_is_null(&self) -> bool {
        (**self).spec_is_null()
    }

    open spec fn spec_produces(&self) -> Option<DB::TypeInfo> {
        (**self).spec_produces()
    }

    open spec fn spec_size_hint(&self) -> usize {
        (**self).spec_size_hint()
    }

    proof fn lemma_null_encodes_empty(&self) {
        (**self).lemma_null_encodes_empty();
    }

    fn encode(self, buf: &mut DB::ArgumentBuffer) -> (r: IsNull) {
        T::encode_by_ref(self, buf)
    }

    fn encode_by_ref(&self, buf: &mut DB::ArgumentBuffer) -> (r: IsNull) {
        T::encode_by_ref(*self, buf)
    }

    fn produces(&self) -> (r: Option<DB::TypeInfo>) {
        T::produces(*self)
    }

    fn size_hint(&self) -> (r: usize) {
        T::size_hint(*self)
    }
}

/// Optional-value adapter: a present value delegates to the inner
/// implementation; an absent one signals null, writes nothing, and
/// reports the statically registered descriptor of the inner type.
impl<DB: Database, T: Encode<DB> + Type<DB>> Encode<DB> for Option<T> {
    open spec fn spec_encoding(&self) -> Seq<u8> {
        match self {
            Some(v) => v.spec_encoding(),
            None => Seq::empty(),
        }
    }

    open spec fn spec_is_null(&self) -> bool {
        match self {
            Some(v) => v.spec_is_null(),
            None => true,
        }
    }

    open spec fn spec_produces(&self) -> Option<DB::TypeInfo> {
        match self {
            Some(v) => v.spec_produces(),
            None => Some(T::spec_type_info()),
        }
    }

    open spec fn spec_size_hint(&self) -> usize {
        match self {
            Some(v) => v.spec_size_hint(),
            None => 0,
        }
    }

    proof fn lemma_null_encodes_empty(&self) {
        match self {
            Some(v) => v.lemma_null_encodes_empty(),
            None => (),
        }
    }

    fn encode(self, buf: &mut DB::ArgumentBuffer) -> (r: IsNull) {
        match self {
            Some(v) => v.encode(buf),
            None => {
                proof {
                    assert(DB::buffer_view(*buf) + Seq::<u8>::empty() =~= DB::buffer_view(*buf));
                }
                IsNull::Yes
            },
        }
    }

    fn encode_by_ref(&self, buf: &mut DB::ArgumentBuffer) -> (r: IsNull) {
        match self {
            Some(v) => v.encode_by_ref(buf),
            None => {
                proof {
                    assert(DB::buffer_view(*buf) + Seq::<u8>::empty() =~= DB::buffer_view(*buf));
                }
                IsNull::Yes
            },
        }
    }

    fn produces(&self) -> (r: Option<DB::TypeInfo>) {
        match self {
            Some(v) => v.produces(),
            None => Some(T::type_info()),
        }
    }

    fn size_hint(&self) -> (r: usize) {
        match self {
            Some(v) => v.size_hint(),
            None => 0,
        }
    }
}

} // verus!
