use crate::byte_backend::ByteBackend;
use crate::database::{Database, Type};
use crate::encode::{Encode, IsNull};
use crate::maybe_owned::MaybeOwned;
use vstd::prelude::*;

verus! {

/// Equivalence law: encoding by value and encoding by reference,
/// started on equal buffer contents, leave equal buffer contents and
/// return equal null signals. The `requires` clauses are exactly the
/// postconditions of `Encode::encode` and `Encode::encode_by_ref`.
pub proof fn lemma_encode_equivalence<DB: Database, T: Encode<DB>>(
    v: T,
    pre: Seq<u8>,
    by_val_view: Seq<u8>,
    by_val_sig: IsNull,
    by_ref_view: Seq<u8>,
    by_ref_sig: IsNull,
)
    requires
        by_val_view == pre + v.spec_encoding(),
        by_val_sig is Yes <==> v.spec_is_null(),
        by_ref_view == pre + v.spec_encoding(),
        by_ref_sig is Yes <==> v.spec_is_null(),
    ensures
        by_val_view == by_ref_view,
        by_val_sig == by_ref_sig,
{
}

/// A value that signals null leaves the buffer exactly as it was.
pub proof fn lemma_null_leaves_buffer_unchanged<DB: Database, T: Encode<DB>>(v: &T, pre: Seq<u8>)
    requires
        v.spec_is_null(),
    ensures
        pre + v.spec_encoding() == pre,
{
    v.lemma_null_encodes_empty();
    assert(pre + v.spec_encoding() =~= pre);
}

/// Encoding an absent optional value signals null and appends zero
/// bytes: the buffer contents stay exactly as they were.
pub proof fn lemma_optional_absent<DB: Database, T: Encode<DB> + Type<DB>>(pre: Seq<u8>)
    ensures
        <Option<T> as Encode<DB>>::spec_is_null(&None::<T>),
        <Option<T> as Encode<DB>>::spec_encoding(&None::<T>).len() == 0,
        pre + <Option<T> as Encode<DB>>::spec_encoding(&None::<T>) == pre,
{
    assert(pre + <Option<T> as Encode<DB>>::spec_encoding(&None::<T>) =~= pre);
}

/// Encoding a present optional value equals encoding the inner value
/// directly: same bytes, same null signal.
pub proof fn lemma_optional_present<DB: Database, T: Encode<DB> + Type<DB>>(v: T)
    ensures
        <Option<T> as Encode<DB>>::spec_encoding(&Some(v)) == v.spec_encoding(),
        <Option<T> as Encode<DB>>::spec_is_null(&Some(v)) == v.spec_is_null(),
        <Option<T> as Encode<DB>>::spec_produces(&Some(v)) == v.spec_produces(),
        <Option<T> as Encode<DB>>::spec_size_hint(&Some(v)) == v.spec_size_hint(),
{
}

/// `produces` on an absent optional value reports the statically
/// registered descriptor of the inner type.
pub proof fn lemma_optional_produces_absent<DB: Database, T: Encode<DB> + Type<DB>>()
    ensures
        <Option<T> as Encode<DB>>::spec_produces(&None::<T>) == Some(T::spec_type_info()),
{
}

/// Reference transparency: a reference encodes exactly as its referent
/// does, and reports the same descriptor and size hint.
pub proof fn lemma_reference_transparent<DB: Database, T: Encode<DB>>(v: &T)
    ensures
        <&T as Encode<DB>>::spec_encoding(&v) == v.spec_encoding(),
        <&T as Encode<DB>>::spec_is_null(&v) == v.spec_is_null(),
        <&T as Encode<DB>>::spec_produces(&v) == v.spec_produces(),
        <&T as Encode<DB>>::spec_size_hint(&v) == v.spec_size_hint(),
{
}

/// Copy-on-write transparency: a borrowed-view wrapper and an
/// owned-value wrapper holding equal values encode identically, and
/// report the same descriptor and size hint.
pub proof fn lemma_cow_transparent<'a, DB: Database, T: Encode<DB>>(b: &'a T, o: T)
    requires
        *b == o,
    ensures
        <MaybeOwned<'a, T> as Encode<DB>>::spec_encoding(&MaybeOwned::Borrowed(b))
            == <MaybeOwned<'a, T> as Encode<DB>>::spec_encoding(&MaybeOwned::Owned(o)),
        <MaybeOwned<'a, T> as Encode<DB>>::spec_is_null(&MaybeOwned::Borrowed(b))
            == <MaybeOwned<'a, T> as Encode<DB>>::spec_is_null(&MaybeOwned::Owned(o)),
        <MaybeOwned<'a, T> as Encode<DB>>::spec_produces(&MaybeOwned::Borrowed(b))
            == <MaybeOwned<'a, T> as Encode<DB>>::spec_produces(&MaybeOwned::Owned(o)),
        <MaybeOwned<'a, T> as Encode<DB>>::spec_size_hint(&MaybeOwned::Borrowed(b))
            == <MaybeOwned<'a, T> as Encode<DB>>::spec_size_hint(&MaybeOwned::Owned(o)),
{
}

/// Size-hint default: a type that keeps the default `spec_size_hint`
/// reports the in-memory size of the value. Shown on the byte backend's
/// integer encoder, whose size hint is therefore four bytes.
pub proof fn lemma_size_hint_default(v: i32)
    ensures
        <i32 as Encode<ByteBackend>>::spec_size_hint(&v) as nat == vstd::layout::size_of::<i32>(),
        <i32 as Encode<ByteBackend>>::spec_size_hint(&v) == 4,
{
    broadcast use vstd::layout::layout_of_primitives;

}

} // verus!
