use encode_core::byte_backend::{ByteBackend, ByteBuffer, SqlType};
use encode_core::encode::{Encode, IsNull};
use encode_core::maybe_owned::MaybeOwned;

#[test]
fn absent_option_writes_nothing() {
    let mut buf = ByteBuffer::new();
    let r = <Option<i32> as Encode<ByteBackend>>::encode(None, &mut buf);
    assert_eq!(r, IsNull::Yes);
    assert_eq!(buf.len(), 0);
    assert_eq!(buf.as_bytes(), &Vec::<u8>::new());
}

#[test]
fn absent_option_leaves_prior_contents_untouched() {
    let mut buf = ByteBuffer::new();
    let _ = <i32 as Encode<ByteBackend>>::encode(9, &mut buf);
    let before = buf.as_bytes().clone();
    let r = <Option<i32> as Encode<ByteBackend>>::encode_by_ref(&None, &mut buf);
    assert_eq!(r, IsNull::Yes);
    assert_eq!(buf.as_bytes(), &before);
}

#[test]
fn present_option_writes_canonical_bytes() {
    let mut buf = ByteBuffer::new();
    let r = <Option<i32> as Encode<ByteBackend>>::encode(Some(5), &mut buf);
    assert_eq!(r, IsNull::No);
    assert_eq!(buf.as_bytes(), &vec![5u8, 0, 0, 0]);
}

#[test]
fn present_option_equals_direct_encoding() {
    let mut direct = ByteBuffer::new();
    let r_direct = <i32 as Encode<ByteBackend>>::encode(5, &mut direct);
    let mut wrapped = ByteBuffer::new();
    let r_wrapped = <Option<i32> as Encode<ByteBackend>>::encode(Some(5), &mut wrapped);
    assert_eq!(r_direct, r_wrapped);
    assert_eq!(direct.as_bytes(), wrapped.as_bytes());
}

#[test]
fn encode_and_encode_by_ref_agree() {
    let mut by_val = ByteBuffer::new();
    let r_val = <i32 as Encode<ByteBackend>>::encode(-123456, &mut by_val);
    let mut by_ref = ByteBuffer::new();
    let r_ref = <i32 as Encode<ByteBackend>>::encode_by_ref(&-123456, &mut by_ref);
    assert_eq!(r_val, r_ref);
    assert_eq!(by_val.as_bytes(), by_ref.as_bytes());

    let mut opt_val = ByteBuffer::new();
    let r_opt_val = <Option<i32> as Encode<ByteBackend>>::encode(Some(77), &mut opt_val);
    let mut opt_ref = ByteBuffer::new();
    let r_opt_ref = <Option<i32> as Encode<ByteBackend>>::encode_by_ref(&Some(77), &mut opt_ref);
    assert_eq!(r_opt_val, r_opt_ref);
    assert_eq!(opt_val.as_bytes(), opt_ref.as_bytes());
}

#[test]
fn reference_encodes_as_referent() {
    let v: i32 = 42;
    let mut direct = ByteBuffer::new();
    let r_direct = <i32 as Encode<ByteBackend>>::encode_by_ref(&v, &mut direct);
    let mut via_ref = ByteBuffer::new();
    let r_via_ref = <&i32 as Encode<ByteBackend>>::encode(&v, &mut via_ref);
    assert_eq!(r_direct, r_via_ref);
    assert_eq!(direct.as_bytes(), via_ref.as_bytes());

    let mut via_ref_by_ref = ByteBuffer::new();
    let r2 = <&i32 as Encode<ByteBackend>>::encode_by_ref(&&v, &mut via_ref_by_ref);
    assert_eq!(r_direct, r2);
    assert_eq!(direct.as_bytes(), via_ref_by_ref.as_bytes());
}

#[test]
fn cow_borrowed_and_owned_agree() {
    let v: i32 = -7;
    let borrowed: MaybeOwned<i32> = MaybeOwned::Borrowed(&v);
    let owned: MaybeOwned<i32> = MaybeOwned::Owned(-7);
    let mut b_buf = ByteBuffer::new();
    let r_b = <MaybeOwned<i32> as Encode<ByteBackend>>::encode_by_ref(&borrowed, &mut b_buf);
    let mut o_buf = ByteBuffer::new();
    let r_o = <MaybeOwned<i32> as Encode<ByteBackend>>::encode(owned, &mut o_buf);
    assert_eq!(r_b, r_o);
    assert_eq!(b_buf.as_bytes(), o_buf.as_bytes());
    assert_eq!(b_buf.as_bytes(), &vec![0xf9u8, 0xff, 0xff, 0xff]);
}

#[test]
fn produces_on_absent_reports_static_type() {
    let p = <Option<i32> as Encode<ByteBackend>>::produces(&None);
    assert_eq!(p, Some(SqlType::Int4));
}

#[test]
fn produces_on_present_delegates_to_inner() {
    let p = <Option<i32> as Encode<ByteBackend>>::produces(&Some(5));
    assert_eq!(p, None);
    let direct = <i32 as Encode<ByteBackend>>::produces(&5);
    assert_eq!(p, direct);
}

#[test]
fn size_hint_default_is_memory_size() {
    assert_eq!(<i32 as Encode<ByteBackend>>::size_hint(&5), std::mem::size_of::<i32>());
    assert_eq!(<i32 as Encode<ByteBackend>>::size_hint(&5), 4);
}

#[test]
fn size_hint_delegates_through_adapters() {
    assert_eq!(<Option<i32> as Encode<ByteBackend>>::size_hint(&None), 0);
    assert_eq!(<Option<i32> as Encode<ByteBackend>>::size_hint(&Some(5)), 4);
    assert_eq!(<&i32 as Encode<ByteBackend>>::size_hint(&&5), 4);
    let v: i32 = 5;
    let w: MaybeOwned<i32> = MaybeOwned::Borrowed(&v);
    assert_eq!(<MaybeOwned<i32> as Encode<ByteBackend>>::size_hint(&w), 4);
}

#[test]
fn integer_bytes_are_little_endian() {
    let mut buf = ByteBuffer::new();
    let r = <i32 as Encode<ByteBackend>>::encode(0x0403_0201, &mut buf);
    assert_eq!(r, IsNull::No);
    assert_eq!(buf.as_bytes(), &vec![1u8, 2, 3, 4]);

    let mut neg = ByteBuffer::new();
    let _ = <i32 as Encode<ByteBackend>>::encode(-1, &mut neg);
    assert_eq!(neg.as_bytes(), &vec![0xffu8, 0xff, 0xff, 0xff]);

    let mut min = ByteBuffer::new();
    let _ = <i32 as Encode<ByteBackend>>::encode(i32::MIN, &mut min);
    assert_eq!(min.as_bytes(), &vec![0u8, 0, 0, 0x80]);
}

#[test]
fn successive_encodes_append() {
    let mut buf = ByteBuffer::new();
    let _ = <i32 as Encode<ByteBackend>>::encode(5, &mut buf);
    let _ = <i32 as Encode<ByteBackend>>::encode(6, &mut buf);
    assert_eq!(buf.as_bytes(), &vec![5u8, 0, 0, 0, 6, 0, 0, 0]);
    assert_eq!(buf.len(), 8);
}
