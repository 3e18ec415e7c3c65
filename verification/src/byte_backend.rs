use crate::database::{Database, Type};
use crate::encode::{Encode, IsNull};
use vstd::prelude::*;

verus! {

/// An append-only buffer of wire-format bytes. Encoding appends to it
/// and never reads or replaces what was written before.
pub struct ByteBuffer {
    bytes: Vec<u8>,
}

impl View for ByteBuffer {
    type V = Seq<u8>;

    closed spec fn view(&self) -> Seq<u8> {
        self.bytes@
    }
}

impl ByteBuffer {
    /// An empty buffer.
    pub fn new() -> (r: ByteBuffer)
        ensures
            r@ == Seq::<u8>::empty(),
    {
        ByteBuffer { bytes: Vec::new() }
    }

    /// Appends one byte.
    pub fn push(&mut self, b: u8)
        ensures
            final(self)@ == old(self)@.push(b),
    {
        self.bytes.push(b);
    }

    /// The bytes written so far, in order.
    pub fn as_bytes(&self) -> (r: &Vec<u8>)
        ensures
            r@ == self@,
    {
        &self.bytes
    }

    /// How many bytes have been written.
    pub fn len(&self) -> (r: usize)
        ensures
            r == self@.len(),
    {
        self.bytes.len()
    }
}

/// A minimal backend whose argument buffer is a flat byte vector and
/// whose canonical integer layout is little-endian.
pub struct ByteBackend;

/// The backend's SQL type descriptor.
#[derive(Clone, Copy, Debug, PartialEq, Eq, Structural)]
pub enum SqlType {
    /// A 4-byte signed integer.
    Int4,
}

impl Database for ByteBackend {
    type ArgumentBuffer = ByteBuffer;

    type TypeInfo = SqlType;

    open spec fn buffer_view(buf: ByteBuffer) -> Seq<u8> {
        buf@
    }
}

/// The four little-endian bytes of the 32-bit two's-complement
/// representation of `v`: the backend's canonical layout for `i32`.
pub open spec fn le_bytes_of_i32(v: i32) -> Seq<u8> {
    seq![
        ((v as u32) & 0xff) as u8,
        (((v as u32) >> 8) & 0xff) as u8,
        (((v as u32) >> 16) & 0xff) as u8,
        (((v as u32) >> 24) & 0xff) as u8,
    ]
}

/// A 32-bit integer is never null and encodes as its four little-endian
/// bytes.
impl Encode<ByteBackend> for i32 {
    open spec fn spec_encoding(&self) -> Seq<u8> {
        le_bytes_of_i32(*self)
    }

    open spec fn spec_is_null(&self) -> bool {
        false
    }

    proof fn lemma_null_encodes_empty(&self) {
    }

    fn encode_by_ref(&self, buf: &mut ByteBuffer) -> (r: IsNull) {
        let u: u32 = *self as u32;
        buf.push((u & 0xff) as u8);
        buf.push(((u >> 8) & 0xff) as u8);
        buf.push(((u >> 16) & 0xff) as u8);
        buf.push(((u >> 24) & 0xff) as u8);
        proof {
            assert(buf@ =~= old(buf)@ + le_bytes_of_i32(*self));
        }
        IsNull::No
    }

    fn produces(&self) -> (r: Option<SqlType>) {
        None
    }

    fn size_hint(&self) -> (r: usize) {
        core::mem::size_of::<i32>()
    }
}

impl Type<ByteBackend> for i32 {
    open spec fn spec_type_info() -> SqlType {
        SqlType::Int4
    }

    fn type_info() -> (r: SqlType) {
        SqlType::Int4
    }
}

} // verus!
