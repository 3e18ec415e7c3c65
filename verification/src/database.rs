use vstd::prelude::*;

verus! {

/// A database backend: names the backend's argument buffer type and its
/// SQL type descriptor, and gives the buffer a mathematical view as the
/// sequence of bytes it holds.
pub trait Database {
    /// The buffer into which query parameters are encoded.
    type ArgumentBuffer;

    /// Opaque backend-specific metadata identifying a SQL type.
    type TypeInfo;

    /// The bytes a buffer holds, in order. Contracts on encoding speak of
    /// buffers only through this view.
    spec fn buffer_view(buf: Self::ArgumentBuffer) -> Seq<u8>;
}

/// The statically known SQL type descriptor of a value type on backend
/// `DB`. The optional-value adapter falls back to it when there is no
/// value to introspect.
pub trait Type<DB: Database> {
    /// The descriptor that `type_info` returns.
    spec fn spec_type_info() -> DB::TypeInfo;

    /// The default SQL type descriptor for `Self` on this backend.
    fn type_info() -> (r: DB::TypeInfo)
        ensures
            r == Self::spec_type_info(),
    ;
}

} // verus!
