//! A generic value-encoding abstraction for query parameters.
//!
//! A value of any type is turned into the wire-level representation a
//! database backend expects, without the encoding logic knowing the
//! backend's concrete buffer layout. The core is the [`encode::Encode`]
//! capability together with its null-signaling result
//! [`encode::IsNull`]; around it stand delegating implementations for
//! references, optional values, and borrowed-or-owned wrappers, and a
//! small byte-vector backend that instantiates the abstraction.

pub mod byte_backend;
pub mod database;
pub mod encode;
pub mod laws;
pub mod maybe_owned;
