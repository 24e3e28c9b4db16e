//! The wire-level reply type and the per-command expected return type.
use vstd::prelude::*;

verus! {

/// A raw wire-level reply from the store, before any semantic coercion.
///
/// A floating-point reply is carried as the IEEE-754 bit pattern of the
/// 64-bit value, so that the coercion rules can be stated and checked over
/// plain integers; the boundary that talks to the store converts between the
/// bit pattern and the native representation.
#[derive(PartialEq, Debug)]
pub enum RawValue {
    /// A nil reply.
    Nil,
    /// An integer reply.
    Int(i64),
    /// A binary-safe string reply.
    Bulk(Vec<u8>),
    /// An array of further replies.
    Array(Vec<RawValue>),
    /// A key/value list reply.
    Mapping(Vec<(RawValue, RawValue)>),
    /// A floating-point reply, as the bit pattern of the 64-bit value.
    Double(u64),
    /// A boolean reply.
    Boolean(bool),
    /// An error message from the store.
    Error(Vec<u8>),
}

/// The semantic type a command's reply should be coerced to when the wire
/// format alone cannot express it.
#[derive(Clone, Copy, PartialEq, Eq, Structural, Debug)]
pub enum ExpectedReturnType {
    /// The reply is semantically a key/value map.
    Mapping,
    /// The reply is semantically a 64-bit floating-point number.
    Double,
    /// The reply is semantically a boolean.
    Boolean,
}

} // verus!
