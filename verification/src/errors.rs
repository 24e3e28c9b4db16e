//! The error taxonomy: per-call failures and construction failures.
use vstd::prelude::*;
use crate::convert::TypeConversionError;

verus! {

/// A failure of one call against a live client. Such an error is the
/// operation's result, never fatal: the client stays usable afterwards.
#[derive(Clone, PartialEq, Debug)]
pub enum RequestError {
    /// The collaborator connection reported a protocol-level failure, such
    /// as a malformed command or a server-side error reply; the detail text
    /// is passed on verbatim.
    Protocol(String),
    /// The coercion engine could not reinterpret the reply as the type the
    /// command calls for.
    TypeConversion(TypeConversionError),
    /// The collaborator operation did not complete within the client's
    /// request timeout. The outcome at the store is unknown: the operation
    /// may still complete server-side.
    Timeout,
}

/// A failure while a client is being constructed.
#[derive(Clone, PartialEq, Debug)]
pub enum ConnectionError {
    /// The single-node connection could not be established.
    Standalone(String),
    /// The cluster connection could not be established.
    Cluster(String),
    /// The overall construction deadline passed; this supersedes any partial
    /// failure and abandons the attempt.
    Timeout,
}

/// The human-readable text of a coercion failure.
pub open spec fn type_conversion_message(e: TypeConversionError) -> Seq<char> {
    match e {
        TypeConversionError::OddMapLength => "Response has odd number of items, and cannot be entered into a map"@,
        TypeConversionError::UnexpectedMapShape => "Response couldn't be converted to map"@,
        TypeConversionError::NotDouble => "Response type not convertible to a double"@,
        TypeConversionError::NotBoolean => "Response type not bool compatible"@,
    }
}

impl TypeConversionError {
    /// The human-readable text of the coercion failure.
    pub fn message(&self) -> (r: &'static str)
        ensures
            r@ == type_conversion_message(*self),
    {
        match self {
            TypeConversionError::OddMapLength => "Response has odd number of items, and cannot be entered into a map",
            TypeConversionError::UnexpectedMapShape => "Response couldn't be converted to map",
            TypeConversionError::NotDouble => "Response type not convertible to a double",
            TypeConversionError::NotBoolean => "Response type not bool compatible",
        }
    }
}

impl RequestError {
    /// The human-readable text of the failure.
    pub fn message(&self) -> (r: String)
        ensures
            match self {
                RequestError::Protocol(d) => r@ == d@,
                RequestError::TypeConversion(e) => r@ == type_conversion_message(*e),
                RequestError::Timeout => r@ == "request timed out"@,
            },
    {
        match self {
            RequestError::Protocol(d) => d.clone(),
            RequestError::TypeConversion(e) => e.message().to_owned(),
            RequestError::Timeout => "request timed out".to_owned(),
        }
    }
}

impl ConnectionError {
    /// The human-readable text of the failure.
    pub fn message(&self) -> (r: String)
        ensures
            match self {
                ConnectionError::Standalone(d) => r@ == d@,
                ConnectionError::Cluster(d) => r@ == d@,
                ConnectionError::Timeout => r@ == "connection attempt timed out"@,
            },
    {
        match self {
            ConnectionError::Standalone(d) => d.clone(),
            ConnectionError::Cluster(d) => d.clone(),
            ConnectionError::Timeout => "connection attempt timed out".to_owned(),
        }
    }
}

} // verus!
