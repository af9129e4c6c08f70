//! The unified error taxonomy for RPC interactions.
//!
//! A call can fail in exactly three ways: while serializing the input
//! (`Encode`), while the handler executes the dispatched request
//! (`Execution`), or while deserializing the handler's response (`Decode`).
//! No other failure source exists in this core, and one call raises at most
//! one of them.
use vstd::prelude::*;

verus! {

/// A serialization failure: the input message could not be turned into bytes.
#[derive(Debug)]
pub struct EncodeFault {
    /// A human-readable description of the failure.
    pub detail: String,
}

/// A deserialization failure: a byte buffer was malformed or truncated
/// relative to the expected schema.
#[derive(Debug)]
pub struct DecodeFault {
    /// A human-readable description of the failure.
    pub detail: String,
}

/// An error has occurred, parameterized over the handler's own
/// execution-error kind `E`.
#[derive(Debug)]
#[allow(inconsistent_fields)]
pub enum Error<E> {
    /// An error occurred during the execution of an RPC transfer mechanism
    /// or endpoint.
    Execution {
        /// The underlying execution error.
        error: E,
    },
    /// An error occurred while decoding the response.
    Decode {
        /// The underlying decode error.
        error: DecodeFault,
    },
    /// An error occurred while encoding the request.
    Encode {
        /// The underlying encode error.
        error: EncodeFault,
    },
}

/// A convenience type alias for a `Result` whose error is `Error<E>`.
pub type CallResult<A, E> = core::result::Result<A, Error<E>>;

impl<E> Error<E> {
    /// Constructs a new execution error.
    pub fn execution(error: E) -> (r: Self)
        ensures
            r == (Error::Execution { error }),
    {
        Error::Execution { error }
    }
}

impl<E> core::convert::From<DecodeFault> for Error<E> {
    /// Wraps a decode failure in the unified error type.
    fn from(error: DecodeFault) -> (r: Self)
        ensures
            r == (Error::<E>::Decode { error }),
    {
        Error::Decode { error }
    }
}

impl<E> vstd::std_specs::convert::FromSpecImpl<DecodeFault> for Error<E> {
    open spec fn obeys_from_spec() -> bool {
        true
    }

    open spec fn from_spec(error: DecodeFault) -> Self {
        Error::Decode { error }
    }
}

impl<E> core::convert::From<EncodeFault> for Error<E> {
    /// Wraps an encode failure in the unified error type.
    fn from(error: EncodeFault) -> (r: Self)
        ensures
            r == (Error::<E>::Encode { error }),
    {
        Error::Encode { error }
    }
}

impl<E> vstd::std_specs::convert::FromSpecImpl<EncodeFault> for Error<E> {
    open spec fn obeys_from_spec() -> bool {
        true
    }

    open spec fn from_spec(error: EncodeFault) -> Self {
        Error::Encode { error }
    }
}

} // verus!
