//! The codec contract a message type must satisfy.
//!
//! The call driver is generic over the schema: any message type that can say
//! what its serialized form is, produce it, and read it back may travel
//! through a call. The contract is stated against two mathematical views of
//! the schema: `encoding`, the byte sequence a message serializes to, and
//! `parse`, the partial function from byte sequences back to messages.
use vstd::prelude::*;

use crate::error::{DecodeFault, EncodeFault};

verus! {

/// A structured message that can be carried through an RPC call.
///
/// Implementors fix a schema: `encoding` gives the serialized form of each
/// message, `parse` says which byte buffers deserialize, and to what. The
/// schema must be self-consistent: a message's own encoding parses back to
/// the message (`lemma_parse_encoding`), which is what makes a round trip
/// through an echoing transport the identity.
pub trait Message: Sized {
    /// The byte sequence this message serializes to.
    spec fn encoding(&self) -> Seq<u8>;

    /// Whether serialization of this message succeeds.
    spec fn encodable(&self) -> bool;

    /// The message, if any, that a byte buffer deserializes to.
    spec fn parse(buf: Seq<u8>) -> Option<Self>;

    /// The schema is self-consistent: an encoding parses back to its message.
    proof fn lemma_parse_encoding(&self)
        ensures
            Self::parse(self.encoding()) == Some(*self),
    ;

    /// The exact number of bytes `encode` produces for this message.
    fn encoded_len(&self) -> (n: usize)
        ensures
            n == self.encoding().len(),
    ;

    /// Serializes the message into a byte buffer sized exactly to its
    /// computed length; fails exactly when the message is not encodable.
    fn encode(&self) -> (r: Result<Vec<u8>, EncodeFault>)
        ensures
            match r {
                Ok(b) => self.encodable() && b@ == self.encoding(),
                Err(_) => !self.encodable(),
            },
    ;

    /// Deserializes a byte buffer; succeeds with `m` exactly when the buffer
    /// parses to `m`, and fails exactly when the buffer is malformed or
    /// truncated relative to the schema.
    fn decode(buf: &[u8]) -> (r: Result<Self, DecodeFault>)
        ensures
            match Self::parse(buf@) {
                Some(m) => r matches Ok(o) && o == m,
                None => r matches Err(_),
            },
    ;
}

} // verus!
