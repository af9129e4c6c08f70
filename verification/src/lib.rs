//! Client-side call driver for a code-generated RPC layer.
//!
//! Given an input message, a transport-agnostic call handler and a method
//! identifier, the driver serializes the input, dispatches it through the
//! handler, awaits the handler's response and deserializes the result,
//! surfacing any failure through a unified error type.
//!
//! The pieces: [`codec`] states the contract a message type must satisfy,
//! [`handler`] the capability a transport must satisfy, [`error`] the
//! closed taxonomy of call failures, and [`rt`] the call lifecycle state
//! machine that drives one request across its single suspension point.
//! [`message`] supplies concrete messages with a verified wire codec, and
//! [`local`] in-process handlers whose behaviour is exactly pinned.

pub mod codec;
pub mod error;
pub mod handler;
pub mod local;
pub mod message;
pub mod rt;
pub mod task;

pub use task::Poll;
