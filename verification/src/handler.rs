//! The capability a transport implementation must satisfy.
//!
//! A handler can be an actual implementation of a service, or something that
//! will send a request over a network to fulfill it. Given a method
//! identifier and an encoded request it starts an asynchronous operation;
//! the operation is resumed until it yields either response bytes or a
//! handler-specific execution error.
//!
//! The behaviour of a handler is described by `may_respond`, the set of
//! responses it may give to a request, and of an in-flight operation by
//! `op_may_yield`, the set of outcomes it may still produce. A transport
//! whose outcome depends on the outside world leaves both loose; the
//! in-process handlers of this crate pin them down exactly.
use vstd::prelude::*;

use crate::task::Poll;

verus! {

/// The spec-level content of an operation's outcome: the response bytes as a
/// byte sequence.
pub open spec fn response_view<E>(out: Result<Vec<u8>, E>) -> Result<Seq<u8>, E> {
    match out {
        Ok(b) => Ok(b@),
        Err(e) => Err(e),
    }
}

/// An implementation of a specific RPC handler.
///
/// A handler instance is a cloneable capability bound to one service; it
/// owns no request-specific state and may be called multiple times by
/// distinct call lifecycle instances. Synchronization for concurrent
/// invocation, where a transport needs it, is the handler's own
/// responsibility: this core hands each started operation to exactly one
/// call lifecycle instance and resumes it from a single logical thread.
pub trait Handler: Sized + Clone {
    /// The type of errors that this handler might generate, beyond the
    /// unified RPC error type.
    type Error;

    /// The method identifier naming which remote operation to invoke;
    /// opaque to this core, which only holds and forwards it.
    type Method;

    /// The in-progress asynchronous operation a call starts.
    type Op;

    /// The responses this handler may give to a request on a method.
    spec fn may_respond(
        &self,
        method: Self::Method,
        request: Seq<u8>,
        response: Result<Seq<u8>, Self::Error>,
    ) -> bool;

    /// Whether the operation may still be resumed: it has not yet yielded
    /// its final outcome.
    spec fn op_live(op: Self::Op) -> bool;

    /// The outcomes an in-flight operation may still yield.
    spec fn op_may_yield(op: Self::Op, response: Result<Seq<u8>, Self::Error>) -> bool;

    /// Performs a raw call to the specified method: starts an operation
    /// whose every possible outcome is a response this handler may give to
    /// the request.
    fn call(&self, method: Self::Method, request: Vec<u8>) -> (op: Self::Op)
        ensures
            Self::op_live(op),
            forall|response: Result<Seq<u8>, Self::Error>|
                #[trigger] Self::op_may_yield(op, response) ==> self.may_respond(
                    method,
                    request@,
                    response,
                ),
    ;

    /// Resumes an in-flight operation once. While it stays pending it loses
    /// no possible outcome; when it completes, the outcome is one the
    /// operation could yield.
    fn poll_op(op: &mut Self::Op) -> (r: Poll<Result<Vec<u8>, Self::Error>>)
        requires
            Self::op_live(*old(op)),
        ensures
            match r {
                Poll::Pending => Self::op_live(*final(op)) && forall|
                    response: Result<Seq<u8>, Self::Error>,
                |
                    #[trigger] Self::op_may_yield(*final(op), response) ==> Self::op_may_yield(
                        *old(op),
                        response,
                    ),
                Poll::Ready(out) => Self::op_may_yield(*old(op), response_view(out)),
            },
    ;
}

} // verus!
