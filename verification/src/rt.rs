//! The call lifecycle state machine: encode, dispatch, decode.
//!
//! A `ClientFuture` drives one request. It is constructed from a handler, an
//! input message and a method identifier, and is resumed by its scheduler
//! until it yields a final typed result or error. State transitions are
//! strictly forward — `Encode` to `Call` to `Done` — and each transition
//! consumes the held values of the previous state exactly once: every
//! resumption extracts the current state by value and atomically replaces it
//! with the next one, so no intermediate state is ever observable.
use core::marker::PhantomData;
use vstd::pervasive::unreached;
use vstd::prelude::*;

use crate::codec::Message;
use crate::error::{CallResult, Error};
use crate::handler::{response_view, Handler};
use crate::task::Poll;

verus! {

/// Relates a handler response to the final result of the call concluded
/// from it: successful bytes that parse yield the parsed output, successful
/// bytes that do not parse yield a `Decode` error, and a handler failure
/// yields an `Execution` error wrapping it — never anything else.
pub open spec fn step_result<O: Message, E>(
    response: Result<Seq<u8>, E>,
    result: CallResult<O, E>,
) -> bool {
    match response {
        Ok(bytes) => match O::parse(bytes) {
            Some(o) => result matches Ok(out) && out == o,
            None => result matches Err(e) && e is Decode,
        },
        Err(e) => result matches Err(err) && err == (Error::Execution { error: e }),
    }
}

/// A future returned by a client call.
pub enum ClientFuture<H: Handler, I, O> {
    /// The message has not yet been encoded: the input, the handler and the
    /// method identifier are each held exactly once.
    Encode(I, H, H::Method),
    /// The request was dispatched; the handler's operation is in flight.
    /// Ghost copies of the handler, the method and the request bytes record
    /// on whose behalf, so that the contract of `poll` can speak of them.
    Call(H::Op, Ghost<H>, Ghost<H::Method>, Ghost<Seq<u8>>),
    /// We have returned the response to the caller; resuming again is a
    /// broken scheduler contract.
    Done(PhantomData<O>),
}

impl<H: Handler, I: Message, O: Message> ClientFuture<H, I, O> {
    /// In-flight well-formedness: the operation is still live, and every
    /// outcome it may yield is a response the recorded handler may give to
    /// the recorded request.
    pub open spec fn inv(self) -> bool {
        match self {
            ClientFuture::Call(op, h, m, req) => H::op_live(op) && forall|
                response: Result<Seq<u8>, H::Error>,
            |
                #[trigger] H::op_may_yield(op, response) ==> h@.may_respond(m@, req@, response),
            _ => true,
        }
    }

    /// The machine is in flight on behalf of handler `h`, method `m` and
    /// request bytes `req`.
    pub open spec fn in_flight_for(self, h: H, m: H::Method, req: Seq<u8>) -> bool {
        self matches ClientFuture::Call(_, gh, gm, greq) && gh@ == h && gm@ == m && greq@ == req
    }

    /// Constructs the state machine in its initial, pending-encode state.
    pub fn new(handler: H, input: I, method: H::Method) -> (r: Self)
        ensures
            r == ClientFuture::<H, I, O>::Encode(input, handler, method),
    {
        ClientFuture::Encode(input, handler, method)
    }

    /// Whether the machine has yielded its final result; resuming it once
    /// this holds is a contract violation on the scheduler's part.
    pub fn is_complete(&self) -> (r: bool)
        ensures
            r == (*self is Done),
    {
        match self {
            ClientFuture::Done(_) => true,
            _ => false,
        }
    }

    /// Concludes the call from the completed operation's outcome: decode the
    /// response bytes on success, wrap the handler's error on failure.
    fn conclude(out: Result<Vec<u8>, H::Error>) -> (r: CallResult<O, H::Error>)
        ensures
            step_result::<O, H::Error>(response_view(out), r),
    {
        match out {
            Ok(bytes) => match O::decode(bytes.as_slice()) {
                Ok(o) => Ok(o),
                Err(error) => Err(Error::Decode { error }),
            },
            Err(error) => Err(Error::execution(error)),
        }
    }

    /// Resumes the call lifecycle once.
    ///
    /// From the pending-encode state this encodes the input; an encode
    /// failure terminates the call at once with an `Encode` error and the
    /// handler is never invoked. On success the handler is invoked with the
    /// method and the encoded bytes, and the fresh operation is immediately
    /// driven in the same resumption. From the in-flight state the held
    /// operation is resumed: while it stays pending so does the call, and
    /// its outcome, once ready, is concluded into the final result — which
    /// is always one step-consistent with a response the handler may give
    /// to the encoded request.
    pub fn poll(&mut self) -> (r: Poll<CallResult<O, H::Error>>)
        requires
            !(*old(self) is Done),
            old(self).inv(),
        ensures
            final(self).inv(),
            match *old(self) {
                ClientFuture::Encode(input, handler, method) => {
                    if input.encodable() {
                        match r {
                            Poll::Pending => final(self).in_flight_for(
                                handler,
                                method,
                                input.encoding(),
                            ),
                            Poll::Ready(res) => *final(self) is Done && exists|
                                response: Result<Seq<u8>, H::Error>,
                            |
                                handler.may_respond(method, input.encoding(), response)
                                    && #[trigger] step_result::<O, H::Error>(response, res),
                        }
                    } else {
                        *final(self) is Done && (r matches Poll::Ready(Err(e)) && e is Encode)
                    }
                },
                ClientFuture::Call(_, gh, gm, greq) => match r {
                    Poll::Pending => final(self).in_flight_for(gh@, gm@, greq@),
                    Poll::Ready(res) => *final(self) is Done && exists|
                        response: Result<Seq<u8>, H::Error>,
                    |
                        gh@.may_respond(gm@, greq@, response) && #[trigger] step_result::<
                            O,
                            H::Error,
                        >(response, res),
                },
                ClientFuture::Done(_) => true,
            },
    {
        let mut cur = ClientFuture::Done(PhantomData);
        core::mem::swap(self, &mut cur);
        match cur {
            ClientFuture::Encode(input, handler, method) => {
                match input.encode() {
                    Err(error) => Poll::Ready(Err(Error::Encode { error })),
                    Ok(request) => {
                        let ghost gh = handler;
                        let ghost gm = method;
                        let ghost greq = request@;
                        let mut op = handler.call(method, request);
                        match H::poll_op(&mut op) {
                            Poll::Pending => {
                                *self = ClientFuture::Call(op, Ghost(gh), Ghost(gm), Ghost(greq));
                                Poll::Pending
                            },
                            Poll::Ready(out) => {
                                let ghost resp = response_view(out);
                                let res = Self::conclude(out);
                                proof {
                                    assert(gh.may_respond(gm, greq, resp));
                                    assert(step_result::<O, H::Error>(resp, res));
                                }
                                Poll::Ready(res)
                            },
                        }
                    },
                }
            },
            ClientFuture::Call(mut op, gh, gm, greq) => {
                match H::poll_op(&mut op) {
                    Poll::Pending => {
                        *self = ClientFuture::Call(op, gh, gm, greq);
                        Poll::Pending
                    },
                    Poll::Ready(out) => {
                        let ghost resp = response_view(out);
                        let res = Self::conclude(out);
                        proof {
                            assert(gh@.may_respond(gm@, greq@, resp));
                            assert(step_result::<O, H::Error>(resp, res));
                        }
                        Poll::Ready(res)
                    },
                }
            },
            ClientFuture::Done(_) => unreached(),
        }
    }
}

/// Encodes a particular message into a byte buffer sized exactly to its
/// computed length, lifting a failure into the unified error type.
pub fn encode<M: Message, E>(message: M) -> (r: CallResult<Vec<u8>, E>)
    ensures
        match r {
            Ok(b) => message.encodable() && b@ == message.encoding(),
            Err(err) => !message.encodable() && err is Encode,
        },
{
    match message.encode() {
        Ok(b) => Ok(b),
        Err(error) => Err(Error::Encode { error }),
    }
}

/// Decodes a particular message type from a byte buffer, lifting a failure
/// into the unified error type.
pub fn decode<M: Message, E>(buf: &[u8]) -> (r: CallResult<M, E>)
    ensures
        match M::parse(buf@) {
            Some(m) => r matches Ok(o) && o == m,
            None => r matches Err(err) && err is Decode,
        },
{
    match M::decode(buf) {
        Ok(m) => Ok(m),
        Err(error) => Err(Error::Decode { error }),
    }
}

/// Round-trip identity: when the handler echoed the encoded input back and
/// the call was concluded from that response, the typed result is the input
/// message itself.
pub proof fn lemma_echo_round_trip<M: Message, E>(m: M, result: CallResult<M, E>)
    requires
        step_result::<M, E>(Ok(m.encoding()), result),
    ensures
        result matches Ok(out) && out == m,
{
    m.lemma_parse_encoding();
}

/// A handler failure is surfaced exactly: a call concluded from the
/// response `Err(e)` yields `Execution` wrapping `e`, never another variant
/// and never a mangled error.
pub proof fn lemma_execution_failure<O: Message, E>(e: E, result: CallResult<O, E>)
    requires
        step_result::<O, E>(Err(e), result),
    ensures
        result == Err::<O, Error<E>>(Error::Execution { error: e }),
{
}

/// Success bytes that do not decode as the expected output type yield a
/// `Decode` error, never `Execution`.
pub proof fn lemma_undecodable_response<O: Message, E>(bytes: Seq<u8>, result: CallResult<O, E>)
    requires
        O::parse(bytes) is None,
        step_result::<O, E>(Ok(bytes), result),
    ensures
        result matches Err(e) && e is Decode,
        !(result matches Err(e) && e is Execution),
{
}

} // verus!
