//! In-process handlers with exactly pinned behaviour.
//!
//! A network transport leaves `may_respond` loose; these handlers pin it
//! down completely, which makes the lifecycle contract concrete: an echoing
//! handler forces the round-trip identity, a fixed-response handler forces
//! the decode outcome of its bytes, and a failing handler forces an
//! `Execution` error. Each operation can be made to stay pending for a
//! chosen number of resumptions, to exercise the suspension point.
use vstd::prelude::*;

use crate::codec::Message;
use crate::error::{CallResult, Error};
use crate::handler::Handler;
use crate::rt::{lemma_echo_round_trip, step_result};
use crate::task::Poll;

verus! {

/// An execution error reported by an in-process transport.
#[derive(Debug)]
pub struct TransportFault {
    /// A human-readable description of the fault.
    pub message: String,
}

impl Clone for TransportFault {
    /// Duplicates the fault, keeping its description.
    fn clone(&self) -> (r: Self)
        ensures
            r.message@ == self.message@,
    {
        TransportFault { message: self.message.as_str().to_owned() }
    }
}

/// Duplicates a byte buffer, keeping its contents.
fn copy_bytes(v: &Vec<u8>) -> (r: Vec<u8>)
    ensures
        r@ == v@,
{
    let r = v.clone();
    proof {
        assert forall|i: int| 0 <= i < v@.len() implies r@[i] == v@[i] by {
            assert(cloned::<u8>(v[i], r[i]));
        }
        assert(r@ =~= v@);
    }
    r
}

/// A handler that echoes each request's bytes back as the response.
#[derive(Clone, Copy, Debug)]
pub struct EchoHandler {
    /// How many resumptions each started operation stays pending for.
    pub delay: u64,
}

/// An in-flight operation of `EchoHandler`.
pub struct EchoOp {
    /// Resumptions left before the response is produced.
    pub remaining: u64,
    /// The response bytes, held until the operation completes.
    pub response: Option<Vec<u8>>,
}

impl Handler for EchoHandler {
    type Error = TransportFault;

    type Method = u64;

    type Op = EchoOp;

    /// Exactly one response: the request bytes, unchanged.
    open spec fn may_respond(
        &self,
        method: u64,
        request: Seq<u8>,
        response: Result<Seq<u8>, TransportFault>,
    ) -> bool {
        response == Ok::<Seq<u8>, TransportFault>(request)
    }

    open spec fn op_live(op: EchoOp) -> bool {
        op.response is Some
    }

    open spec fn op_may_yield(op: EchoOp, response: Result<Seq<u8>, TransportFault>) -> bool {
        op.response matches Some(b) && response == Ok::<Seq<u8>, TransportFault>(b@)
    }

    fn call(&self, method: u64, request: Vec<u8>) -> (op: EchoOp) {
        EchoOp { remaining: self.delay, response: Some(request) }
    }

    fn poll_op(op: &mut EchoOp) -> (r: Poll<Result<Vec<u8>, TransportFault>>) {
        if op.remaining > 0 {
            op.remaining = op.remaining - 1;
            Poll::Pending
        } else {
            match op.response.take() {
                Some(b) => Poll::Ready(Ok(b)),
                None => vstd::pervasive::unreached(),
            }
        }
    }
}

/// A handler that answers every request with one fixed byte buffer,
/// regardless of the request's contents.
#[derive(Debug)]
pub struct FixedHandler {
    /// The bytes every call responds with.
    pub response: Vec<u8>,
    /// How many resumptions each started operation stays pending for.
    pub delay: u64,
}

impl Clone for FixedHandler {
    /// Duplicates the handler, keeping its configured response and delay.
    fn clone(&self) -> (r: Self)
        ensures
            r.response@ == self.response@,
            r.delay == self.delay,
    {
        FixedHandler { response: copy_bytes(&self.response), delay: self.delay }
    }
}

/// An in-flight operation of `FixedHandler`.
pub struct FixedOp {
    /// Resumptions left before the response is produced.
    pub remaining: u64,
    /// The response bytes, held until the operation completes.
    pub response: Option<Vec<u8>>,
}

impl Handler for FixedHandler {
    type Error = TransportFault;

    type Method = u64;

    type Op = FixedOp;

    /// Exactly one response: the configured bytes.
    open spec fn may_respond(
        &self,
        method: u64,
        request: Seq<u8>,
        response: Result<Seq<u8>, TransportFault>,
    ) -> bool {
        response == Ok::<Seq<u8>, TransportFault>(self.response@)
    }

    open spec fn op_live(op: FixedOp) -> bool {
        op.response is Some
    }

    open spec fn op_may_yield(op: FixedOp, response: Result<Seq<u8>, TransportFault>) -> bool {
        op.response matches Some(b) && response == Ok::<Seq<u8>, TransportFault>(b@)
    }

    fn call(&self, method: u64, request: Vec<u8>) -> (op: FixedOp) {
        FixedOp { remaining: self.delay, response: Some(copy_bytes(&self.response)) }
    }

    fn poll_op(op: &mut FixedOp) -> (r: Poll<Result<Vec<u8>, TransportFault>>) {
        if op.remaining > 0 {
            op.remaining = op.remaining - 1;
            Poll::Pending
        } else {
            match op.response.take() {
                Some(b) => Poll::Ready(Ok(b)),
                None => vstd::pervasive::unreached(),
            }
        }
    }
}

/// A handler whose every call fails with one fixed execution error.
#[derive(Debug)]
pub struct FaultHandler {
    /// The fault every call reports.
    pub fault: TransportFault,
    /// How many resumptions each started operation stays pending for.
    pub delay: u64,
}

impl Clone for FaultHandler {
    /// Duplicates the handler, keeping its configured fault and delay.
    fn clone(&self) -> (r: Self)
        ensures
            r.fault.message@ == self.fault.message@,
            r.delay == self.delay,
    {
        FaultHandler { fault: self.fault.clone(), delay: self.delay }
    }
}

/// An in-flight operation of `FaultHandler`.
pub struct FaultOp {
    /// Resumptions left before the fault is reported.
    pub remaining: u64,
    /// The fault, held until the operation completes.
    pub fault: Option<TransportFault>,
}

impl Handler for FaultHandler {
    type Error = TransportFault;

    type Method = u64;

    type Op = FaultOp;

    /// Exactly one response: a failure whose description is the configured
    /// fault's.
    open spec fn may_respond(
        &self,
        method: u64,
        request: Seq<u8>,
        response: Result<Seq<u8>, TransportFault>,
    ) -> bool {
        response matches Err(f) && f.message@ == self.fault.message@
    }

    open spec fn op_live(op: FaultOp) -> bool {
        op.fault is Some
    }

    open spec fn op_may_yield(op: FaultOp, response: Result<Seq<u8>, TransportFault>) -> bool {
        op.fault matches Some(f) && (response matches Err(g) && g == f)
    }

    fn call(&self, method: u64, request: Vec<u8>) -> (op: FaultOp) {
        FaultOp { remaining: self.delay, fault: Some(self.fault.clone()) }
    }

    fn poll_op(op: &mut FaultOp) -> (r: Poll<Result<Vec<u8>, TransportFault>>) {
        if op.remaining > 0 {
            op.remaining = op.remaining - 1;
            Poll::Pending
        } else {
            match op.fault.take() {
                Some(f) => Poll::Ready(Err(f)),
                None => vstd::pervasive::unreached(),
            }
        }
    }
}

/// Round-trip identity through an echoing transport: any result the call
/// lifecycle can yield for input `m` against an `EchoHandler` is `Ok(m)`.
pub proof fn lemma_echo_yields_input<M: Message>(
    h: EchoHandler,
    method: u64,
    m: M,
    result: CallResult<M, TransportFault>,
)
    requires
        exists|response: Result<Seq<u8>, TransportFault>|
            h.may_respond(method, m.encoding(), response) && #[trigger] step_result::<
                M,
                TransportFault,
            >(response, result),
    ensures
        result matches Ok(out) && out == m,
{
    let response = choose|response: Result<Seq<u8>, TransportFault>|
        h.may_respond(method, m.encoding(), response) && #[trigger] step_result::<
            M,
            TransportFault,
        >(response, result);
    lemma_echo_round_trip::<M, TransportFault>(m, result);
}

/// A failing transport surfaces its fault exactly: any result the call
/// lifecycle can yield against a `FaultHandler` is an `Execution` error
/// carrying the configured description — never a success and never another
/// error variant.
pub proof fn lemma_fault_yields_execution<O: Message>(
    h: FaultHandler,
    method: u64,
    request: Seq<u8>,
    result: CallResult<O, TransportFault>,
)
    requires
        exists|response: Result<Seq<u8>, TransportFault>|
            h.may_respond(method, request, response) && #[trigger] step_result::<
                O,
                TransportFault,
            >(response, result),
    ensures
        result matches Err(e) && (e matches Error::Execution { error } && error.message@
            == h.fault.message@),
{
    let response = choose|response: Result<Seq<u8>, TransportFault>|
        h.may_respond(method, request, response) && #[trigger] step_result::<O, TransportFault>(
            response,
            result,
        );
}

/// A transport whose success bytes do not decode as the expected output
/// forces a `Decode` error, never `Execution`: any result the call
/// lifecycle can yield against a `FixedHandler` with unparseable bytes is a
/// `Decode` error.
pub proof fn lemma_fixed_undecodable_yields_decode<O: Message>(
    h: FixedHandler,
    method: u64,
    request: Seq<u8>,
    result: CallResult<O, TransportFault>,
)
    requires
        O::parse(h.response@) is None,
        exists|response: Result<Seq<u8>, TransportFault>|
            h.may_respond(method, request, response) && #[trigger] step_result::<
                O,
                TransportFault,
            >(response, result),
    ensures
        result matches Err(e) && e is Decode,
        !(result matches Err(e) && e is Execution),
{
    let response = choose|response: Result<Seq<u8>, TransportFault>|
        h.may_respond(method, request, response) && #[trigger] step_result::<O, TransportFault>(
            response,
            result,
        );
}

} // verus!
