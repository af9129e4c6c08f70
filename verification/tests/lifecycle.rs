use std::cell::Cell;
use std::rc::Rc;

use simple_rpc::error::Error;
use simple_rpc::handler::Handler;
use simple_rpc::local::{EchoHandler, EchoOp, FaultHandler, FixedHandler, TransportFault};
use simple_rpc::message::{Ping, Unencodable};
use simple_rpc::rt::ClientFuture;
use simple_rpc::task::Poll;

/// A handler that echoes like `EchoHandler` but records how many times its
/// call operation was started, and how many operations are still alive.
#[derive(Clone)]
struct SpyHandler {
    calls: Rc<Cell<u64>>,
    delay: u64,
}

struct SpyOp {
    inner: EchoOp,
    _alive: Rc<Cell<u64>>,
}

impl Handler for SpyHandler {
    type Error = TransportFault;
    type Method = u64;
    type Op = SpyOp;

    // The ghost part of the handler contract is never evaluated at run
    // time; an unverified test double only has to fill the slots in.
    fn may_respond(
        &self,
        _method: u64,
        _request: vstd::seq::Seq<u8>,
        _response: Result<vstd::seq::Seq<u8>, TransportFault>,
    ) -> bool {
        unreachable!()
    }

    fn op_live(_op: SpyOp) -> bool {
        unreachable!()
    }

    fn op_may_yield(_op: SpyOp, _response: Result<vstd::seq::Seq<u8>, TransportFault>) -> bool {
        unreachable!()
    }

    fn call(&self, method: u64, request: Vec<u8>) -> SpyOp {
        self.calls.set(self.calls.get() + 1);
        SpyOp {
            inner: EchoHandler { delay: self.delay }.call(method, request),
            _alive: self.calls.clone(),
        }
    }

    fn poll_op(op: &mut SpyOp) -> Poll<Result<Vec<u8>, TransportFault>> {
        EchoHandler::poll_op(&mut op.inner)
    }
}

#[test]
fn echo_round_trips_id_7() {
    let handler = EchoHandler { delay: 0 };
    let mut call: ClientFuture<EchoHandler, Ping, Ping> = ClientFuture::new(handler, Ping { id: 7 }, 1);
    match call.poll() {
        Poll::Ready(Ok(out)) => assert_eq!(out, Ping { id: 7 }),
        _ => panic!("expected an immediate successful result"),
    }
    assert!(call.is_complete());
}

#[test]
fn echo_round_trips_through_pending_resumptions() {
    let handler = EchoHandler { delay: 2 };
    let mut call: ClientFuture<EchoHandler, Ping, Ping> =
        ClientFuture::new(handler, Ping { id: 300 }, 4);
    assert!(!call.poll().is_ready());
    assert!(!call.is_complete());
    assert!(!call.poll().is_ready());
    match call.poll() {
        Poll::Ready(Ok(out)) => assert_eq!(out, Ping { id: 300 }),
        _ => panic!("expected the third resumption to finish"),
    }
    assert!(call.is_complete());
}

#[test]
fn handler_failure_yields_execution_error() {
    let handler = FaultHandler {
        fault: TransportFault { message: "connection reset".to_string() },
        delay: 0,
    };
    let mut call: ClientFuture<FaultHandler, Ping, Ping> =
        ClientFuture::new(handler, Ping { id: 7 }, 1);
    match call.poll() {
        Poll::Ready(Err(Error::Execution { error })) => {
            assert_eq!(error.message, "connection reset");
        }
        _ => panic!("expected an execution error"),
    }
    assert!(call.is_complete());
}

#[test]
fn undecodable_response_yields_decode_error() {
    let handler = FixedHandler { response: vec![0xFF], delay: 0 };
    let mut call: ClientFuture<FixedHandler, Ping, Ping> =
        ClientFuture::new(handler, Ping { id: 7 }, 1);
    match call.poll() {
        Poll::Ready(Err(Error::Decode { .. })) => {}
        Poll::Ready(Err(Error::Execution { .. })) => {
            panic!("an undecodable response must not be reported as an execution error")
        }
        _ => panic!("expected a decode error"),
    }
}

#[test]
fn encode_failure_never_invokes_the_handler() {
    let calls = Rc::new(Cell::new(0u64));
    let handler = SpyHandler { calls: calls.clone(), delay: 0 };
    let mut call: ClientFuture<SpyHandler, Unencodable, Unencodable> =
        ClientFuture::new(handler, Unencodable {}, 1);
    match call.poll() {
        Poll::Ready(Err(Error::Encode { .. })) => {}
        _ => panic!("expected an encode error"),
    }
    assert_eq!(calls.get(), 0);
    assert!(call.is_complete());
}

#[test]
fn a_completed_call_invoked_the_handler_exactly_once() {
    let calls = Rc::new(Cell::new(0u64));
    let handler = SpyHandler { calls: calls.clone(), delay: 1 };
    let mut call: ClientFuture<SpyHandler, Ping, Ping> = ClientFuture::new(handler, Ping { id: 9 }, 1);
    assert!(!call.poll().is_ready());
    match call.poll() {
        Poll::Ready(Ok(out)) => assert_eq!(out, Ping { id: 9 }),
        _ => panic!("expected the second resumption to finish"),
    }
    assert_eq!(calls.get(), 1);
}

#[test]
fn dropping_in_flight_releases_the_operation_without_further_calls() {
    let calls = Rc::new(Cell::new(0u64));
    let handler = SpyHandler { calls: calls.clone(), delay: 3 };
    let mut call: ClientFuture<SpyHandler, Ping, Ping> = ClientFuture::new(handler, Ping { id: 5 }, 1);
    assert!(!call.poll().is_ready());
    assert_eq!(calls.get(), 1);
    // The handler was dropped inside `poll`; the in-flight operation holds
    // the only other reference to the counter.
    assert_eq!(Rc::strong_count(&calls), 2);
    drop(call);
    // The operation was released with the machine, and no further handler
    // call was made while dropping.
    assert_eq!(Rc::strong_count(&calls), 1);
    assert_eq!(calls.get(), 1);
}

#[test]
fn completion_is_detectable_before_any_further_resumption() {
    let handler = EchoHandler { delay: 0 };
    let mut call: ClientFuture<EchoHandler, Ping, Ping> = ClientFuture::new(handler, Ping { id: 1 }, 1);
    assert!(!call.is_complete());
    assert!(call.poll().is_ready());
    // Resuming now would violate the machine's contract; a well-behaved
    // scheduler observes completion instead.
    assert!(call.is_complete());
}
