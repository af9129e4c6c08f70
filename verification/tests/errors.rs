use simple_rpc::error::{DecodeFault, EncodeFault, Error};
use simple_rpc::local::TransportFault;
use simple_rpc::message::Ping;
use simple_rpc::rt::{decode, encode};

#[test]
fn execution_constructor_wraps_the_handler_error() {
    let e: Error<TransportFault> =
        Error::execution(TransportFault { message: "unreachable host".to_string() });
    match e {
        Error::Execution { error } => assert_eq!(error.message, "unreachable host"),
        _ => panic!("expected the execution variant"),
    }
}

#[test]
fn decode_fault_converts_to_the_decode_variant() {
    let e: Error<TransportFault> = Error::from(DecodeFault { detail: "truncated".to_string() });
    match e {
        Error::Decode { error } => assert_eq!(error.detail, "truncated"),
        _ => panic!("expected the decode variant"),
    }
}

#[test]
fn encode_fault_converts_to_the_encode_variant() {
    let e: Error<TransportFault> = Error::from(EncodeFault { detail: "refused".to_string() });
    match e {
        Error::Encode { error } => assert_eq!(error.detail, "refused"),
        _ => panic!("expected the encode variant"),
    }
}

#[test]
fn free_encode_produces_the_wire_bytes() {
    let bytes = encode::<Ping, TransportFault>(Ping { id: 300 }).unwrap();
    assert_eq!(bytes, vec![0x08, 0xAC, 0x02]);
}

#[test]
fn free_decode_reads_the_wire_bytes_back() {
    let m = decode::<Ping, TransportFault>(&[0x08, 0xAC, 0x02]).unwrap();
    assert_eq!(m, Ping { id: 300 });
}

#[test]
fn free_decode_surfaces_a_decode_error() {
    match decode::<Ping, TransportFault>(&[0xFF]) {
        Err(Error::Decode { .. }) => {}
        _ => panic!("expected a decode error"),
    }
}
