//! The library's verified codec against the real protobuf wire format as
//! prost produces it.
use simple_rpc::codec::Message;
use simple_rpc::message::Ping;

#[test]
fn library_encoding_matches_prost_wire_format() {
    for id in [0u64, 7, 127, 128, 300, 16384, u64::MAX] {
        let mut wire: Vec<u8> = Vec::new();
        prost::encoding::encode_key(1, prost::encoding::WireType::Varint, &mut wire);
        prost::encoding::encode_varint(id, &mut wire);
        assert_eq!(Ping { id }.encode().unwrap(), wire);
    }
}

#[test]
fn library_decode_reads_prost_wire_format() {
    for id in [0u64, 7, 127, 128, 300, 16384, u64::MAX] {
        let mut wire: Vec<u8> = Vec::new();
        prost::encoding::encode_key(1, prost::encoding::WireType::Varint, &mut wire);
        prost::encoding::encode_varint(id, &mut wire);
        assert_eq!(Ping::decode(&wire).unwrap(), Ping { id });
    }
}

#[test]
fn prost_reads_the_library_encoding_back() {
    for id in [0u64, 7, 127, 128, 300, 16384, u64::MAX] {
        let encoded = Ping { id }.encode().unwrap();
        let mut buf: &[u8] = &encoded[1..];
        let value = prost::encoding::decode_varint(&mut buf).expect("prost reads the varint");
        assert_eq!(encoded[0], 0x08);
        assert_eq!(value, id);
        assert!(buf.is_empty());
    }
}
