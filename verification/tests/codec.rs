use simple_rpc::codec::Message;
use simple_rpc::message::{Ping, Unencodable};

#[test]
fn ping_encodes_small_ids_in_two_bytes() {
    assert_eq!(Ping { id: 0 }.encode().unwrap(), vec![0x08, 0x00]);
    assert_eq!(Ping { id: 7 }.encode().unwrap(), vec![0x08, 0x07]);
    assert_eq!(Ping { id: 127 }.encode().unwrap(), vec![0x08, 0x7F]);
}

#[test]
fn ping_encodes_larger_ids_in_base_128_groups() {
    assert_eq!(Ping { id: 128 }.encode().unwrap(), vec![0x08, 0x80, 0x01]);
    assert_eq!(Ping { id: 300 }.encode().unwrap(), vec![0x08, 0xAC, 0x02]);
    assert_eq!(
        Ping { id: u64::MAX }.encode().unwrap(),
        vec![0x08, 0xFF, 0xFF, 0xFF, 0xFF, 0xFF, 0xFF, 0xFF, 0xFF, 0xFF, 0x01],
    );
}

#[test]
fn ping_encoded_len_matches_encoding() {
    for id in [0u64, 1, 127, 128, 300, 16383, 16384, u64::MAX] {
        let m = Ping { id };
        assert_eq!(m.encoded_len(), m.encode().unwrap().len());
    }
}

#[test]
fn ping_round_trips_through_its_own_codec() {
    for id in [0u64, 7, 127, 128, 300, 65535, u64::MAX] {
        let m = Ping { id };
        let bytes = m.encode().unwrap();
        assert_eq!(Ping::decode(&bytes).unwrap(), m);
    }
}

#[test]
fn ping_decode_rejects_empty_buffer() {
    assert!(Ping::decode(&[]).is_err());
}

#[test]
fn ping_decode_rejects_unexpected_tag() {
    assert!(Ping::decode(&[0x09, 0x07]).is_err());
    assert!(Ping::decode(&[0xFF]).is_err());
}

#[test]
fn ping_decode_rejects_truncated_varint() {
    assert!(Ping::decode(&[0x08]).is_err());
    assert!(Ping::decode(&[0x08, 0x80]).is_err());
    assert!(Ping::decode(&[0x08, 0xFF, 0xFF]).is_err());
}

#[test]
fn ping_decode_rejects_non_minimal_varint() {
    assert!(Ping::decode(&[0x08, 0x80, 0x00]).is_err());
    assert!(Ping::decode(&[0x08, 0xFF, 0x00]).is_err());
}

#[test]
fn ping_decode_rejects_trailing_bytes() {
    assert!(Ping::decode(&[0x08, 0x07, 0x09]).is_err());
}

#[test]
fn ping_decode_rejects_value_beyond_id_width() {
    // Ten varint bytes whose top group pushes the value past 2^64 - 1.
    assert!(
        Ping::decode(&[0x08, 0xFF, 0xFF, 0xFF, 0xFF, 0xFF, 0xFF, 0xFF, 0xFF, 0xFF, 0x7F]).is_err()
    );
}

#[test]
fn unencodable_refuses_to_encode() {
    assert!(Unencodable {}.encode().is_err());
    assert_eq!(Unencodable {}.encoded_len(), 0);
}

#[test]
fn unencodable_decodes_only_the_empty_buffer() {
    assert_eq!(Unencodable::decode(&[]).unwrap(), Unencodable {});
    assert!(Unencodable::decode(&[0x00]).is_err());
}
