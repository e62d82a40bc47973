use stream_core::custody::custody_payload;
use stream_core::types::{ActorId, CustodyRequest};

fn scale_str(s: &str) -> Vec<u8> {
    let mut v = vec![(s.len() as u8) << 2];
    v.extend_from_slice(s.as_bytes());
    v
}

#[test]
fn allocate_payload_layout() {
    let req = CustodyRequest::Allocate {
        owner: ActorId([1u8; 32]),
        token: ActorId([2u8; 32]),
        amount: 0x0102_0304,
        stream_id: 7,
    };
    let bytes = custody_payload(&req);
    let mut expected = scale_str("VaultService");
    expected.extend_from_slice(&scale_str("AllocateToStream"));
    expected.extend_from_slice(&[1u8; 32]);
    expected.extend_from_slice(&[2u8; 32]);
    expected.extend_from_slice(&[4, 3, 2, 1, 0, 0, 0, 0, 0, 0, 0, 0, 0, 0, 0, 0]);
    expected.extend_from_slice(&[7, 0, 0, 0, 0, 0, 0, 0]);
    assert_eq!(bytes, expected);
    assert_eq!(bytes[0], 48);
    assert_eq!(bytes[13], 64);
    assert_eq!(bytes.len(), 13 + 17 + 32 + 32 + 16 + 8);
}

#[test]
fn transfer_payload_layout() {
    let req = CustodyRequest::TransferToReceiver {
        token: ActorId([5u8; 32]),
        receiver: ActorId([6u8; 32]),
        amount: u128::MAX,
        stream_id: 0x0a0b,
    };
    let bytes = custody_payload(&req);
    let mut expected = scale_str("VaultService");
    expected.extend_from_slice(&scale_str("TransferToReceiver"));
    expected.extend_from_slice(&[5u8; 32]);
    expected.extend_from_slice(&[6u8; 32]);
    expected.extend_from_slice(&[0xff; 16]);
    expected.extend_from_slice(&[0x0b, 0x0a, 0, 0, 0, 0, 0, 0]);
    assert_eq!(bytes, expected);
    assert_eq!(bytes[13], 72);
}
