use hpfeeds::auth::{auth_digest, build_auth_frame};
use hpfeeds::codec::encode;
use hpfeeds::errors::HpfeedsError;
use hpfeeds::handshake::{Handshake, HandshakeState};
use hpfeeds::publish::build_publish_frame;

const DIGEST_010203_S3CR3T: [u8; 20] = [
    0x2e, 0x0e, 0xee, 0xc9, 0x43, 0x90, 0xe6, 0x43, 0xaf, 0x38, 0x0c, 0xb2, 0x42, 0x2d, 0xb2,
    0x0a, 0xb0, 0x3b, 0x17, 0x3b,
];

const DIGEST_AABB_MUSKRAT: [u8; 20] = [
    0x56, 0xa3, 0xb2, 0xf2, 0xb1, 0xe0, 0x1c, 0xa1, 0x42, 0x3f, 0x10, 0xf8, 0x63, 0x70, 0xbf,
    0xdf, 0x43, 0x22, 0x4e, 0xd4,
];

#[test]
fn auth_digest_matches_fixed_vector() {
    let digest = auth_digest(&[0x01, 0x02, 0x03], b"s3cr3t");
    assert_eq!(digest, DIGEST_010203_S3CR3T.to_vec());
}

#[test]
fn auth_digest_is_deterministic() {
    let once = auth_digest(&[0x01, 0x02, 0x03], b"s3cr3t");
    let twice = auth_digest(&[0x01, 0x02, 0x03], b"s3cr3t");
    assert_eq!(once, twice);
}

#[test]
fn auth_frame_layout() {
    let frame = build_auth_frame(b"hpname", &[0x01, 0x02, 0x03], b"s3cr3t").unwrap();
    // 4 length bytes + opcode + 1 + 6 name bytes + 20 digest bytes.
    assert_eq!(frame.len(), 32);
    assert_eq!(&frame[0..4], &[0, 0, 0, 32]);
    assert_eq!(frame[4], 2);
    assert_eq!(frame[5], 6);
    assert_eq!(&frame[6..12], b"hpname");
    assert_eq!(&frame[12..32], &DIGEST_010203_S3CR3T);
}

#[test]
fn auth_frame_rejects_oversized_ident() {
    let ident = vec![b'a'; 256];
    let err = build_auth_frame(&ident, &[0x01], b"s").unwrap_err();
    assert!(matches!(err, HpfeedsError::Validation(_)));
}

#[test]
fn publish_frame_layout() {
    let frame = build_publish_frame(b"hpname", b"chan1", b"hp hit").unwrap();
    assert_eq!(frame.len(), 24);
    assert_eq!(&frame[0..4], &[0x00, 0x00, 0x00, 0x18]);
    assert_eq!(frame[4], 0x03);
    let expected_payload: Vec<u8> = vec![
        6, b'h', b'p', b'n', b'a', b'm', b'e', 5, b'c', b'h', b'a', b'n', b'1', b'h', b'p', b' ',
        b'h', b'i', b't',
    ];
    assert_eq!(&frame[5..], &expected_payload[..]);
}

#[test]
fn publish_frame_with_empty_payload() {
    let frame = build_publish_frame(b"id", b"c", &[]).unwrap();
    assert_eq!(frame.len(), 10);
    assert_eq!(&frame[0..4], &[0, 0, 0, 10]);
    assert_eq!(frame[4], 3);
    assert_eq!(&frame[5..], &[2, b'i', b'd', 1, b'c']);
}

#[test]
fn publish_rejects_oversized_channel() {
    let channel = vec![b'c'; 300];
    let err = build_publish_frame(b"hpname", &channel, b"hp hit").unwrap_err();
    assert!(matches!(err, HpfeedsError::Validation(_)));
}

#[test]
fn publish_rejects_oversized_ident() {
    let ident = vec![b'i'; 300];
    let err = build_publish_frame(&ident, b"chan1", b"hp hit").unwrap_err();
    assert!(matches!(err, HpfeedsError::Validation(_)));
}

#[test]
fn publish_accepts_boundary_lengths() {
    let ident = vec![b'i'; 255];
    let channel = vec![b'c'; 255];
    let frame = build_publish_frame(&ident, &channel, &[]).unwrap();
    assert_eq!(frame.len(), 5 + 1 + 255 + 1 + 255);
    assert_eq!(frame[5], 255);
    assert_eq!(frame[5 + 1 + 255], 255);
}

fn info_frame(name: &[u8], nonce: &[u8]) -> Vec<u8> {
    let mut payload = vec![name.len() as u8];
    payload.extend_from_slice(name);
    payload.extend_from_slice(nonce);
    encode(1, &payload)
}

#[test]
fn handshake_completes_on_info_frame() {
    let mut hs = Handshake::new(b"hpname".to_vec(), b"elongated_muskrat".to_vec());
    assert_eq!(hs.state, HandshakeState::Connecting);
    hs.on_connected();
    assert_eq!(hs.state, HandshakeState::AwaitingInfo);

    let auth = hs.on_first_frame(&info_frame(b"bro", &[0xaa, 0xbb])).unwrap();
    assert_eq!(hs.state, HandshakeState::Authenticating);
    assert_eq!(hs.broker_name, "bro");
    assert_eq!(auth.len(), 32);
    assert_eq!(&auth[0..4], &[0, 0, 0, 32]);
    assert_eq!(auth[4], 2);
    assert_eq!(auth[5], 6);
    assert_eq!(&auth[6..12], b"hpname");
    assert_eq!(&auth[12..32], &DIGEST_AABB_MUSKRAT);

    hs.on_auth_sent();
    assert_eq!(hs.state, HandshakeState::Ready);
}

#[test]
fn handshake_surfaces_broker_error_frame() {
    let mut hs = Handshake::new(b"hpname".to_vec(), b"s3cr3t".to_vec());
    hs.on_connected();
    let err = hs.on_first_frame(&encode(0, b"denied")).unwrap_err();
    match err {
        HpfeedsError::Broker(reason) => assert_eq!(reason, "denied"),
        other => panic!("expected a Broker error, got {:?}", other),
    }
    assert_eq!(hs.state, HandshakeState::Failed);
}

#[test]
fn handshake_rejects_unexpected_first_opcode() {
    let mut hs = Handshake::new(b"hpname".to_vec(), b"s3cr3t".to_vec());
    hs.on_connected();
    let err = hs.on_first_frame(&encode(3, b"payload")).unwrap_err();
    assert!(matches!(err, HpfeedsError::Protocol(_)));
    assert_eq!(hs.state, HandshakeState::Failed);
}

#[test]
fn handshake_rejects_malformed_info_payload() {
    let mut hs = Handshake::new(b"hpname".to_vec(), b"s3cr3t".to_vec());
    hs.on_connected();
    // Declares a nine-byte broker name but only one byte follows.
    let err = hs.on_first_frame(&encode(1, &[9, b'x'])).unwrap_err();
    assert!(matches!(err, HpfeedsError::Protocol(_)));
    assert_eq!(hs.state, HandshakeState::Failed);
}

#[test]
fn handshake_rejects_garbage_first_bytes() {
    let mut hs = Handshake::new(b"hpname".to_vec(), b"s3cr3t".to_vec());
    hs.on_connected();
    let err = hs.on_first_frame(&[0x01, 0x02]).unwrap_err();
    assert!(matches!(err, HpfeedsError::Protocol(_)));
    assert_eq!(hs.state, HandshakeState::Failed);
}

#[test]
fn handshake_rejects_oversized_ident() {
    let mut hs = Handshake::new(vec![b'i'; 256], b"s3cr3t".to_vec());
    hs.on_connected();
    let err = hs.on_first_frame(&info_frame(b"bro", &[0xaa])).unwrap_err();
    assert!(matches!(err, HpfeedsError::Validation(_)));
    assert_eq!(hs.state, HandshakeState::Failed);
}
