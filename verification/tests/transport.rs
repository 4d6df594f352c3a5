use duangler::protocol::{client_cert_matches, Sha256};
use duangler::transport::{encode_frame, Certificate, FrameError, MessageReader, ReadProgress, SingleCertVerifier};

#[test]
fn frame_is_length_then_payload() {
    assert_eq!(encode_frame(b"hello").unwrap(), vec![0, 5, b'h', b'e', b'l', b'l', b'o']);
    assert_eq!(encode_frame(&[]).unwrap(), vec![0, 0]);
    let long = vec![7u8; 300];
    let f = encode_frame(&long).unwrap();
    assert_eq!(&f[..2], &[1, 44]);
    assert_eq!(f.len(), 302);
}

#[test]
fn frame_longer_than_u16_is_refused() {
    let payload = vec![0u8; 65536];
    assert_eq!(encode_frame(&payload), Err(FrameError::MessageTooLong));
    let payload = vec![0u8; 65535];
    assert_eq!(encode_frame(&payload).unwrap().len(), 65537);
}

#[test]
fn reader_gives_back_what_was_framed() {
    let mut reader = MessageReader::new();
    assert!(matches!(reader.recv_msg(), ReadProgress::NeedBytes(2)));
    let mut bytes = encode_frame(b"first").unwrap();
    bytes.extend(encode_frame(b"second").unwrap());
    // deliver the bytes in two pieces, cutting the second frame
    reader.fill(&bytes[..9]);
    match reader.recv_msg() {
        ReadProgress::Message(m) => assert_eq!(m, b"first".to_vec()),
        other => panic!("unexpected {:?}", other),
    }
    assert!(matches!(reader.recv_msg(), ReadProgress::NeedBytes(6)));
    reader.fill(&bytes[9..]);
    match reader.recv_msg() {
        ReadProgress::Message(m) => assert_eq!(m, b"second".to_vec()),
        other => panic!("unexpected {:?}", other),
    }
    assert_eq!(reader.buffered_len(), 0);
    assert!(matches!(reader.recv_msg(), ReadProgress::NeedBytes(2)));
}

#[test]
fn sha256_is_printed_in_lowercase_hex() {
    let h = Sha256::from_bytes(b"abc");
    assert_eq!(
        h.to_string(),
        "ba7816bf8f01cfea414140de5dae2223b00361a396177a9cb410ff61f20015ad"
    );
    let e = Sha256::from_bytes(b"");
    assert_eq!(
        e.to_string(),
        "e3b0c44298fc1c149afbf4c8996fb92427ae41e4649b934ca495991b7852b855"
    );
    assert!(h.eq(&Sha256::from_bytes(b"abc")));
    assert!(!h.eq(&e));
}

#[test]
fn verifier_accepts_only_the_pinned_certificate() {
    let v = SingleCertVerifier::new(Certificate(vec![1, 2, 3]));
    assert!(v.verify_cert(&[1, 2, 3]));
    assert!(!v.verify_cert(&[1, 2]));
    assert!(!v.verify_cert(&[1, 2, 4]));
    assert!(!v.verify_cert(&[1, 2, 3, 4]));
}

#[test]
fn client_certificate_must_match_the_announced_hash() {
    let announced = Sha256::from_bytes(b"client cert");
    assert!(client_cert_matches(&announced, b"client cert"));
    assert!(!client_cert_matches(&announced, b"other cert"));
}
