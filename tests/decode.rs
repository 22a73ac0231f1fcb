use coset::iana;
use coset::{CborSerializable, CoseKey, CoseKeyBuilder};
use webauthn_client::{
    assertion_response, attested_credential, decode_assertion, decode_auth_data_prefix,
    decode_authenticator_data, decode_registration, read_fixed, read_vec, Error, Reader,
    UnexpectedEnd,
};

fn ec2_key() -> CoseKey {
    CoseKeyBuilder::new_ec2_pub_key(iana::EllipticCurve::P_256, vec![1u8; 32], vec![2u8; 32])
        .algorithm(iana::Algorithm::ES256)
        .build()
}

fn auth_data(flags: u8, counter: u32, id: &[u8], key: &[u8]) -> Vec<u8> {
    let mut b = vec![0u8; 32];
    b.push(flags);
    b.extend_from_slice(&counter.to_be_bytes());
    b.extend_from_slice(&[0u8; 16]);
    b.extend_from_slice(&(id.len() as u16).to_be_bytes());
    b.extend_from_slice(id);
    b.extend_from_slice(key);
    b
}

#[test]
fn read_fixed_short_input_fails_and_keeps_position() {
    let bytes = [1u8, 2, 3];
    let mut reader = Reader::new(&bytes);
    let r: Result<[u8; 4], Error> = read_fixed(&mut reader);
    match r {
        Err(Error::Io(e)) => assert_eq!(e, UnexpectedEnd { requested: 4, remaining: 3 }),
        _ => panic!("expected an end-of-input error"),
    }
    assert_eq!(reader.rest(), &[1u8, 2, 3][..]);
}

#[test]
fn read_fixed_reads_and_advances() {
    let bytes = [1u8, 2, 3, 4, 5];
    let mut reader = Reader::new(&bytes);
    let a: [u8; 2] = read_fixed(&mut reader).unwrap();
    assert_eq!(a, [1, 2]);
    assert_eq!(reader.remaining_len(), 3);
    let b: [u8; 3] = read_fixed(&mut reader).unwrap();
    assert_eq!(b, [3, 4, 5]);
    assert_eq!(reader.remaining_len(), 0);
}

#[test]
fn read_vec_reads_length_prefixed_bytes() {
    let bytes = [0u8, 3, 7, 8, 9, 10];
    let mut reader = Reader::new(&bytes);
    assert_eq!(read_vec(&mut reader).unwrap(), vec![7, 8, 9]);
    assert_eq!(reader.rest(), &[10u8][..]);
}

#[test]
fn read_vec_short_body_fails() {
    let bytes = [1u8, 0, 7, 8];
    let mut reader = Reader::new(&bytes);
    match read_vec(&mut reader) {
        Err(Error::Io(e)) => assert_eq!(e, UnexpectedEnd { requested: 256, remaining: 2 }),
        _ => panic!("expected an end-of-input error"),
    }
    assert_eq!(reader.rest(), &[7u8, 8][..]);
}

#[test]
fn read_vec_short_length_fails() {
    let bytes = [5u8];
    let mut reader = Reader::new(&bytes);
    match read_vec(&mut reader) {
        Err(Error::Io(e)) => assert_eq!(e, UnexpectedEnd { requested: 2, remaining: 1 }),
        _ => panic!("expected an end-of-input error"),
    }
    assert_eq!(reader.remaining_len(), 1);
}

#[test]
fn scenario_registration_decodes() {
    let key = ec2_key().to_vec().unwrap();
    let id = [0xde, 0xad, 0xbe, 0xef];
    let b = auth_data(0x41, 5, &id, &key);
    let data = decode_authenticator_data(&b).unwrap();
    assert_eq!(data.flags, 0x41);
    assert_eq!(data.counter, 5);
    let attested = data.attested.unwrap();
    assert_eq!(attested.credential_id.as_bytes(), &id[..]);
    assert_eq!(attested.public_key, key);
    let response = decode_registration(&b).unwrap();
    assert_eq!(&response.credential.id[..], &id[..]);
    assert_eq!(response.credential.public_key, Some(ec2_key()));
}

#[test]
fn scenario_truncated_registration_fails() {
    let key = ec2_key().to_vec().unwrap();
    let b = auth_data(0x41, 5, &[1, 2, 3, 4], &key);
    let b = &b[..40];
    assert!(matches!(decode_authenticator_data(b), Err(Error::Io(_))));
    assert!(matches!(attested_credential(b), Err(Error::Io(_))));
    assert!(matches!(decode_registration(b), Err(Error::Io(_))));
}

#[test]
fn credential_id_of_every_length_is_recovered() {
    for len in [0usize, 1, 300, 65535] {
        let id: Vec<u8> = (0..len).map(|i| (i % 251) as u8).collect();
        let b = auth_data(0x40, 9, &id, &[0xa0]);
        let data = decode_authenticator_data(&b).unwrap();
        let attested = data.attested.unwrap();
        assert_eq!(attested.credential_id.0, id);
        assert_eq!(attested.public_key, vec![0xa0]);
    }
}

#[test]
fn cose_key_round_trips_through_decoder() {
    let key = ec2_key();
    let encoded = key.clone().to_vec().unwrap();
    let b = auth_data(0x45, 1, &[9, 9], &encoded);
    let response = decode_registration(&b).unwrap();
    let decoded = response.credential.public_key.unwrap();
    assert_eq!(decoded, key);
    assert_eq!(decoded.to_vec().unwrap(), encoded);
}

#[test]
fn without_attested_flag_only_prefix_is_read() {
    let mut b = vec![7u8; 32];
    b.push(0x01);
    b.extend_from_slice(&[0, 0, 1, 2]);
    let short = decode_authenticator_data(&b).unwrap();
    assert_eq!(short.counter, 258);
    assert!(short.attested.is_none());
    assert_eq!(short.rp_id_hash, [7u8; 32]);
    b.extend_from_slice(&[0xff, 0xff, 0xff]);
    let long = decode_authenticator_data(&b).unwrap();
    assert_eq!(long.counter, 258);
    assert_eq!(long.flags, 0x01);
    assert!(long.attested.is_none());
}

#[test]
fn short_prefix_fails() {
    let b = vec![0u8; 36];
    assert!(matches!(decode_authenticator_data(&b), Err(Error::Io(_))));
    assert!(matches!(decode_auth_data_prefix(&b), Err(Error::Io(_))));
}

#[test]
fn registration_without_attested_data_fails() {
    let b = auth_data(0x01, 5, &[1, 2], &[0xa0]);
    assert!(matches!(decode_registration(&b), Err(Error::NoAttestedCredential)));
}

#[test]
fn registration_with_bad_key_fails() {
    let b = auth_data(0x41, 5, &[1, 2], &[0xff, 0x00]);
    assert!(matches!(decode_registration(&b), Err(Error::Cose(_))));
}

#[test]
fn prefix_decoder_ignores_credential_block() {
    let b = auth_data(0x41, 0x01020304, &[1, 2, 3], &[]);
    let p = decode_auth_data_prefix(&b[..37]).unwrap();
    assert_eq!(p.counter, 0x01020304);
    assert_eq!(p.flags, 0x41);
    assert!(p.attested.is_none());
}

#[test]
fn scenario_invalid_client_data_fails() {
    let b = auth_data(0x01, 5, &[], &[]);
    match decode_assertion(&b[..37], vec![1, 2], vec![0x80]) {
        Err(Error::Utf8(bytes)) => assert_eq!(bytes, vec![0x80]),
        _ => panic!("expected a UTF-8 error"),
    }
}

#[test]
fn assertion_decodes() {
    let mut b = vec![0u8; 32];
    b.push(0x05);
    b.extend_from_slice(&[0, 0, 0, 42]);
    let r = decode_assertion(&b, vec![3, 4], b"{\"type\":\"webauthn.get\"}".to_vec()).unwrap();
    assert_eq!(r.signature, vec![3, 4]);
    assert_eq!(r.client_data_json, "{\"type\":\"webauthn.get\"}");
    assert_eq!(r.flags, 5);
    assert_eq!(r.counter, 42);
}

#[test]
fn assertion_with_short_auth_data_fails() {
    assert!(matches!(
        decode_assertion(&[0u8; 10], vec![], b"{}".to_vec()),
        Err(Error::Io(_))
    ));
    assert!(matches!(
        assertion_response(&[0u8; 36], vec![], String::from("{}")),
        Err(Error::Io(_))
    ));
}

#[test]
fn short_auth_data_is_reported_before_client_data() {
    match decode_assertion(&[0u8; 20], vec![], vec![0x80]) {
        Err(Error::Io(_)) => {}
        _ => panic!("expected an end-of-input error"),
    }
}
