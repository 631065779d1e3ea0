use react_native_libsignal::{
    agreement_outcome, fingerprint_display, fingerprint_keys, pre_key_signature, scannable_comparison, signature_outcome,
    or_internal_error, or_protocol_error, SignalError, SignalIdentityKey,
    SignalIdentityKeyPair, SignalPreKeyRecord, SignalPrivateKey, SignalProtocolAddress, SignalPublicKey,
    SignalSignedPreKeyRecord, FINGERPRINT_ITERATIONS, FINGERPRINT_VERSION,
};

fn public(bytes: &[u8]) -> SignalPublicKey {
    SignalPublicKey { key_bytes: bytes.to_vec() }
}

fn private(bytes: &[u8]) -> SignalPrivateKey {
    SignalPrivateKey { key_bytes: bytes.to_vec() }
}

#[test]
fn error_messages() {
    let cases = vec![
        (SignalError::InvalidKey { reason: "bad".to_string() }, "InvalidKey: bad"),
        (SignalError::InvalidState { reason: "s".to_string() }, "InvalidState: s"),
        (SignalError::InvalidArgument { reason: "a".to_string() }, "InvalidArgument: a"),
        (SignalError::InternalError { reason: "".to_string() }, "InternalError: "),
        (SignalError::ProtocolError { reason: "p q".to_string() }, "ProtocolError: p q"),
    ];
    for (e, msg) in cases {
        assert_eq!(e.to_string(), msg);
    }
    assert_eq!(SignalError::InvalidKey { reason: "why".to_string() }.reason(), "why");
}

#[test]
fn outcome_mappings() {
    assert!(matches!(or_internal_error::<u8>(Ok(3)), Ok(3)));
    assert!(matches!(or_internal_error::<u8>(Err("x".into())), Err(SignalError::InternalError { reason }) if reason == "x"));
    assert!(matches!(or_protocol_error::<u8>(Err("z".into())), Err(SignalError::ProtocolError { reason }) if reason == "z"));
}

#[test]
fn public_key_parse_failure_is_invalid_key() {
    let key = public(&[5, 1, 2]);
    assert!(matches!(key.to_public_key::<u32>(Ok(7)), Ok(7)));
    match key.to_public_key::<u32>(Err("bad key length".to_string())) {
        Err(SignalError::InvalidKey { reason }) => assert_eq!(reason, "bad key length"),
        _ => panic!("expected InvalidKey"),
    }
    match private(&[1]).to_private_key::<u32>(Err("short".to_string())) {
        Err(SignalError::InvalidKey { reason }) => assert_eq!(reason, "short"),
        _ => panic!("expected InvalidKey"),
    }
    let identity = SignalIdentityKey { public_key: key };
    assert!(matches!(identity.to_identity_key::<u32>(Err("no".to_string())), Err(SignalError::InvalidKey { .. })));
}

#[test]
fn identity_key_pair_checks_public_half_first() {
    let pair = SignalIdentityKeyPair { public_key: public(&[5]), private_key: private(&[1]) };
    match pair.to_identity_key_pair::<u8, u8>(Err("public".into()), Err("private".into())) {
        Err(SignalError::InvalidKey { reason }) => assert_eq!(reason, "public"),
        _ => panic!("expected the public half's error"),
    }
    match pair.to_identity_key_pair::<u8, u8>(Ok(1), Err("private".into())) {
        Err(SignalError::InvalidKey { reason }) => assert_eq!(reason, "private"),
        _ => panic!("expected the private half's error"),
    }
    assert!(matches!(pair.to_identity_key_pair::<u8, u8>(Ok(1), Ok(2)), Ok((1, 2))));
}

#[test]
fn protocol_address_device_id() {
    let address = SignalProtocolAddress { name: "+14151234567".to_string(), device_id: 1 };
    let (name, id) = address.to_protocol_address::<u8, ()>(Ok(1)).unwrap();
    assert_eq!(name, "+14151234567");
    assert_eq!(id, 1);
    for (device_id, text) in [(0u32, "0"), (128, "128"), (4294967295, "4294967295"), (1000000, "1000000")] {
        let address = SignalProtocolAddress { name: "a".to_string(), device_id };
        match address.to_protocol_address::<u8, ()>(Err(())) {
            Err(SignalError::InvalidArgument { reason }) => assert_eq!(reason, format!("Invalid device ID: {}", text)),
            _ => panic!("expected InvalidArgument"),
        }
    }
}

#[test]
fn pre_key_record_from_fields() {
    let rec = SignalPreKeyRecord::try_from_fields(Ok(7), Ok(vec![5, 1]), Ok(vec![2, 3])).unwrap();
    assert_eq!(rec.id, 7);
    assert_eq!(rec.public_key.key_bytes, vec![5, 1]);
    assert_eq!(rec.private_key.key_bytes, vec![2, 3]);
    match SignalPreKeyRecord::try_from_fields(Ok(7), Err("no public".into()), Err("no private".into())) {
        Err(SignalError::ProtocolError { reason }) => assert_eq!(reason, "no public"),
        _ => panic!("expected ProtocolError"),
    }
    match SignalPreKeyRecord::try_from_fields(Err("no id".into()), Err("no public".into()), Ok(vec![])) {
        Err(SignalError::ProtocolError { reason }) => assert_eq!(reason, "no id"),
        _ => panic!("expected ProtocolError"),
    }
}

#[test]
fn signed_pre_key_record_from_fields() {
    let rec = SignalSignedPreKeyRecord::try_from_fields(Ok(9), Ok(1700000000000), Ok(vec![5]), Ok(vec![6]), Ok(vec![7; 64])).unwrap();
    assert_eq!(rec.id, 9);
    assert_eq!(rec.timestamp, 1700000000000);
    assert_eq!(rec.public_key.key_bytes, vec![5]);
    assert_eq!(rec.private_key.key_bytes, vec![6]);
    assert_eq!(rec.signature, vec![7; 64]);
    match SignalSignedPreKeyRecord::try_from_fields(Ok(9), Ok(1), Ok(vec![5]), Err("pk".into()), Err("sig".into())) {
        Err(SignalError::ProtocolError { reason }) => assert_eq!(reason, "pk"),
        _ => panic!("expected ProtocolError"),
    }
    match SignalSignedPreKeyRecord::try_from_fields(Ok(9), Err("time".into()), Ok(vec![5]), Ok(vec![]), Err("sig".into())) {
        Err(SignalError::ProtocolError { reason }) => assert_eq!(reason, "time"),
        _ => panic!("expected ProtocolError"),
    }
    match SignalSignedPreKeyRecord::try_from_fields(Ok(9), Ok(2), Ok(vec![5]), Ok(vec![]), Err("sig".into())) {
        Err(SignalError::ProtocolError { reason }) => assert_eq!(reason, "sig"),
        _ => panic!("expected ProtocolError"),
    }
}

#[test]
fn fingerprint_parameters() {
    assert_eq!(FINGERPRINT_VERSION, 2);
    assert_eq!(FINGERPRINT_ITERATIONS, 5200);
}

#[test]
fn fingerprint_outcomes() {
    match fingerprint_keys::<u8>(Err("local".into()), Err("remote".into())) {
        Err(SignalError::InvalidKey { reason }) => assert_eq!(reason, "local"),
        _ => panic!("expected the local key's error"),
    }
    match fingerprint_keys::<u8>(Ok(1), Err("remote".into())) {
        Err(SignalError::InvalidKey { reason }) => assert_eq!(reason, "remote"),
        _ => panic!("expected the remote key's error"),
    }
    assert!(matches!(fingerprint_keys::<u8>(Ok(1), Ok(2)), Ok((1, 2))));
    assert_eq!(fingerprint_display(Ok(Ok("12345 67890".into()))).unwrap(), "12345 67890");
    assert!(matches!(fingerprint_display(Err("build".into())), Err(SignalError::InternalError { reason }) if reason == "build"));
    assert!(matches!(fingerprint_display(Ok(Err("render".into()))), Err(SignalError::InternalError { reason }) if reason == "render"));
}

#[test]
fn scannable_comparison_outcomes() {
    assert!(matches!(scannable_comparison(Ok(Ok(true))), Ok(true)));
    assert!(matches!(scannable_comparison(Ok(Ok(false))), Ok(false)));
    assert!(matches!(scannable_comparison(Err("decode".into())), Err(SignalError::InvalidArgument { reason }) if reason == "decode"));
    assert!(matches!(scannable_comparison(Ok(Err("version".into()))), Err(SignalError::InternalError { reason }) if reason == "version"));
}

#[test]
fn signature_and_agreement_outcomes() {
    assert_eq!(signature_outcome(Ok(Ok(vec![1, 2]))).unwrap(), vec![1, 2]);
    assert!(matches!(signature_outcome(Err("key".into())), Err(SignalError::InvalidKey { reason }) if reason == "key"));
    assert!(matches!(signature_outcome(Ok(Err("sign".into()))), Err(SignalError::InternalError { reason }) if reason == "sign"));
    assert_eq!(agreement_outcome(Ok(Ok(Ok(vec![3; 32])))).unwrap(), vec![3; 32]);
    assert!(matches!(agreement_outcome(Err("private".into())), Err(SignalError::InvalidKey { reason }) if reason == "private"));
    assert!(matches!(agreement_outcome(Ok(Err("public".into()))), Err(SignalError::InvalidKey { reason }) if reason == "public"));
    assert!(matches!(agreement_outcome(Ok(Ok(Err("agree".into())))), Err(SignalError::InternalError { reason }) if reason == "agree"));
    assert!(matches!(pre_key_signature::<u8>(Err("sig".into())), Err(SignalError::InternalError { reason }) if reason == "sig"));
    assert!(matches!(pre_key_signature::<u8>(Ok(4)), Ok(4)));
}
