use react_native_libsignal::{hkdf_derive_secrets, hkdf_output, SignalError, HKDF_SHA256_MAX_OUTPUT};

fn hex(s: &str) -> Vec<u8> {
    (0..s.len()).step_by(2).map(|i| u8::from_str_radix(&s[i..i + 2], 16).unwrap()).collect()
}

#[test]
fn hkdf_rfc5869_basic_vector() {
    let ikm = vec![0x0bu8; 22];
    let salt = hex("000102030405060708090a0b0c");
    let info = hex("f0f1f2f3f4f5f6f7f8f9");
    let okm = hkdf_derive_secrets(ikm, info, salt, 42).unwrap();
    assert_eq!(
        okm,
        hex("3cb25f25faacd57a90434f64d0362f2a2d2d0a90cf1a5a4c5db02d56ecc4c5bf34007208d5b887185865")
    );
}

#[test]
fn hkdf_rfc5869_empty_salt_and_info_vector() {
    let ikm = vec![0x0bu8; 22];
    let okm = hkdf_derive_secrets(ikm, Vec::new(), Vec::new(), 42).unwrap();
    assert_eq!(
        okm,
        hex("8da4e775a563c18f715f802a063c5a31b8a11f5c5ee1879ec3454e5f3c738d2d9d201395faa4b61a96c8")
    );
}

#[test]
fn hkdf_zero_length_output() {
    let okm = hkdf_derive_secrets(vec![1, 2, 3], vec![4], vec![5], 0).unwrap();
    assert!(okm.is_empty());
}

#[test]
fn hkdf_largest_output() {
    let okm = hkdf_derive_secrets(vec![1, 2, 3], vec![], vec![], HKDF_SHA256_MAX_OUTPUT).unwrap();
    assert_eq!(okm.len(), 8160);
}

#[test]
fn hkdf_output_too_long() {
    let err = hkdf_derive_secrets(vec![1, 2, 3], vec![], vec![], 8161).unwrap_err();
    match err {
        SignalError::InvalidArgument { reason } => assert_eq!(reason, "output length too long: 8161"),
        other => panic!("unexpected error {:?}", other),
    }
}

#[test]
fn hkdf_output_passes_success_through() {
    let out = hkdf_output(Ok(()), vec![9, 8, 7], 3).unwrap();
    assert_eq!(out, vec![9, 8, 7]);
}

#[test]
fn hkdf_output_reports_length() {
    let err = hkdf_output(Err(hkdf::InvalidLength), vec![0; 4], 4000000000).unwrap_err();
    assert_eq!(err.to_string(), "InvalidArgument: output length too long: 4000000000");
}

#[test]
fn hkdf_is_deterministic() {
    let a = hkdf_derive_secrets(vec![7; 10], vec![1], vec![2], 64).unwrap();
    let b = hkdf_derive_secrets(vec![7; 10], vec![1], vec![2], 64).unwrap();
    assert_eq!(a, b);
    let c = hkdf_derive_secrets(vec![7; 10], vec![1], vec![3], 64).unwrap();
    assert_ne!(a, c);
}

#[test]
fn hkdf_shorter_output_is_prefix() {
    let ikm = vec![0x42u8; 32];
    let long = hkdf_derive_secrets(ikm.clone(), b"info".to_vec(), b"salt".to_vec(), 100).unwrap();
    for n in [0u32, 1, 31, 32, 33, 64, 99, 100] {
        let short = hkdf_derive_secrets(ikm.clone(), b"info".to_vec(), b"salt".to_vec(), n).unwrap();
        assert_eq!(short[..], long[..n as usize]);
    }
}
