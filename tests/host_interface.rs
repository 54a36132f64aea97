use pqembed::{Error, KemVariant, PqcInterface, SignVariant};

#[test]
fn test_mlkem512() {
    let (sk, pk) = PqcInterface::mlkem_keygen("mlkem512").unwrap();
    assert_eq!(sk.len(), 1632);
    assert_eq!(pk.len(), 800);

    let (ss1, ct) = PqcInterface::mlkem_encapsulate("mlkem512", &pk).unwrap();
    assert_eq!(ss1.len(), 32);
    assert_eq!(ct.len(), 768);

    let ss2 = PqcInterface::mlkem_decapsulate("mlkem512", &sk, &ct).unwrap();
    assert_eq!(ss1, ss2);
}

#[test]
fn test_mldsa44() {
    let (sk, pk) = PqcInterface::mldsa_keygen("mldsa44").unwrap();
    assert_eq!(sk.len(), 2560);
    assert_eq!(pk.len(), 1312);

    let message = b"Hello, world!";
    let signature = PqcInterface::mldsa_sign("mldsa44", &sk, message).unwrap();
    assert_eq!(signature.len(), 2420);

    let valid = PqcInterface::mldsa_verify("mldsa44", &pk, message, &signature).unwrap();
    assert!(valid);
}

#[test]
fn test_falcon512() {
    let (sk, pk) = PqcInterface::falcon_keygen("falcon512").unwrap();
    assert_eq!(sk.len(), 1281);
    assert_eq!(pk.len(), 897);

    let message = b"Hello, world!";
    let signature = PqcInterface::falcon_sign("falcon512", &sk, message).unwrap();
    assert_eq!(signature.len(), 666);

    let valid = PqcInterface::falcon_verify("falcon512", &pk, message, &signature).unwrap();
    assert!(valid);
}

#[test]
fn test_hqc128() {
    // The linked HQC backend encodes keys, ciphertexts and secrets with other
    // lengths than the documented HQC-128 sizes (secret key 57, ciphertext
    // 4481, secret 32 bytes), so the variant is recognised but unavailable.
    assert_eq!(PqcInterface::hqc_keygen("hqc128"), Err(Error::UnsupportedOperation));
    assert_eq!(PqcInterface::hqc_encapsulate("hqc128", &[0u8; 2249]), Err(Error::UnsupportedOperation));
    assert_eq!(PqcInterface::hqc_decapsulate("hqc128", &[0u8; 57], &[0u8; 4481]), Err(Error::UnsupportedOperation));
}

#[test]
fn init_succeeds() {
    assert_eq!(PqcInterface::init(), Ok(()));
}

#[test]
fn unknown_names_are_invalid_input() {
    for name in ["", "mlkem", "MLKEM512", "mlkem512 ", "ml-kem-512", "kyber512", "mldsa44"] {
        assert_eq!(PqcInterface::mlkem_keygen(name), Err(Error::InvalidInput));
        assert_eq!(PqcInterface::mlkem_encapsulate(name, &[0u8; 800]), Err(Error::InvalidInput));
        assert_eq!(PqcInterface::mlkem_decapsulate(name, &[0u8; 1632], &[0u8; 768]), Err(Error::InvalidInput));
        assert_eq!(PqcInterface::hqc_keygen(name), Err(Error::InvalidInput));
        assert_eq!(PqcInterface::hqc_encapsulate(name, &[0u8; 2249]), Err(Error::InvalidInput));
        assert_eq!(PqcInterface::hqc_decapsulate(name, &[0u8; 57], &[0u8; 4481]), Err(Error::InvalidInput));
        assert_eq!(PqcInterface::falcon_keygen(name), Err(Error::InvalidInput));
        assert_eq!(PqcInterface::falcon_sign(name, &[0u8; 1281], b"m"), Err(Error::InvalidInput));
        assert_eq!(PqcInterface::falcon_verify(name, &[0u8; 897], b"m", &[1u8; 666]), Err(Error::InvalidInput));
    }
    for name in ["", "mldsa", "mldsa-44", "falcon512", "mlkem512"] {
        assert_eq!(PqcInterface::mldsa_keygen(name), Err(Error::InvalidInput));
        assert_eq!(PqcInterface::mldsa_sign(name, &[0u8; 2560], b"m"), Err(Error::InvalidInput));
        assert_eq!(PqcInterface::mldsa_verify(name, &[0u8; 1312], b"m", &[1u8; 2420]), Err(Error::InvalidInput));
    }
    assert_eq!(KemVariant::from_name("mldsa44"), None);
    assert_eq!(SignVariant::from_name("hqc128"), None);
}

#[test]
fn names_select_their_variants() {
    assert_eq!(KemVariant::from_name("mlkem512"), Some(KemVariant::MlKem512));
    assert_eq!(KemVariant::from_name("mlkem768"), Some(KemVariant::MlKem768));
    assert_eq!(KemVariant::from_name("mlkem1024"), Some(KemVariant::MlKem1024));
    assert_eq!(KemVariant::from_name("hqc128"), Some(KemVariant::Hqc128));
    assert_eq!(KemVariant::from_name("hqc192"), Some(KemVariant::Hqc192));
    assert_eq!(KemVariant::from_name("hqc256"), Some(KemVariant::Hqc256));
    assert_eq!(SignVariant::from_name("mldsa44"), Some(SignVariant::MlDsa44));
    assert_eq!(SignVariant::from_name("mldsa65"), Some(SignVariant::MlDsa65));
    assert_eq!(SignVariant::from_name("mldsa87"), Some(SignVariant::MlDsa87));
    assert_eq!(SignVariant::from_name("falcon512"), Some(SignVariant::Falcon512));
    assert_eq!(SignVariant::from_name("falcon1024"), Some(SignVariant::Falcon1024));
}

#[test]
fn hqc_is_recognised_but_unavailable() {
    assert_eq!(PqcInterface::hqc_keygen("hqc128"), Err(Error::UnsupportedOperation));
    assert_eq!(PqcInterface::hqc_encapsulate("hqc256", &[0u8; 7245]), Err(Error::UnsupportedOperation));
    assert_eq!(PqcInterface::hqc_encapsulate("hqc256", &[0u8; 7244]), Err(Error::InvalidInput));
    assert_eq!(PqcInterface::hqc_decapsulate("hqc192", &[0u8; 57], &[0u8; 9026]), Err(Error::UnsupportedOperation));
}

#[test]
fn host_interface_refuses_bad_inputs() {
    assert_eq!(PqcInterface::mlkem_encapsulate("mlkem768", &[0u8; 800]), Err(Error::InvalidInput));
    assert_eq!(PqcInterface::mlkem_decapsulate("mlkem1024", &[0u8; 3168], &[0u8; 1567]), Err(Error::InvalidInput));
    assert_eq!(PqcInterface::mldsa_sign("mldsa65", &[0u8; 10], b"m"), Err(Error::InvalidInput));
    assert_eq!(PqcInterface::falcon_verify("falcon1024", &[0u8; 1793], b"m", &[]), Err(Error::InvalidInput));
}

#[test]
fn host_interface_round_trips_other_variants() {
    let (sk, pk) = PqcInterface::mlkem_keygen("mlkem1024").unwrap();
    assert_eq!((sk.len(), pk.len()), (3168, 1568));
    assert_eq!(&sk[1536..3104], &pk[..]);
    let (ss1, ct) = PqcInterface::mlkem_encapsulate("mlkem1024", &pk).unwrap();
    assert_eq!(PqcInterface::mlkem_decapsulate("mlkem1024", &sk, &ct).unwrap(), ss1);

    let (sk, pk) = PqcInterface::mldsa_keygen("mldsa87").unwrap();
    let sig = PqcInterface::mldsa_sign("mldsa87", &sk, b"abc").unwrap();
    assert_eq!(sig.len(), 4627);
    assert_eq!(PqcInterface::mldsa_verify("mldsa87", &pk, b"abc", &sig), Ok(true));
    assert_eq!(PqcInterface::mldsa_verify("mldsa87", &pk, b"abd", &sig), Ok(false));

    let (sk, pk) = PqcInterface::falcon_keygen("falcon1024").unwrap();
    let sig = PqcInterface::falcon_sign("falcon1024", &sk, b"abc").unwrap();
    assert_eq!(sig.len(), 1280);
    assert_eq!(PqcInterface::falcon_verify("falcon1024", &pk, b"abc", &sig), Ok(true));
}

#[test]
fn self_tests_pass_for_available_variants() {
    for name in ["mlkem512", "mlkem768", "mlkem1024"] {
        assert_eq!(PqcInterface::kem_self_test(name), Ok(true));
    }
    for name in ["hqc128", "hqc192", "hqc256"] {
        assert_eq!(PqcInterface::kem_self_test(name), Err(Error::UnsupportedOperation));
    }
    for name in ["mldsa44", "mldsa65", "mldsa87", "falcon512", "falcon1024"] {
        assert_eq!(PqcInterface::sign_self_test(name, b"self test"), Ok(true));
    }
    assert_eq!(PqcInterface::kem_self_test("mldsa44"), Err(Error::InvalidInput));
    assert_eq!(PqcInterface::sign_self_test("mlkem512", b""), Err(Error::InvalidInput));
}
