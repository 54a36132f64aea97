use pqembed::{Error, Hqc128, Hqc192, Hqc256, HqcKem128, KemVariant, MlKem1024, MlKem512, MlKem768};

#[test]
fn test_mlkem512_sizes() {
    assert_eq!(MlKem512::PUBLIC_KEY_LEN, 800);
    assert_eq!(MlKem512::SECRET_KEY_LEN, 1632);
    assert_eq!(MlKem512::CIPHERTEXT_LEN, 768);
    assert_eq!(MlKem512::SHARED_SECRET_LEN, 32);
}

#[test]
fn test_mlkem512_keypair() {
    let mut pk = [0u8; MlKem512::PUBLIC_KEY_LEN];
    let mut sk = [0u8; MlKem512::SECRET_KEY_LEN];
    let result = MlKem512::keypair(&mut pk, &mut sk);
    assert!(result.is_ok(), "ML-KEM-512 keypair generation failed");
    assert!(!pk.iter().all(|&x| x == 0), "Public key should not be all zeros");
    assert!(!sk.iter().all(|&x| x == 0), "Secret key should not be all zeros");
}

#[test]
fn test_mlkem768_keypair() {
    let mut pk = [0u8; MlKem768::PUBLIC_KEY_LEN];
    let mut sk = [0u8; MlKem768::SECRET_KEY_LEN];
    let result = MlKem768::keypair(&mut pk, &mut sk);
    assert!(result.is_ok(), "ML-KEM-768 keypair generation failed");
    assert!(!pk.iter().all(|&x| x == 0), "Public key should not be all zeros");
    assert!(!sk.iter().all(|&x| x == 0), "Secret key should not be all zeros");
}

#[test]
fn test_mlkem1024_keypair() {
    let mut pk = [0u8; MlKem1024::PUBLIC_KEY_LEN];
    let mut sk = [0u8; MlKem1024::SECRET_KEY_LEN];
    let result = MlKem1024::keypair(&mut pk, &mut sk);
    assert!(result.is_ok(), "ML-KEM-1024 keypair generation failed");
    assert!(!pk.iter().all(|&x| x == 0), "Public key should not be all zeros");
    assert!(!sk.iter().all(|&x| x == 0), "Secret key should not be all zeros");
}

#[test]
fn test_hqc128_keypair() {
    let mut pk = [0u8; Hqc128::PUBLIC_KEY_LEN];
    let mut sk = [0u8; Hqc128::SECRET_KEY_LEN];
    assert_eq!(Hqc128::keypair(&mut pk, &mut sk), Err(Error::UnsupportedOperation));
    assert!(pk.iter().all(|&x| x == 0) && sk.iter().all(|&x| x == 0));
}

#[test]
fn test_hqc192_keypair() {
    let mut pk = [0u8; Hqc192::PUBLIC_KEY_LEN];
    let mut sk = [0u8; Hqc192::SECRET_KEY_LEN];
    assert_eq!(Hqc192::keypair(&mut pk, &mut sk), Err(Error::UnsupportedOperation));
}

#[test]
fn test_hqc256_keypair() {
    let mut pk = [0u8; Hqc256::PUBLIC_KEY_LEN];
    let mut sk = [0u8; Hqc256::SECRET_KEY_LEN];
    assert_eq!(Hqc256::keypair(&mut pk, &mut sk), Err(Error::UnsupportedOperation));
}

#[test]
fn test_mlkem512_encapsulate_decapsulate() {
    let mut pk = [0u8; 800];
    let mut sk = [0u8; 1632];
    MlKem512::keypair(&mut pk, &mut sk).unwrap();
    let mut ct = [0u8; 768];
    let mut ss1 = [0u8; 32];
    MlKem512::encapsulate(&mut ct, &mut ss1, &pk).unwrap();
    let mut ss2 = [0u8; 32];
    MlKem512::decapsulate(&mut ss2, &ct, &sk).unwrap();
    assert_eq!(ss1, ss2);
    assert!(!ss1.iter().all(|&x| x == 0));
}

#[test]
fn test_hqc128_encapsulate_decapsulate() {
    let pk = [1u8; 2249];
    let mut ct = [0u8; 4481];
    let mut ss = [0u8; 32];
    assert_eq!(Hqc128::encapsulate(&mut ct, &mut ss, &pk), Err(Error::UnsupportedOperation));
    let sk = [1u8; 57];
    assert_eq!(Hqc128::decapsulate(&mut ss, &ct, &sk), Err(Error::UnsupportedOperation));
    assert_eq!(ss, [0u8; 32]);
}

#[test]
fn hqc_checks_buffers_before_reporting_unavailable() {
    let mut pk = [0u8; 2249];
    let mut sk = [0u8; 56];
    assert_eq!(Hqc128::keypair(&mut pk, &mut sk), Err(Error::BufferTooSmall));
    let mut ct = [0u8; 9026];
    let mut ss = [0u8; 32];
    assert_eq!(Hqc192::encapsulate(&mut ct, &mut ss, &[0u8; 10]), Err(Error::InvalidInput));
    let mut short = [0u8; 16];
    assert_eq!(Hqc256::decapsulate(&mut short, &[0u8; 14469], &[0u8; 57]), Err(Error::BufferTooSmall));
}

#[test]
fn mlkem768_and_1024_round_trip() {
    let mut pk = [0u8; 1184];
    let mut sk = [0u8; 2400];
    MlKem768::keypair(&mut pk, &mut sk).unwrap();
    let mut ct = [0u8; 1088];
    let mut ss1 = [0u8; 32];
    let mut ss2 = [0u8; 32];
    MlKem768::encapsulate(&mut ct, &mut ss1, &pk).unwrap();
    MlKem768::decapsulate(&mut ss2, &ct, &sk).unwrap();
    assert_eq!(ss1, ss2);

    let mut pk = [0u8; 1568];
    let mut sk = [0u8; 3168];
    MlKem1024::keypair(&mut pk, &mut sk).unwrap();
    let mut ct = [0u8; 1568];
    let mut ss1 = [0u8; 32];
    let mut ss2 = [0u8; 32];
    MlKem1024::encapsulate(&mut ct, &mut ss1, &pk).unwrap();
    MlKem1024::decapsulate(&mut ss2, &ct, &sk).unwrap();
    assert_eq!(ss1, ss2);
}

#[test]
fn mlkem_secret_key_holds_public_key() {
    let mut pk = [0u8; 800];
    let mut sk = [0u8; 1632];
    MlKem512::keypair(&mut pk, &mut sk).unwrap();
    assert_eq!(&sk[768..1568], &pk[..]);

    let mut pk = [0u8; 1184];
    let mut sk = [0u8; 2400];
    MlKem768::keypair(&mut pk, &mut sk).unwrap();
    assert_eq!(&sk[1152..2336], &pk[..]);
}

#[test]
fn keypair_refuses_wrong_output_lengths_untouched() {
    let mut pk = [7u8; 799];
    let mut sk = [7u8; 1632];
    assert_eq!(MlKem512::keypair(&mut pk, &mut sk), Err(Error::BufferTooSmall));
    assert!(pk.iter().all(|&x| x == 7) && sk.iter().all(|&x| x == 7));
    // exact length is required: a longer buffer is refused too
    let mut pk = [7u8; 801];
    let mut sk = [7u8; 1632];
    assert_eq!(MlKem512::keypair(&mut pk, &mut sk), Err(Error::BufferTooSmall));
    assert!(pk.iter().all(|&x| x == 7) && sk.iter().all(|&x| x == 7));
}

#[test]
fn encapsulate_tells_short_output_from_bad_key() {
    let pk = [0u8; 800];
    let mut ct = [9u8; 767];
    let mut ss = [9u8; 32];
    assert_eq!(MlKem512::encapsulate(&mut ct, &mut ss, &pk), Err(Error::BufferTooSmall));
    assert!(ct.iter().all(|&x| x == 9) && ss.iter().all(|&x| x == 9));
    let mut ct = [9u8; 768];
    let mut ss = [9u8; 31];
    assert_eq!(MlKem512::encapsulate(&mut ct, &mut ss, &pk), Err(Error::BufferTooSmall));
    let mut ss = [9u8; 32];
    assert_eq!(MlKem512::encapsulate(&mut ct, &mut ss, &pk[..799]), Err(Error::InvalidInput));
    assert!(ct.iter().all(|&x| x == 9) && ss.iter().all(|&x| x == 9));
    // an output error is reported before an input error
    let mut ss = [9u8; 30];
    assert_eq!(MlKem512::encapsulate(&mut ct, &mut ss, &pk[..10]), Err(Error::BufferTooSmall));
}

#[test]
fn decapsulate_checks_all_lengths() {
    let ct = [0u8; 768];
    let sk = [0u8; 1632];
    let mut ss = [5u8; 33];
    assert_eq!(MlKem512::decapsulate(&mut ss, &ct, &sk), Err(Error::BufferTooSmall));
    let mut ss = [5u8; 32];
    assert_eq!(MlKem512::decapsulate(&mut ss, &ct[..767], &sk), Err(Error::InvalidInput));
    assert_eq!(MlKem512::decapsulate(&mut ss, &ct, &sk[..1631]), Err(Error::InvalidInput));
    assert_eq!(ss, [5u8; 32]);
}

#[test]
fn decapsulate_rejects_implicitly() {
    let mut pk = [0u8; 800];
    let mut sk = [0u8; 1632];
    MlKem512::keypair(&mut pk, &mut sk).unwrap();
    let mut ct = [0u8; 768];
    let mut ss1 = [0u8; 32];
    MlKem512::encapsulate(&mut ct, &mut ss1, &pk).unwrap();
    ct[0] ^= 1;
    let mut ss2 = [0u8; 32];
    assert_eq!(MlKem512::decapsulate(&mut ss2, &ct, &sk), Ok(()));
    assert_ne!(ss1, ss2);
    // decapsulation is a function of ciphertext and key
    let mut ss3 = [0u8; 32];
    MlKem512::decapsulate(&mut ss3, &ct, &sk).unwrap();
    assert_eq!(ss2, ss3);
}

#[test]
fn variant_operations_match_typed_ones() {
    let v = KemVariant::MlKem1024;
    let d = v.descriptor();
    assert_eq!((d.public_key_len, d.secret_key_len, d.ciphertext_len, d.shared_secret_len), (1568, 3168, 1568, 32));
    let mut pk = vec![0u8; d.public_key_len];
    let mut sk = vec![0u8; d.secret_key_len];
    v.keypair(&mut pk, &mut sk).unwrap();
    let mut ct = vec![0u8; d.ciphertext_len];
    let mut ss1 = vec![0u8; 32];
    v.encapsulate(&mut ct, &mut ss1, &pk).unwrap();
    let mut ss2 = vec![0u8; 32];
    MlKem1024::decapsulate(&mut ss2, &ct, &sk).unwrap();
    assert_eq!(ss1, ss2);
    let d = KemVariant::Hqc256.descriptor();
    assert_eq!((d.public_key_len, d.secret_key_len, d.ciphertext_len, d.shared_secret_len), (7245, 57, 14469, 32));
}

#[test]
fn hqc_kem128_is_hqc128() {
    assert_eq!(HqcKem128::PUBLIC_KEY_LEN, 2249);
    assert_eq!(HqcKem128::SECRET_KEY_LEN, 57);
    let mut pk = [0u8; 2249];
    let mut sk = [0u8; 57];
    assert_eq!(HqcKem128::keypair(&mut pk, &mut sk), Err(Error::UnsupportedOperation));
}
